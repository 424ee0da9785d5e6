use rust_python_lab::binary64::Binary64;
use rust_python_lab::cancel::Cancel;
use rust_python_lab::error::{RuntimeError, ValueError};
use rust_python_lab::gate::{Gate, GateKind, MAX_PERMITS};
use rust_python_lab::handle::Handle;
use rust_python_lab::outcome::TaskError;
use rust_python_lab::policy::{OnFull, RetryPolicy};
use rust_python_lab::runtime::{
    Batch, BatchStep, Runtime, WorkGuard, DEFAULT_MAX_CONCURRENCY, DEFAULT_QUEUE_CAPACITY,
};
use rust_python_lab::task::Task;
use rust_python_lab::work::{acquire_permit, AcquireStep, PermitPoll, WorkCtx};
use std::sync::Arc;
use tokio::sync::Semaphore;

type Parts = (WorkGuard, WorkCtx, Handle<u8>);

fn number(value: f64) -> Binary64 {
    Binary64 { bits: value.to_bits() }
}

fn runtime(max_concurrency: usize, queue_capacity: usize, on_full: OnFull) -> Runtime {
    match Runtime::new(max_concurrency, queue_capacity, on_full, None, None, None) {
        Ok(runtime) => runtime,
        Err(error) => panic!("{}", error.message()),
    }
}

fn submit(runtime: &mut Runtime) -> Result<Parts, RuntimeError> {
    runtime.submit(None)
}

fn row(runtime: &Runtime, name: &str) -> u64 {
    runtime.stats().iter().find(|row| row.0 == name).unwrap().1
}

/// Lets the task through whichever gate it waits at, if a permit is free.
fn grant(runtime: &mut Runtime, work: &mut WorkCtx, handle: &mut Handle<u8>) -> AcquireStep<u8> {
    let kind = work.wanted().unwrap();
    let polled = match runtime.inner.semaphore(kind).try_acquire_owned() {
        Ok(permit) => PermitPoll::Granted(permit),
        Err(_) => PermitPoll::Pending,
    };
    work.acquire_execution(&mut runtime.inner, handle, false, polled)
}

#[test]
fn parameters_are_checked_in_order() {
    let bad = Some(number(-1.0));
    let error = |max, cap, timeout, ttl| {
        Runtime::new(max, cap, OnFull::REJECT, timeout, None, ttl).err()
    };
    assert_eq!(error(0, usize::MAX, bad, bad), Some(ValueError::MaxConcurrency));
    assert_eq!(error(1, usize::MAX, bad, bad), Some(ValueError::QueueCapacity));
    assert_eq!(error(1, 1, bad, None), Some(ValueError::Timeout));
    assert_eq!(error(1, 1, None, bad), Some(ValueError::Timeout));
    assert_eq!(error(1, 0, Some(number(1.0)), Some(number(2.0))), None);
    assert_eq!(error(DEFAULT_MAX_CONCURRENCY, DEFAULT_QUEUE_CAPACITY, None, None), None);
    assert_eq!((DEFAULT_MAX_CONCURRENCY, DEFAULT_QUEUE_CAPACITY), (32, 128));
    assert_eq!(error(MAX_PERMITS, 0, None, None), None);
    assert_eq!(MAX_PERMITS, Semaphore::MAX_PERMITS);
}

#[test]
fn a_new_runtime_is_open_and_idle() {
    let runtime = runtime(2, 3, OnFull::REJECT);
    assert!(!runtime.closed());
    assert_eq!(runtime.inner.work_count(), 0);
    assert!(!runtime.inner.ever_worked());
    assert!(runtime.inner.idle_ttl().is_none());
    assert_eq!(runtime.inner.retry().max_attempts, 1);
    assert_eq!(runtime.inner.semaphore(GateKind::Concurrency).available_permits(), 2);
    assert_eq!(runtime.inner.semaphore(GateKind::Admission).available_permits(), 5);
    assert!(!runtime.inner.shutdown_token().is_cancelled());
}

#[test]
fn a_runtime_takes_its_retry_parameters_from_the_policy() {
    let policy = RetryPolicy::default();
    let runtime = Runtime::new(1, 0, OnFull::WAIT, None, Some(&policy), Some(number(2.5))).unwrap();
    assert_eq!(runtime.inner.retry().max_attempts, 3);
    assert_eq!(runtime.inner.idle_ttl().unwrap().secs(), number(2.5));
}

#[test]
fn a_full_queue_refuses() {
    let mut runtime = runtime(1, 2, OnFull::REJECT);
    let parts: Vec<Parts> = (0..3).map(|_| submit(&mut runtime).ok().unwrap()).collect();
    assert_eq!(submit(&mut runtime).err(), Some(RuntimeError::QueueFull));
    assert_eq!(runtime.inner.work_count(), 3);
    assert_eq!(row(&runtime, "queued"), 3);
    drop(parts);
    assert!(submit(&mut runtime).is_ok());
}

#[test]
fn a_full_queue_that_waits_refuses_nothing() {
    let mut runtime = runtime(1, 0, OnFull::WAIT);
    let parts: Vec<Parts> = (0..5).map(|_| submit(&mut runtime).ok().unwrap()).collect();
    assert_eq!(runtime.inner.semaphore(GateKind::Admission).available_permits(), 1);
    assert!(parts.iter().all(|p| p.1.wanted() == Some(GateKind::Admission)));
}

#[test]
fn task_numbers_advance() {
    let mut runtime = runtime(1, 9, OnFull::REJECT);
    for id in 1..6 {
        let (_, work, handle) = submit(&mut runtime).ok().unwrap();
        assert_eq!(work.task_id(), id);
        assert_eq!(handle.status(), "queued");
        assert!(!handle.done());
    }
}

#[test]
fn a_closed_runtime_refuses() {
    let mut runtime = runtime(1, 1, OnFull::REJECT);
    assert!(runtime.inner.ensure_open().is_ok());
    runtime.inner.close();
    assert!(runtime.closed());
    assert_eq!(runtime.inner.ensure_open(), Err(RuntimeError::RuntimeClosed));
    assert_eq!(submit(&mut runtime).err(), Some(RuntimeError::RuntimeClosed));
    let timeout = Some(number(-1.0));
    assert_eq!(runtime.submit::<u8>(timeout).err(), Some(RuntimeError::RuntimeClosed));
    let too_long = Some(number(1e300));
    assert_eq!(runtime.submit::<u8>(too_long).err(), Some(RuntimeError::RuntimeClosed));
    assert_eq!(runtime.stream::<u8, u8>(too_long, 1).err(), Some(RuntimeError::RuntimeClosed));
    assert!(WorkGuard::try_begin(&mut runtime.inner).is_err());
    assert_eq!(runtime.inner.work_count(), 0);
    assert!(!runtime.inner.ever_worked());
    assert_eq!(row(&runtime, "queued"), 0);
}

#[test]
fn timeouts_are_resolved() {
    let mut runtime =
        Runtime::new(1, 9, OnFull::REJECT, Some(number(30.0)), None, None).unwrap();
    let own = runtime.submit::<u8>(Some(number(10.0))).ok().unwrap();
    assert_eq!(own.1.timeout().unwrap().secs(), number(10.0));
    let default = submit(&mut runtime).ok().unwrap();
    assert_eq!(default.1.timeout().unwrap().secs(), number(30.0));
    let bad = runtime.submit::<u8>(Some(number(f64::NAN))).err();
    assert_eq!(bad, Some(RuntimeError::Value(ValueError::Timeout)));
    assert!(runtime.inner.resolve_timeout(None).unwrap().is_some());
}

#[test]
fn a_refused_task_leaves_no_trace() {
    let mut runtime = runtime(1, 0, OnFull::REJECT);
    assert!(runtime.submit::<u8>(Some(number(-1.0))).is_err());
    assert_eq!(runtime.inner.semaphore(GateKind::Admission).available_permits(), 1);
    assert_eq!(row(&runtime, "queued"), 0);
    assert_eq!(runtime.inner.work_count(), 0);
    let parts = submit(&mut runtime).ok().unwrap();
    assert_eq!(parts.1.task_id(), 1);
}

#[test]
fn work_passes_both_gates() {
    let mut runtime = runtime(1, 1, OnFull::WAIT);
    let (_, mut work, mut handle) = submit(&mut runtime).ok().unwrap();
    assert!(work.task_run(runtime.inner.retry()).is_none());
    assert!(work.stream_run().is_none());
    let step = grant(&mut runtime, &mut work, &mut handle);
    assert!(matches!(step, AcquireStep::Wait(GateKind::Concurrency)));
    assert_eq!(handle.status(), "queued");
    let step = grant(&mut runtime, &mut work, &mut handle);
    assert!(matches!(step, AcquireStep::Ready));
    assert_eq!(handle.status(), "running");
    assert_eq!((row(&runtime, "queued"), row(&runtime, "in_flight")), (0, 1));
    assert_eq!(work.wanted(), None);
    assert!(work.task_run(runtime.inner.retry()).is_some());
    assert!(work.stream_run().is_some());
    let again: AcquireStep<u8> =
        work.acquire_execution(&mut runtime.inner, &mut handle, true, PermitPoll::Closed);
    assert!(matches!(again, AcquireStep::Ready));
    assert_eq!(row(&runtime, "in_flight"), 1);
}

#[test]
fn no_more_tasks_execute_than_allowed() {
    let mut runtime = runtime(2, 4, OnFull::REJECT);
    let mut parts: Vec<Parts> = (0..6).map(|_| submit(&mut runtime).ok().unwrap()).collect();
    let mut executing = 0;
    for (_, work, handle) in parts.iter_mut() {
        if let AcquireStep::Ready = grant(&mut runtime, work, handle) {
            executing += 1;
        }
    }
    assert_eq!(executing, 2);
    assert_eq!(row(&runtime, "in_flight"), 2);
    let (guard, work, mut handle) = parts.remove(0);
    drop(work);
    let result: Result<u8, TaskError<u8>> = Ok(1);
    runtime.inner.finish_work(&mut handle, &result);
    guard.release(&mut runtime.inner);
    let mut ready = 0;
    for (_, work, handle) in parts.iter_mut() {
        if work.wanted().is_some() {
            if let AcquireStep::Ready = grant(&mut runtime, work, handle) {
                ready += 1;
            }
        }
    }
    assert_eq!(ready, 1);
    assert_eq!(row(&runtime, "succeeded"), 1);
}

#[test]
fn permits_come_back_when_tasks_end() {
    let mut runtime = runtime(1, 1, OnFull::REJECT);
    let (_, mut work, mut handle) = submit(&mut runtime).ok().unwrap();
    assert!(matches!(grant(&mut runtime, &mut work, &mut handle), AcquireStep::Ready));
    assert_eq!(runtime.inner.semaphore(GateKind::Concurrency).available_permits(), 0);
    assert_eq!(runtime.inner.semaphore(GateKind::Admission).available_permits(), 1);
    drop(work);
    assert_eq!(runtime.inner.semaphore(GateKind::Concurrency).available_permits(), 1);
    assert_eq!(runtime.inner.semaphore(GateKind::Admission).available_permits(), 2);
}

#[test]
fn waiting_for_permits() {
    let semaphore = Arc::new(Semaphore::new(1));
    let pending = acquire_permit::<u8>(false, PermitPoll::Pending);
    assert!(pending.is_none());
    let permit = Arc::clone(&semaphore).try_acquire_owned().unwrap();
    let granted = acquire_permit::<u8>(false, PermitPoll::Granted(permit));
    assert!(matches!(granted, Some(Ok(_))));
    drop(granted);
    let permit = Arc::clone(&semaphore).try_acquire_owned().unwrap();
    let cancelled = acquire_permit::<u8>(true, PermitPoll::Granted(permit));
    assert!(matches!(cancelled, Some(Err(TaskError::Cancelled))));
    assert_eq!(semaphore.available_permits(), 1);
    let closed = acquire_permit::<u8>(false, PermitPoll::Closed);
    assert!(matches!(closed, Some(Err(TaskError::SemaphoreClosed))));
}

#[test]
fn cancelled_work_does_not_start() {
    let mut runtime = runtime(1, 0, OnFull::REJECT);
    let (_, mut work, mut handle) = submit(&mut runtime).ok().unwrap();
    let permit = runtime.inner.semaphore(GateKind::Concurrency).try_acquire_owned().unwrap();
    let step: AcquireStep<u8> = work.acquire_execution(
        &mut runtime.inner,
        &mut handle,
        true,
        PermitPoll::Granted(permit),
    );
    assert!(matches!(step, AcquireStep::Failed(TaskError::Cancelled)));
    assert_eq!(handle.status(), "queued");
    assert_eq!(row(&runtime, "in_flight"), 0);
}

#[test]
fn a_gate_gives_out_what_it_has() {
    let gate = Gate::new(GateKind::Admission, 2);
    let first = gate.try_acquire();
    let second = gate.try_acquire();
    assert!(first.is_some() && second.is_some());
    assert!(gate.try_acquire().is_none());
    drop(first);
    assert!(gate.try_acquire().is_some());
    assert!(gate.permit_of(gate.semaphore().try_acquire_owned()).is_some());
}

#[test]
fn a_handle_cancels_its_work() {
    let mut runtime = runtime(2, 0, OnFull::REJECT);
    let (_, _, mut handle) = submit(&mut runtime).ok().unwrap();
    let (_, _, other) = submit(&mut runtime).ok().unwrap();
    let token = handle.cancel.token();
    assert!(!handle.cancelled());
    assert_eq!(handle.cancel(), None);
    assert!(handle.cancelled());
    assert!(token.is_cancelled());
    assert!(!other.cancelled());
    assert!(!runtime.inner.shutdown_token().is_cancelled());
    handle.py_task.store(8);
    assert_eq!(handle.cancel(), Some(&8));
    assert_eq!(handle.py_task.get(), Some(&8));
}

#[test]
fn cancelling_all_work_reaches_every_handle() {
    let mut runtime = runtime(2, 0, OnFull::REJECT);
    let (_, _, handle) = submit(&mut runtime).ok().unwrap();
    runtime.inner.cancel_work();
    assert!(handle.cancelled());
    assert!(runtime.inner.shutdown_token().is_cancelled());
    let (_, _, late) = submit(&mut runtime).ok().unwrap();
    assert!(late.cancelled());
}

#[test]
fn scopes_nest() {
    let mut root = Cancel::root();
    let mut child = root.child();
    let shared = root.share();
    child.cancel();
    assert!(child.is_cancelled());
    assert!(!root.is_cancelled());
    root.cancel();
    assert!(shared.is_cancelled());
    assert!(root.child().is_cancelled());
    assert!(Cancel::root().is_cancelled_given(true));
    assert!(!Cancel::root().is_cancelled_given(false));
}

#[test]
fn the_last_work_to_end_wakes_those_who_wait() {
    let mut runtime = runtime(2, 0, OnFull::REJECT);
    let executor = tokio::runtime::Builder::new_current_thread().build().unwrap();
    executor.block_on(async {
        let started = runtime.inner.work_started();
        let idle = runtime.inner.became_idle();
        let begun = started.notified();
        let first = WorkGuard::try_begin(&mut runtime.inner).ok().unwrap();
        begun.await;
        let second = WorkGuard::try_begin(&mut runtime.inner).ok().unwrap();
        let mut ended = Box::pin(idle.notified());
        ended.as_mut().enable();
        first.release(&mut runtime.inner);
        assert!(!ended.as_mut().enable());
        assert_eq!(runtime.inner.work_count(), 1);
        second.release(&mut runtime.inner);
        ended.await;
    });
    assert_eq!(runtime.inner.work_count(), 0);
    assert!(runtime.inner.ever_worked());
}

#[test]
fn stats_rows() {
    let mut runtime = runtime(4, 4, OnFull::REJECT);
    for end in [TaskError::Cancelled, TaskError::TimedOut] {
        let (_, _, mut handle) = submit(&mut runtime).ok().unwrap();
        let result: Result<u8, TaskError<u8>> = Err(end);
        runtime.inner.finish_work(&mut handle, &result);
        assert!(handle.done());
    }
    let _waiting = submit(&mut runtime);
    assert_eq!(
        runtime.stats(),
        vec![
            ("queued", 1),
            ("in_flight", 0),
            ("succeeded", 0),
            ("failed", 0),
            ("cancelled", 1),
            ("timed_out", 1),
            ("completed", 2),
        ]
    );
}

/// Submits what is left of the batch: those taken on, and the refusal.
fn submit_rest(runtime: &mut Runtime, batch: &mut Batch) -> (Vec<Parts>, Option<RuntimeError>) {
    let mut parts = Vec::new();
    loop {
        match batch.submit_next(runtime) {
            BatchStep::Submitted(work, ctx, handle) => parts.push((work, ctx, handle)),
            BatchStep::Refused(error) => return (parts, Some(error)),
            BatchStep::Done => return (parts, None),
        }
    }
}

#[test]
fn a_batch_is_submitted_in_order() {
    let mut runtime = runtime(1, 3, OnFull::REJECT);
    let mut batch = runtime.submit_all(vec![None, Some(number(2.0)), None]).ok().unwrap();
    assert_eq!(runtime.inner.work_count(), 0);
    assert_eq!(batch.upcoming(), Some(None));
    let (parts, refused) = submit_rest(&mut runtime, &mut batch);
    assert_eq!(refused, None);
    assert_eq!(batch.upcoming(), None);
    let ids: Vec<u64> = parts.iter().map(|p| p.1.task_id()).collect();
    assert_eq!(ids, vec![1, 2, 3]);
    assert!(parts[0].1.timeout().is_none());
    assert_eq!(parts[1].1.timeout().unwrap().secs(), number(2.0));
    assert_eq!(runtime.inner.work_count(), 3);
    assert_eq!(row(&runtime, "queued"), 3);
}

#[test]
fn a_batch_stops_at_the_first_refusal() {
    let mut runtime = runtime(1, 1, OnFull::REJECT);
    let mut batch = runtime.submit_all(vec![None, None, None, None]).ok().unwrap();
    let (parts, refused) = submit_rest(&mut runtime, &mut batch);
    assert_eq!(parts.len(), 2);
    assert_eq!(refused, Some(RuntimeError::QueueFull));
    drop(parts);
    assert_eq!(batch.upcoming(), None);
    assert_eq!(submit_rest(&mut runtime, &mut batch).0.len(), 0);
    let mut batch = runtime.submit_all(vec![None, Some(number(-1.0)), None]).ok().unwrap();
    let (parts, refused) = submit_rest(&mut runtime, &mut batch);
    assert_eq!(parts.len(), 1);
    assert_eq!(refused, Some(RuntimeError::Value(ValueError::Timeout)));
}

#[test]
fn a_closed_runtime_refuses_an_empty_batch() {
    let mut runtime = runtime(1, 1, OnFull::REJECT);
    let mut batch = runtime.submit_all(vec![]).ok().unwrap();
    assert_eq!(submit_rest(&mut runtime, &mut batch).1, None);
    let mut begun = runtime.submit_all(vec![None]).ok().unwrap();
    runtime.inner.close();
    assert_eq!(runtime.submit_all(vec![]).err(), Some(RuntimeError::RuntimeClosed));
    let (parts, refused) = submit_rest(&mut runtime, &mut begun);
    assert!(parts.is_empty());
    assert_eq!(refused, Some(RuntimeError::RuntimeClosed));
}

#[test]
fn capacity_is_what_runs_and_what_waits() {
    let mut runtime = runtime(1, 1, OnFull::REJECT);
    let first = submit(&mut runtime);
    let second = submit(&mut runtime);
    assert!(first.is_ok() && second.is_ok());
    assert_eq!(submit(&mut runtime).err(), Some(RuntimeError::QueueFull));
    assert_eq!(row(&runtime, "queued") + row(&runtime, "in_flight"), 2);
}

#[test]
fn work_that_will_not_start_keeps_no_permit() {
    let mut runtime = runtime(1, 0, OnFull::REJECT);
    let (_, mut work, mut handle) = submit(&mut runtime).ok().unwrap();
    assert_eq!(runtime.inner.semaphore(GateKind::Admission).available_permits(), 0);
    let step: AcquireStep<u8> =
        work.acquire_execution(&mut runtime.inner, &mut handle, true, PermitPoll::Pending);
    assert!(matches!(step, AcquireStep::Failed(TaskError::Cancelled)));
    assert_eq!(runtime.inner.semaphore(GateKind::Admission).available_permits(), 1);
    assert_eq!(work.wanted(), Some(GateKind::Admission));
    assert_eq!(row(&runtime, "queued"), 1);
    let step: AcquireStep<u8> =
        work.acquire_execution(&mut runtime.inner, &mut handle, false, PermitPoll::Closed);
    assert!(matches!(step, AcquireStep::Failed(TaskError::SemaphoreClosed)));
}

#[test]
fn tasks_describe_work() {
    let task = Task::new("call", (1, 2), Some(number(3.0)));
    assert_eq!(task.func, "call");
    assert_eq!(task.args, (1, 2));
    assert_eq!(task.timeout, Some(number(3.0)));
}
