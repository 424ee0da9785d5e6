use rust_python_lab::binary64::Binary64;
use rust_python_lab::bridge::{shared_py_task, TaskCell};
use rust_python_lab::error::{RuntimeError, ValueError};
use rust_python_lab::forward::{ForwardAction, ForwardEvent, ForwardRun};
use rust_python_lab::gate::GateKind;
use rust_python_lab::gather::Gather;
use rust_python_lab::handle::Handle;
use rust_python_lab::idle::{IdleWatcher, Wake, WatchAction};
use rust_python_lab::outcome::{ErrorKind, TaskError};
use rust_python_lab::policy::{Backoff, OnFull, RetryPolicy};
use rust_python_lab::retry::{RunAction, RunEvent, TaskRun};
use rust_python_lab::runtime::{Runtime, WorkGuard};
use rust_python_lab::shutdown::{Drain, DrainAction};
use rust_python_lab::stream::{
    completion_channel, item_channel, Completion, CompletionStream, ItemStream, StreamAction,
    StreamEvent, StreamRun,
};
use rust_python_lab::work::{AcquireStep, PermitPoll, WorkCtx};

type Action = RunAction<u32, &'static str>;
type Flow = StreamAction<u32, &'static str>;

fn number(value: f64) -> Binary64 {
    Binary64 { bits: value.to_bits() }
}

fn failure(text: &'static str) -> TaskError<&'static str> {
    TaskError::Raised {
        error: text,
        kind: ErrorKind { timeout: false, cancelled: false, stop_iteration: false },
    }
}

fn executing(policy: Option<&RetryPolicy>) -> (Runtime, WorkCtx, Handle<u8>) {
    let mut runtime = Runtime::new(1, 0, OnFull::REJECT, None, policy, None).unwrap();
    let (_, mut work, mut handle) = runtime.submit(None).ok().unwrap();
    let permit = runtime.inner.semaphore(GateKind::Concurrency).try_acquire_owned().unwrap();
    let step: AcquireStep<u8> = work.acquire_execution(
        &mut runtime.inner,
        &mut handle,
        false,
        PermitPoll::Granted(permit),
    );
    assert!(matches!(step, AcquireStep::Ready));
    (runtime, work, handle)
}

fn task_run(max_attempts: u32, backoff_ms: u64) -> (TaskRun, Handle<u8>) {
    let policy = RetryPolicy::new(max_attempts, backoff_ms, number(2.0), 0, false).unwrap();
    let (runtime, work, handle) = executing(Some(&policy));
    (work.task_run(runtime.inner.retry()).unwrap(), handle)
}

fn returned(run: &mut TaskRun, cell: &mut TaskCell<u8>, result: Result<u32, TaskError<&'static str>>) -> Action {
    run.on_event(cell, RunEvent::Returned(result))
}

fn stream_run() -> StreamRun {
    let (_, work, _) = executing(None);
    work.stream_run().unwrap()
}

#[test]
fn a_success_is_not_repeated() {
    let (mut run, mut handle) = task_run(3, 0);
    let step: Action = run.turn(&mut handle);
    assert!(matches!(step, RunAction::Call));
    let step = returned(&mut run, &mut handle.py_task, Ok(6));
    assert!(matches!(step, RunAction::End(Ok(6))));
    let step: Action = run.turn(&mut handle);
    assert!(matches!(step, RunAction::Ignore));
}

#[test]
fn failures_are_repeated_until_attempts_run_out() {
    let (mut run, mut handle) = task_run(3, 0);
    for attempt in 0..3 {
        handle.py_task.store(attempt);
        let step: Action = run.turn(&mut handle);
        assert!(matches!(step, RunAction::Call));
        assert_eq!(handle.py_task.get().is_some(), attempt == 0);
        let text = ["first", "second", "third"][attempt as usize];
        match returned(&mut run, &mut handle.py_task, Err(failure(text))) {
            RunAction::Again => assert!(attempt < 2),
            RunAction::End(Err(TaskError::Raised { error, .. })) => {
                assert_eq!((attempt, error), (2, "third"))
            }
            _ => panic!("unexpected step"),
        }
    }
}

#[test]
fn timeouts_are_repeated_and_cancellations_are_not() {
    let (mut run, mut handle) = task_run(3, 0);
    let _: Action = run.turn(&mut handle);
    let step = returned(&mut run, &mut handle.py_task, Err(TaskError::TimedOut));
    assert!(matches!(step, RunAction::Again));
    let _: Action = run.turn(&mut handle);
    let step = returned(&mut run, &mut handle.py_task, Err(TaskError::Cancelled));
    assert!(matches!(step, RunAction::End(Err(TaskError::Cancelled))));
}

#[test]
fn pauses_lie_between_attempts() {
    let (mut run, mut handle) = task_run(2, 40);
    let step: Action = run.turn(&mut handle);
    assert!(matches!(step, RunAction::Call));
    let step = returned(&mut run, &mut handle.py_task, Err(failure("first")));
    assert!(matches!(step, RunAction::Again));
    let step: Action = run.turn(&mut handle);
    match step {
        RunAction::Pause(Backoff::Scaled { base_ms, exponent, .. }) => {
            assert_eq!((base_ms, exponent), (40, 0))
        }
        _ => panic!("unexpected step"),
    }
    let step: Action = run.on_event(&mut handle.py_task, RunEvent::Resume { cancelled: false });
    assert!(matches!(step, RunAction::Call));
}

#[test]
fn a_cancelled_call_is_not_made() {
    let (mut run, mut handle) = task_run(2, 40);
    let _: Action = run.turn(&mut handle);
    let _ = returned(&mut run, &mut handle.py_task, Err(failure("first")));
    let step: Action = run.turn(&mut handle);
    assert!(matches!(step, RunAction::Pause(_)));
    let step: Action = run.on_event(&mut handle.py_task, RunEvent::Resume { cancelled: true });
    assert!(matches!(step, RunAction::End(Err(TaskError::Cancelled))));

    let (mut run, mut handle) = task_run(2, 0);
    handle.cancel();
    let step: Action = run.turn(&mut handle);
    assert!(matches!(step, RunAction::End(Err(TaskError::Cancelled))));
}

#[test]
fn one_attempt_without_a_policy() {
    let (runtime, work, mut handle) = executing(None);
    let mut run = work.task_run(runtime.inner.retry()).unwrap();
    let _: Action = run.turn(&mut handle);
    let step = returned(&mut run, &mut handle.py_task, Err(failure("only")));
    assert!(matches!(step, RunAction::End(Err(TaskError::Raised { error: "only", .. }))));
}

#[test]
fn events_out_of_turn_are_ignored() {
    let (mut run, _handle) = task_run(2, 0);
    let mut cell = shared_py_task();
    cell.store(3);
    let step = returned(&mut run, &mut cell, Ok(1));
    assert!(matches!(step, RunAction::Ignore));
    let step: Action = run.on_event(&mut cell, RunEvent::Resume { cancelled: true });
    assert!(matches!(step, RunAction::Ignore));
    assert_eq!(cell.get(), Some(&3));
}

#[test]
fn gathered_results_keep_the_order_of_the_tasks() {
    let mut gather: Gather<u32, &'static str> = Gather::new(4, true);
    assert!(gather.on_result(2, Ok(20)).is_none());
    assert!(gather.on_result(0, Err(failure("zero"))).is_none());
    assert!(gather.on_result(1, Ok(10)).is_none());
    let results = gather.finish();
    assert_eq!(results.len(), 4);
    assert!(matches!(results[0], Err(TaskError::Raised { error: "zero", .. })));
    assert!(matches!(results[1], Ok(10)));
    assert!(matches!(results[2], Ok(20)));
    assert!(matches!(results[3], Err(TaskError::Cancelled)));
}

#[test]
fn gathering_stops_at_the_first_exception() {
    let mut gather: Gather<u32, &'static str> = Gather::new(2, false);
    assert!(gather.on_result(1, Ok(1)).is_none());
    assert!(!gather.cancels_rest());
    match gather.on_result(0, Err(failure("boom"))) {
        Some(TaskError::Raised { error, .. }) => assert_eq!(error, "boom"),
        _ => panic!("the exception was kept"),
    }
    assert!(gather.cancels_rest());
    let empty: Gather<u32, &'static str> = Gather::new(0, false);
    assert!(empty.finish().is_empty());
}

#[test]
fn channels_hold_at_least_one() {
    for (asked, held) in [(0usize, 1usize), (1, 1), (8, 8)] {
        let items = item_channel::<u8>(asked);
        assert_eq!(items.tx.max_capacity(), held);
        let completions = completion_channel::<u8>(asked);
        assert_eq!(completions.tx.max_capacity(), held);
    }
}

#[test]
fn streams_are_admitted_like_tasks() {
    let mut runtime = Runtime::new(1, 0, OnFull::REJECT, None, None, None).unwrap();
    let empty = runtime.stream::<u8, u8>(None, 0).err();
    assert_eq!(empty, Some(RuntimeError::Value(ValueError::Buffer)));
    let bad = runtime.stream::<u8, u8>(Some(number(-1.0)), 3).err();
    assert_eq!(bad, Some(RuntimeError::Value(ValueError::Timeout)));
    let (_guard, _work, handle, channel) = runtime.stream::<u8, u8>(None, 3).ok().unwrap();
    assert_eq!(channel.tx.max_capacity(), 3);
    assert_eq!(handle.status(), "queued");
    assert_eq!(runtime.stream::<u8, u8>(None, 3).err(), Some(RuntimeError::QueueFull));
    runtime.inner.close();
    assert_eq!(runtime.stream::<u8, u8>(None, 3).err(), Some(RuntimeError::RuntimeClosed));
    let empty = runtime.stream::<u8, u8>(None, 0).err();
    assert_eq!(empty, Some(RuntimeError::Value(ValueError::Buffer)));
}

#[test]
fn completions_tell_values_from_exceptions() {
    let ok = Completion::new(3, Ok("value"));
    assert_eq!((ok.index, ok.ok, ok.value), (3, true, "value"));
    let failed = Completion::new(4, Err("exception"));
    assert_eq!((failed.index, failed.ok, failed.value), (4, false, "exception"));
}

#[test]
fn a_received_stream_ends_for_good() {
    let channel = completion_channel::<u8>(2);
    let mut stream = CompletionStream::new(channel.rx);
    assert_eq!(stream.rx.poll_rx(Some(1)), Some(1));
    assert!(stream.rx.rx.is_some());
    assert_eq!(stream.rx.poll_rx(None), None);
    assert!(stream.rx.rx.is_none());
    assert_eq!(stream.rx.poll_rx(Some(2)), None);
    assert!(channel.tx.is_closed());
}

#[test]
fn an_item_stream_cancels_its_work() {
    let (_, _, handle) = executing(None);
    let channel = item_channel::<u8>(1);
    let mut stream = ItemStream::new(channel.rx, handle.cancel.share());
    assert!(!handle.cancelled());
    stream.cancel();
    assert!(handle.cancelled());
}

#[test]
fn items_are_pulled_and_sent_in_turn() {
    let mut run = stream_run();
    let (_, _, handle) = executing(None);
    let channel = item_channel::<u32>(1);
    for item in 0..3 {
        let step: Flow = run.turn(&handle.cancel, &channel.tx);
        assert!(matches!(step, StreamAction::Pull));
        let step: Flow = run.on_event(StreamEvent::Pulled(Ok(item)));
        match step {
            StreamAction::Send(Ok(sent)) => assert_eq!(sent, item),
            _ => panic!("unexpected step"),
        }
        let step: Flow = run.on_event(StreamEvent::Sent { delivered: true });
        assert!(matches!(step, StreamAction::Again));
    }
    let _: Flow = run.turn(&handle.cancel, &channel.tx);
    let stop = TaskError::Raised {
        error: "stop",
        kind: ErrorKind { timeout: false, cancelled: false, stop_iteration: true },
    };
    let step: Flow = run.on_event(StreamEvent::Pulled(Err(stop)));
    assert!(matches!(step, StreamAction::End(Ok(()))));
    let step: Flow = run.turn(&handle.cancel, &channel.tx);
    assert!(matches!(step, StreamAction::Ignore));
}

#[test]
fn a_stream_passes_its_exception_on_and_ends() {
    for delivered in [true, false] {
        let mut run = stream_run();
        let _: Flow = run.on_event(StreamEvent::Turn { cancelled: false, closed: false });
        let step: Flow = run.on_event(StreamEvent::Pulled(Err(failure("boom"))));
        assert!(matches!(step, StreamAction::Send(Err(TaskError::Raised { error: "boom", .. }))));
        let step: Flow = run.on_event(StreamEvent::Sent { delivered });
        assert!(matches!(step, StreamAction::End(Ok(()))));
    }
}

#[test]
fn a_stream_ends_when_nobody_receives() {
    let mut run = stream_run();
    let (_, _, mut handle) = executing(None);
    let channel = item_channel::<u32>(1);
    drop(channel.rx);
    let step: Flow = run.turn(&handle.cancel, &channel.tx);
    assert!(matches!(step, StreamAction::End(Ok(()))));

    let mut run = stream_run();
    let _: Flow = run.on_event(StreamEvent::Turn { cancelled: false, closed: false });
    let _: Flow = run.on_event(StreamEvent::Pulled(Ok(1)));
    let step: Flow = run.on_event(StreamEvent::Sent { delivered: false });
    assert!(matches!(step, StreamAction::End(Ok(()))));

    let mut run = stream_run();
    handle.cancel();
    let step: Flow = run.turn(&handle.cancel, &channel.tx);
    assert!(matches!(step, StreamAction::End(Err(TaskError::Cancelled))));
}

fn open_runtime(idle_ttl: Option<f64>) -> Runtime {
    Runtime::new(4, 4, OnFull::REJECT, None, None, idle_ttl.map(number)).unwrap()
}

fn wake(cancelled: bool, notified: bool, elapsed: bool) -> Wake {
    Wake { cancelled, notified, elapsed }
}

#[test]
fn a_shutdown_of_an_idle_runtime_is_over_at_once() {
    let mut runtime = open_runtime(None);
    let mut drain = runtime.shutdown(Some(number(5.0))).ok().unwrap();
    assert!(!runtime.closed());
    match drain.poll(&mut runtime.inner, false) {
        DrainAction::StartClock(Some(timeout)) => assert_eq!(timeout.secs(), number(5.0)),
        _ => panic!("unexpected step"),
    }
    assert!(runtime.closed());
    assert!(matches!(drain.poll(&mut runtime.inner, false), DrainAction::Done));
    assert!(!runtime.inner.shutdown_token().is_cancelled());
    assert!(matches!(drain.poll(&mut runtime.inner, true), DrainAction::Done));
}

#[test]
fn a_shutdown_waits_for_work_and_then_cancels_it() {
    let mut runtime = open_runtime(None);
    let guard = WorkGuard::try_begin(&mut runtime.inner).ok().unwrap();
    let mut drain = runtime.shutdown(Some(number(2.0))).ok().unwrap();
    assert!(matches!(drain.poll(&mut runtime.inner, false), DrainAction::StartClock(Some(_))));
    assert!(matches!(drain.poll(&mut runtime.inner, false), DrainAction::Wait));
    assert!(!runtime.inner.shutdown_token().is_cancelled());
    match drain.poll(&mut runtime.inner, true) {
        DrainAction::StartClock(Some(grace)) => assert_eq!(grace.secs(), number(5.0)),
        _ => panic!("unexpected step"),
    }
    assert!(runtime.inner.shutdown_token().is_cancelled());
    assert!(matches!(drain.poll(&mut runtime.inner, false), DrainAction::Wait));
    guard.release(&mut runtime.inner);
    assert!(matches!(drain.poll(&mut runtime.inner, false), DrainAction::Done));
}

#[test]
fn a_shutdown_gives_up_on_work_that_does_not_stop() {
    let mut runtime = open_runtime(None);
    let _guard = WorkGuard::try_begin(&mut runtime.inner).ok().unwrap();
    let mut drain = runtime.shutdown(Some(number(2.0))).ok().unwrap();
    let _ = drain.poll(&mut runtime.inner, false);
    let _ = drain.poll(&mut runtime.inner, true);
    assert!(matches!(drain.poll(&mut runtime.inner, true), DrainAction::Done));
    assert_eq!(runtime.inner.work_count(), 1);
}

#[test]
fn a_shutdown_without_a_limit_waits_as_long_as_it_takes() {
    let mut runtime = open_runtime(None);
    let guard = WorkGuard::try_begin(&mut runtime.inner).ok().unwrap();
    let mut drain = Drain::new(None);
    assert!(matches!(drain.poll(&mut runtime.inner, false), DrainAction::StartClock(None)));
    assert!(matches!(drain.poll(&mut runtime.inner, true), DrainAction::Wait));
    assert!(!runtime.inner.shutdown_token().is_cancelled());
    guard.release(&mut runtime.inner);
    assert!(matches!(drain.poll(&mut runtime.inner, false), DrainAction::Done));
}

#[test]
fn a_shutdown_with_a_bad_timeout_does_not_begin() {
    let runtime = open_runtime(None);
    assert_eq!(runtime.shutdown(Some(number(-1.0))).err(), Some(ValueError::Timeout));
    assert!(runtime.shutdown(None).is_ok());
    assert!(!runtime.closed());
}

#[test]
fn no_watcher_without_an_idle_time() {
    assert!(IdleWatcher::spawn(&open_runtime(None).inner).is_none());
    assert!(IdleWatcher::spawn(&open_runtime(Some(1.0)).inner).is_some());
}

#[test]
fn the_watcher_closes_a_runtime_that_has_become_idle() {
    let mut runtime = open_runtime(Some(1.5));
    let mut watcher = IdleWatcher::spawn(&runtime.inner).unwrap();
    let none = wake(false, false, false);
    assert!(matches!(watcher.poll(&mut runtime.inner, none), WatchAction::AwaitWork));
    let idle_start = wake(false, false, true);
    assert!(matches!(watcher.poll(&mut runtime.inner, idle_start), WatchAction::AwaitWork));
    let guard = WorkGuard::try_begin(&mut runtime.inner).ok().unwrap();
    let told = wake(false, true, false);
    assert!(matches!(watcher.poll(&mut runtime.inner, told), WatchAction::Again));
    assert!(matches!(watcher.poll(&mut runtime.inner, none), WatchAction::AwaitIdle));
    guard.release(&mut runtime.inner);
    assert!(matches!(watcher.poll(&mut runtime.inner, told), WatchAction::Again));
    match watcher.poll(&mut runtime.inner, none) {
        WatchAction::StartCountdown(ttl) => assert_eq!(ttl.secs(), number(1.5)),
        _ => panic!("unexpected step"),
    }
    assert!(matches!(watcher.poll(&mut runtime.inner, told), WatchAction::KeepCounting));
    assert!(!runtime.closed());
    let elapsed = wake(false, false, true);
    assert!(matches!(watcher.poll(&mut runtime.inner, elapsed), WatchAction::Stop));
    assert!(runtime.closed());
    assert!(runtime.inner.shutdown_token().is_cancelled());
    assert!(matches!(watcher.poll(&mut runtime.inner, none), WatchAction::Stop));
}

#[test]
fn new_work_breaks_the_countdown_off() {
    let mut runtime = open_runtime(Some(1.5));
    let mut watcher = IdleWatcher::spawn(&runtime.inner).unwrap();
    let none = wake(false, false, false);
    WorkGuard::try_begin(&mut runtime.inner).ok().unwrap().release(&mut runtime.inner);
    assert!(matches!(watcher.poll(&mut runtime.inner, none), WatchAction::Again));
    assert!(matches!(watcher.poll(&mut runtime.inner, none), WatchAction::StartCountdown(_)));
    let _guard = WorkGuard::try_begin(&mut runtime.inner).ok().unwrap();
    let both = wake(false, true, true);
    assert!(matches!(watcher.poll(&mut runtime.inner, both), WatchAction::Again));
    assert!(!runtime.closed());
    assert!(matches!(watcher.poll(&mut runtime.inner, none), WatchAction::AwaitIdle));
}

#[test]
fn the_watcher_stops_with_the_runtime() {
    let mut runtime = open_runtime(Some(1.5));
    let mut watcher = IdleWatcher::spawn(&runtime.inner).unwrap();
    runtime.inner.close();
    let none = wake(false, false, false);
    assert!(matches!(watcher.poll(&mut runtime.inner, none), WatchAction::Stop));

    let mut runtime = open_runtime(Some(1.5));
    let mut watcher = IdleWatcher::spawn(&runtime.inner).unwrap();
    let cancelled = wake(true, false, false);
    assert!(matches!(watcher.poll(&mut runtime.inner, cancelled), WatchAction::Stop));
    assert!(!runtime.closed());
}

#[test]
fn the_first_failure_in_time_is_raised() {
    let mut gather: Gather<u32, &'static str> = Gather::new(3, false);
    let completions = [(2, Ok(1)), (1, Err(failure("first"))), (0, Err(failure("second")))];
    let mut raised = Vec::new();
    for (index, result) in completions {
        if let Some(TaskError::Raised { error, .. }) = gather.on_result(index, result) {
            raised.push(error);
        }
    }
    assert_eq!(raised[0], "first");
    assert!(gather.cancels_rest());
}

#[test]
fn kept_exceptions_cancel_nothing() {
    let mut gather: Gather<u32, &'static str> = Gather::new(1, true);
    assert!(gather.on_result(0, Err(failure("kept"))).is_none());
    assert!(!gather.cancels_rest());
}

#[test]
fn completions_are_passed_on_in_the_order_they_come() {
    let mut run = ForwardRun::new();
    let mut sent = Vec::new();
    for (index, result) in [(2, 'c'), (0, 'a'), (1, 'b')] {
        match run.on_event(ForwardEvent::Finished { index, result }) {
            ForwardAction::Send { index, result } => sent.push((index, result)),
            _ => panic!("unexpected step"),
        }
        let step = run.on_event(ForwardEvent::<char>::Sent { delivered: true });
        assert!(matches!(step, ForwardAction::Next));
    }
    assert_eq!(sent, vec![(2, 'c'), (0, 'a'), (1, 'b')]);
    let step = run.on_event(ForwardEvent::<char>::Exhausted);
    assert!(matches!(step, ForwardAction::End));
    let step = run.on_event(ForwardEvent::Finished { index: 3, result: 'd' });
    assert!(matches!(step, ForwardAction::Ignore));
}

#[test]
fn completions_end_when_nobody_receives() {
    let mut run = ForwardRun::new();
    let step = run.on_event(ForwardEvent::<char>::Sent { delivered: true });
    assert!(matches!(step, ForwardAction::Ignore));
    let step = run.on_event(ForwardEvent::Finished { index: 0, result: 'a' });
    assert!(matches!(step, ForwardAction::Send { index: 0, result: 'a' }));
    let step = run.on_event(ForwardEvent::<char>::Sent { delivered: false });
    assert!(matches!(step, ForwardAction::End));
}

#[test]
fn a_stream_sends_what_it_pulls_over_its_whole_run() {
    let mut run = stream_run();
    let given = [Ok(1), Ok(2), Err(failure("boom"))];
    let mut sent = Vec::new();
    for result in given {
        let turn: Flow = run.on_event(StreamEvent::Turn { cancelled: false, closed: false });
        assert!(matches!(turn, StreamAction::Pull));
        match run.on_event(StreamEvent::Pulled(result)) {
            StreamAction::Send(Ok(item)) => sent.push(format!("{}", item)),
            StreamAction::Send(Err(TaskError::Raised { error, .. })) => sent.push(error.into()),
            _ => panic!("unexpected step"),
        }
        let _: Flow = run.on_event(StreamEvent::Sent { delivered: true });
    }
    assert_eq!(sent, vec!["1", "2", "boom"]);
    let turn: Flow = run.on_event(StreamEvent::Turn { cancelled: false, closed: false });
    assert!(matches!(turn, StreamAction::Ignore));
}
