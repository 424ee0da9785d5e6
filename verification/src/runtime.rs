//! The runtime: admission, and the account of the work that it has taken on.

use crate::bell::woken;
use crate::bell::Bell;
use crate::binary64::Binary64;
use crate::bridge::shared_py_task;
use crate::bridge::TaskCell;
use crate::cancel::token_told;
use crate::cancel::Cancel;
use crate::error::RuntimeError;
use crate::error::ValueError;
use crate::gate::Gate;
use crate::gate::permit_origin;
use crate::gate::semaphore_gives;
use crate::gate::semaphore_limit;
use crate::gate::GateKind;
use crate::gate::Permit;
use crate::gate::MAX_PERMITS;
use crate::handle::Handle;
use crate::journal::state_after_run;
use crate::journal::Journal;
use crate::journal::Stats;
use crate::journal::TaskSlot;
use crate::journal::TaskState;
use crate::outcome::end_state;
use crate::outcome::state_from_result;
use crate::outcome::TaskError;
use crate::policy::OnFull;
use crate::policy::RetryConfig;
use crate::policy::RetryPolicy;
use crate::timeout::acceptable;
use crate::timeout::optional_acceptable;
use crate::timeout::optional_secs;
use crate::timeout::parse_optional_timeout;
use crate::timeout::parse_timeout_secs;
use crate::timeout::representable;
use crate::timeout::Timeout;
use crate::shutdown::Drain;
use crate::shutdown::DrainStage;
use crate::stream::item_channel;
use crate::stream::Channel;
use crate::work::origin_of;
use crate::work::WorkCtx;
use crate::work::WorkView;
use std::sync::Arc;
use tokio::sync::Notify;
use tokio::sync::OwnedSemaphorePermit;
use tokio::sync::Semaphore;
use tokio::sync::TryAcquireError;
use tokio_util::sync::CancellationToken;
use vstd::prelude::*;

verus! {

/// How many tasks run at a time, unless the caller says otherwise.
pub const DEFAULT_MAX_CONCURRENCY: usize = 32;

/// How many tasks wait to run, unless the caller says otherwise.
pub const DEFAULT_QUEUE_CAPACITY: usize = 128;

/// What a runtime keeps account of, and what it is made of.
pub struct Inner {
    journal: Journal,
    next_id: u64,
    concurrency: Gate,
    admission: Gate,
    on_full: OnFull,
    default_timeout: Option<Timeout>,
    retry: RetryConfig,
    closed: bool,
    ever_worked: bool,
    work_count: usize,
    shutdown: Cancel,
    work_started: Bell,
    became_idle: Bell,
    idle_ttl: Option<Timeout>,
}

/// The state of a runtime.
pub struct InnerView {
    /// How many tasks are in each state.
    pub journal: Stats,
    /// The number of the next task.
    pub next_id: u64,
    /// How many tasks run at a time.
    pub max_concurrency: usize,
    /// How many tasks run or wait to.
    pub admission_cap: usize,
    pub on_full: OnFull,
    pub default_timeout: Option<Binary64>,
    pub retry: RetryConfig,
    pub idle_ttl: Option<Binary64>,
    /// No more work is admitted.
    pub closed: bool,
    /// Some work was begun.
    pub ever_worked: bool,
    /// How much work was begun and has not ended.
    pub work_count: usize,
    /// All work was told to stop.
    pub shutdown: bool,
    /// How often those who wait for work were woken.
    pub started_rings: nat,
    /// How often those who wait for idleness were woken.
    pub idle_rings: nat,
    pub concurrency_semaphore: Arc<Semaphore>,
    pub admission_semaphore: Arc<Semaphore>,
    pub shutdown_token: CancellationToken,
    pub started_notify: Arc<Notify>,
    pub idle_notify: Arc<Notify>,
}

impl InnerView {
    /// More work has begun.
    pub open spec fn work_begun(self) -> InnerView {
        InnerView {
            ever_worked: true,
            work_count: self.work_count.wrapping_add(1),
            started_rings: self.started_rings + 1,
            ..self
        }
    }

    /// Some work has ended. When it was the last, those who wait for idleness
    /// are woken.
    pub open spec fn work_ended(self) -> InnerView {
        InnerView {
            work_count: self.work_count.wrapping_sub(1),
            idle_rings: if self.work_count == 1 {
                self.idle_rings + 1
            } else {
                self.idle_rings
            },
            ..self
        }
    }

    /// A task was taken on.
    pub open spec fn enrolled(self) -> InnerView {
        InnerView {
            journal: self.journal.queue_one(),
            next_id: self.next_id.wrapping_add(1),
            ..self.work_begun()
        }
    }

    /// The timeout of a task, in seconds: its own, or else the runtime's.
    pub open spec fn timeout_secs(self, timeout: Option<Binary64>) -> Option<Binary64> {
        match timeout {
            Some(secs) => Some(secs),
            None => self.default_timeout,
        }
    }
}

impl View for Inner {
    type V = InnerView;

    closed spec fn view(&self) -> InnerView {
        InnerView {
            journal: self.journal@,
            next_id: self.next_id,
            max_concurrency: self.concurrency.permits(),
            admission_cap: self.admission.permits(),
            on_full: self.on_full,
            default_timeout: optional_secs(self.default_timeout),
            retry: self.retry,
            idle_ttl: optional_secs(self.idle_ttl),
            closed: self.closed,
            ever_worked: self.ever_worked,
            work_count: self.work_count,
            shutdown: self.shutdown.fired(),
            started_rings: self.work_started.rings(),
            idle_rings: self.became_idle.rings(),
            concurrency_semaphore: self.concurrency.holder(),
            admission_semaphore: self.admission.holder(),
            shutdown_token: self.shutdown.carrier(),
            started_notify: self.work_started.notifier(),
            idle_notify: self.became_idle.notifier(),
        }
    }
}

/// What an attempt at admission comes to, given the permit that was free, if
/// there was one and one was asked for.
pub fn admission(on_full: OnFull, permit: Option<Permit>) -> (admitted: Result<
    Option<Permit>,
    RuntimeError,
>)
    ensures
        on_full == OnFull::WAIT ==> admitted == Ok::<Option<Permit>, RuntimeError>(None),
        on_full == OnFull::REJECT ==> admitted == (match permit {
            Some(p) => Ok(Some(p)),
            None => Err(RuntimeError::QueueFull),
        }),
{
    match on_full {
        OnFull::REJECT => match permit {
            Some(permit) => Ok(Some(permit)),
            None => Err(RuntimeError::QueueFull),
        },
        OnFull::WAIT => Ok(None),
    }
}

impl Inner {
    /// The two gates are what their names say.
    pub closed spec fn wf(&self) -> bool {
        &&& self.concurrency.kind() == GateKind::Concurrency
        &&& self.admission.kind() == GateKind::Admission
    }

    pub fn is_closed(&self) -> (closed: bool)
        ensures
            closed == self@.closed,
    {
        self.closed
    }

    pub fn ensure_open(&self) -> (open: Result<(), RuntimeError>)
        ensures
            open == (if self@.closed {
                Err::<(), RuntimeError>(RuntimeError::RuntimeClosed)
            } else {
                Ok(())
            }),
    {
        if self.closed {
            Err(RuntimeError::RuntimeClosed)
        } else {
            Ok(())
        }
    }

    /// Counts work that begins, and wakes those who wait for some.
    pub fn begin_work(&mut self)
        requires
            old(self).wf(),
        ensures
            final(self).wf(),
            final(self)@ == old(self)@.work_begun(),
            woken(old(self)@.started_notify),
    {
        self.ever_worked = true;
        self.work_count = self.work_count.wrapping_add(1);
        self.work_started.ring();
    }

    /// Counts work that ends, and wakes those who wait for idleness when it
    /// was the last.
    pub fn end_work(&mut self)
        requires
            old(self).wf(),
        ensures
            final(self).wf(),
            final(self)@ == old(self)@.work_ended(),
            old(self)@.work_count == 1 ==> woken(old(self)@.idle_notify),
    {
        let before: usize = self.work_count;
        self.work_count = before.wrapping_sub(1);
        if before == 1 {
            self.became_idle.ring();
        }
    }

    /// The timeout of a task: its own, or else the runtime's.
    pub fn resolve_timeout(&self, timeout: Option<Binary64>) -> (resolved: Result<
        Option<Timeout>,
        ValueError,
    >)
        requires
            timeout matches Some(secs) ==> representable(secs),
        ensures
            resolved is Ok <==> optional_acceptable(timeout),
            resolved matches Ok(t) ==> optional_secs(t) == self@.timeout_secs(timeout),
            resolved matches Ok(t) ==> (timeout matches Some(secs) ==> (t matches Some(own) && own@
                == secs)),
            resolved matches Ok(t) ==> (timeout is None ==> optional_secs(t)
                == self@.default_timeout),
            resolved matches Err(e) ==> e == ValueError::Timeout,
    {
        match timeout {
            Some(secs) => match parse_timeout_secs(secs) {
                Ok(timeout) => Ok(Some(timeout)),
                Err(error) => Err(error),
            },
            None => Ok(self.default_timeout),
        }
    }

    /// Takes an admission permit, if work is refused when there is none.
    /// Otherwise the work itself is to wait for a permit.
    pub fn try_admit(&self) -> (admitted: Result<Option<Permit>, RuntimeError>)
        requires
            self.wf(),
        ensures
            self@.on_full == OnFull::WAIT ==> admitted == Ok::<Option<Permit>, RuntimeError>(None),
            self@.on_full == OnFull::REJECT ==> queue_verdict(
                self@,
                match admitted {
                    Ok(_) => None,
                    Err(error) => Some(error),
                },
            ),
            self@.on_full == OnFull::REJECT ==> match admitted {
                Ok(permit) => {
                    &&& permit is Some
                    &&& permit->0.kind() == GateKind::Admission
                    &&& permit->0.origin() == *self@.admission_semaphore
                },
                Err(error) => error == RuntimeError::QueueFull,
            },
    {
        let permit = match self.on_full {
            OnFull::REJECT => self.admission.try_acquire(),
            OnFull::WAIT => None,
        };
        proof {
            if self.on_full == OnFull::REJECT {
                let attempt = choose|attempt: Result<OwnedSemaphorePermit, TryAcquireError>|
                    #[trigger]
                    semaphore_gives(self.admission.holder(), attempt) && (permit is Some
                        <==> attempt is Ok);
                assert(semaphore_gives(self@.admission_semaphore, attempt));
            }
        }
        admission(self.on_full, permit)
    }

    /// The slot of a new task, which is counted as queued.
    pub fn queue_slot(&mut self) -> (slot: TaskSlot)
        requires
            old(self).wf(),
        ensures
            final(self).wf(),
            slot@ == TaskState::Queued,
            final(self)@ == (InnerView { journal: old(self)@.journal.queue_one(), ..old(self)@ }),
    {
        self.journal.insert_queued();
        TaskSlot::queued()
    }

    /// Admits no more work.
    pub fn close(&mut self)
        requires
            old(self).wf(),
        ensures
            final(self).wf(),
            final(self)@ == (InnerView { closed: true, ..old(self)@ }),
    {
        self.closed = true;
    }

    /// Tells all work to stop.
    pub fn cancel_work(&mut self)
        requires
            old(self).wf(),
        ensures
            final(self).wf(),
            final(self)@ == (InnerView { shutdown: true, ..old(self)@ }),
            token_told(old(self)@.shutdown_token),
    {
        self.shutdown.cancel();
    }

    pub fn work_count(&self) -> (count: usize)
        ensures
            count == self@.work_count,
    {
        self.work_count
    }

    pub fn ever_worked(&self) -> (yes: bool)
        ensures
            yes == self@.ever_worked,
    {
        self.ever_worked
    }

    pub fn idle_ttl(&self) -> (ttl: Option<Timeout>)
        ensures
            optional_secs(ttl) == self@.idle_ttl,
    {
        self.idle_ttl
    }

    pub fn retry(&self) -> (retry: RetryConfig)
        ensures
            retry == self@.retry,
    {
        self.retry
    }

    /// The token to wait on for all work to be told to stop.
    pub fn shutdown_token(&self) -> (token: CancellationToken)
        ensures
            token == self@.shutdown_token,
    {
        self.shutdown.token()
    }

    /// The notifier to wait at for work to begin.
    pub fn work_started(&self) -> (notify: Arc<Notify>)
        ensures
            notify == self@.started_notify,
    {
        self.work_started.notify()
    }

    /// The notifier to wait at for the last work to end.
    pub fn became_idle(&self) -> (notify: Arc<Notify>)
        ensures
            notify == self@.idle_notify,
    {
        self.became_idle.notify()
    }

    /// The permit that a waiter at one of the gates was given.
    pub fn granted(&self, kind: GateKind, permit: OwnedSemaphorePermit) -> (granted: Permit)
        requires
            self.wf(),
        ensures
            granted.kind() == kind,
            granted.origin() == permit_origin(permit),
    {
        match kind {
            GateKind::Admission => self.admission.granted(permit),
            GateKind::Concurrency => self.concurrency.granted(permit),
        }
    }

    /// Sets a task running, unless it is no longer queued.
    pub fn mark_running<T>(&mut self, handle: &mut Handle<T>)
        requires
            old(self).wf(),
        ensures
            final(self).wf(),
            final(self)@ == (InnerView {
                journal: old(self)@.journal.run_one(old(handle).slot@),
                ..old(self)@
            }),
            final(handle).slot@ == state_after_run(old(handle).slot@),
            final(handle).cancel == old(handle).cancel,
            final(handle).py_task == old(handle).py_task,
    {
        self.journal.mark_running(&mut handle.slot);
    }

    /// Leaves a task in the state that its result stands for.
    pub fn finish_work<T, V, E>(
        &mut self,
        handle: &mut Handle<T>,
        result: &Result<V, TaskError<E>>,
    )
        requires
            old(self).wf(),
        ensures
            final(self).wf(),
            final(self)@ == (InnerView {
                journal: old(self)@.journal.finish_one(old(handle).slot@, end_state(*result)),
                ..old(self)@
            }),
            final(handle).slot@ == end_state(*result),
            final(handle).cancel == old(handle).cancel,
            final(handle).py_task == old(handle).py_task,
    {
        self.journal.finish(&mut handle.slot, state_from_result(result));
    }

    /// The semaphore to wait at for a permit.
    pub fn semaphore(&self, kind: GateKind) -> (semaphore: Arc<Semaphore>)
        ensures
            semaphore == (match kind {
                GateKind::Admission => self@.admission_semaphore,
                GateKind::Concurrency => self@.concurrency_semaphore,
            }),
    {
        match kind {
            GateKind::Admission => self.admission.semaphore(),
            GateKind::Concurrency => self.concurrency.semaphore(),
        }
    }
}

/// Work that was begun and has to be ended.
#[allow(dead_code)]
pub struct WorkGuard {
    begun: (),
}

impl WorkGuard {
    /// Begins work, unless the runtime is closed.
    pub fn try_begin(inner: &mut Inner) -> (guard: Result<WorkGuard, RuntimeError>)
        requires
            old(inner).wf(),
        ensures
            final(inner).wf(),
            guard is Ok <==> !old(inner)@.closed,
            guard is Ok ==> final(inner)@ == old(inner)@.work_begun() && woken(
                old(inner)@.started_notify,
            ),
            guard matches Err(e) ==> e == RuntimeError::RuntimeClosed && final(inner)@ == old(
                inner,
            )@,
    {
        match inner.ensure_open() {
            Ok(()) => {
                inner.begin_work();
                Ok(WorkGuard { begun: () })
            },
            Err(error) => Err(error),
        }
    }

    /// Ends the work.
    pub fn release(self, inner: &mut Inner)
        requires
            old(inner).wf(),
        ensures
            final(inner).wf(),
            final(inner)@ == old(inner)@.work_ended(),
            old(inner)@.work_count == 1 ==> woken(old(inner)@.idle_notify),
    {
        inner.end_work();
    }
}

/// A task that was admitted.
pub struct Admitted<T> {
    pub cancel: Cancel,
    pub timeout: Option<Timeout>,
    pub py_task: TaskCell<T>,
    pub admission_permit: Option<Permit>,
    pub work: WorkGuard,
    pub slot: TaskSlot,
    pub task_id: u64,
}

impl<T> Admitted<T> {
    /// A task of runtime `inner` that is about to be taken on, with this
    /// timeout.
    pub open spec fn fresh(self, inner: InnerView, timeout: Option<Binary64>) -> bool {
        &&& self.cancel.fired() == inner.shutdown
        &&& self.cancel.ancestors().contains(inner.shutdown_token)
        &&& optional_secs(self.timeout) == timeout
        &&& self.py_task@ == None::<T>
        &&& self.slot@ == TaskState::Queued
        &&& self.task_id == inner.next_id
    }

    /// What ends the work, what runs it, and what its owner holds.
    pub fn into_ctx(self) -> (parts: (WorkGuard, WorkCtx, Handle<T>))
        requires
            self.admission_permit matches Some(permit) ==> permit.kind() == GateKind::Admission,
        ensures
            parts.0 == self.work,
            parts.1@ == (WorkView {
                admission: origin_of(self.admission_permit),
                concurrency: None,
                timeout: optional_secs(self.timeout),
                task_id: self.task_id,
            }),
            parts.2.slot == self.slot,
            parts.2.cancel == self.cancel,
            parts.2.py_task == self.py_task,
    {
        (
            self.work,
            WorkCtx::new(self.admission_permit, self.timeout, self.task_id),
            Handle::new(self.slot, self.cancel, self.py_task),
        )
    }
}

/// Tasks that are submitted together, one after the other.
pub struct Batch {
    timeouts: Vec<Option<Binary64>>,
    next: usize,
}

/// The timeouts of the tasks, and the place of the one to submit next.
pub struct BatchView {
    pub timeouts: Seq<Option<Binary64>>,
    pub next: nat,
}

impl BatchView {
    /// No task is left to submit.
    pub open spec fn over(self) -> bool {
        self.next >= self.timeouts.len()
    }

    /// One more task was submitted.
    pub open spec fn advanced(self) -> BatchView {
        BatchView { next: self.next + 1, ..self }
    }

    /// A task was refused, and no other is submitted.
    pub open spec fn broken_off(self) -> BatchView {
        BatchView { next: self.timeouts.len(), ..self }
    }
}

impl View for Batch {
    type V = BatchView;

    closed spec fn view(&self) -> BatchView {
        BatchView { timeouts: self.timeouts@, next: self.next as nat }
    }
}

/// What became of the next task of those that are submitted together.
pub enum BatchStep<T> {
    /// It was taken on: what ends its work, what runs it, and its handle.
    Submitted(WorkGuard, WorkCtx, Handle<T>),
    /// It was refused, and no other is submitted.
    Refused(RuntimeError),
    /// There was none left.
    Done,
}

impl Batch {
    #[verifier::type_invariant]
    spec fn within(self) -> bool {
        self.next <= self.timeouts@.len()
    }

    /// The timeout of the task to submit next, if one is left.
    pub fn upcoming(&self) -> (timeout: Option<Option<Binary64>>)
        ensures
            timeout == (if self@.over() {
                None
            } else {
                Some(self@.timeouts[self@.next as int])
            }),
    {
        if self.next < self.timeouts.len() {
            Some(self.timeouts[self.next])
        } else {
            None
        }
    }

    /// Submits the next task, as `Runtime::submit` does.
    pub fn submit_next<T>(&mut self, runtime: &mut Runtime) -> (step: BatchStep<T>)
        requires
            old(runtime).inner.wf(),
            !old(self)@.over() && !old(runtime).inner@.closed ==> (
            old(self)@.timeouts[old(self)@.next as int] matches Some(secs) ==> representable(
                secs,
            )),
        ensures
            final(runtime).inner.wf(),
            step is Done <==> old(self)@.over(),
            step is Done ==> final(self)@ == old(self)@ && final(runtime).inner@ == old(
                runtime,
            ).inner@,
            !(step is Done) ==> admission_result(
                old(runtime).inner@,
                old(self)@.timeouts[old(self)@.next as int],
                match step {
                    BatchStep::Refused(error) => Some(error),
                    _ => None,
                },
            ),
            step is Refused ==> {
                &&& final(self)@ == old(self)@.broken_off()
                &&& final(runtime).inner@ == old(runtime).inner@
            },
            step matches BatchStep::Submitted(_, ctx, handle) ==> {
                &&& final(self)@ == old(self)@.advanced()
                &&& final(runtime).inner@ == old(runtime).inner@.enrolled()
                &&& woken(old(runtime).inner@.started_notify)
                &&& ctx@ == work_submitted(
                    old(runtime).inner@,
                    old(self)@.timeouts[old(self)@.next as int],
                )
                &&& handle_submitted(handle, old(runtime).inner@)
            },
    {
        let timeout = match self.upcoming() {
            Some(timeout) => timeout,
            None => {
                return BatchStep::Done;
            },
        };
        let len: usize = self.timeouts.len();
        match runtime.submit(timeout) {
            Ok((work, ctx, handle)) => {
                self.next = self.next + 1;
                BatchStep::Submitted(work, ctx, handle)
            },
            Err(error) => {
                self.next = len;
                BatchStep::Refused(error)
            },
        }
    }
}

/// An execution controller: it decides when work may start, and keeps account
/// of it until it has ended.
pub struct Runtime {
    pub inner: Inner,
}

/// The first parameter of a new runtime that is out of range.
pub open spec fn new_error(
    max_concurrency: usize,
    queue_capacity: usize,
    default_timeout: Option<Binary64>,
    idle_ttl: Option<Binary64>,
) -> Option<ValueError> {
    if max_concurrency == 0 {
        Some(ValueError::MaxConcurrency)
    } else if max_concurrency + queue_capacity > usize::MAX {
        Some(ValueError::QueueCapacity)
    } else if !optional_acceptable(default_timeout) || !optional_acceptable(idle_ttl) {
        Some(ValueError::Timeout)
    } else {
        None
    }
}

/// The parameters that a runtime can be asked for: timeouts that a span of
/// time can hold, and no more permits than a semaphore can, unless a parameter
/// before them is refused.
pub open spec fn new_representable(
    max_concurrency: usize,
    queue_capacity: usize,
    default_timeout: Option<Binary64>,
    idle_ttl: Option<Binary64>,
) -> bool {
    max_concurrency >= 1 && max_concurrency + queue_capacity <= usize::MAX ==> {
        &&& default_timeout matches Some(secs) ==> representable(secs)
        &&& optional_acceptable(default_timeout) ==> {
            &&& idle_ttl matches Some(secs) ==> representable(secs)
            &&& optional_acceptable(idle_ttl) ==> max_concurrency + queue_capacity <= MAX_PERMITS
        }
    }
}

impl Runtime {
    /// A runtime that runs `max_concurrency` tasks at a time, and admits
    /// `queue_capacity` more.
    pub fn new(
        max_concurrency: usize,
        queue_capacity: usize,
        on_full: OnFull,
        default_timeout: Option<Binary64>,
        retry: Option<&RetryPolicy>,
        idle_ttl: Option<Binary64>,
    ) -> (runtime: Result<Runtime, ValueError>)
        requires
            new_representable(max_concurrency, queue_capacity, default_timeout, idle_ttl),
        ensures
            runtime is Ok <==> new_error(
                max_concurrency,
                queue_capacity,
                default_timeout,
                idle_ttl,
            ) is None,
            runtime matches Err(e) ==> Some(e) == new_error(
                max_concurrency,
                queue_capacity,
                default_timeout,
                idle_ttl,
            ),
            runtime matches Ok(r) ==> {
                &&& r.inner.wf()
                &&& r.inner@.journal == Stats::zero()
                &&& r.inner@.next_id == 1
                &&& r.inner@.max_concurrency == max_concurrency
                &&& r.inner@.admission_cap == max_concurrency + queue_capacity
                &&& semaphore_limit(*r.inner@.concurrency_semaphore) == max_concurrency
                &&& semaphore_limit(*r.inner@.admission_semaphore) == max_concurrency
                    + queue_capacity
                &&& r.inner@.on_full == on_full
                &&& r.inner@.default_timeout == default_timeout
                &&& r.inner@.retry == (match retry {
                    Some(policy) => policy@,
                    None => RetryConfig::once(),
                })
                &&& r.inner@.retry.valid()
                &&& r.inner@.idle_ttl == idle_ttl
                &&& !r.inner@.closed
                &&& !r.inner@.ever_worked
                &&& r.inner@.work_count == 0
                &&& !r.inner@.shutdown
                &&& r.inner@.started_rings == 0
                &&& r.inner@.idle_rings == 0
            },
    {
        if max_concurrency == 0 {
            return Err(ValueError::MaxConcurrency);
        }
        let admission_cap: usize = match max_concurrency.checked_add(queue_capacity) {
            Some(cap) => cap,
            None => {
                return Err(ValueError::QueueCapacity);
            },
        };
        let default_timeout = match parse_optional_timeout(default_timeout) {
            Ok(timeout) => timeout,
            Err(error) => {
                return Err(error);
            },
        };
        let idle_ttl = match parse_optional_timeout(idle_ttl) {
            Ok(ttl) => ttl,
            Err(error) => {
                return Err(error);
            },
        };
        let retry = match retry {
            Some(policy) => RetryConfig::from_policy(policy),
            None => RetryConfig::none(),
        };
        let inner = Inner {
            journal: Journal::default(),
            next_id: 1,
            concurrency: Gate::new(GateKind::Concurrency, max_concurrency),
            admission: Gate::new(GateKind::Admission, admission_cap),
            on_full,
            default_timeout,
            retry,
            closed: false,
            ever_worked: false,
            work_count: 0,
            shutdown: Cancel::root(),
            work_started: Bell::new(),
            became_idle: Bell::new(),
            idle_ttl,
        };
        Ok(Runtime { inner })
    }

    /// Takes on a task that has what it needs: its timeout, and an admission
    /// permit if it does not wait for one itself.
    pub fn enrol<T>(
        &mut self,
        timeout: Option<Timeout>,
        admission_permit: Option<Permit>,
    ) -> (admitted: Result<Admitted<T>, RuntimeError>)
        requires
            old(self).inner.wf(),
        ensures
            final(self).inner.wf(),
            admitted is Ok <==> !old(self).inner@.closed,
            admitted matches Ok(a) ==> {
                &&& final(self).inner@ == old(self).inner@.enrolled()
                &&& woken(old(self).inner@.started_notify)
                &&& a.fresh(old(self).inner@, optional_secs(timeout))
                &&& a.admission_permit == admission_permit
            },
            admitted matches Err(e) ==> {
                &&& final(self).inner@ == old(self).inner@
                &&& e == RuntimeError::RuntimeClosed
            },
    {
        let work = match WorkGuard::try_begin(&mut self.inner) {
            Ok(work) => work,
            Err(error) => {
                return Err(error);
            },
        };
        let cancel = self.inner.shutdown.child();
        let slot = self.inner.queue_slot();
        let task_id: u64 = self.inner.next_id;
        self.inner.next_id = task_id.wrapping_add(1);
        Ok(
            Admitted {
                cancel,
                timeout,
                py_task: shared_py_task(),
                admission_permit,
                work,
                slot,
                task_id,
            },
        )
    }

    /// Admits a task, or refuses it: because the runtime is closed, because
    /// the timeout is out of range, or because the queue is full, in this
    /// order.
    pub fn admit_task<T>(&mut self, timeout: Option<Binary64>) -> (admitted: Result<
        Admitted<T>,
        RuntimeError,
    >)
        requires
            old(self).inner.wf(),
            !old(self).inner@.closed ==> (timeout matches Some(secs) ==> representable(secs)),
        ensures
            final(self).inner.wf(),
            admission_result(old(self).inner@, timeout, match admitted {
                Ok(_) => None,
                Err(e) => Some(e),
            }),
            admitted is Err ==> final(self).inner@ == old(self).inner@,
            admitted matches Ok(a) ==> {
                &&& final(self).inner@ == old(self).inner@.enrolled()
                &&& woken(old(self).inner@.started_notify)
                &&& a.fresh(old(self).inner@, old(self).inner@.timeout_secs(timeout))
                &&& a.admission_permit is Some <==> old(self).inner@.on_full == OnFull::REJECT
                &&& a.admission_permit matches Some(p) ==> {
                    &&& p.kind() == GateKind::Admission
                    &&& p.origin() == *old(self).inner@.admission_semaphore
                }
            },
    {
        match self.inner.ensure_open() {
            Ok(()) => {},
            Err(error) => {
                return Err(error);
            },
        }
        let timeout = match self.inner.resolve_timeout(timeout) {
            Ok(timeout) => timeout,
            Err(error) => {
                return Err(RuntimeError::Value(error));
            },
        };
        let admission_permit = match self.inner.try_admit() {
            Ok(permit) => permit,
            Err(error) => {
                return Err(error);
            },
        };
        self.enrol(timeout, admission_permit)
    }

    /// Submits a task: what ends its work, what runs it, and its handle. It is
    /// refused as by `admit_task`.
    pub fn submit<T>(&mut self, timeout: Option<Binary64>) -> (submitted: Result<
        (WorkGuard, WorkCtx, Handle<T>),
        RuntimeError,
    >)
        requires
            old(self).inner.wf(),
            !old(self).inner@.closed ==> (timeout matches Some(secs) ==> representable(secs)),
        ensures
            final(self).inner.wf(),
            admission_result(old(self).inner@, timeout, match submitted {
                Ok(_) => None,
                Err(e) => Some(e),
            }),
            submitted is Err ==> final(self).inner@ == old(self).inner@,
            submitted matches Ok(s) ==> {
                &&& final(self).inner@ == old(self).inner@.enrolled()
                &&& woken(old(self).inner@.started_notify)
                &&& s.1@ == work_submitted(old(self).inner@, timeout)
                &&& timeout is Some ==> s.1@.timeout == timeout
                &&& timeout is None ==> s.1@.timeout == old(self).inner@.default_timeout
                &&& handle_submitted(s.2, old(self).inner@)
            },
    {
        match self.admit_task(timeout) {
            Ok(admitted) => Ok(admitted.into_ctx()),
            Err(error) => Err(error),
        }
    }

    /// Begins to submit tasks with these timeouts, in order. A closed runtime
    /// refuses even when there are none to submit.
    pub fn submit_all(&self, timeouts: Vec<Option<Binary64>>) -> (batch: Result<
        Batch,
        RuntimeError,
    >)
        ensures
            batch is Ok <==> !self.inner@.closed,
            batch matches Ok(b) ==> b@ == (BatchView { timeouts: timeouts@, next: 0 }),
            batch matches Err(e) ==> e == RuntimeError::RuntimeClosed,
    {
        match self.inner.ensure_open() {
            Ok(()) => Ok(Batch { timeouts, next: 0 }),
            Err(error) => Err(error),
        }
    }

    /// Submits a generator whose items are to be streamed through a channel
    /// that holds up to `buffer` of them. An empty channel is refused first,
    /// then the task is as by `admit_task`.
    pub fn stream<T, I>(&mut self, timeout: Option<Binary64>, buffer: usize) -> (submitted: Result<
        (WorkGuard, WorkCtx, Handle<T>, Channel<I>),
        RuntimeError,
    >)
        requires
            old(self).inner.wf(),
            buffer > 0 && !old(self).inner@.closed ==> (timeout matches Some(secs)
                ==> representable(secs)),
            !old(self).inner@.closed && optional_acceptable(timeout) ==> buffer <= MAX_PERMITS,
        ensures
            final(self).inner.wf(),
            buffer == 0 ==> submitted == Err::<
                (WorkGuard, WorkCtx, Handle<T>, Channel<I>),
                RuntimeError,
            >(RuntimeError::Value(ValueError::Buffer)),
            buffer > 0 ==> admission_result(old(self).inner@, timeout, match submitted {
                Ok(_) => None,
                Err(e) => Some(e),
            }),
            submitted is Err ==> final(self).inner@ == old(self).inner@,
            submitted matches Ok(s) ==> {
                &&& final(self).inner@ == old(self).inner@.enrolled()
                &&& woken(old(self).inner@.started_notify)
                &&& s.1@ == work_submitted(old(self).inner@, timeout)
                &&& timeout is Some ==> s.1@.timeout == timeout
                &&& timeout is None ==> s.1@.timeout == old(self).inner@.default_timeout
                &&& handle_submitted(s.2, old(self).inner@)
                &&& s.3.capacity() == buffer
                &&& s.3.made_for(buffer)
            },
    {
        if buffer == 0 {
            return Err(RuntimeError::Value(ValueError::Buffer));
        }
        match self.admit_task(timeout) {
            Ok(admitted) => {
                let channel = item_channel(buffer);
                let (work, ctx, handle) = admitted.into_ctx();
                Ok((work, ctx, handle, channel))
            },
            Err(error) => Err(error),
        }
    }

    /// A shutdown of the runtime: admissions stop, work in flight is waited for
    /// up to `timeout` seconds, and then the rest is cancelled. It takes place
    /// as it is polled.
    pub fn shutdown(&self, timeout: Option<Binary64>) -> (drain: Result<Drain, ValueError>)
        requires
            timeout matches Some(secs) ==> representable(secs),
        ensures
            drain is Ok <==> optional_acceptable(timeout),
            drain matches Ok(d) ==> {
                &&& d@ matches DrainStage::Requested(t)
                &&& optional_secs(t) == timeout
            },
            drain matches Err(e) ==> e == ValueError::Timeout,
    {
        match parse_optional_timeout(timeout) {
            Ok(timeout) => Ok(Drain::new(timeout)),
            Err(error) => Err(error),
        }
    }

    /// The counts of tasks, each under its name, and the number of those that
    /// have ended.
    pub fn stats(&self) -> (rows: Vec<(&'static str, u64)>)
        ensures
            rows@.len() == 7,
            rows@[0].0@ == "queued"@ && rows@[0].1 == self.inner@.journal.queued,
            rows@[1].0@ == "in_flight"@ && rows@[1].1 == self.inner@.journal.in_flight,
            rows@[2].0@ == "succeeded"@ && rows@[2].1 == self.inner@.journal.succeeded,
            rows@[3].0@ == "failed"@ && rows@[3].1 == self.inner@.journal.failed,
            rows@[4].0@ == "cancelled"@ && rows@[4].1 == self.inner@.journal.cancelled,
            rows@[5].0@ == "timed_out"@ && rows@[5].1 == self.inner@.journal.timed_out,
            rows@[6].0@ == "completed"@,
            rows@[6].1 as int == self.inner@.journal.ended() % 0x1_0000_0000_0000_0000,
    {
        let stats = self.inner.journal.stats();
        vec![
            ("queued", stats.queued),
            ("in_flight", stats.in_flight),
            ("succeeded", stats.succeeded),
            ("failed", stats.failed),
            ("cancelled", stats.cancelled),
            ("timed_out", stats.timed_out),
            ("completed", stats.completed()),
        ]
    }

    pub fn closed(&self) -> (closed: bool)
        ensures
            closed == self.inner@.closed,
    {
        self.inner.is_closed()
    }
}

/// A task of runtime `inner` that was just submitted, with this timeout.
pub open spec fn work_submitted(inner: InnerView, timeout: Option<Binary64>) -> WorkView {
    WorkView {
        admission: if inner.on_full == OnFull::REJECT {
            Some(*inner.admission_semaphore)
        } else {
            None
        },
        concurrency: None,
        timeout: inner.timeout_secs(timeout),
        task_id: inner.next_id,
    }
}

/// The handle of a task of runtime `inner` that was just submitted: it is
/// queued, is cancelled along with all work of the runtime, and has not started.
pub open spec fn handle_submitted<T>(handle: Handle<T>, inner: InnerView) -> bool {
    &&& handle.slot@ == TaskState::Queued
    &&& handle.cancel.fired() == inner.shutdown
    &&& handle.cancel.ancestors().contains(inner.shutdown_token)
    &&& handle.py_task@ == None::<T>
}

/// What an attempt to take an admission permit leads to, where a task that gets
/// none is refused.
pub open spec fn attempt_error(
    attempt: Result<OwnedSemaphorePermit, TryAcquireError>,
) -> Option<RuntimeError> {
    match attempt {
        Ok(_) => None,
        Err(_) => Some(RuntimeError::QueueFull),
    }
}

/// The runtime's admission semaphore decides whether a task is refused: some
/// attempt at it led to this.
pub open spec fn queue_verdict(inner: InnerView, error: Option<RuntimeError>) -> bool {
    exists|attempt: Result<OwnedSemaphorePermit, TryAcquireError>| #[trigger]
        semaphore_gives(inner.admission_semaphore, attempt) && error == attempt_error(attempt)
}

/// The error, if any, that a runtime refuses a task with. A closed runtime
/// refuses every task, and an open one every task whose timeout is out of
/// range. Of the others, it refuses none if tasks wait for room, and otherwise
/// exactly those for which the admission semaphore gives no permit.
pub open spec fn admission_result(
    inner: InnerView,
    timeout: Option<Binary64>,
    error: Option<RuntimeError>,
) -> bool {
    if inner.closed {
        error == Some(RuntimeError::RuntimeClosed)
    } else if !optional_acceptable(timeout) {
        error == Some(RuntimeError::Value(ValueError::Timeout))
    } else if inner.on_full == OnFull::WAIT {
        error == None::<RuntimeError>
    } else {
        queue_verdict(inner, error)
    }
}

/// A runtime refuses a task, or does not, as this attempt at its admission
/// semaphore has it. Where it asks for no permit, the attempt plays no part.
pub open spec fn decided_by(
    inner: InnerView,
    timeout: Option<Binary64>,
    error: Option<RuntimeError>,
    attempt: Result<OwnedSemaphorePermit, TryAcquireError>,
) -> bool {
    if inner.closed || !optional_acceptable(timeout) || inner.on_full == OnFull::WAIT {
        admission_result(inner, timeout, error)
    } else {
        semaphore_gives(inner.admission_semaphore, attempt) && error == attempt_error(attempt)
    }
}

/// Every submission is decided as some attempt at the admission semaphore has
/// it, or else by the state of the runtime and the timeout alone.
pub proof fn law_attempt_decides(
    inner: InnerView,
    timeout: Option<Binary64>,
    error: Option<RuntimeError>,
)
    ensures
        admission_result(inner, timeout, error) <==> exists|
            attempt: Result<OwnedSemaphorePermit, TryAcquireError>,
        | #[trigger] decided_by(inner, timeout, error, attempt),
{
    if admission_result(inner, timeout, error) {
        if inner.closed || !optional_acceptable(timeout) || inner.on_full == OnFull::WAIT {
            let any = arbitrary::<Result<OwnedSemaphorePermit, TryAcquireError>>();
            assert(decided_by(inner, timeout, error, any));
        } else {
            let attempt = choose|attempt: Result<OwnedSemaphorePermit, TryAcquireError>| #[trigger]
                semaphore_gives(inner.admission_semaphore, attempt) && error == attempt_error(
                    attempt,
                );
            assert(decided_by(inner, timeout, error, attempt));
        }
    }
}

/// What happens to the state of a runtime.
pub enum InnerStep {
    /// Work begins.
    Begin,
    /// Work ends.
    End,
    /// A task is taken on.
    Enrol,
    /// A task in this state is told to run.
    Run(TaskState),
    /// A task in the first state is finished in the second.
    Finish(TaskState, TaskState),
    /// Admissions stop.
    Close,
    /// All work is told to stop.
    Cancel,
}

impl InnerView {
    /// The runtime after a step.
    pub open spec fn step(self, step: InnerStep) -> InnerView {
        match step {
            InnerStep::Begin => self.work_begun(),
            InnerStep::End => self.work_ended(),
            InnerStep::Enrol => self.enrolled(),
            InnerStep::Run(state) => InnerView { journal: self.journal.run_one(state), ..self },
            InnerStep::Finish(prev, next) => InnerView {
                journal: self.journal.finish_one(prev, next),
                ..self
            },
            InnerStep::Close => InnerView { closed: true, ..self },
            InnerStep::Cancel => InnerView { shutdown: true, ..self },
        }
    }

    /// The runtime after these steps.
    pub open spec fn after(self, steps: Seq<InnerStep>) -> InnerView
        decreases steps.len(),
    {
        if steps.len() == 0 {
            self
        } else {
            self.after(steps.drop_last()).step(steps.last())
        }
    }
}

/// A runtime that was closed stays closed, and refuses every task from then
/// on, because it is closed.
pub proof fn law_closed_for_good(
    inner: InnerView,
    steps: Seq<InnerStep>,
    timeout: Option<Binary64>,
    error: Option<RuntimeError>,
)
    requires
        inner.closed,
    ensures
        inner.after(steps).closed,
        admission_result(inner.after(steps), timeout, error) <==> error == Some(
            RuntimeError::RuntimeClosed,
        ),
    decreases steps.len(),
{
    if steps.len() > 0 {
        law_closed_for_good(inner, steps.drop_last(), timeout, error);
    }
}

/// A runtime that told all work to stop stays so: tasks that it still takes on
/// start out cancelled.
pub proof fn law_cancelled_for_good(inner: InnerView, steps: Seq<InnerStep>)
    requires
        inner.shutdown,
    ensures
        inner.after(steps).shutdown,
    decreases steps.len(),
{
    if steps.len() > 0 {
        law_cancelled_for_good(inner, steps.drop_last());
    }
}

/// How often work begins in these steps.
pub open spec fn begins(steps: Seq<InnerStep>) -> int
    decreases steps.len(),
{
    if steps.len() == 0 {
        0
    } else {
        begins(steps.drop_last()) + if steps.last() is Begin || steps.last() is Enrol {
            1int
        } else {
            0
        }
    }
}

/// How often work ends in these steps.
pub open spec fn ends(steps: Seq<InnerStep>) -> int
    decreases steps.len(),
{
    if steps.len() == 0 {
        0
    } else {
        ends(steps.drop_last()) + if steps.last() is End {
            1int
        } else {
            0
        }
    }
}

/// The work count is what was begun and has not ended, as long as nothing ends
/// that was not begun, and the count fits.
pub proof fn law_work_count(inner: InnerView, steps: Seq<InnerStep>)
    requires
        inner.work_count == 0,
        forall|n: int|
            0 <= n <= steps.len() ==> 0 <= begins(#[trigger] steps.take(n)) - ends(steps.take(n))
                <= usize::MAX,
    ensures
        inner.after(steps).work_count == begins(steps) - ends(steps),
    decreases steps.len(),
{
    assert(steps.take(steps.len() as int) =~= steps);
    if steps.len() > 0 {
        let before = steps.drop_last();
        assert forall|n: int| 0 <= n <= before.len() implies 0 <= begins(#[trigger] before.take(n))
            - ends(before.take(n)) <= usize::MAX by {
            assert(before.take(n) =~= steps.take(n));
        }
        law_work_count(inner, before);
        assert(steps.take(before.len() as int) =~= before);
    }
}

/// How many tasks are taken on in these steps.
pub open spec fn enrolments(steps: Seq<InnerStep>) -> int
    decreases steps.len(),
{
    if steps.len() == 0 {
        0
    } else {
        enrolments(steps.drop_last()) + if steps.last() is Enrol {
            1int
        } else {
            0
        }
    }
}

/// The number of the next task moves on by one with every task that is taken
/// on, and with nothing else, up to where numbers wrap around: no two tasks get
/// the same.
pub proof fn law_task_numbers_advance(inner: InnerView, steps: Seq<InnerStep>)
    requires
        inner.next_id + enrolments(steps) <= u64::MAX,
    ensures
        enrolments(steps) >= 0,
        inner.after(steps).next_id == inner.next_id + enrolments(steps),
    decreases steps.len(),
{
    if steps.len() > 0 {
        law_task_numbers_advance(inner, steps.drop_last());
    }
}

/// Tasks that are submitted together, with nothing between them, are numbered
/// in order, each is counted as queued and as work, and a runtime that was open
/// for the first is open for all, as long as the counts fit.
pub proof fn law_batch_in_order(inner: InnerView, steps: Seq<InnerStep>)
    requires
        forall|i: int| 0 <= i < steps.len() ==> #[trigger] steps[i] is Enrol,
        inner.next_id + steps.len() <= u64::MAX,
        inner.journal.queued + steps.len() <= u64::MAX,
        inner.work_count + steps.len() <= usize::MAX,
    ensures
        inner.after(steps).next_id == inner.next_id + steps.len(),
        inner.after(steps).journal.queued == inner.journal.queued + steps.len(),
        inner.after(steps).work_count == inner.work_count + steps.len(),
        inner.after(steps).closed == inner.closed,
    decreases steps.len(),
{
    if steps.len() > 0 {
        let before = steps.drop_last();
        assert forall|i: int| 0 <= i < before.len() implies #[trigger] before[i] is Enrol by {
            assert(steps[i] is Enrol);
        }
        law_batch_in_order(inner, before);
        assert(steps[steps.len() - 1] is Enrol);
    }
}

/// Telling all work to stop reaches every task that was ever submitted: its
/// scope lies in the one that is cancelled then, whatever happened meanwhile.
pub proof fn law_stop_reaches_every_task<T>(
    inner: InnerView,
    handle: Handle<T>,
    steps: Seq<InnerStep>,
)
    requires
        handle_submitted(handle, inner),
    ensures
        handle.cancel.ancestors().contains(inner.after(steps).shutdown_token),
    decreases steps.len(),
{
    if steps.len() > 0 {
        law_stop_reaches_every_task(inner, handle, steps.drop_last());
    }
}

/// A task's own timeout is its timeout, whatever the runtime's default is, longer
/// or shorter; a task without one gets exactly the default, or none where there
/// is none.
pub proof fn law_own_timeout_counts(inner: InnerView, secs: Binary64)
    ensures
        work_submitted(inner, Some(secs)).timeout == Some(secs),
        work_submitted(inner, None).timeout == inner.default_timeout,
        inner.timeout_secs(Some(secs)) == Some(secs),
        inner.timeout_secs(None) == inner.default_timeout,
{
}

/// A task that was just submitted has the runtime's next number. It holds an
/// admission permit of the runtime exactly where a full queue refuses tasks, and
/// never a concurrency permit.
pub proof fn law_submitted_work(inner: InnerView, timeout: Option<Binary64>)
    ensures
        work_submitted(inner, timeout).task_id == inner.next_id,
        inner.on_full == OnFull::REJECT ==> work_submitted(inner, timeout).admission == Some(
            *inner.admission_semaphore,
        ),
        inner.on_full == OnFull::WAIT ==> work_submitted(inner, timeout).admission is None,
        work_submitted(inner, timeout).concurrency is None,
{
}

/// The handle of a task that was just submitted, and what the runtime has
/// admitted: queued, not started, cancelled only if all work is, and from then
/// on cancelled with all work.
pub proof fn law_submitted_handle<T>(
    handle: Handle<T>,
    admitted: Admitted<T>,
    inner: InnerView,
    timeout: Option<Binary64>,
)
    ensures
        handle_submitted(handle, inner) <==> {
            &&& handle.slot@ == TaskState::Queued
            &&& handle.py_task@ is None
            &&& handle.cancel.fired() == inner.shutdown
            &&& handle.cancel.ancestors().contains(inner.shutdown_token)
        },
        admitted.fresh(inner, timeout) <==> {
            &&& admitted.slot@ == TaskState::Queued
            &&& admitted.py_task@ is None
            &&& admitted.cancel.fired() == inner.shutdown
            &&& admitted.cancel.ancestors().contains(inner.shutdown_token)
            &&& admitted.task_id == inner.next_id
            &&& admitted.timeout is Some <==> timeout is Some
            &&& admitted.timeout matches Some(t) ==> Some(t@) == timeout
        },
{
}

/// What refuses a task, in order: that the runtime is closed, that the timeout is
/// out of range, and, only where a full queue refuses, that an attempt at the
/// admission semaphore fails. Where none of them holds the task is taken on.
pub proof fn law_refusals_in_order(
    inner: InnerView,
    timeout: Option<Binary64>,
    error: Option<RuntimeError>,
)
    ensures
        inner.closed ==> (admission_result(inner, timeout, error) <==> error == Some(
            RuntimeError::RuntimeClosed,
        )),
        !inner.closed && (timeout matches Some(secs) && !acceptable(secs)) ==> (admission_result(
            inner,
            timeout,
            error,
        ) <==> error == Some(RuntimeError::Value(ValueError::Timeout))),
        !inner.closed && (timeout matches Some(secs) ==> acceptable(secs)) ==> {
            &&& inner.on_full == OnFull::WAIT ==> (admission_result(inner, timeout, error)
                <==> error is None)
            &&& inner.on_full == OnFull::REJECT && admission_result(inner, timeout, error) ==> {
                &&& error is None ==> exists|permit: OwnedSemaphorePermit| #[trigger]
                    semaphore_gives(inner.admission_semaphore, Ok(permit))
                &&& error is Some ==> error == Some(RuntimeError::QueueFull) && exists|
                    reason: TryAcquireError,
                | #[trigger] semaphore_gives(inner.admission_semaphore, Err(reason))
            }
        },
{
    if queue_verdict(inner, error) {
        let attempt = choose|attempt: Result<OwnedSemaphorePermit, TryAcquireError>| #[trigger]
            semaphore_gives(inner.admission_semaphore, attempt) && error == attempt_error(attempt);
        match attempt {
            Ok(permit) => {
                assert(semaphore_gives(inner.admission_semaphore, Ok(permit)));
            },
            Err(reason) => {
                assert(semaphore_gives(inner.admission_semaphore, Err(reason)));
            },
        }
    }
}

/// What an attempt at the admission semaphore leads to where a full queue
/// refuses.
pub proof fn law_attempt_outcomes(
    inner: InnerView,
    error: Option<RuntimeError>,
    attempt: Result<OwnedSemaphorePermit, TryAcquireError>,
)
    ensures
        attempt is Ok ==> attempt_error(attempt) is None,
        attempt is Err ==> attempt_error(attempt) == Some(RuntimeError::QueueFull),
        queue_verdict(inner, error) <==> exists|
            given: Result<OwnedSemaphorePermit, TryAcquireError>,
        | #[trigger]
            semaphore_gives(inner.admission_semaphore, given) && (given is Ok <==> error is None)
                && (error is Some ==> error == Some(RuntimeError::QueueFull)),
{
    if queue_verdict(inner, error) {
        let given = choose|given: Result<OwnedSemaphorePermit, TryAcquireError>| #[trigger]
            semaphore_gives(inner.admission_semaphore, given) && error == attempt_error(given);
        assert(semaphore_gives(inner.admission_semaphore, given));
    }
    if exists|given: Result<OwnedSemaphorePermit, TryAcquireError>| #[trigger]
        semaphore_gives(inner.admission_semaphore, given) && (given is Ok <==> error is None) && (
        error is Some ==> error == Some(RuntimeError::QueueFull)) {
        let given = choose|given: Result<OwnedSemaphorePermit, TryAcquireError>| #[trigger]
            semaphore_gives(inner.admission_semaphore, given) && (given is Ok <==> error is None)
                && (error is Some ==> error == Some(RuntimeError::QueueFull));
        assert(semaphore_gives(inner.admission_semaphore, given) && error == attempt_error(given));
    }
}

/// The beginning of work counts one more, wakes those who wait for work, and
/// changes nothing else; a task that is taken on is counted as queued besides,
/// and moves the next number on.
pub proof fn law_beginning_work(inner: InnerView)
    ensures
        inner.work_begun().ever_worked,
        inner.work_count < usize::MAX ==> inner.work_begun().work_count == inner.work_count + 1,
        inner.work_count == usize::MAX ==> inner.work_begun().work_count == 0,
        inner.work_begun().started_rings == inner.started_rings + 1,
        (InnerView {
            ever_worked: inner.ever_worked,
            work_count: inner.work_count,
            started_rings: inner.started_rings,
            ..inner.work_begun()
        }) == inner,
        inner.enrolled().next_id as int == (inner.next_id + 1) % 0x1_0000_0000_0000_0000,
        inner.enrolled().journal.queued as int == (inner.journal.queued + 1)
            % 0x1_0000_0000_0000_0000,
        (Stats { queued: inner.journal.queued, ..inner.enrolled().journal }) == inner.journal,
        (InnerView {
            next_id: inner.next_id,
            journal: inner.journal,
            ..inner.enrolled()
        }) == inner.work_begun(),
{
}

/// The end of work counts one less, wakes those who wait for idleness exactly
/// when it was the last, and changes nothing else; it undoes what the beginning
/// did to the count.
pub proof fn law_ending_work(inner: InnerView)
    ensures
        inner.work_count > 0 ==> inner.work_ended().work_count == inner.work_count - 1,
        inner.work_count == 0 ==> inner.work_ended().work_count == usize::MAX,
        inner.work_count == 1 ==> inner.work_ended().idle_rings == inner.idle_rings + 1,
        inner.work_count != 1 ==> inner.work_ended().idle_rings == inner.idle_rings,
        (InnerView {
            work_count: inner.work_count,
            idle_rings: inner.idle_rings,
            ..inner.work_ended()
        }) == inner,
        inner.work_begun().work_ended().work_count == inner.work_count,
{
}

/// Which parameter of a new runtime is reported: no concurrency, then a capacity
/// that does not fit, then a timeout or an idle time out of range, and none if
/// there is nothing to report.
pub proof fn law_new_runtime_refusals(
    max_concurrency: usize,
    queue_capacity: usize,
    default_timeout: Option<Binary64>,
    idle_ttl: Option<Binary64>,
)
    ensures
        ({
            let error = new_error(max_concurrency, queue_capacity, default_timeout, idle_ttl);
            let bad_timeout = (default_timeout matches Some(secs) && !acceptable(secs)) || (
            idle_ttl matches Some(secs) && !acceptable(secs));
            &&& max_concurrency == 0 ==> error == Some(ValueError::MaxConcurrency)
            &&& max_concurrency > 0 && max_concurrency + queue_capacity > usize::MAX ==> error
                == Some(ValueError::QueueCapacity)
            &&& max_concurrency > 0 && max_concurrency + queue_capacity <= usize::MAX
                && bad_timeout ==> error == Some(ValueError::Timeout)
            &&& max_concurrency > 0 && max_concurrency + queue_capacity <= usize::MAX
                && !bad_timeout ==> error is None
        }),
{
}

/// A batch goes through its tasks one by one, and is over when it is past the
/// last. A refusal ends it, and its timeouts never change.
pub proof fn law_batch_steps(batch: BatchView)
    ensures
        batch.over() <==> batch.next >= batch.timeouts.len(),
        batch.advanced().next == batch.next + 1,
        batch.advanced().timeouts == batch.timeouts,
        batch.broken_off().over(),
        batch.broken_off().timeouts == batch.timeouts,
{
}

/// A runtime can be asked for with any parameters but these: an accepted timeout
/// or idle time that no span of time can hold, and more permits than a semaphore
/// can. What is refused before they are looked at can always be asked for.
pub proof fn law_parameters_that_can_be_asked_for(
    max_concurrency: usize,
    queue_capacity: usize,
    default_timeout: Option<Binary64>,
    idle_ttl: Option<Binary64>,
)
    ensures
        ({
            let asked = new_representable(max_concurrency, queue_capacity, default_timeout, idle_ttl);
            let default_too_long = default_timeout matches Some(secs) && !representable(secs);
            let default_accepted = default_timeout matches Some(secs) ==> acceptable(secs);
            let idle_too_long = idle_ttl matches Some(secs) && !representable(secs);
            let idle_accepted = idle_ttl matches Some(secs) ==> acceptable(secs);
            &&& max_concurrency == 0 ==> asked
            &&& max_concurrency + queue_capacity > usize::MAX ==> asked
            &&& max_concurrency > 0 && max_concurrency + queue_capacity <= usize::MAX ==> {
                &&& default_too_long ==> !asked
                &&& !default_accepted ==> asked
                &&& !default_too_long && default_accepted && idle_too_long ==> !asked
                &&& !default_too_long && default_accepted && !idle_accepted ==> asked
                &&& !default_too_long && default_accepted && !idle_too_long && idle_accepted ==> (
                asked <==> max_concurrency + queue_capacity <= usize::MAX / 8)
            }
        }),
{
}

} // verus!
