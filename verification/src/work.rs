//! Work on its way to execution.

use crate::binary64::Binary64;
use crate::gate::permit_origin;
use crate::gate::GateKind;
use crate::gate::Permit;
use crate::handle::Handle;
use crate::journal::state_after_run;
use crate::outcome::cancelled_error;
use crate::outcome::TaskError;
use crate::policy::RetryConfig;
use crate::retry::RunView;
use crate::retry::TaskRun;
use crate::runtime::Inner;
use crate::runtime::InnerView;
use crate::stream::StreamRun;
use crate::stream::StreamStage;
use crate::timeout::optional_secs;
use crate::timeout::Timeout;
use tokio::sync::OwnedSemaphorePermit;
use tokio::sync::Semaphore;
use vstd::prelude::*;

verus! {

/// What a look at a semaphore that is waited at shows.
pub enum PermitPoll {
    Pending,
    Granted(OwnedSemaphorePermit),
    /// The semaphore was closed.
    Closed,
}

/// What a wait for a permit ends with, if it ends: a cancellation first, and
/// then what the semaphore gave.
pub open spec fn permit_verdict<E>(cancelled: bool, polled: PermitPoll) -> Option<
    Result<OwnedSemaphorePermit, TaskError<E>>,
> {
    if cancelled {
        Some(Err(TaskError::Cancelled))
    } else {
        match polled {
            PermitPoll::Pending => None,
            PermitPoll::Granted(permit) => Some(Ok(permit)),
            PermitPoll::Closed => Some(Err(TaskError::SemaphoreClosed)),
        }
    }
}

pub fn acquire_permit<E>(cancelled: bool, polled: PermitPoll) -> (verdict: Option<
    Result<OwnedSemaphorePermit, TaskError<E>>,
>)
    ensures
        verdict == permit_verdict::<E>(cancelled, polled),
{
    if cancelled {
        return Some(Err(cancelled_error()));
    }
    match polled {
        PermitPoll::Pending => None,
        PermitPoll::Granted(permit) => Some(Ok(permit)),
        PermitPoll::Closed => Some(Err(TaskError::SemaphoreClosed)),
    }
}

/// A task, what it may do, and how long.
///
/// It executes only past both gates, and passes that of admission first.
pub struct WorkCtx {
    admission: Option<Permit>,
    concurrency: Option<Permit>,
    timeout: Option<Timeout>,
    task_id: u64,
}

/// What a task may do, and how long.
pub struct WorkView {
    /// The semaphore that its admission permit is from, if it holds one.
    pub admission: Option<Semaphore>,
    /// The semaphore that its concurrency permit is from, if it holds one.
    pub concurrency: Option<Semaphore>,
    pub timeout: Option<Binary64>,
    pub task_id: u64,
}

/// The semaphore that a permit is from, where there is a permit.
pub open spec fn origin_of(permit: Option<Permit>) -> Option<Semaphore> {
    match permit {
        Some(p) => Some(p.origin()),
        None => None,
    }
}

impl WorkView {
    /// It holds an admission permit.
    pub open spec fn admitted(self) -> bool {
        self.admission is Some
    }

    /// It holds a concurrency permit, and executes.
    pub open spec fn executing(self) -> bool {
        self.concurrency is Some
    }

    /// The task without permits.
    pub open spec fn turned_back(self) -> WorkView {
        WorkView { admission: None, concurrency: None, ..self }
    }

    /// Which gate the task has to pass next.
    pub open spec fn wanted(self) -> Option<GateKind> {
        if !self.admitted() {
            Some(GateKind::Admission)
        } else if !self.executing() {
            Some(GateKind::Concurrency)
        } else {
            None
        }
    }

    /// The task past one more gate, with a permit from this semaphore.
    pub open spec fn past(self, kind: GateKind, origin: Semaphore) -> WorkView {
        match kind {
            GateKind::Admission => WorkView { admission: Some(origin), ..self },
            GateKind::Concurrency => WorkView { concurrency: Some(origin), ..self },
        }
    }
}

impl View for WorkCtx {
    type V = WorkView;

    closed spec fn view(&self) -> WorkView {
        WorkView {
            admission: origin_of(self.admission),
            concurrency: origin_of(self.concurrency),
            timeout: optional_secs(self.timeout),
            task_id: self.task_id,
        }
    }
}

/// How far a task has come on its way to execution.
pub enum AcquireStep<E> {
    /// It waits for a permit.
    Wait(GateKind),
    /// It holds both permits, and executes.
    Ready,
    /// It will not execute.
    Failed(TaskError<E>),
}

/// What a look at the semaphore that a task waits at leads to. A task that will
/// not execute keeps no permit.
pub open spec fn acquire_step<E>(work: WorkView, cancelled: bool, polled: PermitPoll) -> (
    WorkView,
    AcquireStep<E>,
) {
    match work.wanted() {
        None => (work, AcquireStep::Ready),
        Some(kind) => match permit_verdict::<E>(cancelled, polled) {
            None => (work, AcquireStep::Wait(kind)),
            Some(Err(error)) => (work.turned_back(), AcquireStep::Failed(error)),
            Some(Ok(permit)) => (
                work.past(kind, permit_origin(permit)),
                match kind {
                    GateKind::Admission => AcquireStep::Wait(GateKind::Concurrency),
                    GateKind::Concurrency => AcquireStep::Ready,
                },
            ),
        },
    }
}

impl WorkCtx {
    #[verifier::type_invariant]
    spec fn gates_in_order(self) -> bool {
        &&& self.admission matches Some(permit) ==> permit.kind() == GateKind::Admission
        &&& self.concurrency matches Some(permit) ==> permit.kind() == GateKind::Concurrency
        &&& self.concurrency is Some ==> self.admission is Some
    }

    /// A task that does not execute yet.
    pub fn new(
        admission: Option<Permit>,
        timeout: Option<Timeout>,
        task_id: u64,
    ) -> (work: WorkCtx)
        requires
            admission matches Some(permit) ==> permit.kind() == GateKind::Admission,
        ensures
            work@ == (WorkView {
                admission: origin_of(admission),
                concurrency: None,
                timeout: optional_secs(timeout),
                task_id,
            }),
    {
        WorkCtx { admission, concurrency: None, timeout, task_id }
    }

    /// Which gate the task has to pass next.
    pub fn wanted(&self) -> (kind: Option<GateKind>)
        ensures
            kind == self@.wanted(),
    {
        if self.admission.is_none() {
            Some(GateKind::Admission)
        } else if self.concurrency.is_none() {
            Some(GateKind::Concurrency)
        } else {
            None
        }
    }

    /// Goes on after a look at the semaphore of whichever gate the task has to
    /// pass next. Past the last gate the task is set running. When it will not
    /// get there, the permit that it has goes back.
    pub fn acquire_execution<T, E>(
        &mut self,
        inner: &mut Inner,
        handle: &mut Handle<T>,
        cancelled: bool,
        polled: PermitPoll,
    ) -> (step: AcquireStep<E>)
        requires
            old(inner).wf(),
        ensures
            final(inner).wf(),
            (final(self)@, step) == acquire_step::<E>(old(self)@, cancelled, polled),
            final(handle).cancel == old(handle).cancel,
            final(handle).py_task == old(handle).py_task,
            if final(self)@.executing() && !old(self)@.executing() {
                &&& final(inner)@ == (InnerView {
                    journal: old(inner)@.journal.run_one(old(handle).slot@),
                    ..old(inner)@
                })
                &&& final(handle).slot@ == state_after_run(old(handle).slot@)
            } else {
                &&& final(inner)@ == old(inner)@
                &&& final(handle).slot@ == old(handle).slot@
            },
    {
        proof {
            use_type_invariant(&*self);
        }
        let kind = match self.wanted() {
            Some(kind) => kind,
            None => {
                return AcquireStep::Ready;
            },
        };
        match acquire_permit(cancelled, polled) {
            None => AcquireStep::Wait(kind),
            Some(Err(error)) => {
                self.admission = None;
                AcquireStep::Failed(error)
            },
            Some(Ok(permit)) => match kind {
                GateKind::Admission => {
                    self.admission = Some(inner.granted(kind, permit));
                    AcquireStep::Wait(GateKind::Concurrency)
                },
                GateKind::Concurrency => {
                    self.concurrency = Some(inner.granted(kind, permit));
                    inner.mark_running(handle);
                    AcquireStep::Ready
                },
            },
        }
    }

    /// The call that the task is for, to be made as the retry parameters say.
    /// There is none before the task executes.
    pub fn task_run(&self, retry: RetryConfig) -> (run: Option<TaskRun>)
        ensures
            run is Some <==> self@.executing(),
            run matches Some(r) ==> r@ == RunView::fresh(retry, self@.task_id),
    {
        if self.concurrency.is_some() {
            Some(TaskRun::new(retry, self.task_id))
        } else {
            None
        }
    }

    /// The stream that the task is for. There is none before the task
    /// executes.
    pub fn stream_run(&self) -> (run: Option<StreamRun>)
        ensures
            run is Some <==> self@.executing(),
            run matches Some(r) ==> r@ == StreamStage::Due,
    {
        if self.concurrency.is_some() {
            Some(StreamRun::new())
        } else {
            None
        }
    }

    /// How long each wait for the event loop may take.
    pub fn timeout(&self) -> (timeout: Option<Timeout>)
        ensures
            optional_secs(timeout) == self@.timeout,
    {
        self.timeout
    }

    pub fn task_id(&self) -> (task_id: u64)
        ensures
            task_id == self@.task_id,
    {
        self.task_id
    }
}

/// A task passes the gates in order: one that executes holds both permits, and
/// keeps them whatever is seen. It goes back through a gate only when it will
/// not execute, and then it keeps neither permit.
pub proof fn law_execution_needs_both_permits<E>(
    work: WorkView,
    cancelled: bool,
    polled: PermitPoll,
)
    requires
        work.executing() ==> work.admitted(),
    ensures
        ({
            let (after, step) = acquire_step::<E>(work, cancelled, polled);
            &&& after.executing() ==> after.admitted()
            &&& work.executing() ==> after == work
            &&& step is Ready <==> after.executing()
            &&& step is Failed ==> !after.admitted() && !after.executing()
            &&& !(step is Failed) && work.admitted() ==> after.admission == work.admission
        }),
{
}

/// A cancelled task never gets to execute while it waits for a permit, whatever
/// the semaphore gives, and keeps no permit.
pub proof fn law_cancelled_work_does_not_start<E>(work: WorkView, polled: PermitPoll)
    requires
        !work.executing(),
    ensures
        acquire_step::<E>(work, true, polled) == (
            work.turned_back(),
            AcquireStep::<E>::Failed(TaskError::Cancelled),
        ),
{
}

/// What a look leads to, for a task on its way. A cancellation comes first and
/// a closed semaphore is an error of its own; either way the task keeps no
/// permit. A permit that is granted is the task's next one, the admission permit
/// before the concurrency permit, and while none is the task waits on unchanged.
/// Its timeout and its number never change.
pub proof fn law_look_outcomes<E>(
    work: WorkView,
    cancelled: bool,
    polled: PermitPoll,
    permit: OwnedSemaphorePermit,
)
    requires
        work.admission is None || work.concurrency is None,
    ensures
        ({
            let (after, step) = acquire_step::<E>(work, cancelled, polled);
            &&& after.timeout == work.timeout
            &&& after.task_id == work.task_id
            &&& cancelled ==> {
                &&& step == AcquireStep::<E>::Failed(TaskError::Cancelled)
                &&& after.admission is None
                &&& after.concurrency is None
            }
            &&& !cancelled && polled is Closed ==> {
                &&& step == AcquireStep::<E>::Failed(TaskError::SemaphoreClosed)
                &&& after.admission is None
                &&& after.concurrency is None
            }
            &&& !cancelled && polled is Pending ==> {
                &&& after == work
                &&& work.admission is None ==> step == AcquireStep::<E>::Wait(GateKind::Admission)
                &&& work.admission is Some ==> step == AcquireStep::<E>::Wait(
                    GateKind::Concurrency,
                )
            }
            &&& !cancelled && polled == PermitPoll::Granted(permit) && work.admission is None ==> {
                &&& step == AcquireStep::<E>::Wait(GateKind::Concurrency)
                &&& after.admission == Some(permit_origin(permit))
                &&& after.concurrency == work.concurrency
            }
            &&& !cancelled && polled == PermitPoll::Granted(permit) && work.admission is Some ==> {
                &&& step == AcquireStep::<E>::Ready
                &&& after.admission == work.admission
                &&& after.concurrency == Some(permit_origin(permit))
            }
        }),
{
}

/// A task with both permits executes whatever is seen, and is not changed.
pub proof fn law_executing_work_stays<E>(work: WorkView, cancelled: bool, polled: PermitPoll)
    requires
        work.admission is Some,
        work.concurrency is Some,
    ensures
        acquire_step::<E>(work, cancelled, polled) == (work, AcquireStep::<E>::Ready),
{
}

/// Which permits a task holds, and which it has to get next.
pub proof fn law_permits_held(work: WorkView, permit: Permit)
    ensures
        work.admitted() <==> work.admission is Some,
        work.executing() <==> work.concurrency is Some,
        work.admission is None ==> work.wanted() == Some(GateKind::Admission),
        work.admission is Some && work.concurrency is None ==> work.wanted() == Some(
            GateKind::Concurrency,
        ),
        work.admission is Some && work.concurrency is Some ==> work.wanted() is None,
        origin_of(None) is None,
        origin_of(Some(permit)) == Some(permit.origin()),
{
}

/// What a wait for a permit ends with: a cancellation first, then what the
/// semaphore gave, as it is.
pub proof fn law_permit_or_cancellation<E>(
    cancelled: bool,
    polled: PermitPoll,
    permit: OwnedSemaphorePermit,
)
    ensures
        cancelled ==> permit_verdict::<E>(cancelled, polled) == Some(
            Err::<OwnedSemaphorePermit, TaskError<E>>(TaskError::Cancelled),
        ),
        !cancelled && polled is Pending ==> permit_verdict::<E>(cancelled, polled) is None,
        !cancelled && polled == PermitPoll::Granted(permit) ==> permit_verdict::<E>(
            cancelled,
            polled,
        ) == Some(Ok::<OwnedSemaphorePermit, TaskError<E>>(permit)),
        !cancelled && polled is Closed ==> permit_verdict::<E>(cancelled, polled) == Some(
            Err::<OwnedSemaphorePermit, TaskError<E>>(TaskError::SemaphoreClosed),
        ),
{
}

} // verus!
