//! How many tasks a runtime has under way at a time.

use crate::binary64::Binary64;
use crate::error::RuntimeError;
use crate::gate::permit_origin;
use crate::gate::GateKind;
use crate::policy::OnFull;
use crate::runtime::decided_by;
use crate::runtime::work_submitted;
use crate::runtime::InnerStep;
use crate::runtime::InnerView;
use crate::timeout::optional_acceptable;
use crate::work::acquire_step;
use crate::work::PermitPoll;
use crate::work::WorkView;
use std::sync::Arc;
use tokio::sync::OwnedSemaphorePermit;
use tokio::sync::Semaphore;
use tokio::sync::TryAcquireError;
use vstd::prelude::*;

verus! {

/// A runtime, its two gates, and the tasks under way: those that run or wait
/// to.
pub struct Floor {
    pub inner: InnerView,
    /// Free permits for admission.
    pub free_admission: int,
    /// Free permits for execution.
    pub free_concurrency: int,
    pub works: Seq<WorkView>,
}

/// What changes the tasks under way.
pub enum FloorStep {
    /// A task is submitted, with this timeout.
    Submit(Option<Binary64>),
    /// A task that waits at a gate is given a permit, if one is free.
    Grant(int),
    /// A task will not execute, and its permits go back.
    TurnBack(int),
    /// A task ends, and its permits go back.
    Leave(int),
    /// Something else happens to the state of the runtime.
    Account(InnerStep),
}

pub open spec fn one_if(yes: bool) -> int {
    if yes {
        1
    } else {
        0
    }
}

/// How many of the tasks hold an admission permit.
pub open spec fn admitted_count(works: Seq<WorkView>) -> int
    decreases works.len(),
{
    if works.len() == 0 {
        0
    } else {
        admitted_count(works.drop_last()) + one_if(works.last().admitted())
    }
}

/// How many of the tasks execute.
pub open spec fn executing_count(works: Seq<WorkView>) -> int
    decreases works.len(),
{
    if works.len() == 0 {
        0
    } else {
        executing_count(works.drop_last()) + one_if(works.last().executing())
    }
}

impl Floor {
    /// A runtime without tasks, and with all permits free.
    pub open spec fn empty(inner: InnerView) -> Floor {
        Floor {
            inner,
            free_admission: inner.admission_cap as int,
            free_concurrency: inner.max_concurrency as int,
            works: Seq::empty(),
        }
    }

    /// Free permits of one of the gates.
    pub open spec fn free(self, kind: GateKind) -> int {
        match kind {
            GateKind::Admission => self.free_admission,
            GateKind::Concurrency => self.free_concurrency,
        }
    }

    /// The semaphore of one of the gates.
    pub open spec fn semaphore(self, kind: GateKind) -> Arc<Semaphore> {
        match kind {
            GateKind::Admission => self.inner.admission_semaphore,
            GateKind::Concurrency => self.inner.concurrency_semaphore,
        }
    }

    /// A submission is turned away: the runtime is closed, the timeout is out
    /// of range, or the task would have to wait for admission and must not.
    pub open spec fn turns_away(self, timeout: Option<Binary64>) -> bool {
        ||| self.inner.closed
        ||| !optional_acceptable(timeout)
        ||| self.inner.on_full == OnFull::REJECT && self.free_admission <= 0
    }

    /// The permits of task `i` have gone back.
    pub open spec fn returned(self, i: int) -> Floor {
        Floor {
            free_admission: self.free_admission + one_if(self.works[i].admitted()),
            free_concurrency: self.free_concurrency + one_if(self.works[i].executing()),
            ..self
        }
    }

    /// Task `i` is past one more gate.
    pub open spec fn granted(self, i: int, kind: GateKind) -> Floor {
        let works = self.works.update(i, self.works[i].past(kind, *self.semaphore(kind)));
        match kind {
            GateKind::Admission => Floor { free_admission: self.free_admission - 1, works, ..self },
            GateKind::Concurrency => Floor {
                free_concurrency: self.free_concurrency - 1,
                works,
                ..self
            },
        }
    }

    /// What is left after a step.
    pub open spec fn step(self, step: FloorStep) -> Floor {
        match step {
            FloorStep::Submit(timeout) => if self.turns_away(timeout) {
                self
            } else {
                let work = work_submitted(self.inner, timeout);
                Floor {
                    inner: self.inner.enrolled(),
                    free_admission: self.free_admission - one_if(work.admitted()),
                    works: self.works.push(work),
                    ..self
                }
            },
            FloorStep::Grant(i) => if 0 <= i < self.works.len() {
                match self.works[i].wanted() {
                    Some(kind) => if self.free(kind) > 0 {
                        self.granted(i, kind)
                    } else {
                        self
                    },
                    None => self,
                }
            } else {
                self
            },
            FloorStep::TurnBack(i) => if 0 <= i < self.works.len() {
                Floor {
                    works: self.works.update(i, self.works[i].turned_back()),
                    ..self.returned(i)
                }
            } else {
                self
            },
            FloorStep::Leave(i) => if 0 <= i < self.works.len() {
                Floor {
                    inner: self.inner.work_ended(),
                    works: self.works.remove(i),
                    ..self.returned(i)
                }
            } else {
                self
            },
            FloorStep::Account(step) => Floor { inner: self.inner.step(step), ..self },
        }
    }

    /// What is left after these steps.
    pub open spec fn after(self, steps: Seq<FloorStep>) -> Floor
        decreases steps.len(),
    {
        if steps.len() == 0 {
            self
        } else {
            self.after(steps.drop_last()).step(steps.last())
        }
    }

    /// A task passes the gates in order, with permits of this runtime.
    pub open spec fn fits(self, work: WorkView) -> bool {
        &&& work.executing() ==> work.admitted()
        &&& work.admission matches Some(origin) ==> origin == *self.inner.admission_semaphore
        &&& work.concurrency matches Some(origin) ==> origin == *self.inner.concurrency_semaphore
    }

    /// Every permit is free or held by a task, and every task fits.
    pub open spec fn balanced(self) -> bool {
        &&& self.free_admission >= 0
        &&& self.free_concurrency >= 0
        &&& self.free_admission + admitted_count(self.works) == self.inner.admission_cap
        &&& self.free_concurrency + executing_count(self.works) == self.inner.max_concurrency
        &&& forall|i: int| 0 <= i < self.works.len() ==> self.fits(#[trigger] self.works[i])
    }

    /// The runtime's bounds and semaphores are those of another.
    pub open spec fn same_bounds(self, inner: InnerView) -> bool {
        &&& self.inner.on_full == inner.on_full
        &&& self.inner.admission_cap == inner.admission_cap
        &&& self.inner.max_concurrency == inner.max_concurrency
        &&& self.inner.admission_semaphore == inner.admission_semaphore
        &&& self.inner.concurrency_semaphore == inner.concurrency_semaphore
    }
}

/// An attempt that gives a permit exactly if one is free at that moment.
pub open spec fn gives_if_free(
    attempt: Result<OwnedSemaphorePermit, TryAcquireError>,
    free: int,
) -> bool {
    attempt is Ok <==> free > 0
}

/// A look at the semaphore of a gate that shows a permit of it exactly if one is
/// free at that moment.
pub open spec fn shows_if_free(floor: Floor, kind: GateKind, polled: PermitPoll) -> bool {
    match polled {
        PermitPoll::Pending => floor.free(kind) <= 0,
        PermitPoll::Granted(permit) => floor.free(kind) > 0 && permit_origin(permit)
            == *floor.semaphore(kind),
        PermitPoll::Closed => false,
    }
}

proof fn lemma_counts_update(works: Seq<WorkView>, i: int, work: WorkView)
    requires
        0 <= i < works.len(),
    ensures
        admitted_count(works.update(i, work)) == admitted_count(works) - one_if(
            works[i].admitted(),
        ) + one_if(work.admitted()),
        executing_count(works.update(i, work)) == executing_count(works) - one_if(
            works[i].executing(),
        ) + one_if(work.executing()),
    decreases works.len(),
{
    let changed = works.update(i, work);
    if i == works.len() - 1 {
        assert(changed.drop_last() =~= works.drop_last());
    } else {
        assert(changed.drop_last() =~= works.drop_last().update(i, work));
        lemma_counts_update(works.drop_last(), i, work);
    }
}

proof fn lemma_counts_remove(works: Seq<WorkView>, i: int)
    requires
        0 <= i < works.len(),
    ensures
        admitted_count(works.remove(i)) == admitted_count(works) - one_if(works[i].admitted()),
        executing_count(works.remove(i)) == executing_count(works) - one_if(works[i].executing()),
    decreases works.len(),
{
    if i == works.len() - 1 {
        assert(works.remove(i) =~= works.drop_last());
    } else {
        assert(works.remove(i).drop_last() =~= works.drop_last().remove(i));
        lemma_counts_remove(works.drop_last(), i);
    }
}

proof fn lemma_counts_ordered(works: Seq<WorkView>)
    ensures
        0 <= executing_count(works),
        0 <= admitted_count(works) <= works.len(),
        (forall|i: int|
            0 <= i < works.len() && (#[trigger] works[i]).executing() ==> works[i].admitted())
            ==> executing_count(works) <= admitted_count(works),
    decreases works.len(),
{
    if works.len() > 0 {
        let rest = works.drop_last();
        lemma_counts_ordered(rest);
        assert(forall|i: int| 0 <= i < rest.len() ==> #[trigger] rest[i] == works[i]);
        assert(works.last() == works[works.len() - 1]);
    }
}

proof fn lemma_step_keeps_balance(floor: Floor, step: FloorStep)
    requires
        floor.balanced(),
    ensures
        floor.step(step).balanced(),
        floor.step(step).same_bounds(floor.inner),
{
    let after = floor.step(step);
    match step {
        FloorStep::Submit(timeout) => {
            let work = work_submitted(floor.inner, timeout);
            assert(floor.works.push(work).drop_last() =~= floor.works);
        },
        FloorStep::Grant(i) => {
            if 0 <= i < floor.works.len() {
                assert(floor.fits(floor.works[i]));
                let admission = *floor.inner.admission_semaphore;
                let concurrency = *floor.inner.concurrency_semaphore;
                lemma_counts_update(
                    floor.works,
                    i,
                    floor.works[i].past(GateKind::Admission, admission),
                );
                lemma_counts_update(
                    floor.works,
                    i,
                    floor.works[i].past(GateKind::Concurrency, concurrency),
                );
            }
        },
        FloorStep::TurnBack(i) => {
            if 0 <= i < floor.works.len() {
                lemma_counts_update(floor.works, i, floor.works[i].turned_back());
            }
        },
        FloorStep::Leave(i) => {
            if 0 <= i < floor.works.len() {
                lemma_counts_remove(floor.works, i);
            }
        },
        FloorStep::Account(_) => {},
    }
    assert forall|k: int| 0 <= k < after.works.len() implies after.fits(
        #[trigger] after.works[k],
    ) by {
        if let FloorStep::Leave(i) = step {
            if 0 <= i < floor.works.len() && k >= i {
                assert(floor.fits(floor.works[k + 1]));
            } else {
                assert(floor.fits(floor.works[k]));
            }
        } else if k < floor.works.len() {
            assert(floor.fits(floor.works[k]));
        }
    }
}

proof fn lemma_always_balanced(inner: InnerView, steps: Seq<FloorStep>)
    ensures
        Floor::empty(inner).after(steps).balanced(),
        Floor::empty(inner).after(steps).same_bounds(inner),
    decreases steps.len(),
{
    if steps.len() > 0 {
        lemma_always_balanced(inner, steps.drop_last());
        lemma_step_keeps_balance(Floor::empty(inner).after(steps.drop_last()), steps.last());
    }
}

/// A submission changes the tasks under way as the model says, if the attempt at
/// the admission semaphore that decides it gives a permit exactly if one is
/// free: the task is
/// refused exactly when the model turns it away, and is taken on as the model
/// has it otherwise.
pub proof fn law_submission_follows_model(
    floor: Floor,
    timeout: Option<Binary64>,
    error: Option<RuntimeError>,
    attempt: Result<OwnedSemaphorePermit, TryAcquireError>,
)
    requires
        decided_by(floor.inner, timeout, error, attempt),
        gives_if_free(attempt, floor.free_admission),
    ensures
        error is Some <==> floor.turns_away(timeout),
        error is Some ==> floor.step(FloorStep::Submit(timeout)) == floor,
        error is None ==> {
            let after = floor.step(FloorStep::Submit(timeout));
            &&& after.inner == floor.inner.enrolled()
            &&& after.works == floor.works.push(work_submitted(floor.inner, timeout))
        },
{
}

/// A look at the semaphore that a task waits at changes the task as the model
/// says, if it shows a permit exactly if one is free: the task is through if a
/// permit is free and waits on otherwise, and one that will not execute has its
/// permits go back.
pub proof fn law_look_follows_model<E>(
    floor: Floor,
    i: int,
    kind: GateKind,
    cancelled: bool,
    polled: PermitPoll,
)
    requires
        0 <= i < floor.works.len(),
        floor.works[i].wanted() == Some(kind),
        shows_if_free(floor, kind, polled),
    ensures
        ({
            let (work, step) = acquire_step::<E>(floor.works[i], cancelled, polled);
            let after = if step is Failed {
                floor.step(FloorStep::TurnBack(i))
            } else {
                floor.step(FloorStep::Grant(i))
            };
            &&& step is Failed <==> cancelled
            &&& after.works == floor.works.update(i, work)
        }),
{
    assert(floor.works.update(i, floor.works[i]) =~= floor.works);
}

/// However tasks are submitted, let through the gates, turned back and ended,
/// and whatever else happens to the runtime, with gates that give out a permit
/// only while one is free: at no time do more than `max_concurrency` tasks
/// execute, nor do more than `admission_cap` hold an admission permit.
pub proof fn law_capacity(inner: InnerView, steps: Seq<FloorStep>)
    ensures
        ({
            let works = Floor::empty(inner).after(steps).works;
            &&& executing_count(works) <= inner.max_concurrency
            &&& executing_count(works) <= admitted_count(works) <= inner.admission_cap
        }),
{
    let floor = Floor::empty(inner).after(steps);
    lemma_always_balanced(inner, steps);
    assert forall|i: int|
        0 <= i < floor.works.len() && (#[trigger] floor.works[i]).executing() implies floor.works[i].admitted() by {
        assert(floor.fits(floor.works[i]));
    }
    lemma_counts_ordered(floor.works);
}

/// A full queue refuses, and only a full one does: where tasks do not wait for
/// admission, and the attempt at the admission semaphore that decides gives a
/// permit exactly if one is free, an open runtime refuses a task with a valid timeout exactly when
/// `admission_cap` tasks hold an admission permit, and then because the queue is
/// full. While fewer are under way it takes every such task on.
pub proof fn law_refused_when_full(
    inner: InnerView,
    steps: Seq<FloorStep>,
    timeout: Option<Binary64>,
    error: Option<RuntimeError>,
    attempt: Result<OwnedSemaphorePermit, TryAcquireError>,
)
    requires
        inner.on_full == OnFull::REJECT,
        !Floor::empty(inner).after(steps).inner.closed,
        optional_acceptable(timeout),
        decided_by(Floor::empty(inner).after(steps).inner, timeout, error, attempt),
        gives_if_free(attempt, Floor::empty(inner).after(steps).free_admission),
    ensures
        ({
            let works = Floor::empty(inner).after(steps).works;
            &&& error is Some <==> admitted_count(works) == inner.admission_cap
            &&& error is Some ==> error == Some(RuntimeError::QueueFull)
            &&& works.len() < inner.admission_cap ==> error is None
        }),
{
    lemma_always_balanced(inner, steps);
    lemma_counts_ordered(Floor::empty(inner).after(steps).works);
}

/// No permit is lost: when all tasks have ended, all permits are free again.
pub proof fn law_permits_come_back(inner: InnerView, steps: Seq<FloorStep>)
    requires
        Floor::empty(inner).after(steps).works.len() == 0,
    ensures
        Floor::empty(inner).after(steps).free_admission == inner.admission_cap,
        Floor::empty(inner).after(steps).free_concurrency == inner.max_concurrency,
{
    lemma_always_balanced(inner, steps);
}

} // verus!
