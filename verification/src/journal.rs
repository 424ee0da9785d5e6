//! Task states, and the counts of tasks in each of them.

use vstd::prelude::*;

verus! {

/// Where a task stands.
#[derive(Clone, Copy, Debug, PartialEq, Eq, Structural)]
pub enum TaskState {
    Unknown,
    Queued,
    Running,
    Succeeded,
    Failed,
    Cancelled,
    TimedOut,
}

impl TaskState {
    /// The number that a slot stores for the state.
    pub open spec fn code(self) -> u8 {
        match self {
            TaskState::Unknown => 0,
            TaskState::Queued => 1,
            TaskState::Running => 2,
            TaskState::Succeeded => 3,
            TaskState::Failed => 4,
            TaskState::Cancelled => 5,
            TaskState::TimedOut => 6,
        }
    }

    /// The state that a stored number stands for.
    pub open spec fn of_code(code: u8) -> TaskState {
        if code == 1 {
            TaskState::Queued
        } else if code == 2 {
            TaskState::Running
        } else if code == 3 {
            TaskState::Succeeded
        } else if code == 4 {
            TaskState::Failed
        } else if code == 5 {
            TaskState::Cancelled
        } else if code == 6 {
            TaskState::TimedOut
        } else {
            TaskState::Unknown
        }
    }

    /// The name of the state.
    pub open spec fn text(self) -> Seq<char> {
        match self {
            TaskState::Unknown => "unknown"@,
            TaskState::Queued => "queued"@,
            TaskState::Running => "running"@,
            TaskState::Succeeded => "succeeded"@,
            TaskState::Failed => "failed"@,
            TaskState::Cancelled => "cancelled"@,
            TaskState::TimedOut => "timed_out"@,
        }
    }

    /// The task has ended.
    pub open spec fn terminal(self) -> bool {
        ||| self is Succeeded
        ||| self is Failed
        ||| self is Cancelled
        ||| self is TimedOut
    }

    /// The task has not ended.
    pub open spec fn pending(self) -> bool {
        self is Queued || self is Running
    }

    pub fn from_u8(value: u8) -> (state: Self)
        ensures
            state == Self::of_code(value),
    {
        match value {
            1 => TaskState::Queued,
            2 => TaskState::Running,
            3 => TaskState::Succeeded,
            4 => TaskState::Failed,
            5 => TaskState::Cancelled,
            6 => TaskState::TimedOut,
            _ => TaskState::Unknown,
        }
    }

    pub fn to_u8(self) -> (value: u8)
        ensures
            value == self.code(),
    {
        match self {
            TaskState::Unknown => 0,
            TaskState::Queued => 1,
            TaskState::Running => 2,
            TaskState::Succeeded => 3,
            TaskState::Failed => 4,
            TaskState::Cancelled => 5,
            TaskState::TimedOut => 6,
        }
    }

    pub fn as_str(self) -> (text: &'static str)
        ensures
            text@ == self.text(),
    {
        match self {
            TaskState::Unknown => "unknown",
            TaskState::Queued => "queued",
            TaskState::Running => "running",
            TaskState::Succeeded => "succeeded",
            TaskState::Failed => "failed",
            TaskState::Cancelled => "cancelled",
            TaskState::TimedOut => "timed_out",
        }
    }

    pub fn is_terminal(self) -> (yes: bool)
        ensures
            yes == self.terminal(),
    {
        matches!(
            self,
            TaskState::Succeeded | TaskState::Failed | TaskState::Cancelled | TaskState::TimedOut
        )
    }
}

/// The state of one task, shared between the task and its handle.
pub struct TaskSlot {
    state: u8,
}

impl View for TaskSlot {
    type V = TaskState;

    closed spec fn view(&self) -> TaskState {
        TaskState::of_code(self.state)
    }
}

impl TaskSlot {
    #[verifier::type_invariant]
    spec fn coded(self) -> bool {
        self.state <= 6
    }

    /// The slot of a task that has just been submitted.
    pub fn queued() -> (slot: Self)
        ensures
            slot@ == TaskState::Queued,
    {
        TaskSlot { state: TaskState::Queued.to_u8() }
    }

    pub fn get(&self) -> (state: TaskState)
        ensures
            state == self@,
    {
        TaskState::from_u8(self.state)
    }

    /// Moves the slot from `from` to `to`; a slot in another state stays as it
    /// is. Tells whether the slot moved.
    pub fn transition(&mut self, from: TaskState, to: TaskState) -> (moved: bool)
        ensures
            moved == (old(self)@ == from),
            final(self)@ == (if moved {
                to
            } else {
                old(self)@
            }),
    {
        proof {
            use_type_invariant(&*self);
        }
        if self.state == from.to_u8() {
            self.state = to.to_u8();
            true
        } else {
            false
        }
    }

    /// Puts the slot in state `next`, and hands back the state that it was in.
    pub fn swap(&mut self, next: TaskState) -> (prev: TaskState)
        ensures
            prev == old(self)@,
            final(self)@ == next,
    {
        let prev = TaskState::from_u8(self.state);
        self.state = next.to_u8();
        prev
    }
}

/// How many tasks are in each state.
#[derive(Clone, Copy, Debug, PartialEq, Eq, Structural)]
pub struct Stats {
    pub queued: u64,
    pub in_flight: u64,
    pub succeeded: u64,
    pub failed: u64,
    pub cancelled: u64,
    pub timed_out: u64,
}

impl Default for Stats {
    fn default() -> (stats: Self)
        ensures
            stats == Stats::zero(),
    {
        Stats { queued: 0, in_flight: 0, succeeded: 0, failed: 0, cancelled: 0, timed_out: 0 }
    }
}

impl Stats {
    /// No task in any state.
    pub open spec fn zero() -> Stats {
        Stats { queued: 0, in_flight: 0, succeeded: 0, failed: 0, cancelled: 0, timed_out: 0 }
    }

    /// How many tasks have ended.
    pub open spec fn ended(self) -> int {
        self.succeeded + self.failed + self.cancelled + self.timed_out
    }

    /// One more task in the queue.
    pub open spec fn queue_one(self) -> Stats {
        Stats { queued: self.queued.wrapping_add(1), ..self }
    }

    /// The counts after a task in state `state` was told to run: a queued task
    /// runs, any other stays where it is.
    pub open spec fn run_one(self, state: TaskState) -> Stats {
        if state is Queued {
            Stats {
                queued: self.queued.wrapping_sub(1),
                in_flight: self.in_flight.wrapping_add(1),
                ..self
            }
        } else {
            self
        }
    }

    /// One task less in state `prev`, if that is one that tasks leave.
    pub open spec fn leave(self, prev: TaskState) -> Stats {
        match prev {
            TaskState::Queued => Stats { queued: self.queued.wrapping_sub(1), ..self },
            TaskState::Running => Stats { in_flight: self.in_flight.wrapping_sub(1), ..self },
            _ => self,
        }
    }

    /// One task more in state `next`, if that is an end.
    pub open spec fn enter(self, next: TaskState) -> Stats {
        match next {
            TaskState::Succeeded => Stats { succeeded: self.succeeded.wrapping_add(1), ..self },
            TaskState::Failed => Stats { failed: self.failed.wrapping_add(1), ..self },
            TaskState::Cancelled => Stats { cancelled: self.cancelled.wrapping_add(1), ..self },
            TaskState::TimedOut => Stats { timed_out: self.timed_out.wrapping_add(1), ..self },
            _ => self,
        }
    }

    /// The counts after a task in state `prev` finished in state `next`. Only
    /// a task that had not ended is counted.
    pub open spec fn finish_one(self, prev: TaskState, next: TaskState) -> Stats {
        if prev.pending() {
            self.leave(prev).enter(next)
        } else {
            self
        }
    }

    /// How many tasks have ended; the sum wraps around at two to the power of
    /// sixty-four, as the counts do.
    pub fn completed(&self) -> (count: u64)
        ensures
            count as int == self.ended() % 0x1_0000_0000_0000_0000,
            self.ended() <= u64::MAX ==> count == self.ended(),
    {
        self.succeeded.wrapping_add(self.failed).wrapping_add(self.cancelled).wrapping_add(
            self.timed_out,
        )
    }
}

/// Counts tasks by state. Tasks that have ended are not kept.
pub struct Journal {
    counts: Stats,
}

impl View for Journal {
    type V = Stats;

    closed spec fn view(&self) -> Stats {
        self.counts
    }
}

impl Default for Journal {
    fn default() -> (journal: Self)
        ensures
            journal@ == Stats::zero(),
    {
        Journal { counts: Stats::default() }
    }
}

impl Journal {
    /// Counts a task that enters the queue.
    pub fn insert_queued(&mut self)
        ensures
            final(self)@ == old(self)@.queue_one(),
    {
        self.counts.queued = self.counts.queued.wrapping_add(1);
    }

    /// Sets a queued task running. A task that is not queued, because it was
    /// cancelled for instance, stays as it is.
    pub fn mark_running(&mut self, slot: &mut TaskSlot)
        ensures
            final(slot)@ == state_after_run(old(slot)@),
            final(self)@ == old(self)@.run_one(old(slot)@),
    {
        if slot.transition(TaskState::Queued, TaskState::Running) {
            self.counts.queued = self.counts.queued.wrapping_sub(1);
            self.counts.in_flight = self.counts.in_flight.wrapping_add(1);
        }
    }

    /// Puts a task in state `next`, and counts it there if it had not ended.
    pub fn finish(&mut self, slot: &mut TaskSlot, next: TaskState)
        ensures
            final(slot)@ == next,
            final(self)@ == old(self)@.finish_one(old(slot)@, next),
    {
        let prev = slot.swap(next);
        match prev {
            TaskState::Queued => {
                self.counts.queued = self.counts.queued.wrapping_sub(1);
            },
            TaskState::Running => {
                self.counts.in_flight = self.counts.in_flight.wrapping_sub(1);
            },
            _ => {
                return;
            },
        }
        match next {
            TaskState::Succeeded => {
                self.counts.succeeded = self.counts.succeeded.wrapping_add(1);
            },
            TaskState::Failed => {
                self.counts.failed = self.counts.failed.wrapping_add(1);
            },
            TaskState::Cancelled => {
                self.counts.cancelled = self.counts.cancelled.wrapping_add(1);
            },
            TaskState::TimedOut => {
                self.counts.timed_out = self.counts.timed_out.wrapping_add(1);
            },
            TaskState::Unknown | TaskState::Queued | TaskState::Running => {},
        }
    }

    pub fn stats(&self) -> (stats: Stats)
        ensures
            stats == self@,
    {
        self.counts
    }
}

/// The state of a task after it was told to run.
pub open spec fn state_after_run(state: TaskState) -> TaskState {
    if state is Queued {
        TaskState::Running
    } else {
        state
    }
}

/// How many of the tasks are in state `state`.
pub open spec fn tally(tasks: Seq<TaskState>, state: TaskState) -> nat
    decreases tasks.len(),
{
    if tasks.len() == 0 {
        0
    } else {
        tally(tasks.drop_last(), state) + if tasks.last() == state {
            1nat
        } else {
            0nat
        }
    }
}

/// The counts are those of the tasks, state by state.
pub open spec fn accounts_for(stats: Stats, tasks: Seq<TaskState>) -> bool {
    &&& stats.queued == tally(tasks, TaskState::Queued)
    &&& stats.in_flight == tally(tasks, TaskState::Running)
    &&& stats.succeeded == tally(tasks, TaskState::Succeeded)
    &&& stats.failed == tally(tasks, TaskState::Failed)
    &&& stats.cancelled == tally(tasks, TaskState::Cancelled)
    &&& stats.timed_out == tally(tasks, TaskState::TimedOut)
}

/// How many of the tasks have ended, in whichever state.
pub open spec fn ended_tally(tasks: Seq<TaskState>) -> nat {
    tally(tasks, TaskState::Succeeded) + tally(tasks, TaskState::Failed) + tally(
        tasks,
        TaskState::Cancelled,
    ) + tally(tasks, TaskState::TimedOut)
}

/// The totals are those of the tasks: how many are queued, how many run, and
/// how many have ended.
pub open spec fn totals_account_for(stats: Stats, tasks: Seq<TaskState>) -> bool {
    &&& stats.queued == tally(tasks, TaskState::Queued)
    &&& stats.in_flight == tally(tasks, TaskState::Running)
    &&& stats.ended() == ended_tally(tasks)
}

/// A state reads back from its number.
pub proof fn law_state_code_round_trip(state: TaskState)
    ensures
        TaskState::of_code(state.code()) == state,
{
}

/// A tally is at most the number of tasks.
proof fn lemma_tally_bound(tasks: Seq<TaskState>, state: TaskState)
    ensures
        tally(tasks, state) <= tasks.len(),
    decreases tasks.len(),
{
    if tasks.len() > 0 {
        lemma_tally_bound(tasks.drop_last(), state);
    }
}

/// When one task changes its state, the tally of the state that it left loses
/// one and the tally of the state that it entered gains one.
proof fn lemma_tally_update(tasks: Seq<TaskState>, i: int, next: TaskState, state: TaskState)
    requires
        0 <= i < tasks.len(),
    ensures
        tally(tasks.update(i, next), state) + (if tasks[i] == state {
            1int
        } else {
            0
        }) == tally(tasks, state) + (if next == state {
            1int
        } else {
            0
        }),
    decreases tasks.len(),
{
    let changed = tasks.update(i, next);
    if i == tasks.len() - 1 {
        assert(changed.drop_last() =~= tasks.drop_last());
    } else {
        assert(changed.drop_last() =~= tasks.drop_last().update(i, next));
        lemma_tally_update(tasks.drop_last(), i, next, state);
    }
}

/// Counting a new task keeps the counts true, as long as the number of tasks
/// fits in a count.
pub proof fn law_queueing_keeps_accounts(stats: Stats, tasks: Seq<TaskState>)
    requires
        accounts_for(stats, tasks),
        tasks.len() < u64::MAX,
    ensures
        accounts_for(stats.queue_one(), tasks.push(TaskState::Queued)),
{
    let more = tasks.push(TaskState::Queued);
    assert(more.drop_last() =~= tasks);
    lemma_tally_bound(tasks, TaskState::Queued);
}

/// Setting a task running keeps the counts true, whatever state it is in.
pub proof fn law_running_keeps_accounts(stats: Stats, tasks: Seq<TaskState>, i: int)
    requires
        accounts_for(stats, tasks),
        0 <= i < tasks.len() <= u64::MAX,
    ensures
        accounts_for(stats.run_one(tasks[i]), tasks.update(i, state_after_run(tasks[i]))),
{
    lemma_update_tallies(tasks, i, state_after_run(tasks[i]));
}

/// Finishing a task that had not ended keeps the counts true. A task that is
/// finished a second time takes the new state without being counted again, so
/// that of it only the totals stay true.
pub proof fn law_finishing_keeps_accounts(
    stats: Stats,
    tasks: Seq<TaskState>,
    i: int,
    next: TaskState,
)
    requires
        accounts_for(stats, tasks),
        0 <= i < tasks.len() <= u64::MAX,
        tasks[i].pending(),
        next.terminal(),
    ensures
        accounts_for(stats.finish_one(tasks[i], next), tasks.update(i, next)),
{
    lemma_update_tallies(tasks, i, next);
}

/// Counting a new task keeps the totals true, as long as the number of tasks
/// fits in a count.
pub proof fn law_queueing_keeps_totals(stats: Stats, tasks: Seq<TaskState>)
    requires
        totals_account_for(stats, tasks),
        tasks.len() < u64::MAX,
    ensures
        totals_account_for(stats.queue_one(), tasks.push(TaskState::Queued)),
{
    let more = tasks.push(TaskState::Queued);
    assert(more.drop_last() =~= tasks);
    lemma_tally_bound(tasks, TaskState::Queued);
}

/// Setting a task running keeps the totals true, whatever state it is in.
pub proof fn law_running_keeps_totals(stats: Stats, tasks: Seq<TaskState>, i: int)
    requires
        totals_account_for(stats, tasks),
        0 <= i < tasks.len() <= u64::MAX,
    ensures
        totals_account_for(stats.run_one(tasks[i]), tasks.update(i, state_after_run(tasks[i]))),
{
    lemma_update_tallies(tasks, i, state_after_run(tasks[i]));
}

/// Finishing a task keeps the totals true, also when it had ended before: it
/// takes the new state, and stays one task that has ended.
pub proof fn law_finishing_keeps_totals(
    stats: Stats,
    tasks: Seq<TaskState>,
    i: int,
    next: TaskState,
)
    requires
        totals_account_for(stats, tasks),
        0 <= i < tasks.len() <= u64::MAX,
        tasks[i].pending() || tasks[i].terminal(),
        next.terminal(),
    ensures
        totals_account_for(stats.finish_one(tasks[i], next), tasks.update(i, next)),
{
    lemma_update_tallies(tasks, i, next);
    lemma_ended_bound(tasks);
    if tasks[i].pending() {
        lemma_pending_not_ended(tasks, i);
    }
}

/// No more tasks have ended than there are.
proof fn lemma_ended_bound(tasks: Seq<TaskState>)
    ensures
        ended_tally(tasks) <= tasks.len(),
    decreases tasks.len(),
{
    if tasks.len() > 0 {
        lemma_ended_bound(tasks.drop_last());
    }
}

/// While one of the tasks has not ended, not all have.
proof fn lemma_pending_not_ended(tasks: Seq<TaskState>, i: int)
    requires
        0 <= i < tasks.len(),
        tasks[i].pending(),
    ensures
        ended_tally(tasks) < tasks.len(),
    decreases tasks.len(),
{
    let rest = tasks.drop_last();
    if i == tasks.len() - 1 {
        lemma_ended_bound(rest);
    } else {
        assert(rest[i] == tasks[i]);
        lemma_pending_not_ended(rest, i);
    }
}

/// The tallies of all counted states after one task changed its state.
proof fn lemma_update_tallies(tasks: Seq<TaskState>, i: int, next: TaskState)
    requires
        0 <= i < tasks.len(),
    ensures
        forall|state: TaskState|
            #![trigger tally(tasks.update(i, next), state)]
            {
                &&& tally(tasks.update(i, next), state) + (if tasks[i] == state {
                    1int
                } else {
                    0
                }) == tally(tasks, state) + (if next == state {
                    1int
                } else {
                    0
                })
                &&& tally(tasks.update(i, next), state) <= tasks.len()
                &&& tally(tasks, state) <= tasks.len()
            },
{
    assert forall|state: TaskState|
        #![trigger tally(tasks.update(i, next), state)]
        {
            &&& tally(tasks.update(i, next), state) + (if tasks[i] == state {
                1int
            } else {
                0
            }) == tally(tasks, state) + (if next == state {
                1int
            } else {
                0
            })
            &&& tally(tasks.update(i, next), state) <= tasks.len()
            &&& tally(tasks, state) <= tasks.len()
        } by {
        lemma_tally_update(tasks, i, next, state);
        lemma_tally_bound(tasks, state);
        lemma_tally_bound(tasks.update(i, next), state);
    }
}

/// Every submitted task is counted exactly once: as queued, in flight or
/// ended. This holds also of tasks that were finished more than once.
pub proof fn law_every_task_counted_once(stats: Stats, tasks: Seq<TaskState>)
    requires
        accounts_for(stats, tasks) || totals_account_for(stats, tasks),
        !tasks.contains(TaskState::Unknown),
    ensures
        stats.queued + stats.in_flight + stats.ended() == tasks.len(),
{
    lemma_tallies_add_up(tasks);
}

/// The tallies of the known states add up to the number of tasks.
proof fn lemma_tallies_add_up(tasks: Seq<TaskState>)
    requires
        !tasks.contains(TaskState::Unknown),
    ensures
        tally(tasks, TaskState::Queued) + tally(tasks, TaskState::Running) + tally(
            tasks,
            TaskState::Succeeded,
        ) + tally(tasks, TaskState::Failed) + tally(tasks, TaskState::Cancelled) + tally(
            tasks,
            TaskState::TimedOut,
        ) == tasks.len(),
    decreases tasks.len(),
{
    if tasks.len() > 0 {
        let rest = tasks.drop_last();
        assert forall|i: int| 0 <= i < rest.len() implies rest[i] != TaskState::Unknown by {
            assert(tasks[i] == rest[i]);
            assert(tasks.contains(tasks[i]));
        }
        assert(tasks.contains(tasks.last()));
        lemma_tallies_add_up(rest);
    }
}

/// A task that has ended stays as it is, and stays counted as it is, when it
/// is told to run: work that was cancelled in the queue never counts as in
/// flight.
pub proof fn law_ended_tasks_never_run(stats: Stats, state: TaskState)
    requires
        state.terminal(),
    ensures
        state_after_run(state) == state,
        stats.run_one(state) == stats,
{
}

/// A second finish of the same task leaves the counts alone.
pub proof fn law_finish_counts_once(
    stats: Stats,
    prev: TaskState,
    first: TaskState,
    second: TaskState,
)
    requires
        first.terminal(),
    ensures
        stats.finish_one(prev, first).finish_one(first, second) == stats.finish_one(prev, first),
{
}

/// What can happen to a task: it is told to run, or it is finished in some
/// state.
pub enum TaskStep {
    Run,
    Finish(TaskState),
}

/// The state of a task after these steps, taken in order.
pub open spec fn state_after(start: TaskState, steps: Seq<TaskStep>) -> TaskState
    decreases steps.len(),
{
    if steps.len() == 0 {
        start
    } else {
        let before = state_after(start, steps.drop_last());
        match steps.last() {
            TaskStep::Run => state_after_run(before),
            TaskStep::Finish(next) => next,
        }
    }
}

/// A submitted task is always queued, running, succeeded, failed, cancelled or
/// timed out, and never in the unknown state, whatever happens to it in
/// whatever order, as long as it is finished in end states only.
pub proof fn law_known_states_only(steps: Seq<TaskStep>)
    requires
        forall|i: int|
            0 <= i < steps.len() ==> (#[trigger] steps[i] matches TaskStep::Finish(next)
                ==> next.terminal()),
    ensures
        ({
            let state = state_after(TaskState::Queued, steps);
            state.pending() || state.terminal()
        }),
    decreases steps.len(),
{
    if steps.len() > 0 {
        let before = steps.drop_last();
        assert forall|i: int| 0 <= i < before.len() implies (#[trigger] before[i] matches TaskStep::Finish(
            next,
        ) ==> next.terminal()) by {
            assert(steps[i] == before[i]);
        }
        law_known_states_only(before);
        let last = steps[steps.len() - 1];
        assert(last == steps.last());
    }
}

/// The states and their numbers: seven of each, no two alike, and every other
/// number stands for the unknown state. A task has ended exactly when it is
/// succeeded, failed, cancelled or timed out, and is pending exactly when it is
/// queued or running.
pub proof fn law_states(state: TaskState, other: TaskState, code: u8)
    ensures
        state.code() == other.code() ==> state == other,
        state.code() <= 6,
        TaskState::Unknown.code() == 0,
        TaskState::Queued.code() == 1,
        TaskState::Running.code() == 2,
        TaskState::Succeeded.code() == 3,
        TaskState::Failed.code() == 4,
        TaskState::Cancelled.code() == 5,
        TaskState::TimedOut.code() == 6,
        code <= 6 ==> TaskState::of_code(code).code() == code,
        code > 6 ==> TaskState::of_code(code) == TaskState::Unknown,
        state.terminal() <==> state == TaskState::Succeeded || state == TaskState::Failed || state
            == TaskState::Cancelled || state == TaskState::TimedOut,
        state.pending() <==> state == TaskState::Queued || state == TaskState::Running,
{
}

/// A task that is told to run runs if it is queued, and otherwise stays in its
/// state.
pub proof fn law_only_queued_tasks_run(state: TaskState)
    ensures
        state == TaskState::Queued ==> state_after_run(state) == TaskState::Running,
        state != TaskState::Queued ==> state_after_run(state) == state,
{
}

/// What each event does to the counts: one task more in the queue, or one task
/// from the queue into flight. Counts wrap around, and all others stay.
pub proof fn law_counts_move_by_one(stats: Stats, state: TaskState)
    ensures
        stats.queue_one().queued as int == (stats.queued + 1) % 0x1_0000_0000_0000_0000,
        stats.queue_one() == (Stats { queued: stats.queue_one().queued, ..stats }),
        state == TaskState::Queued ==> {
            let after = stats.run_one(state);
            &&& after.queued as int == (stats.queued - 1) % 0x1_0000_0000_0000_0000
            &&& after.in_flight as int == (stats.in_flight + 1) % 0x1_0000_0000_0000_0000
            &&& after == (Stats { queued: after.queued, in_flight: after.in_flight, ..stats })
        },
        state != TaskState::Queued ==> stats.run_one(state) == stats,
        Stats::zero().queued == 0 && Stats::zero().in_flight == 0 && Stats::zero().succeeded == 0,
        Stats::zero().failed == 0 && Stats::zero().cancelled == 0 && Stats::zero().timed_out == 0,
        stats.ended() == stats.succeeded + stats.failed + stats.cancelled + stats.timed_out,
{
}

/// What finishing a task does to the counts. A task that had ended, or is
/// unknown, changes none. Otherwise the count of the state that it leaves loses
/// one, that of the end state that it enters gains one, and all others stay.
pub proof fn law_finish_moves_one_task(stats: Stats, prev: TaskState, next: TaskState)
    ensures
        prev != TaskState::Queued && prev != TaskState::Running ==> stats.finish_one(prev, next)
            == stats,
        prev == TaskState::Queued || prev == TaskState::Running ==> {
            let after = stats.finish_one(prev, next);
            &&& after.queued as int == (stats.queued - (if prev == TaskState::Queued {
                1int
            } else {
                0
            })) % 0x1_0000_0000_0000_0000
            &&& after.in_flight as int == (stats.in_flight - (if prev == TaskState::Running {
                1int
            } else {
                0
            })) % 0x1_0000_0000_0000_0000
            &&& after.succeeded as int == (stats.succeeded + (if next == TaskState::Succeeded {
                1int
            } else {
                0
            })) % 0x1_0000_0000_0000_0000
            &&& after.failed as int == (stats.failed + (if next == TaskState::Failed {
                1int
            } else {
                0
            })) % 0x1_0000_0000_0000_0000
            &&& after.cancelled as int == (stats.cancelled + (if next == TaskState::Cancelled {
                1int
            } else {
                0
            })) % 0x1_0000_0000_0000_0000
            &&& after.timed_out as int == (stats.timed_out + (if next == TaskState::TimedOut {
                1int
            } else {
                0
            })) % 0x1_0000_0000_0000_0000
        },
{
}

/// The name of every state.
pub proof fn law_state_names()
    ensures
        TaskState::Unknown.text() == "unknown"@,
        TaskState::Queued.text() == "queued"@,
        TaskState::Running.text() == "running"@,
        TaskState::Succeeded.text() == "succeeded"@,
        TaskState::Failed.text() == "failed"@,
        TaskState::Cancelled.text() == "cancelled"@,
        TaskState::TimedOut.text() == "timed_out"@,
{
}

} // verus!
