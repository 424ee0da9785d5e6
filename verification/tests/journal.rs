use rust_python_lab::journal::{Journal, Stats, TaskSlot, TaskState};
use rust_python_lab::outcome::{
    cancelled_error, is_cancelled, semaphore_closed_text, state_from_result, timeout_error,
    timeout_text, ErrorKind, TaskError,
};

const STATES: [TaskState; 7] = [
    TaskState::Unknown,
    TaskState::Queued,
    TaskState::Running,
    TaskState::Succeeded,
    TaskState::Failed,
    TaskState::Cancelled,
    TaskState::TimedOut,
];

fn raised(timeout: bool, cancelled: bool) -> TaskError<&'static str> {
    TaskError::Raised {
        error: "raised",
        kind: ErrorKind { timeout, cancelled, stop_iteration: false },
    }
}

#[test]
fn states_round_trip_through_their_codes() {
    for (code, state) in STATES.iter().enumerate() {
        assert_eq!(state.to_u8() as usize, code);
        assert_eq!(TaskState::from_u8(state.to_u8()), *state);
    }
    for code in 7..=u8::MAX {
        assert_eq!(TaskState::from_u8(code), TaskState::Unknown);
    }
}

#[test]
fn state_names_and_ends() {
    let names = [
        "unknown",
        "queued",
        "running",
        "succeeded",
        "failed",
        "cancelled",
        "timed_out",
    ];
    for (i, state) in STATES.iter().enumerate() {
        assert_eq!(state.as_str(), names[i]);
        assert_eq!(state.is_terminal(), i >= 3);
    }
}

#[test]
fn slot_transitions() {
    let mut slot = TaskSlot::queued();
    assert_eq!(slot.get(), TaskState::Queued);
    assert!(!slot.transition(TaskState::Running, TaskState::Failed));
    assert_eq!(slot.get(), TaskState::Queued);
    assert!(slot.transition(TaskState::Queued, TaskState::Running));
    assert_eq!(slot.get(), TaskState::Running);
    assert_eq!(slot.swap(TaskState::Succeeded), TaskState::Running);
    assert_eq!(slot.get(), TaskState::Succeeded);
}

#[test]
fn a_task_is_counted_where_it_stands() {
    let mut journal = Journal::default();
    assert_eq!(journal.stats(), Stats::default());
    let mut slot = TaskSlot::queued();
    journal.insert_queued();
    assert_eq!(journal.stats(), Stats { queued: 1, ..Stats::default() });
    journal.mark_running(&mut slot);
    assert_eq!(journal.stats(), Stats { in_flight: 1, ..Stats::default() });
    journal.finish(&mut slot, TaskState::Succeeded);
    assert_eq!(journal.stats(), Stats { succeeded: 1, ..Stats::default() });
}

#[test]
fn each_end_has_its_count() {
    let mut journal = Journal::default();
    for end in [
        TaskState::Failed,
        TaskState::Cancelled,
        TaskState::TimedOut,
        TaskState::TimedOut,
    ] {
        let mut slot = TaskSlot::queued();
        journal.insert_queued();
        journal.finish(&mut slot, end);
        assert_eq!(slot.get(), end);
    }
    let stats = journal.stats();
    assert_eq!(stats, Stats { failed: 1, cancelled: 1, timed_out: 2, ..Stats::default() });
    assert_eq!(stats.completed(), 4);
}

#[test]
fn a_task_cancelled_in_the_queue_never_runs() {
    let mut journal = Journal::default();
    let mut slot = TaskSlot::queued();
    journal.insert_queued();
    journal.finish(&mut slot, TaskState::Cancelled);
    journal.mark_running(&mut slot);
    assert_eq!(slot.get(), TaskState::Cancelled);
    assert_eq!(journal.stats(), Stats { cancelled: 1, ..Stats::default() });
}

#[test]
fn a_second_finish_is_not_counted() {
    let mut journal = Journal::default();
    let mut slot = TaskSlot::queued();
    journal.insert_queued();
    journal.finish(&mut slot, TaskState::Succeeded);
    journal.finish(&mut slot, TaskState::Failed);
    assert_eq!(slot.get(), TaskState::Failed);
    assert_eq!(journal.stats(), Stats { succeeded: 1, ..Stats::default() });
    assert_eq!(journal.stats().completed(), 1);
}

#[test]
fn finishing_in_no_end_state_counts_nothing() {
    let mut journal = Journal::default();
    let mut slot = TaskSlot::queued();
    journal.insert_queued();
    journal.finish(&mut slot, TaskState::Unknown);
    assert_eq!(journal.stats(), Stats::default());
    assert_eq!(slot.get(), TaskState::Unknown);
}

#[test]
fn counts_wrap_around() {
    let mut journal = Journal::default();
    let mut slot = TaskSlot::queued();
    journal.finish(&mut slot, TaskState::Succeeded);
    assert_eq!(journal.stats().queued, u64::MAX);
    let stats = Stats { succeeded: u64::MAX, failed: 3, ..Stats::default() };
    assert_eq!(stats.completed(), 2);
}

#[test]
fn every_task_is_counted_once() {
    let mut journal = Journal::default();
    let mut slots: Vec<TaskSlot> = Vec::new();
    for i in 0..60usize {
        slots.push(TaskSlot::queued());
        journal.insert_queued();
        let j = (i * 7) % slots.len();
        journal.mark_running(&mut slots[j]);
        let k = (i * 11) % slots.len();
        if !slots[k].get().is_terminal() {
            journal.finish(&mut slots[k], STATES[3 + i % 4]);
        }
        let stats = journal.stats();
        let count = |state: TaskState| slots.iter().filter(|s| s.get() == state).count() as u64;
        assert_eq!(stats.queued, count(TaskState::Queued));
        assert_eq!(stats.in_flight, count(TaskState::Running));
        assert_eq!(stats.succeeded, count(TaskState::Succeeded));
        assert_eq!(stats.failed, count(TaskState::Failed));
        assert_eq!(stats.cancelled, count(TaskState::Cancelled));
        assert_eq!(stats.timed_out, count(TaskState::TimedOut));
        assert_eq!(stats.queued + stats.in_flight + stats.completed(), slots.len() as u64);
    }
}

#[test]
fn results_lead_to_states() {
    type Outcome = Result<u8, TaskError<&'static str>>;
    let ok: Outcome = Ok(1);
    assert_eq!(state_from_result(&ok), TaskState::Succeeded);
    let cases: [(TaskError<&'static str>, TaskState); 7] = [
        (timeout_error(), TaskState::TimedOut),
        (cancelled_error(), TaskState::Cancelled),
        (TaskError::SemaphoreClosed, TaskState::Failed),
        (raised(false, false), TaskState::Failed),
        (raised(true, false), TaskState::TimedOut),
        (raised(false, true), TaskState::Cancelled),
        (raised(true, true), TaskState::TimedOut),
    ];
    for (error, state) in cases {
        let result: Outcome = Err(error);
        assert_eq!(state_from_result(&result), state);
    }
}

#[test]
fn cancellations_are_told_apart() {
    assert!(is_cancelled(&cancelled_error::<u8>()));
    assert!(!is_cancelled(&timeout_error::<u8>()));
    assert!(is_cancelled(&raised(false, true)));
    assert!(!is_cancelled(&raised(true, false)));
    assert_eq!(timeout_text(), "task timed out");
    assert_eq!(semaphore_closed_text(), "runtime semaphore closed");
}
