use futures_channel::oneshot;
use rust_python_lab::bridge::{
    map_oneshot, shared_py_task, Bridge, BridgeAction, Seen, StartPoll, TaskCell,
};
use rust_python_lab::outcome::{ErrorKind, TaskError};

type Step = BridgeAction<u32, &'static str>;

fn look(start: StartPoll, result: Option<Result<u32, TaskError<&'static str>>>, cancelled: bool, elapsed: bool) -> Seen<u32, &'static str> {
    Seen { start, result: result.map(Ok), cancelled, elapsed }
}

fn nothing() -> Seen<u32, &'static str> {
    look(StartPoll::Pending, None, false, false)
}

fn failure() -> TaskError<&'static str> {
    TaskError::Raised {
        error: "boom",
        kind: ErrorKind { timeout: false, cancelled: false, stop_iteration: false },
    }
}

fn started() -> (Bridge, TaskCell<u8>) {
    let mut bridge = Bridge::new();
    let mut cell = shared_py_task();
    let step: Step = bridge.poll(look(StartPoll::Started, None, false, false));
    assert!(matches!(step, BridgeAction::Store));
    cell.store(9);
    (bridge, cell)
}

fn lost() -> oneshot::Canceled {
    let (tx, mut rx) = oneshot::channel::<u8>();
    drop(tx);
    rx.try_recv().unwrap_err()
}

#[test]
fn cells_hold_one_task() {
    let mut cell: TaskCell<u8> = shared_py_task();
    assert_eq!(cell.get(), None);
    cell.store(1);
    cell.store(2);
    assert_eq!(cell.get(), Some(&2));
    assert_eq!(cell.take(), Some(2));
    assert_eq!(cell.take(), None);
    cell.store(3);
    cell.clear();
    assert_eq!(cell.get(), None);
}

#[test]
fn a_lost_result_is_a_cancellation() {
    let kept: Result<u32, TaskError<u8>> = map_oneshot(Ok(Ok(4)));
    assert!(matches!(kept, Ok(4)));
    let timed_out: Result<u32, TaskError<u8>> = map_oneshot(Ok(Err(TaskError::TimedOut)));
    assert!(matches!(timed_out, Err(TaskError::TimedOut)));
    let gone: Result<u32, TaskError<u8>> = map_oneshot(Err(lost()));
    assert!(matches!(gone, Err(TaskError::Cancelled)));
}

#[test]
fn a_value_ends_the_wait_and_spares_the_task() {
    let (mut bridge, mut cell) = started();
    assert!(matches!(bridge.poll(nothing()), BridgeAction::Pend));
    let step = bridge.poll(look(StartPoll::Pending, Some(Ok(5)), true, true));
    assert!(matches!(step, BridgeAction::End(Ok(5))));
    assert_eq!(bridge.release(&mut cell), None);
    assert_eq!(cell.get(), Some(&9));
    assert!(matches!(bridge.poll(nothing()), BridgeAction::Pend));
}

#[test]
fn a_timeout_cancels_the_task() {
    let (mut bridge, mut cell) = started();
    assert!(matches!(bridge.poll(nothing()), BridgeAction::Pend));
    let step = bridge.poll(look(StartPoll::Pending, None, false, true));
    assert!(matches!(step, BridgeAction::End(Err(TaskError::TimedOut))));
    assert_eq!(bridge.release(&mut cell), Some(9));
    assert_eq!(cell.get(), None);
}

#[test]
fn a_cancellation_cancels_the_task_and_beats_the_timeout() {
    let (mut bridge, mut cell) = started();
    assert!(matches!(bridge.poll(nothing()), BridgeAction::Pend));
    let step = bridge.poll(look(StartPoll::Pending, None, true, true));
    assert!(matches!(step, BridgeAction::End(Err(TaskError::Cancelled))));
    assert_eq!(bridge.release(&mut cell), Some(9));
}

#[test]
fn a_cancellation_right_after_the_start_cancels_the_task() {
    let (mut bridge, mut cell) = started();
    let step = bridge.poll(look(StartPoll::Pending, Some(Ok(5)), true, false));
    assert!(matches!(step, BridgeAction::End(Err(TaskError::Cancelled))));
    assert_eq!(bridge.release(&mut cell), Some(9));
}

#[test]
fn a_failure_is_returned_as_it_is() {
    let (mut bridge, mut cell) = started();
    let step = bridge.poll(look(StartPoll::Pending, Some(Err(failure())), false, false));
    match step {
        BridgeAction::End(Err(TaskError::Raised { error, .. })) => assert_eq!(error, "boom"),
        _ => panic!("unexpected step"),
    }
    assert_eq!(bridge.release(&mut cell), Some(9));
}

#[test]
fn a_result_channel_that_closes_is_a_cancellation() {
    let (mut bridge, _cell) = started();
    let seen: Seen<u32, &'static str> =
        Seen { start: StartPoll::Pending, result: Some(Err(lost())), cancelled: false, elapsed: false };
    assert!(matches!(bridge.poll(seen), BridgeAction::End(Err(TaskError::Cancelled))));
}

#[test]
fn before_the_start_there_is_no_task_to_cancel() {
    for (start, cancelled) in [(StartPoll::Pending, true), (StartPoll::Lost, false)] {
        let mut bridge = Bridge::new();
        let mut cell = shared_py_task();
        cell.store(1u8);
        assert!(matches!(bridge.poll(nothing()), BridgeAction::Pend));
        let step = bridge.poll(look(start, None, cancelled, false));
        assert!(matches!(step, BridgeAction::End(Err(TaskError::Cancelled))));
        assert_eq!(bridge.release(&mut cell), None);
        assert_eq!(cell.get(), Some(&1));
    }
}

#[test]
fn a_start_beats_a_cancellation() {
    let mut bridge = Bridge::new();
    let step: Step = bridge.poll(look(StartPoll::Started, None, true, false));
    assert!(matches!(step, BridgeAction::Store));
}

#[test]
fn a_wait_given_up_cancels_the_task() {
    let (bridge, mut cell) = started();
    assert_eq!(bridge.release(&mut cell), Some(9));
}

#[test]
fn a_task_that_arrives_late_is_cancelled() {
    let mut bridge = Bridge::new();
    assert_eq!(bridge.late(7), None);
    let step: Step = bridge.poll(look(StartPoll::Pending, None, true, false));
    assert!(matches!(step, BridgeAction::End(Err(TaskError::Cancelled))));
    assert_eq!(bridge.late(7), Some(7));

    let mut bridge = Bridge::new();
    bridge.give_up();
    assert_eq!(bridge.late(8), Some(8));
    let step: Step = bridge.poll(look(StartPoll::Started, None, false, false));
    assert!(matches!(step, BridgeAction::Pend));
}

#[test]
fn giving_up_keeps_what_is_to_be_cancelled() {
    let (mut bridge, mut cell) = started();
    bridge.give_up();
    assert_eq!(bridge.release(&mut cell), Some(9));
    let (mut bridge, mut cell) = started();
    let step: Step = bridge.poll(look(StartPoll::Pending, Some(Ok(5)), false, false));
    assert!(matches!(step, BridgeAction::End(Ok(5))));
    bridge.give_up();
    assert_eq!(bridge.release(&mut cell), None);
}
