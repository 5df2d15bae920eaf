use styro::command::CommandState;
use styro::queue::{plan_submit, QueueState, SUBMITTED};
use styro::rhi::Stage;

#[test]
fn buffers_are_handed_out_in_order() {
    let mut q = QueueState::new(2, 3);
    assert_eq!(q.pool_count(), 2);
    let a = q.acquire(0);
    let b = q.acquire(0);
    assert_eq!((a.reset, a.index), (false, 0));
    assert_eq!((b.reset, b.index), (false, 1));
    let c = q.acquire(1);
    assert_eq!(c.index, 0);
}

#[test]
fn submitted_pool_is_reset_on_next_use() {
    let mut q = QueueState::new(1, 2);
    q.acquire(0);
    q.acquire(0);
    assert!(!q.can_acquire(0));
    q.mark_submitted(0);
    assert!(q.can_acquire(0));
    let a = q.acquire(0);
    assert!(a.reset);
    assert_eq!(a.index, 0);
    assert_eq!(SUBMITTED, -1);
}

#[test]
fn pools_out_of_range_cannot_record() {
    let q = QueueState::new(2, 1);
    assert!(q.can_acquire(1));
    assert!(!q.can_acquire(2));
    let empty = QueueState::new(1, 0);
    assert!(!empty.can_acquire(0));
}

#[test]
fn nothing_to_submit() {
    assert!(plan_submit(&vec![]).is_none());
}

#[test]
fn submission_collects_waits_and_signals_in_order() {
    let mut a = CommandState::new(1);
    a.wait_before(Stage::ColorAttachmentOutput, 1, 0);
    a.signal_after(Stage::BottomOfPipe, 2, 0);
    let mut b = CommandState::new(1);
    b.wait_before(Stage::Transfer, 3, 7);
    b.signal_after(Stage::BottomOfPipe, 4, 9);
    b.signal_after(Stage::Host, 5, 10);
    let plan = plan_submit(&vec![a, b]).unwrap();
    assert_eq!(plan.pool, 1);
    let waits: Vec<u64> = plan.waits.iter().map(|w| w.semaphore).collect();
    let signals: Vec<u64> = plan.signals.iter().map(|s| s.semaphore).collect();
    assert_eq!(waits, vec![1, 3]);
    assert_eq!(signals, vec![2, 4, 5]);
    assert_eq!(plan.signals[2].value, 10);
}
