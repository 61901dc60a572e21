use focus_tasks::ordering::{
    move_slot, rebalanced_positions, require_changed, MoveAction, MoveProgress, MoveSlot,
    MAX_MOVE_ATTEMPTS,
};

#[test]
fn move_slot_to_top() {
    // actives by descending position: b(2), a(1); move a to index 0
    let slot = move_slot(&vec![2, 1], 1, 0);
    assert_eq!(
        slot,
        MoveSlot {
            before: None,
            after: Some(0)
        }
    );
}

#[test]
fn move_slot_clamps_to_end() {
    let slot = move_slot(&vec![3, 2, 1], 1, 100);
    assert_eq!(
        slot,
        MoveSlot {
            before: Some(1),
            after: None
        }
    );
    let slot = move_slot(&vec![1, 3, 2], 1, 100);
    assert_eq!(
        slot,
        MoveSlot {
            before: Some(2),
            after: None
        }
    );
}

#[test]
fn move_slot_between_neighbours() {
    // ids 10, 20, 30, 40; move 10 to index 2 among the others (20, 30, 40)
    let slot = move_slot(&vec![10, 20, 30, 40], 10, 2);
    assert_eq!(
        slot,
        MoveSlot {
            before: Some(2),
            after: Some(3)
        }
    );
    // move 40 to index 1 among (10, 20, 30)
    let slot = move_slot(&vec![10, 20, 30, 40], 40, 1);
    assert_eq!(
        slot,
        MoveSlot {
            before: Some(0),
            after: Some(1)
        }
    );
}

#[test]
fn move_slot_alone_in_list() {
    assert_eq!(
        move_slot(&vec![7], 7, 0),
        MoveSlot {
            before: None,
            after: None
        }
    );
    assert_eq!(
        move_slot(&vec![], 7, 3),
        MoveSlot {
            before: None,
            after: None
        }
    );
}

#[test]
fn rebalance_assigns_descending_positions() {
    assert_eq!(
        rebalanced_positions(&vec![5, 9, 2]),
        vec![(5, 3), (9, 2), (2, 1)]
    );
    assert_eq!(rebalanced_positions(&vec![]), vec![]);
}

#[test]
fn move_progress_rejects_done_task() {
    assert_eq!(
        MoveProgress::start(true),
        Err("task is not active".to_string())
    );
}

#[test]
fn move_progress_writes_when_room() {
    let mut p = MoveProgress::start(false).unwrap();
    assert_eq!(p.after_attempt(false), MoveAction::Write { rebalanced: false });
}

#[test]
fn move_progress_gives_up_after_attempts() {
    let mut p = MoveProgress::start(false).unwrap();
    for _ in 1..MAX_MOVE_ATTEMPTS {
        assert_eq!(p.after_attempt(true), MoveAction::RebalanceAndRetry);
    }
    assert_eq!(p.after_attempt(true), MoveAction::RebalanceAndFail);
    assert_eq!(
        MoveProgress::exhausted_error(),
        "failed to assign position after rebalance"
    );
}

#[test]
fn move_progress_reports_rebalance() {
    let mut p = MoveProgress::start(false).unwrap();
    assert_eq!(p.after_attempt(true), MoveAction::RebalanceAndRetry);
    assert_eq!(p.after_attempt(false), MoveAction::Write { rebalanced: true });
}

#[test]
fn require_changed_reports_missing_task() {
    assert_eq!(require_changed(0), Err("task not found".to_string()));
    assert_eq!(require_changed(1), Ok(()));
}
