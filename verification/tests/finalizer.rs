use subcoin_core::{
    ConfirmationFinalizer, FinalizeCall, FinalizeTask, FinalizerAction, SkipReason, SyncStatus,
};

fn idle() -> Option<SyncStatus> {
    Some(SyncStatus { is_major_syncing: false, num_queued_blocks: 0 })
}

#[test]
fn finalizes_the_block_with_enough_confirmations() {
    let finalizer = ConfirmationFinalizer::new(100, 1000);
    assert_eq!(finalizer.on_block_imported(150, 0, false, idle()), FinalizerAction::Finalize(50));
    // The next import, with the first finalization done.
    assert_eq!(finalizer.on_block_imported(151, 50, false, idle()), FinalizerAction::Finalize(51));
    // The next import, with the first finalization still under way.
    assert_eq!(finalizer.on_block_imported(151, 0, false, idle()), FinalizerAction::Finalize(51));
}

#[test]
fn confirmed_block_number_is_the_height_minus_the_depth() {
    let finalizer = ConfirmationFinalizer::new(6, 10);
    assert_eq!(finalizer.confirmed_block_number(5), None);
    assert_eq!(finalizer.confirmed_block_number(6), Some(0));
    assert_eq!(finalizer.confirmed_block_number(7), Some(1));
    assert_eq!(finalizer.confirmed_block_number(u32::MAX), Some(u32::MAX - 6));
    assert_eq!(ConfirmationFinalizer::new(0, 0).confirmed_block_number(0), Some(0));
    assert_eq!(ConfirmationFinalizer::new(u32::MAX, 0).confirmed_block_number(u32::MAX - 1), None);
}

#[test]
fn a_chain_shorter_than_the_depth_finalizes_nothing() {
    let finalizer = ConfirmationFinalizer::new(100, 1000);
    assert_eq!(
        finalizer.on_block_imported(99, 0, false, None),
        FinalizerAction::Skip(SkipReason::TooShallow)
    );
    assert_eq!(finalizer.candidate(0, 0, true), Err(SkipReason::TooShallow));
}

#[test]
fn never_finalizes_at_or_below_the_finalized_height() {
    let finalizer = ConfirmationFinalizer::new(100, 1000);
    assert_eq!(
        finalizer.on_block_imported(100, 0, false, None),
        FinalizerAction::Skip(SkipReason::AlreadyFinalized)
    );
    assert_eq!(
        finalizer.on_block_imported(150, 50, false, None),
        FinalizerAction::Skip(SkipReason::AlreadyFinalized)
    );
    assert_eq!(
        finalizer.on_block_imported(150, 51, false, None),
        FinalizerAction::Skip(SkipReason::AlreadyFinalized)
    );
    assert_eq!(finalizer.on_block_imported(150, 49, false, None), FinalizerAction::Finalize(50));
    for finalized in 0..200u32 {
        for height in 0..300u32 {
            if let FinalizerAction::Finalize(number) =
                finalizer.on_block_imported(height, finalized, false, None)
            {
                assert!(number > finalized);
                assert_eq!(number, height - 100);
            }
        }
    }
}

#[test]
fn major_sync_asks_for_a_wider_buffer() {
    let finalizer = ConfirmationFinalizer::new(6, 10);
    assert_eq!(finalizer.candidate(115, 100, true), Err(SkipReason::MajorSyncBuffer));
    assert_eq!(finalizer.candidate(116, 100, true), Ok(110));
    assert_eq!(finalizer.candidate(115, 100, false), Ok(109));
    assert_eq!(finalizer.candidate(106, 100, true), Err(SkipReason::AlreadyFinalized));
    assert_eq!(
        finalizer.on_block_imported(115, 100, true, None),
        FinalizerAction::Skip(SkipReason::MajorSyncBuffer)
    );
    assert_eq!(finalizer.on_block_imported(116, 100, true, None), FinalizerAction::Finalize(110));
}

#[test]
fn major_sync_buffer_does_not_wrap() {
    let finalizer = ConfirmationFinalizer::new(0, u32::MAX);
    assert_eq!(finalizer.candidate(u32::MAX, 1, true), Err(SkipReason::MajorSyncBuffer));
    assert_eq!(finalizer.candidate(u32::MAX, 0, true), Ok(u32::MAX));
    assert_eq!(finalizer.candidate(u32::MAX, 1, false), Ok(u32::MAX));
}

#[test]
fn holds_back_while_the_import_queue_drains() {
    let finalizer = ConfirmationFinalizer::new(100, 1000);
    let busy = Some(SyncStatus { is_major_syncing: true, num_queued_blocks: 1 });
    assert_eq!(
        finalizer.on_block_imported(150, 0, false, busy),
        FinalizerAction::Skip(SkipReason::ImportQueueBusy)
    );
    assert_eq!(
        finalizer.on_block_imported(5000, 0, true, busy),
        FinalizerAction::Skip(SkipReason::ImportQueueBusy)
    );
    for height in [0u32, 99, 100, 101, 150, 2000, u32::MAX] {
        for finalized in [0u32, 50, 1999, u32::MAX] {
            for syncing in [false, true] {
                let action = finalizer.on_block_imported(height, finalized, syncing, busy);
                assert!(matches!(action, FinalizerAction::Skip(_)));
            }
        }
    }
}

#[test]
fn an_empty_queue_or_a_finished_sync_does_not_hold_back() {
    let finalizer = ConfirmationFinalizer::new(100, 1000);
    let empty_queue = Some(SyncStatus { is_major_syncing: true, num_queued_blocks: 0 });
    let synced = Some(SyncStatus { is_major_syncing: false, num_queued_blocks: 12 });
    assert_eq!(
        finalizer.on_block_imported(150, 0, false, empty_queue),
        FinalizerAction::Finalize(50)
    );
    assert_eq!(finalizer.on_block_imported(150, 0, false, synced), FinalizerAction::Finalize(50));
    assert_eq!(finalizer.on_block_imported(150, 0, false, None), FinalizerAction::Finalize(50));
    assert!(!ConfirmationFinalizer::is_import_queue_busy(empty_queue));
    assert!(!ConfirmationFinalizer::is_import_queue_busy(synced));
    assert!(!ConfirmationFinalizer::is_import_queue_busy(None));
    assert!(ConfirmationFinalizer::is_import_queue_busy(Some(SyncStatus {
        is_major_syncing: true,
        num_queued_blocks: usize::MAX,
    })));
}

#[test]
fn the_chain_is_asked_before_the_sync_service() {
    let finalizer = ConfirmationFinalizer::new(100, 1000);
    let busy = Some(SyncStatus { is_major_syncing: true, num_queued_blocks: 3 });
    assert_eq!(
        finalizer.on_block_imported(50, 0, false, busy),
        FinalizerAction::Skip(SkipReason::TooShallow)
    );
    assert_eq!(
        finalizer.on_block_imported(150, 60, false, busy),
        FinalizerAction::Skip(SkipReason::AlreadyFinalized)
    );
    assert_eq!(
        finalizer.on_block_imported(150, 0, true, busy),
        FinalizerAction::Skip(SkipReason::MajorSyncBuffer)
    );
}

#[test]
fn a_task_asks_again_when_it_starts() {
    assert!(ConfirmationFinalizer::still_to_finalize(50, 0));
    assert!(ConfirmationFinalizer::still_to_finalize(50, 49));
    assert!(!ConfirmationFinalizer::still_to_finalize(50, 50));
    assert!(!ConfirmationFinalizer::still_to_finalize(50, 51));
    assert!(!ConfirmationFinalizer::still_to_finalize(0, 0));
}

#[test]
fn success_is_reported_outside_major_sync() {
    assert!(ConfirmationFinalizer::reports_success(false, None));
    assert!(ConfirmationFinalizer::reports_success(false, Some(false)));
    assert!(!ConfirmationFinalizer::reports_success(true, None));
    assert!(!ConfirmationFinalizer::reports_success(false, Some(true)));
    assert!(!ConfirmationFinalizer::reports_success(true, Some(true)));
}

#[test]
fn a_task_calls_the_chain_without_justification_and_with_notification() {
    let task = FinalizeTask::new(50, [0xb7; 32]);
    assert_eq!(task.confirmed_block_number, 50);
    assert_eq!(
        task.start(49),
        Some(FinalizeCall { block_hash: [0xb7; 32], justification: None, notify: true })
    );
    assert_eq!(task.start(50), None);
    assert_eq!(task.start(51), None);
}

#[test]
fn tasks_in_any_order_never_call_backwards() {
    let orders: [[u32; 4]; 4] =
        [[50, 51, 52, 53], [53, 52, 51, 50], [51, 50, 53, 52], [50, 50, 51, 51]];
    for order in orders {
        let mut finalized = 10u32;
        let mut called = Vec::new();
        for number in order {
            let mut hash = [0u8; 32];
            hash[0] = number as u8;
            if let Some(call) = FinalizeTask::new(number, hash).start(finalized) {
                assert!(number > finalized);
                assert_eq!(call.block_hash[0], number as u8);
                finalized = number;
                called.push(number);
            }
        }
        assert!(called.windows(2).all(|pair| pair[0] < pair[1]));
        assert_eq!(finalized, *order.iter().max().unwrap());
    }
}
