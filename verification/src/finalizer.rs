//! The decisions of the confirmation finalizer: which block, if any, may be
//! finalized when a block has been imported.
//!
//! The controller that runs these decisions reads the chain and the sync
//! state, asks here, and launches a task for each block to finalize. Tasks
//! run side by side, so each asks once more before it calls the chain.

use vstd::prelude::*;

verus! {

/// Height of a block in the chain.
pub type BlockNumber = u32;

/// What the sync service reports of itself.
#[derive(Clone, Copy, Debug, PartialEq, Eq)]
pub struct SyncStatus {
    /// Whether the bulk download of the chain's history is under way.
    pub is_major_syncing: bool,
    /// The number of blocks that wait in the import queue.
    pub num_queued_blocks: usize,
}

/// Why an import notification leads to no finalization.
#[derive(Clone, Copy, Debug, PartialEq, Eq)]
pub enum SkipReason {
    /// The chain is not yet longer than the confirmation depth.
    TooShallow,
    /// The block with enough confirmations is finalized already.
    AlreadyFinalized,
    /// The node is in major sync and the block with enough confirmations is
    /// not far enough above the finalized one.
    MajorSyncBuffer,
    /// The sync service is in major sync and still has blocks to import.
    ImportQueueBusy,
}

/// What the controller does about one import notification.
#[derive(Clone, Copy, Debug, PartialEq, Eq)]
pub enum FinalizerAction {
    /// Nothing.
    Skip(SkipReason),
    /// Look up the block at this height and launch a task that finalizes
    /// it.
    Finalize(BlockNumber),
}

/// The call that asks the chain to finalize a block.
#[derive(Clone, Debug, PartialEq, Eq)]
pub struct FinalizeCall {
    /// The hash of the block to finalize.
    pub block_hash: [u8; 32],
    /// The proof of finality to store with the block: the consensus engine
    /// that made it, and its encoding.
    pub justification: Option<([u8; 4], Vec<u8>)>,
    /// Whether those who follow the chain are told.
    pub notify: bool,
}

/// The finalization of one block, launched by the controller and run on its
/// own.
#[derive(Clone, Copy, Debug, PartialEq, Eq)]
pub struct FinalizeTask {
    /// The height of the block.
    pub confirmed_block_number: BlockNumber,
    /// The hash of the block.
    pub block_to_finalize: [u8; 32],
}

impl FinalizeTask {
    /// The task for the block at `confirmed_block_number`, whose hash is
    /// `block_to_finalize`.
    pub fn new(confirmed_block_number: BlockNumber, block_to_finalize: [u8; 32]) -> (task: Self)
        ensures
            task.confirmed_block_number == confirmed_block_number,
            task.block_to_finalize == block_to_finalize,
    {
        FinalizeTask { confirmed_block_number, block_to_finalize }
    }

    /// What the task does when it starts, given the finalized height of
    /// that moment: it calls the chain only if its block still lies above
    /// that height, without a justification and with notification.
    pub fn start(&self, finalized_number: BlockNumber) -> (call: Option<FinalizeCall>)
        ensures
            call is Some <==> self.confirmed_block_number > finalized_number,
            call is Some ==> call.unwrap().block_hash == self.block_to_finalize,
            call is Some ==> call.unwrap().justification is None,
            call is Some ==> call.unwrap().notify,
    {
        if ConfirmationFinalizer::still_to_finalize(self.confirmed_block_number, finalized_number) {
            Some(
                FinalizeCall {
                    block_hash: self.block_to_finalize,
                    justification: None,
                    notify: true,
                },
            )
        } else {
            None
        }
    }
}

/// The finalized height after the tasks for the heights `tasks` have
/// started one after another, in this order, on a chain that is finalized
/// at `finalized` and carries out every call.
pub open spec fn finalized_after(finalized: int, tasks: Seq<BlockNumber>, count: int) -> int
    decreases count,
{
    if count <= 0 {
        finalized
    } else {
        let reached = finalized_after(finalized, tasks, count - 1);
        if tasks[count - 1] > reached {
            tasks[count - 1] as int
        } else {
            reached
        }
    }
}

/// Whether the task at position `k` calls the chain when the tasks start in
/// the order of `tasks`.
pub open spec fn calls(finalized: int, tasks: Seq<BlockNumber>, k: int) -> bool {
    tasks[k] > finalized_after(finalized, tasks, k)
}

/// In whatever order tasks start, the heights of the calls they make grow
/// strictly: no block is finalized twice, none below one that is finalized
/// already, and the finalized height never falls.
pub proof fn lemma_calls_grow_strictly(finalized: int, tasks: Seq<BlockNumber>, j: int, k: int)
    requires
        0 <= j < k < tasks.len(),
    ensures
        finalized <= finalized_after(finalized, tasks, j) <= finalized_after(finalized, tasks, k),
        calls(finalized, tasks, j) ==> tasks[j] <= finalized_after(finalized, tasks, k),
        calls(finalized, tasks, j) && calls(finalized, tasks, k) ==> tasks[j] < tasks[k],
    decreases k,
{
    if j > 0 {
        lemma_calls_grow_strictly(finalized, tasks, j - 1, j);
    }
    if j + 1 < k {
        lemma_calls_grow_strictly(finalized, tasks, j, k - 1);
    }
}

/// The confirmation depths by which the finalizer decides.
#[derive(Clone, Copy, Debug, PartialEq, Eq)]
pub struct ConfirmationFinalizer {
    /// The number of blocks that must follow a block before it is
    /// finalized.
    pub confirmation_depth: u32,
    /// During major sync, the number of blocks by which a block must lie
    /// above the finalized one before it is finalized.
    pub major_sync_confirmation_depth: u32,
}

/// Whether the sync service asks the finalizer to hold back: it is known,
/// it is in major sync, and its import queue is not empty.
pub open spec fn import_queue_busy(sync_status: Option<SyncStatus>) -> bool {
    match sync_status {
        Some(status) => status.is_major_syncing && status.num_queued_blocks > 0,
        None => false,
    }
}

impl ConfirmationFinalizer {
    /// The height that has enough confirmations once `block_number` is
    /// imported. It is negative while the chain is shorter than the
    /// confirmation depth.
    pub open spec fn confirmed(self, block_number: BlockNumber) -> int {
        block_number - self.confirmation_depth
    }

    /// Why the chain and the node's own sync state allow no finalization,
    /// if they do not: the first of the three reasons that holds.
    pub open spec fn chain_objection(
        self,
        block_number: BlockNumber,
        finalized_number: BlockNumber,
        is_major_syncing: bool,
    ) -> Option<SkipReason> {
        let confirmed = self.confirmed(block_number);
        if confirmed < 0 {
            Some(SkipReason::TooShallow)
        } else if confirmed <= finalized_number {
            Some(SkipReason::AlreadyFinalized)
        } else if is_major_syncing && confirmed < finalized_number
            + self.major_sync_confirmation_depth {
            Some(SkipReason::MajorSyncBuffer)
        } else {
            None
        }
    }

    /// Whether the import of `block_number` leads to a finalization: the
    /// confirmed height exists and lies above the finalized one, during
    /// major sync by at least the major sync confirmation depth, and the
    /// sync service does not ask to hold back.
    pub open spec fn finalizes(
        self,
        block_number: BlockNumber,
        finalized_number: BlockNumber,
        is_major_syncing: bool,
        sync_status: Option<SyncStatus>,
    ) -> bool {
        let confirmed = self.confirmed(block_number);
        &&& confirmed > finalized_number
        &&& is_major_syncing ==> confirmed >= finalized_number + self.major_sync_confirmation_depth
        &&& !import_queue_busy(sync_status)
    }

    /// A finalizer with the given depths.
    pub fn new(confirmation_depth: u32, major_sync_confirmation_depth: u32) -> (finalizer: Self)
        ensures
            finalizer.confirmation_depth == confirmation_depth,
            finalizer.major_sync_confirmation_depth == major_sync_confirmation_depth,
    {
        ConfirmationFinalizer { confirmation_depth, major_sync_confirmation_depth }
    }

    /// The height that has enough confirmations once `block_number` is
    /// imported, if the chain is that long.
    pub fn confirmed_block_number(&self, block_number: BlockNumber) -> (confirmed: Option<
        BlockNumber,
    >)
        ensures
            confirmed.is_some() <==> self.confirmed(block_number) >= 0,
            confirmed.is_some() ==> confirmed.unwrap() == self.confirmed(block_number),
    {
        if block_number >= self.confirmation_depth {
            Some(block_number - self.confirmation_depth)
        } else {
            None
        }
    }

    /// The height to finalize as far as the chain and the node's own sync
    /// state decide, or the reason why there is none. The sync service has
    /// not been asked yet.
    pub fn candidate(
        &self,
        block_number: BlockNumber,
        finalized_number: BlockNumber,
        is_major_syncing: bool,
    ) -> (candidate: Result<BlockNumber, SkipReason>)
        ensures
            candidate.is_ok() <==> self.chain_objection(
                block_number,
                finalized_number,
                is_major_syncing,
            ) is None,
            candidate.is_ok() ==> candidate.unwrap() == self.confirmed(block_number),
            candidate.is_err() ==> Some(candidate.unwrap_err()) == self.chain_objection(
                block_number,
                finalized_number,
                is_major_syncing,
            ),
    {
        let confirmed = match self.confirmed_block_number(block_number) {
            Some(confirmed) => confirmed,
            None => {
                return Err(SkipReason::TooShallow);
            },
        };
        if confirmed <= finalized_number {
            return Err(SkipReason::AlreadyFinalized);
        }
        if is_major_syncing {
            let bound: u64 = finalized_number as u64 + self.major_sync_confirmation_depth as u64;
            if (confirmed as u64) < bound {
                return Err(SkipReason::MajorSyncBuffer);
            }
        }
        Ok(confirmed)
    }

    /// Whether the sync service asks the finalizer to hold back. A service
    /// that is not there asks for nothing.
    pub fn is_import_queue_busy(sync_status: Option<SyncStatus>) -> (busy: bool)
        ensures
            busy == import_queue_busy(sync_status),
    {
        match sync_status {
            Some(status) => status.is_major_syncing && status.num_queued_blocks > 0,
            None => false,
        }
    }

    /// Decides what to do about the import of the block at `block_number`,
    /// given the finalized height, whether the node is in major sync, and
    /// what the sync service reports, if there is one.
    ///
    /// A block is finalized only above the finalized height, and never
    /// while the sync service is in major sync with blocks in its queue.
    pub fn on_block_imported(
        &self,
        block_number: BlockNumber,
        finalized_number: BlockNumber,
        is_major_syncing: bool,
        sync_status: Option<SyncStatus>,
    ) -> (action: FinalizerAction)
        ensures
            action is Finalize <==> self.finalizes(
                block_number,
                finalized_number,
                is_major_syncing,
                sync_status,
            ),
            action is Finalize ==> action->Finalize_0 == self.confirmed(block_number),
            action is Finalize ==> action->Finalize_0 > finalized_number,
            import_queue_busy(sync_status) ==> action is Skip,
            action is Skip ==> action->Skip_0 == (match self.chain_objection(
                block_number,
                finalized_number,
                is_major_syncing,
            ) {
                Some(reason) => reason,
                None => SkipReason::ImportQueueBusy,
            }),
    {
        match self.candidate(block_number, finalized_number, is_major_syncing) {
            Ok(confirmed) => {
                if Self::is_import_queue_busy(sync_status) {
                    FinalizerAction::Skip(SkipReason::ImportQueueBusy)
                } else {
                    FinalizerAction::Finalize(confirmed)
                }
            },
            Err(reason) => FinalizerAction::Skip(reason),
        }
    }

    /// Asked by a finalize task when it starts, with the finalized height
    /// of that moment: whether the block at `confirmed_block_number` is
    /// still to be finalized. Other tasks may have finalized it, or a block
    /// above it, since the task was launched.
    pub fn still_to_finalize(
        confirmed_block_number: BlockNumber,
        finalized_number: BlockNumber,
    ) -> (go: bool)
        ensures
            go == (confirmed_block_number > finalized_number),
    {
        confirmed_block_number > finalized_number
    }

    /// Whether a finalization that went well is worth a line in the log:
    /// not while the node or the sync service, if there is one, is in major
    /// sync.
    pub fn reports_success(
        is_major_syncing: bool,
        sync_service_is_major_syncing: Option<bool>,
    ) -> (report: bool)
        ensures
            report == !(is_major_syncing || sync_service_is_major_syncing == Some(true)),
    {
        let service = match sync_service_is_major_syncing {
            Some(syncing) => syncing,
            None => false,
        };
        !(is_major_syncing || service)
    }
}

/// No height at or below the finalized one is ever finalized, neither when
/// the controller decides nor when a task asks again: there are no repeated
/// and no backward calls.
pub proof fn lemma_finalizes_only_above_finalized(
    finalizer: ConfirmationFinalizer,
    block_number: BlockNumber,
    finalized_number: BlockNumber,
    is_major_syncing: bool,
    sync_status: Option<SyncStatus>,
)
    requires
        finalizer.finalizes(block_number, finalized_number, is_major_syncing, sync_status),
    ensures
        finalizer.confirmed(block_number) > finalized_number,
        finalizer.confirmed(block_number) <= block_number,
        finalizer.chain_objection(block_number, finalized_number, is_major_syncing) is None,
{
}

/// While the sync service is in major sync and has blocks in its queue, no
/// import leads to a finalization, whatever the heights and the depths are.
pub proof fn lemma_holds_back_while_queue_drains(
    finalizer: ConfirmationFinalizer,
    block_number: BlockNumber,
    finalized_number: BlockNumber,
    is_major_syncing: bool,
    sync_status: SyncStatus,
)
    requires
        sync_status.is_major_syncing,
        sync_status.num_queued_blocks > 0,
    ensures
        !finalizer.finalizes(block_number, finalized_number, is_major_syncing, Some(sync_status)),
{
}

/// Imports at growing heights confirm growing heights: once the chain is
/// longer than the confirmation depth, the next block confirms the next
/// height.
pub proof fn lemma_next_import_confirms_next_height(
    finalizer: ConfirmationFinalizer,
    block_number: BlockNumber,
)
    requires
        block_number < u32::MAX,
    ensures
        finalizer.confirmed((block_number + 1) as u32) == finalizer.confirmed(block_number) + 1,
{
}

} // verus!
