use crate::ids::{ChannelId, ChatId, MessageId, MessageIndex, Milliseconds, TimestampMillis, UserId};
use crate::message_content::{content_blobs, BlobReference, MessageContent, P2PSwapStatus, PendingCryptoTransaction};
use vstd::prelude::*;

verus! {

/// How many times a call to the escrow service is tried again after it failed.
pub const ESCROW_RETRY_LIMIT: u32 = 20;

/// How long to wait before calling the escrow service again.
pub const ESCROW_RETRY_DELAY: Milliseconds = 10000;

/// How many times a transfer is tried again after it failed.
pub const TRANSFER_RETRY_LIMIT: u32 = 50;

/// How long to wait before trying a transfer again.
pub const TRANSFER_RETRY_DELAY: Milliseconds = 60000;

/// Purges the content of a deleted message, and the files it points to.
#[derive(Clone, Copy, Debug, PartialEq, Eq)]
pub struct HardDeleteMessageContentJob {
    pub channel_id: ChannelId,
    pub thread_root_message_index: Option<MessageIndex>,
    pub message_id: MessageId,
}

/// The work that follows purging a deleted message's content.
#[derive(Clone, Debug)]
pub struct HardDeleteFollowUps {
    /// Releases the files that the content pointed to, where it pointed to any.
    pub delete_files: Option<DeleteFileReferencesJob>,
    /// Withdraws an open swap offer from the escrow service.
    pub cancel_swap: Option<CancelP2PSwapInEscrowCanisterJob>,
    /// The prizes to refund to the sender.
    pub prize_refunds: Vec<u128>,
}

impl HardDeleteMessageContentJob {
    /// Decides what follows purging `content`: its files are released where it
    /// has any; an open swap offer is cancelled in escrow; a prize's remaining
    /// prizes are refunded, but only where the pending final-payments job for it
    /// was cancelled, so that the refund is made once.
    pub fn follow_ups(
        content: &MessageContent,
        remaining_prizes: Vec<u128>,
        final_payments_cancelled: bool,
    ) -> (r: HardDeleteFollowUps)
        ensures
            match r.delete_files {
                Some(job) => content_blobs(*content).len() > 0 && job.files@ == content_blobs(*content),
                None => content_blobs(*content).len() == 0,
            },
            r.cancel_swap == match *content {
                MessageContent::P2PSwap(swap) => if swap.status is Open {
                    Some(CancelP2PSwapInEscrowCanisterJob { swap_id: swap.swap_id, attempt: 0 })
                } else {
                    None
                },
                _ => None,
            },
            r.prize_refunds@ == if *content is Prize && final_payments_cancelled {
                remaining_prizes@
            } else {
                Seq::<u128>::empty()
            },
    {
        let files = content.blob_references();
        let delete_files = if files.len() > 0 {
            Some(DeleteFileReferencesJob { files })
        } else {
            None
        };
        let cancel_swap = match content {
            MessageContent::P2PSwap(swap) => match swap.status {
                P2PSwapStatus::Open => Some(CancelP2PSwapInEscrowCanisterJob { swap_id: swap.swap_id, attempt: 0 }),
                _ => None,
            },
            _ => None,
        };
        let is_prize = match content {
            MessageContent::Prize(_) => true,
            _ => false,
        };
        let prize_refunds = if is_prize && final_payments_cancelled {
            remaining_prizes
        } else {
            Vec::new()
        };
        HardDeleteFollowUps { delete_files, cancel_swap, prize_refunds }
    }
}

/// Releases stored files.
#[derive(Clone, Debug)]
pub struct DeleteFileReferencesJob {
    pub files: Vec<BlobReference>,
}

#[derive(Clone, Copy, Debug, PartialEq, Eq)]
pub struct EndPollJob {
    pub channel_id: ChannelId,
    pub thread_root_message_index: Option<MessageIndex>,
    pub message_index: MessageIndex,
}

/// Sweeps the logs for expired events.
#[derive(Clone, Copy, Debug, PartialEq, Eq)]
pub struct RemoveExpiredEventsJob;

#[derive(Clone, Copy, Debug, PartialEq, Eq)]
pub struct FinalizeGroupImportJob {
    pub group_id: ChatId,
}

#[derive(Clone, Copy, Debug, PartialEq, Eq)]
pub struct ProcessGroupImportChannelMembersJob {
    pub group_id: ChatId,
    pub channel_id: ChannelId,
    pub attempt: u32,
}

#[derive(Clone, Copy, Debug, PartialEq, Eq)]
pub struct MarkGroupImportCompleteJob {
    pub group_id: ChatId,
    pub channel_id: ChannelId,
}

/// Refunds what is left of a prize once it has ended.
#[derive(Clone, Copy, Debug, PartialEq, Eq)]
pub struct FinalPrizePaymentsJob {
    pub channel_id: ChannelId,
    pub message_index: MessageIndex,
}

#[derive(Clone, Debug)]
pub struct MakeTransferJob {
    pub pending_transaction: PendingCryptoTransaction,
    pub attempt: u32,
}

/// Tells the escrow service of a deposit made to accept a swap.
#[derive(Clone, Copy, Debug, PartialEq, Eq, Structural)]
pub struct NotifyEscrowCanisterOfDepositJob {
    pub user_id: UserId,
    pub swap_id: u32,
    pub channel_id: ChannelId,
    pub thread_root_message_index: Option<MessageIndex>,
    pub message_id: MessageId,
    pub transaction_index: u64,
    pub attempt: u32,
}

/// What the escrow service answered to a deposit notice.
#[derive(Clone, Copy, Debug, PartialEq, Eq, Structural)]
pub enum NotifyDepositOutcome {
    Success,
    SwapExpired,
    InternalError,
    CallFailed,
}

/// What follows a deposit notice.
#[derive(Clone, Copy, Debug, PartialEq, Eq, Structural)]
pub enum NotifyDepositAction {
    /// The swap is completed by the depositing user.
    AcceptSwap,
    /// The swap expired: its reservation is released.
    UnreserveSwap,
    /// The notice is sent again at the given time.
    Retry(NotifyEscrowCanisterOfDepositJob, TimestampMillis),
    /// Every attempt failed; the failure stays on record.
    GiveUp,
}

impl NotifyEscrowCanisterOfDepositJob {
    /// The first attempt of a deposit notice.
    pub fn run(
        user_id: UserId,
        swap_id: u32,
        channel_id: ChannelId,
        thread_root_message_index: Option<MessageIndex>,
        message_id: MessageId,
        transaction_index: u64,
    ) -> (r: NotifyEscrowCanisterOfDepositJob)
        ensures
            r == (NotifyEscrowCanisterOfDepositJob {
                user_id,
                swap_id,
                channel_id,
                thread_root_message_index,
                message_id,
                transaction_index,
                attempt: 0,
            }),
    {
        NotifyEscrowCanisterOfDepositJob {
            user_id,
            swap_id,
            channel_id,
            thread_root_message_index,
            message_id,
            transaction_index,
            attempt: 0,
        }
    }

    /// The step after the escrow service answered at `now`: a failure is tried
    /// again a little later, up to the retry limit.
    pub fn next(&self, outcome: NotifyDepositOutcome, now: TimestampMillis) -> (r: NotifyDepositAction)
        ensures
            r == match outcome {
                NotifyDepositOutcome::Success => NotifyDepositAction::AcceptSwap,
                NotifyDepositOutcome::SwapExpired => NotifyDepositAction::UnreserveSwap,
                _ => if self.attempt < ESCROW_RETRY_LIMIT {
                    NotifyDepositAction::Retry(
                        NotifyEscrowCanisterOfDepositJob { attempt: (self.attempt + 1) as u32, ..*self },
                        if now + ESCROW_RETRY_DELAY <= u64::MAX {
                            (now + ESCROW_RETRY_DELAY) as u64
                        } else {
                            u64::MAX
                        },
                    )
                } else {
                    NotifyDepositAction::GiveUp
                },
            },
    {
        match outcome {
            NotifyDepositOutcome::Success => NotifyDepositAction::AcceptSwap,
            NotifyDepositOutcome::SwapExpired => NotifyDepositAction::UnreserveSwap,
            _ => {
                if self.attempt < ESCROW_RETRY_LIMIT {
                    NotifyDepositAction::Retry(
                        NotifyEscrowCanisterOfDepositJob { attempt: self.attempt + 1, ..*self },
                        now.saturating_add(ESCROW_RETRY_DELAY),
                    )
                } else {
                    NotifyDepositAction::GiveUp
                }
            },
        }
    }
}

/// Asks the escrow service to cancel a swap.
#[derive(Clone, Copy, Debug, PartialEq, Eq, Structural)]
pub struct CancelP2PSwapInEscrowCanisterJob {
    pub swap_id: u32,
    pub attempt: u32,
}

/// What follows a cancellation request.
#[derive(Clone, Copy, Debug, PartialEq, Eq, Structural)]
pub enum CancelSwapAction {
    Done,
    Retry(CancelP2PSwapInEscrowCanisterJob, TimestampMillis),
    GiveUp,
}

impl CancelP2PSwapInEscrowCanisterJob {
    /// The first attempt of a cancellation request.
    pub fn run(swap_id: u32) -> (r: CancelP2PSwapInEscrowCanisterJob)
        ensures
            r == (CancelP2PSwapInEscrowCanisterJob { swap_id, attempt: 0 }),
    {
        CancelP2PSwapInEscrowCanisterJob { swap_id, attempt: 0 }
    }

    /// The step after the escrow service answered at `now`.
    pub fn next(&self, succeeded: bool, now: TimestampMillis) -> (r: CancelSwapAction)
        ensures
            r == if succeeded {
                CancelSwapAction::Done
            } else if self.attempt < ESCROW_RETRY_LIMIT {
                CancelSwapAction::Retry(
                    CancelP2PSwapInEscrowCanisterJob { swap_id: self.swap_id, attempt: (self.attempt + 1) as u32 },
                    if now + ESCROW_RETRY_DELAY <= u64::MAX {
                        (now + ESCROW_RETRY_DELAY) as u64
                    } else {
                        u64::MAX
                    },
                )
            } else {
                CancelSwapAction::GiveUp
            },
    {
        if succeeded {
            CancelSwapAction::Done
        } else if self.attempt < ESCROW_RETRY_LIMIT {
            CancelSwapAction::Retry(
                CancelP2PSwapInEscrowCanisterJob { swap_id: self.swap_id, attempt: self.attempt + 1 },
                now.saturating_add(ESCROW_RETRY_DELAY),
            )
        } else {
            CancelSwapAction::GiveUp
        }
    }
}

impl MakeTransferJob {
    /// Whether a failed transfer is tried again, and when.
    pub fn retry_at(&self, now: TimestampMillis) -> (r: Option<TimestampMillis>)
        ensures
            r == if self.attempt < TRANSFER_RETRY_LIMIT {
                Some(
                    if now + TRANSFER_RETRY_DELAY <= u64::MAX {
                        (now + TRANSFER_RETRY_DELAY) as u64
                    } else {
                        u64::MAX
                    },
                )
            } else {
                None
            },
    {
        if self.attempt < TRANSFER_RETRY_LIMIT {
            Some(now.saturating_add(TRANSFER_RETRY_DELAY))
        } else {
            None
        }
    }
}

#[derive(Clone, Copy, Debug, PartialEq, Eq)]
pub struct MarkP2PSwapExpiredJob {
    pub channel_id: ChannelId,
    pub thread_root_message_index: Option<MessageIndex>,
    pub message_id: MessageId,
}

#[derive(Clone, Debug)]
pub struct JoinMembersToPublicChannelJob {
    pub channel_id: ChannelId,
    pub members: Vec<UserId>,
}

} // verus!
