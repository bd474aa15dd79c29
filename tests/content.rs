use chat_events::chat_event_internal::{ChatEventInternal, ThreadSummaryInternal};
use chat_events::events::{ChatEvent, ChatEventCategory, ChatEventType, EventContext, EventOrExpiredRange, GroupUnfrozen, MembersAdded};
use chat_events::jobs::{
    CancelP2PSwapInEscrowCanisterJob, CancelSwapAction, NotifyDepositAction, NotifyDepositOutcome,
    NotifyEscrowCanisterOfDepositJob,
};
use chat_events::message_content::{
    Achievement, AudioContent, BlobReference, CryptoContent, CryptoTransaction, CustomContent, MessageContent,
    MessageContentInitial, MessageContentType, P2PSwapStatus, PendingCryptoTransaction, TextContent, User,
    VideoContent, ThumbnailData,
};
use chat_events::prize::{
    cancel_swap, complete_swap, expire_swap, reserve_swap, unreserve_swap, PrizeState, ReservePrizeError,
    SwapTransitionError,
};
use chat_events::public_communities::{PublicCommunities, UpdateCommunityResult};

fn pending(amount: u128) -> PendingCryptoTransaction {
    PendingCryptoTransaction { ledger: 5, token_symbol: "ICP".to_string(), amount, to: 8, memo: None, created: 1 }
}

#[test]
fn text_and_captions() {
    let t = MessageContent::Text(TextContent { text: "body".to_string() });
    assert_eq!(t.text(), Some("body"));
    let a = MessageContent::Audio(AudioContent { caption: Some("cap".to_string()), mime_type: String::new(), blob_reference: None });
    assert_eq!(a.text(), Some("cap"));
    let c = MessageContent::Custom(CustomContent { kind: "k".to_string(), data: Vec::new() });
    assert_eq!(c.text(), None);
}

#[test]
fn blob_references_video_first() {
    let v = MessageContent::Video(VideoContent {
        width: 1,
        height: 1,
        thumbnail_data: ThumbnailData(String::new()),
        caption: None,
        mime_type: String::new(),
        image_blob_reference: Some(BlobReference { canister_id: 1, blob_id: 2 }),
        video_blob_reference: Some(BlobReference { canister_id: 1, blob_id: 3 }),
    });
    assert_eq!(
        v.blob_references(),
        vec![BlobReference { canister_id: 1, blob_id: 3 }, BlobReference { canister_id: 1, blob_id: 2 }]
    );
    assert_eq!(MessageContent::Text(TextContent { text: String::new() }).blob_references(), Vec::new());
}

#[test]
fn blob_url_names_canister_and_blob() {
    let url = BlobReference { canister_id: 42, blob_id: 77 }.url();
    assert_eq!(url, "https://42.raw.icp0.io/files/77");
}

#[test]
fn content_type_and_achievement() {
    let c = MessageContent::Custom(CustomContent { kind: "meme_fighter".to_string(), data: Vec::new() });
    let t = c.content_type();
    assert_eq!(t, MessageContentType::Custom("meme_fighter".to_string()));
    assert_eq!(t.achievement(), Some(Achievement::SentMeme));
    assert_eq!(MessageContentType::Custom("other".to_string()).achievement(), None);
    assert_eq!(MessageContentType::GovernanceProposal.achievement(), None);
    assert_eq!(MessageContentType::VideoCall.achievement(), Some(Achievement::StartedCall));
}

#[test]
fn initial_content_text_length_and_transfers() {
    let t = MessageContentInitial::Text(TextContent { text: "héllo".to_string() });
    assert_eq!(t.text_length(), 5);
    assert!(!t.contains_crypto_transfer());
    let c = MessageContentInitial::Crypto(CryptoContent {
        recipient: 8,
        transfer: CryptoTransaction::Pending(pending(100)),
        caption: None,
    });
    assert!(c.contains_crypto_transfer());
    assert_eq!(c.pending_crypto_transfer().map(|p| p.amount), Some(100));
    assert_eq!(c.text_length(), 0);
}

#[test]
fn crypto_transfer_details_names_recipient() {
    let c = MessageContent::Crypto(CryptoContent { recipient: 8, transfer: CryptoTransaction::Pending(pending(9)), caption: None });
    let users = vec![User { user_id: 3, username: "a".to_string() }, User { user_id: 8, username: "bob".to_string() }];
    let d = c.notification_crypto_transfer_details(&users).unwrap();
    assert_eq!(d.recipient_username, Some("bob".to_string()));
    assert_eq!(d.amount, 9);
    assert_eq!(d.symbol, "ICP");
    assert!(MessageContent::Text(TextContent { text: String::new() }).notification_crypto_transfer_details(&users).is_none());
}

#[test]
fn event_types_and_categories() {
    let e = ChatEventInternal::ParticipantsAdded(Box::new(MembersAdded { user_ids: vec![1], added_by: 2, unblocked: Vec::new() }));
    assert_eq!(e.event_type(), Some(ChatEventType::MembersJoined));
    assert_eq!(e.event_category(), Some(ChatEventCategory::Membership));
    assert!(!e.is_valid_for_direct_chat());
    assert!(e.is_valid_for_group());
    assert!(!e.is_valid_for_thread());
    assert_eq!(ChatEventInternal::Empty.event_category(), None);
    let u = ChatEventInternal::ChatUnfrozen(Box::new(GroupUnfrozen { unfrozen_by: 1 }));
    assert_eq!(u.event_category(), Some(ChatEventCategory::Details));
    let public = u.chat_event(None);
    assert_eq!(public.event_type(), Some(ChatEventType::Unfrozen));
    assert_eq!(ChatEventCategory::from(ChatEventType::MessageTipped), ChatEventCategory::Message);
    assert!(matches!(ChatEventInternal::FailedToDeserialize.chat_event(Some(1)), ChatEvent::FailedToDeserialize));
}

#[test]
fn split_sorts_expired_ranges() {
    let page = vec![
        EventOrExpiredRange::ExpiredEventRange(9, 10),
        EventOrExpiredRange::Unauthorized(4),
        EventOrExpiredRange::ExpiredEventRange(2, 3),
        EventOrExpiredRange::ExpiredEventRange(5, 6),
    ];
    let (events, expired, unauthorized) = EventOrExpiredRange::split(page);
    assert!(events.is_empty());
    assert_eq!(expired, vec![(2, 3), (5, 6), (9, 10)]);
    assert_eq!(unauthorized, vec![4]);
    assert_eq!(EventContext::new(Some(2), 7), EventContext { thread_root_message_index: Some(2), event_index: 7 });
}

#[test]
fn split_merges_runs_of_expired_ranges() {
    let page = vec![
        EventOrExpiredRange::ExpiredEventRange(2, 2),
        EventOrExpiredRange::ExpiredEventRange(1, 1),
        EventOrExpiredRange::ExpiredEventRange(6, 9),
        EventOrExpiredRange::ExpiredEventRange(5, 7),
        EventOrExpiredRange::ExpiredEventRange(12, 12),
        EventOrExpiredRange::ExpiredEventRange(5, 7),
    ];
    let (_, expired, _) = EventOrExpiredRange::split(page);
    assert_eq!(expired, vec![(1, 2), (5, 9), (12, 12)]);
}

#[test]
fn thread_summary_tracks_replies() {
    let mut t = ThreadSummaryInternal {
        participants: Vec::new(),
        followers: std::collections::HashSet::new(),
        reply_count: 0,
        latest_event_index: 0,
        latest_event_timestamp: 0,
    };
    t.mark_message_added(1, &vec![5], 9, 1, 100);
    t.mark_message_added(1, &vec![], 9, 2, 200);
    assert_eq!(t.reply_count, 2);
    assert_eq!(t.participants, vec![1]);
    let mut f: Vec<u64> = t.followers.iter().copied().collect();
    f.sort();
    assert_eq!(f, vec![1, 5, 9]);
    let h = t.hydrate(Some(5));
    assert!(h.followed_by_me);
    assert_eq!(h.latest_event_index, 2);
    assert!(!t.hydrate(Some(6)).followed_by_me);
}

#[test]
fn prize_finalizes_once() {
    let mut p = PrizeState::new(vec![10, 20, 30], 1000);
    assert_eq!(p.reserve(1, 100), Ok(30));
    assert_eq!(p.reserve(1, 101), Err(ReservePrizeError::AlreadyClaimed));
    assert!(p.confirm(1));
    assert_eq!(p.winners, vec![1]);
    assert_eq!(p.finalize(999), Vec::<u128>::new());
    assert_eq!(p.reserve(2, 1000), Err(ReservePrizeError::PrizeEnded));
    assert_eq!(p.finalize(1001), vec![10, 20]);
    assert_eq!(p.finalize(1002), Vec::<u128>::new());
    assert!(p.prizes_remaining.is_empty());
}

#[test]
fn prize_with_three_prizes_refunds_all_after_end() {
    let mut p = PrizeState::new(vec![1, 2, 3], 500);
    let refunds = p.finalize(501);
    assert_eq!(refunds.len() + p.winners.len(), 3);
    assert!(p.final_payments_started);
    assert_eq!(p.finalize(600), Vec::<u128>::new());
}

#[test]
fn prize_unreserve_returns_prize() {
    let mut p = PrizeState::new(vec![5], 100);
    assert_eq!(p.reserve(3, 1), Ok(5));
    assert_eq!(p.reserve(4, 1), Err(ReservePrizeError::PrizeFullyClaimed));
    assert!(p.unreserve(3));
    assert_eq!(p.prizes_remaining, vec![5]);
    assert!(!p.unreserve(3));
}

#[test]
fn swap_state_machine() {
    let reserved = reserve_swap(P2PSwapStatus::Open, 4, 10, 100).unwrap();
    assert_eq!(reserved, P2PSwapStatus::Reserved(4));
    assert_eq!(reserve_swap(reserved, 5, 10, 100), Err(SwapTransitionError::NotOpen));
    assert_eq!(reserve_swap(P2PSwapStatus::Open, 4, 100, 100), Err(SwapTransitionError::Expired));
    assert_eq!(unreserve_swap(reserved, 5), Err(SwapTransitionError::ReservedByOther));
    assert_eq!(unreserve_swap(reserved, 4), Ok(P2PSwapStatus::Open));
    assert_eq!(complete_swap(reserved, 4), Ok(P2PSwapStatus::Completed(4)));
    assert_eq!(cancel_swap(P2PSwapStatus::Open), Ok(P2PSwapStatus::Cancelled));
    assert_eq!(cancel_swap(reserved), Err(SwapTransitionError::NotOpen));
    assert_eq!(expire_swap(P2PSwapStatus::Open, 100, 100), P2PSwapStatus::Expired);
    assert_eq!(expire_swap(reserved, 100, 100), reserved);
}

#[test]
fn escrow_jobs_retry_then_give_up() {
    let job = NotifyEscrowCanisterOfDepositJob::run(1, 2, 3, None, 4, 5);
    assert_eq!(job.attempt, 0);
    assert_eq!(job.next(NotifyDepositOutcome::Success, 0), NotifyDepositAction::AcceptSwap);
    assert_eq!(job.next(NotifyDepositOutcome::SwapExpired, 0), NotifyDepositAction::UnreserveSwap);
    match job.next(NotifyDepositOutcome::CallFailed, 1000) {
        NotifyDepositAction::Retry(next, at) => {
            assert_eq!(next.attempt, 1);
            assert_eq!(at, 11000);
        }
        other => panic!("unexpected {other:?}"),
    }
    let last = NotifyEscrowCanisterOfDepositJob { attempt: 20, ..job };
    assert_eq!(last.next(NotifyDepositOutcome::InternalError, 0), NotifyDepositAction::GiveUp);
    let cancel = CancelP2PSwapInEscrowCanisterJob::run(9);
    assert_eq!(cancel.next(true, 0), CancelSwapAction::Done);
    assert_eq!(
        cancel.next(false, 5),
        CancelSwapAction::Retry(CancelP2PSwapInEscrowCanisterJob { swap_id: 9, attempt: 1 }, 10005)
    );
}

#[test]
fn public_communities_add_update_delete() {
    let mut c = PublicCommunities::new();
    c.add(1, "Rust".to_string(), "d".to_string(), None, None, None, "en".to_string(), 3, 100);
    c.add(2, "Go".to_string(), "d".to_string(), None, None, None, "en".to_string(), 1, 100);
    assert_eq!(c.len(), 2);
    let info = c.get(&1).unwrap();
    assert_eq!(info.name(), "Rust");
    assert_eq!(info.marked_active_until(), 100 + 600000);
    assert_eq!(info.activity().channel_count, 3);
    c.get_mut(&1).unwrap().set_verified(true);
    assert_eq!(
        c.update_community(&1, "RUST".to_string(), "e".to_string(), None, None, None, "de".to_string()),
        UpdateCommunityResult::Success
    );
    assert!(c.get(&1).unwrap().verified());
    c.update_community(&1, "Rusty".to_string(), "e".to_string(), None, None, None, "de".to_string());
    assert!(!c.get(&1).unwrap().verified());
    assert_eq!(
        c.update_community(&7, "x".to_string(), String::new(), None, None, None, String::new()),
        UpdateCommunityResult::CommunityNotFound
    );
    let m = c.get(&2).unwrap().to_match(12);
    assert_eq!(m.score, 12);
    assert_eq!(m.name, "Go");
    assert!(c.delete(&2).is_some());
    assert!(c.get(&2).is_none());
    assert_eq!(c.len(), 1);
    assert_eq!(c.iter().len(), 1);
}
