use chat_events::chat_event_internal::{
    ChatEventInternal, DeletedByInternal, EventWrapperInternal, MessageInternal, ReplyContextInternal,
};
use chat_events::event_log::{AppendError, ChatEventLog, ChatKind};
use chat_events::events::{DirectChatCreated, EventsTimeToLiveUpdated, MembersAdded};
use chat_events::expiry::coalesce;
use chat_events::message_content::{
    BlobReference, CustomContent, ImageContent, MessageContent, TextContent, ThumbnailData,
};
use chat_events::metrics::MetricKey;
use chat_events::threads::{ChatEvents, ThreadAppendError};
use chat_events::message_content::{CryptoTransaction, MessageContentInitial, PendingCryptoTransaction, PrizeContentInitial};
use chat_events::prize::PrizeState;

fn text_message(id: u128, text: &str) -> ChatEventInternal {
    message_with(id, MessageContent::Text(TextContent { text: text.to_string() }), false)
}

fn message_with(id: u128, content: MessageContent, reply: bool) -> ChatEventInternal {
    ChatEventInternal::Message(Box::new(MessageInternal {
        message_index: 0,
        message_id: id,
        sender: 7,
        content,
        sender_context: None,
        replies_to: if reply {
            Some(ReplyContextInternal { chat_if_other: None, event_index: 1 })
        } else {
            None
        },
        reactions: Vec::new(),
        tips: Vec::new(),
        last_edited: None,
        deleted_by: None,
        thread_summary: None,
        forwarded: false,
        block_level_markdown: false,
    }))
}

fn members_added() -> ChatEventInternal {
    ChatEventInternal::ParticipantsAdded(Box::new(MembersAdded { user_ids: vec![1, 2], added_by: 3, unblocked: Vec::new() }))
}

fn ttl_updated() -> ChatEventInternal {
    ChatEventInternal::EventsTimeToLiveUpdated(Box::new(EventsTimeToLiveUpdated { updated_by: 1, new_ttl: Some(5000) }))
}

fn text_of(log: &ChatEventLog, index: u32) -> Option<String> {
    match log.get_by_index(index) {
        Some(w) => match &w.event {
            ChatEventInternal::Message(m) => match &m.content {
                MessageContent::Text(t) => Some(t.text.clone()),
                _ => None,
            },
            _ => None,
        },
        None => None,
    }
}

#[test]
fn append_then_lookup_by_message_id_and_index() {
    let mut log = ChatEventLog::new(ChatKind::Group);
    let index = log.append(text_message(0xA1, "hello"), 100, None).unwrap();
    assert_eq!(index, 1);
    assert_eq!(log.get_by_message_id(0xA1), Some((index, 0)));
    assert_eq!(text_of(&log, index), Some("hello".to_string()));
    let w = log.get_by_index(index).unwrap();
    assert_eq!(w.timestamp, 100);
    assert_eq!(w.expires_at, None);
    assert_eq!(log.get_by_message_id(0xB2), None);
}

#[test]
fn indices_follow_append_order_and_are_never_reused() {
    let mut log = ChatEventLog::new(ChatKind::Group);
    let a = log.append(text_message(1, "a"), 10, Some(5)).unwrap();
    let b = log.append(members_added(), 11, None).unwrap();
    let c = log.append(text_message(2, "c"), 12, None).unwrap();
    assert_eq!((a, b, c), (1, 2, 3));
    assert_eq!(log.take_expired(100), vec![(1, 1)]);
    assert!(log.get_by_index(1).is_none());
    let d = log.append(text_message(3, "d"), 101, None).unwrap();
    assert_eq!(d, 4);
    assert_eq!(log.latest_event_index(), 4);
}

#[test]
fn message_indices_count_messages_only() {
    let mut log = ChatEventLog::new(ChatKind::Group);
    log.append(text_message(1, "a"), 1, None).unwrap();
    log.append(members_added(), 2, None).unwrap();
    let i = log.append(text_message(2, "b"), 3, None).unwrap();
    assert_eq!(log.get_by_message_id(2), Some((i, 1)));
}

#[test]
fn duplicate_message_id_is_refused() {
    let mut log = ChatEventLog::new(ChatKind::Group);
    log.append(text_message(9, "a"), 1, None).unwrap();
    assert_eq!(log.append(text_message(9, "b"), 2, None), Err(AppendError::DuplicateMessageId));
    assert_eq!(log.latest_event_index(), 1);
}

#[test]
fn direct_chat_refuses_membership_events() {
    let mut log = ChatEventLog::new(ChatKind::Direct);
    assert_eq!(log.append(members_added(), 1, None), Err(AppendError::InvalidForChat));
    assert_eq!(log.latest_event_index(), 0);
    assert_eq!(log.append(ChatEventInternal::DirectChatCreated(DirectChatCreated {}), 1, None), Ok(1));
    assert_eq!(log.append(ttl_updated(), 2, None), Ok(2));
    assert_eq!(log.append(text_message(1, "hi"), 3, None), Ok(3));
}

#[test]
fn thread_accepts_messages_only() {
    let mut log = ChatEventLog::new(ChatKind::Thread);
    assert_eq!(log.append(ttl_updated(), 1, None), Err(AppendError::InvalidForChat));
    assert_eq!(log.append(text_message(1, "reply"), 1, None), Ok(1));
}

#[test]
fn expiry_sweep_scenario() {
    let mut log = ChatEventLog::new(ChatKind::Group);
    let keep = log.append(text_message(1, "stays"), 900, None).unwrap();
    let index = log.append(text_message(2, "goes"), 1000, Some(5000)).unwrap();
    assert_eq!(log.get_by_index(index).unwrap().expires_at, Some(6000));
    assert_eq!(log.take_expired(5000), Vec::<(u32, u32)>::new());
    assert!(log.get_by_index(index).is_some());
    assert_eq!(log.take_expired(7000), vec![(index, index)]);
    assert!(log.get_by_index(index).is_none());
    assert_eq!(log.get_by_message_id(2), None);
    assert_eq!(text_of(&log, keep), Some("stays".to_string()));
    assert_eq!(log.take_expired(8000), Vec::<(u32, u32)>::new());
}

#[test]
fn expired_runs_are_coalesced() {
    let mut log = ChatEventLog::new(ChatKind::Group);
    for i in 0..5u128 {
        log.append(text_message(i, "x"), 0, Some(10)).unwrap();
    }
    log.append(text_message(50, "keep"), 0, None).unwrap();
    log.append(text_message(51, "y"), 0, Some(10)).unwrap();
    assert_eq!(log.take_expired(20), vec![(1, 5), (7, 7)]);
}

#[test]
fn coalesce_contiguous_and_separate() {
    assert_eq!(coalesce(&vec![3, 4, 5, 6]), vec![(3, 6)]);
    assert_eq!(coalesce(&vec![3, 7]), vec![(3, 3), (7, 7)]);
    assert_eq!(coalesce(&vec![]), Vec::<(u32, u32)>::new());
    assert_eq!(coalesce(&vec![1, 2, 4, 5, 9]), vec![(1, 2), (4, 5), (9, 9)]);
}

#[test]
fn import_is_idempotent() {
    let mut log = ChatEventLog::new(ChatKind::Group);
    log.append(text_message(1, "own"), 5, None).unwrap();
    let batch = || {
        vec![
            EventWrapperInternal { index: 3, timestamp: 50, expires_at: None, event: text_message(10, "three") },
            EventWrapperInternal { index: 4, timestamp: 60, expires_at: None, event: members_added() },
            EventWrapperInternal { index: 1, timestamp: 70, expires_at: None, event: text_message(11, "taken") },
        ]
    };
    log.import_events(batch());
    assert_eq!(log.latest_event_index(), 4);
    assert!(log.get_by_index(2).is_none());
    assert_eq!(text_of(&log, 3), Some("three".to_string()));
    assert_eq!(log.get_by_index(3).unwrap().timestamp, 50);
    assert_eq!(text_of(&log, 1), Some("own".to_string()));
    assert_eq!(log.get_by_message_id(10), Some((3, 0)));
    let before = log.metrics();
    log.import_events(batch());
    assert_eq!(log.latest_event_index(), 4);
    assert_eq!(text_of(&log, 3), Some("three".to_string()));
    assert_eq!(log.metrics(), before);
}

#[test]
fn metrics_match_replay() {
    let mut log = ChatEventLog::new(ChatKind::Group);
    log.append(text_message(1, "a"), 1, None).unwrap();
    log.append(message_with(2, MessageContent::Text(TextContent { text: "b".to_string() }), true), 2, Some(1)).unwrap();
    log.append(
        message_with(3, MessageContent::Custom(CustomContent { kind: "meme_fighter".to_string(), data: vec![1] }), false),
        3,
        None,
    )
    .unwrap();
    log.append(members_added(), 4, None).unwrap();
    let m = log.metrics();
    assert_eq!(m.get(MetricKey::TextMessages), 2);
    assert_eq!(m.get(MetricKey::Replies), 1);
    assert_eq!(m.get(MetricKey::CustomTypeMessages), 1);
    assert_eq!(m.get(MetricKey::ImageMessages), 0);
    log.take_expired(10);
    let m = log.metrics();
    assert_eq!(m.get(MetricKey::TextMessages), 1);
    assert_eq!(m.get(MetricKey::Replies), 0);
}

#[test]
fn image_counts_as_image() {
    let mut log = ChatEventLog::new(ChatKind::Group);
    let image = ImageContent {
        width: 1,
        height: 1,
        thumbnail_data: ThumbnailData(String::new()),
        caption: None,
        mime_type: "image/png".to_string(),
        blob_reference: None,
    };
    log.append(message_with(1, MessageContent::Image(image), false), 1, None).unwrap();
    assert_eq!(log.metrics().get(MetricKey::ImageMessages), 1);
}

#[test]
fn range_honours_both_limits() {
    let mut log = ChatEventLog::new(ChatKind::Group);
    log.append(text_message(1, "m1"), 1, None).unwrap();
    log.append(members_added(), 2, None).unwrap();
    log.append(text_message(2, "m2"), 3, None).unwrap();
    log.append(members_added(), 4, None).unwrap();
    log.append(text_message(3, "m3"), 5, None).unwrap();
    assert_eq!(log.range(1, true, 10, 10), vec![1, 2, 3, 4, 5]);
    assert_eq!(log.range(1, true, 3, 10), vec![1, 2, 3]);
    assert_eq!(log.range(1, true, 10, 2), vec![1, 2, 3]);
    assert_eq!(log.range(5, false, 10, 2), vec![5, 4, 3]);
    assert_eq!(log.range(5, false, 2, 10), vec![5, 4]);
    assert_eq!(log.range(1, true, 0, 10), Vec::<u32>::new());
    assert_eq!(log.range(9, true, 10, 10), Vec::<u32>::new());
}

#[test]
fn window_contains_mid_point() {
    let mut log = ChatEventLog::new(ChatKind::Group);
    for i in 0..9u128 {
        log.append(text_message(i, "m"), 0, None).unwrap();
    }
    assert_eq!(log.window(5, 5, 5), vec![3, 4, 5, 6, 7]);
    assert_eq!(log.window(1, 5, 5), vec![1, 2, 3]);
    assert_eq!(log.window(9, 1, 10), vec![9]);
    assert_eq!(log.window(0, 5, 5), Vec::<u32>::new());
    assert_eq!(log.window(5, 0, 5), Vec::<u32>::new());
}

#[test]
fn events_by_index_parts_visible_expired_and_hidden() {
    let mut log = ChatEventLog::new(ChatKind::Group);
    for i in 0..6u128 {
        let ttl = if i == 2 || i == 3 { Some(1) } else { None };
        log.append(text_message(i, "m"), 0, ttl).unwrap();
    }
    log.take_expired(5);
    let (visible, expired, unauthorized) = log.events_by_index(&vec![1, 2, 3, 4, 5, 6, 9], 2);
    assert_eq!(visible, vec![2, 5, 6]);
    assert_eq!(expired, vec![(3, 4)]);
    assert_eq!(unauthorized, vec![1]);
}

#[test]
fn hard_delete_purges_content_and_releases_files() {
    let mut log = ChatEventLog::new(ChatKind::Group);
    let image = ImageContent {
        width: 1,
        height: 1,
        thumbnail_data: ThumbnailData(String::new()),
        caption: None,
        mime_type: "image/png".to_string(),
        blob_reference: Some(BlobReference { canister_id: 4, blob_id: 44 }),
    };
    let mut event = message_with(5, MessageContent::Image(image), false);
    if let ChatEventInternal::Message(m) = &mut event {
        m.deleted_by = Some(DeletedByInternal { deleted_by: 7, timestamp: 99 });
    }
    let index = log.append(event, 1, None).unwrap();
    log.append(text_message(6, "alive"), 2, None).unwrap();
    assert_eq!(log.metrics().get(MetricKey::ImageMessages), 1);
    assert_eq!(log.hard_delete_message(6), None);
    assert_eq!(log.hard_delete_message(5), Some(vec![BlobReference { canister_id: 4, blob_id: 44 }]));
    assert_eq!(log.metrics().get(MetricKey::ImageMessages), 0);
    match &log.get_by_index(index).unwrap().event {
        ChatEventInternal::Message(m) => assert!(matches!(m.content, MessageContent::Deleted(_))),
        _ => panic!("message expected"),
    }
    assert_eq!(log.get_by_message_id(5), Some((index, 0)));
    assert_eq!(log.hard_delete_message(5), None);
    assert_eq!(log.hard_delete_message(77), None);
}

fn reply_from(id: u128, sender: u64) -> ChatEventInternal {
    match text_message(id, "reply") {
        ChatEventInternal::Message(mut m) => {
            m.sender = sender;
            ChatEventInternal::Message(m)
        }
        other => other,
    }
}

#[test]
fn thread_replies_go_to_their_own_log() {
    let mut chat = ChatEvents::new(ChatKind::Group);
    chat.push_main_event(text_message(1, "root"), 10, None).unwrap();
    chat.push_main_event(members_added(), 11, None).unwrap();
    assert_eq!(chat.push_thread_message(5, reply_from(2, 3), &vec![], 12, None), Err(ThreadAppendError::RootNotFound));
    assert!(chat.thread(0).is_none());
    assert_eq!(chat.push_thread_message(0, reply_from(2, 3), &vec![8], 12, None), Ok(1));
    assert_eq!(chat.push_thread_message(0, reply_from(3, 4), &vec![], 13, None), Ok(2));
    let thread = chat.thread(0).unwrap();
    assert_eq!(thread.latest_event_index(), 2);
    assert_eq!(thread.get_by_message_id(3), Some((2, 1)));
    assert_eq!(chat.main().latest_event_index(), 2);
    match &chat.main().get_by_index(1).unwrap().event {
        ChatEventInternal::Message(m) => {
            let t = m.thread_summary.as_ref().unwrap();
            assert_eq!(t.reply_count, 2);
            assert_eq!(t.latest_event_index, 2);
            assert_eq!(t.latest_event_timestamp, 13);
            assert_eq!(t.participants, vec![3, 4]);
            let mut f: Vec<u64> = t.followers.iter().copied().collect();
            f.sort();
            assert_eq!(f, vec![3, 4, 7, 8]);
        }
        _ => panic!("root message expected"),
    }
    assert_eq!(
        chat.push_thread_message(0, members_added(), &vec![], 14, None),
        Err(ThreadAppendError::Append(AppendError::InvalidForChat))
    );
}

#[test]
fn prize_message_finalizes_once_after_its_end() {
    let initial = PrizeContentInitial {
        prizes_v2: vec![100, 200, 300],
        transfer: CryptoTransaction::Pending(PendingCryptoTransaction {
            ledger: 1,
            token_symbol: "CHAT".to_string(),
            amount: 600,
            to: 2,
            memo: None,
            created: 0,
        }),
        end_date: 5000,
        caption: None,
        diamond_only: false,
        lifetime_diamond_only: false,
        unique_person_only: false,
        streak_only: 0,
        requires_captcha: false,
    };
    let content = MessageContentInitial::Prize(initial.clone()).into_content();
    let mut log = ChatEventLog::new(ChatKind::Group);
    let index = log.append(message_with(1, content, false), 1000, None).unwrap();
    assert_eq!(log.metrics().get(MetricKey::PrizeMessages), 1);
    let mut prize = PrizeState::new(initial.prizes_v2.clone(), initial.end_date);
    assert_eq!(prize.reserve(9, 2000), Ok(300));
    assert!(prize.confirm(9));
    let refunds = prize.finalize(6000);
    assert_eq!(refunds, vec![100, 200]);
    assert_eq!(refunds.len() + prize.winners.len(), 3);
    assert_eq!(prize.finalize(7000), Vec::<u128>::new());
    assert!(log.get_by_index(index).is_some());
}

#[test]
fn imported_message_indices_are_not_reused() {
    let mut log = ChatEventLog::new(ChatKind::Group);
    let mut imported = text_message(10, "old");
    if let ChatEventInternal::Message(m) = &mut imported {
        m.message_index = 7;
    }
    log.import_events(vec![EventWrapperInternal { index: 1, timestamp: 1, expires_at: None, event: imported }]);
    let i = log.append(text_message(11, "new"), 2, None).unwrap();
    assert_eq!(log.get_by_message_id(11), Some((i, 8)));
}

#[test]
fn expired_files_are_handed_back_before_the_sweep() {
    let mut log = ChatEventLog::new(ChatKind::Group);
    let image = ImageContent {
        width: 1,
        height: 1,
        thumbnail_data: ThumbnailData(String::new()),
        caption: None,
        mime_type: String::new(),
        blob_reference: Some(BlobReference { canister_id: 2, blob_id: 5 }),
    };
    log.append(message_with(1, MessageContent::Image(image), false), 0, Some(10)).unwrap();
    log.append(text_message(2, "t"), 0, Some(10)).unwrap();
    assert!(log.expired_files(5).is_empty());
    assert_eq!(log.expired_files(10), vec![BlobReference { canister_id: 2, blob_id: 5 }]);
    assert_eq!(log.take_expired(10), vec![(1, 2)]);
    assert!(log.expired_files(10).is_empty());
}
