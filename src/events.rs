use crate::ids::{ChannelId, ChatId, CommunityId, EventIndex, MessageId, MessageIndex, Milliseconds, TimestampMillis, UserId};
use crate::expiry::{in_ranges, lemma_in_ranges_same_elements, merge_ranges, ranges_coalesced};
use crate::message_content::MessageContent;
use vstd::prelude::*;

verus! {

/// An event as readers see it, with its place in the log.
#[derive(Clone, Debug)]
pub struct EventWrapper<T> {
    pub index: EventIndex,
    pub timestamp: TimestampMillis,
    pub expires_at: Option<TimestampMillis>,
    pub event: T,
}

/// A chat, as the address of a reply that points outside its own chat.
#[derive(Clone, Copy, Debug, PartialEq, Eq, Structural)]
pub enum Chat {
    Direct(ChatId),
    Group(ChatId),
    Channel(CommunityId, ChannelId),
}

#[derive(Clone, Copy, Debug, PartialEq, Eq)]
pub struct ReplyContext {
    pub chat_if_other: Option<(Chat, Option<MessageIndex>)>,
    pub event_index: EventIndex,
}

#[derive(Clone, Debug)]
pub struct BotMessageContext {
    pub command_name: Option<String>,
    pub finalised: bool,
}

/// Who sent a message: a person, or a bot acting on a command.
#[derive(Clone, Debug)]
pub enum SenderContext {
    Bot(BotMessageContext),
    Webhook,
}

#[derive(Clone, Debug)]
pub struct ThreadSummary {
    pub participant_ids: Vec<UserId>,
    pub followed_by_me: bool,
    pub reply_count: u32,
    pub latest_event_index: EventIndex,
    pub latest_event_timestamp: TimestampMillis,
}

#[derive(Clone, Debug)]
pub struct Tip {
    pub ledger: u64,
    pub user_id: UserId,
    pub amount: u128,
}

/// A message as readers see it.
#[derive(Clone, Debug)]
pub struct Message {
    pub message_index: MessageIndex,
    pub message_id: MessageId,
    pub sender: UserId,
    pub content: MessageContent,
    pub sender_context: Option<SenderContext>,
    pub replies_to: Option<ReplyContext>,
    pub reactions: Vec<(String, Vec<UserId>)>,
    pub tips: Vec<Tip>,
    pub edited: bool,
    pub forwarded: bool,
    pub thread_summary: Option<ThreadSummary>,
    pub block_level_markdown: bool,
}

#[derive(Clone, Copy, Debug, PartialEq, Eq, Structural)]
pub enum GroupRole {
    Owner,
    Admin,
    Moderator,
    Member,
}

#[derive(Clone, Debug)]
pub struct GroupPermissions {
    pub change_roles: GroupRole,
    pub update_group: GroupRole,
    pub add_members: GroupRole,
    pub invite_users: GroupRole,
    pub remove_members: GroupRole,
    pub delete_messages: GroupRole,
    pub pin_messages: GroupRole,
    pub react_to_messages: GroupRole,
    pub mention_all_members: GroupRole,
    pub start_video_call: GroupRole,
}

/// A condition that a user must meet to join.
#[derive(Clone, Debug)]
pub enum AccessGate {
    VerifiedCredential(String),
    DiamondMember,
    LifetimeDiamondMember,
    UniquePerson,
    TokenBalance(u64, u128),
    Payment(u64, u128),
    ReferredByMember,
    Locked,
}

#[derive(Clone, Debug)]
pub struct AccessGateConfig {
    pub gate: AccessGate,
    pub expiry: Option<Milliseconds>,
}

#[derive(Clone, Debug)]
pub struct BotCommand {
    pub name: String,
    pub initiator: UserId,
}

/// Every kind of event that a chat's log holds, as readers see it.
#[derive(Clone, Debug)]
pub enum ChatEvent {
    Empty,
    Message(Box<Message>),
    GroupChatCreated(GroupCreated),
    DirectChatCreated(DirectChatCreated),
    GroupNameChanged(GroupNameChanged),
    GroupDescriptionChanged(GroupDescriptionChanged),
    GroupRulesChanged(GroupRulesChanged),
    AvatarChanged(AvatarChanged),
    ParticipantsAdded(MembersAdded),
    ParticipantsRemoved(MembersRemoved),
    ParticipantJoined(MemberJoined),
    ParticipantLeft(MemberLeft),
    RoleChanged(RoleChanged),
    UsersBlocked(UsersBlocked),
    UsersUnblocked(UsersUnblocked),
    MessagePinned(MessagePinned),
    MessageUnpinned(MessageUnpinned),
    PermissionsChanged(PermissionsChanged),
    GroupVisibilityChanged(GroupVisibilityChanged),
    GroupInviteCodeChanged(GroupInviteCodeChanged),
    ChatFrozen(GroupFrozen),
    ChatUnfrozen(GroupUnfrozen),
    EventsTimeToLiveUpdated(EventsTimeToLiveUpdated),
    GroupGateUpdated(GroupGateUpdated),
    UsersInvited(UsersInvited),
    MembersAddedToDefaultChannel(MembersAddedToDefaultChannel),
    ExternalUrlUpdated(ExternalUrlUpdated),
    BotAdded(Box<BotAdded>),
    BotRemoved(Box<BotRemoved>),
    BotUpdated(Box<BotUpdated>),
    FailedToDeserialize,
}

/// The three groups of events that bots subscribe to.
#[derive(Clone, Copy, Debug, PartialEq, Eq, Structural)]
pub enum ChatEventCategory {
    Message,
    Membership,
    Details,
}

/// The kind of an event, as notifications and filters name it.
#[derive(Clone, Copy, Debug, PartialEq, Eq, Structural)]
pub enum ChatEventType {
    Message,
    MessageEdited,
    MessageReaction,
    MessageTipped,
    MessageDeleted,
    MessageUndeleted,
    MessagePollVote,
    MessagePollEnded,
    MessagePrizeClaim,
    MessageP2pSwapCompleted,
    MessageP2pSwapCancelled,
    MessageVideoCall,
    MessageOther,
    Created,
    NameChanged,
    DescriptionChanged,
    RulesChanged,
    AvatarChanged,
    ExternalUrlUpdated,
    PermissionsChanged,
    GateUpdated,
    VisibilityChanged,
    InviteCodeChanged,
    Frozen,
    Unfrozen,
    DisappearingMessagesUpdated,
    MessagePinned,
    MessageUnpinned,
    MembersJoined,
    MembersLeft,
    RoleChanged,
    UsersInvited,
    UsersBlocked,
    UsersUnblocked,
    BotAdded,
    BotRemoved,
    BotUpdated,
}

/// The category that an event type belongs to.
pub open spec fn category_of_type(t: ChatEventType) -> ChatEventCategory {
    match t {
        ChatEventType::Message
        | ChatEventType::MessageEdited
        | ChatEventType::MessageReaction
        | ChatEventType::MessageTipped
        | ChatEventType::MessageDeleted
        | ChatEventType::MessageUndeleted
        | ChatEventType::MessagePollVote
        | ChatEventType::MessagePollEnded
        | ChatEventType::MessagePrizeClaim
        | ChatEventType::MessageP2pSwapCompleted
        | ChatEventType::MessageP2pSwapCancelled
        | ChatEventType::MessageVideoCall
        | ChatEventType::MessageOther => ChatEventCategory::Message,
        ChatEventType::Created
        | ChatEventType::NameChanged
        | ChatEventType::DescriptionChanged
        | ChatEventType::RulesChanged
        | ChatEventType::AvatarChanged
        | ChatEventType::ExternalUrlUpdated
        | ChatEventType::PermissionsChanged
        | ChatEventType::VisibilityChanged
        | ChatEventType::InviteCodeChanged
        | ChatEventType::Frozen
        | ChatEventType::Unfrozen
        | ChatEventType::DisappearingMessagesUpdated
        | ChatEventType::GateUpdated
        | ChatEventType::MessagePinned
        | ChatEventType::MessageUnpinned => ChatEventCategory::Details,
        ChatEventType::MembersJoined
        | ChatEventType::MembersLeft
        | ChatEventType::RoleChanged
        | ChatEventType::UsersInvited
        | ChatEventType::BotAdded
        | ChatEventType::BotRemoved
        | ChatEventType::BotUpdated
        | ChatEventType::UsersBlocked
        | ChatEventType::UsersUnblocked => ChatEventCategory::Membership,
    }
}

impl ChatEventCategory {
    /// The category that an event type belongs to.
    pub fn of_type(t: ChatEventType) -> (r: ChatEventCategory)
        ensures
            r == category_of_type(t),
    {
        match t {
            ChatEventType::Message
            | ChatEventType::MessageEdited
            | ChatEventType::MessageReaction
            | ChatEventType::MessageTipped
            | ChatEventType::MessageDeleted
            | ChatEventType::MessageUndeleted
            | ChatEventType::MessagePollVote
            | ChatEventType::MessagePollEnded
            | ChatEventType::MessagePrizeClaim
            | ChatEventType::MessageP2pSwapCompleted
            | ChatEventType::MessageP2pSwapCancelled
            | ChatEventType::MessageVideoCall
            | ChatEventType::MessageOther => ChatEventCategory::Message,
            ChatEventType::Created
            | ChatEventType::NameChanged
            | ChatEventType::DescriptionChanged
            | ChatEventType::RulesChanged
            | ChatEventType::AvatarChanged
            | ChatEventType::ExternalUrlUpdated
            | ChatEventType::PermissionsChanged
            | ChatEventType::VisibilityChanged
            | ChatEventType::InviteCodeChanged
            | ChatEventType::Frozen
            | ChatEventType::Unfrozen
            | ChatEventType::DisappearingMessagesUpdated
            | ChatEventType::GateUpdated
            | ChatEventType::MessagePinned
            | ChatEventType::MessageUnpinned => ChatEventCategory::Details,
            ChatEventType::MembersJoined
            | ChatEventType::MembersLeft
            | ChatEventType::RoleChanged
            | ChatEventType::UsersInvited
            | ChatEventType::BotAdded
            | ChatEventType::BotRemoved
            | ChatEventType::BotUpdated
            | ChatEventType::UsersBlocked
            | ChatEventType::UsersUnblocked => ChatEventCategory::Membership,
        }
    }
}

impl From<ChatEventType> for ChatEventCategory {
    fn from(value: ChatEventType) -> (r: ChatEventCategory) {
        ChatEventCategory::of_type(value)
    }
}

impl vstd::std_specs::convert::FromSpecImpl<ChatEventType> for ChatEventCategory {
    open spec fn obeys_from_spec() -> bool {
        true
    }

    open spec fn from_spec(v: ChatEventType) -> ChatEventCategory {
        category_of_type(v)
    }
}

/// A page of events, with the ranges that expired and the indices the reader may not see.
#[derive(Clone, Debug)]
pub struct EventsResponse {
    pub events: Vec<EventWrapper<ChatEvent>>,
    pub unauthorized: Vec<EventIndex>,
    pub expired_event_ranges: Vec<(EventIndex, EventIndex)>,
    pub expired_message_ranges: Vec<(MessageIndex, MessageIndex)>,
    pub latest_event_index: EventIndex,
    pub chat_last_updated: TimestampMillis,
}

/// One entry of a page: an event, a range of expired events, or an index the
/// reader may not see.
#[derive(Clone, Debug)]
pub enum EventOrExpiredRange {
    Event(EventWrapper<ChatEvent>),
    ExpiredEventRange(EventIndex, EventIndex),
    Unauthorized(EventIndex),
}

/// The events of a page, in order.
pub open spec fn page_events(s: Seq<EventOrExpiredRange>) -> Seq<EventWrapper<ChatEvent>>
    decreases s.len(),
{
    if s.len() == 0 {
        Seq::empty()
    } else {
        let rest = page_events(s.drop_last());
        match s.last() {
            EventOrExpiredRange::Event(e) => rest.push(e),
            _ => rest,
        }
    }
}

/// The expired ranges of a page, in order.
pub open spec fn page_expired(s: Seq<EventOrExpiredRange>) -> Seq<(EventIndex, EventIndex)>
    decreases s.len(),
{
    if s.len() == 0 {
        Seq::empty()
    } else {
        let rest = page_expired(s.drop_last());
        match s.last() {
            EventOrExpiredRange::ExpiredEventRange(a, b) => rest.push((a, b)),
            _ => rest,
        }
    }
}

/// The unauthorized indices of a page, in order.
pub open spec fn page_unauthorized(s: Seq<EventOrExpiredRange>) -> Seq<EventIndex>
    decreases s.len(),
{
    if s.len() == 0 {
        Seq::empty()
    } else {
        let rest = page_unauthorized(s.drop_last());
        match s.last() {
            EventOrExpiredRange::Unauthorized(i) => rest.push(i),
            _ => rest,
        }
    }
}

pub open spec fn range_le(a: (EventIndex, EventIndex), b: (EventIndex, EventIndex)) -> bool {
    a.0 < b.0 || (a.0 == b.0 && a.1 <= b.1)
}

pub open spec fn ranges_sorted(s: Seq<(EventIndex, EventIndex)>) -> bool {
    forall|i: int, j: int| 0 <= i < j < s.len() ==> range_le(s[i], s[j])
}

/// Inserts a range at its place in a sorted list.
fn insert_sorted(v: &mut Vec<(EventIndex, EventIndex)>, x: (EventIndex, EventIndex))
    requires
        ranges_sorted(old(v)@),
    ensures
        ranges_sorted(final(v)@),
        final(v)@.len() == old(v)@.len() + 1,
        exists|p: int| 0 <= p <= old(v)@.len() && final(v)@ == old(v)@.insert(p, x),
{
    let mut p: usize = 0;
    while p < v.len() && (v[p].0 < x.0 || (v[p].0 == x.0 && v[p].1 <= x.1))
        invariant
            0 <= p <= v@.len(),
            forall|j: int| 0 <= j < p ==> range_le(v@[j], x),
        decreases v@.len() - p,
    {
        p = p + 1;
    }
    let ghost before = v@;
    v.insert(p, x);
    proof {
        assert forall|i: int, j: int| 0 <= i < j < v@.len() implies range_le(v@[i], v@[j]) by {
            if j < p {
            } else if j == p {
                assert(range_le(before[i], x));
            } else if i < p {
                assert(range_le(before[i], x));
                assert(!range_le(before[p as int], x));
                assert(range_le(before[i], before[j - 1]) || i == j - 1);
            } else if i == p {
                assert(!range_le(before[p as int], x));
                assert(p == j - 1 || range_le(before[p as int], before[j - 1]));
            } else {
                assert(range_le(before[i - 1], before[j - 1]));
            }
        }
    }
}

impl EventOrExpiredRange {
    pub fn as_event(&self) -> (r: Option<&EventWrapper<ChatEvent>>)
        ensures
            r == match *self {
                EventOrExpiredRange::Event(e) => Some(&e),
                _ => None,
            },
    {
        match self {
            EventOrExpiredRange::Event(event) => Some(event),
            _ => None,
        }
    }

    /// Parts a page into its events and unauthorized indices, in order, and its
    /// expired ranges, sorted and merged: one range for each run of expired
    /// indices, covering exactly the indices that the page's ranges cover.
    pub fn split(events_and_expired_ranges: Vec<EventOrExpiredRange>) -> (r: (
        Vec<EventWrapper<ChatEvent>>,
        Vec<(EventIndex, EventIndex)>,
        Vec<EventIndex>,
    ))
        ensures
            r.0@ == page_events(events_and_expired_ranges@),
            r.2@ == page_unauthorized(events_and_expired_ranges@),
            ranges_coalesced(r.1@),
            forall|x: int| in_ranges(r.1@, x) <==> in_ranges(page_expired(events_and_expired_ranges@), x),
    {
        let mut events: Vec<EventWrapper<ChatEvent>> = Vec::new();
        let mut expired_ranges: Vec<(EventIndex, EventIndex)> = Vec::new();
        let mut unauthorized: Vec<EventIndex> = Vec::new();
        let ghost all = events_and_expired_ranges@;
        let mut items = events_and_expired_ranges;
        let ghost mut done: Seq<EventOrExpiredRange> = Seq::empty();
        while items.len() > 0
            invariant
                all == done + items@,
                events@ == page_events(done),
                unauthorized@ == page_unauthorized(done),
                ranges_sorted(expired_ranges@),
                expired_ranges@.len() == page_expired(done).len(),
                forall|x: (EventIndex, EventIndex)|
                    expired_ranges@.contains(x) <==> page_expired(done).contains(x),
            decreases items@.len(),
        {
            let ghost rest = items@;
            let item = items.remove(0);
            proof {
                assert(rest =~= seq![item] + items@);
                assert(all =~= done.push(item) + items@);
                assert(done.push(item).drop_last() =~= done);
                done = done.push(item);
            }
            match item {
                EventOrExpiredRange::Event(e) => events.push(e),
                EventOrExpiredRange::ExpiredEventRange(from, to) => {
                    let ghost old_ranges = expired_ranges@;
                    insert_sorted(&mut expired_ranges, (from, to));
                    proof {
                        let p = choose|p: int|
                            0 <= p <= old_ranges.len() && expired_ranges@ == old_ranges.insert(p, (from, to));
                        assert forall|x: (EventIndex, EventIndex)|
                            expired_ranges@.contains(x) <==> page_expired(done).contains(x) by {
                            if expired_ranges@.contains(x) {
                                let k = choose|k: int| 0 <= k < expired_ranges@.len() && expired_ranges@[k] == x;
                                if k < p {
                                    assert(old_ranges[k] == x);
                                } else if k > p {
                                    assert(old_ranges[k - 1] == x);
                                }
                                if x != (from, to) {
                                    assert(old_ranges.contains(x));
                                    assert(page_expired(done.drop_last()).contains(x));
                                    let m = choose|m: int| 0 <= m < page_expired(done.drop_last()).len()
                                        && page_expired(done.drop_last())[m] == x;
                                    assert(page_expired(done)[m] == x);
                                } else {
                                    assert(page_expired(done).last() == x);
                                }
                            }
                            if page_expired(done).contains(x) {
                                let m = choose|m: int| 0 <= m < page_expired(done).len() && page_expired(done)[m] == x;
                                if m == page_expired(done).len() - 1 {
                                    assert(expired_ranges@[p] == x);
                                } else {
                                    assert(page_expired(done.drop_last())[m] == x);
                                    assert(old_ranges.contains(x));
                                    let k = choose|k: int| 0 <= k < old_ranges.len() && old_ranges[k] == x;
                                    if k < p {
                                        assert(expired_ranges@[k] == x);
                                    } else {
                                        assert(expired_ranges@[k + 1] == x);
                                    }
                                }
                            }
                        }
                    }
                },
                EventOrExpiredRange::Unauthorized(e) => unauthorized.push(e),
            }
        }
        proof {
            assert(all =~= done);
        }
        proof {
            assert forall|i: int, j: int| 0 <= i < j < expired_ranges@.len() implies expired_ranges@[i].0
                <= expired_ranges@[j].0 by {
                assert(range_le(expired_ranges@[i], expired_ranges@[j]));
            }
            assert forall|x: int| in_ranges(expired_ranges@, x) <==> in_ranges(page_expired(all), x) by {
                lemma_in_ranges_same_elements(expired_ranges@, page_expired(all), x);
            }
        }
        let merged = merge_ranges(&expired_ranges);
        (events, merged, unauthorized)
    }
}

/// A page of messages.
#[derive(Clone, Debug)]
pub struct MessagesResponse {
    pub messages: Vec<EventWrapper<Message>>,
    pub latest_event_index: EventIndex,
    pub chat_last_updated: TimestampMillis,
}

#[derive(Clone, Debug)]
pub struct GroupCreated {
    pub name: String,
    pub description: String,
    pub created_by: UserId,
}

#[derive(Clone, Debug)]
pub struct GroupNameChanged {
    pub new_name: String,
    pub previous_name: String,
    pub changed_by: UserId,
}

#[derive(Clone, Debug)]
pub struct GroupDescriptionChanged {
    pub new_description: String,
    pub previous_description: String,
    pub changed_by: UserId,
}

#[derive(Clone, Copy, Debug, PartialEq, Eq)]
pub struct GroupRulesChanged {
    pub enabled: bool,
    pub prev_enabled: bool,
    pub changed_by: UserId,
}

#[derive(Clone, Copy, Debug, PartialEq, Eq)]
pub struct AvatarChanged {
    pub new_avatar: Option<u128>,
    pub previous_avatar: Option<u128>,
    pub changed_by: UserId,
}

#[derive(Clone, Copy, Debug, PartialEq, Eq)]
pub struct BannerChanged {
    pub new_banner: Option<u128>,
    pub previous_banner: Option<u128>,
    pub changed_by: UserId,
}

#[derive(Clone, Debug)]
pub struct MembersAdded {
    pub user_ids: Vec<UserId>,
    pub added_by: UserId,
    pub unblocked: Vec<UserId>,
}

#[derive(Clone, Debug)]
pub struct MembersRemoved {
    pub user_ids: Vec<UserId>,
    pub removed_by: UserId,
}

#[derive(Clone, Debug)]
pub struct UsersBlocked {
    pub user_ids: Vec<UserId>,
    pub blocked_by: UserId,
}

#[derive(Clone, Debug)]
pub struct UsersUnblocked {
    pub user_ids: Vec<UserId>,
    pub unblocked_by: UserId,
}

#[derive(Clone, Copy, Debug, PartialEq, Eq, Structural)]
pub struct MemberJoined {
    pub user_id: UserId,
    pub invited_by: Option<UserId>,
}

/// A member joining, in the form in which the log stores it.
#[derive(Clone, Copy, Debug, PartialEq, Eq, Structural)]
pub struct MemberJoinedInternal {
    pub user_id: UserId,
    pub invited_by: Option<UserId>,
}

impl MemberJoinedInternal {
    pub fn hydrate(&self) -> (r: MemberJoined)
        ensures
            r.user_id == self.user_id,
            r.invited_by == self.invited_by,
    {
        MemberJoined { user_id: self.user_id, invited_by: self.invited_by }
    }
}

#[derive(Clone, Copy, Debug, PartialEq, Eq)]
pub struct MemberLeft {
    pub user_id: UserId,
}

#[derive(Clone, Copy, Debug, PartialEq, Eq)]
pub struct CommunityMemberLeftInternal {
    pub user_id: UserId,
    pub referred_by: Option<UserId>,
}

#[derive(Clone, Debug)]
pub struct RoleChanged {
    pub user_ids: Vec<UserId>,
    pub changed_by: UserId,
    pub old_role: GroupRole,
    pub new_role: GroupRole,
}

#[derive(Clone, Copy, Debug, PartialEq, Eq)]
pub struct MessagePinned {
    pub message_index: MessageIndex,
    pub pinned_by: UserId,
}

#[derive(Clone, Copy, Debug, PartialEq, Eq)]
pub struct MessageUnpinned {
    pub message_index: MessageIndex,
    pub unpinned_by: UserId,
    pub due_to_message_deleted: bool,
}

#[derive(Clone, Debug)]
pub struct PermissionsChanged {
    pub old_permissions_v2: GroupPermissions,
    pub new_permissions_v2: GroupPermissions,
    pub changed_by: UserId,
}

#[derive(Clone, Copy, Debug, PartialEq, Eq)]
pub struct GroupVisibilityChanged {
    pub public: Option<bool>,
    pub messages_visible_to_non_members: Option<bool>,
    pub changed_by: UserId,
}

#[derive(Clone, Copy, Debug, PartialEq, Eq)]
pub struct GroupInviteCodeChanged {
    pub change: GroupInviteCodeChange,
    pub changed_by: UserId,
}

#[derive(Clone, Copy, Debug, PartialEq, Eq)]
pub enum GroupInviteCodeChange {
    Enabled,
    Disabled,
    Reset,
}

#[derive(Clone, Debug)]
pub struct GroupFrozen {
    pub frozen_by: UserId,
    pub reason: Option<String>,
}

#[derive(Clone, Copy, Debug, PartialEq, Eq)]
pub struct GroupUnfrozen {
    pub unfrozen_by: UserId,
}

#[derive(Clone, Copy, Debug, PartialEq, Eq)]
pub struct EventsTimeToLiveUpdated {
    pub updated_by: UserId,
    pub new_ttl: Option<Milliseconds>,
}

#[derive(Clone, Debug)]
pub struct GroupGateUpdated {
    pub updated_by: UserId,
    pub new_gate_config: Option<AccessGateConfig>,
}

#[derive(Clone, Debug)]
pub struct ExternalUrlUpdated {
    pub updated_by: UserId,
    pub new_url: Option<String>,
}

#[derive(Clone, Copy, Debug, PartialEq, Eq)]
pub struct DirectChatCreated {}

#[derive(Clone, Debug)]
pub struct UsersInvited {
    pub user_ids: Vec<UserId>,
    pub invited_by: UserId,
}

#[derive(Clone, Debug)]
pub struct ChannelCreated {
    pub channel_id: ChannelId,
    pub is_public: bool,
    pub name: String,
    pub created_by: UserId,
}

#[derive(Clone, Debug)]
pub struct ChannelDeleted {
    pub channel_id: ChannelId,
    pub name: String,
    pub deleted_by: UserId,
    pub bot_command: Option<BotCommand>,
}

#[derive(Clone, Debug)]
pub struct DefaultChannelsChanged {
    pub added: Vec<ChannelId>,
    pub removed: Vec<ChannelId>,
    pub changed_by: UserId,
}

#[derive(Clone, Debug)]
pub struct PrimaryLanguageChanged {
    pub previous: String,
    pub new: String,
    pub changed_by: UserId,
}

#[derive(Clone, Copy, Debug, PartialEq, Eq)]
pub struct MembersAddedToDefaultChannel {
    pub count: u32,
}

#[derive(Clone, Debug)]
pub struct GroupCreatedEventPayload {
    pub public: bool,
    pub gate: Option<String>,
    pub rules_enabled: bool,
}

#[derive(Clone, Debug)]
pub struct CommunityCreatedEventPayload {
    pub public: bool,
    pub gate: Option<String>,
    pub rules_enabled: bool,
    pub channels: u32,
}

#[derive(Clone, Debug)]
pub struct VideoCallEndedEventPayload {
    pub chat_type: String,
    pub chat_id: String,
    pub participants: u32,
    pub hidden: u32,
    pub duration_secs: u32,
}

/// Where an event stands: in a thread or in the main log, and at which index.
#[derive(Clone, Copy, Debug, PartialEq, Eq, Structural)]
pub struct EventContext {
    pub thread_root_message_index: Option<MessageIndex>,
    pub event_index: EventIndex,
}

impl EventContext {
    pub fn new(thread_root_message_index: Option<MessageIndex>, event_index: EventIndex) -> (r: EventContext)
        ensures
            r.thread_root_message_index == thread_root_message_index,
            r.event_index == event_index,
    {
        EventContext { thread_root_message_index, event_index }
    }
}

#[derive(Clone, Copy, Debug, PartialEq, Eq)]
pub struct BotAdded {
    pub user_id: UserId,
    pub added_by: UserId,
}

#[derive(Clone, Copy, Debug, PartialEq, Eq)]
pub struct BotRemoved {
    pub user_id: UserId,
    pub removed_by: UserId,
}

#[derive(Clone, Copy, Debug, PartialEq, Eq)]
pub struct BotUpdated {
    pub user_id: UserId,
    pub updated_by: UserId,
}

/// The type of an event as readers see it; none for an empty or unreadable entry.
pub open spec fn chat_event_type(e: ChatEvent) -> Option<ChatEventType> {
    match e {
        ChatEvent::Message(_) => Some(ChatEventType::Message),
        ChatEvent::GroupChatCreated(_) => Some(ChatEventType::Created),
        ChatEvent::DirectChatCreated(_) => Some(ChatEventType::Created),
        ChatEvent::GroupNameChanged(_) => Some(ChatEventType::NameChanged),
        ChatEvent::GroupDescriptionChanged(_) => Some(ChatEventType::DescriptionChanged),
        ChatEvent::GroupRulesChanged(_) => Some(ChatEventType::RulesChanged),
        ChatEvent::AvatarChanged(_) => Some(ChatEventType::AvatarChanged),
        ChatEvent::ParticipantsAdded(_) => Some(ChatEventType::MembersJoined),
        ChatEvent::ParticipantsRemoved(_) => Some(ChatEventType::MembersLeft),
        ChatEvent::ParticipantJoined(_) => Some(ChatEventType::MembersJoined),
        ChatEvent::ParticipantLeft(_) => Some(ChatEventType::MembersLeft),
        ChatEvent::RoleChanged(_) => Some(ChatEventType::RoleChanged),
        ChatEvent::UsersBlocked(_) => Some(ChatEventType::UsersBlocked),
        ChatEvent::UsersUnblocked(_) => Some(ChatEventType::UsersUnblocked),
        ChatEvent::MessagePinned(_) => Some(ChatEventType::MessagePinned),
        ChatEvent::MessageUnpinned(_) => Some(ChatEventType::MessageUnpinned),
        ChatEvent::PermissionsChanged(_) => Some(ChatEventType::PermissionsChanged),
        ChatEvent::GroupVisibilityChanged(_) => Some(ChatEventType::VisibilityChanged),
        ChatEvent::GroupInviteCodeChanged(_) => Some(ChatEventType::InviteCodeChanged),
        ChatEvent::ChatFrozen(_) => Some(ChatEventType::Frozen),
        ChatEvent::ChatUnfrozen(_) => Some(ChatEventType::Unfrozen),
        ChatEvent::EventsTimeToLiveUpdated(_) => Some(ChatEventType::DisappearingMessagesUpdated),
        ChatEvent::GroupGateUpdated(_) => Some(ChatEventType::GateUpdated),
        ChatEvent::UsersInvited(_) => Some(ChatEventType::UsersInvited),
        ChatEvent::MembersAddedToDefaultChannel(_) => Some(ChatEventType::MembersJoined),
        ChatEvent::ExternalUrlUpdated(_) => Some(ChatEventType::ExternalUrlUpdated),
        ChatEvent::BotAdded(_) => Some(ChatEventType::BotAdded),
        ChatEvent::BotRemoved(_) => Some(ChatEventType::BotRemoved),
        ChatEvent::BotUpdated(_) => Some(ChatEventType::BotUpdated),
        ChatEvent::FailedToDeserialize => None,
        ChatEvent::Empty => None,
    }
}

impl ChatEvent {
    pub fn event_type(&self) -> (r: Option<ChatEventType>)
        ensures
            r == chat_event_type(*self),
    {
        match self {
            ChatEvent::Message(_) => Some(ChatEventType::Message),
            ChatEvent::GroupChatCreated(_) => Some(ChatEventType::Created),
            ChatEvent::DirectChatCreated(_) => Some(ChatEventType::Created),
            ChatEvent::GroupNameChanged(_) => Some(ChatEventType::NameChanged),
            ChatEvent::GroupDescriptionChanged(_) => Some(ChatEventType::DescriptionChanged),
            ChatEvent::GroupRulesChanged(_) => Some(ChatEventType::RulesChanged),
            ChatEvent::AvatarChanged(_) => Some(ChatEventType::AvatarChanged),
            ChatEvent::ParticipantsAdded(_) => Some(ChatEventType::MembersJoined),
            ChatEvent::ParticipantsRemoved(_) => Some(ChatEventType::MembersLeft),
            ChatEvent::ParticipantJoined(_) => Some(ChatEventType::MembersJoined),
            ChatEvent::ParticipantLeft(_) => Some(ChatEventType::MembersLeft),
            ChatEvent::RoleChanged(_) => Some(ChatEventType::RoleChanged),
            ChatEvent::UsersBlocked(_) => Some(ChatEventType::UsersBlocked),
            ChatEvent::UsersUnblocked(_) => Some(ChatEventType::UsersUnblocked),
            ChatEvent::MessagePinned(_) => Some(ChatEventType::MessagePinned),
            ChatEvent::MessageUnpinned(_) => Some(ChatEventType::MessageUnpinned),
            ChatEvent::PermissionsChanged(_) => Some(ChatEventType::PermissionsChanged),
            ChatEvent::GroupVisibilityChanged(_) => Some(ChatEventType::VisibilityChanged),
            ChatEvent::GroupInviteCodeChanged(_) => Some(ChatEventType::InviteCodeChanged),
            ChatEvent::ChatFrozen(_) => Some(ChatEventType::Frozen),
            ChatEvent::ChatUnfrozen(_) => Some(ChatEventType::Unfrozen),
            ChatEvent::EventsTimeToLiveUpdated(_) => Some(ChatEventType::DisappearingMessagesUpdated),
            ChatEvent::GroupGateUpdated(_) => Some(ChatEventType::GateUpdated),
            ChatEvent::UsersInvited(_) => Some(ChatEventType::UsersInvited),
            ChatEvent::MembersAddedToDefaultChannel(_) => Some(ChatEventType::MembersJoined),
            ChatEvent::ExternalUrlUpdated(_) => Some(ChatEventType::ExternalUrlUpdated),
            ChatEvent::BotAdded(_) => Some(ChatEventType::BotAdded),
            ChatEvent::BotRemoved(_) => Some(ChatEventType::BotRemoved),
            ChatEvent::BotUpdated(_) => Some(ChatEventType::BotUpdated),
            ChatEvent::FailedToDeserialize => None,
            ChatEvent::Empty => None,
        }
    }
}

} // verus!
