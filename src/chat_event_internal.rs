use crate::events::{
    AccessGateConfig, AvatarChanged, BotAdded, BotMessageContext, BotRemoved, BotUpdated, Chat, ChatEvent,
    ChatEventCategory, ChatEventType, DirectChatCreated, EventsTimeToLiveUpdated, ExternalUrlUpdated, GroupCreated,
    GroupDescriptionChanged, GroupFrozen, GroupGateUpdated, GroupInviteCodeChanged, GroupNameChanged,
    GroupRulesChanged, GroupUnfrozen, GroupVisibilityChanged, MemberJoinedInternal, MemberLeft, MembersAdded,
    MemberJoined, MembersAddedToDefaultChannel, MembersRemoved, Message, MessagePinned, MessageUnpinned, PermissionsChanged,
    ReplyContext, RoleChanged, SenderContext, ThreadSummary, Tip, UsersBlocked, UsersInvited, UsersUnblocked,
};
use crate::ids::{ChannelId, ChatId, CommunityId, EventIndex, MessageId, MessageIndex, TimestampMillis, UserId};
use crate::message_content::{content_type_of, DeletedBy, MessageContent};
use crate::metrics::{content_metric_key, metric_key_for, ChatMetricsInternal, MetricKey};
use std::collections::HashSet;
use vstd::prelude::*;

verus! {

broadcast use vstd::std_specs::hash::group_hash_axioms;

/// An event with its place in the log, as the log stores it.
#[derive(Clone, Debug)]
pub struct EventWrapperInternal<T> {
    pub index: EventIndex,
    pub timestamp: TimestampMillis,
    pub expires_at: Option<TimestampMillis>,
    pub event: T,
}

/// Every kind of event that a chat's log stores.
#[derive(Debug)]
pub enum ChatEventInternal {
    Message(Box<MessageInternal>),
    DirectChatCreated(DirectChatCreated),
    GroupChatCreated(Box<GroupCreated>),
    GroupNameChanged(Box<GroupNameChanged>),
    GroupDescriptionChanged(Box<GroupDescriptionChanged>),
    GroupRulesChanged(Box<GroupRulesChanged>),
    AvatarChanged(Box<AvatarChanged>),
    ParticipantsAdded(Box<MembersAdded>),
    ParticipantsRemoved(Box<MembersRemoved>),
    ParticipantJoined(Box<MemberJoinedInternal>),
    ParticipantLeft(Box<MemberLeft>),
    RoleChanged(Box<RoleChanged>),
    UsersBlocked(Box<UsersBlocked>),
    UsersUnblocked(Box<UsersUnblocked>),
    MessagePinned(Box<MessagePinned>),
    MessageUnpinned(Box<MessageUnpinned>),
    PermissionsChanged(Box<PermissionsChanged>),
    GroupVisibilityChanged(Box<GroupVisibilityChanged>),
    GroupInviteCodeChanged(Box<GroupInviteCodeChanged>),
    ChatFrozen(Box<GroupFrozen>),
    ChatUnfrozen(Box<GroupUnfrozen>),
    EventsTimeToLiveUpdated(Box<EventsTimeToLiveUpdated>),
    GroupGateUpdated(Box<GroupGateUpdatedInternal>),
    UsersInvited(Box<UsersInvited>),
    MembersAddedToPublicChannel(Box<MembersAddedToPublicChannelInternal>),
    ExternalUrlUpdated(Box<ExternalUrlUpdated>),
    BotAdded(Box<BotAdded>),
    BotRemoved(Box<BotRemoved>),
    BotUpdated(Box<BotUpdated>),
    Empty,
    /// Stands for a stored entry that could not be read, so that the entries
    /// after it can still be read.
    FailedToDeserialize,
}

/// The events that a direct chat may hold: messages, its creation, and changes
/// of its time to live.
pub open spec fn valid_for_direct_chat(e: ChatEventInternal) -> bool {
    e is Message || e is DirectChatCreated || e is EventsTimeToLiveUpdated
}

/// The events that a group or channel may hold: all but a direct chat's creation
/// and the placeholders.
pub open spec fn valid_for_group(e: ChatEventInternal) -> bool {
    !(e is DirectChatCreated || e is Empty || e is FailedToDeserialize)
}

/// The events that a thread may hold: messages only.
pub open spec fn valid_for_thread(e: ChatEventInternal) -> bool {
    e is Message
}

/// The category of a stored event; none for the placeholders.
pub open spec fn internal_event_category(e: ChatEventInternal) -> Option<ChatEventCategory> {
    match e {
        ChatEventInternal::Message(_) => Some(ChatEventCategory::Message),
        ChatEventInternal::GroupChatCreated(_)
        | ChatEventInternal::DirectChatCreated(_)
        | ChatEventInternal::GroupNameChanged(_)
        | ChatEventInternal::GroupDescriptionChanged(_)
        | ChatEventInternal::GroupRulesChanged(_)
        | ChatEventInternal::AvatarChanged(_)
        | ChatEventInternal::MessagePinned(_)
        | ChatEventInternal::MessageUnpinned(_)
        | ChatEventInternal::PermissionsChanged(_)
        | ChatEventInternal::GroupVisibilityChanged(_)
        | ChatEventInternal::GroupInviteCodeChanged(_)
        | ChatEventInternal::ChatFrozen(_)
        | ChatEventInternal::ChatUnfrozen(_)
        | ChatEventInternal::EventsTimeToLiveUpdated(_)
        | ChatEventInternal::GroupGateUpdated(_)
        | ChatEventInternal::ExternalUrlUpdated(_) => Some(ChatEventCategory::Details),
        ChatEventInternal::ParticipantsAdded(_)
        | ChatEventInternal::ParticipantsRemoved(_)
        | ChatEventInternal::ParticipantJoined(_)
        | ChatEventInternal::ParticipantLeft(_)
        | ChatEventInternal::RoleChanged(_)
        | ChatEventInternal::UsersBlocked(_)
        | ChatEventInternal::UsersUnblocked(_)
        | ChatEventInternal::UsersInvited(_)
        | ChatEventInternal::MembersAddedToPublicChannel(_)
        | ChatEventInternal::BotAdded(_)
        | ChatEventInternal::BotRemoved(_)
        | ChatEventInternal::BotUpdated(_) => Some(ChatEventCategory::Membership),
        ChatEventInternal::Empty | ChatEventInternal::FailedToDeserialize => None,
    }
}

/// The type of a stored event; none for the placeholders.
pub open spec fn internal_event_type(e: ChatEventInternal) -> Option<ChatEventType> {
    match e {
        ChatEventInternal::Message(_) => Some(ChatEventType::Message),
        ChatEventInternal::GroupChatCreated(_) => Some(ChatEventType::Created),
        ChatEventInternal::DirectChatCreated(_) => Some(ChatEventType::Created),
        ChatEventInternal::GroupNameChanged(_) => Some(ChatEventType::NameChanged),
        ChatEventInternal::GroupDescriptionChanged(_) => Some(ChatEventType::DescriptionChanged),
        ChatEventInternal::GroupRulesChanged(_) => Some(ChatEventType::RulesChanged),
        ChatEventInternal::AvatarChanged(_) => Some(ChatEventType::AvatarChanged),
        ChatEventInternal::ParticipantsAdded(_) => Some(ChatEventType::MembersJoined),
        ChatEventInternal::ParticipantsRemoved(_) => Some(ChatEventType::MembersLeft),
        ChatEventInternal::ParticipantJoined(_) => Some(ChatEventType::MembersJoined),
        ChatEventInternal::ParticipantLeft(_) => Some(ChatEventType::MembersLeft),
        ChatEventInternal::RoleChanged(_) => Some(ChatEventType::RoleChanged),
        ChatEventInternal::UsersBlocked(_) => Some(ChatEventType::UsersBlocked),
        ChatEventInternal::UsersUnblocked(_) => Some(ChatEventType::UsersUnblocked),
        ChatEventInternal::MessagePinned(_) => Some(ChatEventType::MessagePinned),
        ChatEventInternal::MessageUnpinned(_) => Some(ChatEventType::MessageUnpinned),
        ChatEventInternal::PermissionsChanged(_) => Some(ChatEventType::PermissionsChanged),
        ChatEventInternal::GroupVisibilityChanged(_) => Some(ChatEventType::VisibilityChanged),
        ChatEventInternal::GroupInviteCodeChanged(_) => Some(ChatEventType::InviteCodeChanged),
        ChatEventInternal::ChatFrozen(_) => Some(ChatEventType::Frozen),
        ChatEventInternal::ChatUnfrozen(_) => Some(ChatEventType::Unfrozen),
        ChatEventInternal::EventsTimeToLiveUpdated(_) => Some(ChatEventType::DisappearingMessagesUpdated),
        ChatEventInternal::GroupGateUpdated(_) => Some(ChatEventType::GateUpdated),
        ChatEventInternal::UsersInvited(_) => Some(ChatEventType::UsersInvited),
        ChatEventInternal::MembersAddedToPublicChannel(_) => Some(ChatEventType::MembersJoined),
        ChatEventInternal::ExternalUrlUpdated(_) => Some(ChatEventType::ExternalUrlUpdated),
        ChatEventInternal::BotAdded(_) => Some(ChatEventType::BotAdded),
        ChatEventInternal::BotRemoved(_) => Some(ChatEventType::BotRemoved),
        ChatEventInternal::BotUpdated(_) => Some(ChatEventType::BotUpdated),
        ChatEventInternal::FailedToDeserialize => None,
        ChatEventInternal::Empty => None,
    }
}

impl ChatEventInternal {
    pub fn is_valid_for_direct_chat(&self) -> (r: bool)
        ensures
            r == valid_for_direct_chat(*self),
    {
        match self {
            ChatEventInternal::Message(_)
            | ChatEventInternal::DirectChatCreated(_)
            | ChatEventInternal::EventsTimeToLiveUpdated(_) => true,
            _ => false,
        }
    }

    pub fn is_valid_for_group(&self) -> (r: bool)
        ensures
            r == valid_for_group(*self),
    {
        match self {
            ChatEventInternal::DirectChatCreated(_)
            | ChatEventInternal::Empty
            | ChatEventInternal::FailedToDeserialize => false,
            _ => true,
        }
    }

    pub fn is_valid_for_thread(&self) -> (r: bool)
        ensures
            r == valid_for_thread(*self),
    {
        self.is_message()
    }

    pub fn is_message(&self) -> (r: bool)
        ensures
            r == self is Message,
    {
        match self {
            ChatEventInternal::Message(_) => true,
            _ => false,
        }
    }

    pub fn as_message(&self) -> (r: Option<&MessageInternal>)
        ensures
            match *self {
                ChatEventInternal::Message(m) => r == Some(&*m),
                _ => r is None,
            },
    {
        match self {
            ChatEventInternal::Message(m) => Some(&**m),
            _ => None,
        }
    }

    pub fn as_message_mut(&mut self) -> (r: Option<&mut MessageInternal>)
        ensures
            match *old(self) {
                ChatEventInternal::Message(m) => r is Some && *r->0 == *m && match *final(self) {
                    ChatEventInternal::Message(n) => *n == *final(r->0),
                    _ => false,
                },
                _ => r is None && *final(self) == *old(self),
            },
    {
        match self {
            ChatEventInternal::Message(m) => Some(&mut **m),
            _ => None,
        }
    }

    pub fn into_message(self) -> (r: Option<MessageInternal>)
        ensures
            match self {
                ChatEventInternal::Message(m) => r == Some(*m),
                _ => r is None,
            },
    {
        match self {
            ChatEventInternal::Message(m) => Some(*m),
            _ => None,
        }
    }

    /// The event as a reader sees it; messages are hydrated for the given reader.
    pub fn chat_event(self, my_user_id: Option<UserId>) -> (r: ChatEvent)
        ensures
            crate::events::chat_event_type(r) == internal_event_type(self),
            public_event(self, my_user_id, r),
    {
        match self {
            ChatEventInternal::DirectChatCreated(d) => ChatEvent::DirectChatCreated(d),
            ChatEventInternal::Message(m) => ChatEvent::Message(Box::new(m.hydrate(my_user_id))),
            ChatEventInternal::GroupChatCreated(g) => ChatEvent::GroupChatCreated(*g),
            ChatEventInternal::GroupNameChanged(g) => ChatEvent::GroupNameChanged(*g),
            ChatEventInternal::GroupDescriptionChanged(g) => ChatEvent::GroupDescriptionChanged(*g),
            ChatEventInternal::GroupRulesChanged(g) => ChatEvent::GroupRulesChanged(*g),
            ChatEventInternal::AvatarChanged(g) => ChatEvent::AvatarChanged(*g),
            ChatEventInternal::ParticipantsAdded(p) => ChatEvent::ParticipantsAdded(*p),
            ChatEventInternal::ParticipantsRemoved(p) => ChatEvent::ParticipantsRemoved(*p),
            ChatEventInternal::ParticipantJoined(p) => ChatEvent::ParticipantJoined(p.hydrate()),
            ChatEventInternal::ParticipantLeft(p) => ChatEvent::ParticipantLeft(*p),
            ChatEventInternal::RoleChanged(r) => ChatEvent::RoleChanged(*r),
            ChatEventInternal::UsersBlocked(u) => ChatEvent::UsersBlocked(*u),
            ChatEventInternal::UsersUnblocked(u) => ChatEvent::UsersUnblocked(*u),
            ChatEventInternal::MessagePinned(p) => ChatEvent::MessagePinned(*p),
            ChatEventInternal::PermissionsChanged(p) => ChatEvent::PermissionsChanged(*p),
            ChatEventInternal::MessageUnpinned(u) => ChatEvent::MessageUnpinned(*u),
            ChatEventInternal::GroupVisibilityChanged(g) => ChatEvent::GroupVisibilityChanged(*g),
            ChatEventInternal::GroupInviteCodeChanged(g) => ChatEvent::GroupInviteCodeChanged(*g),
            ChatEventInternal::ChatFrozen(f) => ChatEvent::ChatFrozen(*f),
            ChatEventInternal::ChatUnfrozen(u) => ChatEvent::ChatUnfrozen(*u),
            ChatEventInternal::EventsTimeToLiveUpdated(u) => ChatEvent::EventsTimeToLiveUpdated(*u),
            ChatEventInternal::GroupGateUpdated(g) => ChatEvent::GroupGateUpdated(g.hydrate()),
            ChatEventInternal::UsersInvited(e) => ChatEvent::UsersInvited(*e),
            ChatEventInternal::MembersAddedToPublicChannel(m) => ChatEvent::MembersAddedToDefaultChannel(
                m.summarize(),
            ),
            ChatEventInternal::ExternalUrlUpdated(u) => ChatEvent::ExternalUrlUpdated(*u),
            ChatEventInternal::Empty => ChatEvent::Empty,
            ChatEventInternal::FailedToDeserialize => ChatEvent::FailedToDeserialize,
            ChatEventInternal::BotAdded(e) => ChatEvent::BotAdded(e),
            ChatEventInternal::BotRemoved(e) => ChatEvent::BotRemoved(e),
            ChatEventInternal::BotUpdated(e) => ChatEvent::BotUpdated(e),
        }
    }

    pub fn event_category(&self) -> (r: Option<ChatEventCategory>)
        ensures
            r == internal_event_category(*self),
    {
        match self {
            ChatEventInternal::Message(_) => Some(ChatEventCategory::Message),
            ChatEventInternal::GroupChatCreated(_)
            | ChatEventInternal::DirectChatCreated(_)
            | ChatEventInternal::GroupNameChanged(_)
            | ChatEventInternal::GroupDescriptionChanged(_)
            | ChatEventInternal::GroupRulesChanged(_)
            | ChatEventInternal::AvatarChanged(_)
            | ChatEventInternal::MessagePinned(_)
            | ChatEventInternal::MessageUnpinned(_)
            | ChatEventInternal::PermissionsChanged(_)
            | ChatEventInternal::GroupVisibilityChanged(_)
            | ChatEventInternal::GroupInviteCodeChanged(_)
            | ChatEventInternal::ChatFrozen(_)
            | ChatEventInternal::ChatUnfrozen(_)
            | ChatEventInternal::EventsTimeToLiveUpdated(_)
            | ChatEventInternal::GroupGateUpdated(_)
            | ChatEventInternal::ExternalUrlUpdated(_) => Some(ChatEventCategory::Details),
            ChatEventInternal::ParticipantsAdded(_)
            | ChatEventInternal::ParticipantsRemoved(_)
            | ChatEventInternal::ParticipantJoined(_)
            | ChatEventInternal::ParticipantLeft(_)
            | ChatEventInternal::RoleChanged(_)
            | ChatEventInternal::UsersBlocked(_)
            | ChatEventInternal::UsersUnblocked(_)
            | ChatEventInternal::UsersInvited(_)
            | ChatEventInternal::MembersAddedToPublicChannel(_)
            | ChatEventInternal::BotAdded(_)
            | ChatEventInternal::BotRemoved(_)
            | ChatEventInternal::BotUpdated(_) => Some(ChatEventCategory::Membership),
            ChatEventInternal::Empty | ChatEventInternal::FailedToDeserialize => None,
        }
    }

    pub fn event_type(&self) -> (r: Option<ChatEventType>)
        ensures
            r == internal_event_type(*self),
    {
        match self {
            ChatEventInternal::Message(_) => Some(ChatEventType::Message),
            ChatEventInternal::GroupChatCreated(_) => Some(ChatEventType::Created),
            ChatEventInternal::DirectChatCreated(_) => Some(ChatEventType::Created),
            ChatEventInternal::GroupNameChanged(_) => Some(ChatEventType::NameChanged),
            ChatEventInternal::GroupDescriptionChanged(_) => Some(ChatEventType::DescriptionChanged),
            ChatEventInternal::GroupRulesChanged(_) => Some(ChatEventType::RulesChanged),
            ChatEventInternal::AvatarChanged(_) => Some(ChatEventType::AvatarChanged),
            ChatEventInternal::ParticipantsAdded(_) => Some(ChatEventType::MembersJoined),
            ChatEventInternal::ParticipantsRemoved(_) => Some(ChatEventType::MembersLeft),
            ChatEventInternal::ParticipantJoined(_) => Some(ChatEventType::MembersJoined),
            ChatEventInternal::ParticipantLeft(_) => Some(ChatEventType::MembersLeft),
            ChatEventInternal::RoleChanged(_) => Some(ChatEventType::RoleChanged),
            ChatEventInternal::UsersBlocked(_) => Some(ChatEventType::UsersBlocked),
            ChatEventInternal::UsersUnblocked(_) => Some(ChatEventType::UsersUnblocked),
            ChatEventInternal::MessagePinned(_) => Some(ChatEventType::MessagePinned),
            ChatEventInternal::MessageUnpinned(_) => Some(ChatEventType::MessageUnpinned),
            ChatEventInternal::PermissionsChanged(_) => Some(ChatEventType::PermissionsChanged),
            ChatEventInternal::GroupVisibilityChanged(_) => Some(ChatEventType::VisibilityChanged),
            ChatEventInternal::GroupInviteCodeChanged(_) => Some(ChatEventType::InviteCodeChanged),
            ChatEventInternal::ChatFrozen(_) => Some(ChatEventType::Frozen),
            ChatEventInternal::ChatUnfrozen(_) => Some(ChatEventType::Unfrozen),
            ChatEventInternal::EventsTimeToLiveUpdated(_) => Some(ChatEventType::DisappearingMessagesUpdated),
            ChatEventInternal::GroupGateUpdated(_) => Some(ChatEventType::GateUpdated),
            ChatEventInternal::UsersInvited(_) => Some(ChatEventType::UsersInvited),
            ChatEventInternal::MembersAddedToPublicChannel(_) => Some(ChatEventType::MembersJoined),
            ChatEventInternal::ExternalUrlUpdated(_) => Some(ChatEventType::ExternalUrlUpdated),
            ChatEventInternal::BotAdded(_) => Some(ChatEventType::BotAdded),
            ChatEventInternal::BotRemoved(_) => Some(ChatEventType::BotRemoved),
            ChatEventInternal::BotUpdated(_) => Some(ChatEventType::BotUpdated),
            ChatEventInternal::FailedToDeserialize => None,
            ChatEventInternal::Empty => None,
        }
    }
}

/// `r` is the stored event `e` as the reader `viewer` sees it: a message
/// hydrated for the reader, members added to a public channel as their count,
/// and every other event with its own payload under the variant of the same
/// name.
pub open spec fn public_event(e: ChatEventInternal, viewer: Option<UserId>, r: ChatEvent) -> bool {
    match e {
        ChatEventInternal::Message(m) => match r {
            ChatEvent::Message(h) => hydrated(*m, *h, viewer),
            _ => false,
        },
        ChatEventInternal::DirectChatCreated(d) => r == ChatEvent::DirectChatCreated(d),
        ChatEventInternal::GroupChatCreated(g) => r == ChatEvent::GroupChatCreated(*g),
        ChatEventInternal::GroupNameChanged(g) => r == ChatEvent::GroupNameChanged(*g),
        ChatEventInternal::GroupDescriptionChanged(g) => r == ChatEvent::GroupDescriptionChanged(*g),
        ChatEventInternal::GroupRulesChanged(g) => r == ChatEvent::GroupRulesChanged(*g),
        ChatEventInternal::AvatarChanged(g) => r == ChatEvent::AvatarChanged(*g),
        ChatEventInternal::ParticipantsAdded(p) => r == ChatEvent::ParticipantsAdded(*p),
        ChatEventInternal::ParticipantsRemoved(p) => r == ChatEvent::ParticipantsRemoved(*p),
        ChatEventInternal::ParticipantJoined(p) => r == ChatEvent::ParticipantJoined(
            MemberJoined { user_id: p.user_id, invited_by: p.invited_by },
        ),
        ChatEventInternal::ParticipantLeft(p) => r == ChatEvent::ParticipantLeft(*p),
        ChatEventInternal::RoleChanged(x) => r == ChatEvent::RoleChanged(*x),
        ChatEventInternal::UsersBlocked(u) => r == ChatEvent::UsersBlocked(*u),
        ChatEventInternal::UsersUnblocked(u) => r == ChatEvent::UsersUnblocked(*u),
        ChatEventInternal::MessagePinned(p) => r == ChatEvent::MessagePinned(*p),
        ChatEventInternal::MessageUnpinned(u) => r == ChatEvent::MessageUnpinned(*u),
        ChatEventInternal::PermissionsChanged(p) => r == ChatEvent::PermissionsChanged(*p),
        ChatEventInternal::GroupVisibilityChanged(g) => r == ChatEvent::GroupVisibilityChanged(*g),
        ChatEventInternal::GroupInviteCodeChanged(g) => r == ChatEvent::GroupInviteCodeChanged(*g),
        ChatEventInternal::ChatFrozen(f) => r == ChatEvent::ChatFrozen(*f),
        ChatEventInternal::ChatUnfrozen(u) => r == ChatEvent::ChatUnfrozen(*u),
        ChatEventInternal::EventsTimeToLiveUpdated(u) => r == ChatEvent::EventsTimeToLiveUpdated(*u),
        ChatEventInternal::GroupGateUpdated(g) => r == ChatEvent::GroupGateUpdated(
            GroupGateUpdated { updated_by: g.updated_by, new_gate_config: g.new_gate_config },
        ),
        ChatEventInternal::UsersInvited(x) => r == ChatEvent::UsersInvited(*x),
        ChatEventInternal::MembersAddedToPublicChannel(m) => r == ChatEvent::MembersAddedToDefaultChannel(
            MembersAddedToDefaultChannel {
                count: if m.user_ids@.len() <= u32::MAX {
                    m.user_ids@.len() as u32
                } else {
                    u32::MAX
                },
            },
        ),
        ChatEventInternal::ExternalUrlUpdated(u) => r == ChatEvent::ExternalUrlUpdated(*u),
        ChatEventInternal::BotAdded(x) => r == ChatEvent::BotAdded(x),
        ChatEventInternal::BotRemoved(x) => r == ChatEvent::BotRemoved(x),
        ChatEventInternal::BotUpdated(x) => r == ChatEvent::BotUpdated(x),
        ChatEventInternal::Empty => r == ChatEvent::Empty,
        ChatEventInternal::FailedToDeserialize => r == ChatEvent::FailedToDeserialize,
    }
}

/// One entry of a page read from the log.
pub enum EventOrExpiredRangeInternal {
    Event(EventWrapperInternal<ChatEventInternal>),
    ExpiredEventRange(EventIndex, EventIndex),
    Unauthorized(EventIndex),
}

impl EventOrExpiredRangeInternal {
    pub fn into_event(self) -> (r: Option<EventWrapperInternal<ChatEventInternal>>)
        ensures
            match self {
                EventOrExpiredRangeInternal::Event(e) => r == Some(e),
                _ => r is None,
            },
    {
        match self {
            EventOrExpiredRangeInternal::Event(event) => Some(event),
            _ => None,
        }
    }

    pub fn is_message(&self) -> (r: bool)
        ensures
            r == match *self {
                EventOrExpiredRangeInternal::Event(e) => e.event is Message,
                _ => false,
            },
    {
        match self {
            EventOrExpiredRangeInternal::Event(event) => event.event.is_message(),
            _ => false,
        }
    }
}

/// A message as the log stores it.
#[derive(Debug)]
pub struct MessageInternal {
    pub message_index: MessageIndex,
    pub message_id: MessageId,
    pub sender: UserId,
    pub content: MessageContent,
    pub sender_context: Option<SenderContext>,
    pub replies_to: Option<ReplyContextInternal>,
    pub reactions: Vec<(String, Vec<UserId>)>,
    pub tips: Vec<Tip>,
    pub last_edited: Option<TimestampMillis>,
    pub deleted_by: Option<DeletedByInternal>,
    pub thread_summary: Option<ThreadSummaryInternal>,
    pub forwarded: bool,
    pub block_level_markdown: bool,
}

/// What a message adds to a counter: one for its kind of content, one for
/// being a reply.
pub open spec fn message_metric(m: MessageInternal, k: MetricKey) -> nat {
    (if k == MetricKey::Replies && m.replies_to is Some {
        1nat
    } else {
        0nat
    }) + (if content_metric_key(content_type_of(m.content)) == Some(k) {
        1nat
    } else {
        0nat
    })
}

/// `h` is the message `m` as the reader `viewer` sees it: a deleted message
/// shows its tombstone in place of its content.
pub open spec fn hydrated(m: MessageInternal, h: Message, viewer: Option<UserId>) -> bool {
    &&& h.message_index == m.message_index
    &&& h.message_id == m.message_id
    &&& h.sender == m.sender
    &&& h.sender_context == m.sender_context
    &&& match m.deleted_by {
        Some(d) => h.content == MessageContent::Deleted(
            DeletedBy { deleted_by: d.deleted_by, timestamp: d.timestamp },
        ),
        None => h.content == m.content,
    }
    &&& h.replies_to == match m.replies_to {
        Some(r) => Some(r.hydrated()),
        None => None,
    }
    &&& h.reactions == m.reactions
    &&& h.tips == m.tips
    &&& h.edited == m.last_edited is Some
    &&& h.forwarded == m.forwarded
    &&& h.block_level_markdown == m.block_level_markdown
    &&& match (m.thread_summary, h.thread_summary) {
        (Some(t), Some(s)) => s.participant_ids@ == t.participants@ && s.followed_by_me == (
        viewer is Some && t.followers@.contains(viewer->0)) && s.reply_count == t.reply_count
            && s.latest_event_index == t.latest_event_index && s.latest_event_timestamp
            == t.latest_event_timestamp,
        (None, None) => true,
        _ => false,
    }
}

impl MessageInternal {
    /// The message as the given reader sees it.
    pub fn hydrate(self, my_user_id: Option<UserId>) -> (r: Message)
        ensures
            hydrated(self, r, my_user_id),
    {
        let content = match &self.deleted_by {
            Some(deleted_by) => MessageContent::Deleted(deleted_by.hydrate()),
            None => self.content,
        };
        let replies_to = match &self.replies_to {
            Some(r) => Some(r.hydrate()),
            None => None,
        };
        let thread_summary = match &self.thread_summary {
            Some(t) => Some(t.hydrate(my_user_id)),
            None => None,
        };
        Message {
            message_index: self.message_index,
            message_id: self.message_id,
            sender: self.sender,
            content,
            sender_context: self.sender_context,
            replies_to,
            reactions: self.reactions,
            tips: self.tips,
            edited: self.last_edited.is_some(),
            forwarded: self.forwarded,
            thread_summary,
            block_level_markdown: self.block_level_markdown,
        }
    }

    /// Counts this message into the chat's counters.
    pub fn add_to_metrics(&self, metrics: &mut ChatMetricsInternal)
        requires
            forall|k: MetricKey| old(metrics).value(k) < u64::MAX,
        ensures
            forall|k: MetricKey| #[trigger]
                final(metrics).value(k) == old(metrics).value(k) + message_metric(*self, k),
    {
        if self.replies_to.is_some() {
            metrics.incr(MetricKey::Replies, 1);
        }
        let t = self.content.content_type();
        proof {
            crate::metrics::lemma_same_type_same_key(t, content_type_of(self.content));
        }
        match metric_key_for(&t) {
            Some(k) => {
                metrics.incr(k, 1);
            },
            None => {},
        }
    }

    /// Takes this message back out of the chat's counters.
    pub fn remove_from_metrics(&self, metrics: &mut ChatMetricsInternal)
        requires
            forall|k: MetricKey| old(metrics).value(k) >= message_metric(*self, k),
        ensures
            forall|k: MetricKey| #[trigger]
                final(metrics).value(k) == old(metrics).value(k) - message_metric(*self, k),
    {
        if self.replies_to.is_some() {
            assert(old(metrics).value(MetricKey::Replies) >= message_metric(*self, MetricKey::Replies));
            metrics.decr(MetricKey::Replies, 1);
        }
        let t = self.content.content_type();
        proof {
            crate::metrics::lemma_same_type_same_key(t, content_type_of(self.content));
        }
        match metric_key_for(&t) {
            Some(k) => {
                assert(old(metrics).value(k) >= message_metric(*self, k));
                metrics.decr(k, 1);
            },
            None => {},
        }
    }

    pub fn bot_context_mut(&mut self) -> (r: Option<&mut BotMessageContext>)
        ensures
            match old(self).sender_context {
                Some(SenderContext::Bot(bc)) => r is Some && *r->0 == bc && final(self).sender_context
                    == Some(SenderContext::Bot(*final(r->0))) && final(self).message_id
                    == old(self).message_id && final(self).content == old(self).content,
                _ => r is None && *final(self) == *old(self),
            },
    {
        match &mut self.sender_context {
            Some(SenderContext::Bot(bc)) => Some(bc),
            _ => None,
        }
    }

    pub fn bot_context(&self) -> (r: Option<&BotMessageContext>)
        ensures
            match self.sender_context {
                Some(SenderContext::Bot(bc)) => r == Some(&bc),
                _ => r is None,
            },
    {
        match &self.sender_context {
            Some(SenderContext::Bot(bc)) => Some(bc),
            _ => None,
        }
    }
}

#[derive(Clone, Copy, Debug, PartialEq, Eq, Structural)]
pub struct DeletedByInternal {
    pub deleted_by: UserId,
    pub timestamp: TimestampMillis,
}

impl DeletedByInternal {
    pub fn hydrate(&self) -> (r: DeletedBy)
        ensures
            r.deleted_by == self.deleted_by,
            r.timestamp == self.timestamp,
    {
        DeletedBy { deleted_by: self.deleted_by, timestamp: self.timestamp }
    }
}

#[derive(Clone, Debug)]
pub struct MembersAddedToPublicChannelInternal {
    pub user_ids: Vec<UserId>,
}

impl MembersAddedToPublicChannelInternal {
    /// The number of members added, as readers see it.
    pub fn summarize(&self) -> (r: MembersAddedToDefaultChannel)
        ensures
            r.count as int == if self.user_ids@.len() <= u32::MAX {
                self.user_ids@.len() as int
            } else {
                u32::MAX as int
            },
    {
        let n = self.user_ids.len();
        let count: u32 = if n <= u32::MAX as usize {
            n as u32
        } else {
            u32::MAX
        };
        MembersAddedToDefaultChannel { count }
    }
}

#[derive(Clone, Debug)]
pub struct GroupGateUpdatedInternal {
    pub updated_by: UserId,
    pub new_gate_config: Option<AccessGateConfig>,
}

impl GroupGateUpdatedInternal {
    pub fn hydrate(self) -> (r: GroupGateUpdated)
        ensures
            r.updated_by == self.updated_by,
            r.new_gate_config == self.new_gate_config,
    {
        GroupGateUpdated { updated_by: self.updated_by, new_gate_config: self.new_gate_config }
    }
}

/// The summary of a thread, kept on its root message.
#[derive(Debug)]
pub struct ThreadSummaryInternal {
    pub participants: Vec<UserId>,
    pub followers: HashSet<UserId>,
    pub reply_count: u32,
    pub latest_event_index: EventIndex,
    pub latest_event_timestamp: TimestampMillis,
}

fn contains_user(v: &Vec<UserId>, u: UserId) -> (r: bool)
    ensures
        r == v@.contains(u),
{
    let mut i: usize = 0;
    while i < v.len()
        invariant
            0 <= i <= v@.len(),
            forall|j: int| 0 <= j < i ==> v@[j] != u,
        decreases v@.len() - i,
    {
        if v[i] == u {
            assert(v@[i as int] == u);
            return true;
        }
        i = i + 1;
    }
    false
}

fn push_if_not_contains(v: &mut Vec<UserId>, u: UserId)
    ensures
        final(v)@ == if old(v)@.contains(u) {
            old(v)@
        } else {
            old(v)@.push(u)
        },
        forall|x: UserId| final(v)@.contains(x) <==> (old(v)@.contains(x) || x == u),
{
    if !contains_user(v, u) {
        v.push(u);
        proof {
            assert forall|x: UserId| v@.contains(x) <==> (old(v)@.contains(x) || x == u) by {
                if old(v)@.contains(x) {
                    let k = choose|k: int| 0 <= k < old(v)@.len() && old(v)@[k] == x;
                    assert(v@[k] == x);
                }
                if x == u {
                    assert(v@[old(v)@.len() as int] == x);
                }
            }
        }
    }
}

fn add_follower(followers: &mut HashSet<UserId>, u: UserId)
    ensures
        final(followers)@ == old(followers)@.insert(u),
        forall|x: UserId| final(followers)@.contains(x) <==> (old(followers)@.contains(x) || x == u),
{
    followers.insert(u);
}

impl ThreadSummaryInternal {
    pub fn hydrate(&self, my_user_id: Option<UserId>) -> (r: ThreadSummary)
        ensures
            r.participant_ids@ == self.participants@,
            r.followed_by_me == (my_user_id is Some && self.followers@.contains(my_user_id->0)),
            r.reply_count == self.reply_count,
            r.latest_event_index == self.latest_event_index,
            r.latest_event_timestamp == self.latest_event_timestamp,
    {
        let followed_by_me = match my_user_id {
            Some(u) => self.followers.contains(&u),
            None => false,
        };
        let participant_ids = self.participants.clone();
        assert(participant_ids@ =~= self.participants@);
        ThreadSummary {
            participant_ids,
            followed_by_me,
            reply_count: self.reply_count,
            latest_event_index: self.latest_event_index,
            latest_event_timestamp: self.latest_event_timestamp,
        }
    }

    /// Records a reply: the sender becomes a participant and a follower, each
    /// mentioned user a follower, and on the first reply the root message's
    /// sender a follower too.
    pub fn mark_message_added(
        &mut self,
        sender: UserId,
        mentioned_users: &Vec<UserId>,
        root_message_sender: UserId,
        latest_event_index: EventIndex,
        now: TimestampMillis,
    )
        requires
            old(self).reply_count < u32::MAX,
        ensures
            final(self).latest_event_index == latest_event_index,
            final(self).latest_event_timestamp == now,
            final(self).reply_count == old(self).reply_count + 1,
            final(self).participants@ == if old(self).participants@.contains(sender) {
                old(self).participants@
            } else {
                old(self).participants@.push(sender)
            },
            forall|u: UserId|
                #[trigger] final(self).followers@.contains(u) <==> (old(self).followers@.contains(u) || u == sender
                    || mentioned_users@.contains(u) || (old(self).reply_count == 0 && u
                    == root_message_sender)),
    {
        self.latest_event_index = latest_event_index;
        self.latest_event_timestamp = now;
        self.reply_count = self.reply_count + 1;
        push_if_not_contains(&mut self.participants, sender);
        let ghost f0 = self.followers@;
        add_follower(&mut self.followers, sender);
        let mut i: usize = 0;
        while i < mentioned_users.len()
            invariant
                0 <= i <= mentioned_users@.len(),
                self.latest_event_index == latest_event_index,
                self.latest_event_timestamp == now,
                self.reply_count == old(self).reply_count + 1,
                self.participants@ == if old(self).participants@.contains(sender) {
                    old(self).participants@
                } else {
                    old(self).participants@.push(sender)
                },
                f0 == old(self).followers@,
                forall|u: UserId|
                    self.followers@.contains(u) <==> (f0.contains(u) || u == sender
                        || mentioned_users@.subrange(0, i as int).contains(u)),
            decreases mentioned_users@.len() - i,
        {
            let ghost before = self.followers@;
            assert(forall|u: UserId|
                before.contains(u) <==> (f0.contains(u) || u == sender || mentioned_users@.subrange(
                    0,
                    i as int,
                ).contains(u)));
            add_follower(&mut self.followers, mentioned_users[i]);
            proof {
                let pre = mentioned_users@.subrange(0, i as int);
                let x = mentioned_users@[i as int];
                assert(mentioned_users@.subrange(0, i + 1) =~= pre.push(x));
                assert forall|u: UserId| pre.push(x).contains(u) <==> (pre.contains(u) || u == x) by {
                    if pre.contains(u) {
                        let k = choose|k: int| 0 <= k < pre.len() && pre[k] == u;
                        assert(pre.push(x)[k] == u);
                    }
                    if u == x {
                        assert(pre.push(x)[pre.len() as int] == u);
                    }
                    if pre.push(x).contains(u) && u != x {
                        let k = choose|k: int| 0 <= k < pre.len() + 1 && pre.push(x)[k] == u;
                        assert(pre[k] == u);
                    }
                }
                assert forall|u: UserId|
                    self.followers@.contains(u) <==> (f0.contains(u) || u == sender
                        || mentioned_users@.subrange(0, i + 1).contains(u)) by {
                    assert(self.followers@.contains(u) <==> (before.contains(u) || u == x));
                    assert(before.contains(u) <==> (f0.contains(u) || u == sender || pre.contains(u)));
                }
            }
            i = i + 1;
        }
        proof {
            assert(mentioned_users@.subrange(0, i as int) =~= mentioned_users@);
        }
        let is_first_message = self.reply_count == 1;
        if is_first_message {
            add_follower(&mut self.followers, root_message_sender);
        }
    }
}

/// The chat that a reply points into, as the log stores it.
#[derive(Clone, Copy, Debug, PartialEq, Eq, Structural, Hash)]
pub enum ChatInternal {
    Direct(ChatId),
    Group(ChatId),
    Channel(CommunityId, ChannelId),
}

impl ChatInternal {
    pub open spec fn hydrated(self) -> Chat {
        match self {
            ChatInternal::Direct(c) => Chat::Direct(c),
            ChatInternal::Group(c) => Chat::Group(c),
            ChatInternal::Channel(cm, ch) => Chat::Channel(cm, ch),
        }
    }

    pub fn hydrate(&self) -> (r: Chat)
        ensures
            r == self.hydrated(),
    {
        match self {
            ChatInternal::Direct(c) => Chat::Direct(*c),
            ChatInternal::Group(c) => Chat::Group(*c),
            ChatInternal::Channel(cm, ch) => Chat::Channel(*cm, *ch),
        }
    }
}

/// What a message replies to, as the log stores it.
#[derive(Clone, Copy, Debug, PartialEq, Eq)]
pub struct ReplyContextInternal {
    pub chat_if_other: Option<(ChatInternal, Option<MessageIndex>)>,
    pub event_index: EventIndex,
}

impl ReplyContextInternal {
    pub open spec fn hydrated(self) -> ReplyContext {
        ReplyContext {
            chat_if_other: match self.chat_if_other {
                Some((c, t)) => Some((c.hydrated(), t)),
                None => None,
            },
            event_index: self.event_index,
        }
    }

    pub fn hydrate(&self) -> (r: ReplyContext)
        ensures
            r == self.hydrated(),
    {
        let chat_if_other = match &self.chat_if_other {
            Some((c, t)) => Some((c.hydrate(), *t)),
            None => None,
        };
        ReplyContext { chat_if_other, event_index: self.event_index }
    }
}

} // verus!
