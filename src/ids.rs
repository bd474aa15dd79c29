use vstd::prelude::*;

verus! {

/// Position of an event in the log of one chat or thread.
pub type EventIndex = u32;

/// Position of a message among the messages of one chat or thread.
pub type MessageIndex = u32;

/// Identifier of a message, chosen by its sender.
pub type MessageId = u128;

/// A user, identified by the number of its principal.
pub type UserId = u64;

/// A canister (a service), identified by the number of its principal.
pub type CanisterId = u64;

pub type ChatId = u64;

pub type CommunityId = u64;

pub type ChannelId = u32;

/// Milliseconds since the epoch.
pub type TimestampMillis = u64;

/// A duration in milliseconds.
pub type Milliseconds = u64;

} // verus!
