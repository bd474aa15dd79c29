use crate::ids::{ChannelId, TimestampMillis, UserId};
use crate::jobs::JoinMembersToPublicChannelJob;
use vstd::prelude::*;

verus! {

/// A query may be answered by a replica only once the replica's clock has
/// reached the latest update the caller knows of; else the replica's time is
/// returned so that the caller can retry elsewhere.
pub fn check_replica_up_to_date(latest_known_update: Option<TimestampMillis>, now: TimestampMillis) -> (r: Result<
    (),
    TimestampMillis,
>)
    ensures
        r == match latest_known_update {
            Some(ts) => if now < ts {
                Err(now)
            } else {
                Ok(())
            },
            None => Ok(()),
        },
{
    if let Some(ts) = latest_known_update {
        if now < ts {
            return Err(now);
        }
    }
    Ok(())
}

/// After a group was imported as a channel, every community member joins it,
/// where the channel is public and has no condition to join.
pub fn add_community_members_to_channel_if_public(
    channel_id: ChannelId,
    is_public: bool,
    has_gate: bool,
    community_members: Vec<UserId>,
) -> (r: Option<JoinMembersToPublicChannelJob>)
    ensures
        match r {
            Some(job) => is_public && !has_gate && job.channel_id == channel_id && job.members@
                == community_members@,
            None => !(is_public && !has_gate),
        },
{
    if is_public && !has_gate {
        Some(JoinMembersToPublicChannelJob { channel_id, members: community_members })
    } else {
        None
    }
}

} // verus!
