use crate::events::{AccessGate, AccessGateConfig};
use crate::ids::{CommunityId, Milliseconds, TimestampMillis, UserId};
use vstd::prelude::*;
use vstd::string::StrSliceExecFns;

verus! {

/// How long a community counts as active after it was last marked so.
pub const MARK_ACTIVE_DURATION: Milliseconds = 600000;

/// The moderation flags of a community, as bits.
#[derive(Clone, Copy, Debug, Default, PartialEq, Eq, Structural)]
pub struct ModerationFlags {
    pub bits: u32,
}

#[derive(Clone, Copy, Debug, PartialEq, Eq, Structural)]
pub struct PublicCommunityActivity {
    pub timestamp: TimestampMillis,
    pub member_count: u32,
    pub channel_count: u32,
}

impl PublicCommunityActivity {
    pub fn new(channel_count: u32, now: TimestampMillis) -> (r: PublicCommunityActivity)
        ensures
            r == (PublicCommunityActivity { timestamp: now, member_count: 0, channel_count }),
    {
        PublicCommunityActivity { timestamp: now, member_count: 0, channel_count }
    }
}

#[derive(Clone, Debug)]
pub struct FrozenCommunityInfo {
    pub timestamp: TimestampMillis,
    pub frozen_by: UserId,
    pub reason: Option<String>,
}

/// A public community as search results show it.
#[derive(Clone, Debug)]
pub struct CommunityMatch {
    pub id: CommunityId,
    pub score: u32,
    pub name: String,
    pub description: String,
    pub avatar_id: Option<u128>,
    pub banner_id: Option<u128>,
    pub member_count: u32,
    pub channel_count: u32,
    pub gate_config: Option<AccessGateConfig>,
    pub moderation_flags: u32,
    pub primary_language: String,
    pub verified: bool,
}

#[derive(Clone, Copy, Debug, PartialEq, Eq, Structural)]
pub enum UpdateCommunityResult {
    Success,
    CommunityNotFound,
}

/// The code of a character, an ASCII letter taken in lower case.
pub open spec fn ascii_lower(c: char) -> u32 {
    if 'A' <= c && c <= 'Z' {
        ((c as u32) + 32) as u32
    } else {
        c as u32
    }
}

/// Two texts are equal when ASCII letters are compared without case.
pub open spec fn eq_ignore_ascii_case(a: Seq<char>, b: Seq<char>) -> bool {
    a.len() == b.len() && forall|i: int| 0 <= i < a.len() ==> ascii_lower(a[i]) == ascii_lower(b[i])
}

fn lower_char(c: char) -> (r: u32)
    ensures
        r == ascii_lower(c),
{
    if 'A' <= c && c <= 'Z' {
        (c as u32) + 32
    } else {
        c as u32
    }
}

fn same_ignoring_ascii_case(a: &str, b: &str) -> (r: bool)
    ensures
        r == eq_ignore_ascii_case(a@, b@),
{
    let n = a.unicode_len();
    if n != b.unicode_len() {
        return false;
    }
    let mut i: usize = 0;
    while i < n
        invariant
            0 <= i <= n,
            n == a@.len(),
            n == b@.len(),
            forall|j: int| 0 <= j < i ==> ascii_lower(a@[j]) == ascii_lower(b@[j]),
        decreases n - i,
    {
        if lower_char(a.get_char(i)) != lower_char(b.get_char(i)) {
            return false;
        }
        i = i + 1;
    }
    true
}

/// `info` is a community just made public, as `PublicCommunityInfo::new` makes it.
pub open spec fn fresh_info(
    info: PublicCommunityInfo,
    id: CommunityId,
    name: Seq<char>,
    description: Seq<char>,
    avatar_id: Option<u128>,
    banner_id: Option<u128>,
    gate_config: Option<AccessGateConfig>,
    primary_language: Seq<char>,
    channel_count: u32,
    now: TimestampMillis,
) -> bool {
    &&& info.id_spec() == id
    &&& info.name_spec() == name
    &&& info.description_spec() == description
    &&& info.avatar_id_spec() == avatar_id
    &&& info.banner_id_spec() == banner_id
    &&& info.gate_config_spec() == gate_config
    &&& info.primary_language_spec() == primary_language
    &&& info.created_spec() == now
    &&& info.marked_active_until_spec() as int == if now + MARK_ACTIVE_DURATION <= u64::MAX {
        now + MARK_ACTIVE_DURATION
    } else {
        u64::MAX as int
    }
    &&& info.activity_spec() == (PublicCommunityActivity { timestamp: now, member_count: 0, channel_count })
    &&& info.hotness_score_spec() == 0
    &&& info.frozen_spec() is None
    &&& info.moderation_flags_spec() == (ModerationFlags { bits: 0 })
    &&& !info.verified_spec()
}

/// A public community as the index keeps it.
#[derive(Clone, Debug)]
pub struct PublicCommunityInfo {
    id: CommunityId,
    created: TimestampMillis,
    marked_active_until: TimestampMillis,
    frozen: Option<FrozenCommunityInfo>,
    name: String,
    description: String,
    avatar_id: Option<u128>,
    banner_id: Option<u128>,
    activity: PublicCommunityActivity,
    hotness_score: u32,
    gate_config: Option<AccessGateConfig>,
    moderation_flags: ModerationFlags,
    primary_language: String,
    verified: bool,
}

impl PublicCommunityInfo {
    pub closed spec fn id_spec(&self) -> CommunityId {
        self.id
    }

    pub closed spec fn name_spec(&self) -> Seq<char> {
        self.name@
    }

    pub closed spec fn description_spec(&self) -> Seq<char> {
        self.description@
    }

    pub closed spec fn created_spec(&self) -> TimestampMillis {
        self.created
    }

    pub closed spec fn marked_active_until_spec(&self) -> TimestampMillis {
        self.marked_active_until
    }

    pub closed spec fn activity_spec(&self) -> PublicCommunityActivity {
        self.activity
    }

    pub closed spec fn frozen_spec(&self) -> Option<FrozenCommunityInfo> {
        self.frozen
    }

    pub closed spec fn verified_spec(&self) -> bool {
        self.verified
    }

    pub closed spec fn hotness_score_spec(&self) -> u32 {
        self.hotness_score
    }

    pub closed spec fn moderation_flags_spec(&self) -> ModerationFlags {
        self.moderation_flags
    }

    pub closed spec fn gate_config_spec(&self) -> Option<AccessGateConfig> {
        self.gate_config
    }

    pub closed spec fn avatar_id_spec(&self) -> Option<u128> {
        self.avatar_id
    }

    pub closed spec fn banner_id_spec(&self) -> Option<u128> {
        self.banner_id
    }

    pub closed spec fn primary_language_spec(&self) -> Seq<char> {
        self.primary_language@
    }

    /// A community just made public: active for a while from `now`, not frozen,
    /// not verified, with no score, no members counted and no flags.
    pub fn new(
        id: CommunityId,
        name: String,
        description: String,
        avatar_id: Option<u128>,
        banner_id: Option<u128>,
        gate_config: Option<AccessGateConfig>,
        primary_language: String,
        channel_count: u32,
        now: TimestampMillis,
    ) -> (r: PublicCommunityInfo)
        ensures
            r.id_spec() == id,
            r.name_spec() == name@,
            r.description_spec() == description@,
            r.avatar_id_spec() == avatar_id,
            r.banner_id_spec() == banner_id,
            r.gate_config_spec() == gate_config,
            r.primary_language_spec() == primary_language@,
            r.created_spec() == now,
            r.marked_active_until_spec() as int == if now + MARK_ACTIVE_DURATION <= u64::MAX {
                now + MARK_ACTIVE_DURATION
            } else {
                u64::MAX as int
            },
            r.activity_spec() == (PublicCommunityActivity { timestamp: now, member_count: 0, channel_count }),
            r.hotness_score_spec() == 0,
            r.frozen_spec() is None,
            r.moderation_flags_spec() == (ModerationFlags { bits: 0 }),
            !r.verified_spec(),
            fresh_info(
                r,
                id,
                name@,
                description@,
                avatar_id,
                banner_id,
                gate_config,
                primary_language@,
                channel_count,
                now,
            ),
    {
        PublicCommunityInfo {
            id,
            name,
            description,
            avatar_id,
            banner_id,
            gate_config,
            created: now,
            marked_active_until: now.saturating_add(MARK_ACTIVE_DURATION),
            activity: PublicCommunityActivity::new(channel_count, now),
            hotness_score: 0,
            frozen: None,
            moderation_flags: ModerationFlags { bits: 0 },
            primary_language,
            verified: false,
        }
    }

    pub fn id(&self) -> (r: CommunityId)
        ensures
            r == self.id_spec(),
    {
        self.id
    }

    pub fn name(&self) -> (r: &str)
        ensures
            r@ == self.name_spec(),
    {
        self.name.as_str()
    }

    pub fn created(&self) -> (r: TimestampMillis)
        ensures
            r == self.created_spec(),
    {
        self.created
    }

    pub fn marked_active_until(&self) -> (r: TimestampMillis)
        ensures
            r == self.marked_active_until_spec(),
    {
        self.marked_active_until
    }

    pub fn activity(&self) -> (r: &PublicCommunityActivity)
        ensures
            *r == self.activity_spec(),
    {
        &self.activity
    }

    pub fn mark_active(&mut self, until: TimestampMillis, activity: PublicCommunityActivity)
        ensures
            final(self).marked_active_until_spec() == until,
            final(self).activity_spec() == activity,
            final(self).id_spec() == old(self).id_spec(),
            final(self).name_spec() == old(self).name_spec(),
            final(self).frozen_spec() == old(self).frozen_spec(),
            final(self).verified_spec() == old(self).verified_spec(),
    {
        self.marked_active_until = until;
        self.activity = activity;
    }

    pub fn has_been_active_since(&self, since: TimestampMillis) -> (r: bool)
        ensures
            r == (self.marked_active_until_spec() > since),
    {
        self.marked_active_until > since
    }

    pub fn is_frozen(&self) -> (r: bool)
        ensures
            r == self.frozen_spec() is Some,
    {
        self.frozen.is_some()
    }

    pub fn frozen_info(&self) -> (r: Option<&FrozenCommunityInfo>)
        ensures
            r == match self.frozen_spec() {
                Some(f) => Some(&f),
                None => None,
            },
    {
        match &self.frozen {
            Some(f) => Some(f),
            None => None,
        }
    }

    pub fn verified(&self) -> (r: bool)
        ensures
            r == self.verified_spec(),
    {
        self.verified
    }

    pub fn set_name(&mut self, name: String)
        ensures
            final(self).name_spec() == name@,
            final(self).id_spec() == old(self).id_spec(),
            final(self).verified_spec() == old(self).verified_spec(),
    {
        self.name = name;
    }

    pub fn set_verified(&mut self, verified: bool)
        ensures
            final(self).verified_spec() == verified,
            final(self).id_spec() == old(self).id_spec(),
            final(self).name_spec() == old(self).name_spec(),
    {
        self.verified = verified;
    }

    pub fn set_frozen(&mut self, info: Option<FrozenCommunityInfo>)
        ensures
            final(self).frozen_spec() == info,
            final(self).id_spec() == old(self).id_spec(),
            final(self).name_spec() == old(self).name_spec(),
    {
        self.frozen = info;
    }

    pub fn set_hotness_score(&mut self, hotness_score: u32)
        ensures
            final(self).hotness_score_spec() == hotness_score,
            final(self).id_spec() == old(self).id_spec(),
            final(self).name_spec() == old(self).name_spec(),
    {
        self.hotness_score = hotness_score;
    }

    pub fn moderation_flags(&self) -> (r: &ModerationFlags)
        ensures
            *r == self.moderation_flags_spec(),
    {
        &self.moderation_flags
    }

    pub fn set_moderation_flags(&mut self, flags: ModerationFlags)
        ensures
            final(self).moderation_flags_spec() == flags,
            final(self).id_spec() == old(self).id_spec(),
            final(self).name_spec() == old(self).name_spec(),
    {
        self.moderation_flags = flags;
    }

    /// The condition to join, if there is one.
    pub fn gate(&self) -> (r: Option<&AccessGate>)
        ensures
            r == match self.gate_config_spec() {
                Some(gc) => Some(&gc.gate),
                None => None,
            },
    {
        match &self.gate_config {
            Some(gc) => Some(&gc.gate),
            None => None,
        }
    }

    /// The community as a search result with the given score.
    pub fn to_match(&self, score: u32) -> (r: CommunityMatch)
        ensures
            r.id == self.id_spec(),
            r.score == score,
            r.name@ == self.name_spec(),
            r.description@ == self.description_spec(),
            r.avatar_id == self.avatar_id_spec(),
            r.banner_id == self.banner_id_spec(),
            r.member_count == self.activity_spec().member_count,
            r.channel_count == self.activity_spec().channel_count,
            r.moderation_flags == self.moderation_flags_spec().bits,
            r.primary_language@ == self.primary_language_spec(),
            r.verified == self.verified_spec(),
    {
        CommunityMatch {
            id: self.id,
            score,
            name: self.name.clone(),
            description: self.description.clone(),
            avatar_id: self.avatar_id,
            banner_id: self.banner_id,
            member_count: self.activity.member_count,
            channel_count: self.activity.channel_count,
            gate_config: self.gate_config.clone(),
            moderation_flags: self.moderation_flags.bits,
            primary_language: self.primary_language.clone(),
            verified: self.verified,
        }
    }
}

/// The public communities of the index, at most one for each id. They are
/// held in a list, in the order in which they were added, so that one can be
/// handed out for change in place (`get_mut`) and all can be listed (`iter`)
/// with what each call does stated exactly.
pub struct PublicCommunities {
    communities: Vec<PublicCommunityInfo>,
}

impl PublicCommunities {
    /// The communities held, in the order in which they were added.
    pub closed spec fn entries(&self) -> Seq<PublicCommunityInfo> {
        self.communities@
    }

    pub open spec fn wf(&self) -> bool {
        forall|i: int, j: int|
            0 <= i < j < self.entries().len() ==> #[trigger] self.entries()[i].id_spec()
                != #[trigger] self.entries()[j].id_spec()
    }

    /// The index holds a community with the given id.
    pub open spec fn holds(&self, id: CommunityId) -> bool {
        exists|i: int| 0 <= i < self.entries().len() && #[trigger] self.entries()[i].id_spec() == id
    }

    pub fn new() -> (r: PublicCommunities)
        ensures
            r.wf(),
            r.entries().len() == 0,
    {
        PublicCommunities { communities: Vec::new() }
    }

    pub fn len(&self) -> (r: usize)
        ensures
            r == self.entries().len(),
    {
        self.communities.len()
    }

    fn position(&self, community_id: CommunityId) -> (r: Option<usize>)
        ensures
            match r {
                Some(i) => i < self.entries().len() && self.entries()[i as int].id_spec() == community_id,
                None => !self.holds(community_id),
            },
    {
        let mut i: usize = 0;
        while i < self.communities.len()
            invariant
                0 <= i <= self.communities@.len(),
                forall|j: int| 0 <= j < i ==> self.communities@[j].id_spec() != community_id,
            decreases self.communities@.len() - i,
        {
            if self.communities[i].id() == community_id {
                return Some(i);
            }
            i = i + 1;
        }
        None
    }

    pub fn get(&self, community_id: &CommunityId) -> (r: Option<&PublicCommunityInfo>)
        ensures
            match r {
                Some(c) => c.id_spec() == *community_id && self.entries().contains(*c),
                None => !self.holds(*community_id),
            },
    {
        match self.position(*community_id) {
            Some(i) => Some(&self.communities[i]),
            None => None,
        }
    }

    pub fn get_mut(&mut self, community_id: &CommunityId) -> (r: Option<&mut PublicCommunityInfo>)
        requires
            old(self).wf(),
        ensures
            match r {
                Some(c) => exists|i: int|
                    0 <= i < old(self).entries().len() && old(self).entries()[i] == *c
                        && c.id_spec() == *community_id && (final(c).id_spec() == c.id_spec()
                        ==> final(self).entries() == old(self).entries().update(i, *final(c))),
                None => !old(self).holds(*community_id) && final(self).entries() == old(self).entries(),
            },
    {
        match self.position(*community_id) {
            Some(i) => Some(&mut self.communities[i]),
            None => None,
        }
    }

    /// Adds a community, or replaces the one with the same id.
    pub fn add(
        &mut self,
        community_id: CommunityId,
        name: String,
        description: String,
        avatar_id: Option<u128>,
        banner_id: Option<u128>,
        gate_config: Option<AccessGateConfig>,
        primary_language: String,
        channel_count: u32,
        created: TimestampMillis,
    )
        requires
            old(self).wf(),
        ensures
            final(self).wf(),
            final(self).holds(community_id),
            forall|id: CommunityId| id != community_id ==> (final(self).holds(id) <==> old(self).holds(id)),
            final(self).entries().len() == old(self).entries().len() + if old(self).holds(community_id) {
                0int
            } else {
                1int
            },
            old(self).holds(community_id) ==> exists|p: int|
                0 <= p < old(self).entries().len() && old(self).entries()[p].id_spec() == community_id
                    && final(self).entries() == old(self).entries().update(p, final(self).entries()[p])
                    && fresh_info(
                    #[trigger] final(self).entries()[p],
                    community_id,
                    name@,
                    description@,
                    avatar_id,
                    banner_id,
                    gate_config,
                    primary_language@,
                    channel_count,
                    created,
                ),
            !old(self).holds(community_id) ==> final(self).entries() == old(self).entries().push(
                final(self).entries().last(),
            ) && fresh_info(
                final(self).entries().last(),
                community_id,
                name@,
                description@,
                avatar_id,
                banner_id,
                gate_config,
                primary_language@,
                channel_count,
                created,
            ),
    {
        let ghost name_v = name@;
        let ghost description_v = description@;
        let ghost gate_v = gate_config;
        let ghost language_v = primary_language@;
        let info = PublicCommunityInfo::new(
            community_id,
            name,
            description,
            avatar_id,
            banner_id,
            gate_config,
            primary_language,
            channel_count,
            created,
        );
        let ghost before = self.communities@;
        let ghost fresh = info;
        assert(fresh_info(
            fresh,
            community_id,
            name_v,
            description_v,
            avatar_id,
            banner_id,
            gate_v,
            language_v,
            channel_count,
            created,
        ));
        match self.position(community_id) {
            Some(i) => {
                self.communities.set(i, info);
                proof {
                    assert(old(self).entries()[i as int].id_spec() == community_id);
                    assert(old(self).holds(community_id));
                    assert(self.entries() == old(self).entries().update(i as int, fresh));
                    assert(self.entries()[i as int] == fresh);
                    assert(self.communities@[i as int].id_spec() == community_id);
                    assert forall|a: int, b: int|
                        0 <= a < b < self.entries().len() implies #[trigger] self.entries()[a].id_spec()
                            != #[trigger] self.entries()[b].id_spec() by {
                        assert(self.entries()[a].id_spec() == before[a].id_spec());
                        assert(self.entries()[b].id_spec() == before[b].id_spec());
                    }
                    assert forall|id: CommunityId| id != community_id implies (self.holds(id) <==> old(
                        self,
                    ).holds(id)) by {
                        if self.holds(id) {
                            let k = choose|k: int| 0 <= k < self.entries().len() && #[trigger] self.entries()[k].id_spec() == id;
                            assert(before[k].id_spec() == id);
                        }
                        if old(self).holds(id) {
                            let k = choose|k: int| 0 <= k < before.len() && #[trigger] before[k].id_spec() == id;
                            assert(self.entries()[k].id_spec() == id);
                        }
                    }
                }
            },
            None => {
                self.communities.push(info);
                proof {
                    assert(self.entries() == old(self).entries().push(fresh));
                    assert(!old(self).holds(community_id));
                    assert(self.entries().last() == fresh);
                    assert(before == old(self).entries());
                    assert(self.entries() == before.push(info));
                    assert(self.communities@[before.len() as int].id_spec() == community_id);
                    assert forall|a: int, b: int|
                        0 <= a < b < self.entries().len() implies #[trigger] self.entries()[a].id_spec()
                            != #[trigger] self.entries()[b].id_spec() by {
                        assert(self.entries()[a] == before[a]);
                        if b < before.len() {
                            assert(self.entries()[b] == before[b]);
                            assert(old(self).entries()[a].id_spec() != old(self).entries()[b].id_spec());
                        } else if before[a].id_spec() == community_id {
                            assert(old(self).entries()[a].id_spec() == community_id);
                            assert(old(self).holds(community_id));
                        }
                    }
                    assert forall|id: CommunityId| id != community_id implies (self.holds(id) <==> old(
                        self,
                    ).holds(id)) by {
                        if self.holds(id) {
                            let k = choose|k: int| 0 <= k < self.entries().len() && #[trigger] self.entries()[k].id_spec() == id;
                            assert(k < before.len());
                            assert(self.entries()[k] == before[k]);
                            assert(before[k].id_spec() == id);
                        }
                        if old(self).holds(id) {
                            let k = choose|k: int| 0 <= k < before.len() && #[trigger] before[k].id_spec() == id;
                            assert(self.entries()[k].id_spec() == id);
                        }
                    }
                }
            },
        }
    }

    /// Replaces the details of a community; it stays verified only where its name
    /// is unchanged apart from the case of ASCII letters.
    pub fn update_community(
        &mut self,
        community_id: &CommunityId,
        name: String,
        description: String,
        avatar_id: Option<u128>,
        banner_id: Option<u128>,
        gate_config: Option<AccessGateConfig>,
        primary_language: String,
    ) -> (r: UpdateCommunityResult)
        requires
            old(self).wf(),
        ensures
            final(self).wf(),
            final(self).entries().len() == old(self).entries().len(),
            r == UpdateCommunityResult::CommunityNotFound <==> !old(self).holds(*community_id),
            r == UpdateCommunityResult::CommunityNotFound ==> final(self).entries() == old(self).entries(),
            forall|i: int|
                0 <= i < old(self).entries().len() ==> {
                    let o = old(self).entries()[i];
                    let n = #[trigger] final(self).entries()[i];
                    if o.id_spec() == *community_id {
                        &&& n.id_spec() == o.id_spec()
                        &&& n.name_spec() == name@
                        &&& n.description_spec() == description@
                        &&& n.avatar_id_spec() == avatar_id
                        &&& n.banner_id_spec() == banner_id
                        &&& n.gate_config_spec() == gate_config
                        &&& n.primary_language_spec() == primary_language@
                        &&& n.created_spec() == o.created_spec()
                        &&& n.frozen_spec() == o.frozen_spec()
                        &&& n.marked_active_until_spec() == o.marked_active_until_spec()
                        &&& n.activity_spec() == o.activity_spec()
                        &&& n.hotness_score_spec() == o.hotness_score_spec()
                        &&& n.moderation_flags_spec() == o.moderation_flags_spec()
                        &&& n.verified_spec() == (o.verified_spec() && eq_ignore_ascii_case(
                            name@,
                            o.name_spec(),
                        ))
                    } else {
                        n == o
                    }
                },
    {
        match self.position(*community_id) {
            None => UpdateCommunityResult::CommunityNotFound,
            Some(i) => {
                let ghost before = self.communities@;
                let community = &mut self.communities[i];
                if !same_ignoring_ascii_case(name.as_str(), community.name.as_str()) {
                    community.verified = false;
                }
                community.name = name;
                community.description = description;
                community.avatar_id = avatar_id;
                community.banner_id = banner_id;
                community.gate_config = gate_config;
                community.primary_language = primary_language;
                proof {
                    assert forall|a: int, b: int|
                        0 <= a < b < self.entries().len() implies #[trigger] self.entries()[a].id_spec()
                            != #[trigger] self.entries()[b].id_spec() by {
                        assert(before[a].id_spec() != before[b].id_spec());
                    }
                    assert forall|j: int| 0 <= j < before.len() && j != i implies before[j].id_spec()
                        != *community_id by {
                        if j < i {
                            assert(before[j].id_spec() != before[i as int].id_spec());
                        } else {
                            assert(before[i as int].id_spec() != before[j].id_spec());
                        }
                    }
                }
                UpdateCommunityResult::Success
            },
        }
    }

    /// Removes the community with the given id and hands it back.
    pub fn delete(&mut self, community_id: &CommunityId) -> (r: Option<PublicCommunityInfo>)
        requires
            old(self).wf(),
        ensures
            final(self).wf(),
            match r {
                Some(c) => c.id_spec() == *community_id && exists|i: int|
                    0 <= i < old(self).entries().len() && old(self).entries()[i] == c
                        && final(self).entries() == old(self).entries().remove(i),
                None => !old(self).holds(*community_id) && final(self).entries() == old(self).entries(),
            },
            !final(self).holds(*community_id),
    {
        match self.position(*community_id) {
            Some(i) => {
                let ghost before = self.communities@;
                let c = self.communities.remove(i);
                proof {
                    assert forall|a: int, b: int|
                        0 <= a < b < self.entries().len() implies #[trigger] self.entries()[a].id_spec()
                            != #[trigger] self.entries()[b].id_spec() by {
                        let a0 = if a < i { a } else { a + 1 };
                        let b0 = if b < i { b } else { b + 1 };
                        assert(self.entries()[a] == before[a0]);
                        assert(self.entries()[b] == before[b0]);
                        assert(before[a0].id_spec() != before[b0].id_spec());
                    }
                    if self.holds(*community_id) {
                        let k = choose|k: int| 0 <= k < self.entries().len() && #[trigger] self.entries()[k].id_spec() == *community_id;
                        let k0 = if k < i { k } else { k + 1 };
                        assert(self.entries()[k] == before[k0]);
                        if k0 < i {
                            assert(before[k0].id_spec() != before[i as int].id_spec());
                        } else {
                            assert(before[i as int].id_spec() != before[k0].id_spec());
                        }
                    }
                }
                Some(c)
            },
            None => None,
        }
    }

    /// The communities held, in the order in which they were added.
    pub fn iter(&self) -> (r: &Vec<PublicCommunityInfo>)
        ensures
            r@ == self.entries(),
    {
        &self.communities
    }
}

} // verus!
