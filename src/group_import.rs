use crate::ids::{ChannelId, ChatId, EventIndex, Milliseconds, TimestampMillis, UserId};
use vstd::prelude::*;

verus! {

/// How long to wait before asking again after a failed export call.
pub const IMPORT_RETRY_DELAY: Milliseconds = 10000;

/// What the next export call of a group asks for: the group's core data from a
/// byte offset, or its events or members after the last one received.
#[derive(Clone, Copy, Debug, PartialEq, Eq, Structural)]
pub enum GroupToImportAction {
    Core(u64),
    Events(ChannelId, Option<EventIndex>),
    Members(ChannelId, Option<UserId>),
}

#[derive(Clone, Copy, Debug, PartialEq, Eq, Structural)]
pub struct GroupToImport {
    pub group_id: ChatId,
    pub action: GroupToImportAction,
}

/// The stage that an import has reached.
#[derive(Clone, Copy, Debug, PartialEq, Eq, Structural)]
pub enum ImportPhase {
    Core,
    Events,
    Members,
    Complete,
}

/// What an export call brought back.
#[derive(Clone, Copy, Debug, PartialEq, Eq, Structural)]
pub enum ImportOutcome {
    /// A page of the core data, with the total size of that data.
    CoreBatch(u64, u64),
    /// A batch of events, with the last index received, and whether it was the last batch.
    EventsBatch(Option<EventIndex>, bool),
    /// A batch of members, with the last member received, and whether it was the last batch.
    MembersBatch(Option<UserId>, bool),
    /// The group refused the call for good.
    ContractViolated,
    /// The call failed and may be tried again.
    Failed,
}

/// What the importing community does after an export call.
#[derive(Clone, Copy, Debug, PartialEq, Eq, Structural)]
pub enum ImportStep {
    /// Ask for the next batch.
    Continue,
    /// The core data is in: build the channel from it.
    FinalizeCore,
    /// Every part is in.
    Complete,
    /// Stop importing the group.
    Abandon,
    /// Ask again at the given time.
    RetryAt(TimestampMillis),
}

/// One group being imported into a community: how far each part has come.
#[derive(Clone, Copy, Debug, PartialEq, Eq, Structural)]
pub struct GroupBeingImported {
    pub group_id: ChatId,
    pub channel_id: ChannelId,
    pub phase: ImportPhase,
    pub bytes_received: u64,
    pub events_after: Option<EventIndex>,
    pub members_after: Option<UserId>,
    pub in_flight: bool,
    pub not_before: TimestampMillis,
    pub error_count: u32,
}

impl GroupBeingImported {
    /// An import that has received nothing yet.
    pub fn new(group_id: ChatId, channel_id: ChannelId) -> (r: GroupBeingImported)
        ensures
            r == (GroupBeingImported {
                group_id,
                channel_id,
                phase: ImportPhase::Core,
                bytes_received: 0,
                events_after: None,
                members_after: None,
                in_flight: false,
                not_before: 0,
                error_count: 0,
            }),
    {
        GroupBeingImported {
            group_id,
            channel_id,
            phase: ImportPhase::Core,
            bytes_received: 0,
            events_after: None,
            members_after: None,
            in_flight: false,
            not_before: 0,
            error_count: 0,
        }
    }

    /// The call that the import's stage asks for; none once it is complete.
    pub open spec fn action_spec(self) -> Option<GroupToImportAction> {
        match self.phase {
            ImportPhase::Core => Some(GroupToImportAction::Core(self.bytes_received)),
            ImportPhase::Events => Some(GroupToImportAction::Events(self.channel_id, self.events_after)),
            ImportPhase::Members => Some(GroupToImportAction::Members(self.channel_id, self.members_after)),
            ImportPhase::Complete => None,
        }
    }

    /// The import may start a call at `now`: it has a call to make, none is in
    /// flight, and it is not waiting to retry.
    pub open spec fn ready(self, now: TimestampMillis) -> bool {
        self.action_spec() is Some && !self.in_flight && self.not_before <= now
    }

    pub fn next_action(&self) -> (r: Option<GroupToImportAction>)
        ensures
            r == self.action_spec(),
    {
        match self.phase {
            ImportPhase::Core => Some(GroupToImportAction::Core(self.bytes_received)),
            ImportPhase::Events => Some(GroupToImportAction::Events(self.channel_id, self.events_after)),
            ImportPhase::Members => Some(GroupToImportAction::Members(self.channel_id, self.members_after)),
            ImportPhase::Complete => None,
        }
    }

    /// Records what a call brought back at `now` and says what follows. A page
    /// of core data moves the offset on, and the last page ends that stage; a
    /// batch of events or members moves on from its last item, and the last batch
    /// ends that stage. A failure is retried later; a refusal ends the import.
    pub fn apply(&mut self, outcome: ImportOutcome, now: TimestampMillis) -> (r: ImportStep)
        ensures
            final(self).group_id == old(self).group_id,
            final(self).channel_id == old(self).channel_id,
            !final(self).in_flight,
            match outcome {
                ImportOutcome::CoreBatch(len, total) => if old(self).phase is Core {
                    let received = if old(self).bytes_received + len <= u64::MAX {
                        (old(self).bytes_received + len) as u64
                    } else {
                        u64::MAX
                    };
                    &&& final(self).bytes_received == received
                    &&& if received >= total {
                        final(self).phase is Events && r == ImportStep::FinalizeCore
                    } else {
                        final(self).phase is Core && r == ImportStep::Continue
                    }
                } else {
                    r == ImportStep::Continue && final(self).phase == old(self).phase
                },
                ImportOutcome::EventsBatch(up_to, finished) => if old(self).phase is Events {
                    &&& final(self).events_after == if up_to is Some {
                        up_to
                    } else {
                        old(self).events_after
                    }
                    &&& final(self).phase == if finished {
                        ImportPhase::Members
                    } else {
                        ImportPhase::Events
                    }
                    &&& r == ImportStep::Continue
                } else {
                    r == ImportStep::Continue && final(self).phase == old(self).phase
                },
                ImportOutcome::MembersBatch(up_to, finished) => if old(self).phase is Members {
                    &&& final(self).members_after == if up_to is Some {
                        up_to
                    } else {
                        old(self).members_after
                    }
                    &&& if finished {
                        final(self).phase is Complete && r == ImportStep::Complete
                    } else {
                        final(self).phase is Members && r == ImportStep::Continue
                    }
                } else {
                    r == ImportStep::Continue && final(self).phase == old(self).phase
                },
                ImportOutcome::ContractViolated => r == ImportStep::Abandon && final(self).phase
                    == old(self).phase,
                ImportOutcome::Failed => {
                    let at = if now + IMPORT_RETRY_DELAY <= u64::MAX {
                        (now + IMPORT_RETRY_DELAY) as u64
                    } else {
                        u64::MAX
                    };
                    &&& r == ImportStep::RetryAt(at)
                    &&& final(self).not_before == at
                    &&& final(self).phase == old(self).phase
                    &&& final(self).error_count as int == if old(self).error_count < u32::MAX {
                        old(self).error_count + 1
                    } else {
                        u32::MAX as int
                    }
                },
            },
    {
        self.in_flight = false;
        match outcome {
            ImportOutcome::CoreBatch(len, total) => {
                if let ImportPhase::Core = self.phase {
                    self.bytes_received = self.bytes_received.saturating_add(len);
                    if self.bytes_received >= total {
                        self.phase = ImportPhase::Events;
                        ImportStep::FinalizeCore
                    } else {
                        ImportStep::Continue
                    }
                } else {
                    ImportStep::Continue
                }
            },
            ImportOutcome::EventsBatch(up_to, finished) => {
                if let ImportPhase::Events = self.phase {
                    if up_to.is_some() {
                        self.events_after = up_to;
                    }
                    if finished {
                        self.phase = ImportPhase::Members;
                    }
                }
                ImportStep::Continue
            },
            ImportOutcome::MembersBatch(up_to, finished) => {
                if let ImportPhase::Members = self.phase {
                    if up_to.is_some() {
                        self.members_after = up_to;
                    }
                    if finished {
                        self.phase = ImportPhase::Complete;
                        return ImportStep::Complete;
                    }
                }
                ImportStep::Continue
            },
            ImportOutcome::ContractViolated => ImportStep::Abandon,
            ImportOutcome::Failed => {
                let at = now.saturating_add(IMPORT_RETRY_DELAY);
                self.not_before = at;
                self.error_count = self.error_count.saturating_add(1);
                ImportStep::RetryAt(at)
            },
        }
    }
}

/// The calls to make at `now`: one for each import that is ready, in order;
/// each of those is marked as having a call in flight, and the others stay as
/// they were.
pub fn next_batch(groups: &mut Vec<GroupBeingImported>, now: TimestampMillis) -> (r: Vec<GroupToImport>)
    ensures
        final(groups)@.len() == old(groups)@.len(),
        forall|i: int|
            0 <= i < old(groups)@.len() ==> #[trigger] final(groups)@[i] == if old(groups)@[i].ready(now) {
                GroupBeingImported { in_flight: true, ..old(groups)@[i] }
            } else {
                old(groups)@[i]
            },
        r@ == ready_calls(old(groups)@, now),
{
    let ghost start = groups@;
    let mut batch: Vec<GroupToImport> = Vec::new();
    let mut i: usize = 0;
    while i < groups.len()
        invariant
            0 <= i <= groups@.len(),
            groups@.len() == start.len(),
            start == old(groups)@,
            forall|j: int|
                0 <= j < start.len() ==> #[trigger] groups@[j] == if j < i && start[j].ready(now) {
                    GroupBeingImported { in_flight: true, ..start[j] }
                } else {
                    start[j]
                },
            batch@ == ready_calls(start.subrange(0, i as int), now),
        decreases start.len() - i,
    {
        let g = groups[i];
        proof {
            assert(start.subrange(0, i + 1).drop_last() =~= start.subrange(0, i as int));
        }
        match g.next_action() {
            Some(action) => {
                if !g.in_flight && g.not_before <= now {
                    batch.push(GroupToImport { group_id: g.group_id, action });
                    groups.set(i, GroupBeingImported { in_flight: true, ..g });
                }
            },
            None => {},
        }
        i = i + 1;
    }
    proof {
        assert(start.subrange(0, start.len() as int) =~= start);
    }
    batch
}

/// The calls that the imports ready at `now` ask for, in order.
pub open spec fn ready_calls(gs: Seq<GroupBeingImported>, now: TimestampMillis) -> Seq<GroupToImport>
    decreases gs.len(),
{
    if gs.len() == 0 {
        Seq::empty()
    } else {
        let rest = ready_calls(gs.drop_last(), now);
        let g = gs.last();
        if g.ready(now) {
            rest.push(GroupToImport { group_id: g.group_id, action: g.action_spec()->0 })
        } else {
            rest
        }
    }
}

} // verus!
