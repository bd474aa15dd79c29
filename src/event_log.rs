use crate::chat_event_internal::{
    MessageInternal, ThreadSummaryInternal, message_metric, valid_for_direct_chat, valid_for_group, valid_for_thread, ChatEventInternal,
    EventWrapperInternal,
};
use crate::ids::{EventIndex, MessageId, MessageIndex, Milliseconds, TimestampMillis, UserId};
use crate::message_content::{content_blobs, BlobReference, DeletedBy, MessageContent};
use crate::expiry::{coalesce, in_ranges, ranges_coalesced, strictly_increasing};
use crate::metrics::{ChatMetricsInternal, MetricKey};
use std::collections::{HashMap, HashSet};
use vstd::prelude::*;

verus! {

broadcast use vstd::std_specs::hash::group_hash_axioms;

/// One stored event.
pub type Envelope = EventWrapperInternal<ChatEventInternal>;

/// What a log belongs to, which decides the events it accepts.
#[derive(Clone, Copy, Debug, PartialEq, Eq, Structural)]
pub enum ChatKind {
    Direct,
    Group,
    Thread,
}

/// Why an append was refused.
#[derive(Clone, Copy, Debug, PartialEq, Eq, Structural)]
pub enum AppendError {
    /// The event may not stand in a log of this kind.
    InvalidForChat,
    /// A message with this id is already in the log.
    DuplicateMessageId,
    /// Every event index has been used.
    LogFull,
    /// A counter would pass its largest value.
    CounterFull,
}

/// The events that a log of a kind accepts.
pub open spec fn valid_for_kind(kind: ChatKind, e: ChatEventInternal) -> bool {
    match kind {
        ChatKind::Direct => valid_for_direct_chat(e),
        ChatKind::Group => valid_for_group(e),
        ChatKind::Thread => valid_for_thread(e),
    }
}

/// The message that a slot holds, if it holds one.
pub open spec fn slot_message_id(x: Option<Envelope>) -> Option<MessageId> {
    match x {
        Some(w) => match w.event {
            ChatEventInternal::Message(m) => Some(m.message_id),
            _ => None,
        },
        None => None,
    }
}

pub open spec fn slot_message_index(x: Option<Envelope>) -> MessageIndex {
    match x {
        Some(w) => match w.event {
            ChatEventInternal::Message(m) => m.message_index,
            _ => 0,
        },
        None => 0,
    }
}

/// The event with its message index set, where it is a message.
pub open spec fn with_message_index(e: ChatEventInternal, mi: MessageIndex) -> ChatEventInternal {
    match e {
        ChatEventInternal::Message(m) => ChatEventInternal::Message(
            Box::new(crate::chat_event_internal::MessageInternal { message_index: mi, ..*m }),
        ),
        _ => e,
    }
}

/// The time at which an event appended at `now` with time to live `ttl` expires;
/// a sum past the largest timestamp stays at the largest.
pub open spec fn expiry_of(now: TimestampMillis, ttl: Option<Milliseconds>) -> Option<TimestampMillis> {
    match ttl {
        Some(d) => Some(
            if now + d <= u64::MAX {
                (now + d) as u64
            } else {
                u64::MAX
            },
        ),
        None => None,
    }
}

/// Some slot holds a message with the given id.
pub open spec fn id_in_slots(s: Seq<Option<Envelope>>, id: MessageId) -> bool {
    exists|i: int| 0 <= i < s.len() && slot_message_id(s[i]) == Some(id)
}

/// An imported event is passed over: its index is already taken or passed, it
/// may not stand in this log, or its message id is already held.
pub open spec fn import_skips(s: Seq<Option<Envelope>>, e: Envelope, kind: ChatKind) -> bool {
    ||| (e.index as int) < s.len()
    ||| !valid_for_kind(kind, e.event)
    ||| (e.event is Message && id_in_slots(s, e.event->Message_0.message_id))
}

/// The slots after importing one event: empty slots up to its index, then the
/// event at its own index.
pub open spec fn import_step(s: Seq<Option<Envelope>>, e: Envelope, kind: ChatKind) -> Seq<Option<Envelope>> {
    if import_skips(s, e, kind) {
        s
    } else {
        s + Seq::new((e.index - s.len()) as nat, |i: int| None) + seq![Some(e)]
    }
}

/// The slots after importing a batch, in order.
pub open spec fn import_all(s: Seq<Option<Envelope>>, es: Seq<Envelope>, kind: ChatKind) -> Seq<
    Option<Envelope>,
>
    decreases es.len(),
{
    if es.len() == 0 {
        s
    } else {
        import_step(import_all(s, es.drop_last(), kind), es.last(), kind)
    }
}

/// `t` keeps every slot of `s` and may have more after them.
pub open spec fn extends(t: Seq<Option<Envelope>>, s: Seq<Option<Envelope>>) -> bool {
    s.len() <= t.len() && forall|i: int| 0 <= i < s.len() ==> t[i] == s[i]
}

pub proof fn lemma_import_step_extends(s: Seq<Option<Envelope>>, e: Envelope, kind: ChatKind)
    ensures
        extends(import_step(s, e, kind), s),
        !import_skips(s, e, kind) ==> import_step(s, e, kind).len() == e.index + 1,
{
}

pub proof fn lemma_import_all_extends(s: Seq<Option<Envelope>>, es: Seq<Envelope>, kind: ChatKind)
    ensures
        extends(import_all(s, es, kind), s),
    decreases es.len(),
{
    if es.len() > 0 {
        lemma_import_all_extends(s, es.drop_last(), kind);
        lemma_import_step_extends(import_all(s, es.drop_last(), kind), es.last(), kind);
    }
}

/// A skipped event stays skipped in any log that extends the one that skipped it.
pub proof fn lemma_skips_monotone(
    s: Seq<Option<Envelope>>,
    t: Seq<Option<Envelope>>,
    e: Envelope,
    kind: ChatKind,
)
    requires
        import_skips(s, e, kind),
        extends(t, s),
    ensures
        import_skips(t, e, kind),
{
    if (e.index as int) >= s.len() && valid_for_kind(kind, e.event) {
        let id = e.event->Message_0.message_id;
        let i = choose|i: int| 0 <= i < s.len() && slot_message_id(s[i]) == Some(id);
        assert(t[i] == s[i]);
    }
}

/// After a batch is imported, each of its events would be skipped.
pub proof fn lemma_import_all_skips(s: Seq<Option<Envelope>>, es: Seq<Envelope>, kind: ChatKind)
    ensures
        forall|j: int| 0 <= j < es.len() ==> import_skips(import_all(s, es, kind), #[trigger] es[j], kind),
    decreases es.len(),
{
    if es.len() > 0 {
        let prev = import_all(s, es.drop_last(), kind);
        let u = import_all(s, es, kind);
        lemma_import_all_skips(s, es.drop_last(), kind);
        lemma_import_step_extends(prev, es.last(), kind);
        assert forall|j: int| 0 <= j < es.len() implies import_skips(u, #[trigger] es[j], kind) by {
            if j < es.len() - 1 {
                assert(es.drop_last()[j] == es[j]);
                lemma_skips_monotone(prev, u, es[j], kind);
            } else if import_skips(prev, es.last(), kind) {
                lemma_skips_monotone(prev, u, es[j], kind);
            }
        }
    }
}

/// A batch of events that would all be skipped changes nothing.
pub proof fn lemma_import_all_noop(t: Seq<Option<Envelope>>, es: Seq<Envelope>, kind: ChatKind)
    requires
        forall|j: int| 0 <= j < es.len() ==> import_skips(t, #[trigger] es[j], kind),
    ensures
        import_all(t, es, kind) == t,
    decreases es.len(),
{
    if es.len() > 0 {
        assert forall|j: int| 0 <= j < es.drop_last().len() implies import_skips(
            t,
            #[trigger] es.drop_last()[j],
            kind,
        ) by {
            assert(es.drop_last()[j] == es[j]);
        }
        lemma_import_all_noop(t, es.drop_last(), kind);
        assert(import_skips(t, es[es.len() - 1], kind));
    }
}

/// Importing the same batch a second time leaves the log as the first import
/// left it.
pub proof fn law_import_idempotent(s: Seq<Option<Envelope>>, es: Seq<Envelope>, kind: ChatKind)
    ensures
        import_all(import_all(s, es, kind), es, kind) == import_all(s, es, kind),
{
    lemma_import_all_skips(s, es, kind);
    lemma_import_all_noop(import_all(s, es, kind), es, kind);
}

/// The indices that an ascending read from `p` returns: each held slot in turn,
/// until `me` events or `mm` messages have been taken.
pub open spec fn range_asc(s: Seq<Option<Envelope>>, p: int, me: nat, mm: nat) -> Seq<EventIndex>
    decreases s.len() - p,
{
    if p < 0 || p >= s.len() || me == 0 || mm == 0 {
        Seq::empty()
    } else if s[p] is Some {
        seq![p as EventIndex] + range_asc(
            s,
            p + 1,
            (me - 1) as nat,
            if is_message_slot(s[p]) {
                (mm - 1) as nat
            } else {
                mm
            },
        )
    } else {
        range_asc(s, p + 1, me, mm)
    }
}

/// The indices that a descending read from `p` returns, latest first.
pub open spec fn range_desc(s: Seq<Option<Envelope>>, p: int, me: nat, mm: nat) -> Seq<EventIndex>
    decreases p + 1,
{
    if p < 0 || p >= s.len() || me == 0 || mm == 0 {
        Seq::empty()
    } else if s[p] is Some {
        seq![p as EventIndex] + range_desc(
            s,
            p - 1,
            (me - 1) as nat,
            if is_message_slot(s[p]) {
                (mm - 1) as nat
            } else {
                mm
            },
        )
    } else {
        range_desc(s, p - 1, me, mm)
    }
}

/// The page around `mid`: up to half of the remaining event and message budget
/// before it, `mid` itself, and the rest of the budget after it, in ascending
/// order. Empty where `mid` is not held or a limit is zero.
pub open spec fn window_spec(s: Seq<Option<Envelope>>, mid: int, mm: nat, me: nat) -> Seq<EventIndex> {
    if mid <= 0 || mid >= s.len() || s[mid] is None || mm == 0 || me == 0 {
        Seq::empty()
    } else {
        let e = (me - 1) as nat;
        let m = if is_message_slot(s[mid]) {
            (mm - 1) as nat
        } else {
            mm
        };
        range_desc(s, mid - 1, e / 2, m / 2).reverse() + seq![mid as EventIndex] + range_asc(
            s,
            mid + 1,
            (e - e / 2) as nat,
            (m - m / 2) as nat,
        )
    }
}

/// A window around an event that the log holds contains that event whenever
/// both limits allow at least one.
pub proof fn law_window_contains_mid(s: Seq<Option<Envelope>>, mid: int, mm: nat, me: nat)
    requires
        0 < mid < s.len(),
        s[mid] is Some,
        mm >= 1,
        me >= 1,
    ensures
        window_spec(s, mid, mm, me).contains(mid as EventIndex),
{
    let e = (me - 1) as nat;
    let m = if is_message_slot(s[mid]) {
        (mm - 1) as nat
    } else {
        mm
    };
    let before = range_desc(s, mid - 1, e / 2, m / 2).reverse();
    let w = window_spec(s, mid, mm, me);
    assert(w[before.len() as int] == mid as EventIndex);
}

/// Replaying the whole log from empty gives the counters that the log keeps.
pub proof fn law_metrics_match_replay(log: &ChatEventLog)
    requires
        log.wf(),
    ensures
        forall|k: MetricKey| #[trigger] log.metrics_spec().value(k) == replay_metric(log.slots_spec(), k),
{
}

/// What an expiry sweep at `now` does to a log: the events due by then are
/// gone, every other slot stays, and no index is given back.
pub open spec fn swept(before: ChatEventLog, now: TimestampMillis, after: ChatEventLog) -> bool {
    &&& after.kind_spec() == before.kind_spec()
    &&& after.next_message_index_spec() == before.next_message_index_spec()
    &&& after.slots_spec().len() == before.slots_spec().len()
    &&& forall|i: int|
        0 <= i < before.slots_spec().len() ==> #[trigger] after.slots_spec()[i] == if is_due(
            before.slots_spec()[i],
            now,
        ) {
            None
        } else {
            before.slots_spec()[i]
        }
}

/// Two successive appends that succeed get increasing indices, each the
/// number of slots before it, and the second leaves the first event in place.
pub proof fn law_successive_appends(
    a: ChatEventLog,
    b: ChatEventLog,
    c: ChatEventLog,
    e1: ChatEventInternal,
    e2: ChatEventInternal,
    t1: TimestampMillis,
    t2: TimestampMillis,
    ttl1: Option<Milliseconds>,
    ttl2: Option<Milliseconds>,
    i1: EventIndex,
    i2: EventIndex,
)
    requires
        append_outcome(a, e1, t1, ttl1, Ok(i1), b),
        append_outcome(b, e2, t2, ttl2, Ok(i2), c),
    ensures
        i1 as int == a.slots_spec().len(),
        i2 as int == i1 + 1,
        c.slots_spec()[i1 as int] == b.slots_spec()[i1 as int],
        c.slots_spec()[i1 as int] is Some && c.slots_spec()[i1 as int]->0.index == i1,
        c.slots_spec()[i2 as int] is Some && c.slots_spec()[i2 as int]->0.index == i2,
{
}

/// After any sweep, an append that succeeds gets an index above every index
/// the log had given out before the sweep, expired or not, and a message gets
/// a message index above every message index the log held before the sweep.
pub proof fn law_no_reuse_after_sweep(
    a: ChatEventLog,
    now: TimestampMillis,
    b: ChatEventLog,
    e: ChatEventInternal,
    t: TimestampMillis,
    ttl: Option<Milliseconds>,
    i: EventIndex,
    c: ChatEventLog,
    k: int,
)
    requires
        a.wf(),
        swept(a, now, b),
        append_outcome(b, e, t, ttl, Ok(i), c),
        0 <= k < a.slots_spec().len(),
    ensures
        k < i,
        is_message_slot(a.slots_spec()[k]) && e is Message ==> slot_message_index(a.slots_spec()[k])
            < slot_message_index(c.slots_spec()[i as int]),
{
}

/// Every message the log holds has a message index below the one the next
/// appended message gets; removals and imports keep this, so a message index
/// is never handed out twice.
pub proof fn law_message_indices_below_next(log: &ChatEventLog, i: int)
    requires
        log.wf(),
        0 <= i < log.slots_spec().len(),
        is_message_slot(log.slots_spec()[i]),
    ensures
        (slot_message_index(log.slots_spec()[i]) as int) < log.next_message_index_spec(),
{
}

/// Every event the log holds has an index below the number of slots, which is
/// the index the next append gets; a sweep keeps the number of slots, so no
/// index is handed out twice, even after its event expired.
pub proof fn law_held_indices_below_next(log: &ChatEventLog, i: int)
    requires
        log.wf(),
        0 <= i < log.slots_spec().len(),
        log.slots_spec()[i] is Some,
    ensures
        log.slots_spec()[i]->0.index == i,
        (log.slots_spec()[i]->0.index as int) < log.slots_spec().len(),
{
}

/// How a requested index stands for a reader who may see events from
/// `min_visible` on.
#[derive(Clone, Copy, Debug, PartialEq, Eq, Structural)]
pub enum IndexVisibility {
    /// The event is held and the reader may see it.
    Visible,
    /// The index was given out, but its event is gone.
    Expired,
    /// The event is held, but the reader may not see it.
    Unauthorized,
    /// The log has not given out this index.
    NotFound,
}

pub open spec fn visibility(s: Seq<Option<Envelope>>, i: int, min_visible: EventIndex) -> IndexVisibility {
    if i <= 0 || i >= s.len() {
        IndexVisibility::NotFound
    } else if s[i] is None {
        IndexVisibility::Expired
    } else if i < min_visible {
        IndexVisibility::Unauthorized
    } else {
        IndexVisibility::Visible
    }
}

/// The requested indices that stand as `v`, in the order requested.
pub open spec fn indices_with(
    s: Seq<Option<Envelope>>,
    req: Seq<EventIndex>,
    min_visible: EventIndex,
    v: IndexVisibility,
) -> Seq<EventIndex>
    decreases req.len(),
{
    if req.len() == 0 {
        Seq::empty()
    } else {
        let rest = indices_with(s, req.drop_last(), min_visible, v);
        if visibility(s, req.last() as int, min_visible) == v {
            rest.push(req.last())
        } else {
            rest
        }
    }
}

/// The slot's message has a thread summary whose reply count is at its maximum.
pub open spec fn summary_full(x: Option<Envelope>) -> bool {
    match x {
        Some(w) => match w.event {
            ChatEventInternal::Message(m) => match m.thread_summary {
                Some(t) => t.reply_count == u32::MAX,
                None => false,
            },
            _ => false,
        },
        None => false,
    }
}

/// `t` is the summary `prev` after one more reply by `sender` at `now`, at
/// `reply_index` of the thread: a missing summary counts as an empty one. The
/// sender joins the participants once, and the followers gain the sender, the
/// mentioned users and, on the first reply, the root message's sender.
pub open spec fn thread_reply_recorded(
    prev: Option<ThreadSummaryInternal>,
    t: ThreadSummaryInternal,
    sender: UserId,
    mentioned: Seq<UserId>,
    root_sender: UserId,
    reply_index: EventIndex,
    now: TimestampMillis,
) -> bool {
    let (participants, followers, count) = match prev {
        Some(p) => (p.participants@, p.followers@, p.reply_count as int),
        None => (Seq::<UserId>::empty(), Set::<UserId>::empty(), 0),
    };
    &&& t.reply_count == count + 1
    &&& t.latest_event_index == reply_index
    &&& t.latest_event_timestamp == now
    &&& t.participants@ == if participants.contains(sender) {
        participants
    } else {
        participants.push(sender)
    }
    &&& forall|u: UserId|
        #[trigger] t.followers@.contains(u) <==> (followers.contains(u) || u == sender || mentioned.contains(u)
            || (count == 0 && u == root_sender))
}

/// What an append does: each refusal exactly when its condition holds, the
/// log unchanged on refusal, and otherwise the event stamped and stored at the
/// next index, a message with the next message index.
pub open spec fn append_outcome(
    before: ChatEventLog,
    event: ChatEventInternal,
    now: TimestampMillis,
    ttl: Option<Milliseconds>,
    r: Result<EventIndex, AppendError>,
    after: ChatEventLog,
) -> bool {
    let valid = valid_for_kind(before.kind_spec(), event);
    let fits = before.slots_spec().len() <= u32::MAX;
    let duplicate = event is Message && before.has_message_id(event->Message_0.message_id);
    let counter_full = event is Message && before.next_message_index_spec() > u32::MAX;
    &&& after.kind_spec() == before.kind_spec()
    &&& (!valid ==> r == Err::<EventIndex, AppendError>(AppendError::InvalidForChat))
    &&& (valid && !fits ==> r == Err::<EventIndex, AppendError>(AppendError::LogFull))
    &&& (valid && fits && duplicate ==> r == Err::<EventIndex, AppendError>(AppendError::DuplicateMessageId))
    &&& (valid && fits && !duplicate && counter_full ==> r == Err::<EventIndex, AppendError>(
        AppendError::CounterFull,
    ))
    &&& (r is Err ==> after.slots_spec() == before.slots_spec() && after.next_message_index_spec()
        == before.next_message_index_spec())
    &&& (valid && fits && !duplicate && !counter_full ==> {
        &&& r == Ok::<EventIndex, AppendError>(before.slots_spec().len() as EventIndex)
        &&& after.slots_spec() == before.slots_spec().push(
            Some(
                EventWrapperInternal {
                    index: before.slots_spec().len() as EventIndex,
                    timestamp: now,
                    expires_at: expiry_of(now, ttl),
                    event: with_message_index(event, before.next_message_index_spec() as MessageIndex),
                },
            ),
        )
        &&& after.next_message_index_spec() == if event is Message {
            (before.next_message_index_spec() + 1) as u64
        } else {
            before.next_message_index_spec()
        }
    })
}

/// The files of the messages that have expired by `now`, in index order.
pub open spec fn due_files(s: Seq<Option<Envelope>>, now: TimestampMillis) -> Seq<BlobReference>
    decreases s.len(),
{
    if s.len() == 0 {
        Seq::empty()
    } else {
        due_files(s.drop_last(), now) + if is_due(s.last(), now) && is_message_slot(s.last()) {
            content_blobs(s.last()->0.event->Message_0.content)
        } else {
            Seq::empty()
        }
    }
}

/// The slot holds an event that has expired by `now`.
pub open spec fn is_due(x: Option<Envelope>, now: TimestampMillis) -> bool {
    x is Some && x->0.expires_at is Some && x->0.expires_at->0 <= now
}

pub open spec fn is_message_slot(x: Option<Envelope>) -> bool {
    x is Some && x->0.event is Message
}

/// What a slot adds to a counter.
pub open spec fn slot_metric(x: Option<Envelope>, k: MetricKey) -> nat {
    match x {
        Some(w) => match w.event {
            ChatEventInternal::Message(m) => message_metric(*m, k),
            _ => 0,
        },
        None => 0,
    }
}

/// A counter as a replay of the stored events from empty computes it.
pub open spec fn replay_metric(s: Seq<Option<Envelope>>, k: MetricKey) -> nat
    decreases s.len(),
{
    if s.len() == 0 {
        0
    } else {
        replay_metric(s.drop_last(), k) + slot_metric(s.last(), k)
    }
}

pub proof fn lemma_replay_push(s: Seq<Option<Envelope>>, x: Option<Envelope>, k: MetricKey)
    ensures
        replay_metric(s.push(x), k) == replay_metric(s, k) + slot_metric(x, k),
{
    assert(s.push(x).drop_last() =~= s);
}

pub proof fn lemma_replay_bound(s: Seq<Option<Envelope>>, k: MetricKey)
    ensures
        replay_metric(s, k) <= s.len(),
    decreases s.len(),
{
    if s.len() > 0 {
        lemma_replay_bound(s.drop_last(), k);
    }
}

pub proof fn lemma_replay_update(s: Seq<Option<Envelope>>, i: int, x: Option<Envelope>, k: MetricKey)
    requires
        0 <= i < s.len(),
    ensures
        replay_metric(s.update(i, x), k) + slot_metric(s[i], k) == replay_metric(s, k) + slot_metric(x, k),
    decreases s.len(),
{
    if i == s.len() - 1 {
        assert(s.update(i, x).drop_last() =~= s.drop_last());
    } else {
        lemma_replay_update(s.drop_last(), i, x, k);
        assert(s.update(i, x).drop_last() =~= s.drop_last().update(i, x));
    }
}

pub proof fn lemma_replay_clear(s: Seq<Option<Envelope>>, i: int, k: MetricKey)
    requires
        0 <= i < s.len(),
    ensures
        replay_metric(s.update(i, None), k) + slot_metric(s[i], k) == replay_metric(s, k),
    decreases s.len(),
{
    if i == s.len() - 1 {
        assert(s.update(i, None).drop_last() =~= s.drop_last());
    } else {
        lemma_replay_clear(s.drop_last(), i, k);
        assert(s.update(i, None).drop_last() =~= s.drop_last().update(i, None));
    }
}

/// The ordered log of one chat or thread. Slot `i` holds the event with index
/// `i`, or nothing where that event expired or never existed; slot 0 is never
/// used.
pub struct ChatEventLog {
    kind: ChatKind,
    slots: Vec<Option<Envelope>>,
    message_ids: HashMap<MessageId, (EventIndex, MessageIndex)>,
    next_message_index: u64,
    metrics: ChatMetricsInternal,
}

impl ChatEventLog {
    pub closed spec fn kind_spec(&self) -> ChatKind {
        self.kind
    }

    /// The slots of the log, by event index.
    pub closed spec fn slots_spec(&self) -> Seq<Option<Envelope>> {
        self.slots@
    }

    pub closed spec fn metrics_spec(&self) -> ChatMetricsInternal {
        self.metrics
    }

    /// The log holds, at `i`, a message with the given id.
    pub open spec fn holds_message(&self, i: int, id: MessageId) -> bool {
        0 <= i < self.slots_spec().len() && slot_message_id(self.slots_spec()[i]) == Some(id)
    }

    pub closed spec fn wf(&self) -> bool {
        &&& 1 <= self.slots@.len() <= u32::MAX as int + 1
        &&& self.slots@[0] is None
        &&& forall|i: int| 0 <= i < self.slots@.len() && #[trigger] self.slots@[i] is Some
            ==> self.slots@[i]->0.index == i
        &&& forall|i: int, j: int|
            0 <= i < j < self.slots@.len() && slot_message_id(self.slots@[i]) is Some
                && #[trigger] slot_message_id(self.slots@[i]) == #[trigger] slot_message_id(
                self.slots@[j],
            ) ==> false
        &&& forall|id: MessageId| #[trigger]
            self.message_ids@.contains_key(id) ==> {
                let (e, m) = self.message_ids@[id];
                &&& self.holds_message(e as int, id)
                &&& slot_message_index(self.slots@[e as int]) == m
            }
        &&& forall|i: int|
            0 <= i < self.slots@.len() && #[trigger] slot_message_id(self.slots@[i]) is Some
                ==> self.message_ids@.contains_key(slot_message_id(self.slots@[i])->0)
        &&& forall|k: MetricKey| #[trigger] self.metrics.value(k) == replay_metric(self.slots@, k)
        &&& self.next_message_index <= u32::MAX as u64 + 1
        &&& forall|i: int|
            0 <= i < self.slots@.len() && #[trigger] is_message_slot(self.slots@[i]) ==> (slot_message_index(
                self.slots@[i],
            ) as int) < self.next_message_index
    }

    /// The message index that the next appended message gets.
    pub closed spec fn next_message_index_spec(&self) -> u64 {
        self.next_message_index
    }

    /// The log holds a message with the given id somewhere.
    pub open spec fn has_message_id(&self, id: MessageId) -> bool {
        exists|i: int| self.holds_message(i, id)
    }

    /// An empty log of the given kind.
    pub fn new(kind: ChatKind) -> (r: ChatEventLog)
        ensures
            r.wf(),
            r.kind_spec() == kind,
            r.slots_spec() == seq![Option::<Envelope>::None],
            r.next_message_index_spec() == 0,
    {
        let mut slots: Vec<Option<Envelope>> = Vec::new();
        slots.push(None);
        let r = ChatEventLog {
            kind,
            slots,
            message_ids: HashMap::new(),
            next_message_index: 0,
            metrics: ChatMetricsInternal::new(),
        };
        proof {
            assert forall|k: MetricKey| #[trigger] r.metrics.value(k) == replay_metric(r.slots@, k) by {
                lemma_replay_push(Seq::empty(), None, k);
                assert(r.slots@ =~= Seq::<Option<Envelope>>::empty().push(None));
            }
        }
        r
    }

    pub fn kind(&self) -> (r: ChatKind)
        ensures
            r == self.kind_spec(),
    {
        self.kind
    }

    /// The index of the latest event slot; zero for an empty log.
    pub fn latest_event_index(&self) -> (r: EventIndex)
        requires
            self.wf(),
        ensures
            r as int == self.slots_spec().len() - 1,
    {
        (self.slots.len() - 1) as EventIndex
    }

    /// The counters, as kept on every append and removal.
    pub fn metrics(&self) -> (r: ChatMetricsInternal)
        requires
            self.wf(),
        ensures
            forall|k: MetricKey| #[trigger] r.value(k) == replay_metric(self.slots_spec(), k),
    {
        self.metrics
    }

    /// Appends an event at the next index, stamped with `now` and expiring `ttl`
    /// after it. A message gets the next message index. Refused, leaving the log
    /// as it was, when the event may not stand in this log, when every index is
    /// used, when a message with the same id is in the log, or when every message
    /// index is used.
    pub fn append(&mut self, event: ChatEventInternal, now: TimestampMillis, ttl: Option<Milliseconds>) -> (r:
        Result<EventIndex, AppendError>)
        requires
            old(self).wf(),
        ensures
            final(self).wf(),
            final(self).kind_spec() == old(self).kind_spec(),
            !valid_for_kind(old(self).kind_spec(), event) ==> r == Err::<EventIndex, AppendError>(
                AppendError::InvalidForChat),
            valid_for_kind(old(self).kind_spec(), event) && old(self).slots_spec().len() > u32::MAX
                ==> r == Err::<EventIndex, AppendError>(AppendError::LogFull),
            valid_for_kind(old(self).kind_spec(), event) && old(self).slots_spec().len() <= u32::MAX
                && event is Message && old(self).has_message_id(event->Message_0.message_id) ==> r
                == Err::<EventIndex, AppendError>(AppendError::DuplicateMessageId),
            valid_for_kind(old(self).kind_spec(), event) && old(self).slots_spec().len() <= u32::MAX
                && event is Message && !old(self).has_message_id(event->Message_0.message_id)
                && old(self).next_message_index_spec() > u32::MAX ==> r == Err::<
                EventIndex,
                AppendError,
            >(AppendError::CounterFull),
            r is Err ==> final(self).slots_spec() == old(self).slots_spec()
                && final(self).next_message_index_spec() == old(self).next_message_index_spec(),
            valid_for_kind(old(self).kind_spec(), event) && old(self).slots_spec().len() <= u32::MAX
                && !(event is Message && (old(self).has_message_id(event->Message_0.message_id)
                || old(self).next_message_index_spec() > u32::MAX)) ==> {
                &&& r == Ok::<EventIndex, AppendError>(old(self).slots_spec().len() as EventIndex)
                &&& final(self).slots_spec() == old(self).slots_spec().push(
                    Some(
                        EventWrapperInternal {
                            index: old(self).slots_spec().len() as EventIndex,
                            timestamp: now,
                            expires_at: expiry_of(now, ttl),
                            event: with_message_index(event, old(self).next_message_index_spec() as MessageIndex),
                        },
                    ),
                )
                &&& final(self).next_message_index_spec() == if event is Message {
                    (old(self).next_message_index_spec() + 1) as u64
                } else {
                    old(self).next_message_index_spec()
                }
            },
            append_outcome(*old(self), event, now, ttl, r, *final(self)),
    {
        let valid = match self.kind {
            ChatKind::Direct => event.is_valid_for_direct_chat(),
            ChatKind::Group => event.is_valid_for_group(),
            ChatKind::Thread => event.is_valid_for_thread(),
        };
        if !valid {
            return Err(AppendError::InvalidForChat);
        }
        if self.slots.len() > u32::MAX as usize {
            return Err(AppendError::LogFull);
        }
        let index = self.slots.len() as EventIndex;
        let mut event = event;
        let mut message_entry: Option<(MessageId, MessageIndex)> = None;
        if let Some(m) = event.as_message() {
            let id = m.message_id;
            if self.message_ids.contains_key(&id) {
                return Err(AppendError::DuplicateMessageId);
            }
            proof {
                assert forall|i: int| !self.holds_message(i, id) by {
                    if self.holds_message(i, id) {
                        assert(slot_message_id(self.slots@[i]) is Some);
                    }
                }
            }
            if self.next_message_index > u32::MAX as u64 {
                return Err(AppendError::CounterFull);
            }
            message_entry = Some((id, self.next_message_index as MessageIndex));
        }
        let ghost e0 = event;
        let mi = self.next_message_index as MessageIndex;
        match event.as_message_mut() {
            Some(m) => {
                m.message_index = mi;
            },
            None => {},
        }
        assert(event == with_message_index(e0, mi));
        let expires_at = match ttl {
            Some(d) => Some(now.saturating_add(d)),
            None => None,
        };
        let envelope = EventWrapperInternal { index, timestamp: now, expires_at, event };
        proof {
            assert forall|k: MetricKey| self.metrics.value(k) < u64::MAX by {
                lemma_replay_bound(self.slots@, k);
            }
        }
        let ghost before = *self;
        if let Some(m) = envelope.event.as_message() {
            m.add_to_metrics(&mut self.metrics);
        }
        let ghost new_slot = Some(envelope);
        self.slots.push(Some(envelope));
        match message_entry {
            Some((id, mi)) => {
                self.message_ids.insert(id, (index, mi));
                self.next_message_index = mi as u64 + 1;
            },
            None => {},
        }
        proof {
            assert forall|k: MetricKey| #[trigger] self.metrics.value(k) == replay_metric(self.slots@, k) by {
                lemma_replay_push(before.slots@, new_slot, k);
            }
            assert forall|i: int| 0 <= i < self.slots@.len() && #[trigger] self.slots@[i] is Some
                implies self.slots@[i]->0.index == i by {
                if i < before.slots@.len() {
                    assert(self.slots@[i] == before.slots@[i]);
                }
            }
            assert forall|i: int, j: int|
                0 <= i < j < self.slots@.len() && slot_message_id(self.slots@[i]) is Some
                    && #[trigger] slot_message_id(self.slots@[i]) == #[trigger] slot_message_id(
                    self.slots@[j],
                ) implies false by {
                if j < before.slots@.len() {
                    assert(self.slots@[i] == before.slots@[i]);
                    assert(self.slots@[j] == before.slots@[j]);
                } else {
                    assert(self.slots@[i] == before.slots@[i]);
                    assert(before.holds_message(i, slot_message_id(self.slots@[j])->0));
                }
            }
            assert forall|id: MessageId| #[trigger]
                self.message_ids@.contains_key(id) implies {
                    let (e, m) = self.message_ids@[id];
                    &&& self.holds_message(e as int, id)
                    &&& slot_message_index(self.slots@[e as int]) == m
                } by {
                if before.message_ids@.contains_key(id) && message_entry != Some((id, mi)) {
                    let (e, m) = before.message_ids@[id];
                    assert(self.slots@[e as int] == before.slots@[e as int]);
                }
            }
            assert forall|i: int|
                0 <= i < self.slots@.len() && #[trigger] slot_message_id(self.slots@[i]) is Some
                    implies self.message_ids@.contains_key(slot_message_id(self.slots@[i])->0) by {
                if i < before.slots@.len() {
                    assert(self.slots@[i] == before.slots@[i]);
                }
            }
            assert forall|i: int|
                0 <= i < self.slots@.len() && #[trigger] is_message_slot(self.slots@[i]) implies (
                slot_message_index(self.slots@[i]) as int) < self.next_message_index by {
                if i < before.slots@.len() {
                    assert(self.slots@[i] == before.slots@[i]);
                    assert(is_message_slot(before.slots@[i]));
                }
            }
        }
        Ok(index)
    }

    /// Puts one more slot at the end, counting its message and indexing its id.
    fn push_slot(&mut self, x: Option<Envelope>)
        requires
            old(self).wf(),
            old(self).slots@.len() <= u32::MAX,
            x is Some ==> x->0.index == old(self).slots@.len(),
            slot_message_id(x) is Some ==> !id_in_slots(old(self).slots@, slot_message_id(x)->0),
        ensures
            final(self).wf(),
            final(self).slots@ == old(self).slots@.push(x),
            final(self).kind == old(self).kind,
            final(self).next_message_index == if is_message_slot(x) && slot_message_index(x) as u64
                >= old(self).next_message_index {
                (slot_message_index(x) + 1) as u64
            } else {
                old(self).next_message_index
            },
    {
        proof {
            assert forall|k: MetricKey| self.metrics.value(k) < u64::MAX by {
                lemma_replay_bound(self.slots@, k);
            }
        }
        let ghost before = *self;
        let mut entry: Option<(MessageId, MessageIndex)> = None;
        match &x {
            Some(w) => match w.event.as_message() {
                Some(m) => {
                    m.add_to_metrics(&mut self.metrics);
                    entry = Some((m.message_id, m.message_index));
                },
                None => {},
            },
            None => {},
        }
        let index = self.slots.len() as EventIndex;
        self.slots.push(x);
        match entry {
            Some((id, mi)) => {
                self.message_ids.insert(id, (index, mi));
                if mi as u64 >= self.next_message_index {
                    self.next_message_index = mi as u64 + 1;
                }
            },
            None => {},
        }
        proof {
            assert forall|k: MetricKey| #[trigger] self.metrics.value(k) == replay_metric(self.slots@, k) by {
                lemma_replay_push(before.slots@, x, k);
            }
            assert forall|i: int| 0 <= i < self.slots@.len() && #[trigger] self.slots@[i] is Some
                implies self.slots@[i]->0.index == i by {
                if i < before.slots@.len() {
                    assert(self.slots@[i] == before.slots@[i]);
                }
            }
            assert forall|i: int, j: int|
                0 <= i < j < self.slots@.len() && slot_message_id(self.slots@[i]) is Some
                    && #[trigger] slot_message_id(self.slots@[i]) == #[trigger] slot_message_id(
                    self.slots@[j],
                ) implies false by {
                assert(self.slots@[i] == before.slots@[i]);
                if j < before.slots@.len() {
                    assert(self.slots@[j] == before.slots@[j]);
                }
            }
            assert forall|id: MessageId| #[trigger]
                self.message_ids@.contains_key(id) implies {
                    let (e, m) = self.message_ids@[id];
                    &&& self.holds_message(e as int, id)
                    &&& slot_message_index(self.slots@[e as int]) == m
                } by {
                if entry is None || entry->0 != (id, slot_message_index(x)) {
                    if before.message_ids@.contains_key(id) {
                        let (e, m) = before.message_ids@[id];
                        assert(self.slots@[e as int] == before.slots@[e as int]);
                    }
                }
            }
            assert forall|i: int|
                0 <= i < self.slots@.len() && #[trigger] slot_message_id(self.slots@[i]) is Some
                    implies self.message_ids@.contains_key(slot_message_id(self.slots@[i])->0) by {
                if i < before.slots@.len() {
                    assert(self.slots@[i] == before.slots@[i]);
                }
            }
            assert forall|i: int|
                0 <= i < self.slots@.len() && #[trigger] is_message_slot(self.slots@[i]) implies (
                slot_message_index(self.slots@[i]) as int) < self.next_message_index by {
                if i < before.slots@.len() {
                    assert(self.slots@[i] == before.slots@[i]);
                    assert(is_message_slot(before.slots@[i]));
                }
            }
        }
    }

    /// Adds the events of another chat's history at their own indices and with
    /// their own timestamps. An event is passed over where its index is already
    /// taken or passed, where it may not stand in this log, or where its message
    /// id is already held; so importing the same batch again changes nothing.
    pub fn import_events(&mut self, events: Vec<Envelope>)
        requires
            old(self).wf(),
        ensures
            final(self).wf(),
            final(self).kind_spec() == old(self).kind_spec(),
            final(self).slots_spec() == import_all(old(self).slots_spec(), events@, old(self).kind_spec()),
    {
        let ghost all = events@;
        let ghost start = self.slots@;
        let ghost mut done: Seq<Envelope> = Seq::empty();
        let mut items = events;
        while items.len() > 0
            invariant
                self.wf(),
                self.kind == old(self).kind,
                start == old(self).slots@,
                all == done + items@,
                self.slots@ == import_all(start, done, self.kind),
            decreases items@.len(),
        {
            let ghost rest = items@;
            let e = items.remove(0);
            proof {
                assert(rest =~= seq![e] + items@);
                assert(all =~= done.push(e) + items@);
                assert(done.push(e).drop_last() =~= done);
                assert(done.push(e).last() == e);
            }
            let ghost cur = self.slots@;
            let idx = e.index as usize;
            let valid = match self.kind {
                ChatKind::Direct => e.event.is_valid_for_direct_chat(),
                ChatKind::Group => e.event.is_valid_for_group(),
                ChatKind::Thread => e.event.is_valid_for_thread(),
            };
            let mut skip = idx < self.slots.len() || !valid;
            if !skip {
                match e.event.as_message() {
                    Some(m) => {
                        if self.message_ids.contains_key(&m.message_id) {
                            let ghost (ei, mi) = self.message_ids@[m.message_id];
                            assert(slot_message_id(cur[ei as int]) == Some(m.message_id));
                            skip = true;
                        } else {
                            proof {
                                assert forall|i: int| 0 <= i < cur.len() implies slot_message_id(cur[i])
                                    != Some(m.message_id) by {
                                    if slot_message_id(cur[i]) == Some(m.message_id) {
                                        assert(slot_message_id(self.slots@[i]) is Some);
                                    }
                                }
                            }
                        }
                    },
                    None => {},
                }
            }
            assert(skip == import_skips(cur, e, self.kind));
            if !skip {
                while self.slots.len() < idx
                    invariant
                        self.wf(),
                        self.kind == old(self).kind,
                        cur.len() <= self.slots@.len() <= idx,
                        idx == e.index,
                        self.slots@ == cur + Seq::new((self.slots@.len() - cur.len()) as nat, |i: int| None),
                        !import_skips(cur, e, self.kind),
                    decreases idx - self.slots@.len(),
                {
                    let ghost s0 = self.slots@;
                    self.push_slot(None);
                    proof {
                        assert(self.slots@ =~= cur + Seq::new(
                            (self.slots@.len() - cur.len()) as nat,
                            |i: int| None,
                        ));
                    }
                }
                proof {
                    if e.event is Message {
                        assert forall|i: int| 0 <= i < self.slots@.len() implies slot_message_id(
                            self.slots@[i],
                        ) != Some(e.event->Message_0.message_id) by {
                            if i >= cur.len() {
                                assert(self.slots@[i] is None);
                            } else {
                                assert(self.slots@[i] == cur[i]);
                            }
                        }
                    }
                }
                self.push_slot(Some(e));
                proof {
                    assert(self.slots@ =~= import_step(cur, e, self.kind));
                }
            }
            proof {
                done = done.push(e);
            }
        }
        proof {
            assert(all =~= done);
        }
    }

    /// Empties slot `k`, taking its message out of the counters and the id index.
    fn remove_slot(&mut self, k: usize)
        requires
            old(self).wf(),
            0 < k < old(self).slots@.len(),
            old(self).slots@[k as int] is Some,
        ensures
            final(self).wf(),
            final(self).slots@ == old(self).slots@.update(k as int, None),
            final(self).kind == old(self).kind,
            final(self).next_message_index == old(self).next_message_index,
    {
        let ghost before = *self;
        proof {
            assert forall|key: MetricKey| self.metrics.value(key) >= slot_metric(self.slots@[k as int], key) by {
                lemma_replay_clear(self.slots@, k as int, key);
            }
        }
        match &self.slots[k] {
            Some(w) => match w.event.as_message() {
                Some(m) => {
                    m.remove_from_metrics(&mut self.metrics);
                    self.message_ids.remove(&m.message_id);
                },
                None => {},
            },
            None => {},
        }
        self.slots.set(k, None);
        proof {
            let removed = slot_message_id(before.slots@[k as int]);
            assert forall|key: MetricKey| #[trigger] self.metrics.value(key) == replay_metric(self.slots@, key) by {
                lemma_replay_clear(before.slots@, k as int, key);
            }
            assert forall|i: int| 0 <= i < self.slots@.len() && #[trigger] self.slots@[i] is Some
                implies self.slots@[i]->0.index == i by {
                assert(self.slots@[i] == before.slots@[i]);
            }
            assert forall|i: int, j: int|
                0 <= i < j < self.slots@.len() && slot_message_id(self.slots@[i]) is Some
                    && #[trigger] slot_message_id(self.slots@[i]) == #[trigger] slot_message_id(
                    self.slots@[j],
                ) implies false by {
                assert(self.slots@[i] == before.slots@[i]);
                assert(self.slots@[j] == before.slots@[j]);
            }
            assert forall|id: MessageId| #[trigger]
                self.message_ids@.contains_key(id) implies {
                    let (e, m) = self.message_ids@[id];
                    &&& self.holds_message(e as int, id)
                    &&& slot_message_index(self.slots@[e as int]) == m
                } by {
                assert(before.message_ids@.contains_key(id));
                let (e, m) = before.message_ids@[id];
                assert(removed != Some(id));
                if e as int == k as int {
                    assert(before.holds_message(k as int, id));
                }
                assert(self.slots@[e as int] == before.slots@[e as int]);
            }
            assert forall|i: int|
                0 <= i < self.slots@.len() && #[trigger] slot_message_id(self.slots@[i]) is Some
                    implies self.message_ids@.contains_key(slot_message_id(self.slots@[i])->0) by {
                assert(self.slots@[i] == before.slots@[i]);
                if i < k {
                    assert(slot_message_id(before.slots@[i]) != slot_message_id(before.slots@[k as int]));
                } else if i > k {
                    assert(slot_message_id(before.slots@[k as int]) != slot_message_id(before.slots@[i]));
                }
            }
        }
    }

    /// Purges the content of a deleted message: the stored content becomes its
    /// tombstone, the counters no longer count the old content, and the files it
    /// pointed to are handed back so that their storage can be released. Nothing
    /// changes, and nothing is handed back, where the log holds no message with
    /// that id, or the message is not deleted, or its content is already purged.
    pub fn hard_delete_message(&mut self, message_id: MessageId) -> (r: Option<Vec<BlobReference>>)
        requires
            old(self).wf(),
        ensures
            final(self).wf(),
            final(self).kind_spec() == old(self).kind_spec(),
            final(self).next_message_index_spec() == old(self).next_message_index_spec(),
            final(self).slots_spec().len() == old(self).slots_spec().len(),
            match r {
                Some(blobs) => exists|i: int|
                    #![trigger old(self).slots_spec()[i]]
                    old(self).holds_message(i, message_id) && {
                        let w = old(self).slots_spec()[i]->0;
                        let m = *w.event->Message_0;
                        &&& m.deleted_by is Some
                        &&& !(m.content is Deleted)
                        &&& blobs@ == content_blobs(m.content)
                        &&& final(self).slots_spec() == old(self).slots_spec().update(
                            i,
                            Some(
                                EventWrapperInternal {
                                    event: ChatEventInternal::Message(
                                        Box::new(
                                            MessageInternal {
                                                content: MessageContent::Deleted(
                                                    DeletedBy {
                                                        deleted_by: m.deleted_by->0.deleted_by,
                                                        timestamp: m.deleted_by->0.timestamp,
                                                    },
                                                ),
                                                ..m
                                            },
                                        ),
                                    ),
                                    ..w
                                },
                            ),
                        )
                    },
                None => final(self).slots_spec() == old(self).slots_spec() && forall|i: int|
                    #![trigger old(self).slots_spec()[i]]
                    old(self).holds_message(i, message_id) ==> {
                        let m = *old(self).slots_spec()[i]->0.event->Message_0;
                        m.deleted_by is None || m.content is Deleted
                    },
            },
    {
        let (index, _) = match self.message_ids.get(&message_id) {
            Some(found) => *found,
            None => {
                proof {
                    assert forall|i: int| #![trigger old(self).slots_spec()[i]] old(self).holds_message(i, message_id) implies false by {
                        assert(slot_message_id(self.slots@[i]) is Some);
                    }
                }
                return None;
            },
        };
        let k = index as usize;
        let ghost before = *self;
        proof {
            assert forall|i: int| #![trigger before.slots@[i]] before.holds_message(i, message_id) implies i == k by {
                if i < k {
                    assert(slot_message_id(before.slots@[i]) == slot_message_id(before.slots@[k as int]));
                } else if i > k {
                    assert(slot_message_id(before.slots@[k as int]) == slot_message_id(before.slots@[i]));
                }
            }
        }
        let purge = match &self.slots[k] {
            Some(w) => match w.event.as_message() {
                Some(m) => match &m.deleted_by {
                    Some(d) => match &m.content {
                        MessageContent::Deleted(_) => None,
                        _ => Some((m.content.blob_references(), d.hydrate())),
                    },
                    None => None,
                },
                None => None,
            },
            None => None,
        };
        let (blobs, tombstone) = match purge {
            Some(p) => p,
            None => {
                return None;
            },
        };
        let mut slot: Option<Envelope> = None;
        std::mem::swap(&mut slot, &mut self.slots[k]);
        let ghost taken = slot;
        let mut w = slot.unwrap();
        let mut event = ChatEventInternal::Empty;
        std::mem::swap(&mut event, &mut w.event);
        let mut m = event.into_message().unwrap();
        let ghost old_m = m;
        proof {
            assert forall|key: MetricKey| self.metrics.value(key) >= message_metric(old_m, key) by {
                lemma_replay_update(before.slots@, k as int, None, key);
                assert(self.slots@ == before.slots@.update(k as int, None));
            }
        }
        m.remove_from_metrics(&mut self.metrics);
        m.content = MessageContent::Deleted(tombstone);
        proof {
            assert forall|key: MetricKey| self.metrics.value(key) < u64::MAX by {
                lemma_replay_bound(before.slots@, key);
                lemma_replay_update(before.slots@, k as int, None, key);
            }
        }
        m.add_to_metrics(&mut self.metrics);
        w.event = ChatEventInternal::Message(Box::new(m));
        let ghost new_slot = Some(w);
        self.slots.set(k, Some(w));
        proof {
            assert(self.slots@ == before.slots@.update(k as int, new_slot));
            assert forall|key: MetricKey| #[trigger] self.metrics.value(key) == replay_metric(self.slots@, key) by {
                lemma_replay_update(before.slots@, k as int, new_slot, key);
            }
            assert forall|i: int| 0 <= i < self.slots@.len() && #[trigger] self.slots@[i] is Some
                implies self.slots@[i]->0.index == i by {
                if i != k {
                    assert(self.slots@[i] == before.slots@[i]);
                }
            }
            assert forall|i: int, j: int|
                0 <= i < j < self.slots@.len() && slot_message_id(self.slots@[i]) is Some
                    && #[trigger] slot_message_id(self.slots@[i]) == #[trigger] slot_message_id(
                    self.slots@[j],
                ) implies false by {
                assert(slot_message_id(self.slots@[i]) == slot_message_id(before.slots@[i]));
                assert(slot_message_id(self.slots@[j]) == slot_message_id(before.slots@[j]));
            }
            assert forall|id: MessageId| #[trigger]
                self.message_ids@.contains_key(id) implies {
                    let (e, mi) = self.message_ids@[id];
                    &&& self.holds_message(e as int, id)
                    &&& slot_message_index(self.slots@[e as int]) == mi
                } by {
                let (e, mi) = before.message_ids@[id];
                assert(slot_message_id(self.slots@[e as int]) == slot_message_id(before.slots@[e as int]));
                assert(slot_message_index(self.slots@[e as int]) == slot_message_index(before.slots@[e as int]));
            }
            assert forall|i: int|
                0 <= i < self.slots@.len() && #[trigger] slot_message_id(self.slots@[i]) is Some
                    implies self.message_ids@.contains_key(slot_message_id(self.slots@[i])->0) by {
                assert(slot_message_id(self.slots@[i]) == slot_message_id(before.slots@[i]));
            }
            assert forall|i: int|
                0 <= i < self.slots@.len() && #[trigger] is_message_slot(self.slots@[i]) implies (
                slot_message_index(self.slots@[i]) as int) < self.next_message_index by {
                assert(is_message_slot(before.slots@[i]));
                assert(slot_message_index(self.slots@[i]) == slot_message_index(before.slots@[i]));
            }
        }
        Some(blobs)
    }

    /// The slot of the message with the given message index.
    pub fn find_message(&self, message_index: MessageIndex) -> (r: Option<usize>)
        requires
            self.wf(),
        ensures
            match r {
                Some(k) => k < self.slots_spec().len() && is_message_slot(self.slots_spec()[k as int])
                    && slot_message_index(self.slots_spec()[k as int]) == message_index,
                None => forall|i: int|
                    0 <= i < self.slots_spec().len() && #[trigger] is_message_slot(self.slots_spec()[i])
                        ==> slot_message_index(self.slots_spec()[i]) != message_index,
            },
    {
        let mut k: usize = 0;
        while k < self.slots.len()
            invariant
                0 <= k <= self.slots@.len(),
                forall|i: int|
                    0 <= i < k && #[trigger] is_message_slot(self.slots@[i]) ==> slot_message_index(self.slots@[i])
                        != message_index,
            decreases self.slots@.len() - k,
        {
            match &self.slots[k] {
                Some(w) => match w.event.as_message() {
                    Some(m) => {
                        if m.message_index == message_index {
                            return Some(k);
                        }
                    },
                    None => {},
                },
                None => {},
            }
            k = k + 1;
        }
        None
    }

    /// Records a reply in the thread of the message with index `root`: the
    /// root's thread summary, begun where it had none, counts the reply as
    /// `ThreadSummaryInternal::mark_message_added` says. False, with nothing
    /// changed, where no message has that index or its reply count is full.
    pub fn mark_thread_reply(
        &mut self,
        root: MessageIndex,
        sender: UserId,
        mentioned_users: &Vec<UserId>,
        reply_index: EventIndex,
        now: TimestampMillis,
    ) -> (r: bool)
        requires
            old(self).wf(),
        ensures
            final(self).wf(),
            final(self).kind_spec() == old(self).kind_spec(),
            final(self).next_message_index_spec() == old(self).next_message_index_spec(),
            final(self).slots_spec().len() == old(self).slots_spec().len(),
            !r ==> final(self).slots_spec() == old(self).slots_spec(),
            !r ==> (forall|i: int|
                0 <= i < old(self).slots_spec().len() && #[trigger] is_message_slot(old(self).slots_spec()[i])
                    ==> slot_message_index(old(self).slots_spec()[i]) != root) || (exists|i: int|
                0 <= i < old(self).slots_spec().len() && #[trigger] is_message_slot(old(self).slots_spec()[i])
                    && slot_message_index(old(self).slots_spec()[i]) == root && summary_full(
                    old(self).slots_spec()[i],
                )),
            r ==> exists|i: int|
                #![trigger old(self).slots_spec()[i]]
                0 <= i < old(self).slots_spec().len() && is_message_slot(old(self).slots_spec()[i])
                    && slot_message_index(old(self).slots_spec()[i]) == root && {
                    let w = old(self).slots_spec()[i]->0;
                    let m = *w.event->Message_0;
                    let n = final(self).slots_spec()[i]->0;
                    let nm = *n.event->Message_0;
                    &&& forall|j: int|
                        0 <= j < old(self).slots_spec().len() && j != i ==> #[trigger] final(self).slots_spec()[j]
                            == old(self).slots_spec()[j]
                    &&& final(self).slots_spec()[i] is Some
                    &&& n.event is Message
                    &&& n == EventWrapperInternal { event: n.event, ..w }
                    &&& nm == MessageInternal { thread_summary: nm.thread_summary, ..m }
                    &&& nm.thread_summary is Some
                    &&& thread_reply_recorded(
                        m.thread_summary,
                        nm.thread_summary->0,
                        sender,
                        mentioned_users@,
                        m.sender,
                        reply_index,
                        now,
                    )
                },
    {
        let k = match self.find_message(root) {
            Some(k) => k,
            None => {
                return false;
            },
        };
        let full = match &self.slots[k] {
            Some(w) => match w.event.as_message() {
                Some(m) => match &m.thread_summary {
                    Some(t) => t.reply_count == u32::MAX,
                    None => false,
                },
                None => true,
            },
            None => true,
        };
        if full {
            return false;
        }
        let ghost before = *self;
        let mut slot: Option<Envelope> = None;
        std::mem::swap(&mut slot, &mut self.slots[k]);
        let mut w = slot.unwrap();
        let ghost w0 = w;
        let mut event = ChatEventInternal::Empty;
        std::mem::swap(&mut event, &mut w.event);
        let mut m = event.into_message().unwrap();
        let ghost old_m = m;
        let mut summary = match m.thread_summary {
            Some(t) => t,
            None => ThreadSummaryInternal {
                participants: Vec::new(),
                followers: HashSet::new(),
                reply_count: 0,
                latest_event_index: 0,
                latest_event_timestamp: 0,
            },
        };
        let ghost old_summary = summary;
        summary.mark_message_added(sender, mentioned_users, m.sender, reply_index, now);
        m.thread_summary = Some(summary);
        w.event = ChatEventInternal::Message(Box::new(m));
        let ghost new_slot = Some(w);
        self.slots.set(k, Some(w));
        proof {
            assert(self.slots@ == before.slots@.update(k as int, new_slot));
            assert forall|key: MetricKey| #[trigger] self.metrics.value(key) == replay_metric(self.slots@, key) by {
                lemma_replay_update(before.slots@, k as int, new_slot, key);
            }
            assert forall|i: int| 0 <= i < self.slots@.len() && #[trigger] self.slots@[i] is Some
                implies self.slots@[i]->0.index == i by {
                if i != k {
                    assert(self.slots@[i] == before.slots@[i]);
                }
            }
            assert forall|i: int, j: int|
                0 <= i < j < self.slots@.len() && slot_message_id(self.slots@[i]) is Some
                    && #[trigger] slot_message_id(self.slots@[i]) == #[trigger] slot_message_id(
                    self.slots@[j],
                ) implies false by {
                assert(slot_message_id(self.slots@[i]) == slot_message_id(before.slots@[i]));
                assert(slot_message_id(self.slots@[j]) == slot_message_id(before.slots@[j]));
            }
            assert forall|id: MessageId| #[trigger]
                self.message_ids@.contains_key(id) implies {
                    let (e, mi) = self.message_ids@[id];
                    &&& self.holds_message(e as int, id)
                    &&& slot_message_index(self.slots@[e as int]) == mi
                } by {
                let (e, mi) = before.message_ids@[id];
                assert(slot_message_id(self.slots@[e as int]) == slot_message_id(before.slots@[e as int]));
                assert(slot_message_index(self.slots@[e as int]) == slot_message_index(before.slots@[e as int]));
            }
            assert forall|i: int|
                0 <= i < self.slots@.len() && #[trigger] slot_message_id(self.slots@[i]) is Some
                    implies self.message_ids@.contains_key(slot_message_id(self.slots@[i])->0) by {
                assert(slot_message_id(self.slots@[i]) == slot_message_id(before.slots@[i]));
            }
            assert(before.slots@[k as int] == Some(w0));
            assert(*w0.event->Message_0 == old_m);
            let n = self.slots@[k as int]->0;
            assert(n == EventWrapperInternal { event: n.event, ..w0 });
            assert(*n.event->Message_0 == MessageInternal { thread_summary: Some(summary), ..old_m });
            assert(forall|j: int|
                0 <= j < before.slots@.len() && j != k ==> #[trigger] self.slots@[j] == before.slots@[j]);
            assert(old_m.thread_summary is Some ==> old_summary == old_m.thread_summary->0);
            assert(old_m.thread_summary is None ==> old_summary.participants@ =~= Seq::<UserId>::empty()
                && old_summary.followers@ =~= Set::<UserId>::empty() && old_summary.reply_count == 0);
            assert(thread_reply_recorded(
                old_m.thread_summary,
                summary,
                sender,
                mentioned_users@,
                old_m.sender,
                reply_index,
                now,
            ));
            assert(before.slots@ == old(self).slots@);
            assert(is_message_slot(before.slots@[k as int]));
            assert(slot_message_index(before.slots@[k as int]) == root);
            assert forall|i: int|
                0 <= i < self.slots@.len() && #[trigger] is_message_slot(self.slots@[i]) implies (
                slot_message_index(self.slots@[i]) as int) < self.next_message_index by {
                assert(is_message_slot(before.slots@[i]));
                assert(slot_message_index(self.slots@[i]) == slot_message_index(before.slots@[i]));
            }
        }
        true
    }

    /// The files that the messages expired by `now` point to, in index order:
    /// read before `take_expired` with the same `now`, they are the files whose
    /// storage the sweep frees.
    pub fn expired_files(&self, now: TimestampMillis) -> (r: Vec<BlobReference>)
        requires
            self.wf(),
        ensures
            r@ == due_files(self.slots_spec(), now),
    {
        let mut files: Vec<BlobReference> = Vec::new();
        let mut k: usize = 0;
        while k < self.slots.len()
            invariant
                0 <= k <= self.slots@.len(),
                files@ == due_files(self.slots@.subrange(0, k as int), now),
            decreases self.slots@.len() - k,
        {
            let ghost before = files@;
            let ghost pre = self.slots@.subrange(0, k as int);
            proof {
                assert(self.slots@.subrange(0, k + 1).drop_last() =~= pre);
            }
            match &self.slots[k] {
                Some(w) => {
                    let due = match w.expires_at {
                        Some(t) => t <= now,
                        None => false,
                    };
                    if due {
                        if let Some(m) = w.event.as_message() {
                            let refs = m.content.blob_references();
                            let mut j: usize = 0;
                            while j < refs.len()
                                invariant
                                    0 <= j <= refs@.len(),
                                    files@ == before + refs@.subrange(0, j as int),
                                decreases refs@.len() - j,
                            {
                                files.push(refs[j]);
                                proof {
                                    assert(files@ =~= before + refs@.subrange(0, j + 1));
                                }
                                j = j + 1;
                            }
                            proof {
                                assert(refs@.subrange(0, refs@.len() as int) =~= refs@);
                            }
                        }
                    }
                },
                None => {},
            }
            proof {
                assert(files@ =~= due_files(self.slots@.subrange(0, k + 1), now));
            }
            k = k + 1;
        }
        proof {
            assert(self.slots@.subrange(0, self.slots@.len() as int) =~= self.slots@);
        }
        files
    }

    /// Removes every event that has expired by `now` and reports the removed
    /// indices as closed ranges, adjacent indices merged into one range. Indices
    /// are never given out again, and every other event stays as it was.
    pub fn take_expired(&mut self, now: TimestampMillis) -> (r: Vec<(EventIndex, EventIndex)>)
        requires
            old(self).wf(),
        ensures
            final(self).wf(),
            final(self).kind_spec() == old(self).kind_spec(),
            final(self).next_message_index_spec() == old(self).next_message_index_spec(),
            final(self).slots_spec().len() == old(self).slots_spec().len(),
            forall|i: int|
                0 <= i < old(self).slots_spec().len() ==> #[trigger] final(self).slots_spec()[i] == if is_due(
                    old(self).slots_spec()[i],
                    now,
                ) {
                    None
                } else {
                    old(self).slots_spec()[i]
                },
            ranges_coalesced(r@),
            forall|x: EventIndex|
                in_ranges(r@, x as int) <==> ((x as int) < old(self).slots_spec().len() && is_due(
                    old(self).slots_spec()[x as int],
                    now,
                )),
            swept(*old(self), now, *final(self)),
    {
        let ghost start = self.slots@;
        let mut taken: Vec<EventIndex> = Vec::new();
        let mut k: usize = 1;
        while k < self.slots.len()
            invariant
                self.wf(),
                1 <= k <= self.slots@.len(),
                self.slots@.len() == start.len(),
                self.kind == old(self).kind,
                self.next_message_index == old(self).next_message_index,
                start == old(self).slots@,
                forall|i: int|
                    0 <= i < start.len() ==> #[trigger] self.slots@[i] == if i < k && is_due(start[i], now) {
                        None
                    } else {
                        start[i]
                    },
                strictly_increasing(taken@),
                forall|j: int| 0 <= j < taken@.len() ==> taken@[j] < k,
                forall|x: EventIndex|
                    taken@.contains(x) <==> ((x as int) < k && is_due(start[x as int], now)),
            decreases start.len() - k,
        {
            let due = match &self.slots[k] {
                Some(w) => match w.expires_at {
                    Some(t) => t <= now,
                    None => false,
                },
                None => false,
            };
            assert(self.slots@[k as int] == start[k as int]);
            if due {
                let ghost mid = self.slots@;
                self.remove_slot(k);
                let ghost old_taken = taken@;
                taken.push(k as EventIndex);
                proof {
                    assert forall|x: EventIndex|
                        taken@.contains(x) <==> ((x as int) < k + 1 && is_due(start[x as int], now)) by {
                        if x as int == k as int {
                            assert(taken@[old_taken.len() as int] == x);
                        } else if old_taken.contains(x) {
                            let m = choose|m: int| 0 <= m < old_taken.len() && old_taken[m] == x;
                            assert(taken@[m] == x);
                        }
                        if taken@.contains(x) && x as int != k as int {
                            let m = choose|m: int| 0 <= m < taken@.len() && taken@[m] == x;
                            assert(old_taken[m] == x);
                        }
                    }
                    assert forall|i: int| 0 <= i < start.len() implies #[trigger] self.slots@[i] == if i < k
                        + 1 && is_due(start[i], now) {
                        None
                    } else {
                        start[i]
                    } by {
                        assert(mid[i] == if i < k && is_due(start[i], now) {
                            None
                        } else {
                            start[i]
                        });
                    }
                }
            } else {
                proof {
                    assert forall|x: EventIndex|
                        taken@.contains(x) <==> ((x as int) < k + 1 && is_due(start[x as int], now)) by {
                        if x as int == k as int {
                            if taken@.contains(x) {
                                let m = choose|m: int| 0 <= m < taken@.len() && taken@[m] == x;
                            }
                        }
                    }
                }
            }
            k = k + 1;
        }
        proof {
            assert forall|x: EventIndex|
                taken@.contains(x) <==> ((x as int) < start.len() && is_due(start[x as int], now)) by {
                if (x as int) == 0 {
                    assert(start[0] is None);
                }
            }
        }
        coalesce(&taken)
    }

    /// Reads from `start`, ascending or descending, taking each held event until
    /// `max_events` events or `max_messages` messages have been taken.
    pub fn range(&self, start: EventIndex, ascending: bool, max_events: u32, max_messages: u32) -> (r: Vec<
        EventIndex,
    >)
        requires
            self.wf(),
        ensures
            r@ == if ascending {
                range_asc(self.slots_spec(), start as int, max_events as nat, max_messages as nat)
            } else {
                range_desc(self.slots_spec(), start as int, max_events as nat, max_messages as nat)
            },
    {
        let ghost s = self.slots@;
        let mut result: Vec<EventIndex> = Vec::new();
        let mut me = max_events;
        let mut mm = max_messages;
        let mut p: usize = start as usize;
        if ascending {
            while p < self.slots.len() && me > 0 && mm > 0
                invariant
                    s == self.slots@,
                    self.wf(),
                    result@ + range_asc(s, p as int, me as nat, mm as nat) == range_asc(
                        s,
                        start as int,
                        max_events as nat,
                        max_messages as nat,
                    ),
                decreases s.len() - p,
            {
                let ghost acc = result@;
                let ghost tail = range_asc(s, p as int + 1, (me - 1) as nat, (if is_message_slot(s[p as int]) {
                    (mm - 1) as nat
                } else {
                    mm as nat
                }));
                match &self.slots[p] {
                    Some(w) => {
                        result.push(p as EventIndex);
                        me = me - 1;
                        if w.event.is_message() {
                            mm = mm - 1;
                        }
                        proof {
                            assert(acc.push(p as EventIndex) + tail =~= acc + (seq![p as EventIndex] + tail));
                        }
                    },
                    None => {},
                }
                p = p + 1;
            }
        } else {
            if p < self.slots.len() {
                while p > 0 && me > 0 && mm > 0
                    invariant
                        s == self.slots@,
                        self.wf(),
                        p < s.len(),
                        result@ + range_desc(s, p as int, me as nat, mm as nat) == range_desc(
                            s,
                            start as int,
                            max_events as nat,
                            max_messages as nat,
                        ),
                    decreases p,
                {
                    let ghost acc = result@;
                    let ghost tail = range_desc(s, p as int - 1, (me - 1) as nat, (if is_message_slot(
                        s[p as int],
                    ) {
                        (mm - 1) as nat
                    } else {
                        mm as nat
                    }));
                    match &self.slots[p] {
                        Some(w) => {
                            result.push(p as EventIndex);
                            me = me - 1;
                            if w.event.is_message() {
                                mm = mm - 1;
                            }
                            proof {
                                assert(acc.push(p as EventIndex) + tail =~= acc + (seq![p as EventIndex] + tail));
                            }
                        },
                        None => {},
                    }
                    p = p - 1;
                }
                proof {
                    if p == 0 && me > 0 && mm > 0 {
                        assert(range_desc(s, -1, me as nat, mm as nat) == Seq::<EventIndex>::empty());
                    }
                }
            }
        }
        proof {
            assert(result@ + Seq::<EventIndex>::empty() =~= result@);
        }
        result
    }

    /// The page around `mid`, in ascending order: see `window_spec`.
    pub fn window(&self, mid: EventIndex, max_messages: u32, max_events: u32) -> (r: Vec<EventIndex>)
        requires
            self.wf(),
        ensures
            r@ == window_spec(self.slots_spec(), mid as int, max_messages as nat, max_events as nat),
    {
        let ghost s = self.slots@;
        let m = mid as usize;
        if m == 0 || m >= self.slots.len() || max_messages == 0 || max_events == 0 {
            return Vec::new();
        }
        let is_message = match &self.slots[m] {
            Some(w) => w.event.is_message(),
            None => {
                return Vec::new();
            },
        };
        let e = max_events - 1;
        let mm = if is_message {
            max_messages - 1
        } else {
            max_messages
        };
        let before = self.range(mid - 1, false, e / 2, mm / 2);
        let after = if m + 1 < self.slots.len() {
            self.range(mid + 1, true, e - e / 2, mm - mm / 2)
        } else {
            Vec::new()
        };
        proof {
            if m + 1 >= self.slots@.len() {
                assert(range_asc(s, mid + 1, (e - e / 2) as nat, (mm - mm / 2) as nat) == Seq::<EventIndex>::empty());
            }
        }
        let mut result: Vec<EventIndex> = Vec::new();
        let mut j: usize = before.len();
        while j > 0
            invariant
                j <= before@.len(),
                result@ == before@.subrange(j as int, before@.len() as int).reverse(),
            decreases j,
        {
            let ghost prev = result@;
            result.push(before[j - 1]);
            proof {
                assert(result@ =~= before@.subrange(j - 1, before@.len() as int).reverse());
            }
            j = j - 1;
        }
        proof {
            assert(before@.subrange(0, before@.len() as int) =~= before@);
        }
        result.push(mid);
        let mut k: usize = 0;
        let ghost head = result@;
        while k < after.len()
            invariant
                k <= after@.len(),
                result@ == head + after@.subrange(0, k as int),
            decreases after@.len() - k,
        {
            result.push(after[k]);
            proof {
                assert(result@ =~= head + after@.subrange(0, k + 1));
            }
            k = k + 1;
        }
        proof {
            assert(after@.subrange(0, after@.len() as int) =~= after@);
        }
        result
    }

    /// Looks up the requested indices for a reader who may see events from
    /// `min_visible` on, and parts them into the events the reader sees, the
    /// ranges of expired events, and the indices the reader may not see. Indices
    /// never given out are left out. Expired ranges are merged where requested
    /// indices run on; for an increasing request they are fully coalesced.
    pub fn events_by_index(&self, indices: &Vec<EventIndex>, min_visible: EventIndex) -> (r: (
        Vec<EventIndex>,
        Vec<(EventIndex, EventIndex)>,
        Vec<EventIndex>,
    ))
        requires
            self.wf(),
        ensures
            r.0@ == indices_with(self.slots_spec(), indices@, min_visible, IndexVisibility::Visible),
            r.2@ == indices_with(self.slots_spec(), indices@, min_visible, IndexVisibility::Unauthorized),
            forall|x: EventIndex|
                in_ranges(r.1@, x as int) <==> indices_with(
                    self.slots_spec(),
                    indices@,
                    min_visible,
                    IndexVisibility::Expired,
                ).contains(x),
            forall|i: int| 0 <= i < r.1@.len() ==> r.1@[i].0 <= r.1@[i].1,
            strictly_increasing(indices@) ==> ranges_coalesced(r.1@),
    {
        let ghost s = self.slots@;
        let mut visible: Vec<EventIndex> = Vec::new();
        let mut expired: Vec<EventIndex> = Vec::new();
        let mut unauthorized: Vec<EventIndex> = Vec::new();
        let mut i: usize = 0;
        while i < indices.len()
            invariant
                0 <= i <= indices@.len(),
                s == self.slots@,
                self.wf(),
                visible@ == indices_with(s, indices@.subrange(0, i as int), min_visible, IndexVisibility::Visible),
                expired@ == indices_with(s, indices@.subrange(0, i as int), min_visible, IndexVisibility::Expired),
                unauthorized@ == indices_with(
                    s,
                    indices@.subrange(0, i as int),
                    min_visible,
                    IndexVisibility::Unauthorized,
                ),
                strictly_increasing(indices@) ==> strictly_increasing(expired@),
                strictly_increasing(indices@) && expired@.len() > 0 && i < indices@.len() ==> expired@.last()
                    < indices@[i as int],
            decreases indices@.len() - i,
        {
            let x = indices[i];
            let ghost pre = indices@.subrange(0, i as int);
            proof {
                assert(indices@.subrange(0, i + 1).drop_last() =~= pre);
                assert(indices@.subrange(0, i + 1).last() == x);
            }
            let k = x as usize;
            if k > 0 && k < self.slots.len() {
                match &self.slots[k] {
                    None => {
                        let ghost before = expired@;
                        expired.push(x);
                        proof {
                            if strictly_increasing(indices@) {
                                assert forall|a: int, b: int| 0 <= a < b < expired@.len() implies expired@[a]
                                    < expired@[b] by {
                                    if b == expired@.len() - 1 && a < before.len() {
                                        assert(before[a] <= before.last());
                                        if a < before.len() - 1 {
                                            assert(before[a] < before[before.len() - 1]);
                                        }
                                    }
                                }
                                if i + 1 < indices@.len() {
                                    assert(indices@[i as int] < indices@[i + 1]);
                                }
                            }
                        }
                    },
                    Some(_) => {
                        if x < min_visible {
                            unauthorized.push(x);
                        } else {
                            visible.push(x);
                        }
                        proof {
                            if strictly_increasing(indices@) && expired@.len() > 0 && i + 1 < indices@.len() {
                                assert(indices@[i as int] < indices@[i + 1]);
                            }
                        }
                    },
                }
            } else {
                proof {
                    if strictly_increasing(indices@) && expired@.len() > 0 && i + 1 < indices@.len() {
                        assert(indices@[i as int] < indices@[i + 1]);
                    }
                }
            }
            i = i + 1;
        }
        proof {
            assert(indices@.subrange(0, indices@.len() as int) =~= indices@);
        }
        let ranges = coalesce(&expired);
        (visible, ranges, unauthorized)
    }

    /// The event with the given index, if it exists and has not expired.
    pub fn get_by_index(&self, index: EventIndex) -> (r: Option<&Envelope>)
        requires
            self.wf(),
        ensures
            r == if (index as int) < self.slots_spec().len() {
                match self.slots_spec()[index as int] {
                    Some(w) => Some(&w),
                    None => None,
                }
            } else {
                None
            },
    {
        if (index as usize) < self.slots.len() {
            match &self.slots[index as usize] {
                Some(w) => Some(w),
                None => None,
            }
        } else {
            None
        }
    }

    /// Where the message with the given id stands: its event index and message index.
    pub fn get_by_message_id(&self, message_id: MessageId) -> (r: Option<(EventIndex, MessageIndex)>)
        requires
            self.wf(),
        ensures
            match r {
                Some((e, m)) => self.holds_message(e as int, message_id) && slot_message_index(
                    self.slots_spec()[e as int],
                ) == m,
                None => forall|i: int| !self.holds_message(i, message_id),
            },
    {
        match self.message_ids.get(&message_id) {
            Some(found) => Some(*found),
            None => {
                proof {
                    assert forall|i: int| !self.holds_message(i, message_id) by {
                        if self.holds_message(i, message_id) {
                            assert(slot_message_id(self.slots@[i]) is Some);
                        }
                    }
                }
                None
            },
        }
    }
}

} // verus!
