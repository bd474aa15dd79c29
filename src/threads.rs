use crate::chat_event_internal::ChatEventInternal;
use crate::event_log::{append_outcome, is_message_slot, slot_message_index, AppendError, ChatEventLog, ChatKind};
use crate::ids::{EventIndex, MessageIndex, Milliseconds, TimestampMillis, UserId};
use vstd::prelude::*;

verus! {

/// Why a thread reply was refused.
#[derive(Clone, Copy, Debug, PartialEq, Eq, Structural)]
pub enum ThreadAppendError {
    /// No message of the main log has the given message index.
    RootNotFound,
    /// The thread's log refused the reply.
    Append(AppendError),
}

/// A chat's events: its main log, and a log for each thread, addressed by the
/// message index of the thread's root message in the main log.
pub struct ChatEvents {
    main: ChatEventLog,
    threads: Vec<(MessageIndex, ChatEventLog)>,
}

/// The main log holds a message with the given message index.
pub open spec fn has_root(main: ChatEventLog, root: MessageIndex) -> bool {
    exists|i: int|
        0 <= i < main.slots_spec().len() && #[trigger] is_message_slot(main.slots_spec()[i]) && slot_message_index(
            main.slots_spec()[i],
        ) == root
}

pub open spec fn thread_log_ok(entry: (MessageIndex, ChatEventLog)) -> bool {
    entry.1.wf() && entry.1.kind_spec() == ChatKind::Thread
}

/// Each thread log is well formed and of a thread, and no two share a root.
pub open spec fn threads_wf(threads: Seq<(MessageIndex, ChatEventLog)>) -> bool {
    &&& forall|t: int| 0 <= t < threads.len() ==> #[trigger] thread_log_ok(threads[t])
    &&& forall|a: int, b: int| 0 <= a < b < threads.len() ==> #[trigger] threads[a].0 != #[trigger] threads[b].0
}

proof fn lemma_threads_wf_push(s: Seq<(MessageIndex, ChatEventLog)>, root: MessageIndex, log: ChatEventLog)
    requires
        threads_wf(s),
        forall|t: int| 0 <= t < s.len() ==> #[trigger] s[t].0 != root,
        log.wf(),
        log.kind_spec() == ChatKind::Thread,
    ensures
        threads_wf(s.push((root, log))),
{
    let n = s.push((root, log));
    assert forall|t: int| 0 <= t < n.len() implies #[trigger] thread_log_ok(n[t]) by {
        if t < s.len() {
            assert(n[t] == s[t]);
        }
    }
    assert forall|a: int, b: int| 0 <= a < b < n.len() implies #[trigger] n[a].0 != #[trigger] n[b].0 by {
        assert(n[a] == s[a]);
        if b < s.len() {
            assert(n[b] == s[b]);
        }
    }
}

proof fn lemma_threads_wf_update(s: Seq<(MessageIndex, ChatEventLog)>, t: int, log: ChatEventLog)
    requires
        threads_wf(s),
        0 <= t < s.len(),
        log.wf(),
        log.kind_spec() == ChatKind::Thread,
    ensures
        threads_wf(s.update(t, (s[t].0, log))),
{
    let n = s.update(t, (s[t].0, log));
    assert forall|u: int| 0 <= u < n.len() implies #[trigger] thread_log_ok(n[u]) by {
        if u != t {
            assert(n[u] == s[u]);
        }
    }
    assert forall|a: int, b: int| 0 <= a < b < n.len() implies #[trigger] n[a].0 != #[trigger] n[b].0 by {
        assert(n[a].0 == s[a].0);
        assert(n[b].0 == s[b].0);
    }
}

impl ChatEvents {
    pub closed spec fn main_spec(&self) -> ChatEventLog {
        self.main
    }

    /// The log of the thread under `root`, if it has one.
    pub closed spec fn thread_spec(&self, root: MessageIndex) -> Option<ChatEventLog> {
        if exists|t: int| 0 <= t < self.threads@.len() && #[trigger] self.threads@[t].0 == root {
            Some(self.threads@[choose|t: int| 0 <= t < self.threads@.len() && #[trigger] self.threads@[t].0 == root].1)
        } else {
            None
        }
    }

    pub closed spec fn wf(&self) -> bool {
        &&& self.main.wf()
        &&& self.main.kind_spec() != ChatKind::Thread
        &&& threads_wf(self.threads@)
    }

    /// A chat with empty logs; `kind` is the kind of its main log.
    pub fn new(kind: ChatKind) -> (r: ChatEvents)
        requires
            kind != ChatKind::Thread,
        ensures
            r.wf(),
            r.main_spec().kind_spec() == kind,
            r.main_spec().slots_spec() == seq![Option::<crate::event_log::Envelope>::None],
            forall|root: MessageIndex| r.thread_spec(root) is None,
    {
        ChatEvents { main: ChatEventLog::new(kind), threads: Vec::new() }
    }

    pub fn main(&self) -> (r: &ChatEventLog)
        requires
            self.wf(),
        ensures
            *r == self.main_spec(),
            r.wf(),
    {
        &self.main
    }

    fn thread_position(&self, root: MessageIndex) -> (r: Option<usize>)
        ensures
            match r {
                Some(t) => t < self.threads@.len() && self.threads@[t as int].0 == root,
                None => forall|t: int| 0 <= t < self.threads@.len() ==> #[trigger] self.threads@[t].0 != root,
            },
    {
        let mut t: usize = 0;
        while t < self.threads.len()
            invariant
                0 <= t <= self.threads@.len(),
                forall|u: int| 0 <= u < t ==> #[trigger] self.threads@[u].0 != root,
            decreases self.threads@.len() - t,
        {
            if self.threads[t].0 == root {
                return Some(t);
            }
            t = t + 1;
        }
        None
    }

    /// The log of the thread under `root`.
    pub fn thread(&self, root: MessageIndex) -> (r: Option<&ChatEventLog>)
        requires
            self.wf(),
        ensures
            match r {
                Some(log) => self.thread_spec(root) == Some(*log) && log.wf() && log.kind_spec() == ChatKind::Thread,
                None => self.thread_spec(root) is None,
            },
    {
        match self.thread_position(root) {
            Some(t) => {
                proof {
                    assert(thread_log_ok(self.threads@[t as int]));
                    assert(self.threads@[t as int].0 == root);
                    let c = choose|c: int| 0 <= c < self.threads@.len() && #[trigger] self.threads@[c].0 == root;
                    if c != t {
                        if c < t {
                            assert(self.threads@[c].0 != self.threads@[t as int].0);
                        } else {
                            assert(self.threads@[t as int].0 != self.threads@[c].0);
                        }
                    }
                }
                Some(&self.threads[t].1)
            },
            None => None,
        }
    }

    /// Appends an event to the main log.
    pub fn push_main_event(&mut self, event: ChatEventInternal, now: TimestampMillis, ttl: Option<Milliseconds>) -> (r:
        Result<EventIndex, AppendError>)
        requires
            old(self).wf(),
        ensures
            final(self).wf(),
            final(self).main_spec().kind_spec() == old(self).main_spec().kind_spec(),
            append_outcome(old(self).main_spec(), event, now, ttl, r, final(self).main_spec()),
            forall|root: MessageIndex| final(self).thread_spec(root) == old(self).thread_spec(root),
    {
        let ghost threads = self.threads@;
        let r = self.main.append(event, now, ttl);
        assert(self.threads@ == threads);
        r
    }

    /// Appends a reply to the thread under `root`, starting the thread's log on
    /// its first reply, and records the reply in the root message's thread
    /// summary (where its reply count is not yet at its maximum). Refused where
    /// the main log holds no message with index `root`, or where the thread's log
    /// refuses the reply; the main log is then unchanged.
    pub fn push_thread_message(
        &mut self,
        root: MessageIndex,
        event: ChatEventInternal,
        mentioned_users: &Vec<UserId>,
        now: TimestampMillis,
        ttl: Option<Milliseconds>,
    ) -> (r: Result<EventIndex, ThreadAppendError>)
        requires
            old(self).wf(),
        ensures
            final(self).wf(),
            r == Err::<EventIndex, ThreadAppendError>(ThreadAppendError::RootNotFound) <==> !has_root(
                old(self).main_spec(),
                root,
            ),
            r is Err ==> final(self).main_spec().slots_spec() == old(self).main_spec().slots_spec(),
            has_root(old(self).main_spec(), root) && !(event is Message) ==> r == Err::<
                EventIndex,
                ThreadAppendError,
            >(ThreadAppendError::Append(AppendError::InvalidForChat)),
            has_root(old(self).main_spec(), root) && event is Message && old(self).thread_spec(root) is None
                ==> r is Ok,
            has_root(old(self).main_spec(), root) && event is Message && old(self).thread_spec(root) is Some && {
                let log = old(self).thread_spec(root)->0;
                &&& !log.has_message_id(event->Message_0.message_id)
                &&& log.slots_spec().len() <= u32::MAX
                &&& log.next_message_index_spec() <= u32::MAX
            } ==> r is Ok,
            r is Ok ==> {
                let prev_len = match old(self).thread_spec(root) {
                    Some(log) => log.slots_spec().len(),
                    None => 1,
                };
                &&& final(self).thread_spec(root) is Some
                &&& r->Ok_0 as int == prev_len
                &&& final(self).thread_spec(root)->0.slots_spec().len() == prev_len + 1
                &&& final(self).thread_spec(root)->0.slots_spec()[prev_len as int] is Some
            },
    {
        let sender: UserId = match event.as_message() {
            Some(m) => m.sender,
            None => 0,
        };
        if self.main.find_message(root).is_none() {
            return Err(ThreadAppendError::RootNotFound);
        }
        let ghost old_self = *self;
        let t = match self.thread_position(root) {
            Some(t) => t,
            None => {
                let ghost before = self.threads@;
                let fresh = ChatEventLog::new(ChatKind::Thread);
                proof {
                    lemma_threads_wf_push(before, root, fresh);
                }
                self.threads.push((root, fresh));
                self.threads.len() - 1
            },
        };
        let ghost mid = *self;
        proof {
            assert(thread_log_ok(mid.threads@[t as int]));
        }
        let (thread_root, mut log) = self.threads.remove(t);
        assert(log == mid.threads@[t as int].1);
        let appended = log.append(event, now, ttl);
        let ghost thread_log = log;
        self.threads.insert(t, (thread_root, log));
        proof {
            assert(self.threads@ =~= mid.threads@.update(t as int, (root, thread_log)));
            lemma_threads_wf_update(mid.threads@, t as int, thread_log);
        }
        match appended {
            Ok(index) => {
                let ghost threads = self.threads@;
                assert(threads_wf(threads));
                self.main.mark_thread_reply(root, sender, mentioned_users, index, now);
                proof {
                    assert(self.threads@ == threads);
                    assert(self.threads@[t as int].0 == root);
                    let c = choose|c: int| 0 <= c < self.threads@.len() && #[trigger] self.threads@[c].0 == root;
                    if c != t {
                        if c < t {
                            assert(self.threads@[c].0 != self.threads@[t as int].0);
                        } else {
                            assert(self.threads@[t as int].0 != self.threads@[c].0);
                        }
                    }
                    if old(self).thread_spec(root) is Some {
                        let c0 = choose|c: int| 0 <= c < old_self.threads@.len() && #[trigger] old_self.threads@[c].0 == root;
                        if c0 != t {
                            if c0 < t {
                                assert(old_self.threads@[c0].0 != old_self.threads@[t as int].0);
                            } else {
                                assert(old_self.threads@[t as int].0 != old_self.threads@[c0].0);
                            }
                        }
                    } else {
                        assert forall|c: int| 0 <= c < old_self.threads@.len() implies #[trigger] old_self.threads@[c].0 != root by {}
                    }
                }
                Ok(index)
            },
            Err(e) => Err(ThreadAppendError::Append(e)),
        }
    }
}

} // verus!
