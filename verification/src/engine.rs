//! The producer engine: the multiplexing core's state machine.
//!
//! The engine is the single writer of two topic-keyed maps: sessions that
//! are ready, and creation attempts that are in flight. It consumes inbound
//! `(topic, message, caller)` items and decides, for each, which RPC its
//! driver must issue; creation outcomes are fed back in as plain values.
//! Callers that race on a topic with no session all chain onto the same
//! in-flight attempt, so at most one creation runs per topic at any
//! instant, and a failed attempt clears its entry so the next message
//! starts a fresh one.

use vstd::prelude::*;

use crate::assoc::{
    assoc_find, assoc_view, keys_unique, lemma_assoc_view_contains, lemma_assoc_view_contains_at,
    lemma_assoc_view_get, lemma_assoc_view_push, lemma_assoc_view_remove, lemma_keys_unique_push,
    lemma_remove_frees_key,
};
use crate::errors::{connection_error_text, ConnectionError, ProducerError};
use crate::message::{Message, SendReceipt};
use crate::sequence::SerialId;
use crate::session::{producer_after_send, spec_send_command, CloseRequest, Producer, SendCommand};

verus! {

/// One caller whose message waits on a topic's in-flight creation attempt.
#[derive(Debug, PartialEq, Eq)]
pub struct Waiter {
    pub caller: u64,
    pub message: Message,
}

/// The in-flight creation entry for one topic: every caller that arrived
/// for the topic while the attempt was unresolved, in arrival order.
pub struct PendingCreation {
    pub waiters: Vec<Waiter>,
}

/// What the engine asks its driver to do with one inbound message.
#[derive(Debug, PartialEq, Eq)]
pub enum EngineAction {
    /// The topic has a ready session: issue this send RPC as an
    /// independent unit of work and route its result to `caller`.
    Dispatch { command: SendCommand, caller: u64 },
    /// The topic had neither a session nor an in-flight creation: begin
    /// exactly one creation attempt for it.
    StartCreation { topic: String },
    /// An in-flight creation already existed; the message was chained onto
    /// it and no RPC is issued.
    Chained,
}

/// How the engine resolves one waiting caller once a creation attempt
/// finishes.
#[derive(Debug, PartialEq, Eq)]
pub enum Resolution {
    /// Creation succeeded: issue this send RPC and route its result to
    /// `caller`.
    Dispatch { command: SendCommand, caller: u64 },
    /// Creation failed: resolve `caller` with `error` immediately.
    Failed { caller: u64, error: ProducerError },
}

/// The abstract engine state: the ready sessions and the waiters of each
/// in-flight creation, both keyed by topic.
#[verifier::ext_equal]
pub struct EngineView {
    pub ready: Map<Seq<char>, Producer>,
    pub pending: Map<Seq<char>, Seq<Waiter>>,
}

impl EngineView {
    /// A topic is never both ready and in flight, and every ready session
    /// sits under its own topic.
    pub open spec fn wf(self) -> bool {
        &&& self.ready.dom().disjoint(self.pending.dom())
        &&& forall|t: Seq<char>| #[trigger]
            self.ready.contains_key(t) ==> self.ready[t].topic@ == t
    }
}

/// Whether a message for topic `t` arriving at state `s` begins a creation
/// attempt — that is, whether `t` has neither a session nor one in flight.
pub open spec fn starts_creation(s: EngineView, t: Seq<char>) -> bool {
    !s.ready.contains_key(t) && !s.pending.contains_key(t)
}

/// The engine state after one inbound message for topic `t`: a ready
/// session dispatches at once (drawing a sequence number), an in-flight
/// creation gains a waiter, and an unseen topic gains an in-flight entry
/// with this one waiter.
pub open spec fn message_step(s: EngineView, t: Seq<char>, m: Message, c: u64) -> EngineView {
    if s.ready.contains_key(t) {
        EngineView { ready: s.ready.insert(t, producer_after_send(s.ready[t])), ..s }
    } else if s.pending.contains_key(t) {
        EngineView {
            pending: s.pending.insert(t, s.pending[t].push(Waiter { caller: c, message: m })),
            ..s
        }
    } else {
        EngineView { pending: s.pending.insert(t, seq![Waiter { caller: c, message: m }]), ..s }
    }
}

/// The engine state after topic `t`'s creation attempt resolved to session
/// `p`: the attempt's entry is gone and the session is ready, its counter
/// advanced past the sequence numbers drawn for the attempt's waiters.
pub open spec fn creation_success_step(s: EngineView, t: Seq<char>, p: Producer) -> EngineView {
    EngineView {
        ready: s.ready.insert(
            t,
            Producer { message_id: SerialId { next: s.pending[t].len() as u64 }, ..p },
        ),
        pending: s.pending.remove(t),
    }
}

/// The engine state after topic `t`'s creation attempt failed: the entry is
/// dropped and nothing else changes — no error is cached.
pub open spec fn creation_failure_step(s: EngineView, t: Seq<char>) -> EngineView {
    EngineView { pending: s.pending.remove(t), ..s }
}

/// A message leaves the abstract state well-formed.
pub proof fn lemma_message_step_wf(s: EngineView, t: Seq<char>, m: Message, c: u64)
    requires
        s.wf(),
    ensures
        message_step(s, t, m, c).wf(),
{
}

/// The multiplexing engine. It alone mutates the two maps; its driver
/// performs the RPCs the returned actions describe.
pub struct ProducerEngine {
    pub producers: Vec<(String, Producer)>,
    pub new_producers: Vec<(String, PendingCreation)>,
}

impl View for ProducerEngine {
    type V = EngineView;

    open spec fn view(&self) -> EngineView {
        EngineView {
            ready: assoc_view(self.producers@),
            pending: assoc_view(self.new_producers@).map_values(|pc: PendingCreation| pc.waiters@),
        }
    }
}

impl ProducerEngine {
    /// The representation invariant: distinct keys in each map, and the
    /// abstract state well-formed — no topic both ready and in flight, and
    /// each session keyed under its own topic.
    pub open spec fn wf(&self) -> bool {
        &&& keys_unique(self.producers@)
        &&& keys_unique(self.new_producers@)
        &&& self@.wf()
    }

    /// An engine with no sessions and no in-flight creations.
    pub fn new() -> (e: ProducerEngine)
        ensures
            e.wf(),
            e@.ready == Map::<Seq<char>, Producer>::empty(),
            e@.pending == Map::<Seq<char>, Seq<Waiter>>::empty(),
    {
        let e = ProducerEngine { producers: Vec::new(), new_producers: Vec::new() };
        proof {
            assert(e@.ready =~= Map::<Seq<char>, Producer>::empty());
            assert(e@.pending =~= Map::<Seq<char>, Seq<Waiter>>::empty());
        }
        e
    }

    /// One inbound `(topic, message, caller)` item. The returned action is
    /// a dispatch exactly when the topic's session is ready, chains the
    /// message exactly when a creation is already in flight, and begins a
    /// creation — the only way one ever begins — exactly when the topic has
    /// neither.
    pub fn handle_message(&mut self, topic: String, message: Message, caller: u64) -> (act:
        EngineAction)
        requires
            old(self).wf(),
            old(self)@.ready.contains_key(topic@) ==> old(self)@.ready[topic@].message_id.next
                < u64::MAX,
        ensures
            final(self).wf(),
            final(self)@ == message_step(old(self)@, topic@, message, caller),
            match act {
                EngineAction::Dispatch { command, caller: c } => {
                    &&& old(self)@.ready.contains_key(topic@)
                    &&& command == spec_send_command(old(self)@.ready[topic@], message, None)
                    &&& c == caller
                },
                EngineAction::StartCreation { topic: t } => {
                    &&& starts_creation(old(self)@, topic@)
                    &&& t@ == topic@
                },
                EngineAction::Chained => {
                    &&& !old(self)@.ready.contains_key(topic@)
                    &&& old(self)@.pending.contains_key(topic@)
                },
            },
    {
        let ghost v0 = self@;
        proof {
            lemma_message_step_wf(v0, topic@, message, caller);
        }
        match assoc_find(&self.producers, &topic) {
            Some(i) => {
                let ghost ps0 = self.producers@;
                proof {
                    lemma_assoc_view_get(ps0, i as int);
                }
                let (key, mut p) = self.producers.remove(i);
                let ghost key0 = key;
                let command = p.send(message, None);
                let ghost p1 = p;
                self.producers.push((key, p));
                proof {
                    lemma_assoc_view_remove(ps0, i as int);
                    lemma_remove_frees_key(ps0, i as int);
                    lemma_keys_unique_push(ps0.remove(i as int), key0, p1);
                    lemma_assoc_view_push(ps0.remove(i as int), key0, p1);
                    assert(self@.ready =~= message_step(v0, topic@, message, caller).ready);
                    assert(self@.pending =~= message_step(v0, topic@, message, caller).pending);
                    assert(self@ =~= message_step(v0, topic@, message, caller));
                }
                EngineAction::Dispatch { command, caller }
            },
            None => {
                match assoc_find(&self.new_producers, &topic) {
                    Some(i) => {
                        let ghost ns0 = self.new_producers@;
                        proof {
                            lemma_assoc_view_get(ns0, i as int);
                        }
                        let (key, mut pc) = self.new_producers.remove(i);
                        let ghost key0 = key;
                        pc.waiters.push(Waiter { caller, message });
                        let ghost pc1 = pc;
                        self.new_producers.push((key, pc));
                        proof {
                            lemma_assoc_view_remove(ns0, i as int);
                            lemma_remove_frees_key(ns0, i as int);
                            lemma_keys_unique_push(ns0.remove(i as int), key0, pc1);
                            lemma_assoc_view_push(ns0.remove(i as int), key0, pc1);
                            assert(self@.ready =~= message_step(v0, topic@, message, caller).ready);
                            assert(self@.pending =~= message_step(
                                v0,
                                topic@,
                                message,
                                caller,
                            ).pending);
                            assert(self@ =~= message_step(v0, topic@, message, caller));
                        }
                        EngineAction::Chained
                    },
                    None => {
                        let ghost ns0 = self.new_producers@;
                        let t = topic.clone();
                        let mut waiters: Vec<Waiter> = Vec::new();
                        waiters.push(Waiter { caller, message });
                        let pc = PendingCreation { waiters };
                        let ghost pc1 = pc;
                        let ghost key0 = topic;
                        self.new_producers.push((topic, pc));
                        proof {
                            lemma_assoc_view_contains(ns0);
                            assert forall|m: int| 0 <= m < ns0.len() implies ns0[m].0@
                                != key0@ by {
                                lemma_assoc_view_contains_at(ns0, m);
                            }
                            lemma_keys_unique_push(ns0, key0, pc1);
                            lemma_assoc_view_push(ns0, key0, pc1);
                            assert(self@.ready =~= message_step(v0, topic@, message, caller).ready);
                            assert(self@.pending =~= message_step(
                                v0,
                                topic@,
                                message,
                                caller,
                            ).pending);
                            assert(self@ =~= message_step(v0, topic@, message, caller));
                        }
                        EngineAction::StartCreation { topic: t }
                    },
                }
            },
        }
    }
}

/// Whether `rs` resolves each waiter of `ws`, in order, with one and the
/// same failure `err`.
pub open spec fn all_failed_with(rs: Seq<Resolution>, ws: Seq<Waiter>, err: ProducerError) -> bool {
    forall|i: int|
        0 <= i < ws.len() ==> rs[i] == (Resolution::Failed { caller: ws[i].caller, error: err })
}

impl ProducerEngine {
    /// The outcome of topic `topic`'s in-flight creation attempt, fed back
    /// by the driver. On success every waiting caller's message is
    /// dispatched through the new session in arrival order, under
    /// consecutive sequence numbers starting at 0, and the session becomes
    /// ready. On failure every waiting caller — and only those — receives
    /// one and the same failure, and the entry is dropped so the next
    /// message for the topic begins a fresh, independent attempt; nothing
    /// else is touched.
    pub fn handle_creation_result(&mut self, topic: &String, outcome: Result<
        Producer,
        ConnectionError,
    >) -> (rs: Vec<Resolution>)
        requires
            old(self).wf(),
            old(self)@.pending.contains_key(topic@),
            (outcome matches Ok(p) ==> p.topic@ == topic@ && p.message_id.next == 0),
        ensures
            final(self).wf(),
            ({
                let ws = old(self)@.pending[topic@];
                match outcome {
                    Ok(p) => {
                        &&& final(self)@ == creation_success_step(old(self)@, topic@, p)
                        &&& rs@.len() == ws.len()
                        &&& forall|i: int|
                            0 <= i < ws.len() ==> rs@[i] == (Resolution::Dispatch {
                                command: SendCommand {
                                    producer_id: p.id,
                                    producer_name: p.name,
                                    sequence_id: i as u64,
                                    num_messages: None,
                                    message: ws[i].message,
                                },
                                caller: ws[i].caller,
                            })
                    },
                    Err(e) => {
                        &&& final(self)@ == creation_failure_step(old(self)@, topic@)
                        &&& rs@.len() == ws.len()
                        &&& exists|err: ProducerError|
                            (#[trigger] all_failed_with(rs@, ws, err)) && (err
                                matches ProducerError::Custom(s) && s@ == connection_error_text(e))
                    },
                }
            }),
    {
        let ghost v0 = self@;
        let ghost ns0 = self.new_producers@;
        proof {
            assert(assoc_view(ns0).contains_key(topic@));
        }
        let idx = match assoc_find(&self.new_producers, topic) {
            Some(i) => i,
            None => {
                proof {
                    assert(false);
                }
                0
            },
        };
        proof {
            lemma_assoc_view_get(ns0, idx as int);
            lemma_assoc_view_remove(ns0, idx as int);
        }
        let (key, pc) = self.new_producers.remove(idx);
        let ghost key0 = key;
        let ghost ws0 = pc.waiters@;
        let n = pc.waiters.len();
        let mut ws = pc.waiters;
        let mut rs: Vec<Resolution> = Vec::new();
        match outcome {
            Ok(p) => {
                let ghost pg = p;
                let mut p = p;
                while ws.len() > 0
                    invariant
                        rs@.len() + ws@.len() == ws0.len(),
                        ws0.len() == n,
                        ws@ =~= ws0.skip(rs@.len() as int),
                        p.id == pg.id && p.name == pg.name && p.topic == pg.topic,
                        p.message_id.next == rs@.len(),
                        forall|i: int|
                            0 <= i < rs@.len() ==> rs@[i] == (Resolution::Dispatch {
                                command: SendCommand {
                                    producer_id: pg.id,
                                    producer_name: pg.name,
                                    sequence_id: i as u64,
                                    num_messages: None,
                                    message: ws0[i].message,
                                },
                                caller: ws0[i].caller,
                            }),
                    decreases ws@.len(),
                {
                    proof {
                        assert(ws@[0] == ws0[rs@.len() as int]);
                    }
                    let w = ws.remove(0);
                    let cmd = p.send(w.message, None);
                    rs.push(Resolution::Dispatch { command: cmd, caller: w.caller });
                    proof {
                        assert(ws@ =~= ws0.skip(rs@.len() as int));
                    }
                }
                let ghost ps1 = self.producers@;
                proof {
                    assert forall|m: int| 0 <= m < ps1.len() implies ps1[m].0@ != key0@ by {
                        lemma_assoc_view_contains_at(ps1, m);
                    }
                    lemma_keys_unique_push(ps1, key0, p);
                    lemma_assoc_view_push(ps1, key0, p);
                }
                self.producers.push((key, p));
                proof {
                    assert(self@.ready =~= creation_success_step(v0, topic@, pg).ready);
                    assert(self@.pending =~= creation_success_step(v0, topic@, pg).pending);
                    assert(self@ =~= creation_success_step(v0, topic@, pg));
                }
                rs
            },
            Err(e) => {
                let desc = e.description();
                let ghost descg = desc;
                while ws.len() > 0
                    invariant
                        rs@.len() + ws@.len() == ws0.len(),
                        ws@ =~= ws0.skip(rs@.len() as int),
                        forall|i: int|
                            0 <= i < rs@.len() ==> rs@[i] == (Resolution::Failed {
                                caller: ws0[i].caller,
                                error: ProducerError::Custom(descg),
                            }),
                        desc == descg,
                    decreases ws@.len(),
                {
                    proof {
                        assert(ws@[0] == ws0[rs@.len() as int]);
                    }
                    let w = ws.remove(0);
                    rs.push(
                        Resolution::Failed { caller: w.caller, error: ProducerError::Custom(
                            desc.clone(),
                        ) },
                    );
                    proof {
                        assert(ws@ =~= ws0.skip(rs@.len() as int));
                    }
                }
                proof {
                    let err0 = ProducerError::Custom(descg);
                    assert(all_failed_with(rs@, ws0, err0));
                    assert(err0 matches ProducerError::Custom(s) && s@ == connection_error_text(
                        e,
                    ));
                    assert(self@.ready =~= creation_failure_step(v0, topic@).ready);
                    assert(self@.pending =~= creation_failure_step(v0, topic@).pending);
                    assert(self@ =~= creation_failure_step(v0, topic@));
                }
                rs
            },
        }
    }

    /// Ends the engine once its inbound queue is closed and drained: every
    /// ready session is released, owing the broker exactly one close
    /// notification per session — the driver fires these without awaiting
    /// them, and their outcomes, failures included, are discarded — and the
    /// in-flight creation entries are dropped.
    pub fn shutdown(&mut self) -> (rs: Vec<CloseRequest>)
        requires
            old(self).wf(),
        ensures
            final(self).wf(),
            final(self)@.ready == Map::<Seq<char>, Producer>::empty(),
            final(self)@.pending == Map::<Seq<char>, Seq<Waiter>>::empty(),
            rs@.len() == old(self).producers@.len(),
            forall|i: int|
                0 <= i < rs@.len() ==> rs@[i].producer_id == old(self).producers@[i].1.id,
    {
        let ghost ps0 = self.producers@;
        let mut rs: Vec<CloseRequest> = Vec::new();
        while self.producers.len() > 0
            invariant
                rs@.len() + self.producers@.len() == ps0.len(),
                self.producers@ =~= ps0.skip(rs@.len() as int),
                forall|i: int| 0 <= i < rs@.len() ==> rs@[i].producer_id == ps0[i].1.id,
            decreases self.producers@.len(),
        {
            proof {
                assert(self.producers@[0] == ps0[rs@.len() as int]);
            }
            let (_key, p) = self.producers.remove(0);
            rs.push(p.close_command());
            proof {
                assert(self.producers@ =~= ps0.skip(rs@.len() as int));
            }
        }
        self.new_producers.clear();
        proof {
            assert(self@.ready =~= Map::<Seq<char>, Producer>::empty());
            assert(self@.pending =~= Map::<Seq<char>, Seq<Waiter>>::empty());
        }
        rs
    }
}

/// How many messages of a burst for topic `t` begin a creation attempt.
pub open spec fn creations_started(s: EngineView, t: Seq<char>, events: Seq<(Message, u64)>) -> nat
    decreases events.len(),
{
    if events.len() == 0 {
        0
    } else {
        (if starts_creation(s, t) {
            1nat
        } else {
            0nat
        }) + creations_started(message_step(s, t, events[0].0, events[0].1), t, events.drop_first())
    }
}

/// Law: while a creation attempt for `t` is in flight, no message for `t`
/// begins another — every one chains onto the same attempt.
pub proof fn lemma_no_creation_while_pending(
    s: EngineView,
    t: Seq<char>,
    events: Seq<(Message, u64)>,
)
    requires
        s.pending.contains_key(t),
    ensures
        creations_started(s, t, events) == 0,
    decreases events.len(),
{
    if events.len() > 0 {
        lemma_no_creation_while_pending(
            message_step(s, t, events[0].0, events[0].1),
            t,
            events.drop_first(),
        );
    }
}

/// Law: any number of messages sent to a topic with no session and no
/// in-flight creation collapse into exactly one creation attempt — the
/// first begins it, every later one of the burst chains onto it.
pub proof fn lemma_concurrent_sends_one_creation(
    s: EngineView,
    t: Seq<char>,
    events: Seq<(Message, u64)>,
)
    requires
        !s.ready.contains_key(t),
        !s.pending.contains_key(t),
        events.len() >= 1,
    ensures
        creations_started(s, t, events) == 1,
{
    let s1 = message_step(s, t, events[0].0, events[0].1);
    assert(s1.pending.contains_key(t));
    lemma_no_creation_while_pending(s1, t, events.drop_first());
}

/// Law: a burst of messages to a topic whose session is ready begins no
/// creation attempt — each is dispatched against the existing session.
pub proof fn lemma_ready_topic_no_creation(
    s: EngineView,
    t: Seq<char>,
    events: Seq<(Message, u64)>,
)
    requires
        s.ready.contains_key(t),
    ensures
        creations_started(s, t, events) == 0,
    decreases events.len(),
{
    if events.len() > 0 {
        lemma_ready_topic_no_creation(
            message_step(s, t, events[0].0, events[0].1),
            t,
            events.drop_first(),
        );
    }
}

/// Law: after a creation attempt for `t` fails, `t` sits in neither map,
/// so the very next message for `t` begins a brand-new, independent
/// attempt.
pub proof fn lemma_failure_enables_fresh_attempt(s: EngineView, t: Seq<char>)
    requires
        s.wf(),
        s.pending.contains_key(t),
    ensures
        starts_creation(creation_failure_step(s, t), t),
{
    assert(!s.ready.contains_key(t));
}

/// Law: topics are fully independent — a message for topic `t` never
/// touches another topic's session or in-flight creation, so its handling
/// proceeds without regard to any other topic's state.
pub proof fn lemma_message_leaves_other_topics_alone(
    s: EngineView,
    t: Seq<char>,
    m: Message,
    c: u64,
    other: Seq<char>,
)
    requires
        t != other,
    ensures
        message_step(s, t, m, c).ready.contains_key(other) == s.ready.contains_key(other),
        s.ready.contains_key(other) ==> message_step(s, t, m, c).ready[other] == s.ready[other],
        message_step(s, t, m, c).pending.contains_key(other) == s.pending.contains_key(other),
        s.pending.contains_key(other) ==> message_step(s, t, m, c).pending[other]
            == s.pending[other],
{
}

/// Law: a creation outcome for topic `t` — success or failure — never
/// touches another topic's session or in-flight creation.
pub proof fn lemma_creation_outcome_leaves_other_topics_alone(
    s: EngineView,
    t: Seq<char>,
    p: Producer,
    other: Seq<char>,
)
    requires
        t != other,
    ensures
        creation_success_step(s, t, p).ready.contains_key(other) == s.ready.contains_key(other),
        s.ready.contains_key(other) ==> creation_success_step(s, t, p).ready[other]
            == s.ready[other],
        creation_success_step(s, t, p).pending.contains_key(other) == s.pending.contains_key(
            other,
        ),
        s.pending.contains_key(other) ==> creation_success_step(s, t, p).pending[other]
            == s.pending[other],
        creation_failure_step(s, t).ready == s.ready,
        creation_failure_step(s, t).pending.contains_key(other) == s.pending.contains_key(other),
        s.pending.contains_key(other) ==> creation_failure_step(s, t).pending[other]
            == s.pending[other],
{
}

/// The facade's resolution of one send: the engine's answer where one
/// arrived, and the engine-unavailable error where the result channel died
/// without one.
pub fn resolve_send_outcome(outcome: Option<Result<SendReceipt, ProducerError>>) -> (r: Result<
    SendReceipt,
    ProducerError,
>)
    ensures
        match outcome {
            Some(x) => r == x,
            None => r == Result::<SendReceipt, ProducerError>::Err(ProducerError::EngineUnavailable),
        },
{
    match outcome {
        Some(x) => x,
        None => Err(ProducerError::EngineUnavailable),
    }
}

} // verus!
