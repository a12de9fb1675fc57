//! The per-topic producer session and its creation handshake.
//!
//! A session passes through the states Uninitialized, LookupPending,
//! CreatePending, Ready and Closed. [`Producer::from_connection`] begins the
//! handshake and yields a [`ProducerCreation`] value covering the two
//! pending states; a [`Producer`] value is a session in the Ready state; and
//! [`Producer::close_command`] describes the close notification that moves
//! it to Closed. The driver around this crate performs each described RPC
//! against the connection collaborator and feeds the outcome back in as a
//! plain value.

use vstd::prelude::*;

use crate::errors::{ConnectionError, ProducerError};
use crate::message::{Message, message_rest_is_default, props_keys_unique};
use crate::sequence::SerialId;

verus! {

/// Relies on rand::random for session identities; nothing is assumed of
/// the value a draw returns.
pub assume_specification<T>[ rand::random::<T> ]() -> (r: T)
    where
        rand::distributions::Standard: rand::distributions::Distribution<T>,
;

/// Whether `id` differs from every identity in `ids`.
pub open spec fn id_free(ids: Seq<u64>, id: u64) -> bool {
    forall|i: int| 0 <= i < ids.len() ==> ids[i] != id
}

/// Whether `ids` holds `id`.
fn contains_id(ids: &Vec<u64>, id: u64) -> (r: bool)
    ensures
        r == !id_free(ids@, id),
{
    let mut i: usize = 0;
    while i < ids.len()
        invariant
            i <= ids@.len(),
            forall|j: int| 0 <= j < i ==> ids@[j] != id,
        decreases ids@.len() - i,
    {
        if ids[i] == id {
            return true;
        }
        i = i + 1;
    }
    false
}

/// A session identity that differs from every identity in `in_use`: a
/// random draw where that draw is free — the common case — and otherwise
/// the smallest numeral the list does not hold. Freshness never rests on
/// the randomness: a list of n identities cannot hold all of the n + 1
/// numerals 0 ..= n.
pub fn fresh_producer_id(in_use: &Vec<u64>) -> (id: u64)
    requires
        in_use@.len() < usize::MAX,
    ensures
        id_free(in_use@, id),
{
    let drawn: u64 = rand::random();
    if !contains_id(in_use, drawn) {
        return drawn;
    }
    let n = in_use.len();
    let mut k: usize = 0;
    while k <= n
        invariant
            n == in_use@.len(),
            n < usize::MAX,
            k <= n + 1,
            forall|j: int| 0 <= j < k ==> !(#[trigger] id_free(in_use@, j as u64)),
        decreases n + 1 - k,
    {
        if !contains_id(in_use, k as u64) {
            return k as u64;
        }
        k = k + 1;
    }
    proof {
        broadcast use vstd::seq_lib::seq_to_set_is_finite;

        let cands = Seq::new((n + 1) as nat, |j: int| j as u64);
        assert(cands.no_duplicates());
        cands.unique_seq_to_set();
        in_use@.lemma_cardinality_of_set();
        assert forall|v: u64| cands.to_set().contains(v) implies in_use@.to_set().contains(
            v,
        ) by {
            let j = choose|j: int| 0 <= j < cands.len() && cands[j] == v;
            assert(!id_free(in_use@, j as u64));
            let m = choose|m: int| 0 <= m < in_use@.len() && in_use@[m] == j as u64;
            assert(in_use@.to_set().contains(in_use@[m]));
        }
        vstd::set_lib::lemma_len_subset(cands.to_set(), in_use@.to_set());
        assert(false);
    }
    0
}

/// The arguments of a topic-resolution (lookup) RPC.
#[derive(Clone, Debug, PartialEq, Eq)]
pub struct LookupRequest {
    pub topic: String,
    pub authoritative: bool,
}

/// The arguments of a create-producer RPC: the two-step handshake's second
/// step, establishing a session identity with the broker.
#[derive(Clone, Debug, PartialEq, Eq)]
pub struct CreateRequest {
    pub topic: String,
    pub producer_id: u64,
    pub requested_name: Option<String>,
}

/// The broker's answer to a successful create-producer RPC.
#[derive(Clone, Debug, PartialEq, Eq)]
pub struct ProducerSuccess {
    pub producer_name: String,
}

/// The arguments of one send RPC.
#[derive(Clone, Debug, PartialEq, Eq)]
pub struct SendCommand {
    pub producer_id: u64,
    pub producer_name: String,
    pub sequence_id: u64,
    pub num_messages: Option<i32>,
    pub message: Message,
}

/// The arguments of the fire-and-forget close-producer RPC.
#[derive(Clone, Debug, PartialEq, Eq, Structural)]
pub struct CloseRequest {
    pub producer_id: u64,
}

/// A producer session in the Ready state: a broker-assigned identity bound
/// to one topic, with the session's own sequence-number generator.
#[derive(Debug, PartialEq, Eq)]
pub struct Producer {
    pub id: u64,
    pub name: String,
    pub topic: String,
    pub message_id: SerialId,
}

/// The send RPC that `p` issues next for message `m`: the session's
/// identity together with the current sequence number.
pub open spec fn spec_send_command(p: Producer, m: Message, n: Option<i32>) -> SendCommand {
    SendCommand {
        producer_id: p.id,
        producer_name: p.name,
        sequence_id: p.message_id.next,
        num_messages: n,
        message: m,
    }
}

/// The session `p` after drawing one sequence number: only the counter
/// advances.
pub open spec fn producer_after_send(p: Producer) -> Producer {
    Producer { message_id: SerialId { next: (p.message_id.next + 1) as u64 }, ..p }
}

impl Producer {
    /// A Ready session with the given broker-assigned identity; its
    /// sequence numbering starts at 0.
    pub fn new(id: u64, name: String, topic: String) -> (p: Producer)
        ensures
            p.id == id,
            p.name == name,
            p.topic == topic,
            p.message_id.next == 0,
    {
        Producer { id, name, topic, message_id: SerialId::new() }
    }

    /// Begins the creation handshake for `topic` over an existing
    /// connection: draws a fresh producer id and describes the
    /// topic-resolution RPC that must run first.
    ///
    /// Session identities are unique per session instance: the caller
    /// passes the identities of every live session and in-flight creation,
    /// and the new session's id is guaranteed to differ from all of them.
    /// The id is drawn at random (relying on rand::random, of which nothing
    /// is assumed) and redrawn deterministically on a collision.
    pub fn from_connection(topic: String, name: Option<String>, ids_in_use: &Vec<u64>) -> (r: (ProducerCreation, LookupRequest))
        requires
            ids_in_use@.len() < usize::MAX,
        ensures
            r.0.topic == topic,
            r.0.requested_name == name,
            r.0.stage is LookupPending,
            id_free(ids_in_use@, r.0.producer_id),
            r.1.topic@ == topic@,
            r.1.authoritative == false,
    {
        let probe = LookupRequest { topic: topic.clone(), authoritative: false };
        let creation = ProducerCreation {
            topic,
            producer_id: fresh_producer_id(ids_in_use),
            requested_name: name,
            stage: CreationStage::LookupPending,
        };
        (creation, probe)
    }

    /// The topic this session publishes to.
    pub fn topic(&self) -> (r: &str)
        ensures
            r@ == self.topic@,
    {
        self.topic.as_str()
    }

    /// The send RPC for `message`: draws the next sequence number and binds
    /// it, with the session's identity, to the message.
    pub fn send(&mut self, message: Message, num_messages: Option<i32>) -> (c: SendCommand)
        requires
            old(self).message_id.next < u64::MAX,
        ensures
            c == spec_send_command(*old(self), message, num_messages),
            *final(self) == producer_after_send(*old(self)),
    {
        let sequence_id = self.message_id.get();
        SendCommand {
            producer_id: self.id,
            producer_name: self.name.clone(),
            sequence_id,
            num_messages,
            message,
        }
    }

    /// The send RPC for a message built from raw payload bytes and optional
    /// properties, every other message field at its default.
    pub fn send_raw(&mut self, data: Vec<u8>, properties: Option<Vec<(String, String)>>) -> (c: SendCommand)
        requires
            old(self).message_id.next < u64::MAX,
            (properties matches Some(p) ==> props_keys_unique(p@)),
        ensures
            c.producer_id == old(self).id,
            c.producer_name == old(self).name,
            c.sequence_id == old(self).message_id.next,
            c.num_messages is None,
            c.message.payload == data,
            props_keys_unique(c.message.properties@),
            match properties {
                Some(p) => c.message.properties == p,
                None => c.message.properties@.len() == 0,
            },
            message_rest_is_default(c.message),
            *final(self) == producer_after_send(*old(self)),
    {
        let props = match properties {
            Some(p) => p,
            None => Vec::new(),
        };
        self.send(Message::with_payload(data, props), None)
    }

    /// The send RPC for a message holding the JSON encoding of `msg`.
    /// Encoding a `serde_json::Value` always succeeds, so the command is
    /// always produced; the error arm of the result is never taken.
    pub fn send_json(&mut self, msg: &serde_json::Value, properties: Option<Vec<(String, String)>>) -> (r: Result<SendCommand, ProducerError>)
        requires
            old(self).message_id.next < u64::MAX,
            (properties matches Some(p) ==> props_keys_unique(p@)),
        ensures
            r matches Ok(c) && {
                &&& c.producer_id == old(self).id
                &&& c.producer_name == old(self).name
                &&& c.sequence_id == old(self).message_id.next
                &&& c.num_messages is None
                &&& c.message.payload@ == crate::json::json_bytes_of(*msg)
                &&& props_keys_unique(c.message.properties@)
                &&& match properties {
                    Some(p) => c.message.properties == p,
                    None => c.message.properties@.len() == 0,
                }
                &&& message_rest_is_default(c.message)
                &&& *final(self) == producer_after_send(*old(self))
            },
    {
        let data = match crate::json::encode_json(msg) {
            Ok(data) => data,
            Err(_) => Vec::new(),
        };
        Ok(self.send_raw(data, properties))
    }

    /// An inert topic-resolution probe, used to test the connection's
    /// liveness; it touches no session state and draws no sequence number.
    pub fn check_connection(&self) -> (r: LookupRequest)
        ensures
            r.topic@ == "test"@,
            r.authoritative == false,
    {
        LookupRequest { topic: "test".to_owned(), authoritative: false }
    }

    /// The close notification owed to the broker when the session's last
    /// owner releases it. The RPC is fire-and-forget: the driver discards
    /// its outcome.
    pub fn close_command(&self) -> (r: CloseRequest)
        ensures
            r.producer_id == self.id,
    {
        CloseRequest { producer_id: self.id }
    }
}

/// The stage of an in-flight creation handshake.
#[derive(Clone, Debug, PartialEq, Eq)]
pub enum CreationStage {
    /// Waiting for the topic-resolution RPC.
    LookupPending,
    /// Waiting for the create-producer RPC.
    CreatePending,
}

/// An in-flight creation handshake: the session identity being established,
/// and how far the handshake has advanced. A failure at either step yields
/// the connection's error and no session value ever exists.
#[derive(Clone, Debug, PartialEq, Eq)]
pub struct ProducerCreation {
    pub topic: String,
    pub producer_id: u64,
    pub requested_name: Option<String>,
    pub stage: CreationStage,
}

impl ProducerCreation {
    /// Consumes the topic-resolution outcome. On success the handshake
    /// advances and describes the create-producer RPC to issue next; on
    /// failure the connection's error is all that remains.
    pub fn on_lookup(self, outcome: Result<(), ConnectionError>) -> (r: Result<(ProducerCreation, CreateRequest), ConnectionError>)
        requires
            self.stage is LookupPending,
        ensures
            match outcome {
                Ok(_) => (r matches Ok((pc, req))
                    && pc.topic == self.topic
                    && pc.producer_id == self.producer_id
                    && pc.requested_name == self.requested_name
                    && pc.stage is CreatePending
                    && req.topic == self.topic
                    && req.producer_id == self.producer_id
                    && req.requested_name == self.requested_name),
                Err(e) => r == Result::<(ProducerCreation, CreateRequest), ConnectionError>::Err(e),
            },
    {
        match outcome {
            Ok(_) => {
                let req = CreateRequest {
                    topic: self.topic.clone(),
                    producer_id: self.producer_id,
                    requested_name: clone_requested_name(&self.requested_name),
                };
                let pc = ProducerCreation {
                    topic: self.topic,
                    producer_id: self.producer_id,
                    requested_name: self.requested_name,
                    stage: CreationStage::CreatePending,
                };
                Ok((pc, req))
            },
            Err(e) => Err(e),
        }
    }

    /// Consumes the create-producer outcome. On success the session is
    /// instantiated, Ready, under the broker-assigned name, numbering from
    /// 0; on failure the connection's error is all that remains.
    pub fn on_created(self, outcome: Result<ProducerSuccess, ConnectionError>) -> (r: Result<Producer, ConnectionError>)
        requires
            self.stage is CreatePending,
        ensures
            match outcome {
                Ok(success) => (r matches Ok(p)
                    && p.id == self.producer_id
                    && p.name == success.producer_name
                    && p.topic == self.topic
                    && p.message_id.next == 0),
                Err(e) => r == Result::<Producer, ConnectionError>::Err(e),
            },
    {
        match outcome {
            Ok(success) => Ok(Producer::new(self.producer_id, success.producer_name, self.topic)),
            Err(e) => Err(e),
        }
    }
}

/// A copy of an optional requested session name.
fn clone_requested_name(o: &Option<String>) -> (r: Option<String>)
    ensures
        r == *o,
{
    match o {
        Some(s) => Some(s.clone()),
        None => None,
    }
}

} // verus!
