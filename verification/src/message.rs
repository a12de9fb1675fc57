//! The wire-ready message value and the receipt a send returns.

use vstd::prelude::*;

verus! {

/// Name, encrypted key material and metadata describing one encryption key
/// attached to a message.
#[derive(Clone, Debug, PartialEq, Eq)]
pub struct EncryptionKeys {
    pub key: String,
    pub value: Vec<u8>,
    pub metadata: Vec<(String, String)>,
}

/// A wire-ready message: payload bytes plus publish metadata.
///
/// The payload is the only required field; every other field defaults to
/// empty or absent. A message is immutable once constructed and lives for
/// one send call. Properties are key/value pairs whose order carries no
/// meaning.
#[derive(Clone, Debug, PartialEq, Eq)]
pub struct Message {
    pub payload: Vec<u8>,
    pub properties: Vec<(String, String)>,
    /// Key deciding the partition for the message.
    pub partition_key: Option<String>,
    /// Override of the namespace's replication.
    pub replicate_to: Vec<String>,
    pub compression: Option<i32>,
    pub uncompressed_size: Option<u32>,
    /// Distinguishes single and batch message metadata.
    pub num_messages_in_batch: Option<i32>,
    /// The timestamp at which the event occurred, set by applications.
    pub event_time: Option<u64>,
    pub encryption_keys: Vec<EncryptionKeys>,
    /// Algorithm used to encrypt the data key.
    pub encryption_algo: Option<String>,
    /// Additional parameters required by encryption.
    pub encryption_param: Option<Vec<u8>>,
    pub schema_version: Option<Vec<u8>>,
}

/// Whether the keys of a property list are pairwise distinct, as the
/// message model asks of its key/value map.
pub open spec fn props_keys_unique(props: Seq<(String, String)>) -> bool {
    forall|i: int, j: int| 0 <= i < j < props.len() ==> props[i].0@ != props[j].0@
}

/// Whether every field of `m` other than payload and properties holds its
/// default (empty or absent) value.
pub open spec fn message_rest_is_default(m: Message) -> bool {
    &&& m.partition_key is None
    &&& m.replicate_to@.len() == 0
    &&& m.compression is None
    &&& m.uncompressed_size is None
    &&& m.num_messages_in_batch is None
    &&& m.event_time is None
    &&& m.encryption_keys@.len() == 0
    &&& m.encryption_algo is None
    &&& m.encryption_param is None
    &&& m.schema_version is None
}

impl Message {
    /// A message carrying the given payload and properties, with every
    /// other field at its default.
    pub fn with_payload(payload: Vec<u8>, properties: Vec<(String, String)>) -> (m: Message)
        requires
            props_keys_unique(properties@),
        ensures
            m.payload == payload,
            m.properties == properties,
            props_keys_unique(m.properties@),
            message_rest_is_default(m),
    {
        Message {
            payload,
            properties,
            partition_key: None,
            replicate_to: Vec::new(),
            compression: None,
            uncompressed_size: None,
            num_messages_in_batch: None,
            event_time: None,
            encryption_keys: Vec::new(),
            encryption_algo: None,
            encryption_param: None,
            schema_version: None,
        }
    }
}

impl Default for Message {
    /// The empty message: no payload bytes, everything else absent.
    fn default() -> (m: Message)
        ensures
            m.payload@.len() == 0,
            m.properties@.len() == 0,
            message_rest_is_default(m),
    {
        Message::with_payload(Vec::new(), Vec::new())
    }
}

/// The broker's acknowledgement of one send: which producer sent, and the
/// sequence number the acknowledged message carried.
#[derive(Clone, Debug, PartialEq, Eq, Structural)]
pub struct SendReceipt {
    pub producer_id: u64,
    pub sequence_id: u64,
}

} // verus!
