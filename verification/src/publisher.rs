//! The publisher: a producer-local sequence counter, explicit partition
//! selection encoded as four little-endian bytes, the publish envelope for
//! the text transport, and the drop-on-failure send policy — a failed send
//! is reported and counted, never retried and never fatal.

use vstd::prelude::*;
use vstd::string::StringExecFns;
use crate::codec::b64_encode;
use crate::codec::b64_of;
use crate::errors::ClientError;
use crate::json::dec_of;
use crate::json::json_quote;
use crate::json::quoted;
use crate::json::u64_to_dec;

verus! {

/// One message to send: the partition it is routed to, the payload bytes,
/// and the producer-local sequence number used for observability.
pub struct OutboundMessage {
    pub partition_key: u32,
    pub payload: Vec<u8>,
    pub sequence_id: u64,
}

/// What the transport reported for one publish attempt.
#[derive(Copy, Clone, PartialEq, Eq, Structural, Debug)]
pub enum SendOutcome {
    /// The broker acknowledged the message.
    Accepted,
    /// The send failed; the message is dropped.
    Rejected,
}

/// The producer's local state: the sequence counter and the tallies of
/// acknowledged and dropped sends.
pub struct ProducerState {
    pub next_sequence_id: u64,
    pub acked: u64,
    pub dropped: u64,
}

impl ProducerState {
    /// A fresh producer: no message numbered, none acknowledged or dropped.
    pub fn new() -> (r: ProducerState)
        ensures
            r.next_sequence_id == 0,
            r.acked == 0,
            r.dropped == 0,
    {
        ProducerState { next_sequence_id: 0, acked: 0, dropped: 0 }
    }

    /// Numbers the next outbound message: sequence ids strictly increase by
    /// one per message, so two messages of one producer never share one.
    pub fn next_message(&mut self, partition_key: u32, payload: Vec<u8>) -> (m: OutboundMessage)
        requires
            old(self).next_sequence_id < u64::MAX,
        ensures
            final(self).next_sequence_id == old(self).next_sequence_id + 1,
            final(self).acked == old(self).acked,
            final(self).dropped == old(self).dropped,
            m.sequence_id == old(self).next_sequence_id + 1,
            m.partition_key == partition_key,
            m.payload == payload,
    {
        self.next_sequence_id = self.next_sequence_id + 1;
        OutboundMessage { partition_key, payload, sequence_id: self.next_sequence_id }
    }

    /// Records one publish attempt's outcome. A rejected send is counted as
    /// a drop and reported as the non-fatal send error; it is not retried,
    /// and the outer loop proceeds to the next scheduled message.
    pub fn record_send(&mut self, outcome: SendOutcome) -> (e: Option<ClientError>)
        requires
            old(self).acked < u64::MAX,
            old(self).dropped < u64::MAX,
        ensures
            final(self).next_sequence_id == old(self).next_sequence_id,
            match outcome {
                SendOutcome::Accepted => {
                    &&& e is None
                    &&& final(self).acked == old(self).acked + 1
                    &&& final(self).dropped == old(self).dropped
                },
                SendOutcome::Rejected => {
                    &&& e == Some(ClientError::SendError)
                    &&& final(self).acked == old(self).acked
                    &&& final(self).dropped == old(self).dropped + 1
                },
            },
    {
        match outcome {
            SendOutcome::Accepted => {
                self.acked = self.acked + 1;
                None
            },
            SendOutcome::Rejected => {
                self.dropped = self.dropped + 1;
                Some(ClientError::SendError)
            },
        }
    }
}

/// The application record a producer publishes: a message id, free text,
/// and a timestamp, serialized as one JSON object.
pub open spec fn spec_record_body(id: nat, text: Seq<char>, ts: Seq<char>) -> Seq<char> {
    "{\"id\":"@ + dec_of(id) + ",\"text\":"@ + quoted(text) + ",\"ts\":"@ + quoted(ts) + "}"@
}

/// Serializes the application record for one message.
pub fn record_body(id: u64, text: &str, ts: &str) -> (r: String)
    ensures
        r@ == spec_record_body(id as nat, text@, ts@),
{
    let mut out = String::from_str("{\"id\":");
    let d = u64_to_dec(id);
    out.append(d.as_str());
    out.append(",\"text\":");
    let t = json_quote(text);
    out.append(t.as_str());
    out.append(",\"ts\":");
    let s = json_quote(ts);
    out.append(s.as_str());
    out.append("}");
    proof {
        assert(out@ =~= spec_record_body(id as nat, text@, ts@));
    }
    out
}

/// Relies on chrono's `Utc::now` and `DateTime::to_rfc3339` for the message
/// timestamp; nothing is assumed of the clock's value.
#[verifier::external_body]
fn now_rfc3339() -> String {
    chrono::Utc::now().to_rfc3339()
}

/// Serializes the application record for one message, stamped with the
/// clock's current time: whatever the clock read, the result is the record
/// body for that timestamp.
pub fn record_body_now(id: u64, text: &str) -> (r: String)
    ensures
        exists|ts: Seq<char>| r@ == spec_record_body(id as nat, text@, ts),
{
    let ts = now_rfc3339();
    record_body(id, text, ts.as_str())
}

/// The four little-endian bytes of a partition identifier — the documented
/// wire encoding of the explicit partition selector.
pub open spec fn u32_le(x: u32) -> Seq<u8> {
    seq![
        (x % 256) as u8,
        ((x / 256) % 256) as u8,
        ((x / 65536) % 256) as u8,
        ((x / 16777216) % 256) as u8,
    ]
}

/// Encodes a partition identifier as its four little-endian bytes.
pub fn partition_selector_bytes(partition_id: u32) -> (r: Vec<u8>)
    ensures
        r@ == u32_le(partition_id),
        r@.len() == 4,
{
    let mut r: Vec<u8> = Vec::new();
    r.push((partition_id % 256) as u8);
    r.push(((partition_id / 256) % 256) as u8);
    r.push(((partition_id / 65536) % 256) as u8);
    r.push(((partition_id / 16777216) % 256) as u8);
    proof {
        assert(r@ =~= u32_le(partition_id));
    }
    r
}

/// The publish envelope for the text transport: the partition selector and
/// the payload, each carried as a base64 string inside the JSON body.
pub open spec fn spec_envelope(partition: u32, payload: Seq<u8>) -> Seq<char> {
    "{\"partitioning\":{\"kind\":\"partition_id\",\"value\":"@ + quoted(b64_of(u32_le(partition)))
        + "},\"messages\":[{\"payload\":"@ + quoted(b64_of(payload)) + "}]}"@
}

/// Builds the publish envelope for one message to `partition_id`.
pub fn build_envelope(partition_id: u32, payload: &Vec<u8>) -> (r: String)
    requires
        payload@.len() <= usize::MAX / 4,
    ensures
        r@ == spec_envelope(partition_id, payload@),
{
    let selector = partition_selector_bytes(partition_id);
    let selector_b64 = b64_encode(selector.as_slice());
    let payload_b64 = b64_encode(payload.as_slice());
    let mut out = String::from_str("{\"partitioning\":{\"kind\":\"partition_id\",\"value\":");
    let q_selector = json_quote(selector_b64.as_str());
    out.append(q_selector.as_str());
    out.append("},\"messages\":[{\"payload\":");
    let q_payload = json_quote(payload_b64.as_str());
    out.append(q_payload.as_str());
    out.append("}]}");
    proof {
        assert(out@ =~= spec_envelope(partition_id, payload@));
    }
    out
}

} // verus!
