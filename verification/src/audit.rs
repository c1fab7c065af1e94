//! Audit traces: every agent step is recorded with SHA-256 digests of its
//! input and output and, when a signing key is configured, an HMAC-SHA256
//! signature over both digests and the time.
use vstd::prelude::*;
use vstd::utf8::encode_utf8;
use hmac::Mac;
use sha2::Digest;

use crate::json::{json_bytes, json_encoding_of};
use crate::stamp::{fresh_id, now_rfc3339};

verus! {

/// The phase of a workflow an audit event belongs to.
#[derive(Debug, Clone, Copy, PartialEq, Eq, Structural)]
pub enum TracePhase {
    Retrieve,
    Reason,
    Generate,
    Validate,
    Approve,
    Query,
}

/// One recorded agent step.
pub struct TraceEvent {
    /// The 128-bit value of the event's UUID.
    pub id: u128,
    /// The 128-bit value of the workflow's UUID.
    pub workflow_id: u128,
    pub phase: TracePhase,
    pub agent: String,
    pub action: String,
    /// Lower-case hex SHA-256 of the input document.
    pub input_hash: String,
    /// Lower-case hex SHA-256 of the output document.
    pub output_hash: String,
    pub metadata: serde_json::Value,
    /// RFC 3339 time of the step.
    pub timestamp: String,
    /// Lower-case hex HMAC-SHA256 of `input_hash:output_hash:timestamp`.
    pub signature: Option<String>,
}

impl Clone for TraceEvent {
    fn clone(&self) -> (res: Self)
        ensures
            res == *self,
    {
        TraceEvent {
            id: self.id,
            workflow_id: self.workflow_id,
            phase: self.phase,
            agent: self.agent.clone(),
            action: self.action.clone(),
            input_hash: self.input_hash.clone(),
            output_hash: self.output_hash.clone(),
            metadata: self.metadata.clone(),
            timestamp: self.timestamp.clone(),
            signature: self.signature.clone(),
        }
    }
}

// ---------------------------------------------------------------------------
// Digests and their hex form
// ---------------------------------------------------------------------------

/// The lower-case hex digit for a value below 16.
pub open spec fn hex_digit(n: u8) -> char {
    if n < 10 {
        (('0' as u8) + n) as char
    } else {
        (('a' as u8) + n - 10) as char
    }
}

/// Lower-case hex of `bytes`, two digits per byte, high half first.
pub open spec fn hex_lower(bytes: Seq<u8>) -> Seq<char>
    decreases bytes.len(),
{
    if bytes.len() == 0 {
        Seq::empty()
    } else {
        hex_lower(bytes.drop_last()) + seq![
            hex_digit(bytes.last() >> 4u8),
            hex_digit(bytes.last() & 0x0fu8),
        ]
    }
}

/// `hex::encode`: lower-case hex of the bytes, two digits per byte, the high
/// half first, as its table `0123456789abcdef` gives them.
#[verifier::external_body]
fn hex_encode(bytes: &[u8]) -> (res: String)
    ensures
        res@ == hex_lower(bytes@),
{
    hex::encode(bytes)
}

/// The SHA-256 digest of `data` (FIPS 180-4).
pub uninterp spec fn sha256_of(data: Seq<u8>) -> Seq<u8>;

/// `sha2::Sha256::digest`: the digest is named `sha256_of` and is 32 bytes long.
#[verifier::external_body]
fn sha256(data: &[u8]) -> (res: Vec<u8>)
    ensures
        res@ == sha256_of(data@),
        res@.len() == 32,
{
    sha2::Sha256::digest(data).to_vec()
}

/// The HMAC-SHA256 tag of `msg` under `key` (RFC 2104).
pub uninterp spec fn hmac_sha256_of(key: Seq<u8>, msg: Seq<u8>) -> Seq<u8>;

/// `hmac::Hmac::<Sha256>`: `new_from_slice` with the key (which accepts a key of
/// any length), `update` with the message, `finalize`. The tag is named
/// `hmac_sha256_of` and is 32 bytes long.
#[verifier::external_body]
fn hmac_sha256(key: &[u8], msg: &[u8]) -> (res: Vec<u8>)
    ensures
        res@ == hmac_sha256_of(key@, msg@),
        res@.len() == 32,
{
    let mut mac = hmac::Hmac::<sha2::Sha256>::new_from_slice(key).expect("hmac key");
    mac.update(msg);
    mac.finalize().into_bytes().to_vec()
}

/// Lower-case hex of the SHA-256 digest of `data`.
pub fn sha256_hex(data: &[u8]) -> (res: String)
    ensures
        res@ == hex_lower(sha256_of(data@)),
        res@.len() == 64,
{
    let d = sha256(data);
    proof {
        lemma_hex_lower_len(d@);
    }
    hex_encode(d.as_slice())
}

/// Hex takes two digits per byte.
pub proof fn lemma_hex_lower_len(bytes: Seq<u8>)
    ensures
        hex_lower(bytes).len() == 2 * bytes.len(),
    decreases bytes.len(),
{
    if bytes.len() > 0 {
        lemma_hex_lower_len(bytes.drop_last());
    }
}

/// The digest recorded for a document: lower-case hex of the SHA-256 of
/// its compact JSON encoding.
pub open spec fn json_digest(value: serde_json::Value) -> Seq<char> {
    hex_lower(sha256_of(json_encoding_of(value)))
}

/// Lower-case hex of the SHA-256 digest of the JSON encoding of `value`.
pub fn hash_json(value: &serde_json::Value) -> (res: String)
    ensures
        res@ == json_digest(*value),
        res@.len() == 64,
{
    let bytes = json_bytes(value);
    sha256_hex(bytes.as_slice())
}

/// The signature of a payload: lower-case hex of its HMAC-SHA256 tag under
/// the key, both taken as UTF-8.
pub open spec fn signature_of(payload: Seq<char>, key: Seq<char>) -> Seq<char> {
    hex_lower(hmac_sha256_of(encode_utf8(key), encode_utf8(payload)))
}

fn sign(payload: &str, key: &str) -> (res: String)
    ensures
        res@ == signature_of(payload@, key@),
        res@.len() == 64,
{
    let tag = hmac_sha256(key.as_bytes(), payload.as_bytes());
    proof {
        lemma_hex_lower_len(tag@);
    }
    hex_encode(tag.as_slice())
}

/// What is signed for an event: `input_hash:output_hash:timestamp`.
pub open spec fn signed_payload(
    input_hash: Seq<char>,
    output_hash: Seq<char>,
    timestamp: Seq<char>,
) -> Seq<char> {
    input_hash + ":"@ + output_hash + ":"@ + timestamp
}

// ---------------------------------------------------------------------------
// Recording
// ---------------------------------------------------------------------------

/// Records agent steps, signing them when it holds a key.
pub struct AuditTrace {
    signing_key: Option<String>,
}

impl AuditTrace {
    /// The key the events are signed with, if any.
    pub closed spec fn key(&self) -> Option<Seq<char>> {
        match self.signing_key {
            Some(k) => Some(k@),
            None => None,
        }
    }

    /// A recorder that signs with `signing_key` when one is given.
    pub fn new(signing_key: Option<String>) -> (t: Self)
        ensures
            t.key() == match signing_key {
                Some(k) => Some(k@),
                None => None::<Seq<char>>,
            },
    {
        AuditTrace { signing_key }
    }

    /// Records one step: a fresh identifier, the current time, the digests
    /// of `input` and `output`, and the signature when a key is held (see
    /// `record_at`, which this calls with the identifier and the time).
    pub fn record(
        &self,
        workflow_id: u128,
        phase: TracePhase,
        agent: &str,
        action: &str,
        input: &serde_json::Value,
        output: &serde_json::Value,
        metadata: serde_json::Value,
    ) -> (e: TraceEvent)
        ensures
            e.workflow_id == workflow_id,
            e.phase == phase,
            e.agent@ == agent@,
            e.action@ == action@,
            e.metadata == metadata,
            e.input_hash@ == json_digest(*input),
            e.output_hash@ == json_digest(*output),
            e.input_hash@.len() == 64,
            e.output_hash@.len() == 64,
            match self.key() {
                None => e.signature is None,
                Some(k) => e.signature matches Some(sig) && sig@ == signature_of(
                    signed_payload(e.input_hash@, e.output_hash@, e.timestamp@),
                    k,
                ) && sig@.len() == 64,
            },
    {
        let id = fresh_id();
        let timestamp = now_rfc3339();
        self.record_at(id, timestamp, workflow_id, phase, agent, action, input, output, metadata)
    }

    /// Records one step with the identifier `id`, taken at the time
    /// `timestamp`: the digests of `input` and `output`, and the signature
    /// over both digests and the time when a key is held.
    pub fn record_at(
        &self,
        id: u128,
        timestamp: String,
        workflow_id: u128,
        phase: TracePhase,
        agent: &str,
        action: &str,
        input: &serde_json::Value,
        output: &serde_json::Value,
        metadata: serde_json::Value,
    ) -> (e: TraceEvent)
        ensures
            e.id == id,
            e.timestamp == timestamp,
            e.workflow_id == workflow_id,
            e.phase == phase,
            e.agent@ == agent@,
            e.action@ == action@,
            e.metadata == metadata,
            e.input_hash@ == json_digest(*input),
            e.output_hash@ == json_digest(*output),
            e.input_hash@.len() == 64,
            e.output_hash@.len() == 64,
            match self.key() {
                None => e.signature is None,
                Some(k) => e.signature matches Some(sig) && sig@ == signature_of(
                    signed_payload(e.input_hash@, e.output_hash@, timestamp@),
                    k,
                ) && sig@.len() == 64,
            },
    {
        let input_hash = hash_json(input);
        let output_hash = hash_json(output);
        let signature = match &self.signing_key {
            Some(key) => {
                let mut payload = String::new();
                payload.append(input_hash.as_str());
                payload.append(":");
                payload.append(output_hash.as_str());
                payload.append(":");
                payload.append(timestamp.as_str());
                Some(sign(payload.as_str(), key.as_str()))
            },
            None => None,
        };
        TraceEvent {
            id,
            workflow_id,
            phase,
            agent: String::from_str(agent),
            action: String::from_str(action),
            input_hash,
            output_hash,
            metadata,
            timestamp,
            signature,
        }
    }
}

} // verus!
