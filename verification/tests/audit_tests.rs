use hmac::Mac;
use oi_platform::audit::{hash_json, sha256_hex, AuditTrace, TracePhase};

fn empty_json() -> serde_json::Value {
    serde_json::Value::Object(serde_json::Map::new())
}

#[test]
fn sha256_hex_of_known_input() {
    assert_eq!(
        sha256_hex(b"abc"),
        "ba7816bf8f01cfea414140de5dae2223b00361a396177a9cb410ff61f20015ad"
    );
}

#[test]
fn hash_json_digests_the_compact_encoding() {
    assert_eq!(
        hash_json(&empty_json()),
        "44136fa355b3678a1146ad16f7e8649e94fb4fc21fe77e8310c060f61caaff8a"
    );
}

#[test]
fn unsigned_trace_has_no_signature() {
    let audit = AuditTrace::new(None);
    let e = audit.record(7, TracePhase::Query, "agent", "act", &empty_json(), &empty_json(), empty_json());
    assert_eq!(e.workflow_id, 7);
    assert_eq!(e.phase, TracePhase::Query);
    assert_eq!(e.agent, "agent");
    assert_eq!(e.action, "act");
    assert_eq!(e.input_hash.len(), 64);
    assert_eq!(e.input_hash, e.output_hash);
    assert!(e.signature.is_none());
}

#[test]
fn signed_trace_carries_hmac_of_hashes_and_time() {
    let audit = AuditTrace::new(Some("secret".to_string()));
    let input = serde_json::Value::String("in".to_string());
    let e = audit.record(1, TracePhase::Approve, "a", "b", &input, &empty_json(), empty_json());
    let payload = format!("{}:{}:{}", e.input_hash, e.output_hash, e.timestamp);
    let mut mac = hmac::Hmac::<sha2::Sha256>::new_from_slice(b"secret").unwrap();
    mac.update(payload.as_bytes());
    let expected = hex::encode(mac.finalize().into_bytes());
    assert_eq!(e.signature.as_deref(), Some(expected.as_str()));
    assert_ne!(e.input_hash, e.output_hash);
}

#[test]
fn hash_json_is_the_digest_of_to_vec() {
    assert_eq!(
        hash_json(&serde_json::Value::Null),
        sha256_hex(b"null")
    );
    let v = serde_json::Value::String("x".to_string());
    assert_eq!(hash_json(&v), hash_json(&v.clone()));
}

#[test]
fn event_hashes_are_of_input_and_output_and_signature_has_64_digits() {
    let audit = AuditTrace::new(Some("k".to_string()));
    let input = serde_json::Value::Bool(true);
    let output = serde_json::Value::Null;
    let e = audit.record(3, TracePhase::Generate, "a", "b", &input, &output, empty_json());
    assert_eq!(e.input_hash, hash_json(&input));
    assert_eq!(e.output_hash, hash_json(&output));
    assert_eq!(e.signature.unwrap().len(), 64);
}
