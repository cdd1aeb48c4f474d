use argon2_bridge::options::{HashOptions, HashParams, VerifyParams};
use argon2_bridge::plugin::{error_handler, hash, verify};
use argon2_bridge::primitive::HashError;

fn request(salt: Vec<u8>, memory_cost: Option<u32>) -> HashParams {
    HashParams {
        password: "pw".to_string(),
        options: HashOptions {
            salt,
            secret: None,
            data: None,
            version: None,
            variant: None,
            memory_cost,
            time_cost: Some(1),
            lanes: None,
            thread_mode: None,
            hash_length: None,
        },
    }
}

#[test]
fn successful_hash_sets_status_and_returns_payload() {
    let mut out = vec![9u8; 8];
    let payload = hash(request(b"salzsalz".to_vec(), Some(64)), &mut out);
    assert_eq!(out[0], 1);
    assert_eq!(&out[1..], &[9u8; 7]);
    let text = String::from_utf8(payload).unwrap();
    assert!(text.starts_with("$argon2id$v=19$m=64,t=1,p=1$"));
}

#[test]
fn failing_hash_writes_status_and_error_text() {
    let mut out = vec![9u8; 40];
    let payload = hash(request(b"salzsalz".to_vec(), Some(1)), &mut out);
    assert!(payload.is_empty());
    assert_eq!(out[0], 0);
    let msg = b"Memory cost is too small";
    assert_eq!(&out[1..1 + msg.len()], msg);
    assert_eq!(&out[1 + msg.len()..], &vec![9u8; 40 - 1 - msg.len()][..]);
}

#[test]
fn failing_hash_truncates_error_text_to_capacity() {
    let mut out = vec![9u8; 5];
    let payload = hash(request(b"salzsalz".to_vec(), Some(1)), &mut out);
    assert!(payload.is_empty());
    assert_eq!(out, b"\0Memo".to_vec());
}

#[test]
fn verify_payload_is_one_status_byte() {
    let mut out = vec![9u8; 8];
    let encoded = String::from_utf8(hash(request(b"salzsalz".to_vec(), Some(64)), &mut out)).unwrap();
    let mut out2 = vec![9u8; 8];
    let payload = verify(
        VerifyParams {
            password: "pw".to_string(),
            hash: encoded.clone(),
        },
        &mut out2,
    );
    assert_eq!(out2[0], 1);
    assert_eq!(payload, vec![1u8]);
    let mut out3 = vec![9u8; 8];
    let payload = verify(
        VerifyParams {
            password: "other".to_string(),
            hash: encoded,
        },
        &mut out3,
    );
    assert_eq!(out3[0], 1);
    assert_eq!(payload, vec![0u8]);
}

#[test]
fn verify_on_malformed_hash_signals_failure() {
    let mut out = vec![9u8; 20];
    let payload = verify(
        VerifyParams {
            password: "pw".to_string(),
            hash: "garbage".to_string(),
        },
        &mut out,
    );
    assert!(payload.is_empty());
    assert_eq!(out[0], 0);
    let msg = b"Decoding failed";
    assert_eq!(&out[1..1 + msg.len()], msg);
}

#[test]
fn error_handler_layout() {
    let mut buf = vec![7u8; 6];
    let err = HashError {
        message: b"ab".to_vec(),
    };
    error_handler(&err, &mut buf);
    assert_eq!(buf, vec![0, b'a', b'b', 7, 7, 7]);
}

#[test]
fn identical_requests_hash_identically_on_every_path() {
    let direct = argon2_bridge::facade::hash_internal(request(b"salzsalz".to_vec(), Some(64)))
        .unwrap();
    let collapsed = argon2_bridge::fallback::hash_or_empty(request(b"salzsalz".to_vec(), Some(64)));
    let mut out = vec![9u8; 4];
    let payload = hash(request(b"salzsalz".to_vec(), Some(64)), &mut out);
    assert_eq!(direct, collapsed);
    assert_eq!(direct.into_bytes(), payload);
}
