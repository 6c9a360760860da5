use serde_json::Value;
use ton_mixer::retry::{next_send_step, SendStep, MAX_RETRIES};
use ton_mixer::types::{Response, ResponseStatus, TXHash};

#[test]
fn tx_hash_new_keeps_its_texts() {
    let hash = TXHash::new(String::from("abc"), String::from("def"));
    assert_eq!(hash.hex, "abc");
    assert_eq!(hash.base64, "def");
}

#[test]
fn tx_hash_spells_a_binary_hash() {
    let hash = TXHash::from_hash(&[0x00, 0xff, 0x10, 0xab]);
    assert_eq!(hash.hex, "00ff10ab");
    assert_eq!(hash.base64, "AP8Qqw==");
    let hello = TXHash::from_hash(b"hello");
    assert_eq!(hello.hex, "68656c6c6f");
    assert_eq!(hello.base64, "aGVsbG8=");
    let empty = TXHash::from_hash(&[]);
    assert_eq!(empty.hex, "");
    assert_eq!(empty.base64, "");
    let two = TXHash::from_hash(&[0xfb, 0xff]);
    assert_eq!(two.hex, "fbff");
    assert_eq!(two.base64, "+/8=");
    let one = TXHash::from_hash(&[0x01]);
    assert_eq!(one.base64, "AQ==");
    let high = TXHash::from_hash(&[0xfb, 0xff, 0xbf]);
    assert_eq!(high.hex, "fbffbf");
    assert_eq!(high.base64, "+/+/");
}

#[test]
fn tx_hash_of_thirty_two_bytes() {
    let bytes: Vec<u8> = (0..32u8).collect();
    let hash = TXHash::from_hash(&bytes);
    assert_eq!(hash.hex, "000102030405060708090a0b0c0d0e0f101112131415161718191a1b1c1d1e1f");
    assert_eq!(hash.base64, "AAECAwQFBgcICQoLDA0ODxAREhMUFRYXGBkaGxwdHh8=");
}

#[test]
fn responses_carry_status_and_message() {
    let error = Response::error(Value::String(String::from("bad")));
    assert_eq!(error.status, ResponseStatus::Error);
    assert_eq!(error.message, Value::String(String::from("bad")));
    let info = Response::info(Value::Bool(true));
    assert_eq!(info.status, ResponseStatus::Info);
    assert_eq!(info.message, Value::Bool(true));
    let success = Response::success(Value::Null);
    assert_eq!(success.status, ResponseStatus::Success);
    assert_eq!(success.message, Value::Null);
}

#[test]
fn answered_submission_is_done() {
    for attempts in [0u32, 1, 2, 3, u32::MAX] {
        assert_eq!(next_send_step(attempts, Some(vec![1, 2, 3])), SendStep::Done(vec![1, 2, 3]));
    }
    assert_eq!(next_send_step(0, Some(Vec::new())), SendStep::Done(Vec::new()));
}

#[test]
fn failed_submission_is_retried_twice_with_doubling_waits() {
    assert_eq!(MAX_RETRIES, 2);
    assert_eq!(next_send_step(0, None), SendStep::RetryAfter(1));
    assert_eq!(next_send_step(1, None), SendStep::RetryAfter(2));
    assert_eq!(next_send_step(2, None), SendStep::GiveUp);
    assert_eq!(next_send_step(3, None), SendStep::GiveUp);
    assert_eq!(next_send_step(u32::MAX, None), SendStep::GiveUp);
}

#[test]
fn a_run_of_failures_ends_after_three_attempts() {
    let mut attempts = 0u32;
    let mut waited = 0u64;
    let mut sent = 0;
    loop {
        sent += 1;
        match next_send_step(attempts, None) {
            SendStep::RetryAfter(seconds) => {
                waited += seconds;
                attempts += 1;
            }
            SendStep::GiveUp => break,
            SendStep::Done(_) => unreachable!(),
        }
    }
    assert_eq!(sent, 3);
    assert_eq!(waited, 3);
}

/// Base64 in the standard alphabet with padding, three bytes at a time.
fn base64_reference(bytes: &[u8]) -> String {
    let digits: Vec<char> =
        "ABCDEFGHIJKLMNOPQRSTUVWXYZabcdefghijklmnopqrstuvwxyz0123456789+/".chars().collect();
    let mut text = String::new();
    for chunk in bytes.chunks(3) {
        let a = chunk[0] as usize;
        let b = *chunk.get(1).unwrap_or(&0) as usize;
        let c = *chunk.get(2).unwrap_or(&0) as usize;
        text.push(digits[a / 4]);
        text.push(digits[a % 4 * 16 + b / 16]);
        text.push(if chunk.len() > 1 { digits[b % 16 * 4 + c / 64] } else { '=' });
        text.push(if chunk.len() > 2 { digits[c % 64] } else { '=' });
    }
    text
}

#[test]
fn base64_is_the_padded_standard_alphabet() {
    for len in 0..40usize {
        let bytes: Vec<u8> = (0..len).map(|i| (i * 37 + len * 11) as u8).collect();
        assert_eq!(TXHash::from_hash(&bytes).base64, base64_reference(&bytes));
    }
    let all: Vec<u8> = (0..=255u8).collect();
    assert_eq!(TXHash::from_hash(&all).base64, base64_reference(&all));
}
