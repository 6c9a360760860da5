//! What the service answers with.


use serde_json::Value;
use vstd::prelude::*;

verus! {

/// `serde_json`'s value, carried through as it is.
#[verifier::external_type_specification]
#[verifier::external_body]
pub struct ExValue(Value);

/// Whether an answer reports a failure, a notice or a success.
#[derive(Debug, Clone, Copy, PartialEq, Eq, Structural)]
pub enum ResponseStatus {
    Error,
    Info,
    Success,
}

/// An answer: its status and a message, which is any JSON value.
#[derive(Debug)]
pub struct Response {
    pub status: ResponseStatus,
    pub message: Value,
}

impl Response {
    /// An answer that reports a failure.
    pub fn error(message: Value) -> (response: Response)
        ensures
            response.status == ResponseStatus::Error,
            response.message == message,
    {
        Response { status: ResponseStatus::Error, message }
    }

    /// An answer that gives a notice.
    pub fn info(message: Value) -> (response: Response)
        ensures
            response.status == ResponseStatus::Info,
            response.message == message,
    {
        Response { status: ResponseStatus::Info, message }
    }

    /// An answer that reports a success.
    pub fn success(message: Value) -> (response: Response)
        ensures
            response.status == ResponseStatus::Success,
            response.message == message,
    {
        Response { status: ResponseStatus::Success, message }
    }
}

/// The four modes of a collect operation, each with its number.
pub struct MixerCollectionModes {
    pub current_message_ton_balance: u8,
    pub all_ton_balance: u8,
    pub available_ton_balance: u8,
    pub given_jetton_balance: u8,
}

impl MixerCollectionModes {
    /// The four modes with their fixed numbers.
    pub fn new() -> (modes: MixerCollectionModes)
        ensures
            modes.current_message_ton_balance == 0,
            modes.all_ton_balance == 1,
            modes.available_ton_balance == 2,
            modes.given_jetton_balance == 3,
    {
        MixerCollectionModes {
            current_message_ton_balance: 0,
            all_ton_balance: 1,
            available_ton_balance: 2,
            given_jetton_balance: 3,
        }
    }
}

/// The sixteen digits of lower-case hexadecimal text.
pub open spec fn hex_digit(value: int) -> char {
    seq!['0', '1', '2', '3', '4', '5', '6', '7', '8', '9', 'a', 'b', 'c', 'd', 'e', 'f'][value]
}

/// A byte string as hexadecimal text: two lower-case digits for each byte,
/// the high half first.
pub open spec fn hex_text(bytes: Seq<u8>) -> Seq<char> {
    Seq::new(
        2 * bytes.len(),
        |i: int|
            if i % 2 == 0 {
                hex_digit(bytes[i / 2] as int / 16)
            } else {
                hex_digit(bytes[i / 2] as int % 16)
            },
    )
}

/// The sixty-four digits of base64 text in the standard alphabet.
pub open spec fn base64_digit(value: int) -> char {
    seq![
        'A', 'B', 'C', 'D', 'E', 'F', 'G', 'H', 'I', 'J', 'K', 'L', 'M', 'N', 'O', 'P',
        'Q', 'R', 'S', 'T', 'U', 'V', 'W', 'X', 'Y', 'Z', 'a', 'b', 'c', 'd', 'e', 'f',
        'g', 'h', 'i', 'j', 'k', 'l', 'm', 'n', 'o', 'p', 'q', 'r', 's', 't', 'u', 'v',
        'w', 'x', 'y', 'z', '0', '1', '2', '3', '4', '5', '6', '7', '8', '9', '+', '/',
    ][value]
}

/// A byte string as base64 text in the standard alphabet, padded with `=`:
/// four digits of six bits for every three bytes, and for one or two bytes
/// left over two or three digits, filled up with zero bits, and `=` up to
/// four.
pub open spec fn base64_text(bytes: Seq<u8>) -> Seq<char>
    decreases bytes.len(),
{
    if bytes.len() == 0 {
        Seq::empty()
    } else if bytes.len() == 1 {
        let a = bytes[0] as int;
        seq![base64_digit(a / 4), base64_digit(a % 4 * 16), '=', '=']
    } else if bytes.len() == 2 {
        let a = bytes[0] as int;
        let b = bytes[1] as int;
        seq![
            base64_digit(a / 4),
            base64_digit(a % 4 * 16 + b / 16),
            base64_digit(b % 16 * 4),
            '=',
        ]
    } else {
        let a = bytes[0] as int;
        let b = bytes[1] as int;
        let c = bytes[2] as int;
        seq![
            base64_digit(a / 4),
            base64_digit(a % 4 * 16 + b / 16),
            base64_digit(b % 16 * 4 + c / 64),
            base64_digit(c % 64),
        ] + base64_text(bytes.skip(3))
    }
}

/// The two bytes `0xfb`, `0xff` are `+/8=` in base64, and `fbff` in
/// hexadecimal.
pub proof fn example_texts()
    ensures
        base64_text(seq![0xfbu8, 0xffu8]) == seq!['+', '/', '8', '='],
        hex_text(seq![0xfbu8, 0xffu8]) == seq!['f', 'b', 'f', 'f'],
{
    let bytes = seq![0xfbu8, 0xffu8];
    assert(base64_text(bytes) =~= seq!['+', '/', '8', '=']);
    assert(hex_text(bytes) =~= seq!['f', 'b', 'f', 'f']);
}

/// `hex::encode`: the bytes as lower-case hexadecimal text.
#[verifier::external_body]
fn hex_encode(bytes: &[u8]) -> (text: String)
    ensures
        text@ == hex_text(bytes@),
{
    hex::encode(bytes)
}

/// `Engine::encode` of `base64`'s standard engine: the bytes as padded
/// base64 text in the standard alphabet.
#[verifier::external_body]
fn base64_encode(bytes: &[u8]) -> (text: String)
    ensures
        text@ == base64_text(bytes@),
{
    base64::Engine::encode(&base64::engine::general_purpose::STANDARD, bytes)
}

/// The hash of a submitted transaction, as hexadecimal and as base64 text.
#[derive(Debug)]
pub struct TXHash {
    pub hex: String,
    pub base64: String,
}

impl TXHash {
    /// The two texts, as they are given.
    pub fn new(hex: String, base64: String) -> (hash: Self)
        ensures
            hash.hex == hex,
            hash.base64 == base64,
    {
        TXHash { hex, base64 }
    }

    /// Whether the two texts spell `hash`.
    pub open spec fn spells(&self, hash: Seq<u8>) -> bool {
        self.hex@ == hex_text(hash) && self.base64@ == base64_text(hash)
    }

    /// The two texts of a binary hash.
    pub fn from_hash(hash: &[u8]) -> (text: Self)
        ensures
            text.spells(hash@),
    {
        TXHash::new(hex_encode(hash), base64_encode(hash))
    }
}

} // verus!
