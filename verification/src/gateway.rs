//! What is submitted for each operation: the payload of the operation in an
//! envelope to the mixer contract, with the value that the operation attaches.
//! Fetching the sequence number and submitting the bytes is the caller's part.

use crate::bits::{
    be_bits, lemma_be_bits_len, lemma_machine_widths, lemma_read_appended, read_uint,
};
use crate::cell::{cell_bits, cell_refs, hash_bytes, MAX_CELL_DEPTH};
use crate::envelope::{
    create_external_singed_message, envelope_refusal, is_envelope, EnvelopeError, EXPIRY_WINDOW,
};
use crate::messages::{
    header_bits, CollectMessage, EncodingError, ForkMessage, SpreadMessage,
};
use crate::opcode::{opcode_of, OP_FORK, OP_SPREAD};
use crate::requests::{can_be_encoded, CollectMessageData};
use crate::spread::{
    build_spread_payload, chain_amount, chain_holds_total, is_entry_chain, spread_total,
    total_amount, SpreadWallet, MAX_SPREAD_ENTRIES,
};
use crate::wallet::{
    derived_keys, is_bag_of_cells, mnemonic_key_pair, new_wallet, parse_mnemonic, phrase_words,
    starts_as_bag_of_cells, takes_plain_body, wallet_address, DEFAULT_WALLET_ID,
};
use std::time::{Duration, SystemTime, SystemTimeError};
use tonlib_core::cell::Cell;
use tonlib_core::wallet::ton_wallet::TonWallet;
use tonlib_core::wallet::wallet_version::WalletVersion;
use tonlib_core::TonAddress;
use vstd::prelude::*;

verus! {

/// `std`'s point in time, carried through as it is.
#[verifier::external_type_specification]
#[verifier::external_body]
pub struct ExSystemTime(SystemTime);

/// `std`'s error for a time that lies before another, carried through as it is.
#[verifier::external_type_specification]
#[verifier::external_body]
pub struct ExSystemTimeError(SystemTimeError);

/// What a fork attaches: a fee.
pub const FORK_VALUE: u64 = 5_000_000;

/// What a spread attaches beyond the amounts that it spreads: a fee.
pub const SPREAD_FEE: u64 = 5_000_000;

/// What a collect attaches: a fee.
pub const COLLECT_VALUE: u64 = 50_000_000;

/// The mode of every spread.
pub const SPREAD_MODE: u8 = 0;

/// Why nothing can be submitted.
#[derive(Debug, Clone, Copy, PartialEq, Eq, Structural)]
pub enum GatewayError {
    /// The amounts of a spread and its fee do not fit 64 bits together.
    AmountOverflow,
    /// The payload could not be encoded.
    Encoding(EncodingError),
    /// The envelope could not be made.
    Envelope(EnvelopeError),
    /// The clock stands before the first of January 1970.
    Clock,
}

/// Why no wallet could be made from a phrase.
#[derive(Debug, Clone, Copy, PartialEq, Eq, Structural)]
pub enum WalletError {
    /// The phrase is no valid mnemonic: it has not twenty-four known words,
    /// or they fail the test for a phrase without password.
    InvalidMnemonic,
    /// No keys could be derived from the mnemonic.
    KeyDerivation,
    /// The wallet's address could not be computed.
    Address,
}

/// How long after the first of January 1970 a point in time lies, where it
/// does not lie before it.
pub uninterp spec fn elapsed_since_epoch(time: SystemTime) -> Option<Duration>;

/// The whole seconds of a duration.
pub uninterp spec fn duration_seconds(duration: Duration) -> u64;

/// The whole seconds between the first of January 1970 and a point in time,
/// where it does not lie before that day.
pub open spec fn epoch_seconds(time: SystemTime) -> Option<u64> {
    match elapsed_since_epoch(time) {
        Some(duration) => Some(duration_seconds(duration)),
        None => None,
    }
}

/// `SystemTime::now`: the time on the machine's clock.
#[verifier::external_body]
fn system_now() -> SystemTime {
    SystemTime::now()
}

/// `SystemTime::duration_since` the first of January 1970: how long ago
/// that was, or an error where the time lies before it.
#[verifier::external_body]
fn since_epoch(time: &SystemTime) -> (r: Result<Duration, SystemTimeError>)
    ensures
        match r {
            Ok(duration) => elapsed_since_epoch(*time) == Some(duration),
            Err(_) => elapsed_since_epoch(*time) is None,
        },
{
    time.duration_since(SystemTime::UNIX_EPOCH)
}

/// `Duration::as_secs`: the whole seconds of a duration.
#[verifier::external_body]
fn whole_seconds(duration: &Duration) -> (seconds: u64)
    ensures
        seconds == duration_seconds(*duration),
{
    duration.as_secs()
}

/// The seconds since the first of January 1970 on the machine's clock, or
/// `None` where the clock stands before that day: the clock is read once,
/// and the result is what that reading comes to.
pub fn time_now() -> (now: Option<u64>)
    ensures
        exists|time: SystemTime| now == #[trigger] epoch_seconds(time),
{
    let time = system_now();
    let now = match since_epoch(&time) {
        Ok(duration) => Some(whole_seconds(&duration)),
        Err(_) => None,
    };
    assert(now == epoch_seconds(time));
    now
}

/// The wallet of the mixer's operator, for every phrase that is a valid
/// mnemonic without password: of version V4R2, with the keys that the phrase
/// stands for, a public key of thirty-two bytes and a secret key of
/// sixty-four, and the default identifier. Any other phrase is refused.
pub fn wallet_from_mnemonic(phrase: &str) -> (r: Result<TonWallet, WalletError>)
    ensures
        match phrase_words(phrase@) {
            Some(words) => r matches Ok(wallet) && {
                &&& wallet.version is V4R2
                &&& wallet.wallet_id == DEFAULT_WALLET_ID
                &&& (wallet.key_pair.public_key@, wallet.key_pair.secret_key@) == derived_keys(
                    words,
                    None,
                )
                &&& wallet.key_pair.public_key@.len() == 32
                &&& wallet.key_pair.secret_key@.len() == 64
                &&& (wallet.address.workchain, hash_bytes(wallet.address.hash_part))
                    == wallet_address(
                    wallet.version,
                    wallet.key_pair.public_key@,
                    DEFAULT_WALLET_ID,
                )
            },
            None => r == Err::<TonWallet, WalletError>(WalletError::InvalidMnemonic),
        },
{
    let mnemonic = match parse_mnemonic(phrase) {
        Ok(mnemonic) => mnemonic,
        Err(_) => {
            return Err(WalletError::InvalidMnemonic);
        },
    };
    let keys = match mnemonic_key_pair(&mnemonic) {
        Ok(keys) => keys,
        Err(_) => {
            return Err(WalletError::KeyDerivation);
        },
    };
    match new_wallet(WalletVersion::V4R2, keys) {
        Ok(wallet) => Ok(wallet),
        Err(_) => Err(WalletError::Address),
    }
}

/// Whether `bytes` is what `wallet` submits at `now`, under the sequence
/// number `seqno`, to send `value` and `body` to `contract`: a bag of cells
/// with a checksum whose root is the envelope of that transfer. It starts
/// with the four bytes that mark a bag of cells, so it is not empty.
pub open spec fn is_submission(
    bytes: Seq<u8>,
    wallet: TonWallet,
    seqno: u32,
    contract: TonAddress,
    value: u64,
    now: u64,
    body: Cell,
) -> bool {
    &&& starts_as_bag_of_cells(bytes)
    &&& exists|message: Cell|
        is_envelope(message, wallet, seqno, contract, value, now, body)
            && #[trigger] is_bag_of_cells(bytes, message, true)
}

/// Whether `body` is the payload of a fork asked for at `query_time`.
pub open spec fn is_fork_body(body: Cell, query_time: u64) -> bool {
    cell_bits(body) == header_bits(OP_FORK, query_time) && cell_refs(body) == Seq::<Cell>::empty()
}

/// Whether `body` is the payload of a spread among `entries` asked for at
/// `query_time`: its total is the sum of their amounts, and it refers to
/// the chain that lists them.
pub open spec fn is_spread_body(body: Cell, entries: Seq<SpreadWallet>, query_time: u64) -> bool {
    &&& total_amount(entries) <= u64::MAX
    &&& cell_bits(body) == header_bits(OP_SPREAD, query_time) + be_bits(total_amount(entries), 64)
        + be_bits(SPREAD_MODE as nat, 8) + seq![true]
    &&& cell_refs(body).len() == 1
    &&& is_entry_chain(cell_refs(body)[0], entries)
}

/// Whether `body` is the payload of the collect that `message` asks for.
pub open spec fn is_collect_body(body: Cell, message: CollectMessage) -> bool {
    message.layout() == Ok::<Seq<bool>, EncodingError>(cell_bits(body)) && cell_refs(body)
        == Seq::<Cell>::empty()
}

/// Whether `bytes` is what is submitted for a fork asked for at `query_time`
/// and wrapped at `now`.
pub open spec fn is_fork_submission(
    bytes: Seq<u8>,
    wallet: TonWallet,
    seqno: u32,
    contract: TonAddress,
    query_time: u64,
    now: u64,
) -> bool {
    exists|body: Cell| #[trigger]
        is_fork_body(body, query_time) && is_submission(
            bytes,
            wallet,
            seqno,
            contract,
            FORK_VALUE,
            now,
            body,
        )
}

/// Whether `bytes` is what is submitted for a spread among `entries` asked
/// for at `query_time` and wrapped at `now`: the value is the sum of the
/// amounts and the fee.
pub open spec fn is_spread_submission(
    bytes: Seq<u8>,
    wallet: TonWallet,
    seqno: u32,
    contract: TonAddress,
    entries: Seq<SpreadWallet>,
    query_time: u64,
    now: u64,
) -> bool {
    &&& total_amount(entries) + SPREAD_FEE <= u64::MAX
    &&& exists|body: Cell| #[trigger]
        is_spread_body(body, entries, query_time) && is_submission(
            bytes,
            wallet,
            seqno,
            contract,
            (total_amount(entries) + SPREAD_FEE) as u64,
            now,
            body,
        )
}

/// The collect message that is built from `data` for a request made at `query_time`.
pub open spec fn collect_message_of(data: CollectMessageData, query_time: u64) -> CollectMessage {
    CollectMessage {
        mode: data.mode,
        timestamp: query_time,
        jetton_wallet: data.jetton_wallet,
        amount: data.amount,
    }
}

/// Whether `bytes` is what is submitted for the collect that `data` asks
/// for at `query_time`, wrapped at `now`.
pub open spec fn is_collect_submission(
    bytes: Seq<u8>,
    wallet: TonWallet,
    seqno: u32,
    contract: TonAddress,
    data: CollectMessageData,
    query_time: u64,
    now: u64,
) -> bool {
    exists|body: Cell| #[trigger]
        is_collect_body(body, collect_message_of(data, query_time)) && is_submission(
            bytes,
            wallet,
            seqno,
            contract,
            COLLECT_VALUE,
            now,
            body,
        )
}

/// Whether a spread among `entries` can be sent: their amounts and the fee
/// fit 64 bits together, and the chain that lists them leaves room for the
/// three cells that wrap it.
pub open spec fn spread_is_sendable(entries: Seq<SpreadWallet>) -> bool {
    total_amount(entries) + SPREAD_FEE <= u64::MAX && entries.len() + 3 < MAX_CELL_DEPTH
}

/// Whether a wallet can sign for the mixer: it is of version V4R2, and its
/// keys are of the right lengths.
pub open spec fn can_sign(wallet: TonWallet) -> bool {
    &&& wallet.version is V4R2
    &&& wallet.key_pair.secret_key@.len() == 64
    &&& wallet.key_pair.public_key@.len() == 32
}

/// Whether `r` is what the gateway reports for an envelope that a wallet of
/// version V4R2 makes at `now` for a payload of the given depth: bytes, or
/// the first refusal of the envelope.
pub open spec fn reports_envelope(
    r: Result<Vec<u8>, GatewayError>,
    wallet: TonWallet,
    now: u64,
    payload_depth: nat,
) -> bool {
    match envelope_refusal(wallet, now, payload_depth) {
        Some(e) => r == Err::<Vec<u8>, GatewayError>(GatewayError::Envelope(e)),
        None => r is Ok,
    }
}

/// What `fork_transaction` returns for a fork asked for at `query_time`
/// and wrapped at `now`. On success it is what is submitted for the fork;
/// else an error of the envelope, which is `ExpiryOutOfRange` just where the
/// expiry does not fit 32 bits. With a wallet of version V4R2 the result is
/// fixed: the bytes, or the first refusal of the envelope; so it succeeds
/// with a wallet that can sign wherever the expiry fits.
pub open spec fn fork_outcome(
    r: Result<Vec<u8>, GatewayError>,
    wallet: TonWallet,
    seqno: u32,
    contract: TonAddress,
    query_time: u64,
    now: u64,
) -> bool {
    &&& can_sign(wallet) && now + EXPIRY_WINDOW <= u32::MAX ==> r is Ok
    &&& wallet.version is V4R2 ==> reports_envelope(r, wallet, now, 0)
    &&& r matches Ok(bytes) ==> is_fork_submission(
        bytes@,
        wallet,
        seqno,
        contract,
        query_time,
        now,
    )
    &&& r matches Err(e) ==> e is Envelope
    &&& now + EXPIRY_WINDOW > u32::MAX <==> r == Err::<Vec<u8>, GatewayError>(
        GatewayError::Envelope(EnvelopeError::ExpiryOutOfRange),
    )
    &&& r matches Err(GatewayError::Envelope(e)) ==> e != EnvelopeError::Serialization && e
        != EnvelopeError::Transfer && (takes_plain_body(wallet.version) ==> e
        != EnvelopeError::Body)
}

/// What `spread_transaction` returns for a spread among `entries` asked for
/// at `query_time` and wrapped at `now`. On success it is what is submitted
/// for the spread. It is `AmountOverflow` just where the amounts and the fee
/// do not fit 64 bits; else `CapacityExceeded` of the encoding just where
/// there are as many entries as a chain can hold, or more; else
/// `ExpiryOutOfRange` just where the expiry does not fit 32 bits. With a
/// wallet of version V4R2 the result is fixed after that too: the bytes, or
/// the first refusal of the envelope for a payload that is one deeper than
/// there are entries; so it succeeds with a wallet that can sign wherever the
/// spread can be sent and the expiry fits.
pub open spec fn spread_outcome(
    r: Result<Vec<u8>, GatewayError>,
    wallet: TonWallet,
    seqno: u32,
    contract: TonAddress,
    entries: Seq<SpreadWallet>,
    query_time: u64,
    now: u64,
) -> bool {
    &&& can_sign(wallet) && now + EXPIRY_WINDOW <= u32::MAX && spread_is_sendable(entries)
        ==> r is Ok
    &&& r matches Ok(bytes) ==> is_spread_submission(
        bytes@,
        wallet,
        seqno,
        contract,
        entries,
        query_time,
        now,
    )
    &&& total_amount(entries) + SPREAD_FEE > u64::MAX <==> r == Err::<Vec<u8>, GatewayError>(
        GatewayError::AmountOverflow,
    )
    &&& total_amount(entries) + SPREAD_FEE <= u64::MAX ==> (entries.len() >= MAX_SPREAD_ENTRIES
        <==> r == Err::<Vec<u8>, GatewayError>(
        GatewayError::Encoding(EncodingError::CapacityExceeded),
    ))
    &&& r matches Err(GatewayError::Encoding(e)) ==> e == EncodingError::CapacityExceeded
    &&& total_amount(entries) + SPREAD_FEE <= u64::MAX && entries.len() < MAX_SPREAD_ENTRIES
        ==> (now + EXPIRY_WINDOW > u32::MAX <==> r == Err::<Vec<u8>, GatewayError>(
        GatewayError::Envelope(EnvelopeError::ExpiryOutOfRange),
    ))
    &&& total_amount(entries) + SPREAD_FEE <= u64::MAX && entries.len() < MAX_SPREAD_ENTRIES
        && wallet.version is V4R2 ==> reports_envelope(r, wallet, now, entries.len() + 1)
    &&& r matches Err(GatewayError::Envelope(e)) ==> e != EnvelopeError::Serialization && e
        != EnvelopeError::Transfer && (takes_plain_body(wallet.version) ==> e
        != EnvelopeError::Body)
    &&& r != Err::<Vec<u8>, GatewayError>(GatewayError::Clock)
}

/// What `collect_transaction` returns for the collect that `data` asks for
/// at `query_time`, wrapped at `now`. On success it is what is submitted for
/// the collect. It is the error of the encoding just where the request
/// cannot be encoded; else `ExpiryOutOfRange` just where the expiry does not
/// fit 32 bits. With a wallet of version V4R2 the result is fixed after that
/// too: the bytes, or the first refusal of the envelope; so it succeeds with
/// a wallet that can sign wherever the request can be encoded and the expiry
/// fits.
pub open spec fn collect_outcome(
    r: Result<Vec<u8>, GatewayError>,
    wallet: TonWallet,
    seqno: u32,
    contract: TonAddress,
    data: CollectMessageData,
    query_time: u64,
    now: u64,
) -> bool {
    &&& can_sign(wallet) && now + EXPIRY_WINDOW <= u32::MAX && collect_message_of(
        data,
        query_time,
    ).layout() is Ok ==> r is Ok
    &&& r matches Ok(bytes) ==> is_collect_submission(
        bytes@,
        wallet,
        seqno,
        contract,
        data,
        query_time,
        now,
    )
    &&& match collect_message_of(data, query_time).layout() {
        Ok(_) => !(r matches Err(GatewayError::Encoding(_))) && (now + EXPIRY_WINDOW > u32::MAX
            <==> r == Err::<Vec<u8>, GatewayError>(
            GatewayError::Envelope(EnvelopeError::ExpiryOutOfRange),
        )) && (wallet.version is V4R2 ==> reports_envelope(r, wallet, now, 0)),
        Err(e) => r == Err::<Vec<u8>, GatewayError>(GatewayError::Encoding(e)),
    }
    &&& r matches Err(GatewayError::Envelope(e)) ==> e != EnvelopeError::Serialization && e
        != EnvelopeError::Transfer && (takes_plain_body(wallet.version) ==> e
        != EnvelopeError::Body)
    &&& r != Err::<Vec<u8>, GatewayError>(GatewayError::AmountOverflow)
    &&& r != Err::<Vec<u8>, GatewayError>(GatewayError::Clock)
}

/// The two readings of the clock that stamp a request, as seconds: the time
/// of the request and the time of its envelope; `None` where either reading
/// lies before the first of January 1970.
pub open spec fn stamps(first: SystemTime, second: SystemTime) -> Option<(u64, u64)> {
    match (epoch_seconds(first), epoch_seconds(second)) {
        (Some(query_time), Some(now)) => Some((query_time, now)),
        _ => None,
    }
}

/// What `prepare_fork` returns where the clock read `first` and then
/// `second`: what `fork_transaction` returns for those two times, or `Clock`
/// where one of them lies before the first of January 1970.
pub open spec fn prepared_fork(
    r: Result<Vec<u8>, GatewayError>,
    wallet: TonWallet,
    seqno: u32,
    contract: TonAddress,
    first: SystemTime,
    second: SystemTime,
) -> bool {
    match stamps(first, second) {
        Some((query_time, now)) => fork_outcome(r, wallet, seqno, contract, query_time, now),
        None => r == Err::<Vec<u8>, GatewayError>(GatewayError::Clock),
    }
}

/// What `prepare_spread` returns where the clock read `first` and then
/// `second`: what `spread_transaction` returns for those two times, or
/// `Clock` where one of them lies before the first of January 1970.
pub open spec fn prepared_spread(
    r: Result<Vec<u8>, GatewayError>,
    wallet: TonWallet,
    seqno: u32,
    contract: TonAddress,
    entries: Seq<SpreadWallet>,
    first: SystemTime,
    second: SystemTime,
) -> bool {
    match stamps(first, second) {
        Some((query_time, now)) => spread_outcome(
            r,
            wallet,
            seqno,
            contract,
            entries,
            query_time,
            now,
        ),
        None => r == Err::<Vec<u8>, GatewayError>(GatewayError::Clock),
    }
}

/// What `prepare_collect` returns where the clock read `first` and then
/// `second`: what `collect_transaction` returns for those two times, or
/// `Clock` where one of them lies before the first of January 1970.
pub open spec fn prepared_collect(
    r: Result<Vec<u8>, GatewayError>,
    wallet: TonWallet,
    seqno: u32,
    contract: TonAddress,
    data: CollectMessageData,
    first: SystemTime,
    second: SystemTime,
) -> bool {
    match stamps(first, second) {
        Some((query_time, now)) => collect_outcome(
            r,
            wallet,
            seqno,
            contract,
            data,
            query_time,
            now,
        ),
        None => r == Err::<Vec<u8>, GatewayError>(GatewayError::Clock),
    }
}

/// Whether a spread among `entries` can be sent, told before the ledger is
/// asked for anything: `AmountOverflow` where the amounts and the fee do not
/// fit 64 bits, else `CapacityExceeded` where the entries leave no room for
/// the three cells that wrap their chain.
pub fn check_spread(entries: &Vec<SpreadWallet>) -> (r: Result<(), GatewayError>)
    ensures
        r is Ok <==> spread_is_sendable(entries@),
        total_amount(entries@) + SPREAD_FEE > u64::MAX <==> r == Err::<(), GatewayError>(
            GatewayError::AmountOverflow,
        ),
        r matches Err(e) ==> e == GatewayError::AmountOverflow || e == GatewayError::Encoding(
            EncodingError::CapacityExceeded,
        ),
{
    let total = match spread_total(entries) {
        Some(total) => total,
        None => {
            return Err(GatewayError::AmountOverflow);
        },
    };
    if total > u64::MAX - SPREAD_FEE {
        return Err(GatewayError::AmountOverflow);
    }
    if entries.len() >= MAX_CELL_DEPTH as usize - 3 {
        return Err(GatewayError::Encoding(EncodingError::CapacityExceeded));
    }
    Ok(())
}

/// Whether a submission under `seqno` follows one under `last` for the same
/// wallet: there was none before, or its sequence number was smaller. A
/// number that does not follow was used already, or went back.
pub fn follows_in_sequence(last: Option<u32>, seqno: u32) -> (follows: bool)
    ensures
        follows == (last matches Some(previous) ==> previous < seqno),
{
    match last {
        Some(previous) => previous < seqno,
        None => true,
    }
}

/// A collect message can be encoded from what passed the checks on arrival,
/// whenever the request is made.
pub proof fn checked_collect_is_encoded(data: CollectMessageData, query_time: u64)
    requires
        can_be_encoded(data),
    ensures
        collect_message_of(data, query_time).layout() is Ok,
{
}

/// What was made of an envelope, as the gateway reports it.
pub fn submission_of(sent: Result<Vec<u8>, EnvelopeError>) -> (r: Result<Vec<u8>, GatewayError>)
    ensures
        match sent {
            Ok(bytes) => r == Ok::<Vec<u8>, GatewayError>(bytes),
            Err(e) => r == Err::<Vec<u8>, GatewayError>(GatewayError::Envelope(e)),
        },
{
    match sent {
        Ok(bytes) => Ok(bytes),
        Err(e) => Err(GatewayError::Envelope(e)),
    }
}

/// What is submitted for a fork: the fork payload with the fork's value.
pub fn fork_transaction(
    wallet: TonWallet,
    seqno: u32,
    contract: TonAddress,
    query_time: u64,
    now: u64,
) -> (r: Result<Vec<u8>, GatewayError>)
    ensures
        fork_outcome(r, wallet, seqno, contract, query_time, now),
{
    let body = ForkMessage::new(query_time).build();
    let ghost payload = body;
    let sent = create_external_singed_message(wallet, seqno, contract, FORK_VALUE, now, body);
    proof {
        assert(is_fork_body(payload, query_time));
    }
    submission_of(sent)
}

/// What is submitted for a spread among `entries`: the spread payload with
/// the sum of their amounts as its total, and that sum plus the fee as the
/// value. Nothing is built where the sum and the fee do not fit 64 bits.
pub fn spread_transaction(
    wallet: TonWallet,
    seqno: u32,
    contract: TonAddress,
    entries: &Vec<SpreadWallet>,
    query_time: u64,
    now: u64,
) -> (r: Result<Vec<u8>, GatewayError>)
    ensures
        spread_outcome(r, wallet, seqno, contract, entries@, query_time, now),
{
    let total = match spread_total(entries) {
        Some(total) => total,
        None => {
            return Err(GatewayError::AmountOverflow);
        },
    };
    let value = match total.checked_add(SPREAD_FEE) {
        Some(value) => value,
        None => {
            return Err(GatewayError::AmountOverflow);
        },
    };
    let chain = match build_spread_payload(entries) {
        Ok(chain) => chain,
        Err(e) => {
            return Err(GatewayError::Encoding(e));
        },
    };
    let ghost listed = chain;
    let body = match SpreadMessage::new(SPREAD_MODE, query_time, total, chain).try_build() {
        Ok(body) => body,
        Err(e) => {
            return Err(GatewayError::Encoding(e));
        },
    };
    let ghost payload = body;
    let sent = create_external_singed_message(wallet, seqno, contract, value, now, body);
    proof {
        assert(cell_refs(payload)[0] == listed);
        assert(is_spread_body(payload, entries@, query_time));
    }
    submission_of(sent)
}

/// What is submitted for a collect: the collect payload with the collect's
/// value. Nothing is built where the request cannot be encoded.
pub fn collect_transaction(
    wallet: TonWallet,
    seqno: u32,
    contract: TonAddress,
    message_data: CollectMessageData,
    query_time: u64,
    now: u64,
) -> (r: Result<Vec<u8>, GatewayError>)
    ensures
        collect_outcome(r, wallet, seqno, contract, message_data, query_time, now),
{
    let message = CollectMessage::new(
        message_data.mode,
        query_time,
        message_data.jetton_wallet,
        message_data.amount,
    );
    let body = match message.build() {
        Ok(body) => body,
        Err(e) => {
            return Err(GatewayError::Encoding(e));
        },
    };
    let ghost payload = body;
    let sent = create_external_singed_message(wallet, seqno, contract, COLLECT_VALUE, now, body);
    proof {
        assert(is_collect_body(payload, message));
    }
    submission_of(sent)
}

/// A fork as it is submitted now. The clock is read twice, once for the
/// time of the request and once for the envelope: the result is what
/// `fork_transaction` returns for those two times, and `Clock` where a
/// reading lies before the first of January 1970.
pub fn prepare_fork(wallet: TonWallet, seqno: u32, contract: TonAddress) -> (r: Result<
    Vec<u8>,
    GatewayError,
>)
    ensures
        exists|first: SystemTime, second: SystemTime| #[trigger]
            prepared_fork(r, wallet, seqno, contract, first, second),
        r matches Ok(bytes) ==> exists|query_time: u64, now: u64| #[trigger]
            is_fork_submission(bytes@, wallet, seqno, contract, query_time, now),
{
    let first = time_now();
    let ghost first_read = choose|time: SystemTime| first == #[trigger] epoch_seconds(time);
    let query_time = match first {
        Some(time) => time,
        None => {
            assert(prepared_fork(
                Err(GatewayError::Clock),
                wallet,
                seqno,
                contract,
                first_read,
                first_read,
            ));
            return Err(GatewayError::Clock);
        },
    };
    let second = time_now();
    let ghost second_read = choose|time: SystemTime| second == #[trigger] epoch_seconds(time);
    let now = match second {
        Some(time) => time,
        None => {
            assert(prepared_fork(
                Err(GatewayError::Clock),
                wallet,
                seqno,
                contract,
                first_read,
                second_read,
            ));
            return Err(GatewayError::Clock);
        },
    };
    let r = fork_transaction(wallet, seqno, contract, query_time, now);
    assert(prepared_fork(r, wallet, seqno, contract, first_read, second_read));
    r
}

/// A spread as it is submitted now. The clock is read twice, once for the
/// time of the request and once for the envelope: the result is what
/// `spread_transaction` returns for those two times, and `Clock` where a
/// reading lies before the first of January 1970.
pub fn prepare_spread(
    wallet: TonWallet,
    seqno: u32,
    contract: TonAddress,
    entries: &Vec<SpreadWallet>,
) -> (r: Result<Vec<u8>, GatewayError>)
    ensures
        exists|first: SystemTime, second: SystemTime| #[trigger]
            prepared_spread(r, wallet, seqno, contract, entries@, first, second),
        r matches Ok(bytes) ==> exists|query_time: u64, now: u64| #[trigger]
            is_spread_submission(bytes@, wallet, seqno, contract, entries@, query_time, now),
        total_amount(entries@) + SPREAD_FEE > u64::MAX ==> r is Err,
{
    let first = time_now();
    let ghost first_read = choose|time: SystemTime| first == #[trigger] epoch_seconds(time);
    let query_time = match first {
        Some(time) => time,
        None => {
            assert(prepared_spread(
                Err(GatewayError::Clock),
                wallet,
                seqno,
                contract,
                entries@,
                first_read,
                first_read,
            ));
            return Err(GatewayError::Clock);
        },
    };
    let second = time_now();
    let ghost second_read = choose|time: SystemTime| second == #[trigger] epoch_seconds(time);
    let now = match second {
        Some(time) => time,
        None => {
            assert(prepared_spread(
                Err(GatewayError::Clock),
                wallet,
                seqno,
                contract,
                entries@,
                first_read,
                second_read,
            ));
            return Err(GatewayError::Clock);
        },
    };
    let r = spread_transaction(wallet, seqno, contract, entries, query_time, now);
    assert(prepared_spread(r, wallet, seqno, contract, entries@, first_read, second_read));
    r
}

/// A collect as it is submitted now. The clock is read twice, once for the
/// time of the request and once for the envelope: the result is what
/// `collect_transaction` returns for those two times, and `Clock` where a
/// reading lies before the first of January 1970.
pub fn prepare_collect(
    wallet: TonWallet,
    seqno: u32,
    contract: TonAddress,
    message_data: CollectMessageData,
) -> (r: Result<Vec<u8>, GatewayError>)
    ensures
        exists|first: SystemTime, second: SystemTime| #[trigger]
            prepared_collect(r, wallet, seqno, contract, message_data, first, second),
        r matches Ok(bytes) ==> exists|query_time: u64, now: u64| #[trigger]
            is_collect_submission(bytes@, wallet, seqno, contract, message_data, query_time, now),
        message_data.mode > 3 ==> r is Err,
        message_data.mode == 3 && (message_data.jetton_wallet is None || message_data.amount
            is None) ==> r is Err,
{
    let first = time_now();
    let ghost first_read = choose|time: SystemTime| first == #[trigger] epoch_seconds(time);
    let query_time = match first {
        Some(time) => time,
        None => {
            assert(prepared_collect(
                Err(GatewayError::Clock),
                wallet,
                seqno,
                contract,
                message_data,
                first_read,
                first_read,
            ));
            return Err(GatewayError::Clock);
        },
    };
    let second = time_now();
    let ghost second_read = choose|time: SystemTime| second == #[trigger] epoch_seconds(time);
    let now = match second {
        Some(time) => time,
        None => {
            assert(prepared_collect(
                Err(GatewayError::Clock),
                wallet,
                seqno,
                contract,
                message_data,
                first_read,
                second_read,
            ));
            return Err(GatewayError::Clock);
        },
    };
    let r = collect_transaction(wallet, seqno, contract, message_data, query_time, now);
    assert(prepared_collect(r, wallet, seqno, contract, message_data, first_read, second_read));
    r
}

/// The place of the first sequence number in `seqnos` that does not exceed
/// the one before it, where submissions were made with these numbers in
/// this order; `None` where every number exceeds the one before it.
pub fn first_sequence_collision(seqnos: &Vec<u32>) -> (place: Option<usize>)
    ensures
        match place {
            Some(at) => 0 < at < seqnos.len() && seqnos[at as int] <= seqnos[at - 1] && forall|
                i: int,
            |
                0 < i < at ==> seqnos[i - 1] < #[trigger] seqnos[i],
            None => forall|i: int| 0 < i < seqnos.len() ==> seqnos[i - 1] < #[trigger] seqnos[i],
        },
{
    let mut i: usize = 1;
    while i < seqnos.len()
        invariant
            1 <= i,
            forall|j: int| 0 < j < i && j < seqnos.len() ==> seqnos[j - 1] < #[trigger] seqnos[j],
        decreases seqnos.len() - i,
    {
        if seqnos[i] <= seqnos[i - 1] {
            return Some(i);
        }
        i = i + 1;
    }
    None
}

/// In a spread payload the total in the header, the 64 bits after the
/// identifier and the time, is the sum of the amounts that the chain of
/// recipients holds: both are the sum of the entries' amounts.
pub proof fn spread_total_matches_entries(
    body: Cell,
    entries: Seq<SpreadWallet>,
    query_time: u64,
)
    requires
        is_spread_body(body, entries, query_time),
    ensures
        read_uint(cell_bits(body), 96, 64) == total_amount(entries),
        chain_amount(cell_refs(body)[0], entries.len()) == total_amount(entries),
{
    lemma_machine_widths();
    let head = header_bits(OP_SPREAD, query_time);
    let total = total_amount(entries);
    let tail = be_bits(SPREAD_MODE as nat, 8) + seq![true];
    lemma_be_bits_len(opcode_of(OP_SPREAD) as nat, 32);
    lemma_be_bits_len(query_time as nat, 64);
    assert(cell_bits(body) =~= head + be_bits(total, 64) + tail);
    lemma_read_appended(head, total, 64, tail);
    chain_holds_total(cell_refs(body)[0], entries);
}

} // verus!
