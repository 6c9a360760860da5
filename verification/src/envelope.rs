//! The signed envelope: a payload wrapped into a transfer, the transfer into
//! the body that the wallet accepts, the body signed, and the signed body
//! into the external message that is sent to the ledger.

use crate::bits::{
    be_bits, bytes_bits, lemma_be_bits_len, lemma_machine_widths, lemma_read_appended, read_uint,
};
use crate::cell::{
    can_be_children, cell_bits, cell_depth, cell_refs, children_are_shallow, deepest_level,
    is_sound, lemma_depth_over_one, MAX_CELL_DEPTH,
};
use crate::wallet::{
    carries_body, cell_hash, ed25519_signature, external_body_bits, external_body_cell,
    external_body_parts, is_bag_of_cells, null_address, plain_transfer_bits, serialize_boc,
    sign_body, signed_bits, starts_as_bag_of_cells, takes_plain_body, transfer_bits,
    transfer_cell, wrap_signed, wrapped_parts, V4R2_STATE_DEPTH,
};
use tonlib_core::cell::Cell;
use tonlib_core::wallet::ton_wallet::TonWallet;
use tonlib_core::wallet::wallet_version::WalletVersion;
use tonlib_core::TonAddress;
use vstd::prelude::*;

verus! {

/// For how many seconds after its construction an envelope is valid.
pub const EXPIRY_WINDOW: u64 = 60;

/// Why an envelope could not be made.
#[derive(Debug, Clone, Copy, PartialEq, Eq, Structural)]
pub enum EnvelopeError {
    /// The expiry, sixty seconds after the construction time, does not fit 32 bits.
    ExpiryOutOfRange,
    /// A cell of the envelope is nested as deep as a tree of cells may be.
    CapacityExceeded,
    /// The transfer could not be built.
    Transfer,
    /// The wallet could not build a body for the transfer.
    Body,
    /// The wallet could not sign the body.
    Signing,
    /// The wallet could not wrap the signed body into a message.
    Wrapping,
    /// The message could not be serialised.
    Serialization,
}

/// The expiry of an envelope made at `now`: sixty seconds later, or `None`
/// where that does not fit 32 bits.
pub fn envelope_expiry(now: u64) -> (expiry: Option<u32>)
    ensures
        now + EXPIRY_WINDOW <= u32::MAX ==> expiry == Some((now + EXPIRY_WINDOW) as u32),
        now + EXPIRY_WINDOW > u32::MAX ==> expiry is None,
{
    if now <= 0xFFFF_FFFF - EXPIRY_WINDOW {
        Some((now + EXPIRY_WINDOW) as u32)
    } else {
        None
    }
}

/// Whether the four cells are the parts of the envelope that `wallet` makes
/// at `now` for a transfer of `amount` to `destination` with `payload` as its
/// body, under the sequence number `seqno`: the transfer, the body that the
/// wallet makes for it with the expiry and the sequence number, the signed
/// body, and the message that wraps it with the wallet's initial state.
pub open spec fn envelope_parts(
    wallet: TonWallet,
    seqno: u32,
    destination: TonAddress,
    amount: u64,
    now: u64,
    payload: Cell,
    transfer: Cell,
    body: Cell,
    signed: Cell,
    message: Cell,
) -> bool {
    &&& now + EXPIRY_WINDOW <= u32::MAX
    &&& cell_bits(transfer) == plain_transfer_bits(destination, amount)
    &&& cell_refs(transfer) == seq![payload]
    &&& (cell_bits(body), cell_refs(body)) == external_body_parts(
        wallet,
        (now + EXPIRY_WINDOW) as u32,
        seqno,
        transfer,
    )
    &&& takes_plain_body(wallet.version) ==> {
        &&& cell_bits(body) == external_body_bits(
            wallet.version,
            wallet.wallet_id,
            (now + EXPIRY_WINDOW) as u32,
            seqno,
        )
        &&& cell_refs(body) == seq![transfer]
    }
    &&& {
        let signature = ed25519_signature(cell_hash(body), wallet.key_pair.secret_key@);
        &&& signature.len() == 64
        &&& cell_bits(signed) == signed_bits(wallet.version, signature, cell_bits(body))
        &&& cell_refs(signed) == cell_refs(body)
    }
    &&& (cell_bits(message), cell_refs(message)) == wrapped_parts(wallet, signed, true)
    &&& carries_body(message, signed)
}

/// The inputs on which an envelope is owed: the expiry fits 32 bits, the
/// payload has room for two cells above it, and the wallet is of version
/// V4R2 with keys of the right lengths.
pub open spec fn envelope_is_owed(wallet: TonWallet, now: u64, payload: Cell) -> bool {
    &&& now + EXPIRY_WINDOW <= u32::MAX
    &&& cell_depth(payload) + 2 < MAX_CELL_DEPTH
    &&& wallet.version is V4R2
    &&& wallet.key_pair.secret_key@.len() == 64
    &&& wallet.key_pair.public_key@.len() == 32
}

/// What comes back where no envelope is made, for a wallet of the second,
/// third or fourth version and a payload that is a sound tree of the given
/// depth. The tests are made in this order: the expiry must fit 32 bits, the
/// payload must leave room for two cells above it, and the secret key must
/// be sixty-four bytes long. For a wallet of version V4R2 the one thing left
/// is the public key, which must be thirty-two bytes long for the message to
/// be wrapped.
pub open spec fn envelope_refusal(wallet: TonWallet, now: u64, payload_depth: nat) -> Option<
    EnvelopeError,
> {
    if now + EXPIRY_WINDOW > u32::MAX {
        Some(EnvelopeError::ExpiryOutOfRange)
    } else if payload_depth + 2 >= MAX_CELL_DEPTH {
        Some(EnvelopeError::CapacityExceeded)
    } else if wallet.key_pair.secret_key@.len() != 64 {
        Some(EnvelopeError::Signing)
    } else if wallet.key_pair.public_key@.len() != 32 {
        Some(EnvelopeError::Wrapping)
    } else {
        None
    }
}

/// How deep the message of a wallet of version V4R2 is at most: three
/// deeper than the payload, or as deep as the wallet's initial state makes it.
pub open spec fn message_depth_bound(message: Cell, payload: Cell) -> bool {
    cell_depth(message) <= cell_depth(payload) + 3 || cell_depth(message) <= V4R2_STATE_DEPTH
}

/// The body of a wallet of the second, third or fourth version is 112 bits
/// long at most, so that a signature fits beside it.
pub proof fn lemma_plain_body_bits_len(
    version: WalletVersion,
    wallet_id: i32,
    expire_at: u32,
    seqno: u32,
)
    ensures
        external_body_bits(version, wallet_id, expire_at, seqno).len() <= 112,
{
    lemma_be_bits_len((wallet_id as int % 0x1_0000_0000) as nat, 32);
    lemma_be_bits_len(expire_at as nat, 32);
    lemma_be_bits_len(seqno as nat, 32);
    lemma_be_bits_len(0, 8);
    lemma_be_bits_len(3, 8);
}

/// Whether `message` is the envelope that `wallet` makes at `now` for a
/// transfer of `amount` to `destination` with `payload` as its body, under
/// the sequence number `seqno`.
pub open spec fn is_envelope(
    message: Cell,
    wallet: TonWallet,
    seqno: u32,
    destination: TonAddress,
    amount: u64,
    now: u64,
    payload: Cell,
) -> bool {
    exists|transfer: Cell, body: Cell, signed: Cell| #[trigger]
        envelope_parts(
            wallet,
            seqno,
            destination,
            amount,
            now,
            payload,
            transfer,
            body,
            signed,
            message,
        )
}

/// The envelope as a cell, for a payload that is a sound tree. The transfer
/// bounces, is not itself a bounce and has instant routing switched off; the
/// message carries the wallet's initial state. Nothing is built where the
/// expiry does not fit 32 bits. For a wallet of version V4R2 the result is
/// fixed: the envelope, or the first refusal.
pub fn build_envelope(
    wallet: &TonWallet,
    seqno: u32,
    destination: &TonAddress,
    amount: u64,
    now: u64,
    payload: Cell,
) -> (r: Result<Cell, EnvelopeError>)
    requires
        is_sound(payload),
    ensures
        envelope_is_owed(*wallet, now, payload) ==> r is Ok,
        wallet.version is V4R2 ==> match envelope_refusal(*wallet, now, cell_depth(payload)) {
            Some(e) => r == Err::<Cell, EnvelopeError>(e),
            None => r is Ok,
        },
        takes_plain_body(wallet.version) ==> match envelope_refusal(
            *wallet,
            now,
            cell_depth(payload),
        ) {
            Some(EnvelopeError::Wrapping) => true,
            Some(e) => r == Err::<Cell, EnvelopeError>(e),
            None => true,
        },
        r == Err::<Cell, EnvelopeError>(EnvelopeError::ExpiryOutOfRange) <==> now + EXPIRY_WINDOW
            > u32::MAX,
        r matches Ok(message) ==> is_envelope(
            message,
            *wallet,
            seqno,
            *destination,
            amount,
            now,
            payload,
        ) && is_sound(message) && (wallet.version is V4R2 ==> message_depth_bound(
            message,
            payload,
        )),
        r != Err::<Cell, EnvelopeError>(EnvelopeError::Transfer),
        takes_plain_body(wallet.version) ==> r != Err::<Cell, EnvelopeError>(EnvelopeError::Body),
        r != Err::<Cell, EnvelopeError>(EnvelopeError::Serialization),
        wallet.key_pair.secret_key@.len() != 64 ==> r is Err,
{
    let expiry = match envelope_expiry(now) {
        Some(expiry) => expiry,
        None => {
            return Err(EnvelopeError::ExpiryOutOfRange);
        },
    };
    if deepest_level(&payload) >= MAX_CELL_DEPTH {
        return Err(EnvelopeError::CapacityExceeded);
    }
    let source = null_address();
    proof {
        assert(plain_transfer_bits(*destination, amount) =~= transfer_bits(
            true,
            true,
            false,
            source,
            *destination,
            amount,
            0,
            0,
            0,
            0,
        ));
    }
    let transfer = match transfer_cell(
        true,
        true,
        false,
        source,
        destination,
        amount,
        0,
        0,
        0,
        0,
        payload,
    ) {
        Ok(cell) => cell,
        Err(_) => {
            return Err(EnvelopeError::Transfer);
        },
    };
    if deepest_level(&transfer) >= MAX_CELL_DEPTH {
        return Err(EnvelopeError::CapacityExceeded);
    }
    let ghost transfer_parts = transfer;
    let body = match external_body_cell(wallet, expiry, seqno, transfer) {
        Ok(cell) => cell,
        Err(_) => {
            return Err(EnvelopeError::Body);
        },
    };
    proof {
        lemma_depth_over_one(transfer_parts);
        lemma_plain_body_bits_len(wallet.version, wallet.wallet_id, expiry, seqno);
        if takes_plain_body(wallet.version) {
            assert(can_be_children(cell_refs(body)));
        }
    }
    if deepest_level(&body) >= MAX_CELL_DEPTH {
        return Err(EnvelopeError::CapacityExceeded);
    }
    if !children_are_shallow(&body) {
        return Err(EnvelopeError::CapacityExceeded);
    }
    let signed = match sign_body(wallet, &body) {
        Ok(cell) => cell,
        Err(_) => {
            return Err(EnvelopeError::Signing);
        },
    };
    if deepest_level(&signed) >= MAX_CELL_DEPTH {
        return Err(EnvelopeError::CapacityExceeded);
    }
    if !children_are_shallow(&signed) {
        return Err(EnvelopeError::CapacityExceeded);
    }
    let ghost signed_parts = signed;
    match wrap_signed(wallet, signed, true) {
        Ok(message) => {
            proof {
                assert(envelope_parts(
                    *wallet,
                    seqno,
                    *destination,
                    amount,
                    now,
                    payload,
                    transfer_parts,
                    body,
                    signed_parts,
                    message,
                ));
            }
            Ok(message)
        },
        Err(_) => Err(EnvelopeError::Wrapping),
    }
}

/// The envelope as the bytes that are sent to the ledger, for a payload
/// that is a sound tree: a bag of cells with a checksum whose one root is
/// the envelope's message. It starts with the four bytes that mark a bag of
/// cells. For a wallet of version V4R2 the result is fixed: the bytes of the
/// envelope, or the first refusal.
pub fn create_external_singed_message(
    user_wallet: TonWallet,
    seqno: u32,
    destination_address: TonAddress,
    amount: u64,
    now: u64,
    body_payload: Cell,
) -> (r: Result<Vec<u8>, EnvelopeError>)
    requires
        is_sound(body_payload),
    ensures
        envelope_is_owed(user_wallet, now, body_payload) ==> r is Ok,
        user_wallet.version is V4R2 ==> match envelope_refusal(
            user_wallet,
            now,
            cell_depth(body_payload),
        ) {
            Some(e) => r == Err::<Vec<u8>, EnvelopeError>(e),
            None => r is Ok,
        },
        r == Err::<Vec<u8>, EnvelopeError>(EnvelopeError::ExpiryOutOfRange) <==> now
            + EXPIRY_WINDOW > u32::MAX,
        r matches Ok(bytes) ==> starts_as_bag_of_cells(bytes@) && exists|message: Cell|
            is_envelope(message, user_wallet, seqno, destination_address, amount, now, body_payload)
                && #[trigger] is_bag_of_cells(bytes@, message, true),
        r != Err::<Vec<u8>, EnvelopeError>(EnvelopeError::Transfer),
        takes_plain_body(user_wallet.version) ==> r != Err::<Vec<u8>, EnvelopeError>(
            EnvelopeError::Body,
        ),
        r != Err::<Vec<u8>, EnvelopeError>(EnvelopeError::Serialization),
        user_wallet.key_pair.secret_key@.len() != 64 ==> r is Err,
{
    let built = build_envelope(
        &user_wallet,
        seqno,
        &destination_address,
        amount,
        now,
        body_payload,
    );
    serialized_envelope(built)
}

/// What is sent for an envelope that was built as a sound tree, and what is
/// reported for one that was not built: the error that stopped it. A
/// message that is no deeper than a tree of cells may be is sent; a deeper
/// one is refused.
pub fn serialized_envelope(built: Result<Cell, EnvelopeError>) -> (r: Result<
    Vec<u8>,
    EnvelopeError,
>)
    requires
        built matches Ok(message) ==> is_sound(message),
    ensures
        match built {
            Ok(message) => if cell_depth(message) <= MAX_CELL_DEPTH {
                r matches Ok(bytes) && is_bag_of_cells(bytes@, message, true)
                    && starts_as_bag_of_cells(bytes@)
            } else {
                r == Err::<Vec<u8>, EnvelopeError>(EnvelopeError::CapacityExceeded)
            },
            Err(e) => r == Err::<Vec<u8>, EnvelopeError>(e),
        },
{
    match built {
        Ok(message) => {
            if deepest_level(&message) > MAX_CELL_DEPTH {
                return Err(EnvelopeError::CapacityExceeded);
            }
            match serialize_boc(message, true) {
                Ok(bytes) => Ok(bytes),
                Err(_) => Err(EnvelopeError::Serialization),
            }
        },
        Err(e) => Err(e),
    }
}

/// Where in the body of a wallet the sequence number stands: at its start
/// for the second version, after the identifier and the expiry for the third
/// and the fourth.
pub open spec fn seqno_offset(version: WalletVersion) -> int {
    if version is V2R1 || version is V2R2 {
        0
    } else {
        64
    }
}

/// In the body that a wallet of the second, third or fourth version signs,
/// bits 32 to 63 hold the expiry, the construction time plus sixty seconds,
/// and the 32 bits at the place of the sequence number hold the sequence
/// number that was given. In the signed body both stand 512 bits later,
/// after the signature.
pub proof fn envelope_expiry_is_encoded(
    wallet: TonWallet,
    seqno: u32,
    destination: TonAddress,
    amount: u64,
    now: u64,
    payload: Cell,
    transfer: Cell,
    body: Cell,
    signed: Cell,
    message: Cell,
)
    requires
        takes_plain_body(wallet.version),
        envelope_parts(
            wallet,
            seqno,
            destination,
            amount,
            now,
            payload,
            transfer,
            body,
            signed,
            message,
        ),
    ensures
        read_uint(cell_bits(body), 32, 32) == now + EXPIRY_WINDOW,
        read_uint(cell_bits(body), seqno_offset(wallet.version), 32) == seqno,
        read_uint(cell_bits(signed), 544, 32) == now + EXPIRY_WINDOW,
        read_uint(cell_bits(signed), 512 + seqno_offset(wallet.version), 32) == seqno,
{
    lemma_machine_widths();
    let id = be_bits((wallet.wallet_id as int % 0x1_0000_0000) as nat, 32);
    let expiry = (now + EXPIRY_WINDOW) as nat;
    let until = be_bits(expiry, 32);
    let number = be_bits(seqno as nat, 32);
    let none = Seq::<bool>::empty();
    let signature = bytes_bits(
        ed25519_signature(cell_hash(body), wallet.key_pair.secret_key@),
    );
    lemma_be_bits_len((wallet.wallet_id as int % 0x1_0000_0000) as nat, 32);
    lemma_be_bits_len(expiry, 32);
    lemma_be_bits_len(seqno as nat, 32);
    crate::bits::lemma_bytes_bits_len(
        ed25519_signature(cell_hash(body), wallet.key_pair.secret_key@),
    );
    if wallet.version is V2R1 || wallet.version is V2R2 {
        let tail = be_bits(3, 8);
        assert(cell_bits(body) =~= number + until + tail);
        lemma_read_appended(number, expiry, 32, tail);
        assert(cell_bits(body) =~= none + number + (until + tail));
        lemma_read_appended(none, seqno as nat, 32, until + tail);
        assert(cell_bits(signed) =~= (signature + number) + until + tail);
        lemma_read_appended(signature + number, expiry, 32, tail);
        assert(cell_bits(signed) =~= signature + number + (until + tail));
        lemma_read_appended(signature, seqno as nat, 32, until + tail);
    } else {
        let tail = if wallet.version is V3R1 || wallet.version is V3R2 {
            be_bits(3, 8)
        } else {
            be_bits(0, 8) + be_bits(3, 8)
        };
        assert(cell_bits(body) =~= id + until + (number + tail));
        lemma_read_appended(id, expiry, 32, number + tail);
        assert(cell_bits(body) =~= (id + until) + number + tail);
        lemma_read_appended(id + until, seqno as nat, 32, tail);
        assert(cell_bits(signed) =~= (signature + id) + until + (number + tail));
        lemma_read_appended(signature + id, expiry, 32, number + tail);
        assert(cell_bits(signed) =~= (signature + id + until) + number + tail);
        lemma_read_appended(signature + id + until, seqno as nat, 32, tail);
    }
}

} // verus!
