//! The wallet that signs for the mixer's operator, and what `tonlib_core`
//! does when it is asked for a transfer, an external body, a signature and
//! the message that carries them.

use crate::bits::{be_bits, bytes_bits};
use crate::cell::{
    address_bits, can_be_child, can_be_children, cell_bits, cell_depth, cell_refs, coins_bits,
    depth_over, hash_bytes, is_sound, MAX_CELL_BITS, MAX_CELL_DEPTH,
};
use std::sync::Arc;
use tonlib_core::cell::{BagOfCells, Cell, TonCellError};
use tonlib_core::message::{
    CommonMsgInfo, InternalMessage, TonMessage, TonMessageError, TransferMessage,
};
use tonlib_core::wallet::error::MnemonicError;
use tonlib_core::wallet::mnemonic::{KeyPair, Mnemonic};
use tonlib_core::wallet::ton_wallet::TonWallet;
use tonlib_core::wallet::wallet_version::WalletVersion;
use tonlib_core::TonAddress;
use vstd::prelude::*;

verus! {

/// `tonlib_core`'s versions of the wallet contract, by their names.
#[verifier::external_type_specification]
pub struct ExWalletVersion(WalletVersion);

/// `tonlib_core`'s pair of keys: the public and the secret key as bytes.
#[verifier::external_type_specification]
pub struct ExKeyPair(KeyPair);

/// `tonlib_core`'s wallet: its version, keys, address and identifier.
#[verifier::external_type_specification]
pub struct ExTonWallet(TonWallet);

/// `tonlib_core`'s mnemonic, carried through as it is.
#[verifier::external_type_specification]
#[verifier::external_body]
pub struct ExMnemonic(Mnemonic);

/// `tonlib_core`'s error for a mnemonic, carried through as it is.
#[verifier::external_type_specification]
#[verifier::external_body]
pub struct ExMnemonicError(MnemonicError);

/// `tonlib_core`'s error for a message, carried through as it is.
#[verifier::external_type_specification]
#[verifier::external_body]
pub struct ExTonMessageError(TonMessageError);

/// The identifier that a wallet gets where none is asked for.
pub const DEFAULT_WALLET_ID: i32 = 0x29a9a317;

/// The words of a phrase, where it is a valid mnemonic without password:
/// twenty-four known words that pass the test for such a phrase.
pub uninterp spec fn phrase_words(phrase: Seq<char>) -> Option<Seq<Seq<char>>>;

/// What a mnemonic was made from: its words, and its password where it has one.
pub uninterp spec fn mnemonic_parts(mnemonic: Mnemonic) -> (Seq<Seq<char>>, Option<Seq<char>>);

/// The public and the secret key that the words of a mnemonic stand for,
/// with its password or without one.
pub uninterp spec fn derived_keys(words: Seq<Seq<char>>, password: Option<Seq<char>>) -> (
    Seq<u8>,
    Seq<u8>,
);

/// The address of the wallet contract of the given version, keys and
/// identifier on workchain zero: its workchain and its hash.
pub uninterp spec fn wallet_address(
    version: WalletVersion,
    public_key: Seq<u8>,
    wallet_id: i32,
) -> (i32, Seq<u8>);

/// The representation hash of a cell, thirty-two bytes.
pub uninterp spec fn cell_hash(cell: Cell) -> Seq<u8>;

/// The Ed25519 signature of `message` under `secret_key`, sixty-four bytes.
pub uninterp spec fn ed25519_signature(message: Seq<u8>, secret_key: Seq<u8>) -> Seq<u8>;

/// Whether `bytes` is a serialisation of the cells reachable from `root` as
/// a bag of cells, with or without a checksum at its end.
pub uninterp spec fn is_bag_of_cells(bytes: Seq<u8>, root: Cell, with_crc: bool) -> bool;

/// The bits and the references of the body that `wallet` makes for one
/// message, valid until `expire_at`, under the sequence number `seqno`.
pub uninterp spec fn external_body_parts(
    wallet: TonWallet,
    expire_at: u32,
    seqno: u32,
    message: Cell,
) -> (Seq<bool>, Seq<Cell>);

/// The bits and the references of the external message in which `wallet`
/// wraps a signed body, with its initial state or without.
pub uninterp spec fn wrapped_parts(wallet: TonWallet, signed: Cell, add_state_init: bool) -> (
    Seq<bool>,
    Seq<Cell>,
);

/// How deep a message with the initial state of a wallet of version V4R2
/// is, whatever it carries: the wallet's code is seven cells deep.
pub const V4R2_STATE_DEPTH: u16 = 8;

/// The bits of a signed body: the signature before the body for a wallet of
/// a version before the fifth, after it for one of the fifth.
pub open spec fn signed_bits(version: WalletVersion, signature: Seq<u8>, body: Seq<bool>) -> Seq<
    bool,
> {
    if version is V5R1 {
        body + bytes_bits(signature)
    } else {
        bytes_bits(signature) + body
    }
}

/// Whether a byte string starts with the four bytes that mark a bag of cells.
pub open spec fn starts_as_bag_of_cells(bytes: Seq<u8>) -> bool {
    bytes.len() >= 4 && bytes[0] == 0xb5 && bytes[1] == 0xee && bytes[2] == 0x9c && bytes[3]
        == 0x72
}

/// Whether a version of the wallet takes a body of plain fields: the second,
/// the third and the fourth do.
pub open spec fn takes_plain_body(version: WalletVersion) -> bool {
    version is V2R1 || version is V2R2 || version is V3R1 || version is V3R2 || version is V4R1
        || version is V4R2
}

/// A hash of thirty-two zero bytes.
pub open spec fn zero_hash() -> Seq<u8> {
    Seq::new(32, |i: int| 0u8)
}

/// The bits of a transfer of `amount` from `source` to `destination`
/// without initial state, whose body is referred to: a zero bit for
/// "internal", the three flags, the two addresses, the amount as coins, a
/// zero bit for "no other currencies", the two fees as coins, the creation
/// time in logical time and in seconds, a zero bit for "no initial state" and
/// a set bit for "the body is referred to".
pub open spec fn transfer_bits(
    ihr_disabled: bool,
    bounce: bool,
    bounced: bool,
    source: TonAddress,
    destination: TonAddress,
    amount: u64,
    ihr_fee: u64,
    fwd_fee: u64,
    created_lt: u64,
    created_at: u32,
) -> Seq<bool> {
    seq![false, ihr_disabled, bounce, bounced] + address_bits(
        source.workchain,
        hash_bytes(source.hash_part),
    ) + address_bits(destination.workchain, hash_bytes(destination.hash_part)) + coins_bits(
        amount as nat,
    ) + seq![false] + coins_bits(ihr_fee as nat) + coins_bits(fwd_fee as nat) + be_bits(
        created_lt as nat,
        64,
    ) + be_bits(created_at as nat, 32) + seq![false] + seq![true]
}

/// The bits of a transfer as the mixer makes it: from no address, with no
/// fees and no creation time; it bounces, is not itself a bounce and has
/// instant routing switched off.
pub open spec fn plain_transfer_bits(destination: TonAddress, amount: u64) -> Seq<bool> {
    seq![false, true, true, false] + seq![false, false] + address_bits(
        destination.workchain,
        hash_bytes(destination.hash_part),
    ) + coins_bits(amount as nat) + seq![false] + coins_bits(0) + coins_bits(0) + be_bits(0, 64)
        + be_bits(0, 32) + seq![false] + seq![true]
}

/// The bits of the body that a wallet of the second, third or fourth version
/// accepts for one message. The second takes the sequence number and the
/// time until which the body is valid, 32 bits each; the third and the fourth
/// take the wallet's identifier, that time and the sequence number, 32 bits
/// each, and the fourth a zero byte for "plain transfer" after them. Each
/// ends with the send mode 3 of the message in eight bits.
pub open spec fn external_body_bits(
    version: WalletVersion,
    wallet_id: i32,
    expire_at: u32,
    seqno: u32,
) -> Seq<bool> {
    let id = be_bits((wallet_id as int % 0x1_0000_0000) as nat, 32);
    let until = be_bits(expire_at as nat, 32);
    let number = be_bits(seqno as nat, 32);
    if version is V2R1 || version is V2R2 {
        number + until + be_bits(3, 8)
    } else if version is V3R1 || version is V3R2 {
        id + until + number + be_bits(3, 8)
    } else {
        id + until + number + be_bits(0, 8) + be_bits(3, 8)
    }
}

/// Whether `message` carries `body`: either its last bit is set and its last
/// reference is a cell with the bits and the references of `body`, or it
/// ends with a zero bit followed by the bits of `body`, and its references
/// end with those of `body`.
pub open spec fn carries_body(message: Cell, body: Cell) -> bool {
    ||| (cell_bits(message).len() > 0 && cell_bits(message).last() && cell_refs(message).len() > 0
        && cell_bits(cell_refs(message).last()) == cell_bits(body) && cell_refs(
        cell_refs(message).last(),
    ) == cell_refs(body))
    ||| (exists|bits: Seq<bool>, refs: Seq<Cell>|
        #![auto]
        cell_bits(message) == bits + seq![false] + cell_bits(body) && cell_refs(message) == refs
            + cell_refs(body))
}

/// `Mnemonic::from_str` without a password: the mnemonic of a phrase that
/// is valid, and an error for any other. A valid phrase has twenty-four
/// known words, and its words pass the test for a phrase without password.
#[verifier::external_body]
pub(crate) fn parse_mnemonic(phrase: &str) -> (r: Result<Mnemonic, MnemonicError>)
    ensures
        match r {
            Ok(mnemonic) => phrase_words(phrase@) == Some(mnemonic_parts(mnemonic).0)
                && mnemonic_parts(mnemonic).1 is None,
            Err(_) => phrase_words(phrase@) is None,
        },
{
    Mnemonic::from_str(phrase, &None)
}

/// `Mnemonic::to_key_pair`: the keys that the words stand for, a public key
/// of thirty-two bytes and a secret key of sixty-four. The derivation has no
/// input on which it fails.
#[verifier::external_body]
pub(crate) fn mnemonic_key_pair(mnemonic: &Mnemonic) -> (r: Result<KeyPair, MnemonicError>)
    ensures
        r is Ok,
        r matches Ok(keys) ==> {
            &&& (keys.public_key@, keys.secret_key@) == derived_keys(
                mnemonic_parts(*mnemonic).0,
                mnemonic_parts(*mnemonic).1,
            )
            &&& keys.public_key@.len() == 32
            &&& keys.secret_key@.len() == 64
        },
{
    mnemonic.to_key_pair()
}

/// `TonWallet::new`: the wallet of the given version and keys, with the
/// default identifier for a version before the fifth, at its address on
/// workchain zero. For version V4R2 it succeeds where the public key is
/// thirty-two bytes long.
#[verifier::external_body]
pub(crate) fn new_wallet(version: WalletVersion, key_pair: KeyPair) -> (r: Result<
    TonWallet,
    TonCellError,
>)
    requires
        !(version is V5R1),
    ensures
        version is V4R2 && key_pair.public_key@.len() == 32 ==> r is Ok,
        r matches Ok(wallet) ==> {
            &&& wallet.version == version
            &&& wallet.key_pair == key_pair
            &&& wallet.wallet_id == DEFAULT_WALLET_ID
            &&& (wallet.address.workchain, hash_bytes(wallet.address.hash_part))
                == wallet_address(version, key_pair.public_key@, DEFAULT_WALLET_ID)
            &&& hash_bytes(wallet.address.hash_part).len() == 32
        },
{
    TonWallet::new(version, key_pair)
}

/// `TonAddress::NULL`: the address that stands for none, on workchain zero
/// with a hash of zeros.
#[verifier::external_body]
pub(crate) fn null_address() -> (address: TonAddress)
    ensures
        address.workchain == 0,
        hash_bytes(address.hash_part) == zero_hash(),
{
    TonAddress::NULL
}

/// `TransferMessage::build` on an internal message without initial state:
/// one cell with the bits of the transfer and one reference, to `body`. It is
/// built like any cell: it succeeds where `body` is a sound tree, and is
/// then a sound tree itself, one deeper than `body`.
#[verifier::external_body]
pub(crate) fn transfer_cell(
    ihr_disabled: bool,
    bounce: bool,
    bounced: bool,
    source: TonAddress,
    destination: &TonAddress,
    amount: u64,
    ihr_fee: u64,
    fwd_fee: u64,
    created_lt: u64,
    created_at: u32,
    body: Cell,
) -> (r: Result<Cell, TonMessageError>)
    requires
        can_be_child(body),
    ensures
        is_sound(body) ==> r is Ok,
        r matches Ok(cell) ==> {
            &&& cell_bits(cell) == transfer_bits(
                ihr_disabled,
                bounce,
                bounced,
                source,
                *destination,
                amount,
                ihr_fee,
                fwd_fee,
                created_lt,
                created_at,
            )
            &&& cell_refs(cell) == seq![body]
            &&& cell_depth(cell) <= cell_depth(body) + 1
            &&& is_sound(body) ==> is_sound(cell) && cell_depth(cell) == cell_depth(body) + 1
        },
{
    let info = InternalMessage {
        ihr_disabled,
        bounce,
        bounced,
        src: source,
        dest: destination.clone(),
        value: num_bigint::BigUint::from(amount),
        ihr_fee: num_bigint::BigUint::from(ihr_fee),
        fwd_fee: num_bigint::BigUint::from(fwd_fee),
        created_lt,
        created_at,
    };
    TransferMessage::new(CommonMsgInfo::InternalMessage(info), Arc::new(body)).build()
}

/// `TonWallet::create_external_body` with one message: the body that the
/// wallet makes for it, a sound tree where the message is one. For a wallet
/// of the second, third or fourth version
/// the body holds the plain fields of that version and refers to the
/// message. It is built like any cell: for such a wallet it succeeds where
/// the message is a sound tree, and is then a sound tree itself, one deeper
/// than the message.
#[verifier::external_body]
pub(crate) fn external_body_cell(
    wallet: &TonWallet,
    expire_at: u32,
    seqno: u32,
    message: Cell,
) -> (r: Result<Cell, TonCellError>)
    requires
        can_be_child(message),
    ensures
        r is Err ==> !(takes_plain_body(wallet.version) && is_sound(message)),
        r matches Ok(body) ==> (cell_bits(body), cell_refs(body)) == external_body_parts(
            *wallet,
            expire_at,
            seqno,
            message,
        ) && (is_sound(message) ==> is_sound(body)),
        r matches Ok(body) ==> (takes_plain_body(wallet.version) ==> {
            &&& cell_bits(body) == external_body_bits(
                wallet.version,
                wallet.wallet_id,
                expire_at,
                seqno,
            )
            &&& cell_refs(body) == seq![message]
            &&& cell_depth(body) <= cell_depth(message) + 1
            &&& is_sound(message) ==> is_sound(body) && cell_depth(body) == cell_depth(message)
                + 1
        }),
{
    wallet.create_external_body(expire_at, seqno, vec![Arc::new(message)])
}

/// `TonWallet::sign_external_body`. The signed cell holds the signature of
/// the body's hash under the wallet's secret key and the bits of the body,
/// the signature first for a wallet of a version before the fifth and last
/// for one of the fifth, and has the references of the body; it is built
/// like any cell, so it is at most one deeper than the deepest of them. It
/// fails where the secret key is not sixty-four bytes long, and succeeds
/// where the key is, the signature and the body fit one cell, and the body
/// is a sound tree; the signed cell is then a sound tree as deep as the body.
#[verifier::external_body]
pub(crate) fn sign_body(wallet: &TonWallet, body: &Cell) -> (r: Result<Cell, TonCellError>)
    requires
        can_be_children(cell_refs(*body)),
    ensures
        r is Ok ==> wallet.key_pair.secret_key@.len() == 64,
        wallet.key_pair.secret_key@.len() == 64 && cell_bits(*body).len() + 512 <= MAX_CELL_BITS
            && is_sound(*body) ==> r is Ok,
        r matches Ok(signed) ==> {
            let signature = ed25519_signature(cell_hash(*body), wallet.key_pair.secret_key@);
            &&& signature.len() == 64
            &&& cell_bits(signed) == signed_bits(wallet.version, signature, cell_bits(*body))
            &&& cell_refs(signed) == cell_refs(*body)
            &&& cell_depth(signed) <= depth_over(cell_refs(*body))
            &&& is_sound(*body) ==> is_sound(signed) && cell_depth(signed) == cell_depth(*body)
        },
{
    wallet.sign_external_body(body)
}

/// `TonWallet::wrap_signed_body`: the external message to the wallet's own
/// address that carries the signed body, with or without the wallet's
/// initial state. The signed body is copied and the copy referred to, or
/// its bits and references are taken into the message itself. The message
/// is a sound tree where the signed body is one. For a wallet of version
/// V4R2 it succeeds where the public key is thirty-two bytes long and the
/// signed body is a sound tree with two references at most; the message is
/// then one deeper than the signed body at most, or as deep as the wallet's
/// initial state makes it. With the initial state it fails for a public key
/// of any other length.
#[verifier::external_body]
pub(crate) fn wrap_signed(wallet: &TonWallet, signed: Cell, add_state_init: bool) -> (r: Result<
    Cell,
    TonMessageError,
>)
    requires
        can_be_child(signed),
        can_be_children(cell_refs(signed)),
    ensures
        wallet.version is V4R2 && wallet.key_pair.public_key@.len() == 32 && is_sound(signed)
            && cell_refs(signed).len() <= 2 ==> r is Ok,
        add_state_init && wallet.key_pair.public_key@.len() != 32 ==> r is Err,
        r matches Ok(message) ==> {
            &&& (cell_bits(message), cell_refs(message)) == wrapped_parts(
                *wallet,
                signed,
                add_state_init,
            )
            &&& carries_body(message, signed)
            &&& is_sound(signed) ==> is_sound(message)
            &&& wallet.version is V4R2 && is_sound(signed) ==> cell_depth(message) <= cell_depth(
                signed,
            ) + 1 || cell_depth(message) <= V4R2_STATE_DEPTH
        },
{
    wallet.wrap_signed_body(signed, add_state_init)
}

/// `BagOfCells::serialize` on the bag with the one root `root`, a sound
/// tree: the bytes that are sent to the ledger, which start with the four
/// bytes that mark a bag of cells. Cells with the same hash are written
/// once; the order of the others is not fixed. The writer has no sound tree
/// on which it fails. The tree is freed when it is written, along its depth.
#[verifier::external_body]
pub(crate) fn serialize_boc(root: Cell, with_crc: bool) -> (r: Result<Vec<u8>, TonCellError>)
    requires
        is_sound(root),
        cell_depth(root) <= MAX_CELL_DEPTH,
    ensures
        r is Ok,
        r matches Ok(bytes) ==> is_bag_of_cells(bytes@, root, with_crc) && starts_as_bag_of_cells(
            bytes@,
        ),
{
    BagOfCells::from_root(root).serialize(with_crc)
}

} // verus!
