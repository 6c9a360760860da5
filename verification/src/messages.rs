//! The payload of each operation on the mixer contract, as a cell.

use crate::bits::{
    be_bits, lemma_be_bits_len, lemma_machine_widths, lemma_read_appended, pow2, read_uint,
};
use crate::cell::{
    address_view, build_cell, byte_len, can_be_child, cell_bits, cell_depth, cell_refs, coins_bits,
    deepest_level, is_sound, lemma_depth_over_one, new_builder, store_address, store_bit,
    store_coins, store_reference, store_u32, store_u64, store_u8, MAX_CELL_DEPTH,
};
use crate::opcode::{opcode_of, MixerOpcodes, OP_COLLECT, OP_FORK, OP_SPREAD};
use tonlib_core::cell::{Cell, TonCellError};
use tonlib_core::TonAddress;
use vstd::prelude::*;

verus! {

/// Why a payload could not be encoded.
#[derive(Debug, Clone, Copy, PartialEq, Eq, Structural)]
pub enum EncodingError {
    /// The collect mode is none of 0, 1, 2 and 3.
    InvalidMode,
    /// The collect mode is 3 and the jetton wallet or the amount is absent.
    MissingJettonFields,
    /// The payload is nested deeper than a tree of cells may be, or no cell
    /// can be built on it.
    CapacityExceeded,
}

impl EncodingError {
    /// The words that describe the error.
    pub fn message(&self) -> (text: &'static str)
        ensures
            text == match *self {
                EncodingError::InvalidMode => "Invalid collect mode",
                EncodingError::MissingJettonFields =>
                    "Jetton wallet and amount are required for mode 3",
                EncodingError::CapacityExceeded => "Payload exceeds the capacity of a cell",
            },
    {
        match self {
            EncodingError::InvalidMode => "Invalid collect mode",
            EncodingError::MissingJettonFields =>
                "Jetton wallet and amount are required for mode 3",
            EncodingError::CapacityExceeded => "Payload exceeds the capacity of a cell",
        }
    }
}

/// The first two fields of every payload: the operation's identifier in 32
/// bits and the time of the request in 64.
pub open spec fn header_bits(name: &str, timestamp: u64) -> Seq<bool> {
    be_bits(opcode_of(name) as nat, 32) + be_bits(timestamp as nat, 64)
}

/// An amount of up to 64 bits takes at most eight bytes.
pub proof fn lemma_byte_len_bound(value: nat, bytes: nat)
    requires
        value < pow2(8 * bytes),
    ensures
        byte_len(value) <= bytes,
    decreases bytes,
{
    if value > 0 {
        if bytes == 0 {
            assert(pow2(0) == 1);
        } else {
            crate::bits::lemma_pow2_add((8 * (bytes - 1)) as nat, 8);
            lemma_machine_widths();
            assert(pow2(8 * bytes) == pow2((8 * (bytes - 1)) as nat) * 256);
            assert(value / 256 < pow2((8 * (bytes - 1)) as nat)) by (nonlinear_arith)
                requires
                    value < pow2((8 * (bytes - 1)) as nat) * 256,
            ;
            lemma_byte_len_bound(value / 256, (bytes - 1) as nat);
        }
    }
}

/// An amount of coins takes at most 68 bits.
pub proof fn lemma_coins_bits_len(amount: u64)
    ensures
        coins_bits(amount as nat).len() == 4 + 8 * byte_len(amount as nat),
        coins_bits(amount as nat).len() <= 68,
{
    lemma_machine_widths();
    lemma_byte_len_bound(amount as nat, 8);
    lemma_be_bits_len(byte_len(amount as nat), 4);
    lemma_be_bits_len(amount as nat, 8 * byte_len(amount as nat));
}

/// An address takes two bits or 267.
pub proof fn lemma_address_bits_len(address: TonAddress)
    ensures
        address_view(address).len() == 2 || address_view(address).len() == 267,
{
    lemma_be_bits_len((address.workchain as int % 256) as nat, 8);
}

/// The payload that resets the contract's state.
#[derive(Clone)]
pub struct ForkMessage {
    pub timestamp: u64,
}

impl ForkMessage {
    /// A fork request made at `timestamp`.
    pub fn new(timestamp: u64) -> (message: Self)
        ensures
            message.timestamp == timestamp,
    {
        ForkMessage { timestamp }
    }

    /// The bits of the payload: the identifier of the fork operation, then the time.
    pub open spec fn layout(&self) -> Seq<bool> {
        header_bits(OP_FORK, self.timestamp)
    }

    /// The payload as a cell: 96 bits and no reference.
    pub fn build(&self) -> (cell: Cell)
        ensures
            cell_bits(cell) == self.layout(),
            cell_refs(cell) == Seq::<Cell>::empty(),
            cell_depth(cell) == 0,
            is_sound(cell),
    {
        proof {
            lemma_machine_widths();
            lemma_be_bits_len(opcode_of(OP_FORK) as nat, 32);
            lemma_be_bits_len(self.timestamp as nat, 64);
        }
        let mut builder = new_builder();
        store_u32(&mut builder, 32, MixerOpcodes::new().fork).unwrap();
        store_u64(&mut builder, 64, self.timestamp).unwrap();
        build_cell(builder).unwrap()
    }
}

/// Reading a fork payload gives back what it was made from: the first 32
/// bits are the identifier of the fork operation and the next 64 the time.
pub proof fn fork_round_trip(message: ForkMessage)
    ensures
        message.layout().len() == 96,
        read_uint(message.layout(), 0, 32) == opcode_of(OP_FORK),
        read_uint(message.layout(), 32, 64) == message.timestamp,
{
    lemma_machine_widths();
    let code = opcode_of(OP_FORK) as nat;
    let time = message.timestamp as nat;
    lemma_be_bits_len(code, 32);
    lemma_be_bits_len(time, 64);
    assert(message.layout() =~= Seq::<bool>::empty() + be_bits(code, 32) + be_bits(time, 64));
    lemma_read_appended(Seq::<bool>::empty(), code, 32, be_bits(time, 64));
    assert(message.layout() =~= be_bits(code, 32) + be_bits(time, 64) + Seq::<bool>::empty());
    lemma_read_appended(be_bits(code, 32), time, 64, Seq::<bool>::empty());
}

/// The payload that splits funds among the recipients listed in `data`.
#[derive(Clone)]
pub struct SpreadMessage {
    pub mode: u8,
    pub timestamp: u64,
    pub amount: u64,
    pub data: Cell,
}

impl SpreadMessage {
    /// A spread request made at `timestamp` for `amount` in all, with the
    /// recipients in `data`.
    pub fn new(mode: u8, timestamp: u64, amount: u64, data: Cell) -> (message: Self)
        ensures
            message.mode == mode,
            message.timestamp == timestamp,
            message.amount == amount,
            message.data == data,
    {
        SpreadMessage { mode, timestamp, amount, data }
    }

    /// The bits of the payload: the identifier of the spread operation, the
    /// time, the total amount in 64 bits, the mode in 8, and a set bit that
    /// announces the reference to the recipients.
    pub open spec fn layout(&self) -> Seq<bool> {
        header_bits(OP_SPREAD, self.timestamp) + be_bits(self.amount as nat, 64) + be_bits(
            self.mode as nat,
            8,
        ) + seq![true]
    }

    /// The payload as a cell: 169 bits and one reference, to the recipients.
    /// It is a sound tree, one deeper than the recipients.
    pub fn build(&self) -> (cell: Cell)
        requires
            can_be_child(self.data),
            is_sound(self.data),
        ensures
            cell_bits(cell) == self.layout(),
            cell_refs(cell) == seq![self.data],
            cell_depth(cell) == cell_depth(self.data) + 1,
            is_sound(cell),
    {
        self.assemble().unwrap()
    }

    /// The payload as a cell, or `CapacityExceeded` where no cell can refer
    /// to the recipients. For recipients that are a sound tree it is refused
    /// just where they are nested as deep as a tree of cells may be.
    pub fn try_build(&self) -> (r: Result<Cell, EncodingError>)
        ensures
            !can_be_child(self.data) ==> r is Err,
            can_be_child(self.data) && is_sound(self.data) ==> r is Ok,
            r matches Ok(cell) ==> {
                &&& cell_bits(cell) == self.layout()
                &&& cell_refs(cell) == seq![self.data]
                &&& cell_depth(cell) <= cell_depth(self.data) + 1
                &&& is_sound(self.data) ==> is_sound(cell) && cell_depth(cell) == cell_depth(
                    self.data,
                ) + 1
            },
            r matches Err(e) ==> e == EncodingError::CapacityExceeded,
    {
        if deepest_level(&self.data) < MAX_CELL_DEPTH {
            match self.assemble() {
                Ok(cell) => Ok(cell),
                Err(_) => Err(EncodingError::CapacityExceeded),
            }
        } else {
            Err(EncodingError::CapacityExceeded)
        }
    }

    /// The fields stored one after the other, and the cell built from them.
    fn assemble(&self) -> (r: Result<Cell, TonCellError>)
        requires
            can_be_child(self.data),
        ensures
            is_sound(self.data) ==> r is Ok,
            r matches Ok(cell) ==> {
                &&& cell_bits(cell) == self.layout()
                &&& cell_refs(cell) == seq![self.data]
                &&& cell_depth(cell) <= cell_depth(self.data) + 1
                &&& is_sound(self.data) ==> is_sound(cell) && cell_depth(cell) == cell_depth(
                    self.data,
                ) + 1
            },
    {
        proof {
            lemma_machine_widths();
            lemma_be_bits_len(opcode_of(OP_SPREAD) as nat, 32);
            lemma_be_bits_len(self.timestamp as nat, 64);
            lemma_be_bits_len(self.amount as nat, 64);
            lemma_be_bits_len(self.mode as nat, 8);
        }
        let mut builder = new_builder();
        store_u32(&mut builder, 32, MixerOpcodes::new().spread).unwrap();
        store_u64(&mut builder, 64, self.timestamp).unwrap();
        store_u64(&mut builder, 64, self.amount).unwrap();
        store_u8(&mut builder, 8, self.mode).unwrap();
        store_bit(&mut builder, true).unwrap();
        store_reference(&mut builder, self.data.clone()).unwrap();
        proof {
            lemma_depth_over_one(self.data);
            assert(Seq::<Cell>::empty().push(self.data) =~= seq![self.data]);
        }
        build_cell(builder)
    }
}

/// The payload that reclaims funds under one of four modes.
#[derive(Clone)]
pub struct CollectMessage {
    pub mode: u8,
    pub timestamp: u64,
    pub jetton_wallet: Option<TonAddress>,
    pub amount: Option<u64>,
}

impl CollectMessage {
    /// A collect request made at `timestamp`.
    pub fn new(
        mode: u8,
        timestamp: u64,
        jetton_wallet: Option<TonAddress>,
        amount: Option<u64>,
    ) -> (message: Self)
        ensures
            message.mode == mode,
            message.timestamp == timestamp,
            message.jetton_wallet == jetton_wallet,
            message.amount == amount,
    {
        CollectMessage { mode, timestamp, jetton_wallet, amount }
    }

    /// The fields that every collect payload starts with: the identifier of
    /// the collect operation, the time, and the mode in 8 bits.
    pub open spec fn prefix(&self) -> Seq<bool> {
        header_bits(OP_COLLECT, self.timestamp) + be_bits(self.mode as nat, 8)
    }

    /// What `build` returns: for the modes 0, 1 and 2 the prefix alone,
    /// whatever the other fields hold; for mode 3 the prefix, the jetton
    /// wallet and the amount, provided both are there.
    pub open spec fn layout(&self) -> Result<Seq<bool>, EncodingError> {
        if self.mode <= 2 {
            Ok(self.prefix())
        } else if self.mode == 3 {
            match (self.jetton_wallet, self.amount) {
                (Some(wallet), Some(amount)) => Ok(
                    self.prefix() + address_view(wallet) + coins_bits(amount as nat),
                ),
                _ => Err(EncodingError::MissingJettonFields),
            }
        } else {
            Err(EncodingError::InvalidMode)
        }
    }

    /// The payload as a cell without references, or the reason why the
    /// request cannot be encoded.
    pub fn build(&self) -> (r: Result<Cell, EncodingError>)
        ensures
            match r {
                Ok(cell) => self.layout() == Ok::<Seq<bool>, EncodingError>(cell_bits(cell))
                    && cell_refs(cell) == Seq::<Cell>::empty() && cell_depth(cell) == 0
                    && is_sound(cell),
                Err(e) => self.layout() == Err::<Seq<bool>, EncodingError>(e),
            },
    {
        proof {
            lemma_machine_widths();
            lemma_be_bits_len(opcode_of(OP_COLLECT) as nat, 32);
            lemma_be_bits_len(self.timestamp as nat, 64);
            lemma_be_bits_len(self.mode as nat, 8);
        }
        let mut builder = new_builder();
        store_u32(&mut builder, 32, MixerOpcodes::new().collect).unwrap();
        store_u64(&mut builder, 64, self.timestamp).unwrap();
        store_u8(&mut builder, 8, self.mode).unwrap();
        if self.mode <= 2 {
        } else if self.mode == 3 {
            match (&self.jetton_wallet, &self.amount) {
                (Some(wallet), Some(amount)) => {
                    proof {
                        lemma_address_bits_len(*wallet);
                        lemma_coins_bits_len(*amount);
                    }
                    store_address(&mut builder, wallet).unwrap();
                    store_coins(&mut builder, *amount).unwrap();
                },
                _ => {
                    return Err(EncodingError::MissingJettonFields);
                },
            }
        } else {
            return Err(EncodingError::InvalidMode);
        }
        Ok(build_cell(builder).unwrap())
    }
}

/// A collect of mode 0, 1 or 2 is encoded whatever else it holds, as the
/// 104 bits of the prefix: neither the jetton wallet nor the amount is in it.
pub proof fn collect_without_jetton_fields(message: CollectMessage)
    requires
        message.mode <= 2,
    ensures
        message.layout() == Ok::<Seq<bool>, EncodingError>(message.prefix()),
        message.prefix().len() == 104,
{
    lemma_be_bits_len(opcode_of(OP_COLLECT) as nat, 32);
    lemma_be_bits_len(message.timestamp as nat, 64);
    lemma_be_bits_len(message.mode as nat, 8);
}

/// A collect of mode 3 with both fields is encoded, and the jetton wallet
/// and then the amount follow the mode at once: the wallet starts at bit 104
/// and the amount where the wallet ends.
pub proof fn collect_with_jetton_fields(message: CollectMessage, wallet: TonAddress, amount: u64)
    requires
        message.mode == 3,
        message.jetton_wallet == Some(wallet),
        message.amount == Some(amount),
    ensures
        message.layout() matches Ok(bits) && {
            let after_wallet = 104 + address_view(wallet).len();
            &&& bits.subrange(0, 104) == message.prefix()
            &&& bits.subrange(104, after_wallet as int) == address_view(wallet)
            &&& bits.subrange(after_wallet as int, bits.len() as int) == coins_bits(amount as nat)
        },
{
    lemma_be_bits_len(opcode_of(OP_COLLECT) as nat, 32);
    lemma_be_bits_len(message.timestamp as nat, 64);
    lemma_be_bits_len(message.mode as nat, 8);
    let bits = message.prefix() + address_view(wallet) + coins_bits(amount as nat);
    let after_wallet = 104 + address_view(wallet).len();
    assert(bits.subrange(0, 104) =~= message.prefix());
    assert(bits.subrange(104, after_wallet as int) =~= address_view(wallet));
    assert(bits.subrange(after_wallet as int, bits.len() as int) =~= coins_bits(amount as nat));
}

/// A collect of mode 3 that lacks the jetton wallet or the amount is refused.
pub proof fn collect_missing_jetton_fields(message: CollectMessage)
    requires
        message.mode == 3,
        message.jetton_wallet is None || message.amount is None,
    ensures
        message.layout() == Err::<Seq<bool>, EncodingError>(EncodingError::MissingJettonFields),
{
}

/// A collect of any mode but 0, 1, 2 and 3 is refused.
pub proof fn collect_invalid_mode(message: CollectMessage)
    requires
        message.mode > 3,
    ensures
        message.layout() == Err::<Seq<bool>, EncodingError>(EncodingError::InvalidMode),
{
}

} // verus!
