//! The recipients of a spread and the cell that lists them.
//!
//! The list is a chain of cells. It starts from an empty cell; each entry adds
//! a cell that holds the entry and refers to the chain so far. The entry that
//! was added last is therefore at the root, and a reader that walks the chain
//! from the root meets the entries in the reverse of the order in which they
//! were given.

use crate::bits::{
    be_bits, fits, lemma_be_bits_len, lemma_machine_widths, lemma_pow2_add, lemma_read_appended,
    pow2, read_uint,
};
use crate::cell::{
    address_view, build_cell, byte_len, cell_bits, cell_depth, cell_refs, coins_bits, is_sound,
    lemma_depth_over_one, new_builder, store_address, store_coins, store_reference,
    };
use crate::messages::{lemma_address_bits_len, lemma_coins_bits_len, EncodingError};
use tonlib_core::cell::Cell;
use tonlib_core::TonAddress;
use vstd::prelude::*;

verus! {

/// One recipient: an account and an amount in the smallest unit of the currency.
pub struct SpreadWallet {
    pub account: TonAddress,
    pub amount: u64,
}

/// The most entries that a chain can hold: each entry makes it one deeper,
/// and it may be as deep as a tree of cells may be. A chain that is to be
/// sent must be shorter by four, since the message that refers to it and
/// the three cells that wrap the message add to its depth.
pub const MAX_SPREAD_ENTRIES: usize = 1024;

/// The bits of one entry: the account, then the amount as coins.
pub open spec fn entry_bits(entry: SpreadWallet) -> Seq<bool> {
    address_view(entry.account) + coins_bits(entry.amount as nat)
}

/// Whether `cell` is the chain that lists `entries`: the cell of the last
/// entry, with one reference, to the chain of the entries before it; for no
/// entries, an empty cell.
pub open spec fn is_entry_chain(cell: Cell, entries: Seq<SpreadWallet>) -> bool
    decreases entries.len(),
{
    if entries.len() == 0 {
        cell_bits(cell) == Seq::<bool>::empty() && cell_refs(cell) == Seq::<Cell>::empty()
    } else {
        &&& cell_bits(cell) == entry_bits(entries.last())
        &&& cell_refs(cell).len() == 1
        &&& is_entry_chain(cell_refs(cell)[0], entries.drop_last())
    }
}

/// The sum of the amounts of `entries`.
pub open spec fn total_amount(entries: Seq<SpreadWallet>) -> nat
    decreases entries.len(),
{
    if entries.len() == 0 {
        0
    } else {
        total_amount(entries.drop_last()) + entries.last().amount as nat
    }
}

/// The amount that the cell of one entry holds: the coins that follow the
/// account, which takes 267 bits where its first bit is set and two where it
/// is not.
pub open spec fn decoded_amount(bits: Seq<bool>) -> nat {
    let start: int = if bits[0] {
        267
    } else {
        2
    };
    read_uint(bits, start + 4, 8 * (read_uint(bits, start, 4) as int))
}

/// The amounts that a chain of `len` entries holds, read from the bits of
/// its cells along the references.
pub open spec fn chain_amount(cell: Cell, len: nat) -> nat
    decreases len,
{
    if len == 0 {
        0
    } else {
        chain_amount(cell_refs(cell)[0], (len - 1) as nat) + decoded_amount(cell_bits(cell))
    }
}

/// An amount fits the bytes that are counted for it.
pub proof fn lemma_fits_own_bytes(value: nat)
    ensures
        fits(value, 8 * byte_len(value)),
    decreases value,
{
    if value > 0 {
        let rest = byte_len(value / 256);
        lemma_fits_own_bytes(value / 256);
        lemma_pow2_add(8 * rest, 8);
        lemma_machine_widths();
        assert(value < pow2(8 * rest) * 256) by (nonlinear_arith)
            requires
                value / 256 < pow2(8 * rest),
        ;
    }
}

/// The amount of an entry is read back from the entry's bits.
pub proof fn lemma_entry_amount_decodes(entry: SpreadWallet)
    ensures
        decoded_amount(entry_bits(entry)) == entry.amount,
{
    let account = address_view(entry.account);
    let amount = entry.amount as nat;
    let count = byte_len(amount);
    let bits = entry_bits(entry);
    lemma_address_bits_len(entry.account);
    lemma_coins_bits_len(entry.amount);
    lemma_fits_own_bytes(amount);
    lemma_be_bits_len(count, 4);
    lemma_be_bits_len(amount, 8 * count);
    reveal_with_fuel(pow2, 5);
    assert(fits(count, 4));
    assert(bits[0] == account[0]);
    let start: int = if bits[0] {
        267
    } else {
        2
    };
    assert(start == account.len());
    assert(bits =~= account + be_bits(count, 4) + be_bits(amount, 8 * count));
    lemma_read_appended(account, count, 4, be_bits(amount, 8 * count));
    assert(bits =~= (account + be_bits(count, 4)) + be_bits(amount, 8 * count) + Seq::<
        bool,
    >::empty());
    lemma_read_appended(
        account + be_bits(count, 4),
        amount,
        8 * count,
        Seq::<bool>::empty(),
    );
}

/// The sum over the first entries is at most the sum over all of them.
pub proof fn lemma_total_amount_grows(entries: Seq<SpreadWallet>, count: int)
    requires
        0 <= count <= entries.len(),
    ensures
        total_amount(entries.take(count)) <= total_amount(entries),
    decreases entries.len() - count,
{
    if count == entries.len() {
        assert(entries.take(count) =~= entries);
    } else {
        lemma_total_amount_grows(entries, count + 1);
        assert(entries.take(count + 1).drop_last() =~= entries.take(count));
    }
}

/// The sum of the amounts of `entries`, or `None` where it does not fit 64 bits.
pub fn spread_total(entries: &Vec<SpreadWallet>) -> (total: Option<u64>)
    ensures
        match total {
            Some(sum) => sum == total_amount(entries@),
            None => total_amount(entries@) > u64::MAX,
        },
{
    let mut sum: u64 = 0;
    let mut i: usize = 0;
    while i < entries.len()
        invariant
            i <= entries.len(),
            sum == total_amount(entries@.take(i as int)),
        decreases entries.len() - i,
    {
        proof {
            assert(entries@.take(i + 1).drop_last() =~= entries@.take(i as int));
            lemma_total_amount_grows(entries@, i + 1);
        }
        match sum.checked_add(entries[i].amount) {
            Some(next) => {
                sum = next;
            },
            None => {
                return None;
            },
        }
        i = i + 1;
    }
    proof {
        assert(entries@.take(i as int) =~= entries@);
    }
    Some(sum)
}

/// The chain that lists `entries`, a sound tree as deep as there are
/// entries, or `CapacityExceeded` where there are more of them than a chain
/// can hold.
pub fn build_spread_payload(entries: &Vec<SpreadWallet>) -> (r: Result<Cell, EncodingError>)
    ensures
        r.is_ok() <==> entries.len() <= MAX_SPREAD_ENTRIES,
        r matches Ok(cell) ==> is_entry_chain(cell, entries@) && cell_depth(cell)
            == entries.len() && is_sound(cell),
        r matches Err(e) ==> e == EncodingError::CapacityExceeded,
{
    if entries.len() > MAX_SPREAD_ENTRIES {
        return Err(EncodingError::CapacityExceeded);
    }
    let mut payload = build_cell(new_builder()).unwrap();
    let mut i: usize = 0;
    proof {
        assert(entries@.take(0) =~= Seq::<SpreadWallet>::empty());
    }
    while i < entries.len()
        invariant
            i <= entries.len() <= MAX_SPREAD_ENTRIES,
            is_entry_chain(payload, entries@.take(i as int)),
            cell_depth(payload) == i,
            is_sound(payload),
        decreases entries.len() - i,
    {
        let previous = payload;
        let mut builder = new_builder();
        store_reference(&mut builder, previous).unwrap();
        store_address(&mut builder, &entries[i].account).unwrap();
        store_coins(&mut builder, entries[i].amount).unwrap();
        proof {
            lemma_address_bits_len(entries[i as int].account);
            lemma_coins_bits_len(entries[i as int].amount);
            lemma_depth_over_one(previous);
            assert(Seq::<Cell>::empty().push(previous) =~= seq![previous]);
            assert(Seq::<bool>::empty() + address_view(entries[i as int].account) + coins_bits(
                entries[i as int].amount as nat,
            ) =~= entry_bits(entries[i as int]));
            assert(entries@.take(i + 1).drop_last() =~= entries@.take(i as int));
            assert(entries@.take(i + 1).last() == entries[i as int]);
        }
        payload = build_cell(builder).unwrap();
        i = i + 1;
    }
    proof {
        assert(entries@.take(i as int) =~= entries@);
    }
    Ok(payload)
}

/// The amounts that are read from the chain of `entries` add up to the sum
/// of the entries' amounts.
pub proof fn chain_holds_total(cell: Cell, entries: Seq<SpreadWallet>)
    requires
        is_entry_chain(cell, entries),
    ensures
        chain_amount(cell, entries.len()) == total_amount(entries),
    decreases entries.len(),
{
    if entries.len() > 0 {
        chain_holds_total(cell_refs(cell)[0], entries.drop_last());
        lemma_entry_amount_decodes(entries.last());
    }
}

} // verus!
