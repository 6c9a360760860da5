//! Cells of the ledger's binary format. The cells themselves are built by
//! `tonlib_core`; this module says what each call to its builder does to the
//! bits and references gathered so far.

use crate::bits::{be_bits, fits};
use std::sync::Arc;
use tonlib_core::cell::{Cell, CellBuilder, TonCellError};
use tonlib_core::{TonAddress, TonHash};
use vstd::prelude::*;

verus! {

/// `tonlib_core`'s cell. What it holds is spoken of through `cell_bits`,
/// `cell_refs`, `cell_depth_at` and `is_sound`.
#[verifier::external_type_specification]
#[verifier::external_body]
pub struct ExCell(Cell);

/// `tonlib_core`'s builder of cells. What it holds is spoken of through
/// `builder_bits`, `builder_refs` and `builder_is_ordinary`.
#[verifier::external_type_specification]
#[verifier::external_body]
pub struct ExCellBuilder(CellBuilder);

/// `tonlib_core`'s error for a cell, carried through as it is.
#[verifier::external_type_specification]
#[verifier::external_body]
pub struct ExTonCellError(TonCellError);

/// `tonlib_core`'s hash of thirty-two bytes, spoken of through `hash_bytes`.
#[verifier::external_type_specification]
#[verifier::external_body]
pub struct ExTonHash(TonHash);

/// `tonlib_core`'s address: a workchain and a hash.
#[verifier::external_type_specification]
pub struct ExTonAddress(TonAddress);

/// The most bits that one cell holds.
pub const MAX_CELL_BITS: usize = 1023;

/// The most references that one cell holds.
pub const MAX_CELL_REFS: usize = 4;

/// The deepest that a tree of cells may be: the ledger takes none that is
/// deeper. A cell records its depth in sixteen bits, which this fits, and a
/// tree is walked and freed along its depth, which this keeps short.
pub const MAX_CELL_DEPTH: u16 = 1024;

/// The bits that a cell holds, in the order in which they were stored.
pub uninterp spec fn cell_bits(cell: Cell) -> Seq<bool>;

/// The cells that a cell refers to, in the order in which they were stored.
pub uninterp spec fn cell_refs(cell: Cell) -> Seq<Cell>;

/// The depth that a cell records for the given level (0 to 3).
pub uninterp spec fn cell_depth_at(cell: Cell, level: int) -> nat;

/// Whether a tree of cells is sound: each of its cells, the root included,
/// is ordinary and holds exactly the bytes that its bits take, with zeros
/// after its last bit. Such a tree is of level zero, and each of its cells is
/// one deeper than the deepest cell it refers to.
pub uninterp spec fn is_sound(cell: Cell) -> bool;

/// Whether a builder makes an ordinary cell: nothing marked it as exotic.
pub uninterp spec fn builder_is_ordinary(builder: CellBuilder) -> bool;

/// The bits stored in a builder so far.
pub uninterp spec fn builder_bits(builder: CellBuilder) -> Seq<bool>;

/// The references stored in a builder so far.
pub uninterp spec fn builder_refs(builder: CellBuilder) -> Seq<Cell>;

/// The thirty-two bytes of a hash.
pub uninterp spec fn hash_bytes(hash: TonHash) -> Seq<u8>;

/// The largest depth that a cell records for any of its levels.
pub open spec fn cell_depth(cell: Cell) -> nat {
    let a = cell_depth_at(cell, 0);
    let b = cell_depth_at(cell, 1);
    let c = cell_depth_at(cell, 2);
    let d = cell_depth_at(cell, 3);
    let ab = if a >= b { a } else { b };
    let cd = if c >= d { c } else { d };
    if ab >= cd { ab } else { cd }
}

/// Whether a cell can still be referred to by a new cell: the new cell is one
/// deeper, and may be as deep as a tree may be.
pub open spec fn can_be_child(cell: Cell) -> bool {
    cell_depth(cell) < MAX_CELL_DEPTH
}

/// Whether each of `refs` can be referred to by a new cell.
pub open spec fn can_be_children(refs: Seq<Cell>) -> bool {
    forall|i: int| 0 <= i < refs.len() ==> can_be_child(#[trigger] refs[i])
}

/// Whether each of `refs` is a sound tree of cells.
pub open spec fn all_sound(refs: Seq<Cell>) -> bool {
    forall|i: int| 0 <= i < refs.len() ==> is_sound(#[trigger] refs[i])
}

/// The depth of a cell with the given references: zero without any, else one
/// more than the deepest of them.
pub open spec fn depth_over(refs: Seq<Cell>) -> nat
    decreases refs.len(),
{
    if refs.len() == 0 {
        0
    } else {
        let rest = depth_over(refs.drop_last());
        let last = cell_depth(refs.last()) + 1;
        if rest >= last { rest } else { last }
    }
}

/// A cell with one reference is one deeper than the cell it refers to.
pub proof fn lemma_depth_over_one(cell: Cell)
    ensures
        depth_over(seq![cell]) == cell_depth(cell) + 1,
{
    let refs = seq![cell];
    assert(refs.drop_last() =~= Seq::<Cell>::empty());
    assert(depth_over(refs.drop_last()) == 0);
    assert(refs.last() == cell);
}

/// The 256 bits of a hash.
pub open spec fn hash_bits(hash: Seq<u8>) -> Seq<bool> {
    Seq::new(256, |i: int| be_bits(hash[i / 8] as nat, 8)[i % 8])
}

/// Whether an address is the null address: workchain zero and a hash of zeros.
pub open spec fn is_null_address(workchain: i32, hash: Seq<u8>) -> bool {
    workchain == 0 && forall|i: int| 0 <= i < 32 ==> hash[i] == 0
}

/// The bits of an address in a cell. The null address takes two zero bits. Any
/// other takes 267: the tag `10`, a zero bit for "no anycast", the low byte of
/// the workchain and the hash.
pub open spec fn address_bits(workchain: i32, hash: Seq<u8>) -> Seq<bool> {
    if is_null_address(workchain, hash) {
        seq![false, false]
    } else {
        seq![true, false, false] + be_bits((workchain as int % 256) as nat, 8) + hash_bits(hash)
    }
}

/// The bits of `address` in a cell.
pub open spec fn address_view(address: TonAddress) -> Seq<bool> {
    address_bits(address.workchain, hash_bytes(address.hash_part))
}

/// The number of bytes needed to write `value`: none for zero.
pub open spec fn byte_len(value: nat) -> nat
    decreases value,
{
    if value == 0 {
        0
    } else {
        1 + byte_len(value / 256)
    }
}

/// The bits of an amount of coins: the number of bytes in four bits, then
/// the amount in that many bytes.
pub open spec fn coins_bits(amount: nat) -> Seq<bool> {
    be_bits(byte_len(amount), 4) + be_bits(amount, 8 * byte_len(amount))
}

/// `Cell::clone`: a cell equal to the one it was made from.
pub assume_specification[ <Cell as Clone>::clone ](cell: &Cell) -> (copy: Cell)
    ensures
        copy == *cell,
;

/// `TonAddress::clone`: an address equal to the one it was made from.
pub assume_specification[ <TonAddress as Clone>::clone ](address: &TonAddress) -> (copy:
    TonAddress)
    ensures
        copy == *address,
;

/// `CellBuilder::new`: a builder that holds nothing yet and makes an
/// ordinary cell.
#[verifier::external_body]
pub(crate) fn new_builder() -> (builder: CellBuilder)
    ensures
        builder_bits(builder) == Seq::<bool>::empty(),
        builder_refs(builder) == Seq::<Cell>::empty(),
        builder_is_ordinary(builder),
{
    CellBuilder::new()
}

/// `CellBuilder::store_bit`: appends one bit. The builder takes any number
/// of bits; the limit is tested when the cell is built.
#[verifier::external_body]
pub(crate) fn store_bit(builder: &mut CellBuilder, val: bool) -> (r: Result<(), TonCellError>)
    ensures
        r.is_ok(),
        builder_bits(*final(builder)) == builder_bits(*old(builder)).push(val),
        builder_refs(*final(builder)) == builder_refs(*old(builder)),
        builder_is_ordinary(*final(builder)) == builder_is_ordinary(*old(builder)),
{
    builder.store_bit(val).map(|_| ())
}

/// `CellBuilder::store_u8`: appends the `bit_len` low bits of `val`, most
/// significant first, and fails, storing nothing, where `val` needs more bits.
#[verifier::external_body]
pub(crate) fn store_u8(builder: &mut CellBuilder, bit_len: usize, val: u8) -> (r: Result<
    (),
    TonCellError,
>)
    requires
        0 < bit_len <= 8,
    ensures
        r.is_ok() <==> fits(val as nat, bit_len as nat),
        r.is_ok() ==> builder_bits(*final(builder)) == builder_bits(*old(builder)) + be_bits(
            val as nat,
            bit_len as nat,
        ),
        r.is_err() ==> builder_bits(*final(builder)) == builder_bits(*old(builder)),
        builder_refs(*final(builder)) == builder_refs(*old(builder)),
        builder_is_ordinary(*final(builder)) == builder_is_ordinary(*old(builder)),
{
    builder.store_u8(bit_len, val).map(|_| ())
}

/// `CellBuilder::store_u32`: appends the `bit_len` low bits of `val`, most
/// significant first, and fails, storing nothing, where `val` needs more bits.
#[verifier::external_body]
pub(crate) fn store_u32(builder: &mut CellBuilder, bit_len: usize, val: u32) -> (r: Result<
    (),
    TonCellError,
>)
    requires
        0 < bit_len <= 32,
    ensures
        r.is_ok() <==> fits(val as nat, bit_len as nat),
        r.is_ok() ==> builder_bits(*final(builder)) == builder_bits(*old(builder)) + be_bits(
            val as nat,
            bit_len as nat,
        ),
        r.is_err() ==> builder_bits(*final(builder)) == builder_bits(*old(builder)),
        builder_refs(*final(builder)) == builder_refs(*old(builder)),
        builder_is_ordinary(*final(builder)) == builder_is_ordinary(*old(builder)),
{
    builder.store_u32(bit_len, val).map(|_| ())
}

/// `CellBuilder::store_u64`: appends the `bit_len` low bits of `val`, most
/// significant first, and fails, storing nothing, where `val` needs more bits.
#[verifier::external_body]
pub(crate) fn store_u64(builder: &mut CellBuilder, bit_len: usize, val: u64) -> (r: Result<
    (),
    TonCellError,
>)
    requires
        0 < bit_len <= 64,
    ensures
        r.is_ok() <==> fits(val as nat, bit_len as nat),
        r.is_ok() ==> builder_bits(*final(builder)) == builder_bits(*old(builder)) + be_bits(
            val as nat,
            bit_len as nat,
        ),
        r.is_err() ==> builder_bits(*final(builder)) == builder_bits(*old(builder)),
        builder_refs(*final(builder)) == builder_refs(*old(builder)),
        builder_is_ordinary(*final(builder)) == builder_is_ordinary(*old(builder)),
{
    builder.store_u64(bit_len, val).map(|_| ())
}

/// `CellBuilder::store_coins`, on an amount that fits 64 bits: appends the
/// number of bytes that the amount takes, in four bits, and then those bytes.
#[verifier::external_body]
pub(crate) fn store_coins(builder: &mut CellBuilder, amount: u64) -> (r: Result<(), TonCellError>)
    ensures
        r.is_ok(),
        builder_bits(*final(builder)) == builder_bits(*old(builder)) + coins_bits(amount as nat),
        builder_refs(*final(builder)) == builder_refs(*old(builder)),
        builder_is_ordinary(*final(builder)) == builder_is_ordinary(*old(builder)),
{
    builder.store_coins(&num_bigint::BigUint::from(amount)).map(|_| ())
}

/// `CellBuilder::store_address`: appends the address, the null address as
/// two zero bits and any other as a standard internal address without anycast.
#[verifier::external_body]
pub(crate) fn store_address(builder: &mut CellBuilder, address: &TonAddress) -> (r: Result<
    (),
    TonCellError,
>)
    ensures
        r.is_ok(),
        builder_bits(*final(builder)) == builder_bits(*old(builder)) + address_bits(
            address.workchain,
            hash_bytes(address.hash_part),
        ),
        builder_refs(*final(builder)) == builder_refs(*old(builder)),
        builder_is_ordinary(*final(builder)) == builder_is_ordinary(*old(builder)),
{
    builder.store_address(address).map(|_| ())
}

/// `CellBuilder::store_reference`: appends a reference to `cell`, and fails,
/// storing nothing, where the builder holds four references already.
#[verifier::external_body]
pub(crate) fn store_reference(builder: &mut CellBuilder, cell: Cell) -> (r: Result<
    (),
    TonCellError,
>)
    ensures
        r.is_ok() <==> builder_refs(*old(builder)).len() < MAX_CELL_REFS,
        r.is_ok() ==> builder_refs(*final(builder)) == builder_refs(*old(builder)).push(cell),
        r.is_err() ==> builder_refs(*final(builder)) == builder_refs(*old(builder)),
        builder_bits(*final(builder)) == builder_bits(*old(builder)),
        builder_is_ordinary(*final(builder)) == builder_is_ordinary(*old(builder)),
{
    builder.store_reference(&Arc::new(cell)).map(|_| ())
}

/// `CellBuilder::build`, on a builder that makes an ordinary cell: freezes
/// it into a cell with the same bits and references. It fails where the
/// builder holds more than 1023 bits, and succeeds where it holds no more and
/// every cell referred to is a sound tree; the new cell is then a sound tree
/// too, one deeper than the deepest cell it refers to. The new cell is in
/// any case at most one deeper than the deepest of them, so none of those
/// may be as deep as a tree may be.
#[verifier::external_body]
pub(crate) fn build_cell(builder: CellBuilder) -> (r: Result<Cell, TonCellError>)
    requires
        builder_is_ordinary(builder),
        can_be_children(builder_refs(builder)),
    ensures
        builder_bits(builder).len() > MAX_CELL_BITS ==> r is Err,
        builder_bits(builder).len() <= MAX_CELL_BITS && builder_refs(builder).len()
            <= MAX_CELL_REFS && all_sound(builder_refs(builder)) ==> r is Ok,
        r matches Ok(cell) ==> {
            &&& cell_bits(cell) == builder_bits(builder)
            &&& cell_refs(cell) == builder_refs(builder)
            &&& cell_depth(cell) <= depth_over(builder_refs(builder))
            &&& all_sound(builder_refs(builder)) ==> is_sound(cell) && cell_depth(cell)
                == depth_over(builder_refs(builder))
        },
{
    let mut builder = builder;
    builder.build()
}

/// `Cell::references`: the cells that a cell refers to, each one copied out
/// of its shared pointer. They are sound trees where the cell is one.
#[verifier::external_body]
pub(crate) fn child_cells(cell: &Cell) -> (children: Vec<Cell>)
    ensures
        children@ == cell_refs(*cell),
        is_sound(*cell) ==> all_sound(children@),
{
    cell.references().iter().map(|child| (**child).clone()).collect()
}

/// `Cell::get_depth`: the depth that the cell records for a level.
#[verifier::external_body]
pub(crate) fn depth_at(cell: &Cell, level: u8) -> (depth: u16)
    requires
        level <= 3,
    ensures
        depth == cell_depth_at(*cell, level as int),
{
    cell.get_depth(level)
}

/// The largest depth that `cell` records for any of its levels.
pub fn deepest_level(cell: &Cell) -> (depth: u16)
    ensures
        depth == cell_depth(*cell),
{
    let a = depth_at(cell, 0);
    let b = depth_at(cell, 1);
    let c = depth_at(cell, 2);
    let d = depth_at(cell, 3);
    let ab = if a >= b { a } else { b };
    let cd = if c >= d { c } else { d };
    if ab >= cd { ab } else { cd }
}

/// Whether each cell that `cell` refers to can be referred to by a new cell.
pub fn children_are_shallow(cell: &Cell) -> (shallow: bool)
    ensures
        shallow == can_be_children(cell_refs(*cell)),
{
    let children = child_cells(cell);
    let mut i: usize = 0;
    while i < children.len()
        invariant
            i <= children.len(),
            children@ == cell_refs(*cell),
            forall|j: int| 0 <= j < i ==> can_be_child(#[trigger] children[j]),
        decreases children.len() - i,
    {
        if deepest_level(&children[i]) >= MAX_CELL_DEPTH {
            return false;
        }
        i = i + 1;
    }
    true
}

} // verus!
