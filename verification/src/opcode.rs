//! Operation identifiers: the CRC-32 checksum of an operation's name.

use vstd::prelude::*;
use vstd::string::StringSliceAdditionalSpecFns;

verus! {

/// The name of the operation that splits funds among many recipients.
pub const OP_SPREAD: &'static str = "op::spread";

/// The name of the operation that reclaims funds.
pub const OP_COLLECT: &'static str = "op::collect";

/// The name of the operation that resets the contract's state.
pub const OP_FORK: &'static str = "op::fork";

/// One step of the checksum: the register moves right by one bit, and takes
/// up the reversed polynomial where the bit that leaves it is set.
pub open spec fn crc_shift(register: u32) -> u32 {
    if register & 1 == 1 {
        (register >> 1) ^ 0xEDB8_8320
    } else {
        register >> 1
    }
}

/// `count` steps of the checksum.
pub open spec fn crc_shifts(register: u32, count: nat) -> u32
    decreases count,
{
    if count == 0 {
        register
    } else {
        crc_shifts(crc_shift(register), (count - 1) as nat)
    }
}

/// The register after a byte string: it starts with all bits set, and each
/// byte is taken into its low bits and followed by eight steps.
pub open spec fn crc_register(bytes: Seq<u8>) -> u32
    decreases bytes.len(),
{
    if bytes.len() == 0 {
        0xFFFF_FFFF
    } else {
        crc_shifts(crc_register(bytes.drop_last()) ^ (bytes.last() as u32), 8)
    }
}

/// The CRC-32 checksum (IEEE) of a byte string: the register after it, with
/// every bit turned.
pub open spec fn crc32_ieee(bytes: Seq<u8>) -> u32 {
    crc_register(bytes) ^ 0xFFFF_FFFF
}

/// The checksum of no bytes is zero.
pub proof fn crc32_of_nothing()
    ensures
        crc32_ieee(Seq::<u8>::empty()) == 0,
{
    assert(0xFFFF_FFFFu32 ^ 0xFFFF_FFFF == 0) by (bit_vector);
}

/// The identifier of the operation called `name`.
pub open spec fn opcode_of(name: &str) -> u32 {
    crc32_ieee(name.spec_bytes())
}

/// `crc32fast::hash`: the CRC-32 checksum (IEEE) of `bytes`, the one with
/// the reversed polynomial `0xEDB88320`, all bits set at the start and
/// turned at the end.
#[verifier::external_body]
fn crc32(bytes: &[u8]) -> (sum: u32)
    ensures
        sum == crc32_ieee(bytes@),
{
    crc32fast::hash(bytes)
}

/// The identifier of the operation called `method_name`. It depends on the
/// name alone.
pub fn generate_opcode(method_name: &str) -> (code: u32)
    ensures
        code == opcode_of(method_name),
{
    crc32(method_name.as_bytes())
}

/// Two names with the same bytes have the same identifier, at every call.
pub proof fn opcode_is_stable(first: &str, second: &str)
    requires
        first.spec_bytes() == second.spec_bytes(),
    ensures
        opcode_of(first) == opcode_of(second),
{
}

/// The identifiers of the three operations.
pub struct MixerOpcodes {
    pub spread: u32,
    pub collect: u32,
    pub fork: u32,
}

impl MixerOpcodes {
    /// The identifiers of the three well-known operation names.
    pub fn new() -> (codes: MixerOpcodes)
        ensures
            codes.spread == opcode_of(OP_SPREAD),
            codes.collect == opcode_of(OP_COLLECT),
            codes.fork == opcode_of(OP_FORK),
    {
        MixerOpcodes {
            spread: generate_opcode(OP_SPREAD),
            collect: generate_opcode(OP_COLLECT),
            fork: generate_opcode(OP_FORK),
        }
    }
}

} // verus!
