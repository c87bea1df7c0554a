//! Decoding of the BCS-encoded records that requests carry.

use vstd::prelude::*;

verus! {

/// The number that eight bytes stand for, least significant byte first.
pub open spec fn le_value(b: Seq<u8>) -> int
    recommends
        b.len() == 8,
{
    b[0] as int + 0x100 * b[1] as int + 0x1_0000 * b[2] as int + 0x100_0000 * b[3] as int
        + 0x1_0000_0000 * b[4] as int + 0x100_0000_0000 * b[5] as int + 0x1_0000_0000_0000
        * b[6] as int + 0x100_0000_0000_0000 * b[7] as int
}

/// What BCS decoding of a block-and-round record yields, as
/// (chain id, block height, round). The record is
/// `((chain_id: u64, height: u64, operations: Vec<Vec<u8>>), round: u64)`;
/// `None` where the bytes are not exactly one such record.
pub uninterp spec fn bcs_block_and_round(b: Seq<u8>) -> Option<(u64, u64, u64)>;

/// What BCS decoding of a certified value yields, as
/// (confirmed, chain id, block height). The record is
/// `(confirmed: bool, (chain_id: u64, height: u64, operations: Vec<Vec<u8>>))`;
/// `None` where the bytes are not exactly one such record.
pub uninterp spec fn bcs_certified_value(b: Seq<u8>) -> Option<(bool, u64, u64)>;

/// Relies on `bcs::from_bytes::<u64>`: a `u64` is read as eight little-endian
/// bytes, and decoding fails unless the input is exactly those eight bytes.
#[verifier::external_body]
pub(crate) fn decode_u64(bytes: &[u8]) -> (r: Option<u64>)
    ensures
        r is Some <==> bytes@.len() == 8,
        r matches Some(v) ==> v as int == le_value(bytes@),
{
    bcs::from_bytes::<u64>(bytes).ok()
}

/// Relies on `bcs::from_bytes` for the block-and-round record, whose result
/// depends on the bytes alone.
#[verifier::external_body]
pub(crate) fn decode_block_and_round(bytes: &[u8]) -> (r: Option<(u64, u64, u64)>)
    ensures
        r == bcs_block_and_round(bytes@),
{
    bcs::from_bytes::<((u64, u64, Vec<Vec<u8>>), u64)>(bytes).ok().map(
        |((chain, height, _operations), round)| (chain, height, round),
    )
}

/// Relies on `bcs::from_bytes` for the certified-value record, whose result
/// depends on the bytes alone.
#[verifier::external_body]
pub(crate) fn decode_certified_value(bytes: &[u8]) -> (r: Option<(bool, u64, u64)>)
    ensures
        r == bcs_certified_value(bytes@),
{
    bcs::from_bytes::<(bool, (u64, u64, Vec<Vec<u8>>))>(bytes).ok().map(
        |(confirmed, (chain, height, _operations))| (confirmed, chain, height),
    )
}

} // verus!
