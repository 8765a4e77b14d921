//! Deriving the winning ticket from a revealed 32-byte random value: the
//! first eight bytes are read as a little-endian integer and reduced modulo
//! the number of tickets sold.

use vstd::prelude::*;

verus! {

/// The little-endian integer held by the first eight bytes of `b`.
pub open spec fn le_u64_of(b: Seq<u8>) -> int
    recommends
        b.len() >= 8,
{
    b[0] + b[1] * 0x100 + b[2] * 0x1_0000 + b[3] * 0x100_0000 + b[4] * 0x1_0000_0000 + b[5]
        * 0x100_0000_0000 + b[6] * 0x1_0000_0000_0000 + b[7] * 0x100_0000_0000_0000
}

/// Reads the first eight bytes of a revealed random value as a little-endian
/// unsigned integer.
pub fn u64_from_le_prefix(b: &[u8; 32]) -> (r: u64)
    ensures
        r == le_u64_of(b@),
{
    b[0] as u64 + (b[1] as u64) * 0x100 + (b[2] as u64) * 0x1_0000 + (b[3] as u64) * 0x100_0000 + (
    b[4] as u64) * 0x1_0000_0000 + (b[5] as u64) * 0x100_0000_0000 + (b[6] as u64)
        * 0x1_0000_0000_0000 + (b[7] as u64) * 0x100_0000_0000_0000
}

/// The winning ticket index a revealed value selects among `total` tickets.
pub open spec fn spec_winning_index(value: [u8; 32], total: u32) -> int
    recommends
        total > 0,
{
    le_u64_of(value@) % (total as int)
}

/// Derives the winning ticket index from a revealed random value: the seed's
/// little-endian prefix reduced modulo the ticket count. The result always
/// names a ticket that was sold.
pub fn winning_index(value: &[u8; 32], total: u32) -> (r: u32)
    requires
        total > 0,
    ensures
        r == spec_winning_index(*value, total),
        r < total,
{
    let seed: u64 = u64_from_le_prefix(value);
    (seed % (total as u64)) as u32
}

} // verus!
