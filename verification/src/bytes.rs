//! Numbers as bytes, in the two byte orders that the ledger uses.

use vstd::prelude::*;

verus! {

/// The eight bytes of `x`, most significant first.
pub open spec fn be_bytes(x: u64) -> Seq<u8> {
    seq![
        ((x / 0x100_0000_0000_0000) % 0x100) as u8,
        ((x / 0x1_0000_0000_0000) % 0x100) as u8,
        ((x / 0x100_0000_0000) % 0x100) as u8,
        ((x / 0x1_0000_0000) % 0x100) as u8,
        ((x / 0x100_0000) % 0x100) as u8,
        ((x / 0x1_0000) % 0x100) as u8,
        ((x / 0x100) % 0x100) as u8,
        (x % 0x100) as u8,
    ]
}

/// The number that eight bytes spell, most significant first.
pub open spec fn be_value(bytes: Seq<u8>) -> int {
    bytes[0] * 0x100_0000_0000_0000 + bytes[1] * 0x1_0000_0000_0000 + bytes[2] * 0x100_0000_0000
        + bytes[3] * 0x1_0000_0000 + bytes[4] * 0x100_0000 + bytes[5] * 0x1_0000 + bytes[6] * 0x100
        + bytes[7]
}

/// Reading the big-endian bytes of a number gives the number back, so two
/// numbers with the same bytes are the same number.
pub proof fn lemma_be_bytes_round_trip(x: u64)
    ensures
        be_bytes(x).len() == 8,
        be_value(be_bytes(x)) == x,
{
    let d1 = x / 0x100;
    let d2 = d1 / 0x100;
    let d3 = d2 / 0x100;
    let d4 = d3 / 0x100;
    let d5 = d4 / 0x100;
    let d6 = d5 / 0x100;
    let d7 = d6 / 0x100;
    assert(x / 0x1_0000 == d2);
    assert(x / 0x100_0000 == d3);
    assert(x / 0x1_0000_0000 == d4);
    assert(x / 0x100_0000_0000 == d5);
    assert(x / 0x1_0000_0000_0000 == d6);
    assert(x / 0x100_0000_0000_0000 == d7);
    assert(d7 < 0x100);
    let b = be_bytes(x);
    assert(b[7] == x % 0x100 && b[6] == d1 % 0x100 && b[5] == d2 % 0x100 && b[4] == d3 % 0x100);
    assert(b[3] == d4 % 0x100 && b[2] == d5 % 0x100 && b[1] == d6 % 0x100 && b[0] == d7);
}

/// The eight bytes of `x`, most significant first.
pub fn to_be_bytes(x: u64) -> (bytes: Vec<u8>)
    ensures
        bytes@ == be_bytes(x),
{
    let bytes = vec![
        ((x / 0x100_0000_0000_0000) % 0x100) as u8,
        ((x / 0x1_0000_0000_0000) % 0x100) as u8,
        ((x / 0x100_0000_0000) % 0x100) as u8,
        ((x / 0x1_0000_0000) % 0x100) as u8,
        ((x / 0x100_0000) % 0x100) as u8,
        ((x / 0x1_0000) % 0x100) as u8,
        ((x / 0x100) % 0x100) as u8,
        (x % 0x100) as u8,
    ];
    assert(bytes@ =~= be_bytes(x));
    bytes
}

/// The number that eight bytes spell, least significant first.
pub open spec fn le_value(bytes: Seq<u8>) -> int {
    bytes[0] + bytes[1] * 0x100 + bytes[2] * 0x1_0000 + bytes[3] * 0x100_0000 + bytes[4]
        * 0x1_0000_0000 + bytes[5] * 0x100_0000_0000 + bytes[6] * 0x1_0000_0000_0000 + bytes[7]
        * 0x100_0000_0000_0000
}

/// The eight bytes of `x`, least significant first.
pub open spec fn le_bytes(x: u64) -> Seq<u8> {
    seq![
        (x % 0x100) as u8,
        ((x / 0x100) % 0x100) as u8,
        ((x / 0x1_0000) % 0x100) as u8,
        ((x / 0x100_0000) % 0x100) as u8,
        ((x / 0x1_0000_0000) % 0x100) as u8,
        ((x / 0x100_0000_0000) % 0x100) as u8,
        ((x / 0x1_0000_0000_0000) % 0x100) as u8,
        ((x / 0x100_0000_0000_0000) % 0x100) as u8,
    ]
}

/// The two byte orders hold the same bytes, one the reverse of the other.
pub proof fn lemma_le_bytes_reverse(x: u64)
    ensures
        le_bytes(x) == be_bytes(x).reverse(),
        le_value(le_bytes(x)) == x,
{
    lemma_be_bytes_round_trip(x);
    assert(le_bytes(x) =~= be_bytes(x).reverse());
}

} // verus!
