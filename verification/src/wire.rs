//! Little-endian 32-bit words, the number format of the packet header.

use vstd::prelude::*;
use zerocopy::{LittleEndian, U32};

verus! {

/// The number that four bytes stand for, least significant byte first.
pub open spec fn le_u32(b: Seq<u8>) -> u32
    recommends
        b.len() == 4,
{
    (b[0] + 0x100 * b[1] + 0x1_0000 * b[2] + 0x100_0000 * b[3]) as u32
}

/// The four bytes that stand for a number, least significant byte first.
pub open spec fn le_u32_bytes(n: u32) -> Seq<u8> {
    seq![
        (n % 0x100) as u8,
        (n / 0x100 % 0x100) as u8,
        (n / 0x1_0000 % 0x100) as u8,
        (n / 0x100_0000) as u8,
    ]
}

/// `zerocopy::U32::<LittleEndian>::from_bytes` and `get`: reads a little-endian number.
#[verifier::external_body]
pub(crate) fn read_le_u32(bytes: [u8; 4]) -> (n: u32)
    ensures
        n == le_u32(bytes@),
{
    U32::<LittleEndian>::from_bytes(bytes).get()
}

/// `zerocopy::U32::<LittleEndian>::new` and its conversion into bytes: writes a
/// little-endian number.
#[verifier::external_body]
pub(crate) fn write_le_u32(n: u32) -> (bytes: [u8; 4])
    ensures
        bytes@ == le_u32_bytes(n),
{
    U32::<LittleEndian>::new(n).into()
}

/// Writing a number and reading it back gives the number.
pub proof fn le_u32_reads_what_was_written(n: u32)
    ensures
        le_u32(le_u32_bytes(n)) == n,
{
}

/// Reading four bytes and writing the number gives the bytes.
pub proof fn le_u32_writes_what_was_read(b: Seq<u8>)
    requires
        b.len() == 4,
    ensures
        le_u32_bytes(le_u32(b)) == b,
{
    let (b0, b1, b2, b3) = (b[0] as int, b[1] as int, b[2] as int, b[3] as int);
    let n = b0 + 0x100 * b1 + 0x1_0000 * b2 + 0x100_0000 * b3;
    assert(le_u32(b) == n);
    assert(n % 0x100 == b0);
    assert(n / 0x100 == b1 + 0x100 * b2 + 0x1_0000 * b3);
    assert(n / 0x100 % 0x100 == b1);
    assert(n / 0x1_0000 == b2 + 0x100 * b3);
    assert(n / 0x1_0000 % 0x100 == b2);
    assert(n / 0x100_0000 == b3);
    assert(le_u32_bytes(le_u32(b)) =~= b);
}

/// The four bytes of a number are its digits to the base of 256, the least significant first.
pub proof fn le_u32_digits(n: u32)
    ensures
        le_u32_bytes(n).len() == 4,
        n == le_u32_bytes(n)[0] + 0x100 * le_u32_bytes(n)[1] + 0x1_0000 * le_u32_bytes(n)[2]
            + 0x100_0000 * le_u32_bytes(n)[3],
{
}

} // verus!
