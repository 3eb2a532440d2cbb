//! Numbers in byte strings, low byte first.
use vstd::prelude::*;

verus! {

/// The number of 16 bits at `i`.
pub open spec fn le16(s: Seq<u8>, i: int) -> int {
    s[i] + s[i + 1] * 0x100
}

/// The number of 32 bits at `i`.
pub open spec fn le32(s: Seq<u8>, i: int) -> int {
    s[i] + s[i + 1] * 0x100 + s[i + 2] * 0x1_0000 + s[i + 3] * 0x100_0000
}

/// Reads the number of 16 bits at `i`.
pub fn read_le16(s: &[u8], i: usize) -> (r: u16)
    requires
        i + 2 <= s@.len(),
    ensures
        r as int == le16(s@, i as int),
{
    s[i] as u16 + s[i + 1] as u16 * 0x100
}

/// Reads the number of 32 bits at `i`.
pub fn read_le32(s: &[u8], i: usize) -> (r: u32)
    requires
        i + 4 <= s@.len(),
    ensures
        r as int == le32(s@, i as int),
{
    s[i] as u32 + s[i + 1] as u32 * 0x100 + s[i + 2] as u32 * 0x1_0000 + s[i + 3] as u32 * 0x100_0000
}

/// Numbers are read with their lowest byte first: the bytes of a number, from
/// the lowest on, give the number back, wherever they stand.
pub proof fn lowest_byte_comes_first(before: Seq<u8>, after: Seq<u8>, n: u32, m: u16)
    ensures
        le32(
            before + seq![
                (n % 256) as u8,
                (n / 256 % 256) as u8,
                (n / 65536 % 256) as u8,
                (n / 16777216) as u8,
            ] + after,
            before.len() as int,
        ) == n,
        le16(before + seq![(m % 256) as u8, (m / 256) as u8] + after, before.len() as int) == m,
{
    let s = before + seq![
        (n % 256) as u8,
        (n / 256 % 256) as u8,
        (n / 65536 % 256) as u8,
        (n / 16777216) as u8,
    ] + after;
    let i = before.len() as int;
    assert(s[i] == n % 256);
    assert(s[i + 1] == n / 256 % 256);
    assert(s[i + 2] == n / 65536 % 256);
    assert(s[i + 3] == n / 16777216);
    let t = before + seq![(m % 256) as u8, (m / 256) as u8] + after;
    assert(t[i] == m % 256);
    assert(t[i + 1] == m / 256);
}

} // verus!
