//! Big-endian integers and bit fields read from octet sequences.
use vstd::prelude::*;

verus! {

/// The 16-bit number whose big-endian encoding starts at `at`.
pub open spec fn be16(b: Seq<u8>, at: int) -> u16
    recommends
        0 <= at,
        at + 2 <= b.len(),
{
    (b[at] as int * 256 + b[at + 1] as int) as u16
}

/// The 32-bit number whose big-endian encoding starts at `at`.
pub open spec fn be32(b: Seq<u8>, at: int) -> u32
    recommends
        0 <= at,
        at + 4 <= b.len(),
{
    (be16(b, at) as int * 65536 + be16(b, at + 2) as int) as u32
}

/// The 64-bit number whose big-endian encoding starts at `at`.
pub open spec fn be64(b: Seq<u8>, at: int) -> u64
    recommends
        0 <= at,
        at + 8 <= b.len(),
{
    (be32(b, at) as int * 4294967296 + be32(b, at + 4) as int) as u64
}

/// The upper four bits of an octet.
pub open spec fn high_nibble(x: u8) -> u8 {
    x / 16
}

/// The lower four bits of an octet.
pub open spec fn low_nibble(x: u8) -> u8 {
    x % 16
}

/// A count of 32-bit words, at most fifteen, expressed in octets.
pub open spec fn words_to_octets(words: u8) -> u8
    recommends
        words < 16,
{
    (words as int * 4) as u8
}

/// The field of `width` bits that ends `low` bits above the bottom of `x`.
pub open spec fn bit_field(x: u8, low: int, width: int) -> u8
    recommends
        0 <= low,
        0 < width,
        low + width <= 8,
{
    ((x as int / pow2_small(low)) % pow2_small(width)) as u8
}

/// Two to the power `n` for the exponents that occur inside one octet.
pub open spec fn pow2_small(n: int) -> int {
    if n <= 0 {
        1
    } else if n == 1 {
        2
    } else if n == 2 {
        4
    } else if n == 3 {
        8
    } else if n == 4 {
        16
    } else if n == 5 {
        32
    } else if n == 6 {
        64
    } else if n == 7 {
        128
    } else {
        256
    }
}

/// Whether bit `low` of `x`, counted from the least significant, is set.
pub open spec fn bit_set(x: u8, low: int) -> bool
    recommends
        0 <= low < 8,
{
    bit_field(x, low, 1) == 1
}

/// Reads the big-endian 16-bit number at `at`.
pub fn be_u16(input: &[u8], at: usize) -> (r: u16)
    requires
        at + 2 <= input@.len(),
    ensures
        r == be16(input@, at as int),
{
    let hi: u16 = input[at] as u16;
    let lo: u16 = input[at + 1] as u16;
    hi * 256 + lo
}

/// Reads the big-endian 32-bit number at `at`.
pub fn be_u32(input: &[u8], at: usize) -> (r: u32)
    requires
        at + 4 <= input@.len(),
    ensures
        r == be32(input@, at as int),
{
    let total: usize = input.len();
    assert(at + 4 <= total);
    let hi: u32 = be_u16(input, at) as u32;
    let lo: u32 = be_u16(input, at + 2) as u32;
    hi * 65536 + lo
}

/// Reads the big-endian 64-bit number at `at`.
pub fn be_u64(input: &[u8], at: usize) -> (r: u64)
    requires
        at + 8 <= input@.len(),
    ensures
        r == be64(input@, at as int),
{
    let total: usize = input.len();
    assert(at + 8 <= total);
    let hi: u64 = be_u32(input, at) as u64;
    let lo: u64 = be_u32(input, at + 4) as u64;
    hi * 4294967296 + lo
}

/// Extracts the upper four bits of an octet.
pub fn upper_nibble(x: u8) -> (r: u8)
    ensures
        r == high_nibble(x),
        r < 16,
{
    x / 16
}

/// Extracts the lower four bits of an octet.
pub fn lower_nibble(x: u8) -> (r: u8)
    ensures
        r == low_nibble(x),
        r < 16,
{
    x % 16
}

/// Extracts `width` bits of `x` whose lowest bit is bit `low`.
pub fn bits_of(x: u8, low: u8, width: u8) -> (r: u8)
    requires
        0 < width,
        low + width <= 8,
    ensures
        r == bit_field(x, low as int, width as int),
        r < pow2_small(width as int),
{
    let shifted: u16 = (x as u16) / power_of_two(low);
    let kept: u16 = shifted % power_of_two(width);
    kept as u8
}

/// Two to the power `n`, for `n` up to eight.
fn power_of_two(n: u8) -> (r: u16)
    requires
        n <= 8,
    ensures
        r == pow2_small(n as int),
        r > 0,
{
    if n == 0 {
        1
    } else if n == 1 {
        2
    } else if n == 2 {
        4
    } else if n == 3 {
        8
    } else if n == 4 {
        16
    } else if n == 5 {
        32
    } else if n == 6 {
        64
    } else if n == 7 {
        128
    } else {
        256
    }
}

/// Copies the octets from `from` up to `to` into a vector of their own.
pub fn copy_range(input: &[u8], from: usize, to: usize) -> (r: Vec<u8>)
    requires
        from <= to <= input@.len(),
    ensures
        r@ == input@.subrange(from as int, to as int),
{
    let mut out: Vec<u8> = Vec::new();
    let mut i: usize = from;
    while i < to
        invariant
            from <= i <= to,
            to <= input@.len(),
            out@ == input@.subrange(from as int, i as int),
        decreases to - i,
    {
        out.push(input[i]);
        i = i + 1;
        proof {
            assert(out@ =~= input@.subrange(from as int, i as int));
        }
    }
    out
}

} // verus!
