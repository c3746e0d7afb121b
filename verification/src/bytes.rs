//! Byte-level reading: UTF-8 text and native-endian integers.

use vstd::prelude::*;
use vstd::endian::endianness;
use vstd::utf8::{decode_utf8, valid_utf8};

verus! {

/// The text the bytes encode in UTF-8, or the empty text when they are not
/// valid UTF-8.
pub open spec fn utf8_or_empty(bytes: Seq<u8>) -> Seq<char> {
    if valid_utf8(bytes) {
        decode_utf8(bytes)
    } else {
        Seq::empty()
    }
}

/// Calls `core::str::from_utf8`: `Some` of the decoded text exactly when
/// the bytes are valid UTF-8, as its documentation states.
#[verifier::external_body]
fn utf8_str(bytes: &[u8]) -> (r: Option<&str>)
    ensures
        r is Some <==> valid_utf8(bytes@),
        r matches Some(s) ==> s@ == decode_utf8(bytes@),
{
    core::str::from_utf8(bytes).ok()
}

/// Decodes UTF-8 bytes into an owned string; invalid input gives the empty
/// string.
pub fn utf8_string_or_empty(bytes: &[u8]) -> (r: String)
    ensures
        r@ == utf8_or_empty(bytes@),
{
    match utf8_str(bytes) {
        Some(s) => String::from_str(s),
        None => String::new(),
    }
}

/// Whether the executing machine stores integers low byte first, as
/// vstd's `endianness()` abstracts it.
pub open spec fn machine_is_little() -> bool {
    endianness() is Little
}

/// Calls `u16::from_ne_bytes`, which its documentation describes as reading
/// the two bytes in the machine's native byte order.
#[verifier::external_body]
fn u16_from_native_bytes(bytes: [u8; 2]) -> (r: u16)
    ensures
        machine_is_little() ==> r == bytes[0] + 256 * bytes[1],
        !machine_is_little() ==> r == 256 * bytes[0] + bytes[1],
{
    u16::from_ne_bytes(bytes)
}

/// Whether this machine stores integers low byte first.
pub fn native_is_little_endian() -> (r: bool)
    ensures
        r == machine_is_little(),
{
    u16_from_native_bytes([1u8, 0u8]) == 1
}

/// Value of the two bytes at `at`, low byte first.
pub open spec fn le2(b: Seq<u8>, at: int) -> int {
    b[at] + 256 * b[at + 1]
}

/// Value of the two bytes at `at`, high byte first.
pub open spec fn be2(b: Seq<u8>, at: int) -> int {
    256 * b[at] + b[at + 1]
}

/// Value of the two bytes at `at` in the given byte order.
pub open spec fn uint2(b: Seq<u8>, at: int, little: bool) -> int {
    if little {
        le2(b, at)
    } else {
        be2(b, at)
    }
}

/// Value of the four bytes at `at` in the given byte order.
pub open spec fn uint4(b: Seq<u8>, at: int, little: bool) -> int {
    if little {
        uint2(b, at, true) + 65536 * uint2(b, at + 2, true)
    } else {
        65536 * uint2(b, at, false) + uint2(b, at + 2, false)
    }
}

/// Value of the eight bytes at `at` in the given byte order.
pub open spec fn uint8(b: Seq<u8>, at: int, little: bool) -> int {
    if little {
        uint4(b, at, true) + 4294967296 * uint4(b, at + 4, true)
    } else {
        4294967296 * uint4(b, at, false) + uint4(b, at + 4, false)
    }
}

/// Reads a 16-bit integer at `at` in the given byte order.
pub fn read_u16(b: &[u8], at: usize, little: bool) -> (r: u16)
    requires
        at + 2 <= b@.len(),
    ensures
        r == uint2(b@, at as int, little),
{
    let x0 = b[at] as u16;
    let x1 = b[at + 1] as u16;
    if little {
        x0 + 256 * x1
    } else {
        256 * x0 + x1
    }
}

/// Reads a 32-bit integer at `at` in the given byte order.
pub fn read_u32(b: &[u8], at: usize, little: bool) -> (r: u32)
    requires
        at + 4 <= b@.len(),
    ensures
        r == uint4(b@, at as int, little),
{
    let n = b.len();
    assert(at + 2 <= n);
    let lo = read_u16(b, at, little) as u32;
    let hi = read_u16(b, at + 2, little) as u32;
    if little {
        lo + 65536 * hi
    } else {
        65536 * lo + hi
    }
}

/// Reads a 64-bit integer at `at` in the given byte order.
pub fn read_u64(b: &[u8], at: usize, little: bool) -> (r: u64)
    requires
        at + 8 <= b@.len(),
    ensures
        r == uint8(b@, at as int, little),
{
    let n = b.len();
    assert(at + 4 <= n);
    let lo = read_u32(b, at, little) as u64;
    let hi = read_u32(b, at + 4, little) as u64;
    if little {
        lo + 4294967296 * hi
    } else {
        4294967296 * lo + hi
    }
}

/// The four bytes of `x` in the given byte order.
pub open spec fn u32_bytes(x: u32, little: bool) -> Seq<u8> {
    let b0 = (x % 256) as u8;
    let b1 = ((x / 256) % 256) as u8;
    let b2 = ((x / 65536) % 256) as u8;
    let b3 = (x / 16777216) as u8;
    if little {
        seq![b0, b1, b2, b3]
    } else {
        seq![b3, b2, b1, b0]
    }
}

/// Writes `x` as four bytes in the given byte order.
pub fn u32_to_bytes(x: u32, little: bool) -> (r: [u8; 4])
    ensures
        r@ == u32_bytes(x, little),
{
    let b0 = (x % 256) as u8;
    let b1 = ((x / 256) % 256) as u8;
    let b2 = ((x / 65536) % 256) as u8;
    let b3 = (x / 16777216) as u8;
    let r = if little {
        [b0, b1, b2, b3]
    } else {
        [b3, b2, b1, b0]
    };
    assert(r@ =~= u32_bytes(x, little));
    r
}

/// Reading back the bytes written for `x`, in the same byte order, gives `x`.
pub proof fn lemma_u32_bytes_roundtrip(x: u32, little: bool)
    ensures
        uint4(u32_bytes(x, little), 0, little) == x,
{
    let b = u32_bytes(x, little);
    assert(x == (x % 256) + 256 * ((x / 256) % 256) + 65536 * ((x / 65536) % 256) + 16777216 * (x
        / 16777216)) by (nonlinear_arith);
}

/// The two bytes of `x` in the given byte order.
pub open spec fn u16_bytes(x: u16, little: bool) -> Seq<u8> {
    let b0 = (x % 256) as u8;
    let b1 = (x / 256) as u8;
    if little {
        seq![b0, b1]
    } else {
        seq![b1, b0]
    }
}

/// The eight bytes of `x` in the given byte order.
pub open spec fn u64_bytes(x: u64, little: bool) -> Seq<u8> {
    let lo = (x % 4294967296) as u32;
    let hi = (x / 4294967296) as u32;
    if little {
        u32_bytes(lo, true) + u32_bytes(hi, true)
    } else {
        u32_bytes(hi, false) + u32_bytes(lo, false)
    }
}

/// Reading back the bytes written for `x`, in the same byte order, gives `x`.
pub proof fn lemma_u16_bytes_roundtrip(x: u16, little: bool)
    ensures
        u16_bytes(x, little).len() == 2,
        uint2(u16_bytes(x, little), 0, little) == x,
{
    assert(x == (x % 256) + 256 * (x / 256)) by (nonlinear_arith);
}

/// Reading back the bytes written for `x`, in the same byte order, gives `x`.
pub proof fn lemma_u64_bytes_roundtrip(x: u64, little: bool)
    ensures
        u64_bytes(x, little).len() == 8,
        uint8(u64_bytes(x, little), 0, little) == x,
{
    let lo = (x % 4294967296) as u32;
    let hi = (x / 4294967296) as u32;
    assert(x == (x % 4294967296) + 4294967296 * (x / 4294967296)) by (nonlinear_arith);
    assert(x / 4294967296 < 4294967296) by (nonlinear_arith)
        requires
            x <= u64::MAX,
    ;
    lemma_u32_bytes_roundtrip(lo, little);
    lemma_u32_bytes_roundtrip(hi, little);
    let b = u64_bytes(x, little);
    let first = if little { u32_bytes(lo, true) } else { u32_bytes(hi, false) };
    let second = if little { u32_bytes(hi, true) } else { u32_bytes(lo, false) };
    assert(b =~= first + second);
    assert(b.subrange(0, 4) =~= first.subrange(0, 4));
    assert(b.subrange(4, 8) =~= second.subrange(0, 4));
    lemma_uint4_window(b, 0, first, 0, little);
    lemma_uint4_window(b, 4, second, 0, little);
    assert(lo == x % 4294967296);
    assert(hi == x / 4294967296);
    if little {
        assert(uint4(b, 0, true) == lo);
        assert(uint4(b, 4, true) == hi);
        assert(uint8(b, 0, true) == uint4(b, 0, true) + 4294967296 * uint4(b, 4, true));
    } else {
        assert(uint4(b, 0, false) == hi);
        assert(uint4(b, 4, false) == lo);
        assert(uint8(b, 0, false) == 4294967296 * uint4(b, 0, false) + uint4(b, 4, false));
    }
}

/// A two-byte value depends only on its two bytes.
pub proof fn lemma_uint2_window(s: Seq<u8>, at: int, t: Seq<u8>, off: int, little: bool)
    requires
        0 <= at,
        at + 2 <= s.len(),
        0 <= off,
        off + 2 <= t.len(),
        s.subrange(at, at + 2) == t.subrange(off, off + 2),
    ensures
        uint2(s, at, little) == uint2(t, off, little),
{
    assert(s[at] == s.subrange(at, at + 2)[0]);
    assert(s[at + 1] == s.subrange(at, at + 2)[1]);
    assert(t[off] == t.subrange(off, off + 2)[0]);
    assert(t[off + 1] == t.subrange(off, off + 2)[1]);
}

/// A four-byte value depends only on its four bytes.
pub proof fn lemma_uint4_window(s: Seq<u8>, at: int, t: Seq<u8>, off: int, little: bool)
    requires
        0 <= at,
        at + 4 <= s.len(),
        0 <= off,
        off + 4 <= t.len(),
        s.subrange(at, at + 4) == t.subrange(off, off + 4),
    ensures
        uint4(s, at, little) == uint4(t, off, little),
{
    assert(s.subrange(at, at + 2) =~= s.subrange(at, at + 4).subrange(0, 2));
    assert(t.subrange(off, off + 2) =~= t.subrange(off, off + 4).subrange(0, 2));
    assert(s.subrange(at + 2, at + 4) =~= s.subrange(at, at + 4).subrange(2, 4));
    assert(t.subrange(off + 2, off + 4) =~= t.subrange(off, off + 4).subrange(2, 4));
    lemma_uint2_window(s, at, t, off, true);
    lemma_uint2_window(s, at, t, off, false);
    lemma_uint2_window(s, at + 2, t, off + 2, true);
    lemma_uint2_window(s, at + 2, t, off + 2, false);
}

/// An eight-byte value depends only on its eight bytes.
pub proof fn lemma_uint8_window(s: Seq<u8>, at: int, t: Seq<u8>, off: int, little: bool)
    requires
        0 <= at,
        at + 8 <= s.len(),
        0 <= off,
        off + 8 <= t.len(),
        s.subrange(at, at + 8) == t.subrange(off, off + 8),
    ensures
        uint8(s, at, little) == uint8(t, off, little),
{
    assert(s.subrange(at, at + 4) =~= s.subrange(at, at + 8).subrange(0, 4));
    assert(t.subrange(off, off + 4) =~= t.subrange(off, off + 8).subrange(0, 4));
    assert(s.subrange(at + 4, at + 8) =~= s.subrange(at, at + 8).subrange(4, 8));
    assert(t.subrange(off + 4, off + 8) =~= t.subrange(off, off + 8).subrange(4, 8));
    lemma_uint4_window(s, at, t, off, true);
    lemma_uint4_window(s, at, t, off, false);
    lemma_uint4_window(s, at + 4, t, off + 4, true);
    lemma_uint4_window(s, at + 4, t, off + 4, false);
}

} // verus!
