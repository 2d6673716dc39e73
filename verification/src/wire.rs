//! Little-endian wire values: what a run of bytes means as an integer, and
//! the bounded reads and writes of the byte cursor that the codecs share.

use scroll::{Pread, Pwrite};
use vstd::prelude::*;

verus! {

/// The `u16` held little-endian in `s[at]`, `s[at + 1]`.
pub open spec fn le_u16(s: Seq<u8>, at: int) -> u16 {
    (s[at] as int + 0x100 * (s[at + 1] as int)) as u16
}

/// The `u32` held little-endian in the four bytes of `s` from `at`.
pub open spec fn le_u32(s: Seq<u8>, at: int) -> u32 {
    (s[at] as int + 0x100 * (s[at + 1] as int) + 0x1_0000 * (s[at + 2] as int) + 0x100_0000 * (
    s[at + 3] as int)) as u32
}

/// The `u64` held little-endian in the eight bytes of `s` from `at`.
pub open spec fn le_u64(s: Seq<u8>, at: int) -> u64 {
    (le_u32(s, at) as int + 0x1_0000_0000 * (le_u32(s, at + 4) as int)) as u64
}

/// The two bytes that hold `v` little-endian.
pub open spec fn u16_le(v: u16) -> Seq<u8> {
    seq![(v % 0x100) as u8, (v / 0x100) as u8]
}

/// The four bytes that hold `v` little-endian.
pub open spec fn u32_le(v: u32) -> Seq<u8> {
    seq![
        (v % 0x100) as u8,
        ((v / 0x100) % 0x100) as u8,
        ((v / 0x1_0000) % 0x100) as u8,
        (v / 0x100_0000) as u8,
    ]
}

/// The eight bytes that hold `v` little-endian.
pub open spec fn u64_le(v: u64) -> Seq<u8> {
    u32_le((v % 0x1_0000_0000) as u32) + u32_le((v / 0x1_0000_0000) as u32)
}

/// `buf` with `data` laid over it from index `at`.
pub open spec fn overlay(buf: Seq<u8>, at: int, data: Seq<u8>) -> Seq<u8> {
    Seq::new(
        buf.len(),
        |i: int|
            if at <= i < at + data.len() {
                data[i - at]
            } else {
                buf[i]
            },
    )
}

/// Reads one byte with `scroll::Pread::gread_with`. The read succeeds exactly
/// when the byte lies inside the buffer; it then advances the cursor by one,
/// and otherwise leaves it where it was.
#[verifier::external_body]
pub(crate) fn gread_u8(bytes: &[u8], offset: &mut usize) -> (r: core::result::Result<
    u8,
    scroll::Error,
>)
    ensures
        r is Ok <==> *old(offset) + 1 <= bytes@.len(),
        r is Ok ==> r->Ok_0 == bytes@[*old(offset) as int] && *final(offset) == *old(offset) + 1,
        r is Err ==> *final(offset) == *old(offset),
{
    bytes.gread_with::<u8>(offset, scroll::LE)
}

/// Reads a little-endian `u16` with `scroll::Pread::gread_with`. The read
/// succeeds exactly when two bytes lie inside the buffer from the cursor on;
/// it then advances the cursor by two, and otherwise leaves it where it was.
#[verifier::external_body]
pub(crate) fn gread_u16(bytes: &[u8], offset: &mut usize) -> (r: core::result::Result<
    u16,
    scroll::Error,
>)
    ensures
        r is Ok <==> *old(offset) + 2 <= bytes@.len(),
        r is Ok ==> r->Ok_0 == le_u16(bytes@, *old(offset) as int) && *final(offset) == *old(
            offset,
        ) + 2,
        r is Err ==> *final(offset) == *old(offset),
{
    bytes.gread_with::<u16>(offset, scroll::LE)
}

/// Reads a little-endian `u32` with `scroll::Pread::gread_with`. The read
/// succeeds exactly when four bytes lie inside the buffer from the cursor on;
/// it then advances the cursor by four, and otherwise leaves it where it was.
#[verifier::external_body]
pub(crate) fn gread_u32(bytes: &[u8], offset: &mut usize) -> (r: core::result::Result<
    u32,
    scroll::Error,
>)
    ensures
        r is Ok <==> *old(offset) + 4 <= bytes@.len(),
        r is Ok ==> r->Ok_0 == le_u32(bytes@, *old(offset) as int) && *final(offset) == *old(
            offset,
        ) + 4,
        r is Err ==> *final(offset) == *old(offset),
{
    bytes.gread_with::<u32>(offset, scroll::LE)
}

/// Reads a little-endian `u64` with `scroll::Pread::gread_with`. The read
/// succeeds exactly when eight bytes lie inside the buffer from the cursor
/// on; it then advances the cursor by eight, and otherwise leaves it where it
/// was.
#[verifier::external_body]
pub(crate) fn gread_u64(bytes: &[u8], offset: &mut usize) -> (r: core::result::Result<
    u64,
    scroll::Error,
>)
    ensures
        r is Ok <==> *old(offset) + 8 <= bytes@.len(),
        r is Ok ==> r->Ok_0 == le_u64(bytes@, *old(offset) as int) && *final(offset) == *old(
            offset,
        ) + 8,
        r is Err ==> *final(offset) == *old(offset),
{
    bytes.gread_with::<u64>(offset, scroll::LE)
}

/// Borrows `size` bytes with `scroll::Pread::gread_with`. The read succeeds
/// exactly when that many bytes lie inside the buffer from the cursor on; it
/// then hands them out and advances the cursor by `size`, and otherwise
/// leaves it where it was.
#[verifier::external_body]
pub(crate) fn gread_bytes<'a>(bytes: &'a [u8], offset: &mut usize, size: usize) -> (r:
    core::result::Result<&'a [u8], scroll::Error>)
    ensures
        r is Ok <==> *old(offset) + size <= bytes@.len(),
        r is Ok ==> r->Ok_0@ == bytes@.subrange(*old(offset) as int, *old(offset) + size)
            && *final(offset) == *old(offset) + size,
        r is Err ==> *final(offset) == *old(offset),
{
    bytes.gread_with::<&'a [u8]>(offset, size)
}

/// Writes one byte with `scroll::Pwrite::gwrite_with`. The write
/// succeeds exactly when one byte lies inside the buffer from the cursor on;
/// it then returns 1, changes that byte only and advances the cursor by
/// one. Otherwise nothing changes.
#[verifier::external_body]
pub(crate) fn gwrite_u8(bytes: &mut [u8], v: u8, offset: &mut usize) -> (r:
    core::result::Result<usize, scroll::Error>)
    ensures
        r is Ok <==> *old(offset) + 1 <= old(bytes)@.len(),
        r is Ok ==> r->Ok_0 == 1 && *final(offset) == *old(offset) + 1 && final(bytes)@
            == overlay(old(bytes)@, *old(offset) as int, seq![v]),
        r is Err ==> *final(offset) == *old(offset) && final(bytes)@ == old(bytes)@,
{
    bytes.gwrite_with::<u8>(v, offset, scroll::LE)
}

/// Writes a little-endian `u16` with `scroll::Pwrite::gwrite_with`. The write
/// succeeds exactly when two bytes lie inside the buffer from the cursor on;
/// it then returns 2, changes those bytes only and advances the cursor by
/// two. Otherwise nothing changes.
#[verifier::external_body]
pub(crate) fn gwrite_u16(bytes: &mut [u8], v: u16, offset: &mut usize) -> (r:
    core::result::Result<usize, scroll::Error>)
    ensures
        r is Ok <==> *old(offset) + 2 <= old(bytes)@.len(),
        r is Ok ==> r->Ok_0 == 2 && *final(offset) == *old(offset) + 2 && final(bytes)@
            == overlay(old(bytes)@, *old(offset) as int, u16_le(v)),
        r is Err ==> *final(offset) == *old(offset) && final(bytes)@ == old(bytes)@,
{
    bytes.gwrite_with::<u16>(v, offset, scroll::LE)
}

/// Writes a little-endian `u32` with `scroll::Pwrite::gwrite_with`. The write
/// succeeds exactly when four bytes lie inside the buffer from the cursor on;
/// it then returns 4, changes those bytes only and advances the cursor by
/// four. Otherwise nothing changes.
#[verifier::external_body]
pub(crate) fn gwrite_u32(bytes: &mut [u8], v: u32, offset: &mut usize) -> (r:
    core::result::Result<usize, scroll::Error>)
    ensures
        r is Ok <==> *old(offset) + 4 <= old(bytes)@.len(),
        r is Ok ==> r->Ok_0 == 4 && *final(offset) == *old(offset) + 4 && final(bytes)@
            == overlay(old(bytes)@, *old(offset) as int, u32_le(v)),
        r is Err ==> *final(offset) == *old(offset) && final(bytes)@ == old(bytes)@,
{
    bytes.gwrite_with::<u32>(v, offset, scroll::LE)
}

/// Writes a little-endian `u64` with `scroll::Pwrite::gwrite_with`. The write
/// succeeds exactly when eight bytes lie inside the buffer from the cursor on;
/// it then returns 8, changes those bytes only and advances the cursor by
/// eight. Otherwise nothing changes.
#[verifier::external_body]
pub(crate) fn gwrite_u64(bytes: &mut [u8], v: u64, offset: &mut usize) -> (r:
    core::result::Result<usize, scroll::Error>)
    ensures
        r is Ok <==> *old(offset) + 8 <= old(bytes)@.len(),
        r is Ok ==> r->Ok_0 == 8 && *final(offset) == *old(offset) + 8 && final(bytes)@
            == overlay(old(bytes)@, *old(offset) as int, u64_le(v)),
        r is Err ==> *final(offset) == *old(offset) && final(bytes)@ == old(bytes)@,
{
    bytes.gwrite_with::<u64>(v, offset, scroll::LE)
}

/// Copies `data` into the buffer with `scroll::Pwrite::gwrite_with`. The
/// write succeeds exactly when `data` fits inside the buffer from the cursor
/// on; it then returns the length of `data`, changes the bytes under it only
/// and advances the cursor by that length. Otherwise nothing changes.
#[verifier::external_body]
pub(crate) fn gwrite_bytes(bytes: &mut [u8], data: &[u8], offset: &mut usize) -> (r:
    core::result::Result<usize, scroll::Error>)
    ensures
        r is Ok <==> *old(offset) + data@.len() <= old(bytes)@.len(),
        r is Ok ==> r->Ok_0 == data@.len() && *final(offset) == *old(offset) + data@.len()
            && final(bytes)@ == overlay(old(bytes)@, *old(offset) as int, data@),
        r is Err ==> *final(offset) == *old(offset) && final(bytes)@ == old(bytes)@,
{
    bytes.gwrite_with::<&[u8]>(data, offset, ())
}

/// Appends one byte to what an encoder has laid over `base` so far, where
/// it still fits the buffer.
pub(crate) fn put_u8(
    bytes: &mut [u8],
    v: u8,
    offset: &mut usize,
    Ghost(base): Ghost<Seq<u8>>,
    Ghost(done): Ghost<Seq<u8>>,
) -> (r: core::result::Result<usize, scroll::Error>)
    requires
        old(bytes)@ == overlay(base, 0, done),
        *old(offset) == done.len(),
    ensures
        r is Ok <==> done.len() + 1 <= base.len(),
        r is Ok ==> r->Ok_0 == 1 && *final(offset) == done.len() + 1 && final(bytes)@
            == overlay(base, 0, done + seq![v]),
        r is Err ==> final(bytes)@ == old(bytes)@ && *final(offset) == *old(offset),
{
    let r = gwrite_u8(bytes, v, offset);
    proof {
        if r is Ok {
            assert(bytes@ =~= overlay(base, 0, done + seq![v]));
        }
    }
    r
}

/// Appends `v`, little-endian, to what an encoder has laid over `base` so
/// far, where it still fits the buffer.
pub(crate) fn put_u16(
    bytes: &mut [u8],
    v: u16,
    offset: &mut usize,
    Ghost(base): Ghost<Seq<u8>>,
    Ghost(done): Ghost<Seq<u8>>,
) -> (r: core::result::Result<usize, scroll::Error>)
    requires
        old(bytes)@ == overlay(base, 0, done),
        *old(offset) == done.len(),
    ensures
        r is Ok <==> done.len() + 2 <= base.len(),
        r is Ok ==> r->Ok_0 == 2 && *final(offset) == done.len() + 2 && final(bytes)@
            == overlay(base, 0, done + u16_le(v)),
        r is Err ==> final(bytes)@ == old(bytes)@ && *final(offset) == *old(offset),
{
    let r = gwrite_u16(bytes, v, offset);
    proof {
        if r is Ok {
            assert(bytes@ =~= overlay(base, 0, done + u16_le(v)));
        }
    }
    r
}

/// Appends `v`, little-endian, to what an encoder has laid over `base` so
/// far, where it still fits the buffer.
pub(crate) fn put_u32(
    bytes: &mut [u8],
    v: u32,
    offset: &mut usize,
    Ghost(base): Ghost<Seq<u8>>,
    Ghost(done): Ghost<Seq<u8>>,
) -> (r: core::result::Result<usize, scroll::Error>)
    requires
        old(bytes)@ == overlay(base, 0, done),
        *old(offset) == done.len(),
    ensures
        r is Ok <==> done.len() + 4 <= base.len(),
        r is Ok ==> r->Ok_0 == 4 && *final(offset) == done.len() + 4 && final(bytes)@
            == overlay(base, 0, done + u32_le(v)),
        r is Err ==> final(bytes)@ == old(bytes)@ && *final(offset) == *old(offset),
{
    let r = gwrite_u32(bytes, v, offset);
    proof {
        if r is Ok {
            assert(bytes@ =~= overlay(base, 0, done + u32_le(v)));
        }
    }
    r
}

/// Appends `v`, little-endian, to what an encoder has laid over `base` so
/// far, where it still fits the buffer.
pub(crate) fn put_u64(
    bytes: &mut [u8],
    v: u64,
    offset: &mut usize,
    Ghost(base): Ghost<Seq<u8>>,
    Ghost(done): Ghost<Seq<u8>>,
) -> (r: core::result::Result<usize, scroll::Error>)
    requires
        old(bytes)@ == overlay(base, 0, done),
        *old(offset) == done.len(),
    ensures
        r is Ok <==> done.len() + 8 <= base.len(),
        r is Ok ==> r->Ok_0 == 8 && *final(offset) == done.len() + 8 && final(bytes)@
            == overlay(base, 0, done + u64_le(v)),
        r is Err ==> final(bytes)@ == old(bytes)@ && *final(offset) == *old(offset),
{
    let r = gwrite_u64(bytes, v, offset);
    proof {
        if r is Ok {
            assert(bytes@ =~= overlay(base, 0, done + u64_le(v)));
        }
    }
    r
}

/// Appends `data` to what an encoder has laid over `base` so far, where it
/// still fits the buffer.
pub(crate) fn put_bytes(
    bytes: &mut [u8],
    data: &[u8],
    offset: &mut usize,
    Ghost(base): Ghost<Seq<u8>>,
    Ghost(done): Ghost<Seq<u8>>,
) -> (r: core::result::Result<usize, scroll::Error>)
    requires
        old(bytes)@ == overlay(base, 0, done),
        *old(offset) == done.len(),
    ensures
        r is Ok <==> done.len() + data@.len() <= base.len(),
        r is Ok ==> r->Ok_0 == data@.len() && *final(offset) == done.len() + data@.len()
            && final(bytes)@ == overlay(base, 0, done + data@),
        r is Err ==> final(bytes)@ == old(bytes)@ && *final(offset) == *old(offset),
{
    let r = gwrite_bytes(bytes, data, offset);
    proof {
        if r is Ok {
            assert(bytes@ =~= overlay(base, 0, done + data@));
        }
    }
    r
}

/// The bytes of `s` that stand before its first zero byte: all of `s` where
/// it holds none.
pub open spec fn until_nul(s: Seq<u8>) -> Seq<u8>
    decreases s.len(),
{
    if s.len() == 0 || s[0] == 0 {
        Seq::empty()
    } else {
        seq![s[0]] + until_nul(s.drop_first())
    }
}

/// Whether a text stands in `s` at `at`: `at` is no greater than the length
/// of `s`, and the bytes from there up to the first zero byte, or to the end,
/// are valid UTF-8.
pub open spec fn is_text_at(s: Seq<u8>, at: int) -> bool {
    0 <= at <= s.len() && vstd::utf8::valid_utf8(until_nul(s.skip(at)))
}

/// The text that stands in `s` at `at`.
pub open spec fn text_at(s: Seq<u8>, at: int) -> Seq<char> {
    vstd::utf8::decode_utf8(until_nul(s.skip(at)))
}

/// Reads a text with `scroll::Pread::pread`, in the cursor's default text
/// context: the bytes from `offset` up to the first zero byte or the end of
/// the buffer. The read succeeds exactly when `offset` is no greater than the
/// buffer's length and those bytes are valid UTF-8; the text is what they
/// decode to.
#[verifier::external_body]
pub(crate) fn pread_str<'a>(bytes: &'a [u8], offset: usize) -> (r: core::result::Result<
    &'a str,
    scroll::Error,
>)
    ensures
        r is Ok <==> is_text_at(bytes@, offset as int),
        r is Ok ==> r->Ok_0@ == text_at(bytes@, offset as int),
{
    bytes.pread::<&'a str>(offset)
}

/// Two little-endian bytes decode to the value they were made from.
pub proof fn u16_le_decodes(v: u16)
    ensures
        u16_le(v).len() == 2,
        le_u16(u16_le(v), 0) == v,
{
}

/// Four little-endian bytes decode to the value they were made from.
pub proof fn u32_le_decodes(v: u32)
    ensures
        u32_le(v).len() == 4,
        le_u32(u32_le(v), 0) == v,
{
}

/// Eight little-endian bytes decode to the value they were made from.
pub proof fn u64_le_decodes(v: u64)
    ensures
        u64_le(v).len() == 8,
        le_u64(u64_le(v), 0) == v,
{
    let lo = (v % 0x1_0000_0000) as u32;
    let hi = (v / 0x1_0000_0000) as u32;
    u32_le_decodes(lo);
    u32_le_decodes(hi);
    assert(le_u32(u64_le(v), 0) == le_u32(u32_le(lo), 0));
    assert(le_u32(u64_le(v), 4) == le_u32(u32_le(hi), 0));
}

/// Encoding the `u16` found at `at` gives back the two bytes it was read from.
pub proof fn le_u16_encodes(s: Seq<u8>, at: int)
    requires
        0 <= at,
        at + 2 <= s.len(),
    ensures
        u16_le(le_u16(s, at)) == s.subrange(at, at + 2),
{
    assert(u16_le(le_u16(s, at)) =~= s.subrange(at, at + 2));
}

/// A number written as a low digit and the rest splits back into the two.
proof fn digit_split(lo: int, rest: int, base: int)
    requires
        0 <= lo < base,
        0 <= rest,
    ensures
        (lo + base * rest) % base == lo,
        (lo + base * rest) / base == rest,
{
    assert(lo + base * rest == rest * base + lo) by (nonlinear_arith);
    vstd::arithmetic::div_mod::lemma_fundamental_div_mod_converse(
        lo + base * rest,
        base,
        rest,
        lo,
    );
}

/// Encoding the `u32` found at `at` gives back the four bytes it was read
/// from.
pub proof fn le_u32_encodes(s: Seq<u8>, at: int)
    requires
        0 <= at,
        at + 4 <= s.len(),
    ensures
        u32_le(le_u32(s, at)) == s.subrange(at, at + 4),
{
    let a = s[at] as int;
    let b = s[at + 1] as int;
    let c = s[at + 2] as int;
    let d = s[at + 3] as int;
    let v = le_u32(s, at) as int;
    assert(v == a + 0x100 * (b + 0x100 * (c + 0x100 * d)));
    digit_split(a, b + 0x100 * (c + 0x100 * d), 0x100);
    digit_split(b, c + 0x100 * d, 0x100);
    digit_split(c, d, 0x100);
    assert(v / 0x100 == b + 0x100 * (c + 0x100 * d));
    assert(v / 0x1_0000 == (v / 0x100) / 0x100);
    assert(v / 0x100_0000 == (v / 0x1_0000) / 0x100);
    assert(u32_le(le_u32(s, at)) =~= s.subrange(at, at + 4));
}

/// Encoding the `u64` found at `at` gives back the eight bytes it was read
/// from.
pub proof fn le_u64_encodes(s: Seq<u8>, at: int)
    requires
        0 <= at,
        at + 8 <= s.len(),
    ensures
        u64_le(le_u64(s, at)) == s.subrange(at, at + 8),
{
    le_u32_encodes(s, at);
    le_u32_encodes(s, at + 4);
    let v = le_u64(s, at);
    digit_split(le_u32(s, at) as int, le_u32(s, at + 4) as int, 0x1_0000_0000);
    assert((v % 0x1_0000_0000) as u32 == le_u32(s, at));
    assert((v / 0x1_0000_0000) as u32 == le_u32(s, at + 4));
    assert(s.subrange(at, at + 4) + s.subrange(at + 4, at + 8) =~= s.subrange(at, at + 8));
}

} // verus!
