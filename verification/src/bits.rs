//! Bytes, words and masks: the arithmetic that every register file shares.
//!
//! Words are split and joined by division and remainder, so that the
//! round-trip facts follow by linear arithmetic; masks keep their bitwise
//! form, with the bounds that indexing needs proved once here.

use vstd::prelude::*;

verus! {

/// Low byte of a 16-bit word.
pub open spec fn lo_byte(w: u16) -> u8 {
    (w % 256) as u8
}

/// High byte of a 16-bit word.
pub open spec fn hi_byte(w: u16) -> u8 {
    (w / 256) as u8
}

/// The word whose low byte is `lo` and whose high byte is `hi`.
pub open spec fn word_of(lo: u8, hi: u8) -> u16 {
    (hi * 256 + lo) as u16
}

/// The `k`-th byte (little-endian) of a 32-bit value.
pub open spec fn byte_of_u32(v: u32, k: int) -> u8 {
    if k == 0 {
        (v % 256) as u8
    } else if k == 1 {
        ((v / 0x100) % 256) as u8
    } else if k == 2 {
        ((v / 0x1_0000) % 256) as u8
    } else {
        ((v / 0x100_0000) % 256) as u8
    }
}

/// The 32-bit value of four little-endian bytes.
pub open spec fn u32_of(b0: u8, b1: u8, b2: u8, b3: u8) -> u32 {
    (b0 + b1 * 0x100 + b2 * 0x1_0000 + b3 * 0x100_0000) as u32
}

/// The unsigned value that has the same 32 bits as `v`.
pub open spec fn bits_of_i32(v: i32) -> u32 {
    if v >= 0 {
        v as u32
    } else {
        (v + 0x1_0000_0000) as u32
    }
}

/// The signed value that has the same 32 bits as `v`.
pub open spec fn i32_of_bits(v: u32) -> i32 {
    if v < 0x8000_0000 {
        v as i32
    } else {
        (v - 0x1_0000_0000) as i32
    }
}

#[verifier::when_used_as_spec(lo_byte)]
pub fn low_byte(w: u16) -> (r: u8)
    ensures
        r == lo_byte(w),
{
    (w % 256) as u8
}

#[verifier::when_used_as_spec(hi_byte)]
pub fn high_byte(w: u16) -> (r: u8)
    ensures
        r == hi_byte(w),
{
    (w / 256) as u8
}

#[verifier::when_used_as_spec(word_of)]
pub fn make_word(lo: u8, hi: u8) -> (r: u16)
    ensures
        r == word_of(lo, hi),
{
    (hi as u16) * 256 + (lo as u16)
}

/// Replaces the low byte of `w`.
pub fn with_low_byte(w: u16, lo: u8) -> (r: u16)
    ensures
        r == word_of(lo, hi_byte(w)),
{
    make_word(lo, high_byte(w))
}

/// Replaces the high byte of `w`.
pub fn with_high_byte(w: u16, hi: u8) -> (r: u16)
    ensures
        r == word_of(lo_byte(w), hi),
{
    make_word(low_byte(w), hi)
}

pub fn u32_byte(v: u32, k: usize) -> (r: u8)
    requires
        k < 4,
    ensures
        r == byte_of_u32(v, k as int),
{
    if k == 0 {
        (v % 256) as u8
    } else if k == 1 {
        ((v / 0x100) % 256) as u8
    } else if k == 2 {
        ((v / 0x1_0000) % 256) as u8
    } else {
        ((v / 0x100_0000) % 256) as u8
    }
}

pub fn make_u32(b0: u8, b1: u8, b2: u8, b3: u8) -> (r: u32)
    ensures
        r == u32_of(b0, b1, b2, b3),
{
    (b0 as u32) + (b1 as u32) * 0x100 + (b2 as u32) * 0x1_0000 + (b3 as u32) * 0x100_0000
}

pub fn i32_bits(v: i32) -> (r: u32)
    ensures
        r == bits_of_i32(v),
{
    if v >= 0 {
        v as u32
    } else {
        ((v as i64) + 0x1_0000_0000) as u32
    }
}

pub fn i32_from_bits(v: u32) -> (r: i32)
    ensures
        r == i32_of_bits(v),
{
    if v < 0x8000_0000 {
        v as i32
    } else {
        ((v as i64) - 0x1_0000_0000) as i32
    }
}

/// A 16-bit word as two little-endian bytes.
pub open spec fn le16(v: u16) -> Seq<u8> {
    seq![lo_byte(v), hi_byte(v)]
}

/// A 32-bit value as four little-endian bytes.
pub open spec fn le32(v: u32) -> Seq<u8> {
    seq![byte_of_u32(v, 0), byte_of_u32(v, 1), byte_of_u32(v, 2), byte_of_u32(v, 3)]
}

/// The little-endian word at offset `off` of `data`.
pub open spec fn u16_at(data: Seq<u8>, off: int) -> u16 {
    word_of(data[off], data[off + 1])
}

/// The little-endian 32-bit value at offset `off` of `data`.
pub open spec fn u32_at(data: Seq<u8>, off: int) -> u32 {
    u32_of(data[off], data[off + 1], data[off + 2], data[off + 3])
}

/// The big-endian 32-bit value at offset `off` of `data`.
pub open spec fn u32_be_at(data: Seq<u8>, off: int) -> u32 {
    u32_of(data[off + 3], data[off + 2], data[off + 1], data[off])
}

/// A flag as one byte: 1 for set, 0 for clear.
pub open spec fn flag_of(b: bool) -> u8 {
    if b {
        1
    } else {
        0
    }
}

pub fn flag_byte(b: bool) -> (r: u8)
    ensures
        r == flag_of(b),
{
    if b {
        1
    } else {
        0
    }
}

/// Appends a word, little-endian.
pub fn push_u16(out: &mut Vec<u8>, v: u16)
    ensures
        final(out)@ == old(out)@ + le16(v),
{
    out.push(low_byte(v));
    out.push(high_byte(v));
    assert(out@ =~= old(out)@ + le16(v));
}

/// Appends a 32-bit value, little-endian.
pub fn push_u32(out: &mut Vec<u8>, v: u32)
    ensures
        final(out)@ == old(out)@ + le32(v),
{
    out.push(u32_byte(v, 0));
    out.push(u32_byte(v, 1));
    out.push(u32_byte(v, 2));
    out.push(u32_byte(v, 3));
    assert(out@ =~= old(out)@ + le32(v));
}

/// Appends a signed 32-bit value by its bit pattern, little-endian.
pub fn push_i32(out: &mut Vec<u8>, v: i32)
    ensures
        final(out)@ == old(out)@ + le32(bits_of_i32(v)),
{
    push_u32(out, i32_bits(v));
}

/// Appends every byte of a slice.
pub fn push_bytes(out: &mut Vec<u8>, bytes: &[u8])
    ensures
        final(out)@ == old(out)@ + bytes@,
{
    let n = bytes.len();
    let mut i: usize = 0;
    while i < n
        invariant
            i <= n,
            n == bytes@.len(),
            out@ == old(out)@ + bytes@.subrange(0, i as int),
        decreases n - i,
    {
        out.push(bytes[i]);
        assert(out@ =~= old(out)@ + bytes@.subrange(0, i + 1));
        i = i + 1;
    }
    assert(bytes@.subrange(0, n as int) =~= bytes@);
}

/// Reads the little-endian word at `off`.
pub fn read_u16(data: &[u8], off: usize) -> (r: u16)
    requires
        off + 1 < data@.len(),
    ensures
        r == u16_at(data@, off as int),
{
    make_word(data[off], data[off + 1])
}

/// Reads the little-endian 32-bit value at `off`.
pub fn read_u32(data: &[u8], off: usize) -> (r: u32)
    requires
        off + 3 < data@.len(),
    ensures
        r == u32_at(data@, off as int),
{
    make_u32(data[off], data[off + 1], data[off + 2], data[off + 3])
}

/// Reads the little-endian signed 32-bit value at `off`.
pub fn read_i32(data: &[u8], off: usize) -> (r: i32)
    requires
        off + 3 < data@.len(),
    ensures
        r == i32_of_bits(u32_at(data@, off as int)),
{
    i32_from_bits(read_u32(data, off))
}

/// Two to the power `i`, for the bits of a 16-bit word.
pub open spec fn pow2(i: int) -> int
    decreases i,
{
    if i <= 0 {
        1
    } else {
        2 * pow2(i - 1)
    }
}

/// Bit `i` of a word is set.
pub open spec fn bit_of(v: u16, i: int) -> bool {
    (v as int / pow2(i)) % 2 == 1
}

/// The first sixteen powers of two.
pub proof fn lemma_pow2_values()
    ensures
        pow2(0) == 1,
        pow2(1) == 2,
        pow2(2) == 4,
        pow2(3) == 8,
        pow2(4) == 16,
        pow2(5) == 32,
        pow2(6) == 64,
        pow2(7) == 128,
        pow2(8) == 256,
        pow2(9) == 512,
        pow2(10) == 1024,
        pow2(11) == 2048,
        pow2(12) == 4096,
        pow2(13) == 8192,
        pow2(14) == 16384,
        pow2(15) == 32768,
{
    reveal_with_fuel(pow2, 17);
}

/// Two to the power `i`.
pub fn power_of_two(i: u32) -> (r: u16)
    requires
        i < 16,
    ensures
        r == pow2(i as int),
{
    proof {
        lemma_pow2_values();
    }
    let mut r: u16 = 1;
    let mut k: u32 = 0;
    while k < i
        invariant
            k <= i,
            i < 16,
            r == pow2(k as int),
            r <= 32768,
            k < 15 ==> r <= 16384,
        decreases i - k,
    {
        proof {
            lemma_pow2_values();
        }
        r = r * 2;
        k = k + 1;
    }
    r
}

/// Whether bit `i` of a word is set.
pub fn bit_at(v: u16, i: u32) -> (r: bool)
    requires
        i < 16,
    ensures
        r == bit_of(v, i as int),
{
    proof {
        lemma_pow2_values();
    }
    (v / power_of_two(i)) % 2 == 1
}

/// Words stored little-endian, one after the other.
pub open spec fn words_le(words: Seq<u16>) -> Seq<u8> {
    Seq::new(
        2 * words.len(),
        |i: int|
            if i % 2 == 0 {
                lo_byte(words[i / 2])
            } else {
                hi_byte(words[i / 2])
            },
    )
}

/// 32-bit values stored little-endian, one after the other.
pub open spec fn dwords_le(values: Seq<u32>) -> Seq<u8> {
    Seq::new(4 * values.len(), |i: int| byte_of_u32(values[i / 4], i % 4))
}

/// The `count` little-endian words stored from offset `off` of `data`.
pub open spec fn words_at(data: Seq<u8>, off: int, count: int) -> Seq<u16> {
    Seq::new(count as nat, |k: int| u16_at(data, off + 2 * k))
}

/// The `count` little-endian 32-bit values stored from offset `off`.
pub open spec fn dwords_at(data: Seq<u8>, off: int, count: int) -> Seq<u32> {
    Seq::new(count as nat, |k: int| u32_at(data, off + 4 * k))
}

/// Appends words, little-endian.
pub fn push_words(out: &mut Vec<u8>, words: &[u16])
    ensures
        final(out)@ == old(out)@ + words_le(words@),
{
    let n = words.len();
    let mut i: usize = 0;
    while i < n
        invariant
            i <= n,
            n == words@.len(),
            out@.len() == old(out)@.len() + 2 * i,
            forall|j: int| 0 <= j < old(out)@.len() ==> out@[j] == old(out)@[j],
            forall|j: int| 0 <= j < 2 * i ==> out@[old(out)@.len() + j] == words_le(words@)[j],
        decreases n - i,
    {
        out.push(low_byte(words[i]));
        out.push(high_byte(words[i]));
        i = i + 1;
    }
    assert(out@ =~= old(out)@ + words_le(words@));
}

/// Appends 32-bit values, little-endian.
pub fn push_dwords(out: &mut Vec<u8>, values: &[u32])
    ensures
        final(out)@ == old(out)@ + dwords_le(values@),
{
    let n = values.len();
    let mut i: usize = 0;
    while i < n
        invariant
            i <= n,
            n == values@.len(),
            out@.len() == old(out)@.len() + 4 * i,
            forall|j: int| 0 <= j < old(out)@.len() ==> out@[j] == old(out)@[j],
            forall|j: int| 0 <= j < 4 * i ==> out@[old(out)@.len() + j] == dwords_le(values@)[j],
        decreases n - i,
    {
        out.push(u32_byte(values[i], 0));
        out.push(u32_byte(values[i], 1));
        out.push(u32_byte(values[i], 2));
        out.push(u32_byte(values[i], 3));
        i = i + 1;
    }
    assert(out@ =~= old(out)@ + dwords_le(values@));
}

/// A mask bounds what it lets through.
pub proof fn lemma_mask_u32(x: u32, m: u32)
    by (bit_vector)
    ensures
        x & m <= m,
        x & m <= x,
{
}

pub proof fn lemma_mask_u16(x: u16, m: u16)
    by (bit_vector)
    ensures
        x & m <= m,
        x & m <= x,
{
}

} // verus!
