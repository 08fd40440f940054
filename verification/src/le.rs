//! Little-endian byte images of fixed-width integers, as they lie in memory
//! on the targets the exchange zone is used on.

use vstd::prelude::*;

verus! {

/// The two bytes of `x`, least significant first.
pub open spec fn u16_le(x: u16) -> Seq<u8> {
    seq![(x & 0xff) as u8, ((x >> 8) & 0xff) as u8]
}

/// The four bytes of `x`, least significant first.
pub open spec fn u32_le(x: u32) -> Seq<u8> {
    seq![
        (x & 0xff) as u8,
        ((x >> 8) & 0xff) as u8,
        ((x >> 16) & 0xff) as u8,
        ((x >> 24) & 0xff) as u8,
    ]
}

/// The eight bytes of `x`, least significant first.
pub open spec fn u64_le(x: u64) -> Seq<u8> {
    seq![
        (x & 0xff) as u8,
        ((x >> 8) & 0xff) as u8,
        ((x >> 16) & 0xff) as u8,
        ((x >> 24) & 0xff) as u8,
        ((x >> 32) & 0xff) as u8,
        ((x >> 40) & 0xff) as u8,
        ((x >> 48) & 0xff) as u8,
        ((x >> 56) & 0xff) as u8,
    ]
}

/// The 16-bit value whose bytes, least significant first, are `b0, b1`.
pub open spec fn u16_from(b0: u8, b1: u8) -> u16 {
    (b0 as u16) | ((b1 as u16) << 8)
}

/// The 32-bit value whose bytes, least significant first, are `b0 .. b3`.
pub open spec fn u32_from(b0: u8, b1: u8, b2: u8, b3: u8) -> u32 {
    (b0 as u32) | ((b1 as u32) << 8) | ((b2 as u32) << 16) | ((b3 as u32) << 24)
}

/// The 64-bit value whose bytes, least significant first, are `b0 .. b7`.
pub open spec fn u64_from(b0: u8, b1: u8, b2: u8, b3: u8, b4: u8, b5: u8, b6: u8, b7: u8) -> u64 {
    (b0 as u64) | ((b1 as u64) << 8) | ((b2 as u64) << 16) | ((b3 as u64) << 24) | ((b4 as u64)
        << 32) | ((b5 as u64) << 40) | ((b6 as u64) << 48) | ((b7 as u64) << 56)
}

/// The 16-bit value stored little-endian in `s` from index `i`.
pub open spec fn u16_at(s: Seq<u8>, i: int) -> u16 {
    u16_from(s[i], s[i + 1])
}

/// The 32-bit value stored little-endian in `s` from index `i`.
pub open spec fn u32_at(s: Seq<u8>, i: int) -> u32 {
    u32_from(s[i], s[i + 1], s[i + 2], s[i + 3])
}

/// The 64-bit value stored little-endian in `s` from index `i`.
pub open spec fn u64_at(s: Seq<u8>, i: int) -> u64 {
    u64_from(s[i], s[i + 1], s[i + 2], s[i + 3], s[i + 4], s[i + 5], s[i + 6], s[i + 7])
}

/// Reading back the image of a 16-bit value gives the value, and reading
/// two bytes then taking their image gives the bytes.
pub proof fn lemma_u16_le(x: u16, s: Seq<u8>, i: int)
    ensures
        u16_le(x).len() == 2,
        u16_at(u16_le(x), 0) == x,
        0 <= i && i + 2 <= s.len() ==> u16_le(u16_at(s, i)) == s.subrange(i, i + 2),
{
    assert(u16_from((x & 0xff) as u8, ((x >> 8) & 0xff) as u8) == x) by (bit_vector);
    if 0 <= i && i + 2 <= s.len() {
        let b0 = s[i];
        let b1 = s[i + 1];
        let v = u16_from(b0, b1);
        assert((v & 0xff) as u8 == b0 && ((v >> 8) & 0xff) as u8 == b1) by (bit_vector)
            requires
                v == u16_from(b0, b1),
        ;
        assert(u16_le(v) =~= s.subrange(i, i + 2));
    }
}

/// Reading back the image of a 32-bit value gives the value, and reading
/// four bytes then taking their image gives the bytes.
pub proof fn lemma_u32_le(x: u32, s: Seq<u8>, i: int)
    ensures
        u32_le(x).len() == 4,
        u32_at(u32_le(x), 0) == x,
        0 <= i && i + 4 <= s.len() ==> u32_le(u32_at(s, i)) == s.subrange(i, i + 4),
{
    assert(u32_from(
        (x & 0xff) as u8,
        ((x >> 8) & 0xff) as u8,
        ((x >> 16) & 0xff) as u8,
        ((x >> 24) & 0xff) as u8,
    ) == x) by (bit_vector);
    if 0 <= i && i + 4 <= s.len() {
        let b0 = s[i];
        let b1 = s[i + 1];
        let b2 = s[i + 2];
        let b3 = s[i + 3];
        let v = u32_from(b0, b1, b2, b3);
        assert((v & 0xff) as u8 == b0 && ((v >> 8) & 0xff) as u8 == b1 && ((v >> 16) & 0xff) as u8
            == b2 && ((v >> 24) & 0xff) as u8 == b3) by (bit_vector)
            requires
                v == u32_from(b0, b1, b2, b3),
        ;
        assert(u32_le(v) =~= s.subrange(i, i + 4));
    }
}

/// Reading back the image of a 64-bit value gives the value, and reading
/// eight bytes then taking their image gives the bytes.
pub proof fn lemma_u64_le(x: u64, s: Seq<u8>, i: int)
    ensures
        u64_le(x).len() == 8,
        u64_at(u64_le(x), 0) == x,
        0 <= i && i + 8 <= s.len() ==> u64_le(u64_at(s, i)) == s.subrange(i, i + 8),
{
    assert(u64_from(
        (x & 0xff) as u8,
        ((x >> 8) & 0xff) as u8,
        ((x >> 16) & 0xff) as u8,
        ((x >> 24) & 0xff) as u8,
        ((x >> 32) & 0xff) as u8,
        ((x >> 40) & 0xff) as u8,
        ((x >> 48) & 0xff) as u8,
        ((x >> 56) & 0xff) as u8,
    ) == x) by (bit_vector);
    if 0 <= i && i + 8 <= s.len() {
        let b0 = s[i];
        let b1 = s[i + 1];
        let b2 = s[i + 2];
        let b3 = s[i + 3];
        let b4 = s[i + 4];
        let b5 = s[i + 5];
        let b6 = s[i + 6];
        let b7 = s[i + 7];
        let v = u64_from(b0, b1, b2, b3, b4, b5, b6, b7);
        assert((v & 0xff) as u8 == b0 && ((v >> 8) & 0xff) as u8 == b1 && ((v >> 16) & 0xff) as u8
            == b2 && ((v >> 24) & 0xff) as u8 == b3 && ((v >> 32) & 0xff) as u8 == b4 && ((v >> 40)
            & 0xff) as u8 == b5 && ((v >> 48) & 0xff) as u8 == b6 && ((v >> 56) & 0xff) as u8 == b7)
            by (bit_vector)
            requires
                v == u64_from(b0, b1, b2, b3, b4, b5, b6, b7),
        ;
        assert(u64_le(v) =~= s.subrange(i, i + 8));
    }
}

/// The natural number whose base-256 digits, least significant first, are
/// the bytes of `s`.
pub open spec fn le_value(s: Seq<u8>) -> nat
    decreases s.len(),
{
    if s.len() == 0 {
        0
    } else {
        s[0] as nat + 256 * le_value(s.drop_first())
    }
}

/// The value of four bytes, spelled out.
proof fn lemma_le_value_4(t: Seq<u8>)
    requires
        t.len() == 4,
    ensures
        le_value(t) == t[0] as nat + 256 * (t[1] as nat + 256 * (t[2] as nat + 256 * (t[3] as nat))),
{
    let t1 = t.drop_first();
    let t2 = t1.drop_first();
    let t3 = t2.drop_first();
    let t4 = t3.drop_first();
    assert(t4.len() == 0);
    assert(le_value(t4) == 0);
    assert(le_value(t3) == t[3] as nat + 256 * le_value(t4));
    assert(le_value(t2) == t[2] as nat + 256 * le_value(t3));
    assert(le_value(t1) == t[1] as nat + 256 * le_value(t2));
}

/// The value of eight bytes, spelled out.
proof fn lemma_le_value_8(t: Seq<u8>)
    requires
        t.len() == 8,
    ensures
        le_value(t) == t[0] as nat + 256 * (t[1] as nat + 256 * (t[2] as nat + 256 * (t[3] as nat
            + 256 * (t[4] as nat + 256 * (t[5] as nat + 256 * (t[6] as nat + 256 * (t[7] as nat))))))),
{
    let t1 = t.drop_first();
    let t2 = t1.drop_first();
    let t3 = t2.drop_first();
    let t4 = t3.drop_first();
    let t5 = t4.drop_first();
    let t6 = t5.drop_first();
    let t7 = t6.drop_first();
    let t8 = t7.drop_first();
    assert(t8.len() == 0);
    assert(le_value(t8) == 0);
    assert(le_value(t7) == t[7] as nat + 256 * le_value(t8));
    assert(le_value(t6) == t[6] as nat + 256 * le_value(t7));
    assert(le_value(t5) == t[5] as nat + 256 * le_value(t6));
    assert(le_value(t4) == t[4] as nat + 256 * le_value(t5));
    assert(le_value(t3) == t[3] as nat + 256 * le_value(t4));
    assert(le_value(t2) == t[2] as nat + 256 * le_value(t3));
    assert(le_value(t1) == t[1] as nat + 256 * le_value(t2));
}

/// The 16-bit value read at `i` is the base-256 value of the two bytes there.
pub proof fn lemma_u16_value(s: Seq<u8>, i: int)
    requires
        0 <= i,
        i + 2 <= s.len(),
    ensures
        u16_at(s, i) as nat == le_value(s.subrange(i, i + 2)),
{
    let t = s.subrange(i, i + 2);
    let t1 = t.drop_first();
    let t2 = t1.drop_first();
    assert(le_value(t2) == 0);
    assert(le_value(t1) == t[1] as nat + 256 * le_value(t2));
    let b0 = s[i];
    let b1 = s[i + 1];
    assert(u16_from(b0, b1) as int == b0 as int + 256 * (b1 as int)) by (bit_vector);
}

/// The 32-bit value read at `i` is the base-256 value of the four bytes there.
pub proof fn lemma_u32_value(s: Seq<u8>, i: int)
    requires
        0 <= i,
        i + 4 <= s.len(),
    ensures
        u32_at(s, i) as nat == le_value(s.subrange(i, i + 4)),
{
    lemma_le_value_4(s.subrange(i, i + 4));
    let b0 = s[i];
    let b1 = s[i + 1];
    let b2 = s[i + 2];
    let b3 = s[i + 3];
    assert(u32_from(b0, b1, b2, b3) as int == b0 as int + 256 * (b1 as int + 256 * (b2 as int + 256
        * (b3 as int)))) by (bit_vector);
}

/// The 64-bit value read at `i` is the base-256 value of the eight bytes
/// there.
pub proof fn lemma_u64_value(s: Seq<u8>, i: int)
    requires
        0 <= i,
        i + 8 <= s.len(),
    ensures
        u64_at(s, i) as nat == le_value(s.subrange(i, i + 8)),
{
    lemma_le_value_8(s.subrange(i, i + 8));
    let b0 = s[i];
    let b1 = s[i + 1];
    let b2 = s[i + 2];
    let b3 = s[i + 3];
    let b4 = s[i + 4];
    let b5 = s[i + 5];
    let b6 = s[i + 6];
    let b7 = s[i + 7];
    assert(u64_from(b0, b1, b2, b3, b4, b5, b6, b7) as int == b0 as int + 256 * (b1 as int + 256 * (
    b2 as int + 256 * (b3 as int + 256 * (b4 as int + 256 * (b5 as int + 256 * (b6 as int + 256 * (
    b7 as int)))))))) by (bit_vector);
}

/// The base-256 value of the image of a 16-bit value is the value.
pub proof fn lemma_u16_le_value(x: u16)
    ensures
        le_value(u16_le(x)) == x as nat,
{
    lemma_u16_le(x, u16_le(x), 0);
    lemma_u16_value(u16_le(x), 0);
    assert(u16_le(x).subrange(0, 2) =~= u16_le(x));
}

/// The base-256 value of the image of a 32-bit value is the value.
pub proof fn lemma_u32_le_value(x: u32)
    ensures
        le_value(u32_le(x)) == x as nat,
{
    lemma_u32_le(x, u32_le(x), 0);
    lemma_u32_value(u32_le(x), 0);
    assert(u32_le(x).subrange(0, 4) =~= u32_le(x));
}

/// The base-256 value of the image of a 64-bit value is the value.
pub proof fn lemma_u64_le_value(x: u64)
    ensures
        le_value(u64_le(x)) == x as nat,
{
    lemma_u64_le(x, u64_le(x), 0);
    lemma_u64_value(u64_le(x), 0);
    assert(u64_le(x).subrange(0, 8) =~= u64_le(x));
}

} // verus!
