//! Where the fields of the exchanged objects lie in the exchange zone.

use vstd::prelude::*;

use crate::area::{splice, ExchangeArea, EXCHANGE_AREA_LEN};
use crate::le::{
    lemma_u16_le, lemma_u32_le, lemma_u64_le, u16_at, u16_le, u32_at, u32_le, u64_at, u64_le,
};
use crate::systypes::{ExchangeHeader, ShmInfo, HEADER_LEN};

verus! {

broadcast use crate::area::lemma_area_len;

/// Whether a `usize` takes eight bytes on the target (else it takes four).
pub open spec fn wide_usize() -> bool {
    usize::BITS == 64
}

/// Size in bytes of a `usize` on the target.
pub open spec fn usize_len() -> int {
    if wide_usize() {
        8
    } else {
        4
    }
}

/// The bytes of a `usize` as it lies in memory on the target.
pub open spec fn usize_le(x: usize) -> Seq<u8> {
    if wide_usize() {
        u64_le(x as u64)
    } else {
        u32_le(x as u32)
    }
}

/// The `usize` stored in `s` from index `i` on the target.
pub open spec fn usize_at(s: Seq<u8>, i: int) -> usize {
    if wide_usize() {
        u64_at(s, i) as usize
    } else {
        u32_at(s, i) as usize
    }
}

/// Size in bytes of a `ShmInfo`: thirty-two where a `usize` takes eight
/// bytes (four of them trailing padding), twenty where it takes four.
pub open spec fn shm_info_len() -> int {
    if wide_usize() {
        32
    } else {
        20
    }
}

/// The eight bytes of an event header as it lies in the exchange zone.
pub open spec fn header_image(h: ExchangeHeader) -> Seq<u8> {
    seq![h.event, h.length] + u16_le(h.magic) + u32_le(h.peer)
}

/// The event header held by the first eight bytes of `area`.
pub open spec fn header_at(area: Seq<u8>) -> ExchangeHeader {
    ExchangeHeader { event: area[0], length: area[1], magic: u16_at(area, 2), peer: u32_at(area, 4) }
}

/// The bytes of a `ShmInfo` as it lies in memory (C layout): `handle`,
/// `label`, `base`, `len`, `perms`, and on a target with eight-byte `usize`
/// four bytes of trailing padding, written as zeros.
pub open spec fn shm_info_image(info: ShmInfo) -> Seq<u8> {
    u32_le(info.handle) + u32_le(info.label) + usize_le(info.base) + usize_le(info.len) + u32_le(
        info.perms,
    ) + if wide_usize() {
        seq![0u8, 0u8, 0u8, 0u8]
    } else {
        Seq::<u8>::empty()
    }
}

/// The `ShmInfo` held by the first bytes of `area`.
pub open spec fn shm_info_at(area: Seq<u8>) -> ShmInfo {
    ShmInfo {
        handle: u32_at(area, 0),
        label: u32_at(area, 4),
        base: usize_at(area, 8),
        len: usize_at(area, 8 + usize_len()),
        perms: u32_at(area, 8 + 2 * usize_len()),
    }
}

/// Reading a header back from where it was written gives the header.
pub proof fn lemma_header_roundtrip(area: Seq<u8>, h: ExchangeHeader)
    requires
        area.len() == EXCHANGE_AREA_LEN,
    ensures
        header_image(h).len() == HEADER_LEN,
        header_at(splice(area, 0, header_image(h))) == h,
{
    let s = splice(area, 0, header_image(h));
    lemma_u16_le(h.magic, s, 0);
    lemma_u32_le(h.peer, s, 0);
    assert(s.subrange(2, 4) =~= u16_le(h.magic));
    assert(s.subrange(4, 8) =~= u32_le(h.peer));
    lemma_u16_le(u16_at(s, 2), s, 2);
    lemma_u32_le(u32_at(s, 4), s, 4);
}

/// Reading a `usize` back from where it was written gives the value.
pub proof fn lemma_usize_le(x: usize, s: Seq<u8>, i: int)
    requires
        0 <= i,
        i + usize_len() <= s.len(),
        s.subrange(i, i + usize_len()) == usize_le(x),
    ensures
        usize_le(x).len() == usize_len(),
        usize_at(s, i) == x,
{
    if wide_usize() {
        lemma_u64_le(x as u64, s, i);
        lemma_u64_le(u64_at(s, i), s, i);
        assert(u64_le(u64_at(s, i)) == u64_le(x as u64));
        lemma_u64_le(x as u64, u64_le(x as u64), 0);
        lemma_u64_le(u64_at(s, i), u64_le(u64_at(s, i)), 0);
    } else {
        lemma_u32_le(x as u32, s, i);
        lemma_u32_le(u32_at(s, i), s, i);
        assert(u32_le(u32_at(s, i)) == u32_le(x as u32));
        lemma_u32_le(x as u32, u32_le(x as u32), 0);
        lemma_u32_le(u32_at(s, i), u32_le(u32_at(s, i)), 0);
    }
}

/// Reading a `ShmInfo` back from where it was written gives the value.
pub proof fn lemma_shm_info_roundtrip(area: Seq<u8>, info: ShmInfo)
    requires
        area.len() == EXCHANGE_AREA_LEN,
    ensures
        shm_info_image(info).len() == shm_info_len(),
        shm_info_at(splice(area, 0, shm_info_image(info))) == info,
{
    let s = splice(area, 0, shm_info_image(info));
    let w = usize_len();
    lemma_u32_le(info.handle, s, 0);
    lemma_u32_le(info.label, s, 0);
    lemma_u32_le(info.perms, s, 0);
    lemma_usize_le(info.base, usize_le(info.base), 0);
    assert(usize_le(info.base).subrange(0, w) =~= usize_le(info.base));
    assert(s.subrange(0, 4) =~= u32_le(info.handle));
    assert(s.subrange(4, 8) =~= u32_le(info.label));
    assert(s.subrange(8, 8 + w) =~= usize_le(info.base));
    assert(s.subrange(8 + w, 8 + 2 * w) =~= usize_le(info.len));
    assert(s.subrange(8 + 2 * w, 12 + 2 * w) =~= u32_le(info.perms));
    lemma_usize_le(info.base, s, 8);
    lemma_usize_le(info.len, s, 8 + w);
    lemma_u32_le(u32_at(s, 0), s, 0);
    lemma_u32_le(u32_at(s, 4), s, 4);
    lemma_u32_le(u32_at(s, 8 + 2 * w), s, 8 + 2 * w);
}

/// Reads the event header at the start of the zone.
pub fn read_header(area: &ExchangeArea) -> (h: ExchangeHeader)
    ensures
        h == header_at(area@),
{
    ExchangeHeader {
        event: area.get_u8(0),
        length: area.get_u8(1),
        magic: area.get_u16(2),
        peer: area.get_u32(4),
    }
}

/// Writes an event header at the start of the zone.
pub fn write_header(area: &mut ExchangeArea, h: &ExchangeHeader)
    ensures
        final(area)@ == splice(old(area)@, 0, header_image(*h)),
        final(area).writes_back() == old(area).writes_back(),
{
    let ghost start = area@;
    area.put_u8(0, h.event);
    area.put_u8(1, h.length);
    area.put_u16(2, h.magic);
    area.put_u32(4, h.peer);
    assert(area@ =~= splice(start, 0, header_image(*h)));
}

/// Reads the `ShmInfo` at the start of the zone.
pub fn read_shm_info(area: &ExchangeArea) -> (info: ShmInfo)
    ensures
        info == shm_info_at(area@),
{
    if usize::BITS == 64 {
        ShmInfo {
            handle: area.get_u32(0),
            label: area.get_u32(4),
            base: area.get_u64(8) as usize,
            len: area.get_u64(16) as usize,
            perms: area.get_u32(24),
        }
    } else {
        ShmInfo {
            handle: area.get_u32(0),
            label: area.get_u32(4),
            base: area.get_u32(8) as usize,
            len: area.get_u32(12) as usize,
            perms: area.get_u32(16),
        }
    }
}

/// Writes a `ShmInfo` at the start of the zone.
pub fn write_shm_info(area: &mut ExchangeArea, info: &ShmInfo)
    ensures
        final(area)@ == splice(old(area)@, 0, shm_info_image(*info)),
        final(area).writes_back() == old(area).writes_back(),
{
    let ghost start = area@;
    area.put_u32(0, info.handle);
    area.put_u32(4, info.label);
    if usize::BITS == 64 {
        area.put_u64(8, info.base as u64);
        area.put_u64(16, info.len as u64);
        area.put_u32(24, info.perms);
        area.put_u32(28, 0);
        assert(((0u32 & 0xff) as u8 == 0u8) && (((0u32 >> 8) & 0xff) as u8 == 0u8) && (((0u32 >> 16)
            & 0xff) as u8 == 0u8) && (((0u32 >> 24) & 0xff) as u8 == 0u8)) by (bit_vector);
    } else {
        area.put_u32(8, info.base as u32);
        area.put_u32(12, info.len as u32);
        area.put_u32(16, info.perms);
    }
    assert(area@ =~= splice(start, 0, shm_info_image(*info)));
}

} // verus!
