//! What each exchange does, stated over the bytes of the zone: where every
//! field is read from or written to, what each result depends on, and which
//! bytes are left alone.

use vstd::prelude::*;

use crate::area::EXCHANGE_AREA_LEN;
use crate::exchange::SentryExchangeable;
use crate::layout::header_at;
use crate::le::{le_value, lemma_u16_value, lemma_u32_value};
use crate::systypes::{event_type_value, Event, EventType, ExchangeHeader, ShmHandle, ShmInfo, Status};

verus! {

/// The zone is 128 bytes long, and event kinds carry the bit-flag values
/// 0 (none), 1 (IPC), 2 (signal), 4 (IRQ), 8 (DMA) and 15 (all).
pub proof fn law_zone_size_and_event_kinds()
    ensures
        EXCHANGE_AREA_LEN == 128,
        event_type_value(EventType::NoEvent) == 0,
        event_type_value(EventType::Ipc) == 1,
        event_type_value(EventType::Signal) == 2,
        event_type_value(EventType::Irq) == 4,
        event_type_value(EventType::Dma) == 8,
        event_type_value(EventType::All) == 15,
{
}

/// The header read from a zone (as `ExchangeHeader::from_exchange` gives
/// it) has its kind at byte 0, its length at byte 1, its magic in bytes
/// 2..4 and its peer in bytes 4..8, little-endian.
pub proof fn law_header_read(area: Seq<u8>)
    requires
        area.len() == EXCHANGE_AREA_LEN,
    ensures
        header_at(area).event == area[0],
        header_at(area).length == area[1],
        header_at(area).magic as nat == le_value(area.subrange(2, 4)),
        header_at(area).peer as nat == le_value(area.subrange(4, 8)),
{
    lemma_u16_value(area, 2);
    lemma_u32_value(area, 4);
}

/// A header is valid exactly when its magic number is `0x4242`.
pub proof fn law_header_valid_iff_magic(h: ExchangeHeader)
    ensures
        h.valid() <==> h.magic == 0x4242,
{
}

/// The zone holds a header written by the kernel: its magic bytes are both
/// `0x42`.
pub open spec fn kernel_magic_in(area: Seq<u8>) -> bool {
    area[2] == 0x42 && area[3] == 0x42
}

/// Receiving an event from a zone:
/// - without the kernel's magic in the zone, it is refused and the event is
///   left as it was;
/// - otherwise the event takes the zone's header (kind at byte 0, length at
///   byte 1, peer in bytes 4..8), and it succeeds exactly when the announced
///   data fit both the zone after the header and the event's buffer; then
///   the buffer's first `length` bytes are the zone's bytes from index 8 on,
///   and its other bytes and its size are kept; when refused, the buffer is
///   left as it was.
pub proof fn law_event_receive(dst: Event, area: Seq<u8>)
    requires
        area.len() == EXCHANGE_AREA_LEN,
    ensures
        ({
            let (r, got) = dst.spec_from_kernel(area);
            let len = area[1] as int;
            &&& r == Ok::<Status, Status>(Status::Success) || r == Err::<Status, Status>(Status::Invalid)
            &&& !kernel_magic_in(area) ==> r == Err::<Status, Status>(Status::Invalid) && got == dst@
            &&& kernel_magic_in(area) ==> {
                &&& got.header.event == area[0]
                &&& got.header.length == area[1]
                &&& got.header.magic == 0x4242
                &&& got.header.peer as nat == le_value(area.subrange(4, 8))
                &&& (r == Ok::<Status, Status>(Status::Success) <==> 8 + len <= 128 && len <= dst@.data.len())
            }
            &&& r == Err::<Status, Status>(Status::Invalid) ==> got.data == dst@.data
            &&& r == Ok::<Status, Status>(Status::Success) ==> {
                &&& got.data.len() == dst@.data.len()
                &&& forall|i: int| 0 <= i < len ==> got.data[i] == area[8 + i]
                &&& forall|i: int| len <= i < dst@.data.len() ==> got.data[i] == dst@.data[i]
            }
        }),
{
    lemma_u16_value(area, 2);
    lemma_u32_value(area, 4);
    let h = header_at(area);
    assert(h.magic == 0x4242 <==> kernel_magic_in(area)) by {
        let t = area.subrange(2, 4);
        let t1 = t.drop_first();
        let t2 = t1.drop_first();
        assert(t2.len() == 0);
        assert(crate::le::le_value(t2) == 0);
        assert(le_value(t1) == t[1] as nat + 256 * le_value(t2));
        assert(le_value(t) == t[0] as nat + 256 * le_value(t1));
    }
}

/// Sending an event through a zone that is not a loopback one: an IPC
/// event (kind `1`) puts its data at the start of the zone, as many bytes
/// as the data and the zone hold, and leaves the other bytes; any other
/// kind is refused and leaves the zone as it was.
pub proof fn law_event_send(e: Event, area: Seq<u8>)
    requires
        area.len() == EXCHANGE_AREA_LEN,
    ensures
        ({
            let (r, after) = e.spec_to_kernel(area, false);
            let n = if e@.data.len() < 128 {
                e@.data.len() as int
            } else {
                128
            };
            &&& e.header.event != 1 ==> r == Err::<Status, Status>(Status::Invalid) && after
                == area
            &&& e.header.event == 1 ==> {
                &&& r == Ok::<Status, Status>(Status::Success)
                &&& after.len() == area.len()
                &&& forall|i: int| 0 <= i < n ==> after[i] == e@.data[i]
                &&& forall|i: int| n <= i < area.len() ==> after[i] == area[i]
            }
        }),
{
}

/// Sending an event whole through a loopback zone: the zone starts with
/// the header (kind at byte 0, length at byte 1, magic in bytes 2..4, peer
/// in bytes 4..8, little-endian); the send succeeds exactly when the
/// announced `length` bytes are in the event's data and fit the zone after
/// the header, and then those bytes follow the header; the rest of the zone
/// is left alone.
pub proof fn law_event_send_whole(e: Event, area: Seq<u8>)
    requires
        area.len() == EXCHANGE_AREA_LEN,
    ensures
        ({
            let (r, after) = e.spec_to_kernel(area, true);
            let len = e.header.length as int;
            let fits = len <= e@.data.len() && 8 + len <= 128;
            &&& after.len() == area.len()
            &&& after[0] == e.header.event
            &&& after[1] == e.header.length
            &&& le_value(after.subrange(2, 4)) == e.header.magic as nat
            &&& le_value(after.subrange(4, 8)) == e.header.peer as nat
            &&& (r == Ok::<Status, Status>(Status::Success) <==> fits)
            &&& !fits ==> r == Err::<Status, Status>(Status::Invalid)
            &&& fits ==> forall|i: int| 0 <= i < len ==> after[8 + i] == e@.data[i]
            &&& forall|i: int| (if fits { 8 + len } else { 8 }) <= i < area.len() ==> after[i]
                == area[i]
        }),
{
    let h = e.header;
    let with_header = crate::area::splice(area, 0, crate::layout::header_image(h));
    let after = e.spec_to_kernel(area, true).1;
    assert(after.subrange(2, 4) =~= crate::le::u16_le(h.magic));
    assert(after.subrange(4, 8) =~= crate::le::u32_le(h.peer));
    crate::le::lemma_u16_le_value(h.magic);
    crate::le::lemma_u32_le_value(h.peer);
}

/// Size in bytes of a `usize` on the target.
pub open spec fn word() -> int {
    if usize::BITS == 64 {
        8
    } else {
        4
    }
}

/// Receiving shared-memory information always succeeds and reads each field
/// at its offset in the C layout, little-endian: `handle` in bytes 0..4,
/// `label` in 4..8, `base` in the next `usize` from byte 8, `len` in the
/// `usize` after it, `perms` in the four bytes after that.
pub proof fn law_shm_info_receive(dst: ShmInfo, area: Seq<u8>)
    requires
        area.len() == EXCHANGE_AREA_LEN,
    ensures
        ({
            let (r, got) = dst.spec_from_kernel(area);
            let w = word();
            &&& r == Ok::<Status, Status>(Status::Success)
            &&& got.handle as nat == le_value(area.subrange(0, 4))
            &&& got.label as nat == le_value(area.subrange(4, 8))
            &&& got.base as nat == le_value(area.subrange(8, 8 + w))
            &&& got.len as nat == le_value(area.subrange(8 + w, 8 + 2 * w))
            &&& got.perms as nat == le_value(area.subrange(8 + 2 * w, 12 + 2 * w))
        }),
{
    let w = word();
    lemma_u32_value(area, 0);
    lemma_u32_value(area, 4);
    lemma_u32_value(area, 8 + 2 * w);
    if usize::BITS == 64 {
        crate::le::lemma_u64_value(area, 8);
        crate::le::lemma_u64_value(area, 16);
    } else {
        lemma_u32_value(area, 8);
        lemma_u32_value(area, 12);
    }
}

/// Sending shared-memory information through a loopback zone succeeds and
/// writes each field at its offset in the C layout, little-endian (see
/// `law_shm_info_receive`), then zeros up to thirty-two bytes where a
/// `usize` takes eight; the rest of the zone is left alone. A zone that is
/// not a loopback one refuses it and is left as it was.
pub proof fn law_shm_info_send(info: ShmInfo, area: Seq<u8>)
    requires
        area.len() == EXCHANGE_AREA_LEN,
    ensures
        ({
            let (r, after) = info.spec_to_kernel(area, true);
            let w = word();
            let size = 12 + 2 * w + (if w == 8 { 4int } else { 0int });
            &&& r == Ok::<Status, Status>(Status::Success)
            &&& after.len() == area.len()
            &&& le_value(after.subrange(0, 4)) == info.handle as nat
            &&& le_value(after.subrange(4, 8)) == info.label as nat
            &&& le_value(after.subrange(8, 8 + w)) == info.base as nat
            &&& le_value(after.subrange(8 + w, 8 + 2 * w)) == info.len as nat
            &&& le_value(after.subrange(8 + 2 * w, 12 + 2 * w)) == info.perms as nat
            &&& forall|i: int| 12 + 2 * w <= i < size ==> after[i] == 0
            &&& forall|i: int| size <= i < area.len() ==> after[i] == area[i]
        }),
        info.spec_to_kernel(area, false) == (Err::<Status, Status>(Status::Invalid), area),
{
    let after = info.spec_to_kernel(area, true).1;
    let w = word();
    crate::layout::lemma_shm_info_roundtrip(area, info);
    law_shm_info_receive(info, after);
    let got = info.spec_from_kernel(after).1;
    assert(got == info);
}

/// Receiving a shared-memory handle always succeeds and reads the four
/// bytes at the start of the zone, little-endian. Sending one through a
/// loopback zone writes it there and leaves the rest; a zone that is not a
/// loopback one refuses it and is left as it was.
pub proof fn law_shm_handle_exchange(h: ShmHandle, area: Seq<u8>)
    requires
        area.len() == EXCHANGE_AREA_LEN,
    ensures
        ({
            let (r, got) = h.spec_from_kernel(area);
            &&& r == Ok::<Status, Status>(Status::Success)
            &&& got as nat == le_value(area.subrange(0, 4))
        }),
        ({
            let (r, after) = h.spec_to_kernel(area, true);
            &&& r == Ok::<Status, Status>(Status::Success)
            &&& after.len() == area.len()
            &&& le_value(after.subrange(0, 4)) == h as nat
            &&& forall|i: int| 4 <= i < area.len() ==> after[i] == area[i]
        }),
        h.spec_to_kernel(area, false) == (Err::<Status, Status>(Status::Invalid), area),
{
    lemma_u32_value(area, 0);
    let after = h.spec_to_kernel(area, true).1;
    assert(after.subrange(0, 4) =~= crate::le::u32_le(h));
    crate::le::lemma_u32_le_value(h);
}

/// Sending a byte buffer, writable or read-only, through any zone
/// succeeds and puts its first bytes at the start of the zone, as many as
/// the buffer and the zone hold, leaving the other bytes. Receiving into a
/// writable buffer succeeds and fills its first bytes, as many as it and
/// the zone hold, from the start of the zone, keeping its size and its
/// other bytes; a read-only buffer refuses to receive and is left as it was.
pub proof fn law_bytes_exchange(s: &[u8], area: Seq<u8>, loopback: bool)
    requires
        area.len() == EXCHANGE_AREA_LEN,
    ensures
        ({
            let n = if s@.len() < 128 {
                s@.len() as int
            } else {
                128
            };
            let (r, after) = <[u8] as SentryExchangeable>::spec_to_kernel(s, area, loopback);
            let (r_ro, after_ro) = <&[u8] as SentryExchangeable>::spec_to_kernel(
                &s,
                area,
                loopback,
            );
            let (r_in, got) = <[u8] as SentryExchangeable>::spec_from_kernel(s, area);
            &&& r == Ok::<Status, Status>(Status::Success)
            &&& after.len() == area.len()
            &&& forall|i: int| 0 <= i < n ==> after[i] == s@[i]
            &&& forall|i: int| n <= i < area.len() ==> after[i] == area[i]
            &&& r_ro == r
            &&& after_ro == after
            &&& r_in == Ok::<Status, Status>(Status::Success)
            &&& got.len() == s@.len()
            &&& forall|i: int| 0 <= i < n ==> got[i] == area[i]
            &&& forall|i: int| n <= i < s@.len() ==> got[i] == s@[i]
            &&& <&[u8] as SentryExchangeable>::spec_from_kernel(&s, area) == (Err::<
                Status,
                Status,
            >(Status::Invalid), s@)
        }),
{
}

} // verus!
