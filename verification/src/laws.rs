//! What holds across exchanges: an object sent through a loopback zone is
//! received back unchanged, and what a receive accepts.

use vstd::prelude::*;

use crate::area::{clamp_to_area, EXCHANGE_AREA_LEN};
use crate::exchange::{done, refused, SentryExchangeable};
use crate::layout::{header_at, header_image, lemma_header_roundtrip, lemma_shm_info_roundtrip};
use crate::le::{lemma_u16_le, lemma_u32_le, u16_at, u32_at, u32_le};
use crate::systypes::{Event, ShmHandle, ShmInfo, HEADER_LEN};

verus! {

/// Two zones that agree on their first eight bytes hold the same header.
proof fn lemma_header_at_prefix(a: Seq<u8>, b: Seq<u8>)
    requires
        a.len() >= HEADER_LEN,
        b.len() >= HEADER_LEN,
        forall|i: int| 0 <= i < HEADER_LEN ==> a[i] == b[i],
    ensures
        header_at(a) == header_at(b),
{
    assert(a[0] == b[0] && a[1] == b[1] && a[2] == b[2] && a[3] == b[3]);
    assert(a[4] == b[4] && a[5] == b[5] && a[6] == b[6] && a[7] == b[7]);
}

/// Shared-memory information written to a loopback zone is accepted, and
/// any `ShmInfo` that then receives from the zone holds the information
/// that was written.
pub proof fn law_shm_info_back_to_back(src: ShmInfo, dst: ShmInfo, area: Seq<u8>)
    requires
        area.len() == EXCHANGE_AREA_LEN,
    ensures
        ({
            let (sent, after) = src.spec_to_kernel(area, true);
            &&& sent == done()
            &&& dst.spec_from_kernel(after) == (done(), src)
        }),
{
    lemma_shm_info_roundtrip(area, src);
}

/// A shared-memory handle written to a loopback zone is accepted, and any
/// handle that then receives from the zone equals it.
pub proof fn law_shm_handle_back_to_back(src: ShmHandle, dst: ShmHandle, area: Seq<u8>)
    requires
        area.len() == EXCHANGE_AREA_LEN,
    ensures
        ({
            let (sent, after) = src.spec_to_kernel(area, true);
            &&& sent == done()
            &&& dst.spec_from_kernel(after) == (done(), src)
        }),
{
    let after = src.spec_to_kernel(area, true).1;
    lemma_u32_le(src, after, 0);
    assert(after.subrange(0, 4) =~= u32_le(src));
    lemma_u32_le(u32_at(after, 0), after, 0);
}

/// A handle received from the zone and written back into a loopback zone
/// leaves the zone as it was.
pub proof fn law_shm_handle_written_back(dst: ShmHandle, area: Seq<u8>)
    requires
        area.len() == EXCHANGE_AREA_LEN,
    ensures
        ({
            let (received, got) = dst.spec_from_kernel(area);
            &&& received == done()
            &&& got.spec_to_kernel(area, true) == (done(), area)
        }),
{
    lemma_u32_le(u32_at(area, 0), area, 0);
    let got = dst.spec_from_kernel(area).1;
    assert(got.spec_to_kernel(area, true).1 =~= area);
}

/// Objects that only the kernel produces cannot be written by the task into
/// a zone that is not a loopback one: the write is refused and the zone is
/// left as it was.
pub proof fn law_kernel_objects_not_written_back(info: ShmInfo, handle: ShmHandle, area: Seq<u8>)
    ensures
        info.spec_to_kernel(area, false) == (refused(), area),
        handle.spec_to_kernel(area, false) == (refused(), area),
{
}

/// A valid event written whole to a loopback zone, whose header announces
/// no more data than the event holds and the zone can carry, is accepted;
/// an event with room for that data then receives it: the same header, and
/// the same first `length` bytes of data.
pub proof fn law_event_back_to_back(src: Event, dst: Event, area: Seq<u8>)
    requires
        area.len() == EXCHANGE_AREA_LEN,
        src.header.valid(),
        src.header.length <= src@.data.len(),
        HEADER_LEN + src.header.length <= EXCHANGE_AREA_LEN,
        src.header.length <= dst@.data.len(),
    ensures
        ({
            let (sent, after) = src.spec_to_kernel(area, true);
            let (received, got) = dst.spec_from_kernel(after);
            let len = src.header.length as int;
            &&& sent == done()
            &&& received == done()
            &&& got.header == src.header
            &&& got.data.len() == dst@.data.len()
            &&& got.data.take(len) == src@.data.take(len)
        }),
{
    let len = src.header.length as int;
    let with_header = crate::area::splice(area, 0, header_image(src.header));
    lemma_header_roundtrip(area, src.header);
    let after = src.spec_to_kernel(area, true).1;
    lemma_header_at_prefix(after, with_header);
    let got = dst.spec_from_kernel(after).1;
    assert(got.data.take(len) =~= src@.data.take(len));
}

/// A valid event sent whole through a loopback zone is accepted only when
/// its header announces no more data than the event holds and the zone can
/// carry; in every case the zone then starts with the event's header.
pub proof fn law_event_sent_fits(src: Event, area: Seq<u8>)
    requires
        area.len() == EXCHANGE_AREA_LEN,
    ensures
        ({
            let (sent, after) = src.spec_to_kernel(area, true);
            &&& sent == done() <==> (src.header.length <= src@.data.len() && HEADER_LEN
                + src.header.length <= EXCHANGE_AREA_LEN)
            &&& header_at(after) == src.header
        }),
{
    lemma_header_roundtrip(area, src.header);
    let with_header = crate::area::splice(area, 0, header_image(src.header));
    let after = src.spec_to_kernel(area, true).1;
    lemma_header_at_prefix(after, with_header);
}

/// An event receive that succeeds leaves in the event the valid header the
/// kernel forged in the zone, whose data fit both the zone and the event,
/// and that data.
pub proof fn law_event_received_is_valid(dst: Event, area: Seq<u8>)
    requires
        area.len() == EXCHANGE_AREA_LEN,
    ensures
        ({
            let (received, got) = dst.spec_from_kernel(area);
            let h = header_at(area);
            received == done() ==> {
                &&& got.header == h
                &&& got.header.valid()
                &&& HEADER_LEN + h.length <= EXCHANGE_AREA_LEN
                &&& h.length <= dst@.data.len()
                &&& got.data.take(h.length as int) == area.subrange(
                    HEADER_LEN as int,
                    HEADER_LEN + h.length,
                )
            }
        }),
{
    let (received, got) = dst.spec_from_kernel(area);
    let h = header_at(area);
    if received == done() {
        assert(got.data.take(h.length as int) =~= area.subrange(
            HEADER_LEN as int,
            HEADER_LEN + h.length,
        ));
    }
}

/// A received event header, written back, gives the zone's first eight
/// bytes again.
pub proof fn law_header_image_of_zone(area: Seq<u8>)
    requires
        area.len() == EXCHANGE_AREA_LEN,
    ensures
        header_image(header_at(area)) == area.take(HEADER_LEN as int),
{
    lemma_u16_le(u16_at(area, 2), area, 2);
    lemma_u32_le(u32_at(area, 4), area, 4);
    assert(header_image(header_at(area)) =~= area.take(HEADER_LEN as int));
}

/// Bytes sent from one buffer and received into another: the receiver's
/// first bytes, as many as both buffers and the zone hold, are the sender's;
/// its other bytes and its length are unchanged.
pub proof fn law_bytes_back_to_back(src: &[u8], dst: &[u8], area: Seq<u8>, loopback: bool)
    requires
        area.len() == EXCHANGE_AREA_LEN,
    ensures
        ({
            let (sent, after) = src.spec_to_kernel(area, loopback);
            let (received, got) = dst.spec_from_kernel(after);
            let n = if src@.len() < dst@.len() {
                clamp_to_area(src@.len())
            } else {
                clamp_to_area(dst@.len())
            };
            &&& sent == done()
            &&& received == done()
            &&& got.len() == dst@.len()
            &&& got.take(n as int) == src@.take(n as int)
            &&& got.skip(clamp_to_area(dst@.len()) as int) == dst@.skip(
                clamp_to_area(dst@.len()) as int,
            )
        }),
{
    let (sent, after) = src.spec_to_kernel(area, loopback);
    let (received, got) = dst.spec_from_kernel(after);
    let n = if src@.len() < dst@.len() {
        clamp_to_area(src@.len())
    } else {
        clamp_to_area(dst@.len())
    };
    assert(got.take(n as int) =~= src@.take(n as int));
    assert(got.skip(clamp_to_area(dst@.len()) as int) =~= dst@.skip(
        clamp_to_area(dst@.len()) as int,
    ));
}

} // verus!
