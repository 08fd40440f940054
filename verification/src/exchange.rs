//! Kernel-exchangeable objects: what each of them writes into the exchange
//! zone when sent to the kernel, and what it takes from the zone when it
//! receives the kernel's answer.

use vstd::prelude::*;

pub use crate::area::length;
use crate::area::{clamp_to_area, splice, ExchangeArea, EXCHANGE_AREA_LEN};
use crate::layout::{
    header_at, header_image, read_header, read_shm_info, shm_info_at, shm_info_image,
    write_header, write_shm_info,
};
use crate::le::{u32_at, u32_le};
use crate::systypes::{
    event_type_value, Event, EventType, EventView, ExchangeHeader, ShmHandle, ShmInfo, Status,
    HEADER_LEN,
};

verus! {

broadcast use crate::area::lemma_area_len;

/// Result of an exchange that succeeded.
pub open spec fn done() -> Result<Status, Status> {
    Ok(Status::Success)
}

/// Result of an exchange that was refused.
pub open spec fn refused() -> Result<Status, Status> {
    Err(Status::Invalid)
}

/// The zone after a byte buffer `src` is copied to its start: as many bytes
/// as both hold.
pub open spec fn bytes_into_area(src: Seq<u8>, area: Seq<u8>) -> Seq<u8> {
    splice(area, 0, src.take(clamp_to_area(src.len()) as int))
}

/// A byte buffer `dst` after the start of the zone is copied into it: as
/// many bytes as both hold.
pub open spec fn bytes_from_area(dst: Seq<u8>, area: Seq<u8>) -> Seq<u8> {
    splice(dst, 0, area.take(clamp_to_area(dst.len()) as int))
}

/// An object that can be delivered to, and received from, the kernel
/// through the exchange zone.
pub trait SentryExchangeable: View {
    /// The result of sending `self` through a zone holding `area`, and what
    /// the zone holds afterwards; `loopback` is the zone's mode.
    spec fn spec_to_kernel(&self, area: Seq<u8>, loopback: bool) -> (Result<Status, Status>, Seq<u8>);

    /// The result of receiving into `self` from a zone holding `area`, and
    /// what `self` holds afterwards.
    spec fn spec_from_kernel(&self, area: Seq<u8>) -> (Result<Status, Status>, Self::V);

    /// Copies the object into the exchange zone.
    fn to_kernel(&self, area: &mut ExchangeArea) -> (r: Result<Status, Status>)
        ensures
            (r, final(area)@) == self.spec_to_kernel(old(area)@, old(area).writes_back()),
            final(area).writes_back() == old(area).writes_back(),
    ;

    /// Sets the object from the data the kernel delivered in the exchange
    /// zone.
    fn from_kernel(&mut self, area: &ExchangeArea) -> (r: Result<Status, Status>)
        ensures
            (r, final(self)@) == old(self).spec_from_kernel(area@),
    ;
}

/// Information on a shared-memory region, which the kernel returns to the
/// task using the region. Only a loopback zone lets the task write it back.
impl SentryExchangeable for ShmInfo {
    open spec fn spec_to_kernel(&self, area: Seq<u8>, loopback: bool) -> (
        Result<Status, Status>,
        Seq<u8>,
    ) {
        if loopback {
            (done(), splice(area, 0, shm_info_image(*self)))
        } else {
            (refused(), area)
        }
    }

    open spec fn spec_from_kernel(&self, area: Seq<u8>) -> (Result<Status, Status>, ShmInfo) {
        (done(), shm_info_at(area))
    }

    fn to_kernel(&self, area: &mut ExchangeArea) -> (r: Result<Status, Status>) {
        if area.is_loopback() {
            write_shm_info(area, self);
            Ok(Status::Success)
        } else {
            Err(Status::Invalid)
        }
    }

    fn from_kernel(&mut self, area: &ExchangeArea) -> (r: Result<Status, Status>) {
        *self = read_shm_info(area);
        Ok(Status::Success)
    }
}

/// A shared-memory handle, which the kernel returns to a task. Only a
/// loopback zone lets the task write it back.
impl SentryExchangeable for ShmHandle {
    open spec fn spec_to_kernel(&self, area: Seq<u8>, loopback: bool) -> (
        Result<Status, Status>,
        Seq<u8>,
    ) {
        if loopback {
            (done(), splice(area, 0, u32_le(*self)))
        } else {
            (refused(), area)
        }
    }

    open spec fn spec_from_kernel(&self, area: Seq<u8>) -> (Result<Status, Status>, u32) {
        (done(), u32_at(area, 0))
    }

    fn to_kernel(&self, area: &mut ExchangeArea) -> (r: Result<Status, Status>) {
        if area.is_loopback() {
            area.put_u32(0, *self);
            Ok(Status::Success)
        } else {
            Err(Status::Invalid)
        }
    }

    fn from_kernel(&mut self, area: &ExchangeArea) -> (r: Result<Status, Status>) {
        *self = area.get_u32(0);
        Ok(Status::Success)
    }
}

impl ExchangeHeader {
    /// The header held at the start of the exchange zone.
    fn from_addr(area: &ExchangeArea) -> (r: Option<ExchangeHeader>)
        ensures
            r == Some(header_at(area@)),
    {
        Some(read_header(area))
    }

    /// The header held at the start of the exchange zone, whatever `self`
    /// holds.
    pub fn from_exchange(self, area: &ExchangeArea) -> (r: Option<ExchangeHeader>)
        ensures
            r == Some(header_at(area@)),
    {
        Self::from_addr(area)
    }
}

/// The content of an event after it received the header `h` and the data
/// that follow it in a zone holding `area`.
pub open spec fn event_data_from_area(data: Seq<u8>, h: ExchangeHeader, area: Seq<u8>) -> Seq<
    u8,
> {
    splice(data, 0, area.subrange(HEADER_LEN as int, HEADER_LEN + h.length))
}

/// Events hold the header forged by the kernel and the data that come with
/// it. The task receives them; it sends one only as an IPC, which puts the
/// event's data in the zone. On a loopback zone an event is written whole:
/// its header, then as many bytes of data as the header says.
impl<'a> SentryExchangeable for Event<'a> {
    open spec fn spec_to_kernel(&self, area: Seq<u8>, loopback: bool) -> (
        Result<Status, Status>,
        Seq<u8>,
    ) {
        if loopback {
            let with_header = splice(area, 0, header_image(self.header));
            let len = self.header.length as int;
            if len > (*self.data)@.len() || HEADER_LEN + len > EXCHANGE_AREA_LEN {
                (refused(), with_header)
            } else {
                (done(), splice(with_header, HEADER_LEN as int, (*self.data)@.take(len)))
            }
        } else if self.header.event == event_type_value(EventType::Ipc) {
            (done(), bytes_into_area((*self.data)@, area))
        } else {
            (refused(), area)
        }
    }

    open spec fn spec_from_kernel(&self, area: Seq<u8>) -> (Result<Status, Status>, EventView) {
        let h = header_at(area);
        let len = h.length as int;
        if !h.valid() {
            (refused(), self@)
        } else if HEADER_LEN + len > EXCHANGE_AREA_LEN || len > (*self.data)@.len() {
            (refused(), EventView { header: h, data: (*self.data)@ })
        } else {
            (done(), EventView { header: h, data: event_data_from_area((*self.data)@, h, area) })
        }
    }

    fn to_kernel(&self, area: &mut ExchangeArea) -> (r: Result<Status, Status>) {
        if area.is_loopback() {
            write_header(area, &self.header);
            let len = self.header.length as usize;
            if len > self.data.len() {
                return Err(Status::Invalid);
            }
            if len > EXCHANGE_AREA_LEN - HEADER_LEN {
                return Err(Status::Invalid);
            }
            area.write_bytes(HEADER_LEN, &*self.data, len);
            Ok(Status::Success)
        } else {
            let ipc: u8 = EventType::Ipc.into();
            if self.header.event == ipc {
                (*self.data).to_kernel(area)
            } else {
                Err(Status::Invalid)
            }
        }
    }

    fn from_kernel(&mut self, area: &ExchangeArea) -> (r: Result<Status, Status>) {
        let k_header = match ExchangeHeader::from_addr(area) {
            Some(h) => h,
            None => return Err(Status::Invalid),
        };
        if !k_header.is_valid() {
            return Err(Status::Invalid);
        }
        self.header.peer = k_header.peer;
        self.header.magic = k_header.magic;
        self.header.length = k_header.length;
        self.header.event = k_header.event;
        let header_len = HEADER_LEN;
        let len = self.header.length as usize;
        // the length is set by the kernel, yet the zone must hold the data it announces
        if header_len + len > EXCHANGE_AREA_LEN {
            return Err(Status::Invalid);
        }
        if len > EXCHANGE_AREA_LEN - header_len {
            return Err(Status::Invalid);
        }
        // the destination must have room for all the data delivered
        if len > self.data.len() {
            return Err(Status::Invalid);
        }
        let ghost data0 = (*self.data)@;
        let mut k: usize = 0;
        while k < len
            invariant
                k <= len,
                len <= (*self.data)@.len(),
                header_len + len <= EXCHANGE_AREA_LEN,
                header_len == HEADER_LEN,
                k_header == header_at(area@),
                self.header == k_header,
                len == k_header.length,
                (*self.data)@.len() == data0.len(),
                forall|i: int| 0 <= i < k ==> (*self.data)@[i] == area@[header_len + i],
                forall|i: int| k <= i < data0.len() ==> (*self.data)@[i] == data0[i],
            decreases len - k,
        {
            let b = area.get_u8(header_len + k);
            self.data[k] = b;
            k = k + 1;
        }
        assert((*self.data)@ =~= event_data_from_area(data0, self.header, area@));
        assert(self@ =~= EventView { header: k_header, data: event_data_from_area(data0, k_header, area@) });
        Ok(Status::Success)
    }
}

/// A byte buffer the task can write into: it sends its first bytes and
/// receives into them, as many as the zone holds.
impl SentryExchangeable for [u8] {
    open spec fn spec_to_kernel(&self, area: Seq<u8>, loopback: bool) -> (
        Result<Status, Status>,
        Seq<u8>,
    ) {
        (done(), bytes_into_area(self@, area))
    }

    open spec fn spec_from_kernel(&self, area: Seq<u8>) -> (Result<Status, Status>, Seq<u8>) {
        (done(), bytes_from_area(self@, area))
    }

    fn to_kernel(&self, area: &mut ExchangeArea) -> (r: Result<Status, Status>) {
        let n = if self.len() < EXCHANGE_AREA_LEN {
            self.len()
        } else {
            EXCHANGE_AREA_LEN
        };
        area.write_bytes(0, self, n);
        Ok(Status::Success)
    }

    fn from_kernel(&mut self, area: &ExchangeArea) -> (r: Result<Status, Status>) {
        let n = if self.len() < EXCHANGE_AREA_LEN {
            self.len()
        } else {
            EXCHANGE_AREA_LEN
        };
        let ghost start = self@;
        let mut k: usize = 0;
        while k < n
            invariant
                k <= n,
                n == clamp_to_area(start.len()),
                self@.len() == start.len(),
                forall|i: int| 0 <= i < k ==> self@[i] == area@[i],
                forall|i: int| k <= i < start.len() ==> self@[i] == start[i],
            decreases n - k,
        {
            self[k] = area.get_u8(k);
            k = k + 1;
        }
        assert(self@ =~= bytes_from_area(start, area@));
        Ok(Status::Success)
    }
}

/// A read-only byte buffer: it can be sent, never received into.
impl<'a> SentryExchangeable for &'a [u8] {
    open spec fn spec_to_kernel(&self, area: Seq<u8>, loopback: bool) -> (
        Result<Status, Status>,
        Seq<u8>,
    ) {
        (done(), bytes_into_area(self@, area))
    }

    open spec fn spec_from_kernel(&self, area: Seq<u8>) -> (Result<Status, Status>, Seq<u8>) {
        (refused(), self@)
    }

    fn to_kernel(&self, area: &mut ExchangeArea) -> (r: Result<Status, Status>) {
        (**self).to_kernel(area)
    }

    fn from_kernel(&mut self, area: &ExchangeArea) -> (r: Result<Status, Status>) {
        Err(Status::Invalid)
    }
}

/// Sends any exchangeable object to the kernel through the exchange zone.
pub fn copy_to_kernel<T: SentryExchangeable + ?Sized>(from: &T, area: &mut ExchangeArea) -> (r:
    Result<Status, Status>)
    ensures
        (r, final(area)@) == from.spec_to_kernel(old(area)@, old(area).writes_back()),
        final(area).writes_back() == old(area).writes_back(),
{
    from.to_kernel(area)
}

/// Receives into any exchangeable object what the kernel left in the
/// exchange zone.
pub fn copy_from_kernel<T: SentryExchangeable + ?Sized>(to: &mut T, area: &ExchangeArea) -> (r:
    Result<Status, Status>)
    ensures
        (r, final(to)@) == old(to).spec_from_kernel(area@),
{
    to.from_kernel(area)
}

} // verus!
