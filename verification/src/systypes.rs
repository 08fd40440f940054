//! The objects that cross the exchange zone and the status codes of the
//! exchanges.

use vstd::prelude::*;

verus! {

/// Status code of a kernel/user interaction.
#[derive(Clone, Copy, Debug, PartialEq, Eq, Structural)]
pub enum Status {
    Success,
    Invalid,
    Denied,
    NoEntity,
    Busy,
    AlreadyMapped,
    Timeout,
    Critical,
    Again,
    Intr,
    Deadlk,
}

/// Kinds of events the kernel delivers; their numeric values are bit flags.
#[derive(Clone, Copy, Debug, PartialEq, Eq, Structural)]
pub enum EventType {
    NoEvent,
    Ipc,
    Signal,
    Irq,
    Dma,
    All,
}

/// The numeric value of an event kind, as carried in an event header.
pub open spec fn event_type_value(e: EventType) -> u8 {
    match e {
        EventType::NoEvent => 0,
        EventType::Ipc => 1,
        EventType::Signal => 2,
        EventType::Irq => 4,
        EventType::Dma => 8,
        EventType::All => 15,
    }
}

impl From<EventType> for u8 {
    fn from(e: EventType) -> (r: u8) {
        match e {
            EventType::NoEvent => 0,
            EventType::Ipc => 1,
            EventType::Signal => 2,
            EventType::Irq => 4,
            EventType::Dma => 8,
            EventType::All => 15,
        }
    }
}

impl vstd::std_specs::convert::FromSpecImpl<EventType> for u8 {
    open spec fn obeys_from_spec() -> bool {
        true
    }

    open spec fn from_spec(e: EventType) -> u8 {
        event_type_value(e)
    }
}

/// The magic number that marks a header written by the kernel.
pub const HEADER_MAGIC: u16 = 0x4242;

/// Size in bytes of an event header in the exchange zone.
pub const HEADER_LEN: usize = 8;

/// Header of an event: its kind, the length of the data that follows it,
/// a magic number and the handle of the emitting peer.
///
/// In the exchange zone it lies as `event` (one byte), `length` (one byte),
/// `magic` (two bytes) and `peer` (four bytes), little-endian.
#[derive(Clone, Copy, Debug, PartialEq, Eq, Structural)]
pub struct ExchangeHeader {
    pub peer: u32,
    pub event: u8,
    pub length: u8,
    pub magic: u16,
}

impl View for ExchangeHeader {
    type V = ExchangeHeader;

    open spec fn view(&self) -> ExchangeHeader {
        *self
    }
}

impl ExchangeHeader {
    /// Whether the header carries the kernel's magic number.
    pub open spec fn valid(self) -> bool {
        self.magic == HEADER_MAGIC
    }

    /// Whether the header carries the kernel's magic number.
    pub fn is_valid(&self) -> (r: bool)
        ensures
            r == self.valid(),
    {
        self.magic == HEADER_MAGIC
    }
}

/// Handle of a shared-memory region.
pub type ShmHandle = u32;

/// Information the kernel gives on a shared-memory region.
///
/// In the exchange zone it lies as in memory (C layout, little-endian):
/// `handle`, `label` (four bytes each), `base`, `len` (the width of a
/// `usize` each), `perms` (four bytes), then, where a `usize` takes eight
/// bytes, four bytes of padding: thirty-two bytes in all on such a target,
/// twenty where a `usize` takes four.
#[derive(Clone, Copy, Debug, PartialEq, Eq, Structural)]
pub struct ShmInfo {
    pub handle: ShmHandle,
    pub label: u32,
    pub base: usize,
    pub len: usize,
    pub perms: u32,
}

impl View for ShmInfo {
    type V = ShmInfo;

    open spec fn view(&self) -> ShmInfo {
        *self
    }
}

/// An event: the header forged by the kernel and the caller's buffer for
/// its data.
#[derive(Debug)]
pub struct Event<'a> {
    pub header: ExchangeHeader,
    pub data: &'a mut [u8],
}

/// What an event holds: its header and the content of its data buffer.
#[verifier::ext_equal]
pub struct EventView {
    pub header: ExchangeHeader,
    pub data: Seq<u8>,
}

impl<'a> View for Event<'a> {
    type V = EventView;

    open spec fn view(&self) -> EventView {
        EventView { header: self.header, data: (*self.data)@ }
    }
}

} // verus!
