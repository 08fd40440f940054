//! The exchange zone itself: a fixed array of bytes shared by the kernel and
//! the task, together with the mode that says whether kernel-produced
//! objects may be written back into it from the task side.

use vstd::prelude::*;

use crate::le::{u16_at, u16_le, u32_at, u32_le, u64_at, u64_le};

verus! {

/// Size in bytes of the exchange zone.
pub const EXCHANGE_AREA_LEN: usize = 128;

/// `s` with the bytes from index `at` on replaced by `src` (as far as `s`
/// reaches); the length of `s` is kept.
pub open spec fn splice(s: Seq<u8>, at: int, src: Seq<u8>) -> Seq<u8> {
    Seq::new(s.len(), |i: int| if at <= i < at + src.len() { src[i - at] } else { s[i] })
}

/// The smaller of `n` and the size of the exchange zone: how many bytes a
/// slice of `n` bytes exchanges with the zone.
pub open spec fn clamp_to_area(n: nat) -> nat {
    if n < EXCHANGE_AREA_LEN {
        n
    } else {
        EXCHANGE_AREA_LEN as nat
    }
}

/// The kernel/user exchange zone.
///
/// `bytes` is the zone's content. The mode, set by `new_loopback` only, marks a zone in which the
/// task may also write back the objects that only the kernel produces
/// (shared-memory information and handles, full events), so that an object
/// can be sent and received again on the same side; on a zone without it
/// such writes are refused.
pub struct ExchangeArea {
    pub bytes: [u8; 128],
    loopback: bool,
}

impl View for ExchangeArea {
    type V = Seq<u8>;

    closed spec fn view(&self) -> Seq<u8> {
        self.bytes@
    }
}

/// The content of a zone always has the zone's size.
pub broadcast proof fn lemma_area_len(a: &ExchangeArea)
    ensures
        #[trigger] a@.len() == EXCHANGE_AREA_LEN,
{
}

/// The size of the exchange zone.
pub fn length() -> (r: usize)
    ensures
        r == EXCHANGE_AREA_LEN,
{
    EXCHANGE_AREA_LEN
}

impl ExchangeArea {
    /// A zeroed exchange zone, in which kernel-produced objects cannot be
    /// written back by the task.
    pub fn new() -> (a: Self)
        ensures
            a@ == Seq::new(EXCHANGE_AREA_LEN as nat, |i: int| 0u8),
            !a.writes_back(),
    {
        let a = ExchangeArea { bytes: [0u8; 128], loopback: false };
        assert(a@ =~= Seq::new(EXCHANGE_AREA_LEN as nat, |i: int| 0u8));
        a
    }

    /// A zeroed exchange zone in which every exchangeable object may be
    /// written by the task, so that what one object sends another receives.
    pub fn new_loopback() -> (a: Self)
        ensures
            a@ == Seq::new(EXCHANGE_AREA_LEN as nat, |i: int| 0u8),
            a.writes_back(),
    {
        let a = ExchangeArea { bytes: [0u8; 128], loopback: true };
        assert(a@ =~= Seq::new(EXCHANGE_AREA_LEN as nat, |i: int| 0u8));
        a
    }

    /// The content of the zone.
    pub fn as_bytes(&self) -> (r: &[u8])
        ensures
            r@ == self@,
    {
        self.bytes.as_slice()
    }

    /// Whether kernel-produced objects may be written back into this zone:
    /// set by `new_loopback` only.
    pub closed spec fn writes_back(&self) -> bool {
        self.loopback
    }

    /// Whether kernel-produced objects may be written back into this zone.
    pub fn is_loopback(&self) -> (r: bool)
        ensures
            r == self.writes_back(),
    {
        self.loopback
    }

    /// Writes the first `n` bytes of `src` into the zone from index `at`.
    pub fn write_bytes(&mut self, at: usize, src: &[u8], n: usize)
        requires
            n <= src@.len(),
            at + n <= EXCHANGE_AREA_LEN,
        ensures
            final(self)@ == splice(old(self)@, at as int, src@.take(n as int)),
            final(self).writes_back() == old(self).writes_back(),
    {
        let ghost start = self@;
        let mut k: usize = 0;
        while k < n
            invariant
                k <= n,
                n <= src@.len(),
                at + n <= EXCHANGE_AREA_LEN,
                self.writes_back() == old(self).writes_back(),
                start == old(self)@,
                self@ == splice(start, at as int, src@.take(k as int)),
            decreases n - k,
        {
            self.bytes[at + k] = src[k];
            k = k + 1;
            assert(self@ =~= splice(start, at as int, src@.take(k as int)));
        }
    }

    /// Writes one byte at index `at`.
    pub(crate) fn put_u8(&mut self, at: usize, x: u8)
        requires
            at < EXCHANGE_AREA_LEN,
        ensures
            final(self)@ == splice(old(self)@, at as int, seq![x]),
            final(self).writes_back() == old(self).writes_back(),
    {
        self.bytes[at] = x;
        assert(self@ =~= splice(old(self)@, at as int, seq![x]));
    }

    /// Writes `x` little-endian from index `at`.
    pub(crate) fn put_u16(&mut self, at: usize, x: u16)
        requires
            at + 2 <= EXCHANGE_AREA_LEN,
        ensures
            final(self)@ == splice(old(self)@, at as int, u16_le(x)),
            final(self).writes_back() == old(self).writes_back(),
    {
        self.bytes[at] = (x & 0xff) as u8;
        self.bytes[at + 1] = ((x >> 8) & 0xff) as u8;
        assert(self@ =~= splice(old(self)@, at as int, u16_le(x)));
    }

    /// Writes `x` little-endian from index `at`.
    pub(crate) fn put_u32(&mut self, at: usize, x: u32)
        requires
            at + 4 <= EXCHANGE_AREA_LEN,
        ensures
            final(self)@ == splice(old(self)@, at as int, u32_le(x)),
            final(self).writes_back() == old(self).writes_back(),
    {
        self.bytes[at] = (x & 0xff) as u8;
        self.bytes[at + 1] = ((x >> 8) & 0xff) as u8;
        self.bytes[at + 2] = ((x >> 16) & 0xff) as u8;
        self.bytes[at + 3] = ((x >> 24) & 0xff) as u8;
        assert(self@ =~= splice(old(self)@, at as int, u32_le(x)));
    }

    /// Writes `x` little-endian from index `at`.
    pub(crate) fn put_u64(&mut self, at: usize, x: u64)
        requires
            at + 8 <= EXCHANGE_AREA_LEN,
        ensures
            final(self)@ == splice(old(self)@, at as int, u64_le(x)),
            final(self).writes_back() == old(self).writes_back(),
    {
        self.bytes[at] = (x & 0xff) as u8;
        self.bytes[at + 1] = ((x >> 8) & 0xff) as u8;
        self.bytes[at + 2] = ((x >> 16) & 0xff) as u8;
        self.bytes[at + 3] = ((x >> 24) & 0xff) as u8;
        self.bytes[at + 4] = ((x >> 32) & 0xff) as u8;
        self.bytes[at + 5] = ((x >> 40) & 0xff) as u8;
        self.bytes[at + 6] = ((x >> 48) & 0xff) as u8;
        self.bytes[at + 7] = ((x >> 56) & 0xff) as u8;
        assert(self@ =~= splice(old(self)@, at as int, u64_le(x)));
    }

    /// The byte at index `at`.
    pub fn get_u8(&self, at: usize) -> (r: u8)
        requires
            at < EXCHANGE_AREA_LEN,
        ensures
            r == self@[at as int],
    {
        self.bytes[at]
    }

    /// The 16-bit value stored little-endian from index `at`.
    pub(crate) fn get_u16(&self, at: usize) -> (r: u16)
        requires
            at + 2 <= EXCHANGE_AREA_LEN,
        ensures
            r == u16_at(self@, at as int),
    {
        (self.bytes[at] as u16) | ((self.bytes[at + 1] as u16) << 8)
    }

    /// The 32-bit value stored little-endian from index `at`.
    pub(crate) fn get_u32(&self, at: usize) -> (r: u32)
        requires
            at + 4 <= EXCHANGE_AREA_LEN,
        ensures
            r == u32_at(self@, at as int),
    {
        (self.bytes[at] as u32) | ((self.bytes[at + 1] as u32) << 8) | ((self.bytes[at + 2] as u32)
            << 16) | ((self.bytes[at + 3] as u32) << 24)
    }

    /// The 64-bit value stored little-endian from index `at`.
    pub(crate) fn get_u64(&self, at: usize) -> (r: u64)
        requires
            at + 8 <= EXCHANGE_AREA_LEN,
        ensures
            r == u64_at(self@, at as int),
    {
        (self.bytes[at] as u64) | ((self.bytes[at + 1] as u64) << 8) | ((self.bytes[at + 2] as u64)
            << 16) | ((self.bytes[at + 3] as u64) << 24) | ((self.bytes[at + 4] as u64) << 32) | ((
        self.bytes[at + 5] as u64) << 40) | ((self.bytes[at + 6] as u64) << 48) | ((self.bytes[at
            + 7] as u64) << 56)
    }
}

} // verus!
