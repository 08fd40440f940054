use sentry_uapi::area::{ExchangeArea, EXCHANGE_AREA_LEN};
use sentry_uapi::exchange::length;
use sentry_uapi::{copy_from_kernel, copy_to_kernel, SentryExchangeable};
use sentry_uapi::systypes::{Event, EventType, ExchangeHeader, ShmHandle, ShmInfo, Status};

fn header(peer: u32, event: u8, length: u8, magic: u16) -> ExchangeHeader {
    ExchangeHeader { peer, event, length, magic }
}

fn empty_event(data: &mut [u8]) -> Event<'_> {
    Event { header: header(0, EventType::NoEvent.into(), 0, 0), data }
}

#[test]
fn back_to_back_shminfo() {
    let mut area = ExchangeArea::new_loopback();
    let src = ShmInfo { handle: 2, label: 42, base: 0x123456, len: 64, perms: 0x1 };
    let mut dst = ShmInfo { handle: 0, label: 0, base: 0, len: 0, perms: 0 };
    let _ = src.to_kernel(&mut area);
    let _ = dst.from_kernel(&area);
    assert_eq!(src, dst);
}

#[test]
fn back_to_back_shmhandle() {
    let mut area = ExchangeArea::new_loopback();
    let src: ShmHandle = 0x42;
    let mut dst: ShmHandle = 0x4;
    let _ = src.to_kernel(&mut area);
    let _ = dst.from_kernel(&area);
    assert_eq!(Some(src), Some(dst));
}

#[test]
fn back_to_back_event() {
    let mut area = ExchangeArea::new_loopback();
    let src = Event {
        header: ExchangeHeader { peer: 0x42, event: EventType::Irq.into(), length: 12, magic: 0x4242 },
        data: &mut [0x42; 12],
    };
    let mut dst = Event {
        header: ExchangeHeader { peer: 0, event: EventType::NoEvent.into(), length: 0, magic: 0 },
        data: &mut [0; 12],
    };

    assert_eq!(src.to_kernel(&mut area), Ok(Status::Success));
    assert_eq!(dst.from_kernel(&area), Ok(Status::Success));
    assert_eq!(src.header, dst.header);
    let len: usize = src.header.length.into();
    assert_eq!(src.data[..len], dst.data[..len]);
    let mut shorter_dst = Event {
        header: ExchangeHeader { peer: 0, event: EventType::NoEvent.into(), length: 0, magic: 0 },
        data: &mut [0; 8],
    };
    // dest that are not able to hold overall data must not generate panic
    assert_eq!(shorter_dst.from_kernel(&area), Err(Status::Invalid));
}

#[test]
fn back_to_back_c_string() {
    let mut area = ExchangeArea::new_loopback();
    let src: &[u8] = &[42, 1, 3, 5, 12];
    let mut storage = [0u8, 0, 0, 0, 0];
    let dst: &mut [u8] = &mut storage;
    assert_eq!(src.to_kernel(&mut area), Ok(Status::Success));
    assert_eq!(dst.from_kernel(&area), Ok(Status::Success));
    assert_eq!(src, &*dst);
}

#[test]
fn area_length_is_fixed() {
    assert_eq!(length(), 128);
    assert_eq!(EXCHANGE_AREA_LEN, 128);
    let area = ExchangeArea::new();
    assert_eq!(area.as_bytes().len(), 128);
    assert!(area.as_bytes().iter().all(|b| *b == 0));
    assert!(!area.is_loopback());
    assert!(ExchangeArea::new_loopback().is_loopback());
}

#[test]
fn shm_info_layout_in_zone() {
    let mut area = ExchangeArea::new_loopback();
    area.bytes = [0xaa; 128];
    let info = ShmInfo {
        handle: 0x0403_0201,
        label: 42,
        base: 0x1122_3344_5566_7788,
        len: 4096,
        perms: 0x3,
    };
    assert_eq!(info.to_kernel(&mut area), Ok(Status::Success));
    let b = area.as_bytes();
    assert_eq!(&b[0..4], &[1, 2, 3, 4]);
    assert_eq!(u32::from_le_bytes(b[4..8].try_into().unwrap()), 42);
    assert_eq!(u64::from_le_bytes(b[8..16].try_into().unwrap()), 0x1122_3344_5566_7788);
    assert_eq!(u64::from_le_bytes(b[16..24].try_into().unwrap()), 4096);
    assert_eq!(u32::from_le_bytes(b[24..28].try_into().unwrap()), 3);
    assert_eq!(&b[28..32], &[0, 0, 0, 0]);
    assert!(b[32..].iter().all(|x| *x == 0xaa));
}

#[test]
fn shm_info_read_from_kernel_bytes() {
    let mut area = ExchangeArea::new();
    area.bytes[0..4].copy_from_slice(&1u32.to_le_bytes());
    area.bytes[4..8].copy_from_slice(&42u32.to_le_bytes());
    area.bytes[8..16].copy_from_slice(&0x1000u64.to_le_bytes());
    area.bytes[16..24].copy_from_slice(&4096u64.to_le_bytes());
    area.bytes[24..28].copy_from_slice(&3u32.to_le_bytes());
    let mut info = ShmInfo { handle: 9, label: 9, base: 9, len: 9, perms: 9 };
    assert_eq!(copy_from_kernel(&mut info, &area), Ok(Status::Success));
    assert_eq!(info, ShmInfo { handle: 1, label: 42, base: 0x1000, len: 4096, perms: 3 });
}

#[test]
fn kernel_objects_refused_outside_loopback() {
    let mut area = ExchangeArea::new();
    area.bytes[0] = 7;
    let before = area.bytes;
    let info = ShmInfo { handle: 1, label: 2, base: 3, len: 4, perms: 5 };
    assert_eq!(info.to_kernel(&mut area), Err(Status::Invalid));
    let handle: ShmHandle = 0x42;
    assert_eq!(handle.to_kernel(&mut area), Err(Status::Invalid));
    let irq = Event { header: header(1, EventType::Irq.into(), 2, 0x4242), data: &mut [9, 9] };
    assert_eq!(irq.to_kernel(&mut area), Err(Status::Invalid));
    assert_eq!(area.bytes, before);
}

#[test]
fn ipc_event_sends_its_data_outside_loopback() {
    let mut area = ExchangeArea::new();
    let msg = b"hello it's autotest";
    let mut buf = msg.to_vec();
    let ipc = Event { header: header(0, EventType::Ipc.into(), 20, 0), data: &mut buf };
    assert_eq!(copy_to_kernel(&ipc, &mut area), Ok(Status::Success));
    assert_eq!(&area.as_bytes()[..msg.len()], &msg[..]);
    assert!(area.as_bytes()[msg.len()..].iter().all(|b| *b == 0));
}

#[test]
fn shm_handle_read_little_endian() {
    let mut area = ExchangeArea::new();
    area.bytes[0..4].copy_from_slice(&[0x78, 0x56, 0x34, 0x12]);
    let mut handle: ShmHandle = 0;
    assert_eq!(handle.from_kernel(&area), Ok(Status::Success));
    assert_eq!(handle, 0x1234_5678);
}

#[test]
fn event_header_layout_in_zone() {
    let mut area = ExchangeArea::new_loopback();
    let ev = Event { header: header(0x0000_0042, 4, 3, 0x4242), data: &mut [7, 8, 9, 10] };
    assert_eq!(ev.to_kernel(&mut area), Ok(Status::Success));
    assert_eq!(&area.as_bytes()[..12], &[4, 3, 0x42, 0x42, 0x42, 0, 0, 0, 7, 8, 9, 0]);
    let h = ExchangeHeader { peer: 0, event: 0, length: 0, magic: 0 }.from_exchange(&area);
    assert_eq!(h, Some(ev.header));
}

#[test]
fn event_from_kernel_rejects_invalid_magic() {
    let mut area = ExchangeArea::new();
    area.bytes[..8].copy_from_slice(&[4, 2, 0x41, 0x42, 1, 0, 0, 0]);
    area.bytes[8] = 5;
    let mut buf = [0u8; 4];
    let mut ev = Event { header: header(9, 9, 9, 9), data: &mut buf };
    assert_eq!(ev.from_kernel(&area), Err(Status::Invalid));
    assert_eq!(ev.header, header(9, 9, 9, 9));
    assert_eq!(ev.data, &[0u8; 4]);
}

#[test]
fn event_from_kernel_accepts_valid_header() {
    let mut area = ExchangeArea::new();
    area.bytes[..8].copy_from_slice(&[4, 12, 0x42, 0x42, 0x42, 0, 0, 0]);
    for i in 0..12 {
        area.bytes[8 + i] = i as u8 + 1;
    }
    let mut buf = [0u8; 128];
    let mut ev = empty_event(&mut buf);
    assert_eq!(ev.from_kernel(&area), Ok(Status::Success));
    assert!(ev.header.is_valid());
    assert_eq!(ev.header, header(0x42, 4, 12, 0x4242));
    assert_eq!(&ev.data[..12], &[1, 2, 3, 4, 5, 6, 7, 8, 9, 10, 11, 12]);
    assert!(ev.data[12..].iter().all(|b| *b == 0));
    assert_eq!(ev.data.len(), 128);
}

#[test]
fn event_from_kernel_rejects_length_beyond_zone() {
    let mut area = ExchangeArea::new();
    area.bytes[..8].copy_from_slice(&[1, 121, 0x42, 0x42, 1, 0, 0, 0]);
    let mut buf = [0u8; 255];
    let mut ev = empty_event(&mut buf);
    assert_eq!(ev.from_kernel(&area), Err(Status::Invalid));
    assert_eq!(ev.header.length, 121);
    assert!(ev.data.iter().all(|b| *b == 0));
    area.bytes[1] = 120;
    area.bytes[127] = 0x55;
    assert_eq!(ev.from_kernel(&area), Ok(Status::Success));
    assert_eq!(ev.data[119], 0x55);
}

#[test]
fn event_to_kernel_rejects_short_data() {
    let mut area = ExchangeArea::new_loopback();
    let ev = Event { header: header(1, 4, 5, 0x4242), data: &mut [1, 2, 3] };
    assert_eq!(ev.to_kernel(&mut area), Err(Status::Invalid));
    // the header is in the zone nevertheless
    assert_eq!(&area.as_bytes()[..8], &[4, 5, 0x42, 0x42, 1, 0, 0, 0]);
    assert!(area.as_bytes()[8..].iter().all(|b| *b == 0));
}

#[test]
fn event_to_kernel_rejects_data_beyond_zone() {
    let mut area = ExchangeArea::new_loopback();
    let ev = Event { header: header(1, 1, 121, 0x4242), data: &mut [3; 200] };
    assert_eq!(ev.to_kernel(&mut area), Err(Status::Invalid));
    let ev = Event { header: header(1, 1, 120, 0x4242), data: &mut [3; 200] };
    assert_eq!(ev.to_kernel(&mut area), Ok(Status::Success));
    assert!(area.as_bytes()[8..].iter().all(|b| *b == 3));
}

#[test]
fn bytes_roundtrip_is_clamped_to_zone() {
    let mut area = ExchangeArea::new();
    let input: Vec<u8> = (0..200u32).map(|i| (i % 251) as u8).collect();
    let src: &[u8] = &input;
    assert_eq!(copy_to_kernel(src, &mut area), Ok(Status::Success));
    let mut buffer = vec![0xffu8; 150];
    assert_eq!(copy_from_kernel(&mut buffer[..], &area), Ok(Status::Success));
    let expected_len = src.len().min(length());
    assert_eq!(&buffer[..expected_len], &src[..expected_len]);
    assert!(buffer[expected_len..].iter().all(|b| *b == 0xff));
}

#[test]
fn shared_slice_is_always_sent() {
    let mut area = ExchangeArea::new();
    let input = [7u8; 128];
    let src: &[u8] = &input[..];
    assert_eq!(src.to_kernel(&mut area), Ok(Status::Success));
    assert_eq!(area.bytes, input);
}

#[test]
fn shared_slice_cannot_receive() {
    let mut area = ExchangeArea::new();
    area.bytes[0] = 1;
    let storage = [5u8, 5];
    let mut src: &[u8] = &storage;
    assert_eq!(src.from_kernel(&area), Err(Status::Invalid));
    assert_eq!(src, &[5, 5]);
}

#[test]
fn short_buffer_receives_its_length_only() {
    let mut area = ExchangeArea::new();
    for i in 0..128 {
        area.bytes[i] = i as u8;
    }
    let mut dst = [0u8; 3];
    assert_eq!(copy_from_kernel(&mut dst[..], &area), Ok(Status::Success));
    assert_eq!(dst, [0, 1, 2]);
    let mut big = vec![9u8; 130];
    assert_eq!(copy_from_kernel(&mut big[..], &area), Ok(Status::Success));
    assert_eq!(&big[..128], &area.bytes[..]);
    assert_eq!(&big[128..], &[9, 9]);
}

#[test]
fn event_type_values() {
    let v: [u8; 6] = [
        EventType::NoEvent.into(),
        EventType::Ipc.into(),
        EventType::Signal.into(),
        EventType::Irq.into(),
        EventType::Dma.into(),
        EventType::All.into(),
    ];
    assert_eq!(v, [0, 1, 2, 4, 8, 15]);
}

#[test]
fn received_handle_written_back_keeps_zone() {
    let mut area = ExchangeArea::new_loopback();
    for i in 0..128 {
        area.bytes[i] = (i * 3) as u8;
    }
    let before = area.bytes;
    let mut handle: ShmHandle = 0;
    assert_eq!(handle.from_kernel(&area), Ok(Status::Success));
    assert_eq!(handle.to_kernel(&mut area), Ok(Status::Success));
    assert_eq!(area.bytes, before);
}
