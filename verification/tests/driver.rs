use mb85rc::{
    capacity_from_id, encode_address, manufacturer_from_id, Builder, Mb85rcError,
    Mb85rcErrorKind, SeekFrom, SimBus,
};

/// A 512-byte simulated device at the default address, with a matching handle.
fn small_device() -> mb85rc::MB85RC<SimBus> {
    let bus = SimBus::new(0x50, 512, 0x00, 0xA0, 0x10);
    Builder::new()
        .with_size(512)
        .connect_i2c(bus)
        .expect("explicit size never fails")
}

/// Deterministic pseudo-random bytes for payloads.
fn pseudo_random_bytes(n: usize, mut seed: u32) -> Vec<u8> {
    let mut out = Vec::with_capacity(n);
    for _ in 0..n {
        seed = seed.wrapping_mul(1664525).wrapping_add(1013904223);
        out.push((seed >> 24) as u8);
    }
    out
}

#[test]
fn capacity_derivation() {
    assert_eq!(capacity_from_id(0x00), 1024);
    assert_eq!(capacity_from_id(0xA5), 32768);
    assert_eq!(capacity_from_id(0x06), 65536);
    assert_eq!(capacity_from_id(0x0F), 33554432);
}

#[test]
fn manufacturer_decode() {
    assert_eq!(manufacturer_from_id(0x00, 0xA5), 0x00A);
    assert_eq!(manufacturer_from_id(0x04, 0x7F), 0x047);
}

#[test]
fn address_encoding() {
    assert_eq!(encode_address(0x1234), vec![0x12, 0x34]);
    assert_eq!(encode_address(0x00FF), vec![0x00, 0xFF]);
    assert_eq!(encode_address(0x0000), vec![0x00, 0x00]);
    assert_eq!(encode_address(0xFFFF), vec![0xFF, 0xFF]);
}

#[test]
fn error_new_is_bus_kind() {
    let e = Mb85rcError::new("I2C Error: no acknowledge");
    assert_eq!(e.kind, Mb85rcErrorKind::Bus);
    assert_eq!(e.message(), "I2C Error: no acknowledge");
}

#[test]
fn seek_bounds() {
    let mut h = small_device();
    let err = h.seek(SeekFrom::Start(512)).unwrap_err();
    assert_eq!(err.kind, Mb85rcErrorKind::OutOfRange);
    assert_eq!(h.seek(SeekFrom::Start(511)).unwrap(), 511);
}

#[test]
fn negative_relative_seek() {
    let mut h = small_device();
    let err = h.seek(SeekFrom::Current(-1)).unwrap_err();
    assert_eq!(err.kind, Mb85rcErrorKind::InvalidArgument);
}

#[test]
fn seek_from_end() {
    let mut h = small_device();
    assert_eq!(h.seek(SeekFrom::End(-2)).unwrap(), 510);
    let err = h.seek(SeekFrom::End(0)).unwrap_err();
    assert_eq!(err.kind, Mb85rcErrorKind::OutOfRange);
    let err = h.seek(SeekFrom::End(-513)).unwrap_err();
    assert_eq!(err.kind, Mb85rcErrorKind::InvalidArgument);
    assert_eq!(h.seek(SeekFrom::End(-512)).unwrap(), 0);
}

#[test]
fn cursor_advance() {
    let mut h = small_device();
    // Pre-fill the four bytes that follow the first write.
    h.fram_write(4, &vec![0xD0, 0xD1, 0xD2, 0xD3]).unwrap();
    assert_eq!(h.write(&vec![10, 11, 12, 13]).unwrap(), 4);
    // After a 4-byte write from cursor 0 the cursor is at 4 ...
    assert_eq!(h.seek(SeekFrom::Current(0)).unwrap(), 4);
    // ... and a read without seeking yields the bytes at 4..8.
    let mut buf = vec![0u8; 4];
    assert_eq!(h.read(&mut buf).unwrap(), 4);
    assert_eq!(buf, vec![0xD0, 0xD1, 0xD2, 0xD3]);
    assert_eq!(h.seek(SeekFrom::Current(0)).unwrap(), 8);
}

#[test]
fn direct_round_trip() {
    let mut h = small_device();
    let payload = vec![1, 2, 3, 4, 5];
    assert_eq!(h.fram_write(100, &payload).unwrap(), 5);
    let mut buf = vec![0u8; 5];
    assert_eq!(h.fram_read(100, &mut buf).unwrap(), 5);
    assert_eq!(buf, payload);
    // Direct access never disturbs the cursor.
    assert_eq!(h.seek(SeekFrom::Current(0)).unwrap(), 0);
}

#[test]
fn stream_round_trip_32768() {
    let bus = SimBus::new(0x50, 32768, 0x00, 0xA5, 0x10);
    let mut h = Builder::new().with_size(32768).connect_i2c(bus).unwrap();
    let payload = pseudo_random_bytes(256, 0xC0FFEE);
    assert_eq!(h.write(&payload).unwrap(), 256);
    assert_eq!(h.seek(SeekFrom::Start(0)).unwrap(), 0);
    let mut buf = vec![0u8; 256];
    assert_eq!(h.read(&mut buf).unwrap(), 256);
    assert_eq!(buf, payload);
}

#[test]
fn smallest_device_boundary() {
    let mut h = small_device();
    let err = h.seek(SeekFrom::Start(512)).unwrap_err();
    assert_eq!(err.kind, Mb85rcErrorKind::OutOfRange);
    assert_eq!(h.seek(SeekFrom::Start(511)).unwrap(), 511);
    assert_eq!(h.write(&vec![0xAB]).unwrap(), 1);
    assert_eq!(h.seek(SeekFrom::Start(511)).unwrap(), 511);
    let mut buf = vec![0u8; 1];
    assert_eq!(h.read(&mut buf).unwrap(), 1);
    assert_eq!(buf, vec![0xAB]);
}

#[test]
fn stream_past_capacity_rejected() {
    let mut h = small_device();
    h.seek(SeekFrom::Start(510)).unwrap();
    let mut buf = vec![0u8; 4];
    let err = h.read(&mut buf).unwrap_err();
    assert_eq!(err.kind, Mb85rcErrorKind::OutOfRange);
    let err = h.write(&vec![0u8; 4]).unwrap_err();
    assert_eq!(err.kind, Mb85rcErrorKind::OutOfRange);
    // The cursor is untouched by a rejected operation.
    assert_eq!(h.seek(SeekFrom::Current(0)).unwrap(), 510);
}

#[test]
fn empty_stream_operations() {
    let mut h = small_device();
    let mut buf: Vec<u8> = Vec::new();
    assert_eq!(h.read(&mut buf).unwrap(), 0);
    assert_eq!(h.write(&Vec::new()).unwrap(), 0);
    assert_eq!(h.seek(SeekFrom::Current(0)).unwrap(), 0);
}

#[test]
fn flush_never_fails() {
    let mut h = small_device();
    assert!(h.flush().is_ok());
}

#[test]
fn auto_detection() {
    let bus = SimBus::new(0x50, 32768, 0x00, 0xA5, 0x10);
    let h = Builder::new().connect_i2c(bus).unwrap();
    assert_eq!(h.fram_size(), 32768);
}

#[test]
fn auto_detection_oversized_device() {
    // Exponent 0xF reports 2^15 kB, past the 16-bit address space.
    let bus = SimBus::new(0x50, 32768, 0x00, 0xAF, 0x10);
    let err = match Builder::new().connect_i2c(bus) {
        Ok(_) => panic!("construction should fail for an oversized device"),
        Err(e) => e,
    };
    assert_eq!(err.kind, Mb85rcErrorKind::Identification);
}

#[test]
fn explicit_size_skips_detection() {
    // The identification response is nonsense, but an explicit size means it
    // is never consulted.
    let bus = SimBus::new(0x50, 512, 0xFF, 0xFF, 0xFF);
    let h = Builder::new().with_size(512).connect_i2c(bus).unwrap();
    assert_eq!(h.fram_size(), 512);
}

#[test]
fn wrong_address_is_bus_error() {
    let bus = SimBus::new(0x50, 512, 0x00, 0xA0, 0x10);
    let mut h = Builder::new()
        .with_address(0x51)
        .with_size(512)
        .connect_i2c(bus)
        .unwrap();
    let mut buf = vec![0u8; 4];
    let err = h.fram_read(0, &mut buf).unwrap_err();
    assert_eq!(err.kind, Mb85rcErrorKind::Bus);
    let err = h.fram_write(0, &vec![1, 2]).unwrap_err();
    assert_eq!(err.kind, Mb85rcErrorKind::Bus);
}

#[test]
fn builder_address_override() {
    let bus = SimBus::new(0x57, 512, 0x00, 0xA0, 0x10);
    let mut h = Builder::new()
        .with_address(0x57)
        .with_size(512)
        .connect_i2c(bus)
        .unwrap();
    let payload = vec![9, 8, 7];
    assert_eq!(h.fram_write(0, &payload).unwrap(), 3);
    let mut buf = vec![0u8; 3];
    assert_eq!(h.fram_read(0, &mut buf).unwrap(), 3);
    assert_eq!(buf, payload);
}
