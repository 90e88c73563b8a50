use rs4::mem::{AddressRange, Mem};

#[test]
fn test_rw_u8() {
    let mut mem: Mem = Mem::default();

    mem.write_u8(123, 144);

    assert_eq!(mem.read_u8(123), 144,);
}

#[test]
fn test_rw_u16() {
    let mut mem: Mem = Mem::default();

    mem.write_u16(54345, 0xabcd);

    assert_eq!(mem.read_u16(54345), 0xabcd,);
}

#[test]
fn test_rw_u32() {
    let mut mem: Mem = Mem::default();

    mem.write_u32(12345, 0x1234abcd);

    assert_eq!(mem.read_u32(12345), 0x1234abcd,);
}

#[test]
fn test_min_max_addresses() {
    let mem: Mem = Mem::default();

    assert_eq!(mem.read_u8(mem.address_range().start), 0);
    assert_eq!(mem.read_u8(mem.address_range().end), 0);
}

#[test]
fn test_u16_little_endian_layout() {
    let mut mem: Mem = Mem::default();

    mem.write_u16(100, 0xA1B2);

    assert_eq!(mem.read_u8(100), 0xB2);
    assert_eq!(mem.read_u8(101), 0xA1);
}

#[test]
fn test_validate_access_rejects_inverted_and_outside() {
    let mem: Mem = Mem::default();

    let seg = AddressRange { start: 10, end: 20 };
    assert!(mem.validate_access(AddressRange { start: 12, end: 18 }, seg).is_ok());
    assert!(mem.validate_access(AddressRange { start: 18, end: 12 }, seg).is_err());
    assert!(mem.validate_access(AddressRange { start: 5, end: 15 }, seg).is_err());
    assert!(mem.validate_access(AddressRange { start: 15, end: 25 }, seg).is_err());

    let err = mem.validate_access(AddressRange { start: 15, end: 25 }, seg).unwrap_err();
    assert_eq!(err.access_range, AddressRange { start: 15, end: 25 });
    assert_eq!(err.segment, seg);
}
