use rs4::mem::Mem;
use rs4::sized_string::{ReadableSizedString, SizedStringWriter};

#[test]
fn test_read_sized_string() {
    let mut mem = Mem::default();

    mem.write_u8(12345, 3);
    mem.write_u8(12346, 'b' as u8);
    mem.write_u8(12347, 'a' as u8);
    mem.write_u8(12348, 'r' as u8);

    assert_eq!(
        ReadableSizedString::new(&mem, 12345, mem.address_range()).unwrap().as_bytes(),
        "bar".as_bytes()
    );
}

#[test]
fn test_bad_string() {
    let mut mem = Mem::default();
    let start_address = mem.address_range().end - 254;

    mem.write_u8(start_address, 255);

    assert!(ReadableSizedString::new(&mem, start_address, mem.address_range()).is_err())
}

#[test]
fn test_longest_string() {
    let mut mem = Mem::default();
    let start_address = mem.address_range().end - 255;

    mem.write_u8(start_address, 255);

    assert_eq!(
        ReadableSizedString::new(&mem, start_address, mem.address_range())
            .unwrap()
            .as_bytes()
            .len(),
        255
    );
}

#[test]
fn test_write_chars() {
    let mut mem = Mem::default();
    let safe_range = mem.address_range();

    let mut writer = SizedStringWriter::new(&mem, 123, 255, safe_range).unwrap();

    writer.append_u8(&mut mem, b'F').unwrap();
    writer.append_u8(&mut mem, b'O').unwrap();
    writer.append_u8(&mut mem, b'0').unwrap();
    writer.append_u8(&mut mem, b'B').unwrap();
    writer.append_u8(&mut mem, b'A').unwrap();
    writer.append_u8(&mut mem, b'R').unwrap();

    assert_eq!(writer.finish(&mut mem).as_bytes(), b"FO0BAR")
}

#[test]
fn test_write_overflow() {
    let mut mem = Mem::default();
    let safe_range = mem.address_range();

    let mut writer = SizedStringWriter::new(&mem, 123, 255, safe_range).unwrap();

    for _ in 0..255 {
        writer.append_u8(&mut mem, b'A').unwrap();
    }

    assert!(writer.append_u8(&mut mem, b'B').is_err())
}

#[test]
fn test_write_max_length() {
    let mut mem = Mem::default();
    let safe_range = mem.address_range();

    let mut writer = SizedStringWriter::new(&mem, 123, 2, safe_range).unwrap();

    writer.append_slice(&mut mem, b"AA").unwrap();

    assert!(writer.append_u8(&mut mem, b'B').is_err())
}

#[test]
fn test_write_string() {
    let mut mem = Mem::default();
    let safe_range = mem.address_range();

    let mut writer = SizedStringWriter::new(&mem, 123, 255, safe_range).unwrap();

    writer.append_slice(&mut mem, b"Hello ").unwrap();
    writer.append_slice(&mut mem, b"World!").unwrap();

    assert_eq!(writer.finish(&mut mem).as_bytes(), b"Hello World!")
}

#[test]
fn test_bytes_equal() {
    assert!(rs4::sized_string::bytes_equal(b"abc", b"abc"));
    assert!(!rs4::sized_string::bytes_equal(b"abc", b"abd"));
    assert!(!rs4::sized_string::bytes_equal(b"abc", b"ab"));
    assert!(rs4::sized_string::bytes_equal(b"", b""));
}
