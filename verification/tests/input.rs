use rs4::input::{read_word, Input, InputError, StaticStringInput};

#[test]
fn test_string_input_read() {
    let mut input = StaticStringInput::new("foo bar");

    assert_eq!(input.read().unwrap(), Some('f' as u8));
    assert_eq!(input.read().unwrap(), Some('o' as u8));
    assert_eq!(input.read().unwrap(), Some('o' as u8));
    assert_eq!(input.read().unwrap(), Some(' ' as u8));
    assert_eq!(input.read().unwrap(), Some('b' as u8));
    assert_eq!(input.read().unwrap(), Some('a' as u8));
    assert_eq!(input.read().unwrap(), Some('r' as u8));
    assert_eq!(input.read().unwrap(), None);
}

#[test]
fn test_string_input_read_words() {
    let mut fuel: u64 = u64::MAX;
    let mut input = StaticStringInput::new("foo\nbar   baz");

    assert_eq!(read_word(&mut input, 10, &mut fuel).unwrap(), "foo".as_bytes());
    assert_eq!(read_word(&mut input, 10, &mut fuel).unwrap(), "bar".as_bytes());
    assert_eq!(read_word(&mut input, 10, &mut fuel).unwrap(), "baz".as_bytes());
    assert_eq!(read_word(&mut input, 10, &mut fuel).unwrap(), "".as_bytes());
}

#[test]
fn test_string_input_tell() {
    let mut input = StaticStringInput::new("foo bar");

    assert_eq!(input.tell().unwrap(), 0);

    input.read().unwrap();
    input.read().unwrap();
    input.read().unwrap();

    assert_eq!(input.tell().unwrap(), 3);
}

#[test]
fn test_string_input_seek() {
    let mut input = StaticStringInput::new("foo bar");

    input.seek(5).unwrap();
    assert_eq!(input.read().unwrap(), Some('a' as u8));

    input.seek(0).unwrap();
    assert_eq!(input.read().unwrap(), Some('f' as u8));

    let bad_seek_result = input.seek(10);
    assert!(matches!(bad_seek_result, Err(InputError::IllegalOffset)))
}

#[test]
fn test_read_word_overflow() {
    let mut fuel: u64 = u64::MAX;
    let mut input = StaticStringInput::new("supercalifragilistic");

    assert!(matches!(
        read_word(&mut input, 10, &mut fuel),
        Err(InputError::BufferOverflow)
    ));
}
