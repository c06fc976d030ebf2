use cole_mine::{try_u16_from_iter, try_u16_from_le_slice, ByteReader};

#[test]
fn u16_from_slice() {
    assert_eq!(try_u16_from_le_slice(&[0x34, 0x12, 0xff]), Some(0x1234));
    assert_eq!(try_u16_from_le_slice(&[0x34]), None);
}

#[test]
fn u16_from_reader() {
    let bytes = [0x01, 0x02, 0x03];
    let mut reader = ByteReader::new(&bytes);
    assert_eq!(try_u16_from_iter(&mut reader), Some(0x0201));
    assert_eq!(reader.position(), 2);
    assert_eq!(reader.remaining(), 1);
    assert_eq!(try_u16_from_iter(&mut reader), None);
    assert_eq!(reader.next(), None);
}

#[test]
fn raw_command_parses_colon_separated_hex() {
    let parse = cole_mine::raw_command::parse_raw_command;
    assert_eq!(parse("21:01:ff"), Some(vec![0x21, 0x01, 0xff]));
    assert_eq!(parse("FF"), Some(vec![0xff]));
    assert_eq!(parse("+a:0001"), Some(vec![0x0a, 0x01]));
    assert_eq!(parse("100"), None);
    assert_eq!(parse("0x10"), None);
    assert_eq!(parse(""), None);
    assert_eq!(parse("1::2"), None);
    assert_eq!(parse("+"), None);
    assert_eq!(parse("-1"), None);
    assert_eq!(parse("é"), None);
}
