use ata_pio::{flip_bytes, RawString};

#[test]
fn flip_bytes_swaps_each_pair() {
    let mut bytes = [1u8, 2, 3, 4, 5, 6];
    flip_bytes(&mut bytes);
    assert_eq!(bytes, [2, 1, 4, 3, 6, 5]);
}

#[test]
fn flip_bytes_leaves_nothing_of_nothing() {
    let mut bytes: [u8; 0] = [];
    flip_bytes(&mut bytes);
    assert_eq!(bytes, []);
}

#[test]
fn flip_bytes_twice_is_the_identity() {
    let before: Vec<u8> = (0..=255u8).collect();
    let mut bytes = before.clone();
    flip_bytes(&mut bytes);
    assert_ne!(bytes, before);
    flip_bytes(&mut bytes);
    assert_eq!(bytes, before);
}

#[test]
fn flip_bytes_twice_is_the_identity_on_equal_pairs() {
    let mut bytes = vec![7u8, 7, 0, 0];
    flip_bytes(&mut bytes);
    assert_eq!(bytes, vec![7, 7, 0, 0]);
    flip_bytes(&mut bytes);
    assert_eq!(bytes, vec![7, 7, 0, 0]);
}

#[test]
fn flip_bytes_puts_an_ata_string_in_reading_order() {
    let mut bytes = *b"BADCFE";
    flip_bytes(&mut bytes);
    assert_eq!(&bytes, b"ABCDEF");
}

#[test]
fn nul_letter_and_line_feed() {
    let raw = RawString(&[0x00, 0x41, 0x0A]);
    assert_eq!(raw.fmt(), "\\0A\\n");
    assert_eq!(raw.quoted(), "b\"\\0A\\n\"");
}

#[test]
fn named_escapes() {
    assert_eq!(RawString(b"\\").fmt(), "\\\\");
    assert_eq!(RawString(b"\n").fmt(), "\\n");
    assert_eq!(RawString(b"\r").fmt(), "\\r");
    assert_eq!(RawString(b"\"").fmt(), "\\\"");
    assert_eq!(RawString(b"\0").fmt(), "\\0");
}

#[test]
fn printable_bytes_stand_for_themselves() {
    assert_eq!(RawString(b" ").fmt(), " ");
    assert_eq!(RawString(b"~").fmt(), "~");
    assert_eq!(RawString(b"Hello, world!").fmt(), "Hello, world!");
    assert_eq!(RawString(b"'a'").fmt(), "'a'");
}

#[test]
fn delete_is_escaped() {
    assert_eq!(RawString(&[127]).fmt(), "\\x7f");
    assert_eq!(RawString(&[126]).fmt(), "~");
    assert_eq!(RawString(&[127]).quoted(), "b\"\\x7f\"");
}

#[test]
fn other_bytes_are_two_lower_case_hex_digits() {
    assert_eq!(RawString(&[0x01]).fmt(), "\\x01");
    assert_eq!(RawString(&[0x09]).fmt(), "\\x09");
    assert_eq!(RawString(&[0x1f]).fmt(), "\\x1f");
    assert_eq!(RawString(&[0x80]).fmt(), "\\x80");
    assert_eq!(RawString(&[0xab]).fmt(), "\\xab");
    assert_eq!(RawString(&[0xff]).fmt(), "\\xff");
}

#[test]
fn every_byte_is_escaped_by_the_rule() {
    for b in 0..=255u8 {
        let expected = match b {
            b'\\' => "\\\\".to_string(),
            b'\n' => "\\n".to_string(),
            b'\r' => "\\r".to_string(),
            b'"' => "\\\"".to_string(),
            0 => "\\0".to_string(),
            32..=126 => format!("{}", b as char),
            _ => format!("\\x{:02x}", b),
        };
        assert_eq!(RawString(&[b]).fmt(), expected);
    }
}

#[test]
fn empty_bytes_are_an_empty_byte_string() {
    assert_eq!(RawString(&[]).fmt(), "");
    assert_eq!(RawString(&[]).quoted(), "b\"\"");
}

#[test]
fn bytes_are_escaped_one_after_another() {
    let raw = RawString(b"a\\b\"c\r\n\x00\x7f\x80");
    assert_eq!(raw.fmt(), "a\\\\b\\\"c\\r\\n\\0\\x7f\\x80");
    assert_eq!(raw.quoted(), "b\"a\\\\b\\\"c\\r\\n\\0\\x7f\\x80\"");
}

#[test]
fn what_is_shown_is_printable() {
    let all: Vec<u8> = (0..=255u8).collect();
    for shown in [RawString(&all).fmt(), RawString(&all).quoted()] {
        assert!(shown.bytes().all(|c| (0x20..=0x7e).contains(&c)));
    }
}
