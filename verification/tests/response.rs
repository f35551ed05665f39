use encoding::Encoding;
use impit::response_parsing::ByteOrderMark;
use impit::response_parsing::ContentType;
use impit::response_parsing::ascii_lossy_prefix;
use impit::response_parsing::bom_sniffing;
use impit::response_parsing::decode;
use impit::response_parsing::prescan_bytestream;

#[test]
fn bom_detection() {
    assert_eq!(bom_sniffing(&vec![0xef, 0xbb, 0xbf, 0x41]), Some(ByteOrderMark::Utf8));
    assert_eq!(bom_sniffing(&vec![0xfe, 0xff, 0x00, 0x41]), Some(ByteOrderMark::Utf16Be));
    assert_eq!(bom_sniffing(&vec![0xff, 0xfe, 0x41, 0x00]), Some(ByteOrderMark::Utf16Le));
    assert_eq!(bom_sniffing(&vec![0x41, 0x42, 0x43]), None);
    assert_eq!(bom_sniffing(&vec![0xfe, 0xff]), None);
}

#[test]
fn content_type_extracts_charset() {
    let ct = ContentType::from("text/html; charset=cp1250").expect("a declared charset");
    assert_eq!(ct.charset(), "cp1250");
}

#[test]
fn content_type_without_charset_is_refused() {
    assert!(ContentType::from("text/html").is_err());
    assert!(ContentType::from("").is_err());
}

#[test]
fn content_type_with_empty_charset_is_refused() {
    assert!(ContentType::from("text/html; charset=").is_err());
}

#[test]
fn content_type_with_two_charsets_is_refused() {
    assert!(ContentType::from("a charset=x; charset=y").is_err());
}

#[test]
fn ascii_prefix_replaces_high_bytes() {
    let s = ascii_lossy_prefix(&vec![0x61, 0x62, 0x63, 0x80], 4);
    assert_eq!(s, "abc\u{fffd}");
    let s2 = ascii_lossy_prefix(&vec![0x61, 0x62, 0x63, 0x80], 2);
    assert_eq!(s2, "ab");
}

#[test]
fn decode_plain_ascii_as_utf8() {
    let bytes = vec![0x48, 0x65, 0x6c, 0x6c, 0x6f];
    assert_eq!(decode(&bytes, None).as_deref(), Some("Hello"));
}

#[test]
fn decode_with_prior_knowledge_uses_the_named_encoding() {
    let bytes = vec![0x9e, 0x6c, 0x75, 0x9d, 0x6f, 0x75, 0xe8, 0x6b, 0xfd];
    let expected = encoding::all::WINDOWS_1250
        .decode(&bytes, encoding::DecoderTrap::Strict)
        .expect("windows-1250 decodes these bytes");
    let got = decode(&bytes, Some(&"windows-1250".to_string()));
    assert_eq!(got, Some(expected));
}

#[test]
fn decode_follows_the_byte_order_mark() {
    let bytes = vec![0xfe, 0xff, 0x00, 0x48, 0x00, 0x69];
    let expected = encoding::all::UTF_16BE
        .decode(&bytes, encoding::DecoderTrap::Strict)
        .expect("utf-16be decodes these bytes");
    assert_eq!(decode(&bytes, None), Some(expected));
}

#[test]
fn decode_of_undecodable_bytes_fails() {
    assert_eq!(decode(&vec![0x80, 0x81, 0x82, 0x83], None), None);
}

#[test]
fn decode_with_unknown_prior_label_fails() {
    assert_eq!(decode(&vec![0x41], Some(&"no-such-encoding".to_string())), None);
}

#[test]
fn prescan_finds_meta_charset() {
    let html = b"<html><head><meta charset=\"windows-1250\"></head><body></body></html>";
    assert_eq!(prescan_bytestream(&html.to_vec()).as_deref(), Some("windows-1250"));
}

#[test]
fn prescan_finds_meta_content_type() {
    let html =
        b"<html><head><meta http-equiv=\"content-type\" content=\"text/html; charset=utf-8\"></head></html>";
    assert_eq!(prescan_bytestream(&html.to_vec()).as_deref(), Some("utf-8"));
}

#[test]
fn prescan_without_declaration_finds_nothing() {
    assert_eq!(prescan_bytestream(&b"<html><body>plain</body></html>".to_vec()), None);
    assert_eq!(prescan_bytestream(&b"abc".to_vec()), None);
}

#[test]
fn decode_uses_the_prescanned_charset() {
    let mut bytes = b"<html><meta charset=\"windows-1250\">".to_vec();
    bytes.push(0x9e);
    let expected = encoding::all::WINDOWS_1250
        .decode(&bytes, encoding::DecoderTrap::Strict)
        .expect("windows-1250 decodes the whole body");
    assert_eq!(decode(&bytes, None), Some(expected));
}
