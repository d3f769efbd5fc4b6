use elasticsearch_exporter::config::{Conf, Mode, INVALID_HEADER, INVALID_MODE};
use elasticsearch_exporter::header::{ExplicitHeader, MODE_HEADER};
use elasticsearch_exporter::text::ascii_str;

#[test]
fn mode_names_are_parsed() {
    assert_eq!(Mode::try_from_str("standard"), Ok(Mode::Standard));
    assert_eq!(Mode::try_from_str("simple"), Ok(Mode::Simple));
}

#[test]
fn other_mode_names_are_refused() {
    assert_eq!(Mode::try_from_str("Standard"), Err(INVALID_MODE));
    assert_eq!(Mode::try_from_str(""), Err(INVALID_MODE));
    assert_eq!(Mode::try_from_str("simple "), Err(INVALID_MODE));
    assert_eq!(INVALID_MODE, "Invalid mode value");
}

#[test]
fn try_from_trait_parses_mode_names() {
    assert_eq!(Mode::try_from("simple"), Ok(Mode::Simple));
    let r: Result<Mode, &str> = "standard".try_into();
    assert_eq!(r, Ok(Mode::Standard));
    assert_eq!(Mode::try_from("complex"), Err("Invalid mode value"));
}

#[test]
fn header_bytes_name_a_mode() {
    assert_eq!(Mode::try_from_header(b"standard"), Ok(Mode::Standard));
    assert_eq!(Mode::try_from_header(b"simple"), Ok(Mode::Simple));
}

#[test]
fn header_bytes_outside_visible_ascii_are_refused() {
    assert_eq!(Mode::try_from_header(b"simp\x7fle"), Err(INVALID_HEADER));
    assert_eq!(Mode::try_from_header(b"simple\n"), Err(INVALID_HEADER));
    assert_eq!(Mode::try_from_header("sïmple".as_bytes()), Err(INVALID_HEADER));
    assert_eq!(INVALID_HEADER, "Invalid header value");
}

#[test]
fn visible_header_bytes_that_name_no_mode_are_refused() {
    // A tab is visible to a header; the text is then not a mode name.
    assert_eq!(Mode::try_from_header(b"\tsimple"), Err(INVALID_MODE));
    assert_eq!(Mode::try_from_header(b""), Err(INVALID_MODE));
    assert_eq!(Mode::try_from_header(b"SIMPLE"), Err(INVALID_MODE));
}

#[test]
fn explicit_header_absent_names_no_mode() {
    let h = ExplicitHeader::from_header_value(None).unwrap();
    assert_eq!(h.0, None);
}

#[test]
fn explicit_header_present_names_its_mode() {
    let h = ExplicitHeader::from_header_value(Some(b"simple".as_slice())).unwrap();
    assert_eq!(h.0, Some(Mode::Simple));
    let h = ExplicitHeader::from_header_value(Some(b"standard".as_slice())).unwrap();
    assert_eq!(h.0, Some(Mode::Standard));
}

#[test]
fn explicit_header_with_bad_value_is_refused() {
    assert!(matches!(
        ExplicitHeader::from_header_value(Some(b"fast".as_slice())),
        Err("Invalid mode value")
    ));
    assert!(matches!(
        ExplicitHeader::from_header_value(Some(b"\x00".as_slice())),
        Err("Invalid header value")
    ));
    assert_eq!(MODE_HEADER, "EXPORTER_MODE");
}

#[test]
fn ascii_bytes_read_as_text() {
    assert_eq!(ascii_str(b"simple"), "simple");
    assert_eq!(ascii_str(b""), "");
}

#[test]
fn conf_holds_its_settings() {
    let c = Conf {
        addr: "http://127.0.0.1:9200".to_string(),
        username: String::new(),
        password: String::new(),
        exporter_mode: Mode::Simple,
    };
    assert_eq!(c.exporter_mode, Mode::Simple);
    assert_eq!(c.addr, "http://127.0.0.1:9200");
}

#[test]
fn try_from_header_bytes_reads_their_text() {
    assert_eq!(Mode::try_from(&b"standard"[..]), Ok(Mode::Standard));
    assert_eq!(Mode::try_from(&b"simple"[..]), Ok(Mode::Simple));
    assert_eq!(Mode::try_from(&b"complex"[..]), Err("Invalid mode value"));
    assert_eq!(Mode::try_from(&b"simple\x00"[..]), Err("Invalid header value"));
    assert_eq!(Mode::try_from(&b"simple\t"[..]), Err("Invalid mode value"));
}
