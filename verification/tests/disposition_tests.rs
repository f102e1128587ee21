use download_gate::disposition::content_disposition_value;

#[test]
fn plain_filename() {
    assert_eq!(
        content_disposition_value("test.txt"),
        "attachment; filename=\"test.txt\""
    );
}

#[test]
fn filename_with_space() {
    assert_eq!(
        content_disposition_value("Q1 Report.pdf"),
        "attachment; filename=\"Q1 Report.pdf\""
    );
}

#[test]
fn double_quote_is_escaped() {
    assert_eq!(
        content_disposition_value("he\"llo.pdf"),
        "attachment; filename=\"he\\\"llo.pdf\""
    );
}

#[test]
fn quote_cannot_close_the_header_value() {
    // a name crafted to close the quoted string and smuggle a directive
    let value = content_disposition_value("x\"; dummy=\"y");
    assert_eq!(value, "attachment; filename=\"x\\\"; dummy=\\\"y\"");
}

#[test]
fn backslash_is_escaped() {
    assert_eq!(
        content_disposition_value("a\\b.txt"),
        "attachment; filename=\"a\\\\b.txt\""
    );
}

#[test]
fn control_characters_are_replaced() {
    assert_eq!(
        content_disposition_value("a\nb"),
        "attachment; filename=\"a_b\""
    );
    assert_eq!(
        content_disposition_value("a\rb"),
        "attachment; filename=\"a_b\""
    );
    assert_eq!(
        content_disposition_value("a\u{0}b"),
        "attachment; filename=\"a_b\""
    );
    assert_eq!(
        content_disposition_value("a\u{7f}b"),
        "attachment; filename=\"a_b\""
    );
}

#[test]
fn no_control_character_survives_a_hostile_name() {
    let value = content_disposition_value("evil\r\nSet-Cookie: x=y\"");
    assert!(value.chars().all(|c| (c as u32) >= 32 && (c as u32) != 127));
}

#[test]
fn non_ascii_passes_through() {
    assert_eq!(
        content_disposition_value("na\u{ef}ve r\u{e9}sum\u{e9}.pdf"),
        "attachment; filename=\"na\u{ef}ve r\u{e9}sum\u{e9}.pdf\""
    );
}

#[test]
fn empty_filename() {
    assert_eq!(content_disposition_value(""), "attachment; filename=\"\"");
}
