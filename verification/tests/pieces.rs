use spanfmt::fields::{write_debug, write_event_field, SpanVisitor};
use spanfmt::layer::{put_metadata, Layer, SpanMeta, TagError, MAX_TAG_LEN};
use spanfmt::text::{append_dec, append_quoted, append_str};

#[test]
fn write_debug_exact_fragment() {
    let mut buf = Vec::new();
    write_debug(&mut buf, "id", "42");
    assert_eq!(buf, b"  id: 42,".to_vec());
}

#[test]
fn event_field_message_drops_prefix() {
    let mut buf = Vec::new();
    write_event_field(&mut buf, "message", "done");
    assert_eq!(buf, b"done\n".to_vec());
}

#[test]
fn event_field_other_keeps_prefix() {
    let mut buf = Vec::new();
    write_event_field(&mut buf, "messages", "done");
    assert_eq!(buf, b"  messages: done,\n".to_vec());
}

#[test]
fn visitor_appends_lines_in_order() {
    let mut v = SpanVisitor::new(Vec::new(), 3);
    v.record_debug("message", "\"x\"");
    v.record_debug("n", "1");
    assert_eq!(v.finish(), b"  message: \"x\",\n  n: 1,\n".to_vec());
}

#[test]
fn visitor_keeps_preexisting_buffer() {
    let mut v = SpanVisitor::new(b"  a: 1,\n".to_vec(), 0);
    v.record_debug("b", "2");
    assert_eq!(v.finish(), b"  a: 1,\n  b: 2,\n".to_vec());
}

#[test]
fn decimal_rendering() {
    let mut buf = Vec::new();
    append_dec(&mut buf, 0);
    append_dec(&mut buf, 42);
    append_dec(&mut buf, 10);
    append_dec(&mut buf, u64::MAX);
    assert_eq!(buf, b"0421018446744073709551615".to_vec());
}

#[test]
fn quoting_escapes_quote_backslash_newline() {
    let mut buf = Vec::new();
    append_quoted(&mut buf, "a\"b\\c\nd");
    assert_eq!(buf, b"\"a\\\"b\\\\c\\nd\"".to_vec());
}

#[test]
fn append_str_appends_bytes() {
    let mut buf = b"x".to_vec();
    append_str(&mut buf, "yz");
    assert_eq!(buf, b"xyz".to_vec());
}

#[test]
fn metadata_full_and_empty_forms() {
    let mut full = Vec::new();
    put_metadata(
        &mut full,
        &SpanMeta { file: Some("src/a.rs".to_string()), name: "req".to_string(), line: Some(7) },
    );
    assert_eq!(full, b"\"src/a.rs\"@req#7".to_vec());

    let mut bare = Vec::new();
    put_metadata(&mut bare, &SpanMeta { file: None, name: "req".to_string(), line: None });
    assert_eq!(bare, b"@req".to_vec());
}

#[test]
fn tag_at_cap_is_accepted() {
    let name = "a".repeat(MAX_TAG_LEN);
    let layer = Layer::new(&name).unwrap();
    let rec = layer.on_event(spanfmt::layer::Level::Info, &vec![], "t", &vec![]);
    assert_eq!(rec.tag, name.into_bytes());
}

#[test]
fn tag_over_cap_is_refused() {
    let name = "a".repeat(MAX_TAG_LEN + 1);
    match Layer::new(&name) {
        Ok(_) => panic!("tag over the cap was accepted"),
        Err(e) => assert_eq!(e, TagError::TooLong),
    }
}
