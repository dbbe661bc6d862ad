use spanfmt::fields::FieldText;
use spanfmt::layer::{Layer, Level, SpanMeta, SpanRef};

fn ft(name: &str, value: &str) -> FieldText {
    FieldText { name: name.to_string(), value: value.to_string() }
}

fn meta(file: Option<&str>, name: &str, line: Option<u32>) -> SpanMeta {
    SpanMeta { file: file.map(|f| f.to_string()), name: name.to_string(), line }
}

#[test]
fn event_with_one_span_and_field() {
    let mut layer = Layer::new("app").unwrap();
    layer.on_new_span(1, 0, &vec![ft("id", "42")]);
    let scope = vec![SpanRef { id: 1, meta: meta(Some("src/main.rs"), "req", Some(10)) }];
    let rec = layer.on_event(Level::Info, &vec![ft("message", "done")], "myapp::req", &scope);
    assert_eq!(
        rec.text,
        b"done\n|> myapp::req: \n#0 |> \"src/main.rs\"@req#10 {\n  id: 42,\n}\n".to_vec()
    );
    assert_eq!(rec.level, Level::Info);
    assert_eq!(rec.tag, b"app".to_vec());
}

#[test]
fn event_without_scope_or_fields() {
    let layer = Layer::new("app").unwrap();
    let rec = layer.on_event(Level::Warn, &vec![], "myapp", &vec![]);
    assert_eq!(rec.text, b"|> myapp".to_vec());
    assert_eq!(rec.level, Level::Warn);
}

#[test]
fn two_nested_spans_root_first() {
    let mut layer = Layer::new("app").unwrap();
    layer.on_new_span(1, 0, &vec![]);
    layer.on_new_span(2, 1, &vec![ft("k", "1")]);
    let scope = vec![
        SpanRef { id: 1, meta: meta(None, "outer", None) },
        SpanRef { id: 2, meta: meta(None, "inner", None) },
    ];
    let rec = layer.on_event(Level::Debug, &vec![], "t", &scope);
    assert_eq!(rec.text, b"|> t: \n#0 |> @outer {}\n#1 |> @inner {\n  k: 1,\n}\n".to_vec());
}

#[test]
fn updates_accumulate_in_call_order() {
    let mut layer = Layer::new("app").unwrap();
    layer.on_new_span(5, 0, &vec![ft("a", "1")]);
    layer.on_record(5, 0, &vec![ft("a", "2")]);
    layer.on_record(5, 0, &vec![ft("b", "3"), ft("a", "1")]);
    let scope = vec![SpanRef { id: 5, meta: meta(None, "s", None) }];
    let rec = layer.on_event(Level::Trace, &vec![], "t", &scope);
    assert_eq!(
        rec.text,
        b"|> t: \n#0 |> @s {\n  a: 1,\n  a: 2,\n  b: 3,\n  a: 1,\n}\n".to_vec()
    );
}

#[test]
fn update_for_unknown_span_is_a_no_op() {
    let mut layer = Layer::new("app").unwrap();
    layer.on_record(9, 0, &vec![ft("x", "1")]);
    let scope = vec![SpanRef { id: 9, meta: meta(None, "s", None) }];
    let rec = layer.on_event(Level::Error, &vec![], "t", &scope);
    assert_eq!(rec.text, b"|> t: \n#0 |> @s {}\n".to_vec());
}

#[test]
fn message_field_unprefixed_at_event_level_only() {
    let mut layer = Layer::new("app").unwrap();
    layer.on_new_span(1, 0, &vec![ft("message", "\"kept\"")]);
    let scope = vec![SpanRef { id: 1, meta: meta(None, "s", None) }];
    let rec = layer.on_event(Level::Info, &vec![ft("message", "bare")], "t", &scope);
    assert_eq!(
        rec.text,
        b"bare\n|> t: \n#0 |> @s {\n  message: \"kept\",\n}\n".to_vec()
    );
}

#[test]
fn non_message_event_fields_keep_prefix() {
    let layer = Layer::new("app").unwrap();
    let rec = layer.on_event(Level::Info, &vec![ft("code", "7"), ft("msg", "\"x\"")], "t", &vec![]);
    assert_eq!(rec.text, b"  code: 7,\n  msg: \"x\",\n|> t".to_vec());
}

#[test]
fn repeated_identical_events_are_byte_identical() {
    let mut a = Layer::new("app").unwrap();
    let mut b = Layer::new("app").unwrap();
    for layer in [&mut a, &mut b] {
        layer.on_new_span(1, 0, &vec![ft("id", "1")]);
        layer.on_record(1, 0, &vec![ft("id", "2")]);
    }
    let fields = vec![ft("message", "tick")];
    let first = a.on_event(Level::Info, &fields, "t", &vec![]);
    let second = a.on_event(Level::Info, &fields, "t", &vec![]);
    let other = b.on_event(Level::Info, &fields, "t", &vec![]);
    assert_eq!(first.text, second.text);
    assert_eq!(first.text, other.text);
    assert_eq!(first.text, b"tick\n|> t".to_vec());
}

#[test]
fn span_created_again_starts_fresh() {
    let mut layer = Layer::new("app").unwrap();
    layer.on_new_span(1, 0, &vec![ft("a", "1")]);
    layer.on_new_span(1, 0, &vec![ft("b", "2")]);
    let scope = vec![SpanRef { id: 1, meta: meta(None, "s", None) }];
    let rec = layer.on_event(Level::Info, &vec![], "t", &scope);
    assert_eq!(rec.text, b"|> t: \n#0 |> @s {\n  b: 2,\n}\n".to_vec());
}

#[test]
fn metadata_parts_absent_are_omitted() {
    let mut layer = Layer::new("app").unwrap();
    layer.on_new_span(1, 0, &vec![]);
    let with_file = vec![SpanRef { id: 1, meta: meta(Some("a.rs"), "s", None) }];
    let with_line = vec![SpanRef { id: 1, meta: meta(None, "s", Some(1234567)) }];
    let rec_file = layer.on_event(Level::Info, &vec![], "t", &with_file);
    let rec_line = layer.on_event(Level::Info, &vec![], "t", &with_line);
    assert_eq!(rec_file.text, b"|> t: \n#0 |> \"a.rs\"@s {}\n".to_vec());
    assert_eq!(rec_line.text, b"|> t: \n#0 |> @s#1234567 {}\n".to_vec());
}

#[test]
fn hierarchy_indexes_pass_ten() {
    let mut layer = Layer::new("app").unwrap();
    let mut scope = Vec::new();
    for i in 0..11u64 {
        layer.on_new_span(i, i as usize, &vec![]);
        scope.push(SpanRef { id: i, meta: meta(None, "s", None) });
    }
    let rec = layer.on_event(Level::Info, &vec![], "t", &scope);
    let text = String::from_utf8(rec.text).unwrap();
    assert!(text.contains("#9 |> @s {}\n#10 |> @s {}\n"));
    assert!(text.ends_with("#10 |> @s {}\n"));
}

#[test]
fn non_ascii_field_text_is_utf8() {
    let layer = Layer::new("app").unwrap();
    let rec = layer.on_event(Level::Info, &vec![ft("h\u{e9}llo", "\"\u{2713}\"")], "t", &vec![]);
    assert_eq!(rec.text, "  héllo: \"✓\",\n|> t".as_bytes().to_vec());
}
