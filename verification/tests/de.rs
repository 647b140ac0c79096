use quick_xml::events::Event;
use quick_xml::Reader;
use xmile::text::trim;
use xmile::de::{
    parse_non_negative, read_text_step, skip_element_step, Attrs, DeserializeError, ReadEvent, SkipStep, VarAttrs, XmlCursor,
};

fn to_read_event(ev: Event<'_>) -> ReadEvent {
    match ev {
        Event::Start(e) => ReadEvent::Start(e.name().as_ref().to_vec()),
        Event::End(e) => ReadEvent::End(e.name().as_ref().to_vec()),
        Event::Empty(e) => ReadEvent::Empty(e.name().as_ref().to_vec()),
        Event::Text(e) => ReadEvent::Text(e.as_ref().to_vec()),
        Event::CData(e) => ReadEvent::CData(e.as_ref().to_vec()),
        Event::Eof => ReadEvent::Eof,
        _ => ReadEvent::Other,
    }
}

fn skip(reader: &mut Reader<&[u8]>, buf: &mut Vec<u8>, tag_name: &[u8]) -> Result<(), DeserializeError> {
    let mut depth = 1u32;
    loop {
        buf.clear();
        let ev = to_read_event(reader.read_event_into(buf).unwrap());
        match skip_element_step(depth, &ev, tag_name)? {
            SkipStep::Done => return Ok(()),
            SkipStep::Continue(d) => depth = d,
        }
    }
}

fn read_text(reader: &mut Reader<&[u8]>, buf: &mut Vec<u8>) -> Result<String, DeserializeError> {
    let mut text = String::new();
    loop {
        buf.clear();
        let ev = to_read_event(reader.read_event_into(buf).unwrap());
        if read_text_step(&mut text, &ev)? {
            return Ok(text);
        }
    }
}

fn attrs_of(xml: &str) -> Result<Attrs, DeserializeError> {
    let mut reader = Reader::from_str(xml);
    reader.trim_text(true);
    let mut buf = Vec::new();
    match reader.read_event_into(&mut buf).unwrap() {
        Event::Empty(e) | Event::Start(e) => Attrs::from_start(&e, &reader),
        _ => panic!("Expected a tag"),
    }
}

#[test]
fn test_attrs_parsing() {
    let xml = r#"<element name="test" value="123" flag="true"/>"#;
    let mut reader = Reader::from_str(xml);
    reader.trim_text(true);
    let mut buf = Vec::new();

    match reader.read_event_into(&mut buf).unwrap() {
        Event::Empty(e) => {
            let attrs = Attrs::from_start(&e, &reader).unwrap();
            assert_eq!(attrs.get_req("name").unwrap(), "test");
            assert_eq!(attrs.get_req_i32("value").unwrap(), 123);
            assert_eq!(attrs.get_opt_bool("flag").unwrap(), Some(true));
            assert!(attrs.get_opt("missing").is_none());
        }
        _ => panic!("Expected Empty event"),
    }
}

#[test]
fn test_attrs_missing_required() {
    let xml = r#"<element/>"#;
    let mut reader = Reader::from_str(xml);
    reader.trim_text(true);
    let mut buf = Vec::new();

    match reader.read_event_into(&mut buf).unwrap() {
        Event::Empty(e) => {
            let attrs = Attrs::from_start(&e, &reader).unwrap();
            let err = attrs.get_req("missing").unwrap_err();
            assert!(err.message().contains("element@missing"));
        }
        _ => panic!("Expected Empty event"),
    }
}

#[test]
fn test_skip_element_simple() {
    let xml = r#"<root><child>text</child></root>"#;
    let mut reader = Reader::from_str(xml);
    reader.trim_text(true);
    let mut buf = Vec::new();

    match reader.read_event_into(&mut buf).unwrap() {
        Event::Start(e) if e.name().as_ref() == b"root" => {}
        e => panic!("Expected Start(root), got {:?}", e),
    }

    buf.clear();
    match reader.read_event_into(&mut buf).unwrap() {
        Event::Start(e) if e.name().as_ref() == b"child" => {
            skip(&mut reader, &mut buf, b"child").unwrap();
        }
        e => panic!("Expected Start(child), got {:?}", e),
    }

    buf.clear();
    match reader.read_event_into(&mut buf).unwrap() {
        Event::End(e) if e.name().as_ref() == b"root" => {}
        e => panic!("Expected End(root), got {:?}", e),
    }
}

#[test]
fn test_skip_element_nested() {
    let xml = r#"<outer><inner><deep>content</deep></inner></outer>"#;
    let mut reader = Reader::from_str(xml);
    reader.trim_text(true);
    let mut buf = Vec::new();

    match reader.read_event_into(&mut buf).unwrap() {
        Event::Start(e) if e.name().as_ref() == b"outer" => {}
        e => panic!("Expected Start(outer), got {:?}", e),
    }

    buf.clear();
    match reader.read_event_into(&mut buf).unwrap() {
        Event::Start(e) if e.name().as_ref() == b"inner" => {
            skip(&mut reader, &mut buf, b"inner").unwrap();
        }
        e => panic!("Expected Start(inner), got {:?}", e),
    }

    buf.clear();
    match reader.read_event_into(&mut buf).unwrap() {
        Event::End(e) if e.name().as_ref() == b"outer" => {}
        e => panic!("Expected End(outer), got {:?}", e),
    }
}

#[test]
fn test_cursor_read_text() {
    let xml = r#"<root>hello world</root>"#;
    let mut reader = Reader::from_str(xml);
    reader.trim_text(true);
    let mut buf = Vec::new();

    match reader.read_event_into(&mut buf).unwrap() {
        Event::Start(_) => {
            buf.clear();
            let text = read_text(&mut reader, &mut buf).unwrap();
            assert_eq!(text, "hello world");
        }
        _ => panic!("Expected Start event"),
    }
}

#[test]
fn skip_same_name_nested_closes_outermost() {
    let xml = r#"<a><a>x</a><b/></a><c/>"#;
    let mut reader = Reader::from_str(xml);
    reader.trim_text(true);
    let mut buf = Vec::new();
    match reader.read_event_into(&mut buf).unwrap() {
        Event::Start(_) => {}
        e => panic!("unexpected {:?}", e),
    }
    skip(&mut reader, &mut buf, b"a").unwrap();
    buf.clear();
    match reader.read_event_into(&mut buf).unwrap() {
        Event::Empty(e) if e.name().as_ref() == b"c" => {}
        e => panic!("Expected Empty(c), got {:?}", e),
    }
}

#[test]
fn skip_step_reports_end_of_document() {
    assert_eq!(skip_element_step(1, &ReadEvent::Eof, b"x"), Err(DeserializeError::UnexpectedEof));
    assert_eq!(skip_element_step(3, &ReadEvent::Start(b"y".to_vec()), b"x"), Ok(SkipStep::Continue(4)));
    assert_eq!(skip_element_step(2, &ReadEvent::End(b"x".to_vec()), b"x"), Ok(SkipStep::Continue(1)));
    assert_eq!(skip_element_step(1, &ReadEvent::End(b"x".to_vec()), b"x"), Ok(SkipStep::Done));
    assert_eq!(skip_element_step(1, &ReadEvent::Text(b"t".to_vec()), b"x"), Ok(SkipStep::Continue(1)));
}

#[test]
fn read_text_unescapes_and_keeps_cdata() {
    let mut text = String::from("a");
    assert_eq!(read_text_step(&mut text, &ReadEvent::Text(b"1 &lt; 2".to_vec())), Ok(false));
    assert_eq!(text, "a1 < 2");
    assert_eq!(read_text_step(&mut text, &ReadEvent::CData(b"&amp;".to_vec())), Ok(false));
    assert_eq!(text, "a1 < 2&amp;");
    assert_eq!(read_text_step(&mut text, &ReadEvent::Other), Ok(false));
    assert_eq!(read_text_step(&mut text, &ReadEvent::End(b"r".to_vec())), Ok(true));
    assert_eq!(text, "a1 < 2&amp;");
}

#[test]
fn read_text_errors() {
    let mut text = String::new();
    assert_eq!(read_text_step(&mut text, &ReadEvent::Eof), Err(DeserializeError::UnexpectedEof));
    assert!(matches!(read_text_step(&mut text, &ReadEvent::Text(b"&bogus;".to_vec())), Err(DeserializeError::Xml(_))));
    assert!(matches!(read_text_step(&mut text, &ReadEvent::Text(vec![0xff, 0xfe])), Err(DeserializeError::Xml(_))));
    assert_eq!(text, "");
}

#[test]
fn attrs_unescape_values_once() {
    let attrs = attrs_of(r#"<e a="x &amp;amp; y" b='&lt;&gt;'/>"#).unwrap();
    assert_eq!(attrs.get_opt("a"), Some("x &amp; y"));
    assert_eq!(attrs.get_opt("b"), Some("<>"));
    assert_eq!(attrs.element_name(), "e");
    assert!(attrs.has("a"));
    assert!(!attrs.has("c"));
    let mut keys = attrs.keys();
    keys.sort();
    assert_eq!(keys, vec!["a".to_string(), "b".to_string()]);
}

#[test]
fn attrs_bad_reference_is_xml_error() {
    assert!(matches!(attrs_of(r#"<e a="&nope;"/>"#), Err(DeserializeError::Xml(_))));
}

#[test]
fn attrs_integer_errors() {
    let attrs = attrs_of(r#"<obj n="-7" big="99999999999" word="abc" empty="" neg="-1"/>"#).unwrap();
    assert_eq!(attrs.get_opt_i32("n"), Ok(Some(-7)));
    assert_eq!(attrs.get_opt_i32("absent"), Ok(None));
    assert_eq!(
        attrs.get_req_i32("big"),
        Err(DeserializeError::Custom(
            "Invalid value for obj@big: number too large to fit in target type (got '99999999999')".to_string()
        ))
    );
    assert_eq!(
        attrs.get_req_i32("word"),
        Err(DeserializeError::Custom("Invalid value for obj@word: invalid digit found in string (got 'abc')".to_string()))
    );
    assert_eq!(
        attrs.get_opt_u32("empty"),
        Err(DeserializeError::Custom(
            "Invalid value for obj@empty: cannot parse integer from empty string (got '')".to_string()
        ))
    );
    assert_eq!(
        attrs.get_req_u32("neg"),
        Err(DeserializeError::Custom("Invalid value for obj@neg: invalid digit found in string (got '-1')".to_string()))
    );
    assert_eq!(attrs.get_req_u32("absent"), Err(DeserializeError::MissingField("obj@absent".to_string())));
}

#[test]
fn attrs_bool_forms() {
    let attrs = attrs_of(r#"<e a="TRUE" b="0" c="yes" d="No" e="maybe"/>"#).unwrap();
    assert_eq!(attrs.get_opt_bool("a"), Ok(Some(true)));
    assert_eq!(attrs.get_opt_bool("b"), Ok(Some(false)));
    assert_eq!(attrs.get_opt_bool("c"), Ok(Some(true)));
    assert_eq!(attrs.get_opt_bool("d"), Ok(Some(false)));
    assert_eq!(attrs.get_opt_bool("z"), Ok(None));
    assert_eq!(attrs.get_bool_or("z", true), Ok(true));
    assert_eq!(
        attrs.get_opt_bool("e"),
        Err(DeserializeError::Custom("Invalid boolean for e@e: 'maybe' (expected true/false)".to_string()))
    );
}

#[test]
fn attrs_later_duplicate_wins_in_from_pairs() {
    let attrs = Attrs::from_pairs(
        "x",
        vec![("k".to_string(), "1".to_string()), ("k".to_string(), "2".to_string())],
    );
    assert_eq!(attrs.get_opt("k"), Some("2"));
    assert_eq!(attrs.get_req_string("k"), Ok("2".to_string()));
    assert_eq!(attrs.get_opt_string("q"), None);
    assert_eq!(Attrs::empty().keys().len(), 0);
}

#[test]
fn var_attrs_reads_common_attributes() {
    let attrs = attrs_of(r#"<aux name="Population" access="output" autoexport="true" type="continuous"/>"#).unwrap();
    let v = VarAttrs::from_attrs(&attrs).unwrap();
    assert_eq!(v.name.as_deref(), Some("Population"));
    assert_eq!(v.access.as_deref(), Some("output"));
    assert_eq!(v.autoexport, Some(true));
    assert_eq!(v.gf_type.as_deref(), Some("continuous"));
    assert_eq!(v.resource, None);
    let bad = attrs_of(r#"<aux autoexport="sometimes"/>"#).unwrap();
    assert!(VarAttrs::from_attrs(&bad).is_err());
}

#[test]
fn cursor_path_and_errors() {
    let mut reader = Reader::from_str("<a/>");
    let mut buf = Vec::new();
    let mut cursor = XmlCursor::new(&mut reader, &mut buf);
    assert_eq!(cursor.error("bad"), DeserializeError::Custom("bad".to_string()));
    assert_eq!(cursor.missing_field("f"), DeserializeError::MissingField("f".to_string()));
    cursor.push_path("xmile");
    cursor.push_path("model");
    assert_eq!(cursor.path_str(), "xmile/model");
    assert_eq!(cursor.error("bad"), DeserializeError::Custom("bad (at xmile/model)".to_string()));
    assert_eq!(cursor.missing_field("f"), DeserializeError::MissingField("xmile/model/f".to_string()));
    cursor.pop_path();
    assert_eq!(cursor.path_str(), "xmile");
    cursor.pop_path();
    cursor.pop_path();
    assert_eq!(cursor.path_str(), "");
}

#[test]
fn cursor_parses_attributes() {
    let mut reader = Reader::from_str(r#"<stock name="S"/>"#);
    let mut buf = Vec::new();
    let ev = reader.read_event_into(&mut buf).unwrap().into_owned();
    let mut buf2 = Vec::new();
    let cursor = XmlCursor::new(&mut reader, &mut buf2);
    match ev {
        Event::Empty(e) => {
            let attrs = cursor.parse_attrs(&e).unwrap();
            assert_eq!(attrs.get_req("name"), Ok("S"));
        }
        _ => panic!("Expected Empty event"),
    }
}

#[test]
fn deserialize_error_messages() {
    assert_eq!(DeserializeError::MissingField("a@b".to_string()).message(), "missing field: a@b");
    assert_eq!(DeserializeError::Custom("c".to_string()).message(), "c");
    assert_eq!(DeserializeError::UnexpectedEof.message(), "unexpected end of file");
    assert_eq!(
        DeserializeError::UnexpectedElement { expected: "views".to_string(), found: "view".to_string() }.message(),
        "expected element views, found view"
    );
    assert_eq!(DeserializeError::Xml("m".to_string()).message(), "XML error: m");
}

#[test]
fn read_text_cdata_replaces_invalid_bytes() {
    let mut text = String::new();
    assert_eq!(read_text_step(&mut text, &ReadEvent::CData(vec![b'a', 0xff, b'b'])), Ok(false));
    assert_eq!(text, "a\u{FFFD}b");
}

#[test]
fn non_negative_text() {
    assert_eq!(parse_non_negative("true"), Ok(Some(true)));
    assert_eq!(parse_non_negative("  false\n"), Ok(Some(false)));
    assert_eq!(parse_non_negative(""), Ok(None));
    assert_eq!(parse_non_negative(" \t "), Ok(None));
    assert_eq!(
        parse_non_negative(" yes "),
        Err(DeserializeError::Custom("Invalid non_negative value:  yes ".to_string()))
    );
}

#[test]
fn trimming_white_space() {
    assert_eq!(trim("  a b \u{3000}"), "a b");
    assert_eq!(trim("\u{a0}x\u{2009}"), "x");
    assert_eq!(trim(""), "");
    assert_eq!(trim(" \r\n"), "");
    assert_eq!(trim("z"), "z");
}

#[test]
fn attributes_of_tag_content() {
    let a = Attrs::from_tag_content("stock name=\"a &amp; b\" x='1'", 5).unwrap();
    assert_eq!(a.element_name(), "stock");
    assert_eq!(a.get_opt("name"), Some("a & b"));
    assert_eq!(a.get_opt("x"), Some("1"));
    let e = Attrs::from_tag_content("stock name=\"a\" name=\"b\"", 5).unwrap_err();
    assert!(matches!(e, DeserializeError::Xml(_)));
    let e = Attrs::from_tag_content("stock name=\"&bogus;\"", 5).unwrap_err();
    assert!(matches!(e, DeserializeError::Xml(_)));
    let a = Attrs::from_tag_content("empty", 5).unwrap();
    assert!(a.keys().is_empty());
}

#[test]
fn attributes_of_a_read_start_tag() {
    let mut reader = Reader::from_str("<aux name='growth' access=\"input\"/>");
    let mut buf = Vec::new();
    match reader.read_event_into(&mut buf).unwrap() {
        Event::Empty(e) => {
            let a = Attrs::from_start(&e, &reader).unwrap();
            assert_eq!(a.element_name(), "aux");
            assert_eq!(a.get_opt("name"), Some("growth"));
            assert_eq!(a.get_opt("access"), Some("input"));
        }
        _ => panic!("expected an empty tag"),
    }
}
