use quick_xml::events::{BytesCData, BytesDecl, BytesEnd, BytesStart, BytesText, Event};
use quick_xml::Writer;
use xmile::ser::{AttrList, EventKind, XmlEmitter, XmlEvent};

fn render(events: &[XmlEvent]) -> String {
    let mut output = Vec::new();
    let mut writer = Writer::new(&mut output);
    for e in events {
        let ev = match e.kind {
            EventKind::Decl => Event::Decl(BytesDecl::new("1.0", Some("UTF-8"), None)),
            EventKind::Start | EventKind::Empty => {
                let mut start = BytesStart::new(e.content.as_str());
                for (k, v) in &e.attrs {
                    start.push_attribute((k.as_str(), v.as_str()));
                }
                if e.kind == EventKind::Start {
                    Event::Start(start)
                } else {
                    Event::Empty(start)
                }
            }
            EventKind::End => Event::End(BytesEnd::new(e.content.as_str())),
            EventKind::Text => Event::Text(BytesText::new(e.content.as_str())),
            EventKind::CData => Event::CData(BytesCData::new(e.content.as_str())),
        };
        writer.write_event(ev).unwrap();
    }
    String::from_utf8(output).unwrap()
}

#[test]
fn test_emitter_text_elem() {
    let mut emit = XmlEmitter::new();
    emit.text_elem("greeting", "hello");
    let result = render(emit.events());
    assert_eq!(result, "<greeting>hello</greeting>");
}

#[test]
fn emitter_optional_elements() {
    let mut emit = XmlEmitter::new();
    emit.opt_text_elem("a", None);
    emit.opt_text_elem("b", Some("x"));
    emit.opt_empty_elem("c", Some(false));
    emit.opt_empty_elem("d", None);
    emit.opt_empty_elem("e", Some(true));
    emit.opt_cdata_elem("f", None);
    emit.opt_cdata_elem("g", Some("1 < 2"));
    assert_eq!(render(emit.events()), "<b>x</b><e/><g><![CDATA[1 < 2]]></g>");
}

#[test]
fn emitter_text_is_escaped_when_written() {
    let mut emit = XmlEmitter::new();
    emit.text_elem("t", "a < b & c");
    assert_eq!(render(emit.events()), "<t>a &lt; b &amp; c</t>");
}

#[test]
fn emitter_elements_with_attributes() {
    let mut attrs = AttrList::new();
    attrs.add("id", "123").add_i32("x", -10).add_bool("on", true);
    let mut emit = XmlEmitter::new();
    emit.empty_elem_with_attrs("point", &attrs);
    emit.text_elem_with_attrs("label", &attrs, "hi");
    let result = render(emit.events());
    assert_eq!(
        result,
        "<point id=\"123\" x=\"-10\" on=\"true\"/><label id=\"123\" x=\"-10\" on=\"true\">hi</label>"
    );
}

#[test]
fn emitter_start_and_end() {
    let mut attrs = AttrList::new();
    attrs.add("name", "m");
    let mut emit = XmlEmitter::new();
    emit.xml_decl();
    let start = emit.start_elem("model", &attrs);
    assert_eq!(emit.events().len(), 1);
    emit.write_start(&start);
    emit.empty_elem("variables");
    emit.write_end("model");
    assert_eq!(
        render(&emit.into_events()),
        "<?xml version=\"1.0\" encoding=\"UTF-8\"?><model name=\"m\"><variables/></model>"
    );
}

#[test]
fn emitter_non_negative() {
    let mut emit = XmlEmitter::new();
    emit.non_negative_elem(None);
    assert_eq!(render(emit.events()), "");
    emit.non_negative_elem(Some(None));
    emit.non_negative_elem(Some(Some(false)));
    emit.non_negative_elem(Some(Some(true)));
    assert_eq!(
        render(emit.events()),
        "<non_negative/><non_negative>false</non_negative><non_negative>true</non_negative>"
    );
}

#[test]
fn attr_list_contents() {
    let mut attrs = AttrList::default();
    assert!(attrs.is_empty());
    attrs
        .add("a", "1")
        .add_opt("b", Some("2"))
        .add_opt("c", None)
        .add_i32("d", -42)
        .add_opt_i32("e", Some(0))
        .add_opt_i32("f", None)
        .add_u32("g", 4294967295)
        .add_opt_u32("h", Some(7))
        .add_opt_u32("i", None)
        .add_bool("j", false)
        .add_opt_bool("k", Some(true))
        .add_opt_bool("l", None)
        .add_bool_if_not_default("m", true, false);
    assert_eq!(attrs.len(), 9);
    assert!(!attrs.is_empty());
    let pairs: Vec<(&str, &str)> = attrs.pairs().iter().map(|(k, v)| (k.as_str(), v.as_str())).collect();
    assert_eq!(
        pairs,
        vec![
            ("a", "1"),
            ("b", "2"),
            ("d", "-42"),
            ("e", "0"),
            ("g", "4294967295"),
            ("h", "7"),
            ("j", "false"),
            ("k", "true"),
            ("m", "true"),
        ]
    );
}
