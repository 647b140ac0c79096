use quick_xml::events::{BytesStart, Event};
use quick_xml::Writer;
use xmile::ser::{AttrList, EventKind, XmlEmitter};

#[test]
fn test_attr_list_bool_default() {
    let mut attrs = AttrList::new();
    attrs
        .add_bool_if_not_default("show", true, true) // same as default, skip
        .add_bool_if_not_default("hide", false, true); // different, include

    assert_eq!(attrs.len(), 1);
}

// The library writes numbers as text; `100.0` and `10.0` are written `100` and `10`.
#[test]
fn test_attr_list_basic() {
    let mut attrs = AttrList::new();
    assert!(attrs.is_empty());
    attrs.add("name", "test").add("x", "100").add_i32("z", -5).add_bool("visible", true);

    assert_eq!(attrs.len(), 4);
    assert!(!attrs.is_empty());
    let pairs: Vec<(&str, &str)> = attrs.pairs().iter().map(|(k, v)| (k.as_str(), v.as_str())).collect();
    assert_eq!(pairs, vec![("name", "test"), ("x", "100"), ("z", "-5"), ("visible", "true")]);
}

#[test]
fn test_emitter_empty_with_attrs() {
    let mut emit = XmlEmitter::new();
    let mut attrs = AttrList::new();
    attrs.add("id", "123").add("x", "10");
    emit.empty_elem_with_attrs("point", &attrs);

    let mut output = Vec::new();
    let mut writer = Writer::new(&mut output);
    for e in emit.events() {
        assert_eq!(e.kind, EventKind::Empty);
        let mut start = BytesStart::new(e.content.as_str());
        for (k, v) in &e.attrs {
            start.push_attribute((k.as_str(), v.as_str()));
        }
        writer.write_event(Event::Empty(start)).unwrap();
    }
    let result = String::from_utf8(output).unwrap();
    assert!(result.contains("id=\"123\""));
    assert!(result.contains("x=\"10\""));
    assert!(result.ends_with("/>"));
}

#[test]
fn every_add_leaves_the_list_non_empty() {
    let mut a = AttrList::new();
    a.add_i32("n", 1);
    assert!(!a.is_empty());
    let mut b = AttrList::new();
    b.add_u32("n", 1);
    assert!(!b.is_empty());
    let mut c = AttrList::new();
    c.add_bool("b", false);
    assert!(!c.is_empty());
    let mut d = AttrList::new();
    d.add_opt("o", None);
    assert!(d.is_empty());
}
