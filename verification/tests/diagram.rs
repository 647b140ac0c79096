use xmile::de::{Attrs, DeserializeError};
use xmile::diagram::{
    empty_diagram_view, finish_view_header, is_view_object_tag, view_attr_step, view_child_from_tag, view_attrs_from_attrs, view_child_step, view_children_step, ViewChild,
    ViewNumbers,
};
use xmile::model::{AliasObject, NamedObject, Uid, ViewObject};
use xmile::objects::{
    button_attrs_from_attrs, finish_button, parse_object_attrs, finish_table, image_from_attrs, connector_attrs_from_attrs, connector_child_step, display_attrs_from_attrs, empty_connector_parts, finish_connector,
    point_from_attrs, strip_pt, ConnectorChild, Point, switch_action_from_attrs, table_item_from_attrs, DisplayParses, table_attrs_from_attrs,
    table_header_style_from_attrs, BoundsNumbers, HeaderStyleParses,
};
use xmile::view::{LineStyle, Pointer, Polarity, BorderStyle, FontWeight, TableItemType, TextAlign, ButtonAppearance, ButtonStyle, PageOrientation, PageSequence, ReportBalances, TableOrientation, ViewType};

fn attrs(element: &str, pairs: &[(&str, &str)]) -> Attrs {
    Attrs::from_pairs(element, pairs.iter().map(|(k, v)| (k.to_string(), v.to_string())).collect())
}

fn num(a: &Attrs, key: &str) -> Option<Result<f64, String>> {
    a.get_opt(key).map(|t| t.parse::<f64>().map_err(|e| e.to_string()))
}

fn view_numbers(a: &Attrs) -> ViewNumbers<f64> {
    ViewNumbers {
        width: num(a, "width"),
        height: num(a, "height"),
        zoom: num(a, "zoom"),
        scroll_x: num(a, "scroll_x"),
        scroll_y: num(a, "scroll_y"),
        page_width: num(a, "page_width"),
        page_height: num(a, "page_height"),
    }
}

fn bounds(a: &Attrs) -> BoundsNumbers<f64> {
    BoundsNumbers { x: num(a, "x"), y: num(a, "y"), width: num(a, "width"), height: num(a, "height") }
}

#[test]
fn view_header_with_defaults() {
    let a = attrs(
        "view",
        &[("uid", "7"), ("width", "800"), ("height", "600"), ("page_width", "100"), ("page_height", "50"), ("page_orientation", "portrait")],
    );
    let v = view_attrs_from_attrs(&a, view_numbers(&a)).unwrap();
    let h = finish_view_header(v, true).unwrap();
    assert_eq!(h.uid.value, 7);
    assert_eq!(h.view_type, ViewType::StockFlow);
    assert_eq!(h.width, 800.0);
    assert_eq!(h.page_sequence, PageSequence::Row);
    assert_eq!(h.page_orientation, PageOrientation::Portrait);
    assert!(!h.show_pages);
    assert_eq!(h.home_page, 0);
}

#[test]
fn view_header_missing_fields_in_order() {
    let a = attrs("view", &[("height", "600")]);
    let v = view_attrs_from_attrs(&a, view_numbers(&a)).unwrap();
    assert_eq!(finish_view_header(v, true).unwrap_err(), DeserializeError::MissingField("uid".to_string()));
    let v = view_attrs_from_attrs(&a, view_numbers(&a)).unwrap();
    assert_eq!(finish_view_header(v, false).unwrap_err(), DeserializeError::MissingField("width".to_string()));
    let a = attrs("view", &[("width", "1"), ("height", "1"), ("page_width", "1")]);
    let v = view_attrs_from_attrs(&a, view_numbers(&a)).unwrap();
    assert_eq!(finish_view_header(v, false).unwrap_err(), DeserializeError::MissingField("page_height".to_string()));
}

#[test]
fn view_attribute_errors() {
    let a = attrs("view", &[("page_sequence", "diagonal")]);
    assert_eq!(
        view_attrs_from_attrs(&a, view_numbers(&a)).unwrap_err(),
        DeserializeError::Custom("Invalid page_sequence: diagonal".to_string())
    );
    let a = attrs("view", &[("type", "sketch"), ("uid", "1")]);
    assert_eq!(
        view_attrs_from_attrs(&a, view_numbers(&a)).unwrap_err(),
        DeserializeError::Custom("Invalid view type: sketch".to_string())
    );
    let a = attrs("view", &[("zoom", "big"), ("order", "x")]);
    assert_eq!(
        view_attrs_from_attrs(&a, view_numbers(&a)).unwrap_err(),
        DeserializeError::Custom("Invalid value for view@order: invalid digit found in string (got 'x')".to_string())
    );
}

#[test]
fn view_children_go_to_their_lists_in_order() {
    let mut v = empty_diagram_view(Uid::new(1));
    view_child_step(&mut v, ViewChild::Stock(NamedObject { uid: Uid::new(2), name: "a".to_string() }));
    view_child_step(&mut v, ViewChild::Connector(ViewObject { uid: Uid::new(3) }));
    view_child_step(&mut v, ViewChild::Stock(NamedObject { uid: Uid::new(4), name: "b".to_string() }));
    view_child_step(&mut v, ViewChild::Alias(AliasObject { uid: Uid::new(5), of: "a".to_string() }));
    view_child_step(&mut v, ViewChild::StackedContainer(ViewObject { uid: Uid::new(6) }));
    view_child_step(&mut v, ViewChild::Other);
    assert_eq!(v.stocks.iter().map(|s| s.name.as_str()).collect::<Vec<_>>(), vec!["a", "b"]);
    assert_eq!(v.connectors.len(), 1);
    assert_eq!(v.aliases[0].of, "a");
    assert_eq!(v.stacked_containers[0].uid.value, 6);
    assert!(v.flows.is_empty());
    assert_eq!(v.uid.value, 1);
}

#[test]
fn button_attributes_and_defaults() {
    let a = attrs(
        "button",
        &[("uid", "3"), ("x", "1"), ("y", "2"), ("width", "30"), ("height", "20"), ("appearance", "opaque"), ("style", "rounded"), ("label", "Go")],
    );
    let b = finish_button(button_attrs_from_attrs(&a, bounds(&a)).unwrap()).unwrap();
    assert_eq!(b.uid.value, 3);
    assert_eq!(b.appearance, ButtonAppearance::Opaque);
    assert_eq!(b.style, ButtonStyle::Rounded);
    assert_eq!(b.label, Some("Go".to_string()));
    assert!(!b.clicking_sound);
    let a = attrs("button", &[("uid", "3"), ("x", "1"), ("y", "2"), ("width", "30"), ("height", "20")]);
    assert_eq!(
        finish_button(button_attrs_from_attrs(&a, bounds(&a)).unwrap()).unwrap_err(),
        DeserializeError::MissingField("appearance".to_string())
    );
    let a = attrs("button", &[("style", "oval")]);
    assert_eq!(
        button_attrs_from_attrs(&a, bounds(&a)).unwrap_err(),
        DeserializeError::Custom("Invalid button style: oval".to_string())
    );
}

#[test]
fn image_and_switch_action_need_their_values() {
    let a = attrs("image", &[("height", "4"), ("resource", "pic.png")]);
    assert_eq!(
        image_from_attrs(&a, num(&a, "width"), num(&a, "height")).unwrap_err(),
        DeserializeError::MissingField("width".to_string())
    );
    let a = attrs("image", &[("width", "3"), ("height", "4"), ("size_to_parent", "true")]);
    let img = image_from_attrs(&a, num(&a, "width"), num(&a, "height")).unwrap();
    assert!(img.size_to_parent);
    assert_eq!((img.width, img.height), (3.0, 4.0));
    let a = attrs("switch_action", &[("entity_name", "v")]);
    assert_eq!(
        switch_action_from_attrs(&a, num(&a, "value")).unwrap_err(),
        DeserializeError::MissingField("value".to_string())
    );
    let a = attrs("switch_action", &[("entity_name", "v"), ("value", "1")]);
    let s = switch_action_from_attrs(&a, num(&a, "value")).unwrap();
    assert_eq!(s.entity_name, Some("v".to_string()));
    assert_eq!(s.value, 1.0);
}

#[test]
fn table_attributes_and_required_fields() {
    let a = attrs(
        "table",
        &[
            ("uid", "9"), ("x", "0"), ("y", "0"), ("width", "200"), ("height", "100"), ("orientation", "vertical"),
            ("column_width", "40"), ("interval", "DT"), ("report_balances", "ending"), ("report_flows", "summed"),
        ],
    );
    let t = table_attrs_from_attrs(&a, bounds(&a), num(&a, "column_width"), num(&a, "blank_column_width")).unwrap();
    let h = finish_table(t).unwrap();
    assert_eq!(h.orientation, TableOrientation::Vertical);
    assert_eq!(h.report_balances, ReportBalances::Ending);
    assert_eq!(h.interval, "DT");
    assert!(!h.comparative);
    let a = attrs("table", &[("uid", "9"), ("x", "0"), ("y", "0"), ("width", "200"), ("height", "100")]);
    let t = table_attrs_from_attrs(&a, bounds(&a), num(&a, "column_width"), num(&a, "blank_column_width")).unwrap();
    assert_eq!(finish_table(t).unwrap_err(), DeserializeError::MissingField("orientation".to_string()));
    let a = attrs("table", &[("report_flows", "sometimes")]);
    assert_eq!(
        table_attrs_from_attrs(&a, bounds(&a), num(&a, "column_width"), num(&a, "blank_column_width")).unwrap_err(),
        DeserializeError::Custom("Invalid report flows: sometimes".to_string())
    );
}

#[test]
fn a_run_of_view_children_keeps_document_order() {
    let mut v = empty_diagram_view(Uid::new(1));
    view_child_step(&mut v, ViewChild::Flow(NamedObject { uid: Uid::new(10), name: "f".to_string() }));
    view_children_step(
        &mut v,
        vec![
            ViewChild::Flow(NamedObject { uid: Uid::new(11), name: "g".to_string() }),
            ViewChild::Button(ViewObject { uid: Uid::new(12) }),
            ViewChild::Other,
            ViewChild::Flow(NamedObject { uid: Uid::new(13), name: "h".to_string() }),
        ],
    );
    assert_eq!(v.flows.iter().map(|f| f.uid.value).collect::<Vec<_>>(), vec![10, 11, 13]);
    assert_eq!(v.buttons.len(), 1);
    assert!(v.stocks.is_empty());
}

fn raw_attrs(pairs: &[(&str, &str)]) -> Result<xmile::diagram::ViewAttrs<f64>, DeserializeError> {
    let a = attrs("view", &[]);
    let mut acc = view_attrs_from_attrs(&a, view_numbers(&a)).unwrap();
    for (k, v) in pairs {
        let number = match *k {
            "width" | "height" | "zoom" | "scroll_x" | "scroll_y" | "page_width" | "page_height" => {
                Some(v.parse::<f64>().map_err(|e| e.to_string()))
            }
            _ => None,
        };
        acc = view_attr_step(acc, k, v.to_string(), number)?;
    }
    Ok(acc)
}

#[test]
fn raw_view_attributes_are_read_in_order() {
    let acc = raw_attrs(&[
        ("width", "10"),
        ("height", "20"),
        ("page_width", "1"),
        ("page_height", "2"),
        ("show_pages", "yes"),
        ("home_view", "true"),
        ("type", "isee:map"),
        ("width", "30"),
    ])
    .unwrap();
    let h = finish_view_header(acc, false).unwrap();
    assert_eq!(h.uid.value, 0);
    assert_eq!(h.width, 30.0);
    assert!(!h.show_pages);
    assert!(h.home_view);
    assert!(matches!(h.view_type, ViewType::VendorSpecific(_, ref t) if t == "map"));
}

#[test]
fn raw_view_attribute_errors() {
    assert_eq!(
        raw_attrs(&[("uid", "seven")]).unwrap_err(),
        DeserializeError::Custom("Invalid uid: invalid digit found in string".to_string())
    );
    assert_eq!(
        raw_attrs(&[("zoom", "big")]).unwrap_err(),
        DeserializeError::Custom("Invalid zoom: invalid float literal".to_string())
    );
    assert_eq!(
        raw_attrs(&[("page_orientation", "sideways")]).unwrap_err(),
        DeserializeError::Custom("Invalid page_orientation: sideways".to_string())
    );
}

fn given(a: &Attrs, key: &str) -> Option<Result<String, DeserializeError>> {
    a.get_opt(key).map(|t| {
        if t.starts_with('#') {
            Ok(t.to_string())
        } else {
            Err(DeserializeError::Custom(format!("Invalid color: {}", t)))
        }
    })
}

fn header_parses(a: &Attrs) -> HeaderStyleParses<f64, String, String, String> {
    HeaderStyleParses {
        font_size: a
            .get_opt("header_font_size")
            .map(|t| strip_pt(t).parse::<f64>().map_err(|e| e.to_string())),
        text_background: given(a, "header_text_background"),
        text_padding: a.get_opt("header_text_padding").map(|t| Ok(t.to_string())),
        font_color: given(a, "header_font_color"),
        text_border_color: given(a, "header_text_border_color"),
        text_border_width: a.get_opt("header_text_border_width").map(|t| Ok(t.to_string())),
    }
}

#[test]
fn table_header_style() {
    assert_eq!(strip_pt("12ptpt"), "12");
    assert_eq!(strip_pt("pt"), "");
    let a = attrs(
        "table",
        &[("header_font_size", "10pt"), ("header_font_weight", "bold"), ("header_font_color", "#000000"), ("header_text_border_style", "none")],
    );
    let h = table_header_style_from_attrs(&a, header_parses(&a)).unwrap();
    assert_eq!(h.font_size, Some(10.0));
    assert_eq!(h.font_weight, Some(FontWeight::Bold));
    assert_eq!(h.font_color, Some("#000000".to_string()));
    assert_eq!(h.text_border_style, Some(BorderStyle::NoBorder));
    let a = attrs("table", &[("header_font_color", "black"), ("header_text_border_style", "dotted")]);
    assert_eq!(
        table_header_style_from_attrs(&a, header_parses(&a)).unwrap_err(),
        DeserializeError::Custom("Invalid color: black".to_string())
    );
    let a = attrs("table", &[("header_text_border_style", "dotted")]);
    assert_eq!(
        table_header_style_from_attrs(&a, header_parses(&a)).unwrap_err(),
        DeserializeError::Custom("Invalid header_text_border_style: dotted".to_string())
    );
    let a = attrs("table", &[("header_font_size", "big")]);
    assert_eq!(
        table_header_style_from_attrs(&a, header_parses(&a)).unwrap_err(),
        DeserializeError::Custom("Invalid header_font_size value: invalid float literal".to_string())
    );
}

#[test]
fn table_items_need_a_type() {
    let a = attrs("item", &[("type", "variable"), ("entity_name", "s"), ("precision", "0.5")]);
    let i = table_item_from_attrs(&a, num(&a, "precision"), num(&a, "column_width")).unwrap();
    assert_eq!(i.item_type, TableItemType::Variable);
    assert_eq!(i.precision, Some(0.5));
    assert!(!i.delimit_000s);
    let a = attrs("item", &[("entity_name", "s")]);
    assert_eq!(
        table_item_from_attrs(&a, num(&a, "precision"), num(&a, "column_width")).unwrap_err(),
        DeserializeError::MissingField("type".to_string())
    );
    let a = attrs("item", &[("type", "row")]);
    assert_eq!(
        table_item_from_attrs(&a, num(&a, "precision"), num(&a, "column_width")).unwrap_err(),
        DeserializeError::Custom("Invalid table item type: row".to_string())
    );
}

fn display_parses(a: &Attrs) -> DisplayParses<f64, String, String, String> {
    DisplayParses {
        color: given(a, "color"),
        background: given(a, "background"),
        font_size: a.get_opt("font_size").map(|t| strip_pt(t).trim().parse::<f64>().map_err(|e| e.to_string())),
        text_background: given(a, "text_background"),
        text_padding: a.get_opt("text_padding").map(|t| Ok(t.to_string())),
        font_color: given(a, "font_color"),
        text_border_color: given(a, "text_border_color"),
        text_border_width: a.get_opt("text_border_width").map(|t| Ok(t.to_string())),
        label_angle: num(a, "label_angle"),
    }
}

#[test]
fn display_attributes_of_an_object() {
    let a = attrs(
        "stock",
        &[("color", "#112233"), ("z_index", "3"), ("font_size", "11 pt"), ("text_align", "center"), ("label_side", "top"), ("label_angle", "45")],
    );
    let d = display_attrs_from_attrs(&a, display_parses(&a)).unwrap();
    assert_eq!(d.color, Some("#112233".to_string()));
    assert_eq!(d.z_index, Some(3));
    assert_eq!(d.font_size, Some(11.0));
    assert_eq!(d.text_align, Some(TextAlign::Center));
    assert_eq!(d.label_side, Some("top".to_string()));
    assert_eq!(d.label_angle, Some(45.0));
    let a = attrs("stock", &[("z_index", "high"), ("color", "red")]);
    assert_eq!(
        display_attrs_from_attrs(&a, display_parses(&a)).unwrap_err(),
        DeserializeError::Custom("Invalid color: red".to_string())
    );
    let a = attrs("stock", &[("z_index", "high"), ("text_align", "middle")]);
    assert_eq!(
        display_attrs_from_attrs(&a, display_parses(&a)).unwrap_err(),
        DeserializeError::Custom("Invalid value for stock@z_index: invalid digit found in string (got 'high')".to_string())
    );
    let a = attrs("stock", &[("text_align", "middle")]);
    assert_eq!(
        display_attrs_from_attrs(&a, display_parses(&a)).unwrap_err(),
        DeserializeError::Custom("Invalid text_align: middle".to_string())
    );
}

#[test]
fn connector_with_ends_and_points() {
    let a = attrs("connector", &[("uid", "5"), ("x", "1"), ("y", "2"), ("angle", "90"), ("line_style", "wavy"), ("polarity", "+")]);
    let c = connector_attrs_from_attrs(&a, num(&a, "x"), num(&a, "y"), num(&a, "angle")).unwrap();
    assert_eq!(c.line_style, Some(LineStyle::VendorSpecific("wavy".to_string())));
    assert_eq!(c.polarity, Some(Polarity::Positive));
    let mut parts = empty_connector_parts();
    connector_child_step(&mut parts, ConnectorChild::From(Pointer::Name("a".to_string())));
    let p1 = attrs("pt", &[("x", "3"), ("y", "4")]);
    connector_child_step(&mut parts, ConnectorChild::Point(point_from_attrs(&p1, num(&p1, "x"), num(&p1, "y")).unwrap()));
    let p2 = attrs("pt", &[("x", "9")]);
    connector_child_step(&mut parts, ConnectorChild::Point(point_from_attrs(&p2, num(&p2, "x"), num(&p2, "y")).unwrap()));
    connector_child_step(&mut parts, ConnectorChild::To(Pointer::Alias(Uid::new(8))));
    let conn = finish_connector(c, parts).unwrap();
    assert_eq!(conn.pts, vec![Point { x: 3.0, y: 4.0 }]);
    assert!(!conn.delay_mark);
    assert_eq!(conn.to, Pointer::Alias(Uid::new(8)));
    let c = connector_attrs_from_attrs(&a, num(&a, "x"), num(&a, "y"), num(&a, "angle")).unwrap();
    let mut parts = empty_connector_parts();
    connector_child_step(&mut parts, ConnectorChild::From(Pointer::Name("a".to_string())));
    assert_eq!(finish_connector(c, parts).unwrap_err(), DeserializeError::MissingField("to".to_string()));
    let a = attrs("connector", &[("polarity", "up")]);
    assert_eq!(
        connector_attrs_from_attrs(&a, num(&a, "x"), num(&a, "y"), num(&a, "angle")).unwrap_err(),
        DeserializeError::Custom("Invalid polarity: up".to_string())
    );
}

#[test]
fn view_children_from_their_tags() {
    let a = attrs("stock", &[("uid", "4"), ("name", "pop")]);
    match view_child_from_tag("stock", &a, false).unwrap() {
        ViewChild::Stock(o) => {
            assert_eq!(o.uid.value, 4);
            assert_eq!(o.name, "pop");
        }
        other => panic!("{:?}", other),
    }
    let a = attrs("alias", &[("uid", "5")]);
    assert_eq!(view_child_from_tag("alias", &a, false).unwrap_err(), DeserializeError::MissingField("of".to_string()));
    let a = attrs("flow", &[("name", "f")]);
    assert_eq!(view_child_from_tag("flow", &a, false).unwrap_err(), DeserializeError::MissingField("uid".to_string()));
    assert!(matches!(view_child_from_tag("flow", &a, true).unwrap(), ViewChild::Other));
    let a = attrs("module", &[]);
    match view_child_from_tag("module", &a, true).unwrap() {
        ViewChild::Module(o) => {
            assert_eq!(o.uid.value, 0);
            assert_eq!(o.name, "");
        }
        other => panic!("{:?}", other),
    }
    let a = attrs("lamp", &[("uid", "x")]);
    assert_eq!(
        view_child_from_tag("lamp", &a, false).unwrap_err(),
        DeserializeError::Custom("Invalid value for lamp@uid: invalid digit found in string (got 'x')".to_string())
    );
    assert!(matches!(view_child_from_tag("sketch", &a, false).unwrap(), ViewChild::Other));
}

#[test]
fn object_identity_position_and_size() {
    let a = attrs("stock", &[("uid", "4"), ("name", "pop"), ("x", "10"), ("width", "50.5")]);
    let o = parse_object_attrs(&a, bounds(&a)).unwrap();
    assert_eq!((o.uid, o.name.as_deref()), (Some(4), Some("pop")));
    assert_eq!((o.x, o.y, o.width, o.height), (Some(10.0), None, Some(50.5), None));
    let a = attrs("stock", &[("y", "down"), ("x", "left")]);
    assert_eq!(
        parse_object_attrs(&a, bounds(&a)).unwrap_err(),
        DeserializeError::Custom("Invalid value for stock@x: invalid float literal (got 'left')".to_string())
    );
    let a = attrs("module", &[("x", "left"), ("uid", "u")]);
    assert!(matches!(parse_object_attrs(&a, bounds(&a)).unwrap_err(), DeserializeError::Custom(m) if m.starts_with("Invalid value for module@uid")));
}

#[test]
fn which_view_elements_are_objects() {
    assert!(is_view_object_tag("stock", true));
    assert!(is_view_object_tag("module", true));
    assert!(!is_view_object_tag("flow", true));
    assert!(is_view_object_tag("flow", false));
    assert!(is_view_object_tag("button", false));
    assert!(!is_view_object_tag("style", false));
}
