use xmile::actions::MenuAction;
use xmile::button_events::{serialize_button_object, ButtonText};
use xmile::de::Attrs;
use xmile::object_events::{serialize_alias_object, serialize_flow_object, serialize_group_object, AliasText, FlowObjectText, GroupText, serialize_connector_object, ConnectorText, serialize_aux_object, serialize_module_object, serialize_shape, serialize_stock_object, PlacedObjectText, ShapeText};
use xmile::objects::{ConnectorObject, Point, button_attrs_from_attrs, finish_button, BoundsNumbers, ButtonHeader, DisplayAttributes, ImageContent, SwitchAction};
use xmile::diagram::{finish_view_header, view_attrs_from_attrs, write_view_start, ViewHeader, ViewNumbers};
use xmile::view::{PageOrientation, PageSequence, ViewType};
use xmile::model::Uid;
use xmile::ser::{EventKind, XmlEmitter, XmlEvent};
use xmile::style::{serialize_style, Style, StyleAttributes};
use xmile::tables::{serialize_table_object, TableItemText, TableText};
use xmile::view::{LineStyle, Pointer, Polarity, ButtonAppearance, ButtonStyle, SimulationAction, FontWeight, ReportBalances, ReportFlows, TableItemType, TableOrientation};

fn blank_attributes() -> StyleAttributes {
    StyleAttributes {
        color: None,
        background: None,
        z_index: None,
        border_width: None,
        border_color: None,
        border_style: None,
        font_family: None,
        font_style: None,
        font_weight: None,
        text_decoration: None,
        text_align: None,
        vertical_text_align: None,
        font_color: None,
        text_background: None,
        font_size: None,
        padding: None,
    }
}

fn blank_style() -> Style {
    Style {
        attributes: blank_attributes(),
        stock: None,
        flow: None,
        aux: None,
        module: None,
        group: None,
        connector: None,
        alias: None,
        slider: None,
        knob: None,
        switch: None,
        options: None,
        numeric_input: None,
        list_input: None,
        graphical_input: None,
        numeric_display: None,
        lamp: None,
        gauge: None,
        graph: None,
        table: None,
        text_box: None,
        graphics_frame: None,
        button: None,
    }
}

fn table(items: Vec<TableItemText>) -> TableText {
    TableText {
        uid: Uid::new(4),
        x: "10".to_string(),
        y: "20".to_string(),
        width: "300".to_string(),
        height: "150.5".to_string(),
        orientation: TableOrientation::Vertical,
        column_width: "65".to_string(),
        interval: "DT".to_string(),
        report_balances: ReportBalances::Beginning,
        report_flows: ReportFlows::Summed,
        comparative: false,
        wrap_text: true,
        title: Some("Results".to_string()),
        doc: None,
        blank_column_width: None,
        color: None,
        background: None,
        z_index: None,
        font_family: None,
        font_size: None,
        font_weight: None,
        font_style: None,
        text_decoration: None,
        text_align: None,
        text_background: None,
        vertical_text_align: None,
        text_padding: None,
        font_color: None,
        text_border_color: None,
        text_border_width: None,
        text_border_style: None,
        header_font_family: None,
        header_font_size: None,
        header_font_weight: None,
        header_font_style: None,
        header_text_decoration: None,
        header_text_align: None,
        header_vertical_text_align: None,
        header_text_background: None,
        header_text_padding: None,
        header_font_color: None,
        header_text_border_color: None,
        header_text_border_width: None,
        header_text_border_style: None,
        items,
    }
}

fn pairs(e: &XmlEvent) -> Vec<(&str, &str)> {
    e.attrs.iter().map(|(k, v)| (k.as_str(), v.as_str())).collect()
}

#[test]
fn style_without_object_styles_is_one_empty_element() {
    let mut style = blank_style();
    style.attributes.color = Some("#ff0000".to_string());
    style.attributes.font_size = Some("12".to_string());
    style.attributes.font_weight = Some(FontWeight::Bold);
    style.attributes.z_index = Some(-2);
    let mut em = XmlEmitter::new();
    serialize_style(&mut em, &style);
    let evs = em.events();
    assert_eq!(evs.len(), 1);
    assert_eq!(evs[0].kind, EventKind::Empty);
    assert_eq!(evs[0].content, "style");
    assert_eq!(
        pairs(&evs[0]),
        vec![("color", "#ff0000"), ("z_index", "-2"), ("font_weight", "bold"), ("font_size", "12pt")]
    );
}

#[test]
fn style_with_object_styles_nests_them_in_order() {
    let mut style = blank_style();
    let mut flow = blank_attributes();
    flow.color = Some("blue".to_string());
    style.flow = Some(flow);
    style.stock = Some(blank_attributes());
    let mut em = XmlEmitter::new();
    serialize_style(&mut em, &style);
    let evs = em.events();
    let shape: Vec<(EventKind, &str)> = evs.iter().map(|e| (e.kind, e.content.as_str())).collect();
    assert_eq!(
        shape,
        vec![
            (EventKind::Start, "style"),
            (EventKind::Empty, "stock"),
            (EventKind::Empty, "flow"),
            (EventKind::End, "style"),
        ]
    );
    assert_eq!(pairs(&evs[2]), vec![("color", "blue")]);
    assert!(evs[1].attrs.is_empty());
}

#[test]
fn table_without_items_is_one_empty_element() {
    let mut t = table(vec![]);
    t.header_font_size = Some("9".to_string());
    t.font_family = Some("Arial".to_string());
    let mut em = XmlEmitter::new();
    serialize_table_object(&mut em, &t);
    let evs = em.events();
    assert_eq!(evs.len(), 1);
    assert_eq!(evs[0].kind, EventKind::Empty);
    assert_eq!(
        pairs(&evs[0]),
        vec![
            ("uid", "4"),
            ("x", "10"),
            ("y", "20"),
            ("width", "300"),
            ("height", "150.5"),
            ("orientation", "vertical"),
            ("column_width", "65"),
            ("interval", "DT"),
            ("report_balances", "beginning"),
            ("report_flows", "summed"),
            ("comparative", "false"),
            ("wrap_text", "true"),
            ("title", "Results"),
            ("font_family", "Arial"),
            ("header_font_size", "9pt"),
        ]
    );
}

#[test]
fn table_items_are_written_in_order() {
    let items = vec![
        TableItemText { item_type: TableItemType::Time, entity_name: None, precision: None, delimit_000s: false, column_width: None },
        TableItemText {
            item_type: TableItemType::Variable,
            entity_name: Some("stock".to_string()),
            precision: Some("0.1".to_string()),
            delimit_000s: true,
            column_width: Some("40".to_string()),
        },
    ];
    let mut em = XmlEmitter::new();
    serialize_table_object(&mut em, &table(items));
    let evs = em.events();
    assert_eq!(evs.len(), 4);
    assert_eq!((evs[0].kind, evs[0].content.as_str()), (EventKind::Start, "table"));
    assert_eq!(pairs(&evs[1]), vec![("type", "time"), ("delimit_000s", "false")]);
    assert_eq!(
        pairs(&evs[2]),
        vec![("type", "variable"), ("entity_name", "stock"), ("precision", "0.1"), ("delimit_000s", "true"), ("column_width", "40")]
    );
    assert_eq!((evs[3].kind, evs[3].content.as_str()), (EventKind::End, "table"));
}

#[test]
fn view_start_with_style() {
    let h = ViewHeader::<String> {
        uid: Uid::new(1),
        view_type: ViewType::Interface,
        order: Some(2),
        width: "800".to_string(),
        height: "600".to_string(),
        zoom: None,
        scroll_x: Some("5".to_string()),
        scroll_y: None,
        background: None,
        page_width: "100".to_string(),
        page_height: "50".to_string(),
        page_sequence: PageSequence::Column,
        page_orientation: PageOrientation::Landscape,
        show_pages: false,
        home_page: 0,
        home_view: true,
    };
    let mut em = XmlEmitter::new();
    write_view_start(&mut em, &h, &Some(blank_style()));
    let evs = em.events();
    assert_eq!(evs.len(), 2);
    assert_eq!(
        pairs(&evs[0]),
        vec![
            ("uid", "1"),
            ("width", "800"),
            ("height", "600"),
            ("page_width", "100"),
            ("page_height", "50"),
            ("page_sequence", "column"),
            ("page_orientation", "landscape"),
            ("show_pages", "false"),
            ("home_page", "0"),
            ("home_view", "true"),
            ("order", "2"),
            ("scroll_x", "5"),
            ("type", "interface"),
        ]
    );
    assert_eq!((evs[1].kind, evs[1].content.as_str()), (EventKind::Empty, "style"));
}

#[test]
fn a_written_view_header_reads_back() {
    let h = ViewHeader::<String> {
        uid: Uid::new(7),
        view_type: ViewType::Popup,
        order: Some(3),
        width: "800".to_string(),
        height: "600.5".to_string(),
        zoom: Some("150".to_string()),
        scroll_x: None,
        scroll_y: Some("12".to_string()),
        background: Some("white".to_string()),
        page_width: "100".to_string(),
        page_height: "50".to_string(),
        page_sequence: PageSequence::Row,
        page_orientation: PageOrientation::Portrait,
        show_pages: true,
        home_page: 4,
        home_view: false,
    };
    let mut em = XmlEmitter::new();
    write_view_start(&mut em, &h, &None);
    let a = Attrs::from_pairs("view", em.events()[0].attrs.clone());
    let num = |k: &str| a.get_opt(k).map(|t| t.parse::<f64>().map_err(|e| e.to_string()));
    let numbers = ViewNumbers {
        width: num("width"),
        height: num("height"),
        zoom: num("zoom"),
        scroll_x: num("scroll_x"),
        scroll_y: num("scroll_y"),
        page_width: num("page_width"),
        page_height: num("page_height"),
    };
    let v = view_attrs_from_attrs(&a, numbers).unwrap();
    let r = finish_view_header(v, true).unwrap();
    assert_eq!(r.uid, h.uid);
    assert_eq!(r.view_type, ViewType::Popup);
    assert_eq!(r.order, Some(3));
    assert_eq!((r.width, r.height, r.page_width, r.page_height), (800.0, 600.5, 100.0, 50.0));
    assert_eq!((r.zoom, r.scroll_x, r.scroll_y), (Some(150.0), None, Some(12.0)));
    assert_eq!(r.background, Some("white".to_string()));
    assert_eq!((r.page_sequence, r.page_orientation), (PageSequence::Row, PageOrientation::Portrait));
    assert_eq!((r.show_pages, r.home_page, r.home_view), (true, 4, false));
}

fn blank_display() -> DisplayAttributes<String, String, String, String> {
    DisplayAttributes {
        color: None,
        background: None,
        z_index: None,
        font_family: None,
        font_size: None,
        font_weight: None,
        font_style: None,
        text_decoration: None,
        text_align: None,
        text_background: None,
        vertical_text_align: None,
        text_padding: None,
        font_color: None,
        text_border_color: None,
        text_border_width: None,
        text_border_style: None,
        label_side: None,
        label_angle: None,
    }
}

fn button_header() -> ButtonHeader<String> {
    ButtonHeader {
        uid: Uid::new(9),
        x: "10".to_string(),
        y: "20".to_string(),
        width: "80".to_string(),
        height: "30.5".to_string(),
        appearance: ButtonAppearance::Transparent,
        style: ButtonStyle::Capsule,
        label: Some("Go".to_string()),
        clicking_sound: true,
        sound: None,
    }
}

#[test]
fn button_without_content_is_one_empty_element() {
    let mut display = blank_display();
    display.font_size = Some("12".to_string());
    display.font_weight = Some(FontWeight::Bold);
    display.text_border_width = Some("thin".to_string());
    let b = ButtonText { header: button_header(), display, image: None, link: None, menu_action: None, switch_action: None };
    let mut em = XmlEmitter::new();
    serialize_button_object(&mut em, &b);
    let evs = em.events();
    assert_eq!(evs.len(), 1);
    assert_eq!((evs[0].kind, evs[0].content.as_str()), (EventKind::Empty, "button"));
    assert_eq!(
        pairs(&evs[0]),
        vec![
            ("uid", "9"),
            ("x", "10"),
            ("y", "20"),
            ("width", "80"),
            ("height", "30.5"),
            ("appearance", "transparent"),
            ("style", "capsule"),
            ("clicking_sound", "true"),
            ("label", "Go"),
            ("font_size", "12pt"),
            ("font_weight", "bold"),
            ("text_border_width", "thin"),
        ]
    );
    let a = Attrs::from_pairs("button", evs[0].attrs.clone());
    let num = |k: &str| a.get_opt(k).map(|t| t.parse::<f64>().map_err(|e| e.to_string()));
    let bounds = BoundsNumbers { x: num("x"), y: num("y"), width: num("width"), height: num("height") };
    let h = finish_button(button_attrs_from_attrs(&a, bounds).unwrap()).unwrap();
    assert_eq!((h.uid, h.x, h.y, h.width, h.height), (Uid::new(9), 10.0, 20.0, 80.0, 30.5));
    assert_eq!((h.appearance, h.style, h.clicking_sound), (ButtonAppearance::Transparent, ButtonStyle::Capsule, true));
    assert_eq!((h.label, h.sound), (Some("Go".to_string()), None));
}

#[test]
fn button_content_in_order() {
    let b = ButtonText {
        header: button_header(),
        display: blank_display(),
        image: Some(ImageContent { size_to_parent: false, width: "16".to_string(), height: "16".to_string(), resource: Some("r.png".to_string()), data: None }),
        link: None,
        menu_action: Some(MenuAction::Simulation(SimulationAction::Run)),
        switch_action: Some(SwitchAction { entity_name: Some("s".to_string()), group_name: None, module_name: None, value: "1".to_string() }),
    };
    let mut em = XmlEmitter::new();
    serialize_button_object(&mut em, &b);
    let evs = em.events();
    assert_eq!(
        evs.iter().map(|e| (e.kind, e.content.as_str())).collect::<Vec<_>>(),
        vec![
            (EventKind::Start, "button"),
            (EventKind::Empty, "image"),
            (EventKind::Empty, "menu_action"),
            (EventKind::Empty, "switch_action"),
            (EventKind::End, "button"),
        ]
    );
    assert_eq!(pairs(&evs[1]), vec![("size_to_parent", "false"), ("width", "16"), ("height", "16"), ("resource", "r.png")]);
    assert_eq!(pairs(&evs[2]), vec![("type", "simulation"), ("action", "run")]);
    assert_eq!(pairs(&evs[3]), vec![("value", "1"), ("entity_name", "s")]);
}

fn placed(x: Option<&str>, shape: Option<ShapeText>) -> PlacedObjectText {
    PlacedObjectText {
        uid: Uid::new(3),
        name: "population".to_string(),
        x: x.map(|t| t.to_string()),
        y: Some("40".to_string()),
        width: Some("45".to_string()),
        height: Some("35".to_string()),
        display: blank_display(),
        shape,
    }
}

#[test]
fn stock_object_puts_size_before_position() {
    let mut o = placed(Some("100"), None);
    o.display.label_side = Some("top".to_string());
    o.display.color = Some("blue".to_string());
    let mut em = XmlEmitter::new();
    serialize_stock_object(&mut em, &o);
    let evs = em.events();
    assert_eq!(evs.len(), 1);
    assert_eq!((evs[0].kind, evs[0].content.as_str()), (EventKind::Empty, "stock"));
    assert_eq!(
        pairs(&evs[0]),
        vec![("uid", "3"), ("name", "population"), ("width", "45"), ("height", "35"), ("x", "100"), ("y", "40"), ("color", "blue"), ("label_side", "top")]
    );
}

#[test]
fn aux_and_module_objects_put_position_first_and_hold_their_shape() {
    let o = placed(None, Some(ShapeText::Circle { radius: "18".to_string() }));
    let mut em = XmlEmitter::new();
    serialize_aux_object(&mut em, &o);
    let evs = em.events();
    assert_eq!(
        evs.iter().map(|e| (e.kind, e.content.as_str())).collect::<Vec<_>>(),
        vec![(EventKind::Start, "aux"), (EventKind::Empty, "shape"), (EventKind::End, "aux")]
    );
    assert_eq!(pairs(&evs[0]), vec![("uid", "3"), ("name", "population"), ("y", "40"), ("width", "45"), ("height", "35")]);
    assert_eq!(pairs(&evs[1]), vec![("type", "circle"), ("radius", "18")]);

    let o = placed(Some("5"), Some(ShapeText::Rectangle { width: "60".to_string(), height: "30".to_string(), corner_radius: Some("4".to_string()) }));
    let mut em = XmlEmitter::new();
    serialize_module_object(&mut em, &o);
    let evs = em.events();
    assert_eq!(pairs(&evs[0]), vec![("uid", "3"), ("name", "population"), ("x", "5"), ("y", "40"), ("width", "45"), ("height", "35")]);
    assert_eq!(pairs(&evs[1]), vec![("type", "rectangle"), ("width", "60"), ("height", "30"), ("corner_radius", "4")]);

    let mut em = XmlEmitter::new();
    serialize_shape(&mut em, &ShapeText::NameOnly { width: None, height: Some("12".to_string()) });
    assert_eq!(pairs(&em.events()[0]), vec![("type", "name_only"), ("height", "12")]);
}

#[test]
fn connector_holds_its_ends_and_points() {
    let c = ConnectorText {
        connector: ConnectorObject {
            uid: Uid::new(12),
            x: "1".to_string(),
            y: "2".to_string(),
            angle: "45".to_string(),
            line_style: Some(LineStyle::Dashed),
            delay_mark: false,
            polarity: Some(Polarity::Negative),
            from: Pointer::Name("births".to_string()),
            to: Pointer::Alias(Uid::new(7)),
            pts: vec![Point { x: "1".to_string(), y: "2".to_string() }, Point { x: "30".to_string(), y: "40".to_string() }],
        },
        display: blank_display(),
    };
    let mut em = XmlEmitter::new();
    serialize_connector_object(&mut em, &c);
    let evs = em.events();
    assert_eq!(
        evs.iter().map(|e| (e.kind, e.content.as_str())).collect::<Vec<_>>(),
        vec![
            (EventKind::Start, "connector"),
            (EventKind::Start, "from"),
            (EventKind::Text, "births"),
            (EventKind::End, "from"),
            (EventKind::Start, "to"),
            (EventKind::Empty, "alias"),
            (EventKind::End, "to"),
            (EventKind::Start, "pts"),
            (EventKind::Empty, "pt"),
            (EventKind::Empty, "pt"),
            (EventKind::End, "pts"),
            (EventKind::End, "connector"),
        ]
    );
    assert_eq!(
        pairs(&evs[0]),
        vec![("uid", "12"), ("x", "1"), ("y", "2"), ("angle", "45"), ("delay_mark", "false"), ("line_style", "dashed"), ("polarity", "-")]
    );
    assert_eq!(pairs(&evs[5]), vec![("uid", "7")]);
    assert_eq!(pairs(&evs[9]), vec![("x", "30"), ("y", "40")]);
}

#[test]
fn flow_alias_and_group_objects() {
    let f = FlowObjectText {
        uid: Uid::new(5),
        name: "births".to_string(),
        width: "18".to_string(),
        height: "18".to_string(),
        x: Some("150".to_string()),
        y: None,
        display: blank_display(),
        pts: vec![Point { x: "100".to_string(), y: "50".to_string() }, Point { x: "200".to_string(), y: "50".to_string() }],
    };
    let mut em = XmlEmitter::new();
    serialize_flow_object(&mut em, &f);
    let evs = em.events();
    assert_eq!(
        evs.iter().map(|e| (e.kind, e.content.as_str())).collect::<Vec<_>>(),
        vec![
            (EventKind::Start, "flow"),
            (EventKind::Start, "pts"),
            (EventKind::Empty, "pt"),
            (EventKind::Empty, "pt"),
            (EventKind::End, "pts"),
            (EventKind::End, "flow"),
        ]
    );
    assert_eq!(pairs(&evs[0]), vec![("uid", "5"), ("name", "births"), ("width", "18"), ("height", "18"), ("x", "150")]);

    let a = AliasText { uid: Uid::new(8), x: "1".to_string(), y: "2".to_string(), display: blank_display(), of: "births".to_string(), shape: None };
    let mut em = XmlEmitter::new();
    serialize_alias_object(&mut em, &a);
    let evs = em.events();
    assert_eq!(
        evs.iter().map(|e| (e.kind, e.content.as_str())).collect::<Vec<_>>(),
        vec![(EventKind::Start, "alias"), (EventKind::Start, "of"), (EventKind::Text, "births"), (EventKind::End, "of"), (EventKind::End, "alias")]
    );
    assert_eq!(pairs(&evs[0]), vec![("uid", "8"), ("x", "1"), ("y", "2")]);

    let g = GroupText { uid: Uid::new(2), name: "g".to_string(), x: "0".to_string(), y: "0".to_string(), locked: true, display: blank_display(), items: vec![] };
    let mut em = XmlEmitter::new();
    serialize_group_object(&mut em, &g);
    assert_eq!(em.events().len(), 1);
    assert_eq!((em.events()[0].kind, pairs(&em.events()[0])), (EventKind::Empty, vec![("uid", "2"), ("name", "g"), ("x", "0"), ("y", "0"), ("locked", "true")]));
    let g = GroupText { items: vec![Uid::new(5), Uid::new(8)], ..g };
    let mut em = XmlEmitter::new();
    serialize_group_object(&mut em, &g);
    let evs = em.events();
    assert_eq!(evs.len(), 4);
    assert_eq!((evs[0].kind, evs[3].kind), (EventKind::Start, EventKind::End));
    assert_eq!((pairs(&evs[1]), pairs(&evs[2])), (vec![("uid", "5")], vec![("uid", "8")]));
}
