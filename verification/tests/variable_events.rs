use xmile::model::Documentation;
use xmile::ser::{EventKind, XmlEmitter, XmlEvent};
use xmile::de::Attrs;
use xmile::variable_events::{serialize_auxiliary, serialize_basic_flow, serialize_basic_stock, serialize_format, serialize_range, serialize_scale};
use xmile::variables::{format_from_attrs, range_from_attrs, scale_from_attrs};
use xmile::variables::{AuxDefinition, DeviceRange, DeviceScale, FlowDefinition, FormatOptions, StockDefinition, StockKind};
use xmile::view::{AccessType, DisplayAs};

fn shape(evs: &[XmlEvent]) -> Vec<(EventKind, String)> {
    evs.iter().map(|e| (e.kind, e.content.clone())).collect()
}

fn pairs(e: &XmlEvent) -> Vec<(&str, &str)> {
    e.attrs.iter().map(|(k, v)| (k.as_str(), v.as_str())).collect()
}

#[test]
fn basic_stock_events() {
    let s = StockDefinition::<String> {
        name: "population".to_string(),
        access: Some(AccessType::Output),
        autoexport: None,
        inflows: vec!["births".to_string(), "immigration".to_string()],
        outflows: vec!["deaths".to_string()],
        initial_equation: "100".to_string(),
        mathml_equation: None,
        units: Some("people".to_string()),
        documentation: Some(Documentation::PlainText("all of them".to_string())),
        range: Some(DeviceRange { min: "0".to_string(), max: "1000".to_string() }),
        scale: Some(DeviceScale::Group(2)),
        format: None,
        kind: StockKind::Basic { non_negative: Some(None) },
    };
    let mut em = XmlEmitter::new();
    serialize_basic_stock(&mut em, &s);
    let evs = em.events();
    let k = |kind: EventKind, c: &str| (kind, c.to_string());
    assert_eq!(
        shape(evs),
        vec![
            k(EventKind::Start, "stock"),
            k(EventKind::Start, "eqn"),
            k(EventKind::CData, "100"),
            k(EventKind::End, "eqn"),
            k(EventKind::Start, "inflow"),
            k(EventKind::Text, "births"),
            k(EventKind::End, "inflow"),
            k(EventKind::Start, "inflow"),
            k(EventKind::Text, "immigration"),
            k(EventKind::End, "inflow"),
            k(EventKind::Start, "outflow"),
            k(EventKind::Text, "deaths"),
            k(EventKind::End, "outflow"),
            k(EventKind::Start, "doc"),
            k(EventKind::Text, "all of them"),
            k(EventKind::End, "doc"),
            k(EventKind::Start, "units"),
            k(EventKind::Text, "people"),
            k(EventKind::End, "units"),
            k(EventKind::Empty, "non_negative"),
            k(EventKind::Empty, "range"),
            k(EventKind::Empty, "scale"),
            k(EventKind::End, "stock"),
        ]
    );
    assert_eq!(pairs(&evs[0]), vec![("name", "population"), ("access", "output")]);
    assert_eq!(pairs(&evs[20]), vec![("min", "0"), ("max", "1000")]);
    assert_eq!(pairs(&evs[21]), vec![("group", "2")]);
}

#[test]
fn flow_and_aux_events() {
    let f = FlowDefinition::<String> {
        name: "births".to_string(),
        access: None,
        autoexport: Some(true),
        equation: None,
        mathml_equation: None,
        multiplier: Some("1.5".to_string()),
        non_negative: Some(Some(false)),
        units: None,
        documentation: None,
        range: None,
        scale: Some(DeviceScale::Auto(true)),
        format: Some(FormatOptions { precision: Some("0.1".to_string()), scale_by: None, display_as: Some(DisplayAs::Percent), delimit_000s: Some(false) }),
    };
    let mut em = XmlEmitter::new();
    serialize_basic_flow(&mut em, &f);
    let evs = em.events();
    assert_eq!(pairs(&evs[0]), vec![("name", "births"), ("autoexport", "true")]);
    assert_eq!((evs[1].kind, evs[1].content.as_str()), (EventKind::Start, "multiplier"));
    assert_eq!(evs[2].content, "1.5");
    assert_eq!((evs[4].content.as_str(), evs[5].content.as_str()), ("non_negative", "false"));
    assert_eq!(pairs(&evs[7]), vec![("auto", "true")]);
    assert_eq!(pairs(&evs[8]), vec![("precision", "0.1"), ("display_as", "percent"), ("delimit_000s", "false")]);
    assert_eq!((evs[9].kind, evs[9].content.as_str()), (EventKind::End, "flow"));

    let a = AuxDefinition::<String> {
        name: "rate".to_string(),
        access: None,
        autoexport: None,
        documentation: None,
        equation: "0.02".to_string(),
        mathml_equation: None,
        units: None,
        range: None,
        scale: None,
        format: None,
    };
    let mut em = XmlEmitter::new();
    serialize_auxiliary(&mut em, &a);
    let k = |kind: EventKind, c: &str| (kind, c.to_string());
    assert_eq!(
        shape(em.events()),
        vec![k(EventKind::Start, "aux"), k(EventKind::Start, "eqn"), k(EventKind::CData, "0.02"), k(EventKind::End, "eqn"), k(EventKind::End, "aux")]
    );
}

fn read_attrs(write: impl Fn(&mut XmlEmitter), element: &str) -> Attrs {
    let mut em = XmlEmitter::new();
    write(&mut em);
    assert_eq!(em.events()[0].content, element);
    Attrs::from_pairs(element, em.events()[0].attrs.clone())
}

fn number(a: &Attrs, key: &str) -> Option<Result<f64, String>> {
    a.get_opt(key).map(|t| t.parse::<f64>().map_err(|e| e.to_string()))
}

#[test]
fn written_settings_read_back() {
    let r = DeviceRange { min: "-1.5".to_string(), max: "20".to_string() };
    let a = read_attrs(|em| serialize_range(em, &r), "range");
    assert_eq!(range_from_attrs(&a, number(&a, "min"), number(&a, "max")).unwrap(), Some(DeviceRange { min: -1.5, max: 20.0 }));

    let s = DeviceScale::MinMax { min: "0".to_string(), max: "5".to_string() };
    let a = read_attrs(|em| serialize_scale(em, &s), "scale");
    assert_eq!(scale_from_attrs(&a, number(&a, "min"), number(&a, "max")).unwrap(), Some(DeviceScale::MinMax { min: 0.0, max: 5.0 }));
    let a = read_attrs(|em| serialize_scale(em, &DeviceScale::Auto(true)), "scale");
    assert_eq!(scale_from_attrs(&a, number(&a, "min"), number(&a, "max")).unwrap(), Some(DeviceScale::Auto(true)));
    let a = read_attrs(|em| serialize_scale(em, &DeviceScale::Group(42)), "scale");
    assert_eq!(scale_from_attrs(&a, number(&a, "min"), number(&a, "max")).unwrap(), Some(DeviceScale::Group(42)));

    let f = FormatOptions {
        precision: Some("0.01".to_string()),
        scale_by: None,
        display_as: Some(DisplayAs::Currency),
        delimit_000s: Some(false),
    };
    let a = read_attrs(|em| serialize_format(em, &f), "format");
    for strict in [true, false] {
        let g = format_from_attrs(&a, number(&a, "precision"), number(&a, "scale_by"), strict).unwrap();
        assert_eq!(g, FormatOptions { precision: Some(0.01), scale_by: None, display_as: Some(DisplayAs::Currency), delimit_000s: Some(false) });
    }
}
