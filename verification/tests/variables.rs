use xmile::de::{Attrs, DeserializeError};
use xmile::model::Documentation;
use xmile::variables::{
    is_conveyor_part, var_tag, VarKind, VarTag,
    aux_child_step, conveyor_from_attrs, conveyor_with_part, finish_auxiliary, finish_basic_flow, finish_stock, flow_child_step, format_from_attrs,
    range_from_attrs, scale_from_attrs, stock_child_step, DeviceRange, DeviceScale, StockKind, VarBuilder, VarChild,
};
use xmile::view::{AccessType, DisplayAs};

fn attrs(element: &str, pairs: &[(&str, &str)]) -> Attrs {
    Attrs::from_pairs(element, pairs.iter().map(|(k, v)| (k.to_string(), v.to_string())).collect())
}

fn num(a: &Attrs, key: &str) -> Option<Result<f64, String>> {
    a.get_opt(key).map(|t| t.parse::<f64>().map_err(|e| e.to_string()))
}

fn steps(children: Vec<VarChild<f64>>, stock: bool) -> Result<VarBuilder<f64>, DeserializeError> {
    let mut b = VarBuilder::new();
    for c in children {
        b = if stock { stock_child_step(b, c)? } else { flow_child_step(b, c)? };
    }
    Ok(b)
}

#[test]
fn range_needs_both_bounds() {
    let a = attrs("range", &[("min", "0"), ("max", "10.5")]);
    let r = range_from_attrs(&a, num(&a, "min"), num(&a, "max")).unwrap();
    assert_eq!(r, Some(DeviceRange { min: 0.0, max: 10.5 }));
    let a = attrs("range", &[("min", "0")]);
    assert_eq!(range_from_attrs(&a, num(&a, "min"), num(&a, "max")).unwrap(), None);
}

#[test]
fn range_reports_a_bad_bound() {
    let a = attrs("range", &[("min", "low"), ("max", "x")]);
    let e = range_from_attrs(&a, num(&a, "min"), num(&a, "max")).unwrap_err();
    assert_eq!(
        e,
        DeserializeError::Custom("Invalid value for range@min: invalid float literal (got 'low')".to_string())
    );
}

#[test]
fn scale_prefers_auto_then_group_then_bounds() {
    let a = attrs("scale", &[("min", "1"), ("max", "2"), ("auto", "true"), ("group", "3")]);
    assert_eq!(scale_from_attrs(&a, num(&a, "min"), num(&a, "max")).unwrap(), Some(DeviceScale::Auto(true)));
    let a = attrs("scale", &[("min", "1"), ("max", "2"), ("group", "3")]);
    assert_eq!(scale_from_attrs(&a, num(&a, "min"), num(&a, "max")).unwrap(), Some(DeviceScale::Group(3)));
    let a = attrs("scale", &[("min", "1"), ("max", "2")]);
    assert_eq!(
        scale_from_attrs(&a, num(&a, "min"), num(&a, "max")).unwrap(),
        Some(DeviceScale::MinMax { min: 1.0, max: 2.0 })
    );
    let a = attrs("scale", &[]);
    assert_eq!(scale_from_attrs(&a, num(&a, "min"), num(&a, "max")).unwrap(), None);
}

#[test]
fn scale_reports_a_bad_group() {
    let a = attrs("scale", &[("group", "-1")]);
    let e = scale_from_attrs(&a, num(&a, "min"), num(&a, "max")).unwrap_err();
    assert_eq!(
        e,
        DeserializeError::Custom("Invalid value for scale@group: invalid digit found in string (got '-1')".to_string())
    );
}

#[test]
fn format_display_as_is_checked_only_with_content() {
    let a = attrs("format", &[("precision", "0.01"), ("display_as", "money"), ("delimit_000s", "yes")]);
    let e = format_from_attrs(&a, num(&a, "precision"), num(&a, "scale_by"), true).unwrap_err();
    assert_eq!(e, DeserializeError::Custom("Invalid display_as: money".to_string()));
    let f = format_from_attrs(&a, num(&a, "precision"), num(&a, "scale_by"), false).unwrap();
    assert_eq!(f.precision, Some(0.01));
    assert_eq!(f.scale_by, None);
    assert_eq!(f.display_as, None);
    assert_eq!(f.delimit_000s, Some(true));
    let a = attrs("format", &[("display_as", "percent")]);
    let f = format_from_attrs(&a, num(&a, "precision"), num(&a, "scale_by"), true).unwrap();
    assert_eq!(f.display_as, Some(DisplayAs::Percent));
}

#[test]
fn conveyor_flags_of_full_and_empty_elements() {
    let a = attrs("conveyor", &[("discrete", "true"), ("batch_integrity", "false"), ("exponential_leak", "1")]);
    let full = conveyor_from_attrs(&a, true).unwrap();
    assert_eq!(full.discrete, Some(true));
    assert_eq!(full.batch_integrity, Some(false));
    assert_eq!(full.one_at_a_time, None);
    assert_eq!(full.exponential_leakage, Some(true));
    let empty = conveyor_from_attrs(&a, false).unwrap();
    assert_eq!(empty.discrete, Some(true));
    assert_eq!(empty.batch_integrity, None);
    assert_eq!(empty.exponential_leakage, None);
    let cd = conveyor_with_part(full, "len", "5".to_string());
    let cd = conveyor_with_part(cd, "in_limit", "2".to_string());
    let cd = conveyor_with_part(cd, "other", "9".to_string());
    assert_eq!(cd.length, Some("5".to_string()));
    assert_eq!(cd.inflow_limit, Some("2".to_string()));
    assert_eq!(cd.capacity, None);
}

#[test]
fn stock_keeps_flows_in_document_order() {
    let b = steps(
        vec![
            VarChild::Eqn("100".to_string()),
            VarChild::Inflow("births".to_string()),
            VarChild::Outflow("deaths".to_string()),
            VarChild::Inflow("migration".to_string()),
            VarChild::Multiplier(2.0),
            VarChild::Doc("<p>people</p>".to_string()),
            VarChild::NonNegativeEmpty,
        ],
        true,
    )
    .unwrap();
    let s = finish_stock(b, Some("population".to_string()), Some(AccessType::Input), None).unwrap();
    assert_eq!(s.name, "population");
    assert_eq!(s.initial_equation, "100");
    assert_eq!(s.inflows, vec!["births".to_string(), "migration".to_string()]);
    assert_eq!(s.outflows, vec!["deaths".to_string()]);
    assert_eq!(s.access, Some(AccessType::Input));
    assert!(matches!(s.documentation, Some(Documentation::Html(ref t)) if t == "<p>people</p>"));
    assert_eq!(s.kind, StockKind::Basic { non_negative: Some(None) });
}

#[test]
fn stock_kind_follows_conveyor_then_queue() {
    let a = attrs("conveyor", &[]);
    let cd = conveyor_with_part(conveyor_from_attrs(&a, true).unwrap(), "len", "3".to_string());
    let b = steps(vec![VarChild::Eqn("0".to_string()), VarChild::Queue, VarChild::Conveyor(cd)], true).unwrap();
    let s = finish_stock(b, Some("belt".to_string()), None, None).unwrap();
    assert!(matches!(s.kind, StockKind::Conveyor(ref c) if c.length == "3"));
    let b = steps(vec![VarChild::Eqn("0".to_string()), VarChild::Queue, VarChild::NonNegativeEmpty], true).unwrap();
    let s = finish_stock(b, Some("line".to_string()), None, None).unwrap();
    assert_eq!(s.kind, StockKind::Queue);
}

#[test]
fn stock_errors_come_in_order() {
    let b = steps(vec![], true).unwrap();
    assert_eq!(finish_stock(b, None, None, None).unwrap_err(), DeserializeError::MissingField("name".to_string()));
    let b = steps(vec![], true).unwrap();
    assert_eq!(
        finish_stock(b, Some("s".to_string()), None, None).unwrap_err(),
        DeserializeError::MissingField("eqn".to_string())
    );
    let a = attrs("conveyor", &[]);
    let cd = conveyor_from_attrs(&a, false).unwrap();
    let b = steps(vec![VarChild::Eqn("0".to_string()), VarChild::Conveyor(cd)], true).unwrap();
    assert_eq!(
        finish_stock(b, Some("s".to_string()), None, None).unwrap_err(),
        DeserializeError::Custom("Conveyor stock requires a length element".to_string())
    );
}

#[test]
fn non_negative_text_is_checked() {
    let e = steps(vec![VarChild::NonNegative("maybe".to_string())], true).unwrap_err();
    assert_eq!(e, DeserializeError::Custom("Invalid non_negative value: maybe".to_string()));
    let b = steps(vec![VarChild::NonNegative(" false ".to_string())], false).unwrap();
    assert_eq!(b.non_negative, Some(Some(false)));
}

#[test]
fn flow_passes_over_stock_children() {
    let b = steps(
        vec![
            VarChild::Inflow("x".to_string()),
            VarChild::Queue,
            VarChild::Multiplier(1.5),
            VarChild::Range(Some(DeviceRange { min: 0.0, max: 1.0 })),
            VarChild::Range(None),
            VarChild::Units("people/year".to_string()),
        ],
        false,
    )
    .unwrap();
    assert!(b.inflows.is_empty());
    assert!(!b.is_queue);
    let f = finish_basic_flow(b, Some("births".to_string()), None, Some(true)).unwrap();
    assert_eq!(f.equation, None);
    assert_eq!(f.multiplier, Some(1.5));
    assert_eq!(f.range, Some(DeviceRange { min: 0.0, max: 1.0 }));
    assert_eq!(f.units, Some("people/year".to_string()));
    assert_eq!(f.autoexport, Some(true));
    let b = steps(vec![], false).unwrap();
    assert_eq!(finish_basic_flow(b, None, None, None).unwrap_err(), DeserializeError::MissingField("name".to_string()));
}

#[test]
fn auxiliary_needs_name_and_equation() {
    let mut b = VarBuilder::new();
    for c in vec![
        VarChild::NonNegative("maybe".to_string()),
        VarChild::Eqn("rate * 2".to_string()),
        VarChild::Inflow("x".to_string()),
        VarChild::Multiplier(3.0),
        VarChild::Units("1/year".to_string()),
    ] {
        b = aux_child_step(b, c).unwrap();
    }
    assert!(b.inflows.is_empty());
    assert_eq!(b.multiplier, None);
    assert_eq!(b.non_negative, None);
    let a = finish_auxiliary(b, Some("growth".to_string()), None, None).unwrap();
    assert_eq!(a.equation, "rate * 2");
    assert_eq!(a.units, Some("1/year".to_string()));
    let b: VarBuilder<f64> = VarBuilder::new();
    assert_eq!(
        finish_auxiliary(b, Some("growth".to_string()), None, None).unwrap_err(),
        DeserializeError::MissingField("eqn".to_string())
    );
}

#[test]
fn child_tags_by_kind_of_variable() {
    assert_eq!(var_tag("inflow", VarKind::Stock, false), VarTag::Inflow);
    assert_eq!(var_tag("inflow", VarKind::Flow, false), VarTag::Skip);
    assert_eq!(var_tag("multiplier", VarKind::Flow, false), VarTag::Multiplier);
    assert_eq!(var_tag("multiplier", VarKind::Stock, false), VarTag::Skip);
    assert_eq!(var_tag("non_negative", VarKind::Flow, true), VarTag::NonNegativeEmpty);
    assert_eq!(var_tag("non_negative", VarKind::Auxiliary, false), VarTag::Skip);
    assert_eq!(var_tag("conveyor", VarKind::Stock, true), VarTag::Conveyor);
    assert_eq!(var_tag("eqn", VarKind::Stock, true), VarTag::Skip);
    assert_eq!(var_tag("range", VarKind::Auxiliary, true), VarTag::Skip);
    assert_eq!(var_tag("range", VarKind::Auxiliary, false), VarTag::Range);
    assert!(is_conveyor_part("in_limit"));
    assert!(!is_conveyor_part("length"));
}
