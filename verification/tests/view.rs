use xmile::de::{Attrs, DeserializeError};
use xmile::view::{
    parse_button_style, parse_line_style, parse_link_effect, parse_link_target, parse_polarity, parse_view_type,
    serialize_button_style, serialize_line_style, serialize_link_effect, serialize_link_target_attributes,
    serialize_polarity, serialize_vendor, serialize_view_type, ButtonStyle, LineStyle, LinkEffect, LinkTarget,
    Polarity, Vendor, ViewType,
};

fn attrs(pairs: &[(&str, &str)]) -> Attrs {
    Attrs::from_pairs("link", pairs.iter().map(|(k, v)| (k.to_string(), v.to_string())).collect())
}

#[test]
fn polarity_codec() {
    for p in [Polarity::Positive, Polarity::Negative, Polarity::NoPolarity] {
        assert_eq!(parse_polarity(serialize_polarity(&p)), Ok(p));
    }
    assert_eq!(serialize_polarity(&Polarity::NoPolarity), "none");
    assert_eq!(parse_polarity("+"), Ok(Polarity::Positive));
    assert_eq!(parse_polarity("plus"), Err(DeserializeError::Custom("Invalid polarity: plus".to_string())));
}

#[test]
fn button_style_and_link_effect_codecs() {
    assert_eq!(serialize_button_style(&ButtonStyle::Capsule), "capsule");
    assert_eq!(parse_button_style("rounded"), Ok(ButtonStyle::Rounded));
    assert_eq!(
        parse_button_style("Round"),
        Err(DeserializeError::Custom("Invalid button style: Round".to_string()))
    );
    assert_eq!(serialize_link_effect(&LinkEffect::WipeCounterclockwise), "wipe_counterclockwise");
    assert_eq!(parse_link_effect("push_right"), Ok(LinkEffect::PushRight));
    assert_eq!(parse_link_effect("fade"), Err(DeserializeError::Custom("Invalid link effect: fade".to_string())));
}

#[test]
fn line_style_keeps_unknown_text() {
    assert_eq!(parse_line_style("dashed"), Ok(LineStyle::Dashed));
    assert_eq!(parse_line_style("dotted"), Ok(LineStyle::VendorSpecific("dotted".to_string())));
    assert_eq!(serialize_line_style(&LineStyle::VendorSpecific("dotted".to_string())), "dotted");
    assert_eq!(serialize_line_style(&LineStyle::Solid), "solid");
}

#[test]
fn view_type_codec() {
    assert_eq!(parse_view_type("stock_flow"), Ok(ViewType::StockFlow));
    assert_eq!(parse_view_type("ISEE:dash:board"), Ok(ViewType::VendorSpecific(Vendor::Isee, "dash:board".to_string())));
    assert_eq!(parse_view_type("acme:x"), Ok(ViewType::VendorSpecific(Vendor::Other, "x".to_string())));
    assert_eq!(parse_view_type("diagram"), Err(DeserializeError::Custom("Invalid view type: diagram".to_string())));
    let v = ViewType::VendorSpecific(Vendor::Vensim, "sketch".to_string());
    assert_eq!(serialize_view_type(&v), "vensim:sketch");
    assert_eq!(parse_view_type(&serialize_view_type(&v)), Ok(v));
    assert_eq!(serialize_vendor(&Vendor::SimLab), "simlab");
}

#[test]
fn link_target_attributes() {
    let t = LinkTarget::Page { view_type: "interface".to_string(), order: "2".to_string(), page: "5".to_string() };
    let pairs = serialize_link_target_attributes(&t);
    assert_eq!(
        pairs,
        vec![
            ("target".to_string(), "page".to_string()),
            ("view_type".to_string(), "interface".to_string()),
            ("order".to_string(), "2".to_string()),
            ("page".to_string(), "5".to_string()),
        ]
    );
    assert_eq!(parse_link_target(&Attrs::from_pairs("link", pairs)), Ok(t));
    assert_eq!(
        serialize_link_target_attributes(&LinkTarget::Url("http://x".to_string())),
        vec![("target".to_string(), "url".to_string()), ("url".to_string(), "http://x".to_string())]
    );
}

#[test]
fn link_target_round_trips() {
    let all = vec![
        LinkTarget::TargetView { view_type: "stock_flow".to_string(), order: "0".to_string() },
        LinkTarget::Page { view_type: "a".to_string(), order: "b".to_string(), page: "c".to_string() },
        LinkTarget::NextPage,
        LinkTarget::PreviousPage,
        LinkTarget::HomePage,
        LinkTarget::NextView,
        LinkTarget::PreviousView,
        LinkTarget::HomeView,
        LinkTarget::BackPage,
        LinkTarget::BackView,
        LinkTarget::Url("u".to_string()),
    ];
    for t in all {
        let a = Attrs::from_pairs("link", serialize_link_target_attributes(&t));
        assert_eq!(parse_link_target(&a), Ok(t));
    }
}

#[test]
fn link_target_missing_fields() {
    let missing = |f: &str| Err(DeserializeError::MissingField(f.to_string()));
    assert_eq!(parse_link_target(&attrs(&[])), missing("target"));
    assert_eq!(parse_link_target(&attrs(&[("target", "elsewhere")])), missing("target"));
    assert_eq!(parse_link_target(&attrs(&[("target", "view"), ("order", "1")])), missing("view_type"));
    assert_eq!(parse_link_target(&attrs(&[("target", "view"), ("view_type", "x")])), missing("order"));
    assert_eq!(
        parse_link_target(&attrs(&[("target", "page"), ("view_type", "x"), ("order", "1")])),
        missing("page")
    );
    assert_eq!(parse_link_target(&attrs(&[("target", "url")])), missing("url"));
    assert_eq!(parse_link_target(&attrs(&[("target", "home_view"), ("url", "z")])), Ok(LinkTarget::HomeView));
}

#[test]
fn access_and_display_codecs() {
    assert_eq!(xmile::view::parse_access_type("input"), Ok(xmile::view::AccessType::Input));
    assert_eq!(xmile::view::serialize_access_type(&xmile::view::AccessType::Output), "output");
    assert_eq!(
        xmile::view::parse_access_type("both"),
        Err(DeserializeError::Custom("Invalid access type: both".to_string()))
    );
    assert_eq!(xmile::view::parse_display_as("percent"), Ok(xmile::view::DisplayAs::Percent));
    assert_eq!(
        xmile::view::parse_display_as("Money"),
        Err(DeserializeError::Custom("Invalid display_as: Money".to_string()))
    );
    assert_eq!(xmile::view::serialize_gf_type(&xmile::view::GraphicalFunctionType::Extrapolate), "extrapolate");
}
