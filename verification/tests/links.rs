use xmile::de::{Attrs, DeserializeError};
use xmile::links::{link_from_attrs, serialize_link, LinkText};
use xmile::ser::XmlEmitter;
use xmile::view::{LinkEffect, LinkTarget};

fn num(a: &Attrs, key: &str) -> Option<Result<f64, String>> {
    a.get_opt(key).map(|t| t.parse::<f64>().map_err(|e| e.to_string()))
}

fn read_back(l: &LinkText) -> Result<xmile::links::Link<f64>, DeserializeError> {
    let mut em = XmlEmitter::new();
    serialize_link(&mut em, l);
    let ev = &em.events()[0];
    assert_eq!(ev.content, "link");
    let a = Attrs::from_pairs("link", ev.attrs.clone());
    link_from_attrs(&a, num(&a, "x"), num(&a, "y"), num(&a, "zoom"))
}

#[test]
fn a_written_link_reads_back() {
    let l = LinkText {
        x: "10".to_string(),
        y: "20.5".to_string(),
        zoom: "100".to_string(),
        effect: Some(LinkEffect::Dissolve),
        to_black: true,
        target: LinkTarget::Page { view_type: "stock_flow".to_string(), order: "2".to_string(), page: "3".to_string() },
    };
    let r = read_back(&l).unwrap();
    assert_eq!((r.x, r.y, r.zoom), (10.0, 20.5, 100.0));
    assert_eq!(r.effect, Some(LinkEffect::Dissolve));
    assert!(r.to_black);
    assert_eq!(r.target, l.target);
    let l = LinkText { x: "0".to_string(), y: "0".to_string(), zoom: "1".to_string(), effect: None, to_black: false, target: LinkTarget::Url("https://example.org".to_string()) };
    let r = read_back(&l).unwrap();
    assert_eq!(r.effect, None);
    assert!(!r.to_black);
    assert_eq!(r.target, LinkTarget::Url("https://example.org".to_string()));
}

#[test]
fn link_errors_in_order() {
    let a = Attrs::from_pairs("link", vec![("target".to_string(), "page".to_string()), ("view_type".to_string(), "x".to_string())]);
    assert_eq!(link_from_attrs(&a, num(&a, "x"), num(&a, "y"), num(&a, "zoom")).unwrap_err(), DeserializeError::MissingField("order".to_string()));
    let a = Attrs::from_pairs("link", vec![("target".to_string(), "home_view".to_string())]);
    assert_eq!(link_from_attrs(&a, num(&a, "x"), num(&a, "y"), num(&a, "zoom")).unwrap_err(), DeserializeError::MissingField("x".to_string()));
    let a = Attrs::from_pairs("link", vec![("effect".to_string(), "spin".to_string()), ("to_black".to_string(), "maybe".to_string())]);
    assert_eq!(
        link_from_attrs(&a, num(&a, "x"), num(&a, "y"), num(&a, "zoom")).unwrap_err(),
        DeserializeError::Custom("Invalid link effect: spin".to_string())
    );
}
