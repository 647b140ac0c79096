use xmile::de::{Attrs, DeserializeError};
use xmile::grouping::{
    connection_from_attrs, empty_group_parts, empty_module_parts, entity_from_attrs, finish_group, finish_module,
    group_child_step, module_child_step, GroupChild, ModuleChild,
};
use xmile::model::Documentation;

fn attrs(element: &str, pairs: &[(&str, &str)]) -> Attrs {
    Attrs::from_pairs(element, pairs.iter().map(|(k, v)| (k.to_string(), v.to_string())).collect())
}

#[test]
fn module_keeps_whole_connections_in_order() {
    let mut parts = empty_module_parts();
    module_child_step(&mut parts, ModuleChild::Connect(connection_from_attrs(&attrs("connect", &[("to", "a"), ("from", "x")]))));
    module_child_step(&mut parts, ModuleChild::Connect(connection_from_attrs(&attrs("connect", &[("to", "b")]))));
    module_child_step(&mut parts, ModuleChild::Doc("plain".to_string()));
    module_child_step(&mut parts, ModuleChild::Connect(connection_from_attrs(&attrs("connect", &[("from", "y"), ("to", "c")]))));
    let m = finish_module(Some("sub".to_string()), Some("sub.xmile".to_string()), parts).unwrap();
    let ends: Vec<(&str, &str)> = m.connections.iter().map(|c| (c.to.as_str(), c.from.as_str())).collect();
    assert_eq!(ends, vec![("a", "x"), ("c", "y")]);
    assert!(matches!(m.documentation, Some(Documentation::PlainText(ref t)) if t == "plain"));
    assert_eq!(
        finish_module(None, None, empty_module_parts()).unwrap_err(),
        DeserializeError::MissingField("name".to_string())
    );
}

#[test]
fn group_members_and_their_run_flag() {
    let mut parts = empty_group_parts();
    group_child_step(&mut parts, GroupChild::Entity(entity_from_attrs(&attrs("entity", &[("name", "a"), ("run", "true")])).unwrap()));
    group_child_step(&mut parts, GroupChild::Entity(entity_from_attrs(&attrs("entity", &[("run", "true")])).unwrap()));
    group_child_step(&mut parts, GroupChild::Entity(entity_from_attrs(&attrs("entity", &[("name", "b")])).unwrap()));
    let g = finish_group(Some("sector".to_string()), parts).unwrap();
    let members: Vec<(&str, bool)> = g.entities.iter().map(|e| (e.name.as_str(), e.run)).collect();
    assert_eq!(members, vec![("a", true), ("b", false)]);
    assert_eq!(
        entity_from_attrs(&attrs("entity", &[("name", "a"), ("run", "sometimes")])).unwrap_err(),
        DeserializeError::Custom("Invalid boolean for entity@run: 'sometimes' (expected true/false)".to_string())
    );
}
