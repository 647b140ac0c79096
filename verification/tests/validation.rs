use xmile::model::{
    AliasObject, Auxiliary, BasicFlow, DefinedDimension, DiagramView, Dimension, Dimensions, GraphicalFunction, Group, GroupEntity,
    Module, NamedObject, Stock, Uid, Variable, VariableDimensions, ViewObject,
};
use xmile::schema::{default_xmlns, Header, Model, Product, Variables, Views, XmileFile};
use xmile::validation::{
    get_variable_name, validate_dimension_references, validate_group_entity_references,
    validate_variable_name_uniqueness, validate_view_object_references, validate_view_uids_unique, ValidationResult,
};

fn aux(name: &str) -> Variable {
    Variable::Auxiliary(Auxiliary { name: name.to_string(), dimensions: None })
}

fn stock(name: &str, dims: Option<Vec<&str>>) -> Variable {
    Variable::Stock(Stock::Basic {
        name: name.to_string(),
        dimensions: dims.map(|d| d.into_iter().map(String::from).collect()),
    })
}

fn entity(name: &str) -> GroupEntity {
    GroupEntity { name: name.to_string(), run: false }
}

fn named(uid: i32, name: &str) -> NamedObject {
    NamedObject { uid: Uid::new(uid), name: name.to_string() }
}

fn empty_view() -> DiagramView {
    DiagramView {
        uid: Uid::new(0),
        stocks: vec![],
        flows: vec![],
        auxes: vec![],
        modules: vec![],
        groups: vec![],
        connectors: vec![],
        aliases: vec![],
        stacked_containers: vec![],
        sliders: vec![],
        knobs: vec![],
        switches: vec![],
        options: vec![],
        numeric_inputs: vec![],
        list_inputs: vec![],
        graphical_inputs: vec![],
        numeric_displays: vec![],
        lamps: vec![],
        gauges: vec![],
        graphs: vec![],
        tables: vec![],
        text_boxes: vec![],
        graphics_frames: vec![],
        buttons: vec![],
    }
}

fn invalid(errors: &[&str]) -> ValidationResult {
    ValidationResult::Invalid(vec![], errors.iter().map(|s| s.to_string()).collect())
}

#[test]
fn variable_names() {
    assert_eq!(get_variable_name(&aux("a")).map(|s| s.as_str()), Some("a"));
    let gf = Variable::GraphicalFunction(GraphicalFunction { name: None, dimensions: None });
    assert_eq!(get_variable_name(&gf), None);
    let m = Variable::Module(Module { name: "m".to_string(), resource: None, connections: vec![], documentation: None });
    assert_eq!(get_variable_name(&m).map(|s| s.as_str()), Some("m"));
}

#[test]
fn unique_names_are_valid() {
    let vars = vec![aux("a"), stock("b", None), aux("c")];
    assert_eq!(validate_variable_name_uniqueness(&vars), ValidationResult::Valid(()));
    assert_eq!(validate_variable_name_uniqueness(&[]), ValidationResult::Valid(()));
}

#[test]
fn duplicate_names_are_reported_with_indices() {
    let gf = Variable::GraphicalFunction(GraphicalFunction { name: None, dimensions: None });
    let vars = vec![aux("a"), gf, stock("a", None), aux("b"), aux("a"), aux("b")];
    assert_eq!(
        validate_variable_name_uniqueness(&vars),
        invalid(&[
            "Variable name 'a' appears 3 times at indices: [0, 2, 4]",
            "Variable name 'b' appears 2 times at indices: [3, 5]",
        ])
    );
}

#[test]
fn view_uids() {
    let mut view = empty_view();
    view.stocks.push(named(1, "S"));
    view.flows.push(named(2, "F"));
    assert_eq!(validate_view_uids_unique(&view), ValidationResult::Valid(()));
    view.connectors.push(ViewObject { uid: Uid::new(1) });
    view.aliases.push(AliasObject { uid: Uid::new(1), of: "S".to_string() });
    view.buttons.push(ViewObject { uid: Uid::new(2) });
    view.stacked_containers.push(ViewObject { uid: Uid::new(1) });
    assert_eq!(
        validate_view_uids_unique(&view),
        invalid(&[
            "UID 1 appears 4 times in view: stock 'S', connector, alias 'S', stacked_container",
            "UID 2 appears 2 times in view: flow 'F', button",
        ])
    );
}

#[test]
fn stacked_containers_share_uid_check() {
    let mut view = empty_view();
    view.stacked_containers.push(ViewObject { uid: Uid::new(5) });
    view.stacked_containers.push(ViewObject { uid: Uid::new(5) });
    assert_eq!(
        validate_view_uids_unique(&view),
        invalid(&["UID 5 appears 2 times in view: stacked_container, stacked_container"])
    );
}

#[test]
fn view_object_references() {
    let vars = vec![aux("A"), stock("S", None)];
    let mut view = empty_view();
    view.auxes.push(named(1, "A"));
    view.stocks.push(named(2, "S"));
    assert_eq!(validate_view_object_references(&view, &vars), ValidationResult::Valid(()));
    view.flows.push(named(3, "F"));
    view.modules.push(named(-4, "M"));
    assert_eq!(
        validate_view_object_references(&view, &vars),
        invalid(&[
            "Flow object 'F' (UID 3) does not reference a valid variable",
            "Module object 'M' (UID -4) does not reference a valid variable",
        ])
    );
}

#[test]
fn group_entity_references() {
    let vars = vec![aux("A"), aux("B")];
    let g1 = Group { name: "G".to_string(), doc: None, entities: vec![entity("A")] };
    assert_eq!(validate_group_entity_references(&[g1], &vars), ValidationResult::Valid(()));
    let g2 = Group {
        name: "H".to_string(),
        doc: None,
        entities: vec![entity("X"), entity("B")],
    };
    assert_eq!(
        validate_group_entity_references(&[g2], &vars),
        invalid(&["Group 'H' references undefined entity 'X'"])
    );
}

#[test]
fn dimension_references() {
    let defined = Some(Dimensions { dims: vec![DefinedDimension { name: "Region".to_string(), size: None, elements: vec![] }] });
    let arrayed = Variable::Auxiliary(Auxiliary {
        name: "pop".to_string(),
        dimensions: Some(VariableDimensions {
            dims: vec![Dimension { name: "Region".to_string() }, Dimension { name: "Age".to_string() }],
        }),
    });
    let vars = vec![arrayed, stock("s", Some(vec!["Region"])), aux("plain")];
    assert_eq!(
        validate_dimension_references(&vars, &defined),
        invalid(&["Variable 'pop' references undefined dimension 'Age'"])
    );
    assert_eq!(
        validate_dimension_references(&vars, &None),
        invalid(&[
            "Variable 'pop' references undefined dimension 'Region'",
            "Variable 'pop' references undefined dimension 'Age'",
            "Variable 's' references undefined dimension 'Region'",
        ])
    );
    let gf = Variable::GraphicalFunction(GraphicalFunction { name: None, dimensions: Some(vec!["D".to_string()]) });
    assert_eq!(
        validate_dimension_references(&[gf], &None),
        invalid(&["Variable 'unknown' references undefined dimension 'D'"])
    );
    let flow = Variable::Flow(BasicFlow { name: "f".to_string(), dimensions: Some(vec!["Region".to_string()]) });
    assert_eq!(validate_dimension_references(&[flow], &defined), ValidationResult::Valid(()));
}

#[test]
fn model_validation_collects_all_checks() {
    let mut view = empty_view();
    view.stocks.push(named(1, "S"));
    view.auxes.push(named(1, "Ghost"));
    let group = Variable::Group(Group { name: "G".to_string(), doc: None, entities: vec![entity("Nope")] });
    let model = Model {
        name: None,
        resource: None,
        behavior: None,
        variables: Variables::new(vec![stock("S", None), aux("S"), group]),
        views: Some(Views { visible_view: None, views: vec![view] }),
    };
    assert_eq!(
        model.validate(),
        invalid(&[
            "Variable name 'S' appears 2 times at indices: [0, 1]",
            "Aux object 'Ghost' (UID 1) does not reference a valid variable",
            "UID 1 appears 2 times in view: stock 'S', aux 'Ghost'",
            "Group 'G' references undefined entity 'Nope'",
        ])
    );
}

#[test]
fn model_validation_passes_clean_model() {
    let model = Model {
        name: Some("main".to_string()),
        resource: None,
        behavior: None,
        variables: Variables::new(vec![aux("a"), stock("b", None)]),
        views: None,
    };
    assert_eq!(model.validate(), ValidationResult::Valid(()));
    let gf = Variable::GraphicalFunction(GraphicalFunction { name: Some("lookup".to_string()), dimensions: None });
    let embedded = Variable::GraphicalFunction(GraphicalFunction { name: None, dimensions: None });
    let model = Model { name: None, resource: None, behavior: None, variables: Variables::new(vec![gf, aux("x"), embedded]), views: None };
    let registry = model.build_gf_registry();
    assert_eq!(registry.len(), 1);
    assert!(registry.contains("lookup"));
    assert!(!registry.contains("x"));
}

#[test]
fn file_defaults() {
    assert_eq!(default_xmlns(), "http://docs.oasis-open.org/xmile/ns/XMILE/v1.0");
    let f = XmileFile {
        version: "1.0".to_string(),
        xmlns: default_xmlns(),
        header: Header {
            vendor: "v".to_string(),
            product: Product { name: "p".to_string(), version: "1".to_string(), lang: None },
            name: None,
            version_info: None,
            caption: None,
            image: None,
            author: None,
            affiliation: None,
            client: None,
            copyright: None,
            contact: None,
            created: None,
            modified: None,
            uuid: None,
            includes: None,
        },
        model_units: None,
        dimensions: None,
        behavior: None,
        data: None,
        models: vec![],
    };
    assert!(f.models.is_empty());
}
