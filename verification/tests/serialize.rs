use quick_xml::events::{BytesCData, BytesDecl, BytesEnd, BytesStart, BytesText, Event};
use quick_xml::Writer;
use xmile::actions::{
    data_action_attributes, parse_data_action, parse_menu_action, serialize_data_action, serialize_menu_action,
    DataAction, MenuAction,
};
use xmile::de::{Attrs, DeserializeError};
use xmile::model::{
    DefinedDimension, DimensionElement, Documentation, Group, GroupEntity, Module, ModuleConnection, Uid,
};
use xmile::schema::{Behavior, BehaviorFlags, EntityBehavior};
use xmile::ser::{EventKind, XmlEmitter, XmlEvent};
use xmile::serialize::{serialize_dimension, serialize_file_dimensions, serialize_group, serialize_module};
use xmile::view::{parse_alias_pointer, serialize_pointer, FileAction, Pointer, RestoreAction};

fn render(events: &[XmlEvent]) -> String {
    let mut output = Vec::new();
    let mut writer = Writer::new(&mut output);
    for e in events {
        let ev = match e.kind {
            EventKind::Decl => Event::Decl(BytesDecl::new("1.0", Some("UTF-8"), None)),
            EventKind::Start | EventKind::Empty => {
                let mut start = BytesStart::new(e.content.as_str());
                for (k, v) in &e.attrs {
                    start.push_attribute((k.as_str(), v.as_str()));
                }
                if e.kind == EventKind::Start {
                    Event::Start(start)
                } else {
                    Event::Empty(start)
                }
            }
            EventKind::End => Event::End(BytesEnd::new(e.content.as_str())),
            EventKind::Text => Event::Text(BytesText::new(e.content.as_str())),
            EventKind::CData => Event::CData(BytesCData::new(e.content.as_str())),
        };
        writer.write_event(ev).unwrap();
    }
    String::from_utf8(output).unwrap()
}

fn emitted(f: impl FnOnce(&mut XmlEmitter)) -> String {
    let mut emit = XmlEmitter::new();
    f(&mut emit);
    render(emit.events())
}

fn attrs(element: &str, pairs: &[(&str, &str)]) -> Attrs {
    Attrs::from_pairs(element, pairs.iter().map(|(k, v)| (k.to_string(), v.to_string())).collect())
}

#[test]
fn group_serialization() {
    let empty = Group { name: "G".to_string(), doc: None, entities: vec![] };
    assert_eq!(emitted(|e| serialize_group(e, &empty)), "<group name=\"G\"/>");
    let full = Group {
        name: "G".to_string(),
        doc: Some(Documentation::PlainText("about".to_string())),
        entities: vec![
            GroupEntity { name: "a".to_string(), run: true },
            GroupEntity { name: "b".to_string(), run: false },
        ],
    };
    assert_eq!(
        emitted(|e| serialize_group(e, &full)),
        "<group name=\"G\"><doc>about</doc><entity name=\"a\" run=\"true\"/><entity name=\"b\" run=\"false\"/></group>"
    );
}

#[test]
fn module_serialization() {
    let plain = Module { name: "M".to_string(), resource: None, connections: vec![], documentation: None };
    assert_eq!(emitted(|e| serialize_module(e, &plain)), "<module name=\"M\"/>");
    let full = Module {
        name: "M".to_string(),
        resource: Some("m.xmile".to_string()),
        connections: vec![ModuleConnection { to: "in".to_string(), from: "out".to_string() }],
        documentation: Some(Documentation::Html("<b>x</b>".to_string())),
    };
    assert_eq!(
        emitted(|e| serialize_module(e, &full)),
        "<module name=\"M\" resource=\"m.xmile\"><connect to=\"in\" from=\"out\"/><doc>&lt;b&gt;x&lt;/b&gt;</doc></module>"
    );
}

#[test]
fn dimension_serialization() {
    let sized = DefinedDimension { name: "N".to_string(), size: Some(3), elements: vec![] };
    assert_eq!(emitted(|e| serialize_dimension(e, &sized)), "<dim name=\"N\" size=\"3\"/>");
    let named = DefinedDimension {
        name: "Region".to_string(),
        size: None,
        elements: vec![DimensionElement { name: "North".to_string() }, DimensionElement { name: "South".to_string() }],
    };
    assert_eq!(
        emitted(|e| serialize_file_dimensions(e, &vec![sized, named])),
        "<dimensions><dim name=\"N\" size=\"3\"/><dim name=\"Region\"><elem name=\"North\"/><elem name=\"South\"/></dim></dimensions>"
    );
    assert_eq!(emitted(|e| serialize_file_dimensions(e, &vec![])), "<dimensions></dimensions>");
}

#[test]
fn data_action_round_trips() {
    let all = vec![
        DataAction::DataManager,
        DataAction::SaveDataNow { run_name: "run 1".to_string() },
        DataAction::ImportNow { resource: "in.csv".to_string(), worksheet: Some("S".to_string()), all: true },
        DataAction::ExportNow { resource: "out.csv".to_string(), worksheet: None, all: false },
    ];
    for a in all {
        let pairs = data_action_attributes(&a).pairs().clone();
        assert_eq!(parse_data_action(&Attrs::from_pairs("data_action", pairs)), Ok(a));
    }
    assert_eq!(
        emitted(|e| serialize_data_action(
            e,
            &DataAction::ImportNow { resource: "r".to_string(), worksheet: None, all: true }
        )),
        "<data_action action=\"import_now\" resource=\"r\" all=\"true\"/>"
    );
}

#[test]
fn data_action_errors() {
    assert_eq!(
        parse_data_action(&attrs("data_action", &[("action", "data_manager"), ("all", "perhaps")])),
        Err(DeserializeError::Custom("Invalid boolean for data_action@all: 'perhaps' (expected true/false)".to_string()))
    );
    assert_eq!(
        parse_data_action(&attrs("data_action", &[("action", "save_data_now")])),
        Err(DeserializeError::MissingField("run_name".to_string()))
    );
    assert_eq!(
        parse_data_action(&attrs("data_action", &[("action", "export_now")])),
        Err(DeserializeError::MissingField("resource".to_string()))
    );
    assert_eq!(
        parse_data_action(&attrs("data_action", &[("action", "nothing")])),
        Err(DeserializeError::MissingField("action".to_string()))
    );
    assert_eq!(
        parse_data_action(&attrs("data_action", &[("action", "import_now"), ("resource", "x"), ("all", "YES")])),
        Ok(DataAction::ImportNow { resource: "x".to_string(), worksheet: None, all: true })
    );
}

#[test]
fn menu_action_serialization_and_reading() {
    assert_eq!(
        emitted(|e| serialize_menu_action(e, &MenuAction::File(FileAction::Open))),
        "<menu_action type=\"file\" action=\"open\"/>"
    );
    assert_eq!(
        emitted(|e| serialize_menu_action(e, &MenuAction::Data(DataAction::DataManager))),
        "<menu_action type=\"data\"><data_action action=\"data_manager\"/></menu_action>"
    );
    let a = attrs("menu_action", &[("type", "restore"), ("action", "restore_all")]);
    assert_eq!(parse_menu_action(&a, None), Ok(MenuAction::Restore(RestoreAction::RestoreAll)));
    assert_eq!(
        parse_menu_action(&attrs("menu_action", &[("type", "data")]), Some(DataAction::DataManager)),
        Ok(MenuAction::Data(DataAction::DataManager))
    );
    assert_eq!(
        parse_menu_action(&attrs("menu_action", &[("type", "data")]), None),
        Err(DeserializeError::MissingField("data_action".to_string()))
    );
    assert_eq!(
        parse_menu_action(&attrs("menu_action", &[("type", "file")]), None),
        Err(DeserializeError::MissingField("action".to_string()))
    );
    assert_eq!(
        parse_menu_action(&attrs("menu_action", &[("type", "file"), ("action", "burn")]), None),
        Err(DeserializeError::Custom("Invalid file action: burn".to_string()))
    );
    assert_eq!(
        parse_menu_action(&attrs("menu_action", &[("action", "open")]), None),
        Err(DeserializeError::MissingField("type".to_string()))
    );
}

#[test]
fn pointer_serialization_and_reading() {
    assert_eq!(emitted(|e| serialize_pointer(e, &Pointer::Alias(Uid::new(12)))), "<alias uid=\"12\"/>");
    assert_eq!(emitted(|e| serialize_pointer(e, &Pointer::Name("a & b".to_string()))), "a &amp; b");
    assert_eq!(parse_alias_pointer(&attrs("alias", &[("uid", "-3")])), Ok(Pointer::Alias(Uid::new(-3))));
    assert_eq!(parse_alias_pointer(&attrs("alias", &[])), Err(DeserializeError::MissingField("uid".to_string())));
    assert_eq!(
        parse_alias_pointer(&attrs("alias", &[("uid", "x")])),
        Err(DeserializeError::Custom("Invalid value for alias@uid: invalid digit found in string (got 'x')".to_string()))
    );
}

fn header() -> xmile::schema::Header {
    xmile::schema::Header {
        vendor: "Acme".to_string(),
        product: xmile::schema::Product { name: "Sim".to_string(), version: "2.0".to_string(), lang: Some("en".to_string()) },
        name: Some("Model".to_string()),
        version_info: None,
        caption: None,
        image: None,
        author: Some("Ann".to_string()),
        affiliation: None,
        client: None,
        copyright: None,
        contact: Some(xmile::schema::Contact {
            address: None,
            phone: None,
            fax: None,
            email: Some("a@b.c".to_string()),
            website: None,
        }),
        created: None,
        modified: None,
        uuid: Some("u-1".to_string()),
        includes: Some(xmile::schema::Includes {
            includes: vec![xmile::schema::Include { resource: "lib.xmile".to_string() }],
        }),
    }
}

#[test]
fn header_serialization() {
    assert_eq!(
        emitted(|e| xmile::serialize::serialize_header(e, &header())),
        "<header><vendor>Acme</vendor><product version=\"2.0\" lang=\"en\">Sim</product><name>Model</name>\
<author>Ann</author><contact><email>a@b.c</email></contact><uuid>u-1</uuid>\
<includes><include resource=\"lib.xmile\"/></includes></header>"
    );
}

#[test]
fn model_units_serialization() {
    let units = xmile::schema::ModelUnits {
        units: vec![
            xmile::schema::UnitDefinition {
                name: "Person".to_string(),
                eqn: None,
                aliases: vec!["People".to_string(), "Persons".to_string()],
                disabled: Some(false),
            },
            xmile::schema::UnitDefinition {
                name: "Day".to_string(),
                eqn: Some("24*Hour".to_string()),
                aliases: vec![],
                disabled: Some(true),
            },
        ],
    };
    assert_eq!(
        emitted(|e| xmile::serialize::serialize_model_units(e, &units)),
        "<model_units><unit name=\"Person\"><alias>People</alias><alias>Persons</alias></unit>\
<unit name=\"Day\" disabled=\"true\"><eqn>24*Hour</eqn></unit></model_units>"
    );
}

#[test]
fn behavior_serialization() {
    let empty = Behavior { global: BehaviorFlags { non_negative: None }, entities: vec![] };
    assert_eq!(emitted(|e| xmile::serialize::serialize_behavior(e, &empty)), "<behavior/>");
    let off = Behavior { global: BehaviorFlags { non_negative: Some(false) }, entities: vec![] };
    assert_eq!(emitted(|e| xmile::serialize::serialize_behavior(e, &off)), "<behavior></behavior>");
    let b = Behavior {
        global: BehaviorFlags { non_negative: Some(true) },
        entities: vec![
            EntityBehavior { entity_type: "stock".to_string(), behavior: BehaviorFlags { non_negative: Some(true) } },
            EntityBehavior { entity_type: "flow".to_string(), behavior: BehaviorFlags { non_negative: None } },
        ],
    };
    assert_eq!(
        emitted(|e| xmile::serialize::serialize_behavior(e, &b)),
        "<behavior><non_negative/><stock><non_negative/></stock></behavior>"
    );
}

#[test]
fn data_serialization() {
    let import = xmile::schema::DataImport {
        data_type: Some("CSV".to_string()),
        enabled: Some(true),
        frequency: None,
        orientation: None,
        resource: Some("in.csv".to_string()),
        worksheet: None,
    };
    let plain_export = xmile::schema::DataExport {
        data_type: None,
        enabled: Some(false),
        frequency: None,
        orientation: Some("vertical".to_string()),
        resource: Some("out.csv".to_string()),
        worksheet: None,
        interval: Some("DT".to_string()),
        export_all: None,
        table_uid: None,
    };
    let table_export = xmile::schema::DataExport {
        data_type: None,
        enabled: None,
        frequency: None,
        orientation: None,
        resource: None,
        worksheet: None,
        interval: None,
        export_all: Some(true),
        table_uid: Some(xmile::schema::ExportTable { uid: "7".to_string(), use_settings: Some(true) }),
    };
    let data = xmile::schema::Data { imports: vec![import], exports: vec![plain_export, table_export] };
    assert_eq!(
        emitted(|e| xmile::serialize::serialize_data(e, &data)),
        "<data><import type=\"CSV\" enabled=\"true\" resource=\"in.csv\"/>\
<export enabled=\"false\" orientation=\"vertical\" resource=\"out.csv\" interval=\"DT\"/>\
<export><all/><table uid=\"7\" use_settings=\"true\"/></export></data>"
    );
    let empty = xmile::schema::Data { imports: vec![], exports: vec![] };
    assert_eq!(emitted(|e| xmile::serialize::serialize_data(e, &empty)), "<data/>");
}

#[test]
fn event_serialization() {
    let quiet = xmile::schema::ModelEvent { sim_action: Some("pause".to_string()), actions: vec![] };
    assert_eq!(emitted(|e| xmile::serialize::serialize_event(e, &quiet)), "<event sim_action=\"pause\"/>");
    let loud = xmile::schema::ModelEvent { sim_action: None, actions: vec!["beep".to_string(), "flash".to_string()] };
    assert_eq!(emitted(|e| xmile::serialize::serialize_event(e, &loud)), "<event>beep flash</event>");
}

#[test]
fn documentation_kind_follows_markup() {
    match xmile::serialize::documentation_from_text("<p>Hi</p>".to_string()) {
        Documentation::Html(t) => assert_eq!(t, "<p>Hi</p>"),
        other => panic!("unexpected {:?}", other),
    }
    match xmile::serialize::documentation_from_text("a < b".to_string()) {
        Documentation::PlainText(t) => assert_eq!(t, "a < b"),
        other => panic!("unexpected {:?}", other),
    }
    match xmile::serialize::documentation_from_text("x > y".to_string()) {
        Documentation::PlainText(t) => assert_eq!(t, "x > y"),
        other => panic!("unexpected {:?}", other),
    }
}

#[test]
fn variable_dimensions_serialization() {
    let dims = xmile::model::VariableDimensions {
        dims: vec![
            xmile::model::Dimension { name: "Region".to_string() },
            xmile::model::Dimension { name: "Age".to_string() },
        ],
    };
    assert_eq!(
        emitted(|e| xmile::serialize::serialize_dimensions(e, &dims)),
        "<dimensions><dim name=\"Region\"/><dim name=\"Age\"/></dimensions>"
    );
}
