//! Menu and data actions of buttons: the attributes they are written as, and how they are
//! read back from the attributes of their elements.

use vstd::prelude::*;
use vstd::string::*;
use crate::de::{
    lemma_bool_attribute_round_trip, pairs_map, spec_bool_from_text, spec_get, spec_invalid_bool_message, Attrs,
    DeserializeError,
};
use crate::errors::opt_text;
use crate::ser::{spec_bool_text, tag, AttrList, EventKind, EventView, XmlEmitter};
use crate::text::{lemma_texts_differ_at, str_eq};
use crate::view::{
    lemma_file_action_round_trip, lemma_miscellaneous_action_round_trip, lemma_printing_action_round_trip,
    lemma_restore_action_round_trip, lemma_simulation_action_round_trip, parse_file_action,
    parse_miscellaneous_action, parse_printing_action, parse_restore_action, parse_simulation_action,
    serialize_file_action, serialize_miscellaneous_action, serialize_printing_action, serialize_restore_action,
    serialize_simulation_action, spec_file_action_from_text, spec_file_action_text,
    spec_miscellaneous_action_from_text, spec_miscellaneous_action_text, spec_printing_action_from_text,
    spec_printing_action_text, spec_restore_action_from_text, spec_restore_action_text,
    spec_simulation_action_from_text, spec_simulation_action_text, FileAction, MiscellaneousAction,
    PrintingAction, RestoreAction, SimulationAction,
};

verus! {

/// What a data menu action does.
#[derive(Debug, Clone, PartialEq, Eq)]
pub enum DataAction {
    /// Open the data manager.
    DataManager,
    /// Save the data of the current run under a name.
    SaveDataNow { run_name: String },
    /// Import data from a resource, optionally one worksheet, optionally all of it.
    ImportNow { resource: String, worksheet: Option<String>, all: bool },
    /// Export data to a resource, optionally one worksheet, optionally all of it.
    ExportNow { resource: String, worksheet: Option<String>, all: bool },
}

/// A data action as plain values.
pub enum DataActionSpec {
    DataManager,
    SaveDataNow(Seq<char>),
    ImportNow(Seq<char>, Option<Seq<char>>, bool),
    ExportNow(Seq<char>, Option<Seq<char>>, bool),
}

impl View for DataAction {
    type V = DataActionSpec;

    open spec fn view(&self) -> DataActionSpec {
        match self {
            DataAction::DataManager => DataActionSpec::DataManager,
            DataAction::SaveDataNow { run_name } => DataActionSpec::SaveDataNow(run_name@),
            DataAction::ImportNow { resource, worksheet, all } => DataActionSpec::ImportNow(
                resource@,
                opt_text(*worksheet),
                *all,
            ),
            DataAction::ExportNow { resource, worksheet, all } => DataActionSpec::ExportNow(
                resource@,
                opt_text(*worksheet),
                *all,
            ),
        }
    }
}

/// An attribute that is written only when it has a value.
pub open spec fn spec_opt_attr(key: Seq<char>, value: Option<Seq<char>>) -> Seq<(Seq<char>, Seq<char>)> {
    match value {
        Some(v) => seq![(key, v)],
        None => Seq::empty(),
    }
}

/// The attributes of the `data_action` element, in the order they are written.
pub open spec fn spec_data_action_attrs(a: DataActionSpec) -> Seq<(Seq<char>, Seq<char>)> {
    match a {
        DataActionSpec::DataManager => seq![("action"@, "data_manager"@)],
        DataActionSpec::SaveDataNow(run) => seq![("action"@, "save_data_now"@), ("run_name"@, run)],
        DataActionSpec::ImportNow(res, ws, all) => seq![("action"@, "import_now"@), ("resource"@, res)]
            + spec_opt_attr("worksheet"@, ws) + seq![("all"@, spec_bool_text(all))],
        DataActionSpec::ExportNow(res, ws, all) => seq![("action"@, "export_now"@), ("resource"@, res)]
            + spec_opt_attr("worksheet"@, ws) + seq![("all"@, spec_bool_text(all))],
    }
}

/// The `all` flag of a data action: the boolean its text stands for, false when absent.
pub open spec fn spec_all_flag(m: Map<Seq<char>, Seq<char>>) -> bool {
    match spec_get(m, "all"@) {
        Some(t) => spec_bool_from_text(t) == Some(true),
        None => false,
    }
}

/// The `all` attribute is present with a text that is no boolean.
pub open spec fn spec_bad_bool(m: Map<Seq<char>, Seq<char>>, key: Seq<char>) -> bool {
    m.contains_key(key) && spec_bool_from_text(m[key]) is None
}

/// The data action that the attributes of a `data_action` element describe, or the name of
/// the first attribute missing for it (`action` when it is absent or unknown).
pub open spec fn spec_parse_data_action(m: Map<Seq<char>, Seq<char>>) -> Result<DataActionSpec, Seq<char>> {
    let action = spec_get(m, "action"@);
    let resource = spec_get(m, "resource"@);
    if action == Some("data_manager"@) {
        Ok(DataActionSpec::DataManager)
    } else if action == Some("save_data_now"@) {
        match spec_get(m, "run_name"@) {
            Some(r) => Ok(DataActionSpec::SaveDataNow(r)),
            None => Err("run_name"@),
        }
    } else if action == Some("import_now"@) {
        match resource {
            Some(r) => Ok(DataActionSpec::ImportNow(r, spec_get(m, "worksheet"@), spec_all_flag(m))),
            None => Err("resource"@),
        }
    } else if action == Some("export_now"@) {
        match resource {
            Some(r) => Ok(DataActionSpec::ExportNow(r, spec_get(m, "worksheet"@), spec_all_flag(m))),
            None => Err("resource"@),
        }
    } else {
        Err("action"@)
    }
}

/// The attributes a data action is written with.
pub fn data_action_attributes(action: &DataAction) -> (r: AttrList)
    ensures
        r@ == spec_data_action_attrs(action@),
{
    let mut attrs = AttrList::new();
    match action {
        DataAction::DataManager => {
            attrs.add("action", "data_manager");
        },
        DataAction::SaveDataNow { run_name } => {
            attrs.add("action", "save_data_now");
            attrs.add("run_name", run_name.as_str());
        },
        DataAction::ImportNow { resource, worksheet, all } => {
            attrs.add("action", "import_now");
            attrs.add("resource", resource.as_str());
            match worksheet {
                Some(ws) => {
                    attrs.add("worksheet", ws.as_str());
                },
                None => {},
            }
            attrs.add_bool("all", *all);
        },
        DataAction::ExportNow { resource, worksheet, all } => {
            attrs.add("action", "export_now");
            attrs.add("resource", resource.as_str());
            match worksheet {
                Some(ws) => {
                    attrs.add("worksheet", ws.as_str());
                },
                None => {},
            }
            attrs.add_bool("all", *all);
        },
    }
    proof {
        assert(attrs@ =~= spec_data_action_attrs(action@));
    }
    attrs
}

/// Writes a data action as an empty `data_action` element with its attributes.
pub fn serialize_data_action(emitter: &mut XmlEmitter, action: &DataAction)
    ensures
        final(emitter)@ == old(emitter)@.push(tag(EventKind::Empty, "data_action"@, spec_data_action_attrs(action@))),
{
    let attrs = data_action_attributes(action);
    emitter.empty_elem_with_attrs("data_action", &attrs);
}

/// Reads a data action from the attributes of its element. An `all` attribute that is no
/// boolean is refused first; then the action decides which attributes are required.
pub fn parse_data_action(attrs: &Attrs) -> (r: Result<DataAction, DeserializeError>)
    ensures
        spec_bad_bool(attrs@, "all"@) ==> (r matches Err(e) && e.is_custom(
            spec_invalid_bool_message(attrs.spec_element_name(), "all"@, attrs@["all"@]),
        )),
        !spec_bad_bool(attrs@, "all"@) ==> match spec_parse_data_action(attrs@) {
            Ok(a) => r matches Ok(v) && v@ == a,
            Err(f) => r matches Err(e) && e.is_missing_field(f),
        },
{
    let action = attrs.get_opt("action");
    let run_name = attrs.get_opt_string("run_name");
    let resource = attrs.get_opt_string("resource");
    let worksheet = attrs.get_opt_string("worksheet");
    let all = match attrs.get_opt_bool("all") {
        Ok(Some(b)) => b,
        Ok(None) => false,
        Err(e) => {
            return Err(e);
        },
    };
    let a = match action {
        Some(a) => a,
        None => {
            return Err(DeserializeError::MissingField(String::from_str("action")));
        },
    };
    if str_eq(a, "data_manager") {
        Ok(DataAction::DataManager)
    } else if str_eq(a, "save_data_now") {
        match run_name {
            Some(r) => Ok(DataAction::SaveDataNow { run_name: r }),
            None => Err(DeserializeError::MissingField(String::from_str("run_name"))),
        }
    } else if str_eq(a, "import_now") {
        match resource {
            Some(r) => Ok(DataAction::ImportNow { resource: r, worksheet, all }),
            None => Err(DeserializeError::MissingField(String::from_str("resource"))),
        }
    } else if str_eq(a, "export_now") {
        match resource {
            Some(r) => Ok(DataAction::ExportNow { resource: r, worksheet, all }),
            None => Err(DeserializeError::MissingField(String::from_str("resource"))),
        }
    } else {
        Err(DeserializeError::MissingField(String::from_str("action")))
    }
}

/// The map of the attributes of a data action has one entry per attribute written.
proof fn lemma_data_action_map(a: DataActionSpec)
    ensures
        ({
            let m = pairs_map(spec_data_action_attrs(a));
            &&& spec_get(m, "action"@) == Some(spec_data_action_attrs(a)[0].1)
            &&& match a {
                DataActionSpec::DataManager => true,
                DataActionSpec::SaveDataNow(run) => spec_get(m, "run_name"@) == Some(run),
                DataActionSpec::ImportNow(res, ws, all) => spec_get(m, "resource"@) == Some(res) && spec_get(m, "worksheet"@) == ws
                    && spec_get(m, "all"@) == Some(spec_bool_text(all)),
                DataActionSpec::ExportNow(res, ws, all) => spec_get(m, "resource"@) == Some(res) && spec_get(m, "worksheet"@) == ws
                    && spec_get(m, "all"@) == Some(spec_bool_text(all)),
            }
            &&& !spec_bad_bool(m, "all"@)
        }),
{
    reveal_strlit("action");
    reveal_strlit("run_name");
    reveal_strlit("resource");
    reveal_strlit("worksheet");
    reveal_strlit("all");
    assert("action"@.len() == 6);
    assert("run_name"@.len() == 8);
    assert("resource"@.len() == 8);
    assert("worksheet"@.len() == 9);
    assert("all"@.len() == 3);
    lemma_texts_differ_at("run_name"@, "resource"@, 1);
    reveal_with_fuel(pairs_map, 5);
    let attrs = spec_data_action_attrs(a);
    let m = pairs_map(attrs);
    match a {
        DataActionSpec::DataManager => {
            assert(m =~= Map::<Seq<char>, Seq<char>>::empty().insert("action"@, "data_manager"@));
        },
        DataActionSpec::SaveDataNow(run) => {
            assert(m =~= Map::<Seq<char>, Seq<char>>::empty().insert("action"@, "save_data_now"@).insert("run_name"@, run));
        },
        DataActionSpec::ImportNow(res, ws, all) => {
            lemma_bool_attribute_round_trip(all);
            match ws {
                Some(w) => {
                    assert(attrs =~= seq![("action"@, "import_now"@), ("resource"@, res), ("worksheet"@, w), ("all"@, spec_bool_text(all))]);
                    assert(m =~= Map::<Seq<char>, Seq<char>>::empty().insert("action"@, "import_now"@).insert("resource"@, res)
                        .insert("worksheet"@, w).insert("all"@, spec_bool_text(all)));
                },
                None => {
                    assert(attrs =~= seq![("action"@, "import_now"@), ("resource"@, res), ("all"@, spec_bool_text(all))]);
                    assert(m =~= Map::<Seq<char>, Seq<char>>::empty().insert("action"@, "import_now"@).insert("resource"@, res)
                        .insert("all"@, spec_bool_text(all)));
                },
            }
        },
        DataActionSpec::ExportNow(res, ws, all) => {
            lemma_bool_attribute_round_trip(all);
            match ws {
                Some(w) => {
                    assert(attrs =~= seq![("action"@, "export_now"@), ("resource"@, res), ("worksheet"@, w), ("all"@, spec_bool_text(all))]);
                    assert(m =~= Map::<Seq<char>, Seq<char>>::empty().insert("action"@, "export_now"@).insert("resource"@, res)
                        .insert("worksheet"@, w).insert("all"@, spec_bool_text(all)));
                },
                None => {
                    assert(attrs =~= seq![("action"@, "export_now"@), ("resource"@, res), ("all"@, spec_bool_text(all))]);
                    assert(m =~= Map::<Seq<char>, Seq<char>>::empty().insert("action"@, "export_now"@).insert("resource"@, res)
                        .insert("all"@, spec_bool_text(all)));
                },
            }
        },
    }
}

/// Every data action is read back from the attributes it is written with.
pub proof fn lemma_data_action_round_trip(a: DataActionSpec)
    ensures
        !spec_bad_bool(pairs_map(spec_data_action_attrs(a)), "all"@),
        spec_parse_data_action(pairs_map(spec_data_action_attrs(a))) == Ok::<DataActionSpec, Seq<char>>(a),
{
    lemma_data_action_map(a);
    reveal_strlit("data_manager");
    reveal_strlit("save_data_now");
    reveal_strlit("import_now");
    reveal_strlit("export_now");
    assert("data_manager"@.len() == 12);
    assert("save_data_now"@.len() == 13);
    assert("import_now"@.len() == 10);
    assert("export_now"@.len() == 10);
    lemma_texts_differ_at("import_now"@, "export_now"@, 0);
    match a {
        DataActionSpec::ImportNow(res, ws, all) => {
            lemma_bool_attribute_round_trip(all);
        },
        DataActionSpec::ExportNow(res, ws, all) => {
            lemma_bool_attribute_round_trip(all);
        },
        _ => {},
    }
}

/// An action taken from a menu.
#[derive(Debug, Clone, PartialEq, Eq)]
pub enum MenuAction {
    File(FileAction),
    Printing(PrintingAction),
    Simulation(SimulationAction),
    Restore(RestoreAction),
    Data(DataAction),
    Miscellaneous(MiscellaneousAction),
}

/// A menu action as plain values.
pub enum MenuActionSpec {
    File(FileAction),
    Printing(PrintingAction),
    Simulation(SimulationAction),
    Restore(RestoreAction),
    Data(DataActionSpec),
    Miscellaneous(MiscellaneousAction),
}

impl View for MenuAction {
    type V = MenuActionSpec;

    open spec fn view(&self) -> MenuActionSpec {
        match self {
            MenuAction::File(a) => MenuActionSpec::File(*a),
            MenuAction::Printing(a) => MenuActionSpec::Printing(*a),
            MenuAction::Simulation(a) => MenuActionSpec::Simulation(*a),
            MenuAction::Restore(a) => MenuActionSpec::Restore(*a),
            MenuAction::Data(a) => MenuActionSpec::Data(a@),
            MenuAction::Miscellaneous(a) => MenuActionSpec::Miscellaneous(*a),
        }
    }
}

/// The attributes of the `menu_action` tag: its type and, but for data actions, the action.
pub open spec fn spec_menu_action_attrs(a: MenuActionSpec) -> Seq<(Seq<char>, Seq<char>)> {
    match a {
        MenuActionSpec::File(x) => seq![("type"@, "file"@), ("action"@, spec_file_action_text(x))],
        MenuActionSpec::Printing(x) => seq![("type"@, "printing"@), ("action"@, spec_printing_action_text(x))],
        MenuActionSpec::Simulation(x) => seq![("type"@, "simulation"@), ("action"@, spec_simulation_action_text(x))],
        MenuActionSpec::Restore(x) => seq![("type"@, "restore"@), ("action"@, spec_restore_action_text(x))],
        MenuActionSpec::Miscellaneous(x) => seq![("type"@, "miscellaneous"@), ("action"@, spec_miscellaneous_action_text(x))],
        MenuActionSpec::Data(_) => seq![("type"@, "data"@)],
    }
}

/// The events a menu action is written as: an empty `menu_action` element, or for a data
/// action a `menu_action` element holding the `data_action` element.
pub open spec fn spec_menu_action_events(a: MenuActionSpec) -> Seq<EventView> {
    match a {
        MenuActionSpec::Data(d) => seq![
            tag(EventKind::Start, "menu_action"@, spec_menu_action_attrs(a)),
            tag(EventKind::Empty, "data_action"@, spec_data_action_attrs(d)),
            tag(EventKind::End, "menu_action"@, Seq::empty()),
        ],
        _ => seq![tag(EventKind::Empty, "menu_action"@, spec_menu_action_attrs(a))],
    }
}

/// An error of reading, as plain values.
pub enum ReadErrorSpec {
    MissingField(Seq<char>),
    Custom(Seq<char>),
}

impl DeserializeError {
    /// This error is the one described.
    pub open spec fn is_read_error(self, e: ReadErrorSpec) -> bool {
        match e {
            ReadErrorSpec::MissingField(f) => self.is_missing_field(f),
            ReadErrorSpec::Custom(m) => self.is_custom(m),
        }
    }
}

/// The menu action that the attributes of a `menu_action` element describe, given the data
/// action found inside it, if any; or the error reading them gives.
pub open spec fn spec_parse_menu_action(m: Map<Seq<char>, Seq<char>>, data: Option<DataActionSpec>) -> Result<MenuActionSpec, ReadErrorSpec> {
    let t = spec_get(m, "type"@);
    let action = spec_get(m, "action"@);
    if t == Some("file"@) {
        match action {
            None => Err(ReadErrorSpec::MissingField("action"@)),
            Some(x) => match spec_file_action_from_text(x) {
                Some(v) => Ok(MenuActionSpec::File(v)),
                None => Err(ReadErrorSpec::Custom("Invalid file action: "@ + x)),
            },
        }
    } else if t == Some("printing"@) {
        match action {
            None => Err(ReadErrorSpec::MissingField("action"@)),
            Some(x) => match spec_printing_action_from_text(x) {
                Some(v) => Ok(MenuActionSpec::Printing(v)),
                None => Err(ReadErrorSpec::Custom("Invalid printing action: "@ + x)),
            },
        }
    } else if t == Some("simulation"@) {
        match action {
            None => Err(ReadErrorSpec::MissingField("action"@)),
            Some(x) => match spec_simulation_action_from_text(x) {
                Some(v) => Ok(MenuActionSpec::Simulation(v)),
                None => Err(ReadErrorSpec::Custom("Invalid simulation action: "@ + x)),
            },
        }
    } else if t == Some("restore"@) {
        match action {
            None => Err(ReadErrorSpec::MissingField("action"@)),
            Some(x) => match spec_restore_action_from_text(x) {
                Some(v) => Ok(MenuActionSpec::Restore(v)),
                None => Err(ReadErrorSpec::Custom("Invalid restore action: "@ + x)),
            },
        }
    } else if t == Some("miscellaneous"@) {
        match action {
            None => Err(ReadErrorSpec::MissingField("action"@)),
            Some(x) => match spec_miscellaneous_action_from_text(x) {
                Some(v) => Ok(MenuActionSpec::Miscellaneous(v)),
                None => Err(ReadErrorSpec::Custom("Invalid miscellaneous action: "@ + x)),
            },
        }
    } else if t == Some("data"@) {
        match data {
            Some(d) => Ok(MenuActionSpec::Data(d)),
            None => Err(ReadErrorSpec::MissingField("data_action"@)),
        }
    } else {
        Err(ReadErrorSpec::MissingField("type"@))
    }
}

/// The attributes of the `menu_action` tag of a menu action.
pub fn menu_action_attributes(action: &MenuAction) -> (r: AttrList)
    ensures
        r@ == spec_menu_action_attrs(action@),
{
    let mut attrs = AttrList::new();
    match action {
        MenuAction::File(x) => {
            attrs.add("type", "file");
            attrs.add("action", serialize_file_action(x));
        },
        MenuAction::Printing(x) => {
            attrs.add("type", "printing");
            attrs.add("action", serialize_printing_action(x));
        },
        MenuAction::Simulation(x) => {
            attrs.add("type", "simulation");
            attrs.add("action", serialize_simulation_action(x));
        },
        MenuAction::Restore(x) => {
            attrs.add("type", "restore");
            attrs.add("action", serialize_restore_action(x));
        },
        MenuAction::Miscellaneous(x) => {
            attrs.add("type", "miscellaneous");
            attrs.add("action", serialize_miscellaneous_action(x));
        },
        MenuAction::Data(_) => {
            attrs.add("type", "data");
        },
    }
    proof {
        assert(attrs@ =~= spec_menu_action_attrs(action@));
    }
    attrs
}

/// Writes a menu action.
pub fn serialize_menu_action(emitter: &mut XmlEmitter, action: &MenuAction)
    ensures
        final(emitter)@ == old(emitter)@ + spec_menu_action_events(action@),
{
    let attrs = menu_action_attributes(action);
    match action {
        MenuAction::Data(d) => {
            let start = emitter.start_elem("menu_action", &attrs);
            emitter.write_start(&start);
            serialize_data_action(emitter, d);
            emitter.write_end("menu_action");
        },
        _ => {
            emitter.empty_elem_with_attrs("menu_action", &attrs);
        },
    }
    proof {
        assert(emitter@ =~= old(emitter)@ + spec_menu_action_events(action@));
    }
}

/// The action text of a menu action whose type needs one.
fn required_action<'a>(action: Option<&'a str>) -> (r: Result<&'a str, DeserializeError>)
    ensures
        match action {
            Some(a) => r == Ok::<&str, DeserializeError>(a),
            None => r matches Err(e) && e.is_missing_field("action"@),
        },
{
    match action {
        Some(a) => Ok(a),
        None => Err(DeserializeError::MissingField(String::from_str("action"))),
    }
}

/// Reads a menu action from the attributes of its element and the data action read from
/// inside it, if any.
pub fn parse_menu_action(attrs: &Attrs, data_action: Option<DataAction>) -> (r: Result<MenuAction, DeserializeError>)
    ensures
        match spec_parse_menu_action(attrs@, match data_action { Some(d) => Some(d@), None => None }) {
            Ok(a) => r matches Ok(v) && v@ == a,
            Err(e) => r matches Err(err) && err.is_read_error(e),
        },
{
    let t = attrs.get_opt("type");
    let action = attrs.get_opt("action");
    let t = match t {
        Some(t) => t,
        None => {
            return Err(DeserializeError::MissingField(String::from_str("type")));
        },
    };
    if str_eq(t, "file") {
        let a = required_action(action)?;
        match parse_file_action(a) {
            Ok(x) => Ok(MenuAction::File(x)),
            Err(e) => Err(e),
        }
    } else if str_eq(t, "printing") {
        let a = required_action(action)?;
        match parse_printing_action(a) {
            Ok(x) => Ok(MenuAction::Printing(x)),
            Err(e) => Err(e),
        }
    } else if str_eq(t, "simulation") {
        let a = required_action(action)?;
        match parse_simulation_action(a) {
            Ok(x) => Ok(MenuAction::Simulation(x)),
            Err(e) => Err(e),
        }
    } else if str_eq(t, "restore") {
        let a = required_action(action)?;
        match parse_restore_action(a) {
            Ok(x) => Ok(MenuAction::Restore(x)),
            Err(e) => Err(e),
        }
    } else if str_eq(t, "miscellaneous") {
        let a = required_action(action)?;
        match parse_miscellaneous_action(a) {
            Ok(x) => Ok(MenuAction::Miscellaneous(x)),
            Err(e) => Err(e),
        }
    } else if str_eq(t, "data") {
        match data_action {
            Some(d) => Ok(MenuAction::Data(d)),
            None => Err(DeserializeError::MissingField(String::from_str("data_action"))),
        }
    } else {
        Err(DeserializeError::MissingField(String::from_str("type")))
    }
}

/// Every menu action is read back from the attributes of its `menu_action` tag, together
/// with the data action written inside it.
pub proof fn lemma_menu_action_round_trip(a: MenuActionSpec)
    ensures
        spec_parse_menu_action(
            pairs_map(spec_menu_action_attrs(a)),
            match a {
                MenuActionSpec::Data(d) => Some(d),
                _ => None,
            },
        ) == Ok::<MenuActionSpec, ReadErrorSpec>(a),
{
    reveal_strlit("type");
    reveal_strlit("action");
    reveal_strlit("file");
    reveal_strlit("printing");
    reveal_strlit("simulation");
    reveal_strlit("restore");
    reveal_strlit("miscellaneous");
    reveal_strlit("data");
    assert("type"@.len() == 4);
    assert("action"@.len() == 6);
    assert("file"@.len() == 4);
    assert("printing"@.len() == 8);
    assert("simulation"@.len() == 10);
    assert("restore"@.len() == 7);
    assert("miscellaneous"@.len() == 13);
    assert("data"@.len() == 4);
    lemma_texts_differ_at("file"@, "data"@, 0);
    let m = pairs_map(spec_menu_action_attrs(a));
    reveal_with_fuel(pairs_map, 3);
    match a {
        MenuActionSpec::File(x) => {
            lemma_file_action_round_trip(x);
            assert(m =~= Map::<Seq<char>, Seq<char>>::empty().insert("type"@, "file"@).insert("action"@, spec_file_action_text(x)));
        },
        MenuActionSpec::Printing(x) => {
            lemma_printing_action_round_trip(x);
            assert(m =~= Map::<Seq<char>, Seq<char>>::empty().insert("type"@, "printing"@).insert("action"@, spec_printing_action_text(x)));
        },
        MenuActionSpec::Simulation(x) => {
            lemma_simulation_action_round_trip(x);
            assert(m =~= Map::<Seq<char>, Seq<char>>::empty().insert("type"@, "simulation"@).insert("action"@, spec_simulation_action_text(x)));
        },
        MenuActionSpec::Restore(x) => {
            lemma_restore_action_round_trip(x);
            assert(m =~= Map::<Seq<char>, Seq<char>>::empty().insert("type"@, "restore"@).insert("action"@, spec_restore_action_text(x)));
        },
        MenuActionSpec::Miscellaneous(x) => {
            lemma_miscellaneous_action_round_trip(x);
            assert(m =~= Map::<Seq<char>, Seq<char>>::empty().insert("type"@, "miscellaneous"@).insert("action"@, spec_miscellaneous_action_text(x)));
        },
        MenuActionSpec::Data(d) => {
            assert(m =~= Map::<Seq<char>, Seq<char>>::empty().insert("type"@, "data"@));
        },
    }
}


/// A menu action's `type` is `file`, `printing`, `simulation`, `restore`, `miscellaneous` or
/// `data` according to its kind, followed (but for a data action) by the action's text; a
/// `menu_action` element with that type and action text is read as that action, and a data
/// action holds its `data_action` element.
pub proof fn lemma_menu_action_types(f: FileAction, p: PrintingAction, s: SimulationAction, r: RestoreAction, m: MiscellaneousAction, d: DataActionSpec)
    ensures
        spec_menu_action_attrs(MenuActionSpec::File(f))[0] == ("type"@, "file"@),
        spec_menu_action_attrs(MenuActionSpec::File(f))[1] == ("action"@, spec_file_action_text(f)),
        spec_parse_menu_action(pairs_map(seq![("type"@, "file"@), ("action"@, spec_file_action_text(f))]), None) == Ok::<MenuActionSpec, ReadErrorSpec>(MenuActionSpec::File(f)),
        spec_menu_action_attrs(MenuActionSpec::Printing(p))[0] == ("type"@, "printing"@),
        spec_menu_action_attrs(MenuActionSpec::Printing(p))[1] == ("action"@, spec_printing_action_text(p)),
        spec_parse_menu_action(pairs_map(seq![("type"@, "printing"@), ("action"@, spec_printing_action_text(p))]), None) == Ok::<MenuActionSpec, ReadErrorSpec>(MenuActionSpec::Printing(p)),
        spec_menu_action_attrs(MenuActionSpec::Simulation(s))[0] == ("type"@, "simulation"@),
        spec_menu_action_attrs(MenuActionSpec::Simulation(s))[1] == ("action"@, spec_simulation_action_text(s)),
        spec_parse_menu_action(pairs_map(seq![("type"@, "simulation"@), ("action"@, spec_simulation_action_text(s))]), None) == Ok::<MenuActionSpec, ReadErrorSpec>(MenuActionSpec::Simulation(s)),
        spec_menu_action_attrs(MenuActionSpec::Restore(r))[0] == ("type"@, "restore"@),
        spec_menu_action_attrs(MenuActionSpec::Restore(r))[1] == ("action"@, spec_restore_action_text(r)),
        spec_parse_menu_action(pairs_map(seq![("type"@, "restore"@), ("action"@, spec_restore_action_text(r))]), None) == Ok::<MenuActionSpec, ReadErrorSpec>(MenuActionSpec::Restore(r)),
        spec_menu_action_attrs(MenuActionSpec::Miscellaneous(m))[0] == ("type"@, "miscellaneous"@),
        spec_menu_action_attrs(MenuActionSpec::Miscellaneous(m))[1] == ("action"@, spec_miscellaneous_action_text(m)),
        spec_parse_menu_action(pairs_map(seq![("type"@, "miscellaneous"@), ("action"@, spec_miscellaneous_action_text(m))]), None) == Ok::<MenuActionSpec, ReadErrorSpec>(MenuActionSpec::Miscellaneous(m)),
        spec_menu_action_attrs(MenuActionSpec::Data(d)) == seq![("type"@, "data"@)],
        spec_menu_action_events(MenuActionSpec::Data(d))[1] == tag(EventKind::Empty, "data_action"@, spec_data_action_attrs(d)),
        spec_parse_menu_action(pairs_map(seq![("type"@, "data"@)]), Some(d)) == Ok::<MenuActionSpec, ReadErrorSpec>(MenuActionSpec::Data(d)),
{
    lemma_menu_action_round_trip(MenuActionSpec::File(f));
    lemma_menu_action_round_trip(MenuActionSpec::Printing(p));
    lemma_menu_action_round_trip(MenuActionSpec::Simulation(s));
    lemma_menu_action_round_trip(MenuActionSpec::Restore(r));
    lemma_menu_action_round_trip(MenuActionSpec::Miscellaneous(m));
    lemma_menu_action_round_trip(MenuActionSpec::Data(d));
}

} // verus!
