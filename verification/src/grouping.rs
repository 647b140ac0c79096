//! Reading modules, with the connections that feed their inputs, and groups, with the
//! variables they hold: the decisions for each child element and the checks that end the
//! reading.

use vstd::prelude::*;
use vstd::string::*;
use crate::de::{spec_get, Attrs, DeserializeError};
use crate::model::{Documentation, Group, GroupEntity, Module, ModuleConnection};
use crate::serialize::{documentation_from_text, spec_documentation};
use crate::variables::{bool_attr, spec_bool_attr};

verus! {

/// The connection a `connect` element describes, when it names both ends.
pub open spec fn spec_connection(a: Attrs) -> Option<(Seq<char>, Seq<char>)> {
    if a@.contains_key("to"@) && a@.contains_key("from"@) {
        Some((a@["to"@], a@["from"@]))
    } else {
        None
    }
}

/// Reads the attributes of a `connect` element of a module: a connection needs both its
/// `to` and its `from`, and one without both is passed over.
pub fn connection_from_attrs(attrs: &Attrs) -> (r: Option<ModuleConnection>)
    ensures
        match spec_connection(*attrs) {
            Some((to, from)) => r matches Some(c) && c.to@ == to && c.from@ == from,
            None => r is None,
        },
{
    match (attrs.get_opt_string("to"), attrs.get_opt_string("from")) {
        (Some(to), Some(from)) => Some(ModuleConnection { to, from }),
        _ => None,
    }
}

/// One child element of a module, as the reader found it.
#[derive(Debug)]
pub enum ModuleChild {
    /// A `connect` element, with the connection it gave, if any.
    Connect(Option<ModuleConnection>),
    /// A `doc` element, with its text.
    Doc(String),
    /// Any other element, which is passed over.
    Other,
}

/// What has been read so far of a module's children.
#[derive(Debug)]
pub struct ModuleParts {
    pub connections: Vec<ModuleConnection>,
    pub documentation: Option<Documentation>,
}

/// A module's parts after one more child: connections are kept in document order and the
/// later documentation wins.
pub open spec fn spec_module_child_step(a: ModuleParts, c: ModuleChild, b: ModuleParts) -> bool {
    match c {
        ModuleChild::Connect(Some(conn)) => b.connections@ == a.connections@.push(conn) && b.documentation == a.documentation,
        ModuleChild::Doc(t) => b.connections@ == a.connections@ && b.documentation == Some(spec_documentation(t)),
        _ => b.connections@ == a.connections@ && b.documentation == a.documentation,
    }
}

/// Nothing of a module's children read yet.
pub fn empty_module_parts() -> (p: ModuleParts)
    ensures
        p.connections@.len() == 0,
        p.documentation is None,
{
    ModuleParts { connections: Vec::new(), documentation: None }
}

/// Folds one child element of a `module` element into what has been read of it.
pub fn module_child_step(parts: &mut ModuleParts, child: ModuleChild)
    ensures
        spec_module_child_step(*old(parts), child, *final(parts)),
{
    match child {
        ModuleChild::Connect(Some(conn)) => parts.connections.push(conn),
        ModuleChild::Doc(t) => parts.documentation = Some(documentation_from_text(t)),
        _ => {},
    }
}

/// Ends the reading of a module: it needs a name.
pub fn finish_module(name: Option<String>, resource: Option<String>, parts: ModuleParts) -> (r: Result<Module, DeserializeError>)
    ensures
        name is None ==> (r matches Err(e) && e.is_missing_field("name"@)),
        name is Some ==> (r matches Ok(m) && Some(m.name) == name && m.resource == resource
            && m.connections@ == parts.connections@ && m.documentation == parts.documentation),
{
    match name {
        Some(n) => Ok(Module { name: n, resource, connections: parts.connections, documentation: parts.documentation }),
        None => Err(DeserializeError::MissingField(String::from_str("name"))),
    }
}

/// The member an `entity` element of a group describes: its `run` flag is read first (and
/// refused if it is not a boolean), and an entity without a name is passed over; a member
/// does not run with the group unless it says so.
pub open spec fn spec_entity_result(a: Attrs, r: Result<Option<GroupEntity>, DeserializeError>) -> bool {
    match spec_bool_attr(a, "run"@) {
        Err(e) => r matches Err(x) && x.is_read_error(e),
        Ok(run) => match spec_get(a@, "name"@) {
            None => r matches Ok(None),
            Some(n) => r matches Ok(Some(g)) && g.name@ == n && g.run == match run {
                Some(b) => b,
                None => false,
            },
        },
    }
}

/// Reads the attributes of an `entity` element of a group.
pub fn entity_from_attrs(attrs: &Attrs) -> (r: Result<Option<GroupEntity>, DeserializeError>)
    ensures
        spec_entity_result(*attrs, r),
{
    let name = attrs.get_opt_string("name");
    let run = match bool_attr(attrs, "run") {
        Ok(v) => v,
        Err(e) => return Err(e),
    };
    match name {
        Some(n) => Ok(Some(GroupEntity { name: n, run: match run { Some(b) => b, None => false } })),
        None => Ok(None),
    }
}

/// One child element of a group, as the reader found it.
#[derive(Debug)]
pub enum GroupChild {
    /// An `entity` element, with the member it gave, if any.
    Entity(Option<GroupEntity>),
    /// A `doc` element, with its text.
    Doc(String),
    /// Any other element, which is passed over.
    Other,
}

/// What has been read so far of a group's children.
#[derive(Debug)]
pub struct GroupParts {
    pub entities: Vec<GroupEntity>,
    pub doc: Option<Documentation>,
}

/// A group's parts after one more child: members are kept in document order and the later
/// documentation wins.
pub open spec fn spec_group_child_step(a: GroupParts, c: GroupChild, b: GroupParts) -> bool {
    match c {
        GroupChild::Entity(Some(g)) => b.entities@ == a.entities@.push(g) && b.doc == a.doc,
        GroupChild::Doc(t) => b.entities@ == a.entities@ && b.doc == Some(spec_documentation(t)),
        _ => b.entities@ == a.entities@ && b.doc == a.doc,
    }
}

/// Nothing of a group's children read yet.
pub fn empty_group_parts() -> (p: GroupParts)
    ensures
        p.entities@.len() == 0,
        p.doc is None,
{
    GroupParts { entities: Vec::new(), doc: None }
}

/// Folds one child element of a `group` element into what has been read of it.
pub fn group_child_step(parts: &mut GroupParts, child: GroupChild)
    ensures
        spec_group_child_step(*old(parts), child, *final(parts)),
{
    match child {
        GroupChild::Entity(Some(g)) => parts.entities.push(g),
        GroupChild::Doc(t) => parts.doc = Some(documentation_from_text(t)),
        _ => {},
    }
}

/// Ends the reading of a group: it needs a name.
pub fn finish_group(name: Option<String>, parts: GroupParts) -> (r: Result<Group, DeserializeError>)
    ensures
        name is None ==> (r matches Err(e) && e.is_missing_field("name"@)),
        name is Some ==> (r matches Ok(g) && Some(g.name) == name && g.entities@ == parts.entities@ && g.doc == parts.doc),
{
    match name {
        Some(n) => Ok(Group { name: n, doc: parts.doc, entities: parts.entities }),
        None => Err(DeserializeError::MissingField(String::from_str("name"))),
    }
}

} // verus!
