//! Writing model parts as XML events: groups, modules and dimension definitions.

use vstd::prelude::*;
use vstd::string::*;
use crate::model::{Dimension, VariableDimensions, DefinedDimension, DimensionElement, Documentation, Group, GroupEntity, Module, ModuleConnection};
use crate::ser::{spec_bool_text, spec_content_elem, tag, AttrList, EventKind, EventView, XmlEmitter};
use crate::text::{find_char, join_strings, spec_int_text, spec_join, spec_texts};
use crate::actions::spec_opt_attr;
use crate::errors::opt_text;
use crate::schema::{Data, DataExport, DataImport, ExportTable, ModelEvent, Behavior, Contact, EntityBehavior, Header, Include, Includes, ModelUnits, Product, UnitDefinition};

verus! {

/// The text of documentation, whichever form it takes.
pub open spec fn spec_doc_text(d: Documentation) -> Seq<char> {
    match d {
        Documentation::PlainText(t) => t@,
        Documentation::Html(h) => h@,
    }
}

/// The events of an optional `doc` element.
pub open spec fn spec_doc_events(doc: Option<Documentation>) -> Seq<EventView> {
    match doc {
        Some(d) => spec_content_elem("doc"@, EventKind::Text, spec_doc_text(d), Seq::empty()),
        None => Seq::empty(),
    }
}

/// The empty `entity` element of a group member.
pub open spec fn spec_entity_event(e: GroupEntity) -> EventView {
    tag(EventKind::Empty, "entity"@, seq![("name"@, e.name@), ("run"@, spec_bool_text(e.run))])
}

/// The events of a group: an empty `group` element when it has neither documentation nor
/// members, and otherwise its documentation and then one `entity` element per member.
pub open spec fn spec_group_events(g: Group) -> Seq<EventView> {
    let attrs = seq![("name"@, g.name@)];
    if g.doc is Some || g.entities@.len() > 0 {
        seq![tag(EventKind::Start, "group"@, attrs)] + spec_doc_events(g.doc) + g.entities@.map_values(
            |e: GroupEntity| spec_entity_event(e),
        ) + seq![tag(EventKind::End, "group"@, Seq::empty())]
    } else {
        seq![tag(EventKind::Empty, "group"@, attrs)]
    }
}

/// The empty `connect` element of a module connection.
pub open spec fn spec_connect_event(c: ModuleConnection) -> EventView {
    tag(EventKind::Empty, "connect"@, seq![("to"@, c.to@), ("from"@, c.from@)])
}

/// The attributes of a `module` element: its name and, if any, its resource.
pub open spec fn spec_module_attrs(m: Module) -> Seq<(Seq<char>, Seq<char>)> {
    seq![("name"@, m.name@)] + match m.resource {
        Some(r) => seq![("resource"@, r@)],
        None => Seq::empty(),
    }
}

/// The events of a module: an empty `module` element when it has neither connections nor
/// documentation, and otherwise one `connect` element per connection and then its
/// documentation.
pub open spec fn spec_module_events(m: Module) -> Seq<EventView> {
    if m.connections@.len() > 0 || m.documentation is Some {
        seq![tag(EventKind::Start, "module"@, spec_module_attrs(m))] + m.connections@.map_values(
            |c: ModuleConnection| spec_connect_event(c),
        ) + spec_doc_events(m.documentation) + seq![tag(EventKind::End, "module"@, Seq::empty())]
    } else {
        seq![tag(EventKind::Empty, "module"@, spec_module_attrs(m))]
    }
}

/// The empty `elem` element of a dimension element.
pub open spec fn spec_elem_event(e: DimensionElement) -> EventView {
    tag(EventKind::Empty, "elem"@, seq![("name"@, e.name@)])
}

/// The attributes of a `dim` element: its name and, if any, its size.
pub open spec fn spec_dim_attrs(d: DefinedDimension) -> Seq<(Seq<char>, Seq<char>)> {
    seq![("name"@, d.name@)] + match d.size {
        Some(n) => seq![("size"@, spec_int_text(n as int))],
        None => Seq::empty(),
    }
}

/// The events of a dimension definition: an empty `dim` element when it has no named
/// elements, and otherwise one `elem` element per element.
pub open spec fn spec_dimension_events(d: DefinedDimension) -> Seq<EventView> {
    if d.elements@.len() > 0 {
        seq![tag(EventKind::Start, "dim"@, spec_dim_attrs(d))] + d.elements@.map_values(
            |e: DimensionElement| spec_elem_event(e),
        ) + seq![tag(EventKind::End, "dim"@, Seq::empty())]
    } else {
        seq![tag(EventKind::Empty, "dim"@, spec_dim_attrs(d))]
    }
}

/// The events of a list of dimension definitions, one after another.
pub open spec fn spec_dimensions_events(ds: Seq<DefinedDimension>) -> Seq<EventView>
    decreases ds.len(),
{
    if ds.len() == 0 {
        Seq::empty()
    } else {
        spec_dimensions_events(ds.drop_last()) + spec_dimension_events(ds.last())
    }
}

/// Writes optional documentation as a `doc` text element.
fn write_doc(emitter: &mut XmlEmitter, doc: &Option<Documentation>)
    ensures
        final(emitter)@ == old(emitter)@ + spec_doc_events(*doc),
{
    match doc {
        Some(Documentation::PlainText(t)) => emitter.text_elem("doc", t.as_str()),
        Some(Documentation::Html(h)) => emitter.text_elem("doc", h.as_str()),
        None => {
            proof {
                assert(emitter@ =~= old(emitter)@ + Seq::<EventView>::empty());
            }
        },
    }
}

/// Writes a group with its documentation and members.
pub fn serialize_group(emitter: &mut XmlEmitter, group: &Group)
    ensures
        final(emitter)@ == old(emitter)@ + spec_group_events(*group),
{
    let mut attrs = AttrList::new();
    attrs.add("name", group.name.as_str());
    if group.doc.is_some() || group.entities.len() > 0 {
        let start = emitter.start_elem("group", &attrs);
        emitter.write_start(&start);
        write_doc(emitter, &group.doc);
        let ghost before = emitter@;
        let ghost f = |e: GroupEntity| spec_entity_event(e);
        let mut i: usize = 0;
        while i < group.entities.len()
            invariant
                i <= group.entities@.len(),
                emitter@ == before + group.entities@.take(i as int).map_values(f),
                f == (|e: GroupEntity| spec_entity_event(e)),
            decreases group.entities@.len() - i,
        {
            let e = &group.entities[i];
            let mut ea = AttrList::new();
            ea.add("name", e.name.as_str());
            ea.add_bool("run", e.run);
            proof {
                assert(ea@ =~= seq![("name"@, e.name@), ("run"@, spec_bool_text(e.run))]);
            }
            emitter.empty_elem_with_attrs("entity", &ea);
            proof {
                assert(group.entities@.take(i + 1).map_values(f) =~= group.entities@.take(i as int).map_values(f).push(
                    f(group.entities@[i as int]),
                ));
            }
            i = i + 1;
        }
        emitter.write_end("group");
        proof {
            assert(group.entities@.take(group.entities@.len() as int) =~= group.entities@);
            assert(emitter@ =~= old(emitter)@ + spec_group_events(*group));
        }
    } else {
        emitter.empty_elem_with_attrs("group", &attrs);
        proof {
            assert(emitter@ =~= old(emitter)@ + spec_group_events(*group));
        }
    }
}

/// Writes a module with its connections and documentation.
pub fn serialize_module(emitter: &mut XmlEmitter, module: &Module)
    ensures
        final(emitter)@ == old(emitter)@ + spec_module_events(*module),
{
    let mut attrs = AttrList::new();
    attrs.add("name", module.name.as_str());
    attrs.add_opt("resource", match &module.resource {
        Some(r) => Some(r.as_str()),
        None => None,
    });
    proof {
        assert(attrs@ =~= spec_module_attrs(*module));
    }
    if module.connections.len() > 0 || module.documentation.is_some() {
        let start = emitter.start_elem("module", &attrs);
        emitter.write_start(&start);
        let ghost before = emitter@;
        let ghost f = |c: ModuleConnection| spec_connect_event(c);
        let mut i: usize = 0;
        while i < module.connections.len()
            invariant
                i <= module.connections@.len(),
                emitter@ == before + module.connections@.take(i as int).map_values(f),
                f == (|c: ModuleConnection| spec_connect_event(c)),
            decreases module.connections@.len() - i,
        {
            let c = &module.connections[i];
            let mut ca = AttrList::new();
            ca.add("to", c.to.as_str());
            ca.add("from", c.from.as_str());
            proof {
                assert(ca@ =~= seq![("to"@, c.to@), ("from"@, c.from@)]);
            }
            emitter.empty_elem_with_attrs("connect", &ca);
            proof {
                assert(module.connections@.take(i + 1).map_values(f) =~= module.connections@.take(i as int).map_values(
                    f,
                ).push(f(module.connections@[i as int])));
            }
            i = i + 1;
        }
        proof {
            assert(module.connections@.take(module.connections@.len() as int) =~= module.connections@);
        }
        write_doc(emitter, &module.documentation);
        emitter.write_end("module");
        proof {
            assert(emitter@ =~= old(emitter)@ + spec_module_events(*module));
        }
    } else {
        emitter.empty_elem_with_attrs("module", &attrs);
        proof {
            assert(emitter@ =~= old(emitter)@ + spec_module_events(*module));
        }
    }
}

/// Writes a dimension definition with its size and named elements.
pub fn serialize_dimension(emitter: &mut XmlEmitter, dim: &DefinedDimension)
    ensures
        final(emitter)@ == old(emitter)@ + spec_dimension_events(*dim),
{
    let mut attrs = AttrList::new();
    attrs.add("name", dim.name.as_str());
    attrs.add_opt_u32("size", dim.size);
    proof {
        assert(attrs@ =~= spec_dim_attrs(*dim));
    }
    if dim.elements.len() > 0 {
        let start = emitter.start_elem("dim", &attrs);
        emitter.write_start(&start);
        let ghost before = emitter@;
        let ghost f = |e: DimensionElement| spec_elem_event(e);
        let mut i: usize = 0;
        while i < dim.elements.len()
            invariant
                i <= dim.elements@.len(),
                emitter@ == before + dim.elements@.take(i as int).map_values(f),
                f == (|e: DimensionElement| spec_elem_event(e)),
            decreases dim.elements@.len() - i,
        {
            let mut ea = AttrList::new();
            ea.add("name", dim.elements[i].name.as_str());
            emitter.empty_elem_with_attrs("elem", &ea);
            proof {
                assert(dim.elements@.take(i + 1).map_values(f) =~= dim.elements@.take(i as int).map_values(f).push(
                    f(dim.elements@[i as int]),
                ));
            }
            i = i + 1;
        }
        emitter.write_end("dim");
        proof {
            assert(dim.elements@.take(dim.elements@.len() as int) =~= dim.elements@);
            assert(emitter@ =~= old(emitter)@ + spec_dimension_events(*dim));
        }
    } else {
        emitter.empty_elem_with_attrs("dim", &attrs);
        proof {
            assert(emitter@ =~= old(emitter)@ + spec_dimension_events(*dim));
        }
    }
}

/// Writes the file's dimension definitions inside a `dimensions` element.
pub fn serialize_file_dimensions(emitter: &mut XmlEmitter, dims: &Vec<DefinedDimension>)
    ensures
        final(emitter)@ == old(emitter)@ + seq![tag(EventKind::Start, "dimensions"@, Seq::empty())]
            + spec_dimensions_events(dims@) + seq![tag(EventKind::End, "dimensions"@, Seq::empty())],
{
    let attrs = AttrList::new();
    let start = emitter.start_elem("dimensions", &attrs);
    emitter.write_start(&start);
    let ghost before = emitter@;
    let mut i: usize = 0;
    while i < dims.len()
        invariant
            i <= dims@.len(),
            emitter@ == before + spec_dimensions_events(dims@.take(i as int)),
        decreases dims@.len() - i,
    {
        serialize_dimension(emitter, &dims[i]);
        proof {
            assert(dims@.take(i + 1).drop_last() =~= dims@.take(i as int));
            assert(dims@.take(i + 1).last() == dims@[i as int]);
        }
        i = i + 1;
    }
    emitter.write_end("dimensions");
    proof {
        assert(dims@.take(dims@.len() as int) =~= dims@);
    }
}

/// The events of a text element that is written only when there is a text.
pub open spec fn spec_opt_text_elem(name: Seq<char>, text: Option<String>) -> Seq<EventView> {
    match text {
        Some(t) => spec_content_elem(name, EventKind::Text, t@, Seq::empty()),
        None => Seq::empty(),
    }
}

/// The `contact` element, when there is a contact.
pub open spec fn spec_contact_events(contact: Option<Contact>) -> Seq<EventView> {
    match contact {
        Some(c) => seq![tag(EventKind::Start, "contact"@, Seq::empty())] + spec_opt_text_elem("address"@, c.address)
            + spec_opt_text_elem("phone"@, c.phone) + spec_opt_text_elem("fax"@, c.fax) + spec_opt_text_elem(
            "email"@,
            c.email,
        ) + spec_opt_text_elem("website"@, c.website) + seq![tag(EventKind::End, "contact"@, Seq::empty())],
        None => Seq::empty(),
    }
}

/// The empty `include` element of an included file.
pub open spec fn spec_include_event(i: Include) -> EventView {
    tag(EventKind::Empty, "include"@, seq![("resource"@, i.resource@)])
}

/// The `includes` element, when there are includes.
pub open spec fn spec_includes_events(includes: Option<Includes>) -> Seq<EventView> {
    match includes {
        Some(i) => seq![tag(EventKind::Start, "includes"@, Seq::empty())] + i.includes@.map_values(
            |x: Include| spec_include_event(x),
        ) + seq![tag(EventKind::End, "includes"@, Seq::empty())],
        None => Seq::empty(),
    }
}

/// The attributes of the `product` element: its version and, if any, its language.
pub open spec fn spec_product_attrs(p: Product) -> Seq<(Seq<char>, Seq<char>)> {
    seq![("version"@, p.version@)] + match p.lang {
        Some(l) => seq![("lang"@, l@)],
        None => Seq::empty(),
    }
}

/// The optional naming parts of a header: its name, version, caption and image.
pub open spec fn spec_header_title_events(h: Header) -> Seq<EventView> {
    spec_opt_text_elem("name"@, h.name) + spec_opt_text_elem("version"@, h.version_info) + spec_opt_text_elem(
        "caption"@,
        h.caption,
    ) + spec_opt_text_elem("image"@, h.image)
}

/// The optional authorship parts of a header: its author, affiliation, client and
/// copyright.
pub open spec fn spec_header_authorship_events(h: Header) -> Seq<EventView> {
    spec_opt_text_elem("author"@, h.author) + spec_opt_text_elem("affiliation"@, h.affiliation) + spec_opt_text_elem(
        "client"@,
        h.client,
    ) + spec_opt_text_elem("copyright"@, h.copyright)
}

/// The optional descriptive parts of a header, from its name to its copyright.
pub open spec fn spec_header_about_events(h: Header) -> Seq<EventView> {
    spec_header_title_events(h) + spec_header_authorship_events(h)
}

/// The optional dates and identifier of a header.
pub open spec fn spec_header_stamp_events(h: Header) -> Seq<EventView> {
    spec_opt_text_elem("created"@, h.created) + spec_opt_text_elem("modified"@, h.modified) + spec_opt_text_elem(
        "uuid"@,
        h.uuid,
    )
}

/// The events of a header: the vendor and product, then each optional part that is present,
/// in the order the format lists them.
pub open spec fn spec_header_events(h: Header) -> Seq<EventView> {
    seq![tag(EventKind::Start, "header"@, Seq::empty())] + spec_content_elem("vendor"@, EventKind::Text, h.vendor@, Seq::empty())
        + spec_content_elem("product"@, EventKind::Text, h.product.name@, spec_product_attrs(h.product))
        + spec_header_about_events(h) + spec_contact_events(h.contact) + spec_header_stamp_events(h)
        + spec_includes_events(h.includes) + seq![tag(EventKind::End, "header"@, Seq::empty())]
}

/// The text of an optional string, as an optional text.
pub(crate) fn opt_str(s: &Option<String>) -> (r: Option<&str>)
    ensures
        match *s {
            Some(t) => r matches Some(u) && u@ == t@,
            None => r is None,
        },
{
    match s {
        Some(t) => Some(t.as_str()),
        None => None,
    }
}

/// Writes a text element only when there is a text.
fn write_opt_text(emitter: &mut XmlEmitter, name: &str, text: &Option<String>)
    ensures
        final(emitter)@ == old(emitter)@ + spec_opt_text_elem(name@, *text),
{
    emitter.opt_text_elem(name, opt_str(text));
    proof {
        if text.is_none() {
            assert(emitter@ =~= old(emitter)@ + spec_opt_text_elem(name@, *text));
        }
    }
}

/// Writes the contact of a header, if any.
fn write_contact(emitter: &mut XmlEmitter, contact: &Option<Contact>)
    ensures
        final(emitter)@ == old(emitter)@ + spec_contact_events(*contact),
{
    match contact {
        Some(c) => {
            let attrs = AttrList::new();
            let start = emitter.start_elem("contact", &attrs);
            emitter.write_start(&start);
            write_opt_text(emitter, "address", &c.address);
            write_opt_text(emitter, "phone", &c.phone);
            write_opt_text(emitter, "fax", &c.fax);
            write_opt_text(emitter, "email", &c.email);
            write_opt_text(emitter, "website", &c.website);
            emitter.write_end("contact");
            proof {
                assert(emitter@ =~= old(emitter)@ + spec_contact_events(*contact));
            }
        },
        None => {
            proof {
                assert(emitter@ =~= old(emitter)@ + spec_contact_events(*contact));
            }
        },
    }
}

/// Writes the includes of a header, if any.
fn write_includes(emitter: &mut XmlEmitter, includes: &Option<Includes>)
    ensures
        final(emitter)@ == old(emitter)@ + spec_includes_events(*includes),
{
    match includes {
        Some(inc) => {
            let attrs = AttrList::new();
            let start = emitter.start_elem("includes", &attrs);
            emitter.write_start(&start);
            let ghost before = emitter@;
            let ghost f = |x: Include| spec_include_event(x);
            let mut i: usize = 0;
            while i < inc.includes.len()
                invariant
                    i <= inc.includes@.len(),
                    emitter@ == before + inc.includes@.take(i as int).map_values(f),
                    f == (|x: Include| spec_include_event(x)),
                decreases inc.includes@.len() - i,
            {
                let mut ia = AttrList::new();
                ia.add("resource", inc.includes[i].resource.as_str());
                emitter.empty_elem_with_attrs("include", &ia);
                proof {
                    assert(inc.includes@.take(i + 1).map_values(f) =~= inc.includes@.take(i as int).map_values(f).push(
                        f(inc.includes@[i as int]),
                    ));
                }
                i = i + 1;
            }
            emitter.write_end("includes");
            proof {
                assert(inc.includes@.take(inc.includes@.len() as int) =~= inc.includes@);
                assert(emitter@ =~= old(emitter)@ + spec_includes_events(*includes));
            }
        },
        None => {
            proof {
                assert(emitter@ =~= old(emitter)@ + spec_includes_events(*includes));
            }
        },
    }
}

/// Writes the naming parts of a header.
fn write_header_title(emitter: &mut XmlEmitter, header: &Header)
    ensures
        final(emitter)@ == old(emitter)@ + spec_header_title_events(*header),
{
    write_opt_text(emitter, "name", &header.name);
    write_opt_text(emitter, "version", &header.version_info);
    write_opt_text(emitter, "caption", &header.caption);
    write_opt_text(emitter, "image", &header.image);
    proof {
        assert(emitter@ =~= old(emitter)@ + spec_header_title_events(*header));
    }
}

/// Writes the authorship parts of a header.
fn write_header_authorship(emitter: &mut XmlEmitter, header: &Header)
    ensures
        final(emitter)@ == old(emitter)@ + spec_header_authorship_events(*header),
{
    write_opt_text(emitter, "author", &header.author);
    write_opt_text(emitter, "affiliation", &header.affiliation);
    write_opt_text(emitter, "client", &header.client);
    write_opt_text(emitter, "copyright", &header.copyright);
    proof {
        assert(emitter@ =~= old(emitter)@ + spec_header_authorship_events(*header));
    }
}

/// Writes the descriptive parts of a header.
fn write_header_about(emitter: &mut XmlEmitter, header: &Header)
    ensures
        final(emitter)@ == old(emitter)@ + spec_header_about_events(*header),
{
    write_header_title(emitter, header);
    write_header_authorship(emitter, header);
    proof {
        assert(emitter@ =~= old(emitter)@ + spec_header_about_events(*header));
    }
}

/// Writes the dates and identifier of a header.
fn write_header_stamp(emitter: &mut XmlEmitter, header: &Header)
    ensures
        final(emitter)@ == old(emitter)@ + spec_header_stamp_events(*header),
{
    write_opt_text(emitter, "created", &header.created);
    write_opt_text(emitter, "modified", &header.modified);
    write_opt_text(emitter, "uuid", &header.uuid);
    proof {
        assert(emitter@ =~= old(emitter)@ + spec_header_stamp_events(*header));
    }
}

/// Writes the header of a file.
pub fn serialize_header(emitter: &mut XmlEmitter, header: &Header)
    ensures
        final(emitter)@ == old(emitter)@ + spec_header_events(*header),
{
    let none = AttrList::new();
    let start = emitter.start_elem("header", &none);
    emitter.write_start(&start);
    emitter.text_elem("vendor", header.vendor.as_str());
    let mut product_attrs = AttrList::new();
    product_attrs.add("version", header.product.version.as_str());
    product_attrs.add_opt("lang", opt_str(&header.product.lang));
    proof {
        assert(product_attrs@ =~= spec_product_attrs(header.product));
    }
    emitter.text_elem_with_attrs("product", &product_attrs, header.product.name.as_str());
    let ghost e1 = emitter@;
    write_header_about(emitter, header);
    let ghost e2 = emitter@;
    write_contact(emitter, &header.contact);
    let ghost e3 = emitter@;
    write_header_stamp(emitter, header);
    let ghost e4 = emitter@;
    write_includes(emitter, &header.includes);
    let ghost e5 = emitter@;
    emitter.write_end("header");
    proof {
        let front = seq![tag(EventKind::Start, "header"@, Seq::<(Seq<char>, Seq<char>)>::empty())] + spec_content_elem(
            "vendor"@,
            EventKind::Text,
            header.vendor@,
            Seq::empty(),
        ) + spec_content_elem("product"@, EventKind::Text, header.product.name@, spec_product_attrs(header.product));
        assert(e1 =~= old(emitter)@ + front);
        assert(e5 =~= old(emitter)@ + front + spec_header_about_events(*header) + spec_contact_events(header.contact)
            + spec_header_stamp_events(*header) + spec_includes_events(header.includes));
        assert(emitter@ =~= old(emitter)@ + spec_header_events(*header));
    }
}

/// The attributes of a `unit` element: its name, and `disabled` only when it is disabled.
pub open spec fn spec_unit_attrs(u: UnitDefinition) -> Seq<(Seq<char>, Seq<char>)> {
    seq![("name"@, u.name@)] + if u.disabled == Some(true) {
        seq![("disabled"@, "true"@)]
    } else {
        Seq::empty()
    }
}

/// The text elements of the other names of a unit.
pub open spec fn spec_alias_events(aliases: Seq<String>) -> Seq<EventView>
    decreases aliases.len(),
{
    if aliases.len() == 0 {
        Seq::empty()
    } else {
        spec_alias_events(aliases.drop_last()) + spec_content_elem("alias"@, EventKind::Text, aliases.last()@, Seq::empty())
    }
}

/// The events of a unit definition: its equation, if any, and then its other names.
pub open spec fn spec_unit_events(u: UnitDefinition) -> Seq<EventView> {
    seq![tag(EventKind::Start, "unit"@, spec_unit_attrs(u))] + spec_opt_text_elem("eqn"@, u.eqn) + spec_alias_events(
        u.aliases@,
    ) + seq![tag(EventKind::End, "unit"@, Seq::empty())]
}

/// The events of a list of unit definitions, one after another.
pub open spec fn spec_units_events(units: Seq<UnitDefinition>) -> Seq<EventView>
    decreases units.len(),
{
    if units.len() == 0 {
        Seq::empty()
    } else {
        spec_units_events(units.drop_last()) + spec_unit_events(units.last())
    }
}

/// Writes a unit definition.
pub fn serialize_unit_definition(emitter: &mut XmlEmitter, unit: &UnitDefinition)
    ensures
        final(emitter)@ == old(emitter)@ + spec_unit_events(*unit),
{
    let mut attrs = AttrList::new();
    attrs.add("name", unit.name.as_str());
    match unit.disabled {
        Some(true) => {
            attrs.add("disabled", "true");
        },
        _ => {},
    }
    proof {
        reveal_strlit("true");
        assert(attrs@ =~= spec_unit_attrs(*unit));
    }
    let start = emitter.start_elem("unit", &attrs);
    emitter.write_start(&start);
    write_opt_text(emitter, "eqn", &unit.eqn);
    let ghost before = emitter@;
    let mut i: usize = 0;
    while i < unit.aliases.len()
        invariant
            i <= unit.aliases@.len(),
            emitter@ == before + spec_alias_events(unit.aliases@.take(i as int)),
        decreases unit.aliases@.len() - i,
    {
        emitter.text_elem("alias", unit.aliases[i].as_str());
        proof {
            assert(unit.aliases@.take(i + 1).drop_last() =~= unit.aliases@.take(i as int));
            assert(unit.aliases@.take(i + 1).last() == unit.aliases@[i as int]);
        }
        i = i + 1;
    }
    emitter.write_end("unit");
    proof {
        assert(unit.aliases@.take(unit.aliases@.len() as int) =~= unit.aliases@);
        assert(emitter@ =~= old(emitter)@ + spec_unit_events(*unit));
    }
}

/// Writes the unit definitions of a model inside a `model_units` element.
pub fn serialize_model_units(emitter: &mut XmlEmitter, model_units: &ModelUnits)
    ensures
        final(emitter)@ == old(emitter)@ + seq![tag(EventKind::Start, "model_units"@, Seq::empty())]
            + spec_units_events(model_units.units@) + seq![tag(EventKind::End, "model_units"@, Seq::empty())],
{
    let attrs = AttrList::new();
    let start = emitter.start_elem("model_units", &attrs);
    emitter.write_start(&start);
    let ghost before = emitter@;
    let mut i: usize = 0;
    while i < model_units.units.len()
        invariant
            i <= model_units.units@.len(),
            emitter@ == before + spec_units_events(model_units.units@.take(i as int)),
        decreases model_units.units@.len() - i,
    {
        serialize_unit_definition(emitter, &model_units.units[i]);
        proof {
            assert(model_units.units@.take(i + 1).drop_last() =~= model_units.units@.take(i as int));
            assert(model_units.units@.take(i + 1).last() == model_units.units@[i as int]);
        }
        i = i + 1;
    }
    emitter.write_end("model_units");
    proof {
        assert(model_units.units@.take(model_units.units@.len() as int) =~= model_units.units@);
    }
}

/// The events of one entity type's behaviour: a `non_negative` marker inside an element
/// named after the type, written only when the flag is set to true.
pub open spec fn spec_entity_behavior_events(e: EntityBehavior) -> Seq<EventView> {
    if e.behavior.non_negative == Some(true) {
        seq![
            tag(EventKind::Start, e.entity_type@, Seq::empty()),
            tag(EventKind::Empty, "non_negative"@, Seq::empty()),
            tag(EventKind::End, e.entity_type@, Seq::empty()),
        ]
    } else {
        Seq::empty()
    }
}

/// The events of the entity behaviours, one after another.
pub open spec fn spec_entity_behaviors_events(es: Seq<EntityBehavior>) -> Seq<EventView>
    decreases es.len(),
{
    if es.len() == 0 {
        Seq::empty()
    } else {
        spec_entity_behaviors_events(es.drop_last()) + spec_entity_behavior_events(es.last())
    }
}

/// The events of a behaviour: an empty `behavior` element when the global flag is unset and
/// no entity type has a behaviour; otherwise the global marker when it is set to true and
/// then the entity behaviours.
pub open spec fn spec_behavior_events(b: Behavior) -> Seq<EventView> {
    if b.global.non_negative is None && b.entities@.len() == 0 {
        seq![tag(EventKind::Empty, "behavior"@, Seq::empty())]
    } else {
        seq![tag(EventKind::Start, "behavior"@, Seq::empty())] + (if b.global.non_negative == Some(true) {
            seq![tag(EventKind::Empty, "non_negative"@, Seq::empty())]
        } else {
            Seq::empty()
        }) + spec_entity_behaviors_events(b.entities@) + seq![tag(EventKind::End, "behavior"@, Seq::empty())]
    }
}

/// Writes simulation behaviour.
pub fn serialize_behavior(emitter: &mut XmlEmitter, behavior: &Behavior)
    ensures
        final(emitter)@ == old(emitter)@ + spec_behavior_events(*behavior),
{
    if behavior.global.non_negative.is_none() && behavior.entities.len() == 0 {
        emitter.empty_elem("behavior");
        proof {
            assert(emitter@ =~= old(emitter)@ + spec_behavior_events(*behavior));
        }
        return;
    }
    let attrs = AttrList::new();
    let start = emitter.start_elem("behavior", &attrs);
    emitter.write_start(&start);
    emitter.opt_empty_elem("non_negative", behavior.global.non_negative);
    let ghost before = emitter@;
    let mut i: usize = 0;
    while i < behavior.entities.len()
        invariant
            i <= behavior.entities@.len(),
            attrs@ == Seq::<(Seq<char>, Seq<char>)>::empty(),
            emitter@ == before + spec_entity_behaviors_events(behavior.entities@.take(i as int)),
        decreases behavior.entities@.len() - i,
    {
        let e = &behavior.entities[i];
        let ghost mid = emitter@;
        match e.behavior.non_negative {
            Some(true) => {
                let start = emitter.start_elem(e.entity_type.as_str(), &attrs);
                emitter.write_start(&start);
                emitter.empty_elem("non_negative");
                emitter.write_end(e.entity_type.as_str());
            },
            _ => {},
        }
        proof {
            assert(emitter@ =~= mid + spec_entity_behavior_events(*e));
            assert(behavior.entities@.take(i + 1).drop_last() =~= behavior.entities@.take(i as int));
            assert(behavior.entities@.take(i + 1).last() == behavior.entities@[i as int]);
        }
        i = i + 1;
    }
    emitter.write_end("behavior");
    proof {
        assert(behavior.entities@.take(behavior.entities@.len() as int) =~= behavior.entities@);
        assert(emitter@ =~= old(emitter)@ + spec_behavior_events(*behavior));
    }
}

/// A boolean attribute that is written only when it has a value.
pub open spec fn spec_opt_bool_attr(key: Seq<char>, value: Option<bool>) -> Seq<(Seq<char>, Seq<char>)> {
    match value {
        Some(b) => seq![(key, spec_bool_text(b))],
        None => Seq::empty(),
    }
}

/// The attributes shared by data imports and exports, each written only when present.
pub open spec fn spec_connection_attrs(
    data_type: Option<String>,
    enabled: Option<bool>,
    frequency: Option<String>,
    orientation: Option<String>,
    resource: Option<String>,
    worksheet: Option<String>,
) -> Seq<(Seq<char>, Seq<char>)> {
    spec_opt_attr("type"@, opt_text(data_type)) + spec_opt_bool_attr("enabled"@, enabled) + spec_opt_attr(
        "frequency"@,
        opt_text(frequency),
    ) + spec_opt_attr("orientation"@, opt_text(orientation)) + spec_opt_attr("resource"@, opt_text(resource))
        + spec_opt_attr("worksheet"@, opt_text(worksheet))
}

/// The empty `import` element of a data import.
pub open spec fn spec_import_event(i: DataImport) -> EventView {
    tag(
        EventKind::Empty,
        "import"@,
        spec_connection_attrs(i.data_type, i.enabled, i.frequency, i.orientation, i.resource, i.worksheet),
    )
}

/// The attributes of an `export` element.
pub open spec fn spec_export_attrs(e: DataExport) -> Seq<(Seq<char>, Seq<char>)> {
    spec_connection_attrs(e.data_type, e.enabled, e.frequency, e.orientation, e.resource, e.worksheet) + spec_opt_attr(
        "interval"@,
        opt_text(e.interval),
    )
}

/// The attributes of the `table` element of an export.
pub open spec fn spec_export_table_attrs(t: ExportTable) -> Seq<(Seq<char>, Seq<char>)> {
    seq![("uid"@, t.uid@)] + spec_opt_bool_attr("use_settings"@, t.use_settings)
}

/// The events of a data export: an empty `export` element unless it exports everything or
/// names a table, in which case an `all` marker and a `table` element follow inside it.
pub open spec fn spec_export_events(e: DataExport) -> Seq<EventView> {
    if e.export_all is None && e.table_uid is None {
        seq![tag(EventKind::Empty, "export"@, spec_export_attrs(e))]
    } else {
        seq![tag(EventKind::Start, "export"@, spec_export_attrs(e))] + (if e.export_all is Some {
            seq![tag(EventKind::Empty, "all"@, Seq::empty())]
        } else {
            Seq::empty()
        }) + match e.table_uid {
            Some(t) => seq![tag(EventKind::Empty, "table"@, spec_export_table_attrs(t))],
            None => Seq::empty(),
        } + seq![tag(EventKind::End, "export"@, Seq::empty())]
    }
}

/// The events of the data exports, one after another.
pub open spec fn spec_exports_events(es: Seq<DataExport>) -> Seq<EventView>
    decreases es.len(),
{
    if es.len() == 0 {
        Seq::empty()
    } else {
        spec_exports_events(es.drop_last()) + spec_export_events(es.last())
    }
}

/// The events of the data connections: an empty `data` element when there are none, and
/// otherwise the imports and then the exports.
pub open spec fn spec_data_events(d: Data) -> Seq<EventView> {
    if d.imports@.len() == 0 && d.exports@.len() == 0 {
        seq![tag(EventKind::Empty, "data"@, Seq::empty())]
    } else {
        seq![tag(EventKind::Start, "data"@, Seq::empty())] + d.imports@.map_values(|i: DataImport| spec_import_event(i))
            + spec_exports_events(d.exports@) + seq![tag(EventKind::End, "data"@, Seq::empty())]
    }
}

/// The attributes shared by data imports and exports.
fn connection_attrs(
    data_type: &Option<String>,
    enabled: Option<bool>,
    frequency: &Option<String>,
    orientation: &Option<String>,
    resource: &Option<String>,
    worksheet: &Option<String>,
) -> (r: AttrList)
    ensures
        r@ == spec_connection_attrs(*data_type, enabled, *frequency, *orientation, *resource, *worksheet),
{
    let mut attrs = AttrList::new();
    attrs.add_opt("type", opt_str(data_type));
    attrs.add_opt_bool("enabled", enabled);
    attrs.add_opt("frequency", opt_str(frequency));
    attrs.add_opt("orientation", opt_str(orientation));
    attrs.add_opt("resource", opt_str(resource));
    attrs.add_opt("worksheet", opt_str(worksheet));
    proof {
        assert(attrs@ =~= spec_connection_attrs(*data_type, enabled, *frequency, *orientation, *resource, *worksheet));
    }
    attrs
}

/// Writes a data import.
pub fn serialize_data_import(emitter: &mut XmlEmitter, import: &DataImport)
    ensures
        final(emitter)@ == old(emitter)@.push(spec_import_event(*import)),
{
    let attrs = connection_attrs(
        &import.data_type,
        import.enabled,
        &import.frequency,
        &import.orientation,
        &import.resource,
        &import.worksheet,
    );
    emitter.empty_elem_with_attrs("import", &attrs);
}

/// Writes a data export.
pub fn serialize_data_export(emitter: &mut XmlEmitter, export: &DataExport)
    ensures
        final(emitter)@ == old(emitter)@ + spec_export_events(*export),
{
    let mut attrs = connection_attrs(
        &export.data_type,
        export.enabled,
        &export.frequency,
        &export.orientation,
        &export.resource,
        &export.worksheet,
    );
    attrs.add_opt("interval", opt_str(&export.interval));
    proof {
        assert(attrs@ =~= spec_export_attrs(*export));
    }
    if export.export_all.is_none() && export.table_uid.is_none() {
        emitter.empty_elem_with_attrs("export", &attrs);
        proof {
            assert(emitter@ =~= old(emitter)@ + spec_export_events(*export));
        }
        return;
    }
    let start = emitter.start_elem("export", &attrs);
    emitter.write_start(&start);
    let ghost e1 = emitter@;
    if export.export_all.is_some() {
        emitter.empty_elem("all");
    }
    let ghost e2 = emitter@;
    match &export.table_uid {
        Some(t) => {
            let mut ta = AttrList::new();
            ta.add("uid", t.uid.as_str());
            ta.add_opt_bool("use_settings", t.use_settings);
            proof {
                assert(ta@ =~= spec_export_table_attrs(*t));
            }
            emitter.empty_elem_with_attrs("table", &ta);
        },
        None => {},
    }
    emitter.write_end("export");
    proof {
        assert(emitter@ =~= old(emitter)@ + spec_export_events(*export));
    }
}

/// Writes the data connections of a file.
pub fn serialize_data(emitter: &mut XmlEmitter, data: &Data)
    ensures
        final(emitter)@ == old(emitter)@ + spec_data_events(*data),
{
    if data.imports.len() == 0 && data.exports.len() == 0 {
        emitter.empty_elem("data");
        proof {
            assert(emitter@ =~= old(emitter)@ + spec_data_events(*data));
        }
        return;
    }
    let attrs = AttrList::new();
    let start = emitter.start_elem("data", &attrs);
    emitter.write_start(&start);
    let ghost before = emitter@;
    let ghost f = |i: DataImport| spec_import_event(i);
    let mut i: usize = 0;
    while i < data.imports.len()
        invariant
            i <= data.imports@.len(),
            emitter@ == before + data.imports@.take(i as int).map_values(f),
            f == (|i: DataImport| spec_import_event(i)),
        decreases data.imports@.len() - i,
    {
        serialize_data_import(emitter, &data.imports[i]);
        proof {
            assert(data.imports@.take(i + 1).map_values(f) =~= data.imports@.take(i as int).map_values(f).push(
                f(data.imports@[i as int]),
            ));
        }
        i = i + 1;
    }
    proof {
        assert(data.imports@.take(data.imports@.len() as int) =~= data.imports@);
    }
    let ghost mid = emitter@;
    let mut j: usize = 0;
    while j < data.exports.len()
        invariant
            j <= data.exports@.len(),
            emitter@ == mid + spec_exports_events(data.exports@.take(j as int)),
        decreases data.exports@.len() - j,
    {
        serialize_data_export(emitter, &data.exports[j]);
        proof {
            assert(data.exports@.take(j + 1).drop_last() =~= data.exports@.take(j as int));
            assert(data.exports@.take(j + 1).last() == data.exports@[j as int]);
        }
        j = j + 1;
    }
    emitter.write_end("data");
    proof {
        assert(data.exports@.take(data.exports@.len() as int) =~= data.exports@);
        assert(emitter@ =~= old(emitter)@ + spec_data_events(*data));
    }
}

/// The attributes of an `event` element: its simulation action, if any.
pub open spec fn spec_event_attrs(e: ModelEvent) -> Seq<(Seq<char>, Seq<char>)> {
    spec_opt_attr("sim_action"@, opt_text(e.sim_action))
}

/// The events of a model event: an empty `event` element when it has no actions, and
/// otherwise its actions joined by spaces as the element's text.
pub open spec fn spec_model_event_events(e: ModelEvent) -> Seq<EventView> {
    if e.actions@.len() == 0 {
        seq![tag(EventKind::Empty, "event"@, spec_event_attrs(e))]
    } else {
        spec_content_elem("event"@, EventKind::Text, spec_join(spec_texts(e.actions@), " "@), spec_event_attrs(e))
    }
}

/// Writes a model event.
pub fn serialize_event(emitter: &mut XmlEmitter, event: &ModelEvent)
    ensures
        final(emitter)@ == old(emitter)@ + spec_model_event_events(*event),
{
    let mut attrs = AttrList::new();
    attrs.add_opt("sim_action", opt_str(&event.sim_action));
    proof {
        assert(attrs@ =~= spec_event_attrs(*event));
    }
    if event.actions.len() > 0 {
        let text = join_strings(&event.actions, " ");
        emitter.text_elem_with_attrs("event", &attrs, text.as_str());
    } else {
        emitter.empty_elem_with_attrs("event", &attrs);
        proof {
            assert(emitter@ =~= old(emitter)@ + spec_model_event_events(*event));
        }
    }
}

/// Documentation text is read as HTML when it holds both a `<` and a `>`, and as plain text
/// otherwise.
pub open spec fn spec_reads_as_html(text: Seq<char>) -> bool {
    text.contains('<') && text.contains('>')
}

/// The documentation that the text of a `doc` element is read as.
pub open spec fn spec_documentation(text: String) -> Documentation {
    if spec_reads_as_html(text@) {
        Documentation::Html(text)
    } else {
        Documentation::PlainText(text)
    }
}

/// Reads the text of a `doc` element as documentation.
pub fn documentation_from_text(text: String) -> (r: Documentation)
    ensures
        r == spec_documentation(text),
        spec_doc_text(r) == text@,
        r is Html <==> spec_reads_as_html(text@),
{
    let html = match (find_char(text.as_str(), '<'), find_char(text.as_str(), '>')) {
        (Some(_), Some(_)) => true,
        _ => false,
    };
    if html {
        Documentation::Html(text)
    } else {
        Documentation::PlainText(text)
    }
}

/// The empty `dim` element naming one dimension of an arrayed variable.
pub open spec fn spec_dim_name_event(d: Dimension) -> EventView {
    tag(EventKind::Empty, "dim"@, seq![("name"@, d.name@)])
}

/// Writes the dimensions an arrayed variable is arrayed over inside a `dimensions` element.
pub fn serialize_dimensions(emitter: &mut XmlEmitter, dimensions: &VariableDimensions)
    ensures
        final(emitter)@ == old(emitter)@ + seq![tag(EventKind::Start, "dimensions"@, Seq::empty())]
            + dimensions.dims@.map_values(|d: Dimension| spec_dim_name_event(d)) + seq![
            tag(EventKind::End, "dimensions"@, Seq::empty()),
        ],
{
    let attrs = AttrList::new();
    let start = emitter.start_elem("dimensions", &attrs);
    emitter.write_start(&start);
    let ghost before = emitter@;
    let ghost f = |d: Dimension| spec_dim_name_event(d);
    let mut i: usize = 0;
    while i < dimensions.dims.len()
        invariant
            i <= dimensions.dims@.len(),
            emitter@ == before + dimensions.dims@.take(i as int).map_values(f),
            f == (|d: Dimension| spec_dim_name_event(d)),
        decreases dimensions.dims@.len() - i,
    {
        let mut da = AttrList::new();
        da.add("name", dimensions.dims[i].name.as_str());
        emitter.empty_elem_with_attrs("dim", &da);
        proof {
            assert(dimensions.dims@.take(i + 1).map_values(f) =~= dimensions.dims@.take(i as int).map_values(f).push(
                f(dimensions.dims@[i as int]),
            ));
        }
        i = i + 1;
    }
    emitter.write_end("dimensions");
    proof {
        assert(dimensions.dims@.take(dimensions.dims@.len() as int) =~= dimensions.dims@);
    }
}

} // verus!
