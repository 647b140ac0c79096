//! Writing a table display object: its attributes (its own, then the display attributes
//! shared by display objects, then the styling of its header row) and its items.
//!
//! Numbers, colors, paddings and border widths are held as the text they are written as
//! (a font size without its `pt` unit).

use vstd::prelude::*;
use vstd::string::*;
use crate::errors::opt_text;
use crate::model::Uid;
use crate::ser::{
    lemma_contains_kept, lemma_starts_with_append, lemma_starts_with_push, lemma_starts_with_trans, spec_bool_text, starts_with, tag,
    AttrList, EventKind, EventView, XmlEmitter,
};
use crate::serialize::opt_str;
use crate::style::{
    lemma_push_opt_attr_kept, push_opt_attr, opt_z_index_text, opt_font_size_text, opt_border_style_text, opt_font_style_text, opt_font_weight_text, opt_text_align_text, opt_text_decoration_text, opt_vertical_text_align_text,
};
use crate::text::spec_int_text;
use crate::view::{
    serialize_border_style, BorderStyle, serialize_font_style, FontStyle, serialize_font_weight, FontWeight, serialize_text_align, TextAlign, serialize_text_decoration, TextDecoration, serialize_vertical_text_align, VerticalTextAlign,
    serialize_table_item_type, spec_table_item_type_text, TableItemType, serialize_table_orientation,
    spec_table_orientation_text, TableOrientation, serialize_report_balances, spec_report_balances_text, ReportBalances,
    serialize_report_flows, spec_report_flows_text, ReportFlows, spec_border_style_text, spec_font_style_text, spec_font_weight_text,
    spec_text_align_text, spec_text_decoration_text, spec_vertical_text_align_text,
};

verus! {

/// One column or row of a table, as written.
#[derive(Debug)]
pub struct TableItemText {
    pub item_type: TableItemType,
    pub entity_name: Option<String>,
    pub precision: Option<String>,
    pub delimit_000s: bool,
    pub column_width: Option<String>,
}

/// A table display object, as written.
#[derive(Debug)]
pub struct TableText {
    pub uid: Uid,
    pub x: String,
    pub y: String,
    pub width: String,
    pub height: String,
    pub orientation: TableOrientation,
    pub column_width: String,
    pub interval: String,
    pub report_balances: ReportBalances,
    pub report_flows: ReportFlows,
    pub comparative: bool,
    pub wrap_text: bool,
    pub title: Option<String>,
    pub doc: Option<String>,
    pub blank_column_width: Option<String>,
    pub color: Option<String>,
    pub background: Option<String>,
    pub z_index: Option<i32>,
    pub font_family: Option<String>,
    pub font_size: Option<String>,
    pub font_weight: Option<FontWeight>,
    pub font_style: Option<FontStyle>,
    pub text_decoration: Option<TextDecoration>,
    pub text_align: Option<TextAlign>,
    pub text_background: Option<String>,
    pub vertical_text_align: Option<VerticalTextAlign>,
    pub text_padding: Option<String>,
    pub font_color: Option<String>,
    pub text_border_color: Option<String>,
    pub text_border_width: Option<String>,
    pub text_border_style: Option<BorderStyle>,
    pub header_font_family: Option<String>,
    pub header_font_size: Option<String>,
    pub header_font_weight: Option<FontWeight>,
    pub header_font_style: Option<FontStyle>,
    pub header_text_decoration: Option<TextDecoration>,
    pub header_text_align: Option<TextAlign>,
    pub header_vertical_text_align: Option<VerticalTextAlign>,
    pub header_text_background: Option<String>,
    pub header_text_padding: Option<String>,
    pub header_font_color: Option<String>,
    pub header_text_border_color: Option<String>,
    pub header_text_border_width: Option<String>,
    pub header_text_border_style: Option<BorderStyle>,
    pub items: Vec<TableItemText>,
}

/// The attributes of an `item` element: its type, then its entity and precision when
/// present, whether it delimits thousands, and its column width when present.
pub open spec fn spec_table_item_attrs(i: TableItemText) -> Seq<(Seq<char>, Seq<char>)> {
    let a0 = Seq::empty().push(("type"@, spec_table_item_type_text(i.item_type)));
    let a1 = push_opt_attr(a0, "entity_name"@, opt_text(i.entity_name));
    let a2 = push_opt_attr(a1, "precision"@, opt_text(i.precision));
    let a3 = a2.push(("delimit_000s"@, spec_bool_text(i.delimit_000s)));
    push_opt_attr(a3, "column_width"@, opt_text(i.column_width))
}

/// Builds the attribute list of a table item.
pub fn table_item_attributes(i: &TableItemText) -> (r: AttrList)
    ensures
        r@ == spec_table_item_attrs(*i),
{
    let mut attrs = AttrList::new();
    attrs.add("type", serialize_table_item_type(&i.item_type));
    attrs.add_opt("entity_name", opt_str(&i.entity_name));
    attrs.add_opt("precision", opt_str(&i.precision));
    attrs.add_bool("delimit_000s", i.delimit_000s);
    attrs.add_opt("column_width", opt_str(&i.column_width));
    attrs
}

/// `attrs` followed by the table's own attributes: the required ones, then the title, documentation and blank column width when present.
pub open spec fn spec_table_own_attrs(attrs: Seq<(Seq<char>, Seq<char>)>, t: TableText) -> Seq<(Seq<char>, Seq<char>)> {
    let a0 = attrs.push(("uid"@, spec_int_text(t.uid.value as int)));
    let a1 = a0.push(("x"@, t.x@));
    let a2 = a1.push(("y"@, t.y@));
    let a3 = a2.push(("width"@, t.width@));
    let a4 = a3.push(("height"@, t.height@));
    let a5 = a4.push(("orientation"@, spec_table_orientation_text(t.orientation)));
    let a6 = a5.push(("column_width"@, t.column_width@));
    let a7 = a6.push(("interval"@, t.interval@));
    let a8 = a7.push(("report_balances"@, spec_report_balances_text(t.report_balances)));
    let a9 = a8.push(("report_flows"@, spec_report_flows_text(t.report_flows)));
    let a10 = a9.push(("comparative"@, spec_bool_text(t.comparative)));
    let a11 = a10.push(("wrap_text"@, spec_bool_text(t.wrap_text)));
    let a12 = push_opt_attr(a11, "title"@, opt_text(t.title));
    let a13 = push_opt_attr(a12, "doc"@, opt_text(t.doc));
    let a14 = push_opt_attr(a13, "blank_column_width"@, opt_text(t.blank_column_width));
    a14
}

#[verifier::rlimit(40)]
fn add_table_own_attrs(attrs: &mut AttrList, t: &TableText)
    ensures
        final(attrs)@ == spec_table_own_attrs(old(attrs)@, *t),
{
    attrs.add_i32("uid", t.uid.value);
    attrs.add("x", t.x.as_str());
    attrs.add("y", t.y.as_str());
    attrs.add("width", t.width.as_str());
    attrs.add("height", t.height.as_str());
    attrs.add("orientation", serialize_table_orientation(&t.orientation));
    attrs.add("column_width", t.column_width.as_str());
    attrs.add("interval", t.interval.as_str());
    attrs.add("report_balances", serialize_report_balances(&t.report_balances));
    attrs.add("report_flows", serialize_report_flows(&t.report_flows));
    attrs.add_bool("comparative", t.comparative);
    attrs.add_bool("wrap_text", t.wrap_text);
    attrs.add_opt("title", opt_str(&t.title));
    attrs.add_opt("doc", opt_str(&t.doc));
    attrs.add_opt("blank_column_width", opt_str(&t.blank_column_width));
}

/// `attrs` followed by the display attributes of a table that are present.
pub open spec fn spec_table_display_attrs(attrs: Seq<(Seq<char>, Seq<char>)>, t: TableText) -> Seq<(Seq<char>, Seq<char>)> {
    let a0 = push_opt_attr(attrs, "color"@, opt_text(t.color));
    let a1 = push_opt_attr(a0, "background"@, opt_text(t.background));
    let a2 = push_opt_attr(a1, "z_index"@, opt_z_index_text(t.z_index));
    let a3 = push_opt_attr(a2, "font_family"@, opt_text(t.font_family));
    let a4 = push_opt_attr(a3, "font_size"@, opt_font_size_text(t.font_size));
    let a5 = push_opt_attr(a4, "font_weight"@, opt_font_weight_text(t.font_weight));
    let a6 = push_opt_attr(a5, "font_style"@, opt_font_style_text(t.font_style));
    let a7 = push_opt_attr(a6, "text_decoration"@, opt_text_decoration_text(t.text_decoration));
    let a8 = push_opt_attr(a7, "text_align"@, opt_text_align_text(t.text_align));
    let a9 = push_opt_attr(a8, "text_background"@, opt_text(t.text_background));
    let a10 = push_opt_attr(a9, "vertical_text_align"@, opt_vertical_text_align_text(t.vertical_text_align));
    let a11 = push_opt_attr(a10, "text_padding"@, opt_text(t.text_padding));
    let a12 = push_opt_attr(a11, "font_color"@, opt_text(t.font_color));
    let a13 = push_opt_attr(a12, "text_border_color"@, opt_text(t.text_border_color));
    let a14 = push_opt_attr(a13, "text_border_width"@, opt_text(t.text_border_width));
    let a15 = push_opt_attr(a14, "text_border_style"@, opt_border_style_text(t.text_border_style));
    a15
}

#[verifier::rlimit(40)]
fn add_table_display_attrs(attrs: &mut AttrList, t: &TableText)
    ensures
        final(attrs)@ == spec_table_display_attrs(old(attrs)@, *t),
{
    attrs.add_opt("color", opt_str(&t.color));
    attrs.add_opt("background", opt_str(&t.background));
    attrs.add_opt_i32("z_index", t.z_index);
    attrs.add_opt("font_family", opt_str(&t.font_family));
    match &t.font_size {
        Some(s) => {
            let mut text = String::from_str(s.as_str());
            text.append("pt");
            attrs.add("font_size", text.as_str());
        },
        None => {},
    }
    match &t.font_weight {
        Some(e) => {
            attrs.add("font_weight", serialize_font_weight(e));
        },
        None => {},
    }
    match &t.font_style {
        Some(e) => {
            attrs.add("font_style", serialize_font_style(e));
        },
        None => {},
    }
    match &t.text_decoration {
        Some(e) => {
            attrs.add("text_decoration", serialize_text_decoration(e));
        },
        None => {},
    }
    match &t.text_align {
        Some(e) => {
            attrs.add("text_align", serialize_text_align(e));
        },
        None => {},
    }
    attrs.add_opt("text_background", opt_str(&t.text_background));
    match &t.vertical_text_align {
        Some(e) => {
            attrs.add("vertical_text_align", serialize_vertical_text_align(e));
        },
        None => {},
    }
    attrs.add_opt("text_padding", opt_str(&t.text_padding));
    attrs.add_opt("font_color", opt_str(&t.font_color));
    attrs.add_opt("text_border_color", opt_str(&t.text_border_color));
    attrs.add_opt("text_border_width", opt_str(&t.text_border_width));
    match &t.text_border_style {
        Some(e) => {
            attrs.add("text_border_style", serialize_border_style(e));
        },
        None => {},
    }
}

/// `attrs` followed by the styling of a table's header row that is present.
pub open spec fn spec_table_header_attrs(attrs: Seq<(Seq<char>, Seq<char>)>, t: TableText) -> Seq<(Seq<char>, Seq<char>)> {
    let a0 = push_opt_attr(attrs, "header_font_family"@, opt_text(t.header_font_family));
    let a1 = push_opt_attr(a0, "header_font_size"@, opt_font_size_text(t.header_font_size));
    let a2 = push_opt_attr(a1, "header_font_weight"@, opt_font_weight_text(t.header_font_weight));
    let a3 = push_opt_attr(a2, "header_font_style"@, opt_font_style_text(t.header_font_style));
    let a4 = push_opt_attr(a3, "header_text_decoration"@, opt_text_decoration_text(t.header_text_decoration));
    let a5 = push_opt_attr(a4, "header_text_align"@, opt_text_align_text(t.header_text_align));
    let a6 = push_opt_attr(a5, "header_vertical_text_align"@, opt_vertical_text_align_text(t.header_vertical_text_align));
    let a7 = push_opt_attr(a6, "header_text_background"@, opt_text(t.header_text_background));
    let a8 = push_opt_attr(a7, "header_text_padding"@, opt_text(t.header_text_padding));
    let a9 = push_opt_attr(a8, "header_font_color"@, opt_text(t.header_font_color));
    let a10 = push_opt_attr(a9, "header_text_border_color"@, opt_text(t.header_text_border_color));
    let a11 = push_opt_attr(a10, "header_text_border_width"@, opt_text(t.header_text_border_width));
    let a12 = push_opt_attr(a11, "header_text_border_style"@, opt_border_style_text(t.header_text_border_style));
    a12
}

#[verifier::rlimit(40)]
fn add_table_header_attrs(attrs: &mut AttrList, t: &TableText)
    ensures
        final(attrs)@ == spec_table_header_attrs(old(attrs)@, *t),
{
    attrs.add_opt("header_font_family", opt_str(&t.header_font_family));
    match &t.header_font_size {
        Some(s) => {
            let mut text = String::from_str(s.as_str());
            text.append("pt");
            attrs.add("header_font_size", text.as_str());
        },
        None => {},
    }
    match &t.header_font_weight {
        Some(e) => {
            attrs.add("header_font_weight", serialize_font_weight(e));
        },
        None => {},
    }
    match &t.header_font_style {
        Some(e) => {
            attrs.add("header_font_style", serialize_font_style(e));
        },
        None => {},
    }
    match &t.header_text_decoration {
        Some(e) => {
            attrs.add("header_text_decoration", serialize_text_decoration(e));
        },
        None => {},
    }
    match &t.header_text_align {
        Some(e) => {
            attrs.add("header_text_align", serialize_text_align(e));
        },
        None => {},
    }
    match &t.header_vertical_text_align {
        Some(e) => {
            attrs.add("header_vertical_text_align", serialize_vertical_text_align(e));
        },
        None => {},
    }
    attrs.add_opt("header_text_background", opt_str(&t.header_text_background));
    attrs.add_opt("header_text_padding", opt_str(&t.header_text_padding));
    attrs.add_opt("header_font_color", opt_str(&t.header_font_color));
    attrs.add_opt("header_text_border_color", opt_str(&t.header_text_border_color));
    attrs.add_opt("header_text_border_width", opt_str(&t.header_text_border_width));
    match &t.header_text_border_style {
        Some(e) => {
            attrs.add("header_text_border_style", serialize_border_style(e));
        },
        None => {},
    }
}

/// The attributes of a `table` element in the order they are written.
pub open spec fn spec_table_attrs(t: TableText) -> Seq<(Seq<char>, Seq<char>)> {
    spec_table_header_attrs(spec_table_display_attrs(spec_table_own_attrs(Seq::empty(), t), t), t)
}

/// Builds the attribute list of a table.
pub fn table_attributes(t: &TableText) -> (r: AttrList)
    ensures
        r@ == spec_table_attrs(*t),
{
    let mut attrs = AttrList::new();
    add_table_own_attrs(&mut attrs, t);
    add_table_display_attrs(&mut attrs, t);
    add_table_header_attrs(&mut attrs, t);
    attrs
}

/// The empty `item` element of a table item.
pub open spec fn spec_table_item_event(i: TableItemText) -> EventView {
    tag(EventKind::Empty, "item"@, spec_table_item_attrs(i))
}

/// The events of a table: an empty `table` element when it has no items, and otherwise a
/// `table` element holding one `item` element per item, in order.
pub open spec fn spec_table_events(t: TableText) -> Seq<EventView> {
    if t.items@.len() == 0 {
        seq![tag(EventKind::Empty, "table"@, spec_table_attrs(t))]
    } else {
        seq![tag(EventKind::Start, "table"@, spec_table_attrs(t))] + t.items@.map_values(
            |i: TableItemText| spec_table_item_event(i),
        ) + seq![tag(EventKind::End, "table"@, Seq::empty())]
    }
}

/// Writes a table display object.
pub fn serialize_table_object(emitter: &mut XmlEmitter, t: &TableText)
    ensures
        final(emitter)@ == old(emitter)@ + spec_table_events(*t),
{
    let attrs = table_attributes(t);
    if t.items.len() == 0 {
        emitter.empty_elem_with_attrs("table", &attrs);
        proof {
            assert(final(emitter)@ =~= old(emitter)@ + spec_table_events(*t));
        }
        return;
    }
    let start = emitter.start_elem("table", &attrs);
    emitter.write_start(&start);
    let ghost base = emitter@;
    let mut k: usize = 0;
    while k < t.items.len()
        invariant
            k <= t.items@.len(),
            emitter@ == base + t.items@.take(k as int).map_values(|i: TableItemText| spec_table_item_event(i)),
        decreases t.items@.len() - k,
    {
        let item_attrs = table_item_attributes(&t.items[k]);
        emitter.empty_elem_with_attrs("item", &item_attrs);
        proof {
            assert(t.items@.take(k as int + 1) =~= t.items@.take(k as int).push(t.items@[k as int]));
            assert(t.items@.take(k as int + 1).map_values(|i: TableItemText| spec_table_item_event(i)) =~= t.items@.take(
                k as int,
            ).map_values(|i: TableItemText| spec_table_item_event(i)).push(spec_table_item_event(t.items@[k as int])));
        }
        k = k + 1;
    }
    emitter.write_end("table");
    proof {
        assert(t.items@.take(t.items@.len() as int) =~= t.items@);
        assert(final(emitter)@ =~= old(emitter)@ + spec_table_events(*t));
    }
}



/// `a` includes each of the table's own attributes that it has, with its text.
pub open spec fn has_table_own_attrs(a: Seq<(Seq<char>, Seq<char>)>, t: TableText) -> bool {
    &&& a.contains(("uid"@, spec_int_text(t.uid.value as int)))
    &&& a.contains(("x"@, t.x@))
    &&& a.contains(("y"@, t.y@))
    &&& a.contains(("width"@, t.width@))
    &&& a.contains(("height"@, t.height@))
    &&& a.contains(("orientation"@, spec_table_orientation_text(t.orientation)))
    &&& a.contains(("column_width"@, t.column_width@))
    &&& a.contains(("interval"@, t.interval@))
    &&& a.contains(("report_balances"@, spec_report_balances_text(t.report_balances)))
    &&& a.contains(("report_flows"@, spec_report_flows_text(t.report_flows)))
    &&& a.contains(("comparative"@, spec_bool_text(t.comparative)))
    &&& a.contains(("wrap_text"@, spec_bool_text(t.wrap_text)))
    &&& (t.title matches Some(c) ==> a.contains(("title"@, c@)))
    &&& (t.doc matches Some(c) ==> a.contains(("doc"@, c@)))
    &&& (t.blank_column_width matches Some(c) ==> a.contains(("blank_column_width"@, c@)))
}

proof fn lemma_has_table_own_attrs_kept(a: Seq<(Seq<char>, Seq<char>)>, b: Seq<(Seq<char>, Seq<char>)>, t: TableText)
    requires
        starts_with(b, a),
        has_table_own_attrs(a, t),
    ensures
        has_table_own_attrs(b, t),
{
    lemma_contains_kept(a, b, ("uid"@, spec_int_text(t.uid.value as int)));
    lemma_contains_kept(a, b, ("x"@, t.x@));
    lemma_contains_kept(a, b, ("y"@, t.y@));
    lemma_contains_kept(a, b, ("width"@, t.width@));
    lemma_contains_kept(a, b, ("height"@, t.height@));
    lemma_contains_kept(a, b, ("orientation"@, spec_table_orientation_text(t.orientation)));
    lemma_contains_kept(a, b, ("column_width"@, t.column_width@));
    lemma_contains_kept(a, b, ("interval"@, t.interval@));
    lemma_contains_kept(a, b, ("report_balances"@, spec_report_balances_text(t.report_balances)));
    lemma_contains_kept(a, b, ("report_flows"@, spec_report_flows_text(t.report_flows)));
    lemma_contains_kept(a, b, ("comparative"@, spec_bool_text(t.comparative)));
    lemma_contains_kept(a, b, ("wrap_text"@, spec_bool_text(t.wrap_text)));
    if let Some(c) = t.title {
        lemma_contains_kept(a, b, ("title"@, c@));
    }
    if let Some(c) = t.doc {
        lemma_contains_kept(a, b, ("doc"@, c@));
    }
    if let Some(c) = t.blank_column_width {
        lemma_contains_kept(a, b, ("blank_column_width"@, c@));
    }
}

/// `a` includes each display attribute the table has, with its text.
pub open spec fn has_table_display_attrs(a: Seq<(Seq<char>, Seq<char>)>, t: TableText) -> bool {
    &&& (t.color matches Some(c) ==> a.contains(("color"@, c@)))
    &&& (t.background matches Some(c) ==> a.contains(("background"@, c@)))
    &&& (t.z_index matches Some(z) ==> a.contains(("z_index"@, spec_int_text(z as int))))
    &&& (t.font_family matches Some(c) ==> a.contains(("font_family"@, c@)))
    &&& (t.font_size matches Some(x) ==> a.contains(("font_size"@, x@ + "pt"@)))
    &&& (t.font_weight matches Some(w) ==> a.contains(("font_weight"@, spec_font_weight_text(w))))
    &&& (t.font_style matches Some(w) ==> a.contains(("font_style"@, spec_font_style_text(w))))
    &&& (t.text_decoration matches Some(w) ==> a.contains(("text_decoration"@, spec_text_decoration_text(w))))
    &&& (t.text_align matches Some(w) ==> a.contains(("text_align"@, spec_text_align_text(w))))
    &&& (t.text_background matches Some(c) ==> a.contains(("text_background"@, c@)))
    &&& (t.vertical_text_align matches Some(w) ==> a.contains(("vertical_text_align"@, spec_vertical_text_align_text(w))))
    &&& (t.text_padding matches Some(c) ==> a.contains(("text_padding"@, c@)))
    &&& (t.font_color matches Some(c) ==> a.contains(("font_color"@, c@)))
    &&& (t.text_border_color matches Some(c) ==> a.contains(("text_border_color"@, c@)))
    &&& (t.text_border_width matches Some(c) ==> a.contains(("text_border_width"@, c@)))
    &&& (t.text_border_style matches Some(w) ==> a.contains(("text_border_style"@, spec_border_style_text(w))))
}

proof fn lemma_has_table_display_attrs_kept(a: Seq<(Seq<char>, Seq<char>)>, b: Seq<(Seq<char>, Seq<char>)>, t: TableText)
    requires
        starts_with(b, a),
        has_table_display_attrs(a, t),
    ensures
        has_table_display_attrs(b, t),
{
    if let Some(c) = t.color {
        lemma_contains_kept(a, b, ("color"@, c@));
    }
    if let Some(c) = t.background {
        lemma_contains_kept(a, b, ("background"@, c@));
    }
    if let Some(z) = t.z_index {
        lemma_contains_kept(a, b, ("z_index"@, spec_int_text(z as int)));
    }
    if let Some(c) = t.font_family {
        lemma_contains_kept(a, b, ("font_family"@, c@));
    }
    if let Some(x) = t.font_size {
        lemma_contains_kept(a, b, ("font_size"@, x@ + "pt"@));
    }
    if let Some(w) = t.font_weight {
        lemma_contains_kept(a, b, ("font_weight"@, spec_font_weight_text(w)));
    }
    if let Some(w) = t.font_style {
        lemma_contains_kept(a, b, ("font_style"@, spec_font_style_text(w)));
    }
    if let Some(w) = t.text_decoration {
        lemma_contains_kept(a, b, ("text_decoration"@, spec_text_decoration_text(w)));
    }
    if let Some(w) = t.text_align {
        lemma_contains_kept(a, b, ("text_align"@, spec_text_align_text(w)));
    }
    if let Some(c) = t.text_background {
        lemma_contains_kept(a, b, ("text_background"@, c@));
    }
    if let Some(w) = t.vertical_text_align {
        lemma_contains_kept(a, b, ("vertical_text_align"@, spec_vertical_text_align_text(w)));
    }
    if let Some(c) = t.text_padding {
        lemma_contains_kept(a, b, ("text_padding"@, c@));
    }
    if let Some(c) = t.font_color {
        lemma_contains_kept(a, b, ("font_color"@, c@));
    }
    if let Some(c) = t.text_border_color {
        lemma_contains_kept(a, b, ("text_border_color"@, c@));
    }
    if let Some(c) = t.text_border_width {
        lemma_contains_kept(a, b, ("text_border_width"@, c@));
    }
    if let Some(w) = t.text_border_style {
        lemma_contains_kept(a, b, ("text_border_style"@, spec_border_style_text(w)));
    }
}

/// `a` includes each setting of the table's header styling that it has, with its text.
pub open spec fn has_table_header_attrs(a: Seq<(Seq<char>, Seq<char>)>, t: TableText) -> bool {
    &&& (t.header_font_family matches Some(c) ==> a.contains(("header_font_family"@, c@)))
    &&& (t.header_font_size matches Some(x) ==> a.contains(("header_font_size"@, x@ + "pt"@)))
    &&& (t.header_font_weight matches Some(w) ==> a.contains(("header_font_weight"@, spec_font_weight_text(w))))
    &&& (t.header_font_style matches Some(w) ==> a.contains(("header_font_style"@, spec_font_style_text(w))))
    &&& (t.header_text_decoration matches Some(w) ==> a.contains(("header_text_decoration"@, spec_text_decoration_text(w))))
    &&& (t.header_text_align matches Some(w) ==> a.contains(("header_text_align"@, spec_text_align_text(w))))
    &&& (t.header_vertical_text_align matches Some(w) ==> a.contains(("header_vertical_text_align"@, spec_vertical_text_align_text(w))))
    &&& (t.header_text_background matches Some(c) ==> a.contains(("header_text_background"@, c@)))
    &&& (t.header_text_padding matches Some(c) ==> a.contains(("header_text_padding"@, c@)))
    &&& (t.header_font_color matches Some(c) ==> a.contains(("header_font_color"@, c@)))
    &&& (t.header_text_border_color matches Some(c) ==> a.contains(("header_text_border_color"@, c@)))
    &&& (t.header_text_border_width matches Some(c) ==> a.contains(("header_text_border_width"@, c@)))
    &&& (t.header_text_border_style matches Some(w) ==> a.contains(("header_text_border_style"@, spec_border_style_text(w))))
}

proof fn lemma_has_table_header_attrs_kept(a: Seq<(Seq<char>, Seq<char>)>, b: Seq<(Seq<char>, Seq<char>)>, t: TableText)
    requires
        starts_with(b, a),
        has_table_header_attrs(a, t),
    ensures
        has_table_header_attrs(b, t),
{
    if let Some(c) = t.header_font_family {
        lemma_contains_kept(a, b, ("header_font_family"@, c@));
    }
    if let Some(x) = t.header_font_size {
        lemma_contains_kept(a, b, ("header_font_size"@, x@ + "pt"@));
    }
    if let Some(w) = t.header_font_weight {
        lemma_contains_kept(a, b, ("header_font_weight"@, spec_font_weight_text(w)));
    }
    if let Some(w) = t.header_font_style {
        lemma_contains_kept(a, b, ("header_font_style"@, spec_font_style_text(w)));
    }
    if let Some(w) = t.header_text_decoration {
        lemma_contains_kept(a, b, ("header_text_decoration"@, spec_text_decoration_text(w)));
    }
    if let Some(w) = t.header_text_align {
        lemma_contains_kept(a, b, ("header_text_align"@, spec_text_align_text(w)));
    }
    if let Some(w) = t.header_vertical_text_align {
        lemma_contains_kept(a, b, ("header_vertical_text_align"@, spec_vertical_text_align_text(w)));
    }
    if let Some(c) = t.header_text_background {
        lemma_contains_kept(a, b, ("header_text_background"@, c@));
    }
    if let Some(c) = t.header_text_padding {
        lemma_contains_kept(a, b, ("header_text_padding"@, c@));
    }
    if let Some(c) = t.header_font_color {
        lemma_contains_kept(a, b, ("header_font_color"@, c@));
    }
    if let Some(c) = t.header_text_border_color {
        lemma_contains_kept(a, b, ("header_text_border_color"@, c@));
    }
    if let Some(c) = t.header_text_border_width {
        lemma_contains_kept(a, b, ("header_text_border_width"@, c@));
    }
    if let Some(w) = t.header_text_border_style {
        lemma_contains_kept(a, b, ("header_text_border_style"@, spec_border_style_text(w)));
    }
}

/// A table's own attributes keep what came before them and include each one it has.
#[verifier::rlimit(80)]
proof fn lemma_table_own_written(p: Seq<(Seq<char>, Seq<char>)>, t: TableText)
    ensures
        starts_with(spec_table_own_attrs(p, t), p),
        has_table_own_attrs(spec_table_own_attrs(p, t), t),
{
    let q0 = p.push(("uid"@, spec_int_text(t.uid.value as int)));
    lemma_starts_with_push(p, p, ("uid"@, spec_int_text(t.uid.value as int)));
    assert(q0[p.len() as int] == ("uid"@, spec_int_text(t.uid.value as int)));
    let q1 = q0.push(("x"@, t.x@));
    lemma_starts_with_push(q0, q0, ("x"@, t.x@));
    assert(q1[q0.len() as int] == ("x"@, t.x@));
    let q2 = q1.push(("y"@, t.y@));
    lemma_starts_with_push(q1, q1, ("y"@, t.y@));
    assert(q2[q1.len() as int] == ("y"@, t.y@));
    let q3 = q2.push(("width"@, t.width@));
    lemma_starts_with_push(q2, q2, ("width"@, t.width@));
    assert(q3[q2.len() as int] == ("width"@, t.width@));
    let q4 = q3.push(("height"@, t.height@));
    lemma_starts_with_push(q3, q3, ("height"@, t.height@));
    assert(q4[q3.len() as int] == ("height"@, t.height@));
    let q5 = q4.push(("orientation"@, spec_table_orientation_text(t.orientation)));
    lemma_starts_with_push(q4, q4, ("orientation"@, spec_table_orientation_text(t.orientation)));
    assert(q5[q4.len() as int] == ("orientation"@, spec_table_orientation_text(t.orientation)));
    let q6 = q5.push(("column_width"@, t.column_width@));
    lemma_starts_with_push(q5, q5, ("column_width"@, t.column_width@));
    assert(q6[q5.len() as int] == ("column_width"@, t.column_width@));
    let q7 = q6.push(("interval"@, t.interval@));
    lemma_starts_with_push(q6, q6, ("interval"@, t.interval@));
    assert(q7[q6.len() as int] == ("interval"@, t.interval@));
    let q8 = q7.push(("report_balances"@, spec_report_balances_text(t.report_balances)));
    lemma_starts_with_push(q7, q7, ("report_balances"@, spec_report_balances_text(t.report_balances)));
    assert(q8[q7.len() as int] == ("report_balances"@, spec_report_balances_text(t.report_balances)));
    let q9 = q8.push(("report_flows"@, spec_report_flows_text(t.report_flows)));
    lemma_starts_with_push(q8, q8, ("report_flows"@, spec_report_flows_text(t.report_flows)));
    assert(q9[q8.len() as int] == ("report_flows"@, spec_report_flows_text(t.report_flows)));
    let q10 = q9.push(("comparative"@, spec_bool_text(t.comparative)));
    lemma_starts_with_push(q9, q9, ("comparative"@, spec_bool_text(t.comparative)));
    assert(q10[q9.len() as int] == ("comparative"@, spec_bool_text(t.comparative)));
    let q11 = q10.push(("wrap_text"@, spec_bool_text(t.wrap_text)));
    lemma_starts_with_push(q10, q10, ("wrap_text"@, spec_bool_text(t.wrap_text)));
    assert(q11[q10.len() as int] == ("wrap_text"@, spec_bool_text(t.wrap_text)));
    let q12 = push_opt_attr(q11, "title"@, opt_text(t.title));
    lemma_push_opt_attr_kept(q11, "title"@, opt_text(t.title));
    let q13 = push_opt_attr(q12, "doc"@, opt_text(t.doc));
    lemma_push_opt_attr_kept(q12, "doc"@, opt_text(t.doc));
    let q14 = push_opt_attr(q13, "blank_column_width"@, opt_text(t.blank_column_width));
    lemma_push_opt_attr_kept(q13, "blank_column_width"@, opt_text(t.blank_column_width));
    let r = q14;
    assert(r == spec_table_own_attrs(p, t));
    lemma_starts_with_append(r, r, Seq::empty());
    lemma_starts_with_trans(r, q14, q13);
    lemma_starts_with_trans(r, q13, q12);
    lemma_starts_with_trans(r, q12, q11);
    lemma_starts_with_trans(r, q11, q10);
    lemma_starts_with_trans(r, q10, q9);
    lemma_starts_with_trans(r, q9, q8);
    lemma_starts_with_trans(r, q8, q7);
    lemma_starts_with_trans(r, q7, q6);
    lemma_starts_with_trans(r, q6, q5);
    lemma_starts_with_trans(r, q5, q4);
    lemma_starts_with_trans(r, q4, q3);
    lemma_starts_with_trans(r, q3, q2);
    lemma_starts_with_trans(r, q2, q1);
    lemma_starts_with_trans(r, q1, q0);
    lemma_starts_with_trans(r, q0, p);
    lemma_contains_kept(q0, r, ("uid"@, spec_int_text(t.uid.value as int)));
    lemma_contains_kept(q1, r, ("x"@, t.x@));
    lemma_contains_kept(q2, r, ("y"@, t.y@));
    lemma_contains_kept(q3, r, ("width"@, t.width@));
    lemma_contains_kept(q4, r, ("height"@, t.height@));
    lemma_contains_kept(q5, r, ("orientation"@, spec_table_orientation_text(t.orientation)));
    lemma_contains_kept(q6, r, ("column_width"@, t.column_width@));
    lemma_contains_kept(q7, r, ("interval"@, t.interval@));
    lemma_contains_kept(q8, r, ("report_balances"@, spec_report_balances_text(t.report_balances)));
    lemma_contains_kept(q9, r, ("report_flows"@, spec_report_flows_text(t.report_flows)));
    lemma_contains_kept(q10, r, ("comparative"@, spec_bool_text(t.comparative)));
    lemma_contains_kept(q11, r, ("wrap_text"@, spec_bool_text(t.wrap_text)));
    if let Some(c) = t.title {
        lemma_contains_kept(q12, r, ("title"@, c@));
    }
    if let Some(c) = t.doc {
        lemma_contains_kept(q13, r, ("doc"@, c@));
    }
    if let Some(c) = t.blank_column_width {
        lemma_contains_kept(q14, r, ("blank_column_width"@, c@));
    }
}

/// A table's display attributes keep what came before them and include each one it has.
#[verifier::rlimit(80)]
proof fn lemma_table_display_written(p: Seq<(Seq<char>, Seq<char>)>, t: TableText)
    ensures
        starts_with(spec_table_display_attrs(p, t), p),
        has_table_display_attrs(spec_table_display_attrs(p, t), t),
{
    let q0 = push_opt_attr(p, "color"@, opt_text(t.color));
    lemma_push_opt_attr_kept(p, "color"@, opt_text(t.color));
    let q1 = push_opt_attr(q0, "background"@, opt_text(t.background));
    lemma_push_opt_attr_kept(q0, "background"@, opt_text(t.background));
    let q2 = push_opt_attr(q1, "z_index"@, opt_z_index_text(t.z_index));
    lemma_push_opt_attr_kept(q1, "z_index"@, opt_z_index_text(t.z_index));
    let q3 = push_opt_attr(q2, "font_family"@, opt_text(t.font_family));
    lemma_push_opt_attr_kept(q2, "font_family"@, opt_text(t.font_family));
    let q4 = push_opt_attr(q3, "font_size"@, opt_font_size_text(t.font_size));
    lemma_push_opt_attr_kept(q3, "font_size"@, opt_font_size_text(t.font_size));
    let q5 = push_opt_attr(q4, "font_weight"@, opt_font_weight_text(t.font_weight));
    lemma_push_opt_attr_kept(q4, "font_weight"@, opt_font_weight_text(t.font_weight));
    let q6 = push_opt_attr(q5, "font_style"@, opt_font_style_text(t.font_style));
    lemma_push_opt_attr_kept(q5, "font_style"@, opt_font_style_text(t.font_style));
    let q7 = push_opt_attr(q6, "text_decoration"@, opt_text_decoration_text(t.text_decoration));
    lemma_push_opt_attr_kept(q6, "text_decoration"@, opt_text_decoration_text(t.text_decoration));
    let q8 = push_opt_attr(q7, "text_align"@, opt_text_align_text(t.text_align));
    lemma_push_opt_attr_kept(q7, "text_align"@, opt_text_align_text(t.text_align));
    let q9 = push_opt_attr(q8, "text_background"@, opt_text(t.text_background));
    lemma_push_opt_attr_kept(q8, "text_background"@, opt_text(t.text_background));
    let q10 = push_opt_attr(q9, "vertical_text_align"@, opt_vertical_text_align_text(t.vertical_text_align));
    lemma_push_opt_attr_kept(q9, "vertical_text_align"@, opt_vertical_text_align_text(t.vertical_text_align));
    let q11 = push_opt_attr(q10, "text_padding"@, opt_text(t.text_padding));
    lemma_push_opt_attr_kept(q10, "text_padding"@, opt_text(t.text_padding));
    let q12 = push_opt_attr(q11, "font_color"@, opt_text(t.font_color));
    lemma_push_opt_attr_kept(q11, "font_color"@, opt_text(t.font_color));
    let q13 = push_opt_attr(q12, "text_border_color"@, opt_text(t.text_border_color));
    lemma_push_opt_attr_kept(q12, "text_border_color"@, opt_text(t.text_border_color));
    let q14 = push_opt_attr(q13, "text_border_width"@, opt_text(t.text_border_width));
    lemma_push_opt_attr_kept(q13, "text_border_width"@, opt_text(t.text_border_width));
    let q15 = push_opt_attr(q14, "text_border_style"@, opt_border_style_text(t.text_border_style));
    lemma_push_opt_attr_kept(q14, "text_border_style"@, opt_border_style_text(t.text_border_style));
    let r = q15;
    assert(r == spec_table_display_attrs(p, t));
    lemma_starts_with_append(r, r, Seq::empty());
    lemma_starts_with_trans(r, q15, q14);
    lemma_starts_with_trans(r, q14, q13);
    lemma_starts_with_trans(r, q13, q12);
    lemma_starts_with_trans(r, q12, q11);
    lemma_starts_with_trans(r, q11, q10);
    lemma_starts_with_trans(r, q10, q9);
    lemma_starts_with_trans(r, q9, q8);
    lemma_starts_with_trans(r, q8, q7);
    lemma_starts_with_trans(r, q7, q6);
    lemma_starts_with_trans(r, q6, q5);
    lemma_starts_with_trans(r, q5, q4);
    lemma_starts_with_trans(r, q4, q3);
    lemma_starts_with_trans(r, q3, q2);
    lemma_starts_with_trans(r, q2, q1);
    lemma_starts_with_trans(r, q1, q0);
    lemma_starts_with_trans(r, q0, p);
    if let Some(c) = t.color {
        lemma_contains_kept(q0, r, ("color"@, c@));
    }
    if let Some(c) = t.background {
        lemma_contains_kept(q1, r, ("background"@, c@));
    }
    if let Some(z) = t.z_index {
        lemma_contains_kept(q2, r, ("z_index"@, spec_int_text(z as int)));
    }
    if let Some(c) = t.font_family {
        lemma_contains_kept(q3, r, ("font_family"@, c@));
    }
    if let Some(x) = t.font_size {
        lemma_contains_kept(q4, r, ("font_size"@, x@ + "pt"@));
    }
    if let Some(w) = t.font_weight {
        lemma_contains_kept(q5, r, ("font_weight"@, spec_font_weight_text(w)));
    }
    if let Some(w) = t.font_style {
        lemma_contains_kept(q6, r, ("font_style"@, spec_font_style_text(w)));
    }
    if let Some(w) = t.text_decoration {
        lemma_contains_kept(q7, r, ("text_decoration"@, spec_text_decoration_text(w)));
    }
    if let Some(w) = t.text_align {
        lemma_contains_kept(q8, r, ("text_align"@, spec_text_align_text(w)));
    }
    if let Some(c) = t.text_background {
        lemma_contains_kept(q9, r, ("text_background"@, c@));
    }
    if let Some(w) = t.vertical_text_align {
        lemma_contains_kept(q10, r, ("vertical_text_align"@, spec_vertical_text_align_text(w)));
    }
    if let Some(c) = t.text_padding {
        lemma_contains_kept(q11, r, ("text_padding"@, c@));
    }
    if let Some(c) = t.font_color {
        lemma_contains_kept(q12, r, ("font_color"@, c@));
    }
    if let Some(c) = t.text_border_color {
        lemma_contains_kept(q13, r, ("text_border_color"@, c@));
    }
    if let Some(c) = t.text_border_width {
        lemma_contains_kept(q14, r, ("text_border_width"@, c@));
    }
    if let Some(w) = t.text_border_style {
        lemma_contains_kept(q15, r, ("text_border_style"@, spec_border_style_text(w)));
    }
}

/// A table's header styling keeps what came before it and includes each setting it has.
#[verifier::rlimit(80)]
proof fn lemma_table_header_written(p: Seq<(Seq<char>, Seq<char>)>, t: TableText)
    ensures
        starts_with(spec_table_header_attrs(p, t), p),
        has_table_header_attrs(spec_table_header_attrs(p, t), t),
{
    let q0 = push_opt_attr(p, "header_font_family"@, opt_text(t.header_font_family));
    lemma_push_opt_attr_kept(p, "header_font_family"@, opt_text(t.header_font_family));
    let q1 = push_opt_attr(q0, "header_font_size"@, opt_font_size_text(t.header_font_size));
    lemma_push_opt_attr_kept(q0, "header_font_size"@, opt_font_size_text(t.header_font_size));
    let q2 = push_opt_attr(q1, "header_font_weight"@, opt_font_weight_text(t.header_font_weight));
    lemma_push_opt_attr_kept(q1, "header_font_weight"@, opt_font_weight_text(t.header_font_weight));
    let q3 = push_opt_attr(q2, "header_font_style"@, opt_font_style_text(t.header_font_style));
    lemma_push_opt_attr_kept(q2, "header_font_style"@, opt_font_style_text(t.header_font_style));
    let q4 = push_opt_attr(q3, "header_text_decoration"@, opt_text_decoration_text(t.header_text_decoration));
    lemma_push_opt_attr_kept(q3, "header_text_decoration"@, opt_text_decoration_text(t.header_text_decoration));
    let q5 = push_opt_attr(q4, "header_text_align"@, opt_text_align_text(t.header_text_align));
    lemma_push_opt_attr_kept(q4, "header_text_align"@, opt_text_align_text(t.header_text_align));
    let q6 = push_opt_attr(q5, "header_vertical_text_align"@, opt_vertical_text_align_text(t.header_vertical_text_align));
    lemma_push_opt_attr_kept(q5, "header_vertical_text_align"@, opt_vertical_text_align_text(t.header_vertical_text_align));
    let q7 = push_opt_attr(q6, "header_text_background"@, opt_text(t.header_text_background));
    lemma_push_opt_attr_kept(q6, "header_text_background"@, opt_text(t.header_text_background));
    let q8 = push_opt_attr(q7, "header_text_padding"@, opt_text(t.header_text_padding));
    lemma_push_opt_attr_kept(q7, "header_text_padding"@, opt_text(t.header_text_padding));
    let q9 = push_opt_attr(q8, "header_font_color"@, opt_text(t.header_font_color));
    lemma_push_opt_attr_kept(q8, "header_font_color"@, opt_text(t.header_font_color));
    let q10 = push_opt_attr(q9, "header_text_border_color"@, opt_text(t.header_text_border_color));
    lemma_push_opt_attr_kept(q9, "header_text_border_color"@, opt_text(t.header_text_border_color));
    let q11 = push_opt_attr(q10, "header_text_border_width"@, opt_text(t.header_text_border_width));
    lemma_push_opt_attr_kept(q10, "header_text_border_width"@, opt_text(t.header_text_border_width));
    let q12 = push_opt_attr(q11, "header_text_border_style"@, opt_border_style_text(t.header_text_border_style));
    lemma_push_opt_attr_kept(q11, "header_text_border_style"@, opt_border_style_text(t.header_text_border_style));
    let r = q12;
    assert(r == spec_table_header_attrs(p, t));
    lemma_starts_with_append(r, r, Seq::empty());
    lemma_starts_with_trans(r, q12, q11);
    lemma_starts_with_trans(r, q11, q10);
    lemma_starts_with_trans(r, q10, q9);
    lemma_starts_with_trans(r, q9, q8);
    lemma_starts_with_trans(r, q8, q7);
    lemma_starts_with_trans(r, q7, q6);
    lemma_starts_with_trans(r, q6, q5);
    lemma_starts_with_trans(r, q5, q4);
    lemma_starts_with_trans(r, q4, q3);
    lemma_starts_with_trans(r, q3, q2);
    lemma_starts_with_trans(r, q2, q1);
    lemma_starts_with_trans(r, q1, q0);
    lemma_starts_with_trans(r, q0, p);
    if let Some(c) = t.header_font_family {
        lemma_contains_kept(q0, r, ("header_font_family"@, c@));
    }
    if let Some(x) = t.header_font_size {
        lemma_contains_kept(q1, r, ("header_font_size"@, x@ + "pt"@));
    }
    if let Some(w) = t.header_font_weight {
        lemma_contains_kept(q2, r, ("header_font_weight"@, spec_font_weight_text(w)));
    }
    if let Some(w) = t.header_font_style {
        lemma_contains_kept(q3, r, ("header_font_style"@, spec_font_style_text(w)));
    }
    if let Some(w) = t.header_text_decoration {
        lemma_contains_kept(q4, r, ("header_text_decoration"@, spec_text_decoration_text(w)));
    }
    if let Some(w) = t.header_text_align {
        lemma_contains_kept(q5, r, ("header_text_align"@, spec_text_align_text(w)));
    }
    if let Some(w) = t.header_vertical_text_align {
        lemma_contains_kept(q6, r, ("header_vertical_text_align"@, spec_vertical_text_align_text(w)));
    }
    if let Some(c) = t.header_text_background {
        lemma_contains_kept(q7, r, ("header_text_background"@, c@));
    }
    if let Some(c) = t.header_text_padding {
        lemma_contains_kept(q8, r, ("header_text_padding"@, c@));
    }
    if let Some(c) = t.header_font_color {
        lemma_contains_kept(q9, r, ("header_font_color"@, c@));
    }
    if let Some(c) = t.header_text_border_color {
        lemma_contains_kept(q10, r, ("header_text_border_color"@, c@));
    }
    if let Some(c) = t.header_text_border_width {
        lemma_contains_kept(q11, r, ("header_text_border_width"@, c@));
    }
    if let Some(w) = t.header_text_border_style {
        lemma_contains_kept(q12, r, ("header_text_border_style"@, spec_border_style_text(w)));
    }
}

/// A table's element carries every attribute the table has (its own, its display attributes
/// and its header styling); it is an empty element when the table has no items, and
/// otherwise holds one `item` element per item, in order.
pub proof fn lemma_table_written(t: TableText)
    ensures
        ({
            let a = spec_table_attrs(t);
            let e = spec_table_events(t);
            &&& has_table_own_attrs(a, t)
            &&& has_table_display_attrs(a, t)
            &&& has_table_header_attrs(a, t)
            &&& t.items@.len() == 0 ==> e == seq![tag(EventKind::Empty, "table"@, a)]
            &&& t.items@.len() > 0 ==> {
                &&& e.len() == t.items@.len() + 2
                &&& e[0] == tag(EventKind::Start, "table"@, a)
                &&& e.last() == tag(EventKind::End, "table"@, Seq::empty())
                &&& forall|j: int| 0 <= j < t.items@.len() ==> #[trigger] e[j + 1] == tag(EventKind::Empty, "item"@, spec_table_item_attrs(t.items@[j]))
            }
        }),
{
    let e0 = Seq::<(Seq<char>, Seq<char>)>::empty();
    let o = spec_table_own_attrs(e0, t);
    let d = spec_table_display_attrs(o, t);
    let a = spec_table_header_attrs(d, t);
    lemma_table_own_written(e0, t);
    lemma_table_display_written(o, t);
    lemma_table_header_written(d, t);
    lemma_starts_with_trans(a, d, o);
    lemma_has_table_own_attrs_kept(o, a, t);
    lemma_has_table_display_attrs_kept(d, a, t);
    if t.items@.len() > 0 {
        let e = spec_table_events(t);
        let m = t.items@.map_values(|i: TableItemText| spec_table_item_event(i));
        assert forall|j: int| 0 <= j < t.items@.len() implies #[trigger] e[j + 1] == tag(EventKind::Empty, "item"@, spec_table_item_attrs(t.items@[j])) by {
            assert(e[j + 1] == m[j]);
        }
    }
}

/// An item of a table carries its type and whether it delimits thousands, and its entity,
/// precision and column width when it has them.
pub proof fn lemma_table_item_written(i: TableItemText)
    ensures
        spec_table_item_attrs(i)[0] == ("type"@, spec_table_item_type_text(i.item_type)),
        spec_table_item_attrs(i).contains(("delimit_000s"@, spec_bool_text(i.delimit_000s))),
        i.entity_name matches Some(x) ==> spec_table_item_attrs(i).contains(("entity_name"@, x@)),
        i.precision matches Some(x) ==> spec_table_item_attrs(i).contains(("precision"@, x@)),
        i.column_width matches Some(x) ==> spec_table_item_attrs(i).contains(("column_width"@, x@)),
{
    let a0 = Seq::<(Seq<char>, Seq<char>)>::empty().push(("type"@, spec_table_item_type_text(i.item_type)));
    let a1 = push_opt_attr(a0, "entity_name"@, opt_text(i.entity_name));
    let a2 = push_opt_attr(a1, "precision"@, opt_text(i.precision));
    let a3 = a2.push(("delimit_000s"@, spec_bool_text(i.delimit_000s)));
    let a4 = push_opt_attr(a3, "column_width"@, opt_text(i.column_width));
    lemma_push_opt_attr_kept(a0, "entity_name"@, opt_text(i.entity_name));
    lemma_push_opt_attr_kept(a1, "precision"@, opt_text(i.precision));
    lemma_starts_with_push(a2, a2, ("delimit_000s"@, spec_bool_text(i.delimit_000s)));
    lemma_push_opt_attr_kept(a3, "column_width"@, opt_text(i.column_width));
    lemma_starts_with_trans(a4, a3, a2);
    lemma_starts_with_trans(a4, a2, a1);
    lemma_starts_with_trans(a4, a1, a0);
    assert(a0[0] == ("type"@, spec_table_item_type_text(i.item_type)));
    assert(a4.take(a0.len() as int)[0] == a4[0]);
    assert(a3[a2.len() as int] == ("delimit_000s"@, spec_bool_text(i.delimit_000s)));
    lemma_contains_kept(a3, a4, ("delimit_000s"@, spec_bool_text(i.delimit_000s)));
    if let Some(x) = i.entity_name {
        lemma_contains_kept(a1, a4, ("entity_name"@, x@));
    }
    if let Some(x) = i.precision {
        lemma_contains_kept(a2, a4, ("precision"@, x@));
    }
}

} // verus!
