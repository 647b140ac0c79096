//! Writing a view's `style` element: the style attributes shared by every display object,
//! then one element per kind of object that has its own style.
//!
//! Colors, border widths, paddings and font sizes are held as the text they are written as
//! (a font size without its `pt` unit).

use vstd::prelude::*;
use vstd::string::*;
use crate::errors::opt_text;
use crate::ser::{
    lemma_contains_kept, lemma_starts_with_append, lemma_starts_with_push, lemma_starts_with_trans, starts_with, tag, AttrList, EventKind,
    EventView, XmlEmitter,
};
use crate::serialize::opt_str;
use crate::text::spec_int_text;
use crate::view::{
    serialize_border_style, spec_border_style_text, BorderStyle, serialize_font_style, spec_font_style_text, FontStyle, serialize_font_weight, spec_font_weight_text, FontWeight, serialize_text_decoration, spec_text_decoration_text, TextDecoration, serialize_text_align, spec_text_align_text, TextAlign, serialize_vertical_text_align, spec_vertical_text_align_text, VerticalTextAlign,
};

verus! {

/// The style attributes of the view or of one kind of display object.
#[derive(Debug)]
pub struct StyleAttributes {
    pub color: Option<String>,
    pub background: Option<String>,
    pub z_index: Option<i32>,
    pub border_width: Option<String>,
    pub border_color: Option<String>,
    pub border_style: Option<BorderStyle>,
    pub font_family: Option<String>,
    pub font_style: Option<FontStyle>,
    pub font_weight: Option<FontWeight>,
    pub text_decoration: Option<TextDecoration>,
    pub text_align: Option<TextAlign>,
    pub vertical_text_align: Option<VerticalTextAlign>,
    pub font_color: Option<String>,
    pub text_background: Option<String>,
    pub font_size: Option<String>,
    pub padding: Option<String>,
}

/// A view's style: its own attributes, and the styles of the kinds of display objects that
/// have one.
#[derive(Debug)]
pub struct Style {
    pub attributes: StyleAttributes,
    pub stock: Option<StyleAttributes>,
    pub flow: Option<StyleAttributes>,
    pub aux: Option<StyleAttributes>,
    pub module: Option<StyleAttributes>,
    pub group: Option<StyleAttributes>,
    pub connector: Option<StyleAttributes>,
    pub alias: Option<StyleAttributes>,
    pub slider: Option<StyleAttributes>,
    pub knob: Option<StyleAttributes>,
    pub switch: Option<StyleAttributes>,
    pub options: Option<StyleAttributes>,
    pub numeric_input: Option<StyleAttributes>,
    pub list_input: Option<StyleAttributes>,
    pub graphical_input: Option<StyleAttributes>,
    pub numeric_display: Option<StyleAttributes>,
    pub lamp: Option<StyleAttributes>,
    pub gauge: Option<StyleAttributes>,
    pub graph: Option<StyleAttributes>,
    pub table: Option<StyleAttributes>,
    pub text_box: Option<StyleAttributes>,
    pub graphics_frame: Option<StyleAttributes>,
    pub button: Option<StyleAttributes>,
}

/// `attrs` with one more attribute when there is a value for it.
pub open spec fn push_opt_attr(attrs: Seq<(Seq<char>, Seq<char>)>, key: Seq<char>, value: Option<Seq<char>>) -> Seq<(Seq<char>, Seq<char>)> {
    match value {
        Some(v) => attrs.push((key, v)),
        None => attrs,
    }
}

/// The text of an optional [`BorderStyle`].
pub open spec fn opt_border_style_text(v: Option<BorderStyle>) -> Option<Seq<char>> {
    match v {
        Some(x) => Some(spec_border_style_text(x)),
        None => None,
    }
}

/// The text of an optional [`FontStyle`].
pub open spec fn opt_font_style_text(v: Option<FontStyle>) -> Option<Seq<char>> {
    match v {
        Some(x) => Some(spec_font_style_text(x)),
        None => None,
    }
}

/// The text of an optional [`FontWeight`].
pub open spec fn opt_font_weight_text(v: Option<FontWeight>) -> Option<Seq<char>> {
    match v {
        Some(x) => Some(spec_font_weight_text(x)),
        None => None,
    }
}

/// The text of an optional [`TextDecoration`].
pub open spec fn opt_text_decoration_text(v: Option<TextDecoration>) -> Option<Seq<char>> {
    match v {
        Some(x) => Some(spec_text_decoration_text(x)),
        None => None,
    }
}

/// The text of an optional [`TextAlign`].
pub open spec fn opt_text_align_text(v: Option<TextAlign>) -> Option<Seq<char>> {
    match v {
        Some(x) => Some(spec_text_align_text(x)),
        None => None,
    }
}

/// The text of an optional [`VerticalTextAlign`].
pub open spec fn opt_vertical_text_align_text(v: Option<VerticalTextAlign>) -> Option<Seq<char>> {
    match v {
        Some(x) => Some(spec_vertical_text_align_text(x)),
        None => None,
    }
}

/// The text of an optional z-index.
pub open spec fn opt_z_index_text(v: Option<i32>) -> Option<Seq<char>> {
    match v {
        Some(x) => Some(spec_int_text(x as int)),
        None => None,
    }
}

/// The text of an optional font size, with its unit.
pub open spec fn opt_font_size_text(v: Option<String>) -> Option<Seq<char>> {
    match v {
        Some(x) => Some(x@ + "pt"@),
        None => None,
    }
}

/// The style attributes in the order they are written, each only when present; a font size
/// is written with the unit `pt`.
pub open spec fn spec_style_attrs(s: StyleAttributes) -> Seq<(Seq<char>, Seq<char>)> {
    spec_style_attrs_tail(spec_style_attrs_head(Seq::empty(), s), s)
}

/// `attrs` followed by the style attributes from color to font style.
pub open spec fn spec_style_attrs_head(attrs: Seq<(Seq<char>, Seq<char>)>, s: StyleAttributes) -> Seq<(Seq<char>, Seq<char>)> {
    let a0 = push_opt_attr(attrs, "color"@, opt_text(s.color));
    let a1 = push_opt_attr(a0, "background"@, opt_text(s.background));
    let a2 = push_opt_attr(a1, "z_index"@, opt_z_index_text(s.z_index));
    let a3 = push_opt_attr(a2, "border_width"@, opt_text(s.border_width));
    let a4 = push_opt_attr(a3, "border_color"@, opt_text(s.border_color));
    let a5 = push_opt_attr(a4, "border_style"@, opt_border_style_text(s.border_style));
    let a6 = push_opt_attr(a5, "font_family"@, opt_text(s.font_family));
    let a7 = push_opt_attr(a6, "font_style"@, opt_font_style_text(s.font_style));
    a7
}

fn add_style_attrs_head(attrs: &mut AttrList, s: &StyleAttributes)
    ensures
        final(attrs)@ == spec_style_attrs_head(old(attrs)@, *s),
{
    attrs.add_opt("color", opt_str(&s.color));
    attrs.add_opt("background", opt_str(&s.background));
    attrs.add_opt_i32("z_index", s.z_index);
    attrs.add_opt("border_width", opt_str(&s.border_width));
    attrs.add_opt("border_color", opt_str(&s.border_color));
    match &s.border_style {
        Some(v) => {
            attrs.add("border_style", serialize_border_style(v));
        },
        None => {},
    }
    attrs.add_opt("font_family", opt_str(&s.font_family));
    match &s.font_style {
        Some(v) => {
            attrs.add("font_style", serialize_font_style(v));
        },
        None => {},
    }
}

/// `attrs` followed by the style attributes from font weight to padding.
pub open spec fn spec_style_attrs_tail(attrs: Seq<(Seq<char>, Seq<char>)>, s: StyleAttributes) -> Seq<(Seq<char>, Seq<char>)> {
    let a0 = push_opt_attr(attrs, "font_weight"@, opt_font_weight_text(s.font_weight));
    let a1 = push_opt_attr(a0, "text_decoration"@, opt_text_decoration_text(s.text_decoration));
    let a2 = push_opt_attr(a1, "text_align"@, opt_text_align_text(s.text_align));
    let a3 = push_opt_attr(a2, "vertical_text_align"@, opt_vertical_text_align_text(s.vertical_text_align));
    let a4 = push_opt_attr(a3, "font_color"@, opt_text(s.font_color));
    let a5 = push_opt_attr(a4, "text_background"@, opt_text(s.text_background));
    let a6 = push_opt_attr(a5, "font_size"@, opt_font_size_text(s.font_size));
    let a7 = push_opt_attr(a6, "padding"@, opt_text(s.padding));
    a7
}

fn add_style_attrs_tail(attrs: &mut AttrList, s: &StyleAttributes)
    ensures
        final(attrs)@ == spec_style_attrs_tail(old(attrs)@, *s),
{
    match &s.font_weight {
        Some(v) => {
            attrs.add("font_weight", serialize_font_weight(v));
        },
        None => {},
    }
    match &s.text_decoration {
        Some(v) => {
            attrs.add("text_decoration", serialize_text_decoration(v));
        },
        None => {},
    }
    match &s.text_align {
        Some(v) => {
            attrs.add("text_align", serialize_text_align(v));
        },
        None => {},
    }
    match &s.vertical_text_align {
        Some(v) => {
            attrs.add("vertical_text_align", serialize_vertical_text_align(v));
        },
        None => {},
    }
    attrs.add_opt("font_color", opt_str(&s.font_color));
    attrs.add_opt("text_background", opt_str(&s.text_background));
    match &s.font_size {
        Some(v) => {
            let mut text = String::from_str(v.as_str());
            text.append("pt");
            attrs.add("font_size", text.as_str());
        },
        None => {},
    }
    attrs.add_opt("padding", opt_str(&s.padding));
}

/// Builds the attribute list of a style.
pub fn style_attributes(s: &StyleAttributes) -> (r: AttrList)
    ensures
        r@ == spec_style_attrs(*s),
{
    let mut attrs = AttrList::new();
    add_style_attrs_head(&mut attrs, s);
    add_style_attrs_tail(&mut attrs, s);
    attrs
}

/// `events` followed by the empty element of one kind of object's style, when it has one.
pub open spec fn push_object_style(events: Seq<EventView>, name: Seq<char>, s: Option<StyleAttributes>) -> Seq<EventView> {
    match s {
        Some(a) => events.push(tag(EventKind::Empty, name, spec_style_attrs(a))),
        None => events,
    }
}

/// Some kind of display object has its own style.
pub open spec fn spec_has_object_styles(s: Style) -> bool {
    s.stock is Some
        || s.flow is Some
        || s.aux is Some
        || s.module is Some
        || s.group is Some
        || s.connector is Some
        || s.alias is Some
        || s.slider is Some
        || s.knob is Some
        || s.switch is Some
        || s.options is Some
        || s.numeric_input is Some
        || s.list_input is Some
        || s.graphical_input is Some
        || s.numeric_display is Some
        || s.lamp is Some
        || s.gauge is Some
        || s.graph is Some
        || s.table is Some
        || s.text_box is Some
        || s.graphics_frame is Some
        || s.button is Some
}

/// `events` followed by the elements of the object styles, in a fixed order of kinds.
pub open spec fn spec_after_object_styles(events: Seq<EventView>, s: Style) -> Seq<EventView> {
    let e0 = push_object_style(events, "stock"@, s.stock);
    let e1 = push_object_style(e0, "flow"@, s.flow);
    let e2 = push_object_style(e1, "aux"@, s.aux);
    let e3 = push_object_style(e2, "module"@, s.module);
    let e4 = push_object_style(e3, "group"@, s.group);
    let e5 = push_object_style(e4, "connector"@, s.connector);
    let e6 = push_object_style(e5, "alias"@, s.alias);
    let e7 = push_object_style(e6, "slider"@, s.slider);
    let e8 = push_object_style(e7, "knob"@, s.knob);
    let e9 = push_object_style(e8, "switch"@, s.switch);
    let e10 = push_object_style(e9, "options"@, s.options);
    let e11 = push_object_style(e10, "numeric_input"@, s.numeric_input);
    let e12 = push_object_style(e11, "list_input"@, s.list_input);
    let e13 = push_object_style(e12, "graphical_input"@, s.graphical_input);
    let e14 = push_object_style(e13, "numeric_display"@, s.numeric_display);
    let e15 = push_object_style(e14, "lamp"@, s.lamp);
    let e16 = push_object_style(e15, "gauge"@, s.gauge);
    let e17 = push_object_style(e16, "graph"@, s.graph);
    let e18 = push_object_style(e17, "table"@, s.table);
    let e19 = push_object_style(e18, "text_box"@, s.text_box);
    let e20 = push_object_style(e19, "graphics_frame"@, s.graphics_frame);
    let e21 = push_object_style(e20, "button"@, s.button);
    e21
}

/// `events` followed by the events of a style: an empty `style` element with the shared
/// attributes when no kind of object has its own style, and otherwise a `style` element
/// holding one empty element per styled kind.
pub open spec fn spec_after_style(events: Seq<EventView>, s: Style) -> Seq<EventView> {
    if !spec_has_object_styles(s) {
        events.push(tag(EventKind::Empty, "style"@, spec_style_attrs(s.attributes)))
    } else {
        spec_after_object_styles(events.push(tag(EventKind::Start, "style"@, spec_style_attrs(s.attributes))), s).push(
            tag(EventKind::End, "style"@, Seq::empty()),
        )
    }
}

/// The events of a style on their own.
pub open spec fn spec_style_events(s: Style) -> Seq<EventView> {
    spec_after_style(Seq::empty(), s)
}

proof fn lemma_push_object_style_prefix(p: Seq<EventView>, q: Seq<EventView>, name: Seq<char>, x: Option<StyleAttributes>)
    ensures
        push_object_style(p + q, name, x) == p + push_object_style(q, name, x),
{
    match x {
        Some(a) => {
            assert((p + q).push(tag(EventKind::Empty, name, spec_style_attrs(a))) =~= p + q.push(tag(EventKind::Empty, name, spec_style_attrs(a))));
        },
        None => {},
    }
}

proof fn lemma_after_object_styles_prefix(p: Seq<EventView>, q: Seq<EventView>, s: Style)
    ensures
        spec_after_object_styles(p + q, s) == p + spec_after_object_styles(q, s),
{
    lemma_push_object_style_prefix(p, q, "stock"@, s.stock);
    let q0 = push_object_style(q, "stock"@, s.stock);
    lemma_push_object_style_prefix(p, q0, "flow"@, s.flow);
    let q1 = push_object_style(q0, "flow"@, s.flow);
    lemma_push_object_style_prefix(p, q1, "aux"@, s.aux);
    let q2 = push_object_style(q1, "aux"@, s.aux);
    lemma_push_object_style_prefix(p, q2, "module"@, s.module);
    let q3 = push_object_style(q2, "module"@, s.module);
    lemma_push_object_style_prefix(p, q3, "group"@, s.group);
    let q4 = push_object_style(q3, "group"@, s.group);
    lemma_push_object_style_prefix(p, q4, "connector"@, s.connector);
    let q5 = push_object_style(q4, "connector"@, s.connector);
    lemma_push_object_style_prefix(p, q5, "alias"@, s.alias);
    let q6 = push_object_style(q5, "alias"@, s.alias);
    lemma_push_object_style_prefix(p, q6, "slider"@, s.slider);
    let q7 = push_object_style(q6, "slider"@, s.slider);
    lemma_push_object_style_prefix(p, q7, "knob"@, s.knob);
    let q8 = push_object_style(q7, "knob"@, s.knob);
    lemma_push_object_style_prefix(p, q8, "switch"@, s.switch);
    let q9 = push_object_style(q8, "switch"@, s.switch);
    lemma_push_object_style_prefix(p, q9, "options"@, s.options);
    let q10 = push_object_style(q9, "options"@, s.options);
    lemma_push_object_style_prefix(p, q10, "numeric_input"@, s.numeric_input);
    let q11 = push_object_style(q10, "numeric_input"@, s.numeric_input);
    lemma_push_object_style_prefix(p, q11, "list_input"@, s.list_input);
    let q12 = push_object_style(q11, "list_input"@, s.list_input);
    lemma_push_object_style_prefix(p, q12, "graphical_input"@, s.graphical_input);
    let q13 = push_object_style(q12, "graphical_input"@, s.graphical_input);
    lemma_push_object_style_prefix(p, q13, "numeric_display"@, s.numeric_display);
    let q14 = push_object_style(q13, "numeric_display"@, s.numeric_display);
    lemma_push_object_style_prefix(p, q14, "lamp"@, s.lamp);
    let q15 = push_object_style(q14, "lamp"@, s.lamp);
    lemma_push_object_style_prefix(p, q15, "gauge"@, s.gauge);
    let q16 = push_object_style(q15, "gauge"@, s.gauge);
    lemma_push_object_style_prefix(p, q16, "graph"@, s.graph);
    let q17 = push_object_style(q16, "graph"@, s.graph);
    lemma_push_object_style_prefix(p, q17, "table"@, s.table);
    let q18 = push_object_style(q17, "table"@, s.table);
    lemma_push_object_style_prefix(p, q18, "text_box"@, s.text_box);
    let q19 = push_object_style(q18, "text_box"@, s.text_box);
    lemma_push_object_style_prefix(p, q19, "graphics_frame"@, s.graphics_frame);
    let q20 = push_object_style(q19, "graphics_frame"@, s.graphics_frame);
    lemma_push_object_style_prefix(p, q20, "button"@, s.button);
    let q21 = push_object_style(q20, "button"@, s.button);
}

/// Writing a style after some events leaves them in place and adds the style's own events
/// after them.
pub proof fn lemma_style_events_appended(p: Seq<EventView>, s: Style)
    ensures
        spec_after_style(p, s) == p + spec_style_events(s),
{
    let a = spec_style_attrs(s.attributes);
    if !spec_has_object_styles(s) {
        assert(p.push(tag(EventKind::Empty, "style"@, a)) =~= p + Seq::<EventView>::empty().push(tag(EventKind::Empty, "style"@, a)));
    } else {
        let start = tag(EventKind::Start, "style"@, a);
        let end = tag(EventKind::End, "style"@, Seq::<(Seq<char>, Seq<char>)>::empty());
        let q = Seq::<EventView>::empty().push(start);
        assert(p.push(start) =~= p + q);
        lemma_after_object_styles_prefix(p, q, s);
        let x = spec_after_object_styles(q, s);
        assert((p + x).push(end) =~= p + x.push(end));
    }
}

/// Writes the style of one kind of object, when it has one.
fn write_object_style(emitter: &mut XmlEmitter, name: &str, s: &Option<StyleAttributes>)
    ensures
        final(emitter)@ == push_object_style(old(emitter)@, name@, *s),
{
    match s {
        Some(a) => {
            let attrs = style_attributes(a);
            emitter.empty_elem_with_attrs(name, &attrs);
        },
        None => {},
    }
}

fn write_object_styles(emitter: &mut XmlEmitter, style: &Style)
    ensures
        final(emitter)@ == spec_after_object_styles(old(emitter)@, *style),
{
    write_object_style(emitter, "stock", &style.stock);
    write_object_style(emitter, "flow", &style.flow);
    write_object_style(emitter, "aux", &style.aux);
    write_object_style(emitter, "module", &style.module);
    write_object_style(emitter, "group", &style.group);
    write_object_style(emitter, "connector", &style.connector);
    write_object_style(emitter, "alias", &style.alias);
    write_object_style(emitter, "slider", &style.slider);
    write_object_style(emitter, "knob", &style.knob);
    write_object_style(emitter, "switch", &style.switch);
    write_object_style(emitter, "options", &style.options);
    write_object_style(emitter, "numeric_input", &style.numeric_input);
    write_object_style(emitter, "list_input", &style.list_input);
    write_object_style(emitter, "graphical_input", &style.graphical_input);
    write_object_style(emitter, "numeric_display", &style.numeric_display);
    write_object_style(emitter, "lamp", &style.lamp);
    write_object_style(emitter, "gauge", &style.gauge);
    write_object_style(emitter, "graph", &style.graph);
    write_object_style(emitter, "table", &style.table);
    write_object_style(emitter, "text_box", &style.text_box);
    write_object_style(emitter, "graphics_frame", &style.graphics_frame);
    write_object_style(emitter, "button", &style.button);
}

/// Writes a view's style.
pub fn serialize_style(emitter: &mut XmlEmitter, style: &Style)
    ensures
        final(emitter)@ == spec_after_style(old(emitter)@, *style),
        final(emitter)@ == old(emitter)@ + spec_style_events(*style),
{
    proof {
        lemma_style_events_appended(old(emitter)@, *style);
    }
    let attrs = style_attributes(&style.attributes);
    let has_object_styles = style.stock.is_some()
        || style.flow.is_some()
        || style.aux.is_some()
        || style.module.is_some()
        || style.group.is_some()
        || style.connector.is_some()
        || style.alias.is_some()
        || style.slider.is_some()
        || style.knob.is_some()
        || style.switch.is_some()
        || style.options.is_some()
        || style.numeric_input.is_some()
        || style.list_input.is_some()
        || style.graphical_input.is_some()
        || style.numeric_display.is_some()
        || style.lamp.is_some()
        || style.gauge.is_some()
        || style.graph.is_some()
        || style.table.is_some()
        || style.text_box.is_some()
        || style.graphics_frame.is_some()
        || style.button.is_some();
    if !has_object_styles {
        emitter.empty_elem_with_attrs("style", &attrs);
        return;
    }
    let start = emitter.start_elem("style", &attrs);
    emitter.write_start(&start);
    write_object_styles(emitter, style);
    emitter.write_end("style");
}


/// Pushing an optional attribute keeps the attributes before it, and adds the attribute
/// when there is a value for it.
pub proof fn lemma_push_opt_attr_kept(attrs: Seq<(Seq<char>, Seq<char>)>, key: Seq<char>, value: Option<Seq<char>>)
    ensures
        starts_with(push_opt_attr(attrs, key, value), attrs),
        value matches Some(v) ==> push_opt_attr(attrs, key, value).contains((key, v)),
{
    lemma_starts_with_append(attrs, attrs, Seq::empty());
    assert(attrs + Seq::<(Seq<char>, Seq<char>)>::empty() =~= attrs);
    if let Some(v) = value {
        lemma_starts_with_push(attrs, attrs, (key, v));
        assert(attrs.push((key, v))[attrs.len() as int] == (key, v));
    }
}


proof fn lemma_style_head_written(p: Seq<(Seq<char>, Seq<char>)>, s: StyleAttributes)
    ensures
        starts_with(spec_style_attrs_head(p, s), p),
        s.color matches Some(c) ==> spec_style_attrs_head(p, s).contains(("color"@, c@)),
        s.background matches Some(c) ==> spec_style_attrs_head(p, s).contains(("background"@, c@)),
        s.z_index matches Some(z) ==> spec_style_attrs_head(p, s).contains(("z_index"@, spec_int_text(z as int))),
        s.border_width matches Some(c) ==> spec_style_attrs_head(p, s).contains(("border_width"@, c@)),
        s.border_color matches Some(c) ==> spec_style_attrs_head(p, s).contains(("border_color"@, c@)),
        s.border_style matches Some(w) ==> spec_style_attrs_head(p, s).contains(("border_style"@, spec_border_style_text(w))),
        s.font_family matches Some(c) ==> spec_style_attrs_head(p, s).contains(("font_family"@, c@)),
        s.font_style matches Some(w) ==> spec_style_attrs_head(p, s).contains(("font_style"@, spec_font_style_text(w))),
{
    let q0 = push_opt_attr(p, "color"@, opt_text(s.color));
    lemma_push_opt_attr_kept(p, "color"@, opt_text(s.color));
    let q1 = push_opt_attr(q0, "background"@, opt_text(s.background));
    lemma_push_opt_attr_kept(q0, "background"@, opt_text(s.background));
    let q2 = push_opt_attr(q1, "z_index"@, opt_z_index_text(s.z_index));
    lemma_push_opt_attr_kept(q1, "z_index"@, opt_z_index_text(s.z_index));
    let q3 = push_opt_attr(q2, "border_width"@, opt_text(s.border_width));
    lemma_push_opt_attr_kept(q2, "border_width"@, opt_text(s.border_width));
    let q4 = push_opt_attr(q3, "border_color"@, opt_text(s.border_color));
    lemma_push_opt_attr_kept(q3, "border_color"@, opt_text(s.border_color));
    let q5 = push_opt_attr(q4, "border_style"@, opt_border_style_text(s.border_style));
    lemma_push_opt_attr_kept(q4, "border_style"@, opt_border_style_text(s.border_style));
    let q6 = push_opt_attr(q5, "font_family"@, opt_text(s.font_family));
    lemma_push_opt_attr_kept(q5, "font_family"@, opt_text(s.font_family));
    let q7 = push_opt_attr(q6, "font_style"@, opt_font_style_text(s.font_style));
    lemma_push_opt_attr_kept(q6, "font_style"@, opt_font_style_text(s.font_style));
    let r = q7;
    assert(r == spec_style_attrs_head(p, s));
    lemma_starts_with_append(r, r, Seq::empty());
    lemma_starts_with_trans(r, q7, q6);
    lemma_starts_with_trans(r, q6, q5);
    lemma_starts_with_trans(r, q5, q4);
    lemma_starts_with_trans(r, q4, q3);
    lemma_starts_with_trans(r, q3, q2);
    lemma_starts_with_trans(r, q2, q1);
    lemma_starts_with_trans(r, q1, q0);
    lemma_starts_with_trans(r, q0, p);
    if let Some(c) = s.color {
        lemma_contains_kept(q0, r, ("color"@, c@));
    }
    if let Some(c) = s.background {
        lemma_contains_kept(q1, r, ("background"@, c@));
    }
    if let Some(z) = s.z_index {
        lemma_contains_kept(q2, r, ("z_index"@, spec_int_text(z as int)));
    }
    if let Some(c) = s.border_width {
        lemma_contains_kept(q3, r, ("border_width"@, c@));
    }
    if let Some(c) = s.border_color {
        lemma_contains_kept(q4, r, ("border_color"@, c@));
    }
    if let Some(w) = s.border_style {
        lemma_contains_kept(q5, r, ("border_style"@, spec_border_style_text(w)));
    }
    if let Some(c) = s.font_family {
        lemma_contains_kept(q6, r, ("font_family"@, c@));
    }
    if let Some(w) = s.font_style {
        lemma_contains_kept(q7, r, ("font_style"@, spec_font_style_text(w)));
    }
}

proof fn lemma_style_tail_written(p: Seq<(Seq<char>, Seq<char>)>, s: StyleAttributes)
    ensures
        starts_with(spec_style_attrs_tail(p, s), p),
        s.font_weight matches Some(w) ==> spec_style_attrs_tail(p, s).contains(("font_weight"@, spec_font_weight_text(w))),
        s.text_decoration matches Some(w) ==> spec_style_attrs_tail(p, s).contains(("text_decoration"@, spec_text_decoration_text(w))),
        s.text_align matches Some(w) ==> spec_style_attrs_tail(p, s).contains(("text_align"@, spec_text_align_text(w))),
        s.vertical_text_align matches Some(w) ==> spec_style_attrs_tail(p, s).contains(("vertical_text_align"@, spec_vertical_text_align_text(w))),
        s.font_color matches Some(c) ==> spec_style_attrs_tail(p, s).contains(("font_color"@, c@)),
        s.text_background matches Some(c) ==> spec_style_attrs_tail(p, s).contains(("text_background"@, c@)),
        s.font_size matches Some(x) ==> spec_style_attrs_tail(p, s).contains(("font_size"@, x@ + "pt"@)),
        s.padding matches Some(c) ==> spec_style_attrs_tail(p, s).contains(("padding"@, c@)),
{
    let q0 = push_opt_attr(p, "font_weight"@, opt_font_weight_text(s.font_weight));
    lemma_push_opt_attr_kept(p, "font_weight"@, opt_font_weight_text(s.font_weight));
    let q1 = push_opt_attr(q0, "text_decoration"@, opt_text_decoration_text(s.text_decoration));
    lemma_push_opt_attr_kept(q0, "text_decoration"@, opt_text_decoration_text(s.text_decoration));
    let q2 = push_opt_attr(q1, "text_align"@, opt_text_align_text(s.text_align));
    lemma_push_opt_attr_kept(q1, "text_align"@, opt_text_align_text(s.text_align));
    let q3 = push_opt_attr(q2, "vertical_text_align"@, opt_vertical_text_align_text(s.vertical_text_align));
    lemma_push_opt_attr_kept(q2, "vertical_text_align"@, opt_vertical_text_align_text(s.vertical_text_align));
    let q4 = push_opt_attr(q3, "font_color"@, opt_text(s.font_color));
    lemma_push_opt_attr_kept(q3, "font_color"@, opt_text(s.font_color));
    let q5 = push_opt_attr(q4, "text_background"@, opt_text(s.text_background));
    lemma_push_opt_attr_kept(q4, "text_background"@, opt_text(s.text_background));
    let q6 = push_opt_attr(q5, "font_size"@, opt_font_size_text(s.font_size));
    lemma_push_opt_attr_kept(q5, "font_size"@, opt_font_size_text(s.font_size));
    let q7 = push_opt_attr(q6, "padding"@, opt_text(s.padding));
    lemma_push_opt_attr_kept(q6, "padding"@, opt_text(s.padding));
    let r = q7;
    assert(r == spec_style_attrs_tail(p, s));
    lemma_starts_with_append(r, r, Seq::empty());
    lemma_starts_with_trans(r, q7, q6);
    lemma_starts_with_trans(r, q6, q5);
    lemma_starts_with_trans(r, q5, q4);
    lemma_starts_with_trans(r, q4, q3);
    lemma_starts_with_trans(r, q3, q2);
    lemma_starts_with_trans(r, q2, q1);
    lemma_starts_with_trans(r, q1, q0);
    lemma_starts_with_trans(r, q0, p);
    if let Some(w) = s.font_weight {
        lemma_contains_kept(q0, r, ("font_weight"@, spec_font_weight_text(w)));
    }
    if let Some(w) = s.text_decoration {
        lemma_contains_kept(q1, r, ("text_decoration"@, spec_text_decoration_text(w)));
    }
    if let Some(w) = s.text_align {
        lemma_contains_kept(q2, r, ("text_align"@, spec_text_align_text(w)));
    }
    if let Some(w) = s.vertical_text_align {
        lemma_contains_kept(q3, r, ("vertical_text_align"@, spec_vertical_text_align_text(w)));
    }
    if let Some(c) = s.font_color {
        lemma_contains_kept(q4, r, ("font_color"@, c@));
    }
    if let Some(c) = s.text_background {
        lemma_contains_kept(q5, r, ("text_background"@, c@));
    }
    if let Some(x) = s.font_size {
        lemma_contains_kept(q6, r, ("font_size"@, x@ + "pt"@));
    }
    if let Some(c) = s.padding {
        lemma_contains_kept(q7, r, ("padding"@, c@));
    }
}

/// `a` includes each style attribute `s` gives, with its text (a font size with the unit
/// `pt`).
pub open spec fn has_style_attrs(a: Seq<(Seq<char>, Seq<char>)>, s: StyleAttributes) -> bool {
    &&& (s.color matches Some(c) ==> a.contains(("color"@, c@)))
    &&& (s.background matches Some(c) ==> a.contains(("background"@, c@)))
    &&& (s.z_index matches Some(z) ==> a.contains(("z_index"@, spec_int_text(z as int))))
    &&& (s.border_width matches Some(c) ==> a.contains(("border_width"@, c@)))
    &&& (s.border_color matches Some(c) ==> a.contains(("border_color"@, c@)))
    &&& (s.border_style matches Some(w) ==> a.contains(("border_style"@, spec_border_style_text(w))))
    &&& (s.font_family matches Some(c) ==> a.contains(("font_family"@, c@)))
    &&& (s.font_style matches Some(w) ==> a.contains(("font_style"@, spec_font_style_text(w))))
    &&& (s.font_weight matches Some(w) ==> a.contains(("font_weight"@, spec_font_weight_text(w))))
    &&& (s.text_decoration matches Some(w) ==> a.contains(("text_decoration"@, spec_text_decoration_text(w))))
    &&& (s.text_align matches Some(w) ==> a.contains(("text_align"@, spec_text_align_text(w))))
    &&& (s.vertical_text_align matches Some(w) ==> a.contains(("vertical_text_align"@, spec_vertical_text_align_text(w))))
    &&& (s.font_color matches Some(c) ==> a.contains(("font_color"@, c@)))
    &&& (s.text_background matches Some(c) ==> a.contains(("text_background"@, c@)))
    &&& (s.font_size matches Some(x) ==> a.contains(("font_size"@, x@ + "pt"@)))
    &&& (s.padding matches Some(c) ==> a.contains(("padding"@, c@)))
}

/// The attributes of a style include each style attribute it gives, with its text.
pub proof fn lemma_style_attrs_written(s: StyleAttributes)
    ensures
        has_style_attrs(spec_style_attrs(s), s),
{
    let e = Seq::<(Seq<char>, Seq<char>)>::empty();
    let h = spec_style_attrs_head(e, s);
    let r = spec_style_attrs_tail(h, s);
    lemma_style_head_written(e, s);
    lemma_style_tail_written(h, s);
    if let Some(c) = s.color {
        lemma_contains_kept(h, r, ("color"@, c@));
    }
    if let Some(c) = s.background {
        lemma_contains_kept(h, r, ("background"@, c@));
    }
    if let Some(z) = s.z_index {
        lemma_contains_kept(h, r, ("z_index"@, spec_int_text(z as int)));
    }
    if let Some(c) = s.border_width {
        lemma_contains_kept(h, r, ("border_width"@, c@));
    }
    if let Some(c) = s.border_color {
        lemma_contains_kept(h, r, ("border_color"@, c@));
    }
    if let Some(w) = s.border_style {
        lemma_contains_kept(h, r, ("border_style"@, spec_border_style_text(w)));
    }
    if let Some(c) = s.font_family {
        lemma_contains_kept(h, r, ("font_family"@, c@));
    }
    if let Some(w) = s.font_style {
        lemma_contains_kept(h, r, ("font_style"@, spec_font_style_text(w)));
    }
}

proof fn lemma_push_object_style_kept(e: Seq<EventView>, name: Seq<char>, x: Option<StyleAttributes>)
    ensures
        starts_with(push_object_style(e, name, x), e),
        x matches Some(a) ==> push_object_style(e, name, x).contains(tag(EventKind::Empty, name, spec_style_attrs(a))),
{
    lemma_starts_with_append(e, e, Seq::empty());
    assert(e + Seq::<EventView>::empty() =~= e);
    if let Some(a) = x {
        lemma_starts_with_push(e, e, tag(EventKind::Empty, name, spec_style_attrs(a)));
        assert(e.push(tag(EventKind::Empty, name, spec_style_attrs(a)))[e.len() as int] == tag(EventKind::Empty, name, spec_style_attrs(a)));
    }
}

/// A view's style is written after what came before as one `style` element with its shared
/// attributes: empty when no kind of object has its own style, and otherwise holding an
/// empty element, named for the kind, with each kind's own style.
pub proof fn lemma_style_written(events: Seq<EventView>, st: Style)
    ensures
        ({
            let r = spec_after_style(events, st);
            let n = events.len() as int;
            &&& starts_with(r, events)
            &&& !spec_has_object_styles(st) ==> r == events.push(tag(EventKind::Empty, "style"@, spec_style_attrs(st.attributes)))
            &&& spec_has_object_styles(st) ==> r[n] == tag(EventKind::Start, "style"@, spec_style_attrs(st.attributes)) && r.last() == tag(
                EventKind::End,
                "style"@,
                Seq::empty(),
            )
            &&& st.stock matches Some(a) ==> r.contains(tag(EventKind::Empty, "stock"@, spec_style_attrs(a)))
            &&& st.flow matches Some(a) ==> r.contains(tag(EventKind::Empty, "flow"@, spec_style_attrs(a)))
            &&& st.aux matches Some(a) ==> r.contains(tag(EventKind::Empty, "aux"@, spec_style_attrs(a)))
            &&& st.module matches Some(a) ==> r.contains(tag(EventKind::Empty, "module"@, spec_style_attrs(a)))
            &&& st.group matches Some(a) ==> r.contains(tag(EventKind::Empty, "group"@, spec_style_attrs(a)))
            &&& st.connector matches Some(a) ==> r.contains(tag(EventKind::Empty, "connector"@, spec_style_attrs(a)))
            &&& st.alias matches Some(a) ==> r.contains(tag(EventKind::Empty, "alias"@, spec_style_attrs(a)))
            &&& st.slider matches Some(a) ==> r.contains(tag(EventKind::Empty, "slider"@, spec_style_attrs(a)))
            &&& st.knob matches Some(a) ==> r.contains(tag(EventKind::Empty, "knob"@, spec_style_attrs(a)))
            &&& st.switch matches Some(a) ==> r.contains(tag(EventKind::Empty, "switch"@, spec_style_attrs(a)))
            &&& st.options matches Some(a) ==> r.contains(tag(EventKind::Empty, "options"@, spec_style_attrs(a)))
            &&& st.numeric_input matches Some(a) ==> r.contains(tag(EventKind::Empty, "numeric_input"@, spec_style_attrs(a)))
            &&& st.list_input matches Some(a) ==> r.contains(tag(EventKind::Empty, "list_input"@, spec_style_attrs(a)))
            &&& st.graphical_input matches Some(a) ==> r.contains(tag(EventKind::Empty, "graphical_input"@, spec_style_attrs(a)))
            &&& st.numeric_display matches Some(a) ==> r.contains(tag(EventKind::Empty, "numeric_display"@, spec_style_attrs(a)))
            &&& st.lamp matches Some(a) ==> r.contains(tag(EventKind::Empty, "lamp"@, spec_style_attrs(a)))
            &&& st.gauge matches Some(a) ==> r.contains(tag(EventKind::Empty, "gauge"@, spec_style_attrs(a)))
            &&& st.graph matches Some(a) ==> r.contains(tag(EventKind::Empty, "graph"@, spec_style_attrs(a)))
            &&& st.table matches Some(a) ==> r.contains(tag(EventKind::Empty, "table"@, spec_style_attrs(a)))
            &&& st.text_box matches Some(a) ==> r.contains(tag(EventKind::Empty, "text_box"@, spec_style_attrs(a)))
            &&& st.graphics_frame matches Some(a) ==> r.contains(tag(EventKind::Empty, "graphics_frame"@, spec_style_attrs(a)))
            &&& st.button matches Some(a) ==> r.contains(tag(EventKind::Empty, "button"@, spec_style_attrs(a)))
        }),
{
    let n = events.len() as int;
    let start = tag(EventKind::Start, "style"@, spec_style_attrs(st.attributes));
    if !spec_has_object_styles(st) {
        lemma_starts_with_push(events, events, tag(EventKind::Empty, "style"@, spec_style_attrs(st.attributes)));
    } else {
        let e = events.push(start);
        lemma_starts_with_push(events, events, start);
        let o0 = push_object_style(e, "stock"@, st.stock);
        lemma_push_object_style_kept(e, "stock"@, st.stock);
        let o1 = push_object_style(o0, "flow"@, st.flow);
        lemma_push_object_style_kept(o0, "flow"@, st.flow);
        let o2 = push_object_style(o1, "aux"@, st.aux);
        lemma_push_object_style_kept(o1, "aux"@, st.aux);
        let o3 = push_object_style(o2, "module"@, st.module);
        lemma_push_object_style_kept(o2, "module"@, st.module);
        let o4 = push_object_style(o3, "group"@, st.group);
        lemma_push_object_style_kept(o3, "group"@, st.group);
        let o5 = push_object_style(o4, "connector"@, st.connector);
        lemma_push_object_style_kept(o4, "connector"@, st.connector);
        let o6 = push_object_style(o5, "alias"@, st.alias);
        lemma_push_object_style_kept(o5, "alias"@, st.alias);
        let o7 = push_object_style(o6, "slider"@, st.slider);
        lemma_push_object_style_kept(o6, "slider"@, st.slider);
        let o8 = push_object_style(o7, "knob"@, st.knob);
        lemma_push_object_style_kept(o7, "knob"@, st.knob);
        let o9 = push_object_style(o8, "switch"@, st.switch);
        lemma_push_object_style_kept(o8, "switch"@, st.switch);
        let o10 = push_object_style(o9, "options"@, st.options);
        lemma_push_object_style_kept(o9, "options"@, st.options);
        let o11 = push_object_style(o10, "numeric_input"@, st.numeric_input);
        lemma_push_object_style_kept(o10, "numeric_input"@, st.numeric_input);
        let o12 = push_object_style(o11, "list_input"@, st.list_input);
        lemma_push_object_style_kept(o11, "list_input"@, st.list_input);
        let o13 = push_object_style(o12, "graphical_input"@, st.graphical_input);
        lemma_push_object_style_kept(o12, "graphical_input"@, st.graphical_input);
        let o14 = push_object_style(o13, "numeric_display"@, st.numeric_display);
        lemma_push_object_style_kept(o13, "numeric_display"@, st.numeric_display);
        let o15 = push_object_style(o14, "lamp"@, st.lamp);
        lemma_push_object_style_kept(o14, "lamp"@, st.lamp);
        let o16 = push_object_style(o15, "gauge"@, st.gauge);
        lemma_push_object_style_kept(o15, "gauge"@, st.gauge);
        let o17 = push_object_style(o16, "graph"@, st.graph);
        lemma_push_object_style_kept(o16, "graph"@, st.graph);
        let o18 = push_object_style(o17, "table"@, st.table);
        lemma_push_object_style_kept(o17, "table"@, st.table);
        let o19 = push_object_style(o18, "text_box"@, st.text_box);
        lemma_push_object_style_kept(o18, "text_box"@, st.text_box);
        let o20 = push_object_style(o19, "graphics_frame"@, st.graphics_frame);
        lemma_push_object_style_kept(o19, "graphics_frame"@, st.graphics_frame);
        let o21 = push_object_style(o20, "button"@, st.button);
        lemma_push_object_style_kept(o20, "button"@, st.button);
        let r = o21.push(tag(EventKind::End, "style"@, Seq::empty()));
        assert(r == spec_after_style(events, st));
        lemma_starts_with_push(o21, o21, tag(EventKind::End, "style"@, Seq::empty()));
        lemma_starts_with_trans(r, o21, o20);
        lemma_starts_with_trans(r, o20, o19);
        lemma_starts_with_trans(r, o19, o18);
        lemma_starts_with_trans(r, o18, o17);
        lemma_starts_with_trans(r, o17, o16);
        lemma_starts_with_trans(r, o16, o15);
        lemma_starts_with_trans(r, o15, o14);
        lemma_starts_with_trans(r, o14, o13);
        lemma_starts_with_trans(r, o13, o12);
        lemma_starts_with_trans(r, o12, o11);
        lemma_starts_with_trans(r, o11, o10);
        lemma_starts_with_trans(r, o10, o9);
        lemma_starts_with_trans(r, o9, o8);
        lemma_starts_with_trans(r, o8, o7);
        lemma_starts_with_trans(r, o7, o6);
        lemma_starts_with_trans(r, o6, o5);
        lemma_starts_with_trans(r, o5, o4);
        lemma_starts_with_trans(r, o4, o3);
        lemma_starts_with_trans(r, o3, o2);
        lemma_starts_with_trans(r, o2, o1);
        lemma_starts_with_trans(r, o1, o0);
        lemma_starts_with_trans(r, o0, e);
        lemma_starts_with_trans(r, e, events);
        assert(r[n] == e[n]) by {
            assert(r.take(e.len() as int)[n] == r[n]);
        }
        if let Some(a) = st.stock {
            lemma_contains_kept(o0, r, tag(EventKind::Empty, "stock"@, spec_style_attrs(a)));
        }
        if let Some(a) = st.flow {
            lemma_contains_kept(o1, r, tag(EventKind::Empty, "flow"@, spec_style_attrs(a)));
        }
        if let Some(a) = st.aux {
            lemma_contains_kept(o2, r, tag(EventKind::Empty, "aux"@, spec_style_attrs(a)));
        }
        if let Some(a) = st.module {
            lemma_contains_kept(o3, r, tag(EventKind::Empty, "module"@, spec_style_attrs(a)));
        }
        if let Some(a) = st.group {
            lemma_contains_kept(o4, r, tag(EventKind::Empty, "group"@, spec_style_attrs(a)));
        }
        if let Some(a) = st.connector {
            lemma_contains_kept(o5, r, tag(EventKind::Empty, "connector"@, spec_style_attrs(a)));
        }
        if let Some(a) = st.alias {
            lemma_contains_kept(o6, r, tag(EventKind::Empty, "alias"@, spec_style_attrs(a)));
        }
        if let Some(a) = st.slider {
            lemma_contains_kept(o7, r, tag(EventKind::Empty, "slider"@, spec_style_attrs(a)));
        }
        if let Some(a) = st.knob {
            lemma_contains_kept(o8, r, tag(EventKind::Empty, "knob"@, spec_style_attrs(a)));
        }
        if let Some(a) = st.switch {
            lemma_contains_kept(o9, r, tag(EventKind::Empty, "switch"@, spec_style_attrs(a)));
        }
        if let Some(a) = st.options {
            lemma_contains_kept(o10, r, tag(EventKind::Empty, "options"@, spec_style_attrs(a)));
        }
        if let Some(a) = st.numeric_input {
            lemma_contains_kept(o11, r, tag(EventKind::Empty, "numeric_input"@, spec_style_attrs(a)));
        }
        if let Some(a) = st.list_input {
            lemma_contains_kept(o12, r, tag(EventKind::Empty, "list_input"@, spec_style_attrs(a)));
        }
        if let Some(a) = st.graphical_input {
            lemma_contains_kept(o13, r, tag(EventKind::Empty, "graphical_input"@, spec_style_attrs(a)));
        }
        if let Some(a) = st.numeric_display {
            lemma_contains_kept(o14, r, tag(EventKind::Empty, "numeric_display"@, spec_style_attrs(a)));
        }
        if let Some(a) = st.lamp {
            lemma_contains_kept(o15, r, tag(EventKind::Empty, "lamp"@, spec_style_attrs(a)));
        }
        if let Some(a) = st.gauge {
            lemma_contains_kept(o16, r, tag(EventKind::Empty, "gauge"@, spec_style_attrs(a)));
        }
        if let Some(a) = st.graph {
            lemma_contains_kept(o17, r, tag(EventKind::Empty, "graph"@, spec_style_attrs(a)));
        }
        if let Some(a) = st.table {
            lemma_contains_kept(o18, r, tag(EventKind::Empty, "table"@, spec_style_attrs(a)));
        }
        if let Some(a) = st.text_box {
            lemma_contains_kept(o19, r, tag(EventKind::Empty, "text_box"@, spec_style_attrs(a)));
        }
        if let Some(a) = st.graphics_frame {
            lemma_contains_kept(o20, r, tag(EventKind::Empty, "graphics_frame"@, spec_style_attrs(a)));
        }
        if let Some(a) = st.button {
            lemma_contains_kept(o21, r, tag(EventKind::Empty, "button"@, spec_style_attrs(a)));
        }
    }
}

} // verus!
