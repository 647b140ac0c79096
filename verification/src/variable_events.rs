//! Writing stocks, flows and auxiliaries: the events of the `stock`, `flow` and `aux`
//! elements and of their `range`, `scale` and `format` settings. Numbers are written as the
//! text they are held as (`N` is `String` here).

use vstd::prelude::*;
use vstd::string::*;
use crate::actions::ReadErrorSpec;
use crate::de::{
    lemma_absent_key_unset, lemma_attribute_read_back, lemma_bool_attribute_round_trip, lemma_push_opt_get, pairs_map,
    spec_get, Attrs,
};
use crate::model::Documentation;
use crate::ser::{
    has_run_from, lemma_run_at_end, lemma_run_kept, lemma_starts_with_append, lemma_starts_with_push, lemma_starts_with_trans,
    run_at, spec_bool_text, spec_content_elem, spec_non_negative_events, starts_with, tag, AttrList, EventKind, EventView,
    XmlEmitter,
};
use crate::serialize::{opt_str, spec_doc_text};
use crate::style::push_opt_attr;
use crate::text::{format_u32, lemma_parse_int_text, spec_int_text};
use crate::variables::{
    spec_format, spec_range, spec_scale, AuxDefinition, DeviceRange, DeviceScale, FlowDefinition, FormatOptions, StockDefinition,
    StockKind,
};
use crate::view::{
    lemma_display_as_round_trip, serialize_access_type, serialize_display_as, spec_access_type_text, spec_display_as_text, AccessType,
    DisplayAs,
};

verus! {

/// The text of an optional access type.
pub open spec fn opt_access_text(a: Option<AccessType>) -> Option<Seq<char>> {
    match a {
        Some(v) => Some(spec_access_type_text(v)),
        None => None,
    }
}

/// The text of an optional flag.
pub open spec fn opt_bool_text(b: Option<bool>) -> Option<Seq<char>> {
    match b {
        Some(v) => Some(spec_bool_text(v)),
        None => None,
    }
}

/// The attributes of a variable's element: its name, then its access and whether it is
/// exported when present.
pub open spec fn spec_var_attrs(name: Seq<char>, access: Option<AccessType>, autoexport: Option<bool>) -> Seq<(Seq<char>, Seq<char>)> {
    push_opt_attr(push_opt_attr(seq![("name"@, name)], "access"@, opt_access_text(access)), "autoexport"@, opt_bool_text(autoexport))
}

fn var_attrs(name: &str, access: Option<AccessType>, autoexport: Option<bool>) -> (r: AttrList)
    ensures
        r@ == spec_var_attrs(name@, access, autoexport),
{
    let mut attrs = AttrList::new();
    attrs.add("name", name);
    match access {
        Some(a) => {
            attrs.add("access", serialize_access_type(&a));
        },
        None => {},
    }
    match autoexport {
        Some(b) => {
            attrs.add_bool("autoexport", b);
        },
        None => {},
    }
    proof {
        assert(seq![("name"@, name@)] =~= Seq::<(Seq<char>, Seq<char>)>::empty().push(("name"@, name@)));
    }
    attrs
}

/// The empty `range` element of a range.
pub open spec fn spec_range_event(r: DeviceRange<String>) -> EventView {
    tag(EventKind::Empty, "range"@, seq![("min"@, r.min@), ("max"@, r.max@)])
}

/// Writes a range as an empty `range` element with its bounds.
pub fn serialize_range(emitter: &mut XmlEmitter, r: &DeviceRange<String>)
    ensures
        final(emitter)@ == old(emitter)@.push(spec_range_event(*r)),
{
    let mut attrs = AttrList::new();
    attrs.add("min", r.min.as_str());
    attrs.add("max", r.max.as_str());
    proof {
        assert(attrs@ =~= seq![("min"@, r.min@), ("max"@, r.max@)]);
    }
    emitter.empty_elem_with_attrs("range", &attrs);
}

/// The empty `scale` element of a scale: its bounds, whether it is automatic, or its group.
pub open spec fn spec_scale_event(s: DeviceScale<String>) -> EventView {
    tag(
        EventKind::Empty,
        "scale"@,
        match s {
            DeviceScale::MinMax { min, max } => seq![("min"@, min@), ("max"@, max@)],
            DeviceScale::Auto(b) => seq![("auto"@, spec_bool_text(b))],
            DeviceScale::Group(g) => seq![("group"@, spec_int_text(g as int))],
        },
    )
}

/// Writes a scale as an empty `scale` element.
pub fn serialize_scale(emitter: &mut XmlEmitter, s: &DeviceScale<String>)
    ensures
        final(emitter)@ == old(emitter)@.push(spec_scale_event(*s)),
{
    let mut attrs = AttrList::new();
    match s {
        DeviceScale::MinMax { min, max } => {
            attrs.add("min", min.as_str());
            attrs.add("max", max.as_str());
            proof {
                assert(attrs@ =~= seq![("min"@, min@), ("max"@, max@)]);
            }
        },
        DeviceScale::Auto(b) => {
            attrs.add_bool("auto", *b);
            proof {
                assert(attrs@ =~= seq![("auto"@, spec_bool_text(*b))]);
            }
        },
        DeviceScale::Group(g) => {
            let text = format_u32(*g);
            attrs.add("group", text.as_str());
            proof {
                assert(attrs@ =~= seq![("group"@, spec_int_text(*g as int))]);
            }
        },
    }
    emitter.empty_elem_with_attrs("scale", &attrs);
}

/// The text of an optional display mode.
pub open spec fn opt_display_as_text(d: Option<DisplayAs>) -> Option<Seq<char>> {
    match d {
        Some(v) => Some(spec_display_as_text(v)),
        None => None,
    }
}

/// The text of an optional number held as text.
pub open spec fn opt_number_text(n: Option<String>) -> Option<Seq<char>> {
    match n {
        Some(v) => Some(v@),
        None => None,
    }
}

/// The empty `format` element of a format: each setting that is present, in the order
/// precision, scale, display mode, thousands delimiting.
pub open spec fn spec_format_event(f: FormatOptions<String>) -> EventView {
    let a0 = push_opt_attr(Seq::empty(), "precision"@, opt_number_text(f.precision));
    let a1 = push_opt_attr(a0, "scale_by"@, opt_number_text(f.scale_by));
    let a2 = push_opt_attr(a1, "display_as"@, opt_display_as_text(f.display_as));
    tag(EventKind::Empty, "format"@, push_opt_attr(a2, "delimit_000s"@, opt_bool_text(f.delimit_000s)))
}

/// Writes a format as an empty `format` element.
pub fn serialize_format(emitter: &mut XmlEmitter, f: &FormatOptions<String>)
    ensures
        final(emitter)@ == old(emitter)@.push(spec_format_event(*f)),
{
    let mut attrs = AttrList::new();
    attrs.add_opt("precision", opt_str(&f.precision));
    attrs.add_opt("scale_by", opt_str(&f.scale_by));
    match &f.display_as {
        Some(d) => {
            attrs.add("display_as", serialize_display_as(d));
        },
        None => {},
    }
    match f.delimit_000s {
        Some(b) => {
            attrs.add_bool("delimit_000s", b);
        },
        None => {},
    }
    emitter.empty_elem_with_attrs("format", &attrs);
}

/// `events` followed by a text element when there is text for it.
pub open spec fn after_opt_text(events: Seq<EventView>, name: Seq<char>, text: Option<Seq<char>>) -> Seq<EventView> {
    match text {
        Some(t) => events + spec_content_elem(name, EventKind::Text, t, Seq::empty()),
        None => events,
    }
}

/// `events` followed by one text element named `name` per text, in order.
pub open spec fn after_texts(events: Seq<EventView>, name: Seq<char>, texts: Seq<String>) -> Seq<EventView>
    decreases texts.len(),
{
    if texts.len() == 0 {
        events
    } else {
        after_texts(events, name, texts.drop_last()) + spec_content_elem(name, EventKind::Text, texts.last()@, Seq::empty())
    }
}

fn write_texts(emitter: &mut XmlEmitter, name: &str, texts: &Vec<String>)
    ensures
        final(emitter)@ == after_texts(old(emitter)@, name@, texts@),
{
    let ghost base = emitter@;
    let mut i: usize = 0;
    while i < texts.len()
        invariant
            i <= texts@.len(),
            emitter@ == after_texts(base, name@, texts@.take(i as int)),
        decreases texts@.len() - i,
    {
        emitter.text_elem(name, texts[i].as_str());
        proof {
            assert(texts@.take(i + 1).drop_last() =~= texts@.take(i as int));
            assert(texts@.take(i + 1).last() == texts@[i as int]);
        }
        i = i + 1;
    }
    proof {
        assert(texts@.take(texts@.len() as int) =~= texts@);
    }
}

/// The text of optional documentation.
pub open spec fn opt_doc_text(d: Option<Documentation>) -> Option<Seq<char>> {
    match d {
        Some(v) => Some(spec_doc_text(v)),
        None => None,
    }
}

/// `events` followed by the settings elements a variable has: range, scale and format.
pub open spec fn after_settings(
    events: Seq<EventView>,
    range: Option<DeviceRange<String>>,
    scale: Option<DeviceScale<String>>,
    format: Option<FormatOptions<String>>,
) -> Seq<EventView> {
    let e0 = match range {
        Some(r) => events.push(spec_range_event(r)),
        None => events,
    };
    let e1 = match scale {
        Some(s) => e0.push(spec_scale_event(s)),
        None => e0,
    };
    match format {
        Some(f) => e1.push(spec_format_event(f)),
        None => e1,
    }
}

fn write_settings(
    emitter: &mut XmlEmitter,
    range: &Option<DeviceRange<String>>,
    scale: &Option<DeviceScale<String>>,
    format: &Option<FormatOptions<String>>,
)
    ensures
        final(emitter)@ == after_settings(old(emitter)@, *range, *scale, *format),
{
    match range {
        Some(r) => serialize_range(emitter, r),
        None => {},
    }
    match scale {
        Some(s) => serialize_scale(emitter, s),
        None => {},
    }
    match format {
        Some(f) => serialize_format(emitter, f),
        None => {},
    }
}

fn write_doc_text(emitter: &mut XmlEmitter, doc: &Option<Documentation>)
    ensures
        final(emitter)@ == after_opt_text(old(emitter)@, "doc"@, opt_doc_text(*doc)),
{
    match doc {
        Some(Documentation::PlainText(t)) => emitter.text_elem("doc", t.as_str()),
        Some(Documentation::Html(h)) => emitter.text_elem("doc", h.as_str()),
        None => {},
    }
}

/// `events` followed by the events of a basic stock: a `stock` element holding its initial
/// equation, its MathML equation, its inflows and outflows in order, its documentation,
/// units and `non_negative` setting, and its range, scale and format, each when present.
pub open spec fn spec_after_stock(events: Seq<EventView>, s: StockDefinition<String>) -> Seq<EventView> {
    let e0 = events.push(tag(EventKind::Start, "stock"@, spec_var_attrs(s.name@, s.access, s.autoexport)));
    let e1 = e0 + spec_content_elem("eqn"@, EventKind::CData, s.initial_equation@, Seq::empty());
    let e2 = after_opt_text(e1, "mathml"@, opt_number_text(s.mathml_equation));
    let e3 = after_texts(e2, "inflow"@, s.inflows@);
    let e4 = after_texts(e3, "outflow"@, s.outflows@);
    let e5 = after_opt_text(e4, "doc"@, opt_doc_text(s.documentation));
    let e6 = after_opt_text(e5, "units"@, opt_number_text(s.units));
    let e7 = e6 + spec_non_negative_events(s.kind->non_negative);
    after_settings(e7, s.range, s.scale, s.format).push(tag(EventKind::End, "stock"@, Seq::empty()))
}

/// Writes a basic stock.
pub fn serialize_basic_stock(emitter: &mut XmlEmitter, s: &StockDefinition<String>)
    requires
        s.kind is Basic,
    ensures
        final(emitter)@ == spec_after_stock(old(emitter)@, *s),
{
    let attrs = var_attrs(s.name.as_str(), s.access, s.autoexport);
    let start = emitter.start_elem("stock", &attrs);
    emitter.write_start(&start);
    emitter.cdata_elem("eqn", s.initial_equation.as_str());
    emitter.opt_text_elem("mathml", opt_str(&s.mathml_equation));
    write_texts(emitter, "inflow", &s.inflows);
    write_texts(emitter, "outflow", &s.outflows);
    write_doc_text(emitter, &s.documentation);
    emitter.opt_text_elem("units", opt_str(&s.units));
    match &s.kind {
        StockKind::Basic { non_negative } => emitter.non_negative_elem(*non_negative),
        _ => {},
    }
    write_settings(emitter, &s.range, &s.scale, &s.format);
    emitter.write_end("stock");
}

/// `events` followed by the events of a flow: a `flow` element holding its equation, MathML
/// equation, multiplier, documentation, units, `non_negative` setting, range, scale and
/// format, each when present.
pub open spec fn spec_after_flow(events: Seq<EventView>, f: FlowDefinition<String>) -> Seq<EventView> {
    let e0 = events.push(tag(EventKind::Start, "flow"@, spec_var_attrs(f.name@, f.access, f.autoexport)));
    let e1 = match f.equation {
        Some(q) => e0 + spec_content_elem("eqn"@, EventKind::CData, q@, Seq::empty()),
        None => e0,
    };
    let e2 = after_opt_text(e1, "mathml"@, opt_number_text(f.mathml_equation));
    let e3 = after_opt_text(e2, "multiplier"@, opt_number_text(f.multiplier));
    let e4 = after_opt_text(e3, "doc"@, opt_doc_text(f.documentation));
    let e5 = after_opt_text(e4, "units"@, opt_number_text(f.units));
    let e6 = e5 + spec_non_negative_events(f.non_negative);
    after_settings(e6, f.range, f.scale, f.format).push(tag(EventKind::End, "flow"@, Seq::empty()))
}

/// Writes a flow.
pub fn serialize_basic_flow(emitter: &mut XmlEmitter, f: &FlowDefinition<String>)
    ensures
        final(emitter)@ == spec_after_flow(old(emitter)@, *f),
{
    let attrs = var_attrs(f.name.as_str(), f.access, f.autoexport);
    let start = emitter.start_elem("flow", &attrs);
    emitter.write_start(&start);
    match &f.equation {
        Some(q) => emitter.cdata_elem("eqn", q.as_str()),
        None => {},
    }
    emitter.opt_text_elem("mathml", opt_str(&f.mathml_equation));
    emitter.opt_text_elem("multiplier", opt_str(&f.multiplier));
    write_doc_text(emitter, &f.documentation);
    emitter.opt_text_elem("units", opt_str(&f.units));
    emitter.non_negative_elem(f.non_negative);
    write_settings(emitter, &f.range, &f.scale, &f.format);
    emitter.write_end("flow");
}

/// `events` followed by the events of an auxiliary: an `aux` element holding its equation,
/// and its MathML equation, documentation, units, range, scale and format when present.
pub open spec fn spec_after_aux(events: Seq<EventView>, a: AuxDefinition<String>) -> Seq<EventView> {
    let e0 = events.push(tag(EventKind::Start, "aux"@, spec_var_attrs(a.name@, a.access, a.autoexport)));
    let e1 = e0 + spec_content_elem("eqn"@, EventKind::CData, a.equation@, Seq::empty());
    let e2 = after_opt_text(e1, "mathml"@, opt_number_text(a.mathml_equation));
    let e3 = after_opt_text(e2, "doc"@, opt_doc_text(a.documentation));
    let e4 = after_opt_text(e3, "units"@, opt_number_text(a.units));
    after_settings(e4, a.range, a.scale, a.format).push(tag(EventKind::End, "aux"@, Seq::empty()))
}

/// Writes an auxiliary.
pub fn serialize_auxiliary(emitter: &mut XmlEmitter, a: &AuxDefinition<String>)
    ensures
        final(emitter)@ == spec_after_aux(old(emitter)@, *a),
{
    let attrs = var_attrs(a.name.as_str(), a.access, a.autoexport);
    let start = emitter.start_elem("aux", &attrs);
    emitter.write_start(&start);
    emitter.cdata_elem("eqn", a.equation.as_str());
    emitter.opt_text_elem("mathml", opt_str(&a.mathml_equation));
    write_doc_text(emitter, &a.documentation);
    emitter.opt_text_elem("units", opt_str(&a.units));
    write_settings(emitter, &a.range, &a.scale, &a.format);
    emitter.write_end("aux");
}

proof fn lemma_setting_keys_differ()
    ensures
        "min"@ != "max"@,
        "min"@.len() == 3,
        "max"@.len() == 3,
        "auto"@.len() == 4,
        "group"@.len() == 5,
        "precision"@.len() == 9,
        "scale_by"@.len() == 8,
        "display_as"@.len() == 10,
        "delimit_000s"@.len() == 12,
{
    reveal_strlit("min");
    reveal_strlit("max");
    reveal_strlit("auto");
    reveal_strlit("group");
    reveal_strlit("precision");
    reveal_strlit("scale_by");
    reveal_strlit("display_as");
    reveal_strlit("delimit_000s");
    assert("min"@[1] != "max"@[1]);
}

/// A range that is written is read back: its `range` element holds the texts of both
/// bounds, and reading it gives the range of the caller's parses of those texts.
pub proof fn lemma_range_round_trip<N>(r: DeviceRange<String>, a: Attrs, lo: N, hi: N)
    requires
        a@ == pairs_map(spec_range_event(r).2),
    ensures
        spec_get(a@, "min"@) == Some(r.min@),
        spec_get(a@, "max"@) == Some(r.max@),
        spec_range(a, Some(Ok::<N, String>(lo)), Some(Ok::<N, String>(hi)))
            == Ok::<Option<DeviceRange<N>>, ReadErrorSpec>(Some(DeviceRange { min: lo, max: hi })),
{
    lemma_setting_keys_differ();
    let s0 = Seq::<(Seq<char>, Seq<char>)>::empty();
    let s1 = s0.push(("min"@, r.min@));
    lemma_attribute_read_back(s0, "min"@, r.min@);
    lemma_attribute_read_back(s1, "max"@, r.max@);
    assert(spec_range_event(r).2 =~= s1.push(("max"@, r.max@)));
}

/// A scale that is written is read back as it was: a pair of bounds as the caller's parses
/// of the written texts, and an automatic scale or a group, written without bounds, as
/// themselves.
pub proof fn lemma_scale_round_trip<N>(s: DeviceScale<String>, a: Attrs, lo: N, hi: N)
    requires
        a@ == pairs_map(spec_scale_event(s).2),
    ensures
        match s {
            DeviceScale::MinMax { min, max } => {
                &&& spec_get(a@, "min"@) == Some(min@)
                &&& spec_get(a@, "max"@) == Some(max@)
                &&& spec_scale(a, Some(Ok::<N, String>(lo)), Some(Ok::<N, String>(hi)))
                    == Ok::<Option<DeviceScale<N>>, ReadErrorSpec>(Some(DeviceScale::MinMax { min: lo, max: hi }))
            },
            DeviceScale::Auto(b) => {
                &&& !a@.contains_key("min"@)
                &&& !a@.contains_key("max"@)
                &&& spec_scale(a, None::<Result<N, String>>, None::<Result<N, String>>)
                    == Ok::<Option<DeviceScale<N>>, ReadErrorSpec>(Some(DeviceScale::Auto(b)))
            },
            DeviceScale::Group(g) => {
                &&& !a@.contains_key("min"@)
                &&& !a@.contains_key("max"@)
                &&& spec_scale(a, None::<Result<N, String>>, None::<Result<N, String>>)
                    == Ok::<Option<DeviceScale<N>>, ReadErrorSpec>(Some(DeviceScale::Group(g)))
            },
        },
{
    lemma_setting_keys_differ();
    let s0 = Seq::<(Seq<char>, Seq<char>)>::empty();
    let p = spec_scale_event(s).2;
    match s {
        DeviceScale::MinMax { min, max } => {
            let s1 = s0.push(("min"@, min@));
            lemma_attribute_read_back(s0, "min"@, min@);
            lemma_attribute_read_back(s1, "max"@, max@);
            assert(p =~= s1.push(("max"@, max@)));
            lemma_absent_key_unset(p, "auto"@);
            lemma_absent_key_unset(p, "group"@);
        },
        DeviceScale::Auto(b) => {
            lemma_attribute_read_back(s0, "auto"@, spec_bool_text(b));
            assert(p =~= s0.push(("auto"@, spec_bool_text(b))));
            lemma_absent_key_unset(p, "min"@);
            lemma_absent_key_unset(p, "max"@);
            lemma_absent_key_unset(p, "group"@);
            lemma_bool_attribute_round_trip(b);
        },
        DeviceScale::Group(g) => {
            lemma_attribute_read_back(s0, "group"@, spec_int_text(g as int));
            assert(p =~= s0.push(("group"@, spec_int_text(g as int))));
            lemma_absent_key_unset(p, "min"@);
            lemma_absent_key_unset(p, "max"@);
            lemma_absent_key_unset(p, "auto"@);
            lemma_parse_int_text(g as int, false, 0, u32::MAX as int);
        },
    }
}

/// The outcome of parsing a number that was present and parsed, or absent.
pub open spec fn parsed_outcome<N>(v: Option<N>) -> Option<Result<N, String>> {
    match v {
        Some(x) => Some(Ok(x)),
        None => None,
    }
}

/// A format that is written is read back as it was, strict or not: the written precision
/// and scale factor texts are in the `format` element exactly when the format has them, and
/// reading it gives the caller's parses of them with the same display mode and thousands
/// delimiting.
pub proof fn lemma_format_round_trip<N>(f: FormatOptions<String>, a: Attrs, precision: Option<N>, scale_by: Option<N>, strict: bool)
    requires
        a@ == pairs_map(spec_format_event(f).2),
        precision is Some <==> f.precision is Some,
        scale_by is Some <==> f.scale_by is Some,
    ensures
        spec_get(a@, "precision"@) == opt_number_text(f.precision),
        spec_get(a@, "scale_by"@) == opt_number_text(f.scale_by),
        spec_format(a, parsed_outcome(precision), parsed_outcome(scale_by), strict) == Ok::<FormatOptions<N>, ReadErrorSpec>(
            FormatOptions { precision, scale_by, display_as: f.display_as, delimit_000s: f.delimit_000s },
        ),
{
    lemma_setting_keys_differ();
    let s0 = Seq::<(Seq<char>, Seq<char>)>::empty();
    assert(pairs_map(s0) == Map::<Seq<char>, Seq<char>>::empty());
    let a0 = push_opt_attr(s0, "precision"@, opt_number_text(f.precision));
    lemma_push_opt_get(s0, "precision"@, opt_number_text(f.precision));
    let a1 = push_opt_attr(a0, "scale_by"@, opt_number_text(f.scale_by));
    lemma_push_opt_get(a0, "scale_by"@, opt_number_text(f.scale_by));
    let a2 = push_opt_attr(a1, "display_as"@, opt_display_as_text(f.display_as));
    lemma_push_opt_get(a1, "display_as"@, opt_display_as_text(f.display_as));
    let a3 = push_opt_attr(a2, "delimit_000s"@, opt_bool_text(f.delimit_000s));
    lemma_push_opt_get(a2, "delimit_000s"@, opt_bool_text(f.delimit_000s));
    assert(spec_format_event(f).2 == a3);
    assert(spec_get(pairs_map(s0), "precision"@) is None);
    assert(spec_get(pairs_map(s0), "scale_by"@) is None);
    assert(spec_get(pairs_map(s0), "display_as"@) is None);
    assert(spec_get(pairs_map(s0), "delimit_000s"@) is None);
    assert(spec_get(pairs_map(a3), "precision"@) == spec_get(pairs_map(a2), "precision"@));
    assert(spec_get(pairs_map(a2), "precision"@) == spec_get(pairs_map(a1), "precision"@));
    assert(spec_get(pairs_map(a1), "precision"@) == spec_get(pairs_map(a0), "precision"@));
    assert(spec_get(pairs_map(a3), "scale_by"@) == spec_get(pairs_map(a2), "scale_by"@));
    assert(spec_get(pairs_map(a2), "scale_by"@) == spec_get(pairs_map(a1), "scale_by"@));
    assert(spec_get(pairs_map(a0), "scale_by"@) == spec_get(pairs_map(s0), "scale_by"@));
    assert(spec_get(pairs_map(a3), "display_as"@) == spec_get(pairs_map(a2), "display_as"@));
    assert(spec_get(pairs_map(a2), "display_as"@) == opt_display_as_text(f.display_as));
    assert(spec_get(pairs_map(a1), "display_as"@) == spec_get(pairs_map(a0), "display_as"@));
    assert(spec_get(pairs_map(a0), "display_as"@) == spec_get(pairs_map(s0), "display_as"@));
    assert(spec_get(pairs_map(a2), "delimit_000s"@) == spec_get(pairs_map(a1), "delimit_000s"@));
    assert(spec_get(pairs_map(a1), "delimit_000s"@) == spec_get(pairs_map(a0), "delimit_000s"@));
    assert(spec_get(pairs_map(a0), "delimit_000s"@) == spec_get(pairs_map(s0), "delimit_000s"@));
    if let Some(d) = f.display_as {
        lemma_display_as_round_trip(d);
    }
    if let Some(b) = f.delimit_000s {
        lemma_bool_attribute_round_trip(b);
    }
}


proof fn lemma_opt_text_written(e: Seq<EventView>, name: Seq<char>, text: Option<Seq<char>>)
    ensures
        starts_with(after_opt_text(e, name, text), e),
        text matches Some(t) ==> run_at(
            after_opt_text(e, name, text),
            e.len() as int,
            spec_content_elem(name, EventKind::Text, t, Seq::empty()),
        ),
{
    lemma_starts_with_append(e, e, Seq::empty());
    assert(e + Seq::<EventView>::empty() =~= e);
    if let Some(t) = text {
        lemma_starts_with_append(e, e, spec_content_elem(name, EventKind::Text, t, Seq::empty()));
        lemma_run_at_end(e, spec_content_elem(name, EventKind::Text, t, Seq::empty()));
    }
}

proof fn lemma_texts_written(e: Seq<EventView>, name: Seq<char>, texts: Seq<String>)
    ensures
        starts_with(after_texts(e, name, texts), e),
        forall|j: int| 0 <= j < texts.len() ==> has_run_from(
            after_texts(e, name, texts),
            e.len() as int,
            spec_content_elem(name, EventKind::Text, (#[trigger] texts[j])@, Seq::empty()),
        ),
    decreases texts.len(),
{
    if texts.len() == 0 {
        lemma_starts_with_append(e, e, Seq::empty());
        assert(e + Seq::<EventView>::empty() =~= e);
    } else {
        let prev = after_texts(e, name, texts.drop_last());
        let part = spec_content_elem(name, EventKind::Text, texts.last()@, Seq::empty());
        let all = after_texts(e, name, texts);
        lemma_texts_written(e, name, texts.drop_last());
        lemma_starts_with_append(prev, e, part);
        lemma_run_at_end(prev, part);
        assert forall|j: int| 0 <= j < texts.len() implies has_run_from(
            all,
            e.len() as int,
            spec_content_elem(name, EventKind::Text, (#[trigger] texts[j])@, Seq::empty()),
        ) by {
            let pj = spec_content_elem(name, EventKind::Text, texts[j]@, Seq::empty());
            if j == texts.len() - 1 {
                assert(run_at(all, prev.len() as int, pj));
            } else {
                assert(texts.drop_last()[j] == texts[j]);
                let i = choose|i: int| e.len() <= i && #[trigger] run_at(prev, i, pj);
                lemma_run_kept(prev, all, i, pj);
            }
        }
    }
}

proof fn lemma_settings_written(
    e: Seq<EventView>,
    range: Option<DeviceRange<String>>,
    scale: Option<DeviceScale<String>>,
    format: Option<FormatOptions<String>>,
)
    ensures
        starts_with(after_settings(e, range, scale, format), e),
        range matches Some(r) ==> has_run_from(after_settings(e, range, scale, format), e.len() as int, seq![spec_range_event(r)]),
        scale matches Some(x) ==> has_run_from(after_settings(e, range, scale, format), e.len() as int, seq![spec_scale_event(x)]),
        format matches Some(f) ==> has_run_from(after_settings(e, range, scale, format), e.len() as int, seq![spec_format_event(f)]),
{
    let all = after_settings(e, range, scale, format);
    let e0 = match range {
        Some(r) => e.push(spec_range_event(r)),
        None => e,
    };
    let e1 = match scale {
        Some(x) => e0.push(spec_scale_event(x)),
        None => e0,
    };
    lemma_starts_with_append(e, e, Seq::empty());
    assert(e + Seq::<EventView>::empty() =~= e);
    if let Some(r) = range {
        lemma_starts_with_push(e, e, spec_range_event(r));
    }
    lemma_starts_with_append(e0, e0, Seq::empty());
    assert(e0 + Seq::<EventView>::empty() =~= e0);
    if let Some(x) = scale {
        lemma_starts_with_push(e0, e0, spec_scale_event(x));
    }
    lemma_starts_with_append(e1, e1, Seq::empty());
    assert(e1 + Seq::<EventView>::empty() =~= e1);
    if let Some(f) = format {
        lemma_starts_with_push(e1, e1, spec_format_event(f));
    }
    lemma_starts_with_trans(e1, e0, e);
    lemma_starts_with_trans(all, e1, e0);
    lemma_starts_with_trans(all, e0, e);
    if let Some(r) = range {
        assert(run_at(e0, e.len() as int, seq![spec_range_event(r)])) by {
            assert(e0.subrange(e.len() as int, (e.len() + 1) as int) =~= seq![spec_range_event(r)]);
        }
        lemma_run_kept(e0, all, e.len() as int, seq![spec_range_event(r)]);
    }
    if let Some(x) = scale {
        assert(run_at(e1, e0.len() as int, seq![spec_scale_event(x)])) by {
            assert(e1.subrange(e0.len() as int, (e0.len() + 1) as int) =~= seq![spec_scale_event(x)]);
        }
        lemma_run_kept(e1, all, e0.len() as int, seq![spec_scale_event(x)]);
    }
    if let Some(f) = format {
        assert(run_at(all, e1.len() as int, seq![spec_format_event(f)])) by {
            assert(all.subrange(e1.len() as int, (e1.len() + 1) as int) =~= seq![spec_format_event(f)]);
        }
    }
}

/// A variable's element names the variable, and carries its access and whether it is
/// exported when they are given.
pub proof fn lemma_var_attrs_written(name: Seq<char>, access: Option<AccessType>, autoexport: Option<bool>)
    ensures
        spec_var_attrs(name, access, autoexport)[0] == ("name"@, name),
        access matches Some(x) ==> spec_var_attrs(name, access, autoexport).contains(("access"@, spec_access_type_text(x))),
        autoexport matches Some(b) ==> spec_var_attrs(name, access, autoexport).contains(("autoexport"@, spec_bool_text(b))),
{
    let a0 = seq![("name"@, name)];
    let a1 = push_opt_attr(a0, "access"@, opt_access_text(access));
    let a2 = push_opt_attr(a1, "autoexport"@, opt_bool_text(autoexport));
    if let Some(x) = access {
        assert(a1[1] == ("access"@, spec_access_type_text(x)));
        assert(a2[1] == a1[1]);
    }
    if let Some(b) = autoexport {
        assert(a2[a1.len() as int] == ("autoexport"@, spec_bool_text(b)));
    }
}

/// An auxiliary is written as an `aux` element, after what was written before, that holds
/// its equation and, when it has them, its MathML equation, documentation, units, range,
/// scale and format.
pub proof fn lemma_aux_written<N>(events: Seq<EventView>, a: AuxDefinition<String>)
    ensures
        ({
            let r = spec_after_aux(events, a);
            let n = events.len() as int;
            &&& starts_with(r, events)
            &&& r[n] == tag(EventKind::Start, "aux"@, spec_var_attrs(a.name@, a.access, a.autoexport))
            &&& r.last() == tag(EventKind::End, "aux"@, Seq::empty())
            &&& has_run_from(r, n, spec_content_elem("eqn"@, EventKind::CData, a.equation@, Seq::empty()))
            &&& a.mathml_equation matches Some(m) ==> has_run_from(r, n, spec_content_elem("mathml"@, EventKind::Text, m@, Seq::empty()))
            &&& a.documentation matches Some(d) ==> has_run_from(r, n, spec_content_elem("doc"@, EventKind::Text, spec_doc_text(d), Seq::empty()))
            &&& a.units matches Some(u) ==> has_run_from(r, n, spec_content_elem("units"@, EventKind::Text, u@, Seq::empty()))
            &&& a.range matches Some(x) ==> has_run_from(r, n, seq![spec_range_event(x)])
            &&& a.scale matches Some(x) ==> has_run_from(r, n, seq![spec_scale_event(x)])
            &&& a.format matches Some(x) ==> has_run_from(r, n, seq![spec_format_event(x)])
        }),
{
    let n = events.len() as int;
    let e0 = events.push(tag(EventKind::Start, "aux"@, spec_var_attrs(a.name@, a.access, a.autoexport)));
    let eqn = spec_content_elem("eqn"@, EventKind::CData, a.equation@, Seq::empty());
    let e1 = e0 + eqn;
    let e2 = after_opt_text(e1, "mathml"@, opt_number_text(a.mathml_equation));
    let e3 = after_opt_text(e2, "doc"@, opt_doc_text(a.documentation));
    let e4 = after_opt_text(e3, "units"@, opt_number_text(a.units));
    let e5 = after_settings(e4, a.range, a.scale, a.format);
    let r = e5.push(tag(EventKind::End, "aux"@, Seq::empty()));
    assert(r == spec_after_aux(events, a));
    lemma_starts_with_append(events, events, Seq::empty());
    assert(events + Seq::<EventView>::empty() =~= events);
    lemma_starts_with_push(events, events, tag(EventKind::Start, "aux"@, spec_var_attrs(a.name@, a.access, a.autoexport)));
    lemma_starts_with_append(e0, e0, eqn);
    lemma_run_at_end(e0, eqn);
    lemma_opt_text_written(e1, "mathml"@, opt_number_text(a.mathml_equation));
    lemma_opt_text_written(e2, "doc"@, opt_doc_text(a.documentation));
    lemma_opt_text_written(e3, "units"@, opt_number_text(a.units));
    lemma_settings_written(e4, a.range, a.scale, a.format);
    lemma_starts_with_append(e5, e5, Seq::empty());
    assert(e5 + Seq::<EventView>::empty() =~= e5);
    lemma_starts_with_push(e5, e5, tag(EventKind::End, "aux"@, Seq::empty()));
    lemma_starts_with_trans(r, e5, e4);
    lemma_starts_with_trans(r, e4, e3);
    lemma_starts_with_trans(r, e3, e2);
    lemma_starts_with_trans(r, e2, e1);
    lemma_starts_with_trans(r, e1, e0);
    lemma_starts_with_trans(r, e0, events);
    assert(r[n] == e0[n]) by {
        assert(r.take(e0.len() as int)[n] == r[n]);
    }
    lemma_run_kept(e1, r, e0.len() as int, eqn);
    if let Some(m) = a.mathml_equation {
        lemma_run_kept(e2, r, e1.len() as int, spec_content_elem("mathml"@, EventKind::Text, m@, Seq::empty()));
    }
    if let Some(d) = a.documentation {
        lemma_run_kept(e3, r, e2.len() as int, spec_content_elem("doc"@, EventKind::Text, spec_doc_text(d), Seq::empty()));
    }
    if let Some(u) = a.units {
        lemma_run_kept(e4, r, e3.len() as int, spec_content_elem("units"@, EventKind::Text, u@, Seq::empty()));
    }
    if let Some(x) = a.range {
        let i = choose|i: int| e4.len() <= i && #[trigger] run_at(e5, i, seq![spec_range_event(x)]);
        lemma_run_kept(e5, r, i, seq![spec_range_event(x)]);
    }
    if let Some(x) = a.scale {
        let i = choose|i: int| e4.len() <= i && #[trigger] run_at(e5, i, seq![spec_scale_event(x)]);
        lemma_run_kept(e5, r, i, seq![spec_scale_event(x)]);
    }
    if let Some(x) = a.format {
        let i = choose|i: int| e4.len() <= i && #[trigger] run_at(e5, i, seq![spec_format_event(x)]);
        lemma_run_kept(e5, r, i, seq![spec_format_event(x)]);
    }
}


/// A basic stock is written as a `stock` element, after what was written before, that
/// holds its initial equation, each of its inflows and outflows, and, when it has them,
/// its MathML equation, documentation, units, `non_negative` setting, range, scale and
/// format.
pub proof fn lemma_stock_written(events: Seq<EventView>, s: StockDefinition<String>)
    ensures
        ({
            let r = spec_after_stock(events, s);
            let n = events.len() as int;
            &&& starts_with(r, events)
            &&& r[n] == tag(EventKind::Start, "stock"@, spec_var_attrs(s.name@, s.access, s.autoexport))
            &&& r.last() == tag(EventKind::End, "stock"@, Seq::empty())
            &&& has_run_from(r, n, spec_content_elem("eqn"@, EventKind::CData, s.initial_equation@, Seq::empty()))
            &&& s.mathml_equation matches Some(m) ==> has_run_from(r, n, spec_content_elem("mathml"@, EventKind::Text, m@, Seq::empty()))
            &&& forall|j: int| 0 <= j < s.inflows@.len() ==> has_run_from(r, n, spec_content_elem("inflow"@, EventKind::Text, (#[trigger] s.inflows@[j])@, Seq::empty()))
            &&& forall|j: int| 0 <= j < s.outflows@.len() ==> has_run_from(r, n, spec_content_elem("outflow"@, EventKind::Text, (#[trigger] s.outflows@[j])@, Seq::empty()))
            &&& s.documentation matches Some(d) ==> has_run_from(r, n, spec_content_elem("doc"@, EventKind::Text, spec_doc_text(d), Seq::empty()))
            &&& s.units matches Some(u) ==> has_run_from(r, n, spec_content_elem("units"@, EventKind::Text, u@, Seq::empty()))
            &&& has_run_from(r, n, spec_non_negative_events(s.kind->non_negative))
            &&& s.range matches Some(x) ==> has_run_from(r, n, seq![spec_range_event(x)])
            &&& s.scale matches Some(x) ==> has_run_from(r, n, seq![spec_scale_event(x)])
            &&& s.format matches Some(x) ==> has_run_from(r, n, seq![spec_format_event(x)])
        }),
{
    let n = events.len() as int;
    let start = tag(EventKind::Start, "stock"@, spec_var_attrs(s.name@, s.access, s.autoexport));
    let e0 = events.push(start);
    let eqn = spec_content_elem("eqn"@, EventKind::CData, s.initial_equation@, Seq::empty());
    let e1 = e0 + eqn;
    let e2 = after_opt_text(e1, "mathml"@, opt_number_text(s.mathml_equation));
    let e3 = after_texts(e2, "inflow"@, s.inflows@);
    let e4 = after_texts(e3, "outflow"@, s.outflows@);
    let e5 = after_opt_text(e4, "doc"@, opt_doc_text(s.documentation));
    let e6 = after_opt_text(e5, "units"@, opt_number_text(s.units));
    let nn = spec_non_negative_events(s.kind->non_negative);
    let e7 = e6 + nn;
    let e8 = after_settings(e7, s.range, s.scale, s.format);
    let r = e8.push(tag(EventKind::End, "stock"@, Seq::empty()));
    assert(r == spec_after_stock(events, s));
    lemma_starts_with_push(events, events, start);
    lemma_starts_with_append(e0, e0, eqn);
    lemma_run_at_end(e0, eqn);
    lemma_opt_text_written(e1, "mathml"@, opt_number_text(s.mathml_equation));
    lemma_texts_written(e2, "inflow"@, s.inflows@);
    lemma_texts_written(e3, "outflow"@, s.outflows@);
    lemma_opt_text_written(e4, "doc"@, opt_doc_text(s.documentation));
    lemma_opt_text_written(e5, "units"@, opt_number_text(s.units));
    lemma_starts_with_append(e6, e6, nn);
    lemma_run_at_end(e6, nn);
    lemma_settings_written(e7, s.range, s.scale, s.format);
    lemma_starts_with_push(e8, e8, tag(EventKind::End, "stock"@, Seq::empty()));
    lemma_starts_with_trans(r, e8, e7);
    lemma_starts_with_trans(r, e7, e6);
    lemma_starts_with_trans(r, e6, e5);
    lemma_starts_with_trans(r, e5, e4);
    lemma_starts_with_trans(r, e4, e3);
    lemma_starts_with_trans(r, e3, e2);
    lemma_starts_with_trans(r, e2, e1);
    lemma_starts_with_trans(r, e1, e0);
    lemma_starts_with_trans(r, e0, events);
    assert(r[n] == e0[n]) by {
        assert(r.take(e0.len() as int)[n] == r[n]);
    }
    lemma_run_kept(e1, r, e0.len() as int, eqn);
    if let Some(m) = s.mathml_equation {
        lemma_run_kept(e2, r, e1.len() as int, spec_content_elem("mathml"@, EventKind::Text, m@, Seq::empty()));
    }
    assert forall|j: int| 0 <= j < s.inflows@.len() implies has_run_from(r, n, spec_content_elem("inflow"@, EventKind::Text, (#[trigger] s.inflows@[j])@, Seq::empty())) by {
        let part = spec_content_elem("inflow"@, EventKind::Text, s.inflows@[j]@, Seq::empty());
        assert(has_run_from(e3, e2.len() as int, part));
        let i = choose|i: int| e2.len() <= i && #[trigger] run_at(e3, i, part);
        lemma_run_kept(e3, r, i, part);
    }
    assert forall|j: int| 0 <= j < s.outflows@.len() implies has_run_from(r, n, spec_content_elem("outflow"@, EventKind::Text, (#[trigger] s.outflows@[j])@, Seq::empty())) by {
        let part = spec_content_elem("outflow"@, EventKind::Text, s.outflows@[j]@, Seq::empty());
        assert(has_run_from(e4, e3.len() as int, part));
        let i = choose|i: int| e3.len() <= i && #[trigger] run_at(e4, i, part);
        lemma_run_kept(e4, r, i, part);
    }
    if let Some(d) = s.documentation {
        lemma_run_kept(e5, r, e4.len() as int, spec_content_elem("doc"@, EventKind::Text, spec_doc_text(d), Seq::empty()));
    }
    if let Some(u) = s.units {
        lemma_run_kept(e6, r, e5.len() as int, spec_content_elem("units"@, EventKind::Text, u@, Seq::empty()));
    }
    lemma_run_kept(e7, r, e6.len() as int, nn);
    if let Some(x) = s.range {
        let i = choose|i: int| e7.len() <= i && #[trigger] run_at(e8, i, seq![spec_range_event(x)]);
        lemma_run_kept(e8, r, i, seq![spec_range_event(x)]);
    }
    if let Some(x) = s.scale {
        let i = choose|i: int| e7.len() <= i && #[trigger] run_at(e8, i, seq![spec_scale_event(x)]);
        lemma_run_kept(e8, r, i, seq![spec_scale_event(x)]);
    }
    if let Some(x) = s.format {
        let i = choose|i: int| e7.len() <= i && #[trigger] run_at(e8, i, seq![spec_format_event(x)]);
        lemma_run_kept(e8, r, i, seq![spec_format_event(x)]);
    }
}

/// A flow is written as a `flow` element, after what was written before, that holds, when
/// it has them, its equation, MathML equation, multiplier, documentation, units,
/// `non_negative` setting, range, scale and format.
pub proof fn lemma_flow_written(events: Seq<EventView>, f: FlowDefinition<String>)
    ensures
        ({
            let r = spec_after_flow(events, f);
            let n = events.len() as int;
            &&& starts_with(r, events)
            &&& r[n] == tag(EventKind::Start, "flow"@, spec_var_attrs(f.name@, f.access, f.autoexport))
            &&& r.last() == tag(EventKind::End, "flow"@, Seq::empty())
            &&& f.equation matches Some(q) ==> has_run_from(r, n, spec_content_elem("eqn"@, EventKind::CData, q@, Seq::empty()))
            &&& f.mathml_equation matches Some(m) ==> has_run_from(r, n, spec_content_elem("mathml"@, EventKind::Text, m@, Seq::empty()))
            &&& f.multiplier matches Some(m) ==> has_run_from(r, n, spec_content_elem("multiplier"@, EventKind::Text, m@, Seq::empty()))
            &&& f.documentation matches Some(d) ==> has_run_from(r, n, spec_content_elem("doc"@, EventKind::Text, spec_doc_text(d), Seq::empty()))
            &&& f.units matches Some(u) ==> has_run_from(r, n, spec_content_elem("units"@, EventKind::Text, u@, Seq::empty()))
            &&& has_run_from(r, n, spec_non_negative_events(f.non_negative))
            &&& f.range matches Some(x) ==> has_run_from(r, n, seq![spec_range_event(x)])
            &&& f.scale matches Some(x) ==> has_run_from(r, n, seq![spec_scale_event(x)])
            &&& f.format matches Some(x) ==> has_run_from(r, n, seq![spec_format_event(x)])
        }),
{
    let n = events.len() as int;
    let start = tag(EventKind::Start, "flow"@, spec_var_attrs(f.name@, f.access, f.autoexport));
    let e0 = events.push(start);
    let e1 = match f.equation {
        Some(q) => e0 + spec_content_elem("eqn"@, EventKind::CData, q@, Seq::empty()),
        None => e0,
    };
    let e2 = after_opt_text(e1, "mathml"@, opt_number_text(f.mathml_equation));
    let e3 = after_opt_text(e2, "multiplier"@, opt_number_text(f.multiplier));
    let e4 = after_opt_text(e3, "doc"@, opt_doc_text(f.documentation));
    let e5 = after_opt_text(e4, "units"@, opt_number_text(f.units));
    let nn = spec_non_negative_events(f.non_negative);
    let e6 = e5 + nn;
    let e7 = after_settings(e6, f.range, f.scale, f.format);
    let r = e7.push(tag(EventKind::End, "flow"@, Seq::empty()));
    assert(r == spec_after_flow(events, f));
    lemma_starts_with_push(events, events, start);
    lemma_starts_with_append(e0, e0, Seq::empty());
    assert(e0 + Seq::<EventView>::empty() =~= e0);
    if let Some(q) = f.equation {
        lemma_starts_with_append(e0, e0, spec_content_elem("eqn"@, EventKind::CData, q@, Seq::empty()));
        lemma_run_at_end(e0, spec_content_elem("eqn"@, EventKind::CData, q@, Seq::empty()));
    }
    lemma_opt_text_written(e1, "mathml"@, opt_number_text(f.mathml_equation));
    lemma_opt_text_written(e2, "multiplier"@, opt_number_text(f.multiplier));
    lemma_opt_text_written(e3, "doc"@, opt_doc_text(f.documentation));
    lemma_opt_text_written(e4, "units"@, opt_number_text(f.units));
    lemma_starts_with_append(e5, e5, nn);
    lemma_run_at_end(e5, nn);
    lemma_settings_written(e6, f.range, f.scale, f.format);
    lemma_starts_with_push(e7, e7, tag(EventKind::End, "flow"@, Seq::empty()));
    lemma_starts_with_trans(r, e7, e6);
    lemma_starts_with_trans(r, e6, e5);
    lemma_starts_with_trans(r, e5, e4);
    lemma_starts_with_trans(r, e4, e3);
    lemma_starts_with_trans(r, e3, e2);
    lemma_starts_with_trans(r, e2, e1);
    lemma_starts_with_trans(r, e1, e0);
    lemma_starts_with_trans(r, e0, events);
    assert(r[n] == e0[n]) by {
        assert(r.take(e0.len() as int)[n] == r[n]);
    }
    if let Some(q) = f.equation {
        lemma_run_kept(e1, r, e0.len() as int, spec_content_elem("eqn"@, EventKind::CData, q@, Seq::empty()));
    }
    if let Some(m) = f.mathml_equation {
        lemma_run_kept(e2, r, e1.len() as int, spec_content_elem("mathml"@, EventKind::Text, m@, Seq::empty()));
    }
    if let Some(m) = f.multiplier {
        lemma_run_kept(e3, r, e2.len() as int, spec_content_elem("multiplier"@, EventKind::Text, m@, Seq::empty()));
    }
    if let Some(d) = f.documentation {
        lemma_run_kept(e4, r, e3.len() as int, spec_content_elem("doc"@, EventKind::Text, spec_doc_text(d), Seq::empty()));
    }
    if let Some(u) = f.units {
        lemma_run_kept(e5, r, e4.len() as int, spec_content_elem("units"@, EventKind::Text, u@, Seq::empty()));
    }
    lemma_run_kept(e6, r, e5.len() as int, nn);
    if let Some(x) = f.range {
        let i = choose|i: int| e6.len() <= i && #[trigger] run_at(e7, i, seq![spec_range_event(x)]);
        lemma_run_kept(e7, r, i, seq![spec_range_event(x)]);
    }
    if let Some(x) = f.scale {
        let i = choose|i: int| e6.len() <= i && #[trigger] run_at(e7, i, seq![spec_scale_event(x)]);
        lemma_run_kept(e7, r, i, seq![spec_scale_event(x)]);
    }
    if let Some(x) = f.format {
        let i = choose|i: int| e6.len() <= i && #[trigger] run_at(e7, i, seq![spec_format_event(x)]);
        lemma_run_kept(e7, r, i, seq![spec_format_event(x)]);
    }
}

} // verus!
