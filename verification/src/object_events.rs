//! Writing the display objects of stocks, auxiliaries and modules (their identity, position
//! and size, their display attributes and label placement, and the shape they are drawn
//! with), of flows, aliases and groups, and of connectors (their ends and the points they
//! pass through). Numbers, colors, paddings and border widths are written as the text they are held
//! as.

use vstd::prelude::*;
use vstd::string::*;
use crate::button_events::{
    add_display_attrs_head, add_display_attrs_tail, has_display_attrs, lemma_display_attrs_written, lemma_has_display_attrs_kept,
    spec_display_attrs_head, spec_display_attrs_tail,
};
use crate::errors::opt_text;
use crate::model::Uid;
use crate::objects::{ConnectorObject, DisplayAttributes, Point};
use crate::ser::{
    has_run_from, lemma_contains_kept, lemma_starts_with_trans, run_at, spec_bool_text, spec_content_elem, starts_with, tag,
    AttrList, EventKind, EventView, XmlEmitter,
};
use crate::serialize::opt_str;
use crate::style::{lemma_push_opt_attr_kept, push_opt_attr};
use crate::text::spec_int_text;
use crate::view::{
    serialize_line_style, serialize_pointer, serialize_polarity, spec_line_style_text, spec_pointer_events, spec_polarity_text,
};

verus! {

/// The shape a display object is drawn with, its sizes as text.
#[derive(Debug)]
pub enum ShapeText {
    Rectangle { width: String, height: String, corner_radius: Option<String> },
    Circle { radius: String },
    NameOnly { width: Option<String>, height: Option<String> },
}

/// The attributes of a `shape` element: its type, then its sizes.
pub open spec fn spec_shape_attrs(s: ShapeText) -> Seq<(Seq<char>, Seq<char>)> {
    match s {
        ShapeText::Rectangle { width, height, corner_radius } => push_opt_attr(
            seq![("type"@, "rectangle"@), ("width"@, width@), ("height"@, height@)],
            "corner_radius"@,
            opt_text(corner_radius),
        ),
        ShapeText::Circle { radius } => seq![("type"@, "circle"@), ("radius"@, radius@)],
        ShapeText::NameOnly { width, height } => push_opt_attr(
            push_opt_attr(seq![("type"@, "name_only"@)], "width"@, opt_text(width)),
            "height"@,
            opt_text(height),
        ),
    }
}

/// Writes a shape as an empty `shape` element.
pub fn serialize_shape(emitter: &mut XmlEmitter, s: &ShapeText)
    ensures
        final(emitter)@ == old(emitter)@.push(tag(EventKind::Empty, "shape"@, spec_shape_attrs(*s))),
{
    let mut attrs = AttrList::new();
    match s {
        ShapeText::Rectangle { width, height, corner_radius } => {
            attrs.add("type", "rectangle");
            attrs.add("width", width.as_str());
            attrs.add("height", height.as_str());
            proof {
                assert(attrs@ =~= seq![("type"@, "rectangle"@), ("width"@, width@), ("height"@, height@)]);
            }
            attrs.add_opt("corner_radius", opt_str(corner_radius));
        },
        ShapeText::Circle { radius } => {
            attrs.add("type", "circle");
            attrs.add("radius", radius.as_str());
            proof {
                assert(attrs@ =~= seq![("type"@, "circle"@), ("radius"@, radius@)]);
            }
        },
        ShapeText::NameOnly { width, height } => {
            attrs.add("type", "name_only");
            proof {
                assert(attrs@ =~= seq![("type"@, "name_only"@)]);
            }
            attrs.add_opt("width", opt_str(width));
            attrs.add_opt("height", opt_str(height));
        },
    }
    emitter.empty_elem_with_attrs("shape", &attrs);
}

/// A stock's, auxiliary's or module's display object as written.
#[derive(Debug)]
pub struct PlacedObjectText {
    pub uid: Uid,
    pub name: String,
    pub x: Option<String>,
    pub y: Option<String>,
    pub width: Option<String>,
    pub height: Option<String>,
    pub display: DisplayAttributes<String, String, String, String>,
    pub shape: Option<ShapeText>,
}

/// `attrs` followed by the display attributes and then the label's side and angle, each
/// only when present.
pub open spec fn spec_object_display_attrs(
    attrs: Seq<(Seq<char>, Seq<char>)>,
    d: DisplayAttributes<String, String, String, String>,
) -> Seq<(Seq<char>, Seq<char>)> {
    let a = spec_display_attrs_tail(spec_display_attrs_head(attrs, d), d);
    push_opt_attr(push_opt_attr(a, "label_side"@, opt_text(d.label_side)), "label_angle"@, opt_text(d.label_angle))
}

fn add_object_display_attrs(attrs: &mut AttrList, d: &DisplayAttributes<String, String, String, String>)
    ensures
        final(attrs)@ == spec_object_display_attrs(old(attrs)@, *d),
{
    add_display_attrs_head(attrs, d);
    add_display_attrs_tail(attrs, d);
    attrs.add_opt("label_side", opt_str(&d.label_side));
    attrs.add_opt("label_angle", opt_str(&d.label_angle));
}

/// The attributes of a display object: its UID and name, then its size and position (the
/// size first when `size_first`, as for stocks), each only when present, then its display
/// attributes.
pub open spec fn spec_placed_object_attrs(o: PlacedObjectText, size_first: bool) -> Seq<(Seq<char>, Seq<char>)> {
    let base = seq![("uid"@, spec_int_text(o.uid.value as int)), ("name"@, o.name@)];
    let position = |s: Seq<(Seq<char>, Seq<char>)>| push_opt_attr(push_opt_attr(s, "x"@, opt_text(o.x)), "y"@, opt_text(o.y));
    let size = |s: Seq<(Seq<char>, Seq<char>)>| push_opt_attr(push_opt_attr(s, "width"@, opt_text(o.width)), "height"@, opt_text(o.height));
    let placed = if size_first {
        position(size(base))
    } else {
        size(position(base))
    };
    spec_object_display_attrs(placed, o.display)
}

fn placed_object_attributes(o: &PlacedObjectText, size_first: bool) -> (r: AttrList)
    ensures
        r@ == spec_placed_object_attrs(*o, size_first),
{
    let mut attrs = AttrList::new();
    attrs.add_i32("uid", o.uid.value);
    attrs.add("name", o.name.as_str());
    proof {
        assert(attrs@ =~= seq![("uid"@, spec_int_text(o.uid.value as int)), ("name"@, o.name@)]);
    }
    if size_first {
        attrs.add_opt("width", opt_str(&o.width));
        attrs.add_opt("height", opt_str(&o.height));
        attrs.add_opt("x", opt_str(&o.x));
        attrs.add_opt("y", opt_str(&o.y));
    } else {
        attrs.add_opt("x", opt_str(&o.x));
        attrs.add_opt("y", opt_str(&o.y));
        attrs.add_opt("width", opt_str(&o.width));
        attrs.add_opt("height", opt_str(&o.height));
    }
    add_object_display_attrs(&mut attrs, &o.display);
    attrs
}

/// The events of a display object named `name`: an element around its shape, or an empty
/// element when it has none.
pub open spec fn spec_placed_object_events(name: Seq<char>, o: PlacedObjectText, size_first: bool) -> Seq<EventView> {
    let attrs = spec_placed_object_attrs(o, size_first);
    match o.shape {
        Some(s) => seq![
            tag(EventKind::Start, name, attrs),
            tag(EventKind::Empty, "shape"@, spec_shape_attrs(s)),
            tag(EventKind::End, name, Seq::empty()),
        ],
        None => seq![tag(EventKind::Empty, name, attrs)],
    }
}

fn write_placed_object(emitter: &mut XmlEmitter, name: &str, o: &PlacedObjectText, size_first: bool)
    ensures
        final(emitter)@ == old(emitter)@ + spec_placed_object_events(name@, *o, size_first),
{
    let attrs = placed_object_attributes(o, size_first);
    match &o.shape {
        Some(s) => {
            let start = emitter.start_elem(name, &attrs);
            emitter.write_start(&start);
            serialize_shape(emitter, s);
            emitter.write_end(name);
        },
        None => {
            emitter.empty_elem_with_attrs(name, &attrs);
        },
    }
    proof {
        assert(emitter@ =~= old(emitter)@ + spec_placed_object_events(name@, *o, size_first));
    }
}

/// Writes a stock's display object: its size comes before its position.
pub fn serialize_stock_object(emitter: &mut XmlEmitter, o: &PlacedObjectText)
    ensures
        final(emitter)@ == old(emitter)@ + spec_placed_object_events("stock"@, *o, true),
{
    write_placed_object(emitter, "stock", o, true);
}

/// Writes an auxiliary's display object.
pub fn serialize_aux_object(emitter: &mut XmlEmitter, o: &PlacedObjectText)
    ensures
        final(emitter)@ == old(emitter)@ + spec_placed_object_events("aux"@, *o, false),
{
    write_placed_object(emitter, "aux", o, false);
}

/// Writes a module's display object.
pub fn serialize_module_object(emitter: &mut XmlEmitter, o: &PlacedObjectText)
    ensures
        final(emitter)@ == old(emitter)@ + spec_placed_object_events("module"@, *o, false),
{
    write_placed_object(emitter, "module", o, false);
}

/// A connector as written, with its display attributes.
#[derive(Debug)]
pub struct ConnectorText {
    pub connector: ConnectorObject<String>,
    pub display: DisplayAttributes<String, String, String, String>,
}

/// The attributes of a `connector` element: UID, position, angle and delay mark, the line
/// style and polarity when present, then the display attributes.
pub open spec fn spec_connector_attrs(c: ConnectorText) -> Seq<(Seq<char>, Seq<char>)> {
    let o = c.connector;
    let base = seq![
        ("uid"@, spec_int_text(o.uid.value as int)),
        ("x"@, o.x@),
        ("y"@, o.y@),
        ("angle"@, o.angle@),
        ("delay_mark"@, spec_bool_text(o.delay_mark)),
    ];
    let styled = push_opt_attr(
        push_opt_attr(
            base,
            "line_style"@,
            match o.line_style {
                Some(l) => Some(spec_line_style_text(l)),
                None => None,
            },
        ),
        "polarity"@,
        match o.polarity {
            Some(p) => Some(spec_polarity_text(p)),
            None => None,
        },
    );
    spec_display_attrs_tail(spec_display_attrs_head(styled, c.display), c.display)
}

fn connector_attributes(c: &ConnectorText) -> (r: AttrList)
    ensures
        r@ == spec_connector_attrs(*c),
{
    let o = &c.connector;
    let mut attrs = AttrList::new();
    attrs.add_i32("uid", o.uid.value);
    attrs.add("x", o.x.as_str());
    attrs.add("y", o.y.as_str());
    attrs.add("angle", o.angle.as_str());
    attrs.add_bool("delay_mark", o.delay_mark);
    proof {
        assert(attrs@ =~= seq![
            ("uid"@, spec_int_text(o.uid.value as int)),
            ("x"@, o.x@),
            ("y"@, o.y@),
            ("angle"@, o.angle@),
            ("delay_mark"@, spec_bool_text(o.delay_mark)),
        ]);
    }
    match &o.line_style {
        Some(l) => {
            let t = serialize_line_style(l);
            attrs.add("line_style", t.as_str());
        },
        None => {},
    }
    match &o.polarity {
        Some(p) => {
            attrs.add("polarity", serialize_polarity(p));
        },
        None => {},
    }
    add_display_attrs_head(&mut attrs, &c.display);
    add_display_attrs_tail(&mut attrs, &c.display);
    attrs
}

/// The empty `pt` elements of the points a connector passes through, in order.
pub open spec fn spec_points_events(pts: Seq<Point<String>>) -> Seq<EventView>
    decreases pts.len(),
{
    if pts.len() == 0 {
        Seq::empty()
    } else {
        spec_points_events(pts.drop_last()).push(
            tag(EventKind::Empty, "pt"@, seq![("x"@, pts.last().x@), ("y"@, pts.last().y@)]),
        )
    }
}

/// The events of a connector: its element holding `from`, `to` and `pts`.
pub open spec fn spec_connector_events(c: ConnectorText) -> Seq<EventView> {
    seq![tag(EventKind::Start, "connector"@, spec_connector_attrs(c))] + spec_container_events(
        "from"@,
        spec_pointer_events(c.connector.from),
    ) + spec_container_events("to"@, spec_pointer_events(c.connector.to)) + spec_container_events(
        "pts"@,
        spec_points_events(c.connector.pts@),
    ) + seq![tag(EventKind::End, "connector"@, Seq::empty())]
}

fn write_points(emitter: &mut XmlEmitter, pts: &Vec<Point<String>>)
    ensures
        final(emitter)@ == old(emitter)@ + spec_points_events(pts@),
{
    let ghost e0 = emitter@;
    let mut i: usize = 0;
    while i < pts.len()
        invariant
            i <= pts@.len(),
            emitter@ == e0 + spec_points_events(pts@.take(i as int)),
        decreases pts@.len() - i,
    {
        let mut attrs = AttrList::new();
        attrs.add("x", pts[i].x.as_str());
        attrs.add("y", pts[i].y.as_str());
        emitter.empty_elem_with_attrs("pt", &attrs);
        proof {
            assert(pts@.take(i + 1).drop_last() =~= pts@.take(i as int));
            assert(attrs@ =~= seq![("x"@, pts@[i as int].x@), ("y"@, pts@[i as int].y@)]);
        }
        i = i + 1;
    }
    proof {
        assert(pts@.take(i as int) =~= pts@);
    }
}

fn write_end_element(emitter: &mut XmlEmitter, name: &str, pointer: &crate::view::Pointer)
    ensures
        final(emitter)@ == old(emitter)@ + spec_container_events(name@, spec_pointer_events(*pointer)),
{
    let none = AttrList::new();
    let start = emitter.start_elem(name, &none);
    emitter.write_start(&start);
    serialize_pointer(emitter, pointer);
    emitter.write_end(name);
    proof {
        assert(emitter@ =~= old(emitter)@ + spec_container_events(name@, spec_pointer_events(*pointer)));
    }
}

/// Writes a connector display object.
pub fn serialize_connector_object(emitter: &mut XmlEmitter, c: &ConnectorText)
    ensures
        final(emitter)@ == old(emitter)@ + spec_connector_events(*c),
{
    let attrs = connector_attributes(c);
    let start = emitter.start_elem("connector", &attrs);
    emitter.write_start(&start);
    write_end_element(emitter, "from", &c.connector.from);
    write_end_element(emitter, "to", &c.connector.to);
    write_points_element(emitter, &c.connector.pts);
    emitter.write_end("connector");
    proof {
        assert(emitter@ =~= old(emitter)@ + spec_connector_events(*c));
    }
}

/// The events of an element named `name` holding `inner` and nothing else.
pub open spec fn spec_container_events(name: Seq<char>, inner: Seq<EventView>) -> Seq<EventView> {
    seq![tag(EventKind::Start, name, Seq::empty())] + inner + seq![tag(EventKind::End, name, Seq::empty())]
}

fn write_points_element(emitter: &mut XmlEmitter, pts: &Vec<Point<String>>)
    ensures
        final(emitter)@ == old(emitter)@ + spec_container_events("pts"@, spec_points_events(pts@)),
{
    let none = AttrList::new();
    let start = emitter.start_elem("pts", &none);
    emitter.write_start(&start);
    write_points(emitter, pts);
    emitter.write_end("pts");
    proof {
        assert(emitter@ =~= old(emitter)@ + spec_container_events("pts"@, spec_points_events(pts@)));
    }
}

/// A flow's display object as written: its pipe's points follow its attributes.
#[derive(Debug)]
pub struct FlowObjectText {
    pub uid: Uid,
    pub name: String,
    pub width: String,
    pub height: String,
    pub x: Option<String>,
    pub y: Option<String>,
    pub display: DisplayAttributes<String, String, String, String>,
    pub pts: Vec<Point<String>>,
}

/// The attributes of a flow's element: UID, name and size, the position when present, then
/// the display attributes and label placement.
pub open spec fn spec_flow_object_attrs(f: FlowObjectText) -> Seq<(Seq<char>, Seq<char>)> {
    let base = seq![("uid"@, spec_int_text(f.uid.value as int)), ("name"@, f.name@), ("width"@, f.width@), ("height"@, f.height@)];
    spec_object_display_attrs(push_opt_attr(push_opt_attr(base, "x"@, opt_text(f.x)), "y"@, opt_text(f.y)), f.display)
}

/// The events of a flow's display object: its element holding its `pts`.
pub open spec fn spec_flow_object_events(f: FlowObjectText) -> Seq<EventView> {
    seq![tag(EventKind::Start, "flow"@, spec_flow_object_attrs(f))] + spec_container_events("pts"@, spec_points_events(f.pts@))
        + seq![tag(EventKind::End, "flow"@, Seq::empty())]
}

/// Writes a flow's display object.
pub fn serialize_flow_object(emitter: &mut XmlEmitter, f: &FlowObjectText)
    ensures
        final(emitter)@ == old(emitter)@ + spec_flow_object_events(*f),
{
    let mut attrs = AttrList::new();
    attrs.add_i32("uid", f.uid.value);
    attrs.add("name", f.name.as_str());
    attrs.add("width", f.width.as_str());
    attrs.add("height", f.height.as_str());
    proof {
        assert(attrs@ =~= seq![("uid"@, spec_int_text(f.uid.value as int)), ("name"@, f.name@), ("width"@, f.width@), ("height"@, f.height@)]);
    }
    attrs.add_opt("x", opt_str(&f.x));
    attrs.add_opt("y", opt_str(&f.y));
    add_object_display_attrs(&mut attrs, &f.display);
    let start = emitter.start_elem("flow", &attrs);
    emitter.write_start(&start);
    write_points_element(emitter, &f.pts);
    emitter.write_end("flow");
    proof {
        assert(emitter@ =~= old(emitter)@ + spec_flow_object_events(*f));
    }
}

/// An alias's display object as written: what it stands for and its shape follow its
/// attributes.
#[derive(Debug)]
pub struct AliasText {
    pub uid: Uid,
    pub x: String,
    pub y: String,
    pub display: DisplayAttributes<String, String, String, String>,
    pub of: String,
    pub shape: Option<ShapeText>,
}

/// The attributes of an alias's element: UID and position, then the display attributes.
pub open spec fn spec_alias_object_attrs(a: AliasText) -> Seq<(Seq<char>, Seq<char>)> {
    let base = seq![("uid"@, spec_int_text(a.uid.value as int)), ("x"@, a.x@), ("y"@, a.y@)];
    spec_display_attrs_tail(spec_display_attrs_head(base, a.display), a.display)
}

/// The events of an alias's display object: its element holding `of` and then its shape.
pub open spec fn spec_alias_object_events(a: AliasText) -> Seq<EventView> {
    let shape = match a.shape {
        Some(s) => seq![tag(EventKind::Empty, "shape"@, spec_shape_attrs(s))],
        None => Seq::empty(),
    };
    seq![tag(EventKind::Start, "alias"@, spec_alias_object_attrs(a))] + spec_content_elem(
        "of"@,
        EventKind::Text,
        a.of@,
        Seq::empty(),
    ) + shape + seq![tag(EventKind::End, "alias"@, Seq::empty())]
}

/// Writes an alias's display object.
pub fn serialize_alias_object(emitter: &mut XmlEmitter, a: &AliasText)
    ensures
        final(emitter)@ == old(emitter)@ + spec_alias_object_events(*a),
{
    let mut attrs = AttrList::new();
    attrs.add_i32("uid", a.uid.value);
    attrs.add("x", a.x.as_str());
    attrs.add("y", a.y.as_str());
    proof {
        assert(attrs@ =~= seq![("uid"@, spec_int_text(a.uid.value as int)), ("x"@, a.x@), ("y"@, a.y@)]);
    }
    add_display_attrs_head(&mut attrs, &a.display);
    add_display_attrs_tail(&mut attrs, &a.display);
    let start = emitter.start_elem("alias", &attrs);
    emitter.write_start(&start);
    emitter.text_elem("of", a.of.as_str());
    let ghost e1 = emitter@;
    match &a.shape {
        Some(s) => serialize_shape(emitter, s),
        None => {},
    }
    let ghost e2 = emitter@;
    emitter.write_end("alias");
    proof {
        let a0 = *a;
        let shape = match a0.shape {
            Some(s) => seq![tag(EventKind::Empty, "shape"@, spec_shape_attrs(s))],
            None => Seq::<EventView>::empty(),
        };
        assert(e2 =~= e1 + shape);
        assert(emitter@ =~= old(emitter)@ + spec_alias_object_events(a0));
    }
}

/// A group's display object as written: the UIDs of the objects it holds follow its
/// attributes.
#[derive(Debug)]
pub struct GroupText {
    pub uid: Uid,
    pub name: String,
    pub x: String,
    pub y: String,
    pub locked: bool,
    pub display: DisplayAttributes<String, String, String, String>,
    pub items: Vec<Uid>,
}

/// The attributes of a group's element: UID, name, position and whether it is locked, then
/// the display attributes.
pub open spec fn spec_group_object_attrs(g: GroupText) -> Seq<(Seq<char>, Seq<char>)> {
    let base = seq![
        ("uid"@, spec_int_text(g.uid.value as int)),
        ("name"@, g.name@),
        ("x"@, g.x@),
        ("y"@, g.y@),
        ("locked"@, spec_bool_text(g.locked)),
    ];
    spec_display_attrs_tail(spec_display_attrs_head(base, g.display), g.display)
}

/// The empty `item` elements of the UIDs a group holds, in order.
pub open spec fn spec_item_events(items: Seq<Uid>) -> Seq<EventView>
    decreases items.len(),
{
    if items.len() == 0 {
        Seq::empty()
    } else {
        spec_item_events(items.drop_last()).push(
            tag(EventKind::Empty, "item"@, seq![("uid"@, spec_int_text(items.last().value as int))]),
        )
    }
}

/// The events of a group's display object: an element around its items, or an empty
/// element when it holds none.
pub open spec fn spec_group_object_events(g: GroupText) -> Seq<EventView> {
    if g.items@.len() == 0 {
        seq![tag(EventKind::Empty, "group"@, spec_group_object_attrs(g))]
    } else {
        seq![tag(EventKind::Start, "group"@, spec_group_object_attrs(g))] + spec_item_events(g.items@) + seq![
            tag(EventKind::End, "group"@, Seq::empty()),
        ]
    }
}

/// Writes a group's display object.
pub fn serialize_group_object(emitter: &mut XmlEmitter, g: &GroupText)
    ensures
        final(emitter)@ == old(emitter)@ + spec_group_object_events(*g),
{
    let mut attrs = AttrList::new();
    attrs.add_i32("uid", g.uid.value);
    attrs.add("name", g.name.as_str());
    attrs.add("x", g.x.as_str());
    attrs.add("y", g.y.as_str());
    attrs.add_bool("locked", g.locked);
    proof {
        assert(attrs@ =~= seq![
            ("uid"@, spec_int_text(g.uid.value as int)),
            ("name"@, g.name@),
            ("x"@, g.x@),
            ("y"@, g.y@),
            ("locked"@, spec_bool_text(g.locked)),
        ]);
    }
    add_display_attrs_head(&mut attrs, &g.display);
    add_display_attrs_tail(&mut attrs, &g.display);
    if g.items.len() == 0 {
        emitter.empty_elem_with_attrs("group", &attrs);
        proof {
            assert(emitter@ =~= old(emitter)@ + spec_group_object_events(*g));
        }
        return;
    }
    let start = emitter.start_elem("group", &attrs);
    emitter.write_start(&start);
    let ghost e0 = emitter@;
    let mut i: usize = 0;
    while i < g.items.len()
        invariant
            i <= g.items@.len(),
            emitter@ == e0 + spec_item_events(g.items@.take(i as int)),
        decreases g.items@.len() - i,
    {
        let mut item = AttrList::new();
        item.add_i32("uid", g.items[i].value);
        emitter.empty_elem_with_attrs("item", &item);
        proof {
            assert(g.items@.take(i + 1).drop_last() =~= g.items@.take(i as int));
            assert(item@ =~= seq![("uid"@, spec_int_text(g.items@[i as int].value as int))]);
        }
        i = i + 1;
    }
    proof {
        assert(g.items@.take(i as int) =~= g.items@);
    }
    emitter.write_end("group");
    proof {
        assert(emitter@ =~= old(emitter)@ + spec_group_object_events(*g));
    }
}


/// The display attributes and label placement written after `attrs` keep `attrs` before
/// them, and include each display attribute given, the label's side and its angle.
pub proof fn lemma_object_display_attrs_written(p: Seq<(Seq<char>, Seq<char>)>, d: DisplayAttributes<String, String, String, String>)
    ensures
        starts_with(spec_object_display_attrs(p, d), p),
        has_display_attrs(spec_object_display_attrs(p, d), d),
        d.label_side matches Some(t) ==> spec_object_display_attrs(p, d).contains(("label_side"@, t@)),
        d.label_angle matches Some(t) ==> spec_object_display_attrs(p, d).contains(("label_angle"@, t@)),
{
    let a = spec_display_attrs_tail(spec_display_attrs_head(p, d), d);
    let a1 = push_opt_attr(a, "label_side"@, opt_text(d.label_side));
    let a2 = push_opt_attr(a1, "label_angle"@, opt_text(d.label_angle));
    lemma_display_attrs_written(p, d);
    lemma_push_opt_attr_kept(a, "label_side"@, opt_text(d.label_side));
    lemma_push_opt_attr_kept(a1, "label_angle"@, opt_text(d.label_angle));
    lemma_starts_with_trans(a2, a1, a);
    lemma_starts_with_trans(a2, a, p);
    lemma_has_display_attrs_kept(a, a2, d);
    if let Some(t) = d.label_side {
        lemma_contains_kept(a1, a2, ("label_side"@, t@));
    }
}

/// Each point a connector or flow passes through is written, in order, as an empty `pt`
/// element with its coordinates.
pub proof fn lemma_points_written(pts: Seq<Point<String>>)
    ensures
        spec_points_events(pts).len() == pts.len(),
        forall|j: int| 0 <= j < pts.len() ==> #[trigger] spec_points_events(pts)[j] == tag(
            EventKind::Empty,
            "pt"@,
            seq![("x"@, pts[j].x@), ("y"@, pts[j].y@)],
        ),
    decreases pts.len(),
{
    if pts.len() > 0 {
        lemma_points_written(pts.drop_last());
        assert forall|j: int| 0 <= j < pts.len() implies #[trigger] spec_points_events(pts)[j] == tag(
            EventKind::Empty,
            "pt"@,
            seq![("x"@, pts[j].x@), ("y"@, pts[j].y@)],
        ) by {
            if j < pts.len() - 1 {
                assert(pts.drop_last()[j] == pts[j]);
            }
        }
    }
}

/// A flow's display object carries its UID, name and size, its position when it has one,
/// its display attributes and label placement, and holds its points.
pub proof fn lemma_flow_object_written(f: FlowObjectText)
    ensures
        ({
            let a = spec_flow_object_attrs(f);
            let e = spec_flow_object_events(f);
            &&& a.contains(("uid"@, spec_int_text(f.uid.value as int)))
            &&& a.contains(("name"@, f.name@))
            &&& a.contains(("width"@, f.width@))
            &&& a.contains(("height"@, f.height@))
            &&& f.x matches Some(t) ==> a.contains(("x"@, t@))
            &&& f.y matches Some(t) ==> a.contains(("y"@, t@))
            &&& has_display_attrs(a, f.display)
            &&& f.display.label_side matches Some(t) ==> a.contains(("label_side"@, t@))
            &&& f.display.label_angle matches Some(t) ==> a.contains(("label_angle"@, t@))
            &&& e[0] == tag(EventKind::Start, "flow"@, a)
            &&& e.last() == tag(EventKind::End, "flow"@, Seq::empty())
            &&& run_at(e, 1, spec_container_events("pts"@, spec_points_events(f.pts@)))
        }),
{
    let base = seq![("uid"@, spec_int_text(f.uid.value as int)), ("name"@, f.name@), ("width"@, f.width@), ("height"@, f.height@)];
    let b1 = push_opt_attr(base, "x"@, opt_text(f.x));
    let b2 = push_opt_attr(b1, "y"@, opt_text(f.y));
    let a = spec_flow_object_attrs(f);
    lemma_push_opt_attr_kept(base, "x"@, opt_text(f.x));
    lemma_push_opt_attr_kept(b1, "y"@, opt_text(f.y));
    lemma_object_display_attrs_written(b2, f.display);
    lemma_starts_with_trans(a, b2, b1);
    lemma_starts_with_trans(a, b1, base);
    assert(base[0] == ("uid"@, spec_int_text(f.uid.value as int)));
    assert(base[1] == ("name"@, f.name@));
    assert(base[2] == ("width"@, f.width@));
    assert(base[3] == ("height"@, f.height@));
    lemma_contains_kept(base, a, ("uid"@, spec_int_text(f.uid.value as int)));
    lemma_contains_kept(base, a, ("name"@, f.name@));
    lemma_contains_kept(base, a, ("width"@, f.width@));
    lemma_contains_kept(base, a, ("height"@, f.height@));
    if let Some(t) = f.x {
        lemma_contains_kept(b1, a, ("x"@, t@));
    }
    if let Some(t) = f.y {
        lemma_contains_kept(b2, a, ("y"@, t@));
    }
    let e = spec_flow_object_events(f);
    let c = spec_container_events("pts"@, spec_points_events(f.pts@));
    assert(e.subrange(1, (1 + c.len()) as int) =~= c);
}

/// The placed attributes of a stock's, auxiliary's or module's display object: UID and
/// name, the position and size it has, its display attributes and label placement.
pub open spec fn has_placed_attrs(a: Seq<(Seq<char>, Seq<char>)>, o: PlacedObjectText) -> bool {
    &&& a.contains(("uid"@, spec_int_text(o.uid.value as int)))
    &&& a.contains(("name"@, o.name@))
    &&& (o.x matches Some(t) ==> a.contains(("x"@, t@)))
    &&& (o.y matches Some(t) ==> a.contains(("y"@, t@)))
    &&& (o.width matches Some(t) ==> a.contains(("width"@, t@)))
    &&& (o.height matches Some(t) ==> a.contains(("height"@, t@)))
    &&& has_display_attrs(a, o.display)
    &&& (o.display.label_side matches Some(t) ==> a.contains(("label_side"@, t@)))
    &&& (o.display.label_angle matches Some(t) ==> a.contains(("label_angle"@, t@)))
}

/// A stock's, auxiliary's or module's display object is one element named for its kind
/// that carries all its placed attributes, whichever comes first of size and position, and
/// holds its shape when it has one.
pub proof fn lemma_placed_object_written(name: Seq<char>, o: PlacedObjectText, size_first: bool)
    ensures
        ({
            let a = spec_placed_object_attrs(o, size_first);
            let e = spec_placed_object_events(name, o, size_first);
            &&& has_placed_attrs(a, o)
            &&& o.shape is None ==> e == seq![tag(EventKind::Empty, name, a)]
            &&& o.shape matches Some(sh) ==> e == seq![
                tag(EventKind::Start, name, a),
                tag(EventKind::Empty, "shape"@, spec_shape_attrs(sh)),
                tag(EventKind::End, name, Seq::empty()),
            ]
        }),
{
    let base = seq![("uid"@, spec_int_text(o.uid.value as int)), ("name"@, o.name@)];
    let a = spec_placed_object_attrs(o, size_first);
    assert(base[0] == ("uid"@, spec_int_text(o.uid.value as int)));
    assert(base[1] == ("name"@, o.name@));
    let (k1, v1, k2, v2, k3, v3, k4, v4) = if size_first {
        ("width"@, o.width, "height"@, o.height, "x"@, o.x, "y"@, o.y)
    } else {
        ("x"@, o.x, "y"@, o.y, "width"@, o.width, "height"@, o.height)
    };
    let p1 = push_opt_attr(base, k1, opt_text(v1));
    let p2 = push_opt_attr(p1, k2, opt_text(v2));
    let p3 = push_opt_attr(p2, k3, opt_text(v3));
    let p4 = push_opt_attr(p3, k4, opt_text(v4));
    assert(a == spec_object_display_attrs(p4, o.display));
    lemma_push_opt_attr_kept(base, k1, opt_text(v1));
    lemma_push_opt_attr_kept(p1, k2, opt_text(v2));
    lemma_push_opt_attr_kept(p2, k3, opt_text(v3));
    lemma_push_opt_attr_kept(p3, k4, opt_text(v4));
    lemma_object_display_attrs_written(p4, o.display);
    lemma_starts_with_trans(a, p4, p3);
    lemma_starts_with_trans(a, p3, p2);
    lemma_starts_with_trans(a, p2, p1);
    lemma_starts_with_trans(a, p1, base);
    lemma_contains_kept(base, a, ("uid"@, spec_int_text(o.uid.value as int)));
    lemma_contains_kept(base, a, ("name"@, o.name@));
    if let Some(t) = v1 {
        lemma_contains_kept(p1, a, (k1, t@));
    }
    if let Some(t) = v2 {
        lemma_contains_kept(p2, a, (k2, t@));
    }
    if let Some(t) = v3 {
        lemma_contains_kept(p3, a, (k3, t@));
    }
    if let Some(t) = v4 {
        lemma_contains_kept(p4, a, (k4, t@));
    }
}

/// A shape element names its type and carries the sizes it has.
pub proof fn lemma_shape_written(sh: ShapeText)
    ensures
        match sh {
            ShapeText::Rectangle { width, height, corner_radius } => {
                let a = spec_shape_attrs(sh);
                &&& a[0] == ("type"@, "rectangle"@)
                &&& a.contains(("width"@, width@))
                &&& a.contains(("height"@, height@))
                &&& corner_radius matches Some(r) ==> a.contains(("corner_radius"@, r@))
            },
            ShapeText::Circle { radius } => spec_shape_attrs(sh) == seq![("type"@, "circle"@), ("radius"@, radius@)],
            ShapeText::NameOnly { width, height } => {
                let a = spec_shape_attrs(sh);
                &&& a[0] == ("type"@, "name_only"@)
                &&& width matches Some(w) ==> a.contains(("width"@, w@))
                &&& height matches Some(h) ==> a.contains(("height"@, h@))
            },
        },
{
    match sh {
        ShapeText::Rectangle { width, height, corner_radius } => {
            let base = seq![("type"@, "rectangle"@), ("width"@, width@), ("height"@, height@)];
            lemma_push_opt_attr_kept(base, "corner_radius"@, opt_text(corner_radius));
            assert(base[1] == ("width"@, width@));
            assert(base[2] == ("height"@, height@));
            lemma_contains_kept(base, spec_shape_attrs(sh), ("width"@, width@));
            lemma_contains_kept(base, spec_shape_attrs(sh), ("height"@, height@));
            assert(spec_shape_attrs(sh).take(3)[0] == spec_shape_attrs(sh)[0]);
        },
        ShapeText::Circle { radius } => {},
        ShapeText::NameOnly { width, height } => {
            let base = seq![("type"@, "name_only"@)];
            let b1 = push_opt_attr(base, "width"@, opt_text(width));
            lemma_push_opt_attr_kept(base, "width"@, opt_text(width));
            lemma_push_opt_attr_kept(b1, "height"@, opt_text(height));
            let a = spec_shape_attrs(sh);
            lemma_starts_with_trans(a, b1, base);
            if let Some(w) = width {
                lemma_contains_kept(b1, a, ("width"@, w@));
            }
            assert(a.take(1)[0] == a[0]);
        },
    }
}


/// Each UID a group holds is written, in order, as an empty `item` element carrying it.
pub proof fn lemma_items_written(items: Seq<Uid>)
    ensures
        spec_item_events(items).len() == items.len(),
        forall|j: int| 0 <= j < items.len() ==> #[trigger] spec_item_events(items)[j] == tag(
            EventKind::Empty,
            "item"@,
            seq![("uid"@, spec_int_text(items[j].value as int))],
        ),
    decreases items.len(),
{
    if items.len() > 0 {
        lemma_items_written(items.drop_last());
        assert forall|j: int| 0 <= j < items.len() implies #[trigger] spec_item_events(items)[j] == tag(
            EventKind::Empty,
            "item"@,
            seq![("uid"@, spec_int_text(items[j].value as int))],
        ) by {
            if j < items.len() - 1 {
                assert(items.drop_last()[j] == items[j]);
            }
        }
    }
}

/// A group's display object carries its UID, name, position, whether it is locked and its
/// display attributes; it is an empty element when it holds nothing, and otherwise holds
/// its items.
pub proof fn lemma_group_object_written(g: GroupText)
    ensures
        ({
            let a = spec_group_object_attrs(g);
            let e = spec_group_object_events(g);
            &&& a.contains(("uid"@, spec_int_text(g.uid.value as int)))
            &&& a.contains(("name"@, g.name@))
            &&& a.contains(("x"@, g.x@))
            &&& a.contains(("y"@, g.y@))
            &&& a.contains(("locked"@, spec_bool_text(g.locked)))
            &&& has_display_attrs(a, g.display)
            &&& g.items@.len() == 0 ==> e == seq![tag(EventKind::Empty, "group"@, a)]
            &&& g.items@.len() > 0 ==> {
                &&& e[0] == tag(EventKind::Start, "group"@, a)
                &&& e.last() == tag(EventKind::End, "group"@, Seq::empty())
                &&& run_at(e, 1, spec_item_events(g.items@))
            }
        }),
{
    let base = seq![
        ("uid"@, spec_int_text(g.uid.value as int)),
        ("name"@, g.name@),
        ("x"@, g.x@),
        ("y"@, g.y@),
        ("locked"@, spec_bool_text(g.locked)),
    ];
    let a = spec_group_object_attrs(g);
    lemma_display_attrs_written(base, g.display);
    assert(base[0] == ("uid"@, spec_int_text(g.uid.value as int)));
    assert(base[1] == ("name"@, g.name@));
    assert(base[2] == ("x"@, g.x@));
    assert(base[3] == ("y"@, g.y@));
    assert(base[4] == ("locked"@, spec_bool_text(g.locked)));
    lemma_contains_kept(base, a, ("uid"@, spec_int_text(g.uid.value as int)));
    lemma_contains_kept(base, a, ("name"@, g.name@));
    lemma_contains_kept(base, a, ("x"@, g.x@));
    lemma_contains_kept(base, a, ("y"@, g.y@));
    lemma_contains_kept(base, a, ("locked"@, spec_bool_text(g.locked)));
    if g.items@.len() > 0 {
        let e = spec_group_object_events(g);
        let it = spec_item_events(g.items@);
        assert(e.subrange(1, (1 + it.len()) as int) =~= it);
    }
}

/// An alias's display object carries its UID, position and display attributes, and holds
/// an `of` element naming what it stands for, then its shape when it has one.
pub proof fn lemma_alias_object_written(x: AliasText)
    ensures
        ({
            let a = spec_alias_object_attrs(x);
            let e = spec_alias_object_events(x);
            &&& a.contains(("uid"@, spec_int_text(x.uid.value as int)))
            &&& a.contains(("x"@, x.x@))
            &&& a.contains(("y"@, x.y@))
            &&& has_display_attrs(a, x.display)
            &&& e[0] == tag(EventKind::Start, "alias"@, a)
            &&& run_at(e, 1, spec_content_elem("of"@, EventKind::Text, x.of@, Seq::empty()))
            &&& x.shape matches Some(sh) ==> e[4] == tag(EventKind::Empty, "shape"@, spec_shape_attrs(sh))
            &&& e.last() == tag(EventKind::End, "alias"@, Seq::empty())
        }),
{
    let base = seq![("uid"@, spec_int_text(x.uid.value as int)), ("x"@, x.x@), ("y"@, x.y@)];
    let a = spec_alias_object_attrs(x);
    lemma_display_attrs_written(base, x.display);
    assert(base[0] == ("uid"@, spec_int_text(x.uid.value as int)));
    assert(base[1] == ("x"@, x.x@));
    assert(base[2] == ("y"@, x.y@));
    lemma_contains_kept(base, a, ("uid"@, spec_int_text(x.uid.value as int)));
    lemma_contains_kept(base, a, ("x"@, x.x@));
    lemma_contains_kept(base, a, ("y"@, x.y@));
    let e = spec_alias_object_events(x);
    assert(e.subrange(1, 4) =~= spec_content_elem("of"@, EventKind::Text, x.of@, Seq::empty()));
}

/// A connector's element carries its UID, position, angle and delay mark, its line style
/// and polarity when it has them, and its display attributes; it holds its `from` end, its
/// `to` end and its points, in that order.
pub proof fn lemma_connector_written(c: ConnectorText)
    ensures
        ({
            let o = c.connector;
            let a = spec_connector_attrs(c);
            let e = spec_connector_events(c);
            let from = spec_container_events("from"@, spec_pointer_events(o.from));
            let to = spec_container_events("to"@, spec_pointer_events(o.to));
            &&& a.contains(("uid"@, spec_int_text(o.uid.value as int)))
            &&& a.contains(("x"@, o.x@))
            &&& a.contains(("y"@, o.y@))
            &&& a.contains(("angle"@, o.angle@))
            &&& a.contains(("delay_mark"@, spec_bool_text(o.delay_mark)))
            &&& o.line_style matches Some(l) ==> a.contains(("line_style"@, spec_line_style_text(l)))
            &&& o.polarity matches Some(p) ==> a.contains(("polarity"@, spec_polarity_text(p)))
            &&& has_display_attrs(a, c.display)
            &&& e[0] == tag(EventKind::Start, "connector"@, a)
            &&& run_at(e, 1, from)
            &&& run_at(e, (1 + from.len()) as int, to)
            &&& run_at(e, (1 + from.len() + to.len()) as int, spec_container_events("pts"@, spec_points_events(o.pts@)))
            &&& e.last() == tag(EventKind::End, "connector"@, Seq::empty())
        }),
{
    let o = c.connector;
    let base = seq![
        ("uid"@, spec_int_text(o.uid.value as int)),
        ("x"@, o.x@),
        ("y"@, o.y@),
        ("angle"@, o.angle@),
        ("delay_mark"@, spec_bool_text(o.delay_mark)),
    ];
    let ls = match o.line_style {
        Some(l) => Some(spec_line_style_text(l)),
        None => None,
    };
    let pol = match o.polarity {
        Some(p) => Some(spec_polarity_text(p)),
        None => None,
    };
    let b1 = push_opt_attr(base, "line_style"@, ls);
    let b2 = push_opt_attr(b1, "polarity"@, pol);
    let a = spec_connector_attrs(c);
    lemma_push_opt_attr_kept(base, "line_style"@, ls);
    lemma_push_opt_attr_kept(b1, "polarity"@, pol);
    lemma_display_attrs_written(b2, c.display);
    lemma_starts_with_trans(a, b2, b1);
    lemma_starts_with_trans(a, b1, base);
    assert(base[0] == ("uid"@, spec_int_text(o.uid.value as int)));
    assert(base[1] == ("x"@, o.x@));
    assert(base[2] == ("y"@, o.y@));
    assert(base[3] == ("angle"@, o.angle@));
    assert(base[4] == ("delay_mark"@, spec_bool_text(o.delay_mark)));
    lemma_contains_kept(base, a, ("uid"@, spec_int_text(o.uid.value as int)));
    lemma_contains_kept(base, a, ("x"@, o.x@));
    lemma_contains_kept(base, a, ("y"@, o.y@));
    lemma_contains_kept(base, a, ("angle"@, o.angle@));
    lemma_contains_kept(base, a, ("delay_mark"@, spec_bool_text(o.delay_mark)));
    if let Some(l) = o.line_style {
        lemma_contains_kept(b1, a, ("line_style"@, spec_line_style_text(l)));
    }
    let e = spec_connector_events(c);
    let from = spec_container_events("from"@, spec_pointer_events(o.from));
    let to = spec_container_events("to"@, spec_pointer_events(o.to));
    let pts = spec_container_events("pts"@, spec_points_events(o.pts@));
    let st = seq![tag(EventKind::Start, "connector"@, a)];
    assert(e =~= st + from + to + pts + seq![tag(EventKind::End, "connector"@, Seq::empty())]);
    assert(e.subrange(1, (1 + from.len()) as int) =~= from);
    assert(e.subrange((1 + from.len()) as int, (1 + from.len() + to.len()) as int) =~= to);
    assert(e.subrange((1 + from.len() + to.len()) as int, (1 + from.len() + to.len() + pts.len()) as int) =~= pts);
}

} // verus!
