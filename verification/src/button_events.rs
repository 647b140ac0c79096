//! Writing a button display object: its own attributes, its display attributes, and the
//! image, link, menu action and switch action it holds. Numbers, colors, paddings and border
//! widths are written as the text they are held as.

use vstd::prelude::*;
use vstd::string::*;
use crate::actions::{serialize_menu_action, spec_menu_action_events, MenuAction, ReadErrorSpec};
use crate::de::{key_absent, lemma_absent_key_unset, lemma_attribute_read_back, lemma_bool_attribute_round_trip, lemma_push_opt_get, pairs_map, spec_get, Attrs};
use crate::errors::opt_text;
use crate::links::{lemma_get_ignores_suffix, serialize_link, spec_link_attrs, LinkText};
use crate::objects::{
    bounds_match, spec_button_attrs_error, spec_button_attrs_read, spec_button_missing, BoundsNumbers, ButtonAttrs, ButtonHeader,
    DisplayAttributes, ImageContent, SwitchAction,
};
use crate::ser::{
    has_run_from, lemma_contains_kept, lemma_starts_with_append, lemma_starts_with_trans, run_at, spec_bool_text, starts_with, tag,
    AttrList, EventKind,
    EventView, XmlEmitter,
};
use crate::serialize::opt_str;
use crate::style::{
    opt_border_style_text, opt_font_size_text, opt_font_style_text, opt_font_weight_text, opt_text_align_text,
    opt_text_decoration_text, opt_vertical_text_align_text, opt_z_index_text, push_opt_attr, lemma_push_opt_attr_kept,
};
use crate::text::{lemma_parse_int_text, spec_int_text};
use crate::view::{
    serialize_border_style, serialize_button_appearance, serialize_button_style, serialize_font_style, serialize_font_weight,
    serialize_text_align, serialize_text_decoration, serialize_vertical_text_align, spec_button_appearance_text,
    lemma_button_appearance_round_trip, lemma_button_style_round_trip, spec_button_style_text, spec_border_style_text,
    spec_font_style_text, spec_font_weight_text, spec_text_align_text, spec_text_decoration_text, spec_vertical_text_align_text,
};

verus! {

/// A button as written. The popup content a button may also show is not held here.
#[derive(Debug)]
pub struct ButtonText {
    pub header: ButtonHeader<String>,
    pub display: DisplayAttributes<String, String, String, String>,
    pub image: Option<ImageContent<String>>,
    pub link: Option<LinkText>,
    pub menu_action: Option<MenuAction>,
    pub switch_action: Option<SwitchAction<String>>,
}

/// `attrs` followed by the display attributes from color to text decoration, each only when
/// present; a font size is written with the unit `pt`.
pub open spec fn spec_display_attrs_head(
    attrs: Seq<(Seq<char>, Seq<char>)>,
    d: DisplayAttributes<String, String, String, String>,
) -> Seq<(Seq<char>, Seq<char>)> {
    let a0 = push_opt_attr(attrs, "color"@, opt_text(d.color));
    let a1 = push_opt_attr(a0, "background"@, opt_text(d.background));
    let a2 = push_opt_attr(a1, "z_index"@, opt_z_index_text(d.z_index));
    let a3 = push_opt_attr(a2, "font_family"@, opt_text(d.font_family));
    let a4 = push_opt_attr(a3, "font_size"@, opt_font_size_text(d.font_size));
    let a5 = push_opt_attr(a4, "font_weight"@, opt_font_weight_text(d.font_weight));
    let a6 = push_opt_attr(a5, "font_style"@, opt_font_style_text(d.font_style));
    push_opt_attr(a6, "text_decoration"@, opt_text_decoration_text(d.text_decoration))
}

pub(crate) fn add_display_attrs_head(attrs: &mut AttrList, d: &DisplayAttributes<String, String, String, String>)
    ensures
        final(attrs)@ == spec_display_attrs_head(old(attrs)@, *d),
{
    attrs.add_opt("color", opt_str(&d.color));
    attrs.add_opt("background", opt_str(&d.background));
    attrs.add_opt_i32("z_index", d.z_index);
    attrs.add_opt("font_family", opt_str(&d.font_family));
    match &d.font_size {
        Some(v) => {
            let mut text = String::from_str(v.as_str());
            text.append("pt");
            attrs.add("font_size", text.as_str());
        },
        None => {},
    }
    match &d.font_weight {
        Some(v) => {
            attrs.add("font_weight", serialize_font_weight(v));
        },
        None => {},
    }
    match &d.font_style {
        Some(v) => {
            attrs.add("font_style", serialize_font_style(v));
        },
        None => {},
    }
    match &d.text_decoration {
        Some(v) => {
            attrs.add("text_decoration", serialize_text_decoration(v));
        },
        None => {},
    }
}

/// `attrs` followed by the display attributes from text alignment to text border style,
/// each only when present.
pub open spec fn spec_display_attrs_tail(
    attrs: Seq<(Seq<char>, Seq<char>)>,
    d: DisplayAttributes<String, String, String, String>,
) -> Seq<(Seq<char>, Seq<char>)> {
    let a0 = push_opt_attr(attrs, "text_align"@, opt_text_align_text(d.text_align));
    let a1 = push_opt_attr(a0, "text_background"@, opt_text(d.text_background));
    let a2 = push_opt_attr(a1, "vertical_text_align"@, opt_vertical_text_align_text(d.vertical_text_align));
    let a3 = push_opt_attr(a2, "text_padding"@, opt_text(d.text_padding));
    let a4 = push_opt_attr(a3, "font_color"@, opt_text(d.font_color));
    let a5 = push_opt_attr(a4, "text_border_color"@, opt_text(d.text_border_color));
    let a6 = push_opt_attr(a5, "text_border_width"@, opt_text(d.text_border_width));
    push_opt_attr(a6, "text_border_style"@, opt_border_style_text(d.text_border_style))
}

pub(crate) fn add_display_attrs_tail(attrs: &mut AttrList, d: &DisplayAttributes<String, String, String, String>)
    ensures
        final(attrs)@ == spec_display_attrs_tail(old(attrs)@, *d),
{
    match &d.text_align {
        Some(v) => {
            attrs.add("text_align", serialize_text_align(v));
        },
        None => {},
    }
    attrs.add_opt("text_background", opt_str(&d.text_background));
    match &d.vertical_text_align {
        Some(v) => {
            attrs.add("vertical_text_align", serialize_vertical_text_align(v));
        },
        None => {},
    }
    attrs.add_opt("text_padding", opt_str(&d.text_padding));
    attrs.add_opt("font_color", opt_str(&d.font_color));
    attrs.add_opt("text_border_color", opt_str(&d.text_border_color));
    attrs.add_opt("text_border_width", opt_str(&d.text_border_width));
    match &d.text_border_style {
        Some(v) => {
            attrs.add("text_border_style", serialize_border_style(v));
        },
        None => {},
    }
}

/// The attributes of a `button` element in the order they are written: the UID, position,
/// size, appearance, style and whether it clicks, then the label and sound when present,
/// then the display attributes.
pub open spec fn spec_button_attrs(b: ButtonText) -> Seq<(Seq<char>, Seq<char>)> {
    let h = b.header;
    let own = seq![
        ("uid"@, spec_int_text(h.uid.value as int)),
        ("x"@, h.x@),
        ("y"@, h.y@),
        ("width"@, h.width@),
        ("height"@, h.height@),
        ("appearance"@, spec_button_appearance_text(h.appearance)),
        ("style"@, spec_button_style_text(h.style)),
        ("clicking_sound"@, spec_bool_text(h.clicking_sound)),
    ];
    let named = push_opt_attr(push_opt_attr(own, "label"@, opt_text(h.label)), "sound"@, opt_text(h.sound));
    spec_display_attrs_tail(spec_display_attrs_head(named, b.display), b.display)
}

/// Builds the attribute list of a button's element.
pub fn button_attributes(b: &ButtonText) -> (r: AttrList)
    ensures
        r@ == spec_button_attrs(*b),
{
    let h = &b.header;
    let mut attrs = AttrList::new();
    attrs.add_i32("uid", h.uid.value);
    attrs.add("x", h.x.as_str());
    attrs.add("y", h.y.as_str());
    attrs.add("width", h.width.as_str());
    attrs.add("height", h.height.as_str());
    attrs.add("appearance", serialize_button_appearance(&h.appearance));
    attrs.add("style", serialize_button_style(&h.style));
    attrs.add_bool("clicking_sound", h.clicking_sound);
    proof {
        let own = seq![
            ("uid"@, spec_int_text(h.uid.value as int)),
            ("x"@, h.x@),
            ("y"@, h.y@),
            ("width"@, h.width@),
            ("height"@, h.height@),
            ("appearance"@, spec_button_appearance_text(h.appearance)),
            ("style"@, spec_button_style_text(h.style)),
            ("clicking_sound"@, spec_bool_text(h.clicking_sound)),
        ];
        assert(attrs@ =~= own);
    }
    attrs.add_opt("label", opt_str(&h.label));
    attrs.add_opt("sound", opt_str(&h.sound));
    add_display_attrs_head(&mut attrs, &b.display);
    add_display_attrs_tail(&mut attrs, &b.display);
    attrs
}

/// The attributes of an `image` element: whether it fits its parent, its size, then its
/// resource and data when present.
pub open spec fn spec_image_attrs(i: ImageContent<String>) -> Seq<(Seq<char>, Seq<char>)> {
    let base = seq![("size_to_parent"@, spec_bool_text(i.size_to_parent)), ("width"@, i.width@), ("height"@, i.height@)];
    push_opt_attr(push_opt_attr(base, "resource"@, opt_text(i.resource)), "data"@, opt_text(i.data))
}

fn image_attributes(i: &ImageContent<String>) -> (r: AttrList)
    ensures
        r@ == spec_image_attrs(*i),
{
    let mut attrs = AttrList::new();
    attrs.add_bool("size_to_parent", i.size_to_parent);
    attrs.add("width", i.width.as_str());
    attrs.add("height", i.height.as_str());
    proof {
        assert(attrs@ =~= seq![("size_to_parent"@, spec_bool_text(i.size_to_parent)), ("width"@, i.width@), ("height"@, i.height@)]);
    }
    attrs.add_opt("resource", opt_str(&i.resource));
    attrs.add_opt("data", opt_str(&i.data));
    attrs
}

/// The attributes of a `switch_action` element: its value, then the entity, group and module
/// names when present.
pub open spec fn spec_switch_action_attrs(s: SwitchAction<String>) -> Seq<(Seq<char>, Seq<char>)> {
    let a0 = push_opt_attr(seq![("value"@, s.value@)], "entity_name"@, opt_text(s.entity_name));
    push_opt_attr(push_opt_attr(a0, "group_name"@, opt_text(s.group_name)), "module_name"@, opt_text(s.module_name))
}

/// Writes a switch action as an empty `switch_action` element.
pub fn serialize_switch_action(emitter: &mut XmlEmitter, s: &SwitchAction<String>)
    ensures
        final(emitter)@ == old(emitter)@.push(tag(EventKind::Empty, "switch_action"@, spec_switch_action_attrs(*s))),
{
    let mut attrs = AttrList::new();
    attrs.add("value", s.value.as_str());
    proof {
        assert(attrs@ =~= seq![("value"@, s.value@)]);
    }
    attrs.add_opt("entity_name", opt_str(&s.entity_name));
    attrs.add_opt("group_name", opt_str(&s.group_name));
    attrs.add_opt("module_name", opt_str(&s.module_name));
    emitter.empty_elem_with_attrs("switch_action", &attrs);
}

/// Whether a button holds anything besides its attributes.
pub open spec fn spec_button_has_content(b: ButtonText) -> bool {
    b.image is Some || b.link is Some || b.menu_action is Some || b.switch_action is Some
}

/// The events of what a button holds, in the order image, link, menu action, switch action.
pub open spec fn spec_button_content(b: ButtonText) -> Seq<EventView> {
    let image = match b.image {
        Some(i) => seq![tag(EventKind::Empty, "image"@, spec_image_attrs(i))],
        None => Seq::empty(),
    };
    let link = match b.link {
        Some(l) => seq![tag(EventKind::Empty, "link"@, spec_link_attrs(l))],
        None => Seq::empty(),
    };
    let menu = match b.menu_action {
        Some(m) => spec_menu_action_events(m@),
        None => Seq::empty(),
    };
    let switch = match b.switch_action {
        Some(s) => seq![tag(EventKind::Empty, "switch_action"@, spec_switch_action_attrs(s))],
        None => Seq::empty(),
    };
    image + link + menu + switch
}

/// The events of a button: an element around what it holds, or an empty element when it
/// holds nothing.
pub open spec fn spec_button_events(b: ButtonText) -> Seq<EventView> {
    if spec_button_has_content(b) {
        seq![tag(EventKind::Start, "button"@, spec_button_attrs(b))] + spec_button_content(b) + seq![
            tag(EventKind::End, "button"@, Seq::empty()),
        ]
    } else {
        seq![tag(EventKind::Empty, "button"@, spec_button_attrs(b))]
    }
}

/// Writes a button display object.
pub fn serialize_button_object(emitter: &mut XmlEmitter, b: &ButtonText)
    ensures
        final(emitter)@ == old(emitter)@ + spec_button_events(*b),
{
    let attrs = button_attributes(b);
    let has_content = b.image.is_some() || b.link.is_some() || b.menu_action.is_some() || b.switch_action.is_some();
    if !has_content {
        emitter.empty_elem_with_attrs("button", &attrs);
        proof {
            assert(emitter@ =~= old(emitter)@ + spec_button_events(*b));
        }
        return;
    }
    let start = emitter.start_elem("button", &attrs);
    emitter.write_start(&start);
    let ghost e0 = emitter@;
    match &b.image {
        Some(i) => {
            let ia = image_attributes(i);
            emitter.empty_elem_with_attrs("image", &ia);
        },
        None => {},
    }
    let ghost e1 = emitter@;
    match &b.link {
        Some(l) => serialize_link(emitter, l),
        None => {},
    }
    let ghost e2 = emitter@;
    match &b.menu_action {
        Some(m) => serialize_menu_action(emitter, m),
        None => {},
    }
    let ghost e3 = emitter@;
    match &b.switch_action {
        Some(s) => serialize_switch_action(emitter, s),
        None => {},
    }
    let ghost e4 = emitter@;
    emitter.write_end("button");
    proof {
        let b0 = *b;
        let image = match b0.image {
            Some(i) => seq![tag(EventKind::Empty, "image"@, spec_image_attrs(i))],
            None => Seq::<EventView>::empty(),
        };
        let link = match b0.link {
            Some(l) => seq![tag(EventKind::Empty, "link"@, spec_link_attrs(l))],
            None => Seq::<EventView>::empty(),
        };
        let menu = match b0.menu_action {
            Some(m) => spec_menu_action_events(m@),
            None => Seq::<EventView>::empty(),
        };
        let switch = match b0.switch_action {
            Some(s) => seq![tag(EventKind::Empty, "switch_action"@, spec_switch_action_attrs(s))],
            None => Seq::<EventView>::empty(),
        };
        assert(e1 =~= e0 + image);
        assert(e2 =~= e1 + link);
        assert(e3 =~= e2 + menu);
        assert(e4 =~= e3 + switch);
        assert(e0 =~= old(emitter)@.push(tag(EventKind::Start, "button"@, spec_button_attrs(b0))));
        assert(spec_button_content(b0) == image + link + menu + switch);
        assert(emitter@ =~= old(emitter)@ + spec_button_events(b0));
    }
}

/// Pushing an optional attribute after a list that follows `p` is following `p` with the
/// pushed list.
proof fn lemma_push_opt_append(p: Seq<(Seq<char>, Seq<char>)>, q: Seq<(Seq<char>, Seq<char>)>, key: Seq<char>, v: Option<Seq<char>>)
    ensures
        push_opt_attr(p + q, key, v) == p + push_opt_attr(q, key, v),
{
    if let Some(t) = v {
        assert((p + q).push((key, t)) =~= p + q.push((key, t)));
    }
}

/// The display attributes' own keys.
pub open spec fn is_display_key(k: Seq<char>) -> bool {
    ||| k == "color"@
    ||| k == "background"@
    ||| k == "z_index"@
    ||| k == "font_family"@
    ||| k == "font_size"@
    ||| k == "font_weight"@
    ||| k == "font_style"@
    ||| k == "text_decoration"@
    ||| k == "text_align"@
    ||| k == "text_background"@
    ||| k == "vertical_text_align"@
    ||| k == "text_padding"@
    ||| k == "font_color"@
    ||| k == "text_border_color"@
    ||| k == "text_border_width"@
    ||| k == "text_border_style"@
}

/// Every key of `q` is a display key.
pub open spec fn only_display_keys(q: Seq<(Seq<char>, Seq<char>)>) -> bool {
    forall|i: int| 0 <= i < q.len() ==> is_display_key(#[trigger] q[i].0)
}

proof fn lemma_push_display_key(q: Seq<(Seq<char>, Seq<char>)>, key: Seq<char>, v: Option<Seq<char>>)
    requires
        only_display_keys(q),
        is_display_key(key),
    ensures
        only_display_keys(push_opt_attr(q, key, v)),
{
    if let Some(t) = v {
        let r = q.push((key, t));
        assert forall|i: int| 0 <= i < r.len() implies is_display_key(#[trigger] r[i].0) by {
            if i < q.len() {
                assert(r[i] == q[i]);
            }
        }
    }
}

/// The display attributes written after `p` are `p` followed by the display attributes
/// alone, whose keys are all display keys.
proof fn lemma_display_attrs_split(p: Seq<(Seq<char>, Seq<char>)>, d: DisplayAttributes<String, String, String, String>)
    ensures
        spec_display_attrs_tail(spec_display_attrs_head(p, d), d) == p + spec_display_attrs_tail(
            spec_display_attrs_head(Seq::empty(), d),
            d,
        ),
        only_display_keys(spec_display_attrs_tail(spec_display_attrs_head(Seq::empty(), d), d)),
{
    let e = Seq::<(Seq<char>, Seq<char>)>::empty();
    assert(p + e =~= p);
    let q0 = push_opt_attr(e, "color"@, opt_text(d.color));
    lemma_push_opt_append(p, e, "color"@, opt_text(d.color));
    lemma_push_display_key(e, "color"@, opt_text(d.color));
    let q1 = push_opt_attr(q0, "background"@, opt_text(d.background));
    lemma_push_opt_append(p, q0, "background"@, opt_text(d.background));
    lemma_push_display_key(q0, "background"@, opt_text(d.background));
    let q2 = push_opt_attr(q1, "z_index"@, opt_z_index_text(d.z_index));
    lemma_push_opt_append(p, q1, "z_index"@, opt_z_index_text(d.z_index));
    lemma_push_display_key(q1, "z_index"@, opt_z_index_text(d.z_index));
    let q3 = push_opt_attr(q2, "font_family"@, opt_text(d.font_family));
    lemma_push_opt_append(p, q2, "font_family"@, opt_text(d.font_family));
    lemma_push_display_key(q2, "font_family"@, opt_text(d.font_family));
    let q4 = push_opt_attr(q3, "font_size"@, opt_font_size_text(d.font_size));
    lemma_push_opt_append(p, q3, "font_size"@, opt_font_size_text(d.font_size));
    lemma_push_display_key(q3, "font_size"@, opt_font_size_text(d.font_size));
    let q5 = push_opt_attr(q4, "font_weight"@, opt_font_weight_text(d.font_weight));
    lemma_push_opt_append(p, q4, "font_weight"@, opt_font_weight_text(d.font_weight));
    lemma_push_display_key(q4, "font_weight"@, opt_font_weight_text(d.font_weight));
    let q6 = push_opt_attr(q5, "font_style"@, opt_font_style_text(d.font_style));
    lemma_push_opt_append(p, q5, "font_style"@, opt_font_style_text(d.font_style));
    lemma_push_display_key(q5, "font_style"@, opt_font_style_text(d.font_style));
    let q7 = push_opt_attr(q6, "text_decoration"@, opt_text_decoration_text(d.text_decoration));
    lemma_push_opt_append(p, q6, "text_decoration"@, opt_text_decoration_text(d.text_decoration));
    lemma_push_display_key(q6, "text_decoration"@, opt_text_decoration_text(d.text_decoration));
    assert(spec_display_attrs_head(p, d) == p + q7);
    assert(spec_display_attrs_head(e, d) == q7);
    let r0 = push_opt_attr(q7, "text_align"@, opt_text_align_text(d.text_align));
    lemma_push_opt_append(p, q7, "text_align"@, opt_text_align_text(d.text_align));
    lemma_push_display_key(q7, "text_align"@, opt_text_align_text(d.text_align));
    let r1 = push_opt_attr(r0, "text_background"@, opt_text(d.text_background));
    lemma_push_opt_append(p, r0, "text_background"@, opt_text(d.text_background));
    lemma_push_display_key(r0, "text_background"@, opt_text(d.text_background));
    let r2 = push_opt_attr(r1, "vertical_text_align"@, opt_vertical_text_align_text(d.vertical_text_align));
    lemma_push_opt_append(p, r1, "vertical_text_align"@, opt_vertical_text_align_text(d.vertical_text_align));
    lemma_push_display_key(r1, "vertical_text_align"@, opt_vertical_text_align_text(d.vertical_text_align));
    let r3 = push_opt_attr(r2, "text_padding"@, opt_text(d.text_padding));
    lemma_push_opt_append(p, r2, "text_padding"@, opt_text(d.text_padding));
    lemma_push_display_key(r2, "text_padding"@, opt_text(d.text_padding));
    let r4 = push_opt_attr(r3, "font_color"@, opt_text(d.font_color));
    lemma_push_opt_append(p, r3, "font_color"@, opt_text(d.font_color));
    lemma_push_display_key(r3, "font_color"@, opt_text(d.font_color));
    let r5 = push_opt_attr(r4, "text_border_color"@, opt_text(d.text_border_color));
    lemma_push_opt_append(p, r4, "text_border_color"@, opt_text(d.text_border_color));
    lemma_push_display_key(r4, "text_border_color"@, opt_text(d.text_border_color));
    let r6 = push_opt_attr(r5, "text_border_width"@, opt_text(d.text_border_width));
    lemma_push_opt_append(p, r5, "text_border_width"@, opt_text(d.text_border_width));
    lemma_push_display_key(r5, "text_border_width"@, opt_text(d.text_border_width));
    lemma_push_opt_append(p, r6, "text_border_style"@, opt_border_style_text(d.text_border_style));
    lemma_push_display_key(r6, "text_border_style"@, opt_border_style_text(d.text_border_style));
}

/// The lengths of the display keys.
proof fn lemma_display_key_lengths()
    ensures
        "color"@.len() == 5,
        "background"@.len() == 10,
        "z_index"@.len() == 7,
        "font_family"@.len() == 11,
        "font_size"@.len() == 9,
        "font_weight"@.len() == 11,
        "font_style"@.len() == 10,
        "text_decoration"@.len() == 15,
        "text_align"@.len() == 10,
        "text_background"@.len() == 15,
        "vertical_text_align"@.len() == 19,
        "text_padding"@.len() == 12,
        "font_color"@.len() == 10,
        "text_border_color"@.len() == 17,
        "text_border_width"@.len() == 17,
        "text_border_style"@.len() == 17,
{
    reveal_strlit("color");
    reveal_strlit("background");
    reveal_strlit("z_index");
    reveal_strlit("font_family");
    reveal_strlit("font_size");
    reveal_strlit("font_weight");
    reveal_strlit("font_style");
    reveal_strlit("text_decoration");
    reveal_strlit("text_align");
    reveal_strlit("text_background");
    reveal_strlit("vertical_text_align");
    reveal_strlit("text_padding");
    reveal_strlit("font_color");
    reveal_strlit("text_border_color");
    reveal_strlit("text_border_width");
    reveal_strlit("text_border_style");
}

/// The keys of a button's own attributes are pairwise different, and none is a display key.
proof fn lemma_button_keys()
    ensures
        "x"@ != "y"@,
        "width"@ != "style"@,
        "width"@ != "label"@,
        "width"@ != "sound"@,
        "style"@ != "label"@,
        "style"@ != "sound"@,
        "label"@ != "sound"@,
        "uid"@.len() == 3,
        "x"@.len() == 1,
        "y"@.len() == 1,
        "width"@.len() == 5,
        "height"@.len() == 6,
        "appearance"@.len() == 10,
        "style"@.len() == 5,
        "clicking_sound"@.len() == 14,
        "label"@.len() == 5,
        "sound"@.len() == 5,
        !is_display_key("uid"@),
        !is_display_key("x"@),
        !is_display_key("y"@),
        !is_display_key("width"@),
        !is_display_key("height"@),
        !is_display_key("appearance"@),
        !is_display_key("style"@),
        !is_display_key("clicking_sound"@),
        !is_display_key("label"@),
        !is_display_key("sound"@),
{
    lemma_display_key_lengths();
    reveal_strlit("uid");
    reveal_strlit("x");
    reveal_strlit("y");
    reveal_strlit("width");
    reveal_strlit("height");
    reveal_strlit("appearance");
    reveal_strlit("style");
    reveal_strlit("clicking_sound");
    reveal_strlit("label");
    reveal_strlit("sound");
    reveal_strlit("color");
    reveal_strlit("background");
    reveal_strlit("z_index");
    reveal_strlit("font_family");
    reveal_strlit("font_size");
    reveal_strlit("font_weight");
    reveal_strlit("font_style");
    reveal_strlit("text_decoration");
    reveal_strlit("text_align");
    reveal_strlit("text_background");
    reveal_strlit("vertical_text_align");
    reveal_strlit("text_padding");
    reveal_strlit("font_color");
    reveal_strlit("text_border_color");
    reveal_strlit("text_border_width");
    reveal_strlit("text_border_style");
    assert("x"@[0] != "y"@[0]);
    assert("width"@[0] != "style"@[0]);
    assert("width"@[0] != "label"@[0]);
    assert("width"@[0] != "sound"@[0]);
    assert("style"@[0] != "label"@[0]);
    assert("style"@[1] != "sound"@[1]);
    assert("label"@[0] != "sound"@[0]);
    assert("width"@[0] != "color"@[0]);
    assert("style"@[0] != "color"@[0]);
    assert("label"@[0] != "color"@[0]);
    assert("sound"@[0] != "color"@[0]);
    assert("appearance"@[0] != "background"@[0]);
    assert("appearance"@[0] != "font_style"@[0]);
    assert("appearance"@[0] != "text_align"@[0]);
    assert("appearance"@[0] != "font_color"@[0]);
}

/// What each of a button's own keys reads as in its written attributes.
#[verifier::rlimit(40)]
proof fn lemma_button_lookups(b: ButtonText)
    ensures
        ({
            let h = b.header;
            let m = pairs_map(spec_button_attrs(b));
            &&& spec_get(m, "uid"@) == Some(spec_int_text(h.uid.value as int))
            &&& spec_get(m, "x"@) == Some(h.x@)
            &&& spec_get(m, "y"@) == Some(h.y@)
            &&& spec_get(m, "width"@) == Some(h.width@)
            &&& spec_get(m, "height"@) == Some(h.height@)
            &&& spec_get(m, "appearance"@) == Some(spec_button_appearance_text(h.appearance))
            &&& spec_get(m, "style"@) == Some(spec_button_style_text(h.style))
            &&& spec_get(m, "clicking_sound"@) == Some(spec_bool_text(h.clicking_sound))
            &&& spec_get(m, "label"@) == opt_text(h.label)
            &&& spec_get(m, "sound"@) == opt_text(h.sound)
        }),
{
    lemma_button_keys();
    let h = b.header;
    let s0 = Seq::<(Seq<char>, Seq<char>)>::empty();
    assert(pairs_map(s0) == Map::<Seq<char>, Seq<char>>::empty());
    let s1 = s0.push(("uid"@, spec_int_text(h.uid.value as int)));
    lemma_attribute_read_back(s0, "uid"@, spec_int_text(h.uid.value as int));
    let s2 = s1.push(("x"@, h.x@));
    lemma_attribute_read_back(s1, "x"@, h.x@);
    let s3 = s2.push(("y"@, h.y@));
    lemma_attribute_read_back(s2, "y"@, h.y@);
    let s4 = s3.push(("width"@, h.width@));
    lemma_attribute_read_back(s3, "width"@, h.width@);
    let s5 = s4.push(("height"@, h.height@));
    lemma_attribute_read_back(s4, "height"@, h.height@);
    let s6 = s5.push(("appearance"@, spec_button_appearance_text(h.appearance)));
    lemma_attribute_read_back(s5, "appearance"@, spec_button_appearance_text(h.appearance));
    let s7 = s6.push(("style"@, spec_button_style_text(h.style)));
    lemma_attribute_read_back(s6, "style"@, spec_button_style_text(h.style));
    let s8 = s7.push(("clicking_sound"@, spec_bool_text(h.clicking_sound)));
    lemma_attribute_read_back(s7, "clicking_sound"@, spec_bool_text(h.clicking_sound));
    let own = seq![
        ("uid"@, spec_int_text(h.uid.value as int)),
        ("x"@, h.x@),
        ("y"@, h.y@),
        ("width"@, h.width@),
        ("height"@, h.height@),
        ("appearance"@, spec_button_appearance_text(h.appearance)),
        ("style"@, spec_button_style_text(h.style)),
        ("clicking_sound"@, spec_bool_text(h.clicking_sound)),
    ];
    assert(own =~= s8);
    lemma_absent_key_unset(own, "label"@);
    lemma_absent_key_unset(own, "sound"@);
    let n1 = push_opt_attr(s8, "label"@, opt_text(h.label));
    lemma_push_opt_get(s8, "label"@, opt_text(h.label));
    let n2 = push_opt_attr(n1, "sound"@, opt_text(h.sound));
    lemma_push_opt_get(n1, "sound"@, opt_text(h.sound));
    lemma_display_attrs_split(n2, b.display);
    let only = spec_display_attrs_tail(spec_display_attrs_head(Seq::empty(), b.display), b.display);
    assert(spec_button_attrs(b) == n2 + only);
    assert forall|k: Seq<char>| !is_display_key(k) implies key_absent(only, k) by {
        assert forall|i: int| 0 <= i < only.len() implies (#[trigger] only[i]).0 != k by {
            assert(is_display_key(only[i].0));
        }
    }
    lemma_get_ignores_suffix(n2, only, "uid"@);
    lemma_get_ignores_suffix(n2, only, "x"@);
    lemma_get_ignores_suffix(n2, only, "y"@);
    lemma_get_ignores_suffix(n2, only, "width"@);
    lemma_get_ignores_suffix(n2, only, "height"@);
    lemma_get_ignores_suffix(n2, only, "appearance"@);
    lemma_get_ignores_suffix(n2, only, "style"@);
    lemma_get_ignores_suffix(n2, only, "clicking_sound"@);
    lemma_get_ignores_suffix(n2, only, "label"@);
    lemma_get_ignores_suffix(n2, only, "sound"@);
    assert(spec_get(pairs_map(n2), "uid"@) == spec_get(pairs_map(n1), "uid"@));
    assert(spec_get(pairs_map(n1), "uid"@) == spec_get(pairs_map(s8), "uid"@));
    assert(spec_get(pairs_map(n2), "x"@) == spec_get(pairs_map(n1), "x"@));
    assert(spec_get(pairs_map(n1), "x"@) == spec_get(pairs_map(s8), "x"@));
    assert(spec_get(pairs_map(n2), "y"@) == spec_get(pairs_map(n1), "y"@));
    assert(spec_get(pairs_map(n1), "y"@) == spec_get(pairs_map(s8), "y"@));
    assert(spec_get(pairs_map(n2), "width"@) == spec_get(pairs_map(n1), "width"@));
    assert(spec_get(pairs_map(n1), "width"@) == spec_get(pairs_map(s8), "width"@));
    assert(spec_get(pairs_map(n2), "height"@) == spec_get(pairs_map(n1), "height"@));
    assert(spec_get(pairs_map(n1), "height"@) == spec_get(pairs_map(s8), "height"@));
    assert(spec_get(pairs_map(n2), "appearance"@) == spec_get(pairs_map(n1), "appearance"@));
    assert(spec_get(pairs_map(n1), "appearance"@) == spec_get(pairs_map(s8), "appearance"@));
    assert(spec_get(pairs_map(n2), "style"@) == spec_get(pairs_map(n1), "style"@));
    assert(spec_get(pairs_map(n1), "style"@) == spec_get(pairs_map(s8), "style"@));
    assert(spec_get(pairs_map(n2), "clicking_sound"@) == spec_get(pairs_map(n1), "clicking_sound"@));
    assert(spec_get(pairs_map(n1), "clicking_sound"@) == spec_get(pairs_map(s8), "clicking_sound"@));
    assert(spec_get(pairs_map(n2), "label"@) == spec_get(pairs_map(n1), "label"@));
}

/// A button's own attributes that are written are read back as they were: reading the
/// attributes of the element [`serialize_button_object`] writes raises no error, gives the
/// caller's parses of the written position and size, and the same UID, appearance, style,
/// label, clicking and sound, so that nothing a button needs is missing.
pub proof fn lemma_button_round_trip<N>(b: ButtonText, a: Attrs, x: N, y: N, width: N, height: N)
    requires
        a@ == pairs_map(spec_button_attrs(b)),
    ensures
        ({
            let n = BoundsNumbers { x: Some(Ok(x)), y: Some(Ok(y)), width: Some(Ok(width)), height: Some(Ok(height)) };
            &&& bounds_match(a, n)
            &&& spec_button_attrs_error(a, n) is None
            &&& forall|r: ButtonAttrs<N>| #[trigger] spec_button_attrs_read(r, a, n) ==> {
                &&& spec_button_missing(r) is None
                &&& r.uid == Some(b.header.uid.value)
                &&& r.x == Some(x) && r.y == Some(y) && r.width == Some(width) && r.height == Some(height)
                &&& r.appearance == Some(b.header.appearance)
                &&& r.style == Some(b.header.style)
                &&& opt_text(r.label) == opt_text(b.header.label)
                &&& r.clicking_sound == Some(b.header.clicking_sound)
                &&& opt_text(r.sound) == opt_text(b.header.sound)
            }
        }),
{
    lemma_button_lookups(b);
    let h = b.header;
    lemma_parse_int_text(h.uid.value as int, true, i32::MIN as int, i32::MAX as int);
    lemma_button_appearance_round_trip(h.appearance);
    lemma_button_style_round_trip(h.style);
    lemma_bool_attribute_round_trip(h.clicking_sound);
}



/// The display attributes from color to text decoration keep what came before them and include each one given.
proof fn lemma_display_head_written(p: Seq<(Seq<char>, Seq<char>)>, d: DisplayAttributes<String, String, String, String>)
    ensures
        starts_with(spec_display_attrs_head(p, d), p),
        d.color matches Some(c) ==> spec_display_attrs_head(p, d).contains(("color"@, c@)),
        d.background matches Some(c) ==> spec_display_attrs_head(p, d).contains(("background"@, c@)),
        d.z_index matches Some(z) ==> spec_display_attrs_head(p, d).contains(("z_index"@, spec_int_text(z as int))),
        d.font_family matches Some(f) ==> spec_display_attrs_head(p, d).contains(("font_family"@, f@)),
        d.font_size matches Some(x) ==> spec_display_attrs_head(p, d).contains(("font_size"@, x@ + "pt"@)),
        d.font_weight matches Some(w) ==> spec_display_attrs_head(p, d).contains(("font_weight"@, spec_font_weight_text(w))),
        d.font_style matches Some(w) ==> spec_display_attrs_head(p, d).contains(("font_style"@, spec_font_style_text(w))),
        d.text_decoration matches Some(w) ==> spec_display_attrs_head(p, d).contains(("text_decoration"@, spec_text_decoration_text(w))),
{
    let q0 = push_opt_attr(p, "color"@, opt_text(d.color));
    lemma_push_opt_attr_kept(p, "color"@, opt_text(d.color));
    let q1 = push_opt_attr(q0, "background"@, opt_text(d.background));
    lemma_push_opt_attr_kept(q0, "background"@, opt_text(d.background));
    let q2 = push_opt_attr(q1, "z_index"@, opt_z_index_text(d.z_index));
    lemma_push_opt_attr_kept(q1, "z_index"@, opt_z_index_text(d.z_index));
    let q3 = push_opt_attr(q2, "font_family"@, opt_text(d.font_family));
    lemma_push_opt_attr_kept(q2, "font_family"@, opt_text(d.font_family));
    let q4 = push_opt_attr(q3, "font_size"@, opt_font_size_text(d.font_size));
    lemma_push_opt_attr_kept(q3, "font_size"@, opt_font_size_text(d.font_size));
    let q5 = push_opt_attr(q4, "font_weight"@, opt_font_weight_text(d.font_weight));
    lemma_push_opt_attr_kept(q4, "font_weight"@, opt_font_weight_text(d.font_weight));
    let q6 = push_opt_attr(q5, "font_style"@, opt_font_style_text(d.font_style));
    lemma_push_opt_attr_kept(q5, "font_style"@, opt_font_style_text(d.font_style));
    let q7 = push_opt_attr(q6, "text_decoration"@, opt_text_decoration_text(d.text_decoration));
    lemma_push_opt_attr_kept(q6, "text_decoration"@, opt_text_decoration_text(d.text_decoration));
    let r = q7;
    assert(r == spec_display_attrs_head(p, d));
    lemma_starts_with_append(r, r, Seq::empty());
    lemma_starts_with_trans(r, q7, q6);
    lemma_starts_with_trans(r, q6, q5);
    lemma_starts_with_trans(r, q5, q4);
    lemma_starts_with_trans(r, q4, q3);
    lemma_starts_with_trans(r, q3, q2);
    lemma_starts_with_trans(r, q2, q1);
    lemma_starts_with_trans(r, q1, q0);
    lemma_starts_with_trans(r, q0, p);
    if let Some(c) = d.color {
        lemma_contains_kept(q0, r, ("color"@, c@));
    }
    if let Some(c) = d.background {
        lemma_contains_kept(q1, r, ("background"@, c@));
    }
    if let Some(z) = d.z_index {
        lemma_contains_kept(q2, r, ("z_index"@, spec_int_text(z as int)));
    }
    if let Some(f) = d.font_family {
        lemma_contains_kept(q3, r, ("font_family"@, f@));
    }
    if let Some(x) = d.font_size {
        lemma_contains_kept(q4, r, ("font_size"@, x@ + "pt"@));
    }
    if let Some(w) = d.font_weight {
        lemma_contains_kept(q5, r, ("font_weight"@, spec_font_weight_text(w)));
    }
    if let Some(w) = d.font_style {
        lemma_contains_kept(q6, r, ("font_style"@, spec_font_style_text(w)));
    }
    if let Some(w) = d.text_decoration {
        lemma_contains_kept(q7, r, ("text_decoration"@, spec_text_decoration_text(w)));
    }
}

/// The display attributes from text alignment to text border style keep what came before them and include each one given.
proof fn lemma_display_tail_written(p: Seq<(Seq<char>, Seq<char>)>, d: DisplayAttributes<String, String, String, String>)
    ensures
        starts_with(spec_display_attrs_tail(p, d), p),
        d.text_align matches Some(w) ==> spec_display_attrs_tail(p, d).contains(("text_align"@, spec_text_align_text(w))),
        d.text_background matches Some(c) ==> spec_display_attrs_tail(p, d).contains(("text_background"@, c@)),
        d.vertical_text_align matches Some(w) ==> spec_display_attrs_tail(p, d).contains(("vertical_text_align"@, spec_vertical_text_align_text(w))),
        d.text_padding matches Some(x) ==> spec_display_attrs_tail(p, d).contains(("text_padding"@, x@)),
        d.font_color matches Some(c) ==> spec_display_attrs_tail(p, d).contains(("font_color"@, c@)),
        d.text_border_color matches Some(c) ==> spec_display_attrs_tail(p, d).contains(("text_border_color"@, c@)),
        d.text_border_width matches Some(x) ==> spec_display_attrs_tail(p, d).contains(("text_border_width"@, x@)),
        d.text_border_style matches Some(w) ==> spec_display_attrs_tail(p, d).contains(("text_border_style"@, spec_border_style_text(w))),
{
    let q0 = push_opt_attr(p, "text_align"@, opt_text_align_text(d.text_align));
    lemma_push_opt_attr_kept(p, "text_align"@, opt_text_align_text(d.text_align));
    let q1 = push_opt_attr(q0, "text_background"@, opt_text(d.text_background));
    lemma_push_opt_attr_kept(q0, "text_background"@, opt_text(d.text_background));
    let q2 = push_opt_attr(q1, "vertical_text_align"@, opt_vertical_text_align_text(d.vertical_text_align));
    lemma_push_opt_attr_kept(q1, "vertical_text_align"@, opt_vertical_text_align_text(d.vertical_text_align));
    let q3 = push_opt_attr(q2, "text_padding"@, opt_text(d.text_padding));
    lemma_push_opt_attr_kept(q2, "text_padding"@, opt_text(d.text_padding));
    let q4 = push_opt_attr(q3, "font_color"@, opt_text(d.font_color));
    lemma_push_opt_attr_kept(q3, "font_color"@, opt_text(d.font_color));
    let q5 = push_opt_attr(q4, "text_border_color"@, opt_text(d.text_border_color));
    lemma_push_opt_attr_kept(q4, "text_border_color"@, opt_text(d.text_border_color));
    let q6 = push_opt_attr(q5, "text_border_width"@, opt_text(d.text_border_width));
    lemma_push_opt_attr_kept(q5, "text_border_width"@, opt_text(d.text_border_width));
    let q7 = push_opt_attr(q6, "text_border_style"@, opt_border_style_text(d.text_border_style));
    lemma_push_opt_attr_kept(q6, "text_border_style"@, opt_border_style_text(d.text_border_style));
    let r = q7;
    assert(r == spec_display_attrs_tail(p, d));
    lemma_starts_with_append(r, r, Seq::empty());
    lemma_starts_with_trans(r, q7, q6);
    lemma_starts_with_trans(r, q6, q5);
    lemma_starts_with_trans(r, q5, q4);
    lemma_starts_with_trans(r, q4, q3);
    lemma_starts_with_trans(r, q3, q2);
    lemma_starts_with_trans(r, q2, q1);
    lemma_starts_with_trans(r, q1, q0);
    lemma_starts_with_trans(r, q0, p);
    if let Some(w) = d.text_align {
        lemma_contains_kept(q0, r, ("text_align"@, spec_text_align_text(w)));
    }
    if let Some(c) = d.text_background {
        lemma_contains_kept(q1, r, ("text_background"@, c@));
    }
    if let Some(w) = d.vertical_text_align {
        lemma_contains_kept(q2, r, ("vertical_text_align"@, spec_vertical_text_align_text(w)));
    }
    if let Some(x) = d.text_padding {
        lemma_contains_kept(q3, r, ("text_padding"@, x@));
    }
    if let Some(c) = d.font_color {
        lemma_contains_kept(q4, r, ("font_color"@, c@));
    }
    if let Some(c) = d.text_border_color {
        lemma_contains_kept(q5, r, ("text_border_color"@, c@));
    }
    if let Some(x) = d.text_border_width {
        lemma_contains_kept(q6, r, ("text_border_width"@, x@));
    }
    if let Some(w) = d.text_border_style {
        lemma_contains_kept(q7, r, ("text_border_style"@, spec_border_style_text(w)));
    }
}

/// The display attributes written after `attrs` keep `attrs` before them, and include each
/// display attribute that is given, with its text (a font size with the unit `pt`).
#[verifier::rlimit(50)]
pub proof fn lemma_display_attrs_written(p: Seq<(Seq<char>, Seq<char>)>, d: DisplayAttributes<String, String, String, String>)
    ensures
        has_display_attrs(spec_display_attrs_tail(spec_display_attrs_head(p, d), d), d),
        starts_with(spec_display_attrs_tail(spec_display_attrs_head(p, d), d), p),
{
    let h = spec_display_attrs_head(p, d);
    let r = spec_display_attrs_tail(h, d);
    lemma_display_head_written(p, d);
    lemma_display_tail_written(h, d);
    lemma_starts_with_trans(r, h, p);
    if let Some(c) = d.color {
        lemma_contains_kept(h, r, ("color"@, c@));
    }
    if let Some(c) = d.background {
        lemma_contains_kept(h, r, ("background"@, c@));
    }
    if let Some(z) = d.z_index {
        lemma_contains_kept(h, r, ("z_index"@, spec_int_text(z as int)));
    }
    if let Some(f) = d.font_family {
        lemma_contains_kept(h, r, ("font_family"@, f@));
    }
    if let Some(x) = d.font_size {
        lemma_contains_kept(h, r, ("font_size"@, x@ + "pt"@));
    }
    if let Some(w) = d.font_weight {
        lemma_contains_kept(h, r, ("font_weight"@, spec_font_weight_text(w)));
    }
    if let Some(w) = d.font_style {
        lemma_contains_kept(h, r, ("font_style"@, spec_font_style_text(w)));
    }
    if let Some(w) = d.text_decoration {
        lemma_contains_kept(h, r, ("text_decoration"@, spec_text_decoration_text(w)));
    }
}


/// A button's element carries its UID, position, size, appearance, style and whether it
/// clicks, its label and sound when it has them, and each display attribute it has.
pub proof fn lemma_button_attrs_written(b: ButtonText)
    ensures
        ({
            let h = b.header;
            let a = spec_button_attrs(b);
            &&& a.contains(("uid"@, spec_int_text(h.uid.value as int)))
            &&& a.contains(("x"@, h.x@))
            &&& a.contains(("y"@, h.y@))
            &&& a.contains(("width"@, h.width@))
            &&& a.contains(("height"@, h.height@))
            &&& a.contains(("appearance"@, spec_button_appearance_text(h.appearance)))
            &&& a.contains(("style"@, spec_button_style_text(h.style)))
            &&& a.contains(("clicking_sound"@, spec_bool_text(h.clicking_sound)))
            &&& h.label matches Some(l) ==> a.contains(("label"@, l@))
            &&& h.sound matches Some(x) ==> a.contains(("sound"@, x@))
            &&& has_display_attrs(a, b.display)
        }),
{
    let h = b.header;
    let own = seq![
        ("uid"@, spec_int_text(h.uid.value as int)),
        ("x"@, h.x@),
        ("y"@, h.y@),
        ("width"@, h.width@),
        ("height"@, h.height@),
        ("appearance"@, spec_button_appearance_text(h.appearance)),
        ("style"@, spec_button_style_text(h.style)),
        ("clicking_sound"@, spec_bool_text(h.clicking_sound)),
    ];
    let n1 = push_opt_attr(own, "label"@, opt_text(h.label));
    let n2 = push_opt_attr(n1, "sound"@, opt_text(h.sound));
    let a = spec_button_attrs(b);
    lemma_push_opt_attr_kept(own, "label"@, opt_text(h.label));
    lemma_push_opt_attr_kept(n1, "sound"@, opt_text(h.sound));
    lemma_display_attrs_written(n2, b.display);
    lemma_starts_with_trans(a, n2, n1);
    lemma_starts_with_trans(a, n1, own);
    assert(own[0] == ("uid"@, spec_int_text(h.uid.value as int)));
    assert(own[1] == ("x"@, h.x@));
    assert(own[2] == ("y"@, h.y@));
    assert(own[3] == ("width"@, h.width@));
    assert(own[4] == ("height"@, h.height@));
    assert(own[5] == ("appearance"@, spec_button_appearance_text(h.appearance)));
    assert(own[6] == ("style"@, spec_button_style_text(h.style)));
    assert(own[7] == ("clicking_sound"@, spec_bool_text(h.clicking_sound)));
    lemma_contains_kept(own, a, ("uid"@, spec_int_text(h.uid.value as int)));
    lemma_contains_kept(own, a, ("x"@, h.x@));
    lemma_contains_kept(own, a, ("y"@, h.y@));
    lemma_contains_kept(own, a, ("width"@, h.width@));
    lemma_contains_kept(own, a, ("height"@, h.height@));
    lemma_contains_kept(own, a, ("appearance"@, spec_button_appearance_text(h.appearance)));
    lemma_contains_kept(own, a, ("style"@, spec_button_style_text(h.style)));
    lemma_contains_kept(own, a, ("clicking_sound"@, spec_bool_text(h.clicking_sound)));
    if let Some(l) = h.label {
        lemma_contains_kept(n1, a, ("label"@, l@));
    }
    if let Some(x) = h.sound {
        lemma_contains_kept(n2, a, ("sound"@, x@));
    }
}

/// A button is written as one element carrying its attributes: an empty one when it holds
/// nothing, and otherwise one that holds its image, link, menu action and switch action,
/// each when it has one.
pub proof fn lemma_button_events_written(b: ButtonText)
    ensures
        ({
            let e = spec_button_events(b);
            &&& !spec_button_has_content(b) ==> e == seq![tag(EventKind::Empty, "button"@, spec_button_attrs(b))]
            &&& spec_button_has_content(b) ==> e[0] == tag(EventKind::Start, "button"@, spec_button_attrs(b)) && e.last() == tag(
                EventKind::End,
                "button"@,
                Seq::empty(),
            )
            &&& b.image matches Some(i) ==> e.contains(tag(EventKind::Empty, "image"@, spec_image_attrs(i)))
            &&& b.link matches Some(l) ==> e.contains(tag(EventKind::Empty, "link"@, spec_link_attrs(l)))
            &&& b.switch_action matches Some(x) ==> e.contains(tag(EventKind::Empty, "switch_action"@, spec_switch_action_attrs(x)))
            &&& b.menu_action matches Some(m) ==> has_run_from(e, 1, spec_menu_action_events(m@))
            &&& spec_button_has_content(b) <==> (b.image is Some || b.link is Some || b.menu_action is Some || b.switch_action is Some)
        }),
{
    let image = match b.image {
        Some(i) => seq![tag(EventKind::Empty, "image"@, spec_image_attrs(i))],
        None => Seq::<EventView>::empty(),
    };
    let link = match b.link {
        Some(l) => seq![tag(EventKind::Empty, "link"@, spec_link_attrs(l))],
        None => Seq::<EventView>::empty(),
    };
    let menu = match b.menu_action {
        Some(m) => spec_menu_action_events(m@),
        None => Seq::<EventView>::empty(),
    };
    let switch = match b.switch_action {
        Some(s) => seq![tag(EventKind::Empty, "switch_action"@, spec_switch_action_attrs(s))],
        None => Seq::<EventView>::empty(),
    };
    if spec_button_has_content(b) {
        let st = seq![tag(EventKind::Start, "button"@, spec_button_attrs(b))];
        let e = spec_button_events(b);
        assert(spec_button_content(b) == image + link + menu + switch);
        assert(e =~= st + image + link + menu + switch + seq![tag(EventKind::End, "button"@, Seq::empty())]);
        let i0 = 1int;
        let i1 = i0 + image.len();
        let i2 = i1 + link.len();
        let i3 = i2 + menu.len();
        if let Some(i) = b.image {
            assert(e[i0] == tag(EventKind::Empty, "image"@, spec_image_attrs(i)));
        }
        if let Some(l) = b.link {
            assert(e[i1] == tag(EventKind::Empty, "link"@, spec_link_attrs(l)));
        }
        if let Some(m) = b.menu_action {
            assert(e.subrange(i2, i2 + menu.len()) =~= menu);
            assert(run_at(e, i2, menu));
        }
        if let Some(x) = b.switch_action {
            assert(e[i3] == tag(EventKind::Empty, "switch_action"@, spec_switch_action_attrs(x)));
        }
    }
}

/// An image element carries whether it fits its parent and its size, and its resource and
/// data when it has them; a switch action carries its value and the names it has.
pub proof fn lemma_image_and_switch_attrs_written(i: ImageContent<String>, x: SwitchAction<String>)
    ensures
        spec_image_attrs(i).contains(("size_to_parent"@, spec_bool_text(i.size_to_parent))),
        spec_image_attrs(i).contains(("width"@, i.width@)),
        spec_image_attrs(i).contains(("height"@, i.height@)),
        i.resource matches Some(r) ==> spec_image_attrs(i).contains(("resource"@, r@)),
        i.data matches Some(d) ==> spec_image_attrs(i).contains(("data"@, d@)),
        spec_switch_action_attrs(x).contains(("value"@, x.value@)),
        x.entity_name matches Some(t) ==> spec_switch_action_attrs(x).contains(("entity_name"@, t@)),
        x.group_name matches Some(t) ==> spec_switch_action_attrs(x).contains(("group_name"@, t@)),
        x.module_name matches Some(t) ==> spec_switch_action_attrs(x).contains(("module_name"@, t@)),
{
    let base = seq![("size_to_parent"@, spec_bool_text(i.size_to_parent)), ("width"@, i.width@), ("height"@, i.height@)];
    let i1 = push_opt_attr(base, "resource"@, opt_text(i.resource));
    let ia = push_opt_attr(i1, "data"@, opt_text(i.data));
    lemma_push_opt_attr_kept(base, "resource"@, opt_text(i.resource));
    lemma_push_opt_attr_kept(i1, "data"@, opt_text(i.data));
    lemma_starts_with_trans(ia, i1, base);
    assert(base[0] == ("size_to_parent"@, spec_bool_text(i.size_to_parent)));
    assert(base[1] == ("width"@, i.width@));
    assert(base[2] == ("height"@, i.height@));
    lemma_contains_kept(base, ia, ("size_to_parent"@, spec_bool_text(i.size_to_parent)));
    lemma_contains_kept(base, ia, ("width"@, i.width@));
    lemma_contains_kept(base, ia, ("height"@, i.height@));
    if let Some(r) = i.resource {
        lemma_contains_kept(i1, ia, ("resource"@, r@));
    }
    let v0 = seq![("value"@, x.value@)];
    let v1 = push_opt_attr(v0, "entity_name"@, opt_text(x.entity_name));
    let v2 = push_opt_attr(v1, "group_name"@, opt_text(x.group_name));
    let v3 = push_opt_attr(v2, "module_name"@, opt_text(x.module_name));
    lemma_push_opt_attr_kept(v0, "entity_name"@, opt_text(x.entity_name));
    lemma_push_opt_attr_kept(v1, "group_name"@, opt_text(x.group_name));
    lemma_push_opt_attr_kept(v2, "module_name"@, opt_text(x.module_name));
    lemma_starts_with_trans(v3, v2, v1);
    lemma_starts_with_trans(v3, v1, v0);
    assert(v0[0] == ("value"@, x.value@));
    lemma_contains_kept(v0, v3, ("value"@, x.value@));
    if let Some(t) = x.entity_name {
        lemma_contains_kept(v1, v3, ("entity_name"@, t@));
    }
    if let Some(t) = x.group_name {
        lemma_contains_kept(v2, v3, ("group_name"@, t@));
    }
}


/// `a` includes each display attribute that `d` gives, with its text (a font size with the
/// unit `pt`).
pub open spec fn has_display_attrs(a: Seq<(Seq<char>, Seq<char>)>, d: DisplayAttributes<String, String, String, String>) -> bool {
    &&& (d.color matches Some(c) ==> a.contains(("color"@, c@)))
    &&& (d.background matches Some(c) ==> a.contains(("background"@, c@)))
    &&& (d.z_index matches Some(z) ==> a.contains(("z_index"@, spec_int_text(z as int))))
    &&& (d.font_family matches Some(f) ==> a.contains(("font_family"@, f@)))
    &&& (d.font_size matches Some(x) ==> a.contains(("font_size"@, x@ + "pt"@)))
    &&& (d.font_weight matches Some(w) ==> a.contains(("font_weight"@, spec_font_weight_text(w))))
    &&& (d.font_style matches Some(w) ==> a.contains(("font_style"@, spec_font_style_text(w))))
    &&& (d.text_decoration matches Some(w) ==> a.contains(("text_decoration"@, spec_text_decoration_text(w))))
    &&& (d.text_align matches Some(w) ==> a.contains(("text_align"@, spec_text_align_text(w))))
    &&& (d.text_background matches Some(c) ==> a.contains(("text_background"@, c@)))
    &&& (d.vertical_text_align matches Some(w) ==> a.contains(("vertical_text_align"@, spec_vertical_text_align_text(w))))
    &&& (d.text_padding matches Some(x) ==> a.contains(("text_padding"@, x@)))
    &&& (d.font_color matches Some(c) ==> a.contains(("font_color"@, c@)))
    &&& (d.text_border_color matches Some(c) ==> a.contains(("text_border_color"@, c@)))
    &&& (d.text_border_width matches Some(x) ==> a.contains(("text_border_width"@, x@)))
    &&& (d.text_border_style matches Some(w) ==> a.contains(("text_border_style"@, spec_border_style_text(w))))
}

/// What includes the display attributes, a list that begins with it includes them too.
pub proof fn lemma_has_display_attrs_kept(a: Seq<(Seq<char>, Seq<char>)>, b: Seq<(Seq<char>, Seq<char>)>, d: DisplayAttributes<String, String, String, String>)
    requires
        starts_with(b, a),
        has_display_attrs(a, d),
    ensures
        has_display_attrs(b, d),
{
    if let Some(c) = d.color {
        lemma_contains_kept(a, b, ("color"@, c@));
    }
    if let Some(c) = d.background {
        lemma_contains_kept(a, b, ("background"@, c@));
    }
    if let Some(z) = d.z_index {
        lemma_contains_kept(a, b, ("z_index"@, spec_int_text(z as int)));
    }
    if let Some(f) = d.font_family {
        lemma_contains_kept(a, b, ("font_family"@, f@));
    }
    if let Some(x) = d.font_size {
        lemma_contains_kept(a, b, ("font_size"@, x@ + "pt"@));
    }
    if let Some(w) = d.font_weight {
        lemma_contains_kept(a, b, ("font_weight"@, spec_font_weight_text(w)));
    }
    if let Some(w) = d.font_style {
        lemma_contains_kept(a, b, ("font_style"@, spec_font_style_text(w)));
    }
    if let Some(w) = d.text_decoration {
        lemma_contains_kept(a, b, ("text_decoration"@, spec_text_decoration_text(w)));
    }
    if let Some(w) = d.text_align {
        lemma_contains_kept(a, b, ("text_align"@, spec_text_align_text(w)));
    }
    if let Some(c) = d.text_background {
        lemma_contains_kept(a, b, ("text_background"@, c@));
    }
    if let Some(w) = d.vertical_text_align {
        lemma_contains_kept(a, b, ("vertical_text_align"@, spec_vertical_text_align_text(w)));
    }
    if let Some(x) = d.text_padding {
        lemma_contains_kept(a, b, ("text_padding"@, x@));
    }
    if let Some(c) = d.font_color {
        lemma_contains_kept(a, b, ("font_color"@, c@));
    }
    if let Some(c) = d.text_border_color {
        lemma_contains_kept(a, b, ("text_border_color"@, c@));
    }
    if let Some(x) = d.text_border_width {
        lemma_contains_kept(a, b, ("text_border_width"@, x@));
    }
    if let Some(w) = d.text_border_style {
        lemma_contains_kept(a, b, ("text_border_style"@, spec_border_style_text(w)));
    }
}

} // verus!
