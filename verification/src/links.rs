//! The `link` element of a button: where following the button leads, with the position and
//! zoom to show and the transition effect. Writing it, reading it back, and the law that a
//! written link is read back as it was.
//!
//! A link is written with its numbers as text; it is read with numbers of the type `N`
//! chosen by the caller, which parses their text.

use vstd::prelude::*;
use vstd::string::*;
use crate::actions::ReadErrorSpec;
use crate::de::{key_absent, lemma_absent_key_unset, lemma_attribute_read_back, lemma_bool_attribute_round_trip, pairs_map, spec_bool_from_text, spec_get, spec_invalid_bool_message, Attrs, DeserializeError};
use crate::ser::{spec_bool_text, tag, AttrList, EventKind, EventView, XmlEmitter};
use crate::text::spec_pairs_text;
use crate::variables::{bool_attr, outcome_matches, parsed_attr, spec_bool_attr, spec_parsed_attr};
use crate::view::{
    lemma_link_effect_round_trip, lemma_link_target_round_trip, parse_link_effect, parse_link_target,
    serialize_link_effect, serialize_link_target_attributes, spec_link_effect_from_text, spec_link_effect_text,
    spec_link_target_attrs, spec_parse_link_target, LinkEffect, LinkTarget, LinkTargetSpec,
};

verus! {

/// A link as written: its position and zoom as the text they are written as.
#[derive(Debug)]
pub struct LinkText {
    pub x: String,
    pub y: String,
    pub zoom: String,
    pub effect: Option<LinkEffect>,
    pub to_black: bool,
    pub target: LinkTarget,
}

/// The attributes of a `link` element in the order they are written: the position, the
/// zoom, whether to fade to black, the effect when there is one, and then the target.
pub open spec fn spec_link_attrs(l: LinkText) -> Seq<(Seq<char>, Seq<char>)> {
    spec_link_own_attrs(l) + spec_link_target_attrs(l.target@)
}

/// The attributes of a `link` element before its target's.
pub open spec fn spec_link_own_attrs(l: LinkText) -> Seq<(Seq<char>, Seq<char>)> {
    let base = seq![("x"@, l.x@), ("y"@, l.y@), ("zoom"@, l.zoom@), ("to_black"@, spec_bool_text(l.to_black))];
    match l.effect {
        Some(e) => base.push(("effect"@, spec_link_effect_text(e))),
        None => base,
    }
}

/// Builds the attribute list of a link.
pub fn link_attributes(l: &LinkText) -> (r: AttrList)
    ensures
        r@ == spec_link_attrs(*l),
{
    let mut attrs = AttrList::new();
    attrs.add("x", l.x.as_str());
    attrs.add("y", l.y.as_str());
    attrs.add("zoom", l.zoom.as_str());
    attrs.add_bool("to_black", l.to_black);
    match &l.effect {
        Some(e) => {
            attrs.add("effect", serialize_link_effect(e));
        },
        None => {},
    }
    let ghost own = attrs@;
    assert(own =~= spec_link_own_attrs(*l));
    let pairs = serialize_link_target_attributes(&l.target);
    let mut i: usize = 0;
    while i < pairs.len()
        invariant
            i <= pairs@.len(),
            attrs@ == own + spec_pairs_text(pairs@.take(i as int)),
        decreases pairs@.len() - i,
    {
        attrs.add(pairs[i].0.as_str(), pairs[i].1.as_str());
        proof {
            assert(spec_pairs_text(pairs@.take(i + 1)) =~= spec_pairs_text(pairs@.take(i as int)).push(
                (pairs@[i as int].0@, pairs@[i as int].1@),
            ));
        }
        i = i + 1;
    }
    proof {
        assert(pairs@.take(pairs@.len() as int) =~= pairs@);
    }
    attrs
}

/// Writes a link as an empty `link` element.
pub fn serialize_link(emitter: &mut XmlEmitter, l: &LinkText)
    ensures
        final(emitter)@ == old(emitter)@.push(tag(EventKind::Empty, "link"@, spec_link_attrs(*l))),
{
    let attrs = link_attributes(l);
    emitter.empty_elem_with_attrs("link", &attrs);
}

/// A link as read.
#[derive(Debug)]
pub struct Link<N> {
    pub x: N,
    pub y: N,
    pub zoom: N,
    pub effect: Option<LinkEffect>,
    pub to_black: bool,
    pub target: LinkTarget,
}

/// A link as plain values.
pub struct LinkSpec<N> {
    pub x: N,
    pub y: N,
    pub zoom: N,
    pub effect: Option<LinkEffect>,
    pub to_black: bool,
    pub target: LinkTargetSpec,
}

/// Reading a number from the attributes `m` of element `element`: `outcome` is the caller's
/// parse of the text, `None` when the attribute is absent.
pub open spec fn spec_number_in<N>(m: Map<Seq<char>, Seq<char>>, element: Seq<char>, key: Seq<char>, outcome: Option<Result<N, String>>) -> Result<Option<N>, ReadErrorSpec> {
    match outcome {
        None => Ok(None),
        Some(Ok(v)) => Ok(Some(v)),
        Some(Err(msg)) => Err(ReadErrorSpec::Custom(
            "Invalid value for "@ + element + "@"@ + key + ": "@ + msg@ + " (got '"@ + m[key] + "')"@,
        )),
    }
}

/// Reading the `effect` attribute.
pub open spec fn spec_effect_in(m: Map<Seq<char>, Seq<char>>) -> Result<Option<LinkEffect>, ReadErrorSpec> {
    match spec_get(m, "effect"@) {
        None => Ok(None),
        Some(t) => match spec_link_effect_from_text(t) {
            Some(e) => Ok(Some(e)),
            None => Err(ReadErrorSpec::Custom("Invalid link effect: "@ + t)),
        },
    }
}

/// Reading the `to_black` attribute.
pub open spec fn spec_to_black_in(m: Map<Seq<char>, Seq<char>>, element: Seq<char>) -> Result<Option<bool>, ReadErrorSpec> {
    match spec_get(m, "to_black"@) {
        None => Ok(None),
        Some(t) => match spec_bool_from_text(t) {
            Some(b) => Ok(Some(b)),
            None => Err(ReadErrorSpec::Custom(spec_invalid_bool_message(element, "to_black"@, t))),
        },
    }
}

/// The link that the attributes `m` of a `link` element named `element` describe, or the
/// first error: the position and zoom are read first (`x`, `y`, `zoom`), then the effect,
/// then whether to fade to black, then the target; then the position and zoom are required.
/// A link does not fade to black unless it says so.
pub open spec fn spec_link_read<N>(
    m: Map<Seq<char>, Seq<char>>,
    element: Seq<char>,
    x: Option<Result<N, String>>,
    y: Option<Result<N, String>>,
    zoom: Option<Result<N, String>>,
) -> Result<LinkSpec<N>, ReadErrorSpec> {
    match spec_number_in(m, element, "x"@, x) {
        Err(e) => Err(e),
        Ok(xv) => match spec_number_in(m, element, "y"@, y) {
            Err(e) => Err(e),
            Ok(yv) => match spec_number_in(m, element, "zoom"@, zoom) {
                Err(e) => Err(e),
                Ok(zv) => match spec_effect_in(m) {
                    Err(e) => Err(e),
                    Ok(effect) => match spec_to_black_in(m, element) {
                        Err(e) => Err(e),
                        Ok(to_black) => match spec_parse_link_target(m) {
                            Err(f) => Err(ReadErrorSpec::MissingField(f)),
                            Ok(target) => if xv is None {
                                Err(ReadErrorSpec::MissingField("x"@))
                            } else if yv is None {
                                Err(ReadErrorSpec::MissingField("y"@))
                            } else if zv is None {
                                Err(ReadErrorSpec::MissingField("zoom"@))
                            } else {
                                Ok(LinkSpec {
                                    x: xv->0,
                                    y: yv->0,
                                    zoom: zv->0,
                                    effect,
                                    to_black: match to_black {
                                        Some(b) => b,
                                        None => false,
                                    },
                                    target,
                                })
                            },
                        },
                    },
                },
            },
        },
    }
}

/// Reads the attributes of a `link` element; `x`, `y` and `zoom` are the caller's parses of
/// the position and zoom texts.
pub fn link_from_attrs<N>(attrs: &Attrs, x: Option<Result<N, String>>, y: Option<Result<N, String>>, zoom: Option<Result<N, String>>) -> (r: Result<Link<N>, DeserializeError>)
    requires
        outcome_matches(*attrs, "x"@, x),
        outcome_matches(*attrs, "y"@, y),
        outcome_matches(*attrs, "zoom"@, zoom),
    ensures
        match spec_link_read(attrs@, attrs.spec_element_name(), x, y, zoom) {
            Ok(v) => r matches Ok(l) && l.x == v.x && l.y == v.y && l.zoom == v.zoom && l.effect == v.effect
                && l.to_black == v.to_black && l.target@ == v.target,
            Err(e) => r matches Err(err) && err.is_read_error(e),
        },
{
    let xv = match parsed_attr(attrs, "x", x) {
        Ok(v) => v,
        Err(e) => return Err(e),
    };
    let yv = match parsed_attr(attrs, "y", y) {
        Ok(v) => v,
        Err(e) => return Err(e),
    };
    let zv = match parsed_attr(attrs, "zoom", zoom) {
        Ok(v) => v,
        Err(e) => return Err(e),
    };
    let effect = match attrs.get_opt("effect") {
        None => None,
        Some(t) => match parse_link_effect(t) {
            Ok(e) => Some(e),
            Err(e) => return Err(e),
        },
    };
    let to_black = match bool_attr(attrs, "to_black") {
        Ok(v) => v,
        Err(e) => return Err(e),
    };
    let target = match parse_link_target(attrs) {
        Ok(t) => t,
        Err(e) => return Err(e),
    };
    let xv = match xv {
        Some(v) => v,
        None => return Err(DeserializeError::MissingField(String::from_str("x"))),
    };
    let yv = match yv {
        Some(v) => v,
        None => return Err(DeserializeError::MissingField(String::from_str("y"))),
    };
    let zv = match zv {
        Some(v) => v,
        None => return Err(DeserializeError::MissingField(String::from_str("zoom"))),
    };
    Ok(Link {
        x: xv,
        y: yv,
        zoom: zv,
        effect,
        to_black: match to_black {
            Some(b) => b,
            None => false,
        },
        target,
    })
}

/// Pairs after the last one for `k` do not change what `k` is read as.
pub proof fn lemma_get_ignores_suffix(p: Seq<(Seq<char>, Seq<char>)>, t: Seq<(Seq<char>, Seq<char>)>, k: Seq<char>)
    requires
        key_absent(t, k),
    ensures
        spec_get(pairs_map(p + t), k) == spec_get(pairs_map(p), k),
    decreases t.len(),
{
    if t.len() == 0 {
        assert(p + t =~= p);
    } else {
        assert((p + t).drop_last() =~= p + t.drop_last());
        assert((p + t).last() == t.last());
        assert(t.last() == t[t.len() - 1]);
        assert(key_absent(t.drop_last(), k)) by {
            assert forall|i: int| 0 <= i < t.drop_last().len() implies (#[trigger] t.drop_last()[i]).0 != k by {
                assert(t.drop_last()[i] == t[i]);
            }
        }
        lemma_get_ignores_suffix(p, t.drop_last(), k);
    }
}

/// Pairs before any for `k` do not change what `k` is read as.
proof fn lemma_get_ignores_prefix(p: Seq<(Seq<char>, Seq<char>)>, t: Seq<(Seq<char>, Seq<char>)>, k: Seq<char>)
    requires
        key_absent(p, k),
    ensures
        spec_get(pairs_map(p + t), k) == spec_get(pairs_map(t), k),
    decreases t.len(),
{
    if t.len() == 0 {
        assert(p + t =~= p);
        lemma_absent_key_unset(p, k);
    } else {
        assert((p + t).drop_last() =~= p + t.drop_last());
        assert((p + t).last() == t.last());
        lemma_get_ignores_prefix(p, t.drop_last(), k);
    }
}

/// The keys a link writes are pairwise different texts.
proof fn lemma_link_keys_differ()
    ensures
        "x"@ != "y"@,
        "x"@.len() == 1,
        "y"@.len() == 1,
        "zoom"@.len() == 4,
        "to_black"@.len() == 8,
        "effect"@.len() == 6,
        "target"@.len() == 6,
        "view_type"@.len() == 9,
        "order"@.len() == 5,
        "page"@.len() == 4,
        "url"@.len() == 3,
        "zoom"@ != "page"@,
        "effect"@ != "target"@,
{
    reveal_strlit("x");
    reveal_strlit("y");
    reveal_strlit("zoom");
    reveal_strlit("to_black");
    reveal_strlit("effect");
    reveal_strlit("target");
    reveal_strlit("view_type");
    reveal_strlit("order");
    reveal_strlit("page");
    reveal_strlit("url");
    assert("x"@[0] != "y"@[0]);
    assert("zoom"@[0] != "page"@[0]);
    assert("effect"@[0] != "target"@[0]);
}

proof fn lemma_target_keys(t: LinkTargetSpec)
    ensures
        key_absent(spec_link_target_attrs(t), "x"@),
        key_absent(spec_link_target_attrs(t), "y"@),
        key_absent(spec_link_target_attrs(t), "zoom"@),
        key_absent(spec_link_target_attrs(t), "to_black"@),
        key_absent(spec_link_target_attrs(t), "effect"@),
{
    lemma_link_keys_differ();
    reveal_strlit("view");
    let a = spec_link_target_attrs(t);
    assert forall|i: int| 0 <= i < a.len() implies (#[trigger] a[i]).0.len() >= 3 && a[i].0 != "zoom"@ && a[i].0
        != "effect"@ by {
        if i == 0 {
        } else if i == 1 {
        } else if i == 2 {
        } else {
        }
    }
}

proof fn lemma_own_keys(l: LinkText)
    ensures
        key_absent(spec_link_own_attrs(l), "target"@),
        key_absent(spec_link_own_attrs(l), "view_type"@),
        key_absent(spec_link_own_attrs(l), "order"@),
        key_absent(spec_link_own_attrs(l), "page"@),
        key_absent(spec_link_own_attrs(l), "url"@),
{
    lemma_link_keys_differ();
    let a = spec_link_own_attrs(l);
    assert forall|i: int| 0 <= i < a.len() implies (#[trigger] a[i]).0.len() != 9 && a[i].0.len() != 5 && a[i].0.len()
        != 3 && a[i].0 != "target"@ && a[i].0 != "page"@ by {
        if i == 0 {
        } else if i == 1 {
        } else if i == 2 {
        } else if i == 3 {
        } else {
        }
    }
}

proof fn lemma_own_values(l: LinkText)
    ensures
        spec_get(pairs_map(spec_link_own_attrs(l)), "x"@) == Some(l.x@),
        spec_get(pairs_map(spec_link_own_attrs(l)), "y"@) == Some(l.y@),
        spec_get(pairs_map(spec_link_own_attrs(l)), "zoom"@) == Some(l.zoom@),
        spec_get(pairs_map(spec_link_own_attrs(l)), "to_black"@) == Some(spec_bool_text(l.to_black)),
        spec_get(pairs_map(spec_link_own_attrs(l)), "effect"@) == match l.effect {
            Some(e) => Some(spec_link_effect_text(e)),
            None => None::<Seq<char>>,
        },
{
    lemma_link_keys_differ();
    reveal_with_fuel(pairs_map, 6);
    let base = seq![("x"@, l.x@), ("y"@, l.y@), ("zoom"@, l.zoom@), ("to_black"@, spec_bool_text(l.to_black))];
    assert(base.drop_last().drop_last().drop_last().drop_last() =~= Seq::<(Seq<char>, Seq<char>)>::empty());
    assert(base.drop_last().drop_last().drop_last() =~= seq![("x"@, l.x@)]);
    assert(base.drop_last().drop_last() =~= seq![("x"@, l.x@), ("y"@, l.y@)]);
    assert(base.drop_last() =~= seq![("x"@, l.x@), ("y"@, l.y@), ("zoom"@, l.zoom@)]);
    match l.effect {
        Some(e) => {
            assert(base.push(("effect"@, spec_link_effect_text(e))).drop_last() =~= base);
        },
        None => {},
    }
}

/// A link that is written is read back as it was: reading the attributes of the `link`
/// element that [`serialize_link`] writes gives the same effect, fade to black and target,
/// and the numbers that the caller's parses of the written position and zoom give, for
/// every element name.
pub proof fn lemma_link_round_trip<N>(l: LinkText, element: Seq<char>, x: N, y: N, zoom: N)
    ensures
        spec_link_read(pairs_map(spec_link_attrs(l)), element, Some(Ok(x)), Some(Ok(y)), Some(Ok(zoom)))
            == Ok::<LinkSpec<N>, ReadErrorSpec>(LinkSpec { x, y, zoom, effect: l.effect, to_black: l.to_black, target: l.target@ }),
{
    let own = spec_link_own_attrs(l);
    let t = spec_link_target_attrs(l.target@);
    let m = pairs_map(own + t);
    lemma_target_keys(l.target@);
    lemma_own_keys(l);
    lemma_own_values(l);
    lemma_get_ignores_suffix(own, t, "effect"@);
    lemma_get_ignores_suffix(own, t, "to_black"@);
    lemma_get_ignores_prefix(own, t, "target"@);
    lemma_get_ignores_prefix(own, t, "view_type"@);
    lemma_get_ignores_prefix(own, t, "order"@);
    lemma_get_ignores_prefix(own, t, "page"@);
    lemma_get_ignores_prefix(own, t, "url"@);
    lemma_link_target_round_trip(l.target@);
    assert(spec_parse_link_target(m) == spec_parse_link_target(pairs_map(t)));
    match l.effect {
        Some(e) => lemma_link_effect_round_trip(e),
        None => {},
    }
    lemma_bool_attribute_round_trip(l.to_black);
}

} // verus!
