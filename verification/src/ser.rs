//! Writing side: attribute lists and the element events an emitter produces.

use vstd::prelude::*;
use vstd::string::*;
use crate::text::{format_i32, format_u32, spec_int_text, spec_pairs_text};

verus! {

/// The text `bool::to_string` gives.
pub open spec fn spec_bool_text(b: bool) -> Seq<char> {
    if b {
        "true"@
    } else {
        "false"@
    }
}

/// A list of attributes with owned values, in the order they were added.
#[derive(Debug)]
pub struct AttrList {
    attrs: Vec<(String, String)>,
}

impl View for AttrList {
    type V = Seq<(Seq<char>, Seq<char>)>;

    closed spec fn view(&self) -> Seq<(Seq<char>, Seq<char>)> {
        spec_pairs_text(self.attrs@)
    }
}

impl AttrList {
    /// The list holds no attribute.
    pub open spec fn spec_is_empty(&self) -> bool {
        self@.len() == 0
    }

    /// Create a new empty attribute list.
    pub fn new() -> (a: Self)
        ensures
            a.spec_is_empty(),
            a@ == Seq::<(Seq<char>, Seq<char>)>::empty(),
    {
        let a = AttrList { attrs: Vec::new() };
        proof {
            assert(a@ =~= Seq::<(Seq<char>, Seq<char>)>::empty());
        }
        a
    }

    /// Appends one attribute.
    fn push_pair(&mut self, key: &str, value: String)
        ensures
            final(self)@ == old(self)@.push((key@, value@)),
    {
        let ghost before = self@;
        self.attrs.push((String::from_str(key), value));
        proof {
            assert(self@ =~= before.push((key@, value@)));
        }
    }

    /// Add a required string attribute.
    pub fn add(&mut self, key: &str, value: &str) -> (r: &mut Self)
        ensures
            !r.spec_is_empty(),
            *final(r) == *final(self),
            r@ == old(self)@.push((key@, value@)),
    {
        self.push_pair(key, String::from_str(value));
        self
    }

    /// Add an optional string attribute (only added if Some).
    pub fn add_opt(&mut self, key: &str, value: Option<&str>) -> (r: &mut Self)
        ensures
            *final(r) == *final(self),
            r@ == match value {
                Some(v) => old(self)@.push((key@, v@)),
                None => old(self)@,
            },
    {
        match value {
            Some(v) => {
                self.push_pair(key, String::from_str(v));
            },
            None => {},
        }
        self
    }

    /// Add an i32 attribute, written in decimal.
    pub fn add_i32(&mut self, key: &str, value: i32) -> (r: &mut Self)
        ensures
            !r.spec_is_empty(),
            *final(r) == *final(self),
            r@ == old(self)@.push((key@, spec_int_text(value as int))),
    {
        self.push_pair(key, format_i32(value));
        self
    }

    /// Add an optional i32 attribute.
    pub fn add_opt_i32(&mut self, key: &str, value: Option<i32>) -> (r: &mut Self)
        ensures
            *final(r) == *final(self),
            r@ == match value {
                Some(v) => old(self)@.push((key@, spec_int_text(v as int))),
                None => old(self)@,
            },
    {
        match value {
            Some(v) => {
                self.push_pair(key, format_i32(v));
            },
            None => {},
        }
        self
    }

    /// Add a u32 attribute, written in decimal.
    pub fn add_u32(&mut self, key: &str, value: u32) -> (r: &mut Self)
        ensures
            !r.spec_is_empty(),
            *final(r) == *final(self),
            r@ == old(self)@.push((key@, spec_int_text(value as int))),
    {
        self.push_pair(key, format_u32(value));
        self
    }

    /// Add an optional u32 attribute.
    pub fn add_opt_u32(&mut self, key: &str, value: Option<u32>) -> (r: &mut Self)
        ensures
            *final(r) == *final(self),
            r@ == match value {
                Some(v) => old(self)@.push((key@, spec_int_text(v as int))),
                None => old(self)@,
            },
    {
        match value {
            Some(v) => {
                self.push_pair(key, format_u32(v));
            },
            None => {},
        }
        self
    }

    /// The text of a boolean attribute.
    fn bool_text(value: bool) -> (r: String)
        ensures
            r@ == spec_bool_text(value),
    {
        if value {
            String::from_str("true")
        } else {
            String::from_str("false")
        }
    }

    /// Add a bool attribute, written `true` or `false`.
    pub fn add_bool(&mut self, key: &str, value: bool) -> (r: &mut Self)
        ensures
            !r.spec_is_empty(),
            *final(r) == *final(self),
            r@ == old(self)@.push((key@, spec_bool_text(value))),
    {
        self.push_pair(key, Self::bool_text(value));
        self
    }

    /// Add a bool attribute only if it differs from the default.
    pub fn add_bool_if_not_default(&mut self, key: &str, value: bool, default: bool) -> (r: &mut Self)
        ensures
            *final(r) == *final(self),
            r@ == if value != default {
                old(self)@.push((key@, spec_bool_text(value)))
            } else {
                old(self)@
            },
    {
        if value != default {
            self.push_pair(key, Self::bool_text(value));
        }
        self
    }

    /// Add an optional bool attribute.
    pub fn add_opt_bool(&mut self, key: &str, value: Option<bool>) -> (r: &mut Self)
        ensures
            *final(r) == *final(self),
            r@ == match value {
                Some(v) => old(self)@.push((key@, spec_bool_text(v))),
                None => old(self)@,
            },
    {
        match value {
            Some(v) => {
                self.push_pair(key, Self::bool_text(v));
            },
            None => {},
        }
        self
    }

    /// Check if the list is empty.
    pub fn is_empty(&self) -> (r: bool)
        ensures
            r == (self@.len() == 0),
            r == self.spec_is_empty(),
    {
        self.attrs.len() == 0
    }

    /// Get the number of attributes.
    pub fn len(&self) -> (r: usize)
        ensures
            r == self@.len(),
    {
        self.attrs.len()
    }

    /// The attributes, in the order they were added.
    pub fn pairs(&self) -> (r: &Vec<(String, String)>)
        ensures
            spec_pairs_text(r@) == self@,
    {
        &self.attrs
    }
}

impl Default for AttrList {
    fn default() -> (a: Self)
        ensures
            a@ == Seq::<(Seq<char>, Seq<char>)>::empty(),
    {
        Self::new()
    }
}

/// Copies a list of attribute pairs.
pub fn copy_pairs(pairs: &Vec<(String, String)>) -> (r: Vec<(String, String)>)
    ensures
        spec_pairs_text(r@) == spec_pairs_text(pairs@),
{
    let mut r: Vec<(String, String)> = Vec::new();
    let mut i: usize = 0;
    while i < pairs.len()
        invariant
            i <= pairs@.len(),
            spec_pairs_text(r@) == spec_pairs_text(pairs@.take(i as int)),
        decreases pairs@.len() - i,
    {
        let k = String::from_str(pairs[i].0.as_str());
        let v = String::from_str(pairs[i].1.as_str());
        let ghost before = r@;
        r.push((k, v));
        proof {
            assert(spec_pairs_text(r@) =~= spec_pairs_text(before).push((pairs@[i as int].0@, pairs@[i as int].1@)));
            assert(spec_pairs_text(pairs@.take(i + 1)) =~= spec_pairs_text(pairs@.take(i as int)).push((pairs@[i as int].0@, pairs@[i as int].1@)));
        }
        i = i + 1;
    }
    proof {
        assert(pairs@.take(pairs@.len() as int) =~= pairs@);
    }
    r
}

/// An empty list of attributes.
fn no_attrs() -> (r: Vec<(String, String)>)
    ensures
        spec_pairs_text(r@) == Seq::<(Seq<char>, Seq<char>)>::empty(),
{
    let r: Vec<(String, String)> = Vec::new();
    proof {
        assert(spec_pairs_text(r@) =~= Seq::<(Seq<char>, Seq<char>)>::empty());
    }
    r
}

/// The kinds of XML event an emitter produces.
#[derive(Debug, Clone, Copy, PartialEq, Eq, Structural)]
pub enum EventKind {
    /// The XML declaration (version 1.0, encoding UTF-8).
    Decl,
    /// A start tag with its attributes.
    Start,
    /// An end tag.
    End,
    /// An empty element with its attributes.
    Empty,
    /// Character data, escaped when written.
    Text,
    /// A CDATA section, written as it stands.
    CData,
}

/// One XML event to be written: its kind, its content (the element name for tags, the
/// text for text and CDATA, nothing for the declaration) and the attributes of a tag.
#[derive(Debug)]
pub struct XmlEvent {
    pub kind: EventKind,
    pub content: String,
    pub attrs: Vec<(String, String)>,
}

/// An event as plain values.
pub type EventView = (EventKind, Seq<char>, Seq<(Seq<char>, Seq<char>)>);

/// The plain values of an event.
pub open spec fn event_view(e: XmlEvent) -> EventView {
    (e.kind, e.content@, spec_pairs_text(e.attrs@))
}

/// A tag event as plain values.
pub open spec fn tag(kind: EventKind, name: Seq<char>, attrs: Seq<(Seq<char>, Seq<char>)>) -> EventView {
    (kind, name, attrs)
}

/// The events of an element holding only text or only CDATA.
pub open spec fn spec_content_elem(name: Seq<char>, kind: EventKind, content: Seq<char>, attrs: Seq<(Seq<char>, Seq<char>)>) -> Seq<EventView> {
    seq![tag(EventKind::Start, name, attrs), tag(kind, content, Seq::empty()), tag(EventKind::End, name, Seq::empty())]
}

/// The events that the `non_negative` element gives: nothing when absent, an empty
/// element when present without a value, and a text element with the value otherwise.
pub open spec fn spec_non_negative_events(non_negative: Option<Option<bool>>) -> Seq<EventView> {
    match non_negative {
        None => Seq::empty(),
        Some(None) => seq![tag(EventKind::Empty, "non_negative"@, Seq::empty())],
        Some(Some(v)) => spec_content_elem("non_negative"@, EventKind::Text, spec_bool_text(v), Seq::empty()),
    }
}

/// Collects the events of a document in the order they are to be written.
#[derive(Debug)]
pub struct XmlEmitter {
    events: Vec<XmlEvent>,
}

impl View for XmlEmitter {
    type V = Seq<EventView>;

    closed spec fn view(&self) -> Seq<EventView> {
        self.events@.map_values(|e: XmlEvent| event_view(e))
    }
}

impl XmlEmitter {
    /// An emitter that has produced nothing yet.
    pub fn new() -> (e: Self)
        ensures
            e@ == Seq::<EventView>::empty(),
    {
        let e = XmlEmitter { events: Vec::new() };
        proof {
            assert(e@ =~= Seq::<EventView>::empty());
        }
        e
    }

    /// Appends one event.
    fn push_event(&mut self, kind: EventKind, content: &str, attrs: Vec<(String, String)>)
        ensures
            final(self)@ == old(self)@.push(tag(kind, content@, spec_pairs_text(attrs@))),
    {
        let ghost before = self@;
        let ghost a = spec_pairs_text(attrs@);
        self.events.push(XmlEvent { kind, content: String::from_str(content), attrs });
        proof {
            assert(self@ =~= before.push(tag(kind, content@, a)));
        }
    }

    /// Appends an element holding one piece of text or CDATA.
    fn content_elem(&mut self, name: &str, kind: EventKind, content: &str, attrs: Vec<(String, String)>)
        ensures
            final(self)@ == old(self)@ + spec_content_elem(name@, kind, content@, spec_pairs_text(attrs@)),
    {
        let ghost a = spec_pairs_text(attrs@);
        self.push_event(EventKind::Start, name, attrs);
        self.push_event(kind, content, no_attrs());
        self.push_event(EventKind::End, name, no_attrs());
        proof {
            assert(self@ =~= old(self)@ + spec_content_elem(name@, kind, content@, a));
        }
    }

    /// The events produced so far.
    pub fn events(&self) -> (r: &Vec<XmlEvent>)
        ensures
            r@.map_values(|e: XmlEvent| event_view(e)) == self@,
    {
        &self.events
    }

    /// The events produced, in order.
    pub fn into_events(self) -> (r: Vec<XmlEvent>)
        ensures
            r@.map_values(|e: XmlEvent| event_view(e)) == self@,
    {
        self.events
    }

    /// Write an XML declaration.
    pub fn xml_decl(&mut self)
        ensures
            final(self)@ == old(self)@.push(tag(EventKind::Decl, Seq::empty(), Seq::empty())),
    {
        self.push_event(EventKind::Decl, "", no_attrs());
        proof {
            reveal_strlit("");
            assert(""@ =~= Seq::<char>::empty());
        }
    }

    /// Write a text element: `<name>text</name>`.
    pub fn text_elem(&mut self, name: &str, text: &str)
        ensures
            final(self)@ == old(self)@ + spec_content_elem(name@, EventKind::Text, text@, Seq::empty()),
    {
        self.content_elem(name, EventKind::Text, text, no_attrs());
    }

    /// Write a text element only when there is a text.
    pub fn opt_text_elem(&mut self, name: &str, text: Option<&str>)
        ensures
            final(self)@ == match text {
                Some(t) => old(self)@ + spec_content_elem(name@, EventKind::Text, t@, Seq::empty()),
                None => old(self)@,
            },
    {
        match text {
            Some(t) => self.text_elem(name, t),
            None => {},
        }
    }

    /// Write character data on its own, escaped when written.
    pub fn text(&mut self, text: &str)
        ensures
            final(self)@ == old(self)@.push(tag(EventKind::Text, text@, Seq::empty())),
    {
        self.push_event(EventKind::Text, text, no_attrs());
    }

    /// Write an empty element: `<name/>`.
    pub fn empty_elem(&mut self, name: &str)
        ensures
            final(self)@ == old(self)@.push(tag(EventKind::Empty, name@, Seq::empty())),
    {
        self.push_event(EventKind::Empty, name, no_attrs());
    }

    /// Write an empty element only when `present` is `Some(true)`.
    pub fn opt_empty_elem(&mut self, name: &str, present: Option<bool>)
        ensures
            final(self)@ == (if present == Some(true) {
                old(self)@.push(tag(EventKind::Empty, name@, Seq::empty()))
            } else {
                old(self)@
            }),
    {
        match present {
            Some(true) => self.empty_elem(name),
            _ => {},
        }
    }

    /// Write a CDATA element: `<name><![CDATA[content]]></name>`.
    pub fn cdata_elem(&mut self, name: &str, content: &str)
        ensures
            final(self)@ == old(self)@ + spec_content_elem(name@, EventKind::CData, content@, Seq::empty()),
    {
        self.content_elem(name, EventKind::CData, content, no_attrs());
    }

    /// Write a CDATA element only when there is content.
    pub fn opt_cdata_elem(&mut self, name: &str, content: Option<&str>)
        ensures
            final(self)@ == match content {
                Some(c) => old(self)@ + spec_content_elem(name@, EventKind::CData, c@, Seq::empty()),
                None => old(self)@,
            },
    {
        match content {
            Some(c) => self.cdata_elem(name, c),
            None => {},
        }
    }

    /// Write an empty element with attributes: `<name attr="value"/>`.
    pub fn empty_elem_with_attrs(&mut self, name: &str, attrs: &AttrList)
        ensures
            final(self)@ == old(self)@.push(tag(EventKind::Empty, name@, attrs@)),
    {
        let pairs = copy_pairs(attrs.pairs());
        self.push_event(EventKind::Empty, name, pairs);
    }

    /// Write a text element with attributes: `<name attr="value">text</name>`.
    pub fn text_elem_with_attrs(&mut self, name: &str, attrs: &AttrList, text: &str)
        ensures
            final(self)@ == old(self)@ + spec_content_elem(name@, EventKind::Text, text@, attrs@),
    {
        let pairs = copy_pairs(attrs.pairs());
        self.content_elem(name, EventKind::Text, text, pairs);
    }

    /// A start tag with attributes, not yet written, for elements with complex content.
    pub fn start_elem(&self, name: &str, attrs: &AttrList) -> (r: XmlEvent)
        ensures
            event_view(r) == tag(EventKind::Start, name@, attrs@),
    {
        XmlEvent { kind: EventKind::Start, content: String::from_str(name), attrs: copy_pairs(attrs.pairs()) }
    }

    /// Write a start tag with the name and attributes of `start`.
    pub fn write_start(&mut self, start: &XmlEvent)
        ensures
            final(self)@ == old(self)@.push(tag(EventKind::Start, start.content@, spec_pairs_text(start.attrs@))),
    {
        let pairs = copy_pairs(&start.attrs);
        self.push_event(EventKind::Start, start.content.as_str(), pairs);
    }

    /// Write an end tag: `</name>`.
    pub fn write_end(&mut self, name: &str)
        ensures
            final(self)@ == old(self)@.push(tag(EventKind::End, name@, Seq::empty())),
    {
        self.push_event(EventKind::End, name, no_attrs());
    }

    /// Write the `non_negative` element: nothing for `None`, `<non_negative/>` for
    /// `Some(None)`, and `<non_negative>true</non_negative>` or `false` for a value.
    pub fn non_negative_elem(&mut self, non_negative: Option<Option<bool>>)
        ensures
            final(self)@ == old(self)@ + spec_non_negative_events(non_negative),
    {
        match non_negative {
            None => {
                proof {
                    assert(old(self)@ + Seq::<EventView>::empty() =~= old(self)@);
                }
            },
            Some(None) => {
                self.empty_elem("non_negative");
                proof {
                    assert(old(self)@.push(tag(EventKind::Empty, "non_negative"@, Seq::empty())) =~= old(self)@
                        + seq![tag(EventKind::Empty, "non_negative"@, Seq::empty())]);
                }
            },
            Some(Some(v)) => {
                let text = if v { "true" } else { "false" };
                self.text_elem("non_negative", text);
            },
        }
    }
}

impl Default for XmlEmitter {
    fn default() -> (e: Self)
        ensures
            e@ == Seq::<EventView>::empty(),
    {
        Self::new()
    }
}


/// `s` begins with `p`.
pub open spec fn starts_with<T>(s: Seq<T>, p: Seq<T>) -> bool {
    p.len() <= s.len() && s.take(p.len() as int) == p
}

/// `part` stands in `s` from position `i` on.
pub open spec fn run_at<T>(s: Seq<T>, i: int, part: Seq<T>) -> bool {
    0 <= i && i + part.len() <= s.len() && s.subrange(i, i + part.len()) == part
}

/// `part` stands in `s` somewhere from position `from` on.
pub open spec fn has_run_from<T>(s: Seq<T>, from: int, part: Seq<T>) -> bool {
    exists|i: int| from <= i && #[trigger] run_at(s, i, part)
}

/// A sequence begins with itself, and with what it began with before something was added
/// after it.
pub proof fn lemma_starts_with_append<T>(s: Seq<T>, p: Seq<T>, x: Seq<T>)
    ensures
        starts_with(s, p) ==> starts_with(s + x, p),
        starts_with(s + x, s),
        starts_with(s, s),
{
    if starts_with(s, p) {
        assert((s + x).take(p.len() as int) =~= s.take(p.len() as int));
    }
    assert((s + x).take(s.len() as int) =~= s);
    assert(s.take(s.len() as int) =~= s);
}

/// Pushing keeps what a sequence began with.
pub proof fn lemma_starts_with_push<T>(s: Seq<T>, p: Seq<T>, x: T)
    ensures
        starts_with(s, p) ==> starts_with(s.push(x), p),
        starts_with(s.push(x), s),
{
    if starts_with(s, p) {
        assert(s.push(x).take(p.len() as int) =~= s.take(p.len() as int));
    }
    assert(s.push(x).take(s.len() as int) =~= s);
}

/// Beginning with is transitive.
pub proof fn lemma_starts_with_trans<T>(a: Seq<T>, b: Seq<T>, c: Seq<T>)
    requires
        starts_with(a, b),
        starts_with(b, c),
    ensures
        starts_with(a, c),
{
    assert(a.take(c.len() as int) =~= b.take(c.len() as int));
}

/// What stands in a sequence still stands there, at the same place, in a sequence that
/// begins with it; so does what it contains.
pub proof fn lemma_run_kept<T>(s: Seq<T>, t: Seq<T>, i: int, part: Seq<T>)
    requires
        starts_with(t, s),
        run_at(s, i, part),
    ensures
        run_at(t, i, part),
{
    assert(t.subrange(i, i + part.len()) =~= s.subrange(i, i + part.len()));
}

/// What a sequence contains, one that begins with it contains too.
pub proof fn lemma_contains_kept<T>(s: Seq<T>, t: Seq<T>, x: T)
    requires
        starts_with(t, s),
        s.contains(x),
    ensures
        t.contains(x),
{
    let i = choose|i: int| 0 <= i < s.len() && s[i] == x;
    assert(t.take(s.len() as int)[i] == t[i]);
}

/// What is added after a sequence stands right after it.
pub proof fn lemma_run_at_end<T>(s: Seq<T>, part: Seq<T>)
    ensures
        run_at(s + part, s.len() as int, part),
{
    assert((s + part).subrange(s.len() as int, (s.len() + part.len()) as int) =~= part);
}

} // verus!
