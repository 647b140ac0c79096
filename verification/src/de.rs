//! Reading side: deserialization errors, typed attribute maps, and the
//! decisions taken while walking XML events.

use vstd::prelude::*;
use vstd::string::*;
use crate::ser::spec_bool_text;
use crate::style::push_opt_attr;
use crate::text::{is_white_space, spec_trim, spec_trim_end, spec_trim_start, trim};
use crate::errors::opt_text;
use vstd::utf8::{decode_utf8, valid_utf8};
use crate::text::{has_reference_start, spec_unescaped, spec_utf8_lossy, utf8_lossy, utf8_to_string, xml_unescape, is_lowercase_ascii_word, lemma_lowercase_word, lemma_parse_int_text, spec_int_text, lemma_parse_int_in_bounds, parse_int, spec_pairs_text, spec_lowercase, spec_parse_int, str_eq, to_lowercase, IntParseError, spec_join, spec_texts, join_strings};

verus! {

/// An error met while reading an XMILE document.
#[derive(Debug, Clone, PartialEq, Eq)]
pub enum DeserializeError {
    /// A required attribute or element is absent.
    MissingField(String),
    /// A value is present but not acceptable.
    Custom(String),
    /// The document ended inside an element.
    UnexpectedEof,
    /// An element appeared where another one was expected.
    UnexpectedElement { expected: String, found: String },
    /// The XML itself is malformed.
    Xml(String),
}

impl DeserializeError {
    /// This error is a `Custom` error carrying exactly `msg`.
    pub open spec fn is_custom(self, msg: Seq<char>) -> bool {
        self matches DeserializeError::Custom(m) && m@ == msg
    }

    /// This error is a `MissingField` error naming exactly `field`.
    pub open spec fn is_missing_field(self, field: Seq<char>) -> bool {
        self matches DeserializeError::MissingField(m) && m@ == field
    }

    /// A `Custom` error whose message is `prefix` followed by `detail`.
    pub fn custom_with(prefix: &str, detail: &str) -> (e: DeserializeError)
        ensures
            e.is_custom(prefix@ + detail@),
    {
        let mut m = String::from_str(prefix);
        m.append(detail);
        DeserializeError::Custom(m)
    }
}


/// The keys of a list of entries are pairwise different.
pub open spec fn keys_unique(entries: Seq<(String, String)>) -> bool {
    forall|i: int, j: int| 0 <= i < j < entries.len() ==> (#[trigger] entries[i]).0@ != (#[trigger] entries[j]).0@
}

/// Some entry of the list has the key `k`.
pub open spec fn has_key(entries: Seq<(String, String)>, k: Seq<char>) -> bool {
    exists|i: int| 0 <= i < entries.len() && (#[trigger] entries[i]).0@ == k
}

/// The map from key to value that a list of entries stands for.
pub open spec fn entries_map(entries: Seq<(String, String)>) -> Map<Seq<char>, Seq<char>> {
    Map::new(
        |k: Seq<char>| has_key(entries, k),
        |k: Seq<char>| entries[choose|i: int| 0 <= i < entries.len() && (#[trigger] entries[i]).0@ == k].1@,
    )
}

/// The map that inserting the pairs one after another gives; a later pair with a key
/// already present replaces the earlier value.
pub open spec fn pairs_map(pairs: Seq<(Seq<char>, Seq<char>)>) -> Map<Seq<char>, Seq<char>>
    decreases pairs.len(),
{
    if pairs.len() == 0 {
        Map::empty()
    } else {
        pairs_map(pairs.drop_last()).insert(pairs.last().0, pairs.last().1)
    }
}

/// In a list with unique keys, each entry's key maps to that entry's value.
pub proof fn lemma_entries_map_lookup(entries: Seq<(String, String)>, i: int)
    requires
        keys_unique(entries),
        0 <= i < entries.len(),
    ensures
        entries_map(entries).contains_key(entries[i].0@),
        entries_map(entries)[entries[i].0@] == entries[i].1@,
{
    let k = entries[i].0@;
    assert(has_key(entries, k));
    let j = choose|j: int| 0 <= j < entries.len() && (#[trigger] entries[j]).0@ == k;
    if j != i {
        if j < i {
            assert(entries[j].0@ != entries[i].0@);
        } else {
            assert(entries[i].0@ != entries[j].0@);
        }
    }
}

/// Replacing the value of an entry, or adding an entry with a new key, inserts into the map.
pub proof fn lemma_entries_map_set(entries: Seq<(String, String)>, j: int, e: (String, String))
    requires
        keys_unique(entries),
        0 <= j <= entries.len(),
        j < entries.len() ==> entries[j].0@ == e.0@,
        j == entries.len() ==> !has_key(entries, e.0@),
    ensures
        keys_unique(if j < entries.len() { entries.update(j, e) } else { entries.push(e) }),
        entries_map(if j < entries.len() { entries.update(j, e) } else { entries.push(e) })
            == entries_map(entries).insert(e.0@, e.1@),
{
    let n = if j < entries.len() { entries.update(j, e) } else { entries.push(e) };
    assert forall|a: int, b: int| 0 <= a < b < n.len() implies (#[trigger] n[a]).0@ != (#[trigger] n[b]).0@ by {
        if j == entries.len() && b == j {
            assert(entries[a].0@ != e.0@);
        } else if j < entries.len() && a == j {
            assert(entries[j].0@ != entries[b].0@);
        } else if j < entries.len() && b == j {
            assert(entries[a].0@ != entries[j].0@);
        }
    }
    let m = entries_map(entries).insert(e.0@, e.1@);
    assert forall|k: Seq<char>| #[trigger] entries_map(n).contains_key(k) <==> m.contains_key(k) by {
        if has_key(n, k) {
            let i = choose|i: int| 0 <= i < n.len() && (#[trigger] n[i]).0@ == k;
            if k != e.0@ {
                assert(entries[i].0@ == k);
            }
        }
        if entries_map(entries).contains_key(k) {
            let i = choose|i: int| 0 <= i < entries.len() && (#[trigger] entries[i]).0@ == k;
            assert(n[i].0@ == k || i == j);
        }
        if k == e.0@ {
            assert(n[j].0@ == k);
        }
    }
    assert forall|k: Seq<char>| #[trigger] entries_map(n).contains_key(k) implies entries_map(n)[k] == m[k] by {
        let i = choose|i: int| 0 <= i < n.len() && (#[trigger] n[i]).0@ == k;
        lemma_entries_map_lookup(n, i);
        if k != e.0@ {
            assert(entries[i] == n[i]);
            lemma_entries_map_lookup(entries, i);
        }
    }
    assert(entries_map(n) =~= m);
}

/// A typed attribute map: the decoded attributes of one element, with its name.
#[derive(Debug)]
pub struct Attrs {
    entries: Vec<(String, String)>,
    /// The element name for error messages.
    element_name: String,
}

impl View for Attrs {
    type V = Map<Seq<char>, Seq<char>>;

    closed spec fn view(&self) -> Map<Seq<char>, Seq<char>> {
        entries_map(self.entries@)
    }
}

impl Attrs {
    #[verifier::type_invariant]
    spec fn inv(&self) -> bool {
        keys_unique(self.entries@)
    }

    /// The name of the element the attributes belong to.
    pub closed spec fn spec_element_name(&self) -> Seq<char> {
        self.element_name@
    }

    /// Create an empty Attrs (for empty elements or when no attributes expected).
    pub fn empty() -> (a: Self)
        ensures
            a@ == Map::<Seq<char>, Seq<char>>::empty(),
            a.spec_element_name() == Seq::<char>::empty(),
    {
        let a = Attrs { entries: Vec::new(), element_name: String::new() };
        proof {
            assert(a@ =~= Map::<Seq<char>, Seq<char>>::empty());
        }
        a
    }

    /// Builds the attribute map of an element from its decoded attributes, in document order;
    /// when a key repeats, the later value wins.
    pub fn from_pairs(element_name: &str, pairs: Vec<(String, String)>) -> (a: Self)
        ensures
            a@ == pairs_map(spec_pairs_text(pairs@)),
            a.spec_element_name() == element_name@,
    {
        let mut entries: Vec<(String, String)> = Vec::new();
        let mut i: usize = 0;
        proof {
            assert(entries_map(entries@) =~= pairs_map(spec_pairs_text(pairs@.take(0))));
        }
        while i < pairs.len()
            invariant
                i <= pairs.len(),
                keys_unique(entries@),
                entries_map(entries@) == pairs_map(spec_pairs_text(pairs@.take(i as int))),
            decreases pairs.len() - i,
        {
            let k = pairs[i].0.clone();
            let v = pairs[i].1.clone();
            proof {
                assert(pairs@.take(i + 1).drop_last() =~= pairs@.take(i as int));
                assert(spec_pairs_text(pairs@.take(i + 1)).drop_last() =~= spec_pairs_text(pairs@.take(i as int)));
            }
            match find_entry(&entries, k.as_str()) {
                Some(j) => {
                    proof {
                        lemma_entries_map_set(entries@, j as int, (k, v));
                    }
                    entries.set(j, (k, v));
                },
                None => {
                    proof {
                        lemma_entries_map_set(entries@, entries@.len() as int, (k, v));
                    }
                    entries.push((k, v));
                },
            }
            i = i + 1;
        }
        proof {
            assert(pairs@.take(pairs@.len() as int) =~= pairs@);
        }
        Attrs { entries, element_name: String::from_str(element_name) }
    }
}

/// The position of the entry with the given key, if any.
fn find_entry(entries: &Vec<(String, String)>, key: &str) -> (r: Option<usize>)
    ensures
        r matches Some(j) ==> j < entries@.len() && entries@[j as int].0@ == key@,
        r is None ==> !has_key(entries@, key@),
{
    let mut j: usize = 0;
    while j < entries.len()
        invariant
            j <= entries@.len(),
            forall|a: int| 0 <= a < j ==> (#[trigger] entries@[a]).0@ != key@,
        decreases entries@.len() - j,
    {
        if str_eq(entries[j].0.as_str(), key) {
            return Some(j);
        }
        j = j + 1;
    }
    None
}


/// The message given when an attribute's text is not a number of the wanted type.
pub open spec fn spec_invalid_value_message(element: Seq<char>, key: Seq<char>, e: IntParseError, got: Seq<char>) -> Seq<char> {
    "Invalid value for "@ + element + "@"@ + key + ": "@ + e.spec_message() + " (got '"@ + got + "')"@
}

/// The message given when an attribute's text is not a boolean.
pub open spec fn spec_invalid_bool_message(element: Seq<char>, key: Seq<char>, got: Seq<char>) -> Seq<char> {
    "Invalid boolean for "@ + element + "@"@ + key + ": '"@ + got + "' (expected true/false)"@
}

/// The boolean that an attribute text stands for: after lowercasing, `true`, `1` and `yes`
/// mean true, and `false`, `0` and `no` mean false.
pub open spec fn spec_bool_from_text(t: Seq<char>) -> Option<bool> {
    let l = spec_lowercase(t);
    if l == "true"@ || l == "1"@ || l == "yes"@ {
        Some(true)
    } else if l == "false"@ || l == "0"@ || l == "no"@ {
        Some(false)
    } else {
        None
    }
}

/// The outcome of reading an optional integer attribute whose text (if present) is `text`.
pub open spec fn spec_opt_int_result(
    element: Seq<char>,
    key: Seq<char>,
    text: Option<Seq<char>>,
    signed: bool,
    min: int,
    max: int,
    r: Result<Option<int>, DeserializeError>,
) -> bool {
    match text {
        None => r == Ok::<Option<int>, DeserializeError>(None),
        Some(t) => match spec_parse_int(t, signed, min, max) {
            Ok(v) => r == Ok::<Option<int>, DeserializeError>(Some(v)),
            Err(e) => r matches Err(err) && err.is_custom(spec_invalid_value_message(element, key, e, t)),
        },
    }
}

/// The text of a key in a map, if present.
pub open spec fn spec_get(m: Map<Seq<char>, Seq<char>>, key: Seq<char>) -> Option<Seq<char>> {
    if m.contains_key(key) {
        Some(m[key])
    } else {
        None
    }
}

/// An optional integer as an unbounded integer.
pub open spec fn opt_i32_int(o: Option<i32>) -> Option<int> {
    match o {
        Some(v) => Some(v as int),
        None => None,
    }
}

/// An optional unsigned integer as an unbounded integer.
pub open spec fn opt_u32_int(o: Option<u32>) -> Option<int> {
    match o {
        Some(v) => Some(v as int),
        None => None,
    }
}

/// A result carrying an optional `i32`, with the number widened.
pub open spec fn widen_opt_i32(r: Result<Option<i32>, DeserializeError>) -> Result<Option<int>, DeserializeError> {
    match r {
        Ok(o) => Ok(opt_i32_int(o)),
        Err(e) => Err(e),
    }
}

/// A result carrying an optional `u32`, with the number widened.
pub open spec fn widen_opt_u32(r: Result<Option<u32>, DeserializeError>) -> Result<Option<int>, DeserializeError> {
    match r {
        Ok(o) => Ok(opt_u32_int(o)),
        Err(e) => Err(e),
    }
}

/// A result carrying an `i32`, as the optional form that a present attribute gives.
pub open spec fn widen_i32(r: Result<i32, DeserializeError>) -> Result<Option<int>, DeserializeError> {
    match r {
        Ok(v) => Ok(Some(v as int)),
        Err(e) => Err(e),
    }
}

/// A result carrying a `u32`, as the optional form that a present attribute gives.
pub open spec fn widen_u32(r: Result<u32, DeserializeError>) -> Result<Option<int>, DeserializeError> {
    match r {
        Ok(v) => Ok(Some(v as int)),
        Err(e) => Err(e),
    }
}

impl Attrs {
    /// Get the element name this Attrs was parsed from.
    pub fn element_name(&self) -> (r: &str)
        ensures
            r@ == self.spec_element_name(),
    {
        self.element_name.as_str()
    }

    /// Get an optional string attribute.
    pub fn get_opt(&self, key: &str) -> (r: Option<&str>)
        ensures
            self@.contains_key(key@) ==> (r matches Some(v) && v@ == self@[key@]),
            !self@.contains_key(key@) ==> r is None,
    {
        proof {
            use_type_invariant(self);
        }
        match find_entry(&self.entries, key) {
            Some(j) => {
                proof {
                    lemma_entries_map_lookup(self.entries@, j as int);
                }
                Some(self.entries[j].1.as_str())
            },
            None => None,
        }
    }

    /// The error for a required attribute that is absent: `element@key`.
    fn missing(&self, key: &str) -> (e: DeserializeError)
        ensures
            e.is_missing_field(self.spec_element_name() + "@"@ + key@),
    {
        let mut m = self.element_name.clone();
        m.append("@");
        m.append(key);
        DeserializeError::MissingField(m)
    }

    /// Get a required string attribute, returning an error if missing.
    pub fn get_req(&self, key: &str) -> (r: Result<&str, DeserializeError>)
        ensures
            self@.contains_key(key@) ==> (r matches Ok(v) && v@ == self@[key@]),
            !self@.contains_key(key@) ==> (r matches Err(e) && e.is_missing_field(
                self.spec_element_name() + "@"@ + key@,
            )),
    {
        match self.get_opt(key) {
            Some(v) => Ok(v),
            None => Err(self.missing(key)),
        }
    }

    /// Get an optional string attribute as an owned String.
    pub fn get_opt_string(&self, key: &str) -> (r: Option<String>)
        ensures
            self@.contains_key(key@) ==> (r matches Some(v) && v@ == self@[key@]),
            !self@.contains_key(key@) ==> r is None,
    {
        match self.get_opt(key) {
            Some(v) => Some(String::from_str(v)),
            None => None,
        }
    }

    /// Get a required string attribute as an owned String.
    pub fn get_req_string(&self, key: &str) -> (r: Result<String, DeserializeError>)
        ensures
            self@.contains_key(key@) ==> (r matches Ok(v) && v@ == self@[key@]),
            !self@.contains_key(key@) ==> (r matches Err(e) && e.is_missing_field(
                self.spec_element_name() + "@"@ + key@,
            )),
    {
        match self.get_req(key) {
            Ok(v) => Ok(String::from_str(v)),
            Err(e) => Err(e),
        }
    }

    /// Reads an optional decimal integer attribute between `min` and `max`.
    fn get_opt_int(&self, key: &str, signed: bool, min: i64, max: i64) -> (r: Result<Option<i64>, DeserializeError>)
        requires
            -0x1_0000_0000 <= min <= 0 <= max <= 0x1_0000_0000,
        ensures
            spec_opt_int_result(
                self.spec_element_name(),
                key@,
                spec_get(self@, key@),
                signed,
                min as int,
                max as int,
                match r {
                    Ok(Some(v)) => Ok(Some(v as int)),
                    Ok(None) => Ok(None),
                    Err(e) => Err(e),
                },
            ),
            r matches Ok(Some(v)) ==> min <= v <= max,
    {
        match self.get_opt(key) {
            None => Ok(None),
            Some(t) => match parse_int(t, signed, min, max) {
                Ok(v) => {
                    proof {
                        lemma_parse_int_in_bounds(t@, signed, min as int, max as int);
                    }
                    Ok(Some(v))
                },
                Err(e) => {
                    let mut m = String::from_str("Invalid value for ");
                    m.append(self.element_name.as_str());
                    m.append("@");
                    m.append(key);
                    m.append(": ");
                    m.append(e.message());
                    m.append(" (got '");
                    m.append(t);
                    m.append("')");
                    Err(DeserializeError::Custom(m))
                },
            },
        }
    }

    /// Get an optional i32 attribute.
    pub fn get_opt_i32(&self, key: &str) -> (r: Result<Option<i32>, DeserializeError>)
        ensures
            spec_opt_int_result(
                self.spec_element_name(),
                key@,
                spec_get(self@, key@),
                true,
                i32::MIN as int,
                i32::MAX as int,
                widen_opt_i32(r),
            ),
    {
        match self.get_opt_int(key, true, i32::MIN as i64, i32::MAX as i64) {
            Ok(Some(v)) => Ok(Some(v as i32)),
            Ok(None) => Ok(None),
            Err(e) => Err(e),
        }
    }

    /// Get a required i32 attribute.
    pub fn get_req_i32(&self, key: &str) -> (r: Result<i32, DeserializeError>)
        ensures
            self@.contains_key(key@) ==> spec_opt_int_result(
                self.spec_element_name(),
                key@,
                spec_get(self@, key@),
                true,
                i32::MIN as int,
                i32::MAX as int,
                widen_i32(r),
            ),
            !self@.contains_key(key@) ==> (r matches Err(e) && e.is_missing_field(
                self.spec_element_name() + "@"@ + key@,
            )),
    {
        match self.get_opt_i32(key) {
            Ok(Some(v)) => Ok(v),
            Ok(None) => Err(self.missing(key)),
            Err(e) => Err(e),
        }
    }

    /// Get an optional u32 attribute.
    pub fn get_opt_u32(&self, key: &str) -> (r: Result<Option<u32>, DeserializeError>)
        ensures
            spec_opt_int_result(
                self.spec_element_name(),
                key@,
                spec_get(self@, key@),
                false,
                0,
                u32::MAX as int,
                widen_opt_u32(r),
            ),
    {
        match self.get_opt_int(key, false, 0, u32::MAX as i64) {
            Ok(Some(v)) => Ok(Some(v as u32)),
            Ok(None) => Ok(None),
            Err(e) => Err(e),
        }
    }

    /// Get a required u32 attribute.
    pub fn get_req_u32(&self, key: &str) -> (r: Result<u32, DeserializeError>)
        ensures
            self@.contains_key(key@) ==> spec_opt_int_result(
                self.spec_element_name(),
                key@,
                spec_get(self@, key@),
                false,
                0,
                u32::MAX as int,
                widen_u32(r),
            ),
            !self@.contains_key(key@) ==> (r matches Err(e) && e.is_missing_field(
                self.spec_element_name() + "@"@ + key@,
            )),
    {
        match self.get_opt_u32(key) {
            Ok(Some(v)) => Ok(v),
            Ok(None) => Err(self.missing(key)),
            Err(e) => Err(e),
        }
    }

    /// Get an optional bool attribute. Recognizes "true"/"false", "1"/"0" and "yes"/"no",
    /// in any case.
    pub fn get_opt_bool(&self, key: &str) -> (r: Result<Option<bool>, DeserializeError>)
        ensures
            !self@.contains_key(key@) ==> r == Ok::<Option<bool>, DeserializeError>(None),
            self@.contains_key(key@) ==> match spec_bool_from_text(self@[key@]) {
                Some(b) => r == Ok::<Option<bool>, DeserializeError>(Some(b)),
                None => r matches Err(e) && e.is_custom(
                    spec_invalid_bool_message(self.spec_element_name(), key@, self@[key@]),
                ),
            },
    {
        match self.get_opt(key) {
            None => Ok(None),
            Some(t) => {
                let lower = to_lowercase(t);
                let l = lower.as_str();
                if str_eq(l, "true") || str_eq(l, "1") || str_eq(l, "yes") {
                    Ok(Some(true))
                } else if str_eq(l, "false") || str_eq(l, "0") || str_eq(l, "no") {
                    Ok(Some(false))
                } else {
                    let mut m = String::from_str("Invalid boolean for ");
                    m.append(self.element_name.as_str());
                    m.append("@");
                    m.append(key);
                    m.append(": '");
                    m.append(t);
                    m.append("' (expected true/false)");
                    Err(DeserializeError::Custom(m))
                }
            },
        }
    }

    /// Get an optional bool attribute with a default value.
    pub fn get_bool_or(&self, key: &str, default: bool) -> (r: Result<bool, DeserializeError>)
        ensures
            !self@.contains_key(key@) ==> r == Ok::<bool, DeserializeError>(default),
            self@.contains_key(key@) ==> match spec_bool_from_text(self@[key@]) {
                Some(b) => r == Ok::<bool, DeserializeError>(b),
                None => r matches Err(e) && e.is_custom(
                    spec_invalid_bool_message(self.spec_element_name(), key@, self@[key@]),
                ),
            },
    {
        match self.get_opt_bool(key) {
            Ok(Some(b)) => Ok(b),
            Ok(None) => Ok(default),
            Err(e) => Err(e),
        }
    }

    /// Check if an attribute is present (regardless of value).
    pub fn has(&self, key: &str) -> (r: bool)
        ensures
            r == self@.contains_key(key@),
    {
        self.get_opt(key).is_some()
    }

    /// Get all keys (for debugging/logging), each once, in the order the element gave them.
    pub fn keys(&self) -> (r: Vec<String>)
        ensures
            forall|k: Seq<char>| self@.contains_key(k) <==> exists|i: int| 0 <= i < r@.len() && (#[trigger] r@[i])@ == k,
            forall|i: int, j: int| 0 <= i < j < r@.len() ==> (#[trigger] r@[i])@ != (#[trigger] r@[j])@,
    {
        proof {
            use_type_invariant(self);
        }
        let mut r: Vec<String> = Vec::new();
        let mut i: usize = 0;
        while i < self.entries.len()
            invariant
                i <= self.entries@.len(),
                r@.len() == i,
                forall|a: int| 0 <= a < i ==> (#[trigger] r@[a])@ == self.entries@[a].0@,
            decreases self.entries@.len() - i,
        {
            r.push(self.entries[i].0.clone());
            i = i + 1;
        }
        proof {
            assert forall|k: Seq<char>| self@.contains_key(k) <==> exists|a: int| 0 <= a < r@.len() && (#[trigger] r@[a])@ == k by {
                if self@.contains_key(k) {
                    let a = choose|a: int| 0 <= a < self.entries@.len() && (#[trigger] self.entries@[a]).0@ == k;
                    assert(r@[a]@ == k);
                }
                if exists|a: int| 0 <= a < r@.len() && (#[trigger] r@[a])@ == k {
                    let a = choose|a: int| 0 <= a < r@.len() && (#[trigger] r@[a])@ == k;
                    assert(self.entries@[a].0@ == k);
                    assert(has_key(self.entries@, k));
                }
            }
            assert forall|a: int, b: int| 0 <= a < b < r@.len() implies (#[trigger] r@[a])@ != (#[trigger] r@[b])@ by {
                assert(self.entries@[a].0@ != self.entries@[b].0@);
            }
        }
        r
    }
}

/// Common variable attributes (name, access, autoexport), shared by stocks, flows,
/// auxiliaries and graphical functions.
#[derive(Debug)]
pub struct VarAttrs {
    pub name: Option<String>,
    pub access: Option<String>,
    pub autoexport: Option<bool>,
    pub gf_type: Option<String>,
    pub resource: Option<String>,
}

impl VarAttrs {
    /// Parse common variable attributes from an Attrs instance: `name`, `access`,
    /// `autoexport` (a boolean), `type` and `resource`.
    pub fn from_attrs(attrs: &Attrs) -> (r: Result<Self, DeserializeError>)
        ensures
            attrs@.contains_key("autoexport"@) && spec_bool_from_text(attrs@["autoexport"@]) is None
                <==> r is Err,
            r matches Err(e) ==> e.is_custom(
                spec_invalid_bool_message(attrs.spec_element_name(), "autoexport"@, attrs@["autoexport"@]),
            ),
            r matches Ok(v) ==> {
                &&& opt_text(v.name) == spec_get(attrs@, "name"@)
                &&& opt_text(v.access) == spec_get(attrs@, "access"@)
                &&& v.autoexport == (if attrs@.contains_key("autoexport"@) {
                    spec_bool_from_text(attrs@["autoexport"@])
                } else {
                    None
                })
                &&& opt_text(v.gf_type) == spec_get(attrs@, "type"@)
                &&& opt_text(v.resource) == spec_get(attrs@, "resource"@)
            },
    {
        let name = attrs.get_opt_string("name");
        let access = attrs.get_opt_string("access");
        let autoexport = match attrs.get_opt_bool("autoexport") {
            Ok(b) => b,
            Err(e) => return Err(e),
        };
        let gf_type = attrs.get_opt_string("type");
        let resource = attrs.get_opt_string("resource");
        Ok(VarAttrs { name, access, autoexport, gf_type, resource })
    }
}


/// An attribute written last for a key is the one read back for that key, and writing it
/// leaves the other keys as they were.
pub proof fn lemma_attribute_read_back(pairs: Seq<(Seq<char>, Seq<char>)>, key: Seq<char>, value: Seq<char>)
    ensures
        spec_get(pairs_map(pairs.push((key, value))), key) == Some(value),
        forall|k: Seq<char>| k != key ==> spec_get(pairs_map(pairs.push((key, value))), k) == spec_get(pairs_map(pairs), k),
{
    assert(pairs.push((key, value)).drop_last() =~= pairs);
}

/// Reading a key after an optional attribute was pushed: the pushed value where the key is
/// the pushed one and a value was pushed, and otherwise what was there before.
pub proof fn lemma_push_opt_get(pairs: Seq<(Seq<char>, Seq<char>)>, key: Seq<char>, v: Option<Seq<char>>)
    ensures
        forall|k: Seq<char>| #[trigger] spec_get(pairs_map(push_opt_attr(pairs, key, v)), k) == (if k == key && v is Some {
            v
        } else {
            spec_get(pairs_map(pairs), k)
        }),
{
    if let Some(t) = v {
        lemma_attribute_read_back(pairs, key, t);
    }
}

/// `k` is the key of no pair of `t`.
pub open spec fn key_absent(t: Seq<(Seq<char>, Seq<char>)>, k: Seq<char>) -> bool {
    forall|i: int| 0 <= i < t.len() ==> (#[trigger] t[i]).0 != k
}

/// A key that no pair holds is not in the map of the pairs.
pub proof fn lemma_absent_key_unset(p: Seq<(Seq<char>, Seq<char>)>, k: Seq<char>)
    requires
        key_absent(p, k),
    ensures
        spec_get(pairs_map(p), k) is None,
    decreases p.len(),
{
    if p.len() > 0 {
        assert(key_absent(p.drop_last(), k)) by {
            assert forall|i: int| 0 <= i < p.drop_last().len() implies (#[trigger] p.drop_last()[i]).0 != k by {
                assert(p.drop_last()[i] == p[i]);
            }
        }
        lemma_absent_key_unset(p.drop_last(), k);
        assert(p.last() == p[p.len() - 1]);
    }
}

impl Attrs {
    /// The outcome of reading an optional attribute whose text was parsed by the caller:
    /// `outcome` is `None` when the attribute is absent, and otherwise the parse result, with
    /// the parser's message on failure. A failure becomes
    /// `Invalid value for element@key: message (got 'text')`.
    pub fn get_opt_parsed_from<T>(&self, key: &str, outcome: Option<Result<T, String>>) -> (r: Result<Option<T>, DeserializeError>)
        requires
            outcome is Some <==> self@.contains_key(key@),
        ensures
            crate::variables::result_is(r, crate::variables::spec_parsed_attr(*self, key@, outcome)),
            match outcome {
                None => r matches Ok(None),
                Some(Ok(v)) => r matches Ok(Some(w)) && w == v,
                Some(Err(m)) => r matches Err(e) && e.is_custom(
                    "Invalid value for "@ + self.spec_element_name() + "@"@ + key@ + ": "@ + m@ + " (got '"@
                        + self@[key@] + "')"@,
                ),
            },
    {
        match outcome {
            None => Ok(None),
            Some(Ok(v)) => Ok(Some(v)),
            Some(Err(m)) => {
                let text = match self.get_opt(key) {
                    Some(t) => t,
                    None => "",
                };
                let mut msg = String::from_str("Invalid value for ");
                msg.append(self.element_name.as_str());
                msg.append("@");
                msg.append(key);
                msg.append(": ");
                msg.append(m.as_str());
                msg.append(" (got '");
                msg.append(text);
                msg.append("')");
                Err(DeserializeError::Custom(msg))
            },
        }
    }

    /// The outcome of reading a required attribute whose text was parsed by the caller: a
    /// missing attribute gives `MissingField("element@key")`, and a failed parse the same
    /// message as [`Attrs::get_opt_parsed_from`].
    pub fn get_req_parsed_from<T>(&self, key: &str, outcome: Option<Result<T, String>>) -> (r: Result<T, DeserializeError>)
        requires
            outcome is Some <==> self@.contains_key(key@),
        ensures
            crate::variables::result_is(r, crate::variables::spec_required_parsed_attr(*self, key@, outcome)),
            match outcome {
                None => r matches Err(e) && e.is_missing_field(self.spec_element_name() + "@"@ + key@),
                Some(Ok(v)) => r matches Ok(w) && w == v,
                Some(Err(m)) => r matches Err(e) && e.is_custom(
                    "Invalid value for "@ + self.spec_element_name() + "@"@ + key@ + ": "@ + m@ + " (got '"@
                        + self@[key@] + "')"@,
                ),
            },
    {
        match self.get_opt_parsed_from(key, outcome) {
            Ok(Some(v)) => Ok(v),
            Ok(None) => Err(self.missing(key)),
            Err(e) => Err(e),
        }
    }
}

/// An `i32` attribute written in decimal (as `AttrList::add_i32` writes it) is read back by
/// `Attrs::get_opt_i32` as the same number.
pub proof fn lemma_i32_attribute_round_trip(element: Seq<char>, pairs: Seq<(Seq<char>, Seq<char>)>, key: Seq<char>, v: i32)
    ensures
        spec_opt_int_result(
            element,
            key,
            spec_get(pairs_map(pairs.push((key, spec_int_text(v as int)))), key),
            true,
            i32::MIN as int,
            i32::MAX as int,
            Ok(Some(v as int)),
        ),
{
    lemma_attribute_read_back(pairs, key, spec_int_text(v as int));
    lemma_parse_int_text(v as int, true, i32::MIN as int, i32::MAX as int);
}

/// A `u32` attribute written in decimal (as `AttrList::add_u32` writes it) is read back by
/// `Attrs::get_opt_u32` as the same number.
pub proof fn lemma_u32_attribute_round_trip(element: Seq<char>, pairs: Seq<(Seq<char>, Seq<char>)>, key: Seq<char>, v: u32)
    ensures
        spec_opt_int_result(
            element,
            key,
            spec_get(pairs_map(pairs.push((key, spec_int_text(v as int)))), key),
            false,
            0,
            u32::MAX as int,
            Ok(Some(v as int)),
        ),
{
    lemma_attribute_read_back(pairs, key, spec_int_text(v as int));
    lemma_parse_int_text(v as int, false, 0, u32::MAX as int);
}

/// A boolean written as `true` or `false` (as `AttrList::add_bool` writes it) is read back by
/// `Attrs::get_opt_bool` as the same boolean.
pub proof fn lemma_bool_attribute_round_trip(b: bool)
    ensures
        spec_bool_from_text(spec_bool_text(b)) == Some(b),
{
    reveal_strlit("true");
    reveal_strlit("false");
    reveal_strlit("1");
    reveal_strlit("yes");
    assert("true"@.len() == 4);
    assert("false"@.len() == 5);
    assert("1"@.len() == 1);
    assert("yes"@.len() == 3);
    assert(is_lowercase_ascii_word("true"@));
    assert(is_lowercase_ascii_word("false"@));
    lemma_lowercase_word("true"@);
    lemma_lowercase_word("false"@);
}


/// Raw attributes as plain bytes: each key and each still escaped value.
pub open spec fn raw_bytes(raw: Seq<(Vec<u8>, Vec<u8>)>) -> Seq<(Seq<u8>, Seq<u8>)> {
    raw.map_values(|p: (Vec<u8>, Vec<u8>)| (p.0@, p.1@))
}

/// The attribute pairs that decoding raw attributes gives: each key is read as UTF-8
/// (invalid sequences replaced) and each value must be valid UTF-8 with well-formed
/// references, which are then replaced; a value without `&` is kept as decoded. Nothing when
/// some value fails.
pub open spec fn spec_decoded_pairs(raw: Seq<(Seq<u8>, Seq<u8>)>) -> Option<Seq<(Seq<char>, Seq<char>)>>
    decreases raw.len(),
{
    if raw.len() == 0 {
        Some(Seq::empty())
    } else {
        match spec_decoded_pairs(raw.drop_last()) {
            None => None,
            Some(rest) => {
                let (k, v) = raw.last();
                if valid_utf8(v) {
                    match spec_unescaped(decode_utf8(v)) {
                        Some(value) => Some(rest.push((spec_utf8_lossy(k), value))),
                        None => None,
                    }
                } else {
                    None
                }
            },
        }
    }
}

impl Attrs {
    /// Builds the attribute map of an element from its raw name and raw attributes, as the
    /// XML reader hands them over: keys and values as bytes, values still escaped.
    pub fn from_raw(element_name: &[u8], raw: Vec<(Vec<u8>, Vec<u8>)>) -> (r: Result<Self, DeserializeError>)
        ensures
            r is Ok <==> spec_decoded_pairs(raw_bytes(raw@)) is Some,
            r matches Ok(a) ==> a@ == pairs_map(spec_decoded_pairs(raw_bytes(raw@))->0) && a.spec_element_name()
                == spec_utf8_lossy(element_name@),
            r matches Err(e) ==> e is Xml,
            (forall|i: int| 0 <= i < raw@.len() ==> valid_utf8((#[trigger] raw@[i]).1@) && !has_reference_start(
                decode_utf8(raw@[i].1@),
            )) ==> (r matches Ok(a) && a@ == pairs_map(
                raw@.map_values(|p: (Vec<u8>, Vec<u8>)| (spec_utf8_lossy(p.0@), decode_utf8(p.1@))),
            )),
    {
        proof {
            if forall|i: int| 0 <= i < raw@.len() ==> valid_utf8((#[trigger] raw@[i]).1@) && !has_reference_start(
                decode_utf8(raw@[i].1@),
            ) {
                lemma_plain_values_decode(raw@);
            }
        }
        let name = utf8_lossy(element_name);
        let mut pairs: Vec<(String, String)> = Vec::new();
        let mut i: usize = 0;
        while i < raw.len()
            invariant
                i <= raw@.len(),
                spec_decoded_pairs(raw_bytes(raw@).take(i as int)) == Some(spec_pairs_text(pairs@)),
            decreases raw@.len() - i,
        {
            proof {
                assert(raw_bytes(raw@).take(i + 1).drop_last() =~= raw_bytes(raw@).take(i as int));
                assert(raw_bytes(raw@).take(i + 1).last() == (raw@[i as int].0@, raw@[i as int].1@));
            }
            let key = utf8_lossy(raw[i].0.as_slice());
            let decoded = match utf8_to_string(raw[i].1.clone()) {
                Some(d) => d,
                None => {
                    proof {
                        lemma_decoded_pairs_prefix(raw_bytes(raw@), i as int + 1);
                    }
                    return Err(DeserializeError::Xml(String::from_str("attribute value is not valid UTF-8")));
                },
            };
            let value = match xml_unescape(decoded.as_str()) {
                Ok(v) => v,
                Err(m) => {
                    proof {
                        lemma_decoded_pairs_prefix(raw_bytes(raw@), i as int + 1);
                    }
                    return Err(DeserializeError::Xml(m));
                },
            };
            let ghost before = pairs@;
            pairs.push((key, value));
            proof {
                assert(spec_pairs_text(pairs@) =~= spec_pairs_text(before).push((key@, value@)));
            }
            i = i + 1;
        }
        proof {
            assert(raw_bytes(raw@).take(raw@.len() as int) =~= raw_bytes(raw@));
        }
        Ok(Attrs::from_pairs(name.as_str(), pairs))
    }
}

/// Raw attributes whose values are valid UTF-8 without `&` decode to their keys read as
/// UTF-8 and their values as decoded, in order: such values pass through unchanged.
pub proof fn lemma_plain_values_decode(raw: Seq<(Vec<u8>, Vec<u8>)>)
    requires
        forall|i: int| 0 <= i < raw.len() ==> valid_utf8((#[trigger] raw[i]).1@) && !has_reference_start(
            decode_utf8(raw[i].1@),
        ),
    ensures
        spec_decoded_pairs(raw_bytes(raw)) == Some(
            raw.map_values(|p: (Vec<u8>, Vec<u8>)| (spec_utf8_lossy(p.0@), decode_utf8(p.1@))),
        ),
    decreases raw.len(),
{
    if raw.len() > 0 {
        let rest = raw.drop_last();
        assert forall|i: int| 0 <= i < rest.len() implies valid_utf8((#[trigger] rest[i]).1@) && !has_reference_start(
            decode_utf8(rest[i].1@),
        ) by {
            assert(rest[i] == raw[i]);
        }
        lemma_plain_values_decode(rest);
        assert(raw[raw.len() - 1] == raw.last());
        assert(raw_bytes(raw).drop_last() =~= raw_bytes(rest));
        assert(raw_bytes(raw).last() == (raw.last().0@, raw.last().1@));
        assert(raw.map_values(|p: (Vec<u8>, Vec<u8>)| (spec_utf8_lossy(p.0@), decode_utf8(p.1@))) =~= rest.map_values(
            |p: (Vec<u8>, Vec<u8>)| (spec_utf8_lossy(p.0@), decode_utf8(p.1@)),
        ).push((spec_utf8_lossy(raw.last().0@), decode_utf8(raw.last().1@))));
    } else {
        assert(raw_bytes(raw) =~= Seq::<(Seq<u8>, Seq<u8>)>::empty());
        assert(raw.map_values(|p: (Vec<u8>, Vec<u8>)| (spec_utf8_lossy(p.0@), decode_utf8(p.1@))) =~= Seq::<
            (Seq<char>, Seq<char>),
        >::empty());
    }
}

/// Once a prefix of the raw attributes fails to decode, the whole list fails.
pub proof fn lemma_decoded_pairs_prefix(raw: Seq<(Seq<u8>, Seq<u8>)>, n: int)
    requires
        0 <= n <= raw.len(),
        spec_decoded_pairs(raw.take(n)) is None,
    ensures
        spec_decoded_pairs(raw) is None,
    decreases raw.len() - n,
{
    if n < raw.len() {
        assert(raw.take(n + 1).drop_last() =~= raw.take(n));
        lemma_decoded_pairs_prefix(raw, n + 1);
    } else {
        assert(raw.take(n) =~= raw);
    }
}


/// The quick-xml start tag, carried through unopened.
#[verifier::external_type_specification]
#[verifier::external_body]
pub struct ExBytesStart<'a>(quick_xml::events::BytesStart<'a>);

/// The quick-xml reader, carried through unopened.
#[verifier::external_type_specification]
#[verifier::external_body]
#[verifier::reject_recursive_types(R)]
pub struct ExReader<R>(quick_xml::Reader<R>);

/// What quick-xml's attribute iterator gives for a start tag whose content (its name and
/// then its attributes, between `<` and `>`) is `content` and whose name is the first
/// `name_len` bytes: each raw key and raw, still escaped, value in document order, or the
/// message of the first malformed or repeated attribute. It depends on these bytes alone.
pub uninterp spec fn spec_tag_attributes(content: Seq<u8>, name_len: nat) -> Result<Seq<(Seq<u8>, Seq<u8>)>, Seq<char>>;

/// Copies the content of a start tag (`BytesStart` dereferences to it: the name and then the
/// attributes), the length of its name (`BytesStart::name`, which is the content up to that
/// length), and what iterating `BytesStart::attributes` gives: each raw key and raw value,
/// or the message of quick-xml's attribute error. The contract claims that the name lies
/// within the content and that the attributes are those [`spec_tag_attributes`] names for
/// this content and name length, as `attributes` reads `content[name_len..]` and nothing
/// else.
#[verifier::external_body]
fn start_tag_parts(start: &quick_xml::events::BytesStart<'_>) -> (r: (Vec<u8>, usize, Result<Vec<(Vec<u8>, Vec<u8>)>, String>))
    ensures
        r.1 <= r.0@.len(),
        match r.2 {
            Ok(raw) => spec_tag_attributes(r.0@, r.1 as nat) == Ok::<Seq<(Seq<u8>, Seq<u8>)>, Seq<char>>(raw_bytes(raw@)),
            Err(m) => spec_tag_attributes(r.0@, r.1 as nat) == Err::<Seq<(Seq<u8>, Seq<u8>)>, Seq<char>>(m@),
        },
{
    let content: &[u8] = start;
    let mut pairs = Vec::new();
    for a in start.attributes() {
        match a {
            Ok(attr) => pairs.push((attr.key.as_ref().to_vec(), attr.value.as_ref().to_vec())),
            Err(e) => return (content.to_vec(), start.name().as_ref().len(), Err(e.to_string())),
        }
    }
    (content.to_vec(), start.name().as_ref().len(), Ok(pairs))
}

/// Builds a start tag from UTF-8 content with `BytesStart::from_content`, which keeps the
/// content's bytes and the name length as given, and iterates its `attributes`: each raw key
/// and raw value, or the message of quick-xml's attribute error. The contract claims that the
/// outcome is the one [`spec_tag_attributes`] names for these bytes and this name length.
#[verifier::external_body]
fn tag_attributes(content: &str, name_len: usize) -> (r: Result<Vec<(Vec<u8>, Vec<u8>)>, String>)
    requires
        name_len <= content.spec_bytes().len(),
    ensures
        match r {
            Ok(raw) => spec_tag_attributes(content.spec_bytes(), name_len as nat) == Ok::<Seq<(Seq<u8>, Seq<u8>)>, Seq<char>>(raw_bytes(raw@)),
            Err(m) => spec_tag_attributes(content.spec_bytes(), name_len as nat) == Err::<Seq<(Seq<u8>, Seq<u8>)>, Seq<char>>(m@),
        },
{
    let start = quick_xml::events::BytesStart::from_content(content, name_len);
    let mut pairs = Vec::new();
    for a in start.attributes() {
        match a {
            Ok(attr) => pairs.push((attr.key.as_ref().to_vec(), attr.value.as_ref().to_vec())),
            Err(e) => return Err(e.to_string()),
        }
    }
    Ok(pairs)
}

/// The outcome of reading the attributes of a start tag with content `content` and a name
/// of `name_len` bytes: quick-xml's attribute error as an `Xml` error, a value that does not
/// decode as an `Xml` error, and otherwise the decoded map named by the tag's name.
pub open spec fn spec_attrs_of_tag(content: Seq<u8>, name_len: nat, r: Result<Attrs, DeserializeError>) -> bool {
    match spec_tag_attributes(content, name_len) {
        Err(m) => r matches Err(DeserializeError::Xml(msg)) && msg@ == m,
        Ok(raw) => match spec_decoded_pairs(raw) {
            None => r matches Err(e) && e is Xml,
            Some(pairs) => r matches Ok(a) && a@ == pairs_map(pairs) && a.spec_element_name()
                == spec_utf8_lossy(content.take(name_len as int)),
        },
    }
}

/// The attribute map is the one some start tag gives.
pub open spec fn spec_attrs_of_some_tag(r: Result<Attrs, DeserializeError>) -> bool {
    exists|content: Seq<u8>, name_len: nat| name_len <= content.len() && #[trigger] spec_attrs_of_tag(content, name_len, r)
}

impl Attrs {
    /// Builds the attribute map of a start tag from its content, the outcome of quick-xml's
    /// attribute iterator on it (`attributes`, as [`spec_tag_attributes`] names it) having
    /// been taken by the caller: the name is the first `name_len` bytes.
    pub fn from_tag_parts(content: &[u8], name_len: usize, attributes: Result<Vec<(Vec<u8>, Vec<u8>)>, String>) -> (r: Result<Self, DeserializeError>)
        requires
            name_len <= content@.len(),
        ensures
            match attributes {
                Err(m) => r matches Err(e) && e == DeserializeError::Xml(m),
                Ok(raw) => match spec_decoded_pairs(raw_bytes(raw@)) {
                    None => r matches Err(e) && e is Xml,
                    Some(pairs) => r matches Ok(a) && a@ == pairs_map(pairs) && a.spec_element_name()
                        == spec_utf8_lossy(content@.take(name_len as int)),
                },
            },
    {
        let mut name: Vec<u8> = Vec::new();
        let mut i: usize = 0;
        while i < name_len
            invariant
                i <= name_len <= content@.len(),
                name@ == content@.take(i as int),
            decreases name_len - i,
        {
            name.push(content[i]);
            proof {
                assert(content@.take(i + 1) =~= content@.take(i as int).push(content@[i as int]));
            }
            i = i + 1;
        }
        match attributes {
            Ok(raw) => Attrs::from_raw(name.as_slice(), raw),
            Err(m) => Err(DeserializeError::Xml(m)),
        }
    }

    /// Builds the attribute map of a start tag given its UTF-8 content (the name, then the
    /// attributes) and the length in bytes of its name.
    pub fn from_tag_content(content: &str, name_len: usize) -> (r: Result<Self, DeserializeError>)
        requires
            name_len <= content.spec_bytes().len(),
        ensures
            spec_attrs_of_tag(content.spec_bytes(), name_len as nat, r),
    {
        let attributes = tag_attributes(content, name_len);
        Attrs::from_tag_parts(content.as_bytes(), name_len, attributes)
    }

    /// Parse attributes from a start (or empty) tag: every value is decoded as UTF-8 (the
    /// reader's only encoding here) and unescaped once, and stored by key; the map is the
    /// one [`spec_attrs_of_tag`] gives for the tag's own content and name.
    pub fn from_start<R>(start: &quick_xml::events::BytesStart<'_>, _reader: &quick_xml::Reader<R>) -> (r: Result<Self, DeserializeError>)
        ensures
            spec_attrs_of_some_tag(r),
    {
        let (content, name_len, attributes) = start_tag_parts(start);
        let r = Attrs::from_tag_parts(content.as_slice(), name_len, attributes);
        proof {
            assert(spec_attrs_of_tag(content@, name_len as nat, r));
        }
        r
    }
}

/// One XML event as the reader reports it, reduced to the plain values that the reading
/// decisions look at: tag names, and the raw (still escaped) bytes of text and CDATA.
#[derive(Debug)]
pub enum ReadEvent {
    Start(Vec<u8>),
    End(Vec<u8>),
    Empty(Vec<u8>),
    Text(Vec<u8>),
    CData(Vec<u8>),
    Eof,
    /// Comments, processing instructions, declarations and doctypes.
    Other,
}

/// What skipping an element does after one event.
#[derive(Debug, PartialEq, Eq, Structural)]
pub enum SkipStep {
    /// Keep reading, at this nesting depth.
    Continue(u32),
    /// The end tag that closes the skipped element has been read.
    Done,
}

/// The outcome of one step of skipping an element at nesting depth `depth`.
pub open spec fn spec_skip_step(depth: int, event: ReadEvent, tag_name: Seq<u8>) -> Option<(bool, int)> {
    match event {
        ReadEvent::Start(_) => Some((false, depth + 1)),
        ReadEvent::End(name) => if depth - 1 == 0 && name@ == tag_name {
            Some((true, 0))
        } else {
            Some((false, depth - 1))
        },
        ReadEvent::Eof => None,
        _ => Some((false, depth)),
    }
}

/// One step of skipping an element's subtree: a start tag opens one more level, an end tag
/// closes one, and the end tag that brings the depth to zero with the skipped element's name
/// finishes. The document must not end first.
pub fn skip_element_step(depth: u32, event: &ReadEvent, tag_name: &[u8]) -> (r: Result<SkipStep, DeserializeError>)
    requires
        event is Start ==> depth < u32::MAX,
        event is End ==> depth >= 1,
    ensures
        match spec_skip_step(depth as int, *event, tag_name@) {
            None => r == Err::<SkipStep, DeserializeError>(DeserializeError::UnexpectedEof),
            Some((true, _)) => r == Ok::<SkipStep, DeserializeError>(SkipStep::Done),
            Some((false, d)) => r matches Ok(SkipStep::Continue(e)) && e as int == d,
        },
{
    match event {
        ReadEvent::Start(_) => Ok(SkipStep::Continue(depth + 1)),
        ReadEvent::End(name) => {
            let d = depth - 1;
            if d == 0 && bytes_eq(name.as_slice(), tag_name) {
                Ok(SkipStep::Done)
            } else {
                Ok(SkipStep::Continue(d))
            }
        },
        ReadEvent::Eof => Err(DeserializeError::UnexpectedEof),
        _ => Ok(SkipStep::Continue(depth)),
    }
}

/// Byte-wise equality of two slices.
pub fn bytes_eq(a: &[u8], b: &[u8]) -> (r: bool)
    ensures
        r == (a@ == b@),
{
    if a.len() != b.len() {
        return false;
    }
    let mut i: usize = 0;
    while i < a.len()
        invariant
            a@.len() == b@.len(),
            i <= a@.len(),
            forall|j: int| 0 <= j < i ==> a@[j] == b@[j],
        decreases a@.len() - i,
    {
        if a[i] != b[i] {
            return false;
        }
        i = i + 1;
    }
    proof {
        assert(a@ =~= b@);
    }
    true
}

/// Running the skip steps over `events` from `depth`: the position of the event that
/// finishes, or nothing when the events end (or the document ends) before that.
pub open spec fn spec_skip_run(depth: int, events: Seq<ReadEvent>, tag_name: Seq<u8>) -> Option<int>
    decreases events.len(),
{
    if events.len() == 0 {
        None
    } else {
        match spec_skip_step(depth, events[0], tag_name) {
            None => None,
            Some((true, _)) => Some(0),
            Some((false, d)) => match spec_skip_run(d, events.drop_first(), tag_name) {
                Some(i) => Some(i + 1),
                None => None,
            },
        }
    }
}

/// Start tags minus end tags among the first `n` events.
pub open spec fn spec_open_count(events: Seq<ReadEvent>, n: int) -> int
    decreases n,
{
    if n <= 0 {
        0
    } else {
        spec_open_count(events, n - 1) + match events[n - 1] {
            ReadEvent::Start(_) => 1int,
            ReadEvent::End(_) => -1int,
            _ => 0int,
        }
    }
}

/// The events form the content of an element: no end of document, every end tag closes
/// an open start tag, and every start tag is closed.
pub open spec fn spec_balanced(events: Seq<ReadEvent>) -> bool {
    &&& forall|i: int| 0 <= i < events.len() ==> !(events[i] is Eof)
    &&& forall|n: int| 0 <= n <= events.len() ==> spec_open_count(events, n) >= 0
    &&& spec_open_count(events, events.len() as int) == 0
}

/// From any point of balanced content, at depth one more than the tags still open there,
/// skipping reads the rest of the content and finishes at the closing tag that follows.
proof fn lemma_skip_run_suffix(events: Seq<ReadEvent>, k: int, name: Vec<u8>)
    requires
        spec_balanced(events),
        0 <= k <= events.len(),
    ensures
        spec_skip_run(1 + spec_open_count(events, k), events.subrange(k, events.len() as int).push(ReadEvent::End(name)), name@)
            == Some(events.len() - k),
    decreases events.len() - k,
{
    let rest = events.subrange(k, events.len() as int).push(ReadEvent::End(name));
    if k == events.len() {
        assert(rest.drop_first().len() == 0);
    } else {
        assert(rest[0] == events[k]);
        assert(rest.drop_first() =~= events.subrange(k + 1, events.len() as int).push(ReadEvent::End(name)));
        assert(!(events[k] is Eof));
        assert(spec_open_count(events, k + 1) >= 0);
        lemma_skip_run_suffix(events, k + 1, name);
    }
}

/// Skipping an element whose content is balanced reads all of that content and stops at
/// the end tag with the element's name that follows it.
pub proof fn lemma_skip_reads_whole_element(events: Seq<ReadEvent>, name: Vec<u8>)
    requires
        spec_balanced(events),
    ensures
        spec_skip_run(1, events.push(ReadEvent::End(name)), name@) == Some(events.len() as int),
{
    lemma_skip_run_suffix(events, 0, name);
    assert(events.subrange(0, events.len() as int) =~= events);
}


/// The text of an error, as it is shown to a user.
pub open spec fn spec_deserialize_message(e: DeserializeError) -> Seq<char> {
    match e {
        DeserializeError::MissingField(f) => "missing field: "@ + f@,
        DeserializeError::Custom(m) => m@,
        DeserializeError::UnexpectedEof => "unexpected end of file"@,
        DeserializeError::UnexpectedElement { expected, found } => "expected element "@ + expected@ + ", found "@
            + found@,
        DeserializeError::Xml(m) => "XML error: "@ + m@,
    }
}

impl DeserializeError {
    /// The text of the error.
    pub fn message(&self) -> (r: String)
        ensures
            r@ == spec_deserialize_message(*self),
    {
        match self {
            DeserializeError::MissingField(f) => {
                let mut m = String::from_str("missing field: ");
                m.append(f.as_str());
                m
            },
            DeserializeError::Custom(m) => m.clone(),
            DeserializeError::UnexpectedEof => String::from_str("unexpected end of file"),
            DeserializeError::UnexpectedElement { expected, found } => {
                let mut m = String::from_str("expected element ");
                m.append(expected.as_str());
                m.append(", found ");
                m.append(found.as_str());
                m
            },
            DeserializeError::Xml(x) => {
                let mut m = String::from_str("XML error: ");
                m.append(x.as_str());
                m
            },
        }
    }
}

/// What one event does to the text being read from an element: the new text, and whether
/// the element has ended; nothing when the event cannot be read as text or the document
/// ends first.
pub open spec fn spec_text_step(text: Seq<char>, event: ReadEvent) -> Option<(Seq<char>, bool)> {
    match event {
        ReadEvent::Text(bytes) => if valid_utf8(bytes@) {
            match spec_unescaped(decode_utf8(bytes@)) {
                Some(t) => Some((text + t, false)),
                None => None,
            }
        } else {
            None
        },
        ReadEvent::CData(bytes) => Some((text + spec_utf8_lossy(bytes@), false)),
        ReadEvent::End(_) => Some((text, true)),
        ReadEvent::Eof => None,
        _ => Some((text, false)),
    }
}

/// One step of reading an element's text content: escaped text is decoded and unescaped
/// and appended, CDATA is appended as it stands, the end tag finishes, other events are
/// passed over, and the end of the document is an error. Returns whether the element ended.
pub fn read_text_step(text: &mut String, event: &ReadEvent) -> (r: Result<bool, DeserializeError>)
    ensures
        match spec_text_step(old(text)@, *event) {
            Some((t, done)) => r == Ok::<bool, DeserializeError>(done) && final(text)@ == t,
            None => {
                &&& final(text)@ == old(text)@
                &&& *event is Eof ==> r == Err::<bool, DeserializeError>(DeserializeError::UnexpectedEof)
                &&& !(*event is Eof) ==> (r matches Err(e) && e is Xml)
                &&& (*event matches ReadEvent::Text(b) && !valid_utf8(b@)) ==> (r matches Err(e) && e matches DeserializeError::Xml(m)
                    && m@ == "text is not valid UTF-8"@)
            },
        },
        *event matches ReadEvent::Text(b) ==> (valid_utf8(b@) && !has_reference_start(decode_utf8(b@)) ==> (r
            == Ok::<bool, DeserializeError>(false) && final(text)@ == old(text)@ + decode_utf8(b@))),
{
    match event {
        ReadEvent::Text(bytes) => {
            let decoded = match utf8_to_string(bytes.clone()) {
                Some(d) => d,
                None => {
                    return Err(DeserializeError::Xml(String::from_str("text is not valid UTF-8")));
                },
            };
            match xml_unescape(decoded.as_str()) {
                Ok(t) => {
                    text.append(t.as_str());
                    Ok(false)
                },
                Err(m) => Err(DeserializeError::Xml(m)),
            }
        },
        ReadEvent::CData(bytes) => {
            let t = utf8_lossy(bytes.as_slice());
            text.append(t.as_str());
            Ok(false)
        },
        ReadEvent::End(_) => Ok(true),
        ReadEvent::Eof => Err(DeserializeError::UnexpectedEof),
        _ => Ok(false),
    }
}

/// A child element met while reading: its name, and whether it was written as an empty
/// element (`<tag/>`) rather than a start tag (`<tag>`).
#[derive(Debug, Clone)]
pub struct ChildElement<'a> {
    pub name: &'a [u8],
    pub is_empty: bool,
}

/// A reader and its buffer, together with the path of elements being read, which error
/// messages name.
#[verifier::reject_recursive_types(R)]
pub struct XmlCursor<'a, R> {
    reader: &'a mut quick_xml::Reader<R>,
    buf: &'a mut Vec<u8>,
    path: Vec<String>,
}

impl<'a, R> View for XmlCursor<'a, R> {
    type V = Seq<Seq<char>>;

    /// The element names on the path, outermost first.
    closed spec fn view(&self) -> Seq<Seq<char>> {
        spec_texts(self.path@)
    }
}

/// The path after entering an element: its name is added at the end.
pub open spec fn spec_path_after_push(path: Seq<Seq<char>>, element: Seq<char>) -> Seq<Seq<char>> {
    path.push(element)
}

/// The path after leaving the innermost element: the last name is removed, if there is one.
pub open spec fn spec_path_after_pop(path: Seq<Seq<char>>) -> Seq<Seq<char>> {
    if path.len() == 0 {
        path
    } else {
        path.drop_last()
    }
}

/// The path as it is shown in messages: the element names joined by `/`.
pub open spec fn spec_path_text(path: Seq<Seq<char>>) -> Seq<char> {
    spec_join(path, "/"@)
}

impl<'a, R> XmlCursor<'a, R> {
    /// The bytes in the read buffer.
    pub closed spec fn spec_buf(&self) -> Seq<u8> {
        (*self.buf)@
    }

    /// The reader the cursor reads from, in its current state.
    pub closed spec fn spec_reader(&self) -> quick_xml::Reader<R> {
        *self.reader
    }

    /// A cursor over a reader and buffer, with an empty path.
    pub fn new(reader: &'a mut quick_xml::Reader<R>, buf: &'a mut Vec<u8>) -> (c: Self)
        ensures
            c@ == Seq::<Seq<char>>::empty(),
            c.spec_buf() == (*old(buf))@,
    {
        let c = XmlCursor { reader, buf, path: Vec::new() };
        proof {
            assert(c@ =~= Seq::<Seq<char>>::empty());
        }
        c
    }

    /// Enter an element: its name goes on the end of the path.
    pub fn push_path(&mut self, element: &str)
        ensures
            final(self)@ == spec_path_after_push(old(self)@, element@),
    {
        let ghost before = self.path@;
        self.path.push(String::from_str(element));
        proof {
            assert(spec_texts(self.path@) =~= spec_texts(before).push(element@));
        }
    }

    /// Leave the innermost element: the last name leaves the path, if there is one.
    pub fn pop_path(&mut self)
        ensures
            final(self)@ == spec_path_after_pop(old(self)@),
    {
        let ghost before = self.path@;
        let _ = self.path.pop();
        proof {
            if before.len() > 0 {
                assert(spec_texts(self.path@) =~= spec_texts(before).drop_last());
            }
        }
    }

    /// The path as text, e.g. `xmile/model/variables`.
    pub fn path_str(&self) -> (r: String)
        ensures
            r@ == spec_path_text(self@),
    {
        join_strings(&self.path, "/")
    }

    /// A `Custom` error with the message, followed by the path when there is one.
    pub fn error(&self, message: &str) -> (e: DeserializeError)
        ensures
            self@.len() == 0 ==> e.is_custom(message@),
            self@.len() > 0 ==> e.is_custom(message@ + " (at "@ + spec_path_text(self@) + ")"@),
    {
        if self.path.len() == 0 {
            DeserializeError::Custom(String::from_str(message))
        } else {
            let mut m = String::from_str(message);
            m.append(" (at ");
            let p = self.path_str();
            m.append(p.as_str());
            m.append(")");
            DeserializeError::Custom(m)
        }
    }

    /// A `MissingField` error naming the field, under the path when there is one.
    pub fn missing_field(&self, field: &str) -> (e: DeserializeError)
        ensures
            self@.len() == 0 ==> e.is_missing_field(field@),
            self@.len() > 0 ==> e.is_missing_field(spec_path_text(self@) + "/"@ + field@),
    {
        if self.path.len() == 0 {
            DeserializeError::MissingField(String::from_str(field))
        } else {
            let mut m = self.path_str();
            m.append("/");
            m.append(field);
            DeserializeError::MissingField(m)
        }
    }

    /// Parse the attributes of a start tag read through this cursor.
    pub fn parse_attrs(&self, start: &quick_xml::events::BytesStart<'_>) -> (r: Result<Attrs, DeserializeError>)
        ensures
            spec_attrs_of_some_tag(r),
    {
        Attrs::from_start(start, &*self.reader)
    }

    /// The underlying reader, for reading events directly; the path is left as it is.
    pub fn reader(&mut self) -> (r: &mut quick_xml::Reader<R>)
        ensures
            *r == old(self).spec_reader(),
            final(self).spec_reader() == *final(r),
            final(self).spec_buf() == old(self).spec_buf(),
            final(self)@ == old(self)@,
    {
        &mut *self.reader
    }

    /// The reader together with the read buffer, for reading the next event into the buffer;
    /// the path is left as it is.
    pub fn reader_and_buf(&mut self) -> (r: (&mut quick_xml::Reader<R>, &mut Vec<u8>))
        ensures
            (*r.1)@ == old(self).spec_buf(),
            final(self).spec_buf() == (*final(r.1))@,
            final(self)@ == old(self)@,
    {
        (&mut *self.reader, &mut *self.buf)
    }

    /// The read buffer, as it stands; the path is left as it is.
    pub fn buf(&mut self) -> (r: &mut Vec<u8>)
        ensures
            (*r)@ == old(self).spec_buf(),
            final(self).spec_buf() == (*final(r))@,
            final(self)@ == old(self)@,
    {
        &mut *self.buf
    }
}

/// Entering and then leaving an element gives back the path as it was.
pub proof fn lemma_push_pop_path(path: Seq<Seq<char>>, element: Seq<char>)
    ensures
        spec_path_after_pop(spec_path_after_push(path, element)) == path,
{
    assert(path.push(element).drop_last() =~= path);
}

/// What the text of a `non_negative` element says, after trimming white space: `true` or
/// `false`, or no value when it is empty; any other text is refused with this message.
pub open spec fn spec_parse_non_negative(text: Seq<char>) -> Result<Option<bool>, Seq<char>> {
    let t = spec_trim(text);
    if t == "true"@ {
        Ok(Some(true))
    } else if t == "false"@ {
        Ok(Some(false))
    } else if t.len() == 0 {
        Ok(None)
    } else {
        Err("Invalid non_negative value: "@ + text)
    }
}

/// Reads the text of a `non_negative` element.
pub fn parse_non_negative(text: &str) -> (r: Result<Option<bool>, DeserializeError>)
    ensures
        match spec_parse_non_negative(text@) {
            Ok(v) => r == Ok::<Option<bool>, DeserializeError>(v),
            Err(m) => r matches Err(e) && e.is_custom(m),
        },
{
    let t = trim(text);
    if str_eq(t, "true") {
        Ok(Some(true))
    } else if str_eq(t, "false") {
        Ok(Some(false))
    } else if t.unicode_len() == 0 {
        Ok(None)
    } else {
        Err(DeserializeError::custom_with("Invalid non_negative value: ", text))
    }
}

/// A `non_negative` element is read back as it was written: a value written as `true` or
/// `false` is read as that value, and the empty element as no value.
pub proof fn lemma_non_negative_round_trip(b: bool)
    ensures
        spec_parse_non_negative(spec_bool_text(b)) == Ok::<Option<bool>, Seq<char>>(Some(b)),
        spec_parse_non_negative(Seq::empty()) == Ok::<Option<bool>, Seq<char>>(None),
{
    reveal_strlit("true");
    reveal_strlit("false");
    assert("true"@.len() == 4);
    assert("false"@.len() == 5);
    let t = spec_bool_text(b);
    assert(!is_white_space(t[0]));
    assert(!is_white_space(t.last()));
    assert(spec_trim_start(t) == t);
    assert(spec_trim_end(t) == t);
    assert(spec_trim_start(Seq::<char>::empty()) == Seq::<char>::empty());
    assert(spec_trim_end(Seq::<char>::empty()) == Seq::<char>::empty());
}


/// Booleans are written `true` and `false`; `true`, `1` and `yes` are read as true, and
/// `false`, `0` and `no` as false.
pub proof fn lemma_bool_texts()
    ensures
        spec_bool_text(true) == "true"@,
        spec_bool_text(false) == "false"@,
        spec_bool_from_text("true"@) == Some(true),
        spec_bool_from_text("1"@) == Some(true),
        spec_bool_from_text("yes"@) == Some(true),
        spec_bool_from_text("false"@) == Some(false),
        spec_bool_from_text("0"@) == Some(false),
        spec_bool_from_text("no"@) == Some(false),
{
    reveal_strlit("true");
    assert("true"@.len() == 4);
    assert(is_lowercase_ascii_word("true"@));
    lemma_lowercase_word("true"@);
    reveal_strlit("1");
    assert("1"@.len() == 1);
    assert(is_lowercase_ascii_word("1"@));
    lemma_lowercase_word("1"@);
    reveal_strlit("yes");
    assert("yes"@.len() == 3);
    assert(is_lowercase_ascii_word("yes"@));
    lemma_lowercase_word("yes"@);
    reveal_strlit("false");
    assert("false"@.len() == 5);
    assert(is_lowercase_ascii_word("false"@));
    lemma_lowercase_word("false"@);
    reveal_strlit("0");
    assert("0"@.len() == 1);
    assert(is_lowercase_ascii_word("0"@));
    lemma_lowercase_word("0"@);
    reveal_strlit("no");
    assert("no"@.len() == 2);
    assert(is_lowercase_ascii_word("no"@));
    lemma_lowercase_word("no"@);
    assert("1"@[0] != "0"@[0]);
    assert("yes"@[0] != "no"@[0] || "yes"@.len() != "no"@.len());
}

} // verus!
