//! Reading stocks and flows: the settings read from the attributes of their child
//! elements, and the steps that fold each child element into the variable being read.
//!
//! Numbers (range and scale bounds, format precision, flow multipliers) are of the type
//! `N` chosen by the caller, which parses their text; an equation is kept as its text.

use vstd::prelude::*;
use vstd::string::*;
use crate::actions::ReadErrorSpec;
use crate::de::{spec_bool_from_text, spec_get, spec_invalid_bool_message, spec_invalid_value_message, spec_parse_non_negative, parse_non_negative, Attrs, DeserializeError};
use crate::model::Documentation;
use crate::serialize::{documentation_from_text, spec_documentation, spec_reads_as_html};
use crate::text::{spec_parse_int, str_eq};
use crate::diagram::ok_of;
use crate::view::{parse_display_as, spec_display_as_from_text, AccessType, DisplayAs};

verus! {

/// The range a variable's value is expected to lie in.
#[derive(Debug, Clone, PartialEq)]
pub struct DeviceRange<N> {
    pub min: N,
    pub max: N,
}

/// How a variable's value is scaled on display.
#[derive(Debug, Clone, PartialEq)]
pub enum DeviceScale<N> {
    /// Scaled automatically (or not).
    Auto(bool),
    /// Scaled together with the other variables of a group.
    Group(u32),
    /// Scaled between two bounds.
    MinMax { min: N, max: N },
}

/// How a variable's value is formatted.
#[derive(Debug, Clone, PartialEq)]
pub struct FormatOptions<N> {
    pub precision: Option<N>,
    pub scale_by: Option<N>,
    pub display_as: Option<DisplayAs>,
    pub delimit_000s: Option<bool>,
}

/// What a `conveyor` element of a stock says: its equations (as text) and its flags.
#[derive(Debug, Clone, PartialEq)]
pub struct ConveyorData {
    pub length: Option<String>,
    pub capacity: Option<String>,
    pub inflow_limit: Option<String>,
    pub sample: Option<String>,
    pub arrest_value: Option<String>,
    pub discrete: Option<bool>,
    pub batch_integrity: Option<bool>,
    pub one_at_a_time: Option<bool>,
    pub exponential_leakage: Option<bool>,
}

/// An outcome of reading, compared with its description: the same value, or an error of
/// the described kind and text.
pub open spec fn result_is<T>(r: Result<T, DeserializeError>, s: Result<T, ReadErrorSpec>) -> bool {
    match s {
        Ok(v) => r matches Ok(w) && w == v,
        Err(e) => r matches Err(x) && x.is_read_error(e),
    }
}

/// Reading an attribute holding a number parsed by the caller: `outcome` is the parse of
/// its text, `None` when the attribute is absent.
pub open spec fn spec_parsed_attr<N>(a: Attrs, key: Seq<char>, outcome: Option<Result<N, String>>) -> Result<Option<N>, ReadErrorSpec> {
    match outcome {
        None => Ok(None),
        Some(Ok(v)) => Ok(Some(v)),
        Some(Err(m)) => Err(ReadErrorSpec::Custom(
            "Invalid value for "@ + a.spec_element_name() + "@"@ + key + ": "@ + m@ + " (got '"@ + a@[key] + "')"@,
        )),
    }
}

/// Reading a required attribute holding a number parsed by the caller: a missing one gives
/// `MissingField("element@key")`.
pub open spec fn spec_required_parsed_attr<N>(a: Attrs, key: Seq<char>, outcome: Option<Result<N, String>>) -> Result<N, ReadErrorSpec> {
    match outcome {
        None => Err(ReadErrorSpec::MissingField(a.spec_element_name() + "@"@ + key)),
        Some(Ok(v)) => Ok(v),
        Some(Err(m)) => Err(ReadErrorSpec::Custom(
            "Invalid value for "@ + a.spec_element_name() + "@"@ + key + ": "@ + m@ + " (got '"@ + a@[key] + "')"@,
        )),
    }
}

/// Reading a required parsed attribute is reading it as optional and refusing its absence
/// with `MissingField("element@key")`.
pub proof fn lemma_required_parsed_is_optional_parsed<N>(a: Attrs, key: Seq<char>, outcome: Option<Result<N, String>>)
    ensures
        spec_required_parsed_attr(a, key, outcome) == match spec_parsed_attr(a, key, outcome) {
            Ok(Some(v)) => Ok(v),
            Ok(None) => Err(ReadErrorSpec::MissingField(a.spec_element_name() + "@"@ + key)),
            Err(e) => Err(e),
        },
{
}

/// Reading an optional boolean attribute.
pub open spec fn spec_bool_attr(a: Attrs, key: Seq<char>) -> Result<Option<bool>, ReadErrorSpec> {
    if !a@.contains_key(key) {
        Ok(None)
    } else {
        match spec_bool_from_text(a@[key]) {
            Some(b) => Ok(Some(b)),
            None => Err(ReadErrorSpec::Custom(spec_invalid_bool_message(a.spec_element_name(), key, a@[key]))),
        }
    }
}

/// Reading an optional unsigned 32-bit attribute.
pub open spec fn spec_u32_attr(a: Attrs, key: Seq<char>) -> Result<Option<u32>, ReadErrorSpec> {
    match spec_get(a@, key) {
        None => Ok(None),
        Some(t) => match spec_parse_int(t, false, 0, u32::MAX as int) {
            Ok(v) => Ok(Some(v as u32)),
            Err(e) => Err(ReadErrorSpec::Custom(spec_invalid_value_message(a.spec_element_name(), key, e, t))),
        },
    }
}

/// Reading an optional signed 32-bit attribute.
pub open spec fn spec_i32_attr(a: Attrs, key: Seq<char>) -> Result<Option<i32>, ReadErrorSpec> {
    match spec_get(a@, key) {
        None => Ok(None),
        Some(t) => match spec_parse_int(t, true, i32::MIN as int, i32::MAX as int) {
            Ok(v) => Ok(Some(v as i32)),
            Err(e) => Err(ReadErrorSpec::Custom(spec_invalid_value_message(a.spec_element_name(), key, e, t))),
        },
    }
}

/// The outcome the caller passes for `key` is present exactly when the attribute is.
pub open spec fn outcome_matches<N>(a: Attrs, key: Seq<char>, outcome: Option<Result<N, String>>) -> bool {
    outcome is Some <==> a@.contains_key(key)
}

pub(crate) fn parsed_attr<N>(attrs: &Attrs, key: &str, outcome: Option<Result<N, String>>) -> (r: Result<Option<N>, DeserializeError>)
    requires
        outcome_matches(*attrs, key@, outcome),
    ensures
        result_is(r, spec_parsed_attr(*attrs, key@, outcome)),
{
    attrs.get_opt_parsed_from(key, outcome)
}

pub(crate) fn bool_attr(attrs: &Attrs, key: &str) -> (r: Result<Option<bool>, DeserializeError>)
    ensures
        result_is(r, spec_bool_attr(*attrs, key@)),
{
    attrs.get_opt_bool(key)
}

pub(crate) fn u32_attr(attrs: &Attrs, key: &str) -> (r: Result<Option<u32>, DeserializeError>)
    ensures
        result_is(r, spec_u32_attr(*attrs, key@)),
{
    let r = attrs.get_opt_u32(key);
    proof {
        match spec_get(attrs@, key@) {
            None => {},
            Some(t) => {
                match spec_parse_int(t, false, 0, u32::MAX as int) {
                    Ok(v) => {
                        assert(r matches Ok(Some(w)) && w as int == v);
                    },
                    Err(e) => {},
                }
            },
        }
    }
    r
}

pub(crate) fn i32_attr(attrs: &Attrs, key: &str) -> (r: Result<Option<i32>, DeserializeError>)
    ensures
        result_is(r, spec_i32_attr(*attrs, key@)),
{
    let r = attrs.get_opt_i32(key);
    proof {
        match spec_get(attrs@, key@) {
            None => {},
            Some(t) => {
                match spec_parse_int(t, true, i32::MIN as int, i32::MAX as int) {
                    Ok(v) => {
                        assert(r matches Ok(Some(w)) && w as int == v);
                    },
                    Err(e) => {},
                }
            },
        }
    }
    r
}

/// The range read from the attributes of a `range` element: both bounds are needed for a
/// range, and a missing one leaves the variable without one. Errors in `min` come first.
pub open spec fn spec_range<N>(a: Attrs, min: Option<Result<N, String>>, max: Option<Result<N, String>>) -> Result<Option<DeviceRange<N>>, ReadErrorSpec> {
    match spec_parsed_attr(a, "min"@, min) {
        Err(e) => Err(e),
        Ok(lo) => match spec_parsed_attr(a, "max"@, max) {
            Err(e) => Err(e),
            Ok(hi) => Ok(match (lo, hi) {
                (Some(x), Some(y)) => Some(DeviceRange { min: x, max: y }),
                _ => None,
            }),
        },
    }
}

/// Reads the attributes of a `range` element; `min` and `max` are the parses of the bound
/// attributes' texts.
pub fn range_from_attrs<N>(attrs: &Attrs, min: Option<Result<N, String>>, max: Option<Result<N, String>>) -> (r: Result<Option<DeviceRange<N>>, DeserializeError>)
    requires
        outcome_matches(*attrs, "min"@, min),
        outcome_matches(*attrs, "max"@, max),
    ensures
        result_is(r, spec_range(*attrs, min, max)),
{
    let lo = match parsed_attr(attrs, "min", min) {
        Ok(v) => v,
        Err(e) => return Err(e),
    };
    let hi = match parsed_attr(attrs, "max", max) {
        Ok(v) => v,
        Err(e) => return Err(e),
    };
    match (lo, hi) {
        (Some(x), Some(y)) => Ok(Some(DeviceRange { min: x, max: y })),
        _ => Ok(None),
    }
}

/// The scale read from the attributes of a `scale` element, in the order `min`, `max`,
/// `auto`, `group`: `auto` wins over `group`, which wins over a pair of bounds.
pub open spec fn spec_scale<N>(a: Attrs, min: Option<Result<N, String>>, max: Option<Result<N, String>>) -> Result<Option<DeviceScale<N>>, ReadErrorSpec> {
    match spec_parsed_attr(a, "min"@, min) {
        Err(e) => Err(e),
        Ok(lo) => match spec_parsed_attr(a, "max"@, max) {
            Err(e) => Err(e),
            Ok(hi) => match spec_bool_attr(a, "auto"@) {
                Err(e) => Err(e),
                Ok(auto) => match spec_u32_attr(a, "group"@) {
                    Err(e) => Err(e),
                    Ok(group) => Ok(
                        if auto is Some {
                            Some(DeviceScale::Auto(auto->0))
                        } else if group is Some {
                            Some(DeviceScale::Group(group->0))
                        } else {
                            match (lo, hi) {
                                (Some(x), Some(y)) => Some(DeviceScale::MinMax { min: x, max: y }),
                                _ => None,
                            }
                        },
                    ),
                },
            },
        },
    }
}

/// Reads the attributes of a `scale` element.
pub fn scale_from_attrs<N>(attrs: &Attrs, min: Option<Result<N, String>>, max: Option<Result<N, String>>) -> (r: Result<Option<DeviceScale<N>>, DeserializeError>)
    requires
        outcome_matches(*attrs, "min"@, min),
        outcome_matches(*attrs, "max"@, max),
    ensures
        result_is(r, spec_scale(*attrs, min, max)),
{
    let lo = match parsed_attr(attrs, "min", min) {
        Ok(v) => v,
        Err(e) => return Err(e),
    };
    let hi = match parsed_attr(attrs, "max", max) {
        Ok(v) => v,
        Err(e) => return Err(e),
    };
    let auto = match bool_attr(attrs, "auto") {
        Ok(v) => v,
        Err(e) => return Err(e),
    };
    let group = match u32_attr(attrs, "group") {
        Ok(v) => v,
        Err(e) => return Err(e),
    };
    if let Some(b) = auto {
        Ok(Some(DeviceScale::Auto(b)))
    } else if let Some(g) = group {
        Ok(Some(DeviceScale::Group(g)))
    } else {
        match (lo, hi) {
            (Some(x), Some(y)) => Ok(Some(DeviceScale::MinMax { min: x, max: y })),
            _ => Ok(None),
        }
    }
}

/// Reading the `display_as` attribute: an unknown mode is refused when `strict`, and read
/// as no mode otherwise.
pub open spec fn spec_display_as_attr(a: Attrs, strict: bool) -> Result<Option<DisplayAs>, ReadErrorSpec> {
    match spec_get(a@, "display_as"@) {
        None => Ok(None),
        Some(t) => match spec_display_as_from_text(t) {
            Some(d) => Ok(Some(d)),
            None => if strict {
                Err(ReadErrorSpec::Custom("Invalid display_as: "@ + t))
            } else {
                Ok(None)
            },
        },
    }
}

/// The format read from the attributes of a `format` element, in the order `precision`,
/// `scale_by`, `display_as`, `delimit_000s`. An element with content (`strict`) refuses an
/// unknown `display_as`; an empty one ignores it.
pub open spec fn spec_format<N>(a: Attrs, precision: Option<Result<N, String>>, scale_by: Option<Result<N, String>>, strict: bool) -> Result<FormatOptions<N>, ReadErrorSpec> {
    match spec_parsed_attr(a, "precision"@, precision) {
        Err(e) => Err(e),
        Ok(p) => match spec_parsed_attr(a, "scale_by"@, scale_by) {
            Err(e) => Err(e),
            Ok(s) => match spec_display_as_attr(a, strict) {
                Err(e) => Err(e),
                Ok(d) => match spec_bool_attr(a, "delimit_000s"@) {
                    Err(e) => Err(e),
                    Ok(del) => Ok(FormatOptions { precision: p, scale_by: s, display_as: d, delimit_000s: del }),
                },
            },
        },
    }
}

fn display_as_attr(attrs: &Attrs, strict: bool) -> (r: Result<Option<DisplayAs>, DeserializeError>)
    ensures
        result_is(r, spec_display_as_attr(*attrs, strict)),
{
    match attrs.get_opt("display_as") {
        None => Ok(None),
        Some(t) => match parse_display_as(t) {
            Ok(d) => Ok(Some(d)),
            Err(e) => if strict {
                Err(e)
            } else {
                Ok(None)
            },
        },
    }
}

/// Reads the attributes of a `format` element; `strict` is whether the element has content.
pub fn format_from_attrs<N>(attrs: &Attrs, precision: Option<Result<N, String>>, scale_by: Option<Result<N, String>>, strict: bool) -> (r: Result<FormatOptions<N>, DeserializeError>)
    requires
        outcome_matches(*attrs, "precision"@, precision),
        outcome_matches(*attrs, "scale_by"@, scale_by),
    ensures
        result_is(r, spec_format(*attrs, precision, scale_by, strict)),
{
    let p = match parsed_attr(attrs, "precision", precision) {
        Ok(v) => v,
        Err(e) => return Err(e),
    };
    let s = match parsed_attr(attrs, "scale_by", scale_by) {
        Ok(v) => v,
        Err(e) => return Err(e),
    };
    let d = match display_as_attr(attrs, strict) {
        Ok(v) => v,
        Err(e) => return Err(e),
    };
    let del = match bool_attr(attrs, "delimit_000s") {
        Ok(v) => v,
        Err(e) => return Err(e),
    };
    Ok(FormatOptions { precision: p, scale_by: s, display_as: d, delimit_000s: del })
}

/// The flags read from the attributes of a `conveyor` element, with no equations yet:
/// `discrete`, then (for an element with content, `full`) `batch_integrity`,
/// `one_at_a_time` and `exponential_leak`. An empty element carries only `discrete`.
pub open spec fn spec_conveyor_flags(a: Attrs, full: bool) -> Result<ConveyorData, ReadErrorSpec> {
    let blank = ConveyorData {
        length: None,
        capacity: None,
        inflow_limit: None,
        sample: None,
        arrest_value: None,
        discrete: None,
        batch_integrity: None,
        one_at_a_time: None,
        exponential_leakage: None,
    };
    match spec_bool_attr(a, "discrete"@) {
        Err(e) => Err(e),
        Ok(d) => if !full {
            Ok(ConveyorData { discrete: d, ..blank })
        } else {
            match spec_bool_attr(a, "batch_integrity"@) {
                Err(e) => Err(e),
                Ok(b) => match spec_bool_attr(a, "one_at_a_time"@) {
                    Err(e) => Err(e),
                    Ok(o) => match spec_bool_attr(a, "exponential_leak"@) {
                        Err(e) => Err(e),
                        Ok(x) => Ok(ConveyorData {
                            discrete: d,
                            batch_integrity: b,
                            one_at_a_time: o,
                            exponential_leakage: x,
                            ..blank
                        }),
                    },
                },
            }
        },
    }
}

/// Reads the flags of a `conveyor` element; `full` is whether the element has content.
pub fn conveyor_from_attrs(attrs: &Attrs, full: bool) -> (r: Result<ConveyorData, DeserializeError>)
    ensures
        result_is(r, spec_conveyor_flags(*attrs, full)),
{
    let discrete = match bool_attr(attrs, "discrete") {
        Ok(v) => v,
        Err(e) => return Err(e),
    };
    let mut cd = ConveyorData {
        length: None,
        capacity: None,
        inflow_limit: None,
        sample: None,
        arrest_value: None,
        discrete,
        batch_integrity: None,
        one_at_a_time: None,
        exponential_leakage: None,
    };
    if full {
        cd.batch_integrity = match bool_attr(attrs, "batch_integrity") {
            Ok(v) => v,
            Err(e) => return Err(e),
        };
        cd.one_at_a_time = match bool_attr(attrs, "one_at_a_time") {
            Ok(v) => v,
            Err(e) => return Err(e),
        };
        cd.exponential_leakage = match bool_attr(attrs, "exponential_leak") {
            Ok(v) => v,
            Err(e) => return Err(e),
        };
    }
    Ok(cd)
}

/// A conveyor after reading one of its child elements, named `part`, whose equation text is
/// `text`: `len`, `capacity`, `in_limit`, `sample` and `arrest` set the matching equation,
/// and any other element is passed over.
pub open spec fn spec_conveyor_part(cd: ConveyorData, part: Seq<char>, text: String) -> ConveyorData {
    if part == "len"@ {
        ConveyorData { length: Some(text), ..cd }
    } else if part == "capacity"@ {
        ConveyorData { capacity: Some(text), ..cd }
    } else if part == "in_limit"@ {
        ConveyorData { inflow_limit: Some(text), ..cd }
    } else if part == "sample"@ {
        ConveyorData { sample: Some(text), ..cd }
    } else if part == "arrest"@ {
        ConveyorData { arrest_value: Some(text), ..cd }
    } else {
        cd
    }
}

/// The child elements of a `conveyor` element that hold one of its equations.
pub open spec fn spec_is_conveyor_part(part: Seq<char>) -> bool {
    part == "len"@ || part == "capacity"@ || part == "in_limit"@ || part == "sample"@ || part == "arrest"@
}

/// Whether a child element of a `conveyor` element holds one of its equations (and is read
/// for its text) rather than being passed over.
pub fn is_conveyor_part(part: &str) -> (r: bool)
    ensures
        r == spec_is_conveyor_part(part@),
{
    str_eq(part, "len") || str_eq(part, "capacity") || str_eq(part, "in_limit") || str_eq(part, "sample") || str_eq(
        part,
        "arrest",
    )
}

/// Folds one child element of a `conveyor` element into the conveyor being read.
pub fn conveyor_with_part(cd: ConveyorData, part: &str, text: String) -> (r: ConveyorData)
    ensures
        r == spec_conveyor_part(cd, part@, text),
{
    let mut cd = cd;
    if str_eq(part, "len") {
        cd.length = Some(text);
    } else if str_eq(part, "capacity") {
        cd.capacity = Some(text);
    } else if str_eq(part, "in_limit") {
        cd.inflow_limit = Some(text);
    } else if str_eq(part, "sample") {
        cd.sample = Some(text);
    } else if str_eq(part, "arrest") {
        cd.arrest_value = Some(text);
    }
    cd
}

/// One child element of a stock or flow, as the reader found it. Equations, units and
/// identifiers are their element's text; the settings elements carry what
/// [`range_from_attrs`], [`scale_from_attrs`], [`format_from_attrs`] and
/// [`conveyor_from_attrs`] read.
#[derive(Debug)]
pub enum VarChild<N> {
    Eqn(String),
    Mathml(String),
    Multiplier(N),
    Inflow(String),
    Outflow(String),
    Doc(String),
    Units(String),
    /// A `non_negative` element with content, with its text.
    NonNegative(String),
    /// An empty `non_negative` element.
    NonNegativeEmpty,
    /// A `range` element; `None` when it did not give both bounds.
    Range(Option<DeviceRange<N>>),
    /// A `scale` element; `None` when it gave no scale.
    Scale(Option<DeviceScale<N>>),
    Format(FormatOptions<N>),
    Conveyor(ConveyorData),
    Queue,
    /// Any other element, which is passed over.
    Other,
}

/// What has been read so far of a stock or flow.
#[derive(Debug)]
pub struct VarBuilder<N> {
    pub equation: Option<String>,
    pub mathml: Option<String>,
    pub multiplier: Option<N>,
    pub inflows: Vec<String>,
    pub outflows: Vec<String>,
    pub documentation: Option<Documentation>,
    pub units: Option<String>,
    pub non_negative: Option<Option<bool>>,
    pub range: Option<DeviceRange<N>>,
    pub scale: Option<DeviceScale<N>>,
    pub format: Option<FormatOptions<N>>,
    pub conveyor: Option<ConveyorData>,
    pub is_queue: bool,
}

/// A [`VarBuilder`] with its lists of flows as sequences.
pub struct VarBuilderView<N> {
    pub equation: Option<String>,
    pub mathml: Option<String>,
    pub multiplier: Option<N>,
    pub inflows: Seq<String>,
    pub outflows: Seq<String>,
    pub documentation: Option<Documentation>,
    pub units: Option<String>,
    pub non_negative: Option<Option<bool>>,
    pub range: Option<DeviceRange<N>>,
    pub scale: Option<DeviceScale<N>>,
    pub format: Option<FormatOptions<N>>,
    pub conveyor: Option<ConveyorData>,
    pub is_queue: bool,
}

impl<N> View for VarBuilder<N> {
    type V = VarBuilderView<N>;

    open spec fn view(&self) -> VarBuilderView<N> {
        VarBuilderView {
            equation: self.equation,
            mathml: self.mathml,
            multiplier: self.multiplier,
            inflows: self.inflows@,
            outflows: self.outflows@,
            documentation: self.documentation,
            units: self.units,
            non_negative: self.non_negative,
            range: self.range,
            scale: self.scale,
            format: self.format,
            conveyor: self.conveyor,
            is_queue: self.is_queue,
        }
    }
}

/// Nothing read yet.
pub open spec fn spec_empty_builder<N>() -> VarBuilderView<N> {
    VarBuilderView {
        equation: None,
        mathml: None,
        multiplier: None,
        inflows: Seq::empty(),
        outflows: Seq::empty(),
        documentation: None,
        units: None,
        non_negative: None,
        range: None,
        scale: None,
        format: None,
        conveyor: None,
        is_queue: false,
    }
}

impl<N> VarBuilder<N> {
    /// A builder that has read nothing.
    pub fn new() -> (b: Self)
        ensures
            b@ == spec_empty_builder::<N>(),
    {
        VarBuilder {
            equation: None,
            mathml: None,
            multiplier: None,
            inflows: Vec::new(),
            outflows: Vec::new(),
            documentation: None,
            units: None,
            non_negative: None,
            range: None,
            scale: None,
            format: None,
            conveyor: None,
            is_queue: false,
        }
    }
}

/// The kinds of variable whose child elements are folded one by one.
#[derive(Debug, Clone, Copy, PartialEq, Eq, Structural)]
pub enum VarKind {
    Stock,
    Flow,
    Auxiliary,
}

/// Folds one child element into a variable of the given kind being read. The later of two
/// elements of one kind wins, but inflows and outflows are listed in document order, and
/// a `range` or `scale` element that gave nothing leaves the earlier setting. Only a stock
/// takes inflows, outflows, conveyors and queues, only a flow takes a multiplier, and an
/// auxiliary passes over `non_negative` elements.
pub open spec fn spec_var_child_step<N>(acc: VarBuilderView<N>, child: VarChild<N>, kind: VarKind) -> Result<VarBuilderView<N>, ReadErrorSpec> {
    let stock = kind == VarKind::Stock;
    match child {
        VarChild::Eqn(t) => Ok(VarBuilderView { equation: Some(t), ..acc }),
        VarChild::Mathml(t) => Ok(VarBuilderView { mathml: Some(t), ..acc }),
        VarChild::Multiplier(n) => Ok(if kind == VarKind::Flow { VarBuilderView { multiplier: Some(n), ..acc } } else { acc }),
        VarChild::Inflow(t) => Ok(if stock { VarBuilderView { inflows: acc.inflows.push(t), ..acc } } else { acc }),
        VarChild::Outflow(t) => Ok(if stock { VarBuilderView { outflows: acc.outflows.push(t), ..acc } } else { acc }),
        VarChild::Doc(t) => Ok(VarBuilderView { documentation: Some(spec_documentation(t)), ..acc }),
        VarChild::Units(t) => Ok(VarBuilderView { units: Some(t), ..acc }),
        VarChild::NonNegative(t) => if kind == VarKind::Auxiliary {
            Ok(acc)
        } else {
            match spec_parse_non_negative(t@) {
                Ok(v) => Ok(VarBuilderView { non_negative: Some(v), ..acc }),
                Err(m) => Err(ReadErrorSpec::Custom(m)),
            }
        },
        VarChild::NonNegativeEmpty => Ok(if kind == VarKind::Auxiliary { acc } else { VarBuilderView { non_negative: Some(None), ..acc } }),
        VarChild::Range(o) => Ok(match o {
            Some(r) => VarBuilderView { range: Some(r), ..acc },
            None => acc,
        }),
        VarChild::Scale(o) => Ok(match o {
            Some(x) => VarBuilderView { scale: Some(x), ..acc },
            None => acc,
        }),
        VarChild::Format(f) => Ok(VarBuilderView { format: Some(f), ..acc }),
        VarChild::Conveyor(c) => Ok(if stock { VarBuilderView { conveyor: Some(c), ..acc } } else { acc }),
        VarChild::Queue => Ok(if stock { VarBuilderView { is_queue: true, ..acc } } else { acc }),
        VarChild::Other => Ok(acc),
    }
}

/// The outcome of a step, compared with its description.
pub open spec fn step_is<N>(r: Result<VarBuilder<N>, DeserializeError>, s: Result<VarBuilderView<N>, ReadErrorSpec>) -> bool {
    match s {
        Ok(v) => r matches Ok(b) && b@ == v,
        Err(e) => r matches Err(x) && x.is_read_error(e),
    }
}

fn var_child_step<N>(acc: VarBuilder<N>, child: VarChild<N>, kind: VarKind) -> (r: Result<VarBuilder<N>, DeserializeError>)
    ensures
        step_is(r, spec_var_child_step(acc@, child, kind)),
{
    let stock = match kind {
        VarKind::Stock => true,
        _ => false,
    };
    let mut acc = acc;
    match child {
        VarChild::Eqn(t) => acc.equation = Some(t),
        VarChild::Mathml(t) => acc.mathml = Some(t),
        VarChild::Multiplier(n) => {
            if let VarKind::Flow = kind {
                acc.multiplier = Some(n);
            }
        },
        VarChild::Inflow(t) => {
            if stock {
                acc.inflows.push(t);
            }
        },
        VarChild::Outflow(t) => {
            if stock {
                acc.outflows.push(t);
            }
        },
        VarChild::Doc(t) => acc.documentation = Some(documentation_from_text(t)),
        VarChild::Units(t) => acc.units = Some(t),
        VarChild::NonNegative(t) => {
            match kind {
                VarKind::Auxiliary => {},
                _ => match parse_non_negative(t.as_str()) {
                    Ok(v) => acc.non_negative = Some(v),
                    Err(e) => return Err(e),
                },
            }
        },
        VarChild::NonNegativeEmpty => {
            match kind {
                VarKind::Auxiliary => {},
                _ => acc.non_negative = Some(None),
            }
        },
        VarChild::Range(o) => {
            if let Some(r) = o {
                acc.range = Some(r);
            }
        },
        VarChild::Scale(o) => {
            if let Some(x) = o {
                acc.scale = Some(x);
            }
        },
        VarChild::Format(f) => acc.format = Some(f),
        VarChild::Conveyor(c) => {
            if stock {
                acc.conveyor = Some(c);
            }
        },
        VarChild::Queue => {
            if stock {
                acc.is_queue = true;
            }
        },
        VarChild::Other => {},
    }
    Ok(acc)
}

/// Folds one child element of a `stock` element into the stock being read.
pub fn stock_child_step<N>(acc: VarBuilder<N>, child: VarChild<N>) -> (r: Result<VarBuilder<N>, DeserializeError>)
    ensures
        step_is(r, spec_var_child_step(acc@, child, VarKind::Stock)),
{
    var_child_step(acc, child, VarKind::Stock)
}

/// Folds one child element of a `flow` element into the flow being read.
pub fn flow_child_step<N>(acc: VarBuilder<N>, child: VarChild<N>) -> (r: Result<VarBuilder<N>, DeserializeError>)
    ensures
        step_is(r, spec_var_child_step(acc@, child, VarKind::Flow)),
{
    var_child_step(acc, child, VarKind::Flow)
}

/// Folds one child element of an `aux` element into the auxiliary being read.
pub fn aux_child_step<N>(acc: VarBuilder<N>, child: VarChild<N>) -> (r: Result<VarBuilder<N>, DeserializeError>)
    ensures
        step_is(r, spec_var_child_step(acc@, child, VarKind::Auxiliary)),
{
    var_child_step(acc, child, VarKind::Auxiliary)
}

/// A conveyor stock's own settings.
#[derive(Debug, Clone, PartialEq)]
pub struct ConveyorStock {
    pub length: String,
    pub capacity: Option<String>,
    pub inflow_limit: Option<String>,
    pub sample: Option<String>,
    pub arrest_value: Option<String>,
    pub discrete: Option<bool>,
    pub batch_integrity: Option<bool>,
    pub one_at_a_time: Option<bool>,
    pub exponential_leakage: Option<bool>,
}

/// The kind of a stock, with what belongs to that kind alone.
#[derive(Debug, Clone, PartialEq)]
pub enum StockKind {
    Basic { non_negative: Option<Option<bool>> },
    Conveyor(ConveyorStock),
    Queue,
}

/// A stock as read from a `stock` element.
#[derive(Debug)]
pub struct StockDefinition<N> {
    pub name: String,
    pub access: Option<AccessType>,
    pub autoexport: Option<bool>,
    pub inflows: Vec<String>,
    pub outflows: Vec<String>,
    pub initial_equation: String,
    pub mathml_equation: Option<String>,
    pub units: Option<String>,
    pub documentation: Option<Documentation>,
    pub range: Option<DeviceRange<N>>,
    pub scale: Option<DeviceScale<N>>,
    pub format: Option<FormatOptions<N>>,
    pub kind: StockKind,
}

/// A flow as read from a `flow` element.
#[derive(Debug)]
pub struct FlowDefinition<N> {
    pub name: String,
    pub access: Option<AccessType>,
    pub autoexport: Option<bool>,
    pub equation: Option<String>,
    pub mathml_equation: Option<String>,
    pub multiplier: Option<N>,
    pub non_negative: Option<Option<bool>>,
    pub units: Option<String>,
    pub documentation: Option<Documentation>,
    pub range: Option<DeviceRange<N>>,
    pub scale: Option<DeviceScale<N>>,
    pub format: Option<FormatOptions<N>>,
}

/// The kind of stock that was read: a conveyor when a `conveyor` element was read (it needs
/// a length), otherwise a queue when a `queue` element was read, otherwise a basic stock,
/// which alone keeps the `non_negative` setting.
pub open spec fn spec_stock_kind<N>(acc: VarBuilderView<N>) -> Result<StockKind, ReadErrorSpec> {
    match acc.conveyor {
        Some(c) => match c.length {
            None => Err(ReadErrorSpec::Custom("Conveyor stock requires a length element"@)),
            Some(len) => Ok(StockKind::Conveyor(ConveyorStock {
                length: len,
                capacity: c.capacity,
                inflow_limit: c.inflow_limit,
                sample: c.sample,
                arrest_value: c.arrest_value,
                discrete: c.discrete,
                batch_integrity: c.batch_integrity,
                one_at_a_time: c.one_at_a_time,
                exponential_leakage: c.exponential_leakage,
            })),
        },
        None => Ok(if acc.is_queue { StockKind::Queue } else { StockKind::Basic { non_negative: acc.non_negative } }),
    }
}

/// The error ending the reading of a stock, if any: the name is needed first, then the
/// initial equation, then (for a conveyor) its length.
pub open spec fn spec_stock_error<N>(acc: VarBuilderView<N>, name: Option<String>) -> Option<ReadErrorSpec> {
    if name is None {
        Some(ReadErrorSpec::MissingField("name"@))
    } else if acc.equation is None {
        Some(ReadErrorSpec::MissingField("eqn"@))
    } else {
        match spec_stock_kind(acc) {
            Err(e) => Some(e),
            Ok(_) => None,
        }
    }
}

/// The stock read is made of what the builder holds, with its flows in document order.
pub open spec fn spec_stock_built<N>(
    s: StockDefinition<N>,
    acc: VarBuilderView<N>,
    name: Option<String>,
    access: Option<AccessType>,
    autoexport: Option<bool>,
) -> bool {
    &&& Some(s.name) == name
    &&& s.access == access
    &&& s.autoexport == autoexport
    &&& s.inflows@ == acc.inflows
    &&& s.outflows@ == acc.outflows
    &&& Some(s.initial_equation) == acc.equation
    &&& s.mathml_equation == acc.mathml
    &&& s.units == acc.units
    &&& s.documentation == acc.documentation
    &&& s.range == acc.range
    &&& s.scale == acc.scale
    &&& s.format == acc.format
    &&& spec_stock_kind(acc) == Ok::<StockKind, ReadErrorSpec>(s.kind)
}

/// Ends the reading of a stock, given what its children gave and its attributes.
pub fn finish_stock<N>(acc: VarBuilder<N>, name: Option<String>, access: Option<AccessType>, autoexport: Option<bool>) -> (r: Result<StockDefinition<N>, DeserializeError>)
    ensures
        match spec_stock_error(acc@, name) {
            Some(e) => r matches Err(x) && x.is_read_error(e),
            None => r matches Ok(s) && spec_stock_built(s, acc@, name, access, autoexport),
        },
{
    let ghost acc0 = acc@;
    let name = match name {
        Some(n) => n,
        None => return Err(DeserializeError::MissingField(String::from_str("name"))),
    };
    let initial_equation = match acc.equation {
        Some(e) => e,
        None => return Err(DeserializeError::MissingField(String::from_str("eqn"))),
    };
    let kind = match acc.conveyor {
        Some(c) => match c.length {
            Some(length) => StockKind::Conveyor(ConveyorStock {
                length,
                capacity: c.capacity,
                inflow_limit: c.inflow_limit,
                sample: c.sample,
                arrest_value: c.arrest_value,
                discrete: c.discrete,
                batch_integrity: c.batch_integrity,
                one_at_a_time: c.one_at_a_time,
                exponential_leakage: c.exponential_leakage,
            }),
            None => return Err(DeserializeError::Custom(String::from_str("Conveyor stock requires a length element"))),
        },
        None => if acc.is_queue {
            StockKind::Queue
        } else {
            StockKind::Basic { non_negative: acc.non_negative }
        },
    };
    Ok(StockDefinition {
        name,
        access,
        autoexport,
        inflows: acc.inflows,
        outflows: acc.outflows,
        initial_equation,
        mathml_equation: acc.mathml,
        units: acc.units,
        documentation: acc.documentation,
        range: acc.range,
        scale: acc.scale,
        format: acc.format,
        kind,
    })
}

/// The flow made of what the builder holds; a flow needs only its name.
pub open spec fn spec_flow<N>(acc: VarBuilderView<N>, name: String, access: Option<AccessType>, autoexport: Option<bool>) -> FlowDefinition<N> {
    FlowDefinition {
        name,
        access,
        autoexport,
        equation: acc.equation,
        mathml_equation: acc.mathml,
        multiplier: acc.multiplier,
        non_negative: acc.non_negative,
        units: acc.units,
        documentation: acc.documentation,
        range: acc.range,
        scale: acc.scale,
        format: acc.format,
    }
}

/// Ends the reading of a flow, given what its children gave and its attributes.
pub fn finish_basic_flow<N>(acc: VarBuilder<N>, name: Option<String>, access: Option<AccessType>, autoexport: Option<bool>) -> (r: Result<FlowDefinition<N>, DeserializeError>)
    ensures
        match name {
            None => r matches Err(x) && x.is_missing_field("name"@),
            Some(n) => r matches Ok(f) && f == spec_flow(acc@, n, access, autoexport),
        },
{
    let name = match name {
        Some(n) => n,
        None => return Err(DeserializeError::MissingField(String::from_str("name"))),
    };
    Ok(FlowDefinition {
        name,
        access,
        autoexport,
        equation: acc.equation,
        mathml_equation: acc.mathml,
        multiplier: acc.multiplier,
        non_negative: acc.non_negative,
        units: acc.units,
        documentation: acc.documentation,
        range: acc.range,
        scale: acc.scale,
        format: acc.format,
    })
}

/// Folding a run of child elements into a stock (`stock`) or flow, one step after another;
/// the first step that fails ends the run with its error.
pub open spec fn spec_fold_children<N>(acc: VarBuilderView<N>, children: Seq<VarChild<N>>, kind: VarKind) -> Result<VarBuilderView<N>, ReadErrorSpec>
    decreases children.len(),
{
    if children.len() == 0 {
        Ok(acc)
    } else {
        match spec_fold_children(acc, children.drop_last(), kind) {
            Ok(v) => spec_var_child_step(v, children.last(), kind),
            Err(e) => Err(e),
        }
    }
}

/// The texts of the `inflow` children among `children`, in order.
pub open spec fn spec_inflow_texts<N>(children: Seq<VarChild<N>>) -> Seq<String>
    decreases children.len(),
{
    if children.len() == 0 {
        Seq::empty()
    } else {
        let rest = spec_inflow_texts(children.drop_last());
        match children.last() {
            VarChild::Inflow(t) => rest.push(t),
            _ => rest,
        }
    }
}

/// The texts of the `outflow` children among `children`, in order.
pub open spec fn spec_outflow_texts<N>(children: Seq<VarChild<N>>) -> Seq<String>
    decreases children.len(),
{
    if children.len() == 0 {
        Seq::empty()
    } else {
        let rest = spec_outflow_texts(children.drop_last());
        match children.last() {
            VarChild::Outflow(t) => rest.push(t),
            _ => rest,
        }
    }
}

/// A stock read from a run of child elements lists as inflows exactly the `inflow`
/// children, and as outflows exactly the `outflow` children, each in document order.
pub proof fn lemma_stock_flows_in_document_order<N>(acc: VarBuilderView<N>, children: Seq<VarChild<N>>)
    ensures
        spec_fold_children(acc, children, VarKind::Stock) matches Ok(v) ==> {
            &&& v.inflows == acc.inflows + spec_inflow_texts(children)
            &&& v.outflows == acc.outflows + spec_outflow_texts(children)
        },
    decreases children.len(),
{
    if children.len() > 0 {
        lemma_stock_flows_in_document_order(acc, children.drop_last());
        match spec_fold_children(acc, children.drop_last(), VarKind::Stock) {
            Ok(v) => {
                let rest_in = spec_inflow_texts(children.drop_last());
                let rest_out = spec_outflow_texts(children.drop_last());
                match children.last() {
                    VarChild::Inflow(t) => {
                        assert(acc.inflows + rest_in.push(t) =~= (acc.inflows + rest_in).push(t));
                    },
                    VarChild::Outflow(t) => {
                        assert(acc.outflows + rest_out.push(t) =~= (acc.outflows + rest_out).push(t));
                    },
                    _ => {},
                }
            },
            Err(_) => {},
        }
    } else {
        assert(acc.inflows + Seq::<String>::empty() =~= acc.inflows);
        assert(acc.outflows + Seq::<String>::empty() =~= acc.outflows);
    }
}

/// A flow or an auxiliary lists no inflows or outflows, whatever children it holds.
pub proof fn lemma_only_stocks_have_flow_lists<N>(acc: VarBuilderView<N>, children: Seq<VarChild<N>>, kind: VarKind)
    requires
        kind != VarKind::Stock,
    ensures
        spec_fold_children(acc, children, kind) matches Ok(v) ==> v.inflows == acc.inflows && v.outflows == acc.outflows,
    decreases children.len(),
{
    if children.len() > 0 {
        lemma_only_stocks_have_flow_lists(acc, children.drop_last(), kind);
    }
}

/// An auxiliary as read from an `aux` element.
#[derive(Debug)]
pub struct AuxDefinition<N> {
    pub name: String,
    pub access: Option<AccessType>,
    pub autoexport: Option<bool>,
    pub documentation: Option<Documentation>,
    pub equation: String,
    pub mathml_equation: Option<String>,
    pub units: Option<String>,
    pub range: Option<DeviceRange<N>>,
    pub scale: Option<DeviceScale<N>>,
    pub format: Option<FormatOptions<N>>,
}

/// Ends the reading of an auxiliary, given what its children gave and its attributes: the
/// name is needed first, then the equation.
pub fn finish_auxiliary<N>(acc: VarBuilder<N>, name: Option<String>, access: Option<AccessType>, autoexport: Option<bool>) -> (r: Result<AuxDefinition<N>, DeserializeError>)
    ensures
        name is None ==> (r matches Err(x) && x.is_missing_field("name"@)),
        name is Some && acc@.equation is None ==> (r matches Err(x) && x.is_missing_field("eqn"@)),
        name is Some && acc@.equation is Some ==> (r matches Ok(a) && a == (AuxDefinition {
            name: name->0,
            access,
            autoexport,
            documentation: acc@.documentation,
            equation: acc@.equation->0,
            mathml_equation: acc@.mathml,
            units: acc@.units,
            range: acc@.range,
            scale: acc@.scale,
            format: acc@.format,
        })),
{
    let name = match name {
        Some(n) => n,
        None => return Err(DeserializeError::MissingField(String::from_str("name"))),
    };
    let equation = match acc.equation {
        Some(e) => e,
        None => return Err(DeserializeError::MissingField(String::from_str("eqn"))),
    };
    Ok(AuxDefinition {
        name,
        access,
        autoexport,
        documentation: acc.documentation,
        equation,
        mathml_equation: acc.mathml,
        units: acc.units,
        range: acc.range,
        scale: acc.scale,
        format: acc.format,
    })
}

/// What the reader is to do with a child element of a stock, flow or auxiliary: read the
/// element in the way the child it stands for needs, or pass it over.
#[derive(Debug, Clone, Copy, PartialEq, Eq, Structural)]
pub enum VarTag {
    /// Read the text of an `eqn` element.
    Eqn,
    /// Read the text of a `mathml` element.
    Mathml,
    /// Read the text of an `inflow` element.
    Inflow,
    /// Read the text of an `outflow` element.
    Outflow,
    /// Read the number of a `multiplier` element.
    Multiplier,
    /// Read the text of a `doc` element.
    Doc,
    /// Read the text of a `units` element.
    Units,
    /// Read the text of a `non_negative` element.
    NonNegative,
    /// An empty `non_negative` element.
    NonNegativeEmpty,
    /// Read the attributes of a `range` element.
    Range,
    /// Read the attributes of a `scale` element.
    Scale,
    /// Read the attributes of a `format` element.
    Format,
    /// Read the attributes and the equations of a `conveyor` element.
    Conveyor,
    /// A `queue` element.
    Queue,
    /// Pass the element over.
    Skip,
}

/// What a child element named `tag` of a variable of `kind` is read as; `empty` is whether
/// it is an empty element. An empty element can only stand for a `non_negative` marker, a
/// queue, a conveyor or a range, scale or format setting, and an auxiliary reads none.
pub open spec fn spec_var_tag(tag: Seq<char>, kind: VarKind, empty: bool) -> VarTag {
    if empty {
        match kind {
            VarKind::Stock => {
                if tag == "non_negative"@ {
                    VarTag::NonNegativeEmpty
                } else if tag == "queue"@ {
                    VarTag::Queue
                } else if tag == "conveyor"@ {
                    VarTag::Conveyor
                } else if tag == "range"@ {
                    VarTag::Range
                } else if tag == "scale"@ {
                    VarTag::Scale
                } else if tag == "format"@ {
                    VarTag::Format
                } else {
                    VarTag::Skip
                }
            },
            VarKind::Flow => {
                if tag == "non_negative"@ {
                    VarTag::NonNegativeEmpty
                } else if tag == "range"@ {
                    VarTag::Range
                } else if tag == "scale"@ {
                    VarTag::Scale
                } else if tag == "format"@ {
                    VarTag::Format
                } else {
                    VarTag::Skip
                }
            },
            VarKind::Auxiliary => {
                VarTag::Skip
            },
        }
    } else {
        match kind {
            VarKind::Stock => {
                if tag == "eqn"@ {
                    VarTag::Eqn
                } else if tag == "mathml"@ {
                    VarTag::Mathml
                } else if tag == "inflow"@ {
                    VarTag::Inflow
                } else if tag == "outflow"@ {
                    VarTag::Outflow
                } else if tag == "doc"@ {
                    VarTag::Doc
                } else if tag == "units"@ {
                    VarTag::Units
                } else if tag == "non_negative"@ {
                    VarTag::NonNegative
                } else if tag == "range"@ {
                    VarTag::Range
                } else if tag == "scale"@ {
                    VarTag::Scale
                } else if tag == "format"@ {
                    VarTag::Format
                } else if tag == "conveyor"@ {
                    VarTag::Conveyor
                } else if tag == "queue"@ {
                    VarTag::Queue
                } else {
                    VarTag::Skip
                }
            },
            VarKind::Flow => {
                if tag == "eqn"@ {
                    VarTag::Eqn
                } else if tag == "mathml"@ {
                    VarTag::Mathml
                } else if tag == "multiplier"@ {
                    VarTag::Multiplier
                } else if tag == "doc"@ {
                    VarTag::Doc
                } else if tag == "units"@ {
                    VarTag::Units
                } else if tag == "non_negative"@ {
                    VarTag::NonNegative
                } else if tag == "range"@ {
                    VarTag::Range
                } else if tag == "scale"@ {
                    VarTag::Scale
                } else if tag == "format"@ {
                    VarTag::Format
                } else {
                    VarTag::Skip
                }
            },
            VarKind::Auxiliary => {
                if tag == "eqn"@ {
                    VarTag::Eqn
                } else if tag == "mathml"@ {
                    VarTag::Mathml
                } else if tag == "doc"@ {
                    VarTag::Doc
                } else if tag == "units"@ {
                    VarTag::Units
                } else if tag == "range"@ {
                    VarTag::Range
                } else if tag == "scale"@ {
                    VarTag::Scale
                } else if tag == "format"@ {
                    VarTag::Format
                } else {
                    VarTag::Skip
                }
            },
        }
    }
}

/// Decides what a child element named `tag` of a variable of `kind` is read as.
pub fn var_tag(tag: &str, kind: VarKind, empty: bool) -> (r: VarTag)
    ensures
        r == spec_var_tag(tag@, kind, empty),
{
    if empty {
        match kind {
            VarKind::Stock => {
                if str_eq(tag, "non_negative") {
                    VarTag::NonNegativeEmpty
                } else if str_eq(tag, "queue") {
                    VarTag::Queue
                } else if str_eq(tag, "conveyor") {
                    VarTag::Conveyor
                } else if str_eq(tag, "range") {
                    VarTag::Range
                } else if str_eq(tag, "scale") {
                    VarTag::Scale
                } else if str_eq(tag, "format") {
                    VarTag::Format
                } else {
                    VarTag::Skip
                }
            },
            VarKind::Flow => {
                if str_eq(tag, "non_negative") {
                    VarTag::NonNegativeEmpty
                } else if str_eq(tag, "range") {
                    VarTag::Range
                } else if str_eq(tag, "scale") {
                    VarTag::Scale
                } else if str_eq(tag, "format") {
                    VarTag::Format
                } else {
                    VarTag::Skip
                }
            },
            VarKind::Auxiliary => {
                VarTag::Skip
            },
        }
    } else {
        match kind {
            VarKind::Stock => {
                if str_eq(tag, "eqn") {
                    VarTag::Eqn
                } else if str_eq(tag, "mathml") {
                    VarTag::Mathml
                } else if str_eq(tag, "inflow") {
                    VarTag::Inflow
                } else if str_eq(tag, "outflow") {
                    VarTag::Outflow
                } else if str_eq(tag, "doc") {
                    VarTag::Doc
                } else if str_eq(tag, "units") {
                    VarTag::Units
                } else if str_eq(tag, "non_negative") {
                    VarTag::NonNegative
                } else if str_eq(tag, "range") {
                    VarTag::Range
                } else if str_eq(tag, "scale") {
                    VarTag::Scale
                } else if str_eq(tag, "format") {
                    VarTag::Format
                } else if str_eq(tag, "conveyor") {
                    VarTag::Conveyor
                } else if str_eq(tag, "queue") {
                    VarTag::Queue
                } else {
                    VarTag::Skip
                }
            },
            VarKind::Flow => {
                if str_eq(tag, "eqn") {
                    VarTag::Eqn
                } else if str_eq(tag, "mathml") {
                    VarTag::Mathml
                } else if str_eq(tag, "multiplier") {
                    VarTag::Multiplier
                } else if str_eq(tag, "doc") {
                    VarTag::Doc
                } else if str_eq(tag, "units") {
                    VarTag::Units
                } else if str_eq(tag, "non_negative") {
                    VarTag::NonNegative
                } else if str_eq(tag, "range") {
                    VarTag::Range
                } else if str_eq(tag, "scale") {
                    VarTag::Scale
                } else if str_eq(tag, "format") {
                    VarTag::Format
                } else {
                    VarTag::Skip
                }
            },
            VarKind::Auxiliary => {
                if str_eq(tag, "eqn") {
                    VarTag::Eqn
                } else if str_eq(tag, "mathml") {
                    VarTag::Mathml
                } else if str_eq(tag, "doc") {
                    VarTag::Doc
                } else if str_eq(tag, "units") {
                    VarTag::Units
                } else if str_eq(tag, "range") {
                    VarTag::Range
                } else if str_eq(tag, "scale") {
                    VarTag::Scale
                } else if str_eq(tag, "format") {
                    VarTag::Format
                } else {
                    VarTag::Skip
                }
            },
        }
    }
}

/// An `eqn` child gives any variable being read that equation, and changes nothing else.
pub proof fn lemma_eqn_child_sets_equation<N>(acc: VarBuilderView<N>, t: String, kind: VarKind)
    ensures
        spec_var_child_step(acc, VarChild::Eqn(t), kind) matches Ok(b) && {
            &&& b.equation == Some(t)
            &&& b.mathml == acc.mathml
            &&& b.multiplier == acc.multiplier
            &&& b.inflows == acc.inflows
            &&& b.outflows == acc.outflows
            &&& b.documentation == acc.documentation
            &&& b.units == acc.units
            &&& b.non_negative == acc.non_negative
            &&& b.range == acc.range
            &&& b.scale == acc.scale
            &&& b.format == acc.format
            &&& b.conveyor == acc.conveyor
            &&& b.is_queue == acc.is_queue
        },
{
}

/// A `mathml` child gives any variable being read that MathML equation, and changes nothing else.
pub proof fn lemma_mathml_child_sets_mathml<N>(acc: VarBuilderView<N>, t: String, kind: VarKind)
    ensures
        spec_var_child_step(acc, VarChild::Mathml(t), kind) matches Ok(b) && {
            &&& b.mathml == Some(t)
            &&& b.equation == acc.equation
            &&& b.multiplier == acc.multiplier
            &&& b.inflows == acc.inflows
            &&& b.outflows == acc.outflows
            &&& b.documentation == acc.documentation
            &&& b.units == acc.units
            &&& b.non_negative == acc.non_negative
            &&& b.range == acc.range
            &&& b.scale == acc.scale
            &&& b.format == acc.format
            &&& b.conveyor == acc.conveyor
            &&& b.is_queue == acc.is_queue
        },
{
}

/// A `multiplier` child sets the multiplier of a flow, and of no other kind of variable.
pub proof fn lemma_multiplier_child<N>(acc: VarBuilderView<N>, n: N, kind: VarKind)
    ensures
        spec_var_child_step(acc, VarChild::Multiplier(n), kind) matches Ok(b) && {
            &&& kind == VarKind::Flow ==> b.multiplier == Some(n)
            &&& kind != VarKind::Flow ==> b.multiplier == acc.multiplier
            &&& b.equation == acc.equation
            &&& b.mathml == acc.mathml
            &&& b.inflows == acc.inflows
            &&& b.outflows == acc.outflows
            &&& b.documentation == acc.documentation
            &&& b.units == acc.units
            &&& b.non_negative == acc.non_negative
            &&& b.range == acc.range
            &&& b.scale == acc.scale
            &&& b.format == acc.format
            &&& b.conveyor == acc.conveyor
            &&& b.is_queue == acc.is_queue
        },
{
}

/// An `inflow` child adds that flow after the inflows of a stock read so far, and is passed over by other kinds.
pub proof fn lemma_inflow_child<N>(acc: VarBuilderView<N>, t: String, kind: VarKind)
    ensures
        spec_var_child_step(acc, VarChild::Inflow(t), kind) matches Ok(b) && {
            &&& kind == VarKind::Stock ==> b.inflows == acc.inflows.push(t)
            &&& kind != VarKind::Stock ==> b.inflows == acc.inflows
            &&& b.equation == acc.equation
            &&& b.mathml == acc.mathml
            &&& b.multiplier == acc.multiplier
            &&& b.outflows == acc.outflows
            &&& b.documentation == acc.documentation
            &&& b.units == acc.units
            &&& b.non_negative == acc.non_negative
            &&& b.range == acc.range
            &&& b.scale == acc.scale
            &&& b.format == acc.format
            &&& b.conveyor == acc.conveyor
            &&& b.is_queue == acc.is_queue
        },
{
}

/// An `outflow` child adds that flow after the outflows of a stock read so far, and is passed over by other kinds.
pub proof fn lemma_outflow_child<N>(acc: VarBuilderView<N>, t: String, kind: VarKind)
    ensures
        spec_var_child_step(acc, VarChild::Outflow(t), kind) matches Ok(b) && {
            &&& kind == VarKind::Stock ==> b.outflows == acc.outflows.push(t)
            &&& kind != VarKind::Stock ==> b.outflows == acc.outflows
            &&& b.equation == acc.equation
            &&& b.mathml == acc.mathml
            &&& b.multiplier == acc.multiplier
            &&& b.inflows == acc.inflows
            &&& b.documentation == acc.documentation
            &&& b.units == acc.units
            &&& b.non_negative == acc.non_negative
            &&& b.range == acc.range
            &&& b.scale == acc.scale
            &&& b.format == acc.format
            &&& b.conveyor == acc.conveyor
            &&& b.is_queue == acc.is_queue
        },
{
}

/// A `doc` child gives any variable being read its text as documentation (HTML when it reads as HTML), and changes nothing else.
pub proof fn lemma_doc_child_sets_documentation<N>(acc: VarBuilderView<N>, t: String, kind: VarKind)
    ensures
        spec_var_child_step(acc, VarChild::Doc(t), kind) matches Ok(b) && {
            &&& b.documentation matches Some(d) && (d == Documentation::Html(t) || d == Documentation::PlainText(t))
            &&& (b.documentation == Some(Documentation::Html(t)) <==> spec_reads_as_html(t@))
            &&& b.equation == acc.equation
            &&& b.mathml == acc.mathml
            &&& b.multiplier == acc.multiplier
            &&& b.inflows == acc.inflows
            &&& b.outflows == acc.outflows
            &&& b.units == acc.units
            &&& b.non_negative == acc.non_negative
            &&& b.range == acc.range
            &&& b.scale == acc.scale
            &&& b.format == acc.format
            &&& b.conveyor == acc.conveyor
            &&& b.is_queue == acc.is_queue
        },
{
}

/// A `units` child gives any variable being read, stock, flow or auxiliary, those units, and changes nothing else.
pub proof fn lemma_units_child_sets_units<N>(acc: VarBuilderView<N>, t: String, kind: VarKind)
    ensures
        spec_var_child_step(acc, VarChild::Units(t), kind) matches Ok(b) && {
            &&& b.units == Some(t)
            &&& b.equation == acc.equation
            &&& b.mathml == acc.mathml
            &&& b.multiplier == acc.multiplier
            &&& b.inflows == acc.inflows
            &&& b.outflows == acc.outflows
            &&& b.documentation == acc.documentation
            &&& b.non_negative == acc.non_negative
            &&& b.range == acc.range
            &&& b.scale == acc.scale
            &&& b.format == acc.format
            &&& b.conveyor == acc.conveyor
            &&& b.is_queue == acc.is_queue
        },
{
}

/// An empty `non_negative` element marks a stock or flow as non-negative with no value, and is passed over by an auxiliary.
pub proof fn lemma_empty_non_negative_child<N>(acc: VarBuilderView<N>, kind: VarKind)
    ensures
        spec_var_child_step(acc, VarChild::NonNegativeEmpty, kind) matches Ok(b) && {
            &&& kind != VarKind::Auxiliary ==> b.non_negative == Some(None::<bool>)
            &&& kind == VarKind::Auxiliary ==> b.non_negative == acc.non_negative
            &&& b.equation == acc.equation
            &&& b.mathml == acc.mathml
            &&& b.multiplier == acc.multiplier
            &&& b.inflows == acc.inflows
            &&& b.outflows == acc.outflows
            &&& b.documentation == acc.documentation
            &&& b.units == acc.units
            &&& b.range == acc.range
            &&& b.scale == acc.scale
            &&& b.format == acc.format
            &&& b.conveyor == acc.conveyor
            &&& b.is_queue == acc.is_queue
        },
{
}

/// A `range` child that gave a range sets it, and one that gave none leaves the earlier range.
pub proof fn lemma_range_child<N>(acc: VarBuilderView<N>, o: Option<DeviceRange<N>>, kind: VarKind)
    ensures
        spec_var_child_step(acc, VarChild::Range(o), kind) matches Ok(b) && {
            &&& o matches Some(r) ==> b.range == Some(r)
            &&& o is None ==> b.range == acc.range
            &&& b.equation == acc.equation
            &&& b.mathml == acc.mathml
            &&& b.multiplier == acc.multiplier
            &&& b.inflows == acc.inflows
            &&& b.outflows == acc.outflows
            &&& b.documentation == acc.documentation
            &&& b.units == acc.units
            &&& b.non_negative == acc.non_negative
            &&& b.scale == acc.scale
            &&& b.format == acc.format
            &&& b.conveyor == acc.conveyor
            &&& b.is_queue == acc.is_queue
        },
{
}

/// A `scale` child that gave a scale sets it, and one that gave none leaves the earlier scale.
pub proof fn lemma_scale_child<N>(acc: VarBuilderView<N>, o: Option<DeviceScale<N>>, kind: VarKind)
    ensures
        spec_var_child_step(acc, VarChild::Scale(o), kind) matches Ok(b) && {
            &&& o matches Some(x) ==> b.scale == Some(x)
            &&& o is None ==> b.scale == acc.scale
            &&& b.equation == acc.equation
            &&& b.mathml == acc.mathml
            &&& b.multiplier == acc.multiplier
            &&& b.inflows == acc.inflows
            &&& b.outflows == acc.outflows
            &&& b.documentation == acc.documentation
            &&& b.units == acc.units
            &&& b.non_negative == acc.non_negative
            &&& b.range == acc.range
            &&& b.format == acc.format
            &&& b.conveyor == acc.conveyor
            &&& b.is_queue == acc.is_queue
        },
{
}

/// A `format` child gives any variable being read that format, and changes nothing else.
pub proof fn lemma_format_child_sets_format<N>(acc: VarBuilderView<N>, f: FormatOptions<N>, kind: VarKind)
    ensures
        spec_var_child_step(acc, VarChild::Format(f), kind) matches Ok(b) && {
            &&& b.format == Some(f)
            &&& b.equation == acc.equation
            &&& b.mathml == acc.mathml
            &&& b.multiplier == acc.multiplier
            &&& b.inflows == acc.inflows
            &&& b.outflows == acc.outflows
            &&& b.documentation == acc.documentation
            &&& b.units == acc.units
            &&& b.non_negative == acc.non_negative
            &&& b.range == acc.range
            &&& b.scale == acc.scale
            &&& b.conveyor == acc.conveyor
            &&& b.is_queue == acc.is_queue
        },
{
}

/// A `conveyor` child makes a stock a conveyor with those settings, and is passed over by other kinds.
pub proof fn lemma_conveyor_child<N>(acc: VarBuilderView<N>, c: ConveyorData, kind: VarKind)
    ensures
        spec_var_child_step(acc, VarChild::Conveyor(c), kind) matches Ok(b) && {
            &&& kind == VarKind::Stock ==> b.conveyor == Some(c)
            &&& kind != VarKind::Stock ==> b.conveyor == acc.conveyor
            &&& b.equation == acc.equation
            &&& b.mathml == acc.mathml
            &&& b.multiplier == acc.multiplier
            &&& b.inflows == acc.inflows
            &&& b.outflows == acc.outflows
            &&& b.documentation == acc.documentation
            &&& b.units == acc.units
            &&& b.non_negative == acc.non_negative
            &&& b.range == acc.range
            &&& b.scale == acc.scale
            &&& b.format == acc.format
            &&& b.is_queue == acc.is_queue
        },
{
}

/// A `queue` child makes a stock a queue, and is passed over by other kinds.
pub proof fn lemma_queue_child<N>(acc: VarBuilderView<N>, kind: VarKind)
    ensures
        spec_var_child_step(acc, VarChild::Queue, kind) matches Ok(b) && {
            &&& kind == VarKind::Stock ==> b.is_queue
            &&& kind != VarKind::Stock ==> b.is_queue == acc.is_queue
            &&& b.equation == acc.equation
            &&& b.mathml == acc.mathml
            &&& b.multiplier == acc.multiplier
            &&& b.inflows == acc.inflows
            &&& b.outflows == acc.outflows
            &&& b.documentation == acc.documentation
            &&& b.units == acc.units
            &&& b.non_negative == acc.non_negative
            &&& b.range == acc.range
            &&& b.scale == acc.scale
            &&& b.format == acc.format
            &&& b.conveyor == acc.conveyor
        },
{
}

/// Any other child element is passed over.
pub proof fn lemma_other_child_passed_over<N>(acc: VarBuilderView<N>, kind: VarKind)
    ensures
        spec_var_child_step(acc, VarChild::Other, kind) matches Ok(b) && {
            &&& true
            &&& b.equation == acc.equation
            &&& b.mathml == acc.mathml
            &&& b.multiplier == acc.multiplier
            &&& b.inflows == acc.inflows
            &&& b.outflows == acc.outflows
            &&& b.documentation == acc.documentation
            &&& b.units == acc.units
            &&& b.non_negative == acc.non_negative
            &&& b.range == acc.range
            &&& b.scale == acc.scale
            &&& b.format == acc.format
            &&& b.conveyor == acc.conveyor
            &&& b.is_queue == acc.is_queue
        },
{
}

/// A `non_negative` element with content is passed over by an auxiliary; for a stock or a
/// flow, its text, when it reads as a setting, becomes the setting and nothing else changes,
/// and otherwise it is refused.
pub proof fn lemma_non_negative_child<N>(acc: VarBuilderView<N>, t: String, kind: VarKind)
    ensures
        kind == VarKind::Auxiliary ==> spec_var_child_step(acc, VarChild::NonNegative(t), kind) == Ok::<VarBuilderView<N>, ReadErrorSpec>(acc),
        kind != VarKind::Auxiliary ==> match spec_parse_non_negative(t@) {
            Ok(v) => spec_var_child_step(acc, VarChild::NonNegative(t), kind) matches Ok(b) && {
                &&& b.non_negative == Some(v)
                &&& b.equation == acc.equation
                &&& b.mathml == acc.mathml
                &&& b.multiplier == acc.multiplier
                &&& b.inflows == acc.inflows
                &&& b.outflows == acc.outflows
                &&& b.documentation == acc.documentation
                &&& b.units == acc.units
                &&& b.range == acc.range
                &&& b.scale == acc.scale
                &&& b.format == acc.format
                &&& b.conveyor == acc.conveyor
                &&& b.is_queue == acc.is_queue
            },
            Err(m) => spec_var_child_step(acc, VarChild::NonNegative(t), kind) == Err::<VarBuilderView<N>, ReadErrorSpec>(ReadErrorSpec::Custom(m)),
        },
{
}

/// A stock whose `units` child was read, and which was then finished, has those units; so
/// do its equation, MathML equation and documentation when read the same way.
pub proof fn lemma_stock_keeps_units<N>(
    acc: VarBuilderView<N>,
    t: String,
    name: String,
    access: Option<AccessType>,
    autoexport: Option<bool>,
    s: StockDefinition<N>,
)
    requires
        spec_var_child_step(acc, VarChild::Units(t), VarKind::Stock) matches Ok(b) && spec_stock_built(s, b, Some(name), access, autoexport),
    ensures
        s.units == Some(t),
        s.name == name,
        Some(s.initial_equation) == acc.equation,
        s.documentation == acc.documentation,
{
    lemma_units_child_sets_units(acc, t, VarKind::Stock);
}

/// A flow whose `units` child was read, and which was then finished, has those units.
pub proof fn lemma_flow_keeps_units<N>(acc: VarBuilderView<N>, t: String, name: String, access: Option<AccessType>, autoexport: Option<bool>)
    ensures
        spec_var_child_step(acc, VarChild::Units(t), VarKind::Flow) matches Ok(b) && {
            let f = spec_flow(b, name, access, autoexport);
            &&& f.units == Some(t)
            &&& f.name == name
            &&& f.equation == acc.equation
            &&& f.documentation == acc.documentation
        },
{
    lemma_units_child_sets_units(acc, t, VarKind::Flow);
}


/// What each child element of a variable is read as. An element with content: `eqn`,
/// `mathml`, `doc`, `units`, `range`, `scale` and `format` for every kind of variable;
/// `inflow`, `outflow`, `conveyor` and `queue` for a stock alone; `multiplier` for a flow
/// alone; `non_negative` for a stock or a flow. An empty element: a `non_negative` marker,
/// `range`, `scale` or `format` for a stock or a flow, `queue` and `conveyor` for a stock,
/// and nothing for an auxiliary. Anything else is passed over.
pub proof fn lemma_var_tags()
    ensures
        spec_var_tag("eqn"@, VarKind::Stock, false) == VarTag::Eqn,
        spec_var_tag("mathml"@, VarKind::Stock, false) == VarTag::Mathml,
        spec_var_tag("inflow"@, VarKind::Stock, false) == VarTag::Inflow,
        spec_var_tag("outflow"@, VarKind::Stock, false) == VarTag::Outflow,
        spec_var_tag("multiplier"@, VarKind::Stock, false) == VarTag::Skip,
        spec_var_tag("doc"@, VarKind::Stock, false) == VarTag::Doc,
        spec_var_tag("units"@, VarKind::Stock, false) == VarTag::Units,
        spec_var_tag("non_negative"@, VarKind::Stock, false) == VarTag::NonNegative,
        spec_var_tag("range"@, VarKind::Stock, false) == VarTag::Range,
        spec_var_tag("scale"@, VarKind::Stock, false) == VarTag::Scale,
        spec_var_tag("format"@, VarKind::Stock, false) == VarTag::Format,
        spec_var_tag("conveyor"@, VarKind::Stock, false) == VarTag::Conveyor,
        spec_var_tag("queue"@, VarKind::Stock, false) == VarTag::Queue,
        spec_var_tag("eqn"@, VarKind::Stock, true) == VarTag::Skip,
        spec_var_tag("mathml"@, VarKind::Stock, true) == VarTag::Skip,
        spec_var_tag("inflow"@, VarKind::Stock, true) == VarTag::Skip,
        spec_var_tag("outflow"@, VarKind::Stock, true) == VarTag::Skip,
        spec_var_tag("multiplier"@, VarKind::Stock, true) == VarTag::Skip,
        spec_var_tag("doc"@, VarKind::Stock, true) == VarTag::Skip,
        spec_var_tag("units"@, VarKind::Stock, true) == VarTag::Skip,
        spec_var_tag("non_negative"@, VarKind::Stock, true) == VarTag::NonNegativeEmpty,
        spec_var_tag("range"@, VarKind::Stock, true) == VarTag::Range,
        spec_var_tag("scale"@, VarKind::Stock, true) == VarTag::Scale,
        spec_var_tag("format"@, VarKind::Stock, true) == VarTag::Format,
        spec_var_tag("conveyor"@, VarKind::Stock, true) == VarTag::Conveyor,
        spec_var_tag("queue"@, VarKind::Stock, true) == VarTag::Queue,
        spec_var_tag("eqn"@, VarKind::Flow, false) == VarTag::Eqn,
        spec_var_tag("mathml"@, VarKind::Flow, false) == VarTag::Mathml,
        spec_var_tag("inflow"@, VarKind::Flow, false) == VarTag::Skip,
        spec_var_tag("outflow"@, VarKind::Flow, false) == VarTag::Skip,
        spec_var_tag("multiplier"@, VarKind::Flow, false) == VarTag::Multiplier,
        spec_var_tag("doc"@, VarKind::Flow, false) == VarTag::Doc,
        spec_var_tag("units"@, VarKind::Flow, false) == VarTag::Units,
        spec_var_tag("non_negative"@, VarKind::Flow, false) == VarTag::NonNegative,
        spec_var_tag("range"@, VarKind::Flow, false) == VarTag::Range,
        spec_var_tag("scale"@, VarKind::Flow, false) == VarTag::Scale,
        spec_var_tag("format"@, VarKind::Flow, false) == VarTag::Format,
        spec_var_tag("conveyor"@, VarKind::Flow, false) == VarTag::Skip,
        spec_var_tag("queue"@, VarKind::Flow, false) == VarTag::Skip,
        spec_var_tag("eqn"@, VarKind::Flow, true) == VarTag::Skip,
        spec_var_tag("mathml"@, VarKind::Flow, true) == VarTag::Skip,
        spec_var_tag("inflow"@, VarKind::Flow, true) == VarTag::Skip,
        spec_var_tag("outflow"@, VarKind::Flow, true) == VarTag::Skip,
        spec_var_tag("multiplier"@, VarKind::Flow, true) == VarTag::Skip,
        spec_var_tag("doc"@, VarKind::Flow, true) == VarTag::Skip,
        spec_var_tag("units"@, VarKind::Flow, true) == VarTag::Skip,
        spec_var_tag("non_negative"@, VarKind::Flow, true) == VarTag::NonNegativeEmpty,
        spec_var_tag("range"@, VarKind::Flow, true) == VarTag::Range,
        spec_var_tag("scale"@, VarKind::Flow, true) == VarTag::Scale,
        spec_var_tag("format"@, VarKind::Flow, true) == VarTag::Format,
        spec_var_tag("conveyor"@, VarKind::Flow, true) == VarTag::Skip,
        spec_var_tag("queue"@, VarKind::Flow, true) == VarTag::Skip,
        spec_var_tag("eqn"@, VarKind::Auxiliary, false) == VarTag::Eqn,
        spec_var_tag("mathml"@, VarKind::Auxiliary, false) == VarTag::Mathml,
        spec_var_tag("inflow"@, VarKind::Auxiliary, false) == VarTag::Skip,
        spec_var_tag("outflow"@, VarKind::Auxiliary, false) == VarTag::Skip,
        spec_var_tag("multiplier"@, VarKind::Auxiliary, false) == VarTag::Skip,
        spec_var_tag("doc"@, VarKind::Auxiliary, false) == VarTag::Doc,
        spec_var_tag("units"@, VarKind::Auxiliary, false) == VarTag::Units,
        spec_var_tag("non_negative"@, VarKind::Auxiliary, false) == VarTag::Skip,
        spec_var_tag("range"@, VarKind::Auxiliary, false) == VarTag::Range,
        spec_var_tag("scale"@, VarKind::Auxiliary, false) == VarTag::Scale,
        spec_var_tag("format"@, VarKind::Auxiliary, false) == VarTag::Format,
        spec_var_tag("conveyor"@, VarKind::Auxiliary, false) == VarTag::Skip,
        spec_var_tag("queue"@, VarKind::Auxiliary, false) == VarTag::Skip,
        spec_var_tag("eqn"@, VarKind::Auxiliary, true) == VarTag::Skip,
        spec_var_tag("mathml"@, VarKind::Auxiliary, true) == VarTag::Skip,
        spec_var_tag("inflow"@, VarKind::Auxiliary, true) == VarTag::Skip,
        spec_var_tag("outflow"@, VarKind::Auxiliary, true) == VarTag::Skip,
        spec_var_tag("multiplier"@, VarKind::Auxiliary, true) == VarTag::Skip,
        spec_var_tag("doc"@, VarKind::Auxiliary, true) == VarTag::Skip,
        spec_var_tag("units"@, VarKind::Auxiliary, true) == VarTag::Skip,
        spec_var_tag("non_negative"@, VarKind::Auxiliary, true) == VarTag::Skip,
        spec_var_tag("range"@, VarKind::Auxiliary, true) == VarTag::Skip,
        spec_var_tag("scale"@, VarKind::Auxiliary, true) == VarTag::Skip,
        spec_var_tag("format"@, VarKind::Auxiliary, true) == VarTag::Skip,
        spec_var_tag("conveyor"@, VarKind::Auxiliary, true) == VarTag::Skip,
        spec_var_tag("queue"@, VarKind::Auxiliary, true) == VarTag::Skip,
{
    reveal_strlit("eqn");
    reveal_strlit("mathml");
    reveal_strlit("inflow");
    reveal_strlit("outflow");
    reveal_strlit("multiplier");
    reveal_strlit("doc");
    reveal_strlit("units");
    reveal_strlit("non_negative");
    reveal_strlit("range");
    reveal_strlit("scale");
    reveal_strlit("format");
    reveal_strlit("conveyor");
    reveal_strlit("queue");
    assert("eqn"@.len() == 3);
    assert("mathml"@.len() == 6);
    assert("inflow"@.len() == 6);
    assert("outflow"@.len() == 7);
    assert("multiplier"@.len() == 10);
    assert("doc"@.len() == 3);
    assert("units"@.len() == 5);
    assert("non_negative"@.len() == 12);
    assert("range"@.len() == 5);
    assert("scale"@.len() == 5);
    assert("format"@.len() == 6);
    assert("conveyor"@.len() == 8);
    assert("queue"@.len() == 5);
    assert("eqn"@[0] != "doc"@[0]);
    assert("mathml"@[0] != "inflow"@[0]);
    assert("mathml"@[0] != "format"@[0]);
    assert("inflow"@[0] != "mathml"@[0]);
    assert("inflow"@[0] != "format"@[0]);
    assert("doc"@[0] != "eqn"@[0]);
    assert("units"@[0] != "range"@[0]);
    assert("units"@[0] != "scale"@[0]);
    assert("units"@[0] != "queue"@[0]);
    assert("range"@[0] != "units"@[0]);
    assert("range"@[0] != "scale"@[0]);
    assert("range"@[0] != "queue"@[0]);
    assert("scale"@[0] != "units"@[0]);
    assert("scale"@[0] != "range"@[0]);
    assert("scale"@[0] != "queue"@[0]);
    assert("format"@[0] != "mathml"@[0]);
    assert("format"@[0] != "inflow"@[0]);
    assert("queue"@[0] != "units"@[0]);
    assert("queue"@[0] != "range"@[0]);
    assert("queue"@[0] != "scale"@[0]);
}

/// Finishing a stock: a missing name is refused first, then a missing initial equation;
/// a stock that read a conveyor needs its length and becomes a conveyor with the conveyor's
/// settings, one that read a queue becomes a queue, and any other is a basic stock with the
/// `non_negative` setting read. The stock keeps everything else read, as read.
pub proof fn lemma_stock_finished<N>(acc: VarBuilderView<N>, name: Option<String>, access: Option<AccessType>, autoexport: Option<bool>, s: StockDefinition<N>)
    ensures
        name is None ==> spec_stock_error(acc, name) == Some(ReadErrorSpec::MissingField("name"@)),
        name is Some && acc.equation is None ==> spec_stock_error(acc, name) == Some(ReadErrorSpec::MissingField("eqn"@)),
        name is Some && acc.equation is Some && (acc.conveyor matches Some(c) && c.length is None) ==> spec_stock_error(acc, name)
            == Some(ReadErrorSpec::Custom("Conveyor stock requires a length element"@)),
        name is Some && acc.equation is Some && acc.conveyor is None ==> spec_stock_error(acc, name) is None,
        spec_stock_built(s, acc, name, access, autoexport) ==> {
            &&& Some(s.name) == name
            &&& s.access == access
            &&& s.autoexport == autoexport
            &&& Some(s.initial_equation) == acc.equation
            &&& s.mathml_equation == acc.mathml
            &&& s.inflows@ == acc.inflows
            &&& s.outflows@ == acc.outflows
            &&& s.units == acc.units
            &&& s.documentation == acc.documentation
            &&& s.range == acc.range
            &&& s.scale == acc.scale
            &&& s.format == acc.format
            &&& acc.conveyor matches Some(c) ==> (s.kind matches StockKind::Conveyor(k) && Some(k.length) == c.length && k.capacity == c.capacity
                && k.inflow_limit == c.inflow_limit && k.sample == c.sample && k.arrest_value == c.arrest_value && k.discrete == c.discrete
                && k.batch_integrity == c.batch_integrity && k.one_at_a_time == c.one_at_a_time && k.exponential_leakage == c.exponential_leakage)
            &&& acc.conveyor is None && acc.is_queue ==> s.kind == StockKind::Queue
            &&& acc.conveyor is None && !acc.is_queue ==> s.kind == (StockKind::Basic { non_negative: acc.non_negative })
        },
{
}

/// Finishing a flow keeps everything read, as read, under the flow's own name and
/// attributes.
pub proof fn lemma_flow_finished<N>(acc: VarBuilderView<N>, name: String, access: Option<AccessType>, autoexport: Option<bool>)
    ensures
        ({
            let f = spec_flow(acc, name, access, autoexport);
            &&& f.name == name
            &&& f.access == access
            &&& f.autoexport == autoexport
            &&& f.equation == acc.equation
            &&& f.mathml_equation == acc.mathml
            &&& f.multiplier == acc.multiplier
            &&& f.non_negative == acc.non_negative
            &&& f.units == acc.units
            &&& f.documentation == acc.documentation
            &&& f.range == acc.range
            &&& f.scale == acc.scale
            &&& f.format == acc.format
        }),
{
}


/// The equations of a conveyor are read from its `len`, `capacity`, `in_limit`, `sample`
/// and `arrest` children into its length, capacity, inflow limit, sample and arrest value,
/// each changing only its own; any other child changes nothing.
pub proof fn lemma_conveyor_parts(cd: ConveyorData, part: Seq<char>, text: String)
    ensures
        spec_conveyor_part(cd, "len"@, text).length == Some(text),
        spec_conveyor_part(cd, "len"@, text).capacity == cd.capacity,
        spec_conveyor_part(cd, "len"@, text).inflow_limit == cd.inflow_limit,
        spec_conveyor_part(cd, "len"@, text).sample == cd.sample,
        spec_conveyor_part(cd, "len"@, text).arrest_value == cd.arrest_value,
        spec_conveyor_part(cd, "len"@, text).discrete == cd.discrete,
        spec_conveyor_part(cd, "len"@, text).batch_integrity == cd.batch_integrity,
        spec_conveyor_part(cd, "len"@, text).one_at_a_time == cd.one_at_a_time,
        spec_conveyor_part(cd, "len"@, text).exponential_leakage == cd.exponential_leakage,
        spec_is_conveyor_part("len"@),
        spec_conveyor_part(cd, "capacity"@, text).capacity == Some(text),
        spec_conveyor_part(cd, "capacity"@, text).length == cd.length,
        spec_conveyor_part(cd, "capacity"@, text).inflow_limit == cd.inflow_limit,
        spec_conveyor_part(cd, "capacity"@, text).sample == cd.sample,
        spec_conveyor_part(cd, "capacity"@, text).arrest_value == cd.arrest_value,
        spec_conveyor_part(cd, "capacity"@, text).discrete == cd.discrete,
        spec_conveyor_part(cd, "capacity"@, text).batch_integrity == cd.batch_integrity,
        spec_conveyor_part(cd, "capacity"@, text).one_at_a_time == cd.one_at_a_time,
        spec_conveyor_part(cd, "capacity"@, text).exponential_leakage == cd.exponential_leakage,
        spec_is_conveyor_part("capacity"@),
        spec_conveyor_part(cd, "in_limit"@, text).inflow_limit == Some(text),
        spec_conveyor_part(cd, "in_limit"@, text).length == cd.length,
        spec_conveyor_part(cd, "in_limit"@, text).capacity == cd.capacity,
        spec_conveyor_part(cd, "in_limit"@, text).sample == cd.sample,
        spec_conveyor_part(cd, "in_limit"@, text).arrest_value == cd.arrest_value,
        spec_conveyor_part(cd, "in_limit"@, text).discrete == cd.discrete,
        spec_conveyor_part(cd, "in_limit"@, text).batch_integrity == cd.batch_integrity,
        spec_conveyor_part(cd, "in_limit"@, text).one_at_a_time == cd.one_at_a_time,
        spec_conveyor_part(cd, "in_limit"@, text).exponential_leakage == cd.exponential_leakage,
        spec_is_conveyor_part("in_limit"@),
        spec_conveyor_part(cd, "sample"@, text).sample == Some(text),
        spec_conveyor_part(cd, "sample"@, text).length == cd.length,
        spec_conveyor_part(cd, "sample"@, text).capacity == cd.capacity,
        spec_conveyor_part(cd, "sample"@, text).inflow_limit == cd.inflow_limit,
        spec_conveyor_part(cd, "sample"@, text).arrest_value == cd.arrest_value,
        spec_conveyor_part(cd, "sample"@, text).discrete == cd.discrete,
        spec_conveyor_part(cd, "sample"@, text).batch_integrity == cd.batch_integrity,
        spec_conveyor_part(cd, "sample"@, text).one_at_a_time == cd.one_at_a_time,
        spec_conveyor_part(cd, "sample"@, text).exponential_leakage == cd.exponential_leakage,
        spec_is_conveyor_part("sample"@),
        spec_conveyor_part(cd, "arrest"@, text).arrest_value == Some(text),
        spec_conveyor_part(cd, "arrest"@, text).length == cd.length,
        spec_conveyor_part(cd, "arrest"@, text).capacity == cd.capacity,
        spec_conveyor_part(cd, "arrest"@, text).inflow_limit == cd.inflow_limit,
        spec_conveyor_part(cd, "arrest"@, text).sample == cd.sample,
        spec_conveyor_part(cd, "arrest"@, text).discrete == cd.discrete,
        spec_conveyor_part(cd, "arrest"@, text).batch_integrity == cd.batch_integrity,
        spec_conveyor_part(cd, "arrest"@, text).one_at_a_time == cd.one_at_a_time,
        spec_conveyor_part(cd, "arrest"@, text).exponential_leakage == cd.exponential_leakage,
        spec_is_conveyor_part("arrest"@),
        !spec_is_conveyor_part("length"@),
        !spec_is_conveyor_part(part) ==> spec_conveyor_part(cd, part, text) == cd,
{
    reveal_strlit("len");
    reveal_strlit("capacity");
    reveal_strlit("in_limit");
    reveal_strlit("sample");
    reveal_strlit("arrest");
    reveal_strlit("length");
    assert("len"@.len() == 3);
    assert("capacity"@.len() == 8);
    assert("in_limit"@.len() == 8);
    assert("sample"@.len() == 6);
    assert("arrest"@.len() == 6);
    assert("length"@.len() == 6);
    assert("capacity"@[0] != "in_limit"@[0]);
    assert("in_limit"@[0] != "capacity"@[0]);
    assert("sample"@[0] != "arrest"@[0]);
    assert("sample"@[0] != "length"@[0]);
    assert("arrest"@[0] != "sample"@[0]);
    assert("arrest"@[0] != "length"@[0]);
    assert("length"@[0] != "sample"@[0]);
    assert("length"@[0] != "arrest"@[0]);
}

/// The flags of a conveyor: `discrete` is read from every `conveyor` element, and
/// `batch_integrity`, `one_at_a_time` and `exponential_leak` from one with content only;
/// an element with none of these attributes gives none of the flags, and no equation is
/// read from the attributes.
pub proof fn lemma_conveyor_flags(a: Attrs, full: bool)
    ensures
        spec_conveyor_flags(a, full) matches Ok(c) ==> {
            &&& c.length is None && c.capacity is None && c.inflow_limit is None && c.sample is None && c.arrest_value is None
            &&& c.discrete == ok_of(spec_bool_attr(a, "discrete"@))
            &&& full ==> c.batch_integrity == ok_of(spec_bool_attr(a, "batch_integrity"@))
            &&& full ==> c.one_at_a_time == ok_of(spec_bool_attr(a, "one_at_a_time"@))
            &&& full ==> c.exponential_leakage == ok_of(spec_bool_attr(a, "exponential_leak"@))
            &&& !full ==> c.batch_integrity is None && c.one_at_a_time is None && c.exponential_leakage is None
        },
        !a@.contains_key("discrete"@) && !a@.contains_key("batch_integrity"@) && !a@.contains_key("one_at_a_time"@)
            && !a@.contains_key("exponential_leak"@) ==> (spec_conveyor_flags(a, full) matches Ok(c) && c.discrete is None
            && c.batch_integrity is None && c.one_at_a_time is None && c.exponential_leakage is None),
{
}

} // verus!
