//! Enumerated attribute values of view objects and their text codecs.

use vstd::prelude::*;
use crate::de::{lemma_i32_attribute_round_trip, pairs_map, spec_get, spec_invalid_value_message, Attrs, DeserializeError};
use crate::model::Uid;
use crate::ser::{tag, AttrList, EventKind, EventView, XmlEmitter};
use crate::text::{spec_int_text, spec_pairs_text, spec_parse_int, IntParseError};
use vstd::string::*;
use crate::text::{
    find_char, is_first_index_of, is_lowercase_ascii_word, lemma_lowercase_word, lemma_texts_differ_at, spec_lowercase,
    str_eq, to_lowercase,
};

verus! {

/// The polarity drawn on a connector.
#[derive(Debug, Clone, Copy, PartialEq, Eq, Structural)]
pub enum Polarity {
    Positive,
    Negative,
    NoPolarity,
}

/// The attribute text written for each [`Polarity`].
pub open spec fn spec_polarity_text(v: Polarity) -> Seq<char> {
    match v {
        Polarity::Positive => "+"@,
        Polarity::Negative => "-"@,
        Polarity::NoPolarity => "none"@,
    }
}

/// The [`Polarity`] that an attribute text stands for, if any.
pub open spec fn spec_polarity_from_text(s: Seq<char>) -> Option<Polarity> {
    if s == "+"@ {
        Some(Polarity::Positive)
    } else if s == "-"@ {
        Some(Polarity::Negative)
    } else if s == "none"@ {
        Some(Polarity::NoPolarity)
    } else {
        None
    }
}

/// Writes a [`Polarity`] as attribute text.
pub fn serialize_polarity(v: &Polarity) -> (r: &'static str)
    ensures
        r@ == spec_polarity_text(*v),
{
    match v {
        Polarity::Positive => "+",
        Polarity::Negative => "-",
        Polarity::NoPolarity => "none",
    }
}

/// Reads a [`Polarity`] from attribute text; any other text is refused.
pub fn parse_polarity(s: &str) -> (r: Result<Polarity, DeserializeError>)
    ensures
        spec_polarity_from_text(s@) matches Some(v) ==> r == Ok::<Polarity, DeserializeError>(v),
        spec_polarity_from_text(s@) is None ==> (r matches Err(e) && e.is_custom("Invalid polarity: "@ + s@)),
{
    if str_eq(s, "+") {
        Ok(Polarity::Positive)
    } else if str_eq(s, "-") {
        Ok(Polarity::Negative)
    } else if str_eq(s, "none") {
        Ok(Polarity::NoPolarity)
    } else {
        Err(DeserializeError::custom_with("Invalid polarity: ", s))
    }
}

/// Every [`Polarity`] is read back from the text it is written as.
pub proof fn lemma_polarity_round_trip(v: Polarity)
    ensures
        spec_polarity_from_text(spec_polarity_text(v)) == Some(v),
{
    reveal_strlit("+");
    reveal_strlit("-");
    reveal_strlit("none");
    assert("+"@.len() == 1);
    assert("-"@.len() == 1);
    assert("none"@.len() == 4);
    lemma_texts_differ_at("+"@, "-"@, 0);
    match v {
        Polarity::Positive => {},
        Polarity::Negative => {},
        Polarity::NoPolarity => {},
    }
}

/// A text that is read as a [`Polarity`] is exactly the text that value is written as.
pub proof fn lemma_polarity_text_canonical(s: Seq<char>)
    ensures
        spec_polarity_from_text(s) matches Some(v) ==> spec_polarity_text(v) == s,
{
}

/// The look of a switch.
#[derive(Debug, Clone, Copy, PartialEq, Eq, Structural)]
pub enum SwitchStyle {
    Toggle,
    PushButton,
}

/// The attribute text written for each [`SwitchStyle`].
pub open spec fn spec_switch_style_text(v: SwitchStyle) -> Seq<char> {
    match v {
        SwitchStyle::Toggle => "toggle"@,
        SwitchStyle::PushButton => "push_button"@,
    }
}

/// The [`SwitchStyle`] that an attribute text stands for, if any.
pub open spec fn spec_switch_style_from_text(s: Seq<char>) -> Option<SwitchStyle> {
    if s == "toggle"@ {
        Some(SwitchStyle::Toggle)
    } else if s == "push_button"@ {
        Some(SwitchStyle::PushButton)
    } else {
        None
    }
}

/// Writes a [`SwitchStyle`] as attribute text.
pub fn serialize_switch_style(v: &SwitchStyle) -> (r: &'static str)
    ensures
        r@ == spec_switch_style_text(*v),
{
    match v {
        SwitchStyle::Toggle => "toggle",
        SwitchStyle::PushButton => "push_button",
    }
}

/// Reads a [`SwitchStyle`] from attribute text; any other text is refused.
pub fn parse_switch_style(s: &str) -> (r: Result<SwitchStyle, DeserializeError>)
    ensures
        spec_switch_style_from_text(s@) matches Some(v) ==> r == Ok::<SwitchStyle, DeserializeError>(v),
        spec_switch_style_from_text(s@) is None ==> (r matches Err(e) && e.is_custom("Invalid switch_style: "@ + s@)),
{
    if str_eq(s, "toggle") {
        Ok(SwitchStyle::Toggle)
    } else if str_eq(s, "push_button") {
        Ok(SwitchStyle::PushButton)
    } else {
        Err(DeserializeError::custom_with("Invalid switch_style: ", s))
    }
}

/// Every [`SwitchStyle`] is read back from the text it is written as.
pub proof fn lemma_switch_style_round_trip(v: SwitchStyle)
    ensures
        spec_switch_style_from_text(spec_switch_style_text(v)) == Some(v),
{
    reveal_strlit("toggle");
    reveal_strlit("push_button");
    assert("toggle"@.len() == 6);
    assert("push_button"@.len() == 11);
    match v {
        SwitchStyle::Toggle => {},
        SwitchStyle::PushButton => {},
    }
}

/// A text that is read as a [`SwitchStyle`] is exactly the text that value is written as.
pub proof fn lemma_switch_style_text_canonical(s: Seq<char>)
    ensures
        spec_switch_style_from_text(s) matches Some(v) ==> spec_switch_style_text(v) == s,
{
}

/// How the choices of an options group are laid out.
#[derive(Debug, Clone, Copy, PartialEq, Eq, Structural)]
pub enum OptionsLayout {
    Vertical,
    Horizontal,
    Grid,
}

/// The attribute text written for each [`OptionsLayout`].
pub open spec fn spec_options_layout_text(v: OptionsLayout) -> Seq<char> {
    match v {
        OptionsLayout::Vertical => "vertical"@,
        OptionsLayout::Horizontal => "horizontal"@,
        OptionsLayout::Grid => "grid"@,
    }
}

/// The [`OptionsLayout`] that an attribute text stands for, if any.
pub open spec fn spec_options_layout_from_text(s: Seq<char>) -> Option<OptionsLayout> {
    if s == "vertical"@ {
        Some(OptionsLayout::Vertical)
    } else if s == "horizontal"@ {
        Some(OptionsLayout::Horizontal)
    } else if s == "grid"@ {
        Some(OptionsLayout::Grid)
    } else {
        None
    }
}

/// Writes a [`OptionsLayout`] as attribute text.
pub fn serialize_options_layout(v: &OptionsLayout) -> (r: &'static str)
    ensures
        r@ == spec_options_layout_text(*v),
{
    match v {
        OptionsLayout::Vertical => "vertical",
        OptionsLayout::Horizontal => "horizontal",
        OptionsLayout::Grid => "grid",
    }
}

/// Reads a [`OptionsLayout`] from attribute text; any other text is refused.
pub fn parse_options_layout(s: &str) -> (r: Result<OptionsLayout, DeserializeError>)
    ensures
        spec_options_layout_from_text(s@) matches Some(v) ==> r == Ok::<OptionsLayout, DeserializeError>(v),
        spec_options_layout_from_text(s@) is None ==> (r matches Err(e) && e.is_custom("Invalid options layout: "@ + s@)),
{
    if str_eq(s, "vertical") {
        Ok(OptionsLayout::Vertical)
    } else if str_eq(s, "horizontal") {
        Ok(OptionsLayout::Horizontal)
    } else if str_eq(s, "grid") {
        Ok(OptionsLayout::Grid)
    } else {
        Err(DeserializeError::custom_with("Invalid options layout: ", s))
    }
}

/// Every [`OptionsLayout`] is read back from the text it is written as.
pub proof fn lemma_options_layout_round_trip(v: OptionsLayout)
    ensures
        spec_options_layout_from_text(spec_options_layout_text(v)) == Some(v),
{
    reveal_strlit("vertical");
    reveal_strlit("horizontal");
    reveal_strlit("grid");
    assert("vertical"@.len() == 8);
    assert("horizontal"@.len() == 10);
    assert("grid"@.len() == 4);
    match v {
        OptionsLayout::Vertical => {},
        OptionsLayout::Horizontal => {},
        OptionsLayout::Grid => {},
    }
}

/// A text that is read as a [`OptionsLayout`] is exactly the text that value is written as.
pub proof fn lemma_options_layout_text_canonical(s: Seq<char>)
    ensures
        spec_options_layout_from_text(s) matches Some(v) ==> spec_options_layout_text(v) == s,
{
}

/// The kind of a lamp or gauge zone.
#[derive(Debug, Clone, Copy, PartialEq, Eq, Structural)]
pub enum ZoneType {
    Normal,
    Caution,
    Panic,
}

/// The attribute text written for each [`ZoneType`].
pub open spec fn spec_zone_type_text(v: ZoneType) -> Seq<char> {
    match v {
        ZoneType::Normal => "normal"@,
        ZoneType::Caution => "caution"@,
        ZoneType::Panic => "panic"@,
    }
}

/// The [`ZoneType`] that an attribute text stands for, if any.
pub open spec fn spec_zone_type_from_text(s: Seq<char>) -> Option<ZoneType> {
    if s == "normal"@ {
        Some(ZoneType::Normal)
    } else if s == "caution"@ {
        Some(ZoneType::Caution)
    } else if s == "panic"@ {
        Some(ZoneType::Panic)
    } else {
        None
    }
}

/// Writes a [`ZoneType`] as attribute text.
pub fn serialize_zone_type(v: &ZoneType) -> (r: &'static str)
    ensures
        r@ == spec_zone_type_text(*v),
{
    match v {
        ZoneType::Normal => "normal",
        ZoneType::Caution => "caution",
        ZoneType::Panic => "panic",
    }
}

/// Reads a [`ZoneType`] from attribute text; any other text is refused.
pub fn parse_zone_type(s: &str) -> (r: Result<ZoneType, DeserializeError>)
    ensures
        spec_zone_type_from_text(s@) matches Some(v) ==> r == Ok::<ZoneType, DeserializeError>(v),
        spec_zone_type_from_text(s@) is None ==> (r matches Err(e) && e.is_custom("Invalid zone type: "@ + s@)),
{
    if str_eq(s, "normal") {
        Ok(ZoneType::Normal)
    } else if str_eq(s, "caution") {
        Ok(ZoneType::Caution)
    } else if str_eq(s, "panic") {
        Ok(ZoneType::Panic)
    } else {
        Err(DeserializeError::custom_with("Invalid zone type: ", s))
    }
}

/// Every [`ZoneType`] is read back from the text it is written as.
pub proof fn lemma_zone_type_round_trip(v: ZoneType)
    ensures
        spec_zone_type_from_text(spec_zone_type_text(v)) == Some(v),
{
    reveal_strlit("normal");
    reveal_strlit("caution");
    reveal_strlit("panic");
    assert("normal"@.len() == 6);
    assert("caution"@.len() == 7);
    assert("panic"@.len() == 5);
    match v {
        ZoneType::Normal => {},
        ZoneType::Caution => {},
        ZoneType::Panic => {},
    }
}

/// A text that is read as a [`ZoneType`] is exactly the text that value is written as.
pub proof fn lemma_zone_type_text_canonical(s: Seq<char>)
    ensures
        spec_zone_type_from_text(s) matches Some(v) ==> spec_zone_type_text(v) == s,
{
}

/// The kind of a graph.
#[derive(Debug, Clone, Copy, PartialEq, Eq, Structural)]
pub enum GraphType {
    TimeSeries,
    Scatter,
    Bar,
}

/// The attribute text written for each [`GraphType`].
pub open spec fn spec_graph_type_text(v: GraphType) -> Seq<char> {
    match v {
        GraphType::TimeSeries => "time_series"@,
        GraphType::Scatter => "scatter"@,
        GraphType::Bar => "bar"@,
    }
}

/// The [`GraphType`] that an attribute text stands for, if any.
pub open spec fn spec_graph_type_from_text(s: Seq<char>) -> Option<GraphType> {
    if s == "time_series"@ {
        Some(GraphType::TimeSeries)
    } else if s == "scatter"@ {
        Some(GraphType::Scatter)
    } else if s == "bar"@ {
        Some(GraphType::Bar)
    } else {
        None
    }
}

/// Writes a [`GraphType`] as attribute text.
pub fn serialize_graph_type(v: &GraphType) -> (r: &'static str)
    ensures
        r@ == spec_graph_type_text(*v),
{
    match v {
        GraphType::TimeSeries => "time_series",
        GraphType::Scatter => "scatter",
        GraphType::Bar => "bar",
    }
}

/// Reads a [`GraphType`] from attribute text; any other text is refused.
pub fn parse_graph_type(s: &str) -> (r: Result<GraphType, DeserializeError>)
    ensures
        spec_graph_type_from_text(s@) matches Some(v) ==> r == Ok::<GraphType, DeserializeError>(v),
        spec_graph_type_from_text(s@) is None ==> (r matches Err(e) && e.is_custom("Invalid graph type: "@ + s@)),
{
    if str_eq(s, "time_series") {
        Ok(GraphType::TimeSeries)
    } else if str_eq(s, "scatter") {
        Ok(GraphType::Scatter)
    } else if str_eq(s, "bar") {
        Ok(GraphType::Bar)
    } else {
        Err(DeserializeError::custom_with("Invalid graph type: ", s))
    }
}

/// Every [`GraphType`] is read back from the text it is written as.
pub proof fn lemma_graph_type_round_trip(v: GraphType)
    ensures
        spec_graph_type_from_text(spec_graph_type_text(v)) == Some(v),
{
    reveal_strlit("time_series");
    reveal_strlit("scatter");
    reveal_strlit("bar");
    assert("time_series"@.len() == 11);
    assert("scatter"@.len() == 7);
    assert("bar"@.len() == 3);
    match v {
        GraphType::TimeSeries => {},
        GraphType::Scatter => {},
        GraphType::Bar => {},
    }
}

/// A text that is read as a [`GraphType`] is exactly the text that value is written as.
pub proof fn lemma_graph_type_text_canonical(s: Seq<char>)
    ensures
        spec_graph_type_from_text(s) matches Some(v) ==> spec_graph_type_text(v) == s,
{
}

/// The line style of a plot pen.
#[derive(Debug, Clone, Copy, PartialEq, Eq, Structural)]
pub enum PenStyle {
    Solid,
    Dotted,
    Dashed,
    DotDashed,
}

/// The attribute text written for each [`PenStyle`].
pub open spec fn spec_pen_style_text(v: PenStyle) -> Seq<char> {
    match v {
        PenStyle::Solid => "solid"@,
        PenStyle::Dotted => "dotted"@,
        PenStyle::Dashed => "dashed"@,
        PenStyle::DotDashed => "dot_dashed"@,
    }
}

/// The [`PenStyle`] that an attribute text stands for, if any.
pub open spec fn spec_pen_style_from_text(s: Seq<char>) -> Option<PenStyle> {
    if s == "solid"@ {
        Some(PenStyle::Solid)
    } else if s == "dotted"@ {
        Some(PenStyle::Dotted)
    } else if s == "dashed"@ {
        Some(PenStyle::Dashed)
    } else if s == "dot_dashed"@ {
        Some(PenStyle::DotDashed)
    } else {
        None
    }
}

/// Writes a [`PenStyle`] as attribute text.
pub fn serialize_pen_style(v: &PenStyle) -> (r: &'static str)
    ensures
        r@ == spec_pen_style_text(*v),
{
    match v {
        PenStyle::Solid => "solid",
        PenStyle::Dotted => "dotted",
        PenStyle::Dashed => "dashed",
        PenStyle::DotDashed => "dot_dashed",
    }
}

/// Reads a [`PenStyle`] from attribute text; any other text is refused.
pub fn parse_pen_style(s: &str) -> (r: Result<PenStyle, DeserializeError>)
    ensures
        spec_pen_style_from_text(s@) matches Some(v) ==> r == Ok::<PenStyle, DeserializeError>(v),
        spec_pen_style_from_text(s@) is None ==> (r matches Err(e) && e.is_custom("Invalid pen style: "@ + s@)),
{
    if str_eq(s, "solid") {
        Ok(PenStyle::Solid)
    } else if str_eq(s, "dotted") {
        Ok(PenStyle::Dotted)
    } else if str_eq(s, "dashed") {
        Ok(PenStyle::Dashed)
    } else if str_eq(s, "dot_dashed") {
        Ok(PenStyle::DotDashed)
    } else {
        Err(DeserializeError::custom_with("Invalid pen style: ", s))
    }
}

/// Every [`PenStyle`] is read back from the text it is written as.
pub proof fn lemma_pen_style_round_trip(v: PenStyle)
    ensures
        spec_pen_style_from_text(spec_pen_style_text(v)) == Some(v),
{
    reveal_strlit("solid");
    reveal_strlit("dotted");
    reveal_strlit("dashed");
    reveal_strlit("dot_dashed");
    assert("solid"@.len() == 5);
    assert("dotted"@.len() == 6);
    assert("dashed"@.len() == 6);
    assert("dot_dashed"@.len() == 10);
    lemma_texts_differ_at("dotted"@, "dashed"@, 1);
    match v {
        PenStyle::Solid => {},
        PenStyle::Dotted => {},
        PenStyle::Dashed => {},
        PenStyle::DotDashed => {},
    }
}

/// A text that is read as a [`PenStyle`] is exactly the text that value is written as.
pub proof fn lemma_pen_style_text_canonical(s: Seq<char>)
    ensures
        spec_pen_style_from_text(s) matches Some(v) ==> spec_pen_style_text(v) == s,
{
}

/// The kind of a table column or row.
#[derive(Debug, Clone, Copy, PartialEq, Eq, Structural)]
pub enum TableItemType {
    Time,
    Variable,
    Blank,
}

/// The attribute text written for each [`TableItemType`].
pub open spec fn spec_table_item_type_text(v: TableItemType) -> Seq<char> {
    match v {
        TableItemType::Time => "time"@,
        TableItemType::Variable => "variable"@,
        TableItemType::Blank => "blank"@,
    }
}

/// The [`TableItemType`] that an attribute text stands for, if any.
pub open spec fn spec_table_item_type_from_text(s: Seq<char>) -> Option<TableItemType> {
    if s == "time"@ {
        Some(TableItemType::Time)
    } else if s == "variable"@ {
        Some(TableItemType::Variable)
    } else if s == "blank"@ {
        Some(TableItemType::Blank)
    } else {
        None
    }
}

/// Writes a [`TableItemType`] as attribute text.
pub fn serialize_table_item_type(v: &TableItemType) -> (r: &'static str)
    ensures
        r@ == spec_table_item_type_text(*v),
{
    match v {
        TableItemType::Time => "time",
        TableItemType::Variable => "variable",
        TableItemType::Blank => "blank",
    }
}

/// Reads a [`TableItemType`] from attribute text; any other text is refused.
pub fn parse_table_item_type(s: &str) -> (r: Result<TableItemType, DeserializeError>)
    ensures
        spec_table_item_type_from_text(s@) matches Some(v) ==> r == Ok::<TableItemType, DeserializeError>(v),
        spec_table_item_type_from_text(s@) is None ==> (r matches Err(e) && e.is_custom("Invalid table item type: "@ + s@)),
{
    if str_eq(s, "time") {
        Ok(TableItemType::Time)
    } else if str_eq(s, "variable") {
        Ok(TableItemType::Variable)
    } else if str_eq(s, "blank") {
        Ok(TableItemType::Blank)
    } else {
        Err(DeserializeError::custom_with("Invalid table item type: ", s))
    }
}

/// Every [`TableItemType`] is read back from the text it is written as.
pub proof fn lemma_table_item_type_round_trip(v: TableItemType)
    ensures
        spec_table_item_type_from_text(spec_table_item_type_text(v)) == Some(v),
{
    reveal_strlit("time");
    reveal_strlit("variable");
    reveal_strlit("blank");
    assert("time"@.len() == 4);
    assert("variable"@.len() == 8);
    assert("blank"@.len() == 5);
    match v {
        TableItemType::Time => {},
        TableItemType::Variable => {},
        TableItemType::Blank => {},
    }
}

/// A text that is read as a [`TableItemType`] is exactly the text that value is written as.
pub proof fn lemma_table_item_type_text_canonical(s: Seq<char>)
    ensures
        spec_table_item_type_from_text(s) matches Some(v) ==> spec_table_item_type_text(v) == s,
{
}

/// The orientation of a table.
#[derive(Debug, Clone, Copy, PartialEq, Eq, Structural)]
pub enum TableOrientation {
    Horizontal,
    Vertical,
}

/// The attribute text written for each [`TableOrientation`].
pub open spec fn spec_table_orientation_text(v: TableOrientation) -> Seq<char> {
    match v {
        TableOrientation::Horizontal => "horizontal"@,
        TableOrientation::Vertical => "vertical"@,
    }
}

/// The [`TableOrientation`] that an attribute text stands for, if any.
pub open spec fn spec_table_orientation_from_text(s: Seq<char>) -> Option<TableOrientation> {
    if s == "horizontal"@ {
        Some(TableOrientation::Horizontal)
    } else if s == "vertical"@ {
        Some(TableOrientation::Vertical)
    } else {
        None
    }
}

/// Writes a [`TableOrientation`] as attribute text.
pub fn serialize_table_orientation(v: &TableOrientation) -> (r: &'static str)
    ensures
        r@ == spec_table_orientation_text(*v),
{
    match v {
        TableOrientation::Horizontal => "horizontal",
        TableOrientation::Vertical => "vertical",
    }
}

/// Reads a [`TableOrientation`] from attribute text; any other text is refused.
pub fn parse_table_orientation(s: &str) -> (r: Result<TableOrientation, DeserializeError>)
    ensures
        spec_table_orientation_from_text(s@) matches Some(v) ==> r == Ok::<TableOrientation, DeserializeError>(v),
        spec_table_orientation_from_text(s@) is None ==> (r matches Err(e) && e.is_custom("Invalid table orientation: "@ + s@)),
{
    if str_eq(s, "horizontal") {
        Ok(TableOrientation::Horizontal)
    } else if str_eq(s, "vertical") {
        Ok(TableOrientation::Vertical)
    } else {
        Err(DeserializeError::custom_with("Invalid table orientation: ", s))
    }
}

/// Every [`TableOrientation`] is read back from the text it is written as.
pub proof fn lemma_table_orientation_round_trip(v: TableOrientation)
    ensures
        spec_table_orientation_from_text(spec_table_orientation_text(v)) == Some(v),
{
    reveal_strlit("horizontal");
    reveal_strlit("vertical");
    assert("horizontal"@.len() == 10);
    assert("vertical"@.len() == 8);
    match v {
        TableOrientation::Horizontal => {},
        TableOrientation::Vertical => {},
    }
}

/// A text that is read as a [`TableOrientation`] is exactly the text that value is written as.
pub proof fn lemma_table_orientation_text_canonical(s: Seq<char>)
    ensures
        spec_table_orientation_from_text(s) matches Some(v) ==> spec_table_orientation_text(v) == s,
{
}

/// When a table reports stock balances.
#[derive(Debug, Clone, Copy, PartialEq, Eq, Structural)]
pub enum ReportBalances {
    Beginning,
    Ending,
}

/// The attribute text written for each [`ReportBalances`].
pub open spec fn spec_report_balances_text(v: ReportBalances) -> Seq<char> {
    match v {
        ReportBalances::Beginning => "beginning"@,
        ReportBalances::Ending => "ending"@,
    }
}

/// The [`ReportBalances`] that an attribute text stands for, if any.
pub open spec fn spec_report_balances_from_text(s: Seq<char>) -> Option<ReportBalances> {
    if s == "beginning"@ {
        Some(ReportBalances::Beginning)
    } else if s == "ending"@ {
        Some(ReportBalances::Ending)
    } else {
        None
    }
}

/// Writes a [`ReportBalances`] as attribute text.
pub fn serialize_report_balances(v: &ReportBalances) -> (r: &'static str)
    ensures
        r@ == spec_report_balances_text(*v),
{
    match v {
        ReportBalances::Beginning => "beginning",
        ReportBalances::Ending => "ending",
    }
}

/// Reads a [`ReportBalances`] from attribute text; any other text is refused.
pub fn parse_report_balances(s: &str) -> (r: Result<ReportBalances, DeserializeError>)
    ensures
        spec_report_balances_from_text(s@) matches Some(v) ==> r == Ok::<ReportBalances, DeserializeError>(v),
        spec_report_balances_from_text(s@) is None ==> (r matches Err(e) && e.is_custom("Invalid report balances: "@ + s@)),
{
    if str_eq(s, "beginning") {
        Ok(ReportBalances::Beginning)
    } else if str_eq(s, "ending") {
        Ok(ReportBalances::Ending)
    } else {
        Err(DeserializeError::custom_with("Invalid report balances: ", s))
    }
}

/// Every [`ReportBalances`] is read back from the text it is written as.
pub proof fn lemma_report_balances_round_trip(v: ReportBalances)
    ensures
        spec_report_balances_from_text(spec_report_balances_text(v)) == Some(v),
{
    reveal_strlit("beginning");
    reveal_strlit("ending");
    assert("beginning"@.len() == 9);
    assert("ending"@.len() == 6);
    match v {
        ReportBalances::Beginning => {},
        ReportBalances::Ending => {},
    }
}

/// A text that is read as a [`ReportBalances`] is exactly the text that value is written as.
pub proof fn lemma_report_balances_text_canonical(s: Seq<char>)
    ensures
        spec_report_balances_from_text(s) matches Some(v) ==> spec_report_balances_text(v) == s,
{
}

/// How a table reports flows.
#[derive(Debug, Clone, Copy, PartialEq, Eq, Structural)]
pub enum ReportFlows {
    Instantaneous,
    Summed,
}

/// The attribute text written for each [`ReportFlows`].
pub open spec fn spec_report_flows_text(v: ReportFlows) -> Seq<char> {
    match v {
        ReportFlows::Instantaneous => "instantaneous"@,
        ReportFlows::Summed => "summed"@,
    }
}

/// The [`ReportFlows`] that an attribute text stands for, if any.
pub open spec fn spec_report_flows_from_text(s: Seq<char>) -> Option<ReportFlows> {
    if s == "instantaneous"@ {
        Some(ReportFlows::Instantaneous)
    } else if s == "summed"@ {
        Some(ReportFlows::Summed)
    } else {
        None
    }
}

/// Writes a [`ReportFlows`] as attribute text.
pub fn serialize_report_flows(v: &ReportFlows) -> (r: &'static str)
    ensures
        r@ == spec_report_flows_text(*v),
{
    match v {
        ReportFlows::Instantaneous => "instantaneous",
        ReportFlows::Summed => "summed",
    }
}

/// Reads a [`ReportFlows`] from attribute text; any other text is refused.
pub fn parse_report_flows(s: &str) -> (r: Result<ReportFlows, DeserializeError>)
    ensures
        spec_report_flows_from_text(s@) matches Some(v) ==> r == Ok::<ReportFlows, DeserializeError>(v),
        spec_report_flows_from_text(s@) is None ==> (r matches Err(e) && e.is_custom("Invalid report flows: "@ + s@)),
{
    if str_eq(s, "instantaneous") {
        Ok(ReportFlows::Instantaneous)
    } else if str_eq(s, "summed") {
        Ok(ReportFlows::Summed)
    } else {
        Err(DeserializeError::custom_with("Invalid report flows: ", s))
    }
}

/// Every [`ReportFlows`] is read back from the text it is written as.
pub proof fn lemma_report_flows_round_trip(v: ReportFlows)
    ensures
        spec_report_flows_from_text(spec_report_flows_text(v)) == Some(v),
{
    reveal_strlit("instantaneous");
    reveal_strlit("summed");
    assert("instantaneous"@.len() == 13);
    assert("summed"@.len() == 6);
    match v {
        ReportFlows::Instantaneous => {},
        ReportFlows::Summed => {},
    }
}

/// A text that is read as a [`ReportFlows`] is exactly the text that value is written as.
pub proof fn lemma_report_flows_text_canonical(s: Seq<char>)
    ensures
        spec_report_flows_from_text(s) matches Some(v) ==> spec_report_flows_text(v) == s,
{
}

/// The background of a text box.
#[derive(Debug, Clone, Copy, PartialEq, Eq, Structural)]
pub enum TextBoxAppearance {
    Transparent,
    Normal,
}

/// The attribute text written for each [`TextBoxAppearance`].
pub open spec fn spec_text_box_appearance_text(v: TextBoxAppearance) -> Seq<char> {
    match v {
        TextBoxAppearance::Transparent => "transparent"@,
        TextBoxAppearance::Normal => "normal"@,
    }
}

/// The [`TextBoxAppearance`] that an attribute text stands for, if any.
pub open spec fn spec_text_box_appearance_from_text(s: Seq<char>) -> Option<TextBoxAppearance> {
    if s == "transparent"@ {
        Some(TextBoxAppearance::Transparent)
    } else if s == "normal"@ {
        Some(TextBoxAppearance::Normal)
    } else {
        None
    }
}

/// Writes a [`TextBoxAppearance`] as attribute text.
pub fn serialize_text_box_appearance(v: &TextBoxAppearance) -> (r: &'static str)
    ensures
        r@ == spec_text_box_appearance_text(*v),
{
    match v {
        TextBoxAppearance::Transparent => "transparent",
        TextBoxAppearance::Normal => "normal",
    }
}

/// Reads a [`TextBoxAppearance`] from attribute text; any other text is refused.
pub fn parse_text_box_appearance(s: &str) -> (r: Result<TextBoxAppearance, DeserializeError>)
    ensures
        spec_text_box_appearance_from_text(s@) matches Some(v) ==> r == Ok::<TextBoxAppearance, DeserializeError>(v),
        spec_text_box_appearance_from_text(s@) is None ==> (r matches Err(e) && e.is_custom("Invalid text box appearance: "@ + s@)),
{
    if str_eq(s, "transparent") {
        Ok(TextBoxAppearance::Transparent)
    } else if str_eq(s, "normal") {
        Ok(TextBoxAppearance::Normal)
    } else {
        Err(DeserializeError::custom_with("Invalid text box appearance: ", s))
    }
}

/// Every [`TextBoxAppearance`] is read back from the text it is written as.
pub proof fn lemma_text_box_appearance_round_trip(v: TextBoxAppearance)
    ensures
        spec_text_box_appearance_from_text(spec_text_box_appearance_text(v)) == Some(v),
{
    reveal_strlit("transparent");
    reveal_strlit("normal");
    assert("transparent"@.len() == 11);
    assert("normal"@.len() == 6);
    match v {
        TextBoxAppearance::Transparent => {},
        TextBoxAppearance::Normal => {},
    }
}

/// A text that is read as a [`TextBoxAppearance`] is exactly the text that value is written as.
pub proof fn lemma_text_box_appearance_text_canonical(s: Seq<char>)
    ensures
        spec_text_box_appearance_from_text(s) matches Some(v) ==> spec_text_box_appearance_text(v) == s,
{
}

/// The background of a button.
#[derive(Debug, Clone, Copy, PartialEq, Eq, Structural)]
pub enum ButtonAppearance {
    Opaque,
    Transparent,
}

/// The attribute text written for each [`ButtonAppearance`].
pub open spec fn spec_button_appearance_text(v: ButtonAppearance) -> Seq<char> {
    match v {
        ButtonAppearance::Opaque => "opaque"@,
        ButtonAppearance::Transparent => "transparent"@,
    }
}

/// The [`ButtonAppearance`] that an attribute text stands for, if any.
pub open spec fn spec_button_appearance_from_text(s: Seq<char>) -> Option<ButtonAppearance> {
    if s == "opaque"@ {
        Some(ButtonAppearance::Opaque)
    } else if s == "transparent"@ {
        Some(ButtonAppearance::Transparent)
    } else {
        None
    }
}

/// Writes a [`ButtonAppearance`] as attribute text.
pub fn serialize_button_appearance(v: &ButtonAppearance) -> (r: &'static str)
    ensures
        r@ == spec_button_appearance_text(*v),
{
    match v {
        ButtonAppearance::Opaque => "opaque",
        ButtonAppearance::Transparent => "transparent",
    }
}

/// Reads a [`ButtonAppearance`] from attribute text; any other text is refused.
pub fn parse_button_appearance(s: &str) -> (r: Result<ButtonAppearance, DeserializeError>)
    ensures
        spec_button_appearance_from_text(s@) matches Some(v) ==> r == Ok::<ButtonAppearance, DeserializeError>(v),
        spec_button_appearance_from_text(s@) is None ==> (r matches Err(e) && e.is_custom("Invalid button appearance: "@ + s@)),
{
    if str_eq(s, "opaque") {
        Ok(ButtonAppearance::Opaque)
    } else if str_eq(s, "transparent") {
        Ok(ButtonAppearance::Transparent)
    } else {
        Err(DeserializeError::custom_with("Invalid button appearance: ", s))
    }
}

/// Every [`ButtonAppearance`] is read back from the text it is written as.
pub proof fn lemma_button_appearance_round_trip(v: ButtonAppearance)
    ensures
        spec_button_appearance_from_text(spec_button_appearance_text(v)) == Some(v),
{
    reveal_strlit("opaque");
    reveal_strlit("transparent");
    assert("opaque"@.len() == 6);
    assert("transparent"@.len() == 11);
    match v {
        ButtonAppearance::Opaque => {},
        ButtonAppearance::Transparent => {},
    }
}

/// A text that is read as a [`ButtonAppearance`] is exactly the text that value is written as.
pub proof fn lemma_button_appearance_text_canonical(s: Seq<char>)
    ensures
        spec_button_appearance_from_text(s) matches Some(v) ==> spec_button_appearance_text(v) == s,
{
}

/// The outline of a button.
#[derive(Debug, Clone, Copy, PartialEq, Eq, Structural)]
pub enum ButtonStyle {
    Square,
    Rounded,
    Capsule,
}

/// The attribute text written for each [`ButtonStyle`].
pub open spec fn spec_button_style_text(v: ButtonStyle) -> Seq<char> {
    match v {
        ButtonStyle::Square => "square"@,
        ButtonStyle::Rounded => "rounded"@,
        ButtonStyle::Capsule => "capsule"@,
    }
}

/// The [`ButtonStyle`] that an attribute text stands for, if any.
pub open spec fn spec_button_style_from_text(s: Seq<char>) -> Option<ButtonStyle> {
    if s == "square"@ {
        Some(ButtonStyle::Square)
    } else if s == "rounded"@ {
        Some(ButtonStyle::Rounded)
    } else if s == "capsule"@ {
        Some(ButtonStyle::Capsule)
    } else {
        None
    }
}

/// Writes a [`ButtonStyle`] as attribute text.
pub fn serialize_button_style(v: &ButtonStyle) -> (r: &'static str)
    ensures
        r@ == spec_button_style_text(*v),
{
    match v {
        ButtonStyle::Square => "square",
        ButtonStyle::Rounded => "rounded",
        ButtonStyle::Capsule => "capsule",
    }
}

/// Reads a [`ButtonStyle`] from attribute text; any other text is refused.
pub fn parse_button_style(s: &str) -> (r: Result<ButtonStyle, DeserializeError>)
    ensures
        spec_button_style_from_text(s@) matches Some(v) ==> r == Ok::<ButtonStyle, DeserializeError>(v),
        spec_button_style_from_text(s@) is None ==> (r matches Err(e) && e.is_custom("Invalid button style: "@ + s@)),
{
    if str_eq(s, "square") {
        Ok(ButtonStyle::Square)
    } else if str_eq(s, "rounded") {
        Ok(ButtonStyle::Rounded)
    } else if str_eq(s, "capsule") {
        Ok(ButtonStyle::Capsule)
    } else {
        Err(DeserializeError::custom_with("Invalid button style: ", s))
    }
}

/// Every [`ButtonStyle`] is read back from the text it is written as.
pub proof fn lemma_button_style_round_trip(v: ButtonStyle)
    ensures
        spec_button_style_from_text(spec_button_style_text(v)) == Some(v),
{
    reveal_strlit("square");
    reveal_strlit("rounded");
    reveal_strlit("capsule");
    assert("square"@.len() == 6);
    assert("rounded"@.len() == 7);
    assert("capsule"@.len() == 7);
    lemma_texts_differ_at("rounded"@, "capsule"@, 0);
    match v {
        ButtonStyle::Square => {},
        ButtonStyle::Rounded => {},
        ButtonStyle::Capsule => {},
    }
}

/// A text that is read as a [`ButtonStyle`] is exactly the text that value is written as.
pub proof fn lemma_button_style_text_canonical(s: Seq<char>)
    ensures
        spec_button_style_from_text(s) matches Some(v) ==> spec_button_style_text(v) == s,
{
}

/// The transition shown when a link is followed.
#[derive(Debug, Clone, Copy, PartialEq, Eq, Structural)]
pub enum LinkEffect {
    Dissolve,
    Checkerboard,
    Bars,
    WipeLeft,
    WipeRight,
    WipeTop,
    WipeBottom,
    WipeClockwise,
    WipeCounterclockwise,
    IrisIn,
    IrisOut,
    DoorsClose,
    DoorsOpen,
    VenetianLeft,
    VenetianRight,
    VenetianTop,
    VenetianBottom,
    PushBottom,
    PushTop,
    PushLeft,
    PushRight,
}

/// The attribute text written for each [`LinkEffect`].
pub open spec fn spec_link_effect_text(v: LinkEffect) -> Seq<char> {
    match v {
        LinkEffect::Dissolve => "dissolve"@,
        LinkEffect::Checkerboard => "checkerboard"@,
        LinkEffect::Bars => "bars"@,
        LinkEffect::WipeLeft => "wipe_left"@,
        LinkEffect::WipeRight => "wipe_right"@,
        LinkEffect::WipeTop => "wipe_top"@,
        LinkEffect::WipeBottom => "wipe_bottom"@,
        LinkEffect::WipeClockwise => "wipe_clockwise"@,
        LinkEffect::WipeCounterclockwise => "wipe_counterclockwise"@,
        LinkEffect::IrisIn => "iris_in"@,
        LinkEffect::IrisOut => "iris_out"@,
        LinkEffect::DoorsClose => "doors_close"@,
        LinkEffect::DoorsOpen => "doors_open"@,
        LinkEffect::VenetianLeft => "venetian_left"@,
        LinkEffect::VenetianRight => "venetian_right"@,
        LinkEffect::VenetianTop => "venetian_top"@,
        LinkEffect::VenetianBottom => "venetian_bottom"@,
        LinkEffect::PushBottom => "push_bottom"@,
        LinkEffect::PushTop => "push_top"@,
        LinkEffect::PushLeft => "push_left"@,
        LinkEffect::PushRight => "push_right"@,
    }
}

/// The [`LinkEffect`] that an attribute text stands for, if any.
pub open spec fn spec_link_effect_from_text(s: Seq<char>) -> Option<LinkEffect> {
    if s == "dissolve"@ {
        Some(LinkEffect::Dissolve)
    } else if s == "checkerboard"@ {
        Some(LinkEffect::Checkerboard)
    } else if s == "bars"@ {
        Some(LinkEffect::Bars)
    } else if s == "wipe_left"@ {
        Some(LinkEffect::WipeLeft)
    } else if s == "wipe_right"@ {
        Some(LinkEffect::WipeRight)
    } else if s == "wipe_top"@ {
        Some(LinkEffect::WipeTop)
    } else if s == "wipe_bottom"@ {
        Some(LinkEffect::WipeBottom)
    } else if s == "wipe_clockwise"@ {
        Some(LinkEffect::WipeClockwise)
    } else if s == "wipe_counterclockwise"@ {
        Some(LinkEffect::WipeCounterclockwise)
    } else if s == "iris_in"@ {
        Some(LinkEffect::IrisIn)
    } else if s == "iris_out"@ {
        Some(LinkEffect::IrisOut)
    } else if s == "doors_close"@ {
        Some(LinkEffect::DoorsClose)
    } else if s == "doors_open"@ {
        Some(LinkEffect::DoorsOpen)
    } else if s == "venetian_left"@ {
        Some(LinkEffect::VenetianLeft)
    } else if s == "venetian_right"@ {
        Some(LinkEffect::VenetianRight)
    } else if s == "venetian_top"@ {
        Some(LinkEffect::VenetianTop)
    } else if s == "venetian_bottom"@ {
        Some(LinkEffect::VenetianBottom)
    } else if s == "push_bottom"@ {
        Some(LinkEffect::PushBottom)
    } else if s == "push_top"@ {
        Some(LinkEffect::PushTop)
    } else if s == "push_left"@ {
        Some(LinkEffect::PushLeft)
    } else if s == "push_right"@ {
        Some(LinkEffect::PushRight)
    } else {
        None
    }
}

/// Writes a [`LinkEffect`] as attribute text.
pub fn serialize_link_effect(v: &LinkEffect) -> (r: &'static str)
    ensures
        r@ == spec_link_effect_text(*v),
{
    match v {
        LinkEffect::Dissolve => "dissolve",
        LinkEffect::Checkerboard => "checkerboard",
        LinkEffect::Bars => "bars",
        LinkEffect::WipeLeft => "wipe_left",
        LinkEffect::WipeRight => "wipe_right",
        LinkEffect::WipeTop => "wipe_top",
        LinkEffect::WipeBottom => "wipe_bottom",
        LinkEffect::WipeClockwise => "wipe_clockwise",
        LinkEffect::WipeCounterclockwise => "wipe_counterclockwise",
        LinkEffect::IrisIn => "iris_in",
        LinkEffect::IrisOut => "iris_out",
        LinkEffect::DoorsClose => "doors_close",
        LinkEffect::DoorsOpen => "doors_open",
        LinkEffect::VenetianLeft => "venetian_left",
        LinkEffect::VenetianRight => "venetian_right",
        LinkEffect::VenetianTop => "venetian_top",
        LinkEffect::VenetianBottom => "venetian_bottom",
        LinkEffect::PushBottom => "push_bottom",
        LinkEffect::PushTop => "push_top",
        LinkEffect::PushLeft => "push_left",
        LinkEffect::PushRight => "push_right",
    }
}

/// Reads a [`LinkEffect`] from attribute text; any other text is refused.
pub fn parse_link_effect(s: &str) -> (r: Result<LinkEffect, DeserializeError>)
    ensures
        spec_link_effect_from_text(s@) matches Some(v) ==> r == Ok::<LinkEffect, DeserializeError>(v),
        spec_link_effect_from_text(s@) is None ==> (r matches Err(e) && e.is_custom("Invalid link effect: "@ + s@)),
{
    if str_eq(s, "dissolve") {
        Ok(LinkEffect::Dissolve)
    } else if str_eq(s, "checkerboard") {
        Ok(LinkEffect::Checkerboard)
    } else if str_eq(s, "bars") {
        Ok(LinkEffect::Bars)
    } else if str_eq(s, "wipe_left") {
        Ok(LinkEffect::WipeLeft)
    } else if str_eq(s, "wipe_right") {
        Ok(LinkEffect::WipeRight)
    } else if str_eq(s, "wipe_top") {
        Ok(LinkEffect::WipeTop)
    } else if str_eq(s, "wipe_bottom") {
        Ok(LinkEffect::WipeBottom)
    } else if str_eq(s, "wipe_clockwise") {
        Ok(LinkEffect::WipeClockwise)
    } else if str_eq(s, "wipe_counterclockwise") {
        Ok(LinkEffect::WipeCounterclockwise)
    } else if str_eq(s, "iris_in") {
        Ok(LinkEffect::IrisIn)
    } else if str_eq(s, "iris_out") {
        Ok(LinkEffect::IrisOut)
    } else if str_eq(s, "doors_close") {
        Ok(LinkEffect::DoorsClose)
    } else if str_eq(s, "doors_open") {
        Ok(LinkEffect::DoorsOpen)
    } else if str_eq(s, "venetian_left") {
        Ok(LinkEffect::VenetianLeft)
    } else if str_eq(s, "venetian_right") {
        Ok(LinkEffect::VenetianRight)
    } else if str_eq(s, "venetian_top") {
        Ok(LinkEffect::VenetianTop)
    } else if str_eq(s, "venetian_bottom") {
        Ok(LinkEffect::VenetianBottom)
    } else if str_eq(s, "push_bottom") {
        Ok(LinkEffect::PushBottom)
    } else if str_eq(s, "push_top") {
        Ok(LinkEffect::PushTop)
    } else if str_eq(s, "push_left") {
        Ok(LinkEffect::PushLeft)
    } else if str_eq(s, "push_right") {
        Ok(LinkEffect::PushRight)
    } else {
        Err(DeserializeError::custom_with("Invalid link effect: ", s))
    }
}

/// Every [`LinkEffect`] is read back from the text it is written as.
pub proof fn lemma_link_effect_round_trip(v: LinkEffect)
    ensures
        spec_link_effect_from_text(spec_link_effect_text(v)) == Some(v),
{
    reveal_strlit("dissolve");
    reveal_strlit("checkerboard");
    reveal_strlit("bars");
    reveal_strlit("wipe_left");
    reveal_strlit("wipe_right");
    reveal_strlit("wipe_top");
    reveal_strlit("wipe_bottom");
    reveal_strlit("wipe_clockwise");
    reveal_strlit("wipe_counterclockwise");
    reveal_strlit("iris_in");
    reveal_strlit("iris_out");
    reveal_strlit("doors_close");
    reveal_strlit("doors_open");
    reveal_strlit("venetian_left");
    reveal_strlit("venetian_right");
    reveal_strlit("venetian_top");
    reveal_strlit("venetian_bottom");
    reveal_strlit("push_bottom");
    reveal_strlit("push_top");
    reveal_strlit("push_left");
    reveal_strlit("push_right");
    assert("dissolve"@.len() == 8);
    assert("checkerboard"@.len() == 12);
    assert("bars"@.len() == 4);
    assert("wipe_left"@.len() == 9);
    assert("wipe_right"@.len() == 10);
    assert("wipe_top"@.len() == 8);
    assert("wipe_bottom"@.len() == 11);
    assert("wipe_clockwise"@.len() == 14);
    assert("wipe_counterclockwise"@.len() == 21);
    assert("iris_in"@.len() == 7);
    assert("iris_out"@.len() == 8);
    assert("doors_close"@.len() == 11);
    assert("doors_open"@.len() == 10);
    assert("venetian_left"@.len() == 13);
    assert("venetian_right"@.len() == 14);
    assert("venetian_top"@.len() == 12);
    assert("venetian_bottom"@.len() == 15);
    assert("push_bottom"@.len() == 11);
    assert("push_top"@.len() == 8);
    assert("push_left"@.len() == 9);
    assert("push_right"@.len() == 10);
    lemma_texts_differ_at("dissolve"@, "wipe_top"@, 0);
    lemma_texts_differ_at("dissolve"@, "iris_out"@, 0);
    lemma_texts_differ_at("dissolve"@, "push_top"@, 0);
    lemma_texts_differ_at("checkerboard"@, "venetian_top"@, 0);
    lemma_texts_differ_at("wipe_left"@, "push_left"@, 0);
    lemma_texts_differ_at("wipe_right"@, "doors_open"@, 0);
    lemma_texts_differ_at("wipe_right"@, "push_right"@, 0);
    lemma_texts_differ_at("wipe_top"@, "iris_out"@, 0);
    lemma_texts_differ_at("wipe_top"@, "push_top"@, 0);
    lemma_texts_differ_at("wipe_bottom"@, "doors_close"@, 0);
    lemma_texts_differ_at("wipe_bottom"@, "push_bottom"@, 0);
    lemma_texts_differ_at("wipe_clockwise"@, "venetian_right"@, 0);
    lemma_texts_differ_at("iris_out"@, "push_top"@, 0);
    lemma_texts_differ_at("doors_close"@, "push_bottom"@, 0);
    lemma_texts_differ_at("doors_open"@, "push_right"@, 0);
    match v {
        LinkEffect::Dissolve => {},
        LinkEffect::Checkerboard => {},
        LinkEffect::Bars => {},
        LinkEffect::WipeLeft => {},
        LinkEffect::WipeRight => {},
        LinkEffect::WipeTop => {},
        LinkEffect::WipeBottom => {},
        LinkEffect::WipeClockwise => {},
        LinkEffect::WipeCounterclockwise => {},
        LinkEffect::IrisIn => {},
        LinkEffect::IrisOut => {},
        LinkEffect::DoorsClose => {},
        LinkEffect::DoorsOpen => {},
        LinkEffect::VenetianLeft => {},
        LinkEffect::VenetianRight => {},
        LinkEffect::VenetianTop => {},
        LinkEffect::VenetianBottom => {},
        LinkEffect::PushBottom => {},
        LinkEffect::PushTop => {},
        LinkEffect::PushLeft => {},
        LinkEffect::PushRight => {},
    }
}

/// A text that is read as a [`LinkEffect`] is exactly the text that value is written as.
pub proof fn lemma_link_effect_text_canonical(s: Seq<char>)
    ensures
        spec_link_effect_from_text(s) matches Some(v) ==> spec_link_effect_text(v) == s,
{
}

/// A file menu action.
#[derive(Debug, Clone, Copy, PartialEq, Eq, Structural)]
pub enum FileAction {
    Open,
    Close,
    Save,
    SaveAs,
    SaveAsImage,
    Revert,
}

/// The attribute text written for each [`FileAction`].
pub open spec fn spec_file_action_text(v: FileAction) -> Seq<char> {
    match v {
        FileAction::Open => "open"@,
        FileAction::Close => "close"@,
        FileAction::Save => "save"@,
        FileAction::SaveAs => "save_as"@,
        FileAction::SaveAsImage => "save_as_image"@,
        FileAction::Revert => "revert"@,
    }
}

/// The [`FileAction`] that an attribute text stands for, if any.
pub open spec fn spec_file_action_from_text(s: Seq<char>) -> Option<FileAction> {
    if s == "open"@ {
        Some(FileAction::Open)
    } else if s == "close"@ {
        Some(FileAction::Close)
    } else if s == "save"@ {
        Some(FileAction::Save)
    } else if s == "save_as"@ {
        Some(FileAction::SaveAs)
    } else if s == "save_as_image"@ {
        Some(FileAction::SaveAsImage)
    } else if s == "revert"@ {
        Some(FileAction::Revert)
    } else {
        None
    }
}

/// Writes a [`FileAction`] as attribute text.
pub fn serialize_file_action(v: &FileAction) -> (r: &'static str)
    ensures
        r@ == spec_file_action_text(*v),
{
    match v {
        FileAction::Open => "open",
        FileAction::Close => "close",
        FileAction::Save => "save",
        FileAction::SaveAs => "save_as",
        FileAction::SaveAsImage => "save_as_image",
        FileAction::Revert => "revert",
    }
}

/// Reads a [`FileAction`] from attribute text; any other text is refused.
pub fn parse_file_action(s: &str) -> (r: Result<FileAction, DeserializeError>)
    ensures
        spec_file_action_from_text(s@) matches Some(v) ==> r == Ok::<FileAction, DeserializeError>(v),
        spec_file_action_from_text(s@) is None ==> (r matches Err(e) && e.is_custom("Invalid file action: "@ + s@)),
{
    if str_eq(s, "open") {
        Ok(FileAction::Open)
    } else if str_eq(s, "close") {
        Ok(FileAction::Close)
    } else if str_eq(s, "save") {
        Ok(FileAction::Save)
    } else if str_eq(s, "save_as") {
        Ok(FileAction::SaveAs)
    } else if str_eq(s, "save_as_image") {
        Ok(FileAction::SaveAsImage)
    } else if str_eq(s, "revert") {
        Ok(FileAction::Revert)
    } else {
        Err(DeserializeError::custom_with("Invalid file action: ", s))
    }
}

/// Every [`FileAction`] is read back from the text it is written as.
pub proof fn lemma_file_action_round_trip(v: FileAction)
    ensures
        spec_file_action_from_text(spec_file_action_text(v)) == Some(v),
{
    reveal_strlit("open");
    reveal_strlit("close");
    reveal_strlit("save");
    reveal_strlit("save_as");
    reveal_strlit("save_as_image");
    reveal_strlit("revert");
    assert("open"@.len() == 4);
    assert("close"@.len() == 5);
    assert("save"@.len() == 4);
    assert("save_as"@.len() == 7);
    assert("save_as_image"@.len() == 13);
    assert("revert"@.len() == 6);
    lemma_texts_differ_at("open"@, "save"@, 0);
    match v {
        FileAction::Open => {},
        FileAction::Close => {},
        FileAction::Save => {},
        FileAction::SaveAs => {},
        FileAction::SaveAsImage => {},
        FileAction::Revert => {},
    }
}

/// A text that is read as a [`FileAction`] is exactly the text that value is written as.
pub proof fn lemma_file_action_text_canonical(s: Seq<char>)
    ensures
        spec_file_action_from_text(s) matches Some(v) ==> spec_file_action_text(v) == s,
{
}

/// A printing menu action.
#[derive(Debug, Clone, Copy, PartialEq, Eq, Structural)]
pub enum PrintingAction {
    PrintSetup,
    Print,
    PrintScreen,
}

/// The attribute text written for each [`PrintingAction`].
pub open spec fn spec_printing_action_text(v: PrintingAction) -> Seq<char> {
    match v {
        PrintingAction::PrintSetup => "print_setup"@,
        PrintingAction::Print => "print"@,
        PrintingAction::PrintScreen => "print_screen"@,
    }
}

/// The [`PrintingAction`] that an attribute text stands for, if any.
pub open spec fn spec_printing_action_from_text(s: Seq<char>) -> Option<PrintingAction> {
    if s == "print_setup"@ {
        Some(PrintingAction::PrintSetup)
    } else if s == "print"@ {
        Some(PrintingAction::Print)
    } else if s == "print_screen"@ {
        Some(PrintingAction::PrintScreen)
    } else {
        None
    }
}

/// Writes a [`PrintingAction`] as attribute text.
pub fn serialize_printing_action(v: &PrintingAction) -> (r: &'static str)
    ensures
        r@ == spec_printing_action_text(*v),
{
    match v {
        PrintingAction::PrintSetup => "print_setup",
        PrintingAction::Print => "print",
        PrintingAction::PrintScreen => "print_screen",
    }
}

/// Reads a [`PrintingAction`] from attribute text; any other text is refused.
pub fn parse_printing_action(s: &str) -> (r: Result<PrintingAction, DeserializeError>)
    ensures
        spec_printing_action_from_text(s@) matches Some(v) ==> r == Ok::<PrintingAction, DeserializeError>(v),
        spec_printing_action_from_text(s@) is None ==> (r matches Err(e) && e.is_custom("Invalid printing action: "@ + s@)),
{
    if str_eq(s, "print_setup") {
        Ok(PrintingAction::PrintSetup)
    } else if str_eq(s, "print") {
        Ok(PrintingAction::Print)
    } else if str_eq(s, "print_screen") {
        Ok(PrintingAction::PrintScreen)
    } else {
        Err(DeserializeError::custom_with("Invalid printing action: ", s))
    }
}

/// Every [`PrintingAction`] is read back from the text it is written as.
pub proof fn lemma_printing_action_round_trip(v: PrintingAction)
    ensures
        spec_printing_action_from_text(spec_printing_action_text(v)) == Some(v),
{
    reveal_strlit("print_setup");
    reveal_strlit("print");
    reveal_strlit("print_screen");
    assert("print_setup"@.len() == 11);
    assert("print"@.len() == 5);
    assert("print_screen"@.len() == 12);
    match v {
        PrintingAction::PrintSetup => {},
        PrintingAction::Print => {},
        PrintingAction::PrintScreen => {},
    }
}

/// A text that is read as a [`PrintingAction`] is exactly the text that value is written as.
pub proof fn lemma_printing_action_text_canonical(s: Seq<char>)
    ensures
        spec_printing_action_from_text(s) matches Some(v) ==> spec_printing_action_text(v) == s,
{
}

/// A simulation menu action.
#[derive(Debug, Clone, Copy, PartialEq, Eq, Structural)]
pub enum SimulationAction {
    Run,
    Pause,
    Resume,
    Stop,
    RunRestore,
}

/// The attribute text written for each [`SimulationAction`].
pub open spec fn spec_simulation_action_text(v: SimulationAction) -> Seq<char> {
    match v {
        SimulationAction::Run => "run"@,
        SimulationAction::Pause => "pause"@,
        SimulationAction::Resume => "resume"@,
        SimulationAction::Stop => "stop"@,
        SimulationAction::RunRestore => "run_restore"@,
    }
}

/// The [`SimulationAction`] that an attribute text stands for, if any.
pub open spec fn spec_simulation_action_from_text(s: Seq<char>) -> Option<SimulationAction> {
    if s == "run"@ {
        Some(SimulationAction::Run)
    } else if s == "pause"@ {
        Some(SimulationAction::Pause)
    } else if s == "resume"@ {
        Some(SimulationAction::Resume)
    } else if s == "stop"@ {
        Some(SimulationAction::Stop)
    } else if s == "run_restore"@ {
        Some(SimulationAction::RunRestore)
    } else {
        None
    }
}

/// Writes a [`SimulationAction`] as attribute text.
pub fn serialize_simulation_action(v: &SimulationAction) -> (r: &'static str)
    ensures
        r@ == spec_simulation_action_text(*v),
{
    match v {
        SimulationAction::Run => "run",
        SimulationAction::Pause => "pause",
        SimulationAction::Resume => "resume",
        SimulationAction::Stop => "stop",
        SimulationAction::RunRestore => "run_restore",
    }
}

/// Reads a [`SimulationAction`] from attribute text; any other text is refused.
pub fn parse_simulation_action(s: &str) -> (r: Result<SimulationAction, DeserializeError>)
    ensures
        spec_simulation_action_from_text(s@) matches Some(v) ==> r == Ok::<SimulationAction, DeserializeError>(v),
        spec_simulation_action_from_text(s@) is None ==> (r matches Err(e) && e.is_custom("Invalid simulation action: "@ + s@)),
{
    if str_eq(s, "run") {
        Ok(SimulationAction::Run)
    } else if str_eq(s, "pause") {
        Ok(SimulationAction::Pause)
    } else if str_eq(s, "resume") {
        Ok(SimulationAction::Resume)
    } else if str_eq(s, "stop") {
        Ok(SimulationAction::Stop)
    } else if str_eq(s, "run_restore") {
        Ok(SimulationAction::RunRestore)
    } else {
        Err(DeserializeError::custom_with("Invalid simulation action: ", s))
    }
}

/// Every [`SimulationAction`] is read back from the text it is written as.
pub proof fn lemma_simulation_action_round_trip(v: SimulationAction)
    ensures
        spec_simulation_action_from_text(spec_simulation_action_text(v)) == Some(v),
{
    reveal_strlit("run");
    reveal_strlit("pause");
    reveal_strlit("resume");
    reveal_strlit("stop");
    reveal_strlit("run_restore");
    assert("run"@.len() == 3);
    assert("pause"@.len() == 5);
    assert("resume"@.len() == 6);
    assert("stop"@.len() == 4);
    assert("run_restore"@.len() == 11);
    match v {
        SimulationAction::Run => {},
        SimulationAction::Pause => {},
        SimulationAction::Resume => {},
        SimulationAction::Stop => {},
        SimulationAction::RunRestore => {},
    }
}

/// A text that is read as a [`SimulationAction`] is exactly the text that value is written as.
pub proof fn lemma_simulation_action_text_canonical(s: Seq<char>)
    ensures
        spec_simulation_action_from_text(s) matches Some(v) ==> spec_simulation_action_text(v) == s,
{
}

/// A restore menu action.
#[derive(Debug, Clone, Copy, PartialEq, Eq, Structural)]
pub enum RestoreAction {
    RestoreAll,
    RestoreSliders,
    RestoreKnobs,
    RestoreListInputs,
    RestoreGraphicalInputs,
    RestoreSwitches,
    RestoreNumericDisplays,
    RestoreGraphsTables,
    RestoreLampsGauges,
}

/// The attribute text written for each [`RestoreAction`].
pub open spec fn spec_restore_action_text(v: RestoreAction) -> Seq<char> {
    match v {
        RestoreAction::RestoreAll => "restore_all"@,
        RestoreAction::RestoreSliders => "restore_sliders"@,
        RestoreAction::RestoreKnobs => "restore_knobs"@,
        RestoreAction::RestoreListInputs => "restore_list_inputs"@,
        RestoreAction::RestoreGraphicalInputs => "restore_graphical_inputs"@,
        RestoreAction::RestoreSwitches => "restore_switches"@,
        RestoreAction::RestoreNumericDisplays => "restore_numeric_displays"@,
        RestoreAction::RestoreGraphsTables => "restore_graphs_tables"@,
        RestoreAction::RestoreLampsGauges => "restore_lamps_gauges"@,
    }
}

/// The [`RestoreAction`] that an attribute text stands for, if any.
pub open spec fn spec_restore_action_from_text(s: Seq<char>) -> Option<RestoreAction> {
    if s == "restore_all"@ {
        Some(RestoreAction::RestoreAll)
    } else if s == "restore_sliders"@ {
        Some(RestoreAction::RestoreSliders)
    } else if s == "restore_knobs"@ {
        Some(RestoreAction::RestoreKnobs)
    } else if s == "restore_list_inputs"@ {
        Some(RestoreAction::RestoreListInputs)
    } else if s == "restore_graphical_inputs"@ {
        Some(RestoreAction::RestoreGraphicalInputs)
    } else if s == "restore_switches"@ {
        Some(RestoreAction::RestoreSwitches)
    } else if s == "restore_numeric_displays"@ {
        Some(RestoreAction::RestoreNumericDisplays)
    } else if s == "restore_graphs_tables"@ {
        Some(RestoreAction::RestoreGraphsTables)
    } else if s == "restore_lamps_gauges"@ {
        Some(RestoreAction::RestoreLampsGauges)
    } else {
        None
    }
}

/// Writes a [`RestoreAction`] as attribute text.
pub fn serialize_restore_action(v: &RestoreAction) -> (r: &'static str)
    ensures
        r@ == spec_restore_action_text(*v),
{
    match v {
        RestoreAction::RestoreAll => "restore_all",
        RestoreAction::RestoreSliders => "restore_sliders",
        RestoreAction::RestoreKnobs => "restore_knobs",
        RestoreAction::RestoreListInputs => "restore_list_inputs",
        RestoreAction::RestoreGraphicalInputs => "restore_graphical_inputs",
        RestoreAction::RestoreSwitches => "restore_switches",
        RestoreAction::RestoreNumericDisplays => "restore_numeric_displays",
        RestoreAction::RestoreGraphsTables => "restore_graphs_tables",
        RestoreAction::RestoreLampsGauges => "restore_lamps_gauges",
    }
}

/// Reads a [`RestoreAction`] from attribute text; any other text is refused.
pub fn parse_restore_action(s: &str) -> (r: Result<RestoreAction, DeserializeError>)
    ensures
        spec_restore_action_from_text(s@) matches Some(v) ==> r == Ok::<RestoreAction, DeserializeError>(v),
        spec_restore_action_from_text(s@) is None ==> (r matches Err(e) && e.is_custom("Invalid restore action: "@ + s@)),
{
    if str_eq(s, "restore_all") {
        Ok(RestoreAction::RestoreAll)
    } else if str_eq(s, "restore_sliders") {
        Ok(RestoreAction::RestoreSliders)
    } else if str_eq(s, "restore_knobs") {
        Ok(RestoreAction::RestoreKnobs)
    } else if str_eq(s, "restore_list_inputs") {
        Ok(RestoreAction::RestoreListInputs)
    } else if str_eq(s, "restore_graphical_inputs") {
        Ok(RestoreAction::RestoreGraphicalInputs)
    } else if str_eq(s, "restore_switches") {
        Ok(RestoreAction::RestoreSwitches)
    } else if str_eq(s, "restore_numeric_displays") {
        Ok(RestoreAction::RestoreNumericDisplays)
    } else if str_eq(s, "restore_graphs_tables") {
        Ok(RestoreAction::RestoreGraphsTables)
    } else if str_eq(s, "restore_lamps_gauges") {
        Ok(RestoreAction::RestoreLampsGauges)
    } else {
        Err(DeserializeError::custom_with("Invalid restore action: ", s))
    }
}

/// Every [`RestoreAction`] is read back from the text it is written as.
pub proof fn lemma_restore_action_round_trip(v: RestoreAction)
    ensures
        spec_restore_action_from_text(spec_restore_action_text(v)) == Some(v),
{
    reveal_strlit("restore_all");
    reveal_strlit("restore_sliders");
    reveal_strlit("restore_knobs");
    reveal_strlit("restore_list_inputs");
    reveal_strlit("restore_graphical_inputs");
    reveal_strlit("restore_switches");
    reveal_strlit("restore_numeric_displays");
    reveal_strlit("restore_graphs_tables");
    reveal_strlit("restore_lamps_gauges");
    assert("restore_all"@.len() == 11);
    assert("restore_sliders"@.len() == 15);
    assert("restore_knobs"@.len() == 13);
    assert("restore_list_inputs"@.len() == 19);
    assert("restore_graphical_inputs"@.len() == 24);
    assert("restore_switches"@.len() == 16);
    assert("restore_numeric_displays"@.len() == 24);
    assert("restore_graphs_tables"@.len() == 21);
    assert("restore_lamps_gauges"@.len() == 20);
    lemma_texts_differ_at("restore_graphical_inputs"@, "restore_numeric_displays"@, 8);
    match v {
        RestoreAction::RestoreAll => {},
        RestoreAction::RestoreSliders => {},
        RestoreAction::RestoreKnobs => {},
        RestoreAction::RestoreListInputs => {},
        RestoreAction::RestoreGraphicalInputs => {},
        RestoreAction::RestoreSwitches => {},
        RestoreAction::RestoreNumericDisplays => {},
        RestoreAction::RestoreGraphsTables => {},
        RestoreAction::RestoreLampsGauges => {},
    }
}

/// A text that is read as a [`RestoreAction`] is exactly the text that value is written as.
pub proof fn lemma_restore_action_text_canonical(s: Seq<char>)
    ensures
        spec_restore_action_from_text(s) matches Some(v) ==> spec_restore_action_text(v) == s,
{
}

/// A miscellaneous menu action.
#[derive(Debug, Clone, Copy, PartialEq, Eq, Structural)]
pub enum MiscellaneousAction {
    Exit,
    Find,
    RunSpecs,
}

/// The attribute text written for each [`MiscellaneousAction`].
pub open spec fn spec_miscellaneous_action_text(v: MiscellaneousAction) -> Seq<char> {
    match v {
        MiscellaneousAction::Exit => "exit"@,
        MiscellaneousAction::Find => "find"@,
        MiscellaneousAction::RunSpecs => "run_specs"@,
    }
}

/// The [`MiscellaneousAction`] that an attribute text stands for, if any.
pub open spec fn spec_miscellaneous_action_from_text(s: Seq<char>) -> Option<MiscellaneousAction> {
    if s == "exit"@ {
        Some(MiscellaneousAction::Exit)
    } else if s == "find"@ {
        Some(MiscellaneousAction::Find)
    } else if s == "run_specs"@ {
        Some(MiscellaneousAction::RunSpecs)
    } else {
        None
    }
}

/// Writes a [`MiscellaneousAction`] as attribute text.
pub fn serialize_miscellaneous_action(v: &MiscellaneousAction) -> (r: &'static str)
    ensures
        r@ == spec_miscellaneous_action_text(*v),
{
    match v {
        MiscellaneousAction::Exit => "exit",
        MiscellaneousAction::Find => "find",
        MiscellaneousAction::RunSpecs => "run_specs",
    }
}

/// Reads a [`MiscellaneousAction`] from attribute text; any other text is refused.
pub fn parse_miscellaneous_action(s: &str) -> (r: Result<MiscellaneousAction, DeserializeError>)
    ensures
        spec_miscellaneous_action_from_text(s@) matches Some(v) ==> r == Ok::<MiscellaneousAction, DeserializeError>(v),
        spec_miscellaneous_action_from_text(s@) is None ==> (r matches Err(e) && e.is_custom("Invalid miscellaneous action: "@ + s@)),
{
    if str_eq(s, "exit") {
        Ok(MiscellaneousAction::Exit)
    } else if str_eq(s, "find") {
        Ok(MiscellaneousAction::Find)
    } else if str_eq(s, "run_specs") {
        Ok(MiscellaneousAction::RunSpecs)
    } else {
        Err(DeserializeError::custom_with("Invalid miscellaneous action: ", s))
    }
}

/// Every [`MiscellaneousAction`] is read back from the text it is written as.
pub proof fn lemma_miscellaneous_action_round_trip(v: MiscellaneousAction)
    ensures
        spec_miscellaneous_action_from_text(spec_miscellaneous_action_text(v)) == Some(v),
{
    reveal_strlit("exit");
    reveal_strlit("find");
    reveal_strlit("run_specs");
    assert("exit"@.len() == 4);
    assert("find"@.len() == 4);
    assert("run_specs"@.len() == 9);
    lemma_texts_differ_at("exit"@, "find"@, 0);
    match v {
        MiscellaneousAction::Exit => {},
        MiscellaneousAction::Find => {},
        MiscellaneousAction::RunSpecs => {},
    }
}

/// A text that is read as a [`MiscellaneousAction`] is exactly the text that value is written as.
pub proof fn lemma_miscellaneous_action_text_canonical(s: Seq<char>)
    ensures
        spec_miscellaneous_action_from_text(s) matches Some(v) ==> spec_miscellaneous_action_text(v) == s,
{
}

/// The weight of a font.
#[derive(Debug, Clone, Copy, PartialEq, Eq, Structural)]
pub enum FontWeight {
    Normal,
    Bold,
}

/// The attribute text written for each [`FontWeight`].
pub open spec fn spec_font_weight_text(v: FontWeight) -> Seq<char> {
    match v {
        FontWeight::Normal => "normal"@,
        FontWeight::Bold => "bold"@,
    }
}

/// The [`FontWeight`] that an attribute text stands for, if any.
pub open spec fn spec_font_weight_from_text(s: Seq<char>) -> Option<FontWeight> {
    if s == "normal"@ {
        Some(FontWeight::Normal)
    } else if s == "bold"@ {
        Some(FontWeight::Bold)
    } else {
        None
    }
}

/// Writes a [`FontWeight`] as attribute text.
pub fn serialize_font_weight(v: &FontWeight) -> (r: &'static str)
    ensures
        r@ == spec_font_weight_text(*v),
{
    match v {
        FontWeight::Normal => "normal",
        FontWeight::Bold => "bold",
    }
}

/// Reads a [`FontWeight`] from attribute text; any other text is refused.
pub fn parse_font_weight(s: &str) -> (r: Result<FontWeight, DeserializeError>)
    ensures
        spec_font_weight_from_text(s@) matches Some(v) ==> r == Ok::<FontWeight, DeserializeError>(v),
        spec_font_weight_from_text(s@) is None ==> (r matches Err(e) && e.is_custom("Invalid font_weight: "@ + s@)),
{
    if str_eq(s, "normal") {
        Ok(FontWeight::Normal)
    } else if str_eq(s, "bold") {
        Ok(FontWeight::Bold)
    } else {
        Err(DeserializeError::custom_with("Invalid font_weight: ", s))
    }
}

/// Every [`FontWeight`] is read back from the text it is written as.
pub proof fn lemma_font_weight_round_trip(v: FontWeight)
    ensures
        spec_font_weight_from_text(spec_font_weight_text(v)) == Some(v),
{
    reveal_strlit("normal");
    reveal_strlit("bold");
    assert("normal"@.len() == 6);
    assert("bold"@.len() == 4);
    match v {
        FontWeight::Normal => {},
        FontWeight::Bold => {},
    }
}

/// A text that is read as a [`FontWeight`] is exactly the text that value is written as.
pub proof fn lemma_font_weight_text_canonical(s: Seq<char>)
    ensures
        spec_font_weight_from_text(s) matches Some(v) ==> spec_font_weight_text(v) == s,
{
}

/// The style of a font.
#[derive(Debug, Clone, Copy, PartialEq, Eq, Structural)]
pub enum FontStyle {
    Normal,
    Italic,
}

/// The attribute text written for each [`FontStyle`].
pub open spec fn spec_font_style_text(v: FontStyle) -> Seq<char> {
    match v {
        FontStyle::Normal => "normal"@,
        FontStyle::Italic => "italic"@,
    }
}

/// The [`FontStyle`] that an attribute text stands for, if any.
pub open spec fn spec_font_style_from_text(s: Seq<char>) -> Option<FontStyle> {
    if s == "normal"@ {
        Some(FontStyle::Normal)
    } else if s == "italic"@ {
        Some(FontStyle::Italic)
    } else {
        None
    }
}

/// Writes a [`FontStyle`] as attribute text.
pub fn serialize_font_style(v: &FontStyle) -> (r: &'static str)
    ensures
        r@ == spec_font_style_text(*v),
{
    match v {
        FontStyle::Normal => "normal",
        FontStyle::Italic => "italic",
    }
}

/// Reads a [`FontStyle`] from attribute text; any other text is refused.
pub fn parse_font_style(s: &str) -> (r: Result<FontStyle, DeserializeError>)
    ensures
        spec_font_style_from_text(s@) matches Some(v) ==> r == Ok::<FontStyle, DeserializeError>(v),
        spec_font_style_from_text(s@) is None ==> (r matches Err(e) && e.is_custom("Invalid font_style: "@ + s@)),
{
    if str_eq(s, "normal") {
        Ok(FontStyle::Normal)
    } else if str_eq(s, "italic") {
        Ok(FontStyle::Italic)
    } else {
        Err(DeserializeError::custom_with("Invalid font_style: ", s))
    }
}

/// Every [`FontStyle`] is read back from the text it is written as.
pub proof fn lemma_font_style_round_trip(v: FontStyle)
    ensures
        spec_font_style_from_text(spec_font_style_text(v)) == Some(v),
{
    reveal_strlit("normal");
    reveal_strlit("italic");
    assert("normal"@.len() == 6);
    assert("italic"@.len() == 6);
    lemma_texts_differ_at("normal"@, "italic"@, 0);
    match v {
        FontStyle::Normal => {},
        FontStyle::Italic => {},
    }
}

/// A text that is read as a [`FontStyle`] is exactly the text that value is written as.
pub proof fn lemma_font_style_text_canonical(s: Seq<char>)
    ensures
        spec_font_style_from_text(s) matches Some(v) ==> spec_font_style_text(v) == s,
{
}

/// The decoration of text.
#[derive(Debug, Clone, Copy, PartialEq, Eq, Structural)]
pub enum TextDecoration {
    Normal,
    Underline,
}

/// The attribute text written for each [`TextDecoration`].
pub open spec fn spec_text_decoration_text(v: TextDecoration) -> Seq<char> {
    match v {
        TextDecoration::Normal => "normal"@,
        TextDecoration::Underline => "underline"@,
    }
}

/// The [`TextDecoration`] that an attribute text stands for, if any.
pub open spec fn spec_text_decoration_from_text(s: Seq<char>) -> Option<TextDecoration> {
    if s == "normal"@ {
        Some(TextDecoration::Normal)
    } else if s == "underline"@ {
        Some(TextDecoration::Underline)
    } else {
        None
    }
}

/// Writes a [`TextDecoration`] as attribute text.
pub fn serialize_text_decoration(v: &TextDecoration) -> (r: &'static str)
    ensures
        r@ == spec_text_decoration_text(*v),
{
    match v {
        TextDecoration::Normal => "normal",
        TextDecoration::Underline => "underline",
    }
}

/// Reads a [`TextDecoration`] from attribute text; any other text is refused.
pub fn parse_text_decoration(s: &str) -> (r: Result<TextDecoration, DeserializeError>)
    ensures
        spec_text_decoration_from_text(s@) matches Some(v) ==> r == Ok::<TextDecoration, DeserializeError>(v),
        spec_text_decoration_from_text(s@) is None ==> (r matches Err(e) && e.is_custom("Invalid text_decoration: "@ + s@)),
{
    if str_eq(s, "normal") {
        Ok(TextDecoration::Normal)
    } else if str_eq(s, "underline") {
        Ok(TextDecoration::Underline)
    } else {
        Err(DeserializeError::custom_with("Invalid text_decoration: ", s))
    }
}

/// Every [`TextDecoration`] is read back from the text it is written as.
pub proof fn lemma_text_decoration_round_trip(v: TextDecoration)
    ensures
        spec_text_decoration_from_text(spec_text_decoration_text(v)) == Some(v),
{
    reveal_strlit("normal");
    reveal_strlit("underline");
    assert("normal"@.len() == 6);
    assert("underline"@.len() == 9);
    match v {
        TextDecoration::Normal => {},
        TextDecoration::Underline => {},
    }
}

/// A text that is read as a [`TextDecoration`] is exactly the text that value is written as.
pub proof fn lemma_text_decoration_text_canonical(s: Seq<char>)
    ensures
        spec_text_decoration_from_text(s) matches Some(v) ==> spec_text_decoration_text(v) == s,
{
}

/// The horizontal alignment of text.
#[derive(Debug, Clone, Copy, PartialEq, Eq, Structural)]
pub enum TextAlign {
    Left,
    Right,
    Center,
}

/// The attribute text written for each [`TextAlign`].
pub open spec fn spec_text_align_text(v: TextAlign) -> Seq<char> {
    match v {
        TextAlign::Left => "left"@,
        TextAlign::Right => "right"@,
        TextAlign::Center => "center"@,
    }
}

/// The [`TextAlign`] that an attribute text stands for, if any.
pub open spec fn spec_text_align_from_text(s: Seq<char>) -> Option<TextAlign> {
    if s == "left"@ {
        Some(TextAlign::Left)
    } else if s == "right"@ {
        Some(TextAlign::Right)
    } else if s == "center"@ {
        Some(TextAlign::Center)
    } else {
        None
    }
}

/// Writes a [`TextAlign`] as attribute text.
pub fn serialize_text_align(v: &TextAlign) -> (r: &'static str)
    ensures
        r@ == spec_text_align_text(*v),
{
    match v {
        TextAlign::Left => "left",
        TextAlign::Right => "right",
        TextAlign::Center => "center",
    }
}

/// Reads a [`TextAlign`] from attribute text; any other text is refused.
pub fn parse_text_align(s: &str) -> (r: Result<TextAlign, DeserializeError>)
    ensures
        spec_text_align_from_text(s@) matches Some(v) ==> r == Ok::<TextAlign, DeserializeError>(v),
        spec_text_align_from_text(s@) is None ==> (r matches Err(e) && e.is_custom("Invalid text_align: "@ + s@)),
{
    if str_eq(s, "left") {
        Ok(TextAlign::Left)
    } else if str_eq(s, "right") {
        Ok(TextAlign::Right)
    } else if str_eq(s, "center") {
        Ok(TextAlign::Center)
    } else {
        Err(DeserializeError::custom_with("Invalid text_align: ", s))
    }
}

/// Every [`TextAlign`] is read back from the text it is written as.
pub proof fn lemma_text_align_round_trip(v: TextAlign)
    ensures
        spec_text_align_from_text(spec_text_align_text(v)) == Some(v),
{
    reveal_strlit("left");
    reveal_strlit("right");
    reveal_strlit("center");
    assert("left"@.len() == 4);
    assert("right"@.len() == 5);
    assert("center"@.len() == 6);
    match v {
        TextAlign::Left => {},
        TextAlign::Right => {},
        TextAlign::Center => {},
    }
}

/// A text that is read as a [`TextAlign`] is exactly the text that value is written as.
pub proof fn lemma_text_align_text_canonical(s: Seq<char>)
    ensures
        spec_text_align_from_text(s) matches Some(v) ==> spec_text_align_text(v) == s,
{
}

/// The vertical alignment of text.
#[derive(Debug, Clone, Copy, PartialEq, Eq, Structural)]
pub enum VerticalTextAlign {
    Top,
    Bottom,
    Center,
}

/// The attribute text written for each [`VerticalTextAlign`].
pub open spec fn spec_vertical_text_align_text(v: VerticalTextAlign) -> Seq<char> {
    match v {
        VerticalTextAlign::Top => "top"@,
        VerticalTextAlign::Bottom => "bottom"@,
        VerticalTextAlign::Center => "center"@,
    }
}

/// The [`VerticalTextAlign`] that an attribute text stands for, if any.
pub open spec fn spec_vertical_text_align_from_text(s: Seq<char>) -> Option<VerticalTextAlign> {
    if s == "top"@ {
        Some(VerticalTextAlign::Top)
    } else if s == "bottom"@ {
        Some(VerticalTextAlign::Bottom)
    } else if s == "center"@ {
        Some(VerticalTextAlign::Center)
    } else {
        None
    }
}

/// Writes a [`VerticalTextAlign`] as attribute text.
pub fn serialize_vertical_text_align(v: &VerticalTextAlign) -> (r: &'static str)
    ensures
        r@ == spec_vertical_text_align_text(*v),
{
    match v {
        VerticalTextAlign::Top => "top",
        VerticalTextAlign::Bottom => "bottom",
        VerticalTextAlign::Center => "center",
    }
}

/// Reads a [`VerticalTextAlign`] from attribute text; any other text is refused.
pub fn parse_vertical_text_align(s: &str) -> (r: Result<VerticalTextAlign, DeserializeError>)
    ensures
        spec_vertical_text_align_from_text(s@) matches Some(v) ==> r == Ok::<VerticalTextAlign, DeserializeError>(v),
        spec_vertical_text_align_from_text(s@) is None ==> (r matches Err(e) && e.is_custom("Invalid vertical_text_align: "@ + s@)),
{
    if str_eq(s, "top") {
        Ok(VerticalTextAlign::Top)
    } else if str_eq(s, "bottom") {
        Ok(VerticalTextAlign::Bottom)
    } else if str_eq(s, "center") {
        Ok(VerticalTextAlign::Center)
    } else {
        Err(DeserializeError::custom_with("Invalid vertical_text_align: ", s))
    }
}

/// Every [`VerticalTextAlign`] is read back from the text it is written as.
pub proof fn lemma_vertical_text_align_round_trip(v: VerticalTextAlign)
    ensures
        spec_vertical_text_align_from_text(spec_vertical_text_align_text(v)) == Some(v),
{
    reveal_strlit("top");
    reveal_strlit("bottom");
    reveal_strlit("center");
    assert("top"@.len() == 3);
    assert("bottom"@.len() == 6);
    assert("center"@.len() == 6);
    lemma_texts_differ_at("bottom"@, "center"@, 0);
    match v {
        VerticalTextAlign::Top => {},
        VerticalTextAlign::Bottom => {},
        VerticalTextAlign::Center => {},
    }
}

/// A text that is read as a [`VerticalTextAlign`] is exactly the text that value is written as.
pub proof fn lemma_vertical_text_align_text_canonical(s: Seq<char>)
    ensures
        spec_vertical_text_align_from_text(s) matches Some(v) ==> spec_vertical_text_align_text(v) == s,
{
}

/// The style of a border.
#[derive(Debug, Clone, Copy, PartialEq, Eq, Structural)]
pub enum BorderStyle {
    NoBorder,
    Solid,
}

/// The attribute text written for each [`BorderStyle`].
pub open spec fn spec_border_style_text(v: BorderStyle) -> Seq<char> {
    match v {
        BorderStyle::NoBorder => "none"@,
        BorderStyle::Solid => "solid"@,
    }
}

/// The [`BorderStyle`] that an attribute text stands for, if any.
pub open spec fn spec_border_style_from_text(s: Seq<char>) -> Option<BorderStyle> {
    if s == "none"@ {
        Some(BorderStyle::NoBorder)
    } else if s == "solid"@ {
        Some(BorderStyle::Solid)
    } else {
        None
    }
}

/// Writes a [`BorderStyle`] as attribute text.
pub fn serialize_border_style(v: &BorderStyle) -> (r: &'static str)
    ensures
        r@ == spec_border_style_text(*v),
{
    match v {
        BorderStyle::NoBorder => "none",
        BorderStyle::Solid => "solid",
    }
}

/// Reads a [`BorderStyle`] from attribute text; any other text is refused.
pub fn parse_border_style(s: &str) -> (r: Result<BorderStyle, DeserializeError>)
    ensures
        spec_border_style_from_text(s@) matches Some(v) ==> r == Ok::<BorderStyle, DeserializeError>(v),
        spec_border_style_from_text(s@) is None ==> (r matches Err(e) && e.is_custom("Invalid text_border_style: "@ + s@)),
{
    if str_eq(s, "none") {
        Ok(BorderStyle::NoBorder)
    } else if str_eq(s, "solid") {
        Ok(BorderStyle::Solid)
    } else {
        Err(DeserializeError::custom_with("Invalid text_border_style: ", s))
    }
}

/// Every [`BorderStyle`] is read back from the text it is written as.
pub proof fn lemma_border_style_round_trip(v: BorderStyle)
    ensures
        spec_border_style_from_text(spec_border_style_text(v)) == Some(v),
{
    reveal_strlit("none");
    reveal_strlit("solid");
    assert("none"@.len() == 4);
    assert("solid"@.len() == 5);
    match v {
        BorderStyle::NoBorder => {},
        BorderStyle::Solid => {},
    }
}

/// A text that is read as a [`BorderStyle`] is exactly the text that value is written as.
pub proof fn lemma_border_style_text_canonical(s: Seq<char>)
    ensures
        spec_border_style_from_text(s) matches Some(v) ==> spec_border_style_text(v) == s,
{
}

/// The order in which printed pages are numbered.
#[derive(Debug, Clone, Copy, PartialEq, Eq, Structural)]
pub enum PageSequence {
    Row,
    Column,
}

/// The attribute text written for each [`PageSequence`].
pub open spec fn spec_page_sequence_text(v: PageSequence) -> Seq<char> {
    match v {
        PageSequence::Row => "row"@,
        PageSequence::Column => "column"@,
    }
}

/// The [`PageSequence`] that an attribute text stands for, if any.
pub open spec fn spec_page_sequence_from_text(s: Seq<char>) -> Option<PageSequence> {
    if s == "row"@ {
        Some(PageSequence::Row)
    } else if s == "column"@ {
        Some(PageSequence::Column)
    } else {
        None
    }
}

/// Writes a [`PageSequence`] as attribute text.
pub fn serialize_page_sequence(v: &PageSequence) -> (r: &'static str)
    ensures
        r@ == spec_page_sequence_text(*v),
{
    match v {
        PageSequence::Row => "row",
        PageSequence::Column => "column",
    }
}

/// Reads a [`PageSequence`] from attribute text; any other text is refused.
pub fn parse_page_sequence(s: &str) -> (r: Result<PageSequence, DeserializeError>)
    ensures
        spec_page_sequence_from_text(s@) matches Some(v) ==> r == Ok::<PageSequence, DeserializeError>(v),
        spec_page_sequence_from_text(s@) is None ==> (r matches Err(e) && e.is_custom("Invalid page_sequence: "@ + s@)),
{
    if str_eq(s, "row") {
        Ok(PageSequence::Row)
    } else if str_eq(s, "column") {
        Ok(PageSequence::Column)
    } else {
        Err(DeserializeError::custom_with("Invalid page_sequence: ", s))
    }
}

/// Every [`PageSequence`] is read back from the text it is written as.
pub proof fn lemma_page_sequence_round_trip(v: PageSequence)
    ensures
        spec_page_sequence_from_text(spec_page_sequence_text(v)) == Some(v),
{
    reveal_strlit("row");
    reveal_strlit("column");
    assert("row"@.len() == 3);
    assert("column"@.len() == 6);
    match v {
        PageSequence::Row => {},
        PageSequence::Column => {},
    }
}

/// A text that is read as a [`PageSequence`] is exactly the text that value is written as.
pub proof fn lemma_page_sequence_text_canonical(s: Seq<char>)
    ensures
        spec_page_sequence_from_text(s) matches Some(v) ==> spec_page_sequence_text(v) == s,
{
}

/// The orientation of a printed page.
#[derive(Debug, Clone, Copy, PartialEq, Eq, Structural)]
pub enum PageOrientation {
    Landscape,
    Portrait,
}

/// The attribute text written for each [`PageOrientation`].
pub open spec fn spec_page_orientation_text(v: PageOrientation) -> Seq<char> {
    match v {
        PageOrientation::Landscape => "landscape"@,
        PageOrientation::Portrait => "portrait"@,
    }
}

/// The [`PageOrientation`] that an attribute text stands for, if any.
pub open spec fn spec_page_orientation_from_text(s: Seq<char>) -> Option<PageOrientation> {
    if s == "landscape"@ {
        Some(PageOrientation::Landscape)
    } else if s == "portrait"@ {
        Some(PageOrientation::Portrait)
    } else {
        None
    }
}

/// Writes a [`PageOrientation`] as attribute text.
pub fn serialize_page_orientation(v: &PageOrientation) -> (r: &'static str)
    ensures
        r@ == spec_page_orientation_text(*v),
{
    match v {
        PageOrientation::Landscape => "landscape",
        PageOrientation::Portrait => "portrait",
    }
}

/// Reads a [`PageOrientation`] from attribute text; any other text is refused.
pub fn parse_page_orientation(s: &str) -> (r: Result<PageOrientation, DeserializeError>)
    ensures
        spec_page_orientation_from_text(s@) matches Some(v) ==> r == Ok::<PageOrientation, DeserializeError>(v),
        spec_page_orientation_from_text(s@) is None ==> (r matches Err(e) && e.is_custom("Invalid page_orientation: "@ + s@)),
{
    if str_eq(s, "landscape") {
        Ok(PageOrientation::Landscape)
    } else if str_eq(s, "portrait") {
        Ok(PageOrientation::Portrait)
    } else {
        Err(DeserializeError::custom_with("Invalid page_orientation: ", s))
    }
}

/// Every [`PageOrientation`] is read back from the text it is written as.
pub proof fn lemma_page_orientation_round_trip(v: PageOrientation)
    ensures
        spec_page_orientation_from_text(spec_page_orientation_text(v)) == Some(v),
{
    reveal_strlit("landscape");
    reveal_strlit("portrait");
    assert("landscape"@.len() == 9);
    assert("portrait"@.len() == 8);
    match v {
        PageOrientation::Landscape => {},
        PageOrientation::Portrait => {},
    }
}

/// A text that is read as a [`PageOrientation`] is exactly the text that value is written as.
pub proof fn lemma_page_orientation_text_canonical(s: Seq<char>)
    ensures
        spec_page_orientation_from_text(s) matches Some(v) ==> spec_page_orientation_text(v) == s,
{
}

/// The style of a connector line.
#[derive(Debug, Clone, PartialEq, Eq)]
pub enum LineStyle {
    Solid,
    Dashed,
    /// Any other text, kept as written.
    VendorSpecific(String),
}

/// The attribute text written for each [`LineStyle`].
pub open spec fn spec_line_style_text(v: LineStyle) -> Seq<char> {
    match v {
        LineStyle::Solid => "solid"@,
        LineStyle::Dashed => "dashed"@,
        LineStyle::VendorSpecific(s) => s@,
    }
}

/// Reading the text `s` gives the line style `v`: the two named styles are recognized and
/// every other text is kept as a vendor-specific style.
pub open spec fn spec_line_style_reads_as(s: Seq<char>, v: LineStyle) -> bool {
    if s == "solid"@ {
        v == LineStyle::Solid
    } else if s == "dashed"@ {
        v == LineStyle::Dashed
    } else {
        v matches LineStyle::VendorSpecific(t) && t@ == s
    }
}

/// Writes a [`LineStyle`] as attribute text.
pub fn serialize_line_style(v: &LineStyle) -> (r: String)
    ensures
        r@ == spec_line_style_text(*v),
{
    match v {
        LineStyle::Solid => String::from_str("solid"),
        LineStyle::Dashed => String::from_str("dashed"),
        LineStyle::VendorSpecific(s) => s.clone(),
    }
}

/// Reads a [`LineStyle`] from attribute text; it never fails.
pub fn parse_line_style(s: &str) -> (r: Result<LineStyle, DeserializeError>)
    ensures
        r matches Ok(v) && spec_line_style_reads_as(s@, v),
{
    if str_eq(s, "solid") {
        Ok(LineStyle::Solid)
    } else if str_eq(s, "dashed") {
        Ok(LineStyle::Dashed)
    } else {
        Ok(LineStyle::VendorSpecific(String::from_str(s)))
    }
}

/// A line style is read back from its text, unless it is a vendor-specific style whose text
/// is one of the two named styles' texts (such a style is read as the named style).
pub proof fn lemma_line_style_round_trip(v: LineStyle)
    requires
        v matches LineStyle::VendorSpecific(t) ==> (t@ != "solid"@ && t@ != "dashed"@),
    ensures
        spec_line_style_reads_as(spec_line_style_text(v), v),
{
    reveal_strlit("solid");
    reveal_strlit("dashed");
    assert("solid"@.len() == 5);
    assert("dashed"@.len() == 6);
}

/// Whatever text is read as a line style is written back unchanged.
pub proof fn lemma_line_style_text_canonical(s: Seq<char>, v: LineStyle)
    requires
        spec_line_style_reads_as(s, v),
    ensures
        spec_line_style_text(v) == s,
{
}

/// A modelling tool vendor named in vendor-specific view types.
#[derive(Debug, Clone, Copy, PartialEq, Eq, Structural)]
pub enum Vendor {
    Anylogic,
    Forio,
    Insightmaker,
    Isee,
    Powersim,
    Simanticssd,
    Simile,
    Sysdea,
    Vensim,
    SimLab,
    Other,
}

/// The text written for each [`Vendor`].
pub open spec fn spec_vendor_text(v: Vendor) -> Seq<char> {
    match v {
        Vendor::Anylogic => "anylogic"@,
        Vendor::Forio => "forio"@,
        Vendor::Insightmaker => "insightmaker"@,
        Vendor::Isee => "isee"@,
        Vendor::Powersim => "powersim"@,
        Vendor::Simanticssd => "simanticssd"@,
        Vendor::Simile => "simile"@,
        Vendor::Sysdea => "sysdea"@,
        Vendor::Vensim => "vensim"@,
        Vendor::SimLab => "simlab"@,
        Vendor::Other => "other"@,
    }
}

/// The vendor that a lowercased vendor text names; unknown texts name [`Vendor::Other`].
pub open spec fn spec_vendor_from_lowercase(s: Seq<char>) -> Vendor {
    if s == "anylogic"@ {
        Vendor::Anylogic
    } else if s == "forio"@ {
        Vendor::Forio
    } else if s == "insightmaker"@ {
        Vendor::Insightmaker
    } else if s == "isee"@ {
        Vendor::Isee
    } else if s == "powersim"@ {
        Vendor::Powersim
    } else if s == "simanticssd"@ {
        Vendor::Simanticssd
    } else if s == "simile"@ {
        Vendor::Simile
    } else if s == "sysdea"@ {
        Vendor::Sysdea
    } else if s == "vensim"@ {
        Vendor::Vensim
    } else if s == "simlab"@ {
        Vendor::SimLab
    } else {
        Vendor::Other
    }
}

/// Writes a [`Vendor`] as text.
pub fn serialize_vendor(v: &Vendor) -> (r: &'static str)
    ensures
        r@ == spec_vendor_text(*v),
{
    match v {
        Vendor::Anylogic => "anylogic",
        Vendor::Forio => "forio",
        Vendor::Insightmaker => "insightmaker",
        Vendor::Isee => "isee",
        Vendor::Powersim => "powersim",
        Vendor::Simanticssd => "simanticssd",
        Vendor::Simile => "simile",
        Vendor::Sysdea => "sysdea",
        Vendor::Vensim => "vensim",
        Vendor::SimLab => "simlab",
        Vendor::Other => "other",
    }
}

/// Names the vendor of an already lowercased vendor text.
pub fn vendor_from_lowercase(s: &str) -> (r: Vendor)
    ensures
        r == spec_vendor_from_lowercase(s@),
{
    if str_eq(s, "anylogic") {
        Vendor::Anylogic
    } else if str_eq(s, "forio") {
        Vendor::Forio
    } else if str_eq(s, "insightmaker") {
        Vendor::Insightmaker
    } else if str_eq(s, "isee") {
        Vendor::Isee
    } else if str_eq(s, "powersim") {
        Vendor::Powersim
    } else if str_eq(s, "simanticssd") {
        Vendor::Simanticssd
    } else if str_eq(s, "simile") {
        Vendor::Simile
    } else if str_eq(s, "sysdea") {
        Vendor::Sysdea
    } else if str_eq(s, "vensim") {
        Vendor::Vensim
    } else if str_eq(s, "simlab") {
        Vendor::SimLab
    } else {
        Vendor::Other
    }
}

/// Each vendor's text is a lowercase word without `:`, and it names that vendor again.
pub proof fn lemma_vendor_text(v: Vendor)
    ensures
        is_lowercase_ascii_word(spec_vendor_text(v)),
        spec_vendor_from_lowercase(spec_vendor_text(v)) == v,
{
    reveal_strlit("anylogic");
    reveal_strlit("forio");
    reveal_strlit("insightmaker");
    reveal_strlit("isee");
    reveal_strlit("powersim");
    reveal_strlit("simanticssd");
    reveal_strlit("simile");
    reveal_strlit("sysdea");
    reveal_strlit("vensim");
    reveal_strlit("simlab");
    reveal_strlit("other");
    assert("anylogic"@.len() == 8);
    assert("forio"@.len() == 5);
    assert("insightmaker"@.len() == 12);
    assert("isee"@.len() == 4);
    assert("powersim"@.len() == 8);
    assert("simanticssd"@.len() == 11);
    assert("simile"@.len() == 6);
    assert("sysdea"@.len() == 6);
    assert("vensim"@.len() == 6);
    assert("simlab"@.len() == 6);
    assert("other"@.len() == 5);
    lemma_texts_differ_at("anylogic"@, "powersim"@, 0);
    lemma_texts_differ_at("forio"@, "other"@, 0);
    lemma_texts_differ_at("simile"@, "sysdea"@, 1);
    lemma_texts_differ_at("simile"@, "vensim"@, 0);
    lemma_texts_differ_at("simile"@, "simlab"@, 3);
    lemma_texts_differ_at("sysdea"@, "vensim"@, 0);
    lemma_texts_differ_at("sysdea"@, "simlab"@, 1);
    lemma_texts_differ_at("vensim"@, "simlab"@, 0);
    match v {
        Vendor::Anylogic => {
            assert(is_lowercase_ascii_word("anylogic"@));
        },
        Vendor::Forio => {
            assert(is_lowercase_ascii_word("forio"@));
        },
        Vendor::Insightmaker => {
            assert(is_lowercase_ascii_word("insightmaker"@));
        },
        Vendor::Isee => {
            assert(is_lowercase_ascii_word("isee"@));
        },
        Vendor::Powersim => {
            assert(is_lowercase_ascii_word("powersim"@));
        },
        Vendor::Simanticssd => {
            assert(is_lowercase_ascii_word("simanticssd"@));
        },
        Vendor::Simile => {
            assert(is_lowercase_ascii_word("simile"@));
        },
        Vendor::Sysdea => {
            assert(is_lowercase_ascii_word("sysdea"@));
        },
        Vendor::Vensim => {
            assert(is_lowercase_ascii_word("vensim"@));
        },
        Vendor::SimLab => {
            assert(is_lowercase_ascii_word("simlab"@));
        },
        Vendor::Other => {
            assert(is_lowercase_ascii_word("other"@));
        },
    }
}

/// The kind of a view.
#[derive(Debug, Clone, PartialEq, Eq)]
pub enum ViewType {
    StockFlow,
    Interface,
    Popup,
    /// A vendor's own view type, written `vendor:type`.
    VendorSpecific(Vendor, String),
}

/// The `type` attribute text written for each [`ViewType`].
pub open spec fn spec_view_type_text(v: ViewType) -> Seq<char> {
    match v {
        ViewType::StockFlow => "stock_flow"@,
        ViewType::Interface => "interface"@,
        ViewType::Popup => "popup"@,
        ViewType::VendorSpecific(vendor, t) => spec_vendor_text(vendor) + ":"@ + t@,
    }
}

/// The text is one of the three standard view type texts.
pub open spec fn spec_is_standard_view_type_text(s: Seq<char>) -> bool {
    s == "stock_flow"@ || s == "interface"@ || s == "popup"@
}

/// Reading the text `s` gives the view type `v`: the standard texts name the standard types;
/// otherwise the text up to the first `:` names a vendor (compared after lowercasing) and the
/// text after it is the vendor's own type.
pub open spec fn spec_view_type_reads_as(s: Seq<char>, v: ViewType) -> bool {
    if s == "stock_flow"@ {
        v == ViewType::StockFlow
    } else if s == "interface"@ {
        v == ViewType::Interface
    } else if s == "popup"@ {
        v == ViewType::Popup
    } else {
        exists|p: int|
            #![trigger is_first_index_of(s, ':', p)]
            is_first_index_of(s, ':', p) && (v matches ViewType::VendorSpecific(vendor, t)
                && vendor == spec_vendor_from_lowercase(spec_lowercase(s.subrange(0, p)))
                && t@ == s.subrange(p + 1, s.len() as int))
    }
}

/// Writes a [`ViewType`] as the text of a view's `type` attribute.
pub fn serialize_view_type(v: &ViewType) -> (r: String)
    ensures
        r@ == spec_view_type_text(*v),
{
    match v {
        ViewType::StockFlow => String::from_str("stock_flow"),
        ViewType::Interface => String::from_str("interface"),
        ViewType::Popup => String::from_str("popup"),
        ViewType::VendorSpecific(vendor, t) => {
            let mut r = String::from_str(serialize_vendor(vendor));
            r.append(":");
            r.append(t.as_str());
            r
        },
    }
}

/// Reads a [`ViewType`]; a text that is neither standard nor holds a `:` is refused.
pub fn parse_view_type(s: &str) -> (r: Result<ViewType, DeserializeError>)
    ensures
        r matches Ok(v) ==> spec_view_type_reads_as(s@, v),
        r is Err <==> (!spec_is_standard_view_type_text(s@) && !s@.contains(':')),
        r matches Err(e) ==> e.is_custom("Invalid view type: "@ + s@),
{
    if str_eq(s, "stock_flow") {
        Ok(ViewType::StockFlow)
    } else if str_eq(s, "interface") {
        Ok(ViewType::Interface)
    } else if str_eq(s, "popup") {
        Ok(ViewType::Popup)
    } else {
        match find_char(s, ':') {
            Some(p) => {
                let n = s.unicode_len();
                let vendor_text = s.substring_char(0, p);
                let type_text = s.substring_char(p + 1, n);
                let lowered = to_lowercase(vendor_text);
                let vendor = vendor_from_lowercase(lowered.as_str());
                let v = ViewType::VendorSpecific(vendor, String::from_str(type_text));
                assert(is_first_index_of(s@, ':', p as int));
                Ok(v)
            },
            None => Err(DeserializeError::custom_with("Invalid view type: ", s)),
        }
    }
}

/// Every view type is read back from the text it is written as.
pub proof fn lemma_view_type_round_trip(v: ViewType)
    ensures
        spec_view_type_reads_as(spec_view_type_text(v), v),
{
    reveal_strlit("stock_flow");
    reveal_strlit("interface");
    reveal_strlit("popup");
    reveal_strlit(":");
    assert("stock_flow"@.len() == 10);
    assert("interface"@.len() == 9);
    assert("popup"@.len() == 5);
    assert(":"@.len() == 1);
    match v {
        ViewType::VendorSpecific(vendor, t) => {
            let s = spec_view_type_text(v);
            let name = spec_vendor_text(vendor);
            let p = name.len() as int;
            lemma_vendor_text(vendor);
            lemma_lowercase_word(name);
            assert(s[p] == ':');
            assert forall|j: int| 0 <= j < p implies s[j] != ':' by {
                assert(s[j] == name[j]);
            }
            assert(is_first_index_of(s, ':', p));
            assert(s.subrange(0, p) =~= name);
            assert(s.subrange(p + 1, s.len() as int) =~= t@);
            assert(!spec_is_standard_view_type_text(s)) by {
                assert("stock_flow"@[5] != ':');
                if s == "stock_flow"@ || s == "interface"@ || s == "popup"@ {
                    assert(!s.contains(':')) by {
                        reveal_strlit("stock_flow");
                    }
                    assert(s.contains(':')) by {
                        assert(s[p] == ':');
                    }
                }
            }
        },
        _ => {},
    }
}

/// Whether a model variable is an input to or an output of its module.
#[derive(Debug, Clone, Copy, PartialEq, Eq, Structural)]
pub enum AccessType {
    Input,
    Output,
}

/// The attribute text written for each [`AccessType`].
pub open spec fn spec_access_type_text(v: AccessType) -> Seq<char> {
    match v {
        AccessType::Input => "input"@,
        AccessType::Output => "output"@,
    }
}

/// The [`AccessType`] that an attribute text stands for, if any.
pub open spec fn spec_access_type_from_text(s: Seq<char>) -> Option<AccessType> {
    if s == "input"@ {
        Some(AccessType::Input)
    } else if s == "output"@ {
        Some(AccessType::Output)
    } else {
        None
    }
}

/// Writes a [`AccessType`] as attribute text.
pub fn serialize_access_type(v: &AccessType) -> (r: &'static str)
    ensures
        r@ == spec_access_type_text(*v),
{
    match v {
        AccessType::Input => "input",
        AccessType::Output => "output",
    }
}

/// Reads a [`AccessType`] from attribute text; any other text is refused.
pub fn parse_access_type(s: &str) -> (r: Result<AccessType, DeserializeError>)
    ensures
        spec_access_type_from_text(s@) matches Some(v) ==> r == Ok::<AccessType, DeserializeError>(v),
        spec_access_type_from_text(s@) is None ==> (r matches Err(e) && e.is_custom("Invalid access type: "@ + s@)),
{
    if str_eq(s, "input") {
        Ok(AccessType::Input)
    } else if str_eq(s, "output") {
        Ok(AccessType::Output)
    } else {
        Err(DeserializeError::custom_with("Invalid access type: ", s))
    }
}

/// Every [`AccessType`] is read back from the text it is written as.
pub proof fn lemma_access_type_round_trip(v: AccessType)
    ensures
        spec_access_type_from_text(spec_access_type_text(v)) == Some(v),
{
    reveal_strlit("input");
    reveal_strlit("output");
    assert("input"@.len() == 5);
    assert("output"@.len() == 6);
    match v {
        AccessType::Input => {},
        AccessType::Output => {},
    }
}

/// A text that is read as a [`AccessType`] is exactly the text that value is written as.
pub proof fn lemma_access_type_text_canonical(s: Seq<char>)
    ensures
        spec_access_type_from_text(s) matches Some(v) ==> spec_access_type_text(v) == s,
{
}

/// How a numeric display formats its value.
#[derive(Debug, Clone, Copy, PartialEq, Eq, Structural)]
pub enum DisplayAs {
    Number,
    Currency,
    Percent,
}

/// The attribute text written for each [`DisplayAs`].
pub open spec fn spec_display_as_text(v: DisplayAs) -> Seq<char> {
    match v {
        DisplayAs::Number => "number"@,
        DisplayAs::Currency => "currency"@,
        DisplayAs::Percent => "percent"@,
    }
}

/// The [`DisplayAs`] that an attribute text stands for, if any.
pub open spec fn spec_display_as_from_text(s: Seq<char>) -> Option<DisplayAs> {
    if s == "number"@ {
        Some(DisplayAs::Number)
    } else if s == "currency"@ {
        Some(DisplayAs::Currency)
    } else if s == "percent"@ {
        Some(DisplayAs::Percent)
    } else {
        None
    }
}

/// Writes a [`DisplayAs`] as attribute text.
pub fn serialize_display_as(v: &DisplayAs) -> (r: &'static str)
    ensures
        r@ == spec_display_as_text(*v),
{
    match v {
        DisplayAs::Number => "number",
        DisplayAs::Currency => "currency",
        DisplayAs::Percent => "percent",
    }
}

/// Reads a [`DisplayAs`] from attribute text; any other text is refused.
pub fn parse_display_as(s: &str) -> (r: Result<DisplayAs, DeserializeError>)
    ensures
        spec_display_as_from_text(s@) matches Some(v) ==> r == Ok::<DisplayAs, DeserializeError>(v),
        spec_display_as_from_text(s@) is None ==> (r matches Err(e) && e.is_custom("Invalid display_as: "@ + s@)),
{
    if str_eq(s, "number") {
        Ok(DisplayAs::Number)
    } else if str_eq(s, "currency") {
        Ok(DisplayAs::Currency)
    } else if str_eq(s, "percent") {
        Ok(DisplayAs::Percent)
    } else {
        Err(DeserializeError::custom_with("Invalid display_as: ", s))
    }
}

/// Every [`DisplayAs`] is read back from the text it is written as.
pub proof fn lemma_display_as_round_trip(v: DisplayAs)
    ensures
        spec_display_as_from_text(spec_display_as_text(v)) == Some(v),
{
    reveal_strlit("number");
    reveal_strlit("currency");
    reveal_strlit("percent");
    assert("number"@.len() == 6);
    assert("currency"@.len() == 8);
    assert("percent"@.len() == 7);
    match v {
        DisplayAs::Number => {},
        DisplayAs::Currency => {},
        DisplayAs::Percent => {},
    }
}

/// A text that is read as a [`DisplayAs`] is exactly the text that value is written as.
pub proof fn lemma_display_as_text_canonical(s: Seq<char>)
    ensures
        spec_display_as_from_text(s) matches Some(v) ==> spec_display_as_text(v) == s,
{
}

/// How a graphical function reads between and beyond its points.
#[derive(Debug, Clone, Copy, PartialEq, Eq, Structural)]
pub enum GraphicalFunctionType {
    Continuous,
    Extrapolate,
    Discrete,
}

/// The attribute text written for each [`GraphicalFunctionType`].
pub open spec fn spec_gf_type_text(v: GraphicalFunctionType) -> Seq<char> {
    match v {
        GraphicalFunctionType::Continuous => "continuous"@,
        GraphicalFunctionType::Extrapolate => "extrapolate"@,
        GraphicalFunctionType::Discrete => "discrete"@,
    }
}

/// Writes a [`GraphicalFunctionType`] as attribute text.
pub fn serialize_gf_type(v: &GraphicalFunctionType) -> (r: &'static str)
    ensures
        r@ == spec_gf_type_text(*v),
{
    match v {
        GraphicalFunctionType::Continuous => "continuous",
        GraphicalFunctionType::Extrapolate => "extrapolate",
        GraphicalFunctionType::Discrete => "discrete",
    }
}


/// Where a navigation link leads.
#[derive(Debug, Clone, PartialEq, Eq)]
pub enum LinkTarget {
    /// A view, given by its type and order.
    TargetView { view_type: String, order: String },
    /// A page of a view.
    Page { view_type: String, order: String, page: String },
    NextPage,
    PreviousPage,
    HomePage,
    NextView,
    PreviousView,
    HomeView,
    BackPage,
    BackView,
    /// A web address.
    Url(String),
}

/// A link target as plain values.
pub enum LinkTargetSpec {
    TargetView(Seq<char>, Seq<char>),
    Page(Seq<char>, Seq<char>, Seq<char>),
    NextPage,
    PreviousPage,
    HomePage,
    NextView,
    PreviousView,
    HomeView,
    BackPage,
    BackView,
    Url(Seq<char>),
}

impl View for LinkTarget {
    type V = LinkTargetSpec;

    open spec fn view(&self) -> LinkTargetSpec {
        match self {
            LinkTarget::TargetView { view_type, order } => LinkTargetSpec::TargetView(view_type@, order@),
            LinkTarget::Page { view_type, order, page } => LinkTargetSpec::Page(view_type@, order@, page@),
            LinkTarget::NextPage => LinkTargetSpec::NextPage,
            LinkTarget::PreviousPage => LinkTargetSpec::PreviousPage,
            LinkTarget::HomePage => LinkTargetSpec::HomePage,
            LinkTarget::NextView => LinkTargetSpec::NextView,
            LinkTarget::PreviousView => LinkTargetSpec::PreviousView,
            LinkTarget::HomeView => LinkTargetSpec::HomeView,
            LinkTarget::BackPage => LinkTargetSpec::BackPage,
            LinkTarget::BackView => LinkTargetSpec::BackView,
            LinkTarget::Url(u) => LinkTargetSpec::Url(u@),
        }
    }
}

/// The attributes a link target is written as, in order.
pub open spec fn spec_link_target_attrs(t: LinkTargetSpec) -> Seq<(Seq<char>, Seq<char>)> {
    match t {
        LinkTargetSpec::TargetView(vt, o) => seq![("target"@, "view"@), ("view_type"@, vt), ("order"@, o)],
        LinkTargetSpec::Page(vt, o, p) => seq![("target"@, "page"@), ("view_type"@, vt), ("order"@, o), ("page"@, p)],
        LinkTargetSpec::NextPage => seq![("target"@, "next_page"@)],
        LinkTargetSpec::PreviousPage => seq![("target"@, "previous_page"@)],
        LinkTargetSpec::HomePage => seq![("target"@, "home_page"@)],
        LinkTargetSpec::NextView => seq![("target"@, "next_view"@)],
        LinkTargetSpec::PreviousView => seq![("target"@, "previous_view"@)],
        LinkTargetSpec::HomeView => seq![("target"@, "home_view"@)],
        LinkTargetSpec::BackPage => seq![("target"@, "back_page"@)],
        LinkTargetSpec::BackView => seq![("target"@, "back_view"@)],
        LinkTargetSpec::Url(u) => seq![("target"@, "url"@), ("url"@, u)],
    }
}

/// The link target that attributes describe, or the name of the first attribute that is
/// missing for it (`target` itself when it is absent or names no known target).
pub open spec fn spec_parse_link_target(m: Map<Seq<char>, Seq<char>>) -> Result<LinkTargetSpec, Seq<char>> {
    let target = spec_get(m, "target"@);
    let view_type = spec_get(m, "view_type"@);
    let order = spec_get(m, "order"@);
    if target == Some("view"@) {
        if view_type is None {
            Err("view_type"@)
        } else if order is None {
            Err("order"@)
        } else {
            Ok(LinkTargetSpec::TargetView(view_type->0, order->0))
        }
    } else if target == Some("page"@) {
        if view_type is None {
            Err("view_type"@)
        } else if order is None {
            Err("order"@)
        } else if !m.contains_key("page"@) {
            Err("page"@)
        } else {
            Ok(LinkTargetSpec::Page(view_type->0, order->0, m["page"@]))
        }
    } else if target == Some("next_page"@) {
        Ok(LinkTargetSpec::NextPage)
    } else if target == Some("previous_page"@) {
        Ok(LinkTargetSpec::PreviousPage)
    } else if target == Some("home_page"@) {
        Ok(LinkTargetSpec::HomePage)
    } else if target == Some("next_view"@) {
        Ok(LinkTargetSpec::NextView)
    } else if target == Some("previous_view"@) {
        Ok(LinkTargetSpec::PreviousView)
    } else if target == Some("home_view"@) {
        Ok(LinkTargetSpec::HomeView)
    } else if target == Some("back_page"@) {
        Ok(LinkTargetSpec::BackPage)
    } else if target == Some("back_view"@) {
        Ok(LinkTargetSpec::BackView)
    } else if target == Some("url"@) {
        if !m.contains_key("url"@) {
            Err("url"@)
        } else {
            Ok(LinkTargetSpec::Url(m["url"@]))
        }
    } else {
        Err("target"@)
    }
}

/// One attribute pair.
fn attr_pair(key: &str, value: &str) -> (r: (String, String))
    ensures
        r.0@ == key@,
        r.1@ == value@,
{
    (String::from_str(key), String::from_str(value))
}

/// Writes a link target as its attributes.
pub fn serialize_link_target_attributes(target: &LinkTarget) -> (r: Vec<(String, String)>)
    ensures
        spec_pairs_text(r@) == spec_link_target_attrs(target@),
{
    let mut r: Vec<(String, String)> = Vec::new();
    match target {
        LinkTarget::TargetView { view_type, order } => {
            r.push(attr_pair("target", "view"));
            r.push(attr_pair("view_type", view_type.as_str()));
            r.push(attr_pair("order", order.as_str()));
        },
        LinkTarget::Page { view_type, order, page } => {
            r.push(attr_pair("target", "page"));
            r.push(attr_pair("view_type", view_type.as_str()));
            r.push(attr_pair("order", order.as_str()));
            r.push(attr_pair("page", page.as_str()));
        },
        LinkTarget::NextPage => {
            r.push(attr_pair("target", "next_page"));
        },
        LinkTarget::PreviousPage => {
            r.push(attr_pair("target", "previous_page"));
        },
        LinkTarget::HomePage => {
            r.push(attr_pair("target", "home_page"));
        },
        LinkTarget::NextView => {
            r.push(attr_pair("target", "next_view"));
        },
        LinkTarget::PreviousView => {
            r.push(attr_pair("target", "previous_view"));
        },
        LinkTarget::HomeView => {
            r.push(attr_pair("target", "home_view"));
        },
        LinkTarget::BackPage => {
            r.push(attr_pair("target", "back_page"));
        },
        LinkTarget::BackView => {
            r.push(attr_pair("target", "back_view"));
        },
        LinkTarget::Url(u) => {
            r.push(attr_pair("target", "url"));
            r.push(attr_pair("url", u.as_str()));
        },
    }
    proof {
        assert(spec_pairs_text(r@) =~= spec_link_target_attrs(target@));
    }
    r
}

/// Reads a link target from the attributes of a `link` element.
pub fn parse_link_target(attrs: &Attrs) -> (r: Result<LinkTarget, DeserializeError>)
    ensures
        match spec_parse_link_target(attrs@) {
            Ok(t) => r matches Ok(v) && v@ == t,
            Err(f) => r matches Err(e) && e.is_missing_field(f),
        },
{
    let target = attrs.get_opt("target");
    let view_type = attrs.get_opt_string("view_type");
    let order = attrs.get_opt_string("order");
    let t = match target {
        Some(t) => t,
        None => {
            return Err(DeserializeError::MissingField(String::from_str("target")));
        },
    };
    if str_eq(t, "view") {
        match (view_type, order) {
            (None, _) => Err(DeserializeError::MissingField(String::from_str("view_type"))),
            (_, None) => Err(DeserializeError::MissingField(String::from_str("order"))),
            (Some(vt), Some(o)) => Ok(LinkTarget::TargetView { view_type: vt, order: o }),
        }
    } else if str_eq(t, "page") {
        match (view_type, order, attrs.get_opt_string("page")) {
            (None, _, _) => Err(DeserializeError::MissingField(String::from_str("view_type"))),
            (_, None, _) => Err(DeserializeError::MissingField(String::from_str("order"))),
            (_, _, None) => Err(DeserializeError::MissingField(String::from_str("page"))),
            (Some(vt), Some(o), Some(p)) => Ok(LinkTarget::Page { view_type: vt, order: o, page: p }),
        }
    } else if str_eq(t, "next_page") {
        Ok(LinkTarget::NextPage)
    } else if str_eq(t, "previous_page") {
        Ok(LinkTarget::PreviousPage)
    } else if str_eq(t, "home_page") {
        Ok(LinkTarget::HomePage)
    } else if str_eq(t, "next_view") {
        Ok(LinkTarget::NextView)
    } else if str_eq(t, "previous_view") {
        Ok(LinkTarget::PreviousView)
    } else if str_eq(t, "home_view") {
        Ok(LinkTarget::HomeView)
    } else if str_eq(t, "back_page") {
        Ok(LinkTarget::BackPage)
    } else if str_eq(t, "back_view") {
        Ok(LinkTarget::BackView)
    } else if str_eq(t, "url") {
        match attrs.get_opt_string("url") {
            Some(u) => Ok(LinkTarget::Url(u)),
            None => Err(DeserializeError::MissingField(String::from_str("url"))),
        }
    } else {
        Err(DeserializeError::MissingField(String::from_str("target")))
    }
}

/// Every link target is read back from the attributes it is written as.
pub proof fn lemma_link_target_round_trip(t: LinkTargetSpec)
    ensures
        spec_parse_link_target(pairs_map(spec_link_target_attrs(t))) == Ok::<LinkTargetSpec, Seq<char>>(t),
{
    reveal_strlit("target");
    reveal_strlit("view_type");
    reveal_strlit("order");
    reveal_strlit("page");
    reveal_strlit("url");
    reveal_strlit("view");
    reveal_strlit("next_page");
    reveal_strlit("previous_page");
    reveal_strlit("home_page");
    reveal_strlit("next_view");
    reveal_strlit("previous_view");
    reveal_strlit("home_view");
    reveal_strlit("back_page");
    reveal_strlit("back_view");
    assert("target"@.len() == 6);
    assert("view_type"@.len() == 9);
    assert("order"@.len() == 5);
    assert("page"@.len() == 4);
    assert("url"@.len() == 3);
    assert("view"@.len() == 4);
    assert("next_page"@.len() == 9);
    assert("previous_page"@.len() == 13);
    assert("home_page"@.len() == 9);
    assert("next_view"@.len() == 9);
    assert("previous_view"@.len() == 13);
    assert("home_view"@.len() == 9);
    assert("back_page"@.len() == 9);
    assert("back_view"@.len() == 9);
    lemma_texts_differ_at("view"@, "page"@, 0);
    lemma_texts_differ_at("next_page"@, "home_page"@, 0);
    lemma_texts_differ_at("next_page"@, "next_view"@, 5);
    lemma_texts_differ_at("next_page"@, "home_view"@, 0);
    lemma_texts_differ_at("next_page"@, "back_page"@, 0);
    lemma_texts_differ_at("next_page"@, "back_view"@, 0);
    lemma_texts_differ_at("previous_page"@, "previous_view"@, 9);
    lemma_texts_differ_at("home_page"@, "next_view"@, 0);
    lemma_texts_differ_at("home_page"@, "home_view"@, 5);
    lemma_texts_differ_at("home_page"@, "back_page"@, 0);
    lemma_texts_differ_at("home_page"@, "back_view"@, 0);
    lemma_texts_differ_at("next_view"@, "home_view"@, 0);
    lemma_texts_differ_at("next_view"@, "back_page"@, 0);
    lemma_texts_differ_at("next_view"@, "back_view"@, 0);
    lemma_texts_differ_at("home_view"@, "back_page"@, 0);
    lemma_texts_differ_at("home_view"@, "back_view"@, 0);
    lemma_texts_differ_at("back_page"@, "back_view"@, 5);
    let m = pairs_map(spec_link_target_attrs(t));
    reveal_with_fuel(pairs_map, 5);
    match t {
        LinkTargetSpec::TargetView(vt, o) => {
            assert(m =~= Map::<Seq<char>, Seq<char>>::empty().insert("target"@, "view"@).insert("view_type"@, vt).insert("order"@, o));
        },
        LinkTargetSpec::Page(vt, o, p) => {
            assert(m =~= Map::<Seq<char>, Seq<char>>::empty().insert("target"@, "page"@).insert("view_type"@, vt).insert("order"@, o).insert("page"@, p));
        },
        LinkTargetSpec::Url(u) => {
            assert(m =~= Map::<Seq<char>, Seq<char>>::empty().insert("target"@, "url"@).insert("url"@, u));
        },
        _ => {
            assert(m =~= Map::<Seq<char>, Seq<char>>::empty().insert("target"@, spec_link_target_attrs(t)[0].1));
        },
    }
}

/// One end of a connector: another display object by its alias UID, or a variable by name.
#[derive(Debug, Clone, PartialEq, Eq)]
pub enum Pointer {
    Alias(Uid),
    Name(String),
}

/// The events an end of a connector is written as: an empty `alias` element with its UID,
/// or the name as text.
pub open spec fn spec_pointer_events(p: Pointer) -> Seq<EventView> {
    match p {
        Pointer::Alias(uid) => seq![tag(EventKind::Empty, "alias"@, seq![("uid"@, spec_int_text(uid.value as int))])],
        Pointer::Name(n) => seq![tag(EventKind::Text, n@, Seq::empty())],
    }
}

/// Writes one end of a connector.
pub fn serialize_pointer(emitter: &mut XmlEmitter, pointer: &Pointer)
    ensures
        final(emitter)@ == old(emitter)@ + spec_pointer_events(*pointer),
{
    match pointer {
        Pointer::Alias(uid) => {
            let mut attrs = AttrList::new();
            attrs.add_i32("uid", uid.value);
            emitter.empty_elem_with_attrs("alias", &attrs);
        },
        Pointer::Name(name) => {
            emitter.text(name.as_str());
        },
    }
    proof {
        assert(emitter@ =~= old(emitter)@ + spec_pointer_events(*pointer));
    }
}

/// Reads the end of a connector given by an `alias` element: its `uid` is required.
pub fn parse_alias_pointer(attrs: &Attrs) -> (r: Result<Pointer, DeserializeError>)
    ensures
        !attrs@.contains_key("uid"@) ==> (r matches Err(e) && e.is_missing_field("uid"@)),
        attrs@.contains_key("uid"@) ==> match spec_parse_int(attrs@["uid"@], true, i32::MIN as int, i32::MAX as int) {
            Ok(v) => r matches Ok(Pointer::Alias(u)) && u.value == v,
            Err(e) => r matches Err(err) && err.is_custom(
                spec_invalid_value_message(attrs.spec_element_name(), "uid"@, e, attrs@["uid"@]),
            ),
        },
{
    match attrs.get_opt_i32("uid") {
        Ok(Some(v)) => Ok(Pointer::Alias(Uid::new(v))),
        Ok(None) => Err(DeserializeError::MissingField(String::from_str("uid"))),
        Err(e) => Err(e),
    }
}

/// An alias end of a connector is read back from the attributes it is written with.
pub proof fn lemma_alias_pointer_round_trip(element: Seq<char>, uid: i32)
    ensures
        ({
            let m = pairs_map(seq![("uid"@, spec_int_text(uid as int))]);
            &&& m.contains_key("uid"@)
            &&& spec_parse_int(m["uid"@], true, i32::MIN as int, i32::MAX as int) == Ok::<int, IntParseError>(uid as int)
        }),
{
    lemma_i32_attribute_round_trip(element, Seq::empty(), "uid"@, uid);
    assert(Seq::<(Seq<char>, Seq<char>)>::empty().push(("uid"@, spec_int_text(uid as int))) =~= seq![("uid"@, spec_int_text(uid as int))]);
}

/// The text each [`Polarity`] is written as, and the value each of those texts is read as.
pub proof fn lemma_polarity_texts()
    ensures
        spec_polarity_text(Polarity::Positive) == "+"@,
        spec_polarity_from_text("+"@) == Some(Polarity::Positive),
        spec_polarity_text(Polarity::Negative) == "-"@,
        spec_polarity_from_text("-"@) == Some(Polarity::Negative),
        spec_polarity_text(Polarity::NoPolarity) == "none"@,
        spec_polarity_from_text("none"@) == Some(Polarity::NoPolarity),
{
    lemma_polarity_round_trip(Polarity::Positive);
    lemma_polarity_round_trip(Polarity::Negative);
    lemma_polarity_round_trip(Polarity::NoPolarity);
}

/// The text each [`SwitchStyle`] is written as, and the value each of those texts is read as.
pub proof fn lemma_switch_style_texts()
    ensures
        spec_switch_style_text(SwitchStyle::Toggle) == "toggle"@,
        spec_switch_style_from_text("toggle"@) == Some(SwitchStyle::Toggle),
        spec_switch_style_text(SwitchStyle::PushButton) == "push_button"@,
        spec_switch_style_from_text("push_button"@) == Some(SwitchStyle::PushButton),
{
    lemma_switch_style_round_trip(SwitchStyle::Toggle);
    lemma_switch_style_round_trip(SwitchStyle::PushButton);
}

/// The text each [`OptionsLayout`] is written as, and the value each of those texts is read as.
pub proof fn lemma_options_layout_texts()
    ensures
        spec_options_layout_text(OptionsLayout::Vertical) == "vertical"@,
        spec_options_layout_from_text("vertical"@) == Some(OptionsLayout::Vertical),
        spec_options_layout_text(OptionsLayout::Horizontal) == "horizontal"@,
        spec_options_layout_from_text("horizontal"@) == Some(OptionsLayout::Horizontal),
        spec_options_layout_text(OptionsLayout::Grid) == "grid"@,
        spec_options_layout_from_text("grid"@) == Some(OptionsLayout::Grid),
{
    lemma_options_layout_round_trip(OptionsLayout::Vertical);
    lemma_options_layout_round_trip(OptionsLayout::Horizontal);
    lemma_options_layout_round_trip(OptionsLayout::Grid);
}

/// The text each [`ZoneType`] is written as, and the value each of those texts is read as.
pub proof fn lemma_zone_type_texts()
    ensures
        spec_zone_type_text(ZoneType::Normal) == "normal"@,
        spec_zone_type_from_text("normal"@) == Some(ZoneType::Normal),
        spec_zone_type_text(ZoneType::Caution) == "caution"@,
        spec_zone_type_from_text("caution"@) == Some(ZoneType::Caution),
        spec_zone_type_text(ZoneType::Panic) == "panic"@,
        spec_zone_type_from_text("panic"@) == Some(ZoneType::Panic),
{
    lemma_zone_type_round_trip(ZoneType::Normal);
    lemma_zone_type_round_trip(ZoneType::Caution);
    lemma_zone_type_round_trip(ZoneType::Panic);
}

/// The text each [`GraphType`] is written as, and the value each of those texts is read as.
pub proof fn lemma_graph_type_texts()
    ensures
        spec_graph_type_text(GraphType::TimeSeries) == "time_series"@,
        spec_graph_type_from_text("time_series"@) == Some(GraphType::TimeSeries),
        spec_graph_type_text(GraphType::Scatter) == "scatter"@,
        spec_graph_type_from_text("scatter"@) == Some(GraphType::Scatter),
        spec_graph_type_text(GraphType::Bar) == "bar"@,
        spec_graph_type_from_text("bar"@) == Some(GraphType::Bar),
{
    lemma_graph_type_round_trip(GraphType::TimeSeries);
    lemma_graph_type_round_trip(GraphType::Scatter);
    lemma_graph_type_round_trip(GraphType::Bar);
}

/// The text each [`PenStyle`] is written as, and the value each of those texts is read as.
pub proof fn lemma_pen_style_texts()
    ensures
        spec_pen_style_text(PenStyle::Solid) == "solid"@,
        spec_pen_style_from_text("solid"@) == Some(PenStyle::Solid),
        spec_pen_style_text(PenStyle::Dotted) == "dotted"@,
        spec_pen_style_from_text("dotted"@) == Some(PenStyle::Dotted),
        spec_pen_style_text(PenStyle::Dashed) == "dashed"@,
        spec_pen_style_from_text("dashed"@) == Some(PenStyle::Dashed),
        spec_pen_style_text(PenStyle::DotDashed) == "dot_dashed"@,
        spec_pen_style_from_text("dot_dashed"@) == Some(PenStyle::DotDashed),
{
    lemma_pen_style_round_trip(PenStyle::Solid);
    lemma_pen_style_round_trip(PenStyle::Dotted);
    lemma_pen_style_round_trip(PenStyle::Dashed);
    lemma_pen_style_round_trip(PenStyle::DotDashed);
}

/// The text each [`TableItemType`] is written as, and the value each of those texts is read as.
pub proof fn lemma_table_item_type_texts()
    ensures
        spec_table_item_type_text(TableItemType::Time) == "time"@,
        spec_table_item_type_from_text("time"@) == Some(TableItemType::Time),
        spec_table_item_type_text(TableItemType::Variable) == "variable"@,
        spec_table_item_type_from_text("variable"@) == Some(TableItemType::Variable),
        spec_table_item_type_text(TableItemType::Blank) == "blank"@,
        spec_table_item_type_from_text("blank"@) == Some(TableItemType::Blank),
{
    lemma_table_item_type_round_trip(TableItemType::Time);
    lemma_table_item_type_round_trip(TableItemType::Variable);
    lemma_table_item_type_round_trip(TableItemType::Blank);
}

/// The text each [`TableOrientation`] is written as, and the value each of those texts is read as.
pub proof fn lemma_table_orientation_texts()
    ensures
        spec_table_orientation_text(TableOrientation::Horizontal) == "horizontal"@,
        spec_table_orientation_from_text("horizontal"@) == Some(TableOrientation::Horizontal),
        spec_table_orientation_text(TableOrientation::Vertical) == "vertical"@,
        spec_table_orientation_from_text("vertical"@) == Some(TableOrientation::Vertical),
{
    lemma_table_orientation_round_trip(TableOrientation::Horizontal);
    lemma_table_orientation_round_trip(TableOrientation::Vertical);
}

/// The text each [`ReportBalances`] is written as, and the value each of those texts is read as.
pub proof fn lemma_report_balances_texts()
    ensures
        spec_report_balances_text(ReportBalances::Beginning) == "beginning"@,
        spec_report_balances_from_text("beginning"@) == Some(ReportBalances::Beginning),
        spec_report_balances_text(ReportBalances::Ending) == "ending"@,
        spec_report_balances_from_text("ending"@) == Some(ReportBalances::Ending),
{
    lemma_report_balances_round_trip(ReportBalances::Beginning);
    lemma_report_balances_round_trip(ReportBalances::Ending);
}

/// The text each [`ReportFlows`] is written as, and the value each of those texts is read as.
pub proof fn lemma_report_flows_texts()
    ensures
        spec_report_flows_text(ReportFlows::Instantaneous) == "instantaneous"@,
        spec_report_flows_from_text("instantaneous"@) == Some(ReportFlows::Instantaneous),
        spec_report_flows_text(ReportFlows::Summed) == "summed"@,
        spec_report_flows_from_text("summed"@) == Some(ReportFlows::Summed),
{
    lemma_report_flows_round_trip(ReportFlows::Instantaneous);
    lemma_report_flows_round_trip(ReportFlows::Summed);
}

/// The text each [`TextBoxAppearance`] is written as, and the value each of those texts is read as.
pub proof fn lemma_text_box_appearance_texts()
    ensures
        spec_text_box_appearance_text(TextBoxAppearance::Transparent) == "transparent"@,
        spec_text_box_appearance_from_text("transparent"@) == Some(TextBoxAppearance::Transparent),
        spec_text_box_appearance_text(TextBoxAppearance::Normal) == "normal"@,
        spec_text_box_appearance_from_text("normal"@) == Some(TextBoxAppearance::Normal),
{
    lemma_text_box_appearance_round_trip(TextBoxAppearance::Transparent);
    lemma_text_box_appearance_round_trip(TextBoxAppearance::Normal);
}

/// The text each [`ButtonAppearance`] is written as, and the value each of those texts is read as.
pub proof fn lemma_button_appearance_texts()
    ensures
        spec_button_appearance_text(ButtonAppearance::Opaque) == "opaque"@,
        spec_button_appearance_from_text("opaque"@) == Some(ButtonAppearance::Opaque),
        spec_button_appearance_text(ButtonAppearance::Transparent) == "transparent"@,
        spec_button_appearance_from_text("transparent"@) == Some(ButtonAppearance::Transparent),
{
    lemma_button_appearance_round_trip(ButtonAppearance::Opaque);
    lemma_button_appearance_round_trip(ButtonAppearance::Transparent);
}

/// The text each [`ButtonStyle`] is written as, and the value each of those texts is read as.
pub proof fn lemma_button_style_texts()
    ensures
        spec_button_style_text(ButtonStyle::Square) == "square"@,
        spec_button_style_from_text("square"@) == Some(ButtonStyle::Square),
        spec_button_style_text(ButtonStyle::Rounded) == "rounded"@,
        spec_button_style_from_text("rounded"@) == Some(ButtonStyle::Rounded),
        spec_button_style_text(ButtonStyle::Capsule) == "capsule"@,
        spec_button_style_from_text("capsule"@) == Some(ButtonStyle::Capsule),
{
    lemma_button_style_round_trip(ButtonStyle::Square);
    lemma_button_style_round_trip(ButtonStyle::Rounded);
    lemma_button_style_round_trip(ButtonStyle::Capsule);
}

/// The text each [`LinkEffect`] is written as, and the value each of those texts is read as.
pub proof fn lemma_link_effect_texts()
    ensures
        spec_link_effect_text(LinkEffect::Dissolve) == "dissolve"@,
        spec_link_effect_from_text("dissolve"@) == Some(LinkEffect::Dissolve),
        spec_link_effect_text(LinkEffect::Checkerboard) == "checkerboard"@,
        spec_link_effect_from_text("checkerboard"@) == Some(LinkEffect::Checkerboard),
        spec_link_effect_text(LinkEffect::Bars) == "bars"@,
        spec_link_effect_from_text("bars"@) == Some(LinkEffect::Bars),
        spec_link_effect_text(LinkEffect::WipeLeft) == "wipe_left"@,
        spec_link_effect_from_text("wipe_left"@) == Some(LinkEffect::WipeLeft),
        spec_link_effect_text(LinkEffect::WipeRight) == "wipe_right"@,
        spec_link_effect_from_text("wipe_right"@) == Some(LinkEffect::WipeRight),
        spec_link_effect_text(LinkEffect::WipeTop) == "wipe_top"@,
        spec_link_effect_from_text("wipe_top"@) == Some(LinkEffect::WipeTop),
        spec_link_effect_text(LinkEffect::WipeBottom) == "wipe_bottom"@,
        spec_link_effect_from_text("wipe_bottom"@) == Some(LinkEffect::WipeBottom),
        spec_link_effect_text(LinkEffect::WipeClockwise) == "wipe_clockwise"@,
        spec_link_effect_from_text("wipe_clockwise"@) == Some(LinkEffect::WipeClockwise),
        spec_link_effect_text(LinkEffect::WipeCounterclockwise) == "wipe_counterclockwise"@,
        spec_link_effect_from_text("wipe_counterclockwise"@) == Some(LinkEffect::WipeCounterclockwise),
        spec_link_effect_text(LinkEffect::IrisIn) == "iris_in"@,
        spec_link_effect_from_text("iris_in"@) == Some(LinkEffect::IrisIn),
        spec_link_effect_text(LinkEffect::IrisOut) == "iris_out"@,
        spec_link_effect_from_text("iris_out"@) == Some(LinkEffect::IrisOut),
        spec_link_effect_text(LinkEffect::DoorsClose) == "doors_close"@,
        spec_link_effect_from_text("doors_close"@) == Some(LinkEffect::DoorsClose),
        spec_link_effect_text(LinkEffect::DoorsOpen) == "doors_open"@,
        spec_link_effect_from_text("doors_open"@) == Some(LinkEffect::DoorsOpen),
        spec_link_effect_text(LinkEffect::VenetianLeft) == "venetian_left"@,
        spec_link_effect_from_text("venetian_left"@) == Some(LinkEffect::VenetianLeft),
        spec_link_effect_text(LinkEffect::VenetianRight) == "venetian_right"@,
        spec_link_effect_from_text("venetian_right"@) == Some(LinkEffect::VenetianRight),
        spec_link_effect_text(LinkEffect::VenetianTop) == "venetian_top"@,
        spec_link_effect_from_text("venetian_top"@) == Some(LinkEffect::VenetianTop),
        spec_link_effect_text(LinkEffect::VenetianBottom) == "venetian_bottom"@,
        spec_link_effect_from_text("venetian_bottom"@) == Some(LinkEffect::VenetianBottom),
        spec_link_effect_text(LinkEffect::PushBottom) == "push_bottom"@,
        spec_link_effect_from_text("push_bottom"@) == Some(LinkEffect::PushBottom),
        spec_link_effect_text(LinkEffect::PushTop) == "push_top"@,
        spec_link_effect_from_text("push_top"@) == Some(LinkEffect::PushTop),
        spec_link_effect_text(LinkEffect::PushLeft) == "push_left"@,
        spec_link_effect_from_text("push_left"@) == Some(LinkEffect::PushLeft),
        spec_link_effect_text(LinkEffect::PushRight) == "push_right"@,
        spec_link_effect_from_text("push_right"@) == Some(LinkEffect::PushRight),
{
    lemma_link_effect_round_trip(LinkEffect::Dissolve);
    lemma_link_effect_round_trip(LinkEffect::Checkerboard);
    lemma_link_effect_round_trip(LinkEffect::Bars);
    lemma_link_effect_round_trip(LinkEffect::WipeLeft);
    lemma_link_effect_round_trip(LinkEffect::WipeRight);
    lemma_link_effect_round_trip(LinkEffect::WipeTop);
    lemma_link_effect_round_trip(LinkEffect::WipeBottom);
    lemma_link_effect_round_trip(LinkEffect::WipeClockwise);
    lemma_link_effect_round_trip(LinkEffect::WipeCounterclockwise);
    lemma_link_effect_round_trip(LinkEffect::IrisIn);
    lemma_link_effect_round_trip(LinkEffect::IrisOut);
    lemma_link_effect_round_trip(LinkEffect::DoorsClose);
    lemma_link_effect_round_trip(LinkEffect::DoorsOpen);
    lemma_link_effect_round_trip(LinkEffect::VenetianLeft);
    lemma_link_effect_round_trip(LinkEffect::VenetianRight);
    lemma_link_effect_round_trip(LinkEffect::VenetianTop);
    lemma_link_effect_round_trip(LinkEffect::VenetianBottom);
    lemma_link_effect_round_trip(LinkEffect::PushBottom);
    lemma_link_effect_round_trip(LinkEffect::PushTop);
    lemma_link_effect_round_trip(LinkEffect::PushLeft);
    lemma_link_effect_round_trip(LinkEffect::PushRight);
}

/// The text each [`FileAction`] is written as, and the value each of those texts is read as.
pub proof fn lemma_file_action_texts()
    ensures
        spec_file_action_text(FileAction::Open) == "open"@,
        spec_file_action_from_text("open"@) == Some(FileAction::Open),
        spec_file_action_text(FileAction::Close) == "close"@,
        spec_file_action_from_text("close"@) == Some(FileAction::Close),
        spec_file_action_text(FileAction::Save) == "save"@,
        spec_file_action_from_text("save"@) == Some(FileAction::Save),
        spec_file_action_text(FileAction::SaveAs) == "save_as"@,
        spec_file_action_from_text("save_as"@) == Some(FileAction::SaveAs),
        spec_file_action_text(FileAction::SaveAsImage) == "save_as_image"@,
        spec_file_action_from_text("save_as_image"@) == Some(FileAction::SaveAsImage),
        spec_file_action_text(FileAction::Revert) == "revert"@,
        spec_file_action_from_text("revert"@) == Some(FileAction::Revert),
{
    lemma_file_action_round_trip(FileAction::Open);
    lemma_file_action_round_trip(FileAction::Close);
    lemma_file_action_round_trip(FileAction::Save);
    lemma_file_action_round_trip(FileAction::SaveAs);
    lemma_file_action_round_trip(FileAction::SaveAsImage);
    lemma_file_action_round_trip(FileAction::Revert);
}

/// The text each [`PrintingAction`] is written as, and the value each of those texts is read as.
pub proof fn lemma_printing_action_texts()
    ensures
        spec_printing_action_text(PrintingAction::PrintSetup) == "print_setup"@,
        spec_printing_action_from_text("print_setup"@) == Some(PrintingAction::PrintSetup),
        spec_printing_action_text(PrintingAction::Print) == "print"@,
        spec_printing_action_from_text("print"@) == Some(PrintingAction::Print),
        spec_printing_action_text(PrintingAction::PrintScreen) == "print_screen"@,
        spec_printing_action_from_text("print_screen"@) == Some(PrintingAction::PrintScreen),
{
    lemma_printing_action_round_trip(PrintingAction::PrintSetup);
    lemma_printing_action_round_trip(PrintingAction::Print);
    lemma_printing_action_round_trip(PrintingAction::PrintScreen);
}

/// The text each [`SimulationAction`] is written as, and the value each of those texts is read as.
pub proof fn lemma_simulation_action_texts()
    ensures
        spec_simulation_action_text(SimulationAction::Run) == "run"@,
        spec_simulation_action_from_text("run"@) == Some(SimulationAction::Run),
        spec_simulation_action_text(SimulationAction::Pause) == "pause"@,
        spec_simulation_action_from_text("pause"@) == Some(SimulationAction::Pause),
        spec_simulation_action_text(SimulationAction::Resume) == "resume"@,
        spec_simulation_action_from_text("resume"@) == Some(SimulationAction::Resume),
        spec_simulation_action_text(SimulationAction::Stop) == "stop"@,
        spec_simulation_action_from_text("stop"@) == Some(SimulationAction::Stop),
        spec_simulation_action_text(SimulationAction::RunRestore) == "run_restore"@,
        spec_simulation_action_from_text("run_restore"@) == Some(SimulationAction::RunRestore),
{
    lemma_simulation_action_round_trip(SimulationAction::Run);
    lemma_simulation_action_round_trip(SimulationAction::Pause);
    lemma_simulation_action_round_trip(SimulationAction::Resume);
    lemma_simulation_action_round_trip(SimulationAction::Stop);
    lemma_simulation_action_round_trip(SimulationAction::RunRestore);
}

/// The text each [`RestoreAction`] is written as, and the value each of those texts is read as.
pub proof fn lemma_restore_action_texts()
    ensures
        spec_restore_action_text(RestoreAction::RestoreAll) == "restore_all"@,
        spec_restore_action_from_text("restore_all"@) == Some(RestoreAction::RestoreAll),
        spec_restore_action_text(RestoreAction::RestoreSliders) == "restore_sliders"@,
        spec_restore_action_from_text("restore_sliders"@) == Some(RestoreAction::RestoreSliders),
        spec_restore_action_text(RestoreAction::RestoreKnobs) == "restore_knobs"@,
        spec_restore_action_from_text("restore_knobs"@) == Some(RestoreAction::RestoreKnobs),
        spec_restore_action_text(RestoreAction::RestoreListInputs) == "restore_list_inputs"@,
        spec_restore_action_from_text("restore_list_inputs"@) == Some(RestoreAction::RestoreListInputs),
        spec_restore_action_text(RestoreAction::RestoreGraphicalInputs) == "restore_graphical_inputs"@,
        spec_restore_action_from_text("restore_graphical_inputs"@) == Some(RestoreAction::RestoreGraphicalInputs),
        spec_restore_action_text(RestoreAction::RestoreSwitches) == "restore_switches"@,
        spec_restore_action_from_text("restore_switches"@) == Some(RestoreAction::RestoreSwitches),
        spec_restore_action_text(RestoreAction::RestoreNumericDisplays) == "restore_numeric_displays"@,
        spec_restore_action_from_text("restore_numeric_displays"@) == Some(RestoreAction::RestoreNumericDisplays),
        spec_restore_action_text(RestoreAction::RestoreGraphsTables) == "restore_graphs_tables"@,
        spec_restore_action_from_text("restore_graphs_tables"@) == Some(RestoreAction::RestoreGraphsTables),
        spec_restore_action_text(RestoreAction::RestoreLampsGauges) == "restore_lamps_gauges"@,
        spec_restore_action_from_text("restore_lamps_gauges"@) == Some(RestoreAction::RestoreLampsGauges),
{
    lemma_restore_action_round_trip(RestoreAction::RestoreAll);
    lemma_restore_action_round_trip(RestoreAction::RestoreSliders);
    lemma_restore_action_round_trip(RestoreAction::RestoreKnobs);
    lemma_restore_action_round_trip(RestoreAction::RestoreListInputs);
    lemma_restore_action_round_trip(RestoreAction::RestoreGraphicalInputs);
    lemma_restore_action_round_trip(RestoreAction::RestoreSwitches);
    lemma_restore_action_round_trip(RestoreAction::RestoreNumericDisplays);
    lemma_restore_action_round_trip(RestoreAction::RestoreGraphsTables);
    lemma_restore_action_round_trip(RestoreAction::RestoreLampsGauges);
}

/// The text each [`MiscellaneousAction`] is written as, and the value each of those texts is read as.
pub proof fn lemma_miscellaneous_action_texts()
    ensures
        spec_miscellaneous_action_text(MiscellaneousAction::Exit) == "exit"@,
        spec_miscellaneous_action_from_text("exit"@) == Some(MiscellaneousAction::Exit),
        spec_miscellaneous_action_text(MiscellaneousAction::Find) == "find"@,
        spec_miscellaneous_action_from_text("find"@) == Some(MiscellaneousAction::Find),
        spec_miscellaneous_action_text(MiscellaneousAction::RunSpecs) == "run_specs"@,
        spec_miscellaneous_action_from_text("run_specs"@) == Some(MiscellaneousAction::RunSpecs),
{
    lemma_miscellaneous_action_round_trip(MiscellaneousAction::Exit);
    lemma_miscellaneous_action_round_trip(MiscellaneousAction::Find);
    lemma_miscellaneous_action_round_trip(MiscellaneousAction::RunSpecs);
}

/// The text each [`FontWeight`] is written as, and the value each of those texts is read as.
pub proof fn lemma_font_weight_texts()
    ensures
        spec_font_weight_text(FontWeight::Normal) == "normal"@,
        spec_font_weight_from_text("normal"@) == Some(FontWeight::Normal),
        spec_font_weight_text(FontWeight::Bold) == "bold"@,
        spec_font_weight_from_text("bold"@) == Some(FontWeight::Bold),
{
    lemma_font_weight_round_trip(FontWeight::Normal);
    lemma_font_weight_round_trip(FontWeight::Bold);
}

/// The text each [`FontStyle`] is written as, and the value each of those texts is read as.
pub proof fn lemma_font_style_texts()
    ensures
        spec_font_style_text(FontStyle::Normal) == "normal"@,
        spec_font_style_from_text("normal"@) == Some(FontStyle::Normal),
        spec_font_style_text(FontStyle::Italic) == "italic"@,
        spec_font_style_from_text("italic"@) == Some(FontStyle::Italic),
{
    lemma_font_style_round_trip(FontStyle::Normal);
    lemma_font_style_round_trip(FontStyle::Italic);
}

/// The text each [`TextDecoration`] is written as, and the value each of those texts is read as.
pub proof fn lemma_text_decoration_texts()
    ensures
        spec_text_decoration_text(TextDecoration::Normal) == "normal"@,
        spec_text_decoration_from_text("normal"@) == Some(TextDecoration::Normal),
        spec_text_decoration_text(TextDecoration::Underline) == "underline"@,
        spec_text_decoration_from_text("underline"@) == Some(TextDecoration::Underline),
{
    lemma_text_decoration_round_trip(TextDecoration::Normal);
    lemma_text_decoration_round_trip(TextDecoration::Underline);
}

/// The text each [`TextAlign`] is written as, and the value each of those texts is read as.
pub proof fn lemma_text_align_texts()
    ensures
        spec_text_align_text(TextAlign::Left) == "left"@,
        spec_text_align_from_text("left"@) == Some(TextAlign::Left),
        spec_text_align_text(TextAlign::Right) == "right"@,
        spec_text_align_from_text("right"@) == Some(TextAlign::Right),
        spec_text_align_text(TextAlign::Center) == "center"@,
        spec_text_align_from_text("center"@) == Some(TextAlign::Center),
{
    lemma_text_align_round_trip(TextAlign::Left);
    lemma_text_align_round_trip(TextAlign::Right);
    lemma_text_align_round_trip(TextAlign::Center);
}

/// The text each [`VerticalTextAlign`] is written as, and the value each of those texts is read as.
pub proof fn lemma_vertical_text_align_texts()
    ensures
        spec_vertical_text_align_text(VerticalTextAlign::Top) == "top"@,
        spec_vertical_text_align_from_text("top"@) == Some(VerticalTextAlign::Top),
        spec_vertical_text_align_text(VerticalTextAlign::Bottom) == "bottom"@,
        spec_vertical_text_align_from_text("bottom"@) == Some(VerticalTextAlign::Bottom),
        spec_vertical_text_align_text(VerticalTextAlign::Center) == "center"@,
        spec_vertical_text_align_from_text("center"@) == Some(VerticalTextAlign::Center),
{
    lemma_vertical_text_align_round_trip(VerticalTextAlign::Top);
    lemma_vertical_text_align_round_trip(VerticalTextAlign::Bottom);
    lemma_vertical_text_align_round_trip(VerticalTextAlign::Center);
}

/// The text each [`BorderStyle`] is written as, and the value each of those texts is read as.
pub proof fn lemma_border_style_texts()
    ensures
        spec_border_style_text(BorderStyle::NoBorder) == "none"@,
        spec_border_style_from_text("none"@) == Some(BorderStyle::NoBorder),
        spec_border_style_text(BorderStyle::Solid) == "solid"@,
        spec_border_style_from_text("solid"@) == Some(BorderStyle::Solid),
{
    lemma_border_style_round_trip(BorderStyle::NoBorder);
    lemma_border_style_round_trip(BorderStyle::Solid);
}

/// The text each [`PageSequence`] is written as, and the value each of those texts is read as.
pub proof fn lemma_page_sequence_texts()
    ensures
        spec_page_sequence_text(PageSequence::Row) == "row"@,
        spec_page_sequence_from_text("row"@) == Some(PageSequence::Row),
        spec_page_sequence_text(PageSequence::Column) == "column"@,
        spec_page_sequence_from_text("column"@) == Some(PageSequence::Column),
{
    lemma_page_sequence_round_trip(PageSequence::Row);
    lemma_page_sequence_round_trip(PageSequence::Column);
}

/// The text each [`PageOrientation`] is written as, and the value each of those texts is read as.
pub proof fn lemma_page_orientation_texts()
    ensures
        spec_page_orientation_text(PageOrientation::Landscape) == "landscape"@,
        spec_page_orientation_from_text("landscape"@) == Some(PageOrientation::Landscape),
        spec_page_orientation_text(PageOrientation::Portrait) == "portrait"@,
        spec_page_orientation_from_text("portrait"@) == Some(PageOrientation::Portrait),
{
    lemma_page_orientation_round_trip(PageOrientation::Landscape);
    lemma_page_orientation_round_trip(PageOrientation::Portrait);
}

/// The text each [`LineStyle`] is written as, and the value each of those texts is read as.
pub proof fn lemma_line_style_texts()
    ensures
        spec_line_style_text(LineStyle::Solid) == "solid"@,
        spec_line_style_text(LineStyle::Dashed) == "dashed"@,
        spec_line_style_reads_as("solid"@, LineStyle::Solid),
        spec_line_style_reads_as("dashed"@, LineStyle::Dashed),
{
    lemma_line_style_round_trip(LineStyle::Solid);
    lemma_line_style_round_trip(LineStyle::Dashed);
}

/// The text each [`Vendor`] is written as.
pub proof fn lemma_vendor_texts()
    ensures
        spec_vendor_text(Vendor::Anylogic) == "anylogic"@,
        spec_vendor_text(Vendor::Forio) == "forio"@,
        spec_vendor_text(Vendor::Insightmaker) == "insightmaker"@,
        spec_vendor_text(Vendor::Isee) == "isee"@,
        spec_vendor_text(Vendor::Powersim) == "powersim"@,
        spec_vendor_text(Vendor::Simanticssd) == "simanticssd"@,
        spec_vendor_text(Vendor::Simile) == "simile"@,
        spec_vendor_text(Vendor::Sysdea) == "sysdea"@,
        spec_vendor_text(Vendor::Vensim) == "vensim"@,
        spec_vendor_text(Vendor::SimLab) == "simlab"@,
        spec_vendor_text(Vendor::Other) == "other"@,
{
}

/// The text each [`ViewType`] is written as, and the value each of those texts is read as.
pub proof fn lemma_view_type_texts()
    ensures
        spec_view_type_text(ViewType::StockFlow) == "stock_flow"@,
        spec_view_type_text(ViewType::Interface) == "interface"@,
        spec_view_type_text(ViewType::Popup) == "popup"@,
        spec_view_type_reads_as("stock_flow"@, ViewType::StockFlow),
        spec_view_type_reads_as("interface"@, ViewType::Interface),
        spec_view_type_reads_as("popup"@, ViewType::Popup),
{
    lemma_view_type_round_trip(ViewType::StockFlow);
    lemma_view_type_round_trip(ViewType::Interface);
    lemma_view_type_round_trip(ViewType::Popup);
}

/// The text each [`AccessType`] is written as, and the value each of those texts is read as.
pub proof fn lemma_access_type_texts()
    ensures
        spec_access_type_text(AccessType::Input) == "input"@,
        spec_access_type_from_text("input"@) == Some(AccessType::Input),
        spec_access_type_text(AccessType::Output) == "output"@,
        spec_access_type_from_text("output"@) == Some(AccessType::Output),
{
    lemma_access_type_round_trip(AccessType::Input);
    lemma_access_type_round_trip(AccessType::Output);
}

/// The text each [`DisplayAs`] is written as, and the value each of those texts is read as.
pub proof fn lemma_display_as_texts()
    ensures
        spec_display_as_text(DisplayAs::Number) == "number"@,
        spec_display_as_from_text("number"@) == Some(DisplayAs::Number),
        spec_display_as_text(DisplayAs::Currency) == "currency"@,
        spec_display_as_from_text("currency"@) == Some(DisplayAs::Currency),
        spec_display_as_text(DisplayAs::Percent) == "percent"@,
        spec_display_as_from_text("percent"@) == Some(DisplayAs::Percent),
{
    lemma_display_as_round_trip(DisplayAs::Number);
    lemma_display_as_round_trip(DisplayAs::Currency);
    lemma_display_as_round_trip(DisplayAs::Percent);
}

/// The text each [`GraphicalFunctionType`] is written as.
pub proof fn lemma_gf_type_texts()
    ensures
        spec_gf_type_text(GraphicalFunctionType::Continuous) == "continuous"@,
        spec_gf_type_text(GraphicalFunctionType::Extrapolate) == "extrapolate"@,
        spec_gf_type_text(GraphicalFunctionType::Discrete) == "discrete"@,
{
}

} // verus!
