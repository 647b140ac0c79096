//! Reading the attributes of display objects: the display attributes they share, buttons
//! with the image and switch action they may hold, and tables with their header styling
//! and items. Positions and sizes are numbers of the type `N` chosen by the caller, which
//! parses their text; so are colors (`C`), paddings (`P`) and border widths (`W`).

use vstd::prelude::*;
use vstd::string::*;
use crate::actions::ReadErrorSpec;
use crate::de::{spec_get, Attrs, DeserializeError};
use crate::diagram::{err_of, first, ok_of};
use crate::errors::opt_text;
use crate::model::Uid;
use crate::variables::{
    bool_attr, i32_attr, outcome_matches, parsed_attr, spec_bool_attr, spec_i32_attr, spec_parsed_attr,
};
use crate::view::{
    parse_report_balances, parse_report_flows, parse_table_orientation, spec_report_balances_from_text,
    spec_report_flows_from_text, spec_table_orientation_from_text, ReportBalances, ReportFlows, TableOrientation,
    parse_button_appearance, parse_button_style, spec_button_appearance_from_text, spec_button_style_from_text,
    ButtonAppearance, ButtonStyle, parse_font_weight, parse_font_style, parse_text_decoration, parse_text_align,
    parse_vertical_text_align, spec_font_weight_from_text, spec_font_style_from_text, spec_text_decoration_from_text,
    spec_text_align_from_text, spec_vertical_text_align_from_text, spec_border_style_from_text, FontWeight, FontStyle,
    TextDecoration, TextAlign, VerticalTextAlign, BorderStyle, parse_table_item_type, spec_table_item_type_from_text,
    TableItemType, parse_border_style, parse_line_style, parse_polarity, spec_line_style_reads_as, spec_polarity_from_text,
    LineStyle, Pointer, Polarity,
};
use crate::text::str_eq;

verus! {

/// The caller's parses of the position and size attributes of a display object.
#[derive(Debug)]
pub struct BoundsNumbers<N> {
    pub x: Option<Result<N, String>>,
    pub y: Option<Result<N, String>>,
    pub width: Option<Result<N, String>>,
    pub height: Option<Result<N, String>>,
}

/// Each parse is present exactly when its attribute is.
pub open spec fn bounds_match<N>(a: Attrs, n: BoundsNumbers<N>) -> bool {
    &&& outcome_matches(a, "x"@, n.x)
    &&& outcome_matches(a, "y"@, n.y)
    &&& outcome_matches(a, "width"@, n.width)
    &&& outcome_matches(a, "height"@, n.height)
}

/// The attributes of a `button` element, as read.
#[derive(Debug)]
pub struct ButtonAttrs<N> {
    pub uid: Option<i32>,
    pub x: Option<N>,
    pub y: Option<N>,
    pub width: Option<N>,
    pub height: Option<N>,
    pub appearance: Option<ButtonAppearance>,
    pub style: Option<ButtonStyle>,
    pub label: Option<String>,
    pub clicking_sound: Option<bool>,
    pub sound: Option<String>,
}

/// The error of an attribute holding one of a fixed set of texts, refused with `message`
/// followed by the text when it is none of them.
pub open spec fn spec_choice_error<T>(a: Attrs, key: Seq<char>, parse: spec_fn(Seq<char>) -> Option<T>, message: Seq<char>) -> Option<ReadErrorSpec> {
    match spec_get(a@, key) {
        Some(t) => if parse(t) is None {
            Some(ReadErrorSpec::Custom(message + t))
        } else {
            None
        },
        None => None,
    }
}

/// The value of an attribute holding one of a fixed set of texts, if present and valid.
pub open spec fn spec_choice<T>(a: Attrs, key: Seq<char>, parse: spec_fn(Seq<char>) -> Option<T>) -> Option<T> {
    match spec_get(a@, key) {
        Some(t) => parse(t),
        None => None,
    }
}

/// The first error in the attributes of a `button` element, in the order `uid`, `x`, `y`,
/// `width`, `height`, `appearance`, `style`, `clicking_sound`.
pub open spec fn spec_button_attrs_error<N>(a: Attrs, n: BoundsNumbers<N>) -> Option<ReadErrorSpec> {
    first(
        err_of(spec_i32_attr(a, "uid"@)),
        first(
            err_of(spec_parsed_attr(a, "x"@, n.x)),
            first(
                err_of(spec_parsed_attr(a, "y"@, n.y)),
                first(
                    err_of(spec_parsed_attr(a, "width"@, n.width)),
                    first(
                        err_of(spec_parsed_attr(a, "height"@, n.height)),
                        first(
                            spec_choice_error(a, "appearance"@, |t: Seq<char>| spec_button_appearance_from_text(t), "Invalid button appearance: "@),
                            first(
                                spec_choice_error(a, "style"@, |t: Seq<char>| spec_button_style_from_text(t), "Invalid button style: "@),
                                err_of(spec_bool_attr(a, "clicking_sound"@)),
                            ),
                        ),
                    ),
                ),
            ),
        ),
    )
}

/// The attributes read are those of the element.
pub open spec fn spec_button_attrs_read<N>(b: ButtonAttrs<N>, a: Attrs, n: BoundsNumbers<N>) -> bool {
    &&& b.uid == ok_of(spec_i32_attr(a, "uid"@))
    &&& b.x == ok_of(spec_parsed_attr(a, "x"@, n.x))
    &&& b.y == ok_of(spec_parsed_attr(a, "y"@, n.y))
    &&& b.width == ok_of(spec_parsed_attr(a, "width"@, n.width))
    &&& b.height == ok_of(spec_parsed_attr(a, "height"@, n.height))
    &&& b.appearance == spec_choice(a, "appearance"@, |t: Seq<char>| spec_button_appearance_from_text(t))
    &&& b.style == spec_choice(a, "style"@, |t: Seq<char>| spec_button_style_from_text(t))
    &&& opt_text(b.label) == spec_get(a@, "label"@)
    &&& b.clicking_sound == ok_of(spec_bool_attr(a, "clicking_sound"@))
    &&& opt_text(b.sound) == spec_get(a@, "sound"@)
}

/// Reads the attributes of a `button` element.
pub fn button_attrs_from_attrs<N>(attrs: &Attrs, numbers: BoundsNumbers<N>) -> (r: Result<ButtonAttrs<N>, DeserializeError>)
    requires
        bounds_match(*attrs, numbers),
    ensures
        match spec_button_attrs_error(*attrs, numbers) {
            Some(e) => r matches Err(x) && x.is_read_error(e),
            None => r matches Ok(b) && spec_button_attrs_read(b, *attrs, numbers),
        },
{
    let uid = match i32_attr(attrs, "uid") {
        Ok(v) => v,
        Err(e) => return Err(e),
    };
    let BoundsNumbers { x, y, width, height } = numbers;
    let x = match parsed_attr(attrs, "x", x) {
        Ok(v) => v,
        Err(e) => return Err(e),
    };
    let y = match parsed_attr(attrs, "y", y) {
        Ok(v) => v,
        Err(e) => return Err(e),
    };
    let width = match parsed_attr(attrs, "width", width) {
        Ok(v) => v,
        Err(e) => return Err(e),
    };
    let height = match parsed_attr(attrs, "height", height) {
        Ok(v) => v,
        Err(e) => return Err(e),
    };
    let appearance = match attrs.get_opt("appearance") {
        None => None,
        Some(t) => match parse_button_appearance(t) {
            Ok(v) => Some(v),
            Err(e) => return Err(e),
        },
    };
    let style = match attrs.get_opt("style") {
        None => None,
        Some(t) => match parse_button_style(t) {
            Ok(v) => Some(v),
            Err(e) => return Err(e),
        },
    };
    let label = attrs.get_opt_string("label");
    let clicking_sound = match bool_attr(attrs, "clicking_sound") {
        Ok(v) => v,
        Err(e) => return Err(e),
    };
    let sound = attrs.get_opt_string("sound");
    Ok(ButtonAttrs { uid, x, y, width, height, appearance, style, label, clicking_sound, sound })
}

/// The identity, name, position and size of a display object, as read.
#[derive(Debug)]
pub struct ObjectAttrs<N> {
    pub uid: Option<i32>,
    pub name: Option<String>,
    pub x: Option<N>,
    pub y: Option<N>,
    pub width: Option<N>,
    pub height: Option<N>,
}

/// The first error in the identity, position and size of a display object, in the order
/// `uid`, `x`, `y`, `width`, `height`.
pub open spec fn spec_object_attrs_error<N>(a: Attrs, n: BoundsNumbers<N>) -> Option<ReadErrorSpec> {
    first(
        err_of(spec_i32_attr(a, "uid"@)),
        first(
            err_of(spec_parsed_attr(a, "x"@, n.x)),
            first(
                err_of(spec_parsed_attr(a, "y"@, n.y)),
                first(err_of(spec_parsed_attr(a, "width"@, n.width)), err_of(spec_parsed_attr(a, "height"@, n.height))),
            ),
        ),
    )
}

/// The identity, name, position and size read are those of the element.
pub open spec fn spec_object_attrs_read<N>(o: ObjectAttrs<N>, a: Attrs, n: BoundsNumbers<N>) -> bool {
    &&& o.uid == ok_of(spec_i32_attr(a, "uid"@))
    &&& opt_text(o.name) == spec_get(a@, "name"@)
    &&& o.x == ok_of(spec_parsed_attr(a, "x"@, n.x))
    &&& o.y == ok_of(spec_parsed_attr(a, "y"@, n.y))
    &&& o.width == ok_of(spec_parsed_attr(a, "width"@, n.width))
    &&& o.height == ok_of(spec_parsed_attr(a, "height"@, n.height))
}

/// Reads the `uid`, `name`, `x`, `y`, `width` and `height` attributes shared by display
/// objects; the numbers are the caller's parses of the position and size texts.
pub fn parse_object_attrs<N>(attrs: &Attrs, numbers: BoundsNumbers<N>) -> (r: Result<ObjectAttrs<N>, DeserializeError>)
    requires
        bounds_match(*attrs, numbers),
    ensures
        match spec_object_attrs_error(*attrs, numbers) {
            Some(e) => r matches Err(x) && x.is_read_error(e),
            None => r matches Ok(o) && spec_object_attrs_read(o, *attrs, numbers),
        },
{
    let uid = match i32_attr(attrs, "uid") {
        Ok(v) => v,
        Err(e) => return Err(e),
    };
    let name = attrs.get_opt_string("name");
    let BoundsNumbers { x, y, width, height } = numbers;
    let x = match parsed_attr(attrs, "x", x) {
        Ok(v) => v,
        Err(e) => return Err(e),
    };
    let y = match parsed_attr(attrs, "y", y) {
        Ok(v) => v,
        Err(e) => return Err(e),
    };
    let width = match parsed_attr(attrs, "width", width) {
        Ok(v) => v,
        Err(e) => return Err(e),
    };
    let height = match parsed_attr(attrs, "height", height) {
        Ok(v) => v,
        Err(e) => return Err(e),
    };
    Ok(ObjectAttrs { uid, name, x, y, width, height })
}

/// The settings of a button that are required or defaulted.
#[derive(Debug)]
pub struct ButtonHeader<N> {
    pub uid: Uid,
    pub x: N,
    pub y: N,
    pub width: N,
    pub height: N,
    pub appearance: ButtonAppearance,
    pub style: ButtonStyle,
    pub label: Option<String>,
    pub clicking_sound: bool,
    pub sound: Option<String>,
}

/// The field a button misses, if any, in the order `uid`, `x`, `y`, `width`, `height`,
/// `appearance`, `style`.
pub open spec fn spec_button_missing<N>(b: ButtonAttrs<N>) -> Option<Seq<char>> {
    if b.uid is None {
        Some("uid"@)
    } else if b.x is None {
        Some("x"@)
    } else if b.y is None {
        Some("y"@)
    } else if b.width is None {
        Some("width"@)
    } else if b.height is None {
        Some("height"@)
    } else if b.appearance is None {
        Some("appearance"@)
    } else if b.style is None {
        Some("style"@)
    } else {
        None
    }
}

/// Ends the reading of a button once its children are read: a button with no
/// `clicking_sound` makes no sound.
pub fn finish_button<N>(b: ButtonAttrs<N>) -> (r: Result<ButtonHeader<N>, DeserializeError>)
    ensures
        match spec_button_missing(b) {
            Some(f) => r matches Err(e) && e.is_missing_field(f),
            None => r matches Ok(h) && h == (ButtonHeader {
                uid: Uid { value: b.uid->0 },
                x: b.x->0,
                y: b.y->0,
                width: b.width->0,
                height: b.height->0,
                appearance: b.appearance->0,
                style: b.style->0,
                label: b.label,
                clicking_sound: match b.clicking_sound { Some(c) => c, None => false },
                sound: b.sound,
            }),
        },
{
    let ButtonAttrs { uid, x, y, width, height, appearance, style, label, clicking_sound, sound } = b;
    let uid = match uid {
        Some(u) => u,
        None => return Err(DeserializeError::MissingField(String::from_str("uid"))),
    };
    let x = match x {
        Some(v) => v,
        None => return Err(DeserializeError::MissingField(String::from_str("x"))),
    };
    let y = match y {
        Some(v) => v,
        None => return Err(DeserializeError::MissingField(String::from_str("y"))),
    };
    let width = match width {
        Some(v) => v,
        None => return Err(DeserializeError::MissingField(String::from_str("width"))),
    };
    let height = match height {
        Some(v) => v,
        None => return Err(DeserializeError::MissingField(String::from_str("height"))),
    };
    let appearance = match appearance {
        Some(v) => v,
        None => return Err(DeserializeError::MissingField(String::from_str("appearance"))),
    };
    let style = match style {
        Some(v) => v,
        None => return Err(DeserializeError::MissingField(String::from_str("style"))),
    };
    Ok(ButtonHeader {
        uid: Uid::new(uid),
        x,
        y,
        width,
        height,
        appearance,
        style,
        label,
        clicking_sound: match clicking_sound { Some(c) => c, None => false },
        sound,
    })
}

/// An image shown on a button.
#[derive(Debug)]
pub struct ImageContent<N> {
    pub size_to_parent: bool,
    pub width: N,
    pub height: N,
    pub resource: Option<String>,
    pub data: Option<String>,
}

/// Reading the attributes of an `image` element: `size_to_parent` (false when absent), then
/// the sizes, which are required, and the optional `resource` and `data`.
pub open spec fn spec_image_result<N>(a: Attrs, width: Option<Result<N, String>>, height: Option<Result<N, String>>, r: Result<ImageContent<N>, DeserializeError>) -> bool {
    match first(
        err_of(spec_bool_attr(a, "size_to_parent"@)),
        first(err_of(spec_parsed_attr(a, "width"@, width)), err_of(spec_parsed_attr(a, "height"@, height))),
    ) {
        Some(e) => r matches Err(x) && x.is_read_error(e),
        None => if width is None {
            r matches Err(x) && x.is_missing_field("width"@)
        } else if height is None {
            r matches Err(x) && x.is_missing_field("height"@)
        } else {
            r matches Ok(img) && {
                &&& img.size_to_parent == match ok_of(spec_bool_attr(a, "size_to_parent"@)) {
                    Some(b) => b,
                    None => false,
                }
                &&& Some(img.width) == ok_of(spec_parsed_attr(a, "width"@, width))
                &&& Some(img.height) == ok_of(spec_parsed_attr(a, "height"@, height))
                &&& opt_text(img.resource) == spec_get(a@, "resource"@)
                &&& opt_text(img.data) == spec_get(a@, "data"@)
            }
        },
    }
}

/// Reads the attributes of an `image` element inside a button.
pub fn image_from_attrs<N>(attrs: &Attrs, width: Option<Result<N, String>>, height: Option<Result<N, String>>) -> (r: Result<ImageContent<N>, DeserializeError>)
    requires
        outcome_matches(*attrs, "width"@, width),
        outcome_matches(*attrs, "height"@, height),
    ensures
        spec_image_result(*attrs, width, height, r),
{
    let ghost w0 = width;
    let ghost h0 = height;
    let size_to_parent = match bool_attr(attrs, "size_to_parent") {
        Ok(v) => v,
        Err(e) => return Err(e),
    };
    let width = match parsed_attr(attrs, "width", width) {
        Ok(v) => v,
        Err(e) => return Err(e),
    };
    let height = match parsed_attr(attrs, "height", height) {
        Ok(v) => v,
        Err(e) => return Err(e),
    };
    let resource = attrs.get_opt_string("resource");
    let data = attrs.get_opt_string("data");
    let width = match width {
        Some(v) => v,
        None => return Err(DeserializeError::MissingField(String::from_str("width"))),
    };
    let height = match height {
        Some(v) => v,
        None => return Err(DeserializeError::MissingField(String::from_str("height"))),
    };
    Ok(ImageContent {
        size_to_parent: match size_to_parent { Some(b) => b, None => false },
        width,
        height,
        resource,
        data,
    })
}

/// A button's action of setting a variable, a group or a module's inputs to a value.
#[derive(Debug)]
pub struct SwitchAction<N> {
    pub entity_name: Option<String>,
    pub group_name: Option<String>,
    pub module_name: Option<String>,
    pub value: N,
}

/// Reads the attributes of a `switch_action` element: the value is required.
pub fn switch_action_from_attrs<N>(attrs: &Attrs, value: Option<Result<N, String>>) -> (r: Result<SwitchAction<N>, DeserializeError>)
    requires
        outcome_matches(*attrs, "value"@, value),
    ensures
        match err_of(spec_parsed_attr(*attrs, "value"@, value)) {
            Some(e) => r matches Err(x) && x.is_read_error(e),
            None => match value {
                None => r matches Err(x) && x.is_missing_field("value"@),
                Some(_) => r matches Ok(s) && {
                    &&& opt_text(s.entity_name) == spec_get(attrs@, "entity_name"@)
                    &&& opt_text(s.group_name) == spec_get(attrs@, "group_name"@)
                    &&& opt_text(s.module_name) == spec_get(attrs@, "module_name"@)
                    &&& Some(s.value) == ok_of(spec_parsed_attr(*attrs, "value"@, value))
                },
            },
        },
{
    let entity_name = attrs.get_opt_string("entity_name");
    let group_name = attrs.get_opt_string("group_name");
    let module_name = attrs.get_opt_string("module_name");
    let value = match parsed_attr(attrs, "value", value) {
        Ok(v) => v,
        Err(e) => return Err(e),
    };
    match value {
        Some(v) => Ok(SwitchAction { entity_name, group_name, module_name, value: v }),
        None => Err(DeserializeError::MissingField(String::from_str("value"))),
    }
}

/// The attributes of a `table` element that describe the table itself, as read.
#[derive(Debug)]
pub struct TableAttrs<N> {
    pub uid: Option<i32>,
    pub x: Option<N>,
    pub y: Option<N>,
    pub width: Option<N>,
    pub height: Option<N>,
    pub title: Option<String>,
    pub doc: Option<String>,
    pub orientation: Option<TableOrientation>,
    pub column_width: Option<N>,
    pub blank_column_width: Option<N>,
    pub interval: Option<String>,
    pub report_balances: Option<ReportBalances>,
    pub report_flows: Option<ReportFlows>,
    pub comparative: Option<bool>,
    pub wrap_text: Option<bool>,
    pub header_font_family: Option<String>,
}

/// The first error in the attributes of a `table` element that describe the table itself,
/// in the order `uid`, `x`, `y`, `width`, `height`, `orientation`, `column_width`,
/// `blank_column_width`, `report_balances`, `report_flows`, `comparative`, `wrap_text`.
pub open spec fn spec_table_attrs_error<N>(a: Attrs, n: BoundsNumbers<N>, column_width: Option<Result<N, String>>, blank_column_width: Option<Result<N, String>>) -> Option<ReadErrorSpec> {
    first(
        first(
            err_of(spec_i32_attr(a, "uid"@)),
            first(
                err_of(spec_parsed_attr(a, "x"@, n.x)),
                first(
                    err_of(spec_parsed_attr(a, "y"@, n.y)),
                    first(err_of(spec_parsed_attr(a, "width"@, n.width)), err_of(spec_parsed_attr(a, "height"@, n.height))),
                ),
            ),
        ),
        first(
            first(
                spec_choice_error(a, "orientation"@, |t: Seq<char>| spec_table_orientation_from_text(t), "Invalid table orientation: "@),
                first(
                    err_of(spec_parsed_attr(a, "column_width"@, column_width)),
                    err_of(spec_parsed_attr(a, "blank_column_width"@, blank_column_width)),
                ),
            ),
            first(
                spec_choice_error(a, "report_balances"@, |t: Seq<char>| spec_report_balances_from_text(t), "Invalid report balances: "@),
                first(
                    spec_choice_error(a, "report_flows"@, |t: Seq<char>| spec_report_flows_from_text(t), "Invalid report flows: "@),
                    first(err_of(spec_bool_attr(a, "comparative"@)), err_of(spec_bool_attr(a, "wrap_text"@))),
                ),
            ),
        ),
    )
}

/// The attributes read are those of the element.
pub open spec fn spec_table_attrs_read<N>(t: TableAttrs<N>, a: Attrs, n: BoundsNumbers<N>, column_width: Option<Result<N, String>>, blank_column_width: Option<Result<N, String>>) -> bool {
    &&& t.uid == ok_of(spec_i32_attr(a, "uid"@))
    &&& t.x == ok_of(spec_parsed_attr(a, "x"@, n.x))
    &&& t.y == ok_of(spec_parsed_attr(a, "y"@, n.y))
    &&& t.width == ok_of(spec_parsed_attr(a, "width"@, n.width))
    &&& t.height == ok_of(spec_parsed_attr(a, "height"@, n.height))
    &&& opt_text(t.title) == spec_get(a@, "title"@)
    &&& opt_text(t.doc) == spec_get(a@, "doc"@)
    &&& t.orientation == spec_choice(a, "orientation"@, |s: Seq<char>| spec_table_orientation_from_text(s))
    &&& t.column_width == ok_of(spec_parsed_attr(a, "column_width"@, column_width))
    &&& t.blank_column_width == ok_of(spec_parsed_attr(a, "blank_column_width"@, blank_column_width))
    &&& opt_text(t.interval) == spec_get(a@, "interval"@)
    &&& t.report_balances == spec_choice(a, "report_balances"@, |s: Seq<char>| spec_report_balances_from_text(s))
    &&& t.report_flows == spec_choice(a, "report_flows"@, |s: Seq<char>| spec_report_flows_from_text(s))
    &&& t.comparative == ok_of(spec_bool_attr(a, "comparative"@))
    &&& t.wrap_text == ok_of(spec_bool_attr(a, "wrap_text"@))
    &&& opt_text(t.header_font_family) == spec_get(a@, "header_font_family"@)
}

/// Reads the attributes of a `table` element that describe the table itself; the header's
/// styling attributes, which follow them, are read apart.
pub fn table_attrs_from_attrs<N>(
    attrs: &Attrs,
    numbers: BoundsNumbers<N>,
    column_width: Option<Result<N, String>>,
    blank_column_width: Option<Result<N, String>>,
) -> (r: Result<TableAttrs<N>, DeserializeError>)
    requires
        bounds_match(*attrs, numbers),
        outcome_matches(*attrs, "column_width"@, column_width),
        outcome_matches(*attrs, "blank_column_width"@, blank_column_width),
    ensures
        match spec_table_attrs_error(*attrs, numbers, column_width, blank_column_width) {
            Some(e) => r matches Err(x) && x.is_read_error(e),
            None => r matches Ok(t) && spec_table_attrs_read(t, *attrs, numbers, column_width, blank_column_width),
        },
{
    let uid = match i32_attr(attrs, "uid") {
        Ok(v) => v,
        Err(e) => return Err(e),
    };
    let BoundsNumbers { x, y, width, height } = numbers;
    let x = match parsed_attr(attrs, "x", x) {
        Ok(v) => v,
        Err(e) => return Err(e),
    };
    let y = match parsed_attr(attrs, "y", y) {
        Ok(v) => v,
        Err(e) => return Err(e),
    };
    let width = match parsed_attr(attrs, "width", width) {
        Ok(v) => v,
        Err(e) => return Err(e),
    };
    let height = match parsed_attr(attrs, "height", height) {
        Ok(v) => v,
        Err(e) => return Err(e),
    };
    let title = attrs.get_opt_string("title");
    let doc = attrs.get_opt_string("doc");
    let orientation = match attrs.get_opt("orientation") {
        None => None,
        Some(t) => match parse_table_orientation(t) {
            Ok(v) => Some(v),
            Err(e) => return Err(e),
        },
    };
    let column_width = match parsed_attr(attrs, "column_width", column_width) {
        Ok(v) => v,
        Err(e) => return Err(e),
    };
    let blank_column_width = match parsed_attr(attrs, "blank_column_width", blank_column_width) {
        Ok(v) => v,
        Err(e) => return Err(e),
    };
    let interval = attrs.get_opt_string("interval");
    let report_balances = match attrs.get_opt("report_balances") {
        None => None,
        Some(t) => match parse_report_balances(t) {
            Ok(v) => Some(v),
            Err(e) => return Err(e),
        },
    };
    let report_flows = match attrs.get_opt("report_flows") {
        None => None,
        Some(t) => match parse_report_flows(t) {
            Ok(v) => Some(v),
            Err(e) => return Err(e),
        },
    };
    let comparative = match bool_attr(attrs, "comparative") {
        Ok(v) => v,
        Err(e) => return Err(e),
    };
    let wrap_text = match bool_attr(attrs, "wrap_text") {
        Ok(v) => v,
        Err(e) => return Err(e),
    };
    let header_font_family = attrs.get_opt_string("header_font_family");
    Ok(TableAttrs {
        uid,
        x,
        y,
        width,
        height,
        title,
        doc,
        orientation,
        column_width,
        blank_column_width,
        interval,
        report_balances,
        report_flows,
        comparative,
        wrap_text,
        header_font_family,
    })
}

/// The field a table misses, if any, in the order `uid`, `x`, `y`, `width`, `height`,
/// `orientation`, `column_width`, `interval`, `report_balances`, `report_flows`.
pub open spec fn spec_table_missing<N>(t: TableAttrs<N>) -> Option<Seq<char>> {
    if t.uid is None {
        Some("uid"@)
    } else if t.x is None {
        Some("x"@)
    } else if t.y is None {
        Some("y"@)
    } else if t.width is None {
        Some("width"@)
    } else if t.height is None {
        Some("height"@)
    } else if t.orientation is None {
        Some("orientation"@)
    } else if t.column_width is None {
        Some("column_width"@)
    } else if t.interval is None {
        Some("interval"@)
    } else if t.report_balances is None {
        Some("report_balances"@)
    } else if t.report_flows is None {
        Some("report_flows"@)
    } else {
        None
    }
}

/// The settings of a table that are required or defaulted.
#[derive(Debug)]
pub struct TableHeader<N> {
    pub uid: Uid,
    pub x: N,
    pub y: N,
    pub width: N,
    pub height: N,
    pub title: Option<String>,
    pub doc: Option<String>,
    pub orientation: TableOrientation,
    pub column_width: N,
    pub blank_column_width: Option<N>,
    pub interval: String,
    pub report_balances: ReportBalances,
    pub report_flows: ReportFlows,
    pub comparative: bool,
    pub wrap_text: bool,
    pub header_font_family: Option<String>,
}

/// Ends the reading of a table once its items are read: a table is not comparative and
/// does not wrap text unless it says so.
pub fn finish_table<N>(t: TableAttrs<N>) -> (r: Result<TableHeader<N>, DeserializeError>)
    ensures
        match spec_table_missing(t) {
            Some(f) => r matches Err(e) && e.is_missing_field(f),
            None => r matches Ok(h) && h == (TableHeader {
                uid: Uid { value: t.uid->0 },
                x: t.x->0,
                y: t.y->0,
                width: t.width->0,
                height: t.height->0,
                title: t.title,
                doc: t.doc,
                orientation: t.orientation->0,
                column_width: t.column_width->0,
                blank_column_width: t.blank_column_width,
                interval: t.interval->0,
                report_balances: t.report_balances->0,
                report_flows: t.report_flows->0,
                comparative: match t.comparative { Some(c) => c, None => false },
                wrap_text: match t.wrap_text { Some(w) => w, None => false },
                header_font_family: t.header_font_family,
            }),
        },
{
    let TableAttrs {
        uid,
        x,
        y,
        width,
        height,
        title,
        doc,
        orientation,
        column_width,
        blank_column_width,
        interval,
        report_balances,
        report_flows,
        comparative,
        wrap_text,
        header_font_family,
    } = t;
    let uid = match uid {
        Some(u) => u,
        None => return Err(DeserializeError::MissingField(String::from_str("uid"))),
    };
    let x = match x {
        Some(v) => v,
        None => return Err(DeserializeError::MissingField(String::from_str("x"))),
    };
    let y = match y {
        Some(v) => v,
        None => return Err(DeserializeError::MissingField(String::from_str("y"))),
    };
    let width = match width {
        Some(v) => v,
        None => return Err(DeserializeError::MissingField(String::from_str("width"))),
    };
    let height = match height {
        Some(v) => v,
        None => return Err(DeserializeError::MissingField(String::from_str("height"))),
    };
    let orientation = match orientation {
        Some(v) => v,
        None => return Err(DeserializeError::MissingField(String::from_str("orientation"))),
    };
    let column_width = match column_width {
        Some(v) => v,
        None => return Err(DeserializeError::MissingField(String::from_str("column_width"))),
    };
    let interval = match interval {
        Some(v) => v,
        None => return Err(DeserializeError::MissingField(String::from_str("interval"))),
    };
    let report_balances = match report_balances {
        Some(v) => v,
        None => return Err(DeserializeError::MissingField(String::from_str("report_balances"))),
    };
    let report_flows = match report_flows {
        Some(v) => v,
        None => return Err(DeserializeError::MissingField(String::from_str("report_flows"))),
    };
    Ok(TableHeader {
        uid: Uid::new(uid),
        x,
        y,
        width,
        height,
        title,
        doc,
        orientation,
        column_width,
        blank_column_width,
        interval,
        report_balances,
        report_flows,
        comparative: match comparative { Some(c) => c, None => false },
        wrap_text: match wrap_text { Some(w) => w, None => false },
        header_font_family,
    })
}

/// The text with every trailing `pt` unit removed, as a font size attribute is read.
pub open spec fn spec_strip_pt(s: Seq<char>) -> Seq<char>
    decreases s.len(),
{
    if s.len() >= 2 && s[s.len() - 2] == 'p' && s[s.len() - 1] == 't' {
        spec_strip_pt(s.subrange(0, s.len() - 2))
    } else {
        s
    }
}

/// Removes every trailing `pt` unit from a font size text, before its number is parsed.
pub fn strip_pt(s: &str) -> (r: String)
    ensures
        r@ == spec_strip_pt(s@),
{
    let mut n = s.unicode_len();
    proof {
        assert(s@.subrange(0, n as int) =~= s@);
    }
    while n >= 2 && s.get_char(n - 2) == 'p' && s.get_char(n - 1) == 't'
        invariant
            n <= s@.len(),
            spec_strip_pt(s@.subrange(0, n as int)) == spec_strip_pt(s@),
        decreases n,
    {
        proof {
            assert(s@.subrange(0, n as int).subrange(0, n - 2) =~= s@.subrange(0, n - 2));
        }
        n = n - 2;
    }
    proof {
        assert(s@.subrange(0, n as int).len() == n);
    }
    String::from_str(s.substring_char(0, n))
}

/// An error met reading styling attributes: one of the library's, or one the caller's parse
/// of a color, padding or border width gave.
pub enum StyleReadError {
    Read(ReadErrorSpec),
    Given(DeserializeError),
}

/// The caller's parses of the header style attributes of a table whose texts the library
/// does not read itself: the font size (after [`strip_pt`]), the colors, the padding and the
/// border width.
#[derive(Debug)]
pub struct HeaderStyleParses<N, C, P, W> {
    pub font_size: Option<Result<N, String>>,
    pub text_background: Option<Result<C, DeserializeError>>,
    pub text_padding: Option<Result<P, DeserializeError>>,
    pub font_color: Option<Result<C, DeserializeError>>,
    pub text_border_color: Option<Result<C, DeserializeError>>,
    pub text_border_width: Option<Result<W, DeserializeError>>,
}

/// Each parse is present exactly when its attribute is.
pub open spec fn header_parses_match<N, C, P, W>(a: Attrs, p: HeaderStyleParses<N, C, P, W>) -> bool {
    &&& (p.font_size is Some <==> a@.contains_key("header_font_size"@))
    &&& (p.text_background is Some <==> a@.contains_key("header_text_background"@))
    &&& (p.text_padding is Some <==> a@.contains_key("header_text_padding"@))
    &&& (p.font_color is Some <==> a@.contains_key("header_font_color"@))
    &&& (p.text_border_color is Some <==> a@.contains_key("header_text_border_color"@))
    &&& (p.text_border_width is Some <==> a@.contains_key("header_text_border_width"@))
}

/// The styling of a table's header row.
#[derive(Debug)]
pub struct TableHeaderStyle<N, C, P, W> {
    pub font_family: Option<String>,
    pub font_size: Option<N>,
    pub font_weight: Option<FontWeight>,
    pub font_style: Option<FontStyle>,
    pub text_decoration: Option<TextDecoration>,
    pub text_align: Option<TextAlign>,
    pub vertical_text_align: Option<VerticalTextAlign>,
    pub text_background: Option<C>,
    pub text_padding: Option<P>,
    pub font_color: Option<C>,
    pub text_border_color: Option<C>,
    pub text_border_width: Option<W>,
    pub text_border_style: Option<BorderStyle>,
}

/// The first of two possible errors.
pub open spec fn first_header_error(a: Option<StyleReadError>, b: Option<StyleReadError>) -> Option<StyleReadError> {
    if a is Some {
        a
    } else {
        b
    }
}

/// The library's own error, if any.
pub open spec fn read_error(e: Option<ReadErrorSpec>) -> Option<StyleReadError> {
    match e {
        Some(x) => Some(StyleReadError::Read(x)),
        None => None,
    }
}

/// The caller's error in a parse, if any.
pub open spec fn given_error<T>(p: Option<Result<T, DeserializeError>>) -> Option<StyleReadError> {
    match p {
        Some(Err(e)) => Some(StyleReadError::Given(e)),
        _ => None,
    }
}

/// The value of a parse, if it succeeded.
pub open spec fn given_value<T>(p: Option<Result<T, DeserializeError>>) -> Option<T> {
    match p {
        Some(Ok(v)) => Some(v),
        _ => None,
    }
}

/// The error of the header font size: `Invalid header_font_size value: ` and the parse's
/// message.
pub open spec fn spec_header_font_size_error<N>(p: Option<Result<N, String>>) -> Option<ReadErrorSpec> {
    match p {
        Some(Err(m)) => Some(ReadErrorSpec::Custom("Invalid header_font_size value: "@ + m@)),
        _ => None,
    }
}

/// The first error in the header style attributes of a table, in the order `font_size`,
/// `font_weight`, `font_style`, `text_decoration`, `text_align`, `vertical_text_align`,
/// `text_background`, `text_padding`, `font_color`, `text_border_color`,
/// `text_border_width`, `text_border_style` (each prefixed `header_`).
pub open spec fn spec_header_style_error<N, C, P, W>(a: Attrs, p: HeaderStyleParses<N, C, P, W>) -> Option<StyleReadError> {
    let e0 = read_error(spec_header_font_size_error(p.font_size));
    let e1 = first_header_error(e0, read_error(spec_choice_error(a, "header_font_weight"@, |t: Seq<char>| spec_font_weight_from_text(t), "Invalid font_weight: "@)));
    let e2 = first_header_error(e1, read_error(spec_choice_error(a, "header_font_style"@, |t: Seq<char>| spec_font_style_from_text(t), "Invalid font_style: "@)));
    let e3 = first_header_error(e2, read_error(spec_choice_error(a, "header_text_decoration"@, |t: Seq<char>| spec_text_decoration_from_text(t), "Invalid text_decoration: "@)));
    let e4 = first_header_error(e3, read_error(spec_choice_error(a, "header_text_align"@, |t: Seq<char>| spec_text_align_from_text(t), "Invalid text_align: "@)));
    let e5 = first_header_error(e4, read_error(spec_choice_error(a, "header_vertical_text_align"@, |t: Seq<char>| spec_vertical_text_align_from_text(t), "Invalid vertical_text_align: "@)));
    let e6 = first_header_error(e5, given_error(p.text_background));
    let e7 = first_header_error(e6, given_error(p.text_padding));
    let e8 = first_header_error(e7, given_error(p.font_color));
    let e9 = first_header_error(e8, given_error(p.text_border_color));
    let e10 = first_header_error(e9, given_error(p.text_border_width));
    first_header_error(e10, read_error(spec_choice_error(a, "header_text_border_style"@, |t: Seq<char>| spec_border_style_from_text(t), "Invalid header_text_border_style: "@)))
}

/// The header style read is that of the element.
pub open spec fn spec_header_style_read<N, C, P, W>(h: TableHeaderStyle<N, C, P, W>, a: Attrs, p: HeaderStyleParses<N, C, P, W>) -> bool {
    &&& opt_text(h.font_family) == spec_get(a@, "header_font_family"@)
    &&& h.font_size == match p.font_size {
        Some(Ok(n)) => Some(n),
        _ => None,
    }
    &&& h.font_weight == spec_choice(a, "header_font_weight"@, |t: Seq<char>| spec_font_weight_from_text(t))
    &&& h.font_style == spec_choice(a, "header_font_style"@, |t: Seq<char>| spec_font_style_from_text(t))
    &&& h.text_decoration == spec_choice(a, "header_text_decoration"@, |t: Seq<char>| spec_text_decoration_from_text(t))
    &&& h.text_align == spec_choice(a, "header_text_align"@, |t: Seq<char>| spec_text_align_from_text(t))
    &&& h.vertical_text_align == spec_choice(a, "header_vertical_text_align"@, |t: Seq<char>| spec_vertical_text_align_from_text(t))
    &&& h.text_background == given_value(p.text_background)
    &&& h.text_padding == given_value(p.text_padding)
    &&& h.font_color == given_value(p.font_color)
    &&& h.text_border_color == given_value(p.text_border_color)
    &&& h.text_border_width == given_value(p.text_border_width)
    &&& h.text_border_style == spec_choice(a, "header_text_border_style"@, |t: Seq<char>| spec_border_style_from_text(t))
}

fn given<T>(p: Option<Result<T, DeserializeError>>) -> (r: Result<Option<T>, DeserializeError>)
    ensures
        match p {
            None => r matches Ok(None),
            Some(Ok(v)) => r matches Ok(Some(w)) && w == v,
            Some(Err(e)) => r == Err::<Option<T>, DeserializeError>(e),
        },
{
    match p {
        None => Ok(None),
        Some(Ok(v)) => Ok(Some(v)),
        Some(Err(e)) => Err(e),
    }
}

/// Reads the styling of a table's header row, which follows the table's own attributes;
/// `parses` holds the caller's parses of the texts the library does not read itself.
pub fn table_header_style_from_attrs<N, C, P, W>(attrs: &Attrs, parses: HeaderStyleParses<N, C, P, W>) -> (r: Result<TableHeaderStyle<N, C, P, W>, DeserializeError>)
    requires
        header_parses_match(*attrs, parses),
    ensures
        match spec_header_style_error(*attrs, parses) {
            Some(StyleReadError::Read(e)) => r matches Err(x) && x.is_read_error(e),
            Some(StyleReadError::Given(e)) => r == Err::<TableHeaderStyle<N, C, P, W>, DeserializeError>(e),
            None => r matches Ok(h) && spec_header_style_read(h, *attrs, parses),
        },
{
    let HeaderStyleParses { font_size, text_background, text_padding, font_color, text_border_color, text_border_width } = parses;
    let font_family = attrs.get_opt_string("header_font_family");
    let font_size = match font_size {
        None => None,
        Some(Ok(n)) => Some(n),
        Some(Err(m)) => return Err(DeserializeError::custom_with("Invalid header_font_size value: ", m.as_str())),
    };
    let font_weight = match attrs.get_opt("header_font_weight") {
        None => None,
        Some(t) => match parse_font_weight(t) {
            Ok(v) => Some(v),
            Err(e) => return Err(e),
        },
    };
    let font_style = match attrs.get_opt("header_font_style") {
        None => None,
        Some(t) => match parse_font_style(t) {
            Ok(v) => Some(v),
            Err(e) => return Err(e),
        },
    };
    let text_decoration = match attrs.get_opt("header_text_decoration") {
        None => None,
        Some(t) => match parse_text_decoration(t) {
            Ok(v) => Some(v),
            Err(e) => return Err(e),
        },
    };
    let text_align = match attrs.get_opt("header_text_align") {
        None => None,
        Some(t) => match parse_text_align(t) {
            Ok(v) => Some(v),
            Err(e) => return Err(e),
        },
    };
    let vertical_text_align = match attrs.get_opt("header_vertical_text_align") {
        None => None,
        Some(t) => match parse_vertical_text_align(t) {
            Ok(v) => Some(v),
            Err(e) => return Err(e),
        },
    };
    let text_background = match given(text_background) {
        Ok(v) => v,
        Err(e) => return Err(e),
    };
    let text_padding = match given(text_padding) {
        Ok(v) => v,
        Err(e) => return Err(e),
    };
    let font_color = match given(font_color) {
        Ok(v) => v,
        Err(e) => return Err(e),
    };
    let text_border_color = match given(text_border_color) {
        Ok(v) => v,
        Err(e) => return Err(e),
    };
    let text_border_width = match given(text_border_width) {
        Ok(v) => v,
        Err(e) => return Err(e),
    };
    let text_border_style = match attrs.get_opt("header_text_border_style") {
        None => None,
        Some(t) => if str_eq(t, "none") {
            Some(BorderStyle::NoBorder)
        } else if str_eq(t, "solid") {
            Some(BorderStyle::Solid)
        } else {
            return Err(DeserializeError::custom_with("Invalid header_text_border_style: ", t));
        },
    };
    Ok(TableHeaderStyle {
        font_family,
        font_size,
        font_weight,
        font_style,
        text_decoration,
        text_align,
        vertical_text_align,
        text_background,
        text_padding,
        font_color,
        text_border_color,
        text_border_width,
        text_border_style,
    })
}

/// One column or row of a table, as read.
#[derive(Debug)]
pub struct TableItem<N> {
    pub item_type: TableItemType,
    pub entity_name: Option<String>,
    pub precision: Option<N>,
    pub delimit_000s: bool,
    pub column_width: Option<N>,
}

/// Reading the attributes of an `item` element of a table, in the order `type`,
/// `precision`, `delimit_000s`, `column_width`; the type is required, and thousands are not
/// delimited unless the item says so.
pub open spec fn spec_table_item_result<N>(a: Attrs, precision: Option<Result<N, String>>, column_width: Option<Result<N, String>>, r: Result<TableItem<N>, DeserializeError>) -> bool {
    match first(
        spec_choice_error(a, "type"@, |t: Seq<char>| spec_table_item_type_from_text(t), "Invalid table item type: "@),
        first(
            err_of(spec_parsed_attr(a, "precision"@, precision)),
            first(err_of(spec_bool_attr(a, "delimit_000s"@)), err_of(spec_parsed_attr(a, "column_width"@, column_width))),
        ),
    ) {
        Some(e) => r matches Err(x) && x.is_read_error(e),
        None => if !a@.contains_key("type"@) {
            r matches Err(x) && x.is_missing_field("type"@)
        } else {
            r matches Ok(i) && {
                &&& Some(i.item_type) == spec_choice(a, "type"@, |t: Seq<char>| spec_table_item_type_from_text(t))
                &&& opt_text(i.entity_name) == spec_get(a@, "entity_name"@)
                &&& i.precision == ok_of(spec_parsed_attr(a, "precision"@, precision))
                &&& i.delimit_000s == match ok_of(spec_bool_attr(a, "delimit_000s"@)) {
                    Some(b) => b,
                    None => false,
                }
                &&& i.column_width == ok_of(spec_parsed_attr(a, "column_width"@, column_width))
            }
        },
    }
}

/// Reads the attributes of an `item` element of a table.
pub fn table_item_from_attrs<N>(attrs: &Attrs, precision: Option<Result<N, String>>, column_width: Option<Result<N, String>>) -> (r: Result<TableItem<N>, DeserializeError>)
    requires
        outcome_matches(*attrs, "precision"@, precision),
        outcome_matches(*attrs, "column_width"@, column_width),
    ensures
        spec_table_item_result(*attrs, precision, column_width, r),
{
    let ghost p0 = precision;
    let ghost c0 = column_width;
    let item_type = match attrs.get_opt("type") {
        None => None,
        Some(t) => match parse_table_item_type(t) {
            Ok(v) => Some(v),
            Err(e) => return Err(e),
        },
    };
    let entity_name = attrs.get_opt_string("entity_name");
    let precision = match parsed_attr(attrs, "precision", precision) {
        Ok(v) => v,
        Err(e) => return Err(e),
    };
    let delimit_000s = match bool_attr(attrs, "delimit_000s") {
        Ok(v) => v,
        Err(e) => return Err(e),
    };
    let column_width = match parsed_attr(attrs, "column_width", column_width) {
        Ok(v) => v,
        Err(e) => return Err(e),
    };
    match item_type {
        Some(item_type) => Ok(TableItem {
            item_type,
            entity_name,
            precision,
            delimit_000s: match delimit_000s { Some(b) => b, None => false },
            column_width,
        }),
        None => Err(DeserializeError::MissingField(String::from_str("type"))),
    }
}

/// The caller's parses of the display attributes of an object whose texts the library
/// does not read itself: the colors, the font size (after [`strip_pt`] and trimming), the
/// padding and the border width.
#[derive(Debug)]
pub struct DisplayParses<N, C, P, W> {
    pub color: Option<Result<C, DeserializeError>>,
    pub background: Option<Result<C, DeserializeError>>,
    pub font_size: Option<Result<N, String>>,
    pub text_background: Option<Result<C, DeserializeError>>,
    pub text_padding: Option<Result<P, DeserializeError>>,
    pub font_color: Option<Result<C, DeserializeError>>,
    pub text_border_color: Option<Result<C, DeserializeError>>,
    pub text_border_width: Option<Result<W, DeserializeError>>,
    pub label_angle: Option<Result<N, String>>,
}

/// Each parse is present exactly when its attribute is.
pub open spec fn display_parses_match<N, C, P, W>(a: Attrs, p: DisplayParses<N, C, P, W>) -> bool {
    &&& (p.color is Some <==> a@.contains_key("color"@))
    &&& (p.background is Some <==> a@.contains_key("background"@))
    &&& (p.font_size is Some <==> a@.contains_key("font_size"@))
    &&& (p.text_background is Some <==> a@.contains_key("text_background"@))
    &&& (p.text_padding is Some <==> a@.contains_key("text_padding"@))
    &&& (p.font_color is Some <==> a@.contains_key("font_color"@))
    &&& (p.text_border_color is Some <==> a@.contains_key("text_border_color"@))
    &&& (p.text_border_width is Some <==> a@.contains_key("text_border_width"@))
    &&& (p.label_angle is Some <==> a@.contains_key("label_angle"@))
}

/// The display attributes of an object: colors, fonts, text alignment and borders, and
/// where its label stands.
#[derive(Debug)]
pub struct DisplayAttributes<N, C, P, W> {
    pub color: Option<C>,
    pub background: Option<C>,
    pub z_index: Option<i32>,
    pub font_family: Option<String>,
    pub font_size: Option<N>,
    pub font_weight: Option<FontWeight>,
    pub font_style: Option<FontStyle>,
    pub text_decoration: Option<TextDecoration>,
    pub text_align: Option<TextAlign>,
    pub text_background: Option<C>,
    pub vertical_text_align: Option<VerticalTextAlign>,
    pub text_padding: Option<P>,
    pub font_color: Option<C>,
    pub text_border_color: Option<C>,
    pub text_border_width: Option<W>,
    pub text_border_style: Option<BorderStyle>,
    pub label_side: Option<String>,
    pub label_angle: Option<N>,
}

/// The first error in the display attributes of an object, in the order they are listed
/// in [`DisplayAttributes`].
pub open spec fn spec_display_error<N, C, P, W>(a: Attrs, p: DisplayParses<N, C, P, W>) -> Option<StyleReadError> {
    let e0 = given_error(p.color);
    let e1 = first_header_error(e0, given_error(p.background));
    let e2 = first_header_error(e1, read_error(err_of(spec_i32_attr(a, "z_index"@))));
    let e3 = first_header_error(e2, read_error(match p.font_size { Some(Err(m)) => Some(ReadErrorSpec::Custom("Invalid font_size value: "@ + m@)), _ => None }));
    let e4 = first_header_error(e3, read_error(spec_choice_error(a, "font_weight"@, |t: Seq<char>| spec_font_weight_from_text(t), "Invalid font_weight: "@)));
    let e5 = first_header_error(e4, read_error(spec_choice_error(a, "font_style"@, |t: Seq<char>| spec_font_style_from_text(t), "Invalid font_style: "@)));
    let e6 = first_header_error(e5, read_error(spec_choice_error(a, "text_decoration"@, |t: Seq<char>| spec_text_decoration_from_text(t), "Invalid text_decoration: "@)));
    let e7 = first_header_error(e6, read_error(spec_choice_error(a, "text_align"@, |t: Seq<char>| spec_text_align_from_text(t), "Invalid text_align: "@)));
    let e8 = first_header_error(e7, given_error(p.text_background));
    let e9 = first_header_error(e8, read_error(spec_choice_error(a, "vertical_text_align"@, |t: Seq<char>| spec_vertical_text_align_from_text(t), "Invalid vertical_text_align: "@)));
    let e10 = first_header_error(e9, given_error(p.text_padding));
    let e11 = first_header_error(e10, given_error(p.font_color));
    let e12 = first_header_error(e11, given_error(p.text_border_color));
    let e13 = first_header_error(e12, given_error(p.text_border_width));
    let e14 = first_header_error(e13, read_error(spec_choice_error(a, "text_border_style"@, |t: Seq<char>| spec_border_style_from_text(t), "Invalid text_border_style: "@)));
    let e15 = first_header_error(e14, read_error(err_of(spec_parsed_attr(a, "label_angle"@, p.label_angle))));
    e15
}

/// The display attributes read are those of the element.
pub open spec fn spec_display_read<N, C, P, W>(d: DisplayAttributes<N, C, P, W>, a: Attrs, p: DisplayParses<N, C, P, W>) -> bool {
    &&& d.color == given_value(p.color)
    &&& d.background == given_value(p.background)
    &&& d.z_index == ok_of(spec_i32_attr(a, "z_index"@))
    &&& opt_text(d.font_family) == spec_get(a@, "font_family"@)
    &&& d.font_size == match p.font_size {
        Some(Ok(n)) => Some(n),
        _ => None,
    }
    &&& d.font_weight == spec_choice(a, "font_weight"@, |t: Seq<char>| spec_font_weight_from_text(t))
    &&& d.font_style == spec_choice(a, "font_style"@, |t: Seq<char>| spec_font_style_from_text(t))
    &&& d.text_decoration == spec_choice(a, "text_decoration"@, |t: Seq<char>| spec_text_decoration_from_text(t))
    &&& d.text_align == spec_choice(a, "text_align"@, |t: Seq<char>| spec_text_align_from_text(t))
    &&& d.text_background == given_value(p.text_background)
    &&& d.vertical_text_align == spec_choice(a, "vertical_text_align"@, |t: Seq<char>| spec_vertical_text_align_from_text(t))
    &&& d.text_padding == given_value(p.text_padding)
    &&& d.font_color == given_value(p.font_color)
    &&& d.text_border_color == given_value(p.text_border_color)
    &&& d.text_border_width == given_value(p.text_border_width)
    &&& d.text_border_style == spec_choice(a, "text_border_style"@, |t: Seq<char>| spec_border_style_from_text(t))
    &&& opt_text(d.label_side) == spec_get(a@, "label_side"@)
    &&& d.label_angle == ok_of(spec_parsed_attr(a, "label_angle"@, p.label_angle))
}

/// Reads the display attributes of an object; `parses` holds the caller's parses of the
/// texts the library does not read itself.
pub fn display_attrs_from_attrs<N, C, P, W>(attrs: &Attrs, parses: DisplayParses<N, C, P, W>) -> (r: Result<DisplayAttributes<N, C, P, W>, DeserializeError>)
    requires
        display_parses_match(*attrs, parses),
    ensures
        match spec_display_error(*attrs, parses) {
            Some(StyleReadError::Read(e)) => r matches Err(x) && x.is_read_error(e),
            Some(StyleReadError::Given(e)) => r == Err::<DisplayAttributes<N, C, P, W>, DeserializeError>(e),
            None => r matches Ok(d) && spec_display_read(d, *attrs, parses),
        },
{
    let DisplayParses { color, background, font_size, text_background, text_padding, font_color, text_border_color, text_border_width, label_angle } = parses;
    let color = match given(color) {
        Ok(v) => v,
        Err(e) => return Err(e),
    };
    let background = match given(background) {
        Ok(v) => v,
        Err(e) => return Err(e),
    };
    let z_index = match i32_attr(attrs, "z_index") {
        Ok(v) => v,
        Err(e) => return Err(e),
    };
    let font_family = attrs.get_opt_string("font_family");
    let font_size = match font_size {
        None => None,
        Some(Ok(n)) => Some(n),
        Some(Err(m)) => return Err(DeserializeError::custom_with("Invalid font_size value: ", m.as_str())),
    };
    let font_weight = match attrs.get_opt("font_weight") {
        None => None,
        Some(t) => match parse_font_weight(t) {
            Ok(v) => Some(v),
            Err(e) => return Err(e),
        },
    };
    let font_style = match attrs.get_opt("font_style") {
        None => None,
        Some(t) => match parse_font_style(t) {
            Ok(v) => Some(v),
            Err(e) => return Err(e),
        },
    };
    let text_decoration = match attrs.get_opt("text_decoration") {
        None => None,
        Some(t) => match parse_text_decoration(t) {
            Ok(v) => Some(v),
            Err(e) => return Err(e),
        },
    };
    let text_align = match attrs.get_opt("text_align") {
        None => None,
        Some(t) => match parse_text_align(t) {
            Ok(v) => Some(v),
            Err(e) => return Err(e),
        },
    };
    let text_background = match given(text_background) {
        Ok(v) => v,
        Err(e) => return Err(e),
    };
    let vertical_text_align = match attrs.get_opt("vertical_text_align") {
        None => None,
        Some(t) => match parse_vertical_text_align(t) {
            Ok(v) => Some(v),
            Err(e) => return Err(e),
        },
    };
    let text_padding = match given(text_padding) {
        Ok(v) => v,
        Err(e) => return Err(e),
    };
    let font_color = match given(font_color) {
        Ok(v) => v,
        Err(e) => return Err(e),
    };
    let text_border_color = match given(text_border_color) {
        Ok(v) => v,
        Err(e) => return Err(e),
    };
    let text_border_width = match given(text_border_width) {
        Ok(v) => v,
        Err(e) => return Err(e),
    };
    let text_border_style = match attrs.get_opt("text_border_style") {
        None => None,
        Some(t) => match parse_border_style(t) {
            Ok(v) => Some(v),
            Err(e) => return Err(e),
        },
    };
    let label_side = attrs.get_opt_string("label_side");
    let label_angle = match parsed_attr(attrs, "label_angle", label_angle) {
        Ok(v) => v,
        Err(e) => return Err(e),
    };
    Ok(DisplayAttributes { color, background, z_index, font_family, font_size, font_weight, font_style, text_decoration, text_align, text_background, vertical_text_align, text_padding, font_color, text_border_color, text_border_width, text_border_style, label_side, label_angle })
}

/// The attributes of a `connector` element that describe the connector itself, as read.
#[derive(Debug)]
pub struct ConnectorAttrs<N> {
    pub uid: Option<i32>,
    pub x: Option<N>,
    pub y: Option<N>,
    pub angle: Option<N>,
    pub line_style: Option<LineStyle>,
    pub delay_mark: Option<bool>,
    pub polarity: Option<Polarity>,
}

/// The first error in the attributes of a `connector` element, in the order `uid`, `x`,
/// `y`, `angle`, `delay_mark`, `polarity` (a line style of any text is accepted).
pub open spec fn spec_connector_attrs_error<N>(a: Attrs, x: Option<Result<N, String>>, y: Option<Result<N, String>>, angle: Option<Result<N, String>>) -> Option<ReadErrorSpec> {
    first(
        err_of(spec_i32_attr(a, "uid"@)),
        first(
            err_of(spec_parsed_attr(a, "x"@, x)),
            first(
                err_of(spec_parsed_attr(a, "y"@, y)),
                first(
                    err_of(spec_parsed_attr(a, "angle"@, angle)),
                    first(
                        err_of(spec_bool_attr(a, "delay_mark"@)),
                        spec_choice_error(a, "polarity"@, |t: Seq<char>| spec_polarity_from_text(t), "Invalid polarity: "@),
                    ),
                ),
            ),
        ),
    )
}

/// Reads the attributes of a `connector` element that describe the connector itself.
pub fn connector_attrs_from_attrs<N>(
    attrs: &Attrs,
    x: Option<Result<N, String>>,
    y: Option<Result<N, String>>,
    angle: Option<Result<N, String>>,
) -> (r: Result<ConnectorAttrs<N>, DeserializeError>)
    requires
        outcome_matches(*attrs, "x"@, x),
        outcome_matches(*attrs, "y"@, y),
        outcome_matches(*attrs, "angle"@, angle),
    ensures
        match spec_connector_attrs_error(*attrs, x, y, angle) {
            Some(e) => r matches Err(err) && err.is_read_error(e),
            None => r matches Ok(c) && {
                &&& c.uid == ok_of(spec_i32_attr(*attrs, "uid"@))
                &&& c.x == ok_of(spec_parsed_attr(*attrs, "x"@, x))
                &&& c.y == ok_of(spec_parsed_attr(*attrs, "y"@, y))
                &&& c.angle == ok_of(spec_parsed_attr(*attrs, "angle"@, angle))
                &&& match spec_get(attrs@, "line_style"@) {
                    None => c.line_style is None,
                    Some(t) => c.line_style matches Some(l) && spec_line_style_reads_as(t, l),
                }
                &&& c.delay_mark == ok_of(spec_bool_attr(*attrs, "delay_mark"@))
                &&& c.polarity == spec_choice(*attrs, "polarity"@, |t: Seq<char>| spec_polarity_from_text(t))
            },
        },
{
    let uid = match i32_attr(attrs, "uid") {
        Ok(v) => v,
        Err(e) => return Err(e),
    };
    let x = match parsed_attr(attrs, "x", x) {
        Ok(v) => v,
        Err(e) => return Err(e),
    };
    let y = match parsed_attr(attrs, "y", y) {
        Ok(v) => v,
        Err(e) => return Err(e),
    };
    let angle = match parsed_attr(attrs, "angle", angle) {
        Ok(v) => v,
        Err(e) => return Err(e),
    };
    let line_style = match attrs.get_opt("line_style") {
        None => None,
        Some(t) => match parse_line_style(t) {
            Ok(l) => Some(l),
            Err(e) => return Err(e),
        },
    };
    let delay_mark = match bool_attr(attrs, "delay_mark") {
        Ok(v) => v,
        Err(e) => return Err(e),
    };
    let polarity = match attrs.get_opt("polarity") {
        None => None,
        Some(t) => match parse_polarity(t) {
            Ok(p) => Some(p),
            Err(e) => return Err(e),
        },
    };
    Ok(ConnectorAttrs { uid, x, y, angle, line_style, delay_mark, polarity })
}

/// A point a connector's line passes through.
#[derive(Debug, Clone, PartialEq)]
pub struct Point<N> {
    pub x: N,
    pub y: N,
}

/// Reads the attributes of a `pt` element: a point needs both coordinates, and one without
/// both is passed over. Errors in `x` come first.
pub fn point_from_attrs<N>(attrs: &Attrs, x: Option<Result<N, String>>, y: Option<Result<N, String>>) -> (r: Result<Option<Point<N>>, DeserializeError>)
    requires
        outcome_matches(*attrs, "x"@, x),
        outcome_matches(*attrs, "y"@, y),
    ensures
        match first(err_of(spec_parsed_attr(*attrs, "x"@, x)), err_of(spec_parsed_attr(*attrs, "y"@, y))) {
            Some(e) => r matches Err(err) && err.is_read_error(e),
            None => r matches Ok(p) && p == match (ok_of(spec_parsed_attr(*attrs, "x"@, x)), ok_of(spec_parsed_attr(*attrs, "y"@, y))) {
                (Some(a), Some(b)) => Some((Point { x: a, y: b })),
                _ => None,
            },
        },
{
    let px = match parsed_attr(attrs, "x", x) {
        Ok(v) => v,
        Err(e) => return Err(e),
    };
    let py = match parsed_attr(attrs, "y", y) {
        Ok(v) => v,
        Err(e) => return Err(e),
    };
    match (px, py) {
        (Some(a), Some(b)) => Ok(Some(Point { x: a, y: b })),
        _ => Ok(None),
    }
}

/// One child element of a connector, as the reader found it.
#[derive(Debug)]
pub enum ConnectorChild<N> {
    /// The `from` end.
    From(Pointer),
    /// The `to` end.
    To(Pointer),
    /// A `pt` element inside `pts`, with the point it gave, if any.
    Point(Option<Point<N>>),
    /// Any other element, which is passed over.
    Other,
}

/// What has been read so far of a connector's children.
#[derive(Debug)]
pub struct ConnectorParts<N> {
    pub from: Option<Pointer>,
    pub to: Option<Pointer>,
    pub pts: Vec<Point<N>>,
}

/// A connector's parts after one more child: the later end of each kind wins and the points
/// are kept in document order.
pub open spec fn spec_connector_child_step<N>(a: ConnectorParts<N>, c: ConnectorChild<N>, b: ConnectorParts<N>) -> bool {
    match c {
        ConnectorChild::From(p) => b.from == Some(p) && b.to == a.to && b.pts@ == a.pts@,
        ConnectorChild::To(p) => b.from == a.from && b.to == Some(p) && b.pts@ == a.pts@,
        ConnectorChild::Point(Some(p)) => b.from == a.from && b.to == a.to && b.pts@ == a.pts@.push(p),
        _ => b.from == a.from && b.to == a.to && b.pts@ == a.pts@,
    }
}

/// Nothing of a connector's children read yet.
pub fn empty_connector_parts<N>() -> (p: ConnectorParts<N>)
    ensures
        p.from is None,
        p.to is None,
        p.pts@.len() == 0,
{
    ConnectorParts { from: None, to: None, pts: Vec::new() }
}

/// Folds one child element of a `connector` element into what has been read of it.
pub fn connector_child_step<N>(parts: &mut ConnectorParts<N>, child: ConnectorChild<N>)
    ensures
        spec_connector_child_step(*old(parts), child, *final(parts)),
{
    match child {
        ConnectorChild::From(p) => parts.from = Some(p),
        ConnectorChild::To(p) => parts.to = Some(p),
        ConnectorChild::Point(Some(p)) => parts.pts.push(p),
        _ => {},
    }
}

/// A connector as read.
#[derive(Debug)]
pub struct ConnectorObject<N> {
    pub uid: Uid,
    pub x: N,
    pub y: N,
    pub angle: N,
    pub line_style: Option<LineStyle>,
    pub delay_mark: bool,
    pub polarity: Option<Polarity>,
    pub from: Pointer,
    pub to: Pointer,
    pub pts: Vec<Point<N>>,
}

/// The field a connector misses, if any, in the order `uid`, `x`, `y`, `angle`, `from`,
/// `to`.
pub open spec fn spec_connector_missing<N>(a: ConnectorAttrs<N>, p: ConnectorParts<N>) -> Option<Seq<char>> {
    if a.uid is None {
        Some("uid"@)
    } else if a.x is None {
        Some("x"@)
    } else if a.y is None {
        Some("y"@)
    } else if a.angle is None {
        Some("angle"@)
    } else if p.from is None {
        Some("from"@)
    } else if p.to is None {
        Some("to"@)
    } else {
        None
    }
}

/// Ends the reading of a connector: a connector has no delay mark unless it says so.
pub fn finish_connector<N>(a: ConnectorAttrs<N>, parts: ConnectorParts<N>) -> (r: Result<ConnectorObject<N>, DeserializeError>)
    ensures
        match spec_connector_missing(a, parts) {
            Some(f) => r matches Err(e) && e.is_missing_field(f),
            None => r matches Ok(c) && {
                &&& c.uid == (Uid { value: a.uid->0 })
                &&& c.x == a.x->0
                &&& c.y == a.y->0
                &&& c.angle == a.angle->0
                &&& c.line_style == a.line_style
                &&& c.delay_mark == match a.delay_mark {
                    Some(d) => d,
                    None => false,
                }
                &&& c.polarity == a.polarity
                &&& c.from == parts.from->0
                &&& c.to == parts.to->0
                &&& c.pts@ == parts.pts@
            },
        },
{
    let ConnectorAttrs { uid, x, y, angle, line_style, delay_mark, polarity } = a;
    let ConnectorParts { from, to, pts } = parts;
    let uid = match uid {
        Some(u) => u,
        None => return Err(DeserializeError::MissingField(String::from_str("uid"))),
    };
    let x = match x {
        Some(v) => v,
        None => return Err(DeserializeError::MissingField(String::from_str("x"))),
    };
    let y = match y {
        Some(v) => v,
        None => return Err(DeserializeError::MissingField(String::from_str("y"))),
    };
    let angle = match angle {
        Some(v) => v,
        None => return Err(DeserializeError::MissingField(String::from_str("angle"))),
    };
    let from = match from {
        Some(v) => v,
        None => return Err(DeserializeError::MissingField(String::from_str("from"))),
    };
    let to = match to {
        Some(v) => v,
        None => return Err(DeserializeError::MissingField(String::from_str("to"))),
    };
    Ok(ConnectorObject {
        uid: Uid::new(uid),
        x,
        y,
        angle,
        line_style,
        delay_mark: match delay_mark { Some(d) => d, None => false },
        polarity,
        from,
        to,
        pts,
    })
}

} // verus!
