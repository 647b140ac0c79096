//! Reading a `view` element: the attributes of the view itself, and the step that files
//! each display object read inside it into the list of its kind.
//!
//! Sizes, zoom and scroll positions are numbers of the type `N` chosen by the caller, which
//! parses their text.

use vstd::prelude::*;
use vstd::string::*;
use crate::actions::ReadErrorSpec;
use crate::de::{spec_get, Attrs, DeserializeError};
use crate::model::{AliasObject, DiagramView, NamedObject, Uid, ViewObject};
use crate::text::{is_first_index_of, lemma_parse_int_text, parse_int, spec_parse_int, str_eq};
use crate::de::{lemma_absent_key_unset, lemma_attribute_read_back, lemma_bool_attribute_round_trip, lemma_push_opt_get, pairs_map};
use crate::variables::{
    bool_attr, i32_attr, outcome_matches, parsed_attr, spec_bool_attr, spec_i32_attr, spec_parsed_attr,
    spec_u32_attr, u32_attr,
};
use crate::ser::{spec_bool_text, tag, AttrList, EventKind, EventView, XmlEmitter};
use crate::serialize::opt_str;
use crate::style::{push_opt_attr, serialize_style, spec_after_style, Style};
use crate::variable_events::opt_number_text;
use crate::text::spec_int_text;
use crate::view::{
    lemma_page_orientation_round_trip, lemma_page_orientation_texts, lemma_page_sequence_texts, lemma_page_sequence_round_trip, lemma_view_type_round_trip,
    serialize_page_orientation, serialize_page_sequence, serialize_view_type, spec_page_orientation_text,
    spec_page_sequence_text, spec_view_type_text,
    parse_page_orientation, parse_page_sequence, parse_view_type, spec_is_standard_view_type_text,
    spec_page_orientation_from_text, spec_page_sequence_from_text, spec_view_type_reads_as, PageOrientation,
    PageSequence, ViewType,
};

verus! {

/// The attributes of a `view` element, as read.
#[derive(Debug)]
pub struct ViewAttrs<N> {
    pub uid: Option<i32>,
    pub view_type: Option<ViewType>,
    pub order: Option<u32>,
    pub width: Option<N>,
    pub height: Option<N>,
    pub zoom: Option<N>,
    pub scroll_x: Option<N>,
    pub scroll_y: Option<N>,
    pub background: Option<String>,
    pub page_width: Option<N>,
    pub page_height: Option<N>,
    pub page_sequence: Option<PageSequence>,
    pub page_orientation: Option<PageOrientation>,
    pub show_pages: Option<bool>,
    pub home_page: Option<u32>,
    pub home_view: Option<bool>,
}

/// The parses, by the caller, of the numeric attributes of a `view` element.
#[derive(Debug)]
pub struct ViewNumbers<N> {
    pub width: Option<Result<N, String>>,
    pub height: Option<Result<N, String>>,
    pub zoom: Option<Result<N, String>>,
    pub scroll_x: Option<Result<N, String>>,
    pub scroll_y: Option<Result<N, String>>,
    pub page_width: Option<Result<N, String>>,
    pub page_height: Option<Result<N, String>>,
}

/// Each parse is present exactly when its attribute is.
pub open spec fn view_numbers_match<N>(a: Attrs, n: ViewNumbers<N>) -> bool {
    &&& outcome_matches(a, "width"@, n.width)
    &&& outcome_matches(a, "height"@, n.height)
    &&& outcome_matches(a, "zoom"@, n.zoom)
    &&& outcome_matches(a, "scroll_x"@, n.scroll_x)
    &&& outcome_matches(a, "scroll_y"@, n.scroll_y)
    &&& outcome_matches(a, "page_width"@, n.page_width)
    &&& outcome_matches(a, "page_height"@, n.page_height)
}

/// The error of a reading, if it failed.
pub open spec fn err_of<T>(r: Result<T, ReadErrorSpec>) -> Option<ReadErrorSpec> {
    match r {
        Ok(_) => None,
        Err(e) => Some(e),
    }
}

/// The first of two possible errors.
pub open spec fn first(a: Option<ReadErrorSpec>, b: Option<ReadErrorSpec>) -> Option<ReadErrorSpec> {
    if a is Some {
        a
    } else {
        b
    }
}

/// The error of the `type` attribute: neither a standard type nor `vendor:type`.
pub open spec fn spec_view_type_error(a: Attrs) -> Option<ReadErrorSpec> {
    match spec_get(a@, "type"@) {
        Some(t) => if !spec_is_standard_view_type_text(t) && !t.contains(':') {
            Some(ReadErrorSpec::Custom("Invalid view type: "@ + t))
        } else {
            None
        },
        None => None,
    }
}

/// The error of the `page_sequence` attribute, which must be `row` or `column`.
pub open spec fn spec_page_sequence_error(a: Attrs) -> Option<ReadErrorSpec> {
    match spec_get(a@, "page_sequence"@) {
        Some(t) => if spec_page_sequence_from_text(t) is None {
            Some(ReadErrorSpec::Custom("Invalid page_sequence: "@ + t))
        } else {
            None
        },
        None => None,
    }
}

/// The error of the `page_orientation` attribute, which must be `landscape` or `portrait`.
pub open spec fn spec_page_orientation_error(a: Attrs) -> Option<ReadErrorSpec> {
    match spec_get(a@, "page_orientation"@) {
        Some(t) => if spec_page_orientation_from_text(t) is None {
            Some(ReadErrorSpec::Custom("Invalid page_orientation: "@ + t))
        } else {
            None
        },
        None => None,
    }
}

/// The first error in the attributes of a `view` element, taken in the order `uid`, `type`,
/// `order`, `width`, `height`, `zoom`, `scroll_x`, `scroll_y`, `page_width`, `page_height`,
/// `page_sequence`, `page_orientation`, `show_pages`, `home_page`, `home_view`.
pub open spec fn spec_view_attrs_error<N>(a: Attrs, n: ViewNumbers<N>) -> Option<ReadErrorSpec> {
    first(spec_view_attrs_error_head(a, n), first(spec_view_attrs_error_middle(a, n), spec_view_attrs_error_tail(a)))
}

/// The first error among `uid`, `type`, `order`, `width` and `height`.
pub open spec fn spec_view_attrs_error_head<N>(a: Attrs, n: ViewNumbers<N>) -> Option<ReadErrorSpec> {
    first(
        err_of(spec_i32_attr(a, "uid"@)),
        first(
            spec_view_type_error(a),
            first(
                err_of(spec_u32_attr(a, "order"@)),
                first(err_of(spec_parsed_attr(a, "width"@, n.width)), err_of(spec_parsed_attr(a, "height"@, n.height))),
            ),
        ),
    )
}

/// The first error among `zoom`, `scroll_x`, `scroll_y`, `page_width` and `page_height`.
pub open spec fn spec_view_attrs_error_middle<N>(a: Attrs, n: ViewNumbers<N>) -> Option<ReadErrorSpec> {
    first(
        err_of(spec_parsed_attr(a, "zoom"@, n.zoom)),
        first(
            err_of(spec_parsed_attr(a, "scroll_x"@, n.scroll_x)),
            first(
                err_of(spec_parsed_attr(a, "scroll_y"@, n.scroll_y)),
                first(
                    err_of(spec_parsed_attr(a, "page_width"@, n.page_width)),
                    err_of(spec_parsed_attr(a, "page_height"@, n.page_height)),
                ),
            ),
        ),
    )
}

/// The first error among `page_sequence`, `page_orientation`, `show_pages`, `home_page` and
/// `home_view`.
pub open spec fn spec_view_attrs_error_tail(a: Attrs) -> Option<ReadErrorSpec> {
    first(
        spec_page_sequence_error(a),
        first(
            spec_page_orientation_error(a),
            first(
                err_of(spec_bool_attr(a, "show_pages"@)),
                first(err_of(spec_u32_attr(a, "home_page"@)), err_of(spec_bool_attr(a, "home_view"@))),
            ),
        ),
    )
}

/// The value a reading gave, if it succeeded.
pub open spec fn ok_of<T>(r: Result<Option<T>, ReadErrorSpec>) -> Option<T> {
    match r {
        Ok(v) => v,
        Err(_) => None,
    }
}

/// The attributes read are those of the element: every attribute that is absent is `None`,
/// and every one present is its value, with `type` read as [`spec_view_type_reads_as`]
/// says.
pub open spec fn spec_view_attrs_read<N>(v: ViewAttrs<N>, a: Attrs, n: ViewNumbers<N>) -> bool {
    &&& v.uid == ok_of(spec_i32_attr(a, "uid"@))
    &&& match spec_get(a@, "type"@) {
        None => v.view_type is None,
        Some(t) => v.view_type matches Some(vt) && spec_view_type_reads_as(t, vt),
    }
    &&& v.order == ok_of(spec_u32_attr(a, "order"@))
    &&& v.width == ok_of(spec_parsed_attr(a, "width"@, n.width))
    &&& v.height == ok_of(spec_parsed_attr(a, "height"@, n.height))
    &&& v.zoom == ok_of(spec_parsed_attr(a, "zoom"@, n.zoom))
    &&& v.scroll_x == ok_of(spec_parsed_attr(a, "scroll_x"@, n.scroll_x))
    &&& v.scroll_y == ok_of(spec_parsed_attr(a, "scroll_y"@, n.scroll_y))
    &&& match v.background {
        Some(b) => spec_get(a@, "background"@) == Some(b@),
        None => spec_get(a@, "background"@) is None,
    }
    &&& v.page_width == ok_of(spec_parsed_attr(a, "page_width"@, n.page_width))
    &&& v.page_height == ok_of(spec_parsed_attr(a, "page_height"@, n.page_height))
    &&& v.page_sequence == match spec_get(a@, "page_sequence"@) {
        Some(t) => spec_page_sequence_from_text(t),
        None => None,
    }
    &&& v.page_orientation == match spec_get(a@, "page_orientation"@) {
        Some(t) => spec_page_orientation_from_text(t),
        None => None,
    }
    &&& v.show_pages == ok_of(spec_bool_attr(a, "show_pages"@))
    &&& v.home_page == ok_of(spec_u32_attr(a, "home_page"@))
    &&& v.home_view == ok_of(spec_bool_attr(a, "home_view"@))
}

/// Reads the attributes of a `view` element; `numbers` holds the parses of its numeric
/// attributes' texts.
pub fn view_attrs_from_attrs<N>(attrs: &Attrs, numbers: ViewNumbers<N>) -> (r: Result<ViewAttrs<N>, DeserializeError>)
    requires
        view_numbers_match(*attrs, numbers),
    ensures
        match spec_view_attrs_error(*attrs, numbers) {
            Some(e) => r matches Err(x) && x.is_read_error(e),
            None => r matches Ok(v) && spec_view_attrs_read(v, *attrs, numbers),
        },
{
    let ghost n0 = numbers;
    let uid = match i32_attr(attrs, "uid") {
        Ok(v) => v,
        Err(e) => return Err(e),
    };
    let view_type = match attrs.get_opt("type") {
        None => None,
        Some(t) => match parse_view_type(t) {
            Ok(v) => Some(v),
            Err(e) => return Err(e),
        },
    };
    let order = match u32_attr(attrs, "order") {
        Ok(v) => v,
        Err(e) => return Err(e),
    };
    let ViewNumbers { width, height, zoom, scroll_x, scroll_y, page_width, page_height } = numbers;
    let width = match parsed_attr(attrs, "width", width) {
        Ok(v) => v,
        Err(e) => return Err(e),
    };
    let height = match parsed_attr(attrs, "height", height) {
        Ok(v) => v,
        Err(e) => return Err(e),
    };
    let zoom = match parsed_attr(attrs, "zoom", zoom) {
        Ok(v) => v,
        Err(e) => return Err(e),
    };
    let scroll_x = match parsed_attr(attrs, "scroll_x", scroll_x) {
        Ok(v) => v,
        Err(e) => return Err(e),
    };
    let scroll_y = match parsed_attr(attrs, "scroll_y", scroll_y) {
        Ok(v) => v,
        Err(e) => return Err(e),
    };
    let background = attrs.get_opt_string("background");
    let page_width = match parsed_attr(attrs, "page_width", page_width) {
        Ok(v) => v,
        Err(e) => return Err(e),
    };
    let page_height = match parsed_attr(attrs, "page_height", page_height) {
        Ok(v) => v,
        Err(e) => return Err(e),
    };
    let page_sequence = match attrs.get_opt("page_sequence") {
        None => None,
        Some(t) => match parse_page_sequence(t) {
            Ok(v) => Some(v),
            Err(e) => return Err(e),
        },
    };
    let page_orientation = match attrs.get_opt("page_orientation") {
        None => None,
        Some(t) => match parse_page_orientation(t) {
            Ok(v) => Some(v),
            Err(e) => return Err(e),
        },
    };
    let show_pages = match bool_attr(attrs, "show_pages") {
        Ok(v) => v,
        Err(e) => return Err(e),
    };
    let home_page = match u32_attr(attrs, "home_page") {
        Ok(v) => v,
        Err(e) => return Err(e),
    };
    let home_view = match bool_attr(attrs, "home_view") {
        Ok(v) => v,
        Err(e) => return Err(e),
    };
    Ok(ViewAttrs {
        uid,
        view_type,
        order,
        width,
        height,
        zoom,
        scroll_x,
        scroll_y,
        background,
        page_width,
        page_height,
        page_sequence,
        page_orientation,
        show_pages,
        home_page,
        home_view,
    })
}

/// The header of a view: its attributes with their defaults applied.
#[derive(Debug)]
pub struct ViewHeader<N> {
    pub uid: Uid,
    pub view_type: ViewType,
    pub order: Option<u32>,
    pub width: N,
    pub height: N,
    pub zoom: Option<N>,
    pub scroll_x: Option<N>,
    pub scroll_y: Option<N>,
    pub background: Option<String>,
    pub page_width: N,
    pub page_height: N,
    pub page_sequence: PageSequence,
    pub page_orientation: PageOrientation,
    pub show_pages: bool,
    pub home_page: u32,
    pub home_view: bool,
}

/// The field a view misses, if any, in the order `uid` (when it is required), `width`,
/// `height`, `page_width`, `page_height`.
pub open spec fn spec_view_missing<N>(a: ViewAttrs<N>, uid_required: bool) -> Option<Seq<char>> {
    if uid_required && a.uid is None {
        Some("uid"@)
    } else if a.width is None {
        Some("width"@)
    } else if a.height is None {
        Some("height"@)
    } else if a.page_width is None {
        Some("page_width"@)
    } else if a.page_height is None {
        Some("page_height"@)
    } else {
        None
    }
}

/// The header made from the attributes read: a missing `uid` is 0, a missing type is
/// stock-and-flow, pages run by row in landscape, pages are not shown, the home page is 0
/// and the view is not the home view.
pub open spec fn spec_view_header<N>(a: ViewAttrs<N>) -> ViewHeader<N> {
    ViewHeader {
        uid: Uid { value: match a.uid { Some(u) => u, None => 0 } },
        view_type: match a.view_type { Some(t) => t, None => ViewType::StockFlow },
        order: a.order,
        width: a.width->0,
        height: a.height->0,
        zoom: a.zoom,
        scroll_x: a.scroll_x,
        scroll_y: a.scroll_y,
        background: a.background,
        page_width: a.page_width->0,
        page_height: a.page_height->0,
        page_sequence: match a.page_sequence { Some(p) => p, None => PageSequence::Row },
        page_orientation: match a.page_orientation { Some(p) => p, None => PageOrientation::Landscape },
        show_pages: match a.show_pages { Some(b) => b, None => false },
        home_page: match a.home_page { Some(p) => p, None => 0 },
        home_view: match a.home_view { Some(b) => b, None => false },
    }
}

/// Ends the reading of a view's header once its children are read: the sizes are required,
/// and so is the UID when `uid_required`.
pub fn finish_view_header<N>(a: ViewAttrs<N>, uid_required: bool) -> (r: Result<ViewHeader<N>, DeserializeError>)
    ensures
        match spec_view_missing(a, uid_required) {
            Some(f) => r matches Err(e) && e.is_missing_field(f),
            None => r matches Ok(h) && h == spec_view_header(a),
        },
{
    if uid_required && a.uid.is_none() {
        return Err(DeserializeError::MissingField(String::from_str("uid")));
    }
    let ViewAttrs {
        uid,
        view_type,
        order,
        width,
        height,
        zoom,
        scroll_x,
        scroll_y,
        background,
        page_width,
        page_height,
        page_sequence,
        page_orientation,
        show_pages,
        home_page,
        home_view,
    } = a;
    let width = match width {
        Some(w) => w,
        None => return Err(DeserializeError::MissingField(String::from_str("width"))),
    };
    let height = match height {
        Some(h) => h,
        None => return Err(DeserializeError::MissingField(String::from_str("height"))),
    };
    let page_width = match page_width {
        Some(w) => w,
        None => return Err(DeserializeError::MissingField(String::from_str("page_width"))),
    };
    let page_height = match page_height {
        Some(h) => h,
        None => return Err(DeserializeError::MissingField(String::from_str("page_height"))),
    };
    Ok(ViewHeader {
        uid: Uid::new(match uid { Some(u) => u, None => 0 }),
        view_type: match view_type { Some(t) => t, None => ViewType::StockFlow },
        order,
        width,
        height,
        zoom,
        scroll_x,
        scroll_y,
        background,
        page_width,
        page_height,
        page_sequence: match page_sequence { Some(p) => p, None => PageSequence::Row },
        page_orientation: match page_orientation { Some(p) => p, None => PageOrientation::Landscape },
        show_pages: match show_pages { Some(b) => b, None => false },
        home_page: match home_page { Some(p) => p, None => 0 },
        home_view: match home_view { Some(b) => b, None => false },
    })
}

/// One display object read inside a view, by kind; `Other` is an element that is passed
/// over.
#[derive(Debug)]
pub enum ViewChild {
    Stock(NamedObject),
    Flow(NamedObject),
    Aux(NamedObject),
    Module(NamedObject),
    Group(NamedObject),
    Connector(ViewObject),
    Alias(AliasObject),
    StackedContainer(ViewObject),
    Slider(ViewObject),
    Knob(ViewObject),
    Switch(ViewObject),
    Options(ViewObject),
    NumericInput(ViewObject),
    ListInput(ViewObject),
    GraphicalInput(ViewObject),
    NumericDisplay(ViewObject),
    Lamp(ViewObject),
    Gauge(ViewObject),
    Graph(ViewObject),
    Table(ViewObject),
    TextBox(ViewObject),
    GraphicsFrame(ViewObject),
    Button(ViewObject),
    Other,
}

/// The view holds no display object.
pub open spec fn spec_view_is_empty(v: DiagramView) -> bool {
    &&& v.stocks@.len() == 0
    &&& v.flows@.len() == 0
    &&& v.auxes@.len() == 0
    &&& v.modules@.len() == 0
    &&& v.groups@.len() == 0
    &&& v.connectors@.len() == 0
    &&& v.aliases@.len() == 0
    &&& v.stacked_containers@.len() == 0
    &&& v.sliders@.len() == 0
    &&& v.knobs@.len() == 0
    &&& v.switches@.len() == 0
    &&& v.options@.len() == 0
    &&& v.numeric_inputs@.len() == 0
    &&& v.list_inputs@.len() == 0
    &&& v.graphical_inputs@.len() == 0
    &&& v.numeric_displays@.len() == 0
    &&& v.lamps@.len() == 0
    &&& v.gauges@.len() == 0
    &&& v.graphs@.len() == 0
    &&& v.tables@.len() == 0
    &&& v.text_boxes@.len() == 0
    &&& v.graphics_frames@.len() == 0
    &&& v.buttons@.len() == 0
}

/// A view with the given UID and no display objects, ready to receive them.
pub fn empty_diagram_view(uid: Uid) -> (v: DiagramView)
    ensures
        v.uid == uid,
        spec_view_is_empty(v),
{
    DiagramView {
        uid,
        stocks: Vec::new(),
        flows: Vec::new(),
        auxes: Vec::new(),
        modules: Vec::new(),
        groups: Vec::new(),
        connectors: Vec::new(),
        aliases: Vec::new(),
        stacked_containers: Vec::new(),
        sliders: Vec::new(),
        knobs: Vec::new(),
        switches: Vec::new(),
        options: Vec::new(),
        numeric_inputs: Vec::new(),
        list_inputs: Vec::new(),
        graphical_inputs: Vec::new(),
        numeric_displays: Vec::new(),
        lamps: Vec::new(),
        gauges: Vec::new(),
        graphs: Vec::new(),
        tables: Vec::new(),
        text_boxes: Vec::new(),
        graphics_frames: Vec::new(),
        buttons: Vec::new(),
    }
}

/// Every list of `b` but the one `c` goes to is the same as in `a`, and so is the UID.
pub open spec fn same_lists_except(a: DiagramView, b: DiagramView, c: ViewChild) -> bool {
    &&& a.uid == b.uid
    &&& !(c is Stock) ==> a.stocks@ == b.stocks@
    &&& !(c is Flow) ==> a.flows@ == b.flows@
    &&& !(c is Aux) ==> a.auxes@ == b.auxes@
    &&& !(c is Module) ==> a.modules@ == b.modules@
    &&& !(c is Group) ==> a.groups@ == b.groups@
    &&& !(c is Connector) ==> a.connectors@ == b.connectors@
    &&& !(c is Alias) ==> a.aliases@ == b.aliases@
    &&& !(c is StackedContainer) ==> a.stacked_containers@ == b.stacked_containers@
    &&& !(c is Slider) ==> a.sliders@ == b.sliders@
    &&& !(c is Knob) ==> a.knobs@ == b.knobs@
    &&& !(c is Switch) ==> a.switches@ == b.switches@
    &&& !(c is Options) ==> a.options@ == b.options@
    &&& !(c is NumericInput) ==> a.numeric_inputs@ == b.numeric_inputs@
    &&& !(c is ListInput) ==> a.list_inputs@ == b.list_inputs@
    &&& !(c is GraphicalInput) ==> a.graphical_inputs@ == b.graphical_inputs@
    &&& !(c is NumericDisplay) ==> a.numeric_displays@ == b.numeric_displays@
    &&& !(c is Lamp) ==> a.lamps@ == b.lamps@
    &&& !(c is Gauge) ==> a.gauges@ == b.gauges@
    &&& !(c is Graph) ==> a.graphs@ == b.graphs@
    &&& !(c is Table) ==> a.tables@ == b.tables@
    &&& !(c is TextBox) ==> a.text_boxes@ == b.text_boxes@
    &&& !(c is GraphicsFrame) ==> a.graphics_frames@ == b.graphics_frames@
    &&& !(c is Button) ==> a.buttons@ == b.buttons@
}

/// The view after reading `c`: the object is added at the end of the list of its kind, so
/// each list keeps document order, and nothing else changes.
pub open spec fn spec_view_child_step(a: DiagramView, c: ViewChild, b: DiagramView) -> bool {
    &&& same_lists_except(a, b, c)
    &&& match c {
        ViewChild::Stock(o) => b.stocks@ == a.stocks@.push(o),
        ViewChild::Flow(o) => b.flows@ == a.flows@.push(o),
        ViewChild::Aux(o) => b.auxes@ == a.auxes@.push(o),
        ViewChild::Module(o) => b.modules@ == a.modules@.push(o),
        ViewChild::Group(o) => b.groups@ == a.groups@.push(o),
        ViewChild::Connector(o) => b.connectors@ == a.connectors@.push(o),
        ViewChild::Alias(o) => b.aliases@ == a.aliases@.push(o),
        ViewChild::StackedContainer(o) => b.stacked_containers@ == a.stacked_containers@.push(o),
        ViewChild::Slider(o) => b.sliders@ == a.sliders@.push(o),
        ViewChild::Knob(o) => b.knobs@ == a.knobs@.push(o),
        ViewChild::Switch(o) => b.switches@ == a.switches@.push(o),
        ViewChild::Options(o) => b.options@ == a.options@.push(o),
        ViewChild::NumericInput(o) => b.numeric_inputs@ == a.numeric_inputs@.push(o),
        ViewChild::ListInput(o) => b.list_inputs@ == a.list_inputs@.push(o),
        ViewChild::GraphicalInput(o) => b.graphical_inputs@ == a.graphical_inputs@.push(o),
        ViewChild::NumericDisplay(o) => b.numeric_displays@ == a.numeric_displays@.push(o),
        ViewChild::Lamp(o) => b.lamps@ == a.lamps@.push(o),
        ViewChild::Gauge(o) => b.gauges@ == a.gauges@.push(o),
        ViewChild::Graph(o) => b.graphs@ == a.graphs@.push(o),
        ViewChild::Table(o) => b.tables@ == a.tables@.push(o),
        ViewChild::TextBox(o) => b.text_boxes@ == a.text_boxes@.push(o),
        ViewChild::GraphicsFrame(o) => b.graphics_frames@ == a.graphics_frames@.push(o),
        ViewChild::Button(o) => b.buttons@ == a.buttons@.push(o),
        ViewChild::Other => true,
    }
}

/// Files one display object read inside a view into the list of its kind.
pub fn view_child_step(view: &mut DiagramView, child: ViewChild)
    ensures
        spec_view_child_step(*old(view), child, *final(view)),
{
    match child {
        ViewChild::Stock(o) => view.stocks.push(o),
        ViewChild::Flow(o) => view.flows.push(o),
        ViewChild::Aux(o) => view.auxes.push(o),
        ViewChild::Module(o) => view.modules.push(o),
        ViewChild::Group(o) => view.groups.push(o),
        ViewChild::Connector(o) => view.connectors.push(o),
        ViewChild::Alias(o) => view.aliases.push(o),
        ViewChild::StackedContainer(o) => view.stacked_containers.push(o),
        ViewChild::Slider(o) => view.sliders.push(o),
        ViewChild::Knob(o) => view.knobs.push(o),
        ViewChild::Switch(o) => view.switches.push(o),
        ViewChild::Options(o) => view.options.push(o),
        ViewChild::NumericInput(o) => view.numeric_inputs.push(o),
        ViewChild::ListInput(o) => view.list_inputs.push(o),
        ViewChild::GraphicalInput(o) => view.graphical_inputs.push(o),
        ViewChild::NumericDisplay(o) => view.numeric_displays.push(o),
        ViewChild::Lamp(o) => view.lamps.push(o),
        ViewChild::Gauge(o) => view.gauges.push(o),
        ViewChild::Graph(o) => view.graphs.push(o),
        ViewChild::Table(o) => view.tables.push(o),
        ViewChild::TextBox(o) => view.text_boxes.push(o),
        ViewChild::GraphicsFrame(o) => view.graphics_frames.push(o),
        ViewChild::Button(o) => view.buttons.push(o),
        ViewChild::Other => {},
    }
}

/// The list a display object read inside a view goes to, numbered in the order of the
/// lists of [`DiagramView`]; an element passed over goes to none (the number after the last).
pub open spec fn spec_child_kind(c: ViewChild) -> int {
    match c {
        ViewChild::Stock(_) => 0,
        ViewChild::Flow(_) => 1,
        ViewChild::Aux(_) => 2,
        ViewChild::Module(_) => 3,
        ViewChild::Group(_) => 4,
        ViewChild::Connector(_) => 5,
        ViewChild::Alias(_) => 6,
        ViewChild::StackedContainer(_) => 7,
        ViewChild::Slider(_) => 8,
        ViewChild::Knob(_) => 9,
        ViewChild::Switch(_) => 10,
        ViewChild::Options(_) => 11,
        ViewChild::NumericInput(_) => 12,
        ViewChild::ListInput(_) => 13,
        ViewChild::GraphicalInput(_) => 14,
        ViewChild::NumericDisplay(_) => 15,
        ViewChild::Lamp(_) => 16,
        ViewChild::Gauge(_) => 17,
        ViewChild::Graph(_) => 18,
        ViewChild::Table(_) => 19,
        ViewChild::TextBox(_) => 20,
        ViewChild::GraphicsFrame(_) => 21,
        ViewChild::Button(_) => 22,
        ViewChild::Other => 23,
    }
}

/// The display object `c` goes to list `k`.
pub open spec fn spec_goes_to(c: ViewChild, k: int) -> bool {
    !(c is Other) && spec_child_kind(c) == k
}

/// The UID of a display object read inside a view.
pub open spec fn spec_child_uid(c: ViewChild) -> Uid {
    match c {
        ViewChild::Stock(o) => o.uid,
        ViewChild::Flow(o) => o.uid,
        ViewChild::Aux(o) => o.uid,
        ViewChild::Module(o) => o.uid,
        ViewChild::Group(o) => o.uid,
        ViewChild::Connector(o) => o.uid,
        ViewChild::Alias(o) => o.uid,
        ViewChild::StackedContainer(o) => o.uid,
        ViewChild::Slider(o) => o.uid,
        ViewChild::Knob(o) => o.uid,
        ViewChild::Switch(o) => o.uid,
        ViewChild::Options(o) => o.uid,
        ViewChild::NumericInput(o) => o.uid,
        ViewChild::ListInput(o) => o.uid,
        ViewChild::GraphicalInput(o) => o.uid,
        ViewChild::NumericDisplay(o) => o.uid,
        ViewChild::Lamp(o) => o.uid,
        ViewChild::Gauge(o) => o.uid,
        ViewChild::Graph(o) => o.uid,
        ViewChild::Table(o) => o.uid,
        ViewChild::TextBox(o) => o.uid,
        ViewChild::GraphicsFrame(o) => o.uid,
        ViewChild::Button(o) => o.uid,
        ViewChild::Other => Uid { value: 0 },
    }
}

/// The UIDs held by list `k` of a view, in order.
pub open spec fn spec_list_uids(v: DiagramView, k: int) -> Seq<Uid> {
    if k == 0 {
        v.stocks@.map_values(|o: NamedObject| o.uid)
    } else if k == 1 {
        v.flows@.map_values(|o: NamedObject| o.uid)
    } else if k == 2 {
        v.auxes@.map_values(|o: NamedObject| o.uid)
    } else if k == 3 {
        v.modules@.map_values(|o: NamedObject| o.uid)
    } else if k == 4 {
        v.groups@.map_values(|o: NamedObject| o.uid)
    } else if k == 5 {
        v.connectors@.map_values(|o: ViewObject| o.uid)
    } else if k == 6 {
        v.aliases@.map_values(|o: AliasObject| o.uid)
    } else if k == 7 {
        v.stacked_containers@.map_values(|o: ViewObject| o.uid)
    } else if k == 8 {
        v.sliders@.map_values(|o: ViewObject| o.uid)
    } else if k == 9 {
        v.knobs@.map_values(|o: ViewObject| o.uid)
    } else if k == 10 {
        v.switches@.map_values(|o: ViewObject| o.uid)
    } else if k == 11 {
        v.options@.map_values(|o: ViewObject| o.uid)
    } else if k == 12 {
        v.numeric_inputs@.map_values(|o: ViewObject| o.uid)
    } else if k == 13 {
        v.list_inputs@.map_values(|o: ViewObject| o.uid)
    } else if k == 14 {
        v.graphical_inputs@.map_values(|o: ViewObject| o.uid)
    } else if k == 15 {
        v.numeric_displays@.map_values(|o: ViewObject| o.uid)
    } else if k == 16 {
        v.lamps@.map_values(|o: ViewObject| o.uid)
    } else if k == 17 {
        v.gauges@.map_values(|o: ViewObject| o.uid)
    } else if k == 18 {
        v.graphs@.map_values(|o: ViewObject| o.uid)
    } else if k == 19 {
        v.tables@.map_values(|o: ViewObject| o.uid)
    } else if k == 20 {
        v.text_boxes@.map_values(|o: ViewObject| o.uid)
    } else if k == 21 {
        v.graphics_frames@.map_values(|o: ViewObject| o.uid)
    } else if k == 22 {
        v.buttons@.map_values(|o: ViewObject| o.uid)
    } else {
        Seq::empty()
    }
}

/// The UIDs of the display objects among `cs` that go to list `k`, in order.
pub open spec fn spec_uids_of_kind(cs: Seq<ViewChild>, k: int) -> Seq<Uid>
    decreases cs.len(),
{
    if cs.len() == 0 {
        Seq::empty()
    } else {
        let rest = spec_uids_of_kind(cs.drop_last(), k);
        if spec_goes_to(cs.last(), k) {
            rest.push(spec_child_uid(cs.last()))
        } else {
            rest
        }
    }
}

/// One step adds the object's UID at the end of the list of its kind, and leaves the
/// other lists as they were.
pub proof fn lemma_view_child_step_uids(a: DiagramView, c: ViewChild, b: DiagramView, k: int)
    requires
        spec_view_child_step(a, c, b),
    ensures
        spec_list_uids(b, k) == if spec_goes_to(c, k) {
            spec_list_uids(a, k).push(spec_child_uid(c))
        } else {
            spec_list_uids(a, k)
        },
{
    if spec_goes_to(c, k) {
        match c {
            ViewChild::Stock(o) => {
                assert(b.stocks@ == a.stocks@.push(o));
                assert(spec_list_uids(b, k) =~= spec_list_uids(a, k).push(o.uid));
            },
            ViewChild::Flow(o) => {
                assert(b.flows@ == a.flows@.push(o));
                assert(spec_list_uids(b, k) =~= spec_list_uids(a, k).push(o.uid));
            },
            ViewChild::Aux(o) => {
                assert(b.auxes@ == a.auxes@.push(o));
                assert(spec_list_uids(b, k) =~= spec_list_uids(a, k).push(o.uid));
            },
            ViewChild::Module(o) => {
                assert(b.modules@ == a.modules@.push(o));
                assert(spec_list_uids(b, k) =~= spec_list_uids(a, k).push(o.uid));
            },
            ViewChild::Group(o) => {
                assert(b.groups@ == a.groups@.push(o));
                assert(spec_list_uids(b, k) =~= spec_list_uids(a, k).push(o.uid));
            },
            ViewChild::Connector(o) => {
                assert(b.connectors@ == a.connectors@.push(o));
                assert(spec_list_uids(b, k) =~= spec_list_uids(a, k).push(o.uid));
            },
            ViewChild::Alias(o) => {
                assert(b.aliases@ == a.aliases@.push(o));
                assert(spec_list_uids(b, k) =~= spec_list_uids(a, k).push(o.uid));
            },
            ViewChild::StackedContainer(o) => {
                assert(b.stacked_containers@ == a.stacked_containers@.push(o));
                assert(spec_list_uids(b, k) =~= spec_list_uids(a, k).push(o.uid));
            },
            ViewChild::Slider(o) => {
                assert(b.sliders@ == a.sliders@.push(o));
                assert(spec_list_uids(b, k) =~= spec_list_uids(a, k).push(o.uid));
            },
            ViewChild::Knob(o) => {
                assert(b.knobs@ == a.knobs@.push(o));
                assert(spec_list_uids(b, k) =~= spec_list_uids(a, k).push(o.uid));
            },
            ViewChild::Switch(o) => {
                assert(b.switches@ == a.switches@.push(o));
                assert(spec_list_uids(b, k) =~= spec_list_uids(a, k).push(o.uid));
            },
            ViewChild::Options(o) => {
                assert(b.options@ == a.options@.push(o));
                assert(spec_list_uids(b, k) =~= spec_list_uids(a, k).push(o.uid));
            },
            ViewChild::NumericInput(o) => {
                assert(b.numeric_inputs@ == a.numeric_inputs@.push(o));
                assert(spec_list_uids(b, k) =~= spec_list_uids(a, k).push(o.uid));
            },
            ViewChild::ListInput(o) => {
                assert(b.list_inputs@ == a.list_inputs@.push(o));
                assert(spec_list_uids(b, k) =~= spec_list_uids(a, k).push(o.uid));
            },
            ViewChild::GraphicalInput(o) => {
                assert(b.graphical_inputs@ == a.graphical_inputs@.push(o));
                assert(spec_list_uids(b, k) =~= spec_list_uids(a, k).push(o.uid));
            },
            ViewChild::NumericDisplay(o) => {
                assert(b.numeric_displays@ == a.numeric_displays@.push(o));
                assert(spec_list_uids(b, k) =~= spec_list_uids(a, k).push(o.uid));
            },
            ViewChild::Lamp(o) => {
                assert(b.lamps@ == a.lamps@.push(o));
                assert(spec_list_uids(b, k) =~= spec_list_uids(a, k).push(o.uid));
            },
            ViewChild::Gauge(o) => {
                assert(b.gauges@ == a.gauges@.push(o));
                assert(spec_list_uids(b, k) =~= spec_list_uids(a, k).push(o.uid));
            },
            ViewChild::Graph(o) => {
                assert(b.graphs@ == a.graphs@.push(o));
                assert(spec_list_uids(b, k) =~= spec_list_uids(a, k).push(o.uid));
            },
            ViewChild::Table(o) => {
                assert(b.tables@ == a.tables@.push(o));
                assert(spec_list_uids(b, k) =~= spec_list_uids(a, k).push(o.uid));
            },
            ViewChild::TextBox(o) => {
                assert(b.text_boxes@ == a.text_boxes@.push(o));
                assert(spec_list_uids(b, k) =~= spec_list_uids(a, k).push(o.uid));
            },
            ViewChild::GraphicsFrame(o) => {
                assert(b.graphics_frames@ == a.graphics_frames@.push(o));
                assert(spec_list_uids(b, k) =~= spec_list_uids(a, k).push(o.uid));
            },
            ViewChild::Button(o) => {
                assert(b.buttons@ == a.buttons@.push(o));
                assert(spec_list_uids(b, k) =~= spec_list_uids(a, k).push(o.uid));
            },
            ViewChild::Other => {},
        }
    } else {
        if k == 0 {
            assert(a.stocks@ == b.stocks@);
        } else if k == 1 {
            assert(a.flows@ == b.flows@);
        } else if k == 2 {
            assert(a.auxes@ == b.auxes@);
        } else if k == 3 {
            assert(a.modules@ == b.modules@);
        } else if k == 4 {
            assert(a.groups@ == b.groups@);
        } else if k == 5 {
            assert(a.connectors@ == b.connectors@);
        } else if k == 6 {
            assert(a.aliases@ == b.aliases@);
        } else if k == 7 {
            assert(a.stacked_containers@ == b.stacked_containers@);
        } else if k == 8 {
            assert(a.sliders@ == b.sliders@);
        } else if k == 9 {
            assert(a.knobs@ == b.knobs@);
        } else if k == 10 {
            assert(a.switches@ == b.switches@);
        } else if k == 11 {
            assert(a.options@ == b.options@);
        } else if k == 12 {
            assert(a.numeric_inputs@ == b.numeric_inputs@);
        } else if k == 13 {
            assert(a.list_inputs@ == b.list_inputs@);
        } else if k == 14 {
            assert(a.graphical_inputs@ == b.graphical_inputs@);
        } else if k == 15 {
            assert(a.numeric_displays@ == b.numeric_displays@);
        } else if k == 16 {
            assert(a.lamps@ == b.lamps@);
        } else if k == 17 {
            assert(a.gauges@ == b.gauges@);
        } else if k == 18 {
            assert(a.graphs@ == b.graphs@);
        } else if k == 19 {
            assert(a.tables@ == b.tables@);
        } else if k == 20 {
            assert(a.text_boxes@ == b.text_boxes@);
        } else if k == 21 {
            assert(a.graphics_frames@ == b.graphics_frames@);
        } else if k == 22 {
            assert(a.buttons@ == b.buttons@);
        }
    }
}

/// Files a run of display objects read inside a view, in document order.
pub fn view_children_step(view: &mut DiagramView, children: Vec<ViewChild>)
    ensures
        final(view).uid == old(view).uid,
        forall|k: int| #[trigger] spec_list_uids(*final(view), k) == spec_list_uids(*old(view), k) + spec_uids_of_kind(children@, k),
{
    let ghost all = children@;
    let n: usize = children.len();
    let mut rest = children;
    let mut i: usize = 0;
    while rest.len() > 0
        invariant
            i + rest@.len() == all.len(),
            all.len() == n,
            rest@ == all.skip(i as int),
            view.uid == old(view).uid,
            forall|k: int| #[trigger] spec_list_uids(*view, k) == spec_list_uids(*old(view), k) + spec_uids_of_kind(all.take(i as int), k),
        decreases rest@.len(),
    {
        let ghost before = *view;
        let c = rest.remove(0);
        assert(c == all[i as int]);
        view_child_step(view, c);
        proof {
            let pre = all.take(i as int);
            let now = all.take(i as int + 1);
            assert(now.drop_last() =~= pre);
            assert(now.last() == c);
            assert forall|k: int| #[trigger] spec_list_uids(*view, k) == spec_list_uids(*old(view), k) + spec_uids_of_kind(now, k) by {
                lemma_view_child_step_uids(before, c, *view, k);
                if spec_goes_to(c, k) {
                    assert(spec_list_uids(*old(view), k) + spec_uids_of_kind(pre, k).push(spec_child_uid(c)) =~= (spec_list_uids(*old(view), k) + spec_uids_of_kind(pre, k)).push(spec_child_uid(c)));
                }
            }
            assert(rest@ =~= all.skip(i as int + 1));
        }
        i = i + 1;
    }
    proof {
        assert(all.take(i as int) =~= all);
    }
}

/// The numeric attributes of a `view` element, whose texts the caller parses.
pub open spec fn is_view_number_key(key: Seq<char>) -> bool {
    key == "width"@ || key == "height"@ || key == "zoom"@ || key == "scroll_x"@ || key == "scroll_y"@ || key == "page_width"@ || key == "page_height"@
}

/// An integer attribute of a view read from its raw text, refused with `Invalid key: ` and
/// the parse error's message.
pub open spec fn spec_raw_int(key: Seq<char>, value: Seq<char>, signed: bool, min: int, max: int) -> Result<int, ReadErrorSpec> {
    match spec_parse_int(value, signed, min, max) {
        Ok(v) => Ok(v),
        Err(e) => Err(ReadErrorSpec::Custom("Invalid "@ + key + ": "@ + e.spec_message())),
    }
}

/// The view's attributes after reading one more raw attribute `key` with text `value`,
/// for every key but `type` (see [`view_attr_step`]); `number` is the caller's parse of a
/// numeric attribute's text. Unknown keys are passed over, and `show_pages` and `home_view`
/// are true exactly when their text is `true`.
pub open spec fn spec_view_attr_step<N>(acc: ViewAttrs<N>, key: Seq<char>, value: String, number: Option<Result<N, String>>) -> Result<ViewAttrs<N>, ReadErrorSpec> {
    if key == "uid"@ {
        match spec_raw_int(key, value@, true, i32::MIN as int, i32::MAX as int) {
            Ok(v) => Ok(ViewAttrs { uid: Some(v as i32), ..acc }),
            Err(e) => Err(e),
        }
    } else if key == "order"@ {
        match spec_raw_int(key, value@, false, 0, u32::MAX as int) {
            Ok(v) => Ok(ViewAttrs { order: Some(v as u32), ..acc }),
            Err(e) => Err(e),
        }
    } else if key == "home_page"@ {
        match spec_raw_int(key, value@, false, 0, u32::MAX as int) {
            Ok(v) => Ok(ViewAttrs { home_page: Some(v as u32), ..acc }),
            Err(e) => Err(e),
        }
    } else if is_view_number_key(key) {
        match number {
            Some(Err(m)) => Err(ReadErrorSpec::Custom("Invalid "@ + key + ": "@ + m@)),
            Some(Ok(n)) => Ok(
                if key == "width"@ {
                    ViewAttrs { width: Some(n), ..acc }
                } else if key == "height"@ {
                    ViewAttrs { height: Some(n), ..acc }
                } else if key == "zoom"@ {
                    ViewAttrs { zoom: Some(n), ..acc }
                } else if key == "scroll_x"@ {
                    ViewAttrs { scroll_x: Some(n), ..acc }
                } else if key == "scroll_y"@ {
                    ViewAttrs { scroll_y: Some(n), ..acc }
                } else if key == "page_width"@ {
                    ViewAttrs { page_width: Some(n), ..acc }
                } else if key == "page_height"@ {
                    ViewAttrs { page_height: Some(n), ..acc }
                } else {
                    acc
                }
            ),
            None => Ok(acc),
        }
    } else if key == "background"@ {
        Ok(ViewAttrs { background: Some(value), ..acc })
    } else if key == "page_sequence"@ {
        match spec_page_sequence_from_text(value@) {
            Some(p) => Ok(ViewAttrs { page_sequence: Some(p), ..acc }),
            None => Err(ReadErrorSpec::Custom("Invalid page_sequence: "@ + value@)),
        }
    } else if key == "page_orientation"@ {
        match spec_page_orientation_from_text(value@) {
            Some(p) => Ok(ViewAttrs { page_orientation: Some(p), ..acc }),
            None => Err(ReadErrorSpec::Custom("Invalid page_orientation: "@ + value@)),
        }
    } else if key == "show_pages"@ {
        Ok(ViewAttrs { show_pages: Some(value@ == "true"@), ..acc })
    } else if key == "home_view"@ {
        Ok(ViewAttrs { home_view: Some(value@ == "true"@), ..acc })
    } else {
        Ok(acc)
    }
}

/// Whether `key` names a numeric attribute of a view, whose text the caller parses.
pub fn is_view_number_key_text(key: &str) -> (r: bool)
    ensures
        r == is_view_number_key(key@),
{
    str_eq(key, "width") || str_eq(key, "height") || str_eq(key, "zoom") || str_eq(key, "scroll_x") || str_eq(key, "scroll_y") || str_eq(key, "page_width") || str_eq(key, "page_height")
}

fn raw_int_attr(key: &str, value: &str, signed: bool, min: i64, max: i64) -> (r: Result<i64, DeserializeError>)
    requires
        -0x1_0000_0000 <= min <= 0 <= max <= 0x1_0000_0000,
    ensures
        match spec_raw_int(key@, value@, signed, min as int, max as int) {
            Ok(v) => r matches Ok(w) && w as int == v,
            Err(e) => r matches Err(x) && x.is_read_error(e),
        },
{
    match parse_int(value, signed, min, max) {
        Ok(v) => Ok(v),
        Err(e) => {
            let mut m = String::from_str("Invalid ");
            m.append(key);
            m.append(": ");
            m.append(e.message());
            Err(DeserializeError::Custom(m))
        },
    }
}

/// Reads one more raw attribute of a view, in document order (a later one for the same
/// key wins): the case of a view whose start tag was read by another reader, which hands
/// over the raw attributes. `number` is the caller's parse of a numeric attribute's text.
pub fn view_attr_step<N>(acc: ViewAttrs<N>, key: &str, value: String, number: Option<Result<N, String>>) -> (r: Result<ViewAttrs<N>, DeserializeError>)
    requires
        number is Some <==> is_view_number_key(key@),
    ensures
        key@ != "type"@ ==> match spec_view_attr_step(acc, key@, value, number) {
            Ok(v) => r matches Ok(w) && w == v,
            Err(e) => r matches Err(x) && x.is_read_error(e),
        },
        key@ == "type"@ ==> {
            &&& r is Err <==> (!spec_is_standard_view_type_text(value@) && !value@.contains(':'))
            &&& r matches Err(x) ==> x.is_custom("Invalid view type: "@ + value@)
            &&& r matches Ok(w) ==> w.view_type matches Some(t) && spec_view_type_reads_as(value@, t)
                && w == (ViewAttrs { view_type: w.view_type, ..acc })
        },
{
    proof {
        reveal_strlit("type");
        reveal_strlit("uid");
        reveal_strlit("order");
        reveal_strlit("home_page");
    }
    let mut acc = acc;
    if str_eq(key, "uid") {
        match raw_int_attr(key, value.as_str(), true, i32::MIN as i64, i32::MAX as i64) {
            Ok(v) => acc.uid = Some(v as i32),
            Err(e) => return Err(e),
        }
    } else if str_eq(key, "order") {
        match raw_int_attr(key, value.as_str(), false, 0, u32::MAX as i64) {
            Ok(v) => acc.order = Some(v as u32),
            Err(e) => return Err(e),
        }
    } else if str_eq(key, "home_page") {
        match raw_int_attr(key, value.as_str(), false, 0, u32::MAX as i64) {
            Ok(v) => acc.home_page = Some(v as u32),
            Err(e) => return Err(e),
        }
    } else if str_eq(key, "type") {
        match parse_view_type(value.as_str()) {
            Ok(t) => acc.view_type = Some(t),
            Err(e) => return Err(e),
        }
    } else if
        str_eq(key, "width") || str_eq(key, "height") || str_eq(key, "zoom") || str_eq(key, "scroll_x") || str_eq(key, "scroll_y") || str_eq(key, "page_width") || str_eq(key, "page_height") {
        match number {
            Some(Ok(n)) => {
                if str_eq(key, "width") {
                    acc.width = Some(n);
                } else if str_eq(key, "height") {
                    acc.height = Some(n);
                } else if str_eq(key, "zoom") {
                    acc.zoom = Some(n);
                } else if str_eq(key, "scroll_x") {
                    acc.scroll_x = Some(n);
                } else if str_eq(key, "scroll_y") {
                    acc.scroll_y = Some(n);
                } else if str_eq(key, "page_width") {
                    acc.page_width = Some(n);
                } else if str_eq(key, "page_height") {
                    acc.page_height = Some(n);
                }
            },
            Some(Err(m)) => {
                let mut msg = String::from_str("Invalid ");
                msg.append(key);
                msg.append(": ");
                msg.append(m.as_str());
                return Err(DeserializeError::Custom(msg));
            },
            None => {},
        }
    } else if str_eq(key, "background") {
        acc.background = Some(value);
    } else if str_eq(key, "page_sequence") {
        match parse_page_sequence(value.as_str()) {
            Ok(p) => acc.page_sequence = Some(p),
            Err(e) => return Err(e),
        }
    } else if str_eq(key, "page_orientation") {
        match parse_page_orientation(value.as_str()) {
            Ok(p) => acc.page_orientation = Some(p),
            Err(e) => return Err(e),
        }
    } else if str_eq(key, "show_pages") {
        acc.show_pages = Some(str_eq(value.as_str(), "true"));
    } else if str_eq(key, "home_view") {
        acc.home_view = Some(str_eq(value.as_str(), "true"));
    }
    Ok(acc)
}

/// The text of a display object that names something: a variable's name, or what an
/// alias stands for; empty for the other objects.
pub open spec fn spec_child_name(c: ViewChild) -> Seq<char> {
    match c {
        ViewChild::Stock(o) => o.name@,
        ViewChild::Flow(o) => o.name@,
        ViewChild::Aux(o) => o.name@,
        ViewChild::Module(o) => o.name@,
        ViewChild::Group(o) => o.name@,
        ViewChild::Alias(o) => o.of@,
        _ => Seq::empty(),
    }
}

/// The list an element named `tag` inside a view goes to (the number after the last for
/// an element that is passed over). A view read after its start tag by another reader keeps
/// only stocks and modules.
pub open spec fn spec_tag_kind(tag: Seq<char>, after_start: bool) -> int {
    if after_start {
        if tag == "stock"@ {
            0
        } else if tag == "module"@ {
            3
        } else {
            23
        }
    }
    else if tag == "stock"@ {
        0
    }
    else if tag == "flow"@ {
        1
    }
    else if tag == "aux"@ {
        2
    }
    else if tag == "module"@ {
        3
    }
    else if tag == "group"@ {
        4
    }
    else if tag == "connector"@ {
        5
    }
    else if tag == "alias"@ {
        6
    }
    else if tag == "stacked_container"@ {
        7
    }
    else if tag == "slider"@ {
        8
    }
    else if tag == "knob"@ {
        9
    }
    else if tag == "switch"@ {
        10
    }
    else if tag == "options"@ {
        11
    }
    else if tag == "numeric_input"@ {
        12
    }
    else if tag == "list_input"@ {
        13
    }
    else if tag == "graphical_input"@ {
        14
    }
    else if tag == "numeric_display"@ {
        15
    }
    else if tag == "lamp"@ {
        16
    }
    else if tag == "gauge"@ {
        17
    }
    else if tag == "graph"@ {
        18
    }
    else if tag == "table"@ {
        19
    }
    else if tag == "text_box"@ {
        20
    }
    else if tag == "graphics_frame"@ {
        21
    }
    else if tag == "button"@ {
        22
    }
    else {
        23
    }
}

/// The display objects whose reader needs a name: the variables' objects, and list inputs.
pub open spec fn spec_kind_needs_name(k: int) -> bool {
    0 <= k <= 4 || k == 13
}

/// What reading an element named `tag` inside a view gives, as far as the view keeps it:
/// the object's kind, its UID and its name (or, for an alias, what it stands for). A UID
/// that is not a number is refused. A view read on its own requires the UID, the name of
/// the objects that name a variable (and of list inputs) and what an alias stands for; one
/// read after its start tag by another reader takes a missing UID as 0 and a missing name
/// as empty. Any other element is passed over.
pub open spec fn spec_view_child(tag: Seq<char>, a: Attrs, after_start: bool, r: Result<ViewChild, DeserializeError>) -> bool {
    let k = spec_tag_kind(tag, after_start);
    if k == 23 {
        r matches Ok(ViewChild::Other)
    } else {
        match spec_i32_attr(a, "uid"@) {
            Err(e) => r matches Err(x) && x.is_read_error(e),
            Ok(uid) => if !after_start && uid is None {
                r matches Err(x) && x.is_missing_field("uid"@)
            } else if !after_start && spec_kind_needs_name(k) && !a@.contains_key("name"@) {
                r matches Err(x) && x.is_missing_field("name"@)
            } else if !after_start && k == 6 && !a@.contains_key("of"@) {
                r matches Err(x) && x.is_missing_field("of"@)
            } else {
                r matches Ok(c) && {
                    &&& !(c is Other)
                    &&& spec_child_kind(c) == k
                    &&& spec_child_uid(c).value == match uid {
                        Some(u) => u,
                        None => 0,
                    }
                    &&& spec_child_name(c) == if k == 6 {
                        match spec_get(a@, "of"@) {
                            Some(t) => t,
                            None => Seq::empty(),
                        }
                    } else if k <= 4 {
                        match spec_get(a@, "name"@) {
                            Some(t) => t,
                            None => Seq::empty(),
                        }
                    } else {
                        Seq::empty()
                    }
                }
            },
        }
    }
}

/// Whether an element named `tag` inside a view is a display object the view keeps, so
/// that its attributes are read; any other element is passed over unread.
pub fn is_view_object_tag(tag: &str, after_start: bool) -> (r: bool)
    ensures
        r == (spec_tag_kind(tag@, after_start) != 23),
{
    tag_kind(tag, after_start) != 23
}

/// The list an element named `tag` inside a view goes to, as [`spec_tag_kind`] numbers it.
pub fn tag_kind(tag: &str, after_start: bool) -> (k: u32)
    ensures
        k == spec_tag_kind(tag@, after_start),
{
    if after_start {
        if str_eq(tag, "stock") {
            0
        } else if str_eq(tag, "module") {
            3
        } else {
            23
        }
    }
    else if str_eq(tag, "stock") {
        0
    }
    else if str_eq(tag, "flow") {
        1
    }
    else if str_eq(tag, "aux") {
        2
    }
    else if str_eq(tag, "module") {
        3
    }
    else if str_eq(tag, "group") {
        4
    }
    else if str_eq(tag, "connector") {
        5
    }
    else if str_eq(tag, "alias") {
        6
    }
    else if str_eq(tag, "stacked_container") {
        7
    }
    else if str_eq(tag, "slider") {
        8
    }
    else if str_eq(tag, "knob") {
        9
    }
    else if str_eq(tag, "switch") {
        10
    }
    else if str_eq(tag, "options") {
        11
    }
    else if str_eq(tag, "numeric_input") {
        12
    }
    else if str_eq(tag, "list_input") {
        13
    }
    else if str_eq(tag, "graphical_input") {
        14
    }
    else if str_eq(tag, "numeric_display") {
        15
    }
    else if str_eq(tag, "lamp") {
        16
    }
    else if str_eq(tag, "gauge") {
        17
    }
    else if str_eq(tag, "graph") {
        18
    }
    else if str_eq(tag, "table") {
        19
    }
    else if str_eq(tag, "text_box") {
        20
    }
    else if str_eq(tag, "graphics_frame") {
        21
    }
    else if str_eq(tag, "button") {
        22
    }
    else {
        23
    }
}

fn text_or_empty(a: &Attrs, key: &str) -> (r: String)
    ensures
        r@ == match spec_get(a@, key@) {
            Some(t) => t,
            None => Seq::<char>::empty(),
        },
{
    match a.get_opt_string(key) {
        Some(t) => t,
        None => String::new(),
    }
}

/// Reads the display object an element named `tag` inside a view stands for, from the
/// attributes of its start tag; `after_start` is whether the view's start tag was read by
/// another reader.
pub fn view_child_from_tag(tag: &str, attrs: &Attrs, after_start: bool) -> (r: Result<ViewChild, DeserializeError>)
    ensures
        spec_view_child(tag@, *attrs, after_start, r),
{
    let k = tag_kind(tag, after_start);
    if k == 23 {
        return Ok(ViewChild::Other);
    }
    let uid = match i32_attr(attrs, "uid") {
        Ok(v) => v,
        Err(e) => return Err(e),
    };
    if !after_start && uid.is_none() {
        return Err(DeserializeError::MissingField(String::from_str("uid")));
    }
    if !after_start && (k <= 4 || k == 13) && !attrs.has("name") {
        return Err(DeserializeError::MissingField(String::from_str("name")));
    }
    if !after_start && k == 6 && !attrs.has("of") {
        return Err(DeserializeError::MissingField(String::from_str("of")));
    }
    let uid = Uid::new(match uid {
        Some(u) => u,
        None => 0,
    });
    let child = match k {
        0 => ViewChild::Stock(NamedObject { uid, name: text_or_empty(attrs, "name") }),
        1 => ViewChild::Flow(NamedObject { uid, name: text_or_empty(attrs, "name") }),
        2 => ViewChild::Aux(NamedObject { uid, name: text_or_empty(attrs, "name") }),
        3 => ViewChild::Module(NamedObject { uid, name: text_or_empty(attrs, "name") }),
        4 => ViewChild::Group(NamedObject { uid, name: text_or_empty(attrs, "name") }),
        5 => ViewChild::Connector(ViewObject { uid }),
        6 => ViewChild::Alias(AliasObject { uid, of: text_or_empty(attrs, "of") }),
        7 => ViewChild::StackedContainer(ViewObject { uid }),
        8 => ViewChild::Slider(ViewObject { uid }),
        9 => ViewChild::Knob(ViewObject { uid }),
        10 => ViewChild::Switch(ViewObject { uid }),
        11 => ViewChild::Options(ViewObject { uid }),
        12 => ViewChild::NumericInput(ViewObject { uid }),
        13 => ViewChild::ListInput(ViewObject { uid }),
        14 => ViewChild::GraphicalInput(ViewObject { uid }),
        15 => ViewChild::NumericDisplay(ViewObject { uid }),
        16 => ViewChild::Lamp(ViewObject { uid }),
        17 => ViewChild::Gauge(ViewObject { uid }),
        18 => ViewChild::Graph(ViewObject { uid }),
        19 => ViewChild::Table(ViewObject { uid }),
        20 => ViewChild::TextBox(ViewObject { uid }),
        21 => ViewChild::GraphicsFrame(ViewObject { uid }),
        22 => ViewChild::Button(ViewObject { uid }),
        _ => ViewChild::Other,
    };
    Ok(child)
}

/// The attributes of a `view` element as written: the UID, the sizes, the page settings
/// and the home settings, then the order, zoom, scroll positions and background when
/// present, and last the view type.
pub open spec fn spec_view_header_attrs(h: ViewHeader<String>) -> Seq<(Seq<char>, Seq<char>)> {
    let a0 = seq![
        ("uid"@, spec_int_text(h.uid.value as int)),
        ("width"@, h.width@),
        ("height"@, h.height@),
        ("page_width"@, h.page_width@),
        ("page_height"@, h.page_height@),
        ("page_sequence"@, spec_page_sequence_text(h.page_sequence)),
        ("page_orientation"@, spec_page_orientation_text(h.page_orientation)),
        ("show_pages"@, spec_bool_text(h.show_pages)),
        ("home_page"@, spec_int_text(h.home_page as int)),
        ("home_view"@, spec_bool_text(h.home_view)),
    ];
    let a1 = push_opt_attr(a0, "order"@, match h.order {
        Some(o) => Some(spec_int_text(o as int)),
        None => None,
    });
    let a2 = push_opt_attr(a1, "zoom"@, opt_number_text(h.zoom));
    let a3 = push_opt_attr(a2, "scroll_x"@, opt_number_text(h.scroll_x));
    let a4 = push_opt_attr(a3, "scroll_y"@, opt_number_text(h.scroll_y));
    let a5 = push_opt_attr(a4, "background"@, opt_number_text(h.background));
    a5.push(("type"@, spec_view_type_text(h.view_type)))
}

/// Builds the attribute list of a view's start tag; numbers are written as the text they
/// are held as.
pub fn view_header_attributes(h: &ViewHeader<String>) -> (r: AttrList)
    ensures
        r@ == spec_view_header_attrs(*h),
{
    let mut attrs = AttrList::new();
    attrs.add_i32("uid", h.uid.value);
    attrs.add("width", h.width.as_str());
    attrs.add("height", h.height.as_str());
    attrs.add("page_width", h.page_width.as_str());
    attrs.add("page_height", h.page_height.as_str());
    attrs.add("page_sequence", serialize_page_sequence(&h.page_sequence));
    attrs.add("page_orientation", serialize_page_orientation(&h.page_orientation));
    attrs.add_bool("show_pages", h.show_pages);
    attrs.add_u32("home_page", h.home_page);
    attrs.add_bool("home_view", h.home_view);
    proof {
        let a0 = seq![
            ("uid"@, spec_int_text(h.uid.value as int)),
            ("width"@, h.width@),
            ("height"@, h.height@),
            ("page_width"@, h.page_width@),
            ("page_height"@, h.page_height@),
            ("page_sequence"@, spec_page_sequence_text(h.page_sequence)),
            ("page_orientation"@, spec_page_orientation_text(h.page_orientation)),
            ("show_pages"@, spec_bool_text(h.show_pages)),
            ("home_page"@, spec_int_text(h.home_page as int)),
            ("home_view"@, spec_bool_text(h.home_view)),
        ];
        assert(attrs@ =~= a0);
    }
    attrs.add_opt_u32("order", h.order);
    attrs.add_opt("zoom", opt_str(&h.zoom));
    attrs.add_opt("scroll_x", opt_str(&h.scroll_x));
    attrs.add_opt("scroll_y", opt_str(&h.scroll_y));
    attrs.add_opt("background", opt_str(&h.background));
    let t = serialize_view_type(&h.view_type);
    attrs.add("type", t.as_str());
    attrs
}

/// `events` followed by a view's start tag and its style, when it has one; the display
/// objects and the end tag follow.
pub open spec fn spec_after_view_start(events: Seq<EventView>, h: ViewHeader<String>, style: Option<Style>) -> Seq<EventView> {
    let e0 = events.push(tag(EventKind::Start, "view"@, spec_view_header_attrs(h)));
    match style {
        Some(s) => spec_after_style(e0, s),
        None => e0,
    }
}

/// Writes a view's start tag and its style.
pub fn write_view_start(emitter: &mut XmlEmitter, h: &ViewHeader<String>, style: &Option<Style>)
    ensures
        final(emitter)@ == spec_after_view_start(old(emitter)@, *h, *style),
{
    let attrs = view_header_attributes(h);
    let start = emitter.start_elem("view", &attrs);
    emitter.write_start(&start);
    match style {
        Some(s) => serialize_style(emitter, s),
        None => {},
    }
}

proof fn lemma_view_keys_differ()
    ensures
        "uid"@.len() == 3,
        "width"@.len() == 5,
        "height"@.len() == 6,
        "page_width"@.len() == 10,
        "page_height"@.len() == 11,
        "page_sequence"@.len() == 13,
        "page_orientation"@.len() == 16,
        "show_pages"@.len() == 10,
        "home_page"@.len() == 9,
        "home_view"@.len() == 9,
        "order"@.len() == 5,
        "zoom"@.len() == 4,
        "scroll_x"@.len() == 8,
        "scroll_y"@.len() == 8,
        "background"@.len() == 10,
        "type"@.len() == 4,
        "width"@ != "order"@,
        "page_width"@ != "show_pages"@,
        "page_width"@ != "background"@,
        "show_pages"@ != "background"@,
        "home_page"@ != "home_view"@,
        "zoom"@ != "type"@,
        "scroll_x"@ != "scroll_y"@,
{
    reveal_strlit("uid");
    reveal_strlit("width");
    reveal_strlit("height");
    reveal_strlit("page_width");
    reveal_strlit("page_height");
    reveal_strlit("page_sequence");
    reveal_strlit("page_orientation");
    reveal_strlit("show_pages");
    reveal_strlit("home_page");
    reveal_strlit("home_view");
    reveal_strlit("order");
    reveal_strlit("zoom");
    reveal_strlit("scroll_x");
    reveal_strlit("scroll_y");
    reveal_strlit("background");
    reveal_strlit("type");
    assert("width"@[0] != "order"@[0]);
    assert("page_width"@[0] != "show_pages"@[0]);
    assert("page_width"@[0] != "background"@[0]);
    assert("show_pages"@[0] != "background"@[0]);
    assert("home_page"@[5] != "home_view"@[5]);
    assert("zoom"@[0] != "type"@[0]);
    assert("scroll_x"@[7] != "scroll_y"@[7]);
}

/// The optional attributes that follow the base ones in a view's start tag leave every
/// other key as it was.
proof fn lemma_later_pushes_keep(s: Seq<(Seq<char>, Seq<char>)>, order_text: Option<Seq<char>>, h: ViewHeader<String>, k: Seq<char>)
    requires
        k != "zoom"@,
        k != "scroll_x"@,
        k != "scroll_y"@,
        k != "background"@,
    ensures
        spec_get(pairs_map(push_opt_attr(push_opt_attr(push_opt_attr(push_opt_attr(push_opt_attr(
            s, "order"@, order_text), "zoom"@, opt_number_text(h.zoom)), "scroll_x"@, opt_number_text(h.scroll_x)),
            "scroll_y"@, opt_number_text(h.scroll_y)), "background"@, opt_number_text(h.background))), k)
            == spec_get(pairs_map(push_opt_attr(s, "order"@, order_text)), k),
{
    let a1 = push_opt_attr(s, "order"@, order_text);
    let a2 = push_opt_attr(a1, "zoom"@, opt_number_text(h.zoom));
    lemma_push_opt_get(a1, "zoom"@, opt_number_text(h.zoom));
    let a3 = push_opt_attr(a2, "scroll_x"@, opt_number_text(h.scroll_x));
    lemma_push_opt_get(a2, "scroll_x"@, opt_number_text(h.scroll_x));
    let a4 = push_opt_attr(a3, "scroll_y"@, opt_number_text(h.scroll_y));
    lemma_push_opt_get(a3, "scroll_y"@, opt_number_text(h.scroll_y));
    lemma_push_opt_get(a4, "background"@, opt_number_text(h.background));
    assert(spec_get(pairs_map(a2), k) == spec_get(pairs_map(a1), k));
    assert(spec_get(pairs_map(a3), k) == spec_get(pairs_map(a2), k));
    assert(spec_get(pairs_map(a4), k) == spec_get(pairs_map(a3), k));
}

/// What each key of a written view header reads as.
#[verifier::rlimit(40)]
proof fn lemma_view_header_lookups(h: ViewHeader<String>)
    ensures
        ({
            let m = pairs_map(spec_view_header_attrs(h));
            &&& spec_get(m, "uid"@) == Some(spec_int_text(h.uid.value as int))
            &&& spec_get(m, "width"@) == Some(h.width@)
            &&& spec_get(m, "height"@) == Some(h.height@)
            &&& spec_get(m, "page_width"@) == Some(h.page_width@)
            &&& spec_get(m, "page_height"@) == Some(h.page_height@)
            &&& spec_get(m, "page_sequence"@) == Some(spec_page_sequence_text(h.page_sequence))
            &&& spec_get(m, "page_orientation"@) == Some(spec_page_orientation_text(h.page_orientation))
            &&& spec_get(m, "show_pages"@) == Some(spec_bool_text(h.show_pages))
            &&& spec_get(m, "home_page"@) == Some(spec_int_text(h.home_page as int))
            &&& spec_get(m, "home_view"@) == Some(spec_bool_text(h.home_view))
            &&& spec_get(m, "order"@) == (match h.order {
                Some(o) => Some(spec_int_text(o as int)),
                None => None::<Seq<char>>,
            })
            &&& spec_get(m, "zoom"@) == opt_number_text(h.zoom)
            &&& spec_get(m, "scroll_x"@) == opt_number_text(h.scroll_x)
            &&& spec_get(m, "scroll_y"@) == opt_number_text(h.scroll_y)
            &&& spec_get(m, "background"@) == opt_number_text(h.background)
            &&& spec_get(m, "type"@) == Some(spec_view_type_text(h.view_type))
        }),
{
    lemma_view_keys_differ();
    let s0 = Seq::<(Seq<char>, Seq<char>)>::empty();
    assert(pairs_map(s0) == Map::<Seq<char>, Seq<char>>::empty());
    let s1 = s0.push(("uid"@, spec_int_text(h.uid.value as int)));
    lemma_attribute_read_back(s0, "uid"@, spec_int_text(h.uid.value as int));
    let s2 = s1.push(("width"@, h.width@));
    lemma_attribute_read_back(s1, "width"@, h.width@);
    let s3 = s2.push(("height"@, h.height@));
    lemma_attribute_read_back(s2, "height"@, h.height@);
    let s4 = s3.push(("page_width"@, h.page_width@));
    lemma_attribute_read_back(s3, "page_width"@, h.page_width@);
    let s5 = s4.push(("page_height"@, h.page_height@));
    lemma_attribute_read_back(s4, "page_height"@, h.page_height@);
    let s6 = s5.push(("page_sequence"@, spec_page_sequence_text(h.page_sequence)));
    lemma_attribute_read_back(s5, "page_sequence"@, spec_page_sequence_text(h.page_sequence));
    let s7 = s6.push(("page_orientation"@, spec_page_orientation_text(h.page_orientation)));
    lemma_attribute_read_back(s6, "page_orientation"@, spec_page_orientation_text(h.page_orientation));
    let s8 = s7.push(("show_pages"@, spec_bool_text(h.show_pages)));
    lemma_attribute_read_back(s7, "show_pages"@, spec_bool_text(h.show_pages));
    let s9 = s8.push(("home_page"@, spec_int_text(h.home_page as int)));
    lemma_attribute_read_back(s8, "home_page"@, spec_int_text(h.home_page as int));
    let s10 = s9.push(("home_view"@, spec_bool_text(h.home_view)));
    lemma_attribute_read_back(s9, "home_view"@, spec_bool_text(h.home_view));
    let a0 = seq![
        ("uid"@, spec_int_text(h.uid.value as int)),
        ("width"@, h.width@),
        ("height"@, h.height@),
        ("page_width"@, h.page_width@),
        ("page_height"@, h.page_height@),
        ("page_sequence"@, spec_page_sequence_text(h.page_sequence)),
        ("page_orientation"@, spec_page_orientation_text(h.page_orientation)),
        ("show_pages"@, spec_bool_text(h.show_pages)),
        ("home_page"@, spec_int_text(h.home_page as int)),
        ("home_view"@, spec_bool_text(h.home_view)),
    ];
    assert(a0 =~= s10);
    lemma_absent_key_unset(a0, "order"@);
    lemma_absent_key_unset(a0, "zoom"@);
    lemma_absent_key_unset(a0, "scroll_x"@);
    lemma_absent_key_unset(a0, "scroll_y"@);
    lemma_absent_key_unset(a0, "background"@);
    lemma_absent_key_unset(a0, "type"@);
    let order_text = match h.order {
        Some(o) => Some(spec_int_text(o as int)),
        None => None::<Seq<char>>,
    };
    let a1 = push_opt_attr(s10, "order"@, order_text);
    lemma_push_opt_get(s10, "order"@, order_text);
    let a2 = push_opt_attr(a1, "zoom"@, opt_number_text(h.zoom));
    lemma_push_opt_get(a1, "zoom"@, opt_number_text(h.zoom));
    let a3 = push_opt_attr(a2, "scroll_x"@, opt_number_text(h.scroll_x));
    lemma_push_opt_get(a2, "scroll_x"@, opt_number_text(h.scroll_x));
    let a4 = push_opt_attr(a3, "scroll_y"@, opt_number_text(h.scroll_y));
    lemma_push_opt_get(a3, "scroll_y"@, opt_number_text(h.scroll_y));
    let a5 = push_opt_attr(a4, "background"@, opt_number_text(h.background));
    lemma_push_opt_get(a4, "background"@, opt_number_text(h.background));
    lemma_attribute_read_back(a5, "type"@, spec_view_type_text(h.view_type));
    assert(spec_view_header_attrs(h) == a5.push(("type"@, spec_view_type_text(h.view_type))));
    lemma_later_pushes_keep(s10, order_text, h, "order"@);
    lemma_later_pushes_keep(s10, order_text, h, "uid"@);
    lemma_later_pushes_keep(s10, order_text, h, "width"@);
    lemma_later_pushes_keep(s10, order_text, h, "height"@);
    lemma_later_pushes_keep(s10, order_text, h, "page_width"@);
    lemma_later_pushes_keep(s10, order_text, h, "page_height"@);
    lemma_later_pushes_keep(s10, order_text, h, "page_sequence"@);
    lemma_later_pushes_keep(s10, order_text, h, "page_orientation"@);
    lemma_later_pushes_keep(s10, order_text, h, "show_pages"@);
    lemma_later_pushes_keep(s10, order_text, h, "home_page"@);
    lemma_later_pushes_keep(s10, order_text, h, "home_view"@);
    assert(spec_get(pairs_map(a5), "zoom"@) == spec_get(pairs_map(a4), "zoom"@));
    assert(spec_get(pairs_map(a4), "zoom"@) == spec_get(pairs_map(a3), "zoom"@));
    assert(spec_get(pairs_map(a3), "zoom"@) == spec_get(pairs_map(a2), "zoom"@));
    assert(spec_get(pairs_map(a5), "scroll_x"@) == spec_get(pairs_map(a4), "scroll_x"@));
    assert(spec_get(pairs_map(a4), "scroll_x"@) == spec_get(pairs_map(a3), "scroll_x"@));
    assert(spec_get(pairs_map(a5), "scroll_y"@) == spec_get(pairs_map(a4), "scroll_y"@));
    assert(spec_get(pairs_map(a4), "background"@) == spec_get(pairs_map(a3), "background"@));
    assert(spec_get(pairs_map(a3), "background"@) == spec_get(pairs_map(a2), "background"@));
    assert(spec_get(pairs_map(a2), "background"@) == spec_get(pairs_map(a1), "background"@));
    assert(spec_get(pairs_map(a1), "background"@) == spec_get(pairs_map(s10), "background"@));
    assert(spec_get(pairs_map(s10), "background"@) is None);
    assert(spec_get(pairs_map(a5), "background"@) == opt_number_text(h.background));
    let m = pairs_map(a5.push(("type"@, spec_view_type_text(h.view_type))));
    assert(spec_get(m, "uid"@) == Some(spec_int_text(h.uid.value as int)));
    assert(spec_get(m, "width"@) == Some(h.width@));
    assert(spec_get(m, "height"@) == Some(h.height@));
    assert(spec_get(m, "page_width"@) == Some(h.page_width@));
    assert(spec_get(m, "page_height"@) == Some(h.page_height@));
    assert(spec_get(m, "page_sequence"@) == Some(spec_page_sequence_text(h.page_sequence)));
    assert(spec_get(m, "page_orientation"@) == Some(spec_page_orientation_text(h.page_orientation)));
    assert(spec_get(m, "show_pages"@) == Some(spec_bool_text(h.show_pages)));
    assert(spec_get(m, "home_page"@) == Some(spec_int_text(h.home_page as int)));
    assert(spec_get(m, "home_view"@) == Some(spec_bool_text(h.home_view)));
    assert(spec_get(m, "order"@) == order_text);
    assert(spec_get(m, "zoom"@) == opt_number_text(h.zoom));
    assert(spec_get(m, "scroll_x"@) == opt_number_text(h.scroll_x));
    assert(spec_get(m, "scroll_y"@) == opt_number_text(h.scroll_y));
    assert(spec_get(m, "background"@) == spec_get(pairs_map(a5), "background"@));
    assert(spec_get(m, "background"@) == opt_number_text(h.background));
    assert(spec_get(m, "type"@) == Some(spec_view_type_text(h.view_type)));
}

/// A view header that is written is read back as it was: the attributes that
/// [`view_header_attributes`] writes raise no error when read, and the header made of them
/// has the same UID, order, page settings, home settings and background, a view type read
/// from the written type's text, and the numbers that the caller's parses of the written
/// texts give.
pub proof fn lemma_view_header_round_trip<N>(h: ViewHeader<String>, a: Attrs, n: ViewNumbers<N>)
    requires
        a@ == pairs_map(spec_view_header_attrs(h)),
        view_numbers_match(a, n),
        n.width matches Some(Ok(_)),
        n.height matches Some(Ok(_)),
        n.page_width matches Some(Ok(_)),
        n.page_height matches Some(Ok(_)),
        n.zoom matches Some(x) ==> x is Ok,
        n.scroll_x matches Some(x) ==> x is Ok,
        n.scroll_y matches Some(x) ==> x is Ok,
    ensures
        spec_view_attrs_error(a, n) is None,
        forall|v: ViewAttrs<N>| #[trigger] spec_view_attrs_read(v, a, n) ==> {
            let r = spec_view_header(v);
            &&& spec_view_missing(v, true) is None
            &&& r.uid == h.uid
            &&& spec_view_type_reads_as(spec_view_type_text(h.view_type), r.view_type)
            &&& r.order == h.order
            &&& Some(r.width) == ok_of(spec_parsed_attr(a, "width"@, n.width))
            &&& Some(r.height) == ok_of(spec_parsed_attr(a, "height"@, n.height))
            &&& Some(r.page_width) == ok_of(spec_parsed_attr(a, "page_width"@, n.page_width))
            &&& Some(r.page_height) == ok_of(spec_parsed_attr(a, "page_height"@, n.page_height))
            &&& (r.zoom is Some <==> h.zoom is Some)
            &&& (r.scroll_x is Some <==> h.scroll_x is Some)
            &&& (r.scroll_y is Some <==> h.scroll_y is Some)
            &&& opt_number_text(r.background) == opt_number_text(h.background)
            &&& r.page_sequence == h.page_sequence
            &&& r.page_orientation == h.page_orientation
            &&& r.show_pages == h.show_pages
            &&& r.home_page == h.home_page
            &&& r.home_view == h.home_view
        },
{
    lemma_view_header_lookups(h);
    lemma_parse_int_text(h.uid.value as int, true, i32::MIN as int, i32::MAX as int);
    lemma_parse_int_text(h.home_page as int, false, 0, u32::MAX as int);
    if let Some(o) = h.order {
        lemma_parse_int_text(o as int, false, 0, u32::MAX as int);
    }
    lemma_bool_attribute_round_trip(h.show_pages);
    lemma_bool_attribute_round_trip(h.home_view);
    lemma_page_sequence_round_trip(h.page_sequence);
    lemma_page_orientation_round_trip(h.page_orientation);
    lemma_view_type_round_trip(h.view_type);
    let tt = spec_view_type_text(h.view_type);
    if !spec_is_standard_view_type_text(tt) {
        let p = choose|p: int| is_first_index_of(tt, ':', p);
        assert(tt[p] == ':');
        assert(tt.contains(':'));
    }
    assert(spec_view_type_error(a) is None);
    assert(spec_view_attrs_error_head(a, n) is None);
    assert(spec_view_attrs_error_middle(a, n) is None);
    assert(spec_view_attrs_error_tail(a) is None);
}


/// The header made of a view's attributes takes each attribute that was given, and for one
/// that was not: UID 0, a stock-and-flow view, pages in rows in landscape orientation, pages
/// not shown, home page 0 and not the home view.
pub proof fn lemma_view_header_defaults<N>(a: ViewAttrs<N>)
    ensures
        ({
            let h = spec_view_header(a);
            &&& a.uid matches Some(u) ==> h.uid.value == u
            &&& a.uid is None ==> h.uid.value == 0
            &&& a.view_type matches Some(t) ==> h.view_type == t
            &&& a.view_type is None ==> h.view_type == ViewType::StockFlow
            &&& h.order == a.order
            &&& a.width matches Some(w) ==> h.width == w
            &&& a.height matches Some(x) ==> h.height == x
            &&& h.zoom == a.zoom
            &&& h.scroll_x == a.scroll_x
            &&& h.scroll_y == a.scroll_y
            &&& h.background == a.background
            &&& a.page_width matches Some(w) ==> h.page_width == w
            &&& a.page_height matches Some(x) ==> h.page_height == x
            &&& a.page_sequence matches Some(p) ==> h.page_sequence == p
            &&& a.page_sequence is None ==> h.page_sequence == PageSequence::Row
            &&& a.page_orientation matches Some(p) ==> h.page_orientation == p
            &&& a.page_orientation is None ==> h.page_orientation == PageOrientation::Landscape
            &&& a.show_pages matches Some(b) ==> h.show_pages == b
            &&& a.show_pages is None ==> !h.show_pages
            &&& a.home_page matches Some(p) ==> h.home_page == p
            &&& a.home_page is None ==> h.home_page == 0
            &&& a.home_view matches Some(b) ==> h.home_view == b
            &&& a.home_view is None ==> !h.home_view
        }),
{
}

/// A view element without a `page_orientation`, `page_sequence`, `show_pages`,
/// `home_page`, `home_view`, `type` or `uid` attribute is read as landscape, in rows, with
/// pages not shown, home page 0, not the home view, a stock-and-flow view and UID 0; and
/// `portrait`, `landscape`, `row` and `column` are read as those settings.
pub proof fn lemma_view_attributes_read_defaults<N>(v: ViewAttrs<N>, a: Attrs, n: ViewNumbers<N>)
    requires
        spec_view_attrs_read(v, a, n),
    ensures
        ({
            let h = spec_view_header(v);
            &&& !a@.contains_key("page_orientation"@) ==> h.page_orientation == PageOrientation::Landscape
            &&& spec_get(a@, "page_orientation"@) == Some("landscape"@) ==> h.page_orientation == PageOrientation::Landscape
            &&& spec_get(a@, "page_orientation"@) == Some("portrait"@) ==> h.page_orientation == PageOrientation::Portrait
            &&& !a@.contains_key("page_sequence"@) ==> h.page_sequence == PageSequence::Row
            &&& spec_get(a@, "page_sequence"@) == Some("row"@) ==> h.page_sequence == PageSequence::Row
            &&& spec_get(a@, "page_sequence"@) == Some("column"@) ==> h.page_sequence == PageSequence::Column
            &&& !a@.contains_key("show_pages"@) ==> !h.show_pages
            &&& !a@.contains_key("home_page"@) ==> h.home_page == 0
            &&& !a@.contains_key("home_view"@) ==> !h.home_view
            &&& !a@.contains_key("type"@) ==> h.view_type == ViewType::StockFlow
            &&& !a@.contains_key("uid"@) ==> h.uid.value == 0
        }),
{
    lemma_page_orientation_texts();
    lemma_page_sequence_texts();
}


/// The list each element inside a view goes to: an element read on its own goes to the list
/// named for it, and one read after its start tag by another reader is kept only when it is
/// a stock or a module.
pub proof fn lemma_view_tag_kinds()
    ensures
        spec_tag_kind("stock"@, false) == 0,
        spec_tag_kind("flow"@, false) == 1,
        spec_tag_kind("aux"@, false) == 2,
        spec_tag_kind("module"@, false) == 3,
        spec_tag_kind("group"@, false) == 4,
        spec_tag_kind("connector"@, false) == 5,
        spec_tag_kind("alias"@, false) == 6,
        spec_tag_kind("stacked_container"@, false) == 7,
        spec_tag_kind("slider"@, false) == 8,
        spec_tag_kind("knob"@, false) == 9,
        spec_tag_kind("switch"@, false) == 10,
        spec_tag_kind("options"@, false) == 11,
        spec_tag_kind("numeric_input"@, false) == 12,
        spec_tag_kind("list_input"@, false) == 13,
        spec_tag_kind("graphical_input"@, false) == 14,
        spec_tag_kind("numeric_display"@, false) == 15,
        spec_tag_kind("lamp"@, false) == 16,
        spec_tag_kind("gauge"@, false) == 17,
        spec_tag_kind("graph"@, false) == 18,
        spec_tag_kind("table"@, false) == 19,
        spec_tag_kind("text_box"@, false) == 20,
        spec_tag_kind("graphics_frame"@, false) == 21,
        spec_tag_kind("button"@, false) == 22,
        spec_tag_kind("stock"@, true) == 0,
        spec_tag_kind("module"@, true) == 3,
        spec_tag_kind("flow"@, true) == 23,
        spec_tag_kind("aux"@, true) == 23,
        spec_tag_kind("group"@, true) == 23,
        spec_tag_kind("connector"@, true) == 23,
        spec_tag_kind("alias"@, true) == 23,
        spec_tag_kind("stacked_container"@, true) == 23,
        spec_tag_kind("slider"@, true) == 23,
        spec_tag_kind("knob"@, true) == 23,
        spec_tag_kind("switch"@, true) == 23,
        spec_tag_kind("options"@, true) == 23,
        spec_tag_kind("numeric_input"@, true) == 23,
        spec_tag_kind("list_input"@, true) == 23,
        spec_tag_kind("graphical_input"@, true) == 23,
        spec_tag_kind("numeric_display"@, true) == 23,
        spec_tag_kind("lamp"@, true) == 23,
        spec_tag_kind("gauge"@, true) == 23,
        spec_tag_kind("graph"@, true) == 23,
        spec_tag_kind("table"@, true) == 23,
        spec_tag_kind("text_box"@, true) == 23,
        spec_tag_kind("graphics_frame"@, true) == 23,
        spec_tag_kind("button"@, true) == 23,
        spec_tag_kind("style"@, false) == 23,
{
    reveal_strlit("stock");
    reveal_strlit("flow");
    reveal_strlit("aux");
    reveal_strlit("module");
    reveal_strlit("group");
    reveal_strlit("connector");
    reveal_strlit("alias");
    reveal_strlit("stacked_container");
    reveal_strlit("slider");
    reveal_strlit("knob");
    reveal_strlit("switch");
    reveal_strlit("options");
    reveal_strlit("numeric_input");
    reveal_strlit("list_input");
    reveal_strlit("graphical_input");
    reveal_strlit("numeric_display");
    reveal_strlit("lamp");
    reveal_strlit("gauge");
    reveal_strlit("graph");
    reveal_strlit("table");
    reveal_strlit("text_box");
    reveal_strlit("graphics_frame");
    reveal_strlit("button");
    reveal_strlit("style");
    assert("stock"@.len() == 5);
    assert("flow"@.len() == 4);
    assert("aux"@.len() == 3);
    assert("module"@.len() == 6);
    assert("group"@.len() == 5);
    assert("connector"@.len() == 9);
    assert("alias"@.len() == 5);
    assert("stacked_container"@.len() == 17);
    assert("slider"@.len() == 6);
    assert("knob"@.len() == 4);
    assert("switch"@.len() == 6);
    assert("options"@.len() == 7);
    assert("numeric_input"@.len() == 13);
    assert("list_input"@.len() == 10);
    assert("graphical_input"@.len() == 15);
    assert("numeric_display"@.len() == 15);
    assert("lamp"@.len() == 4);
    assert("gauge"@.len() == 5);
    assert("graph"@.len() == 5);
    assert("table"@.len() == 5);
    assert("text_box"@.len() == 8);
    assert("graphics_frame"@.len() == 14);
    assert("button"@.len() == 6);
    assert("style"@.len() == 5);
    assert("stock"@[0] != "group"@[0]);
    assert("stock"@[0] != "alias"@[0]);
    assert("stock"@[0] != "gauge"@[0]);
    assert("stock"@[0] != "graph"@[0]);
    assert("stock"@[0] != "table"@[0]);
    assert("stock"@[2] != "style"@[2]);
    assert("flow"@[0] != "knob"@[0]);
    assert("flow"@[0] != "lamp"@[0]);
    assert("module"@[0] != "slider"@[0]);
    assert("module"@[0] != "switch"@[0]);
    assert("module"@[0] != "button"@[0]);
    assert("group"@[0] != "stock"@[0]);
    assert("group"@[0] != "alias"@[0]);
    assert("group"@[1] != "gauge"@[1]);
    assert("group"@[2] != "graph"@[2]);
    assert("group"@[0] != "table"@[0]);
    assert("group"@[0] != "style"@[0]);
    assert("alias"@[0] != "stock"@[0]);
    assert("alias"@[0] != "group"@[0]);
    assert("alias"@[0] != "gauge"@[0]);
    assert("alias"@[0] != "graph"@[0]);
    assert("alias"@[0] != "table"@[0]);
    assert("alias"@[0] != "style"@[0]);
    assert("slider"@[0] != "module"@[0]);
    assert("slider"@[1] != "switch"@[1]);
    assert("slider"@[0] != "button"@[0]);
    assert("knob"@[0] != "flow"@[0]);
    assert("knob"@[0] != "lamp"@[0]);
    assert("switch"@[0] != "module"@[0]);
    assert("switch"@[1] != "slider"@[1]);
    assert("switch"@[0] != "button"@[0]);
    assert("graphical_input"@[0] != "numeric_display"@[0]);
    assert("numeric_display"@[0] != "graphical_input"@[0]);
    assert("lamp"@[0] != "flow"@[0]);
    assert("lamp"@[0] != "knob"@[0]);
    assert("gauge"@[0] != "stock"@[0]);
    assert("gauge"@[1] != "group"@[1]);
    assert("gauge"@[0] != "alias"@[0]);
    assert("gauge"@[1] != "graph"@[1]);
    assert("gauge"@[0] != "table"@[0]);
    assert("gauge"@[0] != "style"@[0]);
    assert("graph"@[0] != "stock"@[0]);
    assert("graph"@[2] != "group"@[2]);
    assert("graph"@[0] != "alias"@[0]);
    assert("graph"@[1] != "gauge"@[1]);
    assert("graph"@[0] != "table"@[0]);
    assert("graph"@[0] != "style"@[0]);
    assert("table"@[0] != "stock"@[0]);
    assert("table"@[0] != "group"@[0]);
    assert("table"@[0] != "alias"@[0]);
    assert("table"@[0] != "gauge"@[0]);
    assert("table"@[0] != "graph"@[0]);
    assert("table"@[0] != "style"@[0]);
    assert("button"@[0] != "module"@[0]);
    assert("button"@[0] != "slider"@[0]);
    assert("button"@[0] != "switch"@[0]);
    assert("style"@[2] != "stock"@[2]);
    assert("style"@[0] != "group"@[0]);
    assert("style"@[0] != "alias"@[0]);
    assert("style"@[0] != "gauge"@[0]);
    assert("style"@[0] != "graph"@[0]);
    assert("style"@[0] != "table"@[0]);
}

/// An element read inside a view becomes the display object named for it: a `stock` a
/// stock, a `knob` a knob, and so on for each kind; after the view's start tag was read by
/// another reader, only stocks and modules are kept.
pub proof fn lemma_view_children_by_tag(a: Attrs)
    ensures
        forall|r: Result<ViewChild, DeserializeError>| #[trigger] spec_view_child("stock"@, a, false, r) && r is Ok ==> r->Ok_0 is Stock,
        forall|r: Result<ViewChild, DeserializeError>| #[trigger] spec_view_child("flow"@, a, false, r) && r is Ok ==> r->Ok_0 is Flow,
        forall|r: Result<ViewChild, DeserializeError>| #[trigger] spec_view_child("aux"@, a, false, r) && r is Ok ==> r->Ok_0 is Aux,
        forall|r: Result<ViewChild, DeserializeError>| #[trigger] spec_view_child("module"@, a, false, r) && r is Ok ==> r->Ok_0 is Module,
        forall|r: Result<ViewChild, DeserializeError>| #[trigger] spec_view_child("group"@, a, false, r) && r is Ok ==> r->Ok_0 is Group,
        forall|r: Result<ViewChild, DeserializeError>| #[trigger] spec_view_child("connector"@, a, false, r) && r is Ok ==> r->Ok_0 is Connector,
        forall|r: Result<ViewChild, DeserializeError>| #[trigger] spec_view_child("alias"@, a, false, r) && r is Ok ==> r->Ok_0 is Alias,
        forall|r: Result<ViewChild, DeserializeError>| #[trigger] spec_view_child("stacked_container"@, a, false, r) && r is Ok ==> r->Ok_0 is StackedContainer,
        forall|r: Result<ViewChild, DeserializeError>| #[trigger] spec_view_child("slider"@, a, false, r) && r is Ok ==> r->Ok_0 is Slider,
        forall|r: Result<ViewChild, DeserializeError>| #[trigger] spec_view_child("knob"@, a, false, r) && r is Ok ==> r->Ok_0 is Knob,
        forall|r: Result<ViewChild, DeserializeError>| #[trigger] spec_view_child("switch"@, a, false, r) && r is Ok ==> r->Ok_0 is Switch,
        forall|r: Result<ViewChild, DeserializeError>| #[trigger] spec_view_child("options"@, a, false, r) && r is Ok ==> r->Ok_0 is Options,
        forall|r: Result<ViewChild, DeserializeError>| #[trigger] spec_view_child("numeric_input"@, a, false, r) && r is Ok ==> r->Ok_0 is NumericInput,
        forall|r: Result<ViewChild, DeserializeError>| #[trigger] spec_view_child("list_input"@, a, false, r) && r is Ok ==> r->Ok_0 is ListInput,
        forall|r: Result<ViewChild, DeserializeError>| #[trigger] spec_view_child("graphical_input"@, a, false, r) && r is Ok ==> r->Ok_0 is GraphicalInput,
        forall|r: Result<ViewChild, DeserializeError>| #[trigger] spec_view_child("numeric_display"@, a, false, r) && r is Ok ==> r->Ok_0 is NumericDisplay,
        forall|r: Result<ViewChild, DeserializeError>| #[trigger] spec_view_child("lamp"@, a, false, r) && r is Ok ==> r->Ok_0 is Lamp,
        forall|r: Result<ViewChild, DeserializeError>| #[trigger] spec_view_child("gauge"@, a, false, r) && r is Ok ==> r->Ok_0 is Gauge,
        forall|r: Result<ViewChild, DeserializeError>| #[trigger] spec_view_child("graph"@, a, false, r) && r is Ok ==> r->Ok_0 is Graph,
        forall|r: Result<ViewChild, DeserializeError>| #[trigger] spec_view_child("table"@, a, false, r) && r is Ok ==> r->Ok_0 is Table,
        forall|r: Result<ViewChild, DeserializeError>| #[trigger] spec_view_child("text_box"@, a, false, r) && r is Ok ==> r->Ok_0 is TextBox,
        forall|r: Result<ViewChild, DeserializeError>| #[trigger] spec_view_child("graphics_frame"@, a, false, r) && r is Ok ==> r->Ok_0 is GraphicsFrame,
        forall|r: Result<ViewChild, DeserializeError>| #[trigger] spec_view_child("button"@, a, false, r) && r is Ok ==> r->Ok_0 is Button,
        forall|r: Result<ViewChild, DeserializeError>| #[trigger] spec_view_child("stock"@, a, true, r) && r is Ok ==> r->Ok_0 is Stock,
        forall|r: Result<ViewChild, DeserializeError>| #[trigger] spec_view_child("module"@, a, true, r) && r is Ok ==> r->Ok_0 is Module,
        forall|r: Result<ViewChild, DeserializeError>| #[trigger] spec_view_child("flow"@, a, true, r) ==> r == Ok::<ViewChild, DeserializeError>(ViewChild::Other),
{
    lemma_view_tag_kinds();
}

/// The number of display objects a view holds.
pub open spec fn spec_object_count(v: DiagramView) -> int {
    (v.stocks@.len() + v.flows@.len() + v.auxes@.len() + v.modules@.len() + v.groups@.len() + v.connectors@.len() + v.aliases@.len() + v.stacked_containers@.len() + v.sliders@.len() + v.knobs@.len() + v.switches@.len() + v.options@.len() + v.numeric_inputs@.len() + v.list_inputs@.len() + v.graphical_inputs@.len() + v.numeric_displays@.len() + v.lamps@.len() + v.gauges@.len() + v.graphs@.len() + v.tables@.len() + v.text_boxes@.len() + v.graphics_frames@.len() + v.buttons@.len()) as int
}

/// Filing a display object adds it at the end of the list of its kind, and only there: the
/// view then holds one object more, and passing an element over changes nothing.
pub proof fn lemma_view_child_filed(a: DiagramView, c: ViewChild, b: DiagramView)
    requires
        spec_view_child_step(a, c, b),
    ensures
        c matches ViewChild::Stock(o) ==> b.stocks@.len() == a.stocks@.len() + 1 && b.stocks@.last() == o,
        c matches ViewChild::Flow(o) ==> b.flows@.len() == a.flows@.len() + 1 && b.flows@.last() == o,
        c matches ViewChild::Aux(o) ==> b.auxes@.len() == a.auxes@.len() + 1 && b.auxes@.last() == o,
        c matches ViewChild::Module(o) ==> b.modules@.len() == a.modules@.len() + 1 && b.modules@.last() == o,
        c matches ViewChild::Group(o) ==> b.groups@.len() == a.groups@.len() + 1 && b.groups@.last() == o,
        c matches ViewChild::Connector(o) ==> b.connectors@.len() == a.connectors@.len() + 1 && b.connectors@.last() == o,
        c matches ViewChild::Alias(o) ==> b.aliases@.len() == a.aliases@.len() + 1 && b.aliases@.last() == o,
        c matches ViewChild::StackedContainer(o) ==> b.stacked_containers@.len() == a.stacked_containers@.len() + 1 && b.stacked_containers@.last() == o,
        c matches ViewChild::Slider(o) ==> b.sliders@.len() == a.sliders@.len() + 1 && b.sliders@.last() == o,
        c matches ViewChild::Knob(o) ==> b.knobs@.len() == a.knobs@.len() + 1 && b.knobs@.last() == o,
        c matches ViewChild::Switch(o) ==> b.switches@.len() == a.switches@.len() + 1 && b.switches@.last() == o,
        c matches ViewChild::Options(o) ==> b.options@.len() == a.options@.len() + 1 && b.options@.last() == o,
        c matches ViewChild::NumericInput(o) ==> b.numeric_inputs@.len() == a.numeric_inputs@.len() + 1 && b.numeric_inputs@.last() == o,
        c matches ViewChild::ListInput(o) ==> b.list_inputs@.len() == a.list_inputs@.len() + 1 && b.list_inputs@.last() == o,
        c matches ViewChild::GraphicalInput(o) ==> b.graphical_inputs@.len() == a.graphical_inputs@.len() + 1 && b.graphical_inputs@.last() == o,
        c matches ViewChild::NumericDisplay(o) ==> b.numeric_displays@.len() == a.numeric_displays@.len() + 1 && b.numeric_displays@.last() == o,
        c matches ViewChild::Lamp(o) ==> b.lamps@.len() == a.lamps@.len() + 1 && b.lamps@.last() == o,
        c matches ViewChild::Gauge(o) ==> b.gauges@.len() == a.gauges@.len() + 1 && b.gauges@.last() == o,
        c matches ViewChild::Graph(o) ==> b.graphs@.len() == a.graphs@.len() + 1 && b.graphs@.last() == o,
        c matches ViewChild::Table(o) ==> b.tables@.len() == a.tables@.len() + 1 && b.tables@.last() == o,
        c matches ViewChild::TextBox(o) ==> b.text_boxes@.len() == a.text_boxes@.len() + 1 && b.text_boxes@.last() == o,
        c matches ViewChild::GraphicsFrame(o) ==> b.graphics_frames@.len() == a.graphics_frames@.len() + 1 && b.graphics_frames@.last() == o,
        c matches ViewChild::Button(o) ==> b.buttons@.len() == a.buttons@.len() + 1 && b.buttons@.last() == o,
        c is Other ==> spec_object_count(b) == spec_object_count(a),
        !(c is Other) ==> spec_object_count(b) == spec_object_count(a) + 1,
{
}


/// Reading a view's attributes one by one, as another reader hands them over: each size,
/// zoom and scroll position takes the caller's parse of its text, the background its text,
/// `portrait` and `landscape` the page orientation, `row` and `column` the page sequence,
/// and `show_pages` and `home_view` are set exactly when their text is `true`.
pub proof fn lemma_view_attr_steps<N>(acc: ViewAttrs<N>, value: String, n: N)
    ensures
        spec_view_attr_step(acc, "width"@, value, Some(Ok::<N, String>(n))) matches Ok(b) && b.width == Some(n),
        spec_view_attr_step(acc, "height"@, value, Some(Ok::<N, String>(n))) matches Ok(b) && b.height == Some(n),
        spec_view_attr_step(acc, "zoom"@, value, Some(Ok::<N, String>(n))) matches Ok(b) && b.zoom == Some(n),
        spec_view_attr_step(acc, "scroll_x"@, value, Some(Ok::<N, String>(n))) matches Ok(b) && b.scroll_x == Some(n),
        spec_view_attr_step(acc, "scroll_y"@, value, Some(Ok::<N, String>(n))) matches Ok(b) && b.scroll_y == Some(n),
        spec_view_attr_step(acc, "page_width"@, value, Some(Ok::<N, String>(n))) matches Ok(b) && b.page_width == Some(n),
        spec_view_attr_step(acc, "page_height"@, value, Some(Ok::<N, String>(n))) matches Ok(b) && b.page_height == Some(n),
        spec_view_attr_step(acc, "background"@, value, None::<Result<N, String>>) matches Ok(b) && b.background == Some(value),
        value@ == "portrait"@ ==> (spec_view_attr_step(acc, "page_orientation"@, value, None::<Result<N, String>>) matches Ok(b) && b.page_orientation == Some(PageOrientation::Portrait)),
        value@ == "landscape"@ ==> (spec_view_attr_step(acc, "page_orientation"@, value, None::<Result<N, String>>) matches Ok(b) && b.page_orientation == Some(PageOrientation::Landscape)),
        value@ == "row"@ ==> (spec_view_attr_step(acc, "page_sequence"@, value, None::<Result<N, String>>) matches Ok(b) && b.page_sequence == Some(PageSequence::Row)),
        value@ == "column"@ ==> (spec_view_attr_step(acc, "page_sequence"@, value, None::<Result<N, String>>) matches Ok(b) && b.page_sequence == Some(PageSequence::Column)),
        spec_view_attr_step(acc, "show_pages"@, value, None::<Result<N, String>>) matches Ok(b) && b.show_pages == Some(value@ == "true"@),
        spec_view_attr_step(acc, "home_view"@, value, None::<Result<N, String>>) matches Ok(b) && b.home_view == Some(value@ == "true"@),
{
    reveal_strlit("uid");
    reveal_strlit("order");
    reveal_strlit("home_page");
    reveal_strlit("width");
    reveal_strlit("height");
    reveal_strlit("zoom");
    reveal_strlit("scroll_x");
    reveal_strlit("scroll_y");
    reveal_strlit("page_width");
    reveal_strlit("page_height");
    reveal_strlit("background");
    reveal_strlit("page_sequence");
    reveal_strlit("page_orientation");
    reveal_strlit("show_pages");
    reveal_strlit("home_view");
    reveal_strlit("portrait");
    reveal_strlit("landscape");
    reveal_strlit("row");
    reveal_strlit("column");
    reveal_strlit("true");
    assert("uid"@.len() == 3);
    assert("order"@.len() == 5);
    assert("home_page"@.len() == 9);
    assert("width"@.len() == 5);
    assert("height"@.len() == 6);
    assert("zoom"@.len() == 4);
    assert("scroll_x"@.len() == 8);
    assert("scroll_y"@.len() == 8);
    assert("page_width"@.len() == 10);
    assert("page_height"@.len() == 11);
    assert("background"@.len() == 10);
    assert("page_sequence"@.len() == 13);
    assert("page_orientation"@.len() == 16);
    assert("show_pages"@.len() == 10);
    assert("home_view"@.len() == 9);
    assert("portrait"@.len() == 8);
    assert("landscape"@.len() == 9);
    assert("row"@.len() == 3);
    assert("column"@.len() == 6);
    assert("true"@.len() == 4);
    assert("order"@[0] != "width"@[0]);
    assert("home_page"@[5] != "home_view"@[5]);
    assert("width"@[0] != "order"@[0]);
    assert("scroll_x"@[7] != "scroll_y"@[7]);
    assert("scroll_y"@[7] != "scroll_x"@[7]);
    assert("page_width"@[0] != "background"@[0]);
    assert("page_width"@[0] != "show_pages"@[0]);
    assert("background"@[0] != "page_width"@[0]);
    assert("background"@[0] != "show_pages"@[0]);
    assert("show_pages"@[0] != "page_width"@[0]);
    assert("show_pages"@[0] != "background"@[0]);
    assert("home_view"@[5] != "home_page"@[5]);
    lemma_page_orientation_texts();
    lemma_page_sequence_texts();
}

} // verus!
