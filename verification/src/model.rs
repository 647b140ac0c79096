//! The parts of an XMILE model that validation reads: variables with their names and
//! dimensions, groups, and the display objects of a view with their UIDs.

use vstd::prelude::*;
use vstd::string::*;

verus! {

/// A unique identifier of a display object within a model.
#[derive(Debug, Clone, Copy, PartialEq, Eq, Structural)]
pub struct Uid {
    pub value: i32,
}

impl Uid {
    /// Wraps a raw UID value.
    pub fn new(value: i32) -> (u: Uid)
        ensures
            u.value == value,
    {
        Uid { value }
    }
}

/// One dimension named by an arrayed variable or defined at file level.
#[derive(Debug)]
pub struct Dimension {
    pub name: String,
}

/// The dimensions an auxiliary is arrayed over.
#[derive(Debug)]
pub struct VariableDimensions {
    pub dims: Vec<Dimension>,
}

/// A named element of a defined dimension.
#[derive(Debug)]
pub struct DimensionElement {
    pub name: String,
}

/// A dimension defined for a file: its name, its size if given, and its named elements.
#[derive(Debug)]
pub struct DefinedDimension {
    pub name: String,
    pub size: Option<u32>,
    pub elements: Vec<DimensionElement>,
}

/// The dimensions defined for a file.
#[derive(Debug)]
pub struct Dimensions {
    pub dims: Vec<DefinedDimension>,
}

/// An auxiliary variable.
#[derive(Debug)]
pub struct Auxiliary {
    pub name: String,
    pub dimensions: Option<VariableDimensions>,
}

/// A stock of one of the three kinds; each has a name and may be arrayed.
#[derive(Debug)]
pub enum Stock {
    Basic { name: String, dimensions: Option<Vec<String>> },
    Conveyor { name: String, dimensions: Option<Vec<String>> },
    Queue { name: String, dimensions: Option<Vec<String>> },
}

/// A flow variable.
#[derive(Debug)]
pub struct BasicFlow {
    pub name: String,
    pub dimensions: Option<Vec<String>>,
}

/// A graphical function; an embedded one has no name.
#[derive(Debug)]
pub struct GraphicalFunction {
    pub name: Option<String>,
    pub dimensions: Option<Vec<String>>,
}

/// Documentation attached to a model object, as plain text or as HTML.
#[derive(Debug)]
pub enum Documentation {
    PlainText(String),
    Html(String),
}

/// A connection of a module: which variable inside receives which value from outside.
#[derive(Debug)]
pub struct ModuleConnection {
    pub to: String,
    pub from: String,
}

/// A module (submodel) variable.
#[derive(Debug)]
pub struct Module {
    pub name: String,
    /// The file or URL holding the submodel, if it is not in this file.
    pub resource: Option<String>,
    pub connections: Vec<ModuleConnection>,
    pub documentation: Option<Documentation>,
}

/// A variable listed as a member of a group, and whether it runs with the group.
#[derive(Debug)]
pub struct GroupEntity {
    pub name: String,
    pub run: bool,
}

/// A named group of variables.
#[derive(Debug)]
pub struct Group {
    pub name: String,
    pub doc: Option<Documentation>,
    pub entities: Vec<GroupEntity>,
}

/// A variable of a model.
#[derive(Debug)]
pub enum Variable {
    Auxiliary(Auxiliary),
    Stock(Stock),
    Flow(BasicFlow),
    GraphicalFunction(GraphicalFunction),
    Module(Module),
    Group(Group),
}

/// The name of a variable, if it has one: every kind has a name but a graphical function,
/// whose name is optional.
pub open spec fn spec_variable_name(v: Variable) -> Option<Seq<char>> {
    match v {
        Variable::Auxiliary(a) => Some(a.name@),
        Variable::Stock(s) => match s {
            Stock::Basic { name, .. } => Some(name@),
            Stock::Conveyor { name, .. } => Some(name@),
            Stock::Queue { name, .. } => Some(name@),
        },
        Variable::Flow(f) => Some(f.name@),
        Variable::GraphicalFunction(g) => match g.name {
            Some(n) => Some(n@),
            None => None,
        },
        Variable::Module(m) => Some(m.name@),
        Variable::Group(g) => Some(g.name@),
    }
}

/// A display object that refers to a variable by name.
#[derive(Debug)]
pub struct NamedObject {
    pub uid: Uid,
    pub name: String,
}

/// An alias: a display object standing for another object.
#[derive(Debug)]
pub struct AliasObject {
    pub uid: Uid,
    /// The name of the variable the alias stands for.
    pub of: String,
}

/// A display object that carries no variable name (connectors, sliders, graphs, ...).
#[derive(Debug)]
pub struct ViewObject {
    pub uid: Uid,
}

/// The display objects of one view, by kind.
#[derive(Debug)]
pub struct DiagramView {
    pub uid: Uid,
    pub stocks: Vec<NamedObject>,
    pub flows: Vec<NamedObject>,
    pub auxes: Vec<NamedObject>,
    pub modules: Vec<NamedObject>,
    pub groups: Vec<NamedObject>,
    pub connectors: Vec<ViewObject>,
    pub aliases: Vec<AliasObject>,
    pub stacked_containers: Vec<ViewObject>,
    pub sliders: Vec<ViewObject>,
    pub knobs: Vec<ViewObject>,
    pub switches: Vec<ViewObject>,
    pub options: Vec<ViewObject>,
    pub numeric_inputs: Vec<ViewObject>,
    pub list_inputs: Vec<ViewObject>,
    pub graphical_inputs: Vec<ViewObject>,
    pub numeric_displays: Vec<ViewObject>,
    pub lamps: Vec<ViewObject>,
    pub gauges: Vec<ViewObject>,
    pub graphs: Vec<ViewObject>,
    pub tables: Vec<ViewObject>,
    pub text_boxes: Vec<ViewObject>,
    pub graphics_frames: Vec<ViewObject>,
    pub buttons: Vec<ViewObject>,
}

} // verus!
