//! The top-level structure of an XMILE file: the file, its models, their variables and
//! views, and the structural validation of a model.

use vstd::prelude::*;
use vstd::string::*;
use crate::model::{DiagramView, Dimensions, Group, Variable};
use crate::text::{lemma_texts_differ_at, spec_texts, str_eq};
use crate::validation::{
    all_distinct, dims_all_defined, lemma_dimension_errors_empty, lemma_duplicates_iff, lemma_groups_errors_empty,
    lemma_unresolved_empty, spec_all_resolved, spec_groups_resolved, spec_uid_keys,
    spec_dimension_errors, spec_groups_errors, spec_groups_of, validate_groups_of, spec_name_errors, spec_named, spec_names, spec_result_of_errors,
    spec_uid_errors, spec_view_reference_errors, spec_view_uid_items, validate_dimension_references,
    validate_variable_name_uniqueness, validate_view_object_references, validate_view_uids_unique,
    ValidationResult,
};

verus! {

/// The XMILE namespace written when a file names none.
pub fn default_xmlns() -> (r: String)
    ensures
        r@ == "http://docs.oasis-open.org/xmile/ns/XMILE/v1.0"@,
{
    String::from_str("http://docs.oasis-open.org/xmile/ns/XMILE/v1.0")
}

/// The variables of a model, in document order.
#[derive(Debug)]
pub struct Variables {
    pub variables: Vec<Variable>,
}

impl Variables {
    /// Wraps a list of variables.
    pub fn new(variables: Vec<Variable>) -> (r: Self)
        ensures
            r.variables@ == variables@,
    {
        Variables { variables }
    }
}

/// The views of a model, with the index of the view shown first.
#[derive(Debug)]
pub struct Views {
    /// The index of the view which should be active upon loading.
    pub visible_view: Option<u32>,
    /// The views, in document order.
    pub views: Vec<DiagramView>,
}

/// A model: its optional name and resource, its behaviour, its variables and its views.
#[derive(Debug)]
pub struct Model {
    /// Optional name attribute for the model (required if model is a submodel).
    pub name: Option<String>,
    /// Optional resource attribute referencing an external file containing the model.
    pub resource: Option<String>,
    /// Simulation behaviour of this model, if any.
    pub behavior: Option<Behavior>,
    /// The variables defined in this model (REQUIRED).
    pub variables: Variables,
    /// Optional views for this model.
    pub views: Option<Views>,
}

/// The product that wrote a file: its name, its version and, optionally, its language.
#[derive(Debug)]
pub struct Product {
    pub name: String,
    pub version: String,
    pub lang: Option<String>,
}

/// How to reach the author of a file.
#[derive(Debug)]
pub struct Contact {
    pub address: Option<String>,
    pub phone: Option<String>,
    pub fax: Option<String>,
    pub email: Option<String>,
    pub website: Option<String>,
}

/// A file included by reference.
#[derive(Debug)]
pub struct Include {
    pub resource: String,
}

/// The files a file includes.
#[derive(Debug)]
pub struct Includes {
    pub includes: Vec<Include>,
}

/// Information about the origin of a file.
#[derive(Debug)]
pub struct Header {
    pub vendor: String,
    pub product: Product,
    pub name: Option<String>,
    pub version_info: Option<String>,
    pub caption: Option<String>,
    pub image: Option<String>,
    pub author: Option<String>,
    pub affiliation: Option<String>,
    pub client: Option<String>,
    pub copyright: Option<String>,
    pub contact: Option<Contact>,
    pub created: Option<String>,
    pub modified: Option<String>,
    pub uuid: Option<String>,
    pub includes: Option<Includes>,
}

/// A unit of measure defined for a model: its name, its defining equation, its other names,
/// and whether it is disabled.
#[derive(Debug)]
pub struct UnitDefinition {
    pub name: String,
    pub eqn: Option<String>,
    pub aliases: Vec<String>,
    pub disabled: Option<bool>,
}

/// The units of measure defined for a model.
#[derive(Debug)]
pub struct ModelUnits {
    pub units: Vec<UnitDefinition>,
}

/// Simulation behaviour flags.
#[derive(Debug, Clone, Copy, PartialEq, Eq, Structural)]
pub struct BehaviorFlags {
    /// Whether values are kept from going negative.
    pub non_negative: Option<bool>,
}

/// The behaviour of all entities of one type (such as `stock` or `flow`).
#[derive(Debug)]
pub struct EntityBehavior {
    pub entity_type: String,
    pub behavior: BehaviorFlags,
}

/// Simulation behaviour inherited by the models of a file.
#[derive(Debug)]
pub struct Behavior {
    pub global: BehaviorFlags,
    pub entities: Vec<EntityBehavior>,
}

/// A connection that imports data into the model.
#[derive(Debug)]
pub struct DataImport {
    pub data_type: Option<String>,
    pub enabled: Option<bool>,
    pub frequency: Option<String>,
    pub orientation: Option<String>,
    pub resource: Option<String>,
    pub worksheet: Option<String>,
}

/// The table whose settings an export uses, by UID.
#[derive(Debug)]
pub struct ExportTable {
    pub uid: String,
    pub use_settings: Option<bool>,
}

/// A connection that exports data from the model.
#[derive(Debug)]
pub struct DataExport {
    pub data_type: Option<String>,
    pub enabled: Option<bool>,
    pub frequency: Option<String>,
    pub orientation: Option<String>,
    pub resource: Option<String>,
    pub worksheet: Option<String>,
    pub interval: Option<String>,
    /// Present when all variables are exported.
    pub export_all: Option<bool>,
    pub table_uid: Option<ExportTable>,
}

/// The persistent data connections of a file.
#[derive(Debug)]
pub struct Data {
    pub imports: Vec<DataImport>,
    pub exports: Vec<DataExport>,
}

/// An event that a threshold fires: an optional simulation action and the actions to take.
#[derive(Debug)]
pub struct ModelEvent {
    pub sim_action: Option<String>,
    pub actions: Vec<String>,
}

/// An XMILE file: its version, its namespace, its header, the definitions shared by its
/// models, and its models.
#[derive(Debug)]
pub struct XmileFile {
    /// The version of the XMILE specification used in this file.
    pub version: String,
    /// The XML namespace for XMILE.
    pub xmlns: String,
    /// Information about the origin of the file.
    pub header: Header,
    /// The units of measure defined for the whole file, if any.
    pub model_units: Option<ModelUnits>,
    /// The dimensions defined for the whole file, if any.
    pub dimensions: Option<Dimensions>,
    /// Simulation behaviour inherited by all models, if any.
    pub behavior: Option<Behavior>,
    /// Persistent data connections, if any.
    pub data: Option<Data>,
    /// The models defined in the file.
    pub models: Vec<Model>,
}

/// The errors for the views, view after view: first the objects that name no variable, then
/// the repeated UIDs.
pub open spec fn spec_views_errors(views: Seq<DiagramView>, names: Seq<Seq<char>>) -> Seq<Seq<char>>
    decreases views.len(),
{
    if views.len() == 0 {
        Seq::empty()
    } else {
        let v = views.last();
        spec_views_errors(views.drop_last(), names) + spec_view_reference_errors(v, names) + spec_uid_errors(
            spec_view_uid_items(v),
        )
    }
}

/// The structural errors of a model, in the order they are checked: repeated variable names,
/// dimension names with no definition (a model has no dimension definitions of its own, so
/// every dimension it names is reported), the objects and UIDs of each view, and the group
/// entities that name no variable.
pub open spec fn spec_model_errors(m: Model) -> Seq<Seq<char>> {
    let vars = m.variables.variables@;
    let names = spec_names(vars);
    spec_name_errors(vars) + spec_dimension_errors(vars, Seq::empty()) + match m.views {
        Some(vs) => spec_views_errors(vs.views@, names),
        None => Seq::empty(),
    } + spec_groups_errors(spec_groups_of(vars), names)
}

/// A view whose stock, flow, aux and module objects all name variables, and whose objects
/// all carry different UIDs.
pub open spec fn spec_view_well_formed(v: DiagramView, names: Seq<Seq<char>>) -> bool {
    &&& spec_all_resolved(v.stocks@, names)
    &&& spec_all_resolved(v.flows@, names)
    &&& spec_all_resolved(v.auxes@, names)
    &&& spec_all_resolved(v.modules@, names)
    &&& all_distinct(spec_uid_keys(spec_view_uid_items(v)))
}

/// A model that passes the structural checks: its variable names are all different, none of
/// its variables is arrayed over a dimension (a model defines none of its own), every view is
/// well formed, and every group member names a variable.
pub open spec fn spec_model_well_formed(m: Model) -> bool {
    let vars = m.variables.variables@;
    let names = spec_names(vars);
    &&& all_distinct(names)
    &&& dims_all_defined(vars, Seq::empty())
    &&& match m.views {
        Some(vs) => forall|i: int| 0 <= i < vs.views@.len() ==> spec_view_well_formed(#[trigger] vs.views@[i], names),
        None => true,
    }
    &&& spec_groups_resolved(spec_groups_of(vars), names)
}

/// A view gives no errors exactly when it is well formed.
proof fn lemma_view_errors_empty(v: DiagramView, names: Seq<Seq<char>>)
    ensures
        (spec_view_reference_errors(v, names) + spec_uid_errors(spec_view_uid_items(v))).len() == 0
            <==> spec_view_well_formed(v, names),
{
    lemma_unresolved_empty("Stock"@, v.stocks@, names);
    lemma_unresolved_empty("Flow"@, v.flows@, names);
    lemma_unresolved_empty("Aux"@, v.auxes@, names);
    lemma_unresolved_empty("Module"@, v.modules@, names);
    lemma_duplicates_iff(spec_uid_keys(spec_view_uid_items(v)));
}

/// The views give no errors exactly when each of them is well formed.
proof fn lemma_views_errors_empty(views: Seq<DiagramView>, names: Seq<Seq<char>>)
    ensures
        spec_views_errors(views, names).len() == 0 <==> forall|i: int| 0 <= i < views.len() ==> spec_view_well_formed(
            #[trigger] views[i],
            names,
        ),
    decreases views.len(),
{
    if views.len() > 0 {
        let last = views.last();
        lemma_views_errors_empty(views.drop_last(), names);
        lemma_view_errors_empty(last, names);
        if spec_views_errors(views, names).len() == 0 {
            assert forall|i: int| 0 <= i < views.len() implies spec_view_well_formed(#[trigger] views[i], names) by {
                if i < views.len() - 1 {
                    assert(views.drop_last()[i] == views[i]);
                }
            }
        }
        if forall|i: int| 0 <= i < views.len() ==> spec_view_well_formed(#[trigger] views[i], names) {
            assert forall|i: int| 0 <= i < views.drop_last().len() implies spec_view_well_formed(
                #[trigger] views.drop_last()[i],
                names,
            ) by {
                assert(views.drop_last()[i] == views[i]);
            }
            assert(spec_view_well_formed(views[views.len() - 1], names));
        }
    }
}

/// The structural checks of a model report nothing exactly when the model is well formed.
pub proof fn lemma_model_errors_empty(m: Model)
    ensures
        spec_model_errors(m).len() == 0 <==> spec_model_well_formed(m),
{
    let vars = m.variables.variables@;
    let names = spec_names(vars);
    lemma_duplicates_iff(spec_named(vars).map_values(|p: (Seq<char>, int)| p.0));
    assert(spec_named(vars).map_values(|p: (Seq<char>, int)| p.0) == names);
    lemma_dimension_errors_empty(vars, Seq::empty());
    lemma_groups_errors_empty(spec_groups_of(vars), names);
    match m.views {
        Some(vs) => lemma_views_errors_empty(vs.views@, names),
        None => {},
    }
}

/// An item of either part of a concatenation is an item of the whole.
proof fn lemma_concat_contains<T>(a: Seq<T>, b: Seq<T>, x: T)
    requires
        a.contains(x) || b.contains(x),
    ensures
        (a + b).contains(x),
{
    if a.contains(x) {
        let i = choose|i: int| 0 <= i < a.len() && a[i] == x;
        assert((a + b)[i] == x);
    } else {
        let i = choose|i: int| 0 <= i < b.len() && b[i] == x;
        assert((a + b)[a.len() + i] == x);
    }
}

/// The errors of each view are among the errors of all the views.
proof fn lemma_view_errors_in_views(views: Seq<DiagramView>, names: Seq<Seq<char>>, i: int, e: Seq<char>)
    requires
        0 <= i < views.len(),
        (spec_view_reference_errors(views[i], names) + spec_uid_errors(spec_view_uid_items(views[i]))).contains(e),
    ensures
        spec_views_errors(views, names).contains(e),
    decreases views.len(),
{
    let rest = views.drop_last();
    let last = views.last();
    if i == views.len() - 1 {
        let own = spec_view_reference_errors(last, names) + spec_uid_errors(spec_view_uid_items(last));
        let j = choose|j: int| 0 <= j < own.len() && own[j] == e;
        let prefix = spec_views_errors(rest, names);
        assert(spec_views_errors(views, names) =~= prefix + own);
        assert((prefix + own)[prefix.len() + j] == e);
    } else {
        assert(rest[i] == views[i]);
        lemma_view_errors_in_views(rest, names, i, e);
        let own = spec_view_reference_errors(last, names) + spec_uid_errors(spec_view_uid_items(last));
        assert(spec_views_errors(views, names) =~= spec_views_errors(rest, names) + own);
        lemma_concat_contains(spec_views_errors(rest, names), own, e);
    }
}

/// Validating a model reports every error of each of its checks: repeated variable names,
/// undefined dimensions, each view's unresolved objects and repeated UIDs, and group members
/// that name no variable.
pub proof fn lemma_model_reports_every_check(m: Model)
    ensures
        forall|e: Seq<char>| #[trigger] spec_name_errors(m.variables.variables@).contains(e)
            ==> spec_model_errors(m).contains(e),
        forall|e: Seq<char>| #[trigger] spec_dimension_errors(m.variables.variables@, Seq::empty()).contains(e)
            ==> spec_model_errors(m).contains(e),
        forall|e: Seq<char>| #[trigger] spec_groups_errors(
            spec_groups_of(m.variables.variables@),
            spec_names(m.variables.variables@),
        ).contains(e) ==> spec_model_errors(m).contains(e),
        m.views matches Some(vs) ==> forall|i: int, e: Seq<char>|
            #![trigger spec_view_reference_errors(vs.views@[i], spec_names(m.variables.variables@)).contains(e)]
            #![trigger spec_uid_errors(spec_view_uid_items(vs.views@[i])).contains(e)]
            0 <= i < vs.views@.len() && (spec_view_reference_errors(vs.views@[i], spec_names(m.variables.variables@)).contains(e)
                || spec_uid_errors(spec_view_uid_items(vs.views@[i])).contains(e)) ==> spec_model_errors(m).contains(e),
{
    let vars = m.variables.variables@;
    let names = spec_names(vars);
    let a = spec_name_errors(vars);
    let b = spec_dimension_errors(vars, Seq::empty());
    let c = match m.views {
        Some(vs) => spec_views_errors(vs.views@, names),
        None => Seq::empty(),
    };
    let d = spec_groups_errors(spec_groups_of(vars), names);
    assert(spec_model_errors(m) == a + b + c + d);
    assert forall|e: Seq<char>| #[trigger] a.contains(e) implies spec_model_errors(m).contains(e) by {
        lemma_concat_contains(a, b, e);
        lemma_concat_contains(a + b, c, e);
        lemma_concat_contains(a + b + c, d, e);
    }
    assert forall|e: Seq<char>| #[trigger] b.contains(e) implies spec_model_errors(m).contains(e) by {
        lemma_concat_contains(a, b, e);
        lemma_concat_contains(a + b, c, e);
        lemma_concat_contains(a + b + c, d, e);
    }
    assert forall|e: Seq<char>| #[trigger] d.contains(e) implies spec_model_errors(m).contains(e) by {
        lemma_concat_contains(a + b + c, d, e);
    }
    match m.views {
        Some(vs) => {
            assert forall|i: int, e: Seq<char>|
                #![trigger spec_view_reference_errors(vs.views@[i], names).contains(e)]
                #![trigger spec_uid_errors(spec_view_uid_items(vs.views@[i])).contains(e)]
                0 <= i < vs.views@.len() && (spec_view_reference_errors(vs.views@[i], names).contains(e)
                    || spec_uid_errors(spec_view_uid_items(vs.views@[i])).contains(e)) implies spec_model_errors(m).contains(e) by {
                lemma_concat_contains(
                    spec_view_reference_errors(vs.views@[i], names),
                    spec_uid_errors(spec_view_uid_items(vs.views@[i])),
                    e,
                );
                lemma_view_errors_in_views(vs.views@, names, i, e);
                lemma_concat_contains(a + b, c, e);
                lemma_concat_contains(a + b + c, d, e);
            }
        },
        None => {},
    }
}

/// Adds the warnings and errors of one validation result to the running lists.
fn absorb(warnings: &mut Vec<String>, errors: &mut Vec<String>, r: ValidationResult, Ghost(expected): Ghost<Seq<Seq<char>>>)
    requires
        spec_result_of_errors(expected, r),
    ensures
        spec_texts(final(warnings)@) == spec_texts(old(warnings)@),
        spec_texts(final(errors)@) == spec_texts(old(errors)@) + expected,
{
    match r {
        ValidationResult::Valid(_) => {
            proof {
                assert(spec_texts(errors@) =~= spec_texts(errors@) + expected);
            }
        },
        ValidationResult::Warnings(_, w) => {
            let mut w = w;
            warnings.append(&mut w);
        },
        ValidationResult::Invalid(w, e) => {
            let ghost before = errors@;
            let mut w = w;
            let mut e = e;
            let ghost e_before = e@;
            warnings.append(&mut w);
            errors.append(&mut e);
            proof {
                assert(spec_texts(errors@) =~= spec_texts(before) + spec_texts(e_before));
            }
        },
    }
}

impl Model {
    /// Checks the structure of the model: unique variable names, defined dimensions, view
    /// objects that name variables, unique UIDs within each view, and group entities that
    /// name variables. Valid when nothing is reported; invalid with all errors otherwise.
    pub fn validate(&self) -> (r: ValidationResult)
        ensures
            spec_result_of_errors(spec_model_errors(*self), r),
            r is Valid <==> spec_model_well_formed(*self),
    {
        let mut warnings: Vec<String> = Vec::new();
        let mut errors: Vec<String> = Vec::new();
        let vars = self.variables.variables.as_slice();
        let ghost names = spec_names(vars@);
        proof {
            assert(spec_texts(errors@) =~= Seq::<Seq<char>>::empty());
            assert(spec_texts(warnings@) =~= Seq::<Seq<char>>::empty());
        }
        let r1 = validate_variable_name_uniqueness(vars);
        absorb(&mut warnings, &mut errors, r1, Ghost(spec_name_errors(vars@)));
        let no_dimensions = None;
        let r2 = validate_dimension_references(vars, &no_dimensions);
        absorb(&mut warnings, &mut errors, r2, Ghost(spec_dimension_errors(vars@, Seq::empty())));
        let ghost after_vars = spec_texts(errors@);
        match &self.views {
            Some(views) => {
                let mut i: usize = 0;
                while i < views.views.len()
                    invariant
                        i <= views.views@.len(),
                        names == spec_names(vars@),
                        spec_texts(warnings@).len() == 0,
                        spec_texts(errors@) == after_vars + spec_views_errors(views.views@.take(i as int), names),
                    decreases views.views@.len() - i,
                {
                    let view = &views.views[i];
                    let r3 = validate_view_object_references(view, vars);
                    absorb(&mut warnings, &mut errors, r3, Ghost(spec_view_reference_errors(*view, names)));
                    let r4 = validate_view_uids_unique(view);
                    absorb(&mut warnings, &mut errors, r4, Ghost(spec_uid_errors(spec_view_uid_items(*view))));
                    proof {
                        assert(views.views@.take(i + 1).drop_last() =~= views.views@.take(i as int));
                        assert(views.views@.take(i + 1).last() == views.views@[i as int]);
                    }
                    i = i + 1;
                }
                proof {
                    assert(views.views@.take(views.views@.len() as int) =~= views.views@);
                }
            },
            None => {
                proof {
                    assert(spec_texts(errors@) =~= after_vars + Seq::<Seq<char>>::empty());
                }
            },
        }
        let r5 = validate_groups_of(vars);
        absorb(&mut warnings, &mut errors, r5, Ghost(spec_groups_errors(spec_groups_of(vars@), names)));
        proof {
            assert(spec_texts(errors@) =~= spec_model_errors(*self));
            lemma_model_errors_empty(*self);
        }
        if errors.len() == 0 {
            if warnings.len() == 0 {
                ValidationResult::Valid(())
            } else {
                ValidationResult::Warnings((), warnings)
            }
        } else {
            ValidationResult::Invalid(warnings, errors)
        }
    }
}

/// The names of the named graphical functions among the variables, in order; embedded
/// graphical functions, which have no name, are left out.
pub open spec fn spec_gf_names(vars: Seq<Variable>) -> Seq<Seq<char>>
    decreases vars.len(),
{
    if vars.len() == 0 {
        Seq::empty()
    } else {
        let rest = spec_gf_names(vars.drop_last());
        match vars.last() {
            Variable::GraphicalFunction(g) => match g.name {
                Some(n) => rest.push(n@),
                None => rest,
            },
            _ => rest,
        }
    }
}

/// The graphical functions that equations can call by name.
#[derive(Debug)]
pub struct GraphicalFunctionRegistry {
    names: Vec<String>,
}

impl View for GraphicalFunctionRegistry {
    type V = Seq<Seq<char>>;

    /// The names of the registered functions, in model order.
    closed spec fn view(&self) -> Seq<Seq<char>> {
        spec_texts(self.names@)
    }
}

impl GraphicalFunctionRegistry {
    /// Whether a graphical function of that name is registered.
    pub fn contains(&self, name: &str) -> (r: bool)
        ensures
            r == self@.contains(name@),
    {
        let mut i: usize = 0;
        while i < self.names.len()
            invariant
                i <= self.names@.len(),
                forall|j: int| 0 <= j < i ==> self@[j] != name@,
            decreases self.names@.len() - i,
        {
            if str_eq(self.names[i].as_str(), name) {
                proof {
                    assert(self@[i as int] == name@);
                }
                return true;
            }
            i = i + 1;
        }
        false
    }

    /// The number of registered functions.
    pub fn len(&self) -> (r: usize)
        ensures
            r == self@.len(),
    {
        self.names.len()
    }
}

impl Model {
    /// Builds a graphical function registry from the variables in this model. Only named
    /// graphical functions are included in the registry.
    pub fn build_gf_registry(&self) -> (r: GraphicalFunctionRegistry)
        ensures
            r@ == spec_gf_names(self.variables.variables@),
    {
        let vars = &self.variables.variables;
        let mut names: Vec<String> = Vec::new();
        let mut i: usize = 0;
        while i < vars.len()
            invariant
                i <= vars@.len(),
                spec_texts(names@) == spec_gf_names(vars@.take(i as int)),
            decreases vars@.len() - i,
        {
            proof {
                assert(vars@.take(i + 1).drop_last() =~= vars@.take(i as int));
                assert(vars@.take(i + 1).last() == vars@[i as int]);
            }
            match &vars[i] {
                Variable::GraphicalFunction(g) => match &g.name {
                    Some(n) => {
                        let ghost before = names@;
                        names.push(n.clone());
                        proof {
                            assert(spec_texts(names@) =~= spec_texts(before).push(n@));
                        }
                    },
                    None => {},
                },
                _ => {},
            }
            i = i + 1;
        }
        proof {
            assert(vars@.take(vars@.len() as int) =~= vars@);
        }
        GraphicalFunctionRegistry { names }
    }
}

/// The tags under which variables are written inside `<variables>`.
#[derive(Debug, Clone, Copy, PartialEq, Eq, Structural)]
pub enum VariableTag {
    Stock,
    Flow,
    Aux,
    Gf,
    Module,
    Group,
}

/// The text of a variable tag.
pub open spec fn spec_variable_tag_text(t: VariableTag) -> Seq<char> {
    match t {
        VariableTag::Stock => "stock"@,
        VariableTag::Flow => "flow"@,
        VariableTag::Aux => "aux"@,
        VariableTag::Gf => "gf"@,
        VariableTag::Module => "module"@,
        VariableTag::Group => "group"@,
    }
}

/// The variable tag a tag name stands for; other names are skipped when reading.
pub open spec fn spec_variable_tag_from_text(s: Seq<char>) -> Option<VariableTag> {
    if s == "stock"@ {
        Some(VariableTag::Stock)
    } else if s == "flow"@ {
        Some(VariableTag::Flow)
    } else if s == "aux"@ {
        Some(VariableTag::Aux)
    } else if s == "gf"@ {
        Some(VariableTag::Gf)
    } else if s == "module"@ {
        Some(VariableTag::Module)
    } else if s == "group"@ {
        Some(VariableTag::Group)
    } else {
        None
    }
}

/// The tag a variable is written under.
pub open spec fn spec_variable_tag_of(v: Variable) -> VariableTag {
    match v {
        Variable::Auxiliary(_) => VariableTag::Aux,
        Variable::Stock(_) => VariableTag::Stock,
        Variable::Flow(_) => VariableTag::Flow,
        Variable::GraphicalFunction(_) => VariableTag::Gf,
        Variable::Module(_) => VariableTag::Module,
        Variable::Group(_) => VariableTag::Group,
    }
}

/// The tag a variable is written under inside `<variables>`.
pub fn variable_tag(var: &Variable) -> (r: VariableTag)
    ensures
        r == spec_variable_tag_of(*var),
{
    match var {
        Variable::Auxiliary(_) => VariableTag::Aux,
        Variable::Stock(_) => VariableTag::Stock,
        Variable::Flow(_) => VariableTag::Flow,
        Variable::GraphicalFunction(_) => VariableTag::Gf,
        Variable::Module(_) => VariableTag::Module,
        Variable::Group(_) => VariableTag::Group,
    }
}

/// The text of a variable tag.
pub fn variable_tag_text(t: VariableTag) -> (r: &'static str)
    ensures
        r@ == spec_variable_tag_text(t),
{
    match t {
        VariableTag::Stock => "stock",
        VariableTag::Flow => "flow",
        VariableTag::Aux => "aux",
        VariableTag::Gf => "gf",
        VariableTag::Module => "module",
        VariableTag::Group => "group",
    }
}

/// The kind of variable a tag inside `<variables>` holds, if it holds one.
pub fn variable_tag_from_name(name: &str) -> (r: Option<VariableTag>)
    ensures
        r == spec_variable_tag_from_text(name@),
{
    if str_eq(name, "stock") {
        Some(VariableTag::Stock)
    } else if str_eq(name, "flow") {
        Some(VariableTag::Flow)
    } else if str_eq(name, "aux") {
        Some(VariableTag::Aux)
    } else if str_eq(name, "gf") {
        Some(VariableTag::Gf)
    } else if str_eq(name, "module") {
        Some(VariableTag::Module)
    } else if str_eq(name, "group") {
        Some(VariableTag::Group)
    } else {
        None
    }
}

/// Every variable is read back as the kind it was written as: the tag it is written under
/// names its kind.
pub proof fn lemma_variable_tag_round_trip(t: VariableTag)
    ensures
        spec_variable_tag_from_text(spec_variable_tag_text(t)) == Some(t),
{
    reveal_strlit("stock");
    reveal_strlit("flow");
    reveal_strlit("aux");
    reveal_strlit("gf");
    reveal_strlit("module");
    reveal_strlit("group");
    assert("stock"@.len() == 5);
    assert("flow"@.len() == 4);
    assert("aux"@.len() == 3);
    assert("gf"@.len() == 2);
    assert("module"@.len() == 6);
    assert("group"@.len() == 5);
    lemma_texts_differ_at("stock"@, "group"@, 0);
}

} // verus!
