//! Validation of XMILE models: unique names and UIDs, and references that must resolve.

use vstd::prelude::*;
use vstd::string::*;
use crate::model::{
    spec_variable_name, AliasObject, DefinedDimension, DiagramView, Dimension, Dimensions, Group, GroupEntity, NamedObject, Stock, Variable, ViewObject,
};
use crate::text::{format_i32, format_usize, join_strings, spec_int_text, spec_join, spec_texts, str_eq};

verus! {

/// The outcome of validating a part of a model.
#[derive(Debug, PartialEq, Eq)]
pub enum ValidationResult {
    /// Nothing to report.
    Valid(()),
    /// Acceptable, with warnings.
    Warnings((), Vec<String>),
    /// Not acceptable: warnings, then errors.
    Invalid(Vec<String>, Vec<String>),
}

/// The positions before `n` at which `keys` holds `k`, in increasing order.
pub open spec fn positions_of<K>(keys: Seq<K>, k: K, n: nat) -> Seq<int>
    decreases n,
{
    if n == 0 {
        Seq::empty()
    } else {
        let p = positions_of(keys, k, (n - 1) as nat);
        if keys[n - 1] == k {
            p.push(n - 1)
        } else {
            p
        }
    }
}

/// Position `i` holds the first occurrence of a key that occurs more than once.
pub open spec fn is_duplicated_first<K>(keys: Seq<K>, i: int) -> bool {
    let p = positions_of(keys, keys[i], keys.len());
    p.len() > 1 && p[0] == i
}

/// The positions before `n` that hold the first occurrence of a repeated key, in order.
pub open spec fn duplicated_firsts<K>(keys: Seq<K>, n: nat) -> Seq<int>
    decreases n,
{
    if n == 0 {
        Seq::empty()
    } else {
        let d = duplicated_firsts(keys, (n - 1) as nat);
        if is_duplicated_first(keys, n - 1) {
            d.push(n - 1)
        } else {
            d
        }
    }
}

/// No key occurs twice.
pub open spec fn all_distinct<K>(keys: Seq<K>) -> bool {
    forall|i: int, j: int| 0 <= i < j < keys.len() ==> keys[i] != keys[j]
}

/// The positions of a key are exactly the positions holding it, in increasing order.
pub proof fn lemma_positions_of<K>(keys: Seq<K>, k: K, n: nat)
    requires
        n <= keys.len(),
    ensures
        forall|j: int| positions_of(keys, k, n).contains(j) <==> (0 <= j < n && keys[j] == k),
        forall|a: int, b: int|
            0 <= a < b < positions_of(keys, k, n).len() ==> positions_of(keys, k, n)[a] < positions_of(keys, k, n)[b],
        forall|a: int| 0 <= a < positions_of(keys, k, n).len() ==> 0 <= #[trigger] positions_of(keys, k, n)[a] < n,
    decreases n,
{
    if n > 0 {
        lemma_positions_of(keys, k, (n - 1) as nat);
        let p = positions_of(keys, k, (n - 1) as nat);
        if keys[n - 1] == k {
            assert forall|j: int| p.push(n - 1).contains(j) <==> (0 <= j < n && keys[j] == k) by {
                if j == n - 1 {
                    assert(p.push(n - 1)[p.len() as int] == j);
                }
                let q = p.push(n - 1);
                if q.contains(j) && j != n - 1 {
                    let a = choose|a: int| 0 <= a < q.len() && q[a] == j;
                    assert(p[a] == j);
                    assert(p.contains(j));
                }
                if p.contains(j) {
                    let a = choose|a: int| 0 <= a < p.len() && p[a] == j;
                    assert(p.push(n - 1)[a] == j);
                }
            }
        }
    }
}

/// When two positions hold the same key, the first position of that key is reported as the
/// first occurrence of a repeated key.
pub proof fn lemma_duplicate_reported<K>(keys: Seq<K>, i: int, j: int)
    requires
        0 <= i < j < keys.len(),
        keys[i] == keys[j],
    ensures
        duplicated_firsts(keys, keys.len()).len() > 0,
{
    let k = keys[i];
    let n = keys.len();
    lemma_positions_of(keys, k, n);
    let p = positions_of(keys, k, n);
    assert(p.contains(i));
    assert(p.contains(j));
    let a = choose|a: int| 0 <= a < p.len() && p[a] == i;
    let b = choose|b: int| 0 <= b < p.len() && p[b] == j;
    assert(p.len() > 1);
    let f = p[0];
    assert(p.contains(f));
    assert(keys[f] == k);
    assert(is_duplicated_first(keys, f));
    lemma_duplicated_firsts_contains(keys, n, f);
}

/// A position below `n` that holds the first occurrence of a repeated key is listed.
pub proof fn lemma_duplicated_firsts_contains<K>(keys: Seq<K>, n: nat, f: int)
    requires
        0 <= f < n,
        is_duplicated_first(keys, f),
    ensures
        duplicated_firsts(keys, n).contains(f),
    decreases n,
{
    if f < n - 1 {
        lemma_duplicated_firsts_contains(keys, (n - 1) as nat, f);
        let d = duplicated_firsts(keys, (n - 1) as nat);
        let a = choose|a: int| 0 <= a < d.len() && d[a] == f;
        if is_duplicated_first(keys, n - 1) {
            assert(d.push(n - 1)[a] == f);
        }
    } else {
        let d = duplicated_firsts(keys, (n - 1) as nat);
        assert(d.push(n - 1)[d.len() as int] == f);
    }
}

/// Without repeated keys, nothing is reported.
pub proof fn lemma_distinct_nothing_reported<K>(keys: Seq<K>, n: nat)
    requires
        all_distinct(keys),
        n <= keys.len(),
    ensures
        duplicated_firsts(keys, n).len() == 0,
    decreases n,
{
    if n > 0 {
        lemma_distinct_nothing_reported(keys, (n - 1) as nat);
        let i = n - 1;
        let k = keys[i];
        lemma_positions_of(keys, k, keys.len());
        let p = positions_of(keys, k, keys.len());
        if p.len() > 1 {
            assert(p.contains(p[0]));
            assert(p.contains(p[1]));
            assert(keys[p[0]] == keys[p[1]]);
        }
    }
}

/// Repeated keys are reported exactly when some key occurs twice.
pub proof fn lemma_duplicates_iff<K>(keys: Seq<K>)
    ensures
        duplicated_firsts(keys, keys.len()).len() == 0 <==> all_distinct(keys),
{
    if all_distinct(keys) {
        lemma_distinct_nothing_reported(keys, keys.len());
    } else {
        let (i, j) = choose|i: int, j: int| 0 <= i < j < keys.len() && keys[i] == keys[j];
        lemma_duplicate_reported(keys, i, j);
    }
}

/// The name of a variable, if it has one.
pub fn get_variable_name(var: &Variable) -> (r: Option<&String>)
    ensures
        match r {
            Some(n) => spec_variable_name(*var) == Some(n@),
            None => spec_variable_name(*var) is None,
        },
{
    match var {
        Variable::Auxiliary(aux) => Some(&aux.name),
        Variable::Stock(stock) => match stock {
            Stock::Basic { name, .. } => Some(name),
            Stock::Conveyor { name, .. } => Some(name),
            Stock::Queue { name, .. } => Some(name),
        },
        Variable::Flow(flow) => Some(&flow.name),
        Variable::GraphicalFunction(gf) => match &gf.name {
            Some(n) => Some(n),
            None => None,
        },
        Variable::Module(module) => Some(&module.name),
        Variable::Group(group) => Some(&group.name),
    }
}

/// The named variables, as (name, position in the list) pairs, in list order.
pub open spec fn spec_named(vars: Seq<Variable>) -> Seq<(Seq<char>, int)>
    decreases vars.len(),
{
    if vars.len() == 0 {
        Seq::empty()
    } else {
        let r = spec_named(vars.drop_last());
        match spec_variable_name(vars.last()) {
            Some(n) => r.push((n, vars.len() - 1)),
            None => r,
        }
    }
}

/// The names of the named variables, in list order.
pub open spec fn spec_names(vars: Seq<Variable>) -> Seq<Seq<char>> {
    spec_named(vars).map_values(|p: (Seq<char>, int)| p.0)
}

/// The error reported for a variable name that occurs more than once; `f` is the position
/// (among the named variables) of its first occurrence.
pub open spec fn spec_name_error(named: Seq<(Seq<char>, int)>, f: int) -> Seq<char> {
    let keys = named.map_values(|p: (Seq<char>, int)| p.0);
    let p = positions_of(keys, keys[f], keys.len());
    "Variable name '"@ + keys[f] + "' appears "@ + spec_int_text(p.len() as int) + " times at indices: ["@
        + spec_join(p.map_values(|j: int| spec_int_text(named[j].1)), ", "@) + "]"@
}

/// One error per repeated variable name, in the order of the names' first occurrences.
pub open spec fn spec_name_errors(vars: Seq<Variable>) -> Seq<Seq<char>> {
    let named = spec_named(vars);
    let keys = named.map_values(|p: (Seq<char>, int)| p.0);
    duplicated_firsts(keys, keys.len()).map_values(|f: int| spec_name_error(named, f))
}

/// A result that is valid when there are no errors, and otherwise invalid with no warnings
/// and exactly these errors.
pub open spec fn spec_result_of_errors(errors: Seq<Seq<char>>, r: ValidationResult) -> bool {
    if errors.len() == 0 {
        r == ValidationResult::Valid(())
    } else {
        r matches ValidationResult::Invalid(w, e) && w@.len() == 0 && spec_texts(e@) == errors
    }
}

/// The positions at which `keys` holds `k`, in increasing order.
fn positions_of_text(keys: &Vec<String>, k: &str) -> (r: Vec<usize>)
    ensures
        r@.map_values(|x: usize| x as int) == positions_of(spec_texts(keys@), k@, keys@.len()),
{
    let ghost texts = spec_texts(keys@);
    let mut r: Vec<usize> = Vec::new();
    let mut j: usize = 0;
    while j < keys.len()
        invariant
            j <= keys@.len(),
            texts == spec_texts(keys@),
            r@.map_values(|x: usize| x as int) == positions_of(texts, k@, j as nat),
        decreases keys@.len() - j,
    {
        let ghost before = r@;
        if str_eq(keys[j].as_str(), k) {
            r.push(j);
            proof {
                assert(r@.map_values(|x: usize| x as int) =~= before.map_values(|x: usize| x as int).push(j as int));
            }
        }
        j = j + 1;
    }
    r
}

/// Validate that variable names are unique within a model.
pub fn validate_variable_name_uniqueness(variables: &[Variable]) -> (r: ValidationResult)
    ensures
        spec_result_of_errors(spec_name_errors(variables@), r),
        r is Valid <==> all_distinct(spec_names(variables@)),
{
    let mut names: Vec<String> = Vec::new();
    let mut idxs: Vec<usize> = Vec::new();
    let mut i: usize = 0;
    while i < variables.len()
        invariant
            i <= variables@.len(),
            names@.len() == idxs@.len(),
            spec_named(variables@.take(i as int)).len() == names@.len(),
            forall|a: int| 0 <= a < names@.len() ==> spec_named(variables@.take(i as int))[a] == (
                #[trigger] names@[a]@,
                idxs@[a] as int,
            ),
        decreases variables@.len() - i,
    {
        proof {
            assert(variables@.take(i + 1).drop_last() =~= variables@.take(i as int));
        }
        match get_variable_name(&variables[i]) {
            Some(n) => {
                names.push(n.clone());
                idxs.push(i);
            },
            None => {},
        }
        i = i + 1;
    }
    proof {
        assert(variables@.take(variables@.len() as int) =~= variables@);
    }
    let ghost named = spec_named(variables@);
    let ghost keys = named.map_values(|p: (Seq<char>, int)| p.0);
    proof {
        assert(keys =~= spec_texts(names@));
    }
    let mut errors: Vec<String> = Vec::new();
    let mut f: usize = 0;
    while f < names.len()
        invariant
            f <= names@.len(),
            names@.len() == idxs@.len(),
            named == spec_named(variables@),
            keys == named.map_values(|p: (Seq<char>, int)| p.0),
            keys == spec_texts(names@),
            named.len() == names@.len(),
            forall|a: int| 0 <= a < names@.len() ==> named[a] == (#[trigger] names@[a]@, idxs@[a] as int),
            spec_texts(errors@) == duplicated_firsts(keys, f as nat).map_values(|g: int| spec_name_error(named, g)),
        decreases names@.len() - f,
    {
        let positions = positions_of_text(&names, names[f].as_str());
        let ghost p = positions_of(keys, keys[f as int], keys.len());
        proof {
            assert(names@[f as int]@ == keys[f as int]);
            lemma_positions_of(keys, keys[f as int], keys.len());
        }
        let ghost before = errors@;
        if positions.len() > 1 && positions[0] == f {
            let mut index_texts: Vec<String> = Vec::new();
            let mut a: usize = 0;
            while a < positions.len()
                invariant
                    a <= positions@.len(),
                    positions@.map_values(|x: usize| x as int) == p,
                    forall|b: int| 0 <= b < p.len() ==> 0 <= #[trigger] p[b] < names@.len(),
                    names@.len() == idxs@.len(),
                    forall|b: int| 0 <= b < names@.len() ==> named[b] == (#[trigger] names@[b]@, idxs@[b] as int),
                    spec_texts(index_texts@) == p.take(a as int).map_values(|j: int| spec_int_text(named[j].1)),
                decreases positions@.len() - a,
            {
                proof {
                    assert(p[a as int] == positions@[a as int] as int);
                }
                let ghost old_texts = index_texts@;
                let t = format_usize(idxs[positions[a]]);
                index_texts.push(t);
                proof {
                    let j = p[a as int];
                    assert(0 <= j < names@.len());
                    assert(named[j] == (names@[j]@, idxs@[j] as int));
                    assert(spec_texts(index_texts@) =~= spec_texts(old_texts).push(t@));
                    assert(p.take(a + 1) =~= p.take(a as int).push(p[a as int]));
                    assert(spec_texts(index_texts@) =~= p.take(a + 1).map_values(|j: int| spec_int_text(named[j].1)));
                }
                a = a + 1;
            }
            proof {
                assert(p.take(p.len() as int) =~= p);
            }
            let mut m = String::from_str("Variable name '");
            m.append(names[f].as_str());
            m.append("' appears ");
            let count = format_usize(positions.len());
            m.append(count.as_str());
            m.append(" times at indices: [");
            let joined = join_strings(&index_texts, ", ");
            m.append(joined.as_str());
            m.append("]");
            proof {
                assert(positions@.len() == p.len());
                assert(m@ =~= spec_name_error(named, f as int));
            }
            errors.push(m);
            proof {
                assert(spec_texts(errors@) =~= spec_texts(before).push(m@));
                assert(is_duplicated_first(keys, f as int));
                assert(spec_texts(errors@) =~= duplicated_firsts(keys, (f + 1) as nat).map_values(
                    |g: int| spec_name_error(named, g),
                ));
            }
        } else {
            proof {
                assert(!is_duplicated_first(keys, f as int));
            }
        }
        f = f + 1;
    }
    proof {
        lemma_duplicates_iff(keys);
    }
    if errors.len() == 0 {
        ValidationResult::Valid(())
    } else {
        ValidationResult::Invalid(Vec::new(), errors)
    }
}

/// A UID with the label of the object that carries it.
pub open spec fn spec_items_view(items: Seq<(i32, String)>) -> Seq<(int, Seq<char>)> {
    items.map_values(|x: (i32, String)| (x.0 as int, x.1@))
}

/// The UIDs of objects that refer to a variable, labelled `kind 'name'`.
pub open spec fn spec_named_labels(kind: Seq<char>, objs: Seq<NamedObject>) -> Seq<(int, Seq<char>)> {
    objs.map_values(|o: NamedObject| (o.uid.value as int, kind + " '"@ + o.name@ + "'"@))
}

/// The UIDs of objects without a name, labelled with their kind.
pub open spec fn spec_plain_labels(kind: Seq<char>, objs: Seq<ViewObject>) -> Seq<(int, Seq<char>)> {
    objs.map_values(|o: ViewObject| (o.uid.value as int, kind))
}

/// The UIDs of aliases, labelled `alias 'of'`.
pub open spec fn spec_alias_labels(objs: Seq<AliasObject>) -> Seq<(int, Seq<char>)> {
    objs.map_values(|o: AliasObject| (o.uid.value as int, "alias '"@ + o.of@ + "'"@))
}

/// Every UID-carrying object of a view with its label, kind after kind.
pub open spec fn spec_view_uid_items(v: DiagramView) -> Seq<(int, Seq<char>)> {
    spec_named_labels("stock"@, v.stocks@) + spec_named_labels("flow"@, v.flows@) + spec_named_labels(
        "aux"@,
        v.auxes@,
    ) + spec_named_labels("module"@, v.modules@) + spec_named_labels("group"@, v.groups@)
        + spec_plain_labels("connector"@, v.connectors@) + spec_alias_labels(v.aliases@) + spec_plain_labels(
        "stacked_container"@,
        v.stacked_containers@,
    ) + spec_plain_labels(
        "slider"@,
        v.sliders@,
    ) + spec_plain_labels("knob"@, v.knobs@) + spec_plain_labels("switch"@, v.switches@)
        + spec_plain_labels("options"@, v.options@) + spec_plain_labels("numeric_input"@, v.numeric_inputs@)
        + spec_plain_labels("list_input"@, v.list_inputs@) + spec_plain_labels(
        "graphical_input"@,
        v.graphical_inputs@,
    ) + spec_plain_labels("numeric_display"@, v.numeric_displays@) + spec_plain_labels("lamp"@, v.lamps@)
        + spec_plain_labels("gauge"@, v.gauges@) + spec_plain_labels("graph"@, v.graphs@) + spec_plain_labels(
        "table"@,
        v.tables@,
    ) + spec_plain_labels("text_box"@, v.text_boxes@) + spec_plain_labels(
        "graphics_frame"@,
        v.graphics_frames@,
    ) + spec_plain_labels("button"@, v.buttons@)
}

/// The UIDs of the labelled objects.
pub open spec fn spec_uid_keys(items: Seq<(int, Seq<char>)>) -> Seq<int> {
    items.map_values(|x: (int, Seq<char>)| x.0)
}

/// The error reported for a UID carried by more than one object; `f` is the position of
/// its first carrier.
pub open spec fn spec_uid_error(items: Seq<(int, Seq<char>)>, f: int) -> Seq<char> {
    let keys = spec_uid_keys(items);
    let p = positions_of(keys, keys[f], keys.len());
    "UID "@ + spec_int_text(keys[f]) + " appears "@ + spec_int_text(p.len() as int) + " times in view: "@
        + spec_join(p.map_values(|j: int| items[j].1), ", "@)
}

/// One error per UID carried more than once, in the order of the UIDs' first carriers.
pub open spec fn spec_uid_errors(items: Seq<(int, Seq<char>)>) -> Seq<Seq<char>> {
    let keys = spec_uid_keys(items);
    duplicated_firsts(keys, keys.len()).map_values(|f: int| spec_uid_error(items, f))
}

/// Appends the UIDs of objects that refer to a variable, labelled `kind 'name'`.
fn push_named(items: &mut Vec<(i32, String)>, kind: &str, objs: &Vec<NamedObject>)
    ensures
        spec_items_view(final(items)@) == spec_items_view(old(items)@) + spec_named_labels(kind@, objs@),
{
    let ghost start = spec_items_view(items@);
    let mut i: usize = 0;
    while i < objs.len()
        invariant
            i <= objs@.len(),
            spec_items_view(items@) == start + spec_named_labels(kind@, objs@.take(i as int)),
        decreases objs@.len() - i,
    {
        let ghost before = items@;
        let mut label = String::from_str(kind);
        label.append(" '");
        label.append(objs[i].name.as_str());
        label.append("'");
        items.push((objs[i].uid.value, label));
        proof {
            assert(objs@.take(i + 1) =~= objs@.take(i as int).push(objs@[i as int]));
            assert(spec_items_view(items@) =~= spec_items_view(before).push((objs@[i as int].uid.value as int, label@)));
            assert(spec_named_labels(kind@, objs@.take(i + 1)) =~= spec_named_labels(kind@, objs@.take(i as int)).push(
                (objs@[i as int].uid.value as int, label@),
            ));
        }
        i = i + 1;
    }
    proof {
        assert(objs@.take(objs@.len() as int) =~= objs@);
    }
}

/// Appends the UIDs of objects without a name, labelled with their kind.
fn push_plain(items: &mut Vec<(i32, String)>, kind: &str, objs: &Vec<ViewObject>)
    ensures
        spec_items_view(final(items)@) == spec_items_view(old(items)@) + spec_plain_labels(kind@, objs@),
{
    let ghost start = spec_items_view(items@);
    let mut i: usize = 0;
    while i < objs.len()
        invariant
            i <= objs@.len(),
            spec_items_view(items@) == start + spec_plain_labels(kind@, objs@.take(i as int)),
        decreases objs@.len() - i,
    {
        let ghost before = items@;
        let label = String::from_str(kind);
        items.push((objs[i].uid.value, label));
        proof {
            assert(objs@.take(i + 1) =~= objs@.take(i as int).push(objs@[i as int]));
            assert(spec_items_view(items@) =~= spec_items_view(before).push((objs@[i as int].uid.value as int, label@)));
            assert(spec_plain_labels(kind@, objs@.take(i + 1)) =~= spec_plain_labels(kind@, objs@.take(i as int)).push(
                (objs@[i as int].uid.value as int, label@),
            ));
        }
        i = i + 1;
    }
    proof {
        assert(objs@.take(objs@.len() as int) =~= objs@);
    }
}

/// Appends the UIDs of aliases, labelled `alias 'of'`.
fn push_aliases(items: &mut Vec<(i32, String)>, objs: &Vec<AliasObject>)
    ensures
        spec_items_view(final(items)@) == spec_items_view(old(items)@) + spec_alias_labels(objs@),
{
    let ghost start = spec_items_view(items@);
    let mut i: usize = 0;
    while i < objs.len()
        invariant
            i <= objs@.len(),
            spec_items_view(items@) == start + spec_alias_labels(objs@.take(i as int)),
        decreases objs@.len() - i,
    {
        let ghost before = items@;
        let mut label = String::from_str("alias '");
        label.append(objs[i].of.as_str());
        label.append("'");
        items.push((objs[i].uid.value, label));
        proof {
            assert(objs@.take(i + 1) =~= objs@.take(i as int).push(objs@[i as int]));
            assert(spec_items_view(items@) =~= spec_items_view(before).push((objs@[i as int].uid.value as int, label@)));
            assert(spec_alias_labels(objs@.take(i + 1)) =~= spec_alias_labels(objs@.take(i as int)).push(
                (objs@[i as int].uid.value as int, label@),
            ));
        }
        i = i + 1;
    }
    proof {
        assert(objs@.take(objs@.len() as int) =~= objs@);
    }
}

/// Every UID-carrying object of a view with its label.
fn view_uid_items(view: &DiagramView) -> (r: Vec<(i32, String)>)
    ensures
        spec_items_view(r@) == spec_view_uid_items(*view),
{
    let mut items: Vec<(i32, String)> = Vec::new();
    proof {
        assert(spec_items_view(items@) =~= Seq::<(int, Seq<char>)>::empty());
    }
    push_named(&mut items, "stock", &view.stocks);
    push_named(&mut items, "flow", &view.flows);
    push_named(&mut items, "aux", &view.auxes);
    push_named(&mut items, "module", &view.modules);
    push_named(&mut items, "group", &view.groups);
    push_plain(&mut items, "connector", &view.connectors);
    push_aliases(&mut items, &view.aliases);
    push_plain(&mut items, "stacked_container", &view.stacked_containers);
    push_plain(&mut items, "slider", &view.sliders);
    push_plain(&mut items, "knob", &view.knobs);
    push_plain(&mut items, "switch", &view.switches);
    push_plain(&mut items, "options", &view.options);
    push_plain(&mut items, "numeric_input", &view.numeric_inputs);
    push_plain(&mut items, "list_input", &view.list_inputs);
    push_plain(&mut items, "graphical_input", &view.graphical_inputs);
    push_plain(&mut items, "numeric_display", &view.numeric_displays);
    push_plain(&mut items, "lamp", &view.lamps);
    push_plain(&mut items, "gauge", &view.gauges);
    push_plain(&mut items, "graph", &view.graphs);
    push_plain(&mut items, "table", &view.tables);
    push_plain(&mut items, "text_box", &view.text_boxes);
    push_plain(&mut items, "graphics_frame", &view.graphics_frames);
    push_plain(&mut items, "button", &view.buttons);
    proof {
        assert(Seq::<(int, Seq<char>)>::empty() + spec_named_labels("stock"@, view.stocks@) =~= spec_named_labels(
            "stock"@,
            view.stocks@,
        ));
    }
    items
}

/// The positions at which the items carry the UID `k`, in increasing order.
fn positions_of_uid(items: &Vec<(i32, String)>, k: i32) -> (r: Vec<usize>)
    ensures
        r@.map_values(|x: usize| x as int) == positions_of(
            spec_uid_keys(spec_items_view(items@)),
            k as int,
            items@.len(),
        ),
{
    let ghost keys = spec_uid_keys(spec_items_view(items@));
    let mut r: Vec<usize> = Vec::new();
    let mut j: usize = 0;
    while j < items.len()
        invariant
            j <= items@.len(),
            keys == spec_uid_keys(spec_items_view(items@)),
            r@.map_values(|x: usize| x as int) == positions_of(keys, k as int, j as nat),
        decreases items@.len() - j,
    {
        let ghost before = r@;
        if items[j].0 == k {
            r.push(j);
            proof {
                assert(r@.map_values(|x: usize| x as int) =~= before.map_values(|x: usize| x as int).push(j as int));
            }
        }
        j = j + 1;
    }
    r
}

/// Validate that UIDs are unique within a view.
pub fn validate_view_uids_unique(view: &DiagramView) -> (r: ValidationResult)
    ensures
        spec_result_of_errors(spec_uid_errors(spec_view_uid_items(*view)), r),
        r is Valid <==> all_distinct(spec_uid_keys(spec_view_uid_items(*view))),
{
    let items = view_uid_items(view);
    let ghost iv = spec_items_view(items@);
    let ghost keys = spec_uid_keys(iv);
    let mut errors: Vec<String> = Vec::new();
    let mut f: usize = 0;
    while f < items.len()
        invariant
            f <= items@.len(),
            iv == spec_items_view(items@),
            keys == spec_uid_keys(iv),
            spec_texts(errors@) == duplicated_firsts(keys, f as nat).map_values(|g: int| spec_uid_error(iv, g)),
        decreases items@.len() - f,
    {
        let positions = positions_of_uid(&items, items[f].0);
        let ghost p = positions_of(keys, keys[f as int], keys.len());
        proof {
            lemma_positions_of(keys, keys[f as int], keys.len());
        }
        let ghost before = errors@;
        if positions.len() > 1 && positions[0] == f {
            let mut labels: Vec<String> = Vec::new();
            let mut a: usize = 0;
            while a < positions.len()
                invariant
                    a <= positions@.len(),
                    positions@.map_values(|x: usize| x as int) == p,
                    forall|b: int| 0 <= b < p.len() ==> 0 <= #[trigger] p[b] < items@.len(),
                    iv == spec_items_view(items@),
                    spec_texts(labels@) == p.take(a as int).map_values(|j: int| iv[j].1),
                decreases positions@.len() - a,
            {
                let ghost old_labels = labels@;
                proof {
                    assert(p[a as int] == positions@[a as int] as int);
                }
                let label = items[positions[a]].1.clone();
                labels.push(label);
                proof {
                    let j = p[a as int];
                    assert(iv[j].1 == items@[j].1@);
                    assert(spec_texts(labels@) =~= spec_texts(old_labels).push(label@));
                    assert(p.take(a + 1) =~= p.take(a as int).push(p[a as int]));
                    assert(spec_texts(labels@) =~= p.take(a + 1).map_values(|j: int| iv[j].1));
                }
                a = a + 1;
            }
            proof {
                assert(p.take(p.len() as int) =~= p);
            }
            let mut m = String::from_str("UID ");
            let uid_text = format_i32(items[f].0);
            m.append(uid_text.as_str());
            m.append(" appears ");
            let count = format_usize(positions.len());
            m.append(count.as_str());
            m.append(" times in view: ");
            let joined = join_strings(&labels, ", ");
            m.append(joined.as_str());
            proof {
                assert(positions@.len() == p.len());
                assert(keys[f as int] == items@[f as int].0 as int);
                assert(m@ =~= spec_uid_error(iv, f as int));
            }
            errors.push(m);
            proof {
                assert(spec_texts(errors@) =~= spec_texts(before).push(m@));
                assert(is_duplicated_first(keys, f as int));
                assert(spec_texts(errors@) =~= duplicated_firsts(keys, (f + 1) as nat).map_values(
                    |g: int| spec_uid_error(iv, g),
                ));
            }
        } else {
            proof {
                assert(!is_duplicated_first(keys, f as int));
            }
        }
        f = f + 1;
    }
    proof {
        lemma_duplicates_iff(keys);
    }
    if errors.len() == 0 {
        ValidationResult::Valid(())
    } else {
        ValidationResult::Invalid(Vec::new(), errors)
    }
}

/// Whether one of the strings has the text of `s`.
fn text_in(names: &Vec<String>, s: &str) -> (r: bool)
    ensures
        r == spec_texts(names@).contains(s@),
{
    let mut i: usize = 0;
    while i < names.len()
        invariant
            i <= names@.len(),
            forall|j: int| 0 <= j < i ==> names@[j]@ != s@,
        decreases names@.len() - i,
    {
        if str_eq(names[i].as_str(), s) {
            proof {
                assert(spec_texts(names@)[i as int] == s@);
            }
            return true;
        }
        i = i + 1;
    }
    proof {
        if spec_texts(names@).contains(s@) {
            let j = choose|j: int| 0 <= j < spec_texts(names@).len() && spec_texts(names@)[j] == s@;
            assert(names@[j]@ == s@);
        }
    }
    false
}

/// The names of the named variables, in list order.
fn variable_names(variables: &[Variable]) -> (r: Vec<String>)
    ensures
        spec_texts(r@) == spec_names(variables@),
{
    let mut names: Vec<String> = Vec::new();
    let mut i: usize = 0;
    while i < variables.len()
        invariant
            i <= variables@.len(),
            spec_texts(names@) == spec_names(variables@.take(i as int)),
        decreases variables@.len() - i,
    {
        let ghost before = names@;
        proof {
            assert(variables@.take(i + 1).drop_last() =~= variables@.take(i as int));
        }
        match get_variable_name(&variables[i]) {
            Some(n) => {
                names.push(n.clone());
                proof {
                    assert(spec_texts(names@) =~= spec_texts(before).push(n@));
                    assert(spec_names(variables@.take(i + 1)) =~= spec_names(variables@.take(i as int)).push(n@));
                }
            },
            None => {},
        }
        i = i + 1;
    }
    proof {
        assert(variables@.take(variables@.len() as int) =~= variables@);
    }
    names
}

/// The messages for display objects whose name is not a variable name, in order.
pub open spec fn spec_unresolved_objects(kind: Seq<char>, objs: Seq<NamedObject>, names: Seq<Seq<char>>) -> Seq<Seq<char>>
    decreases objs.len(),
{
    if objs.len() == 0 {
        Seq::empty()
    } else {
        let rest = spec_unresolved_objects(kind, objs.drop_last(), names);
        let o = objs.last();
        if names.contains(o.name@) {
            rest
        } else {
            rest.push(
                kind + " object '"@ + o.name@ + "' (UID "@ + spec_int_text(o.uid.value as int)
                    + ") does not reference a valid variable"@,
            )
        }
    }
}

/// The errors for the stock, flow, aux and module objects of a view that do not name a variable.
pub open spec fn spec_view_reference_errors(view: DiagramView, names: Seq<Seq<char>>) -> Seq<Seq<char>> {
    spec_unresolved_objects("Stock"@, view.stocks@, names) + spec_unresolved_objects("Flow"@, view.flows@, names)
        + spec_unresolved_objects("Aux"@, view.auxes@, names) + spec_unresolved_objects(
        "Module"@,
        view.modules@,
        names,
    )
}

/// Every object of the list names one of the names.
pub open spec fn spec_all_resolved(objs: Seq<NamedObject>, names: Seq<Seq<char>>) -> bool {
    forall|i: int| 0 <= i < objs.len() ==> names.contains(#[trigger] objs[i].name@)
}

/// No messages exactly when every object names one of the names.
pub proof fn lemma_unresolved_empty(kind: Seq<char>, objs: Seq<NamedObject>, names: Seq<Seq<char>>)
    ensures
        spec_unresolved_objects(kind, objs, names).len() == 0 <==> spec_all_resolved(objs, names),
    decreases objs.len(),
{
    if objs.len() > 0 {
        lemma_unresolved_empty(kind, objs.drop_last(), names);
        if spec_all_resolved(objs, names) {
            assert forall|i: int| 0 <= i < objs.drop_last().len() implies names.contains(
                #[trigger] objs.drop_last()[i].name@,
            ) by {
                assert(objs.drop_last()[i] == objs[i]);
            }
        }
        if spec_all_resolved(objs.drop_last(), names) && names.contains(objs.last().name@) {
            assert forall|i: int| 0 <= i < objs.len() implies names.contains(#[trigger] objs[i].name@) by {
                if i < objs.len() - 1 {
                    assert(objs.drop_last()[i] == objs[i]);
                }
            }
        }
    }
}

/// Appends the messages for the objects that do not name a variable.
fn push_unresolved(errors: &mut Vec<String>, kind: &str, objs: &Vec<NamedObject>, names: &Vec<String>)
    ensures
        spec_texts(final(errors)@) == spec_texts(old(errors)@) + spec_unresolved_objects(kind@, objs@, spec_texts(names@)),
{
    let ghost start = spec_texts(errors@);
    let ghost nm = spec_texts(names@);
    let mut i: usize = 0;
    while i < objs.len()
        invariant
            i <= objs@.len(),
            nm == spec_texts(names@),
            spec_texts(errors@) == start + spec_unresolved_objects(kind@, objs@.take(i as int), nm),
        decreases objs@.len() - i,
    {
        let ghost before = errors@;
        proof {
            assert(objs@.take(i + 1).drop_last() =~= objs@.take(i as int));
            assert(objs@.take(i + 1).last() == objs@[i as int]);
        }
        if !text_in(names, objs[i].name.as_str()) {
            let mut m = String::from_str(kind);
            m.append(" object '");
            m.append(objs[i].name.as_str());
            m.append("' (UID ");
            let uid_text = format_i32(objs[i].uid.value);
            m.append(uid_text.as_str());
            m.append(") does not reference a valid variable");
            errors.push(m);
            proof {
                assert(spec_texts(errors@) =~= spec_texts(before).push(m@));
            }
        }
        i = i + 1;
    }
    proof {
        assert(objs@.take(objs@.len() as int) =~= objs@);
    }
}

/// Validate that the stock, flow, aux and module objects of a view name variables of the model.
pub fn validate_view_object_references(view: &DiagramView, variables: &[Variable]) -> (r: ValidationResult)
    ensures
        spec_result_of_errors(spec_view_reference_errors(*view, spec_names(variables@)), r),
        r is Valid <==> {
            &&& spec_all_resolved(view.stocks@, spec_names(variables@))
            &&& spec_all_resolved(view.flows@, spec_names(variables@))
            &&& spec_all_resolved(view.auxes@, spec_names(variables@))
            &&& spec_all_resolved(view.modules@, spec_names(variables@))
        },
{
    let names = variable_names(variables);
    let mut errors: Vec<String> = Vec::new();
    proof {
        assert(spec_texts(errors@) =~= Seq::<Seq<char>>::empty());
    }
    push_unresolved(&mut errors, "Stock", &view.stocks, &names);
    push_unresolved(&mut errors, "Flow", &view.flows, &names);
    push_unresolved(&mut errors, "Aux", &view.auxes, &names);
    push_unresolved(&mut errors, "Module", &view.modules, &names);
    proof {
        let nm = spec_names(variables@);
        assert(spec_texts(errors@) =~= spec_view_reference_errors(*view, nm));
        lemma_unresolved_empty("Stock"@, view.stocks@, nm);
        lemma_unresolved_empty("Flow"@, view.flows@, nm);
        lemma_unresolved_empty("Aux"@, view.auxes@, nm);
        lemma_unresolved_empty("Module"@, view.modules@, nm);
    }
    if errors.len() == 0 {
        ValidationResult::Valid(())
    } else {
        ValidationResult::Invalid(Vec::new(), errors)
    }
}

/// The messages for the entities of one group that are not variable names, in order.
pub open spec fn spec_group_entity_errors(group: Seq<char>, entities: Seq<GroupEntity>, names: Seq<Seq<char>>) -> Seq<Seq<char>>
    decreases entities.len(),
{
    if entities.len() == 0 {
        Seq::empty()
    } else {
        let rest = spec_group_entity_errors(group, entities.drop_last(), names);
        let e = entities.last();
        if names.contains(e.name@) {
            rest
        } else {
            rest.push("Group '"@ + group + "' references undefined entity '"@ + e.name@ + "'"@)
        }
    }
}

/// The messages for all groups, group after group.
pub open spec fn spec_groups_errors(groups: Seq<Group>, names: Seq<Seq<char>>) -> Seq<Seq<char>>
    decreases groups.len(),
{
    if groups.len() == 0 {
        Seq::empty()
    } else {
        spec_groups_errors(groups.drop_last(), names) + spec_group_entity_errors(
            groups.last().name@,
            groups.last().entities@,
            names,
        )
    }
}

/// Every entity of every group is a variable name.
pub open spec fn spec_groups_resolved(groups: Seq<Group>, names: Seq<Seq<char>>) -> bool {
    forall|g: int, e: int|
        0 <= g < groups.len() && 0 <= e < groups[g].entities@.len() ==> names.contains(
            #[trigger] groups[g].entities@[e].name@,
        )
}

/// No messages for one group exactly when all its entities are variable names.
pub proof fn lemma_group_entity_errors_empty(group: Seq<char>, entities: Seq<GroupEntity>, names: Seq<Seq<char>>)
    ensures
        spec_group_entity_errors(group, entities, names).len() == 0 <==> (forall|e: int|
            0 <= e < entities.len() ==> names.contains(#[trigger] entities[e].name@)),
    decreases entities.len(),
{
    if entities.len() > 0 {
        lemma_group_entity_errors_empty(group, entities.drop_last(), names);
        if forall|e: int| 0 <= e < entities.len() ==> names.contains(#[trigger] entities[e].name@) {
            assert forall|e: int| 0 <= e < entities.drop_last().len() implies names.contains(
                #[trigger] entities.drop_last()[e].name@,
            ) by {
                assert(entities.drop_last()[e] == entities[e]);
            }
        }
        if (forall|e: int| 0 <= e < entities.drop_last().len() ==> names.contains(
            #[trigger] entities.drop_last()[e].name@,
        )) && names.contains(entities.last().name@) {
            assert forall|e: int| 0 <= e < entities.len() implies names.contains(#[trigger] entities[e].name@) by {
                if e < entities.len() - 1 {
                    assert(entities.drop_last()[e] == entities[e]);
                }
            }
        }
    }
}

/// No messages for all groups exactly when every entity of every group is a variable name.
pub proof fn lemma_groups_errors_empty(groups: Seq<Group>, names: Seq<Seq<char>>)
    ensures
        spec_groups_errors(groups, names).len() == 0 <==> spec_groups_resolved(groups, names),
    decreases groups.len(),
{
    if groups.len() > 0 {
        let last = groups.last();
        lemma_groups_errors_empty(groups.drop_last(), names);
        lemma_group_entity_errors_empty(last.name@, last.entities@, names);
        assert forall|g: int| 0 <= g < groups.len() - 1 implies #[trigger] groups.drop_last()[g] == groups[g] by {}
        if spec_groups_resolved(groups, names) {
            assert forall|e: int| 0 <= e < last.entities@.len() implies names.contains(#[trigger] last.entities@[e].name@) by {
                assert(groups[groups.len() - 1] == last);
            }
        }
        if spec_groups_errors(groups, names).len() == 0 {
            assert forall|g: int, e: int|
                0 <= g < groups.len() && 0 <= e < groups[g].entities@.len() implies names.contains(
                #[trigger] groups[g].entities@[e].name@,
            ) by {
                if g < groups.len() - 1 {
                    assert(groups.drop_last()[g] == groups[g]);
                }
            }
        }
    }
}

/// Appends the messages for the entities of one group that are not variable names.
fn push_group_entity_errors(errors: &mut Vec<String>, group: &Group, names: &Vec<String>)
    ensures
        spec_texts(final(errors)@) == spec_texts(old(errors)@) + spec_group_entity_errors(
            group.name@,
            group.entities@,
            spec_texts(names@),
        ),
{
    let ghost mid = spec_texts(errors@);
    let ghost nm = spec_texts(names@);
    let mut e: usize = 0;
    while e < group.entities.len()
        invariant
            e <= group.entities@.len(),
            nm == spec_texts(names@),
            spec_texts(errors@) == mid + spec_group_entity_errors(group.name@, group.entities@.take(e as int), nm),
        decreases group.entities@.len() - e,
    {
        let ghost before = errors@;
        proof {
            assert(group.entities@.take(e + 1).drop_last() =~= group.entities@.take(e as int));
            assert(group.entities@.take(e + 1).last() == group.entities@[e as int]);
        }
        if !text_in(names, group.entities[e].name.as_str()) {
            let mut m = String::from_str("Group '");
            m.append(group.name.as_str());
            m.append("' references undefined entity '");
            m.append(group.entities[e].name.as_str());
            m.append("'");
            errors.push(m);
            proof {
                assert(spec_texts(errors@) =~= spec_texts(before).push(m@));
            }
        }
        e = e + 1;
    }
    proof {
        assert(group.entities@.take(group.entities@.len() as int) =~= group.entities@);
    }
}

/// Validate that every entity listed by a group names a variable of the model.
pub fn validate_group_entity_references(groups: &[Group], variables: &[Variable]) -> (r: ValidationResult)
    ensures
        spec_result_of_errors(spec_groups_errors(groups@, spec_names(variables@)), r),
        r is Valid <==> spec_groups_resolved(groups@, spec_names(variables@)),
{
    let names = variable_names(variables);
    let ghost nm = spec_names(variables@);
    let mut errors: Vec<String> = Vec::new();
    let mut g: usize = 0;
    while g < groups.len()
        invariant
            g <= groups@.len(),
            nm == spec_texts(names@),
            spec_texts(errors@) == spec_groups_errors(groups@.take(g as int), nm),
        decreases groups@.len() - g,
    {
        push_group_entity_errors(&mut errors, &groups[g], &names);
        proof {
            assert(groups@.take(g + 1).drop_last() =~= groups@.take(g as int));
            assert(groups@.take(g + 1).last() == groups@[g as int]);
        }
        g = g + 1;
    }
    proof {
        assert(groups@.take(groups@.len() as int) =~= groups@);
        lemma_groups_errors_empty(groups@, nm);
    }
    if errors.len() == 0 {
        ValidationResult::Valid(())
    } else {
        ValidationResult::Invalid(Vec::new(), errors)
    }
}

/// The names of the dimensions a variable is arrayed over, if it is arrayed; modules and
/// groups have none.
pub open spec fn spec_variable_dims(v: Variable) -> Option<Seq<Seq<char>>> {
    match v {
        Variable::Auxiliary(a) => match a.dimensions {
            Some(d) => Some(d.dims@.map_values(|dim: Dimension| dim.name@)),
            None => None,
        },
        Variable::Stock(s) => match s {
            Stock::Basic { dimensions, .. } => spec_opt_texts(dimensions),
            Stock::Conveyor { dimensions, .. } => spec_opt_texts(dimensions),
            Stock::Queue { dimensions, .. } => spec_opt_texts(dimensions),
        },
        Variable::Flow(f) => spec_opt_texts(f.dimensions),
        Variable::GraphicalFunction(g) => spec_opt_texts(g.dimensions),
        Variable::Module(_) => None,
        Variable::Group(_) => None,
    }
}

/// The texts of an optional list of strings.
pub open spec fn spec_opt_texts(o: Option<Vec<String>>) -> Option<Seq<Seq<char>>> {
    match o {
        Some(v) => Some(spec_texts(v@)),
        None => None,
    }
}

/// The names of the defined dimensions; none when there is no definition.
pub open spec fn spec_defined_dims(d: Option<Dimensions>) -> Seq<Seq<char>> {
    match d {
        Some(ds) => ds.dims@.map_values(|dim: DefinedDimension| dim.name@),
        None => Seq::empty(),
    }
}

/// The messages for the dimension names of one variable that are not defined, in order.
pub open spec fn spec_undefined_dims(var_name: Seq<char>, dims: Seq<Seq<char>>, defined: Seq<Seq<char>>) -> Seq<Seq<char>>
    decreases dims.len(),
{
    if dims.len() == 0 {
        Seq::empty()
    } else {
        let rest = spec_undefined_dims(var_name, dims.drop_last(), defined);
        if defined.contains(dims.last()) {
            rest
        } else {
            rest.push("Variable '"@ + var_name + "' references undefined dimension '"@ + dims.last() + "'"@)
        }
    }
}

/// The name a variable is reported under: its name, or `unknown`.
pub open spec fn spec_reported_name(v: Variable) -> Seq<char> {
    match spec_variable_name(v) {
        Some(n) => n,
        None => "unknown"@,
    }
}

/// The messages for all variables, variable after variable.
pub open spec fn spec_dimension_errors(vars: Seq<Variable>, defined: Seq<Seq<char>>) -> Seq<Seq<char>>
    decreases vars.len(),
{
    if vars.len() == 0 {
        Seq::empty()
    } else {
        let v = vars.last();
        spec_dimension_errors(vars.drop_last(), defined) + match spec_variable_dims(v) {
            Some(ds) => spec_undefined_dims(spec_reported_name(v), ds, defined),
            None => Seq::empty(),
        }
    }
}

/// Every dimension name that a variable uses is among the defined ones.
pub open spec fn dims_all_defined(vars: Seq<Variable>, defined: Seq<Seq<char>>) -> bool {
    forall|i: int| 0 <= i < vars.len() ==> (#[trigger] spec_variable_dims(vars[i]) matches Some(ds) ==>
        forall|j: int| 0 <= j < ds.len() ==> defined.contains(#[trigger] ds[j]))
}

/// A variable's dimension names give no message exactly when all of them are defined.
proof fn lemma_undefined_dims_empty(var_name: Seq<char>, dims: Seq<Seq<char>>, defined: Seq<Seq<char>>)
    ensures
        spec_undefined_dims(var_name, dims, defined).len() == 0 <==> forall|j: int| 0 <= j < dims.len() ==> defined.contains(#[trigger] dims[j]),
    decreases dims.len(),
{
    if dims.len() > 0 {
        lemma_undefined_dims_empty(var_name, dims.drop_last(), defined);
        if spec_undefined_dims(var_name, dims, defined).len() == 0 {
            assert forall|j: int| 0 <= j < dims.len() implies defined.contains(#[trigger] dims[j]) by {
                if j < dims.len() - 1 {
                    assert(dims.drop_last()[j] == dims[j]);
                }
            }
        }
        if forall|j: int| 0 <= j < dims.len() ==> defined.contains(#[trigger] dims[j]) {
            assert(defined.contains(dims[dims.len() - 1]));
            assert forall|j: int| 0 <= j < dims.drop_last().len() implies defined.contains(#[trigger] dims.drop_last()[j]) by {
                assert(dims.drop_last()[j] == dims[j]);
            }
        }
    }
}

/// Dimension references are reported exactly when some variable uses a dimension name
/// that is not defined: the check passes if and only if every name used is defined.
pub proof fn lemma_dimension_errors_empty(vars: Seq<Variable>, defined: Seq<Seq<char>>)
    ensures
        spec_dimension_errors(vars, defined).len() == 0 <==> dims_all_defined(vars, defined),
    decreases vars.len(),
{
    if vars.len() > 0 {
        let v = vars.last();
        lemma_dimension_errors_empty(vars.drop_last(), defined);
        match spec_variable_dims(v) {
            Some(ds) => lemma_undefined_dims_empty(spec_reported_name(v), ds, defined),
            None => {},
        }
        if dims_all_defined(vars, defined) {
            assert forall|i: int| 0 <= i < vars.drop_last().len() implies (#[trigger] spec_variable_dims(vars.drop_last()[i]) matches Some(ds) ==>
                forall|j: int| 0 <= j < ds.len() ==> defined.contains(#[trigger] ds[j])) by {
                assert(vars.drop_last()[i] == vars[i]);
            }
            assert(spec_variable_dims(vars[vars.len() - 1]) == spec_variable_dims(v));
        }
        if spec_dimension_errors(vars, defined).len() == 0 {
            assert forall|i: int| 0 <= i < vars.len() implies (#[trigger] spec_variable_dims(vars[i]) matches Some(ds) ==>
                forall|j: int| 0 <= j < ds.len() ==> defined.contains(#[trigger] ds[j])) by {
                if i < vars.len() - 1 {
                    assert(vars.drop_last()[i] == vars[i]);
                }
            }
        }
    }
}

/// The names of the dimensions a variable is arrayed over, if it is arrayed.
fn variable_dimension_names(var: &Variable) -> (r: Option<Vec<String>>)
    ensures
        spec_opt_texts(r) == spec_variable_dims(*var),
{
    match var {
        Variable::Auxiliary(aux) => match &aux.dimensions {
            Some(d) => {
                let mut names: Vec<String> = Vec::new();
                let mut i: usize = 0;
                while i < d.dims.len()
                    invariant
                        i <= d.dims@.len(),
                        spec_texts(names@) == d.dims@.take(i as int).map_values(|dim: Dimension| dim.name@),
                    decreases d.dims@.len() - i,
                {
                    let ghost before = names@;
                    names.push(d.dims[i].name.clone());
                    proof {
                        assert(spec_texts(names@) =~= spec_texts(before).push(d.dims@[i as int].name@));
                        assert(d.dims@.take(i + 1) =~= d.dims@.take(i as int).push(d.dims@[i as int]));
                        assert(spec_texts(names@) =~= d.dims@.take(i + 1).map_values(|dim: Dimension| dim.name@));
                    }
                    i = i + 1;
                }
                proof {
                    assert(d.dims@.take(d.dims@.len() as int) =~= d.dims@);
                }
                Some(names)
            },
            None => None,
        },
        Variable::Stock(stock) => match stock {
            Stock::Basic { dimensions, .. } => clone_strings_opt(dimensions),
            Stock::Conveyor { dimensions, .. } => clone_strings_opt(dimensions),
            Stock::Queue { dimensions, .. } => clone_strings_opt(dimensions),
        },
        Variable::Flow(flow) => clone_strings_opt(&flow.dimensions),
        Variable::GraphicalFunction(gf) => clone_strings_opt(&gf.dimensions),
        _ => None,
    }
}

/// A copy of a list of strings.
fn clone_strings(v: &Vec<String>) -> (r: Vec<String>)
    ensures
        spec_texts(r@) == spec_texts(v@),
{
    let mut r: Vec<String> = Vec::new();
    let mut i: usize = 0;
    while i < v.len()
        invariant
            i <= v@.len(),
            spec_texts(r@) == spec_texts(v@.take(i as int)),
        decreases v@.len() - i,
    {
        let ghost before = r@;
        r.push(v[i].clone());
        proof {
            assert(spec_texts(r@) =~= spec_texts(before).push(v@[i as int]@));
            assert(spec_texts(v@.take(i + 1)) =~= spec_texts(v@.take(i as int)).push(v@[i as int]@));
        }
        i = i + 1;
    }
    proof {
        assert(v@.take(v@.len() as int) =~= v@);
    }
    r
}

/// A copy of an optional list of strings.
fn clone_strings_opt(v: &Option<Vec<String>>) -> (r: Option<Vec<String>>)
    ensures
        spec_opt_texts(r) == spec_opt_texts(*v),
{
    match v {
        Some(names) => Some(clone_strings(names)),
        None => None,
    }
}

/// Validate that the dimension names used by variables are defined.
pub fn validate_dimension_references(variables: &[Variable], dimensions: &Option<Dimensions>) -> (r: ValidationResult)
    ensures
        spec_result_of_errors(spec_dimension_errors(variables@, spec_defined_dims(*dimensions)), r),
        r is Valid <==> dims_all_defined(variables@, spec_defined_dims(*dimensions)),
{
    let mut defined: Vec<String> = Vec::new();
    match dimensions {
        Some(ds) => {
            let mut i: usize = 0;
            while i < ds.dims.len()
                invariant
                    i <= ds.dims@.len(),
                    spec_texts(defined@) == ds.dims@.take(i as int).map_values(|dim: DefinedDimension| dim.name@),
                decreases ds.dims@.len() - i,
            {
                let ghost before = defined@;
                defined.push(ds.dims[i].name.clone());
                proof {
                    assert(spec_texts(defined@) =~= spec_texts(before).push(ds.dims@[i as int].name@));
                    assert(ds.dims@.take(i + 1) =~= ds.dims@.take(i as int).push(ds.dims@[i as int]));
                    assert(spec_texts(defined@) =~= ds.dims@.take(i + 1).map_values(|dim: DefinedDimension| dim.name@));
                }
                i = i + 1;
            }
            proof {
                assert(ds.dims@.take(ds.dims@.len() as int) =~= ds.dims@);
            }
        },
        None => {
            proof {
                assert(spec_texts(defined@) =~= Seq::<Seq<char>>::empty());
            }
        },
    }
    let ghost df = spec_defined_dims(*dimensions);
    let mut errors: Vec<String> = Vec::new();
    let mut v: usize = 0;
    while v < variables.len()
        invariant
            v <= variables@.len(),
            df == spec_texts(defined@),
            spec_texts(errors@) == spec_dimension_errors(variables@.take(v as int), df),
        decreases variables@.len() - v,
    {
        let var = &variables[v];
        let var_name = match get_variable_name(var) {
            Some(n) => n.clone(),
            None => String::from_str("unknown"),
        };
        let ghost mid = spec_texts(errors@);
        match variable_dimension_names(var) {
            Some(dims) => {
                let mut d: usize = 0;
                while d < dims.len()
                    invariant
                        d <= dims@.len(),
                        df == spec_texts(defined@),
                        spec_texts(errors@) == mid + spec_undefined_dims(var_name@, spec_texts(dims@).take(d as int), df),
                    decreases dims@.len() - d,
                {
                    let ghost before = errors@;
                    proof {
                        assert(spec_texts(dims@).take(d + 1).drop_last() =~= spec_texts(dims@).take(d as int));
                        assert(spec_texts(dims@).take(d + 1).last() == dims@[d as int]@);
                    }
                    if !text_in(&defined, dims[d].as_str()) {
                        let mut m = String::from_str("Variable '");
                        m.append(var_name.as_str());
                        m.append("' references undefined dimension '");
                        m.append(dims[d].as_str());
                        m.append("'");
                        errors.push(m);
                        proof {
                            assert(spec_texts(errors@) =~= spec_texts(before).push(m@));
                        }
                    }
                    d = d + 1;
                }
                proof {
                    assert(spec_texts(dims@).take(dims@.len() as int) =~= spec_texts(dims@));
                }
            },
            None => {
                proof {
                    assert(spec_texts(errors@) =~= mid + Seq::<Seq<char>>::empty());
                }
            },
        }
        proof {
            assert(variables@.take(v + 1).drop_last() =~= variables@.take(v as int));
            assert(variables@.take(v + 1).last() == variables@[v as int]);
            assert(var_name@ == spec_reported_name(variables@[v as int]));
        }
        v = v + 1;
    }
    proof {
        assert(variables@.take(variables@.len() as int) =~= variables@);
        lemma_dimension_errors_empty(variables@, df);
    }
    if errors.len() == 0 {
        ValidationResult::Valid(())
    } else {
        ValidationResult::Invalid(Vec::new(), errors)
    }
}

/// The groups among the variables, in order.
pub open spec fn spec_groups_of(vars: Seq<Variable>) -> Seq<Group>
    decreases vars.len(),
{
    if vars.len() == 0 {
        Seq::empty()
    } else {
        let rest = spec_groups_of(vars.drop_last());
        match vars.last() {
            Variable::Group(g) => rest.push(g),
            _ => rest,
        }
    }
}

/// Validate the entities of the groups among the variables.
pub fn validate_groups_of(variables: &[Variable]) -> (r: ValidationResult)
    ensures
        spec_result_of_errors(spec_groups_errors(spec_groups_of(variables@), spec_names(variables@)), r),
{
    let names = variable_names(variables);
    let ghost nm = spec_names(variables@);
    let mut errors: Vec<String> = Vec::new();
    let mut v: usize = 0;
    while v < variables.len()
        invariant
            v <= variables@.len(),
            nm == spec_texts(names@),
            spec_texts(errors@) == spec_groups_errors(spec_groups_of(variables@.take(v as int)), nm),
        decreases variables@.len() - v,
    {
        proof {
            assert(variables@.take(v + 1).drop_last() =~= variables@.take(v as int));
            assert(variables@.take(v + 1).last() == variables@[v as int]);
        }
        match &variables[v] {
            Variable::Group(g) => {
                push_group_entity_errors(&mut errors, g, &names);
                proof {
                    let gs = spec_groups_of(variables@.take(v as int));
                    assert(spec_groups_of(variables@.take(v + 1)) == gs.push(*g));
                    assert(gs.push(*g).drop_last() =~= gs);
                }
            },
            _ => {},
        }
        v = v + 1;
    }
    proof {
        assert(variables@.take(variables@.len() as int) =~= variables@);
    }
    if errors.len() == 0 {
        ValidationResult::Valid(())
    } else {
        ValidationResult::Invalid(Vec::new(), errors)
    }
}

} // verus!
