//! The relational properties of a plan: which columns it refers to, which
//! it produces, which it hands on, and which it takes from outside.
//!
//! All of them are functions of the tree alone. A column is *outer* in a
//! subtree when the subtree refers to it and no node of the subtree
//! produces it: a free reference to the enclosing query.

use crate::columns::{ColumnSet};
use crate::copy::{missing_input_message};
use crate::error::{ErrorCode, INTERNAL};
use crate::ir::{Exchange, ExchangeView, RelOperator, RelOperatorView, SExpr, SExprView, SortItem, operator_view, sexpr_view_parts, sexprs_view};
use crate::scalar::{item_indexes, items_indexes, items_used_columns, list_used_columns, used_in, used_in_items};
use vstd::prelude::*;

verus! {

/// The columns that the sort keys name.
pub open spec fn sort_indexes(items: Seq<SortItem>) -> Set<usize> {
    Set::new(|c: usize| exists|i: int| 0 <= i < items.len() && items[i].index == c)
}

/// The columns of the left input that a union pairs up.
pub open spec fn left_of_pairs(pairs: Seq<(usize, usize)>) -> Set<usize> {
    Set::new(|c: usize| exists|i: int| 0 <= i < pairs.len() && pairs[i].0 == c)
}

/// The columns of the right input that a union pairs up.
pub open spec fn right_of_pairs(pairs: Seq<(usize, usize)>) -> Set<usize> {
    Set::new(|c: usize| exists|i: int| 0 <= i < pairs.len() && pairs[i].1 == c)
}

/// The members of an optional column, as a set.
pub open spec fn opt_set(i: Option<usize>) -> Set<usize> {
    match i {
        Some(c) => set![c],
        None => Set::empty(),
    }
}

/// The columns that the scalar expressions of one operator refer to.
pub open spec fn operator_used(op: RelOperatorView) -> Set<usize> {
    match op {
        RelOperatorView::Scan(s) => (match s.push_down_predicates {
            Some(p) => used_in(p),
            None => Set::empty(),
        }).union(
            match s.prewhere {
                Some(p) => used_in(p.predicates).union(p.prewhere_columns),
                None => Set::empty(),
            },
        ),
        RelOperatorView::Join(j) => used_in(j.left_conditions).union(
            used_in(j.right_conditions),
        ).union(used_in(j.non_equi_conditions)),
        RelOperatorView::EvalScalar(e) => used_in_items(e.items),
        RelOperatorView::Filter(f) => used_in(f.predicates),
        RelOperatorView::Aggregate(a) => used_in_items(a.group_items).union(
            used_in_items(a.aggregate_functions),
        ),
        RelOperatorView::Sort(s) => sort_indexes(s.items),
        RelOperatorView::Limit(_) => Set::empty(),
        RelOperatorView::Exchange(x) => match x {
            ExchangeView::Hash(keys) => used_in(keys),
            _ => Set::empty(),
        },
        RelOperatorView::UnionAll(u) => left_of_pairs(u.pairs).union(right_of_pairs(u.pairs)),
        RelOperatorView::DummyTableScan => Set::empty(),
        RelOperatorView::RuntimeFilterSource(r) => used_in(r.left_runtime_filter).union(
            used_in(r.right_runtime_filter),
        ),
        RelOperatorView::Window(w) => used_in(w.function.agg_func.args).union(
            used_in(w.function.partition_by),
        ),
        RelOperatorView::Pattern(_) => Set::empty(),
    }
}

/// The columns that one operator brings into being.
pub open spec fn operator_produced(op: RelOperatorView) -> Set<usize> {
    match op {
        RelOperatorView::Scan(s) => s.columns,
        RelOperatorView::Join(j) => opt_set(j.marker_index),
        RelOperatorView::EvalScalar(e) => item_indexes(e.items),
        RelOperatorView::Aggregate(a) => item_indexes(a.group_items).union(
            item_indexes(a.aggregate_functions),
        ),
        RelOperatorView::Window(w) => set![w.index],
        _ => Set::empty(),
    }
}

/// The columns that any operator of the plan refers to.
pub open spec fn referenced(t: SExprView) -> Set<usize>
    decreases t,
{
    operator_used(t.plan).union(referenced_in(t.children))
}

/// The columns that any operator of any of the plans refers to.
pub open spec fn referenced_in(plans: Seq<SExprView>) -> Set<usize>
    decreases plans,
{
    Set::new(|c: usize| exists|i: int| 0 <= i < plans.len() && referenced(plans[i]).contains(c))
}

/// The columns that any operator of the plan brings into being.
pub open spec fn produced(t: SExprView) -> Set<usize>
    decreases t,
{
    operator_produced(t.plan).union(produced_in(t.children))
}

/// The columns that any operator of any of the plans brings into being.
pub open spec fn produced_in(plans: Seq<SExprView>) -> Set<usize>
    decreases plans,
{
    Set::new(|c: usize| exists|i: int| 0 <= i < plans.len() && produced(plans[i]).contains(c))
}

/// The columns of the rows that the plan hands to its parent.
///
/// A scan hands on its columns. A projection adds the columns it computes
/// to those of its input. An aggregation hands on its group and aggregate
/// columns only. A union hands on the left columns it pairs up. A join
/// hands on the columns of both inputs and its marker. Every other
/// operator hands on what its inputs hand on.
pub open spec fn output_columns(t: SExprView) -> Set<usize>
    decreases t,
{
    let inputs = output_of(t.children);
    match t.plan {
        RelOperatorView::Scan(s) => s.columns,
        RelOperatorView::Join(j) => inputs.union(opt_set(j.marker_index)),
        RelOperatorView::EvalScalar(e) => inputs.union(item_indexes(e.items)),
        RelOperatorView::Aggregate(a) => item_indexes(a.group_items).union(
            item_indexes(a.aggregate_functions),
        ),
        RelOperatorView::UnionAll(u) => left_of_pairs(u.pairs),
        RelOperatorView::Window(w) => inputs.insert(w.index),
        RelOperatorView::DummyTableScan => Set::empty(),
        _ => inputs,
    }
}

/// The columns that any of the plans hands on.
pub open spec fn output_of(plans: Seq<SExprView>) -> Set<usize>
    decreases plans,
{
    Set::new(|c: usize| exists|i: int| 0 <= i < plans.len() && output_columns(plans[i]).contains(c))
}

/// Adding one plan to a list adds its columns to those of the list.
pub proof fn plans_push(plans: Seq<SExprView>, t: SExprView)
    ensures
        referenced_in(plans.push(t)) == referenced_in(plans).union(referenced(t)),
        produced_in(plans.push(t)) == produced_in(plans).union(produced(t)),
        output_of(plans.push(t)) == output_of(plans).union(output_columns(t)),
{
    let longer = plans.push(t);
    assert forall|c: usize| referenced_in(longer).contains(c) <==> referenced_in(plans).union(
        referenced(t),
    ).contains(c) by {
        if referenced_in(longer).contains(c) {
            let i = choose|i: int| 0 <= i < longer.len() && referenced(longer[i]).contains(c);
            if i < plans.len() {
                assert(longer[i] == plans[i]);
            }
        }
        if referenced_in(plans).contains(c) {
            let i = choose|i: int| 0 <= i < plans.len() && referenced(plans[i]).contains(c);
            assert(longer[i] == plans[i]);
        }
        if referenced(t).contains(c) {
            assert(longer[plans.len() as int] == t);
        }
    }
    assert(referenced_in(longer) =~= referenced_in(plans).union(referenced(t)));
    assert forall|c: usize| produced_in(longer).contains(c) <==> produced_in(plans).union(
        produced(t),
    ).contains(c) by {
        if produced_in(longer).contains(c) {
            let i = choose|i: int| 0 <= i < longer.len() && produced(longer[i]).contains(c);
            if i < plans.len() {
                assert(longer[i] == plans[i]);
            }
        }
        if produced_in(plans).contains(c) {
            let i = choose|i: int| 0 <= i < plans.len() && produced(plans[i]).contains(c);
            assert(longer[i] == plans[i]);
        }
        if produced(t).contains(c) {
            assert(longer[plans.len() as int] == t);
        }
    }
    assert(produced_in(longer) =~= produced_in(plans).union(produced(t)));
    assert forall|c: usize| output_of(longer).contains(c) <==> output_of(plans).union(
        output_columns(t),
    ).contains(c) by {
        if output_of(longer).contains(c) {
            let i = choose|i: int| 0 <= i < longer.len() && output_columns(longer[i]).contains(c);
            if i < plans.len() {
                assert(longer[i] == plans[i]);
            }
        }
        if output_of(plans).contains(c) {
            let i = choose|i: int| 0 <= i < plans.len() && output_columns(plans[i]).contains(c);
            assert(longer[i] == plans[i]);
        }
        if output_columns(t).contains(c) {
            assert(longer[plans.len() as int] == t);
        }
    }
    assert(output_of(longer) =~= output_of(plans).union(output_columns(t)));
}

/// The message of the error for a plan whose properties cannot be derived.
pub open spec fn underivable_message() -> Seq<char> {
    "Cannot derive relational property for pattern plan"@
}

/// The columns that the plan refers to and does not produce.
pub open spec fn outer_columns(t: SExprView) -> Set<usize> {
    referenced(t).difference(produced(t))
}

/// Whether the properties of the plan can be derived: no node of it is a
/// pattern placeholder.
pub open spec fn derivable(t: SExprView) -> bool
    decreases t,
{
    &&& !(t.plan is Pattern)
    &&& forall|i: int| 0 <= i < t.children.len() ==> derivable(#[trigger] t.children[i])
}

/// The properties of a plan.
#[derive(Debug, PartialEq, Eq)]
pub struct RelationalProperty {
    pub output_columns: ColumnSet,
    pub outer_columns: ColumnSet,
    pub used_columns: ColumnSet,
}

/// What `derive_relational_prop` computes besides: the produced columns.
pub struct PlanColumns {
    pub output: ColumnSet,
    pub referenced: ColumnSet,
    pub produced: ColumnSet,
}

/// The set of an optional column.
pub fn opt_column_set(i: Option<usize>) -> (s: ColumnSet)
    ensures
        s@ == opt_set(i),
{
    let mut s = ColumnSet::new();
    if let Some(c) = i {
        s.insert(c);
        assert(s@ =~= set![c]);
    }
    s
}

/// The columns that the sort keys name.
pub fn sort_item_indexes(items: &Vec<SortItem>) -> (s: ColumnSet)
    ensures
        s@ == sort_indexes(items@),
{
    let mut s = ColumnSet::new();
    let mut i: usize = 0;
    while i < items.len()
        invariant
            i <= items.len(),
            forall|c: usize|
                s@.contains(c) <==> exists|k: int| 0 <= k < i && items[k].index == c,
        decreases items.len() - i,
    {
        s.insert(items[i].index);
        i = i + 1;
    }
    assert(s@ =~= sort_indexes(items@));
    s
}

/// The left columns, and the right columns, that a union pairs up.
pub fn pair_indexes(pairs: &Vec<(usize, usize)>) -> (r: (ColumnSet, ColumnSet))
    ensures
        r.0@ == left_of_pairs(pairs@),
        r.1@ == right_of_pairs(pairs@),
{
    let mut left = ColumnSet::new();
    let mut right = ColumnSet::new();
    let mut i: usize = 0;
    while i < pairs.len()
        invariant
            i <= pairs.len(),
            forall|c: usize|
                left@.contains(c) <==> exists|k: int| 0 <= k < i && pairs[k].0 == c,
            forall|c: usize|
                right@.contains(c) <==> exists|k: int| 0 <= k < i && pairs[k].1 == c,
        decreases pairs.len() - i,
    {
        left.insert(pairs[i].0);
        right.insert(pairs[i].1);
        i = i + 1;
    }
    assert(left@ =~= left_of_pairs(pairs@));
    assert(right@ =~= right_of_pairs(pairs@));
    (left, right)
}

/// The columns that the scalar expressions of `op` refer to.
pub fn operator_used_columns(op: &RelOperator) -> (s: ColumnSet)
    ensures
        s@ == operator_used(op@),
{
    proof {
        reveal_with_fuel(operator_view, 4);
    }
    match op {
        RelOperator::Scan(s) => {
            let a = match &s.push_down_predicates {
                Some(p) => list_used_columns(p),
                None => ColumnSet::new(),
            };
            let b = match &s.prewhere {
                Some(p) => list_used_columns(&p.predicates).union(&p.prewhere_columns),
                None => ColumnSet::new(),
            };
            a.union(&b)
        },
        RelOperator::Join(j) => list_used_columns(&j.left_conditions).union(
            &list_used_columns(&j.right_conditions),
        ).union(&list_used_columns(&j.non_equi_conditions)),
        RelOperator::EvalScalar(e) => items_used_columns(&e.items),
        RelOperator::Filter(f) => list_used_columns(&f.predicates),
        RelOperator::Aggregate(a) => items_used_columns(&a.group_items).union(
            &items_used_columns(&a.aggregate_functions),
        ),
        RelOperator::Sort(s) => sort_item_indexes(&s.items),
        RelOperator::Limit(_) => ColumnSet::new(),
        RelOperator::Exchange(x) => match x {
            Exchange::Hash(keys) => list_used_columns(keys),
            _ => ColumnSet::new(),
        },
        RelOperator::UnionAll(u) => {
            let (l, r) = pair_indexes(&u.pairs);
            l.union(&r)
        },
        RelOperator::DummyTableScan => ColumnSet::new(),
        RelOperator::RuntimeFilterSource(r) => list_used_columns(&r.left_runtime_filter).union(
            &list_used_columns(&r.right_runtime_filter),
        ),
        RelOperator::Window(w) => list_used_columns(&w.function.agg_func.args).union(
            &list_used_columns(&w.function.partition_by),
        ),
        RelOperator::Pattern(_) => ColumnSet::new(),
    }
}

/// The columns that `op` brings into being.
pub fn operator_produced_columns(op: &RelOperator) -> (s: ColumnSet)
    ensures
        s@ == operator_produced(op@),
{
    proof {
        reveal_with_fuel(operator_view, 4);
    }
    match op {
        RelOperator::Scan(s) => s.columns.clone(),
        RelOperator::Join(j) => opt_column_set(j.marker_index),
        RelOperator::EvalScalar(e) => items_indexes(&e.items),
        RelOperator::Aggregate(a) => items_indexes(&a.group_items).union(
            &items_indexes(&a.aggregate_functions),
        ),
        RelOperator::Window(w) => {
            let mut s = ColumnSet::new();
            s.insert(w.index);
            assert(s@ =~= set![w.index]);
            s
        },
        _ => ColumnSet::new(),
    }
}

/// The output, referenced and produced columns of a list of plans.
fn plans_columns(plans: &Vec<SExpr>) -> (r: Result<PlanColumns, ErrorCode>)
    ensures
        (forall|i: int| 0 <= i < plans.len() ==> derivable(#[trigger] sexprs_view(*plans)[i]))
            <==> r is Ok,
        r is Err ==> r->Err_0.code == INTERNAL && r->Err_0.message@ == underivable_message(),
        r is Ok ==> r->Ok_0.output@ == output_of(sexprs_view(*plans)) && r->Ok_0.referenced@
            == referenced_in(sexprs_view(*plans)) && r->Ok_0.produced@ == produced_in(
            sexprs_view(*plans),
        ),
    decreases plans,
{
    let ghost all = sexprs_view(*plans);
    let mut output = ColumnSet::new();
    let mut referenced_below = ColumnSet::new();
    let mut produced_below = ColumnSet::new();
    let mut i: usize = 0;
    proof {
        assert(output@ =~= output_of(all.take(0)));
        assert(referenced_below@ =~= referenced_in(all.take(0)));
        assert(produced_below@ =~= produced_in(all.take(0)));
    }
    while i < plans.len()
        invariant
            i <= plans.len(),
            all == sexprs_view(*plans),
            output@ == output_of(all.take(i as int)),
            referenced_below@ == referenced_in(all.take(i as int)),
            produced_below@ == produced_in(all.take(i as int)),
            forall|j: int| 0 <= j < i ==> derivable(#[trigger] all[j]),
        decreases plans.len() - i,
    {
        let below = match plan_columns(&plans[i]) {
            Ok(b) => b,
            Err(e) => {
                assert(!derivable(all[i as int]));
                return Err(e);
            },
        };
        output = output.union(&below.output);
        referenced_below = referenced_below.union(&below.referenced);
        produced_below = produced_below.union(&below.produced);
        proof {
            plans_push(all.take(i as int), all[i as int]);
            assert(all.take(i + 1) =~= all.take(i as int).push(all[i as int]));
        }
        i = i + 1;
    }
    assert(all.take(plans.len() as int) =~= all);
    Ok(PlanColumns { output, referenced: referenced_below, produced: produced_below })
}

/// What a node hands on, given its operator and what its inputs hand on.
fn node_output(plan: &RelOperator, inputs: ColumnSet) -> (output: ColumnSet)
    ensures
        output@ == match plan@ {
            RelOperatorView::Scan(s) => s.columns,
            RelOperatorView::Join(j) => inputs@.union(opt_set(j.marker_index)),
            RelOperatorView::EvalScalar(e) => inputs@.union(item_indexes(e.items)),
            RelOperatorView::Aggregate(a) => item_indexes(a.group_items).union(
                item_indexes(a.aggregate_functions),
            ),
            RelOperatorView::UnionAll(u) => left_of_pairs(u.pairs),
            RelOperatorView::Window(w) => inputs@.insert(w.index),
            RelOperatorView::DummyTableScan => Set::empty(),
            _ => inputs@,
        },
{
    proof {
        reveal_with_fuel(operator_view, 2);
    }
    match plan {
        RelOperator::Scan(s) => s.columns.clone(),
        RelOperator::Join(j) => inputs.union(&opt_column_set(j.marker_index)),
        RelOperator::EvalScalar(e) => inputs.union(&items_indexes(&e.items)),
        RelOperator::Aggregate(a) => items_indexes(&a.group_items).union(
            &items_indexes(&a.aggregate_functions),
        ),
        RelOperator::UnionAll(u) => pair_indexes(&u.pairs).0,
        RelOperator::Window(w) => {
            let mut s = inputs;
            s.insert(w.index);
            s
        },
        RelOperator::DummyTableScan => ColumnSet::new(),
        _ => inputs,
    }
}

/// The output, referenced and produced columns of a plan, or an internal
/// error where the plan holds a pattern placeholder.
pub fn plan_columns(expr: &SExpr) -> (r: Result<PlanColumns, ErrorCode>)
    ensures
        derivable(expr@) ==> r is Ok,
        !derivable(expr@) ==> r is Err,
        r is Err ==> r->Err_0.code == INTERNAL && r->Err_0.message@ == underivable_message(),
        r is Ok ==> r->Ok_0.output@ == output_columns(expr@) && r->Ok_0.referenced@ == referenced(
            expr@,
        ) && r->Ok_0.produced@ == produced(expr@),
    decreases expr,
{
    proof {
        sexpr_view_parts(*expr);
    }
    if let RelOperator::Pattern(_) = &expr.plan {
        assert(expr.plan@ is Pattern);
        return Err(ErrorCode::internal("Cannot derive relational property for pattern plan"));
    }
    assert(!(expr.plan@ is Pattern));
    let below = match plans_columns(&expr.children) {
        Ok(b) => b,
        Err(e) => {
            proof {
                let k = choose|k: int|
                    0 <= k < expr.children.len() && !derivable(
                        #[trigger] sexprs_view(expr.children)[k],
                    );
                assert(!derivable(expr@.children[k]));
            }
            return Err(e);
        },
    };
    let used = operator_used_columns(&expr.plan);
    let made = operator_produced_columns(&expr.plan);
    let output = node_output(&expr.plan, below.output);
    let referenced_all = used.union(&below.referenced);
    let produced_all = made.union(&below.produced);
    assert(output@ == output_columns(expr@));
    assert(derivable(expr@));
    Ok(PlanColumns { output, referenced: referenced_all, produced: produced_all })
}

/// The relational properties of a plan.
///
/// Fails with an internal error exactly when the plan holds a pattern
/// placeholder, for which no property is defined.
pub fn derive_relational_prop(expr: &SExpr) -> (r: Result<RelationalProperty, ErrorCode>)
    ensures
        derivable(expr@) ==> r is Ok,
        !derivable(expr@) ==> r is Err,
        r is Err ==> r->Err_0.code == INTERNAL && r->Err_0.message@ == underivable_message(),
        r is Ok ==> {
            &&& r->Ok_0.output_columns@ == output_columns(expr@)
            &&& r->Ok_0.outer_columns@ == outer_columns(expr@)
            &&& r->Ok_0.used_columns@ == referenced(expr@)
        },
{
    match plan_columns(expr) {
        Ok(c) => Ok(
            RelationalProperty {
                output_columns: c.output,
                outer_columns: c.referenced.difference(&c.produced),
                used_columns: c.referenced,
            },
        ),
        Err(e) => Err(e),
    }
}

/// The relational properties of input `n` of a plan.
pub fn derive_relational_prop_child(expr: &SExpr, n: usize) -> (r: Result<
    RelationalProperty,
    ErrorCode,
>)
    ensures
        r is Ok <==> n < expr@.children.len() && derivable(expr@.children[n as int]),
        r is Ok ==> {
            &&& r->Ok_0.output_columns@ == output_columns(expr@.children[n as int])
            &&& r->Ok_0.outer_columns@ == outer_columns(expr@.children[n as int])
            &&& r->Ok_0.used_columns@ == referenced(expr@.children[n as int])
        },
        r is Err ==> r->Err_0.code == INTERNAL && r->Err_0.message@ == (if n
            >= expr@.children.len() {
            missing_input_message()
        } else {
            underivable_message()
        }),
{
    match expr.child(n) {
        Ok(c) => derive_relational_prop(c),
        Err(e) => Err(e),
    }
}

} // verus!
