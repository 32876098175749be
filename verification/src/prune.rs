//! Column pruning: a top-down pass that drops the columns, and the
//! operators, that nothing above them needs.
//!
//! The pass threads a set of required columns down the tree. Each operator
//! adds to it the columns that its own predicates, keys or conditions read,
//! drops from itself what the set does not name, and hands the set on.

use crate::columns::{ColumnSet};
use crate::copy::{clone_filter, clone_index_lists, clone_item, clone_items, clone_join, clone_scalars, clone_sort_items, missing_input_message};
use crate::error::{ErrorCode, INTERNAL};
use crate::ir::{Aggregate, AggregateView, EvalScalar, EvalScalarView, Prewhere, PrewhereView, RelOperator, RelOperatorView, SExpr, SExprView, ScalarItem, ScalarItemView, Scan, ScanView, items_view, operator_view, sexpr_view_parts};
use crate::metadata::{Metadata};
use crate::property::{left_of_pairs, output_columns, output_of, pair_indexes, right_of_pairs, sort_indexes, sort_item_indexes};
use crate::scalar::{item_indexes, items_indexes, list_used_columns, scalar_used_columns, used_columns, used_in, used_in_items, used_in_items_push};
use vstd::prelude::*;

verus! {

/// The items that survive pruning, and the required set after them.
///
/// The items are visited in order. An item is kept when the set names the
/// column it defines; the columns that a kept item reads then join the set,
/// so that a later item may be kept for the sake of an earlier one.
pub open spec fn keep_items(items: Seq<ScalarItemView>, required: Set<usize>) -> (
    Seq<ScalarItemView>,
    Set<usize>,
)
    decreases items.len(),
{
    if items.len() == 0 {
        (Seq::empty(), required)
    } else {
        let (kept, req) = keep_items(items.drop_last(), required);
        let item = items.last();
        if req.contains(item.index) {
            (kept.push(item), req.union(used_columns(item.scalar)))
        } else {
            (kept, req)
        }
    }
}

/// A node without inputs, with no rule applied.
pub open spec fn leaf(plan: RelOperatorView) -> SExprView {
    SExprView { plan, children: Seq::empty(), applied_rules: 0 }
}

/// A node with one input, with no rule applied.
pub open spec fn unary(plan: RelOperatorView, child: SExprView) -> SExprView {
    SExprView { plan, children: seq![child], applied_rules: 0 }
}

/// A node with two inputs, with no rule applied.
pub open spec fn binary(plan: RelOperatorView, left: SExprView, right: SExprView) -> SExprView {
    SExprView { plan, children: seq![left, right], applied_rules: 0 }
}

/// A scan cut down to the columns that `required` names.
///
/// A scan without columns stays as it is. Otherwise the scan keeps the
/// required columns among its own; where it carries a prewhere filter, the
/// filter hands on exactly those, and the columns that the filter reads
/// stay in the scan as well.
pub open spec fn pruned_scan(p: ScanView, required: Set<usize>) -> ScanView {
    let used = required.intersect(p.columns);
    match p.prewhere {
        Some(pw) => ScanView {
            columns: used.union(pw.prewhere_columns),
            prewhere: Some(PrewhereView { output_columns: used, ..pw }),
            ..p
        },
        None => ScanView { columns: used, ..p },
    }
}

/// The plan with the columns and operators removed that `required` does
/// not ask for; `None` where the pass fails.
///
/// The pass fails on an operator that is not part of a logical plan
/// (exchange, runtime filter source, window, pattern) and on a node that
/// lacks an input its operator needs.
pub open spec fn pruned(t: SExprView, required: Set<usize>) -> Option<SExprView>
    decreases t,
{
    match t.plan {
        RelOperatorView::Scan(p) => if p.columns == Set::<usize>::empty() {
            Some(t)
        } else {
            Some(leaf(RelOperatorView::Scan(pruned_scan(p, required))))
        },
        RelOperatorView::Join(p) => {
            let others = required.union(used_in(p.non_equi_conditions));
            let left = required.union(used_in(p.left_conditions)).union(others);
            let right = required.union(used_in(p.right_conditions)).union(others);
            if t.children.len() < 2 {
                None
            } else {
                match (pruned(t.children[0], left), pruned(t.children[1], right)) {
                    (Some(l), Some(r)) => Some(binary(t.plan, l, r)),
                    _ => None,
                }
            }
        },
        RelOperatorView::EvalScalar(p) => {
            let (kept, req) = keep_items(p.items, required);
            if t.children.len() < 1 {
                None
            } else {
                match pruned(t.children[0], req) {
                    Some(c) => if kept.len() == 0 {
                        Some(c)
                    } else {
                        Some(unary(RelOperatorView::EvalScalar(EvalScalarView { items: kept }), c))
                    },
                    None => None,
                }
            }
        },
        RelOperatorView::Filter(p) => {
            if t.children.len() < 1 {
                None
            } else {
                match pruned(t.children[0], required.union(used_in(p.predicates))) {
                    Some(c) => Some(unary(t.plan, c)),
                    None => None,
                }
            }
        },
        RelOperatorView::Aggregate(p) => {
            let (kept, req) = keep_items(p.aggregate_functions, required);
            if t.children.len() < 1 {
                None
            } else {
                match pruned(t.children[0], req.union(item_indexes(p.group_items))) {
                    Some(c) => Some(
                        unary(
                            RelOperatorView::Aggregate(
                                AggregateView { aggregate_functions: kept, ..p },
                            ),
                            c,
                        ),
                    ),
                    None => None,
                }
            }
        },
        RelOperatorView::Sort(p) => {
            if t.children.len() < 1 {
                None
            } else {
                match pruned(t.children[0], required.union(sort_indexes(p.items))) {
                    Some(c) => Some(unary(t.plan, c)),
                    None => None,
                }
            }
        },
        RelOperatorView::Limit(_) => {
            if t.children.len() < 1 {
                None
            } else {
                match pruned(t.children[0], required) {
                    Some(c) => Some(unary(t.plan, c)),
                    None => None,
                }
            }
        },
        RelOperatorView::UnionAll(p) => {
            if t.children.len() < 2 {
                None
            } else {
                match (
                    pruned(t.children[0], required.union(left_of_pairs(p.pairs))),
                    pruned(t.children[1], required.union(right_of_pairs(p.pairs))),
                ) {
                    (Some(l), Some(r)) => Some(binary(t.plan, l, r)),
                    _ => None,
                }
            }
        },
        RelOperatorView::DummyTableScan => Some(t),
        _ => None,
    }
}

/// The message of the error for an operator that is not part of a
/// logical plan.
pub open spec fn not_logical_message() -> Seq<char> {
    "Attempting to prune columns of a physical plan is not allowed"@
}

/// The columns that the pass asks of an input of the operator: of its
/// second input where `second` holds, else of its first.
pub open spec fn asked_of_input(op: RelOperatorView, required: Set<usize>, second: bool) -> Set<
    usize,
> {
    match op {
        RelOperatorView::Join(p) => {
            let others = required.union(used_in(p.non_equi_conditions));
            if second {
                required.union(used_in(p.right_conditions)).union(others)
            } else {
                required.union(used_in(p.left_conditions)).union(others)
            }
        },
        RelOperatorView::EvalScalar(p) => keep_items(p.items, required).1,
        RelOperatorView::Filter(p) => required.union(used_in(p.predicates)),
        RelOperatorView::Aggregate(p) => keep_items(p.aggregate_functions, required).1.union(
            item_indexes(p.group_items),
        ),
        RelOperatorView::Sort(p) => required.union(sort_indexes(p.items)),
        RelOperatorView::UnionAll(p) => if second {
            required.union(right_of_pairs(p.pairs))
        } else {
            required.union(left_of_pairs(p.pairs))
        },
        _ => required,
    }
}

/// The message of the error with which the pass fails, `None` where it
/// does not fail: that of the first failure it meets. The pass goes from a
/// node to its first input and on to its second. It fails at an operator
/// that is not part of a logical plan, and at a node that lacks the input
/// it turns to.
pub open spec fn prune_failure(t: SExprView, required: Set<usize>) -> Option<Seq<char>>
    decreases t,
{
    match t.plan {
        RelOperatorView::Scan(_) => None,
        RelOperatorView::DummyTableScan => None,
        RelOperatorView::Join(_) | RelOperatorView::UnionAll(_) => if t.children.len() < 1 {
            Some(missing_input_message())
        } else {
            match prune_failure(t.children[0], asked_of_input(t.plan, required, false)) {
                Some(m) => Some(m),
                None => if t.children.len() < 2 {
                    Some(missing_input_message())
                } else {
                    prune_failure(t.children[1], asked_of_input(t.plan, required, true))
                },
            }
        },
        RelOperatorView::EvalScalar(_)
        | RelOperatorView::Filter(_)
        | RelOperatorView::Aggregate(_)
        | RelOperatorView::Sort(_)
        | RelOperatorView::Limit(_) => if t.children.len() < 1 {
            Some(missing_input_message())
        } else {
            prune_failure(t.children[0], asked_of_input(t.plan, required, false))
        },
        _ => Some(not_logical_message()),
    }
}

/// The pass fails exactly where it meets a failure.
pub proof fn prune_failure_matches(t: SExprView, required: Set<usize>)
    ensures
        pruned(t, required) is None <==> prune_failure(t, required) is Some,
    decreases t,
{
    match t.plan {
        RelOperatorView::Join(_) | RelOperatorView::UnionAll(_) => {
            if t.children.len() >= 1 {
                prune_failure_matches(t.children[0], asked_of_input(t.plan, required, false));
            }
            if t.children.len() >= 2 {
                prune_failure_matches(t.children[1], asked_of_input(t.plan, required, true));
            }
        },
        RelOperatorView::EvalScalar(_)
        | RelOperatorView::Filter(_)
        | RelOperatorView::Aggregate(_)
        | RelOperatorView::Sort(_)
        | RelOperatorView::Limit(_) => {
            if t.children.len() >= 1 {
                prune_failure_matches(t.children[0], asked_of_input(t.plan, required, false));
            }
        },
        _ => {},
    }
}

/// In a plan in which every node has as many inputs as its operator
/// takes, the pass fails only at an operator that is not part of a logical
/// plan.
pub proof fn prune_fails_at_physical_operators(t: SExprView, required: Set<usize>)
    requires
        well_formed(t),
        prune_failure(t, required) is Some,
    ensures
        prune_failure(t, required) == Some(not_logical_message()),
    decreases t,
{
    match t.plan {
        RelOperatorView::Join(_) | RelOperatorView::UnionAll(_) => {
            let first = asked_of_input(t.plan, required, false);
            assert(well_formed(t.children[0]));
            assert(well_formed(t.children[1]));
            if prune_failure(t.children[0], first) is Some {
                prune_fails_at_physical_operators(t.children[0], first);
            } else {
                prune_fails_at_physical_operators(
                    t.children[1],
                    asked_of_input(t.plan, required, true),
                );
            }
        },
        RelOperatorView::EvalScalar(_)
        | RelOperatorView::Filter(_)
        | RelOperatorView::Aggregate(_)
        | RelOperatorView::Sort(_)
        | RelOperatorView::Limit(_) => {
            assert(well_formed(t.children[0]));
            prune_fails_at_physical_operators(
                t.children[0],
                asked_of_input(t.plan, required, false),
            );
        },
        _ => {},
    }
}

/// Whether every node has as many inputs as its operator takes.
pub open spec fn well_formed(t: SExprView) -> bool
    decreases t,
{
    &&& t.children.len() == arity(t.plan)
    &&& forall|i: int| 0 <= i < t.children.len() ==> well_formed(#[trigger] t.children[i])
}

/// The number of inputs that an operator takes.
pub open spec fn arity(op: RelOperatorView) -> nat {
    match op {
        RelOperatorView::Scan(_) => 0,
        RelOperatorView::DummyTableScan => 0,
        RelOperatorView::Pattern(_) => 0,
        RelOperatorView::Join(_) => 2,
        RelOperatorView::UnionAll(_) => 2,
        RelOperatorView::RuntimeFilterSource(_) => 2,
        _ => 1,
    }
}

/// `keep_items` keeps the item order, grows the required set, and keeps
/// every item whose column the caller asked for.
pub proof fn keep_items_facts(items: Seq<ScalarItemView>, required: Set<usize>)
    ensures
        required.subset_of(keep_items(items, required).1),
        keep_items(items, required).1.subset_of(required.union(used_in_items(items))),
        forall|c: usize|
            required.contains(c) && item_indexes(items).contains(c) ==> item_indexes(
                keep_items(items, required).0,
            ).contains(c),
        item_indexes(keep_items(items, required).0).subset_of(item_indexes(items)),
        keep_items(items, required).0.len() == 0 ==> keep_items(items, required).1 == required,
    decreases items.len(),
{
    if items.len() > 0 {
        let init = items.drop_last();
        let item = items.last();
        keep_items_facts(init, required);
        let (kept, req) = keep_items(init, required);
        let (kept2, req2) = keep_items(items, required);
        assert(items =~= init.push(item));
        used_in_items_push(init, item);
        if req.contains(item.index) {
            used_in_items_push(kept, item);
        }
        assert forall|c: usize|
            required.contains(c) && item_indexes(items).contains(c) implies item_indexes(
            kept2,
        ).contains(c) by {
            if c == item.index {
                assert(req.contains(c));
            } else {
                assert(item_indexes(init).contains(c));
                assert(item_indexes(kept).contains(c));
            }
        }
        if kept2.len() == 0 {
            assert(req2 =~= required);
        }
    } else {
        assert(item_indexes(keep_items(items, required).0) =~= Set::<usize>::empty());
    }
}

/// Pruning never drops a column that the caller asked for and that the
/// plan can deliver: what the pruned plan hands on includes every required
/// column among those that the plan handed on.
pub proof fn pruned_keeps_required(t: SExprView, required: Set<usize>)
    requires
        well_formed(t),
        pruned(t, required) is Some,
    ensures
        required.intersect(output_columns(t)).subset_of(
            output_columns(pruned(t, required)->Some_0),
        ),
    decreases t,
{
    let r = pruned(t, required)->Some_0;
    match t.plan {
        RelOperatorView::Scan(p) => {},
        RelOperatorView::Join(p) => {
            let others = required.union(used_in(p.non_equi_conditions));
            let left = required.union(used_in(p.left_conditions)).union(others);
            let right = required.union(used_in(p.right_conditions)).union(others);
            pruned_keeps_required(t.children[0], left);
            pruned_keeps_required(t.children[1], right);
            let l = pruned(t.children[0], left)->Some_0;
            let rr = pruned(t.children[1], right)->Some_0;
            assert forall|c: usize|
                required.contains(c) && output_columns(t).contains(c) implies output_columns(
                r,
            ).contains(c) by {
                if output_of(t.children).contains(c) {
                    let i = choose|i: int|
                        0 <= i < t.children.len() && output_columns(t.children[i]).contains(c);
                    if i == 0 {
                        assert(left.intersect(output_columns(t.children[0])).contains(c));
                        assert(output_columns(l).contains(c));
                        assert(r.children[0] == l);
                    } else {
                        assert(right.intersect(output_columns(t.children[1])).contains(c));
                        assert(output_columns(rr).contains(c));
                        assert(r.children[1] == rr);
                    }
                    assert(output_of(r.children).contains(c));
                }
            }
        },
        RelOperatorView::EvalScalar(p) => {
            let (kept, req) = keep_items(p.items, required);
            keep_items_facts(p.items, required);
            pruned_keeps_required(t.children[0], req);
            let c0 = pruned(t.children[0], req)->Some_0;
            assert forall|c: usize|
                required.contains(c) && output_columns(t).contains(c) implies output_columns(
                r,
            ).contains(c) by {
                if output_of(t.children).contains(c) {
                    let i = choose|i: int|
                        0 <= i < t.children.len() && output_columns(t.children[i]).contains(c);
                    assert(i == 0);
                    assert(req.intersect(output_columns(t.children[0])).contains(c));
                    assert(output_columns(c0).contains(c));
                    if kept.len() > 0 {
                        assert(r.children[0] == c0);
                        assert(output_of(r.children).contains(c));
                    }
                } else {
                    assert(item_indexes(p.items).contains(c));
                    assert(item_indexes(kept).contains(c));
                    if kept.len() == 0 {
                        let i = choose|i: int| 0 <= i < kept.len() && kept[i].index == c;
                    }
                }
            }
        },
        RelOperatorView::Filter(p) => {
            let req = required.union(used_in(p.predicates));
            pruned_keeps_required(t.children[0], req);
            unary_keeps(t, r, required, req);
        },
        RelOperatorView::Aggregate(p) => {
            keep_items_facts(p.aggregate_functions, required);
        },
        RelOperatorView::Sort(p) => {
            let req = required.union(sort_indexes(p.items));
            pruned_keeps_required(t.children[0], req);
            unary_keeps(t, r, required, req);
        },
        RelOperatorView::Limit(_) => {
            pruned_keeps_required(t.children[0], required);
            unary_keeps(t, r, required, required);
        },
        RelOperatorView::UnionAll(p) => {},
        RelOperatorView::DummyTableScan => {},
        _ => {},
    }
}

proof fn unary_keeps(t: SExprView, r: SExprView, required: Set<usize>, req: Set<usize>)
    requires
        t.children.len() == 1,
        r.children.len() == 1,
        required.subset_of(req),
        req.intersect(output_columns(t.children[0])).subset_of(output_columns(r.children[0])),
    ensures
        required.intersect(output_of(t.children)).subset_of(output_of(r.children)),
{
    assert forall|c: usize|
        required.contains(c) && output_of(t.children).contains(c) implies output_of(
        r.children,
    ).contains(c) by {
        let i = choose|i: int|
            0 <= i < t.children.len() && output_columns(t.children[i]).contains(c);
        assert(i == 0);
        assert(req.intersect(output_columns(t.children[0])).contains(c));
        assert(output_columns(r.children[0]).contains(c));
    }
}

/// Pruning an aggregation keeps every group item, whatever the caller
/// asked for, and asks its input for the column of every group item: the
/// pruned input hands on each of those columns that the input handed on.
pub proof fn pruned_keeps_group_items(t: SExprView, required: Set<usize>)
    requires
        well_formed(t),
        t.plan is Aggregate,
        pruned(t, required) is Some,
    ensures
        pruned(t, required)->Some_0.plan is Aggregate,
        pruned(t, required)->Some_0.plan->Aggregate_0.group_items
            == t.plan->Aggregate_0.group_items,
        pruned(t, required)->Some_0.children.len() == 1,
        item_indexes(t.plan->Aggregate_0.group_items).intersect(
            output_columns(t.children[0]),
        ).subset_of(output_columns(pruned(t, required)->Some_0.children[0])),
        keep_items(t.plan->Aggregate_0.aggregate_functions, required).0.len() == 0
            ==> pruned(t, required)->Some_0.plan->Aggregate_0.aggregate_functions.len() == 0,
{
    let p = t.plan->Aggregate_0;
    let (kept, req) = keep_items(p.aggregate_functions, required);
    let asked = req.union(item_indexes(p.group_items));
    pruned_keeps_required(t.children[0], asked);
}

/// The pass that removes unused columns.
pub struct UnusedColumnPruner<'a> {
    metadata: &'a Metadata,
}

impl<'a> UnusedColumnPruner<'a> {
    /// A pruner for plans whose columns `metadata` describes.
    pub fn new(metadata: &'a Metadata) -> (p: Self)
        ensures
            p.metadata() == metadata,
    {
        UnusedColumnPruner { metadata }
    }

    /// The registry that this pruner was made with.
    pub closed spec fn metadata(&self) -> &'a Metadata {
        self.metadata
    }

    /// Removes from `expr` what `require_columns` does not ask for. The
    /// root of the result records the rules that were applied to `expr`.
    ///
    /// Fails with an internal error exactly where `pruned` is undefined;
    /// the message is that of the first failure that the pass meets.
    pub fn remove_unused_columns(&self, expr: &SExpr, require_columns: ColumnSet) -> (r: Result<
        SExpr,
        ErrorCode,
    >)
        ensures
            match pruned(expr@, require_columns@) {
                Some(t) => r is Ok && r->Ok_0@ == (SExprView {
                    applied_rules: expr@.applied_rules,
                    ..t
                }),
                None => r is Err && r->Err_0.code == INTERNAL,
            },
            r is Err ==> Some(r->Err_0.message@) == prune_failure(expr@, require_columns@),
    {
        match Self::keep_required_columns(expr, require_columns) {
            Ok(s) => {
                let out = SExpr {
                    plan: s.plan,
                    children: s.children,
                    applied_rules: expr.applied_rules,
                };
                proof {
                    sexpr_view_parts(s);
                    sexpr_view_parts(out);
                    sexpr_view_parts(*expr);
                }
                Ok(out)
            },
            Err(e) => Err(e),
        }
    }

    /// Keeps the columns that the ancestors of `expr` refer to.
    pub fn keep_required_columns(expr: &SExpr, required: ColumnSet) -> (r: Result<
        SExpr,
        ErrorCode,
    >)
        ensures
            match pruned(expr@, required@) {
                Some(t) => r is Ok && r->Ok_0@ == t,
                None => r is Err && r->Err_0.code == INTERNAL,
            },
            r is Err ==> Some(r->Err_0.message@) == prune_failure(expr@, required@),
            r is Ok ==> prune_failure(expr@, required@) is None,
        decreases expr,
    {
        proof {
            sexpr_view_parts(*expr);
            reveal_with_fuel(operator_view, 3);
            prune_failure_matches(expr@, required@);
        }
        match &expr.plan {
            RelOperator::Scan(p) => {
                if p.columns.is_empty() {
                    return Ok(expr.clone());
                }
                let used = required.intersection(&p.columns);
                let scan = match &p.prewhere {
                    Some(pw) => {
                        let all = used.union(&pw.prewhere_columns);
                        let prewhere = Prewhere {
                            output_columns: used,
                            prewhere_columns: pw.prewhere_columns.clone(),
                            predicates: clone_scalars(&pw.predicates),
                        };
                        prune_columns(p, all, Some(prewhere))
                    },
                    None => prune_columns(p, used, None),
                };
                Ok(SExpr::create_leaf(RelOperator::Scan(scan)))
            },
            RelOperator::Join(p) => {
                let others = required.union(&list_used_columns(&p.non_equi_conditions));
                let left = required.union(&list_used_columns(&p.left_conditions)).union(&others);
                let right = required.union(&list_used_columns(&p.right_conditions)).union(&others);
                let c0 = match expr.child(0) {
                    Ok(c) => c,
                    Err(e) => {
                        return Err(e);
                    },
                };
                let l = match Self::keep_required_columns(c0, left) {
                    Ok(l) => l,
                    Err(e) => {
                        return Err(e);
                    },
                };
                let c1 = match expr.child(1) {
                    Ok(c) => c,
                    Err(e) => {
                        return Err(e);
                    },
                };
                let r = match Self::keep_required_columns(c1, right) {
                    Ok(r) => r,
                    Err(e) => {
                        return Err(e);
                    },
                };
                Ok(SExpr::create_binary(RelOperator::Join(clone_join(p)), l, r))
            },
            RelOperator::EvalScalar(p) => {
                let (used, req) = keep_required_items(&p.items, required);
                let c0 = match expr.child(0) {
                    Ok(c) => c,
                    Err(e) => {
                        return Err(e);
                    },
                };
                let c = match Self::keep_required_columns(c0, req) {
                    Ok(c) => c,
                    Err(e) => {
                        return Err(e);
                    },
                };
                if used.len() == 0 {
                    Ok(c)
                } else {
                    Ok(SExpr::create_unary(RelOperator::EvalScalar(EvalScalar { items: used }), c))
                }
            },
            RelOperator::Filter(p) => {
                let used = required.union(&list_used_columns(&p.predicates));
                let c0 = match expr.child(0) {
                    Ok(c) => c,
                    Err(e) => {
                        return Err(e);
                    },
                };
                let c = match Self::keep_required_columns(c0, used) {
                    Ok(c) => c,
                    Err(e) => {
                        return Err(e);
                    },
                };
                Ok(SExpr::create_unary(RelOperator::Filter(clone_filter(p)), c))
            },
            RelOperator::Aggregate(p) => {
                let (used, req) = keep_required_items(&p.aggregate_functions, required);
                let req = req.union(&items_indexes(&p.group_items));
                let c0 = match expr.child(0) {
                    Ok(c) => c,
                    Err(e) => {
                        return Err(e);
                    },
                };
                let c = match Self::keep_required_columns(c0, req) {
                    Ok(c) => c,
                    Err(e) => {
                        return Err(e);
                    },
                };
                let aggregate = Aggregate {
                    group_items: clone_items(&p.group_items),
                    aggregate_functions: used,
                    from_distinct: p.from_distinct,
                    mode: p.mode,
                    limit: p.limit,
                    grouping_id_index: p.grouping_id_index,
                    grouping_sets: clone_index_lists(&p.grouping_sets),
                };
                Ok(SExpr::create_unary(RelOperator::Aggregate(aggregate), c))
            },
            RelOperator::Sort(p) => {
                let req = required.union(&sort_item_indexes(&p.items));
                let c0 = match expr.child(0) {
                    Ok(c) => c,
                    Err(e) => {
                        return Err(e);
                    },
                };
                let c = match Self::keep_required_columns(c0, req) {
                    Ok(c) => c,
                    Err(e) => {
                        return Err(e);
                    },
                };
                Ok(SExpr::create_unary(expr.plan.clone(), c))
            },
            RelOperator::Limit(p) => {
                let c0 = match expr.child(0) {
                    Ok(c) => c,
                    Err(e) => {
                        return Err(e);
                    },
                };
                let c = match Self::keep_required_columns(c0, required) {
                    Ok(c) => c,
                    Err(e) => {
                        return Err(e);
                    },
                };
                Ok(SExpr::create_unary(RelOperator::Limit(*p), c))
            },
            RelOperator::UnionAll(p) => {
                let (left_columns, right_columns) = pair_indexes(&p.pairs);
                let left_used = required.union(&left_columns);
                let right_used = required.union(&right_columns);
                let c0 = match expr.child(0) {
                    Ok(c) => c,
                    Err(e) => {
                        return Err(e);
                    },
                };
                let l = match Self::keep_required_columns(c0, left_used) {
                    Ok(l) => l,
                    Err(e) => {
                        return Err(e);
                    },
                };
                let c1 = match expr.child(1) {
                    Ok(c) => c,
                    Err(e) => {
                        return Err(e);
                    },
                };
                let r = match Self::keep_required_columns(c1, right_used) {
                    Ok(r) => r,
                    Err(e) => {
                        return Err(e);
                    },
                };
                Ok(SExpr::create_binary(expr.plan.clone(), l, r))
            },
            RelOperator::DummyTableScan => Ok(expr.clone()),
            _ => Err(
                ErrorCode::internal("Attempting to prune columns of a physical plan is not allowed"),
            ),
        }
    }
}

/// The scan `p` with its columns and its prewhere filter replaced.
pub fn prune_columns(p: &Scan, columns: ColumnSet, prewhere: Option<Prewhere>) -> (r: Scan)
    ensures
        r@ == (ScanView {
            columns: columns@,
            prewhere: match prewhere {
                Some(pw) => Some(pw@),
                None => None,
            },
            ..p@
        }),
{
    Scan {
        table_index: p.table_index,
        columns,
        push_down_predicates: match &p.push_down_predicates {
            Some(v) => Some(clone_scalars(v)),
            None => None,
        },
        limit: p.limit,
        order_by: match &p.order_by {
            Some(v) => Some(clone_sort_items(v)),
            None => None,
        },
        prewhere,
    }
}

/// The items of `items` that `required` asks for, first to last, and the
/// required set grown by what the kept items read.
pub fn keep_required_items(items: &Vec<ScalarItem>, required: ColumnSet) -> (r: (
    Vec<ScalarItem>,
    ColumnSet,
))
    ensures
        items_view(r.0) == keep_items(items_view(*items), required@).0,
        r.1@ == keep_items(items_view(*items), required@).1,
{
    let ghost all = items_view(*items);
    let ghost start = required@;
    let mut kept: Vec<ScalarItem> = Vec::new();
    let mut req = required;
    let mut i: usize = 0;
    proof {
        assert(all.take(0) =~= Seq::empty());
        assert(items_view(kept) =~= Seq::empty());
    }
    while i < items.len()
        invariant
            i <= items.len(),
            all == items_view(*items),
            items_view(kept) == keep_items(all.take(i as int), start).0,
            req@ == keep_items(all.take(i as int), start).1,
        decreases items.len() - i,
    {
        let ghost before = items_view(kept);
        proof {
            assert(all.take(i + 1).drop_last() =~= all.take(i as int));
            assert(all.take(i + 1).last() == all[i as int]);
        }
        if req.contains(items[i].index) {
            let item = clone_item(&items[i]);
            req = req.union(&scalar_used_columns(&items[i].scalar));
            kept.push(item);
            assert(items_view(kept) =~= before.push(all[i as int]));
        }
        i = i + 1;
    }
    assert(all.take(items.len() as int) =~= all);
    (kept, req)
}

} // verus!
