//! Why the rewrite only ever adds to the registry.
//!
//! The registry of columns grows at its end: a derived column or a marker
//! is a new last entry. No pass takes an entry away or changes one, so an
//! index that a plan holds keeps its meaning while the plan is rewritten.

use crate::columns::{ordered};
use crate::decorrelate::{decorrelated, simply_decorrelated};
use crate::flatten::{RewriterView, derive_columns, direct_mappings, flattened, touches};
use crate::ir::{RelOperatorView, SExprView, ScalarItemView, ScalarView, SubqueryType, SubqueryView};
use crate::metadata::{MetadataView};
use crate::property::{operator_used, outer_columns};
use crate::rewrite::{decorrelation, fresh_state, plan_has_subquery, rewritten, rewritten_items, rewritten_list, rewritten_plans, rewritten_scalar, rewritten_subquery};
use crate::scalar::{has_subquery, used_in_items};
use vstd::prelude::*;

verus! {

/// Whether `after` is `before` with entries added at the end of its
/// columns: the tables are the same, and every column of `before` stands
/// unchanged at its index.
pub open spec fn extends(after: MetadataView, before: MetadataView) -> bool {
    &&& after.tables == before.tables
    &&& before.columns.len() <= after.columns.len()
    &&& forall|i: int| 0 <= i < before.columns.len() ==> after.columns[i] == before.columns[i]
}

/// A registry extends itself, and extending is transitive.
pub proof fn extends_in_steps(a: MetadataView, b: MetadataView, c: MetadataView)
    ensures
        extends(a, a),
        extends(c, b) && extends(b, a) ==> extends(c, a),
{
}

/// Deriving columns adds to the registry.
pub proof fn derive_columns_extends(columns: Seq<usize>, st: RewriterView)
    requires
        derive_columns(columns, st) is Some,
    ensures
        extends(derive_columns(columns, st)->Some_0.metadata, st.metadata),
    decreases columns.len(),
{
    if columns.len() > 0 {
        derive_columns_extends(columns.drop_last(), st);
    }
}

/// Flattening adds to the registry.
pub proof fn flattened_extends(
    plan: SExprView,
    correlated: Set<usize>,
    st: RewriterView,
    counted: bool,
    need_cross_join: bool,
)
    requires
        flattened(plan, correlated, st, counted, need_cross_join) is Some,
    ensures
        extends(
            flattened(plan, correlated, st, counted, need_cross_join)->Some_0.1.metadata,
            st.metadata,
        ),
    decreases plan,
{
    if outer_columns(plan) == Set::<usize>::empty() {
        if need_cross_join {
            derive_columns_extends(ordered(correlated), st);
        }
    } else {
        match plan.plan {
            RelOperatorView::EvalScalar(e) => {
                let need = need_cross_join || touches(used_in_items(e.items), correlated);
                flattened_extends(plan.children[0], correlated, st, counted, need);
            },
            RelOperatorView::Filter(f) => {
                let mapped = direct_mappings(f.predicates, correlated, st.derived_columns);
                let need = need_cross_join || !mapped.0;
                let derived = if need_cross_join {
                    st.derived_columns
                } else if mapped.0 {
                    mapped.1
                } else {
                    Map::empty()
                };
                let below = RewriterView { derived_columns: derived, ..st };
                flattened_extends(plan.children[0], correlated, below, counted, need);
            },
            RelOperatorView::Join(_) | RelOperatorView::UnionAll(_) => {
                let need = need_cross_join || touches(operator_used(plan.plan), correlated);
                flattened_extends(plan.children[0], correlated, st, counted, need);
                let (left, s, n) = flattened(plan.children[0], correlated, st, counted, need)->Some_0;
                flattened_extends(plan.children[1], correlated, s, n, need);
            },
            RelOperatorView::Aggregate(_) => {
                let need = need_cross_join || touches(operator_used(plan.plan), correlated);
                flattened_extends(plan.children[0], correlated, st, counted, need);
            },
            RelOperatorView::Sort(_) | RelOperatorView::Limit(_) => {
                flattened_extends(plan.children[0], correlated, st, counted, need_cross_join);
            },
            _ => {},
        }
    }
}

/// Decorrelating one subquery adds to the registry.
pub proof fn decorrelated_extends(
    left: SExprView,
    q: SubqueryView,
    st: RewriterView,
    counted: bool,
    is_conjunctive_predicate: bool,
)
    requires
        decorrelated(left, q, st, counted, is_conjunctive_predicate) is Some,
    ensures
        extends(
            decorrelated(left, q, st, counted, is_conjunctive_predicate)->Some_0.2.metadata,
            st.metadata,
        ),
{
    let simple = if (q.typ == SubqueryType::Exists || q.typ == SubqueryType::NotExists)
        && is_conjunctive_predicate {
        simply_decorrelated(left, q)
    } else {
        Some(None)
    };
    if simple->Some_0 is None {
        flattened_extends(*q.subquery, q.outer_columns, st, counted, false);
    }
}

/// Rewriting a scalar adds to the registry.
pub proof fn rewritten_scalar_extends(
    e: ScalarView,
    input: SExprView,
    st: RewriterView,
    is_conjunctive_predicate: bool,
)
    requires
        rewritten_scalar(e, input, st, is_conjunctive_predicate) is Some,
    ensures
        extends(
            rewritten_scalar(e, input, st, is_conjunctive_predicate)->Some_0.2.metadata,
            st.metadata,
        ),
    decreases e, 0nat,
{
    if has_subquery(e) {
        match e {
            ScalarView::AndExpr { left, right } => {
                rewritten_scalar_extends(*left, input, st, false);
                let (l, i1, s1) = rewritten_scalar(*left, input, st, false)->Some_0;
                rewritten_scalar_extends(*right, i1, s1, false);
            },
            ScalarView::OrExpr { left, right } => {
                rewritten_scalar_extends(*left, input, st, false);
                let (l, i1, s1) = rewritten_scalar(*left, input, st, false)->Some_0;
                rewritten_scalar_extends(*right, i1, s1, false);
            },
            ScalarView::ComparisonExpr { left, right, .. } => {
                rewritten_scalar_extends(*left, input, st, false);
                let (l, i1, s1) = rewritten_scalar(*left, input, st, false)->Some_0;
                rewritten_scalar_extends(*right, i1, s1, false);
            },
            ScalarView::NotExpr { argument } => {
                rewritten_scalar_extends(*argument, input, st, false);
            },
            ScalarView::CastExpr { argument, .. } => {
                rewritten_scalar_extends(*argument, input, st, false);
            },
            ScalarView::FunctionCall { arguments, .. } => {
                rewritten_list_extends(arguments, arguments.len(), input, st, false);
            },
            ScalarView::SubqueryExpr(q) => {
                rewritten_subquery_extends(q, input, st, is_conjunctive_predicate);
            },
            _ => {},
        }
    }
}

/// Rewriting scalars adds to the registry.
pub proof fn rewritten_list_extends(
    list: Seq<ScalarView>,
    n: nat,
    input: SExprView,
    st: RewriterView,
    is_conjunctive_predicate: bool,
)
    requires
        rewritten_list(list, n, input, st, is_conjunctive_predicate) is Some,
    ensures
        extends(
            rewritten_list(list, n, input, st, is_conjunctive_predicate)->Some_0.2.metadata,
            st.metadata,
        ),
    decreases list, n,
{
    if n > 0 {
        rewritten_list_extends(list, (n - 1) as nat, input, st, is_conjunctive_predicate);
        let (done, i1, s1) = rewritten_list(
            list,
            (n - 1) as nat,
            input,
            st,
            is_conjunctive_predicate,
        )->Some_0;
        rewritten_scalar_extends(list[n - 1], i1, s1, is_conjunctive_predicate);
    }
}

/// Rewriting a subquery adds to the registry.
pub proof fn rewritten_subquery_extends(
    q: SubqueryView,
    input: SExprView,
    st: RewriterView,
    is_conjunctive_predicate: bool,
)
    requires
        rewritten_subquery(q, input, st, is_conjunctive_predicate) is Some,
    ensures
        extends(
            rewritten_subquery(q, input, st, is_conjunctive_predicate)->Some_0.2.metadata,
            st.metadata,
        ),
    decreases q, 0nat,
{
    rewritten_extends(*q.subquery, st);
    let (inner, s1) = rewritten(*q.subquery, st)->Some_0;
    let q2 = SubqueryView { subquery: Box::new(inner), ..q };
    decorrelated_extends(input, q2, s1, false, is_conjunctive_predicate);
}

/// Rewriting items adds to the registry.
pub proof fn rewritten_items_extend(
    items: Seq<ScalarItemView>,
    n: nat,
    input: SExprView,
    st: RewriterView,
    is_conjunctive_predicate: bool,
)
    requires
        rewritten_items(items, n, input, st, is_conjunctive_predicate) is Some,
    ensures
        extends(
            rewritten_items(items, n, input, st, is_conjunctive_predicate)->Some_0.2.metadata,
            st.metadata,
        ),
    decreases items, n,
{
    if n > 0 {
        rewritten_items_extend(items, (n - 1) as nat, input, st, is_conjunctive_predicate);
        let (done, i1, s1) = rewritten_items(
            items,
            (n - 1) as nat,
            input,
            st,
            is_conjunctive_predicate,
        )->Some_0;
        rewritten_scalar_extends(items[n - 1].scalar, i1, s1, is_conjunctive_predicate);
    }
}

/// Rewriting plans adds to the registry.
pub proof fn rewritten_plans_extend(plans: Seq<SExprView>, n: nat, st: RewriterView)
    requires
        rewritten_plans(plans, n, st) is Some,
    ensures
        extends(rewritten_plans(plans, n, st)->Some_0.1.metadata, st.metadata),
        rewritten_plans(plans, n, st)->Some_0.0.len() == n,
    decreases plans, n,
{
    if n > 0 {
        rewritten_plans_extend(plans, (n - 1) as nat, st);
        let (done, s1) = rewritten_plans(plans, (n - 1) as nat, st)->Some_0;
        rewritten_extends(plans[n - 1], s1);
    }
}

/// Rewriting a plan adds to the registry.
pub proof fn rewritten_extends(t: SExprView, st: RewriterView)
    requires
        rewritten(t, st) is Some,
    ensures
        extends(rewritten(t, st)->Some_0.1.metadata, st.metadata),
    decreases t, 0nat,
{
    rewritten_plans_extend(t.children, t.children.len(), st);
    let (children, s1) = rewritten_plans(t.children, t.children.len(), st)->Some_0;
    match t.plan {
        RelOperatorView::EvalScalar(p) => {
            rewritten_items_extend(p.items, p.items.len(), children[0], s1, false);
        },
        RelOperatorView::Filter(p) => {
            rewritten_list_extends(p.predicates, p.predicates.len(), children[0], s1, true);
        },
        RelOperatorView::Aggregate(p) => {
            rewritten_items_extend(p.group_items, p.group_items.len(), children[0], s1, false);
            let (groups, i1, s2) = rewritten_items(
                p.group_items,
                p.group_items.len(),
                children[0],
                s1,
                false,
            )->Some_0;
            rewritten_items_extend(
                p.aggregate_functions,
                p.aggregate_functions.len(),
                i1,
                s2,
                false,
            );
        },
        _ => {},
    }
}

/// Decorrelation only adds to the registry: the tables stay, and every
/// column that was there before stands unchanged at its index.
pub proof fn decorrelation_extends(t: SExprView, metadata: MetadataView)
    requires
        decorrelation(t, metadata) is Some,
    ensures
        extends(decorrelation(t, metadata)->Some_0.1, metadata),
{
    if plan_has_subquery(t) {
        rewritten_extends(t, fresh_state(metadata));
    }
}

} // verus!
