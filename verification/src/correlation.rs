//! Why flattening removes the correlation from a plan.
//!
//! A flattened projection, aggregation or filter refers to derived columns
//! where it referred to correlated ones, and a derived column is never a
//! correlated one. A join, a union and a sort keep their own scalars, so
//! the law speaks of plans in which these name no correlated column
//! themselves.

use crate::columns::{ordered};
use crate::flatten::{RewriterView, cross_join, derive_columns, derive_columns_keeps_apart, derived_apart, derived_scan, direct_mappings, direct_mappings_keep_apart, flattened, flattened_aggregate, flattened_eval_scalar, flattened_join, flattened_list, flattened_list_is_uncorrelated, flattened_operators_are_uncorrelated, touches};
use crate::growth::{flattened_extends};
use crate::ir::{AggregateView, EvalScalarView, FilterView, RelOperatorView, SExprView};
use crate::metadata::{owning_table};
use crate::property::{operator_produced, operator_used, outer_columns, produced, produced_in, referenced, referenced_in};
use crate::prune::{binary, leaf, unary};
use crate::scalar::{used_in_items};
use vstd::prelude::*;

verus! {

/// What a built node refers to and produces: what its operator does,
/// together with what its inputs do.
pub proof fn columns_of_built_nodes(op: RelOperatorView, a: SExprView, b: SExprView)
    ensures
        referenced(leaf(op)) == operator_used(op),
        produced(leaf(op)) == operator_produced(op),
        referenced(unary(op, a)) == operator_used(op).union(referenced(a)),
        produced(unary(op, a)) == operator_produced(op).union(produced(a)),
        referenced(binary(op, a, b)) == operator_used(op).union(referenced(a)).union(
            referenced(b),
        ),
        produced(binary(op, a, b)) == operator_produced(op).union(produced(a)).union(produced(b)),
{
    let none = Seq::<SExprView>::empty();
    assert(referenced_in(none) =~= Set::<usize>::empty());
    assert(produced_in(none) =~= Set::<usize>::empty());
    assert(referenced(leaf(op)) =~= operator_used(op));
    assert(produced(leaf(op)) =~= operator_produced(op));
    let one = seq![a];
    assert forall|c: usize| referenced_in(one).contains(c) <==> referenced(a).contains(c) by {
        if referenced(a).contains(c) {
            assert(referenced(one[0]).contains(c));
        }
    }
    assert forall|c: usize| produced_in(one).contains(c) <==> produced(a).contains(c) by {
        if produced(a).contains(c) {
            assert(produced(one[0]).contains(c));
        }
    }
    assert(referenced(unary(op, a)) =~= operator_used(op).union(referenced(a)));
    assert(produced(unary(op, a)) =~= operator_produced(op).union(produced(a)));
    let two = seq![a, b];
    assert forall|c: usize| referenced_in(two).contains(c) <==> (referenced(a).contains(c)
        || referenced(b).contains(c)) by {
        if referenced(a).contains(c) {
            assert(referenced(two[0]).contains(c));
        }
        if referenced(b).contains(c) {
            assert(referenced(two[1]).contains(c));
        }
    }
    assert forall|c: usize| produced_in(two).contains(c) <==> (produced(a).contains(c) || produced(
        b,
    ).contains(c)) by {
        if produced(a).contains(c) {
            assert(produced(two[0]).contains(c));
        }
        if produced(b).contains(c) {
            assert(produced(two[1]).contains(c));
        }
    }
    assert(referenced(binary(op, a, b)) =~= operator_used(op).union(referenced(a)).union(
        referenced(b),
    ));
    assert(produced(binary(op, a, b)) =~= operator_produced(op).union(produced(a)).union(
        produced(b),
    ));
}

/// A node over inputs that are free of correlation is free of it where
/// its operator names no correlated column.
pub proof fn built_node_is_uncorrelated(
    op: RelOperatorView,
    a: SExprView,
    b: SExprView,
    correlated: Set<usize>,
)
    requires
        operator_used(op).disjoint(correlated),
        outer_columns(a).disjoint(correlated),
    ensures
        outer_columns(unary(op, a)).disjoint(correlated),
        outer_columns(b).disjoint(correlated) ==> outer_columns(binary(op, a, b)).disjoint(
            correlated,
        ),
{
    columns_of_built_nodes(op, a, b);
    assert forall|c: usize| outer_columns(unary(op, a)).contains(c) implies !correlated.contains(
        c,
    ) by {
        if !operator_used(op).contains(c) {
            assert(outer_columns(a).contains(c));
        }
    }
    if outer_columns(b).disjoint(correlated) {
        assert forall|c: usize| outer_columns(binary(op, a, b)).contains(c)
            implies !correlated.contains(c) by {
            if operator_used(op).contains(c) {
            } else if referenced(a).contains(c) {
                assert(outer_columns(a).contains(c));
            } else {
                assert(outer_columns(b).contains(c));
            }
        }
    }
}

/// Whether the joins, the unions and the sorts of the plan name no
/// correlated column themselves.
pub open spec fn correlation_is_in_reach(plan: SExprView, correlated: Set<usize>) -> bool
    decreases plan,
{
    &&& (plan.plan is Join || plan.plan is UnionAll || plan.plan is Sort) ==> operator_used(
        plan.plan,
    ).disjoint(correlated)
    &&& forall|i: int|
        0 <= i < plan.children.len() ==> correlation_is_in_reach(
            #[trigger] plan.children[i],
            correlated,
        )
}

/// Deriving columns adds one entry to the registry for each column.
pub proof fn derive_columns_length(columns: Seq<usize>, st: RewriterView)
    requires
        derive_columns(columns, st) is Some,
    ensures
        derive_columns(columns, st)->Some_0.metadata.columns.len() == st.metadata.columns.len()
            + columns.len(),
    decreases columns.len(),
{
    if columns.len() > 0 {
        derive_columns_length(columns.drop_last(), st);
    }
}

/// Whether the state is fit for flattening over `correlated`: no derived
/// column is a correlated one, and every correlated column has an entry in
/// the registry.
pub open spec fn fit_for(st: RewriterView, correlated: Set<usize>) -> bool {
    &&& derived_apart(correlated, st.derived_columns)
    &&& forall|c: usize| correlated.contains(c) ==> c < st.metadata.columns.len()
}

/// Flattening removes the correlation: the flattened plan has no
/// correlated column among its outer columns.
///
/// This holds of a plan whose joins, unions and sorts name no correlated
/// column themselves, from a state that is fit for flattening, as long as
/// the registry stays within what an index can address.
pub proof fn flattened_is_uncorrelated(
    plan: SExprView,
    correlated: Set<usize>,
    st: RewriterView,
    counted: bool,
    need_cross_join: bool,
)
    requires
        flattened(plan, correlated, st, counted, need_cross_join) is Some,
        correlation_is_in_reach(plan, correlated),
        fit_for(st, correlated),
        flattened(plan, correlated, st, counted, need_cross_join)->Some_0.1.metadata.columns.len()
            <= usize::MAX,
    ensures
        outer_columns(
            flattened(plan, correlated, st, counted, need_cross_join)->Some_0.0,
        ).disjoint(correlated),
        fit_for(flattened(plan, correlated, st, counted, need_cross_join)->Some_0.1, correlated),
    decreases plan, 1nat,
{
    flattened_extends(plan, correlated, st, counted, need_cross_join);
    if outer_columns(plan) == Set::<usize>::empty() {
        if need_cross_join {
            let table_index = owning_table(st.metadata, correlated)->Some_0;
            let columns = ordered(correlated);
            let s = derive_columns(columns, st)->Some_0;
            derive_columns_length(columns, st);
            derive_columns_keeps_apart(columns, st, correlated);
            let scan = leaf(RelOperatorView::Scan(derived_scan(table_index, s.derived_columns)));
            columns_of_built_nodes(
                RelOperatorView::Scan(derived_scan(table_index, s.derived_columns)),
                plan,
                plan,
            );
            assert(outer_columns(scan) =~= Set::<usize>::empty());
            assert(operator_used(RelOperatorView::Join(cross_join())) =~= Set::<usize>::empty());
            built_node_is_uncorrelated(RelOperatorView::Join(cross_join()), scan, plan, correlated);
        }
    } else {
        match plan.plan {
            RelOperatorView::EvalScalar(_) | RelOperatorView::Aggregate(_) => {
                flattened_under_items_is_uncorrelated(plan, correlated, st, counted, need_cross_join);
            },
            RelOperatorView::Filter(_) => {
                flattened_under_filter_is_uncorrelated(
                    plan,
                    correlated,
                    st,
                    counted,
                    need_cross_join,
                );
            },
            RelOperatorView::Join(_) | RelOperatorView::UnionAll(_) => {
                flattened_under_two_is_uncorrelated(plan, correlated, st, counted, need_cross_join);
            },
            RelOperatorView::Sort(_) | RelOperatorView::Limit(_) => {
                assert(correlation_is_in_reach(plan.children[0], correlated));
                flattened_is_uncorrelated(plan.children[0], correlated, st, counted, need_cross_join);
                let (child, s, n) = flattened(
                    plan.children[0],
                    correlated,
                    st,
                    counted,
                    need_cross_join,
                )->Some_0;
                assert(operator_used(plan.plan).disjoint(correlated));
                built_node_is_uncorrelated(plan.plan, child, child, correlated);
            },
            _ => {},
        }
    }
}

/// The law for a projection and an aggregation.
proof fn flattened_under_items_is_uncorrelated(
    plan: SExprView,
    correlated: Set<usize>,
    st: RewriterView,
    counted: bool,
    need_cross_join: bool,
)
    requires
        flattened(plan, correlated, st, counted, need_cross_join) is Some,
        correlation_is_in_reach(plan, correlated),
        fit_for(st, correlated),
        flattened(plan, correlated, st, counted, need_cross_join)->Some_0.1.metadata.columns.len()
            <= usize::MAX,
        outer_columns(plan) != Set::<usize>::empty(),
        plan.plan is EvalScalar || plan.plan is Aggregate,
    ensures
        outer_columns(
            flattened(plan, correlated, st, counted, need_cross_join)->Some_0.0,
        ).disjoint(correlated),
        fit_for(flattened(plan, correlated, st, counted, need_cross_join)->Some_0.1, correlated),
    decreases plan, 0nat,
{
    let need = need_cross_join || touches(
        match plan.plan {
            RelOperatorView::EvalScalar(e) => used_in_items(e.items),
            _ => operator_used(plan.plan),
        },
        correlated,
    );
    assert(correlation_is_in_reach(plan.children[0], correlated));
    flattened_is_uncorrelated(plan.children[0], correlated, st, counted, need);
    let (child, s, n) = flattened(plan.children[0], correlated, st, counted, need)->Some_0;
    let e = match plan.plan {
        RelOperatorView::EvalScalar(e) => e,
        _ => EvalScalarView { items: Seq::empty() },
    };
    let a = match plan.plan {
        RelOperatorView::Aggregate(a) => a,
        _ => arbitrary::<AggregateView>(),
    };
    flattened_operators_are_uncorrelated(e, a, correlated, s);
    match plan.plan {
        RelOperatorView::EvalScalar(_) => {
            built_node_is_uncorrelated(
                flattened_eval_scalar(e, correlated, s)->Some_0,
                child,
                child,
                correlated,
            );
        },
        _ => {
            built_node_is_uncorrelated(
                flattened_aggregate(a, correlated, s)->Some_0,
                child,
                child,
                correlated,
            );
        },
    }
}

/// The law for a filter.
proof fn flattened_under_filter_is_uncorrelated(
    plan: SExprView,
    correlated: Set<usize>,
    st: RewriterView,
    counted: bool,
    need_cross_join: bool,
)
    requires
        flattened(plan, correlated, st, counted, need_cross_join) is Some,
        correlation_is_in_reach(plan, correlated),
        fit_for(st, correlated),
        flattened(plan, correlated, st, counted, need_cross_join)->Some_0.1.metadata.columns.len()
            <= usize::MAX,
        outer_columns(plan) != Set::<usize>::empty(),
        plan.plan is Filter,
    ensures
        outer_columns(
            flattened(plan, correlated, st, counted, need_cross_join)->Some_0.0,
        ).disjoint(correlated),
        fit_for(flattened(plan, correlated, st, counted, need_cross_join)->Some_0.1, correlated),
    decreases plan, 0nat,
{
    let f = plan.plan->Filter_0;
    let mapped = direct_mappings(f.predicates, correlated, st.derived_columns);
    direct_mappings_keep_apart(f.predicates, correlated, st.derived_columns);
    let need = need_cross_join || !mapped.0;
    let derived = if need_cross_join {
        st.derived_columns
    } else if mapped.0 {
        mapped.1
    } else {
        Map::empty()
    };
    let below = RewriterView { derived_columns: derived, ..st };
    assert(fit_for(below, correlated));
    assert(correlation_is_in_reach(plan.children[0], correlated));
    flattened_is_uncorrelated(plan.children[0], correlated, below, counted, need);
    let (child, s, n) = flattened(plan.children[0], correlated, below, counted, need)->Some_0;
    flattened_list_is_uncorrelated(f.predicates, correlated, s.derived_columns);
    let predicates = flattened_list(f.predicates, correlated, s.derived_columns)->Some_0;
    built_node_is_uncorrelated(
        RelOperatorView::Filter(FilterView { predicates, is_having: f.is_having }),
        child,
        child,
        correlated,
    );
}

/// The law for a join and a union.
proof fn flattened_under_two_is_uncorrelated(
    plan: SExprView,
    correlated: Set<usize>,
    st: RewriterView,
    counted: bool,
    need_cross_join: bool,
)
    requires
        flattened(plan, correlated, st, counted, need_cross_join) is Some,
        correlation_is_in_reach(plan, correlated),
        fit_for(st, correlated),
        flattened(plan, correlated, st, counted, need_cross_join)->Some_0.1.metadata.columns.len()
            <= usize::MAX,
        outer_columns(plan) != Set::<usize>::empty(),
        plan.plan is Join || plan.plan is UnionAll,
    ensures
        outer_columns(
            flattened(plan, correlated, st, counted, need_cross_join)->Some_0.0,
        ).disjoint(correlated),
        fit_for(flattened(plan, correlated, st, counted, need_cross_join)->Some_0.1, correlated),
    decreases plan, 0nat,
{
    let need = need_cross_join || touches(operator_used(plan.plan), correlated);
    assert(correlation_is_in_reach(plan.children[0], correlated));
    assert(correlation_is_in_reach(plan.children[1], correlated));
    let (left, s, n) = flattened(plan.children[0], correlated, st, counted, need)->Some_0;
    flattened_extends(plan.children[1], correlated, s, n, need);
    flattened_is_uncorrelated(plan.children[0], correlated, st, counted, need);
    flattened_is_uncorrelated(plan.children[1], correlated, s, n, need);
    let (right, s2, n2) = flattened(plan.children[1], correlated, s, n, need)->Some_0;
    let op = match plan.plan {
        RelOperatorView::Join(j) => flattened_join(j),
        _ => plan.plan,
    };
    assert(operator_used(op) =~= operator_used(plan.plan));
    built_node_is_uncorrelated(op, left, right, correlated);
}

} // verus!
