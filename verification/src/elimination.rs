//! Why the rewrite leaves no subquery behind.
//!
//! Every scalar that the rewrite puts into a plan is a reference to a
//! column, a constant, or a scalar of the plan that held no subquery. The
//! laws of this module follow the rewrite from the parts to the whole:
//! predicates sorted into the parts of a join, a flattened plan, one
//! decorrelated subquery, a rewritten scalar, a rewritten plan.

use crate::columns::{ordered};
use crate::decorrelate::{UnnestResult, correlated_join, decorrelated, filtered, marker_of, plain_filter, quantified_condition, simply_decorrelated};
use crate::error::{Span};
use crate::flatten::{RewriterView, cross_join, derive_columns, derived_scan, direct_mappings, equi_conditions, flattened, flattened_aggregate, flattened_eval_scalar, flattened_items, flattened_join, flattened_list, flattened_scalar, key_pair, pass_through_items, touches};
use crate::ir::{FilterView, JoinType, LiteralView, RelOperatorView, SExprView, ScalarItemView, ScalarView, SubqueryType, SubqueryView, Visibility};
use crate::join_predicate::{JoinConditionsView, JoinPredicateView, classify, equi_pair, split_predicates};
use crate::metadata::{owning_table};
use crate::property::{operator_used, outer_columns, output_columns};
use crate::prune::{binary, leaf, unary};
use crate::rewrite::{count_or_zero, operator_has_subquery, plan_has_subquery, rewritten, rewritten_items, rewritten_list, rewritten_plans, rewritten_scalar, rewritten_subquery, subquery_value};
use crate::scalar::{any_subquery, any_subquery_in_items, column_ref, has_subquery, used_in_items};
use crate::text::{decimal};
use crate::types::{DataType, NumberKind, wrapped_nullable};
use vstd::prelude::*;

verus! {

/// A node holds a subquery where its operator does or one of its inputs
/// does.
pub proof fn built_nodes(op: RelOperatorView, a: SExprView, b: SExprView)
    ensures
        plan_has_subquery(leaf(op)) == operator_has_subquery(op),
        plan_has_subquery(unary(op, a)) == (operator_has_subquery(op) || plan_has_subquery(a)),
        plan_has_subquery(binary(op, a, b)) == (operator_has_subquery(op) || plan_has_subquery(a)
            || plan_has_subquery(b)),
{
    let one = unary(op, a);
    assert(one.children[0] == a);
    let two = binary(op, a, b);
    assert(two.children[0] == a);
    assert(two.children[1] == b);
}

/// A list with one more scalar holds a subquery where the list did or the
/// scalar does.
pub proof fn pushed_scalar(list: Seq<ScalarView>, e: ScalarView)
    ensures
        any_subquery(list.push(e)) == (any_subquery(list) || has_subquery(e)),
{
    let longer = list.push(e);
    if any_subquery(longer) {
        let i = choose|i: int| 0 <= i < longer.len() && has_subquery(longer[i]);
        if i < list.len() {
            assert(longer[i] == list[i]);
        }
    }
    if any_subquery(list) {
        let i = choose|i: int| 0 <= i < list.len() && has_subquery(list[i]);
        assert(longer[i] == list[i]);
    }
    if has_subquery(e) {
        assert(longer[list.len() as int] == e);
    }
}

/// Whether none of the parts holds a subquery.
pub open spec fn conditions_are_plain(s: JoinConditionsView) -> bool {
    &&& !any_subquery(s.left_conditions)
    &&& !any_subquery(s.right_conditions)
    &&& !any_subquery(s.non_equi_conditions)
    &&& !any_subquery(s.left_filters)
    &&& !any_subquery(s.right_filters)
}

/// Sorting predicates that hold no subquery gives parts that hold none.
pub proof fn split_is_plain(predicates: Seq<ScalarView>, left: Set<usize>, right: Set<usize>)
    requires
        split_predicates(predicates, left, right) is Some,
        !any_subquery(predicates),
    ensures
        conditions_are_plain(split_predicates(predicates, left, right)->Some_0),
    decreases predicates.len(),
{
    if predicates.len() > 0 {
        let before = predicates.drop_last();
        let p = predicates.last();
        assert(predicates[predicates.len() - 1] == p);
        assert(!has_subquery(p));
        assert forall|i: int| 0 <= i < before.len() implies !has_subquery(before[i]) by {
            assert(before[i] == predicates[i]);
        }
        split_is_plain(before, left, right);
        let acc = split_predicates(before, left, right)->Some_0;
        pushed_scalar(acc.left_filters, p);
        pushed_scalar(acc.right_filters, p);
        pushed_scalar(acc.non_equi_conditions, p);
        match classify(p, left, right) {
            JoinPredicateView::Both { left: l, right: r } => {
                let (a, b) = equi_pair(l, r)->Some_0;
                assert(!has_subquery(l) && !has_subquery(r));
                assert(!has_subquery(a) && !has_subquery(b));
                pushed_scalar(acc.left_conditions, a);
                pushed_scalar(acc.right_conditions, b);
            },
            _ => {},
        }
    }
}

/// A plan under a filter holds a subquery where the predicates do or the
/// plan does.
pub proof fn filtered_plan(predicates: Seq<ScalarView>, plan: SExprView)
    ensures
        plan_has_subquery(filtered(predicates, plan)) == (any_subquery(predicates)
            || plan_has_subquery(plan)),
{
    built_nodes(plain_filter(predicates), plan, plan);
}

/// The simple decorrelation, applied to plans that hold no subquery,
/// gives a join that holds none.
pub proof fn simple_join_is_plain(input: SExprView, q: SubqueryView)
    requires
        simply_decorrelated(input, q) is Some,
        simply_decorrelated(input, q)->Some_0 is Some,
        !plan_has_subquery(input),
        !plan_has_subquery(*q.subquery),
    ensures
        !plan_has_subquery(simply_decorrelated(input, q)->Some_0->Some_0),
{
    let eval = *q.subquery;
    let filter_tree = eval.children[0];
    let scan = filter_tree.children[0];
    assert(!plan_has_subquery(filter_tree));
    assert(!plan_has_subquery(scan));
    let predicates = filter_tree.plan->Filter_0.predicates;
    assert(!any_subquery(predicates));
    let conditions = split_predicates(
        predicates,
        output_columns(input),
        output_columns(filter_tree),
    )->Some_0;
    split_is_plain(
        predicates,
        output_columns(input),
        output_columns(filter_tree),
    );
    let inner = unary(eval.plan, unary(eval.plan, leaf(scan.plan)));
    built_nodes(scan.plan, scan, scan);
    built_nodes(eval.plan, leaf(scan.plan), scan);
    built_nodes(eval.plan, unary(eval.plan, leaf(scan.plan)), scan);
    filtered_plan(conditions.left_filters, input);
    filtered_plan(conditions.right_filters, inner);
    let join_type = if q.typ == SubqueryType::Exists {
        JoinType::LeftSemi
    } else {
        JoinType::LeftAnti
    };
    built_nodes(
        correlated_join(
            join_type,
            conditions.left_conditions,
            conditions.right_conditions,
            conditions.non_equi_conditions,
            None,
        ),
        filtered(conditions.left_filters, input),
        filtered(conditions.right_filters, inner),
    );
}

/// Two lists of items together hold a subquery where one of them does.
pub proof fn joined_items(a: Seq<ScalarItemView>, b: Seq<ScalarItemView>)
    ensures
        any_subquery_in_items(a + b) == (any_subquery_in_items(a) || any_subquery_in_items(b)),
{
    let both = a + b;
    if any_subquery_in_items(both) {
        let i = choose|i: int| 0 <= i < both.len() && has_subquery(both[i].scalar);
        if i < a.len() {
            assert(both[i] == a[i]);
        } else {
            assert(both[i] == b[i - a.len()]);
        }
    }
    if any_subquery_in_items(a) {
        let i = choose|i: int| 0 <= i < a.len() && has_subquery(a[i].scalar);
        assert(both[i] == a[i]);
    }
    if any_subquery_in_items(b) {
        let i = choose|i: int| 0 <= i < b.len() && has_subquery(b[i].scalar);
        assert(both[i + a.len()] == b[i]);
    }
}

/// The pass-through items hold no subquery.
pub proof fn pass_through_is_plain(st: RewriterView)
    requires
        pass_through_items(st) is Some,
    ensures
        !any_subquery_in_items(pass_through_items(st)->Some_0),
{
}

/// Flattened items hold no subquery.
pub proof fn flattened_items_are_plain(
    items: Seq<ScalarItemView>,
    correlated: Set<usize>,
    derived: Map<usize, usize>,
)
    requires
        flattened_items(items, correlated, derived) is Some,
    ensures
        !any_subquery_in_items(flattened_items(items, correlated, derived)->Some_0),
{
    let flat = flattened_items(items, correlated, derived)->Some_0;
    assert forall|i: int| 0 <= i < flat.len() implies !has_subquery((#[trigger] flat[i]).scalar) by {
        flattened_scalar_is_plain(items[i].scalar, correlated, derived);
    }
}

/// A flattened scalar holds no subquery.
pub proof fn flattened_scalar_is_plain(
    e: ScalarView,
    correlated: Set<usize>,
    derived: Map<usize, usize>,
)
    requires
        flattened_scalar(e, correlated, derived) is Some,
    ensures
        !has_subquery(flattened_scalar(e, correlated, derived)->Some_0),
    decreases e,
{
    match e {
        ScalarView::AndExpr { left, right } => {
            flattened_scalar_is_plain(*left, correlated, derived);
            flattened_scalar_is_plain(*right, correlated, derived);
        },
        ScalarView::OrExpr { left, right } => {
            flattened_scalar_is_plain(*left, correlated, derived);
            flattened_scalar_is_plain(*right, correlated, derived);
        },
        ScalarView::NotExpr { argument } => {
            flattened_scalar_is_plain(*argument, correlated, derived);
        },
        ScalarView::ComparisonExpr { left, right, .. } => {
            flattened_scalar_is_plain(*left, correlated, derived);
            flattened_scalar_is_plain(*right, correlated, derived);
        },
        ScalarView::AggregateFunction(f) => {
            flattened_list_is_plain(f.args, correlated, derived);
        },
        ScalarView::FunctionCall { arguments, .. } => {
            flattened_list_is_plain(arguments, correlated, derived);
        },
        ScalarView::CastExpr { argument, .. } => {
            flattened_scalar_is_plain(*argument, correlated, derived);
        },
        _ => {},
    }
}

/// A flattened list of scalars holds no subquery.
pub proof fn flattened_list_is_plain(
    list: Seq<ScalarView>,
    correlated: Set<usize>,
    derived: Map<usize, usize>,
)
    requires
        flattened_list(list, correlated, derived) is Some,
    ensures
        !any_subquery(flattened_list(list, correlated, derived)->Some_0),
    decreases list,
{
    let flat = flattened_list(list, correlated, derived)->Some_0;
    assert forall|i: int| 0 <= i < flat.len() implies !has_subquery(#[trigger] flat[i]) by {
        flattened_scalar_is_plain(list[i], correlated, derived);
    }
}

/// A flattened projection over a plan that holds no subquery holds none.
proof fn flattened_projection_is_plain(
    plan: SExprView,
    correlated: Set<usize>,
    st: RewriterView,
    counted: bool,
    need_cross_join: bool,
)
    requires
        flattened(plan, correlated, st, counted, need_cross_join) is Some,
        !plan_has_subquery(plan),
        outer_columns(plan) != Set::<usize>::empty(),
        plan.plan is EvalScalar,
    ensures
        !plan_has_subquery(flattened(plan, correlated, st, counted, need_cross_join)->Some_0.0),
    decreases plan, 0nat,
{
    let e = plan.plan->EvalScalar_0;
        let need = need_cross_join || touches(
            used_in_items(e.items),
            correlated,
        );
        assert(!plan_has_subquery(plan.children[0]));
        flattened_is_plain(plan.children[0], correlated, st, counted, need);
        let (child, s, n) = flattened(plan.children[0], correlated, st, counted, need)->Some_0;
        flattened_items_are_plain(e.items, correlated, s.derived_columns);
        pass_through_is_plain(s);
        joined_items(
            flattened_items(e.items, correlated, s.derived_columns)->Some_0,
            pass_through_items(s)->Some_0,
        );
        built_nodes(flattened_eval_scalar(e, correlated, s)->Some_0, child, child);
}

/// A flattened filter over a plan that holds no subquery holds none.
proof fn flattened_filter_is_plain(
    plan: SExprView,
    correlated: Set<usize>,
    st: RewriterView,
    counted: bool,
    need_cross_join: bool,
)
    requires
        flattened(plan, correlated, st, counted, need_cross_join) is Some,
        !plan_has_subquery(plan),
        outer_columns(plan) != Set::<usize>::empty(),
        plan.plan is Filter,
    ensures
        !plan_has_subquery(flattened(plan, correlated, st, counted, need_cross_join)->Some_0.0),
    decreases plan, 0nat,
{
    let f = plan.plan->Filter_0;
        let mapped = direct_mappings(
            f.predicates,
            correlated,
            st.derived_columns,
        );
        let need = need_cross_join || !mapped.0;
        let derived = if need_cross_join {
            st.derived_columns
        } else if mapped.0 {
            mapped.1
        } else {
            Map::empty()
        };
        let below = RewriterView { derived_columns: derived, ..st };
        assert(!plan_has_subquery(plan.children[0]));
        flattened_is_plain(plan.children[0], correlated, below, counted, need);
        let (child, s, n) = flattened(plan.children[0], correlated, below, counted, need)->Some_0;
        flattened_list_is_plain(f.predicates, correlated, s.derived_columns);
        let predicates = flattened_list(f.predicates, correlated, s.derived_columns)->Some_0;
        built_nodes(
            RelOperatorView::Filter(
                FilterView { predicates, is_having: f.is_having },
            ),
            child,
            child,
        );
}

/// A join over flattened inputs that hold no subquery holds none.
proof fn flattened_join_is_plain(
    plan: SExprView,
    correlated: Set<usize>,
    st: RewriterView,
    counted: bool,
    need_cross_join: bool,
)
    requires
        flattened(plan, correlated, st, counted, need_cross_join) is Some,
        !plan_has_subquery(plan),
        outer_columns(plan) != Set::<usize>::empty(),
        plan.plan is Join,
    ensures
        !plan_has_subquery(flattened(plan, correlated, st, counted, need_cross_join)->Some_0.0),
    decreases plan, 0nat,
{
    let j = plan.plan->Join_0;
        let need = need_cross_join || touches(
            operator_used(plan.plan),
            correlated,
        );
        assert(!plan_has_subquery(plan.children[0]));
        assert(!plan_has_subquery(plan.children[1]));
        flattened_is_plain(plan.children[0], correlated, st, counted, need);
        let (left, s, n) = flattened(plan.children[0], correlated, st, counted, need)->Some_0;
        flattened_is_plain(plan.children[1], correlated, s, n, need);
        let (right, s2, n2) = flattened(plan.children[1], correlated, s, n, need)->Some_0;
        built_nodes(flattened_join(j), left, right);
}

/// A flattened aggregation over a plan that holds no subquery holds none.
proof fn flattened_aggregation_is_plain(
    plan: SExprView,
    correlated: Set<usize>,
    st: RewriterView,
    counted: bool,
    need_cross_join: bool,
)
    requires
        flattened(plan, correlated, st, counted, need_cross_join) is Some,
        !plan_has_subquery(plan),
        outer_columns(plan) != Set::<usize>::empty(),
        plan.plan is Aggregate,
    ensures
        !plan_has_subquery(flattened(plan, correlated, st, counted, need_cross_join)->Some_0.0),
    decreases plan, 0nat,
{
    let a = plan.plan->Aggregate_0;
        let need = need_cross_join || touches(
            operator_used(plan.plan),
            correlated,
        );
        assert(!plan_has_subquery(plan.children[0]));
        flattened_is_plain(plan.children[0], correlated, st, counted, need);
        let (child, s, n) = flattened(plan.children[0], correlated, st, counted, need)->Some_0;
        flattened_items_are_plain(a.group_items, correlated, s.derived_columns);
        flattened_items_are_plain(a.aggregate_functions, correlated, s.derived_columns);
        pass_through_is_plain(s);
        joined_items(
            flattened_items(a.group_items, correlated, s.derived_columns)->Some_0,
            pass_through_items(s)->Some_0,
        );
        built_nodes(flattened_aggregate(a, correlated, s)->Some_0, child, child);
}

/// A sort over a flattened input that holds no subquery holds none.
proof fn flattened_sort_is_plain(
    plan: SExprView,
    correlated: Set<usize>,
    st: RewriterView,
    counted: bool,
    need_cross_join: bool,
)
    requires
        flattened(plan, correlated, st, counted, need_cross_join) is Some,
        !plan_has_subquery(plan),
        outer_columns(plan) != Set::<usize>::empty(),
        plan.plan is Sort,
    ensures
        !plan_has_subquery(flattened(plan, correlated, st, counted, need_cross_join)->Some_0.0),
    decreases plan, 0nat,
{
        assert(!plan_has_subquery(plan.children[0]));
        flattened_is_plain(plan.children[0], correlated, st, counted, need_cross_join);
        let (child, s, n) = flattened(
            plan.children[0],
            correlated,
            st,
            counted,
            need_cross_join,
        )->Some_0;
        built_nodes(plan.plan, child, child);
}

/// A limit over a flattened input that holds no subquery holds none.
proof fn flattened_limit_is_plain(
    plan: SExprView,
    correlated: Set<usize>,
    st: RewriterView,
    counted: bool,
    need_cross_join: bool,
)
    requires
        flattened(plan, correlated, st, counted, need_cross_join) is Some,
        !plan_has_subquery(plan),
        outer_columns(plan) != Set::<usize>::empty(),
        plan.plan is Limit,
    ensures
        !plan_has_subquery(flattened(plan, correlated, st, counted, need_cross_join)->Some_0.0),
    decreases plan, 0nat,
{
        assert(!plan_has_subquery(plan.children[0]));
        flattened_is_plain(plan.children[0], correlated, st, counted, need_cross_join);
        let (child, s, n) = flattened(
            plan.children[0],
            correlated,
            st,
            counted,
            need_cross_join,
        )->Some_0;
        built_nodes(plan.plan, child, child);
}

/// A union over flattened inputs that hold no subquery holds none.
proof fn flattened_union_is_plain(
    plan: SExprView,
    correlated: Set<usize>,
    st: RewriterView,
    counted: bool,
    need_cross_join: bool,
)
    requires
        flattened(plan, correlated, st, counted, need_cross_join) is Some,
        !plan_has_subquery(plan),
        outer_columns(plan) != Set::<usize>::empty(),
        plan.plan is UnionAll,
    ensures
        !plan_has_subquery(flattened(plan, correlated, st, counted, need_cross_join)->Some_0.0),
    decreases plan, 0nat,
{
        let need = need_cross_join || touches(
            operator_used(plan.plan),
            correlated,
        );
        assert(!plan_has_subquery(plan.children[0]));
        assert(!plan_has_subquery(plan.children[1]));
        flattened_is_plain(plan.children[0], correlated, st, counted, need);
        let (left, s, n) = flattened(plan.children[0], correlated, st, counted, need)->Some_0;
        flattened_is_plain(plan.children[1], correlated, s, n, need);
        let (right, s2, n2) = flattened(plan.children[1], correlated, s, n, need)->Some_0;
        built_nodes(plan.plan, left, right);
}

/// Flattening a plan that holds no subquery gives a plan that holds none.
pub proof fn flattened_is_plain(
    plan: SExprView,
    correlated: Set<usize>,
    st: RewriterView,
    counted: bool,
    need_cross_join: bool,
)
    requires
        flattened(plan, correlated, st, counted, need_cross_join) is Some,
        !plan_has_subquery(plan),
    ensures
        !plan_has_subquery(flattened(plan, correlated, st, counted, need_cross_join)->Some_0.0),
    decreases plan, 1nat,
{
    if outer_columns(plan) == Set::<usize>::empty() {
        if need_cross_join {
            let table_index = owning_table(st.metadata, correlated)->Some_0;
            let s = derive_columns(ordered(correlated), st)->Some_0;
            let scan = RelOperatorView::Scan(derived_scan(table_index, s.derived_columns));
            built_nodes(scan, plan, plan);
            built_nodes(RelOperatorView::Join(cross_join()), leaf(scan), plan);
            assert(!any_subquery(Seq::<ScalarView>::empty()));
        }
    } else {
        match plan.plan {
            RelOperatorView::EvalScalar(_) => {
                flattened_projection_is_plain(plan, correlated, st, counted, need_cross_join);
            },
            RelOperatorView::Filter(_) => {
                flattened_filter_is_plain(plan, correlated, st, counted, need_cross_join);
            },
            RelOperatorView::Join(_) => {
                flattened_join_is_plain(plan, correlated, st, counted, need_cross_join);
            },
            RelOperatorView::Aggregate(_) => {
                flattened_aggregation_is_plain(plan, correlated, st, counted, need_cross_join);
            },
            RelOperatorView::Sort(_) => {
                flattened_sort_is_plain(plan, correlated, st, counted, need_cross_join);
            },
            RelOperatorView::Limit(_) => {
                flattened_limit_is_plain(plan, correlated, st, counted, need_cross_join);
            },
            RelOperatorView::UnionAll(_) => {
                flattened_union_is_plain(plan, correlated, st, counted, need_cross_join);
            },
            _ => {},
        }
    }
}

/// The keys that join a plan to a flattened subquery hold no subquery.
pub proof fn equi_conditions_are_plain(span: Option<Span>, correlated: Set<usize>, st: RewriterView)
    requires
        equi_conditions(span, correlated, st) is Some,
    ensures
        !any_subquery(equi_conditions(span, correlated, st)->Some_0.0),
        !any_subquery(equi_conditions(span, correlated, st)->Some_0.1),
{
    reveal_with_fuel(has_subquery, 3);
    let columns = ordered(correlated);
    let pair = equi_conditions(span, correlated, st)->Some_0;
    assert forall|i: int| 0 <= i < columns.len() implies !has_subquery(#[trigger] pair.0[i]) by {
        assert(key_pair(span, columns[i], st) is Some);
    }
    assert forall|i: int| 0 <= i < columns.len() implies !has_subquery(#[trigger] pair.1[i]) by {
        assert(key_pair(span, columns[i], st) is Some);
    }
}

/// Whether the subquery is ready to be decorrelated: neither its plan nor
/// the left side of its comparison holds a subquery.
pub open spec fn is_plain_subquery(q: SubqueryView) -> bool {
    &&& !plan_has_subquery(*q.subquery)
    &&& q.child_expr is Some ==> !has_subquery(*q.child_expr->Some_0)
}

/// Decorrelating a subquery that is ready, against a plan that holds no
/// subquery, gives a plan that holds none.
pub proof fn decorrelated_is_plain(
    left: SExprView,
    q: SubqueryView,
    st: RewriterView,
    counted: bool,
    is_conjunctive_predicate: bool,
)
    requires
        decorrelated(left, q, st, counted, is_conjunctive_predicate) is Some,
        !plan_has_subquery(left),
        is_plain_subquery(q),
    ensures
        !plan_has_subquery(decorrelated(left, q, st, counted, is_conjunctive_predicate)->Some_0.0),
{
    let simple = if (q.typ == SubqueryType::Exists || q.typ == SubqueryType::NotExists)
        && is_conjunctive_predicate {
        simply_decorrelated(left, q)
    } else {
        Some(None)
    };
    if simple->Some_0 is Some {
        simple_join_is_plain(left, q);
    } else {
        flattened_is_plain(*q.subquery, q.outer_columns, st, counted, false);
        let (plan, s, n) = flattened(*q.subquery, q.outer_columns, st, counted, false)->Some_0;
        equi_conditions_are_plain(q.span, q.outer_columns, s);
        let (derived_keys, outer_keys) = equi_conditions(q.span, q.outer_columns, s)->Some_0;
        assert(!any_subquery(Seq::<ScalarView>::empty()));
        match q.typ {
            SubqueryType::Scalar => {
                built_nodes(
                    correlated_join(
                        JoinType::Single,
                        outer_keys,
                        derived_keys,
                        Seq::empty(),
                        None,
                    ),
                    left,
                    plan,
                );
            },
            SubqueryType::Any => {
                let condition = quantified_condition(q)->Some_0;
                reveal_with_fuel(has_subquery, 4);
                assert(!has_subquery(condition));
                pushed_scalar(Seq::empty(), condition);
                assert(Seq::<ScalarView>::empty().push(condition) =~= seq![condition]);
                let (marker, s2) = marker_of(q, s);
                built_nodes(
                    correlated_join(
                        JoinType::RightMark,
                        outer_keys,
                        derived_keys,
                        seq![condition],
                        Some(marker),
                    ),
                    left,
                    plan,
                );
            },
            _ => {
                let (marker, s2) = marker_of(q, s);
                built_nodes(
                    correlated_join(
                        JoinType::RightMark,
                        outer_keys,
                        derived_keys,
                        Seq::empty(),
                        Some(marker),
                    ),
                    left,
                    plan,
                );
            },
        }
    }
}

/// The value of a counting subquery holds no subquery where the column it
/// reads holds none.
pub proof fn count_or_zero_is_plain(
    span: Option<Span>,
    column: ScalarView,
    data_type: DataType,
)
    requires
        !has_subquery(column),
    ensures
        !has_subquery(count_or_zero(span, column, data_type)),
{
    reveal_with_fuel(has_subquery, 3);
    let test = ScalarView::FunctionCall {
        span,
        func_name: "is_not_null"@,
        params: Seq::empty(),
        arguments: seq![column],
        return_type: DataType::Boolean,
    };
    assert forall|k: int| 0 <= k < seq![column].len() implies !has_subquery(seq![column][k]) by {
        assert(seq![column][k] == column);
    }
    assert(!any_subquery(seq![column]));
    assert(!has_subquery(test));
    let zero = ScalarView::ConstantExpr {
        span,
        value: LiteralView::UInt64(0),
        data_type: DataType::Number(NumberKind::UInt64),
    };
    let arguments = seq![test, column, zero];
    assert forall|k: int| 0 <= k < arguments.len() implies !has_subquery(arguments[k]) by {
        if k == 0 {
            assert(arguments[k] == test);
        } else if k == 1 {
            assert(arguments[k] == column);
        } else {
            assert(arguments[k] == zero);
        }
    }
    assert(!any_subquery(arguments));
}

/// The scalar that takes the place of a subquery holds no subquery.
pub proof fn subquery_value_is_plain(
    q: SubqueryView,
    result: UnnestResult,
    st: RewriterView,
    counted: bool,
)
    ensures
        !has_subquery(subquery_value(q, result, st, counted)),
{
    reveal_with_fuel(has_subquery, 3);
    match result {
        UnnestResult::SimpleJoin => {},
        _ => {
            let index = match result {
                UnnestResult::MarkJoin { marker_index } => marker_index,
                _ => if st.derived_columns.dom().contains(q.output_column.index) {
                    st.derived_columns[q.output_column.index]
                } else {
                    q.output_column.index
                },
            };
            let name = match result {
                UnnestResult::MarkJoin { marker_index } => decimal(marker_index as nat),
                _ => "scalar_subquery_"@ + decimal(index as nat),
            };
            let data_type = if q.typ == SubqueryType::Scalar {
                wrapped_nullable(q.data_type)
            } else if result is MarkJoin {
                DataType::Nullable(Box::new(DataType::Boolean))
            } else {
                q.data_type
            };
            let column = column_ref(q.span, name, index, data_type, Visibility::Visible);
            count_or_zero_is_plain(q.span, column, data_type);
        },
    }
}

/// A rewritten scalar holds no subquery, and the plan it is evaluated
/// over holds none where the plan it started from held none.
pub proof fn rewritten_scalar_is_plain(
    e: ScalarView,
    input: SExprView,
    st: RewriterView,
    is_conjunctive_predicate: bool,
)
    requires
        rewritten_scalar(e, input, st, is_conjunctive_predicate) is Some,
        !plan_has_subquery(input),
    ensures
        !has_subquery(rewritten_scalar(e, input, st, is_conjunctive_predicate)->Some_0.0),
        !plan_has_subquery(rewritten_scalar(e, input, st, is_conjunctive_predicate)->Some_0.1),
    decreases e, 0nat,
{
    if has_subquery(e) {
        match e {
            ScalarView::AndExpr { left, right } => {
                rewritten_scalar_is_plain(*left, input, st, false);
                let (l, i1, s1) = rewritten_scalar(*left, input, st, false)->Some_0;
                rewritten_scalar_is_plain(*right, i1, s1, false);
            },
            ScalarView::OrExpr { left, right } => {
                rewritten_scalar_is_plain(*left, input, st, false);
                let (l, i1, s1) = rewritten_scalar(*left, input, st, false)->Some_0;
                rewritten_scalar_is_plain(*right, i1, s1, false);
            },
            ScalarView::ComparisonExpr { left, right, .. } => {
                rewritten_scalar_is_plain(*left, input, st, false);
                let (l, i1, s1) = rewritten_scalar(*left, input, st, false)->Some_0;
                rewritten_scalar_is_plain(*right, i1, s1, false);
            },
            ScalarView::NotExpr { argument } => {
                rewritten_scalar_is_plain(*argument, input, st, false);
            },
            ScalarView::CastExpr { argument, .. } => {
                rewritten_scalar_is_plain(*argument, input, st, false);
            },
            ScalarView::FunctionCall { arguments, .. } => {
                rewritten_list_is_plain(arguments, arguments.len(), input, st, false);
            },
            ScalarView::SubqueryExpr(q) => {
                rewritten_subquery_is_plain(q, input, st, is_conjunctive_predicate);
            },
            _ => {},
        }
    }
}

/// Rewritten scalars hold no subquery, and the plan they are evaluated
/// over holds none where the plan they started from held none.
pub proof fn rewritten_list_is_plain(
    list: Seq<ScalarView>,
    n: nat,
    input: SExprView,
    st: RewriterView,
    is_conjunctive_predicate: bool,
)
    requires
        rewritten_list(list, n, input, st, is_conjunctive_predicate) is Some,
        !plan_has_subquery(input),
    ensures
        !any_subquery(rewritten_list(list, n, input, st, is_conjunctive_predicate)->Some_0.0),
        !plan_has_subquery(rewritten_list(list, n, input, st, is_conjunctive_predicate)->Some_0.1),
    decreases list, n,
{
    if n > 0 {
        rewritten_list_is_plain(list, (n - 1) as nat, input, st, is_conjunctive_predicate);
        let (done, i1, s1) = rewritten_list(
            list,
            (n - 1) as nat,
            input,
            st,
            is_conjunctive_predicate,
        )->Some_0;
        rewritten_scalar_is_plain(list[n - 1], i1, s1, is_conjunctive_predicate);
        let (e, i2, s2) = rewritten_scalar(list[n - 1], i1, s1, is_conjunctive_predicate)->Some_0;
        pushed_scalar(done, e);
    }
}

/// A rewritten subquery has given way to a scalar that holds no subquery,
/// over a plan that holds none where the plan it started from held none.
pub proof fn rewritten_subquery_is_plain(
    q: SubqueryView,
    input: SExprView,
    st: RewriterView,
    is_conjunctive_predicate: bool,
)
    requires
        rewritten_subquery(q, input, st, is_conjunctive_predicate) is Some,
        !plan_has_subquery(input),
    ensures
        !has_subquery(rewritten_subquery(q, input, st, is_conjunctive_predicate)->Some_0.0),
        !plan_has_subquery(rewritten_subquery(q, input, st, is_conjunctive_predicate)->Some_0.1),
    decreases q, 0nat,
{
    rewritten_is_plain(*q.subquery, st);
    let (inner, s1) = rewritten(*q.subquery, st)->Some_0;
    let q2 = SubqueryView { subquery: Box::new(inner), ..q };
    decorrelated_is_plain(input, q2, s1, false, is_conjunctive_predicate);
    let (plan, result, s2, counted) = decorrelated(
        input,
        q2,
        s1,
        false,
        is_conjunctive_predicate,
    )->Some_0;
    subquery_value_is_plain(q2, result, s2, counted);
}

/// A list of items with one more item holds a subquery where the list
/// did or the scalar of the item does.
pub proof fn pushed_item(items: Seq<ScalarItemView>, item: ScalarItemView)
    ensures
        any_subquery_in_items(items.push(item)) == (any_subquery_in_items(items) || has_subquery(
            item.scalar,
        )),
{
    joined_items(items, seq![item]);
    assert(items + seq![item] =~= items.push(item));
    if any_subquery_in_items(seq![item]) {
        let i = choose|i: int| 0 <= i < seq![item].len() && has_subquery(seq![item][i].scalar);
        assert(seq![item][i] == item);
    }
    if has_subquery(item.scalar) {
        assert(seq![item][0] == item);
    }
}

/// Rewritten items hold no subquery, and the plan they are evaluated over
/// holds none where the plan they started from held none.
pub proof fn rewritten_items_are_plain(
    items: Seq<ScalarItemView>,
    n: nat,
    input: SExprView,
    st: RewriterView,
    is_conjunctive_predicate: bool,
)
    requires
        rewritten_items(items, n, input, st, is_conjunctive_predicate) is Some,
        !plan_has_subquery(input),
    ensures
        !any_subquery_in_items(
            rewritten_items(items, n, input, st, is_conjunctive_predicate)->Some_0.0,
        ),
        !plan_has_subquery(rewritten_items(items, n, input, st, is_conjunctive_predicate)->Some_0.1),
    decreases items, n,
{
    if n > 0 {
        rewritten_items_are_plain(items, (n - 1) as nat, input, st, is_conjunctive_predicate);
        let (done, i1, s1) = rewritten_items(
            items,
            (n - 1) as nat,
            input,
            st,
            is_conjunctive_predicate,
        )->Some_0;
        rewritten_scalar_is_plain(items[n - 1].scalar, i1, s1, is_conjunctive_predicate);
        let (e, i2, s2) = rewritten_scalar(
            items[n - 1].scalar,
            i1,
            s1,
            is_conjunctive_predicate,
        )->Some_0;
        pushed_item(done, ScalarItemView { scalar: e, index: items[n - 1].index });
    }
}

/// Rewritten plans hold no subquery.
pub proof fn rewritten_plans_are_plain(plans: Seq<SExprView>, n: nat, st: RewriterView)
    requires
        rewritten_plans(plans, n, st) is Some,
    ensures
        rewritten_plans(plans, n, st)->Some_0.0.len() == n,
        forall|i: int|
            0 <= i < n ==> !plan_has_subquery(#[trigger] rewritten_plans(plans, n, st)->Some_0.0[i]),
    decreases plans, n,
{
    if n > 0 {
        rewritten_plans_are_plain(plans, (n - 1) as nat, st);
        let (done, s1) = rewritten_plans(plans, (n - 1) as nat, st)->Some_0;
        rewritten_is_plain(plans[n - 1], s1);
        let (t, s2) = rewritten(plans[n - 1], s1)->Some_0;
        let all = done.push(t);
        assert forall|i: int| 0 <= i < n implies !plan_has_subquery(#[trigger] all[i]) by {
            if i < n - 1 {
                assert(all[i] == done[i]);
            }
        }
    }
}

/// The rewrite leaves no subquery behind: a rewritten plan holds none.
pub proof fn rewritten_is_plain(t: SExprView, st: RewriterView)
    requires
        rewritten(t, st) is Some,
    ensures
        !plan_has_subquery(rewritten(t, st)->Some_0.0),
    decreases t, 0nat,
{
    rewritten_plans_are_plain(t.children, t.children.len(), st);
    let (children, s1) = rewritten_plans(t.children, t.children.len(), st)->Some_0;
    let done = rewritten(t, st)->Some_0.0;
    match t.plan {
        RelOperatorView::EvalScalar(p) => {
            rewritten_items_are_plain(p.items, p.items.len(), children[0], s1, false);
            assert(done.children[0] == rewritten_items(
                p.items,
                p.items.len(),
                children[0],
                s1,
                false,
            )->Some_0.1);
        },
        RelOperatorView::Filter(p) => {
            rewritten_list_is_plain(p.predicates, p.predicates.len(), children[0], s1, true);
            assert(done.children[0] == rewritten_list(
                p.predicates,
                p.predicates.len(),
                children[0],
                s1,
                true,
            )->Some_0.1);
        },
        RelOperatorView::Aggregate(p) => {
            rewritten_items_are_plain(p.group_items, p.group_items.len(), children[0], s1, false);
            let (groups, i1, s2) = rewritten_items(
                p.group_items,
                p.group_items.len(),
                children[0],
                s1,
                false,
            )->Some_0;
            rewritten_items_are_plain(
                p.aggregate_functions,
                p.aggregate_functions.len(),
                i1,
                s2,
                false,
            );
            assert(done.children[0] == rewritten_items(
                p.aggregate_functions,
                p.aggregate_functions.len(),
                i1,
                s2,
                false,
            )->Some_0.1);
        },
        _ => {},
    }
}

} // verus!
