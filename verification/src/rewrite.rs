//! The subquery rewrite: the pass that walks a plan and replaces every
//! subquery in it by a join.
//!
//! The pass rewrites the inputs of a node first. In a projection, a filter
//! or an aggregation it then rewrites the scalars one after another: each
//! subquery is decorrelated against the input as it stands, which puts a
//! join on top of the input, and the subquery gives way to a reference to
//! the column that the join delivers. A scalar without a subquery, and a
//! plan without one, comes back as it went in.

use crate::copy::{clone_index_lists, clone_indexes, clone_scalar, missing_input_message};
use crate::decorrelate::{UnnestResult, decorrelate_failure, decorrelate_failure_matches, decorrelated};
use crate::elimination::{rewritten_is_plain};
use crate::error::{ErrorCode, INTERNAL, Span};
use crate::flatten::{FlattenInfo, RewriterView, SubqueryRewriter};
use crate::ir::{Aggregate, AggregateView, EvalScalar, EvalScalarView, Exchange, ExchangeView, Filter, FilterView, Literal, LiteralView, RelOperator, RelOperatorView, SExpr, SExprView, ScalarExpr, ScalarItem, ScalarItemView, ScalarView, SubqueryExpr, SubqueryType, SubqueryView, Visibility, items_view, operator_view, scalar_view, scalars_view, sexpr_view_parts, sexprs_view, subquery_view};
use crate::metadata::{Metadata, MetadataView};
use crate::prune::{well_formed};
use crate::scalar::{any_subquery, any_subquery_in_items, column_ref, contain_subquery, has_subquery, items_contain_subquery, list_contain_subquery, make_column_ref};
use crate::text::{decimal, push_decimal, usize_to_string};
use crate::types::{DataType, NumberKind, wrapped_nullable};
use vstd::prelude::*;
use vstd::string::*;

verus! {

/// Whether a subquery occurs in the scalars of the operator.
pub open spec fn operator_has_subquery(op: RelOperatorView) -> bool {
    match op {
        RelOperatorView::Scan(s) => (match s.push_down_predicates {
            Some(p) => any_subquery(p),
            None => false,
        }) || (match s.prewhere {
            Some(p) => any_subquery(p.predicates),
            None => false,
        }),
        RelOperatorView::Join(j) => any_subquery(j.left_conditions) || any_subquery(
            j.right_conditions,
        ) || any_subquery(j.non_equi_conditions),
        RelOperatorView::EvalScalar(e) => any_subquery_in_items(e.items),
        RelOperatorView::Filter(f) => any_subquery(f.predicates),
        RelOperatorView::Aggregate(a) => any_subquery_in_items(a.group_items)
            || any_subquery_in_items(a.aggregate_functions),
        RelOperatorView::Exchange(x) => match x {
            ExchangeView::Hash(keys) => any_subquery(keys),
            _ => false,
        },
        RelOperatorView::RuntimeFilterSource(r) => any_subquery(r.left_runtime_filter)
            || any_subquery(r.right_runtime_filter),
        RelOperatorView::Window(w) => any_subquery(w.function.agg_func.args) || any_subquery(
            w.function.partition_by,
        ),
        _ => false,
    }
}

/// Whether a subquery occurs in the scalars of any operator of the plan.
pub open spec fn plan_has_subquery(t: SExprView) -> bool
    decreases t,
{
    operator_has_subquery(t.plan) || exists|i: int|
        0 <= i < t.children.len() && plan_has_subquery(#[trigger] t.children[i])
}

/// The constant `true`.
pub open spec fn true_constant(span: Option<Span>) -> ScalarView {
    ScalarView::ConstantExpr {
        span,
        value: LiteralView::Boolean(true),
        data_type: DataType::Boolean,
    }
}

/// `if(is_not_null(column), column, 0)`: the value of a counting
/// subquery, which is zero where the join found no row.
pub open spec fn count_or_zero(span: Option<Span>, column: ScalarView, data_type: DataType) -> ScalarView {
    ScalarView::FunctionCall {
        span,
        func_name: "if"@,
        params: Seq::empty(),
        arguments: seq![
            ScalarView::FunctionCall {
                span,
                func_name: "is_not_null"@,
                params: Seq::empty(),
                arguments: seq![column],
                return_type: DataType::Boolean,
            },
            column,
            ScalarView::ConstantExpr {
                span,
                value: LiteralView::UInt64(0),
                data_type: DataType::Number(NumberKind::UInt64),
            },
        ],
        return_type: data_type,
    }
}

/// The scalar that takes the place of a decorrelated subquery.
///
/// After a simple join the subquery is true on every row that is left.
/// After a mark join its value is the marker column, a nullable boolean;
/// after a single join it is the subquery's output column, or the derived
/// column that stands for it, made nullable. A `NOT EXISTS` negates the
/// column. Where the subquery counts, an absent value reads as zero.
pub open spec fn subquery_value(
    q: SubqueryView,
    result: UnnestResult,
    st: RewriterView,
    counted: bool,
) -> ScalarView {
    match result {
        UnnestResult::SimpleJoin => true_constant(q.span),
        _ => {
            let index = match result {
                UnnestResult::MarkJoin { marker_index } => marker_index,
                _ => if st.derived_columns.dom().contains(q.output_column.index) {
                    st.derived_columns[q.output_column.index]
                } else {
                    q.output_column.index
                },
            };
            let name = match result {
                UnnestResult::MarkJoin { marker_index } => decimal(marker_index as nat),
                _ => "scalar_subquery_"@ + decimal(index as nat),
            };
            let data_type = if q.typ == SubqueryType::Scalar {
                wrapped_nullable(q.data_type)
            } else if result is MarkJoin {
                DataType::Nullable(Box::new(DataType::Boolean))
            } else {
                q.data_type
            };
            let column = column_ref(q.span, name, index, data_type, Visibility::Visible);
            if counted {
                count_or_zero(q.span, column, data_type)
            } else if q.typ == SubqueryType::NotExists {
                ScalarView::NotExpr { argument: Box::new(column) }
            } else {
                column
            }
        },
    }
}

/// The scalar without its subqueries, the plan that the scalar is now
/// evaluated over, and the state after the rewrite; `None` where the
/// rewrite fails.
///
/// A scalar without a subquery stays, and so do the plan and the state.
/// Otherwise the parts of the scalar are rewritten from left to right, each
/// over the plan that the one before it left. The rewrite fails on a
/// subquery inside an aggregate function, a window function or an unnest,
/// and wherever a subquery cannot be decorrelated.
pub open spec fn rewritten_scalar(
    e: ScalarView,
    input: SExprView,
    st: RewriterView,
    is_conjunctive_predicate: bool,
) -> Option<(ScalarView, SExprView, RewriterView)>
    decreases e, 0nat,
{
    if !has_subquery(e) {
        Some((e, input, st))
    } else {
        match e {
            ScalarView::AndExpr { left, right } => match rewritten_scalar(*left, input, st, false) {
                None => None,
                Some((l, i1, s1)) => match rewritten_scalar(*right, i1, s1, false) {
                    None => None,
                    Some((r, i2, s2)) => Some(
                        (ScalarView::AndExpr { left: Box::new(l), right: Box::new(r) }, i2, s2),
                    ),
                },
            },
            ScalarView::OrExpr { left, right } => match rewritten_scalar(*left, input, st, false) {
                None => None,
                Some((l, i1, s1)) => match rewritten_scalar(*right, i1, s1, false) {
                    None => None,
                    Some((r, i2, s2)) => Some(
                        (ScalarView::OrExpr { left: Box::new(l), right: Box::new(r) }, i2, s2),
                    ),
                },
            },
            ScalarView::ComparisonExpr { op, left, right } => match rewritten_scalar(
                *left,
                input,
                st,
                false,
            ) {
                None => None,
                Some((l, i1, s1)) => match rewritten_scalar(*right, i1, s1, false) {
                    None => None,
                    Some((r, i2, s2)) => Some(
                        (
                            ScalarView::ComparisonExpr {
                                op,
                                left: Box::new(l),
                                right: Box::new(r),
                            },
                            i2,
                            s2,
                        ),
                    ),
                },
            },
            ScalarView::NotExpr { argument } => match rewritten_scalar(*argument, input, st, false) {
                None => None,
                Some((a, i1, s1)) => Some((ScalarView::NotExpr { argument: Box::new(a) }, i1, s1)),
            },
            ScalarView::CastExpr { span, is_try, argument, target_type } => match rewritten_scalar(
                *argument,
                input,
                st,
                false,
            ) {
                None => None,
                Some((a, i1, s1)) => Some(
                    (
                        ScalarView::CastExpr { span, is_try, argument: Box::new(a), target_type },
                        i1,
                        s1,
                    ),
                ),
            },
            ScalarView::FunctionCall {
                span,
                func_name,
                params,
                arguments,
                return_type,
            } => match rewritten_list(arguments, arguments.len(), input, st, false) {
                None => None,
                Some((args, i1, s1)) => Some(
                    (
                        ScalarView::FunctionCall {
                            span,
                            func_name,
                            params,
                            arguments: args,
                            return_type,
                        },
                        i1,
                        s1,
                    ),
                ),
            },
            ScalarView::SubqueryExpr(q) => rewritten_subquery(
                q,
                input,
                st,
                is_conjunctive_predicate,
            ),
            _ => None,
        }
    }
}

/// The first `n` scalars of `list` rewritten one after another.
pub open spec fn rewritten_list(
    list: Seq<ScalarView>,
    n: nat,
    input: SExprView,
    st: RewriterView,
    is_conjunctive_predicate: bool,
) -> Option<(Seq<ScalarView>, SExprView, RewriterView)>
    decreases list, n,
{
    if n == 0 {
        Some((Seq::empty(), input, st))
    } else if n > list.len() {
        None
    } else {
        match rewritten_list(list, (n - 1) as nat, input, st, is_conjunctive_predicate) {
            None => None,
            Some((done, i1, s1)) => match rewritten_scalar(
                list[n - 1],
                i1,
                s1,
                is_conjunctive_predicate,
            ) {
                None => None,
                Some((e, i2, s2)) => Some((done.push(e), i2, s2)),
            },
        }
    }
}

/// A subquery rewritten: its own plan is rewritten first, then it is
/// decorrelated against the plan it is evaluated over. The left side of a
/// quantified comparison must not hold a subquery itself.
pub open spec fn rewritten_subquery(
    q: SubqueryView,
    input: SExprView,
    st: RewriterView,
    is_conjunctive_predicate: bool,
) -> Option<(ScalarView, SExprView, RewriterView)>
    decreases q, 0nat,
{
    if q.child_expr is Some && has_subquery(*q.child_expr->Some_0) {
        None
    } else {
        match rewritten(*q.subquery, st) {
            None => None,
            Some((inner, s1)) => {
                let q2 = SubqueryView { subquery: Box::new(inner), ..q };
                match decorrelated(input, q2, s1, false, is_conjunctive_predicate) {
                    None => None,
                    Some((plan, result, s2, counted)) => Some(
                        (subquery_value(q2, result, s2, counted), plan, s2),
                    ),
                }
            },
        }
    }
}

/// The scalars of the first `n` items rewritten one after another.
pub open spec fn rewritten_items(
    items: Seq<ScalarItemView>,
    n: nat,
    input: SExprView,
    st: RewriterView,
    is_conjunctive_predicate: bool,
) -> Option<(Seq<ScalarItemView>, SExprView, RewriterView)>
    decreases items, n,
{
    if n == 0 {
        Some((Seq::empty(), input, st))
    } else if n > items.len() {
        None
    } else {
        match rewritten_items(items, (n - 1) as nat, input, st, is_conjunctive_predicate) {
            None => None,
            Some((done, i1, s1)) => match rewritten_scalar(
                items[n - 1].scalar,
                i1,
                s1,
                is_conjunctive_predicate,
            ) {
                None => None,
                Some((e, i2, s2)) => Some(
                    (done.push(ScalarItemView { scalar: e, index: items[n - 1].index }), i2, s2),
                ),
            },
        }
    }
}

/// The first `n` plans rewritten one after another.
pub open spec fn rewritten_plans(plans: Seq<SExprView>, n: nat, st: RewriterView) -> Option<
    (Seq<SExprView>, RewriterView),
>
    decreases plans, n,
{
    if n == 0 {
        Some((Seq::empty(), st))
    } else if n > plans.len() {
        None
    } else {
        match rewritten_plans(plans, (n - 1) as nat, st) {
            None => None,
            Some((done, s1)) => match rewritten(plans[n - 1], s1) {
                None => None,
                Some((t, s2)) => Some((done.push(t), s2)),
            },
        }
    }
}

/// The plan without its subqueries, and the state after the rewrite;
/// `None` where the rewrite fails.
///
/// The inputs are rewritten first, from left to right. A projection, a
/// filter and an aggregation then have their scalars rewritten over their
/// one input; they fail if they do not have exactly one. Any other operator
/// stays as it is, and fails if it holds a subquery.
pub open spec fn rewritten(t: SExprView, st: RewriterView) -> Option<(SExprView, RewriterView)>
    decreases t, 0nat,
{
    match rewritten_plans(t.children, t.children.len(), st) {
        None => None,
        Some((children, s1)) => match t.plan {
            RelOperatorView::EvalScalar(p) => if children.len() != 1 {
                None
            } else {
                match rewritten_items(p.items, p.items.len(), children[0], s1, false) {
                    None => None,
                    Some((items, input, s2)) => Some(
                        (
                            SExprView {
                                plan: RelOperatorView::EvalScalar(EvalScalarView { items }),
                                children: seq![input],
                                applied_rules: t.applied_rules,
                            },
                            s2,
                        ),
                    ),
                }
            },
            RelOperatorView::Filter(p) => if children.len() != 1 {
                None
            } else {
                match rewritten_list(p.predicates, p.predicates.len(), children[0], s1, true) {
                    None => None,
                    Some((predicates, input, s2)) => Some(
                        (
                            SExprView {
                                plan: RelOperatorView::Filter(FilterView { predicates, ..p }),
                                children: seq![input],
                                applied_rules: t.applied_rules,
                            },
                            s2,
                        ),
                    ),
                }
            },
            RelOperatorView::Aggregate(p) => if children.len() != 1 {
                None
            } else {
                match rewritten_items(p.group_items, p.group_items.len(), children[0], s1, false) {
                    None => None,
                    Some((groups, i1, s2)) => match rewritten_items(
                        p.aggregate_functions,
                        p.aggregate_functions.len(),
                        i1,
                        s2,
                        false,
                    ) {
                        None => None,
                        Some((functions, input, s3)) => Some(
                            (
                                SExprView {
                                    plan: RelOperatorView::Aggregate(
                                        AggregateView {
                                            group_items: groups,
                                            aggregate_functions: functions,
                                            ..p
                                        },
                                    ),
                                    children: seq![input],
                                    applied_rules: t.applied_rules,
                                },
                                s3,
                            ),
                        ),
                    },
                }
            },
            _ => if operator_has_subquery(t.plan) {
                None
            } else {
                Some(
                    (SExprView { plan: t.plan, children, applied_rules: t.applied_rules }, s1),
                )
            },
        },
    }
}

/// The message of the error for a subquery on the left side of a
/// quantified comparison.
pub open spec fn left_side_message() -> Seq<char> {
    "Subquery on the left side of a quantified comparison"@
}

/// The message of the error for a subquery inside an aggregate function, a
/// window function or an unnest.
pub open spec fn misplaced_subquery_message() -> Seq<char> {
    "Subquery in an aggregate, a window function or an unnest"@
}

/// The message of the error for a subquery in an operator whose scalars
/// the rewrite does not go through.
pub open spec fn operator_subquery_message() -> Seq<char> {
    "Subquery in an operator that cannot hold one"@
}

/// The message of the error with which the rewrite of a scalar fails,
/// `None` where it does not fail: that of the first failure, the parts of
/// the scalar taken from left to right.
pub open spec fn rewrite_scalar_failure(
    e: ScalarView,
    input: SExprView,
    st: RewriterView,
    is_conjunctive_predicate: bool,
) -> Option<Seq<char>>
    decreases e, 0nat,
{
    if !has_subquery(e) {
        None
    } else {
        match e {
            ScalarView::AndExpr { left, right } => match rewrite_scalar_failure(*left, input, st, false) {
                Some(m) => Some(m),
                None => rewrite_scalar_failure(
                    *right,
                    rewritten_scalar(*left, input, st, false)->Some_0.1,
                    rewritten_scalar(*left, input, st, false)->Some_0.2,
                    false,
                ),
            },
            ScalarView::OrExpr { left, right } => match rewrite_scalar_failure(*left, input, st, false) {
                Some(m) => Some(m),
                None => rewrite_scalar_failure(
                    *right,
                    rewritten_scalar(*left, input, st, false)->Some_0.1,
                    rewritten_scalar(*left, input, st, false)->Some_0.2,
                    false,
                ),
            },
            ScalarView::ComparisonExpr { left, right, .. } => match rewrite_scalar_failure(*left, input, st, false) {
                Some(m) => Some(m),
                None => rewrite_scalar_failure(
                    *right,
                    rewritten_scalar(*left, input, st, false)->Some_0.1,
                    rewritten_scalar(*left, input, st, false)->Some_0.2,
                    false,
                ),
            },
            ScalarView::NotExpr { argument } => rewrite_scalar_failure(*argument, input, st, false),
            ScalarView::CastExpr { argument, .. } => rewrite_scalar_failure(
                *argument,
                input,
                st,
                false,
            ),
            ScalarView::FunctionCall { arguments, .. } => rewrite_list_failure(
                arguments,
                arguments.len(),
                input,
                st,
                false,
            ),
            ScalarView::SubqueryExpr(q) => rewrite_subquery_failure(
                q,
                input,
                st,
                is_conjunctive_predicate,
            ),
            _ => Some(misplaced_subquery_message()),
        }
    }
}

/// The first failure of the rewrite of the first `n` scalars of `list`.
pub open spec fn rewrite_list_failure(
    list: Seq<ScalarView>,
    n: nat,
    input: SExprView,
    st: RewriterView,
    is_conjunctive_predicate: bool,
) -> Option<Seq<char>>
    decreases list, n,
{
    if n == 0 || n > list.len() {
        None
    } else {
        match rewrite_list_failure(list, (n - 1) as nat, input, st, is_conjunctive_predicate) {
            Some(m) => Some(m),
            None => {
                let done = rewritten_list(
                    list,
                    (n - 1) as nat,
                    input,
                    st,
                    is_conjunctive_predicate,
                )->Some_0;
                rewrite_scalar_failure(list[n - 1], done.1, done.2, is_conjunctive_predicate)
            },
        }
    }
}

/// The first failure of the rewrite of a subquery: a subquery on the left
/// side of its comparison, a failure in the rewrite of its own plan, or a
/// failure of its decorrelation.
pub open spec fn rewrite_subquery_failure(
    q: SubqueryView,
    input: SExprView,
    st: RewriterView,
    is_conjunctive_predicate: bool,
) -> Option<Seq<char>>
    decreases q, 0nat,
{
    if q.child_expr is Some && has_subquery(*q.child_expr->Some_0) {
        Some(left_side_message())
    } else {
        match rewrite_failure(*q.subquery, st) {
            Some(m) => Some(m),
            None => {
                let done = rewritten(*q.subquery, st)->Some_0;
                let q2 = SubqueryView { subquery: Box::new(done.0), ..q };
                decorrelate_failure(input, q2, done.1, false, is_conjunctive_predicate)
            },
        }
    }
}

/// The first failure of the rewrite of the scalars of the first `n`
/// items.
pub open spec fn rewrite_items_failure(
    items: Seq<ScalarItemView>,
    n: nat,
    input: SExprView,
    st: RewriterView,
    is_conjunctive_predicate: bool,
) -> Option<Seq<char>>
    decreases items, n,
{
    if n == 0 || n > items.len() {
        None
    } else {
        match rewrite_items_failure(items, (n - 1) as nat, input, st, is_conjunctive_predicate) {
            Some(m) => Some(m),
            None => {
                let done = rewritten_items(
                    items,
                    (n - 1) as nat,
                    input,
                    st,
                    is_conjunctive_predicate,
                )->Some_0;
                rewrite_scalar_failure(
                    items[n - 1].scalar,
                    done.1,
                    done.2,
                    is_conjunctive_predicate,
                )
            },
        }
    }
}

/// The first failure of the rewrite of the first `n` plans.
pub open spec fn rewrite_plans_failure(plans: Seq<SExprView>, n: nat, st: RewriterView) -> Option<
    Seq<char>,
>
    decreases plans, n,
{
    if n == 0 || n > plans.len() {
        None
    } else {
        match rewrite_plans_failure(plans, (n - 1) as nat, st) {
            Some(m) => Some(m),
            None => {
                let done = rewritten_plans(plans, (n - 1) as nat, st)->Some_0;
                rewrite_failure(plans[n - 1], done.1)
            },
        }
    }
}

/// The message of the error with which the rewrite of a plan fails,
/// `None` where it does not fail: that of the first failure. The inputs come
/// first; then a projection, a filter or an aggregation must have exactly
/// one input, and its scalars are rewritten; any other operator must hold no
/// subquery.
pub open spec fn rewrite_failure(t: SExprView, st: RewriterView) -> Option<Seq<char>>
    decreases t, 0nat,
{
    match rewrite_plans_failure(t.children, t.children.len(), st) {
        Some(m) => Some(m),
        None => {
            let done = rewritten_plans(t.children, t.children.len(), st)->Some_0;
            match t.plan {
                RelOperatorView::EvalScalar(p) => if done.0.len() != 1 {
                    Some(missing_input_message())
                } else {
                    rewrite_items_failure(p.items, p.items.len(), done.0[0], done.1, false)
                },
                RelOperatorView::Filter(p) => if done.0.len() != 1 {
                    Some(missing_input_message())
                } else {
                    rewrite_list_failure(
                        p.predicates,
                        p.predicates.len(),
                        done.0[0],
                        done.1,
                        true,
                    )
                },
                RelOperatorView::Aggregate(p) => if done.0.len() != 1 {
                    Some(missing_input_message())
                } else {
                    match rewrite_items_failure(
                        p.group_items,
                        p.group_items.len(),
                        done.0[0],
                        done.1,
                        false,
                    ) {
                        Some(m) => Some(m),
                        None => {
                            let groups = rewritten_items(
                                p.group_items,
                                p.group_items.len(),
                                done.0[0],
                                done.1,
                                false,
                            )->Some_0;
                            rewrite_items_failure(
                                p.aggregate_functions,
                                p.aggregate_functions.len(),
                                groups.1,
                                groups.2,
                                false,
                            )
                        },
                    }
                },
                _ => if operator_has_subquery(t.plan) {
                    Some(operator_subquery_message())
                } else {
                    None
                },
            }
        },
    }
}

/// The rewrite of a scalar fails exactly where it meets a failure.
pub proof fn rewrite_scalar_failure_matches(
    e: ScalarView,
    input: SExprView,
    st: RewriterView,
    is_conjunctive_predicate: bool,
)
    ensures
        rewrite_scalar_failure(e, input, st, is_conjunctive_predicate) is Some
            <==> rewritten_scalar(e, input, st, is_conjunctive_predicate) is None,
    decreases e, 0nat,
{
    if has_subquery(e) {
        match e {
            ScalarView::AndExpr { left, right } => {
                rewrite_scalar_failure_matches(*left, input, st, false);
                if rewritten_scalar(*left, input, st, false) is Some {
                    let done = rewritten_scalar(*left, input, st, false)->Some_0;
                    rewrite_scalar_failure_matches(*right, done.1, done.2, false);
                }
            },
            ScalarView::OrExpr { left, right } => {
                rewrite_scalar_failure_matches(*left, input, st, false);
                if rewritten_scalar(*left, input, st, false) is Some {
                    let done = rewritten_scalar(*left, input, st, false)->Some_0;
                    rewrite_scalar_failure_matches(*right, done.1, done.2, false);
                }
            },
            ScalarView::ComparisonExpr { left, right, .. } => {
                rewrite_scalar_failure_matches(*left, input, st, false);
                if rewritten_scalar(*left, input, st, false) is Some {
                    let done = rewritten_scalar(*left, input, st, false)->Some_0;
                    rewrite_scalar_failure_matches(*right, done.1, done.2, false);
                }
            },
            ScalarView::NotExpr { argument } => {
                rewrite_scalar_failure_matches(*argument, input, st, false);
            },
            ScalarView::CastExpr { argument, .. } => {
                rewrite_scalar_failure_matches(*argument, input, st, false);
            },
            ScalarView::FunctionCall { arguments, .. } => {
                rewrite_list_failure_matches(arguments, arguments.len(), input, st, false);
            },
            ScalarView::SubqueryExpr(q) => {
                rewrite_subquery_failure_matches(q, input, st, is_conjunctive_predicate);
            },
            _ => {},
        }
    }
}

/// The rewrite of scalars fails exactly where it meets a failure.
pub proof fn rewrite_list_failure_matches(
    list: Seq<ScalarView>,
    n: nat,
    input: SExprView,
    st: RewriterView,
    is_conjunctive_predicate: bool,
)
    requires
        n <= list.len(),
    ensures
        rewrite_list_failure(list, n, input, st, is_conjunctive_predicate) is Some
            <==> rewritten_list(list, n, input, st, is_conjunctive_predicate) is None,
    decreases list, n,
{
    if n > 0 {
        rewrite_list_failure_matches(list, (n - 1) as nat, input, st, is_conjunctive_predicate);
        if rewritten_list(list, (n - 1) as nat, input, st, is_conjunctive_predicate) is Some {
            let done = rewritten_list(
                list,
                (n - 1) as nat,
                input,
                st,
                is_conjunctive_predicate,
            )->Some_0;
            rewrite_scalar_failure_matches(list[n - 1], done.1, done.2, is_conjunctive_predicate);
        }
    }
}

/// The rewrite of a subquery fails exactly where it meets a failure.
pub proof fn rewrite_subquery_failure_matches(
    q: SubqueryView,
    input: SExprView,
    st: RewriterView,
    is_conjunctive_predicate: bool,
)
    ensures
        rewrite_subquery_failure(q, input, st, is_conjunctive_predicate) is Some
            <==> rewritten_subquery(q, input, st, is_conjunctive_predicate) is None,
    decreases q, 0nat,
{
    rewrite_failure_matches(*q.subquery, st);
    if rewritten(*q.subquery, st) is Some {
        let done = rewritten(*q.subquery, st)->Some_0;
        let q2 = SubqueryView { subquery: Box::new(done.0), ..q };
        decorrelate_failure_matches(input, q2, done.1, false, is_conjunctive_predicate);
    }
}

/// The rewrite of items fails exactly where it meets a failure.
pub proof fn rewrite_items_failure_matches(
    items: Seq<ScalarItemView>,
    n: nat,
    input: SExprView,
    st: RewriterView,
    is_conjunctive_predicate: bool,
)
    requires
        n <= items.len(),
    ensures
        rewrite_items_failure(items, n, input, st, is_conjunctive_predicate) is Some
            <==> rewritten_items(items, n, input, st, is_conjunctive_predicate) is None,
    decreases items, n,
{
    if n > 0 {
        rewrite_items_failure_matches(items, (n - 1) as nat, input, st, is_conjunctive_predicate);
        if rewritten_items(items, (n - 1) as nat, input, st, is_conjunctive_predicate) is Some {
            let done = rewritten_items(
                items,
                (n - 1) as nat,
                input,
                st,
                is_conjunctive_predicate,
            )->Some_0;
            rewrite_scalar_failure_matches(
                items[n - 1].scalar,
                done.1,
                done.2,
                is_conjunctive_predicate,
            );
        }
    }
}

/// The rewrite of plans fails exactly where it meets a failure.
pub proof fn rewrite_plans_failure_matches(plans: Seq<SExprView>, n: nat, st: RewriterView)
    requires
        n <= plans.len(),
    ensures
        rewrite_plans_failure(plans, n, st) is Some <==> rewritten_plans(plans, n, st) is None,
    decreases plans, n,
{
    if n > 0 {
        rewrite_plans_failure_matches(plans, (n - 1) as nat, st);
        if rewritten_plans(plans, (n - 1) as nat, st) is Some {
            let done = rewritten_plans(plans, (n - 1) as nat, st)->Some_0;
            rewrite_failure_matches(plans[n - 1], done.1);
        }
    }
}

/// The rewrite of a plan fails exactly where it meets a failure.
pub proof fn rewrite_failure_matches(t: SExprView, st: RewriterView)
    ensures
        rewrite_failure(t, st) is Some <==> rewritten(t, st) is None,
    decreases t, 0nat,
{
    rewrite_plans_failure_matches(t.children, t.children.len(), st);
    if rewritten_plans(t.children, t.children.len(), st) is Some {
        let done = rewritten_plans(t.children, t.children.len(), st)->Some_0;
        match t.plan {
            RelOperatorView::EvalScalar(p) => {
                if done.0.len() == 1 {
                    rewrite_items_failure_matches(p.items, p.items.len(), done.0[0], done.1, false);
                }
            },
            RelOperatorView::Filter(p) => {
                if done.0.len() == 1 {
                    rewrite_list_failure_matches(
                        p.predicates,
                        p.predicates.len(),
                        done.0[0],
                        done.1,
                        true,
                    );
                }
            },
            RelOperatorView::Aggregate(p) => {
                if done.0.len() == 1 {
                    rewrite_items_failure_matches(
                        p.group_items,
                        p.group_items.len(),
                        done.0[0],
                        done.1,
                        false,
                    );
                    if rewritten_items(p.group_items, p.group_items.len(), done.0[0], done.1, false)
                        is Some {
                        let groups = rewritten_items(
                            p.group_items,
                            p.group_items.len(),
                            done.0[0],
                            done.1,
                            false,
                        )->Some_0;
                        rewrite_items_failure_matches(
                            p.aggregate_functions,
                            p.aggregate_functions.len(),
                            groups.1,
                            groups.2,
                            false,
                        );
                    }
                }
            },
            _ => {},
        }
    }
}

/// The state in which a rewrite starts: the registry as it is, and no
/// derived column.
pub open spec fn fresh_state(metadata: MetadataView) -> RewriterView {
    RewriterView { metadata, derived_columns: Map::empty() }
}

/// Scalars without a subquery come back as they went in.
pub proof fn rewritten_list_identity(
    list: Seq<ScalarView>,
    n: nat,
    input: SExprView,
    st: RewriterView,
    is_conjunctive_predicate: bool,
)
    requires
        !any_subquery(list),
        n <= list.len(),
    ensures
        rewritten_list(list, n, input, st, is_conjunctive_predicate) == Some(
            (list.take(n as int), input, st),
        ),
    decreases n,
{
    reveal_with_fuel(rewritten_list, 2);
    if n > 0 {
        rewritten_list_identity(list, (n - 1) as nat, input, st, is_conjunctive_predicate);
        assert(!has_subquery(list[n - 1]));
        assert(list.take(n as int) =~= list.take(n - 1).push(list[n - 1]));
    } else {
        assert(list.take(0) =~= Seq::empty());
    }
}

/// Items without a subquery come back as they went in.
pub proof fn rewritten_items_identity(
    items: Seq<ScalarItemView>,
    n: nat,
    input: SExprView,
    st: RewriterView,
    is_conjunctive_predicate: bool,
)
    requires
        !any_subquery_in_items(items),
        n <= items.len(),
    ensures
        rewritten_items(items, n, input, st, is_conjunctive_predicate) == Some(
            (items.take(n as int), input, st),
        ),
    decreases n,
{
    reveal_with_fuel(rewritten_items, 2);
    if n > 0 {
        rewritten_items_identity(items, (n - 1) as nat, input, st, is_conjunctive_predicate);
        assert(!has_subquery(items[n - 1].scalar));
        assert(items.take(n as int) =~= items.take(n - 1).push(items[n - 1]));
    } else {
        assert(items.take(0) =~= Seq::empty());
    }
}

/// The rewrite is the identity on plans without subqueries: such a plan
/// comes back as it went in, and the state stays as it was.
pub proof fn rewritten_identity(t: SExprView, st: RewriterView)
    requires
        well_formed(t),
        !plan_has_subquery(t),
    ensures
        rewritten(t, st) == Some((t, st)),
    decreases t, 1nat,
{
    rewritten_plans_identity(t.children, t.children.len(), st);
    assert(t.children.take(t.children.len() as int) =~= t.children);
    match t.plan {
        RelOperatorView::EvalScalar(p) => {
            rewritten_items_identity(p.items, p.items.len(), t.children[0], st, false);
            assert(p.items.take(p.items.len() as int) =~= p.items);
            assert(seq![t.children[0]] =~= t.children);
        },
        RelOperatorView::Filter(p) => {
            rewritten_list_identity(p.predicates, p.predicates.len(), t.children[0], st, true);
            assert(p.predicates.take(p.predicates.len() as int) =~= p.predicates);
            assert(seq![t.children[0]] =~= t.children);
        },
        RelOperatorView::Aggregate(p) => {
            rewritten_items_identity(p.group_items, p.group_items.len(), t.children[0], st, false);
            rewritten_items_identity(
                p.aggregate_functions,
                p.aggregate_functions.len(),
                t.children[0],
                st,
                false,
            );
            assert(p.group_items.take(p.group_items.len() as int) =~= p.group_items);
            assert(p.aggregate_functions.take(p.aggregate_functions.len() as int)
                =~= p.aggregate_functions);
            assert(seq![t.children[0]] =~= t.children);
        },
        _ => {},
    }
}

/// The rewrite is the identity on lists of plans without subqueries.
pub proof fn rewritten_plans_identity(plans: Seq<SExprView>, n: nat, st: RewriterView)
    requires
        forall|i: int| 0 <= i < plans.len() ==> well_formed(#[trigger] plans[i]),
        forall|i: int| 0 <= i < plans.len() ==> !plan_has_subquery(#[trigger] plans[i]),
        n <= plans.len(),
    ensures
        rewritten_plans(plans, n, st) == Some((plans.take(n as int), st)),
    decreases plans, n,
{
    if n > 0 {
        rewritten_plans_identity(plans, (n - 1) as nat, st);
        rewritten_identity(plans[n - 1], st);
        assert(plans.take(n as int) =~= plans.take(n - 1).push(plans[n - 1]));
    } else {
        assert(plans.take(0) =~= Seq::empty());
    }
}

/// The first failure among the scalars of a list stays the first as
/// more of the list is taken.
pub proof fn rewrite_list_failure_stays(
    list: Seq<ScalarView>,
    n: nat,
    m: nat,
    input: SExprView,
    st: RewriterView,
    is_conjunctive_predicate: bool,
)
    requires
        n <= m <= list.len(),
        rewrite_list_failure(list, n, input, st, is_conjunctive_predicate) is Some,
    ensures
        rewrite_list_failure(list, m, input, st, is_conjunctive_predicate) == rewrite_list_failure(
            list,
            n,
            input,
            st,
            is_conjunctive_predicate,
        ),
    decreases m,
{
    if n < m {
        rewrite_list_failure_stays(list, n, (m - 1) as nat, input, st, is_conjunctive_predicate);
    }
}

/// The first failure among the items stays the first as more items are
/// taken.
pub proof fn rewrite_items_failure_stays(
    items: Seq<ScalarItemView>,
    n: nat,
    m: nat,
    input: SExprView,
    st: RewriterView,
    is_conjunctive_predicate: bool,
)
    requires
        n <= m <= items.len(),
        rewrite_items_failure(items, n, input, st, is_conjunctive_predicate) is Some,
    ensures
        rewrite_items_failure(items, m, input, st, is_conjunctive_predicate)
            == rewrite_items_failure(items, n, input, st, is_conjunctive_predicate),
    decreases m,
{
    if n < m {
        rewrite_items_failure_stays(items, n, (m - 1) as nat, input, st, is_conjunctive_predicate);
    }
}

/// The first failure among the plans stays the first as more plans are
/// taken.
pub proof fn rewrite_plans_failure_stays(plans: Seq<SExprView>, n: nat, m: nat, st: RewriterView)
    requires
        n <= m <= plans.len(),
        rewrite_plans_failure(plans, n, st) is Some,
    ensures
        rewrite_plans_failure(plans, m, st) == rewrite_plans_failure(plans, n, st),
    decreases m,
{
    if n < m {
        rewrite_plans_failure_stays(plans, n, (m - 1) as nat, st);
    }
}

/// Once a scalar of the list could not be rewritten, the list cannot be.
pub proof fn rewritten_list_fails(
    list: Seq<ScalarView>,
    n: nat,
    m: nat,
    input: SExprView,
    st: RewriterView,
    is_conjunctive_predicate: bool,
)
    requires
        n <= m <= list.len(),
        rewritten_list(list, n, input, st, is_conjunctive_predicate) is None,
    ensures
        rewritten_list(list, m, input, st, is_conjunctive_predicate) is None,
    decreases m,
{
    if n < m {
        rewritten_list_fails(list, n, (m - 1) as nat, input, st, is_conjunctive_predicate);
    }
}

/// Once the scalar of an item could not be rewritten, the items cannot be.
pub proof fn rewritten_items_fails(
    items: Seq<ScalarItemView>,
    n: nat,
    m: nat,
    input: SExprView,
    st: RewriterView,
    is_conjunctive_predicate: bool,
)
    requires
        n <= m <= items.len(),
        rewritten_items(items, n, input, st, is_conjunctive_predicate) is None,
    ensures
        rewritten_items(items, m, input, st, is_conjunctive_predicate) is None,
    decreases m,
{
    if n < m {
        rewritten_items_fails(items, n, (m - 1) as nat, input, st, is_conjunctive_predicate);
    }
}

/// Once a plan of the list could not be rewritten, the list cannot be.
pub proof fn rewritten_plans_fails(plans: Seq<SExprView>, n: nat, m: nat, st: RewriterView)
    requires
        n <= m <= plans.len(),
        rewritten_plans(plans, n, st) is None,
    ensures
        rewritten_plans(plans, m, st) is None,
    decreases m,
{
    if n < m {
        rewritten_plans_fails(plans, n, (m - 1) as nat, st);
    }
}

/// Whether a subquery occurs in the scalars of `op`.
pub fn operator_contains_subquery(op: &RelOperator) -> (b: bool)
    ensures
        b == operator_has_subquery(op@),
{
    proof {
        reveal_with_fuel(operator_view, 4);
    }
    match op {
        RelOperator::Scan(s) => {
            let a = match &s.push_down_predicates {
                Some(p) => list_contain_subquery(p),
                None => false,
            };
            let b = match &s.prewhere {
                Some(p) => list_contain_subquery(&p.predicates),
                None => false,
            };
            a || b
        },
        RelOperator::Join(j) => list_contain_subquery(&j.left_conditions) || list_contain_subquery(
            &j.right_conditions,
        ) || list_contain_subquery(&j.non_equi_conditions),
        RelOperator::EvalScalar(e) => items_contain_subquery(&e.items),
        RelOperator::Filter(f) => list_contain_subquery(&f.predicates),
        RelOperator::Aggregate(a) => items_contain_subquery(&a.group_items)
            || items_contain_subquery(&a.aggregate_functions),
        RelOperator::Exchange(x) => match x {
            Exchange::Hash(keys) => list_contain_subquery(keys),
            _ => false,
        },
        RelOperator::RuntimeFilterSource(r) => list_contain_subquery(&r.left_runtime_filter)
            || list_contain_subquery(&r.right_runtime_filter),
        RelOperator::Window(w) => list_contain_subquery(&w.function.agg_func.args)
            || list_contain_subquery(&w.function.partition_by),
        _ => false,
    }
}

/// Whether a subquery occurs in the scalars of any operator of `plan`.
pub fn plan_contains_subquery(plan: &SExpr) -> (b: bool)
    ensures
        b == plan_has_subquery(plan@),
    decreases plan,
{
    proof {
        sexpr_view_parts(*plan);
    }
    if operator_contains_subquery(&plan.plan) {
        return true;
    }
    let mut i: usize = 0;
    while i < plan.children.len()
        invariant
            i <= plan.children.len(),
            plan@.children.len() == plan.children.len(),
            forall|j: int|
                0 <= j < plan.children.len() ==> (#[trigger] plan@.children[j])
                    == plan.children[j]@,
            forall|j: int| 0 <= j < i ==> !plan_has_subquery(#[trigger] plan@.children[j]),
        decreases plan.children.len() - i,
    {
        if plan_contains_subquery(&plan.children[i]) {
            assert(plan_has_subquery(plan@.children[i as int]));
            return true;
        }
        i = i + 1;
    }
    false
}

/// The constant `true`.
pub fn make_true_constant(span: Option<Span>) -> (r: ScalarExpr)
    ensures
        r@ == true_constant(span),
{
    ScalarExpr::ConstantExpr { span, value: Literal::Boolean(true), data_type: DataType::Boolean }
}

/// `if(is_not_null(column), column, 0)`.
pub fn make_count_or_zero(span: Option<Span>, column: ScalarExpr, data_type: DataType) -> (r:
    ScalarExpr)
    ensures
        r@ == count_or_zero(span, column@, data_type),
{
    let mut inner: Vec<ScalarExpr> = Vec::new();
    inner.push(column.clone());
    let is_not_null = ScalarExpr::FunctionCall {
        span,
        func_name: String::from_str("is_not_null"),
        params: Vec::new(),
        arguments: inner,
        return_type: DataType::Boolean,
    };
    let zero = ScalarExpr::ConstantExpr {
        span,
        value: Literal::UInt64(0),
        data_type: DataType::Number(NumberKind::UInt64),
    };
    let mut arguments: Vec<ScalarExpr> = Vec::new();
    arguments.push(is_not_null);
    arguments.push(column);
    arguments.push(zero);
    let r = ScalarExpr::FunctionCall {
        span,
        func_name: String::from_str("if"),
        params: Vec::new(),
        arguments,
        return_type: data_type,
    };
    proof {
        reveal_with_fuel(scalar_view, 4);
        let want = count_or_zero(span, column@, data_type);
        assert(r@->FunctionCall_params =~= want->FunctionCall_params);
        assert(r@->FunctionCall_arguments[0]->FunctionCall_params =~= Seq::<usize>::empty());
        assert(r@->FunctionCall_arguments[0]->FunctionCall_arguments =~= seq![column@]);
        assert(r@->FunctionCall_arguments =~= want->FunctionCall_arguments);
    }
    r
}

impl SubqueryRewriter {
    /// The scalar that takes the place of `subquery` once it has been
    /// turned into a join.
    pub fn make_subquery_value(&self, subquery: &SubqueryExpr, result: UnnestResult, counted: bool) -> (r:
        ScalarExpr)
        ensures
            r@ == subquery_value(subquery@, result, self@, counted),
    {
        proof {
            reveal_with_fuel(scalar_view, 2);
        }
        if let UnnestResult::SimpleJoin = result {
            return make_true_constant(subquery.span);
        }
        let (index, name) = match result {
            UnnestResult::MarkJoin { marker_index } => (marker_index, usize_to_string(marker_index)),
            _ => {
                let index = match self.derived_columns.get(subquery.output_column.index) {
                    Some(i) => i,
                    None => subquery.output_column.index,
                };
                let mut name = String::from_str("scalar_subquery_");
                push_decimal(&mut name, index as u64);
                (index, name)
            },
        };
        let marked = match result {
            UnnestResult::MarkJoin { .. } => true,
            _ => false,
        };
        let data_type = if subquery.typ == SubqueryType::Scalar {
            subquery.data_type.wrap_nullable()
        } else if marked {
            DataType::Nullable(Box::new(DataType::Boolean))
        } else {
            subquery.data_type.clone()
        };
        let column = make_column_ref(
            subquery.span,
            name,
            index,
            data_type.clone(),
            Visibility::Visible,
        );
        if counted {
            make_count_or_zero(subquery.span, column, data_type)
        } else if subquery.typ == SubqueryType::NotExists {
            ScalarExpr::NotExpr { argument: Box::new(column) }
        } else {
            column
        }
    }

    /// Rewrites the subquery `subquery`, which is evaluated over `input`,
    /// into a join over `input` and a scalar over the join.
    pub fn rewrite_subquery(
        &mut self,
        subquery: &SubqueryExpr,
        input: SExpr,
        is_conjunctive_predicate: bool,
    ) -> (r: Result<(ScalarExpr, SExpr), ErrorCode>)
        ensures
            match rewritten_subquery(subquery@, input@, old(self)@, is_conjunctive_predicate) {
                Some((e, t, s)) => r is Ok && r->Ok_0.0@ == e && r->Ok_0.1@ == t && final(self)@
                    == s,
                None => r is Err && r->Err_0.code == INTERNAL,
            },
            r is Err ==> Some(r->Err_0.message@) == rewrite_subquery_failure(
                subquery@,
                input@,
                old(self)@,
                is_conjunctive_predicate,
            ),
            r is Ok ==> rewrite_subquery_failure(
                subquery@,
                input@,
                old(self)@,
                is_conjunctive_predicate,
            ) is None,
        decreases subquery, 0nat,
    {
        proof {
            rewrite_subquery_failure_matches(
                subquery@,
                input@,
                old(self)@,
                is_conjunctive_predicate,
            );
        }
        proof {
            reveal_with_fuel(subquery_view, 1);
        }
        if let Some(child) = &subquery.child_expr {
            if contain_subquery(child) {
                return Err(
                    ErrorCode::internal("Subquery on the left side of a quantified comparison"),
                );
            }
        }
        // Rewrite the subquery's own plan first.
        let inner = match self.rewrite(&subquery.subquery) {
            Ok(p) => p,
            Err(e) => {
                return Err(e);
            },
        };
        let rewritten_subquery = SubqueryExpr {
            span: subquery.span,
            typ: subquery.typ,
            subquery: Box::new(inner),
            child_expr: match &subquery.child_expr {
                Some(e) => Some(Box::new(clone_scalar(e))),
                None => None,
            },
            compare_op: subquery.compare_op,
            output_column: subquery.output_column.clone(),
            projection_index: subquery.projection_index,
            data_type: subquery.data_type.clone(),
            outer_columns: subquery.outer_columns.clone(),
        };
        let mut flatten_info = FlattenInfo { from_count_func: false };
        let (plan, result) = match self.try_decorrelate_subquery(
            &input,
            &rewritten_subquery,
            &mut flatten_info,
            is_conjunctive_predicate,
        ) {
            Ok(r) => r,
            Err(e) => {
                return Err(e);
            },
        };
        let value = self.make_subquery_value(
            &rewritten_subquery,
            result,
            flatten_info.from_count_func,
        );
        Ok((value, plan))
    }

    /// Rewrites the subqueries of `scalar`, which is evaluated over
    /// `input`.
    pub fn try_rewrite_subquery(
        &mut self,
        scalar: &ScalarExpr,
        input: SExpr,
        is_conjunctive_predicate: bool,
    ) -> (r: Result<(ScalarExpr, SExpr), ErrorCode>)
        ensures
            match rewritten_scalar(scalar@, input@, old(self)@, is_conjunctive_predicate) {
                Some((e, t, s)) => r is Ok && r->Ok_0.0@ == e && r->Ok_0.1@ == t && final(self)@
                    == s,
                None => r is Err && r->Err_0.code == INTERNAL,
            },
            r is Err ==> Some(r->Err_0.message@) == rewrite_scalar_failure(
                scalar@,
                input@,
                old(self)@,
                is_conjunctive_predicate,
            ),
            r is Ok ==> rewrite_scalar_failure(
                scalar@,
                input@,
                old(self)@,
                is_conjunctive_predicate,
            ) is None,
        decreases scalar, 0nat,
    {
        proof {
            rewrite_scalar_failure_matches(
                scalar@,
                input@,
                old(self)@,
                is_conjunctive_predicate,
            );
        }
        proof {
            reveal_with_fuel(scalar_view, 2);
        }
        if !contain_subquery(scalar) {
            return Ok((scalar.clone(), input));
        }
        match scalar {
            ScalarExpr::AndExpr { left, right } => {
                let (l, i1) = match self.try_rewrite_subquery(left, input, false) {
                    Ok(r) => r,
                    Err(e) => {
                        return Err(e);
                    },
                };
                let (r, i2) = match self.try_rewrite_subquery(right, i1, false) {
                    Ok(r) => r,
                    Err(e) => {
                        return Err(e);
                    },
                };
                Ok((ScalarExpr::AndExpr { left: Box::new(l), right: Box::new(r) }, i2))
            },
            ScalarExpr::OrExpr { left, right } => {
                let (l, i1) = match self.try_rewrite_subquery(left, input, false) {
                    Ok(r) => r,
                    Err(e) => {
                        return Err(e);
                    },
                };
                let (r, i2) = match self.try_rewrite_subquery(right, i1, false) {
                    Ok(r) => r,
                    Err(e) => {
                        return Err(e);
                    },
                };
                Ok((ScalarExpr::OrExpr { left: Box::new(l), right: Box::new(r) }, i2))
            },
            ScalarExpr::ComparisonExpr { op, left, right } => {
                let (l, i1) = match self.try_rewrite_subquery(left, input, false) {
                    Ok(r) => r,
                    Err(e) => {
                        return Err(e);
                    },
                };
                let (r, i2) = match self.try_rewrite_subquery(right, i1, false) {
                    Ok(r) => r,
                    Err(e) => {
                        return Err(e);
                    },
                };
                Ok(
                    (
                        ScalarExpr::ComparisonExpr { op: *op, left: Box::new(l), right: Box::new(r) },
                        i2,
                    ),
                )
            },
            ScalarExpr::NotExpr { argument } => {
                match self.try_rewrite_subquery(argument, input, false) {
                    Ok((a, i1)) => Ok((ScalarExpr::NotExpr { argument: Box::new(a) }, i1)),
                    Err(e) => Err(e),
                }
            },
            ScalarExpr::CastExpr { span, is_try, argument, target_type } => {
                match self.try_rewrite_subquery(argument, input, false) {
                    Ok((a, i1)) => Ok(
                        (
                            ScalarExpr::CastExpr {
                                span: *span,
                                is_try: *is_try,
                                argument: Box::new(a),
                                target_type: target_type.clone(),
                            },
                            i1,
                        ),
                    ),
                    Err(e) => Err(e),
                }
            },
            ScalarExpr::FunctionCall { span, func_name, params, arguments, return_type } => {
                match self.rewrite_list(arguments, input, false) {
                    Ok((args, i1)) => Ok(
                        (
                            ScalarExpr::FunctionCall {
                                span: *span,
                                func_name: func_name.clone(),
                                params: clone_indexes(params),
                                arguments: args,
                                return_type: return_type.clone(),
                            },
                            i1,
                        ),
                    ),
                    Err(e) => Err(e),
                }
            },
            ScalarExpr::SubqueryExpr(q) => self.rewrite_subquery(q, input, is_conjunctive_predicate),
            _ => Err(ErrorCode::internal("Subquery in an aggregate, a window function or an unnest")),
        }
    }

    /// Rewrites the subqueries of the scalars of `list` one after another,
    /// starting over `input`.
    pub fn rewrite_list(
        &mut self,
        list: &Vec<ScalarExpr>,
        input: SExpr,
        is_conjunctive_predicate: bool,
    ) -> (r: Result<(Vec<ScalarExpr>, SExpr), ErrorCode>)
        ensures
            match rewritten_list(
                scalars_view(*list),
                list.len() as nat,
                input@,
                old(self)@,
                is_conjunctive_predicate,
            ) {
                Some((l, t, s)) => r is Ok && scalars_view(r->Ok_0.0) == l && r->Ok_0.1@ == t
                    && final(self)@ == s,
                None => r is Err && r->Err_0.code == INTERNAL,
            },
            r is Err ==> Some(r->Err_0.message@) == rewrite_list_failure(
                scalars_view(*list),
                list.len() as nat,
                input@,
                old(self)@,
                is_conjunctive_predicate,
            ),
            r is Ok ==> rewrite_list_failure(
                scalars_view(*list),
                list.len() as nat,
                input@,
                old(self)@,
                is_conjunctive_predicate,
            ) is None,
        decreases list, 0nat,
    {
        proof {
            rewrite_list_failure_matches(
                scalars_view(*list),
                list.len() as nat,
                input@,
                old(self)@,
                is_conjunctive_predicate,
            );
        }
        let ghost all = scalars_view(*list);
        let ghost start = self@;
        let ghost input0 = input@;
        let mut out: Vec<ScalarExpr> = Vec::new();
        let mut plan = input;
        let mut i: usize = 0;
        proof {
            assert(scalars_view(out) =~= Seq::empty());
        }
        while i < list.len()
            invariant
                i <= list.len(),
                all == scalars_view(*list),
                all.len() == list.len(),
                start == old(self)@,
                input0 == input@,
                rewritten_list(all, i as nat, input0, start, is_conjunctive_predicate) == Some(
                    (scalars_view(out), plan@, self@),
                ),
            decreases list.len() - i,
        {
            let ghost before = scalars_view(out);
            match self.try_rewrite_subquery(&list[i], plan, is_conjunctive_predicate) {
                Ok((e, p)) => {
                    out.push(e);
                    plan = p;
                    assert(scalars_view(out) =~= before.push(e@));
                },
                Err(e) => {
                    proof {
                        assert(rewritten_list(
                            all,
                            (i + 1) as nat,
                            input0,
                            start,
                            is_conjunctive_predicate,
                        ) is None);
                        rewritten_list_fails(
                            all,
                            (i + 1) as nat,
                            list.len() as nat,
                            input0,
                            start,
                            is_conjunctive_predicate,
                        );
                        rewrite_list_failure_matches(
                            all,
                            i as nat,
                            input0,
                            start,
                            is_conjunctive_predicate,
                        );
                        rewrite_list_failure_stays(
                            all,
                            (i + 1) as nat,
                            list.len() as nat,
                            input0,
                            start,
                            is_conjunctive_predicate,
                        );
                    }
                    return Err(e);
                },
            }
            i = i + 1;
        }
        Ok((out, plan))
    }

    /// Rewrites the subqueries of the scalars of `items` one after another,
    /// starting over `input`.
    pub fn rewrite_items(
        &mut self,
        items: &Vec<ScalarItem>,
        input: SExpr,
        is_conjunctive_predicate: bool,
    ) -> (r: Result<(Vec<ScalarItem>, SExpr), ErrorCode>)
        ensures
            match rewritten_items(
                items_view(*items),
                items.len() as nat,
                input@,
                old(self)@,
                is_conjunctive_predicate,
            ) {
                Some((l, t, s)) => r is Ok && items_view(r->Ok_0.0) == l && r->Ok_0.1@ == t
                    && final(self)@ == s,
                None => r is Err && r->Err_0.code == INTERNAL,
            },
            r is Err ==> Some(r->Err_0.message@) == rewrite_items_failure(
                items_view(*items),
                items.len() as nat,
                input@,
                old(self)@,
                is_conjunctive_predicate,
            ),
            r is Ok ==> rewrite_items_failure(
                items_view(*items),
                items.len() as nat,
                input@,
                old(self)@,
                is_conjunctive_predicate,
            ) is None,
        decreases items, 0nat,
    {
        proof {
            rewrite_items_failure_matches(
                items_view(*items),
                items.len() as nat,
                input@,
                old(self)@,
                is_conjunctive_predicate,
            );
        }
        let ghost all = items_view(*items);
        let ghost start = self@;
        let ghost input0 = input@;
        let mut out: Vec<ScalarItem> = Vec::new();
        let mut plan = input;
        let mut i: usize = 0;
        proof {
            assert(items_view(out) =~= Seq::empty());
        }
        while i < items.len()
            invariant
                i <= items.len(),
                all == items_view(*items),
                all.len() == items.len(),
                start == old(self)@,
                input0 == input@,
                rewritten_items(all, i as nat, input0, start, is_conjunctive_predicate) == Some(
                    (items_view(out), plan@, self@),
                ),
            decreases items.len() - i,
        {
            let ghost before = items_view(out);
            proof {
                assert(decreases_to!(items => items[i as int]));
            }
            match self.try_rewrite_subquery(&items[i].scalar, plan, is_conjunctive_predicate) {
                Ok((e, p)) => {
                    let item = ScalarItem { scalar: e, index: items[i].index };
                    out.push(item);
                    plan = p;
                    assert(items_view(out) =~= before.push(item@));
                },
                Err(e) => {
                    proof {
                        assert(rewritten_items(
                            all,
                            (i + 1) as nat,
                            input0,
                            start,
                            is_conjunctive_predicate,
                        ) is None);
                        rewritten_items_fails(
                            all,
                            (i + 1) as nat,
                            items.len() as nat,
                            input0,
                            start,
                            is_conjunctive_predicate,
                        );
                        rewrite_items_failure_matches(
                            all,
                            i as nat,
                            input0,
                            start,
                            is_conjunctive_predicate,
                        );
                        rewrite_items_failure_stays(
                            all,
                            (i + 1) as nat,
                            items.len() as nat,
                            input0,
                            start,
                            is_conjunctive_predicate,
                        );
                    }
                    return Err(e);
                },
            }
            i = i + 1;
        }
        Ok((out, plan))
    }

    /// Rewrites the plans of `plans` one after another.
    pub fn rewrite_plans(&mut self, plans: &Vec<SExpr>) -> (r: Result<Vec<SExpr>, ErrorCode>)
        ensures
            match rewritten_plans(sexprs_view(*plans), plans.len() as nat, old(self)@) {
                Some((l, s)) => r is Ok && sexprs_view(r->Ok_0) == l && final(self)@ == s,
                None => r is Err && r->Err_0.code == INTERNAL,
            },
            r is Err ==> Some(r->Err_0.message@) == rewrite_plans_failure(
                sexprs_view(*plans),
                plans.len() as nat,
                old(self)@,
            ),
            r is Ok ==> rewrite_plans_failure(
                sexprs_view(*plans),
                plans.len() as nat,
                old(self)@,
            ) is None,
        decreases plans, 0nat,
    {
        proof {
            rewrite_plans_failure_matches(sexprs_view(*plans), plans.len() as nat, old(self)@);
        }
        let ghost all = sexprs_view(*plans);
        let ghost start = self@;
        let mut out: Vec<SExpr> = Vec::new();
        let mut i: usize = 0;
        proof {
            assert(sexprs_view(out) =~= Seq::empty());
        }
        while i < plans.len()
            invariant
                i <= plans.len(),
                all == sexprs_view(*plans),
                all.len() == plans.len(),
                start == old(self)@,
                rewritten_plans(all, i as nat, start) == Some((sexprs_view(out), self@)),
            decreases plans.len() - i,
        {
            let ghost before = sexprs_view(out);
            match self.rewrite(&plans[i]) {
                Ok(t) => {
                    out.push(t);
                    assert(sexprs_view(out) =~= before.push(t@));
                },
                Err(e) => {
                    proof {
                        assert(rewritten_plans(all, (i + 1) as nat, start) is None);
                        rewritten_plans_fails(all, (i + 1) as nat, plans.len() as nat, start);
                        rewrite_plans_failure_matches(all, i as nat, start);
                        rewrite_plans_failure_stays(all, (i + 1) as nat, plans.len() as nat, start);
                    }
                    return Err(e);
                },
            }
            i = i + 1;
        }
        Ok(out)
    }

    /// Rewrites `s_expr` into a plan without subqueries.
    pub fn rewrite(&mut self, s_expr: &SExpr) -> (r: Result<SExpr, ErrorCode>)
        ensures
            match rewritten(s_expr@, old(self)@) {
                Some((t, s)) => r is Ok && r->Ok_0@ == t && final(self)@ == s,
                None => r is Err && r->Err_0.code == INTERNAL,
            },
            r is Err ==> Some(r->Err_0.message@) == rewrite_failure(s_expr@, old(self)@),
            r is Ok ==> rewrite_failure(s_expr@, old(self)@) is None,
        decreases s_expr, 0nat,
    {
        proof {
            rewrite_failure_matches(s_expr@, old(self)@);
        }
        proof {
            sexpr_view_parts(*s_expr);
            reveal_with_fuel(operator_view, 2);
        }
        let mut children = match self.rewrite_plans(&s_expr.children) {
            Ok(c) => c,
            Err(e) => {
                return Err(e);
            },
        };
        match &s_expr.plan {
            RelOperator::EvalScalar(p) => {
                let input = match children.pop() {
                    Some(c) => c,
                    None => {
                        return Err(ErrorCode::internal("Invalid children index"));
                    },
                };
                if children.len() != 0 {
                    return Err(ErrorCode::internal("Invalid children index"));
                }
                let (items, input) = match self.rewrite_items(&p.items, input, false) {
                    Ok(r) => r,
                    Err(e) => {
                        return Err(e);
                    },
                };
                Ok(
                    single_input(
                        RelOperator::EvalScalar(EvalScalar { items }),
                        input,
                        s_expr.applied_rules,
                    ),
                )
            },
            RelOperator::Filter(p) => {
                let input = match children.pop() {
                    Some(c) => c,
                    None => {
                        return Err(ErrorCode::internal("Invalid children index"));
                    },
                };
                if children.len() != 0 {
                    return Err(ErrorCode::internal("Invalid children index"));
                }
                let (predicates, input) = match self.rewrite_list(&p.predicates, input, true) {
                    Ok(r) => r,
                    Err(e) => {
                        return Err(e);
                    },
                };
                Ok(
                    single_input(
                        RelOperator::Filter(Filter { predicates, is_having: p.is_having }),
                        input,
                        s_expr.applied_rules,
                    ),
                )
            },
            RelOperator::Aggregate(p) => {
                let input = match children.pop() {
                    Some(c) => c,
                    None => {
                        return Err(ErrorCode::internal("Invalid children index"));
                    },
                };
                if children.len() != 0 {
                    return Err(ErrorCode::internal("Invalid children index"));
                }
                let (group_items, input) = match self.rewrite_items(&p.group_items, input, false) {
                    Ok(r) => r,
                    Err(e) => {
                        return Err(e);
                    },
                };
                let (aggregate_functions, input) = match self.rewrite_items(
                    &p.aggregate_functions,
                    input,
                    false,
                ) {
                    Ok(r) => r,
                    Err(e) => {
                        return Err(e);
                    },
                };
                Ok(
                    single_input(
                        RelOperator::Aggregate(
                            Aggregate {
                                mode: p.mode,
                                group_items,
                                aggregate_functions,
                                from_distinct: p.from_distinct,
                                limit: p.limit,
                                grouping_id_index: p.grouping_id_index,
                                grouping_sets: clone_index_lists(&p.grouping_sets),
                            },
                        ),
                        input,
                        s_expr.applied_rules,
                    ),
                )
            },
            _ => {
                if operator_contains_subquery(&s_expr.plan) {
                    return Err(ErrorCode::internal("Subquery in an operator that cannot hold one"));
                }
                let out = SExpr {
                    plan: s_expr.plan.clone(),
                    children,
                    applied_rules: s_expr.applied_rules,
                };
                proof {
                    sexpr_view_parts(out);
                }
                Ok(out)
            },
        }
    }
}

/// A node with one input and the given record of applied rules.
pub fn single_input(plan: RelOperator, input: SExpr, applied_rules: u64) -> (r: SExpr)
    ensures
        r@ == (SExprView { plan: plan@, children: seq![input@], applied_rules }),
{
    let mut children: Vec<SExpr> = Vec::new();
    children.push(input);
    let r = SExpr { plan, children, applied_rules };
    proof {
        sexpr_view_parts(r);
        assert(r@.children =~= seq![input@]);
    }
    r
}

/// What decorrelation makes of a plan and a registry: the plan in which
/// every subquery has given way to a join, and the registry with the
/// derived columns that the joins need; `None` where the plan cannot be
/// decorrelated.
///
/// A plan without a subquery stays as it is, and so does the registry.
/// Any other plan is rewritten from a fresh state.
pub open spec fn decorrelation(t: SExprView, metadata: MetadataView) -> Option<
    (SExprView, MetadataView),
> {
    if !plan_has_subquery(t) {
        Some((t, metadata))
    } else {
        match rewritten(t, fresh_state(metadata)) {
            Some((rewritten_plan, s)) => Some((rewritten_plan, s.metadata)),
            None => None,
        }
    }
}

/// Decorrelation leaves no subquery behind, and it is idempotent: it
/// makes of the plan that it has made the plan itself, with the registry as
/// it is.
pub proof fn decorrelation_is_idempotent(t: SExprView, metadata: MetadataView)
    requires
        decorrelation(t, metadata) is Some,
    ensures
        !plan_has_subquery(decorrelation(t, metadata)->Some_0.0),
        decorrelation(decorrelation(t, metadata)->Some_0.0, decorrelation(t, metadata)->Some_0.1)
            == decorrelation(t, metadata),
{
    if plan_has_subquery(t) {
        rewritten_is_plain(t, fresh_state(metadata));
    }
}

/// On a plan without a subquery in which every node has as many inputs as
/// its operator takes, the rewrite itself changes nothing: decorrelation
/// gives there what the rewrite gives.
pub proof fn decorrelation_agrees_with_rewrite(t: SExprView, metadata: MetadataView)
    requires
        well_formed(t),
        !plan_has_subquery(t),
    ensures
        rewritten(t, fresh_state(metadata)) == Some((t, fresh_state(metadata))),
        decorrelation(t, metadata) == Some((t, metadata)),
{
    rewritten_identity(t, fresh_state(metadata));
}

/// Decorrelates the subqueries of `s_expr`: rewrites the plan into one
/// in which every subquery has given way to a join.
///
/// The derived columns that the joins need are added to `metadata`. A
/// plan that holds no subquery comes back as it went in, and `metadata`
/// stays as it was. A plan that comes back holds no subquery. Where the
/// rewrite fails, the error is that of the first failure it meets.
pub fn decorrelate_subquery(metadata: &mut Metadata, s_expr: &SExpr) -> (r: Result<SExpr, ErrorCode>)
    ensures
        match decorrelation(s_expr@, old(metadata)@) {
            Some((t, m)) => r is Ok && r->Ok_0@ == t && final(metadata)@ == m,
            None => r is Err && r->Err_0.code == INTERNAL,
        },
        r is Err ==> Some(r->Err_0.message@) == rewrite_failure(
            s_expr@,
            fresh_state(old(metadata)@),
        ),
        r is Ok ==> !plan_has_subquery(r->Ok_0@),
        !plan_has_subquery(s_expr@) ==> r is Ok && r->Ok_0@ == s_expr@,
        !plan_has_subquery(s_expr@) ==> final(metadata)@ == old(metadata)@,
{
    if !plan_contains_subquery(s_expr) {
        return Ok(s_expr.clone());
    }
    proof {
        if rewritten(s_expr@, fresh_state(metadata@)) is Some {
            rewritten_is_plain(s_expr@, fresh_state(metadata@));
        }
    }
    let mut taken = Metadata::new();
    core::mem::swap(&mut taken, metadata);
    let mut rewriter = SubqueryRewriter::new(taken);
    let result = rewriter.rewrite(s_expr);
    let SubqueryRewriter { metadata: grown, derived_columns: _ } = rewriter;
    *metadata = grown;
    result
}

} // verus!
