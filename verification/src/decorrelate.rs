//! Decorrelation of one subquery: the rewrite of a plan and a subquery
//! over it into a join of the plan with the flattened subquery.
//!
//! A scalar subquery becomes a single join, an `ANY` comparison a mark
//! join. An `EXISTS` or `NOT EXISTS` over a plain filtered scan becomes a
//! semi or an anti join directly; any other becomes a mark join.

use crate::columns::{ordered};
use crate::copy::{clone_scalar};
use crate::error::{ErrorCode, INTERNAL};
use crate::flatten::{FlattenInfo, RewriterView, SubqueryRewriter, equi_conditions, equi_failure, equi_failure_matches, flatten_failure, flatten_failure_matches, flattened, key_pair};
use crate::ir::{EvalScalar, Filter, FilterView, Join, JoinType, JoinView, RelOperator, RelOperatorView, SExpr, SExprView, ScalarExpr, ScalarView, Scan, SubqueryExpr, SubqueryType, SubqueryView, Visibility, operator_view, scalar_view, scalars_view, sexpr_view_parts};
use crate::join_predicate::{JoinConditionsView, no_common_type_message, split_join_predicates, split_predicates};
use crate::metadata::{with_derived};
use crate::property::{derivable, derive_relational_prop, outer_columns, output_columns, underivable_message};
use crate::prune::{binary, leaf, unary};
use crate::scalar::{cast_to, column_ref, make_column_ref, wrap_cast};
use crate::text::{subquery_column_name, subquery_name};
use crate::types::{DataType};
use vstd::prelude::*;
use vstd::string::*;

verus! {

/// How a subquery was turned into a join.
#[derive(Clone, Copy, Debug, PartialEq, Eq, Structural)]
pub enum UnnestResult {
    /// A semi or anti join; the subquery's predicate is true on every row
    /// that is left.
    SimpleJoin,
    /// A mark join; the marker column holds the subquery's value.
    MarkJoin { marker_index: usize },
    /// A single join; the subquery's output column holds its value.
    SingleJoin,
}

/// Whether the plan is a projection over a filter over a scan.
pub open spec fn is_filtered_scan(t: SExprView) -> bool {
    &&& t.plan is EvalScalar
    &&& t.children.len() == 1
    &&& t.children[0].plan is Filter
    &&& t.children[0].children.len() == 1
    &&& t.children[0].children[0].plan is Scan
    &&& t.children[0].children[0].children.len() == 0
}

/// A filter that is not a `HAVING` clause.
pub open spec fn plain_filter(predicates: Seq<ScalarView>) -> RelOperatorView {
    RelOperatorView::Filter(FilterView { predicates, is_having: false })
}

/// The plan under a filter with the given predicates, or the plan itself
/// where there are none.
pub open spec fn filtered(predicates: Seq<ScalarView>, plan: SExprView) -> SExprView {
    if predicates.len() > 0 {
        unary(plain_filter(predicates), plan)
    } else {
        plan
    }
}

/// The join that stands for a correlated subquery.
pub open spec fn correlated_join(
    join_type: JoinType,
    left_conditions: Seq<ScalarView>,
    right_conditions: Seq<ScalarView>,
    non_equi_conditions: Seq<ScalarView>,
    marker_index: Option<usize>,
) -> RelOperatorView {
    RelOperatorView::Join(
        JoinView {
            left_conditions,
            right_conditions,
            non_equi_conditions,
            join_type,
            marker_index,
            from_correlated_subquery: true,
            contain_runtime_filter: false,
        },
    )
}

/// The semi or anti join that stands for an `EXISTS` or `NOT EXISTS` over
/// a filtered scan.
///
/// The predicates of the filter are sorted by the inputs they read. Those
/// over the enclosing plan alone filter it before the join; those over the
/// scan alone filter the subquery, which keeps its projection and loses its
/// filter; equalities between the two become the keys of the join; the rest
/// are conditions on the joined rows.
pub open spec fn simple_join(
    input: SExprView,
    q: SubqueryView,
    conditions: JoinConditionsView,
    join_type: JoinType,
) -> SExprView {
    let eval = *q.subquery;
    let scan = eval.children[0].children[0];
    binary(
        correlated_join(
            join_type,
            conditions.left_conditions,
            conditions.right_conditions,
            conditions.non_equi_conditions,
            None,
        ),
        filtered(conditions.left_filters, input),
        filtered(conditions.right_filters, unary(eval.plan, unary(eval.plan, leaf(scan.plan)))),
    )
}

/// The message of the error with which the simple decorrelation fails:
/// that of the property derivation where the properties of the enclosing
/// plan cannot be derived, else that of keys without a common type.
pub open spec fn simple_failure_message(input: SExprView) -> Seq<char> {
    if !derivable(input) {
        underivable_message()
    } else {
        no_common_type_message()
    }
}

/// The result of the simple decorrelation: `None` where it fails,
/// `Some(None)` where it does not apply, else the join.
///
/// It applies to a correlated `EXISTS` or `NOT EXISTS` whose plan is a
/// projection over a filter over a scan, where the scan itself does not
/// refer to the enclosing query. It fails where the properties of the
/// enclosing plan cannot be derived, or where an equality between the two
/// sides has keys without a common type.
pub open spec fn simply_decorrelated(input: SExprView, q: SubqueryView) -> Option<Option<SExprView>> {
    if q.outer_columns == Set::<usize>::empty() {
        Some(None)
    } else if !is_filtered_scan(*q.subquery) {
        Some(None)
    } else if !derivable(input) {
        None
    } else {
        let filter_tree = q.subquery.children[0];
        if outer_columns(filter_tree.children[0]) != Set::<usize>::empty() {
            Some(None)
        } else {
            match split_predicates(
                filter_tree.plan->Filter_0.predicates,
                output_columns(input),
                output_columns(filter_tree),
            ) {
                None => None,
                Some(conditions) => match q.typ {
                    SubqueryType::Exists => Some(
                        Some(simple_join(input, q, conditions, JoinType::LeftSemi)),
                    ),
                    SubqueryType::NotExists => Some(
                        Some(simple_join(input, q, conditions, JoinType::LeftAnti)),
                    ),
                    _ => Some(None),
                },
            }
        }
    }
}

/// The message of the error for a quantified comparison that lacks a
/// part, `None` where it lacks none: its left side is looked at first, then
/// its comparison operator.
pub open spec fn quantified_failure(q: SubqueryView) -> Option<Seq<char>> {
    if q.child_expr is None {
        Some("Quantified subquery has no left side"@)
    } else if q.compare_op is None {
        Some("Quantified subquery has no comparison operator"@)
    } else {
        None
    }
}

/// The message of the error with which the decorrelation of a subquery
/// fails, `None` where it does not fail: that of the first failure. The
/// simple decorrelation comes first where it is tried; then an `ALL` is
/// refused; then the subquery is flattened, the keys of the join are made,
/// and the condition of an `ANY`.
pub open spec fn decorrelate_failure(
    left: SExprView,
    q: SubqueryView,
    st: RewriterView,
    counted: bool,
    is_conjunctive_predicate: bool,
) -> Option<Seq<char>> {
    let simple = if (q.typ == SubqueryType::Exists || q.typ == SubqueryType::NotExists)
        && is_conjunctive_predicate {
        simply_decorrelated(left, q)
    } else {
        Some(None)
    };
    if simple is None {
        Some(simple_failure_message(left))
    } else if simple->Some_0 is Some {
        None
    } else if q.typ == SubqueryType::All {
        Some(all_quantifier_message())
    } else {
        match flatten_failure(*q.subquery, q.outer_columns, st, counted, false) {
            Some(m) => Some(m),
            None => {
                let s = flattened(*q.subquery, q.outer_columns, st, counted, false)->Some_0.1;
                match equi_failure(q.span, ordered(q.outer_columns), 0, s) {
                    Some(m) => Some(m),
                    None => if q.typ == SubqueryType::Any {
                        quantified_failure(q)
                    } else {
                        None
                    },
                }
            },
        }
    }
}

/// The decorrelation of a subquery fails exactly where it meets a
/// failure.
pub proof fn decorrelate_failure_matches(
    left: SExprView,
    q: SubqueryView,
    st: RewriterView,
    counted: bool,
    is_conjunctive_predicate: bool,
)
    ensures
        decorrelate_failure(left, q, st, counted, is_conjunctive_predicate) is Some
            <==> decorrelated(left, q, st, counted, is_conjunctive_predicate) is None,
{
    flatten_failure_matches(*q.subquery, q.outer_columns, st, counted, false);
    if flattened(*q.subquery, q.outer_columns, st, counted, false) is Some {
        let s = flattened(*q.subquery, q.outer_columns, st, counted, false)->Some_0.1;
        equi_failure_matches(q.span, ordered(q.outer_columns), 0, s);
    }
}

/// The message of the error for an `ALL` comparison.
pub open spec fn all_quantifier_message() -> Seq<char> {
    "ALL subquery cannot be decorrelated"@
}

/// The index of the marker column of a mark join, and the state after it
/// has been found: the column that the subquery projects to, or else a
/// fresh nullable boolean column named `marker`.
pub open spec fn marker_of(q: SubqueryView, st: RewriterView) -> (usize, RewriterView) {
    match q.projection_index {
        Some(i) => (i, st),
        None => (
            st.metadata.columns.len() as usize,
            RewriterView {
                metadata: with_derived(
                    st.metadata,
                    "marker"@,
                    DataType::Nullable(Box::new(DataType::Boolean)),
                ),
                ..st
            },
        ),
    }
}

/// The condition of a quantified comparison: the left side of the
/// comparison against the subquery's output column, cast to the type of the
/// subquery.
pub open spec fn quantified_condition(q: SubqueryView) -> Option<ScalarView> {
    match (q.child_expr, q.compare_op) {
        (Some(child), Some(op)) => Some(
            ScalarView::ComparisonExpr {
                op,
                left: child,
                right: Box::new(
                    cast_to(
                        column_ref(
                            q.span,
                            subquery_name(q.output_column.index),
                            q.output_column.index,
                            q.output_column.data_type,
                            Visibility::Visible,
                        ),
                        q.data_type,
                    ),
                ),
            },
        ),
        _ => None,
    }
}

/// The join of `left` with the flattened subquery, how the subquery was
/// unnested, the state after it, and whether a counting aggregate was met;
/// `None` where the subquery cannot be decorrelated.
///
/// The subquery is flattened over its outer columns. The keys of the join
/// pair each outer column, on the left, with its derived column, on the
/// right. A scalar subquery gives a single join. `EXISTS` and `NOT EXISTS`
/// give a mark join, unless the subquery stands as a conjunct of a filter
/// and the simple decorrelation applies. `ANY` gives a mark join with the
/// comparison as a further condition. `ALL` cannot be decorrelated: the
/// mark join of `ANY` does not stand for it, and it is an internal error.
pub open spec fn decorrelated(
    left: SExprView,
    q: SubqueryView,
    st: RewriterView,
    counted: bool,
    is_conjunctive_predicate: bool,
) -> Option<(SExprView, UnnestResult, RewriterView, bool)> {
    let simple = if (q.typ == SubqueryType::Exists || q.typ == SubqueryType::NotExists)
        && is_conjunctive_predicate {
        simply_decorrelated(left, q)
    } else {
        Some(None)
    };
    match simple {
        None => None,
        Some(Some(t)) => Some((t, UnnestResult::SimpleJoin, st, counted)),
        Some(None) => if q.typ == SubqueryType::All {
            None
        } else {
            match flattened(*q.subquery, q.outer_columns, st, counted, false) {
                None => None,
                Some((plan, s, n)) => match equi_conditions(q.span, q.outer_columns, s) {
                    None => None,
                    Some((derived_keys, outer_keys)) => match q.typ {
                        SubqueryType::Scalar => Some(
                            (
                                binary(
                                    correlated_join(
                                        JoinType::Single,
                                        outer_keys,
                                        derived_keys,
                                        Seq::empty(),
                                        None,
                                    ),
                                    left,
                                    plan,
                                ),
                                UnnestResult::SingleJoin,
                                s,
                                n,
                            ),
                        ),
                        SubqueryType::Any => match quantified_condition(q) {
                            None => None,
                            Some(condition) => {
                                let (marker, s2) = marker_of(q, s);
                                Some(
                                    (
                                        binary(
                                            correlated_join(
                                                JoinType::RightMark,
                                                outer_keys,
                                                derived_keys,
                                                seq![condition],
                                                Some(marker),
                                            ),
                                            left,
                                            plan,
                                        ),
                                        UnnestResult::MarkJoin { marker_index: marker },
                                        s2,
                                        n,
                                    ),
                                )
                            },
                        },
                        _ => {
                            let (marker, s2) = marker_of(q, s);
                            Some(
                                (
                                    binary(
                                        correlated_join(
                                            JoinType::RightMark,
                                            outer_keys,
                                            derived_keys,
                                            Seq::empty(),
                                            Some(marker),
                                        ),
                                        left,
                                        plan,
                                    ),
                                    UnnestResult::MarkJoin { marker_index: marker },
                                    s2,
                                    n,
                                ),
                            )
                        },
                    },
                },
            }
        },
    }
}

/// An `EXISTS` over a filtered scan that stands as a conjunct of a filter
/// becomes a left semi join directly, and a `NOT EXISTS` a left anti join:
/// the join has no marker, its left input is the enclosing plan under the
/// predicates that read it alone, and the registry gains no column.
///
/// This holds of a correlated subquery whose plan is a projection over a
/// filter over a scan, where the scan does not refer to the enclosing query,
/// the properties of the enclosing plan can be derived, and the keys of
/// every equality between the two sides have a common type.
pub proof fn exists_becomes_semi_join(
    input: SExprView,
    q: SubqueryView,
    st: RewriterView,
    counted: bool,
)
    requires
        q.typ == SubqueryType::Exists || q.typ == SubqueryType::NotExists,
        q.outer_columns != Set::<usize>::empty(),
        is_filtered_scan(*q.subquery),
        derivable(input),
        outer_columns(q.subquery.children[0].children[0]) == Set::<usize>::empty(),
        split_predicates(
            q.subquery.children[0].plan->Filter_0.predicates,
            output_columns(input),
            output_columns(q.subquery.children[0]),
        ) is Some,
    ensures
        decorrelated(input, q, st, counted, true) is Some,
        ({
            let (t, how, s, n) = decorrelated(input, q, st, counted, true)->Some_0;
            let conditions = split_predicates(
                q.subquery.children[0].plan->Filter_0.predicates,
                output_columns(input),
                output_columns(q.subquery.children[0]),
            )->Some_0;
            &&& how == UnnestResult::SimpleJoin
            &&& s == st
            &&& n == counted
            &&& t.plan is Join
            &&& t.plan->Join_0.join_type == (if q.typ == SubqueryType::Exists {
                JoinType::LeftSemi
            } else {
                JoinType::LeftAnti
            })
            &&& t.plan->Join_0.marker_index is None
            &&& t.plan->Join_0.left_conditions == conditions.left_conditions
            &&& t.plan->Join_0.right_conditions == conditions.right_conditions
            &&& t.plan->Join_0.non_equi_conditions == conditions.non_equi_conditions
            &&& t.children.len() == 2
            &&& t.children[0] == filtered(conditions.left_filters, input)
        }),
{
}

/// A scalar subquery becomes a single join of the enclosing plan with the
/// flattened subquery: the join has one pair of keys for each correlated
/// column, no other condition and no marker, and the registry gains nothing
/// beyond what flattening adds.
pub proof fn scalar_subquery_becomes_single_join(
    left: SExprView,
    q: SubqueryView,
    st: RewriterView,
    counted: bool,
    is_conjunctive_predicate: bool,
)
    requires
        q.typ == SubqueryType::Scalar,
        decorrelated(left, q, st, counted, is_conjunctive_predicate) is Some,
    ensures
        flattened(*q.subquery, q.outer_columns, st, counted, false) is Some,
        ({
            let (t, how, s, n) = decorrelated(left, q, st, counted, is_conjunctive_predicate)->Some_0;
            let (inner, after, met) = flattened(
                *q.subquery,
                q.outer_columns,
                st,
                counted,
                false,
            )->Some_0;
            &&& how == UnnestResult::SingleJoin
            &&& s == after
            &&& n == met
            &&& t.plan is Join
            &&& t.plan->Join_0.join_type == JoinType::Single
            &&& t.plan->Join_0.marker_index is None
            &&& t.plan->Join_0.from_correlated_subquery
            &&& t.plan->Join_0.non_equi_conditions == Seq::<ScalarView>::empty()
            &&& t.plan->Join_0.left_conditions.len() == ordered(q.outer_columns).len()
            &&& t.plan->Join_0.right_conditions.len() == ordered(q.outer_columns).len()
            &&& forall|i: int|
                0 <= i < ordered(q.outer_columns).len() ==> Some(
                    (
                        t.plan->Join_0.right_conditions[i],
                        #[trigger] t.plan->Join_0.left_conditions[i],
                    ),
                ) == key_pair(q.span, ordered(q.outer_columns)[i], after)
            &&& t.children == seq![left, inner]
        }),
{
}

/// A filter that is not a `HAVING` clause, over `plan`; `plan` itself
/// where there is no predicate.
pub fn filter_over(predicates: Vec<ScalarExpr>, plan: SExpr) -> (r: SExpr)
    ensures
        r@ == filtered(scalars_view(predicates), plan@),
{
    if predicates.len() > 0 {
        let op = RelOperator::Filter(Filter { predicates, is_having: false });
        proof {
            reveal_with_fuel(operator_view, 2);
        }
        SExpr::create_unary(op, plan)
    } else {
        plan
    }
}

/// The join that stands for a correlated subquery.
pub fn make_correlated_join(
    join_type: JoinType,
    left_conditions: Vec<ScalarExpr>,
    right_conditions: Vec<ScalarExpr>,
    non_equi_conditions: Vec<ScalarExpr>,
    marker_index: Option<usize>,
) -> (r: RelOperator)
    ensures
        r@ == correlated_join(
            join_type,
            scalars_view(left_conditions),
            scalars_view(right_conditions),
            scalars_view(non_equi_conditions),
            marker_index,
        ),
{
    let join = Join {
        left_conditions,
        right_conditions,
        non_equi_conditions,
        join_type,
        marker_index,
        from_correlated_subquery: true,
        contain_runtime_filter: false,
    };
    proof {
        reveal_with_fuel(operator_view, 2);
    }
    RelOperator::Join(join)
}

/// Whether `plan` is a projection over a filter over a scan.
pub fn match_filtered_scan(plan: &SExpr) -> (b: bool)
    ensures
        b == is_filtered_scan(plan@),
{
    proof {
        sexpr_view_parts(*plan);
        reveal_with_fuel(operator_view, 1);
    }
    if let RelOperator::EvalScalar(_) = &plan.plan {
        if plan.children.len() == 1 {
            let filter_tree = &plan.children[0];
            proof {
                sexpr_view_parts(*filter_tree);
            }
            if let RelOperator::Filter(_) = &filter_tree.plan {
                if filter_tree.children.len() == 1 {
                    let scan_tree = &filter_tree.children[0];
                    proof {
                        sexpr_view_parts(*scan_tree);
                    }
                    if let RelOperator::Scan(_) = &scan_tree.plan {
                        return scan_tree.children.len() == 0;
                    }
                }
            }
        }
    }
    false
}

/// The quantified comparison of `subquery` as a condition of the join.
pub fn make_quantified_condition(subquery: &SubqueryExpr) -> (r: Result<ScalarExpr, ErrorCode>)
    ensures
        match quantified_condition(subquery@) {
            Some(c) => r is Ok && r->Ok_0@ == c,
            None => r is Err && r->Err_0.code == INTERNAL,
        },
        r is Err ==> Some(r->Err_0.message@) == quantified_failure(subquery@),
        r is Ok ==> quantified_failure(subquery@) is None,
{
    proof {
        reveal_with_fuel(scalar_view, 2);
    }
    let child_expr = match &subquery.child_expr {
        Some(c) => clone_scalar(c),
        None => {
            return Err(ErrorCode::internal("Quantified subquery has no left side"));
        },
    };
    let op = match subquery.compare_op {
        Some(op) => op,
        None => {
            return Err(ErrorCode::internal("Quantified subquery has no comparison operator"));
        },
    };
    let column = make_column_ref(
        subquery.span,
        subquery_column_name(subquery.output_column.index),
        subquery.output_column.index,
        subquery.output_column.data_type.clone(),
        Visibility::Visible,
    );
    let right_condition = wrap_cast(&column, &subquery.data_type);
    Ok(
        ScalarExpr::ComparisonExpr {
            op,
            left: Box::new(child_expr),
            right: Box::new(right_condition),
        },
    )
}

impl SubqueryRewriter {
    /// Tries to turn an `EXISTS` or `NOT EXISTS` over a filtered scan
    /// straight into a semi or an anti join of `input` with the scan.
    pub fn try_decorrelate_simple_subquery(&self, input: &SExpr, subquery: &SubqueryExpr) -> (r:
        Result<Option<SExpr>, ErrorCode>)
        ensures
            match simply_decorrelated(input@, subquery@) {
                Some(Some(t)) => r is Ok && r->Ok_0 is Some && r->Ok_0->Some_0@ == t,
                Some(None) => r is Ok && r->Ok_0 is None,
                None => r is Err && r->Err_0.code == INTERNAL && r->Err_0.message@
                    == simple_failure_message(input@),
            },
    {
        if subquery.outer_columns.is_empty() {
            return Ok(None);
        }
        let eval = &*subquery.subquery;
        if !match_filtered_scan(eval) {
            return Ok(None);
        }
        proof {
            sexpr_view_parts(*eval);
        }
        let filter_tree = &eval.children[0];
        proof {
            sexpr_view_parts(*filter_tree);
            sexpr_view_parts(filter_tree.children[0]);
            assert(derivable(filter_tree.children[0]@));
            assert(derivable(filter_tree@));
        }
        let filter_prop = match derive_relational_prop(filter_tree) {
            Ok(p) => p,
            Err(e) => {
                return Err(e);
            },
        };
        let filter_child_prop = match derive_relational_prop(&filter_tree.children[0]) {
            Ok(p) => p,
            Err(e) => {
                return Err(e);
            },
        };
        let input_prop = match derive_relational_prop(input) {
            Ok(p) => p,
            Err(e) => {
                return Err(e);
            },
        };
        // First, the scan itself must not refer to the enclosing query.
        if !filter_child_prop.outer_columns.is_empty() {
            return Ok(None);
        }
        // Second, sort the predicates of the filter by the side they read.
        let conditions = match &filter_tree.plan {
            RelOperator::Filter(filter) => {
                proof {
                    reveal_with_fuel(operator_view, 2);
                }
                match split_join_predicates(&filter.predicates, &input_prop, &filter_prop) {
                    Ok(c) => c,
                    Err(e) => {
                        return Err(e);
                    },
                }
            },
            _ => {
                proof {
                    reveal_with_fuel(operator_view, 1);
                }
                assert(false);
                return Err(ErrorCode::internal("Cannot find common type"));
            },
        };
        let join_type = match subquery.typ {
            SubqueryType::Exists => JoinType::LeftSemi,
            SubqueryType::NotExists => JoinType::LeftAnti,
            _ => {
                return Ok(None);
            },
        };
        let join = make_correlated_join(
            join_type,
            conditions.left_conditions,
            conditions.right_conditions,
            conditions.non_equi_conditions,
            None,
        );
        // The enclosing plan, under the predicates that read it alone.
        let left_child = filter_over(conditions.left_filters, input.clone());
        // The subquery without its filter.
        let right_child = filter_over(
            conditions.right_filters,
            SExpr::create_unary(
                eval.plan.clone(),
                SExpr::create_unary(
                    eval.plan.clone(),
                    SExpr::create_leaf(filter_tree.children[0].plan.clone()),
                ),
            ),
        );
        Ok(Some(SExpr::create_binary(join, left_child, right_child)))
    }

    /// The index of the marker column for `subquery`: the column it
    /// projects to, or else a fresh one.
    pub fn marker_index(&mut self, subquery: &SubqueryExpr) -> (marker: usize)
        ensures
            (marker, final(self)@) == marker_of(subquery@, old(self)@),
    {
        match subquery.projection_index {
            Some(i) => i,
            None => self.metadata.add_derived_column(
                String::from_str("marker"),
                DataType::Nullable(Box::new(DataType::Boolean)),
            ),
        }
    }

    /// Turns `subquery` over `left` into a join of `left` with the
    /// flattened subquery.
    pub fn try_decorrelate_subquery(
        &mut self,
        left: &SExpr,
        subquery: &SubqueryExpr,
        flatten_info: &mut FlattenInfo,
        is_conjunctive_predicate: bool,
    ) -> (r: Result<(SExpr, UnnestResult), ErrorCode>)
        ensures
            match decorrelated(
                left@,
                subquery@,
                old(self)@,
                old(flatten_info).from_count_func,
                is_conjunctive_predicate,
            ) {
                Some((t, u, s, n)) => {
                    &&& r is Ok
                    &&& r->Ok_0.0@ == t
                    &&& r->Ok_0.1 == u
                    &&& final(self)@ == s
                    &&& final(flatten_info).from_count_func == n
                },
                None => r is Err && r->Err_0.code == INTERNAL,
            },
            r is Err ==> Some(r->Err_0.message@) == decorrelate_failure(
                left@,
                subquery@,
                old(self)@,
                old(flatten_info).from_count_func,
                is_conjunctive_predicate,
            ),
    {
        proof {
            flatten_failure_matches(
                *subquery@.subquery,
                subquery@.outer_columns,
                old(self)@,
                old(flatten_info).from_count_func,
                false,
            );
        }
        let exists = match subquery.typ {
            SubqueryType::Exists | SubqueryType::NotExists => true,
            _ => false,
        };
        if exists && is_conjunctive_predicate {
            match self.try_decorrelate_simple_subquery(left, subquery) {
                Ok(Some(result)) => {
                    return Ok((result, UnnestResult::SimpleJoin));
                },
                Ok(None) => {},
                Err(e) => {
                    return Err(e);
                },
            }
        }
        if let SubqueryType::All = subquery.typ {
            return Err(ErrorCode::internal("ALL subquery cannot be decorrelated"));
        }
        let flatten_plan = match self.flatten(
            &subquery.subquery,
            &subquery.outer_columns,
            flatten_info,
            false,
        ) {
            Ok(p) => p,
            Err(e) => {
                return Err(e);
            },
        };
        let mut derived_keys: Vec<ScalarExpr> = Vec::new();
        let mut outer_keys: Vec<ScalarExpr> = Vec::new();
        proof {
            assert(scalars_view(derived_keys) =~= Seq::empty());
            assert(scalars_view(outer_keys) =~= Seq::empty());
        }
        match self.add_equi_conditions(
            subquery.span,
            &subquery.outer_columns,
            &mut derived_keys,
            &mut outer_keys,
        ) {
            Ok(()) => {},
            Err(e) => {
                return Err(e);
            },
        }
        proof {
            let pair = equi_conditions(subquery.span, subquery.outer_columns@, self@)->Some_0;
            assert(Seq::<ScalarView>::empty() + pair.0 =~= pair.0);
            assert(Seq::<ScalarView>::empty() + pair.1 =~= pair.1);
        }
        match subquery.typ {
            SubqueryType::Scalar => {
                let none: Vec<ScalarExpr> = Vec::new();
                assert(scalars_view(none) =~= Seq::empty());
                let join = make_correlated_join(
                    JoinType::Single,
                    outer_keys,
                    derived_keys,
                    none,
                    None,
                );
                Ok((SExpr::create_binary(join, left.clone(), flatten_plan), UnnestResult::SingleJoin))
            },
            SubqueryType::Any => {
                let condition = match make_quantified_condition(subquery) {
                    Ok(c) => c,
                    Err(e) => {
                        return Err(e);
                    },
                };
                let mut non_equi: Vec<ScalarExpr> = Vec::new();
                non_equi.push(condition);
                assert(scalars_view(non_equi) =~= seq![condition@]);
                let marker = self.marker_index(subquery);
                let join = make_correlated_join(
                    JoinType::RightMark,
                    outer_keys,
                    derived_keys,
                    non_equi,
                    Some(marker),
                );
                Ok(
                    (
                        SExpr::create_binary(join, left.clone(), flatten_plan),
                        UnnestResult::MarkJoin { marker_index: marker },
                    ),
                )
            },
            _ => {
                let none: Vec<ScalarExpr> = Vec::new();
                assert(scalars_view(none) =~= Seq::empty());
                let marker = self.marker_index(subquery);
                let join = make_correlated_join(
                    JoinType::RightMark,
                    outer_keys,
                    derived_keys,
                    none,
                    Some(marker),
                );
                Ok(
                    (
                        SExpr::create_binary(join, left.clone(), flatten_plan),
                        UnnestResult::MarkJoin { marker_index: marker },
                    ),
                )
            },
        }
    }
}

} // verus!
