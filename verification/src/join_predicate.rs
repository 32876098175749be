//! The sides of a join that a predicate speaks of.
//!
//! When a filter over a subquery is turned into the condition of a join,
//! each predicate is sorted by the inputs whose columns it reads: the left
//! input only, the right input only, or both. A predicate that reads both
//! becomes an equality condition of the join only if it is an equality with
//! one side from each input; every other one becomes a further condition
//! that is checked on the joined rows.

use crate::error::{ErrorCode, INTERNAL};
use crate::ir::{ComparisonOp, ScalarExpr, ScalarView, scalar_view, scalars_view};
use crate::property::{RelationalProperty};
use crate::scalar::{cast_to, contain_subquery, data_type_of, has_subquery, used_columns, wrap_cast};
use crate::types::{common_super_type, super_type};
use vstd::prelude::*;

verus! {

/// A predicate, sorted by the inputs it reads.
pub enum JoinPredicate<'a> {
    /// Reads columns of the left input only.
    Left(&'a ScalarExpr),
    /// Reads columns of the right input only.
    Right(&'a ScalarExpr),
    /// An equality between a scalar over the left input and one over the
    /// right input.
    Both { left: &'a ScalarExpr, right: &'a ScalarExpr },
    /// Anything else.
    Other(&'a ScalarExpr),
}

/// The view of a sorted predicate.
pub ghost enum JoinPredicateView {
    Left(ScalarView),
    Right(ScalarView),
    Both { left: ScalarView, right: ScalarView },
    Other(ScalarView),
}

impl<'a> View for JoinPredicate<'a> {
    type V = JoinPredicateView;

    open spec fn view(&self) -> JoinPredicateView {
        match self {
            JoinPredicate::Left(p) => JoinPredicateView::Left(p@),
            JoinPredicate::Right(p) => JoinPredicateView::Right(p@),
            JoinPredicate::Both { left, right } => JoinPredicateView::Both {
                left: left@,
                right: right@,
            },
            JoinPredicate::Other(p) => JoinPredicateView::Other(p@),
        }
    }
}

/// Whether the scalar reads only columns that the input hands on.
pub open spec fn satisfied_by(e: ScalarView, output: Set<usize>) -> bool {
    used_columns(e).subset_of(output)
}

/// The predicate sorted by the inputs it reads, given what the left and
/// the right input hand on.
///
/// A predicate that holds a subquery is never taken apart. One that the
/// left input satisfies alone goes left, one that the right input
/// satisfies alone goes right. Of the rest, an equality whose sides are
/// satisfied by one input each becomes a pair, the side of the left input
/// first. Everything else is a condition on the joined rows.
pub open spec fn classify(p: ScalarView, left: Set<usize>, right: Set<usize>) -> JoinPredicateView {
    if has_subquery(p) {
        JoinPredicateView::Other(p)
    } else if satisfied_by(p, left) {
        JoinPredicateView::Left(p)
    } else if satisfied_by(p, right) {
        JoinPredicateView::Right(p)
    } else {
        match p {
            ScalarView::ComparisonExpr { op, left: l, right: r } => if op == ComparisonOp::Equal {
                if satisfied_by(*l, left) && satisfied_by(*r, right) {
                    JoinPredicateView::Both { left: *l, right: *r }
                } else if satisfied_by(*r, left) && satisfied_by(*l, right) {
                    JoinPredicateView::Both { left: *r, right: *l }
                } else {
                    JoinPredicateView::Other(p)
                }
            } else {
                JoinPredicateView::Other(p)
            },
            _ => JoinPredicateView::Other(p),
        }
    }
}

impl<'a> JoinPredicate<'a> {
    /// Sorts `scalar` by the inputs it reads.
    pub fn new(
        scalar: &'a ScalarExpr,
        left_prop: &RelationalProperty,
        right_prop: &RelationalProperty,
    ) -> (r: JoinPredicate<'a>)
        ensures
            r@ == classify(scalar@, left_prop.output_columns@, right_prop.output_columns@),
    {
        proof {
            reveal_with_fuel(scalar_view, 2);
        }
        if contain_subquery(scalar) {
            return JoinPredicate::Other(scalar);
        }
        let used = scalar.used_columns();
        if used.is_subset(&left_prop.output_columns) {
            return JoinPredicate::Left(scalar);
        }
        if used.is_subset(&right_prop.output_columns) {
            return JoinPredicate::Right(scalar);
        }
        if let ScalarExpr::ComparisonExpr { op, left, right } = scalar {
            if *op == ComparisonOp::Equal {
                let left_used = left.used_columns();
                let right_used = right.used_columns();
                if left_used.is_subset(&left_prop.output_columns) && right_used.is_subset(
                    &right_prop.output_columns,
                ) {
                    return JoinPredicate::Both { left: &**left, right: &**right };
                }
                if right_used.is_subset(&left_prop.output_columns) && left_used.is_subset(
                    &right_prop.output_columns,
                ) {
                    return JoinPredicate::Both { left: &**right, right: &**left };
                }
            }
        }
        JoinPredicate::Other(scalar)
    }
}

/// The message of the error for keys whose types have no common type.
pub open spec fn no_common_type_message() -> Seq<char> {
    "Cannot find common type"@
}

/// The two keys of an equality condition, brought to one type.
///
/// Keys of the same type stay as they are. Keys of different types are
/// each put under an explicit cast to their common type; where they have
/// none, there is no condition.
pub open spec fn equi_pair(left: ScalarView, right: ScalarView) -> Option<(ScalarView, ScalarView)> {
    if data_type_of(left) == data_type_of(right) {
        Some((left, right))
    } else {
        match super_type(data_type_of(left), data_type_of(right)) {
            Some(t) => Some((cast_to(left, t), cast_to(right, t))),
            None => None,
        }
    }
}

/// The two keys of an equality condition, brought to one type; an internal
/// error where the types of the keys have no common type.
pub fn make_equi_pair(left: &ScalarExpr, right: &ScalarExpr) -> (r: Result<
    (ScalarExpr, ScalarExpr),
    ErrorCode,
>)
    ensures
        match equi_pair(left@, right@) {
            Some((l, r2)) => r is Ok && r->Ok_0.0@ == l && r->Ok_0.1@ == r2,
            None => r is Err && r->Err_0.code == INTERNAL && r->Err_0.message@
                == no_common_type_message(),
        },
{
    let left_type = left.data_type();
    let right_type = right.data_type();
    if left_type.same(&right_type) {
        return Ok((left.clone(), right.clone()));
    }
    match common_super_type(&left_type, &right_type) {
        Some(t) => Ok((wrap_cast(left, &t), wrap_cast(right, &t))),
        None => Err(ErrorCode::internal("Cannot find common type")),
    }
}

/// The predicates of a filter, sorted into the parts of a join.
#[derive(Debug, PartialEq, Eq)]
pub struct JoinConditions {
    /// The keys over the left input; row `i` pairs with row `i` of
    /// `right_conditions`.
    pub left_conditions: Vec<ScalarExpr>,
    /// The keys over the right input.
    pub right_conditions: Vec<ScalarExpr>,
    /// The conditions on the joined rows.
    pub non_equi_conditions: Vec<ScalarExpr>,
    /// The predicates over the left input alone.
    pub left_filters: Vec<ScalarExpr>,
    /// The predicates over the right input alone.
    pub right_filters: Vec<ScalarExpr>,
}

/// The view of sorted predicates.
pub ghost struct JoinConditionsView {
    pub left_conditions: Seq<ScalarView>,
    pub right_conditions: Seq<ScalarView>,
    pub non_equi_conditions: Seq<ScalarView>,
    pub left_filters: Seq<ScalarView>,
    pub right_filters: Seq<ScalarView>,
}

impl View for JoinConditions {
    type V = JoinConditionsView;

    open spec fn view(&self) -> JoinConditionsView {
        JoinConditionsView {
            left_conditions: scalars_view(self.left_conditions),
            right_conditions: scalars_view(self.right_conditions),
            non_equi_conditions: scalars_view(self.non_equi_conditions),
            left_filters: scalars_view(self.left_filters),
            right_filters: scalars_view(self.right_filters),
        }
    }
}

/// No predicate sorted yet.
pub open spec fn no_conditions() -> JoinConditionsView {
    JoinConditionsView {
        left_conditions: Seq::empty(),
        right_conditions: Seq::empty(),
        non_equi_conditions: Seq::empty(),
        left_filters: Seq::empty(),
        right_filters: Seq::empty(),
    }
}

/// The sorted predicates with one more predicate sorted in; `None` where
/// the predicate is an equality whose keys have no common type.
pub open spec fn sort_in(acc: JoinConditionsView, p: ScalarView, left: Set<usize>, right: Set<usize>) -> Option<
    JoinConditionsView,
> {
    match classify(p, left, right) {
        JoinPredicateView::Left(f) => Some(
            JoinConditionsView { left_filters: acc.left_filters.push(f), ..acc },
        ),
        JoinPredicateView::Right(f) => Some(
            JoinConditionsView { right_filters: acc.right_filters.push(f), ..acc },
        ),
        JoinPredicateView::Other(f) => Some(
            JoinConditionsView { non_equi_conditions: acc.non_equi_conditions.push(f), ..acc },
        ),
        JoinPredicateView::Both { left: l, right: r } => match equi_pair(l, r) {
            Some((a, b)) => Some(
                JoinConditionsView {
                    left_conditions: acc.left_conditions.push(a),
                    right_conditions: acc.right_conditions.push(b),
                    ..acc
                },
            ),
            None => None,
        },
    }
}

/// The predicates sorted, first to last; `None` where one of them is an
/// equality whose keys have no common type.
pub open spec fn split_predicates(predicates: Seq<ScalarView>, left: Set<usize>, right: Set<usize>) -> Option<
    JoinConditionsView,
>
    decreases predicates.len(),
{
    if predicates.len() == 0 {
        Some(no_conditions())
    } else {
        match split_predicates(predicates.drop_last(), left, right) {
            Some(acc) => sort_in(acc, predicates.last(), left, right),
            None => None,
        }
    }
}

/// Once a predicate could not be sorted, sorting more of them does not
/// mend it.
pub proof fn split_predicates_fails(
    predicates: Seq<ScalarView>,
    n: int,
    left: Set<usize>,
    right: Set<usize>,
)
    requires
        0 <= n <= predicates.len(),
        split_predicates(predicates.take(n), left, right) is None,
    ensures
        split_predicates(predicates, left, right) is None,
    decreases predicates.len() - n,
{
    if n < predicates.len() {
        assert(predicates.take(n + 1).drop_last() =~= predicates.take(n));
        split_predicates_fails(predicates, n + 1, left, right);
    } else {
        assert(predicates.take(n) =~= predicates);
    }
}

/// A vector with one more scalar at its end.
fn pushed(v: Vec<ScalarExpr>, e: ScalarExpr) -> (r: Vec<ScalarExpr>)
    ensures
        scalars_view(r) == scalars_view(v).push(e@),
{
    let mut r = v;
    r.push(e);
    assert(scalars_view(r) =~= scalars_view(v).push(e@));
    r
}

/// `acc` with `predicate` sorted in.
pub fn sort_predicate_in(
    acc: JoinConditions,
    predicate: &ScalarExpr,
    left_prop: &RelationalProperty,
    right_prop: &RelationalProperty,
) -> (r: Result<JoinConditions, ErrorCode>)
    ensures
        match sort_in(acc@, predicate@, left_prop.output_columns@, right_prop.output_columns@) {
            Some(s) => r is Ok && r->Ok_0@ == s,
            None => r is Err && r->Err_0.code == INTERNAL && r->Err_0.message@
                == no_common_type_message(),
        },
{
    match JoinPredicate::new(predicate, left_prop, right_prop) {
        JoinPredicate::Left(f) => Ok(
            JoinConditions {
                left_conditions: acc.left_conditions,
                right_conditions: acc.right_conditions,
                non_equi_conditions: acc.non_equi_conditions,
                left_filters: pushed(acc.left_filters, f.clone()),
                right_filters: acc.right_filters,
            },
        ),
        JoinPredicate::Right(f) => Ok(
            JoinConditions {
                left_conditions: acc.left_conditions,
                right_conditions: acc.right_conditions,
                non_equi_conditions: acc.non_equi_conditions,
                left_filters: acc.left_filters,
                right_filters: pushed(acc.right_filters, f.clone()),
            },
        ),
        JoinPredicate::Other(f) => Ok(
            JoinConditions {
                left_conditions: acc.left_conditions,
                right_conditions: acc.right_conditions,
                non_equi_conditions: pushed(acc.non_equi_conditions, f.clone()),
                left_filters: acc.left_filters,
                right_filters: acc.right_filters,
            },
        ),
        JoinPredicate::Both { left, right } => match make_equi_pair(left, right) {
            Ok((a, b)) => Ok(
                JoinConditions {
                    left_conditions: pushed(acc.left_conditions, a),
                    right_conditions: pushed(acc.right_conditions, b),
                    non_equi_conditions: acc.non_equi_conditions,
                    left_filters: acc.left_filters,
                    right_filters: acc.right_filters,
                },
            ),
            Err(e) => Err(e),
        },
    }
}

/// Sorts the predicates of a filter into the parts of a join between an
/// input with the properties `left_prop` and one with `right_prop`.
pub fn split_join_predicates(
    predicates: &Vec<ScalarExpr>,
    left_prop: &RelationalProperty,
    right_prop: &RelationalProperty,
) -> (r: Result<JoinConditions, ErrorCode>)
    ensures
        match split_predicates(
            scalars_view(*predicates),
            left_prop.output_columns@,
            right_prop.output_columns@,
        ) {
            Some(s) => r is Ok && r->Ok_0@ == s,
            None => r is Err && r->Err_0.code == INTERNAL && r->Err_0.message@
                == no_common_type_message(),
        },
{
    let ghost all = scalars_view(*predicates);
    let ghost left = left_prop.output_columns@;
    let ghost right = right_prop.output_columns@;
    let mut acc = JoinConditions {
        left_conditions: Vec::new(),
        right_conditions: Vec::new(),
        non_equi_conditions: Vec::new(),
        left_filters: Vec::new(),
        right_filters: Vec::new(),
    };
    proof {
        assert(all.take(0) =~= Seq::empty());
        assert(acc@.left_conditions =~= Seq::empty());
        assert(acc@.right_conditions =~= Seq::empty());
        assert(acc@.non_equi_conditions =~= Seq::empty());
        assert(acc@.left_filters =~= Seq::empty());
        assert(acc@.right_filters =~= Seq::empty());
    }
    let mut i: usize = 0;
    while i < predicates.len()
        invariant
            i <= predicates.len(),
            all == scalars_view(*predicates),
            left == left_prop.output_columns@,
            right == right_prop.output_columns@,
            split_predicates(all.take(i as int), left, right) == Some(acc@),
        decreases predicates.len() - i,
    {
        proof {
            assert(all.take(i + 1).drop_last() =~= all.take(i as int));
            assert(all.take(i + 1).last() == all[i as int]);
            assert(predicates[i as int]@ == all[i as int]);
        }
        acc = match sort_predicate_in(acc, &predicates[i], left_prop, right_prop) {
            Ok(a) => a,
            Err(e) => {
                proof {
                    split_predicates_fails(all, i + 1, left, right);
                }
                return Err(e);
            },
        };
        i = i + 1;
    }
    assert(all.take(predicates.len() as int) =~= all);
    Ok(acc)
}

/// Only an equality becomes a pair of join keys: a predicate that is
/// sorted as a pair is a comparison for equality, holds no subquery, is
/// satisfied by neither input alone, and has one side satisfied by each
/// input.
pub proof fn only_equalities_pair(p: ScalarView, left: Set<usize>, right: Set<usize>)
    requires
        classify(p, left, right) is Both,
    ensures
        p is ComparisonExpr,
        p->ComparisonExpr_op == ComparisonOp::Equal,
        !has_subquery(p),
        !satisfied_by(p, left),
        !satisfied_by(p, right),
        satisfied_by(classify(p, left, right)->Both_left, left),
        satisfied_by(classify(p, left, right)->Both_right, right),
{
}

/// A comparison other than equality never becomes a pair of join keys.
/// Where it reads columns of both inputs, it is a condition on the joined
/// rows.
pub proof fn other_comparisons_do_not_pair(
    op: ComparisonOp,
    l: ScalarView,
    r: ScalarView,
    left: Set<usize>,
    right: Set<usize>,
)
    requires
        op != ComparisonOp::Equal,
    ensures
        !(classify(ScalarView::ComparisonExpr { op, left: Box::new(l), right: Box::new(r) }, left, right)
            is Both),
        !satisfied_by(
            ScalarView::ComparisonExpr { op, left: Box::new(l), right: Box::new(r) },
            left,
        ) && !satisfied_by(
            ScalarView::ComparisonExpr { op, left: Box::new(l), right: Box::new(r) },
            right,
        ) ==> classify(
            ScalarView::ComparisonExpr { op, left: Box::new(l), right: Box::new(r) },
            left,
            right,
        ) is Other,
{
}

/// Every predicate lands in exactly one part, and the keys come in pairs.
pub proof fn split_places_each_once(predicates: Seq<ScalarView>, left: Set<usize>, right: Set<usize>)
    requires
        split_predicates(predicates, left, right) is Some,
    ensures
        ({
            let s = split_predicates(predicates, left, right)->Some_0;
            &&& s.left_conditions.len() == s.right_conditions.len()
            &&& s.left_conditions.len() + s.non_equi_conditions.len() + s.left_filters.len()
                + s.right_filters.len() == predicates.len()
        }),
    decreases predicates.len(),
{
    if predicates.len() > 0 {
        split_places_each_once(predicates.drop_last(), left, right);
    }
}

/// The two keys of a condition have the same type. Keys whose types
/// differed are both under an explicit cast to the common type of the two;
/// keys whose types agreed are untouched.
pub proof fn equi_pair_is_typed(left: ScalarView, right: ScalarView)
    requires
        equi_pair(left, right) is Some,
    ensures
        ({
            let (a, b) = equi_pair(left, right)->Some_0;
            &&& data_type_of(a) == data_type_of(b)
            &&& data_type_of(left) == data_type_of(right) ==> a == left && b == right
            &&& data_type_of(left) != data_type_of(right) ==> {
                &&& super_type(data_type_of(left), data_type_of(right)) is Some
                &&& a == cast_to(left, super_type(data_type_of(left), data_type_of(right))->Some_0)
                &&& b == cast_to(right, super_type(data_type_of(left), data_type_of(right))->Some_0)
            }
        }),
{
}

/// Every pair of join keys that sorting produces has one type on both
/// sides.
pub proof fn split_keys_are_typed(predicates: Seq<ScalarView>, left: Set<usize>, right: Set<usize>)
    requires
        split_predicates(predicates, left, right) is Some,
    ensures
        ({
            let s = split_predicates(predicates, left, right)->Some_0;
            &&& s.left_conditions.len() == s.right_conditions.len()
            &&& forall|i: int|
                0 <= i < s.left_conditions.len() ==> data_type_of(#[trigger] s.left_conditions[i])
                    == data_type_of(s.right_conditions[i])
        }),
    decreases predicates.len(),
{
    if predicates.len() > 0 {
        split_keys_are_typed(predicates.drop_last(), left, right);
        let acc = split_predicates(predicates.drop_last(), left, right)->Some_0;
        match classify(predicates.last(), left, right) {
            JoinPredicateView::Both { left: l, right: r } => {
                equi_pair_is_typed(l, r);
            },
            _ => {},
        }
    }
}

} // verus!
