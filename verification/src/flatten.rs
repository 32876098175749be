//! Flattening: the recursive rewrite that pushes the columns of the
//! enclosing query down through the plan of a subquery, until no reference
//! to the enclosing query is left in it.
//!
//! Each correlated column gets a *derived* column that stands for it
//! inside the flattened plan. The rewriter records the pairs in
//! `derived_columns`. A derived column is either a fresh column, read from
//! a scan that is cross-joined below the subquery, or, where a filter
//! equates the correlated column with a column of the subquery, that column
//! itself.

use crate::columns::{ColumnMap, ColumnSet, ordered, ordered_facts, values_by_key};
use crate::copy::{clone_index_lists, clone_indexes, clone_literals, clone_scalars, missing_input_message};
use crate::error::{ErrorCode, INTERNAL, Span};
use crate::ir::{Aggregate, AggregateFunction, AggregateFunctionView, AggregateMode, AggregateView, ComparisonOp, EvalScalar, EvalScalarView, Filter, FilterView, Join, JoinType, JoinView, Limit, RelOperator, RelOperatorView, SExpr, SExprView, ScalarExpr, ScalarItem, ScalarItemView, ScalarView, Scan, ScanView, Sort, UnionAll, Visibility, items_view, operator_view, scalar_view, scalars_view, sexpr_view_parts};
use crate::join_predicate::{equi_pair, equi_pair_is_typed, make_equi_pair, no_common_type_message};
use crate::metadata::{Metadata, MetadataView, entry_name, entry_type, owning_table, with_derived};
use crate::property::{derivable, derive_relational_prop, operator_used, operator_used_columns, outer_columns, underivable_message};
use crate::prune::{binary, leaf, unary};
use crate::scalar::{cast_to, column_ref, data_type_of, items_used_columns, make_column_ref, used_columns, used_in, used_in_items};
use crate::text::{eq_ignore_ascii_case, same_ignoring_ascii_case, subquery_column_name, subquery_name};
use crate::types::{super_type, wrapped_nullable};
use vstd::prelude::*;

verus! {

/// The view of the rewriter's state.
pub ghost struct RewriterView {
    pub metadata: MetadataView,
    pub derived_columns: Map<usize, usize>,
}

/// The scalar with every reference to a correlated column replaced by a
/// reference to its derived column; `None` where the scalar cannot be
/// flattened.
///
/// A scalar cannot be flattened where a correlated column has no derived
/// column, or where it holds a subquery, a window function, an unnest or a
/// reference to an internal column.
pub open spec fn flattened_scalar(
    e: ScalarView,
    correlated: Set<usize>,
    derived: Map<usize, usize>,
) -> Option<ScalarView>
    decreases e,
{
    match e {
        ScalarView::BoundColumnRef { span, column } => if correlated.contains(column.index) {
            if derived.dom().contains(column.index) {
                let index = derived[column.index];
                Some(
                    column_ref(
                        span,
                        subquery_name(index),
                        index,
                        column.data_type,
                        column.visibility,
                    ),
                )
            } else {
                None
            }
        } else {
            Some(e)
        },
        ScalarView::ConstantExpr { .. } => Some(e),
        ScalarView::AndExpr { left, right } => match (
            flattened_scalar(*left, correlated, derived),
            flattened_scalar(*right, correlated, derived),
        ) {
            (Some(l), Some(r)) => Some(
                ScalarView::AndExpr { left: Box::new(l), right: Box::new(r) },
            ),
            _ => None,
        },
        ScalarView::OrExpr { left, right } => match (
            flattened_scalar(*left, correlated, derived),
            flattened_scalar(*right, correlated, derived),
        ) {
            (Some(l), Some(r)) => Some(ScalarView::OrExpr { left: Box::new(l), right: Box::new(r) }),
            _ => None,
        },
        ScalarView::NotExpr { argument } => match flattened_scalar(*argument, correlated, derived) {
            Some(a) => Some(ScalarView::NotExpr { argument: Box::new(a) }),
            None => None,
        },
        ScalarView::ComparisonExpr { op, left, right } => match (
            flattened_scalar(*left, correlated, derived),
            flattened_scalar(*right, correlated, derived),
        ) {
            (Some(l), Some(r)) => Some(
                ScalarView::ComparisonExpr { op, left: Box::new(l), right: Box::new(r) },
            ),
            _ => None,
        },
        ScalarView::AggregateFunction(f) => match flattened_list(f.args, correlated, derived) {
            Some(args) => Some(
                ScalarView::AggregateFunction(AggregateFunctionView { args, ..f }),
            ),
            None => None,
        },
        ScalarView::FunctionCall { span, func_name, params, arguments, return_type } => match flattened_list(
            arguments,
            correlated,
            derived,
        ) {
            Some(args) => Some(
                ScalarView::FunctionCall { span, func_name, params, arguments: args, return_type },
            ),
            None => None,
        },
        ScalarView::CastExpr { span, is_try, argument, target_type } => match flattened_scalar(
            *argument,
            correlated,
            derived,
        ) {
            Some(a) => Some(
                ScalarView::CastExpr { span, is_try, argument: Box::new(a), target_type },
            ),
            None => None,
        },
        _ => None,
    }
}

/// The scalars of `list`, each flattened; `None` where one cannot be.
pub open spec fn flattened_list(
    list: Seq<ScalarView>,
    correlated: Set<usize>,
    derived: Map<usize, usize>,
) -> Option<Seq<ScalarView>>
    decreases list,
{
    if forall|i: int|
        0 <= i < list.len() ==> flattened_scalar(list[i], correlated, derived) is Some {
        Some(
            Seq::new(
                list.len(),
                |i: int|
                    if 0 <= i < list.len() {
                        flattened_scalar(list[i], correlated, derived)->Some_0
                    } else {
                        arbitrary()
                    },
            ),
        )
    } else {
        None
    }
}

/// The message of the error for a correlated column without a derived
/// column.
pub open spec fn no_derived_column_message() -> Seq<char> {
    "Correlated column has no derived column"@
}

/// The message of the error for a scalar of a kind that cannot be
/// flattened.
pub open spec fn invalid_scalar_message() -> Seq<char> {
    "Invalid scalar for flattening subquery"@
}

/// The message of the error with which flattening the scalar fails,
/// `None` where it does not fail: that of the first failure, the parts of the
/// scalar taken from left to right. A reference to a correlated column
/// without a derived column fails; so does a subquery, a window function, an
/// unnest and a reference to an internal column.
pub open spec fn scalar_failure(e: ScalarView, correlated: Set<usize>, derived: Map<usize, usize>) -> Option<
    Seq<char>,
>
    decreases e, 0nat,
{
    match e {
        ScalarView::BoundColumnRef { column, .. } => if correlated.contains(column.index)
            && !derived.dom().contains(column.index) {
            Some(no_derived_column_message())
        } else {
            None
        },
        ScalarView::ConstantExpr { .. } => None,
        ScalarView::AndExpr { left, right } => match scalar_failure(*left, correlated, derived) {
            Some(m) => Some(m),
            None => scalar_failure(*right, correlated, derived),
        },
        ScalarView::OrExpr { left, right } => match scalar_failure(*left, correlated, derived) {
            Some(m) => Some(m),
            None => scalar_failure(*right, correlated, derived),
        },
        ScalarView::ComparisonExpr { left, right, .. } => match scalar_failure(
            *left,
            correlated,
            derived,
        ) {
            Some(m) => Some(m),
            None => scalar_failure(*right, correlated, derived),
        },
        ScalarView::NotExpr { argument } => scalar_failure(*argument, correlated, derived),
        ScalarView::CastExpr { argument, .. } => scalar_failure(*argument, correlated, derived),
        ScalarView::AggregateFunction(f) => list_failure(f.args, 0, correlated, derived),
        ScalarView::FunctionCall { arguments, .. } => list_failure(
            arguments,
            0,
            correlated,
            derived,
        ),
        _ => Some(invalid_scalar_message()),
    }
}

/// The first failure among the scalars of `list` from position `from`
/// on.
pub open spec fn list_failure(
    list: Seq<ScalarView>,
    from: nat,
    correlated: Set<usize>,
    derived: Map<usize, usize>,
) -> Option<Seq<char>>
    decreases list, list.len() - from,
{
    if from >= list.len() {
        None
    } else {
        match scalar_failure(list[from as int], correlated, derived) {
            Some(m) => Some(m),
            None => list_failure(list, from + 1, correlated, derived),
        }
    }
}

/// The first failure among the scalars of `items` from position `from`
/// on.
pub open spec fn items_failure(
    items: Seq<ScalarItemView>,
    from: nat,
    correlated: Set<usize>,
    derived: Map<usize, usize>,
) -> Option<Seq<char>>
    decreases items.len() - from,
{
    if from >= items.len() {
        None
    } else {
        match scalar_failure(items[from as int].scalar, correlated, derived) {
            Some(m) => Some(m),
            None => items_failure(items, from + 1, correlated, derived),
        }
    }
}

/// Flattening a scalar fails exactly where it meets a failure.
pub proof fn scalar_failure_matches(e: ScalarView, correlated: Set<usize>, derived: Map<usize, usize>)
    ensures
        scalar_failure(e, correlated, derived) is None <==> flattened_scalar(
            e,
            correlated,
            derived,
        ) is Some,
    decreases e, 0nat,
{
    match e {
        ScalarView::AndExpr { left, right } => {
            scalar_failure_matches(*left, correlated, derived);
            scalar_failure_matches(*right, correlated, derived);
        },
        ScalarView::OrExpr { left, right } => {
            scalar_failure_matches(*left, correlated, derived);
            scalar_failure_matches(*right, correlated, derived);
        },
        ScalarView::ComparisonExpr { left, right, .. } => {
            scalar_failure_matches(*left, correlated, derived);
            scalar_failure_matches(*right, correlated, derived);
        },
        ScalarView::NotExpr { argument } => {
            scalar_failure_matches(*argument, correlated, derived);
        },
        ScalarView::CastExpr { argument, .. } => {
            scalar_failure_matches(*argument, correlated, derived);
        },
        ScalarView::AggregateFunction(f) => {
            list_failure_matches(f.args, 0, correlated, derived);
        },
        ScalarView::FunctionCall { arguments, .. } => {
            list_failure_matches(arguments, 0, correlated, derived);
        },
        _ => {},
    }
}

/// Flattening the scalars of a list fails exactly where one of them
/// meets a failure.
pub proof fn list_failure_matches(
    list: Seq<ScalarView>,
    from: nat,
    correlated: Set<usize>,
    derived: Map<usize, usize>,
)
    ensures
        list_failure(list, from, correlated, derived) is None <==> (forall|i: int|
            from <= i < list.len() ==> flattened_scalar(list[i], correlated, derived) is Some),
        from == 0 ==> (list_failure(list, from, correlated, derived) is None <==> flattened_list(
            list,
            correlated,
            derived,
        ) is Some),
    decreases list, list.len() - from,
{
    if from < list.len() {
        scalar_failure_matches(list[from as int], correlated, derived);
        list_failure_matches(list, from + 1, correlated, derived);
    }
}

/// Flattening the scalars of items fails exactly where one of them meets
/// a failure.
pub proof fn items_failure_matches(
    items: Seq<ScalarItemView>,
    from: nat,
    correlated: Set<usize>,
    derived: Map<usize, usize>,
)
    ensures
        items_failure(items, from, correlated, derived) is None <==> (forall|i: int|
            from <= i < items.len() ==> flattened_scalar(items[i].scalar, correlated, derived)
                is Some),
        from == 0 ==> (items_failure(items, from, correlated, derived) is None <==> flattened_items(
            items,
            correlated,
            derived,
        ) is Some),
    decreases items.len() - from,
{
    if from < items.len() {
        scalar_failure_matches(items[from as int].scalar, correlated, derived);
        items_failure_matches(items, from + 1, correlated, derived);
    }
}

/// The first failure of a list is that of the first scalar that fails.
pub proof fn list_failure_is_first(
    list: Seq<ScalarView>,
    from: nat,
    at: nat,
    correlated: Set<usize>,
    derived: Map<usize, usize>,
)
    requires
        from <= at < list.len(),
        forall|j: int| from <= j < at ==> scalar_failure(list[j], correlated, derived) is None,
        scalar_failure(list[at as int], correlated, derived) is Some,
    ensures
        list_failure(list, from, correlated, derived) == scalar_failure(
            list[at as int],
            correlated,
            derived,
        ),
    decreases at - from,
{
    if from < at {
        list_failure_is_first(list, from + 1, at, correlated, derived);
    }
}

/// The first failure of a list of items is that of the first scalar that
/// fails.
pub proof fn items_failure_is_first(
    items: Seq<ScalarItemView>,
    from: nat,
    at: nat,
    correlated: Set<usize>,
    derived: Map<usize, usize>,
)
    requires
        from <= at < items.len(),
        forall|j: int|
            from <= j < at ==> scalar_failure(items[j].scalar, correlated, derived) is None,
        scalar_failure(items[at as int].scalar, correlated, derived) is Some,
    ensures
        items_failure(items, from, correlated, derived) == scalar_failure(
            items[at as int].scalar,
            correlated,
            derived,
        ),
    decreases at - from,
{
    if from < at {
        items_failure_is_first(items, from + 1, at, correlated, derived);
    }
}

/// Whether no derived column is itself a correlated column.
pub open spec fn derived_apart(correlated: Set<usize>, derived: Map<usize, usize>) -> bool {
    forall|k: usize| derived.dom().contains(k) ==> !correlated.contains(#[trigger] derived[k])
}

/// Flattening removes the correlation from a scalar: where no derived
/// column is itself correlated, the flattened scalar refers to no correlated
/// column.
pub proof fn flattened_scalar_is_uncorrelated(
    e: ScalarView,
    correlated: Set<usize>,
    derived: Map<usize, usize>,
)
    requires
        flattened_scalar(e, correlated, derived) is Some,
        derived_apart(correlated, derived),
    ensures
        used_columns(flattened_scalar(e, correlated, derived)->Some_0).disjoint(correlated),
    decreases e,
{
    match e {
        ScalarView::AndExpr { left, right } => {
            flattened_scalar_is_uncorrelated(*left, correlated, derived);
            flattened_scalar_is_uncorrelated(*right, correlated, derived);
        },
        ScalarView::OrExpr { left, right } => {
            flattened_scalar_is_uncorrelated(*left, correlated, derived);
            flattened_scalar_is_uncorrelated(*right, correlated, derived);
        },
        ScalarView::NotExpr { argument } => {
            flattened_scalar_is_uncorrelated(*argument, correlated, derived);
        },
        ScalarView::ComparisonExpr { left, right, .. } => {
            flattened_scalar_is_uncorrelated(*left, correlated, derived);
            flattened_scalar_is_uncorrelated(*right, correlated, derived);
        },
        ScalarView::AggregateFunction(f) => {
            flattened_list_is_uncorrelated(f.args, correlated, derived);
        },
        ScalarView::FunctionCall { arguments, .. } => {
            flattened_list_is_uncorrelated(arguments, correlated, derived);
        },
        ScalarView::CastExpr { argument, .. } => {
            flattened_scalar_is_uncorrelated(*argument, correlated, derived);
        },
        _ => {},
    }
}

/// Flattening removes the correlation from each scalar of a list.
pub proof fn flattened_list_is_uncorrelated(
    list: Seq<ScalarView>,
    correlated: Set<usize>,
    derived: Map<usize, usize>,
)
    requires
        flattened_list(list, correlated, derived) is Some,
        derived_apart(correlated, derived),
    ensures
        used_in(flattened_list(list, correlated, derived)->Some_0).disjoint(correlated),
    decreases list,
{
    let flat = flattened_list(list, correlated, derived)->Some_0;
    assert forall|i: int| 0 <= i < flat.len() implies used_columns(#[trigger] flat[i]).disjoint(
        correlated,
    ) by {
        flattened_scalar_is_uncorrelated(list[i], correlated, derived);
    }
}

/// The items of `items`, the scalar of each flattened; `None` where one
/// cannot be.
pub open spec fn flattened_items(
    items: Seq<ScalarItemView>,
    correlated: Set<usize>,
    derived: Map<usize, usize>,
) -> Option<Seq<ScalarItemView>> {
    if forall|i: int|
        0 <= i < items.len() ==> flattened_scalar(items[i].scalar, correlated, derived) is Some {
        Some(
            Seq::new(
                items.len(),
                |i: int|
                    ScalarItemView {
                        scalar: flattened_scalar(items[i].scalar, correlated, derived)->Some_0,
                        index: items[i].index,
                    },
            ),
        )
    } else {
        None
    }
}

/// The item that hands a derived column on: a reference to the column
/// under its subquery name, defining the column itself.
pub open spec fn pass_through_item(metadata: MetadataView, column: usize) -> ScalarItemView {
    ScalarItemView {
        scalar: column_ref(
            None,
            subquery_name(column),
            column,
            entry_type(metadata.columns[column as int]),
            Visibility::Visible,
        ),
        index: column,
    }
}

/// One pass-through item for every derived column, in increasing order of
/// the correlated columns they stand for; `None` where a derived column has
/// no entry in the registry.
pub open spec fn pass_through_items(st: RewriterView) -> Option<Seq<ScalarItemView>> {
    let values = values_by_key(st.derived_columns);
    if forall|i: int| 0 <= i < values.len() ==> values[i] < st.metadata.columns.len() {
        Some(Seq::new(values.len(), |i: int| pass_through_item(st.metadata, values[i])))
    } else {
        None
    }
}

/// Whether the name is that of a counting aggregate.
pub open spec fn is_count(name: Seq<char>) -> bool {
    same_ignoring_ascii_case(name, "count"@) || name == "count_distinct"@
}

/// Whether any of the items is a call of a counting aggregate.
pub open spec fn any_count(items: Seq<ScalarItemView>) -> bool {
    exists|i: int|
        0 <= i < items.len() && (#[trigger] items[i]).scalar is AggregateFunction && is_count(
            items[i].scalar->AggregateFunction_0.func_name,
        )
}

/// What one filter predicate contributes to the direct mappings.
///
/// A predicate that names no correlated column contributes nothing. One
/// that does must equate two column references; where exactly one of the
/// two is correlated, it is mapped to the other. Any other predicate that
/// names a correlated column makes the direct mapping fail.
pub open spec fn mapping_step(p: ScalarView, correlated: Set<usize>, derived: Map<usize, usize>) -> (
    bool,
    Map<usize, usize>,
) {
    if exists|c: usize| used_columns(p).contains(c) && correlated.contains(c) {
        match p {
            ScalarView::ComparisonExpr { op, left, right } => if op == ComparisonOp::Equal {
                match (*left, *right) {
                    (
                        ScalarView::BoundColumnRef { column: l, .. },
                        ScalarView::BoundColumnRef { column: r, .. },
                    ) => {
                        let d1 = if correlated.contains(l.index) && !correlated.contains(r.index) {
                            derived.insert(l.index, r.index)
                        } else {
                            derived
                        };
                        let d2 = if !correlated.contains(l.index) && correlated.contains(r.index) {
                            d1.insert(r.index, l.index)
                        } else {
                            d1
                        };
                        (true, d2)
                    },
                    _ => (false, derived),
                }
            } else {
                (false, derived)
            },
            _ => (false, derived),
        }
    } else {
        (true, derived)
    }
}

/// The direct mappings that the predicates of a filter give, and whether
/// every predicate allowed one. The predicates are visited in order, up to
/// the first that does not allow a direct mapping.
pub open spec fn direct_mappings(
    predicates: Seq<ScalarView>,
    correlated: Set<usize>,
    derived: Map<usize, usize>,
) -> (bool, Map<usize, usize>)
    decreases predicates.len(),
{
    if predicates.len() == 0 {
        (true, derived)
    } else {
        let (ok, d) = direct_mappings(predicates.drop_last(), correlated, derived);
        if ok {
            mapping_step(predicates.last(), correlated, d)
        } else {
            (false, d)
        }
    }
}

/// The state after a fresh derived column has been made for each column of
/// `columns`, first to last; `None` where one of them has no entry in the
/// registry.
pub open spec fn derive_columns(columns: Seq<usize>, st: RewriterView) -> Option<RewriterView>
    decreases columns.len(),
{
    if columns.len() == 0 {
        Some(st)
    } else {
        match derive_columns(columns.drop_last(), st) {
            None => None,
            Some(s) => {
                let c = columns.last();
                if c < s.metadata.columns.len() {
                    let entry = s.metadata.columns[c as int];
                    Some(
                        RewriterView {
                            metadata: with_derived(
                                s.metadata,
                                entry_name(entry),
                                wrapped_nullable(entry_type(entry)),
                            ),
                            derived_columns: s.derived_columns.insert(
                                c,
                                s.metadata.columns.len() as usize,
                            ),
                        },
                    )
                } else {
                    None
                }
            },
        }
    }
}

/// A direct mapping never maps to a correlated column: the mappings of
/// one predicate, and of a list of predicates, keep the derived columns
/// apart from the correlated ones.
pub proof fn direct_mappings_keep_apart(
    predicates: Seq<ScalarView>,
    correlated: Set<usize>,
    derived: Map<usize, usize>,
)
    requires
        derived_apart(correlated, derived),
    ensures
        derived_apart(correlated, direct_mappings(predicates, correlated, derived).1),
        predicates.len() > 0 ==> derived_apart(
            correlated,
            mapping_step(predicates.last(), correlated, derived).1,
        ),
    decreases predicates.len(),
{
    if predicates.len() > 0 {
        direct_mappings_keep_apart(predicates.drop_last(), correlated, derived);
    }
}

/// A derived column is a fresh column of the registry: where every
/// correlated column has an entry in the registry, deriving columns keeps
/// the derived columns apart from the correlated ones, and the registry
/// grows by one entry for each column.
pub proof fn derive_columns_keeps_apart(
    columns: Seq<usize>,
    st: RewriterView,
    correlated: Set<usize>,
)
    requires
        derive_columns(columns, st) is Some,
        derived_apart(correlated, st.derived_columns),
        forall|c: usize| correlated.contains(c) ==> c < st.metadata.columns.len(),
        st.metadata.columns.len() + columns.len() <= usize::MAX,
    ensures
        derived_apart(correlated, derive_columns(columns, st)->Some_0.derived_columns),
        derive_columns(columns, st)->Some_0.metadata.columns.len() == st.metadata.columns.len()
            + columns.len(),
    decreases columns.len(),
{
    if columns.len() > 0 {
        derive_columns_keeps_apart(columns.drop_last(), st, correlated);
    }
}

/// The scan that delivers the derived columns.
pub open spec fn derived_scan(table_index: usize, derived: Map<usize, usize>) -> ScanView {
    ScanView {
        table_index,
        columns: values_by_key(derived).to_set(),
        push_down_predicates: None,
        limit: None,
        order_by: None,
        prewhere: None,
    }
}

/// A cross join without conditions.
pub open spec fn cross_join() -> JoinView {
    JoinView {
        left_conditions: Seq::empty(),
        right_conditions: Seq::empty(),
        non_equi_conditions: Seq::empty(),
        join_type: JoinType::Cross,
        marker_index: None,
        from_correlated_subquery: false,
        contain_runtime_filter: false,
    }
}

/// The plan under a cross join with a scan of fresh derived columns, one
/// for each correlated column; `None` where no table owns the correlated
/// columns or one of them has no entry in the registry.
pub open spec fn cross_joined(plan: SExprView, correlated: Set<usize>, st: RewriterView) -> Option<
    (SExprView, RewriterView),
> {
    match owning_table(st.metadata, correlated) {
        None => None,
        Some(table_index) => match derive_columns(ordered(correlated), st) {
            None => None,
            Some(s) => Some(
                (
                    binary(
                        RelOperatorView::Join(cross_join()),
                        leaf(RelOperatorView::Scan(derived_scan(table_index, s.derived_columns))),
                        plan,
                    ),
                    s,
                ),
            ),
        },
    }
}

/// Whether `columns` shares a member with `correlated`.
pub open spec fn touches(columns: Set<usize>, correlated: Set<usize>) -> bool {
    exists|c: usize| columns.contains(c) && correlated.contains(c)
}

/// The projection over the flattened input: its items flattened, then
/// the pass-through items.
pub open spec fn flattened_eval_scalar(
    e: EvalScalarView,
    correlated: Set<usize>,
    st: RewriterView,
) -> Option<RelOperatorView> {
    match (flattened_items(e.items, correlated, st.derived_columns), pass_through_items(st)) {
        (Some(items), Some(extra)) => Some(
            RelOperatorView::EvalScalar(EvalScalarView { items: items + extra }),
        ),
        _ => None,
    }
}

/// The aggregation over the flattened input: its group items flattened,
/// then the pass-through items as further group items, and its aggregate
/// functions flattened. The stage is reset to the initial one.
pub open spec fn flattened_aggregate(
    a: AggregateView,
    correlated: Set<usize>,
    st: RewriterView,
) -> Option<RelOperatorView> {
    match (
        flattened_items(a.group_items, correlated, st.derived_columns),
        pass_through_items(st),
        flattened_items(a.aggregate_functions, correlated, st.derived_columns),
    ) {
        (Some(groups), Some(extra), Some(functions)) => Some(
            RelOperatorView::Aggregate(
                AggregateView {
                    mode: AggregateMode::Initial,
                    group_items: groups + extra,
                    aggregate_functions: functions,
                    ..a
                },
            ),
        ),
        _ => None,
    }
}

/// The pass-through items refer to derived columns only: where no derived
/// column is itself correlated, they refer to no correlated column.
pub proof fn pass_through_items_are_uncorrelated(st: RewriterView, correlated: Set<usize>)
    requires
        pass_through_items(st) is Some,
        derived_apart(correlated, st.derived_columns),
    ensures
        used_in_items(pass_through_items(st)->Some_0).disjoint(correlated),
{
    let keys = ordered(st.derived_columns.dom());
    let extra = pass_through_items(st)->Some_0;
    ordered_facts(st.derived_columns.dom());
    assert forall|i: int| 0 <= i < extra.len() implies used_columns(
        (#[trigger] extra[i]).scalar,
    ).disjoint(correlated) by {
        assert(keys.contains(keys[i]));
        assert(st.derived_columns.dom().contains(keys[i]));
        assert(values_by_key(st.derived_columns)[i] == st.derived_columns[keys[i]]);
    }
}

/// Flattening removes the correlation from each item of a list.
pub proof fn flattened_items_are_uncorrelated(
    items: Seq<ScalarItemView>,
    correlated: Set<usize>,
    derived: Map<usize, usize>,
)
    requires
        flattened_items(items, correlated, derived) is Some,
        derived_apart(correlated, derived),
    ensures
        used_in_items(flattened_items(items, correlated, derived)->Some_0).disjoint(correlated),
{
    let flat = flattened_items(items, correlated, derived)->Some_0;
    assert forall|i: int| 0 <= i < flat.len() implies used_columns(
        (#[trigger] flat[i]).scalar,
    ).disjoint(correlated) by {
        flattened_scalar_is_uncorrelated(items[i].scalar, correlated, derived);
    }
}

/// The operators that flattening rewrites are free of correlation: where
/// no derived column is itself correlated, a flattened projection and a
/// flattened aggregation refer to no correlated column.
pub proof fn flattened_operators_are_uncorrelated(
    e: EvalScalarView,
    a: AggregateView,
    correlated: Set<usize>,
    st: RewriterView,
)
    requires
        derived_apart(correlated, st.derived_columns),
    ensures
        flattened_eval_scalar(e, correlated, st) is Some ==> operator_used(
            flattened_eval_scalar(e, correlated, st)->Some_0,
        ).disjoint(correlated),
        flattened_aggregate(a, correlated, st) is Some ==> operator_used(
            flattened_aggregate(a, correlated, st)->Some_0,
        ).disjoint(correlated),
{
    if flattened_eval_scalar(e, correlated, st) is Some {
        let items = flattened_items(e.items, correlated, st.derived_columns)->Some_0;
        let extra = pass_through_items(st)->Some_0;
        flattened_items_are_uncorrelated(e.items, correlated, st.derived_columns);
        pass_through_items_are_uncorrelated(st, correlated);
        items_used_together(items, extra);
    }
    if flattened_aggregate(a, correlated, st) is Some {
        let groups = flattened_items(a.group_items, correlated, st.derived_columns)->Some_0;
        let extra = pass_through_items(st)->Some_0;
        flattened_items_are_uncorrelated(a.group_items, correlated, st.derived_columns);
        flattened_items_are_uncorrelated(a.aggregate_functions, correlated, st.derived_columns);
        pass_through_items_are_uncorrelated(st, correlated);
        items_used_together(groups, extra);
    }
}

/// What two lists of items refer to together.
proof fn items_used_together(a: Seq<ScalarItemView>, b: Seq<ScalarItemView>)
    ensures
        used_in_items(a + b) == used_in_items(a).union(used_in_items(b)),
{
    let both = a + b;
    assert forall|c: usize| used_in_items(both).contains(c) <==> used_in_items(a).union(
        used_in_items(b),
    ).contains(c) by {
        if used_in_items(both).contains(c) {
            let i = choose|i: int| 0 <= i < both.len() && used_columns(both[i].scalar).contains(c);
            if i < a.len() {
                assert(both[i] == a[i]);
            } else {
                assert(both[i] == b[i - a.len()]);
            }
        }
        if used_in_items(a).contains(c) {
            let i = choose|i: int| 0 <= i < a.len() && used_columns(a[i].scalar).contains(c);
            assert(both[i] == a[i]);
        }
        if used_in_items(b).contains(c) {
            let i = choose|i: int| 0 <= i < b.len() && used_columns(b[i].scalar).contains(c);
            assert(both[i + a.len()] == b[i]);
        }
    }
    assert(used_in_items(both) =~= used_in_items(a).union(used_in_items(b)));
}

/// The join over the flattened inputs: its conditions as they were, no
/// longer marked as coming from a correlated subquery.
pub open spec fn flattened_join(j: JoinView) -> RelOperatorView {
    RelOperatorView::Join(
        JoinView { from_correlated_subquery: false, contain_runtime_filter: false, ..j },
    )
}

/// The message of the error for a derived column without an entry in the
/// registry.
pub open spec fn derived_missing_message() -> Seq<char> {
    "Derived column is not in the metadata"@
}

/// The message of the error for a correlated column without an entry in
/// the registry.
pub open spec fn correlated_missing_message() -> Seq<char> {
    "Correlated column is not in the metadata"@
}

/// The message of the error for correlated columns that no table owns.
pub open spec fn no_table_message() -> Seq<char> {
    "No table owns the correlated columns"@
}

/// The message of the error with which the cross join with a scan of
/// derived columns fails, `None` where it does not fail.
pub open spec fn cross_join_failure(correlated: Set<usize>, st: RewriterView) -> Option<Seq<char>> {
    if owning_table(st.metadata, correlated) is None {
        Some(no_table_message())
    } else if derive_columns(ordered(correlated), st) is None {
        Some(correlated_missing_message())
    } else {
        None
    }
}

/// The message of the error with which flattening the scalars of the
/// operator fails, `None` where it does not fail: that of the first failure.
/// A projection flattens its items and then makes the pass-through items; an
/// aggregation flattens its group items, makes the pass-through items, and
/// flattens its aggregate functions; a filter flattens its predicates.
pub open spec fn operator_failure(op: RelOperatorView, correlated: Set<usize>, st: RewriterView) -> Option<
    Seq<char>,
> {
    match op {
        RelOperatorView::EvalScalar(e) => match items_failure(
            e.items,
            0,
            correlated,
            st.derived_columns,
        ) {
            Some(m) => Some(m),
            None => if pass_through_items(st) is None {
                Some(derived_missing_message())
            } else {
                None
            },
        },
        RelOperatorView::Aggregate(a) => match items_failure(
            a.group_items,
            0,
            correlated,
            st.derived_columns,
        ) {
            Some(m) => Some(m),
            None => if pass_through_items(st) is None {
                Some(derived_missing_message())
            } else {
                items_failure(a.aggregate_functions, 0, correlated, st.derived_columns)
            },
        },
        RelOperatorView::Filter(f) => list_failure(f.predicates, 0, correlated, st.derived_columns),
        _ => None,
    }
}

/// The message of the error for an operator that cannot be flattened.
pub open spec fn invalid_plan_message() -> Seq<char> {
    "Invalid plan type for flattening subquery"@
}

/// Whether the operator is one that flattening goes through: a
/// projection, a filter, a join, an aggregation, a sort, a limit or a union.
pub open spec fn is_flattenable(op: RelOperatorView) -> bool {
    op is EvalScalar || op is Filter || op is Join || op is Aggregate || op is Sort || op is Limit
        || op is UnionAll
}

/// The flattened plan, the state after flattening, and whether a counting
/// aggregate was met; `None` where the plan cannot be flattened.
///
/// A plan without outer columns stays as it is, unless a node above it
/// asked for a cross join: then it is cross-joined with a scan of fresh
/// derived columns. Otherwise the operator decides. A projection, an
/// aggregation, a join or a union asks for a cross join below it as soon
/// as it names a correlated column itself. A filter first tries to map each
/// correlated column directly to the column it is equated with; if every
/// predicate that names a correlated column allows this, no cross join is
/// asked for, else one is and the mappings made so far are dropped. A sort
/// and a limit pass the request on. Any other operator cannot be flattened.
pub open spec fn flattened(
    plan: SExprView,
    correlated: Set<usize>,
    st: RewriterView,
    counted: bool,
    need_cross_join: bool,
) -> Option<(SExprView, RewriterView, bool)>
    decreases plan,
{
    if !derivable(plan) {
        None
    } else if outer_columns(plan) == Set::<usize>::empty() {
        if !need_cross_join {
            Some((plan, st, counted))
        } else {
            match cross_joined(plan, correlated, st) {
                Some((t, s)) => Some((t, s, counted)),
                None => None,
            }
        }
    } else {
        match plan.plan {
            RelOperatorView::EvalScalar(e) => {
                let need = need_cross_join || touches(used_in_items(e.items), correlated);
                if plan.children.len() < 1 {
                    None
                } else {
                    match flattened(plan.children[0], correlated, st, counted, need) {
                        None => None,
                        Some((child, s, n)) => match flattened_eval_scalar(e, correlated, s) {
                            Some(op) => Some((unary(op, child), s, n)),
                            None => None,
                        },
                    }
                }
            },
            RelOperatorView::Filter(f) => {
                let mapped = direct_mappings(f.predicates, correlated, st.derived_columns);
                let need = need_cross_join || !mapped.0;
                let derived = if need_cross_join {
                    st.derived_columns
                } else if mapped.0 {
                    mapped.1
                } else {
                    Map::empty()
                };
                if plan.children.len() < 1 {
                    None
                } else {
                    match flattened(
                        plan.children[0],
                        correlated,
                        RewriterView { derived_columns: derived, ..st },
                        counted,
                        need,
                    ) {
                        None => None,
                        Some((child, s, n)) => match flattened_list(
                            f.predicates,
                            correlated,
                            s.derived_columns,
                        ) {
                            Some(predicates) => Some(
                                (
                                    unary(
                                        RelOperatorView::Filter(
                                            FilterView { predicates, is_having: f.is_having },
                                        ),
                                        child,
                                    ),
                                    s,
                                    n,
                                ),
                            ),
                            None => None,
                        },
                    }
                }
            },
            RelOperatorView::Join(j) => {
                let need = need_cross_join || touches(operator_used(plan.plan), correlated);
                if plan.children.len() < 2 {
                    None
                } else {
                    match flattened(plan.children[0], correlated, st, counted, need) {
                        None => None,
                        Some((left, s, n)) => match flattened(
                            plan.children[1],
                            correlated,
                            s,
                            n,
                            need,
                        ) {
                            None => None,
                            Some((right, s2, n2)) => Some(
                                (binary(flattened_join(j), left, right), s2, n2),
                            ),
                        },
                    }
                }
            },
            RelOperatorView::Aggregate(a) => {
                let need = need_cross_join || touches(operator_used(plan.plan), correlated);
                if plan.children.len() < 1 {
                    None
                } else {
                    match flattened(plan.children[0], correlated, st, counted, need) {
                        None => None,
                        Some((child, s, n)) => match flattened_aggregate(a, correlated, s) {
                            Some(op) => Some(
                                (
                                    unary(op, child),
                                    s,
                                    n || any_count(op->Aggregate_0.aggregate_functions),
                                ),
                            ),
                            None => None,
                        },
                    }
                }
            },
            RelOperatorView::Sort(_) => {
                if plan.children.len() < 1 {
                    None
                } else {
                    match flattened(plan.children[0], correlated, st, counted, need_cross_join) {
                        None => None,
                        Some((child, s, n)) => Some((unary(plan.plan, child), s, n)),
                    }
                }
            },
            RelOperatorView::Limit(_) => {
                if plan.children.len() < 1 {
                    None
                } else {
                    match flattened(plan.children[0], correlated, st, counted, need_cross_join) {
                        None => None,
                        Some((child, s, n)) => Some((unary(plan.plan, child), s, n)),
                    }
                }
            },
            RelOperatorView::UnionAll(_) => {
                let need = need_cross_join || touches(operator_used(plan.plan), correlated);
                if plan.children.len() < 2 {
                    None
                } else {
                    match flattened(plan.children[0], correlated, st, counted, need) {
                        None => None,
                        Some((left, s, n)) => match flattened(
                            plan.children[1],
                            correlated,
                            s,
                            n,
                            need,
                        ) {
                            None => None,
                            Some((right, s2, n2)) => Some((binary(plan.plan, left, right), s2, n2)),
                        },
                    }
                }
            },
            _ => None,
        }
    }
}

/// The two keys that join a plan to a flattened subquery over one
/// correlated column: a reference to its derived column, and a reference to
/// the column itself, each with the type that the registry records for it.
/// Where the two types differ, both keys stand under an explicit cast to
/// their common type. `None` where the column has no derived column, where
/// the registry lacks one of the two, or where their types have no common
/// type.
pub open spec fn key_pair(span: Option<Span>, column: usize, st: RewriterView) -> Option<
    (ScalarView, ScalarView),
> {
    if column < st.metadata.columns.len() && st.derived_columns.dom().contains(column)
        && st.derived_columns[column] < st.metadata.columns.len() {
        let derived = st.derived_columns[column];
        equi_pair(
            column_ref(
                span,
                subquery_name(derived),
                derived,
                entry_type(st.metadata.columns[derived as int]),
                Visibility::Visible,
            ),
            column_ref(
                span,
                subquery_name(column),
                column,
                entry_type(st.metadata.columns[column as int]),
                Visibility::Visible,
            ),
        )
    } else {
        None
    }
}

/// The two keys of a correlated column have one type. Where the registry
/// records one type for the column and its derived column, the keys are the
/// bare references; where it records two, both keys stand under a cast to
/// the common type of the two.
pub proof fn key_pair_is_typed(span: Option<Span>, column: usize, st: RewriterView)
    requires
        key_pair(span, column, st) is Some,
    ensures
        ({
            let derived = st.derived_columns[column];
            let derived_type = entry_type(st.metadata.columns[derived as int]);
            let column_type = entry_type(st.metadata.columns[column as int]);
            let derived_ref = column_ref(
                span,
                subquery_name(derived),
                derived,
                derived_type,
                Visibility::Visible,
            );
            let own_ref = column_ref(
                span,
                subquery_name(column),
                column,
                column_type,
                Visibility::Visible,
            );
            let (a, b) = key_pair(span, column, st)->Some_0;
            &&& data_type_of(a) == data_type_of(b)
            &&& derived_type == column_type ==> a == derived_ref && b == own_ref
            &&& derived_type != column_type ==> {
                &&& super_type(derived_type, column_type) is Some
                &&& a == cast_to(derived_ref, super_type(derived_type, column_type)->Some_0)
                &&& b == cast_to(own_ref, super_type(derived_type, column_type)->Some_0)
            }
        }),
{
    let derived = st.derived_columns[column];
    equi_pair_is_typed(
        column_ref(
            span,
            subquery_name(derived),
            derived,
            entry_type(st.metadata.columns[derived as int]),
            Visibility::Visible,
        ),
        column_ref(
            span,
            subquery_name(column),
            column,
            entry_type(st.metadata.columns[column as int]),
            Visibility::Visible,
        ),
    );
}

/// The message of the error for which a correlated column has no pair of
/// keys, `None` where it has one: the registry lacks the column, the column
/// has no derived column, the registry lacks the derived column, or the
/// types of the two have no common type.
pub open spec fn key_pair_failure(span: Option<Span>, column: usize, st: RewriterView) -> Option<
    Seq<char>,
> {
    if column >= st.metadata.columns.len() {
        Some(correlated_missing_message())
    } else if !st.derived_columns.dom().contains(column) {
        Some(no_derived_column_message())
    } else if st.derived_columns[column] >= st.metadata.columns.len() {
        Some(derived_missing_message())
    } else if key_pair(span, column, st) is None {
        Some(no_common_type_message())
    } else {
        None
    }
}

/// The first failure among the columns from position `from` on.
pub open spec fn equi_failure(span: Option<Span>, columns: Seq<usize>, from: nat, st: RewriterView) -> Option<
    Seq<char>,
>
    decreases columns.len() - from,
{
    if from >= columns.len() {
        None
    } else {
        match key_pair_failure(span, columns[from as int], st) {
            Some(m) => Some(m),
            None => equi_failure(span, columns, from + 1, st),
        }
    }
}

/// The first failure among the columns is that of the first column
/// without a pair of keys; there is none where every column has a pair.
pub proof fn equi_failure_is_first(
    span: Option<Span>,
    columns: Seq<usize>,
    from: nat,
    at: nat,
    st: RewriterView,
)
    requires
        from <= at <= columns.len(),
        forall|j: int| from <= j < at ==> key_pair(span, columns[j], st) is Some,
    ensures
        at < columns.len() && key_pair(span, columns[at as int], st) is None ==> equi_failure(
            span,
            columns,
            from,
            st,
        ) == key_pair_failure(span, columns[at as int], st),
        at == columns.len() ==> equi_failure(span, columns, from, st) is None,
    decreases at - from,
{
    if from < at {
        equi_failure_is_first(span, columns, from + 1, at, st);
    }
}

/// Making the keys fails exactly where a column has no pair of keys.
pub proof fn equi_failure_matches(span: Option<Span>, columns: Seq<usize>, from: nat, st: RewriterView)
    ensures
        equi_failure(span, columns, from, st) is None <==> (forall|i: int|
            from <= i < columns.len() ==> key_pair(span, columns[i], st) is Some),
    decreases columns.len() - from,
{
    if from < columns.len() {
        equi_failure_matches(span, columns, from + 1, st);
    }
}

/// The keys that join a plan to a flattened subquery: the pair of keys of
/// each correlated column, in increasing order of the columns, the keys over
/// the derived columns first. `None` where one of the columns has no pair.
pub open spec fn equi_conditions(span: Option<Span>, correlated: Set<usize>, st: RewriterView) -> Option<
    (Seq<ScalarView>, Seq<ScalarView>),
> {
    let columns = ordered(correlated);
    if forall|i: int| 0 <= i < columns.len() ==> key_pair(span, columns[i], st) is Some {
        Some(
            (
                Seq::new(columns.len(), |i: int| key_pair(span, columns[i], st)->Some_0.0),
                Seq::new(columns.len(), |i: int| key_pair(span, columns[i], st)->Some_0.1),
            ),
        )
    } else {
        None
    }
}

/// Whether flattening asks for a cross join below the operator.
pub open spec fn need_below(
    op: RelOperatorView,
    correlated: Set<usize>,
    st: RewriterView,
    need_cross_join: bool,
) -> bool {
    match op {
        RelOperatorView::EvalScalar(e) => need_cross_join || touches(
            used_in_items(e.items),
            correlated,
        ),
        RelOperatorView::Filter(f) => need_cross_join || !direct_mappings(
            f.predicates,
            correlated,
            st.derived_columns,
        ).0,
        RelOperatorView::Join(_) | RelOperatorView::Aggregate(_) | RelOperatorView::UnionAll(_) => {
            need_cross_join || touches(operator_used(op), correlated)
        },
        _ => need_cross_join,
    }
}

/// The state in which flattening goes on below the operator: below a
/// filter the derived columns are the direct mappings, or none where the
/// filter asks for a cross join itself.
pub open spec fn state_below(
    op: RelOperatorView,
    correlated: Set<usize>,
    st: RewriterView,
    need_cross_join: bool,
) -> RewriterView {
    match op {
        RelOperatorView::Filter(f) => {
            let mapped = direct_mappings(f.predicates, correlated, st.derived_columns);
            RewriterView {
                derived_columns: if need_cross_join {
                    st.derived_columns
                } else if mapped.0 {
                    mapped.1
                } else {
                    Map::empty()
                },
                ..st
            }
        },
        _ => st,
    }
}

/// The message of the error with which flattening the plan fails, `None`
/// where it does not fail: that of the first failure that it meets.
///
/// Flattening derives the properties of the plan first. A plan without
/// outer columns fails only in the cross join. Of any other plan the
/// operator must be one that flattening goes through; then the first input
/// is flattened, then the second input of a join or a union, or the scalars
/// of a projection, an aggregation or a filter. A node that lacks the input
/// that flattening turns to is a failure too.
pub open spec fn flatten_failure(
    plan: SExprView,
    correlated: Set<usize>,
    st: RewriterView,
    counted: bool,
    need_cross_join: bool,
) -> Option<Seq<char>>
    decreases plan,
{
    if !derivable(plan) {
        Some(underivable_message())
    } else if outer_columns(plan) == Set::<usize>::empty() {
        if need_cross_join {
            cross_join_failure(correlated, st)
        } else {
            None
        }
    } else if !is_flattenable(plan.plan) {
        Some(invalid_plan_message())
    } else if plan.children.len() < 1 {
        Some(missing_input_message())
    } else {
        let below = state_below(plan.plan, correlated, st, need_cross_join);
        let need = need_below(plan.plan, correlated, st, need_cross_join);
        match flatten_failure(plan.children[0], correlated, below, counted, need) {
            Some(m) => Some(m),
            None => {
                let first = flattened(plan.children[0], correlated, below, counted, need)->Some_0;
                if plan.plan is Join || plan.plan is UnionAll {
                    if plan.children.len() < 2 {
                        Some(missing_input_message())
                    } else {
                        flatten_failure(plan.children[1], correlated, first.1, first.2, need)
                    }
                } else {
                    operator_failure(plan.plan, correlated, first.1)
                }
            },
        }
    }
}

/// Flattening the scalars of an operator fails exactly where it meets a
/// failure.
pub proof fn operator_failure_matches(e: EvalScalarView, a: AggregateView, f: FilterView, correlated: Set<usize>, st: RewriterView)
    ensures
        operator_failure(RelOperatorView::EvalScalar(e), correlated, st) is Some
            <==> flattened_eval_scalar(e, correlated, st) is None,
        operator_failure(RelOperatorView::Aggregate(a), correlated, st) is Some
            <==> flattened_aggregate(a, correlated, st) is None,
        operator_failure(RelOperatorView::Filter(f), correlated, st) is Some <==> flattened_list(
            f.predicates,
            correlated,
            st.derived_columns,
        ) is None,
{
    items_failure_matches(e.items, 0, correlated, st.derived_columns);
    items_failure_matches(a.group_items, 0, correlated, st.derived_columns);
    items_failure_matches(a.aggregate_functions, 0, correlated, st.derived_columns);
    list_failure_matches(f.predicates, 0, correlated, st.derived_columns);
}

/// Flattening a plan fails exactly where it meets a failure.
pub proof fn flatten_failure_matches(
    plan: SExprView,
    correlated: Set<usize>,
    st: RewriterView,
    counted: bool,
    need_cross_join: bool,
)
    ensures
        flatten_failure(plan, correlated, st, counted, need_cross_join) is Some <==> flattened(
            plan,
            correlated,
            st,
            counted,
            need_cross_join,
        ) is None,
    decreases plan,
{
    if derivable(plan) && outer_columns(plan) != Set::<usize>::empty() && is_flattenable(plan.plan)
        && plan.children.len() >= 1 {
        let below = state_below(plan.plan, correlated, st, need_cross_join);
        let need = need_below(plan.plan, correlated, st, need_cross_join);
        flatten_failure_matches(plan.children[0], correlated, below, counted, need);
        if flattened(plan.children[0], correlated, below, counted, need) is Some {
            let first = flattened(plan.children[0], correlated, below, counted, need)->Some_0;
            if plan.plan is Join || plan.plan is UnionAll {
                if plan.children.len() >= 2 {
                    flatten_failure_matches(plan.children[1], correlated, first.1, first.2, need);
                }
            } else {
                let e = match plan.plan {
                    RelOperatorView::EvalScalar(e) => e,
                    _ => arbitrary::<EvalScalarView>(),
                };
                let a = match plan.plan {
                    RelOperatorView::Aggregate(a) => a,
                    _ => arbitrary::<AggregateView>(),
                };
                let f = match plan.plan {
                    RelOperatorView::Filter(f) => f,
                    _ => arbitrary::<FilterView>(),
                };
                operator_failure_matches(e, a, f, correlated, first.1);
            }
        }
    }
}

/// What follows the first input: the failure of the second input, or of
/// the scalars of the operator, is a failure of the plan.
proof fn operator_failure_hint(
    plan: SExprView,
    correlated: Set<usize>,
    below: RewriterView,
    counted: bool,
    need: bool,
)
    requires
        plan.children.len() >= 1,
    ensures
        flattened(plan.children[0], correlated, below, counted, need) is Some ==> {
            let first = flattened(plan.children[0], correlated, below, counted, need)->Some_0;
            &&& plan.children.len() >= 2 ==> (flatten_failure(
                plan.children[1],
                correlated,
                first.1,
                first.2,
                need,
            ) is Some <==> flattened(plan.children[1], correlated, first.1, first.2, need) is None)
        },
{
    if flattened(plan.children[0], correlated, below, counted, need) is Some {
        let first = flattened(plan.children[0], correlated, below, counted, need)->Some_0;
        if plan.children.len() >= 2 {
            flatten_failure_matches(plan.children[1], correlated, first.1, first.2, need);
        }
    }
}

/// What flattening learns besides the plan.
#[derive(Clone, Copy, Debug, PartialEq, Eq, Structural)]
pub struct FlattenInfo {
    /// Whether a counting aggregate was met.
    pub from_count_func: bool,
}

/// The state of the subquery rewrite: the registry, to which derived
/// columns are added, and the derived column of each correlated column.
#[derive(Debug, PartialEq, Eq)]
pub struct SubqueryRewriter {
    pub metadata: Metadata,
    pub derived_columns: ColumnMap,
}

impl View for SubqueryRewriter {
    type V = RewriterView;

    open spec fn view(&self) -> RewriterView {
        RewriterView { metadata: self.metadata@, derived_columns: self.derived_columns@ }
    }
}

/// Whether `name` is that of a counting aggregate.
pub fn is_count_function(name: &str) -> (b: bool)
    ensures
        b == is_count(name@),
{
    if eq_ignore_ascii_case(name, "count") {
        true
    } else {
        let other = String::from_str("count_distinct");
        let own = String::from_str(name);
        own == other
    }
}

impl SubqueryRewriter {
    /// A rewriter over `metadata`, with no derived column yet.
    pub fn new(metadata: Metadata) -> (r: SubqueryRewriter)
        ensures
            r@ == (RewriterView { metadata: metadata@, derived_columns: Map::empty() }),
    {
        SubqueryRewriter { metadata, derived_columns: ColumnMap::new() }
    }

    /// Replaces in `scalar` every reference to a correlated column by a
    /// reference to its derived column.
    pub fn flatten_scalar(&self, scalar: &ScalarExpr, correlated_columns: &ColumnSet) -> (r: Result<
        ScalarExpr,
        ErrorCode,
    >)
        ensures
            match flattened_scalar(scalar@, correlated_columns@, self@.derived_columns) {
                Some(e) => r is Ok && r->Ok_0@ == e,
                None => r is Err && r->Err_0.code == INTERNAL,
            },
            r is Err ==> Some(r->Err_0.message@) == scalar_failure(
                scalar@,
                correlated_columns@,
                self@.derived_columns,
            ),
            r is Ok ==> scalar_failure(scalar@, correlated_columns@, self@.derived_columns) is None,
        decreases scalar,
    {
        proof {
            reveal_with_fuel(scalar_view, 3);
            scalar_failure_matches(scalar@, correlated_columns@, self@.derived_columns);
        }
        match scalar {
            ScalarExpr::BoundColumnRef { span, column } => {
                if correlated_columns.contains(column.index) {
                    match self.derived_columns.get(column.index) {
                        Some(index) => Ok(
                            make_column_ref(
                                *span,
                                subquery_column_name(index),
                                index,
                                column.data_type.clone(),
                                column.visibility,
                            ),
                        ),
                        None => Err(ErrorCode::internal("Correlated column has no derived column")),
                    }
                } else {
                    Ok(scalar.clone())
                }
            },
            ScalarExpr::ConstantExpr { .. } => Ok(scalar.clone()),
            ScalarExpr::AndExpr { left, right } => {
                let l = match self.flatten_scalar(left, correlated_columns) {
                    Ok(l) => l,
                    Err(e) => {
                        return Err(e);
                    },
                };
                let r = match self.flatten_scalar(right, correlated_columns) {
                    Ok(r) => r,
                    Err(e) => {
                        return Err(e);
                    },
                };
                Ok(ScalarExpr::AndExpr { left: Box::new(l), right: Box::new(r) })
            },
            ScalarExpr::OrExpr { left, right } => {
                let l = match self.flatten_scalar(left, correlated_columns) {
                    Ok(l) => l,
                    Err(e) => {
                        return Err(e);
                    },
                };
                let r = match self.flatten_scalar(right, correlated_columns) {
                    Ok(r) => r,
                    Err(e) => {
                        return Err(e);
                    },
                };
                Ok(ScalarExpr::OrExpr { left: Box::new(l), right: Box::new(r) })
            },
            ScalarExpr::NotExpr { argument } => {
                match self.flatten_scalar(argument, correlated_columns) {
                    Ok(a) => Ok(ScalarExpr::NotExpr { argument: Box::new(a) }),
                    Err(e) => Err(e),
                }
            },
            ScalarExpr::ComparisonExpr { op, left, right } => {
                let l = match self.flatten_scalar(left, correlated_columns) {
                    Ok(l) => l,
                    Err(e) => {
                        return Err(e);
                    },
                };
                let r = match self.flatten_scalar(right, correlated_columns) {
                    Ok(r) => r,
                    Err(e) => {
                        return Err(e);
                    },
                };
                Ok(ScalarExpr::ComparisonExpr { op: *op, left: Box::new(l), right: Box::new(r) })
            },
            ScalarExpr::AggregateFunction(agg) => {
                match self.flatten_scalars(&agg.args, correlated_columns) {
                    Ok(args) => Ok(
                        ScalarExpr::AggregateFunction(
                            AggregateFunction {
                                display_name: agg.display_name.clone(),
                                func_name: agg.func_name.clone(),
                                distinct: agg.distinct,
                                params: clone_literals(&agg.params),
                                args,
                                return_type: agg.return_type.clone(),
                            },
                        ),
                    ),
                    Err(e) => Err(e),
                }
            },
            ScalarExpr::FunctionCall { span, func_name, params, arguments, return_type } => {
                match self.flatten_scalars(arguments, correlated_columns) {
                    Ok(args) => Ok(
                        ScalarExpr::FunctionCall {
                            span: *span,
                            func_name: func_name.clone(),
                            params: clone_indexes(params),
                            arguments: args,
                            return_type: return_type.clone(),
                        },
                    ),
                    Err(e) => Err(e),
                }
            },
            ScalarExpr::CastExpr { span, is_try, argument, target_type } => {
                match self.flatten_scalar(argument, correlated_columns) {
                    Ok(a) => Ok(
                        ScalarExpr::CastExpr {
                            span: *span,
                            is_try: *is_try,
                            argument: Box::new(a),
                            target_type: target_type.clone(),
                        },
                    ),
                    Err(e) => Err(e),
                }
            },
            _ => Err(ErrorCode::internal("Invalid scalar for flattening subquery")),
        }
    }

    /// Flattens every scalar of `list`.
    pub fn flatten_scalars(&self, list: &Vec<ScalarExpr>, correlated_columns: &ColumnSet) -> (r:
        Result<Vec<ScalarExpr>, ErrorCode>)
        ensures
            match flattened_list(scalars_view(*list), correlated_columns@, self@.derived_columns) {
                Some(l) => r is Ok && scalars_view(r->Ok_0) == l,
                None => r is Err && r->Err_0.code == INTERNAL,
            },
            r is Err ==> Some(r->Err_0.message@) == list_failure(
                scalars_view(*list),
                0,
                correlated_columns@,
                self@.derived_columns,
            ),
            r is Ok ==> list_failure(
                scalars_view(*list),
                0,
                correlated_columns@,
                self@.derived_columns,
            ) is None,
        decreases list,
    {
        let ghost all = scalars_view(*list);
        proof {
            list_failure_matches(all, 0, correlated_columns@, self@.derived_columns);
        }
        let mut out: Vec<ScalarExpr> = Vec::new();
        let mut i: usize = 0;
        while i < list.len()
            invariant
                i <= list.len(),
                all == scalars_view(*list),
                out.len() == i,
                forall|j: int|
                    0 <= j < i ==> (#[trigger] flattened_scalar(
                        all[j],
                        correlated_columns@,
                        self@.derived_columns,
                    )) == Some(out[j]@),
                forall|j: int|
                    0 <= j < i ==> scalar_failure(
                        all[j],
                        correlated_columns@,
                        self@.derived_columns,
                    ) is None,
            decreases list.len() - i,
        {
            match self.flatten_scalar(&list[i], correlated_columns) {
                Ok(e) => {
                    out.push(e);
                },
                Err(e) => {
                    assert(flattened_scalar(
                        all[i as int],
                        correlated_columns@,
                        self@.derived_columns,
                    ) is None);
                    proof {
                        list_failure_is_first(
                            all,
                            0,
                            i as nat,
                            correlated_columns@,
                            self@.derived_columns,
                        );
                    }
                    return Err(e);
                },
            }
            i = i + 1;
        }
        proof {
            let spec_list = flattened_list(all, correlated_columns@, self@.derived_columns);
            assert(all.len() == list.len());
            assert forall|j: int| 0 <= j < all.len() implies flattened_scalar(
                all[j],
                correlated_columns@,
                self@.derived_columns,
            ) is Some by {
                assert(0 <= j < i);
            }
            assert(spec_list is Some);
            assert(scalars_view(out) =~= spec_list->Some_0);
        }
        Ok(out)
    }

    /// Flattens the scalar of every item of `items`.
    pub fn flatten_items(&self, items: &Vec<ScalarItem>, correlated_columns: &ColumnSet) -> (r:
        Result<Vec<ScalarItem>, ErrorCode>)
        ensures
            match flattened_items(items_view(*items), correlated_columns@, self@.derived_columns) {
                Some(l) => r is Ok && items_view(r->Ok_0) == l,
                None => r is Err && r->Err_0.code == INTERNAL,
            },
            r is Err ==> Some(r->Err_0.message@) == items_failure(
                items_view(*items),
                0,
                correlated_columns@,
                self@.derived_columns,
            ),
    {
        let ghost all = items_view(*items);
        proof {
            items_failure_matches(all, 0, correlated_columns@, self@.derived_columns);
        }
        let mut out: Vec<ScalarItem> = Vec::new();
        let mut i: usize = 0;
        while i < items.len()
            invariant
                i <= items.len(),
                all == items_view(*items),
                out.len() == i,
                forall|j: int|
                    0 <= j < i ==> (#[trigger] flattened_scalar(
                        all[j].scalar,
                        correlated_columns@,
                        self@.derived_columns,
                    )) == Some(out[j]@.scalar) && out[j]@.index == all[j].index,
                forall|j: int|
                    0 <= j < i ==> scalar_failure(
                        all[j].scalar,
                        correlated_columns@,
                        self@.derived_columns,
                    ) is None,
            decreases items.len() - i,
        {
            match self.flatten_scalar(&items[i].scalar, correlated_columns) {
                Ok(e) => {
                    out.push(ScalarItem { scalar: e, index: items[i].index });
                },
                Err(e) => {
                    assert(flattened_scalar(
                        all[i as int].scalar,
                        correlated_columns@,
                        self@.derived_columns,
                    ) is None);
                    proof {
                        items_failure_is_first(
                            all,
                            0,
                            i as nat,
                            correlated_columns@,
                            self@.derived_columns,
                        );
                    }
                    return Err(e);
                },
            }
            i = i + 1;
        }
        proof {
            let spec_list = flattened_items(all, correlated_columns@, self@.derived_columns);
            assert(spec_list is Some);
            assert(items_view(out) =~= spec_list->Some_0);
        }
        Ok(out)
    }

    /// The item that hands the derived column `column` on, if the registry
    /// has the column.
    pub fn derived_column_item(&self, column: usize) -> (r: Option<ScalarItem>)
        ensures
            column < self@.metadata.columns.len() ==> r is Some && r->Some_0@ == pass_through_item(
                self@.metadata,
                column,
            ),
            column >= self@.metadata.columns.len() ==> r is None,
    {
        let data_type = match self.metadata.column(column) {
            Some(entry) => entry.data_type(),
            None => {
                return None;
            },
        };
        let scalar = make_column_ref(
            None,
            subquery_column_name(column),
            column,
            data_type,
            Visibility::Visible,
        );
        Some(ScalarItem { scalar, index: column })
    }

    /// One item for every derived column, which hands the column on.
    pub fn derived_column_items(&self) -> (r: Result<Vec<ScalarItem>, ErrorCode>)
        ensures
            match pass_through_items(self@) {
                Some(l) => r is Ok && items_view(r->Ok_0) == l,
                None => r is Err && r->Err_0.code == INTERNAL && r->Err_0.message@
                    == derived_missing_message(),
            },
    {
        let (_, values) = self.derived_columns.entries();
        let mut out: Vec<ScalarItem> = Vec::new();
        let mut i: usize = 0;
        while i < values.len()
            invariant
                i <= values.len(),
                values@ == values_by_key(self@.derived_columns),
                out.len() == i,
                forall|j: int| 0 <= j < i ==> values[j] < self@.metadata.columns.len(),
                forall|j: int|
                    0 <= j < i ==> out[j]@ == pass_through_item(self@.metadata, values[j]),
            decreases values.len() - i,
        {
            match self.derived_column_item(values[i]) {
                Some(item) => {
                    out.push(item);
                },
                None => {
                    return Err(ErrorCode::internal("Derived column is not in the metadata"));
                },
            }
            i = i + 1;
        }
        proof {
            let wanted = Seq::new(
                values@.len(),
                |k: int| pass_through_item(self@.metadata, values@[k]),
            );
            assert(pass_through_items(self@) == Some(wanted));
            assert(items_view(out).len() == wanted.len());
            assert forall|k: int| 0 <= k < wanted.len() implies items_view(out)[k]
                == wanted[k] by {
                assert(out[k]@ == pass_through_item(self@.metadata, values[k]));
            }
            assert(items_view(out) =~= wanted);
        }
        Ok(out)
    }

    /// Records what `predicate` contributes to the direct mappings, and
    /// tells whether it allows one.
    pub fn map_directly(&mut self, predicate: &ScalarExpr, correlated_columns: &ColumnSet) -> (ok:
        bool)
        ensures
            (ok, final(self)@.derived_columns) == mapping_step(
                predicate@,
                correlated_columns@,
                old(self)@.derived_columns,
            ),
            final(self)@.metadata == old(self)@.metadata,
    {
        proof {
            reveal_with_fuel(scalar_view, 3);
        }
        if predicate.used_columns().intersects(correlated_columns) {
            match predicate {
                ScalarExpr::ComparisonExpr { op, left, right } => {
                    if *op == ComparisonOp::Equal {
                        match (&**left, &**right) {
                            (
                                ScalarExpr::BoundColumnRef { column: l, .. },
                                ScalarExpr::BoundColumnRef { column: r, .. },
                            ) => {
                                if correlated_columns.contains(l.index)
                                    && !correlated_columns.contains(r.index) {
                                    self.derived_columns.insert(l.index, r.index);
                                }
                                if !correlated_columns.contains(l.index)
                                    && correlated_columns.contains(r.index) {
                                    self.derived_columns.insert(r.index, l.index);
                                }
                                true
                            },
                            _ => false,
                        }
                    } else {
                        false
                    }
                },
                _ => false,
            }
        } else {
            true
        }
    }

    /// Looks for a direct mapping of every correlated column that the
    /// predicates of `filter` name, and tells whether the outer and the
    /// inner table have to be joined because there is none.
    pub fn join_outer_inner_table(&mut self, filter: &Filter, correlated_columns: &ColumnSet) -> (r:
        Result<bool, ErrorCode>)
        ensures
            r is Ok,
            r->Ok_0 == !direct_mappings(
                filter@.predicates,
                correlated_columns@,
                old(self)@.derived_columns,
            ).0,
            final(self)@.derived_columns == direct_mappings(
                filter@.predicates,
                correlated_columns@,
                old(self)@.derived_columns,
            ).1,
            final(self)@.metadata == old(self)@.metadata,
    {
        let ghost all = scalars_view(filter.predicates);
        let ghost start = self@.derived_columns;
        let mut i: usize = 0;
        proof {
            assert(all.take(0) =~= Seq::empty());
        }
        while i < filter.predicates.len()
            invariant
                i <= filter.predicates.len(),
                all == scalars_view(filter.predicates),
                start == old(self)@.derived_columns,
                self@.metadata == old(self)@.metadata,
                direct_mappings(all.take(i as int), correlated_columns@, start) == (
                    true,
                    self@.derived_columns,
                ),
            decreases filter.predicates.len() - i,
        {
            proof {
                assert(all.take(i + 1).drop_last() =~= all.take(i as int));
                assert(all.take(i + 1).last() == all[i as int]);
            }
            let ghost before = self@.derived_columns;
            let ok = self.map_directly(&filter.predicates[i], correlated_columns);
            proof {
                assert(filter.predicates[i as int]@ == all[i as int]);
                assert(direct_mappings(all.take(i as int), correlated_columns@, start) == (
                    true,
                    before,
                ));
                assert(direct_mappings(all.take(i + 1), correlated_columns@, start)
                    == mapping_step(all[i as int], correlated_columns@, before));
            }
            if !ok {
                proof {
                    direct_mappings_stop(all, i as int + 1, correlated_columns@, start);
                }
                return Ok(true);
            }
            i = i + 1;
        }
        assert(all.take(filter.predicates.len() as int) =~= all);
        Ok(false)
    }

    /// Appends to `left_conditions` the key over the derived column of each
    /// correlated column, and to `right_conditions` the key over the
    /// correlated column itself. Keys of different types are cast to their
    /// common type; an internal error where they have none, where a column
    /// has no derived column, or where the registry lacks one of the two.
    pub fn add_equi_conditions(
        &self,
        span: Option<Span>,
        correlated_columns: &ColumnSet,
        left_conditions: &mut Vec<ScalarExpr>,
        right_conditions: &mut Vec<ScalarExpr>,
    ) -> (r: Result<(), ErrorCode>)
        ensures
            match equi_conditions(span, correlated_columns@, self@) {
                Some((l, r2)) => r is Ok && scalars_view(*final(left_conditions)) == scalars_view(
                    *old(left_conditions),
                ) + l && scalars_view(*final(right_conditions)) == scalars_view(
                    *old(right_conditions),
                ) + r2,
                None => r is Err && r->Err_0.code == INTERNAL,
            },
            r is Err ==> Some(r->Err_0.message@) == equi_failure(
                span,
                ordered(correlated_columns@),
                0,
                self@,
            ),
            r is Ok ==> equi_failure(span, ordered(correlated_columns@), 0, self@) is None,
    {
        let columns = correlated_columns.as_vec();
        let ghost left0 = scalars_view(*left_conditions);
        let ghost right0 = scalars_view(*right_conditions);
        let mut i: usize = 0;
        while i < columns.len()
            invariant
                i <= columns.len(),
                columns@ == ordered(correlated_columns@),
                left_conditions.len() == left0.len() + i,
                right_conditions.len() == right0.len() + i,
                forall|j: int| 0 <= j < left0.len() ==> left_conditions[j]@ == left0[j],
                forall|j: int| 0 <= j < right0.len() ==> right_conditions[j]@ == right0[j],
                forall|j: int| 0 <= j < i ==> key_pair(span, columns[j], self@) is Some,
                forall|j: int|
                    0 <= j < i ==> (#[trigger] left_conditions[left0.len() + j]@) == key_pair(
                        span,
                        columns[j],
                        self@,
                    )->Some_0.0,
                forall|j: int|
                    0 <= j < i ==> (#[trigger] right_conditions[right0.len() + j]@) == key_pair(
                        span,
                        columns[j],
                        self@,
                    )->Some_0.1,
            decreases columns.len() - i,
        {
            let correlated_column = columns[i];
            let ghost failed = key_pair(span, correlated_column, self@) is None;
            let data_type = match self.metadata.column(correlated_column) {
                Some(entry) => entry.data_type(),
                None => {
                    assert(failed);
                    proof {
                        equi_failure_is_first(span, columns@, 0, i as nat, self@);
                    }
                    return Err(ErrorCode::internal("Correlated column is not in the metadata"));
                },
            };
            let derive_column = match self.derived_columns.get(correlated_column) {
                Some(d) => d,
                None => {
                    assert(failed);
                    proof {
                        equi_failure_is_first(span, columns@, 0, i as nat, self@);
                    }
                    return Err(ErrorCode::internal("Correlated column has no derived column"));
                },
            };
            let derived_type = match self.metadata.column(derive_column) {
                Some(entry) => entry.data_type(),
                None => {
                    assert(failed);
                    proof {
                        equi_failure_is_first(span, columns@, 0, i as nat, self@);
                    }
                    return Err(ErrorCode::internal("Derived column is not in the metadata"));
                },
            };
            let right_column = make_column_ref(
                span,
                subquery_column_name(correlated_column),
                correlated_column,
                data_type,
                Visibility::Visible,
            );
            let left_column = make_column_ref(
                span,
                subquery_column_name(derive_column),
                derive_column,
                derived_type,
                Visibility::Visible,
            );
            let (left_key, right_key) = match make_equi_pair(&left_column, &right_column) {
                Ok(pair) => pair,
                Err(e) => {
                    assert(failed);
                    proof {
                        equi_failure_is_first(span, columns@, 0, i as nat, self@);
                    }
                    return Err(e);
                },
            };
            left_conditions.push(left_key);
            right_conditions.push(right_key);
            i = i + 1;
        }
        proof {
            equi_failure_is_first(span, columns@, 0, columns@.len(), self@);
            let spec_pair = equi_conditions(span, correlated_columns@, self@)->Some_0;
            assert(scalars_view(*left_conditions) =~= left0 + spec_pair.0) by {
                assert forall|k: int| 0 <= k < left_conditions.len() implies scalars_view(
                    *left_conditions,
                )[k] == (left0 + spec_pair.0)[k] by {
                    if k >= left0.len() {
                        let j = k - left0.len();
                        assert(left_conditions[left0.len() + j]@ == spec_pair.0[j]);
                    }
                }
            }
            assert(scalars_view(*right_conditions) =~= right0 + spec_pair.1) by {
                assert forall|k: int| 0 <= k < right_conditions.len() implies scalars_view(
                    *right_conditions,
                )[k] == (right0 + spec_pair.1)[k] by {
                    if k >= right0.len() {
                        let j = k - right0.len();
                        assert(right_conditions[right0.len() + j]@ == spec_pair.1[j]);
                    }
                }
            }
        }
        Ok(())
    }
}

/// Once a predicate has not allowed a direct mapping, the later ones are
/// not looked at.
pub proof fn direct_mappings_stop(
    predicates: Seq<ScalarView>,
    n: int,
    correlated: Set<usize>,
    derived: Map<usize, usize>,
)
    requires
        0 <= n <= predicates.len(),
        !direct_mappings(predicates.take(n), correlated, derived).0,
    ensures
        direct_mappings(predicates, correlated, derived) == direct_mappings(
            predicates.take(n),
            correlated,
            derived,
        ),
    decreases predicates.len() - n,
{
    if n < predicates.len() {
        assert(predicates.take(n + 1).drop_last() =~= predicates.take(n));
        direct_mappings_stop(predicates, n + 1, correlated, derived);
    } else {
        assert(predicates.take(n) =~= predicates);
    }
}

/// Once a correlated column has no entry in the registry, deriving more
/// columns does not mend it.
pub proof fn derive_columns_fails(columns: Seq<usize>, n: int, st: RewriterView)
    requires
        0 <= n <= columns.len(),
        derive_columns(columns.take(n), st) is None,
    ensures
        derive_columns(columns, st) is None,
    decreases columns.len() - n,
{
    if n < columns.len() {
        assert(columns.take(n + 1).drop_last() =~= columns.take(n));
        derive_columns_fails(columns, n + 1, st);
    } else {
        assert(columns.take(n) =~= columns);
    }
}

/// The items of `a` followed by those of `b`.
pub fn append_items(a: Vec<ScalarItem>, b: Vec<ScalarItem>) -> (r: Vec<ScalarItem>)
    ensures
        items_view(r) == items_view(a) + items_view(b),
{
    let mut r = a;
    let mut tail = b;
    r.append(&mut tail);
    assert(items_view(r) =~= items_view(a) + items_view(b));
    r
}

/// A cross join without conditions.
pub fn make_cross_join() -> (r: RelOperator)
    ensures
        r@ == RelOperatorView::Join(cross_join()),
{
    let join = Join {
        left_conditions: Vec::new(),
        right_conditions: Vec::new(),
        non_equi_conditions: Vec::new(),
        join_type: JoinType::Cross,
        marker_index: None,
        from_correlated_subquery: false,
        contain_runtime_filter: false,
    };
    proof {
        reveal_with_fuel(operator_view, 3);
        assert(join@.left_conditions =~= Seq::empty());
        assert(join@.right_conditions =~= Seq::empty());
        assert(join@.non_equi_conditions =~= Seq::empty());
    }
    RelOperator::Join(join)
}

/// The join `j` as it stands over flattened inputs.
pub fn flatten_join(j: &Join) -> (r: RelOperator)
    ensures
        r@ == flattened_join(j@),
{
    let join = Join {
        left_conditions: clone_scalars(&j.left_conditions),
        right_conditions: clone_scalars(&j.right_conditions),
        non_equi_conditions: clone_scalars(&j.non_equi_conditions),
        join_type: j.join_type,
        marker_index: j.marker_index,
        from_correlated_subquery: false,
        contain_runtime_filter: false,
    };
    proof {
        reveal_with_fuel(operator_view, 2);
    }
    RelOperator::Join(join)
}

/// Whether any item of `items` is a call of a counting aggregate.
pub fn any_count_function(items: &Vec<ScalarItem>) -> (b: bool)
    ensures
        b == any_count(items_view(*items)),
{
    let mut i: usize = 0;
    while i < items.len()
        invariant
            i <= items.len(),
            forall|j: int|
                0 <= j < i ==> !((#[trigger] items_view(*items)[j]).scalar is AggregateFunction
                    && is_count(items_view(*items)[j].scalar->AggregateFunction_0.func_name)),
        decreases items.len() - i,
    {
        proof {
            reveal_with_fuel(scalar_view, 2);
        }
        if let ScalarExpr::AggregateFunction(f) = &items[i].scalar {
            if is_count_function(f.func_name.as_str()) {
                assert(items_view(*items)[i as int].scalar is AggregateFunction);
                return true;
            }
        }
        i = i + 1;
    }
    false
}

impl SubqueryRewriter {
    /// Makes a fresh derived column for each correlated column, in
    /// increasing order of the correlated columns.
    pub fn derive_correlated_columns(&mut self, correlated_columns: &ColumnSet) -> (r: Result<
        (),
        ErrorCode,
    >)
        ensures
            match derive_columns(ordered(correlated_columns@), old(self)@) {
                Some(s) => r is Ok && final(self)@ == s,
                None => r is Err && r->Err_0.code == INTERNAL && r->Err_0.message@
                    == correlated_missing_message(),
            },
    {
        let columns = correlated_columns.as_vec();
        let ghost all = columns@;
        let ghost start = self@;
        let mut i: usize = 0;
        proof {
            assert(all.take(0) =~= Seq::empty());
        }
        while i < columns.len()
            invariant
                i <= columns.len(),
                all == columns@,
                all == ordered(correlated_columns@),
                start == old(self)@,
                derive_columns(all.take(i as int), start) == Some(self@),
            decreases columns.len() - i,
        {
            proof {
                assert(all.take(i + 1).drop_last() =~= all.take(i as int));
                assert(all.take(i + 1).last() == all[i as int]);
            }
            let column = columns[i];
            let (name, data_type) = match self.metadata.column(column) {
                Some(entry) => (entry.name(), entry.data_type().wrap_nullable()),
                None => {
                    proof {
                        derive_columns_fails(all, i + 1, start);
                    }
                    return Err(ErrorCode::internal("Correlated column is not in the metadata"));
                },
            };
            let index = self.metadata.add_derived_column(name, data_type);
            self.derived_columns.insert(column, index);
            i = i + 1;
        }
        assert(all.take(columns.len() as int) =~= all);
        Ok(())
    }

    /// Puts `plan` under a cross join with a scan of fresh derived
    /// columns, one for each correlated column.
    pub fn cross_join_with_derived(&mut self, plan: &SExpr, correlated_columns: &ColumnSet) -> (r:
        Result<SExpr, ErrorCode>)
        ensures
            match cross_joined(plan@, correlated_columns@, old(self)@) {
                Some((t, s)) => r is Ok && r->Ok_0@ == t && final(self)@ == s,
                None => r is Err && r->Err_0.code == INTERNAL,
            },
            r is Err ==> Some(r->Err_0.message@) == cross_join_failure(
                correlated_columns@,
                old(self)@,
            ),
    {
        let table_index = match self.metadata.table_index_by_column_indexes(correlated_columns) {
            Some(t) => t,
            None => {
                return Err(ErrorCode::internal("No table owns the correlated columns"));
            },
        };
        match self.derive_correlated_columns(correlated_columns) {
            Ok(()) => {},
            Err(e) => {
                return Err(e);
            },
        }
        let scan = self.scan_of_derived(table_index);
        let join = make_cross_join();
        Ok(SExpr::create_binary(join, SExpr::create_leaf(scan), plan.clone()))
    }

    /// The scan that delivers the derived columns.
    pub fn scan_of_derived(&self, table_index: usize) -> (r: RelOperator)
        ensures
            r@ == RelOperatorView::Scan(derived_scan(table_index, self@.derived_columns)),
    {
        let (_, values) = self.derived_columns.entries();
        let scan = Scan {
            table_index,
            columns: ColumnSet::from_slice(values),
            push_down_predicates: None,
            limit: None,
            order_by: None,
            prewhere: None,
        };
        proof {
            reveal_with_fuel(operator_view, 2);
        }
        RelOperator::Scan(scan)
    }

    /// The projection `e` over a flattened input.
    pub fn flatten_eval_scalar(&self, e: &EvalScalar, correlated_columns: &ColumnSet) -> (r: Result<
        RelOperator,
        ErrorCode,
    >)
        ensures
            match flattened_eval_scalar(e@, correlated_columns@, self@) {
                Some(op) => r is Ok && r->Ok_0@ == op,
                None => r is Err && r->Err_0.code == INTERNAL,
            },
            r is Err ==> Some(r->Err_0.message@) == operator_failure(
                RelOperatorView::EvalScalar(e@),
                correlated_columns@,
                self@,
            ),
    {
        proof {
            items_failure_matches(e@.items, 0, correlated_columns@, self@.derived_columns);
        }
        let items = match self.flatten_items(&e.items, correlated_columns) {
            Ok(items) => items,
            Err(e) => {
                return Err(e);
            },
        };
        let extra = match self.derived_column_items() {
            Ok(extra) => extra,
            Err(e) => {
                return Err(e);
            },
        };
        let op = RelOperator::EvalScalar(EvalScalar { items: append_items(items, extra) });
        proof {
            reveal_with_fuel(operator_view, 2);
        }
        Ok(op)
    }

    /// The aggregation `a` over a flattened input, and whether it calls a
    /// counting aggregate.
    pub fn flatten_aggregate(&self, a: &Aggregate, correlated_columns: &ColumnSet) -> (r: Result<
        (RelOperator, bool),
        ErrorCode,
    >)
        ensures
            match flattened_aggregate(a@, correlated_columns@, self@) {
                Some(op) => r is Ok && r->Ok_0.0@ == op && r->Ok_0.1 == any_count(
                    op->Aggregate_0.aggregate_functions,
                ),
                None => r is Err && r->Err_0.code == INTERNAL,
            },
            r is Err ==> Some(r->Err_0.message@) == operator_failure(
                RelOperatorView::Aggregate(a@),
                correlated_columns@,
                self@,
            ),
    {
        proof {
            items_failure_matches(a@.group_items, 0, correlated_columns@, self@.derived_columns);
            items_failure_matches(
                a@.aggregate_functions,
                0,
                correlated_columns@,
                self@.derived_columns,
            );
        }
        let groups = match self.flatten_items(&a.group_items, correlated_columns) {
            Ok(items) => items,
            Err(e) => {
                return Err(e);
            },
        };
        let extra = match self.derived_column_items() {
            Ok(extra) => extra,
            Err(e) => {
                return Err(e);
            },
        };
        let functions = match self.flatten_items(&a.aggregate_functions, correlated_columns) {
            Ok(items) => items,
            Err(e) => {
                return Err(e);
            },
        };
        let counted = any_count_function(&functions);
        let op = RelOperator::Aggregate(
            Aggregate {
                mode: AggregateMode::Initial,
                group_items: append_items(groups, extra),
                aggregate_functions: functions,
                from_distinct: a.from_distinct,
                limit: a.limit,
                grouping_id_index: a.grouping_id_index,
                grouping_sets: clone_index_lists(&a.grouping_sets),
            },
        );
        proof {
            reveal_with_fuel(operator_view, 2);
        }
        Ok((op, counted))
    }

    /// The filter `f` over a flattened input.
    pub fn flatten_filter(&self, f: &Filter, correlated_columns: &ColumnSet) -> (r: Result<
        RelOperator,
        ErrorCode,
    >)
        ensures
            match flattened_list(f@.predicates, correlated_columns@, self@.derived_columns) {
                Some(predicates) => r is Ok && r->Ok_0@ == RelOperatorView::Filter(
                    FilterView { predicates, is_having: f.is_having },
                ),
                None => r is Err && r->Err_0.code == INTERNAL,
            },
            r is Err ==> Some(r->Err_0.message@) == operator_failure(
                RelOperatorView::Filter(f@),
                correlated_columns@,
                self@,
            ),
    {
        let predicates = match self.flatten_scalars(&f.predicates, correlated_columns) {
            Ok(p) => p,
            Err(e) => {
                return Err(e);
            },
        };
        let op = RelOperator::Filter(Filter { predicates, is_having: f.is_having });
        proof {
            reveal_with_fuel(operator_view, 2);
        }
        Ok(op)
    }

    /// Flattens `plan`: rewrites it so that it no longer refers to the
    /// correlated columns but to their derived columns.
    ///
    /// A plan whose properties cannot be derived fails with the error of
    /// the derivation. A plan with outer columns whose root is an operator
    /// that cannot be flattened fails with the error for an invalid plan
    /// type.
    pub fn flatten(
        &mut self,
        plan: &SExpr,
        correlated_columns: &ColumnSet,
        flatten_info: &mut FlattenInfo,
        need_cross_join: bool,
    ) -> (r: Result<SExpr, ErrorCode>)
        ensures
            match flattened(
                plan@,
                correlated_columns@,
                old(self)@,
                old(flatten_info).from_count_func,
                need_cross_join,
            ) {
                Some((t, s, n)) => {
                    &&& r is Ok
                    &&& r->Ok_0@ == t
                    &&& final(self)@ == s
                    &&& final(flatten_info).from_count_func == n
                },
                None => r is Err && r->Err_0.code == INTERNAL,
            },
            r is Err ==> Some(r->Err_0.message@) == flatten_failure(
                plan@,
                correlated_columns@,
                old(self)@,
                old(flatten_info).from_count_func,
                need_cross_join,
            ),
            !derivable(plan@) ==> r is Err && r->Err_0.message@ == underivable_message(),
            derivable(plan@) && outer_columns(plan@) != Set::<usize>::empty() && !is_flattenable(
                plan@.plan,
            ) ==> r is Err && r->Err_0.message@ == invalid_plan_message(),
        decreases plan, 1nat,
    {
        proof {
            sexpr_view_parts(*plan);
            reveal_with_fuel(operator_view, 2);
        }
        let prop = match derive_relational_prop(plan) {
            Ok(p) => p,
            Err(e) => {
                return Err(e);
            },
        };
        if prop.outer_columns.is_empty() {
            if !need_cross_join {
                return Ok(plan.clone());
            }
            return self.cross_join_with_derived(plan, correlated_columns);
        }
        match &plan.plan {
            RelOperator::EvalScalar(_) => self.flatten_below_eval_scalar(
                plan,
                correlated_columns,
                flatten_info,
                need_cross_join,
            ),
            RelOperator::Filter(_) => self.flatten_below_filter(
                plan,
                correlated_columns,
                flatten_info,
                need_cross_join,
            ),
            RelOperator::Join(_) => self.flatten_below_join(
                plan,
                correlated_columns,
                flatten_info,
                need_cross_join,
            ),
            RelOperator::Aggregate(_) => self.flatten_below_aggregate(
                plan,
                correlated_columns,
                flatten_info,
                need_cross_join,
            ),
            RelOperator::Sort(_) => self.flatten_below_sort(
                plan,
                correlated_columns,
                flatten_info,
                need_cross_join,
            ),
            RelOperator::Limit(_) => self.flatten_below_limit(
                plan,
                correlated_columns,
                flatten_info,
                need_cross_join,
            ),
            RelOperator::UnionAll(_) => self.flatten_below_union(
                plan,
                correlated_columns,
                flatten_info,
                need_cross_join,
            ),
            _ => Err(ErrorCode::internal("Invalid plan type for flattening subquery")),
        }
    }

    /// Flattens a projection and what is below it.
    fn flatten_below_eval_scalar(
        &mut self,
        plan: &SExpr,
        correlated_columns: &ColumnSet,
        flatten_info: &mut FlattenInfo,
        need_cross_join: bool,
    ) -> (r: Result<SExpr, ErrorCode>)
        requires
            plan@.plan is EvalScalar,
            derivable(plan@),
            outer_columns(plan@) != Set::<usize>::empty(),
        ensures
            match flattened(
                plan@,
                correlated_columns@,
                old(self)@,
                old(flatten_info).from_count_func,
                need_cross_join,
            ) {
                Some((t, s, n)) => {
                    &&& r is Ok
                    &&& r->Ok_0@ == t
                    &&& final(self)@ == s
                    &&& final(flatten_info).from_count_func == n
                },
                None => r is Err && r->Err_0.code == INTERNAL,
            },
            r is Err ==> Some(r->Err_0.message@) == flatten_failure(
                plan@,
                correlated_columns@,
                old(self)@,
                old(flatten_info).from_count_func,
                need_cross_join,
            ),
        decreases plan, 0nat,
    {
        proof {
            sexpr_view_parts(*plan);
            reveal_with_fuel(operator_view, 2);
            if plan@.children.len() >= 1 {
                let ghost below = state_below(
                    plan@.plan,
                    correlated_columns@,
                    old(self)@,
                    need_cross_join,
                );
                let ghost need = need_below(
                    plan@.plan,
                    correlated_columns@,
                    old(self)@,
                    need_cross_join,
                );
                flatten_failure_matches(
                    plan@.children[0],
                    correlated_columns@,
                    below,
                    old(flatten_info).from_count_func,
                    need,
                );
                operator_failure_hint(plan@, correlated_columns@, below, old(flatten_info).from_count_func, need);
            }
        }
        if let RelOperator::EvalScalar(e) = &plan.plan {
            let need = need_cross_join || items_used_columns(&e.items).intersects(
                correlated_columns,
            );
            let child = match plan.child(0) {
                Ok(c) => c,
                Err(e) => {
                        return Err(e);
                },
            };
            let flatten_plan = match self.flatten(child, correlated_columns, flatten_info, need) {
                Ok(p) => p,
                Err(e) => {
                        return Err(e);
                },
            };
            match self.flatten_eval_scalar(e, correlated_columns) {
                Ok(op) => Ok(SExpr::create_unary(op, flatten_plan)),
                Err(e) => Err(e),
            }
        } else {
            Err(ErrorCode::internal("Invalid plan type for flattening subquery"))
        }
    }

    /// Flattens a filter and what is below it.
    fn flatten_below_filter(
        &mut self,
        plan: &SExpr,
        correlated_columns: &ColumnSet,
        flatten_info: &mut FlattenInfo,
        need_cross_join: bool,
    ) -> (r: Result<SExpr, ErrorCode>)
        requires
            plan@.plan is Filter,
            derivable(plan@),
            outer_columns(plan@) != Set::<usize>::empty(),
        ensures
            match flattened(
                plan@,
                correlated_columns@,
                old(self)@,
                old(flatten_info).from_count_func,
                need_cross_join,
            ) {
                Some((t, s, n)) => {
                    &&& r is Ok
                    &&& r->Ok_0@ == t
                    &&& final(self)@ == s
                    &&& final(flatten_info).from_count_func == n
                },
                None => r is Err && r->Err_0.code == INTERNAL,
            },
            r is Err ==> Some(r->Err_0.message@) == flatten_failure(
                plan@,
                correlated_columns@,
                old(self)@,
                old(flatten_info).from_count_func,
                need_cross_join,
            ),
        decreases plan, 0nat,
    {
        proof {
            sexpr_view_parts(*plan);
            reveal_with_fuel(operator_view, 2);
            if plan@.children.len() >= 1 {
                let ghost below = state_below(
                    plan@.plan,
                    correlated_columns@,
                    old(self)@,
                    need_cross_join,
                );
                let ghost need = need_below(
                    plan@.plan,
                    correlated_columns@,
                    old(self)@,
                    need_cross_join,
                );
                flatten_failure_matches(
                    plan@.children[0],
                    correlated_columns@,
                    below,
                    old(flatten_info).from_count_func,
                    need,
                );
                operator_failure_hint(plan@, correlated_columns@, below, old(flatten_info).from_count_func, need);
            }
        }
        if let RelOperator::Filter(f) = &plan.plan {
            let mut need = need_cross_join;
            if !need {
                need = match self.join_outer_inner_table(f, correlated_columns) {
                    Ok(n) => n,
                    Err(e) => {
                        return Err(e);
                    },
                };
                if need {
                    self.derived_columns.clear();
                }
            }
            let child = match plan.child(0) {
                Ok(c) => c,
                Err(e) => {
                        return Err(e);
                },
            };
            let flatten_plan = match self.flatten(child, correlated_columns, flatten_info, need) {
                Ok(p) => p,
                Err(e) => {
                        return Err(e);
                },
            };
            match self.flatten_filter(f, correlated_columns) {
                Ok(op) => Ok(SExpr::create_unary(op, flatten_plan)),
                Err(e) => Err(e),
            }
        } else {
            Err(ErrorCode::internal("Invalid plan type for flattening subquery"))
        }
    }

    /// Flattens a join and what is below it.
    fn flatten_below_join(
        &mut self,
        plan: &SExpr,
        correlated_columns: &ColumnSet,
        flatten_info: &mut FlattenInfo,
        need_cross_join: bool,
    ) -> (r: Result<SExpr, ErrorCode>)
        requires
            plan@.plan is Join,
            derivable(plan@),
            outer_columns(plan@) != Set::<usize>::empty(),
        ensures
            match flattened(
                plan@,
                correlated_columns@,
                old(self)@,
                old(flatten_info).from_count_func,
                need_cross_join,
            ) {
                Some((t, s, n)) => {
                    &&& r is Ok
                    &&& r->Ok_0@ == t
                    &&& final(self)@ == s
                    &&& final(flatten_info).from_count_func == n
                },
                None => r is Err && r->Err_0.code == INTERNAL,
            },
            r is Err ==> Some(r->Err_0.message@) == flatten_failure(
                plan@,
                correlated_columns@,
                old(self)@,
                old(flatten_info).from_count_func,
                need_cross_join,
            ),
        decreases plan, 0nat,
    {
        proof {
            sexpr_view_parts(*plan);
            reveal_with_fuel(operator_view, 2);
            if plan@.children.len() >= 1 {
                let ghost below = state_below(
                    plan@.plan,
                    correlated_columns@,
                    old(self)@,
                    need_cross_join,
                );
                let ghost need = need_below(
                    plan@.plan,
                    correlated_columns@,
                    old(self)@,
                    need_cross_join,
                );
                flatten_failure_matches(
                    plan@.children[0],
                    correlated_columns@,
                    below,
                    old(flatten_info).from_count_func,
                    need,
                );
                operator_failure_hint(plan@, correlated_columns@, below, old(flatten_info).from_count_func, need);
            }
        }
        if let RelOperator::Join(j) = &plan.plan {
            let need = need_cross_join || operator_used_columns(&plan.plan).intersects(
                correlated_columns,
            );
            let c0 = match plan.child(0) {
                Ok(c) => c,
                Err(e) => {
                        return Err(e);
                },
            };
            let left = match self.flatten(c0, correlated_columns, flatten_info, need) {
                Ok(p) => p,
                Err(e) => {
                        return Err(e);
                },
            };
            let c1 = match plan.child(1) {
                Ok(c) => c,
                Err(e) => {
                        return Err(e);
                },
            };
            let right = match self.flatten(c1, correlated_columns, flatten_info, need) {
                Ok(p) => p,
                Err(e) => {
                        return Err(e);
                },
            };
            Ok(SExpr::create_binary(flatten_join(j), left, right))
        } else {
            Err(ErrorCode::internal("Invalid plan type for flattening subquery"))
        }
    }

    /// Flattens an aggregation and what is below it.
    fn flatten_below_aggregate(
        &mut self,
        plan: &SExpr,
        correlated_columns: &ColumnSet,
        flatten_info: &mut FlattenInfo,
        need_cross_join: bool,
    ) -> (r: Result<SExpr, ErrorCode>)
        requires
            plan@.plan is Aggregate,
            derivable(plan@),
            outer_columns(plan@) != Set::<usize>::empty(),
        ensures
            match flattened(
                plan@,
                correlated_columns@,
                old(self)@,
                old(flatten_info).from_count_func,
                need_cross_join,
            ) {
                Some((t, s, n)) => {
                    &&& r is Ok
                    &&& r->Ok_0@ == t
                    &&& final(self)@ == s
                    &&& final(flatten_info).from_count_func == n
                },
                None => r is Err && r->Err_0.code == INTERNAL,
            },
            r is Err ==> Some(r->Err_0.message@) == flatten_failure(
                plan@,
                correlated_columns@,
                old(self)@,
                old(flatten_info).from_count_func,
                need_cross_join,
            ),
        decreases plan, 0nat,
    {
        proof {
            sexpr_view_parts(*plan);
            reveal_with_fuel(operator_view, 2);
            if plan@.children.len() >= 1 {
                let ghost below = state_below(
                    plan@.plan,
                    correlated_columns@,
                    old(self)@,
                    need_cross_join,
                );
                let ghost need = need_below(
                    plan@.plan,
                    correlated_columns@,
                    old(self)@,
                    need_cross_join,
                );
                flatten_failure_matches(
                    plan@.children[0],
                    correlated_columns@,
                    below,
                    old(flatten_info).from_count_func,
                    need,
                );
                operator_failure_hint(plan@, correlated_columns@, below, old(flatten_info).from_count_func, need);
            }
        }
        if let RelOperator::Aggregate(a) = &plan.plan {
            let need = need_cross_join || operator_used_columns(&plan.plan).intersects(
                correlated_columns,
            );
            let child = match plan.child(0) {
                Ok(c) => c,
                Err(e) => {
                        return Err(e);
                },
            };
            let flatten_plan = match self.flatten(child, correlated_columns, flatten_info, need) {
                Ok(p) => p,
                Err(e) => {
                        return Err(e);
                },
            };
            match self.flatten_aggregate(a, correlated_columns) {
                Ok((op, counted)) => {
                    if counted {
                        flatten_info.from_count_func = true;
                    }
                    Ok(SExpr::create_unary(op, flatten_plan))
                },
                Err(e) => Err(e),
            }
        } else {
            Err(ErrorCode::internal("Invalid plan type for flattening subquery"))
        }
    }

    /// Flattens what is below a sort.
    fn flatten_below_sort(
        &mut self,
        plan: &SExpr,
        correlated_columns: &ColumnSet,
        flatten_info: &mut FlattenInfo,
        need_cross_join: bool,
    ) -> (r: Result<SExpr, ErrorCode>)
        requires
            plan@.plan is Sort,
            derivable(plan@),
            outer_columns(plan@) != Set::<usize>::empty(),
        ensures
            match flattened(
                plan@,
                correlated_columns@,
                old(self)@,
                old(flatten_info).from_count_func,
                need_cross_join,
            ) {
                Some((t, s, n)) => {
                    &&& r is Ok
                    &&& r->Ok_0@ == t
                    &&& final(self)@ == s
                    &&& final(flatten_info).from_count_func == n
                },
                None => r is Err && r->Err_0.code == INTERNAL,
            },
            r is Err ==> Some(r->Err_0.message@) == flatten_failure(
                plan@,
                correlated_columns@,
                old(self)@,
                old(flatten_info).from_count_func,
                need_cross_join,
            ),
        decreases plan, 0nat,
    {
        proof {
            sexpr_view_parts(*plan);
            reveal_with_fuel(operator_view, 2);
            if plan@.children.len() >= 1 {
                let ghost below = state_below(
                    plan@.plan,
                    correlated_columns@,
                    old(self)@,
                    need_cross_join,
                );
                let ghost need = need_below(
                    plan@.plan,
                    correlated_columns@,
                    old(self)@,
                    need_cross_join,
                );
                flatten_failure_matches(
                    plan@.children[0],
                    correlated_columns@,
                    below,
                    old(flatten_info).from_count_func,
                    need,
                );
                operator_failure_hint(plan@, correlated_columns@, below, old(flatten_info).from_count_func, need);
            }
        }
        let need = need_cross_join;
        let child = match plan.child(0) {
            Ok(c) => c,
            Err(e) => {
                return Err(e);
            },
        };
        let flatten_plan = match self.flatten(child, correlated_columns, flatten_info, need) {
            Ok(p) => p,
            Err(e) => {
                return Err(e);
            },
        };
        Ok(SExpr::create_unary(plan.plan.clone(), flatten_plan))
    }

    /// Flattens what is below a limit.
    fn flatten_below_limit(
        &mut self,
        plan: &SExpr,
        correlated_columns: &ColumnSet,
        flatten_info: &mut FlattenInfo,
        need_cross_join: bool,
    ) -> (r: Result<SExpr, ErrorCode>)
        requires
            plan@.plan is Limit,
            derivable(plan@),
            outer_columns(plan@) != Set::<usize>::empty(),
        ensures
            match flattened(
                plan@,
                correlated_columns@,
                old(self)@,
                old(flatten_info).from_count_func,
                need_cross_join,
            ) {
                Some((t, s, n)) => {
                    &&& r is Ok
                    &&& r->Ok_0@ == t
                    &&& final(self)@ == s
                    &&& final(flatten_info).from_count_func == n
                },
                None => r is Err && r->Err_0.code == INTERNAL,
            },
            r is Err ==> Some(r->Err_0.message@) == flatten_failure(
                plan@,
                correlated_columns@,
                old(self)@,
                old(flatten_info).from_count_func,
                need_cross_join,
            ),
        decreases plan, 0nat,
    {
        proof {
            sexpr_view_parts(*plan);
            reveal_with_fuel(operator_view, 2);
            if plan@.children.len() >= 1 {
                let ghost below = state_below(
                    plan@.plan,
                    correlated_columns@,
                    old(self)@,
                    need_cross_join,
                );
                let ghost need = need_below(
                    plan@.plan,
                    correlated_columns@,
                    old(self)@,
                    need_cross_join,
                );
                flatten_failure_matches(
                    plan@.children[0],
                    correlated_columns@,
                    below,
                    old(flatten_info).from_count_func,
                    need,
                );
                operator_failure_hint(plan@, correlated_columns@, below, old(flatten_info).from_count_func, need);
            }
        }
        let need = need_cross_join;
        let child = match plan.child(0) {
            Ok(c) => c,
            Err(e) => {
                return Err(e);
            },
        };
        let flatten_plan = match self.flatten(child, correlated_columns, flatten_info, need) {
            Ok(p) => p,
            Err(e) => {
                return Err(e);
            },
        };
        Ok(SExpr::create_unary(plan.plan.clone(), flatten_plan))
    }

    /// Flattens what is below a union.
    #[verifier::rlimit(40)]
    fn flatten_below_union(
        &mut self,
        plan: &SExpr,
        correlated_columns: &ColumnSet,
        flatten_info: &mut FlattenInfo,
        need_cross_join: bool,
    ) -> (r: Result<SExpr, ErrorCode>)
        requires
            plan@.plan is UnionAll,
            derivable(plan@),
            outer_columns(plan@) != Set::<usize>::empty(),
        ensures
            match flattened(
                plan@,
                correlated_columns@,
                old(self)@,
                old(flatten_info).from_count_func,
                need_cross_join,
            ) {
                Some((t, s, n)) => {
                    &&& r is Ok
                    &&& r->Ok_0@ == t
                    &&& final(self)@ == s
                    &&& final(flatten_info).from_count_func == n
                },
                None => r is Err && r->Err_0.code == INTERNAL,
            },
            r is Err ==> Some(r->Err_0.message@) == flatten_failure(
                plan@,
                correlated_columns@,
                old(self)@,
                old(flatten_info).from_count_func,
                need_cross_join,
            ),
        decreases plan, 0nat,
    {
        proof {
            sexpr_view_parts(*plan);
            reveal_with_fuel(operator_view, 2);
            if plan@.children.len() >= 1 {
                let ghost below = state_below(
                    plan@.plan,
                    correlated_columns@,
                    old(self)@,
                    need_cross_join,
                );
                let ghost need = need_below(
                    plan@.plan,
                    correlated_columns@,
                    old(self)@,
                    need_cross_join,
                );
                flatten_failure_matches(
                    plan@.children[0],
                    correlated_columns@,
                    below,
                    old(flatten_info).from_count_func,
                    need,
                );
                operator_failure_hint(plan@, correlated_columns@, below, old(flatten_info).from_count_func, need);
            }
        }
        let need = need_cross_join || operator_used_columns(&plan.plan).intersects(
            correlated_columns,
        );
        let c0 = match plan.child(0) {
            Ok(c) => c,
            Err(e) => {
                return Err(e);
            },
        };
        let left = match self.flatten(c0, correlated_columns, flatten_info, need) {
            Ok(p) => p,
            Err(e) => {
                return Err(e);
            },
        };
        let c1 = match plan.child(1) {
            Ok(c) => c,
            Err(e) => {
                return Err(e);
            },
        };
        let right = match self.flatten(c1, correlated_columns, flatten_info, need) {
            Ok(p) => p,
            Err(e) => {
                return Err(e);
            },
        };
        Ok(SExpr::create_binary(plan.plan.clone(), left, right))
    }

}

} // verus!
