//! What a scalar expression refers to, what type it has, and whether a
//! subquery is left in it.

use crate::columns::{ColumnSet};
use crate::error::{Span};
use crate::ir::{ColumnBinding, ColumnBindingView, ScalarExpr, ScalarItem, ScalarItemView, ScalarView, Visibility, items_view, scalar_view, scalars_view};
use crate::types::{DataType, wrapped_nullable};
use vstd::prelude::*;

verus! {

/// The columns that a scalar expression refers to. A subquery refers to
/// the columns of the enclosing query that it names, and to those of the
/// left side of its comparison.
pub open spec fn used_columns(e: ScalarView) -> Set<usize>
    decreases e,
{
    match e {
        ScalarView::BoundColumnRef { column, .. } => set![column.index],
        ScalarView::BoundInternalColumnRef { column, .. } => set![column.index],
        ScalarView::ConstantExpr { .. } => Set::empty(),
        ScalarView::AndExpr { left, right } => used_columns(*left).union(used_columns(*right)),
        ScalarView::OrExpr { left, right } => used_columns(*left).union(used_columns(*right)),
        ScalarView::NotExpr { argument } => used_columns(*argument),
        ScalarView::ComparisonExpr { left, right, .. } => used_columns(*left).union(
            used_columns(*right),
        ),
        ScalarView::FunctionCall { arguments, .. } => used_in(arguments),
        ScalarView::CastExpr { argument, .. } => used_columns(*argument),
        ScalarView::AggregateFunction(f) => used_in(f.args),
        ScalarView::WindowFunction(f) => used_in(f.agg_func.args).union(used_in(f.partition_by)),
        ScalarView::Unnest { argument, .. } => used_columns(*argument),
        ScalarView::SubqueryExpr(q) => q.outer_columns.union(
            match q.child_expr {
                Some(c) => used_columns(*c),
                None => Set::empty(),
            },
        ),
    }
}

/// The columns that any of the expressions refers to.
pub open spec fn used_in(list: Seq<ScalarView>) -> Set<usize>
    decreases list,
{
    Set::new(|c: usize| exists|i: int| 0 <= i < list.len() && used_columns(list[i]).contains(c))
}

/// The columns that the scalar of any of the items refers to.
pub open spec fn used_in_items(items: Seq<ScalarItemView>) -> Set<usize> {
    Set::new(
        |c: usize| exists|i: int| 0 <= i < items.len() && used_columns(items[i].scalar).contains(c),
    )
}

/// The columns that the items define.
pub open spec fn item_indexes(items: Seq<ScalarItemView>) -> Set<usize> {
    Set::new(|c: usize| exists|i: int| 0 <= i < items.len() && items[i].index == c)
}

/// Whether a subquery occurs in the expression.
pub open spec fn has_subquery(e: ScalarView) -> bool
    decreases e,
{
    match e {
        ScalarView::BoundColumnRef { .. } => false,
        ScalarView::BoundInternalColumnRef { .. } => false,
        ScalarView::ConstantExpr { .. } => false,
        ScalarView::AndExpr { left, right } => has_subquery(*left) || has_subquery(*right),
        ScalarView::OrExpr { left, right } => has_subquery(*left) || has_subquery(*right),
        ScalarView::NotExpr { argument } => has_subquery(*argument),
        ScalarView::ComparisonExpr { left, right, .. } => has_subquery(*left) || has_subquery(
            *right,
        ),
        ScalarView::FunctionCall { arguments, .. } => any_subquery(arguments),
        ScalarView::CastExpr { argument, .. } => has_subquery(*argument),
        ScalarView::AggregateFunction(f) => any_subquery(f.args),
        ScalarView::WindowFunction(f) => any_subquery(f.agg_func.args) || any_subquery(
            f.partition_by,
        ),
        ScalarView::Unnest { argument, .. } => has_subquery(*argument),
        ScalarView::SubqueryExpr(_) => true,
    }
}

/// Whether a subquery occurs in any of the expressions.
pub open spec fn any_subquery(list: Seq<ScalarView>) -> bool
    decreases list,
{
    exists|i: int| 0 <= i < list.len() && has_subquery(list[i])
}

/// Whether a subquery occurs in the scalar of any of the items.
pub open spec fn any_subquery_in_items(items: Seq<ScalarItemView>) -> bool {
    exists|i: int| 0 <= i < items.len() && has_subquery(items[i].scalar)
}

/// The type of the value that the expression yields.
pub open spec fn data_type_of(e: ScalarView) -> DataType {
    match e {
        ScalarView::BoundColumnRef { column, .. } => column.data_type,
        ScalarView::BoundInternalColumnRef { column, .. } => column.data_type,
        ScalarView::ConstantExpr { data_type, .. } => data_type,
        ScalarView::AndExpr { .. } => DataType::Boolean,
        ScalarView::OrExpr { .. } => DataType::Boolean,
        ScalarView::NotExpr { .. } => DataType::Boolean,
        ScalarView::ComparisonExpr { .. } => DataType::Boolean,
        ScalarView::FunctionCall { return_type, .. } => return_type,
        ScalarView::CastExpr { is_try, target_type, .. } => if is_try {
            wrapped_nullable(target_type)
        } else {
            target_type
        },
        ScalarView::AggregateFunction(f) => f.return_type,
        ScalarView::WindowFunction(f) => f.agg_func.return_type,
        ScalarView::Unnest { return_type, .. } => return_type,
        ScalarView::SubqueryExpr(q) => q.data_type,
    }
}

/// The place in the statement that the expression came from, where it
/// records one.
pub open spec fn span_of(e: ScalarView) -> Option<Span> {
    match e {
        ScalarView::BoundColumnRef { span, .. } => span,
        ScalarView::BoundInternalColumnRef { span, .. } => span,
        ScalarView::ConstantExpr { span, .. } => span,
        ScalarView::FunctionCall { span, .. } => span,
        ScalarView::CastExpr { span, .. } => span,
        ScalarView::SubqueryExpr(q) => q.span,
        _ => None,
    }
}

/// The expression under an explicit cast to `target`.
pub open spec fn cast_to(e: ScalarView, target: DataType) -> ScalarView {
    ScalarView::CastExpr {
        span: span_of(e),
        is_try: false,
        argument: Box::new(e),
        target_type: target,
    }
}

/// A reference to the column `index` under the name `name`, visible and
/// without table or database.
pub open spec fn column_ref(
    span: Option<Span>,
    name: Seq<char>,
    index: usize,
    data_type: DataType,
    visibility: Visibility,
) -> ScalarView {
    ScalarView::BoundColumnRef {
        span,
        column: ColumnBindingView {
            database_name: None,
            table_name: None,
            column_name: name,
            index,
            data_type,
            visibility,
        },
    }
}

/// Adding one expression to a list adds its columns.
pub proof fn used_in_push(list: Seq<ScalarView>, e: ScalarView)
    ensures
        used_in(list.push(e)) == used_in(list).union(used_columns(e)),
{
    let longer = list.push(e);
    assert forall|c: usize| used_in(longer).contains(c) <==> used_in(list).union(
        used_columns(e),
    ).contains(c) by {
        if used_in(longer).contains(c) {
            let i = choose|i: int| 0 <= i < longer.len() && used_columns(longer[i]).contains(c);
            if i < list.len() {
                assert(longer[i] == list[i]);
            }
        }
        if used_in(list).contains(c) {
            let i = choose|i: int| 0 <= i < list.len() && used_columns(list[i]).contains(c);
            assert(longer[i] == list[i]);
        }
        if used_columns(e).contains(c) {
            assert(longer[list.len() as int] == e);
        }
    }
    assert(used_in(longer) =~= used_in(list).union(used_columns(e)));
}

/// Adding one item to a list adds the columns of its scalar.
pub proof fn used_in_items_push(items: Seq<ScalarItemView>, item: ScalarItemView)
    ensures
        used_in_items(items.push(item)) == used_in_items(items).union(used_columns(item.scalar)),
        item_indexes(items.push(item)) == item_indexes(items).insert(item.index),
{
    let longer = items.push(item);
    assert forall|c: usize| used_in_items(longer).contains(c) <==> used_in_items(items).union(
        used_columns(item.scalar),
    ).contains(c) by {
        if used_in_items(longer).contains(c) {
            let i = choose|i: int|
                0 <= i < longer.len() && used_columns(longer[i].scalar).contains(c);
            if i < items.len() {
                assert(longer[i] == items[i]);
            }
        }
        if used_in_items(items).contains(c) {
            let i = choose|i: int| 0 <= i < items.len() && used_columns(items[i].scalar).contains(c);
            assert(longer[i] == items[i]);
        }
        if used_columns(item.scalar).contains(c) {
            assert(longer[items.len() as int] == item);
        }
    }
    assert(used_in_items(longer) =~= used_in_items(items).union(used_columns(item.scalar)));
    assert forall|c: usize| item_indexes(longer).contains(c) <==> item_indexes(items).insert(
        item.index,
    ).contains(c) by {
        if item_indexes(longer).contains(c) {
            let i = choose|i: int| 0 <= i < longer.len() && longer[i].index == c;
            if i < items.len() {
                assert(longer[i] == items[i]);
            }
        }
        if item_indexes(items).contains(c) {
            let i = choose|i: int| 0 <= i < items.len() && items[i].index == c;
            assert(longer[i] == items[i]);
        }
        if c == item.index {
            assert(longer[items.len() as int] == item);
        }
    }
    assert(item_indexes(longer) =~= item_indexes(items).insert(item.index));
}

/// The columns that `e` refers to.
pub fn scalar_used_columns(e: &ScalarExpr) -> (r: ColumnSet)
    ensures
        r@ == used_columns(e@),
    decreases e,
{
    proof {
        reveal_with_fuel(scalar_view, 4);
    }
    match e {
        ScalarExpr::BoundColumnRef { column, .. } => {
            let mut s = ColumnSet::new();
            s.insert(column.index);
            assert(s@ =~= set![column.index]);
            s
        },
        ScalarExpr::BoundInternalColumnRef { column, .. } => {
            let mut s = ColumnSet::new();
            s.insert(column.index);
            assert(s@ =~= set![column.index]);
            s
        },
        ScalarExpr::ConstantExpr { .. } => ColumnSet::new(),
        ScalarExpr::AndExpr { left, right } => scalar_used_columns(left).union(
            &scalar_used_columns(right),
        ),
        ScalarExpr::OrExpr { left, right } => scalar_used_columns(left).union(
            &scalar_used_columns(right),
        ),
        ScalarExpr::NotExpr { argument } => scalar_used_columns(argument),
        ScalarExpr::ComparisonExpr { left, right, .. } => scalar_used_columns(left).union(
            &scalar_used_columns(right),
        ),
        ScalarExpr::FunctionCall { arguments, .. } => list_used_columns(arguments),
        ScalarExpr::CastExpr { argument, .. } => scalar_used_columns(argument),
        ScalarExpr::AggregateFunction(f) => list_used_columns(&f.args),
        ScalarExpr::WindowFunction(f) => list_used_columns(&f.agg_func.args).union(
            &list_used_columns(&f.partition_by),
        ),
        ScalarExpr::Unnest { argument, .. } => scalar_used_columns(argument),
        ScalarExpr::SubqueryExpr(q) => {
            match &q.child_expr {
                Some(c) => q.outer_columns.union(&scalar_used_columns(c)),
                None => {
                    let r = q.outer_columns.clone();
                    assert(r@ =~= q.outer_columns@.union(Set::empty()));
                    r
                },
            }
        },
    }
}

/// The columns that any expression of `list` refers to.
pub fn list_used_columns(list: &Vec<ScalarExpr>) -> (r: ColumnSet)
    ensures
        r@ == used_in(scalars_view(*list)),
    decreases list,
{
    let mut acc = ColumnSet::new();
    let mut i: usize = 0;
    assert(acc@ =~= used_in(scalars_view(*list).take(0)));
    while i < list.len()
        invariant
            i <= list.len(),
            acc@ == used_in(scalars_view(*list).take(i as int)),
        decreases list.len() - i,
    {
        let u = scalar_used_columns(&list[i]);
        acc = acc.union(&u);
        proof {
            let all = scalars_view(*list);
            used_in_push(all.take(i as int), all[i as int]);
            assert(all.take(i + 1) =~= all.take(i as int).push(all[i as int]));
        }
        i = i + 1;
    }
    assert(scalars_view(*list).take(list.len() as int) =~= scalars_view(*list));
    acc
}

/// The columns that the scalar of any item of `items` refers to.
pub fn items_used_columns(items: &Vec<ScalarItem>) -> (r: ColumnSet)
    ensures
        r@ == used_in_items(items_view(*items)),
{
    let mut acc = ColumnSet::new();
    let mut i: usize = 0;
    assert(acc@ =~= used_in_items(items_view(*items).take(0)));
    while i < items.len()
        invariant
            i <= items.len(),
            acc@ == used_in_items(items_view(*items).take(i as int)),
        decreases items.len() - i,
    {
        let u = scalar_used_columns(&items[i].scalar);
        acc = acc.union(&u);
        proof {
            let all = items_view(*items);
            used_in_items_push(all.take(i as int), all[i as int]);
            assert(all.take(i + 1) =~= all.take(i as int).push(all[i as int]));
        }
        i = i + 1;
    }
    assert(items_view(*items).take(items.len() as int) =~= items_view(*items));
    acc
}

/// The columns that the items of `items` define.
pub fn items_indexes(items: &Vec<ScalarItem>) -> (r: ColumnSet)
    ensures
        r@ == item_indexes(items_view(*items)),
{
    let mut acc = ColumnSet::new();
    let mut i: usize = 0;
    assert(acc@ =~= item_indexes(items_view(*items).take(0)));
    while i < items.len()
        invariant
            i <= items.len(),
            acc@ == item_indexes(items_view(*items).take(i as int)),
        decreases items.len() - i,
    {
        acc.insert(items[i].index);
        proof {
            let all = items_view(*items);
            used_in_items_push(all.take(i as int), all[i as int]);
            assert(all.take(i + 1) =~= all.take(i as int).push(all[i as int]));
        }
        i = i + 1;
    }
    assert(items_view(*items).take(items.len() as int) =~= items_view(*items));
    acc
}

/// Whether a subquery occurs in `e`.
pub fn contain_subquery(e: &ScalarExpr) -> (b: bool)
    ensures
        b == has_subquery(e@),
    decreases e,
{
    proof {
        reveal_with_fuel(scalar_view, 4);
    }
    match e {
        ScalarExpr::BoundColumnRef { .. } => false,
        ScalarExpr::BoundInternalColumnRef { .. } => false,
        ScalarExpr::ConstantExpr { .. } => false,
        ScalarExpr::AndExpr { left, right } => contain_subquery(left) || contain_subquery(right),
        ScalarExpr::OrExpr { left, right } => contain_subquery(left) || contain_subquery(right),
        ScalarExpr::NotExpr { argument } => contain_subquery(argument),
        ScalarExpr::ComparisonExpr { left, right, .. } => contain_subquery(left)
            || contain_subquery(right),
        ScalarExpr::FunctionCall { arguments, .. } => list_contain_subquery(arguments),
        ScalarExpr::CastExpr { argument, .. } => contain_subquery(argument),
        ScalarExpr::AggregateFunction(f) => list_contain_subquery(&f.args),
        ScalarExpr::WindowFunction(f) => list_contain_subquery(&f.agg_func.args)
            || list_contain_subquery(&f.partition_by),
        ScalarExpr::Unnest { argument, .. } => contain_subquery(argument),
        ScalarExpr::SubqueryExpr(_) => true,
    }
}

/// Whether a subquery occurs in any expression of `list`.
pub fn list_contain_subquery(list: &Vec<ScalarExpr>) -> (b: bool)
    ensures
        b == any_subquery(scalars_view(*list)),
    decreases list,
{
    let mut i: usize = 0;
    while i < list.len()
        invariant
            i <= list.len(),
            forall|j: int| 0 <= j < i ==> !has_subquery(scalars_view(*list)[j]),
        decreases list.len() - i,
    {
        if contain_subquery(&list[i]) {
            assert(has_subquery(scalars_view(*list)[i as int]));
            return true;
        }
        i = i + 1;
    }
    false
}

/// Whether a subquery occurs in the scalar of any item of `items`.
pub fn items_contain_subquery(items: &Vec<ScalarItem>) -> (b: bool)
    ensures
        b == any_subquery_in_items(items_view(*items)),
{
    let mut i: usize = 0;
    while i < items.len()
        invariant
            i <= items.len(),
            forall|j: int| 0 <= j < i ==> !has_subquery(items_view(*items)[j].scalar),
        decreases items.len() - i,
    {
        if contain_subquery(&items[i].scalar) {
            assert(has_subquery(items_view(*items)[i as int].scalar));
            return true;
        }
        i = i + 1;
    }
    false
}

impl ScalarExpr {
    /// The columns that this expression refers to.
    pub fn used_columns(&self) -> (r: ColumnSet)
        ensures
            r@ == used_columns(self@),
    {
        scalar_used_columns(self)
    }

    /// The type of the value that this expression yields.
    pub fn data_type(&self) -> (t: DataType)
        ensures
            t == data_type_of(self@),
    {
        proof {
            reveal_with_fuel(scalar_view, 4);
        }
        match self {
            ScalarExpr::BoundColumnRef { column, .. } => column.data_type.clone(),
            ScalarExpr::BoundInternalColumnRef { column, .. } => column.data_type.clone(),
            ScalarExpr::ConstantExpr { data_type, .. } => data_type.clone(),
            ScalarExpr::AndExpr { .. } => DataType::Boolean,
            ScalarExpr::OrExpr { .. } => DataType::Boolean,
            ScalarExpr::NotExpr { .. } => DataType::Boolean,
            ScalarExpr::ComparisonExpr { .. } => DataType::Boolean,
            ScalarExpr::FunctionCall { return_type, .. } => return_type.clone(),
            ScalarExpr::CastExpr { is_try, target_type, .. } => if *is_try {
                target_type.wrap_nullable()
            } else {
                target_type.clone()
            },
            ScalarExpr::AggregateFunction(f) => f.return_type.clone(),
            ScalarExpr::WindowFunction(f) => f.agg_func.return_type.clone(),
            ScalarExpr::Unnest { return_type, .. } => return_type.clone(),
            ScalarExpr::SubqueryExpr(q) => q.data_type.clone(),
        }
    }

    /// The place in the statement that this expression came from.
    pub fn span(&self) -> (s: Option<Span>)
        ensures
            s == span_of(self@),
    {
        proof {
            reveal_with_fuel(scalar_view, 4);
        }
        match self {
            ScalarExpr::BoundColumnRef { span, .. } => *span,
            ScalarExpr::BoundInternalColumnRef { span, .. } => *span,
            ScalarExpr::ConstantExpr { span, .. } => *span,
            ScalarExpr::FunctionCall { span, .. } => *span,
            ScalarExpr::CastExpr { span, .. } => *span,
            ScalarExpr::SubqueryExpr(q) => q.span,
            _ => None,
        }
    }

    /// Whether a subquery occurs in this expression.
    pub fn has_subquery(&self) -> (b: bool)
        ensures
            b == has_subquery(self@),
    {
        contain_subquery(self)
    }
}

/// `scalar` under an explicit cast to `target`.
pub fn wrap_cast(scalar: &ScalarExpr, target: &DataType) -> (r: ScalarExpr)
    ensures
        r@ == cast_to(scalar@, *target),
{
    ScalarExpr::CastExpr {
        span: scalar.span(),
        is_try: false,
        argument: Box::new(scalar.clone()),
        target_type: target.clone(),
    }
}

/// A reference to column `index` under the name `name`.
pub fn make_column_ref(
    span: Option<Span>,
    name: String,
    index: usize,
    data_type: DataType,
    visibility: Visibility,
) -> (r: ScalarExpr)
    ensures
        r@ == column_ref(span, name@, index, data_type, visibility),
{
    ScalarExpr::BoundColumnRef {
        span,
        column: ColumnBinding {
            database_name: None,
            table_name: None,
            column_name: name,
            index,
            data_type,
            visibility,
        },
    }
}

} // verus!
