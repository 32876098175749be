//! The binding of `ORDER BY`: which column each sort key names, and the
//! plan that sorts by them.

use crate::copy::{clone_indexes, clone_literals, clone_scalar};
use crate::error::{ErrorCode, SEMANTIC_ERROR, Span};
use crate::ir::{AggregateFunction, AggregateFunctionView, ColumnBinding, ColumnBindingView, EvalScalar, EvalScalarView, RelOperator, RelOperatorView, SExpr, SExprView, ScalarExpr, ScalarItem, ScalarItemView, ScalarView, Sort, SortItem, SortView, Visibility, item_view, items_view, operator_view, opt_text, scalar_view, scalars_view};
use crate::metadata::{Metadata, MetadataView, with_derived};
use crate::prune::{unary};
use crate::scalar::{data_type_of};
use crate::text::{decimal, push_decimal};
use vstd::prelude::*;
use vstd::string::*;

verus! {

/// The expression of a sort key, as far as the binding reads it.
#[derive(Debug, PartialEq, Eq)]
pub enum OrderExpr {
    /// A column, named with or without its table and database.
    ColumnRef { database: Option<String>, table: Option<String>, column: String, span: Option<Span> },
    /// A position in the select list, counted from one.
    Position { index: u64, span: Option<Span> },
    /// Any other expression, bound already; `display` is its text.
    Scalar { scalar: ScalarExpr, display: String, span: Option<Span> },
}

/// A sort key as the statement gives it.
#[derive(Debug, PartialEq, Eq)]
pub struct OrderByExpr {
    pub expr: OrderExpr,
    pub asc: Option<bool>,
    pub nulls_first: Option<bool>,
}

/// A sort key, resolved to a column.
#[derive(Debug, PartialEq, Eq)]
pub struct OrderItem {
    pub asc: Option<bool>,
    pub nulls_first: Option<bool>,
    pub index: usize,
    pub name: String,
    /// Whether the column has to be computed before the sort.
    pub need_eval_scalar: bool,
}

/// The resolved sort keys.
#[derive(Debug, PartialEq, Eq)]
pub struct OrderItems {
    pub items: Vec<OrderItem>,
}

/// The view of a resolved sort key.
pub ghost struct OrderItemView {
    pub asc: Option<bool>,
    pub nulls_first: Option<bool>,
    pub index: usize,
    pub name: Seq<char>,
    pub need_eval_scalar: bool,
}

impl View for OrderItem {
    type V = OrderItemView;

    open spec fn view(&self) -> OrderItemView {
        OrderItemView {
            asc: self.asc,
            nulls_first: self.nulls_first,
            index: self.index,
            name: self.name@,
            need_eval_scalar: self.need_eval_scalar,
        }
    }
}

/// The views of the resolved sort keys.
pub open spec fn order_items_view(items: Seq<OrderItem>) -> Seq<OrderItemView> {
    Seq::new(items.len(), |i: int| items[i]@)
}

/// Whether a column binding answers to a name, given with or without its
/// table and database.
///
/// An unqualified name matches by column name, unless the column is
/// visible only under a qualified wildcard. A name qualified by a table
/// matches by table and column name. A name qualified by database and table
/// matches by all three. A name qualified by a database alone matches
/// nothing.
pub open spec fn matches_binding(
    database: Option<Seq<char>>,
    table: Option<Seq<char>>,
    column: Seq<char>,
    binding: ColumnBindingView,
) -> bool {
    match (database, table) {
        (None, None) => column == binding.column_name && binding.visibility
            != Visibility::UnqualifiedWildcardInVisible,
        (None, Some(t)) => binding.table_name == Some(t) && column == binding.column_name,
        (Some(d), Some(t)) => binding.database_name == Some(d) && binding.table_name == Some(t)
            && column == binding.column_name,
        (Some(_), None) => false,
    }
}

/// Whether `binding` answers to the name.
pub fn match_column_binding(
    database: &Option<String>,
    table: &Option<String>,
    column: &String,
    binding: &ColumnBinding,
) -> (b: bool)
    ensures
        b == matches_binding(opt_text(*database), opt_text(*table), column@, binding@),
{
    match (database, table) {
        (None, None) => {
            *column == binding.column_name && match binding.visibility {
                Visibility::UnqualifiedWildcardInVisible => false,
                _ => true,
            }
        },
        (None, Some(t)) => {
            match &binding.table_name {
                Some(name) => *t == *name && *column == binding.column_name,
                None => false,
            }
        },
        (Some(d), Some(t)) => {
            match (&binding.database_name, &binding.table_name) {
                (Some(db_name), Some(name)) => *d == *db_name && *t == *name && *column
                    == binding.column_name,
                _ => false,
            }
        },
        (Some(_), None) => false,
    }
}

/// The position of the first binding that answers to the name.
pub open spec fn first_match(
    database: Option<Seq<char>>,
    table: Option<Seq<char>>,
    column: Seq<char>,
    bindings: Seq<ColumnBindingView>,
    n: nat,
) -> Option<nat>
    decreases n,
{
    if n == 0 {
        None
    } else {
        match first_match(database, table, column, bindings, (n - 1) as nat) {
            Some(i) => Some(i),
            None => if matches_binding(database, table, column, bindings[n - 1]) {
                Some((n - 1) as nat)
            } else {
                None
            },
        }
    }
}

/// The views of column bindings.
pub open spec fn bindings_view(bindings: Seq<ColumnBinding>) -> Seq<ColumnBindingView> {
    Seq::new(bindings.len(), |i: int| bindings[i]@)
}

/// The position of the first binding of `bindings` that answers to the
/// name.
pub fn find_binding(
    database: &Option<String>,
    table: &Option<String>,
    column: &String,
    bindings: &Vec<ColumnBinding>,
) -> (r: Option<usize>)
    ensures
        match first_match(
            opt_text(*database),
            opt_text(*table),
            column@,
            bindings_view(bindings@),
            bindings.len() as nat,
        ) {
            Some(i) => r == Some(i as usize) && i < bindings.len(),
            None => r is None,
        },
{
    let ghost all = bindings_view(bindings@);
    let mut i: usize = 0;
    while i < bindings.len()
        invariant
            i <= bindings.len(),
            all == bindings_view(bindings@),
            first_match(opt_text(*database), opt_text(*table), column@, all, i as nat) is None,
        decreases bindings.len() - i,
    {
        if match_column_binding(database, table, column, &bindings[i]) {
            proof {
                first_match_stays(
                    opt_text(*database),
                    opt_text(*table),
                    column@,
                    all,
                    (i + 1) as nat,
                    bindings.len() as nat,
                );
            }
            return Some(i);
        }
        i = i + 1;
    }
    None
}

/// The first match among the first `n` bindings is the first match among
/// any longer prefix.
pub proof fn first_match_stays(
    database: Option<Seq<char>>,
    table: Option<Seq<char>>,
    column: Seq<char>,
    bindings: Seq<ColumnBindingView>,
    n: nat,
    m: nat,
)
    requires
        n <= m,
        first_match(database, table, column, bindings, n) is Some,
    ensures
        first_match(database, table, column, bindings, m) == first_match(
            database,
            table,
            column,
            bindings,
            n,
        ),
    decreases m,
{
    if n < m {
        first_match_stays(database, table, column, bindings, n, (m - 1) as nat);
    }
}

/// The scalar that defines column `index`, if the items hold one: that of
/// the first item for the column.
pub open spec fn scalar_of(items: Seq<ScalarItemView>, index: usize, n: nat) -> Option<ScalarView>
    decreases n,
{
    if n == 0 {
        None
    } else {
        match scalar_of(items, index, (n - 1) as nat) {
            Some(s) => Some(s),
            None => if items[n - 1].index == index {
                Some(items[n - 1].scalar)
            } else {
                None
            },
        }
    }
}

/// The position of the first item of `items` that defines column `index`.
pub fn find_item(items: &Vec<ScalarItem>, index: usize) -> (r: Option<usize>)
    ensures
        match r {
            Some(i) => i < items.len() && items[i as int].index == index && scalar_of(
                items_view(*items),
                index,
                items.len() as nat,
            ) == Some(items[i as int]@.scalar),
            None => scalar_of(items_view(*items), index, items.len() as nat) is None,
        },
{
    let ghost all = items_view(*items);
    let mut i: usize = 0;
    while i < items.len()
        invariant
            i <= items.len(),
            all == items_view(*items),
            scalar_of(all, index, i as nat) is None,
        decreases items.len() - i,
    {
        if items[i].index == index {
            proof {
                assert(all[i as int] == items[i as int]@);
                scalar_of_stays(all, index, (i + 1) as nat, items.len() as nat);
            }
            return Some(i);
        }
        proof {
            assert(all[i as int] == items[i as int]@);
        }
        i = i + 1;
    }
    None
}

/// The first item for a column among the first `n` items is the first
/// among any longer prefix.
pub proof fn scalar_of_stays(items: Seq<ScalarItemView>, index: usize, n: nat, m: nat)
    requires
        n <= m,
        scalar_of(items, index, n) is Some,
    ensures
        scalar_of(items, index, m) == scalar_of(items, index, n),
    decreases m,
{
    if n < m {
        scalar_of_stays(items, index, n, (m - 1) as nat);
    }
}

/// Whether column `index` has to be computed before a sort by it: it is
/// defined by an item whose scalar is more than a reference to a column.
pub open spec fn needs_eval(items: Seq<ScalarItemView>, index: usize) -> bool {
    match scalar_of(items, index, items.len()) {
        Some(s) => !(s is BoundColumnRef),
        None => false,
    }
}

/// Whether column `index` has to be computed before a sort by it.
pub fn need_eval_scalar(items: &Vec<ScalarItem>, index: usize) -> (b: bool)
    ensures
        b == needs_eval(items_view(*items), index),
{
    proof {
        reveal_with_fuel(scalar_view, 1);
    }
    match find_item(items, index) {
        Some(i) => {
            proof {
                reveal_with_fuel(item_view, 2);
            }
            match &items[i].scalar {
                ScalarExpr::BoundColumnRef { .. } => false,
                _ => true,
            }
        },
        None => false,
    }
}

/// The message for a position that the select list does not have.
pub open spec fn position_message(position: u64) -> Seq<char> {
    "ORDER BY position "@ + decimal(position as nat) + " is not in select list"@
}

/// The sort key for position `position` of the select list, counted from
/// one; `None` where the select list has no such position.
pub open spec fn item_at_position(
    position: u64,
    asc: Option<bool>,
    nulls_first: Option<bool>,
    projections: Seq<ColumnBindingView>,
    scalar_items: Seq<ScalarItemView>,
) -> Option<OrderItemView> {
    if 1 <= position <= projections.len() {
        let p = projections[position - 1];
        Some(
            OrderItemView {
                asc,
                nulls_first,
                index: p.index,
                name: p.column_name,
                need_eval_scalar: needs_eval(scalar_items, p.index),
            },
        )
    } else {
        None
    }
}

/// Resolves a sort key that is a position in the select list.
///
/// Fails with a semantic error, at the place of the key, where the
/// position is zero or beyond the end of the select list.
pub fn order_item_at_position(
    position: u64,
    span: Option<Span>,
    asc: Option<bool>,
    nulls_first: Option<bool>,
    projections: &Vec<ColumnBinding>,
    scalar_items: &Vec<ScalarItem>,
) -> (r: Result<OrderItem, ErrorCode>)
    ensures
        match item_at_position(
            position,
            asc,
            nulls_first,
            bindings_view(projections@),
            items_view(*scalar_items),
        ) {
            Some(item) => r is Ok && r->Ok_0@ == item,
            None => r is Err && r->Err_0.code == SEMANTIC_ERROR && r->Err_0.message@
                == position_message(position) && r->Err_0.span == span,
        },
{
    if position == 0 || position > projections.len() as u64 {
        let mut message = String::from_str("ORDER BY position ");
        push_decimal(&mut message, position);
        message.append(" is not in select list");
        return Err(ErrorCode::semantic_error(message.as_str()).set_span(span));
    }
    let at = (position - 1) as usize;
    let p = &projections[at];
    assert(bindings_view(projections@)[at as int] == p@);
    Ok(
        OrderItem {
            asc,
            nulls_first,
            index: p.index,
            name: p.column_name.clone(),
            need_eval_scalar: need_eval_scalar(scalar_items, p.index),
        },
    )
}

/// The sort key for a column that the select list has: that of the first
/// projection that answers to the name.
pub open spec fn item_in_select_list(
    database: Option<Seq<char>>,
    table: Option<Seq<char>>,
    column: Seq<char>,
    asc: Option<bool>,
    nulls_first: Option<bool>,
    projections: Seq<ColumnBindingView>,
    scalar_items: Seq<ScalarItemView>,
) -> Option<OrderItemView> {
    match first_match(database, table, column, projections, projections.len()) {
        Some(i) => Some(
            OrderItemView {
                asc,
                nulls_first,
                index: projections[i as int].index,
                name: projections[i as int].column_name,
                need_eval_scalar: needs_eval(scalar_items, projections[i as int].index),
            },
        ),
        None => None,
    }
}

/// The sort key for a column that only the `FROM` clause has: that of the
/// first of its columns that answers to the name. Such a column needs no
/// computing.
pub open spec fn item_in_from_clause(
    database: Option<Seq<char>>,
    table: Option<Seq<char>>,
    column: Seq<char>,
    asc: Option<bool>,
    nulls_first: Option<bool>,
    from_columns: Seq<ColumnBindingView>,
) -> Option<OrderItemView> {
    match first_match(database, table, column, from_columns, from_columns.len()) {
        Some(i) => Some(
            OrderItemView {
                asc,
                nulls_first,
                index: from_columns[i as int].index,
                name: from_columns[i as int].column_name,
                need_eval_scalar: false,
            },
        ),
        None => None,
    }
}

/// Resolves a sort key that names a column.
///
/// The select list is searched first, then the columns of the `FROM`
/// clause. A key that only the `FROM` clause can satisfy is a semantic
/// error under `SELECT DISTINCT`; a key that nothing satisfies is a
/// semantic error as well.
pub fn order_item_for_column(
    database: &Option<String>,
    table: &Option<String>,
    column: &String,
    span: Option<Span>,
    asc: Option<bool>,
    nulls_first: Option<bool>,
    from_columns: &Vec<ColumnBinding>,
    scalar_items: &Vec<ScalarItem>,
    projections: &Vec<ColumnBinding>,
    distinct: bool,
) -> (r: Result<OrderItem, ErrorCode>)
    ensures
        match item_in_select_list(
            opt_text(*database),
            opt_text(*table),
            column@,
            asc,
            nulls_first,
            bindings_view(projections@),
            items_view(*scalar_items),
        ) {
            Some(item) => r is Ok && r->Ok_0@ == item,
            None => match item_in_from_clause(
                opt_text(*database),
                opt_text(*table),
                column@,
                asc,
                nulls_first,
                bindings_view(from_columns@),
            ) {
                Some(item) => if distinct {
                    r is Err && r->Err_0.code == SEMANTIC_ERROR && r->Err_0.span == span
                        && r->Err_0.message@ == distinct_message()
                } else {
                    r is Ok && r->Ok_0@ == item
                },
                None => r is Err && r->Err_0.code == SEMANTIC_ERROR && r->Err_0.span == span
                    && r->Err_0.message@ == no_column_message(),
            },
        },
{
    // The select list first.
    match find_binding(database, table, column, projections) {
        Some(i) => {
            let item = &projections[i];
            assert(bindings_view(projections@)[i as int] == item@);
            return Ok(
                OrderItem {
                    asc,
                    nulls_first,
                    index: item.index,
                    name: item.column_name.clone(),
                    need_eval_scalar: need_eval_scalar(scalar_items, item.index),
                },
            );
        },
        None => {},
    }
    // No alias in the select list answers: fall back to the from clause.
    match find_binding(database, table, column, from_columns) {
        Some(i) => {
            if distinct {
                return Err(
                    ErrorCode::semantic_error(
                        "for SELECT DISTINCT, ORDER BY expressions must appear in select list",
                    ).set_span(span),
                );
            }
            let item = &from_columns[i];
            assert(bindings_view(from_columns@)[i as int] == item@);
            Ok(
                OrderItem {
                    asc,
                    nulls_first,
                    index: item.index,
                    name: item.column_name.clone(),
                    need_eval_scalar: false,
                },
            )
        },
        None => Err(ErrorCode::semantic_error("column doesn't exist").set_span(span)),
    }
}

/// The scalar with every reference to a column that the items define
/// replaced by the scalar that defines it.
pub open spec fn replaced(e: ScalarView, items: Seq<ScalarItemView>) -> ScalarView
    decreases e,
{
    match e {
        ScalarView::BoundColumnRef { column, .. } => match scalar_of(
            items,
            column.index,
            items.len(),
        ) {
            Some(s) => s,
            None => e,
        },
        ScalarView::AndExpr { left, right } => ScalarView::AndExpr {
            left: Box::new(replaced(*left, items)),
            right: Box::new(replaced(*right, items)),
        },
        ScalarView::OrExpr { left, right } => ScalarView::OrExpr {
            left: Box::new(replaced(*left, items)),
            right: Box::new(replaced(*right, items)),
        },
        ScalarView::NotExpr { argument } => ScalarView::NotExpr {
            argument: Box::new(replaced(*argument, items)),
        },
        ScalarView::ComparisonExpr { op, left, right } => ScalarView::ComparisonExpr {
            op,
            left: Box::new(replaced(*left, items)),
            right: Box::new(replaced(*right, items)),
        },
        ScalarView::AggregateFunction(f) => ScalarView::AggregateFunction(
            AggregateFunctionView { args: replaced_list(f.args, items), ..f },
        ),
        ScalarView::FunctionCall {
            span,
            func_name,
            params,
            arguments,
            return_type,
        } => ScalarView::FunctionCall {
            span,
            func_name,
            params,
            arguments: replaced_list(arguments, items),
            return_type,
        },
        ScalarView::CastExpr { span, is_try, argument, target_type } => ScalarView::CastExpr {
            span,
            is_try,
            argument: Box::new(replaced(*argument, items)),
            target_type,
        },
        _ => e,
    }
}

/// The scalars of a list, each with its column references replaced.
pub open spec fn replaced_list(list: Seq<ScalarView>, items: Seq<ScalarItemView>) -> Seq<ScalarView>
    decreases list,
{
    Seq::new(
        list.len(),
        |i: int|
            if 0 <= i < list.len() {
                replaced(list[i], items)
            } else {
                arbitrary()
            },
    )
}

/// Replaces in `scalar` every reference to a column that
/// `scalar_items` defines by the scalar that defines it.
pub fn rewrite_scalar_with_replacement(scalar: &ScalarExpr, scalar_items: &Vec<ScalarItem>) -> (r:
    ScalarExpr)
    ensures
        r@ == replaced(scalar@, items_view(*scalar_items)),
    decreases scalar,
{
    proof {
        reveal_with_fuel(scalar_view, 3);
    }
    match scalar {
        ScalarExpr::BoundColumnRef { column, .. } => {
            match find_item(scalar_items, column.index) {
                Some(i) => {
                    proof {
                        reveal_with_fuel(item_view, 2);
                    }
                    clone_scalar(&scalar_items[i].scalar)
                },
                None => clone_scalar(scalar),
            }
        },
        ScalarExpr::AndExpr { left, right } => ScalarExpr::AndExpr {
            left: Box::new(rewrite_scalar_with_replacement(left, scalar_items)),
            right: Box::new(rewrite_scalar_with_replacement(right, scalar_items)),
        },
        ScalarExpr::OrExpr { left, right } => ScalarExpr::OrExpr {
            left: Box::new(rewrite_scalar_with_replacement(left, scalar_items)),
            right: Box::new(rewrite_scalar_with_replacement(right, scalar_items)),
        },
        ScalarExpr::NotExpr { argument } => ScalarExpr::NotExpr {
            argument: Box::new(rewrite_scalar_with_replacement(argument, scalar_items)),
        },
        ScalarExpr::ComparisonExpr { op, left, right } => ScalarExpr::ComparisonExpr {
            op: *op,
            left: Box::new(rewrite_scalar_with_replacement(left, scalar_items)),
            right: Box::new(rewrite_scalar_with_replacement(right, scalar_items)),
        },
        ScalarExpr::AggregateFunction(f) => ScalarExpr::AggregateFunction(
            AggregateFunction {
                display_name: f.display_name.clone(),
                func_name: f.func_name.clone(),
                distinct: f.distinct,
                params: clone_literals(&f.params),
                args: rewrite_list_with_replacement(&f.args, scalar_items),
                return_type: f.return_type.clone(),
            },
        ),
        ScalarExpr::FunctionCall {
            span,
            func_name,
            params,
            arguments,
            return_type,
        } => ScalarExpr::FunctionCall {
            span: *span,
            func_name: func_name.clone(),
            params: clone_indexes(params),
            arguments: rewrite_list_with_replacement(arguments, scalar_items),
            return_type: return_type.clone(),
        },
        ScalarExpr::CastExpr { span, is_try, argument, target_type } => ScalarExpr::CastExpr {
            span: *span,
            is_try: *is_try,
            argument: Box::new(rewrite_scalar_with_replacement(argument, scalar_items)),
            target_type: target_type.clone(),
        },
        _ => clone_scalar(scalar),
    }
}

/// Replaces column references in every scalar of `list`.
pub fn rewrite_list_with_replacement(list: &Vec<ScalarExpr>, scalar_items: &Vec<ScalarItem>) -> (out:
    Vec<ScalarExpr>)
    ensures
        scalars_view(out) == replaced_list(scalars_view(*list), items_view(*scalar_items)),
    decreases list,
{
    let mut out: Vec<ScalarExpr> = Vec::new();
    let mut i: usize = 0;
    while i < list.len()
        invariant
            i <= list.len(),
            out.len() == i,
            forall|j: int|
                0 <= j < i ==> out[j]@ == replaced(list[j]@, items_view(*scalar_items)),
        decreases list.len() - i,
    {
        out.push(rewrite_scalar_with_replacement(&list[i], scalar_items));
        i = i + 1;
    }
    assert(scalars_view(out) =~= replaced_list(scalars_view(*list), items_view(*scalar_items)));
    out
}

/// The sort key of a resolved item: ascending unless the statement says
/// otherwise, absent values first or last as the statement says, or else as
/// the dialect has it.
pub open spec fn sort_item_of(item: OrderItemView, default_nulls_first: bool) -> SortItem {
    SortItem {
        index: item.index,
        asc: match item.asc {
            Some(a) => a,
            None => true,
        },
        nulls_first: match item.nulls_first {
            Some(n) => n,
            None => default_nulls_first,
        },
    }
}

/// The sort keys of the resolved items.
pub open spec fn sort_items_of(items: Seq<OrderItemView>, default_nulls_first: bool) -> Seq<SortItem> {
    Seq::new(items.len(), |i: int| sort_item_of(items[i], default_nulls_first))
}

/// The scalars that have to be computed before the sort: for each of the
/// first `n` sort keys that needs one, in order, the scalar that defines
/// its column, where one does.
pub open spec fn order_scalars(
    items: Seq<OrderItemView>,
    scalar_items: Seq<ScalarItemView>,
    n: nat,
) -> Seq<ScalarItemView>
    decreases n,
{
    if n == 0 {
        Seq::empty()
    } else {
        let rest = order_scalars(items, scalar_items, (n - 1) as nat);
        let item = items[n - 1];
        if item.need_eval_scalar {
            match scalar_of(scalar_items, item.index, scalar_items.len()) {
                Some(s) => rest.push(ScalarItemView { scalar: s, index: item.index }),
                None => rest,
            }
        } else {
            rest
        }
    }
}

/// The plan that sorts `child` by the resolved sort keys: `child`, under
/// a projection that computes the scalars the keys need, where there are
/// any, under the sort.
pub open spec fn ordered_plan(
    items: Seq<OrderItemView>,
    scalar_items: Seq<ScalarItemView>,
    default_nulls_first: bool,
    child: SExprView,
) -> SExprView {
    let scalars = order_scalars(items, scalar_items, items.len());
    let input = if scalars.len() > 0 {
        unary(RelOperatorView::EvalScalar(EvalScalarView { items: scalars }), child)
    } else {
        child
    };
    unary(
        RelOperatorView::Sort(
            SortView { items: sort_items_of(items, default_nulls_first), limit: None },
        ),
        input,
    )
}

/// Builds the plan that sorts `child` by `order_by`.
pub fn bind_order_by(
    order_by: &OrderItems,
    scalar_items: &Vec<ScalarItem>,
    default_nulls_first: bool,
    child: SExpr,
) -> (r: SExpr)
    ensures
        r@ == ordered_plan(
            order_items_view(order_by.items@),
            items_view(*scalar_items),
            default_nulls_first,
            child@,
        ),
{
    let ghost items = order_items_view(order_by.items@);
    let ghost defined = items_view(*scalar_items);
    let mut order_by_items: Vec<SortItem> = Vec::new();
    let mut scalars: Vec<ScalarItem> = Vec::new();
    let mut i: usize = 0;
    proof {
        assert(items_view(scalars) =~= order_scalars(items, defined, 0));
    }
    while i < order_by.items.len()
        invariant
            i <= order_by.items.len(),
            items == order_items_view(order_by.items@),
            defined == items_view(*scalar_items),
            order_by_items@ == Seq::new(
                i as nat,
                |k: int| sort_item_of(items[k], default_nulls_first),
            ),
            items_view(scalars) == order_scalars(items, defined, i as nat),
        decreases order_by.items.len() - i,
    {
        let order = &order_by.items[i];
        assert(items[i as int] == order@);
        if order.need_eval_scalar {
            match find_item(scalar_items, order.index) {
                Some(at) => {
                    let ghost before = items_view(scalars);
                    proof {
                        reveal_with_fuel(item_view, 2);
                    }
                    let item = ScalarItem {
                        scalar: clone_scalar(&scalar_items[at].scalar),
                        index: order.index,
                    };
                    scalars.push(item);
                    assert(items_view(scalars) =~= before.push(item@));
                },
                None => {},
            }
        }
        let asc = match order.asc {
            Some(a) => a,
            None => true,
        };
        let nulls_first = match order.nulls_first {
            Some(n) => n,
            None => default_nulls_first,
        };
        order_by_items.push(SortItem { index: order.index, asc, nulls_first });
        assert(order_by_items@ =~= Seq::new(
            (i + 1) as nat,
            |k: int| sort_item_of(items[k], default_nulls_first),
        ));
        i = i + 1;
    }
    let input = if scalars.len() > 0 {
        let op = RelOperator::EvalScalar(EvalScalar { items: scalars });
        proof {
            reveal_with_fuel(operator_view, 2);
        }
        SExpr::create_unary(op, child)
    } else {
        child
    };
    let sort = RelOperator::Sort(Sort { items: order_by_items, limit: None });
    proof {
        reveal_with_fuel(operator_view, 2);
        assert(order_by_items@ =~= sort_items_of(items, default_nulls_first));
    }
    SExpr::create_unary(sort, input)
}

/// The view of the expression of a sort key.
pub ghost enum OrderExprView {
    ColumnRef {
        database: Option<Seq<char>>,
        table: Option<Seq<char>>,
        column: Seq<char>,
        span: Option<Span>,
    },
    Position { index: u64, span: Option<Span> },
    Scalar { scalar: ScalarView, display: Seq<char>, span: Option<Span> },
}

/// The view of a sort key as the statement gives it.
pub ghost struct OrderByExprView {
    pub expr: OrderExprView,
    pub asc: Option<bool>,
    pub nulls_first: Option<bool>,
}

impl View for OrderByExpr {
    type V = OrderByExprView;

    open spec fn view(&self) -> OrderByExprView {
        OrderByExprView {
            expr: match self.expr {
                OrderExpr::ColumnRef { database, table, column, span } => OrderExprView::ColumnRef {
                    database: opt_text(database),
                    table: opt_text(table),
                    column: column@,
                    span,
                },
                OrderExpr::Position { index, span } => OrderExprView::Position { index, span },
                OrderExpr::Scalar { scalar, display, span } => OrderExprView::Scalar {
                    scalar: scalar@,
                    display: display@,
                    span,
                },
            },
            asc: self.asc,
            nulls_first: self.nulls_first,
        }
    }
}

/// The views of sort keys.
pub open spec fn order_by_view(order_by: Seq<OrderByExpr>) -> Seq<OrderByExprView> {
    Seq::new(order_by.len(), |i: int| order_by[i]@)
}

/// What the analysis of sort keys has arrived at: the registry, the
/// scalars that define columns, and the keys resolved so far.
pub ghost struct Analysis {
    pub metadata: MetadataView,
    pub scalar_items: Seq<ScalarItemView>,
    pub items: Seq<OrderItemView>,
}

/// The message of the error for a sort key of a `SELECT DISTINCT` that
/// is no column of the select list.
pub open spec fn distinct_message() -> Seq<char> {
    "for SELECT DISTINCT, ORDER BY expressions must appear in select list"@
}

/// The message of the error for a sort key that names no column.
pub open spec fn no_column_message() -> Seq<char> {
    "column doesn't exist"@
}

/// The message of the error for a sort key of a set operation that is no
/// column.
pub open spec fn only_column_message() -> Seq<char> {
    "can only order by column"@
}

/// The message of the error that a sort key gives where it gives one: a
/// column that only the `FROM` clause has is refused for a `SELECT
/// DISTINCT`, a column that nothing has does not exist, and a position must
/// lie within the select list.
pub open spec fn order_failure_message(
    order: OrderByExprView,
    from_columns: Seq<ColumnBindingView>,
) -> Seq<char> {
    match order.expr {
        OrderExprView::ColumnRef { database, table, column, .. } => if item_in_from_clause(
            database,
            table,
            column,
            order.asc,
            order.nulls_first,
            from_columns,
        ) is Some {
            distinct_message()
        } else {
            no_column_message()
        },
        OrderExprView::Position { index, .. } => position_message(index),
        OrderExprView::Scalar { .. } => Seq::empty(),
    }
}

/// The analysis with one more sort key resolved, or the code of the error
/// that the key gives.
///
/// A column is looked up in the select list and then in the `FROM`
/// clause; a position is looked up in the select list. Any other expression
/// becomes a column of its own: the references in it to columns that the
/// select list computes are replaced by their scalars, a derived column is
/// registered under the text of the expression, and the scalar is recorded
/// as the definition of that column.
pub open spec fn analyze_one(
    a: Analysis,
    order: OrderByExprView,
    from_columns: Seq<ColumnBindingView>,
    projections: Seq<ColumnBindingView>,
    distinct: bool,
) -> Result<Analysis, u16> {
    match order.expr {
        OrderExprView::ColumnRef { database, table, column, .. } => match item_in_select_list(
            database,
            table,
            column,
            order.asc,
            order.nulls_first,
            projections,
            a.scalar_items,
        ) {
            Some(item) => Ok(Analysis { items: a.items.push(item), ..a }),
            None => match item_in_from_clause(
                database,
                table,
                column,
                order.asc,
                order.nulls_first,
                from_columns,
            ) {
                Some(item) => if distinct {
                    Err(SEMANTIC_ERROR)
                } else {
                    Ok(Analysis { items: a.items.push(item), ..a })
                },
                None => Err(SEMANTIC_ERROR),
            },
        },
        OrderExprView::Position { index, .. } => match item_at_position(
            index,
            order.asc,
            order.nulls_first,
            projections,
            a.scalar_items,
        ) {
            Some(item) => Ok(Analysis { items: a.items.push(item), ..a }),
            None => Err(SEMANTIC_ERROR),
        },
        OrderExprView::Scalar { scalar, display, .. } => {
            let rewritten = replaced(scalar, a.scalar_items);
            let index = a.metadata.columns.len() as usize;
            Ok(
                Analysis {
                    metadata: with_derived(a.metadata, display, data_type_of(rewritten)),
                    scalar_items: a.scalar_items.push(ScalarItemView { scalar: rewritten, index }),
                    items: a.items.push(
                        OrderItemView {
                            asc: order.asc,
                            nulls_first: order.nulls_first,
                            index,
                            name: display,
                            need_eval_scalar: true,
                        },
                    ),
                },
            )
        },
    }
}

/// The analysis after the first `n` sort keys, or the code of the first
/// error.
pub open spec fn analyzed(
    a: Analysis,
    order_by: Seq<OrderByExprView>,
    n: nat,
    from_columns: Seq<ColumnBindingView>,
    projections: Seq<ColumnBindingView>,
    distinct: bool,
) -> Result<Analysis, u16>
    decreases n,
{
    if n == 0 {
        Ok(a)
    } else {
        match analyzed(a, order_by, (n - 1) as nat, from_columns, projections, distinct) {
            Err(code) => Err(code),
            Ok(a1) => analyze_one(a1, order_by[n - 1], from_columns, projections, distinct),
        }
    }
}

/// The message of the first error among the first `n` sort keys, where
/// one of them gives an error.
pub open spec fn analyzed_failure_message(
    a: Analysis,
    order_by: Seq<OrderByExprView>,
    n: nat,
    from_columns: Seq<ColumnBindingView>,
    projections: Seq<ColumnBindingView>,
    distinct: bool,
) -> Seq<char>
    decreases n,
{
    if n == 0 {
        Seq::empty()
    } else if analyzed(a, order_by, (n - 1) as nat, from_columns, projections, distinct) is Err {
        analyzed_failure_message(a, order_by, (n - 1) as nat, from_columns, projections, distinct)
    } else {
        order_failure_message(order_by[n - 1], from_columns)
    }
}

/// Once a sort key has given an error, the analysis gives that error.
pub proof fn analyzed_fails(
    a: Analysis,
    order_by: Seq<OrderByExprView>,
    n: nat,
    m: nat,
    from_columns: Seq<ColumnBindingView>,
    projections: Seq<ColumnBindingView>,
    distinct: bool,
)
    requires
        n <= m,
        analyzed(a, order_by, n, from_columns, projections, distinct) is Err,
    ensures
        analyzed(a, order_by, m, from_columns, projections, distinct) == analyzed(
            a,
            order_by,
            n,
            from_columns,
            projections,
            distinct,
        ),
        analyzed_failure_message(a, order_by, m, from_columns, projections, distinct)
            == analyzed_failure_message(a, order_by, n, from_columns, projections, distinct),
    decreases m,
{
    if n < m {
        analyzed_fails(a, order_by, n, (m - 1) as nat, from_columns, projections, distinct);
    }
}

/// Resolves one sort key and adds it to `order_items`.
pub fn analyze_order_item(
    metadata: &mut Metadata,
    from_columns: &Vec<ColumnBinding>,
    scalar_items: &mut Vec<ScalarItem>,
    projections: &Vec<ColumnBinding>,
    order: &OrderByExpr,
    distinct: bool,
    order_items: &mut Vec<OrderItem>,
) -> (r: Result<(), ErrorCode>)
    ensures
        match analyze_one(
            Analysis {
                metadata: old(metadata)@,
                scalar_items: items_view(*old(scalar_items)),
                items: order_items_view(old(order_items)@),
            },
            order@,
            bindings_view(from_columns@),
            bindings_view(projections@),
            distinct,
        ) {
            Ok(a) => r is Ok && final(metadata)@ == a.metadata && items_view(*final(scalar_items))
                == a.scalar_items && order_items_view(final(order_items)@) == a.items,
            Err(code) => r is Err && r->Err_0.code == code && r->Err_0.message@
                == order_failure_message(order@, bindings_view(from_columns@)),
        },
{
    let ghost before = order_items_view(order_items@);
    match &order.expr {
        OrderExpr::ColumnRef { database, table, column, span } => {
            match order_item_for_column(
                database,
                table,
                column,
                *span,
                order.asc,
                order.nulls_first,
                from_columns,
                scalar_items,
                projections,
                distinct,
            ) {
                Ok(item) => {
                    order_items.push(item);
                    assert(order_items_view(order_items@) =~= before.push(item@));
                    Ok(())
                },
                Err(e) => Err(e),
            }
        },
        OrderExpr::Position { index, span } => {
            match order_item_at_position(
                *index,
                *span,
                order.asc,
                order.nulls_first,
                projections,
                scalar_items,
            ) {
                Ok(item) => {
                    order_items.push(item);
                    assert(order_items_view(order_items@) =~= before.push(item@));
                    Ok(())
                },
                Err(e) => Err(e),
            }
        },
        OrderExpr::Scalar { scalar, display, span } => {
            let ghost defined = items_view(*scalar_items);
            let rewrite_scalar = rewrite_scalar_with_replacement(scalar, scalar_items);
            let index = metadata.add_derived_column(display.clone(), rewrite_scalar.data_type());
            let item = OrderItem {
                asc: order.asc,
                nulls_first: order.nulls_first,
                index,
                name: display.clone(),
                need_eval_scalar: true,
            };
            order_items.push(item);
            let scalar_item = ScalarItem { scalar: rewrite_scalar, index };
            scalar_items.push(scalar_item);
            proof {
                assert(order_items_view(order_items@) =~= before.push(item@));
                assert(items_view(*scalar_items) =~= defined.push(scalar_item@));
            }
            Ok(())
        },
    }
}

/// Resolves the sort keys of a query against its select list and its
/// `FROM` clause.
pub fn analyze_order_items(
    metadata: &mut Metadata,
    from_columns: &Vec<ColumnBinding>,
    scalar_items: &mut Vec<ScalarItem>,
    projections: &Vec<ColumnBinding>,
    order_by: &Vec<OrderByExpr>,
    distinct: bool,
) -> (r: Result<OrderItems, ErrorCode>)
    ensures
        match analyzed(
            Analysis {
                metadata: old(metadata)@,
                scalar_items: items_view(*old(scalar_items)),
                items: Seq::empty(),
            },
            order_by_view(order_by@),
            order_by.len() as nat,
            bindings_view(from_columns@),
            bindings_view(projections@),
            distinct,
        ) {
            Ok(a) => r is Ok && final(metadata)@ == a.metadata && items_view(*final(scalar_items))
                == a.scalar_items && order_items_view(r->Ok_0.items@) == a.items,
            Err(code) => r is Err && r->Err_0.code == code && r->Err_0.message@
                == analyzed_failure_message(
                (Analysis {
                    metadata: old(metadata)@,
                    scalar_items: items_view(*old(scalar_items)),
                    items: Seq::empty(),
                }),
                order_by_view(order_by@),
                order_by.len() as nat,
                bindings_view(from_columns@),
                bindings_view(projections@),
                distinct,
            ),
        },
{
    let ghost start = Analysis {
        metadata: metadata@,
        scalar_items: items_view(*scalar_items),
        items: Seq::empty(),
    };
    let ghost all = order_by_view(order_by@);
    let ghost from = bindings_view(from_columns@);
    let ghost selected = bindings_view(projections@);
    let mut order_items: Vec<OrderItem> = Vec::new();
    let mut i: usize = 0;
    proof {
        assert(order_items_view(order_items@) =~= Seq::empty());
    }
    while i < order_by.len()
        invariant
            i <= order_by.len(),
            all == order_by_view(order_by@),
            from == bindings_view(from_columns@),
            selected == bindings_view(projections@),
            start == (Analysis {
                metadata: old(metadata)@,
                scalar_items: items_view(*old(scalar_items)),
                items: Seq::empty(),
            }),
            analyzed(start, all, i as nat, from, selected, distinct) == Ok::<Analysis, u16>(
                Analysis {
                    metadata: metadata@,
                    scalar_items: items_view(*scalar_items),
                    items: order_items_view(order_items@),
                },
            ),
        decreases order_by.len() - i,
    {
        assert(all[i as int] == order_by[i as int]@);
        match analyze_order_item(
            metadata,
            from_columns,
            scalar_items,
            projections,
            &order_by[i],
            distinct,
            &mut order_items,
        ) {
            Ok(()) => {},
            Err(e) => {
                proof {
                    analyzed_fails(
                        start,
                        all,
                        (i + 1) as nat,
                        order_by.len() as nat,
                        from,
                        selected,
                        distinct,
                    );
                }
                return Err(e);
            },
        }
        i = i + 1;
    }
    Ok(OrderItems { items: order_items })
}

/// The sort keys of a set operation, which can only be columns of its
/// result; the code of the error that the first other key gives.
pub open spec fn set_operation_keys(
    order_by: Seq<OrderByExprView>,
    n: nat,
    columns: Seq<ColumnBindingView>,
) -> Result<Seq<SortItem>, u16>
    decreases n,
{
    if n == 0 {
        Ok(Seq::empty())
    } else {
        match set_operation_keys(order_by, (n - 1) as nat, columns) {
            Err(code) => Err(code),
            Ok(keys) => match order_by[n - 1].expr {
                OrderExprView::ColumnRef { database, table, column, .. } => match first_match(
                    database,
                    table,
                    column,
                    columns,
                    columns.len(),
                ) {
                    Some(i) => Ok(
                        keys.push(
                            SortItem {
                                index: columns[i as int].index,
                                asc: match order_by[n - 1].asc {
                                    Some(a) => a,
                                    None => true,
                                },
                                nulls_first: match order_by[n - 1].nulls_first {
                                    Some(f) => f,
                                    None => false,
                                },
                            },
                        ),
                    ),
                    None => Err(SEMANTIC_ERROR),
                },
                _ => Err(SEMANTIC_ERROR),
            },
        }
    }
}

/// The message of the first error among the first `n` sort keys of a set
/// operation, where one of them gives an error.
pub open spec fn set_operation_failure_message(
    order_by: Seq<OrderByExprView>,
    n: nat,
    columns: Seq<ColumnBindingView>,
) -> Seq<char>
    decreases n,
{
    if n == 0 {
        Seq::empty()
    } else if set_operation_keys(order_by, (n - 1) as nat, columns) is Err {
        set_operation_failure_message(order_by, (n - 1) as nat, columns)
    } else {
        match order_by[n - 1].expr {
            OrderExprView::ColumnRef { .. } => no_column_message(),
            _ => only_column_message(),
        }
    }
}

/// Once a key of a set operation has given an error, the binding gives
/// that error.
pub proof fn set_operation_keys_fails(
    order_by: Seq<OrderByExprView>,
    n: nat,
    m: nat,
    columns: Seq<ColumnBindingView>,
)
    requires
        n <= m,
        set_operation_keys(order_by, n, columns) is Err,
    ensures
        set_operation_keys(order_by, m, columns) == set_operation_keys(order_by, n, columns),
        set_operation_failure_message(order_by, m, columns) == set_operation_failure_message(
            order_by,
            n,
            columns,
        ),
    decreases m,
{
    if n < m {
        set_operation_keys_fails(order_by, n, (m - 1) as nat, columns);
    }
}

/// Builds the plan that sorts the result of a set operation. Each sort
/// key must name a column of the result.
pub fn bind_order_by_for_set_operation(
    columns: &Vec<ColumnBinding>,
    child: SExpr,
    order_by: &Vec<OrderByExpr>,
) -> (r: Result<SExpr, ErrorCode>)
    ensures
        match set_operation_keys(
            order_by_view(order_by@),
            order_by.len() as nat,
            bindings_view(columns@),
        ) {
            Ok(keys) => r is Ok && r->Ok_0@ == unary(
                RelOperatorView::Sort(SortView { items: keys, limit: None }),
                child@,
            ),
            Err(code) => r is Err && r->Err_0.code == code && r->Err_0.message@
                == set_operation_failure_message(
                order_by_view(order_by@),
                order_by.len() as nat,
                bindings_view(columns@),
            ),
        },
{
    let ghost all = order_by_view(order_by@);
    let ghost available = bindings_view(columns@);
    let mut order_by_items: Vec<SortItem> = Vec::new();
    let mut i: usize = 0;
    while i < order_by.len()
        invariant
            i <= order_by.len(),
            all == order_by_view(order_by@),
            available == bindings_view(columns@),
            set_operation_keys(all, i as nat, available) == Ok::<Seq<SortItem>, u16>(
                order_by_items@,
            ),
        decreases order_by.len() - i,
    {
        let order = &order_by[i];
        assert(all[i as int] == order@);
        match &order.expr {
            OrderExpr::ColumnRef { database, table, column, span } => {
                match find_binding(database, table, column, columns) {
                    Some(at) => {
                        assert(available[at as int] == columns[at as int]@);
                        order_by_items.push(
                            SortItem {
                                index: columns[at].index,
                                asc: match order.asc {
                                    Some(a) => a,
                                    None => true,
                                },
                                nulls_first: match order.nulls_first {
                                    Some(f) => f,
                                    None => false,
                                },
                            },
                        );
                    },
                    None => {
                        proof {
                            set_operation_keys_fails(
                                all,
                                (i + 1) as nat,
                                order_by.len() as nat,
                                available,
                            );
                        }
                        return Err(ErrorCode::semantic_error("column doesn't exist").set_span(*span));
                    },
                }
            },
            OrderExpr::Position { span, .. } => {
                proof {
                    set_operation_keys_fails(all, (i + 1) as nat, order_by.len() as nat, available);
                }
                return Err(ErrorCode::semantic_error("can only order by column").set_span(*span));
            },
            OrderExpr::Scalar { span, .. } => {
                proof {
                    set_operation_keys_fails(all, (i + 1) as nat, order_by.len() as nat, available);
                }
                return Err(ErrorCode::semantic_error("can only order by column").set_span(*span));
            },
        }
        i = i + 1;
    }
    let sort = RelOperator::Sort(Sort { items: order_by_items, limit: None });
    proof {
        reveal_with_fuel(operator_view, 2);
    }
    Ok(SExpr::create_unary(sort, child))
}

} // verus!
