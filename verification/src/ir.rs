//! The relational expression tree.
//!
//! A plan is a tree of relational operators (`SExpr`), each of which
//! carries scalar expressions (`ScalarExpr`). A scalar expression may in
//! turn hold a plan: a subquery. Columns are named by their index into the
//! metadata table, never by reference.
//!
//! Every type here has a mathematical view, in which vectors are sequences,
//! strings are sequences of characters and column sets are sets. The
//! contracts of the passes are stated over these views.

use crate::columns::{ColumnSet};
use crate::error::{Span};
use crate::types::{DataType};
use vstd::prelude::*;

verus! {

/// Whether a column can be named in the statement.
#[derive(Clone, Copy, Debug, PartialEq, Eq, Structural)]
pub enum Visibility {
    Visible,
    InVisible,
    UnqualifiedWildcardInVisible,
}

/// The comparison operators.
#[derive(Clone, Copy, Debug, PartialEq, Eq, Structural)]
pub enum ComparisonOp {
    Equal,
    NotEqual,
    GT,
    LT,
    GTE,
    LTE,
}

/// The forms of a subquery.
#[derive(Clone, Copy, Debug, PartialEq, Eq, Structural)]
pub enum SubqueryType {
    Any,
    All,
    Scalar,
    Exists,
    NotExists,
}

/// The kinds of join.
#[derive(Clone, Copy, Debug, PartialEq, Eq, Structural)]
pub enum JoinType {
    Inner,
    Cross,
    Left,
    Right,
    Full,
    LeftSemi,
    RightSemi,
    LeftAnti,
    RightAnti,
    LeftMark,
    RightMark,
    Single,
}

/// The stage of an aggregation.
#[derive(Clone, Copy, Debug, PartialEq, Eq, Structural)]
pub enum AggregateMode {
    Partial,
    Final,
    Initial,
}

/// The kinds of relational operator, without their attributes.
#[derive(Clone, Copy, Debug, PartialEq, Eq, Structural)]
pub enum RelOp {
    Scan,
    Join,
    EvalScalar,
    Filter,
    Aggregate,
    Sort,
    Limit,
    Exchange,
    UnionAll,
    DummyTableScan,
    RuntimeFilterSource,
    Window,
    Pattern,
}

/// One sort key: the column, the direction, and where absent values go.
#[derive(Clone, Copy, Debug, PartialEq, Eq, Structural)]
pub struct SortItem {
    pub index: usize,
    pub asc: bool,
    pub nulls_first: bool,
}

/// A constant value.
#[derive(Debug, PartialEq, Eq)]
pub enum Literal {
    Null,
    Boolean(bool),
    Int64(i64),
    UInt64(u64),
    String(String),
}

/// The view of a constant value.
pub ghost enum LiteralView {
    Null,
    Boolean(bool),
    Int64(i64),
    UInt64(u64),
    String(Seq<char>),
}

impl View for Literal {
    type V = LiteralView;

    open spec fn view(&self) -> LiteralView {
        match self {
            Literal::Null => LiteralView::Null,
            Literal::Boolean(b) => LiteralView::Boolean(*b),
            Literal::Int64(n) => LiteralView::Int64(*n),
            Literal::UInt64(n) => LiteralView::UInt64(*n),
            Literal::String(s) => LiteralView::String(s@),
        }
    }
}

impl Clone for Literal {
    fn clone(&self) -> (r: Literal)
        ensures
            r@ == self@,
    {
        match self {
            Literal::Null => Literal::Null,
            Literal::Boolean(b) => Literal::Boolean(*b),
            Literal::Int64(n) => Literal::Int64(*n),
            Literal::UInt64(n) => Literal::UInt64(*n),
            Literal::String(s) => Literal::String(s.clone()),
        }
    }
}

/// The text of an optional string.
pub open spec fn opt_text(s: Option<String>) -> Option<Seq<char>> {
    match s {
        Some(t) => Some(t@),
        None => None,
    }
}

/// A copy of an optional string.
pub fn clone_opt_string(s: &Option<String>) -> (r: Option<String>)
    ensures
        opt_text(r) == opt_text(*s),
{
    match s {
        Some(t) => Some(t.clone()),
        None => None,
    }
}

/// A reference to a column: its names, its index into the metadata table,
/// its type and its visibility.
#[derive(Debug, PartialEq, Eq)]
pub struct ColumnBinding {
    pub database_name: Option<String>,
    pub table_name: Option<String>,
    pub column_name: String,
    pub index: usize,
    pub data_type: DataType,
    pub visibility: Visibility,
}

/// The view of a column reference.
pub ghost struct ColumnBindingView {
    pub database_name: Option<Seq<char>>,
    pub table_name: Option<Seq<char>>,
    pub column_name: Seq<char>,
    pub index: usize,
    pub data_type: DataType,
    pub visibility: Visibility,
}

impl View for ColumnBinding {
    type V = ColumnBindingView;

    open spec fn view(&self) -> ColumnBindingView {
        ColumnBindingView {
            database_name: opt_text(self.database_name),
            table_name: opt_text(self.table_name),
            column_name: self.column_name@,
            index: self.index,
            data_type: self.data_type,
            visibility: self.visibility,
        }
    }
}

impl Clone for ColumnBinding {
    fn clone(&self) -> (r: ColumnBinding)
        ensures
            r@ == self@,
    {
        ColumnBinding {
            database_name: clone_opt_string(&self.database_name),
            table_name: clone_opt_string(&self.table_name),
            column_name: self.column_name.clone(),
            index: self.index,
            data_type: self.data_type.clone(),
            visibility: self.visibility,
        }
    }
}

/// A reference to a column that the storage layer adds to every table.
#[derive(Debug, PartialEq, Eq)]
pub struct InternalColumnBinding {
    pub database_name: Option<String>,
    pub table_name: Option<String>,
    pub column_name: String,
    pub index: usize,
    pub data_type: DataType,
}

/// The view of a reference to an internal column.
pub ghost struct InternalColumnBindingView {
    pub database_name: Option<Seq<char>>,
    pub table_name: Option<Seq<char>>,
    pub column_name: Seq<char>,
    pub index: usize,
    pub data_type: DataType,
}

impl View for InternalColumnBinding {
    type V = InternalColumnBindingView;

    open spec fn view(&self) -> InternalColumnBindingView {
        InternalColumnBindingView {
            database_name: opt_text(self.database_name),
            table_name: opt_text(self.table_name),
            column_name: self.column_name@,
            index: self.index,
            data_type: self.data_type,
        }
    }
}

impl Clone for InternalColumnBinding {
    fn clone(&self) -> (r: InternalColumnBinding)
        ensures
            r@ == self@,
    {
        InternalColumnBinding {
            database_name: clone_opt_string(&self.database_name),
            table_name: clone_opt_string(&self.table_name),
            column_name: self.column_name.clone(),
            index: self.index,
            data_type: self.data_type.clone(),
        }
    }
}

/// A call of an aggregate function.
#[derive(Debug, PartialEq, Eq)]
pub struct AggregateFunction {
    pub display_name: String,
    pub func_name: String,
    pub distinct: bool,
    pub params: Vec<Literal>,
    pub args: Vec<ScalarExpr>,
    pub return_type: DataType,
}

/// A call of an aggregate function over a window.
#[derive(Debug, PartialEq, Eq)]
pub struct WindowFunc {
    pub agg_func: AggregateFunction,
    pub partition_by: Vec<ScalarExpr>,
}

/// A subquery inside a scalar expression.
#[derive(Debug, PartialEq, Eq)]
pub struct SubqueryExpr {
    pub span: Option<Span>,
    pub typ: SubqueryType,
    pub subquery: Box<SExpr>,
    /// The left side of a quantified comparison.
    pub child_expr: Option<Box<ScalarExpr>>,
    /// The operator of a quantified comparison.
    pub compare_op: Option<ComparisonOp>,
    /// The column that the subquery yields.
    pub output_column: ColumnBinding,
    pub projection_index: Option<usize>,
    pub data_type: DataType,
    /// The columns of the enclosing query that the subquery refers to.
    pub outer_columns: ColumnSet,
}

/// A scalar expression.
#[derive(Debug, PartialEq, Eq)]
pub enum ScalarExpr {
    BoundColumnRef { span: Option<Span>, column: ColumnBinding },
    BoundInternalColumnRef { span: Option<Span>, column: InternalColumnBinding },
    ConstantExpr { span: Option<Span>, value: Literal, data_type: DataType },
    AndExpr { left: Box<ScalarExpr>, right: Box<ScalarExpr> },
    OrExpr { left: Box<ScalarExpr>, right: Box<ScalarExpr> },
    NotExpr { argument: Box<ScalarExpr> },
    ComparisonExpr { op: ComparisonOp, left: Box<ScalarExpr>, right: Box<ScalarExpr> },
    FunctionCall {
        span: Option<Span>,
        func_name: String,
        params: Vec<usize>,
        arguments: Vec<ScalarExpr>,
        return_type: DataType,
    },
    CastExpr {
        span: Option<Span>,
        is_try: bool,
        argument: Box<ScalarExpr>,
        target_type: DataType,
    },
    AggregateFunction(AggregateFunction),
    WindowFunction(WindowFunc),
    Unnest { argument: Box<ScalarExpr>, return_type: DataType },
    SubqueryExpr(SubqueryExpr),
}

/// A scalar expression together with the index of the column it defines.
#[derive(Debug, PartialEq, Eq)]
pub struct ScalarItem {
    pub scalar: ScalarExpr,
    pub index: usize,
}

/// A filter that the storage layer applies while it reads.
#[derive(Debug, PartialEq, Eq)]
pub struct Prewhere {
    /// The columns that the scan hands on.
    pub output_columns: ColumnSet,
    /// The columns that the filter reads.
    pub prewhere_columns: ColumnSet,
    pub predicates: Vec<ScalarExpr>,
}

/// A read of a table.
#[derive(Debug, PartialEq, Eq)]
pub struct Scan {
    pub table_index: usize,
    pub columns: ColumnSet,
    pub push_down_predicates: Option<Vec<ScalarExpr>>,
    pub limit: Option<usize>,
    pub order_by: Option<Vec<SortItem>>,
    pub prewhere: Option<Prewhere>,
}

/// A join of two inputs. Row `i` of `left_conditions` is matched for
/// equality against row `i` of `right_conditions`.
#[derive(Debug, PartialEq, Eq)]
pub struct Join {
    pub left_conditions: Vec<ScalarExpr>,
    pub right_conditions: Vec<ScalarExpr>,
    pub non_equi_conditions: Vec<ScalarExpr>,
    pub join_type: JoinType,
    /// The column that a mark join adds.
    pub marker_index: Option<usize>,
    pub from_correlated_subquery: bool,
    pub contain_runtime_filter: bool,
}

/// A selection of rows.
#[derive(Debug, PartialEq, Eq)]
pub struct Filter {
    pub predicates: Vec<ScalarExpr>,
    pub is_having: bool,
}

/// A projection that computes columns.
#[derive(Debug, PartialEq, Eq)]
pub struct EvalScalar {
    pub items: Vec<ScalarItem>,
}

/// A grouping with aggregate functions.
#[derive(Debug, PartialEq, Eq)]
pub struct Aggregate {
    pub mode: AggregateMode,
    pub group_items: Vec<ScalarItem>,
    pub aggregate_functions: Vec<ScalarItem>,
    pub from_distinct: bool,
    pub limit: Option<usize>,
    pub grouping_id_index: usize,
    pub grouping_sets: Vec<Vec<usize>>,
}

/// An ordering of rows.
#[derive(Debug, PartialEq, Eq)]
pub struct Sort {
    pub items: Vec<SortItem>,
    pub limit: Option<usize>,
}

/// A cut of the rows to a window.
#[derive(Clone, Copy, Debug, PartialEq, Eq, Structural)]
pub struct Limit {
    pub limit: Option<usize>,
    pub offset: usize,
}

/// A redistribution of rows between workers.
#[derive(Debug, PartialEq, Eq)]
pub enum Exchange {
    Random,
    Hash(Vec<ScalarExpr>),
    Broadcast,
    Merge,
}

/// A union of two inputs. Each pair names a column of the left input and
/// the column of the right input that lines up with it.
#[derive(Debug, PartialEq, Eq)]
pub struct UnionAll {
    pub pairs: Vec<(usize, usize)>,
}

/// The source of a runtime filter.
#[derive(Debug, PartialEq, Eq)]
pub struct RuntimeFilterSource {
    pub left_runtime_filter: Vec<ScalarExpr>,
    pub right_runtime_filter: Vec<ScalarExpr>,
}

/// A window computation.
#[derive(Debug, PartialEq, Eq)]
pub struct Window {
    pub index: usize,
    pub function: WindowFunc,
}

/// A relational operator with its attributes.
#[derive(Debug, PartialEq, Eq)]
pub enum RelOperator {
    Scan(Scan),
    Join(Join),
    EvalScalar(EvalScalar),
    Filter(Filter),
    Aggregate(Aggregate),
    Sort(Sort),
    Limit(Limit),
    Exchange(Exchange),
    UnionAll(UnionAll),
    DummyTableScan,
    RuntimeFilterSource(RuntimeFilterSource),
    Window(Window),
    /// A placeholder that matches any operator of the given kind.
    Pattern(RelOp),
}

/// A node of the plan: an operator and its inputs.
#[derive(Debug, PartialEq, Eq)]
pub struct SExpr {
    pub plan: RelOperator,
    pub children: Vec<SExpr>,
    /// The rewrite rules already applied to this node, as a bit mask.
    pub applied_rules: u64,
}

/// The view of a call of an aggregate function.
pub ghost struct AggregateFunctionView {
    pub display_name: Seq<char>,
    pub func_name: Seq<char>,
    pub distinct: bool,
    pub params: Seq<LiteralView>,
    pub args: Seq<ScalarView>,
    pub return_type: DataType,
}

/// The view of a window function call.
pub ghost struct WindowFuncView {
    pub agg_func: AggregateFunctionView,
    pub partition_by: Seq<ScalarView>,
}

/// The view of a subquery.
pub ghost struct SubqueryView {
    pub span: Option<Span>,
    pub typ: SubqueryType,
    pub subquery: Box<SExprView>,
    pub child_expr: Option<Box<ScalarView>>,
    pub compare_op: Option<ComparisonOp>,
    pub output_column: ColumnBindingView,
    pub projection_index: Option<usize>,
    pub data_type: DataType,
    pub outer_columns: Set<usize>,
}

/// The view of a scalar expression.
pub ghost enum ScalarView {
    BoundColumnRef { span: Option<Span>, column: ColumnBindingView },
    BoundInternalColumnRef { span: Option<Span>, column: InternalColumnBindingView },
    ConstantExpr { span: Option<Span>, value: LiteralView, data_type: DataType },
    AndExpr { left: Box<ScalarView>, right: Box<ScalarView> },
    OrExpr { left: Box<ScalarView>, right: Box<ScalarView> },
    NotExpr { argument: Box<ScalarView> },
    ComparisonExpr { op: ComparisonOp, left: Box<ScalarView>, right: Box<ScalarView> },
    FunctionCall {
        span: Option<Span>,
        func_name: Seq<char>,
        params: Seq<usize>,
        arguments: Seq<ScalarView>,
        return_type: DataType,
    },
    CastExpr {
        span: Option<Span>,
        is_try: bool,
        argument: Box<ScalarView>,
        target_type: DataType,
    },
    AggregateFunction(AggregateFunctionView),
    WindowFunction(WindowFuncView),
    Unnest { argument: Box<ScalarView>, return_type: DataType },
    SubqueryExpr(SubqueryView),
}

/// The view of a scalar item.
pub ghost struct ScalarItemView {
    pub scalar: ScalarView,
    pub index: usize,
}

/// The view of a prewhere filter.
pub ghost struct PrewhereView {
    pub output_columns: Set<usize>,
    pub prewhere_columns: Set<usize>,
    pub predicates: Seq<ScalarView>,
}

/// The view of a scan.
pub ghost struct ScanView {
    pub table_index: usize,
    pub columns: Set<usize>,
    pub push_down_predicates: Option<Seq<ScalarView>>,
    pub limit: Option<usize>,
    pub order_by: Option<Seq<SortItem>>,
    pub prewhere: Option<PrewhereView>,
}

/// The view of a join.
pub ghost struct JoinView {
    pub left_conditions: Seq<ScalarView>,
    pub right_conditions: Seq<ScalarView>,
    pub non_equi_conditions: Seq<ScalarView>,
    pub join_type: JoinType,
    pub marker_index: Option<usize>,
    pub from_correlated_subquery: bool,
    pub contain_runtime_filter: bool,
}

/// The view of a filter.
pub ghost struct FilterView {
    pub predicates: Seq<ScalarView>,
    pub is_having: bool,
}

/// The view of a projection.
pub ghost struct EvalScalarView {
    pub items: Seq<ScalarItemView>,
}

/// The view of an aggregation.
pub ghost struct AggregateView {
    pub mode: AggregateMode,
    pub group_items: Seq<ScalarItemView>,
    pub aggregate_functions: Seq<ScalarItemView>,
    pub from_distinct: bool,
    pub limit: Option<usize>,
    pub grouping_id_index: usize,
    pub grouping_sets: Seq<Seq<usize>>,
}

/// The view of an ordering.
pub ghost struct SortView {
    pub items: Seq<SortItem>,
    pub limit: Option<usize>,
}

/// The view of an exchange.
pub ghost enum ExchangeView {
    Random,
    Hash(Seq<ScalarView>),
    Broadcast,
    Merge,
}

/// The view of a union.
pub ghost struct UnionAllView {
    pub pairs: Seq<(usize, usize)>,
}

/// The view of a runtime filter source.
pub ghost struct RuntimeFilterSourceView {
    pub left_runtime_filter: Seq<ScalarView>,
    pub right_runtime_filter: Seq<ScalarView>,
}

/// The view of a window computation.
pub ghost struct WindowView {
    pub index: usize,
    pub function: WindowFuncView,
}

/// The view of a relational operator.
pub ghost enum RelOperatorView {
    Scan(ScanView),
    Join(JoinView),
    EvalScalar(EvalScalarView),
    Filter(FilterView),
    Aggregate(AggregateView),
    Sort(SortView),
    Limit(Limit),
    Exchange(ExchangeView),
    UnionAll(UnionAllView),
    DummyTableScan,
    RuntimeFilterSource(RuntimeFilterSourceView),
    Window(WindowView),
    Pattern(RelOp),
}

/// The view of a plan node.
pub ghost struct SExprView {
    pub plan: RelOperatorView,
    pub children: Seq<SExprView>,
    pub applied_rules: u64,
}

/// The views of a vector of constants.
pub open spec fn literals_view(v: Vec<Literal>) -> Seq<LiteralView> {
    Seq::new(v.len() as nat, |i: int| v[i]@)
}

/// The contents of a vector of vectors of indexes.
pub open spec fn index_lists_view(v: Vec<Vec<usize>>) -> Seq<Seq<usize>> {
    Seq::new(v.len() as nat, |i: int| v[i]@)
}

/// The views of a vector of scalar expressions.
pub open spec fn scalars_view(v: Vec<ScalarExpr>) -> Seq<ScalarView>
    decreases v,
{
    Seq::new(
        v.len() as nat,
        |i: int|
            if 0 <= i < v.len() {
                scalar_view(v[i])
            } else {
                arbitrary()
            },
    )
}

/// The views of a vector of scalar items.
pub open spec fn items_view(v: Vec<ScalarItem>) -> Seq<ScalarItemView>
    decreases v,
{
    Seq::new(
        v.len() as nat,
        |i: int|
            if 0 <= i < v.len() {
                item_view(v[i])
            } else {
                arbitrary()
            },
    )
}

/// The views of a vector of plan nodes.
pub open spec fn sexprs_view(v: Vec<SExpr>) -> Seq<SExprView>
    decreases v,
{
    Seq::new(
        v.len() as nat,
        |i: int|
            if 0 <= i < v.len() {
                sexpr_view(v[i])
            } else {
                arbitrary()
            },
    )
}

/// The view of a scalar item.
pub open spec fn item_view(item: ScalarItem) -> ScalarItemView
    decreases item,
{
    ScalarItemView { scalar: scalar_view(item.scalar), index: item.index }
}

/// The view of a call of an aggregate function.
pub open spec fn aggregate_function_view(f: AggregateFunction) -> AggregateFunctionView
    decreases f,
{
    AggregateFunctionView {
        display_name: f.display_name@,
        func_name: f.func_name@,
        distinct: f.distinct,
        params: literals_view(f.params),
        args: scalars_view(f.args),
        return_type: f.return_type,
    }
}

/// The view of a window function call.
pub open spec fn window_func_view(f: WindowFunc) -> WindowFuncView
    decreases f,
{
    WindowFuncView {
        agg_func: aggregate_function_view(f.agg_func),
        partition_by: scalars_view(f.partition_by),
    }
}

/// The view of a subquery.
pub open spec fn subquery_view(q: SubqueryExpr) -> SubqueryView
    decreases q,
{
    SubqueryView {
        span: q.span,
        typ: q.typ,
        subquery: Box::new(sexpr_view(*q.subquery)),
        child_expr: match q.child_expr {
            Some(e) => Some(Box::new(scalar_view(*e))),
            None => None,
        },
        compare_op: q.compare_op,
        output_column: q.output_column@,
        projection_index: q.projection_index,
        data_type: q.data_type,
        outer_columns: q.outer_columns@,
    }
}

/// The view of a scalar expression.
pub open spec fn scalar_view(e: ScalarExpr) -> ScalarView
    decreases e,
{
    match e {
        ScalarExpr::BoundColumnRef { span, column } => ScalarView::BoundColumnRef {
            span,
            column: column@,
        },
        ScalarExpr::BoundInternalColumnRef { span, column } => ScalarView::BoundInternalColumnRef {
            span,
            column: column@,
        },
        ScalarExpr::ConstantExpr { span, value, data_type } => ScalarView::ConstantExpr {
            span,
            value: value@,
            data_type,
        },
        ScalarExpr::AndExpr { left, right } => ScalarView::AndExpr {
            left: Box::new(scalar_view(*left)),
            right: Box::new(scalar_view(*right)),
        },
        ScalarExpr::OrExpr { left, right } => ScalarView::OrExpr {
            left: Box::new(scalar_view(*left)),
            right: Box::new(scalar_view(*right)),
        },
        ScalarExpr::NotExpr { argument } => ScalarView::NotExpr {
            argument: Box::new(scalar_view(*argument)),
        },
        ScalarExpr::ComparisonExpr { op, left, right } => ScalarView::ComparisonExpr {
            op,
            left: Box::new(scalar_view(*left)),
            right: Box::new(scalar_view(*right)),
        },
        ScalarExpr::FunctionCall {
            span,
            func_name,
            params,
            arguments,
            return_type,
        } => ScalarView::FunctionCall {
            span,
            func_name: func_name@,
            params: params@,
            arguments: scalars_view(arguments),
            return_type,
        },
        ScalarExpr::CastExpr { span, is_try, argument, target_type } => ScalarView::CastExpr {
            span,
            is_try,
            argument: Box::new(scalar_view(*argument)),
            target_type,
        },
        ScalarExpr::AggregateFunction(f) => ScalarView::AggregateFunction(
            aggregate_function_view(f),
        ),
        ScalarExpr::WindowFunction(f) => ScalarView::WindowFunction(window_func_view(f)),
        ScalarExpr::Unnest { argument, return_type } => ScalarView::Unnest {
            argument: Box::new(scalar_view(*argument)),
            return_type,
        },
        ScalarExpr::SubqueryExpr(q) => ScalarView::SubqueryExpr(subquery_view(q)),
    }
}

/// The view of a prewhere filter.
pub open spec fn prewhere_view(p: Prewhere) -> PrewhereView
    decreases p,
{
    PrewhereView {
        output_columns: p.output_columns@,
        prewhere_columns: p.prewhere_columns@,
        predicates: scalars_view(p.predicates),
    }
}

/// The view of a scan.
pub open spec fn scan_view(s: Scan) -> ScanView
    decreases s,
{
    ScanView {
        table_index: s.table_index,
        columns: s.columns@,
        push_down_predicates: match s.push_down_predicates {
            Some(v) => Some(scalars_view(v)),
            None => None,
        },
        limit: s.limit,
        order_by: match s.order_by {
            Some(v) => Some(v@),
            None => None,
        },
        prewhere: match s.prewhere {
            Some(p) => Some(prewhere_view(p)),
            None => None,
        },
    }
}

/// The view of a join.
pub open spec fn join_view(j: Join) -> JoinView
    decreases j,
{
    JoinView {
        left_conditions: scalars_view(j.left_conditions),
        right_conditions: scalars_view(j.right_conditions),
        non_equi_conditions: scalars_view(j.non_equi_conditions),
        join_type: j.join_type,
        marker_index: j.marker_index,
        from_correlated_subquery: j.from_correlated_subquery,
        contain_runtime_filter: j.contain_runtime_filter,
    }
}

/// The view of an aggregation.
pub open spec fn aggregate_view(a: Aggregate) -> AggregateView
    decreases a,
{
    AggregateView {
        mode: a.mode,
        group_items: items_view(a.group_items),
        aggregate_functions: items_view(a.aggregate_functions),
        from_distinct: a.from_distinct,
        limit: a.limit,
        grouping_id_index: a.grouping_id_index,
        grouping_sets: index_lists_view(a.grouping_sets),
    }
}

/// The view of a relational operator.
pub open spec fn operator_view(op: RelOperator) -> RelOperatorView
    decreases op,
{
    match op {
        RelOperator::Scan(s) => RelOperatorView::Scan(scan_view(s)),
        RelOperator::Join(j) => RelOperatorView::Join(join_view(j)),
        RelOperator::EvalScalar(e) => RelOperatorView::EvalScalar(
            EvalScalarView { items: items_view(e.items) },
        ),
        RelOperator::Filter(f) => RelOperatorView::Filter(
            FilterView { predicates: scalars_view(f.predicates), is_having: f.is_having },
        ),
        RelOperator::Aggregate(a) => RelOperatorView::Aggregate(aggregate_view(a)),
        RelOperator::Sort(s) => RelOperatorView::Sort(SortView { items: s.items@, limit: s.limit }),
        RelOperator::Limit(l) => RelOperatorView::Limit(l),
        RelOperator::Exchange(x) => RelOperatorView::Exchange(
            match x {
                Exchange::Random => ExchangeView::Random,
                Exchange::Hash(keys) => ExchangeView::Hash(scalars_view(keys)),
                Exchange::Broadcast => ExchangeView::Broadcast,
                Exchange::Merge => ExchangeView::Merge,
            },
        ),
        RelOperator::UnionAll(u) => RelOperatorView::UnionAll(UnionAllView { pairs: u.pairs@ }),
        RelOperator::DummyTableScan => RelOperatorView::DummyTableScan,
        RelOperator::RuntimeFilterSource(r) => RelOperatorView::RuntimeFilterSource(
            RuntimeFilterSourceView {
                left_runtime_filter: scalars_view(r.left_runtime_filter),
                right_runtime_filter: scalars_view(r.right_runtime_filter),
            },
        ),
        RelOperator::Window(w) => RelOperatorView::Window(
            WindowView { index: w.index, function: window_func_view(w.function) },
        ),
        RelOperator::Pattern(k) => RelOperatorView::Pattern(k),
    }
}

/// The view of a plan node.
pub open spec fn sexpr_view(e: SExpr) -> SExprView
    decreases e,
{
    SExprView {
        plan: operator_view(e.plan),
        children: sexprs_view(e.children),
        applied_rules: e.applied_rules,
    }
}

impl View for ScalarExpr {
    type V = ScalarView;

    open spec fn view(&self) -> ScalarView {
        scalar_view(*self)
    }
}

impl View for ScalarItem {
    type V = ScalarItemView;

    open spec fn view(&self) -> ScalarItemView {
        item_view(*self)
    }
}

impl View for AggregateFunction {
    type V = AggregateFunctionView;

    open spec fn view(&self) -> AggregateFunctionView {
        aggregate_function_view(*self)
    }
}

impl View for WindowFunc {
    type V = WindowFuncView;

    open spec fn view(&self) -> WindowFuncView {
        window_func_view(*self)
    }
}

impl View for SubqueryExpr {
    type V = SubqueryView;

    open spec fn view(&self) -> SubqueryView {
        subquery_view(*self)
    }
}

impl View for Prewhere {
    type V = PrewhereView;

    open spec fn view(&self) -> PrewhereView {
        prewhere_view(*self)
    }
}

impl View for Scan {
    type V = ScanView;

    open spec fn view(&self) -> ScanView {
        scan_view(*self)
    }
}

impl View for Join {
    type V = JoinView;

    open spec fn view(&self) -> JoinView {
        join_view(*self)
    }
}

impl View for Filter {
    type V = FilterView;

    open spec fn view(&self) -> FilterView {
        FilterView { predicates: scalars_view(self.predicates), is_having: self.is_having }
    }
}

impl View for EvalScalar {
    type V = EvalScalarView;

    open spec fn view(&self) -> EvalScalarView {
        EvalScalarView { items: items_view(self.items) }
    }
}

impl View for Aggregate {
    type V = AggregateView;

    open spec fn view(&self) -> AggregateView {
        aggregate_view(*self)
    }
}

impl View for Sort {
    type V = SortView;

    open spec fn view(&self) -> SortView {
        SortView { items: self.items@, limit: self.limit }
    }
}

impl View for Exchange {
    type V = ExchangeView;

    open spec fn view(&self) -> ExchangeView {
        match self {
            Exchange::Random => ExchangeView::Random,
            Exchange::Hash(keys) => ExchangeView::Hash(scalars_view(*keys)),
            Exchange::Broadcast => ExchangeView::Broadcast,
            Exchange::Merge => ExchangeView::Merge,
        }
    }
}

impl View for UnionAll {
    type V = UnionAllView;

    open spec fn view(&self) -> UnionAllView {
        UnionAllView { pairs: self.pairs@ }
    }
}

impl View for RelOperator {
    type V = RelOperatorView;

    open spec fn view(&self) -> RelOperatorView {
        operator_view(*self)
    }
}

impl View for SExpr {
    type V = SExprView;

    open spec fn view(&self) -> SExprView {
        sexpr_view(*self)
    }
}

/// The view of a node is made of the views of its operator and inputs.
pub proof fn sexpr_view_parts(e: SExpr)
    ensures
        e@.plan == e.plan@,
        e@.children == sexprs_view(e.children),
        e@.children.len() == e.children.len(),
        e@.applied_rules == e.applied_rules,
        forall|i: int| 0 <= i < e.children.len() ==> (#[trigger] e@.children[i]) == e.children[i]@,
{
}

} // verus!
