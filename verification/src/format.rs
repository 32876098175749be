//! The display text of scalar expressions and relational operators.

use crate::copy::{clone_operator};
use crate::ir::{Aggregate, AggregateMode, ComparisonOp, EvalScalar, Exchange, ExchangeView, Filter, Join, JoinType, JoinView, Limit, Literal, LiteralView, RelOp, RelOperator, RelOperatorView, RuntimeFilterSource, ScalarExpr, ScalarView, Sort, operator_view, opt_text, scalar_view, scalars_view};
use crate::metadata::{Metadata};
use crate::text::{concat2, decimal, i64_to_string, join_strings, joined, push_decimal, signed_decimal, texts, u64_to_string};
use crate::types::{data_type_name};
use vstd::prelude::*;
use vstd::string::*;

verus! {

/// The name of a comparison operator as a function.
pub open spec fn comparison_name(op: ComparisonOp) -> Seq<char> {
    match op {
        ComparisonOp::Equal => "eq"@,
        ComparisonOp::NotEqual => "noteq"@,
        ComparisonOp::GT => "gt"@,
        ComparisonOp::LT => "lt"@,
        ComparisonOp::GTE => "gte"@,
        ComparisonOp::LTE => "lte"@,
    }
}

/// The display text of a kind of join.
pub open spec fn join_type_name(t: JoinType) -> Seq<char> {
    match t {
        JoinType::Inner => "INNER"@,
        JoinType::Cross => "CROSS"@,
        JoinType::Left => "LEFT OUTER"@,
        JoinType::Right => "RIGHT OUTER"@,
        JoinType::Full => "FULL OUTER"@,
        JoinType::LeftSemi => "LEFT SEMI"@,
        JoinType::RightSemi => "RIGHT SEMI"@,
        JoinType::LeftAnti => "LEFT ANTI"@,
        JoinType::RightAnti => "RIGHT ANTI"@,
        JoinType::LeftMark => "LEFT MARK"@,
        JoinType::RightMark => "RIGHT MARK"@,
        JoinType::Single => "SINGLE"@,
    }
}

/// The display text of a constant: `NULL`, `true` or `false`, the decimal
/// numeral of a number, or a string between single quotes.
pub open spec fn literal_text(v: LiteralView) -> Seq<char> {
    match v {
        LiteralView::Null => "NULL"@,
        LiteralView::Boolean(b) => if b {
            "true"@
        } else {
            "false"@
        },
        LiteralView::Int64(n) => signed_decimal(n as int),
        LiteralView::UInt64(n) => decimal(n as nat),
        LiteralView::String(s) => "'"@ + s + "'"@,
    }
}

/// The display text of a reference to a column: its name, qualified by
/// the table where it has one, and its index.
pub open spec fn column_text(table_name: Option<Seq<char>>, column_name: Seq<char>, index: usize) -> Seq<
    char,
> {
    match table_name {
        Some(t) => t + "."@ + column_name + " (#"@ + decimal(index as nat) + ")"@,
        None => column_name + " (#"@ + decimal(index as nat) + ")"@,
    }
}

/// The display text of a scalar expression.
pub open spec fn scalar_text(e: ScalarView) -> Seq<char>
    decreases e,
{
    match e {
        ScalarView::BoundColumnRef { column, .. } => column_text(
            column.table_name,
            column.column_name,
            column.index,
        ),
        ScalarView::BoundInternalColumnRef { column, .. } => column_text(
            column.table_name,
            column.column_name,
            column.index,
        ),
        ScalarView::ConstantExpr { value, .. } => literal_text(value),
        ScalarView::AndExpr { left, right } => "("@ + scalar_text(*left) + ") AND ("@ + scalar_text(
            *right,
        ) + ")"@,
        ScalarView::OrExpr { left, right } => "("@ + scalar_text(*left) + ") OR ("@ + scalar_text(
            *right,
        ) + ")"@,
        ScalarView::NotExpr { argument } => "NOT ("@ + scalar_text(*argument) + ")"@,
        ScalarView::ComparisonExpr { op, left, right } => scalar_text(*left) + " "@
            + comparison_name(op) + " "@ + scalar_text(*right),
        ScalarView::WindowFunction(f) => f.agg_func.display_name,
        ScalarView::AggregateFunction(f) => f.display_name,
        ScalarView::FunctionCall { func_name, arguments, .. } => func_name + "("@ + joined(
            scalar_texts(arguments),
            ", "@,
        ) + ")"@,
        ScalarView::CastExpr { argument, target_type, .. } => "CAST("@ + scalar_text(*argument)
            + " AS "@ + data_type_name(target_type) + ")"@,
        ScalarView::Unnest { argument, .. } => "UNNEST("@ + scalar_text(*argument) + ")"@,
        ScalarView::SubqueryExpr(_) => "SUBQUERY"@,
    }
}

/// The display texts of the scalars of a list.
pub open spec fn scalar_texts(list: Seq<ScalarView>) -> Seq<Seq<char>>
    decreases list,
{
    Seq::new(
        list.len(),
        |i: int|
            if 0 <= i < list.len() {
                scalar_text(list[i])
            } else {
                Seq::empty()
            },
    )
}

/// The display text of a join: `CrossJoin`, or `HashJoin: ` and the kind.
pub open spec fn join_text(j: JoinView) -> Seq<char> {
    if j.join_type == JoinType::Cross {
        "CrossJoin"@
    } else {
        "HashJoin: "@ + join_type_name(j.join_type)
    }
}

/// The display text of an aggregation: `Aggregate(` the stage `)`.
pub open spec fn aggregate_text(mode: AggregateMode) -> Seq<char> {
    match mode {
        AggregateMode::Partial => "Aggregate(Partial)"@,
        AggregateMode::Final => "Aggregate(Final)"@,
        AggregateMode::Initial => "Aggregate(Initial)"@,
    }
}

/// The display text of an exchange: `Exchange(` the kind `)`.
pub open spec fn exchange_text(x: ExchangeView) -> Seq<char> {
    match x {
        ExchangeView::Random => "Exchange(Random)"@,
        ExchangeView::Hash(_) => "Exchange(Hash)"@,
        ExchangeView::Broadcast => "Exchange(Broadcast)"@,
        ExchangeView::Merge => "Exchange(Merge)"@,
    }
}

/// The display text of a relational operator.
pub open spec fn operator_text(op: RelOperatorView) -> Seq<char> {
    match op {
        RelOperatorView::Scan(_) => "LogicalGet"@,
        RelOperatorView::Join(j) => join_text(j),
        RelOperatorView::EvalScalar(_) => "EvalScalar"@,
        RelOperatorView::Filter(_) => "Filter"@,
        RelOperatorView::Aggregate(a) => aggregate_text(a.mode),
        RelOperatorView::Sort(_) => "Sort"@,
        RelOperatorView::Limit(_) => "Limit"@,
        RelOperatorView::Exchange(x) => exchange_text(x),
        RelOperatorView::UnionAll(_) => "Union"@,
        RelOperatorView::Pattern(_) => "Pattern"@,
        RelOperatorView::DummyTableScan => "DummyTableScan"@,
        RelOperatorView::RuntimeFilterSource(_) => "RuntimeFilterSource"@,
        RelOperatorView::Window(_) => "WindowFunc"@,
    }
}

impl ComparisonOp {
    /// The name of the operator as a function.
    pub fn to_func_name(&self) -> (s: &'static str)
        ensures
            s@ == comparison_name(*self),
    {
        match self {
            ComparisonOp::Equal => "eq",
            ComparisonOp::NotEqual => "noteq",
            ComparisonOp::GT => "gt",
            ComparisonOp::LT => "lt",
            ComparisonOp::GTE => "gte",
            ComparisonOp::LTE => "lte",
        }
    }
}

impl JoinType {
    /// The display text of this kind of join.
    pub fn name(&self) -> (s: &'static str)
        ensures
            s@ == join_type_name(*self),
    {
        match self {
            JoinType::Inner => "INNER",
            JoinType::Cross => "CROSS",
            JoinType::Left => "LEFT OUTER",
            JoinType::Right => "RIGHT OUTER",
            JoinType::Full => "FULL OUTER",
            JoinType::LeftSemi => "LEFT SEMI",
            JoinType::RightSemi => "RIGHT SEMI",
            JoinType::LeftAnti => "LEFT ANTI",
            JoinType::RightAnti => "RIGHT ANTI",
            JoinType::LeftMark => "LEFT MARK",
            JoinType::RightMark => "RIGHT MARK",
            JoinType::Single => "SINGLE",
        }
    }
}

impl Literal {
    /// The display text of this constant.
    pub fn to_string(&self) -> (s: String)
        ensures
            s@ == literal_text(self@),
    {
        match self {
            Literal::Null => String::from_str("NULL"),
            Literal::Boolean(b) => if *b {
                String::from_str("true")
            } else {
                String::from_str("false")
            },
            Literal::Int64(n) => i64_to_string(*n),
            Literal::UInt64(n) => u64_to_string(*n),
            Literal::String(t) => {
                let mut s = String::from_str("'");
                s.append(t.as_str());
                s.append("'");
                s
            },
        }
    }
}

/// The display text of a reference to a column.
pub fn format_column(table_name: &Option<String>, column_name: &String, index: usize) -> (s: String)
    ensures
        s@ == column_text(opt_text(*table_name), column_name@, index),
{
    let mut s = match table_name {
        Some(t) => {
            let mut s = t.clone();
            s.append(".");
            s.append(column_name.as_str());
            s
        },
        None => column_name.clone(),
    };
    s.append(" (#");
    push_decimal(&mut s, index as u64);
    s.append(")");
    proof {
        if table_name is Some {
            let t = table_name->Some_0;
            assert(s@ =~= t@ + "."@ + column_name@ + " (#"@ + decimal(index as nat) + ")"@);
        } else {
            assert(s@ =~= column_name@ + " (#"@ + decimal(index as nat) + ")"@);
        }
    }
    s
}

/// `open`, then `left`, then `middle`, then `right`, then `close`.
fn wrap2(open: &str, left: &String, middle: &str, right: &String, close: &str) -> (s: String)
    ensures
        s@ == open@ + left@ + middle@ + right@ + close@,
{
    let mut s = String::from_str(open);
    s.append(left.as_str());
    s.append(middle);
    s.append(right.as_str());
    s.append(close);
    s
}

/// `open`, then `inner`, then `close`.
fn wrap1(open: &str, inner: &String, close: &str) -> (s: String)
    ensures
        s@ == open@ + inner@ + close@,
{
    let mut s = String::from_str(open);
    s.append(inner.as_str());
    s.append(close);
    s
}

/// The display text of `scalar`.
pub fn format_scalar(metadata: &Metadata, scalar: &ScalarExpr) -> (s: String)
    ensures
        s@ == scalar_text(scalar@),
    decreases scalar,
{
    proof {
        reveal_with_fuel(scalar_view, 3);
    }
    match scalar {
        ScalarExpr::BoundColumnRef { column, .. } => format_column(
            &column.table_name,
            &column.column_name,
            column.index,
        ),
        ScalarExpr::BoundInternalColumnRef { column, .. } => format_column(
            &column.table_name,
            &column.column_name,
            column.index,
        ),
        ScalarExpr::ConstantExpr { value, .. } => value.to_string(),
        ScalarExpr::AndExpr { left, right } => wrap2(
            "(",
            &format_scalar(metadata, left),
            ") AND (",
            &format_scalar(metadata, right),
            ")",
        ),
        ScalarExpr::OrExpr { left, right } => wrap2(
            "(",
            &format_scalar(metadata, left),
            ") OR (",
            &format_scalar(metadata, right),
            ")",
        ),
        ScalarExpr::NotExpr { argument } => wrap1("NOT (", &format_scalar(metadata, argument), ")"),
        ScalarExpr::ComparisonExpr { op, left, right } => {
            let mut s = format_scalar(metadata, left);
            let r = format_scalar(metadata, right);
            s.append(" ");
            s.append(op.to_func_name());
            s.append(" ");
            s.append(r.as_str());
            s
        },
        ScalarExpr::WindowFunction(f) => f.agg_func.display_name.clone(),
        ScalarExpr::AggregateFunction(f) => f.display_name.clone(),
        ScalarExpr::FunctionCall { func_name, arguments, .. } => {
            let parts = format_scalars(metadata, arguments);
            let mut s = func_name.clone();
            s.append("(");
            s.append(join_strings(&parts, ", ").as_str());
            s.append(")");
            s
        },
        ScalarExpr::CastExpr { argument, target_type, .. } => wrap2(
            "CAST(",
            &format_scalar(metadata, argument),
            " AS ",
            &target_type.name(),
            ")",
        ),
        ScalarExpr::Unnest { argument, .. } => wrap1(
            "UNNEST(",
            &format_scalar(metadata, argument),
            ")",
        ),
        ScalarExpr::SubqueryExpr(_) => String::from_str("SUBQUERY"),
    }
}

/// The display texts of the scalars of `list`.
pub fn format_scalars(metadata: &Metadata, list: &Vec<ScalarExpr>) -> (out: Vec<String>)
    ensures
        texts(out@) == scalar_texts(scalars_view(*list)),
    decreases list,
{
    let mut out: Vec<String> = Vec::new();
    let mut i: usize = 0;
    while i < list.len()
        invariant
            i <= list.len(),
            out.len() == i,
            forall|j: int| 0 <= j < i ==> out[j]@ == scalar_text(list[j]@),
        decreases list.len() - i,
    {
        out.push(format_scalar(metadata, &list[i]));
        i = i + 1;
    }
    assert(texts(out@) =~= scalar_texts(scalars_view(*list)));
    out
}

/// The display text of the join `op`.
pub fn format_join(metadata: &Metadata, op: &Join) -> (s: String)
    ensures
        s@ == join_text(op@),
{
    match op.join_type {
        JoinType::Cross => String::from_str("CrossJoin"),
        _ => concat2("HashJoin: ", op.join_type.name()),
    }
}

/// The display text of the aggregation `op`.
pub fn format_aggregate(metadata: &Metadata, op: &Aggregate) -> (s: String)
    ensures
        s@ == aggregate_text(op@.mode),
{
    match op.mode {
        AggregateMode::Partial => String::from_str("Aggregate(Partial)"),
        AggregateMode::Final => String::from_str("Aggregate(Final)"),
        AggregateMode::Initial => String::from_str("Aggregate(Initial)"),
    }
}

/// The display text of the exchange `op`.
pub fn format_exchange(metadata: &Metadata, op: &Exchange) -> (s: String)
    ensures
        s@ == exchange_text(op@),
{
    match op {
        Exchange::Random => String::from_str("Exchange(Random)"),
        Exchange::Hash(_) => String::from_str("Exchange(Hash)"),
        Exchange::Broadcast => String::from_str("Exchange(Broadcast)"),
        Exchange::Merge => String::from_str("Exchange(Merge)"),
    }
}

/// What a node of a format tree shows: a relational operator, or a line
/// of text.
#[derive(Debug, PartialEq, Eq)]
pub enum FormatContext {
    RelOp { rel_operator: Box<RelOperator> },
    Text(String),
}

/// The view of what a node of a format tree shows.
pub ghost enum FormatContextView {
    RelOp { rel_operator: RelOperatorView },
    Text(Seq<char>),
}

impl View for FormatContext {
    type V = FormatContextView;

    open spec fn view(&self) -> FormatContextView {
        match self {
            FormatContext::RelOp { rel_operator } => FormatContextView::RelOp {
                rel_operator: rel_operator@,
            },
            FormatContext::Text(t) => FormatContextView::Text(t@),
        }
    }
}

/// The display text of what a node shows.
pub open spec fn context_text(c: FormatContextView) -> Seq<char> {
    match c {
        FormatContextView::RelOp { rel_operator } => operator_text(rel_operator),
        FormatContextView::Text(t) => t,
    }
}

impl Clone for FormatContext {
    fn clone(&self) -> (r: FormatContext)
        ensures
            r@ == self@,
    {
        match self {
            FormatContext::RelOp { rel_operator } => FormatContext::RelOp {
                rel_operator: Box::new(clone_operator(rel_operator)),
            },
            FormatContext::Text(t) => FormatContext::Text(t.clone()),
        }
    }
}

impl FormatContext {
    /// The display text of what this node shows.
    pub fn to_string(&self, metadata: &Metadata) -> (s: String)
        ensures
            s@ == context_text(self@),
    {
        proof {
            reveal_with_fuel(operator_view, 2);
        }
        match self {
            FormatContext::RelOp { rel_operator } => match &**rel_operator {
                RelOperator::Scan(_) => String::from_str("LogicalGet"),
                RelOperator::Join(op) => format_join(metadata, op),
                RelOperator::EvalScalar(_) => String::from_str("EvalScalar"),
                RelOperator::Filter(_) => String::from_str("Filter"),
                RelOperator::Aggregate(op) => format_aggregate(metadata, op),
                RelOperator::Sort(_) => String::from_str("Sort"),
                RelOperator::Limit(_) => String::from_str("Limit"),
                RelOperator::Exchange(op) => format_exchange(metadata, op),
                RelOperator::UnionAll(_) => String::from_str("Union"),
                RelOperator::Pattern(_) => String::from_str("Pattern"),
                RelOperator::DummyTableScan => String::from_str("DummyTableScan"),
                RelOperator::RuntimeFilterSource(_) => String::from_str("RuntimeFilterSource"),
                RelOperator::Window(_) => String::from_str("WindowFunc"),
            },
            FormatContext::Text(text) => text.clone(),
        }
    }
}

} // verus!
