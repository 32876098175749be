//! The first planner of the engine: from a parsed statement straight to a
//! tree of plan nodes, for single-table queries.
//!
//! The planner works on a tree of its own that holds what it reads of the
//! parsed statement. It supports one statement at a time, one table in
//! `FROM`, no `HAVING`, and expressions made of names, numbers, strings,
//! binary operators and function calls.

use crate::error::{BAD_ARGUMENTS, ErrorCode, INTERNAL};
use crate::ir::{Aggregate};
use crate::text::{eq_ignore_ascii_case, join_strings, joined, parse_i64, parsed_i64, same_ignoring_ascii_case, texts};
use vstd::prelude::*;
use vstd::string::*;

verus! {

/// An expression of the statement.
#[derive(Debug, PartialEq, Eq)]
pub enum SqlExpr {
    Identifier(String),
    /// The numeral as it is written.
    Number(String),
    SingleQuotedString(String),
    /// A binary operation; `op` is the text of the operator.
    BinaryOp { left: Box<SqlExpr>, op: String, right: Box<SqlExpr> },
    Nested(Box<SqlExpr>),
    Function { name: String, args: Vec<SqlExpr> },
    /// Any other expression; `display` is its text.
    Other { display: String },
}

/// A constant.
#[derive(Debug, PartialEq, Eq)]
pub enum DataValue {
    UInt64(u64),
    Int64(i64),
    /// A numeral that is no 64-bit integer, as it is written.
    Float64(String),
    String(String),
}

/// An expression of the plan.
#[derive(Debug, PartialEq, Eq)]
pub enum ExpressionPlan {
    Alias(String, Box<ExpressionPlan>),
    Field(String),
    Constant(DataValue),
    BinaryExpression { op: String, left: Box<ExpressionPlan>, right: Box<ExpressionPlan> },
    Function { op: String, args: Vec<ExpressionPlan> },
}

/// The view of a constant.
pub ghost enum DataValueView {
    UInt64(u64),
    Int64(i64),
    Float64(Seq<char>),
    String(Seq<char>),
}

/// The view of an expression of the statement.
pub ghost enum SqlExprView {
    Identifier(Seq<char>),
    Number(Seq<char>),
    SingleQuotedString(Seq<char>),
    BinaryOp { left: Box<SqlExprView>, op: Seq<char>, right: Box<SqlExprView> },
    Nested(Box<SqlExprView>),
    Function { name: Seq<char>, args: Seq<SqlExprView> },
    Other { display: Seq<char> },
}

/// The view of an expression of the plan.
pub ghost enum ExpressionView {
    Alias(Seq<char>, Box<ExpressionView>),
    Field(Seq<char>),
    Constant(DataValueView),
    BinaryExpression { op: Seq<char>, left: Box<ExpressionView>, right: Box<ExpressionView> },
    Function { op: Seq<char>, args: Seq<ExpressionView> },
}

impl View for DataValue {
    type V = DataValueView;

    open spec fn view(&self) -> DataValueView {
        match self {
            DataValue::UInt64(n) => DataValueView::UInt64(*n),
            DataValue::Int64(n) => DataValueView::Int64(*n),
            DataValue::Float64(t) => DataValueView::Float64(t@),
            DataValue::String(t) => DataValueView::String(t@),
        }
    }
}

/// The view of an expression of the statement.
pub open spec fn sql_expr_view(e: SqlExpr) -> SqlExprView
    decreases e,
{
    match e {
        SqlExpr::Identifier(s) => SqlExprView::Identifier(s@),
        SqlExpr::Number(s) => SqlExprView::Number(s@),
        SqlExpr::SingleQuotedString(s) => SqlExprView::SingleQuotedString(s@),
        SqlExpr::BinaryOp { left, op, right } => SqlExprView::BinaryOp {
            left: Box::new(sql_expr_view(*left)),
            op: op@,
            right: Box::new(sql_expr_view(*right)),
        },
        SqlExpr::Nested(inner) => SqlExprView::Nested(Box::new(sql_expr_view(*inner))),
        SqlExpr::Function { name, args } => SqlExprView::Function {
            name: name@,
            args: sql_exprs_view(args),
        },
        SqlExpr::Other { display } => SqlExprView::Other { display: display@ },
    }
}

/// The views of a vector of expressions of the statement.
pub open spec fn sql_exprs_view(v: Vec<SqlExpr>) -> Seq<SqlExprView>
    decreases v,
{
    Seq::new(
        v.len() as nat,
        |i: int|
            if 0 <= i < v.len() {
                sql_expr_view(v[i])
            } else {
                arbitrary()
            },
    )
}

/// The view of an expression of the plan.
pub open spec fn expression_view(e: ExpressionPlan) -> ExpressionView
    decreases e,
{
    match e {
        ExpressionPlan::Alias(name, inner) => ExpressionView::Alias(
            name@,
            Box::new(expression_view(*inner)),
        ),
        ExpressionPlan::Field(name) => ExpressionView::Field(name@),
        ExpressionPlan::Constant(v) => ExpressionView::Constant(v@),
        ExpressionPlan::BinaryExpression { op, left, right } => ExpressionView::BinaryExpression {
            op: op@,
            left: Box::new(expression_view(*left)),
            right: Box::new(expression_view(*right)),
        },
        ExpressionPlan::Function { op, args } => ExpressionView::Function {
            op: op@,
            args: expressions_view(args),
        },
    }
}

/// The views of a vector of expressions of the plan.
pub open spec fn expressions_view(v: Vec<ExpressionPlan>) -> Seq<ExpressionView>
    decreases v,
{
    Seq::new(
        v.len() as nat,
        |i: int|
            if 0 <= i < v.len() {
                expression_view(v[i])
            } else {
                arbitrary()
            },
    )
}

impl View for SqlExpr {
    type V = SqlExprView;

    open spec fn view(&self) -> SqlExprView {
        sql_expr_view(*self)
    }
}

impl View for ExpressionPlan {
    type V = ExpressionView;

    open spec fn view(&self) -> ExpressionView {
        expression_view(*self)
    }
}

/// The code of an error of the planner itself.
pub const PLAN_ERROR: u16 = BAD_ARGUMENTS;

/// The constant that a numeral writes: an unsigned integer where the
/// numeral is a 64-bit integer that is not negative, a signed integer
/// where it is one that is negative, and else the numeral itself, to be
/// read as a floating-point number.
pub open spec fn number_constant(numeral: Seq<char>) -> DataValueView {
    match parsed_i64(numeral) {
        Some(n) => if n >= 0 {
            DataValueView::UInt64(n as u64)
        } else {
            DataValueView::Int64(n)
        },
        None => DataValueView::Float64(numeral),
    }
}

/// The expression of the plan for an expression of the statement, or the
/// code of the error for an expression that the planner does not support.
pub open spec fn rex(e: SqlExprView) -> Result<ExpressionView, u16>
    decreases e,
{
    match e {
        SqlExprView::Identifier(v) => Ok(ExpressionView::Field(v)),
        SqlExprView::Number(n) => Ok(ExpressionView::Constant(number_constant(n))),
        SqlExprView::SingleQuotedString(s) => Ok(
            ExpressionView::Constant(DataValueView::String(s)),
        ),
        SqlExprView::BinaryOp { left, op, right } => match (rex(*left), rex(*right)) {
            (Ok(l), Ok(r)) => Ok(
                ExpressionView::BinaryExpression { op, left: Box::new(l), right: Box::new(r) },
            ),
            _ => Err(PLAN_ERROR),
        },
        SqlExprView::Nested(inner) => rex(*inner),
        SqlExprView::Function { name, args } => match rex_list(args) {
            Ok(a) => Ok(ExpressionView::Function { op: name, args: a }),
            Err(code) => Err(code),
        },
        SqlExprView::Other { .. } => Err(PLAN_ERROR),
    }
}

/// The expressions of the plan for a list of expressions of the
/// statement.
pub open spec fn rex_list(list: Seq<SqlExprView>) -> Result<Seq<ExpressionView>, u16>
    decreases list,
{
    if forall|i: int| 0 <= i < list.len() ==> rex(list[i]) is Ok {
        Ok(
            Seq::new(
                list.len(),
                |i: int|
                    if 0 <= i < list.len() {
                        rex(list[i])->Ok_0
                    } else {
                        arbitrary()
                    },
            ),
        )
    } else {
        Err(PLAN_ERROR)
    }
}

/// The text of the first expression that the planner does not support,
/// the parts of the expression taken from left to right; `None` where it
/// supports them all.
pub open spec fn unsupported(e: SqlExprView) -> Option<Seq<char>>
    decreases e, 0nat,
{
    match e {
        SqlExprView::BinaryOp { left, right, .. } => match unsupported(*left) {
            Some(d) => Some(d),
            None => unsupported(*right),
        },
        SqlExprView::Nested(inner) => unsupported(*inner),
        SqlExprView::Function { args, .. } => unsupported_in(args, 0),
        SqlExprView::Other { display } => Some(display),
        _ => None,
    }
}

/// The text of the first unsupported expression of `list` from position
/// `from` on.
pub open spec fn unsupported_in(list: Seq<SqlExprView>, from: nat) -> Option<Seq<char>>
    decreases list, list.len() - from,
{
    if from >= list.len() {
        None
    } else {
        match unsupported(list[from as int]) {
            Some(d) => Some(d),
            None => unsupported_in(list, from + 1),
        }
    }
}

/// The message of the error for an unsupported expression with the text
/// `display`.
pub open spec fn unsupported_message(display: Seq<char>) -> Seq<char> {
    "Unsupported ExpressionPlan: "@ + display
}

/// An expression has no expression of the plan exactly where it holds an
/// unsupported expression.
pub proof fn unsupported_matches(e: SqlExprView)
    ensures
        unsupported(e) is Some <==> rex(e) is Err,
    decreases e, 0nat,
{
    reveal_with_fuel(rex, 2);
    match e {
        SqlExprView::BinaryOp { left, right, .. } => {
            unsupported_matches(*left);
            unsupported_matches(*right);
        },
        SqlExprView::Nested(inner) => {
            unsupported_matches(*inner);
        },
        SqlExprView::Function { args, .. } => {
            unsupported_in_matches(args, 0);
        },
        _ => {},
    }
}

/// A list has no expressions of the plan exactly where one of its
/// expressions from `from` on is unsupported; the first unsupported one is
/// the first that has no expression of the plan.
pub proof fn unsupported_in_matches(list: Seq<SqlExprView>, from: nat)
    ensures
        unsupported_in(list, from) is None <==> (forall|i: int|
            from <= i < list.len() ==> rex(list[i]) is Ok),
    decreases list, list.len() - from,
{
    if from < list.len() {
        unsupported_matches(list[from as int]);
        unsupported_in_matches(list, from + 1);
    }
}

/// The first unsupported expression of a list is that of the first
/// expression that has no expression of the plan.
pub proof fn unsupported_in_is_first(list: Seq<SqlExprView>, from: nat, at: nat)
    requires
        from <= at < list.len(),
        forall|j: int| from <= j < at ==> rex(list[j]) is Ok,
        rex(list[at as int]) is Err,
    ensures
        unsupported_in(list, from) == unsupported(list[at as int]),
        unsupported(list[at as int]) is Some,
    decreases at - from,
{
    unsupported_matches(list[from as int]);
    if from < at {
        unsupported_in_is_first(list, from + 1, at);
    }
}

/// The constant that the numeral `numeral` writes.
pub fn number_to_constant(numeral: &String) -> (v: DataValue)
    ensures
        v@ == number_constant(numeral@),
{
    match parse_i64(numeral.as_str()) {
        Some(n) => {
            if n >= 0 {
                DataValue::UInt64(n as u64)
            } else {
                DataValue::Int64(n)
            }
        },
        None => DataValue::Float64(numeral.clone()),
    }
}

/// Turns an expression of the statement into an expression of the plan.
pub fn expression_to_rex(sql: &SqlExpr) -> (r: Result<ExpressionPlan, ErrorCode>)
    ensures
        match rex(sql@) {
            Ok(e) => r is Ok && r->Ok_0@ == e,
            Err(code) => r is Err && r->Err_0.code == code,
        },
        r is Err ==> unsupported(sql@) is Some && r->Err_0.message@ == unsupported_message(
            unsupported(sql@)->Some_0,
        ),
    decreases sql,
{
    proof {
        unsupported_matches(sql@);
        match sql@ {
            SqlExprView::BinaryOp { left, right, .. } => {
                unsupported_matches(*left);
                unsupported_matches(*right);
            },
            _ => {},
        }
    }
    match sql {
        SqlExpr::Identifier(v) => Ok(ExpressionPlan::Field(v.clone())),
        SqlExpr::Number(n) => Ok(ExpressionPlan::Constant(number_to_constant(n))),
        SqlExpr::SingleQuotedString(s) => Ok(ExpressionPlan::Constant(DataValue::String(s.clone()))),
        SqlExpr::BinaryOp { left, op, right } => {
            let l = match expression_to_rex(left) {
                Ok(l) => l,
                Err(e) => {
                    proof {
                        rex_fails_with_plan_error(left@);
                    }
                    return Err(e);
                },
            };
            let r = match expression_to_rex(right) {
                Ok(r) => r,
                Err(e) => {
                    proof {
                        rex_fails_with_plan_error(right@);
                    }
                    return Err(e);
                },
            };
            Ok(
                ExpressionPlan::BinaryExpression {
                    op: op.clone(),
                    left: Box::new(l),
                    right: Box::new(r),
                },
            )
        },
        SqlExpr::Nested(e) => expression_to_rex(e),
        SqlExpr::Function { name, args } => {
            match sql_list_to_rex(args) {
                Ok(a) => Ok(ExpressionPlan::Function { op: name.clone(), args: a }),
                Err(e) => Err(e),
            }
        },
        SqlExpr::Other { display } => {
            let mut message = String::from_str("Unsupported ExpressionPlan: ");
            message.append(display.as_str());
            Err(ErrorCode::create(PLAN_ERROR, message.as_str()))
        },
    }
}

/// Turns a list of expressions of the statement into expressions of the
/// plan.
pub fn sql_list_to_rex(list: &Vec<SqlExpr>) -> (r: Result<Vec<ExpressionPlan>, ErrorCode>)
    ensures
        match rex_list(sql_exprs_view(*list)) {
            Ok(l) => r is Ok && expressions_view(r->Ok_0) == l,
            Err(code) => r is Err && r->Err_0.code == code,
        },
        r is Err ==> unsupported_in(sql_exprs_view(*list), 0) is Some && r->Err_0.message@
            == unsupported_message(unsupported_in(sql_exprs_view(*list), 0)->Some_0),
    decreases list,
{
    let ghost all = sql_exprs_view(*list);
    proof {
        unsupported_in_matches(all, 0);
    }
    let mut out: Vec<ExpressionPlan> = Vec::new();
    let mut i: usize = 0;
    while i < list.len()
        invariant
            i <= list.len(),
            all == sql_exprs_view(*list),
            out.len() == i,
            forall|j: int| 0 <= j < i ==> (#[trigger] rex(all[j])) == Ok::<ExpressionView, u16>(
                out[j]@,
            ),
        decreases list.len() - i,
    {
        match expression_to_rex(&list[i]) {
            Ok(e) => {
                out.push(e);
            },
            Err(e) => {
                proof {
                    assert(rex(all[i as int]) is Err);
                    rex_fails_with_plan_error(all[i as int]);
                    unsupported_in_is_first(all, 0, i as nat);
                }
                return Err(e);
            },
        }
        i = i + 1;
    }
    proof {
        assert(all.len() == list.len());
        assert forall|j: int| 0 <= j < all.len() implies rex(all[j]) is Ok by {
            assert(0 <= j < i);
        }
        assert(expressions_view(out) =~= rex_list(all)->Ok_0);
    }
    Ok(out)
}

/// The planner knows one error for expressions.
pub proof fn rex_fails_with_plan_error(e: SqlExprView)
    ensures
        rex(e) is Err ==> rex(e)->Err_0 == PLAN_ERROR,
    decreases e,
{
    reveal_with_fuel(rex, 2);
    match e {
        SqlExprView::Nested(inner) => {
            rex_fails_with_plan_error(*inner);
        },
        _ => {},
    }
}

/// An item of the select list.
#[derive(Debug, PartialEq, Eq)]
pub enum SelectItem {
    UnnamedExpr(SqlExpr),
    ExprWithAlias { expr: SqlExpr, alias: String },
    /// A wildcard, qualified or not.
    Wildcard,
}

/// Turns an item of the select list into an expression of the plan. A
/// wildcard is an internal error.
pub fn sql_select_to_rex(sql: &SelectItem) -> (r: Result<ExpressionPlan, ErrorCode>)
    ensures
        match *sql {
            SelectItem::UnnamedExpr(e) => match rex(e@) {
                Ok(x) => r is Ok && r->Ok_0@ == x,
                Err(code) => r is Err && r->Err_0.code == code && unsupported(e@) is Some
                    && r->Err_0.message@ == unsupported_message(unsupported(e@)->Some_0),
            },
            SelectItem::ExprWithAlias { expr, alias } => match rex(expr@) {
                Ok(x) => r is Ok && r->Ok_0@ == ExpressionView::Alias(alias@, Box::new(x)),
                Err(code) => r is Err && r->Err_0.code == code && unsupported(expr@) is Some
                    && r->Err_0.message@ == unsupported_message(unsupported(expr@)->Some_0),
            },
            SelectItem::Wildcard => r is Err && r->Err_0.code == INTERNAL && r->Err_0.message@
                == "Qualified wildcards are not supported"@,
        },
{
    match sql {
        SelectItem::UnnamedExpr(expr) => expression_to_rex(expr),
        SelectItem::ExprWithAlias { expr, alias } => match expression_to_rex(expr) {
            Ok(e) => Ok(ExpressionPlan::Alias(alias.clone(), Box::new(e))),
            Err(e) => Err(e),
        },
        SelectItem::Wildcard => Err(ErrorCode::internal("Qualified wildcards are not supported")),
    }
}

/// Whether the name is that of an aggregate function, in any case.
pub open spec fn is_aggregate_name(name: Seq<char>) -> bool {
    same_ignoring_ascii_case(name, "count"@) || same_ignoring_ascii_case(name, "min"@)
        || same_ignoring_ascii_case(name, "max"@) || same_ignoring_ascii_case(name, "sum"@)
        || same_ignoring_ascii_case(name, "avg"@)
}

/// Whether the expression is a call of an aggregate function, under any
/// number of aliases.
pub open spec fn is_aggregate(e: ExpressionView) -> bool
    decreases e,
{
    match e {
        ExpressionView::Alias(_, inner) => is_aggregate(*inner),
        ExpressionView::Function { op, .. } => is_aggregate_name(op),
        _ => false,
    }
}

impl ExpressionPlan {
    /// Whether this expression is a call of an aggregate function.
    pub fn is_aggregate(&self) -> (b: bool)
        ensures
            b == is_aggregate(self@),
        decreases self,
    {
        match self {
            ExpressionPlan::Alias(_, inner) => inner.is_aggregate(),
            ExpressionPlan::Function { op, .. } => {
                let name = op.as_str();
                eq_ignore_ascii_case(name, "count") || eq_ignore_ascii_case(name, "min")
                    || eq_ignore_ascii_case(name, "max") || eq_ignore_ascii_case(name, "sum")
                    || eq_ignore_ascii_case(name, "avg")
            },
            _ => false,
        }
    }
}

/// What the planner does with the tables of `FROM`.
#[derive(Clone, Copy, Debug, PartialEq, Eq, Structural)]
pub enum FromPlan {
    /// No table: the plan starts from a single empty row.
    Empty,
    /// One table: its relation is planned.
    Relation,
}

/// Decides how the `FROM` clause is planned: no table and one table are
/// supported, more are a join and an internal error.
pub fn plan_tables_with_joins(tables: usize) -> (r: Result<FromPlan, ErrorCode>)
    ensures
        tables == 0 ==> r == Ok::<FromPlan, ErrorCode>(FromPlan::Empty),
        tables == 1 ==> r == Ok::<FromPlan, ErrorCode>(FromPlan::Relation),
        tables > 1 ==> r is Err && r->Err_0.code == INTERNAL && r->Err_0.message@
            == "Cannot support JOIN clause"@,
{
    if tables == 0 {
        Ok(FromPlan::Empty)
    } else if tables == 1 {
        Ok(FromPlan::Relation)
    } else {
        Err(ErrorCode::internal("Cannot support JOIN clause"))
    }
}

/// The database and the table that a table name means: a name of two
/// parts gives both; any other name is joined with dots and looked up in
/// the current database.
pub fn create_relation(current_database: &String, name: &Vec<String>) -> (r: (String, String))
    ensures
        name.len() == 2 ==> r.0@ == name[0]@ && r.1@ == name[1]@,
        name.len() != 2 ==> r.0@ == current_database@ && r.1@ == joined(texts(name@), "."@),
{
    if name.len() == 2 {
        (name[0].clone(), name[1].clone())
    } else {
        (current_database.clone(), join_strings(name, "."))
    }
}

/// What the statement is, as far as the planner tells statements apart.
#[derive(Clone, Copy, Debug, PartialEq, Eq, Structural)]
pub enum StatementKind {
    /// A query.
    Query,
    /// An `EXPLAIN` of a statement.
    Explain,
    /// Any other statement of the dialect.
    OtherSql,
    /// Any other statement at all.
    Other,
}

/// What the planner builds for a statement.
#[derive(Clone, Copy, Debug, PartialEq, Eq, Structural)]
pub enum StatementPlan {
    /// The plan of the query.
    Query,
    /// An explain node over the plan of the explained statement.
    Explain,
}

/// The planner.
pub struct Planner;

/// The message for a query whose body the planner cannot plan; `body` is
/// the text of the body.
pub open spec fn query_message(body: Seq<char>) -> Seq<char> {
    "Query "@ + body + " not implemented yet"@
}

/// The message of the error for a statement that the planner does not
/// plan: a statement of the dialect that is no query, or a statement outside
/// the dialect.
pub open spec fn statement_message(kind: StatementKind) -> Seq<char> {
    if kind == StatementKind::Other {
        "Unsupported statement in planner.build()"@
    } else {
        "Unsupported statement for planner.statement_to_plan"@
    }
}

impl Planner {
    /// Admits the statements of one text: the planner takes exactly one.
    pub fn build_from_sql(statements: usize) -> (r: Result<(), ErrorCode>)
        ensures
            statements == 1 ==> r is Ok,
            statements != 1 ==> r is Err && r->Err_0.code == INTERNAL && r->Err_0.message@
                == "Only support single query"@,
    {
        if statements != 1 {
            return Err(ErrorCode::internal("Only support single query"));
        }
        Ok(())
    }

    /// Decides how a statement is planned; any statement but a query and
    /// an `EXPLAIN` is an internal error.
    pub fn statement_to_plan(kind: StatementKind) -> (r: Result<StatementPlan, ErrorCode>)
        ensures
            kind == StatementKind::Query ==> r == Ok::<StatementPlan, ErrorCode>(
                StatementPlan::Query,
            ),
            kind == StatementKind::Explain ==> r == Ok::<StatementPlan, ErrorCode>(
                StatementPlan::Explain,
            ),
            kind == StatementKind::OtherSql || kind == StatementKind::Other ==> r is Err
                && r->Err_0.code == INTERNAL && r->Err_0.message@ == statement_message(kind),
    {
        match kind {
            StatementKind::Query => Ok(StatementPlan::Query),
            StatementKind::Explain => Ok(StatementPlan::Explain),
            StatementKind::OtherSql => Planner::sql_statement_to_plan(false),
            StatementKind::Other => Err(
                ErrorCode::internal("Unsupported statement in planner.build()"),
            ),
        }
    }

    /// Admits a statement of the dialect: only a query is planned.
    pub fn sql_statement_to_plan(is_query: bool) -> (r: Result<StatementPlan, ErrorCode>)
        ensures
            is_query ==> r == Ok::<StatementPlan, ErrorCode>(StatementPlan::Query),
            !is_query ==> r is Err && r->Err_0.code == INTERNAL && r->Err_0.message@
                == statement_message(StatementKind::OtherSql),
    {
        if is_query {
            Ok(StatementPlan::Query)
        } else {
            Err(ErrorCode::internal("Unsupported statement for planner.statement_to_plan"))
        }
    }

    /// Plans an `EXPLAIN`: the explained statement is planned like any
    /// statement, and an explain node goes over its plan.
    pub fn explain_statement_to_plan(explained: StatementKind) -> (r: Result<
        StatementPlan,
        ErrorCode,
    >)
        ensures
            explained == StatementKind::Query || explained == StatementKind::Explain ==> r == Ok::<
                StatementPlan,
                ErrorCode,
            >(StatementPlan::Explain),
            explained == StatementKind::OtherSql || explained == StatementKind::Other ==> r is Err
                && r->Err_0.code == INTERNAL && r->Err_0.message@ == statement_message(explained),
    {
        match Planner::statement_to_plan(explained) {
            Ok(_) => Ok(StatementPlan::Explain),
            Err(e) => Err(e),
        }
    }

    /// Admits the body of a query: only a `SELECT` is planned. `body` is
    /// the text of the body.
    pub fn query_to_plan(body_is_select: bool, body: &str) -> (r: Result<(), ErrorCode>)
        ensures
            body_is_select ==> r is Ok,
            !body_is_select ==> r is Err && r->Err_0.code == INTERNAL && r->Err_0.message@
                == query_message(body@),
    {
        if body_is_select {
            Ok(())
        } else {
            let mut message = String::from_str("Query ");
            message.append(body);
            message.append(" not implemented yet");
            Err(ErrorCode::internal(message.as_str()))
        }
    }

    /// Turns an expression of the statement into an expression of the
    /// plan.
    pub fn sql_to_rex(sql: &SqlExpr) -> (r: Result<ExpressionPlan, ErrorCode>)
        ensures
            match rex(sql@) {
                Ok(e) => r is Ok && r->Ok_0@ == e,
                Err(code) => r is Err && r->Err_0.code == code,
            },
            r is Err ==> unsupported(sql@) is Some && r->Err_0.message@ == unsupported_message(
                unsupported(sql@)->Some_0,
            ),
    {
        expression_to_rex(sql)
    }
}

/// What the planner puts over the filtered input of a `SELECT`.
#[derive(Debug, PartialEq, Eq)]
pub enum SelectPlan {
    /// A projection of the expressions.
    Project(Vec<ExpressionPlan>),
    /// An aggregation by the group expressions of the aggregate
    /// expressions.
    Aggregate { group_expr: Vec<ExpressionPlan>, aggr_expr: Vec<ExpressionPlan> },
}

/// The positions, among the first `n` expressions, of the aggregates.
pub open spec fn aggregate_positions(list: Seq<ExpressionView>, n: nat) -> Seq<int>
    decreases n,
{
    if n == 0 {
        Seq::empty()
    } else {
        let rest = aggregate_positions(list, (n - 1) as nat);
        if is_aggregate(list[n - 1]) {
            rest.push(n - 1)
        } else {
            rest
        }
    }
}

/// The aggregates among `projection`, in their order.
pub fn aggregates_of(projection: &Vec<ExpressionPlan>) -> (r: Vec<ExpressionPlan>)
    ensures
        expressions_view(r) == picked(
            expressions_view(*projection),
            aggregate_positions(expressions_view(*projection), projection.len() as nat),
        ),
{
    let ghost all = expressions_view(*projection);
    let mut out: Vec<ExpressionPlan> = Vec::new();
    let mut i: usize = 0;
    proof {
        assert(expressions_view(out) =~= picked(all, aggregate_positions(all, 0)));
    }
    while i < projection.len()
        invariant
            i <= projection.len(),
            all == expressions_view(*projection),
            expressions_view(out) == picked(all, aggregate_positions(all, i as nat)),
        decreases projection.len() - i,
    {
        assert(all[i as int] == projection[i as int]@);
        let ghost before = expressions_view(out);
        if projection[i].is_aggregate() {
            let copy = clone_expression(&projection[i]);
            out.push(copy);
            proof {
                assert(expressions_view(out) =~= before.push(copy@));
                assert(picked(all, aggregate_positions(all, (i + 1) as nat)) =~= picked(
                    all,
                    aggregate_positions(all, i as nat),
                ).push(all[i as int]));
            }
        }
        i = i + 1;
    }
    out
}

/// The expressions at the given positions.
pub open spec fn picked(list: Seq<ExpressionView>, positions: Seq<int>) -> Seq<ExpressionView> {
    Seq::new(positions.len(), |k: int| list[positions[k]])
}

/// A copy of an expression of the plan.
pub fn clone_expression(e: &ExpressionPlan) -> (r: ExpressionPlan)
    ensures
        r@ == e@,
    decreases e,
{
    match e {
        ExpressionPlan::Alias(name, inner) => ExpressionPlan::Alias(
            name.clone(),
            Box::new(clone_expression(inner)),
        ),
        ExpressionPlan::Field(name) => ExpressionPlan::Field(name.clone()),
        ExpressionPlan::Constant(v) => ExpressionPlan::Constant(
            match v {
                DataValue::UInt64(n) => DataValue::UInt64(*n),
                DataValue::Int64(n) => DataValue::Int64(*n),
                DataValue::Float64(t) => DataValue::Float64(t.clone()),
                DataValue::String(t) => DataValue::String(t.clone()),
            },
        ),
        ExpressionPlan::BinaryExpression { op, left, right } => ExpressionPlan::BinaryExpression {
            op: op.clone(),
            left: Box::new(clone_expression(left)),
            right: Box::new(clone_expression(right)),
        },
        ExpressionPlan::Function { op, args } => ExpressionPlan::Function {
            op: op.clone(),
            args: clone_expressions(args),
        },
    }
}

/// A copy of a vector of expressions of the plan.
pub fn clone_expressions(v: &Vec<ExpressionPlan>) -> (out: Vec<ExpressionPlan>)
    ensures
        expressions_view(out) == expressions_view(*v),
    decreases v,
{
    let mut out: Vec<ExpressionPlan> = Vec::new();
    let mut i: usize = 0;
    while i < v.len()
        invariant
            i <= v.len(),
            out.len() == i,
            forall|j: int| 0 <= j < i ==> out[j]@ == v[j]@,
        decreases v.len() - i,
    {
        out.push(clone_expression(&v[i]));
        i = i + 1;
    }
    assert(expressions_view(out) =~= expressions_view(*v));
    out
}

impl Clone for ExpressionPlan {
    fn clone(&self) -> (r: ExpressionPlan)
        ensures
            r@ == self@,
    {
        clone_expression(self)
    }
}

/// Admits the select list of an aggregation: every item must be a group
/// expression or an aggregate, so the two together must be as many as the
/// items.
pub fn aggregate(projection: usize, aggregates: usize, group_by: usize) -> (r: Result<
    (),
    ErrorCode,
>)
    ensures
        group_by + aggregates == projection ==> r is Ok,
        group_by + aggregates != projection ==> r is Err && r->Err_0.code == PLAN_ERROR
            && r->Err_0.message@ == "Projection references non-aggregate values"@,
{
    let matches = match group_by.checked_add(aggregates) {
        Some(total) => total == projection,
        None => false,
    };
    if !matches {
        return Err(ErrorCode::create(PLAN_ERROR, "Projection references non-aggregate values"));
    }
    Ok(())
}

/// Decides what goes over the filtered input of a `SELECT`: an
/// aggregation if the statement groups or the select list holds an
/// aggregate, a projection else.
pub fn select_to_plan(
    has_having: bool,
    projection: Vec<ExpressionPlan>,
    group_expr: Vec<ExpressionPlan>,
) -> (r: Result<SelectPlan, ErrorCode>)
    ensures
        has_having ==> r is Err && r->Err_0.code == INTERNAL && r->Err_0.message@
            == "HAVING is not implemented yet"@,
        !has_having ==> {
            let aggregates = aggregate_positions(
                expressions_view(projection),
                projection.len() as nat,
            ).len();
            if group_expr.len() == 0 && aggregates == 0 {
                r is Ok && r->Ok_0 is Project && expressions_view(r->Ok_0->Project_0)
                    == expressions_view(projection)
            } else if group_expr.len() + aggregates == projection.len() {
                r is Ok && r->Ok_0 is Aggregate && expressions_view(
                    r->Ok_0->Aggregate_group_expr,
                ) == expressions_view(group_expr) && expressions_view(
                    r->Ok_0->Aggregate_aggr_expr,
                ) == picked(
                    expressions_view(projection),
                    aggregate_positions(expressions_view(projection), projection.len() as nat),
                )
            } else {
                r is Err && r->Err_0.code == PLAN_ERROR && r->Err_0.message@
                    == "Projection references non-aggregate values"@
            }
        },
{
    if has_having {
        return Err(ErrorCode::internal("HAVING is not implemented yet"));
    }
    let aggr_expr = aggregates_of(&projection);
    proof {
        let positions = aggregate_positions(expressions_view(projection), projection.len() as nat);
        assert(expressions_view(aggr_expr).len() == aggr_expr.len());
        assert(picked(expressions_view(projection), positions).len() == positions.len());
    }
    if group_expr.len() != 0 || aggr_expr.len() != 0 {
        match aggregate(projection.len(), aggr_expr.len(), group_expr.len()) {
            Ok(()) => Ok(SelectPlan::Aggregate { group_expr, aggr_expr }),
            Err(e) => Err(e),
        }
    } else {
        Ok(SelectPlan::Project(projection))
    }
}

/// The number of rows that a `LIMIT` allows, read from its expression.
///
/// Only a constant that is a signed integer is taken; a numeral that is
/// not negative reads as an unsigned integer and is refused like any other
/// expression. The signed integer is reinterpreted as a count.
pub fn limit(expr: &ExpressionPlan) -> (r: Result<usize, ErrorCode>)
    ensures
        match expr@ {
            ExpressionView::Constant(DataValueView::Int64(n)) => r is Ok && r->Ok_0 == n as usize,
            _ => r is Err && r->Err_0.code == PLAN_ERROR && r->Err_0.message@
                == "Unexpected expression for LIMIT clause"@,
        },
{
    match expr {
        ExpressionPlan::Constant(DataValue::Int64(n)) => Ok(#[verifier::truncate] (*n as usize)),
        _ => Err(ErrorCode::create(PLAN_ERROR, "Unexpected expression for LIMIT clause")),
    }
}

} // verus!
