use query_core::error::{BAD_ARGUMENTS, INTERNAL};
use query_core::plan_parser::{
    aggregate, aggregates_of, create_relation, limit, plan_tables_with_joins, select_to_plan,
    sql_select_to_rex, DataValue, ExpressionPlan, FromPlan, Planner, SelectItem, SelectPlan,
    SqlExpr, StatementKind, StatementPlan, PLAN_ERROR,
};
use query_core::text::parse_i64;

fn number(n: &str) -> SqlExpr {
    SqlExpr::Number(n.to_string())
}

fn field(name: &str) -> ExpressionPlan {
    ExpressionPlan::Field(name.to_string())
}

fn function(op: &str, args: Vec<ExpressionPlan>) -> ExpressionPlan {
    ExpressionPlan::Function { op: op.to_string(), args }
}

#[test]
fn integers_are_parsed() {
    assert_eq!(parse_i64("0"), Some(0));
    assert_eq!(parse_i64("42"), Some(42));
    assert_eq!(parse_i64("+42"), Some(42));
    assert_eq!(parse_i64("-42"), Some(-42));
    assert_eq!(parse_i64("007"), Some(7));
    assert_eq!(parse_i64("9223372036854775807"), Some(i64::MAX));
    assert_eq!(parse_i64("-9223372036854775808"), Some(i64::MIN));
    assert_eq!(parse_i64("9223372036854775808"), None);
    assert_eq!(parse_i64("-9223372036854775809"), None);
    assert_eq!(parse_i64("99999999999999999999999999999999999999999"), None);
    for bad in ["", "-", "+", "1.5", "1e3", " 1", "1 ", "--1", "12a", "a"] {
        assert_eq!(parse_i64(bad), None, "{:?}", bad);
    }
}

#[test]
fn expressions_are_planned() {
    let rex = |e: &SqlExpr| Planner::sql_to_rex(e).unwrap();
    assert_eq!(rex(&SqlExpr::Identifier("a".to_string())), field("a"));
    assert_eq!(rex(&number("12")), ExpressionPlan::Constant(DataValue::UInt64(12)));
    assert_eq!(rex(&number("0")), ExpressionPlan::Constant(DataValue::UInt64(0)));
    assert_eq!(rex(&number("-12")), ExpressionPlan::Constant(DataValue::Int64(-12)));
    assert_eq!(
        rex(&number("1.5")),
        ExpressionPlan::Constant(DataValue::Float64("1.5".to_string()))
    );
    assert_eq!(
        rex(&SqlExpr::SingleQuotedString("x".to_string())),
        ExpressionPlan::Constant(DataValue::String("x".to_string()))
    );
    let sum = SqlExpr::BinaryOp {
        left: Box::new(SqlExpr::Nested(Box::new(SqlExpr::Identifier("a".to_string())))),
        op: "+".to_string(),
        right: Box::new(number("1")),
    };
    assert_eq!(
        rex(&sum),
        ExpressionPlan::BinaryExpression {
            op: "+".to_string(),
            left: Box::new(field("a")),
            right: Box::new(ExpressionPlan::Constant(DataValue::UInt64(1))),
        }
    );
    let call = SqlExpr::Function { name: "sum".to_string(), args: vec![sum, number("2")] };
    match rex(&call) {
        ExpressionPlan::Function { op, args } => {
            assert_eq!(op, "sum");
            assert_eq!(args.len(), 2);
            assert_eq!(args[1], ExpressionPlan::Constant(DataValue::UInt64(2)));
        }
        other => panic!("not a function: {:?}", other),
    }
}

#[test]
fn unsupported_expressions_are_rejected() {
    let other = SqlExpr::Other { display: "a IS NULL".to_string() };
    let err = Planner::sql_to_rex(&other).unwrap_err();
    assert_eq!(err.code(), PLAN_ERROR);
    assert_eq!(err.message(), "Unsupported ExpressionPlan: a IS NULL");
    let nested = SqlExpr::Function {
        name: "f".to_string(),
        args: vec![number("1"), SqlExpr::Nested(Box::new(other))],
    };
    assert_eq!(Planner::sql_to_rex(&nested).unwrap_err().code(), PLAN_ERROR);
}

#[test]
fn select_items_are_planned() {
    let a = SqlExpr::Identifier("a".to_string());
    assert_eq!(sql_select_to_rex(&SelectItem::UnnamedExpr(a)).unwrap(), field("a"));
    let aliased = SelectItem::ExprWithAlias { expr: number("1"), alias: "one".to_string() };
    assert_eq!(
        sql_select_to_rex(&aliased).unwrap(),
        ExpressionPlan::Alias(
            "one".to_string(),
            Box::new(ExpressionPlan::Constant(DataValue::UInt64(1)))
        )
    );
    let err = sql_select_to_rex(&SelectItem::Wildcard).unwrap_err();
    assert_eq!(err.code(), INTERNAL);
    assert_eq!(err.message(), "Qualified wildcards are not supported");
}

#[test]
fn statements_are_admitted() {
    assert!(Planner::build_from_sql(1).is_ok());
    for n in [0, 2, 10] {
        let err = Planner::build_from_sql(n).unwrap_err();
        assert_eq!(err.code(), INTERNAL);
        assert_eq!(err.message(), "Only support single query");
    }
    assert_eq!(Planner::statement_to_plan(StatementKind::Query).unwrap(), StatementPlan::Query);
    assert_eq!(
        Planner::statement_to_plan(StatementKind::Explain).unwrap(),
        StatementPlan::Explain
    );
    assert_eq!(Planner::statement_to_plan(StatementKind::Other).unwrap_err().code(), INTERNAL);
    assert_eq!(Planner::statement_to_plan(StatementKind::OtherSql).unwrap_err().code(), INTERNAL);
    assert_eq!(Planner::sql_statement_to_plan(true).unwrap(), StatementPlan::Query);
    assert_eq!(Planner::sql_statement_to_plan(false).unwrap_err().code(), INTERNAL);
    assert_eq!(
        Planner::explain_statement_to_plan(StatementKind::Query).unwrap(),
        StatementPlan::Explain
    );
    assert!(Planner::explain_statement_to_plan(StatementKind::Other).is_err());
    assert!(Planner::query_to_plan(true, "SELECT 1").is_ok());
    let err = Planner::query_to_plan(false, "a UNION b").unwrap_err();
    assert_eq!(err.code(), INTERNAL);
    assert_eq!(err.message(), "Query a UNION b not implemented yet");
}

#[test]
fn joins_are_rejected() {
    assert_eq!(plan_tables_with_joins(0).unwrap(), FromPlan::Empty);
    assert_eq!(plan_tables_with_joins(1).unwrap(), FromPlan::Relation);
    let err = plan_tables_with_joins(2).unwrap_err();
    assert_eq!(err.code(), INTERNAL);
    assert_eq!(err.message(), "Cannot support JOIN clause");
}

#[test]
fn table_names_are_resolved() {
    let current = "default".to_string();
    let name = |parts: Vec<&str>| parts.into_iter().map(|p| p.to_string()).collect::<Vec<_>>();
    assert_eq!(
        create_relation(&current, &name(vec!["db", "t"])),
        ("db".to_string(), "t".to_string())
    );
    assert_eq!(
        create_relation(&current, &name(vec!["t"])),
        ("default".to_string(), "t".to_string())
    );
    assert_eq!(
        create_relation(&current, &name(vec!["c", "db", "t"])),
        ("default".to_string(), "c.db.t".to_string())
    );
}

#[test]
fn select_is_a_projection_or_an_aggregation() {
    let count = function("COUNT", vec![field("a")]);
    let aliased_sum =
        ExpressionPlan::Alias("s".to_string(), Box::new(function("sum", vec![field("a")])));
    assert!(count.is_aggregate());
    assert!(aliased_sum.is_aggregate());
    assert!(!function("abs", vec![field("a")]).is_aggregate());
    assert!(!field("count").is_aggregate());

    let projection = vec![field("a"), function("abs", vec![field("b")])];
    assert_eq!(
        select_to_plan(false, projection.clone(), vec![]).unwrap(),
        SelectPlan::Project(projection)
    );

    let grouped = vec![field("a"), count.clone(), aliased_sum.clone()];
    assert_eq!(aggregates_of(&grouped), vec![count.clone(), aliased_sum.clone()]);
    assert_eq!(
        select_to_plan(false, grouped.clone(), vec![field("a")]).unwrap(),
        SelectPlan::Aggregate {
            group_expr: vec![field("a")],
            aggr_expr: vec![count.clone(), aliased_sum],
        }
    );
    // A select item that is neither grouped nor an aggregate.
    let err = select_to_plan(false, vec![field("a"), count.clone()], vec![]).unwrap_err();
    assert_eq!(err.code(), PLAN_ERROR);
    assert_eq!(err.message(), "Projection references non-aggregate values");
    let err = select_to_plan(true, vec![field("a")], vec![]).unwrap_err();
    assert_eq!(err.code(), INTERNAL);
    assert_eq!(err.message(), "HAVING is not implemented yet");

    assert!(aggregate(3, 2, 1).is_ok());
    assert_eq!(aggregate(3, 1, 1).unwrap_err().code(), BAD_ARGUMENTS);
}

#[test]
fn limit_takes_a_signed_constant_only() {
    assert_eq!(limit(&ExpressionPlan::Constant(DataValue::Int64(-1))).unwrap(), usize::MAX);
    assert_eq!(limit(&ExpressionPlan::Constant(DataValue::Int64(5))).unwrap(), 5);
    let err = limit(&ExpressionPlan::Constant(DataValue::UInt64(5))).unwrap_err();
    assert_eq!(err.code(), PLAN_ERROR);
    assert_eq!(err.message(), "Unexpected expression for LIMIT clause");
    assert!(limit(&field("a")).is_err());
}
