use query_core::columns::ColumnSet;
use query_core::error::INTERNAL;
use query_core::format::{
    format_aggregate, format_exchange, format_join, format_scalar, FormatContext,
};
use query_core::format_tree::{
    eval_scalar_to_format_tree, join_to_format_tree, logical_join_to_format_tree, to_format_tree,
    FormatTreeNode,
};
use query_core::ir::{
    Aggregate, AggregateFunction, AggregateMode, ColumnBinding, ComparisonOp, EvalScalar, Exchange,
    Filter, InternalColumnBinding, Join, JoinType, Limit, Literal, RelOp, RelOperator, SExpr,
    ScalarExpr, ScalarItem, Scan, Sort, SortItem, SubqueryExpr, SubqueryType, UnionAll, Visibility,
    WindowFunc,
};
use query_core::metadata::Metadata;
use query_core::types::{DataType, NumberKind};

fn int32() -> DataType {
    DataType::Number(NumberKind::Int32)
}

fn column(table: Option<&str>, name: &str, index: usize) -> ScalarExpr {
    ScalarExpr::BoundColumnRef {
        span: None,
        column: ColumnBinding {
            database_name: None,
            table_name: table.map(|t| t.to_string()),
            column_name: name.to_string(),
            index,
            data_type: int32(),
            visibility: Visibility::Visible,
        },
    }
}

fn constant(value: Literal) -> ScalarExpr {
    ScalarExpr::ConstantExpr { span: None, value, data_type: int32() }
}

fn call(name: &str, arguments: Vec<ScalarExpr>) -> ScalarExpr {
    ScalarExpr::FunctionCall {
        span: None,
        func_name: name.to_string(),
        params: vec![],
        arguments,
        return_type: int32(),
    }
}

fn sum_a() -> AggregateFunction {
    AggregateFunction {
        display_name: "sum(a)".to_string(),
        func_name: "sum".to_string(),
        distinct: false,
        params: vec![],
        args: vec![column(Some("t"), "a", 0)],
        return_type: DataType::Number(NumberKind::Int64),
    }
}

fn metadata() -> Metadata {
    let mut m = Metadata::new();
    let t = m.add_table("default".to_string(), "db".to_string(), "t".to_string());
    m.add_base_table_column("a".to_string(), int32(), t);
    m.add_base_table_column("b".to_string(), int32(), t);
    m.add_derived_column("total".to_string(), int32());
    m
}

fn text(s: &str) -> FormatTreeNode {
    FormatTreeNode::new(FormatContext::Text(s.to_string()))
}

fn scan(columns: Vec<usize>) -> Scan {
    Scan {
        table_index: 0,
        columns: ColumnSet::from_slice(&columns),
        push_down_predicates: None,
        limit: None,
        order_by: None,
        prewhere: None,
    }
}

#[test]
fn scalars_are_formatted() {
    let m = metadata();
    let a = column(Some("t"), "a", 0);
    let b = column(None, "b", 12);
    assert_eq!(format_scalar(&m, &a), "t.a (#0)");
    assert_eq!(format_scalar(&m, &b), "b (#12)");
    let internal = ScalarExpr::BoundInternalColumnRef {
        span: None,
        column: InternalColumnBinding {
            database_name: None,
            table_name: Some("t".to_string()),
            column_name: "_row_id".to_string(),
            index: 3,
            data_type: DataType::String,
        },
    };
    assert_eq!(format_scalar(&m, &internal), "t._row_id (#3)");
    assert_eq!(format_scalar(&m, &constant(Literal::Null)), "NULL");
    assert_eq!(format_scalar(&m, &constant(Literal::Boolean(true))), "true");
    assert_eq!(format_scalar(&m, &constant(Literal::Boolean(false))), "false");
    assert_eq!(format_scalar(&m, &constant(Literal::Int64(-42))), "-42");
    assert_eq!(
        format_scalar(&m, &constant(Literal::Int64(i64::MIN))),
        "-9223372036854775808"
    );
    assert_eq!(
        format_scalar(&m, &constant(Literal::UInt64(u64::MAX))),
        "18446744073709551615"
    );
    assert_eq!(format_scalar(&m, &constant(Literal::UInt64(0))), "0");
    assert_eq!(format_scalar(&m, &constant(Literal::String("x y".to_string()))), "'x y'");
    let and = ScalarExpr::AndExpr { left: Box::new(a.clone()), right: Box::new(b.clone()) };
    assert_eq!(format_scalar(&m, &and), "(t.a (#0)) AND (b (#12))");
    let or = ScalarExpr::OrExpr { left: Box::new(a.clone()), right: Box::new(b.clone()) };
    assert_eq!(format_scalar(&m, &or), "(t.a (#0)) OR (b (#12))");
    let not = ScalarExpr::NotExpr { argument: Box::new(a.clone()) };
    assert_eq!(format_scalar(&m, &not), "NOT (t.a (#0))");
    for (op, name) in [
        (ComparisonOp::Equal, "eq"),
        (ComparisonOp::NotEqual, "noteq"),
        (ComparisonOp::GT, "gt"),
        (ComparisonOp::LT, "lt"),
        (ComparisonOp::GTE, "gte"),
        (ComparisonOp::LTE, "lte"),
    ] {
        let e = ScalarExpr::ComparisonExpr {
            op,
            left: Box::new(a.clone()),
            right: Box::new(constant(Literal::UInt64(1))),
        };
        assert_eq!(format_scalar(&m, &e), format!("t.a (#0) {} 1", name));
    }
    assert_eq!(format_scalar(&m, &call("now", vec![])), "now()");
    assert_eq!(format_scalar(&m, &call("abs", vec![a.clone()])), "abs(t.a (#0))");
    assert_eq!(
        format_scalar(&m, &call("if", vec![a.clone(), b.clone(), constant(Literal::Null)])),
        "if(t.a (#0), b (#12), NULL)"
    );
    let cast = ScalarExpr::CastExpr {
        span: None,
        is_try: false,
        argument: Box::new(a.clone()),
        target_type: DataType::Nullable(Box::new(DataType::Number(NumberKind::Int64))),
    };
    assert_eq!(format_scalar(&m, &cast), "CAST(t.a (#0) AS Int64 NULL)");
    let unnest = ScalarExpr::Unnest { argument: Box::new(a.clone()), return_type: int32() };
    assert_eq!(format_scalar(&m, &unnest), "UNNEST(t.a (#0))");
    assert_eq!(format_scalar(&m, &ScalarExpr::AggregateFunction(sum_a())), "sum(a)");
    let window = ScalarExpr::WindowFunction(WindowFunc { agg_func: sum_a(), partition_by: vec![] });
    assert_eq!(format_scalar(&m, &window), "sum(a)");
    let subquery = ScalarExpr::SubqueryExpr(SubqueryExpr {
        span: None,
        typ: SubqueryType::Exists,
        subquery: Box::new(SExpr::create_leaf(RelOperator::DummyTableScan)),
        child_expr: None,
        compare_op: None,
        output_column: ColumnBinding {
            database_name: None,
            table_name: None,
            column_name: "x".to_string(),
            index: 0,
            data_type: int32(),
            visibility: Visibility::Visible,
        },
        projection_index: None,
        data_type: int32(),
        outer_columns: ColumnSet::new(),
    });
    assert_eq!(format_scalar(&m, &subquery), "SUBQUERY");
}

fn join(join_type: JoinType, left: Vec<ScalarExpr>, right: Vec<ScalarExpr>) -> Join {
    Join {
        left_conditions: left,
        right_conditions: right,
        non_equi_conditions: vec![],
        join_type,
        marker_index: None,
        from_correlated_subquery: false,
        contain_runtime_filter: false,
    }
}

fn aggregate(mode: AggregateMode) -> Aggregate {
    Aggregate {
        mode,
        group_items: vec![ScalarItem { scalar: column(Some("t"), "b", 1), index: 1 }],
        aggregate_functions: vec![ScalarItem {
            scalar: ScalarExpr::AggregateFunction(sum_a()),
            index: 2,
        }],
        from_distinct: false,
        limit: None,
        grouping_id_index: 0,
        grouping_sets: vec![],
    }
}

#[test]
fn operators_are_formatted() {
    let m = metadata();
    assert_eq!(format_join(&m, &join(JoinType::Cross, vec![], vec![])), "CrossJoin");
    for (t, name) in [
        (JoinType::Inner, "INNER"),
        (JoinType::Left, "LEFT OUTER"),
        (JoinType::Right, "RIGHT OUTER"),
        (JoinType::Full, "FULL OUTER"),
        (JoinType::LeftSemi, "LEFT SEMI"),
        (JoinType::RightSemi, "RIGHT SEMI"),
        (JoinType::LeftAnti, "LEFT ANTI"),
        (JoinType::RightAnti, "RIGHT ANTI"),
        (JoinType::LeftMark, "LEFT MARK"),
        (JoinType::RightMark, "RIGHT MARK"),
        (JoinType::Single, "SINGLE"),
    ] {
        assert_eq!(format_join(&m, &join(t, vec![], vec![])), format!("HashJoin: {}", name));
    }
    assert_eq!(format_aggregate(&m, &aggregate(AggregateMode::Partial)), "Aggregate(Partial)");
    assert_eq!(format_aggregate(&m, &aggregate(AggregateMode::Final)), "Aggregate(Final)");
    assert_eq!(format_aggregate(&m, &aggregate(AggregateMode::Initial)), "Aggregate(Initial)");
    assert_eq!(format_exchange(&m, &Exchange::Random), "Exchange(Random)");
    assert_eq!(format_exchange(&m, &Exchange::Hash(vec![])), "Exchange(Hash)");
    assert_eq!(format_exchange(&m, &Exchange::Broadcast), "Exchange(Broadcast)");
    assert_eq!(format_exchange(&m, &Exchange::Merge), "Exchange(Merge)");

    let show = |op: RelOperator| FormatContext::RelOp { rel_operator: Box::new(op) }.to_string(&m);
    assert_eq!(show(RelOperator::Scan(scan(vec![0]))), "LogicalGet");
    assert_eq!(show(RelOperator::EvalScalar(EvalScalar { items: vec![] })), "EvalScalar");
    assert_eq!(
        show(RelOperator::Filter(Filter { predicates: vec![], is_having: false })),
        "Filter"
    );
    assert_eq!(show(RelOperator::Sort(Sort { items: vec![], limit: None })), "Sort");
    assert_eq!(show(RelOperator::Limit(Limit { limit: None, offset: 0 })), "Limit");
    assert_eq!(show(RelOperator::UnionAll(UnionAll { pairs: vec![] })), "Union");
    assert_eq!(show(RelOperator::Pattern(RelOp::Scan)), "Pattern");
    assert_eq!(show(RelOperator::DummyTableScan), "DummyTableScan");
    assert_eq!(show(RelOperator::Aggregate(aggregate(AggregateMode::Final))), "Aggregate(Final)");
    assert_eq!(show(RelOperator::Exchange(Exchange::Merge)), "Exchange(Merge)");
    assert_eq!(
        show(RelOperator::Join(join(JoinType::Inner, vec![], vec![]))),
        "HashJoin: INNER"
    );
    assert_eq!(FormatContext::Text("any text".to_string()).to_string(&m), "any text");
}

fn lines_of(node: &FormatTreeNode) -> Vec<String> {
    node.children
        .iter()
        .map(|c| match &c.payload {
            FormatContext::Text(t) => t.clone(),
            FormatContext::RelOp { rel_operator } => format!("{:?}", rel_operator),
        })
        .collect()
}

#[test]
fn join_node_shows_its_conditions() {
    let m = metadata();
    let mut op = join(
        JoinType::Inner,
        vec![column(Some("t"), "a", 0), column(Some("t"), "b", 1)],
        vec![column(Some("u"), "x", 5), column(Some("u"), "y", 6)],
    );
    op.non_equi_conditions = vec![
        ScalarExpr::ComparisonExpr {
            op: ComparisonOp::GT,
            left: Box::new(column(Some("t"), "a", 0)),
            right: Box::new(column(Some("u"), "y", 6)),
        },
        constant(Literal::Boolean(true)),
    ];
    let node = logical_join_to_format_tree(&op, &m, vec![text("left"), text("right")]);
    assert_eq!(
        node.payload,
        FormatContext::RelOp { rel_operator: Box::new(RelOperator::Join(op.clone())) }
    );
    assert_eq!(
        lines_of(&node),
        vec![
            "equi conditions: [(t.a (#0) eq u.x (#5)) AND (t.b (#1) eq u.y (#6))]",
            "non-equi conditions: [t.a (#0) gt u.y (#6), true]",
            "left",
            "right",
        ]
    );
    let hash = join_to_format_tree(&op, &m, vec![]);
    assert_eq!(
        lines_of(&hash),
        vec![
            "build keys: [u.x (#5), u.y (#6)]",
            "probe keys: [t.a (#0), t.b (#1)]",
            "other filters: [t.a (#0) gt u.y (#6), true]",
        ]
    );
    let bare = logical_join_to_format_tree(&join(JoinType::Cross, vec![], vec![]), &m, vec![]);
    assert_eq!(lines_of(&bare), vec!["equi conditions: []", "non-equi conditions: []"]);
}

#[test]
fn projection_shows_scalars_by_the_column_they_define() {
    let m = metadata();
    let op = EvalScalar {
        items: vec![
            ScalarItem { scalar: column(None, "third", 30), index: 9 },
            ScalarItem { scalar: column(None, "first", 10), index: 2 },
            ScalarItem { scalar: column(None, "second", 20), index: 5 },
            ScalarItem { scalar: column(None, "first again", 11), index: 2 },
        ],
    };
    let node = eval_scalar_to_format_tree(&op, &m, vec![]);
    assert_eq!(
        lines_of(&node),
        vec!["scalars: [first (#10), first again (#11), second (#20), third (#30)]"]
    );
}

#[test]
fn format_tree_of_a_plan() {
    let m = metadata();
    let mut scanned = scan(vec![0, 1]);
    scanned.push_down_predicates = Some(vec![column(Some("t"), "a", 0)]);
    scanned.order_by = Some(vec![
        SortItem { index: 1, asc: true, nulls_first: false },
        SortItem { index: 0, asc: false, nulls_first: false },
    ]);
    scanned.limit = Some(10);
    let plan = SExpr::create_unary(
        RelOperator::Limit(Limit { limit: None, offset: 3 }),
        SExpr::create_unary(
            RelOperator::Sort(Sort {
                items: vec![SortItem { index: 2, asc: false, nulls_first: false }],
                limit: Some(5),
            }),
            SExpr::create_unary(
                RelOperator::Aggregate(aggregate(AggregateMode::Initial)),
                SExpr::create_unary(
                    RelOperator::Filter(Filter {
                        predicates: vec![column(Some("t"), "a", 0), column(Some("t"), "b", 1)],
                        is_having: false,
                    }),
                    SExpr::create_leaf(RelOperator::Scan(scanned)),
                ),
            ),
        ),
    );
    let limit = plan.to_format_tree(&m).unwrap();
    assert_eq!(limit.payload.to_string(&m), "Limit");
    assert_eq!(lines_of(&limit)[..2], ["limit: [0]", "offset: [3]"]);
    let sort = &limit.children[2];
    assert_eq!(sort.payload.to_string(&m), "Sort");
    assert_eq!(lines_of(sort)[..2], ["sort keys: [total (#2) DESC]", "limit: [5]"]);
    let agg = &sort.children[2];
    assert_eq!(agg.payload.to_string(&m), "Aggregate(Initial)");
    assert_eq!(
        lines_of(agg)[..2],
        ["group items: [t.b (#1)]", "aggregate functions: [sum(a)]"]
    );
    let filter = &agg.children[2];
    assert_eq!(lines_of(filter)[..1], ["filters: [t.a (#0), t.b (#1)]"]);
    let get = &filter.children[1];
    assert_eq!(get.payload.to_string(&m), "LogicalGet");
    assert_eq!(
        lines_of(get),
        vec![
            "table: default.db.t",
            "filters: [t.a (#0)]",
            "order by: [b (#1) ASC, a (#0) DESC]",
            "limit: 10",
        ]
    );
}

#[test]
fn format_tree_of_other_operators() {
    let m = metadata();
    let hash = to_format_tree(
        &RelOperator::Exchange(Exchange::Hash(vec![column(Some("t"), "a", 0)])),
        &m,
        vec![text("input")],
    )
    .unwrap();
    assert_eq!(lines_of(&hash), vec!["Exchange(Hash): keys: [t.a (#0)]", "input"]);
    let merge =
        to_format_tree(&RelOperator::Exchange(Exchange::Merge), &m, vec![text("input")]).unwrap();
    assert_eq!(lines_of(&merge), vec!["input"]);
    let union = to_format_tree(
        &RelOperator::UnionAll(UnionAll { pairs: vec![(0, 1)] }),
        &m,
        vec![text("l"), text("r")],
    )
    .unwrap();
    assert_eq!(lines_of(&union), vec!["l", "r"]);
    let plain = to_format_tree(&RelOperator::Scan(scan(vec![0])), &m, vec![]).unwrap();
    assert_eq!(
        lines_of(&plain),
        vec!["table: default.db.t", "filters: []", "order by: []", "limit: NONE"]
    );
}

#[test]
fn format_tree_needs_the_registry_to_know_what_it_names() {
    let m = metadata();
    let mut unknown_table = scan(vec![0]);
    unknown_table.table_index = 4;
    let err = to_format_tree(&RelOperator::Scan(unknown_table), &m, vec![]).unwrap_err();
    assert_eq!(err.code(), INTERNAL);
    let sort = RelOperator::Sort(Sort {
        items: vec![SortItem { index: 99, asc: true, nulls_first: true }],
        limit: None,
    });
    assert_eq!(to_format_tree(&sort, &m, vec![]).unwrap_err().code(), INTERNAL);
}
