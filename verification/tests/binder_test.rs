use query_core::copy_binder::{
    apply_stage_options, bind_copy, check_secure, check_transform_query, is_user_stage,
    need_copy_files, parse_file_location, parse_stage_location, parse_stage_location_v2,
    CopyOptions, CopyRoute, CopyStmtOptions, CopyUnit, Direction, FileLocation, OnErrorMode,
    QueryShape, StageFileInfo, StageFileStatus, TableReference,
};
use query_core::error::{
    Span, BAD_ARGUMENTS, EMPTY_DATA, SEMANTIC_ERROR, STORAGE_INSECURE, SYNTAX_EXCEPTION,
};
use query_core::insert::{bind_insert, insert_fields, values_of, InsertInputSource, InsertSource};
use query_core::ir::{
    ColumnBinding, ComparisonOp, EvalScalar, RelOperator, SExpr, ScalarExpr, ScalarItem, Sort,
    SortItem, Visibility,
};
use query_core::metadata::{ColumnEntry, Metadata};
use query_core::order_by::{
    analyze_order_items, bind_order_by, bind_order_by_for_set_operation, match_column_binding,
    rewrite_scalar_with_replacement, OrderByExpr, OrderExpr, OrderItem, OrderItems,
};
use query_core::planner::{
    add_max_rows_limit, initial_probe, next_probe, should_retry, Probe, PROBE_INSERT_INITIAL_TOKENS,
    PROBE_INSERT_MAX_TOKENS,
};
use query_core::types::{DataType, NumberKind};

fn int32() -> DataType {
    DataType::Number(NumberKind::Int32)
}

fn binding(table: Option<&str>, name: &str, index: usize) -> ColumnBinding {
    ColumnBinding {
        database_name: table.map(|_| "db".to_string()),
        table_name: table.map(|t| t.to_string()),
        column_name: name.to_string(),
        index,
        data_type: int32(),
        visibility: Visibility::Visible,
    }
}

fn column_ref(b: ColumnBinding) -> ScalarExpr {
    ScalarExpr::BoundColumnRef { span: None, column: b }
}

fn order_by_column(table: Option<&str>, column: &str) -> OrderByExpr {
    OrderByExpr {
        expr: OrderExpr::ColumnRef {
            database: None,
            table: table.map(|t| t.to_string()),
            column: column.to_string(),
            span: Some(Span { start: 1, end: 2 }),
        },
        asc: None,
        nulls_first: None,
    }
}

fn order_by_position(index: u64) -> OrderByExpr {
    OrderByExpr {
        expr: OrderExpr::Position { index, span: Some(Span { start: 7, end: 8 }) },
        asc: Some(false),
        nulls_first: Some(true),
    }
}

fn a_plus_one() -> ScalarExpr {
    ScalarExpr::FunctionCall {
        span: None,
        func_name: "plus".to_string(),
        params: vec![],
        arguments: vec![column_ref(binding(Some("t"), "a", 0))],
        return_type: DataType::Number(NumberKind::Int64),
    }
}

/// SELECT a, a + 1 AS s FROM t(a #0, b #1); the alias is column #2.
fn select_list() -> (Vec<ColumnBinding>, Vec<ColumnBinding>, Vec<ScalarItem>) {
    let from = vec![binding(Some("t"), "a", 0), binding(Some("t"), "b", 1)];
    let projections = vec![binding(Some("t"), "a", 0), binding(None, "s", 2)];
    let scalar_items = vec![
        ScalarItem { scalar: column_ref(binding(Some("t"), "a", 0)), index: 0 },
        ScalarItem { scalar: a_plus_one(), index: 2 },
    ];
    (from, projections, scalar_items)
}

fn metadata() -> Metadata {
    let mut m = Metadata::new();
    let t = m.add_table("default".to_string(), "db".to_string(), "t".to_string());
    m.add_base_table_column("a".to_string(), int32(), t);
    m.add_base_table_column("b".to_string(), int32(), t);
    m.add_derived_column("s".to_string(), DataType::Number(NumberKind::Int64));
    m
}

#[test]
fn column_names_match_bindings() {
    let b = binding(Some("t"), "a", 0);
    let none: Option<String> = None;
    let t = Some("t".to_string());
    let db = Some("db".to_string());
    let a = "a".to_string();
    assert!(match_column_binding(&none, &none, &a, &b));
    assert!(match_column_binding(&none, &t, &a, &b));
    assert!(match_column_binding(&db, &t, &a, &b));
    assert!(!match_column_binding(&none, &Some("u".to_string()), &a, &b));
    assert!(!match_column_binding(&Some("other".to_string()), &t, &a, &b));
    assert!(!match_column_binding(&db, &none, &a, &b));
    assert!(!match_column_binding(&none, &none, &"b".to_string(), &b));
    let mut hidden = binding(Some("t"), "a", 0);
    hidden.visibility = Visibility::UnqualifiedWildcardInVisible;
    assert!(!match_column_binding(&none, &none, &a, &hidden));
    assert!(match_column_binding(&none, &t, &a, &hidden));
}

#[test]
fn order_items_are_resolved() {
    let (from, projections, mut scalar_items) = select_list();
    let mut m = metadata();
    let other = OrderByExpr {
        expr: OrderExpr::Scalar {
            scalar: ScalarExpr::NotExpr { argument: Box::new(column_ref(binding(None, "s", 2))) },
            display: "NOT s".to_string(),
            span: None,
        },
        asc: Some(true),
        nulls_first: None,
    };
    let order_by = vec![
        order_by_column(None, "s"),
        order_by_column(None, "a"),
        order_by_column(Some("t"), "b"),
        order_by_position(2),
        other,
    ];
    let items =
        analyze_order_items(&mut m, &from, &mut scalar_items, &projections, &order_by, false)
            .unwrap();
    let item = |index: usize, name: &str, need: bool| OrderItem {
        asc: None,
        nulls_first: None,
        index,
        name: name.to_string(),
        need_eval_scalar: need,
    };
    assert_eq!(
        items.items,
        vec![
            // An alias of the select list that is computed.
            item(2, "s", true),
            // A plain column of the select list.
            item(0, "a", false),
            // A column that only the from clause has.
            item(1, "b", false),
            // A position in the select list.
            OrderItem {
                asc: Some(false),
                nulls_first: Some(true),
                index: 2,
                name: "s".to_string(),
                need_eval_scalar: true,
            },
            // Any other expression becomes a column of its own.
            OrderItem {
                asc: Some(true),
                nulls_first: None,
                index: 3,
                name: "NOT s".to_string(),
                need_eval_scalar: true,
            },
        ]
    );
    assert_eq!(
        m.columns[3],
        ColumnEntry::DerivedColumn { alias: "NOT s".to_string(), data_type: DataType::Boolean }
    );
    // The alias inside the expression has given way to its definition.
    assert_eq!(
        scalar_items[2],
        ScalarItem {
            scalar: ScalarExpr::NotExpr { argument: Box::new(a_plus_one()) },
            index: 3
        }
    );
}

#[test]
fn order_by_position_must_be_in_select_list() {
    let (from, projections, mut scalar_items) = select_list();
    let mut m = metadata();
    for position in [0u64, 3, 100] {
        let err = analyze_order_items(
            &mut m,
            &from,
            &mut scalar_items,
            &projections,
            &vec![order_by_position(position)],
            false,
        )
        .unwrap_err();
        assert_eq!(err.code(), SEMANTIC_ERROR);
        assert_eq!(
            err.message(),
            format!("ORDER BY position {} is not in select list", position)
        );
        assert_eq!(err.span, Some(Span { start: 7, end: 8 }));
    }
    assert!(analyze_order_items(
        &mut m,
        &from,
        &mut scalar_items,
        &projections,
        &vec![order_by_position(1)],
        false
    )
    .is_ok());
}

#[test]
fn distinct_needs_order_by_columns_in_select_list() {
    let (from, projections, mut scalar_items) = select_list();
    let mut m = metadata();
    let err = analyze_order_items(
        &mut m,
        &from,
        &mut scalar_items,
        &projections,
        &vec![order_by_column(None, "b")],
        true,
    )
    .unwrap_err();
    assert_eq!(err.code(), SEMANTIC_ERROR);
    assert_eq!(
        err.message(),
        "for SELECT DISTINCT, ORDER BY expressions must appear in select list"
    );
    // A column of the select list is fine under DISTINCT.
    assert!(analyze_order_items(
        &mut m,
        &from,
        &mut scalar_items,
        &projections,
        &vec![order_by_column(None, "a")],
        true
    )
    .is_ok());
    // A column that nothing has is an error either way.
    let err = analyze_order_items(
        &mut m,
        &from,
        &mut scalar_items,
        &projections,
        &vec![order_by_column(None, "zzz")],
        false,
    )
    .unwrap_err();
    assert_eq!(err.code(), SEMANTIC_ERROR);
}

#[test]
fn order_by_plan_computes_what_the_keys_need() {
    let (_, _, scalar_items) = select_list();
    let scan = SExpr::create_leaf(RelOperator::DummyTableScan);
    let items = OrderItems {
        items: vec![
            OrderItem {
                asc: None,
                nulls_first: None,
                index: 2,
                name: "s".to_string(),
                need_eval_scalar: true,
            },
            OrderItem {
                asc: Some(false),
                nulls_first: Some(false),
                index: 0,
                name: "a".to_string(),
                need_eval_scalar: false,
            },
        ],
    };
    let plan = bind_order_by(&items, &scalar_items, true, scan.clone());
    let expected = SExpr::create_unary(
        RelOperator::Sort(Sort {
            items: vec![
                SortItem { index: 2, asc: true, nulls_first: true },
                SortItem { index: 0, asc: false, nulls_first: false },
            ],
            limit: None,
        }),
        SExpr::create_unary(
            RelOperator::EvalScalar(EvalScalar {
                items: vec![ScalarItem { scalar: a_plus_one(), index: 2 }],
            }),
            scan.clone(),
        ),
    );
    assert_eq!(plan, expected);
    // Without a key to compute there is no projection.
    let plain = OrderItems {
        items: vec![OrderItem {
            asc: None,
            nulls_first: None,
            index: 0,
            name: "a".to_string(),
            need_eval_scalar: false,
        }],
    };
    assert_eq!(
        bind_order_by(&plain, &scalar_items, false, scan.clone()),
        SExpr::create_unary(
            RelOperator::Sort(Sort {
                items: vec![SortItem { index: 0, asc: true, nulls_first: false }],
                limit: None,
            }),
            scan,
        )
    );
}

#[test]
fn set_operation_orders_by_columns_only() {
    let columns = vec![binding(Some("t"), "a", 0), binding(Some("t"), "b", 1)];
    let scan = SExpr::create_leaf(RelOperator::DummyTableScan);
    let plan = bind_order_by_for_set_operation(
        &columns,
        scan.clone(),
        &vec![order_by_column(None, "b"), order_by_column(Some("t"), "a")],
    )
    .unwrap();
    assert_eq!(
        plan,
        SExpr::create_unary(
            RelOperator::Sort(Sort {
                items: vec![
                    SortItem { index: 1, asc: true, nulls_first: false },
                    SortItem { index: 0, asc: true, nulls_first: false },
                ],
                limit: None,
            }),
            scan.clone(),
        )
    );
    let err = bind_order_by_for_set_operation(&columns, scan, &vec![order_by_position(1)])
        .unwrap_err();
    assert_eq!(err.code(), SEMANTIC_ERROR);
    assert_eq!(err.message(), "can only order by column");
}

#[test]
fn replacement_reaches_into_expressions() {
    let (_, _, scalar_items) = select_list();
    let s = || column_ref(binding(None, "s", 2));
    let b = || column_ref(binding(Some("t"), "b", 1));
    let before = ScalarExpr::ComparisonExpr {
        op: ComparisonOp::LT,
        left: Box::new(ScalarExpr::CastExpr {
            span: None,
            is_try: true,
            argument: Box::new(s()),
            target_type: int32(),
        }),
        right: Box::new(ScalarExpr::OrExpr { left: Box::new(b()), right: Box::new(s()) }),
    };
    let expected = ScalarExpr::ComparisonExpr {
        op: ComparisonOp::LT,
        left: Box::new(ScalarExpr::CastExpr {
            span: None,
            is_try: true,
            argument: Box::new(a_plus_one()),
            target_type: int32(),
        }),
        right: Box::new(ScalarExpr::OrExpr {
            left: Box::new(b()),
            right: Box::new(a_plus_one()),
        }),
    };
    assert_eq!(rewrite_scalar_with_replacement(&before, &scalar_items), expected);
}

#[test]
fn copy_routes() {
    assert_eq!(bind_copy(CopyUnit::StageLocation, CopyUnit::Table).unwrap(), CopyRoute::StageIntoTable);
    assert_eq!(bind_copy(CopyUnit::UriLocation, CopyUnit::Table).unwrap(), CopyRoute::UriIntoTable);
    assert_eq!(bind_copy(CopyUnit::Table, CopyUnit::StageLocation).unwrap(), CopyRoute::TableIntoStage);
    assert_eq!(bind_copy(CopyUnit::Table, CopyUnit::UriLocation).unwrap(), CopyRoute::TableIntoUri);
    assert_eq!(bind_copy(CopyUnit::Query, CopyUnit::StageLocation).unwrap(), CopyRoute::QueryIntoStage);
    assert_eq!(bind_copy(CopyUnit::Query, CopyUnit::UriLocation).unwrap(), CopyRoute::QueryIntoUri);
    assert_eq!(bind_copy(CopyUnit::Query, CopyUnit::Table).unwrap(), CopyRoute::QueryIntoTable);
    let err = bind_copy(CopyUnit::Table, CopyUnit::Table).unwrap_err();
    assert_eq!(err.code(), SYNTAX_EXCEPTION);
    assert_eq!(err.message(), "COPY INTO <Table> FROM <Table> is invalid");
    let err = bind_copy(CopyUnit::StageLocation, CopyUnit::Query).unwrap_err();
    assert_eq!(err.message(), "COPY INTO <Query> FROM <StageLocation> is invalid");
    assert!(bind_copy(CopyUnit::UriLocation, CopyUnit::StageLocation).is_err());
}

#[test]
fn insecure_storage_needs_opt_in() {
    assert!(check_secure(true, false, Direction::From).is_ok());
    assert!(check_secure(false, true, Direction::From).is_ok());
    let err = check_secure(false, false, Direction::From).unwrap_err();
    assert_eq!(err.code(), STORAGE_INSECURE);
    assert_eq!(err.message(), "copy from insecure storage is not allowed");
    let err = check_secure(false, false, Direction::Into).unwrap_err();
    assert_eq!(err.message(), "copy into insecure storage is not allowed");

    let uri = FileLocation::Uri { is_secure: false, path: "/data/".to_string() };
    assert_eq!(parse_file_location(&uri, false).unwrap_err().code(), STORAGE_INSECURE);
    assert_eq!(parse_file_location(&uri, true).unwrap(), "/data/");
    let stage = FileLocation::Stage { name: "s".to_string(), path: "//a/b".to_string() };
    assert_eq!(parse_file_location(&stage, false).unwrap(), "a/b");
}

#[test]
fn stage_options_are_applied() {
    let mut stage = CopyOptions {
        on_error: OnErrorMode::Abort,
        size_limit: 10,
        max_file_size: 20,
        split_size: 30,
        single: false,
        purge: false,
    };
    let stmt = CopyStmtOptions {
        on_error: "continue".to_string(),
        size_limit: 0,
        max_file_size: 99,
        split_size: 0,
        single: true,
        purge: true,
    };
    apply_stage_options(&stmt, &mut stage).unwrap();
    assert_eq!(
        stage,
        CopyOptions {
            on_error: OnErrorMode::Continue,
            size_limit: 10,
            max_file_size: 99,
            split_size: 0,
            single: true,
            purge: true,
        }
    );
    let before = stage;
    let bad = CopyStmtOptions { on_error: "whatever".to_string(), ..stmt };
    assert_eq!(apply_stage_options(&bad, &mut stage).unwrap_err().code(), SYNTAX_EXCEPTION);
    assert_eq!(stage, before);
}

fn projection_on(from: Vec<TableReference>) -> QueryShape {
    QueryShape {
        has_offset: false,
        limit_count: 0,
        order_by_count: 0,
        has_with: false,
        is_select: true,
        has_group_by: false,
        distinct: false,
        has_having: false,
        from,
    }
}

#[test]
fn copy_reads_only_plain_projections_on_one_stage() {
    assert!(check_transform_query(&projection_on(vec![TableReference::Stage { options: 0 }]))
        .is_ok());
    let err = check_transform_query(&projection_on(vec![TableReference::Stage { options: 2 }]))
        .unwrap_err();
    assert_eq!(err.code(), SYNTAX_EXCEPTION);
    assert_eq!(
        err.message(),
        "stage table function inside copy not allow options, apply them in the outer copy stmt instead."
    );
    let general = "query as source of copy only allow projection on one stage table";
    let rejected = vec![
        projection_on(vec![TableReference::Other]),
        projection_on(vec![]),
        projection_on(vec![
            TableReference::Stage { options: 0 },
            TableReference::Stage { options: 0 },
        ]),
        QueryShape { distinct: true, ..projection_on(vec![TableReference::Stage { options: 0 }]) },
        QueryShape {
            limit_count: 1,
            ..projection_on(vec![TableReference::Stage { options: 0 }])
        },
        QueryShape {
            is_select: false,
            ..projection_on(vec![TableReference::Stage { options: 0 }])
        },
    ];
    for q in rejected {
        assert_eq!(check_transform_query(&q).unwrap_err().message(), general);
    }
}

#[test]
fn stage_locations_are_taken_apart() {
    let parts = |l: &str| parse_stage_location(l).unwrap();
    assert_eq!(parts("@mystage"), ("mystage".to_string(), "/".to_string()));
    assert_eq!(parts("@mystage/"), ("mystage".to_string(), "/".to_string()));
    assert_eq!(parts("@mystage/abc"), ("mystage".to_string(), "abc".to_string()));
    assert_eq!(parts("@mystage/abc/def/"), ("mystage".to_string(), "abc/def/".to_string()));
    assert_eq!(parts("@mystage//abc"), ("mystage".to_string(), "abc".to_string()));
    assert_eq!(parts("@~/x"), ("~".to_string(), "x".to_string()));
    assert_eq!(parts("@/abc"), ("abc".to_string(), "/".to_string()));
    assert_eq!(parts("prefix@s/p@rest"), ("s".to_string(), "p".to_string()));
    for bad in ["", "mystage", "@", "@/"] {
        assert_eq!(parse_stage_location(bad).unwrap_err().code(), SYNTAX_EXCEPTION, "{:?}", bad);
    }
    assert_eq!(parse_stage_location_v2("///a/b/"), "a/b/");
    assert_eq!(parse_stage_location_v2("a"), "a");
    assert_eq!(parse_stage_location_v2("/"), "");
    assert!(is_user_stage("~"));
    assert!(!is_user_stage("~x"));
}

#[test]
fn only_files_that_need_copying_are_copied() {
    let file = |path: &str, status| StageFileInfo { path: path.to_string(), size: 1, status };
    let files = vec![
        file("a", StageFileStatus::AlreadyCopied),
        file("b", StageFileStatus::NeedCopy),
        file("c", StageFileStatus::AlreadyCopied),
        file("d", StageFileStatus::NeedCopy),
    ];
    assert_eq!(
        need_copy_files(&files).unwrap(),
        vec![file("b", StageFileStatus::NeedCopy), file("d", StageFileStatus::NeedCopy)]
    );
    let err = need_copy_files(&vec![file("a", StageFileStatus::AlreadyCopied)]).unwrap_err();
    assert_eq!(err.code(), EMPTY_DATA);
    assert_eq!(err.message(), "no file need to copy");
    assert_eq!(need_copy_files(&vec![]).unwrap_err().code(), EMPTY_DATA);
}

#[test]
fn insert_sources() {
    assert_eq!(values_of("  \t(1, 2), (3, 4);;"), "(1, 2), (3, 4)");
    assert_eq!(values_of(";"), "");
    assert_eq!(values_of("(1); "), "(1); ");
    let streaming = |format: &str| InsertSource::Streaming {
        format: format.to_string(),
        rest_str: " (1);".to_string(),
        start: 12,
    };
    assert_eq!(
        bind_insert(&streaming("values"), false),
        InsertInputSource::Values("(1)".to_string())
    );
    assert_eq!(
        bind_insert(&streaming("VaLuEs"), false),
        InsertInputSource::Values("(1)".to_string())
    );
    assert_eq!(
        bind_insert(&streaming("csv"), false),
        InsertInputSource::StreamingWithFormat("csv".to_string(), 12)
    );
    assert_eq!(
        bind_insert(&InsertSource::StreamingV2 { start: 5 }, false),
        InsertInputSource::StreamingWithFileFormat(5)
    );
    let values = InsertSource::Values { rest_str: "\n(7);".to_string() };
    assert_eq!(bind_insert(&values, false), InsertInputSource::Values("(7)".to_string()));
    assert_eq!(
        bind_insert(&values, true),
        InsertInputSource::Stage { values_str: "(7)".to_string() }
    );
    assert_eq!(bind_insert(&InsertSource::Select, false), InsertInputSource::SelectPlan);
}

#[test]
fn insert_columns_are_looked_up_in_the_table() {
    let fields: Vec<String> = ["a", "b", "c"].iter().map(|s| s.to_string()).collect();
    let names = |v: Vec<&str>| v.into_iter().map(|s| s.to_string()).collect::<Vec<String>>();
    assert_eq!(insert_fields(&fields, &vec![]).unwrap(), vec![0, 1, 2]);
    assert_eq!(insert_fields(&fields, &names(vec!["c", "a"])).unwrap(), vec![2, 0]);
    assert_eq!(
        insert_fields(&fields, &names(vec!["a", "x"])).unwrap_err().code(),
        BAD_ARGUMENTS
    );
}

#[test]
fn insert_statements_are_probed_in_growing_steps() {
    assert_eq!(PROBE_INSERT_INITIAL_TOKENS, 128);
    assert_eq!(PROBE_INSERT_MAX_TOKENS, 1024);
    assert_eq!(initial_probe(true), Probe::AtMost(128));
    assert_eq!(initial_probe(false), Probe::All);
    assert!(should_retry(true, true));
    assert!(!should_retry(true, false));
    assert!(!should_retry(false, true));
    assert_eq!(next_probe(128), Probe::AtMost(256));
    assert_eq!(next_probe(1023), Probe::AtMost(2046));
    assert_eq!(next_probe(1024), Probe::All);
    assert_eq!(next_probe(0), Probe::AtMost(0));
}

#[test]
fn result_rows_are_capped() {
    assert_eq!(add_max_rows_limit(100, true, vec![]), vec![100]);
    assert_eq!(add_max_rows_limit(100, true, vec![7]), vec![7]);
    assert_eq!(add_max_rows_limit(0, true, vec![]), Vec::<u64>::new());
    assert_eq!(add_max_rows_limit(100, false, vec![]), Vec::<u64>::new());
}

#[test]
fn order_by_errors_name_their_cause() {
    let mut metadata = query_core::metadata::Metadata::new();
    let t = metadata.add_table("default".to_string(), "db".to_string(), "t".to_string());
    metadata.add_base_table_column("a".to_string(), query_core::types::DataType::Boolean, t);
    let from = vec![query_core::ir::ColumnBinding {
        database_name: None,
        table_name: Some("t".to_string()),
        column_name: "a".to_string(),
        index: 0,
        data_type: query_core::types::DataType::Boolean,
        visibility: query_core::ir::Visibility::Visible,
    }];
    let key = |column: &str| query_core::order_by::OrderByExpr {
        expr: query_core::order_by::OrderExpr::ColumnRef {
            database: None,
            table: None,
            column: column.to_string(),
            span: None,
        },
        asc: None,
        nulls_first: None,
    };
    // The first key that fails decides: a column that nothing has.
    let mut items = vec![];
    let err = query_core::order_by::analyze_order_items(
        &mut metadata,
        &from,
        &mut items,
        &vec![],
        &vec![key("missing"), key("a")],
        true,
    )
    .unwrap_err();
    assert_eq!(err.message(), "column doesn't exist");
    // A column of the FROM clause under SELECT DISTINCT.
    let err = query_core::order_by::analyze_order_items(
        &mut metadata,
        &from,
        &mut items,
        &vec![],
        &vec![key("a"), key("missing")],
        true,
    )
    .unwrap_err();
    assert_eq!(
        err.message(),
        "for SELECT DISTINCT, ORDER BY expressions must appear in select list"
    );
}
