use query_core::columns::ColumnSet;
use query_core::decorrelate::UnnestResult;
use query_core::error::INTERNAL;
use query_core::flatten::{FlattenInfo, SubqueryRewriter};
use query_core::ir::{
    Aggregate, AggregateFunction, AggregateMode, ColumnBinding, ComparisonOp, EvalScalar, Filter,
    Join, JoinType, Limit, Literal, RelOp, RelOperator, SExpr, ScalarExpr, ScalarItem, Scan,
    SubqueryExpr, SubqueryType, Visibility, Window, WindowFunc,
};
use query_core::metadata::{ColumnEntry, Metadata};
use query_core::rewrite::{decorrelate_subquery, plan_contains_subquery};
use query_core::types::{DataType, NumberKind};

fn int32() -> DataType {
    DataType::Number(NumberKind::Int32)
}

fn int64() -> DataType {
    DataType::Number(NumberKind::Int64)
}

fn binding(table: &str, name: &str, index: usize, data_type: DataType) -> ColumnBinding {
    ColumnBinding {
        database_name: None,
        table_name: Some(table.to_string()),
        column_name: name.to_string(),
        index,
        data_type,
        visibility: Visibility::Visible,
    }
}

fn column(table: &str, name: &str, index: usize, data_type: DataType) -> ScalarExpr {
    ScalarExpr::BoundColumnRef { span: None, column: binding(table, name, index, data_type) }
}

fn derived_ref(name: &str, index: usize, data_type: DataType) -> ScalarExpr {
    ScalarExpr::BoundColumnRef {
        span: None,
        column: ColumnBinding {
            database_name: None,
            table_name: None,
            column_name: name.to_string(),
            index,
            data_type,
            visibility: Visibility::Visible,
        },
    }
}

fn compare(op: ComparisonOp, left: ScalarExpr, right: ScalarExpr) -> ScalarExpr {
    ScalarExpr::ComparisonExpr { op, left: Box::new(left), right: Box::new(right) }
}

fn scan(table_index: usize, columns: Vec<usize>) -> SExpr {
    SExpr::create_leaf(RelOperator::Scan(Scan {
        table_index,
        columns: ColumnSet::from_slice(&columns),
        push_down_predicates: None,
        limit: None,
        order_by: None,
        prewhere: None,
    }))
}

fn filter(predicates: Vec<ScalarExpr>, child: SExpr) -> SExpr {
    SExpr::create_unary(RelOperator::Filter(Filter { predicates, is_having: false }), child)
}

fn eval(items: Vec<ScalarItem>, child: SExpr) -> SExpr {
    SExpr::create_unary(RelOperator::EvalScalar(EvalScalar { items }), child)
}

fn aggregate(group_items: Vec<ScalarItem>, functions: Vec<ScalarItem>, child: SExpr) -> SExpr {
    SExpr::create_unary(
        RelOperator::Aggregate(Aggregate {
            mode: AggregateMode::Initial,
            group_items,
            aggregate_functions: functions,
            from_distinct: false,
            limit: None,
            grouping_id_index: 0,
            grouping_sets: vec![],
        }),
        child,
    )
}

fn join(
    join_type: JoinType,
    left_conditions: Vec<ScalarExpr>,
    right_conditions: Vec<ScalarExpr>,
    non_equi_conditions: Vec<ScalarExpr>,
    marker_index: Option<usize>,
    left: SExpr,
    right: SExpr,
) -> SExpr {
    SExpr::create_binary(
        RelOperator::Join(Join {
            left_conditions,
            right_conditions,
            non_equi_conditions,
            join_type,
            marker_index,
            from_correlated_subquery: true,
            contain_runtime_filter: false,
        }),
        left,
        right,
    )
}

/// t1(x #0, c #5 is added by some tests), t2(x #1, b #2), and a derived
/// column #3 for the output of the subquery.
fn metadata() -> Metadata {
    let mut m = Metadata::new();
    let t1 = m.add_table("default".to_string(), "db".to_string(), "t1".to_string());
    let t2 = m.add_table("default".to_string(), "db".to_string(), "t2".to_string());
    assert_eq!(m.add_base_table_column("x".to_string(), int32(), t1), 0);
    assert_eq!(m.add_base_table_column("x".to_string(), int32(), t2), 1);
    assert_eq!(m.add_base_table_column("b".to_string(), int32(), t2), 2);
    assert_eq!(m.add_derived_column("out".to_string(), int32()), 3);
    m
}

fn max_b() -> ScalarExpr {
    ScalarExpr::AggregateFunction(AggregateFunction {
        display_name: "max(b)".to_string(),
        func_name: "max".to_string(),
        distinct: false,
        params: vec![],
        args: vec![column("t2", "b", 2, int32())],
        return_type: int32(),
    })
}

fn correlation() -> ScalarExpr {
    compare(ComparisonOp::Equal, column("t2", "x", 1, int32()), column("t1", "x", 0, int32()))
}

fn subquery(typ: SubqueryType, plan: SExpr, outer: Vec<usize>) -> SubqueryExpr {
    SubqueryExpr {
        span: None,
        typ,
        subquery: Box::new(plan),
        child_expr: None,
        compare_op: None,
        output_column: binding("t2", "out", 3, int32()),
        projection_index: None,
        data_type: int32(),
        outer_columns: ColumnSet::from_slice(&outer),
    }
}

/// SELECT max(b) FROM t2 WHERE t2.x = t1.x
fn max_subquery_plan() -> SExpr {
    eval(
        vec![ScalarItem { scalar: derived_ref("out", 3, int32()), index: 3 }],
        aggregate(
            vec![],
            vec![ScalarItem { scalar: max_b(), index: 3 }],
            filter(vec![correlation()], scan(1, vec![1, 2])),
        ),
    )
}

/// SELECT 1 FROM t2 WHERE t2.x = t1.x
fn one_subquery_plan(predicates: Vec<ScalarExpr>) -> SExpr {
    eval(
        vec![ScalarItem {
            scalar: ScalarExpr::ConstantExpr {
                span: None,
                value: Literal::UInt64(1),
                data_type: DataType::Number(NumberKind::UInt64),
            },
            index: 3,
        }],
        filter(predicates, scan(1, vec![1, 2])),
    )
}

#[test]
fn scalar_subquery_becomes_single_join() {
    let mut m = metadata();
    let plan = eval(
        vec![ScalarItem {
            scalar: ScalarExpr::SubqueryExpr(subquery(
                SubqueryType::Scalar,
                max_subquery_plan(),
                vec![0],
            )),
            index: 4,
        }],
        scan(0, vec![0]),
    );
    let result = decorrelate_subquery(&mut m, &plan).unwrap();

    // The correlated column t1.x (#0) is mapped directly to t2.x (#1).
    let flattened = eval(
        vec![
            ScalarItem { scalar: derived_ref("out", 3, int32()), index: 3 },
            ScalarItem { scalar: derived_ref("subquery_1", 1, int32()), index: 1 },
        ],
        aggregate(
            vec![ScalarItem { scalar: derived_ref("subquery_1", 1, int32()), index: 1 }],
            vec![ScalarItem { scalar: max_b(), index: 3 }],
            filter(
                vec![compare(
                    ComparisonOp::Equal,
                    column("t2", "x", 1, int32()),
                    derived_ref("subquery_1", 1, int32()),
                )],
                scan(1, vec![1, 2]),
            ),
        ),
    );
    let expected = eval(
        vec![ScalarItem {
            scalar: derived_ref("scalar_subquery_3", 3, DataType::Nullable(Box::new(int32()))),
            index: 4,
        }],
        join(
            JoinType::Single,
            vec![derived_ref("subquery_0", 0, int32())],
            vec![derived_ref("subquery_1", 1, int32())],
            vec![],
            None,
            scan(0, vec![0]),
            flattened,
        ),
    );
    assert_eq!(result, expected);
    assert!(!plan_contains_subquery(&result));
    // A direct mapping needs no new column.
    assert_eq!(m, metadata());
}

#[test]
fn exists_over_filtered_scan_becomes_semi_join() {
    let mut m = metadata();
    let plan = filter(
        vec![ScalarExpr::SubqueryExpr(subquery(
            SubqueryType::Exists,
            one_subquery_plan(vec![correlation()]),
            vec![0],
        ))],
        scan(0, vec![0]),
    );
    let result = decorrelate_subquery(&mut m, &plan).unwrap();

    let projection = RelOperator::EvalScalar(EvalScalar {
        items: vec![ScalarItem {
            scalar: ScalarExpr::ConstantExpr {
                span: None,
                value: Literal::UInt64(1),
                data_type: DataType::Number(NumberKind::UInt64),
            },
            index: 3,
        }],
    });
    let right = SExpr::create_unary(
        projection.clone(),
        SExpr::create_unary(projection, scan(1, vec![1, 2])),
    );
    let expected = filter(
        vec![ScalarExpr::ConstantExpr {
            span: None,
            value: Literal::Boolean(true),
            data_type: DataType::Boolean,
        }],
        join(
            JoinType::LeftSemi,
            vec![column("t1", "x", 0, int32())],
            vec![column("t2", "x", 1, int32())],
            vec![],
            None,
            scan(0, vec![0]),
            right,
        ),
    );
    assert_eq!(result, expected);
    match &result.children[0].plan {
        RelOperator::Join(j) => {
            assert_eq!(j.join_type, JoinType::LeftSemi);
            assert_eq!(j.marker_index, None);
        }
        other => panic!("not a join: {:?}", other),
    }
}

#[test]
fn not_exists_over_filtered_scan_becomes_anti_join() {
    let rewriter = SubqueryRewriter::new(metadata());
    let q = subquery(SubqueryType::NotExists, one_subquery_plan(vec![correlation()]), vec![0]);
    let result = rewriter
        .try_decorrelate_simple_subquery(&scan(0, vec![0]), &q)
        .unwrap()
        .unwrap();
    match &result.plan {
        RelOperator::Join(j) => assert_eq!(j.join_type, JoinType::LeftAnti),
        other => panic!("not a join: {:?}", other),
    }
}

#[test]
fn simple_decorrelation_declines_other_subqueries() {
    let rewriter = SubqueryRewriter::new(metadata());
    let input = scan(0, vec![0]);
    // Not correlated.
    let q = subquery(SubqueryType::Exists, one_subquery_plan(vec![correlation()]), vec![]);
    assert_eq!(rewriter.try_decorrelate_simple_subquery(&input, &q).unwrap(), None);
    // Not a projection over a filter over a scan.
    let q = subquery(SubqueryType::Exists, max_subquery_plan(), vec![0]);
    assert_eq!(rewriter.try_decorrelate_simple_subquery(&input, &q).unwrap(), None);
    // Not an EXISTS.
    let q = subquery(SubqueryType::Scalar, one_subquery_plan(vec![correlation()]), vec![0]);
    assert_eq!(rewriter.try_decorrelate_simple_subquery(&input, &q).unwrap(), None);
}

#[test]
fn equality_becomes_key_and_other_comparison_does_not() {
    // Predicates [a = b, a > c] with a (#0) and c (#4) outer and b (#1) inner.
    let mut m = metadata();
    assert_eq!(m.add_base_table_column("c".to_string(), int32(), 0), 4);
    let rewriter = SubqueryRewriter::new(m);
    let a = || column("t1", "x", 0, int32());
    let b = || column("t2", "x", 1, int32());
    let c = || column("t1", "c", 4, int32());
    let a_eq_b = compare(ComparisonOp::Equal, a(), b());
    let a_gt_c = compare(ComparisonOp::GT, a(), c());
    let q = subquery(
        SubqueryType::Exists,
        one_subquery_plan(vec![a_eq_b, a_gt_c.clone()]),
        vec![0, 4],
    );
    let input = scan(0, vec![0, 4]);
    let result = rewriter.try_decorrelate_simple_subquery(&input, &q).unwrap().unwrap();
    match &result.plan {
        RelOperator::Join(j) => {
            assert_eq!(j.left_conditions, vec![a()]);
            assert_eq!(j.right_conditions, vec![b()]);
            assert!(!j.left_conditions.contains(&a_gt_c));
            assert!(!j.right_conditions.contains(&a_gt_c));
            assert_eq!(j.non_equi_conditions, vec![]);
        }
        other => panic!("not a join: {:?}", other),
    }
    // `a > c` reads the outer side alone: it filters the outer plan.
    assert_eq!(result.children[0], filter(vec![a_gt_c], input));
}

#[test]
fn comparison_across_sides_becomes_non_equi_condition() {
    // a > b with a outer and b inner reads both sides and is no equality.
    let rewriter = SubqueryRewriter::new(metadata());
    let a_gt_b =
        compare(ComparisonOp::GT, column("t1", "x", 0, int32()), column("t2", "x", 1, int32()));
    let q = subquery(SubqueryType::Exists, one_subquery_plan(vec![a_gt_b.clone()]), vec![0]);
    let result =
        rewriter.try_decorrelate_simple_subquery(&scan(0, vec![0]), &q).unwrap().unwrap();
    match &result.plan {
        RelOperator::Join(j) => {
            assert_eq!(j.left_conditions, vec![]);
            assert_eq!(j.right_conditions, vec![]);
            assert_eq!(j.non_equi_conditions, vec![a_gt_b]);
        }
        other => panic!("not a join: {:?}", other),
    }
}

#[test]
fn join_keys_of_different_types_are_cast_to_common_type() {
    let rewriter = SubqueryRewriter::new(metadata());
    let a = column("t1", "x", 0, int32());
    let b = column("t2", "x", 1, int64());
    let q = subquery(
        SubqueryType::Exists,
        one_subquery_plan(vec![compare(ComparisonOp::Equal, a.clone(), b.clone())]),
        vec![0],
    );
    let result =
        rewriter.try_decorrelate_simple_subquery(&scan(0, vec![0]), &q).unwrap().unwrap();
    let cast = |e: ScalarExpr| ScalarExpr::CastExpr {
        span: None,
        is_try: false,
        argument: Box::new(e),
        target_type: int64(),
    };
    match &result.plan {
        RelOperator::Join(j) => {
            assert_eq!(j.left_conditions, vec![cast(a)]);
            assert_eq!(j.right_conditions, vec![cast(b)]);
            assert_eq!(j.left_conditions[0].data_type(), j.right_conditions[0].data_type());
        }
        other => panic!("not a join: {:?}", other),
    }
}

#[test]
fn join_keys_without_common_type_are_an_error() {
    let rewriter = SubqueryRewriter::new(metadata());
    let a = column("t1", "x", 0, DataType::Boolean);
    let b = column("t2", "x", 1, DataType::String);
    let q = subquery(
        SubqueryType::Exists,
        one_subquery_plan(vec![compare(ComparisonOp::Equal, a, b)]),
        vec![0],
    );
    let err = rewriter.try_decorrelate_simple_subquery(&scan(0, vec![0]), &q).unwrap_err();
    assert_eq!(err.code(), INTERNAL);
    assert_eq!(err.message(), "Cannot find common type");
}

#[test]
fn exists_outside_a_conjunction_becomes_mark_join() {
    let mut rewriter = SubqueryRewriter::new(metadata());
    let q = subquery(SubqueryType::Exists, one_subquery_plan(vec![correlation()]), vec![0]);
    let mut info = FlattenInfo { from_count_func: false };
    let (plan, result) = rewriter
        .try_decorrelate_subquery(&scan(0, vec![0]), &q, &mut info, false)
        .unwrap();
    // The marker is a fresh nullable boolean column.
    assert_eq!(result, UnnestResult::MarkJoin { marker_index: 4 });
    assert_eq!(
        rewriter.metadata.columns[4],
        ColumnEntry::DerivedColumn {
            alias: "marker".to_string(),
            data_type: DataType::Nullable(Box::new(DataType::Boolean)),
        }
    );
    match &plan.plan {
        RelOperator::Join(j) => {
            assert_eq!(j.join_type, JoinType::RightMark);
            assert_eq!(j.marker_index, Some(4));
            assert_eq!(j.left_conditions, vec![derived_ref("subquery_0", 0, int32())]);
            assert_eq!(j.right_conditions, vec![derived_ref("subquery_1", 1, int32())]);
            assert!(j.from_correlated_subquery);
        }
        other => panic!("not a join: {:?}", other),
    }
    assert!(!info.from_count_func);
}

#[test]
fn any_subquery_embeds_comparison_in_mark_join() {
    let mut rewriter = SubqueryRewriter::new(metadata());
    let mut q = subquery(SubqueryType::Any, max_subquery_plan(), vec![0]);
    q.child_expr = Some(Box::new(column("t1", "x", 0, int32())));
    q.compare_op = Some(ComparisonOp::GT);
    q.projection_index = Some(9);
    let mut info = FlattenInfo { from_count_func: false };
    let (plan, result) = rewriter
        .try_decorrelate_subquery(&scan(0, vec![0]), &q, &mut info, true)
        .unwrap();
    assert_eq!(result, UnnestResult::MarkJoin { marker_index: 9 });
    match &plan.plan {
        RelOperator::Join(j) => {
            assert_eq!(j.join_type, JoinType::RightMark);
            assert_eq!(j.marker_index, Some(9));
            assert_eq!(
                j.non_equi_conditions,
                vec![compare(
                    ComparisonOp::GT,
                    column("t1", "x", 0, int32()),
                    ScalarExpr::CastExpr {
                        span: None,
                        is_try: false,
                        argument: Box::new(derived_ref("subquery_3", 3, int32())),
                        target_type: int32(),
                    },
                )]
            );
        }
        other => panic!("not a join: {:?}", other),
    }
    // No marker column had to be made.
    assert_eq!(rewriter.metadata, metadata());
}

#[test]
fn all_subquery_is_rejected() {
    let mut rewriter = SubqueryRewriter::new(metadata());
    let mut q = subquery(SubqueryType::All, max_subquery_plan(), vec![0]);
    q.child_expr = Some(Box::new(column("t1", "x", 0, int32())));
    q.compare_op = Some(ComparisonOp::LTE);
    let mut info = FlattenInfo { from_count_func: false };
    let err =
        rewriter.try_decorrelate_subquery(&scan(0, vec![0]), &q, &mut info, false).unwrap_err();
    assert_eq!(err.code(), INTERNAL);
    assert_eq!(err.message(), "ALL subquery cannot be decorrelated");
    assert_eq!(rewriter.metadata, metadata());
}

#[test]
fn quantified_subquery_without_comparison_is_rejected() {
    let mut rewriter = SubqueryRewriter::new(metadata());
    let q = subquery(SubqueryType::Any, max_subquery_plan(), vec![0]);
    let mut info = FlattenInfo { from_count_func: false };
    let err =
        rewriter.try_decorrelate_subquery(&scan(0, vec![0]), &q, &mut info, true).unwrap_err();
    assert_eq!(err.code(), INTERNAL);
}

#[test]
fn counting_subquery_reads_absent_value_as_zero() {
    let mut m = metadata();
    let count = ScalarExpr::AggregateFunction(AggregateFunction {
        display_name: "count(b)".to_string(),
        func_name: "COUNT".to_string(),
        distinct: false,
        params: vec![],
        args: vec![column("t2", "b", 2, int32())],
        return_type: DataType::Number(NumberKind::UInt64),
    });
    let inner = aggregate(
        vec![],
        vec![ScalarItem { scalar: count, index: 3 }],
        filter(vec![correlation()], scan(1, vec![1, 2])),
    );
    let plan = eval(
        vec![ScalarItem {
            scalar: ScalarExpr::SubqueryExpr(subquery(SubqueryType::Scalar, inner, vec![0])),
            index: 4,
        }],
        scan(0, vec![0]),
    );
    let result = decorrelate_subquery(&mut m, &plan).unwrap();
    let nullable = DataType::Nullable(Box::new(int32()));
    let value = derived_ref("scalar_subquery_3", 3, nullable.clone());
    let expected_item = ScalarExpr::FunctionCall {
        span: None,
        func_name: "if".to_string(),
        params: vec![],
        arguments: vec![
            ScalarExpr::FunctionCall {
                span: None,
                func_name: "is_not_null".to_string(),
                params: vec![],
                arguments: vec![value.clone()],
                return_type: DataType::Boolean,
            },
            value,
            ScalarExpr::ConstantExpr {
                span: None,
                value: Literal::UInt64(0),
                data_type: DataType::Number(NumberKind::UInt64),
            },
        ],
        return_type: nullable,
    };
    match &result.plan {
        RelOperator::EvalScalar(e) => assert_eq!(e.items[0].scalar, expected_item),
        other => panic!("not a projection: {:?}", other),
    }
}

#[test]
fn correlated_column_outside_equality_forces_cross_join() {
    // WHERE t2.x > t1.x cannot be mapped directly: a scan of a fresh
    // derived column is cross-joined below the filter.
    let mut rewriter = SubqueryRewriter::new(metadata());
    let greater =
        compare(ComparisonOp::GT, column("t2", "x", 1, int32()), column("t1", "x", 0, int32()));
    let inner = filter(vec![greater], scan(1, vec![1, 2]));
    let mut info = FlattenInfo { from_count_func: false };
    let correlated = ColumnSet::from_slice(&vec![0]);
    let result = rewriter.flatten(&inner, &correlated, &mut info, false).unwrap();

    // The derived column #4 stands for t1.x, and is nullable.
    assert_eq!(
        rewriter.metadata.columns[4],
        ColumnEntry::DerivedColumn {
            alias: "x".to_string(),
            data_type: DataType::Nullable(Box::new(int32())),
        }
    );
    assert_eq!(rewriter.derived_columns.get(0), Some(4));
    let cross = SExpr::create_binary(
        RelOperator::Join(Join {
            left_conditions: vec![],
            right_conditions: vec![],
            non_equi_conditions: vec![],
            join_type: JoinType::Cross,
            marker_index: None,
            from_correlated_subquery: false,
            contain_runtime_filter: false,
        }),
        scan(0, vec![4]),
        scan(1, vec![1, 2]),
    );
    let expected = filter(
        vec![compare(
            ComparisonOp::GT,
            column("t2", "x", 1, int32()),
            derived_ref("subquery_4", 4, int32()),
        )],
        cross,
    );
    assert_eq!(result, expected);
}

#[test]
fn flatten_leaves_uncorrelated_plan_alone() {
    let mut rewriter = SubqueryRewriter::new(metadata());
    let plan = filter(vec![column("t2", "x", 1, DataType::Boolean)], scan(1, vec![1, 2]));
    let mut info = FlattenInfo { from_count_func: false };
    let correlated = ColumnSet::from_slice(&vec![0]);
    let result = rewriter.flatten(&plan, &correlated, &mut info, false).unwrap();
    assert_eq!(result, plan);
    assert_eq!(rewriter.metadata, metadata());
}

#[test]
fn flatten_rejects_unsupported_operator() {
    let mut rewriter = SubqueryRewriter::new(metadata());
    let window = SExpr::create_unary(
        RelOperator::Window(Window {
            index: 7,
            function: WindowFunc {
                agg_func: AggregateFunction {
                    display_name: "sum(x)".to_string(),
                    func_name: "sum".to_string(),
                    distinct: false,
                    params: vec![],
                    args: vec![column("t1", "x", 0, int32())],
                    return_type: int64(),
                },
                partition_by: vec![],
            },
        }),
        scan(1, vec![1, 2]),
    );
    let mut info = FlattenInfo { from_count_func: false };
    let correlated = ColumnSet::from_slice(&vec![0]);
    let err = rewriter.flatten(&window, &correlated, &mut info, false).unwrap_err();
    assert_eq!(err.code(), INTERNAL);
    assert_eq!(err.message(), "Invalid plan type for flattening subquery");
}

#[test]
fn flatten_scalar_rejects_subquery() {
    let rewriter = SubqueryRewriter::new(metadata());
    let q = ScalarExpr::SubqueryExpr(subquery(SubqueryType::Scalar, scan(1, vec![1]), vec![]));
    let err = rewriter.flatten_scalar(&q, &ColumnSet::new()).unwrap_err();
    assert_eq!(err.code(), INTERNAL);
    assert_eq!(err.message(), "Invalid scalar for flattening subquery");
}

#[test]
fn pattern_plan_has_no_properties() {
    let mut rewriter = SubqueryRewriter::new(metadata());
    let plan = SExpr::create_leaf(RelOperator::Pattern(RelOp::Scan));
    let mut info = FlattenInfo { from_count_func: false };
    let err = rewriter.flatten(&plan, &ColumnSet::new(), &mut info, false).unwrap_err();
    assert_eq!(err.code(), INTERNAL);
}

#[test]
fn decorrelation_is_idempotent() {
    // A plan without subqueries comes back as it went in.
    let mut m = metadata();
    let plan = SExpr::create_unary(
        RelOperator::Limit(Limit { limit: Some(3), offset: 1 }),
        filter(vec![correlation()], scan(1, vec![1, 2])),
    );
    let result = decorrelate_subquery(&mut m, &plan).unwrap();
    assert_eq!(result, plan);
    assert_eq!(m, metadata());

    // So does a plan that decorrelation has produced.
    let with_subquery = eval(
        vec![ScalarItem {
            scalar: ScalarExpr::SubqueryExpr(subquery(
                SubqueryType::Scalar,
                max_subquery_plan(),
                vec![0],
            )),
            index: 4,
        }],
        scan(0, vec![0]),
    );
    let once = decorrelate_subquery(&mut m, &with_subquery).unwrap();
    let before = m.columns.len();
    let twice = decorrelate_subquery(&mut m, &once).unwrap();
    assert_eq!(twice, once);
    assert_eq!(m.columns.len(), before);
}

#[test]
fn plan_without_subquery_comes_back_whatever_its_shape() {
    // A filter with two inputs holds no subquery: nothing is rewritten.
    let mut m = metadata();
    let plan = SExpr {
        plan: RelOperator::Filter(Filter { predicates: vec![correlation()], is_having: false }),
        children: vec![scan(0, vec![0]), scan(1, vec![1, 2])],
        applied_rules: 5,
    };
    let result = decorrelate_subquery(&mut m, &plan).unwrap();
    assert_eq!(result, plan);
    assert_eq!(m, metadata());
}

#[test]
fn subquery_in_join_condition_is_rejected() {
    let mut m = metadata();
    let q = ScalarExpr::SubqueryExpr(subquery(SubqueryType::Scalar, scan(1, vec![1]), vec![]));
    let plan = SExpr::create_binary(
        RelOperator::Join(Join {
            left_conditions: vec![],
            right_conditions: vec![],
            non_equi_conditions: vec![q],
            join_type: JoinType::Inner,
            marker_index: None,
            from_correlated_subquery: false,
            contain_runtime_filter: false,
        }),
        scan(0, vec![0]),
        scan(1, vec![1]),
    );
    assert!(plan_contains_subquery(&plan));
    let err = decorrelate_subquery(&mut m, &plan).unwrap_err();
    assert_eq!(err.code(), INTERNAL);
}

#[test]
fn decorrelation_only_adds_to_the_registry() {
    let mut m = metadata();
    let before = metadata();
    let plan = eval(
        vec![ScalarItem {
            scalar: ScalarExpr::SubqueryExpr(subquery(
                SubqueryType::Exists,
                max_subquery_plan(),
                vec![0],
            )),
            index: 4,
        }],
        scan(0, vec![0]),
    );
    let result = decorrelate_subquery(&mut m, &plan).unwrap();
    assert!(!plan_contains_subquery(&result));
    assert_eq!(m.tables, before.tables);
    assert!(m.columns.len() > before.columns.len());
    assert_eq!(m.columns[..before.columns.len()], before.columns[..]);
}

#[test]
fn flattened_plan_has_no_correlated_outer_column() {
    let mut rewriter = SubqueryRewriter::new(metadata());
    let greater =
        compare(ComparisonOp::GT, column("t2", "x", 1, int32()), column("t1", "x", 0, int32()));
    let inner = eval(
        vec![ScalarItem { scalar: column("t1", "x", 0, int32()), index: 3 }],
        filter(vec![greater], scan(1, vec![1, 2])),
    );
    // Before: column 0 is an outer column of the plan.
    let before = query_core::property::derive_relational_prop(&inner).unwrap();
    assert!(before.outer_columns.contains(0));
    let mut info = FlattenInfo { from_count_func: false };
    let correlated = ColumnSet::from_slice(&vec![0]);
    let result = rewriter.flatten(&inner, &correlated, &mut info, false).unwrap();
    // After: it is not, and nothing else is.
    let after = query_core::property::derive_relational_prop(&result).unwrap();
    assert!(!after.outer_columns.contains(0));
    assert!(after.outer_columns.is_empty());
    assert!(!plan_contains_subquery(&result));
}

fn cast(argument: ScalarExpr, target_type: DataType) -> ScalarExpr {
    ScalarExpr::CastExpr { span: None, is_try: false, argument: Box::new(argument), target_type }
}

#[test]
fn keys_of_flattened_subquery_are_cast_to_common_type() {
    // t1.x (#0) is Int32; it is mapped directly to an Int64 column (#4).
    let mut m = metadata();
    assert_eq!(m.add_base_table_column("wide".to_string(), int64(), 1), 4);
    let mut rewriter = SubqueryRewriter::new(m);
    rewriter.derived_columns.insert(0, 4);
    let mut left = vec![];
    let mut right = vec![];
    rewriter
        .add_equi_conditions(None, &ColumnSet::from_slice(&vec![0]), &mut left, &mut right)
        .unwrap();
    // Each key carries the type of its own column, under a cast to Int64.
    assert_eq!(left, vec![cast(derived_ref("subquery_4", 4, int64()), int64())]);
    assert_eq!(right, vec![cast(derived_ref("subquery_0", 0, int32()), int64())]);
}

#[test]
fn keys_of_equal_types_are_bare_references() {
    let mut rewriter = SubqueryRewriter::new(metadata());
    rewriter.derived_columns.insert(0, 1);
    let mut left = vec![];
    let mut right = vec![];
    rewriter
        .add_equi_conditions(None, &ColumnSet::from_slice(&vec![0]), &mut left, &mut right)
        .unwrap();
    assert_eq!(left, vec![derived_ref("subquery_1", 1, int32())]);
    assert_eq!(right, vec![derived_ref("subquery_0", 0, int32())]);
}

#[test]
fn keys_without_common_type_are_an_error() {
    let mut m = metadata();
    assert_eq!(m.add_base_table_column("name".to_string(), DataType::String, 1), 4);
    let mut rewriter = SubqueryRewriter::new(m);
    rewriter.derived_columns.insert(0, 4);
    let mut left = vec![];
    let mut right = vec![];
    let err = rewriter
        .add_equi_conditions(None, &ColumnSet::from_slice(&vec![0]), &mut left, &mut right)
        .unwrap_err();
    assert_eq!(err.code(), INTERNAL);
    assert_eq!(err.message(), "Cannot find common type");
}

#[test]
fn key_of_fresh_derived_column_is_cast_to_nullable() {
    // A cross join derives a nullable column for t1.x: the keys differ in
    // type and are both cast to the nullable type.
    let mut rewriter = SubqueryRewriter::new(metadata());
    let greater =
        compare(ComparisonOp::GT, column("t2", "x", 1, int32()), column("t1", "x", 0, int32()));
    let inner = filter(vec![greater], scan(1, vec![1, 2]));
    let q = subquery(SubqueryType::Scalar, inner, vec![0]);
    let mut info = FlattenInfo { from_count_func: false };
    let (plan, result) =
        rewriter.try_decorrelate_subquery(&scan(0, vec![0]), &q, &mut info, false).unwrap();
    assert_eq!(result, UnnestResult::SingleJoin);
    let nullable = DataType::Nullable(Box::new(int32()));
    match &plan.plan {
        RelOperator::Join(j) => {
            assert_eq!(j.join_type, JoinType::Single);
            assert_eq!(
                j.left_conditions,
                vec![cast(derived_ref("subquery_0", 0, int32()), nullable.clone())]
            );
            assert_eq!(
                j.right_conditions,
                vec![cast(derived_ref("subquery_4", 4, nullable.clone()), nullable.clone())]
            );
        }
        other => panic!("not a join: {:?}", other),
    }
}

#[test]
fn failures_of_flattening_name_their_cause() {
    let rewriter = SubqueryRewriter::new(metadata());
    let correlated = ColumnSet::from_slice(&vec![0]);
    // A correlated column without a derived column comes first.
    let both = compare(
        ComparisonOp::Equal,
        column("t1", "x", 0, int32()),
        ScalarExpr::SubqueryExpr(subquery(SubqueryType::Scalar, scan(1, vec![1]), vec![])),
    );
    let err = rewriter.flatten_scalar(&both, &correlated).unwrap_err();
    assert_eq!(err.code(), INTERNAL);
    assert_eq!(err.message(), "Correlated column has no derived column");
    // A subquery at a position that is reached.
    let reached = compare(
        ComparisonOp::Equal,
        column("t2", "x", 1, int32()),
        ScalarExpr::SubqueryExpr(subquery(SubqueryType::Scalar, scan(1, vec![1]), vec![])),
    );
    let err = rewriter.flatten_scalar(&reached, &correlated).unwrap_err();
    assert_eq!(err.code(), INTERNAL);
    assert_eq!(err.message(), "Invalid scalar for flattening subquery");
}

#[test]
fn failures_of_the_rewrite_name_their_cause() {
    // A subquery in a join condition: the join cannot hold one.
    let mut m = metadata();
    let q = ScalarExpr::SubqueryExpr(subquery(SubqueryType::Scalar, scan(1, vec![1]), vec![]));
    let plan = join(JoinType::Inner, vec![], vec![], vec![q], None, scan(0, vec![0]), scan(1, vec![1]));
    let err = decorrelate_subquery(&mut m, &plan).unwrap_err();
    assert_eq!(err.message(), "Subquery in an operator that cannot hold one");

    // A subquery over a window: the window cannot be flattened.
    let window = SExpr::create_unary(
        RelOperator::Window(Window {
            index: 7,
            function: WindowFunc {
                agg_func: AggregateFunction {
                    display_name: "sum(x)".to_string(),
                    func_name: "sum".to_string(),
                    distinct: false,
                    params: vec![],
                    args: vec![column("t1", "x", 0, int32())],
                    return_type: int64(),
                },
                partition_by: vec![],
            },
        }),
        scan(1, vec![1, 2]),
    );
    let plan = eval(
        vec![ScalarItem {
            scalar: ScalarExpr::SubqueryExpr(subquery(SubqueryType::Scalar, window, vec![0])),
            index: 4,
        }],
        scan(0, vec![0]),
    );
    let mut m = metadata();
    let err = decorrelate_subquery(&mut m, &plan).unwrap_err();
    assert_eq!(err.code(), INTERNAL);
    assert_eq!(err.message(), "Invalid plan type for flattening subquery");
}
