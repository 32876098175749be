use query_core::columns::ColumnSet;
use query_core::ir::{
    Aggregate, AggregateFunction, AggregateMode, ColumnBinding, EvalScalar, Filter, Limit,
    RelOperator, SExpr, ScalarExpr, ScalarItem, Scan, Visibility,
};
use query_core::metadata::Metadata;
use query_core::prune::UnusedColumnPruner;
use query_core::types::{DataType, NumberKind};

fn column(name: &str, index: usize) -> ScalarExpr {
    ScalarExpr::BoundColumnRef {
        span: None,
        column: ColumnBinding {
            database_name: None,
            table_name: Some("t".to_string()),
            column_name: name.to_string(),
            index,
            data_type: DataType::Number(NumberKind::Int32),
            visibility: Visibility::Visible,
        },
    }
}

fn scan(columns: Vec<usize>) -> SExpr {
    SExpr::create_leaf(RelOperator::Scan(Scan {
        table_index: 0,
        columns: ColumnSet::from_slice(&columns),
        push_down_predicates: None,
        limit: None,
        order_by: None,
        prewhere: None,
    }))
}

fn set(columns: Vec<usize>) -> ColumnSet {
    ColumnSet::from_slice(&columns)
}

#[test]
fn scan_keeps_only_required_columns() {
    let metadata = Metadata::new();
    let pruner = UnusedColumnPruner::new(&metadata);
    let pruned = pruner
        .remove_unused_columns(&scan(vec![0, 1, 2, 3]), set(vec![1, 3, 9]))
        .unwrap();
    assert_eq!(pruned, scan(vec![1, 3]));
}

#[test]
fn scan_without_columns_passes_through() {
    let metadata = Metadata::new();
    let pruner = UnusedColumnPruner::new(&metadata);
    let pruned = pruner.remove_unused_columns(&scan(vec![]), set(vec![1])).unwrap();
    assert_eq!(pruned, scan(vec![]));
}

#[test]
fn filter_columns_are_never_pruned() {
    let metadata = Metadata::new();
    let pruner = UnusedColumnPruner::new(&metadata);
    let plan = SExpr::create_unary(
        RelOperator::Filter(Filter { predicates: vec![column("b", 1)], is_having: false }),
        scan(vec![0, 1, 2]),
    );
    let pruned = pruner.remove_unused_columns(&plan, set(vec![0])).unwrap();
    let expected = SExpr::create_unary(
        RelOperator::Filter(Filter { predicates: vec![column("b", 1)], is_having: false }),
        scan(vec![0, 1]),
    );
    assert_eq!(pruned, expected);
}

#[test]
fn eval_scalar_without_used_items_is_eliminated() {
    let metadata = Metadata::new();
    let pruner = UnusedColumnPruner::new(&metadata);
    let plan = SExpr::create_unary(
        RelOperator::EvalScalar(EvalScalar {
            items: vec![ScalarItem { scalar: column("a", 0), index: 5 }],
        }),
        scan(vec![0, 1]),
    );
    let pruned = pruner.remove_unused_columns(&plan, set(vec![1])).unwrap();
    assert_eq!(pruned, scan(vec![1]));
}

#[test]
fn eval_scalar_keeps_used_items_and_their_operands() {
    let metadata = Metadata::new();
    let pruner = UnusedColumnPruner::new(&metadata);
    let plan = SExpr::create_unary(
        RelOperator::EvalScalar(EvalScalar {
            items: vec![
                ScalarItem { scalar: column("a", 0), index: 5 },
                ScalarItem { scalar: column("b", 1), index: 6 },
            ],
        }),
        scan(vec![0, 1, 2]),
    );
    let pruned = pruner.remove_unused_columns(&plan, set(vec![6])).unwrap();
    let expected = SExpr::create_unary(
        RelOperator::EvalScalar(EvalScalar {
            items: vec![ScalarItem { scalar: column("b", 1), index: 6 }],
        }),
        scan(vec![1]),
    );
    assert_eq!(pruned, expected);
}

fn count_of(index: usize) -> ScalarExpr {
    ScalarExpr::AggregateFunction(AggregateFunction {
        display_name: "count(b)".to_string(),
        func_name: "count".to_string(),
        distinct: false,
        params: vec![],
        args: vec![column("b", index)],
        return_type: DataType::Number(NumberKind::UInt64),
    })
}

#[test]
fn aggregate_keeps_group_items_without_referenced_functions() {
    let metadata = Metadata::new();
    let pruner = UnusedColumnPruner::new(&metadata);
    let aggregate = |functions: Vec<ScalarItem>| {
        RelOperator::Aggregate(Aggregate {
            mode: AggregateMode::Initial,
            group_items: vec![ScalarItem { scalar: column("a", 0), index: 0 }],
            aggregate_functions: functions,
            from_distinct: false,
            limit: None,
            grouping_id_index: 0,
            grouping_sets: vec![],
        })
    };
    let plan = SExpr::create_unary(
        aggregate(vec![ScalarItem { scalar: count_of(1), index: 7 }]),
        scan(vec![0, 1, 2]),
    );
    let pruned = pruner.remove_unused_columns(&plan, set(vec![])).unwrap();
    let expected = SExpr::create_unary(aggregate(vec![]), scan(vec![0]));
    assert_eq!(pruned, expected);
}

#[test]
fn limit_passes_required_columns_through() {
    let metadata = Metadata::new();
    let pruner = UnusedColumnPruner::new(&metadata);
    let limit = RelOperator::Limit(Limit { limit: Some(10), offset: 0 });
    let plan = SExpr::create_unary(limit.clone(), scan(vec![0, 1]));
    let pruned = pruner.remove_unused_columns(&plan, set(vec![1])).unwrap();
    assert_eq!(pruned, SExpr::create_unary(limit, scan(vec![1])));
}

#[test]
fn physical_operator_is_rejected() {
    let metadata = Metadata::new();
    let pruner = UnusedColumnPruner::new(&metadata);
    let plan = SExpr::create_unary(
        RelOperator::Exchange(query_core::ir::Exchange::Merge),
        scan(vec![0]),
    );
    let err = pruner.remove_unused_columns(&plan, set(vec![0])).unwrap_err();
    assert_eq!(err.code(), query_core::error::INTERNAL);
    assert_eq!(err.message(), "Attempting to prune columns of a physical plan is not allowed");
}

#[test]
fn first_failure_of_the_pass_is_reported() {
    let metadata = Metadata::new();
    let pruner = UnusedColumnPruner::new(&metadata);
    // A join whose first input is a physical operator and whose second
    // input is missing: the pass meets the operator first.
    let physical =
        SExpr::create_unary(RelOperator::Exchange(query_core::ir::Exchange::Merge), scan(vec![0]));
    let join = RelOperator::Join(query_core::ir::Join {
        left_conditions: vec![],
        right_conditions: vec![],
        non_equi_conditions: vec![],
        join_type: query_core::ir::JoinType::Inner,
        marker_index: None,
        from_correlated_subquery: false,
        contain_runtime_filter: false,
    });
    let plan = SExpr { plan: join.clone(), children: vec![physical], applied_rules: 0 };
    let err = pruner.remove_unused_columns(&plan, set(vec![0])).unwrap_err();
    assert_eq!(err.message(), "Attempting to prune columns of a physical plan is not allowed");
    // With a logical first input, the missing second input is what fails.
    let plan = SExpr { plan: join, children: vec![scan(vec![0])], applied_rules: 0 };
    let err = pruner.remove_unused_columns(&plan, set(vec![0])).unwrap_err();
    assert_eq!(err.code(), query_core::error::INTERNAL);
    assert_eq!(err.message(), "Invalid children index");
}

#[test]
fn applied_rules_of_the_root_are_kept() {
    let metadata = Metadata::new();
    let pruner = UnusedColumnPruner::new(&metadata);
    let mut plan = scan(vec![0, 1]);
    plan.applied_rules = 5;
    let pruned = pruner.remove_unused_columns(&plan, set(vec![0])).unwrap();
    assert_eq!(pruned.applied_rules, 5);
}
