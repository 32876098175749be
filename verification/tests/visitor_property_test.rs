use query_core::columns::ColumnSet;
use query_core::error::{ErrorCode, INTERNAL};
use query_core::ir::{
    Aggregate, AggregateFunction, AggregateMode, ColumnBinding, ComparisonOp, EvalScalar, Filter,
    Join, JoinType, Literal, Prewhere, RelOp, RelOperator, SExpr, ScalarExpr, ScalarItem,
    ScalarView, Scan, SubqueryExpr, SubqueryType, UnionAll, Visibility,
};
use query_core::join_predicate::{split_join_predicates, JoinPredicate};
use query_core::metadata::Metadata;
use query_core::property::{derive_relational_prop, derive_relational_prop_child};
use query_core::prune::UnusedColumnPruner;
use query_core::types::{DataType, NumberKind};
use query_core::visitor::{contains_aggregate, visit, Recursion, ScalarVisitor};

fn int32() -> DataType {
    DataType::Number(NumberKind::Int32)
}

fn column(index: usize) -> ScalarExpr {
    ScalarExpr::BoundColumnRef {
        span: None,
        column: ColumnBinding {
            database_name: None,
            table_name: None,
            column_name: format!("c{}", index),
            index,
            data_type: int32(),
            visibility: Visibility::Visible,
        },
    }
}

fn constant(n: u64) -> ScalarExpr {
    ScalarExpr::ConstantExpr { span: None, value: Literal::UInt64(n), data_type: int32() }
}

fn compare(op: ComparisonOp, left: ScalarExpr, right: ScalarExpr) -> ScalarExpr {
    ScalarExpr::ComparisonExpr { op, left: Box::new(left), right: Box::new(right) }
}

fn call(name: &str, arguments: Vec<ScalarExpr>) -> ScalarExpr {
    ScalarExpr::FunctionCall {
        span: None,
        func_name: name.to_string(),
        params: vec![],
        arguments,
        return_type: int32(),
    }
}

fn sum(arg: ScalarExpr) -> ScalarExpr {
    ScalarExpr::AggregateFunction(AggregateFunction {
        display_name: "sum".to_string(),
        func_name: "sum".to_string(),
        distinct: false,
        params: vec![],
        args: vec![arg],
        return_type: int32(),
    })
}

fn set(v: Vec<usize>) -> ColumnSet {
    ColumnSet::from_slice(&v)
}

fn scan(columns: Vec<usize>) -> SExpr {
    SExpr::create_leaf(RelOperator::Scan(Scan {
        table_index: 0,
        columns: set(columns),
        push_down_predicates: None,
        limit: None,
        order_by: None,
        prewhere: None,
    }))
}

/// Records the order of the visits.
struct Trace {
    events: Vec<String>,
    stop_at: Option<String>,
    fail_at: Option<String>,
}

fn label(scalar: &ScalarExpr) -> String {
    match scalar {
        ScalarExpr::BoundColumnRef { column, .. } => column.column_name.clone(),
        ScalarExpr::ConstantExpr { .. } => "const".to_string(),
        ScalarExpr::ComparisonExpr { .. } => "compare".to_string(),
        ScalarExpr::FunctionCall { func_name, .. } => func_name.clone(),
        ScalarExpr::AndExpr { .. } => "and".to_string(),
        ScalarExpr::NotExpr { .. } => "not".to_string(),
        _ => "other".to_string(),
    }
}

impl vstd::view::View for Trace {
    type V = ();

    fn view(&self) {}
}

impl ScalarVisitor for Trace {
    fn pre_model(_v: (), _scalar: ScalarView) -> Result<(bool, ()), query_core::visitor::VisitFailure> {
        unreachable!()
    }

    fn post_model(_v: (), _scalar: ScalarView) -> Result<(), query_core::visitor::VisitFailure> {
        unreachable!()
    }

    fn pre_visit(mut self, scalar: &ScalarExpr) -> Result<Recursion<Self>, ErrorCode> {
        let name = label(scalar);
        if self.fail_at.as_deref() == Some(name.as_str()) {
            return Err(ErrorCode::internal("stop"));
        }
        self.events.push(format!("pre {}", name));
        if self.stop_at.as_deref() == Some(name.as_str()) {
            Ok(Recursion::Stop(self))
        } else {
            Ok(Recursion::Continue(self))
        }
    }

    fn post_visit(mut self, scalar: &ScalarExpr) -> Result<Self, ErrorCode> {
        self.events.push(format!("post {}", label(scalar)));
        Ok(self)
    }
}

fn trace(stop_at: Option<&str>, fail_at: Option<&str>) -> Trace {
    Trace {
        events: vec![],
        stop_at: stop_at.map(|s| s.to_string()),
        fail_at: fail_at.map(|s| s.to_string()),
    }
}

fn tree() -> ScalarExpr {
    // f(c0, c1 > c2)
    call("f", vec![column(0), compare(ComparisonOp::GT, column(1), column(2))])
}

#[test]
fn walk_visits_children_last_first() {
    let t = visit(trace(None, None), &tree()).unwrap();
    assert_eq!(
        t.events,
        vec![
            "pre f", "pre compare", "pre c2", "post c2", "pre c1", "post c1", "post compare",
            "pre c0", "post c0", "post f",
        ]
    );
}

#[test]
fn stopped_node_is_still_visited_after() {
    let t = visit(trace(Some("compare"), None), &tree()).unwrap();
    assert_eq!(
        t.events,
        vec!["pre f", "pre compare", "post compare", "pre c0", "post c0", "post f"]
    );
}

#[test]
fn error_ends_the_walk() {
    let err = visit(trace(None, Some("c1")), &tree()).err().unwrap();
    assert_eq!(err.code(), INTERNAL);
}

#[test]
fn accept_visits_the_root_twice() {
    let leaf = column(0);
    let t = leaf.accept(trace(None, None)).unwrap();
    assert_eq!(t.events, vec!["pre c0", "pre c0", "post c0", "post c0"]);
    let t = leaf.accept(trace(Some("c0"), None)).unwrap();
    assert_eq!(t.events, vec!["pre c0"]);
    assert!(leaf.accept(trace(None, Some("c0"))).is_err());
}

#[test]
fn aggregates_are_found() {
    assert!(contains_aggregate(&sum(column(0))));
    assert!(contains_aggregate(&call("f", vec![constant(1), sum(column(0))])));
    assert!(!contains_aggregate(&tree()));
    assert!(!contains_aggregate(&column(0)));
    let deep = (0..2000).fold(sum(column(0)), |e, _| ScalarExpr::NotExpr { argument: Box::new(e) });
    assert!(contains_aggregate(&deep));
    std::mem::forget(deep);
}

#[test]
fn scalar_properties() {
    let e = call("f", vec![column(3), compare(ComparisonOp::Equal, column(1), column(3))]);
    assert_eq!(e.used_columns(), set(vec![1, 3]));
    assert_eq!(constant(1).used_columns(), set(vec![]));
    assert!(!e.has_subquery());
    let q = ScalarExpr::SubqueryExpr(SubqueryExpr {
        span: None,
        typ: SubqueryType::Any,
        subquery: Box::new(scan(vec![9])),
        child_expr: Some(Box::new(column(4))),
        compare_op: Some(ComparisonOp::Equal),
        output_column: ColumnBinding {
            database_name: None,
            table_name: None,
            column_name: "o".to_string(),
            index: 9,
            data_type: int32(),
            visibility: Visibility::Visible,
        },
        projection_index: None,
        data_type: DataType::Boolean,
        outer_columns: set(vec![7]),
    });
    assert_eq!(q.used_columns(), set(vec![4, 7]));
    assert!(q.has_subquery());
    assert!(call("g", vec![q.clone()]).has_subquery());
    assert_eq!(q.data_type(), DataType::Boolean);
    assert_eq!(e.data_type(), int32());
    assert_eq!(compare(ComparisonOp::LT, column(0), column(1)).data_type(), DataType::Boolean);
    let try_cast = ScalarExpr::CastExpr {
        span: None,
        is_try: true,
        argument: Box::new(column(0)),
        target_type: DataType::String,
    };
    assert_eq!(try_cast.data_type(), DataType::Nullable(Box::new(DataType::String)));
}

#[test]
fn relational_properties_of_a_plan() {
    // Aggregate(group c1 as #1, sum(c2) as #5) over Filter(c1 > c9) over Scan{1, 2}
    let plan = SExpr::create_unary(
        RelOperator::Aggregate(Aggregate {
            mode: AggregateMode::Initial,
            group_items: vec![ScalarItem { scalar: column(1), index: 1 }],
            aggregate_functions: vec![ScalarItem { scalar: sum(column(2)), index: 5 }],
            from_distinct: false,
            limit: None,
            grouping_id_index: 0,
            grouping_sets: vec![],
        }),
        SExpr::create_unary(
            RelOperator::Filter(Filter {
                predicates: vec![compare(ComparisonOp::GT, column(1), column(9))],
                is_having: false,
            }),
            scan(vec![1, 2]),
        ),
    );
    let prop = derive_relational_prop(&plan).unwrap();
    assert_eq!(prop.output_columns, set(vec![1, 5]));
    assert_eq!(prop.used_columns, set(vec![1, 2, 9]));
    // Column 9 is referred to and produced nowhere: it is an outer column.
    assert_eq!(prop.outer_columns, set(vec![9]));
    let child = derive_relational_prop_child(&plan, 0).unwrap();
    assert_eq!(child.output_columns, set(vec![1, 2]));
    assert_eq!(child.outer_columns, set(vec![9]));
    assert_eq!(derive_relational_prop_child(&plan, 1).unwrap_err().code(), INTERNAL);

    let join = SExpr::create_binary(
        RelOperator::Join(Join {
            left_conditions: vec![column(1)],
            right_conditions: vec![column(3)],
            non_equi_conditions: vec![],
            join_type: JoinType::RightMark,
            marker_index: Some(8),
            from_correlated_subquery: false,
            contain_runtime_filter: false,
        }),
        scan(vec![1]),
        SExpr::create_unary(
            RelOperator::EvalScalar(EvalScalar {
                items: vec![ScalarItem { scalar: column(3), index: 4 }],
            }),
            scan(vec![3]),
        ),
    );
    let prop = derive_relational_prop(&join).unwrap();
    assert_eq!(prop.output_columns, set(vec![1, 3, 4, 8]));
    assert_eq!(prop.outer_columns, set(vec![]));

    let union = SExpr::create_binary(
        RelOperator::UnionAll(UnionAll { pairs: vec![(1, 3)] }),
        scan(vec![1, 2]),
        scan(vec![3]),
    );
    assert_eq!(derive_relational_prop(&union).unwrap().output_columns, set(vec![1]));

    let pattern = SExpr::create_unary(
        RelOperator::Filter(Filter { predicates: vec![], is_having: false }),
        SExpr::create_leaf(RelOperator::Pattern(RelOp::Scan)),
    );
    assert_eq!(derive_relational_prop(&pattern).unwrap_err().code(), INTERNAL);
}

#[test]
fn predicates_are_sorted_by_the_sides_they_read() {
    let left = derive_relational_prop(&scan(vec![0, 1])).unwrap();
    let right = derive_relational_prop(&scan(vec![5, 6])).unwrap();
    let sides = |p: &ScalarExpr| match JoinPredicate::new(p, &left, &right) {
        JoinPredicate::Left(_) => "left".to_string(),
        JoinPredicate::Right(_) => "right".to_string(),
        JoinPredicate::Other(_) => "other".to_string(),
        JoinPredicate::Both { left, right } => {
            format!("both {:?} {:?}", left.used_columns().as_vec(), right.used_columns().as_vec())
        }
    };
    assert_eq!(sides(&compare(ComparisonOp::Equal, column(0), column(1))), "left");
    assert_eq!(sides(&compare(ComparisonOp::GT, column(5), constant(1))), "right");
    assert_eq!(sides(&constant(1)), "left");
    assert_eq!(sides(&compare(ComparisonOp::Equal, column(0), column(5))), "both [0] [5]");
    // The side of the left input comes first, however the equality is written.
    assert_eq!(sides(&compare(ComparisonOp::Equal, column(6), column(1))), "both [1] [6]");
    assert_eq!(sides(&compare(ComparisonOp::GT, column(0), column(5))), "other");
    assert_eq!(sides(&compare(ComparisonOp::Equal, column(0), column(9))), "other");
    assert_eq!(
        sides(&compare(ComparisonOp::Equal, call("f", vec![column(0), column(5)]), column(6))),
        "other"
    );

    let predicates = vec![
        compare(ComparisonOp::Equal, column(5), column(0)),
        compare(ComparisonOp::LT, column(1), column(6)),
        column(1),
        column(6),
    ];
    let split = split_join_predicates(&predicates, &left, &right).unwrap();
    assert_eq!(split.left_conditions, vec![column(0)]);
    assert_eq!(split.right_conditions, vec![column(5)]);
    assert_eq!(split.non_equi_conditions, vec![predicates[1].clone()]);
    assert_eq!(split.left_filters, vec![column(1)]);
    assert_eq!(split.right_filters, vec![column(6)]);
}

#[test]
fn pruning_never_drops_a_required_column_that_the_plan_can_deliver() {
    let metadata = Metadata::new();
    let pruner = UnusedColumnPruner::new(&metadata);
    let mut scanned = Scan {
        table_index: 0,
        columns: set(vec![1, 2, 3, 4]),
        push_down_predicates: None,
        limit: None,
        order_by: None,
        prewhere: None,
    };
    scanned.prewhere = Some(Prewhere {
        output_columns: set(vec![1, 2, 3, 4]),
        prewhere_columns: set(vec![4]),
        predicates: vec![column(4)],
    });
    let plan = SExpr::create_binary(
        RelOperator::Join(Join {
            left_conditions: vec![column(3)],
            right_conditions: vec![column(7)],
            non_equi_conditions: vec![],
            join_type: JoinType::Inner,
            marker_index: None,
            from_correlated_subquery: false,
            contain_runtime_filter: false,
        }),
        SExpr::create_leaf(RelOperator::Scan(scanned)),
        SExpr::create_binary(
            RelOperator::UnionAll(UnionAll { pairs: vec![(7, 9)] }),
            scan(vec![7, 8]),
            scan(vec![9, 10]),
        ),
    );
    for required in [vec![], vec![1], vec![2, 8], vec![1, 2, 3, 4, 7, 8, 9, 10, 77]] {
        let required = set(required);
        let before = derive_relational_prop(&plan).unwrap().output_columns;
        let pruned = pruner.remove_unused_columns(&plan, required.clone()).unwrap();
        let after = derive_relational_prop(&pruned).unwrap().output_columns;
        assert!(required.intersection(&before).is_subset(&after), "{:?}", required);
    }
    // The scan keeps what is required, the join key, and what its prewhere reads.
    let pruned = pruner.remove_unused_columns(&plan, set(vec![1])).unwrap();
    match &pruned.children[0].plan {
        RelOperator::Scan(s) => {
            assert_eq!(s.columns, set(vec![1, 3, 4]));
            assert_eq!(s.prewhere.as_ref().unwrap().output_columns, set(vec![1, 3]));
        }
        other => panic!("not a scan: {:?}", other),
    }
    // Each side of the union is asked for its own column of a pair.
    match (&pruned.children[1].children[0].plan, &pruned.children[1].children[1].plan) {
        (RelOperator::Scan(l), RelOperator::Scan(r)) => {
            assert_eq!(l.columns, set(vec![7]));
            assert_eq!(r.columns, set(vec![9]));
        }
        other => panic!("not scans: {:?}", other),
    }
}
