use query_core::columns::ColumnSet;
use query_core::error::INTERNAL;
use query_core::ir::JoinType;
use query_core::metadata::Metadata;
use query_core::physical_format::{
    aggregate_expand_to_format_tree, aggregate_final_to_format_tree,
    aggregate_partial_to_format_tree, distributed_insert_to_format_tree,
    eval_scalar_to_format_tree, exchange_node_to_format_tree, exchange_sink_to_format_tree,
    exchange_source_to_format_tree, exchange_to_format_tree, filter_to_format_tree,
    hash_join_to_format_tree, limit_node_to_format_tree, part_stats_info_to_format_tree,
    plan_stats_info_to_format_tree, pretty_display_agg_desc, project_to_format_tree,
    runtime_filter_source_to_format_tree, sort_to_format_tree, table_scan_to_format_tree,
    union_all_to_format_tree, unnest_to_format_tree, AggregateFunctionDesc, FragmentKind,
    PartStatistics, SortKey, TextTreeNode,
};
use query_core::types::DataType;

fn metadata() -> Metadata {
    let mut m = Metadata::new();
    let t = m.add_table("default".to_string(), "db".to_string(), "t".to_string());
    m.add_base_table_column("a".to_string(), DataType::Boolean, t);
    m.add_derived_column("total".to_string(), DataType::Boolean);
    m.add_internal_column("_row_id".to_string(), DataType::String, t);
    m
}

fn leaf(name: &str) -> TextTreeNode {
    TextTreeNode::new(name.to_string())
}

fn node(name: &str, children: Vec<TextTreeNode>) -> TextTreeNode {
    TextTreeNode { payload: name.to_string(), children }
}

fn strings(v: Vec<&str>) -> Vec<String> {
    v.into_iter().map(|s| s.to_string()).collect()
}

fn stats(segments_before: usize) -> PartStatistics {
    PartStatistics {
        read_rows: 10,
        read_bytes: 2048,
        partitions_total: 4,
        partitions_scanned: 2,
        segments_range_pruning_before: segments_before,
        segments_range_pruning_after: 3,
        blocks_range_pruning_before: 30,
        blocks_range_pruning_after: 20,
        blocks_bloom_pruning_before: 20,
        blocks_bloom_pruning_after: 7,
    }
}

fn count_total() -> AggregateFunctionDesc {
    AggregateFunctionDesc { name: "count".to_string(), arg_indices: vec![1, 0] }
}

#[test]
fn aggregate_descriptions_name_their_arguments() {
    let m = metadata();
    assert_eq!(pretty_display_agg_desc(&count_total(), &m).unwrap(), "count(total, a)");
    let none = AggregateFunctionDesc { name: "count".to_string(), arg_indices: vec![] };
    assert_eq!(pretty_display_agg_desc(&none, &m).unwrap(), "count()");
    let internal = AggregateFunctionDesc { name: "max".to_string(), arg_indices: vec![2] };
    assert_eq!(pretty_display_agg_desc(&internal, &m).unwrap(), "max(_row_id)");
    let unknown = AggregateFunctionDesc { name: "max".to_string(), arg_indices: vec![0, 9] };
    assert_eq!(pretty_display_agg_desc(&unknown, &m).unwrap_err().code(), INTERNAL);
}

#[test]
fn part_statistics_show_pruning_only_where_segments_were_pruned() {
    assert_eq!(
        part_stats_info_to_format_tree(&stats(0)),
        strings(vec![
            "read rows: 10",
            "read bytes: 2048",
            "partitions total: 4",
            "partitions scanned: 2",
        ])
    );
    assert_eq!(
        part_stats_info_to_format_tree(&stats(5))[4],
        "pruning stats: [segments: <range pruning: 5 to 3>, blocks: <range pruning: 30 to 20, bloom pruning: 20 to 7>]"
    );
    assert_eq!(plan_stats_info_to_format_tree("12.00"), "estimated rows: 12.00");
}

#[test]
fn table_scan_node() {
    assert_eq!(
        table_scan_to_format_tree(&None, &stats(0), &"".to_string(), None, &vec![], 0, &None),
        leaf("DummyTableScan")
    );
    let scan = table_scan_to_format_tree(
        &Some("default.db.t".to_string()),
        &stats(0),
        &"a > 1".to_string(),
        Some(5),
        &strings(vec!["a", "b"]),
        3,
        &Some("4.00".to_string()),
    );
    assert_eq!(
        scan,
        node(
            "TableScan",
            vec![
                leaf("table: default.db.t"),
                leaf("read rows: 10"),
                leaf("read bytes: 2048"),
                leaf("partitions total: 4"),
                leaf("partitions scanned: 2"),
                leaf("push downs: [filters: [a > 1], limit: 5]"),
                leaf("output columns: [a, b]"),
                leaf("estimated rows: 4.00"),
            ]
        )
    );
    // All columns of the source: the output columns are not shown.
    let full = table_scan_to_format_tree(
        &Some("default.db.t".to_string()),
        &stats(0),
        &"".to_string(),
        None,
        &strings(vec!["a", "b"]),
        2,
        &None,
    );
    assert_eq!(full.children.len(), 6);
    assert_eq!(full.children[5], leaf("push downs: [filters: [], limit: NONE]"));
}

#[test]
fn unary_nodes() {
    let m = metadata();
    let est = Some("1.00".to_string());
    assert_eq!(
        filter_to_format_tree(&strings(vec!["a", "b"]), &est, Some(2_500_000), leaf("in")),
        node(
            "Filter",
            vec![
                leaf("filters: [a, b]"),
                leaf("estimated rows: 1.00"),
                leaf("total process time: 2ms"),
                leaf("in"),
            ]
        )
    );
    assert_eq!(
        eval_scalar_to_format_tree(&strings(vec!["a + 1"]), &None, None, leaf("in")),
        node("EvalScalar", vec![leaf("expressions: [a + 1]"), leaf("in")])
    );
    assert_eq!(
        project_to_format_tree(&ColumnSet::from_slice(&vec![2, 0]), &m, &None, None, leaf("in"))
            .unwrap(),
        node("Project", vec![leaf("columns: [a (#0), _row_id (#2)]"), leaf("in")])
    );
    assert_eq!(
        project_to_format_tree(&ColumnSet::from_slice(&vec![7]), &m, &None, None, leaf("in"))
            .unwrap_err()
            .code(),
        INTERNAL
    );
    assert_eq!(
        limit_node_to_format_tree(None, 3, &None, Some(999_999), leaf("in")),
        node(
            "Limit",
            vec![
                leaf("limit: NONE"),
                leaf("offset: 3"),
                leaf("total process time: 0ms"),
                leaf("in"),
            ]
        )
    );
    assert_eq!(
        limit_node_to_format_tree(Some(10), 0, &None, None, leaf("in")).children[0],
        leaf("limit: 10")
    );
    let keys = vec![
        SortKey { order_by: 1, asc: true, nulls_first: false },
        SortKey { order_by: 0, asc: false, nulls_first: true },
    ];
    assert_eq!(
        sort_to_format_tree(&m, &keys, &None, None, leaf("in")).unwrap(),
        node(
            "Sort",
            vec![leaf("sort keys: [total ASC NULLS LAST, a DESC NULLS FIRST]"), leaf("in")]
        )
    );
    let unknown = vec![SortKey { order_by: 5, asc: true, nulls_first: false }];
    assert!(sort_to_format_tree(&m, &unknown, &None, None, leaf("in")).is_err());
}

#[test]
fn aggregation_nodes() {
    let m = metadata();
    assert_eq!(
        aggregate_partial_to_format_tree(&m, &vec![0], &vec![count_total()], &None, None, leaf("in"))
            .unwrap(),
        node(
            "AggregatePartial",
            vec![
                leaf("group by: [a]"),
                leaf("aggregate functions: [count(total, a)]"),
                leaf("in"),
            ]
        )
    );
    assert_eq!(
        aggregate_final_to_format_tree(
            &m,
            &vec![0, 1],
            &vec![],
            Some(3),
            &Some("9.00".to_string()),
            None,
            leaf("in")
        )
        .unwrap(),
        node(
            "AggregateFinal",
            vec![
                leaf("group by: [a, total]"),
                leaf("aggregate functions: []"),
                leaf("limit: 3"),
                leaf("estimated rows: 9.00"),
                leaf("in"),
            ]
        )
    );
    assert!(aggregate_final_to_format_tree(&m, &vec![8], &vec![], None, &None, None, leaf("i"))
        .is_err());
    assert_eq!(
        aggregate_expand_to_format_tree(&m, &vec![vec![0, 1], vec![], vec![1]], &None, None, leaf("in"))
            .unwrap(),
        node(
            "AggregateExpand",
            vec![leaf("grouping sets: [(a, total), (), (total)]"), leaf("in")]
        )
    );
}

#[test]
fn hash_join_marks_its_sides() {
    let join = hash_join_to_format_tree(
        JoinType::LeftSemi,
        &strings(vec!["b.x"]),
        &strings(vec!["a.x", "a.y"]),
        &vec![],
        &None,
        Some(1_000_000),
        node("TableScan", vec![leaf("table: b")]),
        leaf("Filter"),
    );
    assert_eq!(
        join,
        node(
            "HashJoin",
            vec![
                leaf("join type: LEFT SEMI"),
                leaf("build keys: [b.x]"),
                leaf("probe keys: [a.x, a.y]"),
                leaf("filters: []"),
                leaf("total process time: 1ms"),
                node("TableScan(Build)", vec![leaf("table: b")]),
                leaf("Filter(Probe)"),
            ]
        )
    );
}

#[test]
fn exchange_nodes() {
    let keys = strings(vec!["a", "b"]);
    assert_eq!(exchange_to_format_tree(FragmentKind::Init, &keys), "exchange type: Init-Partition");
    assert_eq!(exchange_to_format_tree(FragmentKind::Normal, &keys), "exchange type: Hash(a, b)");
    assert_eq!(exchange_to_format_tree(FragmentKind::Expansive, &keys), "exchange type: Broadcast");
    assert_eq!(exchange_to_format_tree(FragmentKind::Merge, &keys), "exchange type: Merge");
    assert_eq!(
        exchange_node_to_format_tree(FragmentKind::Merge, &vec![], leaf("in")),
        node("Exchange", vec![leaf("exchange type: Merge"), leaf("in")])
    );
    assert_eq!(
        exchange_source_to_format_tree(3),
        node("ExchangeSource", vec![leaf("source fragment: [3]")])
    );
    assert_eq!(
        exchange_sink_to_format_tree(4, leaf("in")),
        node("ExchangeSink", vec![leaf("destination fragment: [4]"), leaf("in")])
    );
}

#[test]
fn nodes_without_lines() {
    assert_eq!(
        union_all_to_format_tree(&Some("2.00".to_string()), None, leaf("l"), leaf("r")),
        node("UnionAll", vec![leaf("estimated rows: 2.00"), leaf("l"), leaf("r")])
    );
    assert_eq!(
        distributed_insert_to_format_tree(leaf("in")),
        node("DistributedInsertSelect", vec![leaf("in")])
    );
    assert_eq!(unnest_to_format_tree(leaf("in")), node("Unnest", vec![leaf("in")]));
    assert_eq!(
        runtime_filter_source_to_format_tree(leaf("l"), leaf("r")),
        node("RuntimeFilterSource", vec![leaf("l"), leaf("r")])
    );
}

fn no_profile() -> query_core::physical_plan::Profile {
    query_core::physical_plan::Profile { stat_info: None, process_time: None }
}

#[test]
fn physical_plan_formats_from_the_root_down() {
    let m = metadata();
    let source = query_core::physical_plan::PhysicalPlan::ExchangeSource { source_fragment_id: 4 };
    let dummy = query_core::physical_plan::PhysicalPlan::TableScan {
        table: None,
        statistics: stats(0),
        filters: String::new(),
        limit: None,
        output_columns: vec![],
        source_columns: 0,
        stat_info: None,
    };
    let plan = query_core::physical_plan::PhysicalPlan::Limit {
        limit: Some(5),
        offset: 0,
        profile: query_core::physical_plan::Profile {
            stat_info: Some("5.00".to_string()),
            process_time: None,
        },
        input: Box::new(query_core::physical_plan::PhysicalPlan::HashJoin {
            join_type: JoinType::Inner,
            build_keys: strings(vec!["b.x"]),
            probe_keys: strings(vec!["a.x"]),
            non_equi_conditions: vec![],
            profile: no_profile(),
            build: Box::new(source),
            probe: Box::new(query_core::physical_plan::PhysicalPlan::Project {
                columns: ColumnSet::from_slice(&vec![1, 0]),
                profile: no_profile(),
                input: Box::new(dummy),
            }),
        }),
    };
    let tree = plan.format(&m).unwrap();
    assert_eq!(
        tree,
        node(
            "Limit",
            vec![
                leaf("limit: 5"),
                leaf("offset: 0"),
                leaf("estimated rows: 5.00"),
                node(
                    "HashJoin",
                    vec![
                        leaf("join type: INNER"),
                        leaf("build keys: [b.x]"),
                        leaf("probe keys: [a.x]"),
                        leaf("filters: []"),
                        node("ExchangeSource(Build)", vec![leaf("source fragment: [4]")]),
                        node(
                            "Project(Probe)",
                            vec![leaf("columns: [a (#0), total (#1)]"), leaf("DummyTableScan")]
                        ),
                    ]
                ),
            ]
        )
    );
    assert_eq!(query_core::physical_plan::to_format_tree(&plan, &m).unwrap(), tree);
}

#[test]
fn physical_plan_with_unknown_column_is_an_error() {
    let m = metadata();
    let plan = query_core::physical_plan::PhysicalPlan::Unnest {
        input: Box::new(query_core::physical_plan::PhysicalPlan::Sort {
            order_by: vec![SortKey { order_by: 9, asc: true, nulls_first: false }],
            profile: no_profile(),
            input: Box::new(query_core::physical_plan::PhysicalPlan::ExchangeSource {
                source_fragment_id: 1,
            }),
        }),
    };
    assert_eq!(plan.format(&m).unwrap_err().code(), INTERNAL);
}
