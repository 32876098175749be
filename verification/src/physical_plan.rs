//! The physical plan as far as `EXPLAIN` shows it, and its format tree.
//!
//! A node of the plan holds what its lines show: the texts of its
//! expressions, the columns it names, what is known of its cost. The format
//! tree of a plan is the node of its root over the format trees of its
//! inputs.

use crate::columns::{ColumnSet, ordered};
use crate::error::{ErrorCode, INTERNAL};
use crate::ir::{JoinType, opt_text};
use crate::metadata::{Metadata, MetadataView};
use crate::physical_format::{AggregateFunctionDesc, FragmentKind, PartStatistics, SortKey, TextTree, TextTreeNode, agg_descs_known, aggregate_expand_to_format_tree, aggregate_final_to_format_tree, aggregate_own_lines, aggregate_partial_to_format_tree, columns_known, common_lines, counted, distributed_insert_to_format_tree, eval_scalar_to_format_tree, exchange_kind_text, exchange_node_to_format_tree, exchange_sink_to_format_tree, exchange_source_to_format_tree, filter_to_format_tree, grouping_set_texts, grouping_sets_known, hash_join_to_format_tree, hash_join_tree, limit_node_to_format_tree, physical_limit_lines, physical_sort_key_texts, physical_sort_keys_known, project_to_format_tree, projected_texts, runtime_filter_source_to_format_tree, sort_to_format_tree, table_scan_to_format_tree, table_scan_tree, text_leaves, unary_tree, union_all_to_format_tree, unknown_column_message, unknown_sort_key_message, unnest_to_format_tree};
use crate::text::{decimal, joined, texts};
use vstd::prelude::*;

verus! {

/// What is known of the cost of a node: the estimate of its rows, and the
/// time it took, in nanoseconds, where the plan has run.
#[derive(Debug, PartialEq, Eq)]
pub struct Profile {
    pub stat_info: Option<String>,
    pub process_time: Option<u64>,
}

/// A node of a physical plan.
#[derive(Debug, PartialEq, Eq)]
pub enum PhysicalPlan {
    /// A scan of the table with this full name, or of the dummy table.
    TableScan {
        table: Option<String>,
        statistics: PartStatistics,
        filters: String,
        limit: Option<usize>,
        output_columns: Vec<String>,
        source_columns: usize,
        stat_info: Option<String>,
    },
    Filter { predicates: Vec<String>, profile: Profile, input: Box<PhysicalPlan> },
    Project { columns: ColumnSet, profile: Profile, input: Box<PhysicalPlan> },
    EvalScalar { exprs: Vec<String>, profile: Profile, input: Box<PhysicalPlan> },
    AggregateExpand { grouping_sets: Vec<Vec<usize>>, profile: Profile, input: Box<PhysicalPlan> },
    AggregatePartial {
        group_by: Vec<usize>,
        agg_funcs: Vec<AggregateFunctionDesc>,
        profile: Profile,
        input: Box<PhysicalPlan>,
    },
    AggregateFinal {
        group_by: Vec<usize>,
        agg_funcs: Vec<AggregateFunctionDesc>,
        limit: Option<usize>,
        profile: Profile,
        input: Box<PhysicalPlan>,
    },
    Sort { order_by: Vec<SortKey>, profile: Profile, input: Box<PhysicalPlan> },
    Limit { limit: Option<usize>, offset: usize, profile: Profile, input: Box<PhysicalPlan> },
    HashJoin {
        join_type: JoinType,
        build_keys: Vec<String>,
        probe_keys: Vec<String>,
        non_equi_conditions: Vec<String>,
        profile: Profile,
        build: Box<PhysicalPlan>,
        probe: Box<PhysicalPlan>,
    },
    Exchange { kind: FragmentKind, keys: Vec<String>, input: Box<PhysicalPlan> },
    UnionAll { profile: Profile, left: Box<PhysicalPlan>, right: Box<PhysicalPlan> },
    ExchangeSource { source_fragment_id: usize },
    ExchangeSink { destination_fragment_id: usize, input: Box<PhysicalPlan> },
    DistributedInsertSelect { input: Box<PhysicalPlan> },
    Unnest { input: Box<PhysicalPlan> },
    RuntimeFilterSource { left_side: Box<PhysicalPlan>, right_side: Box<PhysicalPlan> },
}

/// `tree` where `known` holds and the input has a tree; `None` else.
pub open spec fn where_known(known: bool, input: Option<TextTree>, tree: TextTree) -> Option<
    TextTree,
> {
    if known && input is Some {
        Some(tree)
    } else {
        None
    }
}

/// The format tree of a physical plan; `None` where the registry lacks a
/// column that a node of the plan names.
pub open spec fn physical_tree(plan: PhysicalPlan, metadata: MetadataView) -> Option<TextTree>
    decreases plan,
{
    match plan {
        PhysicalPlan::TableScan {
            table,
            statistics,
            filters,
            limit,
            output_columns,
            source_columns,
            stat_info,
        } => Some(
            table_scan_tree(
                opt_text(table),
                statistics,
                filters@,
                limit,
                texts(output_columns@),
                source_columns,
                opt_text(stat_info),
            ),
        ),
        PhysicalPlan::Filter { predicates, profile, input } => {
            let below = physical_tree(*input, metadata);
            where_known(
                true,
                below,
                unary_tree(
                    "Filter"@,
                    seq!["filters: ["@ + joined(texts(predicates@), ", "@) + "]"@],
                    opt_text(profile.stat_info),
                    profile.process_time,
                    below->Some_0,
                ),
            )
        },
        PhysicalPlan::Project { columns, profile, input } => {
            let below = physical_tree(*input, metadata);
            where_known(
                columns_known(metadata, ordered(columns@)),
                below,
                unary_tree(
                    "Project"@,
                    seq!["columns: ["@ + joined(projected_texts(metadata, columns@), ", "@) + "]"@],
                    opt_text(profile.stat_info),
                    profile.process_time,
                    below->Some_0,
                ),
            )
        },
        PhysicalPlan::EvalScalar { exprs, profile, input } => {
            let below = physical_tree(*input, metadata);
            where_known(
                true,
                below,
                unary_tree(
                    "EvalScalar"@,
                    seq!["expressions: ["@ + joined(texts(exprs@), ", "@) + "]"@],
                    opt_text(profile.stat_info),
                    profile.process_time,
                    below->Some_0,
                ),
            )
        },
        PhysicalPlan::AggregateExpand { grouping_sets, profile, input } => {
            let below = physical_tree(*input, metadata);
            where_known(
                grouping_sets_known(metadata, grouping_sets@),
                below,
                unary_tree(
                    "AggregateExpand"@,
                    seq![
                        "grouping sets: ["@ + joined(
                            grouping_set_texts(metadata, grouping_sets@),
                            ", "@,
                        ) + "]"@,
                    ],
                    opt_text(profile.stat_info),
                    profile.process_time,
                    below->Some_0,
                ),
            )
        },
        PhysicalPlan::AggregatePartial { group_by, agg_funcs, profile, input } => {
            let below = physical_tree(*input, metadata);
            where_known(
                columns_known(metadata, group_by@) && agg_descs_known(metadata, agg_funcs@),
                below,
                unary_tree(
                    "AggregatePartial"@,
                    aggregate_own_lines(metadata, group_by@, agg_funcs@),
                    opt_text(profile.stat_info),
                    profile.process_time,
                    below->Some_0,
                ),
            )
        },
        PhysicalPlan::AggregateFinal { group_by, agg_funcs, limit, profile, input } => {
            let below = physical_tree(*input, metadata);
            where_known(
                columns_known(metadata, group_by@) && agg_descs_known(metadata, agg_funcs@),
                below,
                unary_tree(
                    "AggregateFinal"@,
                    aggregate_own_lines(metadata, group_by@, agg_funcs@) + (match limit {
                        Some(n) => seq![counted("limit: "@, n)],
                        None => Seq::empty(),
                    }),
                    opt_text(profile.stat_info),
                    profile.process_time,
                    below->Some_0,
                ),
            )
        },
        PhysicalPlan::Sort { order_by, profile, input } => {
            let below = physical_tree(*input, metadata);
            where_known(
                physical_sort_keys_known(metadata, order_by@),
                below,
                unary_tree(
                    "Sort"@,
                    seq![
                        "sort keys: ["@ + joined(physical_sort_key_texts(metadata, order_by@), ", "@)
                            + "]"@,
                    ],
                    opt_text(profile.stat_info),
                    profile.process_time,
                    below->Some_0,
                ),
            )
        },
        PhysicalPlan::Limit { limit, offset, profile, input } => {
            let below = physical_tree(*input, metadata);
            where_known(
                true,
                below,
                unary_tree(
                    "Limit"@,
                    physical_limit_lines(limit, offset),
                    opt_text(profile.stat_info),
                    profile.process_time,
                    below->Some_0,
                ),
            )
        },
        PhysicalPlan::HashJoin {
            join_type,
            build_keys,
            probe_keys,
            non_equi_conditions,
            profile,
            build,
            probe,
        } => {
            let build_side = physical_tree(*build, metadata);
            let probe_side = physical_tree(*probe, metadata);
            where_known(
                build_side is Some,
                probe_side,
                hash_join_tree(
                    join_type,
                    texts(build_keys@),
                    texts(probe_keys@),
                    texts(non_equi_conditions@),
                    opt_text(profile.stat_info),
                    profile.process_time,
                    build_side->Some_0,
                    probe_side->Some_0,
                ),
            )
        },
        PhysicalPlan::Exchange { kind, keys, input } => {
            let below = physical_tree(*input, metadata);
            where_known(
                true,
                below,
                unary_tree(
                    "Exchange"@,
                    seq!["exchange type: "@ + exchange_kind_text(kind, texts(keys@))],
                    None,
                    None,
                    below->Some_0,
                ),
            )
        },
        PhysicalPlan::UnionAll { profile, left, right } => {
            let left_side = physical_tree(*left, metadata);
            let right_side = physical_tree(*right, metadata);
            where_known(
                left_side is Some,
                right_side,
                TextTree {
                    payload: "UnionAll"@,
                    children: text_leaves(
                        common_lines(opt_text(profile.stat_info), profile.process_time),
                    ) + seq![left_side->Some_0, right_side->Some_0],
                },
            )
        },
        PhysicalPlan::ExchangeSource { source_fragment_id } => Some(
            TextTree {
                payload: "ExchangeSource"@,
                children: text_leaves(
                    seq!["source fragment: ["@ + decimal(source_fragment_id as nat) + "]"@],
                ),
            },
        ),
        PhysicalPlan::ExchangeSink { destination_fragment_id, input } => {
            let below = physical_tree(*input, metadata);
            where_known(
                true,
                below,
                unary_tree(
                    "ExchangeSink"@,
                    seq![
                        "destination fragment: ["@ + decimal(destination_fragment_id as nat) + "]"@,
                    ],
                    None,
                    None,
                    below->Some_0,
                ),
            )
        },
        PhysicalPlan::DistributedInsertSelect { input } => {
            let below = physical_tree(*input, metadata);
            where_known(
                true,
                below,
                TextTree { payload: "DistributedInsertSelect"@, children: seq![below->Some_0] },
            )
        },
        PhysicalPlan::Unnest { input } => {
            let below = physical_tree(*input, metadata);
            where_known(true, below, TextTree { payload: "Unnest"@, children: seq![below->Some_0] })
        },
        PhysicalPlan::RuntimeFilterSource { left_side, right_side } => {
            let left = physical_tree(*left_side, metadata);
            let right = physical_tree(*right_side, metadata);
            where_known(
                left is Some,
                right,
                TextTree {
                    payload: "RuntimeFilterSource"@,
                    children: seq![left->Some_0, right->Some_0],
                },
            )
        },
    }
}

/// The message of the error for what the node itself names and the
/// registry lacks, `None` where the registry has it all.
pub open spec fn node_failure(plan: PhysicalPlan, metadata: MetadataView) -> Option<Seq<char>> {
    match plan {
        PhysicalPlan::Project { columns, .. } => if columns_known(metadata, ordered(columns@)) {
            None
        } else {
            Some(unknown_column_message())
        },
        PhysicalPlan::AggregateExpand { grouping_sets, .. } => if grouping_sets_known(
            metadata,
            grouping_sets@,
        ) {
            None
        } else {
            Some(unknown_column_message())
        },
        PhysicalPlan::AggregatePartial { group_by, agg_funcs, .. } => if columns_known(
            metadata,
            group_by@,
        ) && agg_descs_known(metadata, agg_funcs@) {
            None
        } else {
            Some(unknown_column_message())
        },
        PhysicalPlan::AggregateFinal { group_by, agg_funcs, .. } => if columns_known(
            metadata,
            group_by@,
        ) && agg_descs_known(metadata, agg_funcs@) {
            None
        } else {
            Some(unknown_column_message())
        },
        PhysicalPlan::Sort { order_by, .. } => if physical_sort_keys_known(metadata, order_by@) {
            None
        } else {
            Some(unknown_sort_key_message())
        },
        _ => None,
    }
}

/// The message of the error with which building the format tree fails,
/// `None` where it does not fail: that of the first failure. The inputs of
/// a node come before the node, the first input first.
pub open spec fn physical_failure(plan: PhysicalPlan, metadata: MetadataView) -> Option<Seq<char>>
    decreases plan,
{
    let below = match plan {
        PhysicalPlan::Filter { input, .. } => physical_failure(*input, metadata),
        PhysicalPlan::Project { input, .. } => physical_failure(*input, metadata),
        PhysicalPlan::EvalScalar { input, .. } => physical_failure(*input, metadata),
        PhysicalPlan::AggregateExpand { input, .. } => physical_failure(*input, metadata),
        PhysicalPlan::AggregatePartial { input, .. } => physical_failure(*input, metadata),
        PhysicalPlan::AggregateFinal { input, .. } => physical_failure(*input, metadata),
        PhysicalPlan::Sort { input, .. } => physical_failure(*input, metadata),
        PhysicalPlan::Limit { input, .. } => physical_failure(*input, metadata),
        PhysicalPlan::Exchange { input, .. } => physical_failure(*input, metadata),
        PhysicalPlan::ExchangeSink { input, .. } => physical_failure(*input, metadata),
        PhysicalPlan::DistributedInsertSelect { input } => physical_failure(*input, metadata),
        PhysicalPlan::Unnest { input } => physical_failure(*input, metadata),
        PhysicalPlan::HashJoin { build, probe, .. } => match physical_failure(*build, metadata) {
            Some(m) => Some(m),
            None => physical_failure(*probe, metadata),
        },
        PhysicalPlan::UnionAll { left, right, .. } => match physical_failure(*left, metadata) {
            Some(m) => Some(m),
            None => physical_failure(*right, metadata),
        },
        PhysicalPlan::RuntimeFilterSource { left_side, right_side } => match physical_failure(
            *left_side,
            metadata,
        ) {
            Some(m) => Some(m),
            None => physical_failure(*right_side, metadata),
        },
        _ => None,
    };
    match below {
        Some(m) => Some(m),
        None => node_failure(plan, metadata),
    }
}

/// Building the format tree fails exactly where it meets a failure.
pub proof fn physical_failure_matches(plan: PhysicalPlan, metadata: MetadataView)
    ensures
        physical_failure(plan, metadata) is Some <==> physical_tree(plan, metadata) is None,
    decreases plan,
{
    match plan {
        PhysicalPlan::Filter { input, .. } => physical_failure_matches(*input, metadata),
        PhysicalPlan::Project { input, .. } => physical_failure_matches(*input, metadata),
        PhysicalPlan::EvalScalar { input, .. } => physical_failure_matches(*input, metadata),
        PhysicalPlan::AggregateExpand { input, .. } => physical_failure_matches(*input, metadata),
        PhysicalPlan::AggregatePartial { input, .. } => physical_failure_matches(*input, metadata),
        PhysicalPlan::AggregateFinal { input, .. } => physical_failure_matches(*input, metadata),
        PhysicalPlan::Sort { input, .. } => physical_failure_matches(*input, metadata),
        PhysicalPlan::Limit { input, .. } => physical_failure_matches(*input, metadata),
        PhysicalPlan::Exchange { input, .. } => physical_failure_matches(*input, metadata),
        PhysicalPlan::ExchangeSink { input, .. } => physical_failure_matches(*input, metadata),
        PhysicalPlan::DistributedInsertSelect { input } => physical_failure_matches(
            *input,
            metadata,
        ),
        PhysicalPlan::Unnest { input } => physical_failure_matches(*input, metadata),
        PhysicalPlan::HashJoin { build, probe, .. } => {
            physical_failure_matches(*build, metadata);
            physical_failure_matches(*probe, metadata);
        },
        PhysicalPlan::UnionAll { left, right, .. } => {
            physical_failure_matches(*left, metadata);
            physical_failure_matches(*right, metadata);
        },
        PhysicalPlan::RuntimeFilterSource { left_side, right_side } => {
            physical_failure_matches(*left_side, metadata);
            physical_failure_matches(*right_side, metadata);
        },
        _ => {},
    }
}

/// Builds the format tree of a physical plan; an internal error where the
/// registry lacks a column that a node of the plan names.
pub fn to_format_tree(plan: &PhysicalPlan, metadata: &Metadata) -> (r: Result<
    TextTreeNode,
    ErrorCode,
>)
    ensures
        match physical_tree(*plan, metadata@) {
            Some(t) => r is Ok && r->Ok_0@ == t,
            None => r is Err && r->Err_0.code == INTERNAL,
        },
        r is Err ==> Some(r->Err_0.message@) == physical_failure(*plan, metadata@),
        r is Ok ==> physical_failure(*plan, metadata@) is None,
    decreases plan,
{
    proof {
        physical_failure_matches(*plan, metadata@);
    }
    match plan {
        PhysicalPlan::TableScan {
            table,
            statistics,
            filters,
            limit,
            output_columns,
            source_columns,
            stat_info,
        } => Ok(
            table_scan_to_format_tree(
                table,
                statistics,
                filters,
                *limit,
                output_columns,
                *source_columns,
                stat_info,
            ),
        ),
        PhysicalPlan::Filter { predicates, profile, input } => {
            match to_format_tree(input, metadata) {
                Ok(below) => Ok(
                    filter_to_format_tree(
                        predicates,
                        &profile.stat_info,
                        profile.process_time,
                        below,
                    ),
                ),
                Err(e) => Err(e),
            }
        },
        PhysicalPlan::Project { columns, profile, input } => {
            match to_format_tree(input, metadata) {
                Ok(below) => project_to_format_tree(
                    columns,
                    metadata,
                    &profile.stat_info,
                    profile.process_time,
                    below,
                ),
                Err(e) => Err(e),
            }
        },
        PhysicalPlan::EvalScalar { exprs, profile, input } => {
            match to_format_tree(input, metadata) {
                Ok(below) => Ok(
                    eval_scalar_to_format_tree(
                        exprs,
                        &profile.stat_info,
                        profile.process_time,
                        below,
                    ),
                ),
                Err(e) => Err(e),
            }
        },
        PhysicalPlan::AggregateExpand { grouping_sets, profile, input } => {
            match to_format_tree(input, metadata) {
                Ok(below) => aggregate_expand_to_format_tree(
                    metadata,
                    grouping_sets,
                    &profile.stat_info,
                    profile.process_time,
                    below,
                ),
                Err(e) => Err(e),
            }
        },
        PhysicalPlan::AggregatePartial { group_by, agg_funcs, profile, input } => {
            match to_format_tree(input, metadata) {
                Ok(below) => aggregate_partial_to_format_tree(
                    metadata,
                    group_by,
                    agg_funcs,
                    &profile.stat_info,
                    profile.process_time,
                    below,
                ),
                Err(e) => Err(e),
            }
        },
        PhysicalPlan::AggregateFinal { group_by, agg_funcs, limit, profile, input } => {
            match to_format_tree(input, metadata) {
                Ok(below) => aggregate_final_to_format_tree(
                    metadata,
                    group_by,
                    agg_funcs,
                    *limit,
                    &profile.stat_info,
                    profile.process_time,
                    below,
                ),
                Err(e) => Err(e),
            }
        },
        PhysicalPlan::Sort { order_by, profile, input } => {
            match to_format_tree(input, metadata) {
                Ok(below) => sort_to_format_tree(
                    metadata,
                    order_by,
                    &profile.stat_info,
                    profile.process_time,
                    below,
                ),
                Err(e) => Err(e),
            }
        },
        PhysicalPlan::Limit { limit, offset, profile, input } => {
            match to_format_tree(input, metadata) {
                Ok(below) => Ok(
                    limit_node_to_format_tree(
                        *limit,
                        *offset,
                        &profile.stat_info,
                        profile.process_time,
                        below,
                    ),
                ),
                Err(e) => Err(e),
            }
        },
        PhysicalPlan::HashJoin {
            join_type,
            build_keys,
            probe_keys,
            non_equi_conditions,
            profile,
            build,
            probe,
        } => {
            let build_child = match to_format_tree(build, metadata) {
                Ok(t) => t,
                Err(e) => {
                    return Err(e);
                },
            };
            let probe_child = match to_format_tree(probe, metadata) {
                Ok(t) => t,
                Err(e) => {
                    return Err(e);
                },
            };
            Ok(
                hash_join_to_format_tree(
                    *join_type,
                    build_keys,
                    probe_keys,
                    non_equi_conditions,
                    &profile.stat_info,
                    profile.process_time,
                    build_child,
                    probe_child,
                ),
            )
        },
        PhysicalPlan::Exchange { kind, keys, input } => {
            match to_format_tree(input, metadata) {
                Ok(below) => Ok(exchange_node_to_format_tree(*kind, keys, below)),
                Err(e) => Err(e),
            }
        },
        PhysicalPlan::UnionAll { profile, left, right } => {
            let left_child = match to_format_tree(left, metadata) {
                Ok(t) => t,
                Err(e) => {
                    return Err(e);
                },
            };
            let right_child = match to_format_tree(right, metadata) {
                Ok(t) => t,
                Err(e) => {
                    return Err(e);
                },
            };
            Ok(
                union_all_to_format_tree(
                    &profile.stat_info,
                    profile.process_time,
                    left_child,
                    right_child,
                ),
            )
        },
        PhysicalPlan::ExchangeSource { source_fragment_id } => Ok(
            exchange_source_to_format_tree(*source_fragment_id),
        ),
        PhysicalPlan::ExchangeSink { destination_fragment_id, input } => {
            match to_format_tree(input, metadata) {
                Ok(below) => Ok(exchange_sink_to_format_tree(*destination_fragment_id, below)),
                Err(e) => Err(e),
            }
        },
        PhysicalPlan::DistributedInsertSelect { input } => {
            match to_format_tree(input, metadata) {
                Ok(below) => Ok(distributed_insert_to_format_tree(below)),
                Err(e) => Err(e),
            }
        },
        PhysicalPlan::Unnest { input } => {
            match to_format_tree(input, metadata) {
                Ok(below) => Ok(unnest_to_format_tree(below)),
                Err(e) => Err(e),
            }
        },
        PhysicalPlan::RuntimeFilterSource { left_side, right_side } => {
            let left_child = match to_format_tree(left_side, metadata) {
                Ok(t) => t,
                Err(e) => {
                    return Err(e);
                },
            };
            let right_child = match to_format_tree(right_side, metadata) {
                Ok(t) => t,
                Err(e) => {
                    return Err(e);
                },
            };
            Ok(runtime_filter_source_to_format_tree(left_child, right_child))
        },
    }
}

impl PhysicalPlan {
    /// The format tree of this plan.
    pub fn format(&self, metadata: &Metadata) -> (r: Result<TextTreeNode, ErrorCode>)
        ensures
            match physical_tree(*self, metadata@) {
                Some(t) => r is Ok && r->Ok_0@ == t,
                None => r is Err && r->Err_0.code == INTERNAL,
            },
            r is Err ==> Some(r->Err_0.message@) == physical_failure(*self, metadata@),
    {
        to_format_tree(self, metadata)
    }
}

} // verus!
