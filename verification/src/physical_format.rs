//! The format tree of a physical plan: the tree that `EXPLAIN` prints for
//! a plan that is ready to run.
//!
//! Each node shows the name of its operator. Below it come lines for the
//! attributes of the operator, an estimate of its rows where one was made,
//! the time it took where it was measured, and then the trees of its
//! inputs. Texts that only the function registry can make, and numbers that
//! only a profiler can measure, are handed in ready made.

use crate::columns::{ColumnSet, ordered};
use crate::error::{ErrorCode, INTERNAL};
use crate::format::{join_type_name};
use crate::ir::{JoinType, opt_text};
use crate::metadata::{Metadata, MetadataView, entry_name};
use crate::text::{concat2, decimal, join_strings, joined, push_decimal, texts, usize_to_string};
use vstd::prelude::*;
use vstd::string::*;

verus! {

/// A node of the format tree of a physical plan.
#[derive(Debug, PartialEq, Eq)]
pub struct TextTreeNode {
    pub payload: String,
    pub children: Vec<TextTreeNode>,
}

/// The view of a node of the format tree of a physical plan.
pub ghost struct TextTree {
    pub payload: Seq<char>,
    pub children: Seq<TextTree>,
}

/// The view of a node.
pub open spec fn text_tree_view(n: TextTreeNode) -> TextTree
    decreases n,
{
    TextTree { payload: n.payload@, children: text_trees_view(n.children) }
}

/// The views of a vector of nodes.
pub open spec fn text_trees_view(v: Vec<TextTreeNode>) -> Seq<TextTree>
    decreases v,
{
    Seq::new(
        v.len() as nat,
        |i: int|
            if 0 <= i < v.len() {
                text_tree_view(v[i])
            } else {
                arbitrary()
            },
    )
}

impl View for TextTreeNode {
    type V = TextTree;

    open spec fn view(&self) -> TextTree {
        text_tree_view(*self)
    }
}

/// A node without children.
pub open spec fn text_leaf(payload: Seq<char>) -> TextTree {
    TextTree { payload, children: Seq::empty() }
}

/// One leaf for each line.
pub open spec fn text_leaves(lines: Seq<Seq<char>>) -> Seq<TextTree> {
    Seq::new(lines.len(), |i: int| text_leaf(lines[i]))
}

impl TextTreeNode {
    /// A node without children.
    pub fn new(payload: String) -> (n: TextTreeNode)
        ensures
            n@ == text_leaf(payload@),
    {
        let n = TextTreeNode { payload, children: Vec::new() };
        assert(n@.children =~= Seq::empty());
        n
    }

    /// A node with the lines `lines` as leaves above the nodes `children`.
    pub fn with_lines(payload: &str, lines: Vec<String>, children: Vec<TextTreeNode>) -> (n:
        TextTreeNode)
        ensures
            n@ == (TextTree {
                payload: payload@,
                children: text_leaves(texts(lines@)) + text_trees_view(children),
            }),
    {
        let mut all: Vec<TextTreeNode> = Vec::new();
        let mut i: usize = 0;
        while i < lines.len()
            invariant
                i <= lines.len(),
                all.len() == i,
                forall|k: int| 0 <= k < i ==> all[k]@ == text_leaf(lines[k]@),
            decreases lines.len() - i,
        {
            all.push(TextTreeNode::new(lines[i].clone()));
            i = i + 1;
        }
        let ghost heads = text_trees_view(all);
        let mut rest = children;
        all.append(&mut rest);
        proof {
            assert(heads =~= text_leaves(texts(lines@)));
            assert(text_trees_view(all) =~= heads + text_trees_view(children));
        }
        TextTreeNode { payload: String::from_str(payload), children: all }
    }
}

/// The description of an aggregate function of a physical plan: its name
/// and the columns of its arguments.
#[derive(Debug, PartialEq, Eq)]
pub struct AggregateFunctionDesc {
    pub name: String,
    pub arg_indices: Vec<usize>,
}

/// The message of the error for a column that the registry lacks.
pub open spec fn unknown_column_message() -> Seq<char> {
    "Column is not in the metadata"@
}

/// The message of the error for a sort key that the registry lacks.
pub open spec fn unknown_sort_key_message() -> Seq<char> {
    "Sort key is not in the metadata"@
}

/// The names of the columns.
pub open spec fn column_names(metadata: MetadataView, columns: Seq<usize>) -> Seq<Seq<char>> {
    Seq::new(columns.len(), |i: int| entry_name(metadata.columns[columns[i] as int]))
}

/// Whether the registry has every one of the columns.
pub open spec fn columns_known(metadata: MetadataView, columns: Seq<usize>) -> bool {
    forall|i: int| 0 <= i < columns.len() ==> (#[trigger] columns[i]) < metadata.columns.len()
}

/// The display text of an aggregate function: its name, and between
/// brackets the names of the columns of its arguments.
pub open spec fn agg_desc_text(metadata: MetadataView, name: Seq<char>, args: Seq<usize>) -> Seq<
    char,
> {
    name + "("@ + joined(column_names(metadata, args), ", "@) + ")"@
}

/// The names of the columns `columns`; an internal error where the
/// registry lacks one.
pub fn format_column_names(metadata: &Metadata, columns: &Vec<usize>) -> (r: Result<
    Vec<String>,
    ErrorCode,
>)
    ensures
        columns_known(metadata@, columns@) ==> r is Ok && texts(r->Ok_0@) == column_names(
            metadata@,
            columns@,
        ),
        !columns_known(metadata@, columns@) ==> r is Err && r->Err_0.code == INTERNAL && r->Err_0.message@ == unknown_column_message(),
{
    let mut out: Vec<String> = Vec::new();
    let mut i: usize = 0;
    while i < columns.len()
        invariant
            i <= columns.len(),
            out.len() == i,
            forall|j: int| 0 <= j < i ==> (#[trigger] columns[j]) < metadata@.columns.len(),
            forall|j: int|
                0 <= j < i ==> out[j]@ == entry_name(metadata@.columns[columns[j] as int]),
        decreases columns.len() - i,
    {
        match metadata.column(columns[i]) {
            Some(entry) => {
                out.push(entry.name());
            },
            None => {
                return Err(ErrorCode::internal("Column is not in the metadata"));
            },
        }
        i = i + 1;
    }
    assert(texts(out@) =~= column_names(metadata@, columns@));
    Ok(out)
}

/// The display text of the aggregate function `desc`; an internal error
/// where the registry lacks the column of an argument.
pub fn pretty_display_agg_desc(desc: &AggregateFunctionDesc, metadata: &Metadata) -> (r: Result<
    String,
    ErrorCode,
>)
    ensures
        columns_known(metadata@, desc.arg_indices@) ==> r is Ok && r->Ok_0@ == agg_desc_text(
            metadata@,
            desc.name@,
            desc.arg_indices@,
        ),
        !columns_known(metadata@, desc.arg_indices@) ==> r is Err && r->Err_0.code == INTERNAL
            && r->Err_0.message@ == unknown_column_message(),
{
    let names = match format_column_names(metadata, &desc.arg_indices) {
        Ok(n) => n,
        Err(e) => {
            return Err(e);
        },
    };
    let mut s = desc.name.clone();
    s.append("(");
    s.append(join_strings(&names, ", ").as_str());
    s.append(")");
    Ok(s)
}

/// How much a scan read, and how much pruning spared it.
#[derive(Clone, Copy, Debug, PartialEq, Eq, Structural)]
pub struct PartStatistics {
    pub read_rows: usize,
    pub read_bytes: usize,
    pub partitions_total: usize,
    pub partitions_scanned: usize,
    pub segments_range_pruning_before: usize,
    pub segments_range_pruning_after: usize,
    pub blocks_range_pruning_before: usize,
    pub blocks_range_pruning_after: usize,
    pub blocks_bloom_pruning_before: usize,
    pub blocks_bloom_pruning_after: usize,
}

/// `label` followed by the numeral of `n`.
pub open spec fn counted(label: Seq<char>, n: usize) -> Seq<char> {
    label + decimal(n as nat)
}

/// The line on pruning.
pub open spec fn pruning_line(info: PartStatistics) -> Seq<char> {
    "pruning stats: [segments: <range pruning: "@ + decimal(
        info.segments_range_pruning_before as nat,
    ) + " to "@ + decimal(info.segments_range_pruning_after as nat)
        + ">, blocks: <range pruning: "@ + decimal(info.blocks_range_pruning_before as nat)
        + " to "@ + decimal(info.blocks_range_pruning_after as nat) + ", bloom pruning: "@
        + decimal(info.blocks_bloom_pruning_before as nat) + " to "@ + decimal(
        info.blocks_bloom_pruning_after as nat,
    ) + ">]"@
}

/// The lines on what a scan read: rows, bytes, partitions in all and
/// partitions scanned, and a line on pruning where segments were pruned.
pub open spec fn part_stats_lines(info: PartStatistics) -> Seq<Seq<char>> {
    let base = seq![
        counted("read rows: "@, info.read_rows),
        counted("read bytes: "@, info.read_bytes),
        counted("partitions total: "@, info.partitions_total),
        counted("partitions scanned: "@, info.partitions_scanned),
    ];
    if info.segments_range_pruning_before > 0 {
        base.push(pruning_line(info))
    } else {
        base
    }
}

/// `label` followed by the numeral of `n`.
pub fn format_counted(label: &str, n: usize) -> (s: String)
    ensures
        s@ == counted(label@, n),
{
    let mut s = String::from_str(label);
    push_decimal(&mut s, n as u64);
    s
}

/// The lines on what a scan read.
pub fn part_stats_info_to_format_tree(info: &PartStatistics) -> (items: Vec<String>)
    ensures
        texts(items@) == part_stats_lines(*info),
{
    let mut items: Vec<String> = Vec::new();
    items.push(format_counted("read rows: ", info.read_rows));
    items.push(format_counted("read bytes: ", info.read_bytes));
    items.push(format_counted("partitions total: ", info.partitions_total));
    items.push(format_counted("partitions scanned: ", info.partitions_scanned));
    if info.segments_range_pruning_before > 0 {
        let mut s = String::from_str("pruning stats: [segments: <range pruning: ");
        push_decimal(&mut s, info.segments_range_pruning_before as u64);
        s.append(" to ");
        push_decimal(&mut s, info.segments_range_pruning_after as u64);
        s.append(">, blocks: <range pruning: ");
        push_decimal(&mut s, info.blocks_range_pruning_before as u64);
        s.append(" to ");
        push_decimal(&mut s, info.blocks_range_pruning_after as u64);
        s.append(", bloom pruning: ");
        push_decimal(&mut s, info.blocks_bloom_pruning_before as u64);
        s.append(" to ");
        push_decimal(&mut s, info.blocks_bloom_pruning_after as u64);
        s.append(">]");
        assert(s@ =~= pruning_line(*info));
        items.push(s);
    }
    assert(texts(items@) =~= part_stats_lines(*info));
    items
}

/// The line on the time an operator took, in whole milliseconds of the
/// nanoseconds measured.
pub open spec fn process_time_line(nanos: u64) -> Seq<char> {
    "total process time: "@ + decimal((nanos / 1000 / 1000) as nat) + "ms"@
}

/// The line on the estimated rows; `estimate` is the numeral.
pub open spec fn estimate_line(estimate: Seq<char>) -> Seq<char> {
    "estimated rows: "@ + estimate
}

/// The lines that every operator shows after its own: the estimate of its
/// rows where one was made, and the time it took where it was measured.
pub open spec fn common_lines(stat_info: Option<Seq<char>>, process_time: Option<u64>) -> Seq<
    Seq<char>,
> {
    (match stat_info {
        Some(e) => seq![estimate_line(e)],
        None => Seq::empty(),
    }) + (match process_time {
        Some(t) => seq![process_time_line(t)],
        None => Seq::empty(),
    })
}

/// The line on the estimated rows of an operator.
pub fn plan_stats_info_to_format_tree(estimated_rows: &str) -> (s: String)
    ensures
        s@ == estimate_line(estimated_rows@),
{
    concat2("estimated rows: ", estimated_rows)
}

/// Appends to `children` the lines that every operator shows after its
/// own.
pub fn push_common_lines(
    children: &mut Vec<String>,
    stat_info: &Option<String>,
    process_time: Option<u64>,
)
    ensures
        texts(final(children)@) == texts(old(children)@) + common_lines(
            opt_text(*stat_info),
            process_time,
        ),
{
    let ghost before = texts(children@);
    if let Some(info) = stat_info {
        children.push(plan_stats_info_to_format_tree(info.as_str()));
    }
    if let Some(nanos) = process_time {
        let mut s = String::from_str("total process time: ");
        push_decimal(&mut s, nanos / 1000 / 1000);
        s.append("ms");
        children.push(s);
    }
    assert(texts(children@) =~= before + common_lines(opt_text(*stat_info), process_time));
}

/// The kinds of exchange of a physical plan.
#[derive(Clone, Copy, Debug, PartialEq, Eq, Structural)]
pub enum FragmentKind {
    Init,
    Normal,
    Expansive,
    Merge,
}

/// The text of the kind of an exchange; `keys` are the texts of its keys.
pub open spec fn exchange_kind_text(kind: FragmentKind, keys: Seq<Seq<char>>) -> Seq<char> {
    match kind {
        FragmentKind::Init => "Init-Partition"@,
        FragmentKind::Normal => "Hash("@ + joined(keys, ", "@) + ")"@,
        FragmentKind::Expansive => "Broadcast"@,
        FragmentKind::Merge => "Merge"@,
    }
}

/// The line on the kind of an exchange.
pub fn exchange_to_format_tree(kind: FragmentKind, keys: &Vec<String>) -> (s: String)
    ensures
        s@ == "exchange type: "@ + exchange_kind_text(kind, texts(keys@)),
{
    let mut s = String::from_str("exchange type: ");
    match kind {
        FragmentKind::Init => {
            s.append("Init-Partition");
        },
        FragmentKind::Normal => {
            s.append("Hash(");
            s.append(join_strings(keys, ", ").as_str());
            s.append(")");
            assert(s@ =~= "exchange type: "@ + exchange_kind_text(kind, texts(keys@)));
        },
        FragmentKind::Expansive => {
            s.append("Broadcast");
        },
        FragmentKind::Merge => {
            s.append("Merge");
        },
    }
    s
}

/// A sort key of a physical plan.
#[derive(Clone, Copy, Debug, PartialEq, Eq, Structural)]
pub struct SortKey {
    pub order_by: usize,
    pub asc: bool,
    pub nulls_first: bool,
}

/// The text of a sort key: the name of its column, its direction, and
/// where absent values go.
pub open spec fn physical_sort_key_text(metadata: MetadataView, key: SortKey) -> Seq<char> {
    entry_name(metadata.columns[key.order_by as int]) + " "@ + (if key.asc {
        "ASC"@
    } else {
        "DESC"@
    }) + " "@ + (if key.nulls_first {
        "NULLS FIRST"@
    } else {
        "NULLS LAST"@
    })
}

/// The text of the sort key `key`; an internal error where the registry
/// lacks its column.
pub fn format_sort_key(metadata: &Metadata, key: SortKey) -> (r: Result<String, ErrorCode>)
    ensures
        key.order_by < metadata@.columns.len() ==> r is Ok && r->Ok_0@ == physical_sort_key_text(
            metadata@,
            key,
        ),
        key.order_by >= metadata@.columns.len() ==> r is Err && r->Err_0.code == INTERNAL
            && r->Err_0.message@ == unknown_sort_key_message(),
{
    let mut s = match metadata.column(key.order_by) {
        Some(entry) => entry.name(),
        None => {
            return Err(ErrorCode::internal("Sort key is not in the metadata"));
        },
    };
    s.append(" ");
    if key.asc {
        s.append("ASC");
    } else {
        s.append("DESC");
    }
    s.append(" ");
    if key.nulls_first {
        s.append("NULLS FIRST");
    } else {
        s.append("NULLS LAST");
    }
    assert(s@ =~= physical_sort_key_text(metadata@, key));
    Ok(s)
}

/// The lines of a limit: the limit, or `NONE`, and the offset.
pub open spec fn physical_limit_lines(limit: Option<usize>, offset: usize) -> Seq<Seq<char>> {
    seq![
        "limit: "@ + (match limit {
            Some(n) => decimal(n as nat),
            None => "NONE"@,
        }),
        counted("offset: "@, offset),
    ]
}

/// The lines of a limit.
pub fn limit_to_format_tree(limit: Option<usize>, offset: usize) -> (lines: Vec<String>)
    ensures
        texts(lines@) == physical_limit_lines(limit, offset),
{
    let mut lines: Vec<String> = Vec::new();
    let shown = match limit {
        Some(n) => usize_to_string(n),
        None => String::from_str("NONE"),
    };
    lines.push(concat2("limit: ", shown.as_str()));
    lines.push(format_counted("offset: ", offset));
    assert(texts(lines@) =~= physical_limit_lines(limit, offset));
    lines
}

/// The node of a hash join: its kind, the keys of both sides, its other
/// conditions, the common lines, and its two inputs, each marked with the
/// side it plays.
pub open spec fn hash_join_tree(
    join_type: JoinType,
    build_keys: Seq<Seq<char>>,
    probe_keys: Seq<Seq<char>>,
    filters: Seq<Seq<char>>,
    stat_info: Option<Seq<char>>,
    process_time: Option<u64>,
    build: TextTree,
    probe: TextTree,
) -> TextTree {
    TextTree {
        payload: "HashJoin"@,
        children: text_leaves(
            seq![
                "join type: "@ + join_type_name(join_type),
                "build keys: ["@ + joined(build_keys, ", "@) + "]"@,
                "probe keys: ["@ + joined(probe_keys, ", "@) + "]"@,
                "filters: ["@ + joined(filters, ", "@) + "]"@,
            ] + common_lines(stat_info, process_time),
        ) + seq![
            TextTree { payload: build.payload + "(Build)"@, ..build },
            TextTree { payload: probe.payload + "(Probe)"@, ..probe },
        ],
    }
}

/// `head`, then the parts joined by commas, then `]`.
fn bracket_list(head: &str, parts: &Vec<String>) -> (s: String)
    ensures
        s@ == head@ + joined(texts(parts@), ", "@) + "]"@,
{
    let mut s = String::from_str(head);
    s.append(join_strings(parts, ", ").as_str());
    s.append("]");
    s
}

/// The node of a hash join over the trees of its build and probe sides.
pub fn hash_join_to_format_tree(
    join_type: JoinType,
    build_keys: &Vec<String>,
    probe_keys: &Vec<String>,
    non_equi_conditions: &Vec<String>,
    stat_info: &Option<String>,
    process_time: Option<u64>,
    build_child: TextTreeNode,
    probe_child: TextTreeNode,
) -> (n: TextTreeNode)
    ensures
        n@ == hash_join_tree(
            join_type,
            texts(build_keys@),
            texts(probe_keys@),
            texts(non_equi_conditions@),
            opt_text(*stat_info),
            process_time,
            build_child@,
            probe_child@,
        ),
{
    let mut build = build_child;
    let mut probe = probe_child;
    build.payload.append("(Build)");
    probe.payload.append("(Probe)");
    proof {
        assert(build@ == (TextTree {
            payload: build_child@.payload + "(Build)"@,
            ..build_child@
        }));
        assert(probe@ == (TextTree {
            payload: probe_child@.payload + "(Probe)"@,
            ..probe_child@
        }));
    }
    let mut lines: Vec<String> = Vec::new();
    lines.push(concat2("join type: ", join_type.name()));
    lines.push(bracket_list("build keys: [", build_keys));
    lines.push(bracket_list("probe keys: [", probe_keys));
    lines.push(bracket_list("filters: [", non_equi_conditions));
    let ghost own = texts(lines@);
    push_common_lines(&mut lines, stat_info, process_time);
    let mut children: Vec<TextTreeNode> = Vec::new();
    children.push(build);
    children.push(probe);
    proof {
        assert(own =~= seq![
            "join type: "@ + join_type_name(join_type),
            "build keys: ["@ + joined(texts(build_keys@), ", "@) + "]"@,
            "probe keys: ["@ + joined(texts(probe_keys@), ", "@) + "]"@,
            "filters: ["@ + joined(texts(non_equi_conditions@), ", "@) + "]"@,
        ]);
        assert(text_trees_view(children).len() == 2);
        assert(text_trees_view(children)[0] == build@);
        assert(text_trees_view(children)[1] == probe@);
        assert(text_trees_view(children) =~= seq![
            TextTree { payload: build_child@.payload + "(Build)"@, ..build_child@ },
            TextTree { payload: probe_child@.payload + "(Probe)"@, ..probe_child@ },
        ]);
        assert(texts(lines@) == own + common_lines(opt_text(*stat_info), process_time));
    }
    let node = TextTreeNode::with_lines("HashJoin", lines, children);
    assert(node@.payload == "HashJoin"@);
    assert(node@.children == text_leaves(texts(lines@)) + text_trees_view(children));
    proof {
        let want = hash_join_tree(
            join_type,
            texts(build_keys@),
            texts(probe_keys@),
            texts(non_equi_conditions@),
            opt_text(*stat_info),
            process_time,
            build_child@,
            probe_child@,
        );
        assert(want.payload == "HashJoin"@);
        assert(node@.children =~= want.children);
    }
    node
}

/// The node of an operator with one input: its name, its own lines, the
/// common lines, and the tree of its input.
pub open spec fn unary_tree(
    name: Seq<char>,
    own: Seq<Seq<char>>,
    stat_info: Option<Seq<char>>,
    process_time: Option<u64>,
    input: TextTree,
) -> TextTree {
    TextTree {
        payload: name,
        children: text_leaves(own + common_lines(stat_info, process_time)) + seq![input],
    }
}

/// The node of an operator with one input.
pub fn unary_to_format_tree(
    name: &str,
    own: Vec<String>,
    stat_info: &Option<String>,
    process_time: Option<u64>,
    input: TextTreeNode,
) -> (n: TextTreeNode)
    ensures
        n@ == unary_tree(name@, texts(own@), opt_text(*stat_info), process_time, input@),
{
    let mut lines = own;
    push_common_lines(&mut lines, stat_info, process_time);
    let mut children: Vec<TextTreeNode> = Vec::new();
    children.push(input);
    assert(text_trees_view(children) =~= seq![input@]);
    TextTreeNode::with_lines(name, lines, children)
}

/// The node of a filter over the tree of its input; `predicates` are the
/// texts of its predicates.
pub fn filter_to_format_tree(
    predicates: &Vec<String>,
    stat_info: &Option<String>,
    process_time: Option<u64>,
    input: TextTreeNode,
) -> (n: TextTreeNode)
    ensures
        n@ == unary_tree(
            "Filter"@,
            seq!["filters: ["@ + joined(texts(predicates@), ", "@) + "]"@],
            opt_text(*stat_info),
            process_time,
            input@,
        ),
{
    let mut own: Vec<String> = Vec::new();
    own.push(bracket_list("filters: [", predicates));
    assert(texts(own@) =~= seq!["filters: ["@ + joined(texts(predicates@), ", "@) + "]"@]);
    unary_to_format_tree("Filter", own, stat_info, process_time, input)
}

/// The node of a projection that computes scalars, over the tree of its
/// input; `exprs` are the texts of the scalars.
pub fn eval_scalar_to_format_tree(
    exprs: &Vec<String>,
    stat_info: &Option<String>,
    process_time: Option<u64>,
    input: TextTreeNode,
) -> (n: TextTreeNode)
    ensures
        n@ == unary_tree(
            "EvalScalar"@,
            seq!["expressions: ["@ + joined(texts(exprs@), ", "@) + "]"@],
            opt_text(*stat_info),
            process_time,
            input@,
        ),
{
    let mut own: Vec<String> = Vec::new();
    own.push(bracket_list("expressions: [", exprs));
    assert(texts(own@) =~= seq!["expressions: ["@ + joined(texts(exprs@), ", "@) + "]"@]);
    unary_to_format_tree("EvalScalar", own, stat_info, process_time, input)
}

/// The text of a projected column: its name and its index.
pub open spec fn projected_text(metadata: MetadataView, column: usize) -> Seq<char> {
    entry_name(metadata.columns[column as int]) + " (#"@ + decimal(column as nat) + ")"@
}

/// The texts of the projected columns, in increasing order of index.
pub open spec fn projected_texts(metadata: MetadataView, columns: Set<usize>) -> Seq<Seq<char>> {
    Seq::new(ordered(columns).len(), |i: int| projected_text(metadata, ordered(columns)[i]))
}

/// The node of a projection of columns, over the tree of its input. The
/// columns are shown in increasing order of index. An internal error where
/// the registry lacks one of them.
pub fn project_to_format_tree(
    columns: &ColumnSet,
    metadata: &Metadata,
    stat_info: &Option<String>,
    process_time: Option<u64>,
    input: TextTreeNode,
) -> (r: Result<TextTreeNode, ErrorCode>)
    ensures
        columns_known(metadata@, ordered(columns@)) ==> r is Ok && r->Ok_0@ == unary_tree(
            "Project"@,
            seq!["columns: ["@ + joined(projected_texts(metadata@, columns@), ", "@) + "]"@],
            opt_text(*stat_info),
            process_time,
            input@,
        ),
        !columns_known(metadata@, ordered(columns@)) ==> r is Err && r->Err_0.code == INTERNAL
            && r->Err_0.message@ == unknown_column_message(),
{
    let sorted = columns.as_vec();
    let mut parts: Vec<String> = Vec::new();
    let mut i: usize = 0;
    while i < sorted.len()
        invariant
            i <= sorted.len(),
            sorted@ == ordered(columns@),
            parts.len() == i,
            forall|j: int| 0 <= j < i ==> (#[trigger] sorted[j]) < metadata@.columns.len(),
            forall|j: int| 0 <= j < i ==> parts[j]@ == projected_text(metadata@, sorted[j]),
        decreases sorted.len() - i,
    {
        let column = sorted[i];
        let mut s = match metadata.column(column) {
            Some(entry) => entry.name(),
            None => {
                return Err(ErrorCode::internal("Column is not in the metadata"));
            },
        };
        s.append(" (#");
        push_decimal(&mut s, column as u64);
        s.append(")");
        assert(s@ =~= projected_text(metadata@, column));
        parts.push(s);
        i = i + 1;
    }
    let mut own: Vec<String> = Vec::new();
    own.push(bracket_list("columns: [", &parts));
    proof {
        assert(texts(parts@) =~= projected_texts(metadata@, columns@));
        assert(texts(own@) =~= seq![
            "columns: ["@ + joined(projected_texts(metadata@, columns@), ", "@) + "]"@,
        ]);
    }
    Ok(unary_to_format_tree("Project", own, stat_info, process_time, input))
}

/// The texts of the aggregate functions.
pub open spec fn agg_desc_texts(metadata: MetadataView, descs: Seq<AggregateFunctionDesc>) -> Seq<
    Seq<char>,
> {
    Seq::new(
        descs.len(),
        |i: int| agg_desc_text(metadata, descs[i].name@, descs[i].arg_indices@),
    )
}

/// Whether the registry has the columns of the arguments of every
/// aggregate function.
pub open spec fn agg_descs_known(metadata: MetadataView, descs: Seq<AggregateFunctionDesc>) -> bool {
    forall|i: int|
        0 <= i < descs.len() ==> columns_known(metadata, (#[trigger] descs[i]).arg_indices@)
}

/// The own lines of a partial or final aggregation: the columns it groups
/// by, and its aggregate functions.
pub open spec fn aggregate_own_lines(
    metadata: MetadataView,
    group_by: Seq<usize>,
    descs: Seq<AggregateFunctionDesc>,
) -> Seq<Seq<char>> {
    seq![
        "group by: ["@ + joined(column_names(metadata, group_by), ", "@) + "]"@,
        "aggregate functions: ["@ + joined(agg_desc_texts(metadata, descs), ", "@) + "]"@,
    ]
}

/// The own lines of a partial or final aggregation; an internal error
/// where the registry lacks a column.
pub fn format_aggregate_lines(
    metadata: &Metadata,
    group_by: &Vec<usize>,
    agg_funcs: &Vec<AggregateFunctionDesc>,
) -> (r: Result<Vec<String>, ErrorCode>)
    ensures
        columns_known(metadata@, group_by@) && agg_descs_known(metadata@, agg_funcs@) ==> r is Ok
            && texts(r->Ok_0@) == aggregate_own_lines(metadata@, group_by@, agg_funcs@),
        !(columns_known(metadata@, group_by@) && agg_descs_known(metadata@, agg_funcs@)) ==> r
            is Err && r->Err_0.code == INTERNAL && r->Err_0.message@ == unknown_column_message(),
{
    let names = match format_column_names(metadata, group_by) {
        Ok(n) => n,
        Err(e) => {
            return Err(e);
        },
    };
    let mut funcs: Vec<String> = Vec::new();
    let mut i: usize = 0;
    while i < agg_funcs.len()
        invariant
            i <= agg_funcs.len(),
            funcs.len() == i,
            forall|j: int|
                0 <= j < i ==> columns_known(metadata@, (#[trigger] agg_funcs[j]).arg_indices@),
            forall|j: int|
                0 <= j < i ==> funcs[j]@ == agg_desc_text(
                    metadata@,
                    agg_funcs[j].name@,
                    agg_funcs[j].arg_indices@,
                ),
        decreases agg_funcs.len() - i,
    {
        match pretty_display_agg_desc(&agg_funcs[i], metadata) {
            Ok(s) => {
                funcs.push(s);
            },
            Err(e) => {
                return Err(e);
            },
        }
        i = i + 1;
    }
    let mut lines: Vec<String> = Vec::new();
    lines.push(bracket_list("group by: [", &names));
    lines.push(bracket_list("aggregate functions: [", &funcs));
    proof {
        assert(texts(funcs@) =~= agg_desc_texts(metadata@, agg_funcs@));
        assert(texts(lines@) =~= aggregate_own_lines(metadata@, group_by@, agg_funcs@));
    }
    Ok(lines)
}

/// The node of a partial aggregation over the tree of its input.
pub fn aggregate_partial_to_format_tree(
    metadata: &Metadata,
    group_by: &Vec<usize>,
    agg_funcs: &Vec<AggregateFunctionDesc>,
    stat_info: &Option<String>,
    process_time: Option<u64>,
    input: TextTreeNode,
) -> (r: Result<TextTreeNode, ErrorCode>)
    ensures
        columns_known(metadata@, group_by@) && agg_descs_known(metadata@, agg_funcs@) ==> r is Ok
            && r->Ok_0@ == unary_tree(
            "AggregatePartial"@,
            aggregate_own_lines(metadata@, group_by@, agg_funcs@),
            opt_text(*stat_info),
            process_time,
            input@,
        ),
        !(columns_known(metadata@, group_by@) && agg_descs_known(metadata@, agg_funcs@)) ==> r
            is Err && r->Err_0.code == INTERNAL && r->Err_0.message@ == unknown_column_message(),
{
    match format_aggregate_lines(metadata, group_by, agg_funcs) {
        Ok(own) => Ok(unary_to_format_tree("AggregatePartial", own, stat_info, process_time, input)),
        Err(e) => Err(e),
    }
}

/// The node of a final aggregation over the tree of its input. A limit,
/// where the aggregation has one, is shown after its own lines.
pub fn aggregate_final_to_format_tree(
    metadata: &Metadata,
    group_by: &Vec<usize>,
    agg_funcs: &Vec<AggregateFunctionDesc>,
    limit: Option<usize>,
    stat_info: &Option<String>,
    process_time: Option<u64>,
    input: TextTreeNode,
) -> (r: Result<TextTreeNode, ErrorCode>)
    ensures
        columns_known(metadata@, group_by@) && agg_descs_known(metadata@, agg_funcs@) ==> r is Ok
            && r->Ok_0@ == unary_tree(
            "AggregateFinal"@,
            aggregate_own_lines(metadata@, group_by@, agg_funcs@) + (match limit {
                Some(n) => seq![counted("limit: "@, n)],
                None => Seq::empty(),
            }),
            opt_text(*stat_info),
            process_time,
            input@,
        ),
        !(columns_known(metadata@, group_by@) && agg_descs_known(metadata@, agg_funcs@)) ==> r
            is Err && r->Err_0.code == INTERNAL && r->Err_0.message@ == unknown_column_message(),
{
    let mut own = match format_aggregate_lines(metadata, group_by, agg_funcs) {
        Ok(own) => own,
        Err(e) => {
            return Err(e);
        },
    };
    let ghost before = texts(own@);
    if let Some(n) = limit {
        own.push(format_counted("limit: ", n));
    }
    assert(texts(own@) =~= before + (match limit {
        Some(n) => seq![counted("limit: "@, n)],
        None => Seq::empty(),
    }));
    Ok(unary_to_format_tree("AggregateFinal", own, stat_info, process_time, input))
}

/// The node of an exchange source: the fragment it reads from.
pub fn exchange_source_to_format_tree(source_fragment_id: usize) -> (n: TextTreeNode)
    ensures
        n@ == (TextTree {
            payload: "ExchangeSource"@,
            children: text_leaves(
                seq!["source fragment: ["@ + decimal(source_fragment_id as nat) + "]"@],
            ),
        }),
{
    let mut line = String::from_str("source fragment: [");
    push_decimal(&mut line, source_fragment_id as u64);
    line.append("]");
    let mut lines: Vec<String> = Vec::new();
    lines.push(line);
    let none: Vec<TextTreeNode> = Vec::new();
    proof {
        assert(texts(lines@) =~= seq![
            "source fragment: ["@ + decimal(source_fragment_id as nat) + "]"@,
        ]);
        assert(text_trees_view(none) =~= Seq::empty());
        assert(text_leaves(texts(lines@)) + Seq::<TextTree>::empty() =~= text_leaves(
            texts(lines@),
        ));
    }
    TextTreeNode::with_lines("ExchangeSource", lines, none)
}

/// The node of an exchange sink over the tree of its input: the fragment
/// it writes to.
pub fn exchange_sink_to_format_tree(destination_fragment_id: usize, input: TextTreeNode) -> (n:
    TextTreeNode)
    ensures
        n@ == unary_tree(
            "ExchangeSink"@,
            seq!["destination fragment: ["@ + decimal(destination_fragment_id as nat) + "]"@],
            None,
            None,
            input@,
        ),
{
    let mut line = String::from_str("destination fragment: [");
    push_decimal(&mut line, destination_fragment_id as u64);
    line.append("]");
    let mut own: Vec<String> = Vec::new();
    own.push(line);
    assert(texts(own@) =~= seq![
        "destination fragment: ["@ + decimal(destination_fragment_id as nat) + "]"@,
    ]);
    let none: Option<String> = None;
    unary_to_format_tree("ExchangeSink", own, &none, None, input)
}

/// The node of a union over the trees of its two inputs.
pub fn union_all_to_format_tree(
    stat_info: &Option<String>,
    process_time: Option<u64>,
    left: TextTreeNode,
    right: TextTreeNode,
) -> (n: TextTreeNode)
    ensures
        n@ == (TextTree {
            payload: "UnionAll"@,
            children: text_leaves(common_lines(opt_text(*stat_info), process_time)) + seq![
                left@,
                right@,
            ],
        }),
{
    let mut lines: Vec<String> = Vec::new();
    assert(texts(lines@) =~= Seq::empty());
    push_common_lines(&mut lines, stat_info, process_time);
    let mut children: Vec<TextTreeNode> = Vec::new();
    children.push(left);
    children.push(right);
    proof {
        assert(Seq::<Seq<char>>::empty() + common_lines(opt_text(*stat_info), process_time)
            =~= common_lines(opt_text(*stat_info), process_time));
        assert(text_trees_view(children) =~= seq![left@, right@]);
    }
    TextTreeNode::with_lines("UnionAll", lines, children)
}

/// The node of a table scan. A scan of the dummy table is a bare node.
/// Any other shows its table, what it read, what was pushed down to it, its
/// output columns where it hands on fewer than the table has, and the
/// estimate of its rows.
pub open spec fn table_scan_tree(
    table: Option<Seq<char>>,
    statistics: PartStatistics,
    filters: Seq<char>,
    limit: Option<usize>,
    output_columns: Seq<Seq<char>>,
    source_columns: usize,
    stat_info: Option<Seq<char>>,
) -> TextTree {
    match table {
        None => text_leaf("DummyTableScan"@),
        Some(name) => TextTree {
            payload: "TableScan"@,
            children: text_leaves(
                seq!["table: "@ + name] + part_stats_lines(statistics) + seq![
                    "push downs: [filters: ["@ + filters + "], limit: "@ + (match limit {
                        Some(n) => decimal(n as nat),
                        None => "NONE"@,
                    }) + "]"@,
                ] + (if output_columns.len() < source_columns {
                    seq!["output columns: ["@ + joined(output_columns, ", "@) + "]"@]
                } else {
                    Seq::empty()
                }) + common_lines(stat_info, None),
            ),
        },
    }
}

/// The node of a table scan; `table` is the full name of the table, or
/// `None` for the dummy table.
pub fn table_scan_to_format_tree(
    table: &Option<String>,
    statistics: &PartStatistics,
    filters: &String,
    limit: Option<usize>,
    output_columns: &Vec<String>,
    source_columns: usize,
    stat_info: &Option<String>,
) -> (n: TextTreeNode)
    ensures
        n@ == table_scan_tree(
            opt_text(*table),
            *statistics,
            filters@,
            limit,
            texts(output_columns@),
            source_columns,
            opt_text(*stat_info),
        ),
{
    let name = match table {
        None => {
            return TextTreeNode::new(String::from_str("DummyTableScan"));
        },
        Some(name) => name,
    };
    let mut children: Vec<String> = Vec::new();
    children.push(concat2("table: ", name.as_str()));
    // What the scan read.
    let mut stats = part_stats_info_to_format_tree(statistics);
    let ghost l1 = texts(children@);
    children.append(&mut stats);
    assert(texts(children@) =~= l1 + part_stats_lines(*statistics));
    // What was pushed down to it.
    let shown = match limit {
        Some(n) => usize_to_string(n),
        None => String::from_str("NONE"),
    };
    let mut push_downs = String::from_str("push downs: [filters: [");
    push_downs.append(filters.as_str());
    push_downs.append("], limit: ");
    push_downs.append(shown.as_str());
    push_downs.append("]");
    let ghost l2 = texts(children@);
    children.push(push_downs);
    assert(texts(children@) =~= l2 + seq![push_downs@]);
    // The output columns show only where the scan hands on fewer than
    // the table has.
    let ghost l3 = texts(children@);
    if output_columns.len() < source_columns {
        children.push(bracket_list("output columns: [", output_columns));
    }
    assert(texts(children@) =~= l3 + (if output_columns.len() < source_columns {
        seq!["output columns: ["@ + joined(texts(output_columns@), ", "@) + "]"@]
    } else {
        Seq::empty()
    }));
    let ghost l4 = texts(children@);
    push_common_lines(&mut children, stat_info, None);
    let none: Vec<TextTreeNode> = Vec::new();
    proof {
        assert(text_trees_view(none) =~= Seq::empty());
        assert(text_leaves(texts(children@)) + Seq::<TextTree>::empty() =~= text_leaves(
            texts(children@),
        ));
        assert(l1 =~= seq!["table: "@ + name@]);
        assert(texts(children@) =~= l4 + common_lines(opt_text(*stat_info), None));
        assert(texts(children@) =~= seq!["table: "@ + name@] + part_stats_lines(*statistics)
            + seq![push_downs@] + (if output_columns.len() < source_columns {
            seq!["output columns: ["@ + joined(texts(output_columns@), ", "@) + "]"@]
        } else {
            Seq::empty()
        }) + common_lines(opt_text(*stat_info), None));
    }
    TextTreeNode::with_lines("TableScan", children, none)
}

/// The texts of the sort keys.
pub open spec fn physical_sort_key_texts(metadata: MetadataView, keys: Seq<SortKey>) -> Seq<
    Seq<char>,
> {
    Seq::new(keys.len(), |i: int| physical_sort_key_text(metadata, keys[i]))
}

/// Whether the registry has the column of every sort key.
pub open spec fn physical_sort_keys_known(metadata: MetadataView, keys: Seq<SortKey>) -> bool {
    forall|i: int| 0 <= i < keys.len() ==> (#[trigger] keys[i]).order_by < metadata.columns.len()
}

/// The node of a sort over the tree of its input; an internal error where
/// the registry lacks the column of a key.
pub fn sort_to_format_tree(
    metadata: &Metadata,
    order_by: &Vec<SortKey>,
    stat_info: &Option<String>,
    process_time: Option<u64>,
    input: TextTreeNode,
) -> (r: Result<TextTreeNode, ErrorCode>)
    ensures
        physical_sort_keys_known(metadata@, order_by@) ==> r is Ok && r->Ok_0@ == unary_tree(
            "Sort"@,
            seq![
                "sort keys: ["@ + joined(physical_sort_key_texts(metadata@, order_by@), ", "@)
                    + "]"@,
            ],
            opt_text(*stat_info),
            process_time,
            input@,
        ),
        !physical_sort_keys_known(metadata@, order_by@) ==> r is Err && r->Err_0.code == INTERNAL
            && r->Err_0.message@ == unknown_sort_key_message(),
{
    let mut keys: Vec<String> = Vec::new();
    let mut i: usize = 0;
    while i < order_by.len()
        invariant
            i <= order_by.len(),
            keys.len() == i,
            forall|j: int| 0 <= j < i ==> (#[trigger] order_by[j]).order_by < metadata@.columns.len(),
            forall|j: int| 0 <= j < i ==> keys[j]@ == physical_sort_key_text(metadata@, order_by[j]),
        decreases order_by.len() - i,
    {
        match format_sort_key(metadata, order_by[i]) {
            Ok(s) => {
                keys.push(s);
            },
            Err(e) => {
                return Err(e);
            },
        }
        i = i + 1;
    }
    let mut own: Vec<String> = Vec::new();
    own.push(bracket_list("sort keys: [", &keys));
    proof {
        assert(texts(keys@) =~= physical_sort_key_texts(metadata@, order_by@));
        assert(texts(own@) =~= seq![
            "sort keys: ["@ + joined(physical_sort_key_texts(metadata@, order_by@), ", "@) + "]"@,
        ]);
    }
    Ok(unary_to_format_tree("Sort", own, stat_info, process_time, input))
}

/// The node of a limit over the tree of its input.
pub fn limit_node_to_format_tree(
    limit: Option<usize>,
    offset: usize,
    stat_info: &Option<String>,
    process_time: Option<u64>,
    input: TextTreeNode,
) -> (n: TextTreeNode)
    ensures
        n@ == unary_tree(
            "Limit"@,
            physical_limit_lines(limit, offset),
            opt_text(*stat_info),
            process_time,
            input@,
        ),
{
    unary_to_format_tree(
        "Limit",
        limit_to_format_tree(limit, offset),
        stat_info,
        process_time,
        input,
    )
}

/// The text of a grouping set: the names of its columns between round
/// brackets.
pub open spec fn grouping_set_text(metadata: MetadataView, set: Seq<usize>) -> Seq<char> {
    "("@ + joined(column_names(metadata, set), ", "@) + ")"@
}

/// The texts of the grouping sets.
pub open spec fn grouping_set_texts(metadata: MetadataView, sets: Seq<Vec<usize>>) -> Seq<Seq<char>> {
    Seq::new(sets.len(), |i: int| grouping_set_text(metadata, sets[i]@))
}

/// Whether the registry has every column of every grouping set.
pub open spec fn grouping_sets_known(metadata: MetadataView, sets: Seq<Vec<usize>>) -> bool {
    forall|i: int| 0 <= i < sets.len() ==> columns_known(metadata, (#[trigger] sets[i])@)
}

/// The node of an expansion by grouping sets over the tree of its input;
/// an internal error where the registry lacks a column.
pub fn aggregate_expand_to_format_tree(
    metadata: &Metadata,
    grouping_sets: &Vec<Vec<usize>>,
    stat_info: &Option<String>,
    process_time: Option<u64>,
    input: TextTreeNode,
) -> (r: Result<TextTreeNode, ErrorCode>)
    ensures
        grouping_sets_known(metadata@, grouping_sets@) ==> r is Ok && r->Ok_0@ == unary_tree(
            "AggregateExpand"@,
            seq![
                "grouping sets: ["@ + joined(grouping_set_texts(metadata@, grouping_sets@), ", "@)
                    + "]"@,
            ],
            opt_text(*stat_info),
            process_time,
            input@,
        ),
        !grouping_sets_known(metadata@, grouping_sets@) ==> r is Err && r->Err_0.code == INTERNAL
            && r->Err_0.message@ == unknown_column_message(),
{
    let mut sets: Vec<String> = Vec::new();
    let mut i: usize = 0;
    while i < grouping_sets.len()
        invariant
            i <= grouping_sets.len(),
            sets.len() == i,
            forall|j: int| 0 <= j < i ==> columns_known(metadata@, (#[trigger] grouping_sets[j])@),
            forall|j: int| 0 <= j < i ==> sets[j]@ == grouping_set_text(metadata@, grouping_sets[j]@),
        decreases grouping_sets.len() - i,
    {
        let names = match format_column_names(metadata, &grouping_sets[i]) {
            Ok(n) => n,
            Err(e) => {
                return Err(e);
            },
        };
        let mut s = String::from_str("(");
        s.append(join_strings(&names, ", ").as_str());
        s.append(")");
        sets.push(s);
        i = i + 1;
    }
    let mut own: Vec<String> = Vec::new();
    own.push(bracket_list("grouping sets: [", &sets));
    proof {
        assert(texts(sets@) =~= grouping_set_texts(metadata@, grouping_sets@));
        assert(texts(own@) =~= seq![
            "grouping sets: ["@ + joined(grouping_set_texts(metadata@, grouping_sets@), ", "@)
                + "]"@,
        ]);
    }
    Ok(unary_to_format_tree("AggregateExpand", own, stat_info, process_time, input))
}

/// A node with nothing but the trees of its inputs below it.
pub fn plain_to_format_tree(name: &str, inputs: Vec<TextTreeNode>) -> (n: TextTreeNode)
    ensures
        n@ == (TextTree { payload: name@, children: text_trees_view(inputs) }),
{
    TextTreeNode { payload: String::from_str(name), children: inputs }
}

/// The node of a distributed insert over the tree of its input.
pub fn distributed_insert_to_format_tree(input: TextTreeNode) -> (n: TextTreeNode)
    ensures
        n@ == (TextTree { payload: "DistributedInsertSelect"@, children: seq![input@] }),
{
    let mut inputs: Vec<TextTreeNode> = Vec::new();
    inputs.push(input);
    assert(text_trees_view(inputs) =~= seq![input@]);
    plain_to_format_tree("DistributedInsertSelect", inputs)
}

/// The node of an unnest over the tree of its input.
pub fn unnest_to_format_tree(input: TextTreeNode) -> (n: TextTreeNode)
    ensures
        n@ == (TextTree { payload: "Unnest"@, children: seq![input@] }),
{
    let mut inputs: Vec<TextTreeNode> = Vec::new();
    inputs.push(input);
    assert(text_trees_view(inputs) =~= seq![input@]);
    plain_to_format_tree("Unnest", inputs)
}

/// The node of a runtime filter source over the trees of its two sides.
pub fn runtime_filter_source_to_format_tree(left_side: TextTreeNode, right_side: TextTreeNode) -> (n:
    TextTreeNode)
    ensures
        n@ == (TextTree {
            payload: "RuntimeFilterSource"@,
            children: seq![left_side@, right_side@],
        }),
{
    let mut inputs: Vec<TextTreeNode> = Vec::new();
    inputs.push(left_side);
    inputs.push(right_side);
    assert(text_trees_view(inputs) =~= seq![left_side@, right_side@]);
    plain_to_format_tree("RuntimeFilterSource", inputs)
}

/// The node of an exchange over the tree of its input.
pub fn exchange_node_to_format_tree(kind: FragmentKind, keys: &Vec<String>, input: TextTreeNode) -> (n:
    TextTreeNode)
    ensures
        n@ == unary_tree(
            "Exchange"@,
            seq!["exchange type: "@ + exchange_kind_text(kind, texts(keys@))],
            None,
            None,
            input@,
        ),
{
    let mut own: Vec<String> = Vec::new();
    own.push(exchange_to_format_tree(kind, keys));
    assert(texts(own@) =~= seq!["exchange type: "@ + exchange_kind_text(kind, texts(keys@))]);
    let none: Option<String> = None;
    unary_to_format_tree("Exchange", own, &none, None, input)
}

} // verus!
