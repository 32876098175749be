//! The format tree of a logical plan: the tree that `EXPLAIN` prints.
//!
//! Each operator becomes a node. Below it come lines of text that show the
//! attributes of the operator, and then the nodes of its inputs.

use itertools::Itertools;
use crate::copy::{clone_aggregate, clone_filter, clone_items, clone_join, clone_operator, clone_scalar, clone_scalars, clone_scan, clone_sort_items};
use crate::error::{ErrorCode, INTERNAL};
use crate::format::{FormatContext, FormatContextView, format_scalar, format_scalars, scalar_text, scalar_texts};
use crate::ir::{Aggregate, AggregateView, ComparisonOp, EvalScalar, EvalScalarView, Exchange, ExchangeView, Filter, FilterView, Join, JoinView, Limit, RelOperator, RelOperatorView, SExpr, SExprView, ScalarExpr, ScalarItem, ScalarItemView, ScalarView, Scan, ScanView, Sort, SortItem, SortView, item_view, items_view, operator_view, scalar_view, scalars_view, scan_view, sexpr_view_parts, sexprs_view};
use crate::metadata::{Metadata, MetadataView, TableEntry, entry_name};
use crate::physical_format::{unknown_sort_key_message};
use crate::text::{concat2, decimal, join_strings, joined, push_decimal, texts, usize_to_string};
use vstd::prelude::*;
use vstd::string::*;

verus! {

/// A node of a format tree.
#[derive(Debug, PartialEq, Eq)]
pub struct FormatTreeNode {
    pub payload: FormatContext,
    pub children: Vec<FormatTreeNode>,
}

/// The view of a node of a format tree.
pub ghost struct FormatTreeNodeView {
    pub payload: FormatContextView,
    pub children: Seq<FormatTreeNodeView>,
}

/// The view of a node of a format tree.
pub open spec fn node_view(n: FormatTreeNode) -> FormatTreeNodeView
    decreases n,
{
    FormatTreeNodeView { payload: n.payload@, children: nodes_view(n.children) }
}

/// The views of a vector of nodes.
pub open spec fn nodes_view(v: Vec<FormatTreeNode>) -> Seq<FormatTreeNodeView>
    decreases v,
{
    Seq::new(
        v.len() as nat,
        |i: int|
            if 0 <= i < v.len() {
                node_view(v[i])
            } else {
                arbitrary()
            },
    )
}

impl View for FormatTreeNode {
    type V = FormatTreeNodeView;

    open spec fn view(&self) -> FormatTreeNodeView {
        node_view(*self)
    }
}

/// A node that shows a line of text and has no children.
pub open spec fn text_node(text: Seq<char>) -> FormatTreeNodeView {
    FormatTreeNodeView { payload: FormatContextView::Text(text), children: Seq::empty() }
}

/// One text node for each line.
pub open spec fn text_nodes(lines: Seq<Seq<char>>) -> Seq<FormatTreeNodeView> {
    Seq::new(lines.len(), |i: int| text_node(lines[i]))
}

/// The node of an operator: the operator, then its lines, then the nodes
/// of its inputs.
pub open spec fn operator_node(
    op: RelOperatorView,
    lines: Seq<Seq<char>>,
    children: Seq<FormatTreeNodeView>,
) -> FormatTreeNodeView {
    FormatTreeNodeView {
        payload: FormatContextView::RelOp { rel_operator: op },
        children: text_nodes(lines) + children,
    }
}

impl FormatTreeNode {
    /// A node without children.
    pub fn new(payload: FormatContext) -> (n: FormatTreeNode)
        ensures
            n@ == (FormatTreeNodeView { payload: payload@, children: Seq::empty() }),
    {
        let n = FormatTreeNode { payload, children: Vec::new() };
        assert(n@.children =~= Seq::empty());
        n
    }

    /// A node with the given children.
    pub fn with_children(payload: FormatContext, children: Vec<FormatTreeNode>) -> (n:
        FormatTreeNode)
        ensures
            n@ == (FormatTreeNodeView { payload: payload@, children: nodes_view(children) }),
    {
        FormatTreeNode { payload, children }
    }
}

/// The node of the operator `op` with the lines `lines` above the nodes
/// `children`.
pub fn make_operator_node(op: &RelOperator, lines: Vec<String>, children: Vec<FormatTreeNode>) -> (n:
    FormatTreeNode)
    ensures
        n@ == operator_node(op@, texts(lines@), nodes_view(children)),
{
    let mut all: Vec<FormatTreeNode> = Vec::new();
    let mut i: usize = 0;
    while i < lines.len()
        invariant
            i <= lines.len(),
            all.len() == i,
            forall|k: int| 0 <= k < i ==> all[k]@ == text_node(lines[k]@),
        decreases lines.len() - i,
    {
        let node = FormatTreeNode::new(FormatContext::Text(lines[i].clone()));
        all.push(node);
        i = i + 1;
    }
    let ghost heads = nodes_view(all);
    let mut rest = children;
    all.append(&mut rest);
    proof {
        assert(heads =~= text_nodes(texts(lines@)));
        assert(nodes_view(all) =~= heads + nodes_view(children));
    }
    FormatTreeNode::with_children(
        FormatContext::RelOp { rel_operator: Box::new(clone_operator(op)) },
        all,
    )
}

/// `head`, then `inner`, then `]`.
pub fn bracketed(head: &str, inner: &String) -> (s: String)
    ensures
        s@ == head@ + inner@ + "]"@,
{
    let mut s = String::from_str(head);
    s.append(inner.as_str());
    s.append("]");
    s
}

/// The equality of the first `n` pairs of keys as one scalar: the
/// conjunction of the comparisons, nested to the left.
pub open spec fn equi_chain(left: Seq<ScalarView>, right: Seq<ScalarView>, n: nat) -> ScalarView
    decreases n,
{
    let last = ScalarView::ComparisonExpr {
        op: ComparisonOp::Equal,
        left: Box::new(left[n - 1]),
        right: Box::new(right[n - 1]),
    };
    if n <= 1 {
        last
    } else {
        ScalarView::AndExpr {
            left: Box::new(equi_chain(left, right, (n - 1) as nat)),
            right: Box::new(last),
        }
    }
}

/// The number of pairs that two lists of keys make.
pub open spec fn pairs(left: Seq<ScalarView>, right: Seq<ScalarView>) -> nat {
    if left.len() <= right.len() {
        left.len()
    } else {
        right.len()
    }
}

/// The text of the equality conditions of a join: empty without a pair
/// of keys, else the text of the conjunction of the equalities.
pub open spec fn equi_text(j: JoinView) -> Seq<char> {
    if pairs(j.left_conditions, j.right_conditions) == 0 {
        Seq::empty()
    } else {
        scalar_text(
            equi_chain(
                j.left_conditions,
                j.right_conditions,
                pairs(j.left_conditions, j.right_conditions),
            ),
        )
    }
}

/// The lines of a join: its equality conditions, and its other
/// conditions.
pub open spec fn join_lines(j: JoinView) -> Seq<Seq<char>> {
    seq![
        "equi conditions: ["@ + equi_text(j) + "]"@,
        "non-equi conditions: ["@ + joined(scalar_texts(j.non_equi_conditions), ", "@) + "]"@,
    ]
}

/// The texts of the scalars of the items.
pub open spec fn item_texts(items: Seq<ScalarItemView>) -> Seq<Seq<char>> {
    Seq::new(items.len(), |i: int| scalar_text(items[i].scalar))
}

/// The lines of an aggregation: its group items, and its aggregate
/// functions.
pub open spec fn aggregate_lines(a: AggregateView) -> Seq<Seq<char>> {
    seq![
        "group items: ["@ + joined(item_texts(a.group_items), ", "@) + "]"@,
        "aggregate functions: ["@ + joined(item_texts(a.aggregate_functions), ", "@) + "]"@,
    ]
}

/// The line of a filter: its predicates.
pub open spec fn filter_lines(f: FilterView) -> Seq<Seq<char>> {
    seq!["filters: ["@ + joined(scalar_texts(f.predicates), ", "@) + "]"@]
}

/// The text of an optional number: the numeral, or the given word.
pub open spec fn opt_number_text(n: Option<usize>, none: Seq<char>) -> Seq<char> {
    match n {
        Some(v) => decimal(v as nat),
        None => none,
    }
}

/// The lines of a limit: the limit, zero where there is none, and the
/// offset.
pub open spec fn limit_lines(l: Limit) -> Seq<Seq<char>> {
    seq![
        "limit: ["@ + opt_number_text(l.limit, "0"@) + "]"@,
        "offset: ["@ + decimal(l.offset as nat) + "]"@,
    ]
}

/// The text of a sort key: the name of its column, its index, and its
/// direction.
pub open spec fn sort_key_text(metadata: MetadataView, item: SortItem) -> Seq<char> {
    entry_name(metadata.columns[item.index as int]) + " (#"@ + decimal(item.index as nat) + ") "@
        + (if item.asc {
        "ASC"@
    } else {
        "DESC"@
    })
}

/// The texts of sort keys.
pub open spec fn sort_key_texts(metadata: MetadataView, items: Seq<SortItem>) -> Seq<Seq<char>> {
    Seq::new(items.len(), |i: int| sort_key_text(metadata, items[i]))
}

/// Whether the registry has the column of every sort key.
pub open spec fn sort_keys_known(metadata: MetadataView, items: Seq<SortItem>) -> bool {
    forall|i: int| 0 <= i < items.len() ==> (#[trigger] items[i]).index < metadata.columns.len()
}

/// The lines of a sort: its keys, and its limit.
pub open spec fn sort_lines(metadata: MetadataView, s: SortView) -> Seq<Seq<char>> {
    seq![
        "sort keys: ["@ + joined(sort_key_texts(metadata, s.items), ", "@) + "]"@,
        "limit: ["@ + opt_number_text(s.limit, "NONE"@) + "]"@,
    ]
}

/// The lines of a scan: its table, the filters pushed down to it, the
/// order pushed down to it, and the limit pushed down to it.
pub open spec fn scan_lines(metadata: MetadataView, s: ScanView) -> Seq<Seq<char>> {
    let table = metadata.tables[s.table_index as int];
    seq![
        "table: "@ + table.catalog + "."@ + table.database + "."@ + table.name,
        "filters: ["@ + (match s.push_down_predicates {
            Some(p) => joined(scalar_texts(p), ", "@),
            None => Seq::empty(),
        }) + "]"@,
        "order by: ["@ + (match s.order_by {
            Some(items) => joined(sort_key_texts(metadata, items), ", "@),
            None => Seq::empty(),
        }) + "]"@,
        "limit: "@ + opt_number_text(s.limit, "NONE"@),
    ]
}

/// Whether the registry has the table of the scan and the columns of its
/// order.
pub open spec fn scan_known(metadata: MetadataView, s: ScanView) -> bool {
    &&& s.table_index < metadata.tables.len()
    &&& match s.order_by {
        Some(items) => sort_keys_known(metadata, items),
        None => true,
    }
}

/// The text of the numeral of `n`, or `none` where there is no number.
pub fn format_opt_number(n: Option<usize>, none: &str) -> (s: String)
    ensures
        s@ == opt_number_text(n, none@),
{
    match n {
        Some(v) => usize_to_string(v),
        None => String::from_str(none),
    }
}

/// The texts of the scalars of `items`.
pub fn format_items(metadata: &Metadata, items: &Vec<ScalarItem>) -> (out: Vec<String>)
    ensures
        texts(out@) == item_texts(items_view(*items)),
{
    let mut out: Vec<String> = Vec::new();
    let mut i: usize = 0;
    while i < items.len()
        invariant
            i <= items.len(),
            out.len() == i,
            forall|j: int| 0 <= j < i ==> out[j]@ == scalar_text(items[j]@.scalar),
        decreases items.len() - i,
    {
        proof {
            reveal_with_fuel(item_view, 1);
        }
        out.push(format_scalar(metadata, &items[i].scalar));
        i = i + 1;
    }
    assert(texts(out@) =~= item_texts(items_view(*items)));
    out
}

/// The texts of the sort keys `items`, or an internal error where the
/// registry lacks the column of one.
pub fn format_sort_keys(metadata: &Metadata, items: &Vec<SortItem>) -> (r: Result<
    Vec<String>,
    ErrorCode,
>)
    ensures
        sort_keys_known(metadata@, items@) ==> r is Ok && texts(r->Ok_0@) == sort_key_texts(
            metadata@,
            items@,
        ),
        !sort_keys_known(metadata@, items@) ==> r is Err && r->Err_0.code == INTERNAL && r->Err_0.message@ == unknown_sort_key_message(),
{
    let mut out: Vec<String> = Vec::new();
    let mut i: usize = 0;
    while i < items.len()
        invariant
            i <= items.len(),
            out.len() == i,
            forall|j: int| 0 <= j < i ==> (#[trigger] items[j]).index < metadata@.columns.len(),
            forall|j: int| 0 <= j < i ==> out[j]@ == sort_key_text(metadata@, items[j]),
        decreases items.len() - i,
    {
        let item = items[i];
        let mut s = match metadata.column(item.index) {
            Some(entry) => entry.name(),
            None => {
                return Err(ErrorCode::internal("Sort key is not in the metadata"));
            },
        };
        s.append(" (#");
        push_decimal(&mut s, item.index as u64);
        s.append(") ");
        if item.asc {
            s.append("ASC");
        } else {
            s.append("DESC");
        }
        assert(s@ =~= sort_key_text(metadata@, item));
        out.push(s);
        i = i + 1;
    }
    assert(texts(out@) =~= sort_key_texts(metadata@, items@));
    Ok(out)
}

/// The equality of the pairs of keys of `op` as one scalar, where it has
/// a pair.
pub fn make_equi_chain(op: &Join) -> (r: Option<ScalarExpr>)
    ensures
        pairs(op@.left_conditions, op@.right_conditions) == 0 ==> r is None,
        pairs(op@.left_conditions, op@.right_conditions) > 0 ==> r is Some && r->Some_0@
            == equi_chain(
            op@.left_conditions,
            op@.right_conditions,
            pairs(op@.left_conditions, op@.right_conditions),
        ),
{
    let n = if op.left_conditions.len() <= op.right_conditions.len() {
        op.left_conditions.len()
    } else {
        op.right_conditions.len()
    };
    if n == 0 {
        return None;
    }
    let ghost left = op@.left_conditions;
    let ghost right = op@.right_conditions;
    let mut chain = ScalarExpr::ComparisonExpr {
        op: ComparisonOp::Equal,
        left: Box::new(clone_scalar(&op.left_conditions[0])),
        right: Box::new(clone_scalar(&op.right_conditions[0])),
    };
    proof {
        reveal_with_fuel(scalar_view, 2);
    }
    let mut i: usize = 1;
    while i < n
        invariant
            1 <= i <= n,
            n <= op.left_conditions.len(),
            n <= op.right_conditions.len(),
            left == op@.left_conditions,
            right == op@.right_conditions,
            chain@ == equi_chain(left, right, i as nat),
        decreases n - i,
    {
        let next = ScalarExpr::ComparisonExpr {
            op: ComparisonOp::Equal,
            left: Box::new(clone_scalar(&op.left_conditions[i])),
            right: Box::new(clone_scalar(&op.right_conditions[i])),
        };
        proof {
            reveal_with_fuel(scalar_view, 2);
        }
        chain = ScalarExpr::AndExpr { left: Box::new(chain), right: Box::new(next) };
        i = i + 1;
    }
    Some(chain)
}

/// The node of a join in the format tree of a logical plan.
pub fn logical_join_to_format_tree(
    op: &Join,
    metadata: &Metadata,
    children: Vec<FormatTreeNode>,
) -> (n: FormatTreeNode)
    ensures
        n@ == operator_node(RelOperatorView::Join(op@), join_lines(op@), nodes_view(children)),
{
    let equi_conditions = match make_equi_chain(op) {
        Some(pred) => format_scalar(metadata, &pred),
        None => String::new(),
    };
    let non_equi_conditions = format_scalars(metadata, &op.non_equi_conditions);
    let mut lines: Vec<String> = Vec::new();
    lines.push(bracketed("equi conditions: [", &equi_conditions));
    lines.push(bracketed("non-equi conditions: [", &join_strings(&non_equi_conditions, ", ")));
    let plan = RelOperator::Join(clone_join(op));
    proof {
        reveal_with_fuel(operator_view, 2);
        assert(texts(lines@) =~= join_lines(op@));
    }
    make_operator_node(&plan, lines, children)
}

/// The node of an aggregation in the format tree of a logical plan.
pub fn aggregate_to_format_tree(
    op: &Aggregate,
    metadata: &Metadata,
    children: Vec<FormatTreeNode>,
) -> (n: FormatTreeNode)
    ensures
        n@ == operator_node(
            RelOperatorView::Aggregate(op@),
            aggregate_lines(op@),
            nodes_view(children),
        ),
{
    let group_items = join_strings(&format_items(metadata, &op.group_items), ", ");
    let agg_funcs = join_strings(&format_items(metadata, &op.aggregate_functions), ", ");
    let mut lines: Vec<String> = Vec::new();
    lines.push(bracketed("group items: [", &group_items));
    lines.push(bracketed("aggregate functions: [", &agg_funcs));
    let plan = RelOperator::Aggregate(clone_aggregate(op));
    proof {
        reveal_with_fuel(operator_view, 2);
        assert(texts(lines@) =~= aggregate_lines(op@));
    }
    make_operator_node(&plan, lines, children)
}

/// The node of a filter in the format tree of a logical plan.
pub fn filter_to_format_tree(op: &Filter, metadata: &Metadata, children: Vec<FormatTreeNode>) -> (n:
    FormatTreeNode)
    ensures
        n@ == operator_node(RelOperatorView::Filter(op@), filter_lines(op@), nodes_view(children)),
{
    let scalars = join_strings(&format_scalars(metadata, &op.predicates), ", ");
    let mut lines: Vec<String> = Vec::new();
    lines.push(bracketed("filters: [", &scalars));
    let plan = RelOperator::Filter(clone_filter(op));
    proof {
        reveal_with_fuel(operator_view, 2);
        assert(texts(lines@) =~= filter_lines(op@));
    }
    make_operator_node(&plan, lines, children)
}

/// The node of a limit in the format tree of a logical plan.
pub fn limit_to_format_tree(op: &Limit, metadata: &Metadata, children: Vec<FormatTreeNode>) -> (n:
    FormatTreeNode)
    ensures
        n@ == operator_node(RelOperatorView::Limit(*op), limit_lines(*op), nodes_view(children)),
{
    let mut lines: Vec<String> = Vec::new();
    lines.push(bracketed("limit: [", &format_opt_number(op.limit, "0")));
    lines.push(bracketed("offset: [", &usize_to_string(op.offset)));
    let plan = RelOperator::Limit(*op);
    proof {
        reveal_with_fuel(operator_view, 2);
        assert(texts(lines@) =~= limit_lines(*op));
    }
    make_operator_node(&plan, lines, children)
}

/// The node of a sort in the format tree of a logical plan; an internal
/// error where the registry lacks the column of a sort key.
pub fn sort_to_format_tree(op: &Sort, metadata: &Metadata, children: Vec<FormatTreeNode>) -> (r:
    Result<FormatTreeNode, ErrorCode>)
    ensures
        sort_keys_known(metadata@, op.items@) ==> r is Ok && r->Ok_0@ == operator_node(
            RelOperatorView::Sort(op@),
            sort_lines(metadata@, op@),
            nodes_view(children),
        ),
        !sort_keys_known(metadata@, op.items@) ==> r is Err && r->Err_0.code == INTERNAL
            && r->Err_0.message@ == unknown_sort_key_message(),
{
    let keys = match format_sort_keys(metadata, &op.items) {
        Ok(k) => k,
        Err(e) => {
            return Err(e);
        },
    };
    let mut lines: Vec<String> = Vec::new();
    lines.push(bracketed("sort keys: [", &join_strings(&keys, ", ")));
    lines.push(bracketed("limit: [", &format_opt_number(op.limit, "NONE")));
    let plan = RelOperator::Sort(Sort { items: clone_sort_items(&op.items), limit: op.limit });
    proof {
        reveal_with_fuel(operator_view, 2);
        assert(texts(lines@) =~= sort_lines(metadata@, op@));
    }
    Ok(make_operator_node(&plan, lines, children))
}

/// The line that names the table of a scan.
pub fn format_table_line(table: &TableEntry) -> (s: String)
    ensures
        s@ == "table: "@ + table@.catalog + "."@ + table@.database + "."@ + table@.name,
{
    let mut s = String::from_str("table: ");
    s.append(table.catalog.as_str());
    s.append(".");
    s.append(table.database.as_str());
    s.append(".");
    s.append(table.name.as_str());
    s
}

/// The text of the filters pushed down to a scan.
pub fn format_pushed_filters(metadata: &Metadata, predicates: &Option<Vec<ScalarExpr>>) -> (s:
    String)
    ensures
        s@ == (match *predicates {
            Some(p) => joined(scalar_texts(scalars_view(p)), ", "@),
            None => Seq::empty(),
        }),
{
    match predicates {
        Some(p) => join_strings(&format_scalars(metadata, p), ", "),
        None => String::new(),
    }
}

/// The text of the order pushed down to a scan; an internal error where
/// the registry lacks the column of a key.
pub fn format_pushed_order(metadata: &Metadata, order_by: &Option<Vec<SortItem>>) -> (r: Result<
    String,
    ErrorCode,
>)
    ensures
        match *order_by {
            Some(items) => if sort_keys_known(metadata@, items@) {
                r is Ok && r->Ok_0@ == joined(sort_key_texts(metadata@, items@), ", "@)
            } else {
                r is Err && r->Err_0.code == INTERNAL && r->Err_0.message@ == unknown_sort_key_message()
            },
            None => r is Ok && r->Ok_0@ == Seq::<char>::empty(),
        },
{
    match order_by {
        Some(items) => match format_sort_keys(metadata, items) {
            Ok(keys) => Ok(join_strings(&keys, ", ")),
            Err(e) => Err(e),
        },
        None => Ok(String::new()),
    }
}

/// The lines of a scan; an internal error where the registry lacks the
/// table of the scan or the column of a key of its order.
pub fn format_scan_lines(op: &Scan, metadata: &Metadata) -> (r: Result<Vec<String>, ErrorCode>)
    ensures
        scan_known(metadata@, op@) ==> r is Ok && texts(r->Ok_0@) == scan_lines(metadata@, op@),
        !scan_known(metadata@, op@) ==> r is Err && r->Err_0.code == INTERNAL && r->Err_0.message@
            == unknown_message(metadata@, RelOperatorView::Scan(op@)),
{
    proof {
        reveal_with_fuel(scan_view, 1);
    }
    let table = match metadata.table(op.table_index) {
        Some(t) => t,
        None => {
            return Err(ErrorCode::internal("Table is not in the metadata"));
        },
    };
    let table_line = format_table_line(table);
    let filters = format_pushed_filters(metadata, &op.push_down_predicates);
    let order_by = match format_pushed_order(metadata, &op.order_by) {
        Ok(o) => o,
        Err(e) => {
            return Err(e);
        },
    };
    let filters_line = bracketed("filters: [", &filters);
    let order_line = bracketed("order by: [", &order_by);
    let limit_line = concat2("limit: ", format_opt_number(op.limit, "NONE").as_str());
    let mut lines: Vec<String> = Vec::new();
    lines.push(table_line);
    lines.push(filters_line);
    lines.push(order_line);
    lines.push(limit_line);
    proof {
        let want = scan_lines(metadata@, op@);
        assert(texts(lines@).len() == want.len());
        assert(texts(lines@)[0] == want[0]);
        assert(texts(lines@)[1] == want[1]);
        assert(texts(lines@)[2] == want[2]);
        assert(texts(lines@)[3] == want[3]);
        assert(texts(lines@) =~= want);
    }
    Ok(lines)
}

/// The node of a scan in the format tree of a logical plan; an internal
/// error where the registry lacks the table of the scan or the column of a
/// key of its order.
pub fn logical_get_to_format_tree(
    op: &Scan,
    metadata: &Metadata,
    children: Vec<FormatTreeNode>,
) -> (r: Result<FormatTreeNode, ErrorCode>)
    ensures
        scan_known(metadata@, op@) ==> r is Ok && r->Ok_0@ == operator_node(
            RelOperatorView::Scan(op@),
            scan_lines(metadata@, op@),
            nodes_view(children),
        ),
        !scan_known(metadata@, op@) ==> r is Err && r->Err_0.code == INTERNAL && r->Err_0.message@
            == unknown_message(metadata@, RelOperatorView::Scan(op@)),
{
    let lines = match format_scan_lines(op, metadata) {
        Ok(l) => l,
        Err(e) => {
            return Err(e);
        },
    };
    let plan = RelOperator::Scan(clone_scan(op));
    proof {
        reveal_with_fuel(operator_view, 1);
    }
    Ok(make_operator_node(&plan, lines, children))
}

/// The node of a scan in the format tree of a physical scan. It shows
/// what `logical_get_to_format_tree` shows.
pub fn scan_to_format_tree(op: &Scan, metadata: &Metadata, children: Vec<FormatTreeNode>) -> (r:
    Result<FormatTreeNode, ErrorCode>)
    ensures
        scan_known(metadata@, op@) ==> r is Ok && r->Ok_0@ == operator_node(
            RelOperatorView::Scan(op@),
            scan_lines(metadata@, op@),
            nodes_view(children),
        ),
        !scan_known(metadata@, op@) ==> r is Err && r->Err_0.code == INTERNAL && r->Err_0.message@
            == unknown_message(metadata@, RelOperatorView::Scan(op@)),
{
    logical_get_to_format_tree(op, metadata, children)
}

/// The lines of a hash join: the keys of the build side, those of the
/// probe side, and the other conditions.
pub open spec fn hash_join_lines(j: JoinView) -> Seq<Seq<char>> {
    seq![
        "build keys: ["@ + joined(scalar_texts(j.right_conditions), ", "@) + "]"@,
        "probe keys: ["@ + joined(scalar_texts(j.left_conditions), ", "@) + "]"@,
        "other filters: ["@ + joined(scalar_texts(j.non_equi_conditions), ", "@) + "]"@,
    ]
}

/// The node of a join, shown as a hash join.
pub fn join_to_format_tree(op: &Join, metadata: &Metadata, children: Vec<FormatTreeNode>) -> (n:
    FormatTreeNode)
    ensures
        n@ == operator_node(
            RelOperatorView::Join(op@),
            hash_join_lines(op@),
            nodes_view(children),
        ),
{
    let build_keys = join_strings(&format_scalars(metadata, &op.right_conditions), ", ");
    let probe_keys = join_strings(&format_scalars(metadata, &op.left_conditions), ", ");
    let join_filters = join_strings(&format_scalars(metadata, &op.non_equi_conditions), ", ");
    let mut lines: Vec<String> = Vec::new();
    lines.push(bracketed("build keys: [", &build_keys));
    lines.push(bracketed("probe keys: [", &probe_keys));
    lines.push(bracketed("other filters: [", &join_filters));
    let plan = RelOperator::Join(clone_join(op));
    proof {
        reveal_with_fuel(operator_view, 2);
        assert(texts(lines@) =~= hash_join_lines(op@));
    }
    make_operator_node(&plan, lines, children)
}

/// The line of an exchange by hash: its keys. Other exchanges have none.
pub open spec fn exchange_lines(x: ExchangeView) -> Seq<Seq<char>> {
    match x {
        ExchangeView::Hash(keys) => seq![
            "Exchange(Hash): keys: ["@ + joined(scalar_texts(keys), ", "@) + "]"@,
        ],
        _ => Seq::empty(),
    }
}

/// The node of an exchange in the format tree of a logical plan.
pub fn exchange_to_format_tree(
    op: &Exchange,
    metadata: &Metadata,
    children: Vec<FormatTreeNode>,
) -> (n: FormatTreeNode)
    ensures
        n@ == operator_node(
            RelOperatorView::Exchange(op@),
            exchange_lines(op@),
            nodes_view(children),
        ),
{
    let mut lines: Vec<String> = Vec::new();
    let plan = match op {
        Exchange::Hash(keys) => {
            lines.push(
                bracketed(
                    "Exchange(Hash): keys: [",
                    &join_strings(&format_scalars(metadata, keys), ", "),
                ),
            );
            RelOperator::Exchange(Exchange::Hash(clone_scalars(keys)))
        },
        Exchange::Random => RelOperator::Exchange(Exchange::Random),
        Exchange::Broadcast => RelOperator::Exchange(Exchange::Broadcast),
        Exchange::Merge => RelOperator::Exchange(Exchange::Merge),
    };
    proof {
        reveal_with_fuel(operator_view, 2);
        assert(texts(lines@) =~= exchange_lines(op@));
    }
    make_operator_node(&plan, lines, children)
}

/// Whether the first pair comes before the second, or is the same: by
/// first component, and by second among equal first components.
pub open spec fn pair_le(a: (usize, usize), b: (usize, usize)) -> bool {
    a.0 < b.0 || (a.0 == b.0 && a.1 <= b.1)
}

/// The pairs in increasing order.
///
/// Calls `Itertools::sorted`, which collects the items into a vector,
/// sorts the vector with `sort` and hands the items out again. The
/// standard library documents that `sort` leaves the elements ordered by
/// their `Ord`, which on pairs of integers compares the first components
/// and then the second. The contract states that the result holds the same
/// pairs as often as the argument, in that order.
#[verifier::external_body]
pub(crate) fn sorted_pairs(pairs: Vec<(usize, usize)>) -> (r: Vec<(usize, usize)>)
    ensures
        r@.to_multiset() == pairs@.to_multiset(),
        forall|i: int, j: int| 0 <= i < j < r.len() ==> pair_le(r[i], r[j]),
{
    pairs.into_iter().sorted().collect()
}

/// Whether the first pair comes strictly before the second.
pub open spec fn pair_lt(a: (usize, usize), b: (usize, usize)) -> bool {
    a.0 < b.0 || (a.0 == b.0 && a.1 < b.1)
}

/// Whether `order` lists the positions of `keys` by increasing key, and by
/// increasing position among equal keys.
pub open spec fn is_stable_order(order: Seq<usize>, keys: Seq<usize>) -> bool {
    &&& order.len() == keys.len()
    &&& forall|k: int| 0 <= k < order.len() ==> (#[trigger] order[k]) < keys.len()
    &&& forall|i: int, j: int|
        0 <= i < j < order.len() ==> pair_lt(
            (keys[order[i] as int], order[i]),
            (keys[order[j] as int], order[j]),
        )
}

/// The positions of `keys` by increasing key, and by increasing position
/// among equal keys.
pub open spec fn stable_order(keys: Seq<usize>) -> Seq<usize> {
    choose|order: Seq<usize>| is_stable_order(order, keys)
}

/// A stable order holds every position.
pub proof fn stable_order_holds_each(order: Seq<usize>, keys: Seq<usize>, p: usize)
    requires
        is_stable_order(order, keys),
        p < keys.len(),
    ensures
        order.contains(p),
{
    let n = keys.len();
    assert forall|i: int, j: int| 0 <= i < order.len() && 0 <= j < order.len() && i != j implies order[i] != order[j] by {
        if i < j {
            assert(pair_lt((keys[order[i] as int], order[i]), (keys[order[j] as int], order[j])));
        } else {
            assert(pair_lt((keys[order[j] as int], order[j]), (keys[order[i] as int], order[i])));
        }
    }
    assert(order.no_duplicates());
    let widen = |x: usize| x as int;
    let wide = order.map_values(widen);
    assert(vstd::relations::injective(widen));
    order.lemma_no_duplicates_injective(widen);
    wide.unique_seq_to_set();
    vstd::set_lib::lemma_int_range(0, n as int);
    let all = vstd::set_lib::set_int_range(0, n as int);
    assert forall|x: int| wide.to_set().contains(x) implies all.contains(x) by {
        let k = choose|k: int| 0 <= k < wide.len() && wide[k] == x;
        assert(order[k] < n);
    }
    vstd::set_lib::lemma_len_subset(wide.to_set(), all);
    vstd::set_lib::lemma_subset_equality(wide.to_set(), all);
    assert(all.contains(p as int));
    assert(wide.to_set().contains(p as int));
    let k = choose|k: int| 0 <= k < wide.len() && wide[k] == p as int;
    assert(order[k] == p);
}

/// There is one stable order of the positions of `keys` at most.
pub proof fn stable_order_is_unique(a: Seq<usize>, b: Seq<usize>, keys: Seq<usize>)
    requires
        is_stable_order(a, keys),
        is_stable_order(b, keys),
    ensures
        a == b,
{
    assert forall|i: int| 0 <= i < a.len() implies a[i] == b[i] by {
        same_up_to(a, b, keys, i);
    }
    assert(a =~= b);
}

/// Two stable orders agree at `i` and before.
proof fn same_up_to(a: Seq<usize>, b: Seq<usize>, keys: Seq<usize>, i: int)
    requires
        is_stable_order(a, keys),
        is_stable_order(b, keys),
        0 <= i < a.len(),
    ensures
        forall|j: int| 0 <= j <= i ==> a[j] == b[j],
    decreases i,
{
    if i > 0 {
        same_up_to(a, b, keys, i - 1);
    }
    if a[i] != b[i] {
        // Each of the two entries stands later in the other order, and so
        // comes after the other entry: that cannot be.
        stable_order_holds_each(a, keys, b[i]);
        let k = choose|k: int| 0 <= k < a.len() && a[k] == b[i];
        if k < i {
            assert(a[k] == b[k]);
            assert(pair_lt((keys[b[k] as int], b[k]), (keys[b[i] as int], b[i])));
        }
        assert(k > i);
        assert(pair_lt((keys[a[i] as int], a[i]), (keys[a[k] as int], a[k])));
        stable_order_holds_each(b, keys, a[i]);
        let m = choose|m: int| 0 <= m < b.len() && b[m] == a[i];
        if m < i {
            assert(a[m] == b[m]);
            assert(pair_lt((keys[a[m] as int], a[m]), (keys[a[i] as int], a[i])));
        }
        assert(m > i);
        assert(pair_lt((keys[b[i] as int], b[i]), (keys[b[m] as int], b[m])));
    }
}

/// The columns that the items define, item by item.
pub open spec fn item_keys(items: Seq<ScalarItemView>) -> Seq<usize> {
    Seq::new(items.len(), |i: int| items[i].index)
}

/// The positions of `items` in the order in which a projection shows
/// them: by the column they define, and as they stand among items for the
/// same column.
pub fn display_order(items: &Vec<ScalarItem>) -> (order: Vec<usize>)
    ensures
        order@ == stable_order(item_keys(items_view(*items))),
        order.len() == items.len(),
        forall|k: int| 0 <= k < order.len() ==> (#[trigger] order[k]) < items.len(),
{
    let ghost keys = item_keys(items_view(*items));
    let mut keyed: Vec<(usize, usize)> = Vec::new();
    let mut i: usize = 0;
    while i < items.len()
        invariant
            i <= items.len(),
            keys == item_keys(items_view(*items)),
            keyed.len() == i,
            forall|k: int| 0 <= k < i ==> keyed[k] == (keys[k], k as usize),
        decreases items.len() - i,
    {
        proof {
            reveal_with_fuel(item_view, 1);
        }
        keyed.push((items[i].index, i));
        i = i + 1;
    }
    let ghost before = keyed@;
    let sorted = sorted_pairs(keyed);
    proof {
        sorted@.to_multiset_ensures();
        before.to_multiset_ensures();
        assert(sorted.len() == before.len());
        assert(before.no_duplicates());
        before.lemma_multiset_has_no_duplicates();
        sorted@.lemma_multiset_has_no_duplicates_conv();
        assert forall|k: int| 0 <= k < sorted.len() implies (#[trigger] sorted[k]).1 < items.len()
            && sorted[k].0 == keys[sorted[k].1 as int] by {
            assert(sorted@.contains(sorted[k]));
            assert(sorted@.to_multiset().count(sorted[k]) > 0);
            assert(before.contains(sorted[k]));
            let at = choose|at: int| 0 <= at < before.len() && before[at] == sorted[k];
            assert(before[at] == (keys[at], at as usize));
        }
    }
    let mut order: Vec<usize> = Vec::new();
    let mut k: usize = 0;
    while k < sorted.len()
        invariant
            k <= sorted.len(),
            order.len() == k,
            sorted.len() == items.len(),
            forall|j: int| 0 <= j < k ==> order[j] == sorted[j].1,
        decreases sorted.len() - k,
    {
        order.push(sorted[k].1);
        k = k + 1;
    }
    proof {
        assert forall|a: int, b: int| 0 <= a < b < order.len() implies pair_lt(
            (keys[order[a] as int], order[a]),
            (keys[order[b] as int], order[b]),
        ) by {
            assert(pair_le(sorted[a], sorted[b]));
            assert(sorted[a].0 == keys[sorted[a].1 as int]);
            assert(sorted[b].0 == keys[sorted[b].1 as int]);
            assert(sorted[a] != sorted[b]);
        }
        assert forall|j: int| 0 <= j < order.len() implies (#[trigger] order[j]) < keys.len() by {
            assert(sorted[j].1 < items.len());
        }
        assert(is_stable_order(order@, keys));
        stable_order_is_unique(order@, stable_order(keys), keys);
    }
    order
}

/// The texts of the scalars of the items at the positions `order`.
pub open spec fn item_texts_in(items: Seq<ScalarItemView>, order: Seq<usize>) -> Seq<Seq<char>> {
    Seq::new(order.len(), |i: int| scalar_text(items[order[i] as int].scalar))
}

/// The line of a projection: the scalars of its items by the column they
/// define, and as they stand among items for the same column.
pub open spec fn eval_scalar_lines(e: EvalScalarView) -> Seq<Seq<char>> {
    seq![
        "scalars: ["@ + joined(item_texts_in(e.items, stable_order(item_keys(e.items))), ", "@)
            + "]"@,
    ]
}

/// The node of a projection in the format tree of a logical plan. The
/// scalars are shown by the column they define, and as they stand among
/// items for the same column.
pub fn eval_scalar_to_format_tree(
    op: &EvalScalar,
    metadata: &Metadata,
    children: Vec<FormatTreeNode>,
) -> (n: FormatTreeNode)
    ensures
        n@ == operator_node(
            RelOperatorView::EvalScalar(op@),
            eval_scalar_lines(op@),
            nodes_view(children),
        ),
{
    let order = display_order(&op.items);
    let mut parts: Vec<String> = Vec::new();
    let mut i: usize = 0;
    while i < order.len()
        invariant
            i <= order.len(),
            parts.len() == i,
            forall|j: int| 0 <= j < order.len() ==> (#[trigger] order[j]) < op.items.len(),
            forall|j: int|
                0 <= j < i ==> parts[j]@ == scalar_text(items_view(op.items)[order[j] as int].scalar),
        decreases order.len() - i,
    {
        let at = order[i];
        assert(at < op.items.len());
        proof {
            reveal_with_fuel(item_view, 1);
        }
        parts.push(format_scalar(metadata, &op.items[at].scalar));
        i = i + 1;
    }
    let mut lines: Vec<String> = Vec::new();
    lines.push(bracketed("scalars: [", &join_strings(&parts, ", ")));
    let plan = RelOperator::EvalScalar(EvalScalar { items: clone_items(&op.items) });
    proof {
        reveal_with_fuel(operator_view, 2);
        assert(texts(parts@) =~= item_texts_in(op@.items, order@));
        assert(texts(lines@) =~= eval_scalar_lines(op@));
    }
    make_operator_node(&plan, lines, children)
}

/// The message of the error for an operator that names what the
/// registry lacks: the table of a scan comes before its sort keys.
pub open spec fn unknown_message(metadata: MetadataView, op: RelOperatorView) -> Seq<char> {
    match op {
        RelOperatorView::Scan(s) => if s.table_index >= metadata.tables.len() {
            "Table is not in the metadata"@
        } else {
            unknown_sort_key_message()
        },
        _ => unknown_sort_key_message(),
    }
}

/// Whether the registry has what the lines of the operator name: the
/// table of a scan, and the column of every sort key.
pub open spec fn operator_known(metadata: MetadataView, op: RelOperatorView) -> bool {
    match op {
        RelOperatorView::Scan(s) => scan_known(metadata, s),
        RelOperatorView::Sort(s) => sort_keys_known(metadata, s.items),
        _ => true,
    }
}

/// The lines that show the attributes of an operator. An operator
/// without attributes to show has none.
#[verifier::opaque]
pub open spec fn operator_lines(op: RelOperatorView, metadata: MetadataView) -> Seq<Seq<char>> {
    match op {
        RelOperatorView::Join(j) => join_lines(j),
        RelOperatorView::Scan(s) => scan_lines(metadata, s),
        RelOperatorView::EvalScalar(e) => eval_scalar_lines(e),
        RelOperatorView::Filter(f) => filter_lines(f),
        RelOperatorView::Aggregate(a) => aggregate_lines(a),
        RelOperatorView::Sort(s) => sort_lines(metadata, s),
        RelOperatorView::Limit(l) => limit_lines(l),
        RelOperatorView::Exchange(x) => exchange_lines(x),
        _ => Seq::empty(),
    }
}

/// The node of the operator `op` over the nodes `children` of its inputs.
pub open spec fn node_of(
    op: RelOperatorView,
    metadata: MetadataView,
    children: Seq<FormatTreeNodeView>,
) -> FormatTreeNodeView {
    operator_node(op, operator_lines(op, metadata), children)
}

/// Whether the registry has what the lines of every operator of the plan
/// name.
pub open spec fn plan_known(metadata: MetadataView, plan: SExprView) -> bool
    decreases plan,
{
    &&& operator_known(metadata, plan.plan)
    &&& forall|i: int|
        0 <= i < plan.children.len() ==> plan_known(metadata, #[trigger] plan.children[i])
}

/// The format tree of a plan: the node of its root operator over the
/// format trees of its inputs.
pub open spec fn format_tree(plan: SExprView, metadata: MetadataView) -> FormatTreeNodeView
    decreases plan, 0nat,
{
    node_of(plan.plan, metadata, format_trees(plan.children, metadata))
}

/// The format trees of the plans.
pub open spec fn format_trees(plans: Seq<SExprView>, metadata: MetadataView) -> Seq<
    FormatTreeNodeView,
>
    decreases plans, 1nat,
{
    Seq::new(
        plans.len(),
        |i: int|
            if 0 <= i < plans.len() {
                format_tree(plans[i], metadata)
            } else {
                arbitrary()
            },
    )
}

/// Builds the node of `rel_operator` over the nodes `children` of its
/// inputs; an internal error where the registry lacks what the lines of the
/// operator name.
pub fn to_format_tree(
    rel_operator: &RelOperator,
    metadata: &Metadata,
    children: Vec<FormatTreeNode>,
) -> (r: Result<FormatTreeNode, ErrorCode>)
    ensures
        operator_known(metadata@, rel_operator@) ==> r is Ok && r->Ok_0@ == node_of(
            rel_operator@,
            metadata@,
            nodes_view(children),
        ),
        !operator_known(metadata@, rel_operator@) ==> r is Err && r->Err_0.code == INTERNAL
            && r->Err_0.message@ == unknown_message(metadata@, rel_operator@),
{
    proof {
        reveal(operator_lines);
    }
    match rel_operator {
        RelOperator::Join(op) => {
            proof {
                reveal_with_fuel(operator_view, 2);
            }
            Ok(logical_join_to_format_tree(op, metadata, children))
        },
        RelOperator::Scan(op) => {
            proof {
                reveal_with_fuel(operator_view, 2);
            }
            logical_get_to_format_tree(op, metadata, children)
        },
        RelOperator::EvalScalar(op) => {
            proof {
                reveal_with_fuel(operator_view, 2);
            }
            Ok(eval_scalar_to_format_tree(op, metadata, children))
        },
        RelOperator::Filter(op) => {
            proof {
                reveal_with_fuel(operator_view, 2);
            }
            Ok(filter_to_format_tree(op, metadata, children))
        },
        RelOperator::Aggregate(op) => {
            proof {
                reveal_with_fuel(operator_view, 2);
            }
            Ok(aggregate_to_format_tree(op, metadata, children))
        },
        RelOperator::Sort(op) => {
            proof {
                reveal_with_fuel(operator_view, 2);
            }
            sort_to_format_tree(op, metadata, children)
        },
        RelOperator::Limit(op) => {
            proof {
                reveal_with_fuel(operator_view, 2);
            }
            Ok(limit_to_format_tree(op, metadata, children))
        },
        RelOperator::Exchange(op) => {
            proof {
                reveal_with_fuel(operator_view, 2);
            }
            Ok(exchange_to_format_tree(op, metadata, children))
        },
        _ => {
            proof {
                reveal_with_fuel(operator_view, 1);
            }
            let lines: Vec<String> = Vec::new();
            assert(texts(lines@) =~= Seq::empty());
            Ok(make_operator_node(rel_operator, lines, children))
        },
    }
}

/// The message of the error with which building the format tree fails,
/// `None` where it does not fail: that of the first failure. The inputs of
/// a node come before the node, the first input first.
pub open spec fn tree_failure(plan: SExprView, metadata: MetadataView) -> Option<Seq<char>>
    decreases plan, 0nat,
{
    match trees_failure(plan.children, 0, metadata) {
        Some(m) => Some(m),
        None => if operator_known(metadata, plan.plan) {
            None
        } else {
            Some(unknown_message(metadata, plan.plan))
        },
    }
}

/// The first failure among the plans from position `from` on.
pub open spec fn trees_failure(plans: Seq<SExprView>, from: nat, metadata: MetadataView) -> Option<
    Seq<char>,
>
    decreases plans, plans.len() - from,
{
    if from >= plans.len() {
        None
    } else {
        match tree_failure(plans[from as int], metadata) {
            Some(m) => Some(m),
            None => trees_failure(plans, from + 1, metadata),
        }
    }
}

/// Building the format tree fails exactly where the registry lacks what
/// an operator of the plan names.
pub proof fn tree_failure_matches(plan: SExprView, metadata: MetadataView)
    ensures
        tree_failure(plan, metadata) is None <==> plan_known(metadata, plan),
    decreases plan, 0nat,
{
    trees_failure_matches(plan.children, 0, metadata);
}

/// Building the format trees of plans fails exactly where the registry
/// lacks what an operator of one of them names.
pub proof fn trees_failure_matches(plans: Seq<SExprView>, from: nat, metadata: MetadataView)
    ensures
        trees_failure(plans, from, metadata) is None <==> (forall|i: int|
            from <= i < plans.len() ==> plan_known(metadata, #[trigger] plans[i])),
    decreases plans, plans.len() - from,
{
    if from < plans.len() {
        tree_failure_matches(plans[from as int], metadata);
        trees_failure_matches(plans, from + 1, metadata);
    }
}

/// The first failure among plans is that of the first plan that fails.
pub proof fn trees_failure_is_first(
    plans: Seq<SExprView>,
    from: nat,
    at: nat,
    metadata: MetadataView,
)
    requires
        from <= at < plans.len(),
        forall|j: int| from <= j < at ==> plan_known(metadata, #[trigger] plans[j]),
        !plan_known(metadata, plans[at as int]),
    ensures
        trees_failure(plans, from, metadata) == tree_failure(plans[at as int], metadata),
    decreases at - from,
{
    tree_failure_matches(plans[from as int], metadata);
    if from < at {
        trees_failure_is_first(plans, from + 1, at, metadata);
    }
}

/// Builds the format trees of the plans, in their order.
fn plans_to_format_trees(plans: &Vec<SExpr>, metadata: &Metadata) -> (r: Result<
    Vec<FormatTreeNode>,
    ErrorCode,
>)
    ensures
        (forall|i: int|
            0 <= i < plans.len() ==> plan_known(metadata@, #[trigger] sexprs_view(*plans)[i]))
            <==> r is Ok,
        r is Err ==> r->Err_0.code == INTERNAL,
        r is Err ==> Some(r->Err_0.message@) == trees_failure(sexprs_view(*plans), 0, metadata@),
        r is Ok ==> nodes_view(r->Ok_0) == format_trees(sexprs_view(*plans), metadata@),
    decreases plans,
{
    let ghost all = sexprs_view(*plans);
    let mut nodes: Vec<FormatTreeNode> = Vec::new();
    let mut i: usize = 0;
    while i < plans.len()
        invariant
            i <= plans.len(),
            all == sexprs_view(*plans),
            nodes.len() == i,
            forall|k: int| 0 <= k < i ==> plan_known(metadata@, #[trigger] all[k]),
            forall|k: int| 0 <= k < i ==> (#[trigger] nodes[k])@ == format_tree(all[k], metadata@),
        decreases plans.len() - i,
    {
        match plan_to_format_tree(&plans[i], metadata) {
            Ok(node) => {
                nodes.push(node);
            },
            Err(e) => {
                assert(!plan_known(metadata@, all[i as int]));
                proof {
                    trees_failure_is_first(all, 0, i as nat, metadata@);
                }
                return Err(e);
            },
        }
        i = i + 1;
    }
    proof {
        reveal_with_fuel(format_trees, 2);
        assert(nodes_view(nodes) =~= format_trees(all, metadata@));
    }
    Ok(nodes)
}

/// Builds the format tree of a plan; an internal error where the registry
/// lacks what the lines of one of its operators name.
pub fn plan_to_format_tree(plan: &SExpr, metadata: &Metadata) -> (r: Result<
    FormatTreeNode,
    ErrorCode,
>)
    ensures
        plan_known(metadata@, plan@) ==> r is Ok && r->Ok_0@ == format_tree(plan@, metadata@),
        !plan_known(metadata@, plan@) ==> r is Err && r->Err_0.code == INTERNAL,
        r is Err ==> Some(r->Err_0.message@) == tree_failure(plan@, metadata@),
    decreases plan,
{
    proof {
        sexpr_view_parts(*plan);
        trees_failure_matches(plan@.children, 0, metadata@);
        reveal_with_fuel(format_tree, 2);
    }
    let children = match plans_to_format_trees(&plan.children, metadata) {
        Ok(c) => c,
        Err(e) => {
            return Err(e);
        },
    };
    to_format_tree(&plan.plan, metadata, children)
}

impl SExpr {
    /// The format tree of this plan.
    pub fn to_format_tree(&self, metadata: &Metadata) -> (r: Result<FormatTreeNode, ErrorCode>)
        ensures
            plan_known(metadata@, self@) ==> r is Ok && r->Ok_0@ == format_tree(self@, metadata@),
            !plan_known(metadata@, self@) ==> r is Err && r->Err_0.code == INTERNAL,
            r is Err ==> Some(r->Err_0.message@) == tree_failure(self@, metadata@),
    {
        plan_to_format_tree(self, metadata)
    }
}

} // verus!
