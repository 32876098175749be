//! Deep copies of the nodes of the expression tree.
//!
//! A pass never changes its input: it builds a new tree and copies what it
//! keeps. Each function here returns a value with the same view as its
//! argument.

use crate::ir::{Aggregate, AggregateFunction, EvalScalar, Exchange, Filter, Join, Literal, Prewhere, RelOperator, RuntimeFilterSource, SExpr, SExprView, ScalarExpr, ScalarItem, Scan, Sort, SortItem, SubqueryExpr, UnionAll, Window, WindowFunc, index_lists_view, items_view, literals_view, scalars_view, sexprs_view};
use crate::prune::{arity};
use vstd::prelude::*;

verus! {

/// A copy of a vector of indexes.
pub fn clone_indexes(v: &Vec<usize>) -> (out: Vec<usize>)
    ensures
        out@ == v@,
{
    let out = v.clone();
    assert(out@ =~= v@);
    out
}

/// A copy of a vector of vectors of indexes.
pub fn clone_index_lists(v: &Vec<Vec<usize>>) -> (out: Vec<Vec<usize>>)
    ensures
        index_lists_view(out) == index_lists_view(*v),
{
    let mut out: Vec<Vec<usize>> = Vec::new();
    let mut i: usize = 0;
    while i < v.len()
        invariant
            i <= v.len(),
            out.len() == i,
            forall|j: int| 0 <= j < i ==> out[j]@ == v[j]@,
        decreases v.len() - i,
    {
        out.push(clone_indexes(&v[i]));
        i = i + 1;
    }
    assert(index_lists_view(out) =~= index_lists_view(*v));
    out
}

/// A copy of a vector of index pairs.
pub fn clone_pairs(v: &Vec<(usize, usize)>) -> (out: Vec<(usize, usize)>)
    ensures
        out@ == v@,
{
    let mut out: Vec<(usize, usize)> = Vec::new();
    let mut i: usize = 0;
    while i < v.len()
        invariant
            i <= v.len(),
            out.len() == i,
            forall|j: int| 0 <= j < i ==> out[j] == v[j],
        decreases v.len() - i,
    {
        let p = v[i];
        out.push((p.0, p.1));
        i = i + 1;
    }
    assert(out@ =~= v@);
    out
}

/// A copy of a vector of sort keys.
pub fn clone_sort_items(v: &Vec<SortItem>) -> (out: Vec<SortItem>)
    ensures
        out@ == v@,
{
    let mut out: Vec<SortItem> = Vec::new();
    let mut i: usize = 0;
    while i < v.len()
        invariant
            i <= v.len(),
            out.len() == i,
            forall|j: int| 0 <= j < i ==> out[j] == v[j],
        decreases v.len() - i,
    {
        let item = v[i];
        out.push(item);
        i = i + 1;
    }
    assert(out@ =~= v@);
    out
}

/// A copy of a vector of constants.
pub fn clone_literals(v: &Vec<Literal>) -> (out: Vec<Literal>)
    ensures
        literals_view(out) == literals_view(*v),
{
    let mut out: Vec<Literal> = Vec::new();
    let mut i: usize = 0;
    while i < v.len()
        invariant
            i <= v.len(),
            out.len() == i,
            forall|j: int| 0 <= j < i ==> out[j]@ == v[j]@,
        decreases v.len() - i,
    {
        out.push(v[i].clone());
        i = i + 1;
    }
    assert(literals_view(out) =~= literals_view(*v));
    out
}

/// A copy of a scalar expression.
pub fn clone_scalar(e: &ScalarExpr) -> (r: ScalarExpr)
    ensures
        r@ == e@,
    decreases e,
{
    match e {
        ScalarExpr::BoundColumnRef { span, column } => ScalarExpr::BoundColumnRef {
            span: *span,
            column: column.clone(),
        },
        ScalarExpr::BoundInternalColumnRef { span, column } => ScalarExpr::BoundInternalColumnRef {
            span: *span,
            column: column.clone(),
        },
        ScalarExpr::ConstantExpr { span, value, data_type } => ScalarExpr::ConstantExpr {
            span: *span,
            value: value.clone(),
            data_type: data_type.clone(),
        },
        ScalarExpr::AndExpr { left, right } => ScalarExpr::AndExpr {
            left: Box::new(clone_scalar(left)),
            right: Box::new(clone_scalar(right)),
        },
        ScalarExpr::OrExpr { left, right } => ScalarExpr::OrExpr {
            left: Box::new(clone_scalar(left)),
            right: Box::new(clone_scalar(right)),
        },
        ScalarExpr::NotExpr { argument } => ScalarExpr::NotExpr {
            argument: Box::new(clone_scalar(argument)),
        },
        ScalarExpr::ComparisonExpr { op, left, right } => ScalarExpr::ComparisonExpr {
            op: *op,
            left: Box::new(clone_scalar(left)),
            right: Box::new(clone_scalar(right)),
        },
        ScalarExpr::FunctionCall {
            span,
            func_name,
            params,
            arguments,
            return_type,
        } => ScalarExpr::FunctionCall {
            span: *span,
            func_name: func_name.clone(),
            params: clone_indexes(params),
            arguments: clone_scalars(arguments),
            return_type: return_type.clone(),
        },
        ScalarExpr::CastExpr { span, is_try, argument, target_type } => ScalarExpr::CastExpr {
            span: *span,
            is_try: *is_try,
            argument: Box::new(clone_scalar(argument)),
            target_type: target_type.clone(),
        },
        ScalarExpr::AggregateFunction(f) => ScalarExpr::AggregateFunction(
            clone_aggregate_function(f),
        ),
        ScalarExpr::WindowFunction(f) => ScalarExpr::WindowFunction(clone_window_func(f)),
        ScalarExpr::Unnest { argument, return_type } => ScalarExpr::Unnest {
            argument: Box::new(clone_scalar(argument)),
            return_type: return_type.clone(),
        },
        ScalarExpr::SubqueryExpr(q) => ScalarExpr::SubqueryExpr(clone_subquery(q)),
    }
}

/// A copy of a vector of scalar expressions.
pub fn clone_scalars(v: &Vec<ScalarExpr>) -> (out: Vec<ScalarExpr>)
    ensures
        scalars_view(out) == scalars_view(*v),
    decreases v,
{
    let mut out: Vec<ScalarExpr> = Vec::new();
    let mut i: usize = 0;
    while i < v.len()
        invariant
            i <= v.len(),
            out.len() == i,
            forall|j: int| 0 <= j < i ==> out[j]@ == v[j]@,
        decreases v.len() - i,
    {
        out.push(clone_scalar(&v[i]));
        i = i + 1;
    }
    assert(scalars_view(out) =~= scalars_view(*v));
    out
}

/// A copy of a call of an aggregate function.
pub fn clone_aggregate_function(f: &AggregateFunction) -> (r: AggregateFunction)
    ensures
        r@ == f@,
    decreases f,
{
    AggregateFunction {
        display_name: f.display_name.clone(),
        func_name: f.func_name.clone(),
        distinct: f.distinct,
        params: clone_literals(&f.params),
        args: clone_scalars(&f.args),
        return_type: f.return_type.clone(),
    }
}

/// A copy of a window function call.
pub fn clone_window_func(f: &WindowFunc) -> (r: WindowFunc)
    ensures
        r@ == f@,
    decreases f,
{
    WindowFunc {
        agg_func: clone_aggregate_function(&f.agg_func),
        partition_by: clone_scalars(&f.partition_by),
    }
}

/// A copy of a subquery.
pub fn clone_subquery(q: &SubqueryExpr) -> (r: SubqueryExpr)
    ensures
        r@ == q@,
    decreases q,
{
    SubqueryExpr {
        span: q.span,
        typ: q.typ,
        subquery: Box::new(clone_sexpr(&q.subquery)),
        child_expr: match &q.child_expr {
            Some(e) => Some(Box::new(clone_scalar(e))),
            None => None,
        },
        compare_op: q.compare_op,
        output_column: q.output_column.clone(),
        projection_index: q.projection_index,
        data_type: q.data_type.clone(),
        outer_columns: q.outer_columns.clone(),
    }
}

/// A copy of a scalar item.
pub fn clone_item(item: &ScalarItem) -> (r: ScalarItem)
    ensures
        r@ == item@,
    decreases item,
{
    ScalarItem { scalar: clone_scalar(&item.scalar), index: item.index }
}

/// A copy of a vector of scalar items.
pub fn clone_items(v: &Vec<ScalarItem>) -> (out: Vec<ScalarItem>)
    ensures
        items_view(out) == items_view(*v),
    decreases v,
{
    let mut out: Vec<ScalarItem> = Vec::new();
    let mut i: usize = 0;
    while i < v.len()
        invariant
            i <= v.len(),
            out.len() == i,
            forall|j: int| 0 <= j < i ==> out[j]@ == v[j]@,
        decreases v.len() - i,
    {
        out.push(clone_item(&v[i]));
        i = i + 1;
    }
    assert(items_view(out) =~= items_view(*v));
    out
}

/// A copy of a prewhere filter.
pub fn clone_prewhere(p: &Prewhere) -> (r: Prewhere)
    ensures
        r@ == p@,
    decreases p,
{
    Prewhere {
        output_columns: p.output_columns.clone(),
        prewhere_columns: p.prewhere_columns.clone(),
        predicates: clone_scalars(&p.predicates),
    }
}

/// A copy of a scan.
pub fn clone_scan(s: &Scan) -> (r: Scan)
    ensures
        r@ == s@,
    decreases s,
{
    Scan {
        table_index: s.table_index,
        columns: s.columns.clone(),
        push_down_predicates: match &s.push_down_predicates {
            Some(v) => Some(clone_scalars(v)),
            None => None,
        },
        limit: s.limit,
        order_by: match &s.order_by {
            Some(v) => Some(clone_sort_items(v)),
            None => None,
        },
        prewhere: match &s.prewhere {
            Some(p) => Some(clone_prewhere(p)),
            None => None,
        },
    }
}

/// A copy of a join.
pub fn clone_join(j: &Join) -> (r: Join)
    ensures
        r@ == j@,
    decreases j,
{
    Join {
        left_conditions: clone_scalars(&j.left_conditions),
        right_conditions: clone_scalars(&j.right_conditions),
        non_equi_conditions: clone_scalars(&j.non_equi_conditions),
        join_type: j.join_type,
        marker_index: j.marker_index,
        from_correlated_subquery: j.from_correlated_subquery,
        contain_runtime_filter: j.contain_runtime_filter,
    }
}

/// A copy of a filter.
pub fn clone_filter(f: &Filter) -> (r: Filter)
    ensures
        r@ == f@,
    decreases f,
{
    Filter { predicates: clone_scalars(&f.predicates), is_having: f.is_having }
}

/// A copy of an aggregation.
pub fn clone_aggregate(a: &Aggregate) -> (r: Aggregate)
    ensures
        r@ == a@,
    decreases a,
{
    Aggregate {
        mode: a.mode,
        group_items: clone_items(&a.group_items),
        aggregate_functions: clone_items(&a.aggregate_functions),
        from_distinct: a.from_distinct,
        limit: a.limit,
        grouping_id_index: a.grouping_id_index,
        grouping_sets: clone_index_lists(&a.grouping_sets),
    }
}

/// A copy of a relational operator.
pub fn clone_operator(op: &RelOperator) -> (r: RelOperator)
    ensures
        r@ == op@,
    decreases op,
{
    match op {
        RelOperator::Scan(s) => RelOperator::Scan(clone_scan(s)),
        RelOperator::Join(j) => RelOperator::Join(clone_join(j)),
        RelOperator::EvalScalar(e) => RelOperator::EvalScalar(
            EvalScalar { items: clone_items(&e.items) },
        ),
        RelOperator::Filter(f) => RelOperator::Filter(clone_filter(f)),
        RelOperator::Aggregate(a) => RelOperator::Aggregate(clone_aggregate(a)),
        RelOperator::Sort(s) => RelOperator::Sort(
            Sort { items: clone_sort_items(&s.items), limit: s.limit },
        ),
        RelOperator::Limit(l) => RelOperator::Limit(*l),
        RelOperator::Exchange(x) => RelOperator::Exchange(
            match x {
                Exchange::Random => Exchange::Random,
                Exchange::Hash(keys) => Exchange::Hash(clone_scalars(keys)),
                Exchange::Broadcast => Exchange::Broadcast,
                Exchange::Merge => Exchange::Merge,
            },
        ),
        RelOperator::UnionAll(u) => RelOperator::UnionAll(UnionAll { pairs: clone_pairs(&u.pairs) }),
        RelOperator::DummyTableScan => RelOperator::DummyTableScan,
        RelOperator::RuntimeFilterSource(r) => RelOperator::RuntimeFilterSource(
            RuntimeFilterSource {
                left_runtime_filter: clone_scalars(&r.left_runtime_filter),
                right_runtime_filter: clone_scalars(&r.right_runtime_filter),
            },
        ),
        RelOperator::Window(w) => RelOperator::Window(
            Window { index: w.index, function: clone_window_func(&w.function) },
        ),
        RelOperator::Pattern(k) => RelOperator::Pattern(*k),
    }
}

/// A copy of a plan.
pub fn clone_sexpr(e: &SExpr) -> (r: SExpr)
    ensures
        r@ == e@,
    decreases e,
{
    SExpr {
        plan: clone_operator(&e.plan),
        children: clone_sexprs(&e.children),
        applied_rules: e.applied_rules,
    }
}

/// A copy of a vector of plans.
pub fn clone_sexprs(v: &Vec<SExpr>) -> (out: Vec<SExpr>)
    ensures
        sexprs_view(out) == sexprs_view(*v),
    decreases v,
{
    let mut out: Vec<SExpr> = Vec::new();
    let mut i: usize = 0;
    while i < v.len()
        invariant
            i <= v.len(),
            out.len() == i,
            forall|j: int| 0 <= j < i ==> out[j]@ == v[j]@,
        decreases v.len() - i,
    {
        out.push(clone_sexpr(&v[i]));
        i = i + 1;
    }
    assert(sexprs_view(out) =~= sexprs_view(*v));
    out
}

impl Clone for ScalarExpr {
    fn clone(&self) -> (r: ScalarExpr)
        ensures
            r@ == self@,
    {
        clone_scalar(self)
    }
}

impl Clone for ScalarItem {
    fn clone(&self) -> (r: ScalarItem)
        ensures
            r@ == self@,
    {
        clone_item(self)
    }
}

impl Clone for SubqueryExpr {
    fn clone(&self) -> (r: SubqueryExpr)
        ensures
            r@ == self@,
    {
        clone_subquery(self)
    }
}

impl Clone for RelOperator {
    fn clone(&self) -> (r: RelOperator)
        ensures
            r@ == self@,
    {
        clone_operator(self)
    }
}

impl Clone for SExpr {
    fn clone(&self) -> (r: SExpr)
        ensures
            r@ == self@,
    {
        clone_sexpr(self)
    }
}

impl Clone for Join {
    fn clone(&self) -> (r: Join)
        ensures
            r@ == self@,
    {
        clone_join(self)
    }
}

impl Clone for Filter {
    fn clone(&self) -> (r: Filter)
        ensures
            r@ == self@,
    {
        clone_filter(self)
    }
}

impl Clone for Aggregate {
    fn clone(&self) -> (r: Aggregate)
        ensures
            r@ == self@,
    {
        clone_aggregate(self)
    }
}

impl Clone for Scan {
    fn clone(&self) -> (r: Scan)
        ensures
            r@ == self@,
    {
        clone_scan(self)
    }
}

impl Clone for AggregateFunction {
    fn clone(&self) -> (r: AggregateFunction)
        ensures
            r@ == self@,
    {
        clone_aggregate_function(self)
    }
}

impl Clone for WindowFunc {
    fn clone(&self) -> (r: WindowFunc)
        ensures
            r@ == self@,
    {
        clone_window_func(self)
    }
}

impl Clone for Prewhere {
    fn clone(&self) -> (r: Prewhere)
        ensures
            r@ == self@,
    {
        clone_prewhere(self)
    }
}

impl Clone for EvalScalar {
    fn clone(&self) -> (r: EvalScalar)
        ensures
            r@ == self@,
    {
        EvalScalar { items: clone_items(&self.items) }
    }
}

impl Clone for Sort {
    fn clone(&self) -> (r: Sort)
        ensures
            r@ == self@,
    {
        Sort { items: clone_sort_items(&self.items), limit: self.limit }
    }
}

impl Clone for UnionAll {
    fn clone(&self) -> (r: UnionAll)
        ensures
            r@ == self@,
    {
        UnionAll { pairs: clone_pairs(&self.pairs) }
    }
}

impl Clone for Exchange {
    fn clone(&self) -> (r: Exchange)
        ensures
            r@ == self@,
    {
        match self {
            Exchange::Random => Exchange::Random,
            Exchange::Hash(keys) => Exchange::Hash(clone_scalars(keys)),
            Exchange::Broadcast => Exchange::Broadcast,
            Exchange::Merge => Exchange::Merge,
        }
    }
}

/// The message of the error for a node that lacks an input.
pub open spec fn missing_input_message() -> Seq<char> {
    "Invalid children index"@
}

impl SExpr {
    /// A node without inputs.
    pub fn create_leaf(plan: RelOperator) -> (r: SExpr)
        ensures
            r@ == (SExprView { plan: plan@, children: Seq::empty(), applied_rules: 0 }),
    {
        let r = SExpr { plan, children: Vec::new(), applied_rules: 0 };
        assert(r@.children =~= Seq::empty());
        r
    }

    /// A node with one input.
    pub fn create_unary(plan: RelOperator, child: SExpr) -> (r: SExpr)
        ensures
            r@ == (SExprView { plan: plan@, children: seq![child@], applied_rules: 0 }),
    {
        let mut children: Vec<SExpr> = Vec::new();
        children.push(child);
        let r = SExpr { plan, children, applied_rules: 0 };
        assert(r@.children =~= seq![child@]);
        r
    }

    /// A node with two inputs.
    pub fn create_binary(plan: RelOperator, left: SExpr, right: SExpr) -> (r: SExpr)
        ensures
            r@ == (SExprView { plan: plan@, children: seq![left@, right@], applied_rules: 0 }),
    {
        let mut children: Vec<SExpr> = Vec::new();
        children.push(left);
        children.push(right);
        let r = SExpr { plan, children, applied_rules: 0 };
        assert(r@.children =~= seq![left@, right@]);
        r
    }

    /// The operator of this node.
    pub fn plan(&self) -> (p: &RelOperator)
        ensures
            p@ == self@.plan,
            *p == self.plan,
    {
        &self.plan
    }

    /// The inputs of this node.
    pub fn children(&self) -> (c: &Vec<SExpr>)
        ensures
            sexprs_view(*c) == self@.children,
            *c == self.children,
    {
        &self.children
    }

    /// The number of inputs.
    pub fn arity(&self) -> (n: usize)
        ensures
            n == self@.children.len(),
    {
        self.children.len()
    }

    /// The input at position `n`, or an internal error if there is none.
    pub fn child(&self, n: usize) -> (r: Result<&SExpr, crate::error::ErrorCode>)
        ensures
            n < self@.children.len() ==> r is Ok && r->Ok_0@ == self@.children[n as int]
                && *r->Ok_0 == self.children[n as int],
            n >= self@.children.len() ==> r is Err && r->Err_0.code == crate::error::INTERNAL
                && r->Err_0.message@ == missing_input_message(),
    {
        if n < self.children.len() {
            Ok(&self.children[n])
        } else {
            Err(crate::error::ErrorCode::internal("Invalid children index"))
        }
    }
}

} // verus!
