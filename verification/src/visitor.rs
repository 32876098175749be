//! A visitor over scalar expressions that walks the tree with an explicit
//! stack instead of recursion, so that a deeply nested expression cannot
//! exhaust the call stack.
//!
//! The walk visits a node before its children and once more after them.
//! The children of a node are taken off the stack in the reverse of the
//! order in which they stand in the node.

use crate::error::{ErrorCode};
use crate::ir::{AggregateFunction, ScalarExpr, ScalarView, scalar_view, scalars_view};
use vstd::prelude::*;

verus! {

/// How the walk goes on after a node has been visited.
pub enum Recursion<V> {
    /// Visit the children of the node.
    Continue(V),
    /// Do not visit the children of the node.
    Stop(V),
}

/// The error that a visitor gives: its code and its message.
pub ghost struct VisitFailure {
    pub code: u16,
    pub message: Seq<char>,
}

/// A visitor of scalar expressions.
///
/// The two `*_model` functions say, over views, what the two visit
/// methods do: the state after the visit, and for `pre_model` whether the
/// children are to be walked, or the code of the error that ends the walk.
pub trait ScalarVisitor: Sized + View {
    /// What `pre_visit` does.
    spec fn pre_model(v: Self::V, scalar: ScalarView) -> Result<(bool, Self::V), VisitFailure>;

    /// What `post_visit` does.
    spec fn post_model(v: Self::V, scalar: ScalarView) -> Result<Self::V, VisitFailure>;

    /// Called before any child of `scalar` is visited.
    fn pre_visit(self, scalar: &ScalarExpr) -> (r: Result<Recursion<Self>, ErrorCode>)
        ensures
            match Self::pre_model(self@, scalar@) {
                Ok((go_on, v)) => r is Ok && (r->Ok_0 is Continue) == go_on && carried(r->Ok_0)@
                    == v,
                Err(e) => r is Err && r->Err_0.code == e.code && r->Err_0.message@ == e.message,
            },
    ;

    /// Called after all children of `scalar` have been visited.
    fn post_visit(self, scalar: &ScalarExpr) -> (r: Result<Self, ErrorCode>)
        ensures
            match Self::post_model(self@, scalar@) {
                Ok(v) => r is Ok && r->Ok_0@ == v,
                Err(e) => r is Err && r->Err_0.code == e.code && r->Err_0.message@ == e.message,
            },
    ;
}

/// The visitor that a `Recursion` carries.
pub open spec fn carried<V>(r: Recursion<V>) -> V {
    match r {
        Recursion::Continue(v) => v,
        Recursion::Stop(v) => v,
    }
}

/// The children of a node, in the order in which the walk puts them on
/// its stack. A subquery and a leaf have none.
pub open spec fn children_of(e: ScalarView) -> Seq<ScalarView> {
    match e {
        ScalarView::AggregateFunction(f) => f.args,
        ScalarView::WindowFunction(f) => f.agg_func.args,
        ScalarView::ComparisonExpr { left, right, .. } => seq![*left, *right],
        ScalarView::AndExpr { left, right } => seq![*left, *right],
        ScalarView::OrExpr { left, right } => seq![*left, *right],
        ScalarView::NotExpr { argument } => seq![*argument],
        ScalarView::FunctionCall { arguments, .. } => arguments,
        ScalarView::CastExpr { argument, .. } => seq![*argument],
        ScalarView::Unnest { argument, .. } => seq![*argument],
        _ => Seq::empty(),
    }
}

/// The state of the visitor after the walk of `e`, or the code of the
/// error that ended it.
///
/// The node is visited first. Unless that visit stops the walk there, the
/// children are walked, the last one first. The node is then visited once
/// more. The first error ends the walk.
pub open spec fn walked<V: ScalarVisitor>(v: V::V, e: ScalarView) -> Result<V::V, VisitFailure>
    decreases e, children_of(e).len() + 1,
{
    match V::pre_model(v, e) {
        Err(code) => Err(code),
        Ok((go_on, v1)) => if go_on {
            match walked_down::<V>(v1, e, children_of(e).len()) {
                Err(code) => Err(code),
                Ok(v2) => V::post_model(v2, e),
            }
        } else {
            V::post_model(v1, e)
        },
    }
}

/// The state after the first `n` children of `e` have been walked, from
/// child `n - 1` down to child 0.
pub open spec fn walked_down<V: ScalarVisitor>(v: V::V, e: ScalarView, n: nat) -> Result<V::V, VisitFailure>
    decreases e, n,
    when n <= children_of(e).len()
{
    if n == 0 {
        Ok(v)
    } else {
        match walked::<V>(v, children_of(e)[n - 1]) {
            Err(code) => Err(code),
            Ok(v1) => walked_down::<V>(v1, e, (n - 1) as nat),
        }
    }
}

/// An entry of the stack of the walk.
pub enum RecursionProcessing<'a> {
    /// The node is still to be walked.
    Call(&'a ScalarExpr),
    /// The children of the node have been walked; it is to be visited
    /// once more.
    Ret(&'a ScalarExpr),
}

/// The view of an entry of the stack.
pub ghost enum Frame {
    Call(ScalarView),
    Ret(ScalarView),
}

impl<'a> View for RecursionProcessing<'a> {
    type V = Frame;

    open spec fn view(&self) -> Frame {
        match self {
            RecursionProcessing::Call(e) => Frame::Call(e@),
            RecursionProcessing::Ret(e) => Frame::Ret(e@),
        }
    }
}

/// The views of the entries of a stack, bottom first.
pub open spec fn frames(stack: Seq<RecursionProcessing>) -> Seq<Frame> {
    Seq::new(stack.len(), |i: int| stack[i]@)
}

/// One entry for each of the first `n` scalars, each still to be walked.
pub open spec fn calls(list: Seq<ScalarView>, n: nat) -> Seq<Frame> {
    Seq::new(n, |i: int| Frame::Call(list[i]))
}

/// The state of the visitor after the stack has been worked off, top
/// first, or the code of the error that ended the walk.
pub open spec fn run<V: ScalarVisitor>(stack: Seq<Frame>, v: V::V) -> Result<V::V, VisitFailure>
    decreases stack.len(),
{
    if stack.len() == 0 {
        Ok(v)
    } else {
        let step = match stack.last() {
            Frame::Call(e) => walked::<V>(v, e),
            Frame::Ret(e) => V::post_model(v, e),
        };
        match step {
            Err(code) => Err(code),
            Ok(v1) => run::<V>(stack.drop_last(), v1),
        }
    }
}

/// The number of nodes of the expression that the walk can reach.
pub open spec fn size(e: ScalarView) -> nat
    decreases e, children_of(e).len() + 1,
{
    1 + sizes(e, children_of(e).len())
}

/// The number of nodes in the first `n` children of `e`.
pub open spec fn sizes(e: ScalarView, n: nat) -> nat
    decreases e, n,
    when n <= children_of(e).len()
{
    if n == 0 {
        0
    } else {
        sizes(e, (n - 1) as nat) + size(children_of(e)[n - 1])
    }
}

/// The work that a stack stands for: two steps for each node still to be
/// walked, and one for each node to be visited once more.
pub open spec fn weight(stack: Seq<Frame>) -> nat
    decreases stack.len(),
{
    if stack.len() == 0 {
        0
    } else {
        weight(stack.drop_last()) + match stack.last() {
            Frame::Call(e) => 2 * size(e),
            Frame::Ret(_) => 1,
        }
    }
}

/// Working off a stack with the first `n` children of `e` on top walks
/// those children, the last first, and then works off the rest.
pub proof fn run_children<V: ScalarVisitor>(base: Seq<Frame>, e: ScalarView, n: nat, v: V::V)
    requires
        n <= children_of(e).len(),
    ensures
        run::<V>(base + calls(children_of(e), n), v) == match walked_down::<V>(v, e, n) {
            Err(code) => Err(code),
            Ok(v1) => run::<V>(base, v1),
        },
        weight(base + calls(children_of(e), n)) == weight(base) + 2 * sizes(e, n),
    decreases n,
{
    let stack = base + calls(children_of(e), n);
    if n == 0 {
        assert(stack =~= base);
    } else {
        let below = base + calls(children_of(e), (n - 1) as nat);
        assert(stack.drop_last() =~= below);
        assert(stack.last() == Frame::Call(children_of(e)[n - 1]));
        match walked::<V>(v, children_of(e)[n - 1]) {
            Err(_) => {},
            Ok(v1) => {
                run_children::<V>(base, e, (n - 1) as nat, v1);
            },
        }
        run_children::<V>(base, e, (n - 1) as nat, v);
    }
}

/// Puts one entry for each scalar of `list` on the stack.
fn push_calls<'a>(stack: &mut Vec<RecursionProcessing<'a>>, list: &'a Vec<ScalarExpr>)
    ensures
        frames(final(stack)@) == frames(old(stack)@) + calls(scalars_view(*list), list.len() as nat),
{
    let ghost base = frames(stack@);
    let ghost all = scalars_view(*list);
    let mut i: usize = 0;
    assert(frames(stack@) =~= base + calls(all, 0));
    while i < list.len()
        invariant
            i <= list.len(),
            all == scalars_view(*list),
            frames(stack@) == base + calls(all, i as nat),
        decreases list.len() - i,
    {
        let ghost prev = frames(stack@);
        stack.push(RecursionProcessing::Call(&list[i]));
        proof {
            assert(all[i as int] == list[i as int]@);
            assert(frames(stack@) =~= prev.push(Frame::Call(list[i as int]@)));
            assert(calls(all, (i + 1) as nat) =~= calls(all, i as nat).push(
                Frame::Call(all[i as int]),
            ));
            assert(frames(stack@) =~= base + calls(all, (i + 1) as nat));
        }
        i = i + 1;
    }
}

/// Puts one entry for each child of `scalar` on the stack.
fn push_children<'a>(stack: &mut Vec<RecursionProcessing<'a>>, scalar: &'a ScalarExpr)
    ensures
        frames(final(stack)@) == frames(old(stack)@) + calls(
            children_of(scalar@),
            children_of(scalar@).len(),
        ),
{
    proof {
        reveal_with_fuel(scalar_view, 4);
    }
    let ghost base = frames(stack@);
    match scalar {
        ScalarExpr::AggregateFunction(f) => {
            push_calls(stack, &f.args);
        },
        ScalarExpr::WindowFunction(f) => {
            push_calls(stack, &f.agg_func.args);
        },
        ScalarExpr::ComparisonExpr { left, right, .. } => {
            stack.push(RecursionProcessing::Call(&**left));
            stack.push(RecursionProcessing::Call(&**right));
            assert(frames(stack@) =~= base + calls(children_of(scalar@), 2));
        },
        ScalarExpr::AndExpr { left, right } => {
            stack.push(RecursionProcessing::Call(&**left));
            stack.push(RecursionProcessing::Call(&**right));
            assert(frames(stack@) =~= base + calls(children_of(scalar@), 2));
        },
        ScalarExpr::OrExpr { left, right } => {
            stack.push(RecursionProcessing::Call(&**left));
            stack.push(RecursionProcessing::Call(&**right));
            assert(frames(stack@) =~= base + calls(children_of(scalar@), 2));
        },
        ScalarExpr::NotExpr { argument } => {
            stack.push(RecursionProcessing::Call(&**argument));
            assert(frames(stack@) =~= base + calls(children_of(scalar@), 1));
        },
        ScalarExpr::FunctionCall { arguments, .. } => {
            push_calls(stack, arguments);
        },
        ScalarExpr::CastExpr { argument, .. } => {
            stack.push(RecursionProcessing::Call(&**argument));
            assert(frames(stack@) =~= base + calls(children_of(scalar@), 1));
        },
        ScalarExpr::Unnest { argument, .. } => {
            stack.push(RecursionProcessing::Call(&**argument));
            assert(frames(stack@) =~= base + calls(children_of(scalar@), 1));
        },
        _ => {
            assert(frames(stack@) =~= base + calls(children_of(scalar@), 0));
        },
    }
}

/// Walks `predecessor_scalar` with `visitor`, with a stack of its own in
/// place of recursion.
pub fn visit<V: ScalarVisitor>(visitor: V, predecessor_scalar: &ScalarExpr) -> (r: Result<
    V,
    ErrorCode,
>)
    ensures
        match walked::<V>(visitor@, predecessor_scalar@) {
            Ok(v) => r is Ok && r->Ok_0@ == v,
            Err(e) => r is Err && r->Err_0.code == e.code && r->Err_0.message@ == e.message,
        },
{
    let ghost goal = walked::<V>(visitor@, predecessor_scalar@);
    let mut v = visitor;
    let mut stack: Vec<RecursionProcessing> = Vec::new();
    stack.push(RecursionProcessing::Call(predecessor_scalar));
    proof {
        let st = frames(stack@);
        assert(st.drop_last() =~= Seq::empty());
        assert(st.last() == Frame::Call(predecessor_scalar@));
        reveal_with_fuel(run, 2);
    }
    while stack.len() > 0
        invariant
            goal == walked::<V>(visitor@, predecessor_scalar@),
            run::<V>(frames(stack@), v@) == goal,
        decreases weight(frames(stack@)),
    {
        let ghost before = frames(stack@);
        let ghost v0 = v@;
        let element = stack.pop();
        proof {
            assert(frames(stack@) =~= before.drop_last());
        }
        match element {
            None => {},
            Some(RecursionProcessing::Ret(scalar)) => {
                proof {
                    assert(before.last() == Frame::Ret(scalar@));
                }
                v = match v.post_visit(scalar) {
                    Ok(v1) => v1,
                    Err(e) => {
                        return Err(e);
                    },
                };
            },
            Some(RecursionProcessing::Call(scalar)) => {
                proof {
                    assert(before.last() == Frame::Call(scalar@));
                }
                let ghost rest = frames(stack@);
                stack.push(RecursionProcessing::Ret(scalar));
                let ghost base = frames(stack@);
                proof {
                    assert(base.drop_last() =~= rest);
                    assert(base.last() == Frame::Ret(scalar@));
                }
                v = match v.pre_visit(scalar) {
                    Err(e) => {
                        return Err(e);
                    },
                    Ok(Recursion::Stop(v1)) => v1,
                    Ok(Recursion::Continue(v1)) => {
                        push_children(&mut stack, scalar);
                        proof {
                            run_children::<V>(
                                base,
                                scalar@,
                                children_of(scalar@).len(),
                                v1@,
                            );
                        }
                        v1
                    },
                };
            },
        }
    }
    Ok(v)
}

impl ScalarExpr {
    /// Walks this expression with `visitor`.
    ///
    /// The root is visited by `accept` itself and then again by the walk,
    /// so it is visited twice before its children and twice after them. If
    /// the first visit of the root stops the walk, the visitor comes back
    /// as that visit left it.
    pub fn accept<V: ScalarVisitor>(&self, visitor: V) -> (r: Result<V, ErrorCode>)
        ensures
            match V::pre_model(visitor@, self@) {
                Err(e) => r is Err && r->Err_0.code == e.code && r->Err_0.message@ == e.message,
                Ok((go_on, v1)) => if go_on {
                    match walked::<V>(v1, self@) {
                        Err(e) => r is Err && r->Err_0.code == e.code && r->Err_0.message@ == e.message,
                        Ok(v2) => match V::post_model(v2, self@) {
                            Err(e) => r is Err && r->Err_0.code == e.code && r->Err_0.message@ == e.message,
                            Ok(v3) => r is Ok && r->Ok_0@ == v3,
                        },
                    }
                } else {
                    r is Ok && r->Ok_0@ == v1
                },
            },
    {
        let visitor = match visitor.pre_visit(self) {
            Err(e) => {
                return Err(e);
            },
            Ok(Recursion::Continue(visitor)) => visitor,
            // If the walk is to stop, the children are not visited.
            Ok(Recursion::Stop(visitor)) => {
                return Ok(visitor);
            },
        };
        let visitor = match visit(visitor, self) {
            Ok(v) => v,
            Err(e) => {
                return Err(e);
            },
        };
        visitor.post_visit(self)
    }
}

/// A visitor that looks for a call of an aggregate function. It does not
/// look below such a call.
#[derive(Clone, Copy, Debug, PartialEq, Eq)]
pub struct FindAggregate {
    pub found: bool,
}

impl View for FindAggregate {
    type V = bool;

    open spec fn view(&self) -> bool {
        self.found
    }
}

impl ScalarVisitor for FindAggregate {
    open spec fn pre_model(v: bool, scalar: ScalarView) -> Result<(bool, bool), VisitFailure> {
        if scalar is AggregateFunction {
            Ok((false, true))
        } else {
            Ok((true, v))
        }
    }

    open spec fn post_model(v: bool, scalar: ScalarView) -> Result<bool, VisitFailure> {
        Ok(v)
    }

    fn pre_visit(self, scalar: &ScalarExpr) -> (r: Result<Recursion<Self>, ErrorCode>) {
        proof {
            reveal_with_fuel(scalar_view, 1);
        }
        match scalar {
            ScalarExpr::AggregateFunction(_) => Ok(Recursion::Stop(FindAggregate { found: true })),
            _ => Ok(Recursion::Continue(self)),
        }
    }

    fn post_visit(self, scalar: &ScalarExpr) -> (r: Result<Self, ErrorCode>) {
        Ok(self)
    }
}

/// Whether `scalar` holds a call of an aggregate function outside any
/// subquery.
pub fn contains_aggregate(scalar: &ScalarExpr) -> (b: bool)
    ensures
        walked::<FindAggregate>(false, scalar@) == Ok::<bool, VisitFailure>(b),
{
    match visit(FindAggregate { found: false }, scalar) {
        Ok(v) => v.found,
        Err(_) => {
            proof {
                walk_of_finder_succeeds(false, scalar@);
            }
            false
        },
    }
}

/// The walk of the aggregate finder never fails.
pub proof fn walk_of_finder_succeeds(v: bool, e: ScalarView)
    ensures
        walked::<FindAggregate>(v, e) is Ok,
    decreases e, children_of(e).len() + 1,
{
    if !(e is AggregateFunction) {
        walk_down_of_finder_succeeds(v, e, children_of(e).len());
    }
}

/// The walk of the aggregate finder over children never fails.
pub proof fn walk_down_of_finder_succeeds(v: bool, e: ScalarView, n: nat)
    requires
        n <= children_of(e).len(),
    ensures
        walked_down::<FindAggregate>(v, e, n) is Ok,
    decreases e, n,
{
    if n > 0 {
        walk_of_finder_succeeds(v, children_of(e)[n - 1]);
        walk_down_of_finder_succeeds(
            walked::<FindAggregate>(v, children_of(e)[n - 1])->Ok_0,
            e,
            (n - 1) as nat,
        );
    }
}

} // verus!
