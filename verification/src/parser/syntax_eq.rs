//! Syntactic equality: two trees are syntactically equal when they have the
//! same shape and content, whatever the source positions they were parsed
//! from. It is what tells that a reformatted or re-commented program is still
//! the same program.

use crate::parser::ast::{
    view_arguments, view_argument, view_block_node, view_call, view_closure, view_container,
    view_entries, view_expr, view_exprs, view_ident_nodes, view_if, view_node_expr, view_op,
    view_predicate, view_query, view_query_target, view_root, view_target, view_abort, view_unary,
    view_assignment, view_not, view_return, Abort, AbortView, Array, Assignment, AssignmentOp,
    AssignmentTarget, AssignmentTargetView, AssignmentView, Block, Container, ContainerView,
    EntriesView, Expr, ExprView, ExprsView, FunctionArgument, FunctionArgumentView, FunctionCall,
    FunctionCallView, FunctionClosure, FunctionClosureView, Group, Ident, IfStatement,
    IfStatementView, Literal, LiteralView, Node, NodeView, Not, Object, Op, OpView, Opcode, Predicate,
    PredicateView, Program, Query, QueryTarget, QueryTargetView, QueryView, Return, RootExpr,
    RootExprView, Unary, UnaryView,
};
use crate::parser::template_string::render;
use crate::value::float::float_bits_eq;
use vstd::prelude::*;

verus! {

// -----------------------------------------------------------------------------
// the relation, over views
// -----------------------------------------------------------------------------

/// Equality of literals other than template strings, as literal values:
/// floats compare numerically.
pub open spec fn literal_value_eq(a: LiteralView, b: LiteralView) -> bool {
    match (a, b) {
        (LiteralView::String(x), LiteralView::String(y)) => x == y,
        (LiteralView::RawString(x), LiteralView::RawString(y)) => x == y,
        (LiteralView::Integer(x), LiteralView::Integer(y)) => x == y,
        (LiteralView::Float(x), LiteralView::Float(y)) => float_bits_eq(x.to_bits(), y.to_bits()),
        (LiteralView::Boolean(x), LiteralView::Boolean(y)) => x == y,
        (LiteralView::Regex(x), LiteralView::Regex(y)) => x == y,
        (LiteralView::Timestamp(x), LiteralView::Timestamp(y)) => x == y,
        (LiteralView::Null, LiteralView::Null) => true,
        _ => false,
    }
}

/// Template strings are compared by their text; other literals by value.
pub open spec fn se_literal(a: LiteralView, b: LiteralView) -> bool {
    match (a, b) {
        (LiteralView::String(x), LiteralView::String(y)) => render(x) == render(y),
        _ => literal_value_eq(a, b),
    }
}

pub open spec fn se_idents(a: Seq<NodeView<Seq<char>>>, b: Seq<NodeView<Seq<char>>>) -> bool {
    a.len() == b.len() && forall|i: int| 0 <= i < a.len() ==> #[trigger] a[i].node == b[i].node
}

pub open spec fn se_opt_ident(a: Option<NodeView<Seq<char>>>, b: Option<NodeView<Seq<char>>>) -> bool {
    match (a, b) {
        (None, None) => true,
        (Some(x), Some(y)) => x.node == y.node,
        _ => false,
    }
}

pub open spec fn se_node_expr(a: NodeView<ExprView>, b: NodeView<ExprView>) -> bool
    decreases a, 0nat,
{
    se_expr(a.node, b.node)
}

/// Lists of expressions are syntactically equal when they have the same
/// length and are so element by element.
pub open spec fn se_exprs(a: ExprsView, b: ExprsView) -> bool
    decreases a, 0nat,
{
    &&& a.len() == b.len()
    &&& a.len() > 0 ==> se_exprs(a.drop_last(), b.drop_last()) && se_node_expr(a.last(), b.last())
}

/// Object entries are syntactically equal when there are as many on each
/// side and each entry of `a` has an entry in `b` with the same key text and a
/// syntactically equal value.
pub open spec fn se_entries(a: EntriesView, b: EntriesView) -> bool
    decreases a, 1nat,
{
    a.len() == b.len() && se_entries_found(a, b)
}

/// Each entry of `a` has a match in `b`.
pub open spec fn se_entries_found(a: EntriesView, b: EntriesView) -> bool
    decreases a, 0nat,
{
    a.len() > 0 ==> se_entries_found(a.drop_last(), b) && se_entry_found(a.last(), b)
}

/// Some entry of `b` has the key text of `e` and a value syntactically equal
/// to that of `e`.
pub open spec fn se_entry_found(e: (NodeView<Seq<char>>, NodeView<ExprView>), b: EntriesView) -> bool
    decreases e, b.len(),
{
    b.len() > 0 && (se_entry_found(e, b.drop_last()) || (e.0.node == b.last().0.node && se_node_expr(
        e.1,
        b.last().1,
    )))
}

pub open spec fn se_expr(a: ExprView, b: ExprView) -> bool
    decreases a, 0nat,
{
    match (a, b) {
        (ExprView::Literal(x), ExprView::Literal(y)) => se_literal(x.node, y.node),
        (ExprView::Container(x), ExprView::Container(y)) => se_container(x.node, y.node),
        (ExprView::IfStatement(x), ExprView::IfStatement(y)) => se_if(x.node, y.node),
        (ExprView::Op(x), ExprView::Op(y)) => se_op(x.node, y.node),
        (ExprView::Assignment(x), ExprView::Assignment(y)) => se_assignment(x.node, y.node),
        (ExprView::Query(x), ExprView::Query(y)) => se_query(x.node, y.node),
        (ExprView::FunctionCall(x), ExprView::FunctionCall(y)) => se_call(x.node, y.node),
        (ExprView::Variable(x), ExprView::Variable(y)) => x.node == y.node,
        (ExprView::Unary(x), ExprView::Unary(y)) => se_unary(x.node, y.node),
        (ExprView::Abort(x), ExprView::Abort(y)) => se_abort(x.node, y.node),
        (ExprView::Return(x), ExprView::Return(y)) => se_node_expr(*x.node.expr, *y.node.expr),
        _ => false,
    }
}

pub open spec fn se_container(a: ContainerView, b: ContainerView) -> bool
    decreases a, 0nat,
{
    match (a, b) {
        (ContainerView::Group(x), ContainerView::Group(y)) => se_node_expr(x.node, y.node),
        (ContainerView::Block(x), ContainerView::Block(y)) => se_exprs(x.node, y.node),
        (ContainerView::Array(x), ContainerView::Array(y)) => se_exprs(x.node, y.node),
        (ContainerView::Object(x), ContainerView::Object(y)) => se_entries(x.node, y.node),
        _ => false,
    }
}

pub open spec fn se_if(a: IfStatementView, b: IfStatementView) -> bool
    decreases a, 0nat,
{
    &&& se_predicate(a.predicate.node, b.predicate.node)
    &&& se_exprs(a.if_node.node, b.if_node.node)
    &&& match (a.else_node, b.else_node) {
        (None, None) => true,
        (Some(x), Some(y)) => se_exprs(x.node, y.node),
        _ => false,
    }
}

pub open spec fn se_predicate(a: PredicateView, b: PredicateView) -> bool
    decreases a, 0nat,
{
    match (a, b) {
        (PredicateView::One(x), PredicateView::One(y)) => se_node_expr(*x, *y),
        (PredicateView::Many(x), PredicateView::Many(y)) => se_exprs(x, y),
        _ => false,
    }
}

pub open spec fn se_op(a: OpView, b: OpView) -> bool
    decreases a, 0nat,
{
    se_node_expr(*a.0, *b.0) && a.1.node == b.1.node && se_node_expr(*a.2, *b.2)
}

pub open spec fn se_assignment(a: AssignmentView, b: AssignmentView) -> bool
    decreases a, 0nat,
{
    match (a, b) {
        (
            AssignmentView::Single { target: t1, op: o1, expr: e1 },
            AssignmentView::Single { target: t2, op: o2, expr: e2 },
        ) => se_target(t1.node, t2.node) && o1 == o2 && se_node_expr(*e1, *e2),
        (
            AssignmentView::Infallible { ok: k1, err: r1, op: o1, expr: e1 },
            AssignmentView::Infallible { ok: k2, err: r2, op: o2, expr: e2 },
        ) => se_target(k1.node, k2.node) && se_target(r1.node, r2.node) && o1 == o2 && se_node_expr(
            *e1,
            *e2,
        ),
        _ => false,
    }
}

pub open spec fn se_target(a: AssignmentTargetView, b: AssignmentTargetView) -> bool
    decreases a, 0nat,
{
    match (a, b) {
        (AssignmentTargetView::Noop, AssignmentTargetView::Noop) => true,
        (AssignmentTargetView::Query(x), AssignmentTargetView::Query(y)) => se_query(x, y),
        (AssignmentTargetView::Internal(s1, p1), AssignmentTargetView::Internal(s2, p2)) => s1 == s2
            && p1 == p2,
        (AssignmentTargetView::External(p1), AssignmentTargetView::External(p2)) => p1 == p2,
        _ => false,
    }
}

pub open spec fn se_query(a: QueryView, b: QueryView) -> bool
    decreases a, 0nat,
{
    se_query_target(a.target.node, b.target.node) && a.path.node == b.path.node
}

pub open spec fn se_query_target(a: QueryTargetView, b: QueryTargetView) -> bool
    decreases a, 0nat,
{
    match (a, b) {
        (QueryTargetView::Internal(x), QueryTargetView::Internal(y)) => x == y,
        (QueryTargetView::External(x), QueryTargetView::External(y)) => x == y,
        (QueryTargetView::Container(x), QueryTargetView::Container(y)) => se_container(x, y),
        (QueryTargetView::FunctionCall(x), QueryTargetView::FunctionCall(y)) => se_call(x, y),
        _ => false,
    }
}

pub open spec fn se_call(a: FunctionCallView, b: FunctionCallView) -> bool
    decreases a, 0nat,
{
    &&& a.ident.node == b.ident.node
    &&& a.abort_on_error == b.abort_on_error
    &&& se_arguments(a.arguments, b.arguments)
    &&& match (a.closure, b.closure) {
        (None, None) => true,
        (Some(x), Some(y)) => se_closure(x.node, y.node),
        _ => false,
    }
}

pub open spec fn se_arguments(a: Seq<NodeView<FunctionArgumentView>>, b: Seq<NodeView<FunctionArgumentView>>) -> bool
    decreases a, 0nat,
{
    &&& a.len() == b.len()
    &&& a.len() > 0 ==> se_arguments(a.drop_last(), b.drop_last()) && se_argument(a.last().node, b.last().node)
}

pub open spec fn se_argument(a: FunctionArgumentView, b: FunctionArgumentView) -> bool
    decreases a, 0nat,
{
    se_opt_ident(a.ident, b.ident) && se_node_expr(a.expr, b.expr)
}

pub open spec fn se_closure(a: FunctionClosureView, b: FunctionClosureView) -> bool
    decreases a, 0nat,
{
    se_idents(a.variables, b.variables) && se_exprs(a.block.node, b.block.node)
}

pub open spec fn se_unary(a: UnaryView, b: UnaryView) -> bool
    decreases a, 0nat,
{
    match (a, b) {
        (UnaryView::Not(x), UnaryView::Not(y)) => se_node_expr(*x.node.1, *y.node.1),
    }
}

pub open spec fn se_abort(a: AbortView, b: AbortView) -> bool
    decreases a, 0nat,
{
    match (a.message, b.message) {
        (None, None) => true,
        (Some(x), Some(y)) => se_node_expr(*x, *y),
        _ => false,
    }
}

/// Parse errors left in the tree count as equal only when they are equal,
/// position included.
pub open spec fn se_root(a: RootExprView, b: RootExprView) -> bool {
    match (a, b) {
        (RootExprView::Expr(x), RootExprView::Expr(y)) => se_node_expr(x, y),
        (RootExprView::Error(x), RootExprView::Error(y)) => x == y,
        _ => false,
    }
}

pub open spec fn se_program(a: Seq<NodeView<RootExprView>>, b: Seq<NodeView<RootExprView>>) -> bool {
    a.len() == b.len() && forall|i: int| 0 <= i < a.len() ==> #[trigger] se_root(a[i].node, b[i].node)
}

// -----------------------------------------------------------------------------
// deciding the relation
// -----------------------------------------------------------------------------

fn ident_eq(a: &Ident, b: &Ident) -> (r: bool)
    ensures
        r == (a@ == b@),
{
    a.0 == b.0
}

fn literal_eq(a: &Literal, b: &Literal) -> (r: bool)
    ensures
        r == se_literal(a@, b@),
{
    match (a, b) {
        (Literal::String(x), Literal::String(y)) => x.to_string() == y.to_string(),
        (Literal::RawString(x), Literal::RawString(y)) => *x == *y,
        (Literal::Integer(x), Literal::Integer(y)) => *x == *y,
        (Literal::Float(x), Literal::Float(y)) => x.same_value(y),
        (Literal::Boolean(x), Literal::Boolean(y)) => *x == *y,
        (Literal::Regex(x), Literal::Regex(y)) => *x == *y,
        (Literal::Timestamp(x), Literal::Timestamp(y)) => *x == *y,
        (Literal::Null, Literal::Null) => true,
        _ => false,
    }
}

fn idents_eq(a: &Vec<Node<Ident>>, b: &Vec<Node<Ident>>) -> (r: bool)
    ensures
        r == se_idents(view_ident_nodes(a@), view_ident_nodes(b@)),
{
    if a.len() != b.len() {
        return false;
    }
    let mut i: usize = 0;
    while i < a.len()
        invariant
            i <= a@.len(),
            a@.len() == b@.len(),
            forall|j: int| 0 <= j < i ==> #[trigger] a@[j].node@ == b@[j].node@,
        decreases a@.len() - i,
    {
        if !ident_eq(&a[i].node, &b[i].node) {
            assert(view_ident_nodes(a@)[i as int].node != view_ident_nodes(b@)[i as int].node);
            return false;
        }
        i += 1;
    }
    assert forall|j: int| 0 <= j < a@.len() implies #[trigger] view_ident_nodes(a@)[j].node
        == view_ident_nodes(b@)[j].node by {
        assert(a@[j].node@ == b@[j].node@);
    }
    true
}

fn opt_ident_eq(a: &Option<Node<Ident>>, b: &Option<Node<Ident>>) -> (r: bool)
    ensures
        r == se_opt_ident(view_opt_ident_node_of(*a), view_opt_ident_node_of(*b)),
{
    match (a, b) {
        (None, None) => true,
        (Some(x), Some(y)) => ident_eq(&x.node, &y.node),
        _ => false,
    }
}

pub open spec fn view_opt_ident_node_of(n: Option<Node<Ident>>) -> Option<NodeView<Seq<char>>> {
    match n {
        Some(n) => Some(n@),
        None => None,
    }
}

fn node_expr_eq(a: &Node<Expr>, b: &Node<Expr>) -> (r: bool)
    ensures
        r == se_node_expr(view_node_expr(*a), view_node_expr(*b)),
    decreases a,
{
    expr_eq(&a.node, &b.node)
}

fn exprs_eq(a: &Vec<Node<Expr>>, b: &Vec<Node<Expr>>) -> (r: bool)
    ensures
        r == se_exprs(view_exprs(a@), view_exprs(b@)),
    decreases a,
{
    let ghost va = view_exprs(a@);
    let ghost vb = view_exprs(b@);
    if a.len() != b.len() {
        return false;
    }
    let mut i: usize = 0;
    assert(va.take(0) =~= Seq::<NodeView<ExprView>>::empty());
    assert(vb.take(0) =~= Seq::<NodeView<ExprView>>::empty());
    while i < a.len()
        invariant
            i <= a@.len(),
            a@.len() == b@.len(),
            va == view_exprs(a@),
            vb == view_exprs(b@),
            se_exprs(va.take(i as int), vb.take(i as int)),
        decreases a@.len() - i,
    {
        proof {
            assert(decreases_to!(*a => a@));
            assert(decreases_to!(a@ => a@[i as int]));
            assert(va.take(i + 1).drop_last() =~= va.take(i as int));
            assert(vb.take(i + 1).drop_last() =~= vb.take(i as int));
        }
        if !node_expr_eq(&a[i], &b[i]) {
            proof {
                lemma_exprs_prefix(va, vb, i as int + 1);
            }
            return false;
        }
        i += 1;
    }
    assert(va.take(a@.len() as int) =~= va);
    assert(vb.take(a@.len() as int) =~= vb);
    true
}

fn entries_eq(a: &Vec<(Node<String>, Node<Expr>)>, b: &Vec<(Node<String>, Node<Expr>)>) -> (r: bool)
    ensures
        r == se_entries(view_entries(a@), view_entries(b@)),
    decreases a,
{
    let ghost va = view_entries(a@);
    let ghost vb = view_entries(b@);
    if a.len() != b.len() {
        return false;
    }
    let mut i: usize = 0;
    assert(va.take(0) =~= Seq::<(NodeView<Seq<char>>, NodeView<ExprView>)>::empty());
    while i < a.len()
        invariant
            i <= a@.len(),
            a@.len() == b@.len(),
            va == view_entries(a@),
            vb == view_entries(b@),
            se_entries_found(va.take(i as int), vb),
        decreases a@.len() - i,
    {
        let mut found = false;
        let mut j: usize = 0;
        assert(vb.take(0) =~= Seq::<(NodeView<Seq<char>>, NodeView<ExprView>)>::empty());
        while j < b.len() && !found
            invariant
                i < a@.len(),
                j <= b@.len(),
                a@.len() == b@.len(),
                va == view_entries(a@),
                vb == view_entries(b@),
                found == se_entry_found(va[i as int], vb.take(j as int)),
            decreases b@.len() - j,
        {
            proof {
                assert(decreases_to!(*a => a@));
                assert(decreases_to!(a@ => a@[i as int]));
                assert(decreases_to!(a@[i as int] => a@[i as int].1));
                assert(vb.take(j + 1).drop_last() =~= vb.take(j as int));
            }
            found = a[i].0.node == b[j].0.node && node_expr_eq(&a[i].1, &b[j].1);
            proof {
                if !found {
                    assert(!se_entry_found(va[i as int], vb.take(j as int)));
                }
            }
            j += 1;
        }
        proof {
            if found {
                lemma_entry_found_grows(va[i as int], vb, j as int);
            } else {
                assert(vb.take(j as int) =~= vb);
            }
            assert(va.take(i + 1).drop_last() =~= va.take(i as int));
        }
        if !found {
            proof {
                lemma_entries_prefix(va, vb, i as int + 1);
            }
            return false;
        }
        i += 1;
    }
    assert(va.take(a@.len() as int) =~= va);
    true
}

fn expr_eq(a: &Expr, b: &Expr) -> (r: bool)
    ensures
        r == se_expr(a@, b@),
    decreases a,
{
    match (a, b) {
        (Expr::Literal(x), Expr::Literal(y)) => literal_eq(&x.node, &y.node),
        (Expr::Container(x), Expr::Container(y)) => container_eq(&x.node, &y.node),
        (Expr::IfStatement(x), Expr::IfStatement(y)) => if_eq(&x.node, &y.node),
        (Expr::Op(x), Expr::Op(y)) => op_eq(&x.node, &y.node),
        (Expr::Assignment(x), Expr::Assignment(y)) => assignment_eq(&x.node, &y.node),
        (Expr::Query(x), Expr::Query(y)) => query_eq(&x.node, &y.node),
        (Expr::FunctionCall(x), Expr::FunctionCall(y)) => call_eq(&x.node, &y.node),
        (Expr::Variable(x), Expr::Variable(y)) => ident_eq(&x.node, &y.node),
        (Expr::Unary(x), Expr::Unary(y)) => unary_eq(&x.node, &y.node),
        (Expr::Abort(x), Expr::Abort(y)) => abort_eq(&x.node, &y.node),
        (Expr::Return(x), Expr::Return(y)) => node_expr_eq(&x.node.expr, &y.node.expr),
        _ => false,
    }
}

fn container_eq(a: &Container, b: &Container) -> (r: bool)
    ensures
        r == se_container(a@, b@),
    decreases a,
{
    match (a, b) {
        (Container::Group(x), Container::Group(y)) => node_expr_eq(&x.node.0, &y.node.0),
        (Container::Block(x), Container::Block(y)) => exprs_eq(&x.node.0, &y.node.0),
        (Container::Array(x), Container::Array(y)) => exprs_eq(&x.node.0, &y.node.0),
        (Container::Object(x), Container::Object(y)) => entries_eq(&x.node.0, &y.node.0),
        _ => false,
    }
}

fn if_eq(a: &IfStatement, b: &IfStatement) -> (r: bool)
    ensures
        r == se_if(a@, b@),
    decreases a,
{
    if !predicate_eq(&a.predicate.node, &b.predicate.node) {
        return false;
    }
    if !exprs_eq(&a.if_node.node.0, &b.if_node.node.0) {
        return false;
    }
    match (&a.else_node, &b.else_node) {
        (None, None) => true,
        (Some(x), Some(y)) => exprs_eq(&x.node.0, &y.node.0),
        _ => false,
    }
}

fn predicate_eq(a: &Predicate, b: &Predicate) -> (r: bool)
    ensures
        r == se_predicate(a@, b@),
    decreases a,
{
    match (a, b) {
        (Predicate::One(x), Predicate::One(y)) => node_expr_eq(x, y),
        (Predicate::Many(x), Predicate::Many(y)) => exprs_eq(x, y),
        _ => false,
    }
}

fn op_eq(a: &Op, b: &Op) -> (r: bool)
    ensures
        r == se_op(a@, b@),
    decreases a,
{
    node_expr_eq(&a.0, &b.0) && a.1.node == b.1.node && node_expr_eq(&a.2, &b.2)
}

fn assignment_eq(a: &Assignment, b: &Assignment) -> (r: bool)
    ensures
        r == se_assignment(a@, b@),
    decreases a,
{
    match (a, b) {
        (
            Assignment::Single { target: t1, op: o1, expr: e1 },
            Assignment::Single { target: t2, op: o2, expr: e2 },
        ) => target_eq(&t1.node, &t2.node) && *o1 == *o2 && node_expr_eq(e1, e2),
        (
            Assignment::Infallible { ok: k1, err: r1, op: o1, expr: e1 },
            Assignment::Infallible { ok: k2, err: r2, op: o2, expr: e2 },
        ) => target_eq(&k1.node, &k2.node) && target_eq(&r1.node, &r2.node) && *o1 == *o2
            && node_expr_eq(e1, e2),
        _ => false,
    }
}

fn target_eq(a: &AssignmentTarget, b: &AssignmentTarget) -> (r: bool)
    ensures
        r == se_target(a@, b@),
    decreases a,
{
    match (a, b) {
        (AssignmentTarget::Noop, AssignmentTarget::Noop) => true,
        (AssignmentTarget::Query(x), AssignmentTarget::Query(y)) => query_eq(x, y),
        (AssignmentTarget::Internal(s1, p1), AssignmentTarget::Internal(s2, p2)) => {
            if !ident_eq(s1, s2) {
                return false;
            }
            match (p1, p2) {
                (None, None) => true,
                (Some(x), Some(y)) => x.same(y),
                _ => false,
            }
        },
        (AssignmentTarget::External(p1), AssignmentTarget::External(p2)) => match (p1, p2) {
            (None, None) => true,
            (Some(x), Some(y)) => x.same(y),
            _ => false,
        },
        _ => false,
    }
}

fn query_eq(a: &Query, b: &Query) -> (r: bool)
    ensures
        r == se_query(a@, b@),
    decreases a,
{
    query_target_eq(&a.target.node, &b.target.node) && a.path.node.same(&b.path.node)
}

fn query_target_eq(a: &QueryTarget, b: &QueryTarget) -> (r: bool)
    ensures
        r == se_query_target(a@, b@),
    decreases a,
{
    match (a, b) {
        (QueryTarget::Internal(x), QueryTarget::Internal(y)) => ident_eq(x, y),
        (QueryTarget::External(x), QueryTarget::External(y)) => *x == *y,
        (QueryTarget::Container(x), QueryTarget::Container(y)) => container_eq(x, y),
        (QueryTarget::FunctionCall(x), QueryTarget::FunctionCall(y)) => call_eq(x, y),
        _ => false,
    }
}

fn call_eq(a: &FunctionCall, b: &FunctionCall) -> (r: bool)
    ensures
        r == se_call(a@, b@),
    decreases a,
{
    if !ident_eq(&a.ident.node, &b.ident.node) || a.abort_on_error != b.abort_on_error {
        return false;
    }
    if !arguments_eq(&a.arguments, &b.arguments) {
        return false;
    }
    match (&a.closure, &b.closure) {
        (None, None) => true,
        (Some(x), Some(y)) => closure_eq(&x.node, &y.node),
        _ => false,
    }
}

fn arguments_eq(a: &Vec<Node<FunctionArgument>>, b: &Vec<Node<FunctionArgument>>) -> (r: bool)
    ensures
        r == se_arguments(view_arguments(a@), view_arguments(b@)),
    decreases a,
{
    let ghost va = view_arguments(a@);
    let ghost vb = view_arguments(b@);
    if a.len() != b.len() {
        return false;
    }
    let mut i: usize = 0;
    assert(va.take(0) =~= Seq::<NodeView<FunctionArgumentView>>::empty());
    assert(vb.take(0) =~= Seq::<NodeView<FunctionArgumentView>>::empty());
    while i < a.len()
        invariant
            i <= a@.len(),
            a@.len() == b@.len(),
            va == view_arguments(a@),
            vb == view_arguments(b@),
            se_arguments(va.take(i as int), vb.take(i as int)),
        decreases a@.len() - i,
    {
        proof {
            assert(decreases_to!(*a => a@));
            assert(decreases_to!(a@ => a@[i as int]));
            assert(decreases_to!(a@[i as int] => a@[i as int].node));
            assert(va.take(i + 1).drop_last() =~= va.take(i as int));
            assert(vb.take(i + 1).drop_last() =~= vb.take(i as int));
        }
        if !argument_eq(&a[i].node, &b[i].node) {
            proof {
                lemma_arguments_prefix(va, vb, i as int + 1);
            }
            return false;
        }
        i += 1;
    }
    assert(va.take(a@.len() as int) =~= va);
    assert(vb.take(a@.len() as int) =~= vb);
    true
}

fn argument_eq(a: &FunctionArgument, b: &FunctionArgument) -> (r: bool)
    ensures
        r == se_argument(a@, b@),
    decreases a,
{
    opt_ident_eq(&a.ident, &b.ident) && node_expr_eq(&a.expr, &b.expr)
}

fn closure_eq(a: &FunctionClosure, b: &FunctionClosure) -> (r: bool)
    ensures
        r == se_closure(a@, b@),
    decreases a,
{
    idents_eq(&a.variables, &b.variables) && exprs_eq(&a.block.node.0, &b.block.node.0)
}

fn unary_eq(a: &Unary, b: &Unary) -> (r: bool)
    ensures
        r == se_unary(a@, b@),
    decreases a,
{
    match (a, b) {
        (Unary::Not(x), Unary::Not(y)) => node_expr_eq(&x.node.1, &y.node.1),
    }
}

fn abort_eq(a: &Abort, b: &Abort) -> (r: bool)
    ensures
        r == se_abort(a@, b@),
    decreases a,
{
    match (&a.message, &b.message) {
        (None, None) => true,
        (Some(x), Some(y)) => node_expr_eq(x, y),
        _ => false,
    }
}

fn root_eq(a: &RootExpr, b: &RootExpr) -> (r: bool)
    ensures
        r == se_root(a@, b@),
{
    match (a, b) {
        (RootExpr::Expr(x), RootExpr::Expr(y)) => node_expr_eq(x, y),
        (RootExpr::Error(x), RootExpr::Error(y)) => x.span == y.span && x.message == y.message,
        _ => false,
    }
}

fn program_eq(a: &Program, b: &Program) -> (r: bool)
    ensures
        r == se_program(a@, b@),
{
    let x = &a.0;
    let y = &b.0;
    if x.len() != y.len() {
        return false;
    }
    let mut i: usize = 0;
    while i < x.len()
        invariant
            i <= x@.len(),
            x@.len() == y@.len(),
            x == a.0,
            y == b.0,
            forall|j: int| 0 <= j < i ==> #[trigger] se_root(view_root(x@[j].node), view_root(y@[j].node)),
        decreases x@.len() - i,
    {
        if !root_eq(&x[i].node, &y[i].node) {
            assert(!se_root(a@[i as int].node, b@[i as int].node));
            return false;
        }
        i += 1;
    }
    assert forall|j: int| 0 <= j < x@.len() implies #[trigger] se_root(a@[j].node, b@[j].node) by {
        assert(se_root(view_root(x@[j].node), view_root(y@[j].node)));
    }
    true
}

// -----------------------------------------------------------------------------
// facts about the list relations
// -----------------------------------------------------------------------------

/// Lists whose first `n` elements differ differ.
pub proof fn lemma_exprs_prefix(a: ExprsView, b: ExprsView, n: int)
    requires
        0 <= n <= a.len(),
        a.len() == b.len(),
        !se_exprs(a.take(n), b.take(n)),
    ensures
        !se_exprs(a, b),
    decreases a.len() - n,
{
    if n < a.len() {
        assert(a.take(n + 1).drop_last() =~= a.take(n));
        assert(b.take(n + 1).drop_last() =~= b.take(n));
        lemma_exprs_prefix(a, b, n + 1);
    } else {
        assert(a.take(n) =~= a);
        assert(b.take(n) =~= b);
    }
}

pub proof fn lemma_arguments_prefix(
    a: Seq<NodeView<FunctionArgumentView>>,
    b: Seq<NodeView<FunctionArgumentView>>,
    n: int,
)
    requires
        0 <= n <= a.len(),
        a.len() == b.len(),
        !se_arguments(a.take(n), b.take(n)),
    ensures
        !se_arguments(a, b),
    decreases a.len() - n,
{
    if n < a.len() {
        assert(a.take(n + 1).drop_last() =~= a.take(n));
        assert(b.take(n + 1).drop_last() =~= b.take(n));
        lemma_arguments_prefix(a, b, n + 1);
    } else {
        assert(a.take(n) =~= a);
        assert(b.take(n) =~= b);
    }
}

pub proof fn lemma_entries_prefix(a: EntriesView, b: EntriesView, n: int)
    requires
        0 <= n <= a.len(),
        !se_entries_found(a.take(n), b),
    ensures
        !se_entries_found(a, b),
    decreases a.len() - n,
{
    if n < a.len() {
        assert(a.take(n + 1).drop_last() =~= a.take(n));
        lemma_entries_prefix(a, b, n + 1);
    } else {
        assert(a.take(n) =~= a);
    }
}

/// A match among the first `n` entries is a match among all of them.
pub proof fn lemma_entry_found_grows(e: (NodeView<Seq<char>>, NodeView<ExprView>), b: EntriesView, n: int)
    requires
        0 <= n <= b.len(),
        se_entry_found(e, b.take(n)),
    ensures
        se_entry_found(e, b),
    decreases b.len() - n,
{
    if n < b.len() {
        assert(b.take(n + 1).drop_last() =~= b.take(n));
        lemma_entry_found_grows(e, b, n + 1);
    } else {
        assert(b.take(n) =~= b);
    }
}

/// An entry that matches the `k`-th entry of `b` has a match in `b`.
pub proof fn lemma_entry_found_at(e: (NodeView<Seq<char>>, NodeView<ExprView>), b: EntriesView, k: int)
    requires
        0 <= k < b.len(),
        e.0.node == b[k].0.node,
        se_node_expr(e.1, b[k].1),
    ensures
        se_entry_found(e, b),
    decreases b.len(),
{
    if k < b.len() - 1 {
        lemma_entry_found_at(e, b.drop_last(), k);
    }
}

// -----------------------------------------------------------------------------
// reflexivity
// -----------------------------------------------------------------------------

pub proof fn lemma_refl_node_expr(a: NodeView<ExprView>)
    ensures
        se_node_expr(a, a),
    decreases a, 0nat,
{
    lemma_refl_expr(a.node);
}

pub proof fn lemma_refl_exprs(a: ExprsView)
    ensures
        se_exprs(a, a),
    decreases a, 0nat,
{
    if a.len() > 0 {
        lemma_refl_exprs(a.drop_last());
        lemma_refl_node_expr(a.last());
    }
}

pub proof fn lemma_refl_entries_found(a: EntriesView, b: EntriesView)
    requires
        a.len() <= b.len(),
        a == b.take(a.len() as int),
    ensures
        se_entries_found(a, b),
    decreases a, 0nat,
{
    if a.len() > 0 {
        assert(a.drop_last() =~= b.take(a.len() - 1));
        lemma_refl_entries_found(a.drop_last(), b);
        lemma_refl_node_expr(a.last().1);
        lemma_entry_found_at(a.last(), b, a.len() - 1);
    }
}

pub proof fn lemma_refl_arguments(a: Seq<NodeView<FunctionArgumentView>>)
    ensures
        se_arguments(a, a),
    decreases a, 0nat,
{
    if a.len() > 0 {
        lemma_refl_arguments(a.drop_last());
        lemma_refl_argument(a.last().node);
    }
}

pub proof fn lemma_refl_expr(a: ExprView)
    ensures
        se_expr(a, a),
    decreases a, 0nat,
{
    match a {
        ExprView::Literal(x) => {},
        ExprView::Container(x) => lemma_refl_container(x.node),
        ExprView::IfStatement(x) => lemma_refl_if(x.node),
        ExprView::Op(x) => {
            lemma_refl_node_expr(*x.node.0);
            lemma_refl_node_expr(*x.node.2);
        },
        ExprView::Assignment(x) => lemma_refl_assignment(x.node),
        ExprView::Query(x) => lemma_refl_query(x.node),
        ExprView::FunctionCall(x) => lemma_refl_call(x.node),
        ExprView::Variable(x) => {},
        ExprView::Unary(x) => match x.node {
            UnaryView::Not(n) => lemma_refl_node_expr(*n.node.1),
        },
        ExprView::Abort(x) => match x.node.message {
            Some(m) => lemma_refl_node_expr(*m),
            None => {},
        },
        ExprView::Return(x) => lemma_refl_node_expr(*x.node.expr),
    }
}

pub proof fn lemma_refl_container(a: ContainerView)
    ensures
        se_container(a, a),
    decreases a, 0nat,
{
    match a {
        ContainerView::Group(x) => lemma_refl_node_expr(x.node),
        ContainerView::Block(x) => lemma_refl_exprs(x.node),
        ContainerView::Array(x) => lemma_refl_exprs(x.node),
        ContainerView::Object(x) => {
            assert(x.node.take(x.node.len() as int) =~= x.node);
            lemma_refl_entries_found(x.node, x.node);
        },
    }
}

pub proof fn lemma_refl_if(a: IfStatementView)
    ensures
        se_if(a, a),
    decreases a, 0nat,
{
    match a.predicate.node {
        PredicateView::One(x) => lemma_refl_node_expr(*x),
        PredicateView::Many(x) => lemma_refl_exprs(x),
    }
    lemma_refl_exprs(a.if_node.node);
    match a.else_node {
        Some(x) => lemma_refl_exprs(x.node),
        None => {},
    }
}

pub proof fn lemma_refl_assignment(a: AssignmentView)
    ensures
        se_assignment(a, a),
    decreases a, 0nat,
{
    match a {
        AssignmentView::Single { target, op, expr } => {
            lemma_refl_target(target.node);
            lemma_refl_node_expr(*expr);
        },
        AssignmentView::Infallible { ok, err, op, expr } => {
            lemma_refl_target(ok.node);
            lemma_refl_target(err.node);
            lemma_refl_node_expr(*expr);
        },
    }
}

pub proof fn lemma_refl_target(a: AssignmentTargetView)
    ensures
        se_target(a, a),
    decreases a, 0nat,
{
    match a {
        AssignmentTargetView::Query(q) => lemma_refl_query(q),
        _ => {},
    }
}

pub proof fn lemma_refl_query(a: QueryView)
    ensures
        se_query(a, a),
    decreases a, 0nat,
{
    lemma_refl_query_target(a.target.node);
}

pub proof fn lemma_refl_query_target(a: QueryTargetView)
    ensures
        se_query_target(a, a),
    decreases a, 0nat,
{
    match a {
        QueryTargetView::FunctionCall(f) => lemma_refl_call(f),
        QueryTargetView::Container(c) => lemma_refl_container(c),
        _ => {},
    }
}

pub proof fn lemma_refl_call(a: FunctionCallView)
    ensures
        se_call(a, a),
    decreases a, 0nat,
{
    lemma_refl_arguments(a.arguments);
    match a.closure {
        Some(c) => lemma_refl_exprs(c.node.block.node),
        None => {},
    }
}

pub proof fn lemma_refl_argument(a: FunctionArgumentView)
    ensures
        se_argument(a, a),
    decreases a, 0nat,
{
    lemma_refl_node_expr(a.expr);
}

// -----------------------------------------------------------------------------
// the trait
// -----------------------------------------------------------------------------

/// Syntactic rather than textual equality.
pub trait SyntaxEq: Sized {
    spec fn spec_syntax_eq(&self, other: &Self) -> bool;

    /// Whether `self` is syntactically equal to `other`.
    fn syntax_eq(&self, other: &Self) -> (r: bool)
        ensures
            r == self.spec_syntax_eq(other),
    ;
}

impl<T: SyntaxEq> SyntaxEq for Vec<Node<T>> {
    open spec fn spec_syntax_eq(&self, other: &Self) -> bool {
        self@.len() == other@.len() && forall|i: int|
            0 <= i < self@.len() ==> #[trigger] self@[i].node.spec_syntax_eq(&other@[i].node)
    }

    fn syntax_eq(&self, other: &Self) -> (r: bool) {
        if self.len() != other.len() {
            return false;
        }
        let mut i: usize = 0;
        while i < self.len()
            invariant
                i <= self@.len(),
                self@.len() == other@.len(),
                forall|j: int| 0 <= j < i ==> #[trigger] self@[j].node.spec_syntax_eq(&other@[j].node),
            decreases self@.len() - i,
        {
            if !self[i].node.syntax_eq(&other[i].node) {
                return false;
            }
            i += 1;
        }
        true
    }
}

impl<T: SyntaxEq> SyntaxEq for Option<T> {
    open spec fn spec_syntax_eq(&self, other: &Self) -> bool {
        match (self, other) {
            (None, None) => true,
            (Some(a), Some(b)) => a.spec_syntax_eq(b),
            _ => false,
        }
    }

    fn syntax_eq(&self, other: &Self) -> (r: bool) {
        match (self, other) {
            (None, None) => true,
            (Some(a), Some(b)) => a.syntax_eq(b),
            _ => false,
        }
    }
}

impl<T: SyntaxEq> SyntaxEq for Box<T> {
    open spec fn spec_syntax_eq(&self, other: &Self) -> bool {
        (**self).spec_syntax_eq(&**other)
    }

    fn syntax_eq(&self, other: &Self) -> (r: bool) {
        (**self).syntax_eq(&**other)
    }
}

impl<T: SyntaxEq> SyntaxEq for Node<T> {
    open spec fn spec_syntax_eq(&self, other: &Self) -> bool {
        self.node.spec_syntax_eq(&other.node)
    }

    fn syntax_eq(&self, other: &Self) -> (r: bool) {
        self.node.syntax_eq(&other.node)
    }
}

impl SyntaxEq for Program {
    open spec fn spec_syntax_eq(&self, other: &Self) -> bool {
        se_program(self@, other@)
    }

    fn syntax_eq(&self, other: &Self) -> (r: bool) {
        program_eq(self, other)
    }
}

impl SyntaxEq for RootExpr {
    open spec fn spec_syntax_eq(&self, other: &Self) -> bool {
        se_root(self@, other@)
    }

    fn syntax_eq(&self, other: &Self) -> (r: bool) {
        root_eq(self, other)
    }
}

impl SyntaxEq for Expr {
    open spec fn spec_syntax_eq(&self, other: &Self) -> bool {
        se_expr(self@, other@)
    }

    fn syntax_eq(&self, other: &Self) -> (r: bool) {
        expr_eq(self, other)
    }
}

impl SyntaxEq for Ident {
    open spec fn spec_syntax_eq(&self, other: &Self) -> bool {
        self@ == other@
    }

    fn syntax_eq(&self, other: &Self) -> (r: bool) {
        ident_eq(self, other)
    }
}

impl SyntaxEq for Literal {
    open spec fn spec_syntax_eq(&self, other: &Self) -> bool {
        se_literal(self@, other@)
    }

    fn syntax_eq(&self, other: &Self) -> (r: bool) {
        literal_eq(self, other)
    }
}

impl SyntaxEq for Container {
    open spec fn spec_syntax_eq(&self, other: &Self) -> bool {
        se_container(self@, other@)
    }

    fn syntax_eq(&self, other: &Self) -> (r: bool) {
        container_eq(self, other)
    }
}

impl SyntaxEq for Block {
    open spec fn spec_syntax_eq(&self, other: &Self) -> bool {
        se_exprs(self@, other@)
    }

    fn syntax_eq(&self, other: &Self) -> (r: bool) {
        exprs_eq(&self.0, &other.0)
    }
}

impl SyntaxEq for Group {
    open spec fn spec_syntax_eq(&self, other: &Self) -> bool {
        se_node_expr(self@, other@)
    }

    fn syntax_eq(&self, other: &Self) -> (r: bool) {
        node_expr_eq(&self.0, &other.0)
    }
}

impl SyntaxEq for Array {
    open spec fn spec_syntax_eq(&self, other: &Self) -> bool {
        se_exprs(self@, other@)
    }

    fn syntax_eq(&self, other: &Self) -> (r: bool) {
        exprs_eq(&self.0, &other.0)
    }
}

impl SyntaxEq for Object {
    open spec fn spec_syntax_eq(&self, other: &Self) -> bool {
        se_entries(self@, other@)
    }

    fn syntax_eq(&self, other: &Self) -> (r: bool) {
        entries_eq(&self.0, &other.0)
    }
}

impl SyntaxEq for IfStatement {
    open spec fn spec_syntax_eq(&self, other: &Self) -> bool {
        se_if(self@, other@)
    }

    fn syntax_eq(&self, other: &Self) -> (r: bool) {
        if_eq(self, other)
    }
}

impl SyntaxEq for Predicate {
    open spec fn spec_syntax_eq(&self, other: &Self) -> bool {
        se_predicate(self@, other@)
    }

    fn syntax_eq(&self, other: &Self) -> (r: bool) {
        predicate_eq(self, other)
    }
}

impl SyntaxEq for Op {
    open spec fn spec_syntax_eq(&self, other: &Self) -> bool {
        se_op(self@, other@)
    }

    fn syntax_eq(&self, other: &Self) -> (r: bool) {
        op_eq(self, other)
    }
}

impl SyntaxEq for Opcode {
    open spec fn spec_syntax_eq(&self, other: &Self) -> bool {
        *self == *other
    }

    fn syntax_eq(&self, other: &Self) -> (r: bool) {
        *self == *other
    }
}

impl SyntaxEq for AssignmentOp {
    open spec fn spec_syntax_eq(&self, other: &Self) -> bool {
        *self == *other
    }

    fn syntax_eq(&self, other: &Self) -> (r: bool) {
        *self == *other
    }
}

impl SyntaxEq for Assignment {
    open spec fn spec_syntax_eq(&self, other: &Self) -> bool {
        se_assignment(self@, other@)
    }

    fn syntax_eq(&self, other: &Self) -> (r: bool) {
        assignment_eq(self, other)
    }
}

impl SyntaxEq for AssignmentTarget {
    open spec fn spec_syntax_eq(&self, other: &Self) -> bool {
        se_target(self@, other@)
    }

    fn syntax_eq(&self, other: &Self) -> (r: bool) {
        target_eq(self, other)
    }
}

impl SyntaxEq for Query {
    open spec fn spec_syntax_eq(&self, other: &Self) -> bool {
        se_query(self@, other@)
    }

    fn syntax_eq(&self, other: &Self) -> (r: bool) {
        query_eq(self, other)
    }
}

impl SyntaxEq for QueryTarget {
    open spec fn spec_syntax_eq(&self, other: &Self) -> bool {
        se_query_target(self@, other@)
    }

    fn syntax_eq(&self, other: &Self) -> (r: bool) {
        query_target_eq(self, other)
    }
}

impl SyntaxEq for FunctionCall {
    open spec fn spec_syntax_eq(&self, other: &Self) -> bool {
        se_call(self@, other@)
    }

    fn syntax_eq(&self, other: &Self) -> (r: bool) {
        call_eq(self, other)
    }
}

impl SyntaxEq for FunctionArgument {
    open spec fn spec_syntax_eq(&self, other: &Self) -> bool {
        se_argument(self@, other@)
    }

    fn syntax_eq(&self, other: &Self) -> (r: bool) {
        argument_eq(self, other)
    }
}

impl SyntaxEq for FunctionClosure {
    open spec fn spec_syntax_eq(&self, other: &Self) -> bool {
        se_closure(self@, other@)
    }

    fn syntax_eq(&self, other: &Self) -> (r: bool) {
        closure_eq(self, other)
    }
}

impl SyntaxEq for Unary {
    open spec fn spec_syntax_eq(&self, other: &Self) -> bool {
        se_unary(self@, other@)
    }

    fn syntax_eq(&self, other: &Self) -> (r: bool) {
        unary_eq(self, other)
    }
}

impl SyntaxEq for Not {
    open spec fn spec_syntax_eq(&self, other: &Self) -> bool {
        se_node_expr(*self@.1, *other@.1)
    }

    fn syntax_eq(&self, other: &Self) -> (r: bool) {
        node_expr_eq(&self.1, &other.1)
    }
}

impl SyntaxEq for Abort {
    open spec fn spec_syntax_eq(&self, other: &Self) -> bool {
        se_abort(self@, other@)
    }

    fn syntax_eq(&self, other: &Self) -> (r: bool) {
        abort_eq(self, other)
    }
}

impl SyntaxEq for Return {
    open spec fn spec_syntax_eq(&self, other: &Self) -> bool {
        se_node_expr(*self@.expr, *other@.expr)
    }

    fn syntax_eq(&self, other: &Self) -> (r: bool) {
        node_expr_eq(&self.expr, &other.expr)
    }
}

// -----------------------------------------------------------------------------
// laws
// -----------------------------------------------------------------------------

/// Every program is syntactically equal to itself.
pub proof fn syntax_eq_reflexive(p: Program)
    ensures
        p.spec_syntax_eq(&p),
{
    assert forall|i: int| 0 <= i < p@.len() implies #[trigger] se_root(p@[i].node, p@[i].node) by {
        match p@[i].node {
            RootExprView::Expr(n) => lemma_refl_node_expr(n),
            RootExprView::Error(_) => {},
        }
    }
}

/// Every expression is syntactically equal to itself.
pub proof fn syntax_eq_reflexive_expr(e: Expr)
    ensures
        e.spec_syntax_eq(&e),
{
    lemma_refl_expr(e@);
}

} // verus!
