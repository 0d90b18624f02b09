//! The shape of a syntax tree: the tree with every source position blanked
//! out. Two trees with the same shape were parsed from programs that differ
//! only in layout, whitespace and comments.

use crate::diagnostic::Span;
use crate::parser::ast::{
    AbortView, AssignmentTargetView, AssignmentView, ContainerView, EntriesView, Expr, ExprView,
    ExprsView, FunctionArgumentView, FunctionCallView, FunctionClosureView, IfStatementView,
    LiteralView, NodeView, NotView, OpView, PredicateView, Program, QueryTargetView, QueryView,
    ReturnView, RootExprView, UnaryView,
};
use crate::parser::syntax_eq::{
    lemma_entry_found_at, se_argument, se_arguments, se_assignment, se_call, se_closure,
    se_container, se_entries_found, se_expr, se_exprs, se_if, se_literal, se_node_expr, se_query,
    se_query_target, se_root, se_target, SyntaxEq,
};
use crate::parser::template_string::{render, StringSegmentView};
use vstd::prelude::*;

verus! {

/// The position every node of a shape carries.
pub open spec fn blank_span() -> Span {
    arbitrary()
}

pub open spec fn shape_segment(s: StringSegmentView) -> StringSegmentView {
    match s {
        StringSegmentView::Literal(t, _) => StringSegmentView::Literal(t, blank_span()),
        StringSegmentView::Template(t, _) => StringSegmentView::Template(t, blank_span()),
    }
}

pub open spec fn shape_segments(s: Seq<StringSegmentView>) -> Seq<StringSegmentView> {
    s.map_values(|x: StringSegmentView| shape_segment(x))
}

pub open spec fn shape_literal(l: LiteralView) -> LiteralView {
    match l {
        LiteralView::String(x) => LiteralView::String(shape_segments(x)),
        _ => l,
    }
}

pub open spec fn shape_text_node(n: NodeView<Seq<char>>) -> NodeView<Seq<char>> {
    NodeView { span: blank_span(), node: n.node }
}

pub open spec fn shape_text_nodes(s: Seq<NodeView<Seq<char>>>) -> Seq<NodeView<Seq<char>>> {
    s.map_values(|x: NodeView<Seq<char>>| shape_text_node(x))
}

pub open spec fn shape_node_expr(n: NodeView<ExprView>) -> NodeView<ExprView>
    decreases n, 0nat,
{
    NodeView { span: blank_span(), node: shape_expr(n.node) }
}

pub open spec fn shape_exprs(s: ExprsView) -> ExprsView
    decreases s, 0nat,
{
    Seq::new(
        s.len(),
        |i: int|
            if 0 <= i < s.len() {
                shape_node_expr(s[i])
            } else {
                arbitrary()
            },
    )
}

pub open spec fn shape_exprs_node(n: NodeView<ExprsView>) -> NodeView<ExprsView>
    decreases n, 0nat,
{
    NodeView { span: blank_span(), node: shape_exprs(n.node) }
}

pub open spec fn shape_entries(s: EntriesView) -> EntriesView
    decreases s, 0nat,
{
    Seq::new(
        s.len(),
        |i: int|
            if 0 <= i < s.len() {
                (shape_text_node(s[i].0), shape_node_expr(s[i].1))
            } else {
                arbitrary()
            },
    )
}

pub open spec fn shape_expr(e: ExprView) -> ExprView
    decreases e, 0nat,
{
    match e {
        ExprView::Literal(x) => ExprView::Literal(
            NodeView { span: blank_span(), node: shape_literal(x.node) },
        ),
        ExprView::Container(x) => ExprView::Container(
            NodeView { span: blank_span(), node: shape_container(x.node) },
        ),
        ExprView::IfStatement(x) => ExprView::IfStatement(
            NodeView { span: blank_span(), node: shape_if(x.node) },
        ),
        ExprView::Op(x) => ExprView::Op(NodeView { span: blank_span(), node: shape_op(x.node) }),
        ExprView::Assignment(x) => ExprView::Assignment(
            NodeView { span: blank_span(), node: shape_assignment(x.node) },
        ),
        ExprView::Query(x) => ExprView::Query(
            NodeView { span: blank_span(), node: shape_query(x.node) },
        ),
        ExprView::FunctionCall(x) => ExprView::FunctionCall(
            NodeView { span: blank_span(), node: shape_call(x.node) },
        ),
        ExprView::Variable(x) => ExprView::Variable(shape_text_node(x)),
        ExprView::Unary(x) => ExprView::Unary(
            NodeView { span: blank_span(), node: shape_unary(x.node) },
        ),
        ExprView::Abort(x) => ExprView::Abort(
            NodeView { span: blank_span(), node: shape_abort(x.node) },
        ),
        ExprView::Return(x) => ExprView::Return(
            NodeView {
                span: blank_span(),
                node: ReturnView { expr: Box::new(shape_node_expr(*x.node.expr)) },
            },
        ),
    }
}

pub open spec fn shape_container(c: ContainerView) -> ContainerView
    decreases c, 0nat,
{
    match c {
        ContainerView::Group(x) => ContainerView::Group(
            Box::new(NodeView { span: blank_span(), node: shape_node_expr(x.node) }),
        ),
        ContainerView::Block(x) => ContainerView::Block(shape_exprs_node(x)),
        ContainerView::Array(x) => ContainerView::Array(shape_exprs_node(x)),
        ContainerView::Object(x) => ContainerView::Object(
            NodeView { span: blank_span(), node: shape_entries(x.node) },
        ),
    }
}

pub open spec fn shape_if(a: IfStatementView) -> IfStatementView
    decreases a, 0nat,
{
    IfStatementView {
        predicate: NodeView { span: blank_span(), node: shape_predicate(a.predicate.node) },
        if_node: shape_exprs_node(a.if_node),
        else_node: match a.else_node {
            Some(x) => Some(shape_exprs_node(x)),
            None => None,
        },
    }
}

pub open spec fn shape_predicate(p: PredicateView) -> PredicateView
    decreases p, 0nat,
{
    match p {
        PredicateView::One(x) => PredicateView::One(Box::new(shape_node_expr(*x))),
        PredicateView::Many(x) => PredicateView::Many(shape_exprs(x)),
    }
}

pub open spec fn shape_op(a: OpView) -> OpView
    decreases a, 0nat,
{
    OpView(
        Box::new(shape_node_expr(*a.0)),
        NodeView { span: blank_span(), node: a.1.node },
        Box::new(shape_node_expr(*a.2)),
    )
}

pub open spec fn shape_assignment(a: AssignmentView) -> AssignmentView
    decreases a, 0nat,
{
    match a {
        AssignmentView::Single { target, op, expr } => AssignmentView::Single {
            target: NodeView { span: blank_span(), node: shape_target(target.node) },
            op,
            expr: Box::new(shape_node_expr(*expr)),
        },
        AssignmentView::Infallible { ok, err, op, expr } => AssignmentView::Infallible {
            ok: NodeView { span: blank_span(), node: shape_target(ok.node) },
            err: NodeView { span: blank_span(), node: shape_target(err.node) },
            op,
            expr: Box::new(shape_node_expr(*expr)),
        },
    }
}

pub open spec fn shape_target(t: AssignmentTargetView) -> AssignmentTargetView
    decreases t, 0nat,
{
    match t {
        AssignmentTargetView::Query(q) => AssignmentTargetView::Query(shape_query(q)),
        _ => t,
    }
}

pub open spec fn shape_query(q: QueryView) -> QueryView
    decreases q, 0nat,
{
    QueryView {
        target: NodeView { span: blank_span(), node: shape_query_target(q.target.node) },
        path: NodeView { span: blank_span(), node: q.path.node },
    }
}

pub open spec fn shape_query_target(t: QueryTargetView) -> QueryTargetView
    decreases t, 0nat,
{
    match t {
        QueryTargetView::Container(c) => QueryTargetView::Container(shape_container(c)),
        QueryTargetView::FunctionCall(f) => QueryTargetView::FunctionCall(shape_call(f)),
        _ => t,
    }
}

pub open spec fn shape_call(f: FunctionCallView) -> FunctionCallView
    decreases f, 0nat,
{
    FunctionCallView {
        ident: shape_text_node(f.ident),
        abort_on_error: f.abort_on_error,
        arguments: shape_arguments(f.arguments),
        closure: match f.closure {
            Some(c) => Some(NodeView { span: blank_span(), node: shape_closure(c.node) }),
            None => None,
        },
    }
}

pub open spec fn shape_arguments(s: Seq<NodeView<FunctionArgumentView>>) -> Seq<
    NodeView<FunctionArgumentView>,
>
    decreases s, 0nat,
{
    Seq::new(
        s.len(),
        |i: int|
            if 0 <= i < s.len() {
                NodeView { span: blank_span(), node: shape_argument(s[i].node) }
            } else {
                arbitrary()
            },
    )
}

pub open spec fn shape_argument(a: FunctionArgumentView) -> FunctionArgumentView
    decreases a, 0nat,
{
    FunctionArgumentView {
        ident: match a.ident {
            Some(i) => Some(shape_text_node(i)),
            None => None,
        },
        expr: shape_node_expr(a.expr),
    }
}

pub open spec fn shape_closure(c: FunctionClosureView) -> FunctionClosureView
    decreases c, 0nat,
{
    FunctionClosureView {
        variables: shape_text_nodes(c.variables),
        block: shape_exprs_node(c.block),
    }
}

pub open spec fn shape_unary(u: UnaryView) -> UnaryView
    decreases u, 0nat,
{
    match u {
        UnaryView::Not(n) => UnaryView::Not(
            NodeView {
                span: blank_span(),
                node: NotView(
                    NodeView { span: blank_span(), node: n.node.0.node },
                    Box::new(shape_node_expr(*n.node.1)),
                ),
            },
        ),
    }
}

pub open spec fn shape_abort(a: AbortView) -> AbortView
    decreases a, 0nat,
{
    AbortView {
        message: match a.message {
            Some(m) => Some(Box::new(shape_node_expr(*m))),
            None => None,
        },
    }
}

/// Parse errors keep their position: it is part of what they say.
pub open spec fn shape_root(r: RootExprView) -> RootExprView {
    match r {
        RootExprView::Expr(x) => RootExprView::Expr(shape_node_expr(x)),
        RootExprView::Error(e) => RootExprView::Error(e),
    }
}

pub open spec fn shape_program(p: Seq<NodeView<RootExprView>>) -> Seq<NodeView<RootExprView>> {
    p.map_values(|n: NodeView<RootExprView>| NodeView { span: blank_span(), node: shape_root(n.node) })
}

// -----------------------------------------------------------------------------
// trees of one shape are syntactically equal
// -----------------------------------------------------------------------------

/// Blanking the positions of a template string leaves its text.
pub proof fn lemma_render_shape(s: Seq<StringSegmentView>)
    ensures
        render(shape_segments(s)) == render(s),
    decreases s.len(),
{
    if s.len() > 0 {
        assert(shape_segments(s).drop_last() =~= shape_segments(s.drop_last()));
        lemma_render_shape(s.drop_last());
    }
}

pub proof fn lemma_shape_literal(a: LiteralView, b: LiteralView)
    requires
        shape_literal(a) == shape_literal(b),
    ensures
        se_literal(a, b),
{
    match (a, b) {
        (LiteralView::String(x), LiteralView::String(y)) => {
            lemma_render_shape(x);
            lemma_render_shape(y);
        },
        _ => {},
    }
}

pub proof fn lemma_shape_node_expr(a: NodeView<ExprView>, b: NodeView<ExprView>)
    requires
        shape_node_expr(a) == shape_node_expr(b),
    ensures
        se_node_expr(a, b),
    decreases a, 0nat,
{
    lemma_shape_expr(a.node, b.node);
}

pub proof fn lemma_shape_exprs(a: ExprsView, b: ExprsView)
    requires
        shape_exprs(a) == shape_exprs(b),
    ensures
        se_exprs(a, b),
    decreases a, 0nat,
{
    assert(shape_exprs(a).len() == a.len());
    assert(shape_exprs(b).len() == b.len());
    if a.len() > 0 {
        assert(shape_exprs(a.drop_last()) =~= shape_exprs(a).drop_last());
        assert(shape_exprs(b.drop_last()) =~= shape_exprs(b).drop_last());
        lemma_shape_exprs(a.drop_last(), b.drop_last());
        assert(shape_exprs(a)[a.len() - 1] == shape_node_expr(a.last()));
        assert(shape_exprs(b)[a.len() - 1] == shape_node_expr(b.last()));
        lemma_shape_node_expr(a.last(), b.last());
    }
}

/// Each of the first `n` entries of `a` has a match in `b`.
pub proof fn lemma_shape_entries_found(a: EntriesView, b: EntriesView, n: nat)
    requires
        n <= a.len(),
        shape_entries(a) == shape_entries(b),
    ensures
        se_entries_found(a.take(n as int), b),
    decreases a, n,
{
    assert(shape_entries(a).len() == a.len());
    assert(shape_entries(b).len() == b.len());
    if n > 0 {
        let k = n - 1;
        assert(a.take(n as int).drop_last() =~= a.take(k));
        lemma_shape_entries_found(a, b, k as nat);
        assert(shape_entries(a)[k].1 == shape_node_expr(a[k].1));
        assert(shape_entries(b)[k].1 == shape_node_expr(b[k].1));
        assert(shape_entries(a)[k].0 == shape_text_node(a[k].0));
        assert(shape_entries(b)[k].0 == shape_text_node(b[k].0));
        assert(decreases_to!(a => a[k]));
        assert(decreases_to!(a[k] => a[k].1));
        lemma_shape_node_expr(a[k].1, b[k].1);
        lemma_entry_found_at(a[k], b, k);
    }
}

pub proof fn lemma_shape_expr(a: ExprView, b: ExprView)
    requires
        shape_expr(a) == shape_expr(b),
    ensures
        se_expr(a, b),
    decreases a, 0nat,
{
    match (a, b) {
        (ExprView::Literal(x), ExprView::Literal(y)) => lemma_shape_literal(x.node, y.node),
        (ExprView::Container(x), ExprView::Container(y)) => lemma_shape_container(x.node, y.node),
        (ExprView::IfStatement(x), ExprView::IfStatement(y)) => lemma_shape_if(x.node, y.node),
        (ExprView::Op(x), ExprView::Op(y)) => {
            lemma_shape_node_expr(*x.node.0, *y.node.0);
            lemma_shape_node_expr(*x.node.2, *y.node.2);
        },
        (ExprView::Assignment(x), ExprView::Assignment(y)) => lemma_shape_assignment(
            x.node,
            y.node,
        ),
        (ExprView::Query(x), ExprView::Query(y)) => lemma_shape_query(x.node, y.node),
        (ExprView::FunctionCall(x), ExprView::FunctionCall(y)) => lemma_shape_call(x.node, y.node),
        (ExprView::Unary(x), ExprView::Unary(y)) => match (x.node, y.node) {
            (UnaryView::Not(n), UnaryView::Not(m)) => lemma_shape_node_expr(*n.node.1, *m.node.1),
        },
        (ExprView::Abort(x), ExprView::Abort(y)) => match (x.node.message, y.node.message) {
            (Some(m), Some(k)) => lemma_shape_node_expr(*m, *k),
            _ => {},
        },
        (ExprView::Return(x), ExprView::Return(y)) => lemma_shape_node_expr(
            *x.node.expr,
            *y.node.expr,
        ),
        _ => {},
    }
}

pub proof fn lemma_shape_container(a: ContainerView, b: ContainerView)
    requires
        shape_container(a) == shape_container(b),
    ensures
        se_container(a, b),
    decreases a, 0nat,
{
    match (a, b) {
        (ContainerView::Group(x), ContainerView::Group(y)) => lemma_shape_node_expr(x.node, y.node),
        (ContainerView::Block(x), ContainerView::Block(y)) => lemma_shape_exprs(x.node, y.node),
        (ContainerView::Array(x), ContainerView::Array(y)) => lemma_shape_exprs(x.node, y.node),
        (ContainerView::Object(x), ContainerView::Object(y)) => {
            assert(shape_entries(x.node).len() == x.node.len());
            assert(shape_entries(y.node).len() == y.node.len());
            lemma_shape_entries_found(x.node, y.node, x.node.len());
            assert(x.node.take(x.node.len() as int) =~= x.node);
        },
        _ => {},
    }
}

pub proof fn lemma_shape_if(a: IfStatementView, b: IfStatementView)
    requires
        shape_if(a) == shape_if(b),
    ensures
        se_if(a, b),
    decreases a, 0nat,
{
    match (a.predicate.node, b.predicate.node) {
        (PredicateView::One(x), PredicateView::One(y)) => lemma_shape_node_expr(*x, *y),
        (PredicateView::Many(x), PredicateView::Many(y)) => lemma_shape_exprs(x, y),
        _ => {},
    }
    lemma_shape_exprs(a.if_node.node, b.if_node.node);
    match (a.else_node, b.else_node) {
        (Some(x), Some(y)) => lemma_shape_exprs(x.node, y.node),
        _ => {},
    }
}

pub proof fn lemma_shape_assignment(a: AssignmentView, b: AssignmentView)
    requires
        shape_assignment(a) == shape_assignment(b),
    ensures
        se_assignment(a, b),
    decreases a, 0nat,
{
    match (a, b) {
        (
            AssignmentView::Single { target: t1, op: o1, expr: e1 },
            AssignmentView::Single { target: t2, op: o2, expr: e2 },
        ) => {
            lemma_shape_target(t1.node, t2.node);
            lemma_shape_node_expr(*e1, *e2);
        },
        (
            AssignmentView::Infallible { ok: k1, err: r1, op: o1, expr: e1 },
            AssignmentView::Infallible { ok: k2, err: r2, op: o2, expr: e2 },
        ) => {
            lemma_shape_target(k1.node, k2.node);
            lemma_shape_target(r1.node, r2.node);
            lemma_shape_node_expr(*e1, *e2);
        },
        _ => {},
    }
}

pub proof fn lemma_shape_target(a: AssignmentTargetView, b: AssignmentTargetView)
    requires
        shape_target(a) == shape_target(b),
    ensures
        se_target(a, b),
    decreases a, 0nat,
{
    match (a, b) {
        (AssignmentTargetView::Query(x), AssignmentTargetView::Query(y)) => lemma_shape_query(x, y),
        _ => {},
    }
}

pub proof fn lemma_shape_query(a: QueryView, b: QueryView)
    requires
        shape_query(a) == shape_query(b),
    ensures
        se_query(a, b),
    decreases a, 0nat,
{
    lemma_shape_query_target(a.target.node, b.target.node);
}

pub proof fn lemma_shape_query_target(a: QueryTargetView, b: QueryTargetView)
    requires
        shape_query_target(a) == shape_query_target(b),
    ensures
        se_query_target(a, b),
    decreases a, 0nat,
{
    match (a, b) {
        (QueryTargetView::Container(x), QueryTargetView::Container(y)) => lemma_shape_container(x, y),
        (QueryTargetView::FunctionCall(x), QueryTargetView::FunctionCall(y)) => lemma_shape_call(x, y),
        _ => {},
    }
}

pub proof fn lemma_shape_call(a: FunctionCallView, b: FunctionCallView)
    requires
        shape_call(a) == shape_call(b),
    ensures
        se_call(a, b),
    decreases a, 0nat,
{
    lemma_shape_arguments(a.arguments, b.arguments);
    match (a.closure, b.closure) {
        (Some(x), Some(y)) => lemma_shape_closure(x.node, y.node),
        _ => {},
    }
}

pub proof fn lemma_shape_arguments(
    a: Seq<NodeView<FunctionArgumentView>>,
    b: Seq<NodeView<FunctionArgumentView>>,
)
    requires
        shape_arguments(a) == shape_arguments(b),
    ensures
        se_arguments(a, b),
    decreases a, 0nat,
{
    assert(shape_arguments(a).len() == a.len());
    assert(shape_arguments(b).len() == b.len());
    if a.len() > 0 {
        assert(shape_arguments(a.drop_last()) =~= shape_arguments(a).drop_last());
        assert(shape_arguments(b.drop_last()) =~= shape_arguments(b).drop_last());
        lemma_shape_arguments(a.drop_last(), b.drop_last());
        assert(shape_arguments(a)[a.len() - 1].node == shape_argument(a.last().node));
        assert(shape_arguments(b)[a.len() - 1].node == shape_argument(b.last().node));
        lemma_shape_argument(a.last().node, b.last().node);
    }
}

pub proof fn lemma_shape_argument(a: FunctionArgumentView, b: FunctionArgumentView)
    requires
        shape_argument(a) == shape_argument(b),
    ensures
        se_argument(a, b),
    decreases a, 0nat,
{
    lemma_shape_node_expr(a.expr, b.expr);
}

pub proof fn lemma_shape_closure(a: FunctionClosureView, b: FunctionClosureView)
    requires
        shape_closure(a) == shape_closure(b),
    ensures
        se_closure(a, b),
    decreases a, 0nat,
{
    assert(shape_text_nodes(a.variables).len() == a.variables.len());
    assert(shape_text_nodes(b.variables).len() == b.variables.len());
    assert forall|i: int| 0 <= i < a.variables.len() implies #[trigger] a.variables[i].node
        == b.variables[i].node by {
        assert(shape_text_nodes(a.variables)[i] == shape_text_node(a.variables[i]));
        assert(shape_text_nodes(b.variables)[i] == shape_text_node(b.variables[i]));
    }
    lemma_shape_exprs(a.block.node, b.block.node);
}

pub proof fn lemma_shape_root(a: RootExprView, b: RootExprView)
    requires
        shape_root(a) == shape_root(b),
    ensures
        se_root(a, b),
{
    match (a, b) {
        (RootExprView::Expr(x), RootExprView::Expr(y)) => lemma_shape_node_expr(x, y),
        _ => {},
    }
}

// -----------------------------------------------------------------------------
// laws
// -----------------------------------------------------------------------------

/// Programs that differ only in the source positions of their nodes are
/// syntactically equal: layout, whitespace and comments do not count. (Parse
/// errors left in a tree keep their position.)
pub proof fn syntax_eq_ignores_spans(a: Program, b: Program)
    requires
        shape_program(a@) == shape_program(b@),
    ensures
        a.spec_syntax_eq(&b),
{
    assert(shape_program(a@).len() == a@.len());
    assert(shape_program(b@).len() == b@.len());
    assert forall|i: int| 0 <= i < a@.len() implies #[trigger] se_root(a@[i].node, b@[i].node) by {
        assert(shape_program(a@)[i].node == shape_root(a@[i].node));
        assert(shape_program(b@)[i].node == shape_root(b@[i].node));
        lemma_shape_root(a@[i].node, b@[i].node);
    }
}

/// Expressions that differ only in the source positions of their nodes are
/// syntactically equal.
pub proof fn syntax_eq_ignores_spans_expr(a: Expr, b: Expr)
    requires
        shape_expr(a@) == shape_expr(b@),
    ensures
        a.spec_syntax_eq(&b),
{
    lemma_shape_expr(a@, b@);
}

} // verus!
