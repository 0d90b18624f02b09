//! What syntactic equality tells apart: the parts of two trees that must
//! agree for them to be syntactically equal. Positions never count; besides
//! them, only the segmentation of template strings, the sign of a zero float
//! and the order of object entries may differ between equal trees.

use crate::parser::ast::{
    AbortView, AssignmentTargetView, AssignmentView, ContainerView, EntriesView, ExprView, ExprsView,
    FunctionArgumentView, FunctionCallView, IfStatementView, LiteralView, NodeView, OpView,
    PredicateView, QueryTargetView, QueryView, RootExprView, UnaryView,
};
use crate::parser::equivalence::{lemma_found_each, lemma_found_witness};
use crate::parser::syntax_eq::{
    se_abort, se_argument, se_arguments, se_assignment, se_call, se_container, se_entries,
    se_entry_found, se_expr, se_node_expr, se_exprs, se_if, se_literal, se_op, se_program, se_query,
    se_query_target, se_root, se_target, se_unary,
};
use crate::parser::template_string::render;
use crate::value::float::is_zero_bits;
use vstd::prelude::*;

verus! {

/// Equal expressions are of the same kind, and equal variables have the same
/// name.
pub proof fn law_equal_exprs_same_kind(a: ExprView, b: ExprView)
    requires
        se_expr(a, b),
    ensures
        a is Literal <==> b is Literal,
        a is Container <==> b is Container,
        a is IfStatement <==> b is IfStatement,
        a is Op <==> b is Op,
        a is Assignment <==> b is Assignment,
        a is Query <==> b is Query,
        a is FunctionCall <==> b is FunctionCall,
        a is Variable <==> b is Variable,
        a is Unary <==> b is Unary,
        a is Abort <==> b is Abort,
        a is Return <==> b is Return,
        a matches ExprView::Variable(x) ==> (b matches ExprView::Variable(y) && x.node == y.node),
        a matches ExprView::Literal(x) ==> (b matches ExprView::Literal(y) && se_literal(x.node, y.node)),
        a matches ExprView::Container(x) ==> (b matches ExprView::Container(y) && se_container(
            x.node,
            y.node,
        )),
        a matches ExprView::IfStatement(x) ==> (b matches ExprView::IfStatement(y) && se_if(x.node, y.node)),
        a matches ExprView::Op(x) ==> (b matches ExprView::Op(y) && se_op(x.node, y.node) && se_expr(
            x.node.0.node,
            y.node.0.node,
        ) && se_expr(x.node.2.node, y.node.2.node)),
        a matches ExprView::Assignment(x) ==> (b matches ExprView::Assignment(y) && se_assignment(
            x.node,
            y.node,
        )),
        a matches ExprView::Query(x) ==> (b matches ExprView::Query(y) && se_query(x.node, y.node)),
        a matches ExprView::FunctionCall(x) ==> (b matches ExprView::FunctionCall(y) && se_call(
            x.node,
            y.node,
        )),
        a matches ExprView::Unary(x) ==> (b matches ExprView::Unary(y) && match (x.node, y.node) {
            (UnaryView::Not(n), UnaryView::Not(m)) => se_expr(n.node.1.node, m.node.1.node),
        }),
        a matches ExprView::Abort(x) ==> (b matches ExprView::Abort(y) && se_abort(x.node, y.node)),
        a matches ExprView::Return(x) ==> (b matches ExprView::Return(y) && se_expr(
            x.node.expr.node,
            y.node.expr.node,
        )),
{
    match (a, b) {
        (ExprView::Unary(x), ExprView::Unary(y)) => match (x.node, y.node) {
            (UnaryView::Not(n), UnaryView::Not(m)) => {
                assert(se_unary(x.node, y.node));
                assert(se_node_expr(*n.node.1, *m.node.1));
            },
        },
        _ => {},
    }
}

/// Equal literals are of the same kind and hold the same value: template
/// strings the same text, floats the same number (the two zeros are one
/// number), every other literal the same content.
pub proof fn law_equal_literals(a: LiteralView, b: LiteralView)
    requires
        se_literal(a, b),
    ensures
        a matches LiteralView::String(x) ==> (b matches LiteralView::String(y) && render(x) == render(y)),
        a matches LiteralView::RawString(x) ==> b == LiteralView::RawString(x),
        a matches LiteralView::Integer(x) ==> b == LiteralView::Integer(x),
        a matches LiteralView::Boolean(x) ==> b == LiteralView::Boolean(x),
        a matches LiteralView::Regex(x) ==> b == LiteralView::Regex(x),
        a matches LiteralView::Timestamp(x) ==> b == LiteralView::Timestamp(x),
        a is Null ==> b is Null,
        a matches LiteralView::Float(x) ==> (b matches LiteralView::Float(y) && (x.to_bits()
            == y.to_bits() || (is_zero_bits(x.to_bits()) && is_zero_bits(y.to_bits())))),
{
}

/// Equal operations apply the same operator.
pub proof fn law_equal_ops_same_operator(a: OpView, b: OpView)
    requires
        se_op(a, b),
    ensures
        a.1.node == b.1.node,
{
}

/// Equal queries read the same path from the same kind of target; variables
/// of the same name, or the same root.
pub proof fn law_equal_queries_same_path(a: QueryView, b: QueryView)
    requires
        se_query(a, b),
    ensures
        a.path.node == b.path.node,
        a.target.node is Internal <==> b.target.node is Internal,
        a.target.node is External <==> b.target.node is External,
        a.target.node is FunctionCall <==> b.target.node is FunctionCall,
        a.target.node is Container <==> b.target.node is Container,
        a.target.node matches QueryTargetView::Internal(x) ==> b.target.node == QueryTargetView::Internal(x),
        a.target.node matches QueryTargetView::External(x) ==> b.target.node == QueryTargetView::External(x),
{
}

/// Equal query targets are of the same kind, and name the same variable or
/// root.
pub proof fn law_equal_query_targets(a: QueryTargetView, b: QueryTargetView)
    requires
        se_query_target(a, b),
    ensures
        a is Internal <==> b is Internal,
        a is External <==> b is External,
        a is FunctionCall <==> b is FunctionCall,
        a is Container <==> b is Container,
        a matches QueryTargetView::Internal(x) ==> b == QueryTargetView::Internal(x),
        a matches QueryTargetView::External(x) ==> b == QueryTargetView::External(x),
{
}

/// Equal assignment targets are of the same kind; variables and event paths
/// are the same.
pub proof fn law_equal_targets(a: AssignmentTargetView, b: AssignmentTargetView)
    requires
        se_target(a, b),
    ensures
        a is Noop <==> b is Noop,
        a is Query <==> b is Query,
        a is Internal <==> b is Internal,
        a is External <==> b is External,
        a matches AssignmentTargetView::Internal(s, p) ==> b == AssignmentTargetView::Internal(s, p),
        a matches AssignmentTargetView::External(p) ==> b == AssignmentTargetView::External(p),
        a matches AssignmentTargetView::Query(x) ==> (b matches AssignmentTargetView::Query(y) && x.path.node
            == y.path.node),
{
}

/// Equal assignments are of the same kind and assign with the same operator.
pub proof fn law_equal_assignments(a: AssignmentView, b: AssignmentView)
    requires
        se_assignment(a, b),
    ensures
        a is Single <==> b is Single,
        a is Infallible <==> b is Infallible,
        a matches AssignmentView::Single { op, .. } ==> (b matches AssignmentView::Single { op: o, .. } && o
            == op),
        a matches AssignmentView::Infallible { op, .. } ==> (b matches AssignmentView::Infallible {
            op: o,
            ..
        } && o == op),
{
}

/// Equal function calls call the same function, in the same way, with as many
/// arguments, the same keywords, and a closure over the same variables or
/// none.
pub proof fn law_equal_calls(a: FunctionCallView, b: FunctionCallView)
    requires
        se_call(a, b),
    ensures
        a.ident.node == b.ident.node,
        a.abort_on_error == b.abort_on_error,
        a.arguments.len() == b.arguments.len(),
        forall|i: int|
            0 <= i < a.arguments.len() ==> (#[trigger] a.arguments[i].node.ident is Some <==> b.arguments[i].node.ident is Some),
        forall|i: int|
            0 <= i < a.arguments.len() ==> (#[trigger] a.arguments[i].node.ident matches Some(x) ==> (
            b.arguments[i].node.ident matches Some(y) && x.node == y.node)),
        a.closure is Some <==> b.closure is Some,
        forall|i: int|
            0 <= i < a.arguments.len() ==> #[trigger] se_expr(
                a.arguments[i].node.expr.node,
                b.arguments[i].node.expr.node,
            ),
        a.closure matches Some(c) ==> (b.closure matches Some(d) && se_exprs(c.node.block.node, d.node.block.node)),
        a.closure matches Some(c) ==> (b.closure matches Some(d) && c.node.variables.len()
            == d.node.variables.len() && forall|i: int|
            0 <= i < c.node.variables.len() ==> #[trigger] c.node.variables[i].node
                == d.node.variables[i].node),
{
    lemma_equal_arguments(a.arguments, b.arguments);
    assert forall|i: int| 0 <= i < a.arguments.len() implies (#[trigger] a.arguments[i].node.ident is Some
        <==> b.arguments[i].node.ident is Some) && (a.arguments[i].node.ident matches Some(x) ==> (
    b.arguments[i].node.ident matches Some(y) && x.node == y.node)) by {
        assert(se_argument(a.arguments[i].node, b.arguments[i].node));
    }
    assert forall|i: int| 0 <= i < a.arguments.len() implies #[trigger] se_expr(
        a.arguments[i].node.expr.node,
        b.arguments[i].node.expr.node,
    ) by {
        assert(se_argument(a.arguments[i].node, b.arguments[i].node));
    }
}

/// Equal argument lists are as long, and each pair of arguments is equal.
pub proof fn lemma_equal_arguments(
    a: Seq<NodeView<FunctionArgumentView>>,
    b: Seq<NodeView<FunctionArgumentView>>,
)
    requires
        se_arguments(a, b),
    ensures
        a.len() == b.len(),
        forall|i: int| 0 <= i < a.len() ==> #[trigger] se_argument(a[i].node, b[i].node),
    decreases a.len(),
{
    if a.len() > 0 {
        lemma_equal_arguments(a.drop_last(), b.drop_last());
        assert forall|i: int| 0 <= i < a.len() implies #[trigger] se_argument(a[i].node, b[i].node) by {
            if i < a.len() - 1 {
                assert(a.drop_last()[i] == a[i]);
                assert(b.drop_last()[i] == b[i]);
            }
        }
    }
}

/// Equal lists of expressions are as long, and each pair of expressions is
/// equal.
pub proof fn law_equal_expr_lists(a: ExprsView, b: ExprsView)
    requires
        se_exprs(a, b),
    ensures
        a.len() == b.len(),
        forall|i: int| 0 <= i < a.len() ==> #[trigger] se_expr(a[i].node, b[i].node),
    decreases a.len(),
{
    if a.len() > 0 {
        law_equal_expr_lists(a.drop_last(), b.drop_last());
        assert forall|i: int| 0 <= i < a.len() implies #[trigger] se_expr(a[i].node, b[i].node) by {
            if i < a.len() - 1 {
                assert(a.drop_last()[i] == a[i]);
                assert(b.drop_last()[i] == b[i]);
            } else {
                assert(se_node_expr(a.last(), b.last()));
            }
        }
    }
}

/// Equal objects have as many entries, and every key of the first is a key
/// of the second, with an equal value.
pub proof fn law_equal_objects(a: EntriesView, b: EntriesView)
    requires
        se_entries(a, b),
    ensures
        a.len() == b.len(),
        forall|i: int|
            0 <= i < a.len() ==> exists|j: int|
                0 <= j < b.len() && #[trigger] a[i].0.node == #[trigger] b[j].0.node && se_expr(
                    a[i].1.node,
                    b[j].1.node,
                ),
{
    lemma_found_each(a, b);
    assert forall|i: int| 0 <= i < a.len() implies exists|j: int|
        0 <= j < b.len() && #[trigger] a[i].0.node == #[trigger] b[j].0.node && se_expr(
            a[i].1.node,
            b[j].1.node,
        ) by {
        assert(se_entry_found(a[i], b));
        lemma_found_witness(a[i], b);
    }
}

/// Equal containers are of the same kind and hold as many elements or
/// entries.
pub proof fn law_equal_containers(a: ContainerView, b: ContainerView)
    requires
        se_container(a, b),
    ensures
        a is Group <==> b is Group,
        a is Block <==> b is Block,
        a is Array <==> b is Array,
        a is Object <==> b is Object,
        a matches ContainerView::Block(x) ==> (b matches ContainerView::Block(y) && x.node.len()
            == y.node.len()),
        a matches ContainerView::Array(x) ==> (b matches ContainerView::Array(y) && x.node.len()
            == y.node.len()),
        a matches ContainerView::Object(x) ==> (b matches ContainerView::Object(y) && x.node.len()
            == y.node.len()),
{
    match (a, b) {
        (ContainerView::Block(x), ContainerView::Block(y)) => law_equal_expr_lists(x.node, y.node),
        (ContainerView::Array(x), ContainerView::Array(y)) => law_equal_expr_lists(x.node, y.node),
        (ContainerView::Object(x), ContainerView::Object(y)) => law_equal_objects(x.node, y.node),
        _ => {},
    }
}

/// Equal if statements test the same kind of predicate, with as many
/// expressions in their blocks, and both have an else branch or neither.
pub proof fn law_equal_ifs(a: IfStatementView, b: IfStatementView)
    requires
        se_if(a, b),
    ensures
        a.predicate.node is One <==> b.predicate.node is One,
        a.if_node.node.len() == b.if_node.node.len(),
        a.else_node is Some <==> b.else_node is Some,
        a.else_node matches Some(x) ==> (b.else_node matches Some(y) && se_exprs(x.node, y.node)),
        se_exprs(a.if_node.node, b.if_node.node),
        a.predicate.node matches PredicateView::One(x) ==> (b.predicate.node matches PredicateView::One(y)
            && se_expr(x.node, y.node)),
        a.predicate.node matches PredicateView::Many(x) ==> (b.predicate.node matches PredicateView::Many(y)
            && se_exprs(x, y)),
{
    law_equal_expr_lists(a.if_node.node, b.if_node.node);
    match (a.else_node, b.else_node) {
        (Some(x), Some(y)) => law_equal_expr_lists(x.node, y.node),
        _ => {},
    }
}

/// Equal aborts both have a message or neither.
pub proof fn law_equal_aborts(a: AbortView, b: AbortView)
    requires
        se_abort(a, b),
    ensures
        a.message is Some <==> b.message is Some,
        a.message matches Some(m) ==> (b.message matches Some(k) && se_expr(m.node, k.node)),
{
}

/// Equal root expressions are both expressions, or the same parse error.
pub proof fn law_equal_roots(a: RootExprView, b: RootExprView)
    requires
        se_root(a, b),
    ensures
        a is Expr <==> b is Expr,
        a matches RootExprView::Error(e) ==> b == RootExprView::Error(e),
{
}

/// Equal programs have as many root expressions, each equal to its
/// counterpart.
pub proof fn law_equal_programs(a: Seq<NodeView<RootExprView>>, b: Seq<NodeView<RootExprView>>)
    requires
        se_program(a, b),
    ensures
        a.len() == b.len(),
        forall|i: int| 0 <= i < a.len() ==> #[trigger] se_root(a[i].node, b[i].node),
{
}

} // verus!
