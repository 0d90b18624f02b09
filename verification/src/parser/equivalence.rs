//! Syntactic equality is transitive, and symmetric as long as no object of
//! either tree has two entries with the same key text. (With such duplicates
//! it need not be: an object's entries are matched by key text, and
//! `{ "a": 1, "a": 1 }` finds a match for each of its entries in
//! `{ "a": 1, "a": 2 }`, but not the other way round.)

use crate::parser::ast::{
    Expr, AssignmentTargetView, AssignmentView, ContainerView, EntriesView, ExprView, ExprsView,
    FunctionArgumentView, FunctionCallView, IfStatementView, NodeView, PredicateView, Program,
    QueryTargetView, QueryView, RootExprView, UnaryView,
};
use crate::parser::syntax_eq::{
    lemma_entry_found_at, se_argument, se_arguments, se_assignment, se_call, se_container,
    se_entries, se_entries_found, se_entry_found, se_expr, se_exprs, se_if, se_node_expr, se_query,
    se_query_target, se_root, se_target, SyntaxEq,
};
use vstd::prelude::*;
use vstd::set_lib::lemma_subset_equality;

verus! {

broadcast use vstd::seq_lib::seq_to_set_is_finite;

/// The key texts of an object's entries, in order.
pub open spec fn entry_keys(s: EntriesView) -> Seq<Seq<char>> {
    s.map_values(|e: (NodeView<Seq<char>>, NodeView<ExprView>)| e.0.node)
}

/// No two entries have the same key text.
pub open spec fn distinct_keys(s: EntriesView) -> bool {
    entry_keys(s).no_duplicates()
}

// -----------------------------------------------------------------------------
// every object of a tree has distinct keys
// -----------------------------------------------------------------------------

pub open spec fn unique_keys_node_expr(n: NodeView<ExprView>) -> bool
    decreases n, 0nat,
{
    unique_keys_expr(n.node)
}

pub open spec fn unique_keys_exprs(s: ExprsView) -> bool
    decreases s, 0nat,
{
    s.len() > 0 ==> unique_keys_exprs(s.drop_last()) && unique_keys_node_expr(s.last())
}

pub open spec fn unique_keys_entries(s: EntriesView) -> bool
    decreases s, 0nat,
{
    s.len() > 0 ==> unique_keys_entries(s.drop_last()) && unique_keys_node_expr(s.last().1)
}

pub open spec fn unique_keys_arguments(s: Seq<NodeView<FunctionArgumentView>>) -> bool
    decreases s, 0nat,
{
    s.len() > 0 ==> unique_keys_arguments(s.drop_last()) && unique_keys_node_expr(
        s.last().node.expr,
    )
}

pub open spec fn unique_keys_expr(e: ExprView) -> bool
    decreases e, 0nat,
{
    match e {
        ExprView::Container(x) => unique_keys_container(x.node),
        ExprView::IfStatement(x) => unique_keys_if(x.node),
        ExprView::Op(x) => unique_keys_node_expr(*x.node.0) && unique_keys_node_expr(*x.node.2),
        ExprView::Assignment(x) => unique_keys_assignment(x.node),
        ExprView::Query(x) => unique_keys_query(x.node),
        ExprView::FunctionCall(x) => unique_keys_call(x.node),
        ExprView::Unary(x) => match x.node {
            UnaryView::Not(n) => unique_keys_node_expr(*n.node.1),
        },
        ExprView::Abort(x) => match x.node.message {
            Some(m) => unique_keys_node_expr(*m),
            None => true,
        },
        ExprView::Return(x) => unique_keys_node_expr(*x.node.expr),
        _ => true,
    }
}

pub open spec fn unique_keys_container(c: ContainerView) -> bool
    decreases c, 0nat,
{
    match c {
        ContainerView::Group(x) => unique_keys_node_expr(x.node),
        ContainerView::Block(x) => unique_keys_exprs(x.node),
        ContainerView::Array(x) => unique_keys_exprs(x.node),
        ContainerView::Object(x) => distinct_keys(x.node) && unique_keys_entries(x.node),
    }
}

pub open spec fn unique_keys_if(a: IfStatementView) -> bool
    decreases a, 0nat,
{
    &&& match a.predicate.node {
        PredicateView::One(x) => unique_keys_node_expr(*x),
        PredicateView::Many(x) => unique_keys_exprs(x),
    }
    &&& unique_keys_exprs(a.if_node.node)
    &&& match a.else_node {
        Some(x) => unique_keys_exprs(x.node),
        None => true,
    }
}

pub open spec fn unique_keys_assignment(a: AssignmentView) -> bool
    decreases a, 0nat,
{
    match a {
        AssignmentView::Single { target, op, expr } => unique_keys_target(target.node)
            && unique_keys_node_expr(*expr),
        AssignmentView::Infallible { ok, err, op, expr } => unique_keys_target(ok.node)
            && unique_keys_target(err.node) && unique_keys_node_expr(*expr),
    }
}

pub open spec fn unique_keys_target(t: AssignmentTargetView) -> bool
    decreases t, 0nat,
{
    match t {
        AssignmentTargetView::Query(q) => unique_keys_query(q),
        _ => true,
    }
}

pub open spec fn unique_keys_query(q: QueryView) -> bool
    decreases q, 0nat,
{
    unique_keys_query_target(q.target.node)
}

pub open spec fn unique_keys_query_target(t: QueryTargetView) -> bool
    decreases t, 0nat,
{
    match t {
        QueryTargetView::Container(c) => unique_keys_container(c),
        QueryTargetView::FunctionCall(f) => unique_keys_call(f),
        _ => true,
    }
}

pub open spec fn unique_keys_call(f: FunctionCallView) -> bool
    decreases f, 0nat,
{
    &&& unique_keys_arguments(f.arguments)
    &&& match f.closure {
        Some(c) => unique_keys_exprs(c.node.block.node),
        None => true,
    }
}

pub open spec fn unique_keys_root(r: RootExprView) -> bool {
    match r {
        RootExprView::Expr(x) => unique_keys_node_expr(x),
        RootExprView::Error(_) => true,
    }
}

/// No object anywhere in the program has two entries with the same key text.
pub open spec fn unique_keys_program(p: Seq<NodeView<RootExprView>>) -> bool {
    forall|i: int| 0 <= i < p.len() ==> #[trigger] unique_keys_root(p[i].node)
}

// -----------------------------------------------------------------------------
// facts about matching entries
// -----------------------------------------------------------------------------

pub(crate) proof fn lemma_found_each(a: EntriesView, b: EntriesView)
    requires
        se_entries_found(a, b),
    ensures
        forall|i: int| 0 <= i < a.len() ==> #[trigger] se_entry_found(a[i], b),
    decreases a.len(),
{
    if a.len() > 0 {
        lemma_found_each(a.drop_last(), b);
        assert forall|i: int| 0 <= i < a.len() implies #[trigger] se_entry_found(a[i], b) by {
            if i < a.len() - 1 {
                assert(a.drop_last()[i] == a[i]);
            }
        }
    }
}

proof fn lemma_found_all(a: EntriesView, b: EntriesView)
    requires
        forall|i: int| 0 <= i < a.len() ==> #[trigger] se_entry_found(a[i], b),
    ensures
        se_entries_found(a, b),
    decreases a.len(),
{
    if a.len() > 0 {
        assert forall|i: int| 0 <= i < a.drop_last().len() implies #[trigger] se_entry_found(
            a.drop_last()[i],
            b,
        ) by {
            assert(a.drop_last()[i] == a[i]);
        }
        lemma_found_all(a.drop_last(), b);
        assert(se_entry_found(a[a.len() - 1], b));
    }
}

/// A match found in `b` is one of its entries.
pub(crate) proof fn lemma_found_witness(e: (NodeView<Seq<char>>, NodeView<ExprView>), b: EntriesView)
    requires
        se_entry_found(e, b),
    ensures
        exists|k: int|
            0 <= k < b.len() && e.0.node == #[trigger] b[k].0.node && se_node_expr(e.1, b[k].1),
    decreases b.len(),
{
    if e.0.node == b.last().0.node && se_node_expr(e.1, b.last().1) {
        assert(e.0.node == b[b.len() - 1].0.node);
    } else {
        lemma_found_witness(e, b.drop_last());
        let k = choose|k: int|
            0 <= k < b.drop_last().len() && e.0.node == #[trigger] b.drop_last()[k].0.node
                && se_node_expr(e.1, b.drop_last()[k].1);
        assert(b.drop_last()[k] == b[k]);
    }
}

proof fn lemma_unique_entries_each(s: EntriesView)
    requires
        unique_keys_entries(s),
    ensures
        forall|i: int| 0 <= i < s.len() ==> #[trigger] unique_keys_node_expr(s[i].1),
    decreases s.len(),
{
    if s.len() > 0 {
        lemma_unique_entries_each(s.drop_last());
        assert forall|i: int| 0 <= i < s.len() implies #[trigger] unique_keys_node_expr(s[i].1) by {
            if i < s.len() - 1 {
                assert(s.drop_last()[i] == s[i]);
            }
        }
    }
}

/// Two lists of distinct keys of the same length, the first contained in
/// the second, hold the same keys.
proof fn lemma_keys_cover(a: EntriesView, b: EntriesView)
    requires
        a.len() == b.len(),
        distinct_keys(a),
        distinct_keys(b),
        forall|i: int| 0 <= i < a.len() ==> entry_keys(b).contains(#[trigger] a[i].0.node),
    ensures
        forall|j: int| 0 <= j < b.len() ==> entry_keys(a).contains(#[trigger] b[j].0.node),
{
    let ka = entry_keys(a);
    let kb = entry_keys(b);
    ka.unique_seq_to_set();
    kb.unique_seq_to_set();
    assert forall|x: Seq<char>| ka.to_set().contains(x) implies kb.to_set().contains(x) by {
        let i = choose|i: int| 0 <= i < ka.len() && ka[i] == x;
        assert(ka[i] == a[i].0.node);
    }
    lemma_subset_equality(ka.to_set(), kb.to_set());
    assert forall|j: int| 0 <= j < b.len() implies ka.contains(#[trigger] b[j].0.node) by {
        assert(kb[j] == b[j].0.node);
        assert(kb.to_set().contains(kb[j]));
    }
}

// -----------------------------------------------------------------------------
// the symmetry of each relation
// -----------------------------------------------------------------------------

pub proof fn lemma_sym_node_expr(a: NodeView<ExprView>, b: NodeView<ExprView>)
    requires
        se_node_expr(a, b),
        unique_keys_node_expr(a),
        unique_keys_node_expr(b),
    ensures
        se_node_expr(b, a),
    decreases a, 0nat,
{
    lemma_sym_expr(a.node, b.node);
}

pub proof fn lemma_sym_exprs(a: ExprsView, b: ExprsView)
    requires
        se_exprs(a, b),
        unique_keys_exprs(a),
        unique_keys_exprs(b),
    ensures
        se_exprs(b, a),
    decreases a, 0nat,
{
    if a.len() > 0 {
        lemma_sym_exprs(a.drop_last(), b.drop_last());
        lemma_sym_node_expr(a.last(), b.last());
    }
}

pub proof fn lemma_sym_entries(a: EntriesView, b: EntriesView)
    requires
        se_entries(a, b),
        distinct_keys(a),
        distinct_keys(b),
        unique_keys_entries(a),
        unique_keys_entries(b),
    ensures
        se_entries(b, a),
    decreases a, 0nat,
{
    lemma_found_each(a, b);
    lemma_unique_entries_each(a);
    lemma_unique_entries_each(b);
    assert forall|i: int| 0 <= i < a.len() implies entry_keys(b).contains(#[trigger] a[i].0.node) by {
        assert(se_entry_found(a[i], b));
        lemma_found_witness(a[i], b);
        let k = choose|k: int|
            0 <= k < b.len() && a[i].0.node == #[trigger] b[k].0.node && se_node_expr(a[i].1, b[k].1);
        assert(entry_keys(b)[k] == a[i].0.node);
    }
    lemma_keys_cover(a, b);
    assert forall|j: int| 0 <= j < b.len() implies #[trigger] se_entry_found(b[j], a) by {
        assert(entry_keys(a).contains(b[j].0.node));
        let i = choose|i: int| 0 <= i < a.len() && entry_keys(a)[i] == b[j].0.node;
        assert(se_entry_found(a[i], b));
        lemma_found_witness(a[i], b);
        let k = choose|k: int|
            0 <= k < b.len() && a[i].0.node == #[trigger] b[k].0.node && se_node_expr(a[i].1, b[k].1);
        assert(entry_keys(b)[k] == entry_keys(b)[j]);
        assert(k == j);
        assert(decreases_to!(a => a[i]));
        assert(decreases_to!(a[i] => a[i].1));
        assert(unique_keys_node_expr(a[i].1));
        assert(unique_keys_node_expr(b[j].1));
        lemma_sym_node_expr(a[i].1, b[j].1);
        lemma_entry_found_at(b[j], a, i);
    }
    lemma_found_all(b, a);
}

pub proof fn lemma_sym_arguments(
    a: Seq<NodeView<FunctionArgumentView>>,
    b: Seq<NodeView<FunctionArgumentView>>,
)
    requires
        se_arguments(a, b),
        unique_keys_arguments(a),
        unique_keys_arguments(b),
    ensures
        se_arguments(b, a),
    decreases a, 0nat,
{
    if a.len() > 0 {
        lemma_sym_arguments(a.drop_last(), b.drop_last());
        lemma_sym_argument(a.last().node, b.last().node);
    }
}

pub proof fn lemma_sym_argument(a: FunctionArgumentView, b: FunctionArgumentView)
    requires
        se_argument(a, b),
        unique_keys_node_expr(a.expr),
        unique_keys_node_expr(b.expr),
    ensures
        se_argument(b, a),
    decreases a, 0nat,
{
    lemma_sym_node_expr(a.expr, b.expr);
}

pub proof fn lemma_sym_expr(a: ExprView, b: ExprView)
    requires
        se_expr(a, b),
        unique_keys_expr(a),
        unique_keys_expr(b),
    ensures
        se_expr(b, a),
    decreases a, 0nat,
{
    match (a, b) {
        (ExprView::Container(x), ExprView::Container(y)) => lemma_sym_container(x.node, y.node),
        (ExprView::IfStatement(x), ExprView::IfStatement(y)) => lemma_sym_if(x.node, y.node),
        (ExprView::Op(x), ExprView::Op(y)) => {
            lemma_sym_node_expr(*x.node.0, *y.node.0);
            lemma_sym_node_expr(*x.node.2, *y.node.2);
        },
        (ExprView::Assignment(x), ExprView::Assignment(y)) => lemma_sym_assignment(x.node, y.node),
        (ExprView::Query(x), ExprView::Query(y)) => lemma_sym_query(x.node, y.node),
        (ExprView::FunctionCall(x), ExprView::FunctionCall(y)) => lemma_sym_call(x.node, y.node),
        (ExprView::Unary(x), ExprView::Unary(y)) => match (x.node, y.node) {
            (UnaryView::Not(n), UnaryView::Not(m)) => lemma_sym_node_expr(*n.node.1, *m.node.1),
        },
        (ExprView::Abort(x), ExprView::Abort(y)) => match (x.node.message, y.node.message) {
            (Some(m), Some(k)) => lemma_sym_node_expr(*m, *k),
            _ => {},
        },
        (ExprView::Return(x), ExprView::Return(y)) => lemma_sym_node_expr(
            *x.node.expr,
            *y.node.expr,
        ),
        _ => {},
    }
}

pub proof fn lemma_sym_container(a: ContainerView, b: ContainerView)
    requires
        se_container(a, b),
        unique_keys_container(a),
        unique_keys_container(b),
    ensures
        se_container(b, a),
    decreases a, 0nat,
{
    match (a, b) {
        (ContainerView::Group(x), ContainerView::Group(y)) => lemma_sym_node_expr(x.node, y.node),
        (ContainerView::Block(x), ContainerView::Block(y)) => lemma_sym_exprs(x.node, y.node),
        (ContainerView::Array(x), ContainerView::Array(y)) => lemma_sym_exprs(x.node, y.node),
        (ContainerView::Object(x), ContainerView::Object(y)) => lemma_sym_entries(x.node, y.node),
        _ => {},
    }
}

pub proof fn lemma_sym_if(a: IfStatementView, b: IfStatementView)
    requires
        se_if(a, b),
        unique_keys_if(a),
        unique_keys_if(b),
    ensures
        se_if(b, a),
    decreases a, 0nat,
{
    match (a.predicate.node, b.predicate.node) {
        (PredicateView::One(x), PredicateView::One(y)) => lemma_sym_node_expr(*x, *y),
        (PredicateView::Many(x), PredicateView::Many(y)) => lemma_sym_exprs(x, y),
        _ => {},
    }
    lemma_sym_exprs(a.if_node.node, b.if_node.node);
    match (a.else_node, b.else_node) {
        (Some(x), Some(y)) => lemma_sym_exprs(x.node, y.node),
        _ => {},
    }
}

pub proof fn lemma_sym_assignment(a: AssignmentView, b: AssignmentView)
    requires
        se_assignment(a, b),
        unique_keys_assignment(a),
        unique_keys_assignment(b),
    ensures
        se_assignment(b, a),
    decreases a, 0nat,
{
    match (a, b) {
        (
            AssignmentView::Single { target: t1, op: o1, expr: e1 },
            AssignmentView::Single { target: t2, op: o2, expr: e2 },
        ) => {
            lemma_sym_target(t1.node, t2.node);
            lemma_sym_node_expr(*e1, *e2);
        },
        (
            AssignmentView::Infallible { ok: k1, err: r1, op: o1, expr: e1 },
            AssignmentView::Infallible { ok: k2, err: r2, op: o2, expr: e2 },
        ) => {
            lemma_sym_target(k1.node, k2.node);
            lemma_sym_target(r1.node, r2.node);
            lemma_sym_node_expr(*e1, *e2);
        },
        _ => {},
    }
}

pub proof fn lemma_sym_target(a: AssignmentTargetView, b: AssignmentTargetView)
    requires
        se_target(a, b),
        unique_keys_target(a),
        unique_keys_target(b),
    ensures
        se_target(b, a),
    decreases a, 0nat,
{
    match (a, b) {
        (AssignmentTargetView::Query(x), AssignmentTargetView::Query(y)) => lemma_sym_query(x, y),
        _ => {},
    }
}

pub proof fn lemma_sym_query(a: QueryView, b: QueryView)
    requires
        se_query(a, b),
        unique_keys_query(a),
        unique_keys_query(b),
    ensures
        se_query(b, a),
    decreases a, 0nat,
{
    lemma_sym_query_target(a.target.node, b.target.node);
}

pub proof fn lemma_sym_query_target(a: QueryTargetView, b: QueryTargetView)
    requires
        se_query_target(a, b),
        unique_keys_query_target(a),
        unique_keys_query_target(b),
    ensures
        se_query_target(b, a),
    decreases a, 0nat,
{
    match (a, b) {
        (QueryTargetView::Container(x), QueryTargetView::Container(y)) => lemma_sym_container(x, y),
        (QueryTargetView::FunctionCall(x), QueryTargetView::FunctionCall(y)) => lemma_sym_call(x, y),
        _ => {},
    }
}

pub proof fn lemma_sym_call(a: FunctionCallView, b: FunctionCallView)
    requires
        se_call(a, b),
        unique_keys_call(a),
        unique_keys_call(b),
    ensures
        se_call(b, a),
    decreases a, 0nat,
{
    lemma_sym_arguments(a.arguments, b.arguments);
    match (a.closure, b.closure) {
        (Some(x), Some(y)) => lemma_sym_exprs(x.node.block.node, y.node.block.node),
        _ => {},
    }
}

// -----------------------------------------------------------------------------
// the law
// -----------------------------------------------------------------------------

/// Syntactic equality of programs is symmetric when no object in either
/// program has two entries with the same key text.
pub proof fn syntax_eq_symmetric(a: Program, b: Program)
    requires
        unique_keys_program(a@),
        unique_keys_program(b@),
        a.spec_syntax_eq(&b),
    ensures
        b.spec_syntax_eq(&a),
{
    assert forall|i: int| 0 <= i < b@.len() implies #[trigger] se_root(b@[i].node, a@[i].node) by {
        assert(se_root(a@[i].node, b@[i].node));
        assert(unique_keys_root(a@[i].node));
        assert(unique_keys_root(b@[i].node));
        match (a@[i].node, b@[i].node) {
            (RootExprView::Expr(x), RootExprView::Expr(y)) => lemma_sym_node_expr(x, y),
            _ => {},
        }
    }
}

/// Syntactic equality of expressions is symmetric when no object in either
/// expression has two entries with the same key text.
pub proof fn syntax_eq_symmetric_expr(a: Expr, b: Expr)
    requires
        unique_keys_expr(a@),
        unique_keys_expr(b@),
        a.spec_syntax_eq(&b),
    ensures
        b.spec_syntax_eq(&a),
{
    lemma_sym_expr(a@, b@);
}

// -----------------------------------------------------------------------------
// transitivity
// -----------------------------------------------------------------------------

pub proof fn lemma_trans_node_expr(a: NodeView<ExprView>, b: NodeView<ExprView>, c: NodeView<ExprView>)
    requires
        se_node_expr(a, b),
        se_node_expr(b, c),
    ensures
        se_node_expr(a, c),
    decreases a, 0nat,
{
    lemma_trans_expr(a.node, b.node, c.node);
}

pub proof fn lemma_trans_exprs(a: ExprsView, b: ExprsView, c: ExprsView)
    requires
        se_exprs(a, b),
        se_exprs(b, c),
    ensures
        se_exprs(a, c),
    decreases a, 0nat,
{
    if a.len() > 0 {
        lemma_trans_exprs(a.drop_last(), b.drop_last(), c.drop_last());
        lemma_trans_node_expr(a.last(), b.last(), c.last());
    }
}

pub proof fn lemma_trans_entries(a: EntriesView, b: EntriesView, c: EntriesView)
    requires
        se_entries(a, b),
        se_entries(b, c),
    ensures
        se_entries(a, c),
    decreases a, 0nat,
{
    lemma_found_each(a, b);
    lemma_found_each(b, c);
    assert forall|i: int| 0 <= i < a.len() implies #[trigger] se_entry_found(a[i], c) by {
        assert(se_entry_found(a[i], b));
        lemma_found_witness(a[i], b);
        let j = choose|j: int|
            0 <= j < b.len() && a[i].0.node == #[trigger] b[j].0.node && se_node_expr(a[i].1, b[j].1);
        assert(se_entry_found(b[j], c));
        lemma_found_witness(b[j], c);
        let k = choose|k: int|
            0 <= k < c.len() && b[j].0.node == #[trigger] c[k].0.node && se_node_expr(b[j].1, c[k].1);
        assert(decreases_to!(a => a[i]));
        assert(decreases_to!(a[i] => a[i].1));
        lemma_trans_node_expr(a[i].1, b[j].1, c[k].1);
        lemma_entry_found_at(a[i], c, k);
    }
    lemma_found_all(a, c);
}

pub proof fn lemma_trans_arguments(
    a: Seq<NodeView<FunctionArgumentView>>,
    b: Seq<NodeView<FunctionArgumentView>>,
    c: Seq<NodeView<FunctionArgumentView>>,
)
    requires
        se_arguments(a, b),
        se_arguments(b, c),
    ensures
        se_arguments(a, c),
    decreases a, 0nat,
{
    if a.len() > 0 {
        lemma_trans_arguments(a.drop_last(), b.drop_last(), c.drop_last());
        lemma_trans_argument(a.last().node, b.last().node, c.last().node);
    }
}

pub proof fn lemma_trans_argument(a: FunctionArgumentView, b: FunctionArgumentView, c: FunctionArgumentView)
    requires
        se_argument(a, b),
        se_argument(b, c),
    ensures
        se_argument(a, c),
    decreases a, 0nat,
{
    lemma_trans_node_expr(a.expr, b.expr, c.expr);
}

pub proof fn lemma_trans_expr(a: ExprView, b: ExprView, c: ExprView)
    requires
        se_expr(a, b),
        se_expr(b, c),
    ensures
        se_expr(a, c),
    decreases a, 0nat,
{
    match (a, b, c) {
        (ExprView::Container(x), ExprView::Container(y), ExprView::Container(z)) => lemma_trans_container(
            x.node,
            y.node,
            z.node,
        ),
        (ExprView::IfStatement(x), ExprView::IfStatement(y), ExprView::IfStatement(z)) => lemma_trans_if(
            x.node,
            y.node,
            z.node,
        ),
        (ExprView::Op(x), ExprView::Op(y), ExprView::Op(z)) => {
            lemma_trans_node_expr(*x.node.0, *y.node.0, *z.node.0);
            lemma_trans_node_expr(*x.node.2, *y.node.2, *z.node.2);
        },
        (ExprView::Assignment(x), ExprView::Assignment(y), ExprView::Assignment(z)) => lemma_trans_assignment(
            x.node,
            y.node,
            z.node,
        ),
        (ExprView::Query(x), ExprView::Query(y), ExprView::Query(z)) => lemma_trans_query(
            x.node,
            y.node,
            z.node,
        ),
        (ExprView::FunctionCall(x), ExprView::FunctionCall(y), ExprView::FunctionCall(z)) => lemma_trans_call(
            x.node,
            y.node,
            z.node,
        ),
        (ExprView::Unary(x), ExprView::Unary(y), ExprView::Unary(z)) => match (x.node, y.node, z.node) {
            (UnaryView::Not(n), UnaryView::Not(m), UnaryView::Not(o)) => lemma_trans_node_expr(
                *n.node.1,
                *m.node.1,
                *o.node.1,
            ),
        },
        (ExprView::Abort(x), ExprView::Abort(y), ExprView::Abort(z)) => match (
            x.node.message,
            y.node.message,
            z.node.message,
        ) {
            (Some(m), Some(k), Some(o)) => lemma_trans_node_expr(*m, *k, *o),
            _ => {},
        },
        (ExprView::Return(x), ExprView::Return(y), ExprView::Return(z)) => lemma_trans_node_expr(
            *x.node.expr,
            *y.node.expr,
            *z.node.expr,
        ),
        _ => {},
    }
}

pub proof fn lemma_trans_container(a: ContainerView, b: ContainerView, c: ContainerView)
    requires
        se_container(a, b),
        se_container(b, c),
    ensures
        se_container(a, c),
    decreases a, 0nat,
{
    match (a, b, c) {
        (ContainerView::Group(x), ContainerView::Group(y), ContainerView::Group(z)) => lemma_trans_node_expr(
            x.node,
            y.node,
            z.node,
        ),
        (ContainerView::Block(x), ContainerView::Block(y), ContainerView::Block(z)) => lemma_trans_exprs(
            x.node,
            y.node,
            z.node,
        ),
        (ContainerView::Array(x), ContainerView::Array(y), ContainerView::Array(z)) => lemma_trans_exprs(
            x.node,
            y.node,
            z.node,
        ),
        (ContainerView::Object(x), ContainerView::Object(y), ContainerView::Object(z)) => lemma_trans_entries(
            x.node,
            y.node,
            z.node,
        ),
        _ => {},
    }
}

pub proof fn lemma_trans_if(a: IfStatementView, b: IfStatementView, c: IfStatementView)
    requires
        se_if(a, b),
        se_if(b, c),
    ensures
        se_if(a, c),
    decreases a, 0nat,
{
    match (a.predicate.node, b.predicate.node, c.predicate.node) {
        (PredicateView::One(x), PredicateView::One(y), PredicateView::One(z)) => lemma_trans_node_expr(
            *x,
            *y,
            *z,
        ),
        (PredicateView::Many(x), PredicateView::Many(y), PredicateView::Many(z)) => lemma_trans_exprs(
            x,
            y,
            z,
        ),
        _ => {},
    }
    lemma_trans_exprs(a.if_node.node, b.if_node.node, c.if_node.node);
    match (a.else_node, b.else_node, c.else_node) {
        (Some(x), Some(y), Some(z)) => lemma_trans_exprs(x.node, y.node, z.node),
        _ => {},
    }
}

pub proof fn lemma_trans_assignment(a: AssignmentView, b: AssignmentView, c: AssignmentView)
    requires
        se_assignment(a, b),
        se_assignment(b, c),
    ensures
        se_assignment(a, c),
    decreases a, 0nat,
{
    match (a, b, c) {
        (
            AssignmentView::Single { target: t1, op: o1, expr: e1 },
            AssignmentView::Single { target: t2, op: o2, expr: e2 },
            AssignmentView::Single { target: t3, op: o3, expr: e3 },
        ) => {
            lemma_trans_target(t1.node, t2.node, t3.node);
            lemma_trans_node_expr(*e1, *e2, *e3);
        },
        (
            AssignmentView::Infallible { ok: k1, err: r1, op: o1, expr: e1 },
            AssignmentView::Infallible { ok: k2, err: r2, op: o2, expr: e2 },
            AssignmentView::Infallible { ok: k3, err: r3, op: o3, expr: e3 },
        ) => {
            lemma_trans_target(k1.node, k2.node, k3.node);
            lemma_trans_target(r1.node, r2.node, r3.node);
            lemma_trans_node_expr(*e1, *e2, *e3);
        },
        _ => {},
    }
}

pub proof fn lemma_trans_target(a: AssignmentTargetView, b: AssignmentTargetView, c: AssignmentTargetView)
    requires
        se_target(a, b),
        se_target(b, c),
    ensures
        se_target(a, c),
    decreases a, 0nat,
{
    match (a, b, c) {
        (
            AssignmentTargetView::Query(x),
            AssignmentTargetView::Query(y),
            AssignmentTargetView::Query(z),
        ) => lemma_trans_query(x, y, z),
        _ => {},
    }
}

pub proof fn lemma_trans_query(a: QueryView, b: QueryView, c: QueryView)
    requires
        se_query(a, b),
        se_query(b, c),
    ensures
        se_query(a, c),
    decreases a, 0nat,
{
    lemma_trans_query_target(a.target.node, b.target.node, c.target.node);
}

pub proof fn lemma_trans_query_target(a: QueryTargetView, b: QueryTargetView, c: QueryTargetView)
    requires
        se_query_target(a, b),
        se_query_target(b, c),
    ensures
        se_query_target(a, c),
    decreases a, 0nat,
{
    match (a, b, c) {
        (
            QueryTargetView::Container(x),
            QueryTargetView::Container(y),
            QueryTargetView::Container(z),
        ) => lemma_trans_container(x, y, z),
        (
            QueryTargetView::FunctionCall(x),
            QueryTargetView::FunctionCall(y),
            QueryTargetView::FunctionCall(z),
        ) => lemma_trans_call(x, y, z),
        _ => {},
    }
}

pub proof fn lemma_trans_call(a: FunctionCallView, b: FunctionCallView, c: FunctionCallView)
    requires
        se_call(a, b),
        se_call(b, c),
    ensures
        se_call(a, c),
    decreases a, 0nat,
{
    lemma_trans_arguments(a.arguments, b.arguments, c.arguments);
    match (a.closure, b.closure, c.closure) {
        (Some(x), Some(y), Some(z)) => lemma_trans_exprs(
            x.node.block.node,
            y.node.block.node,
            z.node.block.node,
        ),
        _ => {},
    }
}

/// Syntactic equality of programs is transitive.
pub proof fn syntax_eq_transitive(a: Program, b: Program, c: Program)
    requires
        a.spec_syntax_eq(&b),
        b.spec_syntax_eq(&c),
    ensures
        a.spec_syntax_eq(&c),
{
    assert forall|i: int| 0 <= i < a@.len() implies #[trigger] se_root(a@[i].node, c@[i].node) by {
        assert(se_root(a@[i].node, b@[i].node));
        assert(se_root(b@[i].node, c@[i].node));
        match (a@[i].node, b@[i].node, c@[i].node) {
            (RootExprView::Expr(x), RootExprView::Expr(y), RootExprView::Expr(z)) => lemma_trans_node_expr(
                x,
                y,
                z,
            ),
            _ => {},
        }
    }
}

/// Syntactic equality of expressions is transitive.
pub proof fn syntax_eq_transitive_expr(a: Expr, b: Expr, c: Expr)
    requires
        a.spec_syntax_eq(&b),
        b.spec_syntax_eq(&c),
    ensures
        a.spec_syntax_eq(&c),
{
    lemma_trans_expr(a@, b@, c@);
}

} // verus!
