//! The syntax tree of a program, the mathematical view of each of its
//! types, and the operations on nodes.
//!
//! Every node carries the span of source text it was parsed from. Strings
//! are viewed as character sequences and vectors as sequences, so that two
//! trees with the same view hold the same content.

use crate::diagnostic::Span;
use crate::parser::template_string::{StringSegmentView, TemplateString};
use crate::path::{OwnedTargetPath, OwnedValuePath, PathPrefix, SegmentView, TargetPathView};
use crate::value::float::{float_bits_eq, FloatBits};
use vstd::prelude::*;

verus! {

// -----------------------------------------------------------------------------
// node
// -----------------------------------------------------------------------------

/// A value of the tree together with the span of source it came from.
#[derive(Clone, Debug, PartialEq, Eq, PartialOrd, Ord, Hash)]
pub struct Node<T> {
    pub span: Span,
    pub node: T,
}

pub struct NodeView<V> {
    pub span: Span,
    pub node: V,
}

impl<T: View> View for Node<T> {
    type V = NodeView<T::V>;

    open spec fn view(&self) -> NodeView<T::V> {
        NodeView { span: self.span, node: self.node@ }
    }
}

impl<T> Node<T> {
    /// Transform the inner value, keeping the span.
    pub fn map<R>(self, mut f: impl FnMut(T) -> R) -> (r: Node<R>)
        requires
            f.requires((self.node,)),
        ensures
            r.span == self.span,
            f.ensures((self.node,), r.node),
    {
        let Node { span, node } = self;
        Node { span, node: f(node) }
    }

    /// Transform the inner value with a function that may give nothing;
    /// the result keeps the span, and is `None` when the function gives `None`.
    pub fn map_option<R>(self, mut f: impl FnMut(T) -> Option<R>) -> (r: Option<Node<R>>)
        requires
            f.requires((self.node,)),
        ensures
            match r {
                Some(n) => n.span == self.span && f.ensures((self.node,), Some(n.node)),
                None => f.ensures((self.node,), None::<R>),
            },
    {
        let Node { span, node } = self;
        let node = f(node)?;
        Some(Node { span, node })
    }

    /// A node holding `node`, spanning `span`.
    pub fn new(span: Span, node: T) -> (r: Self)
        ensures
            r.span == span,
            r.node == node,
    {
        Node { span, node }
    }

    /// A copy of the span of the node.
    pub fn span(&self) -> (r: Span)
        ensures
            r == self.span,
    {
        self.span
    }

    /// The starting byte of the node within the source.
    pub fn start(&self) -> (r: usize)
        ensures
            r == self.span.start(),
    {
        self.span.start()
    }

    /// The ending byte of the node within the source.
    pub fn end(&self) -> (r: usize)
        ensures
            r == self.span.end(),
    {
        self.span.end()
    }

    /// A reference to the inner value.
    pub fn inner(&self) -> (r: &T)
        ensures
            *r == self.node,
    {
        &self.node
    }

    /// Consume the node, giving its span and inner value.
    pub fn take(self) -> (r: (Span, T))
        ensures
            r.0 == self.span,
            r.1 == self.node,
    {
        (self.span, self.node)
    }

    /// Consume the node, giving its inner value.
    pub fn into_inner(self) -> (r: T)
        ensures
            r == self.node,
    {
        self.node
    }

    /// Consume the node, giving its start, inner value and end.
    pub fn into_spanned(self) -> (r: (usize, T, usize))
        ensures
            r.0 == self.span.start(),
            r.1 == self.node,
            r.2 == self.span.end(),
    {
        let Node { span, node } = self;
        (span.start(), node, span.end())
    }

    /// The inner value, dereferenced.
    pub fn as_deref(&self) -> (r: &T::Target) where T: core::ops::Deref
        ensures
            call_ensures(T::deref, (&self.node,), r),
    {
        self.node.deref()
    }
}

impl<T> core::ops::Deref for Node<T> {
    type Target = T;

    fn deref(&self) -> (r: &T)
        ensures
            *r == self.node,
    {
        &self.node
    }
}

impl<T> AsRef<T> for Node<T> {
    fn as_ref(&self) -> (r: &T)
        ensures
            *r == self.node,
    {
        &self.node
    }
}

// -----------------------------------------------------------------------------
// types of the tree
// -----------------------------------------------------------------------------

/// A whole program: a list of root expressions.
#[derive(Debug, PartialEq)]
pub struct Program(pub Vec<Node<RootExpr>>);

/// What the parser reports in place of an expression it could not parse.
#[derive(Debug, PartialEq, Eq)]
pub struct Error {
    pub span: Span,
    pub message: String,
}

/// A top-level expression, or the error the parser left in its place so
/// that it could go on with the next expression.
#[derive(Debug, PartialEq)]
pub enum RootExpr {
    Expr(Node<Expr>),
    Error(Error),
}

#[derive(Debug, PartialEq)]
pub enum Expr {
    Literal(Node<Literal>),
    Container(Node<Container>),
    IfStatement(Node<IfStatement>),
    Op(Node<Op>),
    Assignment(Node<Assignment>),
    Query(Node<Query>),
    FunctionCall(Node<FunctionCall>),
    Variable(Node<Ident>),
    Unary(Node<Unary>),
    Abort(Node<Abort>),
    Return(Node<Return>),
}

/// A name: of a variable, a function, a closure parameter.
#[derive(Debug, PartialEq, Eq, Hash, PartialOrd, Ord)]
pub struct Ident(pub String);

#[derive(Debug, PartialEq, Eq)]
pub enum Literal {
    String(TemplateString),
    RawString(String),
    Integer(i64),
    Float(FloatBits),
    Boolean(bool),
    Regex(String),
    Timestamp(String),
    Null,
}

#[derive(Debug, PartialEq)]
pub enum Container {
    Group(Box<Node<Group>>),
    Block(Node<Block>),
    Array(Node<Array>),
    Object(Node<Object>),
}

#[derive(Debug, PartialEq)]
pub struct Block(pub Vec<Node<Expr>>);

#[derive(Debug, PartialEq)]
pub struct Group(pub Node<Expr>);

#[derive(Debug, PartialEq)]
pub struct Array(pub Vec<Node<Expr>>);

/// The entries of an object literal, ordered by key (span first, then text)
/// with no key twice: `Object::from_entries` builds one so.
#[derive(Debug, PartialEq)]
pub struct Object(pub Vec<(Node<String>, Node<Expr>)>);

#[derive(Debug, PartialEq)]
pub struct IfStatement {
    pub predicate: Node<Predicate>,
    pub if_node: Node<Block>,
    pub else_node: Option<Node<Block>>,
}

#[derive(Debug, PartialEq)]
pub enum Predicate {
    One(Box<Node<Expr>>),
    Many(Vec<Node<Expr>>),
}

#[derive(Debug, PartialEq)]
pub struct Op(pub Box<Node<Expr>>, pub Node<Opcode>, pub Box<Node<Expr>>);

#[derive(Copy, Clone, Debug, PartialEq, Eq, Hash, Structural)]
pub enum Opcode {
    Mul,
    Div,
    Add,
    Sub,
    Or,
    And,
    ErrorCoalesce,
    Ne,
    Eq,
    Ge,
    Gt,
    Le,
    Lt,
    Merge,
}

#[derive(Debug, PartialEq)]
pub enum Assignment {
    Single { target: Node<AssignmentTarget>, op: AssignmentOp, expr: Box<Node<Expr>> },
    Infallible {
        ok: Node<AssignmentTarget>,
        err: Node<AssignmentTarget>,
        op: AssignmentOp,
        expr: Box<Node<Expr>>,
    },
}

#[derive(Copy, Clone, Debug, PartialEq, Eq, Hash, Structural)]
pub enum AssignmentOp {
    Assign,
    Merge,
}

#[derive(Debug, PartialEq)]
pub enum AssignmentTarget {
    Noop,
    Query(Query),
    Internal(Ident, Option<OwnedValuePath>),
    External(Option<OwnedTargetPath>),
}

#[derive(Debug, PartialEq)]
pub struct Query {
    pub target: Node<QueryTarget>,
    pub path: Node<OwnedValuePath>,
}

#[derive(Debug, PartialEq)]
pub enum QueryTarget {
    Internal(Ident),
    External(PathPrefix),
    FunctionCall(FunctionCall),
    Container(Container),
}

/// A function call: the function's name, whether it aborts on error
/// (`f!(..)`), its arguments and an optional closure.
#[derive(Debug, PartialEq)]
pub struct FunctionCall {
    pub ident: Node<Ident>,
    pub abort_on_error: bool,
    pub arguments: Vec<Node<FunctionArgument>>,
    pub closure: Option<Node<FunctionClosure>>,
}

/// An argument of a call; with an identifier it is a keyword argument.
#[derive(Debug, PartialEq)]
pub struct FunctionArgument {
    pub ident: Option<Node<Ident>>,
    pub expr: Node<Expr>,
}

/// A closure attached to a function call.
#[derive(Debug, PartialEq)]
pub struct FunctionClosure {
    pub variables: Vec<Node<Ident>>,
    pub block: Node<Block>,
}

#[derive(Debug, PartialEq)]
pub enum Unary {
    Not(Node<Not>),
}

#[derive(Debug, PartialEq)]
pub struct Not(pub Node<()>, pub Box<Node<Expr>>);

#[derive(Debug, PartialEq)]
pub struct Abort {
    pub message: Option<Box<Node<Expr>>>,
}

#[derive(Debug, PartialEq)]
pub struct Return {
    pub expr: Box<Node<Expr>>,
}

// -----------------------------------------------------------------------------
// views
// -----------------------------------------------------------------------------

pub struct ErrorView {
    pub span: Span,
    pub message: Seq<char>,
}

pub enum RootExprView {
    Expr(NodeView<ExprView>),
    Error(ErrorView),
}

pub enum ExprView {
    Literal(NodeView<LiteralView>),
    Container(NodeView<ContainerView>),
    IfStatement(NodeView<IfStatementView>),
    Op(NodeView<OpView>),
    Assignment(NodeView<AssignmentView>),
    Query(NodeView<QueryView>),
    FunctionCall(NodeView<FunctionCallView>),
    Variable(NodeView<Seq<char>>),
    Unary(NodeView<UnaryView>),
    Abort(NodeView<AbortView>),
    Return(NodeView<ReturnView>),
}

pub enum LiteralView {
    String(Seq<StringSegmentView>),
    RawString(Seq<char>),
    Integer(i64),
    Float(FloatBits),
    Boolean(bool),
    Regex(Seq<char>),
    Timestamp(Seq<char>),
    Null,
}

pub type ExprsView = Seq<NodeView<ExprView>>;

pub type EntriesView = Seq<(NodeView<Seq<char>>, NodeView<ExprView>)>;

pub enum ContainerView {
    Group(Box<NodeView<NodeView<ExprView>>>),
    Block(NodeView<ExprsView>),
    Array(NodeView<ExprsView>),
    Object(NodeView<EntriesView>),
}

pub struct IfStatementView {
    pub predicate: NodeView<PredicateView>,
    pub if_node: NodeView<ExprsView>,
    pub else_node: Option<NodeView<ExprsView>>,
}

pub enum PredicateView {
    One(Box<NodeView<ExprView>>),
    Many(ExprsView),
}

pub struct OpView(pub Box<NodeView<ExprView>>, pub NodeView<Opcode>, pub Box<NodeView<ExprView>>);

pub enum AssignmentView {
    Single { target: NodeView<AssignmentTargetView>, op: AssignmentOp, expr: Box<NodeView<ExprView>> },
    Infallible {
        ok: NodeView<AssignmentTargetView>,
        err: NodeView<AssignmentTargetView>,
        op: AssignmentOp,
        expr: Box<NodeView<ExprView>>,
    },
}

pub enum AssignmentTargetView {
    Noop,
    Query(QueryView),
    Internal(Seq<char>, Option<Seq<SegmentView>>),
    External(Option<TargetPathView>),
}

pub struct QueryView {
    pub target: NodeView<QueryTargetView>,
    pub path: NodeView<Seq<SegmentView>>,
}

pub enum QueryTargetView {
    Internal(Seq<char>),
    External(PathPrefix),
    FunctionCall(FunctionCallView),
    Container(ContainerView),
}

pub struct FunctionCallView {
    pub ident: NodeView<Seq<char>>,
    pub abort_on_error: bool,
    pub arguments: Seq<NodeView<FunctionArgumentView>>,
    pub closure: Option<NodeView<FunctionClosureView>>,
}

pub struct FunctionArgumentView {
    pub ident: Option<NodeView<Seq<char>>>,
    pub expr: NodeView<ExprView>,
}

pub struct FunctionClosureView {
    pub variables: Seq<NodeView<Seq<char>>>,
    pub block: NodeView<ExprsView>,
}

pub enum UnaryView {
    Not(NodeView<NotView>),
}

pub struct NotView(pub NodeView<()>, pub Box<NodeView<ExprView>>);

pub struct AbortView {
    pub message: Option<Box<NodeView<ExprView>>>,
}

pub struct ReturnView {
    pub expr: Box<NodeView<ExprView>>,
}

impl View for Error {
    type V = ErrorView;

    open spec fn view(&self) -> ErrorView {
        ErrorView { span: self.span, message: self.message@ }
    }
}

impl View for Ident {
    type V = Seq<char>;

    open spec fn view(&self) -> Seq<char> {
        self.0@
    }
}

impl View for Opcode {
    type V = Opcode;

    open spec fn view(&self) -> Opcode {
        *self
    }
}

impl View for Literal {
    type V = LiteralView;

    open spec fn view(&self) -> LiteralView {
        match self {
            Literal::String(t) => LiteralView::String(t@),
            Literal::RawString(s) => LiteralView::RawString(s@),
            Literal::Integer(i) => LiteralView::Integer(*i),
            Literal::Float(f) => LiteralView::Float(*f),
            Literal::Boolean(b) => LiteralView::Boolean(*b),
            Literal::Regex(s) => LiteralView::Regex(s@),
            Literal::Timestamp(s) => LiteralView::Timestamp(s@),
            Literal::Null => LiteralView::Null,
        }
    }
}

pub open spec fn view_ident_nodes(s: Seq<Node<Ident>>) -> Seq<NodeView<Seq<char>>> {
    s.map_values(|n: Node<Ident>| n@)
}

pub open spec fn view_opt_path(p: Option<OwnedValuePath>) -> Option<Seq<SegmentView>> {
    match p {
        Some(p) => Some(p@),
        None => None,
    }
}

pub open spec fn view_opt_target_path(p: Option<OwnedTargetPath>) -> Option<TargetPathView> {
    match p {
        Some(p) => Some(p@),
        None => None,
    }
}

pub open spec fn view_opt_ident_node(n: Option<Node<Ident>>) -> Option<NodeView<Seq<char>>> {
    match n {
        Some(n) => Some(n@),
        None => None,
    }
}

pub open spec fn view_node_expr(n: Node<Expr>) -> NodeView<ExprView>
    decreases n,
{
    NodeView { span: n.span, node: view_expr(n.node) }
}

pub open spec fn view_exprs(s: Seq<Node<Expr>>) -> ExprsView
    decreases s,
{
    Seq::new(
        s.len(),
        |i: int|
            if 0 <= i < s.len() {
                view_node_expr(s[i])
            } else {
                arbitrary()
            },
    )
}

pub open spec fn view_block_node(n: Node<Block>) -> NodeView<ExprsView>
    decreases n,
{
    NodeView { span: n.span, node: view_exprs(n.node.0@) }
}

pub open spec fn view_entries(s: Seq<(Node<String>, Node<Expr>)>) -> EntriesView
    decreases s,
{
    Seq::new(
        s.len(),
        |i: int|
            if 0 <= i < s.len() {
                (s[i].0@, view_node_expr(s[i].1))
            } else {
                arbitrary()
            },
    )
}

pub open spec fn view_expr(e: Expr) -> ExprView
    decreases e,
{
    match e {
        Expr::Literal(n) => ExprView::Literal(n@),
        Expr::Container(n) => ExprView::Container(NodeView { span: n.span, node: view_container(n.node) }),
        Expr::IfStatement(n) => ExprView::IfStatement(NodeView { span: n.span, node: view_if(n.node) }),
        Expr::Op(n) => ExprView::Op(NodeView { span: n.span, node: view_op(n.node) }),
        Expr::Assignment(n) => ExprView::Assignment(NodeView { span: n.span, node: view_assignment(n.node) }),
        Expr::Query(n) => ExprView::Query(NodeView { span: n.span, node: view_query(n.node) }),
        Expr::FunctionCall(n) => ExprView::FunctionCall(NodeView { span: n.span, node: view_call(n.node) }),
        Expr::Variable(n) => ExprView::Variable(n@),
        Expr::Unary(n) => ExprView::Unary(NodeView { span: n.span, node: view_unary(n.node) }),
        Expr::Abort(n) => ExprView::Abort(NodeView { span: n.span, node: view_abort(n.node) }),
        Expr::Return(n) => ExprView::Return(NodeView { span: n.span, node: view_return(n.node) }),
    }
}

pub open spec fn view_container(c: Container) -> ContainerView
    decreases c,
{
    match c {
        Container::Group(g) => ContainerView::Group(Box::new(NodeView { span: g.span, node: view_node_expr(g.node.0) })),
        Container::Block(b) => ContainerView::Block(view_block_node(b)),
        Container::Array(a) => ContainerView::Array(NodeView { span: a.span, node: view_exprs(a.node.0@) }),
        Container::Object(o) => ContainerView::Object(NodeView { span: o.span, node: view_entries(o.node.0@) }),
    }
}

pub open spec fn view_if(i: IfStatement) -> IfStatementView
    decreases i,
{
    IfStatementView {
        predicate: NodeView { span: i.predicate.span, node: view_predicate(i.predicate.node) },
        if_node: view_block_node(i.if_node),
        else_node: match i.else_node {
            Some(b) => Some(view_block_node(b)),
            None => None,
        },
    }
}

pub open spec fn view_predicate(p: Predicate) -> PredicateView
    decreases p,
{
    match p {
        Predicate::One(e) => PredicateView::One(Box::new(view_node_expr(*e))),
        Predicate::Many(es) => PredicateView::Many(view_exprs(es@)),
    }
}

pub open spec fn view_op(o: Op) -> OpView
    decreases o,
{
    OpView(Box::new(view_node_expr(*o.0)), o.1@, Box::new(view_node_expr(*o.2)))
}

pub open spec fn view_assignment(a: Assignment) -> AssignmentView
    decreases a,
{
    match a {
        Assignment::Single { target, op, expr } => AssignmentView::Single {
            target: NodeView { span: target.span, node: view_target(target.node) },
            op,
            expr: Box::new(view_node_expr(*expr)),
        },
        Assignment::Infallible { ok, err, op, expr } => AssignmentView::Infallible {
            ok: NodeView { span: ok.span, node: view_target(ok.node) },
            err: NodeView { span: err.span, node: view_target(err.node) },
            op,
            expr: Box::new(view_node_expr(*expr)),
        },
    }
}

pub open spec fn view_target(t: AssignmentTarget) -> AssignmentTargetView
    decreases t,
{
    match t {
        AssignmentTarget::Noop => AssignmentTargetView::Noop,
        AssignmentTarget::Query(q) => AssignmentTargetView::Query(view_query(q)),
        AssignmentTarget::Internal(i, p) => AssignmentTargetView::Internal(i@, view_opt_path(p)),
        AssignmentTarget::External(p) => AssignmentTargetView::External(view_opt_target_path(p)),
    }
}

pub open spec fn view_query(q: Query) -> QueryView
    decreases q,
{
    QueryView {
        target: NodeView { span: q.target.span, node: view_query_target(q.target.node) },
        path: q.path@,
    }
}

pub open spec fn view_query_target(t: QueryTarget) -> QueryTargetView
    decreases t,
{
    match t {
        QueryTarget::Internal(i) => QueryTargetView::Internal(i@),
        QueryTarget::External(p) => QueryTargetView::External(p),
        QueryTarget::FunctionCall(f) => QueryTargetView::FunctionCall(view_call(f)),
        QueryTarget::Container(c) => QueryTargetView::Container(view_container(c)),
    }
}

pub open spec fn view_call(f: FunctionCall) -> FunctionCallView
    decreases f,
{
    FunctionCallView {
        ident: f.ident@,
        abort_on_error: f.abort_on_error,
        arguments: view_arguments(f.arguments@),
        closure: match f.closure {
            Some(c) => Some(NodeView { span: c.span, node: view_closure(c.node) }),
            None => None,
        },
    }
}

pub open spec fn view_arguments(s: Seq<Node<FunctionArgument>>) -> Seq<NodeView<FunctionArgumentView>>
    decreases s,
{
    Seq::new(
        s.len(),
        |i: int|
            if 0 <= i < s.len() {
                NodeView { span: s[i].span, node: view_argument(s[i].node) }
            } else {
                arbitrary()
            },
    )
}

pub open spec fn view_argument(a: FunctionArgument) -> FunctionArgumentView
    decreases a,
{
    FunctionArgumentView { ident: view_opt_ident_node(a.ident), expr: view_node_expr(a.expr) }
}

pub open spec fn view_closure(c: FunctionClosure) -> FunctionClosureView
    decreases c,
{
    FunctionClosureView { variables: view_ident_nodes(c.variables@), block: view_block_node(c.block) }
}

pub open spec fn view_unary(u: Unary) -> UnaryView
    decreases u,
{
    match u {
        Unary::Not(n) => UnaryView::Not(NodeView { span: n.span, node: view_not(n.node) }),
    }
}

pub open spec fn view_not(n: Not) -> NotView
    decreases n,
{
    NotView(n.0@, Box::new(view_node_expr(*n.1)))
}

pub open spec fn view_abort(a: Abort) -> AbortView
    decreases a,
{
    AbortView {
        message: match a.message {
            Some(m) => Some(Box::new(view_node_expr(*m))),
            None => None,
        },
    }
}

pub open spec fn view_return(r: Return) -> ReturnView
    decreases r,
{
    ReturnView { expr: Box::new(view_node_expr(*r.expr)) }
}

pub open spec fn view_root(r: RootExpr) -> RootExprView {
    match r {
        RootExpr::Expr(n) => RootExprView::Expr(view_node_expr(n)),
        RootExpr::Error(e) => RootExprView::Error(e@),
    }
}

pub open spec fn view_roots(s: Seq<Node<RootExpr>>) -> Seq<NodeView<RootExprView>> {
    s.map_values(|n: Node<RootExpr>| NodeView { span: n.span, node: view_root(n.node) })
}

impl View for Expr {
    type V = ExprView;

    open spec fn view(&self) -> ExprView {
        view_expr(*self)
    }
}

impl View for RootExpr {
    type V = RootExprView;

    open spec fn view(&self) -> RootExprView {
        view_root(*self)
    }
}

impl View for Program {
    type V = Seq<NodeView<RootExprView>>;

    open spec fn view(&self) -> Seq<NodeView<RootExprView>> {
        view_roots(self.0@)
    }
}

impl View for Container {
    type V = ContainerView;

    open spec fn view(&self) -> ContainerView {
        view_container(*self)
    }
}

impl View for Block {
    type V = ExprsView;

    open spec fn view(&self) -> ExprsView {
        view_exprs(self.0@)
    }
}

impl View for Group {
    type V = NodeView<ExprView>;

    open spec fn view(&self) -> NodeView<ExprView> {
        view_node_expr(self.0)
    }
}

impl View for Array {
    type V = ExprsView;

    open spec fn view(&self) -> ExprsView {
        view_exprs(self.0@)
    }
}

impl View for Object {
    type V = EntriesView;

    open spec fn view(&self) -> EntriesView {
        view_entries(self.0@)
    }
}

impl View for IfStatement {
    type V = IfStatementView;

    open spec fn view(&self) -> IfStatementView {
        view_if(*self)
    }
}

impl View for Predicate {
    type V = PredicateView;

    open spec fn view(&self) -> PredicateView {
        view_predicate(*self)
    }
}

impl View for Op {
    type V = OpView;

    open spec fn view(&self) -> OpView {
        view_op(*self)
    }
}

impl View for Assignment {
    type V = AssignmentView;

    open spec fn view(&self) -> AssignmentView {
        view_assignment(*self)
    }
}

impl View for AssignmentOp {
    type V = AssignmentOp;

    open spec fn view(&self) -> AssignmentOp {
        *self
    }
}

impl View for AssignmentTarget {
    type V = AssignmentTargetView;

    open spec fn view(&self) -> AssignmentTargetView {
        view_target(*self)
    }
}

impl View for Query {
    type V = QueryView;

    open spec fn view(&self) -> QueryView {
        view_query(*self)
    }
}

impl View for QueryTarget {
    type V = QueryTargetView;

    open spec fn view(&self) -> QueryTargetView {
        view_query_target(*self)
    }
}

impl View for FunctionCall {
    type V = FunctionCallView;

    open spec fn view(&self) -> FunctionCallView {
        view_call(*self)
    }
}

impl View for FunctionArgument {
    type V = FunctionArgumentView;

    open spec fn view(&self) -> FunctionArgumentView {
        view_argument(*self)
    }
}

impl View for FunctionClosure {
    type V = FunctionClosureView;

    open spec fn view(&self) -> FunctionClosureView {
        view_closure(*self)
    }
}

impl View for Unary {
    type V = UnaryView;

    open spec fn view(&self) -> UnaryView {
        view_unary(*self)
    }
}

impl View for Not {
    type V = NotView;

    open spec fn view(&self) -> NotView {
        view_not(*self)
    }
}

impl View for Abort {
    type V = AbortView;

    open spec fn view(&self) -> AbortView {
        view_abort(*self)
    }
}

impl View for Return {
    type V = ReturnView;

    open spec fn view(&self) -> ReturnView {
        view_return(*self)
    }
}

// -----------------------------------------------------------------------------
// copies
// -----------------------------------------------------------------------------

impl Clone for Ident {
    fn clone(&self) -> (r: Self)
        ensures
            r@ == self@,
    {
        Ident(self.0.clone())
    }
}

impl Clone for Error {
    fn clone(&self) -> (r: Self)
        ensures
            r@ == self@,
    {
        Error { span: self.span, message: self.message.clone() }
    }
}

impl Clone for Literal {
    fn clone(&self) -> (r: Self)
        ensures
            r@ == self@,
    {
        match self {
            Literal::String(t) => Literal::String(t.clone()),
            Literal::RawString(s) => Literal::RawString(s.clone()),
            Literal::Integer(i) => Literal::Integer(*i),
            Literal::Float(f) => Literal::Float(*f),
            Literal::Boolean(b) => Literal::Boolean(*b),
            Literal::Regex(s) => Literal::Regex(s.clone()),
            Literal::Timestamp(s) => Literal::Timestamp(s.clone()),
            Literal::Null => Literal::Null,
        }
    }
}

fn clone_ident_node(n: &Node<Ident>) -> (r: Node<Ident>)
    ensures
        r@ == n@,
{
    Node { span: n.span, node: n.node.clone() }
}

fn clone_ident_nodes(v: &Vec<Node<Ident>>) -> (r: Vec<Node<Ident>>)
    ensures
        view_ident_nodes(r@) == view_ident_nodes(v@),
{
    let mut out: Vec<Node<Ident>> = Vec::new();
    let mut i: usize = 0;
    while i < v.len()
        invariant
            i <= v@.len(),
            out@.len() == i,
            forall|j: int| 0 <= j < i ==> #[trigger] out@[j]@ == v@[j]@,
        decreases v@.len() - i,
    {
        out.push(clone_ident_node(&v[i]));
        i += 1;
    }
    assert(view_ident_nodes(out@) =~= view_ident_nodes(v@));
    out
}

fn clone_opt_path(p: &Option<OwnedValuePath>) -> (r: Option<OwnedValuePath>)
    ensures
        view_opt_path(r) == view_opt_path(*p),
{
    match p {
        Some(p) => Some(p.clone()),
        None => None,
    }
}

fn clone_opt_target_path(p: &Option<OwnedTargetPath>) -> (r: Option<OwnedTargetPath>)
    ensures
        view_opt_target_path(r) == view_opt_target_path(*p),
{
    match p {
        Some(p) => Some(p.clone()),
        None => None,
    }
}

fn clone_node_expr(n: &Node<Expr>) -> (r: Node<Expr>)
    ensures
        view_node_expr(r) == view_node_expr(*n),
    decreases n,
{
    Node { span: n.span, node: clone_expr(&n.node) }
}

fn clone_exprs(v: &Vec<Node<Expr>>) -> (r: Vec<Node<Expr>>)
    ensures
        view_exprs(r@) == view_exprs(v@),
    decreases v,
{
    let mut out: Vec<Node<Expr>> = Vec::new();
    let mut i: usize = 0;
    while i < v.len()
        invariant
            i <= v@.len(),
            out@.len() == i,
            forall|j: int| 0 <= j < i ==> #[trigger] view_node_expr(out@[j]) == view_node_expr(v@[j]),
        decreases v@.len() - i,
    {
        proof {
            assert(decreases_to!(*v => v@));
            assert(decreases_to!(v@ => v@[i as int]));
        }
        out.push(clone_node_expr(&v[i]));
        i += 1;
    }
    assert forall|j: int| 0 <= j < v@.len() implies view_exprs(out@)[j] == view_exprs(v@)[j] by {
        assert(view_node_expr(out@[j]) == view_node_expr(v@[j]));
    }
    assert(view_exprs(out@) =~= view_exprs(v@));
    out
}

fn clone_block_node(b: &Node<Block>) -> (r: Node<Block>)
    ensures
        view_block_node(r) == view_block_node(*b),
    decreases b,
{
    Node { span: b.span, node: Block(clone_exprs(&b.node.0)) }
}

fn clone_entries(v: &Vec<(Node<String>, Node<Expr>)>) -> (r: Vec<(Node<String>, Node<Expr>)>)
    ensures
        view_entries(r@) == view_entries(v@),
    decreases v,
{
    let mut out: Vec<(Node<String>, Node<Expr>)> = Vec::new();
    let mut i: usize = 0;
    while i < v.len()
        invariant
            i <= v@.len(),
            out@.len() == i,
            forall|j: int|
                0 <= j < i ==> (#[trigger] out@[j]).0@ == v@[j].0@ && view_node_expr(out@[j].1)
                    == view_node_expr(v@[j].1),
        decreases v@.len() - i,
    {
        proof {
            assert(decreases_to!(*v => v@));
            assert(decreases_to!(v@ => v@[i as int]));
            assert(decreases_to!(v@[i as int] => v@[i as int].1));
        }
        let key = Node { span: v[i].0.span, node: v[i].0.node.clone() };
        let value = clone_node_expr(&v[i].1);
        out.push((key, value));
        i += 1;
    }
    assert(view_entries(out@) =~= view_entries(v@));
    out
}

fn clone_expr(e: &Expr) -> (r: Expr)
    ensures
        r@ == e@,
    decreases e,
{
    match e {
        Expr::Literal(n) => Expr::Literal(Node { span: n.span, node: n.node.clone() }),
        Expr::Container(n) => Expr::Container(Node { span: n.span, node: clone_container(&n.node) }),
        Expr::IfStatement(n) => Expr::IfStatement(Node { span: n.span, node: clone_if(&n.node) }),
        Expr::Op(n) => Expr::Op(Node { span: n.span, node: clone_op(&n.node) }),
        Expr::Assignment(n) => Expr::Assignment(Node { span: n.span, node: clone_assignment(&n.node) }),
        Expr::Query(n) => Expr::Query(Node { span: n.span, node: clone_query(&n.node) }),
        Expr::FunctionCall(n) => Expr::FunctionCall(Node { span: n.span, node: clone_call(&n.node) }),
        Expr::Variable(n) => Expr::Variable(clone_ident_node(n)),
        Expr::Unary(n) => Expr::Unary(Node { span: n.span, node: clone_unary(&n.node) }),
        Expr::Abort(n) => Expr::Abort(Node { span: n.span, node: clone_abort(&n.node) }),
        Expr::Return(n) => Expr::Return(Node { span: n.span, node: clone_return(&n.node) }),
    }
}

fn clone_container(c: &Container) -> (r: Container)
    ensures
        r@ == c@,
    decreases c,
{
    match c {
        Container::Group(g) => Container::Group(
            Box::new(Node { span: g.span, node: Group(clone_node_expr(&g.node.0)) }),
        ),
        Container::Block(b) => Container::Block(clone_block_node(b)),
        Container::Array(a) => Container::Array(Node { span: a.span, node: Array(clone_exprs(&a.node.0)) }),
        Container::Object(o) => Container::Object(Node { span: o.span, node: Object(clone_entries(&o.node.0)) }),
    }
}

fn clone_if(i: &IfStatement) -> (r: IfStatement)
    ensures
        r@ == i@,
    decreases i,
{
    IfStatement {
        predicate: Node { span: i.predicate.span, node: clone_predicate(&i.predicate.node) },
        if_node: clone_block_node(&i.if_node),
        else_node: match &i.else_node {
            Some(b) => Some(clone_block_node(b)),
            None => None,
        },
    }
}

fn clone_predicate(p: &Predicate) -> (r: Predicate)
    ensures
        r@ == p@,
    decreases p,
{
    match p {
        Predicate::One(e) => Predicate::One(Box::new(clone_node_expr(&**e))),
        Predicate::Many(es) => Predicate::Many(clone_exprs(es)),
    }
}

fn clone_op(o: &Op) -> (r: Op)
    ensures
        r@ == o@,
    decreases o,
{
    Op(Box::new(clone_node_expr(&*o.0)), Node { span: o.1.span, node: o.1.node }, Box::new(clone_node_expr(&*o.2)))
}

fn clone_assignment(a: &Assignment) -> (r: Assignment)
    ensures
        r@ == a@,
    decreases a,
{
    match a {
        Assignment::Single { target, op, expr } => Assignment::Single {
            target: Node { span: target.span, node: clone_target(&target.node) },
            op: *op,
            expr: Box::new(clone_node_expr(&**expr)),
        },
        Assignment::Infallible { ok, err, op, expr } => Assignment::Infallible {
            ok: Node { span: ok.span, node: clone_target(&ok.node) },
            err: Node { span: err.span, node: clone_target(&err.node) },
            op: *op,
            expr: Box::new(clone_node_expr(&**expr)),
        },
    }
}

fn clone_target(t: &AssignmentTarget) -> (r: AssignmentTarget)
    ensures
        r@ == t@,
    decreases t,
{
    match t {
        AssignmentTarget::Noop => AssignmentTarget::Noop,
        AssignmentTarget::Query(q) => AssignmentTarget::Query(clone_query(q)),
        AssignmentTarget::Internal(i, p) => AssignmentTarget::Internal(i.clone(), clone_opt_path(p)),
        AssignmentTarget::External(p) => AssignmentTarget::External(clone_opt_target_path(p)),
    }
}

fn clone_query(q: &Query) -> (r: Query)
    ensures
        r@ == q@,
    decreases q,
{
    Query {
        target: Node { span: q.target.span, node: clone_query_target(&q.target.node) },
        path: Node { span: q.path.span, node: q.path.node.clone() },
    }
}

fn clone_query_target(t: &QueryTarget) -> (r: QueryTarget)
    ensures
        r@ == t@,
    decreases t,
{
    match t {
        QueryTarget::Internal(i) => QueryTarget::Internal(i.clone()),
        QueryTarget::External(p) => QueryTarget::External(*p),
        QueryTarget::FunctionCall(f) => QueryTarget::FunctionCall(clone_call(f)),
        QueryTarget::Container(c) => QueryTarget::Container(clone_container(c)),
    }
}

fn clone_call(f: &FunctionCall) -> (r: FunctionCall)
    ensures
        r@ == f@,
    decreases f,
{
    FunctionCall {
        ident: clone_ident_node(&f.ident),
        abort_on_error: f.abort_on_error,
        arguments: clone_arguments(&f.arguments),
        closure: match &f.closure {
            Some(c) => Some(Node { span: c.span, node: clone_closure(&c.node) }),
            None => None,
        },
    }
}

fn clone_arguments(v: &Vec<Node<FunctionArgument>>) -> (r: Vec<Node<FunctionArgument>>)
    ensures
        view_arguments(r@) == view_arguments(v@),
    decreases v,
{
    let mut out: Vec<Node<FunctionArgument>> = Vec::new();
    let mut i: usize = 0;
    while i < v.len()
        invariant
            i <= v@.len(),
            out@.len() == i,
            forall|j: int|
                0 <= j < i ==> (#[trigger] out@[j]).span == v@[j].span && view_argument(out@[j].node)
                    == view_argument(v@[j].node),
        decreases v@.len() - i,
    {
        proof {
            assert(decreases_to!(*v => v@));
            assert(decreases_to!(v@ => v@[i as int]));
            assert(decreases_to!(v@[i as int] => v@[i as int].node));
        }
        let arg = Node { span: v[i].span, node: clone_argument(&v[i].node) };
        out.push(arg);
        i += 1;
    }
    assert(view_arguments(out@) =~= view_arguments(v@));
    out
}

fn clone_argument(a: &FunctionArgument) -> (r: FunctionArgument)
    ensures
        r@ == a@,
    decreases a,
{
    FunctionArgument {
        ident: match &a.ident {
            Some(i) => Some(clone_ident_node(i)),
            None => None,
        },
        expr: clone_node_expr(&a.expr),
    }
}

fn clone_closure(c: &FunctionClosure) -> (r: FunctionClosure)
    ensures
        r@ == c@,
    decreases c,
{
    FunctionClosure { variables: clone_ident_nodes(&c.variables), block: clone_block_node(&c.block) }
}

fn clone_unary(u: &Unary) -> (r: Unary)
    ensures
        r@ == u@,
    decreases u,
{
    match u {
        Unary::Not(n) => Unary::Not(Node { span: n.span, node: clone_not(&n.node) }),
    }
}

fn clone_not(n: &Not) -> (r: Not)
    ensures
        r@ == n@,
    decreases n,
{
    Not(Node { span: n.0.span, node: () }, Box::new(clone_node_expr(&*n.1)))
}

fn clone_abort(a: &Abort) -> (r: Abort)
    ensures
        r@ == a@,
    decreases a,
{
    Abort {
        message: match &a.message {
            Some(m) => Some(Box::new(clone_node_expr(&**m))),
            None => None,
        },
    }
}

fn clone_return(r: &Return) -> (out: Return)
    ensures
        out@ == r@,
    decreases r,
{
    Return { expr: Box::new(clone_node_expr(&*r.expr)) }
}

fn clone_root(r: &RootExpr) -> (out: RootExpr)
    ensures
        out@ == r@,
{
    match r {
        RootExpr::Expr(n) => RootExpr::Expr(clone_node_expr(n)),
        RootExpr::Error(e) => RootExpr::Error(e.clone()),
    }
}

impl Clone for Expr {
    fn clone(&self) -> (r: Self)
        ensures
            r@ == self@,
    {
        clone_expr(self)
    }
}

impl Clone for RootExpr {
    fn clone(&self) -> (r: Self)
        ensures
            r@ == self@,
    {
        clone_root(self)
    }
}

impl Clone for Program {
    fn clone(&self) -> (r: Self)
        ensures
            r@ == self@,
    {
        let mut out: Vec<Node<RootExpr>> = Vec::new();
        let mut i: usize = 0;
        while i < self.0.len()
            invariant
                i <= self.0@.len(),
                out@.len() == i,
                forall|j: int|
                    0 <= j < i ==> (#[trigger] out@[j]).span == self.0@[j].span && view_root(out@[j].node)
                        == view_root(self.0@[j].node),
            decreases self.0@.len() - i,
        {
            out.push(Node { span: self.0[i].span, node: clone_root(&self.0[i].node) });
            i += 1;
        }
        let r = Program(out);
        assert(r@ =~= self@);
        r
    }
}

impl Clone for Container {
    fn clone(&self) -> (r: Self)
        ensures
            r@ == self@,
    {
        clone_container(self)
    }
}

impl Clone for Block {
    fn clone(&self) -> (r: Self)
        ensures
            r@ == self@,
    {
        Block(clone_exprs(&self.0))
    }
}

impl Clone for Group {
    fn clone(&self) -> (r: Self)
        ensures
            r@ == self@,
    {
        Group(clone_node_expr(&self.0))
    }
}

impl Clone for Array {
    fn clone(&self) -> (r: Self)
        ensures
            r@ == self@,
    {
        Array(clone_exprs(&self.0))
    }
}

impl Clone for Object {
    fn clone(&self) -> (r: Self)
        ensures
            r@ == self@,
    {
        Object(clone_entries(&self.0))
    }
}

impl Clone for IfStatement {
    fn clone(&self) -> (r: Self)
        ensures
            r@ == self@,
    {
        clone_if(self)
    }
}

impl Clone for Predicate {
    fn clone(&self) -> (r: Self)
        ensures
            r@ == self@,
    {
        clone_predicate(self)
    }
}

impl Clone for Op {
    fn clone(&self) -> (r: Self)
        ensures
            r@ == self@,
    {
        clone_op(self)
    }
}

impl Clone for Assignment {
    fn clone(&self) -> (r: Self)
        ensures
            r@ == self@,
    {
        clone_assignment(self)
    }
}

impl Clone for AssignmentTarget {
    fn clone(&self) -> (r: Self)
        ensures
            r@ == self@,
    {
        clone_target(self)
    }
}

impl Clone for Query {
    fn clone(&self) -> (r: Self)
        ensures
            r@ == self@,
    {
        clone_query(self)
    }
}

impl Clone for QueryTarget {
    fn clone(&self) -> (r: Self)
        ensures
            r@ == self@,
    {
        clone_query_target(self)
    }
}

impl Clone for FunctionCall {
    fn clone(&self) -> (r: Self)
        ensures
            r@ == self@,
    {
        clone_call(self)
    }
}

impl Clone for FunctionArgument {
    fn clone(&self) -> (r: Self)
        ensures
            r@ == self@,
    {
        clone_argument(self)
    }
}

impl Clone for FunctionClosure {
    fn clone(&self) -> (r: Self)
        ensures
            r@ == self@,
    {
        clone_closure(self)
    }
}

impl Clone for Unary {
    fn clone(&self) -> (r: Self)
        ensures
            r@ == self@,
    {
        clone_unary(self)
    }
}

impl Clone for Not {
    fn clone(&self) -> (r: Self)
        ensures
            r@ == self@,
    {
        clone_not(self)
    }
}

impl Clone for Abort {
    fn clone(&self) -> (r: Self)
        ensures
            r@ == self@,
    {
        clone_abort(self)
    }
}

impl Clone for Return {
    fn clone(&self) -> (r: Self)
        ensures
            r@ == self@,
    {
        clone_return(self)
    }
}

// -----------------------------------------------------------------------------
// operations on the tree
// -----------------------------------------------------------------------------

/// Whether two strings hold the same characters.
pub fn str_eq(a: &str, b: &str) -> (r: bool)
    ensures
        r == (a@ == b@),
{
    let n = a.unicode_len();
    if n != b.unicode_len() {
        return false;
    }
    let mut i: usize = 0;
    while i < n
        invariant
            n == a@.len(),
            n == b@.len(),
            i <= n,
            forall|j: int| 0 <= j < i ==> a@[j] == b@[j],
        decreases n - i,
    {
        if a.get_char(i) != b.get_char(i) {
            return false;
        }
        i += 1;
    }
    assert(a@ =~= b@);
    true
}

/// `String::from` on a string slice: std documents it as converting the
/// slice into an owned `String` holding the same text.
pub assume_specification<'a>[ <std::string::String as core::convert::From<&'a str>>::from ](s: &str) -> (r: std::string::String)
    ensures
        r@ == s@,
;

/// The identity conversion `From<T> for T`: std documents it as returning
/// its argument unchanged.
pub assume_specification<Y>[ <Y as core::convert::From<Y>>::from ](y: Y) -> (r: Y)
    ensures
        r == y,
;

impl Ident {
    /// An identifier with the given name.
    pub fn new<S: Into<String>>(ident: S) -> (r: Self)
        ensures
            call_ensures(S::into, (ident,), r.0),
    {
        Ident(ident.into())
    }

    /// The name of the identifier.
    pub fn into_inner(self) -> (r: String)
        ensures
            r@ == self@,
    {
        self.0
    }

    /// The name of the identifier, borrowed.
    pub fn as_str(&self) -> (r: &str)
        ensures
            r@ == self@,
    {
        self.0.as_str()
    }
}

impl core::ops::Deref for Ident {
    type Target = str;

    fn deref(&self) -> (r: &str)
        ensures
            r@ == self@,
    {
        self.0.as_str()
    }
}

impl AsRef<str> for Ident {
    fn as_ref(&self) -> (r: &str)
        ensures
            r@ == self@,
    {
        self.0.as_str()
    }
}

impl From<String> for Ident {
    fn from(ident: String) -> (r: Ident) {
        Ident(ident)
    }
}

impl vstd::std_specs::convert::FromSpecImpl<String> for Ident {
    open spec fn obeys_from_spec() -> bool {
        true
    }

    open spec fn from_spec(v: String) -> Ident {
        Ident(v)
    }
}

/// The source text of each operator.
pub open spec fn opcode_text(op: Opcode) -> Seq<char> {
    match op {
        Opcode::Mul => "*"@,
        Opcode::Div => "/"@,
        Opcode::Add => "+"@,
        Opcode::Sub => "-"@,
        Opcode::Merge => "|"@,
        Opcode::Or => "||"@,
        Opcode::And => "&&"@,
        Opcode::ErrorCoalesce => "??"@,
        Opcode::Ne => "!="@,
        Opcode::Eq => "=="@,
        Opcode::Ge => ">="@,
        Opcode::Gt => ">"@,
        Opcode::Le => "<="@,
        Opcode::Lt => "<"@,
    }
}

impl Opcode {
    /// The source text of the operator.
    pub fn as_str(self) -> (r: &'static str)
        ensures
            r@ == opcode_text(self),
    {
        match self {
            Opcode::Mul => "*",
            Opcode::Div => "/",
            Opcode::Add => "+",
            Opcode::Sub => "-",
            Opcode::Merge => "|",
            Opcode::Or => "||",
            Opcode::And => "&&",
            Opcode::ErrorCoalesce => "??",
            Opcode::Ne => "!=",
            Opcode::Eq => "==",
            Opcode::Ge => ">=",
            Opcode::Gt => ">",
            Opcode::Le => "<=",
            Opcode::Lt => "<",
        }
    }

    /// The operator whose source text is `s`; an error for any other text.
    pub fn from_str(s: &str) -> (r: Result<Opcode, ()>)
        ensures
            forall|op: Opcode| #[trigger] opcode_text(op) == s@ <==> r == Ok::<Opcode, ()>(op),
            r is Err <==> forall|op: Opcode| #[trigger] opcode_text(op) != s@,
    {
        proof {
            Self::lemma_opcode_text_injective();
        }
        if str_eq(s, "*") {
            proof {
                Self::lemma_text_is(s@, Opcode::Mul);
            }
            Ok(Opcode::Mul)
        } else if str_eq(s, "/") {
            proof {
                Self::lemma_text_is(s@, Opcode::Div);
            }
            Ok(Opcode::Div)
        } else if str_eq(s, "+") {
            proof {
                Self::lemma_text_is(s@, Opcode::Add);
            }
            Ok(Opcode::Add)
        } else if str_eq(s, "-") {
            proof {
                Self::lemma_text_is(s@, Opcode::Sub);
            }
            Ok(Opcode::Sub)
        } else if str_eq(s, "||") {
            proof {
                Self::lemma_text_is(s@, Opcode::Or);
            }
            Ok(Opcode::Or)
        } else if str_eq(s, "&&") {
            proof {
                Self::lemma_text_is(s@, Opcode::And);
            }
            Ok(Opcode::And)
        } else if str_eq(s, "??") {
            proof {
                Self::lemma_text_is(s@, Opcode::ErrorCoalesce);
            }
            Ok(Opcode::ErrorCoalesce)
        } else if str_eq(s, "!=") {
            proof {
                Self::lemma_text_is(s@, Opcode::Ne);
            }
            Ok(Opcode::Ne)
        } else if str_eq(s, "==") {
            proof {
                Self::lemma_text_is(s@, Opcode::Eq);
            }
            Ok(Opcode::Eq)
        } else if str_eq(s, ">=") {
            proof {
                Self::lemma_text_is(s@, Opcode::Ge);
            }
            Ok(Opcode::Ge)
        } else if str_eq(s, ">") {
            proof {
                Self::lemma_text_is(s@, Opcode::Gt);
            }
            Ok(Opcode::Gt)
        } else if str_eq(s, "<=") {
            proof {
                Self::lemma_text_is(s@, Opcode::Le);
            }
            Ok(Opcode::Le)
        } else if str_eq(s, "<") {
            proof {
                Self::lemma_text_is(s@, Opcode::Lt);
            }
            Ok(Opcode::Lt)
        } else if str_eq(s, "|") {
            proof {
                Self::lemma_text_is(s@, Opcode::Merge);
            }
            Ok(Opcode::Merge)
        } else {
            assert forall|op: Opcode| #[trigger] opcode_text(op) != s@ by {
                match op {
                    Opcode::Mul => {},
                    Opcode::Div => {},
                    Opcode::Add => {},
                    Opcode::Sub => {},
                    Opcode::Merge => {},
                    Opcode::Or => {},
                    Opcode::And => {},
                    Opcode::ErrorCoalesce => {},
                    Opcode::Ne => {},
                    Opcode::Eq => {},
                    Opcode::Ge => {},
                    Opcode::Gt => {},
                    Opcode::Le => {},
                    Opcode::Lt => {},
                }
            }
            Err(())
        }
    }

    proof fn lemma_text_is(s: Seq<char>, op: Opcode)
        requires
            s == opcode_text(op),
        ensures
            forall|o: Opcode| #[trigger] opcode_text(o) == s <==> o == op,
    {
        Self::lemma_opcode_text_injective();
    }

    /// Each operator is written as its usual symbol: `*`, `/`, `+`, `-`, `|`,
    /// `||`, `&&`, `??`, `!=`, `==`, `>=`, `>`, `<=` and `<`.
    pub proof fn law_opcode_symbols()
        ensures
            opcode_text(Opcode::Mul) == seq!['*'],
            opcode_text(Opcode::Div) == seq!['/'],
            opcode_text(Opcode::Add) == seq!['+'],
            opcode_text(Opcode::Sub) == seq!['-'],
            opcode_text(Opcode::Merge) == seq!['|'],
            opcode_text(Opcode::Or) == seq!['|', '|'],
            opcode_text(Opcode::And) == seq!['&', '&'],
            opcode_text(Opcode::ErrorCoalesce) == seq!['?', '?'],
            opcode_text(Opcode::Ne) == seq!['!', '='],
            opcode_text(Opcode::Eq) == seq!['=', '='],
            opcode_text(Opcode::Ge) == seq!['>', '='],
            opcode_text(Opcode::Gt) == seq!['>'],
            opcode_text(Opcode::Le) == seq!['<', '='],
            opcode_text(Opcode::Lt) == seq!['<'],
    {
        reveal_strlit("*");
        reveal_strlit("/");
        reveal_strlit("+");
        reveal_strlit("-");
        reveal_strlit("|");
        reveal_strlit("||");
        reveal_strlit("&&");
        reveal_strlit("??");
        reveal_strlit("!=");
        reveal_strlit("==");
        reveal_strlit(">=");
        reveal_strlit(">");
        reveal_strlit("<=");
        reveal_strlit("<");
        assert(opcode_text(Opcode::Mul) =~= seq!['*']);
        assert(opcode_text(Opcode::Div) =~= seq!['/']);
        assert(opcode_text(Opcode::Add) =~= seq!['+']);
        assert(opcode_text(Opcode::Sub) =~= seq!['-']);
        assert(opcode_text(Opcode::Merge) =~= seq!['|']);
        assert(opcode_text(Opcode::Or) =~= seq!['|', '|']);
        assert(opcode_text(Opcode::And) =~= seq!['&', '&']);
        assert(opcode_text(Opcode::ErrorCoalesce) =~= seq!['?', '?']);
        assert(opcode_text(Opcode::Ne) =~= seq!['!', '=']);
        assert(opcode_text(Opcode::Eq) =~= seq!['=', '=']);
        assert(opcode_text(Opcode::Ge) =~= seq!['>', '=']);
        assert(opcode_text(Opcode::Gt) =~= seq!['>']);
        assert(opcode_text(Opcode::Le) =~= seq!['<', '=']);
        assert(opcode_text(Opcode::Lt) =~= seq!['<']);
    }

    /// Distinct operators have distinct texts.
    pub proof fn lemma_opcode_text_injective()
        ensures
            forall|a: Opcode, b: Opcode| opcode_text(a) == opcode_text(b) ==> a == b,
    {
        reveal_strlit("*");
        reveal_strlit("/");
        reveal_strlit("+");
        reveal_strlit("-");
        reveal_strlit("|");
        reveal_strlit("||");
        reveal_strlit("&&");
        reveal_strlit("??");
        reveal_strlit("!=");
        reveal_strlit("==");
        reveal_strlit(">=");
        reveal_strlit(">");
        reveal_strlit("<=");
        reveal_strlit("<");
        assert forall|a: Opcode, b: Opcode| opcode_text(a) == opcode_text(b) implies a == b by {
            if opcode_text(a) == opcode_text(b) {
                assert(opcode_text(a).len() == opcode_text(b).len());
                if opcode_text(a).len() > 0 {
                    assert(opcode_text(a)[0] == opcode_text(b)[0]);
                }
                if opcode_text(a).len() > 1 {
                    assert(opcode_text(a)[1] == opcode_text(b)[1]);
                }
            }
        }
    }
}

impl Block {
    /// The expressions of the block.
    pub fn into_inner(self) -> (r: Vec<Node<Expr>>)
        ensures
            r == self.0,
    {
        self.0
    }
}

impl IntoIterator for Block {
    type Item = Node<Expr>;
    type IntoIter = std::vec::IntoIter<Node<Expr>>;

    /// The expressions of the block, in order.
    fn into_iter(self) -> (r: std::vec::IntoIter<Node<Expr>>)
        ensures
            vstd::std_specs::iter::IteratorSpec::remaining(&r) == self.0@,
    {
        self.0.into_iter()
    }
}

impl IntoIterator for Program {
    type Item = Node<RootExpr>;
    type IntoIter = std::vec::IntoIter<Node<RootExpr>>;

    /// The root expressions of the program, in order.
    fn into_iter(self) -> (r: std::vec::IntoIter<Node<RootExpr>>)
        ensures
            vstd::std_specs::iter::IteratorSpec::remaining(&r) == self.0@,
    {
        self.0.into_iter()
    }
}

impl core::ops::Deref for Program {
    type Target = [Node<RootExpr>];

    /// The root expressions of the program.
    fn deref(&self) -> (r: &[Node<RootExpr>])
        ensures
            r@ == self.0@,
    {
        self.0.as_slice()
    }
}

impl IntoIterator for Array {
    type Item = Node<Expr>;
    type IntoIter = std::vec::IntoIter<Node<Expr>>;

    /// The elements of the array, in order.
    fn into_iter(self) -> (r: std::vec::IntoIter<Node<Expr>>)
        ensures
            vstd::std_specs::iter::IteratorSpec::remaining(&r) == self.0@,
    {
        self.0.into_iter()
    }
}

impl IntoIterator for Object {
    type Item = (Node<String>, Node<Expr>);
    type IntoIter = std::vec::IntoIter<(Node<String>, Node<Expr>)>;

    /// The entries of the object, in order.
    fn into_iter(self) -> (r: std::vec::IntoIter<(Node<String>, Node<Expr>)>)
        ensures
            vstd::std_specs::iter::IteratorSpec::remaining(&r) == self.0@,
    {
        self.0.into_iter()
    }
}

impl Group {
    /// The expression inside the parentheses.
    pub fn into_inner(self) -> (r: Node<Expr>)
        ensures
            r == self.0,
    {
        self.0
    }
}

impl Not {
    /// The span of the `!` and the negated expression.
    pub fn take(self) -> (r: (Node<()>, Box<Node<Expr>>))
        ensures
            r.0 == self.0,
            r.1 == self.1,
    {
        (self.0, self.1)
    }

    /// The negation of `expr`, with the `!` at `span`.
    pub fn new(span: Span, expr: Node<Expr>) -> (r: Self)
        ensures
            r.0.span == span,
            *r.1 == expr,
    {
        Not(Node::new(span, ()), Box::new(expr))
    }
}

/// The expression that reads what an assignment target writes, every node
/// spanning `span`: `_` reads as `null`, a variable as itself, a path as a
/// query of that path, and a bare `.` as a query of the whole event.
pub open spec fn target_to_expr(t: AssignmentTargetView, span: Span) -> ExprView {
    match t {
        AssignmentTargetView::Noop => ExprView::Literal(NodeView { span, node: LiteralView::Null }),
        AssignmentTargetView::Query(q) => ExprView::Query(NodeView { span, node: q }),
        AssignmentTargetView::Internal(i, Some(p)) => ExprView::Query(
            NodeView {
                span,
                node: QueryView {
                    target: NodeView { span, node: QueryTargetView::Internal(i) },
                    path: NodeView { span, node: p },
                },
            },
        ),
        AssignmentTargetView::Internal(i, None) => ExprView::Variable(NodeView { span, node: i }),
        AssignmentTargetView::External(p) => ExprView::Query(
            NodeView {
                span,
                node: QueryView {
                    target: NodeView {
                        span,
                        node: QueryTargetView::External(
                            match p {
                                Some(tp) => tp.prefix,
                                None => PathPrefix::Event,
                            },
                        ),
                    },
                    path: NodeView {
                        span,
                        node: match p {
                            Some(tp) => tp.path,
                            None => Seq::empty(),
                        },
                    },
                },
            },
        ),
    }
}

impl AssignmentTarget {
    /// The expression that reads this target (see [`target_to_expr`]).
    pub fn to_expr(&self, span: Span) -> (r: Expr)
        ensures
            r@ == target_to_expr(self@, span),
    {
        match self {
            AssignmentTarget::Noop => Expr::Literal(Node::new(span, Literal::Null)),
            AssignmentTarget::Query(query) => Expr::Query(Node::new(span, query.clone())),
            AssignmentTarget::Internal(ident, Some(path)) => Expr::Query(
                Node::new(
                    span,
                    Query {
                        target: Node::new(span, QueryTarget::Internal(ident.clone())),
                        path: Node::new(span, path.clone()),
                    },
                ),
            ),
            AssignmentTarget::Internal(ident, None) => Expr::Variable(Node::new(span, ident.clone())),
            AssignmentTarget::External(path) => {
                let prefix = match path {
                    Some(x) => x.prefix,
                    None => PathPrefix::Event,
                };
                let value_path = match path {
                    Some(x) => x.path.clone(),
                    None => OwnedValuePath::root(),
                };
                Expr::Query(
                    Node::new(
                        span,
                        Query {
                            target: Node::new(span, QueryTarget::External(prefix)),
                            path: Node::new(span, value_path),
                        },
                    ),
                )
            },
        }
    }
}

} // verus!
