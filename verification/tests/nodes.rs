use ripsaw::diagnostic::Span;
use ripsaw::parser::ast::{
    Array, AssignmentTarget, Block, Expr, Group, Ident, Literal, Node, Not, Object, Opcode, Program, QueryTarget,
    RootExpr,
};
use ripsaw::parser::syntax_eq::SyntaxEq;
use ripsaw::path::{OwnedSegment, OwnedTargetPath, OwnedValuePath, PathPrefix};

fn integer(start: usize, v: i64) -> Node<Expr> {
    let span = Span::new(start, start + 1);
    Node::new(span, Expr::Literal(Node::new(span, Literal::Integer(v))))
}

#[test]
fn node_accessors() {
    let n = Node::new(Span::new(3, 9), Ident::new("abc"));
    assert_eq!(n.span(), Span::new(3, 9));
    assert_eq!(n.start(), 3);
    assert_eq!(n.end(), 9);
    assert_eq!(n.inner(), &Ident::new("abc"));
    assert_eq!(n.as_deref(), "abc");
    let (start, ident, end) = Node::new(Span::new(3, 9), Ident::new("abc")).into_spanned();
    assert_eq!((start, end), (3, 9));
    assert_eq!(ident.into_inner(), "abc".to_string());
    let (span, ident) = Node::new(Span::new(1, 2), Ident::new("x")).take();
    assert_eq!(span, Span::new(1, 2));
    assert_eq!(ident, Ident::from("x".to_string()));
    assert_eq!(Node::new(Span::new(1, 2), 7).into_inner(), 7);
}

#[test]
fn node_map_keeps_the_span() {
    let n = Node::new(Span::new(4, 5), 20);
    let m = n.map(|x| x * 2);
    assert_eq!(m.span(), Span::new(4, 5));
    assert_eq!(m.into_inner(), 40);
    let n = Node::new(Span::new(4, 5), 20);
    assert_eq!(n.map_option(|x| if x > 10 { Some(x + 1) } else { None }), Some(Node::new(Span::new(4, 5), 21)));
    let n = Node::new(Span::new(4, 5), 2);
    assert_eq!(n.map_option(|x| if x > 10 { Some(x + 1) } else { None }), None);
}

#[test]
fn containers_give_back_their_contents() {
    let block = Block(vec![integer(0, 1), integer(2, 2)]);
    let inner = block.clone().into_inner();
    assert_eq!(inner.len(), 2);
    assert_eq!(inner[1], integer(2, 2));
    let group = Group(integer(1, 5));
    assert_eq!(group.into_inner(), integer(1, 5));
    let not = Not::new(Span::new(0, 1), integer(1, 9));
    let (bang, expr) = not.clone().take();
    assert_eq!(bang.span(), Span::new(0, 1));
    assert_eq!(*expr, integer(1, 9));
    assert!(not.syntax_eq(&Not::new(Span::new(7, 8), integer(8, 9))));
}

#[test]
fn assignment_targets_read_back_as_expressions() {
    let span = Span::new(2, 4);
    assert_eq!(AssignmentTarget::Noop.to_expr(span), Expr::Literal(Node::new(span, Literal::Null)));
    assert_eq!(
        AssignmentTarget::Internal(Ident::new("x"), None).to_expr(span),
        Expr::Variable(Node::new(span, Ident::new("x")))
    );
    let path = OwnedValuePath { segments: vec![OwnedSegment::Field("a".to_string()), OwnedSegment::Index(-1)] };
    match AssignmentTarget::Internal(Ident::new("x"), Some(path.clone())).to_expr(span) {
        Expr::Query(q) => {
            assert_eq!(q.span(), span);
            assert_eq!(q.inner().target.inner(), &QueryTarget::Internal(Ident::new("x")));
            assert_eq!(q.inner().path.inner(), &path);
        },
        other => panic!("not a query: {other:?}"),
    }
    match AssignmentTarget::External(None).to_expr(span) {
        Expr::Query(q) => {
            assert_eq!(q.inner().target.inner(), &QueryTarget::External(PathPrefix::Event));
            assert_eq!(q.inner().path.inner(), &OwnedValuePath::root());
        },
        other => panic!("not a query: {other:?}"),
    }
    let target = OwnedTargetPath { prefix: PathPrefix::Metadata, path: path.clone() };
    match AssignmentTarget::External(Some(target)).to_expr(span) {
        Expr::Query(q) => {
            assert_eq!(q.inner().target.inner(), &QueryTarget::External(PathPrefix::Metadata));
            assert_eq!(q.inner().path.inner(), &path);
        },
        other => panic!("not a query: {other:?}"),
    }
}

#[test]
fn paths_compare_by_segments() {
    let a = OwnedValuePath { segments: vec![OwnedSegment::Coalesce(vec!["a".to_string(), "b".to_string()])] };
    let b = OwnedValuePath { segments: vec![OwnedSegment::Coalesce(vec!["a".to_string(), "b".to_string()])] };
    let c = OwnedValuePath { segments: vec![OwnedSegment::Coalesce(vec!["a".to_string()])] };
    assert!(a.same(&b));
    assert!(!a.same(&c));
    assert!(!OwnedValuePath::root().same(&a));
    assert!(Opcode::Add.syntax_eq(&Opcode::Add));
    assert!(!Opcode::Add.syntax_eq(&Opcode::Sub));
}

#[test]
fn objects_order_entries_by_key_node() {
    let key = |s: usize, k: &str| Node::new(Span::new(s, s + k.len()), k.to_string());
    let val = |i: i64| {
        let n = Node::new(Span::new(0, 1), Literal::Integer(i));
        Node::new(Span::new(0, 1), Expr::Literal(n))
    };
    let object = Object::from_entries(vec![
        (key(9, "b"), val(1)),
        (key(2, "a"), val(2)),
        (key(9, "a"), val(3)),
        (key(2, "a"), val(4)),
    ]);
    let entries: Vec<(usize, String, Expr)> =
        object.into_iter().map(|(k, v)| (k.start(), k.node.clone(), v.node)).collect();
    let lit = |i: i64| Expr::Literal(Node::new(Span::new(0, 1), Literal::Integer(i)));
    assert_eq!(
        entries,
        vec![(2, "a".to_string(), lit(4)), (9, "a".to_string(), lit(3)), (9, "b".to_string(), lit(1))]
    );
    assert!(Object::from_entries(vec![]).into_iter().next().is_none());

    let array = Array(vec![val(1), val(2)]);
    assert_eq!(array.into_iter().count(), 2);
    let block = Block(vec![val(5)]);
    assert_eq!(block.into_iter().next().map(|n| n.node), Some(lit(5)));
    let program = Program(vec![Node::new(Span::new(0, 1), RootExpr::Expr(val(7)))]);
    assert_eq!(program.len(), 1);
    assert_eq!(program.into_iter().count(), 1);
}

#[test]
fn identifiers_keep_their_name() {
    assert_eq!(Ident::new("abc").into_inner(), "abc".to_string());
    assert_eq!(Ident::new("xy".to_string()).as_str(), "xy");
    assert_eq!(&*Ident::new("q"), "q");
}
