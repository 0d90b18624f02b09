use ripsaw::diagnostic::Span;
use ripsaw::parser::ast::{
    Abort, Array, Assignment, AssignmentOp, AssignmentTarget, Block, Container, Error, Expr,
    FunctionArgument, FunctionCall, FunctionClosure, Group, Ident, IfStatement, Literal, Node, Not,
    Object, Op, Opcode, Predicate, Program, Query, QueryTarget, Return, RootExpr, Unary,
};
use ripsaw::parser::template_string::{StringSegment, TemplateString};
use ripsaw::path::{OwnedSegment, OwnedTargetPath, OwnedValuePath, PathPrefix};
use ripsaw::value::float::FloatBits;

fn float_text(x: FloatBits) -> String {
    f64::from_bits(x.to_bits()).to_string()
}

fn sp() -> Span {
    Span::new(0, 0)
}

fn node<T>(t: T) -> Node<T> {
    Node::new(sp(), t)
}

fn lit(l: Literal) -> Node<Expr> {
    node(Expr::Literal(node(l)))
}

fn num(i: i64) -> Node<Expr> {
    lit(Literal::Integer(i))
}

fn var(name: &str) -> Node<Expr> {
    node(Expr::Variable(node(Ident::new(name))))
}

fn text(s: &str) -> Node<Expr> {
    lit(Literal::String(TemplateString(vec![StringSegment::Literal(s.to_string(), sp())])))
}

fn path(segments: Vec<OwnedSegment>) -> OwnedValuePath {
    OwnedValuePath { segments }
}

fn field(name: &str) -> OwnedSegment {
    OwnedSegment::Field(name.to_string())
}

fn call(name: &str, args: Vec<Node<Expr>>, closure: Option<Node<FunctionClosure>>) -> FunctionCall {
    FunctionCall {
        ident: node(Ident::new(name)),
        abort_on_error: false,
        arguments: args.into_iter().map(|e| node(FunctionArgument { ident: None, expr: e })).collect(),
        closure,
    }
}

fn show(e: &Node<Expr>) -> String {
    e.node.to_string_with(&float_text)
}

#[test]
fn literals_are_written_as_source() {
    let template = TemplateString(vec![
        StringSegment::Literal("a".to_string(), sp()),
        StringSegment::Template("b".to_string(), sp()),
    ]);
    assert_eq!(Literal::String(template).to_string_with(&float_text), "\"a{{ b }}\"");
    assert_eq!(Literal::RawString("x y".to_string()).to_string_with(&float_text), "s'x y'");
    assert_eq!(Literal::Integer(-42).to_string_with(&float_text), "-42");
    assert_eq!(Literal::Integer(0).to_string_with(&float_text), "0");
    assert_eq!(Literal::Integer(i64::MIN).to_string_with(&float_text), "-9223372036854775808");
    assert_eq!(Literal::Integer(i64::MAX).to_string_with(&float_text), "9223372036854775807");
    assert_eq!(Literal::Boolean(true).to_string_with(&float_text), "true");
    assert_eq!(Literal::Boolean(false).to_string_with(&float_text), "false");
    assert_eq!(Literal::Regex("^a+$".to_string()).to_string_with(&float_text), "r'^a+$'");
    assert_eq!(
        Literal::Timestamp("2021-01-01T00:00:00Z".to_string()).to_string_with(&float_text),
        "t'2021-01-01T00:00:00Z'"
    );
    assert_eq!(Literal::Null.to_string_with(&float_text), "null");
    let half = FloatBits::from_bits(1.5f64.to_bits()).unwrap();
    assert_eq!(Literal::Float(half).to_string_with(&float_text), "1.5");
}

#[test]
fn containers_are_written_as_source() {
    let array = Array(vec![num(1), num(2)]);
    assert_eq!(array.to_string_with(&float_text), "[1, 2]");
    assert_eq!(Array(vec![]).to_string_with(&float_text), "[]");
    let object = Object(vec![(node("a".to_string()), num(1)), (node("b c".to_string()), text("x"))]);
    assert_eq!(object.to_string_with(&float_text), "{ \"a\": 1, \"b c\": \"x\" }");
    assert_eq!(Group(num(7)).to_string_with(&float_text), "(7)");
    assert_eq!(Block(vec![num(1), num(2)]).to_string_with(&float_text), "{\n\t1\n\t2\n}");
    assert_eq!(Block(vec![]).to_string_with(&float_text), "{\n\n}");
    let group = Container::Group(Box::new(node(Group(var("x")))));
    assert_eq!(group.to_string_with(&float_text), "(x)");
}

#[test]
fn paths_quote_fields_that_need_it() {
    let p = path(vec![field("a"), OwnedSegment::Index(-1), field("b c"), field("")]);
    assert_eq!(p.to_string(), "a[-1].\"b c\".\"\"");
    assert_eq!(path(vec![field("say \"hi\\\"")]).to_string(), "\"say \\\"hi\\\\\\\"\"");
    let coalesce = path(vec![field("a"), OwnedSegment::Coalesce(vec!["b".to_string(), "c d".to_string()])]);
    assert_eq!(coalesce.to_string(), "a.(b|\"c d\")");
    assert_eq!(path(vec![]).to_string(), "");
    let target = OwnedTargetPath { prefix: PathPrefix::Metadata, path: path(vec![field("tag")]) };
    assert_eq!(target.to_string(), "%tag");
    let target = OwnedTargetPath { prefix: PathPrefix::Event, path: path(vec![field("x"), OwnedSegment::Index(1)]) };
    assert_eq!(target.to_string(), ".x[1]");
}

#[test]
fn expressions_are_written_as_source() {
    let op = Op(Box::new(var("x")), node(Opcode::ErrorCoalesce), Box::new(num(1)));
    assert_eq!(op.to_string_with(&float_text), "x ?? 1");
    let not = Not::new(sp(), lit(Literal::Boolean(true)));
    assert_eq!(not.to_string_with(&float_text), "!true");
    let unary = Unary::Not(node(Not::new(sp(), var("y"))));
    assert_eq!(unary.to_string_with(&float_text), "!y");
    assert_eq!(Abort { message: None }.to_string_with(&float_text), "abort");
    assert_eq!(Abort { message: Some(Box::new(text("bad"))) }.to_string_with(&float_text), "abort: \"bad\"");
    assert_eq!(Return { expr: Box::new(num(3)) }.to_string_with(&float_text), "return 3");

    let keyword = FunctionArgument { ident: Some(node(Ident::new("value"))), expr: num(1) };
    assert_eq!(keyword.to_string_with(&float_text), "value: 1");
    let f = FunctionCall {
        ident: node(Ident::new("f")),
        abort_on_error: false,
        arguments: vec![node(keyword), node(FunctionArgument { ident: None, expr: var("y") })],
        closure: None,
    };
    assert_eq!(f.to_string_with(&float_text), "f(value: 1, y)");
    assert_eq!(call("now", vec![], None).to_string_with(&float_text), "now()");

    let closure = FunctionClosure {
        variables: vec![node(Ident::new("k")), node(Ident::new("v"))],
        block: node(Block(vec![var("v")])),
    };
    assert_eq!(closure.to_string_with(&float_text), "-> |k, v| {\n\tv\n}");
    let with_closure = call("map", vec![var("xs")], Some(node(closure)));
    assert_eq!(with_closure.to_string_with(&float_text), "map(xs) -> |k, v| {\n\tv\n}");

    let many = Predicate::Many(vec![var("a"), var("b")]);
    assert_eq!(many.to_string_with(&float_text), "(a; b)");
    let if_else = IfStatement {
        predicate: node(Predicate::One(Box::new(lit(Literal::Boolean(true))))),
        if_node: node(Block(vec![num(1)])),
        else_node: Some(node(Block(vec![num(2)]))),
    };
    assert_eq!(if_else.to_string_with(&float_text), "if true {\n\t1\n} else{\n\t2\n}");
}

#[test]
fn assignments_and_queries_are_written_as_source() {
    let internal = AssignmentTarget::Internal(Ident::new("x"), Some(path(vec![field("y")])));
    // The path is written right after the name, as a value path starts.
    assert_eq!(internal.to_string_with(&float_text), "xy");
    let indexed = AssignmentTarget::Internal(Ident::new("x"), Some(path(vec![OwnedSegment::Index(2)])));
    assert_eq!(indexed.to_string_with(&float_text), "x[2]");
    assert_eq!(AssignmentTarget::Noop.to_string_with(&float_text), "_");
    assert_eq!(AssignmentTarget::External(None).to_string_with(&float_text), ".");
    assert_eq!(AssignmentOp::Merge.to_string(), "|=");
    assert_eq!(AssignmentOp::Assign.to_string(), "=");

    let single = Assignment::Single {
        target: node(AssignmentTarget::Internal(Ident::new("x"), None)),
        op: AssignmentOp::Merge,
        expr: Box::new(num(1)),
    };
    assert_eq!(single.to_string_with(&float_text), "x |= 1");
    let infallible = Assignment::Infallible {
        ok: node(AssignmentTarget::Internal(Ident::new("ok"), None)),
        err: node(AssignmentTarget::Internal(Ident::new("err"), None)),
        op: AssignmentOp::Assign,
        expr: Box::new(node(Expr::FunctionCall(node(call("f", vec![], None))))),
    };
    assert_eq!(infallible.to_string_with(&float_text), "ok, err = f()");

    let meta = Query {
        target: node(QueryTarget::External(PathPrefix::Metadata)),
        path: node(path(vec![field("tag")])),
    };
    assert_eq!(meta.to_string_with(&float_text), "&tag");
    let event = Query {
        target: node(QueryTarget::External(PathPrefix::Event)),
        path: node(path(vec![field("items"), OwnedSegment::Index(0)])),
    };
    assert_eq!(event.to_string_with(&float_text), ".items[0]");
    assert_eq!(QueryTarget::Internal(Ident::new("v")).to_string_with(&float_text), "v");
    assert_eq!(Ident::new("name").to_string(), "name");
}

#[test]
fn programs_put_each_expression_on_a_line() {
    let target = AssignmentTarget::External(Some(OwnedTargetPath {
        prefix: PathPrefix::Event,
        path: path(vec![field("x"), OwnedSegment::Index(1), field("y")]),
    }));
    let sum = node(Expr::FunctionCall(node(call("sum", vec![num(1), num(2)], None))));
    let first = node(Expr::Assignment(node(Assignment::Single {
        target: node(target),
        op: AssignmentOp::Assign,
        expr: Box::new(sum),
    })));
    let sum = node(Expr::Op(node(Op(Box::new(var("x")), node(Opcode::Add), Box::new(num(1))))));
    let second = node(Expr::Return(node(Return { expr: Box::new(sum) })));
    let error = RootExpr::Error(Error { span: sp(), message: "unexpected token".to_string() });
    let program = Program(vec![node(RootExpr::Expr(first)), node(RootExpr::Expr(second)), node(error)]);
    assert_eq!(program.to_string_with(&float_text), ".x[1].y = sum(1, 2)\nreturn x + 1\nunexpected token\n");
    assert_eq!(Program(vec![]).to_string_with(&float_text), "");
    assert_eq!(show(&num(5)), "5");
}
