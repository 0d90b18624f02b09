use ripsaw::diagnostic::Span;
use ripsaw::parser::ast::{
    Abort, Assignment, AssignmentOp, AssignmentTarget, Block, Expr, FunctionArgument, FunctionCall,
    FunctionClosure, Ident, IfStatement, Literal, Node, Op, Opcode, Predicate, Program, Query,
    QueryTarget, Return, RootExpr,
};
use ripsaw::parser::syntax_eq::SyntaxEq;
use ripsaw::parser::template_string::{StringSegment, TemplateString};
use ripsaw::value::float::FloatBits;
use ripsaw::parser::ast::{Container, Object};
use ripsaw::path::{OwnedSegment, OwnedTargetPath, OwnedValuePath, PathPrefix};

/// Builds trees the way the parser lays them out, every span shifted by
/// `shift` bytes: the same program written at another place of the source.
struct Builder {
    shift: usize,
}

impl Builder {
    fn span(&self, start: usize, end: usize) -> Span {
        Span::new(start + self.shift, end + self.shift)
    }

    fn node<T>(&self, start: usize, end: usize, node: T) -> Node<T> {
        Node::new(self.span(start, end), node)
    }

    fn integer(&self, start: usize, value: i64) -> Node<Expr> {
        let end = start + value.to_string().len();
        self.node(start, end, Expr::Literal(self.node(start, end, Literal::Integer(value))))
    }

    fn null(&self, start: usize) -> Node<Expr> {
        self.node(start, start + 4, Expr::Literal(self.node(start, start + 4, Literal::Null)))
    }

    fn string(&self, start: usize, segments: Vec<StringSegment>, len: usize) -> Node<Expr> {
        self.node(
            start,
            start + len,
            Expr::Literal(self.node(start, start + len, Literal::String(TemplateString(segments)))),
        )
    }

    fn text(&self, start: usize, text: &str) -> Node<Expr> {
        let len = text.len() + 2;
        let segments = if text.is_empty() {
            vec![]
        } else {
            vec![StringSegment::Literal(text.to_string(), self.span(start + 1, start + 1 + text.len()))]
        };
        self.string(start, segments, len)
    }

    fn var(&self, start: usize, name: &str) -> Node<Expr> {
        let end = start + name.len();
        self.node(start, end, Expr::Variable(self.node(start, end, Ident::new(name))))
    }

    fn op(&self, lhs: Node<Expr>, op: Opcode, op_start: usize, rhs: Node<Expr>) -> Node<Expr> {
        let (start, end) = (lhs.start() - self.shift, rhs.end() - self.shift);
        let op_len = op.as_str().len();
        self.node(
            start,
            end,
            Expr::Op(self.node(start, end, Op(Box::new(lhs), self.node(op_start, op_start + op_len, op), Box::new(rhs)))),
        )
    }

    fn call(&self, start: usize, end: usize, name: &str, args: Vec<Node<Expr>>, closure: Option<Node<FunctionClosure>>) -> Node<Expr> {
        let arguments = args
            .into_iter()
            .map(|e| {
                let (s, t) = (e.start() - self.shift, e.end() - self.shift);
                self.node(s, t, FunctionArgument { ident: None, expr: e })
            })
            .collect();
        let call = FunctionCall {
            ident: self.node(start, start + name.len(), Ident::new(name)),
            abort_on_error: false,
            arguments,
            closure,
        };
        self.node(start, end, Expr::FunctionCall(self.node(start, end, call)))
    }

    fn abort(&self, start: usize, message: Option<Node<Expr>>) -> Node<Expr> {
        let end = message.as_ref().map_or(start + 5, |m| m.end() - self.shift);
        let abort = Abort { message: message.map(Box::new) };
        self.node(start, end, Expr::Abort(self.node(start, end, abort)))
    }

    fn program(&self, exprs: Vec<Node<Expr>>) -> Program {
        Program(
            exprs
                .into_iter()
                .map(|e| {
                    let (s, t) = (e.start() - self.shift, e.end() - self.shift);
                    self.node(s, t, RootExpr::Expr(e))
                })
                .collect(),
        )
    }
}

/// The program
///
/// ```text
/// .x[1].y = sum(1, 2)
/// x = read(.items) -> |item| {
///   item * 2
/// }
///
/// if x == null {
///     abort
/// }
/// return x + 1
/// ```
///
/// with its lines starting at the given offsets.
fn sample_program(b: &Builder, lines: [usize; 6]) -> Program {
    let [l1, l2, l3, l6, l7, l9] = lines;
    let target = AssignmentTarget::External(Some(OwnedTargetPath {
        prefix: PathPrefix::Event,
        path: OwnedValuePath {
            segments: vec![
                OwnedSegment::Field("x".to_string()),
                OwnedSegment::Index(1),
                OwnedSegment::Field("y".to_string()),
            ],
        },
    }));
    let sum = b.call(l1 + 10, l1 + 19, "sum", vec![b.integer(l1 + 14, 1), b.integer(l1 + 17, 2)], None);
    let first = b.node(
        l1,
        l1 + 19,
        Expr::Assignment(b.node(
            l1,
            l1 + 19,
            Assignment::Single { target: b.node(l1, l1 + 7, target), op: AssignmentOp::Assign, expr: Box::new(sum) },
        )),
    );

    let items = b.node(
        l2 + 9,
        l2 + 15,
        Expr::Query(b.node(
            l2 + 9,
            l2 + 15,
            Query {
                target: b.node(l2 + 9, l2 + 10, QueryTarget::External(PathPrefix::Event)),
                path: b.node(
                    l2 + 9,
                    l2 + 15,
                    OwnedValuePath { segments: vec![OwnedSegment::Field("items".to_string())] },
                ),
            },
        )),
    );
    let body = b.op(b.var(l3 + 2, "item"), Opcode::Mul, l3 + 7, b.integer(l3 + 9, 2));
    let closure = b.node(
        l2 + 17,
        l3 + 12,
        FunctionClosure {
            variables: vec![b.node(l2 + 21, l2 + 25, Ident::new("item"))],
            block: b.node(l2 + 27, l3 + 12, Block(vec![body])),
        },
    );
    let read = b.call(l2 + 4, l3 + 12, "read", vec![items], Some(closure));
    let second = b.node(
        l2,
        l3 + 12,
        Expr::Assignment(b.node(
            l2,
            l3 + 12,
            Assignment::Single {
                target: b.node(l2, l2 + 1, AssignmentTarget::Internal(Ident::new("x"), None)),
                op: AssignmentOp::Assign,
                expr: Box::new(read),
            },
        )),
    );

    let predicate = b.op(b.var(l6 + 3, "x"), Opcode::Eq, l6 + 5, b.null(l6 + 8));
    let if_statement = IfStatement {
        predicate: b.node(l6 + 3, l6 + 12, Predicate::One(Box::new(predicate))),
        if_node: b.node(l6 + 13, l7 + 11, Block(vec![b.abort(l7 + 4, None)])),
        else_node: None,
    };
    let third = b.node(l6, l7 + 11, Expr::IfStatement(b.node(l6, l7 + 11, if_statement)));

    let sum = b.op(b.var(l9 + 7, "x"), Opcode::Add, l9 + 9, b.integer(l9 + 11, 1));
    let fourth = b.node(l9, l9 + 12, Expr::Return(b.node(l9, l9 + 12, Return { expr: Box::new(sum) })));

    b.program(vec![first, second, third, fourth])
}

#[test]
fn comments_and_whitespace_do_not_affect_syntactic_equality() {
    let b = Builder { shift: 0 };
    let (prog1, prog2) = (
        sample_program(&b, [0, 20, 49, 66, 81, 93]),
        sample_program(&b, [20, 41, 70, 98, 113, 126]),
    );
    assert_ne!(prog1, prog2);
    assert!(prog1.syntax_eq(&prog2))
}

#[test]
fn abort_message_changes_syntactic_equality() {
    let b = Builder { shift: 0 };
    let (prog1, prog2) = (
        b.program(vec![b.abort(0, Some(b.text(6, "bad apple")))]),
        b.program(vec![b.abort(0, Some(b.text(6, "no apple")))]),
    );
    assert_ne!(prog1, prog2);
    assert!(!prog1.syntax_eq(&prog2));

    let (prog1, prog2) = (
        b.program(vec![b.abort(0, None)]),
        b.program(vec![b.abort(0, Some(b.text(6, "")))]),
    );
    assert_ne!(prog1, prog2);
    assert!(!prog1.syntax_eq(&prog2));
}

#[test]
fn function_arg_changes_syntactic_equality() {
    let b = Builder { shift: 0 };
    let (prog1, prog2) = (
        b.program(vec![b.call(0, 13, "run", vec![b.text(4, "foo"), b.integer(11, 2)], None)]),
        b.program(vec![b.call(0, 13, "run", vec![b.text(4, "foo"), b.integer(11, 3)], None)]),
    );
    assert_ne!(prog1, prog2);
    assert!(!prog1.syntax_eq(&prog2));

    let (prog1, prog2) = (
        b.program(vec![b.abort(0, None)]),
        b.program(vec![b.abort(0, Some(b.text(6, "")))]),
    );
    assert_ne!(prog1, prog2);
    assert!(!prog1.syntax_eq(&prog2));
}

/// `run("{{ name }}<rest>")`, with the call starting at `b`'s shift.
fn run_template(b: &Builder, name: &str, rest: &str) -> Program {
    let template_len = name.len() + 6;
    let segments = vec![
        StringSegment::Template(name.to_string(), b.span(5, 5 + template_len)),
        StringSegment::Literal(rest.to_string(), b.span(5 + template_len, 5 + template_len + rest.len())),
    ];
    let len = template_len + rest.len() + 2;
    let string = b.string(4, segments, len);
    b.program(vec![b.call(0, 4 + len + 1, "run", vec![string], None)])
}

#[test]
fn equal_literal_value_keeps_syntactic_equality() {
    let (at0, at1) = (Builder { shift: 0 }, Builder { shift: 1 });
    let (prog1, prog2) = (
        at0.program(vec![at0.call(0, 10, "run", vec![at0.text(4, "foo")], None)]),
        at1.program(vec![at1.call(0, 10, "run", vec![at1.text(4, "foo")], None)]),
    );
    assert_ne!(prog1, prog2);
    assert!(prog1.syntax_eq(&prog2), "prog1 = {prog1:#?}, prog2 = {prog2:#?}");

    let (prog1, prog2) = (run_template(&at0, "interop", "-val"), run_template(&at1, "interop", "-val"));
    assert_ne!(prog1, prog2);
    assert!(prog1.syntax_eq(&prog2), "prog1 = {prog1:#?}, prog2 = {prog2:#?}");

    let (prog1, prog2) = (run_template(&at0, "interop", "-val"), run_template(&at1, "interop", "-other stuff"));
    assert_ne!(prog1, prog2);
    assert!(!prog1.syntax_eq(&prog2), "prog1 = {prog1:#?}, prog2 = {prog2:#?}");

    let (prog1, prog2) = (run_template(&at0, "interop", "-val"), run_template(&at1, "other", "-val"));
    assert_ne!(prog1, prog2);
    assert!(!prog1.syntax_eq(&prog2), "prog1 = {prog1:#?}, prog2 = {prog2:#?}");
}

#[test]
fn template_text_is_what_counts() {
    // "{{ a }}b" written as a template and a literal, and as one literal.
    let b = Builder { shift: 0 };
    let split = TemplateString(vec![
        StringSegment::Literal("x".to_string(), b.span(1, 2)),
        StringSegment::Literal("y".to_string(), b.span(2, 3)),
    ]);
    let joined = TemplateString(vec![StringSegment::Literal("xy".to_string(), b.span(1, 3))]);
    assert!(Literal::String(split).syntax_eq(&Literal::String(joined)));
    let t = TemplateString(vec![
        StringSegment::Template("a".to_string(), b.span(1, 8)),
        StringSegment::Literal("b".to_string(), b.span(8, 9)),
    ]);
    assert_eq!(t.to_string(), "{{ a }}b");
}

#[test]
fn syntax_eq_is_reflexive_on_a_program() {
    let b = Builder { shift: 3 };
    let prog = sample_program(&b, [0, 20, 49, 66, 81, 93]);
    assert!(prog.syntax_eq(&prog));
    assert!(prog.syntax_eq(&prog.clone()));
    assert_eq!(prog, prog.clone());
}

#[test]
fn floats_compare_by_value() {
    let zero = FloatBits::from_bits(0.0f64.to_bits()).unwrap();
    let minus_zero = FloatBits::from_bits((-0.0f64).to_bits()).unwrap();
    let one = FloatBits::from_bits(1.0f64.to_bits()).unwrap();
    assert!(Literal::Float(zero).syntax_eq(&Literal::Float(minus_zero)));
    assert!(!Literal::Float(zero).syntax_eq(&Literal::Float(one)));
    assert!(FloatBits::from_bits(f64::NAN.to_bits()).is_none());
    assert_eq!(one.to_bits(), 1.0f64.to_bits());
}

#[test]
fn objects_compare_entries_by_key_text() {
    let b = Builder { shift: 0 };
    let object = |first: (&str, i64), second: (&str, i64), at: usize| {
        let entry = |(k, v): (&str, i64), s: usize| (b.node(s, s + 3, k.to_string()), b.integer(s + 5, v));
        let o = Object(vec![entry(first, at), entry(second, at + 10)]);
        Expr::Container(b.node(at, at + 20, Container::Object(b.node(at, at + 20, o))))
    };
    assert!(object(("a", 1), ("b", 2), 0).syntax_eq(&object(("b", 2), ("a", 1), 7)));
    assert!(!object(("a", 1), ("b", 2), 0).syntax_eq(&object(("a", 2), ("b", 1), 0)));
    assert!(!object(("a", 1), ("b", 2), 0).syntax_eq(&object(("a", 1), ("c", 2), 0)));
}

#[test]
fn opcode_text_round_trips() {
    let all = [
        Opcode::Mul,
        Opcode::Div,
        Opcode::Add,
        Opcode::Sub,
        Opcode::Or,
        Opcode::And,
        Opcode::ErrorCoalesce,
        Opcode::Ne,
        Opcode::Eq,
        Opcode::Ge,
        Opcode::Gt,
        Opcode::Le,
        Opcode::Lt,
        Opcode::Merge,
    ];
    for op in all {
        assert_eq!(Opcode::from_str(op.as_str()), Ok(op));
    }
    assert_eq!(Opcode::ErrorCoalesce.as_str(), "??");
    assert_eq!(Opcode::Merge.as_str(), "|");
    assert_eq!(Opcode::from_str("**"), Err(()));
    assert_eq!(Opcode::from_str(""), Err(()));
}

fn object_of(b: &Builder, entries: &[(&str, i64)], at: usize) -> Expr {
    let o = Object(
        entries
            .iter()
            .enumerate()
            .map(|(n, (k, v))| {
                let s = at + 10 * n;
                (b.node(s, s + 3, k.to_string()), b.integer(s + 5, *v))
            })
            .collect(),
    );
    let end = at + 10 * entries.len();
    Expr::Container(b.node(at, end, Container::Object(b.node(at, end, o))))
}

#[test]
fn syntax_eq_is_symmetric_when_keys_are_distinct() {
    let b = Builder { shift: 0 };
    let x = object_of(&b, &[("a", 1), ("b", 2), ("c", 3)], 0);
    let y = object_of(&b, &[("c", 3), ("a", 1), ("b", 2)], 4);
    assert!(x.syntax_eq(&y));
    assert!(y.syntax_eq(&x));
    let z = object_of(&b, &[("c", 3), ("a", 1), ("b", 9)], 4);
    assert!(!x.syntax_eq(&z));
    assert!(!z.syntax_eq(&x));
}

#[test]
fn duplicate_keys_make_objects_match_one_way() {
    let b = Builder { shift: 0 };
    let x = object_of(&b, &[("a", 1), ("a", 1)], 0);
    let y = object_of(&b, &[("a", 1), ("a", 2)], 0);
    assert!(x.syntax_eq(&y));
    assert!(!y.syntax_eq(&x));
}

#[test]
fn syntax_eq_is_transitive() {
    let p = sample_program(&Builder { shift: 0 }, [0, 20, 49, 66, 81, 93]);
    let q = sample_program(&Builder { shift: 5 }, [0, 21, 52, 70, 86, 99]);
    let r = sample_program(&Builder { shift: 11 }, [2, 30, 61, 80, 97, 120]);
    assert!(p.syntax_eq(&q));
    assert!(q.syntax_eq(&r));
    assert!(p.syntax_eq(&r));
    let b = Builder { shift: 0 };
    let x = object_of(&b, &[("a", 1), ("b", 2)], 0);
    let y = object_of(&b, &[("b", 2), ("a", 1)], 3);
    let z = object_of(&b, &[("a", 1), ("b", 2)], 8);
    assert!(x.syntax_eq(&y) && y.syntax_eq(&z) && x.syntax_eq(&z));
}
