//! Writing trees back out as program text.
//!
//! Floats are written by a function that the caller hands in: the library
//! holds a float as its bit pattern and leaves decimal formatting to the
//! caller. That function must give the same text for the same float every
//! time it is called.

use crate::parser::ast::{
    opcode_text, view_arguments, view_entries, view_exprs, view_ident_nodes, view_node_expr,
    view_roots, Abort, AbortView, Array, Assignment, AssignmentOp, AssignmentTarget,
    AssignmentTargetView, AssignmentView, Block, Container, ContainerView, EntriesView, Error,
    Expr, ExprView, ExprsView, FunctionArgument, FunctionArgumentView, FunctionCall,
    FunctionCallView, FunctionClosure, FunctionClosureView, Group, Ident, IfStatement,
    IfStatementView, Literal, LiteralView, Node, NodeView, Not, Object, Op, OpView, Predicate,
    PredicateView, Program, Query, QueryTarget, QueryTargetView, QueryView, Return, RootExpr,
    RootExprView, Unary, UnaryView,
};
use crate::path::{
    OwnedSegment, OwnedTargetPath, OwnedValuePath, PathPrefix, SegmentView, TargetPathView,
};
use crate::parser::template_string::render;
use crate::value::float::FloatBits;
use vstd::prelude::*;

verus! {

// -----------------------------------------------------------------------------
// the float printer handed in
// -----------------------------------------------------------------------------

/// `f` can be called on every float, and gives the same text for the same
/// float.
pub open spec fn float_printer<F: Fn(FloatBits) -> String>(f: F) -> bool {
    &&& forall|x: FloatBits| #[trigger] f.requires((x,))
    &&& forall|x: FloatBits, s: String, t: String|
        #[trigger] f.ensures((x,), s) && #[trigger] f.ensures((x,), t) ==> s@ == t@
}

/// The text that `f` gives for each float.
pub open spec fn printed<F: Fn(FloatBits) -> String>(f: F) -> spec_fn(FloatBits) -> Seq<char> {
    |x: FloatBits| (choose|s: String| f.ensures((x,), s))@
}

fn write_float<F: Fn(FloatBits) -> String>(x: FloatBits, ft: &F, out: &mut String)
    requires
        float_printer(*ft),
    ensures
        final(out)@ == old(out)@ + printed(*ft)(x),
{
    let s = ft(x);
    proof {
        let c = choose|c: String| ft.ensures((x,), c);
        assert(ft.ensures((x,), c));
    }
    out.append(s.as_str());
}

// -----------------------------------------------------------------------------
// numbers
// -----------------------------------------------------------------------------

pub open spec fn digit_char(d: int) -> char {
    if d == 0 {
        '0'
    } else if d == 1 {
        '1'
    } else if d == 2 {
        '2'
    } else if d == 3 {
        '3'
    } else if d == 4 {
        '4'
    } else if d == 5 {
        '5'
    } else if d == 6 {
        '6'
    } else if d == 7 {
        '7'
    } else if d == 8 {
        '8'
    } else {
        '9'
    }
}

/// The decimal digits of `n`, without leading zeros.
pub open spec fn nat_text(n: nat) -> Seq<char>
    decreases n,
{
    if n < 10 {
        seq![digit_char(n as int)]
    } else {
        nat_text(n / 10) + seq![digit_char((n % 10) as int)]
    }
}

/// The decimal text of `i`, with a leading `-` when it is negative.
pub open spec fn int_text(i: int) -> Seq<char> {
    if i < 0 {
        seq!['-'] + nat_text((-i) as nat)
    } else {
        nat_text(i as nat)
    }
}

fn digit_str(d: u64) -> (r: &'static str)
    requires
        d < 10,
    ensures
        r@ == seq![digit_char(d as int)],
{
    if d == 0 {
        proof { reveal_strlit("0"); }
        "0"
    } else if d == 1 {
        proof { reveal_strlit("1"); }
        "1"
    } else if d == 2 {
        proof { reveal_strlit("2"); }
        "2"
    } else if d == 3 {
        proof { reveal_strlit("3"); }
        "3"
    } else if d == 4 {
        proof { reveal_strlit("4"); }
        "4"
    } else if d == 5 {
        proof { reveal_strlit("5"); }
        "5"
    } else if d == 6 {
        proof { reveal_strlit("6"); }
        "6"
    } else if d == 7 {
        proof { reveal_strlit("7"); }
        "7"
    } else if d == 8 {
        proof { reveal_strlit("8"); }
        "8"
    } else {
        proof { reveal_strlit("9"); }
        "9"
    }
}

fn write_nat(n: u64, out: &mut String)
    ensures
        final(out)@ == old(out)@ + nat_text(n as nat),
    decreases n,
{
    if n >= 10 {
        write_nat(n / 10, out);
    }
    out.append(digit_str(n % 10));
    assert(final(out)@ =~= old(out)@ + nat_text(n as nat)) by {
        if n >= 10 {
            assert(nat_text(n as nat) == nat_text((n / 10) as nat) + seq![digit_char((n % 10) as int)]);
        }
    };
}

fn write_int(i: i64, out: &mut String)
    ensures
        final(out)@ == old(out)@ + int_text(i as int),
{
    if i < 0 {
        let ghost before = out@;
        let minus = "-";
        proof { reveal_strlit("-"); }
        out.append(minus);
        let magnitude: u64 = if i == i64::MIN {
            9223372036854775808u64
        } else {
            (-i) as u64
        };
        write_nat(magnitude, out);
        assert(out@ =~= before + int_text(i as int));
    } else {
        write_nat(i as u64, out);
    }
}

// -----------------------------------------------------------------------------
// literals
// -----------------------------------------------------------------------------

/// The source text of a literal.
pub open spec fn literal_text(l: LiteralView, ft: spec_fn(FloatBits) -> Seq<char>) -> Seq<char> {
    match l {
        LiteralView::String(x) => seq!['"'] + render(x) + seq!['"'],
        LiteralView::RawString(x) => seq!['s', '\''] + x + seq!['\''],
        LiteralView::Integer(i) => int_text(i as int),
        LiteralView::Float(x) => ft(x),
        LiteralView::Boolean(b) => if b {
            seq!['t', 'r', 'u', 'e']
        } else {
            seq!['f', 'a', 'l', 's', 'e']
        },
        LiteralView::Regex(x) => seq!['r', '\''] + x + seq!['\''],
        LiteralView::Timestamp(x) => seq!['t', '\''] + x + seq!['\''],
        LiteralView::Null => seq!['n', 'u', 'l', 'l'],
    }
}

/// Appends `s` between an opening and a closing text.
fn write_quoted(open: &str, s: &str, close: &str, out: &mut String)
    ensures
        final(out)@ == old(out)@ + open@ + s@ + close@,
{
    let ghost before = out@;
    out.append(open);
    out.append(s);
    out.append(close);
    assert(out@ =~= before + open@ + s@ + close@);
}

fn write_literal<F: Fn(FloatBits) -> String>(l: &Literal, ft: &F, out: &mut String)
    requires
        float_printer(*ft),
    ensures
        final(out)@ == old(out)@ + literal_text(l@, printed(*ft)),
{
    match l {
        Literal::String(x) => {
            let text = x.to_string();
            proof { reveal_strlit("\""); }
            write_quoted("\"", text.as_str(), "\"", out);
        },
        Literal::RawString(x) => {
            proof {
                reveal_strlit("s'");
                reveal_strlit("'");
            }
            write_quoted("s'", x.as_str(), "'", out);
        },
        Literal::Integer(i) => write_int(*i, out),
        Literal::Float(x) => write_float(*x, ft, out),
        Literal::Boolean(b) => {
            if *b {
                proof { reveal_strlit("true"); }
                out.append("true");
            } else {
                proof { reveal_strlit("false"); }
                out.append("false");
            }
        },
        Literal::Regex(x) => {
            proof {
                reveal_strlit("r'");
                reveal_strlit("'");
            }
            write_quoted("r'", x.as_str(), "'", out);
        },
        Literal::Timestamp(x) => {
            proof {
                reveal_strlit("t'");
                reveal_strlit("'");
            }
            write_quoted("t'", x.as_str(), "'", out);
        },
        Literal::Null => {
            proof { reveal_strlit("null"); }
            out.append("null");
        },
    }
}

impl Literal {
    /// The source text of the literal, with floats written by `float_text`.
    pub fn to_string_with<F: Fn(FloatBits) -> String>(&self, float_text: &F) -> (r: String)
        requires
            float_printer(*float_text),
        ensures
            r@ == literal_text(self@, printed(*float_text)),
    {
        let mut out = String::new();
        write_literal(self, float_text, &mut out);
        assert(out@ =~= literal_text(self@, printed(*float_text)));
        out
    }
}

// -----------------------------------------------------------------------------
// paths
// -----------------------------------------------------------------------------

/// Letters, digits, `_` and `@` can stand in a field name without quotes.
pub open spec fn plain_field_char(c: char) -> bool {
    let n = c as u32;
    (65 <= n <= 90) || (97 <= n <= 122) || (48 <= n <= 57) || n == 95 || n == 64
}

pub open spec fn needs_quotes(f: Seq<char>) -> bool {
    f.len() == 0 || exists|i: int| 0 <= i < f.len() && !plain_field_char(#[trigger] f[i])
}

pub open spec fn escape_char(c: char) -> Seq<char> {
    if c == '"' || c == '\\' {
        seq!['\\', c]
    } else {
        seq![c]
    }
}

/// `f` with a backslash before each `"` and `\`.
pub open spec fn escape_text(f: Seq<char>) -> Seq<char>
    decreases f.len(),
{
    if f.len() == 0 {
        Seq::empty()
    } else {
        escape_text(f.drop_last()) + escape_char(f.last())
    }
}

/// A field name as it is written in a path: quoted and escaped when it is
/// empty or holds a character that a bare name cannot.
pub open spec fn field_text(f: Seq<char>) -> Seq<char> {
    if needs_quotes(f) {
        seq!['"'] + escape_text(f) + seq!['"']
    } else {
        f
    }
}

/// The alternatives of a coalesced segment, separated by `|`.
pub open spec fn fields_joined(fs: Seq<Seq<char>>) -> Seq<char>
    decreases fs.len(),
{
    if fs.len() == 0 {
        Seq::empty()
    } else if fs.len() == 1 {
        field_text(fs[0])
    } else {
        fields_joined(fs.drop_last()) + seq!['|'] + field_text(fs.last())
    }
}

/// A segment of a path; every segment but the first field or coalesced
/// segment is introduced by a `.`.
pub open spec fn segment_source(s: SegmentView, first: bool) -> Seq<char> {
    let dot = if first {
        Seq::<char>::empty()
    } else {
        seq!['.']
    };
    match s {
        SegmentView::Field(f) => dot + field_text(f),
        SegmentView::Index(i) => seq!['['] + int_text(i as int) + seq![']'],
        SegmentView::Coalesce(fs) => dot + seq!['('] + fields_joined(fs) + seq![')'],
    }
}

/// The text of a value path.
pub open spec fn value_path_text(p: Seq<SegmentView>) -> Seq<char>
    decreases p.len(),
{
    if p.len() == 0 {
        Seq::empty()
    } else {
        value_path_text(p.drop_last()) + segment_source(p.last(), p.len() == 1)
    }
}

/// The text of a target path: `.` for the event, `%` for its metadata, then
/// the value path.
pub open spec fn target_path_text(t: TargetPathView) -> Seq<char> {
    (match t.prefix {
        PathPrefix::Event => seq!['.'],
        PathPrefix::Metadata => seq!['%'],
    }) + value_path_text(t.path)
}

fn is_plain_char(c: char) -> (r: bool)
    ensures
        r == plain_field_char(c),
{
    let n = c as u32;
    (65 <= n && n <= 90) || (97 <= n && n <= 122) || (48 <= n && n <= 57) || n == 95 || n == 64
}

fn field_needs_quotes(f: &str) -> (r: bool)
    ensures
        r == needs_quotes(f@),
{
    let n = f.unicode_len();
    if n == 0 {
        return true;
    }
    let mut i: usize = 0;
    while i < n
        invariant
            i <= n,
            n == f@.len(),
            forall|j: int| 0 <= j < i ==> plain_field_char(#[trigger] f@[j]),
        decreases n - i,
    {
        let c = f.get_char(i);
        if !is_plain_char(c) {
            return true;
        }
        i += 1;
    }
    false
}

fn write_escaped(f: &str, out: &mut String)
    ensures
        final(out)@ == old(out)@ + escape_text(f@),
{
    let ghost before = out@;
    let n = f.unicode_len();
    let mut i: usize = 0;
    assert(f@.take(0) =~= Seq::<char>::empty());
    while i < n
        invariant
            i <= n,
            n == f@.len(),
            out@ == before + escape_text(f@.take(i as int)),
        decreases n - i,
    {
        let c = f.get_char(i);
        let ghost mid = out@;
        if c == '"' || c == '\\' {
            proof { reveal_strlit("\\"); }
            out.append("\\");
        }
        out.append(f.substring_char(i, i + 1));
        proof {
            assert(f@.subrange(i as int, i + 1) =~= seq![c]);
            assert(f@.take(i + 1).drop_last() =~= f@.take(i as int));
            assert(out@ =~= mid + escape_char(c));
        }
        i += 1;
    }
    assert(f@.take(n as int) =~= f@);
}

fn write_field(f: &str, out: &mut String)
    ensures
        final(out)@ == old(out)@ + field_text(f@),
{
    if field_needs_quotes(f) {
        let ghost before = out@;
        proof { reveal_strlit("\""); }
        out.append("\"");
        write_escaped(f, out);
        out.append("\"");
        assert(out@ =~= before + field_text(f@));
    } else {
        out.append(f);
    }
}

fn write_segment(s: &OwnedSegment, first: bool, out: &mut String)
    ensures
        final(out)@ == old(out)@ + segment_source(s@, first),
{
    let ghost before = out@;
    proof {
        reveal_strlit(".");
        reveal_strlit("[");
        reveal_strlit("]");
        reveal_strlit("(");
        reveal_strlit(")");
        reveal_strlit("|");
    }
    match s {
        OwnedSegment::Field(f) => {
            if !first {
                out.append(".");
            }
            write_field(f.as_str(), out);
        },
        OwnedSegment::Index(i) => {
            out.append("[");
            write_int(*i as i64, out);
            out.append("]");
        },
        OwnedSegment::Coalesce(fs) => {
            if !first {
                out.append(".");
            }
            out.append("(");
            let ghost open = out@;
            let ghost names = fs.deep_view();
            let mut k: usize = 0;
            assert(names.take(0) =~= Seq::<Seq<char>>::empty());
            while k < fs.len()
                invariant
                    k <= fs@.len(),
                    names == fs.deep_view(),
                    out@ == open + fields_joined(names.take(k as int)),
                decreases fs@.len() - k,
            {
                let ghost mid = out@;
                proof { reveal_strlit("|"); }
                if k > 0 {
                    out.append("|");
                }
                write_field(fs[k].as_str(), out);
                proof {
                    assert(names[k as int] == fs@[k as int]@);
                    assert(names.take(k + 1).drop_last() =~= names.take(k as int));
                    assert(names.take(k + 1).last() == names[k as int]);
                    if k == 0 {
                        assert(out@ =~= open + fields_joined(names.take(k + 1)));
                    } else {
                        assert(out@ =~= mid + seq!['|'] + field_text(names[k as int]));
                    }
                }
                k += 1;
            }
            assert(names.take(fs@.len() as int) =~= names);
            out.append(")");
        },
    }
    assert(out@ =~= before + segment_source(s@, first));
}

fn write_value_path(p: &OwnedValuePath, out: &mut String)
    ensures
        final(out)@ == old(out)@ + value_path_text(p@),
{
    let ghost before = out@;
    let mut k: usize = 0;
    assert(p@.take(0) =~= Seq::<SegmentView>::empty());
    while k < p.segments.len()
        invariant
            k <= p@.len(),
            p@.len() == p.segments@.len(),
            out@ == before + value_path_text(p@.take(k as int)),
        decreases p.segments@.len() - k,
    {
        write_segment(&p.segments[k], k == 0, out);
        assert(p@.take(k + 1).drop_last() =~= p@.take(k as int));
        k += 1;
    }
    assert(p@.take(p@.len() as int) =~= p@);
}

fn write_target_path(p: &OwnedTargetPath, out: &mut String)
    ensures
        final(out)@ == old(out)@ + target_path_text(p@),
{
    let ghost before = out@;
    match p.prefix {
        PathPrefix::Event => {
            proof { reveal_strlit("."); }
            out.append(".");
        },
        PathPrefix::Metadata => {
            proof { reveal_strlit("%"); }
            out.append("%");
        },
    }
    write_value_path(&p.path, out);
    assert(out@ =~= before + target_path_text(p@));
}

impl OwnedValuePath {
    /// The path as it is written in a program.
    pub fn to_string(&self) -> (r: String)
        ensures
            r@ == value_path_text(self@),
    {
        let mut out = String::new();
        write_value_path(self, &mut out);
        assert(out@ =~= value_path_text(self@));
        out
    }
}

impl OwnedTargetPath {
    /// The path as it is written in a program.
    pub fn to_string(&self) -> (r: String)
        ensures
            r@ == target_path_text(self@),
    {
        let mut out = String::new();
        write_target_path(self, &mut out);
        assert(out@ =~= target_path_text(self@));
        out
    }
}

// -----------------------------------------------------------------------------
// the text of a tree
// -----------------------------------------------------------------------------

pub open spec fn assign_op_text(op: AssignmentOp) -> Seq<char> {
    match op {
        AssignmentOp::Assign => "="@,
        AssignmentOp::Merge => "|="@,
    }
}

/// Names separated by `, `.
pub open spec fn names_text(s: Seq<NodeView<Seq<char>>>) -> Seq<char>
    decreases s.len(),
{
    if s.len() == 0 {
        Seq::empty()
    } else if s.len() == 1 {
        s[0].node
    } else {
        names_text(s.drop_last()) + ", "@ + s.last().node
    }
}

pub open spec fn node_expr_text(n: NodeView<ExprView>, ft: spec_fn(FloatBits) -> Seq<char>) -> Seq<char>
    decreases n,
{
    expr_text(n.node, ft)
}

/// The texts of the expressions, separated by `sep`.
pub open spec fn exprs_text(s: ExprsView, sep: Seq<char>, ft: spec_fn(FloatBits) -> Seq<char>) -> Seq<char>
    decreases s,
{
    if s.len() == 0 {
        Seq::empty()
    } else if s.len() == 1 {
        node_expr_text(s[0], ft)
    } else {
        exprs_text(s.drop_last(), sep, ft) + sep + node_expr_text(s.last(), ft)
    }
}

/// The expressions one to a line, each indented by a tab.
pub open spec fn lines_text(s: ExprsView, ft: spec_fn(FloatBits) -> Seq<char>) -> Seq<char>
    decreases s,
{
    if s.len() == 0 {
        Seq::empty()
    } else if s.len() == 1 {
        "\t"@ + node_expr_text(s[0], ft)
    } else {
        lines_text(s.drop_last(), ft) + "\n\t"@ + node_expr_text(s.last(), ft)
    }
}


/// Object entries as `"key": value`, separated by `, `.
pub open spec fn entries_text(s: EntriesView, ft: spec_fn(FloatBits) -> Seq<char>) -> Seq<char>
    decreases s,
{
    if s.len() == 0 {
        Seq::empty()
    } else if s.len() == 1 {
        "\""@ + s[0].0.node + "\": "@ + node_expr_text(s[0].1, ft)
    } else {
        entries_text(s.drop_last(), ft) + ", "@ + "\""@ + s.last().0.node + "\": "@
            + node_expr_text(s.last().1, ft)
    }
}

pub open spec fn arguments_text(
    s: Seq<NodeView<FunctionArgumentView>>,
    ft: spec_fn(FloatBits) -> Seq<char>,
) -> Seq<char>
    decreases s,
{
    if s.len() == 0 {
        Seq::empty()
    } else if s.len() == 1 {
        argument_text(s[0].node, ft)
    } else {
        arguments_text(s.drop_last(), ft) + ", "@ + argument_text(s.last().node, ft)
    }
}

/// The source text of an expression.
pub open spec fn expr_text(e: ExprView, ft: spec_fn(FloatBits) -> Seq<char>) -> Seq<char>
    decreases e,
{
    match e {
        ExprView::Literal(x) => literal_text(x.node, ft),
        ExprView::Container(x) => container_text(x.node, ft),
        ExprView::IfStatement(x) => if_text(x.node, ft),
        ExprView::Op(x) => op_text(x.node, ft),
        ExprView::Assignment(x) => assignment_text(x.node, ft),
        ExprView::Query(x) => query_text(x.node, ft),
        ExprView::FunctionCall(x) => call_text(x.node, ft),
        ExprView::Variable(x) => x.node,
        ExprView::Unary(x) => unary_text(x.node, ft),
        ExprView::Abort(x) => abort_text(x.node, ft),
        ExprView::Return(x) => "return "@ + node_expr_text(*x.node.expr, ft),
    }
}

pub open spec fn container_text(c: ContainerView, ft: spec_fn(FloatBits) -> Seq<char>) -> Seq<char>
    decreases c,
{
    match c {
        ContainerView::Group(x) => "("@ + node_expr_text(x.node, ft) + ")"@,
        ContainerView::Block(x) => "{\n"@ + lines_text(x.node, ft) + "\n}"@,
        ContainerView::Array(x) => "["@ + exprs_text(x.node, ", "@, ft) + "]"@,
        ContainerView::Object(x) => "{ "@ + entries_text(x.node, ft) + " }"@,
    }
}

pub open spec fn if_text(a: IfStatementView, ft: spec_fn(FloatBits) -> Seq<char>) -> Seq<char>
    decreases a,
{
    let alternative = match a.else_node {
        Some(x) => " else"@ + "{\n"@ + lines_text(x.node, ft) + "\n}"@,
        None => Seq::empty(),
    };
    "if "@ + predicate_text(a.predicate.node, ft) + " "@ + "{\n"@ + lines_text(a.if_node.node, ft) + "\n}"@ + alternative
}

pub open spec fn predicate_text(p: PredicateView, ft: spec_fn(FloatBits) -> Seq<char>) -> Seq<char>
    decreases p,
{
    match p {
        PredicateView::One(x) => node_expr_text(*x, ft),
        PredicateView::Many(x) => "("@ + exprs_text(x, "; "@, ft) + ")"@,
    }
}

pub open spec fn op_text(a: OpView, ft: spec_fn(FloatBits) -> Seq<char>) -> Seq<char>
    decreases a,
{
    node_expr_text(*a.0, ft) + " "@ + opcode_text(a.1.node) + " "@ + node_expr_text(*a.2, ft)
}

pub open spec fn assignment_text(a: AssignmentView, ft: spec_fn(FloatBits) -> Seq<char>) -> Seq<char>
    decreases a,
{
    match a {
        AssignmentView::Single { target, op, expr } => target_text(target.node, ft) + " "@
            + assign_op_text(op) + " "@ + node_expr_text(*expr, ft),
        AssignmentView::Infallible { ok, err, op, expr } => target_text(ok.node, ft) + ", "@
            + target_text(err.node, ft) + " "@ + assign_op_text(op) + " "@ + node_expr_text(*expr, ft),
    }
}

pub open spec fn target_text(t: AssignmentTargetView, ft: spec_fn(FloatBits) -> Seq<char>) -> Seq<char>
    decreases t,
{
    match t {
        AssignmentTargetView::Noop => "_"@,
        AssignmentTargetView::Query(q) => query_text(q, ft),
        AssignmentTargetView::Internal(ident, path) => match path {
            Some(p) => ident + value_path_text(p),
            None => ident,
        },
        AssignmentTargetView::External(path) => match path {
            Some(p) => target_path_text(p),
            None => "."@,
        },
    }
}

pub open spec fn query_text(q: QueryView, ft: spec_fn(FloatBits) -> Seq<char>) -> Seq<char>
    decreases q,
{
    query_target_text(q.target.node, ft) + value_path_text(q.path.node)
}

pub open spec fn query_target_text(t: QueryTargetView, ft: spec_fn(FloatBits) -> Seq<char>) -> Seq<char>
    decreases t,
{
    match t {
        QueryTargetView::Internal(v) => v,
        QueryTargetView::External(prefix) => match prefix {
            PathPrefix::Event => "."@,
            PathPrefix::Metadata => "&"@,
        },
        QueryTargetView::FunctionCall(f) => call_text(f, ft),
        QueryTargetView::Container(c) => container_text(c, ft),
    }
}

pub open spec fn call_text(f: FunctionCallView, ft: spec_fn(FloatBits) -> Seq<char>) -> Seq<char>
    decreases f,
{
    let closure = match f.closure {
        Some(c) => " "@ + closure_text(c.node, ft),
        None => Seq::empty(),
    };
    f.ident.node + "("@ + arguments_text(f.arguments, ft) + ")"@ + closure
}

pub open spec fn argument_text(a: FunctionArgumentView, ft: spec_fn(FloatBits) -> Seq<char>) -> Seq<char>
    decreases a,
{
    let label = match a.ident {
        Some(i) => i.node + ": "@,
        None => Seq::empty(),
    };
    label + node_expr_text(a.expr, ft)
}

pub open spec fn closure_text(c: FunctionClosureView, ft: spec_fn(FloatBits) -> Seq<char>) -> Seq<char>
    decreases c,
{
    "-> |"@ + names_text(c.variables) + "| "@ + "{\n"@ + lines_text(c.block.node, ft) + "\n}"@
}

pub open spec fn unary_text(u: UnaryView, ft: spec_fn(FloatBits) -> Seq<char>) -> Seq<char>
    decreases u,
{
    match u {
        UnaryView::Not(n) => "!"@ + node_expr_text(*n.node.1, ft),
    }
}

pub open spec fn abort_text(a: AbortView, ft: spec_fn(FloatBits) -> Seq<char>) -> Seq<char>
    decreases a,
{
    match a.message {
        Some(m) => "abort: "@ + node_expr_text(*m, ft),
        None => "abort"@,
    }
}

/// A parse error left in the tree is written as its message.
pub open spec fn root_text(r: RootExprView, ft: spec_fn(FloatBits) -> Seq<char>) -> Seq<char> {
    match r {
        RootExprView::Expr(x) => node_expr_text(x, ft),
        RootExprView::Error(e) => e.message,
    }
}

/// A program: each root expression followed by a newline.
pub open spec fn program_text(p: Seq<NodeView<RootExprView>>, ft: spec_fn(FloatBits) -> Seq<char>) -> Seq<char>
    decreases p.len(),
{
    if p.len() == 0 {
        Seq::empty()
    } else {
        program_text(p.drop_last(), ft) + root_text(p.last().node, ft) + "\n"@
    }
}

/// The text of a block: its expressions one to a line, indented, between
/// braces on lines of their own.
pub open spec fn block_text(s: ExprsView, ft: spec_fn(FloatBits) -> Seq<char>) -> Seq<char> {
    "{\n"@ + lines_text(s, ft) + "\n}"@
}

// -----------------------------------------------------------------------------
// laws of the text
// -----------------------------------------------------------------------------

/// An if statement without an else branch is written as `if `, its predicate,
/// a space and its block, and nothing more; an else branch adds ` else` and
/// its block after that, and nothing else.
pub proof fn law_if_text(a: IfStatementView, ft: spec_fn(FloatBits) -> Seq<char>)
    ensures
        a.else_node is None ==> if_text(a, ft) == "if "@ + predicate_text(a.predicate.node, ft) + " "@
            + block_text(a.if_node.node, ft),
        a.else_node matches Some(x) ==> if_text(a, ft) == if_text(
            IfStatementView { else_node: None, ..a },
            ft,
        ) + " else"@ + block_text(x.node, ft),
{
}

/// A call without a closure is written as the function's name and its
/// arguments in parentheses, and nothing more; a closure adds a space and the
/// closure's text after that.
pub proof fn law_call_text(f: FunctionCallView, ft: spec_fn(FloatBits) -> Seq<char>)
    ensures
        f.closure is None ==> call_text(f, ft) == f.ident.node + "("@ + arguments_text(f.arguments, ft) + ")"@,
        f.closure matches Some(c) ==> call_text(f, ft) == call_text(
            FunctionCallView { closure: None, ..f },
            ft,
        ) + " "@ + closure_text(c.node, ft),
{
}

/// An abort without a message is written `abort`; a message adds `: ` and the
/// message's text.
pub proof fn law_abort_text(a: AbortView, ft: spec_fn(FloatBits) -> Seq<char>)
    ensures
        a.message is None ==> abort_text(a, ft) == "abort"@,
        a.message matches Some(m) ==> abort_text(a, ft) == abort_text(AbortView { message: None }, ft)
            + ": "@ + node_expr_text(*m, ft),
{
    assert(("abort"@ + ": "@) =~= "abort: "@) by {
        reveal_strlit("abort");
        reveal_strlit(": ");
        reveal_strlit("abort: ");
    }
    if let Some(m) = a.message {
        assert(abort_text(a, ft) =~= "abort"@ + ": "@ + node_expr_text(*m, ft));
    }
}

/// The text of a block is its text lines between `{` and `}` lines: with no
/// expression it is an empty line between braces, with one it is that
/// expression's text indented by a tab.
pub proof fn law_block_text(s: ExprsView, ft: spec_fn(FloatBits) -> Seq<char>)
    ensures
        s.len() == 0 ==> block_text(s, ft) == "{\n"@ + "\n}"@,
        s.len() == 1 ==> block_text(s, ft) == "{\n"@ + "\t"@ + node_expr_text(s[0], ft) + "\n}"@,
{
    if s.len() == 0 {
        assert(block_text(s, ft) =~= "{\n"@ + "\n}"@);
    }
}

// -----------------------------------------------------------------------------
// writing a tree
// -----------------------------------------------------------------------------

fn write_assign_op(op: &AssignmentOp, out: &mut String)
    ensures
        final(out)@ == old(out)@ + assign_op_text(*op),
{
    match op {
        AssignmentOp::Assign => out.append("="),
        AssignmentOp::Merge => out.append("|="),
    }
}

fn write_names(s: &Vec<Node<Ident>>, out: &mut String)
    ensures
        final(out)@ == old(out)@ + names_text(view_ident_nodes(s@)),
{
    let ghost before = out@;
    let ghost v = view_ident_nodes(s@);
    let mut i: usize = 0;
    assert(v.take(0) =~= Seq::<NodeView<Seq<char>>>::empty());
    while i < s.len()
        invariant
            i <= s@.len(),
            v == view_ident_nodes(s@),
            out@ == before + names_text(v.take(i as int)),
        decreases s@.len() - i,
    {
        let ghost mid = out@;
        if i > 0 {
            out.append(", ");
        }
        out.append(s[i].node.as_str());
        proof {
            assert(v.take(i + 1).drop_last() =~= v.take(i as int));
            if i > 0 {
                assert(out@ =~= mid + ", "@ + v[i as int].node);
            }
        }
        i += 1;
    }
    assert(v.take(s@.len() as int) =~= v);
}

fn write_node_expr<F: Fn(FloatBits) -> String>(n: &Node<Expr>, ft: &F, out: &mut String)
    requires
        float_printer(*ft),
    ensures
        final(out)@ == old(out)@ + node_expr_text(view_node_expr(*n), printed(*ft)),
    decreases n,
{
    write_expr(&n.node, ft, out);
}

fn write_exprs<F: Fn(FloatBits) -> String>(s: &Vec<Node<Expr>>, sep: &str, ft: &F, out: &mut String)
    requires
        float_printer(*ft),
    ensures
        final(out)@ == old(out)@ + exprs_text(view_exprs(s@), sep@, printed(*ft)),
    decreases s,
{
    let ghost before = out@;
    let ghost v = view_exprs(s@);
    let ghost pf = printed(*ft);
    let mut i: usize = 0;
    assert(v.take(0) =~= Seq::<NodeView<ExprView>>::empty());
    while i < s.len()
        invariant
            i <= s@.len(),
            v == view_exprs(s@),
            pf == printed(*ft),
            float_printer(*ft),
            out@ == before + exprs_text(v.take(i as int), sep@, pf),
        decreases s@.len() - i,
    {
        proof {
            assert(decreases_to!(*s => s@));
            assert(decreases_to!(s@ => s@[i as int]));
        }
        let ghost mid = out@;
        if i > 0 {
            out.append(sep);
        }
        write_node_expr(&s[i], ft, out);
        proof {
            assert(v.take(i + 1).drop_last() =~= v.take(i as int));
            if i > 0 {
                assert(out@ =~= mid + sep@ + node_expr_text(v[i as int], pf));
            }
        }
        i += 1;
    }
    assert(v.take(s@.len() as int) =~= v);
}

fn write_lines<F: Fn(FloatBits) -> String>(s: &Vec<Node<Expr>>, ft: &F, out: &mut String)
    requires
        float_printer(*ft),
    ensures
        final(out)@ == old(out)@ + lines_text(view_exprs(s@), printed(*ft)),
    decreases s,
{
    let ghost before = out@;
    let ghost v = view_exprs(s@);
    let ghost pf = printed(*ft);
    let mut i: usize = 0;
    assert(v.take(0) =~= Seq::<NodeView<ExprView>>::empty());
    while i < s.len()
        invariant
            i <= s@.len(),
            v == view_exprs(s@),
            pf == printed(*ft),
            float_printer(*ft),
            out@ == before + lines_text(v.take(i as int), pf),
        decreases s@.len() - i,
    {
        proof {
            assert(decreases_to!(*s => s@));
            assert(decreases_to!(s@ => s@[i as int]));
        }
        let ghost mid = out@;
        if i > 0 {
            out.append("\n\t");
        } else {
            out.append("\t");
        }
        write_node_expr(&s[i], ft, out);
        proof {
            assert(v.take(i + 1).drop_last() =~= v.take(i as int));
            if i > 0 {
                assert(out@ =~= mid + "\n\t"@ + node_expr_text(v[i as int], pf));
            } else {
                assert(out@ =~= mid + "\t"@ + node_expr_text(v[i as int], pf));
            }
        }
        i += 1;
    }
    assert(v.take(s@.len() as int) =~= v);
}

fn write_entries<F: Fn(FloatBits) -> String>(
    s: &Vec<(Node<String>, Node<Expr>)>,
    ft: &F,
    out: &mut String,
)
    requires
        float_printer(*ft),
    ensures
        final(out)@ == old(out)@ + entries_text(view_entries(s@), printed(*ft)),
    decreases s,
{
    let ghost before = out@;
    let ghost v = view_entries(s@);
    let ghost pf = printed(*ft);
    let mut i: usize = 0;
    assert(v.take(0) =~= Seq::<(NodeView<Seq<char>>, NodeView<ExprView>)>::empty());
    while i < s.len()
        invariant
            i <= s@.len(),
            v == view_entries(s@),
            pf == printed(*ft),
            float_printer(*ft),
            out@ == before + entries_text(v.take(i as int), pf),
        decreases s@.len() - i,
    {
        proof {
            assert(decreases_to!(*s => s@));
            assert(decreases_to!(s@ => s@[i as int]));
            assert(decreases_to!(s@[i as int] => s@[i as int].1));
        }
        let ghost mid = out@;
        if i > 0 {
            out.append(", ");
        }
        out.append("\"");
        out.append(s[i].0.node.as_str());
        out.append("\": ");
        write_node_expr(&s[i].1, ft, out);
        proof {
            assert(v.take(i + 1).drop_last() =~= v.take(i as int));
            if i > 0 {
                assert(out@ =~= mid + ", "@ + "\""@ + v[i as int].0.node + "\": "@ + node_expr_text(
                    v[i as int].1,
                    pf,
                ));
            } else {
                assert(out@ =~= mid + "\""@ + v[i as int].0.node + "\": "@ + node_expr_text(
                    v[i as int].1,
                    pf,
                ));
            }
        }
        i += 1;
    }
    assert(v.take(s@.len() as int) =~= v);
}

fn write_arguments<F: Fn(FloatBits) -> String>(
    s: &Vec<Node<FunctionArgument>>,
    ft: &F,
    out: &mut String,
)
    requires
        float_printer(*ft),
    ensures
        final(out)@ == old(out)@ + arguments_text(view_arguments(s@), printed(*ft)),
    decreases s,
{
    let ghost before = out@;
    let ghost v = view_arguments(s@);
    let ghost pf = printed(*ft);
    let mut i: usize = 0;
    assert(v.take(0) =~= Seq::<NodeView<FunctionArgumentView>>::empty());
    while i < s.len()
        invariant
            i <= s@.len(),
            v == view_arguments(s@),
            pf == printed(*ft),
            float_printer(*ft),
            out@ == before + arguments_text(v.take(i as int), pf),
        decreases s@.len() - i,
    {
        proof {
            assert(decreases_to!(*s => s@));
            assert(decreases_to!(s@ => s@[i as int]));
            assert(decreases_to!(s@[i as int] => s@[i as int].node));
        }
        let ghost mid = out@;
        if i > 0 {
            out.append(", ");
        }
        write_argument(&s[i].node, ft, out);
        proof {
            assert(v.take(i + 1).drop_last() =~= v.take(i as int));
            if i > 0 {
                assert(out@ =~= mid + ", "@ + argument_text(v[i as int].node, pf));
            }
        }
        i += 1;
    }
    assert(v.take(s@.len() as int) =~= v);
}

fn write_expr<F: Fn(FloatBits) -> String>(e: &Expr, ft: &F, out: &mut String)
    requires
        float_printer(*ft),
    ensures
        final(out)@ == old(out)@ + expr_text(e@, printed(*ft)),
    decreases e,
{
    match e {
        Expr::Literal(x) => write_literal(&x.node, ft, out),
        Expr::Container(x) => write_container(&x.node, ft, out),
        Expr::IfStatement(x) => write_if(&x.node, ft, out),
        Expr::Op(x) => write_op(&x.node, ft, out),
        Expr::Assignment(x) => write_assignment(&x.node, ft, out),
        Expr::Query(x) => write_query(&x.node, ft, out),
        Expr::FunctionCall(x) => write_call(&x.node, ft, out),
        Expr::Variable(x) => out.append(x.node.as_str()),
        Expr::Unary(x) => write_unary(&x.node, ft, out),
        Expr::Abort(x) => write_abort(&x.node, ft, out),
        Expr::Return(x) => {
            let ghost before = out@;
            out.append("return ");
            write_node_expr(&x.node.expr, ft, out);
            assert(out@ =~= before + expr_text(e@, printed(*ft)));
        },
    }
}

fn write_container<F: Fn(FloatBits) -> String>(c: &Container, ft: &F, out: &mut String)
    requires
        float_printer(*ft),
    ensures
        final(out)@ == old(out)@ + container_text(c@, printed(*ft)),
    decreases c,
{
    let ghost before = out@;
    match c {
        Container::Group(x) => {
            out.append("(");
            write_node_expr(&x.node.0, ft, out);
            out.append(")");
        },
        Container::Block(x) => {
            out.append("{\n");
            write_lines(&x.node.0, ft, out);
            out.append("\n}");
        },
        Container::Array(x) => {
            out.append("[");
            write_exprs(&x.node.0, ", ", ft, out);
            out.append("]");
        },
        Container::Object(x) => {
            out.append("{ ");
            write_entries(&x.node.0, ft, out);
            out.append(" }");
        },
    }
    assert(out@ =~= before + container_text(c@, printed(*ft)));
}

fn write_if<F: Fn(FloatBits) -> String>(a: &IfStatement, ft: &F, out: &mut String)
    requires
        float_printer(*ft),
    ensures
        final(out)@ == old(out)@ + if_text(a@, printed(*ft)),
    decreases a,
{
    let ghost before = out@;
    out.append("if ");
    write_predicate(&a.predicate.node, ft, out);
    out.append(" ");
    out.append("{\n");
            write_lines(&a.if_node.node.0, ft, out);
            out.append("\n}");
    match &a.else_node {
        Some(x) => {
            out.append(" else");
            out.append("{\n");
            write_lines(&x.node.0, ft, out);
            out.append("\n}");
        },
        None => {},
    }
    assert(out@ =~= before + if_text(a@, printed(*ft)));
}

fn write_predicate<F: Fn(FloatBits) -> String>(p: &Predicate, ft: &F, out: &mut String)
    requires
        float_printer(*ft),
    ensures
        final(out)@ == old(out)@ + predicate_text(p@, printed(*ft)),
    decreases p,
{
    let ghost before = out@;
    match p {
        Predicate::One(x) => write_node_expr(x, ft, out),
        Predicate::Many(x) => {
            out.append("(");
            write_exprs(x, "; ", ft, out);
            out.append(")");
        },
    }
    assert(out@ =~= before + predicate_text(p@, printed(*ft)));
}

fn write_op<F: Fn(FloatBits) -> String>(a: &Op, ft: &F, out: &mut String)
    requires
        float_printer(*ft),
    ensures
        final(out)@ == old(out)@ + op_text(a@, printed(*ft)),
    decreases a,
{
    let ghost before = out@;
    write_node_expr(&a.0, ft, out);
    out.append(" ");
    out.append(a.1.node.as_str());
    out.append(" ");
    write_node_expr(&a.2, ft, out);
    assert(out@ =~= before + op_text(a@, printed(*ft)));
}

fn write_assignment<F: Fn(FloatBits) -> String>(a: &Assignment, ft: &F, out: &mut String)
    requires
        float_printer(*ft),
    ensures
        final(out)@ == old(out)@ + assignment_text(a@, printed(*ft)),
    decreases a,
{
    let ghost before = out@;
    match a {
        Assignment::Single { target, op, expr } => {
            write_target(&target.node, ft, out);
            out.append(" ");
            write_assign_op(op, out);
            out.append(" ");
            write_node_expr(expr, ft, out);
        },
        Assignment::Infallible { ok, err, op, expr } => {
            write_target(&ok.node, ft, out);
            out.append(", ");
            write_target(&err.node, ft, out);
            out.append(" ");
            write_assign_op(op, out);
            out.append(" ");
            write_node_expr(expr, ft, out);
        },
    }
    assert(out@ =~= before + assignment_text(a@, printed(*ft)));
}

fn write_target<F: Fn(FloatBits) -> String>(t: &AssignmentTarget, ft: &F, out: &mut String)
    requires
        float_printer(*ft),
    ensures
        final(out)@ == old(out)@ + target_text(t@, printed(*ft)),
    decreases t,
{
    let ghost before = out@;
    match t {
        AssignmentTarget::Noop => out.append("_"),
        AssignmentTarget::Query(q) => write_query(q, ft, out),
        AssignmentTarget::Internal(ident, path) => {
            out.append(ident.as_str());
            match path {
                Some(p) => write_value_path(p, out),
                None => {},
            }
        },
        AssignmentTarget::External(path) => match path {
            Some(p) => write_target_path(p, out),
            None => out.append("."),
        },
    }
    assert(out@ =~= before + target_text(t@, printed(*ft)));
}

fn write_query<F: Fn(FloatBits) -> String>(q: &Query, ft: &F, out: &mut String)
    requires
        float_printer(*ft),
    ensures
        final(out)@ == old(out)@ + query_text(q@, printed(*ft)),
    decreases q,
{
    let ghost before = out@;
    write_query_target(&q.target.node, ft, out);
    write_value_path(&q.path.node, out);
    assert(out@ =~= before + query_text(q@, printed(*ft)));
}

fn write_query_target<F: Fn(FloatBits) -> String>(t: &QueryTarget, ft: &F, out: &mut String)
    requires
        float_printer(*ft),
    ensures
        final(out)@ == old(out)@ + query_target_text(t@, printed(*ft)),
    decreases t,
{
    match t {
        QueryTarget::Internal(v) => out.append(v.as_str()),
        QueryTarget::External(prefix) => match prefix {
            PathPrefix::Event => out.append("."),
            PathPrefix::Metadata => out.append("&"),
        },
        QueryTarget::FunctionCall(f) => write_call(f, ft, out),
        QueryTarget::Container(c) => write_container(c, ft, out),
    }
}

fn write_call<F: Fn(FloatBits) -> String>(f: &FunctionCall, ft: &F, out: &mut String)
    requires
        float_printer(*ft),
    ensures
        final(out)@ == old(out)@ + call_text(f@, printed(*ft)),
    decreases f,
{
    let ghost before = out@;
    out.append(f.ident.node.as_str());
    out.append("(");
    write_arguments(&f.arguments, ft, out);
    out.append(")");
    match &f.closure {
        Some(c) => {
            out.append(" ");
            write_closure(&c.node, ft, out);
        },
        None => {},
    }
    assert(out@ =~= before + call_text(f@, printed(*ft)));
}

fn write_argument<F: Fn(FloatBits) -> String>(a: &FunctionArgument, ft: &F, out: &mut String)
    requires
        float_printer(*ft),
    ensures
        final(out)@ == old(out)@ + argument_text(a@, printed(*ft)),
    decreases a,
{
    let ghost before = out@;
    match &a.ident {
        Some(i) => {
            out.append(i.node.as_str());
            out.append(": ");
        },
        None => {},
    }
    write_node_expr(&a.expr, ft, out);
    assert(out@ =~= before + argument_text(a@, printed(*ft)));
}

fn write_closure<F: Fn(FloatBits) -> String>(c: &FunctionClosure, ft: &F, out: &mut String)
    requires
        float_printer(*ft),
    ensures
        final(out)@ == old(out)@ + closure_text(c@, printed(*ft)),
    decreases c,
{
    let ghost before = out@;
    out.append("-> |");
    write_names(&c.variables, out);
    out.append("| ");
    out.append("{\n");
            write_lines(&c.block.node.0, ft, out);
            out.append("\n}");
    assert(out@ =~= before + closure_text(c@, printed(*ft)));
}

fn write_unary<F: Fn(FloatBits) -> String>(u: &Unary, ft: &F, out: &mut String)
    requires
        float_printer(*ft),
    ensures
        final(out)@ == old(out)@ + unary_text(u@, printed(*ft)),
    decreases u,
{
    let ghost before = out@;
    match u {
        Unary::Not(n) => {
            out.append("!");
            write_node_expr(&n.node.1, ft, out);
        },
    }
    assert(out@ =~= before + unary_text(u@, printed(*ft)));
}

fn write_abort<F: Fn(FloatBits) -> String>(a: &Abort, ft: &F, out: &mut String)
    requires
        float_printer(*ft),
    ensures
        final(out)@ == old(out)@ + abort_text(a@, printed(*ft)),
    decreases a,
{
    let ghost before = out@;
    match &a.message {
        Some(m) => {
            out.append("abort: ");
            write_node_expr(m, ft, out);
        },
        None => out.append("abort"),
    }
    assert(out@ =~= before + abort_text(a@, printed(*ft)));
}

fn write_root<F: Fn(FloatBits) -> String>(r: &RootExpr, ft: &F, out: &mut String)
    requires
        float_printer(*ft),
    ensures
        final(out)@ == old(out)@ + root_text(r@, printed(*ft)),
{
    match r {
        RootExpr::Expr(x) => write_node_expr(x, ft, out),
        RootExpr::Error(e) => out.append(e.message.as_str()),
    }
}

fn write_program<F: Fn(FloatBits) -> String>(p: &Program, ft: &F, out: &mut String)
    requires
        float_printer(*ft),
    ensures
        final(out)@ == old(out)@ + program_text(p@, printed(*ft)),
{
    let ghost before = out@;
    let ghost pf = printed(*ft);
    let roots = &p.0;
    let mut i: usize = 0;
    assert(p@.take(0) =~= Seq::<NodeView<RootExprView>>::empty());
    while i < roots.len()
        invariant
            i <= roots@.len(),
            roots == p.0,
            p@ == view_roots(roots@),
            pf == printed(*ft),
            float_printer(*ft),
            out@ == before + program_text(p@.take(i as int), pf),
        decreases roots@.len() - i,
    {
        let ghost mid = out@;
        write_root(&roots[i].node, ft, out);
        out.append("\n");
        proof {
            assert(p@.take(i + 1).drop_last() =~= p@.take(i as int));
            assert(out@ =~= mid + root_text(p@[i as int].node, pf) + "\n"@);
        }
        i += 1;
    }
    assert(p@.take(roots@.len() as int) =~= p@);
}

impl Program {
    /// The program's text: each root expression on a line of its own.
    pub fn to_string_with<F: Fn(FloatBits) -> String>(&self, float_text: &F) -> (r: String)
        requires
            float_printer(*float_text),
        ensures
            r@ == program_text(self@, printed(*float_text)),
    {
        let mut out = String::new();
        write_program(self, float_text, &mut out);
        assert(out@ =~= program_text(self@, printed(*float_text)));
        out
    }
}

impl RootExpr {
    /// The text of a root expression; a parse error is written as its message.
    pub fn to_string_with<F: Fn(FloatBits) -> String>(&self, float_text: &F) -> (r: String)
        requires
            float_printer(*float_text),
        ensures
            r@ == root_text(self@, printed(*float_text)),
    {
        let mut out = String::new();
        write_root(self, float_text, &mut out);
        assert(out@ =~= root_text(self@, printed(*float_text)));
        out
    }
}

impl Expr {
    /// The source text of the expression, with floats written by `float_text`.
    pub fn to_string_with<F: Fn(FloatBits) -> String>(&self, float_text: &F) -> (r: String)
        requires
            float_printer(*float_text),
        ensures
            r@ == expr_text(self@, printed(*float_text)),
    {
        let mut out = String::new();
        write_expr(self, float_text, &mut out);
        assert(out@ =~= expr_text(self@, printed(*float_text)));
        out
    }
}

impl Container {
    /// The source text of the container.
    pub fn to_string_with<F: Fn(FloatBits) -> String>(&self, float_text: &F) -> (r: String)
        requires
            float_printer(*float_text),
        ensures
            r@ == container_text(self@, printed(*float_text)),
    {
        let mut out = String::new();
        write_container(self, float_text, &mut out);
        assert(out@ =~= container_text(self@, printed(*float_text)));
        out
    }
}

impl Block {
    /// The block: its expressions one to a line, indented, between braces.
    pub fn to_string_with<F: Fn(FloatBits) -> String>(&self, float_text: &F) -> (r: String)
        requires
            float_printer(*float_text),
        ensures
            r@ == block_text(self@, printed(*float_text)),
    {
        let mut out = String::new();
        out.append("{\n");
        write_lines(&self.0, float_text, &mut out);
        out.append("\n}");
        assert(out@ =~= block_text(self@, printed(*float_text)));
        out
    }
}

impl Group {
    /// The grouped expression between parentheses.
    pub fn to_string_with<F: Fn(FloatBits) -> String>(&self, float_text: &F) -> (r: String)
        requires
            float_printer(*float_text),
        ensures
            r@ == "("@ + node_expr_text(self@, printed(*float_text)) + ")"@,
    {
        let mut out = String::new();
        out.append("(");
        write_node_expr(&self.0, float_text, &mut out);
        out.append(")");
        assert(out@ =~= "("@ + node_expr_text(self@, printed(*float_text)) + ")"@);
        out
    }
}

impl Array {
    /// The elements separated by `, `, between brackets.
    pub fn to_string_with<F: Fn(FloatBits) -> String>(&self, float_text: &F) -> (r: String)
        requires
            float_printer(*float_text),
        ensures
            r@ == "["@ + exprs_text(self@, ", "@, printed(*float_text)) + "]"@,
    {
        let mut out = String::new();
        out.append("[");
        write_exprs(&self.0, ", ", float_text, &mut out);
        out.append("]");
        assert(out@ =~= "["@ + exprs_text(self@, ", "@, printed(*float_text)) + "]"@);
        out
    }
}

impl Object {
    /// The entries as `"key": value`, separated by `, `, between braces.
    pub fn to_string_with<F: Fn(FloatBits) -> String>(&self, float_text: &F) -> (r: String)
        requires
            float_printer(*float_text),
        ensures
            r@ == "{ "@ + entries_text(self@, printed(*float_text)) + " }"@,
    {
        let mut out = String::new();
        out.append("{ ");
        write_entries(&self.0, float_text, &mut out);
        out.append(" }");
        assert(out@ =~= "{ "@ + entries_text(self@, printed(*float_text)) + " }"@);
        out
    }
}

impl IfStatement {
    /// The source text of the if statement.
    pub fn to_string_with<F: Fn(FloatBits) -> String>(&self, float_text: &F) -> (r: String)
        requires
            float_printer(*float_text),
        ensures
            r@ == if_text(self@, printed(*float_text)),
    {
        let mut out = String::new();
        write_if(self, float_text, &mut out);
        assert(out@ =~= if_text(self@, printed(*float_text)));
        out
    }
}

impl Predicate {
    /// The source text of the predicate.
    pub fn to_string_with<F: Fn(FloatBits) -> String>(&self, float_text: &F) -> (r: String)
        requires
            float_printer(*float_text),
        ensures
            r@ == predicate_text(self@, printed(*float_text)),
    {
        let mut out = String::new();
        write_predicate(self, float_text, &mut out);
        assert(out@ =~= predicate_text(self@, printed(*float_text)));
        out
    }
}

impl Op {
    /// The operands with the operator between them.
    pub fn to_string_with<F: Fn(FloatBits) -> String>(&self, float_text: &F) -> (r: String)
        requires
            float_printer(*float_text),
        ensures
            r@ == op_text(self@, printed(*float_text)),
    {
        let mut out = String::new();
        write_op(self, float_text, &mut out);
        assert(out@ =~= op_text(self@, printed(*float_text)));
        out
    }
}

impl Assignment {
    /// The source text of the assignment.
    pub fn to_string_with<F: Fn(FloatBits) -> String>(&self, float_text: &F) -> (r: String)
        requires
            float_printer(*float_text),
        ensures
            r@ == assignment_text(self@, printed(*float_text)),
    {
        let mut out = String::new();
        write_assignment(self, float_text, &mut out);
        assert(out@ =~= assignment_text(self@, printed(*float_text)));
        out
    }
}

impl AssignmentTarget {
    /// The source text of the assignment target.
    pub fn to_string_with<F: Fn(FloatBits) -> String>(&self, float_text: &F) -> (r: String)
        requires
            float_printer(*float_text),
        ensures
            r@ == target_text(self@, printed(*float_text)),
    {
        let mut out = String::new();
        write_target(self, float_text, &mut out);
        assert(out@ =~= target_text(self@, printed(*float_text)));
        out
    }
}

impl Query {
    /// The query target followed by the path.
    pub fn to_string_with<F: Fn(FloatBits) -> String>(&self, float_text: &F) -> (r: String)
        requires
            float_printer(*float_text),
        ensures
            r@ == query_text(self@, printed(*float_text)),
    {
        let mut out = String::new();
        write_query(self, float_text, &mut out);
        assert(out@ =~= query_text(self@, printed(*float_text)));
        out
    }
}

impl QueryTarget {
    /// The source text of the query target.
    pub fn to_string_with<F: Fn(FloatBits) -> String>(&self, float_text: &F) -> (r: String)
        requires
            float_printer(*float_text),
        ensures
            r@ == query_target_text(self@, printed(*float_text)),
    {
        let mut out = String::new();
        write_query_target(self, float_text, &mut out);
        assert(out@ =~= query_target_text(self@, printed(*float_text)));
        out
    }
}

impl FunctionCall {
    /// The name, the arguments in parentheses and the closure, if any.
    pub fn to_string_with<F: Fn(FloatBits) -> String>(&self, float_text: &F) -> (r: String)
        requires
            float_printer(*float_text),
        ensures
            r@ == call_text(self@, printed(*float_text)),
    {
        let mut out = String::new();
        write_call(self, float_text, &mut out);
        assert(out@ =~= call_text(self@, printed(*float_text)));
        out
    }
}

impl FunctionArgument {
    /// The argument, with its keyword if it has one.
    pub fn to_string_with<F: Fn(FloatBits) -> String>(&self, float_text: &F) -> (r: String)
        requires
            float_printer(*float_text),
        ensures
            r@ == argument_text(self@, printed(*float_text)),
    {
        let mut out = String::new();
        write_argument(self, float_text, &mut out);
        assert(out@ =~= argument_text(self@, printed(*float_text)));
        out
    }
}

impl FunctionClosure {
    /// The closure's variables and block.
    pub fn to_string_with<F: Fn(FloatBits) -> String>(&self, float_text: &F) -> (r: String)
        requires
            float_printer(*float_text),
        ensures
            r@ == closure_text(self@, printed(*float_text)),
    {
        let mut out = String::new();
        write_closure(self, float_text, &mut out);
        assert(out@ =~= closure_text(self@, printed(*float_text)));
        out
    }
}

impl Unary {
    /// The source text of the unary expression.
    pub fn to_string_with<F: Fn(FloatBits) -> String>(&self, float_text: &F) -> (r: String)
        requires
            float_printer(*float_text),
        ensures
            r@ == unary_text(self@, printed(*float_text)),
    {
        let mut out = String::new();
        write_unary(self, float_text, &mut out);
        assert(out@ =~= unary_text(self@, printed(*float_text)));
        out
    }
}

impl Not {
    /// The negated expression after `!`.
    pub fn to_string_with<F: Fn(FloatBits) -> String>(&self, float_text: &F) -> (r: String)
        requires
            float_printer(*float_text),
        ensures
            r@ == "!"@ + node_expr_text(*self@.1, printed(*float_text)),
    {
        let mut out = String::new();
        out.append("!");
        write_node_expr(&self.1, float_text, &mut out);
        assert(out@ =~= "!"@ + node_expr_text(*self@.1, printed(*float_text)));
        out
    }
}

impl Abort {
    /// `abort`, with its message if it has one.
    pub fn to_string_with<F: Fn(FloatBits) -> String>(&self, float_text: &F) -> (r: String)
        requires
            float_printer(*float_text),
        ensures
            r@ == abort_text(self@, printed(*float_text)),
    {
        let mut out = String::new();
        write_abort(self, float_text, &mut out);
        assert(out@ =~= abort_text(self@, printed(*float_text)));
        out
    }
}

impl Return {
    /// `return` and the returned expression.
    pub fn to_string_with<F: Fn(FloatBits) -> String>(&self, float_text: &F) -> (r: String)
        requires
            float_printer(*float_text),
        ensures
            r@ == "return "@ + node_expr_text(*self@.expr, printed(*float_text)),
    {
        let mut out = String::new();
        out.append("return ");
        write_node_expr(&self.expr, float_text, &mut out);
        assert(out@ =~= "return "@ + node_expr_text(*self@.expr, printed(*float_text)));
        out
    }
}

impl Ident {
    /// The name of the identifier.
    pub fn to_string(&self) -> (r: String)
        ensures
            r@ == self@,
    {
        self.0.clone()
    }
}

impl AssignmentOp {
    /// `=` or `|=`.
    pub fn to_string(&self) -> (r: String)
        ensures
            r@ == assign_op_text(*self),
    {
        let mut out = String::new();
        write_assign_op(self, &mut out);
        assert(out@ =~= assign_op_text(*self));
        out
    }
}

impl Error {
    /// The message of the parse error.
    pub fn to_string(&self) -> (r: String)
        ensures
            r@ == self.message@,
    {
        self.message.clone()
    }
}

} // verus!
