//! Helpers shared by functions of the standard library.

use crate::compiler::expression::Resolved;
use crate::value::{Value, ValueView};
use vstd::prelude::*;
use vstd::utf8::{decode_utf8, valid_utf8};

verus! {

/// The text that `String::from_utf8_lossy` makes of `bytes`.
pub uninterp spec fn utf8_lossy(bytes: Seq<u8>) -> Seq<char>;

/// Calls `String::from_utf8_lossy`. Its documentation promises that valid
/// UTF-8 is decoded as it is, and that every invalid sequence is replaced by
/// U+FFFD REPLACEMENT CHARACTER; the result is named `utf8_lossy`, and which
/// stretches of invalid input become one replacement character is not stated.
#[verifier::external_body]
pub(crate) fn from_utf8_lossy(bytes: &[u8]) -> (r: String)
    ensures
        r@ == utf8_lossy(bytes@),
        valid_utf8(bytes@) ==> r@ == decode_utf8(bytes@),
        !valid_utf8(bytes@) ==> r@.contains('\u{FFFD}'),
{
    String::from_utf8_lossy(bytes).into_owned()
}

/// Unicode's `White_Space` property, which is what `char::is_whitespace`
/// tests.
pub open spec fn is_white_space(c: char) -> bool {
    let n = c as u32;
    ||| 0x09 <= n <= 0x0d
    ||| n == 0x20
    ||| n == 0x85
    ||| n == 0xa0
    ||| n == 0x1680
    ||| 0x2000 <= n <= 0x200a
    ||| n == 0x2028
    ||| n == 0x2029
    ||| n == 0x202f
    ||| n == 0x205f
    ||| n == 0x3000
}

/// Whether `c` has Unicode's `White_Space` property.
pub fn is_whitespace(c: char) -> (r: bool)
    ensures
        r == is_white_space(c),
{
    let n = c as u32;
    (0x09 <= n && n <= 0x0d) || n == 0x20 || n == 0x85 || n == 0xa0 || n == 0x1680 || (0x2000 <= n
        && n <= 0x200a) || n == 0x2028 || n == 0x2029 || n == 0x202f || n == 0x205f || n == 0x3000
}

/// A value that stands for "no value": null; empty bytes; the single byte
/// `-`; or bytes whose text is all white space.
pub open spec fn nullish(v: ValueView) -> bool {
    match v {
        ValueView::Bytes(b) => {
            ||| b.len() == 0
            ||| b == seq![45u8]
            ||| forall|i: int| 0 <= i < utf8_lossy(b).len() ==> is_white_space(#[trigger] utf8_lossy(b)[i])
        },
        ValueView::Null => true,
        _ => false,
    }
}

/// Whether `value` is nullish (see [`nullish`]).
pub fn is_nullish(value: &Value) -> (r: bool)
    ensures
        r == nullish(value@),
        value@ matches ValueView::Bytes(b) ==> r == (b.len() == 0 || b == seq![45u8] || (valid_utf8(b)
            && forall|i: int| 0 <= i < decode_utf8(b).len() ==> #[trigger] is_white_space(decode_utf8(b)[i]))),
{
    match value {
        Value::Bytes(v) => {
            if v.len() == 0 || (v.len() == 1 && v[0] == 45u8) {
                assert(v@.len() == 1 ==> v@ =~= seq![45u8]);
                return true;
            }
            assert(v@ != seq![45u8]);
            let owned = from_utf8_lossy(v.as_slice());
            let s = owned.as_str();
            let n = s.unicode_len();
            let mut i: usize = 0;
            while i < n
                invariant
                    n == s@.len(),
                    s@ == utf8_lossy(v@),
                    valid_utf8(v@) ==> s@ == decode_utf8(v@),
                    !valid_utf8(v@) ==> s@.contains('\u{FFFD}'),
                    v@.len() > 0,
                    v@ != seq![45u8],
                    value@ == ValueView::Bytes(v@),
                    i <= n,
                    forall|j: int| 0 <= j < i ==> #[trigger] is_white_space(s@[j]),
                decreases n - i,
            {
                let c = s.get_char(i);
                if !is_whitespace(c) {
                    proof {
                        assert(!is_white_space(utf8_lossy(v@)[i as int]));
                        lemma_not_nullish(v@, i as int);
                        if valid_utf8(v@) {
                            assert(!is_white_space(decode_utf8(v@)[i as int]));
                        }
                    }
                    return false;
                }
                i += 1;
            }
            proof {
                if !valid_utf8(v@) {
                    let k = choose|k: int| 0 <= k < s@.len() && s@[k] == '\u{FFFD}';
                    assert(is_white_space(s@[k]));
                }
            }
            true
        },
        Value::Null => true,
        _ => false,
    }
}

proof fn lemma_not_nullish(b: Seq<u8>, i: int)
    requires
        b.len() > 0,
        b != seq![45u8],
        0 <= i < utf8_lossy(b).len(),
        !is_white_space(utf8_lossy(b)[i]),
    ensures
        !nullish(ValueView::Bytes(b)),
{
}

/// An argument of a function, folded to its value when the compiler could
/// resolve it ahead of the run, or kept as an expression to resolve at run
/// time.
#[derive(Debug)]
pub enum ConstOrExpr<E> {
    Const(Value),
    Expr(E),
}

impl<E> ConstOrExpr<E> {
    /// The argument `expr`, given what the compiler could fold it to.
    pub fn new(expr: E, constant: Option<Value>) -> (r: Self)
        ensures
            match constant {
                Some(c) => r == ConstOrExpr::<E>::Const(c),
                None => r == ConstOrExpr::Expr(expr),
            },
    {
        match constant {
            Some(cnst) => ConstOrExpr::Const(cnst),
            None => ConstOrExpr::Expr(expr),
        }
    }

    /// An optional argument: no argument stays none.
    pub fn optional(expr: Option<E>, constant: Option<Value>) -> (r: Option<Self>)
        ensures
            match expr {
                Some(e) => r == Some(
                    match constant {
                        Some(c) => ConstOrExpr::<E>::Const(c),
                        None => ConstOrExpr::Expr(e),
                    },
                ),
                None => r is None,
            },
    {
        match expr {
            Some(e) => Some(Self::new(e, constant)),
            None => None,
        }
    }

    /// What resolving the argument may give: a copy of the folded value, or
    /// a result of `resolve_expr` on the expression.
    pub open spec fn resolution<F: Fn(&E) -> Resolved>(self, resolve_expr: F, r: Resolved) -> bool {
        match self {
            ConstOrExpr::Const(v) => r matches Ok(x) && x@ == v@,
            ConstOrExpr::Expr(e) => resolve_expr.ensures((&e,), r),
        }
    }

    /// Folding an argument does not change what it resolves to: when every
    /// result of resolving the expression is the value it was folded to, the
    /// folded and the unfolded argument resolve to equal values.
    pub proof fn law_folding_agrees<F: Fn(&E) -> Resolved>(expr: E, folded: Value, resolve_expr: F, a: Resolved, b: Resolved)
        requires
            forall|r: Resolved| resolve_expr.ensures((&expr,), r) ==> (r matches Ok(w) && w@ == folded@),
            ConstOrExpr::<E>::Const(folded).resolution(resolve_expr, a),
            ConstOrExpr::Expr(expr).resolution(resolve_expr, b),
        ensures
            a matches Ok(x) && b matches Ok(y) && x@ == y@,
    {
    }

    /// The value of the argument: a copy of the folded value, or what
    /// resolving the expression gives.
    pub fn resolve(&self, resolve_expr: impl Fn(&E) -> Resolved) -> (r: Resolved)
        requires
            match self {
                ConstOrExpr::Expr(e) => resolve_expr.requires((e,)),
                ConstOrExpr::Const(_) => true,
            },
        ensures
            self.resolution(resolve_expr, r),
    {
        match self {
            ConstOrExpr::Const(value) => Ok(value.clone()),
            ConstOrExpr::Expr(expr) => resolve_expr(expr),
        }
    }
}

} // verus!
