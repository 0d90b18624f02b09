//! Runtime values: what events, variables and expressions hold.

pub mod crud;
pub mod float;
pub mod kind;

use crate::value::float::FloatBits;
use vstd::prelude::*;

verus! {

/// A runtime value.
///
/// An object holds its entries ordered by key, with no key twice; a
/// timestamp is a count of nanoseconds since the Unix epoch; a regular
/// expression is held as its pattern.
#[derive(Debug, PartialEq)]
pub enum Value {
    Bytes(Vec<u8>),
    Regex(String),
    Integer(i64),
    Float(FloatBits),
    Boolean(bool),
    Timestamp(i64),
    Object(Vec<(String, Value)>),
    Array(Vec<Value>),
    Null,
}

/// The mathematical content of a value.
pub enum ValueView {
    Bytes(Seq<u8>),
    Regex(Seq<char>),
    Integer(i64),
    Float(FloatBits),
    Boolean(bool),
    Timestamp(i64),
    Object(Seq<(Seq<char>, ValueView)>),
    Array(Seq<ValueView>),
    Null,
}

pub open spec fn view_value(v: Value) -> ValueView
    decreases v,
{
    match v {
        Value::Bytes(b) => ValueView::Bytes(b@),
        Value::Regex(r) => ValueView::Regex(r@),
        Value::Integer(i) => ValueView::Integer(i),
        Value::Float(f) => ValueView::Float(f),
        Value::Boolean(b) => ValueView::Boolean(b),
        Value::Timestamp(t) => ValueView::Timestamp(t),
        Value::Object(es) => ValueView::Object(
            Seq::new(
                es@.len(),
                |i: int|
                    if 0 <= i < es@.len() {
                        (es@[i].0@, view_value(es@[i].1))
                    } else {
                        arbitrary()
                    },
            ),
        ),
        Value::Array(a) => ValueView::Array(
            Seq::new(
                a@.len(),
                |i: int|
                    if 0 <= i < a@.len() {
                        view_value(a@[i])
                    } else {
                        arbitrary()
                    },
            ),
        ),
        Value::Null => ValueView::Null,
    }
}

impl View for Value {
    type V = ValueView;

    open spec fn view(&self) -> ValueView {
        view_value(*self)
    }
}

/// Keys in strictly increasing order: what a map sorted by key holds.
pub open spec fn keys_sorted(es: Seq<(Seq<char>, ValueView)>) -> bool {
    forall|i: int, j: int| 0 <= i < j < es.len() ==> seq_char_lt(es[i].0, es[j].0)
}

/// Every object within the value holds its entries ordered by key, with no
/// key twice.
pub open spec fn value_wf(v: ValueView) -> bool
    decreases v,
{
    match v {
        ValueView::Object(es) => keys_sorted(es) && forall|i: int|
            0 <= i < es.len() ==> value_wf(#[trigger] es[i].1),
        ValueView::Array(a) => forall|i: int| 0 <= i < a.len() ==> value_wf(#[trigger] a[i]),
        _ => true,
    }
}

/// Lexicographic order on strings, character by character.
pub open spec fn seq_char_lt(a: Seq<char>, b: Seq<char>) -> bool
    decreases a.len(),
{
    if a.len() == 0 {
        b.len() > 0
    } else if b.len() == 0 {
        false
    } else if a[0] != b[0] {
        (a[0] as int) < (b[0] as int)
    } else {
        seq_char_lt(a.drop_first(), b.drop_first())
    }
}

/// No string comes before itself.
pub proof fn lemma_text_lt_irreflexive(a: Seq<char>)
    ensures
        !seq_char_lt(a, a),
    decreases a.len(),
{
    if a.len() > 0 {
        lemma_text_lt_irreflexive(a.drop_first());
    }
}

/// The order on strings is transitive.
pub proof fn lemma_text_lt_transitive(a: Seq<char>, b: Seq<char>, c: Seq<char>)
    requires
        seq_char_lt(a, b),
        seq_char_lt(b, c),
    ensures
        seq_char_lt(a, c),
    decreases a.len(),
{
    if a.len() > 0 && b.len() > 0 && c.len() > 0 && a[0] == b[0] && b[0] == c[0] {
        lemma_text_lt_transitive(a.drop_first(), b.drop_first(), c.drop_first());
    }
}

/// Of two different strings, one comes before the other.
pub proof fn lemma_text_lt_total(a: Seq<char>, b: Seq<char>)
    requires
        a != b,
    ensures
        seq_char_lt(a, b) || seq_char_lt(b, a),
    decreases a.len(),
{
    if a.len() == 0 {
        assert(b.len() > 0) by {
            if b.len() == 0 {
                assert(a =~= b);
            }
        }
    } else if b.len() > 0 && a[0] == b[0] {
        assert(a.drop_first() != b.drop_first()) by {
            if a.drop_first() == b.drop_first() {
                assert(a.drop_first().len() == b.drop_first().len());
                assert(a.len() == b.len());
                assert(a =~= b) by {
                    assert forall|i: int| 0 <= i < a.len() implies a[i] == b[i] by {
                        if i > 0 {
                            assert(a[i] == a.drop_first()[i - 1]);
                            assert(b[i] == b.drop_first()[i - 1]);
                        }
                    }
                }
            }
        }
        lemma_text_lt_total(a.drop_first(), b.drop_first());
    } else if b.len() > 0 {
        assert((a[0] as int) != (b[0] as int));
    }
}

/// Strings that agree on their first `n` characters compare as what
/// follows them does.
pub proof fn lemma_text_lt_skip(a: Seq<char>, b: Seq<char>, n: int)
    requires
        0 <= n <= a.len(),
        n <= b.len(),
        a.take(n) == b.take(n),
    ensures
        seq_char_lt(a, b) == seq_char_lt(a.skip(n), b.skip(n)),
    decreases n,
{
    if n > 0 {
        assert(a[0] == a.take(n)[0]);
        assert(b[0] == b.take(n)[0]);
        assert(a.drop_first().take(n - 1) =~= b.drop_first().take(n - 1)) by {
            assert forall|i: int| 0 <= i < n - 1 implies a.drop_first()[i] == b.drop_first()[i] by {
                assert(a.take(n)[i + 1] == b.take(n)[i + 1]);
                assert(a.take(n)[i + 1] == a[i + 1]);
                assert(b.take(n)[i + 1] == b[i + 1]);
                assert(a.drop_first()[i] == a[i + 1]);
                assert(b.drop_first()[i] == b[i + 1]);
            }
        }
        lemma_text_lt_skip(a.drop_first(), b.drop_first(), n - 1);
        assert(a.drop_first().skip(n - 1) =~= a.skip(n));
        assert(b.drop_first().skip(n - 1) =~= b.skip(n));
    } else {
        assert(a.skip(0) =~= a);
        assert(b.skip(0) =~= b);
    }
}

/// Whether `a` comes before `b`, character by character.
pub fn text_lt(a: &str, b: &str) -> (r: bool)
    ensures
        r == seq_char_lt(a@, b@),
{
    let la = a.unicode_len();
    let lb = b.unicode_len();
    let mut i: usize = 0;
    while i < la && i < lb
        invariant
            la == a@.len(),
            lb == b@.len(),
            i <= la,
            i <= lb,
            a@.take(i as int) == b@.take(i as int),
        decreases la - i,
    {
        let x = a.get_char(i);
        let y = b.get_char(i);
        if x != y {
            proof {
                lemma_text_lt_skip(a@, b@, i as int);
                assert(a@.skip(i as int)[0] == x);
                assert(b@.skip(i as int)[0] == y);
            }
            return (x as u32) < (y as u32);
        }
        assert(a@.take(i + 1) =~= a@.take(i as int).push(x));
        assert(b@.take(i + 1) =~= b@.take(i as int).push(y));
        i += 1;
    }
    proof {
        lemma_text_lt_skip(a@, b@, i as int);
    }
    i == la && i < lb
}

fn clone_value(v: &Value) -> (r: Value)
    ensures
        r@ == v@,
    decreases v,
{
    match v {
        Value::Bytes(b) => Value::Bytes(b.clone()),
        Value::Regex(r) => Value::Regex(r.clone()),
        Value::Integer(i) => Value::Integer(*i),
        Value::Float(f) => Value::Float(*f),
        Value::Boolean(b) => Value::Boolean(*b),
        Value::Timestamp(t) => Value::Timestamp(*t),
        Value::Object(es) => {
            let mut out: Vec<(String, Value)> = Vec::new();
            let mut i: usize = 0;
            while i < es.len()
                invariant
                    i <= es@.len(),
                    out@.len() == i,
                    *v == Value::Object(*es),
                    forall|j: int| 0 <= j < i ==> (#[trigger] out@[j]).0@ == es@[j].0@ && view_value(out@[j].1) == view_value(es@[j].1),
                decreases es@.len() - i,
            {
                proof {
                    assert(decreases_to!(*v => v->Object_0));
                    assert(decreases_to!(v->Object_0 => es@));
                    assert(decreases_to!(es@ => es@[i as int]));
                    assert(decreases_to!(es@[i as int] => es@[i as int].1));
                }
                let value = clone_value(&es[i].1);
                out.push((es[i].0.clone(), value));
                i += 1;
            }
            let r = Value::Object(out);
            assert(view_value(r)->Object_0 =~= view_value(*v)->Object_0);
            r
        },
        Value::Array(a) => {
            let mut out: Vec<Value> = Vec::new();
            let mut i: usize = 0;
            while i < a.len()
                invariant
                    i <= a@.len(),
                    out@.len() == i,
                    *v == Value::Array(*a),
                    forall|j: int| 0 <= j < i ==> view_value(#[trigger] out@[j]) == view_value(a@[j]),
                decreases a@.len() - i,
            {
                proof {
                    assert(decreases_to!(*v => v->Array_0));
                    assert(decreases_to!(v->Array_0 => a@));
                    assert(decreases_to!(a@ => a@[i as int]));
                }
                out.push(clone_value(&a[i]));
                i += 1;
            }
            let r = Value::Array(out);
            assert(view_value(r)->Array_0 =~= view_value(*v)->Array_0);
            r
        },
        Value::Null => Value::Null,
    }
}

impl Clone for Value {
    fn clone(&self) -> (r: Self)
        ensures
            r@ == self@,
    {
        clone_value(self)
    }
}

} // verus!
