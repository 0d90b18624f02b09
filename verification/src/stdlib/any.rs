//! `any`: whether a closure holds for some item of a collection.

use crate::compiler::closure::{
    is_collection, is_true, item_at, item_count, items_len, lemma_runs_push, runs, ItemKey,
};
use crate::compiler::expression::{ExpressionError, Resolved};
use crate::compiler::function::{Category, Definition, Example, Input, Output, Parameter, Variable, VariableKind};
use crate::value::kind::{ANY, ARRAY, BOOLEAN, OBJECT};
use crate::value::Value;
use vstd::prelude::*;

verus! {

/// Where a run of `any`'s closure gave `rs` stops and what `any` resolves to:
/// every result but the last is a value other than `true`; a last result of
/// `true` or an error ends the run and is `any`'s result (`true`, or that
/// error); otherwise the closure ran on every item and `any` is `false`. A
/// value that is not a collection is its own single item, and no closure
/// runs.
pub open spec fn any_outcome(v: Value, rs: Seq<Resolved>, res: Resolved) -> bool {
    if !is_collection(v) {
        rs.len() == 0 && res == Ok::<Value, ExpressionError>(Value::Boolean(is_true(v)))
    } else {
        let k = rs.len() as int;
        &&& k <= item_count(v)
        &&& forall|j: int| 0 <= j < k - 1 ==> (#[trigger] rs[j] matches Ok(x) && !is_true(x))
        &&& if k > 0 && (rs[k - 1] matches Ok(x) && is_true(x)) {
            res == Ok::<Value, ExpressionError>(Value::Boolean(true))
        } else if k > 0 && rs[k - 1] is Err {
            res == rs[k - 1]
        } else {
            k == item_count(v) && res == Ok::<Value, ExpressionError>(Value::Boolean(false))
        }
    }
}

/// `any` is `false` exactly when the closure ran on every item and no item
/// gave `true` or failed; it is `true` exactly when the last call gave
/// `true`; an error is what the last call gave. On a collection with no
/// items no closure runs and `any` is `false`.
pub proof fn law_any_result(v: Value, rs: Seq<Resolved>, res: Resolved)
    requires
        is_collection(v),
        any_outcome(v, rs, res),
    ensures
        res == Ok::<Value, ExpressionError>(Value::Boolean(false)) <==> (rs.len() == item_count(v) && forall|j: int|
            0 <= j < rs.len() ==> (#[trigger] rs[j] matches Ok(x) && !is_true(x))),
        res == Ok::<Value, ExpressionError>(Value::Boolean(true)) <==> (rs.len() > 0 && (rs.last() matches Ok(x)
            && is_true(x))),
        res is Err <==> (rs.len() > 0 && rs.last() is Err && res == rs.last()),
        res is Ok ==> (res == Ok::<Value, ExpressionError>(Value::Boolean(true)) || res == Ok::<
            Value,
            ExpressionError,
        >(Value::Boolean(false))),
        item_count(v) == 0 ==> rs.len() == 0 && res == Ok::<Value, ExpressionError>(Value::Boolean(false)),
{
    let k = rs.len() as int;
    if k > 0 {
        assert(rs.last() == rs[k - 1]);
    }
}

/// `any(value) -> |key, item| { .. }`: run the closure on the items of the
/// collection in order, handing each call the state the previous one left,
/// and stop at the first that gives `true` (the result is then `true`) or
/// fails (the result is then that error); `false` when no item gave `true`.
/// Gives back the state the last call left.
pub fn any<S, F>(value: Value, state: S, runner: &F) -> (r: (S, Resolved)) where
    F: Fn(S, ItemKey, &Value) -> (S, Resolved),

    requires
        forall|s: S, k: ItemKey, v: Value| #[trigger] runner.requires((s, k, &v)),
    ensures
        exists|ss: Seq<S>, rs: Seq<Resolved>|
            #![trigger runs(*runner, value, ss, rs)]
            runs(*runner, value, ss, rs) && ss[0] == state && r.0 == ss.last() && any_outcome(
                value,
                rs,
                r.1,
            ),
{
    let ghost s0 = state;
    if !(matches!(value, Value::Object(_)) || matches!(value, Value::Array(_))) {
        let single_true = matches!(value, Value::Boolean(true));
        proof {
            assert(runs(*runner, value, seq![s0], Seq::<Resolved>::empty()));
        }
        return (state, Ok(Value::Boolean(single_true)));
    }
    let n = items_len(&value);
    let mut st = state;
    let ghost mut ss: Seq<S> = seq![s0];
    let ghost mut rs: Seq<Resolved> = Seq::empty();
    let mut i: usize = 0;
    while i < n
        invariant
            is_collection(value),
            n == item_count(value),
            i <= n,
            forall|s: S, k: ItemKey, v: Value| #[trigger] runner.requires((s, k, &v)),
            runs(*runner, value, ss, rs),
            rs.len() == i,
            ss[0] == s0,
            s0 == state,
            ss.last() == st,
            forall|j: int| 0 <= j < i ==> (#[trigger] rs[j] matches Ok(x) && !is_true(x)),
        decreases n - i,
    {
        let (key, item) = item_at(&value, i);
        let (next, out) = runner(st, key, item);
        proof {
            lemma_runs_push(*runner, value, ss, rs, next, out);
            assert(ss.push(next)[0] == ss[0]);
            ss = ss.push(next);
            rs = rs.push(out);
            assert(ss.last() == next);
            assert(rs[i as int] == out);
        }
        match out {
            Ok(o) => {
                if matches!(o, Value::Boolean(true)) {
                    proof {
                        assert(rs[i as int] matches Ok(x) && is_true(x));
                        assert(any_outcome(value, rs, Ok::<Value, ExpressionError>(Value::Boolean(true))));
                    }
                    return (next, Ok(Value::Boolean(true)));
                }
            },
            Err(e) => {
                proof {
                    assert(any_outcome(value, rs, rs[i as int]));
                }
                return (next, Err(e));
            },
        }
        st = next;
        i += 1;
    }
    (st, Ok(Value::Boolean(false)))
}

/// The `any` function of the standard library.
#[derive(Clone, Copy, Debug)]
pub struct Any;

/// What `any` does, as its documentation says it.
pub const ANY_USAGE: &'static str = "Iterate over a collection, returning true if a closure value is true.\n\nThe function uses the \"function closure syntax\" to allow reading\nthe key/value or index/value combination for each item in the\ncollection, until a closure returns true.\n\nThe same scoping rules apply to closure blocks as they do for\nregular blocks. This means that any variable defined in parent scopes\nis accessible, and mutations to those variables are preserved,\nbut any new variables instantiated in the closure block are\nunavailable outside of the block.\n\nSee the examples below to learn about the closure syntax.\n";

impl Any {
    /// The name programs call the function by.
    pub fn identifier(&self) -> (r: &'static str)
        ensures
            r@ == "any"@,
    {
        "any"
    }

    /// What the function does.
    pub fn usage(&self) -> (r: &'static str)
        ensures
            r == ANY_USAGE,
    {
        ANY_USAGE
    }

    /// The category the function is listed under.
    pub fn category(&self) -> (r: &'static str)
        ensures
            r@ == "Enumerate"@,
    {
        Category::Enumerate.as_ref()
    }

    /// The kinds of value the function resolves to.
    pub fn return_kind(&self) -> (r: u16)
        ensures
            r == BOOLEAN,
    {
        BOOLEAN
    }

    /// The parameters of the function.
    pub fn parameters(&self) -> (r: Vec<Parameter>)
        ensures
            r@ == seq![Parameter { keyword: "value", kind: OBJECT | ARRAY, required: true, description: "The array or object to iterate." }],
    {
        let mut r: Vec<Parameter> = Vec::new();
        r.push(Parameter::required("value", OBJECT | ARRAY, "The array or object to iterate."));
        r
    }

    /// Example programs that call the function.
    pub fn examples(&self) -> (r: Vec<Example>)
        ensures
            r@ == seq![(Example { title: "Find out if there is a 'b'", source: ".tags = [\"foo\", \"bar\", \"foo\", \"baz\"]\nany(array(.tags)) -> |_index, value| {\n    contains(string(value), \"b\")\n}\n", result: Ok("true") }), (Example { title: "Find if any key matches a value", source: "any({ \"a\": 1, \"b\": 2 }) -> |_key, value| {\n    value == 3\n}\n", result: Ok("false") })],
    {
        let mut r: Vec<Example> = Vec::new();
        r.push(Example { title: "Find out if there is a 'b'", source: ".tags = [\"foo\", \"bar\", \"foo\", \"baz\"]\nany(array(.tags)) -> |_index, value| {\n    contains(string(value), \"b\")\n}\n", result: Ok("true") });
        r.push(Example { title: "Find if any key matches a value", source: "any({ \"a\": 1, \"b\": 2 }) -> |_key, value| {\n    value == 3\n}\n", result: Ok("false") });
        r
    }

    /// The closure the function takes: over the items of `value`, binding the
    /// key (or index) and the value of each item.
    pub fn closure(&self) -> (r: Option<Definition>)
        ensures
            r matches Some(d) && d.is_iterator && d.inputs@.len() == 1 && d.inputs@[0].parameter_keyword
                == "value" && d.inputs@[0].kind == OBJECT | ARRAY && d.inputs@[0].variables@ == seq![
                Variable { kind: VariableKind::TargetInnerKey },
                Variable { kind: VariableKind::TargetInnerValue },
            ] && d.inputs@[0].output == Output::Kind(BOOLEAN) && d.inputs@[0].example == (Example { title: "iterate array", source: "any([1, 2]) -> |_index, value| { value > 2 }", result: Ok("false") }),
    {
        let mut variables: Vec<Variable> = Vec::new();
        variables.push(Variable { kind: VariableKind::TargetInnerKey });
        variables.push(Variable { kind: VariableKind::TargetInnerValue });
        let mut inputs: Vec<Input> = Vec::new();
        inputs.push(
            Input {
                parameter_keyword: "value",
                kind: OBJECT | ARRAY,
                variables,
                output: Output::Kind(BOOLEAN),
                example: Example { title: "iterate array", source: "any([1, 2]) -> |_index, value| { value > 2 }", result: Ok("false") },
            },
        );
        Some(Definition { inputs, is_iterator: true })
    }
}

} // verus!
