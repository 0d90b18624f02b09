//! `map`: run a closure on every element of an array.

use crate::compiler::closure::{item_at, item_count, items_len, lemma_runs_push, runs, ItemKey};
use crate::compiler::expression::{ExpressionError, Resolved};
use crate::compiler::function::{Category, Definition, Example, Input, Output, Parameter, Variable, VariableKind};
use crate::value::kind::{ANY, ARRAY, BOOLEAN, OBJECT};
use crate::value::Value;
use vstd::prelude::*;

verus! {

/// Where a run of `map`'s closure gave `rs` stops and what `map` resolves
/// to: every result but the last is a value; a last result that is an error
/// ends the run and is `map`'s result; otherwise the closure ran on every
/// element and `map` is the array of its results, in order. A value that is
/// not an array is an error, and no closure runs.
pub open spec fn map_outcome(v: Value, rs: Seq<Resolved>, res: Resolved) -> bool {
    if !(v is Array) {
        rs.len() == 0 && (res matches Err(ExpressionError::Error { message: m }) && m@
            == "function requires array type as input"@)
    } else {
        let k = rs.len() as int;
        &&& k <= item_count(v)
        &&& forall|j: int| 0 <= j < k - 1 ==> #[trigger] rs[j] is Ok
        &&& if k > 0 && rs[k - 1] is Err {
            res == rs[k - 1]
        } else {
            &&& k == item_count(v)
            &&& res matches Ok(Value::Array(ys)) && ys@.len() == k && forall|j: int|
                0 <= j < k ==> rs[j] == Ok::<Value, ExpressionError>(#[trigger] ys@[j])
        }
    }
}

/// `map` succeeds exactly when the closure ran on every element without an
/// error, and its array then holds, in order, one value per element: what the
/// closure gave on it. It fails exactly when the last call failed, with that
/// error. On an empty array no closure runs and the result is an empty array.
pub proof fn law_map_result(v: Value, rs: Seq<Resolved>, res: Resolved)
    requires
        v is Array,
        map_outcome(v, rs, res),
    ensures
        res is Ok <==> (rs.len() == item_count(v) && forall|j: int| 0 <= j < rs.len() ==> #[trigger] rs[j] is Ok),
        res matches Ok(a) ==> (a matches Value::Array(ys) && ys@.len() == item_count(v) && forall|j: int|
            0 <= j < ys@.len() ==> rs[j] == Ok::<Value, ExpressionError>(#[trigger] ys@[j])),
        res is Err <==> (rs.len() > 0 && rs.last() is Err && res == rs.last()),
        item_count(v) == 0 ==> (rs.len() == 0 && (res matches Ok(Value::Array(ys)) && ys@.len() == 0)),
{
    let k = rs.len() as int;
    if k > 0 {
        assert(rs.last() == rs[k - 1]);
    }
    if res is Ok {
        assert forall|j: int| 0 <= j < rs.len() implies #[trigger] rs[j] is Ok by {
            if let Ok(Value::Array(ys)) = res {
                assert(rs[j] == Ok::<Value, ExpressionError>(ys@[j]));
            }
        }
    }
}

/// `map(array) -> |index, item| { .. }`: run the closure once on each
/// element in order, handing each call the state the previous one left; the
/// array of what it gives, or the first error it gives, after which it runs
/// no more; an error when the value is not an array. Gives back the state the
/// last call left.
pub fn map<S, F>(value: Value, state: S, runner: &F) -> (r: (S, Resolved)) where
    F: Fn(S, ItemKey, &Value) -> (S, Resolved),

    requires
        forall|s: S, k: ItemKey, v: Value| #[trigger] runner.requires((s, k, &v)),
    ensures
        exists|ss: Seq<S>, rs: Seq<Resolved>|
            #![trigger runs(*runner, value, ss, rs)]
            runs(*runner, value, ss, rs) && ss[0] == state && r.0 == ss.last() && map_outcome(
                value,
                rs,
                r.1,
            ),
{
    let ghost s0 = state;
    if !matches!(value, Value::Array(_)) {
        proof {
            assert(runs(*runner, value, seq![s0], Seq::<Resolved>::empty()));
        }
        return (state, Err(ExpressionError::Error { message: String::from_str("function requires array type as input") }));
    }
    let n = items_len(&value);
    let mut st = state;
    let ghost mut ss: Seq<S> = seq![s0];
    let ghost mut rs: Seq<Resolved> = Seq::empty();
    let mut out: Vec<Value> = Vec::new();
    let mut i: usize = 0;
    while i < n
        invariant
            value is Array,
            n == item_count(value),
            i <= n,
            forall|s: S, k: ItemKey, v: Value| #[trigger] runner.requires((s, k, &v)),
            runs(*runner, value, ss, rs),
            rs.len() == i,
            out@.len() == i,
            ss[0] == s0,
            s0 == state,
            ss.last() == st,
            forall|j: int| 0 <= j < i ==> #[trigger] rs[j] == Ok::<Value, ExpressionError>(out@[j]),
        decreases n - i,
    {
        let (key, item) = item_at(&value, i);
        let (next, res) = runner(st, key, item);
        proof {
            lemma_runs_push(*runner, value, ss, rs, next, res);
            assert(ss.push(next)[0] == ss[0]);
            ss = ss.push(next);
            rs = rs.push(res);
            assert(ss.last() == next);
            assert(rs[i as int] == res);
        }
        match res {
            Ok(o) => {
                out.push(o);
            },
            Err(e) => {
                proof {
                    assert forall|j: int| 0 <= j < i implies #[trigger] rs[j] is Ok by {
                        assert(rs[j] == Ok::<Value, ExpressionError>(out@[j]));
                    }
                    assert(map_outcome(value, rs, rs[i as int]));
                }
                return (next, Err(e));
            },
        }
        st = next;
        i += 1;
    }
    proof {
        assert forall|j: int| 0 <= j < n - 1 implies #[trigger] rs[j] is Ok by {
            assert(rs[j] == Ok::<Value, ExpressionError>(out@[j]));
        }
    }
    (st, Ok(Value::Array(out)))
}

/// The `map` function of the standard library.
#[derive(Clone, Copy, Debug)]
pub struct MapFunction;

/// What `map` does, as its documentation says it.
pub const MAP_USAGE: &'static str = "Map elements in an array.\n\nThe function uses the function closure syntax to allow reading\nthe index-value combination for each item in the collection,\nreturning the result.\n\nThe same scoping rules apply to closure blocks as they do for\nregular blocks. This means that any variable defined in parent scopes\nis accessible, and mutations to those variables are preserved,\nbut any new variables instantiated in the closure block are\nunavailable outside of the block.\n\nSee the examples below to learn about the closure syntax.\n";

impl MapFunction {
    /// The name programs call the function by.
    pub fn identifier(&self) -> (r: &'static str)
        ensures
            r@ == "map"@,
    {
        "map"
    }

    /// What the function does.
    pub fn usage(&self) -> (r: &'static str)
        ensures
            r == MAP_USAGE,
    {
        MAP_USAGE
    }

    /// The category the function is listed under.
    pub fn category(&self) -> (r: &'static str)
        ensures
            r@ == "Enumerate"@,
    {
        Category::Enumerate.as_ref()
    }

    /// The kinds of value the function resolves to.
    pub fn return_kind(&self) -> (r: u16)
        ensures
            r == ARRAY,
    {
        ARRAY
    }

    /// The parameters of the function.
    pub fn parameters(&self) -> (r: Vec<Parameter>)
        ensures
            r@ == seq![Parameter { keyword: "value", kind: ARRAY, required: true, description: "The array to map." }],
    {
        let mut r: Vec<Parameter> = Vec::new();
        r.push(Parameter::required("value", ARRAY, "The array to map."));
        r
    }

    /// Example programs that call the function.
    pub fn examples(&self) -> (r: Vec<Example>)
        ensures
            r@ == seq![(Example { title: "Map elements", source: ". = { \"tags\": [\"foo\", \"bar\", \"foo\", \"baz\"] }\nmap(array(.tags)) -> |_index, value| {\n    upcase(value)\n}\n", result: Ok("[\"FOO\", \"BAR\", \"FOO\", \"BAZ\"]") })],
    {
        let mut r: Vec<Example> = Vec::new();
        r.push(Example { title: "Map elements", source: ". = { \"tags\": [\"foo\", \"bar\", \"foo\", \"baz\"] }\nmap(array(.tags)) -> |_index, value| {\n    upcase(value)\n}\n", result: Ok("[\"FOO\", \"BAR\", \"FOO\", \"BAZ\"]") });
        r
    }

    /// The closure the function takes: over the items of `value`, binding the
    /// key (or index) and the value of each item.
    pub fn closure(&self) -> (r: Option<Definition>)
        ensures
            r matches Some(d) && d.is_iterator && d.inputs@.len() == 1 && d.inputs@[0].parameter_keyword
                == "value" && d.inputs@[0].kind == OBJECT | ARRAY && d.inputs@[0].variables@ == seq![
                Variable { kind: VariableKind::TargetInnerKey },
                Variable { kind: VariableKind::TargetInnerValue },
            ] && d.inputs@[0].output == Output::Kind(ANY) && d.inputs@[0].example == (Example { title: "map array", source: "map([1, 2]) -> |_index, value| { value * 2 }", result: Ok("[2, 4]") }),
    {
        let mut variables: Vec<Variable> = Vec::new();
        variables.push(Variable { kind: VariableKind::TargetInnerKey });
        variables.push(Variable { kind: VariableKind::TargetInnerValue });
        let mut inputs: Vec<Input> = Vec::new();
        inputs.push(
            Input {
                parameter_keyword: "value",
                kind: OBJECT | ARRAY,
                variables,
                output: Output::Kind(ANY),
                example: Example { title: "map array", source: "map([1, 2]) -> |_index, value| { value * 2 }", result: Ok("[2, 4]") },
            },
        );
        Some(Definition { inputs, is_iterator: true })
    }
}

} // verus!
