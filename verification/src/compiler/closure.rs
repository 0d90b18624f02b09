//! Running a function's closure over the items of a collection.

use crate::compiler::expression::Resolved;
use crate::value::Value;
use vstd::prelude::*;

verus! {

/// What a closure gets besides the item's value: the key of an object entry,
/// or the index of an array element.
#[derive(Debug, PartialEq)]
pub enum ItemKey {
    Key(String),
    Index(usize),
}

/// Whether a value is iterated item by item: objects and arrays are; any
/// other value is a single item.
pub open spec fn is_collection(v: Value) -> bool {
    v is Object || v is Array
}

/// The number of items of a collection.
pub open spec fn item_count(v: Value) -> int {
    match v {
        Value::Object(es) => es@.len() as int,
        Value::Array(a) => a@.len() as int,
        _ => 0,
    }
}

/// The key the closure gets for the `i`-th item.
pub open spec fn item_key(v: Value, i: int) -> ItemKey {
    match v {
        Value::Object(es) => ItemKey::Key(es@[i].0),
        _ => ItemKey::Index(i as usize),
    }
}

/// The value of the `i`-th item.
pub open spec fn item_value(v: Value, i: int) -> Value {
    match v {
        Value::Object(es) => es@[i].1,
        Value::Array(a) => a@[i],
        _ => v,
    }
}

/// Whether a value is the boolean `false`.
pub open spec fn is_false(v: Value) -> bool {
    v matches Value::Boolean(b) && !b
}

/// Whether a value is the boolean `true`.
pub open spec fn is_true(v: Value) -> bool {
    v matches Value::Boolean(b) && b
}

/// A run of the closure on the items of `v`, in order from the first: it
/// started from the state `ss[0]`, gave `rs[j]` on item `j` and left the
/// state `ss[j + 1]` for the next call; it ran on `rs.len()` items.
pub open spec fn runs<S, F: Fn(S, ItemKey, &Value) -> (S, Resolved)>(
    runner: F,
    v: Value,
    ss: Seq<S>,
    rs: Seq<Resolved>,
) -> bool {
    &&& ss.len() == rs.len() + 1
    &&& rs.len() <= item_count(v)
    &&& forall|j: int|
        0 <= j < rs.len() ==> runner.ensures(
            (ss[j], item_key(v, j), &item_value(v, j)),
            (ss[j + 1], #[trigger] rs[j]),
        )
}

/// Extending a run by one more call.
pub proof fn lemma_runs_push<S, F: Fn(S, ItemKey, &Value) -> (S, Resolved)>(
    runner: F,
    v: Value,
    ss: Seq<S>,
    rs: Seq<Resolved>,
    s: S,
    r: Resolved,
)
    requires
        runs(runner, v, ss, rs),
        rs.len() < item_count(v),
        runner.ensures((ss.last(), item_key(v, rs.len() as int), &item_value(v, rs.len() as int)), (s, r)),
    ensures
        runs(runner, v, ss.push(s), rs.push(r)),
{
    let ss2 = ss.push(s);
    let rs2 = rs.push(r);
    assert forall|j: int| 0 <= j < rs2.len() implies runner.ensures(
        (ss2[j], item_key(v, j), &item_value(v, j)),
        (ss2[j + 1], #[trigger] rs2[j]),
    ) by {
        if j < rs.len() {
            assert(rs2[j] == rs[j]);
            assert(ss2[j] == ss[j]);
            assert(ss2[j + 1] == ss[j + 1]);
        }
    }
}

/// The key and value of the `i`-th item, for the closure.
pub fn item_at(value: &Value, i: usize) -> (r: (ItemKey, &Value))
    requires
        is_collection(*value),
        i < item_count(*value),
    ensures
        r.0 == item_key(*value, i as int),
        *r.1 == item_value(*value, i as int),
{
    match value {
        Value::Object(es) => (ItemKey::Key(es[i].0.clone()), &es[i].1),
        Value::Array(a) => (ItemKey::Index(i), &a[i]),
        _ => {
            assert(false);
            (ItemKey::Index(i), value)
        },
    }
}

/// The number of items of a collection.
pub fn items_len(value: &Value) -> (r: usize)
    ensures
        r == item_count(*value),
{
    match value {
        Value::Object(es) => es.len(),
        Value::Array(a) => a.len(),
        _ => 0,
    }
}

} // verus!
