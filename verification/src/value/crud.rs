//! Reading and writing inside a value along a path.

use crate::parser::ast::str_eq;
use crate::value::{seq_char_lt, value_wf, view_value, Value, ValueView};
use vstd::prelude::*;

verus! {

/// One step of a borrowed path: a field of an object, an index into an
/// array (negative indices count from the end), or a step that lookups do not
/// follow (the parts of a coalescing group, or a segment that did not parse).
#[derive(Debug)]
pub enum BorrowedSegment<'a> {
    Field(&'a str),
    Index(isize),
    CoalesceField(&'a str),
    CoalesceEnd(&'a str),
    Invalid,
}

pub enum StepView {
    Field(Seq<char>),
    Index(isize),
    Other,
}

impl<'a> View for BorrowedSegment<'a> {
    type V = StepView;

    open spec fn view(&self) -> StepView {
        match self {
            BorrowedSegment::Field(f) => StepView::Field(f@),
            BorrowedSegment::Index(i) => StepView::Index(*i),
            _ => StepView::Other,
        }
    }
}

pub open spec fn steps_view(p: Seq<BorrowedSegment>) -> Seq<StepView> {
    p.map_values(|s: BorrowedSegment| s@)
}

/// The position in an array of length `len` that index `index` denotes: from
/// the start when it is not negative, from the end when it is.
pub open spec fn array_position(len: int, index: int) -> Option<int> {
    if 0 <= index < len {
        Some(index)
    } else if index < 0 && 0 <= len + index {
        Some(len + index)
    } else {
        None
    }
}

/// The position of the first entry with key `key`.
pub open spec fn object_position(es: Seq<(Seq<char>, ValueView)>, key: Seq<char>) -> Option<int>
    decreases es.len(),
{
    if es.len() == 0 {
        None
    } else if es[0].0 == key {
        Some(0)
    } else {
        match object_position(es.drop_first(), key) {
            Some(i) => Some(i + 1),
            None => None,
        }
    }
}

/// The value one step below `v`, if the step leads anywhere.
pub open spec fn child_at(v: ValueView, step: StepView) -> Option<ValueView> {
    match (step, v) {
        (StepView::Field(k), ValueView::Object(es)) => match object_position(es, k) {
            Some(i) => Some(es[i].1),
            None => None,
        },
        (StepView::Index(i), ValueView::Array(a)) => match array_position(a.len() as int, i as int) {
            Some(j) => Some(a[j]),
            None => None,
        },
        _ => None,
    }
}

/// The value found by following `path` from `v`.
pub open spec fn value_at(v: ValueView, path: Seq<StepView>) -> Option<ValueView>
    decreases path.len(),
{
    if path.len() == 0 {
        Some(v)
    } else {
        match child_at(v, path[0]) {
            Some(c) => value_at(c, path.drop_first()),
            None => None,
        }
    }
}

/// Following one more step after reaching `c` is following the longer path.
proof fn lemma_value_at_step(v: ValueView, path: Seq<StepView>, i: int, c: ValueView)
    requires
        0 <= i < path.len(),
        value_at(v, path.take(i)) == Some(c),
    ensures
        value_at(v, path.take(i + 1)) == child_at(c, path[i]),
    decreases i,
{
    assert(path.take(i + 1)[0] == path[0]);
    if i > 0 {
        assert(path.take(i)[0] == path[0]);
        let c0 = child_at(v, path[0]).unwrap();
        assert(path.take(i).drop_first() =~= path.drop_first().take(i - 1));
        assert(path.take(i + 1).drop_first() =~= path.drop_first().take(i));
        assert(path.drop_first()[i - 1] == path[i]);
        lemma_value_at_step(c0, path.drop_first(), i - 1, c);
    } else {
        assert(path.take(0).len() == 0);
        assert(path.take(1).drop_first().len() == 0);
        assert(path.take(1)[0] == path[0]);
        assert(c == v);
        match child_at(v, path[0]) {
            Some(d) => {
                assert(value_at(d, path.take(1).drop_first()) == Some(d));
            },
            None => {},
        }
    }
}

/// A path that leads nowhere leads nowhere however it is extended.
proof fn lemma_value_at_none(v: ValueView, path: Seq<StepView>, i: int)
    requires
        0 <= i <= path.len(),
        value_at(v, path.take(i)) is None,
    ensures
        value_at(v, path) is None,
    decreases i,
{
    if i > 0 {
        let c0 = child_at(v, path[0]);
        if c0 is Some {
            assert(path.take(i).drop_first() =~= path.drop_first().take(i - 1));
            lemma_value_at_none(c0.unwrap(), path.drop_first(), i - 1);
        }
    }
}

pub fn find_key(es: &Vec<(String, Value)>, key: &str) -> (r: Option<usize>)
    ensures
        match r {
            Some(i) => object_position(view_entries_of(es@), key@) == Some(i as int) && i < es@.len(),
            None => object_position(view_entries_of(es@), key@) is None,
        },
{
    let ghost ves = view_entries_of(es@);
    let mut i: usize = 0;
    assert(ves.skip(0) =~= ves);
    while i < es.len()
        invariant
            i <= es@.len(),
            ves == view_entries_of(es@),
            object_position(ves, key@) == match object_position(ves.skip(i as int), key@) {
                Some(j) => Some(j + i),
                None => None::<int>,
            },
        decreases es@.len() - i,
    {
        assert(ves.skip(i as int).drop_first() =~= ves.skip(i + 1));
        if str_eq(es[i].0.as_str(), key) {
            return Some(i);
        }
        i += 1;
    }
    None
}

pub open spec fn view_entries_of(es: Seq<(String, Value)>) -> Seq<(Seq<char>, ValueView)> {
    es.map_values(|e: (String, Value)| (e.0@, view_value(e.1)))
}

/// The position in an array of length `len` that `index` denotes.
fn position(len: usize, index: isize) -> (r: Option<usize>)
    ensures
        match r {
            Some(j) => array_position(len as int, index as int) == Some(j as int),
            None => array_position(len as int, index as int) is None,
        },
{
    if index >= 0 {
        if (index as usize) < len {
            Some(index as usize)
        } else {
            None
        }
    } else {
        let back = (0 - (index as i128)) as u128;
        if back <= len as u128 {
            Some(len - (back as usize))
        } else {
            None
        }
    }
}

/// The value found by following `path` from `value`, or `None` where a step
/// names a field the object does not have, an index outside the array, or a
/// step into a value that is neither.
pub fn get<'a>(value: &'a Value, path: &[BorrowedSegment]) -> (r: Option<&'a Value>)
    ensures
        match r {
            Some(x) => value_at(value@, steps_view(path@)) == Some(x@),
            None => value_at(value@, steps_view(path@)) is None,
        },
{
    let ghost p = steps_view(path@);
    let mut cur: &'a Value = value;
    let mut i: usize = 0;
    while i < path.len()
        invariant
            i <= path@.len(),
            p == steps_view(path@),
            value_at(value@, p.take(i as int)) == Some(cur@),
        decreases path@.len() - i,
    {
        proof {
            lemma_value_at_step(value@, p, i as int, cur@);
        }
        let next: Option<&'a Value> = match (&path[i], cur) {
            (BorrowedSegment::Field(key), Value::Object(es)) => match find_key(es, key) {
                Some(j) => {
                    assert(view_entries_of(es@) =~= cur@->Object_0);
                    assert(p[i as int] == StepView::Field(key@));
                    Some(&es[j].1)
                },
                None => {
                    assert(view_entries_of(es@) =~= cur@->Object_0);
                    None
                },
            },
            (BorrowedSegment::Index(index), Value::Array(a)) => match position(a.len(), *index) {
                Some(j) => {
                    assert(p[i as int] == StepView::Index(*index));
                    Some(&a[j])
                },
                None => None,
            },
            _ => None,
        };
        match next {
            Some(n) => {
                cur = n;
            },
            None => {
                proof {
                    lemma_value_at_none(value@, p, i as int + 1);
                }
                return None;
            },
        }
        i += 1;
    }
    assert(p.take(i as int) =~= p);
    Some(cur)
}

/// `v` with the value that `path` leads to replaced by `x`; `v` itself when
/// the path leads nowhere.
pub open spec fn set_at(v: ValueView, path: Seq<StepView>, x: ValueView) -> ValueView
    decreases path.len(),
{
    if path.len() == 0 {
        x
    } else {
        match (path[0], v) {
            (StepView::Field(k), ValueView::Object(es)) => match object_position(es, k) {
                Some(i) => ValueView::Object(es.update(i, (es[i].0, set_at(es[i].1, path.drop_first(), x)))),
                None => v,
            },
            (StepView::Index(n), ValueView::Array(a)) => match array_position(a.len() as int, n as int) {
                Some(j) => ValueView::Array(a.update(j, set_at(a[j], path.drop_first(), x))),
                None => v,
            },
            _ => v,
        }
    }
}

proof fn lemma_view_object_update(w: Vec<(String, Value)>, j: int)
    requires
        0 <= j < w@.len(),
    ensures
        forall|v: Vec<(String, Value)>, nv: Value|
            v@ == w@.update(j, (w@[j].0, nv)) ==> #[trigger] view_value(Value::Object(v)) == ValueView::Object(
                view_value(Value::Object(w))->Object_0.update(j, (w@[j].0@, #[trigger] view_value(nv))),
            ),
{
    assert forall|v: Vec<(String, Value)>, nv: Value|
        v@ == w@.update(j, (w@[j].0, nv)) implies #[trigger] view_value(Value::Object(v)) == ValueView::Object(
            view_value(Value::Object(w))->Object_0.update(j, (w@[j].0@, #[trigger] view_value(nv))),
        ) by {
        assert(view_value(Value::Object(v))->Object_0 =~= view_value(Value::Object(w))->Object_0.update(
            j,
            (w@[j].0@, view_value(nv)),
        ));
    }
}

proof fn lemma_view_array_update(w: Vec<Value>, j: int)
    requires
        0 <= j < w@.len(),
    ensures
        forall|v: Vec<Value>, nv: Value|
            v@ == w@.update(j, nv) ==> #[trigger] view_value(Value::Array(v)) == ValueView::Array(
                view_value(Value::Array(w))->Array_0.update(j, #[trigger] view_value(nv)),
            ),
{
    assert forall|v: Vec<Value>, nv: Value|
        v@ == w@.update(j, nv) implies #[trigger] view_value(Value::Array(v)) == ValueView::Array(
            view_value(Value::Array(w))->Array_0.update(j, #[trigger] view_value(nv)),
        ) by {
        assert(view_value(Value::Array(v))->Array_0 =~= view_value(Value::Array(w))->Array_0.update(
            j,
            view_value(nv),
        ));
    }
}

fn get_mut_from<'a>(value: &'a mut Value, path: &[BorrowedSegment], i: usize) -> (r: Option<&'a mut Value>)
    requires
        i <= path@.len(),
    ensures
        match r {
            Some(x) => {
                &&& value_at(old(value)@, steps_view(path@).skip(i as int)) == Some((*x)@)
                &&& (*final(value))@ == set_at(old(value)@, steps_view(path@).skip(i as int), (*final(x))@)
            },
            None => {
                &&& value_at(old(value)@, steps_view(path@).skip(i as int)) is None
                &&& (*final(value))@ == (*old(value))@
            },
        },
    decreases path@.len() - i,
{
    let ghost p = steps_view(path@).skip(i as int);
    if i == path.len() {
        assert(p.len() == 0);
        return Some(value);
    }
    assert(p[0] == path@[i as int]@);
    assert(p.drop_first() =~= steps_view(path@).skip(i + 1));
    let found: Option<usize> = match (&*value, &path[i]) {
        (Value::Object(es), BorrowedSegment::Field(key)) => {
            assert(view_entries_of(es@) =~= old(value)@->Object_0);
            find_key(es, key)
        },
        (Value::Array(a), BorrowedSegment::Index(index)) => position(a.len(), *index),
        _ => None,
    };
    let j = match found {
        Some(j) => j,
        None => {
            return None;
        },
    };
    match value {
        Value::Object(es) => {
            proof {
                lemma_view_object_update(*es, j as int);
            }
            let ghost ov = old(value)@->Object_0;
            assert(ov.update(j as int, ov[j as int]) =~= ov);
            let entry = &mut es[j];
            get_mut_from(&mut entry.1, path, i + 1)
        },
        Value::Array(a) => {
            proof {
                lemma_view_array_update(*a, j as int);
            }
            let ghost ov = old(value)@->Array_0;
            assert(ov.update(j as int, ov[j as int]) =~= ov);
            get_mut_from(&mut a[j], path, i + 1)
        },
        _ => {
            assert(false);
            None
        },
    }
}

/// The value found by following `path` from `value`, to be changed in place;
/// `None` where [`get`] gives `None`, and then `value` is left as it was.
/// Whatever is written through the reference is what `value` holds at the
/// end of the path afterwards.
pub fn get_mut<'a>(value: &'a mut Value, path: &[BorrowedSegment]) -> (r: Option<&'a mut Value>)
    ensures
        match r {
            Some(x) => {
                &&& value_at(old(value)@, steps_view(path@)) == Some((*x)@)
                &&& (*final(value))@ == set_at(old(value)@, steps_view(path@), (*final(x))@)
            },
            None => {
                &&& value_at(old(value)@, steps_view(path@)) is None
                &&& (*final(value))@ == (*old(value))@
            },
        },
{
    assert(steps_view(path@).skip(0) =~= steps_view(path@));
    get_mut_from(value, path, 0)
}

/// Replacing an entry's value keeps every key where it was.
pub proof fn lemma_object_position_update(es: Seq<(Seq<char>, ValueView)>, i: int, y: ValueView, k: Seq<char>)
    requires
        0 <= i < es.len(),
    ensures
        object_position(es.update(i, (es[i].0, y)), k) == object_position(es, k),
    decreases es.len(),
{
    let es2 = es.update(i, (es[i].0, y));
    if es.len() > 0 && es[0].0 != k {
        if i > 0 {
            assert(es2.drop_first() =~= es.drop_first().update(i - 1, (es[i].0, y)));
            lemma_object_position_update(es.drop_first(), i - 1, y, k);
        } else {
            assert(es2.drop_first() =~= es.drop_first());
        }
    }
}

/// Reading a path after writing `x` there gives `x` back.
pub proof fn law_get_after_set(v: ValueView, path: Seq<StepView>, x: ValueView)
    requires
        value_at(v, path) is Some,
    ensures
        value_at(set_at(v, path, x), path) == Some(x),
    decreases path.len(),
{
    if path.len() > 0 {
        match (path[0], v) {
            (StepView::Field(k), ValueView::Object(es)) => {
                let i = object_position(es, k).unwrap();
                lemma_object_position_found(es, k);
                let es2 = es.update(i, (es[i].0, set_at(es[i].1, path.drop_first(), x)));
                lemma_object_position_update(es, i, set_at(es[i].1, path.drop_first(), x), k);
                law_get_after_set(es[i].1, path.drop_first(), x);
            },
            (StepView::Index(n), ValueView::Array(a)) => {
                let j = array_position(a.len() as int, n as int).unwrap();
                law_get_after_set(a[j], path.drop_first(), x);
            },
            _ => {},
        }
    }
}

/// Writing a well-formed value at a path keeps every object of the value
/// ordered by key: writes never add, remove or rename a key.
pub proof fn law_set_keeps_wf(v: ValueView, path: Seq<StepView>, x: ValueView)
    requires
        value_wf(v),
        value_wf(x),
    ensures
        value_wf(set_at(v, path, x)),
    decreases path.len(),
{
    if path.len() > 0 {
        match (path[0], v) {
            (StepView::Field(k), ValueView::Object(es)) => {
                lemma_object_position_found(es, k);
                if let Some(i) = object_position(es, k) {
                    assert(value_wf(es[i].1));
                    law_set_keeps_wf(es[i].1, path.drop_first(), x);
                    let es2 = es.update(i, (es[i].0, set_at(es[i].1, path.drop_first(), x)));
                    assert forall|a: int, b: int| 0 <= a < b < es2.len() implies seq_char_lt(
                        es2[a].0,
                        es2[b].0,
                    ) by {
                        assert(es2[a].0 == es[a].0);
                        assert(es2[b].0 == es[b].0);
                    }
                    assert forall|j: int| 0 <= j < es2.len() implies value_wf(#[trigger] es2[j].1) by {
                        if j != i {
                            assert(es2[j] == es[j]);
                        }
                    }
                }
            },
            (StepView::Index(n), ValueView::Array(a)) => {
                if let Some(j) = array_position(a.len() as int, n as int) {
                    assert(value_wf(a[j]));
                    law_set_keeps_wf(a[j], path.drop_first(), x);
                    let a2 = a.update(j, set_at(a[j], path.drop_first(), x));
                    assert forall|m: int| 0 <= m < a2.len() implies value_wf(#[trigger] a2[m]) by {
                        if m != j {
                            assert(a2[m] == a[m]);
                        }
                    }
                }
            },
            _ => {},
        }
    }
}

/// Following `p` and then `q` is following `p` then `q` joined: the value
/// at `p + q` is the value at `q` below the value at `p`, and there is none
/// when either leads nowhere.
pub proof fn law_path_split(v: ValueView, p: Seq<StepView>, q: Seq<StepView>)
    ensures
        value_at(v, p + q) == match value_at(v, p) {
            Some(w) => value_at(w, q),
            None => None,
        },
    decreases p.len(),
{
    if p.len() > 0 {
        assert((p + q)[0] == p[0]);
        assert((p + q).drop_first() =~= p.drop_first() + q);
        match child_at(v, p[0]) {
            Some(c) => law_path_split(c, p.drop_first(), q),
            None => {},
        }
    } else {
        assert(p + q =~= q);
    }
}

/// Writing back the value that is already at a path changes nothing.
pub proof fn law_set_same(v: ValueView, path: Seq<StepView>, x: ValueView)
    requires
        value_at(v, path) == Some(x),
    ensures
        set_at(v, path, x) == v,
    decreases path.len(),
{
    if path.len() > 0 {
        match (path[0], v) {
            (StepView::Field(k), ValueView::Object(es)) => {
                let i = object_position(es, k).unwrap();
                lemma_object_position_found(es, k);
                law_set_same(es[i].1, path.drop_first(), x);
                assert(es.update(i, (es[i].0, es[i].1)) =~= es);
            },
            (StepView::Index(n), ValueView::Array(a)) => {
                let j = array_position(a.len() as int, n as int).unwrap();
                law_set_same(a[j], path.drop_first(), x);
                assert(a.update(j, a[j]) =~= a);
            },
            _ => {},
        }
    }
}

/// A position found in an object is a valid position whose key is the one
/// looked for.
pub proof fn lemma_object_position_found(es: Seq<(Seq<char>, ValueView)>, k: Seq<char>)
    ensures
        object_position(es, k) matches Some(i) ==> 0 <= i < es.len() && es[i].0 == k,
    decreases es.len(),
{
    if es.len() > 0 && es[0].0 != k {
        lemma_object_position_found(es.drop_first(), k);
    }
}

/// Writing at a path that leads nowhere changes nothing.
pub proof fn law_set_nowhere(v: ValueView, path: Seq<StepView>, x: ValueView)
    requires
        value_at(v, path) is None,
    ensures
        set_at(v, path, x) == v,
    decreases path.len(),
{
    if path.len() > 0 {
        match (path[0], v) {
            (StepView::Field(k), ValueView::Object(es)) => {
                lemma_object_position_found(es, k);
                match object_position(es, k) {
                    Some(i) => {
                        law_set_nowhere(es[i].1, path.drop_first(), x);
                        assert(es.update(i, (es[i].0, es[i].1)) =~= es);
                    },
                    None => {},
                }
            },
            (StepView::Index(n), ValueView::Array(a)) => {
                match array_position(a.len() as int, n as int) {
                    Some(j) => {
                        law_set_nowhere(a[j], path.drop_first(), x);
                        assert(a.update(j, a[j]) =~= a);
                    },
                    None => {},
                }
            },
            _ => {},
        }
    }
}

/// The value of the first entry with key `key`.
pub open spec fn lookup(es: Seq<(Seq<char>, ValueView)>, key: Seq<char>) -> Option<ValueView> {
    match object_position(es, key) {
        Some(i) => Some(es[i].1),
        None => None,
    }
}

/// Adding an entry at the end changes no key found before it, and makes the
/// new key found when it was not there.
pub proof fn lemma_object_position_push(es: Seq<(Seq<char>, ValueView)>, e: (Seq<char>, ValueView), k: Seq<char>)
    ensures
        object_position(es.push(e), k) == match object_position(es, k) {
            Some(i) => Some(i),
            None => if e.0 == k {
                Some(es.len() as int)
            } else {
                None::<int>
            },
        },
    decreases es.len(),
{
    let p = es.push(e);
    assert(p.len() > 0);
    if es.len() == 0 {
        assert(p[0] == e);
        assert(p.drop_first().len() == 0);
        assert(object_position(p.drop_first(), k) is None);
    } else {
        assert(p[0] == es[0]);
        if es[0].0 != k {
            assert(p.drop_first() =~= es.drop_first().push(e));
            lemma_object_position_push(es.drop_first(), e, k);
        }
    }
}

} // verus!
