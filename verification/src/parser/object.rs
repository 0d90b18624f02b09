//! Object literals hold their entries ordered by key node (the key's span,
//! then its text), with no key node twice; a later entry with a key node
//! already present replaces the earlier one.

use crate::diagnostic::Span;
use crate::parser::ast::{view_entries, view_node_expr, EntriesView, Expr, ExprView, Node, NodeView, Object};
use crate::value::{lemma_text_lt_irreflexive, lemma_text_lt_total, lemma_text_lt_transitive, seq_char_lt, text_lt};
use vstd::prelude::*;

verus! {

/// The order of key nodes: by span start, then span end, then text.
pub open spec fn key_lt(a: NodeView<Seq<char>>, b: NodeView<Seq<char>>) -> bool {
    ||| a.span.start() < b.span.start()
    ||| a.span.start() == b.span.start() && a.span.end() < b.span.end()
    ||| a.span.start() == b.span.start() && a.span.end() == b.span.end() && seq_char_lt(a.node, b.node)
}

/// Entries in strictly increasing order of key node.
pub open spec fn entries_ordered(s: EntriesView) -> bool {
    forall|i: int, j: int| 0 <= i < j < s.len() ==> key_lt(#[trigger] s[i].0, #[trigger] s[j].0)
}

/// No entry after the `j`-th has its key node.
#[verifier::opaque]
pub open spec fn last_with_key(input: EntriesView, j: int) -> bool {
    forall|k: int| j < k < input.len() ==> #[trigger] input[k].0 != input[j].0
}

/// Each entry of `r` is an entry of `input` from position `k` on, the last
/// one there with its key node.
#[verifier::opaque]
pub open spec fn drawn_from(input: EntriesView, r: EntriesView, k: int) -> bool {
    forall|i: int| 0 <= i < r.len() ==> #[trigger] drawn_at(input, r, k, i)
}

/// The `i`-th entry of `r` is an entry of `input` from position `k` on, the
/// last one there with its key node.
pub open spec fn drawn_at(input: EntriesView, r: EntriesView, k: int, i: int) -> bool {
    exists|j: int| #![trigger input[j]] k <= j < input.len() && input[j] == r[i] && last_with_key(input, j)
}

/// Each key node of `input` from position `k` on is a key node of `r`.
#[verifier::opaque]
pub open spec fn covers(input: EntriesView, r: EntriesView, k: int) -> bool {
    forall|j: int|
        #![trigger input[j]]
        k <= j < input.len() ==> exists|i: int| #![trigger r[i]] 0 <= i < r.len() && r[i].0 == input[j].0
}

/// `r` holds, in order of key node, the last entry of `input` for each key
/// node that occurs in `input`.
pub open spec fn collected(input: EntriesView, r: EntriesView) -> bool {
    &&& entries_ordered(r)
    &&& drawn_from(input, r, 0)
    &&& covers(input, r, 0)
}

proof fn lemma_key_lt_irreflexive(a: NodeView<Seq<char>>)
    ensures
        !key_lt(a, a),
{
    lemma_text_lt_irreflexive(a.node);
}

proof fn lemma_key_lt_transitive(a: NodeView<Seq<char>>, b: NodeView<Seq<char>>, c: NodeView<Seq<char>>)
    requires
        key_lt(a, b),
        key_lt(b, c),
    ensures
        key_lt(a, c),
{
    if a.span.start() == b.span.start() && b.span.start() == c.span.start() && a.span.end()
        == b.span.end() && b.span.end() == c.span.end() {
        lemma_text_lt_transitive(a.node, b.node, c.node);
    }
}

proof fn lemma_key_lt_total(a: NodeView<Seq<char>>, b: NodeView<Seq<char>>)
    requires
        a != b,
    ensures
        key_lt(a, b) || key_lt(b, a),
{
    if a.span.start() == b.span.start() && a.span.end() == b.span.end() {
        Span::lemma_eq_from_bounds(a.span, b.span);
        assert(a.node != b.node);
        lemma_text_lt_total(a.node, b.node);
    }
}

fn key_lt_exec(a: &Node<String>, b: &Node<String>) -> (r: bool)
    ensures
        r == key_lt(a@, b@),
{
    let (sa, sb) = (a.span.start(), b.span.start());
    if sa != sb {
        return sa < sb;
    }
    let (ea, eb) = (a.span.end(), b.span.end());
    if ea != eb {
        return ea < eb;
    }
    text_lt(a.node.as_str(), b.node.as_str())
}

fn key_eq_exec(a: &Node<String>, b: &Node<String>) -> (r: bool)
    ensures
        r == (a@ == b@),
{
    if a.span.start() == b.span.start() && a.span.end() == b.span.end() {
        proof {
            Span::lemma_eq_from_bounds(a.span, b.span);
        }
        a.node == b.node
    } else {
        false
    }
}

/// Where the search for `e` stopped at `p` without finding it, `e` is not a
/// key node of `vo`, and inserting it at `p` keeps `vo` ordered.
proof fn lemma_insert_at_search_end(vo: EntriesView, e: (NodeView<Seq<char>>, NodeView<ExprView>), p: int)
    requires
        entries_ordered(vo),
        0 <= p <= vo.len(),
        forall|i: int| 0 <= i < p ==> key_lt(#[trigger] vo[i].0, e.0),
        p < vo.len() ==> !key_lt(vo[p].0, e.0) && vo[p].0 != e.0,
    ensures
        forall|q: int| 0 <= q < vo.len() ==> #[trigger] vo[q].0 != e.0,
        entries_ordered(vo.insert(p, e)),
{
    assert forall|q: int| 0 <= q < vo.len() implies #[trigger] vo[q].0 != e.0 by {
        if vo[q].0 == e.0 {
            lemma_key_lt_irreflexive(e.0);
            if q != p {
                assert(key_lt(vo[p].0, vo[q].0));
            }
        }
    }
    if p < vo.len() {
        lemma_key_lt_total(vo[p].0, e.0);
    }
    vo.insert_ensures(p, e);
    let vn = vo.insert(p, e);
    assert forall|a: int, b: int| 0 <= a < b < vn.len() implies key_lt(
        #[trigger] vn[a].0,
        #[trigger] vn[b].0,
    ) by {
        if b <= p {
        } else if a < p {
            assert(vn[b] == vo[b - 1]);
            lemma_key_lt_transitive(vo[a].0, e.0, vo[p].0);
            if p < b - 1 {
                lemma_key_lt_transitive(vo[a].0, vo[p].0, vo[b - 1].0);
            }
        } else if a == p {
            assert(vn[b] == vo[b - 1]);
            if p < b - 1 {
                lemma_key_lt_transitive(e.0, vo[p].0, vo[b - 1].0);
            }
        } else {
            assert(vn[a] == vo[a - 1]);
            assert(vn[b] == vo[b - 1]);
        }
    }
}

/// An entry whose key node is not collected from position `k + 1` on is
/// the last with its key node.
proof fn lemma_last_with_key(input: EntriesView, vo: EntriesView, k: int)
    requires
        0 <= k < input.len(),
        covers(input, vo, k + 1),
        forall|q: int| 0 <= q < vo.len() ==> #[trigger] vo[q].0 != input[k].0,
    ensures
        last_with_key(input, k),
{
    reveal(covers);
    reveal(last_with_key);
    assert forall|m: int| k < m < input.len() implies #[trigger] input[m].0 != input[k].0 by {
        let i = choose|i: int| 0 <= i < vo.len() && vo[i].0 == input[m].0;
        assert(vo[i].0 != input[k].0);
    }
}

/// What is drawn from position `k + 1` on is drawn from `k` on.
proof fn lemma_drawn_widen(input: EntriesView, vo: EntriesView, k: int)
    requires
        drawn_from(input, vo, k + 1),
    ensures
        drawn_from(input, vo, k),
{
    reveal(drawn_from);
    assert forall|i: int| 0 <= i < vo.len() implies #[trigger] drawn_at(input, vo, k, i) by {
        assert(drawn_at(input, vo, k + 1, i));
        let j = choose|j: int| k + 1 <= j < input.len() && input[j] == vo[i] && last_with_key(input, j);
        assert(input[j] == vo[i]);
    }
}

/// Inserting the `k`-th entry, the last with its key node, keeps every entry
/// drawn from position `k` on.
proof fn lemma_drawn_insert(input: EntriesView, vo: EntriesView, k: int, p: int)
    requires
        0 <= k < input.len(),
        0 <= p <= vo.len(),
        drawn_from(input, vo, k + 1),
        last_with_key(input, k),
    ensures
        drawn_from(input, vo.insert(p, input[k]), k),
{
    lemma_drawn_widen(input, vo, k);
    reveal(drawn_from);
    vo.insert_ensures(p, input[k]);
    let vn = vo.insert(p, input[k]);
    assert forall|i: int| 0 <= i < vn.len() implies #[trigger] drawn_at(input, vn, k, i) by {
        if i < p {
            assert(vn[i] == vo[i]);
            assert(drawn_at(input, vo, k, i));
            let j = choose|j: int| k <= j < input.len() && input[j] == vo[i] && last_with_key(input, j);
            assert(input[j] == vn[i]);
        } else if i == p {
            assert(input[k] == vn[i]);
        } else {
            assert(vn[i] == vo[i - 1]);
            assert(drawn_at(input, vo, k, i - 1));
            let j = choose|j: int| k <= j < input.len() && input[j] == vo[i - 1] && last_with_key(input, j);
            assert(input[j] == vn[i]);
        }
    }
}

/// Inserting the `k`-th entry covers every key node from position `k` on.
proof fn lemma_covers_insert(input: EntriesView, vo: EntriesView, k: int, p: int)
    requires
        0 <= k < input.len(),
        0 <= p <= vo.len(),
        covers(input, vo, k + 1),
    ensures
        covers(input, vo.insert(p, input[k]), k),
{
    reveal(covers);
    vo.insert_ensures(p, input[k]);
    let vn = vo.insert(p, input[k]);
    assert forall|j: int| #![trigger input[j]] k <= j < input.len() implies exists|i: int|
        #![trigger vn[i]]
        0 <= i < vn.len() && vn[i].0 == input[j].0 by {
        if j == k {
            assert(vn[p].0 == input[j].0);
        } else {
            let i0 = choose|i: int| 0 <= i < vo.len() && vo[i].0 == input[j].0;
            if i0 < p {
                assert(vn[i0] == vo[i0]);
                assert(vn[i0].0 == input[j].0);
            } else {
                assert(vn[i0 + 1] == vo[i0]);
                assert(vn[i0 + 1].0 == input[j].0);
            }
        }
    }
}

/// A key node already collected covers the `k`-th entry too.
proof fn lemma_covers_present(input: EntriesView, vo: EntriesView, k: int, p: int)
    requires
        0 <= k < input.len(),
        0 <= p < vo.len(),
        vo[p].0 == input[k].0,
        covers(input, vo, k + 1),
    ensures
        covers(input, vo, k),
{
    reveal(covers);
    assert forall|j: int| #![trigger input[j]] k <= j < input.len() implies exists|i: int|
        #![trigger vo[i]]
        0 <= i < vo.len() && vo[i].0 == input[j].0 by {
        if j == k {
            assert(vo[p].0 == input[j].0);
        } else {
            let i0 = choose|i: int| 0 <= i < vo.len() && vo[i].0 == input[j].0;
            assert(vo[i0].0 == input[j].0);
        }
    }
}

impl Object {
    /// An object of the given entries: ordered by key node, and for a key
    /// node given twice, the later entry.
    pub fn from_entries(entries: Vec<(Node<String>, Node<Expr>)>) -> (r: Object)
        ensures
            collected(view_entries(entries@), r@),
    {
        let ghost input = view_entries(entries@);
        let ghost n = input.len();
        proof {
            reveal(drawn_from);
            reveal(covers);
        }
        let mut rest = entries;
        let mut out: Vec<(Node<String>, Node<Expr>)> = Vec::new();
        while rest.len() > 0
            invariant
                n == input.len(),
                n == entries@.len(),
                rest@.len() <= n,
                view_entries(rest@) == input.take(rest@.len() as int),
                entries_ordered(view_entries(out@)),
                drawn_from(input, view_entries(out@), rest@.len() as int),
                covers(input, view_entries(out@), rest@.len() as int),
            decreases rest@.len(),
        {
            let ghost k = (rest@.len() - 1) as int;
            let ghost vo = view_entries(out@);
            let ghost before = rest@;
            let e = rest.pop().unwrap();
            proof {
                assert(view_entries(before)[k] == input.take(k + 1)[k]);
                assert(view_entries(rest@) =~= input.take(k));
            }
            let ghost ev = (e.0@, view_node_expr(e.1));
            assert(ev == input[k]);
            let mut p: usize = 0;
            while p < out.len() && key_lt_exec(&out[p].0, &e.0)
                invariant
                    p <= out@.len(),
                    vo == view_entries(out@),
                    ev == (e.0@, view_node_expr(e.1)),
                    forall|i: int| 0 <= i < p ==> key_lt(#[trigger] vo[i].0, ev.0),
                decreases out@.len() - p,
            {
                assert(vo[p as int].0 == out@[p as int].0@);
                p += 1;
            }
            let present = p < out.len() && key_eq_exec(&out[p].0, &e.0);
            proof {
                if p < out@.len() {
                    assert(vo[p as int].0 == out@[p as int].0@);
                }
            }
            if !present {
                proof {
                    lemma_insert_at_search_end(vo, ev, p as int);
                    lemma_last_with_key(input, vo, k);
                    lemma_drawn_insert(input, vo, k, p as int);
                    lemma_covers_insert(input, vo, k, p as int);
                }
                out.insert(p, e);
                proof {
                    assert(view_entries(out@) =~= vo.insert(p as int, ev));
                }
            } else {
                proof {
                    lemma_drawn_widen(input, vo, k);
                    lemma_covers_present(input, vo, k, p as int);
                }
            }
        }
        Object(out)
    }
}

} // verus!
