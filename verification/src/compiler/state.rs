//! The state that a program's run keeps between expressions.

use crate::parser::ast::Ident;
use crate::value::crud::{
    find_key, lemma_object_position_found, lemma_object_position_push, lemma_object_position_update,
    lookup, object_position, view_entries_of,
};
use crate::value::{Value, ValueView};
use vstd::prelude::*;

verus! {

/// The variables of a running program and their values.
#[derive(Debug)]
pub struct RuntimeState {
    variables: Vec<(String, Value)>,
}

impl RuntimeState {
    /// The bindings, in the order they were first made.
    pub closed spec fn bindings(&self) -> Seq<(Seq<char>, ValueView)> {
        view_entries_of(self.variables@)
    }

    /// A state with no variables.
    pub fn new() -> (r: RuntimeState)
        ensures
            r.bindings() == Seq::<(Seq<char>, ValueView)>::empty(),
    {
        let r = RuntimeState { variables: Vec::new() };
        assert(r.bindings() =~= Seq::<(Seq<char>, ValueView)>::empty());
        r
    }

    /// Whether no variable is bound.
    pub fn is_empty(&self) -> (r: bool)
        ensures
            r == (self.bindings().len() == 0),
    {
        self.variables.len() == 0
    }

    /// The value of the variable `ident`, if it is bound.
    pub fn variable(&self, ident: &Ident) -> (r: Option<&Value>)
        ensures
            match r {
                Some(v) => lookup(self.bindings(), ident@) == Some(v@),
                None => lookup(self.bindings(), ident@) is None,
            },
    {
        match find_key(&self.variables, ident.as_str()) {
            Some(i) => Some(&self.variables[i].1),
            None => None,
        }
    }

    /// Bind `ident` to `value`, replacing its earlier value if it had one.
    pub fn insert_variable(&mut self, ident: Ident, value: Value)
        ensures
            forall|k: Seq<char>|
                #[trigger] lookup(final(self).bindings(), k) == if k == ident@ {
                    Some(value@)
                } else {
                    lookup(old(self).bindings(), k)
                },
    {
        let ghost before = self.bindings();
        let ghost v = value@;
        let name = ident.into_inner();
        match find_key(&self.variables, name.as_str()) {
            Some(i) => {
                proof {
                    lemma_object_position_found(before, name@);
                }
                let ghost key = self.variables@[i as int].0@;
                self.variables.set(i, (name, value));
                proof {
                    assert(self.bindings() =~= before.update(i as int, (before[i as int].0, v)));
                    assert forall|k: Seq<char>| #[trigger] lookup(self.bindings(), k) == if k == key {
                        Some(v)
                    } else {
                        lookup(before, k)
                    } by {
                        lemma_object_position_update(before, i as int, v, k);
                        lemma_object_position_found(before, k);
                    }
                }
            },
            None => {
                self.variables.push((name, value));
                proof {
                    assert(self.bindings() =~= before.push((ident@, v)));
                    assert forall|k: Seq<char>| #[trigger] lookup(self.bindings(), k) == if k == ident@ {
                        Some(v)
                    } else {
                        lookup(before, k)
                    } by {
                        lemma_object_position_push(before, (ident@, v), k);
                        lemma_object_position_found(before, k);
                    }
                }
            },
        }
    }
}

} // verus!
