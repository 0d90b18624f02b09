//! What an expression is resolved against: the event it changes, the state
//! of the run, the time zone, and optional state of the embedding program.

use crate::compiler::state::RuntimeState;
use crate::value::Value;
use vstd::prelude::*;

verus! {

/// The time zone that timestamps are read and written in: the machine's, or
/// one named in the time zone database.
#[derive(Debug, PartialEq, Eq)]
pub enum TimeZone {
    Local,
    Named(String),
}

impl Default for TimeZone {
    fn default() -> (r: TimeZone)
        ensures
            r is Local,
    {
        TimeZone::Local
    }
}

/// Borrows of everything an expression is resolved against.
pub struct Context<'a, D> {
    target: &'a mut Value,
    state: &'a mut RuntimeState,
    timezone: &'a TimeZone,
    dynamic_state: Option<&'a mut D>,
}

impl<'a, D> Context<'a, D> {
    /// The target as it is now.
    pub closed spec fn spec_target(&self) -> Value {
        mut_ref_current(self.target)
    }

    pub closed spec fn spec_state(&self) -> RuntimeState {
        mut_ref_current(self.state)
    }

    pub closed spec fn spec_timezone(&self) -> TimeZone {
        *self.timezone
    }

    pub closed spec fn has_dynamic_state(&self) -> bool {
        self.dynamic_state is Some
    }

    pub closed spec fn spec_dynamic_state(&self) -> D {
        mut_ref_current(self.dynamic_state->0)
    }

    /// The borrow of the target that the context holds.
    pub closed spec fn target_ref(&self) -> &'a mut Value {
        self.target
    }

    /// The borrow of the runtime state that the context holds.
    pub closed spec fn state_ref(&self) -> &'a mut RuntimeState {
        self.state
    }

    /// The borrow of the dynamic state that the context holds, if any.
    pub closed spec fn dynamic_ref(&self) -> &'a mut D {
        self.dynamic_state->0
    }

    /// Once the context is done with its borrows, each holds at its end what
    /// the context last held: this is what the caller's target, state and
    /// dynamic state are left with.
    pub proof fn lemma_done(self)
        requires
            has_resolved(self),
        ensures
            *final(self.target_ref()) == self.spec_target(),
            *final(self.state_ref()) == self.spec_state(),
            self.has_dynamic_state() ==> *final(self.dynamic_ref()) == self.spec_dynamic_state(),
    {
    }

    /// A context over the given target, state and time zone, with no dynamic
    /// state. It borrows the caller's target and state themselves: once the
    /// context is done, they hold what the context last held.
    pub fn new(target: &'a mut Value, state: &'a mut RuntimeState, timezone: &'a TimeZone) -> (r: Self)
        ensures
            r.spec_target() == *old(target),
            r.spec_state() == *old(state),
            r.spec_timezone() == *timezone,
            !r.has_dynamic_state(),
            *final(target) == *final(r.target_ref()),
            *final(state) == *final(r.state_ref()),
    {
        Context { target, state, timezone, dynamic_state: None }
    }

    /// The same context, with `state` as its dynamic state, borrowed itself.
    pub fn with_dynamic_state(self, state: &'a mut D) -> (r: Self)
        ensures
            r.spec_target() == self.spec_target(),
            r.spec_state() == self.spec_state(),
            r.spec_timezone() == self.spec_timezone(),
            r.has_dynamic_state(),
            r.spec_dynamic_state() == *old(state),
            *final(r.target_ref()) == *final(self.target_ref()),
            *final(r.state_ref()) == *final(self.state_ref()),
            *final(state) == *final(r.dynamic_ref()),
    {
        let mut this = self;
        this.dynamic_state = Some(state);
        this
    }

    /// The target.
    pub fn target(&self) -> (r: &Value)
        ensures
            *r == self.spec_target(),
    {
        self.target
    }

    /// The target, to be changed; the rest of the context stays as it is.
    pub fn target_mut(&mut self) -> (r: &mut Value)
        ensures
            *r == old(self).spec_target(),
            final(self).spec_target() == *final(r),
            final(self).spec_state() == old(self).spec_state(),
            final(self).spec_timezone() == old(self).spec_timezone(),
            final(self).has_dynamic_state() == old(self).has_dynamic_state(),
            old(self).has_dynamic_state() ==> final(self).spec_dynamic_state() == old(self).spec_dynamic_state(),
            *final(final(self).target_ref()) == *final(old(self).target_ref()),
            *final(final(self).state_ref()) == *final(old(self).state_ref()),
            old(self).has_dynamic_state() ==> *final(final(self).dynamic_ref()) == *final(old(self).dynamic_ref()),
    {
        self.target
    }

    /// The runtime state.
    pub fn state(&self) -> (r: &RuntimeState)
        ensures
            *r == self.spec_state(),
    {
        self.state
    }

    /// The runtime state, to be changed; the rest of the context stays as it
    /// is.
    pub fn state_mut(&mut self) -> (r: &mut RuntimeState)
        ensures
            *r == old(self).spec_state(),
            final(self).spec_state() == *final(r),
            final(self).spec_target() == old(self).spec_target(),
            final(self).spec_timezone() == old(self).spec_timezone(),
            final(self).has_dynamic_state() == old(self).has_dynamic_state(),
            old(self).has_dynamic_state() ==> final(self).spec_dynamic_state() == old(self).spec_dynamic_state(),
            *final(final(self).target_ref()) == *final(old(self).target_ref()),
            *final(final(self).state_ref()) == *final(old(self).state_ref()),
            old(self).has_dynamic_state() ==> *final(final(self).dynamic_ref()) == *final(old(self).dynamic_ref()),
    {
        self.state
    }

    /// The time zone.
    pub fn timezone(&self) -> (r: &TimeZone)
        ensures
            *r == self.spec_timezone(),
    {
        self.timezone
    }

    /// The dynamic state, if the context has one.
    pub fn dynamic_state(&mut self) -> (r: Option<&mut D>)
        ensures
            r is Some <==> old(self).has_dynamic_state(),
            r matches Some(d) ==> *d == old(self).spec_dynamic_state(),
            r matches Some(d) ==> final(self).spec_dynamic_state() == *final(d),
            final(self).has_dynamic_state() == old(self).has_dynamic_state(),
            final(self).spec_target() == old(self).spec_target(),
            final(self).spec_state() == old(self).spec_state(),
            final(self).spec_timezone() == old(self).spec_timezone(),
            *final(final(self).target_ref()) == *final(old(self).target_ref()),
            *final(final(self).state_ref()) == *final(old(self).state_ref()),
            old(self).has_dynamic_state() ==> *final(final(self).dynamic_ref()) == *final(old(self).dynamic_ref()),
    {
        match &mut self.dynamic_state {
            Some(d) => Some(&mut **d),
            None => None,
        }
    }
}

} // verus!
