//! Entering and leaving realms from native code.
use crate::v8_glue::{enter_realm, leave_realm, window_of, GlueModel, GlueState};
use vstd::prelude::*;

verus! {

/// Native code is always inside a realm.
pub fn AlreadyInRealm() -> (b: bool)
    ensures
        b,
{
    true
}

/// Enters the realm of `obj` (see `enter_realm`); the previous realm is not
/// kept.
pub fn EnterRealm(state: &mut GlueState, obj: u64)
    requires
        old(state).wf(),
    ensures
        final(state).wf(),
        window_of(old(state)@, obj) == 0 ==> final(state)@ == old(state)@,
        window_of(old(state)@, obj) != 0 ==> final(state)@ == (GlueModel {
            current_global_handle: Some(window_of(old(state)@, obj)),
            current_global_ptr: window_of(old(state)@, obj),
            ..old(state)@
        }),
{
    enter_realm(state, obj);
}

/// Leaving through this entry point keeps the current realm;
/// `AutoRealm` restores the previous one when it ends.
pub fn LeaveRealm() {
}

/// A realm entered for a scope: the realm of an object is entered when the
/// scope begins and the previous realm restored when it ends.
pub struct AutoRealm {
    previous_global: Option<u64>,
}

impl AutoRealm {
    /// The current global that `leave` restores.
    pub closed spec fn previous(&self) -> Option<u64> {
        self.previous_global
    }

    /// Enters the realm of `obj`, remembering the current one.
    pub fn new(state: &mut GlueState, obj: u64) -> (r: AutoRealm)
        requires
            old(state).wf(),
        ensures
            final(state).wf(),
            r.previous() == old(state)@.current_global_handle,
            window_of(old(state)@, obj) == 0 ==> final(state)@ == old(state)@,
            window_of(old(state)@, obj) != 0 ==> final(state)@ == (GlueModel {
                current_global_handle: Some(window_of(old(state)@, obj)),
                current_global_ptr: window_of(old(state)@, obj),
                ..old(state)@
            }),
    {
        let previous_global = enter_realm(state, obj);
        AutoRealm { previous_global }
    }

    /// The realm the scope is in.
    pub fn current_realm(&self) -> (r: CurrentRealm)
        ensures
            r == CurrentRealm,
    {
        CurrentRealm
    }

    /// Ends the scope, restoring the realm that was current when it began.
    pub fn leave(self, state: &mut GlueState)
        requires
            old(state).wf(),
        ensures
            final(state).wf(),
            final(state)@ == (GlueModel {
                current_global_handle: self.previous(),
                current_global_ptr: match self.previous() {
                    Some(g) => g,
                    None => 0,
                },
                ..old(state)@
            }),
    {
        leave_realm(state, self.previous_global);
    }
}

/// Evidence of being inside a realm.
#[derive(Clone, Copy, PartialEq, Eq, Structural, Debug)]
pub struct CurrentRealm;

impl CurrentRealm {
    /// Asserts being inside a realm.
    pub fn assert_in_realm() -> (r: CurrentRealm)
        ensures
            r == CurrentRealm,
    {
        CurrentRealm
    }

    /// The global of the current realm.
    pub fn global(&self, state: &GlueState) -> (g: Option<u64>)
        ensures
            g == state@.current_global_handle,
    {
        crate::v8_glue::current_global_handle(state)
    }
}

/// Contexts do not carry a realm object here: null.
pub fn get_context_realm() -> (r: u64)
    ensures
        r == 0,
{
    0
}

/// Objects do not carry a realm object here: null.
pub fn get_object_realm(_obj: u64) -> (r: u64)
    ensures
        r == 0,
{
    0
}

} // verus!
