use vstd::prelude::*;

verus! {

/// The capability table handed to the module on every call.
///
/// It is the one channel through which module code reaches host-owned
/// resources. The host fills it once, before the first module call, and
/// never changes it afterwards.
pub struct Platform {}

/// The opaque state record: its contents belong to the module's logic, its
/// storage to the host, so that it survives a module swap.
pub struct State {
    pub counter: i64,
}

/// The module's constructor entry point: a fresh record, counter at zero.
pub fn lib_new_state() -> (s: State)
    ensures
        s.counter == 0,
{
    State { counter: 0 }
}

/// The module's per-frame entry point: advances the counter by one.
///
/// The host hands over the capability table and the record by reference; the
/// record is changed in place and nothing else of it is touched.
pub fn lib_update_and_render(_p: &Platform, state: &mut State)
    requires
        old(state).counter < i64::MAX,
    ensures
        final(state).counter == old(state).counter + 1,
{
    state.counter = state.counter + 1;
}

} // verus!
