//! The fetch coordinator's decision: whether a key press starts a fetch.
//!
//! Starting the background task itself is the caller's job — `trigger`
//! returns the city together with the fresh request id, the caller spawns a
//! task that performs the network request and hands its outcome to
//! [`crate::state::SharedWeatherState::complete`] under that id. `trigger`
//! never blocks and never waits for a running fetch.

use vstd::prelude::*;

use crate::state::SharedWeatherState;

verus! {

/// Decides whether a fetch starts. An empty city is rejected as a complete
/// no-op: the cell is left untouched and no task is to be spawned.
/// Otherwise the cell moves to `InFlight` under a fresh request id, which is
/// returned for the task that the caller spawns.
pub fn trigger(state: &mut SharedWeatherState, city: &String) -> (r: Option<u64>)
    requires
        city@.len() > 0 ==> old(state).current_id < u64::MAX,
    ensures
        city@.len() == 0 ==> *final(state) == *old(state) && r is None,
        city@.len() > 0 ==> {
            &&& final(state).current_id == old(state).current_id + 1
            &&& final(state).status is InFlight
            &&& r == Some(final(state).current_id)
        },
{
    if city.as_str().is_empty() {
        None
    } else {
        Some(state.begin_fetch())
    }
}

} // verus!
