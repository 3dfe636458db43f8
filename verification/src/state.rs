//! The shared fetch-state cell.
//!
//! One cell exists per application run. The render loop reads it every tick;
//! each background fetch task writes its outcome back through [`SharedWeatherState::complete`].
//! A monotonically increasing request id guards the cell: only the most
//! recently triggered fetch may move it out of `InFlight`, so an outcome that
//! arrives late for a superseded request is dropped silently.

use vstd::prelude::*;

use crate::types::same_snapshot;
use crate::types::FetchError;
use crate::types::WeatherDetails;

verus! {

/// Where the single live fetch stands. Exactly one value of this type is
/// held in [`SharedWeatherState`]; `Succeeded` carries the snapshot that the
/// next render shows.
#[derive(Debug)]
pub enum FetchStatus {
    /// No fetch has been triggered since the last reset.
    Idle,
    /// A fetch was triggered and has not completed yet.
    InFlight,
    /// The latest fetch completed with a snapshot.
    Succeeded(WeatherDetails),
    /// The latest fetch completed with an error; any earlier snapshot is
    /// discarded rather than kept on display.
    Failed,
}

/// Two statuses agree on everything an observer can read; for `Succeeded`
/// this is observational equality of the snapshots.
pub open spec fn same_status(a: FetchStatus, b: FetchStatus) -> bool {
    match (a, b) {
        (FetchStatus::Succeeded(x), FetchStatus::Succeeded(y)) => same_snapshot(x, y),
        _ => a == b,
    }
}

impl Clone for FetchStatus {
    fn clone(&self) -> (res: Self)
        ensures
            same_status(*self, res),
    {
        match self {
            FetchStatus::Idle => FetchStatus::Idle,
            FetchStatus::InFlight => FetchStatus::InFlight,
            FetchStatus::Succeeded(w) => FetchStatus::Succeeded(w.clone()),
            FetchStatus::Failed => FetchStatus::Failed,
        }
    }
}

/// The one cell shared between the render loop and the background fetch
/// tasks. The caller serializes access (for instance behind a mutex); the
/// methods here state what each serialized step does to the cell.
#[derive(Debug)]
pub struct SharedWeatherState {
    /// Outcome of the most recent fetch, or `InFlight` while it runs.
    pub status: FetchStatus,
    /// Id handed to the most recently triggered fetch; completions carrying
    /// any other id are stale and ignored.
    pub current_id: u64,
}

impl SharedWeatherState {
    /// A fresh cell: nothing fetched yet, no request outstanding.
    pub fn new() -> (r: Self)
        ensures
            r.status is Idle,
            r.current_id == 0,
    {
        SharedWeatherState { status: FetchStatus::Idle, current_id: 0 }
    }

    /// Marks a new fetch as the live one: the cell moves to `InFlight` and a
    /// fresh id is allocated and returned. Ids grow strictly, so every
    /// earlier id becomes stale at this point.
    pub fn begin_fetch(&mut self) -> (id: u64)
        requires
            old(self).current_id < u64::MAX,
        ensures
            final(self).current_id == old(self).current_id + 1,
            final(self).status is InFlight,
            id == final(self).current_id,
    {
        self.current_id = self.current_id + 1;
        self.status = FetchStatus::InFlight;
        self.current_id
    }

    /// What one call of [`Self::complete`] does to the cell: a matching id
    /// stores the outcome, a stale id changes nothing.
    pub open spec fn complete_spec(
        s: SharedWeatherState,
        id: u64,
        outcome: Result<WeatherDetails, FetchError>,
    ) -> SharedWeatherState {
        if id == s.current_id {
            SharedWeatherState {
                status: match outcome {
                    Ok(w) => FetchStatus::Succeeded(w),
                    Err(_) => FetchStatus::Failed,
                },
                current_id: s.current_id,
            }
        } else {
            s
        }
    }

    /// Records the outcome of the fetch with request id `id`. If `id` is the
    /// current id the cell leaves `InFlight` for `Succeeded` or `Failed`;
    /// a stale id is a no-op, so a superseded fetch can never overwrite the
    /// outcome of the one that replaced it.
    pub fn complete(&mut self, id: u64, outcome: Result<WeatherDetails, FetchError>)
        ensures
            *final(self) == Self::complete_spec(*old(self), id, outcome),
    {
        if id == self.current_id {
            match outcome {
                Ok(w) => {
                    self.status = FetchStatus::Succeeded(w);
                }
                Err(_) => {
                    self.status = FetchStatus::Failed;
                }
            }
        }
    }

    /// A copy of the current status, for the render loop to read without
    /// holding any lock across drawing.
    pub fn snapshot(&self) -> (r: FetchStatus)
        ensures
            same_status(self.status, r),
    {
        self.status.clone()
    }
}

/// Law: only the most recently triggered fetch can change the cell.
///
/// If request `b` is the current one and `a` is any other (superseded or
/// later-invalidated) request, then completing `a` is a no-op — before or
/// after `b`'s own completion — and the cell's final status reflects `b`'s
/// outcome alone.
pub proof fn lemma_latest_fetch_wins(
    s: SharedWeatherState,
    a: u64,
    b: u64,
    out_a: Result<WeatherDetails, FetchError>,
    out_b: Result<WeatherDetails, FetchError>,
)
    requires
        b == s.current_id,
        a != b,
    ensures
        SharedWeatherState::complete_spec(s, a, out_a) == s,
        SharedWeatherState::complete_spec(SharedWeatherState::complete_spec(s, a, out_a), b, out_b)
            == SharedWeatherState::complete_spec(s, b, out_b),
        SharedWeatherState::complete_spec(SharedWeatherState::complete_spec(s, b, out_b), a, out_a)
            == SharedWeatherState::complete_spec(s, b, out_b),
        out_b matches Ok(w) ==> SharedWeatherState::complete_spec(s, b, out_b).status
            == FetchStatus::Succeeded(w),
        out_b is Err ==> SharedWeatherState::complete_spec(s, b, out_b).status is Failed,
{
}

} // verus!
