//! The application model: the city input buffer, the two loop flags, and the
//! transition that one polled input event applies to them.

use vstd::prelude::*;

use crate::state::FetchStatus;
use crate::state::SharedWeatherState;

verus! {

/// One discrete key event, as the input source reports it. The mapping from
/// raw terminal events to these is mechanical; every rule about what a key
/// does lives in [`AppModel::handle_event`].
#[derive(Clone, Copy, PartialEq, Eq, Structural, Debug)]
pub enum InputEvent {
    /// A printable key, including 'q', which is the quit key.
    Character(char),
    Backspace,
    Enter,
}

/// Events that edit the buffer: any character other than the quit key, and
/// backspace.
pub open spec fn is_edit_event(ev: InputEvent) -> bool {
    match ev {
        InputEvent::Character(c) => c != 'q',
        InputEvent::Backspace => true,
        InputEvent::Enter => false,
    }
}

/// What one event does to the input buffer alone: a character is appended,
/// backspace removes the last character of a non-empty buffer, and the quit
/// key and enter leave the buffer as it is (enter's clearing of the buffer
/// is part of the fetch trigger, not of editing).
pub open spec fn apply_edit(buf: Seq<char>, ev: InputEvent) -> Seq<char> {
    match ev {
        InputEvent::Character(c) => if c == 'q' {
            buf
        } else {
            buf.push(c)
        },
        InputEvent::Backspace => if buf.len() > 0 {
            buf.drop_last()
        } else {
            buf
        },
        InputEvent::Enter => buf,
    }
}

/// The buffer after a whole sequence of events, folded left to right.
pub open spec fn apply_edits(buf: Seq<char>, evs: Seq<InputEvent>) -> Seq<char>
    decreases evs.len(),
{
    if evs.len() == 0 {
        buf
    } else {
        apply_edits(apply_edit(buf, evs[0]), evs.drop_first())
    }
}

/// Law: handling events one at a time is the literal fold of the whole
/// sequence — after any sequence of character/backspace events the buffer
/// equals [`apply_edits`] of that sequence (and, being a sequence, its
/// length is a natural number and can never go below zero). Each exec step
/// satisfies [`apply_edit`] by [`AppModel::handle_event`]'s contract; this
/// lemma chains those steps into the fold.
pub proof fn lemma_edits_fold(buf: Seq<char>, evs: Seq<InputEvent>, ev: InputEvent)
    ensures
        apply_edits(buf, evs.push(ev)) == apply_edit(apply_edits(buf, evs), ev),
    decreases evs.len(),
{
    reveal_with_fuel(apply_edits, 3);
    if evs.len() == 0 {
        assert(evs.push(ev)[0] == ev);
        assert(evs.push(ev).drop_first() =~= Seq::<InputEvent>::empty());
    } else {
        assert(evs.push(ev)[0] == evs[0]);
        assert(evs.push(ev).drop_first() =~= evs.drop_first().push(ev));
        lemma_edits_fold(apply_edit(buf, evs[0]), evs.drop_first(), ev);
    }
}

/// The derived interaction state: a pure projection of the fetch status and
/// the two flags, never stored, so it cannot fall out of step with them.
#[derive(Clone, Copy, PartialEq, Eq, Structural, Debug)]
pub enum Phase {
    /// Typing, before anything was ever fetched.
    Editing,
    /// A fetch is in flight.
    Awaiting,
    /// A snapshot is available for display.
    Displaying,
    /// The latest fetch failed, or completed with nothing to show.
    Empty,
    /// The quit key was pressed; the loop ends at its next condition check.
    Exiting,
}

/// The projection itself.
pub open spec fn phase_spec(
    status: FetchStatus,
    has_fetched_once: bool,
    exit_requested: bool,
) -> Phase {
    if exit_requested {
        Phase::Exiting
    } else {
        match status {
            FetchStatus::InFlight => Phase::Awaiting,
            FetchStatus::Succeeded(_) => Phase::Displaying,
            FetchStatus::Failed => Phase::Empty,
            FetchStatus::Idle => if has_fetched_once {
                Phase::Empty
            } else {
                Phase::Editing
            },
        }
    }
}

/// Everything the render loop owns alone: the input buffer and the two
/// flags. The shared fetch cell is passed in separately, because the loop
/// shares it with the background tasks.
#[derive(Debug)]
pub struct AppModel {
    /// The city name being typed.
    pub city: String,
    /// Distinguishes "never asked" from "asked and got nothing".
    pub has_fetched_once: bool,
    /// Set by the quit key; the loop's iteration condition.
    pub exit_requested: bool,
}

impl AppModel {
    /// A fresh model: empty buffer, nothing fetched, not exiting.
    pub fn new() -> (r: Self)
        ensures
            r.city@ == Seq::<char>::empty(),
            !r.has_fetched_once,
            !r.exit_requested,
    {
        AppModel { city: String::new(), has_fetched_once: false, exit_requested: false }
    }

    /// The loop's iteration condition: keep running until exit is requested.
    pub fn should_continue(&self) -> (r: bool)
        ensures
            r == !self.exit_requested,
    {
        !self.exit_requested
    }

    /// The derived interaction state for the current tick.
    pub fn phase(&self, status: &FetchStatus) -> (p: Phase)
        ensures
            p == phase_spec(*status, self.has_fetched_once, self.exit_requested),
    {
        if self.exit_requested {
            Phase::Exiting
        } else {
            match status {
                FetchStatus::InFlight => Phase::Awaiting,
                FetchStatus::Succeeded(_) => Phase::Displaying,
                FetchStatus::Failed => Phase::Empty,
                FetchStatus::Idle => if self.has_fetched_once {
                    Phase::Empty
                } else {
                    Phase::Editing
                },
            }
        }
    }

    /// Applies one polled input event — the at-most-one transition of a
    /// tick. The quit key requests exit; enter on a non-empty buffer
    /// triggers a fetch through the coordinator, clears the buffer and
    /// returns the city and request id for the task the caller spawns;
    /// enter on an empty buffer is a complete no-op; any other character
    /// and backspace edit the buffer and touch nothing else.
    pub fn handle_event(&mut self, state: &mut SharedWeatherState, ev: InputEvent) -> (fetch:
        Option<(String, u64)>)
        requires
            !old(self).exit_requested,
            old(state).current_id < u64::MAX,
        ensures
            is_edit_event(ev) ==> {
                &&& final(self).city@ == apply_edit(old(self).city@, ev)
                &&& final(self).has_fetched_once == old(self).has_fetched_once
                &&& !final(self).exit_requested
                &&& *final(state) == *old(state)
                &&& fetch is None
            },
            ev == InputEvent::Character('q') ==> {
                &&& final(self).exit_requested
                &&& final(self).city@ == old(self).city@
                &&& final(self).has_fetched_once == old(self).has_fetched_once
                &&& *final(state) == *old(state)
                &&& fetch is None
            },
            ev == InputEvent::Enter && old(self).city@.len() == 0 ==> {
                &&& *final(self) == *old(self)
                &&& *final(state) == *old(state)
                &&& fetch is None
            },
            ev == InputEvent::Enter && old(self).city@.len() > 0 ==> {
                &&& final(self).city@ == Seq::<char>::empty()
                &&& final(self).has_fetched_once
                &&& !final(self).exit_requested
                &&& final(state).current_id == old(state).current_id + 1
                &&& final(state).status is InFlight
                &&& fetch matches Some(f) && f.0@ == old(self).city@
                    && f.1 == final(state).current_id
            },
    {
        match ev {
            InputEvent::Character(c) => {
                if c == 'q' {
                    self.exit_requested = true;
                } else {
                    crate::text::push_char(&mut self.city, c);
                }
                None
            },
            InputEvent::Backspace => {
                let _popped = crate::text::pop_char(&mut self.city);
                None
            },
            InputEvent::Enter => {
                match crate::coordinator::trigger(state, &self.city) {
                    Some(id) => {
                        let city = self.city.clone();
                        self.city = String::new();
                        self.has_fetched_once = true;
                        Some((city, id))
                    },
                    None => None,
                }
            },
        }
    }
}

} // verus!
