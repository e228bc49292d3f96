//! The process-wide view of the listener: an optional state record,
//! unset until a listener is started, plus the two position getters the
//! foreign surface exposes.
//!
//! The real process keeps one `MouseTracker`-shaped value behind an
//! atomically published global slot and mutates it from the listener
//! thread; this type carries the decisions themselves — what a start,
//! an event, or a poll does to the value — so the surrounding code only
//! moves values in and out.

use vstd::prelude::*;

use crate::events::InputEvent;
use crate::events::LoggedEvent;
use crate::events::emitted;
use crate::events::step;
use crate::state::MouseState;
use crate::state::PointerSample;

verus! {

/// The IEEE 754 encoding of minus one: the coordinate both getters
/// report, for x and for y, as long as no listener has been started.
pub const NO_DATA_COORD: u64 = 0xBFF0_0000_0000_0000;

/// The listener state a process observes: `store` is `None` until a
/// start, and afterwards holds the record the listener maintains.
#[derive(Clone, Copy, PartialEq, Eq, Structural, Debug)]
pub struct MouseTracker {
    pub store: Option<MouseState>,
}

impl MouseTracker {
    /// The state of a process in which no listener was ever started.
    pub fn new() -> (r: MouseTracker)
        ensures
            r.store is None,
    {
        MouseTracker { store: None }
    }

    /// Start a listener: install a fresh record with both samples at
    /// the default (0.0, 0.0). A second start installs a fresh record
    /// again, abandoning whatever the first one held.
    pub fn start(&mut self)
        ensures
            final(self).store == Some(
                MouseState {
                    last_click: PointerSample::origin_spec(),
                    last_move: PointerSample::origin_spec(),
                },
            ),
    {
        self.store = Some(MouseState::new());
    }

    /// Feed one event to the tracker, stamped with the encoded
    /// wall-clock instant the caller read for it. Before any start the
    /// event is dropped; afterwards the stored record takes one step
    /// and the returned record, if any, is owed to the log.
    pub fn process_event(&mut self, event: InputEvent, timestamp: u64) -> (r: Option<LoggedEvent>)
        ensures
            old(self).store is None ==> final(self).store is None && r is None,
            old(self).store matches Some(s) ==> final(self).store == Some(step(s, event)) && r
                == emitted(s, event, timestamp),
    {
        match &mut self.store {
            Some(state) => crate::events::handle_event(state, event, timestamp),
            None => None,
        }
    }

    /// The last pointer position, or the sentinel pair (the encoding of
    /// minus one in both fields) while no listener has been started.
    pub fn get_mouse_position(&self) -> (r: (u64, u64))
        ensures
            self.store is None ==> r == (NO_DATA_COORD, NO_DATA_COORD),
            self.store matches Some(s) ==> r == (s.last_move.x, s.last_move.y),
    {
        match &self.store {
            Some(state) => {
                let position = state.get_last_move();
                (position.x, position.y)
            },
            None => (NO_DATA_COORD, NO_DATA_COORD),
        }
    }

    /// The last click position, or the sentinel pair while no listener
    /// has been started.
    pub fn get_last_click_position(&self) -> (r: (u64, u64))
        ensures
            self.store is None ==> r == (NO_DATA_COORD, NO_DATA_COORD),
            self.store matches Some(s) ==> r == (s.last_click.x, s.last_click.y),
    {
        match &self.store {
            Some(state) => {
                let position = state.get_last_click();
                (position.x, position.y)
            },
            None => (NO_DATA_COORD, NO_DATA_COORD),
        }
    }
}

} // verus!
