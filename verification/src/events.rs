//! Classification of raw input events.
//!
//! The listener thread receives one event at a time from the host's
//! input hook and hands it to [`handle_event`]. A pointer move
//! overwrites the stored position. A left-button press or release each
//! record a click at the most recently stored pointer position — not at
//! any position the button event itself might carry — and each yield a
//! record for the log, so one physical click yields two records, one
//! per transition. Everything else is observed and discarded.

use vstd::prelude::*;

use crate::state::MouseState;
use crate::state::PointerSample;

verus! {

/// A mouse button as reported by the host's input hook.
#[derive(Clone, Copy, PartialEq, Eq, Structural, Debug)]
pub enum MouseButton {
    Left,
    Right,
    Middle,
    Other,
}

/// A raw input event, reduced to what the tracker distinguishes.
/// Key strokes, wheel motion and the like all arrive as `Discarded`.
#[derive(Clone, Copy, PartialEq, Eq, Structural, Debug)]
pub enum InputEvent {
    /// The pointer moved to an absolute position; the fields hold the
    /// IEEE 754 encodings of its coordinates.
    MouseMove { x: u64, y: u64 },
    ButtonPress { button: MouseButton },
    ButtonRelease { button: MouseButton },
    Discarded,
}

/// One record destined for the click log. The coordinates are those of
/// the pointer position last seen before the click, and the timestamp
/// is the encoding of the wall-clock instant, in seconds since the Unix
/// epoch, at which the click was classified.
#[derive(Clone, Copy, PartialEq, Eq, Structural, Debug)]
pub struct LoggedEvent {
    pub x: u64,
    pub y: u64,
    pub timestamp: u64,
}

/// Whether an event is a left-button press or release — the two
/// transitions that record and log a click.
pub open spec fn is_left_click(e: InputEvent) -> bool {
    ||| e matches InputEvent::ButtonPress { button: MouseButton::Left }
    ||| e matches InputEvent::ButtonRelease { button: MouseButton::Left }
}

/// The state after one event: a move overwrites `last_move`, a
/// left-button transition copies `last_move` into `last_click`, and
/// every other event leaves the state as it was.
pub open spec fn step(s: MouseState, e: InputEvent) -> MouseState {
    match e {
        InputEvent::MouseMove { x, y } => MouseState {
            last_click: s.last_click,
            last_move: PointerSample { x, y },
        },
        _ => {
            if is_left_click(e) {
                MouseState { last_click: s.last_move, last_move: s.last_move }
            } else {
                s
            }
        },
    }
}

/// The record an event yields for the log: left-button transitions
/// yield one, stamped with the pointer position stored before the
/// event; nothing else yields any.
pub open spec fn emitted(s: MouseState, e: InputEvent, timestamp: u64) -> Option<LoggedEvent> {
    if is_left_click(e) {
        Some(LoggedEvent { x: s.last_move.x, y: s.last_move.y, timestamp })
    } else {
        None
    }
}

/// The state after a whole sequence of events, delivered in order.
pub open spec fn state_after(s: MouseState, events: Seq<InputEvent>) -> MouseState
    decreases events.len(),
{
    if events.len() == 0 {
        s
    } else {
        step(state_after(s, events.drop_last()), events.last())
    }
}

/// Classify one event: update the state and return the record to log,
/// if the event calls for one. `timestamp` is the encoded wall-clock
/// instant the caller read for this event.
pub fn handle_event(state: &mut MouseState, event: InputEvent, timestamp: u64) -> (r: Option<
    LoggedEvent,
>)
    ensures
        *final(state) == step(*old(state), event),
        r == emitted(*old(state), event, timestamp),
{
    match event {
        InputEvent::MouseMove { x, y } => {
            state.update_move(x, y);
            None
        },
        InputEvent::ButtonPress { button: MouseButton::Left } | InputEvent::ButtonRelease {
            button: MouseButton::Left,
        } => {
            let position = state.get_last_move();
            state.update_click(position.x, position.y);
            Some(LoggedEvent { x: position.x, y: position.y, timestamp })
        },
        _ => None,
    }
}

/// After any non-empty run of pointer moves, the stored position is
/// exactly the coordinates of the last move, no matter how many moves
/// came before it; the stored click position is untouched throughout.
pub proof fn lemma_moves_set_position(s: MouseState, events: Seq<InputEvent>)
    requires
        events.len() > 0,
        forall|i: int| 0 <= i < events.len() ==> events[i] is MouseMove,
    ensures
        state_after(s, events).last_move == (PointerSample {
            x: events.last()->MouseMove_x,
            y: events.last()->MouseMove_y,
        }),
        state_after(s, events).last_click == s.last_click,
    decreases events.len(),
{
    let rest = events.drop_last();
    assert(events.last() == events[events.len() - 1]);
    if events.len() == 1 {
        assert(rest.len() == 0);
        assert(state_after(s, rest) == s);
    } else {
        assert(forall|i: int| 0 <= i < rest.len() ==> rest[i] == events[i]);
        lemma_moves_set_position(s, rest);
    }
    assert(state_after(s, events) == step(state_after(s, rest), events.last()));
}

/// A click is recorded at the pointer position stored immediately
/// before the press or release is classified — never at a coordinate
/// carried by the button event itself (the model gives button events no
/// coordinates to carry).
pub proof fn lemma_click_uses_latest_position(
    s: MouseState,
    events: Seq<InputEvent>,
    i: int,
    timestamp: u64,
)
    requires
        0 <= i < events.len(),
        is_left_click(events[i]),
    ensures
        emitted(state_after(s, events.take(i)), events[i], timestamp) == Some(LoggedEvent {
            x: state_after(s, events.take(i)).last_move.x,
            y: state_after(s, events.take(i)).last_move.y,
            timestamp,
        }),
        state_after(s, events.take(i + 1)).last_click == state_after(
            s,
            events.take(i),
        ).last_move,
{
    assert(events.take(i + 1).drop_last() =~= events.take(i));
    assert(events.take(i + 1).last() == events[i]);
}

/// A left press followed at once by its release yields two records,
/// and both carry the same coordinates: the pointer position stored
/// before the press.
pub proof fn lemma_press_release_logs_twice(s: MouseState, ts_press: u64, ts_release: u64)
    ensures
        emitted(s, InputEvent::ButtonPress { button: MouseButton::Left }, ts_press) == Some(
            LoggedEvent { x: s.last_move.x, y: s.last_move.y, timestamp: ts_press },
        ),
        emitted(
            step(s, InputEvent::ButtonPress { button: MouseButton::Left }),
            InputEvent::ButtonRelease { button: MouseButton::Left },
            ts_release,
        ) == Some(LoggedEvent { x: s.last_move.x, y: s.last_move.y, timestamp: ts_release }),
{
}

} // verus!
