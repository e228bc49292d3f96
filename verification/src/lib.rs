//! A verified core for a global mouse-input tracker.
//!
//! The library keeps the most recently observed pointer position and
//! left-click position, classifies raw input events, and frames click
//! records as single-line JSON text for an append-only log. The
//! operating-system hook, the listener thread, the wall clock, and the
//! log file itself live outside this crate; they exchange plain values
//! with the functions here.
//!
//! Coordinates and timestamps are carried as the 64-bit IEEE 754
//! encodings of the values the host reports. The tracker never
//! interprets them arithmetically, so the encoding is opaque here; the
//! process boundary encodes and decodes them.

pub mod events;
pub mod logline;
pub mod state;
pub mod tracker;
