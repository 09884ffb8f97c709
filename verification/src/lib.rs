//! Span tweening: a playback timer drives any number of tweens, each of which
//! is played during its own span of the timer's timeline.
//!
//! Every frame the timer of each player is ticked, and each tween that the
//! player owns is told what its own clock shows now. The library works on
//! plain values that a host reads from its entities and stores again; it
//! keeps no world of its own. All times are whole nanoseconds.
//!
//! * [`time`]: lengths of time.
//! * [`tween_timer`]: the timer of a player, with its repeats.
//! * [`tween`]: the state that a tween carries from frame to frame.
//! * [`span_tween`]: time spans, what a tween shows after a tick, and the
//!   system that plays the players.

pub mod span_tween;
pub mod time;
pub mod tween;
pub mod tween_timer;
