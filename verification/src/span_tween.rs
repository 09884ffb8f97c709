//! Tween players that play tweens by time span.
//!
//! A span tween player owns a timer. The tweens that it plays are the tween
//! of its own entity and those of its children, each with a
//! [`TweenTimeSpan`]: the stretch of the timer's timeline during which the
//! tween is played. Every frame [`span_tween_player_system`] ticks the timers
//! and tells each tween how far it has come.

pub mod player;
pub mod resolve;
pub mod time_span;

pub use self::player::{
    span_tween_player_system, SpanTweenBundle, SpanTweenChild, SpanTweenPlayer,
    SpanTweenPlayerBundle, SpanTweenPlayerEnded, SpanTweenPlayerEntity,
};
pub use self::resolve::{resolve, resolve_state};
pub use self::time_span::{DurationQuotient, NewTweenTimeSpanError, TimeBound, TweenTimeSpan};
