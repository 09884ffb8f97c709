//! What a tween shows after a tick of its player's timer.
//!
//! A tick may be long against a span: a short tween, or a frame that took
//! its time. So it is not enough to ask whether the timer is inside the span
//! now. A span that a tick skipped has still been played, and its tween has
//! to show the end that the timer left it by.

use crate::span_tween::time_span::DurationQuotient::{After, Before, Inside};
use crate::span_tween::time_span::{
    lemma_quotient_is_monotonic, DurationQuotient, TweenTimeSpan,
};
use crate::time::Duration;
use crate::tween::TweenState;
use crate::tween_timer::AnimationDirection::{Backward, Forward};
use crate::tween_timer::RepeatStyle::{PingPong, WrapAround};
use crate::tween_timer::{AnimationDirection, Elapsed, TweenTimer};
use vstd::prelude::*;

verus! {

/// The place of the timer relative to a span that play towards `direction`
/// has yet to reach.
pub open spec fn ahead_of(direction: AnimationDirection) -> DurationQuotient {
    match direction {
        Forward => Before,
        Backward => After,
    }
}

/// The place of the timer relative to a span that play towards `direction`
/// has left behind.
pub open spec fn past(direction: AnimationDirection) -> DurationQuotient {
    match direction {
        Forward => After,
        Backward => Before,
    }
}

/// Whether a timer that plays towards `direction` gets from `previous` to
/// `now` by moving on: into the span, out of it, or past it.
pub open spec fn moves_on(
    direction: AnimationDirection,
    previous: DurationQuotient,
    now: DurationQuotient,
) -> bool {
    ||| previous == ahead_of(direction) && now != ahead_of(direction)
    ||| previous is Inside && now == past(direction)
}

/// What a tween of `span` shows after a tick that left the timer's elapsed
/// time as `elapsed` and its direction as `direction`; `None` where the tick
/// does not concern the span.
///
/// * A tick without repetition concerns the span where the timer stays
///   inside of it or moves on into, out of or past it. The tween then shows
///   its clock at the timer's time.
/// * A tick that wrapped around and landed where the span is yet to be
///   reached again concerns the span unless the timer had left it behind
///   before: the tween was played to its end, which for forward play is the
///   span's length and for backward play is zero. Where the timer landed
///   inside of the span or beyond it, the tween shows its clock at the
///   timer's time.
/// * A tick that turned around, after which `direction` is the new
///   direction, concerns the span unless both the old and the new time have
///   yet to reach it. The tween then shows its clock at the timer's time.
pub open spec fn spec_resolve(
    span: TweenTimeSpan,
    elapsed: Elapsed,
    direction: AnimationDirection,
) -> Option<Duration> {
    let previous = span.spec_quotient(elapsed.previous);
    let now = span.spec_quotient(elapsed.now);
    let at_now = Some(Duration::spec_from_nanos(span.spec_local_elapsed(elapsed.now)));
    match elapsed.repeat_style {
        None => if (previous is Inside && now is Inside) || moves_on(direction, previous, now) {
            at_now
        } else {
            None
        },
        Some(WrapAround) => if now != ahead_of(direction) {
            at_now
        } else if previous == past(direction) {
            None
        } else {
            Some(
                match direction {
                    Forward => Duration::spec_from_nanos(span.spec_length()),
                    Backward => Duration { nanos: 0 },
                },
            )
        },
        Some(PingPong) => if previous == ahead_of(direction) && now == ahead_of(direction) {
            None
        } else {
            at_now
        },
    }
}

/// The state of a tween of `span` after a tick that left the timer's elapsed
/// time as `elapsed` and its direction as `direction`.
///
/// A tick that concerns the span replaces the whole state. Any other tick
/// leaves the state as it was.
pub open spec fn spec_resolve_state(
    span: TweenTimeSpan,
    state: TweenState,
    elapsed: Elapsed,
    direction: AnimationDirection,
) -> TweenState {
    match spec_resolve(span, elapsed, direction) {
        Some(local_elapsed) => TweenState {
            local_elapsed: Some(local_elapsed),
            local_previous_elapsed: state.local_elapsed,
            local_end: Duration::spec_from_nanos(span.spec_length()),
            direction,
        },
        None => state,
    }
}

/// Find out what a tween of `span` shows after a tick that left the timer's
/// elapsed time as `elapsed` and its direction as `direction`.
///
/// The answer accounts for ticks that are long against the span: a span that
/// a tick skips is still played to its end.
pub fn resolve(span: &TweenTimeSpan, elapsed: &Elapsed, direction: AnimationDirection) -> (r:
    Option<Duration>)
    ensures
        r == spec_resolve(*span, *elapsed, direction),
        r matches Some(local_elapsed) ==> local_elapsed@ <= span.spec_length(),
{
    let elapsed_quotient = span.quotient(elapsed.now);
    let previous_quotient = span.quotient(elapsed.previous);

    let tween_min = Duration::zero();
    let tween_max = span.length();
    let tween_elapsed = span.local_elapsed(elapsed.now);
    match (direction, previous_quotient, elapsed_quotient, elapsed.repeat_style) {
        (_, Inside, Inside, None) => Some(tween_elapsed),
        // -------------------------------------------------------
        | (Forward, Before, Inside, None)
        | (Forward, Inside, After, None)
        | (Forward, Before, After, None) => Some(tween_elapsed),
        // -------------------------------------------------------
        | (Backward, After, Inside, None)
        | (Backward, Inside, Before, None)
        | (Backward, After, Before, None) => Some(tween_elapsed),
        // -------------------------------------------------------
        | (Forward, Before, Before, Some(WrapAround))
        | (Forward, Inside, Before, Some(WrapAround)) => Some(tween_max),
        | (Forward, Before, Inside, Some(WrapAround))
        | (Forward, Before, After, Some(WrapAround))
        | (Forward, Inside, Inside, Some(WrapAround))
        | (Forward, Inside, After, Some(WrapAround))
        | (Forward, After, Inside, Some(WrapAround))
        | (Forward, After, After, Some(WrapAround)) => Some(tween_elapsed),
        // -------------------------------------------------------
        | (Backward, After, After, Some(WrapAround))
        | (Backward, Inside, After, Some(WrapAround)) => Some(tween_min),
        | (Backward, Before, Before, Some(WrapAround))
        | (Backward, Before, Inside, Some(WrapAround))
        | (Backward, Inside, Before, Some(WrapAround))
        | (Backward, Inside, Inside, Some(WrapAround))
        | (Backward, After, Before, Some(WrapAround))
        | (Backward, After, Inside, Some(WrapAround)) => Some(tween_elapsed),
        // -------------------------------------------------------
        | (Backward, Before, Before, Some(PingPong))
        | (Backward, Before, Inside, Some(PingPong))
        | (Backward, Before, After, Some(PingPong))
        | (Backward, Inside, Before, Some(PingPong))
        | (Backward, Inside, Inside, Some(PingPong))
        | (Backward, Inside, After, Some(PingPong))
        | (Backward, After, Before, Some(PingPong))
        | (Backward, After, Inside, Some(PingPong)) => Some(tween_elapsed),
        // -------------------------------------------------------
        | (Forward, Before, Inside, Some(PingPong))
        | (Forward, Before, After, Some(PingPong))
        | (Forward, Inside, Before, Some(PingPong))
        | (Forward, Inside, Inside, Some(PingPong))
        | (Forward, Inside, After, Some(PingPong))
        | (Forward, After, Before, Some(PingPong))
        | (Forward, After, Inside, Some(PingPong))
        | (Forward, After, After, Some(PingPong)) => Some(tween_elapsed),
        _ => None,
    }
}

/// Bring the state of a tween of `span` up to date after a tick that left the
/// timer's elapsed time as `elapsed` and its direction as `direction`.
pub fn resolve_state(
    span: &TweenTimeSpan,
    state: &TweenState,
    elapsed: &Elapsed,
    direction: AnimationDirection,
) -> (new_state: TweenState)
    ensures
        new_state == spec_resolve_state(*span, *state, *elapsed, direction),
{
    match resolve(span, elapsed, direction) {
        Some(new_tween_elapsed) => TweenState {
            local_elapsed: Some(new_tween_elapsed),
            local_previous_elapsed: state.local_elapsed,
            local_end: span.length(),
            direction,
        },
        None => *state,
    }
}

/// Whatever the timer's tick, a tween whose span the timer is inside of
/// afterwards shows its clock at the timer's time.
///
/// This holds of every timer that is not all done, of every tick in the
/// timer's own direction and of every span.
pub proof fn lemma_tick_into_span_resolves(timer: TweenTimer, delta: Duration, span: TweenTimeSpan)
    requires
        span.valid(),
        !timer.spec_is_all_done(),
    ensures
        ({
            let after = timer.spec_tick(delta, timer.direction);
            span.spec_quotient(after.elapsed.now) is Inside ==> spec_resolve(
                span,
                after.elapsed,
                after.direction,
            ) == Some(Duration::spec_from_nanos(span.spec_local_elapsed(after.elapsed.now)))
        }),
{
    let after = timer.spec_tick(delta, timer.direction);
    if after.elapsed.repeat_style is None {
        match timer.direction {
            Forward => lemma_quotient_is_monotonic(span, after.elapsed.previous, after.elapsed.now),
            Backward => lemma_quotient_is_monotonic(
                span,
                after.elapsed.now,
                after.elapsed.previous,
            ),
        }
    }
}

/// A tick that does not make the timer repeat concerns every span but those
/// that lie wholly on one side of both the old and the new time.
///
/// This holds of every timer that is not all done, of every tick in the
/// timer's own direction and of every span.
pub proof fn lemma_tick_without_repeat_resolves(
    timer: TweenTimer,
    delta: Duration,
    span: TweenTimeSpan,
)
    requires
        span.valid(),
        !timer.spec_is_all_done(),
        timer.spec_tick(delta, timer.direction).elapsed.repeat_style is None,
    ensures
        ({
            let after = timer.spec_tick(delta, timer.direction);
            let previous = span.spec_quotient(after.elapsed.previous);
            let now = span.spec_quotient(after.elapsed.now);
            spec_resolve(span, after.elapsed, after.direction) is None <==> (previous is Before
                && now is Before) || (previous is After && now is After)
        }),
{
    let after = timer.spec_tick(delta, timer.direction);
    match timer.direction {
        Forward => lemma_quotient_is_monotonic(span, after.elapsed.previous, after.elapsed.now),
        Backward => lemma_quotient_is_monotonic(span, after.elapsed.now, after.elapsed.previous),
    }
}

/// What a tween shows is never more than the length of its span.
pub proof fn lemma_resolve_within_span(
    span: TweenTimeSpan,
    elapsed: Elapsed,
    direction: AnimationDirection,
)
    requires
        span.valid(),
    ensures
        spec_resolve(span, elapsed, direction) matches Some(local_elapsed) ==> local_elapsed@
            <= span.spec_length(),
{
}

} // verus!
