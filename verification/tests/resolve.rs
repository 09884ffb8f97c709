use bevy_tween::span_tween::{resolve, resolve_state, DurationQuotient, TimeBound, TweenTimeSpan};
use bevy_tween::time::Duration;
use bevy_tween::tween::TweenState;
use bevy_tween::tween_timer::{AnimationDirection, Elapsed, Repeat, RepeatStyle, TickResult, TweenTimer};

use AnimationDirection::{Backward, Forward};
use DurationQuotient::{After, Before, Inside};
use RepeatStyle::{PingPong, WrapAround};

fn ms(millis: u64) -> Duration {
    Duration::from_millis(millis)
}

/// The span `[2s, 4s)`, whose tween has a clock of two seconds.
fn span() -> TweenTimeSpan {
    TweenTimeSpan::try_from(ms(2000)..ms(4000)).unwrap()
}

/// An instant with the given place relative to `span()`.
fn instant(place: DurationQuotient) -> Duration {
    match place {
        Before => ms(500),
        Inside => ms(2500),
        After => ms(5000),
    }
}

/// What the clock of a tween of `span()` shows at `instant(place)`.
fn clock(place: DurationQuotient) -> Duration {
    match place {
        Before => Duration::zero(),
        Inside => ms(500),
        After => ms(2000),
    }
}

fn sample(
    previous: DurationQuotient,
    now: DurationQuotient,
    repeat_style: Option<RepeatStyle>,
) -> Elapsed {
    Elapsed { now: instant(now), previous: instant(previous), repeat_style }
}

fn resolved(
    direction: AnimationDirection,
    previous: DurationQuotient,
    now: DurationQuotient,
    repeat_style: Option<RepeatStyle>,
) -> Option<Duration> {
    resolve(&span(), &sample(previous, now, repeat_style), direction)
}

#[test]
fn the_instants_have_their_places() {
    for place in [Before, Inside, After] {
        assert_eq!(span().quotient(instant(place)), place);
        assert_eq!(span().local_elapsed(instant(place)), clock(place));
    }
}

#[test]
fn without_repeat_a_timer_that_moves_on_resolves() {
    assert_eq!(resolved(Forward, Inside, Inside, None), Some(clock(Inside)));
    assert_eq!(resolved(Backward, Inside, Inside, None), Some(clock(Inside)));

    assert_eq!(resolved(Forward, Before, Inside, None), Some(clock(Inside)));
    assert_eq!(resolved(Forward, Inside, After, None), Some(clock(After)));
    assert_eq!(resolved(Forward, Before, After, None), Some(clock(After)));

    assert_eq!(resolved(Backward, After, Inside, None), Some(clock(Inside)));
    assert_eq!(resolved(Backward, Inside, Before, None), Some(clock(Before)));
    assert_eq!(resolved(Backward, After, Before, None), Some(clock(Before)));
}

#[test]
fn without_repeat_nothing_else_resolves() {
    assert_eq!(resolved(Forward, Before, Before, None), None);
    assert_eq!(resolved(Forward, After, After, None), None);
    assert_eq!(resolved(Forward, Inside, Before, None), None);
    assert_eq!(resolved(Forward, After, Inside, None), None);
    assert_eq!(resolved(Forward, After, Before, None), None);

    assert_eq!(resolved(Backward, Before, Before, None), None);
    assert_eq!(resolved(Backward, After, After, None), None);
    assert_eq!(resolved(Backward, Before, Inside, None), None);
    assert_eq!(resolved(Backward, Inside, After, None), None);
    assert_eq!(resolved(Backward, Before, After, None), None);
}

#[test]
fn wrapping_forward() {
    let wrap = Some(WrapAround);
    // Played to the end before the timer started over.
    assert_eq!(resolved(Forward, Before, Before, wrap), Some(ms(2000)));
    assert_eq!(resolved(Forward, Inside, Before, wrap), Some(ms(2000)));
    // Not reached on either side of the wrap.
    assert_eq!(resolved(Forward, After, Before, wrap), None);

    assert_eq!(resolved(Forward, Before, Inside, wrap), Some(clock(Inside)));
    assert_eq!(resolved(Forward, Before, After, wrap), Some(clock(After)));
    assert_eq!(resolved(Forward, Inside, Inside, wrap), Some(clock(Inside)));
    assert_eq!(resolved(Forward, Inside, After, wrap), Some(clock(After)));
    assert_eq!(resolved(Forward, After, Inside, wrap), Some(clock(Inside)));
    assert_eq!(resolved(Forward, After, After, wrap), Some(clock(After)));
}

#[test]
fn wrapping_backward() {
    let wrap = Some(WrapAround);
    // Played back to the start before the timer started over.
    assert_eq!(resolved(Backward, After, After, wrap), Some(Duration::zero()));
    assert_eq!(resolved(Backward, Inside, After, wrap), Some(Duration::zero()));
    // Not reached on either side of the wrap.
    assert_eq!(resolved(Backward, Before, After, wrap), None);

    assert_eq!(resolved(Backward, Before, Before, wrap), Some(clock(Before)));
    assert_eq!(resolved(Backward, Before, Inside, wrap), Some(clock(Inside)));
    assert_eq!(resolved(Backward, Inside, Before, wrap), Some(clock(Before)));
    assert_eq!(resolved(Backward, Inside, Inside, wrap), Some(clock(Inside)));
    assert_eq!(resolved(Backward, After, Before, wrap), Some(clock(Before)));
    assert_eq!(resolved(Backward, After, Inside, wrap), Some(clock(Inside)));
}

#[test]
fn turning_around() {
    let turn = Some(PingPong);
    for previous in [Before, Inside, After] {
        for now in [Before, Inside, After] {
            let forward = if previous == Before && now == Before {
                None
            } else {
                Some(clock(now))
            };
            assert_eq!(resolved(Forward, previous, now, turn), forward);

            let backward = if previous == After && now == After {
                None
            } else {
                Some(clock(now))
            };
            assert_eq!(resolved(Backward, previous, now, turn), backward);
        }
    }
}

#[test]
fn what_resolves_is_within_the_span() {
    let span = span();
    let instants = [Duration::zero(), ms(1999), ms(2000), ms(3999), ms(4000), ms(9000)];
    for direction in [Forward, Backward] {
        for style in [None, Some(WrapAround), Some(PingPong)] {
            for previous in instants {
                for now in instants {
                    let elapsed = Elapsed { now, previous, repeat_style: style };
                    if let Some(local) = resolve(&span, &elapsed, direction) {
                        assert!(local.as_nanos() <= span.length().as_nanos());
                    }
                }
            }
        }
    }
}

#[test]
fn resolve_state_replaces_the_state() {
    let state = TweenState {
        local_elapsed: Some(ms(100)),
        local_previous_elapsed: Some(ms(50)),
        local_end: ms(7),
        direction: Backward,
    };
    let new_state = resolve_state(&span(), &state, &sample(Inside, Inside, None), Forward);
    assert_eq!(
        new_state,
        TweenState {
            local_elapsed: Some(ms(500)),
            local_previous_elapsed: Some(ms(100)),
            local_end: ms(2000),
            direction: Forward,
        }
    );
}

#[test]
fn resolve_state_keeps_the_state_of_a_span_that_is_not_concerned() {
    let state = TweenState {
        local_elapsed: Some(ms(2000)),
        local_previous_elapsed: Some(ms(1500)),
        local_end: ms(2000),
        direction: Forward,
    };
    let new_state = resolve_state(&span(), &state, &sample(After, After, None), Forward);
    assert_eq!(new_state, state);
    let fresh = TweenState::default();
    let new_state = resolve_state(&span(), &fresh, &sample(Before, Before, None), Forward);
    assert_eq!(new_state, fresh);
}

#[test]
fn monotonic_forward_playback_without_repeat() {
    let span = TweenTimeSpan::try_from(Duration::from_secs(1)..Duration::from_secs(3)).unwrap();
    let mut timer = TweenTimer::new(Duration::from_secs(5));
    let mut state = TweenState::default();

    // Before any tick nothing is resolved.
    assert_eq!(resolve(&span, &timer.elapsed(), timer.direction), None);
    assert_eq!(state.local_elapsed, None);

    let expected = [
        (TickResult::Continue, Some(Duration::zero()), Some(Duration::zero())),
        (TickResult::Continue, Some(Duration::from_secs(1)), Some(Duration::from_secs(1))),
        (TickResult::Continue, Some(Duration::from_secs(2)), Some(Duration::from_secs(2))),
        // The timer is past the span: the tick does not concern it, and
        // what was resolved before stays.
        (TickResult::Continue, None, Some(Duration::from_secs(2))),
        (TickResult::AllDone, None, Some(Duration::from_secs(2))),
    ];
    for (tick_result, resolved, local_elapsed) in expected {
        let direction = timer.direction;
        assert_eq!(timer.tick(Duration::from_secs(1), direction), tick_result);
        assert_eq!(resolve(&span, &timer.elapsed(), timer.direction), resolved);
        state = resolve_state(&span, &state, &timer.elapsed(), timer.direction);
        assert_eq!(state.local_elapsed, local_elapsed);
        assert_eq!(state.local_end, Duration::from_secs(2));
        assert_eq!(state.direction, Forward);
    }
    assert_eq!(state.local_previous_elapsed, Some(Duration::from_secs(1)));
}

#[test]
fn wrap_around_skips_a_short_span() {
    let span = TweenTimeSpan::try_from(ms(100)..ms(200)).unwrap();
    let mut timer = TweenTimer::new(Duration::from_secs(1));
    timer.set_repeat(Some(Repeat::infinitely()));
    timer.set_repeat_style(Some(WrapAround));

    assert_eq!(timer.tick(ms(1500), Forward), TickResult::Repeated);
    assert_eq!(
        timer.elapsed(),
        Elapsed { now: ms(500), previous: Duration::zero(), repeat_style: Some(WrapAround) }
    );
    assert_eq!(resolve(&span, &timer.elapsed(), timer.direction), Some(ms(100)));

    // From past the span over the wrap to short of it.
    let mut timer = TweenTimer::new(Duration::from_secs(1));
    timer.set_repeat(Some(Repeat::infinitely()));
    timer.elapsed.now = ms(50);
    assert_eq!(timer.tick(ms(1000), Forward), TickResult::Repeated);
    assert_eq!(timer.elapsed().now, ms(50));
    assert_eq!(resolve(&span, &timer.elapsed(), timer.direction), Some(ms(100)));

    // The same backward: the tween is played back to its start.
    let mut timer = TweenTimer::new(Duration::from_secs(1));
    timer.set_direction(Backward);
    timer.set_repeat(Some(Repeat::infinitely()));
    timer.elapsed.now = ms(500);
    assert_eq!(timer.tick(ms(1000), Backward), TickResult::Repeated);
    assert_eq!(timer.elapsed().now, ms(500));
    assert_eq!(resolve(&span, &timer.elapsed(), timer.direction), Some(Duration::zero()));
}

#[test]
fn ping_pong_flips_the_direction_at_the_boundary() {
    let span = TweenTimeSpan::try_from(..=Duration::from_secs(1)).unwrap();
    let mut timer = TweenTimer::new(Duration::from_secs(1));
    timer.set_repeat(Some(Repeat::infinitely()));
    timer.set_repeat_style(Some(PingPong));
    let mut state = TweenState::default();

    let direction = timer.direction;
    assert_eq!(timer.tick(ms(900), direction), TickResult::Continue);
    state = resolve_state(&span, &state, &timer.elapsed(), timer.direction);
    assert_eq!(state.local_elapsed, Some(ms(900)));
    assert_eq!(state.direction, Forward);

    let direction = timer.direction;
    assert_eq!(timer.tick(ms(300), direction), TickResult::Repeated);
    assert_eq!(timer.direction, Backward);
    assert_eq!(resolve(&span, &timer.elapsed(), timer.direction), Some(ms(800)));
    state = resolve_state(&span, &state, &timer.elapsed(), timer.direction);
    assert_eq!(
        state,
        TweenState {
            local_elapsed: Some(ms(800)),
            local_previous_elapsed: Some(ms(900)),
            local_end: Duration::from_secs(1),
            direction: Backward,
        }
    );

    // And back again at the start of the timeline.
    let direction = timer.direction;
    assert_eq!(timer.tick(ms(1000), direction), TickResult::Repeated);
    assert_eq!(timer.direction, Forward);
    state = resolve_state(&span, &state, &timer.elapsed(), timer.direction);
    assert_eq!(state.local_elapsed, Some(ms(200)));
    assert_eq!(state.direction, Forward);
}

#[test]
fn a_tick_into_a_span_always_resolves() {
    let spans = [
        TweenTimeSpan::try_from(ms(100)..ms(200)).unwrap(),
        TweenTimeSpan::try_from(..=ms(1000)).unwrap(),
        TweenTimeSpan::try_from(ms(400)..=ms(400)).unwrap(),
        TweenTimeSpan::new(TimeBound::Exclusive(ms(300)), TimeBound::Exclusive(ms(900))).unwrap(),
    ];
    for style in [None, Some(WrapAround), Some(PingPong)] {
        for start in [Forward, Backward] {
            let mut timer = TweenTimer::new(ms(1000));
            timer.set_direction(start);
            if style.is_some() {
                timer.set_repeat(Some(Repeat::infinitely()));
            }
            timer.set_repeat_style(style);
            for step in 0..60u64 {
                if timer.is_all_done() {
                    break;
                }
                let direction = timer.direction;
                timer.tick(ms(40 + 37 * step), direction);
                for span in spans {
                    let now = timer.elapsed().now;
                    if span.quotient(now) == Inside {
                        assert_eq!(
                            resolve(&span, &timer.elapsed(), timer.direction),
                            Some(span.local_elapsed(now))
                        );
                    }
                }
            }
        }
    }
}
