use bevy_tween::span_tween::{DurationQuotient, NewTweenTimeSpanError, TimeBound, TweenTimeSpan};
use bevy_tween::time::Duration;

fn secs(secs: u64) -> Duration {
    Duration::from_secs(secs)
}

#[test]
fn duration_counts_nanoseconds() {
    assert_eq!(Duration::zero().as_nanos(), 0);
    assert_eq!(Duration::from_nanos(17).as_nanos(), 17);
    assert_eq!(Duration::from_millis(1500).as_nanos(), 1_500_000_000);
    assert_eq!(Duration::from_secs(2).as_nanos(), 2_000_000_000);
    assert_eq!(Duration::from_secs(1), Duration::from_millis(1000));
    assert_eq!(
        Duration::from_secs(u64::MAX).as_nanos(),
        18_446_744_073_709_551_615_000_000_000
    );
}

#[test]
fn duration_saturating_sub_stops_at_zero() {
    assert_eq!(secs(3).saturating_sub(secs(1)), secs(2));
    assert_eq!(secs(1).saturating_sub(secs(1)), Duration::zero());
    assert_eq!(secs(1).saturating_sub(secs(3)), Duration::zero());
}

#[test]
fn duration_min_is_the_shorter() {
    assert_eq!(secs(3).min(secs(1)), secs(1));
    assert_eq!(secs(1).min(secs(3)), secs(1));
    assert_eq!(secs(2).min(secs(2)), secs(2));
}

#[test]
fn time_bound_duration_ignores_the_kind() {
    assert_eq!(TimeBound::Inclusive(secs(4)).duration(), secs(4));
    assert_eq!(TimeBound::Exclusive(secs(4)).duration(), secs(4));
    assert_eq!(TimeBound::default(), TimeBound::Inclusive(Duration::zero()));
}

#[test]
fn new_accepts_ordered_bounds() {
    let min = TimeBound::Inclusive(secs(1));
    let max = TimeBound::Exclusive(secs(3));
    let span = TweenTimeSpan::new(min, max).unwrap();
    assert_eq!(span.min(), min);
    assert_eq!(span.max(), max);
}

#[test]
fn new_accepts_one_instant_unless_both_bounds_exclude_it() {
    let t = secs(2);
    assert!(TweenTimeSpan::new(TimeBound::Inclusive(t), TimeBound::Inclusive(t)).is_ok());
    assert!(TweenTimeSpan::new(TimeBound::Inclusive(t), TimeBound::Exclusive(t)).is_ok());
    assert!(TweenTimeSpan::new(TimeBound::Exclusive(t), TimeBound::Inclusive(t)).is_ok());
    assert!(TweenTimeSpan::new(TimeBound::Exclusive(t), TimeBound::Exclusive(t)).is_err());
}

#[test]
fn new_rejects_exclusive_bounds_at_one_instant() {
    let b = TimeBound::Exclusive(secs(2));
    assert_eq!(
        TweenTimeSpan::new(b, b),
        Err(NewTweenTimeSpanError::NotTime { min: b, max: b })
    );
}

#[test]
fn new_rejects_min_after_max() {
    for (min, max) in [
        (TimeBound::Inclusive(secs(3)), TimeBound::Inclusive(secs(1))),
        (TimeBound::Inclusive(secs(3)), TimeBound::Exclusive(secs(1))),
        (TimeBound::Exclusive(secs(3)), TimeBound::Inclusive(secs(1))),
        (TimeBound::Exclusive(secs(3)), TimeBound::Exclusive(secs(1))),
    ] {
        assert_eq!(
            TweenTimeSpan::new(min, max),
            Err(NewTweenTimeSpanError::MinGreaterThanMax { min, max })
        );
    }
}

#[test]
fn new_succeeds_exactly_on_bounds_that_hold_time() {
    let instants = [0u64, 1, 2];
    for a in instants {
        for b in instants {
            for min_inclusive in [true, false] {
                for max_inclusive in [true, false] {
                    let min = if min_inclusive {
                        TimeBound::Inclusive(secs(a))
                    } else {
                        TimeBound::Exclusive(secs(a))
                    };
                    let max = if max_inclusive {
                        TimeBound::Inclusive(secs(b))
                    } else {
                        TimeBound::Exclusive(secs(b))
                    };
                    let no_time = !min_inclusive && !max_inclusive && a == b;
                    let expected = !no_time && a <= b;
                    assert_eq!(TweenTimeSpan::new(min, max).is_ok(), expected);
                }
            }
        }
    }
}

#[test]
fn error_message_names_the_bounds() {
    let b = TimeBound::Exclusive(secs(2));
    let not_time = TweenTimeSpan::new(b, b).unwrap_err();
    assert_eq!(
        not_time.message(),
        "This span does not contain any time: min Exclusive(Duration { nanos: 2000000000 }) \
         max Exclusive(Duration { nanos: 2000000000 })"
    );
    let inverted =
        TweenTimeSpan::new(TimeBound::Inclusive(secs(3)), TimeBound::Exclusive(secs(1)))
            .unwrap_err();
    assert_eq!(
        inverted.message(),
        "This span has min greater than max: min Inclusive(Duration { nanos: 3000000000 }) \
         max Exclusive(Duration { nanos: 1000000000 })"
    );
}

#[test]
fn error_message_with_given_texts() {
    let b = TimeBound::Exclusive(secs(2));
    let not_time = NewTweenTimeSpanError::NotTime { min: b, max: b };
    assert_eq!(
        not_time.message_with("a", "b"),
        "This span does not contain any time: min a max b"
    );
    let inverted = NewTweenTimeSpanError::MinGreaterThanMax { min: b, max: b };
    assert_eq!(
        inverted.message_with("", "later"),
        "This span has min greater than max: min  max later"
    );
}

#[test]
fn quotient_of_half_open_span() {
    let span = TweenTimeSpan::try_from(secs(1)..secs(3)).unwrap();
    assert_eq!(span.quotient(Duration::zero()), DurationQuotient::Before);
    assert_eq!(span.quotient(Duration::from_millis(999)), DurationQuotient::Before);
    assert_eq!(span.quotient(secs(1)), DurationQuotient::Inside);
    assert_eq!(span.quotient(secs(2)), DurationQuotient::Inside);
    assert_eq!(span.quotient(Duration::from_millis(2999)), DurationQuotient::Inside);
    assert_eq!(span.quotient(secs(3)), DurationQuotient::After);
    assert_eq!(span.quotient(secs(4)), DurationQuotient::After);
}

#[test]
fn quotient_of_closed_span() {
    let span = TweenTimeSpan::try_from(secs(1)..=secs(3)).unwrap();
    assert_eq!(span.quotient(Duration::from_millis(999)), DurationQuotient::Before);
    assert_eq!(span.quotient(secs(1)), DurationQuotient::Inside);
    assert_eq!(span.quotient(secs(3)), DurationQuotient::Inside);
    assert_eq!(span.quotient(Duration::from_millis(3001)), DurationQuotient::After);
}

#[test]
fn quotient_of_open_span() {
    let span =
        TweenTimeSpan::new(TimeBound::Exclusive(secs(1)), TimeBound::Exclusive(secs(3))).unwrap();
    assert_eq!(span.quotient(secs(1)), DurationQuotient::Before);
    assert_eq!(span.quotient(Duration::from_millis(1001)), DurationQuotient::Inside);
    assert_eq!(span.quotient(Duration::from_millis(2999)), DurationQuotient::Inside);
    assert_eq!(span.quotient(secs(3)), DurationQuotient::After);
}

#[test]
fn quotient_of_span_open_at_its_start() {
    let span =
        TweenTimeSpan::new(TimeBound::Exclusive(secs(1)), TimeBound::Inclusive(secs(3))).unwrap();
    assert_eq!(span.quotient(secs(1)), DurationQuotient::Before);
    assert_eq!(span.quotient(secs(3)), DurationQuotient::Inside);
    assert_eq!(span.quotient(Duration::from_millis(3001)), DurationQuotient::After);
}

#[test]
fn quotient_of_single_instant() {
    let at = secs(2);
    let closed = TweenTimeSpan::try_from(at..=at).unwrap();
    assert_eq!(closed.quotient(Duration::from_millis(1999)), DurationQuotient::Before);
    assert_eq!(closed.quotient(at), DurationQuotient::Inside);
    assert_eq!(closed.quotient(Duration::from_millis(2001)), DurationQuotient::After);

    // Half open at one instant, a span holds no instant, and no instant is
    // inside of it.
    let empty = TweenTimeSpan::try_from(at..at).unwrap();
    assert_eq!(empty.quotient(Duration::from_millis(1999)), DurationQuotient::Before);
    assert_eq!(empty.quotient(at), DurationQuotient::After);
    let empty = TweenTimeSpan::new(TimeBound::Exclusive(at), TimeBound::Inclusive(at)).unwrap();
    assert_eq!(empty.quotient(at), DurationQuotient::Before);
    assert_eq!(empty.quotient(Duration::from_millis(2001)), DurationQuotient::After);
}

#[test]
fn default_span_is_empty_at_zero() {
    let span = TweenTimeSpan::default();
    assert_eq!(span.min(), TimeBound::Inclusive(Duration::zero()));
    assert_eq!(span.max(), TimeBound::Exclusive(Duration::zero()));
    assert_eq!(span.quotient(Duration::zero()), DurationQuotient::After);
    assert_eq!(span.length(), Duration::zero());
}

#[test]
fn range_conversions_keep_the_bounds() {
    let a = secs(1);
    let b = secs(3);

    let span = TweenTimeSpan::try_from(a..b).unwrap();
    assert_eq!(span.min(), TimeBound::Inclusive(a));
    assert_eq!(span.max(), TimeBound::Exclusive(b));

    let span = TweenTimeSpan::try_from(a..=b).unwrap();
    assert_eq!(span.min(), TimeBound::Inclusive(a));
    assert_eq!(span.max(), TimeBound::Inclusive(b));

    let span = TweenTimeSpan::try_from(..b).unwrap();
    assert_eq!(span.min(), TimeBound::Inclusive(Duration::zero()));
    assert_eq!(span.max(), TimeBound::Exclusive(b));

    let span = TweenTimeSpan::try_from(..=b).unwrap();
    assert_eq!(span.min(), TimeBound::Inclusive(Duration::zero()));
    assert_eq!(span.max(), TimeBound::Inclusive(b));
}

#[test]
fn range_conversions_reject_inverted_ranges() {
    let a = secs(3);
    let b = secs(1);
    assert_eq!(
        TweenTimeSpan::try_from(a..b),
        Err(NewTweenTimeSpanError::MinGreaterThanMax {
            min: TimeBound::Inclusive(a),
            max: TimeBound::Exclusive(b),
        })
    );
    assert_eq!(
        TweenTimeSpan::try_from(a..=b),
        Err(NewTweenTimeSpanError::MinGreaterThanMax {
            min: TimeBound::Inclusive(a),
            max: TimeBound::Inclusive(b),
        })
    );
}

#[test]
fn ranges_without_a_start_always_convert() {
    assert!(TweenTimeSpan::try_from(..Duration::zero()).is_ok());
    assert!(TweenTimeSpan::try_from(..=Duration::zero()).is_ok());
    assert!(TweenTimeSpan::try_from(..secs(7)).is_ok());
    assert!(TweenTimeSpan::try_from(..=secs(7)).is_ok());
}

#[test]
fn length_and_local_elapsed() {
    let span = TweenTimeSpan::try_from(secs(1)..secs(3)).unwrap();
    assert_eq!(span.length(), secs(2));
    assert_eq!(span.local_elapsed(Duration::zero()), Duration::zero());
    assert_eq!(span.local_elapsed(secs(1)), Duration::zero());
    assert_eq!(span.local_elapsed(Duration::from_millis(1250)), Duration::from_millis(250));
    assert_eq!(span.local_elapsed(secs(3)), secs(2));
    assert_eq!(span.local_elapsed(secs(10)), secs(2));
}
