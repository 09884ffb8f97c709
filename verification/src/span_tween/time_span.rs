//! Time spans: the stretch of a player's timeline during which one tween is
//! played.

use crate::time::Duration;
use core::ops::{Range, RangeInclusive, RangeTo, RangeToInclusive};
use vstd::prelude::*;
use vstd::std_specs::convert::{TryFromSpec, TryFromSpecImpl};
use vstd::string::StringExecFns;

verus! {

/// `core::ops::RangeTo`, the range `..end`: a struct with the one public
/// field `end`, which is read as it is.
#[verifier::external_type_specification]
#[verifier::reject_recursive_types(Idx)]
pub struct ExRangeTo<Idx>(RangeTo<Idx>);

/// `core::ops::RangeToInclusive`, the range `..=end`: a struct with the one
/// public field `end`, which is read as it is.
#[verifier::external_type_specification]
#[verifier::reject_recursive_types(Idx)]
pub struct ExRangeToInclusive<Idx>(RangeToInclusive<Idx>);

/// `RangeInclusive::start` returns a reference to the lower bound that the
/// range was made with, which is the `start` of the range's view.
pub assume_specification<Idx>[ RangeInclusive::<Idx>::start ](
    range: &RangeInclusive<Idx>,
) -> (start: &Idx)
    ensures
        *start == range@.start,
;

/// `RangeInclusive::end` returns a reference to the upper bound that the
/// range was made with, which is the `end` of the range's view.
pub assume_specification<Idx>[ RangeInclusive::<Idx>::end ](range: &RangeInclusive<Idx>) -> (end:
    &Idx)
    ensures
        *end == range@.end,
;

/// One end of a time span: an instant, and whether the span holds it.
#[derive(Debug, Clone, Copy, PartialEq, Eq, Hash, Structural)]
pub enum TimeBound {
    /// The instant itself is part of the span.
    Inclusive(Duration),
    /// The instant itself is not part of the span.
    Exclusive(Duration),
}

impl TimeBound {
    /// The instant of this bound, whatever its kind.
    pub open spec fn spec_duration(&self) -> Duration {
        match *self {
            TimeBound::Inclusive(d) => d,
            TimeBound::Exclusive(d) => d,
        }
    }

    /// Whether `instant` is not too early for a span that starts at this
    /// bound.
    pub open spec fn admits_as_min(&self, instant: Duration) -> bool {
        match *self {
            TimeBound::Inclusive(min) => instant@ >= min@,
            TimeBound::Exclusive(min) => instant@ > min@,
        }
    }

    /// Whether `instant` is not too late for a span that ends at this bound.
    pub open spec fn admits_as_max(&self, instant: Duration) -> bool {
        match *self {
            TimeBound::Inclusive(max) => instant@ <= max@,
            TimeBound::Exclusive(max) => instant@ < max@,
        }
    }

    /// Get the inner duration.
    #[verifier::when_used_as_spec(spec_duration)]
    pub fn duration(&self) -> (d: Duration)
        ensures
            d == self.spec_duration(),
    {
        match self {
            TimeBound::Inclusive(d) | TimeBound::Exclusive(d) => *d,
        }
    }
}

impl Default for TimeBound {
    /// The inclusive bound at time zero.
    fn default() -> (b: TimeBound)
        ensures
            b == TimeBound::Inclusive(Duration { nanos: 0 }),
    {
        TimeBound::Inclusive(Duration::zero())
    }
}

/// Where an instant lies relative to a time span.
#[derive(Debug, Clone, Copy, PartialEq, Eq, Hash, Structural)]
pub enum DurationQuotient {
    /// Earlier than every instant of the span.
    Before,
    /// One of the span's instants.
    Inside,
    /// Later than every instant of the span.
    After,
}

/// Why a pair of bounds does not make a [`TweenTimeSpan`].
#[derive(Debug, Clone, Copy, PartialEq, Eq, Hash, Structural)]
pub enum NewTweenTimeSpanError {
    /// Both bounds exclude the one instant they share, so no instant is left
    /// on the timeline.
    NotTime {
        #[allow(missing_docs)]
        min: TimeBound,
        #[allow(missing_docs)]
        max: TimeBound,
    },
    /// The minimum is later than the maximum.
    MinGreaterThanMax {
        #[allow(missing_docs)]
        min: TimeBound,
        #[allow(missing_docs)]
        max: TimeBound,
    },
}

/// What `{:?}` prints for a time bound of the given kind and length.
pub uninterp spec fn time_bound_debug(inclusive: bool, nanos: nat) -> Seq<char>;

/// Formats `bound` with `{:?}` by `format!`: the text is that of the bound's
/// derived `Debug`, which depends on the bound's kind and length alone.
#[verifier::external_body]
fn debug_text(bound: &TimeBound) -> (text: String)
    ensures
        text@ == time_bound_debug(bound is Inclusive, bound.spec_duration()@),
{
    format!("{bound:?}")
}

impl NewTweenTimeSpanError {
    /// The bound that was given as the minimum.
    pub open spec fn spec_min(&self) -> TimeBound {
        match *self {
            NewTweenTimeSpanError::NotTime { min, .. } => min,
            NewTweenTimeSpanError::MinGreaterThanMax { min, .. } => min,
        }
    }

    /// The bound that was given as the maximum.
    pub open spec fn spec_max(&self) -> TimeBound {
        match *self {
            NewTweenTimeSpanError::NotTime { max, .. } => max,
            NewTweenTimeSpanError::MinGreaterThanMax { max, .. } => max,
        }
    }

    /// The error's message, with `min` and `max` as the texts of the two
    /// bounds.
    pub open spec fn spec_message_with(&self, min: Seq<char>, max: Seq<char>) -> Seq<char> {
        let opening = match *self {
            NewTweenTimeSpanError::NotTime { .. } => "This span does not contain any time: min "@,
            NewTweenTimeSpanError::MinGreaterThanMax { .. } => {
                "This span has min greater than max: min "@
            },
        };
        opening + min + " max "@ + max
    }

    /// The error's message, with `min` and `max` as the texts of the two
    /// bounds.
    pub fn message_with(&self, min: &str, max: &str) -> (text: String)
        ensures
            text@ == self.spec_message_with(min@, max@),
    {
        let mut text = match self {
            NewTweenTimeSpanError::NotTime { .. } => String::from_str(
                "This span does not contain any time: min ",
            ),
            NewTweenTimeSpanError::MinGreaterThanMax { .. } => String::from_str(
                "This span has min greater than max: min ",
            ),
        };
        text.append(min);
        text.append(" max ");
        text.append(max);
        text
    }

    /// The error's message: what is wrong with the bounds, and the bounds as
    /// `{:?}` prints them.
    pub fn message(&self) -> (text: String)
        ensures
            text@ == self.spec_message_with(
                time_bound_debug(self.spec_min() is Inclusive, self.spec_min().spec_duration()@),
                time_bound_debug(self.spec_max() is Inclusive, self.spec_max().spec_duration()@),
            ),
    {
        let (min, max) = match self {
            NewTweenTimeSpanError::NotTime { min, max } => (min, max),
            NewTweenTimeSpanError::MinGreaterThanMax { min, max } => (min, max),
        };
        let min_text = debug_text(min);
        let max_text = debug_text(max);
        self.message_with(min_text.as_str(), max_text.as_str())
    }
}

/// Whether `min` and `max` exclude the single instant that they share.
pub open spec fn bounds_hold_no_time(min: TimeBound, max: TimeBound) -> bool {
    &&& min is Exclusive
    &&& max is Exclusive
    &&& min.spec_duration()@ == max.spec_duration()@
}

/// Whether `min` and `max` may be the two ends of a time span: `min` is not
/// later than `max`, and some instant is left between them.
pub open spec fn bounds_make_span(min: TimeBound, max: TimeBound) -> bool {
    &&& min.spec_duration()@ <= max.spec_duration()@
    &&& !bounds_hold_no_time(min, max)
}

/// The range of time during which a span tween interpolates.
#[derive(Debug, Clone, Copy, PartialEq, Eq, Hash)]
pub struct TweenTimeSpan {
    /// Minimum time for the span tween.
    min: TimeBound,
    /// Maximum time for the span tween.
    max: TimeBound,
}

impl TweenTimeSpan {
    #[verifier::type_invariant]
    spec fn bounds_in_order(self) -> bool {
        bounds_make_span(self.min, self.max)
    }

    /// The span's minimum.
    pub closed spec fn spec_min(&self) -> TimeBound {
        self.min
    }

    /// The span's maximum.
    pub closed spec fn spec_max(&self) -> TimeBound {
        self.max
    }

    /// What every span that the program holds satisfies.
    pub open spec fn valid(&self) -> bool {
        bounds_make_span(self.spec_min(), self.spec_max())
    }

    /// The span from `min` to `max`.
    pub closed spec fn spec_new_unchecked(min: TimeBound, max: TimeBound) -> TweenTimeSpan {
        TweenTimeSpan { min, max }
    }

    /// What [`TweenTimeSpan::new`] answers for `min` and `max`.
    pub open spec fn spec_new(min: TimeBound, max: TimeBound) -> Result<
        TweenTimeSpan,
        NewTweenTimeSpanError,
    > {
        if bounds_hold_no_time(min, max) {
            Err(NewTweenTimeSpanError::NotTime { min, max })
        } else if min.spec_duration()@ > max.spec_duration()@ {
            Err(NewTweenTimeSpanError::MinGreaterThanMax { min, max })
        } else {
            Ok(Self::spec_new_unchecked(min, max))
        }
    }

    /// Where `instant` lies relative to this span: `Before` where the minimum
    /// does not admit it, `After` where the maximum does not, else `Inside`.
    pub open spec fn spec_quotient(&self, instant: Duration) -> DurationQuotient {
        if !self.spec_min().admits_as_min(instant) {
            DurationQuotient::Before
        } else if !self.spec_max().admits_as_max(instant) {
            DurationQuotient::After
        } else {
            DurationQuotient::Inside
        }
    }

    /// Two spans with the same bounds are the same span. A span keeps its
    /// bounds to itself, so this is how to conclude that two spans are equal.
    pub proof fn lemma_same_bounds_same_span(a: TweenTimeSpan, b: TweenTimeSpan)
        requires
            a.spec_min() == b.spec_min(),
            a.spec_max() == b.spec_max(),
        ensures
            a == b,
    {
    }

    /// The bounds of `spec_new_unchecked(min, max)` are `min` and `max`.
    pub proof fn lemma_new_unchecked_bounds(min: TimeBound, max: TimeBound)
        ensures
            Self::spec_new_unchecked(min, max).spec_min() == min,
            Self::spec_new_unchecked(min, max).spec_max() == max,
    {
    }

    /// Create a new [`TweenTimeSpan`] from bounds that are known to make one.
    pub(crate) fn new_unchecked(min: TimeBound, max: TimeBound) -> (span: TweenTimeSpan)
        requires
            bounds_make_span(min, max),
        ensures
            span == Self::spec_new_unchecked(min, max),
            span.spec_min() == min,
            span.spec_max() == max,
            span.valid(),
    {
        TweenTimeSpan { min, max }
    }

    /// Create a new [`TweenTimeSpan`].
    ///
    /// Fails with `NotTime` where both bounds are exclusive and at the same
    /// instant, with `MinGreaterThanMax` where `min` is later than `max`, and
    /// on no other bounds.
    pub fn new(min: TimeBound, max: TimeBound) -> (r: Result<TweenTimeSpan, NewTweenTimeSpanError>)
        ensures
            r == Self::spec_new(min, max),
            r is Ok <==> bounds_make_span(min, max),
            r matches Ok(span) ==> span.spec_min() == min && span.spec_max() == max && span.valid(),
            r == Err::<TweenTimeSpan, _>(NewTweenTimeSpanError::NotTime { min, max })
                <==> bounds_hold_no_time(min, max),
            r == Err::<TweenTimeSpan, _>(NewTweenTimeSpanError::MinGreaterThanMax { min, max })
                <==> min.spec_duration()@ > max.spec_duration()@,
    {
        let both_exclusive = match (min, max) {
            (TimeBound::Exclusive(_), TimeBound::Exclusive(_)) => true,
            _ => false,
        };
        if both_exclusive && min.duration().as_nanos() == max.duration().as_nanos() {
            return Err(NewTweenTimeSpanError::NotTime { min, max });
        } else if min.duration().as_nanos() > max.duration().as_nanos() {
            return Err(NewTweenTimeSpanError::MinGreaterThanMax { min, max });
        }
        Ok(Self::new_unchecked(min, max))
    }

    /// Where `instant` lies relative to this span.
    pub fn quotient(&self, instant: Duration) -> (q: DurationQuotient)
        ensures
            q == self.spec_quotient(instant),
            q is Before <==> !self.spec_min().admits_as_min(instant),
            q is After <==> !self.spec_max().admits_as_max(instant),
            q is Inside <==> self.spec_min().admits_as_min(instant) && self.spec_max().admits_as_max(
                instant,
            ),
    {
        proof {
            use_type_invariant(self);
        }
        let after_min = match self.min {
            TimeBound::Inclusive(min) => instant.as_nanos() >= min.as_nanos(),
            TimeBound::Exclusive(min) => instant.as_nanos() > min.as_nanos(),
        };
        let before_max = match self.max {
            TimeBound::Inclusive(max) => instant.as_nanos() <= max.as_nanos(),
            TimeBound::Exclusive(max) => instant.as_nanos() < max.as_nanos(),
        };
        match (after_min, before_max) {
            (true, true) => DurationQuotient::Inside,
            (true, false) => DurationQuotient::After,
            (false, true) => DurationQuotient::Before,
            (false, false) => vstd::pervasive::unreached(),
        }
    }

    /// Get the min time.
    #[verifier::when_used_as_spec(spec_min)]
    pub fn min(&self) -> (b: TimeBound)
        ensures
            b == self.spec_min(),
    {
        self.min
    }

    /// Get the max time.
    #[verifier::when_used_as_spec(spec_max)]
    pub fn max(&self) -> (b: TimeBound)
        ensures
            b == self.spec_max(),
    {
        self.max
    }

    /// The time from the span's minimum to its maximum: the length of the
    /// clock of a tween that is played during this span.
    pub open spec fn spec_length(&self) -> nat {
        (self.spec_max().spec_duration()@ - self.spec_min().spec_duration()@) as nat
    }

    /// What the clock of a tween of this span shows when the timer shows
    /// `now`: the time since the span's minimum, kept between zero and the
    /// span's length.
    pub open spec fn spec_local_elapsed(&self, now: Duration) -> nat {
        let min = self.spec_min().spec_duration()@;
        let since_min = if now@ >= min {
            (now@ - min) as nat
        } else {
            0
        };
        if since_min <= self.spec_length() {
            since_min
        } else {
            self.spec_length()
        }
    }

    /// The time from the span's minimum to its maximum.
    pub fn length(&self) -> (d: Duration)
        ensures
            d@ == self.spec_length(),
    {
        proof {
            use_type_invariant(self);
        }
        Duration { nanos: self.max.duration().nanos - self.min.duration().nanos }
    }

    /// What the clock of a tween of this span shows when the timer shows
    /// `now`.
    pub fn local_elapsed(&self, now: Duration) -> (d: Duration)
        ensures
            d@ == self.spec_local_elapsed(now),
            d@ <= self.spec_length(),
    {
        now.saturating_sub(self.min.duration()).min(self.length())
    }
}

impl Default for TweenTimeSpan {
    /// The empty span `[0, 0)`.
    fn default() -> (span: TweenTimeSpan)
        ensures
            span.spec_min() == TimeBound::Inclusive(Duration { nanos: 0 }),
            span.spec_max() == TimeBound::Exclusive(Duration { nanos: 0 }),
    {
        TweenTimeSpan::new_unchecked(
            TimeBound::Inclusive(Duration::zero()),
            TimeBound::Exclusive(Duration::zero()),
        )
    }
}

impl TryFrom<Range<Duration>> for TweenTimeSpan {
    type Error = NewTweenTimeSpanError;

    /// `start..end` is the span `[start, end)`.
    fn try_from(range: Range<Duration>) -> (r: Result<Self, NewTweenTimeSpanError>) {
        TweenTimeSpan::new(TimeBound::Inclusive(range.start), TimeBound::Exclusive(range.end))
    }
}

impl TryFromSpecImpl<Range<Duration>> for TweenTimeSpan {
    open spec fn obeys_try_from_spec() -> bool {
        true
    }

    open spec fn try_from_spec(range: Range<Duration>) -> Result<Self, NewTweenTimeSpanError> {
        Self::spec_new(TimeBound::Inclusive(range.start), TimeBound::Exclusive(range.end))
    }
}

impl TryFrom<RangeInclusive<Duration>> for TweenTimeSpan {
    type Error = NewTweenTimeSpanError;

    /// `start..=end` is the span `[start, end]`.
    fn try_from(range: RangeInclusive<Duration>) -> (r: Result<Self, NewTweenTimeSpanError>) {
        TweenTimeSpan::new(TimeBound::Inclusive(*range.start()), TimeBound::Inclusive(*range.end()))
    }
}

impl TryFromSpecImpl<RangeInclusive<Duration>> for TweenTimeSpan {
    open spec fn obeys_try_from_spec() -> bool {
        true
    }

    open spec fn try_from_spec(range: RangeInclusive<Duration>) -> Result<
        Self,
        NewTweenTimeSpanError,
    > {
        Self::spec_new(TimeBound::Inclusive(range@.start), TimeBound::Inclusive(range@.end))
    }
}

impl TryFrom<RangeTo<Duration>> for TweenTimeSpan {
    type Error = NewTweenTimeSpanError;

    /// `..end` is the span `[0, end)`.
    fn try_from(range: RangeTo<Duration>) -> (r: Result<Self, NewTweenTimeSpanError>) {
        TweenTimeSpan::new(TimeBound::Inclusive(Duration::zero()), TimeBound::Exclusive(range.end))
    }
}

impl TryFromSpecImpl<RangeTo<Duration>> for TweenTimeSpan {
    open spec fn obeys_try_from_spec() -> bool {
        true
    }

    open spec fn try_from_spec(range: RangeTo<Duration>) -> Result<Self, NewTweenTimeSpanError> {
        Self::spec_new(
            TimeBound::Inclusive(Duration { nanos: 0 }),
            TimeBound::Exclusive(range.end),
        )
    }
}

impl TryFrom<RangeToInclusive<Duration>> for TweenTimeSpan {
    type Error = NewTweenTimeSpanError;

    /// `..=end` is the span `[0, end]`.
    fn try_from(range: RangeToInclusive<Duration>) -> (r: Result<Self, NewTweenTimeSpanError>) {
        TweenTimeSpan::new(TimeBound::Inclusive(Duration::zero()), TimeBound::Inclusive(range.end))
    }
}

impl TryFromSpecImpl<RangeToInclusive<Duration>> for TweenTimeSpan {
    open spec fn obeys_try_from_spec() -> bool {
        true
    }

    open spec fn try_from_spec(range: RangeToInclusive<Duration>) -> Result<
        Self,
        NewTweenTimeSpanError,
    > {
        Self::spec_new(
            TimeBound::Inclusive(Duration { nanos: 0 }),
            TimeBound::Inclusive(range.end),
        )
    }
}

impl DurationQuotient {
    /// The place's rank on the timeline: `Before` comes first, `After` last.
    pub open spec fn rank(self) -> int {
        match self {
            DurationQuotient::Before => 0,
            DurationQuotient::Inside => 1,
            DurationQuotient::After => 2,
        }
    }
}

/// Every instant has exactly one place relative to a span: before it where
/// the minimum does not admit the instant, after it where the maximum does
/// not, and inside where both bounds admit it. No instant fails both bounds.
pub proof fn lemma_quotient_partitions(span: TweenTimeSpan, instant: Duration)
    requires
        span.valid(),
    ensures
        span.spec_quotient(instant) is Before <==> !span.spec_min().admits_as_min(instant),
        span.spec_quotient(instant) is After <==> !span.spec_max().admits_as_max(instant),
        span.spec_quotient(instant) is Inside <==> span.spec_min().admits_as_min(instant)
            && span.spec_max().admits_as_max(instant),
        span.spec_min().admits_as_min(instant) || span.spec_max().admits_as_max(instant),
{
}

/// A later instant never has an earlier place relative to a span.
pub proof fn lemma_quotient_is_monotonic(span: TweenTimeSpan, earlier: Duration, later: Duration)
    requires
        span.valid(),
        earlier@ <= later@,
    ensures
        span.spec_quotient(earlier).rank() <= span.spec_quotient(later).rank(),
{
}

/// A range `start..end` makes a span exactly where `start` is not later than
/// `end`. The span's minimum is `start`, inclusive, and its maximum is `end`,
/// exclusive.
pub proof fn lemma_range_keeps_bounds(range: Range<Duration>)
    ensures
        ({
            let r = <TweenTimeSpan as TryFromSpec<Range<Duration>>>::try_from_spec(range);
            let min = TimeBound::Inclusive(range.start);
            let max = TimeBound::Exclusive(range.end);
            &&& r is Ok <==> range.start@ <= range.end@
            &&& r matches Ok(span) ==> span.spec_min() == min && span.spec_max() == max
            &&& r matches Err(e) ==> e == (NewTweenTimeSpanError::MinGreaterThanMax { min, max })
        }),
{
}

/// A range `start..=end` makes a span exactly where `start` is not later than
/// `end`. The span's minimum is `start` and its maximum is `end`, both
/// inclusive.
pub proof fn lemma_range_inclusive_keeps_bounds(range: RangeInclusive<Duration>)
    ensures
        ({
            let r = <TweenTimeSpan as TryFromSpec<RangeInclusive<Duration>>>::try_from_spec(range);
            let min = TimeBound::Inclusive(range@.start);
            let max = TimeBound::Inclusive(range@.end);
            &&& r is Ok <==> range@.start@ <= range@.end@
            &&& r matches Ok(span) ==> span.spec_min() == min && span.spec_max() == max
            &&& r matches Err(e) ==> e == (NewTweenTimeSpanError::MinGreaterThanMax { min, max })
        }),
{
}

/// A range `..end` always makes a span. The span's minimum is time zero,
/// inclusive, and its maximum is `end`, exclusive.
pub proof fn lemma_range_to_keeps_bounds(range: RangeTo<Duration>)
    ensures
        ({
            let r = <TweenTimeSpan as TryFromSpec<RangeTo<Duration>>>::try_from_spec(range);
            &&& r matches Ok(span)
            &&& span.spec_min() == TimeBound::Inclusive(Duration { nanos: 0 })
            &&& span.spec_max() == TimeBound::Exclusive(range.end)
        }),
{
}

/// A range `..=end` always makes a span. The span's minimum is time zero and
/// its maximum is `end`, both inclusive.
pub proof fn lemma_range_to_inclusive_keeps_bounds(range: RangeToInclusive<Duration>)
    ensures
        ({
            let r = <TweenTimeSpan as TryFromSpec<RangeToInclusive<Duration>>>::try_from_spec(
                range,
            );
            &&& r matches Ok(span)
            &&& span.spec_min() == TimeBound::Inclusive(Duration { nanos: 0 })
            &&& span.spec_max() == TimeBound::Inclusive(range.end)
        }),
{
}

} // verus!
