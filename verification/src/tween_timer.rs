//! The timer of a tween player: elapsed time on a timeline of a given
//! length, the direction of play, and what happens at the timeline's end.

use crate::time::Duration;
use vstd::arithmetic::div_mod::{
    lemma_add_mod_noop, lemma_fundamental_div_mod_converse_mod, lemma_mod_bound, lemma_small_mod,
};
use vstd::prelude::*;

verus! {

/// The direction in which a timer plays its timeline.
#[derive(Debug, Clone, Copy, PartialEq, Eq, Hash, Structural)]
pub enum AnimationDirection {
    /// From zero towards the timer's duration.
    Forward,
    /// From the timer's duration towards zero.
    Backward,
}

impl AnimationDirection {
    /// The other direction.
    pub open spec fn spec_opposite(self) -> AnimationDirection {
        match self {
            AnimationDirection::Forward => AnimationDirection::Backward,
            AnimationDirection::Backward => AnimationDirection::Forward,
        }
    }

    /// The other direction.
    #[verifier::when_used_as_spec(spec_opposite)]
    pub fn opposite(self) -> (d: AnimationDirection)
        ensures
            d == self.spec_opposite(),
    {
        match self {
            AnimationDirection::Forward => AnimationDirection::Backward,
            AnimationDirection::Backward => AnimationDirection::Forward,
        }
    }
}

impl Default for AnimationDirection {
    fn default() -> (d: AnimationDirection)
        ensures
            d == AnimationDirection::Forward,
    {
        AnimationDirection::Forward
    }
}

/// How a timer goes on once it has reached the end of its timeline.
#[derive(Debug, Clone, Copy, PartialEq, Eq, Hash, Structural)]
pub enum RepeatStyle {
    /// Start over from the other end of the timeline.
    WrapAround,
    /// Turn around and play the timeline in the other direction.
    PingPong,
}

impl Default for RepeatStyle {
    fn default() -> (s: RepeatStyle)
        ensures
            s == RepeatStyle::WrapAround,
    {
        RepeatStyle::WrapAround
    }
}

/// How often a timer repeats.
#[derive(Debug, Clone, Copy, PartialEq, Eq, Hash, Structural)]
pub enum Repeat {
    /// Repeat without end.
    Infinitely,
    /// Repeat without end and count the repetitions.
    InfinitelyCounted {
        #[allow(missing_docs)]
        times_repeated: usize,
    },
    /// Repeat `times` times.
    Times {
        #[allow(missing_docs)]
        times: usize,
        #[allow(missing_docs)]
        times_repeated: usize,
    },
}

impl Repeat {
    /// Whether no repetition is left.
    pub open spec fn spec_exhausted(&self) -> bool {
        match *self {
            Repeat::Infinitely => false,
            Repeat::InfinitelyCounted { .. } => false,
            Repeat::Times { times, times_repeated } => times_repeated >= times,
        }
    }

    /// The configuration after one more repetition. A count that has reached
    /// `usize::MAX` stays there, and an exhausted configuration stays as it is.
    pub open spec fn spec_advanced(&self) -> Repeat {
        match *self {
            Repeat::Infinitely => Repeat::Infinitely,
            Repeat::InfinitelyCounted { times_repeated } => Repeat::InfinitelyCounted {
                times_repeated: if times_repeated < usize::MAX {
                    (times_repeated + 1) as usize
                } else {
                    times_repeated
                },
            },
            Repeat::Times { times, times_repeated } => if times_repeated < times {
                Repeat::Times { times, times_repeated: (times_repeated + 1) as usize }
            } else {
                *self
            },
        }
    }

    /// Repeat infinitely.
    pub fn infinitely() -> (r: Repeat)
        ensures
            r == Repeat::Infinitely,
    {
        Repeat::Infinitely
    }

    /// Repeat infinitely and count the times this timer has repeated.
    pub fn infinitely_counted() -> (r: Repeat)
        ensures
            r == (Repeat::InfinitelyCounted { times_repeated: 0 }),
    {
        Repeat::InfinitelyCounted { times_repeated: 0 }
    }

    /// Repeat for this amount of times.
    pub fn times(times: usize) -> (r: Repeat)
        ensures
            r == (Repeat::Times { times, times_repeated: 0 }),
    {
        Repeat::Times { times, times_repeated: 0 }
    }

    /// Returns true if all repeats have been used up. An infinite repeat is
    /// never exhausted.
    #[verifier::when_used_as_spec(spec_exhausted)]
    pub fn exhausted(&self) -> (b: bool)
        ensures
            b == self.spec_exhausted(),
    {
        match self {
            Repeat::Infinitely => false,
            Repeat::InfinitelyCounted { .. } => false,
            Repeat::Times { times, times_repeated } => *times_repeated >= *times,
        }
    }

    /// Count one more repetition. Returns false, and changes nothing, where
    /// no repetition is left.
    pub fn try_advance_counter(&mut self) -> (advanced: bool)
        ensures
            advanced == !old(self).spec_exhausted(),
            *final(self) == old(self).spec_advanced(),
    {
        match *self {
            Repeat::Infinitely => true,
            Repeat::InfinitelyCounted { times_repeated } => {
                if times_repeated < usize::MAX {
                    *self = Repeat::InfinitelyCounted { times_repeated: times_repeated + 1 };
                }
                true
            },
            Repeat::Times { times, times_repeated } => {
                if times_repeated < times {
                    *self = Repeat::Times { times, times_repeated: times_repeated + 1 };
                    true
                } else {
                    false
                }
            },
        }
    }
}

/// What one tick did to a timer's elapsed time.
#[derive(Debug, Clone, Copy, PartialEq, Eq, Hash, Structural)]
pub struct Elapsed {
    /// The elapsed time after the tick.
    pub now: Duration,
    /// The elapsed time before the tick.
    pub previous: Duration,
    /// The style of the repetition, where the tick made the timer repeat.
    pub repeat_style: Option<RepeatStyle>,
}

impl Default for Elapsed {
    fn default() -> (e: Elapsed)
        ensures
            e == (Elapsed {
                now: Duration { nanos: 0 },
                previous: Duration { nanos: 0 },
                repeat_style: None,
            }),
    {
        Elapsed { now: Duration::zero(), previous: Duration::zero(), repeat_style: None }
    }
}

/// How a tick ended.
#[derive(Debug, Clone, Copy, PartialEq, Eq, Hash, Structural)]
pub enum TickResult {
    /// The timer is at the end of its timeline and does not repeat.
    AllDone,
    /// The timer reached the end of its timeline and repeated.
    Repeated,
    /// The timer has not reached the end of its timeline.
    Continue,
}

/// The elapsed time of a tick that stays short of the timeline's end.
pub open spec fn travelled(now: nat, delta: nat, direction: AnimationDirection) -> nat {
    match direction {
        AnimationDirection::Forward => now + delta,
        AnimationDirection::Backward => (now - delta) as nat,
    }
}

/// Where a timer that plays towards `direction` comes to rest.
pub open spec fn timeline_end(duration: nat, direction: AnimationDirection) -> nat {
    match direction {
        AnimationDirection::Forward => duration,
        AnimationDirection::Backward => 0,
    }
}

/// Whether `now` is at or past the end of the timeline for `direction`.
pub open spec fn at_timeline_end(now: nat, duration: nat, direction: AnimationDirection) -> bool {
    match direction {
        AnimationDirection::Forward => now >= duration,
        AnimationDirection::Backward => now == 0,
    }
}

/// Where a tick of `delta` lands that crosses the end of the timeline and
/// repeats in `style`.
///
/// Wrapping around carries what is left of the tick over to the other end of
/// the timeline, as often as it takes. Turning around spends what is left on
/// the way back, and stops at the far end if there is more of it than the
/// timeline is long.
pub open spec fn repeated_position(
    now: nat,
    delta: nat,
    duration: nat,
    direction: AnimationDirection,
    style: RepeatStyle,
) -> nat {
    match (style, direction) {
        (RepeatStyle::WrapAround, AnimationDirection::Forward) => if duration == 0 {
            0
        } else {
            (now + delta) % duration
        },
        (RepeatStyle::WrapAround, AnimationDirection::Backward) => if duration == 0 {
            0
        } else {
            (duration - (delta - now) % (duration as int)) as nat
        },
        (RepeatStyle::PingPong, AnimationDirection::Forward) => if now + delta - duration
            >= duration {
            0
        } else {
            (duration - (now + delta - duration)) as nat
        },
        (RepeatStyle::PingPong, AnimationDirection::Backward) => if delta - now >= duration {
            duration
        } else {
            (delta - now) as nat
        },
    }
}

/// A repeated position is on the timeline.
pub proof fn lemma_repeated_position_on_timeline(
    now: nat,
    delta: nat,
    duration: nat,
    direction: AnimationDirection,
    style: RepeatStyle,
)
    requires
        match direction {
            AnimationDirection::Forward => now + delta >= duration,
            AnimationDirection::Backward => delta >= now,
        },
    ensures
        repeated_position(now, delta, duration, direction, style) <= duration,
{
    if duration > 0 {
        lemma_mod_bound((now + delta) as int, duration as int);
        lemma_mod_bound(delta - now, duration as int);
    }
}

/// `(now + delta) % duration`, computed without leaving `u128`.
fn wrap_forward(now: Duration, delta: Duration, duration: Duration) -> (landed: Duration)
    ensures
        landed@ == repeated_position(
            now@,
            delta@,
            duration@,
            AnimationDirection::Forward,
            RepeatStyle::WrapAround,
        ),
{
    let m: u128 = duration.nanos;
    if m == 0 {
        return Duration { nanos: 0 };
    }
    let a: u128 = now.nanos % m;
    let b: u128 = delta.nanos % m;
    let landed: u128 = if a >= m - b {
        a - (m - b)
    } else {
        a + b
    };
    proof {
        lemma_add_mod_noop(now.nanos as int, delta.nanos as int, m as int);
        if a >= m - b {
            lemma_fundamental_div_mod_converse_mod(a + b, m as int, 1, landed as int);
        } else {
            lemma_small_mod((a + b) as nat, m as nat);
        }
    }
    Duration { nanos: landed }
}

/// Where a tick lands that crosses the end of the timeline and repeats.
fn land_repeated(
    now: Duration,
    delta: Duration,
    duration: Duration,
    direction: AnimationDirection,
    style: RepeatStyle,
) -> (landed: Duration)
    requires
        match direction {
            AnimationDirection::Forward => now@ + delta@ >= duration@,
            AnimationDirection::Backward => delta@ >= now@,
        },
    ensures
        landed@ == repeated_position(now@, delta@, duration@, direction, style),
        landed@ <= duration@,
{
    proof {
        lemma_repeated_position_on_timeline(now@, delta@, duration@, direction, style);
    }
    match (style, direction) {
        (RepeatStyle::WrapAround, AnimationDirection::Forward) => wrap_forward(
            now,
            delta,
            duration,
        ),
        (RepeatStyle::WrapAround, AnimationDirection::Backward) => {
            if duration.nanos == 0 {
                Duration { nanos: 0 }
            } else {
                Duration { nanos: duration.nanos - (delta.nanos - now.nanos) % duration.nanos }
            }
        },
        (RepeatStyle::PingPong, AnimationDirection::Forward) => {
            // How far the tick goes past the end, if that fits.
            let over: Option<u128> = if now.nanos >= duration.nanos {
                (now.nanos - duration.nanos).checked_add(delta.nanos)
            } else {
                Some(delta.nanos - (duration.nanos - now.nanos))
            };
            match over {
                Some(over) => if over >= duration.nanos {
                    Duration { nanos: 0 }
                } else {
                    Duration { nanos: duration.nanos - over }
                },
                None => Duration { nanos: 0 },
            }
        },
        (RepeatStyle::PingPong, AnimationDirection::Backward) => {
            let over: u128 = delta.nanos - now.nanos;
            if over >= duration.nanos {
                duration
            } else {
                Duration { nanos: over }
            }
        },
    }
}

/// Timer of a tween player.
#[derive(Debug, Clone, Copy, PartialEq, Eq, Hash, Structural)]
pub struct TweenTimer {
    /// A paused timer is left alone by the player system.
    pub paused: bool,
    /// The elapsed time, as the last tick left it.
    pub elapsed: Elapsed,
    /// The length of the timeline.
    pub duration: Duration,
    /// The direction of play.
    pub direction: AnimationDirection,
    /// The factor by which a frame's time is scaled before the timer is
    /// ticked, one second standing for the factor one.
    pub speed_scale: Duration,
    /// How often the timer repeats, if it does.
    pub repeat: Option<Repeat>,
    /// How the timer repeats. Without one it wraps around.
    pub repeat_style: Option<RepeatStyle>,
}

impl TweenTimer {
    /// The timer as [`TweenTimer::new`] makes it.
    pub open spec fn spec_new(duration: Duration) -> TweenTimer {
        TweenTimer {
            paused: false,
            elapsed: Elapsed {
                now: Duration { nanos: 0 },
                previous: Duration { nanos: 0 },
                repeat_style: None,
            },
            duration,
            direction: AnimationDirection::Forward,
            speed_scale: Duration { nanos: 1_000_000_000 },
            repeat: None,
            repeat_style: None,
        }
    }

    /// Whether the timer is at the end of its timeline.
    pub open spec fn spec_is_completed(&self) -> bool {
        at_timeline_end(self.elapsed.now@, self.duration@, self.direction)
    }

    /// Whether a repetition is configured and left.
    pub open spec fn can_repeat(&self) -> bool {
        self.repeat matches Some(repeat) && !repeat.spec_exhausted()
    }

    /// Whether the timer is at the end of its timeline for good.
    pub open spec fn spec_is_all_done(&self) -> bool {
        self.spec_is_completed() && !self.can_repeat()
    }

    /// The style in which the timer repeats.
    pub open spec fn effective_repeat_style(&self) -> RepeatStyle {
        match self.repeat_style {
            Some(style) => style,
            None => RepeatStyle::WrapAround,
        }
    }

    /// Whether a tick of `delta` towards `direction` reaches the end of the
    /// timeline.
    pub open spec fn reaches_end(&self, delta: Duration, direction: AnimationDirection) -> bool {
        match direction {
            AnimationDirection::Forward => self.elapsed.now@ + delta@ >= self.duration@,
            AnimationDirection::Backward => delta@ >= self.elapsed.now@,
        }
    }

    /// How a tick of `delta` towards `direction` ends.
    pub open spec fn spec_tick_result(
        &self,
        delta: Duration,
        direction: AnimationDirection,
    ) -> TickResult {
        if !self.reaches_end(delta, direction) {
            TickResult::Continue
        } else if self.can_repeat() {
            TickResult::Repeated
        } else {
            TickResult::AllDone
        }
    }

    /// The timer after a tick of `delta` towards `direction`.
    ///
    /// Short of the end, the elapsed time moves by `delta`. At the end, a
    /// timer that can repeat counts the repetition and lands where its style
    /// says, facing the other way if it turned around. A timer that cannot
    /// repeat comes to rest at the end. One that rests there already is left
    /// as it is.
    pub open spec fn spec_tick(&self, delta: Duration, direction: AnimationDirection) -> TweenTimer {
        let now = self.elapsed.now;
        if !self.reaches_end(delta, direction) {
            TweenTimer {
                elapsed: Elapsed {
                    now: Duration::spec_from_nanos(travelled(now@, delta@, direction)),
                    previous: now,
                    repeat_style: None,
                },
                ..*self
            }
        } else if self.can_repeat() {
            let style = self.effective_repeat_style();
            TweenTimer {
                elapsed: Elapsed {
                    now: Duration::spec_from_nanos(
                        repeated_position(now@, delta@, self.duration@, direction, style),
                    ),
                    previous: now,
                    repeat_style: Some(style),
                },
                direction: match style {
                    RepeatStyle::WrapAround => self.direction,
                    RepeatStyle::PingPong => direction.spec_opposite(),
                },
                repeat: Some(self.repeat.unwrap().spec_advanced()),
                ..*self
            }
        } else if at_timeline_end(now@, self.duration@, direction) {
            *self
        } else {
            TweenTimer {
                elapsed: Elapsed {
                    now: Duration::spec_from_nanos(timeline_end(self.duration@, direction)),
                    previous: now,
                    repeat_style: None,
                },
                ..*self
            }
        }
    }

    /// Create a timer for a timeline of length `duration`: at time zero,
    /// playing forward at normal speed, and without repeat.
    pub fn new(duration: Duration) -> (timer: TweenTimer)
        ensures
            timer == Self::spec_new(duration),
    {
        TweenTimer {
            paused: false,
            elapsed: Elapsed::default(),
            duration,
            direction: AnimationDirection::Forward,
            speed_scale: Duration::from_secs(1),
            repeat: None,
            repeat_style: None,
        }
    }

    /// The elapsed time, as the last tick left it.
    pub fn elapsed(&self) -> (e: Elapsed)
        ensures
            e == self.elapsed,
    {
        self.elapsed
    }

    /// The length of the timeline.
    pub fn duration(&self) -> (d: Duration)
        ensures
            d == self.duration,
    {
        self.duration
    }

    /// Set the length of the timeline. The elapsed time stays as it is.
    pub fn set_duration(&mut self, duration: Duration)
        ensures
            *final(self) == (TweenTimer { duration, ..*old(self) }),
    {
        self.duration = duration;
    }

    /// Pause or resume the timer.
    pub fn set_paused(&mut self, paused: bool)
        ensures
            *final(self) == (TweenTimer { paused, ..*old(self) }),
    {
        self.paused = paused;
    }

    /// Set the direction of play.
    pub fn set_direction(&mut self, direction: AnimationDirection)
        ensures
            *final(self) == (TweenTimer { direction, ..*old(self) }),
    {
        self.direction = direction;
    }

    /// Set how often the timer repeats.
    pub fn set_repeat(&mut self, repeat: Option<Repeat>)
        ensures
            *final(self) == (TweenTimer { repeat, ..*old(self) }),
    {
        self.repeat = repeat;
    }

    /// Set how the timer repeats.
    pub fn set_repeat_style(&mut self, repeat_style: Option<RepeatStyle>)
        ensures
            *final(self) == (TweenTimer { repeat_style, ..*old(self) }),
    {
        self.repeat_style = repeat_style;
    }

    /// Returns true if the elapsed time is at the end of the timeline for the
    /// timer's direction.
    #[verifier::when_used_as_spec(spec_is_completed)]
    pub fn is_completed(&self) -> (b: bool)
        ensures
            b == self.spec_is_completed(),
    {
        match self.direction {
            AnimationDirection::Forward => self.elapsed.now.nanos >= self.duration.nanos,
            AnimationDirection::Backward => self.elapsed.now.nanos == 0,
        }
    }

    /// Returns true if the timer is completed and no repetition is left, so
    /// that ticking it again changes nothing.
    #[verifier::when_used_as_spec(spec_is_all_done)]
    pub fn is_all_done(&self) -> (b: bool)
        ensures
            b == self.spec_is_all_done(),
    {
        let can_repeat = match self.repeat {
            Some(repeat) => !repeat.exhausted(),
            None => false,
        };
        self.is_completed() && !can_repeat
    }

    /// Advance the elapsed time by `delta` towards `direction`.
    ///
    /// Returns `Continue` where the tick stays short of the timeline's end,
    /// `Repeated` where it reaches the end and a repetition is left, and
    /// `AllDone` where it reaches the end and none is.
    pub fn tick(&mut self, delta: Duration, direction: AnimationDirection) -> (r: TickResult)
        ensures
            *final(self) == old(self).spec_tick(delta, direction),
            r == old(self).spec_tick_result(delta, direction),
    {
        let now = self.elapsed.now;
        let reaches_end = match direction {
            AnimationDirection::Forward => match now.nanos.checked_add(delta.nanos) {
                Some(sum) => sum >= self.duration.nanos,
                None => true,
            },
            AnimationDirection::Backward => delta.nanos >= now.nanos,
        };
        if !reaches_end {
            let moved = match direction {
                AnimationDirection::Forward => Duration { nanos: now.nanos + delta.nanos },
                AnimationDirection::Backward => Duration { nanos: now.nanos - delta.nanos },
            };
            self.elapsed = Elapsed { now: moved, previous: now, repeat_style: None };
            return TickResult::Continue;
        }
        let repeated = match self.repeat {
            Some(mut repeat) => {
                let advanced = repeat.try_advance_counter();
                self.repeat = Some(repeat);
                advanced
            },
            None => false,
        };
        if repeated {
            let style = match self.repeat_style {
                Some(style) => style,
                None => RepeatStyle::WrapAround,
            };
            let landed = land_repeated(now, delta, self.duration, direction, style);
            match style {
                RepeatStyle::WrapAround => {},
                RepeatStyle::PingPong => {
                    self.direction = direction.opposite();
                },
            }
            self.elapsed = Elapsed { now: landed, previous: now, repeat_style: Some(style) };
            return TickResult::Repeated;
        }
        let at_end = match direction {
            AnimationDirection::Forward => now.nanos >= self.duration.nanos,
            AnimationDirection::Backward => now.nanos == 0,
        };
        if !at_end {
            let end = match direction {
                AnimationDirection::Forward => self.duration,
                AnimationDirection::Backward => Duration { nanos: 0 },
            };
            self.elapsed = Elapsed { now: end, previous: now, repeat_style: None };
        }
        TickResult::AllDone
    }
}

impl Default for TweenTimer {
    /// A timer for an empty timeline.
    fn default() -> (timer: TweenTimer)
        ensures
            timer == TweenTimer::spec_new(Duration { nanos: 0 }),
    {
        TweenTimer::new(Duration::zero())
    }
}

/// A tick keeps the elapsed time on the timeline: a timer whose elapsed time
/// is not more than its duration is so again after any tick. A tick also
/// remembers where it started, unless it found the timer all done.
pub proof fn lemma_tick_stays_on_timeline(
    timer: TweenTimer,
    delta: Duration,
    direction: AnimationDirection,
)
    requires
        timer.elapsed.now@ <= timer.duration@,
    ensures
        timer.spec_tick(delta, direction).elapsed.now@ <= timer.duration@,
        timer.spec_tick(delta, direction).duration == timer.duration,
        timer.spec_tick(delta, direction) != timer ==> timer.spec_tick(
            delta,
            direction,
        ).elapsed.previous == timer.elapsed.now,
{
    if timer.reaches_end(delta, direction) && timer.can_repeat() {
        lemma_repeated_position_on_timeline(
            timer.elapsed.now@,
            delta@,
            timer.duration@,
            direction,
            timer.effective_repeat_style(),
        );
    }
}

/// A timer that is all done stays as it is, whatever the tick in its own
/// direction, and the tick reports `AllDone`.
pub proof fn lemma_tick_when_all_done(timer: TweenTimer, delta: Duration)
    requires
        timer.spec_is_all_done(),
    ensures
        timer.spec_tick(delta, timer.direction) == timer,
        timer.spec_tick_result(delta, timer.direction) is AllDone,
{
}

/// A tick in the timer's own direction that reports `AllDone` leaves the
/// timer all done, and one that reports `Continue` leaves it short of the end
/// of its timeline.
pub proof fn lemma_tick_result_tells_state(timer: TweenTimer, delta: Duration)
    ensures
        timer.spec_tick_result(delta, timer.direction) is AllDone ==> timer.spec_tick(
            delta,
            timer.direction,
        ).spec_is_all_done(),
        timer.spec_tick_result(delta, timer.direction) is Continue ==> !timer.spec_tick(
            delta,
            timer.direction,
        ).spec_is_completed(),
{
}

} // verus!
