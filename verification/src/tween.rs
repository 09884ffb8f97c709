//! What a tween carries from frame to frame.

use crate::time::Duration;
use crate::tween_timer::AnimationDirection;
use vstd::prelude::*;

verus! {

/// Marks an entity as a tween player.
#[derive(Debug, Clone, Copy, PartialEq, Eq, Hash, Structural)]
pub struct TweenPlayerMarker;

impl Default for TweenPlayerMarker {
    fn default() -> (marker: TweenPlayerMarker)
        ensures
            marker == TweenPlayerMarker,
    {
        TweenPlayerMarker
    }
}

/// The progress of one tween, on a clock of its own that starts at zero and
/// ends at `local_end`.
///
/// A tween player overwrites the whole state whenever one of its ticks
/// concerns the tween. What applies the tween reads it.
#[derive(Debug, Clone, Copy, PartialEq, Eq, Hash, Structural)]
pub struct TweenState {
    /// The time elapsed on the tween's own clock; `None` as long as no tick
    /// has concerned the tween.
    pub local_elapsed: Option<Duration>,
    /// What `local_elapsed` was before it was last overwritten.
    pub local_previous_elapsed: Option<Duration>,
    /// The length of the tween's own clock.
    pub local_end: Duration,
    /// The direction in which the tween is played.
    pub direction: AnimationDirection,
}

impl Default for TweenState {
    /// The state of a tween that no tick has concerned yet.
    fn default() -> (state: TweenState)
        ensures
            state == (TweenState {
                local_elapsed: None,
                local_previous_elapsed: None,
                local_end: Duration { nanos: 0 },
                direction: AnimationDirection::Forward,
            }),
    {
        TweenState {
            local_elapsed: None,
            local_previous_elapsed: None,
            local_end: Duration::zero(),
            direction: AnimationDirection::Forward,
        }
    }
}

} // verus!
