//! Span tween players and the system that plays them.
//!
//! The system works on what the host has read from its entities for one
//! frame, and leaves there what the host is to store again.

use crate::span_tween::resolve::{resolve_state, spec_resolve_state};
use crate::span_tween::time_span::{TimeBound, TweenTimeSpan};
use crate::time::Duration;
use crate::tween::{TweenPlayerMarker, TweenState};
use crate::tween_timer::AnimationDirection::Forward;
use crate::tween_timer::{AnimationDirection, Elapsed, Repeat, RepeatStyle, TickResult, TweenTimer};
use bevy::ecs::entity::Entity;
use vstd::prelude::*;
use vstd::std_specs::convert::FromSpecImpl;

verus! {

/// `bevy::ecs::entity::Entity`, the host's name for an entity. The library
/// hands entities on and never looks into one.
#[verifier::external_type_specification]
#[verifier::external_body]
pub struct ExEntity(Entity);

/// Span tween player.
#[derive(Debug, Clone, Copy, PartialEq, Eq, Hash, Structural)]
pub struct SpanTweenPlayer {
    /// The inner timer.
    pub timer: TweenTimer,
}

impl Default for SpanTweenPlayer {
    /// A player with the default timer.
    fn default() -> (player: SpanTweenPlayer)
        ensures
            player.timer == TweenTimer::spec_new(Duration { nanos: 0 }),
    {
        SpanTweenPlayer { timer: TweenTimer::default() }
    }
}

impl From<TweenTimer> for SpanTweenPlayer {
    fn from(value: TweenTimer) -> (player: SpanTweenPlayer) {
        SpanTweenPlayer { timer: value }
    }
}

impl FromSpecImpl<TweenTimer> for SpanTweenPlayer {
    open spec fn obeys_from_spec() -> bool {
        true
    }

    open spec fn from_spec(value: TweenTimer) -> SpanTweenPlayer {
        SpanTweenPlayer { timer: value }
    }
}

/// What makes an entity a span tween player.
#[derive(Debug, Clone, Copy, PartialEq, Eq, Hash, Structural)]
pub struct SpanTweenPlayerBundle {
    /// The player with its timer.
    pub span_player: SpanTweenPlayer,
    /// The marker of a tween player.
    pub tween_player_marker: TweenPlayerMarker,
}

impl SpanTweenPlayerBundle {
    /// The bundle of a player with the timer `timer`.
    pub open spec fn with_timer(timer: TweenTimer) -> SpanTweenPlayerBundle {
        SpanTweenPlayerBundle {
            span_player: SpanTweenPlayer { timer },
            tween_player_marker: TweenPlayerMarker,
        }
    }

    /// Create new [`SpanTweenPlayerBundle`] with `duration`.
    pub fn new(duration: Duration) -> (bundle: SpanTweenPlayerBundle)
        ensures
            bundle == Self::with_timer(TweenTimer::spec_new(duration)),
    {
        let mut t = SpanTweenPlayerBundle::default();
        t.span_player.timer.set_duration(duration);
        t
    }

    /// [`SpanTweenPlayerBundle`] with the specified `paused` for the inner
    /// [`TweenTimer`].
    pub fn with_paused(self, paused: bool) -> (bundle: SpanTweenPlayerBundle)
        ensures
            bundle == Self::with_timer(TweenTimer { paused, ..self.span_player.timer }),
    {
        let mut bundle = self;
        bundle.span_player.timer.set_paused(paused);
        bundle
    }

    /// [`SpanTweenPlayerBundle`] with the specified `direction` for the inner
    /// [`TweenTimer`].
    pub fn with_direction(self, direction: AnimationDirection) -> (bundle:
        SpanTweenPlayerBundle)
        ensures
            bundle == Self::with_timer(TweenTimer { direction, ..self.span_player.timer }),
    {
        let mut bundle = self;
        bundle.span_player.timer.set_direction(direction);
        bundle
    }

    /// [`SpanTweenPlayerBundle`] with the specified `repeat`, setting the
    /// inner [`TweenTimer`]'s repeat to Some.
    pub fn with_repeat(self, repeat: Repeat) -> (bundle: SpanTweenPlayerBundle)
        ensures
            bundle == Self::with_timer(
                TweenTimer { repeat: Some(repeat), ..self.span_player.timer },
            ),
    {
        let mut bundle = self;
        bundle.span_player.timer.set_repeat(Some(repeat));
        bundle
    }

    /// [`SpanTweenPlayerBundle`] with the specified `repeat_style`, setting
    /// the inner [`TweenTimer`]'s repeat style to Some.
    pub fn with_repeat_style(self, repeat_style: RepeatStyle) -> (bundle:
        SpanTweenPlayerBundle)
        ensures
            bundle == Self::with_timer(
                TweenTimer { repeat_style: Some(repeat_style), ..self.span_player.timer },
            ),
    {
        let mut bundle = self;
        bundle.span_player.timer.set_repeat_style(Some(repeat_style));
        bundle
    }

    /// [`SpanTweenPlayerBundle`] without repeat, setting the inner
    /// [`TweenTimer`]'s repeat to None.
    pub fn without_repeat(self) -> (bundle: SpanTweenPlayerBundle)
        ensures
            bundle == Self::with_timer(TweenTimer { repeat: None, ..self.span_player.timer }),
    {
        let mut bundle = self;
        bundle.span_player.timer.set_repeat(None);
        bundle
    }

    /// [`SpanTweenPlayerBundle`] without repeat style, setting the inner
    /// [`TweenTimer`]'s repeat style to None.
    pub fn without_repeat_style(self) -> (bundle: SpanTweenPlayerBundle)
        ensures
            bundle == Self::with_timer(
                TweenTimer { repeat_style: None, ..self.span_player.timer },
            ),
    {
        let mut bundle = self;
        bundle.span_player.timer.set_repeat_style(None);
        bundle
    }
}

impl Default for SpanTweenPlayerBundle {
    /// The bundle of a player with the default timer.
    fn default() -> (bundle: SpanTweenPlayerBundle)
        ensures
            bundle == SpanTweenPlayerBundle::with_timer(
                TweenTimer::spec_new(Duration { nanos: 0 }),
            ),
    {
        SpanTweenPlayerBundle {
            span_player: SpanTweenPlayer::default(),
            tween_player_marker: TweenPlayerMarker,
        }
    }
}

impl From<TweenTimer> for SpanTweenPlayerBundle {
    fn from(value: TweenTimer) -> (bundle: SpanTweenPlayerBundle) {
        SpanTweenPlayerBundle {
            span_player: SpanTweenPlayer { timer: value },
            tween_player_marker: TweenPlayerMarker,
        }
    }
}

impl FromSpecImpl<TweenTimer> for SpanTweenPlayerBundle {
    open spec fn obeys_from_spec() -> bool {
        true
    }

    open spec fn from_spec(value: TweenTimer) -> SpanTweenPlayerBundle {
        SpanTweenPlayerBundle::with_timer(value)
    }
}

/// What makes an entity a span tween.
#[derive(Debug, Clone, Copy, PartialEq, Eq, Hash)]
pub struct SpanTweenBundle {
    /// The range of time during which this span tween is played.
    pub span: TweenTimeSpan,
    /// The progress of the tween.
    pub state: TweenState,
}

impl SpanTweenBundle {
    /// Create a new [`SpanTweenBundle`] from this `span`.
    pub fn new(span: TweenTimeSpan) -> (bundle: SpanTweenBundle)
        ensures
            bundle.span == span,
            bundle.state == (TweenState {
                local_elapsed: None,
                local_previous_elapsed: None,
                local_end: Duration { nanos: 0 },
                direction: Forward,
            }),
    {
        SpanTweenBundle { span, state: TweenState::default() }
    }

    /// The bundle after a tick that left the timer's elapsed time as
    /// `elapsed` and its direction as `direction`.
    pub open spec fn spec_played(
        self,
        elapsed: Elapsed,
        direction: AnimationDirection,
    ) -> SpanTweenBundle {
        SpanTweenBundle {
            span: self.span,
            state: spec_resolve_state(self.span, self.state, elapsed, direction),
        }
    }

    /// Bring the tween's state up to date after a tick that left the timer's
    /// elapsed time as `elapsed` and its direction as `direction`.
    pub fn play(&mut self, elapsed: &Elapsed, direction: AnimationDirection)
        ensures
            *final(self) == old(self).spec_played(*elapsed, direction),
    {
        self.state = resolve_state(&self.span, &self.state, elapsed, direction);
    }
}

impl Default for SpanTweenBundle {
    /// The bundle of a tween with the empty span `[0, 0)`.
    fn default() -> (bundle: SpanTweenBundle)
        ensures
            bundle.span.spec_min() == TimeBound::Inclusive(Duration { nanos: 0 }),
            bundle.span.spec_max() == TimeBound::Exclusive(Duration { nanos: 0 }),
            bundle.state == (TweenState {
                local_elapsed: None,
                local_previous_elapsed: None,
                local_end: Duration { nanos: 0 },
                direction: Forward,
            }),
    {
        SpanTweenBundle { span: TweenTimeSpan::default(), state: TweenState::default() }
    }
}

/// Fired when a span tween player repeated or completed.
#[derive(Debug, Clone, Copy, PartialEq, Eq, Hash)]
pub struct SpanTweenPlayerEnded {
    /// The player whose timer just ended.
    pub tween_player: Entity,
    /// The timer's direction after the tick. Where the timer turned around,
    /// this is the direction that it turned to.
    pub current_direction: AnimationDirection,
    /// The repeat this tween player had.
    pub with_repeat: Option<Repeat>,
}

impl SpanTweenPlayerEnded {
    /// Whether the player has no repetition left.
    pub open spec fn spec_is_all_done(&self) -> bool {
        match self.with_repeat {
            Some(repeat) => repeat.spec_exhausted(),
            None => true,
        }
    }

    /// Returns true if the player's timer is all done: there will be no more
    /// ticking, and every configured repeat is used up.
    #[verifier::when_used_as_spec(spec_is_all_done)]
    pub fn is_all_done(&self) -> (b: bool)
        ensures
            b == self.spec_is_all_done(),
    {
        match self.with_repeat {
            Some(repeat) => repeat.exhausted(),
            None => true,
        }
    }
}

/// A child of a player entity, as far as the player system reads it.
#[derive(Debug, Clone, Copy, PartialEq, Eq, Hash)]
pub struct SpanTweenChild {
    /// The child.
    pub entity: Entity,
    /// Whether the child is a span tween player itself. The tween of such a
    /// child is its own to play.
    pub is_player: bool,
    /// The child's span and tween state, where it has both.
    pub tween: Option<SpanTweenBundle>,
}

impl SpanTweenChild {
    /// The child after a tick of its parent's timer that left the timer's
    /// elapsed time as `elapsed` and its direction as `direction`.
    pub open spec fn spec_played(
        self,
        elapsed: Elapsed,
        direction: AnimationDirection,
    ) -> SpanTweenChild {
        match self.tween {
            Some(tween) if !self.is_player => SpanTweenChild {
                tween: Some(tween.spec_played(elapsed, direction)),
                ..self
            },
            _ => self,
        }
    }

    /// Bring the child's tween up to date after a tick of its parent's timer
    /// that left the timer's elapsed time as `elapsed` and its direction as
    /// `direction`. A child that is a player, or that has no tween, is left
    /// alone.
    pub fn play(&mut self, elapsed: &Elapsed, direction: AnimationDirection)
        ensures
            *final(self) == old(self).spec_played(*elapsed, direction),
    {
        if self.is_player {
            return ;
        }
        match self.tween {
            Some(mut tween) => {
                tween.play(elapsed, direction);
                self.tween = Some(tween);
            },
            None => {},
        }
    }
}

/// A span tween player entity, as the player system reads it in one frame.
#[derive(Debug, PartialEq, Eq, Hash)]
pub struct SpanTweenPlayerEntity {
    /// The player entity.
    pub entity: Entity,
    /// The player with its timer.
    pub player: SpanTweenPlayer,
    /// The time of the frame, scaled by the speed of the player's timer.
    pub delta: Duration,
    /// The player's own span and tween state, where it has both.
    pub tween: Option<SpanTweenBundle>,
    /// The player's children, in the host's order.
    pub children: Vec<SpanTweenChild>,
}

impl SpanTweenPlayerEntity {
    /// Whether the system ticks the player's timer: it is neither paused nor
    /// all done.
    pub open spec fn is_ticked(&self) -> bool {
        !self.player.timer.paused && !self.player.timer.spec_is_all_done()
    }

    /// The player's timer after the frame.
    pub open spec fn timer_after(&self) -> TweenTimer {
        if self.is_ticked() {
            self.player.timer.spec_tick(self.delta, self.player.timer.direction)
        } else {
            self.player.timer
        }
    }

    /// What the system fires for this player: nothing where the timer is not
    /// ticked or goes on, else the player's entity with the direction and the
    /// repeat that the tick left.
    pub open spec fn ended(&self) -> Option<SpanTweenPlayerEnded> {
        if self.is_ticked() && self.player.timer.spec_tick_result(
            self.delta,
            self.player.timer.direction,
        ) !is Continue {
            Some(
                SpanTweenPlayerEnded {
                    tween_player: self.entity,
                    current_direction: self.timer_after().direction,
                    with_repeat: self.timer_after().repeat,
                },
            )
        } else {
            None
        }
    }

    /// The player's own tween after the frame.
    pub open spec fn tween_after(&self) -> Option<SpanTweenBundle> {
        match self.tween {
            Some(tween) if self.is_ticked() => Some(
                tween.spec_played(self.timer_after().elapsed, self.timer_after().direction),
            ),
            _ => self.tween,
        }
    }

    /// The player's `i`-th child after the frame.
    pub open spec fn child_after(&self, i: int) -> SpanTweenChild {
        if self.is_ticked() {
            self.children@[i].spec_played(
                self.timer_after().elapsed,
                self.timer_after().direction,
            )
        } else {
            self.children@[i]
        }
    }

    /// Whether `after` is what one frame makes of this player: the timer is
    /// ticked unless it is paused or all done, and then the player's own
    /// tween and the tween of each child that is no player are brought up to
    /// date with the timer. Nothing else changes.
    pub open spec fn is_played_to(&self, after: &SpanTweenPlayerEntity) -> bool {
        &&& after.entity == self.entity
        &&& after.delta == self.delta
        &&& after.player.timer == self.timer_after()
        &&& after.tween == self.tween_after()
        &&& after.children@.len() == self.children@.len()
        &&& forall|i: int|
            0 <= i < self.children@.len() ==> #[trigger] after.children@[i] == self.child_after(i)
    }

    /// Play one frame: tick the player's timer by `delta`, unless it is
    /// paused or all done, and bring the tweens that the player owns up to
    /// date with it. Returns what to fire where the timer repeated or
    /// completed.
    pub fn play(&mut self) -> (ended: Option<SpanTweenPlayerEnded>)
        ensures
            old(self).is_played_to(final(self)),
            ended == old(self).ended(),
    {
        if self.player.timer.paused {
            return None;
        }
        if self.player.timer.is_all_done() {
            return None;
        }
        let direction = self.player.timer.direction;
        let tick_result = self.player.timer.tick(self.delta, direction);
        let ended = match tick_result {
            TickResult::AllDone | TickResult::Repeated => Some(
                SpanTweenPlayerEnded {
                    tween_player: self.entity,
                    current_direction: self.player.timer.direction,
                    with_repeat: self.player.timer.repeat,
                },
            ),
            TickResult::Continue => None,
        };
        let elapsed = self.player.timer.elapsed();
        let direction = self.player.timer.direction;
        match self.tween {
            Some(mut tween) => {
                tween.play(&elapsed, direction);
                self.tween = Some(tween);
            },
            None => {},
        }
        let mut i: usize = 0;
        while i < self.children.len()
            invariant
                i <= self.children@.len(),
                self.children@.len() == old(self).children@.len(),
                old(self).is_ticked(),
                elapsed == old(self).timer_after().elapsed,
                direction == old(self).timer_after().direction,
                self.entity == old(self).entity,
                self.delta == old(self).delta,
                self.player.timer == old(self).timer_after(),
                self.tween == old(self).tween_after(),
                forall|k: int| 0 <= k < i ==> #[trigger] self.children@[k] == old(self).child_after(k),
                forall|k: int|
                    i <= k < self.children@.len() ==> #[trigger] self.children@[k] == old(
                        self,
                    ).children@[k],
            decreases self.children@.len() - i,
        {
            self.children[i].play(&elapsed, direction);
            i += 1;
        }
        ended
    }
}

/// What the system fires for `players`, in their order.
pub open spec fn ended_players(players: Seq<SpanTweenPlayerEntity>) -> Seq<SpanTweenPlayerEnded>
    decreases players.len(),
{
    if players.len() == 0 {
        Seq::empty()
    } else {
        let earlier = ended_players(players.drop_last());
        match players.last().ended() {
            Some(ended) => earlier.push(ended),
            None => earlier,
        }
    }
}

/// System for updating any span tweens to the correct [`TweenState`] as
/// playing by its span tween player.
///
/// Plays one frame of every player in `players` and appends to
/// `ended_writer`, in the order of the players, what is to be fired for those
/// whose timer repeated or completed.
pub fn span_tween_player_system(
    players: &mut Vec<SpanTweenPlayerEntity>,
    ended_writer: &mut Vec<SpanTweenPlayerEnded>,
)
    ensures
        final(players)@.len() == old(players)@.len(),
        forall|i: int|
            0 <= i < old(players)@.len() ==> (#[trigger] old(players)@[i]).is_played_to(
                &final(players)@[i],
            ),
        final(ended_writer)@ == old(ended_writer)@ + ended_players(old(players)@),
{
    let mut i: usize = 0;
    while i < players.len()
        invariant
            i <= players@.len(),
            players@.len() == old(players)@.len(),
            forall|k: int|
                0 <= k < i ==> (#[trigger] old(players)@[k]).is_played_to(&players@[k]),
            forall|k: int| i <= k < players@.len() ==> #[trigger] players@[k] == old(players)@[k],
            ended_writer@ == old(ended_writer)@ + ended_players(old(players)@.take(i as int)),
        decreases players@.len() - i,
    {
        let ended = players[i].play();
        proof {
            let before = old(players)@;
            assert(before.take(i + 1).drop_last() == before.take(i as int));
            assert(before.take(i + 1).last() == before[i as int]);
        }
        match ended {
            Some(ended) => {
                ended_writer.push(ended);
            },
            None => {},
        }
        i += 1;
    }
    proof {
        assert(old(players)@.take(i as int) == old(players)@);
    }
}

} // verus!
