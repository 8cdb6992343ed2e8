//! The playback-state enum, the playback instance the session controls, and
//! the built-in behavior for actions without a custom handler.

use vstd::prelude::*;
use crate::actions::ActionKind;
use crate::position::InvalidState;

verus! {

/// The session's playback state; freely settable, with no transition
/// restrictions.
#[derive(Clone, Copy, PartialEq, Eq, Structural, Debug)]
pub enum PlaybackState {
    NoneState,
    Playing,
    Paused,
}

/// One operation a playback instance received, with its argument in
/// micro-units where it has one.
#[derive(Clone, Copy, PartialEq, Eq, Structural, Debug)]
pub enum PlaybackOp {
    Play,
    Pause,
    ResetPositionTracking,
    SetDuration(i64),
    SetPlaybackRate(i64),
    SetCurrentTime(i64),
}

/// The media playback instance under the session's control. The session
/// sees it only through the operations it hands over, recorded oldest
/// first in `ops`.
pub trait PlaybackInstance: Sized {
    /// The operations this instance has received, oldest first.
    spec fn ops(&self) -> Seq<PlaybackOp>;

    /// Start playback.
    fn play(&mut self)
        ensures
            final(self).ops() == old(self).ops().push(PlaybackOp::Play),
    ;

    /// Pause playback.
    fn pause(&mut self)
        ensures
            final(self).ops() == old(self).ops().push(PlaybackOp::Pause),
    ;

    /// Clear the instance's position tracking.
    fn reset_position_tracking(&mut self)
        ensures
            final(self).ops() == old(self).ops().push(PlaybackOp::ResetPositionTracking),
    ;

    /// Set the media duration.
    fn set_duration(&mut self, duration: i64)
        ensures
            final(self).ops() == old(self).ops().push(PlaybackOp::SetDuration(duration)),
    ;

    /// Set the playback rate. The instance may refuse the new rate; when it
    /// does, it reports an error and takes nothing.
    fn set_playback_rate(&mut self, rate: i64) -> (r: Result<(), InvalidState>)
        ensures
            r is Ok ==> final(self).ops() == old(self).ops().push(
                PlaybackOp::SetPlaybackRate(rate),
            ),
            r is Err ==> final(self).ops() == old(self).ops(),
    ;

    /// Set the current position.
    fn set_current_time(&mut self, position: i64)
        ensures
            final(self).ops() == old(self).ops().push(PlaybackOp::SetCurrentTime(position)),
    ;
}

/// What the built-in behavior hands to a bound instance: play and pause
/// reach it, every other action is an explicit no-op.
pub open spec fn default_effect(pre: Seq<PlaybackOp>, action: ActionKind) -> Seq<PlaybackOp> {
    match action {
        ActionKind::Play => pre.push(PlaybackOp::Play),
        ActionKind::Pause => pre.push(PlaybackOp::Pause),
        _ => pre,
    }
}

/// Apply the built-in behavior for an action with no custom handler to a
/// bound playback instance.
pub fn dispatch_default<P: PlaybackInstance>(instance: &mut P, action: ActionKind)
    ensures
        final(instance).ops() == default_effect(old(instance).ops(), action),
{
    match action {
        ActionKind::Play => instance.play(),
        ActionKind::Pause => instance.pause(),
        ActionKind::SeekBackward => {},
        ActionKind::SeekForward => {},
        ActionKind::PreviousTrack => {},
        ActionKind::NextTrack => {},
        ActionKind::SkipAd => {},
        ActionKind::Stop => {},
        ActionKind::SeekTo => {},
    }
}

/// A playback instance that records the operations it receives, accepting
/// or refusing rate changes as configured.
pub struct RecordingInstance {
    /// The operations received, oldest first.
    pub received: Vec<PlaybackOp>,
    /// Whether rate changes are accepted.
    pub accepts_rate_changes: bool,
}

impl RecordingInstance {
    /// An instance that saw no operation yet.
    pub fn new(accepts_rate_changes: bool) -> (r: RecordingInstance)
        ensures
            r.ops() == Seq::<PlaybackOp>::empty(),
            r.accepts_rate_changes == accepts_rate_changes,
    {
        RecordingInstance { received: Vec::new(), accepts_rate_changes }
    }
}

impl PlaybackInstance for RecordingInstance {
    open spec fn ops(&self) -> Seq<PlaybackOp> {
        self.received@
    }

    fn play(&mut self) {
        self.received.push(PlaybackOp::Play);
    }

    fn pause(&mut self) {
        self.received.push(PlaybackOp::Pause);
    }

    fn reset_position_tracking(&mut self) {
        self.received.push(PlaybackOp::ResetPositionTracking);
    }

    fn set_duration(&mut self, duration: i64) {
        self.received.push(PlaybackOp::SetDuration(duration));
    }

    fn set_playback_rate(&mut self, rate: i64) -> (r: Result<(), InvalidState>)
        ensures
            r is Ok <==> old(self).accepts_rate_changes,
            r is Err ==> r == Err::<(), InvalidState>(InvalidState::RateChangeRejected),
            final(self).accepts_rate_changes == old(self).accepts_rate_changes,
    {
        if self.accepts_rate_changes {
            self.received.push(PlaybackOp::SetPlaybackRate(rate));
            Ok(())
        } else {
            Err(InvalidState::RateChangeRejected)
        }
    }

    fn set_current_time(&mut self, position: i64) {
        self.received.push(PlaybackOp::SetCurrentTime(position));
    }
}

} // verus!
