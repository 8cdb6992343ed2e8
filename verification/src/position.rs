//! Position-state candidates and their ordered validation.
//!
//! A candidate carries an optional duration, position and playback rate.
//! All three are fixed-point values in micro-units: `1_000_000` stands for
//! one second of media time, or for a playback rate of `1.0`.

use vstd::prelude::*;

verus! {

/// One whole unit in the fixed-point encoding: a playback rate of `1.0`.
pub const RATE_ONE: i64 = 1_000_000;

/// A candidate position state, as handed to `set_position_state`.
///
/// All three fields are optional on input. A candidate with all three fields
/// absent asks for the position state to be cleared.
#[derive(Clone, Copy, PartialEq, Eq, Structural, Debug)]
pub struct PositionState {
    /// Media duration in micro-units.
    pub duration: Option<i64>,
    /// Current position in micro-units.
    pub position: Option<i64>,
    /// Playback rate in micro-units; `RATE_ONE` is normal speed.
    pub playback_rate: Option<i64>,
}

/// Why a candidate position state was rejected.
#[derive(Clone, Copy, PartialEq, Eq, Structural, Debug)]
pub enum InvalidState {
    /// The duration is not present or its value is null.
    DurationAbsent,
    /// The duration is negative.
    DurationNegative,
    /// The position is negative.
    PositionNegative,
    /// The position is greater than the duration.
    PositionExceedsDuration,
    /// The playback rate is zero or negative.
    PlaybackRateNotPositive,
    /// The playback instance refused the new playback rate.
    RateChangeRejected,
}

impl InvalidState {
    /// The user-visible description of this error.
    pub open spec fn spec_message(self) -> Seq<char> {
        match self {
            InvalidState::DurationAbsent => "duration is not present or its value is null"@,
            InvalidState::DurationNegative => "duration is negative"@,
            InvalidState::PositionNegative => "position is negative"@,
            InvalidState::PositionExceedsDuration => "position is greater than duration"@,
            InvalidState::PlaybackRateNotPositive => "playbackRate is zero"@,
            InvalidState::RateChangeRejected => "playbackRate change was rejected"@,
        }
    }

    /// The user-visible description of this error.
    pub fn message(&self) -> (r: &'static str)
        ensures
            r@ == self.spec_message(),
    {
        match self {
            InvalidState::DurationAbsent => "duration is not present or its value is null",
            InvalidState::DurationNegative => "duration is negative",
            InvalidState::PositionNegative => "position is negative",
            InvalidState::PositionExceedsDuration => "position is greater than duration",
            InvalidState::PlaybackRateNotPositive => "playbackRate is zero",
            InvalidState::RateChangeRejected => "playbackRate change was rejected",
        }
    }
}

/// A candidate with all three fields absent: it asks for a clear, which is
/// always accepted and skips every validation rule.
pub open spec fn is_empty_candidate(s: PositionState) -> bool {
    s.duration is None && s.position is None && s.playback_rate is None
}

/// The first rule a (non-empty) candidate breaks, in validation order, or
/// `None` when every rule holds.
pub open spec fn first_violation(s: PositionState) -> Option<InvalidState> {
    if s.duration is None {
        Some(InvalidState::DurationAbsent)
    } else if s.duration->0 < 0 {
        Some(InvalidState::DurationNegative)
    } else if s.position is Some && s.position->0 < 0 {
        Some(InvalidState::PositionNegative)
    } else if s.position is Some && s.position->0 > s.duration->0 {
        Some(InvalidState::PositionExceedsDuration)
    } else if s.playback_rate is Some && s.playback_rate->0 <= 0 {
        Some(InvalidState::PlaybackRateNotPositive)
    } else {
        None
    }
}

/// What validation of a candidate returns: an empty candidate and a candidate
/// that breaks no rule are accepted; any other is rejected with the first
/// rule it breaks.
pub open spec fn spec_validate(s: PositionState) -> Result<(), InvalidState> {
    if is_empty_candidate(s) {
        Ok(())
    } else {
        match first_violation(s) {
            Some(e) => Err(e),
            None => Ok(()),
        }
    }
}

/// The playback rate a valid candidate asks for: `RATE_ONE` when absent.
pub open spec fn effective_rate(s: PositionState) -> i64 {
    if s.playback_rate is Some {
        s.playback_rate->0
    } else {
        RATE_ONE
    }
}

/// The position a valid candidate asks for: zero when absent.
pub open spec fn effective_position(s: PositionState) -> i64 {
    if s.position is Some {
        s.position->0
    } else {
        0
    }
}

/// Validate a candidate position state, applying the ordered rules: duration
/// present, duration non-negative, position non-negative, position at most
/// the duration, playback rate positive. The first broken rule decides.
pub fn validate(s: &PositionState) -> (r: Result<(), InvalidState>)
    ensures
        r == spec_validate(*s),
{
    if s.duration.is_none() && s.position.is_none() && s.playback_rate.is_none() {
        return Ok(());
    }
    if s.duration.is_none() {
        return Err(InvalidState::DurationAbsent);
    }
    if let Some(d) = s.duration {
        if d < 0 {
            return Err(InvalidState::DurationNegative);
        }
    }
    if let Some(p) = s.position {
        if p < 0 {
            return Err(InvalidState::PositionNegative);
        }
        if let Some(d) = s.duration {
            if p > d {
                return Err(InvalidState::PositionExceedsDuration);
            }
        }
    }
    if let Some(rate) = s.playback_rate {
        if rate <= 0 {
            return Err(InvalidState::PlaybackRateNotPositive);
        }
    }
    Ok(())
}

/// Law: a candidate with all three fields absent is always accepted.
pub proof fn lemma_empty_candidate_accepted(s: PositionState)
    requires
        is_empty_candidate(s),
    ensures
        spec_validate(s) == Ok::<(), InvalidState>(()),
{
}

/// Law: a candidate with the duration absent and at least one other field
/// present is rejected for the missing duration.
pub proof fn lemma_missing_duration_rejected(s: PositionState)
    requires
        !is_empty_candidate(s),
        s.duration is None,
    ensures
        spec_validate(s) == Err::<(), InvalidState>(InvalidState::DurationAbsent),
{
}

/// Law: a negative duration is rejected as such, whatever the other fields
/// hold.
pub proof fn lemma_negative_duration_rejected(s: PositionState)
    requires
        s.duration matches Some(d) && d < 0,
    ensures
        spec_validate(s) == Err::<(), InvalidState>(InvalidState::DurationNegative),
{
}

/// Law: with a valid duration, a negative position is rejected as such.
pub proof fn lemma_negative_position_rejected(s: PositionState)
    requires
        s.duration matches Some(d) && d >= 0,
        s.position matches Some(p) && p < 0,
    ensures
        spec_validate(s) == Err::<(), InvalidState>(InvalidState::PositionNegative),
{
}

/// Law: with both present and non-negative, a position greater than the
/// duration is rejected as such.
pub proof fn lemma_position_exceeding_duration_rejected(s: PositionState)
    requires
        s.duration matches Some(d) && d >= 0,
        s.position matches Some(p) && p >= 0 && p > s.duration->0,
    ensures
        spec_validate(s) == Err::<(), InvalidState>(InvalidState::PositionExceedsDuration),
{
}

/// Law: a zero or negative playback rate is rejected as such, but only once
/// the duration and position rules hold.
pub proof fn lemma_nonpositive_rate_rejected(s: PositionState)
    requires
        s.duration matches Some(d) && d >= 0,
        s.position matches Some(p) ==> p >= 0 && p <= s.duration->0,
        s.playback_rate matches Some(r) && r <= 0,
    ensures
        spec_validate(s) == Err::<(), InvalidState>(InvalidState::PlaybackRateNotPositive),
{
}

} // verus!
