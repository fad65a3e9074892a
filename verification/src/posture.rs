//! The two postures, the tagged state that remembers when the active posture
//! was last brought up to date, and the events that drive the timer.

use vstd::prelude::*;
use crate::time::Moment;

verus! {

/// How the user is at the desk.
#[derive(Clone, Copy, Debug, PartialEq, Eq, Structural, Hash)]
pub enum Posture {
    Sitting,
    Standing,
}

impl Posture {
    /// The posture that this one is not.
    pub open spec fn other(self) -> Posture {
        match self {
            Posture::Sitting => Posture::Standing,
            Posture::Standing => Posture::Sitting,
        }
    }
}

/// The active posture together with the moment up to which its time has been
/// counted. The two facts live in one value, so neither can change without the
/// other.
#[derive(Clone, Copy, Debug, PartialEq, Eq, Structural, Hash)]
pub enum PostureState {
    Sitting { last_tick: Moment },
    Standing { last_tick: Moment },
}

impl PostureState {
    pub open spec fn spec_posture(self) -> Posture {
        match self {
            PostureState::Sitting { .. } => Posture::Sitting,
            PostureState::Standing { .. } => Posture::Standing,
        }
    }

    pub open spec fn spec_last_tick(self) -> Moment {
        match self {
            PostureState::Sitting { last_tick } => last_tick,
            PostureState::Standing { last_tick } => last_tick,
        }
    }

    #[verifier::when_used_as_spec(spec_posture)]
    pub fn posture(self) -> (posture: Posture)
        ensures
            posture == self.spec_posture(),
    {
        match self {
            PostureState::Sitting { .. } => Posture::Sitting,
            PostureState::Standing { .. } => Posture::Standing,
        }
    }

    #[verifier::when_used_as_spec(spec_last_tick)]
    pub fn last_tick(self) -> (last_tick: Moment)
        ensures
            last_tick == self.spec_last_tick(),
    {
        match self {
            PostureState::Sitting { last_tick } => last_tick,
            PostureState::Standing { last_tick } => last_tick,
        }
    }
}

/// What can happen to a timer.
#[derive(Clone, Copy, Debug, PartialEq, Eq, Structural, Hash)]
pub enum Event {
    /// The user changes posture.
    Toggle,
    /// The user starts over.
    Reset,
    /// The clock has reached the given moment.
    Tick(Moment),
}

} // verus!
