//! The timer as mathematics: its state over unbounded naturals, the three
//! transitions, and when a timer can take an event.

use vstd::prelude::*;
use crate::posture::{Event, Posture};
use crate::time::{elapsed_between, NANOS_PER_SEC};

verus! {

/// Sitting for longer than this many nanoseconds raises the warning: one
/// minute.
pub const MAX_SITTING_NANOS: u128 = 60 * NANOS_PER_SEC;

/// The longest stretch of standing that is thought sensible, in nanoseconds:
/// thirty minutes. No warning is derived from it.
pub const MAX_STANDING_NANOS: u128 = 1800 * NANOS_PER_SEC;

/// How often a timer expects a tick, in milliseconds. The finer the ticks, the
/// closer the time counted follows the clock; their number does not change it.
pub const TICK_INTERVAL_MILLIS: u64 = 10;

/// What a timer knows, in nanoseconds on its own clock.
pub struct TimerState {
    /// The active posture.
    pub posture: Posture,
    /// The moment up to which the active posture's time has been counted.
    pub last_tick: nat,
    /// Time counted for sitting.
    pub sitting: nat,
    /// Time counted for standing.
    pub standing: nat,
}

impl TimerState {
    /// A fresh timer at `now`: sitting, with nothing counted.
    pub open spec fn initial(now: nat) -> TimerState {
        TimerState { posture: Posture::Sitting, last_tick: now, sitting: 0, standing: 0 }
    }

    /// The time counted for the active posture.
    pub open spec fn active_elapsed(self) -> nat {
        match self.posture {
            Posture::Sitting => self.sitting,
            Posture::Standing => self.standing,
        }
    }

    /// The time counted for the posture that is not active.
    pub open spec fn inactive_elapsed(self) -> nat {
        match self.posture {
            Posture::Sitting => self.standing,
            Posture::Standing => self.sitting,
        }
    }

    /// The clock reaches `now`: the time since the last tick goes to the active
    /// posture, the other posture's time stays, and `now` becomes the last
    /// tick. A `now` before the last tick adds nothing.
    pub open spec fn tick(self, now: nat) -> TimerState {
        let delta = elapsed_between(self.last_tick, now);
        match self.posture {
            Posture::Sitting => TimerState { last_tick: now, sitting: self.sitting + delta, ..self },
            Posture::Standing => TimerState {
                last_tick: now,
                standing: self.standing + delta,
                ..self
            },
        }
    }

    /// The user changes posture at `now`: the time of the posture that is left
    /// starts over, the time of the posture that is entered is kept.
    pub open spec fn toggle(self, now: nat) -> TimerState {
        match self.posture {
            Posture::Sitting => TimerState {
                posture: Posture::Standing,
                last_tick: now,
                sitting: 0,
                standing: self.standing,
            },
            Posture::Standing => TimerState {
                posture: Posture::Sitting,
                last_tick: now,
                sitting: self.sitting,
                standing: 0,
            },
        }
    }

    /// The user starts over at `now`, whatever the state was.
    pub open spec fn reset(self, now: nat) -> TimerState {
        TimerState::initial(now)
    }

    /// One event. `now` is what the clock shows when the event arrives; a tick
    /// brings its own moment and does not look at the clock.
    pub open spec fn step(self, event: Event, now: nat) -> TimerState {
        match event {
            Event::Toggle => self.toggle(now),
            Event::Reset => self.reset(now),
            Event::Tick(at) => self.tick(at@),
        }
    }

    /// Whether the time counted after a tick at `now` still fits the widest
    /// machine integer, in which a timer keeps it.
    pub open spec fn tick_fits(self, now: nat) -> bool {
        self.active_elapsed() + elapsed_between(self.last_tick, now) <= u128::MAX
    }

    /// Whether a timer in this state can take `event`. Only a tick can be too
    /// much for it.
    pub open spec fn accepts(self, event: Event) -> bool {
        event matches Event::Tick(at) ==> self.tick_fits(at@)
    }

    /// Whether the user has been sitting for too long.
    pub open spec fn warning(self) -> bool {
        self.sitting > MAX_SITTING_NANOS
    }

    /// Only the active posture holds time: a posture's time starts over when
    /// the posture is left, and nothing is added to it until it is entered
    /// again.
    pub open spec fn wf(self) -> bool {
        self.inactive_elapsed() == 0
    }
}

} // verus!
