//! The timer itself: the state in machine integers, and the operations that
//! carry out the transitions of the model.

use vstd::prelude::*;
use std::time::Instant;
use crate::model::{TimerState, MAX_SITTING_NANOS};
use crate::posture::{Event, Posture, PostureState};
use crate::time::{Moment, Span};

verus! {

/// A posture timer with a clock of its own.
///
/// The clock starts with the timer: every `Moment` that the timer takes or
/// gives counts from the instant at which the timer was made.
pub struct Timer {
    origin: Instant,
    state: PostureState,
    sitting_duration: Span,
    standing_duration: Span,
}

impl View for Timer {
    type V = TimerState;

    closed spec fn view(&self) -> TimerState {
        TimerState {
            posture: self.state.posture(),
            last_tick: self.state.last_tick()@,
            sitting: self.sitting_duration@,
            standing: self.standing_duration@,
        }
    }
}

impl Timer {
    #[verifier::type_invariant]
    spec fn inv(&self) -> bool {
        self@.wf()
    }

    /// A timer that starts now: sitting, nothing counted, and the last tick at
    /// the origin of its clock.
    pub fn new() -> (timer: Timer)
        ensures
            timer@ == TimerState::initial(0),
            timer@.wf(),
    {
        Timer {
            origin: Instant::now(),
            state: PostureState::Sitting { last_tick: Moment { nanos: 0 } },
            sitting_duration: Span { nanos: 0 },
            standing_duration: Span { nanos: 0 },
        }
    }

    /// Where `at` lies on this timer's clock. An instant before the timer was
    /// made reads as the origin.
    pub fn moment_at(&self, at: Instant) -> (moment: Moment) {
        Moment { nanos: at.saturating_duration_since(self.origin).as_nanos() }
    }

    /// What this timer's clock shows at the time of the call.
    fn now(&self) -> (moment: Moment) {
        self.moment_at(Instant::now())
    }

    /// Whether `event` can be handed to `handle`: whether the time counted
    /// would still fit.
    pub fn accepts(&self, event: Event) -> (ok: bool)
        ensures
            ok == self@.accepts(event),
    {
        match event {
            Event::Tick(now) => {
                let delta: Span = now.since(self.state.last_tick());
                let counted: Span = match self.state {
                    PostureState::Sitting { .. } => self.sitting_duration,
                    PostureState::Standing { .. } => self.standing_duration,
                };
                counted.nanos.checked_add(delta.nanos).is_some()
            },
            _ => true,
        }
    }

    /// The clock has reached `now`: the time since the last tick is added to
    /// the active posture. A `now` before the last tick adds nothing, and
    /// becomes the last tick all the same.
    pub fn tick(&mut self, now: Moment)
        requires
            old(self)@.tick_fits(now@),
        ensures
            final(self)@ == old(self)@.tick(now@),
            final(self)@.wf(),
            now@ <= old(self)@.last_tick ==> final(self)@.sitting == old(self)@.sitting
                && final(self)@.standing == old(self)@.standing,
    {
        proof {
            use_type_invariant(&*self);
        }
        let delta: Span = now.since(self.state.last_tick());
        match self.state {
            PostureState::Sitting { .. } => {
                *self = Timer {
                    origin: self.origin,
                    state: PostureState::Sitting { last_tick: now },
                    sitting_duration: Span { nanos: self.sitting_duration.nanos + delta.nanos },
                    standing_duration: self.standing_duration,
                };
            },
            PostureState::Standing { .. } => {
                *self = Timer {
                    origin: self.origin,
                    state: PostureState::Standing { last_tick: now },
                    sitting_duration: self.sitting_duration,
                    standing_duration: Span { nanos: self.standing_duration.nanos + delta.nanos },
                };
            },
        }
    }

    /// The user changes posture at `now`. The time of the posture that is left
    /// starts over; the time of the posture that is entered is kept as it is.
    pub fn toggle_at(&mut self, now: Moment)
        ensures
            final(self)@ == old(self)@.toggle(now@),
            final(self)@.wf(),
            final(self)@.posture == old(self)@.posture.other(),
            final(self)@.inactive_elapsed() == 0,
            final(self)@.active_elapsed() == old(self)@.inactive_elapsed(),
    {
        proof {
            use_type_invariant(&*self);
        }
        match self.state {
            PostureState::Sitting { .. } => {
                *self = Timer {
                    origin: self.origin,
                    state: PostureState::Standing { last_tick: now },
                    sitting_duration: Span { nanos: 0 },
                    standing_duration: self.standing_duration,
                };
            },
            PostureState::Standing { .. } => {
                *self = Timer {
                    origin: self.origin,
                    state: PostureState::Sitting { last_tick: now },
                    sitting_duration: self.sitting_duration,
                    standing_duration: Span { nanos: 0 },
                };
            },
        }
    }

    /// The user starts over at `now`: sitting, with nothing counted, whatever
    /// the state was.
    pub fn reset_at(&mut self, now: Moment)
        ensures
            final(self)@ == TimerState::initial(now@),
            final(self)@.wf(),
    {
        *self = Timer {
            origin: self.origin,
            state: PostureState::Sitting { last_tick: now },
            sitting_duration: Span { nanos: 0 },
            standing_duration: Span { nanos: 0 },
        };
    }

    /// Takes one event. A tick brings its own moment; a toggle and a reset
    /// happen at whatever the timer's clock shows when they arrive, and that
    /// reading is the last tick afterwards.
    pub fn handle(&mut self, event: Event)
        requires
            old(self)@.accepts(event),
        ensures
            final(self)@ == old(self)@.step(event, final(self)@.last_tick),
            final(self)@.wf(),
    {
        match event {
            Event::Toggle => {
                let now: Moment = self.now();
                self.toggle_at(now);
            },
            Event::Reset => {
                let now: Moment = self.now();
                self.reset_at(now);
            },
            Event::Tick(now) => {
                self.tick(now);
            },
        }
    }

    pub fn current_posture(&self) -> (posture: Posture)
        ensures
            posture == self@.posture,
    {
        self.state.posture()
    }

    /// The moment up to which the active posture's time has been counted.
    pub fn last_tick(&self) -> (moment: Moment)
        ensures
            moment@ == self@.last_tick,
    {
        self.state.last_tick()
    }

    /// The time counted for sitting; none while the user stands.
    pub fn sitting_elapsed(&self) -> (span: Span)
        ensures
            span@ == self@.sitting,
            self@.posture == Posture::Standing ==> span@ == 0,
    {
        proof {
            use_type_invariant(self);
        }
        self.sitting_duration
    }

    /// The time counted for standing; none while the user sits.
    pub fn standing_elapsed(&self) -> (span: Span)
        ensures
            span@ == self@.standing,
            self@.posture == Posture::Sitting ==> span@ == 0,
    {
        proof {
            use_type_invariant(self);
        }
        self.standing_duration
    }

    /// Whether the user has been sitting for longer than the threshold. It
    /// never holds while the user stands.
    pub fn sitting_warning_exceeded(&self) -> (exceeded: bool)
        ensures
            exceeded <==> self@.sitting > MAX_SITTING_NANOS,
            exceeded == self@.warning(),
            self@.posture == Posture::Standing ==> !exceeded,
    {
        proof {
            use_type_invariant(self);
        }
        self.sitting_duration.nanos > MAX_SITTING_NANOS
    }
}

} // verus!
