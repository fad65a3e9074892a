//! What holds of every run of the timer, proved over the model.

use vstd::prelude::*;
use crate::model::{TimerState, MAX_SITTING_NANOS};
use crate::posture::{Event, Posture};
use crate::time::elapsed_between;

verus! {

/// Whether `ticks` never steps back: each lies at or after `start` and at or
/// after the one before it.
pub open spec fn non_decreasing_from(start: nat, ticks: Seq<nat>) -> bool {
    &&& forall|i: int| 0 <= i < ticks.len() ==> start <= #[trigger] ticks[i]
    &&& forall|i: int, j: int| 0 <= i <= j < ticks.len() ==> ticks[i] <= ticks[j]
}

impl TimerState {
    /// The state after the clock has reached each of `ticks` in turn.
    pub open spec fn tick_all(self, ticks: Seq<nat>) -> TimerState
        decreases ticks.len(),
    {
        if ticks.len() == 0 {
            self
        } else {
            self.tick_all(ticks.drop_last()).tick(ticks.last())
        }
    }

    /// The state after each of `arrivals` in turn: an event, and what the clock
    /// showed when it came.
    pub open spec fn run(self, arrivals: Seq<(Event, nat)>) -> TimerState
        decreases arrivals.len(),
    {
        if arrivals.len() == 0 {
            self
        } else {
            self.run(arrivals.drop_last()).step(arrivals.last().0, arrivals.last().1)
        }
    }
}

/// A tick never takes time away, and never touches the posture or the time of
/// the posture that is not active.
pub proof fn lemma_tick_only_adds(s: TimerState, now: nat)
    ensures
        s.tick(now).posture == s.posture,
        s.tick(now).last_tick == now,
        s.tick(now).active_elapsed() == s.active_elapsed() + elapsed_between(s.last_tick, now),
        s.tick(now).active_elapsed() >= s.active_elapsed(),
        s.tick(now).inactive_elapsed() == s.inactive_elapsed(),
        now <= s.last_tick ==> s.tick(now).active_elapsed() == s.active_elapsed(),
{
}

/// Ticks telescope. While the posture stays and the clock never steps back,
/// any number of ticks leaves the timer where a single tick at the last of
/// them would: the active posture has gained exactly the time from the tick
/// before the first of them to the last, however finely that time was cut.
pub proof fn lemma_ticks_telescope(s: TimerState, ticks: Seq<nat>)
    requires
        ticks.len() > 0,
        non_decreasing_from(s.last_tick, ticks),
    ensures
        s.tick_all(ticks) == s.tick(ticks.last()),
        s.tick_all(ticks).posture == s.posture,
        s.tick_all(ticks).active_elapsed() == s.active_elapsed() + (ticks.last() - s.last_tick),
        s.tick_all(ticks).inactive_elapsed() == s.inactive_elapsed(),
    decreases ticks.len(),
{
    let earlier = ticks.drop_last();
    if earlier.len() > 0 {
        assert(non_decreasing_from(s.last_tick, earlier)) by {
            assert forall|i: int| 0 <= i < earlier.len() implies s.last_tick <= #[trigger] earlier[i] by {
                assert(earlier[i] == ticks[i]);
            }
            assert forall|i: int, j: int| 0 <= i <= j < earlier.len() implies earlier[i]
                <= earlier[j] by {
                assert(earlier[i] == ticks[i] && earlier[j] == ticks[j]);
            }
        }
        lemma_ticks_telescope(s, earlier);
        assert(earlier.last() == ticks[ticks.len() - 2]);
    } else {
        assert(s.tick_all(earlier) == s);
    }
}

/// While the clock never steps back, the time counted only grows from tick to
/// tick: if the last tick of a run fits a timer, every tick before it does.
pub proof fn lemma_ticks_fit(s: TimerState, ticks: Seq<nat>, k: int)
    requires
        0 <= k < ticks.len(),
        non_decreasing_from(s.last_tick, ticks),
        s.tick_fits(ticks.last()),
    ensures
        s.tick_all(ticks.take(k)).tick_fits(ticks[k]),
{
    let before = ticks.take(k);
    if k > 0 {
        assert(non_decreasing_from(s.last_tick, before)) by {
            assert forall|i: int| 0 <= i < before.len() implies s.last_tick <= #[trigger] before[i] by {
                assert(before[i] == ticks[i]);
            }
            assert forall|i: int, j: int| 0 <= i <= j < before.len() implies before[i]
                <= before[j] by {
                assert(before[i] == ticks[i] && before[j] == ticks[j]);
            }
        }
        lemma_ticks_telescope(s, before);
        assert(before.last() == ticks[k - 1]);
    } else {
        assert(s.tick_all(before) == s);
    }
}

/// A toggle flips the posture, starts the time of the posture that is left
/// over, and keeps the time of the posture that is entered.
pub proof fn lemma_toggle(s: TimerState, now: nat)
    ensures
        s.toggle(now).posture == s.posture.other(),
        s.toggle(now).last_tick == now,
        s.toggle(now).inactive_elapsed() == 0,
        s.toggle(now).active_elapsed() == s.inactive_elapsed(),
        s.toggle(now).toggle(now).posture == s.posture,
{
}

/// While the user sits, the warning is up after a tick exactly if the time
/// counted before it and the time it adds pass the threshold together: the
/// first tick that crosses the threshold raises the warning.
pub proof fn lemma_warning_rises_on_crossing(s: TimerState, now: nat)
    requires
        s.posture == Posture::Sitting,
    ensures
        s.tick(now).warning() <==> s.sitting + elapsed_between(s.last_tick, now)
            > MAX_SITTING_NANOS,
        s.warning() ==> s.tick(now).warning(),
{
}

/// No event breaks the rule that only the active posture holds time.
pub proof fn lemma_step_keeps_wf(s: TimerState, event: Event, now: nat)
    requires
        s.wf(),
    ensures
        s.step(event, now).wf(),
{
}

/// Whatever happens to a timer that started fresh, only its active posture
/// holds time.
pub proof fn lemma_run_keeps_wf(start: nat, arrivals: Seq<(Event, nat)>)
    ensures
        TimerState::initial(start).run(arrivals).wf(),
    decreases arrivals.len(),
{
    if arrivals.len() > 0 {
        lemma_run_keeps_wf(start, arrivals.drop_last());
        lemma_step_keeps_wf(
            TimerState::initial(start).run(arrivals.drop_last()),
            arrivals.last().0,
            arrivals.last().1,
        );
    }
}

/// The warning is never up while the user stands, whatever happened to the
/// timer before: standing began with a toggle, which started the sitting time
/// over, and no tick adds to it while the user stands.
pub proof fn lemma_standing_never_warns(start: nat, arrivals: Seq<(Event, nat)>)
    ensures
        TimerState::initial(start).run(arrivals).posture == Posture::Standing
            ==> !TimerState::initial(start).run(arrivals).warning(),
{
    lemma_run_keeps_wf(start, arrivals);
}

} // verus!
