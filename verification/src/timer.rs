//! The inactivity timer: one replaceable slot for a scheduled forced stop.
//!
//! The slot does not sleep. It decides which scheduled stop is the live one:
//! every arming hands out a token, and a firing counts only if it shows the
//! token of the stop that the slot holds at that moment.

use vstd::prelude::*;

verus! {

/// A forced stop that is scheduled and has not fired.
#[derive(Clone, Copy, Debug, PartialEq, Eq)]
pub struct PendingStop {
    /// Names this arming; the firing has to show it.
    pub token: u64,
    /// The delay after which the stop is due.
    pub seconds: u32,
}

/// What the caller has to do with the real timer after an operation.
#[derive(Clone, Copy, Debug, PartialEq, Eq)]
pub enum TimerCommand {
    /// Leave it as it is.
    Keep,
    /// Cancel what is scheduled, if anything, and schedule nothing.
    Cancel,
    /// Cancel what is scheduled, if anything, and schedule this stop.
    Schedule(PendingStop),
}

/// The token that follows `token`.
pub open spec fn token_after(token: u64) -> u64 {
    if token == u64::MAX {
        0
    } else {
        (token + 1) as u64
    }
}

/// The state of the slot.
pub struct TimerView {
    /// The stop that is scheduled, if any.
    pub pending: Option<PendingStop>,
    /// The token of the next arming.
    pub next_token: u64,
}

impl TimerView {
    /// The stop that arming with `seconds` schedules.
    pub open spec fn next_stop(self, seconds: u32) -> PendingStop {
        PendingStop { token: self.next_token, seconds }
    }

    /// The slot after arming with `seconds`: the new stop replaces whatever
    /// was scheduled.
    pub open spec fn armed(self, seconds: u32) -> TimerView {
        TimerView {
            pending: Some(self.next_stop(seconds)),
            next_token: token_after(self.next_token),
        }
    }

    /// The slot after clearing: nothing is scheduled.
    pub open spec fn cleared(self) -> TimerView {
        TimerView { pending: None, next_token: self.next_token }
    }

    /// Whether a firing that shows `token` takes effect.
    pub open spec fn fires(self, token: u64) -> bool {
        self.pending matches Some(stop) && stop.token == token
    }

    /// The slot after a firing that shows `token`: a firing that takes effect
    /// uses the scheduled stop up, any other changes nothing.
    pub open spec fn fired(self, token: u64) -> TimerView {
        if self.fires(token) {
            self.cleared()
        } else {
            self
        }
    }
}

/// The single slot of the inactivity timer.
pub struct StopTimer {
    pending: Option<PendingStop>,
    next_token: u64,
}

impl View for StopTimer {
    type V = TimerView;

    closed spec fn view(&self) -> TimerView {
        TimerView { pending: self.pending, next_token: self.next_token }
    }
}

impl StopTimer {
    /// A slot with nothing scheduled.
    pub fn new() -> (timer: StopTimer)
        ensures
            timer@ == (TimerView { pending: None, next_token: 0 }),
    {
        StopTimer { pending: None, next_token: 0 }
    }

    /// Schedules a stop after `seconds` in place of whatever was scheduled,
    /// and returns it.
    pub fn arm(&mut self, seconds: u32) -> (stop: PendingStop)
        ensures
            stop == old(self)@.next_stop(seconds),
            final(self)@ == old(self)@.armed(seconds),
    {
        let stop = PendingStop { token: self.next_token, seconds };
        self.pending = Some(stop);
        self.next_token = if self.next_token == u64::MAX {
            0
        } else {
            self.next_token + 1
        };
        stop
    }

    /// Drops whatever is scheduled.
    pub fn clear(&mut self)
        ensures
            final(self)@ == old(self)@.cleared(),
    {
        self.pending = None;
    }

    /// Takes the firing of the stop that was armed under `token`. Returns
    /// whether it takes effect: it does if that stop is still the scheduled
    /// one, and then nothing is scheduled any more.
    pub fn fire(&mut self, token: u64) -> (effective: bool)
        ensures
            effective == old(self)@.fires(token),
            final(self)@ == old(self)@.fired(token),
    {
        let effective = match self.pending {
            Some(stop) => stop.token == token,
            None => false,
        };
        if effective {
            self.pending = None;
        }
        effective
    }

    /// The stop that is scheduled, if any.
    pub fn pending(&self) -> (pending: Option<PendingStop>)
        ensures
            pending == self@.pending,
    {
        self.pending
    }
}

/// Arming twice in a row leaves one scheduled stop, the second: a firing of
/// the first has no effect, a firing of the second takes effect with the
/// second delay, and after it no firing takes effect.
pub proof fn lemma_rearm_replaces(timer: TimerView, first: u32, second: u32)
    ensures
        ({
            let once = timer.armed(first);
            let twice = once.armed(second);
            let stale = timer.next_stop(first);
            let live = once.next_stop(second);
            &&& stale.token != live.token
            &&& twice.pending == Some(live)
            &&& live.seconds == second
            &&& !twice.fires(stale.token)
            &&& twice.fired(stale.token) == twice
            &&& twice.fires(live.token)
            &&& forall|token: u64| !(#[trigger] twice.fired(live.token).fires(token))
        }),
{
}

/// Clearing cancels: after it no firing takes effect, whatever was scheduled.
pub proof fn lemma_clear_cancels(timer: TimerView, token: u64)
    ensures
        !timer.cleared().fires(token),
        timer.cleared().fired(token) == timer.cleared(),
{
}

} // verus!
