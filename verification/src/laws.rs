//! What holds of every run of the lifecycle manager.
//!
//! A run is a state and the operations applied to it in order. The
//! statements here are over the same state and the same transitions that the
//! contracts of `OcclumExecImpl` use.

use crate::ident::NOT_SUBMITTED;
use crate::server::{effective_timeout, ServerView, DEFAULT_SERVER_TIMER};
use crate::table::{PollOutcome, ProcessRecord};
use vstd::prelude::*;

verus! {

/// One operation on the lifecycle manager, with what decides its effect.
pub enum Event {
    /// A submission, and whether its descriptor handoff succeeded.
    Submit { handed_off: bool },
    /// The end of a command.
    Finish { id: u32, exit_code: i32 },
    /// A poll for a result.
    Poll { id: u32 },
    /// A stop request.
    Stop { time: u32 },
    /// A status check.
    StatusCheck,
    /// The timer is armed.
    ResetTimer { seconds: u32 },
    /// The timer is cleared.
    ClearTimer,
    /// A firing of the timer.
    TimerFired { token: u64 },
    /// The stop flag is reset.
    ClearStopped,
}

/// Whether `event` may be applied to `server`: a submission that registers a
/// command needs an identity that is left to issue.
pub open spec fn allowed(server: ServerView, event: Event) -> bool {
    event matches Event::Submit { handed_off: true } ==> server.can_submit()
}

/// The state after `event`.
pub open spec fn step(server: ServerView, event: Event) -> ServerView {
    match event {
        Event::Submit { handed_off } => server.submit(handed_off),
        Event::Finish { id, exit_code } => server.finish(id, exit_code),
        Event::Poll { id } => server.reap(id),
        Event::Stop { time } => server.rearm(effective_timeout(time)),
        Event::StatusCheck => server.rearm(DEFAULT_SERVER_TIMER),
        Event::ResetTimer { seconds } => server.rearm(seconds),
        Event::ClearTimer => server.disarm(),
        Event::TimerFired { token } => server.timer_fired(token),
        Event::ClearStopped => ServerView { stopped: false, ..server },
    }
}

/// The state after `events`, applied in order.
pub open spec fn run(server: ServerView, events: Seq<Event>) -> ServerView
    decreases events.len(),
{
    if events.len() == 0 {
        server
    } else {
        run(step(server, events.first()), events.drop_first())
    }
}

/// Whether `events` may be applied to `server` in order.
pub open spec fn admissible(server: ServerView, events: Seq<Event>) -> bool
    decreases events.len(),
{
    events.len() > 0 ==> allowed(server, events.first()) && admissible(
        step(server, events.first()),
        events.drop_first(),
    )
}

/// The identities that the submissions among `events` return, in order.
pub open spec fn issued(server: ServerView, events: Seq<Event>) -> Seq<u32>
    decreases events.len(),
{
    if events.len() == 0 {
        Seq::empty()
    } else {
        let rest = issued(step(server, events.first()), events.drop_first());
        match events.first() {
            Event::Submit { handed_off } => seq![server.submit_id(handed_off)] + rest,
            _ => rest,
        }
    }
}

/// Whether some event of `events` is the end of the command `id`.
pub open spec fn finishes(events: Seq<Event>, id: u32) -> bool {
    exists|k: int|
        0 <= k < events.len() && (#[trigger] events[k] matches Event::Finish { id: done, .. }
            && done == id)
}

/// Every operation keeps a well-formed state well formed, and never moves
/// the identity counter back.
pub proof fn lemma_step_preserves_wf(server: ServerView, event: Event)
    requires
        server.wf(),
        allowed(server, event),
    ensures
        step(server, event).wf(),
        server.next_id <= step(server, event).next_id,
{
}

/// A run keeps a well-formed state well formed, and never moves the identity
/// counter back.
pub proof fn lemma_run_preserves_wf(server: ServerView, events: Seq<Event>)
    requires
        server.wf(),
        admissible(server, events),
    ensures
        run(server, events).wf(),
        server.next_id <= run(server, events).next_id,
    decreases events.len(),
{
    if events.len() > 0 {
        lemma_step_preserves_wf(server, events.first());
        lemma_run_preserves_wf(step(server, events.first()), events.drop_first());
    }
}

/// No identity that a run issues lies below the counter it started from.
proof fn lemma_issued_from_counter(server: ServerView, events: Seq<Event>, k: int)
    requires
        server.wf(),
        admissible(server, events),
        0 <= k < issued(server, events).len(),
        issued(server, events)[k] != NOT_SUBMITTED,
    ensures
        server.next_id <= issued(server, events)[k],
    decreases events.len(),
{
    let next = step(server, events.first());
    let rest = events.drop_first();
    lemma_step_preserves_wf(server, events.first());
    match events.first() {
        Event::Submit { handed_off } => {
            if k > 0 {
                lemma_issued_from_counter(next, rest, k - 1);
            }
        },
        _ => {
            lemma_issued_from_counter(next, rest, k);
        },
    }
}

/// Uniqueness: of the identities that the submissions of a run return, those
/// that report a submission that took place increase strictly in the order
/// of issue, so no two of them are equal.
pub proof fn lemma_identities_increase(server: ServerView, events: Seq<Event>, i: int, j: int)
    requires
        server.wf(),
        admissible(server, events),
        0 <= i < j < issued(server, events).len(),
        issued(server, events)[i] != NOT_SUBMITTED,
        issued(server, events)[j] != NOT_SUBMITTED,
    ensures
        issued(server, events)[i] < issued(server, events)[j],
    decreases events.len(),
{
    let next = step(server, events.first());
    let rest = events.drop_first();
    lemma_step_preserves_wf(server, events.first());
    match events.first() {
        Event::Submit { handed_off } => {
            if i == 0 {
                lemma_issued_from_counter(next, rest, j - 1);
            } else {
                lemma_identities_increase(next, rest, i - 1, j - 1);
            }
        },
        _ => {
            lemma_identities_increase(next, rest, i, j);
        },
    }
}

/// An identity that was issued and has no record gets none in any run.
proof fn lemma_reaped_stays_unknown(server: ServerView, id: u32, events: Seq<Event>)
    requires
        server.wf(),
        admissible(server, events),
        id < server.next_id,
        !server.commands.contains_key(id),
    ensures
        !run(server, events).commands.contains_key(id),
    decreases events.len(),
{
    if events.len() > 0 {
        lemma_step_preserves_wf(server, events.first());
        lemma_reaped_stays_unknown(step(server, events.first()), id, events.drop_first());
    }
}

/// One-shot result: once a poll for `id` has reported the exit status, every
/// later poll for `id` reports that the identity is unknown, whatever
/// happened in between.
pub proof fn lemma_result_once(server: ServerView, id: u32, events: Seq<Event>)
    requires
        server.wf(),
        server.poll(id) is Stopped,
        admissible(server.reap(id), events),
    ensures
        run(server.reap(id), events).poll(id) == PollOutcome::Unknown,
{
    lemma_step_preserves_wf(server, Event::Poll { id });
    lemma_reaped_stays_unknown(server.reap(id), id, events);
}

/// No premature completion: a command that runs is reported as running by
/// every poll until its end is taken, whatever else happens.
pub proof fn lemma_running_until_finished(server: ServerView, id: u32, events: Seq<Event>)
    requires
        server.wf(),
        server.poll(id) == PollOutcome::Running,
        admissible(server, events),
        !finishes(events, id),
    ensures
        run(server, events).poll(id) == PollOutcome::Running,
    decreases events.len(),
{
    if events.len() > 0 {
        let first = events.first();
        let rest = events.drop_first();
        lemma_step_preserves_wf(server, first);
        assert(!(first matches Event::Finish { id: done, .. } && done == id)) by {
            assert(events[0] == first);
        }
        assert(!finishes(rest, id)) by {
            if finishes(rest, id) {
                let k = choose|k: int|
                    0 <= k < rest.len() && (#[trigger] rest[k] matches Event::Finish {
                        id: done,
                        ..
                    } && done == id);
                assert(events[k + 1] == rest[k]);
            }
        }
        lemma_running_until_finished(step(server, first), id, rest);
    }
}

/// Once the end of a running command is taken, the next poll for it reports
/// the exit status.
pub proof fn lemma_stopped_after_finished(server: ServerView, id: u32, exit_code: i32)
    requires
        server.poll(id) == PollOutcome::Running,
    ensures
        server.finish(id, exit_code).poll(id) == PollOutcome::Stopped(exit_code),
{
}

/// A command that has finished is reported as stopped, with its exit
/// status, by the first poll for it, whatever else happened before.
pub proof fn lemma_stopped_until_polled(
    server: ServerView,
    id: u32,
    exit_code: i32,
    events: Seq<Event>,
)
    requires
        server.wf(),
        server.poll(id) == PollOutcome::Stopped(exit_code),
        admissible(server, events),
        !finishes(events, id),
        forall|k: int| 0 <= k < events.len() ==> #[trigger] events[k] != (Event::Poll { id }),
    ensures
        run(server, events).poll(id) == PollOutcome::Stopped(exit_code),
    decreases events.len(),
{
    if events.len() > 0 {
        let first = events.first();
        let rest = events.drop_first();
        lemma_step_preserves_wf(server, first);
        assert(events[0] == first);
        assert(!finishes(rest, id)) by {
            if finishes(rest, id) {
                let k = choose|k: int|
                    0 <= k < rest.len() && (#[trigger] rest[k] matches Event::Finish {
                        id: done,
                        ..
                    } && done == id);
                assert(events[k + 1] == rest[k]);
            }
        }
        assert forall|k: int| 0 <= k < rest.len() implies #[trigger] rest[k] != (Event::Poll {
            id,
        }) by {
            assert(events[k + 1] == rest[k]);
        }
        lemma_stopped_until_polled(step(server, first), id, exit_code, rest);
    }
}

/// Timer replacement: after two armings in a row, with nothing in between,
/// a firing of the first stop changes nothing, and a firing of the second
/// marks the server stopped and leaves nothing that could fire again.
pub proof fn lemma_second_arming_wins(server: ServerView, first: u32, second: u32)
    ensures
        ({
            let once = server.rearm(first);
            let twice = once.rearm(second);
            let stale = server.timer.next_stop(first);
            let live = once.timer.next_stop(second);
            &&& twice.timer.pending == Some(live)
            &&& live.seconds == second
            &&& twice.timer_fired(stale.token) == twice
            &&& twice.timer.fires(live.token)
            &&& twice.timer_fired(live.token).stopped
            &&& forall|token: u64|
                #[trigger] twice.timer_fired(live.token).timer_fired(token) == twice.timer_fired(
                    live.token,
                )
        }),
{
}

/// Timer suppression: a poll that reaps one finished command while another
/// command is in the table leaves nothing scheduled.
pub proof fn lemma_reaping_one_of_two_clears_timer(server: ServerView, id: u32, other: u32)
    requires
        server.poll(id) is Stopped,
        other != id,
        server.commands.contains_key(other),
    ensures
        server.reap(id).timer.pending is None,
        forall|token: u64| !(#[trigger] server.reap(id).timer.fires(token)),
{
}

/// A poll that reaps the last command of the table leaves the timer as it
/// was.
pub proof fn lemma_reaping_last_keeps_timer(server: ServerView, id: u32)
    requires
        server.poll(id) is Stopped,
        forall|other: u32| #[trigger] server.commands.contains_key(other) ==> other == id,
    ensures
        server.reap(id).timer == server.timer,
        server.reap(id).commands == Map::<u32, ProcessRecord>::empty(),
{
    assert(server.commands.remove(id) =~= Map::<u32, ProcessRecord>::empty());
}

} // verus!
