//! The execution lifecycle manager: the operations that clients call, as
//! steps on one state.
//!
//! An operation changes the state and says what is left for the caller to
//! do outside: which signal to deliver, what to do with the real timer,
//! whether to wait. The caller serialises the operations; between two of
//! them the state is that of `OcclumExecImpl::view`.

use crate::ident::{IdAllocator, FIRST_PROCESS_ID, NOT_SUBMITTED};
use crate::pal::{notify_pid, occlum_stdio_fds, signal_target, KillRequest, ALL_PROCESSES, SIGKILL, SIGTERM};
use crate::table::{
    after_insert_pending, after_poll, poll_outcome, records_wf, CommandTable, NoSuchProcess,
    PollOutcome, ProcessRecord,
};
use crate::timer::{PendingStop, StopTimer, TimerCommand, TimerView};
use vstd::prelude::*;

verus! {

/// The delay of the idle shutdown, and the longest grace period that a stop
/// request is given, in seconds.
pub const DEFAULT_SERVER_TIMER: u32 = 300;

/// The result value of a poll that found no exit status.
pub const NO_RESULT: i32 = -1;

/// The state of a command as a poll reports it.
#[derive(Clone, Copy, Debug, PartialEq, Eq)]
pub enum ExecutionStatus {
    Unknown,
    Running,
    Stopped,
}

/// The answer to a health probe.
#[derive(Clone, Copy, Debug, PartialEq, Eq)]
pub enum ServingStatus {
    Unknown,
    Serving,
    NotServing,
}

/// The state of the lifecycle manager.
pub struct ServerView {
    /// The command table.
    pub commands: Map<u32, ProcessRecord>,
    /// The identity that the next submission gets.
    pub next_id: u32,
    /// The inactivity timer.
    pub timer: TimerView,
    /// Whether the server counts as stopped.
    pub stopped: bool,
}

/// The grace period that a stop request for `time` seconds is given.
pub open spec fn effective_timeout(time: u32) -> u32 {
    if time <= DEFAULT_SERVER_TIMER {
        time
    } else {
        DEFAULT_SERVER_TIMER
    }
}

impl ServerView {
    /// What holds of every state that the operations reach: identities start
    /// at the first one, every record is well formed, and no record is kept
    /// under an identity that is still to be issued.
    pub open spec fn wf(self) -> bool {
        &&& self.next_id >= FIRST_PROCESS_ID
        &&& records_wf(self.commands)
        &&& forall|id: u32| #[trigger]
            self.commands.contains_key(id) ==> FIRST_PROCESS_ID <= id < self.next_id
    }

    /// The state of a new manager.
    pub open spec fn initial(stopped: bool, seconds: u32) -> ServerView {
        ServerView {
            commands: Map::empty(),
            next_id: FIRST_PROCESS_ID,
            timer: (TimerView { pending: None, next_token: 0 }).armed(seconds),
            stopped,
        }
    }

    /// Whether an identity is left for a submission.
    pub open spec fn can_submit(self) -> bool {
        self.next_id < u32::MAX
    }

    /// The identity that a submission returns: the next one, or the one that
    /// is never issued if the descriptor handoff failed.
    pub open spec fn submit_id(self, handed_off: bool) -> u32 {
        if handed_off {
            self.next_id
        } else {
            NOT_SUBMITTED
        }
    }

    /// The state after a submission. The timer is cleared either way; a
    /// submission whose handoff succeeded registers the next identity as
    /// pending.
    pub open spec fn submit(self, handed_off: bool) -> ServerView {
        if handed_off {
            ServerView {
                commands: after_insert_pending(self.commands, self.next_id),
                next_id: (self.next_id + 1) as u32,
                timer: self.timer.cleared(),
                stopped: self.stopped,
            }
        } else {
            ServerView { timer: self.timer.cleared(), ..self }
        }
    }

    /// The state after the command `id` finished with `exit_code`: its record
    /// holds the exit status and the timer is armed with the default delay.
    /// Nothing changes if the table holds no record for `id`.
    pub open spec fn finish(self, id: u32, exit_code: i32) -> ServerView {
        if self.commands.contains_key(id) {
            ServerView {
                commands: self.commands.insert(id, ProcessRecord::completed(exit_code)),
                timer: self.timer.armed(DEFAULT_SERVER_TIMER),
                ..self
            }
        } else {
            self
        }
    }

    /// What a poll for `id` reports.
    pub open spec fn poll(self, id: u32) -> PollOutcome {
        poll_outcome(self.commands, id)
    }

    /// Whether a poll for `id` clears the timer: it does when it reaps a
    /// finished command and another command is still in the table.
    pub open spec fn poll_clears_timer(self, id: u32) -> bool {
        self.poll(id) is Stopped && exists|other: u32|
            other != id && #[trigger] self.commands.contains_key(other)
    }

    /// The state after a poll for `id`.
    pub open spec fn reap(self, id: u32) -> ServerView {
        ServerView {
            commands: after_poll(self.commands, id),
            timer: if self.poll_clears_timer(id) {
                self.timer.cleared()
            } else {
                self.timer
            },
            ..self
        }
    }

    /// The state after the timer was armed with `seconds`.
    pub open spec fn rearm(self, seconds: u32) -> ServerView {
        ServerView { timer: self.timer.armed(seconds), ..self }
    }

    /// The state after the timer was cleared.
    pub open spec fn disarm(self) -> ServerView {
        ServerView { timer: self.timer.cleared(), ..self }
    }

    /// The answer of a status check for `id`: the manager itself, asked
    /// for under the identity that is never issued, always serves; a command
    /// serves as long as the table holds its record.
    pub open spec fn serving(self, id: u32) -> ServingStatus {
        if id == NOT_SUBMITTED || self.commands.contains_key(id) {
            ServingStatus::Serving
        } else {
            ServingStatus::NotServing
        }
    }

    /// The answer of the heartbeat to a probe for `id`.
    pub open spec fn heart_beat(self, id: u32) -> ServingStatus {
        match self.poll(id) {
            PollOutcome::Unknown => ServingStatus::Unknown,
            PollOutcome::Running => ServingStatus::Serving,
            PollOutcome::Stopped(_) => ServingStatus::NotServing,
        }
    }

    /// The state after a firing of the timer that shows `token`: one that
    /// takes effect uses the scheduled stop up and marks the server stopped.
    pub open spec fn timer_fired(self, token: u64) -> ServerView {
        ServerView {
            timer: self.timer.fired(token),
            stopped: self.stopped || self.timer.fires(token),
            ..self
        }
    }
}

/// The reply to a submission.
#[derive(Clone, Copy, Debug, PartialEq, Eq)]
pub struct ExecCommReply {
    /// The identity of the command, or `NOT_SUBMITTED`.
    pub process_id: u32,
    /// The descriptors to run the command with, if it was submitted.
    pub stdio: Option<occlum_stdio_fds>,
    /// What to do with the real timer.
    pub timer: TimerCommand,
}

/// What is left to do when a command has finished.
#[derive(Clone, Copy, Debug, PartialEq, Eq)]
pub struct Completion {
    /// The stop to schedule in place of whatever is scheduled.
    pub timer: PendingStop,
    /// The process of the client to notify.
    pub notify_pid: i32,
}

/// The reply to a poll.
#[derive(Clone, Copy, Debug, PartialEq, Eq)]
pub struct GetResultReply {
    pub status: ExecutionStatus,
    /// The exit status if `status` is `Stopped`, else `NO_RESULT`.
    pub result: i32,
    /// What to do with the real timer.
    pub timer: TimerCommand,
}

/// The reply to a stop request.
#[derive(Clone, Copy, Debug, PartialEq, Eq)]
pub struct StopReply {
    /// The signal to deliver first.
    pub signal: KillRequest,
    /// The stop to schedule in place of whatever is scheduled.
    pub timer: PendingStop,
}

/// The reply to a status check.
#[derive(Clone, Copy, Debug, PartialEq, Eq)]
pub struct StatusCheckReply {
    /// The stop to schedule in place of whatever is scheduled.
    pub timer: PendingStop,
    /// The answer, or nothing while the server counts as stopped: the
    /// caller then waits for that to change and asks `serving_status`.
    pub status: Option<ServingStatus>,
}

/// What the heartbeat's loop found when it looked at its two streams.
#[derive(Clone, Copy, Debug, PartialEq, Eq)]
pub enum HeartBeatEvent {
    /// The outbound stream cannot take a response yet.
    SinkBusy,
    /// No probe has arrived yet.
    NoProbe,
    /// A probe for this identity has arrived.
    Probe(u32),
    /// The inbound stream has ended.
    End,
}

/// What the heartbeat's loop has to do next.
#[derive(Clone, Copy, Debug, PartialEq, Eq)]
pub enum HeartBeatAction {
    /// Give up the thread until one of the streams is ready.
    Suspend,
    /// Send this answer and look again.
    Send(ServingStatus),
    /// Send the terminal marker and end.
    Finish,
}

/// The lifecycle manager.
pub struct OcclumExecImpl {
    commands: CommandTable,
    server_stopped: bool,
    stop_timer: StopTimer,
    process_id: IdAllocator,
}

impl View for OcclumExecImpl {
    type V = ServerView;

    closed spec fn view(&self) -> ServerView {
        ServerView {
            commands: self.commands@,
            next_id: self.process_id.next_id(),
            timer: self.stop_timer@,
            stopped: self.server_stopped,
        }
    }
}

impl OcclumExecImpl {
    /// A manager with an empty table, whose stop flag reads `server_stopped` and
    /// whose timer is armed with `seconds`.
    pub fn new_and_save_execution_lock(server_stopped: bool, seconds: u32) -> (server:
        OcclumExecImpl)
        ensures
            server@ == ServerView::initial(server_stopped, seconds),
            server@.wf(),
    {
        let mut stop_timer = StopTimer::new();
        stop_timer.arm(seconds);
        OcclumExecImpl {
            commands: CommandTable::new(),
            server_stopped,
            stop_timer,
            process_id: IdAllocator::new(),
        }
    }

    /// Arms the timer with `time` seconds in place of whatever is scheduled.
    pub fn reset_stop_timer(&mut self, time: u32) -> (stop: PendingStop)
        ensures
            final(self)@ == old(self)@.rearm(time),
            stop == old(self)@.timer.next_stop(time),
    {
        self.stop_timer.arm(time)
    }

    /// Clears the timer.
    pub fn clear_stop_timer(&mut self)
        ensures
            final(self)@ == old(self)@.disarm(),
    {
        self.stop_timer.clear()
    }

    /// Whether an identity is left for a submission.
    pub fn can_submit(&self) -> (left: bool)
        ensures
            left == self@.can_submit(),
    {
        self.process_id.can_allocate()
    }

    /// Takes a submission whose descriptor handoff gave `stdio`, or failed.
    /// The timer is cleared. After a failed handoff nothing else happens and
    /// the reply carries `NOT_SUBMITTED`; else the command gets the next
    /// identity and a pending record, and the caller has to run it.
    pub fn exec_command(&mut self, stdio: Option<occlum_stdio_fds>) -> (reply: ExecCommReply)
        requires
            stdio is Some ==> old(self)@.can_submit(),
        ensures
            final(self)@ == old(self)@.submit(stdio is Some),
            reply.process_id == old(self)@.submit_id(stdio is Some),
            reply.stdio == stdio,
            reply.timer == TimerCommand::Cancel,
    {
        self.stop_timer.clear();
        match stdio {
            None => ExecCommReply {
                process_id: NOT_SUBMITTED,
                stdio: None,
                timer: TimerCommand::Cancel,
            },
            Some(fds) => {
                let process_id = self.process_id.allocate();
                self.commands.insert_pending(process_id);
                ExecCommReply { process_id, stdio: Some(fds), timer: TimerCommand::Cancel }
            },
        }
    }

    /// Takes the end of the command `process_id` with `exit_status`. Fails,
    /// and changes nothing, exactly when the table holds no record for it.
    /// Else the record holds the exit status, the timer is armed with the
    /// default delay, and the client is to be notified.
    pub fn command_finished(
        &mut self,
        process_id: u32,
        exit_status: i32,
        client_process_id: u32,
    ) -> (done: Result<Completion, NoSuchProcess>)
        ensures
            final(self)@ == old(self)@.finish(process_id, exit_status),
            done is Ok <==> old(self)@.commands.contains_key(process_id),
            done matches Ok(completion) ==> {
                &&& completion.timer == old(self)@.timer.next_stop(DEFAULT_SERVER_TIMER)
                &&& completion.notify_pid == signal_target(client_process_id)
            },
            done matches Err(e) ==> e.process_id == process_id,
    {
        match self.commands.mark_completed(process_id, exit_status) {
            Err(e) => Err(e),
            Ok(()) => {
                let timer = self.stop_timer.arm(DEFAULT_SERVER_TIMER);
                Ok(Completion { timer, notify_pid: notify_pid(client_process_id) })
            },
        }
    }

    /// Polls for the result of `process_id`. A finished command is reported
    /// once, with its exit status, and its record is removed; if other
    /// commands are then still in the table, the timer is cleared.
    pub fn get_result(&mut self, process_id: u32) -> (reply: GetResultReply)
        ensures
            final(self)@ == old(self)@.reap(process_id),
            match old(self)@.poll(process_id) {
                PollOutcome::Unknown => reply.status == ExecutionStatus::Unknown && reply.result
                    == NO_RESULT,
                PollOutcome::Running => reply.status == ExecutionStatus::Running && reply.result
                    == NO_RESULT,
                PollOutcome::Stopped(code) => reply.status == ExecutionStatus::Stopped
                    && reply.result == code,
            },
            reply.timer == (if old(self)@.poll_clears_timer(process_id) {
                TimerCommand::Cancel
            } else {
                TimerCommand::Keep
            }),
    {
        match self.commands.poll_and_maybe_reap(process_id) {
            PollOutcome::Unknown => GetResultReply {
                status: ExecutionStatus::Unknown,
                result: NO_RESULT,
                timer: TimerCommand::Keep,
            },
            PollOutcome::Running => GetResultReply {
                status: ExecutionStatus::Running,
                result: NO_RESULT,
                timer: TimerCommand::Keep,
            },
            PollOutcome::Stopped(code) => {
                let last = self.commands.is_empty();
                proof {
                    let left = old(self)@.commands.remove(process_id);
                    if !last && !old(self)@.poll_clears_timer(process_id) {
                        assert(left =~= Map::<u32, ProcessRecord>::empty());
                    }
                    if last && old(self)@.poll_clears_timer(process_id) {
                        let other = choose|other: u32|
                            other != process_id && #[trigger] old(self)@.commands.contains_key(
                                other,
                            );
                        assert(left.contains_key(other));
                    }
                }
                let timer = if last {
                    TimerCommand::Keep
                } else {
                    self.stop_timer.clear();
                    TimerCommand::Cancel
                };
                GetResultReply { status: ExecutionStatus::Stopped, result: code, timer }
            },
        }
    }

    /// Takes a stop request that grants `time` seconds. Every process is to
    /// be asked to end, and the timer is armed with the smaller of `time` and
    /// the default delay: when it fires, what is left is ended by force.
    pub fn stop_server(&mut self, time: u32) -> (reply: StopReply)
        ensures
            final(self)@ == old(self)@.rearm(effective_timeout(time)),
            reply.signal == (KillRequest { pid: ALL_PROCESSES, sig: SIGTERM }),
            reply.timer == old(self)@.timer.next_stop(effective_timeout(time)),
    {
        let signal = KillRequest::terminate_all();
        let seconds = if time <= DEFAULT_SERVER_TIMER {
            time
        } else {
            DEFAULT_SERVER_TIMER
        };
        let timer = self.stop_timer.arm(seconds);
        StopReply { signal, timer }
    }

    /// Takes a status check for `process_id`. The timer is armed with the
    /// default delay. The answer is given unless the server counts as
    /// stopped.
    pub fn status_check(&mut self, process_id: u32) -> (reply: StatusCheckReply)
        ensures
            final(self)@ == old(self)@.rearm(DEFAULT_SERVER_TIMER),
            reply.timer == old(self)@.timer.next_stop(DEFAULT_SERVER_TIMER),
            reply.status == (if old(self)@.stopped {
                None
            } else {
                Some(old(self)@.serving(process_id))
            }),
    {
        let timer = self.stop_timer.arm(DEFAULT_SERVER_TIMER);
        let status = self.serving_status(process_id);
        StatusCheckReply { timer, status }
    }

    /// The answer of a status check for `process_id`, or nothing while the
    /// server counts as stopped.
    pub fn serving_status(&self, process_id: u32) -> (status: Option<ServingStatus>)
        ensures
            status == (if self@.stopped {
                None
            } else {
                Some(self@.serving(process_id))
            }),
    {
        if self.server_stopped {
            None
        } else if process_id == NOT_SUBMITTED || self.commands.contains(process_id) {
            Some(ServingStatus::Serving)
        } else {
            Some(ServingStatus::NotServing)
        }
    }

    /// The answer of the heartbeat to a probe for `process_id`: unknown
    /// without a record, serving while the command runs, not serving once it
    /// has finished.
    pub fn heart_beat_status(&self, process_id: u32) -> (status: ServingStatus)
        ensures
            status == self@.heart_beat(process_id),
    {
        match self.commands.get(process_id) {
            None => ServingStatus::Unknown,
            Some(record) => match record.exit_status {
                None => ServingStatus::Serving,
                Some(_) => ServingStatus::NotServing,
            },
        }
    }

    /// One turn of the heartbeat's loop: what to do after `event`.
    pub fn heart_beat(&self, event: HeartBeatEvent) -> (action: HeartBeatAction)
        ensures
            action == heart_beat_action(self@, event),
    {
        match event {
            HeartBeatEvent::SinkBusy => HeartBeatAction::Suspend,
            HeartBeatEvent::NoProbe => HeartBeatAction::Suspend,
            HeartBeatEvent::Probe(process_id) => HeartBeatAction::Send(
                self.heart_beat_status(process_id),
            ),
            HeartBeatEvent::End => HeartBeatAction::Finish,
        }
    }

    /// Takes the firing of the stop that was armed under `token`. If that
    /// stop is still the scheduled one, the server counts as stopped from
    /// now on and every process is to be ended by force; the caller then
    /// wakes those who wait for the stop flag. A firing of a stop that was replaced
    /// or cleared changes nothing.
    pub fn timer_fired(&mut self, token: u64) -> (signal: Option<KillRequest>)
        ensures
            final(self)@ == old(self)@.timer_fired(token),
            signal == (if old(self)@.timer.fires(token) {
                Some(KillRequest { pid: ALL_PROCESSES, sig: SIGKILL })
            } else {
                None
            }),
    {
        if self.stop_timer.fire(token) {
            self.server_stopped = true;
            Some(KillRequest::kill_all())
        } else {
            None
        }
    }

    /// Resets the stop flag: the server no longer counts as stopped.
    pub fn clear_server_stopped(&mut self)
        ensures
            final(self)@ == (ServerView { stopped: false, ..old(self)@ }),
    {
        self.server_stopped = false;
    }

    /// Whether the server counts as stopped.
    pub fn is_server_stopped(&self) -> (stopped: bool)
        ensures
            stopped == self@.stopped,
    {
        self.server_stopped
    }

    /// The stop that is scheduled, if any.
    pub fn pending_stop(&self) -> (pending: Option<PendingStop>)
        ensures
            pending == self@.timer.pending,
    {
        self.stop_timer.pending()
    }
}

/// What the heartbeat's loop does after `event` in the state `server`: it
/// suspends while a stream is not ready, answers a probe from the table, and
/// finishes when the probes have ended.
pub open spec fn heart_beat_action(server: ServerView, event: HeartBeatEvent) -> HeartBeatAction {
    match event {
        HeartBeatEvent::SinkBusy => HeartBeatAction::Suspend,
        HeartBeatEvent::NoProbe => HeartBeatAction::Suspend,
        HeartBeatEvent::Probe(id) => HeartBeatAction::Send(server.heart_beat(id)),
        HeartBeatEvent::End => HeartBeatAction::Finish,
    }
}

} // verus!
