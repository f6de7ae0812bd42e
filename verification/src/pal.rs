//! Plain values exchanged with the enclave runtime: standard I/O
//! descriptors, signals, and the meaning of its return codes.

use vstd::prelude::*;

verus! {

/// The signal that ends a process without asking.
pub const SIGKILL: i32 = 9;

/// The signal that asks a process to end.
pub const SIGTERM: i32 = 15;

/// The target that stands for every process of the enclave runtime.
pub const ALL_PROCESSES: i32 = -1;

/// The file descriptors of the redirected standard I/O of one command.
#[allow(non_camel_case_types)]
#[derive(Clone, Copy, Debug, PartialEq, Eq)]
pub struct occlum_stdio_fds {
    pub stdin_fd: i32,
    pub stdout_fd: i32,
    pub stderr_fd: i32,
}

impl occlum_stdio_fds {
    /// The descriptors that a handoff delivered, in the order input, output,
    /// error. A handoff that did not deliver exactly three has failed.
    pub fn from_handoff(fds: &[i32; 3], received: usize) -> (stdio: Option<occlum_stdio_fds>)
        ensures
            stdio == (if received == 3 {
                Some(occlum_stdio_fds { stdin_fd: fds[0], stdout_fd: fds[1], stderr_fd: fds[2] })
            } else {
                None
            }),
    {
        if received == 3 {
            Some(occlum_stdio_fds { stdin_fd: fds[0], stdout_fd: fds[1], stderr_fd: fds[2] })
        } else {
            None
        }
    }
}

/// A signal to deliver inside the enclave runtime.
#[derive(Clone, Copy, Debug, PartialEq, Eq)]
pub struct KillRequest {
    /// A process of the runtime, or `ALL_PROCESSES`.
    pub pid: i32,
    /// `SIGTERM` or `SIGKILL`: the runtime takes no other.
    pub sig: i32,
}

impl KillRequest {
    /// Asks every process to end.
    pub fn terminate_all() -> (request: KillRequest)
        ensures
            request == (KillRequest { pid: ALL_PROCESSES, sig: SIGTERM }),
    {
        KillRequest { pid: ALL_PROCESSES, sig: SIGTERM }
    }

    /// Ends every process.
    pub fn kill_all() -> (request: KillRequest)
        ensures
            request == (KillRequest { pid: ALL_PROCESSES, sig: SIGKILL }),
    {
        KillRequest { pid: ALL_PROCESSES, sig: SIGKILL }
    }
}

/// What the runtime's return code says of an execution: zero means that the
/// command ran and `exit_status` is its exit status, anything else is the
/// runtime's own failure and there is no exit status.
pub fn exec_result(ret: i32, exit_status: i32) -> (result: Result<i32, i32>)
    ensures
        result == (if ret == 0 {
            Ok::<i32, i32>(exit_status)
        } else {
            Err::<i32, i32>(ret)
        }),
{
    if ret == 0 {
        Ok(exit_status)
    } else {
        Err(ret)
    }
}

/// What the runtime's return code says of a signal delivery: zero means
/// delivered, anything else is the failure.
pub fn kill_result(ret: i32) -> (result: Result<i32, i32>)
    ensures
        result == (if ret == 0 {
            Ok::<i32, i32>(0)
        } else {
            Err::<i32, i32>(ret)
        }),
{
    if ret == 0 {
        Ok(0)
    } else {
        Err(ret)
    }
}

/// The operating system's process that a client identity names when it is
/// read as a signed number of the same width.
pub open spec fn signal_target(client_identity: u32) -> int {
    if client_identity <= i32::MAX {
        client_identity as int
    } else {
        client_identity - 0x1_0000_0000
    }
}

/// The process to notify for `client_identity`.
pub fn notify_pid(client_identity: u32) -> (pid: i32)
    ensures
        pid == signal_target(client_identity),
{
    if client_identity <= 0x7fff_ffff {
        client_identity as i32
    } else {
        let high: u32 = client_identity - 0x8000_0000;
        (high as i32) + i32::MIN
    }
}

} // verus!
