use occlum_exec::ident::{IdAllocator, FIRST_PROCESS_ID, NOT_SUBMITTED};
use occlum_exec::pal::{
    exec_result, kill_result, notify_pid, occlum_stdio_fds, KillRequest, ALL_PROCESSES, SIGKILL,
    SIGTERM,
};
use occlum_exec::table::{CommandTable, NoSuchProcess, PollOutcome, ProcessRecord};
use occlum_exec::timer::{PendingStop, StopTimer};

#[test]
fn allocator_starts_at_one_and_counts_up() {
    assert_eq!(NOT_SUBMITTED, 0);
    assert_eq!(FIRST_PROCESS_ID, 1);
    let mut allocator = IdAllocator::new();
    assert!(allocator.can_allocate());
    assert_eq!(allocator.allocate(), 1);
    assert_eq!(allocator.allocate(), 2);
    assert_eq!(allocator.allocate(), 3);
    assert!(allocator.can_allocate());
}

#[test]
fn table_starts_empty() {
    let mut table = CommandTable::new();
    assert!(table.is_empty());
    assert!(!table.contains(1));
    assert_eq!(table.get(1), None);
    assert_eq!(table.poll_and_maybe_reap(1), PollOutcome::Unknown);
    assert!(table.is_empty());
}

#[test]
fn table_insert_pending_creates_running_record() {
    let mut table = CommandTable::new();
    table.insert_pending(4);
    assert!(!table.is_empty());
    assert!(table.contains(4));
    assert!(!table.contains(5));
    assert_eq!(table.get(4), Some(ProcessRecord { exit_status: None, running: true }));
    assert_eq!(table.poll_and_maybe_reap(4), PollOutcome::Running);
    assert!(table.contains(4));
}

#[test]
fn table_insert_pending_keeps_an_existing_record() {
    let mut table = CommandTable::new();
    table.insert_pending(4);
    table.mark_completed(4, 12).unwrap();
    table.insert_pending(4);
    assert_eq!(table.get(4), Some(ProcessRecord { exit_status: Some(12), running: false }));
}

#[test]
fn table_mark_completed_needs_a_record() {
    let mut table = CommandTable::new();
    assert_eq!(table.mark_completed(4, 0), Err(NoSuchProcess { process_id: 4 }));
    assert!(table.is_empty());
    table.insert_pending(4);
    assert_eq!(table.mark_completed(4, -9), Ok(()));
    assert_eq!(table.get(4), Some(ProcessRecord { exit_status: Some(-9), running: false }));
    assert_eq!(table.mark_completed(5, 0), Err(NoSuchProcess { process_id: 5 }));
}

#[test]
fn table_poll_reaps_a_finished_record_once() {
    let mut table = CommandTable::new();
    table.insert_pending(1);
    table.insert_pending(2);
    table.mark_completed(1, 7).unwrap();
    assert_eq!(table.poll_and_maybe_reap(1), PollOutcome::Stopped(7));
    assert!(!table.contains(1));
    assert!(table.contains(2));
    assert_eq!(table.poll_and_maybe_reap(1), PollOutcome::Unknown);
    assert_eq!(table.poll_and_maybe_reap(2), PollOutcome::Running);
    table.mark_completed(2, 0).unwrap();
    assert_eq!(table.poll_and_maybe_reap(2), PollOutcome::Stopped(0));
    assert!(table.is_empty());
}

#[test]
fn timer_slot_arm_clear_fire() {
    let mut timer = StopTimer::new();
    assert_eq!(timer.pending(), None);
    assert!(!timer.fire(0));

    let first = timer.arm(30);
    assert_eq!(first, PendingStop { token: 0, seconds: 30 });
    assert_eq!(timer.pending(), Some(first));

    let second = timer.arm(60);
    assert_eq!(second, PendingStop { token: 1, seconds: 60 });
    assert_eq!(timer.pending(), Some(second));
    assert!(!timer.fire(first.token));
    assert_eq!(timer.pending(), Some(second));
    assert!(timer.fire(second.token));
    assert_eq!(timer.pending(), None);
    assert!(!timer.fire(second.token));

    let third = timer.arm(1);
    assert_eq!(third.token, 2);
    timer.clear();
    assert_eq!(timer.pending(), None);
    assert!(!timer.fire(third.token));
    // Clearing an empty slot is no error.
    timer.clear();
    assert_eq!(timer.pending(), None);
}

#[test]
fn stdio_from_a_complete_handoff() {
    let fds = [3, 4, 5];
    assert_eq!(
        occlum_stdio_fds::from_handoff(&fds, 3),
        Some(occlum_stdio_fds { stdin_fd: 3, stdout_fd: 4, stderr_fd: 5 })
    );
}

#[test]
fn stdio_from_a_short_handoff_is_none() {
    let fds = [3, 4, 0];
    assert_eq!(occlum_stdio_fds::from_handoff(&fds, 2), None);
    assert_eq!(occlum_stdio_fds::from_handoff(&fds, 0), None);
    assert_eq!(occlum_stdio_fds::from_handoff(&fds, 4), None);
}

#[test]
fn kill_requests_name_all_processes() {
    assert_eq!((SIGKILL, SIGTERM, ALL_PROCESSES), (9, 15, -1));
    assert_eq!(KillRequest::terminate_all(), KillRequest { pid: -1, sig: 15 });
    assert_eq!(KillRequest::kill_all(), KillRequest { pid: -1, sig: 9 });
}

#[test]
fn runtime_return_codes() {
    assert_eq!(exec_result(0, 7), Ok(7));
    assert_eq!(exec_result(0, -1), Ok(-1));
    assert_eq!(exec_result(-1, 7), Err(-1));
    assert_eq!(exec_result(22, 0), Err(22));
    assert_eq!(kill_result(0), Ok(0));
    assert_eq!(kill_result(-1), Err(-1));
    assert_eq!(kill_result(3), Err(3));
}

#[test]
fn client_identity_read_as_signed() {
    assert_eq!(notify_pid(0), 0);
    assert_eq!(notify_pid(4321), 4321);
    assert_eq!(notify_pid(0x7fff_ffff), i32::MAX);
    assert_eq!(notify_pid(0x8000_0000), i32::MIN);
    assert_eq!(notify_pid(0xffff_ffff), -1);
    assert_eq!(notify_pid(0xffff_fffe), -2);
    for id in [0u32, 1, 77, 0x7fff_ffff, 0x8000_0000, 0x8000_0001, 0xffff_ffff] {
        assert_eq!(notify_pid(id), id as i32);
    }
}
