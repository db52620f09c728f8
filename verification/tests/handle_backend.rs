use child_kit::error::OsError;
use child_kit::handle::{
    close_handle, get_handle, handle_closed, handle_opened, kill, module_name, nonzero_or,
    nt_status, opened, resume, signaled_or, status_or, suspend, terminated, wait,
    wait_returned, CloseRequest, EntryPoints, Handle, NtAction, NtEntry, NtOutcome, OpenRequest,
    OwnedHandle,
    Resolution, TerminateRequest, WaitRequest, INFINITE, KILL_EXIT_CODE, PROCESS_ALL_ACCESS,
    STANDARD_RIGHTS_REQUIRED, STATUS_SUCCESS, SYNCHRONIZE, WAIT_OBJECT_0,
};

const ERROR_ACCESS_DENIED: i32 = 5;
const ERROR_INVALID_HANDLE: i32 = 6;
const ERROR_INVALID_PARAMETER: i32 = 87;
const ERROR_PROC_NOT_FOUND: i32 = 127;
const WAIT_FAILED: u32 = 0xFFFF_FFFF;
const WAIT_TIMEOUT: u32 = 258;

fn some_handle() -> Handle {
    opened(0x1a4, OsError::new(0, false)).unwrap()
}

#[test]
fn all_access_is_the_union_of_its_parts() {
    assert_eq!(PROCESS_ALL_ACCESS, STANDARD_RIGHTS_REQUIRED | SYNCHRONIZE | 0xFFFF);
    assert_eq!(PROCESS_ALL_ACCESS, 0x1F_FFFF);
}

#[test]
fn get_handle_asks_for_every_right() {
    assert_eq!(
        get_handle(4321),
        OpenRequest { access: 0x1F_FFFF, inherit: false, pid: 4321 }
    );
}

#[test]
fn opened_null_is_the_error() {
    let bad: OsError = OsError::new(ERROR_INVALID_PARAMETER, false);
    assert_eq!(opened(0, bad), Err(bad));
    assert!(handle_opened(0).is_err());
}

#[test]
fn opened_keeps_the_raw_value() {
    let stale: OsError = OsError::new(ERROR_ACCESS_DENIED, false);
    assert_eq!(opened(0x1a4, stale).unwrap().raw(), 0x1a4);
    assert_eq!(handle_opened(0x1a4).unwrap().raw(), 0x1a4);
    assert_eq!(handle_opened(usize::MAX).unwrap().raw(), usize::MAX);
}

#[test]
fn handle_is_a_plain_copy() {
    let h: Handle = some_handle();
    let copy: Handle = h;
    assert_eq!(h, copy);
    assert_eq!(copy.raw(), 0x1a4);
}

#[test]
fn close_wait_kill_requests() {
    let h: Handle = some_handle();
    assert_eq!(close_handle(h), CloseRequest { handle: h });
    assert_eq!(wait(h), WaitRequest { handle: h, timeout: 0xFFFF_FFFF });
    assert_eq!(INFINITE, 0xFFFF_FFFF);
    assert_eq!(kill(h), TerminateRequest { handle: h, exit_code: 0 });
    assert_eq!(KILL_EXIT_CODE, 0);
}

#[test]
fn zero_return_is_failure() {
    let denied: OsError = OsError::new(ERROR_ACCESS_DENIED, false);
    assert_eq!(nonzero_or(0, denied), Err(denied));
    assert_eq!(nonzero_or(1, denied), Ok(()));
    assert_eq!(nonzero_or(-1, denied), Ok(()));
    assert!(handle_closed(0).is_err());
    assert_eq!(handle_closed(1), Ok(()));
    assert!(terminated(0).is_err());
    assert_eq!(terminated(1), Ok(()));
}

#[test]
fn wait_succeeds_only_when_signaled() {
    let invalid: OsError = OsError::new(ERROR_INVALID_HANDLE, false);
    assert_eq!(WAIT_OBJECT_0, 0);
    assert_eq!(signaled_or(0, invalid), Ok(()));
    assert_eq!(signaled_or(WAIT_FAILED, invalid), Err(invalid));
    assert_eq!(signaled_or(WAIT_TIMEOUT, invalid), Err(invalid));
    assert_eq!(wait_returned(0), Ok(()));
    assert!(wait_returned(WAIT_FAILED).is_err());
    assert!(wait_returned(WAIT_TIMEOUT).is_err());
}

#[test]
fn status_success_only_at_zero() {
    let invalid: OsError = OsError::new(ERROR_INVALID_HANDLE, false);
    assert_eq!(STATUS_SUCCESS, 0);
    assert_eq!(status_or(0, invalid), Ok(()));
    assert_eq!(status_or(1, invalid), Err(invalid));
    assert_eq!(status_or(i32::MIN, invalid), Err(invalid));
    assert_eq!(nt_status(0), NtOutcome::Done);
    assert_eq!(nt_status(1), NtOutcome::Translate { status: 1 });
    assert_eq!(nt_status(-1073741816), NtOutcome::Translate { status: -1073741816 });
    assert_eq!(nt_status(i32::MIN), NtOutcome::Translate { status: i32::MIN });
}

#[test]
fn names_of_the_entry_points() {
    assert_eq!(module_name(), "ntdll");
    assert_eq!(NtEntry::SuspendProcess.name(), "NtSuspendProcess");
    assert_eq!(NtEntry::ResumeProcess.name(), "NtResumeProcess");
}

#[test]
fn first_use_asks_for_a_lookup() {
    let h: Handle = some_handle();
    let entries: EntryPoints = EntryPoints::new();
    assert_eq!(entries.resolution(NtEntry::SuspendProcess), Resolution::Unresolved);
    assert_eq!(entries.resolution(NtEntry::ResumeProcess), Resolution::Unresolved);
    assert_eq!(suspend(h, &entries), NtAction::Resolve { entry: NtEntry::SuspendProcess });
    assert_eq!(resume(h, &entries), NtAction::Resolve { entry: NtEntry::ResumeProcess });
}

#[test]
fn found_entry_is_invoked_with_the_handle() {
    let h: Handle = some_handle();
    let mut entries: EntryPoints = EntryPoints::new();
    entries.resolved(NtEntry::SuspendProcess, 0x7ff0_1000);
    assert_eq!(suspend(h, &entries), NtAction::Invoke { address: 0x7ff0_1000, handle: h });
    assert_eq!(resume(h, &entries), NtAction::Resolve { entry: NtEntry::ResumeProcess });
    entries.resolved(NtEntry::ResumeProcess, 0x7ff0_2000);
    assert_eq!(resume(h, &entries), NtAction::Invoke { address: 0x7ff0_2000, handle: h });
    assert_eq!(suspend(h, &entries), NtAction::Invoke { address: 0x7ff0_1000, handle: h });
}

#[test]
fn missing_entry_fails_and_is_never_called() {
    let h: Handle = some_handle();
    let absent: OsError = OsError::new(ERROR_PROC_NOT_FOUND, false);
    let mut entries: EntryPoints = EntryPoints::new();
    entries.record(NtEntry::SuspendProcess, 0, absent);
    assert_eq!(entries.resolution(NtEntry::SuspendProcess), Resolution::Missing(absent));
    assert_eq!(suspend(h, &entries), NtAction::Fail(absent));
    assert_eq!(entries.resolution(NtEntry::ResumeProcess), Resolution::Unresolved);
}

#[test]
fn missing_entry_from_the_system_fails() {
    let h: Handle = some_handle();
    let mut entries: EntryPoints = EntryPoints::new();
    entries.resolved(NtEntry::ResumeProcess, 0);
    assert!(matches!(resume(h, &entries), NtAction::Fail(_)));
    assert!(matches!(entries.resolution(NtEntry::ResumeProcess), Resolution::Missing(_)));
}

#[test]
fn the_first_answer_stays() {
    let absent: OsError = OsError::new(ERROR_PROC_NOT_FOUND, false);
    let mut entries: EntryPoints = EntryPoints::new();
    entries.record(NtEntry::SuspendProcess, 0x10, absent);
    entries.record(NtEntry::SuspendProcess, 0x20, absent);
    entries.record(NtEntry::SuspendProcess, 0, absent);
    entries.resolved(NtEntry::SuspendProcess, 0x30);
    assert_eq!(entries.resolution(NtEntry::SuspendProcess), Resolution::Found(0x10));
    entries.record(NtEntry::ResumeProcess, 0, absent);
    entries.record(NtEntry::ResumeProcess, 0x40, absent);
    entries.resolved(NtEntry::ResumeProcess, 0x50);
    assert_eq!(entries.resolution(NtEntry::ResumeProcess), Resolution::Missing(absent));
}

#[test]
fn operations_on_a_released_handle_do_not_crash() {
    let h: Handle = some_handle();
    let invalid: OsError = OsError::new(ERROR_INVALID_HANDLE, false);
    assert_eq!(close_handle(h), CloseRequest { handle: h });
    assert_eq!(nonzero_or(1, invalid), Ok(()));
    // The handle is released; what the system answers from here on is a failure.
    assert_eq!(wait(h), WaitRequest { handle: h, timeout: INFINITE });
    assert_eq!(signaled_or(WAIT_FAILED, invalid), Err(invalid));
    assert_eq!(kill(h), TerminateRequest { handle: h, exit_code: 0 });
    assert_eq!(nonzero_or(0, invalid), Err(invalid));
    assert_eq!(close_handle(h), CloseRequest { handle: h });
    assert_eq!(nonzero_or(0, invalid), Err(invalid));
    let mut entries: EntryPoints = EntryPoints::new();
    entries.resolved(NtEntry::SuspendProcess, 0x7ff0_1000);
    assert_eq!(suspend(h, &entries), NtAction::Invoke { address: 0x7ff0_1000, handle: h });
    assert_eq!(nt_status(-1073741816), NtOutcome::Translate { status: -1073741816 });
    assert_eq!(status_or(-1073741816, invalid), Err(invalid));
}

#[test]
fn failed_entry_point_gives_the_translation_of_its_status() {
    let stale: OsError = OsError::new(ERROR_ACCESS_DENIED, false);
    let translated: OsError = OsError::new(ERROR_INVALID_HANDLE, false);
    assert_ne!(stale, translated);
    match nt_status(-1073741816) {
        NtOutcome::Done => panic!("a failing status is no success"),
        NtOutcome::Translate { status } => {
            assert_eq!(status, -1073741816);
            assert_eq!(status_or(status, translated), Err(translated));
        }
    }
}

#[test]
fn owned_handle_is_released_once() {
    let h: Handle = some_handle();
    let mut owned: OwnedHandle = OwnedHandle::new(h);
    assert_eq!(owned.get(), Some(h));
    assert_eq!(owned.release(), Some(CloseRequest { handle: h }));
    assert_eq!(owned.get(), None);
    assert_eq!(owned.release(), None);
    assert_eq!(owned.get(), None);
}
