//! The signal backend: a process is named by its numeric identifier, the
//! operations are signals, and waiting is a peek that leaves the exit status
//! in place for whoever reaps it.

use vstd::prelude::*;
use crate::error::{last_os_error, outcome, OsError};

verus! {

/// The signals that the operations send, by class.
#[derive(Clone, Copy, Debug, PartialEq, Eq, Structural)]
pub enum Signal {
    /// Abnormal termination.
    Abort,
    /// The stop signal of the terminal, which the target may catch.
    TerminalStop,
    /// Continue after a stop.
    Continue,
}

/// One signal to deliver: to whom, and which.
#[derive(Clone, Copy, Debug, PartialEq, Eq, Structural)]
pub struct SignalRequest {
    /// The process, by its identifier as the native call takes it: always
    /// positive, so that it names one process and never a group.
    pub target: i32,
    pub signal: Signal,
}

/// One blocking wait on a process.
#[derive(Clone, Copy, Debug, PartialEq, Eq, Structural)]
pub struct WaitRequest {
    /// The process waited for, named by its own identifier.
    pub pid: u32,
    /// Return once the process has exited.
    pub exited: bool,
    /// Leave the exit status in place, so that a later reaping call finds it.
    pub no_reap: bool,
}

/// What follows one return of the blocking wait.
#[derive(Clone, Copy, Debug, PartialEq, Eq, Structural)]
pub enum WaitStep {
    /// The process has exited: the wait is over, with success.
    Exited,
    /// The wait is over, with this error.
    Failed(OsError),
    /// The call was cut short by an unrelated signal: issue it again.
    Retry,
}

/// The value by which a signal's failed delivery is told.
pub const SEND_FAILED: i32 = -1;

/// The value by which the blocking wait tells that the process has exited.
pub const WAIT_EXITED: i32 = 0;

/// Whether `pid` can name a process: identifiers start at one and fit in a
/// signed integer. Zero and the values above `i32::MAX` name none; read as
/// signed integers they would address groups of processes.
pub open spec fn names_a_process(pid: u32) -> bool {
    1 <= pid <= i32::MAX
}

/// The request that delivers `signal` to `pid`, or the error `missing` where
/// `pid` names no process.
pub open spec fn request_for(pid: u32, signal: Signal, missing: OsError) -> Result<
    SignalRequest,
    OsError,
> {
    if names_a_process(pid) {
        Ok(SignalRequest { target: pid as i32, signal })
    } else {
        Err(missing)
    }
}

/// The wait that `wait` issues: for exit, without reaping.
pub open spec fn peek_exit(pid: u32) -> WaitRequest {
    WaitRequest { pid, exited: true, no_reap: true }
}

/// What one return of the blocking wait means, `err` being the system's error
/// at that moment: zero is success, an interruption asks for another attempt,
/// any other error ends the wait as it is.
pub open spec fn step_of(ret: i32, err: OsError) -> WaitStep {
    if ret == WAIT_EXITED {
        WaitStep::Exited
    } else if err.is_interrupted() {
        WaitStep::Retry
    } else {
        WaitStep::Failed(err)
    }
}

/// Where a wait stands after the returns in `trace`, oldest first: at the
/// first return that is not an interruption, or still waiting.
pub open spec fn wait_over(trace: Seq<(i32, OsError)>) -> WaitStep
    decreases trace.len(),
{
    if trace.len() == 0 {
        WaitStep::Retry
    } else {
        match step_of(trace[0].0, trace[0].1) {
            WaitStep::Retry => wait_over(trace.skip(1)),
            done => done,
        }
    }
}

/// `libc::ESRCH`: the code by which the system says that no process has the
/// identifier asked for. Its value is the target's own, so nothing is claimed
/// of it.
#[verifier::external_body]
fn no_such_process_code() -> (code: i32) {
    libc::ESRCH
}

/// The error of an identifier that names no process: the system's own code
/// for it, and no interruption.
pub fn no_such_process() -> (e: OsError)
    ensures
        !e.is_interrupted(),
{
    OsError::new(no_such_process_code(), false)
}

/// The request that delivers `signal` to `pid`, with `missing` as the error
/// of an identifier that names no process.
pub fn request(pid: u32, signal: Signal, missing: OsError) -> (r: Result<SignalRequest, OsError>)
    ensures
        r == request_for(pid, signal, missing),
{
    if 1 <= pid && pid <= 0x7fff_ffff {
        Ok(SignalRequest { target: pid as i32, signal })
    } else {
        Err(missing)
    }
}

fn send_signal(pid: u32, signal: Signal) -> (r: Result<SignalRequest, OsError>)
    ensures
        names_a_process(pid) ==> r == Ok::<SignalRequest, OsError>(
            SignalRequest { target: pid as i32, signal },
        ),
        !names_a_process(pid) ==> r is Err,
        r matches Err(e) ==> !e.is_interrupted(),
        exists|missing: OsError| r == request_for(pid, signal, missing),
{
    if 1 <= pid && pid <= 0x7fff_ffff {
        let r = Ok(SignalRequest { target: pid as i32, signal });
        assert(r == request_for(pid, signal, arbitrary::<OsError>()));
        r
    } else {
        request(pid, signal, no_such_process())
    }
}

/// Blocks until the process has exited, without consuming its exit status.
/// This is the request to issue; `wait_returned` reads each return of it.
pub fn wait(pid: u32) -> (req: WaitRequest)
    ensures
        req == peek_exit(pid),
{
    WaitRequest { pid, exited: true, no_reap: true }
}

/// Asks the process to terminate, by the abort signal. An identifier that
/// names no process is an error, and nothing is to be sent.
pub fn kill(pid: u32) -> (r: Result<SignalRequest, OsError>)
    ensures
        names_a_process(pid) ==> r == Ok::<SignalRequest, OsError>(
            SignalRequest { target: pid as i32, signal: Signal::Abort },
        ),
        !names_a_process(pid) ==> r is Err,
        r matches Err(e) ==> !e.is_interrupted(),
{
    send_signal(pid, Signal::Abort)
}

/// Asks the process to pause, by the terminal's stop signal. A target that
/// handles this signal may go on running. An identifier that names no
/// process is an error, and nothing is to be sent.
pub fn suspend(pid: u32) -> (r: Result<SignalRequest, OsError>)
    ensures
        names_a_process(pid) ==> r == Ok::<SignalRequest, OsError>(
            SignalRequest { target: pid as i32, signal: Signal::TerminalStop },
        ),
        !names_a_process(pid) ==> r is Err,
        r matches Err(e) ==> !e.is_interrupted(),
{
    send_signal(pid, Signal::TerminalStop)
}

/// Lets a paused process go on, by the continue signal. An identifier that
/// names no process is an error, and nothing is to be sent.
pub fn resume(pid: u32) -> (r: Result<SignalRequest, OsError>)
    ensures
        names_a_process(pid) ==> r == Ok::<SignalRequest, OsError>(
            SignalRequest { target: pid as i32, signal: Signal::Continue },
        ),
        !names_a_process(pid) ==> r is Err,
        r matches Err(e) ==> !e.is_interrupted(),
{
    send_signal(pid, Signal::Continue)
}

/// The result of a delivery that returned `ret`, `err` being the system's
/// error at that moment.
pub fn delivery(ret: i32, err: OsError) -> (r: Result<(), OsError>)
    ensures
        r == outcome(ret != SEND_FAILED, err),
{
    if ret == SEND_FAILED {
        Err(err)
    } else {
        Ok(())
    }
}

/// The result of a delivery that returned `ret`. To be called right after
/// the native call, on its thread: a failure carries the system's last error.
pub fn signal_sent(ret: i32) -> (r: Result<(), OsError>)
    ensures
        r.is_ok() <==> ret != SEND_FAILED,
{
    if ret == SEND_FAILED {
        delivery(ret, last_os_error())
    } else {
        Ok(())
    }
}

/// What follows a return `ret` of the blocking wait, `err` being the system's
/// error at that moment.
pub fn wait_step(ret: i32, err: OsError) -> (step: WaitStep)
    ensures
        step == step_of(ret, err),
{
    if ret == WAIT_EXITED {
        WaitStep::Exited
    } else if err.is_interrupted() {
        WaitStep::Retry
    } else {
        WaitStep::Failed(err)
    }
}

/// What follows a return `ret` of the blocking wait. To be called right after
/// the native call, on its thread: on a failure the system's last error
/// decides. An interruption is never handed on.
pub fn wait_returned(ret: i32) -> (step: WaitStep)
    ensures
        ret == WAIT_EXITED ==> step == WaitStep::Exited,
        ret != WAIT_EXITED ==> exists|err: OsError| step == step_of(ret, err),
        step matches WaitStep::Failed(e) ==> !e.is_interrupted(),
{
    if ret == WAIT_EXITED {
        WaitStep::Exited
    } else {
        let err = last_os_error();
        wait_step(ret, err)
    }
}

/// A return is decisive when it ends the wait.
pub open spec fn decisive(ret: i32, err: OsError) -> bool {
    ret == WAIT_EXITED || !err.is_interrupted()
}

/// A wait never ends in an interruption: whatever the returns, it either
/// still waits or has a result that is success or an error other than an
/// interruption.
pub proof fn lemma_wait_never_interrupted(trace: Seq<(i32, OsError)>)
    ensures
        wait_over(trace) matches WaitStep::Failed(e) ==> !e.is_interrupted(),
    decreases trace.len(),
{
    if trace.len() > 0 {
        lemma_wait_never_interrupted(trace.skip(1));
    }
}

/// Interruptions are transparent: a wait ends at the first decisive return,
/// with that return's own result, and every return before it was an
/// interruption that left no trace. With no decisive return it still waits.
pub proof fn lemma_wait_ends_at_first_decisive(trace: Seq<(i32, OsError)>, i: int)
    requires
        0 <= i <= trace.len(),
        forall|j: int| 0 <= j < i ==> !decisive(#[trigger] trace[j].0, trace[j].1),
    ensures
        i < trace.len() && decisive(trace[i].0, trace[i].1) ==> wait_over(trace) == step_of(
            trace[i].0,
            trace[i].1,
        ),
        i == trace.len() ==> wait_over(trace) == WaitStep::Retry,
    decreases trace.len(),
{
    if trace.len() > 0 && i > 0 {
        let rest = trace.skip(1);
        assert forall|j: int| 0 <= j < i - 1 implies !decisive(#[trigger] rest[j].0, rest[j].1) by {
            assert(rest[j] == trace[j + 1]);
        }
        lemma_wait_ends_at_first_decisive(rest, i - 1);
        if i < trace.len() {
            assert(rest[i - 1] == trace[i]);
        }
    }
}

/// A return of zero after nothing but interruptions.
pub open spec fn exited_after_interruptions(trace: Seq<(i32, OsError)>) -> bool {
    &&& trace.len() > 0
    &&& trace.last().0 == WAIT_EXITED
    &&& forall|j: int| 0 <= j < trace.len() - 1 ==> !decisive(#[trigger] trace[j].0, trace[j].1)
}

/// Waiting can be repeated: two waits that the system each answers with
/// zero, after however many interruptions, both end in success.
pub proof fn lemma_wait_twice_succeeds(first: Seq<(i32, OsError)>, second: Seq<(i32, OsError)>)
    requires
        exited_after_interruptions(first),
        exited_after_interruptions(second),
    ensures
        wait_over(first) == WaitStep::Exited,
        wait_over(second) == WaitStep::Exited,
{
    lemma_wait_ends_at_first_decisive(first, first.len() - 1);
    lemma_wait_ends_at_first_decisive(second, second.len() - 1);
}

} // verus!
