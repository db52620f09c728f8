//! The handle backend: a process is held by a kernel handle that its owner
//! opens once and closes once. Termination and waiting go through the
//! handle; suspend and resume go through two entry points of the system's
//! kernel-interface module that are looked up by name, once each.

use vstd::prelude::*;
use crate::error::{last_os_error, outcome, OsError};

verus! {

/// The access rights that every kernel object has.
pub const STANDARD_RIGHTS_REQUIRED: u32 = 0x000F_0000;

/// The right to wait on the object.
pub const SYNCHRONIZE: u32 = 0x0010_0000;

/// Every access right that a process object has.
pub const PROCESS_ALL_ACCESS: u32 = 0x001F_FFFF;

/// The timeout that never runs out.
pub const INFINITE: u32 = 0xFFFF_FFFF;

/// What a wait returns when the object has been signaled.
pub const WAIT_OBJECT_0: u32 = 0;

/// The status of an entry point that did its work.
pub const STATUS_SUCCESS: i32 = 0;

/// The exit code that a terminated process is given.
pub const KILL_EXIT_CODE: u32 = 0;

/// A kernel handle on a process: a plain value that can be copied and passed
/// on; the owner closes it once, after its last use.
#[derive(Clone, Copy, Debug, PartialEq, Eq, Structural)]
pub struct Handle {
    raw: usize,
}

impl Handle {
    #[verifier::type_invariant]
    spec fn not_null(self) -> bool {
        self.raw != 0
    }

    /// The handle as the system gave it. Never null.
    #[verifier::when_used_as_spec(spec_raw)]
    pub fn raw(&self) -> (raw: usize)
        ensures
            raw == self.raw(),
            raw != 0,
    {
        proof {
            use_type_invariant(self);
        }
        self.raw
    }

    pub closed spec fn spec_raw(&self) -> usize {
        self.raw
    }
}

/// A handle together with its owner's duty: to close it once, and to issue
/// nothing on it afterwards.
#[derive(Debug)]
pub struct OwnedHandle {
    handle: Handle,
    released: bool,
}

/// Open a process, for a handle on it.
#[derive(Clone, Copy, Debug, PartialEq, Eq, Structural)]
pub struct OpenRequest {
    /// The access rights asked for.
    pub access: u32,
    /// Whether processes created by this one inherit the handle.
    pub inherit: bool,
    /// The process to open.
    pub pid: u32,
}

/// Close a handle.
#[derive(Clone, Copy, Debug, PartialEq, Eq, Structural)]
pub struct CloseRequest {
    pub handle: Handle,
}

/// Block until a handle is signaled.
#[derive(Clone, Copy, Debug, PartialEq, Eq, Structural)]
pub struct WaitRequest {
    pub handle: Handle,
    /// How long to wait at most, in milliseconds.
    pub timeout: u32,
}

/// End a process.
#[derive(Clone, Copy, Debug, PartialEq, Eq, Structural)]
pub struct TerminateRequest {
    pub handle: Handle,
    /// The exit code that the process is given.
    pub exit_code: u32,
}

/// The two entry points that are looked up by name.
#[derive(Clone, Copy, Debug, PartialEq, Eq, Structural)]
pub enum NtEntry {
    SuspendProcess,
    ResumeProcess,
}

/// What is known of one entry point.
#[derive(Clone, Copy, Debug, PartialEq, Eq, Structural)]
pub enum Resolution {
    /// Not looked up yet.
    Unresolved,
    /// Looked up and found at this address.
    Found(usize),
    /// Looked up and not there; the lookup failed with this error.
    Missing(OsError),
}

/// The next thing to do for a suspend or a resume.
#[derive(Clone, Copy, Debug, PartialEq, Eq, Structural)]
pub enum NtAction {
    /// Look the entry point up, hand the address to `EntryPoints::resolved`,
    /// and ask again.
    Resolve { entry: NtEntry },
    /// Call the entry point at `address` with `handle`.
    Invoke { address: usize, handle: Handle },
    /// The entry point does not exist here: fail with this error.
    Fail(OsError),
}

/// What follows the return of an entry point.
#[derive(Clone, Copy, Debug, PartialEq, Eq, Structural)]
pub enum NtOutcome {
    /// The entry point did its work.
    Done,
    /// It failed: have the system translate `status` into its error, and
    /// hand that to `status_or`.
    Translate { status: i32 },
}

/// What the process's lookups have found so far. Each entry point is looked
/// up at most once; the answer, found or missing, is kept.
#[derive(Clone, Copy, Debug, PartialEq, Eq, Structural)]
pub struct EntryPoints {
    suspend: Resolution,
    resume: Resolution,
}

/// Every right of a process object: the required ones, the right to wait,
/// and all the specific ones.
pub proof fn lemma_all_access()
    ensures
        PROCESS_ALL_ACCESS == STANDARD_RIGHTS_REQUIRED | SYNCHRONIZE | 0xFFFF,
{
    assert(0x001F_FFFFu32 == 0x000F_0000u32 | 0x0010_0000u32 | 0xFFFFu32) by (bit_vector);
}

/// The request that opens `pid`.
pub open spec fn open_all_access(pid: u32) -> OpenRequest {
    OpenRequest { access: PROCESS_ALL_ACCESS, inherit: false, pid }
}

/// The handle that the system gave as `raw`.
pub closed spec fn handle_at(raw: usize) -> Handle {
    Handle { raw }
}

/// What an open that returned `raw` means: null is the failure `err`.
pub open spec fn opened_as(raw: usize, err: OsError) -> Result<Handle, OsError> {
    if raw == 0 {
        Err(err)
    } else {
        Ok(handle_at(raw))
    }
}

/// A handle is what the system gave, and nothing more.
pub proof fn lemma_handle_at(h: Handle)
    ensures
        h == handle_at(h.raw()),
        forall|raw: usize| #[trigger] handle_at(raw).raw() == raw,
{
}

/// A resolution is sound when an address it holds can be called.
pub open spec fn callable(r: Resolution) -> bool {
    r matches Resolution::Found(address) ==> address != 0
}

/// What a lookup that returned `address` tells: null is the failure `err`.
pub open spec fn looked_up(address: usize, err: OsError) -> Resolution {
    if address == 0 {
        Resolution::Missing(err)
    } else {
        Resolution::Found(address)
    }
}

/// What is known of an entry point once `answer` has come in: the first
/// answer stays.
pub open spec fn first_answer(known: Resolution, answer: Resolution) -> Resolution {
    if known == Resolution::Unresolved {
        answer
    } else {
        known
    }
}

/// The next thing to do for `entry` on `handle`, given what is known of it.
pub open spec fn action_for(known: Resolution, entry: NtEntry, handle: Handle) -> NtAction {
    match known {
        Resolution::Unresolved => NtAction::Resolve { entry },
        Resolution::Found(address) => NtAction::Invoke { address, handle },
        Resolution::Missing(err) => NtAction::Fail(err),
    }
}

/// An entry point is looked up at most once: after any answer but
/// `Unresolved` the next thing to do is never another lookup, and a second
/// answer changes nothing.
pub proof fn lemma_resolved_once(
    known: Resolution,
    answer: Resolution,
    later: Resolution,
    entry: NtEntry,
    handle: Handle,
)
    requires
        answer != Resolution::Unresolved,
    ensures
        !(action_for(first_answer(known, answer), entry, handle) is Resolve),
        first_answer(first_answer(known, answer), later) == first_answer(known, answer),
{
}

/// A null address is never called: what a lookup tells is callable, and so
/// is what is known after it.
pub proof fn lemma_never_call_null(known: Resolution, address: usize, err: OsError)
    requires
        callable(known),
    ensures
        callable(looked_up(address, err)),
        callable(first_answer(known, looked_up(address, err))),
        address == 0 ==> first_answer(Resolution::Unresolved, looked_up(address, err))
            == Resolution::Missing(err),
{
}

/// The name of the system's kernel-interface module.
pub fn module_name() -> (name: &'static str)
    ensures
        name@ == "ntdll"@,
{
    "ntdll"
}

impl NtEntry {
    /// The name under which the entry point is looked up.
    pub fn name(&self) -> (name: &'static str)
        ensures
            name@ == self.spec_name(),
    {
        match self {
            NtEntry::SuspendProcess => "NtSuspendProcess",
            NtEntry::ResumeProcess => "NtResumeProcess",
        }
    }

    pub open spec fn spec_name(&self) -> Seq<char> {
        match self {
            NtEntry::SuspendProcess => "NtSuspendProcess"@,
            NtEntry::ResumeProcess => "NtResumeProcess"@,
        }
    }
}

impl OwnedHandle {
    /// The handle that is owned.
    pub closed spec fn handle(&self) -> Handle {
        self.handle
    }

    /// Whether the handle has been given back.
    pub closed spec fn is_released(&self) -> bool {
        self.released
    }

    /// Takes charge of a handle that was just opened.
    pub fn new(handle: Handle) -> (owned: OwnedHandle)
        ensures
            owned.handle() == handle,
            !owned.is_released(),
    {
        OwnedHandle { handle, released: false }
    }

    /// The handle, for as long as operations on it are in order: none once
    /// it has been released.
    pub fn get(&self) -> (h: Option<Handle>)
        ensures
            h == (if self.is_released() {
                None
            } else {
                Some(self.handle())
            }),
    {
        if self.released {
            None
        } else {
            Some(self.handle)
        }
    }

    /// Gives the handle back: the close to issue, the first time and never
    /// again.
    pub fn release(&mut self) -> (req: Option<CloseRequest>)
        ensures
            final(self).is_released(),
            final(self).handle() == old(self).handle(),
            req == (if old(self).is_released() {
                None
            } else {
                Some(CloseRequest { handle: old(self).handle() })
            }),
    {
        if self.released {
            None
        } else {
            self.released = true;
            Some(close_handle(self.handle))
        }
    }
}

impl EntryPoints {
    /// What is known of `entry`.
    pub closed spec fn known(&self, entry: NtEntry) -> Resolution {
        match entry {
            NtEntry::SuspendProcess => self.suspend,
            NtEntry::ResumeProcess => self.resume,
        }
    }

    /// No address that is held is null.
    #[verifier::type_invariant]
    spec fn wf(self) -> bool {
        &&& callable(self.suspend)
        &&& callable(self.resume)
    }

    /// Nothing looked up yet.
    pub fn new() -> (entries: EntryPoints)
        ensures
            entries.known(NtEntry::SuspendProcess) == Resolution::Unresolved,
            entries.known(NtEntry::ResumeProcess) == Resolution::Unresolved,
    {
        EntryPoints { suspend: Resolution::Unresolved, resume: Resolution::Unresolved }
    }

    /// What is known of `entry`. An address in it is never null.
    pub fn resolution(&self, entry: NtEntry) -> (r: Resolution)
        ensures
            r == self.known(entry),
            callable(r),
    {
        proof {
            use_type_invariant(self);
        }
        match entry {
            NtEntry::SuspendProcess => self.suspend,
            NtEntry::ResumeProcess => self.resume,
        }
    }

    fn keep(&mut self, entry: NtEntry, answer: Resolution)
        requires
            callable(answer),
        ensures
            final(self).known(entry) == first_answer(old(self).known(entry), answer),
            forall|other: NtEntry| other != entry ==> final(self).known(other) == old(self).known(other),
    {
        proof {
            use_type_invariant(&*self);
        }
        match entry {
            NtEntry::SuspendProcess => {
                if self.suspend == Resolution::Unresolved {
                    self.suspend = answer;
                }
            },
            NtEntry::ResumeProcess => {
                if self.resume == Resolution::Unresolved {
                    self.resume = answer;
                }
            },
        }
    }

    /// Keeps the answer of a lookup of `entry` that returned `address`, `err`
    /// being the system's error at that moment. The first answer stays: a
    /// later one for the same entry point changes nothing.
    pub fn record(&mut self, entry: NtEntry, address: usize, err: OsError)
        ensures
            final(self).known(entry) == first_answer(
                old(self).known(entry),
                looked_up(address, err),
            ),
            forall|other: NtEntry| other != entry ==> final(self).known(other) == old(self).known(other),
    {
        if address == 0 {
            self.keep(entry, Resolution::Missing(err));
        } else {
            self.keep(entry, Resolution::Found(address));
        }
    }

    /// Keeps the answer of a lookup of `entry` that returned `address`. To be
    /// called right after the lookup, on its thread: a null address is kept
    /// as missing, with the system's last error. The first answer stays.
    pub fn resolved(&mut self, entry: NtEntry, address: usize)
        ensures
            exists|err: OsError| final(self).known(entry) == first_answer(
                old(self).known(entry),
                #[trigger] looked_up(address, err),
            ),
            final(self).known(entry) != Resolution::Unresolved,
            forall|other: NtEntry| other != entry ==> final(self).known(other) == old(self).known(other),
    {
        if address != 0 {
            self.keep(entry, Resolution::Found(address));
            assert(looked_up(address, arbitrary::<OsError>()) == Resolution::Found(address));
        } else if self.resolution(entry) == Resolution::Unresolved {
            let err = last_os_error();
            self.keep(entry, Resolution::Missing(err));
            assert(looked_up(address, err) == Resolution::Missing(err));
        } else {
            assert(first_answer(self.known(entry), looked_up(address, arbitrary::<OsError>()))
                == self.known(entry));
        }
    }
}

/// Opens the process `pid` with every access right. This is the request to
/// issue; `handle_opened` reads its return.
pub fn get_handle(pid: u32) -> (req: OpenRequest)
    ensures
        req == open_all_access(pid),
{
    OpenRequest { access: PROCESS_ALL_ACCESS, inherit: false, pid }
}

/// Returns the handle to the system. The owner does so once, after the last
/// operation on it.
pub fn close_handle(h: Handle) -> (req: CloseRequest)
    ensures
        req == (CloseRequest { handle: h }),
{
    CloseRequest { handle: h }
}

/// Blocks, with no timeout, until the process object is signaled, which it is
/// when the process ends.
pub fn wait(h: Handle) -> (req: WaitRequest)
    ensures
        req == (WaitRequest { handle: h, timeout: INFINITE }),
{
    WaitRequest { handle: h, timeout: INFINITE }
}

/// Ends the process at once, with a fixed exit code.
pub fn kill(h: Handle) -> (req: TerminateRequest)
    ensures
        req == (TerminateRequest { handle: h, exit_code: KILL_EXIT_CODE }),
{
    TerminateRequest { handle: h, exit_code: KILL_EXIT_CODE }
}

fn nt_action(entries: &EntryPoints, entry: NtEntry, h: Handle) -> (action: NtAction)
    ensures
        action == action_for(entries.known(entry), entry, h),
        action matches NtAction::Invoke { address, .. } ==> address != 0,
{
    match entries.resolution(entry) {
        Resolution::Unresolved => NtAction::Resolve { entry },
        Resolution::Found(address) => NtAction::Invoke { address, handle: h },
        Resolution::Missing(err) => NtAction::Fail(err),
    }
}

/// The next thing to do to suspend the process: look the entry point up if
/// that was never done, call it if it was found, fail if it is missing. A
/// null address is never called.
pub fn suspend(h: Handle, entries: &EntryPoints) -> (action: NtAction)
    ensures
        action == action_for(entries.known(NtEntry::SuspendProcess), NtEntry::SuspendProcess, h),
        action matches NtAction::Invoke { address, .. } ==> address != 0,
{
    nt_action(entries, NtEntry::SuspendProcess, h)
}

/// The next thing to do to resume the process, as for `suspend`.
pub fn resume(h: Handle, entries: &EntryPoints) -> (action: NtAction)
    ensures
        action == action_for(entries.known(NtEntry::ResumeProcess), NtEntry::ResumeProcess, h),
        action matches NtAction::Invoke { address, .. } ==> address != 0,
{
    nt_action(entries, NtEntry::ResumeProcess, h)
}

/// The result of an open that returned `raw`, `err` being the system's error
/// at that moment.
pub fn opened(raw: usize, err: OsError) -> (r: Result<Handle, OsError>)
    ensures
        r == opened_as(raw, err),
        r matches Ok(h) ==> h.raw() == raw && raw != 0,
{
    if raw == 0 {
        Err(err)
    } else {
        Ok(Handle { raw })
    }
}

/// The result of an open that returned `raw`. To be called right after the
/// native call, on its thread: a failure carries the system's last error.
pub fn handle_opened(raw: usize) -> (r: Result<Handle, OsError>)
    ensures
        raw != 0 ==> r == Ok::<Handle, OsError>(handle_at(raw)),
        raw == 0 ==> r is Err,
        r matches Ok(h) ==> h.raw() == raw,
{
    if raw == 0 {
        opened(raw, last_os_error())
    } else {
        Ok(Handle { raw })
    }
}

/// The result of a call that tells its failure by zero and returned `ret`,
/// `err` being the system's error at that moment.
pub fn nonzero_or(ret: i32, err: OsError) -> (r: Result<(), OsError>)
    ensures
        r == outcome(ret != 0, err),
{
    if ret == 0 {
        Err(err)
    } else {
        Ok(())
    }
}

/// The result of a close that returned `ret`. To be called right after the
/// native call, on its thread: a failure carries the system's last error.
pub fn handle_closed(ret: i32) -> (r: Result<(), OsError>)
    ensures
        r.is_ok() <==> ret != 0,
{
    if ret == 0 {
        nonzero_or(ret, last_os_error())
    } else {
        Ok(())
    }
}

/// The result of a termination that returned `ret`, read as `handle_closed`
/// reads a close.
pub fn terminated(ret: i32) -> (r: Result<(), OsError>)
    ensures
        r.is_ok() <==> ret != 0,
{
    if ret == 0 {
        nonzero_or(ret, last_os_error())
    } else {
        Ok(())
    }
}

/// The result of a wait that returned `ret`, `err` being the system's error
/// at that moment: success when the object was signaled, a failure on any
/// other return.
pub fn signaled_or(ret: u32, err: OsError) -> (r: Result<(), OsError>)
    ensures
        r == outcome(ret == WAIT_OBJECT_0, err),
{
    if ret == WAIT_OBJECT_0 {
        Ok(())
    } else {
        Err(err)
    }
}

/// The result of a wait that returned `ret`. To be called right after the
/// native call, on its thread: a failure carries the system's last error.
/// There is no second attempt.
pub fn wait_returned(ret: u32) -> (r: Result<(), OsError>)
    ensures
        r.is_ok() <==> ret == WAIT_OBJECT_0,
{
    if ret == WAIT_OBJECT_0 {
        Ok(())
    } else {
        signaled_or(ret, last_os_error())
    }
}

/// What a status of an entry point asks for.
pub open spec fn outcome_of(status: i32) -> NtOutcome {
    if status == STATUS_SUCCESS {
        NtOutcome::Done
    } else {
        NtOutcome::Translate { status }
    }
}

/// What follows an entry point that returned `status`: success, or the
/// translation of this very status into the system's error. The entry points
/// leave the thread's last error as it was, so that is never read here.
pub fn nt_status(status: i32) -> (o: NtOutcome)
    ensures
        o == outcome_of(status),
{
    if status == STATUS_SUCCESS {
        NtOutcome::Done
    } else {
        NtOutcome::Translate { status }
    }
}

/// The result of an entry point that returned `status`, `err` being the
/// error that the system translates this status to.
pub fn status_or(status: i32, err: OsError) -> (r: Result<(), OsError>)
    ensures
        r == outcome(status == STATUS_SUCCESS, err),
{
    match nt_status(status) {
        NtOutcome::Done => Ok(()),
        NtOutcome::Translate { .. } => Err(err),
    }
}

/// A suspend or resume fails exactly when its status is to be translated,
/// and then with the translation it is handed, whatever that is.
pub proof fn lemma_failure_is_the_translation(status: i32, err: OsError)
    ensures
        outcome_of(status) is Done <==> outcome(status == STATUS_SUCCESS, err) is Ok,
        outcome_of(status) == (NtOutcome::Translate { status }) <==> outcome(
            status == STATUS_SUCCESS,
            err,
        ) == Err::<(), OsError>(err),
{
}

} // verus!
