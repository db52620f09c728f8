//! The one error kind of the crate: an operating-system error, held by its
//! native code.

use vstd::prelude::*;

verus! {

/// `std::io::Error`, carried through as an opaque value.
#[verifier::external_type_specification]
#[verifier::external_body]
pub struct ExIoError(std::io::Error);

/// An operating-system error: the native error code, and whether the system
/// classifies it as a blocking call cut short by a signal.
#[derive(Clone, Copy, Debug, PartialEq, Eq, Structural)]
pub struct OsError {
    code: i32,
    interrupted: bool,
}

impl OsError {
    /// The error with the given native code and classification.
    pub fn new(code: i32, interrupted: bool) -> (e: OsError)
        ensures
            e.code() == code,
            e.is_interrupted() == interrupted,
    {
        OsError { code, interrupted }
    }

    /// The error that the system reports with the native code `raw` and
    /// classifies by `interrupted`. An error that carries no native code is
    /// held with code zero.
    pub fn reported(raw: Option<i32>, interrupted: bool) -> (e: OsError)
        ensures
            e.code() == code_of(raw),
            e.is_interrupted() == interrupted,
    {
        match raw {
            Some(code) => OsError::new(code, interrupted),
            None => OsError::new(0, interrupted),
        }
    }

    /// The native error code.
    #[verifier::when_used_as_spec(spec_code)]
    pub fn code(&self) -> (c: i32)
        ensures
            c == self.code(),
    {
        self.code
    }

    pub closed spec fn spec_code(&self) -> i32 {
        self.code
    }

    /// Whether the error stands for an interrupted blocking call.
    #[verifier::when_used_as_spec(spec_is_interrupted)]
    pub fn is_interrupted(&self) -> (b: bool)
        ensures
            b == self.is_interrupted(),
    {
        self.interrupted
    }

    pub closed spec fn spec_is_interrupted(&self) -> bool {
        self.interrupted
    }
}

/// `std::io::Error::last_os_error`: the calling thread's most recent
/// operating-system error. Nothing is claimed of which error that is.
#[verifier::external_body]
fn io_last_os_error() -> (e: std::io::Error) {
    std::io::Error::last_os_error()
}

/// `std::io::Error::raw_os_error`: the native code that the error carries, if
/// it carries one. Nothing is claimed of the code.
#[verifier::external_body]
fn io_raw_os_error(e: &std::io::Error) -> (code: Option<i32>) {
    e.raw_os_error()
}

/// `std::io::Error::kind`, told apart only as `Interrupted` or anything else.
/// Nothing is claimed of which it is.
#[verifier::external_body]
fn io_kind_is_interrupted(e: &std::io::Error) -> (b: bool) {
    match e.kind() {
        std::io::ErrorKind::Interrupted => true,
        _ => false,
    }
}

/// The code under which an error is held: its native code, or zero where it
/// carries none.
pub open spec fn code_of(raw: Option<i32>) -> i32 {
    match raw {
        Some(code) => code,
        None => 0,
    }
}

/// The calling thread's most recent operating-system error, as the system
/// reports it at the moment of the call: `OsError::reported` of its native
/// code and its classification. Which error that is lies with the system, so
/// nothing is promised of it.
pub fn last_os_error() -> (e: OsError) {
    let err = io_last_os_error();
    let raw = io_raw_os_error(&err);
    OsError::reported(raw, io_kind_is_interrupted(&err))
}

/// `Ok` when the native call succeeded, else the given error.
pub open spec fn outcome(succeeded: bool, err: OsError) -> Result<(), OsError> {
    if succeeded {
        Ok(())
    } else {
        Err(err)
    }
}

} // verus!
