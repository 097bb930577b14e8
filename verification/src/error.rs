//! The ways in which a request to the library can fail.

use vstd::prelude::*;
use vstd::std_specs::convert::FromSpecImpl;

verus! {

/// Why a request was not carried out. None of these ends the program: each
/// is handed back to the caller.
#[derive(Clone, Copy, Debug, PartialEq, Eq, Structural)]
pub enum Error {
    /// The debugger or its script directories could not be found.
    ToolNotFound,
    /// A session is running or being started; a second one is not queued.
    AlreadyRunning,
    /// The operating system did not create the process.
    SpawnFailed,
    /// There is no session to end.
    NotRunning,
    /// The operating system did not end the process.
    KillFailed,
    /// The path to list is not a directory.
    DirectoryMissing,
}

impl Error {
    /// The text shown to the user for this error.
    pub open spec fn text(self) -> Seq<char> {
        match self {
            Error::ToolNotFound => "OpenOCD not found!"@,
            Error::AlreadyRunning => "OpenOCD has been already started!"@,
            Error::SpawnFailed => "OpenOCD was not started!"@,
            Error::NotRunning => "OpenOCD is not running!"@,
            Error::KillFailed => "OpenOCD was not killed!"@,
            Error::DirectoryMissing => "Directory not found!"@,
        }
    }

    /// The text shown to the user for this error.
    pub fn message(&self) -> (m: &'static str)
        ensures
            m@ == self.text(),
    {
        match self {
            Error::ToolNotFound => "OpenOCD not found!",
            Error::AlreadyRunning => "OpenOCD has been already started!",
            Error::SpawnFailed => "OpenOCD was not started!",
            Error::NotRunning => "OpenOCD is not running!",
            Error::KillFailed => "OpenOCD was not killed!",
            Error::DirectoryMissing => "Directory not found!",
        }
    }
}

/// An error as it is reported to the user interface: its text alone.
#[derive(Debug)]
pub struct ErrorMsg {
    pub message: String,
}

impl ErrorMsg {
    /// The report that says `msg`.
    pub fn new(msg: &str) -> (r: Self)
        ensures
            r.message@ == msg@,
    {
        Self { message: msg.to_owned() }
    }

    /// The report of `error`.
    pub fn of(error: Error) -> (r: Self)
        ensures
            r.message@ == error.text(),
    {
        ErrorMsg::new(error.message())
    }
}

impl From<String> for ErrorMsg {
    /// The report that says `msg`.
    fn from(msg: String) -> (r: ErrorMsg) {
        ErrorMsg { message: msg }
    }
}

impl FromSpecImpl<String> for ErrorMsg {
    open spec fn obeys_from_spec() -> bool {
        true
    }

    open spec fn from_spec(msg: String) -> ErrorMsg {
        ErrorMsg { message: msg }
    }
}

impl<'a> From<&'a str> for ErrorMsg {
    /// The report that says `msg`.
    fn from(msg: &'a str) -> (r: ErrorMsg)
        ensures
            r.message@ == msg@,
    {
        ErrorMsg::new(msg)
    }
}

impl<'a> FromSpecImpl<&'a str> for ErrorMsg {
    open spec fn obeys_from_spec() -> bool {
        false
    }

    open spec fn from_spec(msg: &'a str) -> ErrorMsg {
        arbitrary()
    }
}

impl Clone for ErrorMsg {
    fn clone(&self) -> (r: Self)
        ensures
            r.message@ == self.message@,
    {
        ErrorMsg { message: self.message.clone() }
    }
}

} // verus!
