//! The failures that the supervisor reports.

use vstd::prelude::*;
use vstd::string::*;

verus! {

/// Why an operation of the supervisor did not succeed.
#[derive(Debug, PartialEq, Eq)]
pub enum Error {
    /// An operation on the file system or on a pipe failed; the text says how.
    IoError(String),
    /// The server is not running.
    ServerOffline(),
    /// The server is running already.
    ServerAlreadyOnline(),
    /// The server has no working directory.
    ServerFilesMissing(),
    /// A working directory for the server exists already.
    ServerAlreadyExists(),
    /// Something is wrong with the worker of the named stream.
    ThreadError(String),
    /// The server's process is needed but has ended.
    ServerProcessExited(),
    /// The server has not finished loading.
    ServerStillStarting(),
}

/// An error as contracts speak of it: the texts it carries are sequences of
/// characters.
pub ghost enum ErrorView {
    IoError(Seq<char>),
    ServerOffline,
    ServerAlreadyOnline,
    ServerFilesMissing,
    ServerAlreadyExists,
    ThreadError(Seq<char>),
    ServerProcessExited,
    ServerStillStarting,
}

impl View for Error {
    type V = ErrorView;

    open spec fn view(&self) -> ErrorView {
        match *self {
            Error::IoError(a) => ErrorView::IoError(a@),
            Error::ServerOffline() => ErrorView::ServerOffline,
            Error::ServerAlreadyOnline() => ErrorView::ServerAlreadyOnline,
            Error::ServerFilesMissing() => ErrorView::ServerFilesMissing,
            Error::ServerAlreadyExists() => ErrorView::ServerAlreadyExists,
            Error::ThreadError(a) => ErrorView::ThreadError(a@),
            Error::ServerProcessExited() => ErrorView::ServerProcessExited,
            Error::ServerStillStarting() => ErrorView::ServerStillStarting,
        }
    }
}

/// A result as contracts speak of it: its error is taken by its view.
pub open spec fn outcome<T>(r: Result<T, Error>) -> Result<T, ErrorView> {
    match r {
        Ok(v) => Ok(v),
        Err(e) => Err(e@),
    }
}

/// The short name of each kind of error.
pub open spec fn description_of(e: ErrorView) -> Seq<char> {
    match e {
        ErrorView::IoError(_) => "IOError"@,
        ErrorView::ServerFilesMissing => "MissingServer"@,
        ErrorView::ServerOffline => "ServerOffline"@,
        ErrorView::ServerAlreadyExists => "ServerAlreadyExists"@,
        ErrorView::ThreadError(_) => "ThreadError"@,
        ErrorView::ServerProcessExited => "ServerProcessExited"@,
        ErrorView::ServerAlreadyOnline => "ServerAlreadyOnline"@,
        ErrorView::ServerStillStarting => "ServerStillStarting"@,
    }
}

/// The sentence that tells a user what went wrong.
pub open spec fn message_of(e: ErrorView) -> Seq<char> {
    match e {
        ErrorView::IoError(a) => "Io error: "@ + a,
        ErrorView::ServerFilesMissing => "Server files not found"@,
        ErrorView::ServerOffline => "Server offline while called."@,
        ErrorView::ServerAlreadyExists => "Server files already exists"@,
        ErrorView::ThreadError(a) => "Error while creating "@ + a + " thread for server"@,
        ErrorView::ServerProcessExited => "Server processes needed, but has unexpectedly exited."@,
        ErrorView::ServerAlreadyOnline => "Attempted to start already online server"@,
        ErrorView::ServerStillStarting => "Attempted to stop a server that's mid-loading"@,
    }
}

/// The error says no more than that the server was not running in a state
/// from which it could be stopped.
pub open spec fn is_not_running(e: ErrorView) -> bool {
    e is ServerOffline || e is ServerStillStarting
}

impl Error {
    /// The short name of this kind of error.
    pub fn description(&self) -> (r: &'static str)
        ensures
            r@ == description_of(self@),
    {
        match self {
            Error::IoError(_) => "IOError",
            Error::ServerFilesMissing() => "MissingServer",
            Error::ServerOffline() => "ServerOffline",
            Error::ServerAlreadyExists() => "ServerAlreadyExists",
            Error::ThreadError(_) => "ThreadError",
            Error::ServerProcessExited() => "ServerProcessExited",
            Error::ServerAlreadyOnline() => "ServerAlreadyOnline",
            Error::ServerStillStarting() => "ServerStillStarting",
        }
    }

    /// The sentence that tells a user what went wrong.
    pub fn message(&self) -> (r: String)
        ensures
            r@ == message_of(self@),
    {
        match self {
            Error::IoError(a) => {
                let mut r = String::from_str("Io error: ");
                r.append(a.as_str());
                r
            },
            Error::ServerFilesMissing() => String::from_str("Server files not found"),
            Error::ServerOffline() => String::from_str("Server offline while called."),
            Error::ServerAlreadyExists() => String::from_str("Server files already exists"),
            Error::ThreadError(a) => {
                let mut r = String::from_str("Error while creating ");
                r.append(a.as_str());
                r.append(" thread for server");
                r
            },
            Error::ServerProcessExited() => String::from_str(
                "Server processes needed, but has unexpectedly exited.",
            ),
            Error::ServerAlreadyOnline() => String::from_str(
                "Attempted to start already online server",
            ),
            Error::ServerStillStarting() => String::from_str(
                "Attempted to stop a server that's mid-loading",
            ),
        }
    }

    /// Tells whether the error says no more than that the server was not
    /// running in a state from which it could be stopped.
    pub fn not_running(&self) -> (r: bool)
        ensures
            r == is_not_running(self@),
    {
        match self {
            Error::ServerOffline() => true,
            Error::ServerStillStarting() => true,
            _ => false,
        }
    }
}

} // verus!
