use vstd::prelude::*;

verus! {

/// Status code reported when an engine call completes fully.
pub const ARCHIVE_OK: i32 = 0;
/// Status code reported when the end of the archive is reached.
pub const ARCHIVE_EOF: i32 = 1;
/// Status code reported when an operation should be retried.
pub const ARCHIVE_RETRY: i32 = -10;
/// Status code reported when an operation succeeded with a non-fatal warning.
pub const ARCHIVE_WARN: i32 = -20;
/// Status code reported when an operation failed but the handle stays usable.
pub const ARCHIVE_FAILED: i32 = -25;
/// Status code reported when the handle is no longer usable.
pub const ARCHIVE_FATAL: i32 = -30;

/// Error number a session reports for a request that no part of its
/// configuration could serve, such as an option nothing consumes or a call
/// made out of order.
pub const ERRNO_MISC: i32 = -1;

/// A status counts as success at this layer when it is either full success or
/// success with a warning; a warning is forwarded-compatible and is not
/// surfaced as an error.
pub open spec fn is_success(status: i32) -> bool {
    status == ARCHIVE_OK || status == ARCHIVE_WARN
}

/// The engine's answer to one fallible call: the status the call returned,
/// and the error number and optional message on the handle's error-reporting
/// state at that moment.
#[derive(Debug)]
pub struct CallReport {
    /// Status the call returned.
    pub status: i32,
    /// Error number on the handle after the call.
    pub errno: i32,
    /// Message on the handle after the call, when one was present.
    pub message: Option<String>,
}

/// A status code together with the optional human-readable message that the
/// reporting handle carried at the moment a fallible operation did not
/// complete successfully.
#[derive(Debug)]
pub struct Error {
    errno: i32,
    msg: Option<String>,
}

impl Error {
    /// The error number captured when the error was built.
    pub closed spec fn code_spec(&self) -> i32 {
        self.errno
    }

    /// The captured message, if the handle carried one.
    pub closed spec fn message_spec(&self) -> Option<Seq<char>> {
        self.msg.deep_view()
    }

    /// Builds an error from the error number and optional message read off a
    /// handle's error-reporting state. A handle that carries no message yields
    /// an error whose message field is unset.
    pub fn new(errno: i32, msg: Option<String>) -> (e: Error)
        ensures
            e.code_spec() == errno,
            e.message_spec() == msg.deep_view(),
    {
        Error { errno, msg }
    }

    /// Decides the outcome of a fallible engine call: any status that is
    /// neither full success nor success-with-warning becomes a structured
    /// error built from the handle's error number and message.
    pub fn from_code(status: i32, errno: i32, msg: Option<String>) -> (r: Result<(), Error>)
        ensures
            r is Ok <==> is_success(status),
            !is_success(status) ==> (r matches Err(e) && e.code_spec() == errno
                && e.message_spec() == msg.deep_view()),
    {
        if status != ARCHIVE_OK && status != ARCHIVE_WARN {
            Err(Error { errno, msg })
        } else {
            Ok(())
        }
    }

    /// Returns the status code that was captured for this error.
    pub fn code(&self) -> (c: i32)
        ensures
            c == self.code_spec(),
    {
        self.errno
    }

    /// Returns the message of this error, when one was captured.
    pub fn message(&self) -> (m: Option<&str>)
        ensures
            m is Some <==> self.message_spec() is Some,
            m matches Some(s) ==> self.message_spec() == Some(s@),
    {
        match &self.msg {
            Some(s) => Some(s.as_str()),
            None => None,
        }
    }
}

/// A failure of the data-source I/O layer, such as a file that could not be
/// read, kept distinct from errors the engine itself reports.
#[derive(Debug)]
pub struct IoError {
    msg: String,
}

impl IoError {
    /// The text describing the failed access.
    pub closed spec fn message_spec(&self) -> Seq<char> {
        self.msg@
    }

    /// Wraps the description of a failed data-source access.
    pub fn new(msg: String) -> (e: IoError)
        ensures
            e.message_spec() == msg@,
    {
        IoError { msg }
    }

    /// Returns the text describing the failed access.
    pub fn message(&self) -> (m: &str)
        ensures
            m@ == self.message_spec(),
    {
        self.msg.as_str()
    }
}

/// Either an engine-reported error or an I/O failure, for operations that
/// touch both the filesystem and the engine and must report either failure
/// class uniformly.
#[derive(Debug)]
pub enum ErrorOrIo {
    /// The engine reported an error status.
    Archive(Error),
    /// The surrounding data-source I/O layer failed.
    Io(IoError),
}

} // verus!
