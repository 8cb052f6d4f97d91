//! The failures that a client reports.
//!
//! Three kinds are kept apart. A `ServerError` says that the worker or the
//! channel to it can no longer be trusted. A load failure is the worker's own
//! verdict on a library, a plain text. A panic of a macro is data: the worker
//! is intact and the expansion is reported as having panicked.

use vstd::prelude::*;
use vstd::string::StringExecFns;

verus! {

/// The kinds of input and output failure that the client tells apart.
#[derive(Clone, Copy, Debug, PartialEq, Eq, Structural)]
pub enum IoErrorKind {
    NotFound,
    PermissionDenied,
    BrokenPipe,
    UnexpectedEof,
    InvalidData,
    Other,
}

/// A failure of input or output, as plain data.
#[derive(Debug, PartialEq, Eq)]
pub struct IoError {
    pub kind: IoErrorKind,
    pub message: String,
}

/// What a failure of input or output holds.
pub struct IoErrorView {
    pub kind: IoErrorKind,
    pub message: Seq<char>,
}

impl View for IoError {
    type V = IoErrorView;

    open spec fn view(&self) -> IoErrorView {
        IoErrorView { kind: self.kind, message: self.message@ }
    }
}

impl Clone for IoError {
    fn clone(&self) -> (copy: Self)
        ensures
            copy@ == self@,
    {
        IoError { kind: self.kind, message: self.message.clone() }
    }
}

/// A failure of the transport or of the protocol: the worker could not be
/// reached, the channel broke, or a reply did not fit its request.
#[derive(Debug, PartialEq, Eq)]
pub struct ServerError {
    pub message: String,
    pub io: Option<IoError>,
}

/// What a server error holds.
pub struct ServerErrorView {
    pub message: Seq<char>,
    pub io: Option<IoErrorView>,
}

/// The view of an optional input or output failure.
pub open spec fn io_view(io: Option<IoError>) -> Option<IoErrorView> {
    match io {
        Some(cause) => Some(cause@),
        None => None,
    }
}

impl View for ServerError {
    type V = ServerErrorView;

    open spec fn view(&self) -> ServerErrorView {
        ServerErrorView { message: self.message@, io: io_view(self.io) }
    }
}

impl Clone for ServerError {
    fn clone(&self) -> (copy: Self)
        ensures
            copy@ == self@,
    {
        let io: Option<IoError> = match &self.io {
            Some(cause) => Some(cause.clone()),
            None => None,
        };
        ServerError { message: self.message.clone(), io }
    }
}

/// The text of a server error: its message, then a colon and the cause where
/// there is one.
pub open spec fn error_text(error: ServerErrorView) -> Seq<char> {
    match error.io {
        Some(cause) => error.message + ": "@ + cause.message,
        None => error.message,
    }
}

impl ServerError {
    /// A protocol failure, which has no input or output failure behind it.
    pub fn protocol(message: &str) -> (error: ServerError)
        ensures
            error@ == (ServerErrorView { message: message@, io: None }),
    {
        ServerError { message: String::from_str(message), io: None }
    }

    /// The error as a line of text.
    pub fn to_string(&self) -> (text: String)
        ensures
            text@ == error_text(self@),
    {
        let mut text: String = self.message.clone();
        match &self.io {
            Some(cause) => {
                text.append(": ");
                text.append(cause.message.as_str());
                assert(text@ =~= error_text(self@));
            },
            None => {},
        }
        text
    }
}

/// What a macro said when it panicked.
#[derive(Debug, PartialEq, Eq)]
pub struct MacroPanic {
    pub message: String,
}

impl View for MacroPanic {
    type V = Seq<char>;

    open spec fn view(&self) -> Seq<char> {
        self.message@
    }
}

} // verus!
