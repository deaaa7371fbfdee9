use vstd::prelude::*;

verus! {

#[verifier::external_type_specification]
#[verifier::external_body]
pub struct ExBincodeErrorKind(bincode::ErrorKind);

/// The distinction among stream failures that the protocol cares about: the
/// peer going away is an ordinary way for a connection to end.
#[derive(Clone, Copy, Debug, PartialEq, Eq, Structural)]
pub enum IoErrorKind {
    UnexpectedEof,
    Other,
}

/// A failed read or write, as reported by whoever drives the stream.
#[derive(Debug)]
pub struct IoError {
    pub kind: IoErrorKind,
    pub message: String,
}

/// The base directory was not a prefix of the path.
#[derive(Clone, Copy, Debug, PartialEq, Eq, Structural)]
pub struct StripPrefixError;

#[derive(Debug)]
pub enum Error {
    IOError(IoError),
    BincodeError(bincode::Error),
    StripPrefixError(StripPrefixError),
}

impl IoError {
    pub fn new(kind: IoErrorKind, message: String) -> (e: Self)
        ensures
            e.kind == kind,
            e.message == message,
    {
        IoError { kind, message }
    }

    /// Whether the stream ended before the bytes asked for had arrived.
    pub fn is_eof(&self) -> (b: bool)
        ensures
            b == (self.kind == IoErrorKind::UnexpectedEof),
    {
        self.kind == IoErrorKind::UnexpectedEof
    }
}

impl Error {
    /// Whether this error only says that the peer closed the connection.
    pub open spec fn is_disconnect(self) -> bool {
        self matches Error::IOError(e) && e.kind == IoErrorKind::UnexpectedEof
    }

    pub fn disconnected(&self) -> (b: bool)
        ensures
            b == self.is_disconnect(),
    {
        match self {
            Error::IOError(e) => e.is_eof(),
            _ => false,
        }
    }
}

} // verus!
