//! What the platform reports when a connection or a transmission fails.

use vstd::prelude::*;

verus! {

/// Why a connection attempt failed.
#[derive(Clone, Copy, Debug, PartialEq, Eq)]
pub enum ConnectErrorKind {
    /// The port handle no longer names a port.
    InvalidPort,
    /// Any other reason, in the platform's words.
    Other(&'static str),
}

impl ConnectErrorKind {
    /// The reason in words.
    pub open spec fn reason_text(&self) -> Seq<char> {
        match *self {
            ConnectErrorKind::InvalidPort => "invalid port"@,
            ConnectErrorKind::Other(text) => text@,
        }
    }

    pub fn reason(&self) -> (text: &'static str)
        ensures
            text@ == self.reason_text(),
    {
        match *self {
            ConnectErrorKind::InvalidPort => "invalid port",
            ConnectErrorKind::Other(text) => text,
        }
    }
}

/// Why a message could not be written to an open connection.
#[derive(Clone, Copy, Debug, PartialEq, Eq)]
pub enum SendError {
    /// The bytes are no valid MIDI message.
    InvalidData(&'static str),
    /// Any other reason, in the platform's words.
    Other(&'static str),
}

impl SendError {
    /// The reason in words.
    pub open spec fn reason_text(&self) -> Seq<char> {
        match *self {
            SendError::InvalidData(text) => text@,
            SendError::Other(text) => text@,
        }
    }

    pub fn reason(&self) -> (text: &'static str)
        ensures
            text@ == self.reason_text(),
    {
        match *self {
            SendError::InvalidData(text) => text,
            SendError::Other(text) => text,
        }
    }
}

} // verus!
