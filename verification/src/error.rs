//! The ways in which handling a request can fail.

use vstd::prelude::*;

verus! {

/// A request whose shape breaks the protocol.
///
/// Every variant is found while the request is decoded, before any command
/// runs.
#[derive(Clone, Copy, Debug, PartialEq, Eq, Structural)]
pub enum ProtocolError {
    /// The frame that was to hold a request is not an array.
    NotAnArray,
    /// A field was asked for after the last one had been read.
    EndOfStream,
    /// The field holds a frame that cannot be read as the value asked for.
    InvalidFrameType,
    /// The field holds a decimal number outside the signed 64-bit range.
    Overflow,
    /// Fields were left over after the last one the command accepts.
    TrailingElements,
}

impl ProtocolError {
    /// The text that describes the error to a client.
    pub open spec fn spec_message(self) -> Seq<char> {
        match self {
            ProtocolError::NotAnArray => "protocol error; expected array"@,
            ProtocolError::EndOfStream => "protocol error; unexpected end of stream"@,
            ProtocolError::InvalidFrameType => "protocol error; unexpected frame type"@,
            ProtocolError::Overflow => "protocol error; number out of range"@,
            ProtocolError::TrailingElements =>
                "protocol error; expected end of frame, but there was more"@,
        }
    }

    /// The text that describes the error to a client.
    pub fn message(&self) -> (text: &'static str)
        ensures
            text@ == self.spec_message(),
    {
        match self {
            ProtocolError::NotAnArray => "protocol error; expected array",
            ProtocolError::EndOfStream => "protocol error; unexpected end of stream",
            ProtocolError::InvalidFrameType => "protocol error; unexpected frame type",
            ProtocolError::Overflow => "protocol error; number out of range",
            ProtocolError::TrailingElements =>
                "protocol error; expected end of frame, but there was more",
        }
    }
}

/// A well-formed command that could not be carried out.
#[derive(Clone, Copy, Debug, PartialEq, Eq, Structural)]
pub enum ApplyError {
    /// The store failed while it was asked for a value.
    Store,
}

} // verus!
