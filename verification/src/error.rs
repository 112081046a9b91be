//! The ways in which handling a frame can fail.

use vstd::prelude::*;

verus! {

/// Why a frame could not be decoded, built or read.
#[derive(Clone, Copy, Debug, PartialEq, Eq, Structural)]
pub enum FrameError {
    /// The type byte of a frame header is none of the ten known codes.
    InvalidFrameType,
    /// Fewer than nine bytes were given, so there is no complete header.
    BufferTooSmall,
    /// The header declares more payload bytes than the buffer holds.
    TruncatedFrame,
    /// The transport delivered a zero-length read: the peer has closed it.
    ConnectionClosed,
    /// The header compression engine rejected its input. The encoder in use
    /// accepts every header list, so building a HEADERS frame never gives it.
    HeaderEncodingFailure,
}

impl FrameError {
    /// The text of each error.
    pub open spec fn message_spec(self) -> Seq<char> {
        match self {
            FrameError::InvalidFrameType => "Invalid frame type"@,
            FrameError::BufferTooSmall => "Buffer too small"@,
            FrameError::TruncatedFrame => "Truncated frame"@,
            FrameError::ConnectionClosed => "Connection closed"@,
            FrameError::HeaderEncodingFailure => "Header encoding failed"@,
        }
    }

    /// A short human-readable description of the error.
    pub fn message(&self) -> (text: &'static str)
        ensures
            text@ == self.message_spec(),
    {
        match self {
            FrameError::InvalidFrameType => "Invalid frame type",
            FrameError::BufferTooSmall => "Buffer too small",
            FrameError::TruncatedFrame => "Truncated frame",
            FrameError::ConnectionClosed => "Connection closed",
            FrameError::HeaderEncodingFailure => "Header encoding failed",
        }
    }
}

} // verus!
