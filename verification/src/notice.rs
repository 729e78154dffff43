//! The diagnostics that the bridge asks its driver to log.

use crate::logging::LogLevel;
use vstd::prelude::*;

verus! {

/// One diagnostic. The driver words it and, for a failure, adds the cause it
/// got from the transport or from local input.
#[derive(Clone, Copy, Debug, PartialEq, Eq, Structural)]
pub enum Notice {
    /// Certificate verification is switched off.
    InsecureTrust,
    /// A datagram of `len` bytes arrived.
    DatagramReceived { len: usize },
    /// The session failed to deliver a datagram.
    DatagramFailed,
    /// An incoming stream was accepted.
    StreamAccepted,
    /// A stream of `len` bytes was read to its end.
    StreamRead { len: usize },
    /// A stream broke off before its end.
    StreamReadFailed,
    /// The session failed to hand over an incoming stream.
    StreamAcceptFailed,
    /// Local input is at its end.
    InputEnded,
    /// Local input could not be read.
    InputFailed,
    /// A datagram of `len` bytes is about to be sent.
    Sending { len: usize },
    /// The datagram was handed to the session.
    Sent,
    /// The session refused the datagram.
    SendFailed,
}

impl Notice {
    /// The severity of the diagnostic: failures are errors, the warning about
    /// trust is a warning, the confirmation of a send is for debugging, and
    /// the rest is information.
    pub open spec fn spec_level(self) -> LogLevel {
        match self {
            Notice::DatagramFailed
            | Notice::StreamReadFailed
            | Notice::StreamAcceptFailed
            | Notice::InputFailed
            | Notice::SendFailed => LogLevel::Error,
            Notice::InsecureTrust => LogLevel::Warn,
            Notice::Sent => LogLevel::Debug,
            _ => LogLevel::Info,
        }
    }

    /// The severity of the diagnostic.
    #[verifier::when_used_as_spec(spec_level)]
    pub fn level(self) -> (level: LogLevel)
        ensures
            level == self.spec_level(),
    {
        match self {
            Notice::DatagramFailed
            | Notice::StreamReadFailed
            | Notice::StreamAcceptFailed
            | Notice::InputFailed
            | Notice::SendFailed => LogLevel::Error,
            Notice::InsecureTrust => LogLevel::Warn,
            Notice::Sent => LogLevel::Debug,
            _ => LogLevel::Info,
        }
    }
}

} // verus!
