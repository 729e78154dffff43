//! How a loop ends, and what that means for the process.

use vstd::prelude::*;

verus! {

/// The three loops of the bridge.
#[derive(Clone, Copy, Debug, PartialEq, Eq, Structural)]
pub enum LoopKind {
    /// Receives datagrams and writes them to local output.
    Datagram,
    /// Accepts incoming streams, drains each and writes it to local output.
    Stream,
    /// Reads lines from local input and sends each as a datagram.
    Input,
}

/// What went wrong when a loop ends in error.
#[derive(Clone, Copy, Debug, PartialEq, Eq, Structural)]
pub enum Failure {
    /// The session failed to deliver the next datagram.
    DatagramReceive,
    /// The session failed to hand over the next incoming stream.
    StreamAccept,
    /// Local input could not be read.
    InputRead,
}

/// The terminal state of a loop.
#[derive(Clone, Copy, Debug, PartialEq, Eq, Structural)]
pub enum LoopOutcome {
    /// The loop did what it was there for and stopped.
    Completed,
    /// The loop met a failure it does not recover from.
    Errored(Failure),
    /// The loop was asked to stop from outside. No loop ends this way by
    /// itself.
    RequestedStop,
}

impl LoopOutcome {
    /// The exit code of a process whose first loop to finish ended like this:
    /// zero unless the loop ended in error.
    pub open spec fn spec_exit_code(self) -> i32 {
        match self {
            LoopOutcome::Errored(_) => 1i32,
            _ => 0i32,
        }
    }

    /// The exit code of a process whose first loop to finish ended like this.
    #[verifier::when_used_as_spec(spec_exit_code)]
    pub fn exit_code(self) -> (code: i32)
        ensures
            code == self.spec_exit_code(),
            code == 0 <==> !(self is Errored),
    {
        match self {
            LoopOutcome::Errored(_) => 1,
            _ => 0,
        }
    }
}

} // verus!
