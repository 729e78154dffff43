//! The datagram receive loop: every datagram that arrives goes to local
//! output, one line each.

use crate::buffer::{bytes_len, bytes_seq};
use crate::config::RunConfig;
use crate::notice::Notice;
use crate::outcome::{Failure, LoopOutcome};
use crate::step::{frame, frame_datagram, Effect, EffectView, Step, StepView};
use bytes::Bytes;
use vstd::prelude::*;

verus! {

/// What came back from waiting for the next datagram.
#[derive(Debug)]
pub enum DatagramEvent {
    /// A datagram arrived, with this payload.
    Received(Bytes),
    /// The session is closed or broken.
    Failed,
}

/// The state of the datagram receive loop.
#[derive(Clone, Copy, Debug)]
pub struct DatagramLoop {
    /// Whether the loop ends with the first datagram written.
    pub one_message: bool,
    /// Whether arrivals are reported.
    pub verbose: bool,
    /// How the loop ended, once it has.
    pub finished: Option<LoopOutcome>,
}

impl DatagramLoop {
    /// The loop as it starts under `config`.
    pub open spec fn spec_new(config: RunConfig) -> DatagramLoop {
        DatagramLoop {
            one_message: config.one_message,
            verbose: config.verbose(),
            finished: None,
        }
    }

    /// The loop after `event`.
    ///
    /// A datagram ends the loop only where one message is all that is asked
    /// for. A failed receive ends it in error: the loop does not try again.
    /// A loop that has ended stays as it is.
    pub open spec fn next(self, event: DatagramEvent) -> DatagramLoop {
        if self.finished is Some {
            self
        } else {
            match event {
                DatagramEvent::Received(_) => if self.one_message {
                    DatagramLoop { finished: Some(LoopOutcome::Completed), ..self }
                } else {
                    self
                },
                DatagramEvent::Failed => DatagramLoop {
                    finished: Some(LoopOutcome::Errored(Failure::DatagramReceive)),
                    ..self
                },
            }
        }
    }

    /// The loop's answer to `event`.
    ///
    /// A datagram is written out whole, followed by one newline. A failed
    /// receive is logged. A loop that has ended answers nothing.
    pub open spec fn reaction(self, event: DatagramEvent) -> StepView {
        if self.finished is Some {
            StepView::idle()
        } else {
            match event {
                DatagramEvent::Received(payload) => StepView {
                    notice: if self.verbose {
                        Some(Notice::DatagramReceived { len: bytes_seq(payload).len() as usize })
                    } else {
                        None
                    },
                    effect: EffectView::Emit(frame(bytes_seq(payload))),
                },
                DatagramEvent::Failed => StepView::log(Notice::DatagramFailed),
            }
        }
    }

    /// The loop as it starts under `config`.
    pub fn new(config: &RunConfig) -> (lp: DatagramLoop)
        ensures
            lp == DatagramLoop::spec_new(*config),
    {
        DatagramLoop { one_message: config.one_message, verbose: config.verbose(), finished: None }
    }

    /// Takes the result of one receive and says what to do about it.
    pub fn on_event(&mut self, event: DatagramEvent) -> (step: Step)
        ensures
            *final(self) == old(self).next(event),
            step@ == old(self).reaction(event),
    {
        if self.finished.is_some() {
            return Step::idle();
        }
        match event {
            DatagramEvent::Received(payload) => {
                let notice = if self.verbose {
                    Some(Notice::DatagramReceived { len: bytes_len(&payload) })
                } else {
                    None
                };
                let framed = frame_datagram(&payload);
                if self.one_message {
                    self.finished = Some(LoopOutcome::Completed);
                }
                Step { notice, effect: Effect::Emit(framed) }
            },
            DatagramEvent::Failed => {
                self.finished = Some(LoopOutcome::Errored(Failure::DatagramReceive));
                Step::log(Notice::DatagramFailed)
            },
        }
    }
}

} // verus!
