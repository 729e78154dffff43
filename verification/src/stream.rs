//! The stream receive loop: every incoming stream is read to its end, then
//! goes to local output as one line.

use crate::config::RunConfig;
use crate::notice::Notice;
use crate::outcome::{Failure, LoopOutcome};
use crate::step::{frame, frame_message, Effect, EffectView, Step, StepView};
use vstd::prelude::*;

verus! {

/// What came back from waiting for the next stream, or from reading one.
#[derive(Debug)]
pub enum StreamEvent {
    /// The peer opened a stream. Nothing of it has been read yet.
    Accepted,
    /// The session is closed or broken: no stream can be accepted.
    AcceptFailed,
    /// The accepted stream was read to its end, and this is all of it.
    Drained(Vec<u8>),
    /// The accepted stream broke off before its end.
    ReadFailed,
}

/// The state of the stream receive loop.
#[derive(Clone, Copy, Debug)]
pub struct StreamLoop {
    /// Whether the loop ends with the first stream written.
    pub one_message: bool,
    /// Whether arrivals are reported.
    pub verbose: bool,
    /// How the loop ended, once it has.
    pub finished: Option<LoopOutcome>,
}

impl StreamLoop {
    /// The loop as it starts under `config`.
    pub open spec fn spec_new(config: RunConfig) -> StreamLoop {
        StreamLoop { one_message: config.one_message, verbose: config.verbose(), finished: None }
    }

    /// The loop after `event`.
    ///
    /// A stream read to its end ends the loop only where one message is all
    /// that is asked for. A stream that breaks off costs that stream and
    /// nothing else: the loop goes on to the next. A failed accept ends the
    /// loop in error. A loop that has ended stays as it is.
    pub open spec fn next(self, event: StreamEvent) -> StreamLoop {
        if self.finished is Some {
            self
        } else {
            match event {
                StreamEvent::Accepted => self,
                StreamEvent::AcceptFailed => StreamLoop {
                    finished: Some(LoopOutcome::Errored(Failure::StreamAccept)),
                    ..self
                },
                StreamEvent::Drained(_) => if self.one_message {
                    StreamLoop { finished: Some(LoopOutcome::Completed), ..self }
                } else {
                    self
                },
                StreamEvent::ReadFailed => self,
            }
        }
    }

    /// The loop's answer to `event`.
    ///
    /// Only a stream read to its end is written out: whole, followed by one
    /// newline. Failures are logged. A loop that has ended answers nothing.
    pub open spec fn reaction(self, event: StreamEvent) -> StepView {
        if self.finished is Some {
            StepView::idle()
        } else {
            match event {
                StreamEvent::Accepted => if self.verbose {
                    StepView::log(Notice::StreamAccepted)
                } else {
                    StepView::idle()
                },
                StreamEvent::AcceptFailed => StepView::log(Notice::StreamAcceptFailed),
                StreamEvent::Drained(data) => StepView {
                    notice: if self.verbose {
                        Some(Notice::StreamRead { len: data@.len() as usize })
                    } else {
                        None
                    },
                    effect: EffectView::Emit(frame(data@)),
                },
                StreamEvent::ReadFailed => StepView::log(Notice::StreamReadFailed),
            }
        }
    }

    /// The loop as it starts under `config`.
    pub fn new(config: &RunConfig) -> (lp: StreamLoop)
        ensures
            lp == StreamLoop::spec_new(*config),
    {
        StreamLoop { one_message: config.one_message, verbose: config.verbose(), finished: None }
    }

    /// Takes the result of one accept or of one read and says what to do
    /// about it.
    pub fn on_event(&mut self, event: StreamEvent) -> (step: Step)
        ensures
            *final(self) == old(self).next(event),
            step@ == old(self).reaction(event),
    {
        if self.finished.is_some() {
            return Step::idle();
        }
        match event {
            StreamEvent::Accepted => {
                if self.verbose {
                    Step::log(Notice::StreamAccepted)
                } else {
                    Step::idle()
                }
            },
            StreamEvent::AcceptFailed => {
                self.finished = Some(LoopOutcome::Errored(Failure::StreamAccept));
                Step::log(Notice::StreamAcceptFailed)
            },
            StreamEvent::Drained(data) => {
                let notice = if self.verbose {
                    Some(Notice::StreamRead { len: data.len() })
                } else {
                    None
                };
                let framed = frame_message(data.as_slice());
                if self.one_message {
                    self.finished = Some(LoopOutcome::Completed);
                }
                Step { notice, effect: Effect::Emit(framed) }
            },
            StreamEvent::ReadFailed => Step::log(Notice::StreamReadFailed),
        }
    }
}

} // verus!
