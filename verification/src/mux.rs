//! The multiplexer: the loops of the bridge side by side, and the rule that
//! the first of them to finish ends the run.

use crate::config::RunConfig;
use crate::datagram::{DatagramEvent, DatagramLoop};
use crate::input::{InputEvent, InputLoop};
use crate::outcome::{LoopKind, LoopOutcome};
use crate::step::{Step, StepView};
use crate::stream::{StreamEvent, StreamLoop};
use vstd::prelude::*;

verus! {

/// Something that happened on one of the three channels.
#[derive(Debug)]
pub enum Event {
    Datagram(DatagramEvent),
    Stream(StreamEvent),
    Input(InputEvent),
}

impl Event {
    /// The loop that the event is for.
    pub open spec fn kind(self) -> LoopKind {
        match self {
            Event::Datagram(_) => LoopKind::Datagram,
            Event::Stream(_) => LoopKind::Stream,
            Event::Input(_) => LoopKind::Input,
        }
    }
}

/// How the run ended: which loop finished first, and how.
#[derive(Clone, Copy, Debug, PartialEq, Eq, Structural)]
pub struct Verdict {
    pub by: LoopKind,
    pub outcome: LoopOutcome,
}

/// The verdict that follows from the state of loop `by` after a step.
pub open spec fn verdict_of(by: LoopKind, finished: Option<LoopOutcome>) -> Option<Verdict> {
    match finished {
        Some(outcome) => Some(Verdict { by, outcome }),
        None => None,
    }
}

/// The multiplexer as a value: its loops, and the verdict once there is one.
pub struct MuxState {
    pub datagrams: DatagramLoop,
    pub streams: StreamLoop,
    /// The input forward loop. There is none in a receive-only run.
    pub input: Option<InputLoop>,
    pub settled: Option<Verdict>,
}

impl MuxState {
    /// The multiplexer as it starts under `config`: the two receive loops,
    /// and the input forward loop unless the run is receive-only.
    pub open spec fn start(config: RunConfig) -> MuxState {
        MuxState {
            datagrams: DatagramLoop::spec_new(config),
            streams: StreamLoop::spec_new(config),
            input: if config.unidirectional {
                None
            } else {
                Some(InputLoop::spec_new(config))
            },
            settled: None,
        }
    }

    /// Whether the loop `kind` is part of this run.
    pub open spec fn runs(self, kind: LoopKind) -> bool {
        kind == LoopKind::Input ==> self.input is Some
    }

    /// The multiplexer after `event`.
    ///
    /// The event goes to its loop. If that loop finishes on it, the run is
    /// settled with the loop's outcome. Once settled, and for a loop that is
    /// no part of the run, nothing changes.
    pub open spec fn step(self, event: Event) -> MuxState {
        if self.settled is Some {
            self
        } else {
            match event {
                Event::Datagram(e) => {
                    let lp = self.datagrams.next(e);
                    MuxState {
                        datagrams: lp,
                        settled: verdict_of(LoopKind::Datagram, lp.finished),
                        ..self
                    }
                },
                Event::Stream(e) => {
                    let lp = self.streams.next(e);
                    MuxState {
                        streams: lp,
                        settled: verdict_of(LoopKind::Stream, lp.finished),
                        ..self
                    }
                },
                Event::Input(e) => match self.input {
                    Some(input) => {
                        let lp = input.next(e);
                        MuxState {
                            input: Some(lp),
                            settled: verdict_of(LoopKind::Input, lp.finished),
                            ..self
                        }
                    },
                    None => self,
                },
            }
        }
    }

    /// The multiplexer's answer to `event`: that of the event's loop, and
    /// nothing once the run is settled or for a loop that is no part of it.
    pub open spec fn react(self, event: Event) -> StepView {
        if self.settled is Some {
            StepView::idle()
        } else {
            match event {
                Event::Datagram(e) => self.datagrams.reaction(e),
                Event::Stream(e) => self.streams.reaction(e),
                Event::Input(e) => match self.input {
                    Some(input) => input.reaction(e),
                    None => StepView::idle(),
                },
            }
        }
    }

    /// How the loop `kind` must have ended for the verdict to be what it is:
    /// with the verdict's outcome if the verdict names it, not at all
    /// otherwise.
    pub open spec fn ended(self, kind: LoopKind) -> Option<LoopOutcome> {
        match self.settled {
            Some(v) => if v.by == kind {
                Some(v.outcome)
            } else {
                None
            },
            None => None,
        }
    }

    /// What holds of the multiplexer at every moment of a run: while the run
    /// is open no loop has finished, and once it is settled exactly the loop
    /// named in the verdict has finished, with the outcome named there.
    pub open spec fn wf(self) -> bool {
        &&& self.datagrams.finished == self.ended(LoopKind::Datagram)
        &&& self.streams.finished == self.ended(LoopKind::Stream)
        &&& match self.input {
            Some(input) => input.finished == self.ended(LoopKind::Input),
            None => self.ended(LoopKind::Input) is None,
        }
    }
}

/// The multiplexer and termination controller of the bridge.
///
/// The driver feeds it every event in the order of arrival and carries out
/// each step before it feeds the next. The first loop to finish settles the
/// run; from then on the multiplexer asks for nothing more.
#[derive(Debug)]
pub struct Multiplexer {
    datagrams: DatagramLoop,
    streams: StreamLoop,
    input: Option<InputLoop>,
    settled: Option<Verdict>,
}

impl View for Multiplexer {
    type V = MuxState;

    closed spec fn view(&self) -> MuxState {
        MuxState {
            datagrams: self.datagrams,
            streams: self.streams,
            input: self.input,
            settled: self.settled,
        }
    }
}

impl Multiplexer {
    /// The multiplexer as it starts under `config`.
    pub fn new(config: &RunConfig) -> (mux: Multiplexer)
        ensures
            mux@ == MuxState::start(*config),
            mux@.wf(),
    {
        Multiplexer {
            datagrams: DatagramLoop::new(config),
            streams: StreamLoop::new(config),
            input: if config.unidirectional {
                None
            } else {
                Some(InputLoop::new(config))
            },
            settled: None,
        }
    }

    /// Whether the loop `kind` is part of this run. The two receive loops
    /// always are; the input forward loop is unless the run is receive-only.
    pub fn runs(&self, kind: LoopKind) -> (yes: bool)
        ensures
            yes == self@.runs(kind),
    {
        match kind {
            LoopKind::Input => self.input.is_some(),
            _ => true,
        }
    }

    /// Takes one event and says what to do about it.
    pub fn on_event(&mut self, event: Event) -> (step: Step)
        ensures
            final(self)@ == old(self)@.step(event),
            step@ == old(self)@.react(event),
            old(self)@.wf() ==> final(self)@.wf(),
    {
        if self.settled.is_some() {
            return Step::idle();
        }
        match event {
            Event::Datagram(e) => {
                let step = self.datagrams.on_event(e);
                if let Some(outcome) = self.datagrams.finished {
                    self.settled = Some(Verdict { by: LoopKind::Datagram, outcome });
                }
                step
            },
            Event::Stream(e) => {
                let step = self.streams.on_event(e);
                if let Some(outcome) = self.streams.finished {
                    self.settled = Some(Verdict { by: LoopKind::Stream, outcome });
                }
                step
            },
            Event::Input(e) => {
                match self.input {
                    Some(mut input) => {
                        let step = input.on_event(e);
                        self.input = Some(input);
                        if let Some(outcome) = input.finished {
                            self.settled = Some(Verdict { by: LoopKind::Input, outcome });
                        }
                        step
                    },
                    None => Step::idle(),
                }
            },
        }
    }

    /// How the run ended, once it has.
    pub fn verdict(&self) -> (verdict: Option<Verdict>)
        ensures
            verdict == self@.settled,
    {
        self.settled
    }

    /// The exit code of the process, once the run has ended: zero unless the
    /// first loop to finish ended in error.
    pub fn exit_code(&self) -> (code: Option<i32>)
        ensures
            code == match self@.settled {
                Some(v) => Some(v.outcome.exit_code()),
                None => None,
            },
    {
        match self.settled {
            Some(v) => Some(v.outcome.exit_code()),
            None => None,
        }
    }
}

} // verus!
