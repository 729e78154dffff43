//! Whole runs of the bridge: what it writes and sends over a trace of events,
//! and what holds of every run.

use crate::buffer::bytes_seq;
use crate::config::RunConfig;
use crate::datagram::DatagramEvent;
use crate::input::{line_payload, InputEvent};
use crate::mux::{Event, MuxState, Verdict};
use crate::notice::Notice;
use crate::outcome::{LoopKind, LoopOutcome};
use crate::step::{frame, StepView};
use crate::stream::StreamEvent;
use vstd::prelude::*;

verus! {

/// What the driver did over a run, in the order in which it did it.
pub struct Transcript {
    /// The writes to local output, one entry for each.
    pub emitted: Seq<Seq<u8>>,
    /// The datagrams sent to the peer.
    pub sent: Seq<Seq<u8>>,
    /// The diagnostics logged.
    pub notices: Seq<Notice>,
}

impl Transcript {
    /// The transcript of a run in which nothing has happened yet.
    pub open spec fn empty() -> Transcript {
        Transcript { emitted: Seq::empty(), sent: Seq::empty(), notices: Seq::empty() }
    }

    /// The transcript with `step` carried out.
    pub open spec fn record(self, step: StepView) -> Transcript {
        Transcript {
            emitted: match step.emitted() {
                Some(bytes) => self.emitted.push(bytes),
                None => self.emitted,
            },
            sent: match step.sent() {
                Some(payload) => self.sent.push(payload),
                None => self.sent,
            },
            notices: match step.notice {
                Some(notice) => self.notices.push(notice),
                None => self.notices,
            },
        }
    }

    /// Everything written to local output, as one run of bytes.
    pub open spec fn output(self) -> Seq<u8> {
        self.emitted.flatten()
    }
}

/// A run so far: the multiplexer, and what the driver has done.
pub struct Run {
    pub state: MuxState,
    pub transcript: Transcript,
}

/// The run that starts at `start` and takes the events of `trace` in order.
pub open spec fn run(start: MuxState, trace: Seq<Event>) -> Run
    decreases trace.len(),
{
    if trace.len() == 0 {
        Run { state: start, transcript: Transcript::empty() }
    } else {
        let before = run(start, trace.drop_last());
        Run {
            state: before.state.step(trace.last()),
            transcript: before.transcript.record(before.state.react(trace.last())),
        }
    }
}

/// The message that `event` delivers, if it delivers one: the payload of a
/// datagram, or the whole of a stream.
pub open spec fn message_of(event: Event) -> Option<Seq<u8>> {
    match event {
        Event::Datagram(DatagramEvent::Received(payload)) => Some(bytes_seq(payload)),
        Event::Stream(StreamEvent::Drained(data)) => Some(data@),
        _ => None,
    }
}

/// The messages that `trace` delivers, framed for local output, in the order
/// of arrival.
pub open spec fn frames_of(trace: Seq<Event>) -> Seq<Seq<u8>>
    decreases trace.len(),
{
    if trace.len() == 0 {
        Seq::empty()
    } else {
        match message_of(trace.last()) {
            Some(message) => frames_of(trace.drop_last()).push(frame(message)),
            None => frames_of(trace.drop_last()),
        }
    }
}

/// The datagrams that stand for the lines that `trace` reads from local
/// input, in the order of reading.
pub open spec fn payloads_of(trace: Seq<Event>) -> Seq<Seq<u8>>
    decreases trace.len(),
{
    if trace.len() == 0 {
        Seq::empty()
    } else {
        match trace.last() {
            Event::Input(InputEvent::Line(line)) => payloads_of(trace.drop_last()).push(
                line_payload(line@),
            ),
            _ => payloads_of(trace.drop_last()),
        }
    }
}

/// Whether `state` still has the loops and the flags that `config` gave it.
pub open spec fn configured(state: MuxState, config: RunConfig) -> bool {
    &&& state.datagrams.one_message == config.one_message
    &&& state.datagrams.verbose == config.verbose()
    &&& state.streams.one_message == config.one_message
    &&& state.streams.verbose == config.verbose()
    &&& match state.input {
        Some(input) => !config.unidirectional && input.verbose == config.verbose(),
        None => config.unidirectional,
    }
}

/// A step keeps the multiplexer well-formed and leaves its configuration
/// alone.
pub proof fn lemma_step_keeps_shape(state: MuxState, config: RunConfig, event: Event)
    requires
        state.wf(),
        configured(state, config),
    ensures
        state.step(event).wf(),
        configured(state.step(event), config),
{
}

/// Every moment of a run that starts from a configuration is well-formed and
/// still has that configuration.
pub proof fn lemma_run_keeps_shape(config: RunConfig, trace: Seq<Event>)
    ensures
        run(MuxState::start(config), trace).state.wf(),
        configured(run(MuxState::start(config), trace).state, config),
    decreases trace.len(),
{
    if trace.len() > 0 {
        lemma_run_keeps_shape(config, trace.drop_last());
        lemma_step_keeps_shape(
            run(MuxState::start(config), trace.drop_last()).state,
            config,
            trace.last(),
        );
    }
}

/// First to finish wins: once a run is settled, no event changes the
/// multiplexer, and none is answered.
pub proof fn lemma_settled_run_is_over(start: MuxState, trace: Seq<Event>, more: Seq<Event>)
    requires
        run(start, trace).state.settled is Some,
    ensures
        run(start, trace + more) == run(start, trace),
    decreases more.len(),
{
    if more.len() == 0 {
        assert(trace + more =~= trace);
    } else {
        lemma_settled_run_is_over(start, trace, more.drop_last());
        assert((trace + more).drop_last() =~= trace + more.drop_last());
        assert((trace + more).last() == more.last());
        let before = run(start, trace);
        let after = run(start, trace + more);
        assert(after.transcript.emitted =~= before.transcript.emitted);
        assert(after.transcript.sent =~= before.transcript.sent);
        assert(after.transcript.notices =~= before.transcript.notices);
    }
}

/// Messages reach local output in the order of arrival, each as its frame:
/// the payload as it came, then one newline. While the run is open every
/// message that arrived has been written; what a settled run has written is
/// the beginning of that.
pub proof fn lemma_messages_in_arrival_order(config: RunConfig, trace: Seq<Event>)
    ensures
        run(MuxState::start(config), trace).transcript.emitted.is_prefix_of(frames_of(trace)),
        run(MuxState::start(config), trace).state.settled is None ==> run(
            MuxState::start(config),
            trace,
        ).transcript.emitted == frames_of(trace),
    decreases trace.len(),
{
    if trace.len() > 0 {
        let start = MuxState::start(config);
        let earlier = trace.drop_last();
        let before = run(start, earlier);
        lemma_messages_in_arrival_order(config, earlier);
        lemma_run_keeps_shape(config, earlier);
        if before.state.settled is Some {
            assert(before.state.step(trace.last()) == before.state);
            assert(run(start, trace).transcript.emitted =~= before.transcript.emitted);
        } else {
            assert(before.transcript.emitted == frames_of(earlier));
            assert(run(start, trace).transcript.emitted =~= frames_of(trace));
        }
    }
}

/// Lines reach the peer in the order of reading, each as the datagram that
/// stands for it. While the run is open every line read has been handed to
/// the session; what a settled run has handed over is the beginning of that.
pub proof fn lemma_lines_in_reading_order(config: RunConfig, trace: Seq<Event>)
    requires
        !config.unidirectional,
    ensures
        run(MuxState::start(config), trace).transcript.sent.is_prefix_of(payloads_of(trace)),
        run(MuxState::start(config), trace).state.settled is None ==> run(
            MuxState::start(config),
            trace,
        ).transcript.sent == payloads_of(trace),
    decreases trace.len(),
{
    if trace.len() > 0 {
        let start = MuxState::start(config);
        let earlier = trace.drop_last();
        let before = run(start, earlier);
        lemma_lines_in_reading_order(config, earlier);
        lemma_run_keeps_shape(config, earlier);
        if before.state.settled is Some {
            assert(before.state.step(trace.last()) == before.state);
            assert(run(start, trace).transcript.sent =~= before.transcript.sent);
        } else {
            assert(before.transcript.sent == payloads_of(earlier));
            assert(run(start, trace).transcript.sent =~= payloads_of(trace));
        }
    }
}

/// Where one message is all that is asked for, at most one is ever written,
/// none while the run is open, and the run that wrote one has ended well: the
/// process exits with code 0.
pub proof fn lemma_one_message_at_most(config: RunConfig, trace: Seq<Event>)
    requires
        config.one_message,
    ensures
        run(MuxState::start(config), trace).transcript.emitted.len() <= 1,
        run(MuxState::start(config), trace).state.settled is None ==> run(
            MuxState::start(config),
            trace,
        ).transcript.emitted.len() == 0,
        run(MuxState::start(config), trace).transcript.emitted.len() == 1 ==> {
            &&& run(MuxState::start(config), trace).state.settled matches Some(v)
            &&& v.outcome == LoopOutcome::Completed
            &&& v.outcome.exit_code() == 0
        },
    decreases trace.len(),
{
    if trace.len() > 0 {
        lemma_one_message_at_most(config, trace.drop_last());
        lemma_run_keeps_shape(config, trace.drop_last());
    }
}

/// Where one message is all that is asked for, the first message to arrive
/// while the run is open, datagram or stream, is the one that is written: it
/// alone makes up local output, it settles the run as completed, and the
/// process exits with code 0 whatever arrives after it.
pub proof fn lemma_first_message_ends_run(
    config: RunConfig,
    before: Seq<Event>,
    event: Event,
    after: Seq<Event>,
)
    requires
        config.one_message,
        run(MuxState::start(config), before).state.settled is None,
        message_of(event) is Some,
    ensures
        run(MuxState::start(config), before.push(event) + after).transcript.emitted == seq![
            frame(message_of(event)->0),
        ],
        run(MuxState::start(config), before.push(event) + after).transcript.output() == frame(
            message_of(event)->0,
        ),
        run(MuxState::start(config), before.push(event) + after).state.settled == Some(
            Verdict { by: event.kind(), outcome: LoopOutcome::Completed },
        ),
        LoopOutcome::Completed.exit_code() == 0,
{
    let start = MuxState::start(config);
    lemma_one_message_at_most(config, before);
    lemma_run_keeps_shape(config, before);
    let upto = before.push(event);
    assert(upto.drop_last() =~= before);
    assert(upto.last() == event);
    let at = run(start, upto);
    assert(at.transcript.emitted =~= seq![frame(message_of(event)->0)]);
    lemma_settled_run_is_over(start, upto, after);
    at.transcript.emitted.lemma_flatten_one_element();
}

/// With nothing received and local input at its end at once, a run that
/// forwards input ends well and in silence: nothing is written, nothing is
/// sent, and the process exits with code 0.
pub proof fn lemma_end_of_input_at_once(config: RunConfig)
    requires
        !config.unidirectional,
    ensures
        run(MuxState::start(config), seq![Event::Input(InputEvent::Ended)]).transcript.output()
            == Seq::<u8>::empty(),
        run(MuxState::start(config), seq![Event::Input(InputEvent::Ended)]).transcript.sent
            == Seq::<Seq<u8>>::empty(),
        run(MuxState::start(config), seq![Event::Input(InputEvent::Ended)]).state.settled == Some(
            Verdict { by: LoopKind::Input, outcome: LoopOutcome::Completed },
        ),
        LoopOutcome::Completed.exit_code() == 0,
{
    let trace = seq![Event::Input(InputEvent::Ended)];
    assert(trace.drop_last() =~= Seq::<Event>::empty());
    assert(trace.last() == Event::Input(InputEvent::Ended));
    let start = MuxState::start(config);
    assert(run(start, trace.drop_last()).state == start);
    assert(run(start, trace).transcript.emitted =~= Seq::<Seq<u8>>::empty());
}

/// A receive-only run has no input forward loop, and sends nothing to the
/// peer whatever happens.
pub proof fn lemma_receive_only_sends_nothing(config: RunConfig, trace: Seq<Event>)
    requires
        config.unidirectional,
    ensures
        !MuxState::start(config).runs(LoopKind::Input),
        !run(MuxState::start(config), trace).state.runs(LoopKind::Input),
        run(MuxState::start(config), trace).transcript.sent == Seq::<Seq<u8>>::empty(),
    decreases trace.len(),
{
    if trace.len() > 0 {
        lemma_receive_only_sends_nothing(config, trace.drop_last());
        lemma_run_keeps_shape(config, trace.drop_last());
    }
}

/// In a receive-only run local input is without effect: whatever is read
/// from it, the multiplexer and everything the driver has done stay as they
/// were.
pub proof fn lemma_receive_only_ignores_input(
    config: RunConfig,
    trace: Seq<Event>,
    input: InputEvent,
)
    requires
        config.unidirectional,
    ensures
        run(MuxState::start(config), trace.push(Event::Input(input))) == run(
            MuxState::start(config),
            trace,
        ),
{
    let start = MuxState::start(config);
    let longer = trace.push(Event::Input(input));
    lemma_run_keeps_shape(config, trace);
    assert(longer.drop_last() =~= trace);
    assert(longer.last() == Event::Input(input));
    let before = run(start, trace);
    let after = run(start, longer);
    assert(after.transcript.emitted =~= before.transcript.emitted);
    assert(after.transcript.sent =~= before.transcript.sent);
    assert(after.transcript.notices =~= before.transcript.notices);
}

/// A stream is written only once it has been read to its end, and a stream
/// that breaks off takes nothing down with it: neither the accept nor the
/// failed read writes anything, the run stays open, and the next stream that
/// is read to its end is written whole.
pub proof fn lemma_broken_stream_is_survivable(state: MuxState, data: Vec<u8>)
    requires
        state.wf(),
        state.settled is None,
    ensures
        state.react(Event::Stream(StreamEvent::Accepted)).emitted() is None,
        state.step(Event::Stream(StreamEvent::Accepted)).settled is None,
        state.react(Event::Stream(StreamEvent::ReadFailed)).emitted() is None,
        state.step(Event::Stream(StreamEvent::ReadFailed)) == state,
        state.step(Event::Stream(StreamEvent::ReadFailed)).react(
            Event::Stream(StreamEvent::Drained(data)),
        ).emitted() == Some(frame(data@)),
{
}

} // verus!
