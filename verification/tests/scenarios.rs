//! Whole runs of the bridge, driven event by event as the binary drives it.

use bytes::Bytes;
use url::Url;
use webtranscat::config::RunConfig;
use webtranscat::datagram::DatagramEvent;
use webtranscat::input::InputEvent;
use webtranscat::mux::{Event, Multiplexer, Verdict};
use webtranscat::notice::Notice;
use webtranscat::outcome::{Failure, LoopKind, LoopOutcome};
use webtranscat::step::Effect;
use webtranscat::stream::StreamEvent;

fn run_config(unidirectional: bool, one_message: bool) -> RunConfig {
    RunConfig {
        target: Url::parse("https://example.com/").unwrap(),
        verbosity: 0,
        quiet: false,
        insecure: false,
        unidirectional,
        one_message,
    }
}

/// What a driver has done after feeding `events` in order.
struct Record {
    output: Vec<u8>,
    writes: usize,
    sent: Vec<Vec<u8>>,
    notices: Vec<Notice>,
    verdict: Option<Verdict>,
}

fn drive(config: &RunConfig, events: Vec<Event>) -> Record {
    let mut mux = Multiplexer::new(config);
    let mut record =
        Record { output: Vec::new(), writes: 0, sent: Vec::new(), notices: Vec::new(), verdict: None };
    for event in events {
        let step = mux.on_event(event);
        if let Some(notice) = step.notice {
            record.notices.push(notice);
        }
        match step.effect {
            Effect::Idle => {}
            Effect::Emit(bytes) => {
                record.output.extend_from_slice(&bytes);
                record.writes += 1;
            }
            Effect::Send(payload) => record.sent.push(payload.to_vec()),
        }
    }
    record.verdict = mux.verdict();
    record
}

fn datagram(payload: &'static [u8]) -> Event {
    Event::Datagram(DatagramEvent::Received(Bytes::from_static(payload)))
}

fn drained(data: &[u8]) -> Event {
    Event::Stream(StreamEvent::Drained(data.to_vec()))
}

fn line(text: &str) -> Event {
    Event::Input(InputEvent::Line(text.to_string()))
}

#[test]
fn input_line_hello_is_sent_as_hello() {
    let record = drive(&run_config(false, false), vec![line("hello\n")]);
    assert_eq!(record.sent, vec![b"hello".to_vec()]);
    assert!(record.output.is_empty());
    assert_eq!(record.verdict, None);
}

#[test]
fn datagram_ping_is_written_as_one_line() {
    let record = drive(&run_config(false, false), vec![datagram(b"ping")]);
    assert_eq!(record.output, b"ping\n".to_vec());
    assert_eq!(record.writes, 1);
    assert!(record.sent.is_empty());
    assert_eq!(record.verdict, None);
}

#[test]
fn stream_written_in_two_parts_is_one_message() {
    let mut whole = b"ab".to_vec();
    whole.extend_from_slice(b"cd");
    let record = drive(
        &run_config(false, false),
        vec![Event::Stream(StreamEvent::Accepted), Event::Stream(StreamEvent::Drained(whole))],
    );
    assert_eq!(record.output, b"abcd\n".to_vec());
    assert_eq!(record.writes, 1);
}

#[test]
fn nothing_is_written_before_a_stream_is_drained() {
    let record = drive(&run_config(false, false), vec![Event::Stream(StreamEvent::Accepted)]);
    assert!(record.output.is_empty());
    assert_eq!(record.writes, 0);
    assert_eq!(record.verdict, None);
}

#[test]
fn end_of_input_at_once_exits_zero_in_silence() {
    let mut mux = Multiplexer::new(&run_config(false, false));
    let step = mux.on_event(Event::Input(InputEvent::Ended));
    assert!(matches!(step.effect, Effect::Idle));
    assert_eq!(step.notice, None);
    assert_eq!(
        mux.verdict(),
        Some(Verdict { by: LoopKind::Input, outcome: LoopOutcome::Completed })
    );
    assert_eq!(mux.exit_code(), Some(0));
}

#[test]
fn end_of_input_at_once_writes_and_sends_nothing() {
    for one_message in [false, true] {
        let record =
            drive(&run_config(false, one_message), vec![Event::Input(InputEvent::Ended)]);
        assert!(record.output.is_empty());
        assert!(record.sent.is_empty());
        assert!(record.notices.is_empty());
    }
}

#[test]
fn messages_come_out_in_the_order_of_arrival() {
    let record = drive(
        &run_config(false, false),
        vec![
            datagram(b"one"),
            Event::Stream(StreamEvent::Accepted),
            datagram(b"two"),
            drained(b"three"),
            datagram(b""),
            datagram(b"four"),
        ],
    );
    assert_eq!(record.output, b"one\ntwo\nthree\n\nfour\n".to_vec());
    assert_eq!(record.writes, 5);
    assert_eq!(record.verdict, None);
}

#[test]
fn newline_inside_a_payload_is_not_escaped() {
    let record = drive(&run_config(false, false), vec![datagram(b"a\nb")]);
    assert_eq!(record.output, b"a\nb\n".to_vec());
}

#[test]
fn binary_payload_is_written_as_it_came() {
    let record = drive(&run_config(false, false), vec![datagram(&[0x00, 0xFF, 0x0A, 0x80])]);
    assert_eq!(record.output, vec![0x00, 0xFF, 0x0A, 0x80, 0x0A]);
}

#[test]
fn one_message_stops_after_the_first_datagram() {
    let record = drive(
        &run_config(false, true),
        vec![datagram(b"first"), datagram(b"second"), drained(b"third"), line("fourth\n")],
    );
    assert_eq!(record.output, b"first\n".to_vec());
    assert_eq!(record.writes, 1);
    assert!(record.sent.is_empty());
    assert_eq!(
        record.verdict,
        Some(Verdict { by: LoopKind::Datagram, outcome: LoopOutcome::Completed })
    );
    assert_eq!(record.verdict.unwrap().outcome.exit_code(), 0);
}

#[test]
fn one_message_stops_after_the_first_stream() {
    let record = drive(
        &run_config(false, true),
        vec![
            line("up\n"),
            Event::Stream(StreamEvent::Accepted),
            drained(b"first"),
            datagram(b"second"),
        ],
    );
    assert_eq!(record.output, b"first\n".to_vec());
    assert_eq!(record.writes, 1);
    assert_eq!(record.sent, vec![b"up".to_vec()]);
    assert_eq!(
        record.verdict,
        Some(Verdict { by: LoopKind::Stream, outcome: LoopOutcome::Completed })
    );
}

#[test]
fn one_message_waits_through_a_broken_stream() {
    let record = drive(
        &run_config(false, true),
        vec![
            Event::Stream(StreamEvent::Accepted),
            Event::Stream(StreamEvent::ReadFailed),
            Event::Stream(StreamEvent::Accepted),
            drained(b"whole"),
        ],
    );
    assert_eq!(record.output, b"whole\n".to_vec());
    assert_eq!(record.notices, vec![Notice::StreamReadFailed]);
    assert_eq!(
        record.verdict,
        Some(Verdict { by: LoopKind::Stream, outcome: LoopOutcome::Completed })
    );
}

#[test]
fn receive_only_run_has_no_input_loop() {
    let mux = Multiplexer::new(&run_config(true, false));
    assert!(mux.runs(LoopKind::Datagram));
    assert!(mux.runs(LoopKind::Stream));
    assert!(!mux.runs(LoopKind::Input));
    let mux = Multiplexer::new(&run_config(false, false));
    assert!(mux.runs(LoopKind::Datagram));
    assert!(mux.runs(LoopKind::Stream));
    assert!(mux.runs(LoopKind::Input));
}

#[test]
fn receive_only_run_ignores_local_input() {
    let record = drive(
        &run_config(true, false),
        vec![
            line("hello\n"),
            Event::Input(InputEvent::ReadFailed),
            Event::Input(InputEvent::Ended),
            Event::Input(InputEvent::Sent),
            Event::Input(InputEvent::SendFailed),
            datagram(b"still here"),
        ],
    );
    assert!(record.sent.is_empty());
    assert!(record.notices.is_empty());
    assert_eq!(record.output, b"still here\n".to_vec());
    assert_eq!(record.verdict, None);
}

#[test]
fn failed_receive_ends_the_run_in_error() {
    let record = drive(
        &run_config(false, false),
        vec![datagram(b"a"), Event::Datagram(DatagramEvent::Failed), datagram(b"b")],
    );
    assert_eq!(record.output, b"a\n".to_vec());
    assert_eq!(record.notices, vec![Notice::DatagramFailed]);
    assert_eq!(
        record.verdict,
        Some(Verdict {
            by: LoopKind::Datagram,
            outcome: LoopOutcome::Errored(Failure::DatagramReceive)
        })
    );
    assert_eq!(record.verdict.unwrap().outcome.exit_code(), 1);
}

#[test]
fn failed_accept_ends_the_run_in_error() {
    let mut mux = Multiplexer::new(&run_config(true, false));
    let step = mux.on_event(Event::Stream(StreamEvent::AcceptFailed));
    assert_eq!(step.notice, Some(Notice::StreamAcceptFailed));
    assert!(matches!(step.effect, Effect::Idle));
    assert_eq!(
        mux.verdict(),
        Some(Verdict { by: LoopKind::Stream, outcome: LoopOutcome::Errored(Failure::StreamAccept) })
    );
    assert_eq!(mux.exit_code(), Some(1));
}

#[test]
fn failed_read_of_input_ends_the_run_in_error() {
    let mut mux = Multiplexer::new(&run_config(false, false));
    let step = mux.on_event(Event::Input(InputEvent::ReadFailed));
    assert_eq!(step.notice, Some(Notice::InputFailed));
    assert_eq!(
        mux.verdict(),
        Some(Verdict { by: LoopKind::Input, outcome: LoopOutcome::Errored(Failure::InputRead) })
    );
    assert_eq!(mux.exit_code(), Some(1));
}

#[test]
fn refused_datagram_does_not_stop_forwarding() {
    let record = drive(
        &run_config(false, false),
        vec![
            line("one\n"),
            Event::Input(InputEvent::SendFailed),
            line("two\n"),
            Event::Input(InputEvent::Sent),
        ],
    );
    assert_eq!(record.sent, vec![b"one".to_vec(), b"two".to_vec()]);
    assert_eq!(record.notices, vec![Notice::SendFailed]);
    assert_eq!(record.verdict, None);
}

#[test]
fn open_run_has_no_exit_code() {
    let mut mux = Multiplexer::new(&run_config(false, false));
    assert_eq!(mux.exit_code(), None);
    assert_eq!(mux.verdict(), None);
    mux.on_event(datagram(b"x"));
    assert_eq!(mux.exit_code(), None);
}

#[test]
fn settled_run_answers_nothing_more() {
    let mut mux = Multiplexer::new(&run_config(false, false));
    mux.on_event(Event::Input(InputEvent::Ended));
    let verdict = mux.verdict();
    for event in [
        datagram(b"late"),
        drained(b"late"),
        line("late\n"),
        Event::Datagram(DatagramEvent::Failed),
        Event::Stream(StreamEvent::AcceptFailed),
    ] {
        let step = mux.on_event(event);
        assert_eq!(step.notice, None);
        assert!(matches!(step.effect, Effect::Idle));
        assert_eq!(mux.verdict(), verdict);
    }
}
