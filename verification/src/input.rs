//! The input forward loop: every line of local input goes to the peer as one
//! datagram.

use crate::buffer::{bytes_from_vec, bytes_len, bytes_seq};
use crate::config::RunConfig;
use crate::notice::Notice;
use crate::outcome::{Failure, LoopOutcome};
use crate::step::{Effect, EffectView, Step, StepView};
use crate::text::{
    all_white_space, ends_in_text, lemma_trim_end_splits, lemma_trim_end_strips, trim_end, trim_line,
};
use bytes::Bytes;
use vstd::prelude::*;
use vstd::slice::slice_to_vec;
use vstd::utf8::encode_utf8;

verus! {

/// The datagram that stands for one line of input: the line's text in UTF-8,
/// without its trailing white space, line terminator included.
pub open spec fn line_payload(line: Seq<char>) -> Seq<u8> {
    encode_utf8(trim_end(line))
}

/// Builds the datagram that stands for one line of input.
pub fn datagram_for_line(line: &str) -> (payload: Bytes)
    ensures
        bytes_seq(payload) == line_payload(line@),
{
    let kept = trim_line(line);
    bytes_from_vec(slice_to_vec(kept.as_bytes()))
}

/// The UTF-8 form of two texts one after the other is the UTF-8 form of the
/// first followed by that of the second.
pub proof fn lemma_encode_utf8_concat(first: Seq<char>, second: Seq<char>)
    ensures
        encode_utf8(first + second) == encode_utf8(first) + encode_utf8(second),
    decreases first.len(),
{
    if first.len() == 0 {
        assert(first + second =~= second);
        assert(encode_utf8(first) + encode_utf8(second) =~= encode_utf8(second));
    } else {
        let whole = first + second;
        assert(whole[0] == first[0]);
        assert(whole.drop_first() =~= first.drop_first() + second);
        lemma_encode_utf8_concat(first.drop_first(), second);
        assert(encode_utf8(whole) =~= encode_utf8(first) + encode_utf8(second));
    }
}

/// What is forwarded for a line is the line with its trailing white space
/// removed, line terminator included, and nothing else altered: of text that
/// does not end in white space, followed by white space only, the bytes of the
/// text are forwarded, and they are the bytes that the line begins with.
pub proof fn lemma_line_payload_is_text(text: Seq<char>, tail: Seq<char>)
    requires
        ends_in_text(text),
        all_white_space(tail),
    ensures
        line_payload(text + tail) == encode_utf8(text),
        encode_utf8(text + tail) == line_payload(text + tail) + encode_utf8(tail),
{
    lemma_trim_end_strips(text, tail);
    lemma_encode_utf8_concat(text, tail);
}

/// Every line is the datagram forwarded for it, followed by white space
/// only.
pub proof fn lemma_line_payload_begins_line(line: Seq<char>)
    ensures
        trim_end(line).len() <= line.len(),
        all_white_space(line.skip(trim_end(line).len() as int)),
        encode_utf8(line) == line_payload(line) + encode_utf8(
            line.skip(trim_end(line).len() as int),
        ),
{
    lemma_trim_end_splits(line);
    lemma_encode_utf8_concat(trim_end(line), line.skip(trim_end(line).len() as int));
}

/// What came back from reading local input, or from sending a datagram.
#[derive(Debug)]
pub enum InputEvent {
    /// A line was read, line terminator included if there was one.
    Line(String),
    /// Local input is at its end.
    Ended,
    /// Local input could not be read.
    ReadFailed,
    /// The session took the datagram.
    Sent,
    /// The session refused the datagram.
    SendFailed,
}

/// The state of the input forward loop.
#[derive(Clone, Copy, Debug)]
pub struct InputLoop {
    /// Whether progress is reported.
    pub verbose: bool,
    /// How the loop ended, once it has.
    pub finished: Option<LoopOutcome>,
}

impl InputLoop {
    /// The loop as it starts under `config`.
    pub open spec fn spec_new(config: RunConfig) -> InputLoop {
        InputLoop { verbose: config.verbose(), finished: None }
    }

    /// The loop after `event`.
    ///
    /// The end of input ends the loop, and that is no error. A failed read
    /// ends it in error. A refused datagram costs that datagram and nothing
    /// else. A loop that has ended stays as it is.
    pub open spec fn next(self, event: InputEvent) -> InputLoop {
        if self.finished is Some {
            self
        } else {
            match event {
                InputEvent::Ended => InputLoop { finished: Some(LoopOutcome::Completed), ..self },
                InputEvent::ReadFailed => InputLoop {
                    finished: Some(LoopOutcome::Errored(Failure::InputRead)),
                    ..self
                },
                _ => self,
            }
        }
    }

    /// The loop's answer to `event`.
    ///
    /// A line is sent as one datagram, see [`line_payload`]. Failures are
    /// logged. A loop that has ended answers nothing.
    pub open spec fn reaction(self, event: InputEvent) -> StepView {
        if self.finished is Some {
            StepView::idle()
        } else {
            match event {
                InputEvent::Line(line) => StepView {
                    notice: if self.verbose {
                        Some(Notice::Sending { len: line_payload(line@).len() as usize })
                    } else {
                        None
                    },
                    effect: EffectView::Send(line_payload(line@)),
                },
                InputEvent::Ended => if self.verbose {
                    StepView::log(Notice::InputEnded)
                } else {
                    StepView::idle()
                },
                InputEvent::ReadFailed => StepView::log(Notice::InputFailed),
                InputEvent::Sent => if self.verbose {
                    StepView::log(Notice::Sent)
                } else {
                    StepView::idle()
                },
                InputEvent::SendFailed => StepView::log(Notice::SendFailed),
            }
        }
    }

    /// The loop as it starts under `config`.
    pub fn new(config: &RunConfig) -> (lp: InputLoop)
        ensures
            lp == InputLoop::spec_new(*config),
    {
        InputLoop { verbose: config.verbose(), finished: None }
    }

    /// Takes the result of one read or of one send and says what to do about
    /// it.
    pub fn on_event(&mut self, event: InputEvent) -> (step: Step)
        ensures
            *final(self) == old(self).next(event),
            step@ == old(self).reaction(event),
    {
        if self.finished.is_some() {
            return Step::idle();
        }
        match event {
            InputEvent::Line(line) => {
                let payload = datagram_for_line(line.as_str());
                let notice = if self.verbose {
                    Some(Notice::Sending { len: bytes_len(&payload) })
                } else {
                    None
                };
                Step { notice, effect: Effect::Send(payload) }
            },
            InputEvent::Ended => {
                self.finished = Some(LoopOutcome::Completed);
                if self.verbose {
                    Step::log(Notice::InputEnded)
                } else {
                    Step::idle()
                }
            },
            InputEvent::ReadFailed => {
                self.finished = Some(LoopOutcome::Errored(Failure::InputRead));
                Step::log(Notice::InputFailed)
            },
            InputEvent::Sent => {
                if self.verbose {
                    Step::log(Notice::Sent)
                } else {
                    Step::idle()
                }
            },
            InputEvent::SendFailed => Step::log(Notice::SendFailed),
        }
    }
}

} // verus!
