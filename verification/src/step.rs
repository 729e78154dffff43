//! What the bridge asks its driver to do in answer to one event.

use crate::buffer::{bytes_seq, bytes_as_slice};
use crate::notice::Notice;
use bytes::Bytes;
use vstd::prelude::*;
use vstd::slice::slice_to_vec;

verus! {

/// The byte that ends every message on local output.
pub const NEWLINE: u8 = 0x0A;

/// A received message as it appears on local output: the payload as it
/// came, then one newline.
pub open spec fn frame(payload: Seq<u8>) -> Seq<u8> {
    payload.push(NEWLINE)
}

/// Frames a received message for local output.
pub fn frame_message(payload: &[u8]) -> (framed: Vec<u8>)
    ensures
        framed@ == frame(payload@),
{
    let mut framed = slice_to_vec(payload);
    framed.push(NEWLINE);
    framed
}

/// Frames a received datagram for local output.
pub fn frame_datagram(payload: &Bytes) -> (framed: Vec<u8>)
    ensures
        framed@ == frame(bytes_seq(*payload)),
{
    frame_message(bytes_as_slice(payload))
}

/// The one thing to do to the outside world.
#[derive(Debug)]
pub enum Effect {
    /// Nothing.
    Idle,
    /// Write these bytes to local output and flush.
    Emit(Vec<u8>),
    /// Send these bytes to the peer as one datagram.
    Send(Bytes),
}

/// [`Effect`] with its bytes as sequences.
pub enum EffectView {
    Idle,
    Emit(Seq<u8>),
    Send(Seq<u8>),
}

impl View for Effect {
    type V = EffectView;

    open spec fn view(&self) -> EffectView {
        match self {
            Effect::Idle => EffectView::Idle,
            Effect::Emit(bytes) => EffectView::Emit(bytes@),
            Effect::Send(payload) => EffectView::Send(bytes_seq(*payload)),
        }
    }
}

/// The answer to one event: a diagnostic to log, if any, then an effect.
#[derive(Debug)]
pub struct Step {
    pub notice: Option<Notice>,
    pub effect: Effect,
}

/// [`Step`] with its bytes as sequences.
pub struct StepView {
    pub notice: Option<Notice>,
    pub effect: EffectView,
}

impl View for Step {
    type V = StepView;

    open spec fn view(&self) -> StepView {
        StepView { notice: self.notice, effect: self.effect@ }
    }
}

impl StepView {
    /// The answer to an event that changes nothing.
    pub open spec fn idle() -> StepView {
        StepView { notice: None, effect: EffectView::Idle }
    }

    /// An answer that only logs.
    pub open spec fn log(notice: Notice) -> StepView {
        StepView { notice: Some(notice), effect: EffectView::Idle }
    }

    /// What the step writes to local output, if anything.
    pub open spec fn emitted(self) -> Option<Seq<u8>> {
        match self.effect {
            EffectView::Emit(bytes) => Some(bytes),
            _ => None,
        }
    }

    /// What the step sends to the peer, if anything.
    pub open spec fn sent(self) -> Option<Seq<u8>> {
        match self.effect {
            EffectView::Send(payload) => Some(payload),
            _ => None,
        }
    }
}

impl Step {
    /// The answer to an event that changes nothing.
    pub fn idle() -> (step: Step)
        ensures
            step@ == StepView::idle(),
    {
        Step { notice: None, effect: Effect::Idle }
    }

    /// An answer that only logs.
    pub fn log(notice: Notice) -> (step: Step)
        ensures
            step@ == StepView::log(notice),
    {
        Step { notice: Some(notice), effect: Effect::Idle }
    }
}

} // verus!
