//! The upstream task as a state machine: it reads the provider's stream
//! event by event and decides what to hand to the response stream, and when
//! to stop reading.
//!
//! The task that owns the connection runs the loop. It reads only while
//! [`Producer::is_reading`] holds, hands each event to
//! [`Producer::on_event`], does what the returned [`Relay`] says, and
//! reports with [`Producer::on_send`] whether a delta was accepted.

use vstd::prelude::*;
use crate::stream::{
    classify_payload, payload_of, Payload, PayloadView, END_MARKER,
};

verus! {

/// What a transport error says.
pub const TRANSPORT_ERROR_MESSAGE: &'static str = "the connection to the provider failed";

/// What a decode error says.
pub const DECODE_ERROR_MESSAGE: &'static str = "the provider sent a payload that is not JSON";

/// How many events the channel between the upstream task and the response
/// stream holds before the task has to wait.
pub const CHANNEL_CAPACITY: usize = 10;

/// One event of the provider's stream, as the transport reports it.
#[derive(Debug, Clone, PartialEq, Eq)]
pub enum UpstreamEvent {
    /// The connection is open.
    Open,
    /// A message with this payload arrived.
    Message(String),
    /// The transport failed.
    Failure,
}

/// One event of the provider's stream, its payload classified.
#[derive(Debug, Clone, PartialEq, Eq)]
pub enum Signal {
    Open,
    Payload(Payload),
    Failure,
}

/// The mathematical value of a [`Signal`].
pub enum SignalView {
    Open,
    Payload(PayloadView),
    Failure,
}

impl View for Signal {
    type V = SignalView;

    open spec fn view(&self) -> SignalView {
        match self {
            Signal::Open => SignalView::Open,
            Signal::Payload(p) => SignalView::Payload(p@),
            Signal::Failure => SignalView::Failure,
        }
    }
}

/// The signal that an event stands for.
pub open spec fn signal_of(event: UpstreamEvent) -> SignalView {
    match event {
        UpstreamEvent::Open => SignalView::Open,
        UpstreamEvent::Message(data) => SignalView::Payload(payload_of(data@)),
        UpstreamEvent::Failure => SignalView::Failure,
    }
}

/// Why a generation fails on the upstream side.
#[derive(Debug, Clone, Copy, PartialEq, Eq, Structural)]
pub enum UpstreamError {
    /// The transport failed.
    Transport,
    /// The provider sent a payload that is no JSON document.
    Decode,
}

impl UpstreamError {
    /// What the error says.
    pub open spec fn text(self) -> Seq<char> {
        match self {
            UpstreamError::Transport => TRANSPORT_ERROR_MESSAGE@,
            UpstreamError::Decode => DECODE_ERROR_MESSAGE@,
        }
    }

    /// What the error says.
    pub fn message(&self) -> (message: &'static str)
        ensures
            message@ == self.text(),
    {
        match self {
            UpstreamError::Transport => TRANSPORT_ERROR_MESSAGE,
            UpstreamError::Decode => DECODE_ERROR_MESSAGE,
        }
    }
}

/// What the task does for one event.
#[derive(Debug, Clone, PartialEq, Eq)]
pub enum Relay {
    /// Nothing is sent.
    Skip,
    /// Send this fragment as a text event, and report whether it was
    /// accepted.
    Delta(String),
    /// Close the connection and send the terminal event with this closing
    /// fragment. Reading ends whether or not it is accepted.
    Terminal(String),
    /// Close the connection and send this error in place of an event.
    /// Reading ends, and no terminal event follows.
    Failure(UpstreamError),
}

/// The mathematical value of a [`Relay`].
pub enum RelayView {
    Skip,
    Delta(Seq<char>),
    Terminal(Seq<char>),
    Failure(UpstreamError),
}

impl View for Relay {
    type V = RelayView;

    open spec fn view(&self) -> RelayView {
        match self {
            Relay::Skip => RelayView::Skip,
            Relay::Delta(s) => RelayView::Delta(s@),
            Relay::Terminal(s) => RelayView::Terminal(s@),
            Relay::Failure(error) => RelayView::Failure(*error),
        }
    }
}

/// What is done for a signal: a task that has stopped reading does nothing;
/// a payload that cannot be decoded is passed on as a decode error, as a
/// failure of the transport is passed on as a transport error.
pub open spec fn relay_of(reading: bool, signal: SignalView) -> RelayView {
    if !reading {
        RelayView::Skip
    } else {
        match signal {
            SignalView::Open => RelayView::Skip,
            SignalView::Payload(PayloadView::Terminal) => RelayView::Terminal(END_MARKER@),
            SignalView::Payload(PayloadView::Delta(text)) => RelayView::Delta(text),
            SignalView::Payload(PayloadView::Empty) => RelayView::Skip,
            SignalView::Payload(PayloadView::Malformed) => RelayView::Failure(
                UpstreamError::Decode,
            ),
            SignalView::Failure => RelayView::Failure(UpstreamError::Transport),
        }
    }
}

/// Whether the task reads on after a signal: the sentinel and either kind
/// of failure end the reading.
pub open spec fn reading_after(reading: bool, signal: SignalView) -> bool {
    reading && match signal {
        SignalView::Open => true,
        SignalView::Payload(PayloadView::Delta(_)) => true,
        SignalView::Payload(PayloadView::Empty) => true,
        SignalView::Payload(PayloadView::Terminal) => false,
        SignalView::Payload(PayloadView::Malformed) => false,
        SignalView::Failure => false,
    }
}

/// Whether the task reads on after a delta was offered to the response
/// stream: a delta that is not accepted ends the reading.
pub open spec fn reading_after_send(reading: bool, accepted: bool) -> bool {
    reading && accepted
}

/// The state of the upstream task.
#[derive(Debug, Clone)]
pub struct Producer {
    reading: bool,
}

impl View for Producer {
    type V = bool;

    /// Whether the task still reads from the provider.
    closed spec fn view(&self) -> bool {
        self.reading
    }
}

impl Producer {
    /// A task that is about to read its first event.
    pub fn new() -> (producer: Producer)
        ensures
            producer@,
    {
        Producer { reading: true }
    }

    /// Whether the task may read another event.
    pub fn is_reading(&self) -> (r: bool)
        ensures
            r == self@,
    {
        self.reading
    }

    /// Decides what to do for a classified event.
    pub fn relay(&mut self, signal: Signal) -> (relay: Relay)
        ensures
            relay@ == relay_of(old(self)@, signal@),
            final(self)@ == reading_after(old(self)@, signal@),
    {
        if !self.reading {
            return Relay::Skip;
        }
        match signal {
            Signal::Open => Relay::Skip,
            Signal::Payload(Payload::Terminal) => {
                self.reading = false;
                Relay::Terminal(END_MARKER.to_owned())
            },
            Signal::Payload(Payload::Delta(text)) => Relay::Delta(text),
            Signal::Payload(Payload::Empty) => Relay::Skip,
            Signal::Payload(Payload::Malformed) => {
                self.reading = false;
                Relay::Failure(UpstreamError::Decode)
            },
            Signal::Failure => {
                self.reading = false;
                Relay::Failure(UpstreamError::Transport)
            },
        }
    }

    /// Classifies an event of the provider's stream and decides what to do
    /// for it.
    pub fn on_event(&mut self, event: UpstreamEvent) -> (relay: Relay)
        ensures
            relay@ == relay_of(old(self)@, signal_of(event)),
            final(self)@ == reading_after(old(self)@, signal_of(event)),
    {
        let signal = match event {
            UpstreamEvent::Open => Signal::Open,
            UpstreamEvent::Message(data) => Signal::Payload(classify_payload(data.as_str())),
            UpstreamEvent::Failure => Signal::Failure,
        };
        self.relay(signal)
    }

    /// Records whether the response stream accepted a delta.
    pub fn on_send(&mut self, accepted: bool)
        ensures
            final(self)@ == reading_after_send(old(self)@, accepted),
    {
        if !accepted {
            self.reading = false;
        }
    }
}

/// One thing that happens to the upstream task.
pub enum ProducerInput {
    /// An event was read and classified.
    Signal(SignalView),
    /// A delta was offered to the response stream, and accepted or not.
    Sent(bool),
}

/// The state after one input.
pub open spec fn producer_next(reading: bool, input: ProducerInput) -> bool {
    match input {
        ProducerInput::Signal(signal) => reading_after(reading, signal),
        ProducerInput::Sent(accepted) => reading_after_send(reading, accepted),
    }
}

/// The state after a run of inputs.
pub open spec fn producer_after(reading: bool, inputs: Seq<ProducerInput>) -> bool
    decreases inputs.len(),
{
    if inputs.len() == 0 {
        reading
    } else {
        producer_next(producer_after(reading, inputs.drop_last()), inputs.last())
    }
}

/// A task that has stopped reading never reads again, and does nothing for
/// whatever it is handed.
pub proof fn lemma_stopped_stays_stopped(inputs: Seq<ProducerInput>, signal: SignalView)
    ensures
        !producer_after(false, inputs),
        relay_of(producer_after(false, inputs), signal) == RelayView::Skip,
    decreases inputs.len(),
{
    if inputs.len() > 0 {
        lemma_stopped_stays_stopped(inputs.drop_last(), signal);
    }
}

/// The state after two runs is the state after the second, started from the
/// state after the first.
pub proof fn lemma_producer_after_concat(
    reading: bool,
    first: Seq<ProducerInput>,
    second: Seq<ProducerInput>,
)
    ensures
        producer_after(reading, first + second) == producer_after(
            producer_after(reading, first),
            second,
        ),
    decreases second.len(),
{
    if second.len() == 0 {
        assert(first + second =~= first);
    } else {
        lemma_producer_after_concat(reading, first, second.drop_last());
        assert((first + second).drop_last() =~= first + second.drop_last());
        assert((first + second).last() == second.last());
    }
}

/// Once the response stream has refused a delta, the task reads no further
/// event and sends nothing more, whatever happens before and after.
pub proof fn lemma_refused_delta_ends_reading(
    before: Seq<ProducerInput>,
    after: Seq<ProducerInput>,
    signal: SignalView,
)
    ensures
        !producer_after(true, before.push(ProducerInput::Sent(false)) + after),
        relay_of(producer_after(true, before.push(ProducerInput::Sent(false)) + after), signal)
            == RelayView::Skip,
{
    let refused = before.push(ProducerInput::Sent(false));
    assert(refused.drop_last() =~= before);
    assert(!producer_after(true, refused));
    lemma_producer_after_concat(true, refused, after);
    lemma_stopped_stays_stopped(after, signal);
}

/// Whether a signal ends the reading: the sentinel, a failure of the
/// transport, and a payload that cannot be decoded.
pub open spec fn ends_reading(signal: SignalView) -> bool {
    signal matches SignalView::Failure || signal matches SignalView::Payload(PayloadView::Terminal)
        || signal matches SignalView::Payload(PayloadView::Malformed)
}

/// A task that reads a payload which cannot be decoded sends a decode error
/// for it, and a task that meets a failure of the transport sends a
/// transport error: neither stops without a word.
pub proof fn lemma_failures_are_passed_on(signal: SignalView)
    ensures
        signal matches SignalView::Payload(PayloadView::Malformed) ==> relay_of(true, signal)
            == RelayView::Failure(UpstreamError::Decode),
        signal matches SignalView::Failure ==> relay_of(true, signal) == RelayView::Failure(
            UpstreamError::Transport,
        ),
{
}

/// Once a signal has ended the reading, the task reads no further event
/// and sends nothing more: no event follows an error, and none follows the
/// terminal event.
pub proof fn lemma_nothing_follows_the_end(
    before: Seq<ProducerInput>,
    end: SignalView,
    after: Seq<ProducerInput>,
    signal: SignalView,
)
    requires
        ends_reading(end),
    ensures
        !producer_after(true, before.push(ProducerInput::Signal(end)) + after),
        relay_of(producer_after(true, before.push(ProducerInput::Signal(end)) + after), signal)
            == RelayView::Skip,
{
    let ended = before.push(ProducerInput::Signal(end));
    assert(ended.drop_last() =~= before);
    assert(!producer_after(true, ended));
    lemma_producer_after_concat(true, ended, after);
    lemma_stopped_stays_stopped(after, signal);
}

} // verus!
