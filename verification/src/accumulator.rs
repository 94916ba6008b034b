//! The response stream as a state machine: it accumulates the text deltas of
//! one generation, renders the whole accumulated text for every delta, and
//! on the terminal event hands out the text that is to be persisted.
//!
//! The handler that owns the channel runs the loop. It hands every item that
//! it receives to [`Accumulator::on_item`] and does what the returned
//! [`Outbound`] says.

use vstd::prelude::*;
use vstd::string::StringExecFns;
use crate::markdown::{markdown_html, render_markdown};
use crate::stream::{EventView, GenerationEvent};

verus! {

/// What precedes the rendered text in an incremental update.
pub const UPDATE_OPEN: &'static str = "<div>";

/// What follows the rendered text in an incremental update.
pub const UPDATE_CLOSE: &'static str = "<div>";

/// What precedes the rendered text in the closing update: a container that
/// is swapped, out of band, for the message container of the page.
pub const FINAL_OPEN: &'static str = "<div hx-swap-oob=\"outerHTML:#message-container\">";

/// What follows the rendered text in the closing update.
pub const FINAL_CLOSE: &'static str = "</div>";

/// What separates the closing fragment of the terminal event from the
/// container.
pub const FINAL_SEPARATOR: &'static str = "\n";

/// What the error says that ends a stream whose text could not be stored.
pub const PERSIST_ERROR_MESSAGE: &'static str = "the answer could not be stored";

/// One item that the response stream receives from the upstream task.
#[derive(Debug, Clone, PartialEq, Eq)]
pub enum Incoming {
    /// An event of the generation.
    Event(GenerationEvent),
    /// The transport failed.
    Failure,
    /// The upstream task is gone.
    Closed,
}

/// The mathematical value of an [`Incoming`].
pub enum IncomingView {
    Event(EventView),
    Failure,
    Closed,
}

impl View for Incoming {
    type V = IncomingView;

    open spec fn view(&self) -> IncomingView {
        match self {
            Incoming::Event(e) => IncomingView::Event(e@),
            Incoming::Failure => IncomingView::Failure,
            Incoming::Closed => IncomingView::Closed,
        }
    }
}

impl IncomingView {
    /// Whether the item is a text delta.
    pub open spec fn is_delta(self) -> bool {
        self matches IncomingView::Event(EventView::Text(_))
    }

    /// Whether the item is the terminal event.
    pub open spec fn is_terminal(self) -> bool {
        self matches IncomingView::Event(EventView::End(_))
    }
}

/// What the response stream does for one item.
#[derive(Debug, Clone, PartialEq, Eq)]
pub enum Outbound {
    /// Emit an event with this data: the whole text so far, rendered.
    Update(String),
    /// Persist `persist` as the answer of the pending pair, then end the
    /// stream with what [`after_persist`] gives for the outcome of the write
    /// and this data.
    Final { data: String, persist: String },
    /// Pass the failure on and end the stream. Nothing is persisted.
    Failure,
    /// The stream has ended: nothing is emitted.
    Finished,
}

/// The mathematical value of an [`Outbound`].
pub enum OutboundView {
    Update(Seq<char>),
    Final { data: Seq<char>, persist: Seq<char> },
    Failure,
    Finished,
}

impl View for Outbound {
    type V = OutboundView;

    open spec fn view(&self) -> OutboundView {
        match self {
            Outbound::Update(data) => OutboundView::Update(data@),
            Outbound::Final { data, persist } => OutboundView::Final {
                data: data@,
                persist: persist@,
            },
            Outbound::Failure => OutboundView::Failure,
            Outbound::Finished => OutboundView::Finished,
        }
    }
}

/// How the stream ends once the final text was handed to the store.
#[derive(Debug, Clone, PartialEq, Eq)]
pub enum Closing {
    /// The text is stored: emit the closing event with this data.
    Event(String),
    /// The text could not be stored: emit an error in place of the closing
    /// event.
    Failure,
}

/// The mathematical value of a [`Closing`].
pub enum ClosingView {
    Event(Seq<char>),
    Failure,
}

impl View for Closing {
    type V = ClosingView;

    open spec fn view(&self) -> ClosingView {
        match self {
            Closing::Event(data) => ClosingView::Event(data@),
            Closing::Failure => ClosingView::Failure,
        }
    }
}

/// How the stream ends: with the closing event where the text was stored,
/// with an error where it was not.
pub open spec fn closing_of(stored: bool, data: Seq<char>) -> ClosingView {
    if stored {
        ClosingView::Event(data)
    } else {
        ClosingView::Failure
    }
}

/// Decides how the stream ends, given whether the write of the final text
/// succeeded and the data of the closing update.
pub fn after_persist(stored: bool, data: String) -> (closing: Closing)
    ensures
        closing@ == closing_of(stored, data@),
{
    if stored {
        Closing::Event(data)
    } else {
        Closing::Failure
    }
}

/// An incremental update around HTML that is already rendered.
pub open spec fn update_frame(html: Seq<char>) -> Seq<char> {
    UPDATE_OPEN@ + html + UPDATE_CLOSE@
}

/// The closing update around HTML that is already rendered: the closing
/// fragment of the terminal event, then the HTML in the container that is
/// swapped out of band.
pub open spec fn final_frame(marker: Seq<char>, html: Seq<char>) -> Seq<char> {
    marker + FINAL_SEPARATOR@ + FINAL_OPEN@ + html + FINAL_CLOSE@
}

/// The data of an incremental update for the text accumulated so far: the
/// whole text, rendered.
pub open spec fn update_payload(text: Seq<char>) -> Seq<char> {
    update_frame(markdown_html(text))
}

/// The data of the closing update for the whole text of a generation.
pub open spec fn final_payload(marker: Seq<char>, text: Seq<char>) -> Seq<char> {
    final_frame(marker, markdown_html(text))
}

/// Wraps rendered HTML as the data of an incremental update.
pub fn frame_update(html: &str) -> (data: String)
    ensures
        data@ == update_frame(html@),
{
    let mut data = UPDATE_OPEN.to_owned();
    data.append(html);
    data.append(UPDATE_CLOSE);
    data
}

/// Wraps rendered HTML as the data of the closing update.
pub fn frame_final(marker: &str, html: &str) -> (data: String)
    ensures
        data@ == final_frame(marker@, html@),
{
    let mut data = marker.to_owned();
    data.append(FINAL_SEPARATOR);
    data.append(FINAL_OPEN);
    data.append(html);
    data.append(FINAL_CLOSE);
    data
}

/// Renders the data of an incremental update.
pub fn render_update(text: &str) -> (data: String)
    ensures
        data@ == update_payload(text@),
{
    frame_update(render_markdown(text).as_str())
}

/// Renders the data of the closing update.
pub fn render_final(marker: &str, text: &str) -> (data: String)
    ensures
        data@ == final_payload(marker@, text@),
{
    frame_final(marker, render_markdown(text).as_str())
}

/// The mathematical value of an [`Accumulator`].
pub struct AccumulatorView {
    /// The deltas received so far, joined.
    pub text: Seq<char>,
    /// Whether the stream still takes items.
    pub open: bool,
}

/// The state at the start of a generation: no text, and open.
pub open spec fn initial_state() -> AccumulatorView {
    AccumulatorView { text: Seq::empty(), open: true }
}

/// What is done for an item in a state.
pub open spec fn emitted(state: AccumulatorView, item: IncomingView) -> OutboundView {
    if !state.open {
        OutboundView::Finished
    } else {
        match item {
            IncomingView::Event(EventView::Text(fragment)) => OutboundView::Update(
                update_payload(state.text + fragment),
            ),
            IncomingView::Event(EventView::End(marker)) => OutboundView::Final {
                data: final_payload(marker, state.text),
                persist: state.text,
            },
            IncomingView::Failure => OutboundView::Failure,
            IncomingView::Closed => OutboundView::Finished,
        }
    }
}

/// The state after an item: a delta is appended; the terminal event resets
/// the text and ends the stream; a failure and the end of the channel end
/// the stream and leave the text as it is.
pub open spec fn next_state(state: AccumulatorView, item: IncomingView) -> AccumulatorView {
    if !state.open {
        state
    } else {
        match item {
            IncomingView::Event(EventView::Text(fragment)) => AccumulatorView {
                text: state.text + fragment,
                open: true,
            },
            IncomingView::Event(EventView::End(_)) => AccumulatorView {
                text: Seq::empty(),
                open: false,
            },
            IncomingView::Failure => AccumulatorView { text: state.text, open: false },
            IncomingView::Closed => AccumulatorView { text: state.text, open: false },
        }
    }
}

/// The state of one response stream.
#[derive(Debug, Clone)]
pub struct Accumulator {
    text: String,
    open: bool,
}

impl View for Accumulator {
    type V = AccumulatorView;

    closed spec fn view(&self) -> AccumulatorView {
        AccumulatorView { text: self.text@, open: self.open }
    }
}

impl Accumulator {
    /// The accumulator at the start of a generation.
    pub fn new() -> (accumulator: Accumulator)
        ensures
            accumulator@ == initial_state(),
    {
        Accumulator { text: String::new(), open: true }
    }

    /// The text accumulated so far.
    pub fn text(&self) -> (text: &str)
        ensures
            text@ == self@.text,
    {
        self.text.as_str()
    }

    /// Whether the stream still takes items.
    pub fn is_open(&self) -> (open: bool)
        ensures
            open == self@.open,
    {
        self.open
    }

    /// Takes one item from the channel and decides what the stream does.
    pub fn on_item(&mut self, item: Incoming) -> (outbound: Outbound)
        ensures
            outbound@ == emitted(old(self)@, item@),
            final(self)@ == next_state(old(self)@, item@),
    {
        if !self.open {
            return Outbound::Finished;
        }
        match item {
            Incoming::Event(GenerationEvent::Text(fragment)) => {
                self.text.append(fragment.as_str());
                Outbound::Update(render_update(self.text.as_str()))
            },
            Incoming::Event(GenerationEvent::End(marker)) => {
                let data = render_final(marker.as_str(), self.text.as_str());
                let persist = self.text.clone();
                self.text = String::new();
                self.open = false;
                Outbound::Final { data, persist }
            },
            Incoming::Failure => {
                self.open = false;
                Outbound::Failure
            },
            Incoming::Closed => {
                self.open = false;
                Outbound::Finished
            },
        }
    }
}

} // verus!
