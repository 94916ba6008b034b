//! The upstream side of a generation: the request that is sent to the
//! provider, and what each event of its answer stream means.

use vstd::prelude::*;
use vstd::string::StringExecFns;
use crate::header::{header_value, header_value_of};
use crate::json::{
    document_strings, element, member, parse_document, text_of, value_strings,
    JsonPath, JsonStep,
};
use crate::model::{pair_views, ChatMessagePair, PairView};
use crate::text::{lemma_trimmed_keeps_tight_text, option_view, same_text, trim, trimmed};

verus! {

/// The endpoint that lists the provider's models; asking it is how a
/// credential is probed.
pub const MODELS_URL: &'static str = "https://api.openai.com/v1/models";

/// The endpoint that streams a chat completion.
pub const COMPLETIONS_URL: &'static str = "https://api.openai.com/v1/chat/completions";

/// The instruction that opens every request.
pub const SYSTEM_PROMPT: &'static str = "You are a helpful assistant.";

/// The payload with which the provider ends its stream.
pub const TERMINAL_SENTINEL: &'static str = "[DONE]";

/// The fragment that the terminal event carries: it swaps the listener out
/// of the page, so that the client stops listening.
pub const END_MARKER: &'static str = "<div id=\"sse-listener\" hx-swap-oob=\"true\"></div>";

/// The scheme that precedes the credential in the authorization header.
pub const BEARER_PREFIX: &'static str = "Bearer ";

/// A model as the provider lists it.
#[derive(Debug, Clone)]
pub struct Model {
    pub id: String,
    pub object: String,
    pub created: i64,
    pub owned_by: String,
}

/// What the upstream task hands to the response stream.
#[derive(Debug, Clone, PartialEq, Eq)]
pub enum GenerationEvent {
    /// A fragment of generated text, to be appended.
    Text(String),
    /// The generation is complete; the string is the closing fragment.
    End(String),
}

/// The mathematical value of a [`GenerationEvent`].
pub enum EventView {
    Text(Seq<char>),
    End(Seq<char>),
}

impl View for GenerationEvent {
    type V = EventView;

    open spec fn view(&self) -> EventView {
        match self {
            GenerationEvent::Text(s) => EventView::Text(s@),
            GenerationEvent::End(s) => EventView::End(s@),
        }
    }
}

/// Who speaks in a message of the request.
#[derive(Debug, Clone, Copy, PartialEq, Eq, Structural)]
pub enum Role {
    System,
    User,
    Assistant,
}

impl Role {
    /// The name of the role on the wire.
    pub open spec fn name(self) -> Seq<char> {
        match self {
            Role::System => "system"@,
            Role::User => "user"@,
            Role::Assistant => "assistant"@,
        }
    }

    /// The name of the role on the wire.
    pub fn as_str(&self) -> (r: &'static str)
        ensures
            r@ == self.name(),
    {
        match self {
            Role::System => "system",
            Role::User => "user",
            Role::Assistant => "assistant",
        }
    }
}

/// One message of the request.
#[derive(Debug, Clone)]
pub struct RequestMessage {
    pub role: Role,
    pub content: String,
}

/// The mathematical value of a [`RequestMessage`].
pub struct MessageView {
    pub role: Role,
    pub content: Seq<char>,
}

impl View for RequestMessage {
    type V = MessageView;

    open spec fn view(&self) -> MessageView {
        MessageView { role: self.role, content: self.content@ }
    }
}

/// The values of a sequence of messages.
pub open spec fn message_views(messages: Seq<RequestMessage>) -> Seq<MessageView> {
    messages.map_values(|m: RequestMessage| m@)
}

/// The messages that one pair contributes: the user's, then the answer if
/// there is one.
pub open spec fn turn_messages(pair: PairView) -> Seq<MessageView> {
    let user = seq![MessageView { role: Role::User, content: pair.human_message }];
    match pair.ai_message {
        Some(answer) => user.push(MessageView { role: Role::Assistant, content: answer }),
        None => user,
    }
}

/// The messages of a history, pair after pair.
pub open spec fn history_messages(pairs: Seq<PairView>) -> Seq<MessageView>
    decreases pairs.len(),
{
    if pairs.len() == 0 {
        Seq::empty()
    } else {
        history_messages(pairs.drop_last()) + turn_messages(pairs.last())
    }
}

/// The messages of a request: the system prompt, then the history.
pub open spec fn request_messages_of(pairs: Seq<PairView>) -> Seq<MessageView> {
    seq![MessageView { role: Role::System, content: SYSTEM_PROMPT@ }] + history_messages(pairs)
}

/// Builds the messages of a request from the history of a chat.
pub fn request_messages(pairs: &Vec<ChatMessagePair>) -> (messages: Vec<RequestMessage>)
    ensures
        message_views(messages@) == request_messages_of(pair_views(pairs@)),
{
    let mut messages: Vec<RequestMessage> = Vec::new();
    messages.push(RequestMessage { role: Role::System, content: SYSTEM_PROMPT.to_owned() });
    let ghost views = pair_views(pairs@);
    assert(views.take(0) =~= Seq::<PairView>::empty());
    assert(message_views(messages@) =~= request_messages_of(views.take(0)));
    let mut i: usize = 0;
    while i < pairs.len()
        invariant
            i <= pairs.len(),
            views == pair_views(pairs@),
            message_views(messages@) == request_messages_of(views.take(i as int)),
        decreases pairs.len() - i,
    {
        let pair = &pairs[i];
        let ghost before = message_views(messages@);
        proof {
            assert(views.take(i + 1).drop_last() =~= views.take(i as int));
            assert(views.take(i + 1).last() == pair@);
        }
        messages.push(RequestMessage { role: Role::User, content: pair.human_message.clone() });
        match &pair.ai_message {
            Some(answer) => {
                messages.push(RequestMessage { role: Role::Assistant, content: answer.clone() });
            },
            None => {},
        }
        assert(message_views(messages@) =~= before + turn_messages(pair@));
        i = i + 1;
    }
    assert(views.take(pairs.len() as int) =~= views);
    messages
}

/// The body of a completion request, before it is serialised.
#[derive(Debug, Clone)]
pub struct CompletionRequest {
    pub model: String,
    pub messages: Vec<RequestMessage>,
    pub stream: bool,
}

/// Builds the body of the streaming completion request for a chat.
pub fn completion_request(model: &str, pairs: &Vec<ChatMessagePair>) -> (request: CompletionRequest)
    ensures
        request.model@ == model@,
        message_views(request.messages@) == request_messages_of(pair_views(pairs@)),
        request.stream,
{
    CompletionRequest { model: model.to_owned(), messages: request_messages(pairs), stream: true }
}

/// The value of the authorization header for a credential: the scheme and
/// the credential, where that can stand in a header.
pub fn authorization_header(api_key: &str) -> (value: Option<String>)
    ensures
        option_view(value) == header_value_of(BEARER_PREFIX@ + api_key@),
{
    let mut value = BEARER_PREFIX.to_owned();
    value.append(api_key);
    header_value(value)
}

/// What one payload of the answer stream holds.
#[derive(Debug, Clone, PartialEq, Eq)]
pub enum Payload {
    /// The sentinel that ends the stream.
    Terminal,
    /// A fragment of generated text.
    Delta(String),
    /// A well-formed chunk that carries no text.
    Empty,
    /// Not a JSON document.
    Malformed,
}

/// The mathematical value of a [`Payload`].
pub enum PayloadView {
    Terminal,
    Delta(Seq<char>),
    Empty,
    Malformed,
}

impl View for Payload {
    type V = PayloadView;

    open spec fn view(&self) -> PayloadView {
        match self {
            Payload::Terminal => PayloadView::Terminal,
            Payload::Delta(s) => PayloadView::Delta(s@),
            Payload::Empty => PayloadView::Empty,
            Payload::Malformed => PayloadView::Malformed,
        }
    }
}

/// Where a chunk keeps its fragment of text: the `content` of the `delta`
/// of the first of its `choices`.
pub open spec fn content_path() -> JsonPath {
    seq![
        JsonStep::Key("choices"@),
        JsonStep::Index(0),
        JsonStep::Key("delta"@),
        JsonStep::Key("content"@),
    ]
}

/// The string at a path, if the document has one there.
pub open spec fn string_at(strings: Map<JsonPath, Seq<char>>, path: JsonPath) -> Option<Seq<char>> {
    if strings.contains_key(path) {
        Some(strings[path])
    } else {
        None
    }
}

/// What a chunk with this content holds.
pub open spec fn content_payload_of(content: Option<Seq<char>>) -> PayloadView {
    match content {
        Some(text) => PayloadView::Delta(text),
        None => PayloadView::Empty,
    }
}

/// What a payload holds: the sentinel, surrounded by any whitespace, ends
/// the stream; any other payload must be a JSON document, and carries the
/// string at [`content_path`] if it has one.
pub open spec fn payload_of(data: Seq<char>) -> PayloadView {
    if trimmed(data) == TERMINAL_SENTINEL@ {
        PayloadView::Terminal
    } else {
        match document_strings(data) {
            None => PayloadView::Malformed,
            Some(strings) => content_payload_of(string_at(strings, content_path())),
        }
    }
}

/// The sentinel alone is a payload that ends the stream.
pub proof fn lemma_bare_sentinel_is_terminal()
    ensures
        payload_of(TERMINAL_SENTINEL@) == PayloadView::Terminal,
{
    reveal_strlit("[DONE]");
    let s = TERMINAL_SENTINEL@;
    assert(s.first() == '[');
    assert(s.last() == ']');
    lemma_trimmed_keeps_tight_text(s);
}

/// Whether a payload, already trimmed, is the sentinel that ends the stream.
pub fn is_terminal(payload: &str) -> (r: bool)
    ensures
        r == (payload@ == TERMINAL_SENTINEL@),
{
    same_text(payload, TERMINAL_SENTINEL)
}

/// What a well-formed chunk holds, given the content that was found in it.
pub fn content_payload(content: Option<String>) -> (payload: Payload)
    ensures
        payload@ == content_payload_of(option_view(content)),
{
    match content {
        Some(text) => Payload::Delta(text),
        None => Payload::Empty,
    }
}

/// The fragment of text in a parsed chunk, if it has one.
fn delta_content(document: &serde_json::Value) -> (content: Option<String>)
    ensures
        option_view(content) == string_at(value_strings(*document), content_path()),
{
    let choices = member(document, "choices");
    let first = element(choices, 0);
    let delta = member(first, "delta");
    let content = member(delta, "content");
    let text = match text_of(content) {
        Some(text) => Some(text.to_owned()),
        None => None,
    };
    proof {
        let root = value_strings(*document);
        let k0 = JsonStep::Key("choices"@);
        let k1 = JsonStep::Index(0);
        let k2 = JsonStep::Key("delta"@);
        let k3 = JsonStep::Key("content"@);
        let empty = Seq::<JsonStep>::empty();
        assert(seq![k3] + empty =~= seq![k3]);
        assert(seq![k2] + seq![k3] =~= seq![k2, k3]);
        assert(seq![k1] + seq![k2, k3] =~= seq![k1, k2, k3]);
        assert(seq![k0] + seq![k1, k2, k3] =~= content_path());
        assert(value_strings(*content).contains_key(empty) == root.contains_key(content_path()));
        assert(value_strings(*content).contains_key(empty) ==> value_strings(*content)[empty]
            == root[content_path()]);
    }
    text
}

/// Classifies one payload of the answer stream.
pub fn classify_payload(data: &str) -> (payload: Payload)
    ensures
        payload@ == payload_of(data@),
{
    if is_terminal(trim(data)) {
        Payload::Terminal
    } else {
        match parse_document(data) {
            Ok(document) => content_payload(delta_content(&document)),
            Err(_) => Payload::Malformed,
        }
    }
}

} // verus!
