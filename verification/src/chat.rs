//! The rules of the chat pages: the catalogue of models, how a history is
//! prepared for display, and what a generation needs before it starts.

use vstd::prelude::*;
use vstd::string::StringExecFns;
use crate::markdown::{markdown_html, render_markdown};
use crate::model::{pair_views, ChatMessagePair, PairView};
use crate::text::{decimal, decimal_text, same_text};

verus! {

/// The model that a new chat proposes.
pub const DEFAULT_MODEL: &'static str = "gpt-4";

/// Where the page of a chat lives, before its number.
pub const CHAT_PATH: &'static str = "/chat/";

/// The fragment that replaces a deleted chat in the list.
pub const DELETED_FRAGMENT: &'static str = "<div class=\"hidden\"></div>";

/// What the body of every error response of the chat handlers says.
pub const CHAT_ERROR_MESSAGE: &'static str = "Chat Errror";

/// Why a chat request failed.
#[derive(Debug, Clone, Copy, PartialEq, Eq, Structural)]
pub enum ChatError {
    /// The store or the request was at fault.
    Other,
    /// The provider does not accept the user's credential.
    InvalidAPIKey,
}

impl ChatError {
    /// The HTTP status of the response: 401 for a refused credential, 400
    /// otherwise.
    pub open spec fn status(self) -> u16 {
        match self {
            ChatError::Other => 400,
            ChatError::InvalidAPIKey => 401,
        }
    }

    /// The HTTP status of the response.
    pub fn status_code(&self) -> (code: u16)
        ensures
            code == self.status(),
    {
        match self {
            ChatError::Other => 400,
            ChatError::InvalidAPIKey => 401,
        }
    }

    /// The body of the response.
    pub fn message(&self) -> (message: &'static str)
        ensures
            message@ == CHAT_ERROR_MESSAGE@,
    {
        CHAT_ERROR_MESSAGE
    }
}

/// The form that opens a chat.
#[derive(Debug, Clone)]
pub struct NewChat {
    pub message: String,
    pub model: String,
}

/// The form that adds a message to a chat.
#[derive(Debug, Clone)]
pub struct ChatAddMessage {
    pub message: String,
}

/// A model that the user can choose.
#[derive(Debug, Clone, Copy)]
pub struct ModelChoice {
    pub name: &'static str,
    pub id: &'static str,
    pub description: &'static str,
}

/// The mathematical value of a [`ModelChoice`].
pub struct ChoiceView {
    pub name: Seq<char>,
    pub id: Seq<char>,
    pub description: Seq<char>,
}

impl View for ModelChoice {
    type V = ChoiceView;

    open spec fn view(&self) -> ChoiceView {
        ChoiceView { name: self.name@, id: self.id@, description: self.description@ }
    }
}

/// The values of a sequence of choices.
pub open spec fn choice_views(choices: Seq<ModelChoice>) -> Seq<ChoiceView> {
    choices.map_values(|c: ModelChoice| c@)
}

/// The models on offer, in the order in which they are shown.
pub open spec fn catalogue() -> Seq<ChoiceView> {
    seq![
        ChoiceView {
            name: "GPT-4-Preview"@,
            id: "gpt-4-1106-preview"@,
            description: "This is the preview version of the GPT-4 model."@,
        },
        ChoiceView {
            name: "GPT-4"@,
            id: "gpt-4"@,
            description: "Latest generation GPT-4 model."@,
        },
        ChoiceView {
            name: "GPT-3.5-16K"@,
            id: "gpt-3.5-turbo-16k"@,
            description: "An enhanced GPT-3.5 model with 16K token limit."@,
        },
        ChoiceView {
            name: "GPT-3.5"@,
            id: "gpt-3.5-turbo"@,
            description: "Standard GPT-3.5 model with turbo features."@,
        },
    ]
}

/// The first choice with the given identifier, if there is one.
pub open spec fn first_with_id(choices: Seq<ChoiceView>, id: Seq<char>) -> Option<ChoiceView>
    decreases choices.len(),
{
    if choices.len() == 0 {
        None
    } else if choices.first().id == id {
        Some(choices.first())
    } else {
        first_with_id(choices.drop_first(), id)
    }
}

/// The view of an optional choice.
pub open spec fn optional_choice(choice: Option<ModelChoice>) -> Option<ChoiceView> {
    match choice {
        Some(c) => Some(c@),
        None => None,
    }
}

/// The models on offer.
pub fn models() -> (choices: Vec<ModelChoice>)
    ensures
        choice_views(choices@) == catalogue(),
{
    let mut choices: Vec<ModelChoice> = Vec::new();
    choices.push(
        ModelChoice {
            name: "GPT-4-Preview",
            id: "gpt-4-1106-preview",
            description: "This is the preview version of the GPT-4 model.",
        },
    );
    choices.push(
        ModelChoice { name: "GPT-4", id: "gpt-4", description: "Latest generation GPT-4 model." },
    );
    choices.push(
        ModelChoice {
            name: "GPT-3.5-16K",
            id: "gpt-3.5-turbo-16k",
            description: "An enhanced GPT-3.5 model with 16K token limit.",
        },
    );
    choices.push(
        ModelChoice {
            name: "GPT-3.5",
            id: "gpt-3.5-turbo",
            description: "Standard GPT-3.5 model with turbo features.",
        },
    );
    assert(choice_views(choices@) =~= catalogue());
    choices
}

/// Looks a model up in the catalogue by its identifier.
pub fn find_model(id: &str) -> (choice: Option<ModelChoice>)
    ensures
        optional_choice(choice) == first_with_id(catalogue(), id@),
{
    let choices = models();
    let ghost views = choice_views(choices@);
    let mut i: usize = 0;
    assert(views.skip(0) =~= views);
    while i < choices.len()
        invariant
            i <= choices.len(),
            views == choice_views(choices@),
            views == catalogue(),
            first_with_id(catalogue(), id@) == first_with_id(views.skip(i as int), id@),
        decreases choices.len() - i,
    {
        let candidate = choices[i];
        proof {
            assert(views.skip(i as int).first() == candidate@);
            assert(views.skip(i as int).drop_first() =~= views.skip(i + 1));
        }
        if same_text(candidate.id, id) {
            return Some(candidate);
        }
        i = i + 1;
    }
    assert(views.skip(i as int) =~= Seq::<ChoiceView>::empty());
    None
}

/// The model of a chat: the catalogue entry for the model of its first pair.
/// `None` where the chat has no pair or its model is not in the catalogue.
pub open spec fn chat_model_of(pairs: Seq<PairView>) -> Option<ChoiceView> {
    if pairs.len() == 0 {
        None
    } else {
        first_with_id(catalogue(), pairs[0].model)
    }
}

/// The model that the page of a chat shows as selected.
pub fn chat_model(pairs: &Vec<ChatMessagePair>) -> (choice: Option<ModelChoice>)
    ensures
        optional_choice(choice) == chat_model_of(pair_views(pairs@)),
{
    if pairs.len() == 0 {
        None
    } else {
        find_model(pairs[0].model.as_str())
    }
}

/// A pair prepared for display: its messages rendered to HTML.
#[derive(Debug, Clone)]
pub struct ParsedMessagePair {
    pub pair: ChatMessagePair,
    pub human_message_html: String,
    pub ai_message_html: String,
}

/// The mathematical value of a [`ParsedMessagePair`].
pub struct ParsedView {
    pub pair: PairView,
    pub human_message_html: Seq<char>,
    pub ai_message_html: Seq<char>,
}

impl View for ParsedMessagePair {
    type V = ParsedView;

    open spec fn view(&self) -> ParsedView {
        ParsedView {
            pair: self.pair@,
            human_message_html: self.human_message_html@,
            ai_message_html: self.ai_message_html@,
        }
    }
}

/// A pair prepared for display: both messages rendered, a missing answer as
/// the empty text.
pub open spec fn parsed_of(pair: PairView) -> ParsedView {
    ParsedView {
        pair,
        human_message_html: markdown_html(pair.human_message),
        ai_message_html: markdown_html(
            match pair.ai_message {
                Some(answer) => answer,
                None => Seq::empty(),
            },
        ),
    }
}

/// A copy of a pair.
pub fn copy_pair(pair: &ChatMessagePair) -> (copy: ChatMessagePair)
    ensures
        copy@ == pair@,
{
    let ai_message = match &pair.ai_message {
        Some(answer) => Some(answer.clone()),
        None => None,
    };
    ChatMessagePair {
        id: pair.id,
        model: pair.model.clone(),
        message_block_id: pair.message_block_id,
        chat_id: pair.chat_id,
        human_message: pair.human_message.clone(),
        ai_message,
        block_rank: pair.block_rank,
        block_size: pair.block_size,
    }
}

/// Prepares one pair for display.
pub fn render_pair(pair: &ChatMessagePair) -> (parsed: ParsedMessagePair)
    ensures
        parsed@ == parsed_of(pair@),
{
    let human_message_html = render_markdown(pair.human_message.as_str());
    let ai_message_html = match &pair.ai_message {
        Some(answer) => render_markdown(answer.as_str()),
        None => render_markdown(""),
    };
    proof {
        reveal_strlit("");
        assert(""@ =~= Seq::<char>::empty());
    }
    ParsedMessagePair { pair: copy_pair(pair), human_message_html, ai_message_html }
}

/// Prepares the history of a chat for display, pair by pair and in order.
pub fn render_pairs(pairs: &Vec<ChatMessagePair>) -> (parsed: Vec<ParsedMessagePair>)
    ensures
        parsed@.len() == pairs@.len(),
        forall|i: int| 0 <= i < pairs@.len() ==> (#[trigger] parsed@[i])@ == parsed_of(pairs@[i]@),
{
    let mut parsed: Vec<ParsedMessagePair> = Vec::new();
    let mut i: usize = 0;
    while i < pairs.len()
        invariant
            i <= pairs.len(),
            parsed@.len() == i,
            forall|j: int| 0 <= j < i ==> (#[trigger] parsed@[j])@ == parsed_of(pairs@[j]@),
        decreases pairs.len() - i,
    {
        parsed.push(render_pair(&pairs[i]));
        i = i + 1;
    }
    parsed
}

/// Checks the outcome of the credential probe that precedes a generation:
/// a failed probe rejects the request before anything is streamed.
pub fn authorize(probe_succeeded: bool) -> (r: Result<(), ChatError>)
    ensures
        r is Ok <==> probe_succeeded,
        r is Err ==> r->Err_0 == ChatError::InvalidAPIKey,
{
    if probe_succeeded {
        Ok(())
    } else {
        Err(ChatError::InvalidAPIKey)
    }
}

/// What a generation works on.
#[derive(Debug, Clone)]
pub struct GenerationTarget {
    /// The pending pair that receives the answer.
    pub pair_id: i64,
    /// The model that generates it.
    pub model: String,
}

/// The mathematical value of a [`GenerationTarget`].
pub struct TargetView {
    pub pair_id: int,
    pub model: Seq<char>,
}

impl View for GenerationTarget {
    type V = TargetView;

    open spec fn view(&self) -> TargetView {
        TargetView { pair_id: self.pair_id as int, model: self.model@ }
    }
}

/// What a generation for a history works on: the answer goes to the last
/// pair, and the model is that of the first. A chat without pairs has no
/// target.
pub open spec fn target_of(pairs: Seq<PairView>) -> Option<TargetView> {
    if pairs.len() == 0 {
        None
    } else {
        Some(TargetView { pair_id: pairs.last().id, model: pairs[0].model })
    }
}

/// The view of an optional target.
pub open spec fn optional_target(target: Option<GenerationTarget>) -> Option<TargetView> {
    match target {
        Some(t) => Some(t@),
        None => None,
    }
}

/// Picks the pair and the model of a generation.
pub fn generation_target(pairs: &Vec<ChatMessagePair>) -> (target: Option<GenerationTarget>)
    ensures
        optional_target(target) == target_of(pair_views(pairs@)),
{
    if pairs.len() == 0 {
        None
    } else {
        let last = &pairs[pairs.len() - 1];
        Some(GenerationTarget { pair_id: last.id, model: pairs[0].model.clone() })
    }
}

/// Where the page of a chat lives.
pub fn chat_location(chat_id: i64) -> (location: String)
    ensures
        location@ == CHAT_PATH@ + decimal_text(chat_id as int),
{
    let mut location = CHAT_PATH.to_owned();
    location.append(decimal(chat_id).as_str());
    location
}

} // verus!
