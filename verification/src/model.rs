//! The rows that the application reads from its store.

use vstd::prelude::*;
use crate::text::option_view;

verus! {

/// A conversation of one user.
#[derive(Debug, Clone)]
pub struct Chat {
    pub id: i64,
    pub name: String,
    pub user_id: i64,
}

/// One turn of a conversation: what the user wrote and, once it has been
/// generated, what the model answered. A pair without an answer is pending.
#[derive(Debug, Clone)]
pub struct ChatMessagePair {
    pub id: i64,
    pub model: String,
    pub message_block_id: i64,
    pub chat_id: i64,
    pub human_message: String,
    pub ai_message: Option<String>,
    pub block_rank: i64,
    pub block_size: i64,
}

/// The mathematical value of a [`Chat`].
pub struct ChatView {
    pub id: int,
    pub name: Seq<char>,
    pub user_id: int,
}

/// The mathematical value of a [`ChatMessagePair`].
pub struct PairView {
    pub id: int,
    pub model: Seq<char>,
    pub message_block_id: int,
    pub chat_id: int,
    pub human_message: Seq<char>,
    pub ai_message: Option<Seq<char>>,
    pub block_rank: int,
    pub block_size: int,
}

impl View for Chat {
    type V = ChatView;

    open spec fn view(&self) -> ChatView {
        ChatView { id: self.id as int, name: self.name@, user_id: self.user_id as int }
    }
}

impl View for ChatMessagePair {
    type V = PairView;

    open spec fn view(&self) -> PairView {
        PairView {
            id: self.id as int,
            model: self.model@,
            message_block_id: self.message_block_id as int,
            chat_id: self.chat_id as int,
            human_message: self.human_message@,
            ai_message: option_view(self.ai_message),
            block_rank: self.block_rank as int,
            block_size: self.block_size as int,
        }
    }
}

impl PairView {
    /// A pair is pending while it has no answer.
    pub open spec fn is_pending(self) -> bool {
        self.ai_message is None
    }
}

/// The values of a sequence of pairs.
pub open spec fn pair_views(pairs: Seq<ChatMessagePair>) -> Seq<PairView> {
    pairs.map_values(|p: ChatMessagePair| p@)
}

impl ChatMessagePair {
    /// Whether the pair still waits for its answer.
    pub fn is_pending(&self) -> (r: bool)
        ensures
            r == self@.is_pending(),
    {
        self.ai_message.is_none()
    }
}

} // verus!
