use gpt_chat::chat::{
    authorize, chat_location, chat_model, copy_pair, find_model, generation_target, models,
    render_pair, render_pairs, ChatError, DEFAULT_MODEL, DELETED_FRAGMENT,
};
use gpt_chat::model::ChatMessagePair;

fn pair(id: i64, model: &str, human: &str, ai: Option<&str>) -> ChatMessagePair {
    ChatMessagePair {
        id,
        chat_id: 1,
        message_block_id: id + 100,
        model: model.to_string(),
        human_message: human.to_string(),
        ai_message: ai.map(|a| a.to_string()),
        block_rank: id,
        block_size: 1,
    }
}

#[test]
fn failed_probe_is_an_authorization_failure() {
    let rejected = authorize(false);
    assert_eq!(rejected, Err(ChatError::InvalidAPIKey));
    assert_eq!(ChatError::InvalidAPIKey.status_code(), 401);
    assert_eq!(authorize(true), Ok(()));
}

#[test]
fn chat_errors_have_their_status() {
    assert_eq!(ChatError::Other.status_code(), 400);
    assert_eq!(ChatError::InvalidAPIKey.status_code(), 401);
    assert_eq!(ChatError::Other.message(), "Chat Errror");
    assert_eq!(ChatError::InvalidAPIKey.message(), "Chat Errror");
}

#[test]
fn catalogue_lists_four_models() {
    let listed: Vec<(&str, &str, &str)> =
        models().iter().map(|m| (m.name, m.id, m.description)).collect();
    assert_eq!(
        listed,
        vec![
            ("GPT-4-Preview", "gpt-4-1106-preview", "This is the preview version of the GPT-4 model."),
            ("GPT-4", "gpt-4", "Latest generation GPT-4 model."),
            ("GPT-3.5-16K", "gpt-3.5-turbo-16k", "An enhanced GPT-3.5 model with 16K token limit."),
            ("GPT-3.5", "gpt-3.5-turbo", "Standard GPT-3.5 model with turbo features."),
        ]
    );
}

#[test]
fn models_are_found_by_identifier() {
    assert_eq!(find_model(DEFAULT_MODEL).map(|m| m.name), Some("GPT-4"));
    assert_eq!(find_model("gpt-3.5-turbo").map(|m| m.name), Some("GPT-3.5"));
    assert_eq!(find_model("gpt-3.5-turbo-16k").map(|m| m.name), Some("GPT-3.5-16K"));
    assert!(find_model("GPT-4").is_none());
    assert!(find_model("").is_none());
}

#[test]
fn chat_shows_the_model_of_its_first_pair() {
    let pairs = vec![pair(1, "gpt-3.5-turbo", "a", None), pair(2, "gpt-4", "b", None)];
    assert_eq!(chat_model(&pairs).map(|m| m.id), Some("gpt-3.5-turbo"));
    assert!(chat_model(&Vec::new()).is_none());
    assert!(chat_model(&vec![pair(1, "unknown", "a", None)]).is_none());
}

#[test]
fn generation_answers_the_last_pair_with_the_first_model() {
    let pairs = vec![
        pair(7, "gpt-4", "a", Some("b")),
        pair(9, "gpt-3.5-turbo", "c", Some("d")),
        pair(12, "gpt-4-1106-preview", "e", None),
    ];
    let target = generation_target(&pairs).expect("a chat with pairs has a target");
    assert_eq!(target.pair_id, 12);
    assert_eq!(target.model, "gpt-4");
    assert!(generation_target(&Vec::new()).is_none());
}

#[test]
fn pairs_are_rendered_for_display() {
    let pairs = vec![pair(1, "gpt-4", "# Hi", Some("*there*")), pair(2, "gpt-4", "again", None)];
    let parsed = render_pairs(&pairs);
    assert_eq!(parsed.len(), 2);
    assert_eq!(parsed[0].human_message_html, "<h1>Hi</h1>\n");
    assert_eq!(parsed[0].ai_message_html, "<p><em>there</em></p>\n");
    assert_eq!(parsed[0].pair.id, 1);
    assert_eq!(parsed[0].pair.ai_message.as_deref(), Some("*there*"));
    assert_eq!(parsed[1].human_message_html, "<p>again</p>\n");
    assert_eq!(parsed[1].ai_message_html, "");
    assert_eq!(parsed[1].pair.human_message, "again");
    assert_eq!(parsed[1].pair.ai_message, None);
}

#[test]
fn one_pair_is_rendered_like_its_place_in_a_history() {
    let single = pair(5, "gpt-4", "`code`", Some("1 < 2"));
    let parsed = render_pair(&single);
    assert_eq!(parsed.human_message_html, "<p><code>code</code></p>\n");
    assert_eq!(parsed.ai_message_html, "<p>1 &lt; 2</p>\n");
    assert_eq!(parsed.pair.message_block_id, 105);
}

#[test]
fn copy_keeps_every_field() {
    let answered = pair(3, "gpt-4", "h", Some("a"));
    let copy = copy_pair(&answered);
    assert_eq!(copy.id, 3);
    assert_eq!(copy.model, "gpt-4");
    assert_eq!(copy.message_block_id, 103);
    assert_eq!(copy.chat_id, 1);
    assert_eq!(copy.human_message, "h");
    assert_eq!(copy.ai_message, Some("a".to_string()));
    assert_eq!(copy.block_rank, 3);
    assert_eq!(copy.block_size, 1);
    assert!(!copy.is_pending());
    assert!(pair(4, "gpt-4", "h", None).is_pending());
}

#[test]
fn chat_pages_live_under_their_number() {
    assert_eq!(chat_location(42), "/chat/42");
    assert_eq!(chat_location(0), "/chat/0");
    assert_eq!(chat_location(-1), "/chat/-1");
    assert_eq!(chat_location(i64::MAX), "/chat/9223372036854775807");
}

#[test]
fn deleted_chat_is_replaced_by_a_hidden_fragment() {
    assert_eq!(DELETED_FRAGMENT, "<div class=\"hidden\"></div>");
}
