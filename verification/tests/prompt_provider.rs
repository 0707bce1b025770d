use nekobot::error::{user_visible_text, Error};
use nekobot::openai::{extract_response, to_payload_messages, Choice, Response, ResponseMessage, Usage};
use nekobot::prompt::{build_prompt, parse_message};
use nekobot::provider::{provider_kind, Message, ProviderKind};
use nekobot::text::{assistant_entry, compose_reply, user_entry};

fn response(choices: Vec<Choice>, usage: Option<Usage>) -> Response {
    Response {
        choices,
        created: 0,
        id: "cmpl-1".to_string(),
        model: "m".to_string(),
        object: None,
        usage,
    }
}

fn choice(content: &str) -> Choice {
    Choice {
        message: ResponseMessage {
            role: "assistant".to_string(),
            content: content.to_string(),
            reasoning_content: None,
            tool_calls: None,
        },
    }
}

#[test]
fn parse_message_decodes_both_roles() {
    assert!(matches!(parse_message("USER:hi"), Ok(Message::User(t)) if t.as_str() == "hi"));
    assert!(
        matches!(parse_message("ASSISTANT:there"), Ok(Message::Assistant(t)) if t.as_str() == "there")
    );
    assert!(matches!(parse_message("USER:"), Ok(Message::User(t)) if t.as_str() == ""));
}

#[test]
fn parse_message_rejects_entries_without_a_prefix() {
    assert_eq!(
        parse_message("user:hi").map(|_| ()),
        Err(Error::MalformedHistoryEntry)
    );
    assert_eq!(parse_message("").map(|_| ()), Err(Error::MalformedHistoryEntry));
    assert_eq!(
        parse_message("ASSISTANT").map(|_| ()),
        Err(Error::MalformedHistoryEntry)
    );
}

#[test]
fn build_prompt_keeps_exactly_the_window() {
    let history = vec![
        "USER:a".to_string(),
        "ASSISTANT:b".to_string(),
        "USER:c".to_string(),
    ];
    let prompt = build_prompt("sys", &history, 2).unwrap();
    assert_eq!(prompt.len(), 3);
    assert!(matches!(&prompt[0], Message::System(t) if t.as_str() == "sys"));
    assert!(matches!(&prompt[1], Message::Assistant(t) if t.as_str() == "b"));
    assert!(matches!(&prompt[2], Message::User(t) if t.as_str() == "c"));
}

#[test]
fn build_prompt_takes_short_histories_whole() {
    let history = vec!["USER:a".to_string()];
    let prompt = build_prompt("sys", &history, 4).unwrap();
    assert_eq!(prompt.len(), 2);
    assert!(matches!(&prompt[1], Message::User(t) if t.as_str() == "a"));
}

#[test]
fn build_prompt_at_the_window_boundary_keeps_everything() {
    let history = vec!["USER:a".to_string(), "ASSISTANT:b".to_string()];
    let prompt = build_prompt("sys", &history, 2).unwrap();
    assert_eq!(prompt.len(), 3);
    assert!(matches!(&prompt[1], Message::User(t) if t.as_str() == "a"));
    assert!(matches!(&prompt[2], Message::Assistant(t) if t.as_str() == "b"));
}

#[test]
fn parse_message_handles_text_beyond_ascii() {
    assert!(
        matches!(parse_message("USER:héllo → ok"), Ok(Message::User(t)) if t.as_str() == "héllo → ok")
    );
}

#[test]
fn build_prompt_fails_on_a_malformed_window_entry() {
    let history = vec!["USER:a".to_string(), "broken".to_string()];
    assert!(matches!(build_prompt("sys", &history, 4), Err(Error::MalformedHistoryEntry)));
}

#[test]
fn build_prompt_ignores_malformed_entries_outside_the_window() {
    let history = vec!["broken".to_string(), "USER:c".to_string()];
    let prompt = build_prompt("sys", &history, 1).unwrap();
    assert_eq!(prompt.len(), 2);
    assert!(matches!(&prompt[1], Message::User(t) if t.as_str() == "c"));
}

#[test]
fn entry_builders_attach_the_role_prefixes() {
    assert_eq!(user_entry("hello"), "USER:hello".to_string());
    assert_eq!(assistant_entry("hi"), "ASSISTANT:hi".to_string());
}

#[test]
fn compose_reply_quotes_the_earlier_message() {
    assert_eq!(
        compose_reply("earlier", "new text"),
        "Reply to: ```\nearlier\n```\nnew text".to_string()
    );
}

#[test]
fn provider_names_match_ignoring_ascii_case() {
    assert_eq!(provider_kind("openai"), Some(ProviderKind::OpenAI));
    assert_eq!(provider_kind("OpenAI"), Some(ProviderKind::OpenAI));
    assert_eq!(provider_kind("OPENAI"), Some(ProviderKind::OpenAI));
}

#[test]
fn unrecognized_provider_names_select_nothing() {
    assert_eq!(provider_kind("llamacpp"), None);
    assert_eq!(provider_kind("openai2"), None);
    assert_eq!(provider_kind(""), None);
}

#[test]
fn payload_messages_carry_wire_role_names() {
    let msgs = vec![
        Message::System("s".to_string()),
        Message::User("u".to_string()),
        Message::Assistant("a".to_string()),
    ];
    let payload = to_payload_messages(&msgs);
    assert_eq!(payload.len(), 3);
    assert_eq!(payload[0].role, "system".to_string());
    assert_eq!(payload[0].content, "s".to_string());
    assert_eq!(payload[1].role, "user".to_string());
    assert_eq!(payload[1].content, "u".to_string());
    assert_eq!(payload[2].role, "assistant".to_string());
    assert_eq!(payload[2].content, "a".to_string());
}

#[test]
fn extract_response_takes_the_first_choice_and_the_usage() {
    let resp = response(
        vec![choice("hi there"), choice("ignored")],
        Some(Usage { completion_tokens: 5, prompt_tokens: 7, total_tokens: 12 }),
    );
    let (text, usage) = extract_response(&resp).unwrap();
    assert_eq!(text, "hi there".to_string());
    let usage = usage.unwrap();
    assert_eq!(usage.completion, 5);
    assert_eq!(usage.prompt, 7);
}

#[test]
fn extract_response_without_usage_reports_none() {
    let resp = response(vec![choice("ok")], None);
    let (text, usage) = extract_response(&resp).unwrap();
    assert_eq!(text, "ok".to_string());
    assert!(usage.is_none());
}

#[test]
fn extract_response_fails_on_an_empty_choice_list() {
    let resp = response(
        Vec::new(),
        Some(Usage { completion_tokens: 1, prompt_tokens: 1, total_tokens: 2 }),
    );
    assert!(matches!(extract_response(&resp), Err(Error::ProviderFailure)));
}

#[test]
fn any_failure_maps_to_the_one_fixed_error_string() {
    assert_eq!(
        user_visible_text(&Ok("hi".to_string()), "Something went wrong."),
        "hi".to_string()
    );
    assert_eq!(
        user_visible_text(&Err(Error::ProviderFailure), "Something went wrong."),
        "Something went wrong.".to_string()
    );
    assert_eq!(
        user_visible_text(&Err(Error::ChannelClosed), "Something went wrong."),
        "Something went wrong.".to_string()
    );
}

#[test]
fn error_messages_name_each_failure_kind() {
    assert_eq!(Error::AdmissionRejected.message(), "queue is full");
    assert_eq!(Error::UnsupportedPayload.message(), "unsupported payload");
    assert_eq!(Error::MalformedHistoryEntry.message(), "malformed history entry");
    assert_eq!(Error::ProviderFailure.message(), "provider failure");
    assert_eq!(Error::StoreFailure.message(), "store failure");
    assert_eq!(Error::ChannelClosed.message(), "response channel closed");
}
