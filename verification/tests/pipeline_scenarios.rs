use nekobot::error::Error;
use nekobot::pipeline::{plan_task, run_task, CompletionTask, CompletionType, PipelineConfig, PlanAction, StoreOp};
use nekobot::provider::{Message, Usage};
use nekobot::store::Store;

fn config() -> PipelineConfig {
    PipelineConfig {
        system_prompt: "sys".to_string(),
        context_length: 4,
        reset_msg: "Conversation reset.".to_string(),
    }
}

fn text_task(chat_id: i64, user_id: u64, msg: &str) -> CompletionTask {
    CompletionTask { chat_id, user_id, data: CompletionType::Text { msg: msg.to_string() } }
}

#[test]
fn chat_round_trip_persists_both_entries() {
    let mut store = Store::new();
    let task = text_task(1, 9, "hello");
    let r = run_task(&mut store, &config(), &task, Ok(("hi there".to_string(), None)));
    assert_eq!(r, Ok("hi there".to_string()));
    assert_eq!(
        store.get_messages(1),
        vec!["USER:hello".to_string(), "ASSISTANT:hi there".to_string()]
    );
}

#[test]
fn regenerate_replaces_last_reply() {
    let mut store = Store::new();
    store.add_message(1, "USER:a".to_string());
    store.add_message(1, "ASSISTANT:b".to_string());
    let task = text_task(1, 9, "/regenerate");
    let r = run_task(&mut store, &config(), &task, Ok(("c".to_string(), None)));
    assert_eq!(r, Ok("c".to_string()));
    assert_eq!(store.get_messages(1), vec!["USER:a".to_string(), "ASSISTANT:c".to_string()]);
}

#[test]
fn regenerate_prompt_excludes_last_reply() {
    let history = vec!["USER:a".to_string(), "ASSISTANT:b".to_string()];
    let plan = plan_task(&config(), &history, &CompletionType::Text { msg: "/regenerate".to_string() })
        .unwrap();
    assert!(matches!(plan.store_ops.as_slice(), [StoreOp::PopLast]));
    match plan.action {
        PlanAction::Call(prompt) => {
            assert_eq!(prompt.len(), 2);
            assert!(matches!(&prompt[0], Message::System(t) if t.as_str() == "sys"));
            assert!(matches!(&prompt[1], Message::User(t) if t.as_str() == "a"));
        }
        PlanAction::Respond(_) => panic!("regenerate must call the provider"),
    }
}

#[test]
fn regenerate_on_empty_history_is_a_noop_pop() {
    let mut store = Store::new();
    let task = text_task(5, 9, "/regenerate");
    let r = run_task(&mut store, &config(), &task, Ok(("x".to_string(), None)));
    assert_eq!(r, Ok("x".to_string()));
    assert_eq!(store.get_messages(5), vec!["ASSISTANT:x".to_string()]);
}

#[test]
fn reset_clears_history_and_skips_the_provider() {
    let mut store = Store::new();
    store.add_message(1, "USER:a".to_string());
    store.add_message(1, "ASSISTANT:b".to_string());
    let task = text_task(1, 9, "/reset");
    // The provider's answer is irrelevant: even a failure value is never
    // looked at, because a reset answers immediately.
    let r = run_task(&mut store, &config(), &task, Err(Error::ProviderFailure));
    assert_eq!(r, Ok("Conversation reset.".to_string()));
    assert_eq!(store.get_messages(1), Vec::<String>::new());
}

#[test]
fn retry_appends_no_user_entry() {
    let mut store = Store::new();
    store.add_message(1, "USER:a".to_string());
    let task = text_task(1, 9, "/retry");
    let r = run_task(&mut store, &config(), &task, Ok(("b2".to_string(), None)));
    assert_eq!(r, Ok("b2".to_string()));
    assert_eq!(store.get_messages(1), vec!["USER:a".to_string(), "ASSISTANT:b2".to_string()]);
}

#[test]
fn retry_plans_no_store_mutation() {
    let history = vec!["USER:a".to_string(), "ASSISTANT:b".to_string()];
    let plan =
        plan_task(&config(), &history, &CompletionType::Text { msg: "/retry".to_string() }).unwrap();
    assert!(plan.store_ops.is_empty());
    match plan.action {
        PlanAction::Call(prompt) => {
            assert_eq!(prompt.len(), 3);
            assert!(matches!(&prompt[1], Message::User(t) if t.as_str() == "a"));
            assert!(matches!(&prompt[2], Message::Assistant(t) if t.as_str() == "b"));
        }
        PlanAction::Respond(_) => panic!("retry must call the provider"),
    }
}

#[test]
fn prompt_window_keeps_only_the_last_entries() {
    let cfg = PipelineConfig {
        system_prompt: "sys".to_string(),
        context_length: 2,
        reset_msg: "r".to_string(),
    };
    let history = vec![
        "USER:old".to_string(),
        "ASSISTANT:b".to_string(),
        "USER:c".to_string(),
    ];
    let plan =
        plan_task(&cfg, &history, &CompletionType::Text { msg: "hello".to_string() }).unwrap();
    assert!(matches!(plan.store_ops.as_slice(), [StoreOp::Append(e)] if e.as_str() == "USER:hello"));
    match plan.action {
        PlanAction::Call(prompt) => {
            assert_eq!(prompt.len(), 4);
            assert!(matches!(&prompt[0], Message::System(t) if t.as_str() == "sys"));
            assert!(matches!(&prompt[1], Message::Assistant(t) if t.as_str() == "b"));
            assert!(matches!(&prompt[2], Message::User(t) if t.as_str() == "c"));
            assert!(matches!(&prompt[3], Message::User(t) if t.as_str() == "hello"));
        }
        PlanAction::Respond(_) => panic!("plain text must call the provider"),
    }
}

#[test]
fn usage_is_added_exactly() {
    let mut store = Store::new();
    let task = text_task(1, 9, "hello");
    let usage = Some(Usage { completion: 5, prompt: 7 });
    let r = run_task(&mut store, &config(), &task, Ok(("hi".to_string(), usage)));
    assert_eq!(r, Ok("hi".to_string()));
    let rec = store.get_user(9);
    assert_eq!(rec.completion_tokens, 5);
    assert_eq!(rec.prompt_tokens, 7);
}

#[test]
fn absent_usage_leaves_counters_unchanged() {
    let mut store = Store::new();
    store.increase_token(9, 3, 4);
    let task = text_task(1, 9, "hello");
    let r = run_task(&mut store, &config(), &task, Ok(("hi".to_string(), None)));
    assert_eq!(r, Ok("hi".to_string()));
    let rec = store.get_user(9);
    assert_eq!(rec.completion_tokens, 3);
    assert_eq!(rec.prompt_tokens, 4);
}

#[test]
fn malformed_history_fails_before_any_mutation() {
    let mut store = Store::new();
    store.add_message(1, "bogus".to_string());
    let task = text_task(1, 9, "hello");
    let r = run_task(&mut store, &config(), &task, Ok(("hi".to_string(), None)));
    assert_eq!(r, Err(Error::MalformedHistoryEntry));
    assert_eq!(store.get_messages(1), vec!["bogus".to_string()]);
}

#[test]
fn image_payload_is_rejected() {
    let mut store = Store::new();
    let task = CompletionTask {
        chat_id: 1,
        user_id: 9,
        data: CompletionType::Image { data: vec![1, 2, 3] },
    };
    let r = run_task(&mut store, &config(), &task, Ok(("hi".to_string(), None)));
    assert_eq!(r, Err(Error::UnsupportedPayload));
    assert_eq!(store.get_messages(1), Vec::<String>::new());
}

#[test]
fn provider_failure_propagates_after_persisting_the_input() {
    let mut store = Store::new();
    let task = text_task(1, 9, "hello");
    let r = run_task(&mut store, &config(), &task, Err(Error::ProviderFailure));
    assert_eq!(r, Err(Error::ProviderFailure));
    assert_eq!(store.get_messages(1), vec!["USER:hello".to_string()]);
}

#[test]
fn other_slash_commands_are_ordinary_text() {
    let mut store = Store::new();
    let task = text_task(1, 9, "/help");
    let r = run_task(&mut store, &config(), &task, Ok(("sure".to_string(), None)));
    assert_eq!(r, Ok("sure".to_string()));
    assert_eq!(
        store.get_messages(1),
        vec!["USER:/help".to_string(), "ASSISTANT:sure".to_string()]
    );
}

#[test]
fn tasks_for_different_chats_do_not_mix() {
    let mut store = Store::new();
    let r1 = run_task(&mut store, &config(), &text_task(1, 9, "a"), Ok(("ra".to_string(), None)));
    let r2 = run_task(&mut store, &config(), &text_task(2, 9, "b"), Ok(("rb".to_string(), None)));
    assert_eq!(r1, Ok("ra".to_string()));
    assert_eq!(r2, Ok("rb".to_string()));
    assert_eq!(store.get_messages(1), vec!["USER:a".to_string(), "ASSISTANT:ra".to_string()]);
    assert_eq!(store.get_messages(2), vec!["USER:b".to_string(), "ASSISTANT:rb".to_string()]);
}
