use cc_bot::ai_chat::{
    build_chat_messages, chat_reply, chat_reply_from_body, thinking_failed_message, thinking_message, AIMessage, AiAction, AiHandler,
    ChatError, HISTORY_LIMIT, answer_content, AnswerStep,
};
use cc_bot::json::JsonValue;
use cc_bot::model::mentions_user;
use cc_bot::model::DiscordMessage;

fn msg(id: u64, author_id: u64, bot: bool, content: &str) -> DiscordMessage {
    DiscordMessage {
        id,
        author_id,
        author_is_bot: bot,
        is_private: false,
        timestamp: "2024-01-02T03:04:05Z".to_string(),
        content: content.to_string(),
    }
}

#[test]
fn ai_message_new_keeps_role_and_content() {
    let m = AIMessage::new("system", "以下是用户的最新输入");
    assert_eq!(m.role(), "system");
    assert_eq!(m.content(), "以下是用户的最新输入");
}

#[test]
fn history_message_text() {
    let m = AIMessage::map_ai_message(&msg(7, 42, false, "hi"));
    assert_eq!(m.role(), "user");
    assert_eq!(
        m.content(),
        "SYSTEM：以下内容为补充参考信息:\r\nmessage_id:7\r\nuser_id:42\r\nmessage_times_map:2024-01-02T03:04:05Z\r\n\n        SYSTEM:补充说明结束，以下是用户内容\r\n\\hi"
    );
    let b = AIMessage::map_ai_message(&msg(8, 1, true, "yo"));
    assert_eq!(b.role(), "assistant");
}

#[test]
fn conversation_layout() {
    let history = vec![msg(1, 2, false, "a"), msg(3, 4, true, "b")];
    let c = build_chat_messages("PROMPT", &history, "question", true, true);
    let roles: Vec<&str> = c.iter().map(|m| m.role()).collect();
    assert_eq!(roles, vec!["system", "user", "assistant", "system", "assistant", "system", "user"]);
    assert_eq!(c[0].content(), "PROMPT");
    assert_eq!(c[3].content(), "这里是用户在对你私聊，不能使用@");
    assert_eq!(c[4].content(), "思考中...");
    assert_eq!(c[5].content(), "以下是用户的最新输入");
    assert_eq!(c[6].content(), "question");
    let plain = build_chat_messages("P", &Vec::new(), "q", false, false);
    assert_eq!(plain.len(), 3);
}

#[test]
fn which_messages_are_answered() {
    let h = AiHandler;
    assert_eq!(h.on_message(false, 1, 9, &vec![9], "hello"), AiAction::Answer { private_chat: false });
    assert_eq!(h.on_message(false, 1, 9, &vec![3], "hello"), AiAction::Ignore);
    assert_eq!(h.on_message(false, 1, 9, &vec![], "hello"), AiAction::Ignore);
    assert_eq!(h.on_message(false, 9, 9, &vec![9], "hello"), AiAction::Ignore);
    assert_eq!(h.on_message(false, 1, 9, &vec![9], "<@9> reg"), AiAction::Ignore);
    assert_eq!(h.on_message(false, 1, 9, &vec![9], "!clear 3"), AiAction::Ignore);
    assert_eq!(h.on_message(true, 1, 9, &vec![], "hello"), AiAction::Answer { private_chat: true });
    assert_eq!(h.on_message(true, 1, 9, &vec![], "!x"), AiAction::Ignore);
    assert_eq!(h.on_message(true, 9, 9, &vec![], "hello"), AiAction::Ignore);
}

#[test]
fn history_drops_slash_commands() {
    let h = AiHandler;
    let history = vec![msg(1, 2, false, "/clear 3"), msg(2, 2, false, "ok"), msg(3, 9, true, "/x")];
    let kept = h.chat_history(&history, 2);
    assert_eq!(kept.len(), 1);
    assert_eq!(kept[0].id, 2);
}

#[test]
fn history_keeps_the_users_and_the_bots_messages() {
    let h = AiHandler;
    let history = vec![
        msg(1, 2, false, "mine"),
        msg(2, 3, false, "someone else's"),
        msg(3, 9, true, "the bot's"),
        msg(4, 2, false, "/prompt"),
        msg(5, 2, false, "mine again"),
    ];
    let kept: Vec<u64> = h.chat_history(&history, 2).iter().map(|m| m.id).collect();
    assert_eq!(kept, vec![1, 3, 5]);
    assert_eq!(HISTORY_LIMIT, 50);
}

#[test]
fn reply_from_the_answer_body() {
    let ok = r#"{"choices":[{"message":{"content":"hi"}}]}"#;
    assert_eq!(chat_reply_from_body(true, "200 OK", ok), Ok("hi".to_string()));
    assert_eq!(chat_reply_from_body(true, "200 OK", "{}"), Err(ChatError::InvalidResponseFormat));
    assert_eq!(
        chat_reply_from_body(true, "200 OK", r#"{"choices":[{"message":{"content":7}}]}"#),
        Err(ChatError::InvalidResponseFormat)
    );
    assert!(matches!(chat_reply_from_body(true, "200 OK", "not json"), Err(ChatError::InvalidJson { .. })));
    assert_eq!(
        chat_reply_from_body(false, "500 Internal Server Error", ok),
        Err(ChatError::RequestFailed { status: "500 Internal Server Error".to_string() })
    );
    let e = chat_reply_from_body(true, "200 OK", "not json").unwrap_err();
    assert!(!e.message().is_empty());
}

#[test]
fn short_answers_are_posted_whole() {
    let h = AiHandler;
    let r = "a".repeat(1500);
    assert_eq!(h.reply_parts(&r, 5), vec![r.clone()]);
    assert_eq!(h.reply_parts("", 5), vec![String::new()]);
}

#[test]
fn long_answers_are_posted_in_parts() {
    let h = AiHandler;
    let r: String = (0..3100).map(|i| char::from(b'a' + (i % 26) as u8)).collect();
    let parts = h.reply_parts(&r, 77);
    assert_eq!(parts.len(), 3);
    assert_eq!(parts[0], r[..1500]);
    assert_eq!(parts[1], format!("<@77> {}", &r[1500..3000]));
    assert_eq!(parts[2], format!("<@77> {}", &r[3000..]));
    // 600 three-byte characters: 1800 bytes, but one part of 600 characters.
    let wide = "字".repeat(600);
    let p = h.reply_parts(&wide, 1);
    assert_eq!(p, vec![wide.clone()]);
}

#[test]
fn chat_outcomes() {
    assert_eq!(chat_reply(true, "200 OK", Some("hi")), Ok("hi".to_string()));
    assert_eq!(chat_reply(true, "200 OK", None), Err(ChatError::InvalidResponseFormat));
    let e = chat_reply(false, "500 Internal Server Error", Some("x")).unwrap_err();
    assert_eq!(e.message(), "Request failed with status: 500 Internal Server Error");
    assert_eq!(ChatError::InvalidResponseFormat.message(), "Invalid response format");
    assert_eq!(thinking_message(), "请稍等，我正在思考...");
    assert_eq!(thinking_failed_message("timeout"), "思考失败，请联系管理员检查机器人。原因是：timeout");
}

fn obj(entries: Vec<(&str, JsonValue)>) -> JsonValue {
    JsonValue::Object(entries.into_iter().map(|(k, v)| (k.to_string(), v)).collect())
}

#[test]
fn answer_content_reads_the_first_choice() {
    let answer = |content: JsonValue| {
        obj(vec![("choices", JsonValue::Array(vec![obj(vec![("message", obj(vec![("content", content)]))])]))])
    };
    assert_eq!(answer_content(&answer(JsonValue::Str("hi".to_string()))).as_deref(), Some("hi"));
    assert_eq!(answer_content(&answer(JsonValue::Number("7".to_string()))), None);
    assert_eq!(answer_content(&answer(JsonValue::Null)), None);
    assert_eq!(answer_content(&obj(vec![("choices", JsonValue::Array(vec![]))])), None);
    assert_eq!(answer_content(&obj(vec![("id", JsonValue::Bool(true))])), None);
    assert_eq!(answer_content(&JsonValue::Array(vec![])), None);
    let two = obj(vec![(
        "choices",
        JsonValue::Array(vec![
            obj(vec![("message", obj(vec![("role", JsonValue::Str("assistant".to_string())), ("content", JsonValue::Str("first".to_string()))]))]),
            obj(vec![("message", obj(vec![("content", JsonValue::Str("second".to_string()))]))]),
        ]),
    )]);
    assert_eq!(answer_content(&two).as_deref(), Some("first"));
}

#[test]
fn answer_step_posts_parts_or_reports() {
    let h = AiHandler;
    match h.answer_step(Ok("hello".to_string()), 5) {
        AnswerStep::PostParts { parts } => assert_eq!(parts, vec!["hello".to_string()]),
        AnswerStep::ReportFailure { .. } => panic!("an answer is posted"),
    }
    match h.answer_step(Err("思考超时".to_string()), 5) {
        AnswerStep::ReportFailure { notice } => assert_eq!(notice, "思考失败，请联系管理员检查机器人。原因是：思考超时"),
        AnswerStep::PostParts { .. } => panic!("a failure is reported"),
    }
}

#[test]
fn mentions_are_searched() {
    assert!(mentions_user(&vec![3, 9, 4], 9));
    assert!(!mentions_user(&vec![3, 4], 9));
    assert!(!mentions_user(&vec![], 9));
}

#[test]
fn reply_with_a_numeric_first_key_and_nested_content() {
    let body = r#"{"id":"x","choices":[{"index":0,"message":{"role":"assistant","content":"多行\n回答"}}],"usage":{"total_tokens":12}}"#;
    assert_eq!(chat_reply_from_body(true, "200 OK", body), Ok("多行\n回答".to_string()));
    assert_eq!(chat_reply_from_body(true, "200 OK", r#"{"choices":[]}"#), Err(ChatError::InvalidResponseFormat));
    assert_eq!(chat_reply_from_body(true, "200 OK", r#"[1,2]"#), Err(ChatError::InvalidResponseFormat));
}
