use cc_bot::hub::{build_hub_messages, into_ai_message, AIMessageHandler, AiHandler};
use cc_bot::model::DiscordMessage;

fn msg(id: u64, author_id: u64, bot: bool, content: &str) -> DiscordMessage {
    DiscordMessage {
        id,
        author_id,
        author_is_bot: bot,
        is_private: false,
        timestamp: "2024-01-02T03:04:05Z".to_string(),
        content: content.to_string(),
    }
}

#[test]
fn hub_answers_mentions_but_not_registration() {
    let h = AiHandler;
    assert!(h.on_message(1, 9, &vec![9], "hello"));
    assert!(h.on_message(1, 9, &vec![9], "!hello"));
    assert!(!h.on_message(1, 9, &vec![9], "@bot reg"));
    assert!(!h.on_message(1, 9, &vec![2], "hello"));
    assert!(!h.on_message(9, 9, &vec![9], "hello"));
}

#[test]
fn hub_history_keeps_user_and_bot_messages() {
    let h = AiHandler;
    let history = vec![msg(1, 5, false, "mine"), msg(2, 6, false, "other"), msg(3, 9, true, "bot"), msg(4, 5, false, "/cmd")];
    let kept: Vec<u64> = h.chat_history(&history, 5).iter().map(|m| m.id).collect();
    assert_eq!(kept, vec![1, 3]);
}

#[test]
fn hub_texts() {
    let h = AiHandler;
    assert_eq!(h.reply_text(5, "answer"), "<@5> answer");
    assert_eq!(h.regenerate_button_id(), "re.generate");
    assert_eq!(h.regenerate_button_label(), "重新生成");
    assert!(h.is_regenerate_request("re.generate"));
    assert!(!h.is_regenerate_request("other"));
    let m = into_ai_message(&msg(1, 2, true, "hi"));
    assert_eq!(m.role(), "assistant");
    assert_eq!(
        m.content(),
        "SYSTEM：以下内容为补充参考信息\r\n```message_id:1\r\nmessage_author_id:2\r\nmessage_times_map:2024-01-02T03:04:05Z\r\n```SYSTEM:补充说明结束，以下是用户内容\r\nhi"
    );
    let c = build_hub_messages("P", &vec![msg(1, 2, false, "x")], "q");
    let roles: Vec<&str> = c.iter().map(|m| m.role()).collect();
    assert_eq!(roles, vec!["system", "user", "system", "user"]);
}

#[test]
fn mention_handler() {
    let h = AIMessageHandler;
    assert!(h.on_message(1, 9, &vec![3, 9]));
    assert!(!h.on_message(9, 9, &vec![9]));
    assert!(!h.on_message(1, 9, &vec![]));
    let c = h.conversation("hi");
    assert_eq!((c.len(), c[0].role(), c[0].content()), (1, "user", "hi"));
    assert_eq!(h.reply_text(4, "ok"), "<@4>**ok**");
    assert_eq!(h.reply_text(4, "a**b"), "<@4>**a b**");
    assert_eq!(h.reply_text_with(4, "x"), "<@4>x");
}
