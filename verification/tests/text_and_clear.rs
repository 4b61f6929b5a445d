use cc_bot::clear::{clear_targets, cleared_reply, nothing_to_clear_reply, too_many_reply, ClearAction, ClearHandler};
use cc_bot::model::DiscordMessage;
use cc_bot::text::{chars_of, ends_with, parse_u8_chars, push_decimal, split_whitespace, starts_with, str_eq};

fn msg(id: u64, author_id: u64, bot: bool, private: bool, content: &str) -> DiscordMessage {
    DiscordMessage {
        id,
        author_id,
        author_is_bot: bot,
        is_private: private,
        timestamp: "2024-01-02T03:04:05Z".to_string(),
        content: content.to_string(),
    }
}

fn parse(s: &str) -> Option<u8> {
    parse_u8_chars(&chars_of(s))
}

#[test]
fn decimal_text_of_ids() {
    let mut s = String::from("id=");
    push_decimal(&mut s, 0);
    assert_eq!(s, "id=0");
    let mut t = String::new();
    push_decimal(&mut t, 18446744073709551615);
    assert_eq!(t, "18446744073709551615");
    let mut u = String::new();
    push_decimal(&mut u, 1234567890);
    assert_eq!(u, "1234567890");
}

#[test]
fn words_split_on_unicode_white_space() {
    let ws: Vec<String> = split_whitespace("  !clear\t 5 \u{3000}x\n")
        .into_iter()
        .map(|w| w.into_iter().collect())
        .collect();
    assert_eq!(ws, vec!["!clear", "5", "x"]);
    assert!(split_whitespace("").is_empty());
    assert!(split_whitespace(" \u{a0} ").is_empty());
}

#[test]
fn u8_parsing_follows_from_str() {
    assert_eq!(parse("0"), Some(0));
    assert_eq!(parse("255"), Some(255));
    assert_eq!(parse("+7"), Some(7));
    assert_eq!(parse("0012"), Some(12));
    assert_eq!(parse("256"), None);
    assert_eq!(parse("1000"), None);
    assert_eq!(parse("-1"), None);
    assert_eq!(parse("+"), None);
    assert_eq!(parse(""), None);
    assert_eq!(parse("1a"), None);
    assert_eq!(parse("١"), None);
    for n in 0..=255u8 {
        assert_eq!(parse(&n.to_string()), Some(n));
        assert_eq!(parse(&n.to_string()), n.to_string().parse::<u8>().ok());
    }
}

#[test]
fn prefix_and_suffix_tests() {
    assert!(starts_with("!clear 5", "!clear"));
    assert!(!starts_with("!cle", "!clear"));
    assert!(ends_with("please reg", "reg"));
    assert!(!ends_with("re", "reg"));
    assert!(starts_with("", ""));
    assert!(str_eq("playing", "playing"));
    assert!(!str_eq("playing", "play"));
}

#[test]
fn clear_command_decisions() {
    let h = ClearHandler;
    assert_eq!(h.on_message(1, 2, "!clear 5"), ClearAction::Fetch { limit: 5 });
    assert_eq!(h.on_message(1, 2, "!clear  100"), ClearAction::Fetch { limit: 100 });
    assert_eq!(h.on_message(1, 2, "!clear 101"), ClearAction::RejectTooMany);
    assert_eq!(h.on_message(1, 2, "!clear 0"), ClearAction::Ignore);
    assert_eq!(h.on_message(1, 2, "!clear 1 2"), ClearAction::Ignore);
    assert_eq!(h.on_message(1, 2, "hello"), ClearAction::Ignore);
    assert_eq!(h.on_message(2, 2, "!clear 5"), ClearAction::Ignore);
    assert_eq!(h.on_message(1, 2, "!clearall 3"), ClearAction::Fetch { limit: 3 });
    assert!(h.message_is_well_formed(1, 2, "!clear 5"));
    assert!(h.message_is_well_formed(1, 2, "!clear 1 2"));
    assert!(h.message_is_well_formed(2, 2, "!clear"));
    assert!(!h.message_is_well_formed(1, 2, "!clear"));
    assert!(!h.message_is_well_formed(1, 2, "!clear 300"));
    assert!(!h.message_is_well_formed(1, 2, "!clear x"));
}

#[test]
fn clear_deletes_only_bot_messages() {
    let h = ClearHandler;
    let history = vec![msg(10, 1, false, false, "a"), msg(11, 9, true, false, "b"), msg(12, 9, true, false, "c")];
    assert_eq!(h.messages_to_delete(&history), vec![11, 12]);
    assert_eq!(h.messages_to_delete(&Vec::new()), Vec::<u64>::new());
}

#[test]
fn slash_clear_skips_users_private_messages() {
    let history = vec![msg(1, 1, false, true, "a"), msg(2, 9, true, true, "b"), msg(3, 1, false, false, "c")];
    assert_eq!(clear_targets(&history), vec![2, 3]);
    assert_eq!(cleared_reply(3), "已删除3条消息");
    assert_eq!(nothing_to_clear_reply(), "没有找到可删除的消息");
    assert_eq!(too_many_reply(), "参数错误，必须在100以下");
}
