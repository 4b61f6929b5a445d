//! The hub handlers: an AI handler that answers mentions with a button to
//! regenerate the answer, an AI handler that answers a mention alone, and the
//! history format they show the model.
use vstd::prelude::*;
use crate::ai_chat::{AIMessage, ai_entry, chat_history, entries_of, latest_input_entry};
use crate::general::bold_safe;
use crate::model::{DiscordMessage, mentions_user};
use crate::text::{decimal, has_suffix, push_decimal, ends_with};

verus! {

/// Answers mentions, then offers to regenerate the answer.
pub struct AiHandler;

/// Answers a mention with the model's answer to that message alone.
pub struct AIMessageHandler;

/// Whether the hub AI handler answers: another user's message that mentions
/// the bot and does not end in `reg`.
pub open spec fn hub_answers(author_id: u64, bot_id: u64, mentions: Seq<u64>, content: Seq<char>) -> bool {
    author_id != bot_id && mentions.contains(bot_id) && !has_suffix(content, "reg"@)
}

/// The text of a history message in the hub conversation.
pub open spec fn hub_history_text(m: DiscordMessage) -> Seq<char> {
    "SYSTEM：以下内容为补充参考信息\r\n```message_id:"@ + decimal(m.id as nat) + "\r\nmessage_author_id:"@
        + decimal(m.author_id as nat) + "\r\nmessage_times_map:"@ + m.timestamp@
        + "\r\n```SYSTEM:补充说明结束，以下是用户内容\r\n"@ + m.content@
}

/// The entry of a history message in the hub conversation.
pub open spec fn hub_history_entry(m: DiscordMessage) -> (Seq<char>, Seq<char>) {
    ai_entry(if m.author_is_bot { "assistant"@ } else { "user"@ }, hub_history_text(m))
}

/// The conversation of the hub handler: system prompt, history, the
/// latest-input note and the user's message.
pub open spec fn hub_conversation(
    system_prompt: Seq<char>,
    history: Seq<DiscordMessage>,
    message: Seq<char>,
) -> Seq<(Seq<char>, Seq<char>)> {
    (seq![ai_entry("system"@, system_prompt)] + history.map_values(|m: DiscordMessage| hub_history_entry(m)))
        .push(latest_input_entry()).push(ai_entry("user"@, message))
}

/// The id of the regenerate button.
pub open spec fn regenerate_id() -> Seq<char> {
    "re.generate"@
}

/// The entry of a history message in the hub conversation.
pub fn into_ai_message(message: &DiscordMessage) -> (m: AIMessage)
    ensures
        m@ == hub_history_entry(*message),
{
    let role = if message.author_is_bot {
        "assistant"
    } else {
        "user"
    };
    let mut content = String::from_str("SYSTEM：以下内容为补充参考信息\r\n```message_id:");
    push_decimal(&mut content, message.id);
    content.append("\r\nmessage_author_id:");
    push_decimal(&mut content, message.author_id);
    content.append("\r\nmessage_times_map:");
    content.append(message.timestamp.as_str());
    content.append("\r\n```SYSTEM:补充说明结束，以下是用户内容\r\n");
    content.append(message.content.as_str());
    AIMessage::new(role, content.as_str())
}

/// The hub conversation sent to the model.
pub fn build_hub_messages(system_prompt: &str, history: &Vec<DiscordMessage>, message: &str) -> (msgs: Vec<AIMessage>)
    ensures
        entries_of(msgs@) == hub_conversation(system_prompt@, history@, message@),
{
    let mut msgs: Vec<AIMessage> = Vec::new();
    msgs.push(AIMessage::new("system", system_prompt));
    let mut i: usize = 0;
    while i < history.len()
        invariant
            i <= history.len(),
            entries_of(msgs@) == seq![ai_entry("system"@, system_prompt@)] + history@.take(i as int).map_values(
                |m: DiscordMessage| hub_history_entry(m),
            ),
        decreases history.len() - i,
    {
        let ghost before = msgs@;
        msgs.push(into_ai_message(&history[i]));
        assert(entries_of(msgs@) =~= entries_of(before).push(hub_history_entry(history@[i as int])));
        assert(history@.take(i + 1).map_values(|m: DiscordMessage| hub_history_entry(m)) =~= history@.take(
            i as int,
        ).map_values(|m: DiscordMessage| hub_history_entry(m)).push(hub_history_entry(history@[i as int])));
        i = i + 1;
    }
    assert(history@.take(i as int) =~= history@);
    let ghost head = entries_of(msgs@);
    msgs.push(AIMessage::new("system", "以下是用户的最新输入"));
    msgs.push(AIMessage::new("user", message));
    assert(entries_of(msgs@) =~= head.push(latest_input_entry()).push(ai_entry("user"@, message@)));
    msgs
}

impl AiHandler {
    /// Whether a new message is answered.
    pub fn on_message(&self, author_id: u64, bot_id: u64, mentions: &Vec<u64>, content: &str) -> (b: bool)
        ensures
            b == hub_answers(author_id, bot_id, mentions@, content@),
    {
        author_id != bot_id && mentions_user(mentions, bot_id) && !ends_with(content, "reg")
    }

    /// The part of a fetched history shown to the model for a question of
    /// `user_id`: the same as in the channel chat.
    pub fn chat_history(&self, history: &Vec<DiscordMessage>, user_id: u64) -> (h: Vec<DiscordMessage>)
        ensures
            h@ == chat_history(history@, user_id),
    {
        crate::ai_chat::AiHandler.chat_history(history, user_id)
    }

    /// The first answer: `<@author> <answer>`.
    pub fn reply_text(&self, author_id: u64, response: &str) -> (s: String)
        ensures
            s@ == "<@"@ + decimal(author_id as nat) + "> "@ + response@,
    {
        let mut s = String::from_str("<@");
        push_decimal(&mut s, author_id);
        s.append("> ");
        s.append(response);
        s
    }

    /// The id of the button that asks for another answer.
    pub fn regenerate_button_id(&self) -> (s: String)
        ensures
            s@ == regenerate_id(),
    {
        String::from_str("re.generate")
    }

    /// The label of the button that asks for another answer.
    pub fn regenerate_button_label(&self) -> (s: String)
        ensures
            s@ == "重新生成"@,
    {
        String::from_str("重新生成")
    }

    /// Whether a pressed button asks for another answer.
    pub fn is_regenerate_request(&self, custom_id: &str) -> (b: bool)
        ensures
            b == (custom_id@ == regenerate_id()),
    {
        crate::text::str_eq(custom_id, "re.generate")
    }
}

impl AIMessageHandler {
    /// Whether a new message is answered: another user's message that
    /// mentions the bot.
    pub fn on_message(&self, author_id: u64, bot_id: u64, mentions: &Vec<u64>) -> (b: bool)
        ensures
            b == (author_id != bot_id && mentions@.contains(bot_id)),
    {
        author_id != bot_id && mentions_user(mentions, bot_id)
    }

    /// The conversation sent to the model: the message alone, as the user's.
    pub fn conversation(&self, message: &str) -> (msgs: Vec<AIMessage>)
        ensures
            entries_of(msgs@) == seq![ai_entry("user"@, message@)],
    {
        let mut msgs: Vec<AIMessage> = Vec::new();
        msgs.push(AIMessage::new("user", message));
        assert(entries_of(msgs@) =~= seq![ai_entry("user"@, message@)]);
        msgs
    }

    /// The answer: a mention of the author, then the model's answer in bold
    /// as serenity's `push_bold_safe` writes it.
    pub fn reply_text(&self, author_id: u64, response: &str) -> (s: String)
        ensures
            s@ == "<@"@ + decimal(author_id as nat) + ">"@ + bold_safe(response@),
    {
        let b = crate::general::bold_safe_text(response);
        self.reply_text_with(author_id, b.as_str())
    }

    /// The answer given the bold text serenity made of the model's answer.
    pub fn reply_text_with(&self, author_id: u64, bold: &str) -> (s: String)
        ensures
            s@ == "<@"@ + decimal(author_id as nat) + ">"@ + bold@,
    {
        let mut s = String::from_str("<@");
        push_decimal(&mut s, author_id);
        s.append(">");
        s.append(bold);
        s
    }
}

} // verus!
