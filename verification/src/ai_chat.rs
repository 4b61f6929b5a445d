//! Chatting with the AI model: which messages are answered, what the model is
//! sent, and how its answer is posted back.
use vstd::prelude::*;
use crate::model::{DiscordMessage, mentions_user};
use crate::activity::opt_view;
use crate::json::{JsonValue, JsonView, json_of, parse_json, member, element, text_of, get_member, get_element, as_text};
use crate::text::{decimal, has_prefix, has_suffix, push_decimal, starts_with, ends_with, chars_of, string_of_range};
use vstd::utf8::encode_utf8;

verus! {

/// One entry of the conversation sent to the model.
pub struct AIMessage {
    role: String,
    content: String,
}

impl View for AIMessage {
    type V = (Seq<char>, Seq<char>);

    closed spec fn view(&self) -> (Seq<char>, Seq<char>) {
        (self.role@, self.content@)
    }
}

/// The conversation entry `(role, content)`.
pub open spec fn ai_entry(role: Seq<char>, content: Seq<char>) -> (Seq<char>, Seq<char>) {
    (role, content)
}

impl AIMessage {
    /// A new conversation entry.
    pub fn new(role: &str, content: &str) -> (m: AIMessage)
        ensures
            m@ == ai_entry(role@, content@),
    {
        AIMessage { role: role.to_owned(), content: content.to_owned() }
    }

    /// The entry's role (`system`, `user` or `assistant`).
    pub fn role(&self) -> (r: &str)
        ensures
            r@ == self@.0,
    {
        self.role.as_str()
    }

    /// The entry's text.
    pub fn content(&self) -> (r: &str)
        ensures
            r@ == self@.1,
    {
        self.content.as_str()
    }

    /// The entry that stands for a message of the channel's history: the
    /// bot's messages are the assistant's, the others the user's, and the
    /// text carries the message's id, author and time before its content.
    pub fn map_ai_message(message: &DiscordMessage) -> (m: AIMessage)
        ensures
            m@ == history_entry(*message),
    {
        let role = if message.author_is_bot {
            String::from_str("assistant")
        } else {
            String::from_str("user")
        };
        let mut content = String::from_str("SYSTEM：以下内容为补充参考信息:\r\nmessage_id:");
        push_decimal(&mut content, message.id);
        content.append("\r\nuser_id:");
        push_decimal(&mut content, message.author_id);
        content.append("\r\nmessage_times_map:");
        content.append(message.timestamp.as_str());
        content.append("\r\n\n        SYSTEM:补充说明结束，以下是用户内容\r\n\\");
        content.append(message.content.as_str());
        AIMessage { role, content }
    }
}

/// The role of a history message: `assistant` for bots, `user` otherwise.
pub open spec fn history_role(m: DiscordMessage) -> Seq<char> {
    if m.author_is_bot {
        "assistant"@
    } else {
        "user"@
    }
}

/// The text of a history message as the model sees it.
pub open spec fn history_text(m: DiscordMessage) -> Seq<char> {
    "SYSTEM：以下内容为补充参考信息:\r\nmessage_id:"@ + decimal(m.id as nat) + "\r\nuser_id:"@
        + decimal(m.author_id as nat) + "\r\nmessage_times_map:"@ + m.timestamp@
        + "\r\n\n        SYSTEM:补充说明结束，以下是用户内容\r\n\\"@ + m.content@
}

/// The conversation entry of a history message.
pub open spec fn history_entry(m: DiscordMessage) -> (Seq<char>, Seq<char>) {
    ai_entry(history_role(m), history_text(m))
}

/// The entries of a whole history, in order.
pub open spec fn history_entries(h: Seq<DiscordMessage>) -> Seq<(Seq<char>, Seq<char>)> {
    h.map_values(|m: DiscordMessage| history_entry(m))
}

/// The system entry that announces the user's latest input.
pub open spec fn latest_input_entry() -> (Seq<char>, Seq<char>) {
    ai_entry("system"@, "以下是用户的最新输入"@)
}

/// The system entry that tells the model it is in a private chat, where `@` does not work.
pub open spec fn private_chat_entry() -> (Seq<char>, Seq<char>) {
    ai_entry("system"@, "这里是用户在对你私聊，不能使用@"@)
}

/// The assistant entry added when the model is set to think first.
pub open spec fn thinking_entry() -> (Seq<char>, Seq<char>) {
    ai_entry("assistant"@, "思考中..."@)
}

/// The conversation sent to the model: the system prompt, the history, the
/// private-chat and thinking notes where they apply, the latest-input note
/// and the user's message.
pub open spec fn chat_conversation(
    system_prompt: Seq<char>,
    history: Seq<DiscordMessage>,
    message: Seq<char>,
    is_private_chat: bool,
    enable_thinking: bool,
) -> Seq<(Seq<char>, Seq<char>)> {
    let head = seq![ai_entry("system"@, system_prompt)] + history_entries(history);
    let with_private = if is_private_chat {
        head.push(private_chat_entry())
    } else {
        head
    };
    let with_thinking = if enable_thinking {
        with_private.push(thinking_entry())
    } else {
        with_private
    };
    with_thinking.push(latest_input_entry()).push(ai_entry("user"@, message))
}

/// The conversation opens with the system prompt, shows every history
/// message in order right after it, and closes with the latest-input note
/// and the user's message; the private-chat and thinking notes add one
/// entry each.
pub proof fn lemma_conversation_shape(
    system_prompt: Seq<char>,
    history: Seq<DiscordMessage>,
    message: Seq<char>,
    is_private_chat: bool,
    enable_thinking: bool,
)
    ensures
        ({
            let c = chat_conversation(system_prompt, history, message, is_private_chat, enable_thinking);
            &&& c.len() == history.len() + 3 + (if is_private_chat { 1int } else { 0int }) + (if enable_thinking { 1int } else { 0int })
            &&& c[0] == ai_entry("system"@, system_prompt)
            &&& forall|i: int| 0 <= i < history.len() ==> #[trigger] c[i + 1] == history_entry(history[i])
            &&& c[c.len() - 1] == ai_entry("user"@, message)
            &&& c[c.len() - 2] == latest_input_entry()
        }),
{
}

/// The views of a list of entries.
pub open spec fn entries_of(v: Seq<AIMessage>) -> Seq<(Seq<char>, Seq<char>)> {
    v.map_values(|m: AIMessage| m@)
}

/// Builds the conversation that `AIConfig::chat` sends to the model.
pub fn build_chat_messages(
    system_prompt: &str,
    history: &Vec<DiscordMessage>,
    message: &str,
    is_private_chat: bool,
    enable_thinking: bool,
) -> (msgs: Vec<AIMessage>)
    ensures
        entries_of(msgs@) == chat_conversation(
            system_prompt@,
            history@,
            message@,
            is_private_chat,
            enable_thinking,
        ),
{
    let mut msgs: Vec<AIMessage> = Vec::new();
    msgs.push(AIMessage::new("system", system_prompt));
    let mut i: usize = 0;
    while i < history.len()
        invariant
            i <= history.len(),
            entries_of(msgs@) == seq![ai_entry("system"@, system_prompt@)] + history_entries(
                history@.take(i as int),
            ),
        decreases history.len() - i,
    {
        let m = AIMessage::map_ai_message(&history[i]);
        let ghost before = msgs@;
        msgs.push(m);
        assert(entries_of(msgs@) =~= entries_of(before).push(history_entry(history@[i as int])));
        assert(history_entries(history@.take(i + 1)) =~= history_entries(history@.take(i as int)).push(
            history_entry(history@[i as int]),
        ));
        assert(entries_of(msgs@) =~= seq![ai_entry("system"@, system_prompt@)] + history_entries(
            history@.take(i + 1),
        ));
        i = i + 1;
    }
    assert(history@.take(i as int) =~= history@);
    let ghost head = entries_of(msgs@);
    if is_private_chat {
        msgs.push(AIMessage::new("system", "这里是用户在对你私聊，不能使用@"));
    }
    assert(entries_of(msgs@) =~= if is_private_chat {
        head.push(private_chat_entry())
    } else {
        head
    });
    let ghost with_private = entries_of(msgs@);
    if enable_thinking {
        msgs.push(AIMessage::new("assistant", "思考中..."));
    }
    assert(entries_of(msgs@) =~= if enable_thinking {
        with_private.push(thinking_entry())
    } else {
        with_private
    });
    let ghost with_thinking = entries_of(msgs@);
    msgs.push(AIMessage::new("system", "以下是用户的最新输入"));
    msgs.push(AIMessage::new("user", message));
    assert(entries_of(msgs@) =~= with_thinking.push(latest_input_entry()).push(
        ai_entry("user"@, message@),
    ));
    msgs
}

/// Answers the messages that mention the bot in channels and every message of
/// a private chat.
pub struct AiHandler;

/// What the AI handler does with a new message.
#[derive(PartialEq, Eq, Structural, Debug)]
pub enum AiAction {
    /// Nothing: the bot's own message, a command, or a channel message that
    /// does not mention the bot.
    Ignore,
    /// Ask the model and post its answer; `private_chat` says whether the
    /// conversation is a private one.
    Answer { private_chat: bool },
}

/// Text that the handlers leave to the commands: ending in `reg` (the
/// registration command) or beginning with `!`.
pub open spec fn is_command_text(content: Seq<char>) -> bool {
    has_suffix(content, "reg"@) || has_prefix(content, "!"@)
}

/// The handler's decision.
pub open spec fn ai_action(
    is_private: bool,
    author_id: u64,
    bot_id: u64,
    mentions: Seq<u64>,
    content: Seq<char>,
) -> AiAction {
    if author_id == bot_id {
        AiAction::Ignore
    } else if is_private {
        if is_command_text(content) {
            AiAction::Ignore
        } else {
            AiAction::Answer { private_chat: true }
        }
    } else if !mentions.contains(bot_id) || is_command_text(content) {
        AiAction::Ignore
    } else {
        AiAction::Answer { private_chat: false }
    }
}

/// The bot answers only others' messages that are not commands; in a
/// channel, only those that mention it; and a conversation is private
/// exactly when the message came in a private chat.
pub proof fn lemma_answers_need_mention(
    is_private: bool,
    author_id: u64,
    bot_id: u64,
    mentions: Seq<u64>,
    content: Seq<char>,
)
    ensures
        ai_action(is_private, author_id, bot_id, mentions, content) matches AiAction::Answer { private_chat } ==> {
            &&& author_id != bot_id
            &&& !is_command_text(content)
            &&& private_chat == is_private
            &&& !is_private ==> mentions.contains(bot_id)
        },
{
}

/// The whole answer decision: a message is answered exactly when another
/// user sent it, it came in private or mentions the bot, and its text
/// neither ends in `reg` nor begins with `!`; the conversation is private
/// exactly when the message is. Nothing else (a leading mention, say) keeps
/// a message from being answered.
pub proof fn lemma_answer_decision(
    is_private: bool,
    author_id: u64,
    bot_id: u64,
    mentions: Seq<u64>,
    content: Seq<char>,
)
    ensures
        ai_action(is_private, author_id, bot_id, mentions, content) == if author_id != bot_id
            && (is_private || mentions.contains(bot_id)) && !has_suffix(content, "reg"@) && !has_prefix(content, "!"@) {
            AiAction::Answer { private_chat: is_private }
        } else {
            AiAction::Ignore
        },
{
}

/// Every history entry ends with the message's own text, whoever wrote it,
/// and what comes before that text depends only on the message's id, author
/// and time: two messages that share these get the same header. The entry is
/// the assistant's exactly for a bot's message.
pub proof fn lemma_history_entry_carries_content(m1: DiscordMessage, m2: DiscordMessage)
    ensures
        has_suffix(history_entry(m1).1, m1.content@),
        history_entry(m1).0 == (if m1.author_is_bot { "assistant"@ } else { "user"@ }),
        m1.id == m2.id && m1.author_id == m2.author_id && m1.timestamp@ == m2.timestamp@ ==> {
            let t1 = history_entry(m1).1;
            let t2 = history_entry(m2).1;
            t1.take(t1.len() - m1.content@.len()) == t2.take(t2.len() - m2.content@.len())
        },
{
    let t1 = history_entry(m1).1;
    let t2 = history_entry(m2).1;
    let h1 = t1.take(t1.len() - m1.content@.len());
    let h2 = t2.take(t2.len() - m2.content@.len());
    assert(t1 =~= h1 + m1.content@);
    assert(t1.skip(t1.len() - m1.content@.len()) =~= m1.content@);
    if m1.id == m2.id && m1.author_id == m2.author_id && m1.timestamp@ == m2.timestamp@ {
        assert(t2 =~= h2 + m2.content@);
        assert(h1 =~= h2);
    }
}

/// How many messages before the question the handler looks back.
pub const HISTORY_LIMIT: u8 = 50;

/// The messages of a fetched history that the model is shown for a question
/// of `user_id`: those of the user and of bots, without the slash commands,
/// in order.
pub open spec fn chat_history(h: Seq<DiscordMessage>, user_id: u64) -> Seq<DiscordMessage>
    decreases h.len(),
{
    if h.len() == 0 {
        seq![]
    } else {
        let rest = chat_history(h.drop_last(), user_id);
        let m = h.last();
        if (m.author_id == user_id || m.author_is_bot) && !has_prefix(m.content@, "/"@) {
            rest.push(m)
        } else {
            rest
        }
    }
}

/// The most characters one posted part of an answer holds.
pub const REPLY_CHUNK_CHARS: usize = 1500;

/// The answers longer than this many bytes are posted in parts.
pub const REPLY_SPLIT_BYTES: usize = 1500;

/// The number of parts of an answer of `n` characters.
pub open spec fn chunk_count(n: nat) -> nat {
    ((n + 1499) / 1500) as nat
}

/// The `k`-th part of the answer `r`: characters `1500 k` up to `1500 (k + 1)`.
pub open spec fn reply_chunk(r: Seq<char>, k: int) -> Seq<char> {
    let from = 1500 * k;
    let to = if 1500 * k + 1500 <= r.len() {
        1500 * k + 1500
    } else {
        r.len() as int
    };
    r.subrange(from, to)
}

/// The mention that opens every part after the first: `<@author> `.
pub open spec fn mention_prefix(author_id: u64) -> Seq<char> {
    "<@"@ + decimal(author_id as nat) + "> "@
}

/// The messages in which the answer `r` to `author_id` is posted: the whole
/// answer when it takes at most 1500 bytes, else its parts of 1500
/// characters, each after the first opened by a mention of the author.
pub open spec fn reply_parts(r: Seq<char>, author_id: u64) -> Seq<Seq<char>> {
    if encode_utf8(r).len() <= 1500 {
        seq![r]
    } else {
        Seq::new(
            chunk_count(r.len()),
            |k: int|
                if k == 0 {
                    reply_chunk(r, 0)
                } else {
                    mention_prefix(author_id) + reply_chunk(r, k)
                },
        )
    }
}

/// The parts `0 .. c` of `r` joined.
pub open spec fn joined_chunks(r: Seq<char>, c: nat) -> Seq<char>
    decreases c,
{
    if c == 0 {
        seq![]
    } else {
        joined_chunks(r, (c - 1) as nat) + reply_chunk(r, c - 1)
    }
}

proof fn lemma_joined_chunks_prefix(r: Seq<char>, c: nat)
    requires
        c <= chunk_count(r.len()),
    ensures
        joined_chunks(r, c) == r.take(if 1500 * c <= r.len() {
            (1500 * c) as int
        } else {
            r.len() as int
        }),
    decreases c,
{
    if c == 0 {
        assert(r.take(0) =~= seq![]);
    } else {
        lemma_joined_chunks_prefix(r, (c - 1) as nat);
        let prev_end = 1500 * (c - 1);
        assert(prev_end < r.len());
        let end = if 1500 * c <= r.len() {
            (1500 * c) as int
        } else {
            r.len() as int
        };
        assert(r.take(prev_end) + r.subrange(prev_end, end) =~= r.take(end));
    }
}

/// An answer posted in parts loses and repeats nothing: its parts, without
/// the mentions that open all but the first, join to the whole answer, and
/// each part holds at most 1500 characters of it.
pub proof fn lemma_reply_parts_rejoin(r: Seq<char>, author_id: u64)
    requires
        encode_utf8(r).len() > 1500,
    ensures
        reply_parts(r, author_id).len() == chunk_count(r.len()),
        joined_chunks(r, chunk_count(r.len())) == r,
        forall|k: int| 0 <= k < chunk_count(r.len()) ==> #[trigger] reply_chunk(r, k).len() <= 1500,
        forall|k: int|
            0 < k < chunk_count(r.len()) ==> #[trigger] reply_parts(r, author_id)[k]
                == mention_prefix(author_id) + reply_chunk(r, k),
        reply_parts(r, author_id)[0] == reply_chunk(r, 0),
{
    lemma_encode_utf8_len_bound(r);
    lemma_joined_chunks_prefix(r, chunk_count(r.len()));
    assert(r.take(r.len() as int) =~= r);
}

/// Each character takes at most four bytes in UTF-8.
proof fn lemma_encode_utf8_len_bound(r: Seq<char>)
    ensures
        encode_utf8(r).len() <= 4 * r.len(),
    decreases r.len(),
{
    reveal_with_fuel(encode_utf8, 2);
    if r.len() > 0 {
        lemma_encode_utf8_len_bound(r.drop_first());
    }
}

impl AiHandler {
    /// Decides what to do with a new message.
    pub fn on_message(
        &self,
        is_private: bool,
        author_id: u64,
        bot_id: u64,
        mentions: &Vec<u64>,
        content: &str,
    ) -> (a: AiAction)
        ensures
            a == ai_action(is_private, author_id, bot_id, mentions@, content@),
    {
        if author_id == bot_id {
            return AiAction::Ignore;
        }
        if !is_private && !mentions_user(mentions, bot_id) {
            return AiAction::Ignore;
        }
        if ends_with(content, "reg") || starts_with(content, "!") {
            return AiAction::Ignore;
        }
        AiAction::Answer { private_chat: is_private }
    }

    /// The part of a fetched history that goes to the model.
    pub fn chat_history(&self, history: &Vec<DiscordMessage>, user_id: u64) -> (h: Vec<DiscordMessage>)
        ensures
            h@ == chat_history(history@, user_id),
    {
        let mut h: Vec<DiscordMessage> = Vec::new();
        let mut i: usize = 0;
        while i < history.len()
            invariant
                i <= history.len(),
                h@ == chat_history(history@.take(i as int), user_id),
            decreases history.len() - i,
        {
            assert(history@.take(i + 1).drop_last() =~= history@.take(i as int));
            let m = &history[i];
            if (m.author_id == user_id || m.author_is_bot) && !starts_with(m.content.as_str(), "/") {
                h.push(history[i].duplicate());
            }
            i = i + 1;
        }
        assert(history@.take(i as int) =~= history@);
        h
    }

    /// What becomes of the thinking message once the model has answered
    /// (`Ok` with the answer) or failed (`Err` with the reason): the answer
    /// is posted in parts after the thinking message is deleted, or the
    /// thinking message is edited into the failure notice.
    pub fn answer_step(&self, outcome: Result<String, String>, author_id: u64) -> (s: AnswerStep)
        requires
            outcome matches Ok(r) ==> encode_utf8(r@).len() <= usize::MAX,
        ensures
            match outcome {
                Ok(r) => s matches AnswerStep::PostParts { parts } && parts@.len() == reply_parts(r@, author_id).len()
                    && forall|k: int| 0 <= k < parts@.len() ==> #[trigger] parts@[k]@ == reply_parts(r@, author_id)[k],
                Err(w) => s matches AnswerStep::ReportFailure { notice } && notice@ == "思考失败，请联系管理员检查机器人。原因是："@ + w@,
            },
    {
        match outcome {
            Ok(r) => AnswerStep::PostParts { parts: self.reply_parts(r.as_str(), author_id) },
            Err(w) => AnswerStep::ReportFailure { notice: thinking_failed_message(w.as_str()) },
        }
    }

    /// The messages in which the model's answer is posted.
    pub fn reply_parts(&self, response: &str, author_id: u64) -> (parts: Vec<String>)
        requires
            encode_utf8(response@).len() <= usize::MAX,
        ensures
            parts@.len() == reply_parts(response@, author_id).len(),
            forall|k: int| 0 <= k < parts@.len() ==> #[trigger] parts@[k]@ == reply_parts(response@, author_id)[k],
    {
        let mut parts: Vec<String> = Vec::new();
        if response.len() <= REPLY_SPLIT_BYTES {
            parts.push(response.to_owned());
            return parts;
        }
        let cs = chars_of(response);
        let n = cs.len();
        proof {
            lemma_encode_utf8_len_bound(response@);
        }
        let ghost spec_parts = reply_parts(response@, author_id);
        let count = (n - 1) / REPLY_CHUNK_CHARS + 1;
        assert(count == chunk_count(n as nat));
        let mut k: usize = 0;
        while k < count
            invariant
                cs@ == response@,
                n == cs@.len(),
                n > 0,
                count == chunk_count(n as nat),
                count == (n - 1) / 1500 + 1,
                k <= count,
                parts@.len() == k,
                encode_utf8(response@).len() > 1500,
                spec_parts == reply_parts(response@, author_id),
                forall|j: int| 0 <= j < k ==> #[trigger] parts@[j]@ == spec_parts[j],
            decreases count - k,
        {
            let start = k * REPLY_CHUNK_CHARS;
            let end = if n - start >= REPLY_CHUNK_CHARS {
                start + REPLY_CHUNK_CHARS
            } else {
                n
            };
            let chunk = string_of_range(&cs, start, end);
            if k == 0 {
                parts.push(chunk);
            } else {
                let mut part = String::from_str("<@");
                push_decimal(&mut part, author_id);
                part.append("> ");
                part.append(chunk.as_str());
                parts.push(part);
            }
            assert(parts@[k as int]@ == spec_parts[k as int]);
            k = k + 1;
        }
        parts
    }
}

/// What becomes of the thinking message once the model is done.
pub enum AnswerStep {
    /// Delete the thinking message and post the answer in these parts.
    PostParts { parts: Vec<String> },
    /// Edit the thinking message into this failure notice.
    ReportFailure { notice: String },
}

/// Why the model gave no answer.
#[derive(PartialEq, Eq, Debug)]
pub enum ChatError {
    /// The service answered with a status other than success.
    RequestFailed { status: String },
    /// The answer holds no text at `choices[0].message.content`.
    InvalidResponseFormat,
    /// The answer's body is not JSON; serde_json's message.
    InvalidJson { message: String },
}

impl ChatError {
    /// The error's message.
    pub fn message(&self) -> (s: String)
        ensures
            s@ == match self {
                ChatError::RequestFailed { status } => "Request failed with status: "@ + status@,
                ChatError::InvalidResponseFormat => "Invalid response format"@,
                ChatError::InvalidJson { message } => message@,
            },
    {
        match self {
            ChatError::RequestFailed { status } => {
                let mut s = String::from_str("Request failed with status: ");
                s.append(status.as_str());
                s
            },
            ChatError::InvalidResponseFormat => String::from_str("Invalid response format"),
            ChatError::InvalidJson { message } => message.clone(),
        }
    }
}

/// Where the model's answer sits in the service's reply:
/// `choices[0].message.content`, a string; `None` where a step is missing,
/// is of another kind, or the last is not a string.
pub open spec fn answer_content_of(v: JsonView) -> Option<Seq<char>> {
    match member(v, "choices"@) {
        Some(c) => match element(c, 0) {
            Some(f) => match member(f, "message"@) {
                Some(m) => text_of(member(m, "content"@)),
                None => None,
            },
            None => None,
        },
        None => None,
    }
}

/// The text at `choices[0].message.content` of the service's reply.
pub fn answer_content(v: &JsonValue) -> (c: Option<String>)
    ensures
        opt_view(c) == answer_content_of(v@),
{
    let choices = match get_member(v, "choices") {
        Some(x) => x,
        None => return None,
    };
    let first = match get_element(choices, 0) {
        Some(x) => x,
        None => return None,
    };
    let message = match get_member(first, "message") {
        Some(x) => x,
        None => return None,
    };
    as_text(get_member(message, "content"))
}

/// The model's answer from the service's reply: whether it answered with
/// success, its status and its body.
pub fn chat_reply_from_body(success: bool, status: &str, body: &str) -> (r: Result<String, ChatError>)
    ensures
        !success ==> (r matches Err(ChatError::RequestFailed { status: st }) && st@ == status@),
        success ==> match json_of(body@) {
            Err(m) => r matches Err(ChatError::InvalidJson { message }) && message@ == m,
            Ok(j) => match answer_content_of(j) {
                Some(c) => r matches Ok(t) && t@ == c,
                None => r matches Err(ChatError::InvalidResponseFormat),
            },
        },
{
    if !success {
        return chat_reply(false, status, None);
    }
    match parse_json(body) {
        Err(message) => Err(ChatError::InvalidJson { message }),
        Ok(v) => match answer_content(&v) {
            Some(c) => chat_reply(true, status, Some(c.as_str())),
            None => chat_reply(true, status, None),
        },
    }
}

/// The model's answer, given whether the service answered with success, the
/// status it answered with, and the text at `choices[0].message.content` of
/// its JSON body, if that is a string.
pub fn chat_reply(success: bool, status: &str, content: Option<&str>) -> (r: Result<String, ChatError>)
    ensures
        !success ==> (r matches Err(ChatError::RequestFailed { status: st }) && st@ == status@),
        success ==> match content {
            Some(c) => r matches Ok(t) && t@ == c@,
            None => r matches Err(ChatError::InvalidResponseFormat),
        },
{
    if !success {
        return Err(ChatError::RequestFailed { status: status.to_owned() });
    }
    match content {
        Some(c) => Ok(c.to_owned()),
        None => Err(ChatError::InvalidResponseFormat),
    }
}

/// The message posted while the model is thinking.
pub fn thinking_message() -> (s: String)
    ensures
        s@ == "请稍等，我正在思考..."@,
{
    String::from_str("请稍等，我正在思考...")
}

/// The edit of the thinking message when the model could not answer.
pub fn thinking_failed_message(reason: &str) -> (s: String)
    ensures
        s@ == "思考失败，请联系管理员检查机器人。原因是："@ + reason@,
{
    let mut s = String::from_str("思考失败，请联系管理员检查机器人。原因是：");
    s.append(reason);
    s
}

} // verus!
