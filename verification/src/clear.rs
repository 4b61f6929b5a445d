//! The `!clear <count>` message command and the `/clear` slash command:
//! which messages of a channel's history are removed.
use vstd::prelude::*;
use crate::model::DiscordMessage;
use crate::text::{has_prefix, words, parse_u8, split_whitespace, parse_u8_chars, starts_with, push_decimal, decimal, no_white_space, is_white_space};

verus! {

/// Handles `!clear <count>`: removes up to `count` earlier bot messages.
pub struct ClearHandler;

/// What a message asks of the clear handler.
#[derive(PartialEq, Eq, Structural, Debug)]
pub enum ClearAction {
    /// The message is not a clear command, or one that does nothing.
    Ignore,
    /// The count is above 100: the channel is told so.
    RejectTooMany,
    /// Fetch up to `limit` messages before the command and delete the bots' ones.
    Fetch { limit: u8 },
}

/// The largest count `!clear` accepts.
pub const MAX_CLEAR_COUNT: u8 = 100;

/// Whether the message is a clear command at all: not the bot's own and
/// beginning with `!clear`.
pub open spec fn is_clear_command(author_id: u64, bot_id: u64, content: Seq<char>) -> bool {
    author_id != bot_id && has_prefix(content, "!clear"@)
}

/// The messages on which the handler does not fail: a clear command has an
/// argument, and when it has exactly one, that argument is a `u8`.
pub open spec fn clear_command_well_formed(author_id: u64, bot_id: u64, content: Seq<char>) -> bool {
    is_clear_command(author_id, bot_id, content) ==> {
        &&& words(content).len() >= 2
        &&& words(content).len() == 2 ==> parse_u8(words(content)[1]) is Some
    }
}

/// The action for a well formed message.
pub open spec fn clear_action(author_id: u64, bot_id: u64, content: Seq<char>) -> ClearAction {
    if !is_clear_command(author_id, bot_id, content) || words(content).len() != 2 {
        ClearAction::Ignore
    } else {
        let n = parse_u8(words(content)[1]).unwrap();
        if n > MAX_CLEAR_COUNT {
            ClearAction::RejectTooMany
        } else if n == 0 {
            ClearAction::Ignore
        } else {
            ClearAction::Fetch { limit: n }
        }
    }
}

/// The ids of the bot-authored messages of `history`, in order.
pub open spec fn bot_message_ids(history: Seq<DiscordMessage>) -> Seq<u64>
    decreases history.len(),
{
    if history.len() == 0 {
        seq![]
    } else {
        let rest = bot_message_ids(history.drop_last());
        if history.last().author_is_bot {
            rest.push(history.last().id)
        } else {
            rest
        }
    }
}

/// The ids of the messages of `history` that `/clear` may remove: all but the
/// users' own messages in private channels, which a bot cannot delete.
pub open spec fn deletable_message_ids(history: Seq<DiscordMessage>) -> Seq<u64>
    decreases history.len(),
{
    if history.len() == 0 {
        seq![]
    } else {
        let rest = deletable_message_ids(history.drop_last());
        let m = history.last();
        if !m.author_is_bot && m.is_private {
            rest
        } else {
            rest.push(m.id)
        }
    }
}

impl ClearHandler {
    /// Whether `on_message` may be called on this message (the original
    /// handler fails on the others).
    pub fn message_is_well_formed(&self, author_id: u64, bot_id: u64, content: &str) -> (b: bool)
        ensures
            b == clear_command_well_formed(author_id, bot_id, content@),
    {
        if author_id == bot_id || !starts_with(content, "!clear") {
            return true;
        }
        let args = split_whitespace(content);
        if args.len() < 2 {
            return false;
        }
        if args.len() == 2 {
            return parse_u8_chars(&args[1]).is_some();
        }
        true
    }

    /// Decides what a new message asks of the handler.
    pub fn on_message(&self, author_id: u64, bot_id: u64, content: &str) -> (a: ClearAction)
        requires
            clear_command_well_formed(author_id, bot_id, content@),
        ensures
            a == clear_action(author_id, bot_id, content@),
    {
        if author_id == bot_id {
            return ClearAction::Ignore;
        }
        if !starts_with(content, "!clear") {
            return ClearAction::Ignore;
        }
        let args = split_whitespace(content);
        if args.len() != 2 {
            return ClearAction::Ignore;
        }
        let count = match parse_u8_chars(&args[1]) {
            Some(n) => n,
            None => {
                return ClearAction::Ignore;
            },
        };
        if count > MAX_CLEAR_COUNT {
            return ClearAction::RejectTooMany;
        }
        if count != 0 {
            ClearAction::Fetch { limit: count }
        } else {
            ClearAction::Ignore
        }
    }

    /// The messages of the fetched history that the handler deletes: the bots' ones.
    pub fn messages_to_delete(&self, history: &Vec<DiscordMessage>) -> (ids: Vec<u64>)
        ensures
            ids@ == bot_message_ids(history@),
    {
        let mut ids: Vec<u64> = Vec::new();
        let mut i: usize = 0;
        while i < history.len()
            invariant
                i <= history.len(),
                ids@ == bot_message_ids(history@.take(i as int)),
            decreases history.len() - i,
        {
            assert(history@.take(i + 1).drop_last() =~= history@.take(i as int));
            if history[i].author_is_bot {
                ids.push(history[i].id);
            }
            i = i + 1;
        }
        assert(history@.take(i as int) =~= history@);
        ids
    }
}

/// The reply of `!clear` to a count above 100.
pub fn too_many_reply() -> (s: String)
    ensures
        s@ == "参数错误，必须在100以下"@,
{
    String::from_str("参数错误，必须在100以下")
}

/// The ids of the messages that `/clear` deletes from `history`.
pub fn clear_targets(history: &Vec<DiscordMessage>) -> (ids: Vec<u64>)
    ensures
        ids@ == deletable_message_ids(history@),
{
    let mut ids: Vec<u64> = Vec::new();
    let mut i: usize = 0;
    while i < history.len()
        invariant
            i <= history.len(),
            ids@ == deletable_message_ids(history@.take(i as int)),
        decreases history.len() - i,
    {
        assert(history@.take(i + 1).drop_last() =~= history@.take(i as int));
        if history[i].author_is_bot || !history[i].is_private {
            ids.push(history[i].id);
        }
        i = i + 1;
    }
    assert(history@.take(i as int) =~= history@);
    ids
}

/// The reply of `/clear` when the channel has no message to remove.
pub fn nothing_to_clear_reply() -> (s: String)
    ensures
        s@ == "没有找到可删除的消息"@,
{
    String::from_str("没有找到可删除的消息")
}

/// The reply of `/clear` after removing `n` messages: `已删除{n}条消息`.
pub fn cleared_reply(n: u64) -> (s: String)
    ensures
        s@ == "已删除"@ + decimal(n as nat) + "条消息"@,
{
    let mut s = String::from_str("已删除");
    push_decimal(&mut s, n);
    s.append("条消息");
    s
}

} // verus!

verus! {

/// `!clear` never asks for more than 100 messages, nor for none.
pub proof fn lemma_clear_fetch_bounded(author_id: u64, bot_id: u64, content: Seq<char>)
    ensures
        clear_action(author_id, bot_id, content) matches ClearAction::Fetch { limit } ==> 1 <= limit <= 100,
{
}

/// `!clear <n>` from anyone but the bot, with `n` written in decimal, is well
/// formed and asks for the `n` messages before it when `1 <= n <= 100`, is
/// refused when `n > 100`, and does nothing when `n == 0`.
pub proof fn lemma_clear_command_for_count(author_id: u64, bot_id: u64, n: u8)
    requires
        author_id != bot_id,
    ensures
        ({
            let content = "!clear "@ + decimal(n as nat);
            &&& clear_command_well_formed(author_id, bot_id, content)
            &&& clear_action(author_id, bot_id, content) == if n == 0 {
                ClearAction::Ignore
            } else if n > 100 {
                ClearAction::RejectTooMany
            } else {
                ClearAction::Fetch { limit: n }
            }
        }),
{
    reveal_strlit("!clear ");
    reveal_strlit("!clear");
    let p = "!clear"@;
    let d = decimal(n as nat);
    let content = "!clear "@ + d;
    assert("!clear "@ =~= p + seq![' ']);
    assert(content =~= p + seq![' '] + d);
    assert(no_white_space(p)) by {
        assert forall|i: int| 0 <= i < p.len() implies !is_white_space(#[trigger] p[i]) by {}
    }
    crate::text::lemma_decimal_no_white_space(n as nat);
    crate::text::lemma_words_of_two_words(p, d);
    crate::text::lemma_parse_u8_decimal(n);
    assert(content.take(p.len() as int) =~= p);
}

/// `!clear` deletes exactly the bots' messages among those it fetched, in
/// their order: the ids are those of the history kept by "its author is a
/// bot", and nothing else.
pub proof fn lemma_clear_deletes_bot_messages(history: Seq<DiscordMessage>)
    ensures
        bot_message_ids(history) == history.filter(|m: DiscordMessage| m.author_is_bot).map_values(
            |m: DiscordMessage| m.id,
        ),
    decreases history.len(),
{
    reveal(Seq::filter);
    if history.len() > 0 {
        let f = |m: DiscordMessage| m.author_is_bot;
        let g = |m: DiscordMessage| m.id;
        lemma_clear_deletes_bot_messages(history.drop_last());
        let kept = history.drop_last().filter(f);
        assert(kept.push(history.last()).map_values(g) =~= kept.map_values(g).push(history.last().id));
    }
}

/// `!clear` deletes every bot message it fetched and only those: each id it
/// returns belongs to a bot's message of the history, and each bot message's
/// id is returned.
pub proof fn lemma_clear_ids_are_bot_ids(history: Seq<DiscordMessage>)
    ensures
        forall|k: int| #![trigger bot_message_ids(history)[k]] 0 <= k < bot_message_ids(history).len()
            ==> exists|j: int| #![trigger history[j]] 0 <= j < history.len() && history[j].author_is_bot
                && bot_message_ids(history)[k] == history[j].id,
        forall|j: int| #![trigger history[j]] 0 <= j < history.len() && history[j].author_is_bot
            ==> bot_message_ids(history).contains(history[j].id),
    decreases history.len(),
{
    if history.len() > 0 {
        let rest = history.drop_last();
        lemma_clear_ids_are_bot_ids(rest);
        assert forall|k: int| #![trigger bot_message_ids(history)[k]] 0 <= k < bot_message_ids(history).len()
            implies exists|j: int| #![trigger history[j]] 0 <= j < history.len() && history[j].author_is_bot
                && bot_message_ids(history)[k] == history[j].id by {
            if k < bot_message_ids(rest).len() {
                assert(bot_message_ids(history)[k] == bot_message_ids(rest)[k]);
                let j = choose|j: int| #![trigger rest[j]] 0 <= j < rest.len() && rest[j].author_is_bot
                    && bot_message_ids(rest)[k] == rest[j].id;
                assert(history[j] == rest[j]);
            } else {
                assert(history[history.len() - 1] == history.last());
            }
        }
        assert forall|j: int| #![trigger history[j]] 0 <= j < history.len() && history[j].author_is_bot
            implies bot_message_ids(history).contains(history[j].id) by {
            if j < rest.len() {
                assert(rest[j] == history[j]);
                let k = choose|k: int| 0 <= k < bot_message_ids(rest).len() && bot_message_ids(rest)[k] == rest[j].id;
                assert(bot_message_ids(history)[k] == bot_message_ids(rest)[k]);
            } else {
                let ids = bot_message_ids(history);
                assert(ids[ids.len() - 1] == history[j].id);
            }
        }
    }
}

/// `/clear` deletes the fetched messages except the users' ones in a
/// private channel, in order; in a server channel, where no message is
/// private, it deletes every fetched message.
pub proof fn lemma_clear_targets(history: Seq<DiscordMessage>)
    ensures
        deletable_message_ids(history) == history.filter(|m: DiscordMessage| m.author_is_bot || !m.is_private).map_values(
            |m: DiscordMessage| m.id,
        ),
        (forall|j: int| 0 <= j < history.len() ==> !(#[trigger] history[j]).is_private)
            ==> deletable_message_ids(history) == history.map_values(|m: DiscordMessage| m.id),
    decreases history.len(),
{
    reveal(Seq::filter);
    if history.len() > 0 {
        let f = |m: DiscordMessage| m.author_is_bot || !m.is_private;
        let g = |m: DiscordMessage| m.id;
        let rest = history.drop_last();
        lemma_clear_targets(rest);
        let kept = rest.filter(f);
        assert(kept.push(history.last()).map_values(g) =~= kept.map_values(g).push(history.last().id));
        if forall|j: int| 0 <= j < history.len() ==> !(#[trigger] history[j]).is_private {
            assert forall|j: int| 0 <= j < rest.len() implies !(#[trigger] rest[j]).is_private by {
                assert(rest[j] == history[j]);
            }
            assert(!history[history.len() - 1].is_private);
            assert(history.map_values(g) =~= rest.map_values(g).push(history.last().id));
        }
    } else {
        assert(history.map_values(|m: DiscordMessage| m.id) =~= Seq::<u64>::empty());
    }
}

} // verus!
