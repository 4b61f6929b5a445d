//! The general commands: `/ping`, `/help`, `/version`, `/send_message`, the
//! command lists of each module, and the handlers of startup and of the
//! `!ping` / `!messageme` messages.
use vstd::prelude::*;
use std::fmt::Write;
use crate::activity::{ActivityData, ActivityKind, activity_view, opt_view};
use crate::config::{DataConfig, channel_mention};
use crate::text::{decimal, push_decimal};

verus! {

/// Discord's epoch (2015-01-01T00:00:00Z) in milliseconds since the UNIX epoch.
pub const DISCORD_EPOCH_MILLIS: u64 = 1420070400000;

/// When the account with snowflake `id` was created, in milliseconds since
/// the UNIX epoch (serenity's `created_at`: the id's top 42 bits count
/// milliseconds from discord's epoch).
pub open spec fn creation_millis(id: u64) -> int {
    id / 4194304 + 1420070400000
}

/// The creation time of the account with snowflake `id`, in UNIX milliseconds.
pub fn created_at_millis(id: u64) -> (ms: i64)
    ensures
        ms == creation_millis(id),
        0 <= ms <= 5818116911103,
{
    assert(id >> 22u64 == id / 4194304) by (bit_vector);
    ((id >> 22u64) + DISCORD_EPOCH_MILLIS) as i64
}

/// What chrono writes for the instant `unix_millis` milliseconds after the
/// UNIX epoch, seen at the fixed offset of `offset_secs` seconds east of UTC
/// and formatted with the strftime-like `pattern`; `None` where the instant
/// lies outside chrono's range or the pattern holds an item that chrono
/// cannot format.
pub uninterp spec fn chrono_text(unix_millis: int, offset_secs: int, pattern: Seq<char>) -> Option<Seq<char>>;

/// chrono's `FixedOffset::east_opt`, `DateTime::from_timestamp_millis`,
/// `with_timezone` and `format`, written into a `String`. The contract names
/// the text (`chrono_text`) and states one fact of chrono's documentation:
/// an instant of the years 1970 to 2154 is in chrono's range, and the
/// specifiers `%Y %m %d %H %M %S` always format. `east_opt` accepts every
/// offset of less than a day, so its `expect` does not fail.
#[verifier::external_body]
fn chrono_format(unix_millis: i64, offset_secs: i32, pattern: &str) -> (r: Option<String>)
    requires
        -86400 < offset_secs < 86400,
    ensures
        (r is Some) == (chrono_text(unix_millis as int, offset_secs as int, pattern@) is Some),
        r matches Some(t) ==> t@ == chrono_text(unix_millis as int, offset_secs as int, pattern@)->0,
        0 <= unix_millis <= 5818116911103 && pattern@ == "%Y-%m-%d %H:%M:%S"@ ==> r is Some,
{
    let offset = chrono::FixedOffset::east_opt(offset_secs).expect("an offset below one day");
    let time = chrono::DateTime::from_timestamp_millis(unix_millis)?;
    let mut s = String::new();
    write!(s, "{}", time.with_timezone(&offset).format(pattern)).ok()?;
    Some(s)
}

/// UTC+8, in seconds east of UTC.
pub const UTC8_OFFSET_SECS: i32 = 8 * 3600;

/// The date and time `YYYY-MM-DD HH:MM:SS` in UTC+8 of the instant
/// `unix_millis` milliseconds after the UNIX epoch, as chrono formats it
/// (`None` outside chrono's range of instants).
pub open spec fn utc8_time(unix_millis: int) -> Option<Seq<char>> {
    chrono_text(unix_millis, 28800, "%Y-%m-%d %H:%M:%S"@)
}

/// The text of `utc8_time` for an instant in chrono's range.
pub open spec fn utc8_time_text(unix_millis: int) -> Seq<char> {
    utc8_time(unix_millis)->0
}

/// The instant `unix_millis` (milliseconds after the UNIX epoch) in UTC+8,
/// written `YYYY-MM-DD HH:MM:SS`; `None` for an instant outside chrono's
/// range, which no instant of the years 1970 to 2154 is.
pub fn with_time_to_utc8(unix_millis: i64) -> (s: Option<String>)
    ensures
        opt_view(s) == utc8_time(unix_millis as int),
        0 <= unix_millis <= 5818116911103 ==> s is Some,
{
    chrono_format(unix_millis, UTC8_OFFSET_SECS, "%Y-%m-%d %H:%M:%S")
}

/// The text of `/ping` about the user `user_id`.
pub open spec fn ping_text(user_id: u64) -> Seq<char> {
    "<@"@ + decimal(user_id as nat) + "> 用户id为 `"@ + decimal(user_id as nat) + "` 创建于 "@
        + utc8_time_text(creation_millis(user_id))
}

/// The reply of `/ping [user]`: asks for a user when none is given, else
/// mentions the user and says when the account was created (UTC+8).
pub fn ping_reply(user_id: Option<u64>) -> (s: String)
    ensures
        s@ == match user_id {
            None => "请选择一个用户"@,
            Some(id) => ping_text(id),
        },
{
    match user_id {
        None => String::from_str("请选择一个用户"),
        Some(id) => {
            match with_time_to_utc8(created_at_millis(id)) {
                Some(t) => ping_user_reply(id, t.as_str()),
                None => String::new(),
            }
        },
    }
}

/// The reply of `/ping <user>` given the text of the account's creation time.
pub fn ping_user_reply(user_id: u64, created: &str) -> (s: String)
    ensures
        s@ == "<@"@ + decimal(user_id as nat) + "> 用户id为 `"@ + decimal(user_id as nat) + "` 创建于 "@ + created@,
{
    let mut s = String::from_str("<@");
    push_decimal(&mut s, user_id);
    s.append("> 用户id为 `");
    push_decimal(&mut s, user_id);
    s.append("` 创建于 ");
    s.append(created);
    s
}

/// The reply of `/help`: `当前程序版本<version>\r\n<manual>`.
pub fn help_text(version: &str, manual: &str) -> (s: String)
    ensures
        s@ == "当前程序版本"@ + version@ + "\r\n"@ + manual@,
{
    let mut s = String::from_str("当前程序版本");
    s.append(version);
    s.append("\r\n");
    s.append(manual);
    s
}

/// The reply of `/version`: `当前版本为 **<version>** link: <repository>`.
pub fn version_text(version: &str, repository: &str) -> (s: String)
    ensures
        s@ == "当前版本为 **"@ + version@ + "** link: "@ + repository@,
{
    let mut s = String::from_str("当前版本为 **");
    s.append(version);
    s.append("** link: ");
    s.append(repository);
    s
}

/// The longest message, in characters, that `/send_message` sends is one below this.
pub const SEND_MESSAGE_LIMIT: usize = 2000;

/// `/send_message`: messages of 2000 characters or more are refused with
/// `消息长度超过2000字，请重新输入`.
pub fn check_send_message(message: &str) -> (r: Result<(), String>)
    ensures
        r is Ok <==> message@.len() < 2000,
        r matches Err(e) ==> e@ == "消息长度超过2000字，请重新输入"@,
{
    let chars = crate::text::chars_of(message);
    if chars.len() >= SEND_MESSAGE_LIMIT {
        Err(String::from_str("消息长度超过2000字，请重新输入"))
    } else {
        Ok(())
    }
}

/// The bot's commands.
#[derive(PartialEq, Eq, Structural, Debug, Clone, Copy)]
pub enum BotCommand {
    /// `/ping`
    Ping,
    /// `register`
    Register,
    /// `/status`
    Status,
    /// `/clear`
    Clear,
    /// `/help`
    Help,
    /// `/version`
    Version,
    /// `/withdraw`
    Withdraw,
    /// `/prompt`
    Prompt,
    /// `/send_message`
    SendMessage,
    /// `/music`
    Music,
}

/// The commands of the general module, in registration order.
pub open spec fn general_commands() -> Seq<BotCommand> {
    seq![BotCommand::Ping, BotCommand::Register, BotCommand::Status, BotCommand::Clear, BotCommand::Help, BotCommand::Version]
}

/// The commands of the management module, in registration order.
pub open spec fn manage_commands() -> Seq<BotCommand> {
    seq![BotCommand::Withdraw, BotCommand::Prompt, BotCommand::SendMessage]
}

/// The commands of the music module.
pub open spec fn music_commands() -> Seq<BotCommand> {
    seq![BotCommand::Music]
}

/// The commands the general module registers.
pub fn general_export() -> (v: Vec<BotCommand>)
    ensures
        v@ == general_commands(),
{
    let v = vec![BotCommand::Ping, BotCommand::Register, BotCommand::Status, BotCommand::Clear, BotCommand::Help, BotCommand::Version];
    assert(v@ =~= general_commands());
    v
}

/// The commands the management module registers.
pub fn manage_export() -> (v: Vec<BotCommand>)
    ensures
        v@ == manage_commands(),
{
    let v = vec![BotCommand::Withdraw, BotCommand::Prompt, BotCommand::SendMessage];
    assert(v@ =~= manage_commands());
    v
}

/// The commands the music module registers.
pub fn music_export() -> (v: Vec<BotCommand>)
    ensures
        v@ == music_commands(),
{
    let v = vec![BotCommand::Music];
    assert(v@ =~= music_commands());
    v
}

/// No command is registered twice: the three modules' lists, joined, hold
/// each command once.
pub proof fn lemma_exports_disjoint()
    ensures
        (general_commands() + manage_commands() + music_commands()).no_duplicates(),
{
    let all = general_commands() + manage_commands() + music_commands();
    assert(all =~= seq![BotCommand::Ping, BotCommand::Register, BotCommand::Status, BotCommand::Clear, BotCommand::Help, BotCommand::Version, BotCommand::Withdraw, BotCommand::Prompt, BotCommand::SendMessage, BotCommand::Music]);
}

/// Sets the bot's activity when it connects.
pub struct StartHandler;

impl StartHandler {
    /// The activity to show once connected: the saved one.
    pub fn startup_activity(&self, data: &DataConfig) -> (a: ActivityData)
        ensures
            activity_view(a) == activity_view(data.bot_activity),
    {
        data.bot_activity.duplicate()
    }
}

/// Answers the `!ping` and `!messageme` messages.
pub struct GuildMessageHandler;

/// The same handler under the name the hub module gives it.
pub type GuildMessagesHandler = GuildMessageHandler;

/// What a message asks of the `!ping` / `!messageme` handler.
#[derive(PartialEq, Eq, Structural, Debug)]
pub enum GuildMessageAction {
    /// Nothing.
    Ignore,
    /// Tell the channel that `!ping` was used in it.
    PingReply,
    /// Send the author `Hello!!!` in private.
    HelloInPrivate,
}

/// The handler's decision on a message of `author_id`; `is_private` tells
/// whether it came in a private channel, where `!ping` has no guild channel
/// to mention and is not answered.
pub open spec fn guild_message_action(author_id: u64, bot_id: u64, is_private: bool, content: Seq<char>) -> GuildMessageAction {
    if author_id == bot_id {
        GuildMessageAction::Ignore
    } else if content == "!ping"@ {
        if is_private {
            GuildMessageAction::Ignore
        } else {
            GuildMessageAction::PingReply
        }
    } else if content == "!messageme"@ {
        GuildMessageAction::HelloInPrivate
    } else {
        GuildMessageAction::Ignore
    }
}

/// What serenity's `MessageBuilder::push_bold_safe` makes of a text: the text
/// with invite links and direction marks neutralised and `**` replaced,
/// between `**` markers.
pub uninterp spec fn bold_safe(content: Seq<char>) -> Seq<char>;

/// Calls serenity's `MessageBuilder::new().push_bold_safe(content).build()`.
/// The contract only names the result (`bold_safe`).
#[verifier::external_body]
fn serenity_bold_safe(content: &str) -> (s: String)
    ensures
        s@ == bold_safe(content@),
{
    serenity::utils::MessageBuilder::new().push_bold_safe(content).build()
}

/// `content` in bold as serenity's `MessageBuilder::push_bold_safe` writes it.
pub fn bold_safe_text(content: &str) -> (s: String)
    ensures
        s@ == bold_safe(content@),
{
    serenity_bold_safe(content)
}

/// The answer to `!ping` in the channel `channel_id`.
pub open spec fn ping_channel_text(channel_id: u64) -> Seq<char> {
    "User "@ + bold_safe("used the 'ping' command in the "@) + channel_mention(channel_id) + " channel"@
}

impl GuildMessageHandler {
    /// The activity set when the bot has connected: `Playing RustRover`.
    pub fn ready_activity(&self) -> (a: ActivityData)
        ensures
            activity_view(a) == ("RustRover"@, ActivityKind::Playing, None::<Seq<char>>, None::<Seq<char>>),
    {
        ActivityData::playing("RustRover")
    }

    /// Decides what a new message asks.
    pub fn on_message(&self, author_id: u64, bot_id: u64, is_private: bool, content: &str) -> (a: GuildMessageAction)
        ensures
            a == guild_message_action(author_id, bot_id, is_private, content@),
    {
        if author_id == bot_id {
            GuildMessageAction::Ignore
        } else if crate::text::str_eq(content, "!ping") {
            if is_private {
                GuildMessageAction::Ignore
            } else {
                GuildMessageAction::PingReply
            }
        } else if crate::text::str_eq(content, "!messageme") {
            GuildMessageAction::HelloInPrivate
        } else {
            GuildMessageAction::Ignore
        }
    }

    /// The answer to `!ping` in the channel `channel_id`.
    pub fn ping_reply(&self, channel_id: u64) -> (s: String)
        ensures
            s@ == ping_channel_text(channel_id),
    {
        let b = serenity_bold_safe("used the 'ping' command in the ");
        self.ping_reply_with(b.as_str(), channel_id)
    }

    /// The answer to `!ping` given the bold text serenity made.
    pub fn ping_reply_with(&self, bold: &str, channel_id: u64) -> (s: String)
        ensures
            s@ == "User "@ + bold@ + channel_mention(channel_id) + " channel"@,
    {
        let mut s = String::from_str("User ");
        s.append(bold);
        s.append("<#");
        push_decimal(&mut s, channel_id);
        s.append(">");
        s.append(" channel");
        s
    }

    /// The private message `!messageme` sends.
    pub fn hello_text(&self) -> (s: String)
        ensures
            s@ == "Hello!!!"@,
    {
        String::from_str("Hello!!!")
    }
}

} // verus!
