//! The data the bot keeps between commands: the channels whose messages are
//! withdrawn, the bot's activity and the voice channel it has joined.
use vstd::prelude::*;
use std::collections::HashSet;
use crate::activity::{ActivityData, activity_view};
use crate::text::{decimal, push_decimal};

verus! {

broadcast use vstd::std_specs::hash::group_hash_axioms;

/// A voice channel of a guild.
pub struct VoiceChannel {
    /// The channel's id.
    pub id: u64,
    /// The guild the channel belongs to.
    pub guild_id: u64,
    /// The channel's name.
    pub name: String,
}

impl VoiceChannel {
    /// A copy of the channel.
    pub fn duplicate(&self) -> (c: VoiceChannel)
        ensures
            c == *self,
    {
        VoiceChannel { id: self.id, guild_id: self.guild_id, name: self.name.clone() }
    }
}

/// The bot's saved data.
pub struct DataConfig {
    /// The channels in which every message is withdrawn.
    pub monitored_channels: HashSet<u64>,
    /// The users who own the bot.
    pub owners: HashSet<u64>,
    /// The activity shown under the bot's name.
    pub bot_activity: ActivityData,
    /// The voice channel the bot has joined, if any.
    pub current_voice_channel: Option<VoiceChannel>,
}

/// The outcome of a change of the withdraw list.
pub struct WithdrawOutcome {
    /// Whether the list changed (and has to be saved).
    pub changed: bool,
    /// The announcement posted in the channel, if any.
    pub announcement: Option<String>,
    /// The reply to the user who gave the command.
    pub reply: String,
}

/// `<#id>`, the mention of a channel.
pub open spec fn channel_mention(id: u64) -> Seq<char> {
    "<#"@ + decimal(id as nat) + ">"@
}

fn push_channel_mention(s: &mut String, id: u64)
    ensures
        final(s)@ == old(s)@ + channel_mention(id),
{
    s.append("<#");
    push_decimal(s, id);
    s.append(">");
}

/// The reply to `/withdraw add` for a channel already listed.
pub open spec fn already_listed_reply(id: u64) -> Seq<char> {
    "频道 "@ + channel_mention(id) + " 已经在撤回列表中"@
}

/// The announcement posted in a channel added to the withdraw list.
pub open spec fn added_announcement(id: u64) -> Seq<char> {
    "**"@ + channel_mention(id) + " 已经被添加到撤回列表中，所有消息将被自动删除。**"@
}

/// The reply to `/withdraw add` for a channel added.
pub open spec fn added_reply(id: u64) -> Seq<char> {
    "已将频道 "@ + channel_mention(id) + " 添加到撤回列表"@
}

/// The reply to `/withdraw remove` for a channel removed.
pub open spec fn removed_reply(id: u64) -> Seq<char> {
    "已将频道 "@ + channel_mention(id) + " 从撤回列表中移除"@
}

/// The announcement posted in a channel removed from the withdraw list.
pub open spec fn removed_announcement(id: u64) -> Seq<char> {
    "**"@ + channel_mention(id) + " 已经从撤回列表中移除，消息将不再被自动删除。**"@
}

/// The reply to `/withdraw remove` for a channel that is not listed.
pub open spec fn not_listed_reply(id: u64) -> Seq<char> {
    "频道 "@ + channel_mention(id) + " 不在撤回列表中"@
}

/// The header of `/withdraw list`.
pub open spec fn list_header() -> Seq<char> {
    "**当前不允许发消息的频道**\n"@
}

/// The lines of `/withdraw list`, one mention per channel.
pub open spec fn list_lines(ids: Seq<u64>) -> Seq<char>
    decreases ids.len(),
{
    if ids.len() == 0 {
        seq![]
    } else {
        list_lines(ids.drop_last()) + channel_mention(ids.last()) + "\n"@
    }
}

/// The text of `/withdraw list` for the channels `ids`.
pub open spec fn list_text(ids: Seq<u64>) -> Seq<char> {
    if ids.len() == 0 {
        "当前没有监控消息撤回的频道"@
    } else {
        list_header() + list_lines(ids)
    }
}

impl DataConfig {
    /// Data with no channel listed, no owner, the given activity and no voice channel.
    pub fn with_activity(bot_activity: ActivityData) -> (d: DataConfig)
        ensures
            d.monitored_channels@ == Set::<u64>::empty(),
            d.owners@ == Set::<u64>::empty(),
            activity_view(d.bot_activity) == activity_view(bot_activity),
            d.current_voice_channel is None,
    {
        DataConfig {
            monitored_channels: HashSet::new(),
            owners: HashSet::new(),
            bot_activity,
            current_voice_channel: None,
        }
    }

    /// Adds a channel to the withdraw list.
    pub fn add_monitored_channel(&mut self, channel_id: u64)
        ensures
            final(self).monitored_channels@ == old(self).monitored_channels@.insert(channel_id),
            final(self).owners@ == old(self).owners@,
            final(self).bot_activity == old(self).bot_activity,
            final(self).current_voice_channel == old(self).current_voice_channel,
    {
        self.monitored_channels.insert(channel_id);
    }

    /// Removes a channel from the withdraw list.
    pub fn remove_monitored_channel(&mut self, channel_id: u64)
        ensures
            final(self).monitored_channels@ == old(self).monitored_channels@.remove(channel_id),
            final(self).owners@ == old(self).owners@,
            final(self).bot_activity == old(self).bot_activity,
            final(self).current_voice_channel == old(self).current_voice_channel,
    {
        self.monitored_channels.remove(&channel_id);
    }

    /// Whether the messages of the channel are withdrawn.
    pub fn is_monitored(&self, channel_id: u64) -> (b: bool)
        ensures
            b == self.monitored_channels@.contains(channel_id),
    {
        self.monitored_channels.contains(&channel_id)
    }

    /// `/withdraw add <channel>`: lists the channel unless it is listed already.
    pub fn withdraw_add(&mut self, channel_id: u64) -> (o: WithdrawOutcome)
        ensures
            final(self).monitored_channels@ == old(self).monitored_channels@.insert(channel_id),
            final(self).owners@ == old(self).owners@,
            final(self).bot_activity == old(self).bot_activity,
            final(self).current_voice_channel == old(self).current_voice_channel,
            o.changed == !old(self).monitored_channels@.contains(channel_id),
            o.changed ==> (o.announcement matches Some(a) && a@ == added_announcement(channel_id)),
            !o.changed ==> o.announcement is None,
            o.reply@ == if o.changed {
                added_reply(channel_id)
            } else {
                already_listed_reply(channel_id)
            },
    {
        let exists = self.is_monitored(channel_id);
        if exists {
            assert(self.monitored_channels@.insert(channel_id) =~= self.monitored_channels@);
            let mut reply = String::from_str("频道 ");
            push_channel_mention(&mut reply, channel_id);
            reply.append(" 已经在撤回列表中");
            WithdrawOutcome { changed: false, announcement: None, reply }
        } else {
            self.add_monitored_channel(channel_id);
            let mut announcement = String::from_str("**");
            push_channel_mention(&mut announcement, channel_id);
            announcement.append(" 已经被添加到撤回列表中，所有消息将被自动删除。**");
            let mut reply = String::from_str("已将频道 ");
            push_channel_mention(&mut reply, channel_id);
            reply.append(" 添加到撤回列表");
            WithdrawOutcome { changed: true, announcement: Some(announcement), reply }
        }
    }

    /// `/withdraw remove <channel>`: unlists the channel if it is listed.
    pub fn withdraw_remove(&mut self, channel_id: u64) -> (o: WithdrawOutcome)
        ensures
            final(self).monitored_channels@ == old(self).monitored_channels@.remove(channel_id),
            final(self).owners@ == old(self).owners@,
            final(self).bot_activity == old(self).bot_activity,
            final(self).current_voice_channel == old(self).current_voice_channel,
            o.changed == old(self).monitored_channels@.contains(channel_id),
            o.changed ==> (o.announcement matches Some(a) && a@ == removed_announcement(channel_id)),
            !o.changed ==> o.announcement is None,
            o.reply@ == if o.changed {
                removed_reply(channel_id)
            } else {
                not_listed_reply(channel_id)
            },
    {
        let exists = self.is_monitored(channel_id);
        if exists {
            self.remove_monitored_channel(channel_id);
            let mut announcement = String::from_str("**");
            push_channel_mention(&mut announcement, channel_id);
            announcement.append(" 已经从撤回列表中移除，消息将不再被自动删除。**");
            let mut reply = String::from_str("已将频道 ");
            push_channel_mention(&mut reply, channel_id);
            reply.append(" 从撤回列表中移除");
            WithdrawOutcome { changed: true, announcement: Some(announcement), reply }
        } else {
            assert(self.monitored_channels@.remove(channel_id) =~= self.monitored_channels@);
            let mut reply = String::from_str("频道 ");
            push_channel_mention(&mut reply, channel_id);
            reply.append(" 不在撤回列表中");
            WithdrawOutcome { changed: false, announcement: None, reply }
        }
    }

    /// The listed channels, each once, in the set's own order.
    pub fn monitored_channel_list(&self) -> (ids: Vec<u64>)
        ensures
            ids@.no_duplicates(),
            ids@.to_set() == self.monitored_channels@,
    {
        let mut ids: Vec<u64> = Vec::new();
        let ghost keys = vstd::std_specs::iter::IteratorSpec::remaining(
            &vstd::std_specs::hash::spec_hash_keys_iter(&self.monitored_channels),
        );
        for id in it: self.monitored_channels.iter()
            invariant
                it.seq() == keys,
                ids@ == keys.take(it.index() as int).unref(),
        {
            assert(keys.take(it.index() + 1).unref() =~= keys.take(it.index() as int).unref().push(*id));
            ids.push(*id);
        }
        assert(ids@ =~= keys.unref());
        proof {
            assert forall|i: int, j: int| 0 <= i < ids@.len() && 0 <= j < ids@.len() && i != j implies ids@[i] != ids@[j] by {
                assert(keys[i] != keys[j]);
            }
        }
        ids
    }
}

/// The text of `/withdraw list` for the channels `ids`.
pub fn withdraw_list_text(ids: &Vec<u64>) -> (s: String)
    ensures
        s@ == list_text(ids@),
{
    if ids.len() == 0 {
        return String::from_str("当前没有监控消息撤回的频道");
    }
    let mut s = String::from_str("**当前不允许发消息的频道**\n");
    let mut i: usize = 0;
    while i < ids.len()
        invariant
            i <= ids.len(),
            ids.len() > 0,
            s@ == list_header() + list_lines(ids@.take(i as int)),
        decreases ids.len() - i,
    {
        assert(ids@.take(i + 1).drop_last() =~= ids@.take(i as int));
        push_channel_mention(&mut s, ids[i]);
        s.append("\n");
        i = i + 1;
        assert(s@ =~= list_header() + list_lines(ids@.take(i as int)));
    }
    assert(ids@.take(i as int) =~= ids@);
    s
}

/// Withdraws the messages of the listed channels.
pub struct ManagerHandler;

/// Whether the message is withdrawn: it is not the bot's own and its channel
/// is on the list.
pub open spec fn withdraws(monitored: Set<u64>, author_id: u64, bot_id: u64, channel_id: u64) -> bool {
    author_id != bot_id && monitored.contains(channel_id)
}

/// After `/withdraw add <c>`, every message of another user in `c` is
/// withdrawn; the bot's own messages never are.
pub proof fn lemma_added_channel_is_withdrawn(monitored: Set<u64>, c: u64, author_id: u64, bot_id: u64)
    ensures
        withdraws(monitored.insert(c), author_id, bot_id, c) <==> author_id != bot_id,
{
}

/// After `/withdraw remove <c>`, no message of `c` is withdrawn.
pub proof fn lemma_removed_channel_is_kept(monitored: Set<u64>, c: u64, author_id: u64, bot_id: u64)
    ensures
        !withdraws(monitored.remove(c), author_id, bot_id, c),
{
}

/// Adding or removing a channel leaves every other channel as it was.
pub proof fn lemma_withdraw_changes_one_channel(monitored: Set<u64>, c: u64, d: u64, author_id: u64, bot_id: u64)
    requires
        c != d,
    ensures
        withdraws(monitored.insert(c), author_id, bot_id, d) == withdraws(monitored, author_id, bot_id, d),
        withdraws(monitored.remove(c), author_id, bot_id, d) == withdraws(monitored, author_id, bot_id, d),
{
}

/// Adding a channel twice is adding it once, and the second time reports no
/// change (`changed` is false for a listed channel).
pub proof fn lemma_withdraw_add_idempotent(monitored: Set<u64>, c: u64)
    ensures
        monitored.insert(c).insert(c) == monitored.insert(c),
        monitored.insert(c).contains(c),
{
    assert(monitored.insert(c).insert(c) =~= monitored.insert(c));
}

/// Removing a channel that was just added to a list without it gives the
/// list back.
pub proof fn lemma_withdraw_remove_undoes_add(monitored: Set<u64>, c: u64)
    requires
        !monitored.contains(c),
    ensures
        monitored.insert(c).remove(c) == monitored,
{
    assert(monitored.insert(c).remove(c) =~= monitored);
}

impl ManagerHandler {
    /// Whether a new message is deleted.
    pub fn should_withdraw(&self, data: &DataConfig, author_id: u64, bot_id: u64, channel_id: u64) -> (b: bool)
        ensures
            b == withdraws(data.monitored_channels@, author_id, bot_id, channel_id),
    {
        author_id != bot_id && data.is_monitored(channel_id)
    }
}

} // verus!
