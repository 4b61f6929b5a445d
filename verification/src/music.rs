//! The `/music` commands: which voice channel the bot is in, what a `play`
//! request asks for, and what each command answers.
use vstd::prelude::*;
use crate::config::{DataConfig, VoiceChannel};
use crate::text::{decimal, has_prefix, push_decimal, starts_with};

verus! {

impl DataConfig {
    /// `/music join`: remembers the channel as the bot's voice channel and
    /// returns the reply `已加入语音频道: <name>`.
    pub fn join_voice_channel(&mut self, channel: VoiceChannel) -> (reply: String)
        ensures
            reply@ == "已加入语音频道: "@ + channel.name@,
            final(self).current_voice_channel == Some(channel),
            final(self).monitored_channels@ == old(self).monitored_channels@,
            final(self).owners@ == old(self).owners@,
            final(self).bot_activity == old(self).bot_activity,
    {
        let mut reply = String::from_str("已加入语音频道: ");
        reply.append(channel.name.as_str());
        self.current_voice_channel = Some(channel);
        reply
    }

    /// Remembers `channel` as the bot's voice channel.
    pub fn set_current_voice_channel(&mut self, channel: VoiceChannel)
        ensures
            final(self).current_voice_channel == Some(channel),
            final(self).monitored_channels@ == old(self).monitored_channels@,
            final(self).owners@ == old(self).owners@,
            final(self).bot_activity == old(self).bot_activity,
    {
        self.current_voice_channel = Some(channel);
    }

    /// The bot's voice channel, or the error `当前没有加入任何语音频道`.
    pub fn get_current_voice_channel(&self) -> (r: Result<VoiceChannel, String>)
        ensures
            match self.current_voice_channel {
                Some(c) => r == Ok::<VoiceChannel, String>(c),
                None => r matches Err(e) && e@ == "当前没有加入任何语音频道"@,
            },
    {
        match &self.current_voice_channel {
            Some(c) => Ok(c.duplicate()),
            None => Err(String::from_str("当前没有加入任何语音频道")),
        }
    }

    /// Forgets the bot's voice channel.
    pub fn clear_voice_channel(&mut self)
        ensures
            final(self).current_voice_channel is None,
            final(self).monitored_channels@ == old(self).monitored_channels@,
            final(self).owners@ == old(self).owners@,
            final(self).bot_activity == old(self).bot_activity,
    {
        self.current_voice_channel = None;
    }

    /// The channel whose status `play` updates, or the error
    /// `更新语音频道状态失败，可能没有加入语音频道`.
    pub fn status_channel(&self) -> (r: Result<u64, String>)
        ensures
            match self.current_voice_channel {
                Some(c) => r == Ok::<u64, String>(c.id),
                None => r matches Err(e) && e@ == "更新语音频道状态失败，可能没有加入语音频道"@,
            },
    {
        match &self.current_voice_channel {
            Some(c) => Ok(c.id),
            None => Err(String::from_str("更新语音频道状态失败，可能没有加入语音频道")),
        }
    }
}

/// A track's length of `secs` seconds in Chinese units: `<h>小时<m>分<s>秒`,
/// without the hours when there are none, and without the minutes too when
/// it is shorter than a minute.
pub open spec fn chinese_time(secs: nat) -> Seq<char> {
    let h = secs / 3600;
    let m = secs % 3600 / 60;
    let s = secs % 60;
    if h > 0 {
        decimal(h) + "小时"@ + decimal(m) + "分"@ + decimal(s) + "秒"@
    } else if m > 0 {
        decimal(m) + "分"@ + decimal(s) + "秒"@
    } else {
        decimal(s) + "秒"@
    }
}

/// The length shown when a track starts playing.
pub fn format_chinese_time(secs: u64) -> (t: String)
    ensures
        t@ == chinese_time(secs as nat),
{
    let h = secs / 3600;
    let m = secs % 3600 / 60;
    let s = secs % 60;
    let mut t = String::new();
    if h > 0 {
        push_decimal(&mut t, h);
        t.append("小时");
    }
    if h > 0 || m > 0 {
        push_decimal(&mut t, m);
        t.append("分");
    }
    push_decimal(&mut t, s);
    t.append("秒");
    t
}

/// The voice channel's status while `title` plays: `正在播放 [<title>]`.
pub fn channel_status_text(title: &str) -> (s: String)
    ensures
        s@ == "正在播放 ["@ + title@ + "]"@,
{
    let mut s = String::from_str("正在播放 [");
    s.append(title);
    s.append("]");
    s
}

/// Whether `play`'s argument is a link to play directly (rather than words
/// to search for).
pub open spec fn is_direct_link(text: Seq<char>) -> bool {
    has_prefix(text, "https://"@) || has_prefix(text, "http://"@)
}

/// How `play` finds its track.
#[derive(PartialEq, Eq, Structural, Debug)]
pub enum PlaySource {
    /// Read the metadata of the link itself.
    Link,
    /// Search bilibili and take the first of at most `limit` results.
    BilibiliSearch { limit: u8 },
}

/// The yt-dlp search prefix that `play` searches with.
pub fn play_search_site() -> (s: String)
    ensures
        s@ == "bilisearch"@,
{
    String::from_str("bilisearch")
}

/// How `play` finds the track for `text`.
pub fn play_source(text: &str) -> (s: PlaySource)
    ensures
        s == if is_direct_link(text@) {
            PlaySource::Link
        } else {
            PlaySource::BilibiliSearch { limit: 5 }
        },
{
    if starts_with(text, "https://") || starts_with(text, "http://") {
        PlaySource::Link
    } else {
        PlaySource::BilibiliSearch { limit: 5 }
    }
}

/// The link and title `play` announces: the track's own, or `获取链接失败`
/// and `原神` where the metadata lacks them.
pub fn track_link_and_title(source_url: Option<String>, title: Option<String>) -> (r: (String, String))
    ensures
        r.0@ == match source_url {
            Some(u) => u@,
            None => "获取链接失败"@,
        },
        r.1@ == match title {
            Some(t) => t@,
            None => "原神"@,
        },
{
    let url = match source_url {
        Some(u) => u,
        None => String::from_str("获取链接失败"),
    };
    let title = match title {
        Some(t) => t,
        None => String::from_str("原神"),
    };
    (url, title)
}

/// The reply of `play`: `🎵 开始播放 [<title>](<link>) 时长 **<duration>**`.
pub fn play_reply(title: &str, source_url: &str, duration: &str) -> (s: String)
    ensures
        s@ == "🎵 开始播放 ["@ + title@ + "]("@ + source_url@ + ") 时长 **"@ + duration@ + "**"@,
{
    let mut s = String::from_str("🎵 开始播放 [");
    s.append(title);
    s.append("](");
    s.append(source_url);
    s.append(") 时长 **");
    s.append(duration);
    s.append("**");
    s
}

/// What `pause` or `continue` does: act on the playing track, or only answer.
pub struct TrackCommand {
    /// Whether there is a track to act on.
    pub act: bool,
    /// The message posted, if any.
    pub reply: Option<String>,
}

/// `/music pause`: pauses the track and says `已暂停`, or says
/// `当前没有播放的音频` when nothing plays.
pub fn pause_command(has_track: bool) -> (c: TrackCommand)
    ensures
        c.act == has_track,
        c.reply matches Some(r) && r@ == if has_track {
            "已暂停"@
        } else {
            "当前没有播放的音频"@
        },
{
    if has_track {
        TrackCommand { act: true, reply: Some(String::from_str("已暂停")) }
    } else {
        TrackCommand { act: false, reply: Some(String::from_str("当前没有播放的音频")) }
    }
}

/// `/music continue`: resumes the track silently, or says
/// `没有在播放音乐，无法继续播放` when nothing plays.
pub fn continue_command(has_track: bool) -> (c: TrackCommand)
    ensures
        c.act == has_track,
        has_track ==> c.reply is None,
        !has_track ==> (c.reply matches Some(r) && r@ == "没有在播放音乐，无法继续播放"@),
{
    if has_track {
        TrackCommand { act: true, reply: None }
    } else {
        TrackCommand { act: false, reply: Some(String::from_str("没有在播放音乐，无法继续播放")) }
    }
}

/// The reply of `leave` when the bot is in no voice channel.
pub fn not_joined_reply() -> (s: String)
    ensures
        s@ == "当前未加入任何一个语音频道"@,
{
    String::from_str("当前未加入任何一个语音频道")
}

/// The reply of `leave` when the bot could not leave.
pub fn leave_failed_reply() -> (s: String)
    ensures
        s@ == "离开语音频道失败"@,
{
    String::from_str("离开语音频道失败")
}

/// The reply of `leave`: `已离开频道 <name>`.
pub fn left_reply(channel_name: &str) -> (s: String)
    ensures
        s@ == "已离开频道 "@ + channel_name@,
{
    let mut s = String::from_str("已离开频道 ");
    s.append(channel_name);
    s
}

} // verus!
