use cc_bot::activity::{autocomplete_activity_type, match_activity_type, try_match_activity_type, ActivityData, ActivityKind};
use cc_bot::config::{withdraw_list_text, DataConfig, ManagerHandler, VoiceChannel};
use cc_bot::music::{
    channel_status_text, continue_command, format_chinese_time, left_reply, leave_failed_reply, not_joined_reply, pause_command, play_reply,
    play_search_site, play_source, track_link_and_title, PlaySource,
};

fn data() -> DataConfig {
    DataConfig::with_activity(ActivityData::playing("原神"))
}

fn channel(id: u64, name: &str) -> VoiceChannel {
    VoiceChannel { id, guild_id: 1, name: name.to_string() }
}

#[test]
fn withdraw_add_and_remove() {
    let mut d = data();
    let o = d.withdraw_add(42);
    assert!(o.changed);
    assert_eq!(o.reply, "已将频道 <#42> 添加到撤回列表");
    assert_eq!(o.announcement.as_deref(), Some("**<#42> 已经被添加到撤回列表中，所有消息将被自动删除。**"));
    assert!(d.is_monitored(42));
    let again = d.withdraw_add(42);
    assert!(!again.changed);
    assert_eq!(again.reply, "频道 <#42> 已经在撤回列表中");
    assert!(again.announcement.is_none());
    let r = d.withdraw_remove(42);
    assert!(r.changed);
    assert_eq!(r.reply, "已将频道 <#42> 从撤回列表中移除");
    assert_eq!(r.announcement.as_deref(), Some("**<#42> 已经从撤回列表中移除，消息将不再被自动删除。**"));
    assert!(!d.is_monitored(42));
    let none = d.withdraw_remove(42);
    assert!(!none.changed);
    assert_eq!(none.reply, "频道 <#42> 不在撤回列表中");
}

#[test]
fn manager_withdraws_others_messages_in_listed_channels() {
    let mut d = data();
    let m = ManagerHandler;
    d.add_monitored_channel(5);
    assert!(m.should_withdraw(&d, 1, 9, 5));
    assert!(!m.should_withdraw(&d, 9, 9, 5));
    assert!(!m.should_withdraw(&d, 1, 9, 6));
    d.remove_monitored_channel(5);
    assert!(!m.should_withdraw(&d, 1, 9, 5));
}

#[test]
fn withdraw_list() {
    let mut d = data();
    assert_eq!(withdraw_list_text(&d.monitored_channel_list()), "当前没有监控消息撤回的频道");
    d.add_monitored_channel(3);
    d.add_monitored_channel(4);
    let mut ids = d.monitored_channel_list();
    ids.sort();
    assert_eq!(ids, vec![3, 4]);
    assert_eq!(withdraw_list_text(&ids), "**当前不允许发消息的频道**\n<#3>\n<#4>\n");
}

#[test]
fn voice_channel_state() {
    let mut d = data();
    assert_eq!(d.get_current_voice_channel().err().as_deref(), Some("当前没有加入任何语音频道"));
    assert_eq!(d.status_channel().err().as_deref(), Some("更新语音频道状态失败，可能没有加入语音频道"));
    assert_eq!(d.join_voice_channel(channel(7, "music")), "已加入语音频道: music");
    assert_eq!(d.get_current_voice_channel().unwrap().id, 7);
    assert_eq!(d.status_channel(), Ok(7));
    assert_eq!(d.join_voice_channel(channel(8, "other")), "已加入语音频道: other");
    assert_eq!(d.get_current_voice_channel().unwrap().id, 8);
    assert_eq!(d.status_channel(), Ok(8));
    d.set_current_voice_channel(channel(9, "other"));
    assert_eq!(d.get_current_voice_channel().unwrap().name, "other");
    d.clear_voice_channel();
    assert!(d.get_current_voice_channel().is_err());
}

#[test]
fn play_requests() {
    assert_eq!(play_source("https://www.bilibili.com/video/BV1xx"), PlaySource::Link);
    assert_eq!(play_source("http://a.b"), PlaySource::Link);
    assert_eq!(play_source("原神 主题曲"), PlaySource::BilibiliSearch { limit: 5 });
    assert_eq!(play_search_site(), "bilisearch");
    assert_eq!(track_link_and_title(None, None), ("获取链接失败".to_string(), "原神".to_string()));
    assert_eq!(
        track_link_and_title(Some("u".to_string()), Some("t".to_string())),
        ("u".to_string(), "t".to_string())
    );
    assert_eq!(play_reply("Song", "https://x", "3分钟"), "🎵 开始播放 [Song](https://x) 时长 **3分钟**");
    assert_eq!(channel_status_text("Song"), "正在播放 [Song]");
    assert_eq!(channel_status_text(""), "正在播放 []");
}

#[test]
fn track_commands_and_leave() {
    let p = pause_command(true);
    assert!(p.act);
    assert_eq!(p.reply.as_deref(), Some("已暂停"));
    let q = pause_command(false);
    assert!(!q.act);
    assert_eq!(q.reply.as_deref(), Some("当前没有播放的音频"));
    let c = continue_command(true);
    assert!(c.act && c.reply.is_none());
    assert_eq!(continue_command(false).reply.as_deref(), Some("没有在播放音乐，无法继续播放"));
    assert_eq!(not_joined_reply(), "当前未加入任何一个语音频道");
    assert_eq!(leave_failed_reply(), "离开语音频道失败");
    assert_eq!(left_reply("music"), "已离开频道 music");
}

#[test]
fn activities() {
    let a = match_activity_type("playing", "原神", None);
    assert_eq!((a.name.as_str(), a.kind, a.state, a.url), ("原神", ActivityKind::Playing, None, None));
    let w = match_activity_type("watching", "v", None);
    assert_eq!(w.kind, ActivityKind::Watching);
    let l = match_activity_type("listening", "v", None);
    assert_eq!(l.kind, ActivityKind::Listening);
    let c = match_activity_type("dancing", "v", None);
    assert_eq!((c.name.as_str(), c.kind, c.state.as_deref()), ("~", ActivityKind::Custom, Some("v")));
    let s = match_activity_type("streaming", "live", None);
    assert_eq!(s.kind, ActivityKind::Streaming);
    assert_eq!(s.url.as_deref(), Some("https://ys.mihoyo.com/"));
    let t = try_match_activity_type("streaming", "live", Some("https://twitch.tv/me")).unwrap();
    assert_eq!(t.url.as_deref(), Some("https://twitch.tv/me"));
    assert!(try_match_activity_type("streaming", "live", Some("not a link")).is_none());
    assert!(try_match_activity_type("playing", "x", Some("not a link")).is_some());
    assert_eq!(autocomplete_activity_type("s"), vec!["streaming"]);
    assert_eq!(autocomplete_activity_type("").len(), 5);
    assert_eq!(autocomplete_activity_type("w"), vec!["watching"]);
    assert!(autocomplete_activity_type("x").is_empty());
    assert_eq!(ActivityData::custom("hi").name, "~");
}

#[test]
fn track_lengths_in_chinese_units() {
    assert_eq!(format_chinese_time(0), "0秒");
    assert_eq!(format_chinese_time(59), "59秒");
    assert_eq!(format_chinese_time(60), "1分0秒");
    assert_eq!(format_chinese_time(205), "3分25秒");
    assert_eq!(format_chinese_time(3600), "1小时0分0秒");
    assert_eq!(format_chinese_time(3725), "1小时2分5秒");
}
