use cc_bot::general::{
    check_send_message, created_at_millis, general_export, help_text, manage_export, music_export, ping_reply, version_text,
    with_time_to_utc8,
    BotCommand, GuildMessageAction, GuildMessageHandler, StartHandler,
};
use cc_bot::prompt::{
    autocomplete_ai_prompt_list, current_prompt_reply, delete_path, delete_reply, prompt_file_path, switched_reply, upload_path,
    PromptError, PromptSettings,
};
use cc_bot::shared::UpSafeCell;
use cc_bot::utils::{config_dir_status, required_config_files};
use cc_bot::activity::ActivityKind;
use cc_bot::yt_dlp::{Search, YtDlp};

#[test]
fn ping_replies() {
    assert_eq!(ping_reply(None), "请选择一个用户");
    // 175928847299117063 was created at 2016-04-30T11:18:25.796Z.
    assert_eq!(created_at_millis(175928847299117063), 1462015105796);
    assert_eq!(
        ping_reply(Some(175928847299117063)),
        "<@175928847299117063> 用户id为 `175928847299117063` 创建于 2016-04-30 19:18:25"
    );
    assert_eq!(created_at_millis(0), 1420070400000);
}

#[test]
fn help_version_and_send_message() {
    assert_eq!(help_text("1.0", "# manual"), "当前程序版本1.0\r\n# manual");
    assert_eq!(version_text("1.0", "https://r"), "当前版本为 **1.0** link: https://r");
    assert!(check_send_message(&"a".repeat(1999)).is_ok());
    assert_eq!(check_send_message(&"a".repeat(2000)).err().as_deref(), Some("消息长度超过2000字，请重新输入"));
    assert!(check_send_message(&"字".repeat(700)).is_ok());
    assert!(check_send_message(&"字".repeat(1999)).is_ok());
    assert!(check_send_message(&"字".repeat(2000)).is_err());
}

#[test]
fn command_exports() {
    assert_eq!(
        general_export(),
        vec![BotCommand::Ping, BotCommand::Register, BotCommand::Status, BotCommand::Clear, BotCommand::Help, BotCommand::Version]
    );
    assert_eq!(manage_export(), vec![BotCommand::Withdraw, BotCommand::Prompt, BotCommand::SendMessage]);
    assert_eq!(music_export(), vec![BotCommand::Music]);
}

#[test]
fn guild_message_handler() {
    let h = GuildMessageHandler;
    assert_eq!(h.on_message(1, 2, false, "!ping"), GuildMessageAction::PingReply);
    assert_eq!(h.on_message(1, 2, true, "!ping"), GuildMessageAction::Ignore);
    assert_eq!(h.on_message(1, 2, false, "!messageme"), GuildMessageAction::HelloInPrivate);
    assert_eq!(h.on_message(1, 2, true, "!messageme"), GuildMessageAction::HelloInPrivate);
    assert_eq!(h.on_message(2, 2, false, "!ping"), GuildMessageAction::Ignore);
    assert_eq!(h.on_message(1, 2, false, "!ping "), GuildMessageAction::Ignore);
    assert_eq!(h.ping_reply(5), "User **used the 'ping' command in the **<#5> channel");
    assert_eq!(h.hello_text(), "Hello!!!");
}

#[test]
fn start_handler_uses_saved_activity() {
    let d = cc_bot::config::DataConfig::with_activity(cc_bot::activity::ActivityData::watching("x"));
    let a = StartHandler.startup_activity(&d);
    assert_eq!(a.name, "x");
    assert_eq!(a.kind, cc_bot::activity::ActivityKind::Watching);
}

#[test]
fn prompt_files() {
    assert_eq!(prompt_file_path("a.md"), "config/a.md");
    assert_eq!(upload_path("role"), Ok("config/role.md".to_string()));
    assert_eq!(upload_path("role.md"), Err(PromptError::BadRoleName));
    assert_eq!(delete_path("a.md"), Ok("config/a.md".to_string()));
    assert_eq!(delete_path("a.txt"), Err(PromptError::BadFileName));
    assert_eq!(PromptError::BadRoleName.message(), "角色名不符合要求");
    assert_eq!(PromptError::BadFileName.message(), "文件名不符合要求，需以.md结尾");
    assert_eq!(PromptError::NoSystemPrompt.message(), "未设置系统提示！");
    assert_eq!(delete_reply("a.md", true), "删除**a.md**成功");
    assert_eq!(delete_reply("a.md", false), "删除**a.md**失败");
    assert_eq!(switched_reply("a.md", "hi"), "已使用 a.md 的提示文件\r\n hi");
    assert_eq!(current_prompt_reply("a.md", "hi"), "已使用 a.md 的提示文件\r\n > hi");
    let names = vec!["a.md".to_string(), ".env".to_string(), "b.md".to_string(), "ab.md".to_string(), "data.json".to_string()];
    assert_eq!(autocomplete_ai_prompt_list(&names, "a"), vec!["a.md", "ab.md"]);
    assert_eq!(autocomplete_ai_prompt_list(&names, ""), vec!["a.md", "b.md", "ab.md"]);
}

#[test]
fn prompt_settings() {
    let mut p = PromptSettings { system_prompt_file: "config/奶盖波波糖.md".to_string(), enable_thinking: false };
    assert_eq!(p.init_prompt().as_deref(), Some("奶盖波波糖.md"));
    assert_eq!(p.system_prompt_file, "config/奶盖波波糖.md");
    assert_eq!(p.get_system_prompt("text"), Ok(("奶盖波波糖.md".to_string(), "text".to_string())));
    p.use_others_prompt("b.md");
    assert_eq!(p.system_prompt_file, "config/b.md");
    let mut empty = PromptSettings { system_prompt_file: String::new(), enable_thinking: true };
    assert_eq!(empty.init_prompt(), None);
    assert_eq!(empty.get_system_prompt("x"), Err(PromptError::NoSystemPrompt));
    assert_eq!(PromptSettings::system_prompt_of(Some("n"), "c"), Ok(("n".to_string(), "c".to_string())));
}

#[test]
fn yt_dlp_search() {
    assert_eq!(Search::Bilibili.into_str(), "bilisearch");
    assert_eq!(Search::Youtube.into_str(), "ytsearch");
    assert_eq!(Search::TikTok.into_str(), "tiktok");
    let y = YtDlp::new(Search::Bilibili);
    assert_eq!(
        y.search_args("原神", 2).unwrap(),
        vec!["-j", "bilisearch:2:原神", "-f", "ba[abr>0][vcodec=none]/best", "--no-playlist"]
    );
    assert_eq!(y.search_args("x", 0).err().as_deref(), Some("搜索长度不能为0"));
}

#[test]
fn up_safe_cell() {
    let mut c = UpSafeCell::new(vec![1u8]);
    c.exclusive_access().push(2);
    assert_eq!(c.access(), &vec![1, 2]);
}

#[test]
fn config_dir() {
    assert!(config_dir_status(true, true, true).is_ok());
    assert_eq!(config_dir_status(true, false, true).err().as_deref(), Some("config dir exists but config file not found"));
}

#[test]
fn replies_built_around_outside_results() {
    assert_eq!(
        cc_bot::general::ping_user_reply(7, "2020-01-01 08:00:00"),
        "<@7> 用户id为 `7` 创建于 2020-01-01 08:00:00"
    );
    assert_eq!(GuildMessageHandler.ping_reply_with("**x**", 12), "User **x**<#12> channel");
}

#[test]
fn init_prompt_from_a_file_name() {
    let mut p = PromptSettings { system_prompt_file: "x/y.md".to_string(), enable_thinking: true };
    assert_eq!(p.init_prompt_from(Some("y.md".to_string())).as_deref(), Some("y.md"));
    assert_eq!(p.system_prompt_file, "config/y.md");
    assert_eq!(p.init_prompt_from(None), None);
    assert_eq!(p.system_prompt_file, "config/y.md");
    assert!(p.enable_thinking);
}

#[test]
fn utc8_time_of_an_instant() {
    assert_eq!(with_time_to_utc8(0).as_deref(), Some("1970-01-01 08:00:00"));
    assert_eq!(with_time_to_utc8(1_577_836_800_000).as_deref(), Some("2020-01-01 08:00:00"));
    assert_eq!(with_time_to_utc8(1_577_894_399_999).as_deref(), Some("2020-01-01 23:59:59"));
    assert_eq!(with_time_to_utc8(-1000).as_deref(), Some("1970-01-01 07:59:59"));
    assert_eq!(with_time_to_utc8(i64::MAX), None);
}

#[test]
fn ready_sets_playing_rustrover() {
    let a = GuildMessageHandler.ready_activity();
    assert_eq!(a.name, "RustRover");
    assert_eq!(a.kind, ActivityKind::Playing);
    assert_eq!(a.state, None);
    assert_eq!(a.url, None);
}

#[test]
fn required_config_files_in_lookup_order() {
    assert_eq!(required_config_files(), vec!["config/.env", "config/data.json", "config/奶盖波波糖.md"]);
}

#[test]
fn switching_then_reading_the_prompt() {
    let mut p = PromptSettings { system_prompt_file: "prompts/a.md".to_string(), enable_thinking: false };
    assert_eq!(p.init_prompt().as_deref(), Some("a.md"));
    assert_eq!(p.system_prompt_file, "config/a.md");
    assert_eq!(p.init_prompt().as_deref(), Some("a.md"));
    assert_eq!(p.system_prompt_file, "config/a.md");
    p.use_others_prompt("猫娘.md");
    assert_eq!(p.get_system_prompt("喵"), Ok(("猫娘.md".to_string(), "喵".to_string())));
}
