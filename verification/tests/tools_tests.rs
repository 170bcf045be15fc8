use nexus::entities::Platform;
use nexus::json::Json;
use nexus::tools::{
    about_message, deleted, limit_arg, not_configured_text, platforms_text, reacted, reply_target,
    select_tool, with_one, with_two, Configured, Tool,
};

fn all() -> Configured {
    Configured { telegram: true, gmail: true, whatsapp: true, slack: true, discord: true }
}

fn none() -> Configured {
    Configured { telegram: false, gmail: false, whatsapp: false, slack: false, discord: false }
}

fn j(text: &str) -> Json {
    Json::parse(text).unwrap()
}

#[test]
fn tools_are_found_by_name() {
    let names = [
        "get_profile", "list_channels", "read_messages", "send_message", "search", "list_platforms",
        "telegram_download_media", "telegram_forward_message", "telegram_edit_message",
        "telegram_delete_messages", "telegram_pin_message", "telegram_unpin_message",
        "telegram_get_chat_info", "telegram_mark_read", "telegram_get_message", "telegram_send_media",
        "telegram_react", "telegram_search_chat", "telegram_get_chat_members", "gmail_send_email",
        "gmail_archive", "gmail_list_labels", "gmail_add_label", "gmail_mark_read", "gmail_mark_unread",
        "gmail_star", "gmail_unstar", "gmail_move_to", "gmail_trash", "gmail_remove_label",
        "gmail_get_attachment", "gmail_create_draft", "whatsapp_send_media", "slack_set_status",
        "slack_create_channel", "slack_invite_to_channel", "slack_set_topic", "slack_add_reaction",
        "slack_remove_reaction", "slack_upload_file", "slack_list_users", "slack_get_user_info",
        "discord_list_guilds", "discord_list_guild_channels", "discord_create_thread",
        "discord_add_reaction", "discord_remove_reaction", "discord_pin_message",
    ];
    assert_eq!(names.len(), 48);
    for name in names {
        let tool = Tool::parse(name).unwrap();
        assert_eq!(tool.name(), name);
        let backend = tool.backend();
        let prefix = name.split('_').next().unwrap();
        let expected = match prefix {
            "telegram" => Some(Platform::Telegram),
            "gmail" => Some(Platform::Gmail),
            "whatsapp" => Some(Platform::WhatsApp),
            "slack" => Some(Platform::Slack),
            "discord" => Some(Platform::Discord),
            _ => None,
        };
        assert_eq!(backend, expected, "{name}");
    }
}

#[test]
fn tools_that_are_unknown_are_named() {
    assert_eq!(Tool::parse("fly"), Err("unknown tool: fly".to_string()));
    assert_eq!(Tool::parse(""), Err("unknown tool: ".to_string()));
    assert_eq!(Tool::parse("Get_Profile"), Err("unknown tool: Get_Profile".to_string()));
    assert_eq!(select_tool("fly", &all()), Err("unknown tool: fly".to_string()));
}

#[test]
fn tools_need_their_backend() {
    assert_eq!(select_tool("telegram_react", &all()), Ok(Tool::TelegramReact));
    assert_eq!(select_tool("get_profile", &none()), Ok(Tool::GetProfile));
    assert_eq!(select_tool("list_platforms", &none()), Ok(Tool::ListPlatforms));
    assert_eq!(
        select_tool("telegram_react", &none()),
        Err("telegram not configured. Set TELEGRAM_API_ID and TELEGRAM_API_HASH env vars".to_string())
    );
    assert_eq!(
        select_tool("gmail_star", &none()),
        Err("gmail not configured. Set GMAIL_ADDRESS and GMAIL_APP_PASSWORD env vars".to_string())
    );
    assert_eq!(
        select_tool("whatsapp_send_media", &none()),
        Err("whatsapp not configured. Set WHATSAPP_ACCESS_TOKEN and WHATSAPP_PHONE_NUMBER_ID env vars".to_string())
    );
    assert_eq!(
        select_tool("slack_set_topic", &none()),
        Err("slack not configured. Set SLACK_BOT_TOKEN env var".to_string())
    );
    assert_eq!(
        select_tool("discord_pin_message", &none()),
        Err("discord not configured. Set DISCORD_BOT_TOKEN env var".to_string())
    );
    let only_slack = Configured { slack: true, ..none() };
    assert!(only_slack.is_configured(Platform::Slack));
    assert!(!only_slack.is_configured(Platform::Discord));
    assert_eq!(select_tool("slack_list_users", &only_slack), Ok(Tool::SlackListUsers));
    assert!(select_tool("discord_list_guilds", &only_slack).is_err());
    assert_eq!(not_configured_text(Platform::Slack), "slack not configured. Set SLACK_BOT_TOKEN env var");
}

#[test]
fn tools_read_the_limit() {
    assert_eq!(limit_arg(&j(r#"{"limit":7}"#), 20), 7);
    assert_eq!(limit_arg(&j(r#"{"limit":0}"#), 20), 0);
    assert_eq!(limit_arg(&j(r#"{}"#), 20), 20);
    assert_eq!(limit_arg(&j(r#"{"limit":-1}"#), 50), 50);
    assert_eq!(limit_arg(&j(r#"{"limit":"7"}"#), 50), 50);
    assert_eq!(limit_arg(&j(r#"{"limit":7.0}"#), 50), 50);
    assert_eq!(limit_arg(&j(r#"{"limit":18446744073709551615}"#), 50), u64::MAX as usize);
}

#[test]
fn tools_read_the_reply_target() {
    assert_eq!(reply_target(&j(r#"{"reply_to":"abc"}"#)), Some("abc".to_string()));
    assert_eq!(reply_target(&j(r#"{"reply_to":12}"#)), Some("12".to_string()));
    assert_eq!(reply_target(&j(r#"{"reply_to":-12}"#)), Some("-12".to_string()));
    assert_eq!(reply_target(&j(r#"{"reply_to":1.5}"#)), None);
    assert_eq!(reply_target(&j(r#"{"reply_to":18446744073709551615}"#)), None);
    assert_eq!(reply_target(&j(r#"{"reply_to":null}"#)), None);
    assert_eq!(reply_target(&j(r#"{"reply_to":true}"#)), None);
    assert_eq!(reply_target(&j(r#"{}"#)), None);
}

#[test]
fn tools_confirm_what_was_done() {
    assert_eq!(platforms_text(&vec![Platform::Telegram, Platform::Slack]), "Connected platforms: telegram, slack");
    assert_eq!(platforms_text(&Vec::new()), "Connected platforms: ");
    assert_eq!(deleted(3, "Family"), "Deleted 3 message(s) from Family");
    assert_eq!(about_message("Pinned message ", 7, "Family"), "Pinned message 7 in Family");
    assert_eq!(about_message("Unpinned message ", -7, "x"), "Unpinned message -7 in x");
    assert_eq!(
        about_message("Marked read up to message ", 9, "Family"),
        "Marked read up to message 9 in Family"
    );
    assert_eq!(reacted("👍", 7, "Family"), "Reacted with 👍 to message 7 in Family");
    assert_eq!(with_one("Archived thread ", "t1", ""), "Archived thread t1");
    assert_eq!(with_one("Added :", "tada", ": reaction"), "Added :tada: reaction");
    assert_eq!(
        with_two("Added label '", "Work", "' to thread ", "t1", ""),
        "Added label 'Work' to thread t1"
    );
}
