//! The tools that a client can call: their names, the backend that each
//! of them needs, the arguments that they share, and the words that confirm
//! what was done.

use crate::entities::Platform;
use crate::json::{nat_of, natural, text, Json, JsonView};
use crate::text::{decimal, glue, i64_to_string, push_decimal, usize_to_string};
use vstd::prelude::*;

verus! {

/// The tools.
#[derive(Debug, Clone, Copy, PartialEq, Eq, Structural)]
pub enum Tool {
    GetProfile,
    ListChannels,
    ReadMessages,
    SendMessage,
    Search,
    ListPlatforms,
    TelegramDownloadMedia,
    TelegramForwardMessage,
    TelegramEditMessage,
    TelegramDeleteMessages,
    TelegramPinMessage,
    TelegramUnpinMessage,
    TelegramGetChatInfo,
    TelegramMarkRead,
    TelegramGetMessage,
    TelegramSendMedia,
    TelegramReact,
    TelegramSearchChat,
    TelegramGetChatMembers,
    GmailSendEmail,
    GmailArchive,
    GmailListLabels,
    GmailAddLabel,
    GmailMarkRead,
    GmailMarkUnread,
    GmailStar,
    GmailUnstar,
    GmailMoveTo,
    GmailTrash,
    GmailRemoveLabel,
    GmailGetAttachment,
    GmailCreateDraft,
    WhatsappSendMedia,
    SlackSetStatus,
    SlackCreateChannel,
    SlackInviteToChannel,
    SlackSetTopic,
    SlackAddReaction,
    SlackRemoveReaction,
    SlackUploadFile,
    SlackListUsers,
    SlackGetUserInfo,
    DiscordListGuilds,
    DiscordListGuildChannels,
    DiscordCreateThread,
    DiscordAddReaction,
    DiscordRemoveReaction,
    DiscordPinMessage,
}

/// The name under which a tool is called.
pub open spec fn tool_name(tool: Tool) -> Seq<char> {
    match tool {
        Tool::GetProfile => "get_profile"@,
        Tool::ListChannels => "list_channels"@,
        Tool::ReadMessages => "read_messages"@,
        Tool::SendMessage => "send_message"@,
        Tool::Search => "search"@,
        Tool::ListPlatforms => "list_platforms"@,
        Tool::TelegramDownloadMedia => "telegram_download_media"@,
        Tool::TelegramForwardMessage => "telegram_forward_message"@,
        Tool::TelegramEditMessage => "telegram_edit_message"@,
        Tool::TelegramDeleteMessages => "telegram_delete_messages"@,
        Tool::TelegramPinMessage => "telegram_pin_message"@,
        Tool::TelegramUnpinMessage => "telegram_unpin_message"@,
        Tool::TelegramGetChatInfo => "telegram_get_chat_info"@,
        Tool::TelegramMarkRead => "telegram_mark_read"@,
        Tool::TelegramGetMessage => "telegram_get_message"@,
        Tool::TelegramSendMedia => "telegram_send_media"@,
        Tool::TelegramReact => "telegram_react"@,
        Tool::TelegramSearchChat => "telegram_search_chat"@,
        Tool::TelegramGetChatMembers => "telegram_get_chat_members"@,
        Tool::GmailSendEmail => "gmail_send_email"@,
        Tool::GmailArchive => "gmail_archive"@,
        Tool::GmailListLabels => "gmail_list_labels"@,
        Tool::GmailAddLabel => "gmail_add_label"@,
        Tool::GmailMarkRead => "gmail_mark_read"@,
        Tool::GmailMarkUnread => "gmail_mark_unread"@,
        Tool::GmailStar => "gmail_star"@,
        Tool::GmailUnstar => "gmail_unstar"@,
        Tool::GmailMoveTo => "gmail_move_to"@,
        Tool::GmailTrash => "gmail_trash"@,
        Tool::GmailRemoveLabel => "gmail_remove_label"@,
        Tool::GmailGetAttachment => "gmail_get_attachment"@,
        Tool::GmailCreateDraft => "gmail_create_draft"@,
        Tool::WhatsappSendMedia => "whatsapp_send_media"@,
        Tool::SlackSetStatus => "slack_set_status"@,
        Tool::SlackCreateChannel => "slack_create_channel"@,
        Tool::SlackInviteToChannel => "slack_invite_to_channel"@,
        Tool::SlackSetTopic => "slack_set_topic"@,
        Tool::SlackAddReaction => "slack_add_reaction"@,
        Tool::SlackRemoveReaction => "slack_remove_reaction"@,
        Tool::SlackUploadFile => "slack_upload_file"@,
        Tool::SlackListUsers => "slack_list_users"@,
        Tool::SlackGetUserInfo => "slack_get_user_info"@,
        Tool::DiscordListGuilds => "discord_list_guilds"@,
        Tool::DiscordListGuildChannels => "discord_list_guild_channels"@,
        Tool::DiscordCreateThread => "discord_create_thread"@,
        Tool::DiscordAddReaction => "discord_add_reaction"@,
        Tool::DiscordRemoveReaction => "discord_remove_reaction"@,
        Tool::DiscordPinMessage => "discord_pin_message"@,
    }
}

/// The backend that a tool needs; the tools that go to whatever platform
/// their arguments name need none.
pub open spec fn tool_backend(tool: Tool) -> Option<Platform> {
    match tool {
        Tool::GetProfile | Tool::ListChannels | Tool::ReadMessages | Tool::SendMessage | Tool::Search | Tool::ListPlatforms => None,
        Tool::TelegramDownloadMedia | Tool::TelegramForwardMessage | Tool::TelegramEditMessage | Tool::TelegramDeleteMessages | Tool::TelegramPinMessage | Tool::TelegramUnpinMessage | Tool::TelegramGetChatInfo | Tool::TelegramMarkRead | Tool::TelegramGetMessage | Tool::TelegramSendMedia | Tool::TelegramReact | Tool::TelegramSearchChat | Tool::TelegramGetChatMembers => Some(Platform::Telegram),
        Tool::GmailSendEmail | Tool::GmailArchive | Tool::GmailListLabels | Tool::GmailAddLabel | Tool::GmailMarkRead | Tool::GmailMarkUnread | Tool::GmailStar | Tool::GmailUnstar | Tool::GmailMoveTo | Tool::GmailTrash | Tool::GmailRemoveLabel | Tool::GmailGetAttachment | Tool::GmailCreateDraft => Some(Platform::Gmail),
        Tool::WhatsappSendMedia => Some(Platform::WhatsApp),
        Tool::SlackSetStatus | Tool::SlackCreateChannel | Tool::SlackInviteToChannel | Tool::SlackSetTopic | Tool::SlackAddReaction | Tool::SlackRemoveReaction | Tool::SlackUploadFile | Tool::SlackListUsers | Tool::SlackGetUserInfo => Some(Platform::Slack),
        Tool::DiscordListGuilds | Tool::DiscordListGuildChannels | Tool::DiscordCreateThread | Tool::DiscordAddReaction | Tool::DiscordRemoveReaction | Tool::DiscordPinMessage => Some(Platform::Discord),
    }
}

/// The tool of a name.
pub open spec fn tool_of(name: Seq<char>) -> Option<Tool> {
    if name == "get_profile"@ {
        Some(Tool::GetProfile)
    } else if name == "list_channels"@ {
        Some(Tool::ListChannels)
    } else if name == "read_messages"@ {
        Some(Tool::ReadMessages)
    } else if name == "send_message"@ {
        Some(Tool::SendMessage)
    } else if name == "search"@ {
        Some(Tool::Search)
    } else if name == "list_platforms"@ {
        Some(Tool::ListPlatforms)
    } else if name == "telegram_download_media"@ {
        Some(Tool::TelegramDownloadMedia)
    } else if name == "telegram_forward_message"@ {
        Some(Tool::TelegramForwardMessage)
    } else if name == "telegram_edit_message"@ {
        Some(Tool::TelegramEditMessage)
    } else if name == "telegram_delete_messages"@ {
        Some(Tool::TelegramDeleteMessages)
    } else if name == "telegram_pin_message"@ {
        Some(Tool::TelegramPinMessage)
    } else if name == "telegram_unpin_message"@ {
        Some(Tool::TelegramUnpinMessage)
    } else if name == "telegram_get_chat_info"@ {
        Some(Tool::TelegramGetChatInfo)
    } else if name == "telegram_mark_read"@ {
        Some(Tool::TelegramMarkRead)
    } else if name == "telegram_get_message"@ {
        Some(Tool::TelegramGetMessage)
    } else if name == "telegram_send_media"@ {
        Some(Tool::TelegramSendMedia)
    } else if name == "telegram_react"@ {
        Some(Tool::TelegramReact)
    } else if name == "telegram_search_chat"@ {
        Some(Tool::TelegramSearchChat)
    } else if name == "telegram_get_chat_members"@ {
        Some(Tool::TelegramGetChatMembers)
    } else if name == "gmail_send_email"@ {
        Some(Tool::GmailSendEmail)
    } else if name == "gmail_archive"@ {
        Some(Tool::GmailArchive)
    } else if name == "gmail_list_labels"@ {
        Some(Tool::GmailListLabels)
    } else if name == "gmail_add_label"@ {
        Some(Tool::GmailAddLabel)
    } else if name == "gmail_mark_read"@ {
        Some(Tool::GmailMarkRead)
    } else if name == "gmail_mark_unread"@ {
        Some(Tool::GmailMarkUnread)
    } else if name == "gmail_star"@ {
        Some(Tool::GmailStar)
    } else if name == "gmail_unstar"@ {
        Some(Tool::GmailUnstar)
    } else if name == "gmail_move_to"@ {
        Some(Tool::GmailMoveTo)
    } else if name == "gmail_trash"@ {
        Some(Tool::GmailTrash)
    } else if name == "gmail_remove_label"@ {
        Some(Tool::GmailRemoveLabel)
    } else if name == "gmail_get_attachment"@ {
        Some(Tool::GmailGetAttachment)
    } else if name == "gmail_create_draft"@ {
        Some(Tool::GmailCreateDraft)
    } else if name == "whatsapp_send_media"@ {
        Some(Tool::WhatsappSendMedia)
    } else if name == "slack_set_status"@ {
        Some(Tool::SlackSetStatus)
    } else if name == "slack_create_channel"@ {
        Some(Tool::SlackCreateChannel)
    } else if name == "slack_invite_to_channel"@ {
        Some(Tool::SlackInviteToChannel)
    } else if name == "slack_set_topic"@ {
        Some(Tool::SlackSetTopic)
    } else if name == "slack_add_reaction"@ {
        Some(Tool::SlackAddReaction)
    } else if name == "slack_remove_reaction"@ {
        Some(Tool::SlackRemoveReaction)
    } else if name == "slack_upload_file"@ {
        Some(Tool::SlackUploadFile)
    } else if name == "slack_list_users"@ {
        Some(Tool::SlackListUsers)
    } else if name == "slack_get_user_info"@ {
        Some(Tool::SlackGetUserInfo)
    } else if name == "discord_list_guilds"@ {
        Some(Tool::DiscordListGuilds)
    } else if name == "discord_list_guild_channels"@ {
        Some(Tool::DiscordListGuildChannels)
    } else if name == "discord_create_thread"@ {
        Some(Tool::DiscordCreateThread)
    } else if name == "discord_add_reaction"@ {
        Some(Tool::DiscordAddReaction)
    } else if name == "discord_remove_reaction"@ {
        Some(Tool::DiscordRemoveReaction)
    } else if name == "discord_pin_message"@ {
        Some(Tool::DiscordPinMessage)
    } else {
        None
    }
}

impl Tool {
    /// The name under which this tool is called.
    pub fn name(&self) -> (s: &'static str)
        ensures
            s@ == tool_name(*self),
    {
        match self {
            Tool::GetProfile => "get_profile",
            Tool::ListChannels => "list_channels",
            Tool::ReadMessages => "read_messages",
            Tool::SendMessage => "send_message",
            Tool::Search => "search",
            Tool::ListPlatforms => "list_platforms",
            Tool::TelegramDownloadMedia => "telegram_download_media",
            Tool::TelegramForwardMessage => "telegram_forward_message",
            Tool::TelegramEditMessage => "telegram_edit_message",
            Tool::TelegramDeleteMessages => "telegram_delete_messages",
            Tool::TelegramPinMessage => "telegram_pin_message",
            Tool::TelegramUnpinMessage => "telegram_unpin_message",
            Tool::TelegramGetChatInfo => "telegram_get_chat_info",
            Tool::TelegramMarkRead => "telegram_mark_read",
            Tool::TelegramGetMessage => "telegram_get_message",
            Tool::TelegramSendMedia => "telegram_send_media",
            Tool::TelegramReact => "telegram_react",
            Tool::TelegramSearchChat => "telegram_search_chat",
            Tool::TelegramGetChatMembers => "telegram_get_chat_members",
            Tool::GmailSendEmail => "gmail_send_email",
            Tool::GmailArchive => "gmail_archive",
            Tool::GmailListLabels => "gmail_list_labels",
            Tool::GmailAddLabel => "gmail_add_label",
            Tool::GmailMarkRead => "gmail_mark_read",
            Tool::GmailMarkUnread => "gmail_mark_unread",
            Tool::GmailStar => "gmail_star",
            Tool::GmailUnstar => "gmail_unstar",
            Tool::GmailMoveTo => "gmail_move_to",
            Tool::GmailTrash => "gmail_trash",
            Tool::GmailRemoveLabel => "gmail_remove_label",
            Tool::GmailGetAttachment => "gmail_get_attachment",
            Tool::GmailCreateDraft => "gmail_create_draft",
            Tool::WhatsappSendMedia => "whatsapp_send_media",
            Tool::SlackSetStatus => "slack_set_status",
            Tool::SlackCreateChannel => "slack_create_channel",
            Tool::SlackInviteToChannel => "slack_invite_to_channel",
            Tool::SlackSetTopic => "slack_set_topic",
            Tool::SlackAddReaction => "slack_add_reaction",
            Tool::SlackRemoveReaction => "slack_remove_reaction",
            Tool::SlackUploadFile => "slack_upload_file",
            Tool::SlackListUsers => "slack_list_users",
            Tool::SlackGetUserInfo => "slack_get_user_info",
            Tool::DiscordListGuilds => "discord_list_guilds",
            Tool::DiscordListGuildChannels => "discord_list_guild_channels",
            Tool::DiscordCreateThread => "discord_create_thread",
            Tool::DiscordAddReaction => "discord_add_reaction",
            Tool::DiscordRemoveReaction => "discord_remove_reaction",
            Tool::DiscordPinMessage => "discord_pin_message",
        }
    }

    /// The backend that this tool needs.
    pub fn backend(&self) -> (p: Option<Platform>)
        ensures
            p == tool_backend(*self),
    {
        match self {
            Tool::GetProfile | Tool::ListChannels | Tool::ReadMessages | Tool::SendMessage | Tool::Search | Tool::ListPlatforms => None,
            Tool::TelegramDownloadMedia | Tool::TelegramForwardMessage | Tool::TelegramEditMessage | Tool::TelegramDeleteMessages | Tool::TelegramPinMessage | Tool::TelegramUnpinMessage | Tool::TelegramGetChatInfo | Tool::TelegramMarkRead | Tool::TelegramGetMessage | Tool::TelegramSendMedia | Tool::TelegramReact | Tool::TelegramSearchChat | Tool::TelegramGetChatMembers => Some(Platform::Telegram),
            Tool::GmailSendEmail | Tool::GmailArchive | Tool::GmailListLabels | Tool::GmailAddLabel | Tool::GmailMarkRead | Tool::GmailMarkUnread | Tool::GmailStar | Tool::GmailUnstar | Tool::GmailMoveTo | Tool::GmailTrash | Tool::GmailRemoveLabel | Tool::GmailGetAttachment | Tool::GmailCreateDraft => Some(Platform::Gmail),
            Tool::WhatsappSendMedia => Some(Platform::WhatsApp),
            Tool::SlackSetStatus | Tool::SlackCreateChannel | Tool::SlackInviteToChannel | Tool::SlackSetTopic | Tool::SlackAddReaction | Tool::SlackRemoveReaction | Tool::SlackUploadFile | Tool::SlackListUsers | Tool::SlackGetUserInfo => Some(Platform::Slack),
            Tool::DiscordListGuilds | Tool::DiscordListGuildChannels | Tool::DiscordCreateThread | Tool::DiscordAddReaction | Tool::DiscordRemoveReaction | Tool::DiscordPinMessage => Some(Platform::Discord),
        }
    }

    /// The tool of a name, or the complaint about a name that is none.
    pub fn parse(name: &str) -> (r: Result<Tool, String>)
        ensures
            match r {
                Ok(t) => tool_of(name@) == Some(t),
                Err(m) => tool_of(name@) is None && m@ == "unknown tool: "@ + name@,
            },
    {
        if crate::text::str_eq(name, "get_profile") {
            Ok(Tool::GetProfile)
        } else if crate::text::str_eq(name, "list_channels") {
            Ok(Tool::ListChannels)
        } else if crate::text::str_eq(name, "read_messages") {
            Ok(Tool::ReadMessages)
        } else if crate::text::str_eq(name, "send_message") {
            Ok(Tool::SendMessage)
        } else if crate::text::str_eq(name, "search") {
            Ok(Tool::Search)
        } else if crate::text::str_eq(name, "list_platforms") {
            Ok(Tool::ListPlatforms)
        } else if crate::text::str_eq(name, "telegram_download_media") {
            Ok(Tool::TelegramDownloadMedia)
        } else if crate::text::str_eq(name, "telegram_forward_message") {
            Ok(Tool::TelegramForwardMessage)
        } else if crate::text::str_eq(name, "telegram_edit_message") {
            Ok(Tool::TelegramEditMessage)
        } else if crate::text::str_eq(name, "telegram_delete_messages") {
            Ok(Tool::TelegramDeleteMessages)
        } else if crate::text::str_eq(name, "telegram_pin_message") {
            Ok(Tool::TelegramPinMessage)
        } else if crate::text::str_eq(name, "telegram_unpin_message") {
            Ok(Tool::TelegramUnpinMessage)
        } else if crate::text::str_eq(name, "telegram_get_chat_info") {
            Ok(Tool::TelegramGetChatInfo)
        } else if crate::text::str_eq(name, "telegram_mark_read") {
            Ok(Tool::TelegramMarkRead)
        } else if crate::text::str_eq(name, "telegram_get_message") {
            Ok(Tool::TelegramGetMessage)
        } else if crate::text::str_eq(name, "telegram_send_media") {
            Ok(Tool::TelegramSendMedia)
        } else if crate::text::str_eq(name, "telegram_react") {
            Ok(Tool::TelegramReact)
        } else if crate::text::str_eq(name, "telegram_search_chat") {
            Ok(Tool::TelegramSearchChat)
        } else if crate::text::str_eq(name, "telegram_get_chat_members") {
            Ok(Tool::TelegramGetChatMembers)
        } else if crate::text::str_eq(name, "gmail_send_email") {
            Ok(Tool::GmailSendEmail)
        } else if crate::text::str_eq(name, "gmail_archive") {
            Ok(Tool::GmailArchive)
        } else if crate::text::str_eq(name, "gmail_list_labels") {
            Ok(Tool::GmailListLabels)
        } else if crate::text::str_eq(name, "gmail_add_label") {
            Ok(Tool::GmailAddLabel)
        } else if crate::text::str_eq(name, "gmail_mark_read") {
            Ok(Tool::GmailMarkRead)
        } else if crate::text::str_eq(name, "gmail_mark_unread") {
            Ok(Tool::GmailMarkUnread)
        } else if crate::text::str_eq(name, "gmail_star") {
            Ok(Tool::GmailStar)
        } else if crate::text::str_eq(name, "gmail_unstar") {
            Ok(Tool::GmailUnstar)
        } else if crate::text::str_eq(name, "gmail_move_to") {
            Ok(Tool::GmailMoveTo)
        } else if crate::text::str_eq(name, "gmail_trash") {
            Ok(Tool::GmailTrash)
        } else if crate::text::str_eq(name, "gmail_remove_label") {
            Ok(Tool::GmailRemoveLabel)
        } else if crate::text::str_eq(name, "gmail_get_attachment") {
            Ok(Tool::GmailGetAttachment)
        } else if crate::text::str_eq(name, "gmail_create_draft") {
            Ok(Tool::GmailCreateDraft)
        } else if crate::text::str_eq(name, "whatsapp_send_media") {
            Ok(Tool::WhatsappSendMedia)
        } else if crate::text::str_eq(name, "slack_set_status") {
            Ok(Tool::SlackSetStatus)
        } else if crate::text::str_eq(name, "slack_create_channel") {
            Ok(Tool::SlackCreateChannel)
        } else if crate::text::str_eq(name, "slack_invite_to_channel") {
            Ok(Tool::SlackInviteToChannel)
        } else if crate::text::str_eq(name, "slack_set_topic") {
            Ok(Tool::SlackSetTopic)
        } else if crate::text::str_eq(name, "slack_add_reaction") {
            Ok(Tool::SlackAddReaction)
        } else if crate::text::str_eq(name, "slack_remove_reaction") {
            Ok(Tool::SlackRemoveReaction)
        } else if crate::text::str_eq(name, "slack_upload_file") {
            Ok(Tool::SlackUploadFile)
        } else if crate::text::str_eq(name, "slack_list_users") {
            Ok(Tool::SlackListUsers)
        } else if crate::text::str_eq(name, "slack_get_user_info") {
            Ok(Tool::SlackGetUserInfo)
        } else if crate::text::str_eq(name, "discord_list_guilds") {
            Ok(Tool::DiscordListGuilds)
        } else if crate::text::str_eq(name, "discord_list_guild_channels") {
            Ok(Tool::DiscordListGuildChannels)
        } else if crate::text::str_eq(name, "discord_create_thread") {
            Ok(Tool::DiscordCreateThread)
        } else if crate::text::str_eq(name, "discord_add_reaction") {
            Ok(Tool::DiscordAddReaction)
        } else if crate::text::str_eq(name, "discord_remove_reaction") {
            Ok(Tool::DiscordRemoveReaction)
        } else if crate::text::str_eq(name, "discord_pin_message") {
            Ok(Tool::DiscordPinMessage)
        } else {
            Err(glue("unknown tool: ", name))
        }
    }
}

/// The complaint about a backend that is not configured.
pub open spec fn not_configured(platform: Platform) -> Seq<char> {
    match platform {
        Platform::Telegram => "telegram not configured. Set TELEGRAM_API_ID and TELEGRAM_API_HASH env vars"@,
        Platform::Gmail => "gmail not configured. Set GMAIL_ADDRESS and GMAIL_APP_PASSWORD env vars"@,
        Platform::WhatsApp => "whatsapp not configured. Set WHATSAPP_ACCESS_TOKEN and WHATSAPP_PHONE_NUMBER_ID env vars"@,
        Platform::Slack => "slack not configured. Set SLACK_BOT_TOKEN env var"@,
        Platform::Discord => "discord not configured. Set DISCORD_BOT_TOKEN env var"@,
    }
}

/// The complaint about a backend that is not configured.
pub fn not_configured_text(platform: Platform) -> (s: &'static str)
    ensures
        s@ == not_configured(platform),
{
    match platform {
        Platform::Telegram => "telegram not configured. Set TELEGRAM_API_ID and TELEGRAM_API_HASH env vars",
        Platform::Gmail => "gmail not configured. Set GMAIL_ADDRESS and GMAIL_APP_PASSWORD env vars",
        Platform::WhatsApp => "whatsapp not configured. Set WHATSAPP_ACCESS_TOKEN and WHATSAPP_PHONE_NUMBER_ID env vars",
        Platform::Slack => "slack not configured. Set SLACK_BOT_TOKEN env var",
        Platform::Discord => "discord not configured. Set DISCORD_BOT_TOKEN env var",
    }
}

/// Which backends are configured.
#[derive(Debug, Clone, Copy, PartialEq, Eq, Structural)]
pub struct Configured {
    pub telegram: bool,
    pub gmail: bool,
    pub whatsapp: bool,
    pub slack: bool,
    pub discord: bool,
}

impl Configured {
    /// Whether a platform is configured.
    pub open spec fn has(self, platform: Platform) -> bool {
        match platform {
            Platform::Telegram => self.telegram,
            Platform::Gmail => self.gmail,
            Platform::WhatsApp => self.whatsapp,
            Platform::Slack => self.slack,
            Platform::Discord => self.discord,
        }
    }

    /// Whether a platform is configured.
    pub fn is_configured(&self, platform: Platform) -> (r: bool)
        ensures
            r == self.has(platform),
    {
        match platform {
            Platform::Telegram => self.telegram,
            Platform::Gmail => self.gmail,
            Platform::WhatsApp => self.whatsapp,
            Platform::Slack => self.slack,
            Platform::Discord => self.discord,
        }
    }
}

/// The tool that a call names, provided that its backend is configured:
/// the name is looked at first, the backend second.
pub open spec fn called_tool(name: Seq<char>, configured: Configured) -> Result<Tool, Seq<char>> {
    match tool_of(name) {
        None => Err("unknown tool: "@ + name),
        Some(tool) => match tool_backend(tool) {
            Some(platform) => if configured.has(platform) {
                Ok(tool)
            } else {
                Err(not_configured(platform))
            },
            None => Ok(tool),
        },
    }
}

/// The tool that a call names, provided that its backend is configured.
pub fn select_tool(name: &str, configured: &Configured) -> (r: Result<Tool, String>)
    ensures
        match r {
            Ok(t) => called_tool(name@, *configured) == Ok::<Tool, Seq<char>>(t),
            Err(m) => called_tool(name@, *configured) == Err::<Tool, Seq<char>>(m@),
        },
{
    let tool = match Tool::parse(name) {
        Ok(t) => t,
        Err(m) => {
            return Err(m);
        },
    };
    match tool.backend() {
        Some(platform) => if configured.is_configured(platform) {
            Ok(tool)
        } else {
            Err(String::from_str(not_configured_text(platform)))
        },
        None => Ok(tool),
    }
}

/// The limit that the arguments name, cut to the size of a count; the
/// default where they name none.
pub open spec fn limit_of(args: JsonView, default: usize) -> usize {
    match nat_of(args.get("limit"@)) {
        Some(n) => n as usize,
        None => default,
    }
}

/// The limit that the arguments name.
pub fn limit_arg(args: &Json, default: usize) -> (n: usize)
    ensures
        n == limit_of(args@, default),
{
    match natural(args.get("limit")) {
        Some(n) => #[verifier::truncate]
        (n as usize),
        None => default,
    }
}

/// The message that the arguments name as the one to answer: a text as it
/// is, an integer in decimal, and nothing for anything else.
pub open spec fn reply_target_of(args: JsonView) -> Option<Seq<char>> {
    match args.get("reply_to"@) {
        Some(JsonView::Str(s)) => Some(s),
        Some(JsonView::Int(n)) => Some(decimal(n as int)),
        _ => None,
    }
}

/// The message that the arguments name as the one to answer.
pub fn reply_target(args: &Json) -> (r: Option<String>)
    ensures
        crate::entities::opt_text(r) == reply_target_of(args@),
{
    match args.get("reply_to") {
        Some(Json::Str(s)) => Some(s.clone()),
        Some(Json::Int(n)) => Some(i64_to_string(*n)),
        _ => None,
    }
}

/// The platforms that are connected, as one line.
pub fn platforms_text(platforms: &Vec<Platform>) -> (s: String)
    ensures
        s@ == "Connected platforms: "@ + crate::text::joined(
            Seq::new(platforms@.len(), |i: int| crate::entities::platform_name(platforms@[i])),
            ", "@,
        ),
{
    let mut names: Vec<String> = Vec::new();
    let mut i: usize = 0;
    while i < platforms.len()
        invariant
            i <= platforms.len(),
            names.len() == i,
            forall|k: int|
                0 <= k < i ==> (#[trigger] names@[k])@ == crate::entities::platform_name(
                    platforms@[k],
                ),
        decreases platforms.len() - i,
    {
        names.push(platforms[i].to_string());
        i += 1;
    }
    assert(crate::text::views(names@) =~= Seq::new(
        platforms@.len(),
        |i: int| crate::entities::platform_name(platforms@[i]),
    ));
    let list = crate::text::join(&names, ", ");
    glue("Connected platforms: ", list.as_str())
}

/// `Deleted N message(s) from CHAT`.
pub fn deleted(count: usize, chat: &str) -> (s: String)
    ensures
        s@ == "Deleted "@ + decimal(count as int) + " message(s) from "@ + chat@,
{
    let mut s = String::from_str("Deleted ");
    s.append(usize_to_string(count).as_str());
    s.append(" message(s) from ");
    s.append(chat);
    s
}

/// Words about a message of a chat: the words, the number of the message,
/// ` in ` and the chat.
pub fn about_message(words: &str, message_id: i64, chat: &str) -> (s: String)
    ensures
        s@ == words@ + decimal(message_id as int) + " in "@ + chat@,
{
    let mut s = String::from_str(words);
    push_decimal(&mut s, message_id);
    s.append(" in ");
    s.append(chat);
    s
}

/// `Reacted with EMOJI to message N in CHAT`.
pub fn reacted(emoji: &str, message_id: i64, chat: &str) -> (s: String)
    ensures
        s@ == "Reacted with "@ + emoji@ + " to message "@ + decimal(message_id as int) + " in "@
            + chat@,
{
    let mut s = String::from_str("Reacted with ");
    s.append(emoji);
    s.append(" to message ");
    push_decimal(&mut s, message_id);
    s.append(" in ");
    s.append(chat);
    s
}

/// Words with one text in them.
pub fn with_one(before: &str, a: &str, after: &str) -> (s: String)
    ensures
        s@ == before@ + a@ + after@,
{
    crate::text::glue3(before, a, after)
}

/// Words with two texts in them.
pub fn with_two(before: &str, a: &str, between: &str, b: &str, after: &str) -> (s: String)
    ensures
        s@ == before@ + a@ + between@ + b@ + after@,
{
    let mut s = String::from_str(before);
    s.append(a);
    s.append(between);
    s.append(b);
    s.append(after);
    s
}

} // verus!
