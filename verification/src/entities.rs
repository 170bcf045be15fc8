//! The records that every backend is mapped onto: platforms, channels,
//! messages, profiles and members.

use crate::text::{chars_of, glue, decimal, lowercase, str_eq, str_to_lowercase, views};
use vstd::prelude::*;

verus! {

/// A messaging backend.
#[derive(Debug, Clone, Copy, PartialEq, Eq, Hash, Structural)]
pub enum Platform {
    Telegram,
    Gmail,
    WhatsApp,
    Slack,
    Discord,
}

/// The lowercase name of a platform.
pub open spec fn platform_name(p: Platform) -> Seq<char> {
    match p {
        Platform::Telegram => "telegram"@,
        Platform::Gmail => "gmail"@,
        Platform::WhatsApp => "whatsapp"@,
        Platform::Slack => "slack"@,
        Platform::Discord => "discord"@,
    }
}

/// The platform that a lowercase name or abbreviation stands for.
pub open spec fn platform_of_lower(s: Seq<char>) -> Option<Platform> {
    if s == "telegram"@ || s == "tg"@ {
        Some(Platform::Telegram)
    } else if s == "gmail"@ || s == "email"@ || s == "mail"@ {
        Some(Platform::Gmail)
    } else if s == "whatsapp"@ || s == "wa"@ {
        Some(Platform::WhatsApp)
    } else if s == "slack"@ || s == "sl"@ {
        Some(Platform::Slack)
    } else if s == "discord"@ || s == "dc"@ {
        Some(Platform::Discord)
    } else {
        None
    }
}

impl Platform {
    /// The lowercase name of this platform.
    pub fn name(&self) -> (s: &'static str)
        ensures
            s@ == platform_name(*self),
    {
        match self {
            Platform::Telegram => "telegram",
            Platform::Gmail => "gmail",
            Platform::WhatsApp => "whatsapp",
            Platform::Slack => "slack",
            Platform::Discord => "discord",
        }
    }

    /// The lowercase name of this platform, as an owned text.
    pub fn to_string(&self) -> (s: String)
        ensures
            s@ == platform_name(*self),
    {
        String::from_str(self.name())
    }

    /// Reads a platform from its name or abbreviation, in any letter case.
    /// An unknown name is reported as `unknown platform: ` and the name.
    pub fn from_name(s: &str) -> (r: Result<Platform, String>)
        ensures
            match r {
                Ok(p) => platform_of_lower(lowercase(s@)) == Some(p),
                Err(m) => platform_of_lower(lowercase(s@)) is None && m@ == "unknown platform: "@
                    + s@,
            },
    {
        let lower = str_to_lowercase(s);
        let l: &str = lower.as_str();
        if str_eq(l, "telegram") || str_eq(l, "tg") {
            Ok(Platform::Telegram)
        } else if str_eq(l, "gmail") || str_eq(l, "email") || str_eq(l, "mail") {
            Ok(Platform::Gmail)
        } else if str_eq(l, "whatsapp") || str_eq(l, "wa") {
            Ok(Platform::WhatsApp)
        } else if str_eq(l, "slack") || str_eq(l, "sl") {
            Ok(Platform::Slack)
        } else if str_eq(l, "discord") || str_eq(l, "dc") {
            Ok(Platform::Discord)
        } else {
            Err(glue("unknown platform: ", s))
        }
    }
}

impl std::str::FromStr for Platform {
    type Err = String;

    /// Reads a platform from its name or abbreviation, in any letter case.
    /// An unknown name is reported as `unknown platform: ` and the name.
    fn from_str(s: &str) -> (r: Result<Platform, String>)
        ensures
            match r {
                Ok(p) => platform_of_lower(lowercase(s@)) == Some(p),
                Err(m) => platform_of_lower(lowercase(s@)) is None && m@ == "unknown platform: "@
                    + s@,
            },
    {
        Platform::from_name(s)
    }
}

/// What sort of conversation a channel is.
#[derive(Debug, Clone)]
pub enum ChannelType {
    Private,
    Group,
    Broadcast,
    Thread,
    Other(String),
}

/// `ChannelType` in terms of texts.
pub enum ChannelTypeView {
    Private,
    Group,
    Broadcast,
    Thread,
    Other(Seq<char>),
}

impl View for ChannelType {
    type V = ChannelTypeView;

    open spec fn view(&self) -> ChannelTypeView {
        match self {
            ChannelType::Private => ChannelTypeView::Private,
            ChannelType::Group => ChannelTypeView::Group,
            ChannelType::Broadcast => ChannelTypeView::Broadcast,
            ChannelType::Thread => ChannelTypeView::Thread,
            ChannelType::Other(s) => ChannelTypeView::Other(s@),
        }
    }
}

/// The text of an optional string.
pub open spec fn opt_text(o: Option<String>) -> Option<Seq<char>> {
    match o {
        Some(s) => Some(s@),
        None => None,
    }
}

/// The texts of an optional list of strings.
pub open spec fn opt_texts(o: Option<Vec<String>>) -> Option<Seq<Seq<char>>> {
    match o {
        Some(v) => Some(views(v@)),
        None => None,
    }
}

/// A conversation on some platform.
#[derive(Debug, Clone)]
pub struct Channel {
    pub id: String,
    pub platform: Platform,
    pub name: String,
    pub channel_type: ChannelType,
    pub unread_count: i32,
    pub description: Option<String>,
    pub member_count: Option<i32>,
    pub last_message_date: Option<i64>,
}

/// `Channel` in terms of texts.
pub struct ChannelView {
    pub id: Seq<char>,
    pub platform: Platform,
    pub name: Seq<char>,
    pub channel_type: ChannelTypeView,
    pub unread_count: i32,
    pub description: Option<Seq<char>>,
    pub member_count: Option<i32>,
    pub last_message_date: Option<i64>,
}

impl View for Channel {
    type V = ChannelView;

    open spec fn view(&self) -> ChannelView {
        ChannelView {
            id: self.id@,
            platform: self.platform,
            name: self.name@,
            channel_type: self.channel_type@,
            unread_count: self.unread_count,
            description: opt_text(self.description),
            member_count: self.member_count,
            last_message_date: self.last_message_date,
        }
    }
}

/// The name of a sort of conversation as it is written for inspection:
/// the name of the variant, with the quoted name behind it for a sort
/// that is kept by name.
pub open spec fn channel_type_debug(t: ChannelTypeView) -> Seq<char> {
    match t {
        ChannelTypeView::Private => "Private"@,
        ChannelTypeView::Group => "Group"@,
        ChannelTypeView::Broadcast => "Broadcast"@,
        ChannelTypeView::Thread => "Thread"@,
        ChannelTypeView::Other(name) => "Other("@ + crate::text::debug_quoted(name) + ")"@,
    }
}

/// The line that introduces a channel: platform, name, sort and unread
/// messages.
pub open spec fn channel_headline(c: ChannelView) -> Seq<char> {
    "["@ + platform_name(c.platform) + "] "@ + c.name + " ("@ + channel_type_debug(c.channel_type)
        + ", unread: "@ + decimal(c.unread_count as int) + ")"@
}

impl Channel {
    /// The line that introduces this channel.
    pub fn to_string(&self) -> (s: String)
        ensures
            s@ == channel_headline(self@),
    {
        let mut s = String::from_str("[");
        s.append(self.platform.name());
        s.append("] ");
        s.append(self.name.as_str());
        s.append(" (");
        match &self.channel_type {
            ChannelType::Private => s.append("Private"),
            ChannelType::Group => s.append("Group"),
            ChannelType::Broadcast => s.append("Broadcast"),
            ChannelType::Thread => s.append("Thread"),
            ChannelType::Other(name) => {
                let quoted = crate::text::str_debug(name.as_str());
                s.append("Other(");
                s.append(quoted.as_str());
                s.append(")");
            },
        }
        s.append(", unread: ");
        crate::text::push_decimal(&mut s, self.unread_count as i64);
        s.append(")");
        s
    }
}

/// One emoji reaction and how many gave it.
#[derive(Debug, Clone)]
pub struct Reaction {
    pub emoji: String,
    pub count: i32,
}

/// `Reaction` in terms of texts.
pub struct ReactionView {
    pub emoji: Seq<char>,
    pub count: i32,
}

impl View for Reaction {
    type V = ReactionView;

    open spec fn view(&self) -> ReactionView {
        ReactionView { emoji: self.emoji@, count: self.count }
    }
}

/// The views of a sequence of reactions.
pub open spec fn reaction_views(v: Seq<Reaction>) -> Seq<ReactionView> {
    Seq::new(v.len(), |i: int| v[i]@)
}

/// The views of an optional list of reactions.
pub open spec fn opt_reactions(o: Option<Vec<Reaction>>) -> Option<Seq<ReactionView>> {
    match o {
        Some(v) => Some(reaction_views(v@)),
        None => None,
    }
}

/// What a message carries beyond its text; every field is optional.
#[derive(Debug, Clone)]
pub struct MessageMeta {
    pub subject: Option<String>,
    pub cc: Option<Vec<String>>,
    pub bcc: Option<Vec<String>>,
    pub labels: Option<Vec<String>>,
    pub media_type: Option<String>,
    pub forward_from: Option<String>,
    pub reactions: Option<Vec<Reaction>>,
    pub views: Option<i64>,
    pub edit_date: Option<i64>,
    pub is_pinned: Option<bool>,
}

/// `MessageMeta` in terms of texts.
pub struct MessageMetaView {
    pub subject: Option<Seq<char>>,
    pub cc: Option<Seq<Seq<char>>>,
    pub bcc: Option<Seq<Seq<char>>>,
    pub labels: Option<Seq<Seq<char>>>,
    pub media_type: Option<Seq<char>>,
    pub forward_from: Option<Seq<char>>,
    pub reactions: Option<Seq<ReactionView>>,
    pub views: Option<i64>,
    pub edit_date: Option<i64>,
    pub is_pinned: Option<bool>,
}

impl MessageMetaView {
    /// The metadata with no field set.
    pub open spec fn empty() -> MessageMetaView {
        MessageMetaView {
            subject: None,
            cc: None,
            bcc: None,
            labels: None,
            media_type: None,
            forward_from: None,
            reactions: None,
            views: None,
            edit_date: None,
            is_pinned: None,
        }
    }
}

impl View for MessageMeta {
    type V = MessageMetaView;

    open spec fn view(&self) -> MessageMetaView {
        MessageMetaView {
            subject: opt_text(self.subject),
            cc: opt_texts(self.cc),
            bcc: opt_texts(self.bcc),
            labels: opt_texts(self.labels),
            media_type: opt_text(self.media_type),
            forward_from: opt_text(self.forward_from),
            reactions: opt_reactions(self.reactions),
            views: self.views,
            edit_date: self.edit_date,
            is_pinned: self.is_pinned,
        }
    }
}

impl Default for MessageMeta {
    fn default() -> (m: MessageMeta)
        ensures
            m@ == MessageMetaView::empty(),
    {
        MessageMeta {
            subject: None,
            cc: None,
            bcc: None,
            labels: None,
            media_type: None,
            forward_from: None,
            reactions: None,
            views: None,
            edit_date: None,
            is_pinned: None,
        }
    }
}

impl MessageMeta {
    /// Whether no field is set.
    pub fn is_empty(&self) -> (r: bool)
        ensures
            r == (self@ == MessageMetaView::empty()),
    {
        self.subject.is_none() && self.cc.is_none() && self.bcc.is_none() && self.labels.is_none()
            && self.media_type.is_none() && self.forward_from.is_none()
            && self.reactions.is_none() && self.views.is_none() && self.edit_date.is_none()
            && self.is_pinned.is_none()
    }
}

/// One message of a channel.
#[derive(Debug, Clone)]
pub struct Message {
    pub id: String,
    pub platform: Platform,
    pub channel_id: String,
    pub sender: String,
    pub text: String,
    pub timestamp: i64,
    pub has_attachment: bool,
    pub reply_to: Option<String>,
    pub meta: MessageMeta,
}

/// `Message` in terms of texts.
pub struct MessageView {
    pub id: Seq<char>,
    pub platform: Platform,
    pub channel_id: Seq<char>,
    pub sender: Seq<char>,
    pub text: Seq<char>,
    pub timestamp: i64,
    pub has_attachment: bool,
    pub reply_to: Option<Seq<char>>,
    pub meta: MessageMetaView,
}

impl View for Message {
    type V = MessageView;

    open spec fn view(&self) -> MessageView {
        MessageView {
            id: self.id@,
            platform: self.platform,
            channel_id: self.channel_id@,
            sender: self.sender@,
            text: self.text@,
            timestamp: self.timestamp,
            has_attachment: self.has_attachment,
            reply_to: opt_text(self.reply_to),
            meta: self.meta@,
        }
    }
}

/// The views of a sequence of messages.
pub open spec fn message_views(v: Seq<Message>) -> Seq<MessageView> {
    Seq::new(v.len(), |i: int| v[i]@)
}

/// The line that introduces a message: platform and id in brackets, the
/// sender, and the first 80 characters of the text, with `...` behind a
/// longer text.
pub open spec fn message_headline(m: MessageView) -> Seq<char> {
    let preview = if m.text.len() > 80 {
        m.text.take(80) + "..."@
    } else {
        m.text
    };
    "["@ + platform_name(m.platform) + ":"@ + m.id + "] "@ + m.sender + ": "@ + preview
}

impl Message {
    /// The line that introduces this message.
    pub fn to_string(&self) -> (s: String)
        ensures
            s@ == message_headline(self@),
    {
        let mut s = String::from_str("[");
        s.append(self.platform.name());
        s.append(":");
        s.append(self.id.as_str());
        s.append("] ");
        s.append(self.sender.as_str());
        s.append(": ");
        let ghost head = s@;
        let v = chars_of(self.text.as_str());
        if v.len() > 80 {
            let mut i: usize = 0;
            while i < 80
                invariant
                    i <= 80 < v.len(),
                    s@ == head + v@.take(i as int),
                decreases 80 - i,
            {
                s.push(v[i]);
                i += 1;
            }
            s.append("...");
        } else {
            s.append(self.text.as_str());
        }
        s
    }
}

/// The account that the session belongs to.
#[derive(Debug, Clone)]
pub struct Profile {
    pub platform: Platform,
    pub id: String,
    pub name: String,
    pub username: Option<String>,
    pub email: Option<String>,
    pub phone: Option<String>,
}

/// `Profile` in terms of texts.
pub struct ProfileView {
    pub platform: Platform,
    pub id: Seq<char>,
    pub name: Seq<char>,
    pub username: Option<Seq<char>>,
    pub email: Option<Seq<char>>,
    pub phone: Option<Seq<char>>,
}

impl View for Profile {
    type V = ProfileView;

    open spec fn view(&self) -> ProfileView {
        ProfileView {
            platform: self.platform,
            id: self.id@,
            name: self.name@,
            username: opt_text(self.username),
            email: opt_text(self.email),
            phone: opt_text(self.phone),
        }
    }
}

/// The details of one conversation.
#[derive(Debug, Clone)]
pub struct ChatInfo {
    pub id: String,
    pub platform: Platform,
    pub name: String,
    pub channel_type: ChannelType,
    pub description: Option<String>,
    pub member_count: i32,
    pub unread_count: i32,
    pub invite_link: Option<String>,
    pub is_verified: bool,
    pub is_scam: bool,
}

/// `ChatInfo` in terms of texts.
pub struct ChatInfoView {
    pub id: Seq<char>,
    pub platform: Platform,
    pub name: Seq<char>,
    pub channel_type: ChannelTypeView,
    pub description: Option<Seq<char>>,
    pub member_count: i32,
    pub unread_count: i32,
    pub invite_link: Option<Seq<char>>,
    pub is_verified: bool,
    pub is_scam: bool,
}

impl View for ChatInfo {
    type V = ChatInfoView;

    open spec fn view(&self) -> ChatInfoView {
        ChatInfoView {
            id: self.id@,
            platform: self.platform,
            name: self.name@,
            channel_type: self.channel_type@,
            description: opt_text(self.description),
            member_count: self.member_count,
            unread_count: self.unread_count,
            invite_link: opt_text(self.invite_link),
            is_verified: self.is_verified,
            is_scam: self.is_scam,
        }
    }
}

/// One page of results and where the next page starts.
#[derive(Debug, Clone)]
pub struct Paginated<T> {
    pub items: Vec<T>,
    pub has_more: bool,
    pub next_cursor: Option<String>,
}

/// One page of messages, in terms of texts.
pub struct PageView {
    pub items: Seq<MessageView>,
    pub has_more: bool,
    pub next_cursor: Option<Seq<char>>,
}

/// The view of a page of messages.
pub open spec fn page_view(page: Paginated<Message>) -> PageView {
    PageView {
        items: message_views(page.items@),
        has_more: page.has_more,
        next_cursor: opt_text(page.next_cursor),
    }
}

/// The standing of a member in a group.
#[derive(Debug, Clone, Copy, PartialEq, Eq, Structural)]
pub enum MemberRole {
    Owner,
    Admin,
    Member,
    Restricted,
    Banned,
}

/// The lowercase name of a role.
pub open spec fn role_name(r: MemberRole) -> Seq<char> {
    match r {
        MemberRole::Owner => "owner"@,
        MemberRole::Admin => "admin"@,
        MemberRole::Member => "member"@,
        MemberRole::Restricted => "restricted"@,
        MemberRole::Banned => "banned"@,
    }
}

impl MemberRole {
    /// The lowercase name of this role.
    pub fn name(&self) -> (s: &'static str)
        ensures
            s@ == role_name(*self),
    {
        match self {
            MemberRole::Owner => "owner",
            MemberRole::Admin => "admin",
            MemberRole::Member => "member",
            MemberRole::Restricted => "restricted",
            MemberRole::Banned => "banned",
        }
    }

    /// The lowercase name of this role, as an owned text.
    pub fn to_string(&self) -> (s: String)
        ensures
            s@ == role_name(*self),
    {
        String::from_str(self.name())
    }
}

/// One member of a group.
#[derive(Debug, Clone)]
pub struct ChatMember {
    pub user_id: String,
    pub name: String,
    pub username: Option<String>,
    pub role: MemberRole,
    pub joined_date: Option<i64>,
}

/// `ChatMember` in terms of texts.
pub struct ChatMemberView {
    pub user_id: Seq<char>,
    pub name: Seq<char>,
    pub username: Option<Seq<char>>,
    pub role: MemberRole,
    pub joined_date: Option<i64>,
}

impl View for ChatMember {
    type V = ChatMemberView;

    open spec fn view(&self) -> ChatMemberView {
        ChatMemberView {
            user_id: self.user_id@,
            name: self.name@,
            username: opt_text(self.username),
            role: self.role,
            joined_date: self.joined_date,
        }
    }
}

/// The views of a sequence of members.
pub open spec fn member_views(v: Seq<ChatMember>) -> Seq<ChatMemberView> {
    Seq::new(v.len(), |i: int| v[i]@)
}

} // verus!
