//! The payloads of the backend mapped onto the crate's records.

use crate::entities::{
    Channel, ChannelType, ChannelTypeView, ChannelView, ChatMember, ChatMemberView, MemberRole,
    Message, MessageMeta, MessageMetaView, MessageView, Platform, Profile, ProfileView, Reaction,
    ReactionView,
};
use crate::json::{
    bool_of, boolean, field, int_of, integer, items, items_of, json_views, member, opt_json, text,
    text_of, Json, JsonView,
};
use crate::text::{
    glue, glue3, decimal, i64_to_string, lowercase, push_decimal, remove_all, str_eq,
    str_to_lowercase, without,
};
use vstd::prelude::*;

verus! {

/// The text, or a default where there is none.
pub open spec fn text_or(o: Option<Seq<char>>, default: Seq<char>) -> Seq<char> {
    crate::json::text_or_default(o, default)
}

/// The integer, or a default where there is none.
pub open spec fn int_or(o: Option<i64>, default: i64) -> i64 {
    match o {
        Some(i) => i,
        None => default,
    }
}

/// The integer where it is greater than zero.
pub open spec fn positive(o: Option<i64>) -> Option<i64> {
    match o {
        Some(i) => if i > 0 {
            Some(i)
        } else {
            None
        },
        None => None,
    }
}

/// The text where it is not empty.
pub open spec fn non_empty(o: Option<Seq<char>>) -> Option<Seq<char>> {
    match o {
        Some(s) => if s.len() > 0 {
            Some(s)
        } else {
            None
        },
        None => None,
    }
}

/// The text at `outer.inner` of a payload.
pub open spec fn nested_text(payload: JsonView, outer: Seq<char>, inner: Seq<char>) -> Option<
    Seq<char>,
> {
    text_of(member(payload.get(outer), inner))
}

/// The integer, or a default where there is none.
pub fn integer_or(o: Option<i64>, default: i64) -> (r: i64)
    ensures
        r == int_or(o, default),
{
    match o {
        Some(i) => i,
        None => default,
    }
}

/// The integer where it is greater than zero.
pub fn keep_positive(o: Option<i64>) -> (r: Option<i64>)
    ensures
        r == positive(o),
{
    match o {
        Some(i) => if i > 0 {
            Some(i)
        } else {
            None
        },
        None => None,
    }
}

/// Whether a text is empty.
pub fn is_blank(s: &str) -> (r: bool)
    ensures
        r == (s@.len() == 0),
{
    s.unicode_len() == 0
}

/// Whether the text that may be there is the given one.
pub fn is_text(o: Option<&str>, expected: &str) -> (r: bool)
    ensures
        r == (crate::json::opt_str(o) == Some(expected@)),
{
    match o {
        Some(s) => str_eq(s, expected),
        None => false,
    }
}

/// Who sent a message: `user:` or `chat:` and the sender's identifier, 0
/// where the payload gives none, or `Unknown`.
pub open spec fn sender_of(message: JsonView) -> Seq<char> {
    match message.get("sender_id"@) {
        None => "Unknown"@,
        Some(sender) => {
            let kind = text_of(sender.get("@type"@));
            if kind == Some("messageSenderUser"@) {
                "user:"@ + decimal(int_or(int_of(sender.get("user_id"@)), 0) as int)
            } else if kind == Some("messageSenderChat"@) {
                "chat:"@ + decimal(int_or(int_of(sender.get("chat_id"@)), 0) as int)
            } else {
                "Unknown"@
            }
        },
    }
}

/// Who sent a message.
pub fn extract_sender(message: &Json) -> (s: String)
    ensures
        s@ == sender_of(message@),
{
    match message.get("sender_id") {
        None => String::from_str("Unknown"),
        Some(sender) => {
            let kind = text(sender.get("@type"));
            if is_text(kind, "messageSenderUser") {
                let mut s = String::from_str("user:");
                push_decimal(&mut s, integer_or(integer(sender.get("user_id")), 0));
                s
            } else if is_text(kind, "messageSenderChat") {
                let mut s = String::from_str("chat:");
                push_decimal(&mut s, integer_or(integer(sender.get("chat_id")), 0));
                s
            } else {
                String::from_str("Unknown")
            }
        },
    }
}

/// The sort of conversation that the `type` of a chat describes. A
/// supergroup is a broadcast where it is marked as a channel; a type that
/// is not known is kept by its name, `unknown` where it has none.
pub open spec fn chat_type_of(chat: JsonView) -> ChannelTypeView {
    let kind = nested_text(chat, "type"@, "@type"@);
    if kind == Some("chatTypePrivate"@) {
        ChannelTypeView::Private
    } else if kind == Some("chatTypeSupergroup"@) {
        if bool_of(member(chat.get("type"@), "is_channel"@)) == Some(true) {
            ChannelTypeView::Broadcast
        } else {
            ChannelTypeView::Group
        }
    } else if kind == Some("chatTypeBasicGroup"@) {
        ChannelTypeView::Group
    } else if kind == Some("chatTypeSecret"@) {
        ChannelTypeView::Private
    } else {
        ChannelTypeView::Other(text_or(kind, "unknown"@))
    }
}

/// The channel that a chat payload describes; `None` where the payload has
/// no integer `id`.
pub open spec fn channel_of(chat: JsonView) -> Option<ChannelView> {
    match int_of(chat.get("id"@)) {
        None => None,
        Some(id) => Some(
            ChannelView {
                id: decimal(id as int),
                platform: Platform::Telegram,
                name: text_or(text_of(chat.get("title"@)), "Unknown"@),
                channel_type: chat_type_of(chat),
                unread_count: int_or(int_of(chat.get("unread_count"@)), 0) as i32,
                description: None,
                member_count: None,
                last_message_date: int_of(member(chat.get("last_message"@), "date"@)),
            },
        ),
    }
}

/// The view of an optional channel.
pub open spec fn opt_channel(o: Option<Channel>) -> Option<ChannelView> {
    match o {
        Some(c) => Some(c@),
        None => None,
    }
}

/// The channel that a chat payload describes.
pub fn parse_chat(chat: &Json) -> (r: Option<Channel>)
    ensures
        opt_channel(r) == channel_of(chat@),
{
    let id: i64 = match integer(chat.get("id")) {
        Some(id) => id,
        None => {
            return None;
        },
    };
    let title: &str = match text(chat.get("title")) {
        Some(t) => t,
        None => "Unknown",
    };
    let unread: i64 = integer_or(integer(chat.get("unread_count")), 0);
    let kind_of = chat.get("type");
    let kind = text(field(kind_of, "@type"));
    let channel_type = if is_text(kind, "chatTypePrivate") {
        ChannelType::Private
    } else if is_text(kind, "chatTypeSupergroup") {
        match boolean(field(kind_of, "is_channel")) {
            Some(true) => ChannelType::Broadcast,
            _ => ChannelType::Group,
        }
    } else if is_text(kind, "chatTypeBasicGroup") {
        ChannelType::Group
    } else if is_text(kind, "chatTypeSecret") {
        ChannelType::Private
    } else {
        match kind {
            Some(k) => ChannelType::Other(String::from_str(k)),
            None => ChannelType::Other(String::from_str("unknown")),
        }
    };
    Some(
        Channel {
            id: i64_to_string(id),
            platform: Platform::Telegram,
            name: String::from_str(title),
            channel_type,
            unread_count: #[verifier::truncate]
            (unread as i32),
            description: None,
            member_count: None,
            last_message_date: integer(field(chat.get("last_message"), "date")),
        },
    )
}

/// The role that a member status stands for; a status that is not known
/// counts as plain membership.
pub open spec fn role_of(status: Seq<char>) -> MemberRole {
    if status == "chatMemberStatusCreator"@ {
        MemberRole::Owner
    } else if status == "chatMemberStatusAdministrator"@ {
        MemberRole::Admin
    } else if status == "chatMemberStatusMember"@ {
        MemberRole::Member
    } else if status == "chatMemberStatusRestricted"@ {
        MemberRole::Restricted
    } else if status == "chatMemberStatusBanned"@ {
        MemberRole::Banned
    } else {
        MemberRole::Member
    }
}

/// The member that a payload describes, under the provisional name `user:`
/// and the identifier; `None` where the payload names no user or has no
/// status.
pub open spec fn member_of(payload: JsonView) -> Option<ChatMemberView> {
    match int_of(member(payload.get("member_id"@), "user_id"@)) {
        None => None,
        Some(user_id) => match payload.get("status"@) {
            None => None,
            Some(status) => Some(
                ChatMemberView {
                    user_id: decimal(user_id as int),
                    name: "user:"@ + decimal(user_id as int),
                    username: None,
                    role: role_of(text_or(text_of(status.get("@type"@)), Seq::empty())),
                    joined_date: positive(int_of(payload.get("joined_chat_date"@))),
                },
            ),
        },
    }
}

/// The view of an optional member.
pub open spec fn opt_member(o: Option<ChatMember>) -> Option<ChatMemberView> {
    match o {
        Some(m) => Some(m@),
        None => None,
    }
}

/// The member that a payload describes.
pub fn parse_chat_member(payload: &Json) -> (r: Option<ChatMember>)
    ensures
        opt_member(r) == member_of(payload@),
{
    let user_id: i64 = match integer(field(payload.get("member_id"), "user_id")) {
        Some(id) => id,
        None => {
            return None;
        },
    };
    let status: &Json = match payload.get("status") {
        Some(s) => s,
        None => {
            return None;
        },
    };
    let status_type: &str = match text(status.get("@type")) {
        Some(t) => t,
        None => "",
    };
    proof {
        reveal_strlit("");
        assert(""@ =~= Seq::<char>::empty());
    }
    let role = if str_eq(status_type, "chatMemberStatusCreator") {
        MemberRole::Owner
    } else if str_eq(status_type, "chatMemberStatusAdministrator") {
        MemberRole::Admin
    } else if str_eq(status_type, "chatMemberStatusMember") {
        MemberRole::Member
    } else if str_eq(status_type, "chatMemberStatusRestricted") {
        MemberRole::Restricted
    } else if str_eq(status_type, "chatMemberStatusBanned") {
        MemberRole::Banned
    } else {
        MemberRole::Member
    };
    let id_text = i64_to_string(user_id);
    let name = glue("user:", id_text.as_str());
    Some(
        ChatMember {
            user_id: id_text,
            name,
            username: None,
            role,
            joined_date: keep_positive(integer(payload.get("joined_chat_date"))),
        },
    )
}

/// The last item of an array that may be absent.
pub open spec fn last_item(o: Option<Seq<JsonView>>) -> Option<JsonView> {
    match o {
        Some(a) => if a.len() > 0 {
            Some(a.last())
        } else {
            None
        },
        None => None,
    }
}

/// The first item of an array that may be absent.
pub open spec fn first_item(o: Option<Seq<JsonView>>) -> Option<JsonView> {
    match o {
        Some(a) => if a.len() > 0 {
            Some(a[0])
        } else {
            None
        },
        None => None,
    }
}

/// The last item of an array that may be absent.
pub fn last_of<'a>(o: Option<&'a Vec<Json>>) -> (r: Option<&'a Json>)
    ensures
        opt_json(r) == last_item(
            match o {
                Some(a) => Some(json_views(a@)),
                None => None,
            },
        ),
{
    match o {
        Some(a) => if a.len() > 0 {
            Some(&a[a.len() - 1])
        } else {
            None
        },
        None => None,
    }
}

/// The first item of an array that may be absent.
pub fn first_of<'a>(o: Option<&'a Vec<Json>>) -> (r: Option<&'a Json>)
    ensures
        opt_json(r) == first_item(
            match o {
                Some(a) => Some(json_views(a@)),
                None => None,
            },
        ),
{
    match o {
        Some(a) => if a.len() > 0 {
            Some(&a[0])
        } else {
            None
        },
        None => None,
    }
}

/// The file that the content of a message carries: the largest size of a
/// photo, or the file of a video, document, voice note, audio, animation or
/// video note.
pub open spec fn media_file(content: JsonView) -> Option<JsonView> {
    let kind = text_of(content.get("@type"@));
    if kind == Some("messagePhoto"@) {
        member(
            last_item(items_of(member(content.get("photo"@), "sizes"@))),
            "photo"@,
        )
    } else if kind == Some("messageVideo"@) {
        member(content.get("video"@), "video"@)
    } else if kind == Some("messageDocument"@) {
        member(content.get("document"@), "document"@)
    } else if kind == Some("messageVoiceNote"@) {
        member(content.get("voice_note"@), "voice"@)
    } else if kind == Some("messageAudio"@) {
        member(content.get("audio"@), "audio"@)
    } else if kind == Some("messageAnimation"@) {
        member(content.get("animation"@), "animation"@)
    } else if kind == Some("messageVideoNote"@) {
        member(content.get("video_note"@), "video"@)
    } else {
        None
    }
}

/// The identifier of the file that a message carries, if it carries one.
pub open spec fn file_id_of(message: JsonView) -> Option<i64> {
    match message.get("content"@) {
        None => None,
        Some(content) => int_of(member(media_file(content), "id"@)),
    }
}

/// The identifier of the file that a message carries.
pub fn extract_file_id(message: &Json) -> (r: Option<i64>)
    ensures
        r == file_id_of(message@),
{
    let content: &Json = match message.get("content") {
        Some(c) => c,
        None => {
            return None;
        },
    };
    let kind = text(content.get("@type"));
    let file: Option<&Json> = if is_text(kind, "messagePhoto") {
        field(last_of(items(field(content.get("photo"), "sizes"))), "photo")
    } else if is_text(kind, "messageVideo") {
        field(content.get("video"), "video")
    } else if is_text(kind, "messageDocument") {
        field(content.get("document"), "document")
    } else if is_text(kind, "messageVoiceNote") {
        field(content.get("voice_note"), "voice")
    } else if is_text(kind, "messageAudio") {
        field(content.get("audio"), "audio")
    } else if is_text(kind, "messageAnimation") {
        field(content.get("animation"), "animation")
    } else if is_text(kind, "messageVideoNote") {
        field(content.get("video_note"), "video")
    } else {
        None
    };
    integer(field(file, "id"))
}

/// The first of the active usernames of a user.
pub open spec fn first_username(user: JsonView) -> Option<Seq<char>> {
    text_of(first_item(items_of(member(user.get("usernames"@), "active_usernames"@))))
}

/// The name of a user: the first name, and the last name behind it where
/// there is one.
pub open spec fn full_name(user: JsonView) -> Seq<char> {
    let first = text_or(text_of(user.get("first_name"@)), Seq::empty());
    let last = text_or(text_of(user.get("last_name"@)), Seq::empty());
    if last.len() > 0 {
        first + " "@ + last
    } else {
        first
    }
}

/// The name under which a user is shown as a sender: the full name, and
/// the username in brackets where there is one.
pub open spec fn sender_label(user: JsonView) -> Seq<char> {
    match first_username(user) {
        Some(u) => full_name(user) + " (@"@ + u + ")"@,
        None => full_name(user),
    }
}

/// The first of the active usernames of a user.
pub fn user_username(user: &Json) -> (r: Option<String>)
    ensures
        crate::entities::opt_text(r) == first_username(user@),
{
    match text(first_of(items(field(user.get("usernames"), "active_usernames")))) {
        Some(u) => Some(String::from_str(u)),
        None => None,
    }
}

/// The name of a user.
pub fn user_full_name(user: &Json) -> (r: String)
    ensures
        r@ == full_name(user@),
{
    proof {
        reveal_strlit("");
    }
    let first: &str = match text(user.get("first_name")) {
        Some(f) => f,
        None => "",
    };
    let last: &str = match text(user.get("last_name")) {
        Some(l) => l,
        None => "",
    };
    if !is_blank(last) {
        glue3(first, " ", last)
    } else {
        String::from_str(first)
    }
}

/// The name under which a user is shown as a sender.
pub fn user_sender_label(user: &Json) -> (r: String)
    ensures
        r@ == sender_label(user@),
{
    let mut name = user_full_name(user);
    match user_username(user) {
        Some(u) => {
            name.append(" (@");
            name.append(u.as_str());
            name.append(")");
            name
        },
        None => name,
    }
}

/// The profile that the payload of the session's own user describes.
pub open spec fn profile_of(user: JsonView) -> ProfileView {
    ProfileView {
        platform: Platform::Telegram,
        id: decimal(int_or(int_of(user.get("id"@)), 0) as int),
        name: full_name(user),
        username: first_username(user),
        email: None,
        phone: non_empty(text_of(user.get("phone_number"@))),
    }
}

/// The profile that the payload of the session's own user describes.
pub fn parse_profile(user: &Json) -> (p: Profile)
    ensures
        p@ == profile_of(user@),
{
    let phone: Option<String> = match text(user.get("phone_number")) {
        Some(p) => if is_blank(p) {
            None
        } else {
            Some(String::from_str(p))
        },
        None => None,
    };
    Profile {
        platform: Platform::Telegram,
        id: i64_to_string(integer_or(integer(user.get("id")), 0)),
        name: user_full_name(user),
        username: user_username(user),
        email: None,
        phone,
    }
}

/// The text at `first.second.third` of a payload.
pub open spec fn deep_text(
    payload: JsonView,
    first: Seq<char>,
    second: Seq<char>,
    third: Seq<char>,
) -> Option<Seq<char>> {
    text_of(member(member(payload.get(first), second), third))
}

/// The text that stands for the content of a message. A text message is
/// its text; every other content is a bracketed label, with the caption,
/// file name, title, emoji or question where the content has one.
pub open spec fn content_text(content: JsonView, kind: Seq<char>) -> Seq<char> {
    if kind == "messageText"@ {
        text_or(nested_text(content, "text"@, "text"@), Seq::empty())
    } else if kind == "messagePhoto"@ {
        match nested_text(content, "caption"@, "text"@) {
            Some(caption) => "[Photo] "@ + caption,
            None => "[Photo]"@,
        }
    } else if kind == "messageVideo"@ {
        let caption = text_or(nested_text(content, "caption"@, "text"@), Seq::empty());
        if caption.len() == 0 {
            "[Video]"@
        } else {
            "[Video] "@ + caption
        }
    } else if kind == "messageDocument"@ {
        "[Document: "@ + text_or(nested_text(content, "document"@, "file_name"@), "file"@) + "]"@
    } else if kind == "messageVoiceNote"@ {
        "[Voice message]"@
    } else if kind == "messageAnimation"@ {
        "[GIF]"@
    } else if kind == "messageAudio"@ {
        "[Audio: "@ + text_or(nested_text(content, "audio"@, "title"@), "audio"@) + "]"@
    } else if kind == "messageSticker"@ {
        "[Sticker "@ + text_or(nested_text(content, "sticker"@, "emoji"@), Seq::empty()) + "]"@
    } else if kind == "messageVideoNote"@ {
        "[Video message]"@
    } else if kind == "messagePoll"@ {
        "[Poll: "@ + text_or(deep_text(content, "poll"@, "question"@, "text"@), "poll"@) + "]"@
    } else if kind == "messageLocation"@ {
        "[Location]"@
    } else if kind == "messageContact"@ {
        "[Contact]"@
    } else {
        "["@ + kind + "]"@
    }
}

/// The reaction that one entry of the reactions of a message describes:
/// its emoji and its count, 0 where it has none; `None` for an entry
/// without an emoji.
pub open spec fn reaction_of(entry: JsonView) -> Option<ReactionView> {
    let emoji = text_or(nested_text(entry, "type"@, "emoji"@), Seq::empty());
    if emoji.len() == 0 {
        None
    } else {
        Some(ReactionView { emoji, count: int_or(int_of(entry.get("total_count"@)), 0) as i32 })
    }
}

/// The reactions that the entries describe, in their order.
pub open spec fn reactions_in(entries: Seq<JsonView>) -> Seq<ReactionView> {
    entries.filter_map(|entry: JsonView| reaction_of(entry))
}

/// The reactions of a message, where it has any.
pub open spec fn reactions_of(message: JsonView) -> Option<Seq<ReactionView>> {
    match items_of(
        member(member(message.get("interaction_info"@), "reactions"@), "reactions"@),
    ) {
        Some(entries) => if reactions_in(entries).len() > 0 {
            Some(reactions_in(entries))
        } else {
            None
        },
        None => None,
    }
}

/// The kind of media of a content that is no text: its type in lowercase,
/// without the word `message`.
pub open spec fn media_kind(kind: Seq<char>) -> Option<Seq<char>> {
    if kind == "messageText"@ {
        None
    } else {
        Some(lowercase(without(kind, "message"@)))
    }
}

/// The message that a payload describes; `None` where the payload has no
/// integer `id`, no integer `chat_id` or no `content`.
pub open spec fn message_of(payload: JsonView) -> Option<MessageView> {
    match (int_of(payload.get("id"@)), int_of(payload.get("chat_id"@)), payload.get("content"@)) {
        (Some(id), Some(chat_id), Some(content)) => {
            let kind = text_or(text_of(content.get("@type"@)), Seq::empty());
            Some(
                MessageView {
                    id: decimal(id as int),
                    platform: Platform::Telegram,
                    channel_id: decimal(chat_id as int),
                    sender: sender_of(payload),
                    text: content_text(content, kind),
                    timestamp: int_or(int_of(payload.get("date"@)), 0),
                    has_attachment: kind != "messageText"@,
                    reply_to: match int_of(member(payload.get("reply_to"@), "message_id"@)) {
                        Some(reply) => Some(decimal(reply as int)),
                        None => None,
                    },
                    meta: MessageMetaView {
                        subject: None,
                        cc: None,
                        bcc: None,
                        labels: None,
                        media_type: media_kind(kind),
                        forward_from: if payload.get("forward_info"@) is Some {
                            Some("forwarded"@)
                        } else {
                            None
                        },
                        reactions: reactions_of(payload),
                        views: positive(
                            int_of(member(payload.get("interaction_info"@), "view_count"@)),
                        ),
                        edit_date: positive(int_of(payload.get("edit_date"@))),
                        is_pinned: bool_of(payload.get("is_pinned"@)),
                    },
                },
            )
        },
        _ => None,
    }
}

/// The messages that the payloads describe, in their order; payloads that
/// describe none are passed over.
pub open spec fn messages_in(payloads: Seq<JsonView>) -> Seq<MessageView> {
    payloads.filter_map(|payload: JsonView| message_of(payload))
}

/// The view of an optional message.
pub open spec fn opt_message(o: Option<Message>) -> Option<MessageView> {
    match o {
        Some(m) => Some(m@),
        None => None,
    }
}

/// The text that stands for the content of a message.
pub fn content_label(content: &Json, kind: &str) -> (r: String)
    ensures
        r@ == content_text(content@, kind@),
{
    proof {
        reveal_strlit("");
    }
    if str_eq(kind, "messageText") {
        match text(field(content.get("text"), "text")) {
            Some(t) => String::from_str(t),
            None => String::from_str(""),
        }
    } else if str_eq(kind, "messagePhoto") {
        match text(field(content.get("caption"), "text")) {
            Some(caption) => glue("[Photo] ", caption),
            None => String::from_str("[Photo]"),
        }
    } else if str_eq(kind, "messageVideo") {
        let caption: &str = match text(field(content.get("caption"), "text")) {
            Some(c) => c,
            None => "",
        };
        if is_blank(caption) {
            String::from_str("[Video]")
        } else {
            glue("[Video] ", caption)
        }
    } else if str_eq(kind, "messageDocument") {
        match text(field(content.get("document"), "file_name")) {
            Some(name) => glue3("[Document: ", name, "]"),
            None => glue3("[Document: ", "file", "]"),
        }
    } else if str_eq(kind, "messageVoiceNote") {
        String::from_str("[Voice message]")
    } else if str_eq(kind, "messageAnimation") {
        String::from_str("[GIF]")
    } else if str_eq(kind, "messageAudio") {
        match text(field(content.get("audio"), "title")) {
            Some(title) => glue3("[Audio: ", title, "]"),
            None => glue3("[Audio: ", "audio", "]"),
        }
    } else if str_eq(kind, "messageSticker") {
        match text(field(content.get("sticker"), "emoji")) {
            Some(emoji) => glue3("[Sticker ", emoji, "]"),
            None => glue3("[Sticker ", "", "]"),
        }
    } else if str_eq(kind, "messageVideoNote") {
        String::from_str("[Video message]")
    } else if str_eq(kind, "messagePoll") {
        match text(field(field(content.get("poll"), "question"), "text")) {
            Some(question) => glue3("[Poll: ", question, "]"),
            None => glue3("[Poll: ", "poll", "]"),
        }
    } else if str_eq(kind, "messageLocation") {
        String::from_str("[Location]")
    } else if str_eq(kind, "messageContact") {
        String::from_str("[Contact]")
    } else {
        glue3("[", kind, "]")
    }
}

proof fn lemma_reactions_in_push(entries: Seq<JsonView>, entry: JsonView)
    ensures
        reactions_in(entries.push(entry)) == match reaction_of(entry) {
            Some(r) => reactions_in(entries).push(r),
            None => reactions_in(entries),
        },
{
    assert(entries.push(entry).drop_last() =~= entries);
    match reaction_of(entry) {
        Some(r) => {
        },
        None => {},
    }
}

proof fn lemma_messages_in_push(payloads: Seq<JsonView>, payload: JsonView)
    ensures
        messages_in(payloads.push(payload)) == match message_of(payload) {
            Some(m) => messages_in(payloads).push(m),
            None => messages_in(payloads),
        },
{
    assert(payloads.push(payload).drop_last() =~= payloads);
    match message_of(payload) {
        Some(m) => {
        },
        None => {},
    }
}

/// The reactions of a message, where it has any.
pub fn parse_reactions(message: &Json) -> (r: Option<Vec<Reaction>>)
    ensures
        crate::entities::opt_reactions(r) == reactions_of(message@),
{
    let entries: &Vec<Json> = match items(
        field(field(message.get("interaction_info"), "reactions"), "reactions"),
    ) {
        Some(a) => a,
        None => {
            return None;
        },
    };
    let ghost all = json_views(entries@);
    let mut out: Vec<Reaction> = Vec::new();
    let mut i: usize = 0;
    while i < entries.len()
        invariant
            i <= entries.len(),
            all == json_views(entries@),
            crate::entities::reaction_views(out@) == reactions_in(all.take(i as int)),
        decreases entries.len() - i,
    {
        let entry: &Json = &entries[i];
        proof {
            assert(all.take(i + 1) =~= all.take(i as int).push(entry@));
            lemma_reactions_in_push(all.take(i as int), entry@);
            reveal_strlit("");
        }
        let emoji: &str = match text(field(entry.get("type"), "emoji")) {
            Some(e) => e,
            None => "",
        };
        if !is_blank(emoji) {
            let count: i64 = integer_or(integer(entry.get("total_count")), 0);
            let ghost before = out@;
            let reaction = Reaction {
                emoji: String::from_str(emoji),
                count: #[verifier::truncate]
                (count as i32),
            };
            out.push(reaction);
            assert(crate::entities::reaction_views(out@) =~= crate::entities::reaction_views(
                before,
            ).push(reaction@));
        }
        i += 1;
    }
    assert(all.take(entries.len() as int) =~= all);
    if out.len() == 0 {
        None
    } else {
        Some(out)
    }
}

/// The message that a payload describes.
pub fn parse_message(payload: &Json) -> (r: Option<Message>)
    ensures
        opt_message(r) == message_of(payload@),
{
    let id: i64 = match integer(payload.get("id")) {
        Some(id) => id,
        None => {
            return None;
        },
    };
    let chat_id: i64 = match integer(payload.get("chat_id")) {
        Some(id) => id,
        None => {
            return None;
        },
    };
    let date: i64 = integer_or(integer(payload.get("date")), 0);
    let sender = extract_sender(payload);
    let content: &Json = match payload.get("content") {
        Some(c) => c,
        None => {
            return None;
        },
    };
    proof {
        reveal_strlit("");
        assert(""@ =~= Seq::<char>::empty());
    }
    let kind: &str = match text(content.get("@type")) {
        Some(k) => k,
        None => "",
    };
    let label = content_label(content, kind);
    let has_attachment: bool = !str_eq(kind, "messageText");
    let media_type: Option<String> = if has_attachment {
        let bare = remove_all(kind, "message");
        Some(str_to_lowercase(bare.as_str()))
    } else {
        None
    };
    let reply_to: Option<String> = match integer(field(payload.get("reply_to"), "message_id")) {
        Some(reply) => Some(i64_to_string(reply)),
        None => None,
    };
    let forward_from: Option<String> = match payload.get("forward_info") {
        Some(_) => Some(String::from_str("forwarded")),
        None => None,
    };
    let is_pinned: Option<bool> = boolean(payload.get("is_pinned"));
    let edit_date: Option<i64> = keep_positive(integer(payload.get("edit_date")));
    let views: Option<i64> = keep_positive(
        integer(field(payload.get("interaction_info"), "view_count")),
    );
    let reactions = parse_reactions(payload);
    Some(
        Message {
            id: i64_to_string(id),
            platform: Platform::Telegram,
            channel_id: i64_to_string(chat_id),
            sender,
            text: label,
            timestamp: date,
            has_attachment,
            reply_to,
            meta: MessageMeta {
                subject: None,
                cc: None,
                bcc: None,
                labels: None,
                media_type,
                forward_from,
                reactions,
                views,
                edit_date,
                is_pinned,
            },
        },
    )
}

/// The messages that the payloads describe, in their order.
pub fn parse_messages(payloads: &Vec<Json>) -> (r: Vec<Message>)
    ensures
        crate::entities::message_views(r@) == messages_in(json_views(payloads@)),
{
    let ghost all = json_views(payloads@);
    let mut out: Vec<Message> = Vec::new();
    let mut i: usize = 0;
    while i < payloads.len()
        invariant
            i <= payloads.len(),
            all == json_views(payloads@),
            crate::entities::message_views(out@) == messages_in(all.take(i as int)),
        decreases payloads.len() - i,
    {
        proof {
            assert(all.take(i + 1) =~= all.take(i as int).push(payloads@[i as int]@));
            lemma_messages_in_push(all.take(i as int), payloads@[i as int]@);
        }
        match parse_message(&payloads[i]) {
            Some(m) => {
                let ghost before = out@;
                let ghost view = m@;
                out.push(m);
                assert(crate::entities::message_views(out@) =~= crate::entities::message_views(
                    before,
                ).push(view));
            },
            None => {},
        }
        i += 1;
    }
    assert(all.take(payloads.len() as int) =~= all);
    out
}

} // verus!
