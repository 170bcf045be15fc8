//! The operations of the chat backend, each as the commands it submits and
//! what it makes of their answers.
//!
//! The commands are submitted by the caller, through the correlation
//! engine; nothing here waits.

use crate::entities::{
    message_views, opt_text, ChannelType, ChannelTypeView, ChatInfo, ChatInfoView, ChatMember,
    ChatMemberView, Message, MessageView, PageView, Paginated, Platform, page_view,
};
use crate::error::{AgentError, ErrorKind};
use crate::json::{
    bool_of, boolean, count_json, field, int_of, integer, items, items_of, json_views, member,
    opt_str, text, text_of, Json, JsonView,
};
use crate::tdlib::parse::{
    first_item, first_of, int_or, integer_or, is_blank, member_of,
    message_of, messages_in, nested_text, non_empty, parse_chat_member,
    parse_message, parse_messages, text_or,
};
use crate::text::{
    contains_parent_dir, has_parent_dir, after_prefix, glue, glue3, decimal, has_suffix, i64_to_string, lowercase, parse_i64,
    parse_i64_spec, str_eq, str_to_lowercase, strip_prefix, ends_with,
};
use vstd::prelude::*;

verus! {

/// A command of the given type without parameters.
pub open spec fn command_of(kind: Seq<char>) -> JsonView {
    JsonView::Object(seq![("@type"@, JsonView::Str(kind))])
}

/// A command of the given type without parameters.
pub fn command(kind: &str) -> (c: Json)
    ensures
        c@ == command_of(kind@),
{
    let c = Json::object().with("@type", Json::string(kind));
    c
}

/// The command that asks for the session's own user.
pub fn profile_request() -> (c: Json)
    ensures
        c@ == command_of("getMe"@),
{
    command("getMe")
}

/// The command that asks for a user.
pub open spec fn user_command(user_id: i64) -> JsonView {
    command_of("getUser"@).with("user_id"@, JsonView::Int(user_id))
}

/// The command that asks for a user.
pub fn user_request(user_id: i64) -> (c: Json)
    ensures
        c@ == user_command(user_id),
{
    command("getUser").with("user_id", Json::Int(user_id))
}

/// The command that lists the chats of the main list.
pub open spec fn chats_command(limit: nat) -> JsonView {
    command_of("getChats"@).with("chat_list"@, command_of("chatListMain"@)).with(
        "limit"@,
        count_json(limit),
    )
}

/// The command that lists the chats of the main list.
pub fn chats_request(limit: usize) -> (c: Json)
    ensures
        c@ == chats_command(limit as nat),
{
    command("getChats").with("chat_list", command("chatListMain")).with(
        "limit",
        Json::count(limit),
    )
}

/// The command that asks for a chat.
pub open spec fn chat_command(chat_id: i64) -> JsonView {
    command_of("getChat"@).with("chat_id"@, JsonView::Int(chat_id))
}

/// The command that asks for a chat.
pub fn chat_request(chat_id: i64) -> (c: Json)
    ensures
        c@ == chat_command(chat_id),
{
    command("getChat").with("chat_id", Json::Int(chat_id))
}

/// What follows `tg:` in a cursor.
pub open spec fn cursor_body(cursor: Option<Seq<char>>) -> Option<Seq<char>> {
    match cursor {
        Some(c) => after_prefix(c, "tg:"@),
        None => None,
    }
}

/// The message at which a page of history starts: the number in the
/// cursor, or 0 for the newest message.
pub open spec fn cursor_message(cursor: Option<Seq<char>>) -> i64 {
    match cursor_body(cursor) {
        Some(body) => match parse_i64_spec(body) {
            Some(id) => id,
            None => 0,
        },
        None => 0,
    }
}

/// The command that reads a page of the history of a chat.
pub open spec fn history_command(chat_id: i64, cursor: Option<Seq<char>>, limit: nat) -> JsonView {
    command_of("getChatHistory"@).with("chat_id"@, JsonView::Int(chat_id)).with(
        "from_message_id"@,
        JsonView::Int(cursor_message(cursor)),
    ).with("offset"@, JsonView::Int(0)).with("limit"@, count_json(limit)).with(
        "only_local"@,
        JsonView::Bool(false),
    )
}

fn cursor_rest(cursor: Option<&str>) -> (r: Option<String>)
    ensures
        opt_text(r) == cursor_body(opt_str(cursor)),
{
    match cursor {
        Some(c) => strip_prefix(c, "tg:"),
        None => None,
    }
}

/// The command that reads a page of the history of a chat.
pub fn history_request(chat_id: i64, cursor: Option<&str>, limit: usize) -> (c: Json)
    ensures
        c@ == history_command(chat_id, opt_str(cursor), limit as nat),
{
    let from: i64 = match cursor_rest(cursor) {
        Some(body) => match parse_i64(body.as_str()) {
            Some(id) => id,
            None => 0,
        },
        None => 0,
    };
    command("getChatHistory").with("chat_id", Json::Int(chat_id)).with(
        "from_message_id",
        Json::Int(from),
    ).with("offset", Json::Int(0)).with("limit", Json::count(limit)).with(
        "only_local",
        Json::Bool(false),
    )
}

/// The content of a text message.
pub open spec fn text_content(text: Seq<char>) -> JsonView {
    command_of("inputMessageText"@).with(
        "text"@,
        command_of("formattedText"@).with("text"@, JsonView::Str(text)),
    )
}

fn text_content_of(text: &str) -> (c: Json)
    ensures
        c@ == text_content(text@),
{
    command("inputMessageText").with(
        "text",
        command("formattedText").with("text", Json::string(text)),
    )
}

/// The failure of a reply target that is no number.
pub open spec fn invalid_reply(reply_to: Seq<char>) -> (ErrorKind, Seq<char>) {
    (
        ErrorKind::InvalidInput,
        "invalid reply_to: "@ + reply_to + " (expected numeric message ID)"@,
    )
}

/// The command that sends a text to a chat, as a reply where a message is
/// named; the failure where the name of that message is no number.
pub open spec fn send_message_command(
    chat_id: i64,
    text: Seq<char>,
    reply_to: Option<Seq<char>>,
) -> Result<JsonView, (ErrorKind, Seq<char>)> {
    let plain = command_of("sendMessage"@).with("chat_id"@, JsonView::Int(chat_id)).with(
        "input_message_content"@,
        text_content(text),
    );
    match reply_to {
        None => Ok(plain),
        Some(reply) => match parse_i64_spec(reply) {
            Some(id) => Ok(
                plain.with(
                    "reply_to"@,
                    command_of("inputMessageReplyToMessage"@).with(
                        "message_id"@,
                        JsonView::Int(id),
                    ),
                ),
            ),
            None => Err(invalid_reply(reply)),
        },
    }
}

/// The view of a command that may have failed.
pub open spec fn command_result(r: Result<Json, AgentError>) -> Result<
    JsonView,
    (ErrorKind, Seq<char>),
> {
    match r {
        Ok(c) => Ok(c@),
        Err(e) => Err(e@),
    }
}

/// The command that sends a text to a chat.
pub fn send_message_request(chat_id: i64, text: &str, reply_to: Option<&str>) -> (r: Result<
    Json,
    AgentError,
>)
    ensures
        command_result(r) == send_message_command(chat_id, text@, opt_str(reply_to)),
{
    let plain = command("sendMessage").with("chat_id", Json::Int(chat_id)).with(
        "input_message_content",
        text_content_of(text),
    );
    match reply_to {
        None => Ok(plain),
        Some(reply) => match parse_i64(reply) {
            Some(id) => Ok(
                plain.with(
                    "reply_to",
                    command("inputMessageReplyToMessage").with("message_id", Json::Int(id)),
                ),
            ),
            None => Err(
                AgentError::InvalidInput(
                    glue3("invalid reply_to: ", reply, " (expected numeric message ID)"),
                ),
            ),
        },
    }
}

/// Where a search goes on: what follows `tg:` in the cursor, or nothing.
pub open spec fn search_offset(cursor: Option<Seq<char>>) -> Seq<char> {
    match cursor_body(cursor) {
        Some(body) => body,
        None => Seq::empty(),
    }
}

/// The command that searches all chats of the main list for a text.
pub open spec fn search_command(query: Seq<char>, cursor: Option<Seq<char>>, limit: nat) -> JsonView {
    command_of("searchMessages"@).with("chat_list"@, command_of("chatListMain"@)).with(
        "query"@,
        JsonView::Str(query),
    ).with("offset"@, JsonView::Str(search_offset(cursor))).with("limit"@, count_json(limit)).with(
        "filter"@,
        JsonView::Null,
    ).with("min_date"@, JsonView::Int(0)).with("max_date"@, JsonView::Int(0))
}

/// The command that searches all chats of the main list for a text.
pub fn search_request(query: &str, cursor: Option<&str>, limit: usize) -> (c: Json)
    ensures
        c@ == search_command(query@, opt_str(cursor), limit as nat),
{
    let offset: String = match cursor_rest(cursor) {
        Some(body) => body,
        None => String::new(),
    };
    command("searchMessages").with("chat_list", command("chatListMain")).with(
        "query",
        Json::string(query),
    ).with("offset", Json::Str(offset)).with("limit", Json::count(limit)).with(
        "filter",
        Json::Null,
    ).with("min_date", Json::Int(0)).with("max_date", Json::Int(0))
}

/// The command that asks for one message of a chat.
pub open spec fn message_command(chat_id: i64, message_id: i64) -> JsonView {
    command_of("getMessage"@).with("chat_id"@, JsonView::Int(chat_id)).with(
        "message_id"@,
        JsonView::Int(message_id),
    )
}

/// The command that asks for one message of a chat.
pub fn message_request(chat_id: i64, message_id: i64) -> (c: Json)
    ensures
        c@ == message_command(chat_id, message_id),
{
    command("getMessage").with("chat_id", Json::Int(chat_id)).with(
        "message_id",
        Json::Int(message_id),
    )
}

/// The command that downloads a file and answers when it is there.
pub open spec fn download_command(file_id: i64) -> JsonView {
    command_of("downloadFile"@).with("file_id"@, JsonView::Int(file_id)).with(
        "priority"@,
        JsonView::Int(32),
    ).with("synchronous"@, JsonView::Bool(true))
}

/// The command that downloads a file and answers when it is there.
pub fn download_request(file_id: i64) -> (c: Json)
    ensures
        c@ == download_command(file_id),
{
    command("downloadFile").with("file_id", Json::Int(file_id)).with(
        "priority",
        Json::Int(32),
    ).with("synchronous", Json::Bool(true))
}

/// An array that holds one integer.
pub open spec fn single(id: i64) -> JsonView {
    JsonView::Array(seq![JsonView::Int(id)])
}

fn single_of(id: i64) -> (j: Json)
    ensures
        j@ == single(id),
{
    let mut ids: Vec<i64> = Vec::new();
    ids.push(id);
    let j = Json::int_array(&ids);
    assert(j@->Array_0 =~= seq![JsonView::Int(id)]);
    j
}

/// The integers as an array.
pub open spec fn int_list(ids: Seq<i64>) -> JsonView {
    JsonView::Array(Seq::new(ids.len(), |i: int| JsonView::Int(ids[i])))
}

/// The command that forwards one message from a chat to another.
pub open spec fn forward_command(from_chat: i64, to_chat: i64, message_id: i64) -> JsonView {
    command_of("forwardMessages"@).with("chat_id"@, JsonView::Int(to_chat)).with(
        "from_chat_id"@,
        JsonView::Int(from_chat),
    ).with("message_ids"@, single(message_id))
}

/// The command that forwards one message from a chat to another.
pub fn forward_request(from_chat: i64, to_chat: i64, message_id: i64) -> (c: Json)
    ensures
        c@ == forward_command(from_chat, to_chat, message_id),
{
    command("forwardMessages").with("chat_id", Json::Int(to_chat)).with(
        "from_chat_id",
        Json::Int(from_chat),
    ).with("message_ids", single_of(message_id))
}

/// The command that replaces the text of a message.
pub open spec fn edit_command(chat_id: i64, message_id: i64, text: Seq<char>) -> JsonView {
    command_of("editMessageText"@).with("chat_id"@, JsonView::Int(chat_id)).with(
        "message_id"@,
        JsonView::Int(message_id),
    ).with("input_message_content"@, text_content(text))
}

/// The command that replaces the text of a message.
pub fn edit_request(chat_id: i64, message_id: i64, text: &str) -> (c: Json)
    ensures
        c@ == edit_command(chat_id, message_id, text@),
{
    command("editMessageText").with("chat_id", Json::Int(chat_id)).with(
        "message_id",
        Json::Int(message_id),
    ).with("input_message_content", text_content_of(text))
}

/// The command that deletes messages for everybody.
pub open spec fn delete_command(chat_id: i64, message_ids: Seq<i64>) -> JsonView {
    command_of("deleteMessages"@).with("chat_id"@, JsonView::Int(chat_id)).with(
        "message_ids"@,
        int_list(message_ids),
    ).with("revoke"@, JsonView::Bool(true))
}

/// The command that deletes messages for everybody.
pub fn delete_request(chat_id: i64, message_ids: &Vec<i64>) -> (c: Json)
    ensures
        c@ == delete_command(chat_id, message_ids@),
{
    command("deleteMessages").with("chat_id", Json::Int(chat_id)).with(
        "message_ids",
        Json::int_array(message_ids),
    ).with("revoke", Json::Bool(true))
}

/// The command that pins a message, with a notification, for everybody.
pub open spec fn pin_command(chat_id: i64, message_id: i64) -> JsonView {
    command_of("pinChatMessage"@).with("chat_id"@, JsonView::Int(chat_id)).with(
        "message_id"@,
        JsonView::Int(message_id),
    ).with("disable_notification"@, JsonView::Bool(false)).with(
        "only_for_self"@,
        JsonView::Bool(false),
    )
}

/// The command that pins a message.
pub fn pin_request(chat_id: i64, message_id: i64) -> (c: Json)
    ensures
        c@ == pin_command(chat_id, message_id),
{
    command("pinChatMessage").with("chat_id", Json::Int(chat_id)).with(
        "message_id",
        Json::Int(message_id),
    ).with("disable_notification", Json::Bool(false)).with("only_for_self", Json::Bool(false))
}

/// The command that unpins a message.
pub open spec fn unpin_command(chat_id: i64, message_id: i64) -> JsonView {
    command_of("unpinChatMessage"@).with("chat_id"@, JsonView::Int(chat_id)).with(
        "message_id"@,
        JsonView::Int(message_id),
    )
}

/// The command that unpins a message.
pub fn unpin_request(chat_id: i64, message_id: i64) -> (c: Json)
    ensures
        c@ == unpin_command(chat_id, message_id),
{
    command("unpinChatMessage").with("chat_id", Json::Int(chat_id)).with(
        "message_id",
        Json::Int(message_id),
    )
}

/// The command that marks a chat as read up to a message.
pub open spec fn mark_read_command(chat_id: i64, message_id: i64) -> JsonView {
    command_of("viewMessages"@).with("chat_id"@, JsonView::Int(chat_id)).with(
        "message_ids"@,
        single(message_id),
    ).with("force_read"@, JsonView::Bool(true))
}

/// The command that marks a chat as read up to a message.
pub fn mark_read_request(chat_id: i64, message_id: i64) -> (c: Json)
    ensures
        c@ == mark_read_command(chat_id, message_id),
{
    command("viewMessages").with("chat_id", Json::Int(chat_id)).with(
        "message_ids",
        single_of(message_id),
    ).with("force_read", Json::Bool(true))
}

/// The command that reacts to a message with an emoji.
pub open spec fn react_command(chat_id: i64, message_id: i64, emoji: Seq<char>) -> JsonView {
    command_of("addMessageReaction"@).with("chat_id"@, JsonView::Int(chat_id)).with(
        "message_id"@,
        JsonView::Int(message_id),
    ).with(
        "reaction_type"@,
        command_of("reactionTypeEmoji"@).with("emoji"@, JsonView::Str(emoji)),
    ).with("is_big"@, JsonView::Bool(false)).with("update_recent_reactions"@, JsonView::Bool(true))
}

/// The command that reacts to a message with an emoji.
pub fn react_request(chat_id: i64, message_id: i64, emoji: &str) -> (c: Json)
    ensures
        c@ == react_command(chat_id, message_id, emoji@),
{
    command("addMessageReaction").with("chat_id", Json::Int(chat_id)).with(
        "message_id",
        Json::Int(message_id),
    ).with("reaction_type", command("reactionTypeEmoji").with("emoji", Json::string(emoji))).with(
        "is_big",
        Json::Bool(false),
    ).with("update_recent_reactions", Json::Bool(true))
}

/// The command that searches one chat for a text.
pub open spec fn search_chat_command(chat_id: i64, query: Seq<char>, limit: nat) -> JsonView {
    command_of("searchChatMessages"@).with("chat_id"@, JsonView::Int(chat_id)).with(
        "query"@,
        JsonView::Str(query),
    ).with("sender_id"@, JsonView::Null).with("from_message_id"@, JsonView::Int(0)).with(
        "offset"@,
        JsonView::Int(0),
    ).with("limit"@, count_json(limit)).with("filter"@, JsonView::Null).with(
        "message_thread_id"@,
        JsonView::Int(0),
    )
}

/// The command that searches one chat for a text.
pub fn search_chat_request(chat_id: i64, query: &str, limit: usize) -> (c: Json)
    ensures
        c@ == search_chat_command(chat_id, query@, limit as nat),
{
    command("searchChatMessages").with("chat_id", Json::Int(chat_id)).with(
        "query",
        Json::string(query),
    ).with("sender_id", Json::Null).with("from_message_id", Json::Int(0)).with(
        "offset",
        Json::Int(0),
    ).with("limit", Json::count(limit)).with("filter", Json::Null).with(
        "message_thread_id",
        Json::Int(0),
    )
}

/// The integers among the items, in their order.
pub open spec fn int_items(items: Seq<JsonView>) -> Seq<i64> {
    items.filter_map(|item: JsonView| item.as_i64())
}

proof fn lemma_int_items_push(items: Seq<JsonView>, item: JsonView)
    ensures
        int_items(items.push(item)) == match item.as_i64() {
            Some(i) => int_items(items).push(i),
            None => int_items(items),
        },
{
    assert(items.push(item).drop_last() =~= items);
    match item.as_i64() {
        Some(i) => {
        },
        None => {},
    }
}

/// The failure of an answer that lacks what was asked for.
pub open spec fn unexpected(what: Seq<char>) -> (ErrorKind, Seq<char>) {
    (ErrorKind::Api, "unexpected "@ + what + " response"@)
}

fn unexpected_error(what: &str) -> (e: AgentError)
    ensures
        e@ == unexpected(what@),
{
    AgentError::Api(glue3("unexpected ", what, " response"))
}

/// The identifiers of the chats that an answer lists: the integers among
/// its `chat_ids`; an answer without that array is a failure.
pub open spec fn chat_ids_of(answer: JsonView) -> Result<Seq<i64>, (ErrorKind, Seq<char>)> {
    match items_of(answer.get("chat_ids"@)) {
        Some(ids) => Ok(int_items(ids)),
        None => Err(unexpected("getChats"@)),
    }
}

/// The identifiers of the chats that an answer lists.
pub fn listed_chat_ids(answer: &Json) -> (r: Result<Vec<i64>, AgentError>)
    ensures
        match r {
            Ok(ids) => chat_ids_of(answer@) == Ok::<Seq<i64>, (ErrorKind, Seq<char>)>(ids@),
            Err(e) => chat_ids_of(answer@) == Err::<Seq<i64>, (ErrorKind, Seq<char>)>(e@),
        },
{
    let raw: &Vec<Json> = match items(answer.get("chat_ids")) {
        Some(a) => a,
        None => {
            return Err(unexpected_error("getChats"));
        },
    };
    let ghost all = json_views(raw@);
    let mut out: Vec<i64> = Vec::new();
    let mut i: usize = 0;
    while i < raw.len()
        invariant
            i <= raw.len(),
            all == json_views(raw@),
            out@ == int_items(all.take(i as int)),
        decreases raw.len() - i,
    {
        proof {
            assert(all.take(i + 1) =~= all.take(i as int).push(raw@[i as int]@));
            lemma_int_items_push(all.take(i as int), raw@[i as int]@);
        }
        match raw[i].as_i64() {
            Some(id) => out.push(id),
            None => {},
        }
        i += 1;
    }
    assert(all.take(raw.len() as int) =~= all);
    Ok(out)
}

/// The view of a page that may have failed.
pub open spec fn page_result(r: Result<Paginated<Message>, AgentError>) -> Result<
    PageView,
    (ErrorKind, Seq<char>),
> {
    match r {
        Ok(page) => Ok(page_view(page)),
        Err(e) => Err(e@),
    }
}

/// The page that an answer to a history command holds: its messages, and,
/// where the answer is as long as was asked for, the mark that there is
/// more and the cursor `tg:` with the identifier of the last message.
pub open spec fn history_page_of(answer: JsonView, limit: nat) -> Result<
    PageView,
    (ErrorKind, Seq<char>),
> {
    match items_of(answer.get("messages"@)) {
        None => Err(unexpected("getChatHistory"@)),
        Some(raw) => {
            let messages = messages_in(raw);
            let has_more = raw.len() == limit;
            Ok(
                PageView {
                    items: messages,
                    has_more,
                    next_cursor: if has_more && messages.len() > 0 {
                        Some("tg:"@ + messages.last().id)
                    } else {
                        None
                    },
                },
            )
        },
    }
}

/// The page that an answer to a history command holds.
pub fn history_page(answer: &Json, limit: usize) -> (r: Result<Paginated<Message>, AgentError>)
    ensures
        page_result(r) == history_page_of(answer@, limit as nat),
{
    let raw: &Vec<Json> = match items(answer.get("messages")) {
        Some(a) => a,
        None => {
            return Err(unexpected_error("getChatHistory"));
        },
    };
    let messages = parse_messages(raw);
    let has_more: bool = raw.len() == limit;
    let next_cursor: Option<String> = if has_more && messages.len() > 0 {
        Some(glue("tg:", messages[messages.len() - 1].id.as_str()))
    } else {
        None
    };
    Ok(Paginated { items: messages, has_more, next_cursor })
}

/// The page that an answer to a search command holds: its messages, and,
/// where the answer names a next offset, the mark that there is more and
/// the cursor `tg:` with that offset.
pub open spec fn search_page_of(answer: JsonView) -> Result<PageView, (ErrorKind, Seq<char>)> {
    match items_of(answer.get("messages"@)) {
        None => Err(unexpected("searchMessages"@)),
        Some(raw) => {
            let next = non_empty(text_of(answer.get("next_offset"@)));
            Ok(
                PageView {
                    items: messages_in(raw),
                    has_more: next is Some,
                    next_cursor: match next {
                        Some(offset) => Some("tg:"@ + offset),
                        None => None,
                    },
                },
            )
        },
    }
}

/// The page that an answer to a search command holds.
pub fn search_page(answer: &Json) -> (r: Result<Paginated<Message>, AgentError>)
    ensures
        page_result(r) == search_page_of(answer@),
{
    let raw: &Vec<Json> = match items(answer.get("messages")) {
        Some(a) => a,
        None => {
            return Err(unexpected_error("searchMessages"));
        },
    };
    let next_cursor: Option<String> = match text(answer.get("next_offset")) {
        Some(offset) => if is_blank(offset) {
            None
        } else {
            Some(glue("tg:", offset))
        },
        None => None,
    };
    let has_more: bool = next_cursor.is_some();
    Ok(Paginated { items: parse_messages(raw), has_more, next_cursor })
}

/// The messages that an answer to a search within a chat holds.
pub open spec fn chat_search_of(answer: JsonView) -> Result<
    Seq<MessageView>,
    (ErrorKind, Seq<char>),
> {
    match items_of(answer.get("messages"@)) {
        None => Err(unexpected("searchChatMessages"@)),
        Some(raw) => Ok(messages_in(raw)),
    }
}

/// The messages that an answer to a search within a chat holds.
pub fn chat_search_messages(answer: &Json) -> (r: Result<Vec<Message>, AgentError>)
    ensures
        match r {
            Ok(found) => chat_search_of(answer@) == Ok::<
                Seq<MessageView>,
                (ErrorKind, Seq<char>),
            >(message_views(found@)),
            Err(e) => chat_search_of(answer@) == Err::<Seq<MessageView>, (ErrorKind, Seq<char>)>(
                e@,
            ),
        },
{
    match items(answer.get("messages")) {
        Some(raw) => Ok(parse_messages(raw)),
        None => Err(unexpected_error("searchChatMessages")),
    }
}

/// The view of a message that may have failed.
pub open spec fn message_result(r: Result<Message, AgentError>) -> Result<
    MessageView,
    (ErrorKind, Seq<char>),
> {
    match r {
        Ok(m) => Ok(m@),
        Err(e) => Err(e@),
    }
}

/// The message that an answer describes, or an internal failure with the
/// given words where it describes none.
pub open spec fn expected_message(answer: JsonView, failure: Seq<char>) -> Result<
    MessageView,
    (ErrorKind, Seq<char>),
> {
    match message_of(answer) {
        Some(m) => Ok(m),
        None => Err((ErrorKind::Internal, failure)),
    }
}

fn expect_message(answer: &Json, failure: &str) -> (r: Result<Message, AgentError>)
    ensures
        message_result(r) == expected_message(answer@, failure@),
{
    match parse_message(answer) {
        Some(m) => Ok(m),
        None => Err(AgentError::internal(failure)),
    }
}

/// The message that the answer to a send command describes.
pub fn sent_message(answer: &Json) -> (r: Result<Message, AgentError>)
    ensures
        message_result(r) == expected_message(answer@, "failed to parse sent message"@),
{
    expect_message(answer, "failed to parse sent message")
}

/// The message that the answer to an edit command describes.
pub fn edited_message(answer: &Json) -> (r: Result<Message, AgentError>)
    ensures
        message_result(r) == expected_message(answer@, "failed to parse edited message"@),
{
    expect_message(answer, "failed to parse edited message")
}

/// The message that the answer to a media command describes.
pub fn sent_media_message(answer: &Json) -> (r: Result<Message, AgentError>)
    ensures
        message_result(r) == expected_message(answer@, "failed to parse sent media message"@),
{
    expect_message(answer, "failed to parse sent media message")
}

/// The message that the answer to a forward command describes: the first
/// of its messages; an answer without messages is a failure of the backend.
pub open spec fn forwarded_of(answer: JsonView) -> Result<MessageView, (ErrorKind, Seq<char>)> {
    match first_item(items_of(answer.get("messages"@))) {
        Some(first) => expected_message(first, "failed to parse forwarded message"@),
        None => Err((ErrorKind::Api, "forward returned no messages"@)),
    }
}

/// The message that the answer to a forward command describes.
pub fn forwarded_message(answer: &Json) -> (r: Result<Message, AgentError>)
    ensures
        message_result(r) == forwarded_of(answer@),
{
    match first_of(items(answer.get("messages"))) {
        Some(first) => expect_message(first, "failed to parse forwarded message"),
        None => Err(AgentError::api("forward returned no messages")),
    }
}

/// The message that the answer to a message command describes; an answer
/// that describes none means that the message does not exist.
pub open spec fn found_of(answer: JsonView, message_id: i64) -> Result<
    MessageView,
    (ErrorKind, Seq<char>),
> {
    match message_of(answer) {
        Some(m) => Ok(m),
        None => Err(
            (ErrorKind::NotFound, "message "@ + decimal(message_id as int) + " not found"@),
        ),
    }
}

/// The message that the answer to a message command describes.
pub fn found_message(answer: &Json, message_id: i64) -> (r: Result<Message, AgentError>)
    ensures
        message_result(r) == found_of(answer@, message_id),
{
    match parse_message(answer) {
        Some(m) => Ok(m),
        None => {
            let id = i64_to_string(message_id);
            Err(AgentError::NotFound(glue3("message ", id.as_str(), " not found")))
        },
    }
}

/// The identifier of the file of a message, or the failure of a message
/// that carries none.
pub fn downloadable_file(message: &Json) -> (r: Result<i64, AgentError>)
    ensures
        match r {
            Ok(id) => crate::tdlib::parse::file_id_of(message@) == Some(id),
            Err(e) => crate::tdlib::parse::file_id_of(message@) is None && e@ == (
                ErrorKind::NotFound,
                "no downloadable media in this message"@,
            ),
        },
{
    match crate::tdlib::parse::extract_file_id(message) {
        Some(id) => Ok(id),
        None => Err(AgentError::not_found("no downloadable media in this message")),
    }
}

/// What to do with a downloaded file.
#[derive(Debug)]
pub enum SavePlan {
    /// It stays where the backend put it; the path is the result.
    Keep(String),
    /// It is copied; the target is the result.
    Copy { from: String, to: String },
}

/// `SavePlan` in terms of texts.
pub enum SavePlanView {
    Keep(Seq<char>),
    Copy { from: Seq<char>, to: Seq<char> },
}

impl View for SavePlan {
    type V = SavePlanView;

    open spec fn view(&self) -> SavePlanView {
        match self {
            SavePlan::Keep(p) => SavePlanView::Keep(p@),
            SavePlan::Copy { from, to } => SavePlanView::Copy { from: from@, to: to@ },
        }
    }
}

/// What becomes of a downloaded file: the answer must name its local path;
/// the file is copied where another path is asked for, which must not have
/// a component `..`, and stays where it is otherwise.
pub open spec fn save_plan_of(answer: JsonView, path: Seq<char>) -> Result<
    SavePlanView,
    (ErrorKind, Seq<char>),
> {
    match nested_text(answer, "local"@, "path"@) {
        None => Err((ErrorKind::Internal, "no local path in download response"@)),
        Some(local) => if path.len() > 0 && local != path {
            if has_parent_dir(path) {
                Err((ErrorKind::InvalidInput, "save_path must not contain '..' components"@))
            } else {
                Ok(SavePlanView::Copy { from: local, to: path })
            }
        } else {
            Ok(SavePlanView::Keep(local))
        },
    }
}

/// What becomes of a downloaded file.
pub fn save_plan(answer: &Json, path: &str) -> (r: Result<SavePlan, AgentError>)
    ensures
        match r {
            Ok(plan) => save_plan_of(answer@, path@) == Ok::<SavePlanView, (ErrorKind, Seq<char>)>(
                plan@,
            ),
            Err(e) => save_plan_of(answer@, path@) == Err::<SavePlanView, (ErrorKind, Seq<char>)>(
                e@,
            ),
        },
{
    let local: &str = match text(field(answer.get("local"), "path")) {
        Some(l) => l,
        None => {
            return Err(AgentError::internal("no local path in download response"));
        },
    };
    if !is_blank(path) && !str_eq(local, path) {
        if contains_parent_dir(path) {
            Err(AgentError::invalid_input("save_path must not contain '..' components"))
        } else {
            Ok(SavePlan::Copy { from: String::from_str(local), to: String::from_str(path) })
        }
    } else {
        Ok(SavePlan::Keep(String::from_str(local)))
    }
}

/// The kinds of media that can be sent.
#[derive(Debug, Clone, Copy, PartialEq, Eq, Structural)]
pub enum MediaKind {
    Photo,
    Video,
    Document,
}

/// The kind of media of a file by the ending of its name, in any letter
/// case: a photo, a video, or else a document.
pub open spec fn media_kind_by_name(file_path: Seq<char>) -> MediaKind {
    let lower = lowercase(file_path);
    if has_suffix(lower, ".jpg"@) || has_suffix(lower, ".jpeg"@) || has_suffix(lower, ".png"@)
        || has_suffix(lower, ".gif"@) || has_suffix(lower, ".webp"@) {
        MediaKind::Photo
    } else if has_suffix(lower, ".mp4"@) || has_suffix(lower, ".mov"@) || has_suffix(
        lower,
        ".avi"@,
    ) {
        MediaKind::Video
    } else {
        MediaKind::Document
    }
}

/// The kind of media to send: the one asked for, which must be `photo`,
/// `video` or `document`, or else the one that the name of the file
/// suggests.
pub open spec fn media_kind_of(file_path: Seq<char>, media_type: Option<Seq<char>>) -> Result<
    MediaKind,
    (ErrorKind, Seq<char>),
> {
    match media_type {
        Some(asked) => if asked == "photo"@ {
            Ok(MediaKind::Photo)
        } else if asked == "video"@ {
            Ok(MediaKind::Video)
        } else if asked == "document"@ {
            Ok(MediaKind::Document)
        } else {
            Err(
                (
                    ErrorKind::InvalidInput,
                    "unsupported media_type '"@ + asked + "', use photo/video/document"@,
                ),
            )
        },
        None => Ok(media_kind_by_name(file_path)),
    }
}

/// The type of the content that carries media of a kind.
pub open spec fn media_input_type(kind: MediaKind) -> Seq<char> {
    match kind {
        MediaKind::Photo => "inputMessagePhoto"@,
        MediaKind::Video => "inputMessageVideo"@,
        MediaKind::Document => "inputMessageDocument"@,
    }
}

/// The field of the content that names the file.
pub open spec fn media_file_key(kind: MediaKind) -> Seq<char> {
    match kind {
        MediaKind::Photo => "photo"@,
        MediaKind::Video => "video"@,
        MediaKind::Document => "document"@,
    }
}

/// The command that sends a local file to a chat, with a caption that may
/// be empty.
pub open spec fn media_command(
    chat_id: i64,
    file_path: Seq<char>,
    caption: Option<Seq<char>>,
    kind: MediaKind,
) -> JsonView {
    command_of("sendMessage"@).with("chat_id"@, JsonView::Int(chat_id)).with(
        "input_message_content"@,
        command_of(media_input_type(kind)).with(
            "caption"@,
            command_of("formattedText"@).with(
                "text"@,
                JsonView::Str(text_or(caption, Seq::empty())),
            ),
        ).with(
            media_file_key(kind),
            command_of("inputFileLocal"@).with("path"@, JsonView::Str(file_path)),
        ),
    )
}

/// The command that sends a local file to a chat, or the failure where the
/// kind of media asked for is not known.
pub open spec fn send_media_command(
    chat_id: i64,
    file_path: Seq<char>,
    caption: Option<Seq<char>>,
    media_type: Option<Seq<char>>,
) -> Result<JsonView, (ErrorKind, Seq<char>)> {
    match media_kind_of(file_path, media_type) {
        Ok(kind) => Ok(media_command(chat_id, file_path, caption, kind)),
        Err(e) => Err(e),
    }
}

/// The kind of media of a file by the ending of its name.
pub fn detect_media_kind(file_path: &str) -> (kind: MediaKind)
    ensures
        kind == media_kind_by_name(file_path@),
{
    let lower = str_to_lowercase(file_path);
    let l: &str = lower.as_str();
    if ends_with(l, ".jpg") || ends_with(l, ".jpeg") || ends_with(l, ".png") || ends_with(
        l,
        ".gif",
    ) || ends_with(l, ".webp") {
        MediaKind::Photo
    } else if ends_with(l, ".mp4") || ends_with(l, ".mov") || ends_with(l, ".avi") {
        MediaKind::Video
    } else {
        MediaKind::Document
    }
}

/// The command that sends a local file to a chat.
pub fn send_media_request(
    chat_id: i64,
    file_path: &str,
    caption: Option<&str>,
    media_type: Option<&str>,
) -> (r: Result<Json, AgentError>)
    ensures
        command_result(r) == send_media_command(
            chat_id,
            file_path@,
            opt_str(caption),
            opt_str(media_type),
        ),
{
    let kind: MediaKind = match media_type {
        Some(asked) => if str_eq(asked, "photo") {
            MediaKind::Photo
        } else if str_eq(asked, "video") {
            MediaKind::Video
        } else if str_eq(asked, "document") {
            MediaKind::Document
        } else {
            return Err(
                AgentError::InvalidInput(
                    glue3("unsupported media_type '", asked, "', use photo/video/document"),
                ),
            );
        },
        None => detect_media_kind(file_path),
    };
    let (input_type, file_key): (&str, &str) = match kind {
        MediaKind::Photo => ("inputMessagePhoto", "photo"),
        MediaKind::Video => ("inputMessageVideo", "video"),
        MediaKind::Document => ("inputMessageDocument", "document"),
    };
    let caption_text: String = match caption {
        Some(c) => String::from_str(c),
        None => String::new(),
    };
    let content = command(input_type).with(
        "caption",
        command("formattedText").with("text", Json::Str(caption_text)),
    ).with(file_key, command("inputFileLocal").with("path", Json::string(file_path)));
    Ok(
        command("sendMessage").with("chat_id", Json::Int(chat_id)).with(
            "input_message_content",
            content,
        ),
    )
}

/// The sort of group that a chat is, with the identifier of the group; 0
/// where the chat names none.
#[derive(Debug, Clone, Copy, PartialEq, Eq, Structural)]
pub enum GroupKind {
    Supergroup(i64),
    BasicGroup(i64),
    Neither,
}

/// The name of the type of a chat; empty where it has none.
pub open spec fn chat_type_name(chat: JsonView) -> Seq<char> {
    text_or(nested_text(chat, "type"@, "@type"@), Seq::empty())
}

/// The sort of group that a chat is.
pub open spec fn group_kind_of(chat: JsonView) -> GroupKind {
    let name = chat_type_name(chat);
    if name == "chatTypeSupergroup"@ {
        GroupKind::Supergroup(int_or(int_of(member(chat.get("type"@), "supergroup_id"@)), 0))
    } else if name == "chatTypeBasicGroup"@ {
        GroupKind::BasicGroup(int_or(int_of(member(chat.get("type"@), "basic_group_id"@)), 0))
    } else {
        GroupKind::Neither
    }
}

/// The sort of conversation that a chat is, for its details: private, a
/// group, a broadcast where a supergroup is marked as a channel, or the
/// name of its type.
pub open spec fn info_type_of(chat: JsonView) -> ChannelTypeView {
    let name = chat_type_name(chat);
    if name == "chatTypePrivate"@ {
        ChannelTypeView::Private
    } else if name == "chatTypeSupergroup"@ {
        if bool_of(member(chat.get("type"@), "is_channel"@)) == Some(true) {
            ChannelTypeView::Broadcast
        } else {
            ChannelTypeView::Group
        }
    } else if name == "chatTypeBasicGroup"@ {
        ChannelTypeView::Group
    } else {
        ChannelTypeView::Other(name)
    }
}

/// The command that asks for the full description of a supergroup.
pub open spec fn supergroup_full_command(id: i64) -> JsonView {
    command_of("getSupergroupFullInfo"@).with("supergroup_id"@, JsonView::Int(id))
}

/// The command that asks for a supergroup.
pub open spec fn supergroup_command(id: i64) -> JsonView {
    command_of("getSupergroup"@).with("supergroup_id"@, JsonView::Int(id))
}

/// The command that asks for the full description of a basic group.
pub open spec fn basic_group_full_command(id: i64) -> JsonView {
    command_of("getBasicGroupFullInfo"@).with("basic_group_id"@, JsonView::Int(id))
}

/// The command that asks for the full description of a supergroup.
pub fn supergroup_full_request(id: i64) -> (c: Json)
    ensures
        c@ == supergroup_full_command(id),
{
    command("getSupergroupFullInfo").with("supergroup_id", Json::Int(id))
}

/// The command that asks for a supergroup.
pub fn supergroup_request(id: i64) -> (c: Json)
    ensures
        c@ == supergroup_command(id),
{
    command("getSupergroup").with("supergroup_id", Json::Int(id))
}

/// The command that asks for the full description of a basic group.
pub fn basic_group_full_request(id: i64) -> (c: Json)
    ensures
        c@ == basic_group_full_command(id),
{
    command("getBasicGroupFullInfo").with("basic_group_id", Json::Int(id))
}

fn chat_type_text<'a>(chat: &'a Json) -> (name: &'a str)
    ensures
        name@ == chat_type_name(chat@),
{
    proof {
        reveal_strlit("");
    }
    match text(field(chat.get("type"), "@type")) {
        Some(n) => n,
        None => "",
    }
}

/// The sort of group that a chat is: which further descriptions its
/// details and its members are asked from.
pub fn group_kind(chat: &Json) -> (kind: GroupKind)
    ensures
        kind == group_kind_of(chat@),
{
    let name = chat_type_text(chat);
    if str_eq(name, "chatTypeSupergroup") {
        GroupKind::Supergroup(integer_or(integer(field(chat.get("type"), "supergroup_id")), 0))
    } else if str_eq(name, "chatTypeBasicGroup") {
        GroupKind::BasicGroup(integer_or(integer(field(chat.get("type"), "basic_group_id")), 0))
    } else {
        GroupKind::Neither
    }
}

/// How many members a full description of a basic group lists, cut to 32
/// bits; 0 where it lists none.
pub open spec fn listed_member_count(full: Option<JsonView>) -> i32 {
    match items_of(member(full, "members"@)) {
        Some(a) => a.len() as i32,
        None => 0,
    }
}

/// The details of a chat, from the chat itself and from the further
/// descriptions that were asked for its sort of group. A description that
/// could not be had is absent, and what it would have given is empty.
pub open spec fn chat_info_of(
    chat_id: i64,
    chat: JsonView,
    full: Option<JsonView>,
    group: Option<JsonView>,
) -> ChatInfoView {
    let description = non_empty(text_of(member(full, "description"@)));
    let base = ChatInfoView {
        id: decimal(chat_id as int),
        platform: Platform::Telegram,
        name: text_or(text_of(chat.get("title"@)), "Unknown"@),
        channel_type: info_type_of(chat),
        description: None,
        member_count: 0,
        unread_count: int_or(int_of(chat.get("unread_count"@)), 0) as i32,
        invite_link: None,
        is_verified: false,
        is_scam: false,
    };
    match group_kind_of(chat) {
        GroupKind::Supergroup(_) => ChatInfoView {
            description,
            member_count: int_or(int_of(member(full, "member_count"@)), 0) as i32,
            invite_link: text_of(member(member(full, "invite_link"@), "invite_link"@)),
            is_verified: bool_of(member(group, "is_verified"@)) == Some(true),
            is_scam: bool_of(member(group, "is_scam"@)) == Some(true),
            ..base
        },
        GroupKind::BasicGroup(_) => ChatInfoView {
            description,
            member_count: listed_member_count(full),
            ..base
        },
        GroupKind::Neither => base,
    }
}

fn owned(o: Option<&str>) -> (r: Option<String>)
    ensures
        opt_text(r) == opt_str(o),
{
    match o {
        Some(s) => Some(String::from_str(s)),
        None => None,
    }
}

fn owned_non_empty(o: Option<&str>) -> (r: Option<String>)
    ensures
        opt_text(r) == non_empty(opt_str(o)),
{
    match o {
        Some(s) => if is_blank(s) {
            None
        } else {
            Some(String::from_str(s))
        },
        None => None,
    }
}

/// The details of a chat.
pub fn chat_info(chat_id: i64, chat: &Json, full: Option<&Json>, group: Option<&Json>) -> (info:
    ChatInfo)
    ensures
        info@ == chat_info_of(chat_id, chat@, crate::json::opt_json(full), crate::json::opt_json(
            group,
        )),
{
    let title: &str = match text(chat.get("title")) {
        Some(t) => t,
        None => "Unknown",
    };
    let unread: i64 = integer_or(integer(chat.get("unread_count")), 0);
    let name = chat_type_text(chat);
    let channel_type = if str_eq(name, "chatTypePrivate") {
        ChannelType::Private
    } else if str_eq(name, "chatTypeSupergroup") {
        match boolean(field(chat.get("type"), "is_channel")) {
            Some(true) => ChannelType::Broadcast,
            _ => ChannelType::Group,
        }
    } else if str_eq(name, "chatTypeBasicGroup") {
        ChannelType::Group
    } else {
        ChannelType::Other(String::from_str(name))
    };
    let mut info = ChatInfo {
        id: i64_to_string(chat_id),
        platform: Platform::Telegram,
        name: String::from_str(title),
        channel_type,
        description: None,
        member_count: 0,
        unread_count: #[verifier::truncate]
        (unread as i32),
        invite_link: None,
        is_verified: false,
        is_scam: false,
    };
    match group_kind(chat) {
        GroupKind::Supergroup(_) => {
            info.description = owned_non_empty(text(field(full, "description")));
            let members: i64 = integer_or(integer(field(full, "member_count")), 0);
            info.member_count = #[verifier::truncate]
            (members as i32);
            info.invite_link = owned(text(field(field(full, "invite_link"), "invite_link")));
            info.is_verified = match boolean(field(group, "is_verified")) {
                Some(true) => true,
                _ => false,
            };
            info.is_scam = match boolean(field(group, "is_scam")) {
                Some(true) => true,
                _ => false,
            };
        },
        GroupKind::BasicGroup(_) => {
            info.description = owned_non_empty(text(field(full, "description")));
            info.member_count = match items(field(full, "members")) {
                Some(a) => #[verifier::truncate]
                (a.len() as i32),
                None => 0,
            };
        },
        GroupKind::Neither => {},
    }
    info
}

/// Where the members of a chat are asked from.
#[derive(Debug, Clone, Copy, PartialEq, Eq, Structural)]
pub enum MembersSource {
    /// From the recent members of a supergroup; the backend cuts the list.
    Supergroup,
    /// From the full description of a basic group; the list is cut here.
    BasicGroup,
}

/// The command that lists the recent members of a supergroup.
pub open spec fn supergroup_members_command(id: i64, limit: nat) -> JsonView {
    command_of("getSupergroupMembers"@).with("supergroup_id"@, JsonView::Int(id)).with(
        "filter"@,
        command_of("supergroupMembersFilterRecent"@),
    ).with("offset"@, JsonView::Int(0)).with("limit"@, count_json(limit))
}

/// The command that lists the members of a chat, and where its answer
/// comes from: the chat must be a supergroup or a basic group and name the
/// identifier of its group.
pub open spec fn members_plan_of(chat: JsonView, limit: nat) -> Result<
    (JsonView, MembersSource),
    (ErrorKind, Seq<char>),
> {
    let name = chat_type_name(chat);
    if name == "chatTypeSupergroup"@ {
        match int_of(member(chat.get("type"@), "supergroup_id"@)) {
            Some(id) => Ok((supergroup_members_command(id, limit), MembersSource::Supergroup)),
            None => Err((ErrorKind::Internal, "missing supergroup_id"@)),
        }
    } else if name == "chatTypeBasicGroup"@ {
        match int_of(member(chat.get("type"@), "basic_group_id"@)) {
            Some(id) => Ok((basic_group_full_command(id), MembersSource::BasicGroup)),
            None => Err((ErrorKind::Internal, "missing basic_group_id"@)),
        }
    } else {
        Err((ErrorKind::InvalidInput, "get_chat_members only works on groups and supergroups"@))
    }
}

/// The command that lists the members of a chat, and where its answer
/// comes from.
pub fn members_plan(chat: &Json, limit: usize) -> (r: Result<(Json, MembersSource), AgentError>)
    ensures
        match r {
            Ok(plan) => members_plan_of(chat@, limit as nat) == Ok::<
                (JsonView, MembersSource),
                (ErrorKind, Seq<char>),
            >((plan.0@, plan.1)),
            Err(e) => members_plan_of(chat@, limit as nat) == Err::<
                (JsonView, MembersSource),
                (ErrorKind, Seq<char>),
            >(e@),
        },
{
    let name = chat_type_text(chat);
    if str_eq(name, "chatTypeSupergroup") {
        match integer(field(chat.get("type"), "supergroup_id")) {
            Some(id) => Ok(
                (
                    command("getSupergroupMembers").with("supergroup_id", Json::Int(id)).with(
                        "filter",
                        command("supergroupMembersFilterRecent"),
                    ).with("offset", Json::Int(0)).with("limit", Json::count(limit)),
                    MembersSource::Supergroup,
                ),
            ),
            None => Err(AgentError::internal("missing supergroup_id")),
        }
    } else if str_eq(name, "chatTypeBasicGroup") {
        match integer(field(chat.get("type"), "basic_group_id")) {
            Some(id) => Ok((basic_group_full_request(id), MembersSource::BasicGroup)),
            None => Err(AgentError::internal("missing basic_group_id")),
        }
    } else {
        Err(AgentError::invalid_input("get_chat_members only works on groups and supergroups"))
    }
}

/// The members that the payloads describe, in their order.
pub open spec fn members_in(payloads: Seq<JsonView>) -> Seq<ChatMemberView> {
    payloads.filter_map(|payload: JsonView| member_of(payload))
}

proof fn lemma_members_in_push(payloads: Seq<JsonView>, payload: JsonView)
    ensures
        members_in(payloads.push(payload)) == match member_of(payload) {
            Some(m) => members_in(payloads).push(m),
            None => members_in(payloads),
        },
{
    assert(payloads.push(payload).drop_last() =~= payloads);
    match member_of(payload) {
        Some(m) => {
        },
        None => {},
    }
}

/// The first `limit` items of a sequence, or all where there are fewer.
pub open spec fn at_most<T>(items: Seq<T>, limit: nat) -> Seq<T> {
    if items.len() > limit {
        items.take(limit as int)
    } else {
        items
    }
}

/// The members that an answer lists, under their provisional names. Those
/// of a basic group are cut to the limit.
pub open spec fn members_of(answer: JsonView, source: MembersSource, limit: nat) -> Result<
    Seq<ChatMemberView>,
    (ErrorKind, Seq<char>),
> {
    match items_of(answer.get("members"@)) {
        Some(raw) => match source {
            MembersSource::Supergroup => Ok(members_in(raw)),
            MembersSource::BasicGroup => Ok(at_most(members_in(raw), limit)),
        },
        None => match source {
            MembersSource::Supergroup => Err(unexpected("getSupergroupMembers"@)),
            MembersSource::BasicGroup => Err(unexpected("getBasicGroupFullInfo"@)),
        },
    }
}

/// The members that an answer lists.
pub fn listed_members(answer: &Json, source: MembersSource, limit: usize) -> (r: Result<
    Vec<ChatMember>,
    AgentError,
>)
    ensures
        match r {
            Ok(found) => members_of(answer@, source, limit as nat) == Ok::<
                Seq<ChatMemberView>,
                (ErrorKind, Seq<char>),
            >(crate::entities::member_views(found@)),
            Err(e) => members_of(answer@, source, limit as nat) == Err::<
                Seq<ChatMemberView>,
                (ErrorKind, Seq<char>),
            >(e@),
        },
{
    let raw: &Vec<Json> = match items(answer.get("members")) {
        Some(a) => a,
        None => {
            return match source {
                MembersSource::Supergroup => Err(unexpected_error("getSupergroupMembers")),
                MembersSource::BasicGroup => Err(unexpected_error("getBasicGroupFullInfo")),
            };
        },
    };
    let ghost all = json_views(raw@);
    let mut out: Vec<ChatMember> = Vec::new();
    let mut i: usize = 0;
    while i < raw.len()
        invariant
            i <= raw.len(),
            all == json_views(raw@),
            crate::entities::member_views(out@) == members_in(all.take(i as int)),
        decreases raw.len() - i,
    {
        proof {
            assert(all.take(i + 1) =~= all.take(i as int).push(raw@[i as int]@));
            lemma_members_in_push(all.take(i as int), raw@[i as int]@);
        }
        match parse_chat_member(&raw[i]) {
            Some(m) => {
                let ghost before = out@;
                let ghost view = m@;
                out.push(m);
                assert(crate::entities::member_views(out@) =~= crate::entities::member_views(
                    before,
                ).push(view));
            },
            None => {},
        }
        i += 1;
    }
    assert(all.take(raw.len() as int) =~= all);
    match source {
        MembersSource::Supergroup => {},
        MembersSource::BasicGroup => {
            if out.len() > limit {
                let ghost before = out@;
                out.truncate(limit);
                assert(crate::entities::member_views(out@) =~= crate::entities::member_views(
                    before,
                ).take(limit as int));
            }
        },
    }
    Ok(out)
}

/// The user that a sender text names: the number behind `user:`.
pub open spec fn sender_user(sender: Seq<char>) -> Option<i64> {
    match after_prefix(sender, "user:"@) {
        Some(rest) => parse_i64_spec(rest),
        None => None,
    }
}

/// The users that the senders of the messages name, each once, in the
/// order in which they first occur.
pub open spec fn sender_users(messages: Seq<MessageView>) -> Seq<i64>
    decreases messages.len(),
{
    if messages.len() == 0 {
        Seq::empty()
    } else {
        let before = sender_users(messages.drop_last());
        match sender_user(messages.last().sender) {
            Some(id) => if before.contains(id) {
                before
            } else {
                before.push(id)
            },
            None => before,
        }
    }
}

/// The user that a sender text names.
pub fn sender_user_id(sender: &str) -> (r: Option<i64>)
    ensures
        r == sender_user(sender@),
{
    match strip_prefix(sender, "user:") {
        Some(rest) => parse_i64(rest.as_str()),
        None => None,
    }
}

fn contains_id(ids: &Vec<i64>, id: i64) -> (r: bool)
    ensures
        r == ids@.contains(id),
{
    let mut i: usize = 0;
    while i < ids.len()
        invariant
            i <= ids.len(),
            forall|k: int| 0 <= k < i ==> ids@[k] != id,
        decreases ids.len() - i,
    {
        if ids[i] == id {
            return true;
        }
        i += 1;
    }
    false
}

/// The users whose names a batch of messages needs: one lookup is made for
/// each.
pub fn collect_sender_ids(messages: &Vec<Message>) -> (ids: Vec<i64>)
    ensures
        ids@ == sender_users(message_views(messages@)),
        ids@.no_duplicates(),
{
    let ghost all = message_views(messages@);
    let mut ids: Vec<i64> = Vec::new();
    let mut i: usize = 0;
    while i < messages.len()
        invariant
            i <= messages.len(),
            all == message_views(messages@),
            ids@ == sender_users(all.take(i as int)),
            ids@.no_duplicates(),
        decreases messages.len() - i,
    {
        proof {
            assert(all.take(i + 1).drop_last() =~= all.take(i as int));
        }
        match sender_user_id(messages[i].sender.as_str()) {
            Some(id) => {
                if !contains_id(&ids, id) {
                    ids.push(id);
                }
            },
            None => {},
        }
        i += 1;
    }
    assert(all.take(messages.len() as int) =~= all);
    ids
}

/// The name recorded for a user, if one is.
pub open spec fn name_for(names: Seq<(i64, Seq<char>)>, id: i64) -> Option<Seq<char>>
    decreases names.len(),
{
    if names.len() == 0 {
        None
    } else if names[0].0 == id {
        Some(names[0].1)
    } else {
        name_for(names.skip(1), id)
    }
}

/// The views of recorded names.
pub open spec fn name_views(names: Seq<(i64, String)>) -> Seq<(i64, Seq<char>)> {
    Seq::new(names.len(), |i: int| (names[i].0, names[i].1@))
}

/// A sender text with the name recorded for the user it names, where one
/// is recorded.
pub open spec fn named_sender(sender: Seq<char>, names: Seq<(i64, Seq<char>)>) -> Seq<char> {
    match sender_user(sender) {
        Some(id) => match name_for(names, id) {
            Some(name) => name,
            None => sender,
        },
        None => sender,
    }
}

/// A message with its sender named.
pub open spec fn with_named_sender(m: MessageView, names: Seq<(i64, Seq<char>)>) -> MessageView {
    MessageView { sender: named_sender(m.sender, names), ..m }
}

fn lookup_name<'a>(names: &'a Vec<(i64, String)>, id: i64) -> (r: Option<&'a String>)
    ensures
        match r {
            Some(n) => name_for(name_views(names@), id) == Some(n@),
            None => name_for(name_views(names@), id) is None,
        },
{
    let ghost all = name_views(names@);
    let mut i: usize = 0;
    assert(all.skip(0) =~= all);
    while i < names.len()
        invariant
            i <= names.len(),
            all == name_views(names@),
            name_for(all, id) == name_for(all.skip(i as int), id),
        decreases names.len() - i,
    {
        proof {
            assert(all.skip(i as int).skip(1) =~= all.skip(i + 1));
        }
        if names[i].0 == id {
            return Some(&names[i].1);
        }
        i += 1;
    }
    None
}

/// Puts the recorded names in place of the senders that name users. A
/// sender whose user has no recorded name stays as it is, and nothing but
/// the senders changes.
pub fn substitute_senders(messages: &mut Vec<Message>, names: &Vec<(i64, String)>)
    ensures
        final(messages)@.len() == old(messages)@.len(),
        forall|i: int|
            0 <= i < old(messages)@.len() ==> (#[trigger] final(messages)@[i])@
                == with_named_sender(old(messages)@[i]@, name_views(names@)),
{
    let mut i: usize = 0;
    while i < messages.len()
        invariant
            i <= messages.len(),
            messages@.len() == old(messages)@.len(),
            forall|k: int|
                0 <= k < i ==> (#[trigger] messages@[k])@ == with_named_sender(
                    old(messages)@[k]@,
                    name_views(names@),
                ),
            forall|k: int| i <= k < messages@.len() ==> messages@[k] == old(messages)@[k],
        decreases messages.len() - i,
    {
        let id = sender_user_id(messages[i].sender.as_str());
        match id {
            Some(id) => match lookup_name(names, id) {
                Some(name) => {
                    messages[i].sender = name.clone();
                },
                None => {},
            },
            None => {},
        }
        i += 1;
    }
}

/// The user whose description names a member: the number in the member's
/// provisional name, or else its identifier.
pub open spec fn member_user(m: ChatMemberView) -> Option<i64> {
    match after_prefix(m.name, "user:"@) {
        Some(rest) => parse_i64_spec(rest),
        None => parse_i64_spec(m.user_id),
    }
}

/// The user whose description names a member.
pub fn member_user_id(m: &ChatMember) -> (r: Option<i64>)
    ensures
        r == member_user(m@),
{
    match strip_prefix(m.name.as_str(), "user:") {
        Some(rest) => parse_i64(rest.as_str()),
        None => parse_i64(m.user_id.as_str()),
    }
}

/// A member under the name and username of its user.
pub open spec fn named_member(m: ChatMemberView, user: JsonView) -> ChatMemberView {
    ChatMemberView {
        name: crate::tdlib::parse::full_name(user),
        username: crate::tdlib::parse::first_username(user),
        ..m
    }
}

/// Gives a member the name and username of its user.
pub fn name_member(m: &mut ChatMember, user: &Json)
    ensures
        final(m)@ == named_member(old(m)@, user@),
{
    m.name = crate::tdlib::parse::user_full_name(user);
    m.username = crate::tdlib::parse::user_username(user);
}

} // verus!
