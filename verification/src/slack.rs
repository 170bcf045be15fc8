//! The team-chat backend: the calls of its web interface and what its
//! answers mean.

use crate::entities::{
    member_views, message_views, opt_text, Channel, ChannelType, ChannelTypeView, ChannelView,
    ChatMember, ChatMemberView, MemberRole, Message, MessageMeta, MessageMetaView, MessageView,
    PageView, Paginated, Platform, Profile, ProfileView, page_view,
};
use crate::error::{AgentError, ErrorKind};
use crate::http::{json_call, query_view, refused, success, HttpCall, HttpCallView, Method};
use crate::json::{
    bool_of, boolean, cut, cut_i32, field, int_of, integer, items, items_of, json_views, member,
    nat_of, natural, opt_str, owned, owned_or, owned_or_empty, text, text_of, Json,
    JsonView,
};
use crate::tdlib::parse::{int_or, integer_or, is_blank, non_empty, text_or};
use crate::text::{
    after_prefix, base_name, contains_parent_dir, decimal, file_name, glue, glue3, has_parent_dir,
    join, joined, parse_i64, parse_i64_spec, parse_usize, parse_usize_spec, split, split_on,
    str_eq, strip_prefix, usize_to_string, views,
};
use vstd::prelude::*;

verus! {

/// Where the web interface lives.
pub const BASE_URL: &'static str = "https://slack.com/api";

/// What the adapter needs to know.
#[derive(Debug, Clone)]
pub struct SlackConfig {
    pub bot_token: String,
}

/// The address of a method of the interface.
pub open spec fn method_url(method: Seq<char>) -> Seq<char> {
    BASE_URL@ + "/"@ + method
}

/// A call that posts a JSON body to a method.
pub fn api_post(method: &str, body: Json) -> (c: HttpCall)
    ensures
        c@ == (HttpCallView {
            method: Method::Post,
            url: method_url(method@),
            query: Seq::empty(),
            body: Some(body@),
        }),
{
    json_call(Method::Post, glue3(BASE_URL, "/", method), body)
}

/// A call that asks a method with parameters.
pub fn api_get(method: &str, params: Vec<(String, String)>) -> (c: HttpCall)
    ensures
        c@ == (HttpCallView {
            method: Method::Get,
            url: method_url(method@),
            query: query_view(params@),
            body: None,
        }),
{
    HttpCall { method: Method::Get, url: glue3(BASE_URL, "/", method), query: params, body: None }
}

fn pair(key: &str, value: &str) -> (p: (String, String))
    ensures
        p.0@ == key@,
        p.1@ == value@,
{
    (String::from_str(key), String::from_str(value))
}

/// The failure of a call that did not get through.
pub fn request_failed(detail: &str) -> (e: AgentError)
    ensures
        e@ == (ErrorKind::Network, "slack request failed: "@ + detail@),
{
    AgentError::Network(glue("slack request failed: ", detail))
}

/// The failure that an answer without success amounts to: an authorization
/// failure for 401 and 403, a failure of the interface otherwise, each
/// with the status as the transport writes it and with the body.
pub open spec fn http_failure(status: u16, status_text: Seq<char>, body: Seq<char>) -> (
    ErrorKind,
    Seq<char>,
) {
    if refused(status) {
        (ErrorKind::Auth, "slack auth failed ("@ + status_text + "): "@ + body)
    } else {
        (ErrorKind::Api, "slack http error ("@ + status_text + "): "@ + body)
    }
}

/// The names of the failures that mean that the token is not accepted.
pub open spec fn is_auth_error(name: Seq<char>) -> bool {
    name == "invalid_auth"@ || name == "not_authed"@ || name == "token_revoked"@
}

/// What the body of an answer reports: nothing where `ok` is true, else
/// the failure by its name, `unknown_error` where it has none.
pub open spec fn reported_failure(body: JsonView) -> Option<(ErrorKind, Seq<char>)> {
    if bool_of(body.get("ok"@)) == Some(true) {
        None
    } else {
        let name = text_or(text_of(body.get("error"@)), "unknown_error"@);
        if is_auth_error(name) {
            Some((ErrorKind::Auth, "slack auth error: "@ + name))
        } else {
            Some((ErrorKind::Api, "slack api error: "@ + name))
        }
    }
}

/// Fails where the body of an answer reports a failure.
pub fn check_slack_ok(body: &Json) -> (r: Result<(), AgentError>)
    ensures
        match r {
            Ok(_) => reported_failure(body@) is None,
            Err(e) => reported_failure(body@) == Some(e@),
        },
{
    match boolean(body.get("ok")) {
        Some(true) => Ok(()),
        _ => {
            let name: &str = match text(body.get("error")) {
                Some(n) => n,
                None => "unknown_error",
            };
            if str_eq(name, "invalid_auth") || str_eq(name, "not_authed") || str_eq(
                name,
                "token_revoked",
            ) {
                Err(AgentError::Auth(glue("slack auth error: ", name)))
            } else {
                Err(AgentError::Api(glue("slack api error: ", name)))
            }
        },
    }
}

/// What an answer amounts to: the failure of a status without success, the
/// failure of a body that is not JSON, the failure that the body reports,
/// or else the body.
pub fn parse_slack_response(status: u16, status_text: &str, body: &str) -> (r: Result<
    Json,
    AgentError,
>)
    ensures
        match r {
            Ok(j) => success(status) && crate::json::parsed(body@) == Some(j@)
                && reported_failure(j@) is None,
            Err(e) => if !success(status) {
                e@ == http_failure(status, status_text@, body@)
            } else {
                match crate::json::parsed(body@) {
                    Some(j) => reported_failure(j) == Some(e@),
                    None => e@.0 == ErrorKind::Api && "slack response parse failed: "@.is_prefix_of(
                        e@.1,
                    ),
                }
            },
        },
{
    if !crate::http::is_success(status) {
        let mut s = if status == 401 || status == 403 {
            String::from_str("slack auth failed (")
        } else {
            String::from_str("slack http error (")
        };
        s.append(status_text);
        s.append("): ");
        s.append(body);
        return if status == 401 || status == 403 {
            Err(AgentError::Auth(s))
        } else {
            Err(AgentError::Api(s))
        };
    }
    let parsed = match Json::parse(body) {
        Ok(j) => j,
        Err(e) => {
            return Err(AgentError::Api(glue("slack response parse failed: ", e.detail())));
        },
    };
    match check_slack_ok(&parsed) {
        Ok(_) => Ok(parsed),
        Err(e) => Err(e),
    }
}

/// The call that asks who the token belongs to.
pub fn profile_call() -> (c: HttpCall)
    ensures
        c@ == (HttpCallView {
            method: Method::Post,
            url: method_url("auth.test"@),
            query: Seq::empty(),
            body: Some(JsonView::Object(Seq::empty())),
        }),
{
    api_post("auth.test", Json::object())
}

/// The profile that the answer to `auth.test` describes.
pub open spec fn profile_of(answer: JsonView) -> ProfileView {
    ProfileView {
        platform: Platform::Slack,
        id: text_or(text_of(answer.get("user_id"@)), Seq::empty()),
        name: text_or(text_of(answer.get("user"@)), "Unknown"@),
        username: None,
        email: None,
        phone: None,
    }
}

/// The profile that the answer to `auth.test` describes.
pub fn parse_profile(answer: &Json) -> (p: Profile)
    ensures
        p@ == profile_of(answer@),
{
    Profile {
        platform: Platform::Slack,
        id: owned_or_empty(text(answer.get("user_id"))),
        name: owned_or(text(answer.get("user")), "Unknown"),
        username: None,
        email: None,
        phone: None,
    }
}

/// The call that lists the conversations that are not archived.
pub fn list_channels_call(limit: usize) -> (c: HttpCall)
    ensures
        c@ == (HttpCallView {
            method: Method::Get,
            url: method_url("conversations.list"@),
            query: seq![
                ("types"@, "public_channel,private_channel,im,mpim"@),
                ("limit"@, decimal(limit as int)),
                ("exclude_archived"@, "true"@),
            ],
            body: None,
        }),
{
    let mut params: Vec<(String, String)> = Vec::new();
    params.push(pair("types", "public_channel,private_channel,im,mpim"));
    params.push((String::from_str("limit"), usize_to_string(limit)));
    params.push(pair("exclude_archived", "true"));
    assert(query_view(params@) =~= seq![
        ("types"@, "public_channel,private_channel,im,mpim"@),
        ("limit"@, decimal(limit as int)),
        ("exclude_archived"@, "true"@),
    ]);
    api_get("conversations.list", params)
}

/// The channel that a payload describes: private for a direct message, a
/// group for a private channel or a group message, a broadcast otherwise.
pub open spec fn channel_of(channel: JsonView) -> ChannelView {
    ChannelView {
        id: text_or(text_of(channel.get("id"@)), Seq::empty()),
        platform: Platform::Slack,
        name: match text_of(channel.get("name"@)) {
            Some(n) => n,
            None => text_or(text_of(channel.get("user"@)), "unknown"@),
        },
        channel_type: if bool_of(channel.get("is_im"@)) == Some(true) {
            ChannelTypeView::Private
        } else if bool_of(channel.get("is_mpim"@)) == Some(true) || bool_of(
            channel.get("is_private"@),
        ) == Some(true) {
            ChannelTypeView::Group
        } else {
            ChannelTypeView::Broadcast
        },
        unread_count: int_or(int_of(channel.get("unread_count"@)), 0) as i32,
        description: non_empty(text_of(member(channel.get("topic"@), "value"@))),
        member_count: cut_i32(int_of(channel.get("num_members"@))),
        last_message_date: None,
    }
}

fn is_true(o: Option<bool>) -> (r: bool)
    ensures
        r == (o == Some(true)),
{
    match o {
        Some(true) => true,
        _ => false,
    }
}

/// The channel that a payload describes.
pub fn parse_slack_channel(channel: &Json) -> (c: Channel)
    ensures
        c@ == channel_of(channel@),
{
    let channel_type = if is_true(boolean(channel.get("is_im"))) {
        ChannelType::Private
    } else if is_true(boolean(channel.get("is_mpim"))) || is_true(
        boolean(channel.get("is_private")),
    ) {
        ChannelType::Group
    } else {
        ChannelType::Broadcast
    };
    let name: String = match text(channel.get("name")) {
        Some(n) => String::from_str(n),
        None => owned_or(text(channel.get("user")), "unknown"),
    };
    let unread: i64 = integer_or(integer(channel.get("unread_count")), 0);
    let description: Option<String> = match text(field(channel.get("topic"), "value")) {
        Some(t) => if is_blank(t) {
            None
        } else {
            Some(String::from_str(t))
        },
        None => None,
    };
    Channel {
        id: owned_or_empty(text(channel.get("id"))),
        platform: Platform::Slack,
        name,
        channel_type,
        unread_count: #[verifier::truncate]
        (unread as i32),
        description,
        member_count: cut(integer(channel.get("num_members"))),
        last_message_date: None,
    }
}

/// The views of a sequence of channels.
pub open spec fn channel_views(v: Seq<Channel>) -> Seq<ChannelView> {
    Seq::new(v.len(), |i: int| v[i]@)
}

/// The channels that an answer lists; none where it has no array of them.
pub open spec fn channels_of(answer: JsonView) -> Seq<ChannelView> {
    match items_of(answer.get("channels"@)) {
        Some(raw) => Seq::new(raw.len(), |i: int| channel_of(raw[i])),
        None => Seq::empty(),
    }
}

/// The channels that an answer lists.
pub fn parse_channels(answer: &Json) -> (r: Vec<Channel>)
    ensures
        channel_views(r@) == channels_of(answer@),
{
    let mut out: Vec<Channel> = Vec::new();
    match items(answer.get("channels")) {
        Some(raw) => {
            let mut i: usize = 0;
            while i < raw.len()
                invariant
                    i <= raw.len(),
                    out.len() == i,
                    forall|k: int| 0 <= k < i ==> (#[trigger] out@[k])@ == channel_of(raw@[k]@),
                decreases raw.len() - i,
            {
                out.push(parse_slack_channel(&raw[i]));
                i += 1;
            }
        },
        None => {
        },
    }
    out
}

/// The seconds of a stamp: the number in front of its first dot; 0 where
/// that is no number.
pub open spec fn stamp_seconds(stamp: Seq<char>) -> i64 {
    match parse_i64_spec(split_on(stamp, '.')[0]) {
        Some(n) => n,
        None => 0,
    }
}

/// The message that a payload describes, as one of the given channel. Its
/// stamp is its identifier; the thread that it answers is named where it
/// is not the message itself.
pub open spec fn message_of(message: JsonView, channel: Seq<char>) -> MessageView {
    let stamp = text_or(text_of(message.get("ts"@)), "0"@);
    MessageView {
        id: stamp,
        platform: Platform::Slack,
        channel_id: channel,
        sender: match text_of(message.get("user"@)) {
            Some(u) => u,
            None => text_or(text_of(message.get("username"@)), "unknown"@),
        },
        text: text_or(text_of(message.get("text"@)), Seq::empty()),
        timestamp: stamp_seconds(stamp),
        has_attachment: match items_of(message.get("files"@)) {
            Some(a) => a.len() > 0,
            None => false,
        },
        reply_to: match text_of(message.get("thread_ts"@)) {
            Some(t) => if t == stamp {
                None
            } else {
                Some(t)
            },
            None => None,
        },
        meta: MessageMetaView::empty(),
    }
}

/// The message that a payload describes.
pub fn parse_slack_message(message: &Json, channel: &str) -> (m: Message)
    ensures
        m@ == message_of(message@, channel@),
{
    let stamp: &str = match text(message.get("ts")) {
        Some(t) => t,
        None => "0",
    };
    let pieces = split(stamp, '.');
    let timestamp: i64 = match parse_i64(pieces[0].as_str()) {
        Some(n) => n,
        None => 0,
    };
    let sender: String = match text(message.get("user")) {
        Some(u) => String::from_str(u),
        None => owned_or(text(message.get("username")), "unknown"),
    };
    let has_attachment: bool = match items(message.get("files")) {
        Some(a) => a.len() > 0,
        None => false,
    };
    let reply_to: Option<String> = match text(message.get("thread_ts")) {
        Some(t) => if str_eq(t, stamp) {
            None
        } else {
            Some(String::from_str(t))
        },
        None => None,
    };
    Message {
        id: String::from_str(stamp),
        platform: Platform::Slack,
        channel_id: String::from_str(channel),
        sender,
        text: owned_or_empty(text(message.get("text"))),
        timestamp,
        has_attachment,
        reply_to,
        meta: MessageMeta::default(),
    }
}

/// What follows `sl:` in a cursor.
pub open spec fn cursor_body(cursor: Option<Seq<char>>) -> Option<Seq<char>> {
    match cursor {
        Some(c) => after_prefix(c, "sl:"@),
        None => None,
    }
}

fn cursor_rest(cursor: Option<&str>) -> (r: Option<String>)
    ensures
        opt_text(r) == cursor_body(opt_str(cursor)),
{
    match cursor {
        Some(c) => strip_prefix(c, "sl:"),
        None => None,
    }
}

/// The call that reads the history of a channel, from the cursor on where
/// there is one.
pub fn read_messages_call(channel: &str, limit: usize, cursor: Option<&str>) -> (c: HttpCall)
    ensures
        c@ == (HttpCallView {
            method: Method::Get,
            url: method_url("conversations.history"@),
            query: seq![("channel"@, channel@), ("limit"@, decimal(limit as int))] + (
            match cursor_body(opt_str(cursor)) {
                Some(rest) => seq![("cursor"@, rest)],
                None => Seq::empty(),
            }),
            body: None,
        }),
{
    let mut params: Vec<(String, String)> = Vec::new();
    params.push(pair("channel", channel));
    params.push((String::from_str("limit"), usize_to_string(limit)));
    let ghost head = seq![("channel"@, channel@), ("limit"@, decimal(limit as int))];
    match cursor_rest(cursor) {
        Some(rest) => {
            let ghost r = rest@;
            params.push((String::from_str("cursor"), rest));
            assert(query_view(params@) =~= head + seq![("cursor"@, r)]);
        },
        None => {
            assert(query_view(params@) =~= head + Seq::empty());
        },
    }
    api_get("conversations.history", params)
}

/// The messages of an array that may be absent, as messages of the
/// channel.
pub open spec fn messages_of(raw: Option<Seq<JsonView>>, channel: Seq<char>) -> Seq<MessageView> {
    match raw {
        Some(a) => Seq::new(a.len(), |i: int| message_of(a[i], channel)),
        None => Seq::empty(),
    }
}

/// The page that an answer to a reading of history holds.
pub open spec fn history_page_of(answer: JsonView, channel: Seq<char>) -> PageView {
    PageView {
        items: messages_of(items_of(answer.get("messages"@)), channel),
        has_more: bool_of(answer.get("has_more"@)) == Some(true),
        next_cursor: match non_empty(
            text_of(member(answer.get("response_metadata"@), "next_cursor"@)),
        ) {
            Some(c) => Some("sl:"@ + c),
            None => None,
        },
    }
}

/// The page that an answer to a reading of history holds.
pub fn history_page(answer: &Json, channel: &str) -> (page: Paginated<Message>)
    ensures
        page_view(page) == history_page_of(answer@, channel@),
{
    let mut out: Vec<Message> = Vec::new();
    match items(answer.get("messages")) {
        Some(raw) => {
            let mut i: usize = 0;
            while i < raw.len()
                invariant
                    i <= raw.len(),
                    out.len() == i,
                    forall|k: int|
                        0 <= k < i ==> (#[trigger] out@[k])@ == message_of(raw@[k]@, channel@),
                decreases raw.len() - i,
            {
                out.push(parse_slack_message(&raw[i], channel));
                i += 1;
            }
            assert(message_views(out@) =~= messages_of(
                items_of(answer@.get("messages"@)),
                channel@,
            ));
        },
        None => {
            assert(message_views(out@) =~= Seq::<MessageView>::empty());
        },
    }
    let next_cursor: Option<String> = match text(
        field(answer.get("response_metadata"), "next_cursor"),
    ) {
        Some(c) => if is_blank(c) {
            None
        } else {
            Some(glue("sl:", c))
        },
        None => None,
    };
    Paginated { items: out, has_more: is_true(boolean(answer.get("has_more"))), next_cursor }
}

/// The body of a message to post, into a thread where one is named.
pub open spec fn send_body(channel: Seq<char>, text: Seq<char>, reply_to: Option<Seq<char>>) -> JsonView {
    let plain = JsonView::Object(Seq::empty()).with("channel"@, JsonView::Str(channel)).with(
        "text"@,
        JsonView::Str(text),
    );
    match reply_to {
        Some(thread) => plain.with("thread_ts"@, JsonView::Str(thread)),
        None => plain,
    }
}

/// The call that posts a message.
pub fn send_message_call(channel: &str, text: &str, reply_to: Option<&str>) -> (c: HttpCall)
    ensures
        c@ == (HttpCallView {
            method: Method::Post,
            url: method_url("chat.postMessage"@),
            query: Seq::empty(),
            body: Some(send_body(channel@, text@, opt_str(reply_to))),
        }),
{
    let plain = Json::object().with("channel", Json::string(channel)).with(
        "text",
        Json::string(text),
    );
    let body = match reply_to {
        Some(thread) => plain.with("thread_ts", Json::string(thread)),
        None => plain,
    };
    api_post("chat.postMessage", body)
}

/// The message that the answer to a posting describes.
pub fn sent_message(answer: &Json, channel: &str) -> (m: Message)
    ensures
        m@ == message_of(
            match answer@.get("message"@) {
                Some(p) => p,
                None => JsonView::Null,
            },
            channel@,
        ),
{
    match answer.get("message") {
        Some(p) => parse_slack_message(p, channel),
        None => parse_slack_message(&Json::Null, channel),
    }
}

/// The page of a search that a cursor names: the number in it, or the
/// first page.
pub open spec fn search_page_number(cursor: Option<Seq<char>>) -> usize {
    match cursor_body(cursor) {
        Some(body) => match parse_usize_spec(body) {
            Some(n) => n,
            None => 1,
        },
        None => 1,
    }
}

/// The page of a search that a cursor names.
pub fn search_page_of_cursor(cursor: Option<&str>) -> (n: usize)
    ensures
        n == search_page_number(opt_str(cursor)),
{
    match cursor_rest(cursor) {
        Some(body) => match parse_usize(body.as_str()) {
            Some(n) => n,
            None => 1,
        },
        None => 1,
    }
}

/// The call that searches all messages for a text.
pub fn search_call(query: &str, limit: usize, cursor: Option<&str>) -> (c: HttpCall)
    ensures
        c@ == (HttpCallView {
            method: Method::Get,
            url: method_url("search.messages"@),
            query: seq![
                ("query"@, query@),
                ("count"@, decimal(limit as int)),
                ("page"@, decimal(search_page_number(opt_str(cursor)) as int)),
            ],
            body: None,
        }),
{
    let page = search_page_of_cursor(cursor);
    let mut params: Vec<(String, String)> = Vec::new();
    params.push(pair("query", query));
    params.push((String::from_str("count"), usize_to_string(limit)));
    params.push((String::from_str("page"), usize_to_string(page)));
    assert(query_view(params@) =~= seq![
        ("query"@, query@),
        ("count"@, decimal(limit as int)),
        ("page"@, decimal(page as int)),
    ]);
    api_get("search.messages", params)
}

/// A match of a search as a message of the channel that it names.
pub open spec fn match_of(found: JsonView) -> MessageView {
    message_of(found, text_or(text_of(member(found.get("channel"@), "id"@)), Seq::empty()))
}

/// How many results lie on the pages up to the given one: the full pages
/// before it and the matches on it, held at the greatest count where the
/// number would pass it. The page before the first counts as the first.
pub open spec fn seen_results(page: usize, limit: usize, matches: nat) -> usize {
    let before = if page == 0 {
        0int
    } else {
        page - 1
    };
    if before * limit + matches > usize::MAX {
        usize::MAX
    } else {
        (before * limit + matches) as usize
    }
}

/// The page after a page; the greatest count is its own successor.
pub open spec fn next_page(page: usize) -> usize {
    if page == usize::MAX {
        page
    } else {
        (page + 1) as usize
    }
}

/// The page that an answer to a search holds: its matches, and, where the
/// results seen so far are fewer than the total, the mark that there are
/// more and the cursor `sl:` with the number of the next page.
pub open spec fn search_page_of(answer: JsonView, page: usize, limit: usize) -> PageView {
    let found = match items_of(member(answer.get("messages"@), "matches"@)) {
        Some(a) => Seq::new(a.len(), |i: int| match_of(a[i])),
        None => Seq::empty(),
    };
    let total = match nat_of(member(answer.get("messages"@), "total"@)) {
        Some(n) => n as usize,
        None => 0usize,
    };
    let more = seen_results(page, limit, found.len()) < total;
    PageView {
        items: found,
        has_more: more,
        next_cursor: if more {
            Some("sl:"@ + decimal(next_page(page) as int))
        } else {
            None
        },
    }
}

/// The page that an answer to a search holds.
pub fn search_page(answer: &Json, page: usize, limit: usize) -> (r: Paginated<Message>)
    ensures
        page_view(r) == search_page_of(answer@, page, limit),
{
    let results = answer.get("messages");
    let mut out: Vec<Message> = Vec::new();
    match items(field(results, "matches")) {
        Some(raw) => {
            let mut i: usize = 0;
            while i < raw.len()
                invariant
                    i <= raw.len(),
                    out.len() == i,
                    forall|k: int| 0 <= k < i ==> (#[trigger] out@[k])@ == match_of(raw@[k]@),
                decreases raw.len() - i,
            {
                let channel = owned_or_empty(text(field(raw[i].get("channel"), "id")));
                out.push(parse_slack_message(&raw[i], channel.as_str()));
                i += 1;
            }
            assert(message_views(out@) =~= Seq::new(
                raw@.len(),
                |i: int| match_of(json_views(raw@)[i]),
            ));
        },
        None => {
            assert(message_views(out@) =~= Seq::<MessageView>::empty());
        },
    }
    let total: usize = match natural(field(results, "total")) {
        Some(n) => #[verifier::truncate]
        (n as usize),
        None => 0,
    };
    let before: usize = if page == 0 {
        0
    } else {
        page - 1
    };
    let seen: usize = match before.checked_mul(limit) {
        Some(full) => match full.checked_add(out.len()) {
            Some(n) => n,
            None => usize::MAX,
        },
        None => {
            assert(before * limit + out.len() > usize::MAX) by (nonlinear_arith)
                requires
                    before * limit > usize::MAX,
                    out.len() >= 0,
            ;
            usize::MAX
        },
    };
    let more: bool = seen < total;
    let next_cursor: Option<String> = if more {
        let next: usize = match page.checked_add(1) {
            Some(n) => n,
            None => page,
        };
        Some(glue("sl:", usize_to_string(next).as_str()))
    } else {
        None
    };
    Paginated { items: out, has_more: more, next_cursor }
}

/// The call that sets the status of the own user.
pub fn set_status_call(text: &str, emoji: &str) -> (c: HttpCall)
    ensures
        c@ == (HttpCallView {
            method: Method::Post,
            url: method_url("users.profile.set"@),
            query: Seq::empty(),
            body: Some(
                JsonView::Object(Seq::empty()).with(
                    "profile"@,
                    JsonView::Object(Seq::empty()).with("status_text"@, JsonView::Str(text@)).with(
                        "status_emoji"@,
                        JsonView::Str(emoji@),
                    ),
                ),
            ),
        }),
{
    api_post(
        "users.profile.set",
        Json::object().with(
            "profile",
            Json::object().with("status_text", Json::string(text)).with(
                "status_emoji",
                Json::string(emoji),
            ),
        ),
    )
}

/// The call that creates a channel.
pub fn create_channel_call(name: &str, is_private: bool) -> (c: HttpCall)
    ensures
        c@ == (HttpCallView {
            method: Method::Post,
            url: method_url("conversations.create"@),
            query: Seq::empty(),
            body: Some(
                JsonView::Object(Seq::empty()).with("name"@, JsonView::Str(name@)).with(
                    "is_private"@,
                    JsonView::Bool(is_private),
                ),
            ),
        }),
{
    api_post(
        "conversations.create",
        Json::object().with("name", Json::string(name)).with("is_private", Json::Bool(is_private)),
    )
}

/// The channel that the answer to a creation describes.
pub fn created_channel(answer: &Json) -> (c: Channel)
    ensures
        c@ == channel_of(
            match answer@.get("channel"@) {
                Some(p) => p,
                None => JsonView::Null,
            },
        ),
{
    match answer.get("channel") {
        Some(p) => parse_slack_channel(p),
        None => parse_slack_channel(&Json::Null),
    }
}

/// A body of two texts.
pub open spec fn two_texts(k1: Seq<char>, v1: Seq<char>, k2: Seq<char>, v2: Seq<char>) -> JsonView {
    JsonView::Object(Seq::empty()).with(k1, JsonView::Str(v1)).with(k2, JsonView::Str(v2))
}

fn two_texts_of(k1: &str, v1: &str, k2: &str, v2: &str) -> (j: Json)
    ensures
        j@ == two_texts(k1@, v1@, k2@, v2@),
{
    Json::object().with(k1, Json::string(v1)).with(k2, Json::string(v2))
}

/// The call that invites a user to a channel.
pub fn invite_call(channel: &str, user_id: &str) -> (c: HttpCall)
    ensures
        c@ == (HttpCallView {
            method: Method::Post,
            url: method_url("conversations.invite"@),
            query: Seq::empty(),
            body: Some(two_texts("channel"@, channel@, "users"@, user_id@)),
        }),
{
    api_post("conversations.invite", two_texts_of("channel", channel, "users", user_id))
}

/// The call that sets the topic of a channel.
pub fn set_topic_call(channel: &str, topic: &str) -> (c: HttpCall)
    ensures
        c@ == (HttpCallView {
            method: Method::Post,
            url: method_url("conversations.setTopic"@),
            query: Seq::empty(),
            body: Some(two_texts("channel"@, channel@, "topic"@, topic@)),
        }),
{
    api_post("conversations.setTopic", two_texts_of("channel", channel, "topic", topic))
}

/// The body that names a reaction to a message.
pub open spec fn reaction_body(channel: Seq<char>, stamp: Seq<char>, emoji: Seq<char>) -> JsonView {
    JsonView::Object(Seq::empty()).with("channel"@, JsonView::Str(channel)).with(
        "timestamp"@,
        JsonView::Str(stamp),
    ).with("name"@, JsonView::Str(emoji))
}

fn reaction_body_of(channel: &str, stamp: &str, emoji: &str) -> (j: Json)
    ensures
        j@ == reaction_body(channel@, stamp@, emoji@),
{
    Json::object().with("channel", Json::string(channel)).with(
        "timestamp",
        Json::string(stamp),
    ).with("name", Json::string(emoji))
}

/// The call that adds a reaction to a message.
pub fn add_reaction_call(channel: &str, stamp: &str, emoji: &str) -> (c: HttpCall)
    ensures
        c@ == (HttpCallView {
            method: Method::Post,
            url: method_url("reactions.add"@),
            query: Seq::empty(),
            body: Some(reaction_body(channel@, stamp@, emoji@)),
        }),
{
    api_post("reactions.add", reaction_body_of(channel, stamp, emoji))
}

/// The call that takes a reaction from a message.
pub fn remove_reaction_call(channel: &str, stamp: &str, emoji: &str) -> (c: HttpCall)
    ensures
        c@ == (HttpCallView {
            method: Method::Post,
            url: method_url("reactions.remove"@),
            query: Seq::empty(),
            body: Some(reaction_body(channel@, stamp@, emoji@)),
        }),
{
    api_post("reactions.remove", reaction_body_of(channel, stamp, emoji))
}

/// What an upload sends besides the bytes of the file.
#[derive(Debug)]
pub struct Upload {
    pub url: String,
    /// The name under which the file is sent.
    pub file_name: String,
    /// The text fields of the form, in their order.
    pub fields: Vec<(String, String)>,
}

/// `Upload` in terms of texts.
pub struct UploadView {
    pub url: Seq<char>,
    pub file_name: Seq<char>,
    pub fields: Seq<(Seq<char>, Seq<char>)>,
}

impl View for Upload {
    type V = UploadView;

    open spec fn view(&self) -> UploadView {
        UploadView { url: self.url@, file_name: self.file_name@, fields: query_view(self.fields@) }
    }
}

/// The upload of a file to channels: under the name of the file, `file`
/// where the path leads to none, with the channels between commas and with
/// the title where one is given; the refusal of a path with a component
/// `..`.
pub open spec fn upload_plan(
    channels: Seq<Seq<char>>,
    file_path: Seq<char>,
    title: Option<Seq<char>>,
) -> Result<UploadView, (ErrorKind, Seq<char>)> {
    if has_parent_dir(file_path) {
        Err((ErrorKind::InvalidInput, "file_path must not contain '..' components"@))
    } else {
        Ok(
            UploadView {
                url: method_url("files.upload"@),
                file_name: text_or(base_name(file_path), "file"@),
                fields: seq![("channels"@, joined(channels, ","@))] + (match title {
                    Some(t) => seq![("title"@, t)],
                    None => Seq::empty(),
                }),
            },
        )
    }
}

/// The upload of a file to channels.
pub fn upload_file_plan(channels: &Vec<String>, file_path: &str, title: Option<&str>) -> (r: Result<
    Upload,
    AgentError,
>)
    ensures
        match r {
            Ok(u) => upload_plan(views(channels@), file_path@, opt_str(title)) == Ok::<
                UploadView,
                (ErrorKind, Seq<char>),
            >(u@),
            Err(e) => upload_plan(views(channels@), file_path@, opt_str(title)) == Err::<
                UploadView,
                (ErrorKind, Seq<char>),
            >(e@),
        },
{
    if contains_parent_dir(file_path) {
        return Err(AgentError::invalid_input("file_path must not contain '..' components"));
    }
    let name: String = match file_name(file_path) {
        Some(n) => n,
        None => String::from_str("file"),
    };
    let mut fields: Vec<(String, String)> = Vec::new();
    fields.push((String::from_str("channels"), join(channels, ",")));
    let ghost head = seq![("channels"@, joined(views(channels@), ","@))];
    match title {
        Some(t) => {
            fields.push(pair("title", t));
            assert(query_view(fields@) =~= head + seq![("title"@, t@)]);
        },
        None => {
            assert(query_view(fields@) =~= head + Seq::empty());
        },
    }
    Ok(Upload { url: glue3(BASE_URL, "/", "files.upload"), file_name: name, fields })
}

/// The failure of a file that cannot be read.
pub fn unreadable_file(file_path: &str, detail: &str) -> (e: AgentError)
    ensures
        e@ == (ErrorKind::InvalidInput, "cannot read file "@ + file_path@ + ": "@ + detail@),
{
    let mut s = String::from_str("cannot read file ");
    s.append(file_path);
    s.append(": ");
    s.append(detail);
    AgentError::InvalidInput(s)
}

/// The failure of an upload that did not get through.
pub fn upload_failed(detail: &str) -> (e: AgentError)
    ensures
        e@ == (ErrorKind::Network, "slack upload failed: "@ + detail@),
{
    AgentError::Network(glue("slack upload failed: ", detail))
}

/// The words that report an upload: the name of the file, its identifier,
/// `unknown` where the answer has none, and its link.
pub open spec fn upload_report(answer: JsonView, file_name: Seq<char>) -> Seq<char> {
    "Uploaded file "@ + file_name + " (id: "@ + text_or(
        text_of(member(answer.get("file"@), "id"@)),
        "unknown"@,
    ) + ") "@ + text_or(text_of(member(answer.get("file"@), "permalink"@)), Seq::empty())
}

/// The words that report an upload.
pub fn uploaded(answer: &Json, file_name: &str) -> (r: String)
    ensures
        r@ == upload_report(answer@, file_name@),
{
    let file = answer.get("file");
    let id = owned_or(text(field(file, "id")), "unknown");
    let link = owned_or_empty(text(field(file, "permalink")));
    let mut s = String::from_str("Uploaded file ");
    s.append(file_name);
    s.append(" (id: ");
    s.append(id.as_str());
    s.append(") ");
    s.append(link.as_str());
    s
}

/// The call that lists the users of the team.
pub fn list_users_call(limit: usize) -> (c: HttpCall)
    ensures
        c@ == (HttpCallView {
            method: Method::Get,
            url: method_url("users.list"@),
            query: seq![("limit"@, decimal(limit as int))],
            body: None,
        }),
{
    let mut params: Vec<(String, String)> = Vec::new();
    params.push((String::from_str("limit"), usize_to_string(limit)));
    assert(query_view(params@) =~= seq![("limit"@, decimal(limit as int))]);
    api_get("users.list", params)
}

/// The name of a user: the real name, else the handle, else the default.
pub open spec fn user_name(user: JsonView, default: Seq<char>) -> Seq<char> {
    match text_of(user.get("real_name"@)) {
        Some(n) => n,
        None => text_or(text_of(user.get("name"@)), default),
    }
}

/// The member that a user is, unless the user is deleted: owner, admin or
/// plain member.
pub open spec fn member_of(user: JsonView) -> Option<ChatMemberView> {
    if bool_of(user.get("deleted"@)) == Some(true) {
        None
    } else {
        Some(
            ChatMemberView {
                user_id: text_or(text_of(user.get("id"@)), Seq::empty()),
                name: user_name(user, Seq::empty()),
                username: text_of(user.get("name"@)),
                role: if bool_of(user.get("is_owner"@)) == Some(true) {
                    MemberRole::Owner
                } else if bool_of(user.get("is_admin"@)) == Some(true) {
                    MemberRole::Admin
                } else {
                    MemberRole::Member
                },
                joined_date: None,
            },
        )
    }
}

/// The members that the users are.
pub open spec fn members_in(users: Seq<JsonView>) -> Seq<ChatMemberView> {
    users.filter_map(|user: JsonView| member_of(user))
}

proof fn lemma_members_in_push(users: Seq<JsonView>, user: JsonView)
    ensures
        members_in(users.push(user)) == match member_of(user) {
            Some(m) => members_in(users).push(m),
            None => members_in(users),
        },
{
    assert(users.push(user).drop_last() =~= users);
    match member_of(user) {
        Some(m) => {
        },
        None => {},
    }
}

fn name_of_user(user: &Json, default: &str) -> (r: String)
    ensures
        r@ == user_name(user@, default@),
{
    match text(user.get("real_name")) {
        Some(n) => String::from_str(n),
        None => owned_or(text(user.get("name")), default),
    }
}

fn name_of_user_or_empty(user: &Json) -> (r: String)
    ensures
        r@ == user_name(user@, Seq::empty()),
{
    match text(user.get("real_name")) {
        Some(n) => String::from_str(n),
        None => owned_or_empty(text(user.get("name"))),
    }
}

/// The users of an answer as members; deleted users are passed over.
pub fn parse_users(answer: &Json) -> (r: Vec<ChatMember>)
    ensures
        member_views(r@) == match items_of(answer@.get("members"@)) {
            Some(users) => members_in(users),
            None => Seq::empty(),
        },
{
    let mut out: Vec<ChatMember> = Vec::new();
    match items(answer.get("members")) {
        Some(raw) => {
            let ghost all = json_views(raw@);
            let mut i: usize = 0;
            while i < raw.len()
                invariant
                    i <= raw.len(),
                    all == json_views(raw@),
                    member_views(out@) == members_in(all.take(i as int)),
                decreases raw.len() - i,
            {
                proof {
                    assert(all.take(i + 1) =~= all.take(i as int).push(raw@[i as int]@));
                    lemma_members_in_push(all.take(i as int), raw@[i as int]@);
                }
                let u = &raw[i];
                if !is_true(boolean(u.get("deleted"))) {
                    let role = if is_true(boolean(u.get("is_owner"))) {
                        MemberRole::Owner
                    } else if is_true(boolean(u.get("is_admin"))) {
                        MemberRole::Admin
                    } else {
                        MemberRole::Member
                    };
                    let m = ChatMember {
                        user_id: owned_or_empty(text(u.get("id"))),
                        name: name_of_user_or_empty(u),
                        username: owned(text(u.get("name"))),
                        role,
                        joined_date: None,
                    };
                    out.push(m);
                }
                i += 1;
            }
            assert(all.take(raw.len() as int) =~= all);
        },
        None => {
        },
    }
    out
}

/// The call that asks for one user.
pub fn user_info_call(user: &str) -> (c: HttpCall)
    ensures
        c@ == (HttpCallView {
            method: Method::Get,
            url: method_url("users.info"@),
            query: seq![("user"@, user@)],
            body: None,
        }),
{
    let mut params: Vec<(String, String)> = Vec::new();
    params.push(pair("user", user));
    assert(query_view(params@) =~= seq![("user"@, user@)]);
    api_get("users.info", params)
}

/// The profile of the user that an answer describes.
pub open spec fn user_profile_of(answer: JsonView) -> ProfileView {
    let user = match answer.get("user"@) {
        Some(u) => u,
        None => JsonView::Null,
    };
    ProfileView {
        platform: Platform::Slack,
        id: text_or(text_of(user.get("id"@)), Seq::empty()),
        name: user_name(user, "Unknown"@),
        username: text_of(user.get("name"@)),
        email: text_of(member(user.get("profile"@), "email"@)),
        phone: None,
    }
}

/// The profile of the user that an answer describes.
pub fn parse_user_profile(answer: &Json) -> (p: Profile)
    ensures
        p@ == user_profile_of(answer@),
{
    let null = Json::Null;
    let user: &Json = match answer.get("user") {
        Some(u) => u,
        None => &null,
    };
    Profile {
        platform: Platform::Slack,
        id: owned_or_empty(text(user.get("id"))),
        name: name_of_user(user, "Unknown"),
        username: owned(text(user.get("name"))),
        email: owned(text(field(user.get("profile"), "email"))),
        phone: None,
    }
}

} // verus!
