//! The guild-chat backend: the calls of its web interface and what its
//! answers mean.

use crate::entities::{
    message_views, opt_text, Channel, ChannelType, ChannelTypeView, ChannelView, Message,
    MessageMeta, MessageMetaView, MessageView, PageView, Paginated, Platform, Profile,
    ProfileView, page_view,
};
use crate::error::{AgentError, ErrorKind};
use crate::http::{json_call, plain_call, refused, success, HttpCall, HttpCallView, Method};
use crate::json::{
    bool_of, boolean, field, int_of, integer, items, items_of, json_views, member, nat_of,
    natural, opt_json, opt_str, owned, owned_or, owned_or_empty, cut, cut_i32, text, text_of,
    Json, JsonView,
};
use crate::tdlib::parse::{first_item, first_of, is_blank, non_empty, text_or};
use crate::text::{
    after_prefix, decimal, glue, glue3, parse_usize, parse_usize_spec, push_decimal_nat,
    strip_prefix, usize_to_string,
};
use vstd::prelude::*;
use vstd::string::StringSliceAdditionalSpecFns;

verus! {

/// Where the web interface lives.
pub const BASE_URL: &'static str = "https://discord.com/api/v10";

/// What the adapter needs to know.
#[derive(Debug, Clone)]
pub struct DiscordConfig {
    pub bot_token: String,
}

/// The value of the authorization header for a token.
pub fn authorization(config: &DiscordConfig) -> (r: String)
    ensures
        r@ == "Bot "@ + config.bot_token@,
{
    glue("Bot ", config.bot_token.as_str())
}

/// Whether an identifier can stand in a path: it is not empty and holds no
/// slash, backslash or NUL character.
pub open spec fn is_path_safe(id: Seq<char>) -> bool {
    id.len() > 0 && !id.contains('/') && !id.contains('\\') && !id.contains('\0')
}

/// The refusal of an identifier that cannot stand in a path.
pub open spec fn invalid_id(label: Seq<char>) -> (ErrorKind, Seq<char>) {
    (
        ErrorKind::InvalidInput,
        "invalid "@ + label + ": must not be empty or contain path separators"@,
    )
}

/// Refuses an identifier that cannot stand in a path.
pub fn validate_id(id: &str, label: &str) -> (r: Result<(), AgentError>)
    ensures
        match r {
            Ok(_) => is_path_safe(id@),
            Err(e) => !is_path_safe(id@) && e@ == invalid_id(label@),
        },
{
    let v = crate::text::chars_of(id);
    let mut i: usize = 0;
    while i < v.len()
        invariant
            i <= v.len(),
            v@ == id@,
            forall|k: int| 0 <= k < i ==> v@[k] != '/' && v@[k] != '\\' && v@[k] != '\0',
        decreases v.len() - i,
    {
        if v[i] == '/' || v[i] == '\\' || v[i] == '\0' {
            return Err(
                AgentError::InvalidInput(
                    glue3("invalid ", label, ": must not be empty or contain path separators"),
                ),
            );
        }
        i += 1;
    }
    if v.len() == 0 {
        Err(
            AgentError::InvalidInput(
                glue3("invalid ", label, ": must not be empty or contain path separators"),
            ),
        )
    } else {
        Ok(())
    }
}

/// Whether a byte stands for itself in an encoded text: letters, digits,
/// `-`, `_`, `.` and `~`.
pub open spec fn is_unreserved(b: u8) -> bool {
    (65 <= b <= 90) || (97 <= b <= 122) || (48 <= b <= 57) || b == 45 || b == 95 || b == 46 || b
        == 126
}

/// The uppercase hexadecimal digit of a number below 16.
pub open spec fn hex_digit(n: int) -> char {
    if n < 10 {
        ((48 + n) as u8) as char
    } else {
        ((55 + n) as u8) as char
    }
}

/// The bytes with every byte that does not stand for itself written as `%`
/// and its two hexadecimal digits.
pub open spec fn percent_encoded(bytes: Seq<u8>) -> Seq<char>
    decreases bytes.len(),
{
    if bytes.len() == 0 {
        Seq::empty()
    } else {
        let b = bytes.last();
        let before = percent_encoded(bytes.drop_last());
        if is_unreserved(b) {
            before.push(b as char)
        } else {
            before + seq!['%', hex_digit(b as int / 16), hex_digit(b as int % 16)]
        }
    }
}

fn hex_char(n: u8) -> (c: char)
    requires
        n < 16,
    ensures
        c == hex_digit(n as int),
{
    if n < 10 {
        (48u8 + n) as char
    } else {
        (55u8 + n) as char
    }
}

/// A text as it stands in a path or a query: its UTF-8 bytes, each written
/// as itself or as `%` and two hexadecimal digits.
pub fn urlencoding(s: &str) -> (r: String)
    ensures
        r@ == percent_encoded(s.spec_bytes()),
{
    let bytes = s.as_bytes();
    let mut r = String::new();
    let mut i: usize = 0;
    while i < bytes.len()
        invariant
            i <= bytes.len(),
            bytes@ == s.spec_bytes(),
            r@ == percent_encoded(bytes@.take(i as int)),
        decreases bytes.len() - i,
    {
        let b: u8 = bytes[i];
        proof {
            assert(bytes@.take(i + 1).drop_last() =~= bytes@.take(i as int));
        }
        let plain: bool = (b >= 65 && b <= 90) || (b >= 97 && b <= 122) || (b >= 48 && b <= 57)
            || b == 45 || b == 95 || b == 46 || b == 126;
        if plain {
            r.push(b as char);
        } else {
            r.push('%');
            r.push(hex_char(b / 16));
            r.push(hex_char(b % 16));
        }
        i += 1;
    }
    assert(bytes@.take(bytes.len() as int) =~= bytes@);
    r
}

/// The failure that a status and a message of the backend amount to: an
/// authorization failure for 401 and 403, a failure of the interface
/// otherwise.
pub open spec fn failure_of(status: u16, message: Seq<char>) -> (ErrorKind, Seq<char>) {
    if refused(status) {
        (ErrorKind::Auth, "discord auth failed ("@ + decimal(status as int) + "): "@ + message)
    } else {
        (ErrorKind::Api, "discord api error ("@ + decimal(status as int) + "): "@ + message)
    }
}

/// The failure that a status and a message of the backend amount to.
pub fn parse_discord_error(status: u16, msg: &str) -> (e: AgentError)
    ensures
        e@ == failure_of(status, msg@),
{
    if status == 401 || status == 403 {
        let mut s = String::from_str("discord auth failed (");
        push_decimal_nat(&mut s, status as u64);
        s.append("): ");
        s.append(msg);
        AgentError::Auth(s)
    } else {
        let mut s = String::from_str("discord api error (");
        push_decimal_nat(&mut s, status as u64);
        s.append("): ");
        s.append(msg);
        AgentError::Api(s)
    }
}

/// What an answer amounts to: nothing to report after a status of success,
/// else the failure with the message of the body, `unknown error` where
/// the body has none or there is no body.
pub open spec fn answer_failure(status: u16, body: Option<JsonView>) -> Option<
    (ErrorKind, Seq<char>),
> {
    if success(status) {
        None
    } else {
        Some(failure_of(status, text_or(text_of(member(body, "message"@)), "unknown error"@)))
    }
}

/// Checks the status of an answer.
pub fn check_answer(status: u16, body: Option<&Json>) -> (r: Result<(), AgentError>)
    ensures
        match r {
            Ok(_) => answer_failure(status, opt_json(body)) is None,
            Err(e) => answer_failure(status, opt_json(body)) == Some(e@),
        },
{
    if crate::http::is_success(status) {
        Ok(())
    } else {
        match text(field(body, "message")) {
            Some(m) => Err(parse_discord_error(status, m)),
            None => Err(parse_discord_error(status, "unknown error")),
        }
    }
}

/// The failure of a call that did not get through.
pub fn request_failed(detail: &str) -> (e: AgentError)
    ensures
        e@ == (ErrorKind::Network, "discord request failed: "@ + detail@),
{
    AgentError::Network(glue("discord request failed: ", detail))
}

/// Reads the body of an answer; a body that is not JSON is a failure of
/// the interface.
pub fn parse_body(body: &str) -> (r: Result<Json, AgentError>)
    ensures
        match r {
            Ok(j) => crate::json::parsed(body@) == Some(j@),
            Err(e) => crate::json::parsed(body@) is None && e@.0 == ErrorKind::Api
                && "discord response parse failed: "@.is_prefix_of(e@.1),
        },
{
    match Json::parse(body) {
        Ok(j) => Ok(j),
        Err(e) => Err(AgentError::Api(glue("discord response parse failed: ", e.detail()))),
    }
}

fn get(path: String) -> (c: HttpCall)
    ensures
        c@ == (HttpCallView {
            method: Method::Get,
            url: BASE_URL@ + path@,
            query: Seq::empty(),
            body: None,
        }),
{
    plain_call(Method::Get, glue(BASE_URL, path.as_str()))
}

/// The call that asks for the own user.
pub fn profile_call() -> (c: HttpCall)
    ensures
        c@ == (HttpCallView {
            method: Method::Get,
            url: BASE_URL@ + "/users/@me"@,
            query: Seq::empty(),
            body: None,
        }),
{
    get(String::from_str("/users/@me"))
}

/// The call that lists the guilds of the own user.
pub fn guilds_call() -> (c: HttpCall)
    ensures
        c@ == (HttpCallView {
            method: Method::Get,
            url: BASE_URL@ + "/users/@me/guilds"@,
            query: Seq::empty(),
            body: None,
        }),
{
    get(String::from_str("/users/@me/guilds"))
}

/// The call that lists the channels of a guild.
pub fn guild_channels_call(guild_id: &str) -> (c: HttpCall)
    ensures
        c@ == (HttpCallView {
            method: Method::Get,
            url: BASE_URL@ + ("/guilds/"@ + guild_id@ + "/channels"@),
            query: Seq::empty(),
            body: None,
        }),
{
    get(glue3("/guilds/", guild_id, "/channels"))
}

/// The profile that the payload of the own user describes.
pub open spec fn profile_of(user: JsonView) -> ProfileView {
    ProfileView {
        platform: Platform::Discord,
        id: text_or(text_of(user.get("id"@)), Seq::empty()),
        name: match text_of(user.get("global_name"@)) {
            Some(n) => n,
            None => text_or(text_of(user.get("username"@)), "Unknown"@),
        },
        username: text_of(user.get("username"@)),
        email: text_of(user.get("email"@)),
        phone: None,
    }
}

/// The profile that the payload of the own user describes.
pub fn parse_profile(user: &Json) -> (p: Profile)
    ensures
        p@ == profile_of(user@),
{
    proof {
        reveal_strlit("");
        assert(""@ =~= Seq::<char>::empty());
    }
    let name: String = match text(user.get("global_name")) {
        Some(n) => String::from_str(n),
        None => owned_or(text(user.get("username")), "Unknown"),
    };
    Profile {
        platform: Platform::Discord,
        id: owned_or(text(user.get("id")), ""),
        name,
        username: owned(text(user.get("username"))),
        email: owned(text(user.get("email"))),
        phone: None,
    }
}

/// The number of the type of a channel; 0 where it has none.
pub open spec fn type_number(channel: JsonView) -> u64 {
    match nat_of(channel.get("type"@)) {
        Some(n) => n,
        None => 0,
    }
}

/// The sort of conversation that the number of a type stands for.
pub open spec fn channel_type_of(n: u64) -> ChannelTypeView {
    if n == 0 {
        ChannelTypeView::Other("text"@)
    } else if n == 1 {
        ChannelTypeView::Private
    } else if n == 2 {
        ChannelTypeView::Other("voice"@)
    } else if n == 3 {
        ChannelTypeView::Group
    } else if n == 4 {
        ChannelTypeView::Other("category"@)
    } else if n == 5 {
        ChannelTypeView::Broadcast
    } else if 10 <= n <= 12 {
        ChannelTypeView::Thread
    } else if n == 13 {
        ChannelTypeView::Other("stage"@)
    } else if n == 15 {
        ChannelTypeView::Other("forum"@)
    } else {
        ChannelTypeView::Other("type:"@ + decimal(n as int))
    }
}

/// The channel that a payload describes, under the name of its guild where
/// one is given.
pub open spec fn channel_of(channel: JsonView, guild_name: Seq<char>) -> ChannelView {
    let name = text_or(text_of(channel.get("name"@)), "unknown"@);
    ChannelView {
        id: text_or(text_of(channel.get("id"@)), Seq::empty()),
        platform: Platform::Discord,
        name: if guild_name.len() == 0 {
            name
        } else {
            guild_name + "/#"@ + name
        },
        channel_type: channel_type_of(type_number(channel)),
        unread_count: 0,
        description: non_empty(text_of(channel.get("topic"@))),
        member_count: cut_i32(int_of(channel.get("member_count"@))),
        last_message_date: None,
    }
}

fn type_number_of(channel: &Json) -> (n: u64)
    ensures
        n == type_number(channel@),
{
    match natural(channel.get("type")) {
        Some(n) => n,
        None => 0,
    }
}

/// The channel that a payload describes.
pub fn parse_discord_channel(channel: &Json, guild_name: &str) -> (c: Channel)
    ensures
        c@ == channel_of(channel@, guild_name@),
{
    proof {
        reveal_strlit("");
        assert(""@ =~= Seq::<char>::empty());
    }
    let n = type_number_of(channel);
    let channel_type = if n == 0 {
        ChannelType::Other(String::from_str("text"))
    } else if n == 1 {
        ChannelType::Private
    } else if n == 2 {
        ChannelType::Other(String::from_str("voice"))
    } else if n == 3 {
        ChannelType::Group
    } else if n == 4 {
        ChannelType::Other(String::from_str("category"))
    } else if n == 5 {
        ChannelType::Broadcast
    } else if n >= 10 && n <= 12 {
        ChannelType::Thread
    } else if n == 13 {
        ChannelType::Other(String::from_str("stage"))
    } else if n == 15 {
        ChannelType::Other(String::from_str("forum"))
    } else {
        let mut s = String::from_str("type:");
        push_decimal_nat(&mut s, n);
        ChannelType::Other(s)
    };
    let name: &str = match text(channel.get("name")) {
        Some(n) => n,
        None => "unknown",
    };
    let display = if is_blank(guild_name) {
        String::from_str(name)
    } else {
        glue3(guild_name, "/#", name)
    };
    let description: Option<String> = match text(channel.get("topic")) {
        Some(t) => if is_blank(t) {
            None
        } else {
            Some(String::from_str(t))
        },
        None => None,
    };
    Channel {
        id: owned_or(text(channel.get("id")), ""),
        platform: Platform::Discord,
        name: display,
        channel_type,
        unread_count: 0,
        description,
        member_count: cut(integer(channel.get("member_count"))),
        last_message_date: None,
    }
}

/// The seconds since the epoch of a time written after RFC 3339, as
/// `chrono::DateTime::parse_from_rfc3339` reads it and
/// `DateTime::timestamp` counts them; `None` for a text that is no such
/// time.
pub uninterp spec fn rfc3339_seconds(text: Seq<char>) -> Option<i64>;

/// Calls `chrono::DateTime::parse_from_rfc3339` and takes the `timestamp`
/// of the result. The contract names the seconds and says that there are
/// none exactly where `chrono` refuses the text.
#[verifier::external_body]
fn rfc3339_timestamp(text: &str) -> (r: Option<i64>)
    ensures
        r == rfc3339_seconds(text@),
{
    chrono::DateTime::parse_from_rfc3339(text).ok().map(|dt| dt.timestamp())
}

/// The time of a message in seconds since the epoch; 0 where the payload
/// has none that can be read.
pub open spec fn message_time(message: JsonView) -> i64 {
    match text_of(message.get("timestamp"@)) {
        Some(t) => match rfc3339_seconds(t) {
            Some(s) => s,
            None => 0,
        },
        None => 0,
    }
}

/// The message that a payload describes, as one of the given channel.
pub open spec fn message_of(message: JsonView, channel: Seq<char>) -> MessageView {
    MessageView {
        id: text_or(text_of(message.get("id"@)), Seq::empty()),
        platform: Platform::Discord,
        channel_id: channel,
        sender: match text_of(member(message.get("author"@), "global_name"@)) {
            Some(n) => n,
            None => text_or(text_of(member(message.get("author"@), "username"@)), "unknown"@),
        },
        text: text_or(text_of(message.get("content"@)), Seq::empty()),
        timestamp: message_time(message),
        has_attachment: match items_of(message.get("attachments"@)) {
            Some(a) => a.len() > 0,
            None => false,
        },
        reply_to: text_of(member(message.get("message_reference"@), "message_id"@)),
        meta: MessageMetaView {
            is_pinned: if bool_of(message.get("pinned"@)) == Some(true) {
                Some(true)
            } else {
                None
            },
            ..MessageMetaView::empty()
        },
    }
}

/// The message that a payload describes.
pub fn parse_discord_message(message: &Json, channel: &str) -> (m: Message)
    ensures
        m@ == message_of(message@, channel@),
{
    proof {
        reveal_strlit("");
        assert(""@ =~= Seq::<char>::empty());
    }
    let timestamp: i64 = match text(message.get("timestamp")) {
        Some(t) => match rfc3339_timestamp(t) {
            Some(s) => s,
            None => 0,
        },
        None => 0,
    };
    let author = message.get("author");
    let sender: String = match text(field(author, "global_name")) {
        Some(n) => String::from_str(n),
        None => owned_or(text(field(author, "username")), "unknown"),
    };
    let has_attachment: bool = match items(message.get("attachments")) {
        Some(a) => a.len() > 0,
        None => false,
    };
    let mut meta = MessageMeta::default();
    match boolean(message.get("pinned")) {
        Some(true) => {
            meta.is_pinned = Some(true);
        },
        _ => {},
    }
    Message {
        id: owned_or(text(message.get("id")), ""),
        platform: Platform::Discord,
        channel_id: String::from_str(channel),
        sender,
        text: owned_or(text(message.get("content")), ""),
        timestamp,
        has_attachment,
        reply_to: owned(text(field(message.get("message_reference"), "message_id"))),
        meta,
    }
}

/// A guild by identifier and name.
#[derive(Debug)]
pub struct GuildRef {
    pub id: String,
    pub name: String,
}

/// The guild that a payload names; the identifier is empty and the name
/// `Unknown` where the payload has none.
pub open spec fn guild_of(guild: JsonView) -> (Seq<char>, Seq<char>) {
    (
        text_or(text_of(guild.get("id"@)), Seq::empty()),
        text_or(text_of(guild.get("name"@)), "Unknown"@),
    )
}

/// The guilds whose channels are listed: the first five of the answer,
/// which must be an array.
pub open spec fn listed_guilds(answer: JsonView) -> Result<
    Seq<(Seq<char>, Seq<char>)>,
    (ErrorKind, Seq<char>),
> {
    match answer.as_array() {
        Some(guilds) => {
            let first = if guilds.len() > 5 {
                guilds.take(5)
            } else {
                guilds
            };
            Ok(Seq::new(first.len(), |i: int| guild_of(first[i])))
        },
        None => Err((ErrorKind::Api, "discord: expected guilds array"@)),
    }
}

/// The views of guilds.
pub open spec fn guild_views(v: Seq<GuildRef>) -> Seq<(Seq<char>, Seq<char>)> {
    Seq::new(v.len(), |i: int| (v[i].id@, v[i].name@))
}

/// The guilds whose channels are listed.
pub fn first_guilds(answer: &Json) -> (r: Result<Vec<GuildRef>, AgentError>)
    ensures
        match r {
            Ok(g) => listed_guilds(answer@) == Ok::<
                Seq<(Seq<char>, Seq<char>)>,
                (ErrorKind, Seq<char>),
            >(guild_views(g@)),
            Err(e) => listed_guilds(answer@) == Err::<
                Seq<(Seq<char>, Seq<char>)>,
                (ErrorKind, Seq<char>),
            >(e@),
        },
{
    proof {
        reveal_strlit("");
    }
    let guilds: &Vec<Json> = match answer.as_array() {
        Some(a) => a,
        None => {
            return Err(AgentError::api("discord: expected guilds array"));
        },
    };
    let n: usize = if guilds.len() > 5 {
        5
    } else {
        guilds.len()
    };
    let ghost all = json_views(guilds@);
    let ghost first = if all.len() > 5 {
        all.take(5)
    } else {
        all
    };
    let mut out: Vec<GuildRef> = Vec::new();
    let mut i: usize = 0;
    while i < n
        invariant
            i <= n,
            n == first.len(),
            n <= guilds.len(),
            all == json_views(guilds@),
            forall|k: int| 0 <= k < n ==> first[k] == all[k],
            out.len() == i,
            forall|k: int|
                0 <= k < i ==> ((#[trigger] out@[k]).id@, out@[k].name@) == guild_of(first[k]),
        decreases n - i,
    {
        let g = &guilds[i];
        out.push(
            GuildRef {
                id: owned_or_empty(text(g.get("id"))),
                name: owned_or(text(g.get("name")), "Unknown"),
            },
        );
        i += 1;
    }
    assert(guild_views(out@) =~= Seq::new(first.len(), |i: int| guild_of(first[i])));
    Ok(out)
}

/// Whether a channel is one that a listing shows: text, voice or
/// announcement.
pub open spec fn is_listed(channel: JsonView) -> bool {
    type_number(channel) == 0 || type_number(channel) == 2 || type_number(channel) == 5
}

/// The channels of a guild that a listing shows.
pub open spec fn shown_channels(channels: Seq<JsonView>, guild_name: Seq<char>) -> Seq<ChannelView> {
    channels.filter_map(
        |c: JsonView|
            if is_listed(c) {
                Some(channel_of(c, guild_name))
            } else {
                None
            },
    )
}

proof fn lemma_shown_channels_push(channels: Seq<JsonView>, c: JsonView, guild_name: Seq<char>)
    ensures
        shown_channels(channels.push(c), guild_name) == if is_listed(c) {
            shown_channels(channels, guild_name).push(channel_of(c, guild_name))
        } else {
            shown_channels(channels, guild_name)
        },
{
    assert(channels.push(c).drop_last() =~= channels);
    if is_listed(c) {
        assert(shown_channels(channels, guild_name) + seq![channel_of(c, guild_name)]
            =~= shown_channels(channels, guild_name).push(channel_of(c, guild_name)));
    }
}

/// The views of a sequence of channels.
pub open spec fn channel_views(v: Seq<Channel>) -> Seq<ChannelView> {
    Seq::new(v.len(), |i: int| v[i]@)
}

/// The listing after the channels of one more guild: the shown channels of
/// the answer are added where the answer is an array; once the listing is
/// as long as the limit it is cut to the limit and complete.
pub open spec fn absorbed(
    before: Seq<ChannelView>,
    answer: JsonView,
    guild_name: Seq<char>,
    limit: nat,
) -> (Seq<ChannelView>, bool) {
    let grown = match answer.as_array() {
        Some(channels) => before + shown_channels(channels, guild_name),
        None => before,
    };
    if grown.len() >= limit {
        (grown.take(limit as int), true)
    } else {
        (grown, false)
    }
}

/// Adds the channels of one more guild to a listing and tells whether the
/// listing is complete.
pub fn absorb_guild_channels(
    channels: &mut Vec<Channel>,
    answer: &Json,
    guild_name: &str,
    limit: usize,
) -> (done: bool)
    ensures
        (channel_views(final(channels)@), done) == absorbed(
            channel_views(old(channels)@),
            answer@,
            guild_name@,
            limit as nat,
        ),
{
    let ghost before = channel_views(channels@);
    match answer.as_array() {
        Some(raw) => {
            let ghost all = json_views(raw@);
            let mut i: usize = 0;
            while i < raw.len()
                invariant
                    i <= raw.len(),
                    all == json_views(raw@),
                    channel_views(channels@) == before + shown_channels(
                        all.take(i as int),
                        guild_name@,
                    ),
                decreases raw.len() - i,
            {
                proof {
                    assert(all.take(i + 1) =~= all.take(i as int).push(raw@[i as int]@));
                    lemma_shown_channels_push(all.take(i as int), raw@[i as int]@, guild_name@);
                }
                let n = type_number_of(&raw[i]);
                if n == 0 || n == 2 || n == 5 {
                    let c = parse_discord_channel(&raw[i], guild_name);
                    let ghost shown = channel_views(channels@);
                    let ghost view = c@;
                    channels.push(c);
                    assert(channel_views(channels@) =~= shown.push(view));
                    assert(channel_views(channels@) =~= before + shown_channels(
                        all.take(i as int),
                        guild_name@,
                    ).push(view));
                }
                i += 1;
            }
            assert(all.take(raw.len() as int) =~= all);
        },
        None => {},
    }
    if channels.len() >= limit {
        channels.truncate(limit);
        true
    } else {
        false
    }
}

/// The channels that an answer lists, each under its own name; none where
/// the answer is no array.
pub open spec fn all_channels(answer: JsonView, guild_name: Seq<char>) -> Seq<ChannelView> {
    match answer.as_array() {
        Some(channels) => Seq::new(channels.len(), |i: int| channel_of(channels[i], guild_name)),
        None => Seq::empty(),
    }
}

/// The channels that an answer lists.
pub fn parse_channels(answer: &Json, guild_name: &str) -> (r: Vec<Channel>)
    ensures
        channel_views(r@) == all_channels(answer@, guild_name@),
{
    let mut out: Vec<Channel> = Vec::new();
    match answer.as_array() {
        Some(raw) => {
            let mut i: usize = 0;
            while i < raw.len()
                invariant
                    i <= raw.len(),
                    out.len() == i,
                    forall|k: int|
                        0 <= k < i ==> (#[trigger] out@[k])@ == channel_of(
                            raw@[k]@,
                            guild_name@,
                        ),
                decreases raw.len() - i,
            {
                out.push(parse_discord_channel(&raw[i], guild_name));
                i += 1;
            }
        },
        None => {
        },
    }
    out
}

/// The guild that a payload describes, as a channel of the sort `guild`.
pub open spec fn guild_channel_of(guild: JsonView) -> ChannelView {
    ChannelView {
        id: text_or(text_of(guild.get("id"@)), Seq::empty()),
        platform: Platform::Discord,
        name: text_or(text_of(guild.get("name"@)), "Unknown"@),
        channel_type: ChannelTypeView::Other("guild"@),
        unread_count: 0,
        description: None,
        member_count: cut_i32(int_of(guild.get("approximate_member_count"@))),
        last_message_date: None,
    }
}

/// The guilds that an answer lists, as channels; none where the answer is
/// no array.
pub open spec fn guild_channels_of(answer: JsonView) -> Seq<ChannelView> {
    match answer.as_array() {
        Some(guilds) => Seq::new(guilds.len(), |i: int| guild_channel_of(guilds[i])),
        None => Seq::empty(),
    }
}

/// The guilds that an answer lists, as channels.
pub fn parse_guilds(answer: &Json) -> (r: Vec<Channel>)
    ensures
        channel_views(r@) == guild_channels_of(answer@),
{
    proof {
        reveal_strlit("");
    }
    let mut out: Vec<Channel> = Vec::new();
    match answer.as_array() {
        Some(raw) => {
            let mut i: usize = 0;
            while i < raw.len()
                invariant
                    i <= raw.len(),
                    out.len() == i,
                    forall|k: int|
                        0 <= k < i ==> (#[trigger] out@[k])@ == guild_channel_of(raw@[k]@),
                decreases raw.len() - i,
            {
                let g = &raw[i];
                out.push(
                    Channel {
                        id: owned_or_empty(text(g.get("id"))),
                        platform: Platform::Discord,
                        name: owned_or(text(g.get("name")), "Unknown"),
                        channel_type: ChannelType::Other(String::from_str("guild")),
                        unread_count: 0,
                        description: None,
                        member_count: cut(integer(g.get("approximate_member_count"))),
                        last_message_date: None,
                    },
                );
                i += 1;
            }
        },
        None => {
        },
    }
    out
}

/// What follows `dc:` in a cursor.
pub open spec fn cursor_body(cursor: Option<Seq<char>>) -> Option<Seq<char>> {
    match cursor {
        Some(c) => after_prefix(c, "dc:"@),
        None => None,
    }
}

fn cursor_rest(cursor: Option<&str>) -> (r: Option<String>)
    ensures
        opt_text(r) == cursor_body(opt_str(cursor)),
{
    match cursor {
        Some(c) => strip_prefix(c, "dc:"),
        None => None,
    }
}

/// The path that reads the messages of a channel, before the message of
/// the cursor where there is one.
pub open spec fn messages_path(channel: Seq<char>, limit: nat, cursor: Option<Seq<char>>) -> Seq<
    char,
> {
    "/channels/"@ + channel + "/messages?limit="@ + decimal(limit as int) + (match cursor_body(
        cursor,
    ) {
        Some(before) => "&before="@ + before,
        None => Seq::empty(),
    })
}

/// The view of a call that may have been refused.
pub open spec fn call_result(r: Result<HttpCall, AgentError>) -> Result<
    HttpCallView,
    (ErrorKind, Seq<char>),
> {
    match r {
        Ok(c) => Ok(c@),
        Err(e) => Err(e@),
    }
}

/// The call that reads the messages of a channel, or the refusal of a
/// channel that cannot stand in a path.
pub open spec fn read_messages_plan(
    channel: Seq<char>,
    limit: nat,
    cursor: Option<Seq<char>>,
) -> Result<HttpCallView, (ErrorKind, Seq<char>)> {
    if is_path_safe(channel) {
        Ok(
            HttpCallView {
                method: Method::Get,
                url: BASE_URL@ + messages_path(channel, limit, cursor),
                query: Seq::empty(),
                body: None,
            },
        )
    } else {
        Err(invalid_id("channel"@))
    }
}

/// The call that reads the messages of a channel.
pub fn read_messages_call(channel: &str, limit: usize, cursor: Option<&str>) -> (r: Result<
    HttpCall,
    AgentError,
>)
    ensures
        call_result(r) == read_messages_plan(channel@, limit as nat, opt_str(cursor)),
{
    match validate_id(channel, "channel") {
        Ok(_) => {},
        Err(e) => {
            return Err(e);
        },
    }
    let mut path = String::from_str("/channels/");
    path.append(channel);
    path.append("/messages?limit=");
    push_decimal_nat(&mut path, limit as u64);
    let ghost head = path@;
    match cursor_rest(cursor) {
        Some(before) => {
            path.append("&before=");
            path.append(before.as_str());
            assert(path@ =~= head + ("&before="@ + before@));
        },
        None => {
        },
    }
    Ok(get(path))
}

/// The messages that an answer lists, as messages of the channel; none
/// where the answer is no array.
pub open spec fn messages_of(answer: JsonView, channel: Seq<char>) -> Seq<MessageView> {
    match answer.as_array() {
        Some(raw) => Seq::new(raw.len(), |i: int| message_of(raw[i], channel)),
        None => Seq::empty(),
    }
}

/// The page that an answer to a reading holds: its messages, the mark that
/// there are more where it is as long as was asked for, and the cursor
/// `dc:` with the identifier of the last message.
pub open spec fn messages_page_of(answer: JsonView, channel: Seq<char>, limit: nat) -> PageView {
    let messages = messages_of(answer, channel);
    PageView {
        items: messages,
        has_more: messages.len() == limit,
        next_cursor: if messages.len() > 0 {
            Some("dc:"@ + messages.last().id)
        } else {
            None
        },
    }
}

/// The page that an answer to a reading holds.
pub fn messages_page(answer: &Json, channel: &str, limit: usize) -> (page: Paginated<Message>)
    ensures
        page_view(page) == messages_page_of(answer@, channel@, limit as nat),
{
    let mut out: Vec<Message> = Vec::new();
    match answer.as_array() {
        Some(raw) => {
            let mut i: usize = 0;
            while i < raw.len()
                invariant
                    i <= raw.len(),
                    out.len() == i,
                    forall|k: int|
                        0 <= k < i ==> (#[trigger] out@[k])@ == message_of(raw@[k]@, channel@),
                decreases raw.len() - i,
            {
                out.push(parse_discord_message(&raw[i], channel));
                i += 1;
            }
            assert(message_views(out@) =~= messages_of(answer@, channel@));
        },
        None => {
            assert(message_views(out@) =~= Seq::<MessageView>::empty());
        },
    }
    let has_more: bool = out.len() == limit;
    let next_cursor: Option<String> = if out.len() > 0 {
        Some(glue("dc:", out[out.len() - 1].id.as_str()))
    } else {
        None
    };
    Paginated { items: out, has_more, next_cursor }
}

/// The body of a message to send, as a reply where a message is named.
pub open spec fn send_body(text: Seq<char>, reply_to: Option<Seq<char>>) -> JsonView {
    let plain = JsonView::Object(Seq::empty()).with("content"@, JsonView::Str(text));
    match reply_to {
        Some(id) => plain.with(
            "message_reference"@,
            JsonView::Object(Seq::empty()).with("message_id"@, JsonView::Str(id)),
        ),
        None => plain,
    }
}

/// The call that sends a message to a channel, or the refusal of a channel
/// that cannot stand in a path.
pub open spec fn send_message_plan(
    channel: Seq<char>,
    text: Seq<char>,
    reply_to: Option<Seq<char>>,
) -> Result<HttpCallView, (ErrorKind, Seq<char>)> {
    if is_path_safe(channel) {
        Ok(
            HttpCallView {
                method: Method::Post,
                url: BASE_URL@ + ("/channels/"@ + channel + "/messages"@),
                query: Seq::empty(),
                body: Some(send_body(text, reply_to)),
            },
        )
    } else {
        Err(invalid_id("channel"@))
    }
}

fn post(path: String, body: Json) -> (c: HttpCall)
    ensures
        c@ == (HttpCallView {
            method: Method::Post,
            url: BASE_URL@ + path@,
            query: Seq::empty(),
            body: Some(body@),
        }),
{
    json_call(Method::Post, glue(BASE_URL, path.as_str()), body)
}

/// The call that sends a message to a channel.
pub fn send_message_call(channel: &str, text: &str, reply_to: Option<&str>) -> (r: Result<
    HttpCall,
    AgentError,
>)
    ensures
        call_result(r) == send_message_plan(channel@, text@, opt_str(reply_to)),
{
    match validate_id(channel, "channel") {
        Ok(_) => {},
        Err(e) => {
            return Err(e);
        },
    }
    let plain = Json::object().with("content", Json::string(text));
    let body = match reply_to {
        Some(id) => plain.with(
            "message_reference",
            Json::object().with("message_id", Json::string(id)),
        ),
        None => plain,
    };
    Ok(post(glue3("/channels/", channel, "/messages"), body))
}

/// The guild that a search goes through: the first of the answer; the
/// failure where there is none.
pub open spec fn search_guild_of(guilds: JsonView) -> Result<Seq<char>, (ErrorKind, Seq<char>)> {
    match text_of(member(first_item(guilds.as_array()), "id"@)) {
        Some(id) => Ok(id),
        None => Err(
            (ErrorKind::NotFound, "no guilds found for search (searches first guild only)"@),
        ),
    }
}

/// How many results a search has passed: the number in the cursor, or 0.
pub open spec fn search_offset(cursor: Option<Seq<char>>) -> usize {
    match cursor_body(cursor) {
        Some(body) => match parse_usize_spec(body) {
            Some(n) => n,
            None => 0,
        },
        None => 0,
    }
}

/// How many results a search has passed.
pub fn search_offset_of(cursor: Option<&str>) -> (n: usize)
    ensures
        n == search_offset(opt_str(cursor)),
{
    match cursor_rest(cursor) {
        Some(body) => match parse_usize(body.as_str()) {
            Some(n) => n,
            None => 0,
        },
        None => 0,
    }
}

/// The path that searches a guild.
pub open spec fn search_path(guild_id: Seq<char>, query: &str, limit: nat, offset: nat) -> Seq<
    char,
> {
    "/guilds/"@ + guild_id + "/messages/search?content="@ + percent_encoded(query.spec_bytes())
        + "&limit="@ + decimal(limit as int) + "&offset="@ + decimal(offset as int)
}

/// The call that searches the first guild of the answer for a text.
pub fn search_call(guilds: &Json, query: &str, limit: usize, cursor: Option<&str>) -> (r: Result<
    HttpCall,
    AgentError,
>)
    ensures
        match search_guild_of(guilds@) {
            Ok(id) => r matches Ok(c) && c@ == (HttpCallView {
                method: Method::Get,
                url: BASE_URL@ + search_path(
                    id,
                    query,
                    limit as nat,
                    search_offset(opt_str(cursor)) as nat,
                ),
                query: Seq::empty(),
                body: None,
            }),
            Err(e) => r matches Err(f) && f@ == e,
        },
{
    let id: &str = match text(field(first_of(guilds.as_array()), "id")) {
        Some(id) => id,
        None => {
            return Err(
                AgentError::not_found("no guilds found for search (searches first guild only)"),
            );
        },
    };
    let offset = search_offset_of(cursor);
    let encoded = urlencoding(query);
    let mut path = String::from_str("/guilds/");
    path.append(id);
    path.append("/messages/search?content=");
    path.append(encoded.as_str());
    path.append("&limit=");
    push_decimal_nat(&mut path, limit as u64);
    path.append("&offset=");
    push_decimal_nat(&mut path, offset as u64);
    Ok(get(path))
}

/// The message that one group of results stands for: the first payload of
/// the group, as a message of the channel that it names.
pub open spec fn found_message(group: JsonView) -> Option<MessageView> {
    match first_item(group.as_array()) {
        Some(m) => Some(message_of(m, text_or(text_of(m.get("channel_id"@)), Seq::empty()))),
        None => None,
    }
}

/// The messages that the groups of results stand for.
pub open spec fn found_messages(groups: Seq<JsonView>) -> Seq<MessageView> {
    groups.filter_map(|group: JsonView| found_message(group))
}

proof fn lemma_found_messages_push(groups: Seq<JsonView>, group: JsonView)
    ensures
        found_messages(groups.push(group)) == match found_message(group) {
            Some(m) => found_messages(groups).push(m),
            None => found_messages(groups),
        },
{
    assert(groups.push(group).drop_last() =~= groups);
    match found_message(group) {
        Some(m) => {
        },
        None => {},
    }
}

/// The sum of two counts, held at the greatest count where it would pass
/// it.
pub open spec fn capped_sum(a: usize, b: usize) -> usize {
    if a + b > usize::MAX {
        usize::MAX
    } else {
        (a + b) as usize
    }
}

/// The page that an answer to a search holds: the messages of its groups,
/// and, where the results passed so far are fewer than the total, the mark
/// that there are more and the cursor `dc:` with the number passed.
pub open spec fn search_page_of(answer: JsonView, offset: usize) -> PageView {
    let messages = match items_of(answer.get("messages"@)) {
        Some(groups) => found_messages(groups),
        None => Seq::empty(),
    };
    let total = match nat_of(answer.get("total_results"@)) {
        Some(n) => n as usize,
        None => 0usize,
    };
    let next = capped_sum(offset, messages.len() as usize);
    PageView {
        items: messages,
        has_more: next < total,
        next_cursor: if next < total {
            Some("dc:"@ + decimal(next as int))
        } else {
            None
        },
    }
}

/// The page that an answer to a search holds.
pub fn search_page(answer: &Json, offset: usize) -> (page: Paginated<Message>)
    ensures
        page_view(page) == search_page_of(answer@, offset),
{
    proof {
        reveal_strlit("");
    }
    let mut out: Vec<Message> = Vec::new();
    match items(answer.get("messages")) {
        Some(groups) => {
            let ghost all = json_views(groups@);
            let mut i: usize = 0;
            while i < groups.len()
                invariant
                    i <= groups.len(),
                    all == json_views(groups@),
                    message_views(out@) == found_messages(all.take(i as int)),
                decreases groups.len() - i,
            {
                proof {
                    assert(all.take(i + 1) =~= all.take(i as int).push(groups@[i as int]@));
                    lemma_found_messages_push(all.take(i as int), groups@[i as int]@);
                }
                match first_of(groups[i].as_array()) {
                    Some(m) => {
                        let channel = owned_or_empty(text(m.get("channel_id")));
                        let parsed = parse_discord_message(m, channel.as_str());
                        out.push(parsed);
                    },
                    None => {},
                }
                i += 1;
            }
            assert(all.take(groups.len() as int) =~= all);
        },
        None => {
            assert(message_views(out@) =~= Seq::<MessageView>::empty());
        },
    }
    let total: usize = match natural(answer.get("total_results")) {
        Some(n) => #[verifier::truncate]
        (n as usize),
        None => 0,
    };
    let next: usize = match offset.checked_add(out.len()) {
        Some(n) => n,
        None => usize::MAX,
    };
    let has_more: bool = next < total;
    let next_cursor: Option<String> = if has_more {
        Some(glue("dc:", usize_to_string(next).as_str()))
    } else {
        None
    };
    Paginated { items: out, has_more, next_cursor }
}

/// The call that lists the channels of a guild, or the refusal of a guild
/// that cannot stand in a path.
pub fn list_guild_channels_call(guild_id: &str) -> (r: Result<HttpCall, AgentError>)
    ensures
        match r {
            Ok(c) => is_path_safe(guild_id@) && c@ == (HttpCallView {
                method: Method::Get,
                url: BASE_URL@ + ("/guilds/"@ + guild_id@ + "/channels"@),
                query: Seq::empty(),
                body: None,
            }),
            Err(e) => !is_path_safe(guild_id@) && e@ == invalid_id("guild_id"@),
        },
{
    match validate_id(guild_id, "guild_id") {
        Ok(_) => Ok(guild_channels_call(guild_id)),
        Err(e) => Err(e),
    }
}

/// The call that opens a thread: on a message where one is named, else in
/// the channel as a public thread that is archived after a day.
pub open spec fn create_thread_plan(
    channel: Seq<char>,
    name: Seq<char>,
    message_id: Option<Seq<char>>,
) -> Result<HttpCallView, (ErrorKind, Seq<char>)> {
    if !is_path_safe(channel) {
        Err(invalid_id("channel"@))
    } else {
        match message_id {
            Some(id) => if is_path_safe(id) {
                Ok(
                    HttpCallView {
                        method: Method::Post,
                        url: BASE_URL@ + ("/channels/"@ + channel + "/messages/"@ + id
                            + "/threads"@),
                        query: Seq::empty(),
                        body: Some(
                            JsonView::Object(Seq::empty()).with("name"@, JsonView::Str(name)),
                        ),
                    },
                )
            } else {
                Err(invalid_id("message_id"@))
            },
            None => Ok(
                HttpCallView {
                    method: Method::Post,
                    url: BASE_URL@ + ("/channels/"@ + channel + "/threads"@),
                    query: Seq::empty(),
                    body: Some(
                        JsonView::Object(Seq::empty()).with("name"@, JsonView::Str(name)).with(
                            "type"@,
                            JsonView::Int(11),
                        ).with("auto_archive_duration"@, JsonView::Int(1440)),
                    ),
                },
            ),
        }
    }
}

/// The call that opens a thread.
pub fn create_thread_call(channel: &str, name: &str, message_id: Option<&str>) -> (r: Result<
    HttpCall,
    AgentError,
>)
    ensures
        call_result(r) == create_thread_plan(channel@, name@, opt_str(message_id)),
{
    match validate_id(channel, "channel") {
        Ok(_) => {},
        Err(e) => {
            return Err(e);
        },
    }
    match message_id {
        Some(id) => {
            match validate_id(id, "message_id") {
                Ok(_) => {},
                Err(e) => {
                    return Err(e);
                },
            }
            let mut path = String::from_str("/channels/");
            path.append(channel);
            path.append("/messages/");
            path.append(id);
            path.append("/threads");
            Ok(post(path, Json::object().with("name", Json::string(name))))
        },
        None => Ok(
            post(
                glue3("/channels/", channel, "/threads"),
                Json::object().with("name", Json::string(name)).with("type", Json::Int(11)).with(
                    "auto_archive_duration",
                    Json::Int(1440),
                ),
            ),
        ),
    }
}

/// The path of the own reaction with an emoji to a message.
pub open spec fn reaction_path(channel: Seq<char>, message_id: Seq<char>, emoji: &str) -> Seq<char> {
    "/channels/"@ + channel + "/messages/"@ + message_id + "/reactions/"@ + percent_encoded(
        emoji.spec_bytes(),
    ) + "/@me"@
}

/// The call on a message of a channel that has no body, or the refusal of
/// a channel or a message that cannot stand in a path.
pub open spec fn message_plan(
    method: Method,
    channel: Seq<char>,
    message_id: Seq<char>,
    path: Seq<char>,
) -> Result<HttpCallView, (ErrorKind, Seq<char>)> {
    if !is_path_safe(channel) {
        Err(invalid_id("channel"@))
    } else if !is_path_safe(message_id) {
        Err(invalid_id("message_id"@))
    } else {
        Ok(HttpCallView { method, url: BASE_URL@ + path, query: Seq::empty(), body: None })
    }
}

fn reaction_call(method: Method, channel: &str, message_id: &str, emoji: &str) -> (r: Result<
    HttpCall,
    AgentError,
>)
    ensures
        call_result(r) == message_plan(
            method,
            channel@,
            message_id@,
            reaction_path(channel@, message_id@, emoji),
        ),
{
    match validate_id(channel, "channel") {
        Ok(_) => {},
        Err(e) => {
            return Err(e);
        },
    }
    match validate_id(message_id, "message_id") {
        Ok(_) => {},
        Err(e) => {
            return Err(e);
        },
    }
    let encoded = urlencoding(emoji);
    let mut path = String::from_str("/channels/");
    path.append(channel);
    path.append("/messages/");
    path.append(message_id);
    path.append("/reactions/");
    path.append(encoded.as_str());
    path.append("/@me");
    Ok(plain_call(method, glue(BASE_URL, path.as_str())))
}

/// The call that adds the own reaction to a message.
pub fn add_reaction_call(channel: &str, message_id: &str, emoji: &str) -> (r: Result<
    HttpCall,
    AgentError,
>)
    ensures
        call_result(r) == message_plan(
            Method::Put,
            channel@,
            message_id@,
            reaction_path(channel@, message_id@, emoji),
        ),
{
    reaction_call(Method::Put, channel, message_id, emoji)
}

/// The call that takes the own reaction from a message.
pub fn remove_reaction_call(channel: &str, message_id: &str, emoji: &str) -> (r: Result<
    HttpCall,
    AgentError,
>)
    ensures
        call_result(r) == message_plan(
            Method::Delete,
            channel@,
            message_id@,
            reaction_path(channel@, message_id@, emoji),
        ),
{
    reaction_call(Method::Delete, channel, message_id, emoji)
}

/// The call that pins a message.
pub fn pin_message_call(channel: &str, message_id: &str) -> (r: Result<HttpCall, AgentError>)
    ensures
        call_result(r) == message_plan(
            Method::Put,
            channel@,
            message_id@,
            "/channels/"@ + channel@ + "/pins/"@ + message_id@,
        ),
{
    match validate_id(channel, "channel") {
        Ok(_) => {},
        Err(e) => {
            return Err(e);
        },
    }
    match validate_id(message_id, "message_id") {
        Ok(_) => {},
        Err(e) => {
            return Err(e);
        },
    }
    let mut path = String::from_str("/channels/");
    path.append(channel);
    path.append("/pins/");
    path.append(message_id);
    Ok(plain_call(Method::Put, glue(BASE_URL, path.as_str())))
}

} // verus!
