//! Records as text for a reader who pays for every character: a compact
//! form, an expanded form that keeps texts whole, and the mark of the full
//! form, which the caller writes as JSON.

use crate::entities::{
    message_views, opt_text, platform_name, role_name, Channel, ChannelType, ChannelTypeView,
    ChannelView, ChatInfo, ChatInfoView, ChatMember, ChatMemberView, Message, MessageView,
    PageView, Paginated, Platform, Profile, ProfileView, Reaction, ReactionView, member_views,
    page_view,
};
use crate::json::{opt_str, rendered, Json, JsonView};
use crate::text::{
    clean_text, glue, decimal, i64_to_string, join, joined, one_line, push_decimal, shortened,
    str_eq, truncate, usize_to_string, views,
};
use vstd::prelude::*;

verus! {

/// How much of a record is shown.
#[derive(Debug, Clone, Copy, PartialEq, Eq, Structural)]
pub enum Format {
    /// One line per record, long texts cut.
    Compact,
    /// One line per record, texts whole.
    Expanded,
    /// The record as JSON.
    Full,
}

/// The format that a word asks for: `full`, `expanded`, or else compact.
pub open spec fn format_of(word: Option<Seq<char>>) -> Format {
    if word == Some("full"@) {
        Format::Full
    } else if word == Some("expanded"@) {
        Format::Expanded
    } else {
        Format::Compact
    }
}

impl Format {
    /// The format that a word asks for.
    pub fn parse(s: Option<&str>) -> (f: Format)
        ensures
            f == format_of(opt_str(s)),
    {
        match s {
            Some(word) => if str_eq(word, "full") {
                Format::Full
            } else if str_eq(word, "expanded") {
                Format::Expanded
            } else {
                Format::Compact
            },
            None => Format::Compact,
        }
    }
}

/// The month, day, hour and minute of a Unix time in UTC, in the form
/// `Jan 02 15:04`, as `chrono` writes a `DateTime` made by
/// `DateTime::from_timestamp` under the format `%b %d %H:%M`; `None` for a
/// time that `chrono` cannot represent.
pub uninterp spec fn utc_label(ts: i64) -> Option<Seq<char>>;

/// Calls `chrono::DateTime::from_timestamp` with no nanoseconds and writes
/// the result with `DateTime::format` under `%b %d %H:%M`. The contract
/// names the text and says that there is none exactly where `chrono` makes
/// no `DateTime`.
#[verifier::external_body]
fn utc_label_of(ts: i64) -> (r: Option<String>)
    ensures
        opt_text(r) == utc_label(ts),
{
    chrono::DateTime::from_timestamp(ts, 0).map(|dt| dt.format("%b %d %H:%M").to_string())
}

/// The text of a Unix time: its label in UTC, or the number itself where
/// it has none.
pub open spec fn timestamp_text(ts: i64) -> Seq<char> {
    match utc_label(ts) {
        Some(label) => label,
        None => decimal(ts as int),
    }
}

/// The text of a Unix time.
pub fn format_timestamp(ts: i64) -> (s: String)
    ensures
        s@ == timestamp_text(ts),
{
    match utc_label_of(ts) {
        Some(label) => label,
        None => i64_to_string(ts),
    }
}

/// The name of a sort of conversation.
pub open spec fn channel_type_name(t: ChannelTypeView) -> Seq<char> {
    match t {
        ChannelTypeView::Private => "private"@,
        ChannelTypeView::Group => "group"@,
        ChannelTypeView::Broadcast => "broadcast"@,
        ChannelTypeView::Thread => "thread"@,
        ChannelTypeView::Other(name) => name,
    }
}

/// The name of a sort of conversation.
pub fn format_channel_type(t: &ChannelType) -> (s: &str)
    ensures
        s@ == channel_type_name(t@),
{
    match t {
        ChannelType::Private => "private",
        ChannelType::Group => "group",
        ChannelType::Broadcast => "broadcast",
        ChannelType::Thread => "thread",
        ChannelType::Other(name) => name.as_str(),
    }
}

/// A text on one line, cut to `max` characters where `max` is not 0.
pub open spec fn fitted(s: Seq<char>, max: nat) -> Seq<char> {
    if max > 0 {
        shortened(s, max)
    } else {
        one_line(s)
    }
}

fn fit(s: &str, max: usize) -> (r: String)
    ensures
        r@ == fitted(s@, max as nat),
{
    if max > 0 {
        truncate(s, max)
    } else {
        clean_text(s)
    }
}

/// The line of a channel: name, sort, unread messages where there are any,
/// members where their number is known, and identifier.
pub open spec fn channel_line(c: ChannelView) -> Seq<char> {
    "  "@ + c.name + " ["@ + channel_type_name(c.channel_type) + "]"@ + (if c.unread_count > 0 {
        " "@ + decimal(c.unread_count as int) + " unread"@
    } else {
        Seq::empty()
    }) + (match c.member_count {
        Some(n) => " "@ + decimal(n as int) + "m"@,
        None => Seq::empty(),
    }) + " id:"@ + c.id
}

/// The line of a channel.
pub fn format_channel_line(c: &Channel) -> (s: String)
    ensures
        s@ == channel_line(c@),
{
    let mut s = String::from_str("  ");
    s.append(c.name.as_str());
    s.append(" [");
    s.append(format_channel_type(&c.channel_type));
    s.append("]");
    if c.unread_count > 0 {
        s.append(" ");
        push_decimal(&mut s, c.unread_count as i64);
        s.append(" unread");
    }
    match c.member_count {
        Some(n) => {
            s.append(" ");
            push_decimal(&mut s, n as i64);
            s.append("m");
        },
        None => {
        },
    }
    s.append(" id:");
    s.append(c.id.as_str());
    s
}

/// The label of a reaction: the emoji, and its count where it is more than
/// one.
pub open spec fn reaction_label(r: ReactionView) -> Seq<char> {
    if r.count > 1 {
        r.emoji + "x"@ + decimal(r.count as int)
    } else {
        r.emoji
    }
}

/// The labels of reactions, one after another.
pub open spec fn reaction_labels(rs: Seq<ReactionView>) -> Seq<char>
    decreases rs.len(),
{
    if rs.len() == 0 {
        Seq::empty()
    } else {
        reaction_labels(rs.drop_last()) + reaction_label(rs.last())
    }
}

/// The mark of the subject of a mail, cut to 60 characters where texts
/// are cut at all.
pub open spec fn subject_mark(m: MessageView, max_text: nat) -> Seq<char> {
    match m.meta.subject {
        Some(subject) => " subj:"@ + (if max_text > 0 {
            shortened(subject, 60)
        } else {
            one_line(subject)
        }),
        None => Seq::empty(),
    }
}

/// The mark of a pinned message.
pub open spec fn pinned_mark(m: MessageView) -> Seq<char> {
    if m.meta.is_pinned == Some(true) {
        " pinned"@
    } else {
        Seq::empty()
    }
}

/// The mark of the views of a message.
pub open spec fn views_mark(m: MessageView) -> Seq<char> {
    match m.meta.views {
        Some(n) => " "@ + decimal(n as int) + "views"@,
        None => Seq::empty(),
    }
}

/// The mark of an edited message.
pub open spec fn edited_mark(m: MessageView) -> Seq<char> {
    if m.meta.edit_date is Some {
        " edited"@
    } else {
        Seq::empty()
    }
}

/// The mark of the reactions to a message.
pub open spec fn reactions_mark(m: MessageView) -> Seq<char> {
    match m.meta.reactions {
        Some(rs) => if rs.len() > 0 {
            " ["@ + reaction_labels(rs) + "]"@
        } else {
            Seq::empty()
        },
        None => Seq::empty(),
    }
}

/// What a message line says beyond text, attachment and reply. Mail shows
/// its subject; every other message shows whether it is pinned, its views,
/// whether it was edited, and its reactions.
pub open spec fn message_extras(m: MessageView, max_text: nat) -> Seq<char> {
    if m.platform == Platform::Gmail {
        subject_mark(m, max_text)
    } else {
        pinned_mark(m) + views_mark(m) + edited_mark(m) + reactions_mark(m)
    }
}

/// The line of a message: time, sender, text on one line and cut to
/// `max_text` characters where that is not 0, the marks of an attachment
/// and of a reply, the extras, and the identifier.
pub open spec fn message_line(m: MessageView, max_text: nat) -> Seq<char> {
    "  ["@ + timestamp_text(m.timestamp) + "] "@ + m.sender + ": "@ + fitted(m.text, max_text) + (
    if m.has_attachment {
        " +attach"@
    } else {
        Seq::empty()
    }) + (match m.reply_to {
        Some(r) => " reply:"@ + r,
        None => Seq::empty(),
    }) + message_extras(m, max_text) + " (id:"@ + m.id + ")"@
}

fn push_reaction_labels(s: &mut String, rs: &Vec<Reaction>)
    ensures
        final(s)@ == old(s)@ + reaction_labels(crate::entities::reaction_views(rs@)),
{
    let ghost all = crate::entities::reaction_views(rs@);
    let ghost start = s@;
    let mut i: usize = 0;
    assert(start + reaction_labels(all.take(0)) =~= start);
    while i < rs.len()
        invariant
            i <= rs.len(),
            all == crate::entities::reaction_views(rs@),
            s@ == start + reaction_labels(all.take(i as int)),
        decreases rs.len() - i,
    {
        proof {
            assert(all.take(i + 1).drop_last() =~= all.take(i as int));
        }
        s.append(rs[i].emoji.as_str());
        if rs[i].count > 1 {
            s.append("x");
            push_decimal(s, rs[i].count as i64);
        }
        assert(s@ =~= start + (reaction_labels(all.take(i as int)) + reaction_label(
            rs@[i as int]@,
        )));
        i += 1;
    }
    assert(all.take(rs.len() as int) =~= all);
}

fn push_subject_mark(s: &mut String, m: &Message, max_text: usize)
    ensures
        final(s)@ == old(s)@ + subject_mark(m@, max_text as nat),
{
    match &m.meta.subject {
        Some(subject) => {
            let shown = if max_text > 0 {
                truncate(subject.as_str(), 60)
            } else {
                clean_text(subject.as_str())
            };
            s.append(" subj:");
            s.append(shown.as_str());
        },
        None => {
        },
    }
}

fn push_pinned_mark(s: &mut String, m: &Message)
    ensures
        final(s)@ == old(s)@ + pinned_mark(m@),
{
    match m.meta.is_pinned {
        Some(true) => {
            s.append(" pinned");
        },
        _ => {
        },
    }
}

fn push_views_mark(s: &mut String, m: &Message)
    ensures
        final(s)@ == old(s)@ + views_mark(m@),
{
    match m.meta.views {
        Some(n) => {
            s.append(" ");
            push_decimal(s, n);
            s.append("views");
        },
        None => {
        },
    }
}

fn push_edited_mark(s: &mut String, m: &Message)
    ensures
        final(s)@ == old(s)@ + edited_mark(m@),
{
    if m.meta.edit_date.is_some() {
        s.append(" edited");
    }
}

fn push_reactions_mark(s: &mut String, m: &Message)
    ensures
        final(s)@ == old(s)@ + reactions_mark(m@),
{
    match &m.meta.reactions {
        Some(rs) => {
            if rs.len() > 0 {
                s.append(" [");
                push_reaction_labels(s, rs);
                s.append("]");
                assert(s@ =~= old(s)@ + (" ["@ + reaction_labels(
                    crate::entities::reaction_views(rs@),
                ) + "]"@));
            }
        },
        None => {
        },
    }
}

fn push_message_extras(s: &mut String, m: &Message, max_text: usize)
    ensures
        final(s)@ == old(s)@ + message_extras(m@, max_text as nat),
{
    match m.platform {
        Platform::Gmail => {
            push_subject_mark(s, m, max_text);
        },
        _ => {
            push_pinned_mark(s, m);
            push_views_mark(s, m);
            push_edited_mark(s, m);
            push_reactions_mark(s, m);
            assert(s@ =~= old(s)@ + (pinned_mark(m@) + views_mark(m@) + edited_mark(m@)
                + reactions_mark(m@)));
        },
    }
}

/// The line of a message.
pub fn format_message_line(m: &Message, max_text: usize) -> (s: String)
    ensures
        s@ == message_line(m@, max_text as nat),
{
    let ts = format_timestamp(m.timestamp);
    let shown = fit(m.text.as_str(), max_text);
    let mut s = String::from_str("  [");
    s.append(ts.as_str());
    s.append("] ");
    s.append(m.sender.as_str());
    s.append(": ");
    s.append(shown.as_str());
    if m.has_attachment {
        s.append(" +attach");
    }
    match &m.reply_to {
        Some(r) => {
            s.append(" reply:");
            s.append(r.as_str());
        },
        None => {
        },
    }
    push_message_extras(&mut s, m, max_text);
    s.append(" (id:");
    s.append(m.id.as_str());
    s.append(")");
    s
}

/// The lines of the records, each made by `line`.
pub open spec fn lines_of<T>(items: Seq<T>, line: spec_fn(T) -> Seq<char>) -> Seq<Seq<char>> {
    Seq::new(items.len(), |i: int| line(items[i]))
}

/// A listing: the number of records and their name, then one line for
/// each, every line on its own.
pub open spec fn listing(count: nat, what: Seq<char>, lines: Seq<Seq<char>>) -> Seq<char> {
    joined(seq![decimal(count as int) + " "@ + what + ":"@] + lines, "\n"@)
}

fn heading(count: usize, what: &str) -> (s: String)
    ensures
        s@ == decimal(count as int) + " "@ + what@ + ":"@,
{
    let mut s = usize_to_string(count);
    s.append(" ");
    s.append(what);
    s.append(":");
    s
}

/// The channels as a listing of their lines.
pub open spec fn channels_text(channels: Seq<ChannelView>) -> Seq<char> {
    listing(channels.len(), "channels"@, lines_of(channels, |c: ChannelView| channel_line(c)))
}

/// The views of a sequence of channels.
pub open spec fn channel_views(v: Seq<Channel>) -> Seq<ChannelView> {
    Seq::new(v.len(), |i: int| v[i]@)
}

/// The channels as text; `None` for the full format, in which the caller
/// writes them as JSON.
pub fn format_channels(channels: &Vec<Channel>, fmt: Format) -> (r: Option<String>)
    ensures
        opt_text(r) == if fmt == Format::Full {
            None
        } else {
            Some(channels_text(channel_views(channels@)))
        },
{
    if let Format::Full = fmt {
        return None;
    }
    let ghost all = channel_views(channels@);
    let mut lines: Vec<String> = Vec::new();
    let mut i: usize = 0;
    while i < channels.len()
        invariant
            i <= channels.len(),
            all == channel_views(channels@),
            views(lines@) == lines_of(all, |c: ChannelView| channel_line(c)).take(i as int),
        decreases channels.len() - i,
    {
        let line = format_channel_line(&channels[i]);
        let ghost before = views(lines@);
        lines.push(line);
        assert(views(lines@) =~= before.push(channel_line(all[i as int])));
        i += 1;
    }
    assert(lines_of(all, |c: ChannelView| channel_line(c)).take(channels.len() as int)
        =~= lines_of(all, |c: ChannelView| channel_line(c)));
    Some(finish_listing(channels.len(), "channels", &lines))
}

fn finish_listing(count: usize, what: &str, lines: &Vec<String>) -> (s: String)
    ensures
        s@ == listing(count as nat, what@, views(lines@)),
{
    let mut all: Vec<String> = Vec::new();
    all.push(heading(count, what));
    let ghost head = seq![decimal(count as int) + " "@ + what@ + ":"@];
    let mut i: usize = 0;
    while i < lines.len()
        invariant
            i <= lines.len(),
            views(all@) == head + views(lines@).take(i as int),
        decreases lines.len() - i,
    {
        let ghost before = views(all@);
        all.push(lines[i].clone());
        assert(views(all@) =~= before.push(lines@[i as int]@));
        i += 1;
    }
    assert(views(lines@).take(lines.len() as int) =~= views(lines@));
    join(&all, "\n")
}

/// The lines of messages.
pub open spec fn message_lines(messages: Seq<MessageView>, max_text: nat) -> Seq<Seq<char>> {
    lines_of(messages, |m: MessageView| message_line(m, max_text))
}

/// How long the text of a message may be in a format: 200 characters in
/// the compact format, any length in the others.
pub open spec fn text_limit(fmt: Format) -> nat {
    if fmt == Format::Compact {
        200
    } else {
        0
    }
}

fn limit_of(fmt: Format) -> (max: usize)
    ensures
        max == text_limit(fmt),
{
    match fmt {
        Format::Compact => 200,
        _ => 0,
    }
}

fn lines_of_messages(messages: &Vec<Message>, max_text: usize) -> (lines: Vec<String>)
    ensures
        views(lines@) == message_lines(message_views(messages@), max_text as nat),
{
    let ghost all = message_views(messages@);
    let mut lines: Vec<String> = Vec::new();
    let mut i: usize = 0;
    while i < messages.len()
        invariant
            i <= messages.len(),
            all == message_views(messages@),
            views(lines@) == message_lines(all, max_text as nat).take(i as int),
        decreases messages.len() - i,
    {
        let line = format_message_line(&messages[i], max_text);
        let ghost before = views(lines@);
        lines.push(line);
        assert(views(lines@) =~= before.push(message_line(all[i as int], max_text as nat)));
        i += 1;
    }
    assert(message_lines(all, max_text as nat).take(messages.len() as int) =~= message_lines(
        all,
        max_text as nat,
    ));
    lines
}

/// The messages as a listing of their lines.
pub open spec fn messages_text(messages: Seq<MessageView>, fmt: Format) -> Seq<char> {
    listing(messages.len(), "messages"@, message_lines(messages, text_limit(fmt)))
}

/// The messages as text; `None` for the full format, in which the caller
/// writes them as JSON.
pub fn format_messages(messages: &Vec<Message>, fmt: Format) -> (r: Option<String>)
    ensures
        opt_text(r) == if fmt == Format::Full {
            None
        } else {
            Some(messages_text(message_views(messages@), fmt))
        },
{
    match fmt {
        Format::Full => None,
        _ => {
            let lines = lines_of_messages(messages, limit_of(fmt));
            Some(finish_listing(messages.len(), "messages", &lines))
        },
    }
}

/// The line that tells where more results are to be had.
pub open spec fn more_line(cursor: Seq<char>) -> Seq<char> {
    "  ... more available (cursor: "@ + cursor + ")"@
}

/// A page as a listing of the lines of its messages, with the line that
/// tells where more are to be had where the page has more and a cursor.
pub open spec fn page_text(page: PageView, fmt: Format) -> Seq<char> {
    listing(
        page.items.len(),
        "messages"@,
        message_lines(page.items, text_limit(fmt)) + (match page.next_cursor {
            Some(cursor) => if page.has_more {
                seq![more_line(cursor)]
            } else {
                Seq::empty()
            },
            None => Seq::empty(),
        }),
    )
}

/// A page as text; `None` for the full format, in which the caller writes
/// it as JSON.
pub fn format_paginated(result: &Paginated<Message>, fmt: Format) -> (r: Option<String>)
    ensures
        opt_text(r) == if fmt == Format::Full {
            None
        } else {
            Some(page_text(page_view(*result), fmt))
        },
{
    match fmt {
        Format::Full => None,
        _ => {
            let mut lines = lines_of_messages(&result.items, limit_of(fmt));
            let ghost plain = views(lines@);
            match &result.next_cursor {
                Some(cursor) => {
                    if result.has_more {
                        let mut more = String::from_str("  ... more available (cursor: ");
                        more.append(cursor.as_str());
                        more.append(")");
                        lines.push(more);
                        assert(views(lines@) =~= plain + seq![more_line(cursor@)]);
                    }
                },
                None => {
                },
            }
            Some(finish_listing(result.items.len(), "messages", &lines))
        },
    }
}

/// One message as text: its line, with the text cut to 200 characters in
/// the compact format; `None` for the full format.
pub fn format_message(msg: &Message, fmt: Format) -> (r: Option<String>)
    ensures
        opt_text(r) == if fmt == Format::Full {
            None
        } else {
            Some(message_line(msg@, text_limit(fmt)))
        },
{
    match fmt {
        Format::Compact => Some(format_message_line(msg, 200)),
        Format::Expanded => Some(format_message_line(msg, 0)),
        Format::Full => None,
    }
}

/// One part where the text is there, none where it is not.
pub open spec fn part_if(o: Option<Seq<char>>) -> Seq<Seq<char>> {
    match o {
        Some(s) => seq![s],
        None => Seq::empty(),
    }
}

/// A profile on one line: name, username, identifier, mail address, phone
/// number and platform, with blanks between them.
pub open spec fn profile_text(p: ProfileView) -> Seq<char> {
    joined(
        seq![p.name] + part_if(
            match p.username {
                Some(u) => Some("(@"@ + u + ")"@),
                None => None,
            },
        ) + seq!["id:"@ + p.id] + part_if(p.email) + part_if(
            match p.phone {
                Some(n) => Some("+"@ + n),
                None => None,
            },
        ) + seq!["["@ + platform_name(p.platform) + "]"@],
        " "@,
    )
}

/// A profile as text; `None` for the full format, in which the caller
/// writes it as JSON.
pub fn format_profile(profile: &Profile, fmt: Format) -> (r: Option<String>)
    ensures
        opt_text(r) == if fmt == Format::Full {
            None
        } else {
            Some(profile_text(profile@))
        },
{
    match fmt {
        Format::Full => None,
        _ => {
            let mut parts: Vec<String> = Vec::new();
            parts.push(profile.name.clone());
            let ghost p = profile@;
            let ghost s1 = seq![p.name];
            let ghost s2 = s1 + part_if(
                match p.username {
                    Some(u) => Some("(@"@ + u + ")"@),
                    None => None,
                },
            );
            match &profile.username {
                Some(u) => {
                    let mut part = String::from_str("(@");
                    part.append(u.as_str());
                    part.append(")");
                    parts.push(part);
                },
                None => {},
            }
            parts.push(glue("id:", profile.id.as_str()));
            let ghost s3 = s2 + seq!["id:"@ + p.id];
            match &profile.email {
                Some(e) => {
                    parts.push(e.clone());
                },
                None => {},
            }
            let ghost s4 = s3 + part_if(p.email);
            match &profile.phone {
                Some(n) => {
                    parts.push(glue("+", n.as_str()));
                },
                None => {},
            }
            let ghost s5 = s4 + part_if(
                match p.phone {
                    Some(n) => Some("+"@ + n),
                    None => None,
                },
            );
            let mut last = String::from_str("[");
            last.append(profile.platform.name());
            last.append("]");
            parts.push(last);
            assert(views(parts@) =~= s5 + seq!["["@ + platform_name(p.platform) + "]"@]);
            Some(join(&parts, " "))
        },
    }
}

/// The description of a chat as it is shown: on one line, and cut to 100
/// characters but in the expanded format.
pub open spec fn shown_description(description: Seq<char>, fmt: Format) -> Seq<char> {
    if fmt == Format::Expanded {
        one_line(description)
    } else {
        shortened(description, 100)
    }
}

/// The details of a chat on one line: name and sort, members, unread
/// messages where there are any, the description where it is not empty,
/// the marks of a verified chat and of a scam, the invite link, and the
/// identifier, with bars between them.
pub open spec fn chat_info_text(info: ChatInfoView, fmt: Format) -> Seq<char> {
    joined(
        seq![
            info.name + " ["@ + channel_type_name(info.channel_type) + "]"@,
            "members:"@ + decimal(info.member_count as int),
        ] + part_if(
            if info.unread_count > 0 {
                Some("unread:"@ + decimal(info.unread_count as int))
            } else {
                None
            },
        ) + part_if(
            match info.description {
                Some(d) => if d.len() > 0 {
                    Some("desc:"@ + shown_description(d, fmt))
                } else {
                    None
                },
                None => None,
            },
        ) + part_if(
            if info.is_verified {
                Some("verified"@)
            } else {
                None
            },
        ) + part_if(
            if info.is_scam {
                Some("SCAM"@)
            } else {
                None
            },
        ) + part_if(
            match info.invite_link {
                Some(link) => Some("link:"@ + link),
                None => None,
            },
        ) + seq!["id:"@ + info.id],
        " | "@,
    )
}

/// The details of a chat as text; `None` for the full format, in which the
/// caller writes them as JSON.
pub fn format_chat_info(info: &ChatInfo, fmt: Format) -> (r: Option<String>)
    ensures
        opt_text(r) == if fmt == Format::Full {
            None
        } else {
            Some(chat_info_text(info@, fmt))
        },
{
    if let Format::Full = fmt {
        return None;
    }
    let ghost v = info@;
    let mut parts: Vec<String> = Vec::new();
    let mut first = String::from_str(info.name.as_str());
    first.append(" [");
    first.append(format_channel_type(&info.channel_type));
    first.append("]");
    parts.push(first);
    let mut second = String::from_str("members:");
    push_decimal(&mut second, info.member_count as i64);
    parts.push(second);
    let ghost s1 = seq![
        v.name + " ["@ + channel_type_name(v.channel_type) + "]"@,
        "members:"@ + decimal(v.member_count as int),
    ];
    if info.unread_count > 0 {
        let mut part = String::from_str("unread:");
        push_decimal(&mut part, info.unread_count as i64);
        parts.push(part);
    }
    let ghost s2 = s1 + part_if(
        if v.unread_count > 0 {
            Some("unread:"@ + decimal(v.unread_count as int))
        } else {
            None
        },
    );
    match &info.description {
        Some(d) => {
            if d.as_str().unicode_len() > 0 {
                let shown = match fmt {
                    Format::Expanded => clean_text(d.as_str()),
                    _ => truncate(d.as_str(), 100),
                };
                parts.push(glue("desc:", shown.as_str()));
            }
        },
        None => {},
    }
    let ghost s3 = s2 + part_if(
        match v.description {
            Some(d) => if d.len() > 0 {
                Some("desc:"@ + shown_description(d, fmt))
            } else {
                None
            },
            None => None,
        },
    );
    if info.is_verified {
        parts.push(String::from_str("verified"));
    }
    let ghost s4 = s3 + part_if(
        if v.is_verified {
            Some("verified"@)
        } else {
            None
        },
    );
    if info.is_scam {
        parts.push(String::from_str("SCAM"));
    }
    let ghost s5 = s4 + part_if(
        if v.is_scam {
            Some("SCAM"@)
        } else {
            None
        },
    );
    assert(views(parts@) =~= s5);
    match &info.invite_link {
        Some(link) => {
            parts.push(glue("link:", link.as_str()));
        },
        None => {},
    }
    let ghost s6 = s5 + part_if(
        match v.invite_link {
            Some(link) => Some("link:"@ + link),
            None => None,
        },
    );
    parts.push(glue("id:", info.id.as_str()));
    assert(views(parts@) =~= s6 + seq!["id:"@ + v.id]);
    Some(join(&parts, " | "))
}

/// The line of a member: name, username where there is one, role and
/// identifier.
pub open spec fn member_line(m: ChatMemberView) -> Seq<char> {
    "  "@ + m.name + (match m.username {
        Some(u) => " (@"@ + u + ")"@,
        None => Seq::empty(),
    }) + " ["@ + role_name(m.role) + "] id:"@ + m.user_id
}

/// The members as a listing of their lines.
pub open spec fn members_text(members: Seq<ChatMemberView>) -> Seq<char> {
    listing(members.len(), "members"@, lines_of(members, |m: ChatMemberView| member_line(m)))
}

fn format_member_line(m: &ChatMember) -> (s: String)
    ensures
        s@ == member_line(m@),
{
    let mut s = String::from_str("  ");
    s.append(m.name.as_str());
    match &m.username {
        Some(u) => {
            s.append(" (@");
            s.append(u.as_str());
            s.append(")");
        },
        None => {
        },
    }
    s.append(" [");
    s.append(m.role.name());
    s.append("] id:");
    s.append(m.user_id.as_str());
    s
}

/// The members as text; `None` for the full format, in which the caller
/// writes them as JSON.
pub fn format_members(members: &Vec<ChatMember>, fmt: Format) -> (r: Option<String>)
    ensures
        opt_text(r) == if fmt == Format::Full {
            None
        } else {
            Some(members_text(member_views(members@)))
        },
{
    if let Format::Full = fmt {
        return None;
    }
    let ghost all = member_views(members@);
    let mut lines: Vec<String> = Vec::new();
    let mut i: usize = 0;
    while i < members.len()
        invariant
            i <= members.len(),
            all == member_views(members@),
            views(lines@) == lines_of(all, |m: ChatMemberView| member_line(m)).take(i as int),
        decreases members.len() - i,
    {
        let line = format_member_line(&members[i]);
        let ghost before = views(lines@);
        lines.push(line);
        assert(views(lines@) =~= before.push(member_line(all[i as int])));
        i += 1;
    }
    assert(lines_of(all, |m: ChatMemberView| member_line(m)).take(members.len() as int)
        =~= lines_of(all, |m: ChatMemberView| member_line(m)));
    Some(finish_listing(members.len(), "members", &lines))
}

/// The labels as a listing, each on a line of its own behind two blanks.
pub open spec fn labels_text(labels: Seq<Seq<char>>) -> Seq<char> {
    listing(labels.len(), "labels"@, lines_of(labels, |l: Seq<char>| "  "@ + l))
}

/// The labels as a JSON array of strings.
pub open spec fn labels_json(labels: Seq<Seq<char>>) -> JsonView {
    JsonView::Array(Seq::new(labels.len(), |i: int| JsonView::Str(labels[i])))
}

/// The labels as text: a listing in the compact and the expanded format,
/// the text of a JSON array of strings in the full format. Where the
/// array has no text, the result says so, starting with
/// `serialization error: `.
pub fn format_labels(labels: &Vec<String>, fmt: Format) -> (r: String)
    ensures
        fmt != Format::Full ==> r@ == labels_text(views(labels@)),
        fmt == Format::Full ==> match rendered(labels_json(views(labels@))) {
            Some(t) => r@ == t,
            None => "serialization error: "@.is_prefix_of(r@),
        },
{
    if let Format::Full = fmt {
        let array = Json::string_array(labels);
        assert(array@->Array_0 =~= labels_json(views(labels@))->Array_0);
        return match array.render() {
            Ok(t) => t,
            Err(e) => glue("serialization error: ", e.detail()),
        };
    }
    let ghost all = views(labels@);
    let mut lines: Vec<String> = Vec::new();
    let mut i: usize = 0;
    while i < labels.len()
        invariant
            i <= labels.len(),
            all == views(labels@),
            views(lines@) == lines_of(all, |l: Seq<char>| "  "@ + l).take(i as int),
        decreases labels.len() - i,
    {
        let line = glue("  ", labels[i].as_str());
        let ghost before = views(lines@);
        lines.push(line);
        assert(views(lines@) =~= before.push("  "@ + all[i as int]));
        i += 1;
    }
    assert(lines_of(all, |l: Seq<char>| "  "@ + l).take(labels.len() as int) =~= lines_of(
        all,
        |l: Seq<char>| "  "@ + l,
    ));
    finish_listing(labels.len(), "labels", &lines)
}

} // verus!
