//! The mail backend: what is asked of the mail store and of the mail
//! relay, and what the letters that come back mean.

use crate::entities::{
    message_views, opt_text, opt_texts, Channel, ChannelType, ChannelTypeView, ChannelView,
    Message, MessageMeta, MessageMetaView, MessageView, PageView, Paginated, Platform, Profile,
    ProfileView, page_view,
};
use crate::error::{AgentError, ErrorKind};
use crate::json::{opt_str, text_or_default};
use crate::text::{
    after_prefix, base_name, chars_of, contains_parent_dir, decimal, extension, extension_of,
    file_name, glue, glue3, has_parent_dir, join, joined, lowercase, parse_u32, parse_u32_spec,
    parse_usize, parse_usize_spec, push_decimal_nat, split, split_on, str_eq, str_to_lowercase,
    strip_prefix, trim, trimmed, views,
};
use vstd::prelude::*;

verus! {

#[verifier::external_type_specification]
#[verifier::external_body]
pub struct ExParsedMail<'a>(mailparse::ParsedMail<'a>);

/// What the adapter needs to know.
#[derive(Debug, Clone)]
pub struct GmailConfig {
    pub email: String,
    pub app_password: String,
}

/// One address of an envelope, as the mail store gives it.
#[derive(Debug, Clone)]
pub struct MailAddress {
    pub name: Option<Vec<u8>>,
    pub mailbox: Option<Vec<u8>>,
    pub host: Option<Vec<u8>>,
}

/// The envelope of a letter, as the mail store gives it.
#[derive(Debug, Clone)]
pub struct Envelope {
    pub message_id: Option<Vec<u8>>,
    pub from: Option<Vec<MailAddress>>,
    pub subject: Option<Vec<u8>>,
    pub date: Option<Vec<u8>>,
    pub in_reply_to: Option<Vec<u8>>,
    pub cc: Option<Vec<MailAddress>>,
    pub bcc: Option<Vec<MailAddress>>,
}

/// One fetched letter.
#[derive(Debug, Clone)]
pub struct Fetched {
    pub uid: Option<u32>,
    pub envelope: Option<Envelope>,
    /// The letter as it was sent; empty where the store gave none.
    pub body: Vec<u8>,
}

/// One part of a letter, with what its headers say of it.
#[derive(Debug)]
pub struct MailPart {
    /// The first `Content-Type` header; empty where there is none.
    pub content_type: String,
    /// The first `Content-Disposition` header; empty where there is none.
    pub disposition: String,
    /// The `filename` of the disposition.
    pub disposition_filename: Option<String>,
    /// The `name` of the disposition.
    pub disposition_name: Option<String>,
    /// The `name` of the content type.
    pub content_name: Option<String>,
    /// The body as text, where it can be read as text.
    pub body: Option<String>,
    /// The body as bytes, where it can be decoded.
    pub raw: Option<Vec<u8>>,
    /// The parts of a letter in several parts.
    pub parts: Vec<MailPart>,
}

/// The text of bytes, with the replacement character for what is no UTF-8,
/// as `String::from_utf8_lossy` reads them.
pub uninterp spec fn lossy_text(bytes: Seq<u8>) -> Seq<char>;

/// The value of the header that a text starts with, decoded, as
/// `mailparse::parse_header` reads it and `MailHeader::get_value` gives
/// it; `None` for a text that starts with no header.
pub uninterp spec fn header_value(text: Seq<char>) -> Option<Seq<char>>;

/// The seconds since the epoch of a date of a mail header, as
/// `mailparse::dateparse` reads it; `None` for a text that it cannot read.
pub uninterp spec fn mail_date(text: Seq<char>) -> Option<i64>;

/// The parts of a letter, as `mailparse::parse_mail` finds them; `None`
/// for bytes that are no letter.
pub uninterp spec fn letter_of(raw: Seq<u8>) -> Option<MailPart>;

/// Calls `String::from_utf8_lossy`; the contract only names the result.
#[verifier::external_body]
fn utf8_lossy(bytes: &Vec<u8>) -> (r: String)
    ensures
        r@ == lossy_text(bytes@),
{
    String::from_utf8_lossy(bytes).to_string()
}

/// Calls `std::str::from_utf8`: the text where the bytes are UTF-8, which
/// then are the bytes of the text, and nothing where they are not.
#[verifier::external_body]
fn utf8_text(bytes: &Vec<u8>) -> (r: Option<String>)
    ensures
        match r {
            Some(s) => vstd::utf8::valid_utf8(bytes@) && vstd::utf8::encode_utf8(s@) == bytes@,
            None => !vstd::utf8::valid_utf8(bytes@),
        },
{
    std::str::from_utf8(bytes).ok().map(|s| s.to_string())
}

/// Calls `mailparse::parse_header` and takes the value of the header; the
/// contract names the value and says that there is none exactly where the
/// text is refused.
#[verifier::external_body]
fn parse_header_value(text: &str) -> (r: Option<String>)
    ensures
        opt_text(r) == header_value(text@),
{
    mailparse::parse_header(text.as_bytes()).ok().map(|(header, _)| header.get_value())
}

/// Calls `mailparse::dateparse`; the contract names the seconds and says
/// that there are none exactly where the text is refused.
#[verifier::external_body]
fn parse_date(text: &str) -> (r: Option<i64>)
    ensures
        r == mail_date(text@),
{
    mailparse::dateparse(text).ok()
}

/// Copies what the headers of a part of a letter say, the body of the
/// part as `get_body` and `get_body_raw` give it, and its parts, each
/// copied alike. Nothing is claimed of the result.
#[verifier::external_body]
fn part_of(p: &mailparse::ParsedMail<'_>) -> MailPart {
    let content_type = mailparse::MailHeaderMap::get_first_value(&p.get_headers(), "Content-Type");
    let named = mailparse::parse_content_disposition(content_type.as_deref().unwrap_or_default());
    let disposition = p.get_content_disposition();
    MailPart {
        content_type: content_type.unwrap_or_default(),
        disposition: mailparse::MailHeaderMap::get_first_value(&p.get_headers(), "Content-Disposition").unwrap_or_default(),
        disposition_filename: disposition.params.get("filename").cloned(),
        disposition_name: disposition.params.get("name").cloned(),
        content_name: named.params.get("name").cloned(),
        body: p.get_body().ok(),
        raw: p.get_body_raw().ok(),
        parts: p.subparts.iter().map(part_of).collect(),
    }
}

/// Calls `mailparse::parse_mail`; the contract names the letter found and
/// says that there is none exactly where the bytes are refused.
#[verifier::external_body]
fn parse_letter(raw: &Vec<u8>) -> (r: Option<MailPart>)
    ensures
        r == letter_of(raw@),
{
    mailparse::parse_mail(raw).ok().map(|p| part_of(&p))
}

/// Whether a text holds the mark of an encoded word, `=?`.
pub open spec fn has_encoded_word(t: Seq<char>) -> bool {
    exists|i: int| 0 <= i && i + 1 < t.len() && t[i] == '=' && #[trigger] t[i + 1] == '?'
}

fn contains_encoded_word(t: &str) -> (r: bool)
    ensures
        r == has_encoded_word(t@),
{
    let v = chars_of(t);
    if v.len() < 2 {
        return false;
    }
    let mut i: usize = 0;
    while i < v.len() - 1
        invariant
            v.len() >= 2,
            i <= v.len() - 1,
            v@ == t@,
            forall|k: int| 0 <= k < i ==> !(v@[k] == '=' && #[trigger] v@[k + 1] == '?'),
        decreases v.len() - i,
    {
        if v[i] == '=' && v[i + 1] == '?' {
            return true;
        }
        i += 1;
    }
    false
}

/// The text of a header field as the mail store gives it: its bytes as
/// text, and, where the text holds encoded words, the decoded value that it
/// has as a header, if it has one.
pub open spec fn decoded_field(raw: Seq<u8>) -> Seq<char> {
    let plain = lossy_text(raw);
    if has_encoded_word(plain) {
        match header_value("X: "@ + plain) {
            Some(v) => v,
            None => plain,
        }
    } else {
        plain
    }
}

/// The text of a header field as the mail store gives it.
pub fn decode_mime_str(raw: &Vec<u8>) -> (r: String)
    ensures
        r@ == decoded_field(raw@),
{
    let plain = utf8_lossy(raw);
    if !contains_encoded_word(plain.as_str()) {
        return plain;
    }
    let fake = glue("X: ", plain.as_str());
    match parse_header_value(fake.as_str()) {
        Some(v) => v,
        None => plain,
    }
}

/// The text of bytes that are UTF-8.
pub open spec fn utf8_of(bytes: Seq<u8>) -> Option<Seq<char>> {
    if vstd::utf8::valid_utf8(bytes) {
        Some(vstd::utf8::decode_utf8(bytes))
    } else {
        None
    }
}

/// The text of bytes that are UTF-8.
pub fn utf8(bytes: &Vec<u8>) -> (r: Option<String>)
    ensures
        opt_text(r) == utf8_of(bytes@),
{
    match utf8_text(bytes) {
        Some(s) => {
            proof {
                vstd::utf8::encode_utf8_decode_utf8(s@);
            }
            Some(s)
        },
        None => None,
    }
}

/// The text of bytes that may be absent: empty where there are none or
/// they are no UTF-8.
pub open spec fn utf8_or_empty(bytes: Option<Vec<u8>>) -> Seq<char> {
    match bytes {
        Some(b) => match utf8_of(b@) {
            Some(t) => t,
            None => Seq::empty(),
        },
        None => Seq::empty(),
    }
}

fn utf8_text_or_empty(bytes: &Option<Vec<u8>>) -> (r: String)
    ensures
        r@ == utf8_or_empty(*bytes),
{
    match bytes {
        Some(b) => match utf8(b) {
            Some(t) => t,
            None => String::new(),
        },
        None => String::new(),
    }
}

/// An address as it is shown: `name <mailbox@host>`, without the name or
/// the host where they are missing, the name alone where there is neither
/// mailbox nor host, and `unknown` where there is nothing.
pub open spec fn shown_address(addr: MailAddress) -> Seq<char> {
    let name = match addr.name {
        Some(n) => decoded_field(n@),
        None => Seq::empty(),
    };
    let mailbox = utf8_or_empty(addr.mailbox);
    let host = utf8_or_empty(addr.host);
    if mailbox.len() == 0 && host.len() == 0 {
        if name.len() == 0 {
            "unknown"@
        } else {
            name
        }
    } else {
        let email = if host.len() == 0 {
            mailbox
        } else {
            mailbox + "@"@ + host
        };
        if name.len() == 0 {
            email
        } else {
            name + " <"@ + email + ">"@
        }
    }
}

fn blank(s: &String) -> (r: bool)
    ensures
        r == (s@.len() == 0),
{
    s.as_str().unicode_len() == 0
}

/// An address as it is shown.
pub fn format_imap_addr(addr: &MailAddress) -> (r: String)
    ensures
        r@ == shown_address(*addr),
{
    let name: String = match &addr.name {
        Some(n) => decode_mime_str(n),
        None => String::new(),
    };
    let mailbox = utf8_text_or_empty(&addr.mailbox);
    let host = utf8_text_or_empty(&addr.host);
    if blank(&mailbox) && blank(&host) {
        return if blank(&name) {
            String::from_str("unknown")
        } else {
            name
        };
    }
    let email: String = if blank(&host) {
        mailbox
    } else {
        glue3(mailbox.as_str(), "@", host.as_str())
    };
    if blank(&name) {
        email
    } else {
        let mut r = name;
        r.append(" <");
        r.append(email.as_str());
        r.append(">");
        r
    }
}

/// The addresses of a list that may be absent, as they are shown.
pub open spec fn shown_addresses(addrs: Option<Vec<MailAddress>>) -> Seq<Seq<char>> {
    match addrs {
        Some(list) => Seq::new(list@.len(), |i: int| shown_address(list@[i])),
        None => Seq::empty(),
    }
}

/// The addresses of a list that may be absent, as they are shown.
pub fn addrs_to_vec(addrs: &Option<Vec<MailAddress>>) -> (r: Vec<String>)
    ensures
        views(r@) == shown_addresses(*addrs),
{
    let mut out: Vec<String> = Vec::new();
    match addrs {
        Some(list) => {
            let mut i: usize = 0;
            while i < list.len()
                invariant
                    i <= list.len(),
                    out.len() == i,
                    forall|k: int| 0 <= k < i ==> (#[trigger] out@[k])@ == shown_address(list@[k]),
                decreases list.len() - i,
            {
                out.push(format_imap_addr(&list[i]));
                i += 1;
            }
        },
        None => {
        },
    }
    out
}

/// The time of a letter in seconds since the epoch: that of its date
/// field; 0 where there is none, it is no UTF-8 or it cannot be read.
pub open spec fn letter_time(date: Option<Vec<u8>>) -> i64 {
    match date {
        Some(b) => match utf8_of(b@) {
            Some(t) => match mail_date(t) {
                Some(s) => s,
                None => 0,
            },
            None => 0,
        },
        None => 0,
    }
}

/// The time of a letter in seconds since the epoch.
pub fn parse_imap_date(date: &Option<Vec<u8>>) -> (r: i64)
    ensures
        r == letter_time(*date),
{
    match date {
        Some(b) => match utf8(b) {
            Some(t) => match parse_date(t.as_str()) {
                Some(s) => s,
                None => 0,
            },
            None => 0,
        },
        None => 0,
    }
}

/// What is left of a text once its tags are gone, together with whether
/// the text ends inside a tag: everything from a `<` to the next `>` is a
/// tag.
pub open spec fn untagged(html: Seq<char>) -> (Seq<char>, bool)
    decreases html.len(),
{
    if html.len() == 0 {
        (Seq::empty(), false)
    } else {
        let before = untagged(html.drop_last());
        let c = html.last();
        if c == '<' {
            (before.0, true)
        } else if c == '>' {
            (before.0, false)
        } else if before.1 {
            before
        } else {
            (before.0.push(c), false)
        }
    }
}

/// The lines that hold something once the whitespace around them is gone.
pub open spec fn filled_lines(lines: Seq<Seq<char>>) -> Seq<Seq<char>> {
    lines.filter_map(
        |line: Seq<char>|
            if trimmed(line).len() > 0 {
                Some(trimmed(line))
            } else {
                None
            },
    )
}

proof fn lemma_filled_lines_push(lines: Seq<Seq<char>>, line: Seq<char>)
    ensures
        filled_lines(lines.push(line)) == if trimmed(line).len() > 0 {
            filled_lines(lines).push(trimmed(line))
        } else {
            filled_lines(lines)
        },
{
    assert(lines.push(line).drop_last() =~= lines);
    if trimmed(line).len() > 0 {
        assert(filled_lines(lines) + seq![trimmed(line)] =~= filled_lines(lines).push(
            trimmed(line),
        ));
    }
}

/// A marked-up text as plain text: without its tags, and with its lines
/// trimmed and the empty ones dropped.
pub open spec fn plain_text(html: Seq<char>) -> Seq<char> {
    joined(filled_lines(split_on(untagged(html).0, '\n')), "\n"@)
}

/// A marked-up text as plain text.
pub fn strip_html(html: &str) -> (r: String)
    ensures
        r@ == plain_text(html@),
{
    let v = chars_of(html);
    let mut bare = String::new();
    let mut in_tag: bool = false;
    let mut i: usize = 0;
    while i < v.len()
        invariant
            i <= v.len(),
            v@ == html@,
            (bare@, in_tag) == untagged(html@.take(i as int)),
        decreases v.len() - i,
    {
        let c: char = v[i];
        proof {
            assert(html@.take(i + 1).drop_last() =~= html@.take(i as int));
        }
        if c == '<' {
            in_tag = true;
        } else if c == '>' {
            in_tag = false;
        } else if !in_tag {
            bare.push(c);
        }
        i += 1;
    }
    assert(html@.take(v.len() as int) =~= html@);
    let lines = split(bare.as_str(), '\n');
    let ghost all = views(lines@);
    let mut kept: Vec<String> = Vec::new();
    let mut k: usize = 0;
    while k < lines.len()
        invariant
            k <= lines.len(),
            all == views(lines@),
            views(kept@) == filled_lines(all.take(k as int)),
        decreases lines.len() - k,
    {
        proof {
            assert(all.take(k + 1) =~= all.take(k as int).push(lines@[k as int]@));
            lemma_filled_lines_push(all.take(k as int), lines@[k as int]@);
        }
        let t = trim(lines[k].as_str());
        if !blank(&t) {
            kept.push(t);
        }
        k += 1;
    }
    assert(all.take(lines.len() as int) =~= all);
    join(&kept, "\n")
}

/// The name under which a folder is shown.
pub open spec fn folder_display(name: Seq<char>) -> Seq<char> {
    if name == "INBOX"@ {
        "Inbox"@
    } else if name == "[Gmail]/All Mail"@ {
        "All Mail"@
    } else if name == "[Gmail]/Sent Mail"@ {
        "Sent"@
    } else if name == "[Gmail]/Drafts"@ {
        "Drafts"@
    } else if name == "[Gmail]/Spam"@ {
        "Spam"@
    } else if name == "[Gmail]/Trash"@ {
        "Trash"@
    } else if name == "[Gmail]/Starred"@ {
        "Starred"@
    } else if name == "[Gmail]/Important"@ {
        "Important"@
    } else {
        name
    }
}

/// The sort of a folder: the inbox is private, the folders of the store
/// itself are of the sort `system`, every other folder is a label.
pub open spec fn folder_type(name: Seq<char>) -> ChannelTypeView {
    if name == "INBOX"@ {
        ChannelTypeView::Private
    } else if "[Gmail]/"@.is_prefix_of(name) {
        ChannelTypeView::Other("system"@)
    } else {
        ChannelTypeView::Other("label"@)
    }
}

/// The channel that a folder is.
pub open spec fn folder_channel(name: Seq<char>) -> ChannelView {
    ChannelView {
        id: name,
        platform: Platform::Gmail,
        name: folder_display(name),
        channel_type: folder_type(name),
        unread_count: 0,
        description: None,
        member_count: None,
        last_message_date: None,
    }
}

/// The channel that a folder is.
pub fn folder_to_channel(name: &str) -> (c: Channel)
    ensures
        c@ == folder_channel(name@),
{
    let display: &str = if str_eq(name, "INBOX") {
        "Inbox"
    } else if str_eq(name, "[Gmail]/All Mail") {
        "All Mail"
    } else if str_eq(name, "[Gmail]/Sent Mail") {
        "Sent"
    } else if str_eq(name, "[Gmail]/Drafts") {
        "Drafts"
    } else if str_eq(name, "[Gmail]/Spam") {
        "Spam"
    } else if str_eq(name, "[Gmail]/Trash") {
        "Trash"
    } else if str_eq(name, "[Gmail]/Starred") {
        "Starred"
    } else if str_eq(name, "[Gmail]/Important") {
        "Important"
    } else {
        name
    };
    let channel_type = if str_eq(name, "INBOX") {
        ChannelType::Private
    } else if strip_prefix(name, "[Gmail]/").is_some() {
        ChannelType::Other(String::from_str("system"))
    } else {
        ChannelType::Other(String::from_str("label"))
    };
    Channel {
        id: String::from_str(name),
        platform: Platform::Gmail,
        name: String::from_str(display),
        channel_type,
        unread_count: 0,
        description: None,
        member_count: None,
        last_message_date: None,
    }
}

/// The type of the content of a file with the given extension in
/// lowercase; unknown bytes for every other extension.
pub open spec fn content_type_of_extension(ext: Seq<char>) -> Seq<char> {
    if ext == "pdf"@ {
        "application/pdf"@
    } else if ext == "png"@ {
        "image/png"@
    } else if ext == "jpg"@ || ext == "jpeg"@ {
        "image/jpeg"@
    } else if ext == "gif"@ {
        "image/gif"@
    } else if ext == "zip"@ {
        "application/zip"@
    } else if ext == "doc"@ || ext == "docx"@ {
        "application/msword"@
    } else if ext == "txt"@ {
        "text/plain"@
    } else if ext == "csv"@ {
        "text/csv"@
    } else {
        "application/octet-stream"@
    }
}

/// The type of the content of a file, by the extension of its name in any
/// letter case.
pub fn guess_content_type(path: &str) -> (mime: &'static str)
    ensures
        mime@ == content_type_of_extension(
            lowercase(text_or_default(extension_of(path@), Seq::empty())),
        ),
{
    let ext: String = match extension(path) {
        Some(e) => e,
        None => String::new(),
    };
    let lower = str_to_lowercase(ext.as_str());
    let e: &str = lower.as_str();
    if str_eq(e, "pdf") {
        "application/pdf"
    } else if str_eq(e, "png") {
        "image/png"
    } else if str_eq(e, "jpg") || str_eq(e, "jpeg") {
        "image/jpeg"
    } else if str_eq(e, "gif") {
        "image/gif"
    } else if str_eq(e, "zip") {
        "application/zip"
    } else if str_eq(e, "doc") || str_eq(e, "docx") {
        "application/msword"
    } else if str_eq(e, "txt") {
        "text/plain"
    } else if str_eq(e, "csv") {
        "text/csv"
    } else {
        "application/octet-stream"
    }
}

/// The numbers in decimal, with commas between them.
pub open spec fn number_list(uids: Seq<u32>) -> Seq<char> {
    joined(Seq::new(uids.len(), |i: int| decimal(uids[i] as int)), ","@)
}

/// The numbers in decimal, with commas between them.
pub fn uid_str(uids: &Vec<u32>) -> (r: String)
    ensures
        r@ == number_list(uids@),
{
    let mut parts: Vec<String> = Vec::new();
    let mut i: usize = 0;
    while i < uids.len()
        invariant
            i <= uids.len(),
            parts.len() == i,
            forall|k: int| 0 <= k < i ==> (#[trigger] parts@[k])@ == decimal(uids@[k] as int),
        decreases uids.len() - i,
    {
        let mut s = String::new();
        push_decimal_nat(&mut s, uids[i] as u64);
        assert(Seq::<char>::empty() + decimal(uids@[i as int] as int) =~= decimal(
            uids@[i as int] as int,
        ));
        parts.push(s);
        i += 1;
    }
    assert(views(parts@) =~= Seq::new(uids@.len(), |i: int| decimal(uids@[i] as int)));
    join(&parts, ",")
}

/// The query that finds a letter by its identifier.
pub fn message_id_query(message_id: &str) -> (q: String)
    ensures
        q@ == "HEADER Message-ID \""@ + message_id@ + "\""@,
{
    glue3("HEADER Message-ID \"", message_id, "\"")
}

/// The failure of a search by identifier that found nothing.
pub fn message_not_found(message_id: &str) -> (e: AgentError)
    ensures
        e@ == (ErrorKind::NotFound, "message not found: "@ + message_id@),
{
    AgentError::NotFound(glue("message not found: ", message_id))
}

/// The numbers of the letters that a search by identifier found, or the
/// failure where it found none.
pub fn imap_find_message(found: Vec<u32>, message_id: &str) -> (r: Result<Vec<u32>, AgentError>)
    ensures
        match r {
            Ok(uids) => found@.len() > 0 && uids == found,
            Err(e) => found@.len() == 0 && e@ == (
                ErrorKind::NotFound,
                "message not found: "@ + message_id@,
            ),
        },
{
    if found.len() == 0 {
        Err(message_not_found(message_id))
    } else {
        Ok(found)
    }
}

/// The body of the first part without parts of its own whose content type
/// starts with the target, looked for from the first part to the last and
/// into the depth first. A part that fits but has no body that reads as
/// text counts as no part.
pub open spec fn text_part(part: MailPart, target: Seq<char>) -> Option<Seq<char>>
    decreases part, 0nat,
{
    if part.parts@.len() == 0 {
        if target.is_prefix_of(part.content_type@) {
            opt_text(part.body)
        } else {
            None
        }
    } else {
        text_among(part.parts@, target, 0)
    }
}

/// The text that `text_part` finds in the parts from the given one on.
pub open spec fn text_among(parts: Seq<MailPart>, target: Seq<char>, from: nat) -> Option<
    Seq<char>,
>
    decreases parts, parts.len() - from,
{
    if from >= parts.len() {
        None
    } else {
        match text_part(parts[from as int], target) {
            Some(t) => Some(t),
            None => text_among(parts, target, from + 1),
        }
    }
}

fn starts_with(s: &str, prefix: &str) -> (r: bool)
    ensures
        r == prefix@.is_prefix_of(s@),
{
    strip_prefix(s, prefix).is_some()
}

/// The body of the first part whose content type starts with the target.
pub fn find_text_part(part: &MailPart, target: &str) -> (r: Option<String>)
    ensures
        opt_text(r) == text_part(*part, target@),
    decreases part,
{
    if part.parts.len() == 0 {
        if starts_with(part.content_type.as_str(), target) {
            return part.body.clone();
        }
        return None;
    }
    let mut i: usize = 0;
    while i < part.parts.len()
        invariant
            i <= part.parts.len(),
            part.parts.len() > 0,
            text_part(*part, target@) == text_among(part.parts@, target@, i as nat),
        decreases part.parts.len() - i,
    {
        match find_text_part(&part.parts[i], target) {
            Some(t) => {
                return Some(t);
            },
            None => {},
        }
        i += 1;
    }
    None
}

/// The text of a letter: its plain text, else its marked-up text made
/// plain, else its body; empty where it has none that reads as text.
pub open spec fn letter_text(letter: MailPart) -> Seq<char> {
    match text_part(letter, "text/plain"@) {
        Some(t) => t,
        None => match text_part(letter, "text/html"@) {
            Some(html) => plain_text(html),
            None => match letter.body {
                Some(b) => b@,
                None => Seq::empty(),
            },
        },
    }
}

/// The text of a letter.
pub fn extract_text_from_parsed(letter: &MailPart) -> (r: String)
    ensures
        r@ == letter_text(*letter),
{
    match find_text_part(letter, "text/plain") {
        Some(t) => t,
        None => match find_text_part(letter, "text/html") {
            Some(html) => strip_html(html.as_str()),
            None => match &letter.body {
                Some(b) => b.clone(),
                None => String::new(),
            },
        },
    }
}

/// Whether a letter carries an attachment: whether one of its parts, at
/// any depth, has a disposition that starts with `attachment`.
pub open spec fn has_attachment(part: MailPart) -> bool
    decreases part, 0nat,
{
    attachment_among(part.parts@, 0)
}

/// Whether one of the parts from the given one on is an attachment or
/// carries one.
pub open spec fn attachment_among(parts: Seq<MailPart>, from: nat) -> bool
    decreases parts, parts.len() - from,
{
    if from >= parts.len() {
        false
    } else {
        "attachment"@.is_prefix_of(parts[from as int].disposition@) || has_attachment(
            parts[from as int],
        ) || attachment_among(parts, from + 1)
    }
}

/// Whether a letter carries an attachment.
pub fn check_attachments(part: &MailPart) -> (r: bool)
    ensures
        r == has_attachment(*part),
    decreases part,
{
    let mut i: usize = 0;
    while i < part.parts.len()
        invariant
            i <= part.parts.len(),
            has_attachment(*part) == attachment_among(part.parts@, i as nat),
        decreases part.parts.len() - i,
    {
        if starts_with(part.parts[i].disposition.as_str(), "attachment") {
            return true;
        }
        if check_attachments(&part.parts[i]) {
            return true;
        }
        i += 1;
    }
    false
}

/// The bytes of an optional body.
pub open spec fn opt_bytes(o: Option<Vec<u8>>) -> Option<Seq<u8>> {
    match o {
        Some(b) => Some(b@),
        None => None,
    }
}

/// The name of the file of a part by its disposition: the `filename`, else
/// the `name`.
pub open spec fn disposition_file(part: MailPart) -> Option<Seq<char>> {
    match part.disposition_filename {
        Some(f) => Some(f@),
        None => opt_text(part.disposition_name),
    }
}

/// Whether a part is named so by its disposition or by its content type.
pub open spec fn is_named_part(part: MailPart, target: Seq<char>) -> bool {
    disposition_file(part) == Some(target) || opt_text(part.content_name) == Some(target)
}

/// The decoded body of the attachment with the given name. The parts are
/// looked at from the first to the last and into the depth first; a part
/// named so by its disposition or by its content type ends the search,
/// with its body or, where that cannot be decoded, with nothing.
pub open spec fn attachment(part: MailPart, target: Seq<char>) -> Option<Seq<u8>>
    decreases part, 0nat,
{
    attachment_in(part.parts@, target, 0)
}

/// The attachment that `attachment` finds in the parts from the given one
/// on.
pub open spec fn attachment_in(parts: Seq<MailPart>, target: Seq<char>, from: nat) -> Option<
    Seq<u8>,
>
    decreases parts, parts.len() - from,
{
    if from >= parts.len() {
        None
    } else if is_named_part(parts[from as int], target) {
        opt_bytes(parts[from as int].raw)
    } else {
        match attachment(parts[from as int], target) {
            Some(found) => Some(found),
            None => attachment_in(parts, target, from + 1),
        }
    }
}

fn is_named(name: &Option<String>, target: &str) -> (r: bool)
    ensures
        r == (opt_text(*name) == Some(target@)),
{
    match name {
        Some(n) => str_eq(n.as_str(), target),
        None => false,
    }
}

fn copy_bytes(o: &Option<Vec<u8>>) -> (r: Option<Vec<u8>>)
    ensures
        opt_bytes(r) == opt_bytes(*o),
{
    match o {
        Some(b) => {
            let mut out: Vec<u8> = Vec::new();
            let mut i: usize = 0;
            while i < b.len()
                invariant
                    i <= b.len(),
                    out@ == b@.take(i as int),
                decreases b.len() - i,
            {
                out.push(b[i]);
                i += 1;
            }
            Some(out)
        },
        None => None,
    }
}

/// The decoded body of the attachment with the given name.
pub fn find_attachment(part: &MailPart, target: &str) -> (r: Option<Vec<u8>>)
    ensures
        opt_bytes(r) == attachment(*part, target@),
    decreases part,
{
    let mut i: usize = 0;
    while i < part.parts.len()
        invariant
            i <= part.parts.len(),
            attachment(*part, target@) == attachment_in(part.parts@, target@, i as nat),
        decreases part.parts.len() - i,
    {
        let sub = &part.parts[i];
        let by_disposition: bool = match &sub.disposition_filename {
            Some(f) => str_eq(f.as_str(), target),
            None => is_named(&sub.disposition_name, target),
        };
        if by_disposition || is_named(&sub.content_name, target) {
            return copy_bytes(&sub.raw);
        }
        match find_attachment(sub, target) {
            Some(found) => {
                return Some(found);
            },
            None => {},
        }
        i += 1;
    }
    None
}

/// The texts, or nothing where there are none.
pub open spec fn some_if_any(texts: Seq<Seq<char>>) -> Option<Seq<Seq<char>>> {
    if texts.len() == 0 {
        None
    } else {
        Some(texts)
    }
}

/// The text of a letter and whether it carries an attachment: those of the
/// letter that the bytes are, or the bytes as text and no attachment where
/// they are no letter.
pub open spec fn letter_content(body: Seq<u8>) -> (Seq<char>, bool) {
    match letter_of(body) {
        Some(letter) => (letter_text(letter), has_attachment(letter)),
        None => (lossy_text(body), false),
    }
}

/// The message that a fetched letter is, as one of the given folder;
/// `None` for a letter without an envelope. Its identifier is that of the
/// envelope, or `uid:` and its number in the folder where the envelope has
/// none.
pub open spec fn fetched_message(fetched: Fetched, folder: Seq<char>) -> Option<MessageView> {
    match fetched.envelope {
        None => None,
        Some(envelope) => {
            let message_id = utf8_or_empty(envelope.message_id);
            let senders = shown_addresses(envelope.from);
            let subject = match envelope.subject {
                Some(b) => decoded_field(b@),
                None => Seq::empty(),
            };
            let content = letter_content(fetched.body@);
            Some(
                MessageView {
                    id: if message_id.len() == 0 {
                        "uid:"@ + decimal(
                            match fetched.uid {
                                Some(u) => u as int,
                                None => 0,
                            },
                        )
                    } else {
                        message_id
                    },
                    platform: Platform::Gmail,
                    channel_id: folder,
                    sender: if senders.len() > 0 {
                        senders[0]
                    } else {
                        "unknown"@
                    },
                    text: content.0,
                    timestamp: letter_time(envelope.date),
                    has_attachment: content.1,
                    reply_to: match envelope.in_reply_to {
                        Some(b) => utf8_of(b@),
                        None => None,
                    },
                    meta: MessageMetaView {
                        subject: if subject.len() == 0 {
                            None
                        } else {
                            Some(subject)
                        },
                        cc: some_if_any(shown_addresses(envelope.cc)),
                        bcc: some_if_any(shown_addresses(envelope.bcc)),
                        ..MessageMetaView::empty()
                    },
                },
            )
        },
    }
}

fn some_if_filled(texts: Vec<String>) -> (r: Option<Vec<String>>)
    ensures
        opt_texts(r) == some_if_any(views(texts@)),
{
    if texts.len() == 0 {
        None
    } else {
        Some(texts)
    }
}

/// The view of an optional message.
pub open spec fn opt_message(o: Option<Message>) -> Option<MessageView> {
    match o {
        Some(m) => Some(m@),
        None => None,
    }
}

/// The message that a fetched letter is.
pub fn fetch_to_message(fetched: &Fetched, folder: &str) -> (r: Option<Message>)
    ensures
        opt_message(r) == fetched_message(*fetched, folder@),
{
    let envelope: &Envelope = match &fetched.envelope {
        Some(e) => e,
        None => {
            return None;
        },
    };
    let message_id = utf8_text_or_empty(&envelope.message_id);
    let id: String = if blank(&message_id) {
        let mut s = String::from_str("uid:");
        let uid: u32 = match fetched.uid {
            Some(u) => u,
            None => 0,
        };
        push_decimal_nat(&mut s, uid as u64);
        s
    } else {
        message_id
    };
    let senders = addrs_to_vec(&envelope.from);
    let sender: String = if senders.len() > 0 {
        senders[0].clone()
    } else {
        String::from_str("unknown")
    };
    let subject: String = match &envelope.subject {
        Some(b) => decode_mime_str(b),
        None => String::new(),
    };
    let timestamp = parse_imap_date(&envelope.date);
    let reply_to: Option<String> = match &envelope.in_reply_to {
        Some(b) => utf8(b),
        None => None,
    };
    let (text, attachment): (String, bool) = match parse_letter(&fetched.body) {
        Some(letter) => (extract_text_from_parsed(&letter), check_attachments(&letter)),
        None => (utf8_lossy(&fetched.body), false),
    };
    let cc = some_if_filled(addrs_to_vec(&envelope.cc));
    let bcc = some_if_filled(addrs_to_vec(&envelope.bcc));
    let mut meta = MessageMeta::default();
    meta.subject = if blank(&subject) {
        None
    } else {
        Some(subject)
    };
    meta.cc = cc;
    meta.bcc = bcc;
    Some(
        Message {
            id,
            platform: Platform::Gmail,
            channel_id: String::from_str(folder),
            sender,
            text,
            timestamp,
            has_attachment: attachment,
            reply_to,
            meta,
        },
    )
}

/// The messages that the fetched letters are; letters without an envelope
/// are passed over.
pub open spec fn fetched_messages(fetched: Seq<Fetched>, folder: Seq<char>) -> Seq<MessageView> {
    fetched.filter_map(|f: Fetched| fetched_message(f, folder))
}

proof fn lemma_fetched_messages_push(fetched: Seq<Fetched>, f: Fetched, folder: Seq<char>)
    ensures
        fetched_messages(fetched.push(f), folder) == match fetched_message(f, folder) {
            Some(m) => fetched_messages(fetched, folder).push(m),
            None => fetched_messages(fetched, folder),
        },
{
    assert(fetched.push(f).drop_last() =~= fetched);
    match fetched_message(f, folder) {
        Some(m) => {
            assert(fetched_messages(fetched, folder) + seq![m] =~= fetched_messages(
                fetched,
                folder,
            ).push(m));
        },
        None => {},
    }
}

/// The messages that the fetched letters are.
pub fn fetches_to_messages(fetched: &Vec<Fetched>, folder: &str) -> (r: Vec<Message>)
    ensures
        message_views(r@) == fetched_messages(fetched@, folder@),
{
    let mut out: Vec<Message> = Vec::new();
    let mut i: usize = 0;
    while i < fetched.len()
        invariant
            i <= fetched.len(),
            message_views(out@) == fetched_messages(fetched@.take(i as int), folder@),
        decreases fetched.len() - i,
    {
        proof {
            assert(fetched@.take(i + 1) =~= fetched@.take(i as int).push(fetched@[i as int]));
            lemma_fetched_messages_push(fetched@.take(i as int), fetched@[i as int], folder@);
        }
        match fetch_to_message(&fetched[i], folder) {
            Some(m) => {
                out.push(m);
            },
            None => {},
        }
        i += 1;
    }
    assert(fetched@.take(fetched.len() as int) =~= fetched@);
    out
}

/// The messages with one more in its place by time: behind every message
/// that is as new or newer.
pub open spec fn placed(sorted: Seq<MessageView>, m: MessageView) -> Seq<MessageView>
    decreases sorted.len(),
{
    if sorted.len() == 0 {
        seq![m]
    } else if sorted.last().timestamp >= m.timestamp {
        sorted.push(m)
    } else {
        placed(sorted.drop_last(), m).push(sorted.last())
    }
}

/// The messages from the newest to the oldest; messages of the same time
/// keep their order.
pub open spec fn newest_first(messages: Seq<MessageView>) -> Seq<MessageView>
    decreases messages.len(),
{
    if messages.len() == 0 {
        Seq::empty()
    } else {
        placed(newest_first(messages.drop_last()), messages.last())
    }
}

/// Whether no message stands in front of a newer one.
pub open spec fn is_newest_first(messages: Seq<MessageView>) -> bool {
    forall|i: int, j: int|
        0 <= i < j < messages.len() ==> (#[trigger] messages[i]).timestamp >= (
        #[trigger] messages[j]).timestamp
}

proof fn lemma_placed_at(sorted: Seq<MessageView>, m: MessageView, pos: int)
    requires
        0 <= pos <= sorted.len(),
        forall|k: int| pos <= k < sorted.len() ==> (#[trigger] sorted[k]).timestamp < m.timestamp,
        pos == 0 || sorted[pos - 1].timestamp >= m.timestamp,
    ensures
        placed(sorted, m) == sorted.insert(pos, m),
    decreases sorted.len() - pos,
{
    if sorted.len() == 0 {
    } else if pos == sorted.len() {
    } else {
        let init = sorted.drop_last();
        assert forall|k: int| pos <= k < init.len() implies (#[trigger] init[k]).timestamp
            < m.timestamp by {
        }
        lemma_placed_at(init, m, pos);
    }
}

/// Placing a message keeps the order from the newest to the oldest, and
/// keeps every message: the result holds the message placed and, besides,
/// what was there.
pub proof fn lemma_placed_is_ordered(sorted: Seq<MessageView>, m: MessageView)
    requires
        is_newest_first(sorted),
    ensures
        is_newest_first(placed(sorted, m)),
        placed(sorted, m).to_multiset() == sorted.to_multiset().insert(m),
        placed(sorted, m).len() == sorted.len() + 1,
    decreases sorted.len(),
{
    broadcast use vstd::seq_lib::group_to_multiset_ensures;

    if sorted.len() == 0 {
    } else if sorted.last().timestamp >= m.timestamp {
        let r = sorted.push(m);
        assert forall|i: int, j: int| 0 <= i < j < r.len() implies (#[trigger] r[i]).timestamp >= (
        #[trigger] r[j]).timestamp by {
        }
    } else {
        let init = sorted.drop_last();
        assert(is_newest_first(init)) by {
            assert forall|i: int, j: int| 0 <= i < j < init.len() implies (
            #[trigger] init[i]).timestamp >= (#[trigger] init[j]).timestamp by {
            }
        }
        lemma_placed_is_ordered(init, m);
        let p = placed(init, m);
        let r = p.push(sorted.last());
        assert(sorted =~= init.push(sorted.last()));
        assert forall|i: int, j: int| 0 <= i < j < r.len() implies (#[trigger] r[i]).timestamp >= (
        #[trigger] r[j]).timestamp by {
            if j == p.len() {
                // every message of p is the one placed or one of init
                assert(p.to_multiset().count(p[i]) > 0);
            }
        }
        assert(init.push(sorted.last()).to_multiset() =~= init.to_multiset().insert(
            sorted.last(),
        ));
    }
}

/// The messages from the newest to the oldest are in that order, and are
/// the same messages, each as often as before.
pub proof fn lemma_newest_first_is_a_sorting(messages: Seq<MessageView>)
    ensures
        is_newest_first(newest_first(messages)),
        newest_first(messages).to_multiset() == messages.to_multiset(),
        newest_first(messages).len() == messages.len(),
    decreases messages.len(),
{
    broadcast use vstd::seq_lib::group_to_multiset_ensures;

    if messages.len() == 0 {
    } else {
        let init = messages.drop_last();
        lemma_newest_first_is_a_sorting(init);
        lemma_placed_is_ordered(newest_first(init), messages.last());
        assert(messages =~= init.push(messages.last()));
        assert(init.push(messages.last()).to_multiset() =~= init.to_multiset().insert(
            messages.last(),
        ));
    }
}

/// Orders messages from the newest to the oldest; messages of the same
/// time keep their order.
pub fn sort_newest_first(messages: Vec<Message>) -> (r: Vec<Message>)
    ensures
        message_views(r@) == newest_first(message_views(messages@)),
{
    let ghost all = message_views(messages@);
    let mut rest = messages;
    let mut out: Vec<Message> = Vec::new();
    let ghost mut done: int = 0;
    assert(all.take(0) =~= Seq::<MessageView>::empty());
    assert(message_views(out@) =~= newest_first(all.take(0)));
    assert(all.skip(0) =~= all);
    while rest.len() > 0
        invariant
            0 <= done <= all.len(),
            message_views(rest@) == all.skip(done),
            message_views(out@) == newest_first(all.take(done)),
        decreases rest.len(),
    {
        let ghost before_rest = message_views(rest@);
        proof {
            assert(before_rest.len() == rest@.len());
            assert(all.skip(done).len() == all.len() - done);
            assert(done < all.len());
        }
        let ghost old_rest = rest@;
        let m = rest.remove(0);
        proof {
            assert(m@ == before_rest[0]);
            assert forall|k: int| 0 <= k < rest@.len() implies #[trigger] message_views(rest@)[k]
                == all.skip(done + 1)[k] by {
                assert(rest@[k] == old_rest[k + 1]);
                assert(before_rest[k + 1] == all.skip(done)[k + 1]);
            }
            assert(before_rest[0] == all[done]);
            assert(message_views(rest@) =~= all.skip(done + 1));
            assert(all.take(done + 1).drop_last() =~= all.take(done));
            assert(all.take(done + 1).last() == m@);
        }
        let mut pos: usize = out.len();
        while pos > 0 && out[pos - 1].timestamp < m.timestamp
            invariant
                pos <= out.len(),
                forall|k: int|
                    pos <= k < out@.len() ==> (#[trigger] out@[k]).timestamp < m.timestamp,
            decreases pos,
        {
            pos -= 1;
        }
        proof {
            let sorted = message_views(out@);
            assert forall|k: int| pos <= k < sorted.len() implies (#[trigger] sorted[k]).timestamp
                < m@.timestamp by {
                assert(sorted[k] == out@[k]@);
            }
            if pos > 0 {
                assert(sorted[pos - 1] == out@[pos - 1]@);
            }
            lemma_placed_at(sorted, m@, pos as int);
        }
        let ghost sorted = message_views(out@);
        let ghost view = m@;
        out.insert(pos, m);
        proof {
            assert(message_views(out@) =~= sorted.insert(pos as int, view));
            done = done + 1;
        }
    }
    proof {
        assert(all.skip(done).len() == 0);
        assert(all.take(done) =~= all);
    }
    out
}

/// What follows `gm:` in a cursor.
pub open spec fn cursor_body(cursor: Option<Seq<char>>) -> Option<Seq<char>> {
    match cursor {
        Some(c) => after_prefix(c, "gm:"@),
        None => None,
    }
}

fn cursor_rest(cursor: Option<&str>) -> (r: Option<String>)
    ensures
        opt_text(r) == cursor_body(opt_str(cursor)),
{
    match cursor {
        Some(c) => strip_prefix(c, "gm:"),
        None => None,
    }
}

/// The smaller of two counts.
pub open spec fn at_most(n: usize, cap: usize) -> usize {
    if n < cap {
        n
    } else {
        cap
    }
}

fn capped(n: usize, cap: usize) -> (r: usize)
    ensures
        r == at_most(n, cap),
{
    if n < cap {
        n
    } else {
        cap
    }
}

/// The letters of a folder that a reading fetches, by their numbers in the
/// folder from the first to the last: the newest, or those before the
/// letter of the cursor, and never more than the limit, which is 200 at
/// most. `None` where there is nothing to fetch.
pub open spec fn history_range(total: u32, cursor: Option<Seq<char>>, limit: usize) -> Option<
    (u32, u32),
> {
    let end: int = match cursor_body(cursor) {
        Some(body) => match parse_u32_spec(body) {
            Some(n) => if n == 0 {
                0
            } else {
                n - 1
            },
            None => total as int,
        },
        None => total as int,
    };
    let count = at_most(limit, 200) as int;
    let first: int = if end > count {
        end - count + 1
    } else {
        1
    };
    if total == 0 || end == 0 {
        None
    } else if first > u32::MAX {
        Some((u32::MAX, end as u32))
    } else {
        Some((first as u32, end as u32))
    }
}

/// The letters of a folder that a reading fetches.
pub fn history_plan(total: u32, cursor: Option<&str>, limit: usize) -> (r: Option<(u32, u32)>)
    ensures
        r == history_range(total, opt_str(cursor), limit),
{
    let from_cursor: Option<u32> = match cursor_rest(cursor) {
        Some(body) => parse_u32(body.as_str()),
        None => None,
    };
    let end: u32 = match from_cursor {
        Some(n) => if n == 0 {
            0
        } else {
            n - 1
        },
        None => total,
    };
    if total == 0 || end == 0 {
        return None;
    }
    let count: u32 = capped(limit, 200) as u32;
    let first: u32 = if end > count {
        if count == 0 {
            if end == u32::MAX {
                end
            } else {
                end + 1
            }
        } else {
            end - count + 1
        }
    } else {
        1
    };
    Some((first, end))
}

/// The range of letters as the mail store takes it.
pub fn range_text(first: u32, last: u32) -> (r: String)
    ensures
        r@ == decimal(first as int) + ":"@ + decimal(last as int),
{
    let mut r = String::new();
    push_decimal_nat(&mut r, first as u64);
    r.append(":");
    push_decimal_nat(&mut r, last as u64);
    r
}

/// The first `limit` items of a sequence, or all where there are fewer.
pub open spec fn first_items<T>(items: Seq<T>, limit: nat) -> Seq<T> {
    if items.len() > limit {
        items.take(limit as int)
    } else {
        items
    }
}

/// The page that fetched letters make: the messages from the newest to the
/// oldest, not more than the limit, which is 200 at most; there is more
/// where the letters begin behind the first of the folder, at the cursor
/// `gm:` with the number of the first letter fetched.
pub open spec fn history_page_of(
    fetched: Seq<Fetched>,
    folder: Seq<char>,
    first: u32,
    limit: usize,
) -> PageView {
    PageView {
        items: first_items(
            newest_first(fetched_messages(fetched, folder)),
            at_most(limit, 200) as nat,
        ),
        has_more: first > 1,
        next_cursor: if first > 1 {
            Some("gm:"@ + decimal(first as int))
        } else {
            None
        },
    }
}

fn cut_to(messages: Vec<Message>, limit: usize) -> (r: Vec<Message>)
    ensures
        message_views(r@) == first_items(message_views(messages@), limit as nat),
{
    let mut r = messages;
    if r.len() > limit {
        r.truncate(limit);
    }
    r
}

/// The page that fetched letters make.
pub fn history_page(fetched: &Vec<Fetched>, folder: &str, first: u32, limit: usize) -> (page:
    Paginated<Message>)
    ensures
        page_view(page) == history_page_of(fetched@, folder@, first, limit),
{
    let sorted = sort_newest_first(fetches_to_messages(fetched, folder));
    let items = cut_to(sorted, capped(limit, 200));
    let has_more: bool = first > 1;
    let next_cursor: Option<String> = if has_more {
        let mut s = String::from_str("gm:");
        push_decimal_nat(&mut s, first as u64);
        Some(s)
    } else {
        None
    };
    Paginated { items, has_more, next_cursor }
}

/// A page without messages and without more.
pub fn empty_page() -> (page: Paginated<Message>)
    ensures
        page_view(page) == (PageView { items: Seq::empty(), has_more: false, next_cursor: None }),
{
    let page = Paginated { items: Vec::new(), has_more: false, next_cursor: None };
    assert(message_views(page.items@) =~= Seq::<MessageView>::empty());
    page
}

/// A query without double quotes and backslashes.
pub open spec fn sanitized(query: Seq<char>) -> Seq<char> {
    query.filter(|c: char| c != '"' && c != '\\')
}

/// The query that searches the text of letters for a query.
pub fn text_query(query: &str) -> (r: String)
    ensures
        r@ == "TEXT \""@ + sanitized(query@) + "\""@,
{
    let v = chars_of(query);
    let mut r = String::from_str("TEXT \"");
    let ghost head = r@;
    let mut i: usize = 0;
    proof {
        reveal(Seq::filter);
        assert(query@.take(0).filter(|c: char| c != '"' && c != '\\')
            =~= Seq::<char>::empty());
    }
    while i < v.len()
        invariant
            i <= v.len(),
            v@ == query@,
            r@ == head + sanitized(query@.take(i as int)),
        decreases v.len() - i,
    {
        let c: char = v[i];
        proof {
            assert(query@.take(i + 1) =~= query@.take(i as int).push(c));
            query@.take(i as int).lemma_filter_push(c, |c: char| c != '"' && c != '\\');
        }
        if c != '"' && c != '\\' {
            r.push(c);
        }
        i += 1;
    }
    assert(query@.take(v.len() as int) =~= query@);
    r.append("\"");
    r
}

/// How many results a search has passed: the number in the cursor, or 0.
pub open spec fn search_offset(cursor: Option<Seq<char>>) -> usize {
    match cursor_body(cursor) {
        Some(body) => match parse_usize_spec(body) {
            Some(n) => n,
            None => 0,
        },
        None => 0,
    }
}

/// How many results a search has passed.
pub fn search_offset_of(cursor: Option<&str>) -> (n: usize)
    ensures
        n == search_offset(opt_str(cursor)),
{
    match cursor_rest(cursor) {
        Some(body) => match parse_usize(body.as_str()) {
            Some(n) => n,
            None => 0,
        },
        None => 0,
    }
}

/// The numbers with one more in its place: behind every number that is as
/// great or greater.
pub open spec fn placed_number(sorted: Seq<u32>, n: u32) -> Seq<u32>
    decreases sorted.len(),
{
    if sorted.len() == 0 {
        seq![n]
    } else if sorted.last() >= n {
        sorted.push(n)
    } else {
        placed_number(sorted.drop_last(), n).push(sorted.last())
    }
}

/// The numbers from the greatest to the smallest.
pub open spec fn greatest_first(numbers: Seq<u32>) -> Seq<u32>
    decreases numbers.len(),
{
    if numbers.len() == 0 {
        Seq::empty()
    } else {
        placed_number(greatest_first(numbers.drop_last()), numbers.last())
    }
}

proof fn lemma_placed_number_at(sorted: Seq<u32>, n: u32, pos: int)
    requires
        0 <= pos <= sorted.len(),
        forall|k: int| pos <= k < sorted.len() ==> #[trigger] sorted[k] < n,
        pos == 0 || sorted[pos - 1] >= n,
    ensures
        placed_number(sorted, n) == sorted.insert(pos, n),
    decreases sorted.len() - pos,
{
    if sorted.len() == 0 {
    } else if pos == sorted.len() {
    } else {
        let init = sorted.drop_last();
        assert forall|k: int| pos <= k < init.len() implies #[trigger] init[k] < n by {
        }
        lemma_placed_number_at(init, n, pos);
    }
}

/// Orders numbers from the greatest to the smallest.
pub fn sort_greatest_first(numbers: &Vec<u32>) -> (r: Vec<u32>)
    ensures
        r@ == greatest_first(numbers@),
{
    let mut out: Vec<u32> = Vec::new();
    let mut i: usize = 0;
    while i < numbers.len()
        invariant
            i <= numbers.len(),
            out@ == greatest_first(numbers@.take(i as int)),
        decreases numbers.len() - i,
    {
        let n: u32 = numbers[i];
        proof {
            assert(numbers@.take(i + 1).drop_last() =~= numbers@.take(i as int));
        }
        let mut pos: usize = out.len();
        while pos > 0 && out[pos - 1] < n
            invariant
                pos <= out.len(),
                forall|k: int| pos <= k < out@.len() ==> #[trigger] out@[k] < n,
            decreases pos,
        {
            pos -= 1;
        }
        proof {
            lemma_placed_number_at(out@, n, pos as int);
        }
        out.insert(pos, n);
        i += 1;
    }
    assert(numbers@.take(numbers.len() as int) =~= numbers@);
    out
}

/// The letters that a search fetches: of the letters found, from the
/// greatest number to the smallest, those behind the ones passed, and not
/// more than the limit, which is 100 at most.
pub open spec fn search_selection(found: Seq<u32>, offset: usize, limit: usize) -> Seq<u32> {
    let sorted = greatest_first(found);
    let rest = if offset >= sorted.len() {
        Seq::empty()
    } else {
        sorted.skip(offset as int)
    };
    first_items(rest, at_most(limit, 100) as nat)
}

/// The letters that a search fetches.
pub fn search_plan(found: &Vec<u32>, offset: usize, limit: usize) -> (r: Vec<u32>)
    ensures
        r@ == search_selection(found@, offset, limit),
{
    let sorted = sort_greatest_first(found);
    let count = capped(limit, 100);
    let mut out: Vec<u32> = Vec::new();
    if offset >= sorted.len() {
        return out;
    }
    let ghost rest = sorted@.skip(offset as int);
    let mut i: usize = offset;
    while i < sorted.len() && out.len() < count
        invariant
            offset <= i <= sorted.len(),
            rest == sorted@.skip(offset as int),
            out.len() == i - offset,
            out.len() <= count,
            out@ == rest.take(i - offset),
        decreases sorted.len() - i,
    {
        out.push(sorted[i]);
        i += 1;
    }
    out
}

/// The page that the fetched letters of a search make: the messages from
/// the newest to the oldest, not more than the limit, which is 100 at
/// most; there is more where the letters passed and selected are fewer
/// than the letters found, at the cursor `gm:` with their number.
pub open spec fn search_page_of(
    fetched: Seq<Fetched>,
    offset: usize,
    selected: usize,
    total: usize,
    limit: usize,
) -> PageView {
    let next: int = if offset + selected > usize::MAX {
        usize::MAX as int
    } else {
        offset + selected
    };
    PageView {
        items: first_items(
            newest_first(fetched_messages(fetched, "INBOX"@)),
            at_most(limit, 100) as nat,
        ),
        has_more: next < total,
        next_cursor: if next < total {
            Some("gm:"@ + decimal(next))
        } else {
            None
        },
    }
}

/// The page that the fetched letters of a search make.
pub fn search_page(
    fetched: &Vec<Fetched>,
    offset: usize,
    selected: usize,
    total: usize,
    limit: usize,
) -> (page: Paginated<Message>)
    ensures
        page_view(page) == search_page_of(fetched@, offset, selected, total, limit),
{
    let sorted = sort_newest_first(fetches_to_messages(fetched, "INBOX"));
    let items = cut_to(sorted, capped(limit, 100));
    let next: usize = match offset.checked_add(selected) {
        Some(n) => n,
        None => usize::MAX,
    };
    let has_more: bool = next < total;
    let next_cursor: Option<String> = if has_more {
        let mut s = String::from_str("gm:");
        push_decimal_nat(&mut s, next as u64);
        Some(s)
    } else {
        None
    };
    Paginated { items, has_more, next_cursor }
}

/// The profile of the account: the address, under the name in front of
/// its `@`.
pub open spec fn profile_of(config: GmailConfig) -> ProfileView {
    ProfileView {
        platform: Platform::Gmail,
        id: config.email@,
        name: split_on(config.email@, '@')[0],
        username: None,
        email: Some(config.email@),
        phone: None,
    }
}

/// The profile of the account.
pub fn get_profile(config: &GmailConfig) -> (p: Profile)
    ensures
        p@ == profile_of(*config),
{
    let pieces = split(config.email.as_str(), '@');
    Profile {
        platform: Platform::Gmail,
        id: config.email.clone(),
        name: pieces[0].clone(),
        username: None,
        email: Some(config.email.clone()),
        phone: None,
    }
}

/// Whether a folder is shown as a channel: the root of the folders of the
/// store and the folder of all mail are not.
pub open spec fn is_shown_folder(name: Seq<char>) -> bool {
    name != "[Gmail]"@ && name != "[Gmail]/All Mail"@
}

/// The channel of a folder that is shown, with the number of unread
/// letters where the folder is the inbox and the number is known.
pub open spec fn shown_folder(name: Seq<char>, unseen: Option<i32>) -> Option<ChannelView> {
    if is_shown_folder(name) {
        Some(
            ChannelView {
                unread_count: if name == "INBOX"@ {
                    match unseen {
                        Some(n) => n,
                        None => 0,
                    }
                } else {
                    0
                },
                ..folder_channel(name)
            },
        )
    } else {
        None
    }
}

/// The channels of the folders that are shown.
pub open spec fn shown_folders(names: Seq<Seq<char>>, unseen: Option<i32>) -> Seq<ChannelView> {
    names.filter_map(|name: Seq<char>| shown_folder(name, unseen))
}

proof fn lemma_shown_folders_push(names: Seq<Seq<char>>, name: Seq<char>, unseen: Option<i32>)
    ensures
        shown_folders(names.push(name), unseen) == match shown_folder(name, unseen) {
            Some(c) => shown_folders(names, unseen).push(c),
            None => shown_folders(names, unseen),
        },
{
    assert(names.push(name).drop_last() =~= names);
    match shown_folder(name, unseen) {
        Some(c) => {
        },
        None => {},
    }
}

/// The views of a sequence of channels.
pub open spec fn channel_views(v: Seq<Channel>) -> Seq<ChannelView> {
    Seq::new(v.len(), |i: int| v[i]@)
}

/// The channels of a listing: those of the folders that are shown, the
/// inbox with the number of its unread letters, and not more than the
/// limit.
pub fn list_channels(names: &Vec<String>, unseen: Option<i32>, limit: usize) -> (r: Vec<Channel>)
    ensures
        channel_views(r@) == first_items(shown_folders(views(names@), unseen), limit as nat),
{
    let ghost all = views(names@);
    let mut out: Vec<Channel> = Vec::new();
    let mut i: usize = 0;
    while i < names.len()
        invariant
            i <= names.len(),
            all == views(names@),
            channel_views(out@) == shown_folders(all.take(i as int), unseen),
        decreases names.len() - i,
    {
        proof {
            assert(all.take(i + 1) =~= all.take(i as int).push(names@[i as int]@));
            lemma_shown_folders_push(all.take(i as int), names@[i as int]@, unseen);
        }
        let name: &str = names[i].as_str();
        if !str_eq(name, "[Gmail]") && !str_eq(name, "[Gmail]/All Mail") {
            let mut c = folder_to_channel(name);
            if str_eq(name, "INBOX") {
                c.unread_count = match unseen {
                    Some(n) => n,
                    None => 0,
                };
            }
            out.push(c);
        }
        i += 1;
    }
    assert(all.take(names.len() as int) =~= all);
    if out.len() > limit {
        out.truncate(limit);
    }
    out
}

/// What is wrong with a letter before it is built: it has no recipient, or
/// the path of an attachment has a component `..`.
pub open spec fn letter_fault(to: Seq<Seq<char>>, attachments: Seq<Seq<char>>) -> Option<
    (ErrorKind, Seq<char>),
> {
    if to.len() == 0 {
        Some((ErrorKind::InvalidInput, "'to' cannot be empty"@))
    } else if exists|i: int| 0 <= i < attachments.len() && has_parent_dir(#[trigger] attachments[i]) {
        Some((ErrorKind::InvalidInput, "attachment path must not contain '..' components"@))
    } else {
        None
    }
}

/// Refuses a letter without recipient or with an attachment whose path
/// has a component `..`.
pub fn check_letter(to: &Vec<String>, attachments: &Vec<String>) -> (r: Result<(), AgentError>)
    ensures
        match r {
            Ok(_) => letter_fault(views(to@), views(attachments@)) is None,
            Err(e) => letter_fault(views(to@), views(attachments@)) == Some(e@),
        },
{
    if to.len() == 0 {
        return Err(AgentError::invalid_input("'to' cannot be empty"));
    }
    let ghost all = views(attachments@);
    let mut i: usize = 0;
    while i < attachments.len()
        invariant
            i <= attachments.len(),
            to@.len() > 0,
            all == views(attachments@),
            forall|k: int| 0 <= k < i ==> !has_parent_dir(#[trigger] all[k]),
        decreases attachments.len() - i,
    {
        if contains_parent_dir(attachments[i].as_str()) {
            assert(has_parent_dir(all[i as int]));
            return Err(
                AgentError::invalid_input("attachment path must not contain '..' components"),
            );
        }
        i += 1;
    }
    Ok(())
}

/// The name under which an attachment is sent: that of its file, or
/// `attachment`.
pub fn attachment_name(path: &str) -> (r: String)
    ensures
        r@ == text_or_default(base_name(path@), "attachment"@),
{
    match file_name(path) {
        Some(n) => n,
        None => String::from_str("attachment"),
    }
}

/// The message that a letter is once it is sent.
pub open spec fn sent_letter(
    config: GmailConfig,
    message_id: Seq<char>,
    subject: Seq<char>,
    body: Seq<char>,
    reply_to: Option<Seq<char>>,
    cc: Seq<Seq<char>>,
    bcc: Seq<Seq<char>>,
    attachments: nat,
    now: i64,
) -> MessageView {
    MessageView {
        id: message_id,
        platform: Platform::Gmail,
        channel_id: "[Gmail]/Sent Mail"@,
        sender: config.email@,
        text: body,
        timestamp: now,
        has_attachment: attachments > 0,
        reply_to,
        meta: MessageMetaView {
            subject: Some(subject),
            cc: some_if_any(cc),
            bcc: some_if_any(bcc),
            ..MessageMetaView::empty()
        },
    }
}

fn copy_texts(texts: &Vec<String>) -> (r: Vec<String>)
    ensures
        views(r@) == views(texts@),
{
    let mut out: Vec<String> = Vec::new();
    let mut i: usize = 0;
    while i < texts.len()
        invariant
            i <= texts.len(),
            out.len() == i,
            forall|k: int| 0 <= k < i ==> (#[trigger] out@[k])@ == texts@[k]@,
        decreases texts.len() - i,
    {
        out.push(texts[i].clone());
        i += 1;
    }
    out
}

/// The message that a letter is once it is sent, at the given time.
pub fn sent_email(
    config: &GmailConfig,
    message_id: String,
    subject: &str,
    body: &str,
    reply_to: Option<&str>,
    cc: &Vec<String>,
    bcc: &Vec<String>,
    attachments: usize,
    now: i64,
) -> (m: Message)
    ensures
        m@ == sent_letter(
            *config,
            message_id@,
            subject@,
            body@,
            opt_str(reply_to),
            views(cc@),
            views(bcc@),
            attachments as nat,
            now,
        ),
{
    let mut meta = MessageMeta::default();
    meta.subject = Some(String::from_str(subject));
    meta.cc = some_if_filled(copy_texts(cc));
    meta.bcc = some_if_filled(copy_texts(bcc));
    Message {
        id: message_id,
        platform: Platform::Gmail,
        channel_id: String::from_str("[Gmail]/Sent Mail"),
        sender: config.email.clone(),
        text: String::from_str(body),
        timestamp: now,
        has_attachment: attachments > 0,
        reply_to: match reply_to {
            Some(r) => Some(String::from_str(r)),
            None => None,
        },
        meta,
    }
}

/// The message that a draft is once it is stored, at the given time.
pub fn stored_draft(config: &GmailConfig, message_id: String, subject: &str, body: &str, now: i64) -> (m:
    Message)
    ensures
        m@ == (MessageView {
            id: message_id@,
            platform: Platform::Gmail,
            channel_id: "[Gmail]/Drafts"@,
            sender: config.email@,
            text: body@,
            timestamp: now,
            has_attachment: false,
            reply_to: None,
            meta: MessageMetaView {
                subject: if subject@.len() == 0 {
                    None
                } else {
                    Some(subject@)
                },
                ..MessageMetaView::empty()
            },
        }),
{
    let mut meta = MessageMeta::default();
    meta.subject = if subject.unicode_len() == 0 {
        None
    } else {
        Some(String::from_str(subject))
    };
    Message {
        id: message_id,
        platform: Platform::Gmail,
        channel_id: String::from_str("[Gmail]/Drafts"),
        sender: config.email.clone(),
        text: String::from_str(body),
        timestamp: now,
        has_attachment: false,
        reply_to: None,
        meta,
    }
}

/// The target of a download of an attachment, unless its path has a
/// component `..`.
pub fn check_save_path(save_path: &str) -> (r: Result<(), AgentError>)
    ensures
        match r {
            Ok(_) => !has_parent_dir(save_path@),
            Err(e) => has_parent_dir(save_path@) && e@ == (
                ErrorKind::InvalidInput,
                "save_path must not contain '..' components"@,
            ),
        },
{
    if contains_parent_dir(save_path) {
        Err(AgentError::invalid_input("save_path must not contain '..' components"))
    } else {
        Ok(())
    }
}

/// The attachment of a letter by name, or the failure where the letter is
/// none or has no such attachment.
pub fn attachment_of(raw: &Vec<u8>, filename: &str, message_id: &str) -> (r: Result<
    Vec<u8>,
    AgentError,
>)
    ensures
        match letter_of(raw@) {
            None => r matches Err(e) && e@ == (
                ErrorKind::Internal,
                "mailparse: the letter cannot be read"@,
            ),
            Some(letter) => match attachment(letter, filename@) {
                Some(bytes) => r matches Ok(b) && b@ == bytes,
                None => r matches Err(e) && e@ == (
                    ErrorKind::NotFound,
                    "attachment '"@ + filename@ + "' not found in "@ + message_id@,
                ),
            },
        },
{
    let letter = match parse_letter(raw) {
        Some(l) => l,
        None => {
            return Err(AgentError::internal("mailparse: the letter cannot be read"));
        },
    };
    match find_attachment(&letter, filename) {
        Some(bytes) => Ok(bytes),
        None => {
            let mut s = String::from_str("attachment '");
            s.append(filename);
            s.append("' not found in ");
            s.append(message_id);
            Err(AgentError::NotFound(s))
        },
    }
}

} // verus!
