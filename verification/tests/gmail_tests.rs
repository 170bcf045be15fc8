use nexus::entities::{ChannelType, Message, MessageMeta, Platform};
use nexus::error::ErrorKind;
use nexus::gmail::{
    addrs_to_vec, attachment_name, attachment_of, check_attachments, check_letter,
    check_save_path, decode_mime_str, empty_page, extract_text_from_parsed, fetch_to_message,
    fetches_to_messages, find_attachment, find_text_part, folder_to_channel, format_imap_addr,
    get_profile, guess_content_type, history_page, history_plan, imap_find_message,
    list_channels, message_id_query, message_not_found, parse_imap_date, range_text, search_offset_of,
    search_page, search_plan, sent_email, sort_greatest_first, sort_newest_first, stored_draft,
    strip_html, text_query, uid_str, utf8, Envelope, Fetched, GmailConfig, MailAddress, MailPart,
};

fn config() -> GmailConfig {
    GmailConfig { email: "me@example.com".into(), app_password: "pw".into() }
}

fn addr(name: Option<&str>, mailbox: Option<&str>, host: Option<&str>) -> MailAddress {
    MailAddress {
        name: name.map(|s| s.as_bytes().to_vec()),
        mailbox: mailbox.map(|s| s.as_bytes().to_vec()),
        host: host.map(|s| s.as_bytes().to_vec()),
    }
}

fn part(content_type: &str, body: Option<&str>, parts: Vec<MailPart>) -> MailPart {
    MailPart {
        content_type: content_type.to_string(),
        disposition: String::new(),
        disposition_filename: None,
        disposition_name: None,
        content_name: None,
        body: body.map(|s| s.to_string()),
        raw: body.map(|s| s.as_bytes().to_vec()),
        parts,
    }
}

fn message(id: &str, timestamp: i64) -> Message {
    Message {
        id: id.to_string(),
        platform: Platform::Gmail,
        channel_id: "INBOX".to_string(),
        sender: "s".to_string(),
        text: "t".to_string(),
        timestamp,
        has_attachment: false,
        reply_to: None,
        meta: MessageMeta::default(),
    }
}

fn letter(raw: &str) -> Fetched {
    Fetched {
        uid: Some(7),
        envelope: Some(Envelope {
            message_id: Some(b"<id@x>".to_vec()),
            from: Some(vec![addr(Some("Ann"), Some("ann"), Some("x.y"))]),
            subject: Some(b"Hello".to_vec()),
            date: Some(b"Sun, 02 Oct 2016 07:06:22 -0700 (PDT)".to_vec()),
            in_reply_to: None,
            cc: None,
            bcc: None,
        }),
        body: raw.as_bytes().to_vec(),
    }
}

const TWO_PARTS: &str = concat_two_parts();

const fn concat_two_parts() -> &'static str {
    "Subject: t\r\nContent-Type: multipart/mixed; boundary=b\r\n\r\n--b\r\nContent-Type: text/html\r\n\r\n<p>Hi <b>there</b></p>\r\n--b\r\nContent-Type: application/pdf; name=\"r.pdf\"\r\nContent-Disposition: attachment; filename=\"report.pdf\"\r\nContent-Transfer-Encoding: base64\r\n\r\nSGVsbG8=\r\n--b--\r\n"
}

#[test]
fn gmail_header_fields_are_decoded() {
    assert_eq!(decode_mime_str(&b"plain".to_vec()), "plain");
    assert_eq!(decode_mime_str(&b"=?UTF-8?B?SGVsbG8gV8O2cmxk?=".to_vec()), "Hello Wörld");
    assert_eq!(decode_mime_str(&b"=?ISO-8859-1?Q?a=E4b?= rest".to_vec()), "aäb rest");
    assert_eq!(decode_mime_str(&b"".to_vec()), "");
    assert_eq!(decode_mime_str(&vec![0xff, b'a']), "\u{fffd}a");
    assert_eq!(decode_mime_str(&b"a=?b".to_vec()), "a=?b");
}

#[test]
fn gmail_bytes_are_text_where_they_are_utf8() {
    assert_eq!(utf8(&"grüße".as_bytes().to_vec()), Some("grüße".to_string()));
    assert_eq!(utf8(&Vec::new()), Some(String::new()));
    assert_eq!(utf8(&vec![0xc3]), None);
    assert_eq!(utf8(&vec![0xff, 0xfe]), None);
}

#[test]
fn gmail_addresses_are_shown() {
    assert_eq!(format_imap_addr(&addr(Some("Ann Lee"), Some("ann"), Some("x.y"))), "Ann Lee <ann@x.y>");
    assert_eq!(format_imap_addr(&addr(None, Some("ann"), Some("x.y"))), "ann@x.y");
    assert_eq!(format_imap_addr(&addr(Some(""), Some("ann"), None)), "ann");
    assert_eq!(format_imap_addr(&addr(Some("Ann"), Some("ann"), Some(""))), "Ann <ann>");
    assert_eq!(format_imap_addr(&addr(Some("Ann"), None, Some("x.y"))), "Ann <@x.y>");
    assert_eq!(format_imap_addr(&addr(Some("Ann"), None, None)), "Ann");
    assert_eq!(format_imap_addr(&addr(None, None, None)), "unknown");
    assert_eq!(format_imap_addr(&addr(Some(""), Some(""), Some(""))), "unknown");
    assert_eq!(
        format_imap_addr(&addr(Some("=?UTF-8?Q?J=C3=BCrgen?="), Some("j"), Some("x.y"))),
        "Jürgen <j@x.y>"
    );
    let broken = MailAddress { name: None, mailbox: Some(vec![0xff]), host: Some(b"x.y".to_vec()) };
    assert_eq!(format_imap_addr(&broken), "@x.y");
    assert_eq!(
        addrs_to_vec(&Some(vec![addr(None, Some("a"), Some("b")), addr(None, None, None)])),
        vec!["a@b".to_string(), "unknown".to_string()]
    );
    assert!(addrs_to_vec(&None).is_empty());
}

#[test]
fn gmail_dates_are_read() {
    assert_eq!(parse_imap_date(&Some(b"Sun, 02 Oct 2016 07:06:22 -0700 (PDT)".to_vec())), 1475417182);
    assert_eq!(parse_imap_date(&Some(b"nonsense".to_vec())), 0);
    assert_eq!(parse_imap_date(&Some(vec![0xff])), 0);
    assert_eq!(parse_imap_date(&None), 0);
}

#[test]
fn gmail_markup_is_made_plain() {
    assert_eq!(strip_html("<p>Hi <b>there</b></p>"), "Hi there");
    assert_eq!(strip_html("<div>\n  one\n\n</div>\n<div> two </div>"), "one\ntwo");
    assert_eq!(strip_html("a < b > c"), "a  c");
    assert_eq!(strip_html("no tags"), "no tags");
    assert_eq!(strip_html("open <tag never closes"), "open");
    assert_eq!(strip_html("a > b"), "a  b");
    assert_eq!(strip_html(""), "");
    assert_eq!(strip_html("<br>\r\n<br>"), "");
    assert_eq!(strip_html("x\r\ny\r"), "x\ny");
}

#[test]
fn gmail_folders_as_channels() {
    let cases = [
        ("INBOX", "Inbox"),
        ("[Gmail]/All Mail", "All Mail"),
        ("[Gmail]/Sent Mail", "Sent"),
        ("[Gmail]/Drafts", "Drafts"),
        ("[Gmail]/Spam", "Spam"),
        ("[Gmail]/Trash", "Trash"),
        ("[Gmail]/Starred", "Starred"),
        ("[Gmail]/Important", "Important"),
        ("[Gmail]/Chats", "[Gmail]/Chats"),
        ("Work", "Work"),
        ("inbox", "inbox"),
    ];
    for (raw, shown) in cases {
        let c = folder_to_channel(raw);
        assert_eq!(c.id, raw);
        assert_eq!(c.name, shown);
        assert_eq!(c.platform, Platform::Gmail);
        assert_eq!(c.unread_count, 0);
    }
    assert!(matches!(folder_to_channel("INBOX").channel_type, ChannelType::Private));
    match folder_to_channel("[Gmail]/Spam").channel_type {
        ChannelType::Other(s) => assert_eq!(s, "system"),
        other => panic!("{other:?}"),
    }
    match folder_to_channel("Work/Sub").channel_type {
        ChannelType::Other(s) => assert_eq!(s, "label"),
        other => panic!("{other:?}"),
    }
    match folder_to_channel("[Gmail]").channel_type {
        ChannelType::Other(s) => assert_eq!(s, "label"),
        other => panic!("{other:?}"),
    }
}

#[test]
fn gmail_listing_of_channels() {
    let names: Vec<String> = ["INBOX", "[Gmail]", "[Gmail]/All Mail", "[Gmail]/Sent Mail", "Work"]
        .iter()
        .map(|s| s.to_string())
        .collect();
    let channels = list_channels(&names, Some(4), 10);
    let seen: Vec<(&str, i32)> = channels.iter().map(|c| (c.id.as_str(), c.unread_count)).collect();
    assert_eq!(seen, vec![("INBOX", 4), ("[Gmail]/Sent Mail", 0), ("Work", 0)]);
    let channels = list_channels(&names, None, 2);
    let seen: Vec<(&str, i32)> = channels.iter().map(|c| (c.id.as_str(), c.unread_count)).collect();
    assert_eq!(seen, vec![("INBOX", 0), ("[Gmail]/Sent Mail", 0)]);
    assert!(list_channels(&names, None, 0).is_empty());
    assert!(list_channels(&Vec::new(), Some(1), 5).is_empty());
}

#[test]
fn gmail_content_types_by_extension() {
    let cases = [
        ("a.pdf", "application/pdf"),
        ("a.PNG", "image/png"),
        ("a.jpg", "image/jpeg"),
        ("a.jpeg", "image/jpeg"),
        ("a.gif", "image/gif"),
        ("a.zip", "application/zip"),
        ("a.doc", "application/msword"),
        ("a.docx", "application/msword"),
        ("a.txt", "text/plain"),
        ("a.csv", "text/csv"),
        ("a.exe", "application/octet-stream"),
        ("noext", "application/octet-stream"),
    ];
    for (path, mime) in cases {
        assert_eq!(guess_content_type(path), mime, "{path}");
    }
}

#[test]
fn gmail_numbers_and_queries() {
    assert_eq!(uid_str(&vec![3, 1, 4294967295]), "3,1,4294967295");
    assert_eq!(uid_str(&vec![0]), "0");
    assert_eq!(uid_str(&Vec::new()), "");
    assert_eq!(range_text(1, 20), "1:20");
    assert_eq!(message_id_query("<a@b>"), "HEADER Message-ID \"<a@b>\"");
    assert_eq!(text_query("say \"hi\" \\ now"), "TEXT \"say hi  now\"");
    assert_eq!(text_query(""), "TEXT \"\"");
    let e = message_not_found("<a@b>");
    assert_eq!((e.kind(), e.detail()), (ErrorKind::NotFound, "message not found: <a@b>"));
    assert_eq!(imap_find_message(vec![4, 2], "x").unwrap(), vec![4, 2]);
    let e = imap_find_message(Vec::new(), "<a@b>").unwrap_err();
    assert_eq!(e.detail(), "message not found: <a@b>");
}

#[test]
fn gmail_plain_text_is_found_first() {
    let l = part(
        "multipart/alternative",
        None,
        vec![
            part("multipart/related", None, vec![part("text/html; charset=x", Some("<i>h</i>"), vec![])]),
            part("text/plain; charset=utf-8", Some("plain"), vec![]),
        ],
    );
    assert_eq!(find_text_part(&l, "text/plain"), Some("plain".to_string()));
    assert_eq!(find_text_part(&l, "text/html"), Some("<i>h</i>".to_string()));
    assert_eq!(find_text_part(&l, "image/"), None);
    assert_eq!(extract_text_from_parsed(&l), "plain");
    let html_only = part("multipart/mixed", None, vec![part("text/html", Some("<p>x</p>\n<p>y</p>"), vec![])]);
    assert_eq!(extract_text_from_parsed(&html_only), "x\ny");
    let neither = part("application/pdf", Some("raw body"), vec![]);
    assert_eq!(extract_text_from_parsed(&neither), "raw body");
    assert_eq!(extract_text_from_parsed(&part("application/pdf", None, vec![])), "");
    // a part that fits but has no body does not count
    let no_body = part("multipart/mixed", None, vec![part("text/plain", None, vec![]), part("text/plain", Some("b"), vec![])]);
    assert_eq!(find_text_part(&no_body, "text/plain"), Some("b".to_string()));
    // the type of a letter with parts is not looked at
    let typed = part("text/plain", Some("outer"), vec![part("text/html", Some("inner"), vec![])]);
    assert_eq!(find_text_part(&typed, "text/plain"), None);
}

#[test]
fn gmail_attachments_are_noticed_and_found() {
    let mut attached = part("application/pdf", Some("PDF"), vec![]);
    attached.disposition = "attachment; filename=\"r.pdf\"".to_string();
    attached.disposition_filename = Some("r.pdf".to_string());
    let mut by_type = part("image/png", Some("PNG"), vec![]);
    by_type.content_name = Some("pic.png".to_string());
    let mut by_name = part("text/plain", Some("TXT"), vec![]);
    by_name.disposition_name = Some("n.txt".to_string());
    let mut undecodable = part("x/y", None, vec![]);
    undecodable.disposition_filename = Some("gone.bin".to_string());
    let mut shadowed = part("x/y", Some("late"), vec![]);
    shadowed.disposition_filename = Some("gone.bin".to_string());
    let l = part(
        "multipart/mixed",
        None,
        vec![
            part("text/plain", Some("body"), vec![]),
            part("multipart/related", None, vec![by_type, attached]),
            by_name,
            undecodable,
            shadowed,
        ],
    );
    assert!(check_attachments(&l));
    assert_eq!(find_attachment(&l, "r.pdf"), Some(b"PDF".to_vec()));
    assert_eq!(find_attachment(&l, "pic.png"), Some(b"PNG".to_vec()));
    assert_eq!(find_attachment(&l, "n.txt"), Some(b"TXT".to_vec()));
    assert_eq!(find_attachment(&l, "missing"), None);
    // the first part of the name ends the search, even without a body
    assert_eq!(find_attachment(&l, "gone.bin"), None);
    assert!(!check_attachments(&part("multipart/mixed", None, vec![part("text/plain", Some("b"), vec![])])));
    assert!(!check_attachments(&part("text/plain", Some("b"), vec![])));
    let mut inline = part("image/png", Some("x"), vec![]);
    inline.disposition = "inline; filename=a.png".to_string();
    assert!(!check_attachments(&part("m", None, vec![inline])));
}

#[test]
fn gmail_a_fetched_letter_becomes_a_message() {
    let m = fetch_to_message(&letter(TWO_PARTS), "INBOX").unwrap();
    assert_eq!(m.id, "<id@x>");
    assert_eq!(m.platform, Platform::Gmail);
    assert_eq!(m.channel_id, "INBOX");
    assert_eq!(m.sender, "Ann <ann@x.y>");
    assert_eq!(m.text, "Hi there");
    assert_eq!(m.timestamp, 1475417182);
    assert!(m.has_attachment);
    assert_eq!(m.reply_to, None);
    assert_eq!(m.meta.subject.as_deref(), Some("Hello"));
    assert_eq!(m.meta.cc, None);
    assert_eq!(m.meta.bcc, None);
}

#[test]
fn gmail_the_edges_of_a_fetched_letter() {
    let mut f = letter("Subject: t\r\n\r\nJust text\r\n");
    {
        let e = f.envelope.as_mut().unwrap();
        e.message_id = None;
        e.from = Some(vec![]);
        e.subject = Some(Vec::new());
        e.date = None;
        e.in_reply_to = Some(b"<parent@x>".to_vec());
        e.cc = Some(vec![addr(None, Some("c"), Some("x.y"))]);
        e.bcc = Some(vec![]);
    }
    let m = fetch_to_message(&f, "Work").unwrap();
    assert_eq!(m.id, "uid:7");
    assert_eq!(m.sender, "unknown");
    assert_eq!(m.text, "Just text\r\n");
    assert_eq!(m.timestamp, 0);
    assert!(!m.has_attachment);
    assert_eq!(m.reply_to.as_deref(), Some("<parent@x>"));
    assert_eq!(m.meta.subject, None);
    assert_eq!(m.meta.cc, Some(vec!["c@x.y".to_string()]));
    assert_eq!(m.meta.bcc, None);
    f.uid = None;
    assert_eq!(fetch_to_message(&f, "Work").unwrap().id, "uid:0");
    f.envelope = None;
    assert!(fetch_to_message(&f, "Work").is_none());
    let all = fetches_to_messages(&vec![letter("a: b\r\n\r\nx"), f, letter("a: b\r\n\r\ny")], "INBOX");
    assert_eq!(all.len(), 2);
    assert_eq!(all[1].text, "y");
}

#[test]
fn gmail_an_attachment_is_taken_from_a_letter() {
    let raw = TWO_PARTS.as_bytes().to_vec();
    assert_eq!(attachment_of(&raw, "report.pdf", "<id@x>").unwrap(), b"Hello".to_vec());
    assert_eq!(attachment_of(&raw, "r.pdf", "<id@x>").unwrap(), b"Hello".to_vec());
    let e = attachment_of(&raw, "other.pdf", "<id@x>").unwrap_err();
    assert_eq!(
        (e.kind(), e.detail()),
        (ErrorKind::NotFound, "attachment 'other.pdf' not found in <id@x>")
    );
}

#[test]
fn gmail_messages_are_ordered_from_the_newest() {
    let sorted = sort_newest_first(vec![
        message("a", 5),
        message("b", 9),
        message("c", 5),
        message("d", 1),
        message("e", 9),
        message("f", 5),
    ]);
    let ids: Vec<&str> = sorted.iter().map(|m| m.id.as_str()).collect();
    assert_eq!(ids, vec!["b", "e", "a", "c", "f", "d"]);
    assert!(sort_newest_first(Vec::new()).is_empty());
}

#[test]
fn gmail_ordering_agrees_with_a_stable_sort() {
    let stamps = [3i64, -1, 3, 7, 0, 7, 7, i64::MIN, i64::MAX, 3];
    let input: Vec<Message> = stamps.iter().enumerate().map(|(i, t)| message(&i.to_string(), *t)).collect();
    let mut expected: Vec<(String, i64)> = input.iter().map(|m| (m.id.clone(), m.timestamp)).collect();
    expected.sort_by(|a, b| b.1.cmp(&a.1));
    let sorted: Vec<(String, i64)> =
        sort_newest_first(input).into_iter().map(|m| (m.id, m.timestamp)).collect();
    assert_eq!(sorted, expected);
    let numbers = vec![5u32, 1, 9, 5, 0, u32::MAX, 9];
    let mut expected = numbers.clone();
    expected.sort_unstable();
    expected.reverse();
    assert_eq!(sort_greatest_first(&numbers), expected);
}

#[test]
fn gmail_the_range_of_a_reading() {
    assert_eq!(history_plan(0, None, 20), None);
    assert_eq!(history_plan(100, None, 20), Some((81, 100)));
    assert_eq!(history_plan(100, None, 500), Some((1, 100)));
    assert_eq!(history_plan(300, None, 500), Some((101, 300)));
    assert_eq!(history_plan(10, None, 20), Some((1, 10)));
    assert_eq!(history_plan(100, Some("gm:81"), 20), Some((61, 80)));
    assert_eq!(history_plan(100, Some("gm:1"), 20), None);
    assert_eq!(history_plan(100, Some("gm:0"), 20), None);
    assert_eq!(history_plan(100, Some("gm:x"), 20), Some((81, 100)));
    assert_eq!(history_plan(100, Some("81"), 20), Some((81, 100)));
    assert_eq!(history_plan(100, None, 0), Some((101, 100)));
    assert_eq!(history_plan(u32::MAX, None, 0), Some((u32::MAX, u32::MAX)));
    assert_eq!(history_plan(5, Some("gm:4294967296"), 2), Some((4, 5)));
}

#[test]
fn gmail_a_page_of_history() {
    let fetched = vec![letter("a: b\r\n\r\none"), letter("a: b\r\n\r\ntwo"), letter("a: b\r\n\r\nthree")];
    let page = history_page(&fetched, "INBOX", 81, 2);
    assert_eq!(page.items.len(), 2);
    assert!(page.has_more);
    assert_eq!(page.next_cursor.as_deref(), Some("gm:81"));
    let page = history_page(&fetched, "INBOX", 1, 500);
    assert_eq!(page.items.len(), 3);
    assert!(!page.has_more);
    assert_eq!(page.next_cursor, None);
    let page = empty_page();
    assert!(page.items.is_empty() && !page.has_more && page.next_cursor.is_none());
}

#[test]
fn gmail_the_selection_of_a_search() {
    let found = vec![3u32, 9, 1, 7, 5];
    assert_eq!(search_plan(&found, 0, 2), vec![9, 7]);
    assert_eq!(search_plan(&found, 2, 2), vec![5, 3]);
    assert_eq!(search_plan(&found, 4, 2), vec![1]);
    assert_eq!(search_plan(&found, 5, 2), Vec::<u32>::new());
    assert_eq!(search_plan(&found, 9, 2), Vec::<u32>::new());
    assert_eq!(search_plan(&found, 0, 0), Vec::<u32>::new());
    assert_eq!(search_plan(&found, 0, 500).len(), 5);
    let many: Vec<u32> = (1..=150).collect();
    let selected = search_plan(&many, 10, 500);
    assert_eq!(selected.len(), 100);
    assert_eq!((selected[0], selected[99]), (140, 41));
    assert_eq!(search_offset_of(Some("gm:10")), 10);
    assert_eq!(search_offset_of(Some("gm:")), 0);
    assert_eq!(search_offset_of(None), 0);
}

#[test]
fn gmail_a_page_of_a_search() {
    let fetched = vec![letter("a: b\r\n\r\none"), letter("a: b\r\n\r\ntwo")];
    let page = search_page(&fetched, 0, 2, 5, 2);
    assert_eq!(page.items.len(), 2);
    assert_eq!(page.items[0].channel_id, "INBOX");
    assert!(page.has_more);
    assert_eq!(page.next_cursor.as_deref(), Some("gm:2"));
    let page = search_page(&fetched, 3, 2, 5, 2);
    assert!(!page.has_more);
    assert_eq!(page.next_cursor, None);
    let page = search_page(&fetched, usize::MAX, 2, 5, 1);
    assert_eq!(page.items.len(), 1);
    assert!(!page.has_more);
}

#[test]
fn gmail_the_profile_is_the_address() {
    let p = get_profile(&config());
    assert_eq!(p.platform, Platform::Gmail);
    assert_eq!((p.id.as_str(), p.name.as_str()), ("me@example.com", "me"));
    assert_eq!(p.email.as_deref(), Some("me@example.com"));
    assert_eq!((p.username, p.phone), (None, None));
    let odd = GmailConfig { email: "no-at".into(), app_password: String::new() };
    assert_eq!(get_profile(&odd).name, "no-at");
    let odd = GmailConfig { email: "@x".into(), app_password: String::new() };
    assert_eq!(get_profile(&odd).name, "");
}

#[test]
fn gmail_a_letter_is_checked_before_it_is_built() {
    let to = vec!["a@x.y".to_string()];
    assert!(check_letter(&to, &Vec::new()).is_ok());
    assert!(check_letter(&to, &vec!["/tmp/a.pdf".to_string(), "b..c".to_string()]).is_ok());
    let e = check_letter(&Vec::new(), &vec!["../x".to_string()]).unwrap_err();
    assert_eq!((e.kind(), e.detail()), (ErrorKind::InvalidInput, "'to' cannot be empty"));
    let e = check_letter(&to, &vec!["ok".to_string(), "a/../b".to_string()]).unwrap_err();
    assert_eq!(
        (e.kind(), e.detail()),
        (ErrorKind::InvalidInput, "attachment path must not contain '..' components")
    );
    assert_eq!(attachment_name("/tmp/report.pdf"), "report.pdf");
    assert_eq!(attachment_name("/"), "attachment");
    assert!(check_save_path("/tmp/x").is_ok());
    let e = check_save_path("/tmp/../x").unwrap_err();
    assert_eq!(e.detail(), "save_path must not contain '..' components");
}

#[test]
fn gmail_sent_letters_and_drafts() {
    let cc = vec!["c@x.y".to_string()];
    let m = sent_email(&config(), "<new@x>".to_string(), "Subj", "Body", Some("<old@x>"), &cc, &Vec::new(), 2, 99);
    assert_eq!(m.id, "<new@x>");
    assert_eq!(m.platform, Platform::Gmail);
    assert_eq!(m.channel_id, "[Gmail]/Sent Mail");
    assert_eq!(m.sender, "me@example.com");
    assert_eq!(m.text, "Body");
    assert_eq!(m.timestamp, 99);
    assert!(m.has_attachment);
    assert_eq!(m.reply_to.as_deref(), Some("<old@x>"));
    assert_eq!(m.meta.subject.as_deref(), Some("Subj"));
    assert_eq!(m.meta.cc, Some(cc.clone()));
    assert_eq!(m.meta.bcc, None);
    let m = sent_email(&config(), String::new(), "", "", None, &Vec::new(), &cc, 0, 0);
    assert!(!m.has_attachment);
    assert_eq!(m.meta.subject.as_deref(), Some(""));
    assert_eq!(m.meta.bcc, Some(cc));
    let d = stored_draft(&config(), "<d@x>".to_string(), "Subj", "Body", 5);
    assert_eq!(d.channel_id, "[Gmail]/Drafts");
    assert_eq!(d.meta.subject.as_deref(), Some("Subj"));
    assert_eq!((d.timestamp, d.has_attachment), (5, false));
    assert_eq!(stored_draft(&config(), String::new(), "", "", 0).meta.subject, None);
}
