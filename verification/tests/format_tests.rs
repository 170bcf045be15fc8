use nexus::entities::{
    Channel, ChannelType, ChatInfo, ChatMember, MemberRole, Message, MessageMeta, Paginated,
    Platform, Profile, Reaction,
};
use nexus::format::{
    format_channel_line, format_channel_type, format_channels, format_chat_info, format_labels,
    format_members, format_message, format_message_line, format_messages, format_paginated,
    format_profile, format_timestamp, Format,
};

fn message(text: &str) -> Message {
    Message {
        id: "7".to_string(),
        platform: Platform::Telegram,
        channel_id: "1".to_string(),
        sender: "Ann".to_string(),
        text: text.to_string(),
        timestamp: 1431648000,
        has_attachment: false,
        reply_to: None,
        meta: MessageMeta::default(),
    }
}

fn channel() -> Channel {
    Channel {
        id: "-100".into(),
        platform: Platform::Telegram,
        name: "News".into(),
        channel_type: ChannelType::Broadcast,
        unread_count: 0,
        description: None,
        member_count: None,
        last_message_date: None,
    }
}

#[test]
fn format_formats_are_read_from_words() {
    assert_eq!(Format::parse(Some("full")), Format::Full);
    assert_eq!(Format::parse(Some("expanded")), Format::Expanded);
    assert_eq!(Format::parse(Some("compact")), Format::Compact);
    assert_eq!(Format::parse(Some("FULL")), Format::Compact);
    assert_eq!(Format::parse(Some("")), Format::Compact);
    assert_eq!(Format::parse(None), Format::Compact);
}

#[test]
fn format_timestamps_are_month_day_and_time_in_utc() {
    assert_eq!(format_timestamp(0), "Jan 01 00:00");
    assert_eq!(format_timestamp(1431648000), "May 15 00:00");
    assert_eq!(format_timestamp(1700000000), "Nov 14 22:13");
    assert_eq!(format_timestamp(-1), "Dec 31 23:59");
    assert_eq!(format_timestamp(951782400), "Feb 29 00:00");
}

#[test]
fn format_timestamps_out_of_range_are_written_as_numbers() {
    assert_eq!(format_timestamp(i64::MAX), "9223372036854775807");
    assert_eq!(format_timestamp(i64::MIN), "-9223372036854775808");
}

#[test]
fn format_names_of_channel_types() {
    assert_eq!(format_channel_type(&ChannelType::Private), "private");
    assert_eq!(format_channel_type(&ChannelType::Group), "group");
    assert_eq!(format_channel_type(&ChannelType::Broadcast), "broadcast");
    assert_eq!(format_channel_type(&ChannelType::Thread), "thread");
    assert_eq!(format_channel_type(&ChannelType::Other("forum".into())), "forum");
}

#[test]
fn format_the_line_of_a_channel() {
    let mut c = channel();
    assert_eq!(format_channel_line(&c), "  News [broadcast] id:-100");
    c.unread_count = 3;
    assert_eq!(format_channel_line(&c), "  News [broadcast] 3 unread id:-100");
    c.member_count = Some(12);
    assert_eq!(format_channel_line(&c), "  News [broadcast] 3 unread 12m id:-100");
    c.unread_count = -2;
    c.member_count = Some(0);
    assert_eq!(format_channel_line(&c), "  News [broadcast] 0m id:-100");
}

#[test]
fn format_channels_as_a_listing() {
    let mut second = channel();
    second.name = "Chat".into();
    second.channel_type = ChannelType::Private;
    second.id = "5".into();
    let channels = vec![channel(), second];
    assert_eq!(
        format_channels(&channels, Format::Compact).unwrap(),
        "2 channels:\n  News [broadcast] id:-100\n  Chat [private] id:5"
    );
    assert_eq!(
        format_channels(&channels, Format::Expanded),
        format_channels(&channels, Format::Compact)
    );
    assert_eq!(format_channels(&Vec::new(), Format::Compact).unwrap(), "0 channels:");
    assert_eq!(format_channels(&channels, Format::Full), None);
}

#[test]
fn format_the_line_of_a_plain_message() {
    assert_eq!(format_message_line(&message("hello"), 200), "  [May 15 00:00] Ann: hello (id:7)");
    assert_eq!(format_message_line(&message("a\r\nb"), 0), "  [May 15 00:00] Ann: a b (id:7)");
}

#[test]
fn format_the_text_of_a_message_is_cut_in_the_compact_format() {
    let long = "x".repeat(250);
    let m = message(&long);
    assert_eq!(
        format_message(&m, Format::Compact).unwrap(),
        format!("  [May 15 00:00] Ann: {}... (id:7)", "x".repeat(200))
    );
    assert_eq!(
        format_message(&m, Format::Expanded).unwrap(),
        format!("  [May 15 00:00] Ann: {long} (id:7)")
    );
    assert_eq!(format_message(&m, Format::Full), None);
    assert_eq!(
        format_message_line(&m, 3),
        "  [May 15 00:00] Ann: xxx... (id:7)"
    );
}

#[test]
fn format_the_marks_of_a_message() {
    let mut m = message("hi");
    m.has_attachment = true;
    m.reply_to = Some("4".into());
    m.meta.is_pinned = Some(true);
    m.meta.views = Some(120);
    m.meta.edit_date = Some(1);
    m.meta.reactions = Some(vec![
        Reaction { emoji: "👍".into(), count: 3 },
        Reaction { emoji: "🔥".into(), count: 1 },
        Reaction { emoji: "x".into(), count: 0 },
    ]);
    assert_eq!(
        format_message_line(&m, 200),
        "  [May 15 00:00] Ann: hi +attach reply:4 pinned 120views edited [👍x3🔥x] (id:7)"
    );
    m.meta.is_pinned = Some(false);
    m.meta.views = Some(-1);
    m.meta.reactions = Some(vec![]);
    assert_eq!(
        format_message_line(&m, 200),
        "  [May 15 00:00] Ann: hi +attach reply:4 -1views edited (id:7)"
    );
    // the subject of a message that is no mail is not shown
    m.meta.subject = Some("s".into());
    assert_eq!(
        format_message_line(&m, 200),
        "  [May 15 00:00] Ann: hi +attach reply:4 -1views edited (id:7)"
    );
}

#[test]
fn format_a_mail_shows_its_subject_and_nothing_else() {
    let mut m = message("body");
    m.platform = Platform::Gmail;
    m.meta.is_pinned = Some(true);
    m.meta.views = Some(3);
    assert_eq!(format_message_line(&m, 200), "  [May 15 00:00] Ann: body (id:7)");
    let subject = "S".repeat(70);
    m.meta.subject = Some(subject.clone());
    assert_eq!(
        format_message_line(&m, 200),
        format!("  [May 15 00:00] Ann: body subj:{}... (id:7)", "S".repeat(60))
    );
    assert_eq!(
        format_message_line(&m, 0),
        format!("  [May 15 00:00] Ann: body subj:{subject} (id:7)")
    );
}

#[test]
fn format_messages_as_a_listing() {
    let messages = vec![message("a"), message("b")];
    assert_eq!(
        format_messages(&messages, Format::Compact).unwrap(),
        "2 messages:\n  [May 15 00:00] Ann: a (id:7)\n  [May 15 00:00] Ann: b (id:7)"
    );
    assert_eq!(format_messages(&Vec::new(), Format::Expanded).unwrap(), "0 messages:");
    assert_eq!(format_messages(&messages, Format::Full), None);
}

#[test]
fn format_a_page_tells_where_more_is_to_be_had() {
    let mut page = Paginated { items: vec![message("a")], has_more: true, next_cursor: Some("tg:7".to_string()) };
    assert_eq!(
        format_paginated(&page, Format::Compact).unwrap(),
        "1 messages:\n  [May 15 00:00] Ann: a (id:7)\n  ... more available (cursor: tg:7)"
    );
    page.has_more = false;
    assert_eq!(
        format_paginated(&page, Format::Compact).unwrap(),
        "1 messages:\n  [May 15 00:00] Ann: a (id:7)"
    );
    page.has_more = true;
    page.next_cursor = None;
    assert_eq!(
        format_paginated(&page, Format::Expanded).unwrap(),
        "1 messages:\n  [May 15 00:00] Ann: a (id:7)"
    );
    assert_eq!(format_paginated(&page, Format::Full), None);
}

#[test]
fn format_a_profile_on_one_line() {
    let mut p = Profile {
        platform: Platform::Telegram,
        id: "99".into(),
        name: "Ann Lee".into(),
        username: Some("ann".into()),
        email: Some("ann@example.com".into()),
        phone: Some("15551234567".into()),
    };
    assert_eq!(
        format_profile(&p, Format::Compact).unwrap(),
        "Ann Lee (@ann) id:99 ann@example.com +15551234567 [telegram]"
    );
    p.username = None;
    p.email = None;
    p.phone = None;
    p.platform = Platform::Gmail;
    assert_eq!(format_profile(&p, Format::Expanded).unwrap(), "Ann Lee id:99 [gmail]");
    assert_eq!(format_profile(&p, Format::Full), None);
}

#[test]
fn format_the_details_of_a_chat_on_one_line() {
    let mut info = ChatInfo {
        id: "-100".into(),
        platform: Platform::Telegram,
        name: "News".into(),
        channel_type: ChannelType::Broadcast,
        description: Some("d".repeat(120)),
        member_count: 1500,
        unread_count: 2,
        invite_link: Some("https://t.me/+x".into()),
        is_verified: true,
        is_scam: true,
    };
    assert_eq!(
        format_chat_info(&info, Format::Compact).unwrap(),
        format!(
            "News [broadcast] | members:1500 | unread:2 | desc:{}... | verified | SCAM | link:https://t.me/+x | id:-100",
            "d".repeat(100)
        )
    );
    assert_eq!(
        format_chat_info(&info, Format::Expanded).unwrap(),
        format!(
            "News [broadcast] | members:1500 | unread:2 | desc:{} | verified | SCAM | link:https://t.me/+x | id:-100",
            "d".repeat(120)
        )
    );
    info.description = Some(String::new());
    info.unread_count = 0;
    info.invite_link = None;
    info.is_verified = false;
    info.is_scam = false;
    info.member_count = 0;
    assert_eq!(format_chat_info(&info, Format::Compact).unwrap(), "News [broadcast] | members:0 | id:-100");
    info.description = Some("line\none".into());
    assert_eq!(
        format_chat_info(&info, Format::Expanded).unwrap(),
        "News [broadcast] | members:0 | desc:line one | id:-100"
    );
    assert_eq!(format_chat_info(&info, Format::Full), None);
}

#[test]
fn format_members_as_a_listing() {
    let members = vec![
        ChatMember { user_id: "1".into(), name: "Ann".into(), username: Some("ann".into()), role: MemberRole::Owner, joined_date: None },
        ChatMember { user_id: "2".into(), name: "Bob".into(), username: None, role: MemberRole::Banned, joined_date: Some(3) },
    ];
    assert_eq!(
        format_members(&members, Format::Compact).unwrap(),
        "2 members:\n  Ann (@ann) [owner] id:1\n  Bob [banned] id:2"
    );
    assert_eq!(format_members(&Vec::new(), Format::Expanded).unwrap(), "0 members:");
    assert_eq!(format_members(&members, Format::Full), None);
}

#[test]
fn format_labels_as_a_listing_or_as_json() {
    let labels = vec!["INBOX".to_string(), "Work \"A\"".to_string()];
    assert_eq!(format_labels(&labels, Format::Compact), "2 labels:\n  INBOX\n  Work \"A\"");
    assert_eq!(format_labels(&labels, Format::Expanded), format_labels(&labels, Format::Compact));
    assert_eq!(format_labels(&labels, Format::Full), r#"["INBOX","Work \"A\""]"#);
    assert_eq!(format_labels(&Vec::new(), Format::Compact), "0 labels:");
    assert_eq!(format_labels(&Vec::new(), Format::Full), "[]");
}
