use nexus::entities::{
    Channel, ChannelType, MemberRole, Message, MessageMeta, Paginated, Platform, Reaction,
};

fn message(text: &str) -> Message {
    Message {
        id: "7".to_string(),
        platform: Platform::Telegram,
        channel_id: "1".to_string(),
        sender: "Ann".to_string(),
        text: text.to_string(),
        timestamp: 0,
        has_attachment: false,
        reply_to: None,
        meta: MessageMeta::default(),
    }
}

#[test]
fn entities_platforms_have_lowercase_names() {
    assert_eq!(Platform::Telegram.to_string(), "telegram");
    assert_eq!(Platform::Gmail.to_string(), "gmail");
    assert_eq!(Platform::WhatsApp.to_string(), "whatsapp");
    assert_eq!(Platform::Slack.to_string(), "slack");
    assert_eq!(Platform::Discord.to_string(), "discord");
    assert_eq!(Platform::Slack.name(), "slack");
}

#[test]
fn entities_platforms_are_read_from_names_and_abbreviations() {
    let cases = [
        ("telegram", Platform::Telegram),
        ("tg", Platform::Telegram),
        ("gmail", Platform::Gmail),
        ("email", Platform::Gmail),
        ("mail", Platform::Gmail),
        ("whatsapp", Platform::WhatsApp),
        ("wa", Platform::WhatsApp),
        ("slack", Platform::Slack),
        ("sl", Platform::Slack),
        ("discord", Platform::Discord),
        ("dc", Platform::Discord),
        ("TeleGram", Platform::Telegram),
        ("WA", Platform::WhatsApp),
    ];
    for (name, p) in cases {
        assert_eq!(Platform::from_name(name), Ok(p));
        assert_eq!(name.parse::<Platform>(), Ok(p));
    }
}

#[test]
fn entities_an_unknown_platform_is_named_in_the_failure() {
    assert_eq!(Platform::from_name("Signal"), Err("unknown platform: Signal".to_string()));
    assert_eq!(Platform::from_name(""), Err("unknown platform: ".to_string()));
    assert_eq!(" tg".parse::<Platform>(), Err("unknown platform:  tg".to_string()));
}

#[test]
fn entities_roles_have_lowercase_names() {
    assert_eq!(MemberRole::Owner.to_string(), "owner");
    assert_eq!(MemberRole::Admin.to_string(), "admin");
    assert_eq!(MemberRole::Member.to_string(), "member");
    assert_eq!(MemberRole::Restricted.to_string(), "restricted");
    assert_eq!(MemberRole::Banned.to_string(), "banned");
}

#[test]
fn entities_fresh_metadata_is_empty() {
    assert!(MessageMeta::default().is_empty());
    assert!(message("x").meta.is_empty());
}

#[test]
fn entities_metadata_with_any_field_is_not_empty() {
    let mut metas: Vec<MessageMeta> = Vec::new();
    for i in 0..10 {
        let mut m = MessageMeta::default();
        match i {
            0 => m.subject = Some(String::new()),
            1 => m.cc = Some(vec![]),
            2 => m.bcc = Some(vec![]),
            3 => m.labels = Some(vec![]),
            4 => m.media_type = Some("photo".into()),
            5 => m.forward_from = Some("forwarded".into()),
            6 => m.reactions = Some(vec![Reaction { emoji: "x".into(), count: 1 }]),
            7 => m.views = Some(0),
            8 => m.edit_date = Some(1),
            _ => m.is_pinned = Some(false),
        }
        metas.push(m);
    }
    for m in metas {
        assert!(!m.is_empty());
    }
}

#[test]
fn entities_a_message_is_introduced_by_platform_id_and_sender() {
    assert_eq!(message("hello").to_string(), "[telegram:7] Ann: hello");
    assert_eq!(message("").to_string(), "[telegram:7] Ann: ");
}

#[test]
fn entities_a_long_message_is_cut_after_eighty_characters() {
    let eighty = "x".repeat(80);
    assert_eq!(message(&eighty).to_string(), format!("[telegram:7] Ann: {eighty}"));
    let longer = "y".repeat(81);
    assert_eq!(
        message(&longer).to_string(),
        format!("[telegram:7] Ann: {}...", "y".repeat(80))
    );
    let umlauts = "ä".repeat(100);
    assert_eq!(
        message(&umlauts).to_string(),
        format!("[telegram:7] Ann: {}...", "ä".repeat(80))
    );
}

#[test]
fn entities_a_channel_is_introduced_by_platform_name_sort_and_unread() {
    let mut c = Channel {
        id: "1".into(),
        platform: Platform::Slack,
        name: "general".into(),
        channel_type: ChannelType::Group,
        unread_count: 3,
        description: None,
        member_count: None,
        last_message_date: None,
    };
    assert_eq!(c.to_string(), "[slack] general (Group, unread: 3)");
    c.channel_type = ChannelType::Other("for\"um".into());
    c.unread_count = -1;
    assert_eq!(c.to_string(), "[slack] general (Other(\"for\\\"um\"), unread: -1)");
    assert_eq!(c.to_string(), format!("[slack] general ({:?}, unread: -1)", c.channel_type));
    for t in [ChannelType::Private, ChannelType::Broadcast, ChannelType::Thread] {
        c.channel_type = t;
        assert_eq!(c.to_string(), format!("[slack] general ({:?}, unread: -1)", c.channel_type));
    }
}

#[test]
fn entities_a_page_holds_its_items() {
    let page = Paginated { items: vec![message("a")], has_more: true, next_cursor: Some("tg:7".to_string()) };
    assert_eq!(page.items.len(), 1);
    assert!(page.has_more);
    assert_eq!(page.clone().next_cursor.as_deref(), Some("tg:7"));
}
