use nexus::entities::Platform;
use nexus::error::ErrorKind;
use nexus::service::{clamp, validate_not_empty, AgentService};

#[test]
fn service_clamp_gives_the_default_for_zero() {
    assert_eq!(clamp(0, 1, 100, 20), 20);
    assert_eq!(clamp(0, 5, 6, 99), 99);
}

#[test]
fn service_clamp_brings_a_limit_into_bounds() {
    assert_eq!(clamp(1, 1, 100, 20), 1);
    assert_eq!(clamp(50, 1, 100, 20), 50);
    assert_eq!(clamp(100, 1, 100, 20), 100);
    assert_eq!(clamp(101, 1, 100, 20), 100);
    assert_eq!(clamp(usize::MAX, 1, 200, 20), 200);
    assert_eq!(clamp(3, 5, 10, 7), 5);
}

#[test]
fn service_clamp_agrees_with_max_then_min() {
    for (val, min, max) in [(3usize, 5usize, 10usize), (7, 5, 10), (12, 5, 10), (3, 10, 5), (7, 10, 5), (12, 10, 5)] {
        assert_eq!(clamp(val, min, max, 0), val.max(min).min(max));
    }
}

#[test]
fn service_empty_values_are_refused_by_name() {
    assert!(validate_not_empty("x", "channel").is_ok());
    assert!(validate_not_empty(" x ", "channel").is_ok());
    for empty in ["", " ", "\n\t"] {
        let e = validate_not_empty(empty, "channel").unwrap_err();
        assert_eq!(e.kind(), ErrorKind::InvalidInput);
        assert_eq!(e.detail(), "channel cannot be empty");
    }
    assert_eq!(validate_not_empty("", "text").unwrap_err().detail(), "text cannot be empty");
}

#[test]
fn service_a_new_service_has_no_adapters() {
    let s: AgentService<&str> = AgentService::new();
    assert!(s.available_platforms().is_empty());
    let e = s.get(Platform::Slack).unwrap_err();
    assert_eq!(e.kind(), ErrorKind::PlatformNotAvailable);
    assert_eq!(e.detail(), "slack");
    assert_eq!(e.to_string(), "platform not available: slack");
}

#[test]
fn service_registered_adapters_are_found() {
    let mut s: AgentService<&str> = AgentService::new();
    s.register(Platform::Slack, "slack-1");
    s.register(Platform::Telegram, "tg");
    assert_eq!(*s.get(Platform::Slack).unwrap(), "slack-1");
    assert_eq!(*s.get(Platform::Telegram).unwrap(), "tg");
    assert!(s.get(Platform::Gmail).is_err());
    assert_eq!(s.available_platforms(), vec![Platform::Telegram, Platform::Slack]);
    s.register(Platform::Slack, "slack-2");
    assert_eq!(*s.get(Platform::Slack).unwrap(), "slack-2");
    assert_eq!(s.available_platforms(), vec![Platform::Telegram, Platform::Slack]);
    assert_eq!(*s.get_profile(Platform::Telegram).unwrap(), "tg");
}

#[test]
fn service_every_platform_can_be_registered() {
    let all = [Platform::Telegram, Platform::Gmail, Platform::WhatsApp, Platform::Slack, Platform::Discord];
    let mut s: AgentService<usize> = AgentService::new();
    for (i, p) in all.iter().enumerate().rev() {
        s.register(*p, i);
    }
    assert_eq!(s.available_platforms(), all.to_vec());
    for (i, p) in all.iter().enumerate() {
        assert_eq!(*s.get(*p).unwrap(), i);
    }
}

#[test]
fn service_listing_channels_clamps_the_limit() {
    let mut s: AgentService<u8> = AgentService::new();
    s.register(Platform::Telegram, 1);
    assert_eq!(s.list_channels(Platform::Telegram, 0).unwrap(), (&1, 20));
    assert_eq!(s.list_channels(Platform::Telegram, 500).unwrap(), (&1, 100));
    assert_eq!(s.list_channels(Platform::Telegram, 7).unwrap(), (&1, 7));
    assert_eq!(s.list_channels(Platform::Gmail, 7).unwrap_err().detail(), "gmail");
}

#[test]
fn service_reading_messages_checks_the_channel_first() {
    let mut s: AgentService<u8> = AgentService::new();
    s.register(Platform::Telegram, 1);
    assert_eq!(s.read_messages(Platform::Telegram, "chat", 0).unwrap(), (&1, 20));
    assert_eq!(s.read_messages(Platform::Telegram, "chat", 500).unwrap(), (&1, 200));
    let e = s.read_messages(Platform::Gmail, " ", 5).unwrap_err();
    assert_eq!((e.kind(), e.detail()), (ErrorKind::InvalidInput, "channel cannot be empty"));
    let e = s.read_messages(Platform::Gmail, "inbox", 5).unwrap_err();
    assert_eq!((e.kind(), e.detail()), (ErrorKind::PlatformNotAvailable, "gmail"));
}

#[test]
fn service_sending_checks_channel_then_text_then_platform() {
    let mut s: AgentService<u8> = AgentService::new();
    s.register(Platform::Telegram, 1);
    assert_eq!(*s.send_message(Platform::Telegram, "chat", "hi").unwrap(), 1);
    assert_eq!(s.send_message(Platform::Slack, "", "").unwrap_err().detail(), "channel cannot be empty");
    assert_eq!(s.send_message(Platform::Slack, "c", " ").unwrap_err().detail(), "text cannot be empty");
    assert_eq!(s.send_message(Platform::Slack, "c", "t").unwrap_err().detail(), "slack");
}

#[test]
fn service_searching_checks_the_query_first() {
    let mut s: AgentService<u8> = AgentService::new();
    s.register(Platform::Discord, 4);
    assert_eq!(s.search(Platform::Discord, "cats", 0).unwrap(), (&4, 20));
    assert_eq!(s.search(Platform::Discord, "cats", 101).unwrap(), (&4, 100));
    assert_eq!(s.search(Platform::WhatsApp, "", 1).unwrap_err().detail(), "query cannot be empty");
    assert_eq!(s.search(Platform::WhatsApp, "q", 1).unwrap_err().detail(), "whatsapp");
}
