use nexus::entities::Platform;
use nexus::error::ErrorKind;
use nexus::http::Method;
use nexus::json::Json;
use nexus::whatsapp::{
    authorization, detect_media_type, list_channels, media_id, parse_api_error, parse_profile,
    parse_response, profile_call, read_messages, request_failed, search, send_media_call,
    send_message_call, sent_id, sent_media_message, sent_message, unreadable_body, upload_plan,
    url, MediaSort, WhatsAppConfig, BASE_URL,
};

fn config() -> WhatsAppConfig {
    WhatsAppConfig { access_token: "tok".into(), phone_number_id: "1555".into() }
}

fn j(text: &str) -> Json {
    Json::parse(text).unwrap()
}

#[test]
fn whatsapp_addresses_lie_under_the_number() {
    assert_eq!(BASE_URL, "https://graph.facebook.com/v21.0");
    assert_eq!(url(&config(), "/messages"), "https://graph.facebook.com/v21.0/1555/messages");
    assert_eq!(url(&config(), ""), "https://graph.facebook.com/v21.0/1555");
    assert_eq!(authorization(&config()), "Bearer tok");
}

#[test]
fn whatsapp_refused_credentials_are_authorization_failures() {
    for status in [401u16, 403] {
        let e = parse_api_error(r#"{"error":{"message":"bad token","code":190}}"#, status);
        assert_eq!(e.kind(), ErrorKind::Auth);
        assert_eq!(
            e.detail(),
            format!(r#"whatsapp auth failed ({status}): {{"error":{{"message":"bad token","code":190}}}}"#)
        );
    }
}

#[test]
fn whatsapp_failures_tell_code_and_message() {
    let e = parse_api_error(r#"{"error":{"message":"Invalid parameter","code":100}}"#, 400);
    assert_eq!((e.kind(), e.detail()), (ErrorKind::Api, "whatsapp error 100: Invalid parameter"));
    let e = parse_api_error(r#"{"error":{"message":"m"}}"#, 400);
    assert_eq!(e.detail(), "whatsapp error 0: m");
    let e = parse_api_error(r#"{"error":{"code":7,"message":null}}"#, 400);
    assert_eq!(e.detail(), r#"whatsapp error 7: {"error":{"code":7,"message":null}}"#);
    let e = parse_api_error(r#"{"error":{}}"#, 500);
    assert_eq!(e.detail(), r#"whatsapp error 0: {"error":{}}"#);
    let e = parse_api_error(r#"{"error":{"code":null,"extra":[1]},"more":1}"#, 500);
    assert_eq!(e.detail(), r#"whatsapp error 0: {"error":{"code":null,"extra":[1]},"more":1}"#);
}

#[test]
fn whatsapp_failures_without_detail_tell_status_and_body() {
    for body in [
        "not json",
        "",
        "{}",
        r#"{"error":null}"#,
        r#"{"error":"text"}"#,
        r#"{"error":{"message":5}}"#,
        r#"{"error":{"code":"100"}}"#,
        r#"{"error":{"code":1.5}}"#,
        r#""text""#,
    ] {
        let e = parse_api_error(body, 502);
        assert_eq!(e.kind(), ErrorKind::Api);
        assert_eq!(e.detail(), format!("whatsapp error (502): {body}"), "{body}");
    }
}

#[test]
fn whatsapp_answers_are_checked() {
    assert_eq!(parse_response(200, r#"{"a":1}"#).unwrap(), j(r#"{"a":1}"#));
    let e = parse_response(400, r#"{"error":{"message":"x","code":1}}"#).unwrap_err();
    assert_eq!(e.detail(), "whatsapp error 1: x");
    let e = parse_response(200, "oops").unwrap_err();
    assert_eq!(e.kind(), ErrorKind::Api);
    assert!(e.detail().starts_with("whatsapp parse response: "));
    let e = request_failed("dns");
    assert_eq!((e.kind(), e.detail()), (ErrorKind::Network, "whatsapp request failed: dns"));
    let e = unreadable_body("eof");
    assert_eq!((e.kind(), e.detail()), (ErrorKind::Network, "whatsapp read body: eof"));
}

#[test]
fn whatsapp_media_by_extension() {
    let cases = [
        ("a.jpg", MediaSort::Image, "image/jpeg"),
        ("a.JPEG", MediaSort::Image, "image/jpeg"),
        ("a.png", MediaSort::Image, "image/png"),
        ("a.gif", MediaSort::Image, "image/gif"),
        ("a.webp", MediaSort::Image, "image/webp"),
        ("a.mp4", MediaSort::Video, "video/mp4"),
        ("a.3gp", MediaSort::Video, "video/3gpp"),
        ("a.mp3", MediaSort::Audio, "audio/mpeg"),
        ("a.ogg", MediaSort::Audio, "audio/ogg"),
        ("a.amr", MediaSort::Audio, "audio/amr"),
        ("a.aac", MediaSort::Audio, "audio/aac"),
        ("a.opus", MediaSort::Audio, "audio/opus"),
        ("a.pdf", MediaSort::Document, "application/pdf"),
        ("a.doc", MediaSort::Document, "application/msword"),
        ("a.docx", MediaSort::Document, "application/vnd.openxmlformats-officedocument.wordprocessingml.document"),
        ("a.xls", MediaSort::Document, "application/vnd.ms-excel"),
        ("a.xlsx", MediaSort::Document, "application/vnd.openxmlformats-officedocument.spreadsheetml.sheet"),
        ("a.ppt", MediaSort::Document, "application/vnd.ms-powerpoint"),
        ("a.pptx", MediaSort::Document, "application/vnd.openxmlformats-officedocument.presentationml.presentation"),
        ("a.txt", MediaSort::Document, "text/plain"),
        ("a.zip", MediaSort::Document, "application/zip"),
        ("a.bin", MediaSort::Document, "application/octet-stream"),
        ("a", MediaSort::Document, "application/octet-stream"),
        (".jpg", MediaSort::Document, "application/octet-stream"),
        ("dir.jpg/file", MediaSort::Document, "application/octet-stream"),
        ("/x/y.tar.PNG", MediaSort::Image, "image/png"),
        ("", MediaSort::Document, "application/octet-stream"),
    ];
    for (path, sort, mime) in cases {
        assert_eq!(detect_media_type(path), (sort, mime), "{path}");
    }
}

#[test]
fn whatsapp_media_agrees_with_the_paths_of_the_platform() {
    for path in ["a.jpg", ".jpg", "a.b.c", "a.", "a/b.d/c", "x/.hidden.txt", "..", "a/..", "a/b/", "a.png/"] {
        let std = std::path::Path::new(path)
            .extension()
            .and_then(|e| e.to_str())
            .unwrap_or("")
            .to_string();
        assert_eq!(nexus::text::extension(path).unwrap_or_default(), std, "{path}");
        let name = std::path::Path::new(path).file_name().and_then(|n| n.to_str()).map(|s| s.to_string());
        assert_eq!(nexus::text::file_name(path), name, "{path}");
    }
}

#[test]
fn whatsapp_sorts_have_names_and_captions() {
    assert_eq!(MediaSort::Image.name(), "image");
    assert_eq!(MediaSort::Video.name(), "video");
    assert_eq!(MediaSort::Audio.name(), "audio");
    assert_eq!(MediaSort::Document.name(), "document");
    assert!(MediaSort::Image.supports_caption());
    assert!(MediaSort::Video.supports_caption());
    assert!(MediaSort::Document.supports_caption());
    assert!(!MediaSort::Audio.supports_caption());
}

#[test]
fn whatsapp_profile_of_the_business() {
    let c = profile_call(&config());
    assert_eq!(c.method, Method::Get);
    assert_eq!(
        c.url,
        "https://graph.facebook.com/v21.0/1555/whatsapp_business_profile?fields=about,address,description,email,profile_picture_url,messaging_product,vertical"
    );
    let p = parse_profile(&j(r#"{"data":[{"about":"We sell","email":"shop@x.y"},{"about":"second"}]}"#), &config());
    assert_eq!(p.platform, Platform::WhatsApp);
    assert_eq!((p.id.as_str(), p.name.as_str()), ("1555", "We sell"));
    assert_eq!(p.email.as_deref(), Some("shop@x.y"));
    assert_eq!((p.username, p.phone), (None, None));
    let p = parse_profile(&j(r#"{"data":[{"email":""}]}"#), &config());
    assert_eq!(p.name, "WhatsApp Business");
    assert_eq!(p.email, None);
    let p = parse_profile(&j(r#"{"data":[]}"#), &config());
    assert_eq!(p.name, "WhatsApp Business");
}

#[test]
fn whatsapp_listing_reading_and_search_are_not_implemented() {
    let e = list_channels();
    assert_eq!(e.kind(), ErrorKind::NotImplemented);
    assert_eq!(
        e.detail(),
        "WhatsApp Cloud API does not support listing conversations. Use send_message with a phone number directly."
    );
    let e = read_messages();
    assert_eq!(e.kind(), ErrorKind::NotImplemented);
    assert_eq!(
        e.detail(),
        "WhatsApp Cloud API does not support reading message history. Messages are delivered via webhooks."
    );
    let e = search();
    assert_eq!(e.kind(), ErrorKind::NotImplemented);
    assert_eq!(e.detail(), "WhatsApp Cloud API does not support message search.");
}

#[test]
fn whatsapp_call_that_sends_a_text() {
    let c = send_message_call(&config(), "4915", "hi", None);
    assert_eq!((c.method, c.url.as_str()), (Method::Post, "https://graph.facebook.com/v21.0/1555/messages"));
    assert_eq!(
        c.body.unwrap().render().unwrap(),
        r#"{"messaging_product":"whatsapp","recipient_type":"individual","text":{"body":"hi"},"to":"4915","type":"text"}"#
    );
    let c = send_message_call(&config(), "4915", "hi", Some("wamid.1"));
    assert_eq!(
        c.body.unwrap().get("context").unwrap().render().unwrap(),
        r#"{"message_id":"wamid.1"}"#
    );
}

#[test]
fn whatsapp_identifier_of_a_sent_message() {
    assert_eq!(sent_id(&j(r#"{"messages":[{"id":"wamid.1"},{"id":"wamid.2","x":1}]}"#)).unwrap(), "wamid.1");
    let e = sent_id(&j(r#"{"messages":[]}"#)).unwrap_err();
    assert_eq!((e.kind(), e.detail()), (ErrorKind::Api, "whatsapp: no message id in response"));
    for bad in ["{}", r#"{"messages":{}}"#, r#"{"messages":[{"id":"a"},{"id":5}]}"#, r#"{"messages":[{}]}"#, r#"{"messages":["a"]}"#] {
        let e = sent_id(&j(bad)).unwrap_err();
        assert_eq!(e.kind(), ErrorKind::Api);
        assert_eq!(e.detail(), "whatsapp parse send response: invalid `messages`", "{bad}");
    }
}

#[test]
fn whatsapp_message_that_was_sent() {
    let m = sent_message(&config(), "wamid.1".to_string(), "4915", "hi", Some("wamid.0"), 1700000000);
    assert_eq!(m.id, "wamid.1");
    assert_eq!(m.platform, Platform::WhatsApp);
    assert_eq!(m.channel_id, "4915");
    assert_eq!(m.sender, "1555");
    assert_eq!(m.text, "hi");
    assert_eq!(m.timestamp, 1700000000);
    assert!(!m.has_attachment);
    assert_eq!(m.reply_to.as_deref(), Some("wamid.0"));
    assert!(m.meta.is_empty());
}

#[test]
fn whatsapp_plan_of_an_upload() {
    let u = upload_plan(&config(), "/tmp/photo.JPG").unwrap();
    assert_eq!(u.url, "https://graph.facebook.com/v21.0/1555/media");
    assert_eq!(u.file_name, "photo.JPG");
    assert_eq!(u.mime, "image/jpeg");
    assert_eq!(u.sort, MediaSort::Image);
    let u = upload_plan(&config(), "").unwrap();
    assert_eq!(u.file_name, "file");
    assert_eq!(u.mime, "application/octet-stream");
    let e = upload_plan(&config(), "../x.jpg").unwrap_err();
    assert_eq!(
        (e.kind(), e.detail()),
        (ErrorKind::InvalidInput, "file_path must not contain '..' components")
    );
    assert_eq!(media_id(&j(r#"{"id":"m1"}"#)).unwrap(), "m1");
    let e = media_id(&j(r#"{"id":5}"#)).unwrap_err();
    assert_eq!((e.kind(), e.detail()), (ErrorKind::Api, "whatsapp parse upload response: missing `id`"));
}

#[test]
fn whatsapp_call_that_sends_media() {
    let c = send_media_call(&config(), "4915", MediaSort::Image, "m1", "look");
    assert_eq!(c.url, "https://graph.facebook.com/v21.0/1555/messages");
    assert_eq!(
        c.body.unwrap().render().unwrap(),
        r#"{"image":{"caption":"look","id":"m1"},"messaging_product":"whatsapp","to":"4915","type":"image"}"#
    );
    let c = send_media_call(&config(), "4915", MediaSort::Audio, "m1", "look");
    assert_eq!(
        c.body.unwrap().render().unwrap(),
        r#"{"audio":{"id":"m1"},"messaging_product":"whatsapp","to":"4915","type":"audio"}"#
    );
    let c = send_media_call(&config(), "4915", MediaSort::Document, "m1", "");
    assert_eq!(c.body.unwrap().get("document").unwrap().render().unwrap(), r#"{"id":"m1"}"#);
    let m = sent_media_message(&config(), "wamid.9".to_string(), "4915", "look", MediaSort::Video, 5);
    assert_eq!((m.id.as_str(), m.text.as_str(), m.timestamp), ("wamid.9", "look", 5));
    assert!(m.has_attachment);
    assert_eq!(m.reply_to, None);
    assert_eq!(m.meta.media_type.as_deref(), Some("video"));
    assert_eq!(m.sender, "1555");
}
