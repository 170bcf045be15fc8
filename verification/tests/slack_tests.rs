use nexus::entities::{ChannelType, MemberRole, Platform};
use nexus::error::ErrorKind;
use nexus::http::Method;
use nexus::json::Json;
use nexus::slack::{
    add_reaction_call, api_get, api_post, check_slack_ok, create_channel_call, created_channel,
    history_page, invite_call, list_channels_call, list_users_call, parse_channels, parse_profile,
    parse_slack_channel, parse_slack_message, parse_slack_response, parse_user_profile,
    parse_users, profile_call, read_messages_call, remove_reaction_call, request_failed,
    search_call, search_page, search_page_of_cursor, send_message_call, sent_message,
    set_status_call, set_topic_call, unreadable_file, upload_failed, upload_file_plan, uploaded,
    user_info_call, BASE_URL,
};

fn j(text: &str) -> Json {
    Json::parse(text).unwrap()
}

fn pairs(q: &Vec<(String, String)>) -> Vec<(&str, &str)> {
    q.iter().map(|(k, v)| (k.as_str(), v.as_str())).collect()
}

#[test]
fn slack_calls_go_to_methods() {
    assert_eq!(BASE_URL, "https://slack.com/api");
    let c = api_post("chat.postMessage", Json::object());
    assert_eq!((c.method, c.url.as_str()), (Method::Post, "https://slack.com/api/chat.postMessage"));
    assert_eq!(c.body, Some(Json::object()));
    let c = api_get("users.list", vec![("a".to_string(), "b".to_string())]);
    assert_eq!((c.method, c.url.as_str()), (Method::Get, "https://slack.com/api/users.list"));
    assert_eq!(pairs(&c.query), vec![("a", "b")]);
    assert!(c.body.is_none());
}

#[test]
fn slack_a_body_that_is_not_ok_is_a_failure() {
    assert!(check_slack_ok(&j(r#"{"ok":true}"#)).is_ok());
    for name in ["invalid_auth", "not_authed", "token_revoked"] {
        let e = check_slack_ok(&j(&format!(r#"{{"ok":false,"error":"{name}"}}"#))).unwrap_err();
        assert_eq!(e.kind(), ErrorKind::Auth);
        assert_eq!(e.detail(), format!("slack auth error: {name}"));
    }
    let e = check_slack_ok(&j(r#"{"ok":false,"error":"channel_not_found"}"#)).unwrap_err();
    assert_eq!((e.kind(), e.detail()), (ErrorKind::Api, "slack api error: channel_not_found"));
    for body in ["{}", r#"{"ok":"true"}"#, r#"{"ok":1}"#, "[]"] {
        let e = check_slack_ok(&j(body)).unwrap_err();
        assert_eq!(e.detail(), "slack api error: unknown_error");
    }
}

#[test]
fn slack_answers_are_checked_in_three_steps() {
    let ok = parse_slack_response(200, "200 OK", r#"{"ok":true,"x":1}"#).unwrap();
    assert_eq!(ok.get("x"), Some(&Json::Int(1)));
    let e = parse_slack_response(401, "401 Unauthorized", "nope").unwrap_err();
    assert_eq!((e.kind(), e.detail()), (ErrorKind::Auth, "slack auth failed (401 Unauthorized): nope"));
    let e = parse_slack_response(403, "403 Forbidden", "").unwrap_err();
    assert_eq!((e.kind(), e.detail()), (ErrorKind::Auth, "slack auth failed (403 Forbidden): "));
    let e = parse_slack_response(500, "500 Internal Server Error", "oops").unwrap_err();
    assert_eq!(
        (e.kind(), e.detail()),
        (ErrorKind::Api, "slack http error (500 Internal Server Error): oops")
    );
    let e = parse_slack_response(200, "200 OK", "<html>").unwrap_err();
    assert_eq!(e.kind(), ErrorKind::Api);
    assert!(e.detail().starts_with("slack response parse failed: "));
    let e = parse_slack_response(200, "200 OK", r#"{"ok":false,"error":"ratelimited"}"#).unwrap_err();
    assert_eq!(e.detail(), "slack api error: ratelimited");
    assert_eq!(request_failed("timeout").detail(), "slack request failed: timeout");
}

#[test]
fn slack_the_profile_of_the_token() {
    let c = profile_call();
    assert_eq!(c.url, "https://slack.com/api/auth.test");
    assert_eq!(c.body.unwrap().render().unwrap(), "{}");
    let p = parse_profile(&j(r#"{"user_id":"U1","user":"bot"}"#));
    assert_eq!(p.platform, Platform::Slack);
    assert_eq!((p.id.as_str(), p.name.as_str()), ("U1", "bot"));
    assert_eq!((p.username, p.email, p.phone), (None, None, None));
    let p = parse_profile(&j("{}"));
    assert_eq!((p.id.as_str(), p.name.as_str()), ("", "Unknown"));
}

#[test]
fn slack_the_call_that_lists_channels() {
    let c = list_channels_call(20);
    assert_eq!(c.url, "https://slack.com/api/conversations.list");
    assert_eq!(
        pairs(&c.query),
        vec![
            ("types", "public_channel,private_channel,im,mpim"),
            ("limit", "20"),
            ("exclude_archived", "true")
        ]
    );
}

#[test]
fn slack_the_sorts_of_channels() {
    let sort = |flags: &str| parse_slack_channel(&j(&format!("{{{flags}}}"))).channel_type;
    assert!(matches!(sort(r#""is_im":true"#), ChannelType::Private));
    assert!(matches!(sort(r#""is_im":true,"is_private":true"#), ChannelType::Private));
    assert!(matches!(sort(r#""is_mpim":true"#), ChannelType::Group));
    assert!(matches!(sort(r#""is_private":true"#), ChannelType::Group));
    assert!(matches!(sort(r#""is_private":false"#), ChannelType::Broadcast));
    assert!(matches!(sort(""), ChannelType::Broadcast));
}

#[test]
fn slack_a_channel_is_parsed() {
    let c = parse_slack_channel(&j(
        r#"{"id":"C1","name":"general","unread_count":3,"topic":{"value":"Talk"},"num_members":12}"#,
    ));
    assert_eq!(c.platform, Platform::Slack);
    assert_eq!((c.id.as_str(), c.name.as_str()), ("C1", "general"));
    assert_eq!(c.unread_count, 3);
    assert_eq!(c.description.as_deref(), Some("Talk"));
    assert_eq!(c.member_count, Some(12));
    let c = parse_slack_channel(&j(r#"{"user":"U2","topic":{"value":""}}"#));
    assert_eq!((c.id.as_str(), c.name.as_str()), ("", "U2"));
    assert_eq!(c.description, None);
    assert_eq!(c.member_count, None);
    assert_eq!(parse_slack_channel(&j("{}")).name, "unknown");
    let all = parse_channels(&j(r#"{"channels":[{"id":"C1"},{"id":"C2"}]}"#));
    assert_eq!(all.len(), 2);
    assert_eq!(all[1].id, "C2");
    assert!(parse_channels(&j("{}")).is_empty());
    assert_eq!(created_channel(&j(r#"{"channel":{"id":"C9","name":"new"}}"#)).name, "new");
    assert_eq!(created_channel(&j("{}")).name, "unknown");
}

#[test]
fn slack_a_message_is_parsed() {
    let m = parse_slack_message(
        &j(r#"{"ts":"1700000000.000100","user":"U1","text":"hi","files":[{}],"thread_ts":"1699999999.000000"}"#),
        "C1",
    );
    assert_eq!(m.id, "1700000000.000100");
    assert_eq!(m.platform, Platform::Slack);
    assert_eq!(m.channel_id, "C1");
    assert_eq!(m.sender, "U1");
    assert_eq!(m.text, "hi");
    assert_eq!(m.timestamp, 1700000000);
    assert!(m.has_attachment);
    assert_eq!(m.reply_to.as_deref(), Some("1699999999.000000"));
    assert!(m.meta.is_empty());
}

#[test]
fn slack_the_edges_of_a_message() {
    let m = parse_slack_message(&j(r#"{"username":"bot","thread_ts":"0","files":[]}"#), "C1");
    assert_eq!(m.id, "0");
    assert_eq!(m.sender, "bot");
    assert_eq!(m.timestamp, 0);
    assert!(!m.has_attachment);
    // the thread of the message itself is no reply
    assert_eq!(m.reply_to, None);
    let stamp = |ts: &str| parse_slack_message(&j(&format!(r#"{{"ts":"{ts}"}}"#)), "").timestamp;
    assert_eq!(stamp("12"), 12);
    assert_eq!(stamp("12.5.7"), 12);
    assert_eq!(stamp(".5"), 0);
    assert_eq!(stamp("x.5"), 0);
    assert_eq!(stamp("-3.5"), -3);
    assert_eq!(parse_slack_message(&j("{}"), "").sender, "unknown");
}

#[test]
fn slack_the_call_that_reads_history() {
    let c = read_messages_call("C1", 50, None);
    assert_eq!(c.url, "https://slack.com/api/conversations.history");
    assert_eq!(pairs(&c.query), vec![("channel", "C1"), ("limit", "50")]);
    let c = read_messages_call("C1", 50, Some("sl:abc=="));
    assert_eq!(pairs(&c.query), vec![("channel", "C1"), ("limit", "50"), ("cursor", "abc==")]);
    let c = read_messages_call("C1", 50, Some("dc:abc"));
    assert_eq!(c.query.len(), 2);
}

#[test]
fn slack_a_page_of_history() {
    let page = history_page(
        &j(r#"{"messages":[{"ts":"2"},{"ts":"1"}],"has_more":true,"response_metadata":{"next_cursor":"n1"}}"#),
        "C1",
    );
    assert_eq!(page.items.len(), 2);
    assert_eq!(page.items[0].channel_id, "C1");
    assert!(page.has_more);
    assert_eq!(page.next_cursor.as_deref(), Some("sl:n1"));
    let page = history_page(&j(r#"{"response_metadata":{"next_cursor":""}}"#), "C1");
    assert!(page.items.is_empty());
    assert!(!page.has_more);
    assert_eq!(page.next_cursor, None);
}

#[test]
fn slack_the_call_that_posts_a_message() {
    let c = send_message_call("C1", "hi", None);
    assert_eq!(c.url, "https://slack.com/api/chat.postMessage");
    assert_eq!(c.body.unwrap().render().unwrap(), r#"{"channel":"C1","text":"hi"}"#);
    let c = send_message_call("C1", "hi", Some("17.5"));
    assert_eq!(
        c.body.unwrap().render().unwrap(),
        r#"{"channel":"C1","text":"hi","thread_ts":"17.5"}"#
    );
    let m = sent_message(&j(r#"{"message":{"ts":"5.1","text":"hi"}}"#), "C1");
    assert_eq!((m.id.as_str(), m.channel_id.as_str(), m.timestamp), ("5.1", "C1", 5));
    assert_eq!(sent_message(&j("{}"), "C1").id, "0");
}

#[test]
fn slack_the_call_that_searches() {
    let c = search_call("cats", 20, None);
    assert_eq!(c.url, "https://slack.com/api/search.messages");
    assert_eq!(pairs(&c.query), vec![("query", "cats"), ("count", "20"), ("page", "1")]);
    let c = search_call("cats", 20, Some("sl:3"));
    assert_eq!(pairs(&c.query)[2], ("page", "3"));
    assert_eq!(search_page_of_cursor(Some("sl:x")), 1);
    assert_eq!(search_page_of_cursor(Some("3")), 1);
    assert_eq!(search_page_of_cursor(Some("sl:0")), 0);
}

#[test]
fn slack_a_page_of_search_results() {
    let answer = j(r#"{"messages":{"total":45,"matches":[{"ts":"1","channel":{"id":"C1"}},{"ts":"2"}]}}"#);
    let page = search_page(&answer, 1, 20);
    assert_eq!(page.items.len(), 2);
    assert_eq!(page.items[0].channel_id, "C1");
    assert_eq!(page.items[1].channel_id, "");
    assert!(page.has_more);
    assert_eq!(page.next_cursor.as_deref(), Some("sl:2"));
    // the third page ends at 42 of 45
    let page = search_page(&answer, 3, 20);
    assert!(page.has_more);
    assert_eq!(page.next_cursor.as_deref(), Some("sl:4"));
    // 43 + 2 reaches the total
    let page = search_page(&answer, 2, 43);
    assert!(!page.has_more);
    assert_eq!(page.next_cursor, None);
    let page = search_page(&answer, 0, 20);
    assert!(page.has_more);
    assert_eq!(page.next_cursor.as_deref(), Some("sl:1"));
    let page = search_page(&answer, usize::MAX, usize::MAX);
    assert!(!page.has_more);
    let page = search_page(&j("{}"), 1, 20);
    assert!(page.items.is_empty() && !page.has_more);
}

#[test]
fn slack_the_calls_that_change_things() {
    assert_eq!(
        set_status_call("busy", ":x:").body.unwrap().render().unwrap(),
        r#"{"profile":{"status_emoji":":x:","status_text":"busy"}}"#
    );
    assert_eq!(set_status_call("", "").url, "https://slack.com/api/users.profile.set");
    let c = create_channel_call("new", true);
    assert_eq!(c.url, "https://slack.com/api/conversations.create");
    assert_eq!(c.body.unwrap().render().unwrap(), r#"{"is_private":true,"name":"new"}"#);
    let c = invite_call("C1", "U1,U2");
    assert_eq!(c.url, "https://slack.com/api/conversations.invite");
    assert_eq!(c.body.unwrap().render().unwrap(), r#"{"channel":"C1","users":"U1,U2"}"#);
    let c = set_topic_call("C1", "News");
    assert_eq!(c.url, "https://slack.com/api/conversations.setTopic");
    assert_eq!(c.body.unwrap().render().unwrap(), r#"{"channel":"C1","topic":"News"}"#);
    let c = add_reaction_call("C1", "17.5", "tada");
    assert_eq!(c.url, "https://slack.com/api/reactions.add");
    assert_eq!(
        c.body.unwrap().render().unwrap(),
        r#"{"channel":"C1","name":"tada","timestamp":"17.5"}"#
    );
    let c = remove_reaction_call("C1", "17.5", "tada");
    assert_eq!(c.url, "https://slack.com/api/reactions.remove");
    assert_eq!(c.method, Method::Post);
}

#[test]
fn slack_the_plan_of_an_upload() {
    let channels = vec!["C1".to_string(), "C2".to_string()];
    let u = upload_file_plan(&channels, "/tmp/report.pdf", Some("Report")).unwrap();
    assert_eq!(u.url, "https://slack.com/api/files.upload");
    assert_eq!(u.file_name, "report.pdf");
    assert_eq!(pairs(&u.fields), vec![("channels", "C1,C2"), ("title", "Report")]);
    let u = upload_file_plan(&Vec::new(), "/", None).unwrap();
    assert_eq!(u.file_name, "file");
    assert_eq!(pairs(&u.fields), vec![("channels", "")]);
    let e = upload_file_plan(&channels, "/tmp/../etc/passwd", None).unwrap_err();
    assert_eq!(
        (e.kind(), e.detail()),
        (ErrorKind::InvalidInput, "file_path must not contain '..' components")
    );
    assert_eq!(
        unreadable_file("/x", "No such file").detail(),
        "cannot read file /x: No such file"
    );
    assert_eq!(unreadable_file("/x", "").kind(), ErrorKind::InvalidInput);
    let e = upload_failed("reset");
    assert_eq!((e.kind(), e.detail()), (ErrorKind::Network, "slack upload failed: reset"));
}

#[test]
fn slack_the_report_of_an_upload() {
    assert_eq!(
        uploaded(&j(r#"{"file":{"id":"F1","permalink":"https://x/y"}}"#), "report.pdf"),
        "Uploaded file report.pdf (id: F1) https://x/y"
    );
    assert_eq!(uploaded(&j("{}"), "a"), "Uploaded file a (id: unknown) ");
}

#[test]
fn slack_users_as_members() {
    assert_eq!(pairs(&list_users_call(50).query), vec![("limit", "50")]);
    let members = parse_users(&j(
        r#"{"members":[{"id":"U1","name":"ann","real_name":"Ann Lee","is_owner":true,"is_admin":true},{"id":"U2","name":"bob","is_admin":true},{"id":"U3","deleted":true},{"deleted":false}]}"#,
    ));
    assert_eq!(members.len(), 3);
    assert_eq!((members[0].user_id.as_str(), members[0].name.as_str()), ("U1", "Ann Lee"));
    assert_eq!(members[0].username.as_deref(), Some("ann"));
    assert_eq!(members[0].role, MemberRole::Owner);
    assert_eq!(members[0].joined_date, None);
    assert_eq!((members[1].name.as_str(), members[1].role), ("bob", MemberRole::Admin));
    assert_eq!((members[2].user_id.as_str(), members[2].name.as_str()), ("", ""));
    assert_eq!(members[2].username, None);
    assert_eq!(members[2].role, MemberRole::Member);
    assert!(parse_users(&j("{}")).is_empty());
}

#[test]
fn slack_the_profile_of_a_user() {
    let c = user_info_call("U1");
    assert_eq!(c.url, "https://slack.com/api/users.info");
    assert_eq!(pairs(&c.query), vec![("user", "U1")]);
    let p = parse_user_profile(&j(
        r#"{"user":{"id":"U1","name":"ann","real_name":"Ann Lee","profile":{"email":"a@x.y"}}}"#,
    ));
    assert_eq!((p.id.as_str(), p.name.as_str()), ("U1", "Ann Lee"));
    assert_eq!(p.username.as_deref(), Some("ann"));
    assert_eq!(p.email.as_deref(), Some("a@x.y"));
    let p = parse_user_profile(&j(r#"{"user":{"name":"ann"}}"#));
    assert_eq!(p.name, "ann");
    let p = parse_user_profile(&j("{}"));
    assert_eq!((p.id.as_str(), p.name.as_str()), ("", "Unknown"));
    assert_eq!(p.username, None);
}
