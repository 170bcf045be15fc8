use nexus::error::{AgentError, ErrorKind};
use nexus::json::Json;
use nexus::tdlib::resolve::{cache_key, ChatCache, LookupStage, Resolution, CHAT_CACHE_TTL_NANOS};

const SECOND: u64 = 1_000_000_000;

fn found(id: i64) -> Result<Json, AgentError> {
    Ok(Json::object().with("@type", Json::string("chat")).with("id", Json::Int(id)))
}

fn lookup_of(r: Resolution) -> (String, LookupStage) {
    match r {
        Resolution::Lookup(command, stage) => (command.render().unwrap(), stage),
        other => panic!("no lookup: {other:?}"),
    }
}

fn id_of(r: Resolution) -> i64 {
    match r {
        Resolution::Done(Ok(id)) => id,
        other => panic!("not found: {other:?}"),
    }
}

fn failure_of(r: Resolution) -> AgentError {
    match r {
        Resolution::Done(Err(e)) => e,
        other => panic!("no failure: {other:?}"),
    }
}

#[test]
fn resolve_the_time_to_live_is_three_hundred_seconds() {
    assert_eq!(CHAT_CACHE_TTL_NANOS, 300 * SECOND);
}

#[test]
fn resolve_a_numeric_name_is_its_own_identifier() {
    let cache = ChatCache::new();
    assert_eq!(id_of(cache.begin("42", 0)), 42);
    assert_eq!(id_of(cache.begin("-1001234567890", 0)), -1001234567890);
    assert_eq!(id_of(cache.begin("+7", 5)), 7);
}

#[test]
fn resolve_a_numeric_name_wins_over_the_cache() {
    let mut cache = ChatCache::new();
    cache.cache_put("42".to_string(), 99, 0);
    assert_eq!(id_of(cache.begin("42", 1)), 42);
}

#[test]
fn resolve_a_name_is_looked_up_once_and_then_cached_until_it_is_stale() {
    let mut cache = ChatCache::new();
    let t0 = 1000 * SECOND;

    // first call: exactly one lookup
    let (command, stage) = lookup_of(cache.begin("@alice", t0));
    assert_eq!(command, r#"{"@type":"searchPublicChat","username":"alice"}"#);
    assert_eq!(stage, LookupStage::Username);
    assert_eq!(id_of(cache.resume("@alice", stage, found(777), t0)), 777);

    // within the time to live: no lookup
    assert_eq!(id_of(cache.begin("@alice", t0)), 777);
    assert_eq!(id_of(cache.begin("@alice", t0 + 299 * SECOND)), 777);
    assert_eq!(id_of(cache.begin("@alice", t0 + CHAT_CACHE_TTL_NANOS - 1)), 777);
    assert_eq!(id_of(cache.begin("@ALICE", t0 + SECOND)), 777);

    // after the time to live: one lookup again
    let (command, stage) = lookup_of(cache.begin("@alice", t0 + CHAT_CACHE_TTL_NANOS));
    assert_eq!(command, r#"{"@type":"searchPublicChat","username":"alice"}"#);
    assert_eq!(id_of(cache.resume("@alice", stage, found(778), t0 + CHAT_CACHE_TTL_NANOS)), 778);
    assert_eq!(id_of(cache.begin("@alice", t0 + CHAT_CACHE_TTL_NANOS + SECOND)), 778);
}

#[test]
fn resolve_a_stale_entry_counts_as_absent_but_is_overwritten() {
    let mut cache = ChatCache::new();
    cache.cache_put("k".to_string(), 1, 0);
    assert_eq!(cache.cache_get("k", 0), Some(1));
    assert_eq!(cache.cache_get("k", CHAT_CACHE_TTL_NANOS - 1), Some(1));
    assert_eq!(cache.cache_get("k", CHAT_CACHE_TTL_NANOS), None);
    assert_eq!(cache.cache_get("k", u64::MAX), None);
    cache.cache_put("k".to_string(), 2, CHAT_CACHE_TTL_NANOS);
    assert_eq!(cache.cache_get("k", CHAT_CACHE_TTL_NANOS + 1), Some(2));
    assert_eq!(cache.cache_get("other", 0), None);
}

#[test]
fn resolve_an_entry_from_the_future_is_fresh() {
    let mut cache = ChatCache::new();
    cache.cache_put("k".to_string(), 1, 500);
    assert_eq!(cache.cache_get("k", 100), Some(1));
}

#[test]
fn resolve_keys_are_lowercase() {
    assert_eq!(cache_key("Family Chat"), "family chat");
    assert_eq!(cache_key("@ALICE"), "@alice");
    assert_eq!(cache_key("ÄRGER"), "ärger");
}

#[test]
fn resolve_a_failed_username_lookup_leads_to_the_search() {
    let mut cache = ChatCache::new();
    let (_, stage) = lookup_of(cache.begin("Family", 0));
    let (command, stage) =
        lookup_of(cache.resume("Family", stage, Err(AgentError::api("TDLib error 400: USERNAME_INVALID")), 0));
    assert_eq!(command, r#"{"@type":"searchChatsOnServer","limit":5,"query":"Family"}"#);
    assert_eq!(stage, LookupStage::Search);
    let answer = Json::parse(r#"{"@type":"chats","chat_ids":[-100,-200]}"#).unwrap();
    assert_eq!(id_of(cache.resume("Family", stage, Ok(answer), 7)), -100);
    assert_eq!(cache.cache_get("family", 8), Some(-100));
}

#[test]
fn resolve_a_username_answer_without_an_id_leads_to_the_search() {
    let mut cache = ChatCache::new();
    let answer = Json::parse(r#"{"@type":"chat","id":"12"}"#).unwrap();
    let (_, stage) = lookup_of(cache.resume("bob", LookupStage::Username, Ok(answer), 0));
    assert_eq!(stage, LookupStage::Search);
    assert_eq!(cache.cache_get("bob", 0), None);
}

#[test]
fn resolve_a_search_without_matches_fails_as_not_found() {
    let mut cache = ChatCache::new();
    for answer in [r#"{"chat_ids":[]}"#, r#"{"@type":"chats"}"#, r#"{"chat_ids":"none"}"#] {
        let e = failure_of(cache.resume(
            "nobody",
            LookupStage::Search,
            Ok(Json::parse(answer).unwrap()),
            0,
        ));
        assert_eq!(e.kind(), ErrorKind::NotFound);
        assert_eq!(e.detail(), "chat 'nobody' not found");
    }
    assert_eq!(cache.cache_get("nobody", 0), None);
}

#[test]
fn resolve_a_search_whose_first_match_is_no_integer_is_an_internal_failure() {
    let mut cache = ChatCache::new();
    let e = failure_of(cache.resume(
        "x",
        LookupStage::Search,
        Ok(Json::parse(r#"{"chat_ids":["a",5]}"#).unwrap()),
        0,
    ));
    assert_eq!(e.kind(), ErrorKind::Internal);
    assert_eq!(e.detail(), "invalid chat id from TDLib");
}

#[test]
fn resolve_a_failed_search_hands_its_failure_on() {
    let mut cache = ChatCache::new();
    let e = failure_of(cache.resume(
        "x",
        LookupStage::Search,
        Err(AgentError::network("request timed out after 30s")),
        0,
    ));
    assert_eq!(e.kind(), ErrorKind::Network);
    assert_eq!(e.detail(), "request timed out after 30s");
}

#[test]
fn resolve_a_name_without_at_is_looked_up_as_it_is() {
    let cache = ChatCache::new();
    let (command, _) = lookup_of(cache.begin("alice", 0));
    assert_eq!(command, r#"{"@type":"searchPublicChat","username":"alice"}"#);
    let (command, _) = lookup_of(cache.begin("@@x", 0));
    assert_eq!(command, r#"{"@type":"searchPublicChat","username":"@x"}"#);
}

#[test]
fn resolve_a_listed_chat_is_remembered_by_its_name() {
    let mut cache = ChatCache::new();
    cache.remember("Family Chat", -500, 10);
    assert_eq!(id_of(cache.begin("family chat", 11)), -500);
    assert_eq!(id_of(cache.begin("FAMILY CHAT", 11)), -500);
}
