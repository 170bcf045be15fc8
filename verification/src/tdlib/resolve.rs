//! Resolution of the names that callers use for chats to the numeric
//! identifiers of the backend, with a cache whose entries count for a
//! limited time.
//!
//! Time is a number of nanoseconds on a clock that never runs backwards;
//! the caller reads the clock.

use crate::error::{AgentError, ErrorKind};
use crate::json::{integer, int_of, items, items_of, Json, JsonView};
use crate::text::{
    after_prefix, glue3, decimal, lemma_parse_decimal, lowercase, parse_i64, parse_i64_spec,
    str_eq, str_to_lowercase, strip_prefix,
};
use vstd::prelude::*;

verus! {

/// How long a cached identifier counts, in nanoseconds: 300 seconds.
pub const CHAT_CACHE_TTL_NANOS: u64 = 300_000_000_000;

/// What the cache knows of one key: the identifier, and when it was stored.
pub struct CacheEntry {
    pub id: i64,
    pub stamp: u64,
}

struct CacheSlot {
    key: String,
    id: i64,
    stamp: u64,
}

/// The cache of resolved identifiers, by key.
pub struct ChatCache {
    slots: Vec<CacheSlot>,
}

/// The key under which a name is cached: its lowercase form.
pub open spec fn cache_key_of(chat: Seq<char>) -> Seq<char> {
    lowercase(chat)
}

/// How old an entry is at a time; an entry from the future is new.
pub open spec fn age(stamp: u64, now: u64) -> int {
    if now >= stamp {
        now - stamp
    } else {
        0
    }
}

/// The identifier that the cache gives for a key at a time: that of the
/// entry under the key, while the entry is younger than the time to live.
pub open spec fn fresh(cache: Map<Seq<char>, CacheEntry>, key: Seq<char>, now: u64) -> Option<i64> {
    if cache.contains_key(key) && age(cache[key].stamp, now) < CHAT_CACHE_TTL_NANOS {
        Some(cache[key].id)
    } else {
        None
    }
}

spec fn slots_map(slots: Seq<CacheSlot>) -> Map<Seq<char>, CacheEntry>
    decreases slots.len(),
{
    if slots.len() == 0 {
        Map::empty()
    } else {
        slots_map(slots.drop_last()).insert(
            slots.last().key@,
            CacheEntry { id: slots.last().id, stamp: slots.last().stamp },
        )
    }
}

proof fn lemma_slots_map_absent(slots: Seq<CacheSlot>, key: Seq<char>)
    requires
        forall|i: int| 0 <= i < slots.len() ==> (#[trigger] slots[i]).key@ != key,
    ensures
        !slots_map(slots).contains_key(key),
    decreases slots.len(),
{
    if slots.len() > 0 {
        let init = slots.drop_last();
        assert forall|i: int| 0 <= i < init.len() implies (#[trigger] init[i]).key@ != key by {
        }
        lemma_slots_map_absent(init, key);
    }
}

proof fn lemma_slots_map_last(slots: Seq<CacheSlot>, i: int)
    requires
        0 <= i < slots.len(),
        forall|j: int| i < j < slots.len() ==> (#[trigger] slots[j]).key@ != slots[i].key@,
    ensures
        slots_map(slots).contains_key(slots[i].key@),
        slots_map(slots)[slots[i].key@] == (CacheEntry { id: slots[i].id, stamp: slots[i].stamp }),
    decreases slots.len(),
{
    if i < slots.len() - 1 {
        let init = slots.drop_last();
        assert forall|j: int| i < j < init.len() implies (#[trigger] init[j]).key@
            != init[i].key@ by {
        }
        lemma_slots_map_last(init, i);
    }
}

proof fn lemma_slots_map_update(slots: Seq<CacheSlot>, i: int, slot: CacheSlot)
    requires
        0 <= i < slots.len(),
        slot.key@ == slots[i].key@,
        forall|j: int| i < j < slots.len() ==> (#[trigger] slots[j]).key@ != slots[i].key@,
    ensures
        slots_map(slots.update(i, slot)) == slots_map(slots).insert(
            slot.key@,
            CacheEntry { id: slot.id, stamp: slot.stamp },
        ),
    decreases slots.len(),
{
    let init = slots.drop_last();
    let changed = slots.update(i, slot);
    if i == slots.len() - 1 {
        assert(changed.drop_last() =~= init);
        assert(slots_map(changed) =~= slots_map(slots).insert(
            slot.key@,
            CacheEntry { id: slot.id, stamp: slot.stamp },
        ));
    } else {
        assert forall|j: int| i < j < init.len() implies (#[trigger] init[j]).key@
            != init[i].key@ by {
        }
        lemma_slots_map_update(init, i, slot);
        assert(changed.drop_last() =~= init.update(i, slot));
        assert(slots_map(changed) =~= slots_map(slots).insert(
            slot.key@,
            CacheEntry { id: slot.id, stamp: slot.stamp },
        ));
    }
}

/// The key under which a name is cached.
pub fn cache_key(chat: &str) -> (key: String)
    ensures
        key@ == cache_key_of(chat@),
{
    str_to_lowercase(chat)
}

impl ChatCache {
    /// The entries of the cache, by key.
    pub closed spec fn entries(&self) -> Map<Seq<char>, CacheEntry> {
        slots_map(self.slots@)
    }

    /// A cache without entries.
    pub fn new() -> (cache: ChatCache)
        ensures
            cache.entries() == Map::<Seq<char>, CacheEntry>::empty(),
    {
        ChatCache { slots: Vec::new() }
    }

    /// The index of the last slot with the key.
    fn position(&self, key: &str) -> (r: Option<usize>)
        ensures
            match r {
                Some(i) => {
                    &&& i < self.slots@.len()
                    &&& self.slots@[i as int].key@ == key@
                    &&& forall|j: int|
                        i < j < self.slots@.len() ==> (#[trigger] self.slots@[j]).key@ != key@
                },
                None => forall|j: int|
                    0 <= j < self.slots@.len() ==> (#[trigger] self.slots@[j]).key@ != key@,
            },
    {
        let mut i: usize = self.slots.len();
        while i > 0
            invariant
                i <= self.slots.len(),
                forall|j: int|
                    i <= j < self.slots@.len() ==> (#[trigger] self.slots@[j]).key@ != key@,
            decreases i,
        {
            i -= 1;
            if str_eq(self.slots[i].key.as_str(), key) {
                return Some(i);
            }
        }
        None
    }

    /// The identifier cached under a key, while its entry is younger than
    /// the time to live. A stale entry stays where it is and counts as
    /// absent.
    pub fn cache_get(&self, key: &str, now: u64) -> (r: Option<i64>)
        ensures
            r == fresh(self.entries(), key@, now),
    {
        match self.position(key) {
            Some(i) => {
                proof {
                    lemma_slots_map_last(self.slots@, i as int);
                }
                let stamp: u64 = self.slots[i].stamp;
                let elapsed: u64 = if now >= stamp {
                    now - stamp
                } else {
                    0
                };
                if elapsed < CHAT_CACHE_TTL_NANOS {
                    Some(self.slots[i].id)
                } else {
                    None
                }
            },
            None => {
                proof {
                    lemma_slots_map_absent(self.slots@, key@);
                }
                None
            },
        }
    }

    /// Stores an identifier under a key, with the time of storing; an older
    /// entry under the key is overwritten.
    pub fn cache_put(&mut self, key: String, id: i64, now: u64)
        ensures
            final(self).entries() == old(self).entries().insert(
                key@,
                CacheEntry { id, stamp: now },
            ),
    {
        match self.position(key.as_str()) {
            Some(i) => {
                proof {
                    lemma_slots_map_update(
                        self.slots@,
                        i as int,
                        CacheSlot { key, id, stamp: now },
                    );
                }
                self.slots.set(i, CacheSlot { key, id, stamp: now });
            },
            None => {
                proof {
                    assert(self.slots@.push(CacheSlot { key, id, stamp: now }).drop_last()
                        =~= self.slots@);
                }
                self.slots.push(CacheSlot { key, id, stamp: now });
            },
        }
    }
}

/// Which lookup of a resolution is under way.
#[derive(Debug, Clone, Copy, PartialEq, Eq, Structural)]
pub enum LookupStage {
    /// The name is looked up as the exact username of a public chat.
    Username,
    /// The name is searched for among the chats known to the server.
    Search,
}

/// Where a resolution stands.
#[derive(Debug)]
pub enum Resolution {
    /// It is over, with the identifier or a failure.
    Done(Result<i64, AgentError>),
    /// The command is to be submitted; its outcome resumes the resolution
    /// at the stage.
    Lookup(Json, LookupStage),
}

/// `Resolution` in terms of texts.
pub enum ResolutionView {
    Found(i64),
    Failed((ErrorKind, Seq<char>)),
    Lookup(JsonView, LookupStage),
}

impl View for Resolution {
    type V = ResolutionView;

    open spec fn view(&self) -> ResolutionView {
        match self {
            Resolution::Done(Ok(id)) => ResolutionView::Found(*id),
            Resolution::Done(Err(e)) => ResolutionView::Failed(e@),
            Resolution::Lookup(command, stage) => ResolutionView::Lookup(command@, *stage),
        }
    }
}

/// A name without the `@` in front of it.
pub open spec fn bare_username(chat: Seq<char>) -> Seq<char> {
    match after_prefix(chat, "@"@) {
        Some(rest) => rest,
        None => chat,
    }
}

/// The command that looks a name up as the username of a public chat.
pub open spec fn username_command(chat: Seq<char>) -> JsonView {
    JsonView::Object(
        seq![
            ("@type"@, JsonView::Str("searchPublicChat"@)),
            ("username"@, JsonView::Str(bare_username(chat))),
        ],
    )
}

/// The command that searches for a name among the chats on the server.
pub open spec fn search_command(chat: Seq<char>) -> JsonView {
    JsonView::Object(
        seq![
            ("@type"@, JsonView::Str("searchChatsOnServer"@)),
            ("query"@, JsonView::Str(chat)),
            ("limit"@, JsonView::Int(5)),
        ],
    )
}

/// The failure of a resolution that found nothing.
pub open spec fn not_found(chat: Seq<char>) -> (ErrorKind, Seq<char>) {
    (ErrorKind::NotFound, "chat '"@ + chat + "' not found"@)
}

/// How a resolution begins: a name that is a number is that identifier, a
/// name with a fresh cache entry is the cached identifier, and any other
/// name is looked up as a username.
pub open spec fn begin_model(
    cache: Map<Seq<char>, CacheEntry>,
    chat: Seq<char>,
    now: u64,
) -> ResolutionView {
    match parse_i64_spec(chat) {
        Some(id) => ResolutionView::Found(id),
        None => match fresh(cache, cache_key_of(chat), now) {
            Some(id) => ResolutionView::Found(id),
            None => ResolutionView::Lookup(username_command(chat), LookupStage::Username),
        },
    }
}

/// The outcome of a submitted command, in terms of texts.
pub open spec fn reply_view(reply: Result<Json, AgentError>) -> Result<
    JsonView,
    (ErrorKind, Seq<char>),
> {
    match reply {
        Ok(v) => Ok(v@),
        Err(e) => Err(e@),
    }
}

/// How a resolution goes on with the outcome of its lookup, and what the
/// cache holds afterwards.
///
/// A username lookup whose answer carries an integer `id` ends the
/// resolution with it; any other outcome leads to the search. A failed
/// search ends the resolution with its failure; an answered one with the
/// first of its `chat_ids`, with `not found` where there are none, or with
/// an internal failure where the first is no integer. Every identifier
/// found is stored under the key of the name.
pub open spec fn resume_model(
    cache: Map<Seq<char>, CacheEntry>,
    chat: Seq<char>,
    stage: LookupStage,
    reply: Result<JsonView, (ErrorKind, Seq<char>)>,
    now: u64,
) -> (Map<Seq<char>, CacheEntry>, ResolutionView) {
    let stored = |id: i64| cache.insert(cache_key_of(chat), CacheEntry { id, stamp: now });
    match stage {
        LookupStage::Username => {
            let found = match reply {
                Ok(v) => int_of(v.get("id"@)),
                Err(_) => None,
            };
            match found {
                Some(id) => (stored(id), ResolutionView::Found(id)),
                None => (cache, ResolutionView::Lookup(search_command(chat), LookupStage::Search)),
            }
        },
        LookupStage::Search => match reply {
            Err(e) => (cache, ResolutionView::Failed(e)),
            Ok(v) => match items_of(v.get("chat_ids"@)) {
                None => (cache, ResolutionView::Failed(not_found(chat))),
                Some(ids) => if ids.len() == 0 {
                    (cache, ResolutionView::Failed(not_found(chat)))
                } else {
                    match ids[0].as_i64() {
                        Some(id) => (stored(id), ResolutionView::Found(id)),
                        None => (
                            cache,
                            ResolutionView::Failed(
                                (ErrorKind::Internal, "invalid chat id from TDLib"@),
                            ),
                        ),
                    }
                },
            },
        },
    }
}

impl ChatCache {
    /// Stores the identifier of a chat under the key of its name, so that
    /// a chat that was listed is found by its name without a lookup.
    pub fn remember(&mut self, name: &str, chat_id: i64, now: u64)
        ensures
            final(self).entries() == old(self).entries().insert(
                cache_key_of(name@),
                CacheEntry { id: chat_id, stamp: now },
            ),
    {
        self.cache_put(cache_key(name), chat_id, now);
    }
}

fn not_found_error(chat: &str) -> (e: AgentError)
    ensures
        e@ == not_found(chat@),
{
    AgentError::NotFound(glue3("chat '", chat, "' not found"))
}

impl ChatCache {
    /// Begins the resolution of a name.
    pub fn begin(&self, chat: &str, now: u64) -> (r: Resolution)
        ensures
            r@ == begin_model(self.entries(), chat@, now),
    {
        if let Some(id) = parse_i64(chat) {
            return Resolution::Done(Ok(id));
        }
        let key = cache_key(chat);
        if let Some(id) = self.cache_get(key.as_str(), now) {
            return Resolution::Done(Ok(id));
        }
        let username: String = match strip_prefix(chat, "@") {
            Some(rest) => rest,
            None => String::from_str(chat),
        };
        let command = Json::object().with("@type", Json::string("searchPublicChat")).with(
            "username",
            Json::Str(username),
        );
        assert(command@->Object_0 =~= username_command(chat@)->Object_0);
        Resolution::Lookup(command, LookupStage::Username)
    }

    /// Goes on with a resolution, given the outcome of the command that was
    /// submitted for it.
    pub fn resume(
        &mut self,
        chat: &str,
        stage: LookupStage,
        reply: Result<Json, AgentError>,
        now: u64,
    ) -> (r: Resolution)
        ensures
            (final(self).entries(), r@) == resume_model(
                old(self).entries(),
                chat@,
                stage,
                reply_view(reply),
                now,
            ),
    {
        match stage {
            LookupStage::Username => {
                let found: Option<i64> = match &reply {
                    Ok(v) => integer(v.get("id")),
                    Err(_) => None,
                };
                match found {
                    Some(id) => {
                        self.cache_put(cache_key(chat), id, now);
                        Resolution::Done(Ok(id))
                    },
                    None => {
                        let command = Json::object().with(
                            "@type",
                            Json::string("searchChatsOnServer"),
                        ).with("query", Json::string(chat)).with("limit", Json::Int(5));
                        assert(command@->Object_0 =~= search_command(chat@)->Object_0);
                        Resolution::Lookup(command, LookupStage::Search)
                    },
                }
            },
            LookupStage::Search => match reply {
                Err(e) => Resolution::Done(Err(e)),
                Ok(v) => match items(v.get("chat_ids")) {
                    None => Resolution::Done(Err(not_found_error(chat))),
                    Some(ids) => {
                        if ids.len() == 0 {
                            Resolution::Done(Err(not_found_error(chat)))
                        } else {
                            match ids[0].as_i64() {
                                Some(id) => {
                                    self.cache_put(cache_key(chat), id, now);
                                    Resolution::Done(Ok(id))
                                },
                                None => Resolution::Done(
                                    Err(AgentError::internal("invalid chat id from TDLib")),
                                ),
                            }
                        }
                    },
                },
            },
        }
    }
}

/// A name that is a number resolves to that number at once, whatever the
/// cache holds: no lookup is made.
pub proof fn lemma_numeric_name_needs_no_lookup(
    cache: Map<Seq<char>, CacheEntry>,
    id: i64,
    now: u64,
)
    ensures
        begin_model(cache, decimal(id as int), now) == ResolutionView::Found(id),
{
    lemma_parse_decimal(id);
}

/// An identifier that a lookup found for a name at one time is given from
/// the cache, without a lookup, at every time less than the time to live
/// later; from then on the name is looked up again.
pub proof fn lemma_cached_name_needs_no_lookup(
    cache: Map<Seq<char>, CacheEntry>,
    chat: Seq<char>,
    reply: JsonView,
    id: i64,
    stored_at: u64,
    now: u64,
)
    requires
        parse_i64_spec(chat) is None,
        int_of(reply.get("id"@)) == Some(id),
        stored_at <= now,
    ensures
        ({
            let after = resume_model(cache, chat, LookupStage::Username, Ok(reply), stored_at);
            &&& after.1 == ResolutionView::Found(id)
            &&& now - stored_at < CHAT_CACHE_TTL_NANOS ==> begin_model(after.0, chat, now)
                == ResolutionView::Found(id)
            &&& now - stored_at >= CHAT_CACHE_TTL_NANOS ==> begin_model(after.0, chat, now)
                == ResolutionView::Lookup(username_command(chat), LookupStage::Username)
        }),
{
}

} // verus!
