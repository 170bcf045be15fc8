//! The correlation engine.
//!
//! Every outgoing command gets a token of its own and a slot that waits for
//! the answer. Every incoming payload is routed: to the slot whose token it
//! echoes, to the consumer of authorization updates, or nowhere.

use crate::error::{AgentError, ErrorKind};
use crate::json::{field, integer, int_of, rendered, text, text_of, Json, JsonView};
use crate::text::{
    all_digits, chars_of, decimal, decimal_nat, digits_to_u64, digits_value,
    lemma_canonical_digits, lemma_decimal_nat_digits, lemma_digits_value_bounds, push_decimal,
    push_decimal_nat, str_eq,
};
use vstd::prelude::*;

verus! {

/// How long a request waits for its answer, in seconds.
pub const REQUEST_TIMEOUT_SECS: u64 = 30;

/// How long one poll for the next payload may block, in seconds.
pub const POLL_TIMEOUT_SECS: u64 = 1;

/// The field that carries the correlation token.
pub open spec fn extra_key() -> Seq<char> {
    "@extra"@
}

/// The field that carries the declared type of a payload.
pub open spec fn type_key() -> Seq<char> {
    "@type"@
}

/// The text of a correlation token: the letter `r` and the number in
/// decimal.
pub open spec fn token_text(n: u64) -> Seq<char> {
    seq!['r'] + decimal_nat(n as nat)
}

/// The token that a text denotes: the letter `r`, then a decimal number
/// without a sign and without leading zeros that fits `u64`.
pub open spec fn token_of(text: Seq<char>) -> Option<u64> {
    let body = text.skip(1);
    if text.len() >= 2 && text[0] == 'r' && all_digits(body) && (body.len() == 1 || body[0] != '0')
        && digits_value(body) <= u64::MAX {
        Some(digits_value(body) as u64)
    } else {
        None
    }
}

/// A token is read back from its own text, and a text that denotes a token
/// is the text of that token: tokens and their texts correspond one to one.
pub proof fn lemma_token_round_trip(n: u64, text: Seq<char>)
    ensures
        token_of(token_text(n)) == Some(n),
        token_of(text) == Some(n) ==> text == token_text(n),
{
    lemma_decimal_nat_digits(n as nat);
    assert(token_text(n).skip(1) =~= decimal_nat(n as nat));
    if token_of(text) == Some(n) {
        let body = text.skip(1);
        lemma_canonical_digits(body);
    }
}

/// Distinct tokens have distinct texts.
pub proof fn lemma_token_text_injective(a: u64, b: u64)
    ensures
        token_text(a) == token_text(b) ==> a == b,
{
    lemma_token_round_trip(a, token_text(b));
    lemma_token_round_trip(b, token_text(a));
}

/// The text of a token.
pub fn token_string(n: u64) -> (s: String)
    ensures
        s@ == token_text(n),
{
    let mut s = String::from_str("r");
    proof {
        reveal_strlit("r");
    }
    push_decimal_nat(&mut s, n);
    s
}

/// Reads a token from its text.
pub fn parse_token(text: &str) -> (r: Option<u64>)
    ensures
        r == token_of(text@),
{
    let v = chars_of(text);
    if v.len() < 2 || v[0] != 'r' {
        return None;
    }
    if v.len() > 2 && v[1] == '0' {
        return None;
    }
    proof {
        if all_digits(v@.skip(1)) {
            lemma_digits_value_bounds(v@.skip(1));
        }
    }
    digits_to_u64(&v, 1)
}

/// The requests that wait for their answers, each under its token, and the
/// token that the next request will get.
pub struct Pending<S> {
    next: u64,
    slots: Vec<(u64, S)>,
}

/// The map that a list of slots stands for.
pub open spec fn slot_map<S>(slots: Seq<(u64, S)>) -> Map<u64, S>
    decreases slots.len(),
{
    if slots.len() == 0 {
        Map::empty()
    } else {
        slot_map(slots.drop_last()).insert(slots.last().0, slots.last().1)
    }
}

/// Whether no token occurs twice in a list of slots.
pub open spec fn distinct_tokens<S>(slots: Seq<(u64, S)>) -> bool {
    forall|i: int, j: int|
        0 <= i < j < slots.len() ==> (#[trigger] slots[i]).0 != (#[trigger] slots[j]).0
}

proof fn lemma_slot_map_domain<S>(slots: Seq<(u64, S)>, token: u64)
    ensures
        slot_map(slots).contains_key(token) <==> exists|i: int|
            0 <= i < slots.len() && (#[trigger] slots[i]).0 == token,
    decreases slots.len(),
{
    if slots.len() > 0 {
        let init = slots.drop_last();
        lemma_slot_map_domain(init, token);
        if slot_map(slots).contains_key(token) {
            if slots.last().0 == token {
            } else {
                let i = choose|i: int| 0 <= i < init.len() && (#[trigger] init[i]).0 == token;
            }
        }
        if exists|i: int| 0 <= i < slots.len() && (#[trigger] slots[i]).0 == token {
            let i = choose|i: int| 0 <= i < slots.len() && (#[trigger] slots[i]).0 == token;
            if i < init.len() {
                assert(init[i].0 == token);
            }
        }
    }
}

proof fn lemma_slot_map_value<S>(slots: Seq<(u64, S)>, i: int)
    requires
        distinct_tokens(slots),
        0 <= i < slots.len(),
    ensures
        slot_map(slots).contains_key(slots[i].0),
        slot_map(slots)[slots[i].0] == slots[i].1,
    decreases slots.len(),
{
    let init = slots.drop_last();
    if i < slots.len() - 1 {
        assert(distinct_tokens(init)) by {
            assert forall|a: int, b: int| 0 <= a < b < init.len() implies (#[trigger] init[a]).0
                != (#[trigger] init[b]).0 by {
            }
        }
        lemma_slot_map_value(init, i);
    }
}

proof fn lemma_slot_map_remove<S>(slots: Seq<(u64, S)>, i: int)
    requires
        distinct_tokens(slots),
        0 <= i < slots.len(),
    ensures
        slot_map(slots.remove(i)) == slot_map(slots).remove(slots[i].0),
        distinct_tokens(slots.remove(i)),
    decreases slots.len(),
{
    let rest = slots.remove(i);
    assert(distinct_tokens(rest)) by {
        assert forall|a: int, b: int| 0 <= a < b < rest.len() implies (#[trigger] rest[a]).0 != (
        #[trigger] rest[b]).0 by {
        }
    }
    let init = slots.drop_last();
    if i == slots.len() - 1 {
        lemma_slot_map_domain(init, slots[i].0);
    } else {
        assert(distinct_tokens(init)) by {
            assert forall|a: int, b: int| 0 <= a < b < init.len() implies (#[trigger] init[a]).0
                != (#[trigger] init[b]).0 by {
            }
        }
        lemma_slot_map_remove(init, i);
        assert(rest.drop_last() =~= init.remove(i));
    }
}

impl<S> Pending<S> {
    /// The waiting slots by token.
    pub closed spec fn slots(&self) -> Map<u64, S> {
        slot_map(self.slots@)
    }

    /// The token that the next request gets.
    pub closed spec fn next_token(&self) -> u64 {
        self.next
    }

    /// Every waiting token was handed out before: it is below the next one,
    /// and no token waits twice.
    pub closed spec fn wf(&self) -> bool {
        &&& distinct_tokens(self.slots@)
        &&& forall|i: int| 0 <= i < self.slots@.len() ==> (#[trigger] self.slots@[i]).0 < self.next
    }

    /// Tokens that wait are below the next token.
    pub proof fn lemma_waiting_tokens_are_old(&self, token: u64)
        requires
            self.wf(),
            self.slots().contains_key(token),
        ensures
            token < self.next_token(),
    {
        lemma_slot_map_domain(self.slots@, token);
    }

    /// A registry in which nothing waits; tokens start at 1.
    pub fn new() -> (p: Pending<S>)
        ensures
            p.wf(),
            p.slots() == Map::<u64, S>::empty(),
            p.next_token() == 1,
    {
        Pending { next: 1, slots: Vec::new() }
    }

    /// How many requests wait.
    pub fn len(&self) -> (n: usize)
        requires
            self.wf(),
        ensures
            n == self.slots().len(),
            self.slots().dom().finite(),
    {
        proof {
            Self::lemma_len(self.slots@);
        }
        self.slots.len()
    }

    proof fn lemma_len(slots: Seq<(u64, S)>)
        requires
            distinct_tokens(slots),
        ensures
            slot_map(slots).dom().finite(),
            slot_map(slots).len() == slots.len(),
        decreases slots.len(),
    {
        if slots.len() > 0 {
            let init = slots.drop_last();
            assert(distinct_tokens(init)) by {
                assert forall|a: int, b: int| 0 <= a < b < init.len() implies (
                #[trigger] init[a]).0 != (#[trigger] init[b]).0 by {
                }
            }
            Self::lemma_len(init);
            lemma_slot_map_domain(init, slots.last().0);
        }
    }

    /// Whether a request waits under the token.
    pub fn contains(&self, token: u64) -> (r: bool)
        requires
            self.wf(),
        ensures
            r == self.slots().contains_key(token),
    {
        let mut i: usize = 0;
        proof {
            lemma_slot_map_domain(self.slots@, token);
        }
        while i < self.slots.len()
            invariant
                i <= self.slots.len(),
                forall|k: int| 0 <= k < i ==> (#[trigger] self.slots@[k]).0 != token,
            decreases self.slots.len() - i,
        {
            if self.slots[i].0 == token {
                proof {
                    lemma_slot_map_domain(self.slots@, token);
                }
                return true;
            }
            i += 1;
        }
        proof {
            lemma_slot_map_domain(self.slots@, token);
        }
        false
    }

    /// Registers a slot under a fresh token and returns the token. Fails,
    /// and hands the slot back, only when the tokens are used up.
    pub fn register(&mut self, slot: S) -> (r: Result<u64, S>)
        requires
            old(self).wf(),
        ensures
            final(self).wf(),
            match r {
                Ok(token) => {
                    &&& token == old(self).next_token()
                    &&& token < u64::MAX
                    &&& !old(self).slots().contains_key(token)
                    &&& final(self).slots() == old(self).slots().insert(token, slot)
                    &&& final(self).next_token() == token + 1
                },
                Err(back) => {
                    &&& old(self).next_token() == u64::MAX
                    &&& back == slot
                    &&& final(self).slots() == old(self).slots()
                    &&& final(self).next_token() == old(self).next_token()
                },
            },
    {
        if self.next == u64::MAX {
            return Err(slot);
        }
        let token: u64 = self.next;
        proof {
            lemma_slot_map_domain(self.slots@, token);
            assert(self.slots@.push((token, slot)).drop_last() =~= self.slots@);
        }
        self.slots.push((token, slot));
        self.next = token + 1;
        Ok(token)
    }

    /// Takes the slot that waits under the token, if one does.
    pub fn complete(&mut self, token: u64) -> (r: Option<S>)
        requires
            old(self).wf(),
        ensures
            final(self).wf(),
            final(self).next_token() == old(self).next_token(),
            final(self).slots() == old(self).slots().remove(token),
            r == if old(self).slots().contains_key(token) {
                Some(old(self).slots()[token])
            } else {
                None
            },
    {
        let mut i: usize = 0;
        proof {
            lemma_slot_map_domain(self.slots@, token);
        }
        while i < self.slots.len()
            invariant
                i <= self.slots.len(),
                self.slots == old(self).slots,
                self.next == old(self).next,
                self.wf(),
                forall|k: int| 0 <= k < i ==> (#[trigger] self.slots@[k]).0 != token,
            decreases self.slots.len() - i,
        {
            if self.slots[i].0 == token {
                proof {
                    lemma_slot_map_value(self.slots@, i as int);
                    lemma_slot_map_remove(self.slots@, i as int);
                }
                let (_, slot) = self.slots.remove(i);
                assert forall|k: int| 0 <= k < self.slots@.len() implies (
                #[trigger] self.slots@[k]).0 < self.next by {
                }
                return Some(slot);
            }
            i += 1;
        }
        proof {
            lemma_slot_map_domain(self.slots@, token);
        }
        None
    }
}

/// Why a payload reached nobody.
#[derive(Debug, Clone, Copy, PartialEq, Eq, Structural)]
pub enum DropReason {
    /// The text is not JSON.
    Malformed,
    /// The payload answers a request that does not wait: it timed out, or
    /// was never registered.
    UnknownRequest,
    /// The payload answers nothing and is no authorization update.
    Unsolicited,
}

/// Where a payload belongs, by its own fields.
pub enum Destination {
    /// It carries a correlation field with this text.
    Answer(Seq<char>),
    /// It carries none and declares itself an authorization update.
    Authorization,
    /// Neither.
    Nowhere,
}

/// Where a payload belongs. The correlation field is looked at first, the
/// declared type only where there is none.
pub open spec fn destination(payload: JsonView) -> Destination {
    match text_of(payload.get(extra_key())) {
        Some(extra) => Destination::Answer(extra),
        None => if text_of(payload.get(type_key())) == Some("updateAuthorizationState"@) {
            Destination::Authorization
        } else {
            Destination::Nowhere
        },
    }
}

/// What became of a payload.
pub enum Outcome<S> {
    /// It completed the request that waited under the token with this slot.
    Complete(u64, S),
    /// It goes to the consumer of authorization updates.
    Authorization,
    /// It was dropped.
    Dropped(DropReason),
}

/// Routing one payload: the slots that wait afterwards, and what became of
/// the payload. Only an answer to a waiting request changes the slots: it
/// takes the slot of that request.
pub open spec fn route_model<S>(slots: Map<u64, S>, payload: JsonView) -> (
    Map<u64, S>,
    Outcome<S>,
) {
    match destination(payload) {
        Destination::Answer(extra) => match token_of(extra) {
            Some(token) => if slots.contains_key(token) {
                (slots.remove(token), Outcome::Complete(token, slots[token]))
            } else {
                (slots, Outcome::Dropped(DropReason::UnknownRequest))
            },
            None => (slots, Outcome::Dropped(DropReason::UnknownRequest)),
        },
        Destination::Authorization => (slots, Outcome::Authorization),
        Destination::Nowhere => (slots, Outcome::Dropped(DropReason::Unsolicited)),
    }
}

/// Routing payloads one after another, in the order given.
pub open spec fn route_all<S>(slots: Map<u64, S>, payloads: Seq<JsonView>) -> (
    Map<u64, S>,
    Seq<Outcome<S>>,
)
    decreases payloads.len(),
{
    if payloads.len() == 0 {
        (slots, Seq::empty())
    } else {
        let before = route_all(slots, payloads.drop_last());
        let step = route_model(before.0, payloads.last());
        (step.0, before.1.push(step.1))
    }
}

/// A payload on its way to whoever waits for it.
#[derive(Debug)]
pub enum Delivery<S> {
    /// The payload answers the request whose slot this is.
    Complete(S, Json),
    /// The payload is an authorization update.
    Authorization(Json),
    /// Nothing waits for the payload.
    Dropped(DropReason),
}

/// A command ready for the transport: its token and its text.
#[derive(Debug)]
pub struct Submission {
    pub token: u64,
    pub text: String,
}

/// The request with its correlation field.
pub open spec fn stamped(request: JsonView, token: u64) -> JsonView {
    request.with(extra_key(), JsonView::Str(token_text(token)))
}

/// Whether a document can carry a command: an object, or nothing yet.
pub open spec fn is_command(request: JsonView) -> bool {
    request is Object || request is Null
}

/// The text that the transport gets for a document: its JSON text, if it
/// has one without a NUL character.
pub open spec fn wire_text(request: JsonView) -> Option<Seq<char>> {
    match rendered(request) {
        Some(text) => if text.contains('\0') {
            None
        } else {
            Some(text)
        },
        None => None,
    }
}

/// The description of the error that a payload declares itself to be: its
/// code, 0 where it has none, and its message, `unknown error` where it has
/// none. `None` for every other payload.
pub open spec fn api_error(payload: JsonView) -> Option<Seq<char>> {
    if text_of(payload.get(type_key())) == Some("error"@) {
        let code = match int_of(payload.get("code"@)) {
            Some(c) => c,
            None => 0i64,
        };
        let message = match text_of(payload.get("message"@)) {
            Some(m) => m,
            None => "unknown error"@,
        };
        Some("TDLib error "@ + decimal(code as int) + ": "@ + message)
    } else {
        None
    }
}

/// The failure of a request that got no answer in time.
pub open spec fn timeout_error() -> (ErrorKind, Seq<char>) {
    (ErrorKind::Network, "request timed out after 30s"@)
}

/// Whether a text holds a NUL character.
fn has_nul(text: &str) -> (r: bool)
    ensures
        r == text@.contains('\0'),
{
    let v = chars_of(text);
    let mut i: usize = 0;
    while i < v.len()
        invariant
            i <= v.len(),
            v@ == text@,
            forall|k: int| 0 <= k < i ==> v@[k] != '\0',
        decreases v.len() - i,
    {
        if v[i] == '\0' {
            return true;
        }
        i += 1;
    }
    false
}

/// Whether the payload declares the given type.
pub fn has_type(payload: &Json, name: &str) -> (r: bool)
    ensures
        r == (text_of(payload@.get(type_key())) == Some(name@)),
{
    match payload.get("@type") {
        Some(t) => match t.as_str() {
            Some(s) => str_eq(s, name),
            None => false,
        },
        None => false,
    }
}

/// Fails with an API error where the payload declares itself an error, with
/// its code and message in the detail.
pub fn check_tdlib_error(payload: &Json) -> (r: Result<(), AgentError>)
    ensures
        match r {
            Ok(_) => api_error(payload@) is None,
            Err(e) => api_error(payload@) == Some(e@.1) && e@.0 == ErrorKind::Api,
        },
{
    if has_type(payload, "error") {
        let code: i64 = match integer(payload.get("code")) {
            Some(c) => c,
            None => 0,
        };
        let mut detail = String::from_str("TDLib error ");
        push_decimal(&mut detail, code);
        detail.append(": ");
        match text(payload.get("message")) {
            Some(m) => detail.append(m),
            None => detail.append("unknown error"),
        }
        Err(AgentError::Api(detail))
    } else {
        Ok(())
    }
}

/// The text of a command for the transport. Fails with an internal error
/// where the document has no JSON text, or one with a NUL character.
pub fn encode(request: &Json) -> (r: Result<String, AgentError>)
    ensures
        match r {
            Ok(text) => wire_text(request@) == Some(text@),
            Err(e) => {
                &&& wire_text(request@) is None
                &&& e@.0 == ErrorKind::Internal
                &&& rendered(request@) is Some ==> e@.1 == "nul character in request text"@
            },
        },
{
    match request.render() {
        Ok(text) => {
            if has_nul(text.as_str()) {
                Err(AgentError::internal("nul character in request text"))
            } else {
                Ok(text)
            }
        },
        Err(e) => Err(e),
    }
}

/// Hands a payload on as the result of its request, unless it declares
/// itself an error.
pub fn finish(payload: Json) -> (r: Result<Json, AgentError>)
    ensures
        match r {
            Ok(p) => api_error(payload@) is None && p == payload,
            Err(e) => api_error(payload@) == Some(e@.1) && e@.0 == ErrorKind::Api,
        },
{
    match check_tdlib_error(&payload) {
        Ok(_) => Ok(payload),
        Err(e) => Err(e),
    }
}

/// Reads the answer to a command that was executed synchronously: the
/// payload, unless the text is not JSON or the payload declares itself an
/// error.
pub fn decode(text: &str) -> (r: Result<Json, AgentError>)
    ensures
        match r {
            Ok(p) => crate::json::parsed(text@) == Some(p@) && api_error(p@) is None,
            Err(e) => match crate::json::parsed(text@) {
                Some(v) => api_error(v) == Some(e@.1) && e@.0 == ErrorKind::Api,
                None => e@.0 == ErrorKind::Internal,
            },
        },
{
    match Json::parse(text) {
        Ok(p) => finish(p),
        Err(e) => Err(e),
    }
}

impl<S> Pending<S> {
    /// Routes one payload. An answer takes the slot of the request that
    /// waits under its token; every other payload leaves the registry as it
    /// is.
    pub fn route(&mut self, payload: Json) -> (r: Delivery<S>)
        requires
            old(self).wf(),
        ensures
            final(self).wf(),
            final(self).next_token() == old(self).next_token(),
            final(self).slots() == route_model(old(self).slots(), payload@).0,
            match route_model(old(self).slots(), payload@).1 {
                Outcome::Complete(_, slot) => r == Delivery::Complete(slot, payload),
                Outcome::Authorization => r == Delivery::<S>::Authorization(payload),
                Outcome::Dropped(why) => r == Delivery::<S>::Dropped(why),
            },
    {
        let token: Option<u64> = match text(payload.get("@extra")) {
            Some(extra) => {
                match parse_token(extra) {
                    Some(t) => Some(t),
                    None => {
                        return Delivery::Dropped(DropReason::UnknownRequest);
                    },
                }
            },
            None => None,
        };
        match token {
            Some(t) => match self.complete(t) {
                Some(slot) => Delivery::Complete(slot, payload),
                None => {
                    Delivery::Dropped(DropReason::UnknownRequest)
                },
            },
            None => {
                if has_type(&payload, "updateAuthorizationState") {
                    Delivery::Authorization(payload)
                } else {
                    Delivery::Dropped(DropReason::Unsolicited)
                }
            },
        }
    }

    /// Routes the payload that a text denotes; a text that is not JSON is
    /// dropped.
    pub fn receive(&mut self, text: &str) -> (r: Delivery<S>)
        requires
            old(self).wf(),
        ensures
            final(self).wf(),
            final(self).next_token() == old(self).next_token(),
            match crate::json::parsed(text@) {
                None => r == Delivery::<S>::Dropped(DropReason::Malformed) && final(self).slots()
                    == old(self).slots(),
                Some(payload) => {
                    &&& final(self).slots() == route_model(old(self).slots(), payload).0
                    &&& match route_model(old(self).slots(), payload).1 {
                        Outcome::Complete(_, slot) => r matches Delivery::Complete(s, p) && s
                            == slot && p@ == payload,
                        Outcome::Authorization => r matches Delivery::Authorization(p) && p@
                            == payload,
                        Outcome::Dropped(why) => r == Delivery::<S>::Dropped(why),
                    }
                },
            },
    {
        match Json::parse(text) {
            Ok(payload) => self.route(payload),
            Err(_) => Delivery::Dropped(DropReason::Malformed),
        }
    }

    /// Gives up a request that got no answer in time: its slot, if it still
    /// waits, leaves the registry, and the caller gets the timeout failure.
    pub fn expire(&mut self, token: u64) -> (e: AgentError)
        requires
            old(self).wf(),
        ensures
            final(self).wf(),
            final(self).next_token() == old(self).next_token(),
            final(self).slots() == old(self).slots().remove(token),
            !final(self).slots().contains_key(token),
            e@ == timeout_error(),
    {
        let _ = self.complete(token);
        AgentError::network("request timed out after 30s")
    }

    /// Prepares a command for the transport: gives it a fresh token, writes
    /// the token into it and registers the slot under it.
    ///
    /// Fails with an internal error, leaving the registry as it was, where
    /// the request is neither an object nor null, where the tokens are used
    /// up, or where the stamped request has no text for the transport.
    pub fn prepare(&mut self, request: Json, slot: S) -> (r: Result<Submission, AgentError>)
        requires
            old(self).wf(),
        ensures
            final(self).wf(),
            r is Ok <==> is_command(request@) && old(self).next_token() < u64::MAX && wire_text(
                stamped(request@, old(self).next_token()),
            ) is Some,
            match r {
                Ok(sub) => {
                    &&& sub.token == old(self).next_token()
                    &&& wire_text(stamped(request@, sub.token)) == Some(sub.text@)
                    &&& !old(self).slots().contains_key(sub.token)
                    &&& final(self).slots() == old(self).slots().insert(sub.token, slot)
                    &&& final(self).next_token() == sub.token + 1
                },
                Err(e) => {
                    &&& e@.0 == ErrorKind::Internal
                    &&& !is_command(request@) ==> e@.1 == "request is not a JSON object"@
                    &&& is_command(request@) && old(self).next_token() == u64::MAX ==> e@.1
                        == "correlation tokens are used up"@
                    &&& final(self).slots() == old(self).slots()
                    &&& final(self).next_token() == old(self).next_token()
                },
            },
    {
        let acceptable: bool = match &request {
            Json::Object(_) => true,
            Json::Null => true,
            _ => false,
        };
        if !acceptable {
            return Err(AgentError::internal("request is not a JSON object"));
        }
        if self.next == u64::MAX {
            return Err(AgentError::internal("correlation tokens are used up"));
        }
        let token: u64 = self.next;
        let stamp = token_string(token);
        let full = request.with("@extra", Json::Str(stamp));
        match encode(&full) {
            Ok(text) => match self.register(slot) {
                Ok(t) => Ok(Submission { token: t, text }),
                Err(_) => Err(AgentError::internal("correlation tokens are used up")),
            },
            Err(e) => Err(e),
        }
    }
}

/// Every answer reaches the slot of its own request, whatever the order in
/// which the answers arrive: where the payloads answer distinct waiting
/// requests, the payload at each position completes the request that it
/// names with the slot registered for it, and afterwards none of those
/// requests waits.
pub proof fn lemma_answers_reach_their_slots<S>(
    slots: Map<u64, S>,
    payloads: Seq<JsonView>,
    tokens: Seq<u64>,
)
    requires
        payloads.len() == tokens.len(),
        tokens.no_duplicates(),
        forall|i: int| 0 <= i < tokens.len() ==> slots.contains_key(#[trigger] tokens[i]),
        forall|i: int|
            0 <= i < tokens.len() ==> destination(#[trigger] payloads[i]) == Destination::Answer(
                token_text(tokens[i]),
            ),
    ensures
        route_all(slots, payloads).1.len() == tokens.len(),
        forall|i: int|
            0 <= i < tokens.len() ==> #[trigger] route_all(slots, payloads).1[i]
                == Outcome::Complete(tokens[i], slots[tokens[i]]),
        route_all(slots, payloads).0 == slots.remove_keys(tokens.to_set()),
    decreases payloads.len(),
{
    if payloads.len() == 0 {
    } else {
        let n = tokens.len() - 1;
        let t = tokens[n];
        let init_p = payloads.drop_last();
        let init_t = tokens.drop_last();
        assert forall|i: int| 0 <= i < init_t.len() implies slots.contains_key(
            #[trigger] init_t[i],
        ) by {
        }
        assert forall|i: int| 0 <= i < init_t.len() implies destination(#[trigger] init_p[i])
            == Destination::Answer(token_text(init_t[i])) by {
        }
        lemma_answers_reach_their_slots(slots, init_p, init_t);
        lemma_token_round_trip(t, token_text(t));
        assert(!init_t.to_set().contains(t)) by {
            if init_t.to_set().contains(t) {
                let k = choose|k: int| 0 <= k < init_t.len() && init_t[k] == t;
            }
        }
        assert(tokens.to_set() =~= init_t.to_set().insert(t)) by {
            assert forall|x: u64| tokens.to_set().contains(x) implies init_t.to_set().insert(
                t,
            ).contains(x) by {
                let k = choose|k: int| 0 <= k < tokens.len() && tokens[k] == x;
                if k < n {
                    assert(init_t[k] == x);
                }
            }
            assert forall|x: u64| init_t.to_set().insert(t).contains(x) implies tokens.to_set(
            ).contains(x) by {
            }
        }
        assert forall|i: int| 0 <= i < tokens.len() implies #[trigger] route_all(
            slots,
            payloads,
        ).1[i] == Outcome::Complete(tokens[i], slots[tokens[i]]) by {
        }
    }
}

/// A request that was given up is not completed by an answer that comes
/// late: once a token has left the registry, a payload that echoes it is
/// dropped as the answer to an unknown request and the registry stays as it
/// is.
pub proof fn lemma_late_answer_is_dropped<S>(slots: Map<u64, S>, token: u64, payload: JsonView)
    requires
        destination(payload) == Destination::Answer(token_text(token)),
    ensures
        !slots.remove(token).contains_key(token),
        route_model(slots.remove(token), payload) == (
            slots.remove(token),
            Outcome::<S>::Dropped(DropReason::UnknownRequest),
        ),
{
    lemma_token_round_trip(token, token_text(token));
}

} // verus!
