//! JSON documents as trees of plain values, read and written through
//! `serde_json`.
//!
//! An object is a list of entries. Where a key occurs more than once, the
//! last entry counts, as when the list is read into a map.

use crate::error::{AgentError, ErrorKind};
use crate::text::{glue, str_eq, usize_to_string};
use vstd::prelude::*;

verus! {

#[verifier::external_type_specification]
#[verifier::external_body]
pub struct ExValue(serde_json::Value);

#[verifier::external_type_specification]
#[verifier::external_body]
pub struct ExError(serde_json::Error);

/// The document that a text denotes, as `serde_json::from_str` reads it;
/// `None` for a text that is not JSON.
pub uninterp spec fn parsed(text: Seq<char>) -> Option<JsonView>;

/// The text of a document, as `serde_json::to_string` writes it.
pub uninterp spec fn rendered(value: JsonView) -> Option<Seq<char>>;

/// Copies a `serde_json::Value` into a `Json`, variant by variant. A number
/// becomes `Int` where `Number::as_i64` gives a value, and `Number` with the
/// number's own notation otherwise. Nothing is claimed of the result.
#[verifier::external_body]
fn from_value(v: &serde_json::Value) -> Json {
    match v {
        serde_json::Value::Null => Json::Null,
        serde_json::Value::Bool(b) => Json::Bool(*b),
        serde_json::Value::Number(n) => n.as_i64().map_or_else(|| Json::Number(n.to_string()), Json::Int),
        serde_json::Value::String(s) => Json::Str(s.clone()),
        serde_json::Value::Array(a) => Json::Array(a.iter().map(from_value).collect()),
        serde_json::Value::Object(m) => Json::Object(
            m.iter().map(|(k, v)| (k.clone(), from_value(v))).collect(),
        ),
    }
}

/// Copies a `Json` into a `serde_json::Value`, variant by variant. The text
/// of a `Number` is read back with `serde_json::Number`'s `FromStr`; a text
/// that it refuses becomes `null`. Nothing is claimed of the result.
#[verifier::external_body]
fn to_value(j: &Json) -> serde_json::Value {
    match j {
        Json::Null => serde_json::Value::Null,
        Json::Bool(b) => serde_json::Value::Bool(*b),
        Json::Int(i) => serde_json::Value::from(*i),
        Json::Number(t) => t.parse().map_or(serde_json::Value::Null, serde_json::Value::Number),
        Json::Str(s) => serde_json::Value::String(s.clone()),
        Json::Array(a) => serde_json::Value::Array(a.iter().map(to_value).collect()),
        Json::Object(m) => serde_json::Value::Object(
            m.iter().map(|(k, v)| (k.clone(), to_value(v))).collect(),
        ),
    }
}

/// Calls `serde_json::from_str` for a `serde_json::Value`. The contract
/// names the document read and says that the call fails exactly on the
/// texts that denote none.
#[verifier::external_body]
fn read_value(text: &str) -> (r: Result<Json, serde_json::Error>)
    ensures
        match r {
            Ok(j) => parsed(text@) == Some(j@),
            Err(_) => parsed(text@) is None,
        },
{
    match serde_json::from_str::<serde_json::Value>(text) {
        Ok(v) => Ok(from_value(&v)),
        Err(e) => Err(e),
    }
}

/// Calls `serde_json::to_string` on the document as a `serde_json::Value`.
/// The contract names the text written.
#[verifier::external_body]
fn write_value(j: &Json) -> (r: Result<String, serde_json::Error>)
    ensures
        match r {
            Ok(s) => rendered(j@) == Some(s@),
            Err(_) => rendered(j@) is None,
        },
{
    serde_json::to_string(&to_value(j))
}

/// The message of a `serde_json::Error`, through its `Display`. Nothing is
/// claimed of the text.
#[verifier::external_body]
fn error_message(e: &serde_json::Error) -> String {
    e.to_string()
}

/// A JSON document.
#[derive(Debug, PartialEq, Eq)]
pub enum Json {
    Null,
    Bool(bool),
    /// A number that is an integer within the range of `i64`.
    Int(i64),
    /// Any other number, in its decimal notation.
    Number(String),
    Str(String),
    Array(Vec<Json>),
    Object(Vec<(String, Json)>),
}

/// `Json` in terms of texts and sequences.
pub enum JsonView {
    Null,
    Bool(bool),
    Int(i64),
    Number(Seq<char>),
    Str(Seq<char>),
    Array(Seq<JsonView>),
    Object(Seq<(Seq<char>, JsonView)>),
}

/// The view of a document: its texts as sequences of characters, its lists
/// as sequences.
pub open spec fn view_of(j: Json) -> JsonView
    decreases j,
{
    match j {
        Json::Null => JsonView::Null,
        Json::Bool(b) => JsonView::Bool(b),
        Json::Int(i) => JsonView::Int(i),
        Json::Number(t) => JsonView::Number(t@),
        Json::Str(s) => JsonView::Str(s@),
        Json::Array(a) => JsonView::Array(
            Seq::new(
                a.len() as nat,
                |i: int|
                    if 0 <= i < a.len() {
                        view_of(a[i])
                    } else {
                        JsonView::Null
                    },
            ),
        ),
        Json::Object(m) => JsonView::Object(
            Seq::new(
                m.len() as nat,
                |i: int|
                    if 0 <= i < m.len() {
                        (m[i].0@, view_of(m[i].1))
                    } else {
                        (Seq::empty(), JsonView::Null)
                    },
            ),
        ),
    }
}

impl View for Json {
    type V = JsonView;

    open spec fn view(&self) -> JsonView {
        view_of(*self)
    }
}

/// The views of a sequence of documents.
pub open spec fn json_views(v: Seq<Json>) -> Seq<JsonView> {
    Seq::new(v.len(), |i: int| v[i]@)
}

/// The view of an optional reference to a document.
pub open spec fn opt_json(o: Option<&Json>) -> Option<JsonView> {
    match o {
        Some(j) => Some(j@),
        None => None,
    }
}

/// The text behind an optional string slice.
pub open spec fn opt_str(o: Option<&str>) -> Option<Seq<char>> {
    match o {
        Some(s) => Some(s@),
        None => None,
    }
}

/// The value of the last entry with the given key.
pub open spec fn lookup(entries: Seq<(Seq<char>, JsonView)>, key: Seq<char>) -> Option<JsonView>
    decreases entries.len(),
{
    if entries.len() == 0 {
        None
    } else if entries.last().0 == key {
        Some(entries.last().1)
    } else {
        lookup(entries.drop_last(), key)
    }
}

impl JsonView {
    /// The member of an object under a key; `None` for a missing key and for
    /// anything that is not an object.
    pub open spec fn get(self, key: Seq<char>) -> Option<JsonView> {
        match self {
            JsonView::Object(entries) => lookup(entries, key),
            _ => None,
        }
    }

    /// The text of a string.
    pub open spec fn as_str(self) -> Option<Seq<char>> {
        match self {
            JsonView::Str(s) => Some(s),
            _ => None,
        }
    }

    /// The value of an integer within the range of `i64`.
    pub open spec fn as_i64(self) -> Option<i64> {
        match self {
            JsonView::Int(i) => Some(i),
            _ => None,
        }
    }

    /// The value of an integer that is not negative and fits `u64`.
    pub open spec fn as_u64(self) -> Option<u64> {
        match self {
            JsonView::Int(i) => if i >= 0 {
                Some(i as u64)
            } else {
                None
            },
            JsonView::Number(t) => crate::text::digits_u64(t),
            _ => None,
        }
    }

    /// The value of a boolean.
    pub open spec fn as_bool(self) -> Option<bool> {
        match self {
            JsonView::Bool(b) => Some(b),
            _ => None,
        }
    }

    /// The items of an array.
    pub open spec fn as_array(self) -> Option<Seq<JsonView>> {
        match self {
            JsonView::Array(a) => Some(a),
            _ => None,
        }
    }

    /// The object with one more entry at its end; anything that is not an
    /// object becomes an object with that entry alone.
    pub open spec fn with(self, key: Seq<char>, value: JsonView) -> JsonView {
        match self {
            JsonView::Object(entries) => JsonView::Object(entries.push((key, value))),
            _ => JsonView::Object(seq![(key, value)]),
        }
    }
}

/// The member under `key` of a document that may be absent.
pub open spec fn member(v: Option<JsonView>, key: Seq<char>) -> Option<JsonView> {
    match v {
        Some(j) => j.get(key),
        None => None,
    }
}

/// The text of a document that may be absent.
pub open spec fn text_of(v: Option<JsonView>) -> Option<Seq<char>> {
    match v {
        Some(j) => j.as_str(),
        None => None,
    }
}

/// The integer of a document that may be absent.
pub open spec fn int_of(v: Option<JsonView>) -> Option<i64> {
    match v {
        Some(j) => j.as_i64(),
        None => None,
    }
}

/// The natural number of a document that may be absent.
pub open spec fn nat_of(v: Option<JsonView>) -> Option<u64> {
    match v {
        Some(j) => j.as_u64(),
        None => None,
    }
}

/// The boolean of a document that may be absent.
pub open spec fn bool_of(v: Option<JsonView>) -> Option<bool> {
    match v {
        Some(j) => j.as_bool(),
        None => None,
    }
}

/// The items of a document that may be absent.
pub open spec fn items_of(v: Option<JsonView>) -> Option<Seq<JsonView>> {
    match v {
        Some(j) => j.as_array(),
        None => None,
    }
}

/// The number `n` as a document.
pub open spec fn count_json(n: nat) -> JsonView {
    if n <= i64::MAX {
        JsonView::Int(n as i64)
    } else {
        JsonView::Number(crate::text::decimal(n as int))
    }
}

impl Json {
    /// The member of an object under a key.
    pub fn get(&self, key: &str) -> (r: Option<&Json>)
        ensures
            opt_json(r) == self@.get(key@),
    {
        match self {
            Json::Object(m) => {
                let ghost entries = self@->Object_0;
                let mut i: usize = m.len();
                assert(entries.take(i as int) =~= entries);
                while i > 0
                    invariant
                        i <= m.len(),
                        self@ == JsonView::Object(entries),
                        *self == Json::Object(*m),
                        lookup(entries, key@) == lookup(entries.take(i as int), key@),
                    decreases i,
                {
                    i -= 1;
                    proof {
                        assert(entries.take(i + 1).drop_last() =~= entries.take(i as int));
                    }
                    if str_eq(m[i].0.as_str(), key) {
                        return Some(&m[i].1);
                    }
                }
                None
            },
            _ => None,
        }
    }

    /// The text of a string.
    pub fn as_str(&self) -> (r: Option<&str>)
        ensures
            opt_str(r) == self@.as_str(),
    {
        match self {
            Json::Str(s) => Some(s.as_str()),
            _ => None,
        }
    }

    /// The value of an integer within the range of `i64`.
    pub fn as_i64(&self) -> (r: Option<i64>)
        ensures
            r == self@.as_i64(),
    {
        match self {
            Json::Int(i) => Some(*i),
            _ => None,
        }
    }

    /// The value of an integer that is not negative and fits `u64`.
    pub fn as_u64(&self) -> (r: Option<u64>)
        ensures
            r == self@.as_u64(),
    {
        match self {
            Json::Int(i) => if *i >= 0 {
                Some(*i as u64)
            } else {
                None
            },
            Json::Number(t) => {
                let v = crate::text::chars_of(t.as_str());
                assert(v@.skip(0) =~= v@);
                crate::text::digits_to_u64(&v, 0)
            },
            _ => None,
        }
    }

    /// The value of a boolean.
    pub fn as_bool(&self) -> (r: Option<bool>)
        ensures
            r == self@.as_bool(),
    {
        match self {
            Json::Bool(b) => Some(*b),
            _ => None,
        }
    }

    /// The items of an array.
    pub fn as_array(&self) -> (r: Option<&Vec<Json>>)
        ensures
            match r {
                Some(a) => self@.as_array() == Some(json_views(a@)),
                None => self@.as_array() is None,
            },
    {
        match self {
            Json::Array(a) => {
                Some(a)
            },
            _ => None,
        }
    }

    /// Reads a document from its text. A text that is not JSON gives an
    /// internal error whose detail starts with `json parse: `.
    pub fn parse(text: &str) -> (r: Result<Json, AgentError>)
        ensures
            match r {
                Ok(j) => parsed(text@) == Some(j@),
                Err(e) => parsed(text@) is None && e@.0 == ErrorKind::Internal
                    && "json parse: "@.is_prefix_of(e@.1),
            },
    {
        match read_value(text) {
            Ok(j) => Ok(j),
            Err(e) => {
                let m = error_message(&e);
                Err(AgentError::Internal(glue("json parse: ", m.as_str())))
            },
        }
    }

    /// Writes the document as text. A document that cannot be written gives
    /// an internal error.
    pub fn render(&self) -> (r: Result<String, AgentError>)
        ensures
            match r {
                Ok(s) => rendered(self@) == Some(s@),
                Err(e) => rendered(self@) is None && e@.0 == ErrorKind::Internal,
            },
    {
        match write_value(self) {
            Ok(s) => Ok(s),
            Err(e) => Err(AgentError::Internal(error_message(&e))),
        }
    }

    /// A document equal to this one.
    pub fn duplicate(&self) -> (j: Json)
        ensures
            j@ == self@,
        decreases self,
    {
        match self {
            Json::Null => Json::Null,
            Json::Bool(b) => Json::Bool(*b),
            Json::Int(i) => Json::Int(*i),
            Json::Number(t) => Json::Number(t.clone()),
            Json::Str(s) => Json::Str(s.clone()),
            Json::Array(a) => {
                let mut out: Vec<Json> = Vec::new();
                let mut i: usize = 0;
                while i < a.len()
                    invariant
                        i <= a.len(),
                        out.len() == i,
                        *self == Json::Array(*a),
                        forall|k: int| 0 <= k < i ==> (#[trigger] out@[k])@ == a@[k]@,
                    decreases a.len() - i,
                {
                    proof {
                        assert(decreases_to!(*self => self->Array_0));
                    }
                    out.push(a[i].duplicate());
                    i += 1;
                }
                let j = Json::Array(out);
                assert(j@->Array_0 =~= self@->Array_0);
                j
            },
            Json::Object(m) => {
                let mut out: Vec<(String, Json)> = Vec::new();
                let mut i: usize = 0;
                while i < m.len()
                    invariant
                        i <= m.len(),
                        out.len() == i,
                        *self == Json::Object(*m),
                        forall|k: int|
                            0 <= k < i ==> (#[trigger] out@[k]).0@ == m@[k].0@ && out@[k].1@
                                == m@[k].1@,
                    decreases m.len() - i,
                {
                    proof {
                        assert(decreases_to!(*self => self->Object_0));
                    }
                    out.push((m[i].0.clone(), m[i].1.duplicate()));
                    i += 1;
                }
                let j = Json::Object(out);
                assert(j@->Object_0 =~= self@->Object_0);
                j
            },
        }
    }

    /// A string.
    pub fn string(s: &str) -> (j: Json)
        ensures
            j@ == JsonView::Str(s@),
    {
        Json::Str(String::from_str(s))
    }

    /// A count: an integer where it fits `i64`, its decimal notation
    /// otherwise.
    pub fn count(n: usize) -> (j: Json)
        ensures
            j@ == count_json(n as nat),
    {
        if (n as u64) <= 9223372036854775807u64 {
            Json::Int(n as i64)
        } else {
            Json::Number(usize_to_string(n))
        }
    }

    /// An object without entries.
    pub fn object() -> (j: Json)
        ensures
            j@ == JsonView::Object(Seq::empty()),
    {
        let j = Json::Object(Vec::new());
        assert(j@->Object_0 =~= Seq::empty());
        j
    }

    /// An array of integers.
    pub fn int_array(items: &Vec<i64>) -> (j: Json)
        ensures
            j@ == JsonView::Array(Seq::new(items@.len(), |i: int| JsonView::Int(items@[i]))),
    {
        let mut out: Vec<Json> = Vec::new();
        let mut i: usize = 0;
        while i < items.len()
            invariant
                i <= items.len(),
                out.len() == i,
                forall|k: int| 0 <= k < i ==> (#[trigger] out@[k])@ == JsonView::Int(items@[k]),
            decreases items.len() - i,
        {
            out.push(Json::Int(items[i]));
            i += 1;
        }
        let j = Json::Array(out);
        assert(j@->Array_0 =~= Seq::new(items@.len(), |i: int| JsonView::Int(items@[i])));
        j
    }

    /// An array of strings.
    pub fn string_array(items: &Vec<String>) -> (j: Json)
        ensures
            j@ == JsonView::Array(Seq::new(items@.len(), |i: int| JsonView::Str(items@[i]@))),
    {
        let mut out: Vec<Json> = Vec::new();
        let mut i: usize = 0;
        while i < items.len()
            invariant
                i <= items.len(),
                out.len() == i,
                forall|k: int| 0 <= k < i ==> (#[trigger] out@[k])@ == JsonView::Str(items@[k]@),
            decreases items.len() - i,
        {
            out.push(Json::Str(items[i].clone()));
            i += 1;
        }
        let j = Json::Array(out);
        assert(j@->Array_0 =~= Seq::new(items@.len(), |i: int| JsonView::Str(items@[i]@)));
        j
    }

    /// Adds an entry at the end of an object. Anything that is not an
    /// object is replaced by an object with that entry alone.
    pub fn set(&mut self, key: &str, value: Json)
        ensures
            final(self)@ == old(self)@.with(key@, value@),
    {
        let mut taken = Json::Null;
        std::mem::swap(self, &mut taken);
        match taken {
            Json::Object(mut m) => {
                let ghost before = taken@->Object_0;
                m.push((String::from_str(key), value));
                *self = Json::Object(m);
                assert(self@->Object_0 =~= before.push((key@, value@)));
            },
            _ => {
                let mut m: Vec<(String, Json)> = Vec::new();
                m.push((String::from_str(key), value));
                *self = Json::Object(m);
                assert(self@->Object_0 =~= seq![(key@, value@)]);
            },
        }
    }

    /// The object with one more entry at its end.
    pub fn with(self, key: &str, value: Json) -> (j: Json)
        ensures
            j@ == self@.with(key@, value@),
    {
        let mut j = self;
        j.set(key, value);
        j
    }
}

/// The member under `key` of a document that may be absent.
pub fn field<'a>(v: Option<&'a Json>, key: &str) -> (r: Option<&'a Json>)
    ensures
        opt_json(r) == member(opt_json(v), key@),
{
    match v {
        Some(j) => j.get(key),
        None => None,
    }
}

/// The text of a document that may be absent.
pub fn text<'a>(v: Option<&'a Json>) -> (r: Option<&'a str>)
    ensures
        opt_str(r) == text_of(opt_json(v)),
{
    match v {
        Some(j) => j.as_str(),
        None => None,
    }
}

/// The integer of a document that may be absent.
pub fn integer(v: Option<&Json>) -> (r: Option<i64>)
    ensures
        r == int_of(opt_json(v)),
{
    match v {
        Some(j) => j.as_i64(),
        None => None,
    }
}

/// The natural number of a document that may be absent.
pub fn natural(v: Option<&Json>) -> (r: Option<u64>)
    ensures
        r == nat_of(opt_json(v)),
{
    match v {
        Some(j) => j.as_u64(),
        None => None,
    }
}

/// The boolean of a document that may be absent.
pub fn boolean(v: Option<&Json>) -> (r: Option<bool>)
    ensures
        r == bool_of(opt_json(v)),
{
    match v {
        Some(j) => j.as_bool(),
        None => None,
    }
}

/// The items of a document that may be absent.
pub fn items<'a>(v: Option<&'a Json>) -> (r: Option<&'a Vec<Json>>)
    ensures
        match r {
            Some(a) => items_of(opt_json(v)) == Some(json_views(a@)),
            None => items_of(opt_json(v)) is None,
        },
{
    match v {
        Some(j) => j.as_array(),
        None => None,
    }
}

/// The text, or a default where there is none.
pub open spec fn text_or_default(o: Option<Seq<char>>, default: Seq<char>) -> Seq<char> {
    match o {
        Some(s) => s,
        None => default,
    }
}

/// An owned copy of a text that may be absent.
pub fn owned(o: Option<&str>) -> (r: Option<String>)
    ensures
        match r {
            Some(s) => opt_str(o) == Some(s@),
            None => o is None,
        },
{
    match o {
        Some(s) => Some(String::from_str(s)),
        None => None,
    }
}

/// An owned copy of a text, or of a default where there is none.
pub fn owned_or(o: Option<&str>, default: &str) -> (r: String)
    ensures
        r@ == text_or_default(opt_str(o), default@),
{
    match o {
        Some(s) => String::from_str(s),
        None => String::from_str(default),
    }
}

/// An owned copy of a text, empty where there is none.
pub fn owned_or_empty(o: Option<&str>) -> (r: String)
    ensures
        r@ == text_or_default(opt_str(o), Seq::empty()),
{
    match o {
        Some(s) => String::from_str(s),
        None => String::new(),
    }
}

/// An integer cut to 32 bits, where there is one.
pub open spec fn cut_i32(o: Option<i64>) -> Option<i32> {
    match o {
        Some(n) => Some(n as i32),
        None => None,
    }
}

/// An integer cut to 32 bits, where there is one.
pub fn cut(o: Option<i64>) -> (r: Option<i32>)
    ensures
        r == cut_i32(o),
{
    match o {
        Some(n) => Some(
            #[verifier::truncate]
            (n as i32),
        ),
        None => None,
    }
}

} // verus!
