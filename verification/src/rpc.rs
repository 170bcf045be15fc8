//! What a tool call gives back, and how its arguments are read.

use crate::entities::Platform;
use crate::json::{
    int_of, items, items_of, json_views, opt_json, text, text_of, Json, JsonView,
};
use crate::text::{decimal, glue, glue3, lowercase, str_eq, trim, trimmed, usize_to_string};
use vstd::prelude::*;

verus! {

/// The request could not be read.
pub const PARSE_ERROR: i32 = -32700;

/// The request is not a valid call.
pub const INVALID_REQUEST: i32 = -32600;

/// The method does not exist.
pub const METHOD_NOT_FOUND: i32 = -32601;

/// The parameters do not fit the method.
pub const INVALID_PARAMS: i32 = -32602;

/// The result could not be written.
pub const INTERNAL_ERROR: i32 = -32603;

/// One piece of the result of a tool.
#[derive(Debug)]
pub enum Content {
    Text { text: String },
}

/// The result of a tool: its pieces, and whether it is a failure.
#[derive(Debug)]
pub struct ToolResult {
    pub content: Vec<Content>,
    pub is_error: bool,
}

impl ToolResult {
    /// The text of this result, where it consists of one text.
    pub open spec fn only_text(&self) -> Option<Seq<char>> {
        if self.content@.len() == 1 {
            match self.content@[0] {
                Content::Text { text } => Some(text@),
            }
        } else {
            None
        }
    }

    /// A result that consists of the text and is no failure.
    pub fn success(text: String) -> (r: ToolResult)
        ensures
            r.only_text() == Some(text@),
            !r.is_error,
    {
        let mut content: Vec<Content> = Vec::new();
        content.push(Content::Text { text });
        ToolResult { content, is_error: false }
    }

    /// A result that consists of the text and is a failure.
    pub fn failure(text: String) -> (r: ToolResult)
        ensures
            r.only_text() == Some(text@),
            r.is_error,
    {
        let mut content: Vec<Content> = Vec::new();
        content.push(Content::Text { text });
        ToolResult { content, is_error: true }
    }
}

/// The complaint about an argument that is not there, or not of the sort
/// that is wanted.
pub open spec fn missing(key: Seq<char>) -> Seq<char> {
    "missing '"@ + key + "' parameter"@
}

fn missing_text(key: &str) -> (s: String)
    ensures
        s@ == missing(key@),
{
    glue3("missing '", key, "' parameter")
}

/// The text argument under a key.
pub fn get_str<'a>(args: &'a Json, key: &str) -> (r: Result<&'a str, String>)
    ensures
        match r {
            Ok(s) => text_of(args@.get(key@)) == Some(s@),
            Err(m) => text_of(args@.get(key@)) is None && m@ == missing(key@),
        },
{
    match text(args.get(key)) {
        Some(s) => Ok(s),
        None => Err(missing_text(key)),
    }
}

/// The integer argument under a key.
pub fn get_i64(args: &Json, key: &str) -> (r: Result<i64, String>)
    ensures
        match r {
            Ok(i) => int_of(args@.get(key@)) == Some(i),
            Err(m) => int_of(args@.get(key@)) is None && m@ == missing(key@),
        },
{
    match crate::json::integer(args.get(key)) {
        Some(i) => Ok(i),
        None => Err(missing_text(key)),
    }
}

/// The complaint about an item of an array argument that is not of the
/// sort that is wanted.
pub open spec fn bad_item(key: Seq<char>, index: nat, sort: Seq<char>) -> Seq<char> {
    "'"@ + key + "["@ + decimal(index as int) + "]' is not "@ + sort
}

fn bad_item_text(key: &str, index: usize, sort: &str) -> (s: String)
    ensures
        s@ == bad_item(key@, index as nat, sort@),
{
    let mut s = String::from_str("'");
    s.append(key);
    s.append("[");
    let n = usize_to_string(index);
    s.append(n.as_str());
    s.append("]' is not ");
    s.append(sort);
    s
}

/// The integers of an array; the position of the first item that is no
/// integer where there is one.
pub open spec fn all_ints(items: Seq<JsonView>) -> Result<Seq<i64>, nat>
    decreases items.len(),
{
    if items.len() == 0 {
        Ok(Seq::empty())
    } else {
        match all_ints(items.drop_last()) {
            Err(i) => Err(i),
            Ok(before) => match items.last().as_i64() {
                Some(v) => Ok(before.push(v)),
                None => Err((items.len() - 1) as nat),
            },
        }
    }
}

/// The texts of an array; the position of the first item that is no text
/// where there is one.
pub open spec fn all_texts(items: Seq<JsonView>) -> Result<Seq<Seq<char>>, nat>
    decreases items.len(),
{
    if items.len() == 0 {
        Ok(Seq::empty())
    } else {
        match all_texts(items.drop_last()) {
            Err(i) => Err(i),
            Ok(before) => match items.last().as_str() {
                Some(v) => Ok(before.push(v)),
                None => Err((items.len() - 1) as nat),
            },
        }
    }
}

/// The texts among the items of an array, in their order.
pub open spec fn texts_among(items: Seq<JsonView>) -> Seq<Seq<char>> {
    items.filter_map(|item: JsonView| item.as_str())
}

/// The array of integers under a key: every item must be an integer.
pub fn get_i64_array(args: &Json, key: &str) -> (r: Result<Vec<i64>, String>)
    ensures
        match items_of(args@.get(key@)) {
            None => r matches Err(m) && m@ == missing(key@),
            Some(a) => match all_ints(a) {
                Ok(ints) => r matches Ok(v) && v@ == ints,
                Err(i) => r matches Err(m) && m@ == bad_item(key@, i, "an integer"@),
            },
        },
{
    let raw: &Vec<Json> = match items(args.get(key)) {
        Some(a) => a,
        None => {
            return Err(missing_text(key));
        },
    };
    let ghost all = json_views(raw@);
    let mut out: Vec<i64> = Vec::new();
    let mut i: usize = 0;
    while i < raw.len()
        invariant
            i <= raw.len(),
            all == json_views(raw@),
            items_of(args@.get(key@)) == Some(all),
            all_ints(all.take(i as int)) == Ok::<Seq<i64>, nat>(out@),
        decreases raw.len() - i,
    {
        proof {
            assert(all.take(i + 1).drop_last() =~= all.take(i as int));
        }
        match raw[i].as_i64() {
            Some(v) => {
                out.push(v);
            },
            None => {
                proof {
                    lemma_all_ints_fails_on(all, i as int);
                }
                return Err(bad_item_text(key, i, "an integer"));
            },
        }
        i += 1;
    }
    assert(all.take(raw.len() as int) =~= all);
    Ok(out)
}

proof fn lemma_all_ints_fails_on(items: Seq<JsonView>, i: int)
    requires
        0 <= i < items.len(),
        all_ints(items.take(i)) is Ok,
        items[i].as_i64() is None,
    ensures
        all_ints(items) == Err::<Seq<i64>, nat>(i as nat),
    decreases items.len(),
{
    if i == items.len() - 1 {
    } else {
        assert(items.drop_last().take(i) =~= items.take(i));
        lemma_all_ints_fails_on(items.drop_last(), i);
    }
}

proof fn lemma_all_texts_fails_on(items: Seq<JsonView>, i: int)
    requires
        0 <= i < items.len(),
        all_texts(items.take(i)) is Ok,
        items[i].as_str() is None,
    ensures
        all_texts(items) == Err::<Seq<Seq<char>>, nat>(i as nat),
    decreases items.len(),
{
    if i == items.len() - 1 {
    } else {
        assert(items.drop_last().take(i) =~= items.take(i));
        lemma_all_texts_fails_on(items.drop_last(), i);
    }
}

/// The array of texts under a key: every item must be a text.
pub fn get_str_array(args: &Json, key: &str) -> (r: Result<Vec<String>, String>)
    ensures
        match items_of(args@.get(key@)) {
            None => r matches Err(m) && m@ == missing(key@),
            Some(a) => match all_texts(a) {
                Ok(texts) => r matches Ok(v) && crate::text::views(v@) == texts,
                Err(i) => r matches Err(m) && m@ == bad_item(key@, i, "a string"@),
            },
        },
{
    let raw: &Vec<Json> = match items(args.get(key)) {
        Some(a) => a,
        None => {
            return Err(missing_text(key));
        },
    };
    let ghost all = json_views(raw@);
    let mut out: Vec<String> = Vec::new();
    let mut i: usize = 0;
    assert(crate::text::views(out@) =~= Seq::<Seq<char>>::empty());
    while i < raw.len()
        invariant
            i <= raw.len(),
            all == json_views(raw@),
            items_of(args@.get(key@)) == Some(all),
            all_texts(all.take(i as int)) == Ok::<Seq<Seq<char>>, nat>(crate::text::views(out@)),
        decreases raw.len() - i,
    {
        proof {
            assert(all.take(i + 1).drop_last() =~= all.take(i as int));
        }
        match raw[i].as_str() {
            Some(v) => {
                let ghost before = crate::text::views(out@);
                out.push(String::from_str(v));
                assert(crate::text::views(out@) =~= before.push(v@));
            },
            None => {
                proof {
                    lemma_all_texts_fails_on(all, i as int);
                }
                return Err(bad_item_text(key, i, "a string"));
            },
        }
        i += 1;
    }
    assert(all.take(raw.len() as int) =~= all);
    Ok(out)
}

/// The texts of the array under a key; items that are no texts are passed
/// over, and an argument that is no array gives none.
pub fn get_str_array_opt(args: &Json, key: &str) -> (r: Vec<String>)
    ensures
        crate::text::views(r@) == match items_of(args@.get(key@)) {
            Some(a) => texts_among(a),
            None => Seq::empty(),
        },
{
    let mut out: Vec<String> = Vec::new();
    let raw: &Vec<Json> = match items(args.get(key)) {
        Some(a) => a,
        None => {
            return out;
        },
    };
    let ghost all = json_views(raw@);
    let mut i: usize = 0;
    while i < raw.len()
        invariant
            i <= raw.len(),
            all == json_views(raw@),
            crate::text::views(out@) == texts_among(all.take(i as int)),
        decreases raw.len() - i,
    {
        proof {
            assert(all.take(i + 1).drop_last() =~= all.take(i as int));
        }
        match raw[i].as_str() {
            Some(v) => {
                out.push(String::from_str(v));
                assert(texts_among(all.take(i as int)) + seq![v@] =~= texts_among(
                    all.take(i as int),
                ).push(v@));
            },
            None => {},
        }
        i += 1;
    }
    assert(all.take(raw.len() as int) =~= all);
    out
}

/// The platform that the arguments name.
pub fn parse_platform(args: &Json) -> (r: Result<Platform, String>)
    ensures
        match text_of(args@.get("platform"@)) {
            None => r matches Err(m) && m@ == "missing 'platform' parameter"@,
            Some(name) => match crate::entities::platform_of_lower(lowercase(name)) {
                Some(p) => r == Ok::<Platform, String>(p),
                None => r matches Err(m) && m@ == "unknown platform: "@ + name,
            },
        },
{
    match text(args.get("platform")) {
        Some(name) => Platform::from_name(name),
        None => Err(String::from_str("missing 'platform' parameter")),
    }
}

/// One request or notification of a client.
#[derive(Debug)]
pub struct RpcMessage {
    pub jsonrpc: Option<String>,
    pub id: Option<Json>,
    pub method: Option<String>,
    pub params: Option<Json>,
}

/// `RpcMessage` in terms of texts.
pub struct RpcMessageView {
    pub jsonrpc: Option<Seq<char>>,
    pub id: Option<JsonView>,
    pub method: Option<Seq<char>>,
    pub params: Option<JsonView>,
}

/// The view of an optional document.
pub open spec fn opt_owned_json(o: Option<Json>) -> Option<JsonView> {
    match o {
        Some(j) => Some(j@),
        None => None,
    }
}

impl View for RpcMessage {
    type V = RpcMessageView;

    open spec fn view(&self) -> RpcMessageView {
        RpcMessageView {
            jsonrpc: crate::entities::opt_text(self.jsonrpc),
            id: opt_owned_json(self.id),
            method: crate::entities::opt_text(self.method),
            params: opt_owned_json(self.params),
        }
    }
}

/// A member that is there and not null.
pub open spec fn present(o: Option<JsonView>) -> Option<JsonView> {
    match o {
        Some(JsonView::Null) => None,
        other => other,
    }
}

/// Whether a member can be read as an optional text: it is a text, null,
/// or not there.
pub open spec fn is_optional_text(o: Option<JsonView>) -> bool {
    present(o) is None || text_of(o) is Some
}

/// The message that a document is: an object whose `jsonrpc` and `method`
/// are texts where they are there; members that are null count as not
/// there. `None` for every other document.
pub open spec fn message_of(doc: JsonView) -> Option<RpcMessageView> {
    if doc is Object && is_optional_text(doc.get("jsonrpc"@)) && is_optional_text(
        doc.get("method"@),
    ) {
        Some(
            RpcMessageView {
                jsonrpc: text_of(doc.get("jsonrpc"@)),
                id: present(doc.get("id"@)),
                method: text_of(doc.get("method"@)),
                params: present(doc.get("params"@)),
            },
        )
    } else {
        None
    }
}

fn present_copy(o: Option<&Json>) -> (r: Option<Json>)
    ensures
        opt_owned_json(r) == present(opt_json(o)),
{
    match o {
        Some(Json::Null) => None,
        Some(j) => Some(j.duplicate()),
        None => None,
    }
}

fn optional_text(o: Option<&Json>) -> (r: Result<Option<String>, ()>)
    ensures
        match r {
            Ok(t) => is_optional_text(opt_json(o)) && crate::entities::opt_text(t) == text_of(
                opt_json(o),
            ),
            Err(_) => !is_optional_text(opt_json(o)),
        },
{
    match o {
        None => Ok(None),
        Some(Json::Null) => Ok(None),
        Some(Json::Str(s)) => Ok(Some(s.clone())),
        Some(_) => Err(()),
    }
}

impl RpcMessage {
    /// The message that a document is.
    pub fn from_json(doc: &Json) -> (r: Option<RpcMessage>)
        ensures
            match r {
                Some(m) => message_of(doc@) == Some(m@),
                None => message_of(doc@) is None,
            },
    {
        let is_object: bool = match doc {
            Json::Object(_) => true,
            _ => false,
        };
        if !is_object {
            return None;
        }
        let jsonrpc = match optional_text(doc.get("jsonrpc")) {
            Ok(t) => t,
            Err(_) => {
                return None;
            },
        };
        let method = match optional_text(doc.get("method")) {
            Ok(t) => t,
            Err(_) => {
                return None;
            },
        };
        Some(
            RpcMessage {
                jsonrpc,
                id: present_copy(doc.get("id")),
                method,
                params: present_copy(doc.get("params")),
            },
        )
    }

    /// Whether the message names the version `2.0` of the protocol.
    pub fn is_valid_jsonrpc(&self) -> (r: bool)
        ensures
            r == (self@.jsonrpc == Some("2.0"@)),
    {
        match &self.jsonrpc {
            Some(v) => str_eq(v.as_str(), "2.0"),
            None => false,
        }
    }
}

/// The failure that a response reports.
#[derive(Debug)]
pub struct RpcError {
    pub code: i32,
    pub message: String,
    pub data: Option<Json>,
}

/// A response to a request.
#[derive(Debug)]
pub struct RpcResponse {
    pub jsonrpc: &'static str,
    pub id: Json,
    pub result: Option<Json>,
    pub error: Option<RpcError>,
}

/// `RpcResponse` in terms of texts: the request it answers, and its result
/// or the code and the message of its failure.
pub struct RpcResponseView {
    pub jsonrpc: Seq<char>,
    pub id: JsonView,
    pub outcome: Result<JsonView, (i32, Seq<char>)>,
}

impl RpcResponse {
    /// Whether the response holds a result or a failure, and not both.
    pub open spec fn wf(&self) -> bool {
        (self.result is Some) != (self.error is Some) && (self.error matches Some(e) ==> e.data
            is None)
    }

    /// The view of a response that holds a result or a failure.
    pub open spec fn view(&self) -> RpcResponseView {
        RpcResponseView {
            jsonrpc: self.jsonrpc@,
            id: self.id@,
            outcome: match self.error {
                Some(e) => Err((e.code, e.message@)),
                None => match self.result {
                    Some(r) => Ok(r@),
                    None => Ok(JsonView::Null),
                },
            },
        }
    }

    /// The response with a result.
    pub fn ok(id: Json, result: Json) -> (r: RpcResponse)
        ensures
            r.wf(),
            r.view() == (RpcResponseView { jsonrpc: "2.0"@, id: id@, outcome: Ok(result@) }),
    {
        RpcResponse { jsonrpc: "2.0", id, result: Some(result), error: None }
    }

    /// The response with a failure.
    pub fn err(id: Json, code: i32, msg: &str) -> (r: RpcResponse)
        ensures
            r.wf(),
            r.view() == (RpcResponseView { jsonrpc: "2.0"@, id: id@, outcome: Err((code, msg@)) }),
    {
        RpcResponse {
            jsonrpc: "2.0",
            id,
            result: None,
            error: Some(RpcError { code, message: String::from_str(msg), data: None }),
        }
    }
}

/// What a line of a client asks for.
#[derive(Debug)]
pub enum Request {
    /// Nothing: the line is empty or a notification.
    Ignore,
    /// A response that is known already.
    Reply(RpcResponse),
    /// The description of the server.
    Initialize(Json),
    /// The list of the tools.
    ListTools(Json),
    /// The call of a tool, with its parameters where it has any.
    CallTool(Json, Option<Json>),
}

/// `Request` in terms of texts.
pub enum RequestView {
    Ignore,
    Reply(RpcResponseView),
    Initialize(JsonView),
    ListTools(JsonView),
    CallTool(JsonView, Option<JsonView>),
}

impl Request {
    /// The view of a request.
    pub open spec fn view(&self) -> RequestView {
        match self {
            Request::Ignore => RequestView::Ignore,
            Request::Reply(r) => RequestView::Reply(r.view()),
            Request::Initialize(id) => RequestView::Initialize(id@),
            Request::ListTools(id) => RequestView::ListTools(id@),
            Request::CallTool(id, params) => RequestView::CallTool(id@, opt_owned_json(*params)),
        }
    }
}

/// The response with a failure.
pub open spec fn failure(id: JsonView, code: i32, message: Seq<char>) -> RpcResponseView {
    RpcResponseView { jsonrpc: "2.0"@, id, outcome: Err((code, message)) }
}

/// What a message asks for. A message without an identifier is a
/// notification and gets no answer. A request must name the version `2.0`
/// and a method; `initialize`, `tools/list`, `tools/call` and `ping` are
/// the methods.
pub open spec fn routed(message: RpcMessageView) -> RequestView {
    match message.id {
        None => RequestView::Ignore,
        Some(id) => if message.jsonrpc != Some("2.0"@) {
            RequestView::Reply(
                failure(id, INVALID_REQUEST, "invalid jsonrpc version (expected \"2.0\")"@),
            )
        } else {
            let method = match message.method {
                Some(m) => m,
                None => Seq::empty(),
            };
            if method.len() == 0 {
                RequestView::Reply(failure(id, INVALID_REQUEST, "missing method"@))
            } else if method == "initialize"@ {
                RequestView::Initialize(id)
            } else if method == "tools/list"@ {
                RequestView::ListTools(id)
            } else if method == "tools/call"@ {
                RequestView::CallTool(id, message.params)
            } else if method == "ping"@ {
                RequestView::Reply(
                    RpcResponseView {
                        jsonrpc: "2.0"@,
                        id,
                        outcome: Ok(JsonView::Object(Seq::empty())),
                    },
                )
            } else {
                RequestView::Reply(failure(id, METHOD_NOT_FOUND, "unknown method: "@ + method))
            }
        },
    }
}

/// What a message asks for.
pub fn route(message: RpcMessage) -> (r: Request)
    ensures
        r.view() == routed(message@),
{
    let valid = message.is_valid_jsonrpc();
    let id: Json = match message.id {
        Some(id) => id,
        None => {
            return Request::Ignore;
        },
    };
    if !valid {
        return Request::Reply(
            RpcResponse::err(id, INVALID_REQUEST, "invalid jsonrpc version (expected \"2.0\")"),
        );
    }
    let method: String = match message.method {
        Some(m) => m,
        None => String::new(),
    };
    let m: &str = method.as_str();
    if m.unicode_len() == 0 {
        Request::Reply(RpcResponse::err(id, INVALID_REQUEST, "missing method"))
    } else if str_eq(m, "initialize") {
        Request::Initialize(id)
    } else if str_eq(m, "tools/list") {
        Request::ListTools(id)
    } else if str_eq(m, "tools/call") {
        Request::CallTool(id, message.params)
    } else if str_eq(m, "ping") {
        Request::Reply(RpcResponse::ok(id, Json::object()))
    } else {
        let text = glue("unknown method: ", m);
        Request::Reply(RpcResponse::err(id, METHOD_NOT_FOUND, text.as_str()))
    }
}

/// What a line of a client asks for: nothing where it holds only
/// whitespace; the report of a line that is no message; else what the
/// message asks for.
pub fn route_line(line: &str) -> (r: Request)
    ensures
        trimmed(line@).len() == 0 ==> r.view() == RequestView::Ignore,
        trimmed(line@).len() > 0 ==> match crate::json::parsed(trimmed(line@)) {
            Some(doc) => match message_of(doc) {
                Some(m) => r.view() == routed(m),
                None => r.view() == RequestView::Reply(
                    failure(
                        JsonView::Null,
                        PARSE_ERROR,
                        "parse error: the line is no request"@,
                    ),
                ),
            },
            None => r matches Request::Reply(reply) && reply.wf() && reply.view().id
                == JsonView::Null && (reply.view().outcome matches Err(e) && e.0 == PARSE_ERROR),
        },
{
    let t = trim(line);
    if t.as_str().unicode_len() == 0 {
        return Request::Ignore;
    }
    let doc = match Json::parse(t.as_str()) {
        Ok(d) => d,
        Err(e) => {
            let text = glue("parse error: ", e.detail());
            return Request::Reply(RpcResponse::err(Json::Null, PARSE_ERROR, text.as_str()));
        },
    };
    match RpcMessage::from_json(&doc) {
        Some(m) => route(m),
        None => Request::Reply(
            RpcResponse::err(Json::Null, PARSE_ERROR, "parse error: the line is no request"),
        ),
    }
}

/// What the server says of itself.
pub open spec fn initialize_result(version: Seq<char>) -> JsonView {
    JsonView::Object(Seq::empty()).with("protocolVersion"@, JsonView::Str("2025-11-25"@)).with(
        "capabilities"@,
        JsonView::Object(Seq::empty()).with("tools"@, JsonView::Object(Seq::empty())),
    ).with(
        "serverInfo"@,
        JsonView::Object(Seq::empty()).with("name"@, JsonView::Str("nexus"@)).with(
            "version"@,
            JsonView::Str(version),
        ),
    )
}

/// The response to `initialize`.
pub fn handle_initialize(id: Json, version: &str) -> (r: RpcResponse)
    ensures
        r.wf(),
        r.view() == (RpcResponseView {
            jsonrpc: "2.0"@,
            id: id@,
            outcome: Ok(initialize_result(version@)),
        }),
{
    RpcResponse::ok(
        id,
        Json::object().with("protocolVersion", Json::string("2025-11-25")).with(
            "capabilities",
            Json::object().with("tools", Json::object()),
        ).with(
            "serverInfo",
            Json::object().with("name", Json::string("nexus")).with(
                "version",
                Json::string(version),
            ),
        ),
    )
}

/// The parameters of the call of a tool.
#[derive(Debug)]
pub struct CallToolParams {
    pub name: String,
    pub arguments: Option<Json>,
}

/// The name and the arguments of the call that parameters describe: they
/// must be an object with a text `name`; the arguments are an empty object
/// where there are none.
pub open spec fn call_of(params: Option<JsonView>) -> Option<(Seq<char>, JsonView)> {
    match params {
        Some(p) => if p is Object {
            match text_of(p.get("name"@)) {
                Some(name) => Some(
                    (
                        name,
                        match present(p.get("arguments"@)) {
                            Some(a) => a,
                            None => JsonView::Object(Seq::empty()),
                        },
                    ),
                ),
                None => None,
            }
        } else {
            None
        },
        None => None,
    }
}

/// The name and the arguments of the call that parameters describe, or the
/// response that refuses them.
pub fn parse_call(id: &Json, params: Option<&Json>) -> (r: Result<(String, Json), RpcResponse>)
    ensures
        match r {
            Ok((name, args)) => call_of(opt_json(params)) == Some((name@, args@)),
            Err(reply) => call_of(opt_json(params)) is None && reply.wf() && reply.view()
                == failure(id@, INVALID_PARAMS, "missing or invalid params"@),
        },
{
    let object: Option<&Json> = match params {
        Some(Json::Object(_)) => params,
        _ => None,
    };
    let name: Option<&str> = text(crate::json::field(object, "name"));
    match (object, name) {
        (Some(p), Some(n)) => {
            let args: Json = match present_copy(p.get("arguments")) {
                Some(a) => a,
                None => Json::object(),
            };
            Ok((String::from_str(n), args))
        },
        _ => Err(RpcResponse::err(id.duplicate(), INVALID_PARAMS, "missing or invalid params")),
    }
}

/// The result of a tool as a document.
pub open spec fn tool_result_json(text: Seq<char>, is_error: bool) -> JsonView {
    JsonView::Object(Seq::empty()).with(
        "content"@,
        JsonView::Array(
            seq![
                JsonView::Object(Seq::empty()).with("type"@, JsonView::Str("text"@)).with(
                    "text"@,
                    JsonView::Str(text),
                ),
            ],
        ),
    ).with("isError"@, JsonView::Bool(is_error))
}

/// The response that carries the outcome of a tool: its text as a result
/// that is no failure, or the text of its failure as a result that is one.
pub fn tool_response(id: Json, outcome: Result<String, String>) -> (r: RpcResponse)
    ensures
        r.wf(),
        r.view() == (RpcResponseView {
            jsonrpc: "2.0"@,
            id: id@,
            outcome: Ok(
                match outcome {
                    Ok(text) => tool_result_json(text@, false),
                    Err(text) => tool_result_json(text@, true),
                },
            ),
        }),
{
    let (text, is_error): (String, bool) = match outcome {
        Ok(t) => (t, false),
        Err(t) => (t, true),
    };
    let mut content: Vec<Json> = Vec::new();
    content.push(Json::object().with("type", Json::string("text")).with("text", Json::Str(text)));
    let array = Json::Array(content);
    assert(array@->Array_0 =~= seq![
        JsonView::Object(Seq::empty()).with("type"@, JsonView::Str("text"@)).with(
            "text"@,
            JsonView::Str(text@),
        ),
    ]);
    RpcResponse::ok(
        id,
        Json::object().with("content", array).with("isError", Json::Bool(is_error)),
    )
}

} // verus!
