//! What the adapters of the web backends ask of the transport: one call
//! after another, each described in full before it is made.

use crate::json::{Json, JsonView};
use vstd::prelude::*;

verus! {

/// The methods of the calls.
#[derive(Debug, Clone, Copy, PartialEq, Eq, Structural)]
pub enum Method {
    Get,
    Post,
    Put,
    Delete,
}

/// One call: where it goes, what it asks, what it carries.
#[derive(Debug)]
pub struct HttpCall {
    pub method: Method,
    pub url: String,
    /// The parameters of the query, in their order.
    pub query: Vec<(String, String)>,
    /// The JSON body, where the call has one.
    pub body: Option<Json>,
}

/// `HttpCall` in terms of texts.
pub struct HttpCallView {
    pub method: Method,
    pub url: Seq<char>,
    pub query: Seq<(Seq<char>, Seq<char>)>,
    pub body: Option<JsonView>,
}

/// The views of the parameters of a query.
pub open spec fn query_view(q: Seq<(String, String)>) -> Seq<(Seq<char>, Seq<char>)> {
    Seq::new(q.len(), |i: int| (q[i].0@, q[i].1@))
}

impl View for HttpCall {
    type V = HttpCallView;

    open spec fn view(&self) -> HttpCallView {
        HttpCallView {
            method: self.method,
            url: self.url@,
            query: query_view(self.query@),
            body: match self.body {
                Some(b) => Some(b@),
                None => None,
            },
        }
    }
}

/// Whether a status tells of success: 200 to 299.
pub open spec fn success(status: u16) -> bool {
    200 <= status < 300
}

/// Whether a status tells of success.
pub fn is_success(status: u16) -> (r: bool)
    ensures
        r == success(status),
{
    status >= 200 && status < 300
}

/// Whether a status tells that the credentials were refused: 401 or 403.
pub open spec fn refused(status: u16) -> bool {
    status == 401 || status == 403
}

/// A call without query and body.
pub fn plain_call(method: Method, url: String) -> (c: HttpCall)
    ensures
        c@ == (HttpCallView { method, url: url@, query: Seq::empty(), body: None }),
{
    let c = HttpCall { method, url, query: Vec::new(), body: None };
    assert(query_view(c.query@) =~= Seq::empty());
    c
}

/// A call with a JSON body.
pub fn json_call(method: Method, url: String, body: Json) -> (c: HttpCall)
    ensures
        c@ == (HttpCallView { method, url: url@, query: Seq::empty(), body: Some(body@) }),
{
    let c = HttpCall { method, url, query: Vec::new(), body: Some(body) };
    assert(query_view(c.query@) =~= Seq::empty());
    c
}

} // verus!
