//! Requests to the REST endpoints, and the errors of operations that cannot be carried out.

use vstd::prelude::*;
use vstd::string::*;

use crate::codec::{percent_encode, url_encoded};
use crate::json::{Json, JsonView};

verus! {

/// Why an operation cannot be carried out.
#[derive(Debug)]
pub struct Error {
    pub message: String,
}

impl View for Error {
    type V = Seq<char>;

    open spec fn view(&self) -> Seq<char> {
        self.message@
    }
}

impl Error {
    /// The error with that message.
    pub fn new(message: &str) -> (r: Error)
        ensures
            r@ == message@,
    {
        Error { message: message.to_owned() }
    }

    /// The message.
    pub fn to_text(&self) -> (r: &str)
        ensures
            r@ == self@,
    {
        self.message.as_str()
    }
}

/// A text that grows at its end.
pub struct Draft {
    pub text: String,
}

impl View for Draft {
    type V = Seq<char>;

    open spec fn view(&self) -> Seq<char> {
        self.text@
    }
}

impl Draft {
    pub fn new(start: &str) -> (r: Draft)
        ensures
            r@ == start@,
    {
        Draft { text: start.to_owned() }
    }

    /// The text with `s` behind it.
    pub fn lit(self, s: &str) -> (r: Draft)
        ensures
            r@ == self@ + s@,
    {
        Draft { text: self.text.concat(s) }
    }

    /// The text with `s` in percent-encoded form behind it.
    pub fn enc(self, s: &str) -> (r: Draft)
        ensures
            r@ == self@ + url_encoded(s@),
    {
        self.lit(percent_encode(s).as_str())
    }

    /// The error with this text as its message.
    pub fn error(self) -> (r: Error)
        ensures
            r@ == self@,
    {
        Error { message: self.text }
    }
}

/// The method of a request.
#[derive(Clone, Copy, Debug, PartialEq, Eq, Structural)]
pub enum Method {
    Get,
    Post,
    Put,
    Patch,
    Delete,
}

/// The body of a request.
#[derive(Debug)]
pub enum Body {
    Empty,
    Json(Json),
    Bytes(Vec<u8>),
}

/// A request, without its credentials.
#[derive(Debug)]
pub struct Request {
    pub method: Method,
    pub url: String,
    /// Parameters that are still to be appended to the URL, in encoded form.
    pub query: Vec<(String, String)>,
    pub headers: Vec<(String, String)>,
    pub body: Body,
}

pub enum BodyView {
    Empty,
    Json(JsonView),
    Bytes(Seq<u8>),
}

#[verifier::ext_equal]
pub struct RequestView {
    pub method: Method,
    pub url: Seq<char>,
    pub query: Seq<(Seq<char>, Seq<char>)>,
    pub headers: Seq<(Seq<char>, Seq<char>)>,
    pub body: BodyView,
}

/// The texts that a sequence of pairs of strings holds.
pub open spec fn pairs_view(pairs: Seq<(String, String)>) -> Seq<(Seq<char>, Seq<char>)> {
    pairs.map_values(|p: (String, String)| (p.0@, p.1@))
}

impl View for Body {
    type V = BodyView;

    open spec fn view(&self) -> BodyView {
        match *self {
            Body::Empty => BodyView::Empty,
            Body::Json(j) => BodyView::Json(j@),
            Body::Bytes(b) => BodyView::Bytes(b@),
        }
    }
}

impl View for Request {
    type V = RequestView;

    open spec fn view(&self) -> RequestView {
        RequestView {
            method: self.method,
            url: self.url@,
            query: pairs_view(self.query@),
            headers: pairs_view(self.headers@),
            body: self.body@,
        }
    }
}

/// The request with that method and URL and nothing else.
pub open spec fn bare(method: Method, url: Seq<char>) -> RequestView {
    RequestView {
        method,
        url,
        query: Seq::empty(),
        headers: Seq::empty(),
        body: BodyView::Empty,
    }
}

impl RequestView {
    pub open spec fn json(self, body: JsonView) -> RequestView {
        RequestView { body: BodyView::Json(body), ..self }
    }

    pub open spec fn bytes(self, body: Seq<u8>) -> RequestView {
        RequestView { body: BodyView::Bytes(body), ..self }
    }

    pub open spec fn header(self, name: Seq<char>, value: Seq<char>) -> RequestView {
        RequestView { headers: self.headers.push((name, value)), ..self }
    }

    pub open spec fn param(self, name: Seq<char>, value: Seq<char>) -> RequestView {
        RequestView { query: self.query.push((name, value)), ..self }
    }
}

impl Request {
    /// The request with that method and URL and nothing else.
    pub fn new(method: Method, url: Draft) -> (r: Request)
        ensures
            r@ == bare(method, url@),
    {
        let r = Request {
            method,
            url: url.text,
            query: Vec::new(),
            headers: Vec::new(),
            body: Body::Empty,
        };
        assert(r@ =~= bare(method, url@));
        r
    }

    /// The request with that JSON body.
    pub fn json(self, body: Json) -> (r: Request)
        ensures
            r@ == self@.json(body@),
    {
        Request {
            method: self.method,
            url: self.url,
            query: self.query,
            headers: self.headers,
            body: Body::Json(body),
        }
    }

    /// The request with those bytes as its body.
    pub fn bytes(self, body: Vec<u8>) -> (r: Request)
        ensures
            r@ == self@.bytes(body@),
    {
        Request {
            method: self.method,
            url: self.url,
            query: self.query,
            headers: self.headers,
            body: Body::Bytes(body),
        }
    }

    /// The request with one more header.
    pub fn header(self, name: &str, value: &str) -> (r: Request)
        ensures
            r@ == self@.header(name@, value@),
    {
        let mut headers: Vec<(String, String)> = self.headers;
        let ghost before = pairs_view(headers@);
        headers.push((name.to_owned(), value.to_owned()));
        assert(pairs_view(headers@) =~= before.push((name@, value@)));
        Request { method: self.method, url: self.url, query: self.query, headers, body: self.body }
    }

    /// The request with one more query parameter.
    pub fn param(self, name: &str, value: &str) -> (r: Request)
        ensures
            r@ == self@.param(name@, value@),
    {
        let mut query: Vec<(String, String)> = self.query;
        let ghost before = pairs_view(query@);
        query.push((name.to_owned(), value.to_owned()));
        assert(pairs_view(query@) =~= before.push((name@, value@)));
        Request { method: self.method, url: self.url, query, headers: self.headers, body: self.body }
    }
}

/// What the result of an operation denotes: a JSON value or a message.
pub open spec fn outcome(r: Result<Json, Error>) -> Result<JsonView, Seq<char>> {
    match r {
        Ok(j) => Ok(j@),
        Err(e) => Err(e@),
    }
}

/// What a prepared request denotes, or the message of the error.
pub open spec fn prepared(r: Result<Request, Error>) -> Result<RequestView, Seq<char>> {
    match r {
        Ok(q) => Ok(q@),
        Err(e) => Err(e@),
    }
}

} // verus!
