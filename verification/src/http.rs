//! Requests as plain data: what an endpoint asks for, and what goes on the wire.

use vstd::prelude::*;

use crate::json::{field, text_array, Fields, Json, JsonValue};
use crate::text::texts;

verus! {

/// The base that every endpoint path is appended to.
pub const API_BASE: &'static str = "https://api.spotify.com/v1";

/// The HTTP methods that the endpoints use.
#[derive(Clone, Copy, Debug, PartialEq, Eq, Structural)]
pub enum Method {
    Get,
    Post,
    Put,
    Delete,
}

impl Method {
    /// The method's name on the wire.
    pub open spec fn name(&self) -> Seq<char> {
        match self {
            Method::Get => "GET"@,
            Method::Post => "POST"@,
            Method::Put => "PUT"@,
            Method::Delete => "DELETE"@,
        }
    }

    /// The method's name on the wire.
    pub fn as_str(&self) -> (r: &'static str)
        ensures
            r@ == self.name(),
    {
        match self {
            Method::Get => "GET",
            Method::Post => "POST",
            Method::Put => "PUT",
            Method::Delete => "DELETE",
        }
    }
}

/// The lists that upstream wraps in an object of one member.
#[derive(Clone, Copy, Debug, PartialEq, Eq, Structural)]
pub enum Listing {
    Artists,
    Genres,
    Markets,
    AudioFeatures,
    Devices,
}

impl Listing {
    /// The name of the member that holds the list.
    pub open spec fn name(&self) -> Seq<char> {
        match self {
            Listing::Artists => "artists"@,
            Listing::Genres => "genres"@,
            Listing::Markets => "markets"@,
            Listing::AudioFeatures => "audio_features"@,
            Listing::Devices => "devices"@,
        }
    }

    /// The name of the member that holds the list.
    pub fn as_str(&self) -> (r: &'static str)
        ensures
            r@ == self.name(),
    {
        match self {
            Listing::Artists => "artists",
            Listing::Genres => "genres",
            Listing::Markets => "markets",
            Listing::AudioFeatures => "audio_features",
            Listing::Devices => "devices",
        }
    }
}

/// What an endpoint answers with on success.
#[derive(Clone, Copy, Debug, PartialEq, Eq, Structural)]
pub enum Answer {
    /// A JSON document, for the caller to decode as the endpoint's result.
    Document,
    /// A JSON document that wraps the endpoint's result: the result is the
    /// member that the listing names.
    Member(Listing),
    /// No content: the result is [`crate::response::Nil`].
    Nothing,
}

/// What a request carries as its body.
#[derive(Debug, PartialEq, Eq)]
pub enum Body {
    /// A document, sent as `application/json`.
    Json(Json),
    /// Raw bytes, sent with the content type the endpoint names.
    File { content_type: String, bytes: Vec<u8> },
}

/// The mathematical value of a [`Body`].
pub enum BodyView {
    Json(JsonValue),
    File { content_type: Seq<char>, bytes: Seq<u8> },
}

impl View for Body {
    type V = BodyView;

    open spec fn view(&self) -> BodyView {
        match self {
            Body::Json(document) => BodyView::Json(document@),
            Body::File { content_type, bytes } => BodyView::File {
                content_type: content_type@,
                bytes: bytes@,
            },
        }
    }
}

/// The view of an optional body.
pub open spec fn body_view(body: Option<Body>) -> Option<BodyView> {
    match body {
        Some(b) => Some(b@),
        None => None,
    }
}

/// Key and value pairs as character sequences.
pub open spec fn pairs_view(pairs: Seq<(String, String)>) -> Seq<(Seq<char>, Seq<char>)> {
    Seq::new(pairs.len(), |i: int| (pairs[i].0@, pairs[i].1@))
}

/// The keys of a list of pairs, in order.
pub open spec fn pair_keys(pairs: Seq<(Seq<char>, Seq<char>)>) -> Seq<Seq<char>> {
    Seq::new(pairs.len(), |i: int| pairs[i].0)
}

/// The view of an optional query: an absent one is the empty list.
pub open spec fn query_view(query: Option<Vec<(String, String)>>) -> Seq<(Seq<char>, Seq<char>)> {
    match query {
        Some(pairs) => pairs_view(pairs@),
        None => Seq::empty(),
    }
}

/// What an endpoint asks for: a method, a path below the API base that starts
/// with `/`, query pairs and an optional body; and what it answers with.
#[derive(Debug, PartialEq, Eq)]
pub struct ApiCall {
    pub method: Method,
    pub path: String,
    pub query: Vec<(String, String)>,
    pub body: Option<Body>,
    pub answer: Answer,
}

/// The mathematical value of an [`ApiCall`].
pub struct ApiCallView {
    pub method: Method,
    pub path: Seq<char>,
    pub query: Seq<(Seq<char>, Seq<char>)>,
    pub body: Option<BodyView>,
    pub answer: Answer,
}

impl View for ApiCall {
    type V = ApiCallView;

    open spec fn view(&self) -> ApiCallView {
        ApiCallView {
            method: self.method,
            path: self.path@,
            query: pairs_view(self.query@),
            body: body_view(self.body),
            answer: self.answer,
        }
    }
}

/// A request as it goes on the wire.
#[derive(Debug, PartialEq, Eq)]
pub struct HttpRequest {
    pub method: Method,
    /// The API base and the path, as they stand.
    pub url: String,
    /// Header names and values, in the order in which they are to be set.
    pub headers: Vec<(String, String)>,
    /// Keys and values as they were given: whoever sends the request
    /// URL-encodes them and appends them to the URL, each key once.
    pub query: Vec<(String, String)>,
    pub body: Option<Body>,
    /// What the answer is to be lifted as: see [`crate::response::Response::lift`].
    pub answer: Answer,
}

/// The mathematical value of an [`HttpRequest`].
pub struct HttpRequestView {
    pub method: Method,
    pub url: Seq<char>,
    pub headers: Seq<(Seq<char>, Seq<char>)>,
    pub query: Seq<(Seq<char>, Seq<char>)>,
    pub body: Option<BodyView>,
    pub answer: Answer,
}

impl View for HttpRequest {
    type V = HttpRequestView;

    open spec fn view(&self) -> HttpRequestView {
        HttpRequestView {
            method: self.method,
            url: self.url@,
            headers: pairs_view(self.headers@),
            query: pairs_view(self.query@),
            body: body_view(self.body),
            answer: self.answer,
        }
    }
}

/// The header that says what the body is. A request without a body says so
/// with `Content-Length: 0`: one upstream endpoint answers with an HTML error
/// page when that header is missing.
pub open spec fn body_header(body: Option<BodyView>) -> (Seq<char>, Seq<char>) {
    match body {
        None => ("Content-Length"@, "0"@),
        Some(BodyView::Json(_)) => ("Content-Type"@, "application/json"@),
        Some(BodyView::File { content_type, .. }) => ("Content-Type"@, content_type),
    }
}

/// The headers of a request: the bearer token, then the body's header.
pub open spec fn headers_for(access_token: Seq<char>, body: Option<BodyView>) -> Seq<
    (Seq<char>, Seq<char>),
> {
    seq![("Authorization"@, "Bearer "@ + access_token), body_header(body)]
}

/// The request that carries `call` with `access_token` as its bearer.
pub open spec fn request_for(access_token: Seq<char>, call: ApiCallView) -> HttpRequestView {
    HttpRequestView {
        method: call.method,
        url: API_BASE@ + call.path,
        headers: headers_for(access_token, call.body),
        query: call.query,
        body: call.body,
        answer: call.answer,
    }
}

/// The body `{ name: [items] }`: a list under one key, as a JSON array.
pub open spec fn list_body(name: Seq<char>, items: Seq<Seq<char>>) -> BodyView {
    BodyView::Json(JsonValue::Object(field(name, text_array(items))))
}

/// A list as a JSON body: the array of its items under the key `name`.
pub fn body_list(name: &str, list: &[&str]) -> (body: Body)
    ensures
        body@ == list_body(name@, texts(list@)),
{
    let mut members = Fields::new();
    members.put(name, Json::text_list(list));
    assert(members@ =~= field(name@, text_array(texts(list@))));
    Body::Json(members.into_object())
}

/// A call without a body goes out with `Content-Length: 0`, whatever its
/// method, and with nothing else in place of the body.
pub proof fn lemma_absent_body_sends_zero_length(access_token: Seq<char>, call: ApiCallView)
    requires
        call.body is None,
    ensures
        request_for(access_token, call).headers.contains(("Content-Length"@, "0"@)),
        request_for(access_token, call).headers.len() == 2,
        request_for(access_token, call).body is None,
{
    assert(request_for(access_token, call).headers[1] == ("Content-Length"@, "0"@));
}

/// Every request bears the access token, and goes to the path below the API
/// base.
pub proof fn lemma_request_bears_token(access_token: Seq<char>, call: ApiCallView)
    ensures
        request_for(access_token, call).headers[0] == ("Authorization"@, "Bearer "@ + access_token),
        request_for(access_token, call).url == API_BASE@ + call.path,
        request_for(access_token, call).method == call.method,
        request_for(access_token, call).query == call.query,
        request_for(access_token, call).body == call.body,
        request_for(access_token, call).answer == call.answer,
{
}

impl ApiCall {
    /// Puts the call on the wire below the API base, with `access_token` as
    /// its bearer.
    pub fn into_request(self, access_token: &str) -> (request: HttpRequest)
        ensures
            request@ == request_for(access_token@, self@),
    {
        let url = crate::text::concat2(API_BASE, self.path.as_str());
        let bearer = crate::text::concat2("Bearer ", access_token);
        let described = match &self.body {
            None => ("Content-Length".to_owned(), "0".to_owned()),
            Some(Body::Json(_)) => ("Content-Type".to_owned(), "application/json".to_owned()),
            Some(Body::File { content_type, .. }) => (
                "Content-Type".to_owned(),
                content_type.clone(),
            ),
        };
        let mut headers: Vec<(String, String)> = Vec::new();
        headers.push(("Authorization".to_owned(), bearer));
        headers.push(described);
        assert(pairs_view(headers@) =~= headers_for(access_token@, body_view(self.body)));
        HttpRequest {
            method: self.method,
            url,
            headers,
            query: self.query,
            body: self.body,
            answer: self.answer,
        }
    }
}

} // verus!
