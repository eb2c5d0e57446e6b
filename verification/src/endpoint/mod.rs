//! Endpoint records and the builder that sets their options.

use vstd::prelude::*;

use crate::auth::{text_view, AuthFlow, Token};
use crate::client::{dispatch_of, Client, Dispatch};
use crate::http::{pair_keys, pairs_view, ApiCall, ApiCallView, BodyView};
use crate::json::{keys_of, JsonValue};
use crate::text::{boolean, boolean_text, decimal, decimal_text};

pub mod album;
pub mod artist;
pub mod audiobook;
pub mod category;
pub mod player;
pub mod playlist;
pub mod search;
pub mod show;
pub mod track;
pub mod user;

verus! {

/// The pair that a parameter which is always sent contributes.
pub open spec fn required(key: Seq<char>, value: Seq<char>) -> Seq<(Seq<char>, Seq<char>)> {
    seq![(key, value)]
}

/// The pair that an optional parameter contributes: none where it is absent.
pub open spec fn optional(key: Seq<char>, value: Option<Seq<char>>) -> Seq<
    (Seq<char>, Seq<char>),
> {
    match value {
        Some(v) => seq![(key, v)],
        None => Seq::empty(),
    }
}

/// An optional number as a query value: in decimal.
pub open spec fn number_text(value: Option<u32>) -> Option<Seq<char>> {
    match value {
        Some(n) => Some(decimal(n as nat)),
        None => None,
    }
}

/// An optional 64-bit number as a query value: in decimal.
pub open spec fn long_text(value: Option<u64>) -> Option<Seq<char>> {
    match value {
        Some(n) => Some(decimal(n as nat)),
        None => None,
    }
}

/// An optional boolean as a query value: `true` or `false`.
pub open spec fn flag_text(value: Option<bool>) -> Option<Seq<char>> {
    match value {
        Some(b) => Some(boolean(b)),
        None => None,
    }
}

/// Whether a call carries the key: in its query, or as a member of its JSON
/// body.
pub open spec fn emits(call: ApiCallView, key: Seq<char>) -> bool {
    pair_keys(call.query).contains(key) || match call.body {
        Some(BodyView::Json(JsonValue::Object(fields))) => keys_of(fields).contains(key),
        _ => false,
    }
}

/// The query of a call while it is put together.
pub struct Query {
    pub pairs: Vec<(String, String)>,
}

impl View for Query {
    type V = Seq<(Seq<char>, Seq<char>)>;

    open spec fn view(&self) -> Seq<(Seq<char>, Seq<char>)> {
        pairs_view(self.pairs@)
    }
}

impl Query {
    pub fn new() -> (query: Query)
        ensures
            query@ == Seq::<(Seq<char>, Seq<char>)>::empty(),
    {
        let query = Query { pairs: Vec::new() };
        assert(query@ =~= Seq::empty());
        query
    }

    /// Adds a parameter that is always sent.
    pub fn text(&mut self, key: &str, value: &str)
        ensures
            final(self)@ == old(self)@ + required(key@, value@),
    {
        self.pairs.push((key.to_owned(), value.to_owned()));
        assert(self@ =~= old(self)@ + required(key@, value@));
    }

    /// Adds a number that is always sent.
    pub fn number(&mut self, key: &str, value: u32)
        ensures
            final(self)@ == old(self)@ + required(key@, decimal(value as nat)),
    {
        self.pairs.push((key.to_owned(), decimal_text(value as u64)));
        assert(self@ =~= old(self)@ + required(key@, decimal(value as nat)));
    }

    /// Adds a boolean that is always sent.
    pub fn flag(&mut self, key: &str, value: bool)
        ensures
            final(self)@ == old(self)@ + required(key@, boolean(value)),
    {
        self.pairs.push((key.to_owned(), boolean_text(value).to_owned()));
        assert(self@ =~= old(self)@ + required(key@, boolean(value)));
    }

    /// Adds an optional 64-bit number where it is present.
    pub fn optional_long(&mut self, key: &str, value: Option<u64>)
        ensures
            final(self)@ == old(self)@ + optional(key@, long_text(value)),
    {
        match value {
            Some(n) => {
                self.pairs.push((key.to_owned(), decimal_text(n)));
            },
            None => {},
        }
        assert(self@ =~= old(self)@ + optional(key@, long_text(value)));
    }

    /// Adds an optional text where it is present.
    pub fn optional_text(&mut self, key: &str, value: &Option<String>)
        ensures
            final(self)@ == old(self)@ + optional(key@, text_view(*value)),
    {
        match value {
            Some(v) => {
                self.pairs.push((key.to_owned(), v.clone()));
            },
            None => {},
        }
        assert(self@ =~= old(self)@ + optional(key@, text_view(*value)));
    }

    /// Adds an optional number where it is present.
    pub fn optional_number(&mut self, key: &str, value: Option<u32>)
        ensures
            final(self)@ == old(self)@ + optional(key@, number_text(value)),
    {
        match value {
            Some(n) => {
                self.pairs.push((key.to_owned(), decimal_text(n as u64)));
            },
            None => {},
        }
        assert(self@ =~= old(self)@ + optional(key@, number_text(value)));
    }

    /// Adds an optional boolean where it is present.
    pub fn optional_flag(&mut self, key: &str, value: Option<bool>)
        ensures
            final(self)@ == old(self)@ + optional(key@, flag_text(value)),
    {
        match value {
            Some(b) => {
                self.pairs.push((key.to_owned(), boolean_text(b).to_owned()));
            },
            None => {},
        }
        assert(self@ =~= old(self)@ + optional(key@, flag_text(value)));
    }
}

/// The record of one endpoint: its mandatory parameters and every option as
/// an absent or present field.
pub trait Endpoint {
    /// The call that the record stands for: the method, the path and the
    /// parameters, each in the query or in the body.
    spec fn describes(&self) -> ApiCallView;

    /// Whether every option is absent.
    spec fn bare(&self) -> bool;

    /// The keys under which the options travel.
    spec fn optional_keys(&self) -> Seq<Seq<char>>;

    fn call(&self) -> (call: ApiCall)
        ensures
            call@ == self.describes(),
    ;

    /// A record without options sends none of the optional keys.
    proof fn lemma_bare_is_silent(&self)
        requires
            self.bare(),
        ensures
            forall|i: int|
                0 <= i < self.optional_keys().len() ==> !emits(
                    self.describes(),
                    #[trigger] self.optional_keys()[i],
                ),
    ;

    /// The path starts with `/`, so that it can be appended to the API base
    /// as it stands.
    proof fn lemma_path_is_rooted(&self)
        ensures
            self.describes().path.len() > 0,
            self.describes().path[0] == '/',
    ;
}

/// For every endpoint record: the URL of its request is the API base with
/// the record's path behind it, and the path starts with `/`.
pub proof fn lemma_every_path_is_rooted<E: Endpoint>(endpoint: E, access_token: Seq<char>)
    ensures
        endpoint.describes().path.len() > 0,
        endpoint.describes().path[0] == '/',
        crate::http::request_for(access_token, endpoint.describes()).url == crate::http::API_BASE@
            + endpoint.describes().path,
{
    endpoint.lemma_path_is_rooted();
}

/// For every endpoint record: with all options absent, no optional key is
/// sent, neither in the query nor in the body.
pub proof fn lemma_defaults_emit_no_optional_keys<E: Endpoint>(endpoint: E, key: Seq<char>)
    requires
        endpoint.bare(),
        endpoint.optional_keys().contains(key),
    ensures
        !emits(endpoint.describes(), key),
{
    endpoint.lemma_bare_is_silent();
}

/// An endpoint record on its way to being sent: it borrows the client for as
/// long as it lives.
pub struct Builder<'s, F: AuthFlow, E: Endpoint> {
    pub spotify: &'s mut Client<Token, F>,
    pub endpoint: E,
}

impl<'s, F: AuthFlow, E: Endpoint> Builder<'s, F, E> {
    /// Runs the pipeline for the finished record at `now`.
    pub fn send(self, now: u64) -> (r: Dispatch)
        ensures
            r@ == dispatch_of(
                old(self.spotify).state()@,
                old(self.spotify).refreshes(),
                now,
                self.endpoint.describes(),
            ),
            *final(self.spotify) == *old(self.spotify),
    {
        let call = self.endpoint.call();
        self.spotify.dispatch(now, call)
    }

    /// Runs the pipeline for the finished record at `now`.
    pub fn get(self, now: u64) -> (r: Dispatch)
        ensures
            r@ == dispatch_of(
                old(self.spotify).state()@,
                old(self.spotify).refreshes(),
                now,
                self.endpoint.describes(),
            ),
            *final(self.spotify) == *old(self.spotify),
    {
        self.send(now)
    }
}

} // verus!
