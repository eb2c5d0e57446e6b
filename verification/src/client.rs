//! The client: its two states, the steps between them, and the request
//! pipeline. The client decides; whoever holds it performs what it decided
//! and hands back what came of it.

use vstd::prelude::*;

use crate::auth::{
    text_view, AuthCodeGrantFlow, AuthCodeGrantPKCEFlow, AuthFlow, AuthenticationState,
    Authorisation, AuthorisationPKCE, ClientCredsGrantFlow, RedirectUri, Token, TokenGrant,
    TokenGrantView, TokenView, UnAuthenticated, AUTHORIZE_URL,
};
use crate::endpoint::{Builder, Endpoint};
use crate::error::{Error, ErrorView};
use crate::http::{
    body_view, pairs_view, query_view, request_for, Answer, ApiCall, ApiCallView, Body,
    HttpRequest, HttpRequestView, Method,
};
use crate::oauth::{
    authorize_url, authorize_url_pkce, authorize_url_pkce_text, authorize_url_text,
    parses_as_url, random_state, random_verifier, s256_challenge, verifier_fits,
};
use crate::text::{join_with, owned_list, owned_texts, same_text, space_joined, texts};

verus! {

/// One exchange with the token endpoint, for the holder of the client to
/// perform.
#[derive(Clone, Debug, PartialEq, Eq)]
pub enum Exchange {
    /// An authorization code for a token; with the verifier where the flow
    /// uses PKCE.
    Code { code: String, verifier: Option<String> },
    /// The client's own credentials for a token.
    ClientCredentials { scopes: Vec<String> },
    /// A refresh token for a new token; the scopes are passed on as a hint.
    Refresh { refresh_token: String, scopes: Vec<String> },
}

/// The mathematical value of an [`Exchange`].
pub enum ExchangeView {
    Code { code: Seq<char>, verifier: Option<Seq<char>> },
    ClientCredentials { scopes: Seq<Seq<char>> },
    Refresh { refresh_token: Seq<char>, scopes: Seq<Seq<char>> },
}

impl View for Exchange {
    type V = ExchangeView;

    open spec fn view(&self) -> ExchangeView {
        match self {
            Exchange::Code { code, verifier } => ExchangeView::Code {
                code: code@,
                verifier: text_view(*verifier),
            },
            Exchange::ClientCredentials { scopes } => ExchangeView::ClientCredentials {
                scopes: owned_texts(scopes@),
            },
            Exchange::Refresh { refresh_token, scopes } => ExchangeView::Refresh {
                refresh_token: refresh_token@,
                scopes: owned_texts(scopes@),
            },
        }
    }
}

impl Exchange {
    /// The grant type that the exchange presents to the token endpoint.
    pub open spec fn grant(&self) -> Seq<char> {
        match self {
            Exchange::Code { .. } => "authorization_code"@,
            Exchange::ClientCredentials { .. } => "client_credentials"@,
            Exchange::Refresh { .. } => "refresh_token"@,
        }
    }

    /// The grant type that the exchange presents to the token endpoint.
    pub fn grant_type(&self) -> (r: &'static str)
        ensures
            r@ == self.grant(),
    {
        match self {
            Exchange::Code { .. } => "authorization_code",
            Exchange::ClientCredentials { .. } => "client_credentials",
            Exchange::Refresh { .. } => "refresh_token",
        }
    }
}

/// What the pipeline decided for one call.
#[derive(Debug, PartialEq, Eq)]
pub enum Dispatch {
    /// The token is live: send this request.
    Send(HttpRequest),
    /// The token has expired and the client refreshes on its own: perform the
    /// exchange, then hand its outcome and the call to [`Client::resume`].
    Refresh { exchange: Exchange, call: ApiCall },
    /// Nothing is to be sent.
    Fail(Error),
}

/// The mathematical value of a [`Dispatch`].
pub enum DispatchView {
    Send(HttpRequestView),
    Refresh { exchange: ExchangeView, call: ApiCallView },
    Fail(ErrorView),
}

impl View for Dispatch {
    type V = DispatchView;

    open spec fn view(&self) -> DispatchView {
        match self {
            Dispatch::Send(request) => DispatchView::Send(request@),
            Dispatch::Refresh { exchange, call } => DispatchView::Refresh {
                exchange: exchange@,
                call: call@,
            },
            Dispatch::Fail(error) => DispatchView::Fail(error@),
        }
    }
}

/// What the pipeline decides for `call` at `now`, for a client that holds
/// `token`: a live token sends the call with the token as bearer; an expired
/// one is refreshed where the client refreshes on its own and holds a refresh
/// token, and fails the call where it does not.
pub open spec fn dispatch_of(token: TokenView, auto_refresh: bool, now: u64, call: ApiCallView)
    -> DispatchView {
    if now >= token.expires_at {
        if auto_refresh {
            match token.refresh_token {
                Some(refresh_token) => DispatchView::Refresh {
                    exchange: ExchangeView::Refresh { refresh_token, scopes: Seq::empty() },
                    call,
                },
                None => DispatchView::Fail(ErrorView::RefreshUnavailable),
            }
        } else {
            DispatchView::Fail(ErrorView::ExpiredToken)
        }
    } else {
        DispatchView::Send(request_for(token.access_token, call))
    }
}

/// The token that the first exchange of a client gives: the stamped grant.
/// A client that is resumed from a refresh token keeps that token where
/// upstream sent no new one; a client that acts for itself holds no refresh
/// token, whatever upstream sent.
pub open spec fn first_token(exchange: ExchangeView, grant: TokenGrantView, now: u64)
    -> TokenView {
    let stamped = crate::auth::issued(grant, now);
    match exchange {
        ExchangeView::Code { .. } => stamped,
        ExchangeView::ClientCredentials { .. } => TokenView { refresh_token: None, ..stamped },
        ExchangeView::Refresh { refresh_token, .. } => match grant.refresh_token {
            Some(_) => stamped,
            None => TokenView { refresh_token: Some(refresh_token), ..stamped },
        },
    }
}

/// With an expired token nothing is sent: the call fails, or a refresh comes
/// first. A client that does not refresh on its own fails with
/// `ExpiredToken`; one that does asks for the refresh where it holds a refresh
/// token and fails with `RefreshUnavailable` where it holds none.
pub proof fn lemma_expired_token_sends_nothing(
    token: TokenView,
    auto_refresh: bool,
    now: u64,
    call: ApiCallView,
)
    requires
        now >= token.expires_at,
    ensures
        !(dispatch_of(token, auto_refresh, now, call) is Send),
        !auto_refresh ==> dispatch_of(token, auto_refresh, now, call) == DispatchView::Fail(
            ErrorView::ExpiredToken,
        ),
        auto_refresh && token.refresh_token is None ==> dispatch_of(
            token,
            auto_refresh,
            now,
            call,
        ) == DispatchView::Fail(ErrorView::RefreshUnavailable),
        auto_refresh && token.refresh_token is Some ==> dispatch_of(token, auto_refresh, now, call)
            is Refresh,
{
}

/// With a live token the call is sent as it is, with the token as bearer.
pub proof fn lemma_live_token_sends(
    token: TokenView,
    auto_refresh: bool,
    now: u64,
    call: ApiCallView,
)
    requires
        now < token.expires_at,
    ensures
        dispatch_of(token, auto_refresh, now, call) == DispatchView::Send(
            request_for(token.access_token, call),
        ),
{
}

/// A client that is resumed from a refresh token holds that token unless
/// upstream sent a new one, and then it holds the new one. A code exchange
/// holds what upstream sent, and a client that acts for itself holds none.
pub proof fn lemma_resumed_client_refresh_token(
    exchange: ExchangeView,
    grant: TokenGrantView,
    now: u64,
)
    ensures
        exchange matches ExchangeView::Refresh { refresh_token, .. } ==> first_token(
            exchange,
            grant,
            now,
        ).refresh_token == match grant.refresh_token {
            Some(fresh) => Some(fresh),
            None => Some(refresh_token),
        },
        exchange is Code ==> first_token(exchange, grant, now).refresh_token
            == grant.refresh_token,
        exchange is ClientCredentials ==> first_token(exchange, grant, now).refresh_token
            is None,
        first_token(exchange, grant, now).access_token == grant.access_token,
        first_token(exchange, grant, now).issued_at == now,
{
}

/// A handle on the API, in the state `A` and for the flow `F`.
pub struct Client<A: AuthenticationState, F: AuthFlow> {
    /// Whether the client asks for a refresh by itself when a call finds the
    /// token expired.
    pub auto_refresh: bool,
    pub(crate) auth: A,
    pub(crate) flow: F,
    pub(crate) redirect_uri: RedirectUri,
}

impl<A: AuthenticationState, F: AuthFlow> Client<A, F> {
    /// Whether the client refreshes on its own.
    pub closed spec fn refreshes(&self) -> bool {
        self.auto_refresh
    }

    /// What the client holds for its state: nothing, or the token.
    pub closed spec fn state(&self) -> A {
        self.auth
    }

    /// The flow that the client was made for.
    pub closed spec fn grant_flow(&self) -> F {
        self.flow
    }

    /// The redirect URI that the client was made with.
    pub closed spec fn redirect(&self) -> Seq<char> {
        self.redirect_uri@
    }

    /// Sets whether the client refreshes on its own. Nothing else changes.
    pub fn set_auto_refresh(&mut self, auto_refresh: bool)
        ensures
            final(self).refreshes() == auto_refresh,
            final(self).state() == old(self).state(),
            final(self).grant_flow() == old(self).grant_flow(),
            final(self).redirect() == old(self).redirect(),
    {
        self.auto_refresh = auto_refresh;
    }

    /// Whether the client refreshes on its own.
    pub fn auto_refreshes(&self) -> (r: bool)
        ensures
            r == self.refreshes(),
    {
        self.auto_refresh
    }

    /// The flow that the client was made for.
    pub fn flow(&self) -> (r: &F)
        ensures
            *r == self.grant_flow(),
    {
        &self.flow
    }

    /// The redirect URI that the client was made with; it is a URL.
    pub fn redirect_uri(&self) -> (r: &str)
        ensures
            r@ == self.redirect(),
            parses_as_url(self.redirect()),
    {
        self.redirect_uri.as_str()
    }
}

/// A client whose first token exchange is under way.
pub struct Pending<F: AuthFlow> {
    pub(crate) client: Client<UnAuthenticated, F>,
    pub(crate) exchange: Exchange,
}

impl<F: AuthFlow> Pending<F> {
    /// The client that waits for its token.
    pub closed spec fn waiting(&self) -> Client<UnAuthenticated, F> {
        self.client
    }

    /// The exchange to perform.
    pub closed spec fn asked(&self) -> ExchangeView {
        self.exchange@
    }

    /// The exchange to perform.
    pub fn exchange(&self) -> (r: &Exchange)
        ensures
            r@ == self.asked(),
    {
        &self.exchange
    }

    /// The client that waits for its token.
    pub fn client(&self) -> (r: &Client<UnAuthenticated, F>)
        ensures
            *r == self.waiting(),
    {
        &self.client
    }

    /// Ends the exchange with what came of it at `now`. A grant makes the
    /// authenticated client, with the same flow, redirect URI and refresh
    /// policy; a failure is handed on as it is.
    pub fn complete(self, outcome: Result<TokenGrant, Error>, now: u64) -> (r: Result<
        Client<Token, F>,
        Error,
    >)
        requires
            outcome matches Ok(grant) ==> now + grant.expires_in <= u64::MAX,
        ensures
            match outcome {
                Ok(grant) => r matches Ok(client) && client.state()@ == first_token(
                    self.asked(),
                    grant@,
                    now,
                ) && client.refreshes() == self.waiting().refreshes() && client.grant_flow()
                    == self.waiting().grant_flow() && client.redirect()
                    == self.waiting().redirect(),
                Err(error) => r == Err::<Client<Token, F>, Error>(error),
            },
    {
        match outcome {
            Ok(grant) => {
                let refresh_token = match &self.exchange {
                    Exchange::Code { .. } => grant.refresh_token,
                    Exchange::ClientCredentials { .. } => None,
                    Exchange::Refresh { refresh_token, .. } => match grant.refresh_token {
                        Some(fresh) => Some(fresh),
                        None => Some(refresh_token.clone()),
                    },
                };
                let grant = TokenGrant {
                    access_token: grant.access_token,
                    token_type: grant.token_type,
                    refresh_token,
                    expires_in: grant.expires_in,
                    scopes: grant.scopes,
                };
                Ok(
                    Client {
                        auto_refresh: self.client.auto_refresh,
                        auth: Token::issue(grant, now),
                        flow: self.client.flow,
                        redirect_uri: self.client.redirect_uri,
                    },
                )
            },
            Err(error) => Err(error),
        }
    }
}

impl<F: AuthFlow> Client<UnAuthenticated, F> {
    /// A client that holds no token yet.
    pub fn new(auth_flow: F, redirect_uri: RedirectUri, auto_refresh: bool) -> (client: Client<
        UnAuthenticated,
        F,
    >)
        ensures
            client.grant_flow() == auth_flow,
            client.redirect() == redirect_uri@,
            client.refreshes() == auto_refresh,
    {
        Client { auto_refresh, auth: UnAuthenticated, flow: auth_flow, redirect_uri }
    }
}

/// The URL that a handle of the code grant carries, for a client with this
/// id and redirect URI: the one that the `oauth2` crate builds from them, the
/// scopes joined by spaces, and the state.
pub open spec fn code_url(
    client_id: Seq<char>,
    redirect_uri: Seq<char>,
    scopes: Seq<Seq<char>>,
    state: Seq<char>,
) -> Seq<char> {
    authorize_url_text(AUTHORIZE_URL@, client_id, redirect_uri, space_joined(scopes), state)
}

/// The URL that a handle of the code grant with PKCE carries: as
/// [`code_url`], with the S256 challenge of the verifier.
pub open spec fn pkce_url(
    client_id: Seq<char>,
    redirect_uri: Seq<char>,
    scopes: Seq<Seq<char>>,
    state: Seq<char>,
    verifier: Seq<char>,
) -> Seq<char> {
    authorize_url_pkce_text(
        AUTHORIZE_URL@,
        client_id,
        redirect_uri,
        space_joined(scopes),
        state,
        s256_challenge(verifier),
    )
}

impl Client<UnAuthenticated, AuthCodeGrantPKCEFlow> {
    fn handle_for(&self, scopes: &[&str], state: String, verifier: String) -> (handle:
        AuthorisationPKCE)
        requires
            verifier_fits(verifier@),
        ensures
            handle@.state == state@,
            handle@.verifier == verifier@,
            handle@.url == pkce_url(
                self.grant_flow().client_id@,
                self.redirect(),
                texts(scopes@),
                state@,
                verifier@,
            ),
    {
        proof {
            reveal_strlit(" ");
        }
        assert(" "@ =~= seq![' ']);
        let scope = join_with(scopes, " ");
        let url = authorize_url_pkce(
            AUTHORIZE_URL,
            self.flow.client_id.as_str(),
            self.redirect_uri.as_str(),
            scope.as_str(),
            state.as_str(),
            verifier.as_str(),
        );
        AuthorisationPKCE::new(url, state, verifier)
    }

    /// The handle for `state` and `verifier`. It comes back exactly where the
    /// verifier has a permitted length; its URL is the one that the `oauth2`
    /// crate builds for this client, the scopes joined by spaces, the state
    /// and the verifier's challenge.
    pub fn authorisation_for(&self, scopes: &[&str], state: String, verifier: String) -> (r:
        Option<AuthorisationPKCE>)
        ensures
            r is Some <==> verifier_fits(verifier@),
            r matches Some(handle) ==> {
                &&& handle@.state == state@
                &&& handle@.verifier == verifier@
                &&& handle@.url == pkce_url(
                    self.grant_flow().client_id@,
                    self.redirect(),
                    texts(scopes@),
                    state@,
                    verifier@,
                )
            },
    {
        let length = verifier.as_str().len();
        if length < 43 || length > 128 {
            return None;
        }
        Some(self.handle_for(scopes, state, verifier))
    }

    /// Starts an authorization attempt with a fresh random state and a fresh
    /// random verifier. The state has 22 characters and the verifier a
    /// permitted length; the handle's URL is the one that belongs to them.
    pub fn get_authorisation(&self, scopes: &[&str]) -> (handle: AuthorisationPKCE)
        ensures
            handle@.state.len() == 22,
            verifier_fits(handle@.verifier),
            handle@.url == pkce_url(
                self.grant_flow().client_id@,
                self.redirect(),
                texts(scopes@),
                handle@.state,
                handle@.verifier,
            ),
    {
        let verifier = random_verifier();
        let state = random_state();
        self.handle_for(scopes, state, verifier)
    }

    /// Checks the state that came back with the code against the handle's.
    /// A state that differs in any character is refused with
    /// `InvalidStateParameter`, and no exchange is asked for; an equal one asks
    /// for the exchange of the code, with the handle's verifier.
    pub fn authenticate(self, auth: AuthorisationPKCE, auth_code: &str, csrf_state: &str) -> (r:
        Result<Pending<AuthCodeGrantPKCEFlow>, Error>)
        ensures
            match r {
                Ok(pending) => csrf_state@ == auth@.state && pending.waiting() == self
                    && pending.asked() == (ExchangeView::Code {
                    code: auth_code@,
                    verifier: Some(auth@.verifier),
                }),
                Err(error) => csrf_state@ != auth@.state && error@
                    == ErrorView::InvalidStateParameter,
            },
    {
        if !same_text(csrf_state, auth.csrf_token()) {
            return Err(Error::InvalidStateParameter);
        }
        let exchange = Exchange::Code {
            code: auth_code.to_owned(),
            verifier: Some(auth.pkce_verifier().to_owned()),
        };
        Ok(Pending { client: self, exchange })
    }
}

impl Client<UnAuthenticated, AuthCodeGrantFlow> {
    /// The handle for `state`: its URL is the one that the `oauth2` crate
    /// builds for this client, the scopes joined by spaces, and the state.
    pub fn authorisation_for(&self, scopes: &[&str], state: String) -> (handle: Authorisation)
        ensures
            handle@.state == state@,
            handle@.url == code_url(
                self.grant_flow().client_id@,
                self.redirect(),
                texts(scopes@),
                state@,
            ),
    {
        proof {
            reveal_strlit(" ");
        }
        assert(" "@ =~= seq![' ']);
        let scope = join_with(scopes, " ");
        let url = authorize_url(
            AUTHORIZE_URL,
            self.flow.client_id.as_str(),
            self.redirect_uri.as_str(),
            scope.as_str(),
            state.as_str(),
        );
        Authorisation::new(url, state)
    }

    /// Starts an authorization attempt with a fresh random state of 22
    /// characters. The handle's URL is the one that belongs to its state.
    pub fn get_authorisation(&self, scopes: &[&str]) -> (handle: Authorisation)
        ensures
            handle@.state.len() == 22,
            handle@.url == code_url(
                self.grant_flow().client_id@,
                self.redirect(),
                texts(scopes@),
                handle@.state,
            ),
    {
        let state = random_state();
        self.authorisation_for(scopes, state)
    }

    /// Checks the state that came back with the code against the handle's.
    /// A state that differs in any character is refused with
    /// `InvalidStateParameter`, and no exchange is asked for; an equal one asks
    /// for the exchange of the code.
    pub fn authenticate(self, auth: Authorisation, auth_code: &str, csrf_state: &str) -> (r:
        Result<Pending<AuthCodeGrantFlow>, Error>)
        ensures
            match r {
                Ok(pending) => csrf_state@ == auth@.state && pending.waiting() == self
                    && pending.asked() == (ExchangeView::Code { code: auth_code@, verifier: None }),
                Err(error) => csrf_state@ != auth@.state && error@
                    == ErrorView::InvalidStateParameter,
            },
    {
        if !same_text(csrf_state, auth.csrf_token()) {
            return Err(Error::InvalidStateParameter);
        }
        let exchange = Exchange::Code { code: auth_code.to_owned(), verifier: None };
        Ok(Pending { client: self, exchange })
    }
}

impl Client<UnAuthenticated, ClientCredsGrantFlow> {
    /// Asks for the exchange of the client's credentials for a token.
    pub fn authenticate(self, scopes: &[&str]) -> (pending: Pending<ClientCredsGrantFlow>)
        ensures
            pending.waiting() == self,
            pending.asked() == (ExchangeView::ClientCredentials { scopes: texts(scopes@) }),
    {
        let exchange = Exchange::ClientCredentials { scopes: owned_list(scopes) };
        Pending { client: self, exchange }
    }
}

impl<F: AuthFlow> Client<Token, F> {
    /// Resumes from a refresh token that was kept: asks for its exchange,
    /// with the scopes as a hint. The client that comes of it holds
    /// `refresh_token` unless upstream sends a new one.
    pub fn from_refresh_token(
        auth_flow: F,
        redirect_uri: RedirectUri,
        auto_refresh: bool,
        scopes: &[&str],
        refresh_token: String,
    ) -> (pending: Pending<F>)
        ensures
            pending.waiting().grant_flow() == auth_flow,
            pending.waiting().redirect() == redirect_uri@,
            pending.waiting().refreshes() == auto_refresh,
            pending.asked() == (ExchangeView::Refresh {
                refresh_token: refresh_token@,
                scopes: texts(scopes@),
            }),
    {
        let client = Client::new(auth_flow, redirect_uri, auto_refresh);
        let exchange = Exchange::Refresh { refresh_token, scopes: owned_list(scopes) };
        Pending { client, exchange }
    }

    /// The builder that carries `endpoint` for this client.
    pub(crate) fn builder<E: Endpoint>(&mut self, endpoint: E) -> (b: Builder<'_, F, E>)
        ensures
            *b.spotify == *old(self),
            *final(self) == *final(b.spotify),
            b.endpoint == endpoint,
    {
        Builder { spotify: self, endpoint }
    }

    /// The token that the client holds.
    pub fn token(&self) -> (r: &Token)
        ensures
            *r == self.state(),
    {
        &self.auth
    }

    pub fn access_token(&self) -> (r: &str)
        ensures
            r@ == self.state()@.access_token,
    {
        self.auth.access_token()
    }

    pub fn refresh_token(&self) -> (r: Option<&str>)
        ensures
            match r {
                Some(t) => self.state()@.refresh_token == Some(t@),
                None => self.state()@.refresh_token is None,
            },
    {
        self.auth.refresh_token()
    }

    /// Asks for a refresh: the exchange of the refresh token that is held,
    /// and `RefreshUnavailable` where none is held.
    pub fn request_refresh_token(&self) -> (r: Result<Exchange, Error>)
        ensures
            match self.state()@.refresh_token {
                Some(held) => r matches Ok(exchange) && exchange@ == (ExchangeView::Refresh {
                    refresh_token: held,
                    scopes: Seq::empty(),
                }),
                None => r matches Err(error) && error@ == ErrorView::RefreshUnavailable,
            },
    {
        match self.auth.refresh_token() {
            Some(held) => {
                let exchange = Exchange::Refresh {
                    refresh_token: held.to_owned(),
                    scopes: Vec::new(),
                };
                assert(owned_texts(Seq::<String>::empty()) =~= Seq::<Seq<char>>::empty());
                Ok(exchange)
            },
            None => Err(Error::RefreshUnavailable),
        }
    }

    /// Ends a refresh with what came of it at `now`. A grant replaces the
    /// token in place; a failure is handed on and leaves the token as it was.
    pub fn refreshed(&mut self, outcome: Result<TokenGrant, Error>, now: u64) -> (r: Result<
        (),
        Error,
    >)
        requires
            outcome matches Ok(grant) ==> now + grant.expires_in <= u64::MAX,
        ensures
            final(self).refreshes() == old(self).refreshes(),
            final(self).grant_flow() == old(self).grant_flow(),
            final(self).redirect() == old(self).redirect(),
            match outcome {
                Ok(grant) => r is Ok && final(self).state()@ == crate::auth::renewed(
                    old(self).state()@,
                    grant@,
                    now,
                ),
                Err(error) => r == Err::<(), Error>(error) && final(self).state() == old(
                    self,
                ).state(),
            },
    {
        match outcome {
            Ok(grant) => {
                let token = self.auth.renew(grant, now);
                self.auth = token;
                Ok(())
            },
            Err(error) => Err(error),
        }
    }

    /// Runs the pipeline for one call at `now`, up to the point where
    /// something has to be sent.
    pub fn dispatch(&self, now: u64, call: ApiCall) -> (r: Dispatch)
        ensures
            r@ == dispatch_of(self.state()@, self.refreshes(), now, call@),
    {
        if self.auth.is_expired(now) {
            if self.auto_refresh {
                match self.request_refresh_token() {
                    Ok(exchange) => Dispatch::Refresh { exchange, call },
                    Err(error) => Dispatch::Fail(error),
                }
            } else {
                Dispatch::Fail(Error::ExpiredToken)
            }
        } else {
            Dispatch::Send(call.into_request(self.auth.access_token()))
        }
    }

    /// Goes on with `call` after the refresh that [`Dispatch::Refresh`] asked
    /// for. A grant replaces the token, and the call is sent with the new
    /// access token without another look at the clock; a failed refresh is
    /// handed on, the token stays and the call is not sent.
    pub fn resume(&mut self, outcome: Result<TokenGrant, Error>, now: u64, call: ApiCall) -> (r:
        Result<HttpRequest, Error>)
        requires
            outcome matches Ok(grant) ==> now + grant.expires_in <= u64::MAX,
        ensures
            final(self).refreshes() == old(self).refreshes(),
            final(self).grant_flow() == old(self).grant_flow(),
            final(self).redirect() == old(self).redirect(),
            match outcome {
                Ok(grant) => {
                    &&& final(self).state()@ == crate::auth::renewed(
                        old(self).state()@,
                        grant@,
                        now,
                    )
                    &&& r matches Ok(request)
                    &&& request@ == request_for(grant@.access_token, call@)
                },
                Err(error) => r == Err::<HttpRequest, Error>(error) && final(self).state() == old(
                    self,
                ).state(),
            },
    {
        match self.refreshed(outcome, now) {
            Ok(()) => Ok(call.into_request(self.auth.access_token())),
            Err(error) => Err(error),
        }
    }

    /// The pipeline for a call given by its parts: `endpoint` is the path
    /// below the API base and starts with `/`; `answer` says what the endpoint
    /// answers with.
    pub fn request(
        &self,
        now: u64,
        method: Method,
        endpoint: String,
        query: Option<Vec<(String, String)>>,
        body: Option<Body>,
        answer: Answer,
    ) -> (r: Dispatch)
        ensures
            r@ == dispatch_of(
                self.state()@,
                self.refreshes(),
                now,
                ApiCallView {
                    method,
                    path: endpoint@,
                    query: query_view(query),
                    body: body_view(body),
                    answer,
                },
            ),
    {
        let query = match query {
            Some(pairs) => pairs,
            None => {
                let none: Vec<(String, String)> = Vec::new();
                assert(pairs_view(none@) =~= Seq::empty());
                none
            },
        };
        self.dispatch(now, ApiCall { method, path: endpoint, query, body, answer })
    }

    /// A `GET` with a query and no body.
    pub fn get(
        &self,
        now: u64,
        endpoint: String,
        query: Option<Vec<(String, String)>>,
        answer: Answer,
    ) -> (r: Dispatch)
        ensures
            r@ == dispatch_of(
                self.state()@,
                self.refreshes(),
                now,
                ApiCallView {
                    method: Method::Get,
                    path: endpoint@,
                    query: query_view(query),
                    body: None,
                    answer,
                },
            ),
    {
        self.request(now, Method::Get, endpoint, query, None, answer)
    }

    /// A `POST` with a body and no query.
    pub fn post(&self, now: u64, endpoint: String, body: Option<Body>, answer: Answer) -> (r:
        Dispatch)
        ensures
            r@ == dispatch_of(
                self.state()@,
                self.refreshes(),
                now,
                ApiCallView {
                    method: Method::Post,
                    path: endpoint@,
                    query: Seq::empty(),
                    body: body_view(body),
                    answer,
                },
            ),
    {
        self.request(now, Method::Post, endpoint, None, body, answer)
    }

    /// A `PUT` with a body and no query.
    pub fn put(&self, now: u64, endpoint: String, body: Option<Body>, answer: Answer) -> (r:
        Dispatch)
        ensures
            r@ == dispatch_of(
                self.state()@,
                self.refreshes(),
                now,
                ApiCallView {
                    method: Method::Put,
                    path: endpoint@,
                    query: Seq::empty(),
                    body: body_view(body),
                    answer,
                },
            ),
    {
        self.request(now, Method::Put, endpoint, None, body, answer)
    }

    /// A `DELETE` with a body and no query.
    pub fn delete(&self, now: u64, endpoint: String, body: Option<Body>, answer: Answer) -> (r:
        Dispatch)
        ensures
            r@ == dispatch_of(
                self.state()@,
                self.refreshes(),
                now,
                ApiCallView {
                    method: Method::Delete,
                    path: endpoint@,
                    query: Seq::empty(),
                    body: body_view(body),
                    answer,
                },
            ),
    {
        self.request(now, Method::Delete, endpoint, None, body, answer)
    }
}

} // verus!
