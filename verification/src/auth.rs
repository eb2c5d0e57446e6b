//! The authentication typestate: the flows, the two states of a client, the
//! token and the handles of an authorization attempt.

use vstd::prelude::*;

use crate::error::{Error, ErrorView};
use crate::oauth::{parses_as_url, redirect_parses};
use crate::text::{copy_list, owned_texts};

verus! {

/// Where the user is sent to grant access.
pub const AUTHORIZE_URL: &'static str = "https://accounts.spotify.com/authorize";

/// Where every token exchange goes.
pub const TOKEN_URL: &'static str = "https://accounts.spotify.com/api/token";

/// The view of an optional string.
pub open spec fn text_view(text: Option<String>) -> Option<Seq<char>> {
    match text {
        Some(t) => Some(t@),
        None => None,
    }
}

/// A redirect URI that is a URL: where the user comes back to with the code.
#[derive(Debug, PartialEq, Eq)]
pub struct RedirectUri {
    text: String,
}

impl View for RedirectUri {
    type V = Seq<char>;

    closed spec fn view(&self) -> Seq<char> {
        self.text@
    }
}

impl RedirectUri {
    #[verifier::type_invariant]
    spec fn is_url(&self) -> bool {
        parses_as_url(self.text@)
    }

    /// The redirect URI with this text, if the text is a URL.
    pub fn new(text: String) -> (r: Option<RedirectUri>)
        ensures
            r is Some <==> parses_as_url(text@),
            r matches Some(uri) ==> uri@ == text@,
    {
        if redirect_parses(text.as_str()) {
            Some(RedirectUri { text })
        } else {
            None
        }
    }

    /// The text of the URI, which is a URL.
    pub fn as_str(&self) -> (r: &str)
        ensures
            r@ == self@,
            parses_as_url(self@),
    {
        proof {
            use_type_invariant(self);
        }
        self.text.as_str()
    }
}

/// One of the OAuth2 grants: it names the client, its secret where it has
/// one, and the token endpoint.
pub trait AuthFlow {
    /// The client id.
    spec fn id(&self) -> Seq<char>;

    /// The client secret; none for a public client.
    spec fn secret(&self) -> Option<Seq<char>>;

    /// Whether a token of this flow stands for a user who consented.
    spec fn acts_for_user() -> bool;

    fn client_id(&self) -> (r: String)
        ensures
            r@ == self.id(),
    ;

    fn client_secret(&self) -> (r: Option<String>)
        ensures
            text_view(r) == self.secret(),
    ;

    fn token_url(&self) -> (r: &'static str)
        ensures
            r@ == TOKEN_URL@,
    ;
}

/// The flows whose tokens stand for a user: only they reach the endpoints
/// that read or change what belongs to a user. A flow can have this mark only
/// by showing that it acts for a user.
pub trait Authorised: AuthFlow {
    proof fn user_consent()
        ensures
            Self::acts_for_user(),
    ;
}

/// The authorization-code grant of a confidential client.
#[derive(Clone, Debug, PartialEq, Eq)]
pub struct AuthCodeGrantFlow {
    pub client_id: String,
    pub client_secret: String,
}

/// The authorization-code grant with PKCE, for a client without a secret.
#[derive(Clone, Debug, PartialEq, Eq)]
pub struct AuthCodeGrantPKCEFlow {
    pub client_id: String,
}

/// The client-credentials grant: the client acts for itself.
#[derive(Clone, Debug, PartialEq, Eq)]
pub struct ClientCredsGrantFlow {
    pub client_id: String,
    pub client_secret: String,
}

impl AuthCodeGrantFlow {
    /// The flow of the client with this id and secret.
    pub fn new(client_id: &str, client_secret: &str) -> (flow: AuthCodeGrantFlow)
        ensures
            flow.client_id@ == client_id@,
            flow.client_secret@ == client_secret@,
    {
        AuthCodeGrantFlow {
            client_id: client_id.to_owned(),
            client_secret: client_secret.to_owned(),
        }
    }
}

impl AuthCodeGrantPKCEFlow {
    /// The flow of the client with this id.
    pub fn new(client_id: &str) -> (flow: AuthCodeGrantPKCEFlow)
        ensures
            flow.client_id@ == client_id@,
    {
        AuthCodeGrantPKCEFlow { client_id: client_id.to_owned() }
    }
}

impl ClientCredsGrantFlow {
    /// The flow of the client with this id and secret.
    pub fn new(client_id: &str, client_secret: &str) -> (flow: ClientCredsGrantFlow)
        ensures
            flow.client_id@ == client_id@,
            flow.client_secret@ == client_secret@,
    {
        ClientCredsGrantFlow {
            client_id: client_id.to_owned(),
            client_secret: client_secret.to_owned(),
        }
    }
}

impl AuthFlow for AuthCodeGrantFlow {
    open spec fn id(&self) -> Seq<char> {
        self.client_id@
    }

    open spec fn secret(&self) -> Option<Seq<char>> {
        Some(self.client_secret@)
    }

    open spec fn acts_for_user() -> bool {
        true
    }

    fn client_id(&self) -> (r: String) {
        self.client_id.clone()
    }

    fn client_secret(&self) -> (r: Option<String>) {
        Some(self.client_secret.clone())
    }

    fn token_url(&self) -> (r: &'static str) {
        TOKEN_URL
    }
}

impl AuthFlow for AuthCodeGrantPKCEFlow {
    open spec fn id(&self) -> Seq<char> {
        self.client_id@
    }

    open spec fn secret(&self) -> Option<Seq<char>> {
        None
    }

    open spec fn acts_for_user() -> bool {
        true
    }

    fn client_id(&self) -> (r: String) {
        self.client_id.clone()
    }

    fn client_secret(&self) -> (r: Option<String>) {
        None
    }

    fn token_url(&self) -> (r: &'static str) {
        TOKEN_URL
    }
}

impl AuthFlow for ClientCredsGrantFlow {
    open spec fn id(&self) -> Seq<char> {
        self.client_id@
    }

    open spec fn secret(&self) -> Option<Seq<char>> {
        Some(self.client_secret@)
    }

    open spec fn acts_for_user() -> bool {
        false
    }

    fn client_id(&self) -> (r: String) {
        self.client_id.clone()
    }

    fn client_secret(&self) -> (r: Option<String>) {
        Some(self.client_secret.clone())
    }

    fn token_url(&self) -> (r: &'static str) {
        TOKEN_URL
    }
}

impl Authorised for AuthCodeGrantFlow {
    proof fn user_consent() {
    }
}

impl Authorised for AuthCodeGrantPKCEFlow {
    proof fn user_consent() {
    }
}

/// Every flow that carries the mark acts for a user.
pub proof fn lemma_authorised_acts_for_user<F: Authorised>()
    ensures
        F::acts_for_user(),
{
    F::user_consent();
}

/// The client-credentials flow acts for no user, so it cannot carry the mark.
pub proof fn lemma_client_credentials_act_for_no_user()
    ensures
        !ClientCredsGrantFlow::acts_for_user(),
{
}

/// The states that a client can be in.
pub trait AuthenticationState {

}

/// The state of a client that holds no token yet.
#[derive(Clone, Copy, Debug, PartialEq, Eq)]
pub struct UnAuthenticated;

impl AuthenticationState for UnAuthenticated {

}

impl AuthenticationState for Token {

}

/// What the token endpoint answered to an exchange.
#[derive(Clone, Debug, PartialEq, Eq)]
pub struct TokenGrant {
    pub access_token: String,
    pub token_type: String,
    pub refresh_token: Option<String>,
    /// The token's lifetime in seconds.
    pub expires_in: u64,
    pub scopes: Vec<String>,
}

/// What is said of an answer of the token endpoint that names no lifetime.
pub const NO_LIFETIME: &'static str = "the token endpoint named no lifetime for the token";

impl TokenGrant {
    /// The grant that an answer of the token endpoint makes, part by part. An
    /// answer that names no lifetime makes none: it is refused as a failure of
    /// the exchange, since a token needs an expiry.
    pub fn from_answer(
        access_token: String,
        token_type: String,
        refresh_token: Option<String>,
        expires_in: Option<u64>,
        scopes: Vec<String>,
    ) -> (r: Result<TokenGrant, Error>)
        ensures
            match expires_in {
                Some(lifetime) => r matches Ok(grant) && grant == (TokenGrant {
                    access_token,
                    token_type,
                    refresh_token,
                    expires_in: lifetime,
                    scopes,
                }),
                None => r matches Err(error) && error@ == ErrorView::OAuth(NO_LIFETIME@),
            },
    {
        match expires_in {
            Some(lifetime) => Ok(
                TokenGrant { access_token, token_type, refresh_token, expires_in: lifetime, scopes },
            ),
            None => Err(Error::OAuth(NO_LIFETIME.to_owned())),
        }
    }
}

/// The mathematical value of a [`TokenGrant`].
pub struct TokenGrantView {
    pub access_token: Seq<char>,
    pub token_type: Seq<char>,
    pub refresh_token: Option<Seq<char>>,
    pub expires_in: u64,
    pub scopes: Seq<Seq<char>>,
}

impl View for TokenGrant {
    type V = TokenGrantView;

    open spec fn view(&self) -> TokenGrantView {
        TokenGrantView {
            access_token: self.access_token@,
            token_type: self.token_type@,
            refresh_token: text_view(self.refresh_token),
            expires_in: self.expires_in,
            scopes: owned_texts(self.scopes@),
        }
    }
}

/// The credentials of an authenticated client. Instants are seconds since the
/// epoch. A token never expires before it was issued.
#[derive(Debug, PartialEq, Eq)]
pub struct Token {
    access_token: String,
    token_type: String,
    refresh_token: Option<String>,
    issued_at: u64,
    expires_at: u64,
    scopes: Vec<String>,
}

/// The mathematical value of a [`Token`].
pub struct TokenView {
    pub access_token: Seq<char>,
    pub token_type: Seq<char>,
    pub refresh_token: Option<Seq<char>>,
    pub issued_at: u64,
    pub expires_at: u64,
    pub scopes: Seq<Seq<char>>,
}

impl View for Token {
    type V = TokenView;

    closed spec fn view(&self) -> TokenView {
        TokenView {
            access_token: self.access_token@,
            token_type: self.token_type@,
            refresh_token: text_view(self.refresh_token),
            issued_at: self.issued_at,
            expires_at: self.expires_at,
            scopes: owned_texts(self.scopes@),
        }
    }
}

/// The token that a grant received at `now` gives.
pub open spec fn issued(grant: TokenGrantView, now: u64) -> TokenView
    recommends
        now + grant.expires_in <= u64::MAX,
{
    TokenView {
        access_token: grant.access_token,
        token_type: grant.token_type,
        refresh_token: grant.refresh_token,
        issued_at: now,
        expires_at: (now + grant.expires_in) as u64,
        scopes: grant.scopes,
    }
}

/// The token that a refresh answered at `now` makes of `prior`: the access
/// token and both instants are new; the refresh token is the new one where
/// upstream sent one, and the prior one where it did not; the rest stays.
pub open spec fn renewed(prior: TokenView, grant: TokenGrantView, now: u64) -> TokenView
    recommends
        now + grant.expires_in <= u64::MAX,
{
    TokenView {
        access_token: grant.access_token,
        token_type: prior.token_type,
        refresh_token: match grant.refresh_token {
            Some(fresh) => Some(fresh),
            None => prior.refresh_token,
        },
        issued_at: now,
        expires_at: (now + grant.expires_in) as u64,
        scopes: prior.scopes,
    }
}

impl Token {
    #[verifier::type_invariant]
    spec fn issued_before_expiry(&self) -> bool {
        self.issued_at <= self.expires_at
    }

    /// Whether the token has expired at `now`: from its expiry on.
    pub open spec fn expired_at(&self, now: u64) -> bool {
        now >= self@.expires_at
    }

    /// Stamps a grant that was received at `now`.
    pub fn issue(grant: TokenGrant, now: u64) -> (token: Token)
        requires
            now + grant.expires_in <= u64::MAX,
        ensures
            token@ == issued(grant@, now),
            token@.issued_at <= token@.expires_at,
    {
        Token {
            access_token: grant.access_token,
            token_type: grant.token_type,
            refresh_token: grant.refresh_token,
            issued_at: now,
            expires_at: now + grant.expires_in,
            scopes: grant.scopes,
        }
    }

    /// The token after a refresh that was answered at `now`.
    pub fn renew(&self, grant: TokenGrant, now: u64) -> (token: Token)
        requires
            now + grant.expires_in <= u64::MAX,
        ensures
            token@ == renewed(self@, grant@, now),
            token@.issued_at <= token@.expires_at,
    {
        let refresh_token = match grant.refresh_token {
            Some(fresh) => Some(fresh),
            None => self.refresh_token.clone(),
        };
        Token {
            access_token: grant.access_token,
            token_type: self.token_type.clone(),
            refresh_token,
            issued_at: now,
            expires_at: now + grant.expires_in,
            scopes: copy_list(&self.scopes),
        }
    }

    /// Whether the token has expired at `now`. Only the stored expiry is
    /// consulted.
    pub fn is_expired(&self, now: u64) -> (r: bool)
        ensures
            r == self.expired_at(now),
    {
        now >= self.expires_at
    }

    pub fn access_token(&self) -> (r: &str)
        ensures
            r@ == self@.access_token,
    {
        self.access_token.as_str()
    }

    pub fn token_type(&self) -> (r: &str)
        ensures
            r@ == self@.token_type,
    {
        self.token_type.as_str()
    }

    pub fn refresh_token(&self) -> (r: Option<&str>)
        ensures
            match r {
                Some(t) => self@.refresh_token == Some(t@),
                None => self@.refresh_token is None,
            },
    {
        match &self.refresh_token {
            Some(t) => Some(t.as_str()),
            None => None,
        }
    }

    /// When the token was issued; never after its expiry.
    pub fn issued_at(&self) -> (r: u64)
        ensures
            r == self@.issued_at,
            r <= self@.expires_at,
    {
        proof {
            use_type_invariant(self);
        }
        self.issued_at
    }

    /// When the token expires; never before it was issued.
    pub fn expires_at(&self) -> (r: u64)
        ensures
            r == self@.expires_at,
            self@.issued_at <= r,
    {
        proof {
            use_type_invariant(self);
        }
        self.expires_at
    }

    pub fn scopes(&self) -> (r: &Vec<String>)
        ensures
            owned_texts(r@) == self@.scopes,
    {
        &self.scopes
    }
}

/// A token is live at every instant before its expiry and expired from its
/// expiry on.
pub proof fn lemma_expiry_boundary(token: Token, now: u64)
    ensures
        now < token@.expires_at ==> !token.expired_at(now),
        now >= token@.expires_at ==> token.expired_at(now),
        token.expired_at(token@.expires_at),
{
}

/// A stamped grant expires exactly its lifetime after it was received, so
/// never before it was issued.
pub proof fn lemma_issued_before_expiry(grant: TokenGrantView, prior: TokenView, now: u64)
    requires
        now + grant.expires_in <= u64::MAX,
    ensures
        issued(grant, now).issued_at <= issued(grant, now).expires_at,
        issued(grant, now).expires_at == now + grant.expires_in,
        renewed(prior, grant, now).issued_at <= renewed(prior, grant, now).expires_at,
        renewed(prior, grant, now).expires_at == now + grant.expires_in,
{
}

/// A refresh keeps the refresh token that was held unless upstream sent a new
/// one.
pub proof fn lemma_refresh_token_retained(prior: TokenView, grant: TokenGrantView, now: u64)
    ensures
        grant.refresh_token is None ==> renewed(prior, grant, now).refresh_token
            == prior.refresh_token,
        grant.refresh_token is Some ==> renewed(prior, grant, now).refresh_token
            == grant.refresh_token,
{
}

/// The handle of one authorization attempt of the code grant: the URL to
/// send the user to, and the secret state that must come back with the code.
/// The secret is read through its accessor only; the handle cannot be printed.
#[derive(PartialEq, Eq)]
pub struct Authorisation {
    url: String,
    csrf_token: String,
}

/// The mathematical value of an [`Authorisation`].
pub struct AuthorisationView {
    pub url: Seq<char>,
    pub state: Seq<char>,
}

impl View for Authorisation {
    type V = AuthorisationView;

    closed spec fn view(&self) -> AuthorisationView {
        AuthorisationView { url: self.url@, state: self.csrf_token@ }
    }
}

impl Authorisation {
    pub(crate) fn new(url: String, csrf_token: String) -> (handle: Authorisation)
        ensures
            handle@ == (AuthorisationView { url: url@, state: csrf_token@ }),
    {
        Authorisation { url, csrf_token }
    }

    /// The URL to send the user to.
    pub fn url(&self) -> (r: &str)
        ensures
            r@ == self@.url,
    {
        self.url.as_str()
    }

    /// The secret state of this attempt.
    pub fn csrf_token(&self) -> (r: &str)
        ensures
            r@ == self@.state,
    {
        self.csrf_token.as_str()
    }
}

/// The handle of one authorization attempt of the code grant with PKCE: as
/// [`Authorisation`], with the secret verifier that the exchange must present.
#[derive(PartialEq, Eq)]
pub struct AuthorisationPKCE {
    url: String,
    csrf_token: String,
    pkce_verifier: String,
}

/// The mathematical value of an [`AuthorisationPKCE`].
pub struct AuthorisationPKCEView {
    pub url: Seq<char>,
    pub state: Seq<char>,
    pub verifier: Seq<char>,
}

impl View for AuthorisationPKCE {
    type V = AuthorisationPKCEView;

    closed spec fn view(&self) -> AuthorisationPKCEView {
        AuthorisationPKCEView {
            url: self.url@,
            state: self.csrf_token@,
            verifier: self.pkce_verifier@,
        }
    }
}

impl AuthorisationPKCE {
    pub(crate) fn new(url: String, csrf_token: String, pkce_verifier: String) -> (handle:
        AuthorisationPKCE)
        ensures
            handle@ == (AuthorisationPKCEView {
                url: url@,
                state: csrf_token@,
                verifier: pkce_verifier@,
            }),
    {
        AuthorisationPKCE { url, csrf_token, pkce_verifier }
    }

    /// The URL to send the user to.
    pub fn url(&self) -> (r: &str)
        ensures
            r@ == self@.url,
    {
        self.url.as_str()
    }

    /// The secret state of this attempt.
    pub fn csrf_token(&self) -> (r: &str)
        ensures
            r@ == self@.state,
    {
        self.csrf_token.as_str()
    }

    /// The secret verifier of this attempt.
    pub fn pkce_verifier(&self) -> (r: &str)
        ensures
            r@ == self@.verifier,
    {
        self.pkce_verifier.as_str()
    }
}

} // verus!
