//! What the `oauth2` crate does for the authorization flows: fresh secrets,
//! the test of a redirect URI, and the authorization URL. Every function here
//! is believed, not proved.

use oauth2::basic::BasicClient;
use oauth2::{
    AuthUrl, ClientId, CsrfToken, PkceCodeChallenge, PkceCodeVerifier, RedirectUrl, Scope,
};
use vstd::prelude::*;
use vstd::utf8::encode_utf8;

use crate::auth::AUTHORIZE_URL;

verus! {

/// Whether `oauth2::RedirectUrl::new` takes the text. It takes what
/// `url::Url::parse` takes.
pub uninterp spec fn parses_as_url(text: Seq<char>) -> bool;

/// The text of the challenge that
/// `oauth2::PkceCodeChallenge::from_code_verifier_sha256` makes of a verifier:
/// the SHA-256 digest of the verifier, in URL-safe base64 without padding.
pub uninterp spec fn s256_challenge(verifier: Seq<char>) -> Seq<char>;

/// The text of the URL that `oauth2::AuthorizationRequest::url` gives for a
/// code grant without a challenge: the authorization endpoint with the response
/// type `code`, the client id, the state, the redirect URI and the scope in its
/// query.
pub uninterp spec fn authorize_url_text(
    endpoint: Seq<char>,
    client_id: Seq<char>,
    redirect_uri: Seq<char>,
    scope: Seq<char>,
    state: Seq<char>,
) -> Seq<char>;

/// The text of the URL that `oauth2::AuthorizationRequest::url` gives once
/// `set_pkce_challenge` has added a challenge with the text `challenge` and
/// the method `S256`.
pub uninterp spec fn authorize_url_pkce_text(
    endpoint: Seq<char>,
    client_id: Seq<char>,
    redirect_uri: Seq<char>,
    scope: Seq<char>,
    state: Seq<char>,
    challenge: Seq<char>,
) -> Seq<char>;

/// The length in bytes that a PKCE verifier may have, as `str::len` counts it.
pub open spec fn verifier_fits(verifier: Seq<char>) -> bool {
    43 <= encode_utf8(verifier).len() as usize <= 128
}

/// `oauth2::RedirectUrl::new`: whether it takes the text.
#[verifier::external_body]
pub(crate) fn redirect_parses(text: &str) -> (ok: bool)
    ensures
        ok == parses_as_url(text@),
{
    RedirectUrl::new(text.to_owned()).is_ok()
}

/// `oauth2::CsrfToken::new_random`: the secret of a fresh random state. Which
/// one is a matter of chance; every one is the URL-safe base64 text, without
/// padding, of 16 random bytes, and so has 22 characters.
#[verifier::external_body]
pub(crate) fn random_state() -> (state: String)
    ensures
        state@.len() == 22,
{
    CsrfToken::new_random().secret().clone()
}

/// `oauth2::PkceCodeChallenge::new_random_sha256`: the secret of the fresh
/// random verifier that it returns. The crate makes the verifier's challenge
/// before it returns, which it refuses to do for a verifier outside the
/// permitted length; so the length holds of every verifier that comes back.
#[verifier::external_body]
pub(crate) fn random_verifier() -> (verifier: String)
    ensures
        verifier_fits(verifier@),
{
    PkceCodeChallenge::new_random_sha256().1.secret().clone()
}

/// `oauth2::Client::authorize_url` and `oauth2::AuthorizationRequest::url` on
/// a client made from `client_id`, `endpoint` and `redirect_uri`, with the one
/// scope `scope` and `state` as the state: the URL's text is the named one.
///
/// The endpoint is the service's own, which `oauth2::AuthUrl::new` takes: it
/// is an `https` URL without a query and without a fragment. The redirect URI
/// is one that `oauth2::RedirectUrl::new` takes. With these two the crate
/// builds the URL without a way to fail. An endpoint with a fragment is left
/// out because the `url` crate counts in 32 bits when it puts a fragment back
/// behind a query, and gives up on a URL that has grown past that.
#[verifier::external_body]
pub(crate) fn authorize_url(
    endpoint: &str,
    client_id: &str,
    redirect_uri: &str,
    scope: &str,
    state: &str,
) -> (url: String)
    requires
        endpoint@ == AUTHORIZE_URL@,
        parses_as_url(redirect_uri@),
    ensures
        url@ == authorize_url_text(endpoint@, client_id@, redirect_uri@, scope@, state@),
{
    let auth_url = AuthUrl::new(endpoint.to_owned()).unwrap();
    let redirect = RedirectUrl::new(redirect_uri.to_owned()).unwrap();
    let state = CsrfToken::new(state.to_owned());
    let client = BasicClient::new(ClientId::new(client_id.to_owned()), None, auth_url, None)
        .set_redirect_uri(redirect);
    let request = client.authorize_url(move || state).add_scope(Scope::new(scope.to_owned()));
    request.url().0.to_string()
}

/// As [`authorize_url`], with the S256 challenge of `verifier`, made by
/// `oauth2::PkceCodeChallenge::from_code_verifier_sha256` and set by
/// `oauth2::AuthorizationRequest::set_pkce_challenge`. The crate refuses a
/// verifier outside the permitted length, so the caller must not hand one in.
#[verifier::external_body]
pub(crate) fn authorize_url_pkce(
    endpoint: &str,
    client_id: &str,
    redirect_uri: &str,
    scope: &str,
    state: &str,
    verifier: &str,
) -> (url: String)
    requires
        endpoint@ == AUTHORIZE_URL@,
        parses_as_url(redirect_uri@),
        verifier_fits(verifier@),
    ensures
        url@ == authorize_url_pkce_text(
            endpoint@,
            client_id@,
            redirect_uri@,
            scope@,
            state@,
            s256_challenge(verifier@),
        ),
{
    let auth_url = AuthUrl::new(endpoint.to_owned()).unwrap();
    let redirect = RedirectUrl::new(redirect_uri.to_owned()).unwrap();
    let state = CsrfToken::new(state.to_owned());
    let verifier = PkceCodeVerifier::new(verifier.to_owned());
    let client = BasicClient::new(ClientId::new(client_id.to_owned()), None, auth_url, None)
        .set_redirect_uri(redirect);
    let request = client.authorize_url(move || state).add_scope(Scope::new(scope.to_owned()))
        .set_pkce_challenge(PkceCodeChallenge::from_code_verifier_sha256(&verifier));
    request.url().0.to_string()
}

} // verus!
