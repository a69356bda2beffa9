use vstd::prelude::*;
use oauth2::basic::BasicClient;
use oauth2::{AuthUrl, ClientId, CsrfToken, PkceCodeChallenge, PkceCodeVerifier, RedirectUrl, Scope};

verus! {

/// Whether every character of `s` is ASCII.
pub open spec fn all_ascii(s: Seq<char>) -> bool {
    forall|i: int| 0 <= i < s.len() ==> (s[i] as u32) < 128
}

/// The authorization URL that oauth2 builds for a client, endpoint, redirect,
/// scope, CSRF token and PKCE verifier (the challenge is the verifier's
/// SHA-256 digest), or nothing where an endpoint is not a URL.
pub uninterp spec fn authorization_url_of(
    client_id: Seq<char>,
    auth_endpoint: Seq<char>,
    redirect: Seq<char>,
    scope: Seq<char>,
    csrf: Seq<char>,
    verifier: Seq<char>,
) -> Option<Seq<char>>;

/// Relies on `oauth2::CsrfToken::new_random`: 16 random bytes in unpadded
/// URL-safe base64, so 22 ASCII characters.
#[verifier::external_body]
pub(crate) fn new_csrf_token() -> (r: String)
    ensures
        r@.len() == 22,
        all_ascii(r@),
{
    CsrfToken::new_random().secret().clone()
}

/// Relies on `oauth2::PkceCodeChallenge::new_random_sha256`: its verifier is
/// 32 random bytes in unpadded URL-safe base64, so 43 ASCII characters.
#[verifier::external_body]
pub(crate) fn new_pkce_verifier() -> (r: String)
    ensures
        r@.len() == 43,
        all_ascii(r@),
{
    PkceCodeChallenge::new_random_sha256().1.secret().clone()
}

/// Relies on oauth2's `Client::authorize_url(..).url()`, with
/// `PkceCodeChallenge::from_code_verifier_sha256` (which panics unless the
/// verifier has 43 to 128 bytes) and the `AuthUrl` / `RedirectUrl` parsers.
#[verifier::external_body]
pub(crate) fn authorization_url(
    client_id: &str,
    auth_endpoint: &str,
    redirect: &str,
    scope: &str,
    csrf: &str,
    verifier: &str,
) -> (r: Option<String>)
    requires
        43 <= verifier@.len() <= 128,
        all_ascii(verifier@),
    ensures
        match r {
            Some(u) => authorization_url_of(client_id@, auth_endpoint@, redirect@, scope@, csrf@, verifier@) == Some(u@),
            None => authorization_url_of(client_id@, auth_endpoint@, redirect@, scope@, csrf@, verifier@) is None,
        },
{
    let client = BasicClient::new(ClientId::new(client_id.to_string()), None,
        AuthUrl::new(auth_endpoint.to_string()).ok()?, None)
        .set_redirect_uri(RedirectUrl::new(redirect.to_string()).ok()?);
    let verifier = PkceCodeVerifier::new(verifier.to_string());
    let (url, _) = client.authorize_url(|| CsrfToken::new(csrf.to_string()))
        .add_scope(Scope::new(scope.to_string()))
        .set_pkce_challenge(PkceCodeChallenge::from_code_verifier_sha256(&verifier))
        .url();
    Some(url.to_string())
}

} // verus!
