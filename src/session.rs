use vstd::prelude::*;
use crate::callback::{
    callback_verdict, first_value, query_pairs_of, second_word_of, REDIRECT_ORIGIN, read_callback, CallbackError, CSRF_MISMATCH, NO_CODE, INVALID_REQUEST,
    URL_PARSE_FAILED,
};
use crate::oauth::{authorization_url, authorization_url_of, new_csrf_token, new_pkce_verifier};
use crate::store::OAuthState;
use crate::text::{has_prefix, join};
use crate::types::AuthResponse;

verus! {

/// The provider's authorization endpoint.
pub const AUTH_ENDPOINT: &'static str = "https://accounts.google.com/o/oauth2/v2/auth";
/// The provider's token endpoint.
pub const TOKEN_ENDPOINT: &'static str = "https://oauth2.googleapis.com/token";
/// Where the provider sends the browser back; registered with the provider.
pub const REDIRECT_URI: &'static str = "http://localhost:3000/oauth/callback";
/// Loopback address on which the redirect is awaited.
pub const CALLBACK_ADDRESS: &'static str = "127.0.0.1:3000";
/// The one capability asked for: read-only access to Drive files.
pub const DRIVE_SCOPE: &'static str = "https://www.googleapis.com/auth/drive.readonly";
/// Credentials that begin with this are placeholders, not configured values.
pub const PLACEHOLDER_PREFIX: &'static str = "YOUR_";

/// Message for unconfigured credentials.
pub const NOT_CONFIGURED: &'static str =
    "Google Drive OAuth is not configured. Please set GOOGLE_CLIENT_ID and GOOGLE_CLIENT_SECRET.";
/// Message for endpoints that oauth2 does not accept as URLs.
pub const INVALID_AUTH_URL: &'static str = "Invalid authorization URL";
/// Start of the message for a browser that could not be opened.
pub const BROWSER_FAILED: &'static str = "failed to open browser: ";
/// Start of the message for a listener that could not be bound.
pub const BIND_FAILED: &'static str = "Failed to start callback server: ";
/// Start of the message for a connection that could not be accepted.
pub const ACCEPT_FAILED: &'static str = "Failed to accept connection: ";
/// Start of the message for a request line that could not be read.
pub const READ_FAILED: &'static str = "Failed to read request: ";
/// Start of the message for a failed token exchange.
pub const EXCHANGE_FAILED: &'static str = "failed to exchange code for token: ";
/// Message for an event that the session does not expect in its state.
pub const OUT_OF_ORDER: &'static str = "Authorization step out of order";
/// Message of a completed authorization.
pub const AUTH_SUCCESS: &'static str = "Authentication successful!";

/// Page sent to the browser when the callback's state is refused.
pub const BAD_REQUEST_PAGE: &'static str =
    "HTTP/1.1 400 Bad Request\r\n\r\n<html><body><h1>Authentication failed: Invalid state</h1></body></html>";
/// Page sent to the browser before the code is exchanged.
pub const SUCCESS_PAGE: &'static str =
    "HTTP/1.1 200 OK\r\n\r\n<html><body><h1>Authentication successful!</h1><p>You can close this window and return to Nexus.</p><script>window.close();</script></body></html>";

/// Whether a credential is a placeholder.
pub open spec fn is_placeholder(s: Seq<char>) -> bool {
    PLACEHOLDER_PREFIX@.len() <= s.len() && s.subrange(0, PLACEHOLDER_PREFIX@.len() as int)
        == PLACEHOLDER_PREFIX@
}

/// Whether both credentials are real values.
pub open spec fn configured(client_id: Seq<char>, client_secret: Seq<char>) -> bool {
    !is_placeholder(client_id) && !is_placeholder(client_secret)
}

/// The values made for one authorization: the URL the user opens, the CSRF
/// token it carries, and the PKCE verifier whose digest it carries.
pub struct AuthorizationRequest {
    pub url: String,
    pub csrf_token: String,
    pub pkce_verifier: String,
}

impl AuthorizationRequest {
    /// Built for `client_id` from fresh oauth2 values.
    pub open spec fn made_for(self, client_id: Seq<char>) -> bool {
        &&& self.csrf_token@.len() == 22
        &&& self.pkce_verifier@.len() == 43
        &&& authorization_url_of(
            client_id,
            AUTH_ENDPOINT@,
            REDIRECT_URI@,
            DRIVE_SCOPE@,
            self.csrf_token@,
            self.pkce_verifier@,
        ) == Some(self.url@)
    }
}

/// Where one authorization stands.
pub enum SessionState {
    Idle,
    LaunchingBrowser(AuthorizationRequest),
    Binding(AuthorizationRequest),
    Accepting(AuthorizationRequest),
    ReadingCallback(AuthorizationRequest),
    /// The code is being exchanged, with this PKCE verifier.
    Exchanging(String),
    Finished,
}

/// What the host reports back after doing an action.
pub enum SessionEvent {
    Start { client_id: String, client_secret: String },
    BrowserOpened(Result<(), String>),
    ListenerBound(Result<(), String>),
    ConnectionAccepted(Result<(), String>),
    RequestLineRead(Result<String, String>),
    /// The access token, or the failure's text.
    CodeExchanged(Result<String, String>),
}

/// What the host does next.
pub enum SessionAction {
    OpenBrowser(String),
    BindListener,
    AcceptConnection,
    ReadRequestLine,
    /// Write `page` to the browser connection, close it, then exchange `code`
    /// with `pkce_verifier`.
    RespondAndExchange { page: String, code: String, pkce_verifier: String },
    /// Write `page` to the browser connection, then end with `error`.
    RespondAndFail { page: String, error: String },
    /// End the session with this outcome.
    Finish(Result<AuthResponse, String>),
}

/// The action ends the session with an error of exactly this text.
pub open spec fn fails_with(a: SessionAction, msg: Seq<char>) -> bool {
    a matches SessionAction::Finish(Err(e)) && e@ == msg
}

/// The action ends the session with this response.
pub open spec fn answers(a: SessionAction, success: bool, msg: Seq<char>) -> bool {
    a matches SessionAction::Finish(Ok(resp)) && resp.says(success, msg)
}

/// The transition for a request line that was read.
pub open spec fn callback_step(
    req: AuthorizationRequest,
    line: Seq<char>,
    next: SessionState,
    a: SessionAction,
) -> bool {
    match callback_verdict(line, req.csrf_token@) {
        Some(Ok(code)) => (next matches SessionState::Exchanging(w) && w@ == req.pkce_verifier@)
            && (a matches SessionAction::RespondAndExchange { page, code: c, pkce_verifier: v }
            && page@ == SUCCESS_PAGE@ && c@ == code && v@ == req.pkce_verifier@),
        Some(Err(CallbackError::CsrfMismatch)) => next is Finished && (a matches
            SessionAction::RespondAndFail { page, error } && page@ == BAD_REQUEST_PAGE@ && error@
            == CSRF_MISMATCH@),
        Some(Err(CallbackError::MissingCode)) => next is Finished && fails_with(a, NO_CODE@),
        Some(Err(CallbackError::InvalidRequest)) => next is Finished && fails_with(
            a,
            INVALID_REQUEST@,
        ),
        Some(Err(CallbackError::UrlParse(_))) => false,
        None => next is Finished && (a matches SessionAction::Finish(Err(e)) && e@.len()
            >= URL_PARSE_FAILED@.len() && e@.subrange(0, URL_PARSE_FAILED@.len() as int)
            == URL_PARSE_FAILED@),
    }
}

/// The transition of `step` from `state` on `event` to `next` and `a`.
pub open spec fn step_spec(
    state: SessionState,
    event: SessionEvent,
    next: SessionState,
    a: SessionAction,
) -> bool {
    match (state, event) {
        (SessionState::Idle, SessionEvent::Start { client_id, client_secret }) => if !configured(
            client_id@,
            client_secret@,
        ) {
            next is Finished && answers(a, false, NOT_CONFIGURED@)
        } else {
            match next {
                SessionState::LaunchingBrowser(req) => req.made_for(client_id@) && a
                    == SessionAction::OpenBrowser(req.url),
                SessionState::Finished => fails_with(a, INVALID_AUTH_URL@),
                _ => false,
            }
        },
        (SessionState::LaunchingBrowser(req), SessionEvent::BrowserOpened(res)) => match res {
            Ok(_) => next == SessionState::Binding(req) && a is BindListener,
            Err(e) => next is Finished && fails_with(a, BROWSER_FAILED@ + e@),
        },
        (SessionState::Binding(req), SessionEvent::ListenerBound(res)) => match res {
            Ok(_) => next == SessionState::Accepting(req) && a is AcceptConnection,
            Err(e) => next is Finished && fails_with(a, BIND_FAILED@ + e@),
        },
        (SessionState::Accepting(req), SessionEvent::ConnectionAccepted(res)) => match res {
            Ok(_) => next == SessionState::ReadingCallback(req) && a is ReadRequestLine,
            Err(e) => next is Finished && fails_with(a, ACCEPT_FAILED@ + e@),
        },
        (SessionState::ReadingCallback(req), SessionEvent::RequestLineRead(res)) => match res {
            Ok(line) => callback_step(req, line@, next, a),
            Err(e) => next is Finished && fails_with(a, READ_FAILED@ + e@),
        },
        (SessionState::Exchanging(_), SessionEvent::CodeExchanged(res)) => match res {
            Ok(_) => next is Finished && answers(a, true, AUTH_SUCCESS@),
            Err(e) => next is Finished && fails_with(a, EXCHANGE_FAILED@ + e@),
        },
        _ => next is Finished && fails_with(a, OUT_OF_ORDER@),
    }
}

/// The token that the transition commits, if any.
pub open spec fn committed_token(state: SessionState, event: SessionEvent) -> Option<Seq<char>> {
    match (state, event) {
        (SessionState::Exchanging(_), SessionEvent::CodeExchanged(Ok(t))) => Some(t@),
        _ => None,
    }
}

/// Makes the values of a new authorization: a fresh CSRF token and PKCE
/// verifier, and the URL that carries them.
fn new_request(client_id: &str) -> (r: Option<AuthorizationRequest>)
    ensures
        r matches Some(req) ==> req.made_for(client_id@),
{
    let csrf_token = new_csrf_token();
    let pkce_verifier = new_pkce_verifier();
    match authorization_url(
        client_id,
        AUTH_ENDPOINT,
        REDIRECT_URI,
        DRIVE_SCOPE,
        csrf_token.as_str(),
        pkce_verifier.as_str(),
    ) {
        Some(url) => Some(AuthorizationRequest { url, csrf_token, pkce_verifier }),
        None => None,
    }
}

fn fail(prefix: &str, detail: &str) -> (r: (SessionState, SessionAction))
    ensures
        r.0 is Finished,
        fails_with(r.1, prefix@ + detail@),
{
    (SessionState::Finished, SessionAction::Finish(Err(join(prefix, detail))))
}

/// One step of an authorization: from where it stands and what the host
/// reports, to where it stands next and what the host does next. The token
/// store is written only when a code has been exchanged for a token.
pub fn step(state: SessionState, event: SessionEvent, store: &mut OAuthState) -> (r: (
    SessionState,
    SessionAction,
))
    ensures
        step_spec(state, event, r.0, r.1),
        match committed_token(state, event) {
            Some(t) => final(store)@ == Some(t),
            None => final(store)@ == old(store)@,
        },
{
    match (state, event) {
        (SessionState::Idle, SessionEvent::Start { client_id, client_secret }) => {
            if has_prefix(client_id.as_str(), PLACEHOLDER_PREFIX) || has_prefix(
                client_secret.as_str(),
                PLACEHOLDER_PREFIX,
            ) {
                let resp = AuthResponse { success: false, message: Some(NOT_CONFIGURED.to_owned()) };
                return (SessionState::Finished, SessionAction::Finish(Ok(resp)));
            }
            match new_request(client_id.as_str()) {
                Some(req) => {
                    let url = req.url.clone();
                    (SessionState::LaunchingBrowser(req), SessionAction::OpenBrowser(url))
                },
                None => (
                    SessionState::Finished,
                    SessionAction::Finish(Err(INVALID_AUTH_URL.to_owned())),
                ),
            }
        },
        (SessionState::LaunchingBrowser(req), SessionEvent::BrowserOpened(res)) => match res {
            Ok(_) => (SessionState::Binding(req), SessionAction::BindListener),
            Err(e) => fail(BROWSER_FAILED, e.as_str()),
        },
        (SessionState::Binding(req), SessionEvent::ListenerBound(res)) => match res {
            Ok(_) => (SessionState::Accepting(req), SessionAction::AcceptConnection),
            Err(e) => fail(BIND_FAILED, e.as_str()),
        },
        (SessionState::Accepting(req), SessionEvent::ConnectionAccepted(res)) => match res {
            Ok(_) => (SessionState::ReadingCallback(req), SessionAction::ReadRequestLine),
            Err(e) => fail(ACCEPT_FAILED, e.as_str()),
        },
        (SessionState::ReadingCallback(req), SessionEvent::RequestLineRead(res)) => match res {
            Ok(line) => match read_callback(line.as_str(), req.csrf_token.as_str()) {
                Ok(code) => (
                    SessionState::Exchanging(req.pkce_verifier.clone()),
                    SessionAction::RespondAndExchange {
                        page: SUCCESS_PAGE.to_owned(),
                        code,
                        pkce_verifier: req.pkce_verifier,
                    },
                ),
                Err(CallbackError::CsrfMismatch) => (
                    SessionState::Finished,
                    SessionAction::RespondAndFail {
                        page: BAD_REQUEST_PAGE.to_owned(),
                        error: CSRF_MISMATCH.to_owned(),
                    },
                ),
                Err(e) => {
                    let msg = e.message();
                    assert(e is UrlParse ==> msg@.subrange(0, URL_PARSE_FAILED@.len() as int)
                        =~= URL_PARSE_FAILED@);
                    (SessionState::Finished, SessionAction::Finish(Err(msg)))
                },
            },
            Err(e) => fail(READ_FAILED, e.as_str()),
        },
        (SessionState::Exchanging(_), SessionEvent::CodeExchanged(res)) => match res {
            Ok(token) => {
                store.set_token(token);
                let resp = AuthResponse { success: true, message: Some(AUTH_SUCCESS.to_owned()) };
                (SessionState::Finished, SessionAction::Finish(Ok(resp)))
            },
            Err(e) => fail(EXCHANGE_FAILED, e.as_str()),
        },
        _ => (SessionState::Finished, SessionAction::Finish(Err(OUT_OF_ORDER.to_owned()))),
    }
}

/// A redirect whose `state` is missing or differs from the CSRF token sent
/// ends the session, whatever its code, and no code is exchanged.
pub proof fn lemma_state_mismatch_refused(
    req: AuthorizationRequest,
    line: String,
    target: Seq<char>,
    query: Seq<(Seq<char>, Seq<char>)>,
    next: SessionState,
    a: SessionAction,
)
    requires
        second_word_of(line@) == Some(target),
        query_pairs_of(REDIRECT_ORIGIN@ + target) == Some(query),
        first_value(query, "state"@) != Some(req.csrf_token@),
        step_spec(SessionState::ReadingCallback(req), SessionEvent::RequestLineRead(Ok(line)), next, a),
    ensures
        next is Finished,
        !(a is RespondAndExchange),
{
}

/// A redirect without a code ends the session with that error before any
/// exchange is asked for.
pub proof fn lemma_missing_code_refused(
    req: AuthorizationRequest,
    line: String,
    target: Seq<char>,
    query: Seq<(Seq<char>, Seq<char>)>,
    next: SessionState,
    a: SessionAction,
)
    requires
        second_word_of(line@) == Some(target),
        query_pairs_of(REDIRECT_ORIGIN@ + target) == Some(query),
        first_value(query, "code"@) is None,
        step_spec(SessionState::ReadingCallback(req), SessionEvent::RequestLineRead(Ok(line)), next, a),
    ensures
        next is Finished,
        fails_with(a, NO_CODE@),
        !(a is RespondAndExchange),
{
}

} // verus!
