use vstd::prelude::*;
use crate::text::join;
use crate::types::opt_text;

verus! {

/// Origin against which the target of the redirect's request line is read.
pub const REDIRECT_ORIGIN: &'static str = "http://localhost:3000";

/// A query as a sequence of (key, value) texts, in order.
pub open spec fn pairs_view(v: Seq<(String, String)>) -> Seq<(Seq<char>, Seq<char>)> {
    v.map_values(|p: (String, String)| (p.0@, p.1@))
}

/// The value of the first pair whose key is `key`.
pub open spec fn first_value(pairs: Seq<(Seq<char>, Seq<char>)>, key: Seq<char>) -> Option<Seq<char>>
    decreases pairs.len(),
{
    if pairs.len() == 0 {
        None
    } else if pairs[0].0 == key {
        Some(pairs[0].1)
    } else {
        first_value(pairs.drop_first(), key)
    }
}

/// The second whitespace-separated word of a line.
pub uninterp spec fn second_word_of(line: Seq<char>) -> Option<Seq<char>>;

/// The decoded query pairs of a URL, or nothing where the text is not a URL.
pub uninterp spec fn query_pairs_of(url: Seq<char>) -> Option<Seq<(Seq<char>, Seq<char>)>>;

/// Relies on `str::split_whitespace`: its second item.
#[verifier::external_body]
fn second_word(line: &str) -> (r: Option<String>)
    ensures
        opt_text(r) == second_word_of(line@),
{
    line.split_whitespace().nth(1).map(|w| w.to_string())
}

/// Relies on `url::Url::parse` and `Url::query_pairs`: the percent-decoded
/// query pairs in order, or the parser's error text.
#[verifier::external_body]
fn parse_query(url_text: &str) -> (r: Result<Vec<(String, String)>, String>)
    ensures
        match r {
            Ok(v) => query_pairs_of(url_text@) == Some(pairs_view(v@)),
            Err(_) => query_pairs_of(url_text@) is None,
        },
{
    match url::Url::parse(url_text) {
        Ok(u) => Ok(u.query_pairs().map(|(k, v)| (k.into_owned(), v.into_owned())).collect()),
        Err(e) => Err(e.to_string()),
    }
}

/// Why a redirect request was refused.
#[derive(Debug)]
pub enum CallbackError {
    /// The request line has no target.
    InvalidRequest,
    /// The target does not make a URL; the parser's explanation.
    UrlParse(String),
    /// The query has no `code`.
    MissingCode,
    /// The query's `state` is missing or differs from the one sent.
    CsrfMismatch,
}

/// Message for a request line without a target.
pub const INVALID_REQUEST: &'static str = "Invalid request";
/// Start of the message for a target that does not make a URL.
pub const URL_PARSE_FAILED: &'static str = "Failed to parse URL: ";
/// Message for a callback without an authorization code.
pub const NO_CODE: &'static str = "no authorization code in callback";
/// Message for a callback whose state is not the one sent.
pub const CSRF_MISMATCH: &'static str = "CSRF token mismatch";

impl CallbackError {
    /// The text shown to the user.
    pub fn message(&self) -> (r: String)
        ensures
            match self {
                CallbackError::InvalidRequest => r@ == INVALID_REQUEST@,
                CallbackError::UrlParse(e) => r@ == URL_PARSE_FAILED@ + e@,
                CallbackError::MissingCode => r@ == NO_CODE@,
                CallbackError::CsrfMismatch => r@ == CSRF_MISMATCH@,
            },
    {
        match self {
            CallbackError::InvalidRequest => INVALID_REQUEST.to_owned(),
            CallbackError::UrlParse(e) => join(URL_PARSE_FAILED, e.as_str()),
            CallbackError::MissingCode => NO_CODE.to_owned(),
            CallbackError::CsrfMismatch => CSRF_MISMATCH.to_owned(),
        }
    }
}

/// What a request line yields: the authorization code, or why it was refused.
pub open spec fn callback_verdict(line: Seq<char>, expected_state: Seq<char>) -> Option<Result<Seq<char>, CallbackError>> {
    match second_word_of(line) {
        None => Some(Err(CallbackError::InvalidRequest)),
        Some(target) => match query_pairs_of(REDIRECT_ORIGIN@ + target) {
            // the parser's text is not modelled
            None => None,
            Some(q) => match first_value(q, "code"@) {
                None => Some(Err(CallbackError::MissingCode)),
                Some(code) => if first_value(q, "state"@) == Some(expected_state) {
                    Some(Ok(code))
                } else {
                    Some(Err(CallbackError::CsrfMismatch))
                },
            },
        },
    }
}

/// The value of the first pair keyed `key`.
fn find_value(pairs: &Vec<(String, String)>, key: &str) -> (r: Option<String>)
    ensures
        opt_text(r) == first_value(pairs_view(pairs@), key@),
{
    let ghost pv = pairs_view(pairs@);
    let wanted = key.to_owned();
    let mut i: usize = 0;
    assert(pv.subrange(0, pv.len() as int) =~= pv);
    while i < pairs.len()
        invariant
            pv == pairs_view(pairs@),
            wanted@ == key@,
            0 <= i <= pairs.len(),
            first_value(pv, key@) == first_value(pv.subrange(i as int, pv.len() as int), key@),
        decreases pairs.len() - i,
    {
        let ghost rest = pv.subrange(i as int, pv.len() as int);
        assert(rest[0] == pv[i as int]);
        if pairs[i].0 == wanted {
            return Some(pairs[i].1.clone());
        }
        assert(rest.drop_first() =~= pv.subrange(i + 1, pv.len() as int));
        i = i + 1;
    }
    None
}

/// Reads the redirect's request line (`GET <target> HTTP/1.1`): the target
/// is taken relative to the redirect origin, and the code it carries is
/// accepted only where its `state` is exactly `expected_state`.
pub fn read_callback(request_line: &str, expected_state: &str) -> (r: Result<String, CallbackError>)
    ensures
        callback_verdict(request_line@, expected_state@) matches Some(v) ==> match v {
            Ok(code) => r matches Ok(c) && c@ == code,
            Err(CallbackError::InvalidRequest) => r matches Err(CallbackError::InvalidRequest),
            Err(CallbackError::MissingCode) => r matches Err(CallbackError::MissingCode),
            Err(CallbackError::CsrfMismatch) => r matches Err(CallbackError::CsrfMismatch),
            Err(CallbackError::UrlParse(_)) => false,
        },
        callback_verdict(request_line@, expected_state@) is None ==> r is Err && r->Err_0 is UrlParse,
{
    let target = match second_word(request_line) {
        Some(t) => t,
        None => return Err(CallbackError::InvalidRequest),
    };
    let url = join(REDIRECT_ORIGIN, target.as_str());
    let pairs = match parse_query(url.as_str()) {
        Ok(p) => p,
        Err(e) => return Err(CallbackError::UrlParse(e)),
    };
    let code = match find_value(&pairs, "code") {
        Some(c) => c,
        None => return Err(CallbackError::MissingCode),
    };
    let state_ok = match find_value(&pairs, "state") {
        Some(s) => s == expected_state.to_owned(),
        None => false,
    };
    if state_ok {
        Ok(code)
    } else {
        Err(CallbackError::CsrfMismatch)
    }
}

} // verus!
