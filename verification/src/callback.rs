//! The callback half of the flow: parsing the provider's redirect
//! query, validating the CSRF secret strictly before any call to the
//! provider, and deciding what each later network event means. The
//! network calls themselves (token exchange, identity fetch) happen
//! outside; this module fixes what is sent and what every possible
//! answer leads to.

use vstd::prelude::*;
use vstd::string::StringSliceAdditionalSpecFns;

use crate::config::OAuth42Config;
use crate::encoding::{append_bytes, ct_eq, pct_decoded, pct_of, percent_decode, percent_encode};
use crate::redirect::Redirect;
use crate::session::{session_consumed, session_unchanged, Session};
use crate::signing::verify_spec;

verus! {

// ---------------------------------------------------------------
// The two shapes of the provider's redirect query.
// ---------------------------------------------------------------

/// The provider redirected back with an authorization code.
#[derive(Debug)]
pub struct SuccessQuery {
    pub code: Vec<u8>,
    pub state: Vec<u8>,
}

/// The provider redirected back with an error instead.
#[derive(Debug)]
pub struct ErrorQuery {
    pub error: Vec<u8>,
    pub error_description: Option<Vec<u8>>,
}

/// The parsed callback query: one of the two shapes.
#[derive(Debug)]
pub enum CallbackQuery {
    Success(SuccessQuery),
    Error(ErrorQuery),
}

/// The abstract value of a parsed callback query.
pub enum QueryShape {
    Success { code: Seq<u8>, state: Seq<u8> },
    Error { error: Seq<u8>, error_description: Option<Seq<u8>> },
}

impl View for CallbackQuery {
    type V = QueryShape;

    open spec fn view(&self) -> QueryShape {
        match self {
            CallbackQuery::Success(s) => QueryShape::Success { code: s.code@, state: s.state@ },
            CallbackQuery::Error(e) => QueryShape::Error {
                error: e.error@,
                error_description: match e.error_description {
                    Some(d) => Some(d@),
                    None => None,
                },
            },
        }
    }
}

// ---------------------------------------------------------------
// Parsing the raw query string.
// ---------------------------------------------------------------

/// The index of the first `&` at or after `i`, or the end of `q`.
pub open spec fn next_amp(q: Seq<u8>, i: int) -> int
    decreases q.len() - i,
{
    if i < 0 || i >= q.len() {
        q.len() as int
    } else if q[i] == 0x26 {
        i
    } else {
        next_amp(q, i + 1)
    }
}

pub proof fn lemma_next_amp_bounds(q: Seq<u8>, i: int)
    requires
        0 <= i <= q.len(),
    ensures
        i <= next_amp(q, i) <= q.len(),
    decreases q.len() - i,
{
    if i < q.len() && q[i] != 0x26 {
        lemma_next_amp_bounds(q, i + 1);
    }
}

/// The raw (still encoded) value of the first `key=`-segment at or
/// after `i`, the query being split on `&`. Keys are matched
/// byte-for-byte.
pub open spec fn raw_param_from(q: Seq<u8>, key: Seq<u8>, i: int) -> Option<Seq<u8>>
    decreases q.len() - i,
{
    if i < 0 || i >= q.len() {
        None
    } else {
        let j = next_amp(q, i);
        if j - i >= key.len() + 1 && q.subrange(i, i + key.len() as int) == key && q[i
            + key.len() as int] == 0x3d {
            Some(q.subrange(i + key.len() as int + 1, j))
        } else if j >= q.len() {
            None
        } else {
            proof {
                lemma_next_amp_bounds(q, i);
            }
            raw_param_from(q, key, j + 1)
        }
    }
}

/// The decoded value of the first `key=`-segment of the query:
/// `Some(Some(v))` when present and well encoded, `Some(None)` when
/// absent, `None` when present but malformed.
pub open spec fn query_param(q: Seq<u8>, key: Seq<u8>) -> Option<Option<Seq<u8>>> {
    match raw_param_from(q, key, 0) {
        None => Some(None),
        Some(raw) => match pct_decoded(raw) {
            Some(v) => Some(Some(v)),
            None => None,
        },
    }
}

/// What parsing the whole query yields: the success shape when `code`
/// and `state` are both present, else the error shape when `error`
/// is present, else nothing; `None` also on a malformed percent
/// escape in a value that is read.
pub open spec fn parse_query_shape(q: Seq<u8>) -> Option<QueryShape> {
    let code = query_param(q, "code".spec_bytes());
    let state = query_param(q, "state".spec_bytes());
    match (code, state) {
        (Some(Some(c)), Some(Some(s))) => Some(QueryShape::Success { code: c, state: s }),
        (Some(None), Some(None)) => match query_param(q, "error".spec_bytes()) {
            Some(Some(e)) => match query_param(q, "error_description".spec_bytes()) {
                Some(d) => Some(QueryShape::Error { error: e, error_description: d }),
                None => None,
            },
            _ => None,
        },
        _ => None,
    }
}

fn next_amp_exec(q: &[u8], i: usize) -> (r: usize)
    requires
        i <= q@.len(),
    ensures
        r == next_amp(q@, i as int),
        i <= r <= q@.len(),
    decreases q@.len() - i,
{
    if i >= q.len() {
        q.len()
    } else if q[i] == 0x26 {
        i
    } else {
        next_amp_exec(q, i + 1)
    }
}

fn raw_param_from_exec(q: &[u8], key: &[u8], i: usize) -> (r: Option<Vec<u8>>)
    requires
        i <= q@.len(),
    ensures
        match r {
            Some(v) => raw_param_from(q@, key@, i as int) == Some(v@),
            None => raw_param_from(q@, key@, i as int) is None,
        },
    decreases q@.len() - i,
{
    if i >= q.len() {
        None
    } else {
        let j = next_amp_exec(q, i);
        let key_matches: bool = if j - i > key.len() {
            let mut k: usize = 0;
            let mut same = true;
            while k < key.len()
                invariant
                    k <= key@.len(),
                    i + key@.len() < j <= q@.len() || i + key@.len() + 1 <= j <= q@.len(),
                    i + key@.len() <= q@.len(),
                    same <==> (forall|l: int| 0 <= l < k ==> q@[i + l] == key@[l]),
                decreases key@.len() - k,
            {
                if q[i + k] != key[k] {
                    same = false;
                }
                k = k + 1;
            }
            proof {
                if same {
                    assert(q@.subrange(i as int, i + key@.len() as int) =~= key@);
                } else {
                    assert(q@.subrange(i as int, i + key@.len() as int) != key@) by {
                        if q@.subrange(i as int, i + key@.len() as int) == key@ {
                            assert(forall|l: int|
                                0 <= l < key@.len() ==> #[trigger] key@[l] == q@.subrange(
                                    i as int,
                                    i + key@.len() as int,
                                )[l]);
                        }
                    }
                }
            }
            same && q[i + key.len()] == 0x3d
        } else {
            false
        };
        if key_matches {
            let start = i + key.len() + 1;
            let mut value: Vec<u8> = Vec::new();
            let mut m: usize = start;
            while m < j
                invariant
                    start <= j <= q@.len(),
                    start <= m <= j,
                    value@ == q@.subrange(start as int, m as int),
                decreases j - m,
            {
                value.push(q[m]);
                proof {
                    assert(q@.subrange(start as int, m + 1 as int) =~= q@.subrange(
                        start as int,
                        m as int,
                    ).push(q@[m as int]));
                }
                m = m + 1;
            }
            Some(value)
        } else if j >= q.len() {
            None
        } else {
            raw_param_from_exec(q, key, j + 1)
        }
    }
}

fn query_param_exec(q: &[u8], key: &[u8]) -> (r: Option<Option<Vec<u8>>>)
    ensures
        match r {
            Some(Some(v)) => query_param(q@, key@) == Some(Some(v@)),
            Some(None) => query_param(q@, key@) == Some(None::<Seq<u8>>),
            None => query_param(q@, key@) is None,
        },
{
    match raw_param_from_exec(q, key, 0) {
        None => Some(None),
        Some(raw) => match percent_decode(raw.as_slice()) {
            Some(v) => Some(Some(v)),
            None => None,
        },
    }
}

/// Parses the provider's redirect query into one of the two shapes;
/// `None` when the query is neither shape or a value is malformed.
pub fn parse_callback_query(q: &[u8]) -> (r: Option<CallbackQuery>)
    ensures
        match r {
            Some(cq) => parse_query_shape(q@) == Some(cq@),
            None => parse_query_shape(q@) is None,
        },
{
    let code = query_param_exec(q, "code".as_bytes());
    let state = query_param_exec(q, "state".as_bytes());
    match (code, state) {
        (Some(Some(c)), Some(Some(s))) => Some(
            CallbackQuery::Success(SuccessQuery { code: c, state: s }),
        ),
        (Some(None), Some(None)) => {
            let error = query_param_exec(q, "error".as_bytes());
            match error {
                Some(Some(e)) => {
                    let desc = query_param_exec(q, "error_description".as_bytes());
                    match desc {
                        Some(d) => Some(
                            CallbackQuery::Error(ErrorQuery { error: e, error_description: d }),
                        ),
                        None => None,
                    }
                },
                _ => None,
            }
        },
        _ => None,
    }
}

// ---------------------------------------------------------------
// The fixed vocabulary of error redirects.
// ---------------------------------------------------------------

/// The generic message when the provider redirected with an error;
/// the provider's own `error_description` is never echoed.
pub open spec fn msg_provider_error() -> Seq<u8> {
    "42 OAuth2 returned an error. Did you refuse the connection?".spec_bytes()
}

/// The message when no valid CSRF cookie accompanied the callback.
pub open spec fn msg_csrf_not_found() -> Seq<u8> {
    "CSRF token not found in session, may have expired".spec_bytes()
}

/// The message when the stored CSRF secret and the query's `state`
/// differ.
pub open spec fn msg_csrf_mismatch() -> Seq<u8> {
    "CSRF Token mismatch detected".spec_bytes()
}

/// The message when the code-for-token exchange failed.
pub open spec fn msg_exchange_failed() -> Seq<u8> {
    "Failed to exchange authorization code for access token".spec_bytes()
}

/// The message when the identity request could not be sent.
pub open spec fn msg_identity_send_failed() -> Seq<u8> {
    "Failed to send user data request to OAuth2 provider".spec_bytes()
}

/// The message when the identity response could not be parsed.
pub open spec fn msg_identity_parse_failed() -> Seq<u8> {
    "Failed to parse user data returned by OAuth2 provider".spec_bytes()
}

/// The error page target carrying a percent-encoded message.
pub open spec fn error_redirect_target(msg: Seq<u8>) -> Seq<u8> {
    "/error?error=".spec_bytes() + pct_of(msg)
}

/// Builds the redirect to the error page, with the message
/// percent-encoded into the query.
pub fn create_error_redirect(error_msg: &[u8]) -> (r: Redirect)
    ensures
        r.target@ == error_redirect_target(error_msg@),
{
    let mut target = vstd::slice::slice_to_vec("/error?error=".as_bytes());
    let encoded = percent_encode(error_msg);
    append_bytes(&mut target, encoded.as_slice());
    Redirect::to(target)
}

// ---------------------------------------------------------------
// The transitions of the callback state machine.
// ---------------------------------------------------------------

/// Accepts the success shape; a provider-error shape becomes the
/// generic error redirect, whatever the error and its description
/// said.
pub fn get_success_query(query: CallbackQuery) -> (r: Result<SuccessQuery, Redirect>)
    ensures
        match query@ {
            QueryShape::Success { code, state } => (r matches Ok(s) && s.code@ == code
                && s.state@ == state),
            QueryShape::Error { .. } => (r matches Err(rd) && rd.target@ == error_redirect_target(
                msg_provider_error(),
            )),
        },
{
    match query {
        CallbackQuery::Success(success_query) => Ok(success_query),
        CallbackQuery::Error(_) => Err(
            create_error_redirect(
                "42 OAuth2 returned an error. Did you refuse the connection?".as_bytes(),
            ),
        ),
    }
}

/// What CSRF validation decides, given the raw stored cookie, the
/// signing key, and the `state` the query carried.
pub enum CsrfOutcome {
    Accepted,
    Missing,
    Mismatch,
}

/// The raw value of an optional cookie.
pub open spec fn opt_bytes(c: Option<Vec<u8>>) -> Option<Seq<u8>> {
    match c {
        Some(v) => Some(v@),
        None => None,
    }
}

/// The CSRF decision: missing when no cookie came or its signature
/// fails, mismatch when the verified secret differs from `received`,
/// accepted otherwise.
pub open spec fn csrf_check(key: Seq<u8>, stored: Option<Seq<u8>>, received: Seq<u8>) -> CsrfOutcome {
    match stored {
        None => CsrfOutcome::Missing,
        Some(raw) => match verify_spec(key, raw) {
            None => CsrfOutcome::Missing,
            Some(token) => if token == received {
                CsrfOutcome::Accepted
            } else {
                CsrfOutcome::Mismatch
            },
        },
    }
}

/// Validates the query's `state` against the stored CSRF secret,
/// strictly before any call to the provider. The pop consumes the
/// cookie, so a mismatch still spends it; a missing or invalid
/// cookie leaves the session as it stood. The comparison of the two
/// secrets runs in constant time.
pub fn validate_csrf_token(
    received_token: &[u8],
    session: &mut Session,
    oauth_42_config: &OAuth42Config,
) -> (r: Result<(), Redirect>)
    ensures
        match csrf_check(
            oauth_42_config.state_cookie_signing_key@,
            opt_bytes(old(session).csrf_cookie),
            received_token@,
        ) {
            CsrfOutcome::Accepted => (r is Ok && session_consumed(*old(session), *final(session))),
            CsrfOutcome::Missing => {
                &&& r matches Err(rd) && rd.target@ == error_redirect_target(msg_csrf_not_found())
                &&& session_unchanged(*old(session), *final(session))
            },
            CsrfOutcome::Mismatch => {
                &&& r matches Err(rd) && rd.target@ == error_redirect_target(msg_csrf_mismatch())
                &&& session_consumed(*old(session), *final(session))
            },
        },
{
    let stored_token = match session.pop_oauth_42_csrf_token(oauth_42_config) {
        Some(t) => t,
        None => {
            return Err(
                create_error_redirect(
                    "CSRF token not found in session, may have expired".as_bytes(),
                ),
            );
        },
    };
    if !ct_eq(stored_token.as_slice(), received_token) {
        return Err(create_error_redirect("CSRF Token mismatch detected".as_bytes()));
    }
    Ok(())
}

/// The provider-reported identity of the authenticated user: the
/// flow's final artifact.
#[derive(Debug)]
pub struct User42Data {
    pub id: i32,
    pub email: Vec<u8>,
    pub login: Vec<u8>,
}

/// What the identity fetch came back with: the parsed identity, or
/// one of the two ways it failed.
#[derive(Debug)]
pub enum IdentityFetchEvent {
    Received(User42Data),
    SendFailed,
    ParseFailed,
}

/// Decides what the token exchange's answer means: the access token
/// when one came back, else the terminal exchange-failure redirect —
/// the one-time code must not be spent twice, so there is no retry.
pub fn token_exchange_outcome(result: Option<Vec<u8>>) -> (r: Result<Vec<u8>, Redirect>)
    ensures
        match result {
            Some(token) => r matches Ok(t) && t == token,
            None => (r matches Err(rd) && rd.target@ == error_redirect_target(
                msg_exchange_failed(),
            )),
        },
{
    match result {
        Some(token) => Ok(token),
        None => Err(
            create_error_redirect("Failed to exchange authorization code for access token".as_bytes()),
        ),
    }
}

/// Decides what the identity fetch's answer means: the identity, or
/// the terminal redirect naming which of the two steps failed.
pub fn identity_fetch_outcome(event: IdentityFetchEvent) -> (r: Result<User42Data, Redirect>)
    ensures
        match event {
            IdentityFetchEvent::Received(u) => r matches Ok(v) && v == u,
            IdentityFetchEvent::SendFailed => (r matches Err(rd) && rd.target@
                == error_redirect_target(msg_identity_send_failed())),
            IdentityFetchEvent::ParseFailed => (r matches Err(rd) && rd.target@
                == error_redirect_target(msg_identity_parse_failed())),
        },
{
    match event {
        IdentityFetchEvent::Received(u) => Ok(u),
        IdentityFetchEvent::SendFailed => Err(
            create_error_redirect("Failed to send user data request to OAuth2 provider".as_bytes()),
        ),
        IdentityFetchEvent::ParseFailed => Err(
            create_error_redirect("Failed to parse user data returned by OAuth2 provider".as_bytes()),
        ),
    }
}

/// The part of the callback that runs before any network call:
/// accepts the success shape and validates CSRF. `Ok` carries the
/// authorization code to exchange; `Err` is the terminal error
/// redirect.
pub fn begin_callback(
    query: CallbackQuery,
    session: &mut Session,
    oauth_42_config: &OAuth42Config,
) -> (r: Result<Vec<u8>, Redirect>)
    ensures
        match query@ {
            QueryShape::Error { .. } => {
                &&& r matches Err(rd) && rd.target@ == error_redirect_target(msg_provider_error())
                &&& session_unchanged(*old(session), *final(session))
            },
            QueryShape::Success { code, state } => match csrf_check(
                oauth_42_config.state_cookie_signing_key@,
                opt_bytes(old(session).csrf_cookie),
                state,
            ) {
                CsrfOutcome::Accepted => {
                    &&& r matches Ok(c) && c@ == code
                    &&& session_consumed(*old(session), *final(session))
                },
                CsrfOutcome::Missing => {
                    &&& r matches Err(rd) && rd.target@ == error_redirect_target(
                        msg_csrf_not_found(),
                    )
                    &&& session_unchanged(*old(session), *final(session))
                },
                CsrfOutcome::Mismatch => {
                    &&& r matches Err(rd) && rd.target@ == error_redirect_target(
                        msg_csrf_mismatch(),
                    )
                    &&& session_consumed(*old(session), *final(session))
                },
            },
        },
{
    let success_query = match get_success_query(query) {
        Ok(s) => s,
        Err(rd) => {
            return Err(rd);
        },
    };
    match validate_csrf_token(success_query.state.as_slice(), session, oauth_42_config) {
        Ok(()) => Ok(success_query.code),
        Err(rd) => Err(rd),
    }
}

/// The terminal success transition: the identity is confirmed and
/// the browser goes back to the application home page.
pub fn complete_callback(user: &User42Data) -> (r: Redirect)
    ensures
        r.target@ == "/".spec_bytes(),
{
    Redirect::to(vstd::slice::slice_to_vec("/".as_bytes()))
}

} // verus!
