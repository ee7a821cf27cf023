//! The flow's cross-function guarantees, stated over the same spec
//! functions the contracts of `session`, `signing` and `callback`
//! use. The signing guarantees themselves (round trip, tamper
//! detection) stand beside `sign_value` and `verify_value`.

use vstd::prelude::*;
use vstd::string::StringSliceAdditionalSpecFns;

use crate::callback::{
    csrf_check, error_redirect_target, msg_csrf_mismatch, msg_csrf_not_found, msg_exchange_failed,
    msg_identity_parse_failed, msg_identity_send_failed, msg_provider_error, opt_bytes,
    CsrfOutcome, IdentityFetchEvent, QueryShape,
};
use crate::crypto::mac_of;
use crate::session::{session_consumed, Session};
use crate::signing::{lemma_sign_verify_round_trip, sign_spec, verify_spec};

verus! {

/// Where the callback ends up, given the stored cookie and what each
/// network step answered: the summary of the chain `begin_callback`
/// then `token_exchange_outcome` then `identity_fetch_outcome` then
/// `complete_callback`, whose contracts each state one step of it.
pub open spec fn callback_flow_target(
    key: Seq<u8>,
    stored: Option<Seq<u8>>,
    shape: QueryShape,
    exchange_result: Option<Seq<u8>>,
    identity_event: IdentityFetchEvent,
) -> Seq<u8> {
    match shape {
        QueryShape::Error { .. } => error_redirect_target(msg_provider_error()),
        QueryShape::Success { code, state } => match csrf_check(key, stored, state) {
            CsrfOutcome::Missing => error_redirect_target(msg_csrf_not_found()),
            CsrfOutcome::Mismatch => error_redirect_target(msg_csrf_mismatch()),
            CsrfOutcome::Accepted => match exchange_result {
                None => error_redirect_target(msg_exchange_failed()),
                Some(_) => match identity_event {
                    IdentityFetchEvent::SendFailed => error_redirect_target(
                        msg_identity_send_failed(),
                    ),
                    IdentityFetchEvent::ParseFailed => error_redirect_target(
                        msg_identity_parse_failed(),
                    ),
                    IdentityFetchEvent::Received(_) => "/".spec_bytes(),
                },
            },
        },
    }
}

/// A callback whose `state` matches the secret inside the stored,
/// validly signed cookie passes CSRF validation. The hypothesis on
/// the tag length holds of every tag the trusted HMAC binding
/// returns.
pub proof fn lemma_matching_state_accepted(key: Seq<u8>, token: Seq<u8>)
    ensures
        mac_of(key, token).len() == 32 ==> csrf_check(
            key,
            Some(sign_spec(key, token)),
            token,
        ) is Accepted,
{
    lemma_sign_verify_round_trip(key, token);
}

/// A valid pair of code and matching state, followed by a successful
/// exchange and a parsed identity, ends at the home page.
pub proof fn lemma_valid_callback_reaches_home(
    key: Seq<u8>,
    token: Seq<u8>,
    code: Seq<u8>,
    exchanged: Seq<u8>,
    user: crate::callback::User42Data,
)
    ensures
        mac_of(key, token).len() == 32 ==> callback_flow_target(
            key,
            Some(sign_spec(key, token)),
            QueryShape::Success { code: code, state: token },
            Some(exchanged),
            IdentityFetchEvent::Received(user),
        ) == "/".spec_bytes(),
{
    lemma_matching_state_accepted(key, token);
}

/// A callback without a CSRF cookie fails as missing, whatever
/// `state` it supplies.
pub proof fn lemma_missing_cookie_rejected(key: Seq<u8>, state: Seq<u8>)
    ensures
        csrf_check(key, None, state) is Missing,
{
}

/// A callback whose `state` differs from the secret the stored
/// cookie verifies to fails as a mismatch, however validly the
/// cookie is signed.
pub proof fn lemma_state_mismatch_rejected(key: Seq<u8>, raw: Seq<u8>, state: Seq<u8>)
    ensures
        (verify_spec(key, raw) matches Some(token) && token != state) ==> csrf_check(
            key,
            Some(raw),
            state,
        ) is Mismatch,
{
}

/// A callback whose `state` differs from the secret the most recent
/// login stored is rejected as a mismatch, even though the cookie is
/// present and validly signed.
pub proof fn lemma_fresh_cookie_wrong_state_rejected(key: Seq<u8>, token: Seq<u8>, state: Seq<u8>)
    ensures
        (mac_of(key, token).len() == 32 && state != token) ==> csrf_check(
            key,
            Some(sign_spec(key, token)),
            state,
        ) is Mismatch,
{
    lemma_sign_verify_round_trip(key, token);
}

/// The CSRF cookie is single-use: once a callback has consumed it,
/// the session holds none, so replaying the same `state` fails as
/// missing.
pub proof fn lemma_csrf_single_use(
    before: Session,
    after: Session,
    key: Seq<u8>,
    replayed_state: Seq<u8>,
)
    ensures
        session_consumed(before, after) ==> csrf_check(
            key,
            opt_bytes(after.csrf_cookie),
            replayed_state,
        ) is Missing,
{
}

/// A provider-error shape always yields the one generic error
/// redirect: the outcome does not depend on the error, on its
/// description, or on anything else.
pub proof fn lemma_provider_error_is_generic(
    key: Seq<u8>,
    stored: Option<Seq<u8>>,
    error: Seq<u8>,
    error_description: Option<Seq<u8>>,
    exchange_result: Option<Seq<u8>>,
    identity_event: IdentityFetchEvent,
)
    ensures
        callback_flow_target(
            key,
            stored,
            QueryShape::Error { error: error, error_description: error_description },
            exchange_result,
            identity_event,
        ) == error_redirect_target(msg_provider_error()),
{
}

} // verus!
