//! The login half of the flow: mint a fresh CSRF secret, store it
//! signed in the scoped cookie, and send the browser to the
//! provider's authorization endpoint with the secret as `state`.

use vstd::prelude::*;
use vstd::string::StringSliceAdditionalSpecFns;

use crate::config::OAuth42Config;
use crate::crypto::random_bytes;
use crate::encoding::{append_bytes, hex_encode, pct_of, percent_encode};
use crate::redirect::Redirect;
use crate::session::{is_csrf_set_cookie, Session};

verus! {

/// The provider authorization URL for one login attempt: the client
/// identity, the redirect target, the requested scope, the code
/// response type, and the CSRF secret as `state`.
pub open spec fn authorization_url(config: OAuth42Config, token: Seq<u8>) -> Seq<u8> {
    config.auth_url@ + "?response_type=code&client_id=".spec_bytes() + pct_of(config.client_id@)
        + "&redirect_uri=".spec_bytes() + pct_of(config.redirect_url@)
        + "&scope=public&state=".spec_bytes() + pct_of(token)
}

/// Builds the authorization redirect for a given CSRF secret and
/// stores the secret, signed, in the response's scoped cookie.
pub fn login_redirect_with_token(
    csrf_token: &[u8],
    session: &mut Session,
    oauth_42_config: &OAuth42Config,
) -> (r: Redirect)
    ensures
        r.target@ == authorization_url(*oauth_42_config, csrf_token@),
        final(session).csrf_cookie == old(session).csrf_cookie,
        final(session).response_cookies@.len() == old(session).response_cookies@.len() + 1,
        final(session).response_cookies@.drop_last() == old(session).response_cookies@,
        is_csrf_set_cookie(
            final(session).response_cookies@.last(),
            oauth_42_config.state_cookie_signing_key@,
            csrf_token@,
            oauth_42_config.secure_cookies,
        ),
{
    let mut url = vstd::slice::slice_to_vec(oauth_42_config.auth_url.as_slice());
    append_bytes(&mut url, "?response_type=code&client_id=".as_bytes());
    let client_id = percent_encode(oauth_42_config.client_id.as_slice());
    append_bytes(&mut url, client_id.as_slice());
    append_bytes(&mut url, "&redirect_uri=".as_bytes());
    let redirect_url = percent_encode(oauth_42_config.redirect_url.as_slice());
    append_bytes(&mut url, redirect_url.as_slice());
    append_bytes(&mut url, "&scope=public&state=".as_bytes());
    let state = percent_encode(csrf_token);
    append_bytes(&mut url, state.as_slice());
    session.set_oauth_42_csrf_token(csrf_token, oauth_42_config);
    Redirect::to(url)
}

/// Begins a login: mints a fresh 256-bit CSRF secret, rendered as 64
/// hex characters, stores it signed in the scoped cookie, and returns
/// the redirect to the provider's authorization URL. Hex passes
/// percent-encoding unchanged, so the URL carries the secret verbatim
/// as its `state` parameter.
pub fn begin_login(session: &mut Session, oauth_42_config: &OAuth42Config) -> (r: Redirect)
    ensures
        exists|token: Seq<u8>|
            {
                &&& token.len() == 64
                &&& pct_of(token) == token
                &&& r.target@ == #[trigger] authorization_url(*oauth_42_config, token)
                &&& final(session).csrf_cookie == old(session).csrf_cookie
                &&& final(session).response_cookies@.len() == old(
                    session,
                ).response_cookies@.len() + 1
                &&& final(session).response_cookies@.drop_last() == old(
                    session,
                ).response_cookies@
                &&& is_csrf_set_cookie(
                    final(session).response_cookies@.last(),
                    oauth_42_config.state_cookie_signing_key@,
                    token,
                    oauth_42_config.secure_cookies,
                )
            },
{
    let secret = random_bytes(32);
    let token = hex_encode(secret.as_slice());
    let r = login_redirect_with_token(token.as_slice(), session, oauth_42_config);
    proof {
        crate::encoding::lemma_hex_of_unreserved(secret@);
        crate::encoding::lemma_pct_of_unreserved(token@);
        assert(r.target@ == authorization_url(*oauth_42_config, token@));
    }
    r
}

} // verus!
