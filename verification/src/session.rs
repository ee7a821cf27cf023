//! The per-request session: the CSRF cookie the browser sent, and the
//! cookie operations the response will carry back. All cross-request
//! state of the flow lives in this one signed cookie; reading it is
//! read-once.

use vstd::prelude::*;
use vstd::slice::slice_to_vec;
use vstd::string::StringSliceAdditionalSpecFns;

use crate::config::OAuth42Config;
use crate::signing::{sign_spec, sign_value, verify_spec, verify_value};

verus! {

/// The name of the CSRF cookie.
pub open spec fn csrf_cookie_name() -> Seq<u8> {
    "oauth_42_csrf_token".spec_bytes()
}

/// The path the CSRF cookie is scoped to: only the callback route of
/// this flow ever sees it.
pub open spec fn csrf_cookie_path() -> Seq<u8> {
    "/api/auth/42/".spec_bytes()
}

/// How long the CSRF cookie lives, in seconds: short, to bound the
/// window in which a login attempt can be completed.
pub const CSRF_COOKIE_MAX_AGE_SECONDS: u64 = 180;

/// A cookie the response sets, with its attributes.
#[derive(Debug)]
pub struct SetCookie {
    pub name: Vec<u8>,
    pub value: Vec<u8>,
    pub http_only: bool,
    pub same_site_lax: bool,
    pub secure: bool,
    pub max_age_seconds: u64,
    pub path: Vec<u8>,
}

/// The cookie that stores a freshly signed CSRF secret: HttpOnly,
/// SameSite=Lax, path-scoped to the callback route, short-lived, and
/// Secure when the configuration asks for it.
pub open spec fn is_csrf_set_cookie(c: SetCookie, key: Seq<u8>, token: Seq<u8>, secure: bool) -> bool {
    &&& c.name@ == csrf_cookie_name()
    &&& c.value@ == sign_spec(key, token)
    &&& c.http_only
    &&& c.same_site_lax
    &&& c.secure == secure
    &&& c.max_age_seconds == CSRF_COOKIE_MAX_AGE_SECONDS
    &&& c.path@ == csrf_cookie_path()
}

/// The cookie that clears a consumed CSRF secret from the browser.
pub open spec fn is_csrf_removal_cookie(c: SetCookie) -> bool {
    &&& c.name@ == csrf_cookie_name()
    &&& c.value@ == Seq::<u8>::empty()
    &&& c.max_age_seconds == 0
}

/// The session after an operation that left it alone.
pub open spec fn session_unchanged(before: Session, after: Session) -> bool {
    &&& after.csrf_cookie == before.csrf_cookie
    &&& after.response_cookies == before.response_cookies
}

/// The session after the CSRF cookie was consumed: the incoming
/// cookie is gone, and the response clears it in the browser too.
pub open spec fn session_consumed(before: Session, after: Session) -> bool {
    &&& after.csrf_cookie is None
    &&& after.response_cookies@.len() == before.response_cookies@.len() + 1
    &&& after.response_cookies@.drop_last() == before.response_cookies@
    &&& is_csrf_removal_cookie(after.response_cookies@.last())
}

/// The request's view of the CSRF cookie, and the response's cookie
/// operations.
#[derive(Debug)]
pub struct Session {
    /// The raw (signed) value of the CSRF cookie the browser sent,
    /// if any; consumed by a successful pop.
    pub csrf_cookie: Option<Vec<u8>>,
    /// The cookies the response will set, in order.
    pub response_cookies: Vec<SetCookie>,
}

impl Session {
    /// A session for one incoming request; `csrf_cookie` is the raw
    /// value of the CSRF cookie, if the browser sent one.
    pub fn new(csrf_cookie: Option<Vec<u8>>) -> (s: Session)
        ensures
            s.csrf_cookie == csrf_cookie,
            s.response_cookies@ =~= Seq::<SetCookie>::empty(),
    {
        Session { csrf_cookie: csrf_cookie, response_cookies: Vec::new() }
    }

    /// Stores a CSRF secret: signs it under the configuration's key
    /// and appends the scoped, short-lived cookie to the response.
    pub fn set_oauth_42_csrf_token(&mut self, csrf_token: &[u8], oauth_42_config: &OAuth42Config)
        ensures
            final(self).csrf_cookie == old(self).csrf_cookie,
            final(self).response_cookies@.len() == old(self).response_cookies@.len() + 1,
            final(self).response_cookies@.drop_last() =~= old(self).response_cookies@,
            is_csrf_set_cookie(
                final(self).response_cookies@.last(),
                oauth_42_config.state_cookie_signing_key@,
                csrf_token@,
                oauth_42_config.secure_cookies,
            ),
    {
        let value = sign_value(csrf_token, oauth_42_config.state_cookie_signing_key.as_slice());
        let cookie = SetCookie {
            name: slice_to_vec("oauth_42_csrf_token".as_bytes()),
            value,
            http_only: true,
            same_site_lax: true,
            secure: oauth_42_config.secure_cookies,
            max_age_seconds: CSRF_COOKIE_MAX_AGE_SECONDS,
            path: slice_to_vec("/api/auth/42/".as_bytes()),
        };
        self.response_cookies.push(cookie);
    }

    /// Takes the stored CSRF secret, if the browser sent a cookie
    /// whose signature verifies: returns the verified value, consumes
    /// the incoming cookie, and appends the removal cookie to the
    /// response. A missing or tampered cookie yields `None`, with no
    /// word on which of the two it was, and leaves the session as it
    /// stood.
    pub fn pop_oauth_42_csrf_token(&mut self, oauth_42_config: &OAuth42Config) -> (r: Option<
        Vec<u8>,
    >)
        ensures
            match old(self).csrf_cookie {
                None => {
                    &&& r is None
                    &&& final(self).csrf_cookie == old(self).csrf_cookie
                    &&& final(self).response_cookies == old(self).response_cookies
                },
                Some(raw) => match verify_spec(
                    oauth_42_config.state_cookie_signing_key@,
                    raw@,
                ) {
                    None => {
                        &&& r is None
                        &&& final(self).csrf_cookie == old(self).csrf_cookie
                        &&& final(self).response_cookies == old(self).response_cookies
                    },
                    Some(token) => {
                        &&& r matches Some(v) && v@ == token
                        &&& final(self).csrf_cookie is None
                        &&& final(self).response_cookies@.len() == old(
                            self,
                        ).response_cookies@.len() + 1
                        &&& final(self).response_cookies@.drop_last() =~= old(
                            self,
                        ).response_cookies@
                        &&& is_csrf_removal_cookie(final(self).response_cookies@.last())
                    },
                },
            },
    {
        let verified: Option<Vec<u8>> = match &self.csrf_cookie {
            None => None,
            Some(raw) => verify_value(
                raw.as_slice(),
                oauth_42_config.state_cookie_signing_key.as_slice(),
            ),
        };
        match verified {
            None => None,
            Some(token) => {
                self.csrf_cookie = None;
                let removal = SetCookie {
                    name: slice_to_vec("oauth_42_csrf_token".as_bytes()),
                    value: Vec::new(),
                    http_only: true,
                    same_site_lax: true,
                    secure: false,
                    max_age_seconds: 0,
                    path: Vec::new(),
                };
                self.response_cookies.push(removal);
                Some(token)
            },
        }
    }
}

} // verus!
