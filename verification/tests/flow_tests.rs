use auth_gateway::callback::{
    begin_callback, complete_callback, create_error_redirect, get_success_query,
    identity_fetch_outcome, parse_callback_query, token_exchange_outcome, validate_csrf_token,
    CallbackQuery, ErrorQuery, IdentityFetchEvent, SuccessQuery, User42Data,
};
use auth_gateway::config::OAuth42Config;
use auth_gateway::login::begin_login;
use auth_gateway::session::Session;
use auth_gateway::signing::{sign_value, verify_value};

fn config() -> OAuth42Config {
    OAuth42Config::new(
        Some(b"client-id".to_vec()),
        Some(b"client-secret".to_vec()),
        Some(b"https://provider.example/oauth/authorize".to_vec()),
        Some(b"https://provider.example/oauth/token".to_vec()),
        Some(b"https://app.example/api/auth/42/callback".to_vec()),
        Some(b"0123456789abcdef0123456789abcdef".to_vec()),
        true,
    )
    .unwrap()
}

fn ascii(v: &[u8]) -> String {
    String::from_utf8(v.to_vec()).unwrap()
}

/// Runs a login and hands back the `state` token from the URL and the
/// signed cookie value the response set.
fn run_login(config: &OAuth42Config) -> (String, Vec<u8>) {
    let mut session = Session::new(None);
    let redirect = begin_login(&mut session, config);
    let url = ascii(&redirect.target);
    let (_, token) = url.rsplit_once("state=").unwrap();
    assert_eq!(session.response_cookies.len(), 1);
    let cookie = &session.response_cookies[0];
    (token.to_string(), cookie.value.clone())
}

#[test]
fn login_builds_authorization_url_and_cookie() {
    let config = config();
    let mut session = Session::new(None);
    let redirect = begin_login(&mut session, &config);
    let url = ascii(&redirect.target);
    assert!(url.starts_with(
        "https://provider.example/oauth/authorize?response_type=code&client_id=client-id\
         &redirect_uri=https%3A%2F%2Fapp.example%2Fapi%2Fauth%2F42%2Fcallback\
         &scope=public&state="
    ));
    let (_, token) = url.rsplit_once("state=").unwrap();
    assert!(token.len() >= 32);
    assert!(token.bytes().all(|b| b.is_ascii_hexdigit()));

    let cookie = &session.response_cookies[0];
    assert_eq!(cookie.name, b"oauth_42_csrf_token".to_vec());
    assert_eq!(cookie.path, b"/api/auth/42/".to_vec());
    assert!(cookie.http_only);
    assert!(cookie.same_site_lax);
    assert!(cookie.secure);
    assert_eq!(cookie.max_age_seconds, 180);
    assert_eq!(
        verify_value(&cookie.value, &config.state_cookie_signing_key),
        Some(token.as_bytes().to_vec())
    );
}

#[test]
fn two_logins_mint_distinct_secrets() {
    let config = config();
    let (token_a, _) = run_login(&config);
    let (token_b, _) = run_login(&config);
    assert_ne!(token_a, token_b);
}

#[test]
fn valid_callback_reaches_home() {
    let config = config();
    let (token, cookie) = run_login(&config);
    let mut session = Session::new(Some(cookie));
    let raw_query = format!("code=abc123&state={token}");
    let query = parse_callback_query(raw_query.as_bytes()).unwrap();
    let code = begin_callback(query, &mut session, &config).unwrap();
    assert_eq!(code, b"abc123".to_vec());
    let token = token_exchange_outcome(Some(b"access-token".to_vec())).unwrap();
    assert_eq!(token, b"access-token".to_vec());
    let user = identity_fetch_outcome(IdentityFetchEvent::Received(User42Data {
        id: 42,
        email: b"user@example.com".to_vec(),
        login: b"user".to_vec(),
    }))
    .unwrap();
    let redirect = complete_callback(&user);
    assert_eq!(redirect.target, b"/".to_vec());
}

#[test]
fn mismatched_state_is_rejected() {
    let config = config();
    let (_token, cookie) = run_login(&config);
    let mut session = Session::new(Some(cookie));
    let query = parse_callback_query(b"code=abc123&state=wrong").unwrap();
    let err = begin_callback(query, &mut session, &config).unwrap_err();
    assert_eq!(
        ascii(&err.target),
        "/error?error=CSRF%20Token%20mismatch%20detected"
    );
    // the pop spent the cookie even though validation failed
    assert!(session.csrf_cookie.is_none());
}

#[test]
fn missing_cookie_is_rejected() {
    let config = config();
    let mut session = Session::new(None);
    let query = parse_callback_query(b"code=abc&state=xyz").unwrap();
    let err = begin_callback(query, &mut session, &config).unwrap_err();
    assert_eq!(
        ascii(&err.target),
        "/error?error=CSRF%20token%20not%20found%20in%20session%2C%20may%20have%20expired"
    );
}

#[test]
fn csrf_cookie_is_single_use() {
    let config = config();
    let (token, cookie) = run_login(&config);
    let mut session = Session::new(Some(cookie));
    let query = parse_callback_query(format!("code=abc&state={token}").as_bytes()).unwrap();
    assert!(begin_callback(query, &mut session, &config).is_ok());

    // same request context, cookie already consumed
    let replay = parse_callback_query(format!("code=abc&state={token}").as_bytes()).unwrap();
    let err = begin_callback(replay, &mut session, &config).unwrap_err();
    assert!(ascii(&err.target).contains("not%20found"));

    // fresh cookie-less request replaying the same state
    let mut fresh = Session::new(None);
    let replay = parse_callback_query(format!("code=abc&state={token}").as_bytes()).unwrap();
    let err = begin_callback(replay, &mut fresh, &config).unwrap_err();
    assert!(ascii(&err.target).contains("not%20found"));
}

#[test]
fn tampered_cookie_is_rejected() {
    let config = config();
    let (token, cookie) = run_login(&config);
    let mut forged = cookie.clone();
    forged[10] ^= 0x01;
    let mut session = Session::new(Some(forged));
    let query = parse_callback_query(format!("code=abc&state={token}").as_bytes()).unwrap();
    let err = begin_callback(query, &mut session, &config).unwrap_err();
    assert!(ascii(&err.target).contains("not%20found"));
}

#[test]
fn pop_is_read_once_within_a_request() {
    let config = config();
    let signed = sign_value(b"secret-token", &config.state_cookie_signing_key);
    let mut session = Session::new(Some(signed));
    assert_eq!(
        session.pop_oauth_42_csrf_token(&config),
        Some(b"secret-token".to_vec())
    );
    assert_eq!(session.pop_oauth_42_csrf_token(&config), None);
    // the response clears the cookie in the browser
    let last = session.response_cookies.last().unwrap();
    assert_eq!(last.name, b"oauth_42_csrf_token".to_vec());
    assert!(last.value.is_empty());
    assert_eq!(last.max_age_seconds, 0);
}

#[test]
fn provider_error_yields_generic_redirect() {
    let config = config();
    let mut session = Session::new(None);
    let query =
        parse_callback_query(b"error=access_denied&error_description=user%20cancelled").unwrap();
    match &query {
        CallbackQuery::Error(e) => {
            assert_eq!(e.error, b"access_denied".to_vec());
            assert_eq!(e.error_description, Some(b"user cancelled".to_vec()));
        }
        CallbackQuery::Success(_) => panic!("parsed the error shape as success"),
    }
    let err = begin_callback(query, &mut session, &config).unwrap_err();
    let target = ascii(&err.target);
    assert_eq!(
        target,
        "/error?error=42%20OAuth2%20returned%20an%20error.%20Did%20you%20refuse%20the%20connection%3F"
    );
    assert!(!target.contains("cancelled"));
    assert!(!target.contains("access_denied"));
}

#[test]
fn get_success_query_passes_success_through() {
    let r = get_success_query(CallbackQuery::Success(SuccessQuery {
        code: b"c".to_vec(),
        state: b"s".to_vec(),
    }))
    .unwrap();
    assert_eq!(r.code, b"c".to_vec());
    assert_eq!(r.state, b"s".to_vec());

    let err = get_success_query(CallbackQuery::Error(ErrorQuery {
        error: b"server_error".to_vec(),
        error_description: None,
    }))
    .unwrap_err();
    assert!(ascii(&err.target).starts_with("/error?error=42%20OAuth2"));
}

#[test]
fn exchange_and_identity_failures_redirect() {
    let err = token_exchange_outcome(None).unwrap_err();
    assert_eq!(
        ascii(&err.target),
        "/error?error=Failed%20to%20exchange%20authorization%20code%20for%20access%20token"
    );
    let err = identity_fetch_outcome(IdentityFetchEvent::SendFailed).unwrap_err();
    assert_eq!(
        ascii(&err.target),
        "/error?error=Failed%20to%20send%20user%20data%20request%20to%20OAuth2%20provider"
    );
    let err = identity_fetch_outcome(IdentityFetchEvent::ParseFailed).unwrap_err();
    assert_eq!(
        ascii(&err.target),
        "/error?error=Failed%20to%20parse%20user%20data%20returned%20by%20OAuth2%20provider"
    );
}

#[test]
fn validate_csrf_token_compares_exactly() {
    let config = config();
    let signed = sign_value(b"tok", &config.state_cookie_signing_key);
    let mut session = Session::new(Some(signed));
    assert!(validate_csrf_token(b"tok", &mut session, &config).is_ok());

    let signed = sign_value(b"tok", &config.state_cookie_signing_key);
    let mut session = Session::new(Some(signed));
    let err = validate_csrf_token(b"tok2", &mut session, &config).unwrap_err();
    assert!(ascii(&err.target).contains("mismatch"));
}

#[test]
fn parse_rejects_unrecognised_shapes() {
    assert!(parse_callback_query(b"").is_none());
    assert!(parse_callback_query(b"state=only").is_none());
    assert!(parse_callback_query(b"code=only").is_none());
    assert!(parse_callback_query(b"foo=bar").is_none());
    assert!(parse_callback_query(b"code=a&state=%zz").is_none());
}

#[test]
fn parse_accepts_extra_parameters_and_plus_decoding() {
    let q = parse_callback_query(b"extra=1&code=a+b&state=x%41&other=2").unwrap();
    match q {
        CallbackQuery::Success(s) => {
            assert_eq!(s.code, b"a b".to_vec());
            assert_eq!(s.state, b"xA".to_vec());
        }
        CallbackQuery::Error(_) => panic!("parsed the success shape as error"),
    }
    let q = parse_callback_query(b"error=denied").unwrap();
    match q {
        CallbackQuery::Error(e) => {
            assert_eq!(e.error, b"denied".to_vec());
            assert_eq!(e.error_description, None);
        }
        CallbackQuery::Success(_) => panic!("parsed the error shape as success"),
    }
}

#[test]
fn parse_accepts_empty_values() {
    let q = parse_callback_query(b"code=&state=").unwrap();
    match q {
        CallbackQuery::Success(s) => {
            assert!(s.code.is_empty());
            assert!(s.state.is_empty());
        }
        CallbackQuery::Error(_) => panic!("parsed the success shape as error"),
    }
}

#[test]
fn parse_decodes_uppercase_and_lowercase_escapes() {
    let q = parse_callback_query(b"code=%4a%4B&state=s").unwrap();
    match q {
        CallbackQuery::Success(s) => assert_eq!(s.code, b"JK".to_vec()),
        CallbackQuery::Error(_) => panic!("parsed the success shape as error"),
    }
}

#[test]
fn error_redirect_encodes_message() {
    let r = create_error_redirect(b"a b");
    assert_eq!(ascii(&r.target), "/error?error=a%20b");
}
