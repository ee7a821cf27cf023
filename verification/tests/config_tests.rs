use auth_gateway::config::{Config, ConfigError, ConfigField, OAuth42Config};

fn all_values() -> [Option<Vec<u8>>; 7] {
    [
        Some(b"127.0.0.1:8080".to_vec()),
        Some(b"client-id".to_vec()),
        Some(b"client-secret".to_vec()),
        Some(b"https://provider.example/oauth/authorize".to_vec()),
        Some(b"https://provider.example/oauth/token".to_vec()),
        Some(b"https://app.example/api/auth/42/callback".to_vec()),
        Some(b"0123456789abcdef0123456789abcdef".to_vec()),
    ]
}

fn load(vals: [Option<Vec<u8>>; 7]) -> Result<Config, ConfigError> {
    let [bind, id, secret, auth, token, redirect, k] = vals;
    Config::load(bind, id, secret, auth, token, redirect, k, true)
}

#[test]
fn load_accepts_complete_configuration() {
    let config = load(all_values()).unwrap();
    assert_eq!(config.bind_url, b"127.0.0.1:8080".to_vec());
    assert_eq!(config.oauth_42_config.client_id, b"client-id".to_vec());
    assert_eq!(
        config.oauth_42_config.auth_url,
        b"https://provider.example/oauth/authorize".to_vec()
    );
    assert!(config.oauth_42_config.secure_cookies);
    assert_eq!(config.oauth_42_config.state_cookie_signing_key.len(), 32);
}

#[test]
fn load_reports_first_missing_value() {
    let mut vals = all_values();
    vals[0] = None;
    assert_eq!(load(vals).err(), Some(ConfigError::Missing(ConfigField::BindUrl)));

    let mut vals = all_values();
    vals[1] = None;
    assert_eq!(load(vals).err(), Some(ConfigError::Missing(ConfigField::ClientId)));

    let mut vals = all_values();
    vals[2] = None;
    assert_eq!(load(vals).err(), Some(ConfigError::Missing(ConfigField::ClientSecret)));

    let mut vals = all_values();
    vals[6] = None;
    assert_eq!(load(vals).err(), Some(ConfigError::Missing(ConfigField::SigningKey)));
}

#[test]
fn load_rejects_malformed_urls() {
    let mut vals = all_values();
    vals[3] = Some(b"not a url".to_vec());
    assert_eq!(load(vals).err(), Some(ConfigError::InvalidUrl(ConfigField::AuthUrl)));

    let mut vals = all_values();
    vals[4] = Some(b"/relative/only".to_vec());
    assert_eq!(load(vals).err(), Some(ConfigError::InvalidUrl(ConfigField::TokenUrl)));

    let mut vals = all_values();
    vals[5] = Some(vec![0xff, 0xfe]);
    assert_eq!(load(vals).err(), Some(ConfigError::InvalidUrl(ConfigField::RedirectUrl)));
}

#[test]
fn load_rejects_short_signing_key() {
    let mut vals = all_values();
    vals[6] = Some(b"0123456789abcdef0123456789abcde".to_vec());
    assert_eq!(load(vals).err(), Some(ConfigError::SigningKeyTooShort));
}

#[test]
fn oauth_config_validates_in_field_order() {
    let r = OAuth42Config::new(None, None, None, None, None, None, false);
    assert_eq!(r.err(), Some(ConfigError::Missing(ConfigField::ClientId)));
}

#[test]
fn getters_hand_back_fields() {
    let config = load(all_values()).unwrap();
    assert_eq!(config.bind_url(), &config.bind_url);
    let oauth = config.oauth_42_config();
    assert_eq!(
        oauth.state_cookie_signing_key(),
        &b"0123456789abcdef0123456789abcdef".to_vec()
    );
}
