//! Provider and process configuration, built once at startup from
//! plain values and validated then: a malformed URL or a short signing
//! key is a startup failure, never a per-request one.

use vstd::prelude::*;

use crate::crypto::{parse_url_ok, url_ok};

verus! {

/// The configuration values the process needs.
#[derive(Clone, Copy, PartialEq, Eq, Structural, Debug)]
pub enum ConfigField {
    BindUrl,
    ClientId,
    ClientSecret,
    AuthUrl,
    TokenUrl,
    RedirectUrl,
    SigningKey,
}

/// Why configuration loading failed; fatal at process start.
#[derive(Clone, Copy, PartialEq, Eq, Structural, Debug)]
pub enum ConfigError {
    /// The value was not supplied at all.
    Missing(ConfigField),
    /// The value was supplied but does not parse as a URL.
    InvalidUrl(ConfigField),
    /// The cookie signing key is shorter than 32 bytes.
    SigningKeyTooShort,
}

/// The OAuth2 client identity for the provider, together with the key
/// that signs the CSRF cookie. Immutable after load.
pub struct OAuth42Config {
    pub client_id: Vec<u8>,
    pub client_secret: Vec<u8>,
    pub auth_url: Vec<u8>,
    pub token_url: Vec<u8>,
    pub redirect_url: Vec<u8>,
    pub state_cookie_signing_key: Vec<u8>,
    /// Whether the CSRF cookie carries the `Secure` attribute; off
    /// only for local development.
    pub secure_cookies: bool,
}

/// The first problem, if any, in the provider configuration values,
/// checked in the order the fields are listed.
pub open spec fn oauth_config_error(
    client_id: Option<Vec<u8>>,
    client_secret: Option<Vec<u8>>,
    auth_url: Option<Vec<u8>>,
    token_url: Option<Vec<u8>>,
    redirect_url: Option<Vec<u8>>,
    signing_key: Option<Vec<u8>>,
) -> Option<ConfigError> {
    if client_id is None {
        Some(ConfigError::Missing(ConfigField::ClientId))
    } else if client_secret is None {
        Some(ConfigError::Missing(ConfigField::ClientSecret))
    } else if auth_url is None {
        Some(ConfigError::Missing(ConfigField::AuthUrl))
    } else if !url_ok(auth_url.unwrap()@) {
        Some(ConfigError::InvalidUrl(ConfigField::AuthUrl))
    } else if token_url is None {
        Some(ConfigError::Missing(ConfigField::TokenUrl))
    } else if !url_ok(token_url.unwrap()@) {
        Some(ConfigError::InvalidUrl(ConfigField::TokenUrl))
    } else if redirect_url is None {
        Some(ConfigError::Missing(ConfigField::RedirectUrl))
    } else if !url_ok(redirect_url.unwrap()@) {
        Some(ConfigError::InvalidUrl(ConfigField::RedirectUrl))
    } else if signing_key is None {
        Some(ConfigError::Missing(ConfigField::SigningKey))
    } else if signing_key.unwrap()@.len() < 32 {
        Some(ConfigError::SigningKeyTooShort)
    } else {
        None
    }
}

impl OAuth42Config {
    /// What every request may assume of a loaded configuration.
    pub open spec fn wf(self) -> bool {
        self.state_cookie_signing_key@.len() >= 32
    }

    /// Validated constructor: fails fast on the first missing or
    /// malformed value, in field order.
    pub fn new(
        client_id: Option<Vec<u8>>,
        client_secret: Option<Vec<u8>>,
        auth_url: Option<Vec<u8>>,
        token_url: Option<Vec<u8>>,
        redirect_url: Option<Vec<u8>>,
        signing_key: Option<Vec<u8>>,
        secure_cookies: bool,
    ) -> (r: Result<Self, ConfigError>)
        ensures
            match r {
                Ok(c) => {
                    &&& oauth_config_error(
                        client_id,
                        client_secret,
                        auth_url,
                        token_url,
                        redirect_url,
                        signing_key,
                    ) is None
                    &&& client_id == Some(c.client_id)
                    &&& client_secret == Some(c.client_secret)
                    &&& auth_url == Some(c.auth_url)
                    &&& token_url == Some(c.token_url)
                    &&& redirect_url == Some(c.redirect_url)
                    &&& signing_key == Some(c.state_cookie_signing_key)
                    &&& c.secure_cookies == secure_cookies
                    &&& c.wf()
                    &&& url_ok(c.auth_url@)
                    &&& url_ok(c.token_url@)
                    &&& url_ok(c.redirect_url@)
                },
                Err(e) => Some(e) == oauth_config_error(
                    client_id,
                    client_secret,
                    auth_url,
                    token_url,
                    redirect_url,
                    signing_key,
                ),
            },
    {
        let client_id = match client_id {
            Some(v) => v,
            None => {
                return Err(ConfigError::Missing(ConfigField::ClientId));
            },
        };
        let client_secret = match client_secret {
            Some(v) => v,
            None => {
                return Err(ConfigError::Missing(ConfigField::ClientSecret));
            },
        };
        let auth_url = match auth_url {
            Some(v) => v,
            None => {
                return Err(ConfigError::Missing(ConfigField::AuthUrl));
            },
        };
        if !parse_url_ok(auth_url.as_slice()) {
            return Err(ConfigError::InvalidUrl(ConfigField::AuthUrl));
        }
        let token_url = match token_url {
            Some(v) => v,
            None => {
                return Err(ConfigError::Missing(ConfigField::TokenUrl));
            },
        };
        if !parse_url_ok(token_url.as_slice()) {
            return Err(ConfigError::InvalidUrl(ConfigField::TokenUrl));
        }
        let redirect_url = match redirect_url {
            Some(v) => v,
            None => {
                return Err(ConfigError::Missing(ConfigField::RedirectUrl));
            },
        };
        if !parse_url_ok(redirect_url.as_slice()) {
            return Err(ConfigError::InvalidUrl(ConfigField::RedirectUrl));
        }
        let state_cookie_signing_key = match signing_key {
            Some(v) => v,
            None => {
                return Err(ConfigError::Missing(ConfigField::SigningKey));
            },
        };
        if state_cookie_signing_key.len() < 32 {
            return Err(ConfigError::SigningKeyTooShort);
        }
        Ok(
            OAuth42Config {
                client_id,
                client_secret,
                auth_url,
                token_url,
                redirect_url,
                state_cookie_signing_key,
                secure_cookies,
            },
        )
    }

    /// The key that signs and verifies the CSRF cookie.
    pub fn state_cookie_signing_key(&self) -> (r: &Vec<u8>)
        ensures
            r == self.state_cookie_signing_key,
    {
        &self.state_cookie_signing_key
    }
}

/// The whole process configuration.
pub struct Config {
    pub bind_url: Vec<u8>,
    pub oauth_42_config: OAuth42Config,
}

impl Config {
    /// Loads the configuration from the plain values the process was
    /// started with; `None` stands for a value that was not supplied.
    /// Fails on the first missing or invalid value.
    pub fn load(
        bind_url: Option<Vec<u8>>,
        client_id: Option<Vec<u8>>,
        client_secret: Option<Vec<u8>>,
        auth_url: Option<Vec<u8>>,
        token_url: Option<Vec<u8>>,
        redirect_url: Option<Vec<u8>>,
        signing_key: Option<Vec<u8>>,
        secure_cookies: bool,
    ) -> (r: Result<Self, ConfigError>)
        ensures
            match r {
                Ok(c) => {
                    &&& bind_url == Some(c.bind_url)
                    &&& client_id == Some(c.oauth_42_config.client_id)
                    &&& client_secret == Some(c.oauth_42_config.client_secret)
                    &&& auth_url == Some(c.oauth_42_config.auth_url)
                    &&& token_url == Some(c.oauth_42_config.token_url)
                    &&& redirect_url == Some(c.oauth_42_config.redirect_url)
                    &&& signing_key == Some(c.oauth_42_config.state_cookie_signing_key)
                    &&& c.oauth_42_config.secure_cookies == secure_cookies
                    &&& c.oauth_42_config.wf()
                },
                Err(e) => {
                    if bind_url is None {
                        e == ConfigError::Missing(ConfigField::BindUrl)
                    } else {
                        Some(e) == oauth_config_error(
                            client_id,
                            client_secret,
                            auth_url,
                            token_url,
                            redirect_url,
                            signing_key,
                        )
                    }
                },
            },
    {
        let bind_url = match bind_url {
            Some(v) => v,
            None => {
                return Err(ConfigError::Missing(ConfigField::BindUrl));
            },
        };
        let oauth_42_config = match OAuth42Config::new(
            client_id,
            client_secret,
            auth_url,
            token_url,
            redirect_url,
            signing_key,
            secure_cookies,
        ) {
            Ok(c) => c,
            Err(e) => {
                return Err(e);
            },
        };
        Ok(Config { bind_url, oauth_42_config })
    }

    /// The address the process listens on.
    pub fn bind_url(&self) -> (r: &Vec<u8>)
        ensures
            r == self.bind_url,
    {
        &self.bind_url
    }

    /// The provider configuration.
    pub fn oauth_42_config(&self) -> (r: &OAuth42Config)
        ensures
            r == self.oauth_42_config,
    {
        &self.oauth_42_config
    }
}

} // verus!
