//! Client configuration: base URL, credentials, timeout, language, trade type.

use vstd::prelude::*;

use crate::error::Error;

verus! {

/// Default API base URL.
pub const DEFAULT_BASE_URL: &'static str = "http://www.dce.com.cn";

/// Default HTTP timeout in seconds.
pub const DEFAULT_TIMEOUT_SECS: u64 = 30;

/// Default language.
pub const DEFAULT_LANG: &'static str = "zh";

/// Default trade type (1 = futures).
pub const DEFAULT_TRADE_TYPE: i32 = 1;

/// Client configuration, supplied once at construction and immutable
/// thereafter.
#[derive(Debug, Clone)]
pub struct Config {
    /// API base URL.
    pub base_url: String,
    /// API key (required).
    pub api_key: String,
    /// API secret (required).
    pub secret: String,
    /// HTTP request timeout in seconds.
    pub timeout_secs: u64,
    /// Language for API responses: "zh" or "en".
    pub lang: String,
    /// Trade type: 1 = futures, 2 = options.
    pub trade_type: i32,
}

impl Config {
    /// A configuration with default values. The API key and secret must be
    /// set before the client is used.
    pub fn new() -> (r: Config)
        ensures
            r.base_url@ == DEFAULT_BASE_URL@,
            r.api_key@ == Seq::<char>::empty(),
            r.secret@ == Seq::<char>::empty(),
            r.timeout_secs == DEFAULT_TIMEOUT_SECS,
            r.lang@ == DEFAULT_LANG@,
            r.trade_type == DEFAULT_TRADE_TYPE,
    {
        Config {
            base_url: DEFAULT_BASE_URL.to_owned(),
            api_key: String::new(),
            secret: String::new(),
            timeout_secs: DEFAULT_TIMEOUT_SECS,
            lang: DEFAULT_LANG.to_owned(),
            trade_type: DEFAULT_TRADE_TYPE,
        }
    }

    /// This configuration with the base URL replaced.
    pub fn with_base_url(self, base_url: String) -> (r: Config)
        ensures
            r == (Config { base_url, ..self }),
    {
        Config { base_url, ..self }
    }

    /// This configuration with the API key replaced.
    pub fn with_api_key(self, api_key: String) -> (r: Config)
        ensures
            r == (Config { api_key, ..self }),
    {
        Config { api_key, ..self }
    }

    /// This configuration with the secret replaced.
    pub fn with_secret(self, secret: String) -> (r: Config)
        ensures
            r == (Config { secret, ..self }),
    {
        Config { secret, ..self }
    }

    /// This configuration with the timeout replaced.
    pub fn with_timeout(self, timeout_secs: u64) -> (r: Config)
        ensures
            r == (Config { timeout_secs, ..self }),
    {
        Config { timeout_secs, ..self }
    }

    /// This configuration with the language replaced.
    pub fn with_lang(self, lang: String) -> (r: Config)
        ensures
            r == (Config { lang, ..self }),
    {
        Config { lang, ..self }
    }

    /// This configuration with the trade type replaced.
    pub fn with_trade_type(self, trade_type: i32) -> (r: Config)
        ensures
            r == (Config { trade_type, ..self }),
    {
        Config { trade_type, ..self }
    }

    /// Check that the required fields are set: rejects an empty API key, then
    /// an empty secret; accepts everything else.
    pub fn validate(&self) -> (r: Result<(), Error>)
        ensures
            self.api_key@.len() == 0 ==> (r matches Err(e) && e matches Error::Validation {
                field,
                message,
            } && field@ == "api_key"@ && message@ == "API key is required"@),
            self.api_key@.len() > 0 && self.secret@.len() == 0 ==> (r matches Err(e)
                && e matches Error::Validation { field, message } && field@ == "secret"@
                && message@ == "secret is required"@),
            self.api_key@.len() > 0 && self.secret@.len() > 0 ==> r matches Ok(()),
    {
        if self.api_key.as_str().is_empty() {
            return Err(Error::validation("api_key".to_owned(), "API key is required".to_owned()));
        }
        if self.secret.as_str().is_empty() {
            return Err(Error::validation("secret".to_owned(), "secret is required".to_owned()));
        }
        Ok(())
    }

    /// Replace every empty or zero optional field by its default; the
    /// credentials are left as they are.
    pub fn apply_defaults(&mut self)
        ensures
            final (self).base_url@ == if old(self).base_url@.len() == 0 {
                DEFAULT_BASE_URL@
            } else {
                old(self).base_url@
            },
            final (self).timeout_secs == if old(self).timeout_secs == 0 {
                DEFAULT_TIMEOUT_SECS
            } else {
                old(self).timeout_secs
            },
            final (self).lang@ == if old(self).lang@.len() == 0 {
                DEFAULT_LANG@
            } else {
                old(self).lang@
            },
            final (self).trade_type == if old(self).trade_type == 0 {
                DEFAULT_TRADE_TYPE
            } else {
                old(self).trade_type
            },
            final (self).api_key == old(self).api_key,
            final (self).secret == old(self).secret,
    {
        if self.base_url.as_str().is_empty() {
            self.base_url = DEFAULT_BASE_URL.to_owned();
        }
        if self.timeout_secs == 0 {
            self.timeout_secs = DEFAULT_TIMEOUT_SECS;
        }
        if self.lang.as_str().is_empty() {
            self.lang = DEFAULT_LANG.to_owned();
        }
        if self.trade_type == 0 {
            self.trade_type = DEFAULT_TRADE_TYPE;
        }
    }
}

impl Default for Config {
    /// The same configuration as `Config::new`.
    fn default() -> (r: Config)
        ensures
            r.base_url@ == DEFAULT_BASE_URL@,
            r.api_key@ == Seq::<char>::empty(),
            r.secret@ == Seq::<char>::empty(),
            r.timeout_secs == DEFAULT_TIMEOUT_SECS,
            r.lang@ == DEFAULT_LANG@,
            r.trade_type == DEFAULT_TRADE_TYPE,
    {
        Config::new()
    }
}

} // verus!
