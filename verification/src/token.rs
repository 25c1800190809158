//! The bearer-token cache and its lifecycle rules.
//!
//! The cache is the only mutable state the client shares between concurrent
//! callers; its owner guards it behind one reader/writer lock and injects the
//! current time into every operation. The rules below are pure state
//! transitions over plain values, so the verifier checks them for every clock
//! reading and every server answer:
//!
//! - a caller first checks the cache under the read lock (`token_if_valid`);
//! - a caller that found the cache stale takes the write lock, re-checks, and
//!   only then performs the one authentication round-trip;
//! - the answer of that round-trip is applied by `apply_auth_outcome`, which
//!   mutates the cache only on a fully successful, fully parsed response.

use vstd::prelude::*;
use vstd::string::StringExecFns;

use crate::codec::decode_token_payload;
use crate::codec::parse_envelope;
use crate::error::Error;
use crate::error::ErrorCode;
use crate::models::TokenResponse;
use crate::text::spec_int_decimal;
use crate::text::i32_to_string;

verus! {

/// Token lifetime in seconds assumed when the server omits or returns a
/// non-positive lifetime.
pub const TOKEN_EXPIRY_SECONDS: u64 = 3600;

/// Safety margin in seconds subtracted from the server-declared token
/// lifetime, so the token is refreshed before the server invalidates it.
pub const TOKEN_EXPIRY_BUFFER: u64 = 60;

/// Authentication endpoint path.
pub const AUTH_ENDPOINT: &'static str = "/dceapi/cms/auth/accessToken";

/// The cached bearer token and its expiry.
///
/// An empty token is always considered expired. A non-empty token always has
/// an expiry timestamp. Timestamps are seconds on whatever monotone clock the
/// owner injects as `now`.
#[derive(Debug, Clone)]
pub struct TokenCache {
    /// The access token; empty when no token is cached.
    pub token: String,
    /// When the token stops being usable; `None` when no token is cached.
    pub expires_at: Option<u64>,
}

/// The effective validity window for a server-declared lifetime: the declared
/// lifetime (or the default when it is not positive) less the safety buffer,
/// floored at zero.
pub open spec fn spec_effective_window(expires_in: i32) -> u64 {
    let base: u64 = if expires_in > 0 {
        expires_in as u64
    } else {
        TOKEN_EXPIRY_SECONDS
    };
    if base >= TOKEN_EXPIRY_BUFFER {
        (base - TOKEN_EXPIRY_BUFFER) as u64
    } else {
        0
    }
}

/// The expiry timestamp a refresh at time `now` stores, saturating at the
/// largest representable time.
pub open spec fn spec_expiry_time(now: u64, expires_in: i32) -> u64 {
    if now + spec_effective_window(expires_in) <= u64::MAX {
        (now + spec_effective_window(expires_in)) as u64
    } else {
        u64::MAX
    }
}

/// The cache after a refresh at time `now` installed `token` with the
/// server-declared lifetime `expires_in`.
pub open spec fn spec_install(token: String, expires_in: i32, now: u64) -> TokenCache {
    TokenCache { token, expires_at: Some(spec_expiry_time(now, expires_in)) }
}

/// The reason string for an authentication failure with the given envelope
/// code and message.
pub open spec fn spec_auth_reason(code: i32, message: Seq<char>) -> Seq<char> {
    if code == 400 {
        "invalid parameters: "@ + message
    } else if code == 401 {
        "permission denied: "@ + message
    } else if code == 500 {
        "server error: "@ + message
    } else if code == 501 {
        "rate limited: "@ + message
    } else {
        "authentication failed (code "@ + spec_int_decimal(code as int) + "): "@ + message
    }
}

/// The authentication error for a non-success envelope code from the
/// authentication endpoint.
pub fn auth_error_for(code: i32, message: &str) -> (r: Error)
    ensures
        r matches Error::Auth { reason } && reason@ == spec_auth_reason(code, message@),
{
    match ErrorCode::from_code(code) {
        Some(ErrorCode::ParamError) => Error::auth(
            "invalid parameters: ".to_owned().concat(message),
        ),
        Some(ErrorCode::NoPermission) => Error::auth(
            "permission denied: ".to_owned().concat(message),
        ),
        Some(ErrorCode::ServerError) => Error::auth("server error: ".to_owned().concat(message)),
        Some(ErrorCode::RateLimit) => Error::auth("rate limited: ".to_owned().concat(message)),
        _ => {
            let code_text = i32_to_string(code);
            let mut reason = "authentication failed (code ".to_owned();
            reason.append(code_text.as_str());
            reason.append("): ");
            reason.append(message);
            Error::auth(reason)
        },
    }
}

impl TokenCache {
    /// Well-formedness: a non-empty token always has an expiry timestamp.
    pub open spec fn wf(&self) -> bool {
        self.token@.len() > 0 ==> self.expires_at is Some
    }

    /// Whether the cached token is usable at time `now`: a token is cached
    /// and its expiry has not been reached.
    pub open spec fn valid_at(&self, now: u64) -> bool {
        &&& self.token@.len() > 0
        &&& match self.expires_at {
            Some(e) => now < e,
            None => false,
        }
    }

    /// An empty cache: no token, no expiry.
    pub fn new() -> (r: TokenCache)
        ensures
            r.token@ == Seq::<char>::empty(),
            r.expires_at is None,
            r.wf(),
            forall|now: u64| !r.valid_at(now),
    {
        TokenCache { token: String::new(), expires_at: None }
    }

    /// Whether the cached token is expired at time `now`: true when no token
    /// is cached or its expiry has been reached.
    pub fn is_expired(&self, now: u64) -> (r: bool)
        ensures
            r == !self.valid_at(now),
    {
        if self.token.as_str().is_empty() {
            return true;
        }
        match self.expires_at {
            Some(e) => now >= e,
            None => true,
        }
    }

    /// Discard the cached token and expiry unconditionally.
    pub fn clear_token(&mut self)
        ensures
            final (self).token@ == Seq::<char>::empty(),
            final (self).expires_at is None,
            final (self).wf(),
    {
        self.token = String::new();
        self.expires_at = None;
    }

    /// The cached token without any expiry check; empty when none is cached.
    pub fn get_cached_token(&self) -> (r: String)
        ensures
            r@ == self.token@,
    {
        self.token.clone()
    }

    /// The optimistic read a `get_token` caller makes: the cached token when
    /// it is usable at time `now`, and nothing otherwise. A caller that gets
    /// nothing must escalate to the exclusive path, re-check, and only then
    /// refresh.
    pub fn token_if_valid(&self, now: u64) -> (r: Option<String>)
        ensures
            r is Some <==> self.valid_at(now),
            r matches Some(t) ==> t@ == self.token@,
    {
        if self.is_expired(now) {
            None
        } else {
            Some(self.token.clone())
        }
    }

    /// Install a freshly acquired token at time `now` with the
    /// server-declared lifetime `expires_in`.
    pub fn install(&mut self, token: String, expires_in: i32, now: u64)
        requires
            token@.len() > 0,
        ensures
            *final (self) == spec_install(token, expires_in, now),
            final (self).wf(),
    {
        let base: u64 = if expires_in > 0 {
            expires_in as u64
        } else {
            TOKEN_EXPIRY_SECONDS
        };
        let window: u64 = if base >= TOKEN_EXPIRY_BUFFER {
            base - TOKEN_EXPIRY_BUFFER
        } else {
            0
        };
        let expiry: u64 = if now <= u64::MAX - window {
            now + window
        } else {
            u64::MAX
        };
        self.token = token;
        self.expires_at = Some(expiry);
    }

    /// Apply the outcome of one authentication round-trip made at time `now`:
    /// the envelope code and message, and the decoded token payload when the
    /// envelope data could be decoded.
    ///
    /// The cache is mutated only on a success envelope whose payload holds a
    /// non-empty token; every failure leaves the previously cached token and
    /// expiry unchanged.
    pub fn apply_auth_outcome(
        &mut self,
        code: i32,
        message: &str,
        payload: Option<TokenResponse>,
        now: u64,
    ) -> (r: Result<(), Error>)
        ensures
            code != 200 ==> {
                &&& r matches Err(e) && e matches Error::Auth { reason } && reason@
                    == spec_auth_reason(code, message@)
                &&& *final (self) == *old(self)
            },
            code == 200 ==> (match payload {
                None => {
                    &&& r matches Err(e) && e matches Error::Auth { reason } && reason@
                        == "failed to parse token data"@
                    &&& *final (self) == *old(self)
                },
                Some(p) => if p.access_token@.len() == 0 {
                    &&& r matches Err(e) && e matches Error::Auth { reason } && reason@
                        == "received empty access token"@
                    &&& *final (self) == *old(self)
                } else {
                    &&& r matches Ok(())
                    &&& *final (self) == spec_install(p.access_token, p.expires_in, now)
                },
            }),
    {
        if code != 200 {
            return Err(auth_error_for(code, message));
        }
        match payload {
            None => Err(Error::auth("failed to parse token data".to_owned())),
            Some(p) => {
                if p.access_token.as_str().is_empty() {
                    Err(Error::auth("received empty access token".to_owned()))
                } else {
                    self.install(p.access_token, p.expires_in, now);
                    Ok(())
                }
            },
        }
    }

    /// Apply one whole authentication response, received as body text at time
    /// `now`: decode the envelope, map a non-success code to its
    /// authentication error, decode the token payload, and install the token.
    ///
    /// The cache is mutated only when everything succeeded; in particular an
    /// undecodable body, a non-success code, an undecodable payload and an
    /// empty token all leave the previously cached state unchanged. On
    /// success the installed token is non-empty and its expiry lies at or
    /// after `now`.
    pub fn apply_refresh_response(&mut self, resp_text: &str, now: u64) -> (r: Result<(), Error>)
        ensures
            r matches Err(e) ==> *final (self) == *old(self) && e matches Error::Auth { .. },
            r matches Ok(()) ==> {
                &&& final (self).wf()
                &&& final (self).token@.len() > 0
                &&& final (self).expires_at matches Some(e) && e >= now
            },
    {
        let envelope = match parse_envelope(resp_text) {
            Ok(envelope) => envelope,
            Err(parse_err) => {
                let mut reason = "failed to parse auth response: ".to_owned();
                match parse_err {
                    Error::Parse { raw_response: _, err } => {
                        reason.append(err.as_str());
                    },
                    _ => (),
                }
                reason.append(", body: ");
                reason.append(resp_text);
                return Err(Error::auth(reason));
            },
        };
        let payload = decode_token_payload(envelope.data.as_ref());
        self.apply_auth_outcome(envelope.code, envelope.msg.as_str(), payload, now)
    }
}

/// No redundant refresh: once a refresh at time `now` has installed a token,
/// every `get_token` caller that checks the cache at a time `t` before the
/// effective expiry — in particular a caller that lost the race for the write
/// lock and re-checks under it — observes that very token as valid, so it
/// returns the token instead of issuing another authentication call.
pub proof fn lemma_no_redundant_refresh(token: String, expires_in: i32, now: u64, t: u64)
    requires
        token@.len() > 0,
        now + spec_effective_window(expires_in) <= u64::MAX,
        now <= t < now + spec_effective_window(expires_in),
    ensures
        spec_install(token, expires_in, now).valid_at(t),
        spec_install(token, expires_in, now).token == token,
{
}

/// Expiry buffer: a token installed at time `now` with server-declared
/// lifetime `expires_in` is usable at exactly the times before `now + w`,
/// where `w` is the effective window — the declared lifetime less the
/// 60-second buffer, or the 3600-second default less the buffer when the
/// server omitted a positive lifetime. From `now + w` on, `is_expired`
/// reports true.
pub proof fn lemma_expiry_buffer(token: String, expires_in: i32, now: u64, t: u64)
    requires
        token@.len() > 0,
        now + spec_effective_window(expires_in) <= u64::MAX,
    ensures
        now <= t < now + spec_effective_window(expires_in) ==> spec_install(
            token,
            expires_in,
            now,
        ).valid_at(t),
        t >= now + spec_effective_window(expires_in) ==> !spec_install(
            token,
            expires_in,
            now,
        ).valid_at(t),
{
}

} // verus!
