//! Transport rules: per-request options, request-header values, and the
//! retry protocol for one logical API call.
//!
//! One logical request proceeds as follows. The caller obtains a token, sends
//! the HTTP request, and feeds the envelope code of the answer to a
//! [`RequestFlow`]. A success code delivers the data; the token-expired code
//! on the first attempt asks for one token refresh and one resend; every
//! other outcome — any other code, a transport failure, a second
//! token-expired answer — ends the request. The flow is the only retry
//! policy in the library.

use vstd::prelude::*;
use vstd::string::StringExecFns;

use crate::config::Config;
use crate::error::Error;

verus! {

/// Request options that can be set per call, overriding the client-wide
/// configuration.
#[derive(Debug, Clone)]
pub struct RequestOptions {
    /// Trade type override (1 = futures, 2 = options).
    pub trade_type: Option<i32>,
    /// Language override.
    pub lang: Option<String>,
}

impl RequestOptions {
    /// Options that override nothing.
    pub fn new() -> (r: RequestOptions)
        ensures
            r.trade_type is None,
            r.lang is None,
    {
        RequestOptions { trade_type: None, lang: None }
    }

    /// These options with the trade type overridden.
    pub fn with_trade_type(self, trade_type: i32) -> (r: RequestOptions)
        ensures
            r.trade_type == Some(trade_type),
            r.lang == self.lang,
    {
        RequestOptions { trade_type: Some(trade_type), ..self }
    }

    /// These options with the language overridden.
    pub fn with_lang(self, lang: String) -> (r: RequestOptions)
        ensures
            r.lang == Some(lang),
            r.trade_type == self.trade_type,
    {
        RequestOptions { lang: Some(lang), ..self }
    }

    /// The trade type one request uses: the override when set, the
    /// configured default otherwise.
    pub fn merged_trade_type(&self, config: &Config) -> (r: i32)
        ensures
            r == (match self.trade_type {
                Some(t) => t,
                None => config.trade_type,
            }),
    {
        match self.trade_type {
            Some(t) => t,
            None => config.trade_type,
        }
    }

    /// The language one request uses: the override when set, the configured
    /// default otherwise.
    pub fn merged_lang(&self, config: &Config) -> (r: String)
        ensures
            r@ == (match self.lang {
                Some(l) => l@,
                None => config.lang@,
            }),
    {
        match &self.lang {
            Some(l) => l.clone(),
            None => config.lang.clone(),
        }
    }
}

impl Default for RequestOptions {
    /// The same options as `RequestOptions::new`.
    fn default() -> (r: RequestOptions)
        ensures
            r.trade_type is None,
            r.lang is None,
    {
        RequestOptions::new()
    }
}

/// The value of the Authorization header for a bearer token.
pub fn bearer_value(token: &str) -> (r: String)
    ensures
        r@ == "Bearer "@ + token@,
{
    "Bearer ".to_owned().concat(token)
}

/// A base URL and an endpoint path joined into one URL.
pub fn join_url(base: &str, path: &str) -> (r: String)
    ensures
        r@ == base@ + path@,
{
    base.to_owned().concat(path)
}

/// Where one logical request stands.
#[derive(Debug, Clone, Copy, PartialEq, Eq, Structural)]
pub enum FlowPhase {
    /// No attempt has been answered yet.
    Initial,
    /// The first attempt reported an expired token; one refresh and one
    /// resend are under way.
    Retrying,
    /// The request is decided; no further attempt may be made.
    Finished,
}

/// What the caller of a [`RequestFlow`] must do next.
#[derive(Debug, Clone)]
pub enum FlowAction {
    /// The envelope reported success: decode its data for the caller.
    Deliver,
    /// Refresh the token once, then resend the same request once.
    Refresh,
    /// Give up and hand this error to the caller.
    Fail(Error),
}

/// The transition one envelope answer causes: a success code delivers in any
/// phase; the token-expired code asks for a refresh only on the first
/// attempt; everything else fails with an API error carrying the envelope
/// code and message.
pub open spec fn spec_flow_step(phase: FlowPhase, code: i32, msg: String) -> (FlowPhase,
    FlowAction) {
    if code == 200 {
        (FlowPhase::Finished, FlowAction::Deliver)
    } else if phase == FlowPhase::Initial && code == 402 {
        (FlowPhase::Retrying, FlowAction::Refresh)
    } else {
        (FlowPhase::Finished, FlowAction::Fail(Error::Api { code, message: msg }))
    }
}

/// The retry state of one logical request.
#[derive(Debug, Clone)]
pub struct RequestFlow {
    /// Where the request stands.
    pub phase: FlowPhase,
}

impl RequestFlow {
    /// A flow for a fresh request: nothing attempted yet.
    pub fn new() -> (r: RequestFlow)
        ensures
            r.phase == FlowPhase::Initial,
    {
        RequestFlow { phase: FlowPhase::Initial }
    }

    /// Feed the envelope code and message of one answered attempt to the
    /// flow, and learn what to do next.
    pub fn on_attempt(&mut self, code: i32, msg: String) -> (a: FlowAction)
        requires
            old(self).phase != FlowPhase::Finished,
        ensures
            (final (self).phase, a) == spec_flow_step(old(self).phase, code, msg),
    {
        if code == 200 {
            self.phase = FlowPhase::Finished;
            FlowAction::Deliver
        } else if matches!(self.phase, FlowPhase::Initial) && code == 402 {
            self.phase = FlowPhase::Retrying;
            FlowAction::Refresh
        } else {
            self.phase = FlowPhase::Finished;
            FlowAction::Fail(Error::api(code, msg))
        }
    }

    /// Record that an attempt failed before any envelope was decoded — a
    /// network failure or an undecodable body. Such a failure is never
    /// retried: it is handed to the caller as it is.
    pub fn on_transport_failure(&mut self, err: Error) -> (a: FlowAction)
        requires
            old(self).phase != FlowPhase::Finished,
        ensures
            final (self).phase == FlowPhase::Finished,
            a == FlowAction::Fail(err),
    {
        self.phase = FlowPhase::Finished;
        FlowAction::Fail(err)
    }

    /// Record that the one token refresh failed. The authentication error is
    /// handed to the caller; the request is over.
    pub fn on_refresh_failure(&mut self, err: Error) -> (a: FlowAction)
        requires
            old(self).phase == FlowPhase::Retrying,
        ensures
            final (self).phase == FlowPhase::Finished,
            a == FlowAction::Fail(err),
    {
        self.phase = FlowPhase::Finished;
        FlowAction::Fail(err)
    }
}

/// One-shot retry: when the first attempt of a request is answered with the
/// token-expired code, the flow asks for exactly one refresh-and-resend, and
/// whatever the retried attempt is answered with decides the request — a
/// second token-expired answer is handed to the caller as the error of the
/// retry, never retried again.
pub proof fn lemma_one_shot_retry(msg1: String, code2: i32, msg2: String)
    ensures
        ({
            let (p1, a1) = spec_flow_step(FlowPhase::Initial, 402, msg1);
            let (p2, a2) = spec_flow_step(p1, code2, msg2);
            &&& p1 == FlowPhase::Retrying && a1 == FlowAction::Refresh
            &&& p2 == FlowPhase::Finished
            &&& !(a2 matches FlowAction::Refresh)
            &&& code2 == 200 ==> a2 == FlowAction::Deliver
            &&& code2 != 200 ==> a2 == FlowAction::Fail(
                Error::Api { code: code2, message: msg2 },
            )
        }),
{
}

/// Non-retry codes: an envelope whose code is neither success nor
/// token-expired — the parameter-error, no-permission, server-error and
/// rate-limit codes among them — ends the request at once, with no refresh
/// and no second attempt, and the caller receives the API error as it came.
pub proof fn lemma_non_retry_codes(code: i32, msg: String)
    requires
        code != 200,
        code != 402,
    ensures
        spec_flow_step(FlowPhase::Initial, code, msg) == (
            FlowPhase::Finished,
            FlowAction::Fail(Error::Api { code, message: msg }),
        ),
{
}

} // verus!
