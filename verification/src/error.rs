//! Error types of the library.
//!
//! The server answers every call with a response envelope whose `code` field
//! comes from a closed enumeration: 200 success, 400 parameter error,
//! 401 permission denied, 402 token expired, 500 server error, 501 rate
//! limit. Any other integer is surfaced to the caller with its literal value.

use vstd::prelude::*;
use vstd::string::StringExecFns;

use crate::text::spec_int_decimal;
use crate::text::i32_to_string;

verus! {

/// The closed set of error codes the API documents.
#[derive(Debug, Clone, Copy, PartialEq, Eq, Structural)]
pub enum ErrorCode {
    /// 200: the request succeeded.
    Success,
    /// 400: a request parameter was invalid.
    ParamError,
    /// 401: the caller lacks permission.
    NoPermission,
    /// 402: the bearer token has expired.
    TokenExpired,
    /// 500: internal server error.
    ServerError,
    /// 501: the caller is rate limited.
    RateLimit,
}

/// The integer value the API uses for each documented code.
pub open spec fn spec_code_value(c: ErrorCode) -> i32 {
    match c {
        ErrorCode::Success => 200,
        ErrorCode::ParamError => 400,
        ErrorCode::NoPermission => 401,
        ErrorCode::TokenExpired => 402,
        ErrorCode::ServerError => 500,
        ErrorCode::RateLimit => 501,
    }
}

/// The documented code for an integer, if there is one.
pub open spec fn spec_from_code(code: i32) -> Option<ErrorCode> {
    if code == 200 {
        Some(ErrorCode::Success)
    } else if code == 400 {
        Some(ErrorCode::ParamError)
    } else if code == 401 {
        Some(ErrorCode::NoPermission)
    } else if code == 402 {
        Some(ErrorCode::TokenExpired)
    } else if code == 500 {
        Some(ErrorCode::ServerError)
    } else if code == 501 {
        Some(ErrorCode::RateLimit)
    } else {
        None
    }
}

impl ErrorCode {
    /// Map an integer from a response envelope to the documented code, if any.
    pub fn from_code(code: i32) -> (r: Option<ErrorCode>)
        ensures
            r == spec_from_code(code),
    {
        match code {
            200 => Some(ErrorCode::Success),
            400 => Some(ErrorCode::ParamError),
            401 => Some(ErrorCode::NoPermission),
            402 => Some(ErrorCode::TokenExpired),
            500 => Some(ErrorCode::ServerError),
            501 => Some(ErrorCode::RateLimit),
            _ => None,
        }
    }

    /// The integer value of this code.
    pub fn code(&self) -> (r: i32)
        ensures
            r == spec_code_value(*self),
    {
        match self {
            ErrorCode::Success => 200,
            ErrorCode::ParamError => 400,
            ErrorCode::NoPermission => 401,
            ErrorCode::TokenExpired => 402,
            ErrorCode::ServerError => 500,
            ErrorCode::RateLimit => 501,
        }
    }
}

/// The one-line rendering of each error.
pub open spec fn spec_error_message(e: &Error) -> Seq<char> {
    match e {
        Error::Api { code, message } => "API error "@ + spec_int_decimal(*code as int) + ": "@
            + message@,
        Error::Auth { reason } => "authentication error: "@ + reason@,
        Error::Network { message } => "network error: "@ + message@,
        Error::Validation { field, message } => "validation error on field '"@ + field@ + "': "@
            + message@,
        Error::Parse { raw_response, err } => "parse error: "@ + err@ + ", raw response: "@
            + raw_response@,
    }
}

/// The error type every operation of the library returns.
#[derive(Debug, Clone)]
pub enum Error {
    /// The server answered a domain call with a non-success envelope code.
    Api {
        /// The code from the response envelope.
        code: i32,
        /// The message from the response envelope.
        message: String,
    },
    /// Acquiring or refreshing the bearer token failed.
    Auth {
        /// Why authentication failed.
        reason: String,
    },
    /// The HTTP transport failed (connection, TLS, timeout).
    Network {
        /// What the transport reported.
        message: String,
    },
    /// A request parameter failed a check made before any network call.
    Validation {
        /// The field that failed the check.
        field: String,
        /// Why the field was rejected.
        message: String,
    },
    /// A response body could not be decoded into the expected structure.
    Parse {
        /// The raw response text, kept for diagnostics.
        raw_response: String,
        /// What the decoder reported.
        err: String,
    },
}

impl Error {
    /// An API error with the given envelope code and message.
    pub fn api(code: i32, message: String) -> (r: Error)
        ensures
            r == (Error::Api { code, message }),
    {
        Error::Api { code, message }
    }

    /// An authentication error with the given reason.
    pub fn auth(reason: String) -> (r: Error)
        ensures
            r == (Error::Auth { reason }),
    {
        Error::Auth { reason }
    }

    /// A network error with the given transport message.
    pub fn network(message: String) -> (r: Error)
        ensures
            r == (Error::Network { message }),
    {
        Error::Network { message }
    }

    /// A validation error for the given field.
    pub fn validation(field: String, message: String) -> (r: Error)
        ensures
            r == (Error::Validation { field, message }),
    {
        Error::Validation { field, message }
    }

    /// A parse error carrying the raw response text.
    pub fn parse(raw_response: String, err: String) -> (r: Error)
        ensures
            r == (Error::Parse { raw_response, err }),
    {
        Error::Parse { raw_response, err }
    }

    /// Whether this is an API error with the token-expired code.
    pub fn is_token_expired(&self) -> (r: bool)
        ensures
            r == (self matches Error::Api { code, .. } && code == spec_code_value(
                ErrorCode::TokenExpired,
            )),
    {
        match self {
            Error::Api { code, .. } => *code == 402,
            _ => false,
        }
    }

    /// This error rendered as one line of text.
    pub fn message(&self) -> (r: String)
        ensures
            r@ == spec_error_message(self),
    {
        match self {
            Error::Api { code, message } => {
                let code_text = i32_to_string(*code);
                let mut out = "API error ".to_owned();
                out.append(code_text.as_str());
                out.append(": ");
                out.append(message.as_str());
                out
            },
            Error::Auth { reason } => "authentication error: ".to_owned().concat(reason.as_str()),
            Error::Network { message } => "network error: ".to_owned().concat(message.as_str()),
            Error::Validation { field, message } => {
                let mut out = "validation error on field '".to_owned();
                out.append(field.as_str());
                out.append("': ");
                out.append(message.as_str());
                out
            },
            Error::Parse { raw_response, err } => {
                let mut out = "parse error: ".to_owned();
                out.append(err.as_str());
                out.append(", raw response: ");
                out.append(raw_response.as_str());
                out
            },
        }
    }

    /// The documented code of an API error, if this is one.
    pub fn error_code(&self) -> (r: Option<ErrorCode>)
        ensures
            r == (match *self {
                Error::Api { code, .. } => spec_from_code(code),
                _ => None::<ErrorCode>,
            }),
    {
        match self {
            Error::Api { code, .. } => ErrorCode::from_code(*code),
            _ => None,
        }
    }
}

} // verus!
