//! What the standalone challenge proxy answers. Unlike the sidecar it fails
//! closed: a request without a valid challenge does not reach the backend.

use vstd::prelude::*;
use crate::challenge::config::{ProtocolVersion, ProxyConfig, ProxyConfigModel};
use crate::http_utils::{filter_hop_by_hop_headers, is_end_to_end, Headers};
use crate::otoroshi::protocol::{exchange, OtoroshiProtocol, ProtocolError};
use crate::otoroshi::token::current_timestamp;

verus! {

/// An answer that ends a request: a status and an error body.
#[derive(Debug, Clone, PartialEq, Eq)]
pub struct Rejection {
    pub status: u16,
    pub error: String,
    pub details: Option<String>,
}

/// The plain value of a [`Rejection`].
pub struct RejectionModel {
    pub status: u16,
    pub error: Seq<char>,
    pub details: Option<Seq<char>>,
}

impl DeepView for Rejection {
    type V = RejectionModel;

    open spec fn deep_view(&self) -> RejectionModel {
        RejectionModel {
            status: self.status,
            error: self.error.deep_view(),
            details: self.details.deep_view(),
        }
    }
}

/// How a call to the backend can fail.
#[derive(Debug, Clone, PartialEq, Eq)]
pub enum BackendFailure {
    /// The request could not be built; the text says why.
    InvalidRequest(String),
    /// The address of the backend is no URI; the text says why.
    InvalidUri(String),
    /// The backend could not be reached; the text says why.
    Unavailable(String),
    /// The backend did not answer in time.
    TimedOut,
}

/// The message of a protocol error.
pub open spec fn message_of(e: ProtocolError) -> Seq<char> {
    match e {
        ProtocolError::VerificationFailed => "JWT verification failed"@,
        ProtocolError::EncodingFailed => "Failed to create response token"@,
    }
}

/// The answer to a request without the challenge header.
pub open spec fn missing_header() -> RejectionModel {
    RejectionModel { status: 401, error: "Missing Otoroshi-State header"@, details: None }
}

/// The value of the response header for a request whose challenge header
/// holds `state`, at the clock reading `now`, or the answer that ends the
/// request. Version 1 echoes the state. Version 2 needs a secret and a
/// challenge that verifies. A request without the header is refused in
/// both.
pub open spec fn answer_of(config: ProxyConfigModel, state: Option<Seq<char>>, now: i64) -> Result<
    Seq<char>,
    RejectionModel,
> {
    match config.version {
        ProtocolVersion::V1 => match state {
            Some(value) => Ok(value),
            None => Err(missing_header()),
        },
        ProtocolVersion::V2 => match config.secret {
            None => Err(
                RejectionModel {
                    status: 500,
                    error: "Secret is required for V2 protocol"@,
                    details: None,
                },
            ),
            Some(secret) => match state {
                Some(token) => match exchange(
                    secret,
                    config.algorithm,
                    secret,
                    config.algorithm,
                    config.token_ttl,
                    token,
                    now,
                ) {
                    Ok(value) => Ok(value),
                    Err(e) => Err(
                        RejectionModel {
                            status: 401,
                            error: "Invalid Otoroshi challenge"@,
                            details: Some(message_of(e)),
                        },
                    ),
                },
                None => Err(missing_header()),
            },
        },
    }
}

impl ProxyConfig {
    /// The value of the response header, or the answer that ends the
    /// request, at the clock reading `now`.
    pub fn challenge_answer_at(&self, state: Option<&str>, now: i64) -> (res: Result<
        String,
        Rejection,
    >)
        ensures
            match res {
                Ok(value) => answer_of(self.deep_view(), state.deep_view(), now) == Ok::<
                    Seq<char>,
                    RejectionModel,
                >(value@),
                Err(r) => answer_of(self.deep_view(), state.deep_view(), now) == Err::<Seq<char>, RejectionModel>(
                    r.deep_view(),
                ),
            },
    {
        match self.version {
            ProtocolVersion::V1 => match state {
                Some(value) => Ok(value.to_string()),
                None => Err(
                    Rejection {
                        status: 401,
                        error: "Missing Otoroshi-State header".to_string(),
                        details: None,
                    },
                ),
            },
            ProtocolVersion::V2 => match &self.secret {
                None => Err(
                    Rejection {
                        status: 500,
                        error: "Secret is required for V2 protocol".to_string(),
                        details: None,
                    },
                ),
                Some(secret) => match state {
                    Some(token) => {
                        let protocol = OtoroshiProtocol {
                            algo_in: self.algorithm,
                            secret_in: secret.clone(),
                            algo_out: self.algorithm,
                            secret_out: secret.clone(),
                            ttl: self.token_ttl,
                        };
                        match protocol.try_process_v2_at(token, now) {
                            Ok(value) => Ok(value),
                            Err(e) => Err(
                                Rejection {
                                    status: 401,
                                    error: "Invalid Otoroshi challenge".to_string(),
                                    details: Some(e.message()),
                                },
                            ),
                        }
                    },
                    None => Err(
                        Rejection {
                            status: 401,
                            error: "Missing Otoroshi-State header".to_string(),
                            details: None,
                        },
                    ),
                },
            },
        }
    }

    /// The value of the response header, or the answer that ends the
    /// request, by the system clock.
    pub fn challenge_answer(&self, state: Option<&str>) -> (res: Result<String, Rejection>)
        ensures
            exists|now: i64|
                match res {
                    Ok(value) => #[trigger] answer_of(self.deep_view(), state.deep_view(), now) == Ok::<
                        Seq<char>,
                        RejectionModel,
                    >(value@),
                    Err(r) => answer_of(self.deep_view(), state.deep_view(), now) == Err::<
                        Seq<char>,
                        RejectionModel,
                    >(r.deep_view()),
                },
    {
        let now = current_timestamp();
        self.challenge_answer_at(state, now)
    }

    /// Where a request with this path and query goes: the backend, with the
    /// path and query kept.
    pub fn backend_uri(&self, path_and_query: Option<&str>) -> (res: String)
        ensures
            res@ == self.backend_url@ + match path_and_query {
                Some(p) => p@,
                None => "/"@,
            },
    {
        let mut out = self.backend_url.clone();
        match path_and_query {
            Some(p) => out.append(p),
            None => out.append("/"),
        }
        out
    }
}

/// The headers that go on to the backend: all but those that belong to the
/// connection.
pub fn backend_headers(headers: &Headers) -> (res: Headers)
    ensures
        res.deep_view() == headers.deep_view().filter(is_end_to_end()),
{
    filter_hop_by_hop_headers(headers)
}

/// The answer to a request whose call to the backend failed.
pub fn backend_rejection(failure: BackendFailure) -> (res: Rejection)
    ensures
        res.deep_view() == match failure {
            BackendFailure::InvalidRequest(why) => RejectionModel {
                status: 500,
                error: "Failed to build request"@,
                details: Some(why@),
            },
            BackendFailure::InvalidUri(why) => RejectionModel {
                status: 500,
                error: "Invalid backend URI"@,
                details: Some(why@),
            },
            BackendFailure::Unavailable(why) => RejectionModel {
                status: 502,
                error: "Backend unavailable"@,
                details: Some(why@),
            },
            BackendFailure::TimedOut => RejectionModel {
                status: 504,
                error: "Backend request timed out"@,
                details: None,
            },
        },
{
    match failure {
        BackendFailure::InvalidRequest(why) => Rejection {
            status: 500,
            error: "Failed to build request".to_string(),
            details: Some(why),
        },
        BackendFailure::InvalidUri(why) => Rejection {
            status: 500,
            error: "Invalid backend URI".to_string(),
            details: Some(why),
        },
        BackendFailure::Unavailable(why) => Rejection {
            status: 502,
            error: "Backend unavailable".to_string(),
            details: Some(why),
        },
        BackendFailure::TimedOut => Rejection {
            status: 504,
            error: "Backend request timed out".to_string(),
            details: None,
        },
    }
}

} // verus!
