//! Configuration of the standalone challenge proxy.

use base64::Engine;
use vstd::prelude::*;
use crate::otoroshi::protocol::{Algorithm, DEFAULT_TOKEN_EXPIRY_SECONDS};
use crate::utils::text::{
    contains_whitespace, decimal, has_whitespace, push_decimal, push_signed_decimal, signed_decimal,
};
pub use crate::otoroshi::protocol::{DEFAULT_STATE_HEADER, DEFAULT_STATE_RESP_HEADER};

verus! {

/// Port the proxy listens on, unless configured.
pub const DEFAULT_LISTEN_PORT: u16 = 8080;

/// Backend port, unless configured.
pub const DEFAULT_BACKEND_PORT: u16 = 9000;

/// Host of the backend, unless configured.
pub const DEFAULT_BACKEND_HOST: &'static str = "127.0.0.1";

/// Seconds a backend is given to answer, unless configured.
pub const DEFAULT_REQUEST_TIMEOUT_SECS: u64 = 30;

/// Lifetime of a response token in seconds, unless configured.
pub const DEFAULT_TOKEN_TTL_SECS: i64 = DEFAULT_TOKEN_EXPIRY_SECONDS;

/// Address the proxy listens on: every interface.
pub const LISTEN_ADDRESS: &'static str = "0.0.0.0";

/// The wire versions of the challenge.
#[derive(Debug, Clone, Copy, PartialEq, Eq, Structural)]
pub enum ProtocolVersion {
    /// The response is the state as it came.
    V1,
    /// The state travels in signed tokens.
    V2,
}

impl ProtocolVersion {
    /// The version that the settings select: version 1 where it is asked
    /// for, version 2 otherwise.
    pub fn selected(use_v1: bool) -> (res: ProtocolVersion)
        ensures
            res == if use_v1 {
                ProtocolVersion::V1
            } else {
                ProtocolVersion::V2
            },
    {
        if use_v1 {
            ProtocolVersion::V1
        } else {
            ProtocolVersion::V2
        }
    }

    /// How the version is announced when the proxy starts.
    pub fn label(self) -> (res: &'static str)
        ensures
            res@ == match self {
                ProtocolVersion::V1 => "V1 (echo)"@,
                ProtocolVersion::V2 => "V2 (JWT)"@,
            },
    {
        match self {
            ProtocolVersion::V1 => "V1 (echo)",
            ProtocolVersion::V2 => "V2 (JWT)",
        }
    }

    /// Whether the proxy can start: version 2 does not start without a
    /// secret.
    pub fn can_start(self, has_secret: bool) -> (res: bool)
        ensures
            res == (self == ProtocolVersion::V1 || has_secret),
    {
        match self {
            ProtocolVersion::V1 => true,
            ProtocolVersion::V2 => has_secret,
        }
    }
}

/// Why a configuration is refused.
#[derive(Debug, Clone, PartialEq, Eq)]
pub enum ConfigError {
    /// The setting `name` is no header name.
    InvalidHeader { name: String },
    /// The secret was to be read as base64 and is none; the text says why.
    InvalidBase64Secret(String),
    /// The lifetime of a token must be positive.
    InvalidTokenTtl(i64),
    /// The backend host is empty or holds white space; the text says which.
    InvalidBackendHost(String),
    /// A port is zero.
    InvalidPort,
}

/// The plain value of a [`ConfigError`], without the text that explains a
/// base64 failure.
pub enum ConfigErrorModel {
    InvalidHeader { name: Seq<char> },
    InvalidBase64Secret,
    InvalidTokenTtl(i64),
    InvalidBackendHost(Seq<char>),
    InvalidPort,
}

impl DeepView for ConfigError {
    type V = ConfigErrorModel;

    open spec fn deep_view(&self) -> ConfigErrorModel {
        match self {
            ConfigError::InvalidHeader { name } => ConfigErrorModel::InvalidHeader { name: name@ },
            ConfigError::InvalidBase64Secret(_) => ConfigErrorModel::InvalidBase64Secret,
            ConfigError::InvalidTokenTtl(ttl) => ConfigErrorModel::InvalidTokenTtl(*ttl),
            ConfigError::InvalidBackendHost(why) => ConfigErrorModel::InvalidBackendHost(why@),
            ConfigError::InvalidPort => ConfigErrorModel::InvalidPort,
        }
    }
}

impl ConfigError {
    /// A message for the user.
    pub fn message(&self) -> (res: String)
        ensures
            res@ == match self {
                ConfigError::InvalidHeader { name } => "Invalid header name for "@ + name@
                    + ": invalid HTTP header name"@,
                ConfigError::InvalidBase64Secret(why) => "Invalid base64 encoding for secret: "@
                    + why@,
                ConfigError::InvalidTokenTtl(ttl) => "Token TTL must be greater than 0, got "@
                    + signed_decimal(*ttl as int),
                ConfigError::InvalidBackendHost(why) => "Invalid backend host: "@ + why@,
                ConfigError::InvalidPort => "Port must be greater than 0"@,
            },
    {
        match self {
            ConfigError::InvalidHeader { name } => {
                let mut out = "Invalid header name for ".to_string();
                out.append(name.as_str());
                out.append(": invalid HTTP header name");
                out
            },
            ConfigError::InvalidBase64Secret(why) => {
                let mut out = "Invalid base64 encoding for secret: ".to_string();
                out.append(why.as_str());
                out
            },
            ConfigError::InvalidTokenTtl(ttl) => {
                let mut out = "Token TTL must be greater than 0, got ".to_string();
                push_signed_decimal(&mut out, *ttl);
                out
            },
            ConfigError::InvalidBackendHost(why) => {
                let mut out = "Invalid backend host: ".to_string();
                out.append(why.as_str());
                out
            },
            ConfigError::InvalidPort => "Port must be greater than 0".to_string(),
        }
    }
}

/// `http::header::InvalidHeaderName`: a text was refused as a header name.
/// It is carried through and never looked into.
#[verifier::external_type_specification]
#[verifier::external_body]
pub struct ExInvalidHeaderName(http::header::InvalidHeaderName);

/// `base64::DecodeError`: why a text was refused as base64. Only its
/// display text is taken from it.
#[verifier::external_type_specification]
#[verifier::external_body]
pub struct ExDecodeError(base64::DecodeError);

/// The normal form that `http::header::HeaderName::from_bytes` gives a
/// header name; `None` where it refuses the text.
pub uninterp spec fn header_name_of(text: Seq<char>) -> Option<Seq<char>>;

/// The bytes that the standard base64 engine decodes a text to; `None`
/// where it refuses the text.
pub uninterp spec fn base64_decoded(text: Seq<char>) -> Option<Seq<u8>>;

/// Calls `http::header::HeaderName::from_bytes` on the bytes of `text` and
/// hands the name on as text. The contract claims only that the outcome is
/// `header_name_of` of the text.
#[verifier::external_body]
fn parse_header_name(text: &str) -> (res: Result<String, http::header::InvalidHeaderName>)
    ensures
        match res {
            Ok(name) => header_name_of(text@) == Some(name@),
            Err(_) => header_name_of(text@) is None,
        },
{
    http::header::HeaderName::from_bytes(text.as_bytes()).map(|name| name.as_str().to_string())
}

/// Calls `decode` of `base64::engine::general_purpose::STANDARD`. The
/// contract claims only that the outcome is `base64_decoded` of the text.
#[verifier::external_body]
fn decode_base64(text: &str) -> (res: Result<Vec<u8>, base64::DecodeError>)
    ensures
        match res {
            Ok(bytes) => base64_decoded(text@) == Some(bytes@),
            Err(_) => base64_decoded(text@) is None,
        },
{
    base64::engine::general_purpose::STANDARD.decode(text)
}

/// The text that `base64::DecodeError` displays. Nothing is claimed of it.
#[verifier::external_body]
fn describe_decode_error(error: &base64::DecodeError) -> String {
    error.to_string()
}

/// The configuration of the standalone challenge proxy.
#[derive(Debug, Clone)]
pub struct ProxyConfig {
    /// Port the proxy listens on, on every interface.
    pub listen_port: u16,
    /// URL of the backend, without a path.
    pub backend_url: String,
    /// Secret of the tokens; needed for version 2.
    pub secret: Option<Vec<u8>>,
    /// Name of the header that carries the challenge, in normal form.
    pub state_header: String,
    /// Name of the header that carries the response, in normal form.
    pub state_resp_header: String,
    /// Seconds a backend is given to answer.
    pub request_timeout_secs: u64,
    /// Lifetime of a response token in seconds.
    pub token_ttl: i64,
    /// Algorithm of the tokens.
    pub algorithm: Algorithm,
    pub version: ProtocolVersion,
}

/// The plain value of a [`ProxyConfig`].
pub struct ProxyConfigModel {
    pub listen_port: u16,
    pub backend_url: Seq<char>,
    pub secret: Option<Seq<u8>>,
    pub state_header: Seq<char>,
    pub state_resp_header: Seq<char>,
    pub request_timeout_secs: u64,
    pub token_ttl: i64,
    pub algorithm: Algorithm,
    pub version: ProtocolVersion,
}

impl DeepView for ProxyConfig {
    type V = ProxyConfigModel;

    open spec fn deep_view(&self) -> ProxyConfigModel {
        ProxyConfigModel {
            listen_port: self.listen_port,
            backend_url: self.backend_url@,
            secret: match self.secret {
                Some(s) => Some(s@),
                None => None,
            },
            state_header: self.state_header@,
            state_resp_header: self.state_resp_header@,
            request_timeout_secs: self.request_timeout_secs,
            token_ttl: self.token_ttl,
            algorithm: self.algorithm,
            version: self.version,
        }
    }
}

/// The secret as bytes: decoded where it is given as base64, else the bytes
/// of the text. The outer `None` says that the decoding failed.
pub open spec fn secret_of(secret: Option<Seq<char>>, secret_base64: bool) -> Option<
    Option<Seq<u8>>,
> {
    match secret {
        Some(s) => if secret_base64 {
            match base64_decoded(s) {
                Some(bytes) => Some(Some(bytes)),
                None => None,
            }
        } else {
            Some(Some(vstd::utf8::encode_utf8(s)))
        },
        None => Some(None),
    }
}

/// The configuration that the settings make, or the first reason to refuse
/// them: a header name that is none (the challenge header first), a
/// lifetime that is not positive, a port that is zero, a backend host that
/// is empty or holds white space, a secret that is no base64.
pub open spec fn proxy_config_of(
    port: u16,
    backend_host: Seq<char>,
    backend_port: u16,
    secret: Option<Seq<char>>,
    secret_base64: bool,
    state_header: Seq<char>,
    state_resp_header: Seq<char>,
    timeout_secs: u64,
    token_ttl: i64,
    use_v1: bool,
) -> Result<ProxyConfigModel, ConfigErrorModel> {
    if header_name_of(state_header) is None {
        Err(ConfigErrorModel::InvalidHeader { name: "state_header"@ })
    } else if header_name_of(state_resp_header) is None {
        Err(ConfigErrorModel::InvalidHeader { name: "state_resp_header"@ })
    } else if token_ttl <= 0 {
        Err(ConfigErrorModel::InvalidTokenTtl(token_ttl))
    } else if port == 0 || backend_port == 0 {
        Err(ConfigErrorModel::InvalidPort)
    } else if backend_host.len() == 0 {
        Err(ConfigErrorModel::InvalidBackendHost("host cannot be empty"@))
    } else if has_whitespace(backend_host) {
        Err(ConfigErrorModel::InvalidBackendHost("host cannot contain whitespace"@))
    } else {
        match secret_of(secret, secret_base64) {
            None => Err(ConfigErrorModel::InvalidBase64Secret),
            Some(bytes) => Ok(
                ProxyConfigModel {
                    listen_port: port,
                    backend_url: "http://"@ + backend_host + seq![':'] + decimal(
                        backend_port as nat,
                    ),
                    secret: bytes,
                    state_header: header_name_of(state_header).unwrap(),
                    state_resp_header: header_name_of(state_resp_header).unwrap(),
                    request_timeout_secs: timeout_secs,
                    token_ttl,
                    algorithm: Algorithm::HS512,
                    version: if use_v1 {
                        ProtocolVersion::V1
                    } else {
                        ProtocolVersion::V2
                    },
                },
            ),
        }
    }
}

impl ProxyConfig {
    /// The configuration that the settings make, with the strongest
    /// algorithm, or the first reason to refuse them.
    pub fn new(
        port: u16,
        backend_host: String,
        backend_port: u16,
        secret: Option<String>,
        secret_base64: bool,
        state_header: String,
        state_resp_header: String,
        timeout_secs: u64,
        token_ttl: i64,
        use_v1: bool,
    ) -> (res: Result<ProxyConfig, ConfigError>)
        ensures
            match res {
                Ok(config) => Ok::<ProxyConfigModel, ConfigErrorModel>(config.deep_view()),
                Err(e) => Err::<ProxyConfigModel, ConfigErrorModel>(e.deep_view()),
            } == proxy_config_of(
                port,
                backend_host@,
                backend_port,
                secret.deep_view(),
                secret_base64,
                state_header@,
                state_resp_header@,
                timeout_secs,
                token_ttl,
                use_v1,
            ),
    {
        let state_header = match parse_header_name(state_header.as_str()) {
            Ok(name) => name,
            Err(_) => {
                return Err(ConfigError::InvalidHeader { name: "state_header".to_string() });
            },
        };
        let state_resp_header = match parse_header_name(state_resp_header.as_str()) {
            Ok(name) => name,
            Err(_) => {
                return Err(ConfigError::InvalidHeader { name: "state_resp_header".to_string() });
            },
        };
        if token_ttl <= 0 {
            return Err(ConfigError::InvalidTokenTtl(token_ttl));
        }
        if port == 0 || backend_port == 0 {
            return Err(ConfigError::InvalidPort);
        }
        if backend_host.as_str().unicode_len() == 0 {
            return Err(ConfigError::InvalidBackendHost("host cannot be empty".to_string()));
        }
        if contains_whitespace(backend_host.as_str()) {
            return Err(
                ConfigError::InvalidBackendHost("host cannot contain whitespace".to_string()),
            );
        }
        let secret_bytes = match &secret {
            Some(s) => if secret_base64 {
                match decode_base64(s.as_str()) {
                    Ok(bytes) => Some(bytes),
                    Err(e) => {
                        return Err(ConfigError::InvalidBase64Secret(describe_decode_error(&e)));
                    },
                }
            } else {
                Some(vstd::slice::slice_to_vec(s.as_str().as_bytes()))
            },
            None => None,
        };
        let mut backend_url = "http://".to_string();
        backend_url.append(backend_host.as_str());
        backend_url.push(':');
        push_decimal(&mut backend_url, backend_port as u64);
        proof {
            assert(backend_url@ =~= "http://"@ + backend_host@ + seq![':'] + decimal(
                backend_port as nat,
            ));
        }
        Ok(
            ProxyConfig {
                listen_port: port,
                backend_url,
                secret: secret_bytes,
                state_header,
                state_resp_header,
                request_timeout_secs: timeout_secs,
                token_ttl,
                algorithm: Algorithm::HS512,
                version: if use_v1 {
                    ProtocolVersion::V1
                } else {
                    ProtocolVersion::V2
                },
            },
        )
    }

    /// The same configuration with another algorithm.
    pub fn with_algorithm(self, algorithm: Algorithm) -> (res: ProxyConfig)
        ensures
            res.deep_view() == (ProxyConfigModel { algorithm, ..self.deep_view() }),
    {
        ProxyConfig { algorithm, ..self }
    }
}

} // verus!
