//! The inbound proxy: what it adds to a request from the mesh before the
//! request goes on to the local process.

use vstd::prelude::*;
use vstd::slice::slice_to_vec;
use crate::challenge::config::ProtocolVersion;
use crate::http_utils::{
    header_of, header_value, host_of, request_host, set_header, set_headers, with_header,
    with_headers, Headers,
};
use crate::otoroshi::protocol::{
    algorithm_of_name, exchange, Algorithm, OtoroshiProtocol, CHALLENGE_LEEWAY_SECONDS,
    DEFAULT_TOKEN_EXPIRY_SECONDS,
};
use crate::otoroshi::token::{current_timestamp, uppercase};
use crate::sidecar::cache::{
    OtoroshiChallengePlugin, OtoroshiChallengePluginModel, OtoroshiPluginsModel, OtoroshiRoute,
    OtoroshiRouteModel, SidecarCache,
};
use crate::sidecar::config::{
    OtoroshiSidecarConfig, OtoroshiSidecarConfigSpecInboundSettings,
    OtoroshiSidecarConfigSpecInboundSettingsModel, OtoroshiSidecarConfigSpecOtoroshiProtocol,
    OtoroshiSidecarConfigSpecOtoroshiProtocolModel,
};
use crate::utils::search::{first_index, lemma_first_index_is, lemma_first_index_none};
use crate::utils::text::{ascii_lower, decimal, push_decimal, str_eq, to_ascii_lowercase};

verus! {

/// Identifier of the challenge plugin of a route.
pub const CHALLENGE_PLUGIN_ID: &'static str = "cp:otoroshi.next.plugins.OtoroshiChallenge";

/// Name of the request header that carries the challenge, unless
/// configured.
pub const DEFAULT_REQUEST_HEADER: &'static str = "otoroshi-state";

/// Name of the header that carries the response, unless configured.
pub const DEFAULT_RESPONSE_HEADER: &'static str = "otoroshi-state-resp";

/// Port the inbound proxy listens on, unless configured.
pub const DEFAULT_INBOUND_PORT: u16 = 15000;

/// Target port on the local process, unless configured.
pub const DEFAULT_TARGET_PORT: u16 = 8080;

/// Polls allowed for a certificate to show up before the listener starts.
pub const CERTIFICATE_WAIT_ATTEMPTS: i32 = 30;

/// The challenge settings in force for a request: how incoming tokens are
/// verified, how outgoing tokens are signed, and which headers carry them.
#[derive(Debug, Clone)]
pub struct ChallengeConfig {
    pub version: ProtocolVersion,
    /// Verifies tokens that come from the mesh peer.
    pub inbound_secret: Vec<u8>,
    pub inbound_algorithm: Algorithm,
    /// Signs tokens that go to the mesh peer.
    pub outbound_secret: Vec<u8>,
    pub outbound_algorithm: Algorithm,
    pub request_header_name: String,
    pub response_header_name: String,
    /// Clock skew the peer tolerates on the response, in seconds.
    pub response_leeway_seconds: i64,
    /// Lifetime of a response token in seconds.
    pub ttl: i64,
}

/// The plain value of a [`ChallengeConfig`].
pub struct ChallengeConfigModel {
    pub version: ProtocolVersion,
    pub inbound_secret: Seq<u8>,
    pub inbound_algorithm: Algorithm,
    pub outbound_secret: Seq<u8>,
    pub outbound_algorithm: Algorithm,
    pub request_header_name: Seq<char>,
    pub response_header_name: Seq<char>,
    pub response_leeway_seconds: i64,
    pub ttl: i64,
}

impl DeepView for ChallengeConfig {
    type V = ChallengeConfigModel;

    open spec fn deep_view(&self) -> ChallengeConfigModel {
        ChallengeConfigModel {
            version: self.version,
            inbound_secret: self.inbound_secret@,
            inbound_algorithm: self.inbound_algorithm,
            outbound_secret: self.outbound_secret@,
            outbound_algorithm: self.outbound_algorithm,
            request_header_name: self.request_header_name@,
            response_header_name: self.response_header_name@,
            response_leeway_seconds: self.response_leeway_seconds,
            ttl: self.ttl,
        }
    }
}

/// The version a configuration string names: `V2` itself, or else version 1.
pub open spec fn version_of(name: Seq<char>) -> ProtocolVersion {
    if name == "V2"@ {
        ProtocolVersion::V2
    } else {
        ProtocolVersion::V1
    }
}

/// The algorithm for a digest of `size` bits; any size but 256 and 384
/// selects the strongest variant.
pub open spec fn algorithm_of_size(size: i32) -> Algorithm {
    if size == 256 {
        Algorithm::HS256
    } else if size == 384 {
        Algorithm::HS384
    } else {
        Algorithm::HS512
    }
}

/// `value`, or `fallback` where there is none.
pub open spec fn or_default(value: Option<Seq<char>>, fallback: Seq<char>) -> Seq<char> {
    match value {
        Some(v) => v,
        None => fallback,
    }
}

/// The challenge settings that static settings spell out. What is left out
/// falls back on version 2, the secret `secret`, the strongest algorithm and
/// the default header names; header names are taken in lower case.
pub open spec fn challenge_of_settings(
    p: OtoroshiSidecarConfigSpecOtoroshiProtocolModel,
) -> ChallengeConfigModel {
    ChallengeConfigModel {
        version: version_of(or_default(p.version, "V2"@)),
        inbound_secret: vstd::utf8::encode_utf8(or_default(p.secret_in, "secret"@)),
        inbound_algorithm: algorithm_of_name(uppercase(or_default(p.algo_in, "HS512"@))),
        outbound_secret: vstd::utf8::encode_utf8(or_default(p.secret_out, "secret"@)),
        outbound_algorithm: algorithm_of_name(uppercase(or_default(p.algo_out, "HS512"@))),
        request_header_name: match p.header_in_name {
            Some(n) => ascii_lower(n),
            None => DEFAULT_REQUEST_HEADER@,
        },
        response_header_name: match p.header_out_name {
            Some(n) => ascii_lower(n),
            None => DEFAULT_RESPONSE_HEADER@,
        },
        response_leeway_seconds: CHALLENGE_LEEWAY_SECONDS,
        ttl: DEFAULT_TOKEN_EXPIRY_SECONDS,
    }
}

/// The challenge settings that the challenge plugin of a route stands for.
/// What the gateway signs with verifies incoming tokens; what it expects
/// responses to be signed with signs outgoing ones.
pub open spec fn challenge_of_plugin(p: OtoroshiChallengePluginModel) -> ChallengeConfigModel {
    ChallengeConfigModel {
        version: version_of(p.version),
        inbound_secret: vstd::utf8::encode_utf8(p.algo_to_backend.secret),
        inbound_algorithm: algorithm_of_size(p.algo_to_backend.size),
        outbound_secret: vstd::utf8::encode_utf8(p.algo_from_backend.secret),
        outbound_algorithm: algorithm_of_size(p.algo_from_backend.size),
        request_header_name: or_default(p.request_header_name, DEFAULT_REQUEST_HEADER@),
        response_header_name: or_default(p.response_header_name, DEFAULT_RESPONSE_HEADER@),
        response_leeway_seconds: p.state_resp_leeway as i64,
        ttl: p.ttl as i64,
    }
}

/// The condition that a plugin is the challenge plugin.
pub open spec fn is_challenge_plugin() -> spec_fn(OtoroshiPluginsModel) -> bool {
    |p: OtoroshiPluginsModel| p.plugin == CHALLENGE_PLUGIN_ID@
}

/// The settings of the first challenge plugin of a route, where the route
/// has one and its configuration reads as challenge settings.
pub open spec fn challenge_plugin_of(route: OtoroshiRouteModel) -> Option<
    OtoroshiChallengePluginModel,
> {
    match first_index(route.plugins, is_challenge_plugin()) {
        Some(i) => route.plugins[i].config,
        None => None,
    }
}

/// The challenge settings in force: the static ones, unless a route is
/// named. Then they are those of the route's challenge plugin, and there
/// are none where the route, the plugin or its settings are missing.
pub open spec fn resolved_challenge(
    p: OtoroshiSidecarConfigSpecOtoroshiProtocolModel,
    route: Option<OtoroshiRouteModel>,
) -> Option<ChallengeConfigModel> {
    match p.route_id {
        None => Some(challenge_of_settings(p)),
        Some(_) => match route {
            Some(r) => match challenge_plugin_of(r) {
                Some(plugin) => Some(challenge_of_plugin(plugin)),
                None => None,
            },
            None => None,
        },
    }
}

/// The response to the challenge `state` under challenge settings at
/// `now`. Version 1 echoes the state. Version 2 verifies it as a token and
/// answers with a signed token; where that fails there is no response.
pub open spec fn challenge_response(c: ChallengeConfigModel, state: Seq<char>, now: i64) -> Option<
    Seq<char>,
> {
    match c.version {
        ProtocolVersion::V1 => Some(state),
        ProtocolVersion::V2 => match exchange(
            c.inbound_secret,
            c.inbound_algorithm,
            c.outbound_secret,
            c.outbound_algorithm,
            c.ttl,
            state,
            now,
        ) {
            Ok(token) => Some(token),
            Err(_) => None,
        },
    }
}

/// The headers to add to a request: the response header, where the
/// challenge is switched on, its settings resolve, the request carries the
/// challenge header and the challenge gets a response. Nothing is added
/// otherwise; the request goes on either way.
pub open spec fn additional_headers(
    protocol: Option<OtoroshiSidecarConfigSpecOtoroshiProtocolModel>,
    route: Option<OtoroshiRouteModel>,
    headers: Seq<(Seq<char>, Seq<char>)>,
    now: i64,
) -> Seq<(Seq<char>, Seq<char>)> {
    match protocol {
        Some(p) => if p.enabled {
            match resolved_challenge(p, route) {
                Some(c) => match header_of(headers, c.request_header_name) {
                    Some(state) => match challenge_response(c, state, now) {
                        Some(value) => seq![(c.response_header_name, value)],
                        None => seq![],
                    },
                    None => seq![],
                },
                None => seq![],
            }
        } else {
            seq![]
        },
        None => seq![],
    }
}

/// The version that a configuration string names.
pub fn parse_version(name: &str) -> (res: ProtocolVersion)
    ensures
        res == version_of(name@),
{
    if str_eq(name, "V2") {
        ProtocolVersion::V2
    } else {
        ProtocolVersion::V1
    }
}

/// The algorithm for a digest of `size` bits.
pub fn algorithm_for_size(size: i32) -> (res: Algorithm)
    ensures
        res == algorithm_of_size(size),
{
    if size == 256 {
        Algorithm::HS256
    } else if size == 384 {
        Algorithm::HS384
    } else {
        Algorithm::HS512
    }
}

/// The bytes of a secret given as text.
fn secret_bytes(secret: &str) -> (res: Vec<u8>)
    ensures
        res@ == vstd::utf8::encode_utf8(secret@),
{
    slice_to_vec(secret.as_bytes())
}

impl ChallengeConfig {
    /// The challenge settings that static settings spell out.
    pub fn from_settings(p: &OtoroshiSidecarConfigSpecOtoroshiProtocol) -> (res: ChallengeConfig)
        ensures
            res.deep_view() == challenge_of_settings(p.deep_view()),
    {
        let version = match &p.version {
            Some(v) => parse_version(v.as_str()),
            None => parse_version("V2"),
        };
        let inbound_secret = match &p.secret_in {
            Some(s) => secret_bytes(s.as_str()),
            None => secret_bytes("secret"),
        };
        let outbound_secret = match &p.secret_out {
            Some(s) => secret_bytes(s.as_str()),
            None => secret_bytes("secret"),
        };
        let inbound_algorithm = match &p.algo_in {
            Some(a) => Algorithm::parse(a.as_str()),
            None => Algorithm::parse("HS512"),
        };
        let outbound_algorithm = match &p.algo_out {
            Some(a) => Algorithm::parse(a.as_str()),
            None => Algorithm::parse("HS512"),
        };
        let request_header_name = match &p.header_in_name {
            Some(n) => to_ascii_lowercase(n.as_str()),
            None => DEFAULT_REQUEST_HEADER.to_string(),
        };
        let response_header_name = match &p.header_out_name {
            Some(n) => to_ascii_lowercase(n.as_str()),
            None => DEFAULT_RESPONSE_HEADER.to_string(),
        };
        ChallengeConfig {
            version,
            inbound_secret,
            inbound_algorithm,
            outbound_secret,
            outbound_algorithm,
            request_header_name,
            response_header_name,
            response_leeway_seconds: CHALLENGE_LEEWAY_SECONDS,
            ttl: DEFAULT_TOKEN_EXPIRY_SECONDS,
        }
    }

    /// The challenge settings that the challenge plugin of a route stands
    /// for.
    pub fn from_plugin(p: &OtoroshiChallengePlugin) -> (res: ChallengeConfig)
        ensures
            res.deep_view() == challenge_of_plugin(p.deep_view()),
    {
        ChallengeConfig {
            version: parse_version(p.version.as_str()),
            inbound_secret: secret_bytes(p.algo_to_backend.secret.as_str()),
            inbound_algorithm: algorithm_for_size(p.algo_to_backend.size),
            outbound_secret: secret_bytes(p.algo_from_backend.secret.as_str()),
            outbound_algorithm: algorithm_for_size(p.algo_from_backend.size),
            request_header_name: match &p.request_header_name {
                Some(n) => n.clone(),
                None => DEFAULT_REQUEST_HEADER.to_string(),
            },
            response_header_name: match &p.response_header_name {
                Some(n) => n.clone(),
                None => DEFAULT_RESPONSE_HEADER.to_string(),
            },
            response_leeway_seconds: p.state_resp_leeway as i64,
            ttl: p.ttl as i64,
        }
    }

    /// The challenge settings in force, given the static settings and, where
    /// they name a route, what the cache holds of that route.
    pub fn resolve(
        p: &OtoroshiSidecarConfigSpecOtoroshiProtocol,
        route: Option<&OtoroshiRoute>,
    ) -> (res: Option<ChallengeConfig>)
        ensures
            res.deep_view() == resolved_challenge(p.deep_view(), route.deep_view()),
    {
        match &p.route_id {
            None => Some(ChallengeConfig::from_settings(p)),
            Some(_) => match route {
                Some(r) => match find_challenge_plugin(r) {
                    Some(plugin) => Some(ChallengeConfig::from_plugin(plugin)),
                    None => None,
                },
                None => None,
            },
        }
    }

    /// The response to the challenge `state` at `now`, if there is one.
    pub fn respond_at(&self, state: &str, now: i64) -> (res: Option<String>)
        ensures
            res.deep_view() == challenge_response(self.deep_view(), state@, now),
    {
        match self.version {
            ProtocolVersion::V1 => Some(state.to_string()),
            ProtocolVersion::V2 => {
                let protocol = OtoroshiProtocol::new_asymmetric(
                    self.inbound_secret.as_slice(),
                    self.inbound_algorithm,
                    self.outbound_secret.as_slice(),
                    self.outbound_algorithm,
                );
                let protocol = OtoroshiProtocol { ttl: self.ttl, ..protocol };
                match protocol.try_process_v2_at(state, now) {
                    Ok(token) => Some(token),
                    Err(_) => None,
                }
            },
        }
    }
}

/// The settings of the first challenge plugin of a route.
pub fn find_challenge_plugin(route: &OtoroshiRoute) -> (res: Option<&OtoroshiChallengePlugin>)
    ensures
        res.deep_view() == challenge_plugin_of(route.deep_view()),
{
    let ghost s = route.deep_view().plugins;
    let mut i: usize = 0;
    while i < route.plugins.len()
        invariant
            i <= route.plugins.len(),
            s == route.deep_view().plugins,
            forall|j: int| 0 <= j < i ==> !is_challenge_plugin()(s[j]),
        decreases route.plugins.len() - i,
    {
        if str_eq(route.plugins[i].plugin.as_str(), CHALLENGE_PLUGIN_ID) {
            proof {
                lemma_first_index_is(s, is_challenge_plugin(), i as int);
            }
            return route.plugins[i].config.as_ref();
        }
        i = i + 1;
    }
    proof {
        lemma_first_index_none(s, is_challenge_plugin());
    }
    None
}

/// The inbound proxy.
pub struct InboundProxy {}

impl InboundProxy {
    /// The headers to add to a request with the headers `headers`, given
    /// the challenge settings, what the cache holds of the route they name,
    /// and the clock reading `now`.
    pub fn additional_headers_at(
        protocol: Option<&OtoroshiSidecarConfigSpecOtoroshiProtocol>,
        route: Option<&OtoroshiRoute>,
        headers: &Headers,
        now: i64,
    ) -> (res: Headers)
        ensures
            res.deep_view() == additional_headers(
                protocol.deep_view(),
                route.deep_view(),
                headers.deep_view(),
                now,
            ),
    {
        let mut out: Headers = Vec::new();
        proof {
            assert(out.deep_view() =~= seq![]);
        }
        let p = match protocol {
            Some(p) => p,
            None => { return out; },
        };
        if !p.enabled {
            return out;
        }
        let config = match ChallengeConfig::resolve(p, route) {
            Some(c) => c,
            None => { return out; },
        };
        let state = match header_value(headers, config.request_header_name.as_str()) {
            Some(s) => s,
            None => { return out; },
        };
        match config.respond_at(state.as_str(), now) {
            Some(value) => {
                out.push((config.response_header_name.clone(), value));
                proof {
                    assert(out.deep_view() =~= seq![(config.response_header_name@, value@)]);
                }
            },
            None => {},
        }
        out
    }

    /// The headers to add to a request, by what the cache holds and by the
    /// system clock.
    pub fn get_additional_headers(
        config: &OtoroshiSidecarConfig,
        cache: &SidecarCache,
        headers: &Headers,
    ) -> (res: Headers)
        ensures
            exists|route: Option<OtoroshiRouteModel>, now: i64|
                res.deep_view() == #[trigger] additional_headers(
                    config.deep_view().spec.inbound.otoroshi_protocol,
                    route,
                    headers.deep_view(),
                    now,
                ),
    {
        let now = current_timestamp();
        let protocol = config.spec.inbound.otoroshi_protocol.as_ref();
        let route = match protocol {
            Some(p) => match &p.route_id {
                Some(id) => cache.get_route_by_id_at(id.as_str(), now),
                None => None,
            },
            None => None,
        };
        let res = InboundProxy::additional_headers_at(protocol, route.as_ref(), headers, now);
        proof {
            assert(res.deep_view() == additional_headers(
                config.deep_view().spec.inbound.otoroshi_protocol,
                route.deep_view(),
                headers.deep_view(),
                now,
            ));
        }
        res
    }
}

/// The HTTP versions the local process can be spoken to in.
#[derive(Debug, Clone, Copy, PartialEq, Eq, Structural)]
pub enum TargetVersion {
    Http11,
    H2,
}

/// What the listener needs before it binds: the certificate it serves and,
/// where client certificates are required, the authority they are held to.
#[derive(Debug, Clone)]
pub struct TlsPlan {
    pub cert_id: String,
    pub client_ca_id: Option<String>,
}

/// The plain value of a [`TlsPlan`].
pub struct TlsPlanModel {
    pub cert_id: Seq<char>,
    pub client_ca_id: Option<Seq<char>>,
}

impl DeepView for TlsPlan {
    type V = TlsPlanModel;

    open spec fn deep_view(&self) -> TlsPlanModel {
        TlsPlanModel {
            cert_id: self.cert_id.deep_view(),
            client_ca_id: self.client_ca_id.deep_view(),
        }
    }
}

/// The version the local process is spoken to in: HTTP/2 where the
/// settings say `h2`, HTTP/1.1 otherwise.
pub open spec fn target_version_of(name: Option<Seq<char>>) -> TargetVersion {
    match name {
        Some(n) => if n == "h2"@ {
            TargetVersion::H2
        } else {
            TargetVersion::Http11
        },
        None => TargetVersion::Http11,
    }
}

/// Where a request goes on to: the local process on the loopback address,
/// at the configured port, with the path and query of the request.
pub open spec fn target_uri_of(port: Option<u16>, path_and_query: Option<Seq<char>>) -> Seq<char> {
    "http://127.0.0.1:"@ + decimal(
        match port {
            Some(p) => p as nat,
            None => DEFAULT_TARGET_PORT as nat,
        },
    ) + or_default(path_and_query, "/"@)
}

/// The `Host` the local process sees: the configured override, else the
/// host the request was meant for.
pub open spec fn forwarded_host_of(
    target_hostname: Option<Seq<char>>,
    headers: Seq<(Seq<char>, Seq<char>)>,
    authority: Option<Seq<char>>,
) -> Seq<char> {
    match target_hostname {
        Some(h) => h,
        None => host_of(headers, authority),
    }
}

/// The headers of the request as it goes on: those it came with, with
/// `Host` set and the additional headers set after it.
pub open spec fn forwarded_headers_of(
    headers: Seq<(Seq<char>, Seq<char>)>,
    host: Seq<char>,
    additional: Seq<(Seq<char>, Seq<char>)>,
) -> Seq<(Seq<char>, Seq<char>)> {
    with_headers(with_header(headers, "Host"@, host), additional, additional.len() as int)
}

/// What the listener waits for before it binds. Without settings for the
/// certificate it waits for one called `none`; client certificates are
/// required only where the settings switch that on.
pub open spec fn tls_plan_of(inbound: OtoroshiSidecarConfigSpecInboundSettingsModel) -> TlsPlanModel {
    TlsPlanModel {
        cert_id: match inbound.tls {
            Some(t) => t.cert_id,
            None => "none"@,
        },
        client_ca_id: match inbound.mtls {
            Some(m) => if m.enabled {
                Some(m.ca_cert_id)
            } else {
                None
            },
            None => None,
        },
    }
}

impl InboundProxy {
    /// The port the listener binds.
    pub fn listen_port(inbound: &OtoroshiSidecarConfigSpecInboundSettings) -> (res: u16)
        ensures
            res == match inbound.port {
                Some(p) => p,
                None => DEFAULT_INBOUND_PORT,
            },
    {
        match inbound.port {
            Some(p) => p,
            None => DEFAULT_INBOUND_PORT,
        }
    }

    /// What the listener waits for before it binds.
    pub fn tls_plan(inbound: &OtoroshiSidecarConfigSpecInboundSettings) -> (res: TlsPlan)
        ensures
            res.deep_view() == tls_plan_of(inbound.deep_view()),
    {
        TlsPlan {
            cert_id: match &inbound.tls {
                Some(t) => t.cert_id.clone(),
                None => "none".to_string(),
            },
            client_ca_id: match &inbound.mtls {
                Some(m) => if m.enabled {
                    Some(m.ca_cert_id.clone())
                } else {
                    None
                },
                None => None,
            },
        }
    }

    /// The version the local process is spoken to in.
    pub fn target_version(inbound: &OtoroshiSidecarConfigSpecInboundSettings) -> (res: TargetVersion)
        ensures
            res == target_version_of(inbound.deep_view().target_version),
    {
        match &inbound.target_version {
            Some(v) => if str_eq(v.as_str(), "h2") {
                TargetVersion::H2
            } else {
                TargetVersion::Http11
            },
            None => TargetVersion::Http11,
        }
    }

    /// Where a request with this path and query goes on to.
    pub fn target_uri(
        inbound: &OtoroshiSidecarConfigSpecInboundSettings,
        path_and_query: Option<&str>,
    ) -> (res: String)
        ensures
            res@ == target_uri_of(inbound.deep_view().target_port, path_and_query.deep_view()),
    {
        let mut out = "http://127.0.0.1:".to_string();
        let port = match inbound.target_port {
            Some(p) => p,
            None => DEFAULT_TARGET_PORT,
        };
        push_decimal(&mut out, port as u64);
        match path_and_query {
            Some(p) => out.append(p),
            None => out.append("/"),
        }
        out
    }

    /// The `Host` the local process sees.
    pub fn forwarded_host(
        inbound: &OtoroshiSidecarConfigSpecInboundSettings,
        headers: &Headers,
        authority: Option<&str>,
    ) -> (res: String)
        ensures
            res@ == forwarded_host_of(
                inbound.deep_view().target_hostname,
                headers.deep_view(),
                authority.deep_view(),
            ),
    {
        match &inbound.target_hostname {
            Some(h) => h.clone(),
            None => request_host(headers, authority),
        }
    }

    /// The headers of the request as it goes on.
    pub fn forwarded_headers(headers: &Headers, host: &str, additional: &Headers) -> (res: Headers)
        ensures
            res.deep_view() == forwarded_headers_of(
                headers.deep_view(),
                host@,
                additional.deep_view(),
            ),
    {
        let with_host = set_header(headers, "Host", host);
        set_headers(with_host, additional)
    }
}

} // verus!
