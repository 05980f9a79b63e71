//! The outbound proxy: which calls of the local process it takes over, what
//! it adds to them and where it sends them.

use rand::seq::IndexedRandom;
use vstd::prelude::*;
use crate::http_utils::{
    host_of, request_host, set_header, set_headers, with_header, with_headers, Headers,
};
use crate::sidecar::cache::{
    service_hostname, service_hostname_string, OtoroshiApikey, OtoroshiApikeyModel,
    OtoroshiCertificate, OtoroshiCertificateModel, SidecarCache,
};
use crate::sidecar::config::{
    default_kubernetes_location, default_routing_location, OtoroshiSidecarConfig,
    OtoroshiSidecarConfigSpec, OtoroshiSidecarConfigSpecOtoroshiSettings,
    OtoroshiSidecarConfigSpecOtoroshiSettingsModel,
    OtoroshiSidecarConfigSpecModel,
    OtoroshiSidecarConfigSpecOtoroshiSettingsLocationKubernetesLocation,
    OtoroshiSidecarConfigSpecOtoroshiSettingsRoutingLocation,
    OtoroshiSidecarConfigSpecOtoroshiSettingsRoutingLocationModel,
    OtoroshiSidecarConfigSpecOutboundsSettings, OtoroshiSidecarConfigSpecOutboundsSettingsModel,
};
use crate::utils::text::{decimal, ends_with, is_suffix, push_decimal};

verus! {

/// Suffix of the host names that belong to the mesh, unless configured.
pub const DEFAULT_MESH_DOMAIN: &'static str = ".otoroshi.mesh";

/// Port the outbound proxy listens on, unless configured.
pub const DEFAULT_OUTBOUND_PORT: u16 = 15001;

/// Address the outbound proxy listens on: it is not reachable from other
/// hosts.
pub const OUTBOUND_LISTEN_ADDRESS: &'static str = "127.0.0.1";

/// How many clients with a client certificate are kept, one under the id of
/// each certificate.
pub const CLIENTS_CAPACITY: u64 = 50;

/// Name of the header that carries the client id of an API key.
pub const CLIENT_ID_HEADER: &'static str = "otoroshi-client-id";

/// Name of the header that carries the client secret of an API key.
pub const CLIENT_SECRET_HEADER: &'static str = "otoroshi-client-secret";

/// The suffix that marks the host names of the mesh.
pub open spec fn mesh_domain_of(spec: OtoroshiSidecarConfigSpecModel) -> Seq<char> {
    match spec.dns_domain {
        Some(d) => d,
        None => DEFAULT_MESH_DOMAIN@,
    }
}

/// A call to `host` is taken over: the host name ends with the suffix of
/// the mesh.
pub open spec fn is_intercepted(spec: OtoroshiSidecarConfigSpecModel, host: Seq<char>) -> bool {
    is_suffix(host, mesh_domain_of(spec))
}

/// The id of the API key to present to `host`: the one of the rule under
/// exactly that host name, where the rule has one and it is switched on.
pub open spec fn apikey_id_of(
    outbounds: OtoroshiSidecarConfigSpecOutboundsSettingsModel,
    host: Seq<char>,
) -> Option<Seq<char>> {
    match outbounds.rule(host) {
        Some(rule) => match rule.apikey {
            Some(a) => if a.enabled {
                Some(a.apikey_id)
            } else {
                None
            },
            None => None,
        },
        None => None,
    }
}

/// The id of the client certificate to present to `host`: the one of the
/// rule under exactly that host name, where the rule has one and it is
/// switched on.
pub open spec fn client_cert_id_of(
    outbounds: OtoroshiSidecarConfigSpecOutboundsSettingsModel,
    host: Seq<char>,
) -> Option<Seq<char>> {
    match outbounds.rule(host) {
        Some(rule) => match rule.mtls {
            Some(m) => if m.enabled {
                Some(m.client_cert_id)
            } else {
                None
            },
            None => None,
        },
        None => None,
    }
}

/// The headers that carry an API key; none where the key is missing.
pub open spec fn credential_headers_of(apikey: Option<OtoroshiApikeyModel>) -> Seq<
    (Seq<char>, Seq<char>),
> {
    match apikey {
        Some(k) => seq![(CLIENT_ID_HEADER@, k.clientId), (CLIENT_SECRET_HEADER@, k.clientSecret)],
        None => seq![],
    }
}

/// The headers to add to a call to `host`, given what the cache holds of the
/// API key that the rule for the host names.
pub open spec fn outbound_headers(
    outbounds: OtoroshiSidecarConfigSpecOutboundsSettingsModel,
    host: Seq<char>,
    apikey: Option<OtoroshiApikeyModel>,
) -> Seq<(Seq<char>, Seq<char>)> {
    match apikey_id_of(outbounds, host) {
        Some(_) => credential_headers_of(apikey),
        None => seq![],
    }
}

/// The client certificate to present to `host`, with its id, given what the
/// cache holds of the certificate that the rule for the host names.
pub open spec fn outbound_client_cert(
    outbounds: OtoroshiSidecarConfigSpecOutboundsSettingsModel,
    host: Seq<char>,
    cert: Option<OtoroshiCertificateModel>,
) -> Option<(Seq<char>, OtoroshiCertificateModel)> {
    match (client_cert_id_of(outbounds, host), cert) {
        (Some(id), Some(c)) => Some((id, c)),
        _ => None,
    }
}

/// The scheme of a location.
pub open spec fn scheme_of(tls: bool) -> Seq<char> {
    if tls {
        "https"@
    } else {
        "http"@
    }
}

/// The routing location has addresses to choose from.
pub open spec fn has_address_pool(
    location: OtoroshiSidecarConfigSpecOtoroshiSettingsRoutingLocationModel,
) -> bool {
    match location.ip_addresses {
        Some(pool) => pool.len() > 0,
        None => false,
    }
}

/// The host that mesh traffic is sent to. In a cluster it is the gateway's
/// service. Elsewhere it is the address picked from the pool, where there
/// is a pool, and the host name of the location otherwise.
pub open spec fn routing_host_of(
    location: OtoroshiSidecarConfigSpecOtoroshiSettingsRoutingLocationModel,
    kubernetes: bool,
    picked: Option<Seq<char>>,
) -> Option<Seq<char>> {
    if kubernetes {
        Some(
            service_hostname(
                match location.kubernetes {
                    Some(k) => k,
                    None => default_kubernetes_location(),
                },
            ),
        )
    } else if has_address_pool(location) {
        picked
    } else {
        location.hostname
    }
}

/// Where a call with this path and query is sent: the routing location,
/// with the path and query kept.
pub open spec fn routing_uri_of(
    location: OtoroshiSidecarConfigSpecOtoroshiSettingsRoutingLocationModel,
    kubernetes: bool,
    picked: Option<Seq<char>>,
    path_and_query: Option<Seq<char>>,
) -> Option<Seq<char>> {
    match routing_host_of(location, kubernetes, picked) {
        Some(host) => Some(
            scheme_of(location.tls) + "://"@ + host + seq![':'] + decimal(location.port as nat)
                + match path_and_query {
                Some(p) => p,
                None => "/"@,
            },
        ),
        None => None,
    }
}

/// Where mesh traffic is sent, given how the gateway is reached: the
/// routing location of the settings, and the default one where the settings
/// are missing or name none.
pub open spec fn routing_location_for(
    settings: Option<OtoroshiSidecarConfigSpecOtoroshiSettingsModel>,
) -> OtoroshiSidecarConfigSpecOtoroshiSettingsRoutingLocationModel {
    match settings {
        Some(s) => match s.routing_location {
            Some(location) => location,
            None => default_routing_location(),
        },
        None => default_routing_location(),
    }
}

/// Where mesh traffic is sent, given how the gateway is reached.
pub fn routing_location_of(settings: Option<&OtoroshiSidecarConfigSpecOtoroshiSettings>) -> (res:
    OtoroshiSidecarConfigSpecOtoroshiSettingsRoutingLocation)
    ensures
        res.deep_view() == routing_location_for(settings.deep_view()),
{
    match settings {
        Some(s) => match &s.routing_location {
            Some(location) => location.clone(),
            None => OtoroshiSidecarConfigSpecOtoroshiSettingsRoutingLocation::default(),
        },
        None => OtoroshiSidecarConfigSpecOtoroshiSettingsRoutingLocation::default(),
    }
}

/// Calls `rand::seq::IndexedRandom::choose` on the pool with `rand::rng()`.
/// The choice is random: the contract says only that an empty pool gives
/// nothing and that anything else gives one of its addresses.
#[verifier::external_body]
fn choose_address(pool: &Vec<String>) -> (res: Option<String>)
    ensures
        match res {
            Some(address) => exists|i: int| 0 <= i < pool@.len() && #[trigger] pool@[i]@ == address@,
            None => pool@.len() == 0,
        },
{
    pool.choose(&mut rand::rng()).cloned()
}

/// What the proxy does with a call.
#[derive(Debug, Clone, Copy, PartialEq, Eq, Structural)]
pub enum OutboundAction {
    /// The call goes to where it was meant to go, as it is.
    PassThrough,
    /// The call is sent to the routing location of the gateway.
    Route,
}

/// The outbound proxy.
pub struct OutboundProxy {}

impl OutboundProxy {
    /// The port the listener binds.
    pub fn listen_port(outbounds: &OtoroshiSidecarConfigSpecOutboundsSettings) -> (res: u16)
        ensures
            res == match outbounds.port {
                Some(p) => p,
                None => DEFAULT_OUTBOUND_PORT,
            },
    {
        match outbounds.port {
            Some(p) => p,
            None => DEFAULT_OUTBOUND_PORT,
        }
    }

    /// Whether a call to `host` is taken over.
    pub fn is_mesh_host(spec: &OtoroshiSidecarConfigSpec, host: &str) -> (res: bool)
        ensures
            res == is_intercepted(spec.deep_view(), host@),
    {
        match &spec.dns_domain {
            Some(d) => ends_with(host, d.as_str()),
            None => ends_with(host, DEFAULT_MESH_DOMAIN),
        }
    }

    /// What the proxy does with a call that has these headers and this host
    /// in its target: it routes a call to a host of the mesh and passes every
    /// other call through.
    pub fn action(spec: &OtoroshiSidecarConfigSpec, headers: &Headers, authority: Option<&str>) -> (res:
        (OutboundAction, String))
        ensures
            res.1@ == host_of(headers.deep_view(), authority.deep_view()),
            res.0 == if is_intercepted(spec.deep_view(), res.1@) {
                OutboundAction::Route
            } else {
                OutboundAction::PassThrough
            },
    {
        let host = request_host(headers, authority);
        if OutboundProxy::is_mesh_host(spec, host.as_str()) {
            (OutboundAction::Route, host)
        } else {
            (OutboundAction::PassThrough, host)
        }
    }

    /// The id of the API key to present to `host`.
    pub fn apikey_id_for<'a>(
        outbounds: &'a OtoroshiSidecarConfigSpecOutboundsSettings,
        host: &str,
    ) -> (res: Option<&'a String>)
        ensures
            res.deep_view() == apikey_id_of(outbounds.deep_view(), host@),
    {
        match outbounds.get(host) {
            Some(rule) => match &rule.apikey {
                Some(a) => if a.enabled {
                    Some(&a.apikey_id)
                } else {
                    None
                },
                None => None,
            },
            None => None,
        }
    }

    /// The id of the client certificate to present to `host`.
    pub fn client_cert_id_for<'a>(
        outbounds: &'a OtoroshiSidecarConfigSpecOutboundsSettings,
        host: &str,
    ) -> (res: Option<&'a String>)
        ensures
            res.deep_view() == client_cert_id_of(outbounds.deep_view(), host@),
    {
        match outbounds.get(host) {
            Some(rule) => match &rule.mtls {
                Some(m) => if m.enabled {
                    Some(&m.client_cert_id)
                } else {
                    None
                },
                None => None,
            },
            None => None,
        }
    }

    /// The headers that carry an API key; none where the key is missing.
    pub fn credential_headers(apikey: Option<&OtoroshiApikey>) -> (res: Headers)
        ensures
            res.deep_view() == credential_headers_of(apikey.deep_view()),
    {
        let mut out: Headers = Vec::new();
        match apikey {
            Some(k) => {
                out.push((CLIENT_ID_HEADER.to_string(), k.clientId.clone()));
                out.push((CLIENT_SECRET_HEADER.to_string(), k.clientSecret.clone()));
                proof {
                    assert(out.deep_view() =~= credential_headers_of(apikey.deep_view()));
                }
            },
            None => {
                proof {
                    assert(out.deep_view() =~= seq![]);
                }
            },
        }
        out
    }

    /// The headers to add to a call to `host`, by what the cache holds.
    /// A key that the cache does not hold adds nothing; the call goes on.
    pub fn get_additional_headers(
        config: &OtoroshiSidecarConfig,
        cache: &SidecarCache,
        host: &str,
    ) -> (res: Headers)
        ensures
            exists|apikey: Option<OtoroshiApikeyModel>|
                res.deep_view() == #[trigger] outbound_headers(
                    config.deep_view().spec.outbounds,
                    host@,
                    apikey,
                ),
    {
        match OutboundProxy::apikey_id_for(&config.spec.outbounds, host) {
            Some(id) => {
                let apikey = cache.get_apikey_by_id(id.clone());
                let res = OutboundProxy::credential_headers(apikey.as_ref());
                proof {
                    assert(res.deep_view() == outbound_headers(
                        config.deep_view().spec.outbounds,
                        host@,
                        apikey.deep_view(),
                    ));
                }
                res
            },
            None => {
                let res: Headers = Vec::new();
                proof {
                    assert(res.deep_view() =~= seq![]);
                    assert(res.deep_view() == outbound_headers(
                        config.deep_view().spec.outbounds,
                        host@,
                        None,
                    ));
                }
                res
            },
        }
    }

    /// The client certificate to present to `host`, with its id, by what the
    /// cache holds. Without the certificate the call goes on without one.
    pub fn get_client_cert(config: &OtoroshiSidecarConfig, cache: &SidecarCache, host: &str) -> (res:
        Option<(String, OtoroshiCertificate)>)
        ensures
            exists|cert: Option<OtoroshiCertificateModel>|
                res.deep_view() == #[trigger] outbound_client_cert(
                    config.deep_view().spec.outbounds,
                    host@,
                    cert,
                ),
    {
        match OutboundProxy::client_cert_id_for(&config.spec.outbounds, host) {
            Some(id) => {
                let cert = cache.get_cert_by_id(id.clone());
                let ghost held = cert.deep_view();
                let res = match cert {
                    Some(c) => Some((id.clone(), c)),
                    None => None,
                };
                proof {
                    assert(res.deep_view() == outbound_client_cert(
                        config.deep_view().spec.outbounds,
                        host@,
                        held,
                    ));
                }
                res
            },
            None => {
                proof {
                    assert(None::<(String, OtoroshiCertificate)>.deep_view()
                        == outbound_client_cert(config.deep_view().spec.outbounds, host@, None));
                }
                None
            },
        }
    }

    /// The headers of a routed call: those it came with, with `Host` set to
    /// the host it was meant for and the additional headers set after it.
    pub fn forwarded_headers(headers: &Headers, host: &str, additional: &Headers) -> (res: Headers)
        ensures
            res.deep_view() == with_headers(
                with_header(headers.deep_view(), "Host"@, host@),
                additional.deep_view(),
                additional.deep_view().len() as int,
            ),
    {
        let with_host = set_header(headers, "Host", host);
        set_headers(with_host, additional)
    }

    /// Where a call with this path and query is sent, with `picked` as the
    /// address taken from the pool; `None` where the location names no host.
    pub fn routing_uri_with(
        location: &OtoroshiSidecarConfigSpecOtoroshiSettingsRoutingLocation,
        kubernetes: bool,
        picked: Option<&str>,
        path_and_query: Option<&str>,
    ) -> (res: Option<String>)
        ensures
            res.deep_view() == routing_uri_of(
                location.deep_view(),
                kubernetes,
                picked.deep_view(),
                path_and_query.deep_view(),
            ),
    {
        let pooled = match &location.ip_addresses {
            Some(pool) => pool.len() > 0,
            None => false,
        };
        let host: String = if kubernetes {
            match &location.kubernetes {
                Some(k) => service_hostname_string(k),
                None => service_hostname_string(
                    &OtoroshiSidecarConfigSpecOtoroshiSettingsLocationKubernetesLocation::default(),
                ),
            }
        } else if pooled {
            match picked {
                Some(p) => p.to_string(),
                None => { return None; },
            }
        } else {
            match &location.hostname {
                Some(h) => h.clone(),
                None => { return None; },
            }
        };
        let mut out = if location.tls {
            "https".to_string()
        } else {
            "http".to_string()
        };
        out.append("://");
        out.append(host.as_str());
        out.push(':');
        push_decimal(&mut out, location.port as u64);
        match path_and_query {
            Some(p) => out.append(p),
            None => out.append("/"),
        }
        proof {
            let m = location.deep_view();
            let tail = match path_and_query.deep_view() {
                Some(p) => p,
                None => "/"@,
            };
            assert(out@ =~= scheme_of(m.tls) + "://"@ + host@ + seq![':'] + decimal(m.port as nat)
                + tail);
        }
        Some(out)
    }

    /// Where a call with this path and query is sent. Where the location has
    /// a pool of addresses, one of them is picked at random.
    pub fn routing_uri(
        location: &OtoroshiSidecarConfigSpecOtoroshiSettingsRoutingLocation,
        kubernetes: bool,
        path_and_query: Option<&str>,
    ) -> (res: Option<String>)
        ensures
            exists|picked: Option<Seq<char>>|
                res.deep_view() == #[trigger] routing_uri_of(
                    location.deep_view(),
                    kubernetes,
                    picked,
                    path_and_query.deep_view(),
                ) && match picked {
                    Some(p) => has_address_pool(location.deep_view())
                        && location.deep_view().ip_addresses.unwrap().contains(p),
                    None => !has_address_pool(location.deep_view()),
                },
    {
        let picked = match &location.ip_addresses {
            Some(pool) => choose_address(pool),
            None => None,
        };
        let res = match &picked {
            Some(p) => OutboundProxy::routing_uri_with(
                location,
                kubernetes,
                Some(p.as_str()),
                path_and_query,
            ),
            None => OutboundProxy::routing_uri_with(location, kubernetes, None, path_and_query),
        };
        proof {
            let chosen = picked.deep_view();
            assert(res.deep_view() == routing_uri_of(
                location.deep_view(),
                kubernetes,
                chosen,
                path_and_query.deep_view(),
            ));
            match picked {
                Some(p) => {
                    let pool = location.ip_addresses.unwrap();
                    let i = choose|i: int| 0 <= i < pool@.len() && #[trigger] pool@[i]@ == p@;
                    assert(location.deep_view().ip_addresses.unwrap()[i] == p@);
                },
                None => {},
            }
        }
        res
    }
}

/// A rule that names an API key which the cache does not hold adds no
/// credential header to the call, whatever the host and the rules.
pub proof fn lemma_missing_apikey_adds_nothing(
    outbounds: OtoroshiSidecarConfigSpecOutboundsSettingsModel,
    host: Seq<char>,
)
    ensures
        outbound_headers(outbounds, host, None) == Seq::<(Seq<char>, Seq<char>)>::empty(),
{
}

/// Whether a call is taken over depends on the suffix of its host name
/// alone: it is routed exactly if the host name ends with the suffix of the
/// mesh, and a host name shorter than the suffix is never routed.
pub proof fn lemma_interception_boundary(spec: OtoroshiSidecarConfigSpecModel, host: Seq<char>)
    ensures
        is_intercepted(spec, host) <==> exists|prefix: Seq<char>|
            host == prefix + mesh_domain_of(spec),
        host.len() < mesh_domain_of(spec).len() ==> !is_intercepted(spec, host),
{
    let d = mesh_domain_of(spec);
    if is_intercepted(spec, host) {
        let prefix = host.subrange(0, host.len() - d.len());
        assert(host =~= prefix + d);
    }
    if exists|prefix: Seq<char>| host == prefix + d {
        let prefix = choose|prefix: Seq<char>| host == prefix + d;
        assert(host.subrange(host.len() - d.len(), host.len() as int) =~= d);
    }
}

} // verus!
