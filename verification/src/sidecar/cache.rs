//! The resources the sidecar takes from the control plane (routes,
//! certificates and API keys) and the cache that keeps them for a while.

use vstd::prelude::*;
use crate::cli::config::OtoroshiCtlConfig;
use crate::otoroshi::token::current_timestamp;
use crate::cli::config::{
    OtoroshiCtlConfigModel, OtoroshiCtlConfigSpecClusterClientCert,
    OtoroshiCtlConfigSpecClusterClientCertModel,
};
use crate::sidecar::config::{
    default_credentials, default_kubernetes_location, default_location, OtoroshiSidecarConfig,
    OtoroshiSidecarConfigModel, OtoroshiSidecarConfigSpecInboundSettingsModel,
    OtoroshiSidecarConfigSpecModel, OtoroshiSidecarConfigSpecOtoroshiSettings,
    OtoroshiSidecarConfigSpecOtoroshiSettingsClientCertModel,
    OtoroshiSidecarConfigSpecOtoroshiSettingsCredentials,
    OtoroshiSidecarConfigSpecOtoroshiSettingsLocation,
    OtoroshiSidecarConfigSpecOtoroshiSettingsLocationKubernetesLocation,
    OtoroshiSidecarConfigSpecOtoroshiSettingsLocationKubernetesLocationModel,
    OtoroshiSidecarConfigSpecOtoroshiSettingsModel,
    OtoroshiSidecarConfigSpecOutboundsSettingsOutboundModel,
};
use crate::utils::otoroshi::{OtoroshiConnectionConfig, OtoroshiConnectionConfigModel};
use crate::utils::search::{first_index, lemma_first_index};
use crate::utils::text::{clone_opt_string, decimal, push_decimal};

verus! {

/// The secret and digest width of one direction of a challenge plugin.
#[derive(Debug)]
pub struct OtoroshiChallengePluginAlgo {
    pub secret: String,
    /// Width of the digest in bits.
    pub size: i32,
    pub base64: bool,
}

/// The plain value of a [`OtoroshiChallengePluginAlgo`].
pub struct OtoroshiChallengePluginAlgoModel {
    pub secret: Seq<char>,
    pub size: i32,
    pub base64: bool,
}

impl DeepView for OtoroshiChallengePluginAlgo {
    type V = OtoroshiChallengePluginAlgoModel;

    open spec fn deep_view(&self) -> OtoroshiChallengePluginAlgoModel {
        OtoroshiChallengePluginAlgoModel {
            secret: self.secret.deep_view(),
            size: self.size.deep_view(),
            base64: self.base64.deep_view(),
        }
    }
}

impl Clone for OtoroshiChallengePluginAlgo {
    fn clone(&self) -> (res: Self)
        ensures
            res.deep_view() == self.deep_view(),
    {
        OtoroshiChallengePluginAlgo {
            secret: self.secret.clone(),
            size: self.size,
            base64: self.base64,
        }
    }
}

/// The settings of the challenge plugin of a route.
#[derive(Debug)]
pub struct OtoroshiChallengePlugin {
    pub version: String,
    /// Lifetime of a response token in seconds.
    pub ttl: i32,
    pub request_header_name: Option<String>,
    pub response_header_name: Option<String>,
    pub state_resp_leeway: i32,
    /// What the gateway signs challenges with.
    pub algo_to_backend: OtoroshiChallengePluginAlgo,
    /// What the gateway expects responses to be signed with.
    pub algo_from_backend: OtoroshiChallengePluginAlgo,
}

/// The plain value of a [`OtoroshiChallengePlugin`].
pub struct OtoroshiChallengePluginModel {
    pub version: Seq<char>,
    pub ttl: i32,
    pub request_header_name: Option<Seq<char>>,
    pub response_header_name: Option<Seq<char>>,
    pub state_resp_leeway: i32,
    pub algo_to_backend: OtoroshiChallengePluginAlgoModel,
    pub algo_from_backend: OtoroshiChallengePluginAlgoModel,
}

impl DeepView for OtoroshiChallengePlugin {
    type V = OtoroshiChallengePluginModel;

    open spec fn deep_view(&self) -> OtoroshiChallengePluginModel {
        OtoroshiChallengePluginModel {
            version: self.version.deep_view(),
            ttl: self.ttl.deep_view(),
            request_header_name: self.request_header_name.deep_view(),
            response_header_name: self.response_header_name.deep_view(),
            state_resp_leeway: self.state_resp_leeway.deep_view(),
            algo_to_backend: self.algo_to_backend.deep_view(),
            algo_from_backend: self.algo_from_backend.deep_view(),
        }
    }
}

impl Clone for OtoroshiChallengePlugin {
    fn clone(&self) -> (res: Self)
        ensures
            res.deep_view() == self.deep_view(),
    {
        OtoroshiChallengePlugin {
            version: self.version.clone(),
            ttl: self.ttl,
            request_header_name: clone_opt_string(&self.request_header_name),
            response_header_name: clone_opt_string(&self.response_header_name),
            state_resp_leeway: self.state_resp_leeway,
            algo_to_backend: self.algo_to_backend.clone(),
            algo_from_backend: self.algo_from_backend.clone(),
        }
    }
}

/// One plugin of a route. Of its configuration only what reads as
/// challenge settings is kept.
#[derive(Debug)]
pub struct OtoroshiPlugins {
    /// Identifier of the plugin.
    pub plugin: String,
    pub config: Option<OtoroshiChallengePlugin>,
}

/// The plain value of a [`OtoroshiPlugins`].
pub struct OtoroshiPluginsModel {
    pub plugin: Seq<char>,
    pub config: Option<OtoroshiChallengePluginModel>,
}

impl DeepView for OtoroshiPlugins {
    type V = OtoroshiPluginsModel;

    open spec fn deep_view(&self) -> OtoroshiPluginsModel {
        OtoroshiPluginsModel {
            plugin: self.plugin.deep_view(),
            config: self.config.deep_view(),
        }
    }
}

impl Clone for OtoroshiPlugins {
    fn clone(&self) -> (res: Self)
        ensures
            res.deep_view() == self.deep_view(),
    {
        OtoroshiPlugins {
            plugin: self.plugin.clone(),
            config: match &self.config {
                Some(inner) => Some(inner.clone()),
                None => None,
            },
        }
    }
}

/// A route of the gateway.
#[derive(Debug, Clone)]
pub struct OtoroshiRoute {
    pub id: String,
    pub name: String,
    pub plugins: Vec<OtoroshiPlugins>,
}

/// The plain value of a [`OtoroshiRoute`].
pub struct OtoroshiRouteModel {
    pub id: Seq<char>,
    pub name: Seq<char>,
    pub plugins: Seq<OtoroshiPluginsModel>,
}

impl DeepView for OtoroshiRoute {
    type V = OtoroshiRouteModel;

    open spec fn deep_view(&self) -> OtoroshiRouteModel {
        OtoroshiRouteModel {
            id: self.id.deep_view(),
            name: self.name.deep_view(),
            plugins: self.plugins.deep_view(),
        }
    }
}

/// A certificate of the gateway: the chain and the private key as PEM
/// text.
#[derive(Debug)]
#[allow(non_snake_case)]
pub struct OtoroshiCertificate {
    pub id: String,
    pub name: String,
    pub chain: String,
    pub privateKey: String,
    pub subject: String,
}

/// The plain value of a [`OtoroshiCertificate`].
#[allow(non_snake_case)]
pub struct OtoroshiCertificateModel {
    pub id: Seq<char>,
    pub name: Seq<char>,
    pub chain: Seq<char>,
    pub privateKey: Seq<char>,
    pub subject: Seq<char>,
}

impl DeepView for OtoroshiCertificate {
    type V = OtoroshiCertificateModel;

    open spec fn deep_view(&self) -> OtoroshiCertificateModel {
        OtoroshiCertificateModel {
            id: self.id.deep_view(),
            name: self.name.deep_view(),
            chain: self.chain.deep_view(),
            privateKey: self.privateKey.deep_view(),
            subject: self.subject.deep_view(),
        }
    }
}

impl Clone for OtoroshiCertificate {
    fn clone(&self) -> (res: Self)
        ensures
            res.deep_view() == self.deep_view(),
    {
        OtoroshiCertificate {
            id: self.id.clone(),
            name: self.name.clone(),
            chain: self.chain.clone(),
            privateKey: self.privateKey.clone(),
            subject: self.subject.clone(),
        }
    }
}

/// An API key of the gateway.
#[derive(Debug)]
#[allow(non_snake_case)]
pub struct OtoroshiApikey {
    pub clientId: String,
    pub clientSecret: String,
    pub clientName: Option<String>,
}

/// The plain value of a [`OtoroshiApikey`].
#[allow(non_snake_case)]
pub struct OtoroshiApikeyModel {
    pub clientId: Seq<char>,
    pub clientSecret: Seq<char>,
    pub clientName: Option<Seq<char>>,
}

impl DeepView for OtoroshiApikey {
    type V = OtoroshiApikeyModel;

    open spec fn deep_view(&self) -> OtoroshiApikeyModel {
        OtoroshiApikeyModel {
            clientId: self.clientId.deep_view(),
            clientSecret: self.clientSecret.deep_view(),
            clientName: self.clientName.deep_view(),
        }
    }
}

impl Clone for OtoroshiApikey {
    fn clone(&self) -> (res: Self)
        ensures
            res.deep_view() == self.deep_view(),
    {
        OtoroshiApikey {
            clientId: self.clientId.clone(),
            clientSecret: self.clientSecret.clone(),
            clientName: clone_opt_string(&self.clientName),
        }
    }
}
/// Seconds for which a cached resource counts as present.
pub const CACHE_TTL_SECONDS: i64 = 120;

/// How many routes the cache holds.
pub const ROUTES_CAPACITY: u64 = 50;

/// How many certificates the cache holds.
pub const CERTIFICATES_CAPACITY: u64 = 500;

/// How many API keys the cache holds.
pub const APIKEYS_CAPACITY: u64 = 2000;

/// A cached value and the Unix time, in seconds, at which it was put in.
#[derive(Debug, Clone)]
pub struct CacheEntry<T> {
    pub value: T,
    pub inserted_at: i64,
}

/// An entry put in at `inserted_at` still counts at `now`: it is younger
/// than the time to live.
pub open spec fn is_fresh(inserted_at: i64, now: i64) -> bool {
    now - inserted_at < CACHE_TTL_SECONDS
}

/// What a lookup yields at `now`, given what the store holds under the id:
/// the value of an entry that is still fresh.
pub open spec fn fresh_value_of<T>(entry: Option<CacheEntry<T>>, now: i64) -> Option<T> {
    match entry {
        Some(e) => if is_fresh(e.inserted_at, now) {
            Some(e.value)
        } else {
            None
        },
        None => None,
    }
}

/// The value of `entry` if it is still fresh at `now`. An entry that has
/// outlived the time to live is treated as absent.
pub fn fresh_value<T>(entry: Option<CacheEntry<T>>, now: i64) -> (res: Option<T>)
    ensures
        res == fresh_value_of(entry, now),
{
    match entry {
        Some(e) => {
            let fresh = if e.inserted_at >= 0 {
                now < 0 || now - e.inserted_at < CACHE_TTL_SECONDS
            } else {
                now < e.inserted_at + CACHE_TTL_SECONDS
            };
            if fresh {
                Some(e.value)
            } else {
                None
            }
        },
        None => None,
    }
}

/// An entry is returned one second before its time to live is over and
/// counts as absent one second after, and the time to live itself is the
/// first moment at which it is absent.
pub proof fn lemma_entry_lives_for_the_time_to_live<T>(value: T, inserted_at: i64, now: i64)
    ensures
        now - inserted_at <= 119 ==> fresh_value_of(
            Some(CacheEntry { value, inserted_at }),
            now,
        ) == Some(value),
        now - inserted_at >= 120 ==> fresh_value_of(
            Some(CacheEntry { value, inserted_at }),
            now,
        ) is None,
{
}

/// `moka::sync::Cache`: a concurrent store that drops entries by age and by
/// capacity. Nothing is known of what it holds.
#[verifier::external_type_specification]
#[verifier::external_body]
#[verifier::reject_recursive_types(K)]
#[verifier::reject_recursive_types(V)]
#[verifier::reject_recursive_types(S)]
pub struct ExStore<K, V, S>(moka::sync::Cache<K, V, S>);

/// Longest time to live, in seconds, that a store can be built with.
pub const LONGEST_TTL_SECONDS: u64 = 31_536_000_000;

/// Builds a `moka::sync::Cache` with `CacheBuilder::new`, `time_to_live` and
/// `build`. The build panics for a time to live over a thousand years, which
/// the precondition leaves out. Nothing is claimed of the store.
#[verifier::external_body]
fn store_new<V: Clone + Send + Sync + 'static>(capacity: u64, ttl_seconds: u64) -> moka::sync::Cache<
    String,
    CacheEntry<V>,
>
    requires
        ttl_seconds <= LONGEST_TTL_SECONDS,
{
    moka::sync::CacheBuilder::new(capacity).time_to_live(
        std::time::Duration::from_secs(ttl_seconds),
    ).build()
}

/// Calls `moka::sync::Cache::get`. What it returns depends on the clock, on
/// evictions and on other threads, so nothing is claimed of it.
#[verifier::external_body]
fn store_get<V: Clone + Send + Sync + 'static>(
    store: &moka::sync::Cache<String, CacheEntry<V>>,
    id: &str,
) -> Option<CacheEntry<V>> {
    store.get(id)
}

/// Calls `moka::sync::Cache::insert`, which puts the entry under the id or
/// updates the one that is there.
#[verifier::external_body]
fn store_insert<V: Clone + Send + Sync + 'static>(
    store: &moka::sync::Cache<String, CacheEntry<V>>,
    id: String,
    entry: CacheEntry<V>,
) {
    store.insert(id, entry)
}

/// The certificates that `rustls_pemfile::certs` reads from PEM text, each
/// in DER form; `None` where it reports an error.
pub uninterp spec fn pem_certificates(text: Seq<char>) -> Option<Seq<Seq<u8>>>;

/// The keys that `rustls_pemfile::pkcs8_private_keys` reads from PEM text,
/// each in DER form; `None` where it reports an error.
pub uninterp spec fn pem_private_keys(text: Seq<char>) -> Option<Seq<Seq<u8>>>;

/// Calls `rustls_pemfile::certs` on the bytes of `text`. The contract claims
/// only that the outcome is `pem_certificates` of the text.
#[verifier::external_body]
fn read_certificates(text: &str) -> (res: Option<Vec<Vec<u8>>>)
    ensures
        res.deep_view() == pem_certificates(text@),
{
    rustls_pemfile::certs(&mut text.as_bytes()).ok()
}

/// Calls `rustls_pemfile::pkcs8_private_keys` on the bytes of `text`. The
/// contract claims only that the outcome is `pem_private_keys` of the text.
#[verifier::external_body]
fn read_private_keys(text: &str) -> (res: Option<Vec<Vec<u8>>>)
    ensures
        res.deep_view() == pem_private_keys(text@),
{
    rustls_pemfile::pkcs8_private_keys(&mut text.as_bytes()).ok()
}

/// What a TLS configuration is built from: a certificate chain and the one
/// private key, all in DER form.
#[derive(Debug, Clone)]
pub struct TlsMaterial {
    pub chain: Vec<Vec<u8>>,
    pub key: Vec<u8>,
}

/// What can be installed from what the PEM texts hold: a chain of at least
/// one certificate, and exactly one private key.
pub open spec fn usable_material(
    certs: Option<Seq<Seq<u8>>>,
    keys: Option<Seq<Seq<u8>>>,
) -> Option<(Seq<Seq<u8>>, Seq<u8>)> {
    match (certs, keys) {
        (Some(c), Some(k)) => if c.len() >= 1 && k.len() == 1 {
            Some((c, k[0]))
        } else {
            None
        },
        _ => None,
    }
}

/// The chain and key to install, from what was read of the two PEM texts.
/// Anything but a chain of at least one certificate with exactly one private
/// key is unusable.
pub fn select_material(certs: Option<Vec<Vec<u8>>>, keys: Option<Vec<Vec<u8>>>) -> (res: Option<
    TlsMaterial,
>)
    ensures
        match res {
            Some(m) => usable_material(certs.deep_view(), keys.deep_view()) == Some(
                (m.chain.deep_view(), m.key.deep_view()),
            ),
            None => usable_material(certs.deep_view(), keys.deep_view()) is None,
        },
{
    match (certs, keys) {
        (Some(chain), Some(mut keys)) => {
            if chain.len() >= 1 && keys.len() == 1 {
                let ghost before = keys.deep_view();
                let key = keys.remove(0);
                proof {
                    assert(key.deep_view() == before[0]);
                }
                Some(TlsMaterial { chain, key })
            } else {
                None
            }
        },
        _ => None,
    }
}

impl OtoroshiCertificate {
    /// The certificates of the chain, in DER form; `None` where the chain
    /// does not read as PEM.
    pub fn certs(&self) -> (res: Option<Vec<Vec<u8>>>)
        ensures
            res.deep_view() == pem_certificates(self.chain@),
    {
        read_certificates(self.chain.as_str())
    }

    /// The private key to install, in DER form. There is one only where the
    /// certificate is usable: the chain holds at least one certificate and
    /// the key text holds exactly one PKCS#8 key. A text with two keys gives
    /// none.
    pub fn key(&self) -> (res: Option<Vec<u8>>)
        ensures
            res.deep_view() == match usable_material(
                pem_certificates(self.chain@),
                pem_private_keys(self.privateKey@),
            ) {
                Some(material) => Some(material.1),
                None => None,
            },
    {
        match self.tls_material() {
            Some(material) => Some(material.key),
            None => None,
        }
    }

    /// What to install of this certificate, if it is usable.
    pub fn tls_material(&self) -> (res: Option<TlsMaterial>)
        ensures
            match res {
                Some(m) => usable_material(
                    pem_certificates(self.chain@),
                    pem_private_keys(self.privateKey@),
                ) == Some((m.chain.deep_view(), m.key.deep_view())),
                None => usable_material(
                    pem_certificates(self.chain@),
                    pem_private_keys(self.privateKey@),
                ) is None,
            },
    {
        let certs = read_certificates(self.chain.as_str());
        let keys = read_private_keys(self.privateKey.as_str());
        select_material(certs, keys)
    }
}

/// The kinds of resource the cache holds.
#[derive(Debug, Clone, Copy, PartialEq, Eq, Structural)]
pub enum ResourceKind {
    Certificate,
    Route,
    Apikey,
}

impl ResourceKind {
    /// The name under which the control-plane API lists the resources of
    /// this kind.
    pub fn plural_name(self) -> (res: &'static str)
        ensures
            res@ == match self {
                ResourceKind::Certificate => "certificates"@,
                ResourceKind::Route => "routes"@,
                ResourceKind::Apikey => "apikeys"@,
            },
    {
        match self {
            ResourceKind::Certificate => "certificates",
            ResourceKind::Route => "routes",
            ResourceKind::Apikey => "apikeys",
        }
    }
}

impl DeepView for ResourceKind {
    type V = ResourceKind;

    open spec fn deep_view(&self) -> ResourceKind {
        *self
    }
}

/// The resources the inbound settings name: the listener's certificate,
/// the authority for client certificates and the route of the challenge
/// settings, in this order, each where it is configured.
pub open spec fn inbound_resources(inbound: OtoroshiSidecarConfigSpecInboundSettingsModel) -> Seq<
    (ResourceKind, Seq<char>),
> {
    let tls = match inbound.tls {
        Some(t) => seq![(ResourceKind::Certificate, t.cert_id)],
        None => seq![],
    };
    let mtls = match inbound.mtls {
        Some(m) => seq![(ResourceKind::Certificate, m.ca_cert_id)],
        None => seq![],
    };
    let route = match inbound.otoroshi_protocol {
        Some(p) => match p.route_id {
            Some(id) => seq![(ResourceKind::Route, id)],
            None => seq![],
        },
        None => seq![],
    };
    tls + mtls + route
}

/// The resources one outbound rule names: its API key, then its client
/// certificate, each where it is configured.
pub open spec fn rule_resources(rule: OtoroshiSidecarConfigSpecOutboundsSettingsOutboundModel) -> Seq<
    (ResourceKind, Seq<char>),
> {
    let apikey = match rule.apikey {
        Some(a) => seq![(ResourceKind::Apikey, a.apikey_id)],
        None => seq![],
    };
    let mtls = match rule.mtls {
        Some(m) => seq![(ResourceKind::Certificate, m.client_cert_id)],
        None => seq![],
    };
    apikey + mtls
}

/// The resources the first `n` outbound rules name, rule after rule.
pub open spec fn rules_resources(
    rules: Seq<(Seq<char>, OtoroshiSidecarConfigSpecOutboundsSettingsOutboundModel)>,
    n: int,
) -> Seq<(ResourceKind, Seq<char>)>
    decreases n,
{
    if n <= 0 {
        seq![]
    } else {
        rules_resources(rules, n - 1) + rule_resources(rules[n - 1].1)
    }
}

/// Every resource the settings of a sidecar name, in the order in which
/// a refresh fetches them: those of the inbound settings, then those of the
/// outbound rules.
pub open spec fn referenced_resources(spec: OtoroshiSidecarConfigSpecModel) -> Seq<
    (ResourceKind, Seq<char>),
> {
    inbound_resources(spec.inbound) + rules_resources(
        spec.outbounds.outbounds,
        spec.outbounds.outbounds.len() as int,
    )
}

/// What a fetch on a miss comes to: the value to return, and whether it is
/// to be put into the cache.
#[derive(Debug, Clone, PartialEq, Eq)]
pub struct FetchOutcome<T> {
    pub value: Option<T>,
    pub insert: bool,
}

/// What a fetch comes to, given what the lookup gave and what the control
/// plane gave. A value that the cache holds is returned as it is and nothing
/// is put in. On a miss the fetched value is returned and put in; where the
/// fetch failed there is no value and nothing is put in.
pub open spec fn fetch_outcome_of<T>(cached: Option<T>, fetched: Option<T>) -> (Option<T>, bool) {
    match cached {
        Some(v) => (Some(v), false),
        None => match fetched {
            Some(v) => (Some(v), true),
            None => (None, false),
        },
    }
}

/// Whether the control plane is asked at all: only on a miss.
pub fn needs_fetch<T>(cached: &Option<T>) -> (res: bool)
    ensures
        res == (*cached is None),
{
    cached.is_none()
}

/// What a fetch comes to, given what the lookup gave and what the control
/// plane gave.
pub fn fetch_outcome<T>(cached: Option<T>, fetched: Option<T>) -> (res: FetchOutcome<T>)
    ensures
        (res.value, res.insert) == fetch_outcome_of(cached, fetched),
{
    match cached {
        Some(v) => FetchOutcome { value: Some(v), insert: false },
        None => match fetched {
            Some(v) => FetchOutcome { value: Some(v), insert: true },
            None => FetchOutcome { value: None, insert: false },
        },
    }
}

/// What a refresh comes to, given what the control plane gave: the fetched
/// value takes the place of whatever the cache holds; where the fetch failed
/// the cache is left as it is.
pub fn refresh_outcome<T>(fetched: Option<T>) -> (res: FetchOutcome<T>)
    ensures
        (res.value, res.insert) == fetch_outcome_of(None, fetched),
{
    fetch_outcome(None, fetched)
}

/// A fetch never returns less than the lookup did, puts in nothing but what
/// it returns, and puts in something exactly on a miss that the control
/// plane answered.
pub proof fn lemma_fetch_on_miss<T>(cached: Option<T>, fetched: Option<T>)
    ensures
        cached is Some ==> fetch_outcome_of(cached, fetched) == (cached, false),
        fetch_outcome_of(cached, fetched).1 <==> (cached is None && fetched is Some),
        fetch_outcome_of(cached, fetched).1 ==> fetch_outcome_of(cached, fetched).0 == fetched,
        fetch_outcome_of(cached, fetched).0 is None <==> (cached is None && fetched is None),
{
}

/// What follows a poll of a bounded wait.
#[derive(Debug, Clone, PartialEq, Eq)]
pub enum WaitAction<T> {
    /// The value is there.
    Return(T),
    /// Sleep for a second, then poll again.
    Retry,
    /// The attempts are used up: the wait has failed for good.
    GiveUp,
}

/// What follows the poll number `attempt`, counted from zero, of a wait of
/// at most `max_attempts` polls, when the poll gave `found`.
pub open spec fn wait_action<T>(attempt: int, max_attempts: int, found: Option<T>) -> WaitAction<T> {
    if attempt >= max_attempts {
        WaitAction::GiveUp
    } else {
        match found {
            Some(v) => WaitAction::Return(v),
            None => if attempt + 1 >= max_attempts {
                WaitAction::GiveUp
            } else {
                WaitAction::Retry
            },
        }
    }
}

/// Decides what follows the poll number `attempt`, counted from zero, of a
/// wait of at most `max_attempts` polls.
pub fn wait_step<T>(attempt: i32, max_attempts: i32, found: Option<T>) -> (res: WaitAction<T>)
    ensures
        res == wait_action(attempt as int, max_attempts as int, found),
{
    if attempt >= max_attempts {
        WaitAction::GiveUp
    } else {
        match found {
            Some(v) => WaitAction::Return(v),
            None => if attempt >= max_attempts - 1 {
                WaitAction::GiveUp
            } else {
                WaitAction::Retry
            },
        }
    }
}

/// How a wait ends when the polls from number `attempt` on give `polls` in
/// turn: the value it returns, if any, and the number of polls made by
/// then.
pub open spec fn wait_outcome<T>(polls: Seq<Option<T>>, max_attempts: int, attempt: int) -> (
    Option<T>,
    int,
)
    decreases max_attempts - attempt,
{
    if attempt < 0 || attempt >= max_attempts || attempt >= polls.len() {
        (None, attempt)
    } else {
        match wait_action(attempt, max_attempts, polls[attempt]) {
            WaitAction::Return(v) => (Some(v), attempt + 1),
            WaitAction::GiveUp => (None, attempt + 1),
            WaitAction::Retry => wait_outcome(polls, max_attempts, attempt + 1),
        }
    }
}

/// The condition that a poll found a value.
pub open spec fn found_value<T>() -> spec_fn(Option<T>) -> bool {
    |p: Option<T>| p is Some
}

proof fn lemma_wait_from<T>(polls: Seq<Option<T>>, max_attempts: int, attempt: int)
    requires
        0 <= attempt < max_attempts <= polls.len(),
        forall|j: int| 0 <= j < attempt ==> polls[j] is None,
    ensures
        wait_outcome(polls, max_attempts, attempt) == match first_index(
            polls.take(max_attempts),
            found_value(),
        ) {
            Some(i) => (polls[i], i + 1),
            None => (None::<T>, max_attempts),
        },
    decreases max_attempts - attempt,
{
    let window = polls.take(max_attempts);
    lemma_first_index(window, found_value());
    match polls[attempt] {
        Some(v) => {
            assert(window[attempt] == polls[attempt]);
            assert(forall|j: int| 0 <= j < attempt ==> window[j] == polls[j]);
        },
        None => {
            if attempt + 1 < max_attempts {
                lemma_wait_from(polls, max_attempts, attempt + 1);
            } else {
                assert(forall|j: int| 0 <= j < max_attempts ==> window[j] == polls[j]);
            }
        },
    }
}

/// A wait of at most `max_attempts` polls, one second apart, returns the
/// value at the first poll that finds one, and gives up after exactly
/// `max_attempts` polls when none does. A later poll is never made.
pub proof fn lemma_wait_is_bounded<T>(polls: Seq<Option<T>>, max_attempts: int)
    requires
        1 <= max_attempts <= polls.len(),
    ensures
        wait_outcome(polls, max_attempts, 0) == match first_index(
            polls.take(max_attempts),
            found_value(),
        ) {
            Some(i) => (polls[i], i + 1),
            None => (None::<T>, max_attempts),
        },
        wait_outcome(polls, max_attempts, 0).1 <= max_attempts,
{
    lemma_wait_from(polls, max_attempts, 0);
    lemma_first_index(polls.take(max_attempts), found_value());
}

/// The client certificate of sidecar settings, as connection settings hold
/// it.
pub open spec fn cluster_cert_of(
    cert: OtoroshiSidecarConfigSpecOtoroshiSettingsClientCertModel,
) -> OtoroshiCtlConfigSpecClusterClientCertModel {
    OtoroshiCtlConfigSpecClusterClientCertModel {
        cert_location: cert.cert_location,
        cert_value: cert.cert_value,
        key_location: cert.key_location,
        key_value: cert.key_value,
        ca_location: cert.ca_location,
        ca_value: cert.ca_value,
    }
}

/// The name under which a service of the cluster is reached.
pub open spec fn service_hostname(
    kube: OtoroshiSidecarConfigSpecOtoroshiSettingsLocationKubernetesLocationModel,
) -> Seq<char> {
    kube.service + seq!['.'] + kube.namespace + ".svc.cluster.local"@
}

/// The connection to the control-plane API that settings describe. Missing
/// parts are filled in with the defaults. In a cluster the gateway is reached
/// as a service; elsewhere by its host name, without which there is no
/// connection.
pub open spec fn connection_for(
    settings: OtoroshiSidecarConfigSpecOtoroshiSettingsModel,
    kubernetes: bool,
) -> Option<OtoroshiConnectionConfigModel> {
    let location = match settings.location {
        Some(l) => l,
        None => default_location(),
    };
    let credentials = match settings.credentials {
        Some(c) => c,
        None => default_credentials(),
    };
    let hostname = if kubernetes {
        Some(
            service_hostname(
                match location.kubernetes {
                    Some(k) => k,
                    None => default_kubernetes_location(),
                },
            ),
        )
    } else {
        location.hostname
    };
    match hostname {
        Some(h) => Some(
            OtoroshiConnectionConfigModel {
                host: h + seq![':'] + decimal(location.port as nat),
                hostname: h,
                port: location.port,
                ip_addresses: location.ip_addresses,
                cid: credentials.client_id,
                csec: credentials.client_secret,
                chealth: None,
                tls: location.tls,
                mtls: match settings.client_cert {
                    Some(cert) => Some(cluster_cert_of(cert)),
                    None => None,
                },
                routing_hostname: match settings.routing_location {
                    Some(r) => r.hostname,
                    None => None,
                },
                routing_port: match settings.routing_location {
                    Some(r) => Some(r.port),
                    None => None,
                },
                routing_tls: match settings.routing_location {
                    Some(r) => Some(r.tls),
                    None => None,
                },
                routing_ip_addresses: match settings.routing_location {
                    Some(r) => r.ip_addresses,
                    None => None,
                },
            },
        ),
        None => None,
    }
}

/// The name under which a service of the cluster is reached, as a string.
pub fn service_hostname_string(
    kube: &OtoroshiSidecarConfigSpecOtoroshiSettingsLocationKubernetesLocation,
) -> (res: String)
    ensures
        res@ == service_hostname(kube.deep_view()),
{
    let mut out = kube.service.clone();
    out.push('.');
    out.append(kube.namespace.as_str());
    out.append(".svc.cluster.local");
    proof {
        assert(out@ =~= service_hostname(kube.deep_view()));
    }
    out
}

/// The connection to the control-plane API that `settings` describe.
pub fn connection_from_settings(
    settings: OtoroshiSidecarConfigSpecOtoroshiSettings,
    kubernetes: bool,
) -> (res: Option<OtoroshiConnectionConfig>)
    ensures
        res.deep_view() == connection_for(settings.deep_view(), kubernetes),
{
    let location = match settings.location {
        Some(l) => l,
        None => OtoroshiSidecarConfigSpecOtoroshiSettingsLocation::default(),
    };
    let credentials = match settings.credentials {
        Some(c) => c,
        None => OtoroshiSidecarConfigSpecOtoroshiSettingsCredentials::default(),
    };
    let hostname = if kubernetes {
        let kube = match location.kubernetes {
            Some(k) => k,
            None => OtoroshiSidecarConfigSpecOtoroshiSettingsLocationKubernetesLocation::default(),
        };
        service_hostname_string(&kube)
    } else {
        match location.hostname {
            Some(h) => h,
            None => { return None; },
        }
    };
    let mut host = hostname.clone();
    host.push(':');
    push_decimal(&mut host, location.port as u64);
    proof {
        assert(hostname@.push(':') =~= hostname@ + seq![':']);
    }
    let (routing_hostname, routing_port, routing_tls, routing_ip_addresses) =
        match settings.routing_location {
        Some(r) => (r.hostname, Some(r.port), Some(r.tls), r.ip_addresses),
        None => (None, None, None, None),
    };
    Some(
        OtoroshiConnectionConfig {
            host,
            hostname,
            port: location.port,
            ip_addresses: location.ip_addresses,
            cid: credentials.client_id,
            csec: credentials.client_secret,
            chealth: None,
            tls: location.tls,
            mtls: match settings.client_cert {
                Some(cert) => Some(
                    OtoroshiCtlConfigSpecClusterClientCert {
                        cert_location: cert.cert_location,
                        cert_value: cert.cert_value,
                        key_location: cert.key_location,
                        key_value: cert.key_value,
                        ca_location: cert.ca_location,
                        ca_value: cert.ca_value,
                    },
                ),
                None => None,
            },
            routing_hostname,
            routing_port,
            routing_tls,
            routing_ip_addresses,
        },
    )
}

/// The cache of one sidecar: a store for each kind of resource, with the
/// configuration that says which resources are needed and where they come
/// from.
pub struct SidecarCache {
    current_config: OtoroshiCtlConfig,
    sidecar_config: OtoroshiSidecarConfig,
    routes_cache: moka::sync::Cache<String, CacheEntry<OtoroshiRoute>>,
    certificates_cache: moka::sync::Cache<String, CacheEntry<OtoroshiCertificate>>,
    apikeys_cache: moka::sync::Cache<String, CacheEntry<OtoroshiApikey>>,
}

impl SidecarCache {
    /// The configuration of the sidecar.
    pub closed spec fn config(&self) -> OtoroshiSidecarConfigModel {
        self.sidecar_config.deep_view()
    }

    /// The configuration of the command-line tool that contexts are looked
    /// up in.
    pub closed spec fn current(&self) -> OtoroshiCtlConfigModel {
        self.current_config.deep_view()
    }

    /// An empty cache for a sidecar.
    pub fn new(sidecar_config: OtoroshiSidecarConfig, current_config: OtoroshiCtlConfig) -> (res:
        SidecarCache)
        ensures
            res.config() == sidecar_config.deep_view(),
            res.current() == current_config.deep_view(),
    {
        SidecarCache {
            current_config,
            sidecar_config,
            routes_cache: store_new(ROUTES_CAPACITY, CACHE_TTL_SECONDS as u64),
            certificates_cache: store_new(CERTIFICATES_CAPACITY, CACHE_TTL_SECONDS as u64),
            apikeys_cache: store_new(APIKEYS_CAPACITY, CACHE_TTL_SECONDS as u64),
        }
    }

    /// The connection to the control-plane API that resources are fetched
    /// over; `None` where the settings do not resolve or name no host.
    pub fn otoroshi_config(&self) -> (res: Option<OtoroshiConnectionConfig>)
        ensures
            res.deep_view() == match self.config().spec.computed(self.current()) {
                Some(settings) => connection_for(settings, self.config().spec.kubernetes),
                None => None,
            },
    {
        match self.sidecar_config.spec.try_compute_otoroshi(&self.current_config) {
            Some(settings) => connection_from_settings(
                settings,
                self.sidecar_config.spec.kubernetes,
            ),
            None => None,
        }
    }

    /// Every resource the configuration names, in the order in which a
    /// refresh fetches them.
    pub fn update(&self) -> (res: Vec<(ResourceKind, String)>)
        ensures
            res.deep_view() == referenced_resources(self.config().spec),
    {
        let spec = &self.sidecar_config.spec;
        let mut out: Vec<(ResourceKind, String)> = Vec::new();
        proof {
            assert(out.deep_view() =~= seq![]);
        }
        match &spec.inbound.tls {
            Some(tls) => {
                let ghost before = out.deep_view();
                out.push((ResourceKind::Certificate, tls.cert_id.clone()));
                proof {
                    assert(out.deep_view() =~= before.push(
                        (ResourceKind::Certificate, tls.cert_id@),
                    ));
                }
            },
            None => {},
        }
        match &spec.inbound.mtls {
            Some(mtls) => {
                let ghost before = out.deep_view();
                out.push((ResourceKind::Certificate, mtls.ca_cert_id.clone()));
                proof {
                    assert(out.deep_view() =~= before.push(
                        (ResourceKind::Certificate, mtls.ca_cert_id@),
                    ));
                }
            },
            None => {},
        }
        match &spec.inbound.otoroshi_protocol {
            Some(protocol) => match &protocol.route_id {
                Some(route_id) => {
                    let ghost before = out.deep_view();
                    out.push((ResourceKind::Route, route_id.clone()));
                    proof {
                        assert(out.deep_view() =~= before.push((ResourceKind::Route, route_id@)));
                    }
                },
                None => {},
            },
            None => {},
        }
        proof {
            assert(out.deep_view() =~= inbound_resources(self.config().spec.inbound));
        }
        let ghost rules = self.config().spec.outbounds.outbounds;
        let ghost head = inbound_resources(self.config().spec.inbound);
        let mut i: usize = 0;
        while i < spec.outbounds.outbounds.len()
            invariant
                i <= spec.outbounds.outbounds.len(),
                spec == &self.sidecar_config.spec,
                rules == self.config().spec.outbounds.outbounds,
                rules == spec.outbounds.outbounds.deep_view(),
                out.deep_view() == head + rules_resources(rules, i as int),
            decreases spec.outbounds.outbounds.len() - i,
        {
            let rule = &spec.outbounds.outbounds[i].1;
            let ghost start = out.deep_view();
            assert(rule.deep_view() == rules[i as int].1);
            match &rule.apikey {
                Some(apikey) => {
                    let ghost before = out.deep_view();
                    out.push((ResourceKind::Apikey, apikey.apikey_id.clone()));
                    proof {
                        assert(out.deep_view() =~= before.push(
                            (ResourceKind::Apikey, apikey.apikey_id@),
                        ));
                    }
                },
                None => {},
            }
            match &rule.mtls {
                Some(mtls) => {
                    let ghost before = out.deep_view();
                    out.push((ResourceKind::Certificate, mtls.client_cert_id.clone()));
                    proof {
                        assert(out.deep_view() =~= before.push(
                            (ResourceKind::Certificate, mtls.client_cert_id@),
                        ));
                    }
                },
                None => {},
            }
            proof {
                assert(out.deep_view() =~= start + rule_resources(rules[i as int].1));
                assert(out.deep_view() =~= head + rules_resources(rules, i + 1));
            }
            i = i + 1;
        }
        out
    }

    /// Puts a certificate in under its id, as of `now`.
    pub fn insert_cert(&self, cert: OtoroshiCertificate, now: i64) {
        let id = cert.id.clone();
        store_insert(&self.certificates_cache, id, CacheEntry { value: cert, inserted_at: now });
    }

    /// Puts a route in under its id, as of `now`.
    pub fn insert_route(&self, route: OtoroshiRoute, now: i64) {
        let id = route.id.clone();
        store_insert(&self.routes_cache, id, CacheEntry { value: route, inserted_at: now });
    }

    /// Puts an API key in under `id`, as of `now`.
    pub fn insert_apikey(&self, id: String, apikey: OtoroshiApikey, now: i64) {
        store_insert(&self.apikeys_cache, id, CacheEntry { value: apikey, inserted_at: now });
    }

    /// The certificate held under `id`, if it is still fresh at `now`.
    /// Which entry the store holds is the store's affair; of whatever it
    /// holds, exactly the fresh value is returned.
    pub fn get_cert_by_id_at(&self, id: &str, now: i64) -> (res: Option<OtoroshiCertificate>)
        ensures
            exists|held: Option<CacheEntry<OtoroshiCertificate>>|
                res == #[trigger] fresh_value_of(held, now),
    {
        let held = store_get(&self.certificates_cache, id);
        let res = fresh_value(held, now);
        assert(res == fresh_value_of(held, now));
        res
    }

    /// The route held under `id`, if it is still fresh at `now`.
    pub fn get_route_by_id_at(&self, id: &str, now: i64) -> (res: Option<OtoroshiRoute>)
        ensures
            exists|held: Option<CacheEntry<OtoroshiRoute>>|
                res == #[trigger] fresh_value_of(held, now),
    {
        let held = store_get(&self.routes_cache, id);
        let res = fresh_value(held, now);
        assert(res == fresh_value_of(held, now));
        res
    }

    /// The API key held under `id`, if it is still fresh at `now`.
    pub fn get_apikey_by_id_at(&self, id: &str, now: i64) -> (res: Option<OtoroshiApikey>)
        ensures
            exists|held: Option<CacheEntry<OtoroshiApikey>>|
                res == #[trigger] fresh_value_of(held, now),
    {
        let held = store_get(&self.apikeys_cache, id);
        let res = fresh_value(held, now);
        assert(res == fresh_value_of(held, now));
        res
    }

    /// The certificate held under `id`, if it is fresh by the system clock.
    /// Never waits.
    pub fn get_cert_by_id(&self, id: String) -> (res: Option<OtoroshiCertificate>)
        ensures
            exists|held: Option<CacheEntry<OtoroshiCertificate>>, now: i64|
                res == #[trigger] fresh_value_of(held, now),
    {
        let now = current_timestamp();
        let held = store_get(&self.certificates_cache, id.as_str());
        let res = fresh_value(held, now);
        assert(res == fresh_value_of(held, now));
        res
    }

    /// The route held under `id`, if it is fresh by the system clock. Never
    /// waits.
    pub fn get_route_by_id(&self, id: String) -> (res: Option<OtoroshiRoute>)
        ensures
            exists|held: Option<CacheEntry<OtoroshiRoute>>, now: i64|
                res == #[trigger] fresh_value_of(held, now),
    {
        let now = current_timestamp();
        let held = store_get(&self.routes_cache, id.as_str());
        let res = fresh_value(held, now);
        assert(res == fresh_value_of(held, now));
        res
    }

    /// The API key held under `id`, if it is fresh by the system clock.
    /// Never waits.
    pub fn get_apikey_by_id(&self, id: String) -> (res: Option<OtoroshiApikey>)
        ensures
            exists|held: Option<CacheEntry<OtoroshiApikey>>, now: i64|
                res == #[trigger] fresh_value_of(held, now),
    {
        let now = current_timestamp();
        let held = store_get(&self.apikeys_cache, id.as_str());
        let res = fresh_value(held, now);
        assert(res == fresh_value_of(held, now));
        res
    }
}

} // verus!
