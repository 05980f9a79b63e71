//! Users, clusters and contexts, and the connection settings that a context
//! resolves to.

use vstd::prelude::*;
use crate::utils::otoroshi::{OtoroshiConnectionConfig, OtoroshiConnectionConfigModel};
use crate::utils::search::{first_index, lemma_first_index_is, lemma_first_index_none};
use crate::utils::text::{
    bool_of, clone_opt_string, clone_opt_strings, decimal, parse_bool, parse_u16, push_decimal,
    split, split_on, str_eq, u16_of,
};

verus! {

/// A user: the credentials of one API key.
#[derive(Debug)]
pub struct OtoroshiCtlConfigSpecUser {
    pub name: String,
    pub client_id: String,
    pub client_secret: String,
    pub health_key: Option<String>,
}

/// The plain value of a [`OtoroshiCtlConfigSpecUser`].
pub struct OtoroshiCtlConfigSpecUserModel {
    pub name: Seq<char>,
    pub client_id: Seq<char>,
    pub client_secret: Seq<char>,
    pub health_key: Option<Seq<char>>,
}

impl DeepView for OtoroshiCtlConfigSpecUser {
    type V = OtoroshiCtlConfigSpecUserModel;

    open spec fn deep_view(&self) -> OtoroshiCtlConfigSpecUserModel {
        OtoroshiCtlConfigSpecUserModel {
            name: self.name.deep_view(),
            client_id: self.client_id.deep_view(),
            client_secret: self.client_secret.deep_view(),
            health_key: self.health_key.deep_view(),
        }
    }
}

impl Clone for OtoroshiCtlConfigSpecUser {
    fn clone(&self) -> (res: Self)
        ensures
            res.deep_view() == self.deep_view(),
    {
        OtoroshiCtlConfigSpecUser {
            name: self.name.clone(),
            client_id: self.client_id.clone(),
            client_secret: self.client_secret.clone(),
            health_key: clone_opt_string(&self.health_key),
        }
    }
}

/// A context: a cluster together with the user to reach it as.
#[derive(Debug)]
pub struct OtoroshiCtlConfigSpecContext {
    pub name: String,
    pub cluster: String,
    pub user: String,
    pub cloud_apim: bool,
}

/// The plain value of a [`OtoroshiCtlConfigSpecContext`].
pub struct OtoroshiCtlConfigSpecContextModel {
    pub name: Seq<char>,
    pub cluster: Seq<char>,
    pub user: Seq<char>,
    pub cloud_apim: bool,
}

impl DeepView for OtoroshiCtlConfigSpecContext {
    type V = OtoroshiCtlConfigSpecContextModel;

    open spec fn deep_view(&self) -> OtoroshiCtlConfigSpecContextModel {
        OtoroshiCtlConfigSpecContextModel {
            name: self.name.deep_view(),
            cluster: self.cluster.deep_view(),
            user: self.user.deep_view(),
            cloud_apim: self.cloud_apim.deep_view(),
        }
    }
}

impl Clone for OtoroshiCtlConfigSpecContext {
    fn clone(&self) -> (res: Self)
        ensures
            res.deep_view() == self.deep_view(),
    {
        OtoroshiCtlConfigSpecContext {
            name: self.name.clone(),
            cluster: self.cluster.clone(),
            user: self.user.clone(),
            cloud_apim: self.cloud_apim,
        }
    }
}

/// Where the client certificate for a cluster is found: each part either
/// as a file location or as its text.
#[derive(Debug)]
pub struct OtoroshiCtlConfigSpecClusterClientCert {
    pub cert_location: Option<String>,
    pub cert_value: Option<String>,
    pub key_location: Option<String>,
    pub key_value: Option<String>,
    pub ca_location: Option<String>,
    pub ca_value: Option<String>,
}

/// The plain value of a [`OtoroshiCtlConfigSpecClusterClientCert`].
pub struct OtoroshiCtlConfigSpecClusterClientCertModel {
    pub cert_location: Option<Seq<char>>,
    pub cert_value: Option<Seq<char>>,
    pub key_location: Option<Seq<char>>,
    pub key_value: Option<Seq<char>>,
    pub ca_location: Option<Seq<char>>,
    pub ca_value: Option<Seq<char>>,
}

impl DeepView for OtoroshiCtlConfigSpecClusterClientCert {
    type V = OtoroshiCtlConfigSpecClusterClientCertModel;

    open spec fn deep_view(&self) -> OtoroshiCtlConfigSpecClusterClientCertModel {
        OtoroshiCtlConfigSpecClusterClientCertModel {
            cert_location: self.cert_location.deep_view(),
            cert_value: self.cert_value.deep_view(),
            key_location: self.key_location.deep_view(),
            key_value: self.key_value.deep_view(),
            ca_location: self.ca_location.deep_view(),
            ca_value: self.ca_value.deep_view(),
        }
    }
}

impl Clone for OtoroshiCtlConfigSpecClusterClientCert {
    fn clone(&self) -> (res: Self)
        ensures
            res.deep_view() == self.deep_view(),
    {
        OtoroshiCtlConfigSpecClusterClientCert {
            cert_location: clone_opt_string(&self.cert_location),
            cert_value: clone_opt_string(&self.cert_value),
            key_location: clone_opt_string(&self.key_location),
            key_value: clone_opt_string(&self.key_value),
            ca_location: clone_opt_string(&self.ca_location),
            ca_value: clone_opt_string(&self.ca_value),
        }
    }
}

/// A cluster: the control-plane endpoint and, where it differs, the
/// routing endpoint.
#[derive(Debug)]
pub struct OtoroshiCtlConfigSpecCluster {
    pub name: String,
    pub hostname: String,
    pub ip_addresses: Option<Vec<String>>,
    pub port: u16,
    pub tls: bool,
    pub client_cert: Option<OtoroshiCtlConfigSpecClusterClientCert>,
    pub routing_hostname: Option<String>,
    pub routing_port: Option<u16>,
    pub routing_tls: Option<bool>,
    pub routing_ip_addresses: Option<Vec<String>>,
}

/// The plain value of a [`OtoroshiCtlConfigSpecCluster`].
pub struct OtoroshiCtlConfigSpecClusterModel {
    pub name: Seq<char>,
    pub hostname: Seq<char>,
    pub ip_addresses: Option<Seq<Seq<char>>>,
    pub port: u16,
    pub tls: bool,
    pub client_cert: Option<OtoroshiCtlConfigSpecClusterClientCertModel>,
    pub routing_hostname: Option<Seq<char>>,
    pub routing_port: Option<u16>,
    pub routing_tls: Option<bool>,
    pub routing_ip_addresses: Option<Seq<Seq<char>>>,
}

impl DeepView for OtoroshiCtlConfigSpecCluster {
    type V = OtoroshiCtlConfigSpecClusterModel;

    open spec fn deep_view(&self) -> OtoroshiCtlConfigSpecClusterModel {
        OtoroshiCtlConfigSpecClusterModel {
            name: self.name.deep_view(),
            hostname: self.hostname.deep_view(),
            ip_addresses: self.ip_addresses.deep_view(),
            port: self.port.deep_view(),
            tls: self.tls.deep_view(),
            client_cert: self.client_cert.deep_view(),
            routing_hostname: self.routing_hostname.deep_view(),
            routing_port: self.routing_port.deep_view(),
            routing_tls: self.routing_tls.deep_view(),
            routing_ip_addresses: self.routing_ip_addresses.deep_view(),
        }
    }
}

impl Clone for OtoroshiCtlConfigSpecCluster {
    fn clone(&self) -> (res: Self)
        ensures
            res.deep_view() == self.deep_view(),
    {
        OtoroshiCtlConfigSpecCluster {
            name: self.name.clone(),
            hostname: self.hostname.clone(),
            ip_addresses: clone_opt_strings(&self.ip_addresses),
            port: self.port,
            tls: self.tls,
            client_cert: match &self.client_cert {
                Some(inner) => Some(inner.clone()),
                None => None,
            },
            routing_hostname: clone_opt_string(&self.routing_hostname),
            routing_port: self.routing_port,
            routing_tls: self.routing_tls,
            routing_ip_addresses: clone_opt_strings(&self.routing_ip_addresses),
        }
    }
}

/// Credentials of a cloud account.
#[derive(Debug)]
pub struct OtoroshiCtlConfigCloudApim {
    pub client_id: String,
    pub client_secret: String,
}

/// The plain value of a [`OtoroshiCtlConfigCloudApim`].
pub struct OtoroshiCtlConfigCloudApimModel {
    pub client_id: Seq<char>,
    pub client_secret: Seq<char>,
}

impl DeepView for OtoroshiCtlConfigCloudApim {
    type V = OtoroshiCtlConfigCloudApimModel;

    open spec fn deep_view(&self) -> OtoroshiCtlConfigCloudApimModel {
        OtoroshiCtlConfigCloudApimModel {
            client_id: self.client_id.deep_view(),
            client_secret: self.client_secret.deep_view(),
        }
    }
}

impl Clone for OtoroshiCtlConfigCloudApim {
    fn clone(&self) -> (res: Self)
        ensures
            res.deep_view() == self.deep_view(),
    {
        OtoroshiCtlConfigCloudApim {
            client_id: self.client_id.clone(),
            client_secret: self.client_secret.clone(),
        }
    }
}
/// The whole configuration: the known users, clusters and contexts, and the
/// name of the context in use.
#[derive(Debug, Clone)]
pub struct OtoroshiCtlConfig {
    pub api_version: String,
    pub kind: String,
    pub metadata: Vec<(String, String)>,
    pub cloud_apim: Option<OtoroshiCtlConfigCloudApim>,
    pub users: Vec<OtoroshiCtlConfigSpecUser>,
    pub contexts: Vec<OtoroshiCtlConfigSpecContext>,
    pub clusters: Vec<OtoroshiCtlConfigSpecCluster>,
    pub current_context: String,
}

/// The plain value of a [`OtoroshiCtlConfig`].
pub struct OtoroshiCtlConfigModel {
    pub api_version: Seq<char>,
    pub kind: Seq<char>,
    pub metadata: Seq<(Seq<char>, Seq<char>)>,
    pub cloud_apim: Option<OtoroshiCtlConfigCloudApimModel>,
    pub users: Seq<OtoroshiCtlConfigSpecUserModel>,
    pub contexts: Seq<OtoroshiCtlConfigSpecContextModel>,
    pub clusters: Seq<OtoroshiCtlConfigSpecClusterModel>,
    pub current_context: Seq<char>,
}

impl DeepView for OtoroshiCtlConfig {
    type V = OtoroshiCtlConfigModel;

    open spec fn deep_view(&self) -> OtoroshiCtlConfigModel {
        OtoroshiCtlConfigModel {
            api_version: self.api_version.deep_view(),
            kind: self.kind.deep_view(),
            metadata: self.metadata.deep_view(),
            cloud_apim: self.cloud_apim.deep_view(),
            users: self.users.deep_view(),
            contexts: self.contexts.deep_view(),
            clusters: self.clusters.deep_view(),
            current_context: self.current_context.deep_view(),
        }
    }
}

/// The connection settings that a cluster and a user make.
pub open spec fn connection_of(
    cluster: OtoroshiCtlConfigSpecClusterModel,
    user: OtoroshiCtlConfigSpecUserModel,
) -> OtoroshiConnectionConfigModel {
    OtoroshiConnectionConfigModel {
        host: cluster.hostname + seq![':'] + decimal(cluster.port as nat),
        hostname: cluster.hostname,
        port: cluster.port,
        ip_addresses: cluster.ip_addresses,
        cid: user.client_id,
        csec: user.client_secret,
        chealth: user.health_key,
        tls: cluster.tls,
        mtls: cluster.client_cert,
        routing_hostname: cluster.routing_hostname,
        routing_port: cluster.routing_port,
        routing_tls: cluster.routing_tls,
        routing_ip_addresses: cluster.routing_ip_addresses,
    }
}

/// The condition that a context is called `name`.
pub open spec fn context_called(name: Seq<char>) -> spec_fn(
    OtoroshiCtlConfigSpecContextModel,
) -> bool {
    |c: OtoroshiCtlConfigSpecContextModel| c.name == name
}

/// The condition that a cluster is called `name`.
pub open spec fn cluster_called(name: Seq<char>) -> spec_fn(
    OtoroshiCtlConfigSpecClusterModel,
) -> bool {
    |c: OtoroshiCtlConfigSpecClusterModel| c.name == name
}

/// The condition that a user is called `name`.
pub open spec fn user_called(name: Seq<char>) -> spec_fn(OtoroshiCtlConfigSpecUserModel) -> bool {
    |u: OtoroshiCtlConfigSpecUserModel| u.name == name
}

impl OtoroshiCtlConfigModel {
    /// Index of the first context called `name`.
    pub open spec fn context_index(self, name: Seq<char>) -> Option<int> {
        first_index(self.contexts, context_called(name))
    }

    /// Index of the first cluster called `name`.
    pub open spec fn cluster_index(self, name: Seq<char>) -> Option<int> {
        first_index(self.clusters, cluster_called(name))
    }

    /// Index of the first user called `name`.
    pub open spec fn user_index(self, name: Seq<char>) -> Option<int> {
        first_index(self.users, user_called(name))
    }

    /// What the context called `name` resolves to: the first context of that
    /// name, with the first cluster and the first user of the names it
    /// gives. `None` where one of the three is not there.
    pub open spec fn resolve(self, name: Seq<char>) -> Option<OtoroshiConnectionConfigModel> {
        match self.context_index(name) {
            Some(c) => match (
                self.cluster_index(self.contexts[c].cluster),
                self.user_index(self.contexts[c].user),
            ) {
                (Some(k), Some(u)) => Some(connection_of(self.clusters[k], self.users[u])),
                _ => None,
            },
            None => None,
        }
    }
}

impl OtoroshiCtlConfig {
    /// A configuration with no user, no cluster and no context.
    pub fn empty() -> (res: OtoroshiCtlConfig)
        ensures
            res.deep_view() == (OtoroshiCtlConfigModel {
                api_version: "v1"@,
                kind: "OtoroshiCtlConfig"@,
                metadata: Seq::empty(),
                cloud_apim: None,
                users: Seq::empty(),
                contexts: Seq::empty(),
                clusters: Seq::empty(),
                current_context: "none"@,
            }),
    {
        let res = OtoroshiCtlConfig {
            api_version: "v1".to_string(),
            kind: "OtoroshiCtlConfig".to_string(),
            metadata: Vec::new(),
            users: Vec::new(),
            contexts: Vec::new(),
            clusters: Vec::new(),
            cloud_apim: None,
            current_context: "none".to_string(),
        };
        proof {
            assert(res.metadata.deep_view() =~= Seq::empty());
            assert(res.users.deep_view() =~= Seq::empty());
            assert(res.contexts.deep_view() =~= Seq::empty());
            assert(res.clusters.deep_view() =~= Seq::empty());
        }
        res
    }

    /// The configuration a fresh installation starts with: one user, one
    /// cluster and one context, all called `default`, for a gateway on the
    /// local development host.
    pub fn default_instance() -> (res: OtoroshiCtlConfig)
        ensures
            res.deep_view() == (OtoroshiCtlConfigModel {
                api_version: "v1"@,
                kind: "OtoroshiCtlConfig"@,
                metadata: Seq::empty(),
                cloud_apim: None,
                users: seq![
                    OtoroshiCtlConfigSpecUserModel {
                        name: "default"@,
                        client_id: "admin-api-apikey-id"@,
                        client_secret: "admin-api-apikey-secret"@,
                        health_key: None,
                    },
                ],
                contexts: seq![
                    OtoroshiCtlConfigSpecContextModel {
                        name: "default"@,
                        cluster: "default"@,
                        user: "default"@,
                        cloud_apim: false,
                    },
                ],
                clusters: seq![
                    OtoroshiCtlConfigSpecClusterModel {
                        name: "default"@,
                        hostname: "otoroshi-api.oto.tools"@,
                        ip_addresses: None,
                        port: 9999,
                        tls: false,
                        client_cert: None,
                        routing_hostname: None,
                        routing_port: None,
                        routing_tls: None,
                        routing_ip_addresses: None,
                    },
                ],
                current_context: "default"@,
            }),
    {
        let mut users: Vec<OtoroshiCtlConfigSpecUser> = Vec::new();
        users.push(
            OtoroshiCtlConfigSpecUser {
                name: "default".to_string(),
                client_id: "admin-api-apikey-id".to_string(),
                client_secret: "admin-api-apikey-secret".to_string(),
                health_key: None,
            },
        );
        let mut contexts: Vec<OtoroshiCtlConfigSpecContext> = Vec::new();
        contexts.push(
            OtoroshiCtlConfigSpecContext {
                name: "default".to_string(),
                cluster: "default".to_string(),
                user: "default".to_string(),
                cloud_apim: false,
            },
        );
        let mut clusters: Vec<OtoroshiCtlConfigSpecCluster> = Vec::new();
        clusters.push(
            OtoroshiCtlConfigSpecCluster {
                name: "default".to_string(),
                hostname: "otoroshi-api.oto.tools".to_string(),
                port: 9999,
                tls: false,
                ip_addresses: None,
                client_cert: None,
                routing_hostname: None,
                routing_port: None,
                routing_tls: None,
                routing_ip_addresses: None,
            },
        );
        let res = OtoroshiCtlConfig {
            api_version: "v1".to_string(),
            kind: "OtoroshiCtlConfig".to_string(),
            metadata: Vec::new(),
            cloud_apim: None,
            users,
            contexts,
            clusters,
            current_context: "default".to_string(),
        };
        proof {
            let m = res.deep_view();
            assert(m.metadata =~= Seq::empty());
            assert(m.users =~= seq![res.users@[0].deep_view()]);
            assert(m.contexts =~= seq![res.contexts@[0].deep_view()]);
            assert(m.clusters =~= seq![res.clusters@[0].deep_view()]);
        }
        res
    }

    /// Position of the first context called `name`.
    pub fn find_context(&self, name: &str) -> (res: Option<usize>)
        ensures
            match res {
                Some(i) => i < self.contexts.len() && self.deep_view().context_index(name@) == Some(
                    i as int,
                ),
                None => self.deep_view().context_index(name@) is None,
            },
    {
        let ghost p = context_called(name@);
        let ghost s = self.deep_view().contexts;
        let mut i: usize = 0;
        while i < self.contexts.len()
            invariant
                i <= self.contexts.len(),
                s == self.deep_view().contexts,
                p == context_called(name@),
                forall|j: int| 0 <= j < i ==> !p(s[j]),
            decreases self.contexts.len() - i,
        {
            if str_eq(self.contexts[i].name.as_str(), name) {
                proof {
                    lemma_first_index_is(s, p, i as int);
                }
                return Some(i);
            }
            i = i + 1;
        }
        proof {
            lemma_first_index_none(s, p);
        }
        None
    }

    /// Position of the first cluster called `name`.
    pub fn find_cluster(&self, name: &str) -> (res: Option<usize>)
        ensures
            match res {
                Some(i) => i < self.clusters.len() && self.deep_view().cluster_index(name@) == Some(
                    i as int,
                ),
                None => self.deep_view().cluster_index(name@) is None,
            },
    {
        let ghost p = cluster_called(name@);
        let ghost s = self.deep_view().clusters;
        let mut i: usize = 0;
        while i < self.clusters.len()
            invariant
                i <= self.clusters.len(),
                s == self.deep_view().clusters,
                p == cluster_called(name@),
                forall|j: int| 0 <= j < i ==> !p(s[j]),
            decreases self.clusters.len() - i,
        {
            if str_eq(self.clusters[i].name.as_str(), name) {
                proof {
                    lemma_first_index_is(s, p, i as int);
                }
                return Some(i);
            }
            i = i + 1;
        }
        proof {
            lemma_first_index_none(s, p);
        }
        None
    }

    /// Position of the first user called `name`.
    pub fn find_user(&self, name: &str) -> (res: Option<usize>)
        ensures
            match res {
                Some(i) => i < self.users.len() && self.deep_view().user_index(name@) == Some(
                    i as int,
                ),
                None => self.deep_view().user_index(name@) is None,
            },
    {
        let ghost p = user_called(name@);
        let ghost s = self.deep_view().users;
        let mut i: usize = 0;
        while i < self.users.len()
            invariant
                i <= self.users.len(),
                s == self.deep_view().users,
                p == user_called(name@),
                forall|j: int| 0 <= j < i ==> !p(s[j]),
            decreases self.users.len() - i,
        {
            if str_eq(self.users[i].name.as_str(), name) {
                proof {
                    lemma_first_index_is(s, p, i as int);
                }
                return Some(i);
            }
            i = i + 1;
        }
        proof {
            lemma_first_index_none(s, p);
        }
        None
    }

    /// The connection settings of the context called `name`, where the
    /// context, its cluster and its user are all there.
    pub fn try_get_context(&self, name: &str) -> (res: Option<OtoroshiConnectionConfig>)
        ensures
            res.deep_view() == self.deep_view().resolve(name@),
    {
        let context = match self.find_context(name) {
            Some(c) => &self.contexts[c],
            None => { return None; },
        };
        let cluster = match self.find_cluster(context.cluster.as_str()) {
            Some(k) => &self.clusters[k],
            None => { return None; },
        };
        let user = match self.find_user(context.user.as_str()) {
            Some(u) => &self.users[u],
            None => { return None; },
        };
        let mut host = cluster.hostname.clone();
        host.push(':');
        push_decimal(&mut host, cluster.port as u64);
        let res = OtoroshiConnectionConfig {
            host,
            hostname: cluster.hostname.clone(),
            port: cluster.port,
            ip_addresses: clone_opt_strings(&cluster.ip_addresses),
            cid: user.client_id.clone(),
            csec: user.client_secret.clone(),
            chealth: clone_opt_string(&user.health_key),
            tls: cluster.tls,
            mtls: match &cluster.client_cert {
                Some(cert) => Some(cert.clone()),
                None => None,
            },
            routing_hostname: clone_opt_string(&cluster.routing_hostname),
            routing_port: cluster.routing_port,
            routing_tls: cluster.routing_tls,
            routing_ip_addresses: clone_opt_strings(&cluster.routing_ip_addresses),
        };
        proof {
            assert(cluster.hostname@.push(':') =~= cluster.hostname@ + seq![':']);
        }
        Some(res)
    }

    /// The connection settings of the context called `current_context_name`.
    pub fn get_context(&self, current_context_name: String) -> (res: OtoroshiConnectionConfig)
        requires
            self.deep_view().resolve(current_context_name@) is Some,
        ensures
            Some(res.deep_view()) == self.deep_view().resolve(current_context_name@),
    {
        self.try_get_context(current_context_name.as_str()).unwrap()
    }

    /// The connection settings of the context in use.
    pub fn to_connection_config(&self) -> (res: OtoroshiConnectionConfig)
        requires
            self.deep_view().resolve(self.current_context@) is Some,
        ensures
            Some(res.deep_view()) == self.deep_view().resolve(self.current_context@),
    {
        self.try_get_context(self.current_context.as_str()).unwrap()
    }
}

/// The settings of a connection as the environment holds them: each the
/// text of its variable, where the variable is set.
#[derive(Debug, Clone)]
pub struct EnvironmentSettings {
    pub hostname: String,
    pub port: Option<String>,
    pub tls: Option<String>,
    /// Addresses, separated by commas.
    pub ip_addresses: Option<String>,
    pub routing_hostname: Option<String>,
    pub routing_port: Option<String>,
    pub routing_tls: Option<String>,
    /// Addresses, separated by commas.
    pub routing_ip_addresses: Option<String>,
    pub cert_location: Option<String>,
    pub key_location: Option<String>,
    pub ca_location: Option<String>,
    pub cert_value: Option<String>,
    pub key_value: Option<String>,
    pub ca_value: Option<String>,
    pub client_id: String,
    pub client_secret: String,
    pub health_key: Option<String>,
}

/// The plain value of a [`EnvironmentSettings`].
pub struct EnvironmentSettingsModel {
    pub hostname: Seq<char>,
    pub port: Option<Seq<char>>,
    pub tls: Option<Seq<char>>,
    pub ip_addresses: Option<Seq<char>>,
    pub routing_hostname: Option<Seq<char>>,
    pub routing_port: Option<Seq<char>>,
    pub routing_tls: Option<Seq<char>>,
    pub routing_ip_addresses: Option<Seq<char>>,
    pub cert_location: Option<Seq<char>>,
    pub key_location: Option<Seq<char>>,
    pub ca_location: Option<Seq<char>>,
    pub cert_value: Option<Seq<char>>,
    pub key_value: Option<Seq<char>>,
    pub ca_value: Option<Seq<char>>,
    pub client_id: Seq<char>,
    pub client_secret: Seq<char>,
    pub health_key: Option<Seq<char>>,
}

impl DeepView for EnvironmentSettings {
    type V = EnvironmentSettingsModel;

    open spec fn deep_view(&self) -> EnvironmentSettingsModel {
        EnvironmentSettingsModel {
            hostname: self.hostname.deep_view(),
            port: self.port.deep_view(),
            tls: self.tls.deep_view(),
            ip_addresses: self.ip_addresses.deep_view(),
            routing_hostname: self.routing_hostname.deep_view(),
            routing_port: self.routing_port.deep_view(),
            routing_tls: self.routing_tls.deep_view(),
            routing_ip_addresses: self.routing_ip_addresses.deep_view(),
            cert_location: self.cert_location.deep_view(),
            key_location: self.key_location.deep_view(),
            ca_location: self.ca_location.deep_view(),
            cert_value: self.cert_value.deep_view(),
            key_value: self.key_value.deep_view(),
            ca_value: self.ca_value.deep_view(),
            client_id: self.client_id.deep_view(),
            client_secret: self.client_secret.deep_view(),
            health_key: self.health_key.deep_view(),
        }
    }
}

/// The settings of a connection as the command line gives them.
#[derive(Debug, Clone)]
pub struct ConnectionOptions {
    pub hostname: Option<String>,
    pub port: Option<u16>,
    pub tls: bool,
    pub client_id: Option<String>,
    pub client_secret: Option<String>,
    pub health_key: Option<String>,
    pub cert_location: Option<String>,
    pub key_location: Option<String>,
    pub ca_location: Option<String>,
    pub routing_hostname: Option<String>,
    pub routing_port: Option<u16>,
    pub routing_tls: Option<bool>,
}

/// The plain value of a [`ConnectionOptions`].
pub struct ConnectionOptionsModel {
    pub hostname: Option<Seq<char>>,
    pub port: Option<u16>,
    pub tls: bool,
    pub client_id: Option<Seq<char>>,
    pub client_secret: Option<Seq<char>>,
    pub health_key: Option<Seq<char>>,
    pub cert_location: Option<Seq<char>>,
    pub key_location: Option<Seq<char>>,
    pub ca_location: Option<Seq<char>>,
    pub routing_hostname: Option<Seq<char>>,
    pub routing_port: Option<u16>,
    pub routing_tls: Option<bool>,
}

impl DeepView for ConnectionOptions {
    type V = ConnectionOptionsModel;

    open spec fn deep_view(&self) -> ConnectionOptionsModel {
        ConnectionOptionsModel {
            hostname: self.hostname.deep_view(),
            port: self.port.deep_view(),
            tls: self.tls.deep_view(),
            client_id: self.client_id.deep_view(),
            client_secret: self.client_secret.deep_view(),
            health_key: self.health_key.deep_view(),
            cert_location: self.cert_location.deep_view(),
            key_location: self.key_location.deep_view(),
            ca_location: self.ca_location.deep_view(),
            routing_hostname: self.routing_hostname.deep_view(),
            routing_port: self.routing_port.deep_view(),
            routing_tls: self.routing_tls.deep_view(),
        }
    }
}

/// Name under which the tool keeps its files.
pub const CONFIG_APP_NAME: &'static str = "io.otoroshi.otoroshictl";

/// Name of the file that holds the configuration of the tool.
pub const CONFIG_FILE_NAME: &'static str = "config";

/// Gateway port, unless configured.
pub const DEFAULT_CLUSTER_PORT: u16 = 443;

/// Where the configuration in use comes from.
#[derive(Debug, Clone, Copy, PartialEq, Eq, Structural)]
pub enum ConfigOrigin {
    /// From the variables of the environment.
    Environment,
    /// From the options of the command line.
    Options,
    /// From the file that the command line names.
    File,
    /// From the file that the tool keeps.
    Stored,
}

/// Where the configuration comes from: from the environment where the
/// switch for it says `true`; else from the options where they name host,
/// port, client id and client secret; else from the file that is named;
/// else from the file that the tool keeps.
pub open spec fn origin_of(
    use_environment: Option<Seq<char>>,
    options: ConnectionOptionsModel,
    has_config_file: bool,
) -> ConfigOrigin {
    if use_environment == Some("true"@) {
        ConfigOrigin::Environment
    } else if options.hostname is Some && options.port is Some && options.client_id is Some
        && options.client_secret is Some {
        ConfigOrigin::Options
    } else if has_config_file {
        ConfigOrigin::File
    } else {
        ConfigOrigin::Stored
    }
}

/// The port that a variable gives: the default where the variable is not
/// set or does not name a port.
pub open spec fn port_of(text: Option<Seq<char>>) -> u16 {
    match text {
        Some(t) => match u16_of(t) {
            Some(p) => p,
            None => DEFAULT_CLUSTER_PORT,
        },
        None => DEFAULT_CLUSTER_PORT,
    }
}

/// The switch that a variable gives: on where the variable is not set or
/// does not name a truth value.
pub open spec fn switch_of(text: Option<Seq<char>>) -> bool {
    match text {
        Some(t) => match bool_of(t) {
            Some(b) => b,
            None => true,
        },
        None => true,
    }
}

/// The addresses that a variable gives.
pub open spec fn addresses_of(text: Option<Seq<char>>) -> Option<Seq<Seq<char>>> {
    match text {
        Some(t) => Some(split_on(t, ',')),
        None => None,
    }
}

/// A configuration with one user, one cluster and one context, all called
/// `name`, and that context in use.
pub open spec fn single_context(
    name: Seq<char>,
    user: OtoroshiCtlConfigSpecUserModel,
    cluster: OtoroshiCtlConfigSpecClusterModel,
) -> OtoroshiCtlConfigModel {
    OtoroshiCtlConfigModel {
        api_version: "v1"@,
        kind: "OtoroshiCtlConfig"@,
        metadata: Seq::empty(),
        cloud_apim: None,
        users: seq![user],
        contexts: seq![
            OtoroshiCtlConfigSpecContextModel {
                name,
                cluster: name,
                user: name,
                cloud_apim: false,
            },
        ],
        clusters: seq![cluster],
        current_context: name,
    }
}

/// The configuration that the environment makes: a context called `env`.
/// The cluster has a client certificate where any part of one is given.
pub open spec fn config_of_environment(e: EnvironmentSettingsModel) -> OtoroshiCtlConfigModel {
    single_context(
        "env"@,
        OtoroshiCtlConfigSpecUserModel {
            name: "env"@,
            client_id: e.client_id,
            client_secret: e.client_secret,
            health_key: e.health_key,
        },
        OtoroshiCtlConfigSpecClusterModel {
            name: "env"@,
            hostname: e.hostname,
            ip_addresses: addresses_of(e.ip_addresses),
            port: port_of(e.port),
            tls: switch_of(e.tls),
            client_cert: if e.cert_location is Some || e.key_location is Some
                || e.ca_location is Some || e.cert_value is Some || e.key_value is Some
                || e.ca_value is Some {
                Some(
                    OtoroshiCtlConfigSpecClusterClientCertModel {
                        cert_location: e.cert_location,
                        cert_value: e.cert_value,
                        key_location: e.key_location,
                        key_value: e.key_value,
                        ca_location: e.ca_location,
                        ca_value: e.ca_value,
                    },
                )
            } else {
                None
            },
            routing_hostname: e.routing_hostname,
            routing_port: match e.routing_port {
                Some(t) => Some(port_of(Some(t))),
                None => None,
            },
            routing_tls: match e.routing_tls {
                Some(t) => Some(switch_of(Some(t))),
                None => None,
            },
            routing_ip_addresses: addresses_of(e.routing_ip_addresses),
        },
    )
}

/// The configuration that the options make: a context called `tmp`, where
/// they name host, port, client id and client secret. The cluster has a
/// client certificate where all three locations are given.
pub open spec fn config_of_options(o: ConnectionOptionsModel) -> Option<OtoroshiCtlConfigModel> {
    match (o.hostname, o.port, o.client_id, o.client_secret) {
        (Some(hostname), Some(port), Some(client_id), Some(client_secret)) => Some(
            single_context(
                "tmp"@,
                OtoroshiCtlConfigSpecUserModel {
                    name: "tmp"@,
                    client_id,
                    client_secret,
                    health_key: o.health_key,
                },
                OtoroshiCtlConfigSpecClusterModel {
                    name: "tmp"@,
                    hostname,
                    ip_addresses: None,
                    port,
                    tls: o.tls,
                    client_cert: match (o.cert_location, o.key_location, o.ca_location) {
                        (Some(cert), Some(key), Some(ca)) => Some(
                            OtoroshiCtlConfigSpecClusterClientCertModel {
                                cert_location: Some(cert),
                                cert_value: None,
                                key_location: Some(key),
                                key_value: None,
                                ca_location: Some(ca),
                                ca_value: None,
                            },
                        ),
                        _ => None,
                    },
                    routing_hostname: o.routing_hostname,
                    routing_port: o.routing_port,
                    routing_tls: o.routing_tls,
                    routing_ip_addresses: None,
                },
            ),
        ),
        _ => None,
    }
}

/// The port that a variable gives.
fn port_from(text: &Option<String>) -> (res: u16)
    ensures
        res == port_of(text.deep_view()),
{
    match text {
        Some(t) => match parse_u16(t.as_str()) {
            Some(p) => p,
            None => DEFAULT_CLUSTER_PORT,
        },
        None => DEFAULT_CLUSTER_PORT,
    }
}

/// The switch that a variable gives.
fn switch_from(text: &Option<String>) -> (res: bool)
    ensures
        res == switch_of(text.deep_view()),
{
    match text {
        Some(t) => match parse_bool(t.as_str()) {
            Some(b) => b,
            None => true,
        },
        None => true,
    }
}

/// The addresses that a variable gives.
fn addresses_from(text: &Option<String>) -> (res: Option<Vec<String>>)
    ensures
        res.deep_view() == addresses_of(text.deep_view()),
{
    match text {
        Some(t) => Some(split(t.as_str(), ',')),
        None => None,
    }
}

/// A configuration with one user, one cluster and one context, all called
/// `name`.
fn single(name: &str, user: OtoroshiCtlConfigSpecUser, cluster: OtoroshiCtlConfigSpecCluster) -> (res:
    OtoroshiCtlConfig)
    ensures
        res.deep_view() == single_context(name@, user.deep_view(), cluster.deep_view()),
{
    let mut users: Vec<OtoroshiCtlConfigSpecUser> = Vec::new();
    users.push(user);
    let mut clusters: Vec<OtoroshiCtlConfigSpecCluster> = Vec::new();
    clusters.push(cluster);
    let mut contexts: Vec<OtoroshiCtlConfigSpecContext> = Vec::new();
    contexts.push(
        OtoroshiCtlConfigSpecContext {
            name: name.to_string(),
            cluster: name.to_string(),
            user: name.to_string(),
            cloud_apim: false,
        },
    );
    let res = OtoroshiCtlConfig {
        api_version: "v1".to_string(),
        kind: "OtoroshiCtlConfig".to_string(),
        metadata: Vec::new(),
        cloud_apim: None,
        users,
        contexts,
        clusters,
        current_context: name.to_string(),
    };
    proof {
        let m = res.deep_view();
        assert(m.metadata =~= Seq::empty());
        assert(m.users =~= seq![user.deep_view()]);
        assert(m.contexts =~= seq![res.contexts@[0].deep_view()]);
        assert(m.clusters =~= seq![cluster.deep_view()]);
    }
    res
}

impl OtoroshiCtlConfig {
    /// Where the configuration in use comes from, given the switch for the
    /// environment, the options and whether a file is named.
    pub fn origin(use_environment: Option<&str>, options: &ConnectionOptions, has_config_file: bool) -> (res:
        ConfigOrigin)
        ensures
            res == origin_of(use_environment.deep_view(), options.deep_view(), has_config_file),
    {
        let by_environment = match use_environment {
            Some(v) => str_eq(v, "true"),
            None => false,
        };
        if by_environment {
            ConfigOrigin::Environment
        } else if options.hostname.is_some() && options.port.is_some()
            && options.client_id.is_some() && options.client_secret.is_some() {
            ConfigOrigin::Options
        } else if has_config_file {
            ConfigOrigin::File
        } else {
            ConfigOrigin::Stored
        }
    }

    /// Whether the configuration names a context in use. One that the
    /// tool keeps and that names none counts as not found.
    pub fn has_current_context(&self) -> (res: bool)
        ensures
            res == (self.current_context@.len() > 0),
    {
        self.current_context.as_str().unicode_len() > 0
    }

    /// The configuration that the environment makes.
    pub fn from_environment(e: EnvironmentSettings) -> (res: OtoroshiCtlConfig)
        ensures
            res.deep_view() == config_of_environment(e.deep_view()),
    {
        let port = port_from(&e.port);
        let tls = switch_from(&e.tls);
        let ip_addresses = addresses_from(&e.ip_addresses);
        let routing_ip_addresses = addresses_from(&e.routing_ip_addresses);
        let routing_port = match &e.routing_port {
            Some(_) => Some(port_from(&e.routing_port)),
            None => None,
        };
        let routing_tls = match &e.routing_tls {
            Some(_) => Some(switch_from(&e.routing_tls)),
            None => None,
        };
        let client_cert = if e.cert_location.is_some() || e.key_location.is_some()
            || e.ca_location.is_some() || e.cert_value.is_some() || e.key_value.is_some()
            || e.ca_value.is_some() {
            Some(
                OtoroshiCtlConfigSpecClusterClientCert {
                    cert_location: e.cert_location,
                    cert_value: e.cert_value,
                    key_location: e.key_location,
                    key_value: e.key_value,
                    ca_location: e.ca_location,
                    ca_value: e.ca_value,
                },
            )
        } else {
            None
        };
        single(
            "env",
            OtoroshiCtlConfigSpecUser {
                name: "env".to_string(),
                client_id: e.client_id,
                client_secret: e.client_secret,
                health_key: e.health_key,
            },
            OtoroshiCtlConfigSpecCluster {
                name: "env".to_string(),
                hostname: e.hostname,
                ip_addresses,
                port,
                tls,
                client_cert,
                routing_hostname: e.routing_hostname,
                routing_port,
                routing_tls,
                routing_ip_addresses,
            },
        )
    }

    /// The configuration that the options make, where they name host, port,
    /// client id and client secret.
    pub fn from_options(o: ConnectionOptions) -> (res: Option<OtoroshiCtlConfig>)
        ensures
            res.deep_view() == config_of_options(o.deep_view()),
    {
        match (o.hostname, o.port, o.client_id, o.client_secret) {
            (Some(hostname), Some(port), Some(client_id), Some(client_secret)) => {
                let client_cert = match (o.cert_location, o.key_location, o.ca_location) {
                    (Some(cert), Some(key), Some(ca)) => Some(
                        OtoroshiCtlConfigSpecClusterClientCert {
                            cert_location: Some(cert),
                            cert_value: None,
                            key_location: Some(key),
                            key_value: None,
                            ca_location: Some(ca),
                            ca_value: None,
                        },
                    ),
                    _ => None,
                };
                Some(
                    single(
                        "tmp",
                        OtoroshiCtlConfigSpecUser {
                            name: "tmp".to_string(),
                            client_id,
                            client_secret,
                            health_key: o.health_key,
                        },
                        OtoroshiCtlConfigSpecCluster {
                            name: "tmp".to_string(),
                            hostname,
                            ip_addresses: None,
                            port,
                            tls: o.tls,
                            client_cert,
                            routing_hostname: o.routing_hostname,
                            routing_port: o.routing_port,
                            routing_tls: o.routing_tls,
                            routing_ip_addresses: None,
                        },
                    ),
                )
            },
            _ => None,
        }
    }
}

} // verus!
