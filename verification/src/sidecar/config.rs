//! The configuration document of a sidecar, and how the gateway it names
//! is resolved.

use vstd::prelude::*;
use crate::cli::config::{
    OtoroshiCtlConfig, OtoroshiCtlConfigModel, OtoroshiCtlConfigSpecClusterClientCertModel,
};
use crate::utils::otoroshi::{OtoroshiConnectionConfig, OtoroshiConnectionConfigModel};
use crate::utils::search::{
    first_index, lemma_first_index, lemma_first_index_is, lemma_first_index_none,
};
use crate::utils::text::{clone_opt_string, clone_opt_strings, str_eq};

verus! {

/// A gateway reached as a service of the cluster the sidecar runs in.
#[derive(Debug)]
pub struct OtoroshiSidecarConfigSpecOtoroshiSettingsLocationKubernetesLocation {
    pub service: String,
    pub namespace: String,
}

/// The plain value of a [`OtoroshiSidecarConfigSpecOtoroshiSettingsLocationKubernetesLocation`].
pub struct OtoroshiSidecarConfigSpecOtoroshiSettingsLocationKubernetesLocationModel {
    pub service: Seq<char>,
    pub namespace: Seq<char>,
}

impl DeepView for OtoroshiSidecarConfigSpecOtoroshiSettingsLocationKubernetesLocation {
    type V = OtoroshiSidecarConfigSpecOtoroshiSettingsLocationKubernetesLocationModel;

    open spec fn deep_view(&self) -> OtoroshiSidecarConfigSpecOtoroshiSettingsLocationKubernetesLocationModel {
        OtoroshiSidecarConfigSpecOtoroshiSettingsLocationKubernetesLocationModel {
            service: self.service.deep_view(),
            namespace: self.namespace.deep_view(),
        }
    }
}

impl Clone for OtoroshiSidecarConfigSpecOtoroshiSettingsLocationKubernetesLocation {
    fn clone(&self) -> (res: Self)
        ensures
            res.deep_view() == self.deep_view(),
    {
        OtoroshiSidecarConfigSpecOtoroshiSettingsLocationKubernetesLocation {
            service: self.service.clone(),
            namespace: self.namespace.clone(),
        }
    }
}

/// Where mesh traffic is sent: the routing endpoint of the gateway.
#[derive(Debug)]
pub struct OtoroshiSidecarConfigSpecOtoroshiSettingsRoutingLocation {
    pub hostname: Option<String>,
    pub ip_addresses: Option<Vec<String>>,
    pub kubernetes: Option<OtoroshiSidecarConfigSpecOtoroshiSettingsLocationKubernetesLocation>,
    pub port: u16,
    pub tls: bool,
}

/// The plain value of a [`OtoroshiSidecarConfigSpecOtoroshiSettingsRoutingLocation`].
pub struct OtoroshiSidecarConfigSpecOtoroshiSettingsRoutingLocationModel {
    pub hostname: Option<Seq<char>>,
    pub ip_addresses: Option<Seq<Seq<char>>>,
    pub kubernetes: Option<OtoroshiSidecarConfigSpecOtoroshiSettingsLocationKubernetesLocationModel>,
    pub port: u16,
    pub tls: bool,
}

impl DeepView for OtoroshiSidecarConfigSpecOtoroshiSettingsRoutingLocation {
    type V = OtoroshiSidecarConfigSpecOtoroshiSettingsRoutingLocationModel;

    open spec fn deep_view(&self) -> OtoroshiSidecarConfigSpecOtoroshiSettingsRoutingLocationModel {
        OtoroshiSidecarConfigSpecOtoroshiSettingsRoutingLocationModel {
            hostname: self.hostname.deep_view(),
            ip_addresses: self.ip_addresses.deep_view(),
            kubernetes: self.kubernetes.deep_view(),
            port: self.port.deep_view(),
            tls: self.tls.deep_view(),
        }
    }
}

impl Clone for OtoroshiSidecarConfigSpecOtoroshiSettingsRoutingLocation {
    fn clone(&self) -> (res: Self)
        ensures
            res.deep_view() == self.deep_view(),
    {
        OtoroshiSidecarConfigSpecOtoroshiSettingsRoutingLocation {
            hostname: clone_opt_string(&self.hostname),
            ip_addresses: clone_opt_strings(&self.ip_addresses),
            kubernetes: match &self.kubernetes {
                Some(inner) => Some(inner.clone()),
                None => None,
            },
            port: self.port,
            tls: self.tls,
        }
    }
}

/// Where resources are looked up: the control-plane API of the gateway.
#[derive(Debug)]
pub struct OtoroshiSidecarConfigSpecOtoroshiSettingsLocation {
    pub hostname: Option<String>,
    pub ip_addresses: Option<Vec<String>>,
    pub kubernetes: Option<OtoroshiSidecarConfigSpecOtoroshiSettingsLocationKubernetesLocation>,
    pub port: u16,
    pub tls: bool,
}

/// The plain value of a [`OtoroshiSidecarConfigSpecOtoroshiSettingsLocation`].
pub struct OtoroshiSidecarConfigSpecOtoroshiSettingsLocationModel {
    pub hostname: Option<Seq<char>>,
    pub ip_addresses: Option<Seq<Seq<char>>>,
    pub kubernetes: Option<OtoroshiSidecarConfigSpecOtoroshiSettingsLocationKubernetesLocationModel>,
    pub port: u16,
    pub tls: bool,
}

impl DeepView for OtoroshiSidecarConfigSpecOtoroshiSettingsLocation {
    type V = OtoroshiSidecarConfigSpecOtoroshiSettingsLocationModel;

    open spec fn deep_view(&self) -> OtoroshiSidecarConfigSpecOtoroshiSettingsLocationModel {
        OtoroshiSidecarConfigSpecOtoroshiSettingsLocationModel {
            hostname: self.hostname.deep_view(),
            ip_addresses: self.ip_addresses.deep_view(),
            kubernetes: self.kubernetes.deep_view(),
            port: self.port.deep_view(),
            tls: self.tls.deep_view(),
        }
    }
}

impl Clone for OtoroshiSidecarConfigSpecOtoroshiSettingsLocation {
    fn clone(&self) -> (res: Self)
        ensures
            res.deep_view() == self.deep_view(),
    {
        OtoroshiSidecarConfigSpecOtoroshiSettingsLocation {
            hostname: clone_opt_string(&self.hostname),
            ip_addresses: clone_opt_strings(&self.ip_addresses),
            kubernetes: match &self.kubernetes {
                Some(inner) => Some(inner.clone()),
                None => None,
            },
            port: self.port,
            tls: self.tls,
        }
    }
}

/// The API key the sidecar presents to the control-plane API.
#[derive(Debug)]
pub struct OtoroshiSidecarConfigSpecOtoroshiSettingsCredentials {
    pub client_id: String,
    pub client_secret: String,
}

/// The plain value of a [`OtoroshiSidecarConfigSpecOtoroshiSettingsCredentials`].
pub struct OtoroshiSidecarConfigSpecOtoroshiSettingsCredentialsModel {
    pub client_id: Seq<char>,
    pub client_secret: Seq<char>,
}

impl DeepView for OtoroshiSidecarConfigSpecOtoroshiSettingsCredentials {
    type V = OtoroshiSidecarConfigSpecOtoroshiSettingsCredentialsModel;

    open spec fn deep_view(&self) -> OtoroshiSidecarConfigSpecOtoroshiSettingsCredentialsModel {
        OtoroshiSidecarConfigSpecOtoroshiSettingsCredentialsModel {
            client_id: self.client_id.deep_view(),
            client_secret: self.client_secret.deep_view(),
        }
    }
}

impl Clone for OtoroshiSidecarConfigSpecOtoroshiSettingsCredentials {
    fn clone(&self) -> (res: Self)
        ensures
            res.deep_view() == self.deep_view(),
    {
        OtoroshiSidecarConfigSpecOtoroshiSettingsCredentials {
            client_id: self.client_id.clone(),
            client_secret: self.client_secret.clone(),
        }
    }
}

/// Where the client certificate for the control-plane API is found: each
/// part either as a file location or as its text.
#[derive(Debug)]
pub struct OtoroshiSidecarConfigSpecOtoroshiSettingsClientCert {
    pub cert_location: Option<String>,
    pub cert_value: Option<String>,
    pub key_location: Option<String>,
    pub key_value: Option<String>,
    pub ca_location: Option<String>,
    pub ca_value: Option<String>,
}

/// The plain value of a [`OtoroshiSidecarConfigSpecOtoroshiSettingsClientCert`].
pub struct OtoroshiSidecarConfigSpecOtoroshiSettingsClientCertModel {
    pub cert_location: Option<Seq<char>>,
    pub cert_value: Option<Seq<char>>,
    pub key_location: Option<Seq<char>>,
    pub key_value: Option<Seq<char>>,
    pub ca_location: Option<Seq<char>>,
    pub ca_value: Option<Seq<char>>,
}

impl DeepView for OtoroshiSidecarConfigSpecOtoroshiSettingsClientCert {
    type V = OtoroshiSidecarConfigSpecOtoroshiSettingsClientCertModel;

    open spec fn deep_view(&self) -> OtoroshiSidecarConfigSpecOtoroshiSettingsClientCertModel {
        OtoroshiSidecarConfigSpecOtoroshiSettingsClientCertModel {
            cert_location: self.cert_location.deep_view(),
            cert_value: self.cert_value.deep_view(),
            key_location: self.key_location.deep_view(),
            key_value: self.key_value.deep_view(),
            ca_location: self.ca_location.deep_view(),
            ca_value: self.ca_value.deep_view(),
        }
    }
}

impl Clone for OtoroshiSidecarConfigSpecOtoroshiSettingsClientCert {
    fn clone(&self) -> (res: Self)
        ensures
            res.deep_view() == self.deep_view(),
    {
        OtoroshiSidecarConfigSpecOtoroshiSettingsClientCert {
            cert_location: clone_opt_string(&self.cert_location),
            cert_value: clone_opt_string(&self.cert_value),
            key_location: clone_opt_string(&self.key_location),
            key_value: clone_opt_string(&self.key_value),
            ca_location: clone_opt_string(&self.ca_location),
            ca_value: clone_opt_string(&self.ca_value),
        }
    }
}

/// How to reach the gateway: either spelled out, or by the name of a
/// context of the command-line tool's configuration.
#[derive(Debug)]
pub struct OtoroshiSidecarConfigSpecOtoroshiSettings {
    pub api_context_name: Option<String>,
    pub location: Option<OtoroshiSidecarConfigSpecOtoroshiSettingsLocation>,
    pub routing_location: Option<OtoroshiSidecarConfigSpecOtoroshiSettingsRoutingLocation>,
    pub credentials: Option<OtoroshiSidecarConfigSpecOtoroshiSettingsCredentials>,
    pub client_cert: Option<OtoroshiSidecarConfigSpecOtoroshiSettingsClientCert>,
}

/// The plain value of a [`OtoroshiSidecarConfigSpecOtoroshiSettings`].
pub struct OtoroshiSidecarConfigSpecOtoroshiSettingsModel {
    pub api_context_name: Option<Seq<char>>,
    pub location: Option<OtoroshiSidecarConfigSpecOtoroshiSettingsLocationModel>,
    pub routing_location: Option<OtoroshiSidecarConfigSpecOtoroshiSettingsRoutingLocationModel>,
    pub credentials: Option<OtoroshiSidecarConfigSpecOtoroshiSettingsCredentialsModel>,
    pub client_cert: Option<OtoroshiSidecarConfigSpecOtoroshiSettingsClientCertModel>,
}

impl DeepView for OtoroshiSidecarConfigSpecOtoroshiSettings {
    type V = OtoroshiSidecarConfigSpecOtoroshiSettingsModel;

    open spec fn deep_view(&self) -> OtoroshiSidecarConfigSpecOtoroshiSettingsModel {
        OtoroshiSidecarConfigSpecOtoroshiSettingsModel {
            api_context_name: self.api_context_name.deep_view(),
            location: self.location.deep_view(),
            routing_location: self.routing_location.deep_view(),
            credentials: self.credentials.deep_view(),
            client_cert: self.client_cert.deep_view(),
        }
    }
}

impl Clone for OtoroshiSidecarConfigSpecOtoroshiSettings {
    fn clone(&self) -> (res: Self)
        ensures
            res.deep_view() == self.deep_view(),
    {
        OtoroshiSidecarConfigSpecOtoroshiSettings {
            api_context_name: clone_opt_string(&self.api_context_name),
            location: match &self.location {
                Some(inner) => Some(inner.clone()),
                None => None,
            },
            routing_location: match &self.routing_location {
                Some(inner) => Some(inner.clone()),
                None => None,
            },
            credentials: match &self.credentials {
                Some(inner) => Some(inner.clone()),
                None => None,
            },
            client_cert: match &self.client_cert {
                Some(inner) => Some(inner.clone()),
                None => None,
            },
        }
    }
}

/// The certificate the inbound listener serves.
#[derive(Debug)]
pub struct OtoroshiSidecarConfigSpecInboundSettingsTls {
    pub enabled: bool,
    pub cert_id: String,
}

/// The plain value of a [`OtoroshiSidecarConfigSpecInboundSettingsTls`].
pub struct OtoroshiSidecarConfigSpecInboundSettingsTlsModel {
    pub enabled: bool,
    pub cert_id: Seq<char>,
}

impl DeepView for OtoroshiSidecarConfigSpecInboundSettingsTls {
    type V = OtoroshiSidecarConfigSpecInboundSettingsTlsModel;

    open spec fn deep_view(&self) -> OtoroshiSidecarConfigSpecInboundSettingsTlsModel {
        OtoroshiSidecarConfigSpecInboundSettingsTlsModel {
            enabled: self.enabled.deep_view(),
            cert_id: self.cert_id.deep_view(),
        }
    }
}

impl Clone for OtoroshiSidecarConfigSpecInboundSettingsTls {
    fn clone(&self) -> (res: Self)
        ensures
            res.deep_view() == self.deep_view(),
    {
        OtoroshiSidecarConfigSpecInboundSettingsTls {
            enabled: self.enabled,
            cert_id: self.cert_id.clone(),
        }
    }
}

/// The authority that client certificates of inbound peers are held to.
#[derive(Debug)]
pub struct OtoroshiSidecarConfigSpecInboundSettingsMtls {
    pub enabled: bool,
    pub ca_cert_id: String,
}

/// The plain value of a [`OtoroshiSidecarConfigSpecInboundSettingsMtls`].
pub struct OtoroshiSidecarConfigSpecInboundSettingsMtlsModel {
    pub enabled: bool,
    pub ca_cert_id: Seq<char>,
}

impl DeepView for OtoroshiSidecarConfigSpecInboundSettingsMtls {
    type V = OtoroshiSidecarConfigSpecInboundSettingsMtlsModel;

    open spec fn deep_view(&self) -> OtoroshiSidecarConfigSpecInboundSettingsMtlsModel {
        OtoroshiSidecarConfigSpecInboundSettingsMtlsModel {
            enabled: self.enabled.deep_view(),
            ca_cert_id: self.ca_cert_id.deep_view(),
        }
    }
}

impl Clone for OtoroshiSidecarConfigSpecInboundSettingsMtls {
    fn clone(&self) -> (res: Self)
        ensures
            res.deep_view() == self.deep_view(),
    {
        OtoroshiSidecarConfigSpecInboundSettingsMtls {
            enabled: self.enabled,
            ca_cert_id: self.ca_cert_id.clone(),
        }
    }
}

/// The challenge settings of the inbound listener: either spelled out, or
/// taken from the challenge plugin of a route.
#[derive(Debug)]
pub struct OtoroshiSidecarConfigSpecOtoroshiProtocol {
    pub enabled: bool,
    pub version: Option<String>,
    pub route_id: Option<String>,
    pub secret_in: Option<String>,
    pub secret_out: Option<String>,
    pub algo_in: Option<String>,
    pub algo_out: Option<String>,
    pub header_in_name: Option<String>,
    pub header_out_name: Option<String>,
}

/// The plain value of a [`OtoroshiSidecarConfigSpecOtoroshiProtocol`].
pub struct OtoroshiSidecarConfigSpecOtoroshiProtocolModel {
    pub enabled: bool,
    pub version: Option<Seq<char>>,
    pub route_id: Option<Seq<char>>,
    pub secret_in: Option<Seq<char>>,
    pub secret_out: Option<Seq<char>>,
    pub algo_in: Option<Seq<char>>,
    pub algo_out: Option<Seq<char>>,
    pub header_in_name: Option<Seq<char>>,
    pub header_out_name: Option<Seq<char>>,
}

impl DeepView for OtoroshiSidecarConfigSpecOtoroshiProtocol {
    type V = OtoroshiSidecarConfigSpecOtoroshiProtocolModel;

    open spec fn deep_view(&self) -> OtoroshiSidecarConfigSpecOtoroshiProtocolModel {
        OtoroshiSidecarConfigSpecOtoroshiProtocolModel {
            enabled: self.enabled.deep_view(),
            version: self.version.deep_view(),
            route_id: self.route_id.deep_view(),
            secret_in: self.secret_in.deep_view(),
            secret_out: self.secret_out.deep_view(),
            algo_in: self.algo_in.deep_view(),
            algo_out: self.algo_out.deep_view(),
            header_in_name: self.header_in_name.deep_view(),
            header_out_name: self.header_out_name.deep_view(),
        }
    }
}

impl Clone for OtoroshiSidecarConfigSpecOtoroshiProtocol {
    fn clone(&self) -> (res: Self)
        ensures
            res.deep_view() == self.deep_view(),
    {
        OtoroshiSidecarConfigSpecOtoroshiProtocol {
            enabled: self.enabled,
            version: clone_opt_string(&self.version),
            route_id: clone_opt_string(&self.route_id),
            secret_in: clone_opt_string(&self.secret_in),
            secret_out: clone_opt_string(&self.secret_out),
            algo_in: clone_opt_string(&self.algo_in),
            algo_out: clone_opt_string(&self.algo_out),
            header_in_name: clone_opt_string(&self.header_in_name),
            header_out_name: clone_opt_string(&self.header_out_name),
        }
    }
}

/// The inbound listener and the local process it forwards to.
#[derive(Debug)]
pub struct OtoroshiSidecarConfigSpecInboundSettings {
    pub port: Option<u16>,
    pub target_port: Option<u16>,
    pub target_hostname: Option<String>,
    pub target_version: Option<String>,
    pub tls: Option<OtoroshiSidecarConfigSpecInboundSettingsTls>,
    pub mtls: Option<OtoroshiSidecarConfigSpecInboundSettingsMtls>,
    pub otoroshi_protocol: Option<OtoroshiSidecarConfigSpecOtoroshiProtocol>,
}

/// The plain value of a [`OtoroshiSidecarConfigSpecInboundSettings`].
pub struct OtoroshiSidecarConfigSpecInboundSettingsModel {
    pub port: Option<u16>,
    pub target_port: Option<u16>,
    pub target_hostname: Option<Seq<char>>,
    pub target_version: Option<Seq<char>>,
    pub tls: Option<OtoroshiSidecarConfigSpecInboundSettingsTlsModel>,
    pub mtls: Option<OtoroshiSidecarConfigSpecInboundSettingsMtlsModel>,
    pub otoroshi_protocol: Option<OtoroshiSidecarConfigSpecOtoroshiProtocolModel>,
}

impl DeepView for OtoroshiSidecarConfigSpecInboundSettings {
    type V = OtoroshiSidecarConfigSpecInboundSettingsModel;

    open spec fn deep_view(&self) -> OtoroshiSidecarConfigSpecInboundSettingsModel {
        OtoroshiSidecarConfigSpecInboundSettingsModel {
            port: self.port.deep_view(),
            target_port: self.target_port.deep_view(),
            target_hostname: self.target_hostname.deep_view(),
            target_version: self.target_version.deep_view(),
            tls: self.tls.deep_view(),
            mtls: self.mtls.deep_view(),
            otoroshi_protocol: self.otoroshi_protocol.deep_view(),
        }
    }
}

impl Clone for OtoroshiSidecarConfigSpecInboundSettings {
    fn clone(&self) -> (res: Self)
        ensures
            res.deep_view() == self.deep_view(),
    {
        OtoroshiSidecarConfigSpecInboundSettings {
            port: self.port,
            target_port: self.target_port,
            target_hostname: clone_opt_string(&self.target_hostname),
            target_version: clone_opt_string(&self.target_version),
            tls: match &self.tls {
                Some(inner) => Some(inner.clone()),
                None => None,
            },
            mtls: match &self.mtls {
                Some(inner) => Some(inner.clone()),
                None => None,
            },
            otoroshi_protocol: match &self.otoroshi_protocol {
                Some(inner) => Some(inner.clone()),
                None => None,
            },
        }
    }
}

/// The API key presented to one mesh destination.
#[derive(Debug)]
pub struct OtoroshiSidecarConfigSpecOutboundsSettingsOutboundApikey {
    pub enabled: bool,
    pub apikey_id: String,
}

/// The plain value of a [`OtoroshiSidecarConfigSpecOutboundsSettingsOutboundApikey`].
pub struct OtoroshiSidecarConfigSpecOutboundsSettingsOutboundApikeyModel {
    pub enabled: bool,
    pub apikey_id: Seq<char>,
}

impl DeepView for OtoroshiSidecarConfigSpecOutboundsSettingsOutboundApikey {
    type V = OtoroshiSidecarConfigSpecOutboundsSettingsOutboundApikeyModel;

    open spec fn deep_view(&self) -> OtoroshiSidecarConfigSpecOutboundsSettingsOutboundApikeyModel {
        OtoroshiSidecarConfigSpecOutboundsSettingsOutboundApikeyModel {
            enabled: self.enabled.deep_view(),
            apikey_id: self.apikey_id.deep_view(),
        }
    }
}

impl Clone for OtoroshiSidecarConfigSpecOutboundsSettingsOutboundApikey {
    fn clone(&self) -> (res: Self)
        ensures
            res.deep_view() == self.deep_view(),
    {
        OtoroshiSidecarConfigSpecOutboundsSettingsOutboundApikey {
            enabled: self.enabled,
            apikey_id: self.apikey_id.clone(),
        }
    }
}

/// The client certificate presented to one mesh destination.
#[derive(Debug)]
pub struct OtoroshiSidecarConfigSpecOutboundsSettingsOutboundMtls {
    pub enabled: bool,
    pub client_cert_id: String,
}

/// The plain value of a [`OtoroshiSidecarConfigSpecOutboundsSettingsOutboundMtls`].
pub struct OtoroshiSidecarConfigSpecOutboundsSettingsOutboundMtlsModel {
    pub enabled: bool,
    pub client_cert_id: Seq<char>,
}

impl DeepView for OtoroshiSidecarConfigSpecOutboundsSettingsOutboundMtls {
    type V = OtoroshiSidecarConfigSpecOutboundsSettingsOutboundMtlsModel;

    open spec fn deep_view(&self) -> OtoroshiSidecarConfigSpecOutboundsSettingsOutboundMtlsModel {
        OtoroshiSidecarConfigSpecOutboundsSettingsOutboundMtlsModel {
            enabled: self.enabled.deep_view(),
            client_cert_id: self.client_cert_id.deep_view(),
        }
    }
}

impl Clone for OtoroshiSidecarConfigSpecOutboundsSettingsOutboundMtls {
    fn clone(&self) -> (res: Self)
        ensures
            res.deep_view() == self.deep_view(),
    {
        OtoroshiSidecarConfigSpecOutboundsSettingsOutboundMtls {
            enabled: self.enabled,
            client_cert_id: self.client_cert_id.clone(),
        }
    }
}

/// What to add to calls to one mesh destination.
#[derive(Debug)]
pub struct OtoroshiSidecarConfigSpecOutboundsSettingsOutbound {
    pub hostname: Option<String>,
    pub path: Option<String>,
    pub apikey: Option<OtoroshiSidecarConfigSpecOutboundsSettingsOutboundApikey>,
    pub mtls: Option<OtoroshiSidecarConfigSpecOutboundsSettingsOutboundMtls>,
}

/// The plain value of a [`OtoroshiSidecarConfigSpecOutboundsSettingsOutbound`].
pub struct OtoroshiSidecarConfigSpecOutboundsSettingsOutboundModel {
    pub hostname: Option<Seq<char>>,
    pub path: Option<Seq<char>>,
    pub apikey: Option<OtoroshiSidecarConfigSpecOutboundsSettingsOutboundApikeyModel>,
    pub mtls: Option<OtoroshiSidecarConfigSpecOutboundsSettingsOutboundMtlsModel>,
}

impl DeepView for OtoroshiSidecarConfigSpecOutboundsSettingsOutbound {
    type V = OtoroshiSidecarConfigSpecOutboundsSettingsOutboundModel;

    open spec fn deep_view(&self) -> OtoroshiSidecarConfigSpecOutboundsSettingsOutboundModel {
        OtoroshiSidecarConfigSpecOutboundsSettingsOutboundModel {
            hostname: self.hostname.deep_view(),
            path: self.path.deep_view(),
            apikey: self.apikey.deep_view(),
            mtls: self.mtls.deep_view(),
        }
    }
}

impl Clone for OtoroshiSidecarConfigSpecOutboundsSettingsOutbound {
    fn clone(&self) -> (res: Self)
        ensures
            res.deep_view() == self.deep_view(),
    {
        OtoroshiSidecarConfigSpecOutboundsSettingsOutbound {
            hostname: clone_opt_string(&self.hostname),
            path: clone_opt_string(&self.path),
            apikey: match &self.apikey {
                Some(inner) => Some(inner.clone()),
                None => None,
            },
            mtls: match &self.mtls {
                Some(inner) => Some(inner.clone()),
                None => None,
            },
        }
    }
}

/// The outbound listener and its rules, each under the host name it
/// applies to.
#[derive(Debug, Clone)]
pub struct OtoroshiSidecarConfigSpecOutboundsSettings {
    pub port: Option<u16>,
    pub outbounds: Vec<(String, OtoroshiSidecarConfigSpecOutboundsSettingsOutbound)>,
}

/// The plain value of a [`OtoroshiSidecarConfigSpecOutboundsSettings`].
pub struct OtoroshiSidecarConfigSpecOutboundsSettingsModel {
    pub port: Option<u16>,
    pub outbounds: Seq<(Seq<char>, OtoroshiSidecarConfigSpecOutboundsSettingsOutboundModel)>,
}

impl DeepView for OtoroshiSidecarConfigSpecOutboundsSettings {
    type V = OtoroshiSidecarConfigSpecOutboundsSettingsModel;

    open spec fn deep_view(&self) -> OtoroshiSidecarConfigSpecOutboundsSettingsModel {
        OtoroshiSidecarConfigSpecOutboundsSettingsModel {
            port: self.port.deep_view(),
            outbounds: self.outbounds.deep_view(),
        }
    }
}

/// The settings of one sidecar.
#[derive(Debug, Clone)]
pub struct OtoroshiSidecarConfigSpec {
    pub kubernetes: bool,
    pub dns_integration: bool,
    pub dns_port: Option<u16>,
    pub dns_ns: Option<String>,
    /// Suffix of the host names that belong to the mesh.
    pub dns_domain: Option<String>,
    pub dns_ttl: Option<u32>,
    pub otoroshi: Option<OtoroshiSidecarConfigSpecOtoroshiSettings>,
    pub inbound: OtoroshiSidecarConfigSpecInboundSettings,
    pub outbounds: OtoroshiSidecarConfigSpecOutboundsSettings,
}

/// The plain value of a [`OtoroshiSidecarConfigSpec`].
pub struct OtoroshiSidecarConfigSpecModel {
    pub kubernetes: bool,
    pub dns_integration: bool,
    pub dns_port: Option<u16>,
    pub dns_ns: Option<Seq<char>>,
    pub dns_domain: Option<Seq<char>>,
    pub dns_ttl: Option<u32>,
    pub otoroshi: Option<OtoroshiSidecarConfigSpecOtoroshiSettingsModel>,
    pub inbound: OtoroshiSidecarConfigSpecInboundSettingsModel,
    pub outbounds: OtoroshiSidecarConfigSpecOutboundsSettingsModel,
}

impl DeepView for OtoroshiSidecarConfigSpec {
    type V = OtoroshiSidecarConfigSpecModel;

    open spec fn deep_view(&self) -> OtoroshiSidecarConfigSpecModel {
        OtoroshiSidecarConfigSpecModel {
            kubernetes: self.kubernetes.deep_view(),
            dns_integration: self.dns_integration.deep_view(),
            dns_port: self.dns_port.deep_view(),
            dns_ns: self.dns_ns.deep_view(),
            dns_domain: self.dns_domain.deep_view(),
            dns_ttl: self.dns_ttl.deep_view(),
            otoroshi: self.otoroshi.deep_view(),
            inbound: self.inbound.deep_view(),
            outbounds: self.outbounds.deep_view(),
        }
    }
}

/// The configuration document of one sidecar.
#[derive(Debug, Clone)]
pub struct OtoroshiSidecarConfig {
    pub api_version: String,
    pub kind: String,
    pub metadata: Vec<(String, String)>,
    pub spec: OtoroshiSidecarConfigSpec,
}

/// The plain value of a [`OtoroshiSidecarConfig`].
pub struct OtoroshiSidecarConfigModel {
    pub api_version: Seq<char>,
    pub kind: Seq<char>,
    pub metadata: Seq<(Seq<char>, Seq<char>)>,
    pub spec: OtoroshiSidecarConfigSpecModel,
}

impl DeepView for OtoroshiSidecarConfig {
    type V = OtoroshiSidecarConfigModel;

    open spec fn deep_view(&self) -> OtoroshiSidecarConfigModel {
        OtoroshiSidecarConfigModel {
            api_version: self.api_version.deep_view(),
            kind: self.kind.deep_view(),
            metadata: self.metadata.deep_view(),
            spec: self.spec.deep_view(),
        }
    }
}
/// The routing endpoint that stands in where none is configured.
pub open spec fn default_routing_location() -> OtoroshiSidecarConfigSpecOtoroshiSettingsRoutingLocationModel {
    OtoroshiSidecarConfigSpecOtoroshiSettingsRoutingLocationModel {
        hostname: Some("otoroshi.oto.tools"@),
        ip_addresses: None,
        kubernetes: None,
        port: 9999,
        tls: false,
    }
}

impl OtoroshiSidecarConfigSpecOtoroshiSettingsRoutingLocation {
    /// The routing endpoint of a gateway on the local development host.
    pub fn default() -> (res: OtoroshiSidecarConfigSpecOtoroshiSettingsRoutingLocation)
        ensures
            res.deep_view() == default_routing_location(),
    {
        OtoroshiSidecarConfigSpecOtoroshiSettingsRoutingLocation {
            hostname: Some("otoroshi.oto.tools".to_string()),
            ip_addresses: None,
            kubernetes: None,
            port: 9999,
            tls: false,
        }
    }
}

/// The service that stands in where none is configured.
pub open spec fn default_kubernetes_location() -> OtoroshiSidecarConfigSpecOtoroshiSettingsLocationKubernetesLocationModel {
    OtoroshiSidecarConfigSpecOtoroshiSettingsLocationKubernetesLocationModel {
        service: "otoroshi"@,
        namespace: "otoroshi"@,
    }
}

impl OtoroshiSidecarConfigSpecOtoroshiSettingsLocationKubernetesLocation {
    /// The service and namespace a gateway is installed under by default.
    pub fn default() -> (res: OtoroshiSidecarConfigSpecOtoroshiSettingsLocationKubernetesLocation)
        ensures
            res.deep_view() == default_kubernetes_location(),
    {
        OtoroshiSidecarConfigSpecOtoroshiSettingsLocationKubernetesLocation {
            service: "otoroshi".to_string(),
            namespace: "otoroshi".to_string(),
        }
    }
}

/// The control-plane API that stands in where none is configured.
pub open spec fn default_location() -> OtoroshiSidecarConfigSpecOtoroshiSettingsLocationModel {
    OtoroshiSidecarConfigSpecOtoroshiSettingsLocationModel {
        hostname: Some("otoroshi-api.oto.tools"@),
        ip_addresses: None,
        kubernetes: None,
        port: 9999,
        tls: false,
    }
}

impl OtoroshiSidecarConfigSpecOtoroshiSettingsLocation {
    /// The control-plane API of a gateway on the local development host.
    pub fn default() -> (res: OtoroshiSidecarConfigSpecOtoroshiSettingsLocation)
        ensures
            res.deep_view() == default_location(),
    {
        OtoroshiSidecarConfigSpecOtoroshiSettingsLocation {
            hostname: Some("otoroshi-api.oto.tools".to_string()),
            ip_addresses: None,
            kubernetes: None,
            port: 9999,
            tls: false,
        }
    }
}

/// The credentials that stand in where none are configured.
pub open spec fn default_credentials() -> OtoroshiSidecarConfigSpecOtoroshiSettingsCredentialsModel {
    OtoroshiSidecarConfigSpecOtoroshiSettingsCredentialsModel {
        client_id: "admin-api-apikey-id"@,
        client_secret: "admin-api-apikey-secret"@,
    }
}

impl OtoroshiSidecarConfigSpecOtoroshiSettingsCredentials {
    /// The API key a fresh gateway is installed with.
    pub fn default() -> (res: OtoroshiSidecarConfigSpecOtoroshiSettingsCredentials)
        ensures
            res.deep_view() == default_credentials(),
    {
        OtoroshiSidecarConfigSpecOtoroshiSettingsCredentials {
            client_id: "admin-api-apikey-id".to_string(),
            client_secret: "admin-api-apikey-secret".to_string(),
        }
    }
}

/// A client certificate with no part given.
pub open spec fn default_client_cert() -> OtoroshiSidecarConfigSpecOtoroshiSettingsClientCertModel {
    OtoroshiSidecarConfigSpecOtoroshiSettingsClientCertModel {
        cert_location: None,
        cert_value: None,
        key_location: None,
        key_value: None,
        ca_location: None,
        ca_value: None,
    }
}

impl OtoroshiSidecarConfigSpecOtoroshiSettingsClientCert {
    /// No client certificate at all.
    pub fn default() -> (res: OtoroshiSidecarConfigSpecOtoroshiSettingsClientCert)
        ensures
            res.deep_view() == default_client_cert(),
    {
        OtoroshiSidecarConfigSpecOtoroshiSettingsClientCert {
            cert_location: None,
            cert_value: None,
            key_location: None,
            key_value: None,
            ca_location: None,
            ca_value: None,
        }
    }
}

/// The condition that a rule stands under `host`.
pub open spec fn stands_under(host: Seq<char>) -> spec_fn(
    (Seq<char>, OtoroshiSidecarConfigSpecOutboundsSettingsOutboundModel),
) -> bool {
    |r: (Seq<char>, OtoroshiSidecarConfigSpecOutboundsSettingsOutboundModel)| r.0 == host
}

/// Index of the first rule of `rules` that stands under `host`.
pub open spec fn rule_index(
    rules: Seq<(Seq<char>, OtoroshiSidecarConfigSpecOutboundsSettingsOutboundModel)>,
    host: Seq<char>,
) -> Option<int> {
    first_index(rules, stands_under(host))
}

impl OtoroshiSidecarConfigSpecOutboundsSettingsModel {
    /// No host name has two rules.
    pub open spec fn well_formed(self) -> bool {
        forall|i: int, j: int|
            0 <= i < j < self.outbounds.len() ==> self.outbounds[i].0 != self.outbounds[j].0
    }

    /// The rule that stands under `host`.
    pub open spec fn rule(self, host: Seq<char>) -> Option<
        OtoroshiSidecarConfigSpecOutboundsSettingsOutboundModel,
    > {
        match rule_index(self.outbounds, host) {
            Some(i) => Some(self.outbounds[i].1),
            None => None,
        }
    }
}

impl OtoroshiSidecarConfigSpecOutboundsSettings {
    /// Settings with a listener port and no rule.
    pub fn new(port: Option<u16>) -> (res: OtoroshiSidecarConfigSpecOutboundsSettings)
        ensures
            res.deep_view().port == port,
            res.deep_view().outbounds == Seq::<
                (Seq<char>, OtoroshiSidecarConfigSpecOutboundsSettingsOutboundModel),
            >::empty(),
            res.deep_view().well_formed(),
    {
        let res = OtoroshiSidecarConfigSpecOutboundsSettings { port, outbounds: Vec::new() };
        proof {
            assert(res.outbounds.deep_view() =~= Seq::empty());
        }
        res
    }

    /// Position of the rule that stands under `host`.
    pub fn position(&self, host: &str) -> (res: Option<usize>)
        ensures
            match res {
                Some(i) => i < self.outbounds.len() && rule_index(
                    self.deep_view().outbounds,
                    host@,
                ) == Some(i as int),
                None => rule_index(self.deep_view().outbounds, host@) is None,
            },
    {
        let ghost p = stands_under(host@);
        let ghost s = self.deep_view().outbounds;
        let mut i: usize = 0;
        while i < self.outbounds.len()
            invariant
                i <= self.outbounds.len(),
                s == self.deep_view().outbounds,
                p == stands_under(host@),
                forall|j: int| 0 <= j < i ==> !p(s[j]),
            decreases self.outbounds.len() - i,
        {
            if str_eq(self.outbounds[i].0.as_str(), host) {
                proof {
                    lemma_first_index_is(s, p, i as int);
                }
                return Some(i);
            }
            i = i + 1;
        }
        proof {
            lemma_first_index_none(s, p);
        }
        None
    }

    /// The rule that stands under exactly `host`.
    pub fn get(&self, host: &str) -> (res: Option<
        &OtoroshiSidecarConfigSpecOutboundsSettingsOutbound,
    >)
        ensures
            res.deep_view() == self.deep_view().rule(host@),
    {
        match self.position(host) {
            Some(i) => Some(&self.outbounds[i].1),
            None => None,
        }
    }

    /// Puts `rule` under `host`, in place of the rule that stood there, if
    /// one did.
    pub fn insert(&mut self, host: String, rule: OtoroshiSidecarConfigSpecOutboundsSettingsOutbound)
        requires
            old(self).deep_view().well_formed(),
        ensures
            final(self).deep_view().well_formed(),
            final(self).deep_view().port == old(self).deep_view().port,
            final(self).deep_view().rule(host@) == Some(rule.deep_view()),
            forall|other: Seq<char>|
                other != host@ ==> final(self).deep_view().rule(other) == old(
                    self,
                ).deep_view().rule(other),
    {
        let ghost before = self.deep_view().outbounds;
        let ghost key = host@;
        let ghost value = rule.deep_view();
        match self.position(host.as_str()) {
            Some(i) => {
                proof {
                    lemma_first_index(before, stands_under(key));
                }
                self.outbounds[i] = (host, rule);
                proof {
                    let after = self.deep_view().outbounds;
                    assert(after =~= before.update(i as int, (key, value)));
                    lemma_rule_after_update(before, i as int, key, value);
                    assert forall|other: Seq<char>| other != key implies self.deep_view().rule(
                        other,
                    ) == old(self).deep_view().rule(other) by {
                        lemma_first_index(before, stands_under(other));
                    }
                }
            },
            None => {
                self.outbounds.push((host, rule));
                proof {
                    let after = self.deep_view().outbounds;
                    assert(after =~= before.push((key, value)));
                    lemma_rule_after_push(before, key, value);
                    assert forall|other: Seq<char>| other != key implies self.deep_view().rule(
                        other,
                    ) == old(self).deep_view().rule(other) by {
                        lemma_first_index(before, stands_under(other));
                    }
                }
            },
        }
    }
}

/// Replacing the rule under a host name changes what stands under that name
/// and nothing else.
proof fn lemma_rule_after_update(
    rules: Seq<(Seq<char>, OtoroshiSidecarConfigSpecOutboundsSettingsOutboundModel)>,
    i: int,
    host: Seq<char>,
    rule: OtoroshiSidecarConfigSpecOutboundsSettingsOutboundModel,
)
    requires
        0 <= i < rules.len(),
        rules[i].0 == host,
        forall|a: int, b: int| 0 <= a < b < rules.len() ==> rules[a].0 != rules[b].0,
    ensures
        forall|a: int, b: int|
            0 <= a < b < rules.len() ==> rules.update(i, (host, rule))[a].0 != rules.update(
                i,
                (host, rule),
            )[b].0,
        rule_index(rules.update(i, (host, rule)), host) == Some(i),
        forall|other: Seq<char>|
            other != host ==> #[trigger] rule_index(rules.update(i, (host, rule)), other)
                == rule_index(rules, other),
{
    let after = rules.update(i, (host, rule));
    let p = stands_under(host);
    assert forall|j: int| 0 <= j < i implies !p(after[j]) by {
        assert(rules[j].0 != rules[i].0);
    }
    assert(p(after[i]));
    lemma_first_index_is(after, p, i);
    assert forall|other: Seq<char>| other != host implies #[trigger] rule_index(after, other)
        == rule_index(rules, other) by {
        let q = stands_under(other);
        lemma_first_index(rules, q);
        match first_index(rules, q) {
            Some(k) => {
                assert(k != i);
                assert(q(after[k]));
                assert forall|j: int| 0 <= j < k implies !q(after[j]) by {
                    if j != i {
                        assert(after[j] == rules[j]);
                    }
                }
                lemma_first_index_is(after, q, k);
            },
            None => {
                assert forall|j: int| 0 <= j < after.len() implies !q(after[j]) by {
                    if j != i {
                        assert(after[j] == rules[j]);
                    }
                }
                lemma_first_index_none(after, q);
            },
        }
    }
}

/// Adding a rule under a host name that had none changes what stands under
/// that name and nothing else.
proof fn lemma_rule_after_push(
    rules: Seq<(Seq<char>, OtoroshiSidecarConfigSpecOutboundsSettingsOutboundModel)>,
    host: Seq<char>,
    rule: OtoroshiSidecarConfigSpecOutboundsSettingsOutboundModel,
)
    requires
        rule_index(rules, host) is None,
        forall|a: int, b: int| 0 <= a < b < rules.len() ==> rules[a].0 != rules[b].0,
    ensures
        forall|a: int, b: int|
            0 <= a < b < rules.len() + 1 ==> rules.push((host, rule))[a].0 != rules.push(
                (host, rule),
            )[b].0,
        rule_index(rules.push((host, rule)), host) == Some(rules.len() as int),
        forall|other: Seq<char>|
            other != host ==> #[trigger] rule_index(rules.push((host, rule)), other)
                == rule_index(rules, other),
{
    let after = rules.push((host, rule));
    let p = stands_under(host);
    lemma_first_index(rules, p);
    assert forall|j: int| 0 <= j < rules.len() implies !p(after[j]) by {
        assert(after[j] == rules[j]);
        assert(!p(rules[j]));
    }
    assert(p(after[rules.len() as int]));
    lemma_first_index_is(after, p, rules.len() as int);
    assert forall|a: int, b: int| 0 <= a < b < rules.len() + 1 implies after[a].0
        != after[b].0 by {
        if b == rules.len() {
            assert(!p(rules[a]));
        }
    }
    assert forall|other: Seq<char>| other != host implies #[trigger] rule_index(after, other)
        == rule_index(rules, other) by {
        let q = stands_under(other);
        lemma_first_index(rules, q);
        match first_index(rules, q) {
            Some(k) => {
                assert(after[k] == rules[k]);
                assert forall|j: int| 0 <= j < k implies !q(after[j]) by {
                    assert(after[j] == rules[j]);
                }
                lemma_first_index_is(after, q, k);
            },
            None => {
                assert forall|j: int| 0 <= j < after.len() implies !q(after[j]) by {
                    if j < rules.len() {
                        assert(after[j] == rules[j]);
                    }
                }
                lemma_first_index_none(after, q);
            },
        }
    }
}

/// The client certificate of connection settings, as sidecar settings hold
/// it.
pub open spec fn client_cert_of(
    cert: OtoroshiCtlConfigSpecClusterClientCertModel,
) -> OtoroshiSidecarConfigSpecOtoroshiSettingsClientCertModel {
    OtoroshiSidecarConfigSpecOtoroshiSettingsClientCertModel {
        cert_location: cert.cert_location,
        cert_value: cert.cert_value,
        key_location: cert.key_location,
        key_value: cert.key_value,
        ca_location: cert.ca_location,
        ca_value: cert.ca_value,
    }
}

/// The sidecar settings that connection settings stand for. The address
/// pools are taken over only where `keep_addresses` says so. There are none
/// where a routing host name comes without its port or its TLS flag.
pub open spec fn settings_of(
    c: OtoroshiConnectionConfigModel,
    keep_addresses: bool,
) -> Option<OtoroshiSidecarConfigSpecOtoroshiSettingsModel> {
    if c.routing_hostname is Some && (c.routing_port is None || c.routing_tls is None) {
        None
    } else {
        Some(
            OtoroshiSidecarConfigSpecOtoroshiSettingsModel {
                api_context_name: None,
                location: Some(
                    OtoroshiSidecarConfigSpecOtoroshiSettingsLocationModel {
                        hostname: Some(c.hostname),
                        ip_addresses: if keep_addresses {
                            c.ip_addresses
                        } else {
                            None
                        },
                        kubernetes: None,
                        port: c.port,
                        tls: c.tls,
                    },
                ),
                routing_location: match c.routing_hostname {
                    Some(h) => Some(
                        OtoroshiSidecarConfigSpecOtoroshiSettingsRoutingLocationModel {
                            hostname: Some(h),
                            ip_addresses: if keep_addresses {
                                c.routing_ip_addresses
                            } else {
                                None
                            },
                            kubernetes: None,
                            port: c.routing_port.unwrap(),
                            tls: c.routing_tls.unwrap(),
                        },
                    ),
                    None => None,
                },
                credentials: Some(
                    OtoroshiSidecarConfigSpecOtoroshiSettingsCredentialsModel {
                        client_id: c.cid,
                        client_secret: c.csec,
                    },
                ),
                client_cert: match c.mtls {
                    Some(cert) => Some(client_cert_of(cert)),
                    None => None,
                },
            },
        )
    }
}

impl OtoroshiSidecarConfigSpecModel {
    /// The settings rest on the configuration of the command-line tool: they
    /// are left out, or they name one of its contexts.
    pub open spec fn needs_current_config(self) -> bool {
        match self.otoroshi {
            None => true,
            Some(o) => o.api_context_name is Some,
        }
    }

    /// How the gateway is reached. Settings that are spelled out stand as
    /// they are. Settings that name a context are those of that context,
    /// without address pools. Where there are no settings, they are those of
    /// the context in use.
    pub open spec fn computed(self, current: OtoroshiCtlConfigModel) -> Option<
        OtoroshiSidecarConfigSpecOtoroshiSettingsModel,
    > {
        match self.otoroshi {
            None => match current.resolve(current.current_context) {
                Some(c) => settings_of(c, true),
                None => None,
            },
            Some(o) => match o.api_context_name {
                None => Some(o),
                Some(name) => match current.resolve(name) {
                    Some(c) => settings_of(c, false),
                    None => None,
                },
            },
        }
    }
}

/// The sidecar settings that connection settings stand for.
pub fn settings_from_connection(
    c: OtoroshiConnectionConfig,
    keep_addresses: bool,
) -> (res: Option<OtoroshiSidecarConfigSpecOtoroshiSettings>)
    ensures
        res.deep_view() == settings_of(c.deep_view(), keep_addresses),
{
    let routing_location = match c.routing_hostname {
        Some(h) => match (c.routing_port, c.routing_tls) {
            (Some(port), Some(tls)) => Some(
                OtoroshiSidecarConfigSpecOtoroshiSettingsRoutingLocation {
                    hostname: Some(h),
                    ip_addresses: if keep_addresses {
                        c.routing_ip_addresses
                    } else {
                        None
                    },
                    kubernetes: None,
                    port,
                    tls,
                },
            ),
            _ => { return None; },
        },
        None => None,
    };
    Some(
        OtoroshiSidecarConfigSpecOtoroshiSettings {
            api_context_name: None,
            location: Some(
                OtoroshiSidecarConfigSpecOtoroshiSettingsLocation {
                    hostname: Some(c.hostname),
                    ip_addresses: if keep_addresses {
                        c.ip_addresses
                    } else {
                        None
                    },
                    kubernetes: None,
                    port: c.port,
                    tls: c.tls,
                },
            ),
            routing_location,
            credentials: Some(
                OtoroshiSidecarConfigSpecOtoroshiSettingsCredentials {
                    client_id: c.cid,
                    client_secret: c.csec,
                },
            ),
            client_cert: match c.mtls {
                Some(cert) => Some(
                    OtoroshiSidecarConfigSpecOtoroshiSettingsClientCert {
                        cert_location: cert.cert_location,
                        cert_value: cert.cert_value,
                        key_location: cert.key_location,
                        key_value: cert.key_value,
                        ca_location: cert.ca_location,
                        ca_value: cert.ca_value,
                    },
                ),
                None => None,
            },
        },
    )
}

impl OtoroshiSidecarConfigSpec {
    /// Whether `compute_otoroshi` reads the configuration of the
    /// command-line tool.
    pub fn needs_current_config(&self) -> (res: bool)
        ensures
            res == self.deep_view().needs_current_config(),
    {
        match &self.otoroshi {
            None => true,
            Some(o) => o.api_context_name.is_some(),
        }
    }

    /// How the gateway is reached, given the configuration of the
    /// command-line tool; `None` where a context is called for that does not
    /// resolve.
    pub fn try_compute_otoroshi(&self, current: &OtoroshiCtlConfig) -> (res: Option<
        OtoroshiSidecarConfigSpecOtoroshiSettings,
    >)
        ensures
            res.deep_view() == self.deep_view().computed(current.deep_view()),
    {
        match &self.otoroshi {
            None => match current.try_get_context(current.current_context.as_str()) {
                Some(c) => settings_from_connection(c, true),
                None => None,
            },
            Some(o) => match &o.api_context_name {
                None => Some(o.clone()),
                Some(name) => match current.try_get_context(name.as_str()) {
                    Some(c) => settings_from_connection(c, false),
                    None => None,
                },
            },
        }
    }

    /// How the gateway is reached, given the configuration of the
    /// command-line tool.
    pub fn compute_otoroshi(&self, current: &OtoroshiCtlConfig) -> (res:
        OtoroshiSidecarConfigSpecOtoroshiSettings)
        requires
            self.deep_view().computed(current.deep_view()) is Some,
        ensures
            Some(res.deep_view()) == self.deep_view().computed(current.deep_view()),
    {
        self.try_compute_otoroshi(current).unwrap()
    }
}

/// The settings of the sample configuration.
pub open spec fn default_spec() -> OtoroshiSidecarConfigSpecModel {
    OtoroshiSidecarConfigSpecModel {
        kubernetes: false,
        dns_integration: true,
        dns_port: Some(2053u16),
        dns_ns: None,
        dns_domain: Some(".otoroshi.mesh"@),
        dns_ttl: Some(300u32),
        otoroshi: Some(
            OtoroshiSidecarConfigSpecOtoroshiSettingsModel {
                api_context_name: None,
                location: Some(
                    OtoroshiSidecarConfigSpecOtoroshiSettingsLocationModel {
                        hostname: Some("otoroshi-api.oto.tools"@),
                        ip_addresses: None,
                        kubernetes: None,
                        port: 443,
                        tls: true,
                    },
                ),
                routing_location: Some(
                    OtoroshiSidecarConfigSpecOtoroshiSettingsRoutingLocationModel {
                        hostname: Some("otoroshi-routing.oto.tools"@),
                        ip_addresses: None,
                        kubernetes: None,
                        port: 443,
                        tls: true,
                    },
                ),
                credentials: Some(
                    OtoroshiSidecarConfigSpecOtoroshiSettingsCredentialsModel {
                        client_id: "admin-api-apikey-id"@,
                        client_secret: "admin-api-apikey-secret"@,
                    },
                ),
                client_cert: None,
            },
        ),
        inbound: OtoroshiSidecarConfigSpecInboundSettingsModel {
            port: Some(8443u16),
            target_port: Some(14080u16),
            target_hostname: None,
            target_version: None,
            tls: Some(
                OtoroshiSidecarConfigSpecInboundSettingsTlsModel {
                    enabled: true,
                    cert_id: "a_cert_id"@,
                },
            ),
            mtls: Some(
                OtoroshiSidecarConfigSpecInboundSettingsMtlsModel {
                    enabled: true,
                    ca_cert_id: "a_ca_cert_id"@,
                },
            ),
            otoroshi_protocol: Some(
                OtoroshiSidecarConfigSpecOtoroshiProtocolModel {
                    enabled: true,
                    version: Some("V2"@),
                    route_id: None,
                    secret_in: Some("secret"@),
                    secret_out: Some("secret"@),
                    algo_in: Some("HS512"@),
                    algo_out: Some("HS512"@),
                    header_in_name: None,
                    header_out_name: None,
                },
            ),
        },
        outbounds: OtoroshiSidecarConfigSpecOutboundsSettingsModel {
            port: Some(15000u16),
            outbounds: seq![
                (
                    "a.oto.tools"@,
                    OtoroshiSidecarConfigSpecOutboundsSettingsOutboundModel {
                        hostname: Some("a.otoroshi.mesh"@),
                        path: Some("/"@),
                        apikey: Some(
                            OtoroshiSidecarConfigSpecOutboundsSettingsOutboundApikeyModel {
                                enabled: true,
                                apikey_id: "an_apikey_id"@,
                            },
                        ),
                        mtls: Some(
                            OtoroshiSidecarConfigSpecOutboundsSettingsOutboundMtlsModel {
                                enabled: true,
                                client_cert_id: "a_cert_id"@,
                            },
                        ),
                    },
                ),
            ],
        },
    }
}

impl OtoroshiSidecarConfig {
    /// The sample configuration: a sidecar named `default-sidecar` with
    /// every feature switched on.
    pub fn default() -> (res: OtoroshiSidecarConfig)
        ensures
            res.deep_view() == (OtoroshiSidecarConfigModel {
                api_version: "proxy.otoroshi.io/v1"@,
                kind: "Sidecar"@,
                metadata: seq![("name"@, "default-sidecar"@)],
                spec: default_spec(),
            }),
    {
        let mut metadata: Vec<(String, String)> = Vec::new();
        metadata.push(("name".to_string(), "default-sidecar".to_string()));
        let mut outbounds: Vec<(String, OtoroshiSidecarConfigSpecOutboundsSettingsOutbound)> =
            Vec::new();
        outbounds.push(
            (
                "a.oto.tools".to_string(),
                OtoroshiSidecarConfigSpecOutboundsSettingsOutbound {
                    hostname: Some("a.otoroshi.mesh".to_string()),
                    path: Some("/".to_string()),
                    apikey: Some(
                        OtoroshiSidecarConfigSpecOutboundsSettingsOutboundApikey {
                            enabled: true,
                            apikey_id: "an_apikey_id".to_string(),
                        },
                    ),
                    mtls: Some(
                        OtoroshiSidecarConfigSpecOutboundsSettingsOutboundMtls {
                            enabled: true,
                            client_cert_id: "a_cert_id".to_string(),
                        },
                    ),
                },
            ),
        );
        let res = OtoroshiSidecarConfig {
            api_version: "proxy.otoroshi.io/v1".to_string(),
            kind: "Sidecar".to_string(),
            metadata,
            spec: OtoroshiSidecarConfigSpec {
                kubernetes: false,
                dns_integration: true,
                dns_domain: Some(".otoroshi.mesh".to_string()),
                dns_port: Some(2053),
                dns_ttl: Some(300),
                dns_ns: None,
                otoroshi: Some(
                    OtoroshiSidecarConfigSpecOtoroshiSettings {
                        api_context_name: None,
                        location: Some(
                            OtoroshiSidecarConfigSpecOtoroshiSettingsLocation {
                                hostname: Some("otoroshi-api.oto.tools".to_string()),
                                ip_addresses: None,
                                kubernetes: None,
                                port: 443,
                                tls: true,
                            },
                        ),
                        routing_location: Some(
                            OtoroshiSidecarConfigSpecOtoroshiSettingsRoutingLocation {
                                hostname: Some("otoroshi-routing.oto.tools".to_string()),
                                ip_addresses: None,
                                kubernetes: None,
                                port: 443,
                                tls: true,
                            },
                        ),
                        credentials: Some(
                            OtoroshiSidecarConfigSpecOtoroshiSettingsCredentials::default(),
                        ),
                        client_cert: None,
                    },
                ),
                inbound: OtoroshiSidecarConfigSpecInboundSettings {
                    port: Some(8443),
                    target_port: Some(14080),
                    target_hostname: None,
                    target_version: None,
                    tls: Some(
                        OtoroshiSidecarConfigSpecInboundSettingsTls {
                            enabled: true,
                            cert_id: "a_cert_id".to_string(),
                        },
                    ),
                    mtls: Some(
                        OtoroshiSidecarConfigSpecInboundSettingsMtls {
                            enabled: true,
                            ca_cert_id: "a_ca_cert_id".to_string(),
                        },
                    ),
                    otoroshi_protocol: Some(
                        OtoroshiSidecarConfigSpecOtoroshiProtocol {
                            enabled: true,
                            version: Some("V2".to_string()),
                            route_id: None,
                            secret_in: Some("secret".to_string()),
                            secret_out: Some("secret".to_string()),
                            algo_in: Some("HS512".to_string()),
                            algo_out: Some("HS512".to_string()),
                            header_in_name: None,
                            header_out_name: None,
                        },
                    ),
                },
                outbounds: OtoroshiSidecarConfigSpecOutboundsSettings {
                    port: Some(15000),
                    outbounds,
                },
            },
        };
        proof {
            assert(res.metadata.deep_view() =~= seq![("name"@, "default-sidecar"@)]);
            assert(res.spec.outbounds.outbounds.deep_view() =~= seq![
                res.spec.outbounds.outbounds@[0].deep_view(),
            ]);
        }
        res
    }
}

} // verus!
