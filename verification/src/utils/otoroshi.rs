//! The connection settings of one gateway.

use base64::Engine;
use vstd::prelude::*;
use crate::cli::config::{
    OtoroshiCtlConfigSpecClusterClientCert, OtoroshiCtlConfigSpecClusterClientCertModel,
};
use crate::utils::text::{
    clone_opt_string, clone_opt_strings, contains, ends_with, has_substring, is_suffix,
};

verus! {

/// Everything needed to reach one gateway: the control-plane endpoint,
/// the credentials and, where configured, the routing endpoint.
#[derive(Debug)]
pub struct OtoroshiConnectionConfig {
    /// Control-plane API address, as `hostname:port`.
    pub host: String,
    pub hostname: String,
    pub port: u16,
    pub ip_addresses: Option<Vec<String>>,
    /// Client id.
    pub cid: String,
    /// Client secret.
    pub csec: String,
    /// Health key.
    pub chealth: Option<String>,
    pub tls: bool,
    /// Client certificate for the control-plane API.
    pub mtls: Option<OtoroshiCtlConfigSpecClusterClientCert>,
    pub routing_hostname: Option<String>,
    pub routing_port: Option<u16>,
    pub routing_tls: Option<bool>,
    pub routing_ip_addresses: Option<Vec<String>>,
}

/// The plain value of a [`OtoroshiConnectionConfig`].
pub struct OtoroshiConnectionConfigModel {
    pub host: Seq<char>,
    pub hostname: Seq<char>,
    pub port: u16,
    pub ip_addresses: Option<Seq<Seq<char>>>,
    pub cid: Seq<char>,
    pub csec: Seq<char>,
    pub chealth: Option<Seq<char>>,
    pub tls: bool,
    pub mtls: Option<OtoroshiCtlConfigSpecClusterClientCertModel>,
    pub routing_hostname: Option<Seq<char>>,
    pub routing_port: Option<u16>,
    pub routing_tls: Option<bool>,
    pub routing_ip_addresses: Option<Seq<Seq<char>>>,
}

impl DeepView for OtoroshiConnectionConfig {
    type V = OtoroshiConnectionConfigModel;

    open spec fn deep_view(&self) -> OtoroshiConnectionConfigModel {
        OtoroshiConnectionConfigModel {
            host: self.host.deep_view(),
            hostname: self.hostname.deep_view(),
            port: self.port.deep_view(),
            ip_addresses: self.ip_addresses.deep_view(),
            cid: self.cid.deep_view(),
            csec: self.csec.deep_view(),
            chealth: self.chealth.deep_view(),
            tls: self.tls.deep_view(),
            mtls: self.mtls.deep_view(),
            routing_hostname: self.routing_hostname.deep_view(),
            routing_port: self.routing_port.deep_view(),
            routing_tls: self.routing_tls.deep_view(),
            routing_ip_addresses: self.routing_ip_addresses.deep_view(),
        }
    }
}

impl Clone for OtoroshiConnectionConfig {
    fn clone(&self) -> (res: Self)
        ensures
            res.deep_view() == self.deep_view(),
    {
        OtoroshiConnectionConfig {
            host: self.host.clone(),
            hostname: self.hostname.clone(),
            port: self.port,
            ip_addresses: clone_opt_strings(&self.ip_addresses),
            cid: self.cid.clone(),
            csec: self.csec.clone(),
            chealth: clone_opt_string(&self.chealth),
            tls: self.tls,
            mtls: match &self.mtls {
                Some(inner) => Some(inner.clone()),
                None => None,
            },
            routing_hostname: clone_opt_string(&self.routing_hostname),
            routing_port: self.routing_port,
            routing_tls: self.routing_tls,
            routing_ip_addresses: clone_opt_strings(&self.routing_ip_addresses),
        }
    }
}
/// Most bytes of credentials that an authorization is built from.
pub const LONGEST_CREDENTIALS: usize = 0x4000_0000;

/// The text that the standard base64 engine without padding encodes bytes
/// to.
pub uninterp spec fn base64_no_pad(bytes: Seq<u8>) -> Seq<char>;

/// Calls `encode` of `base64::engine::general_purpose::STANDARD_NO_PAD`.
/// The engine panics where the length of the text does not fit, which the
/// precondition leaves out. The contract claims only that the outcome is
/// `base64_no_pad` of the bytes.
#[verifier::external_body]
fn encode_base64_no_pad(bytes: &[u8]) -> (res: String)
    requires
        bytes@.len() <= LONGEST_CREDENTIALS,
    ensures
        res@ == base64_no_pad(bytes@),
{
    base64::engine::general_purpose::STANDARD_NO_PAD.encode(bytes)
}

/// The scheme of a connection.
pub open spec fn scheme_of_connection(tls: bool) -> Seq<char> {
    if tls {
        "https"@
    } else {
        "http"@
    }
}

/// The address of a call to `path` of the control-plane API. A call for
/// health or metrics carries the health key, where there is one, as the
/// `access_key` of its query.
pub open spec fn api_uri_of(c: OtoroshiConnectionConfigModel, path: Seq<char>) -> Seq<char> {
    let plain = scheme_of_connection(c.tls) + "://"@ + c.host + path;
    match c.chealth {
        Some(key) => if is_suffix(plain, "monitoring/health"@) || is_suffix(
            plain,
            "monitoring/metrics"@,
        ) {
            if has_substring(plain, "?"@) {
                plain + "&access_key="@ + key
            } else {
                plain + "?access_key="@ + key
            }
        } else {
            plain
        },
        None => plain,
    }
}

/// The `Authorization` header of a call: HTTP Basic with the client id and
/// the client secret.
pub open spec fn authorization_of(c: OtoroshiConnectionConfigModel) -> Seq<char> {
    "Basic "@ + base64_no_pad(vstd::utf8::encode_utf8(c.cid + seq![':'] + c.csec))
}

/// The control-plane API answered with the resource.
pub open spec fn is_success(status: u16) -> bool {
    status == 200 || status == 201
}

impl OtoroshiConnectionConfig {
    /// The address of a call to `path` of the control-plane API.
    pub fn api_uri(&self, path: &str) -> (res: String)
        ensures
            res@ == api_uri_of(self.deep_view(), path@),
    {
        let mut uri = if self.tls {
            "https".to_string()
        } else {
            "http".to_string()
        };
        uri.append("://");
        uri.append(self.host.as_str());
        uri.append(path);
        proof {
            assert(uri@ =~= scheme_of_connection(self.tls) + "://"@ + self.host@ + path@);
        }
        match &self.chealth {
            Some(key) => {
                if ends_with(uri.as_str(), "monitoring/health") || ends_with(
                    uri.as_str(),
                    "monitoring/metrics",
                ) {
                    if contains(uri.as_str(), "?") {
                        uri.append("&access_key=");
                    } else {
                        uri.append("?access_key=");
                    }
                    uri.append(key.as_str());
                }
            },
            None => {},
        }
        uri
    }

    /// The `Authorization` header of a call; `None` where the credentials
    /// are longer than an authorization is built from.
    pub fn authorization(&self) -> (res: Option<String>)
        ensures
            match res {
                Some(value) => value@ == authorization_of(self.deep_view()),
                None => vstd::utf8::encode_utf8(self.cid@ + seq![':'] + self.csec@).len()
                    > LONGEST_CREDENTIALS,
            },
    {
        let mut credentials = self.cid.clone();
        credentials.push(':');
        credentials.append(self.csec.as_str());
        proof {
            assert(credentials@ =~= self.cid@ + seq![':'] + self.csec@);
        }
        let bytes = credentials.as_str().as_bytes();
        if bytes.len() > LONGEST_CREDENTIALS {
            return None;
        }
        let mut out = "Basic ".to_string();
        let encoded = encode_base64_no_pad(bytes);
        out.append(encoded.as_str());
        Some(out)
    }

    /// Whether the control-plane API answered with the resource.
    pub fn answered_with_resource(status: u16) -> (res: bool)
        ensures
            res == is_success(status),
    {
        status == 200 || status == 201
    }
}

/// Where the client certificate of a connection comes from.
#[derive(Debug, Clone, PartialEq, Eq)]
pub enum ClientCertSource {
    /// The three parts are read from files.
    Files { cert: String, key: String, ca: String },
    /// The three parts are given as text.
    Values { cert: String, key: String, ca: String },
    /// Some part is missing both as a file and as text.
    Incomplete,
}

/// The plain value of a [`ClientCertSource`].
pub enum ClientCertSourceModel {
    Files { cert: Seq<char>, key: Seq<char>, ca: Seq<char> },
    Values { cert: Seq<char>, key: Seq<char>, ca: Seq<char> },
    Incomplete,
}

impl DeepView for ClientCertSource {
    type V = ClientCertSourceModel;

    open spec fn deep_view(&self) -> ClientCertSourceModel {
        match self {
            ClientCertSource::Files { cert, key, ca } => ClientCertSourceModel::Files {
                cert: cert@,
                key: key@,
                ca: ca@,
            },
            ClientCertSource::Values { cert, key, ca } => ClientCertSourceModel::Values {
                cert: cert@,
                key: key@,
                ca: ca@,
            },
            ClientCertSource::Incomplete => ClientCertSourceModel::Incomplete,
        }
    }
}

/// Where the client certificate comes from: from files where all three
/// locations are given, else from text where all three values are given.
pub open spec fn cert_source_of(
    c: OtoroshiCtlConfigSpecClusterClientCertModel,
) -> ClientCertSourceModel {
    match (c.ca_location, c.cert_location, c.key_location) {
        (Some(ca), Some(cert), Some(key)) => ClientCertSourceModel::Files { cert, key, ca },
        _ => match (c.ca_value, c.cert_value, c.key_value) {
            (Some(ca), Some(cert), Some(key)) => ClientCertSourceModel::Values { cert, key, ca },
            _ => ClientCertSourceModel::Incomplete,
        },
    }
}

/// The chain that a certificate and its authority make: the certificate,
/// an empty line, the authority.
pub open spec fn chain_of(cert: Seq<char>, ca: Seq<char>) -> Seq<char> {
    cert + "\n\n"@ + ca
}

impl OtoroshiCtlConfigSpecClusterClientCert {
    /// Where the client certificate comes from.
    pub fn source(&self) -> (res: ClientCertSource)
        ensures
            res.deep_view() == cert_source_of(self.deep_view()),
    {
        match (&self.ca_location, &self.cert_location, &self.key_location) {
            (Some(ca), Some(cert), Some(key)) => ClientCertSource::Files {
                cert: cert.clone(),
                key: key.clone(),
                ca: ca.clone(),
            },
            _ => match (&self.ca_value, &self.cert_value, &self.key_value) {
                (Some(ca), Some(cert), Some(key)) => ClientCertSource::Values {
                    cert: cert.clone(),
                    key: key.clone(),
                    ca: ca.clone(),
                },
                _ => ClientCertSource::Incomplete,
            },
        }
    }
}

/// The chain that a certificate and its authority make.
pub fn certificate_chain(cert: &str, ca: &str) -> (res: String)
    ensures
        res@ == chain_of(cert@, ca@),
{
    let mut out = cert.to_string();
    out.append("\n\n");
    out.append(ca);
    out
}

} // verus!
