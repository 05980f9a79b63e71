use otoroshictl::cli::config::{
    OtoroshiCtlConfig, OtoroshiCtlConfigSpecCluster, OtoroshiCtlConfigSpecClusterClientCert,
    OtoroshiCtlConfigSpecContext, OtoroshiCtlConfigSpecUser,
};
use otoroshictl::sidecar::config::{
    settings_from_connection, OtoroshiSidecarConfig, OtoroshiSidecarConfigSpecOtoroshiSettings,
    OtoroshiSidecarConfigSpecOtoroshiSettingsClientCert,
    OtoroshiSidecarConfigSpecOtoroshiSettingsCredentials,
    OtoroshiSidecarConfigSpecOtoroshiSettingsLocation,
    OtoroshiSidecarConfigSpecOtoroshiSettingsLocationKubernetesLocation,
    OtoroshiSidecarConfigSpecOtoroshiSettingsRoutingLocation,
    OtoroshiSidecarConfigSpecOutboundsSettings, OtoroshiSidecarConfigSpecOutboundsSettingsOutbound,
    OtoroshiSidecarConfigSpecOutboundsSettingsOutboundApikey,
};
use otoroshictl::sidecar::sidecar::{
    ConfigSource, InboundMode, Sidecar, REFRESH_PERIOD_SECONDS, STALENESS_BOUND_SECONDS,
};
use otoroshictl::utils::http::HttpContentKind;

fn current(with_routing: bool) -> OtoroshiCtlConfig {
    let mut config = OtoroshiCtlConfig::empty();
    config.current_context = "here".to_string();
    config.users.push(OtoroshiCtlConfigSpecUser {
        name: "u".to_string(),
        client_id: "cid".to_string(),
        client_secret: "csec".to_string(),
        health_key: Some("health".to_string()),
    });
    for name in ["c-here", "c-there"] {
        config.clusters.push(OtoroshiCtlConfigSpecCluster {
            name: name.to_string(),
            hostname: format!("{}.example", name),
            ip_addresses: Some(vec!["10.0.0.1".to_string()]),
            port: 8443,
            tls: true,
            client_cert: Some(OtoroshiCtlConfigSpecClusterClientCert {
                cert_location: Some("/c".to_string()),
                cert_value: Some("cv".to_string()),
                key_location: Some("/k".to_string()),
                key_value: Some("kv".to_string()),
                ca_location: Some("/a".to_string()),
                ca_value: Some("av".to_string()),
            }),
            routing_hostname: if with_routing { Some(format!("r.{}.example", name)) } else { None },
            routing_port: if with_routing { Some(9443) } else { None },
            routing_tls: if with_routing { Some(false) } else { None },
            routing_ip_addresses: Some(vec!["10.0.1.1".to_string()]),
        });
    }
    config.contexts.push(OtoroshiCtlConfigSpecContext {
        name: "here".to_string(),
        cluster: "c-here".to_string(),
        user: "u".to_string(),
        cloud_apim: false,
    });
    config.contexts.push(OtoroshiCtlConfigSpecContext {
        name: "there".to_string(),
        cluster: "c-there".to_string(),
        user: "u".to_string(),
        cloud_apim: false,
    });
    config
}

#[test]
fn test_defaults_of_the_settings() {
    let routing = OtoroshiSidecarConfigSpecOtoroshiSettingsRoutingLocation::default();
    assert_eq!(routing.hostname, Some("otoroshi.oto.tools".to_string()));
    assert_eq!(routing.ip_addresses, None);
    assert!(routing.kubernetes.is_none());
    assert_eq!(routing.port, 9999);
    assert!(!routing.tls);

    let location = OtoroshiSidecarConfigSpecOtoroshiSettingsLocation::default();
    assert_eq!(location.hostname, Some("otoroshi-api.oto.tools".to_string()));
    assert_eq!(location.ip_addresses, None);
    assert!(location.kubernetes.is_none());
    assert_eq!(location.port, 9999);
    assert!(!location.tls);

    let kube = OtoroshiSidecarConfigSpecOtoroshiSettingsLocationKubernetesLocation::default();
    assert_eq!(kube.service, "otoroshi");
    assert_eq!(kube.namespace, "otoroshi");

    let credentials = OtoroshiSidecarConfigSpecOtoroshiSettingsCredentials::default();
    assert_eq!(credentials.client_id, "admin-api-apikey-id");
    assert_eq!(credentials.client_secret, "admin-api-apikey-secret");

    let cert = OtoroshiSidecarConfigSpecOtoroshiSettingsClientCert::default();
    assert_eq!(cert.cert_location, None);
    assert_eq!(cert.cert_value, None);
    assert_eq!(cert.key_location, None);
    assert_eq!(cert.key_value, None);
    assert_eq!(cert.ca_location, None);
    assert_eq!(cert.ca_value, None);
}

#[test]
fn test_sample_configuration() {
    let config = OtoroshiSidecarConfig::default();
    assert_eq!(config.api_version, "proxy.otoroshi.io/v1");
    assert_eq!(config.kind, "Sidecar");
    assert_eq!(
        config.metadata,
        vec![("name".to_string(), "default-sidecar".to_string())]
    );
    let spec = &config.spec;
    assert!(!spec.kubernetes);
    assert!(spec.dns_integration);
    assert_eq!(spec.dns_domain, Some(".otoroshi.mesh".to_string()));
    assert_eq!(spec.dns_port, Some(2053));
    assert_eq!(spec.dns_ttl, Some(300));
    assert_eq!(spec.dns_ns, None);
    let otoroshi = spec.otoroshi.as_ref().unwrap();
    assert_eq!(otoroshi.api_context_name, None);
    let location = otoroshi.location.as_ref().unwrap();
    assert_eq!(location.hostname, Some("otoroshi-api.oto.tools".to_string()));
    assert_eq!(location.port, 443);
    assert!(location.tls);
    let routing = otoroshi.routing_location.as_ref().unwrap();
    assert_eq!(routing.hostname, Some("otoroshi-routing.oto.tools".to_string()));
    assert_eq!(routing.port, 443);
    assert!(routing.tls);
    assert_eq!(otoroshi.credentials.as_ref().unwrap().client_id, "admin-api-apikey-id");
    assert!(otoroshi.client_cert.is_none());
    assert_eq!(spec.inbound.port, Some(8443));
    assert_eq!(spec.inbound.target_port, Some(14080));
    assert_eq!(spec.inbound.target_hostname, None);
    assert_eq!(spec.inbound.target_version, None);
    assert!(spec.inbound.tls.as_ref().unwrap().enabled);
    assert_eq!(spec.inbound.tls.as_ref().unwrap().cert_id, "a_cert_id");
    assert!(spec.inbound.mtls.as_ref().unwrap().enabled);
    assert_eq!(spec.inbound.mtls.as_ref().unwrap().ca_cert_id, "a_ca_cert_id");
    let protocol = spec.inbound.otoroshi_protocol.as_ref().unwrap();
    assert!(protocol.enabled);
    assert_eq!(protocol.version, Some("V2".to_string()));
    assert_eq!(protocol.route_id, None);
    assert_eq!(protocol.secret_in, Some("secret".to_string()));
    assert_eq!(protocol.secret_out, Some("secret".to_string()));
    assert_eq!(protocol.algo_in, Some("HS512".to_string()));
    assert_eq!(protocol.algo_out, Some("HS512".to_string()));
    assert_eq!(protocol.header_in_name, None);
    assert_eq!(protocol.header_out_name, None);
    assert_eq!(spec.outbounds.port, Some(15000));
    assert_eq!(spec.outbounds.outbounds.len(), 1);
    let rule = spec.outbounds.get("a.oto.tools").unwrap();
    assert_eq!(rule.hostname, Some("a.otoroshi.mesh".to_string()));
    assert_eq!(rule.path, Some("/".to_string()));
    assert!(rule.apikey.as_ref().unwrap().enabled);
    assert_eq!(rule.apikey.as_ref().unwrap().apikey_id, "an_apikey_id");
    assert!(rule.mtls.as_ref().unwrap().enabled);
    assert_eq!(rule.mtls.as_ref().unwrap().client_cert_id, "a_cert_id");
}

fn rule(apikey_id: &str) -> OtoroshiSidecarConfigSpecOutboundsSettingsOutbound {
    OtoroshiSidecarConfigSpecOutboundsSettingsOutbound {
        hostname: None,
        path: None,
        apikey: Some(OtoroshiSidecarConfigSpecOutboundsSettingsOutboundApikey {
            enabled: true,
            apikey_id: apikey_id.to_string(),
        }),
        mtls: None,
    }
}

#[test]
fn test_outbound_rules_are_kept_one_per_host() {
    let mut rules = OtoroshiSidecarConfigSpecOutboundsSettings::new(Some(15001));
    assert_eq!(rules.port, Some(15001));
    assert!(rules.get("a.otoroshi.mesh").is_none());
    rules.insert("a.otoroshi.mesh".to_string(), rule("k1"));
    rules.insert("b.otoroshi.mesh".to_string(), rule("k2"));
    rules.insert("a.otoroshi.mesh".to_string(), rule("k3"));
    assert_eq!(rules.outbounds.len(), 2);
    assert_eq!(rules.position("a.otoroshi.mesh"), Some(0));
    assert_eq!(rules.position("b.otoroshi.mesh"), Some(1));
    assert_eq!(rules.position("A.otoroshi.mesh"), None);
    assert_eq!(rules.get("a.otoroshi.mesh").unwrap().apikey.as_ref().unwrap().apikey_id, "k3");
    assert_eq!(rules.get("b.otoroshi.mesh").unwrap().apikey.as_ref().unwrap().apikey_id, "k2");
    assert!(rules.get("otoroshi.mesh").is_none());
    assert_eq!(rules.port, Some(15001));
}

#[test]
fn test_compute_otoroshi_keeps_settings_that_are_spelled_out() {
    let config = OtoroshiSidecarConfig::default();
    assert!(!config.spec.needs_current_config());
    let settings = config.spec.compute_otoroshi(&OtoroshiCtlConfig::empty());
    let location = settings.location.unwrap();
    assert_eq!(location.hostname, Some("otoroshi-api.oto.tools".to_string()));
    assert_eq!(location.port, 443);
    assert_eq!(settings.routing_location.unwrap().hostname, Some("otoroshi-routing.oto.tools".to_string()));
    assert_eq!(settings.credentials.unwrap().client_secret, "admin-api-apikey-secret");
}

#[test]
fn test_compute_otoroshi_without_settings_uses_the_current_context() {
    let mut config = OtoroshiSidecarConfig::default();
    config.spec.otoroshi = None;
    assert!(config.spec.needs_current_config());
    let settings = config.spec.compute_otoroshi(&current(true));
    assert_eq!(settings.api_context_name, None);
    let location = settings.location.unwrap();
    assert_eq!(location.hostname, Some("c-here.example".to_string()));
    assert_eq!(location.ip_addresses, Some(vec!["10.0.0.1".to_string()]));
    assert_eq!(location.port, 8443);
    assert!(location.tls);
    assert!(location.kubernetes.is_none());
    let routing = settings.routing_location.unwrap();
    assert_eq!(routing.hostname, Some("r.c-here.example".to_string()));
    assert_eq!(routing.ip_addresses, Some(vec!["10.0.1.1".to_string()]));
    assert_eq!(routing.port, 9443);
    assert!(!routing.tls);
    let credentials = settings.credentials.unwrap();
    assert_eq!(credentials.client_id, "cid");
    assert_eq!(credentials.client_secret, "csec");
    let cert = settings.client_cert.unwrap();
    assert_eq!(cert.cert_location, Some("/c".to_string()));
    assert_eq!(cert.cert_value, Some("cv".to_string()));
    assert_eq!(cert.key_location, Some("/k".to_string()));
    assert_eq!(cert.key_value, Some("kv".to_string()));
    assert_eq!(cert.ca_location, Some("/a".to_string()));
    assert_eq!(cert.ca_value, Some("av".to_string()));
}

#[test]
fn test_compute_otoroshi_with_a_named_context_drops_the_address_pools() {
    let mut config = OtoroshiSidecarConfig::default();
    config.spec.otoroshi = Some(OtoroshiSidecarConfigSpecOtoroshiSettings {
        api_context_name: Some("there".to_string()),
        location: None,
        routing_location: None,
        credentials: None,
        client_cert: None,
    });
    assert!(config.spec.needs_current_config());
    let settings = config.spec.compute_otoroshi(&current(true));
    let location = settings.location.unwrap();
    assert_eq!(location.hostname, Some("c-there.example".to_string()));
    assert_eq!(location.ip_addresses, None);
    let routing = settings.routing_location.unwrap();
    assert_eq!(routing.hostname, Some("r.c-there.example".to_string()));
    assert_eq!(routing.ip_addresses, None);
    assert_eq!(routing.port, 9443);
}

#[test]
fn test_compute_otoroshi_without_routing_host_has_no_routing_location() {
    let mut config = OtoroshiSidecarConfig::default();
    config.spec.otoroshi = None;
    let settings = config.spec.compute_otoroshi(&current(false));
    assert!(settings.routing_location.is_none());
    assert!(settings.location.is_some());
}

#[test]
fn test_try_compute_otoroshi_says_what_does_not_resolve() {
    let mut config = OtoroshiSidecarConfig::default();
    config.spec.otoroshi = None;
    assert!(config.spec.try_compute_otoroshi(&OtoroshiCtlConfig::empty()).is_none());
    config.spec.otoroshi = Some(OtoroshiSidecarConfigSpecOtoroshiSettings {
        api_context_name: Some("nowhere".to_string()),
        location: None,
        routing_location: None,
        credentials: None,
        client_cert: None,
    });
    assert!(config.spec.try_compute_otoroshi(&current(true)).is_none());
    let mut half = current(true);
    half.clusters[0].routing_port = None;
    config.spec.otoroshi = None;
    assert!(config.spec.try_compute_otoroshi(&half).is_none());
    let connection = half.try_get_context("here").unwrap();
    assert!(settings_from_connection(connection, true).is_none());
}

#[test]
fn test_inbound_mode_and_sources() {
    let mut config = OtoroshiSidecarConfig::default();
    assert_eq!(Sidecar::inbound_mode(&config), InboundMode::Https);
    config.spec.inbound.tls.as_mut().unwrap().enabled = false;
    assert_eq!(Sidecar::inbound_mode(&config), InboundMode::Http);
    config.spec.inbound.tls = None;
    assert_eq!(Sidecar::inbound_mode(&config), InboundMode::Http);
    assert_eq!(Sidecar::config_source("http://x/sidecar.yaml"), ConfigSource::Url);
    assert_eq!(Sidecar::config_source("https://x/sidecar.yaml"), ConfigSource::Url);
    assert_eq!(Sidecar::config_source("./https://x"), ConfigSource::File);
    assert_eq!(Sidecar::config_source("sidecar.yaml"), ConfigSource::File);
    assert_eq!(Sidecar::file_format("sidecar.json"), HttpContentKind::JSON);
    assert_eq!(Sidecar::file_format("sidecar.yaml"), HttpContentKind::YAML);
    assert_eq!(Sidecar::file_format("sidecar.json.bak"), HttpContentKind::YAML);
    assert_eq!(REFRESH_PERIOD_SECONDS, 60);
    assert_eq!(STALENESS_BOUND_SECONDS, 180);
}
