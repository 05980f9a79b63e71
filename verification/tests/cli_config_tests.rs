use otoroshictl::cli::config::{
    ConfigOrigin, ConnectionOptions, EnvironmentSettings, OtoroshiCtlConfig, CONFIG_APP_NAME,
    CONFIG_FILE_NAME,
    OtoroshiCtlConfigSpecCluster, OtoroshiCtlConfigSpecClusterClientCert,
    OtoroshiCtlConfigSpecContext, OtoroshiCtlConfigSpecUser,
};

fn user(name: &str, id: &str) -> OtoroshiCtlConfigSpecUser {
    OtoroshiCtlConfigSpecUser {
        name: name.to_string(),
        client_id: id.to_string(),
        client_secret: format!("{}-secret", id),
        health_key: Some(format!("{}-health", id)),
    }
}

fn cluster(name: &str, hostname: &str, port: u16) -> OtoroshiCtlConfigSpecCluster {
    OtoroshiCtlConfigSpecCluster {
        name: name.to_string(),
        hostname: hostname.to_string(),
        ip_addresses: Some(vec!["10.0.0.1".to_string(), "10.0.0.2".to_string()]),
        port,
        tls: true,
        client_cert: Some(OtoroshiCtlConfigSpecClusterClientCert {
            cert_location: Some("/cert.pem".to_string()),
            cert_value: None,
            key_location: Some("/key.pem".to_string()),
            key_value: None,
            ca_location: None,
            ca_value: Some("CA".to_string()),
        }),
        routing_hostname: Some("routing.example".to_string()),
        routing_port: Some(8443),
        routing_tls: Some(false),
        routing_ip_addresses: Some(vec!["10.0.1.1".to_string()]),
    }
}

fn context(name: &str, cluster: &str, user: &str) -> OtoroshiCtlConfigSpecContext {
    OtoroshiCtlConfigSpecContext {
        name: name.to_string(),
        cluster: cluster.to_string(),
        user: user.to_string(),
        cloud_apim: false,
    }
}

fn sample() -> OtoroshiCtlConfig {
    let mut config = OtoroshiCtlConfig::empty();
    config.users = vec![user("alice", "a"), user("bob", "b"), user("alice", "shadowed")];
    config.clusters = vec![
        cluster("prod", "api.prod.example", 443),
        cluster("dev", "api.dev.example", 9999),
    ];
    config.contexts = vec![
        context("prod", "prod", "alice"),
        context("dev", "dev", "bob"),
        context("dev", "prod", "alice"),
        context("broken-cluster", "nowhere", "bob"),
        context("broken-user", "dev", "nobody"),
    ];
    config.current_context = "dev".to_string();
    config
}

#[test]
fn test_empty_config() {
    let config = OtoroshiCtlConfig::empty();
    assert_eq!(config.api_version, "v1");
    assert_eq!(config.kind, "OtoroshiCtlConfig");
    assert!(config.metadata.is_empty());
    assert!(config.cloud_apim.is_none());
    assert!(config.users.is_empty());
    assert!(config.contexts.is_empty());
    assert!(config.clusters.is_empty());
    assert_eq!(config.current_context, "none");
}

#[test]
fn test_default_instance() {
    let config = OtoroshiCtlConfig::default_instance();
    assert_eq!(config.api_version, "v1");
    assert_eq!(config.kind, "OtoroshiCtlConfig");
    assert_eq!(config.current_context, "default");
    assert_eq!(config.users.len(), 1);
    assert_eq!(config.users[0].name, "default");
    assert_eq!(config.users[0].client_id, "admin-api-apikey-id");
    assert_eq!(config.users[0].client_secret, "admin-api-apikey-secret");
    assert_eq!(config.users[0].health_key, None);
    assert_eq!(config.contexts.len(), 1);
    assert_eq!(config.contexts[0].name, "default");
    assert_eq!(config.contexts[0].cluster, "default");
    assert_eq!(config.contexts[0].user, "default");
    assert!(!config.contexts[0].cloud_apim);
    assert_eq!(config.clusters.len(), 1);
    assert_eq!(config.clusters[0].name, "default");
    assert_eq!(config.clusters[0].hostname, "otoroshi-api.oto.tools");
    assert_eq!(config.clusters[0].port, 9999);
    assert!(!config.clusters[0].tls);
    assert!(config.clusters[0].client_cert.is_none());
    assert!(config.clusters[0].routing_hostname.is_none());
}

#[test]
fn test_default_instance_resolves_to_its_cluster() {
    let connection = OtoroshiCtlConfig::default_instance().to_connection_config();
    assert_eq!(connection.host, "otoroshi-api.oto.tools:9999");
    assert_eq!(connection.hostname, "otoroshi-api.oto.tools");
    assert_eq!(connection.port, 9999);
    assert_eq!(connection.cid, "admin-api-apikey-id");
    assert_eq!(connection.csec, "admin-api-apikey-secret");
    assert_eq!(connection.chealth, None);
    assert!(!connection.tls);
    assert!(connection.mtls.is_none());
    assert_eq!(connection.routing_hostname, None);
    assert_eq!(connection.routing_port, None);
}

#[test]
fn test_to_connection_config_uses_the_current_context() {
    let connection = sample().to_connection_config();
    assert_eq!(connection.host, "api.dev.example:9999");
    assert_eq!(connection.hostname, "api.dev.example");
    assert_eq!(connection.port, 9999);
    assert_eq!(connection.cid, "b");
    assert_eq!(connection.csec, "b-secret");
    assert_eq!(connection.chealth, Some("b-health".to_string()));
    assert!(connection.tls);
    assert_eq!(
        connection.ip_addresses,
        Some(vec!["10.0.0.1".to_string(), "10.0.0.2".to_string()])
    );
    assert_eq!(connection.routing_hostname, Some("routing.example".to_string()));
    assert_eq!(connection.routing_port, Some(8443));
    assert_eq!(connection.routing_tls, Some(false));
    assert_eq!(connection.routing_ip_addresses, Some(vec!["10.0.1.1".to_string()]));
    let cert = connection.mtls.unwrap();
    assert_eq!(cert.cert_location, Some("/cert.pem".to_string()));
    assert_eq!(cert.key_location, Some("/key.pem".to_string()));
    assert_eq!(cert.ca_value, Some("CA".to_string()));
    assert_eq!(cert.cert_value, None);
}

#[test]
fn test_get_context_takes_the_first_of_each_name() {
    let config = sample();
    let connection = config.get_context("prod".to_string());
    assert_eq!(connection.host, "api.prod.example:443");
    assert_eq!(connection.cid, "a");
    assert_eq!(config.find_context("dev"), Some(1));
    assert_eq!(config.find_user("alice"), Some(0));
    assert_eq!(config.find_cluster("dev"), Some(1));
    assert_eq!(config.find_context("none"), None);
    assert_eq!(config.find_user(""), None);
    assert_eq!(config.find_cluster("Prod"), None);
}

#[test]
fn test_try_get_context_says_what_does_not_resolve() {
    let config = sample();
    assert!(config.try_get_context("prod").is_some());
    assert!(config.try_get_context("missing").is_none());
    assert!(config.try_get_context("broken-cluster").is_none());
    assert!(config.try_get_context("broken-user").is_none());
    assert!(OtoroshiCtlConfig::empty().try_get_context("none").is_none());
}

fn environment() -> EnvironmentSettings {
    EnvironmentSettings {
        hostname: "gw.example".to_string(),
        port: None,
        tls: None,
        ip_addresses: None,
        routing_hostname: None,
        routing_port: None,
        routing_tls: None,
        routing_ip_addresses: None,
        cert_location: None,
        key_location: None,
        ca_location: None,
        cert_value: None,
        key_value: None,
        ca_value: None,
        client_id: "cid".to_string(),
        client_secret: "csec".to_string(),
        health_key: None,
    }
}

fn options() -> ConnectionOptions {
    ConnectionOptions {
        hostname: Some("gw.example".to_string()),
        port: Some(8443),
        tls: true,
        client_id: Some("cid".to_string()),
        client_secret: Some("csec".to_string()),
        health_key: Some("hk".to_string()),
        cert_location: None,
        key_location: None,
        ca_location: None,
        routing_hostname: Some("r.example".to_string()),
        routing_port: Some(9443),
        routing_tls: Some(false),
    }
}

#[test]
fn test_config_from_environment_with_defaults() {
    let config = OtoroshiCtlConfig::from_environment(environment());
    assert_eq!(config.api_version, "v1");
    assert_eq!(config.kind, "OtoroshiCtlConfig");
    assert_eq!(config.current_context, "env");
    assert_eq!(config.contexts.len(), 1);
    assert_eq!(config.contexts[0].name, "env");
    assert_eq!(config.contexts[0].cluster, "env");
    assert_eq!(config.contexts[0].user, "env");
    assert_eq!(config.users.len(), 1);
    assert_eq!(config.users[0].name, "env");
    assert_eq!(config.users[0].client_id, "cid");
    assert_eq!(config.users[0].client_secret, "csec");
    assert_eq!(config.users[0].health_key, None);
    assert_eq!(config.clusters.len(), 1);
    let cluster = &config.clusters[0];
    assert_eq!(cluster.name, "env");
    assert_eq!(cluster.hostname, "gw.example");
    assert_eq!(cluster.port, 443);
    assert!(cluster.tls);
    assert_eq!(cluster.ip_addresses, None);
    assert!(cluster.client_cert.is_none());
    assert_eq!(cluster.routing_hostname, None);
    assert_eq!(cluster.routing_port, None);
    assert_eq!(cluster.routing_tls, None);
    assert_eq!(cluster.routing_ip_addresses, None);
    assert_eq!(config.to_connection_config().host, "gw.example:443");
}

#[test]
fn test_config_from_environment_reads_every_variable() {
    let mut e = environment();
    e.port = Some("8443".to_string());
    e.tls = Some("false".to_string());
    e.ip_addresses = Some("10.0.0.1,10.0.0.2".to_string());
    e.routing_hostname = Some("r.example".to_string());
    e.routing_port = Some("not a port".to_string());
    e.routing_tls = Some("yes".to_string());
    e.routing_ip_addresses = Some("".to_string());
    e.key_value = Some("KEY".to_string());
    e.health_key = Some("hk".to_string());
    let config = OtoroshiCtlConfig::from_environment(e);
    let cluster = &config.clusters[0];
    assert_eq!(cluster.port, 8443);
    assert!(!cluster.tls);
    assert_eq!(
        cluster.ip_addresses,
        Some(vec!["10.0.0.1".to_string(), "10.0.0.2".to_string()])
    );
    assert_eq!(cluster.routing_hostname, Some("r.example".to_string()));
    assert_eq!(cluster.routing_port, Some(443));
    assert_eq!(cluster.routing_tls, Some(true));
    assert_eq!(cluster.routing_ip_addresses, Some(vec!["".to_string()]));
    let cert = cluster.client_cert.as_ref().unwrap();
    assert_eq!(cert.key_value, Some("KEY".to_string()));
    assert_eq!(cert.cert_location, None);
    assert_eq!(config.users[0].health_key, Some("hk".to_string()));
    let mut bad = environment();
    bad.port = Some("70000".to_string());
    bad.tls = Some("TRUE".to_string());
    let config = OtoroshiCtlConfig::from_environment(bad);
    assert_eq!(config.clusters[0].port, 443);
    assert!(config.clusters[0].tls);
}

#[test]
fn test_config_from_options() {
    let config = OtoroshiCtlConfig::from_options(options()).unwrap();
    assert_eq!(config.current_context, "tmp");
    assert_eq!(config.contexts[0].name, "tmp");
    assert_eq!(config.users[0].name, "tmp");
    assert_eq!(config.users[0].health_key, Some("hk".to_string()));
    let cluster = &config.clusters[0];
    assert_eq!(cluster.name, "tmp");
    assert_eq!(cluster.hostname, "gw.example");
    assert_eq!(cluster.port, 8443);
    assert!(cluster.tls);
    assert_eq!(cluster.ip_addresses, None);
    assert!(cluster.client_cert.is_none());
    assert_eq!(cluster.routing_hostname, Some("r.example".to_string()));
    assert_eq!(cluster.routing_port, Some(9443));
    assert_eq!(cluster.routing_tls, Some(false));
    assert_eq!(cluster.routing_ip_addresses, None);
    assert_eq!(config.to_connection_config().host, "gw.example:8443");
}

#[test]
fn test_config_from_options_needs_all_three_locations_for_a_certificate() {
    let mut o = options();
    o.cert_location = Some("/c".to_string());
    o.key_location = Some("/k".to_string());
    assert!(OtoroshiCtlConfig::from_options(o).unwrap().clusters[0].client_cert.is_none());
    let mut o = options();
    o.cert_location = Some("/c".to_string());
    o.key_location = Some("/k".to_string());
    o.ca_location = Some("/a".to_string());
    let config = OtoroshiCtlConfig::from_options(o).unwrap();
    let cert = config.clusters[0].client_cert.as_ref().unwrap();
    assert_eq!(cert.cert_location, Some("/c".to_string()));
    assert_eq!(cert.key_location, Some("/k".to_string()));
    assert_eq!(cert.ca_location, Some("/a".to_string()));
    assert_eq!(cert.cert_value, None);
    assert_eq!(cert.key_value, None);
    assert_eq!(cert.ca_value, None);
}

#[test]
fn test_config_from_options_needs_host_port_and_credentials() {
    for missing in 0..4 {
        let mut o = options();
        match missing {
            0 => o.hostname = None,
            1 => o.port = None,
            2 => o.client_id = None,
            _ => o.client_secret = None,
        }
        assert!(OtoroshiCtlConfig::from_options(o).is_none());
    }
}

#[test]
fn test_config_origin() {
    let complete = options();
    let mut incomplete = options();
    incomplete.port = None;
    assert_eq!(OtoroshiCtlConfig::origin(Some("true"), &complete, true), ConfigOrigin::Environment);
    assert_eq!(OtoroshiCtlConfig::origin(Some("TRUE"), &complete, true), ConfigOrigin::Options);
    assert_eq!(OtoroshiCtlConfig::origin(Some("1"), &incomplete, true), ConfigOrigin::File);
    assert_eq!(OtoroshiCtlConfig::origin(None, &complete, false), ConfigOrigin::Options);
    assert_eq!(OtoroshiCtlConfig::origin(None, &incomplete, true), ConfigOrigin::File);
    assert_eq!(OtoroshiCtlConfig::origin(None, &incomplete, false), ConfigOrigin::Stored);
}

#[test]
fn test_stored_configuration() {
    assert_eq!(CONFIG_APP_NAME, "io.otoroshi.otoroshictl");
    assert_eq!(CONFIG_FILE_NAME, "config");
    assert!(OtoroshiCtlConfig::empty().has_current_context());
    assert!(OtoroshiCtlConfig::default_instance().has_current_context());
    let mut config = OtoroshiCtlConfig::empty();
    config.current_context = "".to_string();
    assert!(!config.has_current_context());
}
