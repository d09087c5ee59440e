use std::collections::HashMap;
use wasmcloud_operator_types::config::{
    default_host_replicas, default_jetstream_domain, default_leaf_node_domain,
    default_log_level, default_nats_address, RawHostConfig, RequiredField, ResolveError,
    WasmCloudHostConfigResources, WasmCloudHostConfigSpec,
};

fn minimal_raw() -> RawHostConfig {
    RawHostConfig {
        host_replicas: None,
        issuers: Some(vec!["iss1".to_string()]),
        lattice: Some("prod".to_string()),
        host_labels: None,
        version: Some("1.0.0".to_string()),
        secret_name: Some("host-secret".to_string()),
        enable_structured_logging: None,
        registry_credentials_secret: None,
        resources: None,
        control_topic_prefix: None,
        leaf_node_domain: None,
        config_service_enabled: None,
        nats_address: None,
        jetstream_domain: None,
        log_level: None,
        daemonset: None,
    }
}

fn assert_defaults(c: &WasmCloudHostConfigSpec) {
    assert_eq!(c.host_replicas, 1);
    assert_eq!(c.leaf_node_domain, "leaf");
    assert!(!c.config_service_enabled);
    assert_eq!(c.nats_address, "nats://nats.default.svc.cluster.local");
    assert_eq!(c.jetstream_domain, "default");
    assert_eq!(c.log_level, "INFO");
    assert!(!c.daemonset);
}

#[test]
fn default_functions_give_the_documented_values() {
    assert_eq!(default_host_replicas(), 1);
    assert_eq!(default_leaf_node_domain(), "leaf");
    assert_eq!(default_nats_address(), "nats://nats.default.svc.cluster.local");
    assert_eq!(default_jetstream_domain(), "default");
    assert_eq!(default_log_level(), "INFO");
}

#[test]
fn minimal_config_gets_defaults_and_keeps_required_fields() {
    let c = minimal_raw().resolve().unwrap();
    assert_defaults(&c);
    assert_eq!(c.issuers, vec!["iss1".to_string()]);
    assert_eq!(c.lattice, "prod");
    assert_eq!(c.version, "1.0.0");
    assert_eq!(c.secret_name, "host-secret");
    assert!(c.host_labels.is_none());
    assert!(c.enable_structured_logging.is_none());
    assert!(c.registry_credentials_secret.is_none());
    assert!(c.resources.is_none());
    assert!(c.control_topic_prefix.is_none());
}

#[test]
fn explicit_log_level_is_kept() {
    let mut raw = minimal_raw();
    raw.log_level = Some("DEBUG".to_string());
    let c = raw.resolve().unwrap();
    assert_eq!(c.log_level, "DEBUG");
    assert_eq!(c.host_replicas, 1);
}

#[test]
fn every_explicit_field_is_kept() {
    let mut labels = HashMap::new();
    labels.insert("team".to_string(), "payments".to_string());
    let mut raw = minimal_raw();
    raw.host_replicas = Some(0);
    raw.host_labels = Some(labels.clone());
    raw.enable_structured_logging = Some(true);
    raw.registry_credentials_secret = Some("pull-secret".to_string());
    raw.resources = Some(WasmCloudHostConfigResources { nats: None, wasmcloud: None });
    raw.control_topic_prefix = Some("wasmbus.ctl".to_string());
    raw.leaf_node_domain = Some("edge".to_string());
    raw.config_service_enabled = Some(true);
    raw.nats_address = Some("nats://nats.example:4222".to_string());
    raw.jetstream_domain = Some("js".to_string());
    raw.log_level = Some("TRACE".to_string());
    raw.daemonset = Some(true);
    let c = raw.resolve().unwrap();
    assert_eq!(c.host_replicas, 0);
    assert_eq!(c.host_labels, Some(labels));
    assert_eq!(c.enable_structured_logging, Some(true));
    assert_eq!(c.registry_credentials_secret.as_deref(), Some("pull-secret"));
    let res = c.resources.unwrap();
    assert!(res.nats.is_none() && res.wasmcloud.is_none());
    assert_eq!(c.control_topic_prefix.as_deref(), Some("wasmbus.ctl"));
    assert_eq!(c.leaf_node_domain, "edge");
    assert!(c.config_service_enabled);
    assert_eq!(c.nats_address, "nats://nats.example:4222");
    assert_eq!(c.jetstream_domain, "js");
    assert_eq!(c.log_level, "TRACE");
    assert!(c.daemonset);
}

#[test]
fn resolving_a_resolved_config_changes_nothing() {
    let mut raw = minimal_raw();
    raw.nats_address = Some("nats://other:4222".to_string());
    let once = raw.resolve().unwrap();
    let twice = once.clone().into_raw().resolve().unwrap();
    assert_eq!(twice.host_replicas, once.host_replicas);
    assert_eq!(twice.issuers, once.issuers);
    assert_eq!(twice.lattice, once.lattice);
    assert_eq!(twice.version, once.version);
    assert_eq!(twice.secret_name, once.secret_name);
    assert_eq!(twice.leaf_node_domain, once.leaf_node_domain);
    assert_eq!(twice.config_service_enabled, once.config_service_enabled);
    assert_eq!(twice.nats_address, "nats://other:4222");
    assert_eq!(twice.jetstream_domain, once.jetstream_domain);
    assert_eq!(twice.log_level, once.log_level);
    assert_eq!(twice.daemonset, once.daemonset);
}

#[test]
fn into_raw_gives_every_field() {
    let raw = minimal_raw().resolve().unwrap().into_raw();
    assert_eq!(raw.host_replicas, Some(1));
    assert_eq!(raw.leaf_node_domain.as_deref(), Some("leaf"));
    assert_eq!(raw.config_service_enabled, Some(false));
    assert_eq!(raw.log_level.as_deref(), Some("INFO"));
    assert_eq!(raw.daemonset, Some(false));
    assert_eq!(raw.lattice.as_deref(), Some("prod"));
}

#[test]
fn missing_lattice_is_malformed() {
    let mut raw = minimal_raw();
    raw.lattice = None;
    assert_eq!(raw.resolve().unwrap_err(), ResolveError::MalformedInput(RequiredField::Lattice));
}

#[test]
fn missing_issuers_is_malformed() {
    let mut raw = minimal_raw();
    raw.issuers = None;
    assert_eq!(raw.resolve().unwrap_err(), ResolveError::MalformedInput(RequiredField::Issuers));
}

#[test]
fn missing_version_is_malformed() {
    let mut raw = minimal_raw();
    raw.version = None;
    assert_eq!(raw.resolve().unwrap_err(), ResolveError::MalformedInput(RequiredField::Version));
}

#[test]
fn missing_secret_name_is_malformed() {
    let mut raw = minimal_raw();
    raw.secret_name = None;
    assert_eq!(raw.resolve().unwrap_err(), ResolveError::MalformedInput(RequiredField::SecretName));
}

#[test]
fn first_missing_required_field_is_reported() {
    let mut raw = minimal_raw();
    raw.lattice = None;
    raw.secret_name = None;
    assert_eq!(raw.resolve().unwrap_err(), ResolveError::MalformedInput(RequiredField::Lattice));
}

#[test]
fn empty_issuers_are_accepted() {
    let mut raw = minimal_raw();
    raw.issuers = Some(Vec::new());
    let c = raw.resolve().unwrap();
    assert!(c.issuers.is_empty());
    assert_defaults(&c);
}
