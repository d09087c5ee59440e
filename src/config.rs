//! Desired state of a host fleet, and its resolution into a canonical,
//! fully defaulted configuration.

use std::collections::HashMap;
use vstd::prelude::*;

verus! {

/// Compute resource requests and limits of a container, as Kubernetes
/// defines them. The library carries such values through without reading them.
#[verifier::external_type_specification]
#[verifier::external_body]
pub struct ExResourceRequirements(k8s_openapi::api::core::v1::ResourceRequirements);

/// Resources to allocate for the two containers of a host, each given or not
/// independently of the other.
#[derive(Clone, Debug)]
pub struct WasmCloudHostConfigResources {
    pub nats: Option<k8s_openapi::api::core::v1::ResourceRequirements>,
    pub wasmcloud: Option<k8s_openapi::api::core::v1::ResourceRequirements>,
}

/// A fully resolved host fleet configuration: every field that has a default
/// holds a value.
#[derive(Clone, Debug)]
pub struct WasmCloudHostConfigSpec {
    /// The number of replicas to use for the wasmCloud host Deployment.
    pub host_replicas: u32,
    /// Cluster issuers to use when provisioning hosts.
    pub issuers: Vec<String>,
    /// The lattice these hosts join.
    pub lattice: String,
    /// Labels to apply to these hosts.
    pub host_labels: Option<HashMap<String, String>>,
    /// The version of the wasmCloud host to deploy.
    pub version: String,
    /// A secret holding the primary cluster issuer key and optional NATS credentials.
    pub secret_name: String,
    /// Enable structured logging for host logs.
    pub enable_structured_logging: Option<bool>,
    /// A secret holding the registry credentials.
    pub registry_credentials_secret: Option<String>,
    /// Compute resources to allocate for the host.
    pub resources: Option<WasmCloudHostConfigResources>,
    /// The control topic prefix to use for the host.
    pub control_topic_prefix: Option<String>,
    /// The leaf node domain to use for the NATS sidecar.
    pub leaf_node_domain: String,
    /// Enable the config service for this host.
    pub config_service_enabled: bool,
    /// The address of the NATS server to connect to.
    pub nats_address: String,
    /// The Jetstream domain to use for the NATS sidecar.
    pub jetstream_domain: String,
    /// The log level to use for the host.
    pub log_level: String,
    /// Run hosts as a DaemonSet instead of a Deployment.
    pub daemonset: bool,
}

/// A host fleet configuration as a user declared it: any field may be absent.
///
/// `issuers`, `lattice`, `version` and `secret_name` are required; the fields
/// that [`WasmCloudHostConfigSpec`] holds bare have defaults; the others stay
/// optional.
#[derive(Clone, Debug)]
pub struct RawHostConfig {
    pub host_replicas: Option<u32>,
    pub issuers: Option<Vec<String>>,
    pub lattice: Option<String>,
    pub host_labels: Option<HashMap<String, String>>,
    pub version: Option<String>,
    pub secret_name: Option<String>,
    pub enable_structured_logging: Option<bool>,
    pub registry_credentials_secret: Option<String>,
    pub resources: Option<WasmCloudHostConfigResources>,
    pub control_topic_prefix: Option<String>,
    pub leaf_node_domain: Option<String>,
    pub config_service_enabled: Option<bool>,
    pub nats_address: Option<String>,
    pub jetstream_domain: Option<String>,
    pub log_level: Option<String>,
    pub daemonset: Option<bool>,
}

/// Mathematical model of a resolved configuration: text as character sequences.
pub ghost struct HostConfigModel {
    pub host_replicas: u32,
    pub issuers: Seq<Seq<char>>,
    pub lattice: Seq<char>,
    pub host_labels: Option<Map<String, String>>,
    pub version: Seq<char>,
    pub secret_name: Seq<char>,
    pub enable_structured_logging: Option<bool>,
    pub registry_credentials_secret: Option<Seq<char>>,
    pub resources: Option<WasmCloudHostConfigResources>,
    pub control_topic_prefix: Option<Seq<char>>,
    pub leaf_node_domain: Seq<char>,
    pub config_service_enabled: bool,
    pub nats_address: Seq<char>,
    pub jetstream_domain: Seq<char>,
    pub log_level: Seq<char>,
    pub daemonset: bool,
}

/// Mathematical model of a configuration as declared, with absent fields.
pub ghost struct RawHostConfigModel {
    pub host_replicas: Option<u32>,
    pub issuers: Option<Seq<Seq<char>>>,
    pub lattice: Option<Seq<char>>,
    pub host_labels: Option<Map<String, String>>,
    pub version: Option<Seq<char>>,
    pub secret_name: Option<Seq<char>>,
    pub enable_structured_logging: Option<bool>,
    pub registry_credentials_secret: Option<Seq<char>>,
    pub resources: Option<WasmCloudHostConfigResources>,
    pub control_topic_prefix: Option<Seq<char>>,
    pub leaf_node_domain: Option<Seq<char>>,
    pub config_service_enabled: Option<bool>,
    pub nats_address: Option<Seq<char>>,
    pub jetstream_domain: Option<Seq<char>>,
    pub log_level: Option<Seq<char>>,
    pub daemonset: Option<bool>,
}

/// A list of strings as character sequences.
pub open spec fn text_list(v: Vec<String>) -> Seq<Seq<char>> {
    v@.map_values(|s: String| s@)
}

/// An optional string as an optional character sequence.
pub open spec fn opt_text(o: Option<String>) -> Option<Seq<char>> {
    match o {
        Some(s) => Some(s@),
        None => None,
    }
}

/// An optional list of strings as an optional list of character sequences.
pub open spec fn opt_text_list(o: Option<Vec<String>>) -> Option<Seq<Seq<char>>> {
    match o {
        Some(v) => Some(text_list(v)),
        None => None,
    }
}

/// Optional labels as an optional map.
pub open spec fn opt_labels(o: Option<HashMap<String, String>>) -> Option<Map<String, String>> {
    match o {
        Some(m) => Some(m@),
        None => None,
    }
}

impl View for WasmCloudHostConfigSpec {
    type V = HostConfigModel;

    open spec fn view(&self) -> HostConfigModel {
        HostConfigModel {
            host_replicas: self.host_replicas,
            issuers: text_list(self.issuers),
            lattice: self.lattice@,
            host_labels: opt_labels(self.host_labels),
            version: self.version@,
            secret_name: self.secret_name@,
            enable_structured_logging: self.enable_structured_logging,
            registry_credentials_secret: opt_text(self.registry_credentials_secret),
            resources: self.resources,
            control_topic_prefix: opt_text(self.control_topic_prefix),
            leaf_node_domain: self.leaf_node_domain@,
            config_service_enabled: self.config_service_enabled,
            nats_address: self.nats_address@,
            jetstream_domain: self.jetstream_domain@,
            log_level: self.log_level@,
            daemonset: self.daemonset,
        }
    }
}

impl View for RawHostConfig {
    type V = RawHostConfigModel;

    open spec fn view(&self) -> RawHostConfigModel {
        RawHostConfigModel {
            host_replicas: self.host_replicas,
            issuers: opt_text_list(self.issuers),
            lattice: opt_text(self.lattice),
            host_labels: opt_labels(self.host_labels),
            version: opt_text(self.version),
            secret_name: opt_text(self.secret_name),
            enable_structured_logging: self.enable_structured_logging,
            registry_credentials_secret: opt_text(self.registry_credentials_secret),
            resources: self.resources,
            control_topic_prefix: opt_text(self.control_topic_prefix),
            leaf_node_domain: opt_text(self.leaf_node_domain),
            config_service_enabled: self.config_service_enabled,
            nats_address: opt_text(self.nats_address),
            jetstream_domain: opt_text(self.jetstream_domain),
            log_level: opt_text(self.log_level),
            daemonset: self.daemonset,
        }
    }
}

/// The default number of host replicas.
pub open spec fn spec_default_host_replicas() -> u32 {
    1
}

/// The default leaf node domain.
pub open spec fn spec_default_leaf_node_domain() -> Seq<char> {
    "leaf"@
}

/// The default NATS server address.
pub open spec fn spec_default_nats_address() -> Seq<char> {
    "nats://nats.default.svc.cluster.local"@
}

/// The default Jetstream domain.
pub open spec fn spec_default_jetstream_domain() -> Seq<char> {
    "default"@
}

/// The default log level.
pub open spec fn spec_default_log_level() -> Seq<char> {
    "INFO"@
}

/// Default number of host replicas.
pub fn default_host_replicas() -> (r: u32)
    ensures
        r == spec_default_host_replicas(),
{
    1
}

/// Default Jetstream domain of the NATS sidecar.
pub fn default_jetstream_domain() -> (r: String)
    ensures
        r@ == spec_default_jetstream_domain(),
{
    "default".to_string()
}

/// Default address of the NATS server.
pub fn default_nats_address() -> (r: String)
    ensures
        r@ == spec_default_nats_address(),
{
    "nats://nats.default.svc.cluster.local".to_string()
}

/// Default leaf node domain of the NATS sidecar.
pub fn default_leaf_node_domain() -> (r: String)
    ensures
        r@ == spec_default_leaf_node_domain(),
{
    "leaf".to_string()
}

/// Default host log level.
pub fn default_log_level() -> (r: String)
    ensures
        r@ == spec_default_log_level(),
{
    "INFO".to_string()
}

/// A field that a configuration must declare: it has no default.
#[derive(Clone, Copy, Debug, PartialEq, Eq, Structural)]
pub enum RequiredField {
    Issuers,
    Lattice,
    Version,
    SecretName,
}

/// Why a configuration could not be resolved.
#[derive(Clone, Copy, Debug, PartialEq, Eq, Structural)]
pub enum ResolveError {
    /// A required field is absent.
    MalformedInput(RequiredField),
}

/// The given value of an optional field, or its default when absent.
pub open spec fn given_or<A>(field: Option<A>, default: A) -> A {
    match field {
        Some(v) => v,
        None => default,
    }
}

/// The first required field, in declaration order, that `raw` leaves absent.
pub open spec fn first_missing(raw: RawHostConfigModel) -> Option<RequiredField> {
    if raw.issuers is None {
        Some(RequiredField::Issuers)
    } else if raw.lattice is None {
        Some(RequiredField::Lattice)
    } else if raw.version is None {
        Some(RequiredField::Version)
    } else if raw.secret_name is None {
        Some(RequiredField::SecretName)
    } else {
        None
    }
}

/// Resolution of a declared configuration: required fields are taken as
/// given and their absence is an error; each field with a default takes it
/// when absent; every other field passes through as it is.
pub open spec fn resolve_model(raw: RawHostConfigModel) -> Result<HostConfigModel, ResolveError> {
    match first_missing(raw) {
        Some(field) => Err(ResolveError::MalformedInput(field)),
        None => Ok(
            HostConfigModel {
                host_replicas: given_or(raw.host_replicas, spec_default_host_replicas()),
                issuers: raw.issuers.unwrap(),
                lattice: raw.lattice.unwrap(),
                host_labels: raw.host_labels,
                version: raw.version.unwrap(),
                secret_name: raw.secret_name.unwrap(),
                enable_structured_logging: raw.enable_structured_logging,
                registry_credentials_secret: raw.registry_credentials_secret,
                resources: raw.resources,
                control_topic_prefix: raw.control_topic_prefix,
                leaf_node_domain: given_or(raw.leaf_node_domain, spec_default_leaf_node_domain()),
                config_service_enabled: given_or(raw.config_service_enabled, false),
                nats_address: given_or(raw.nats_address, spec_default_nats_address()),
                jetstream_domain: given_or(raw.jetstream_domain, spec_default_jetstream_domain()),
                log_level: given_or(raw.log_level, spec_default_log_level()),
                daemonset: given_or(raw.daemonset, false),
            },
        ),
    }
}

impl HostConfigModel {
    /// The resolved configuration declared in full, with every field given.
    pub open spec fn as_raw(self) -> RawHostConfigModel {
        RawHostConfigModel {
            host_replicas: Some(self.host_replicas),
            issuers: Some(self.issuers),
            lattice: Some(self.lattice),
            host_labels: self.host_labels,
            version: Some(self.version),
            secret_name: Some(self.secret_name),
            enable_structured_logging: self.enable_structured_logging,
            registry_credentials_secret: self.registry_credentials_secret,
            resources: self.resources,
            control_topic_prefix: self.control_topic_prefix,
            leaf_node_domain: Some(self.leaf_node_domain),
            config_service_enabled: Some(self.config_service_enabled),
            nats_address: Some(self.nats_address),
            jetstream_domain: Some(self.jetstream_domain),
            log_level: Some(self.log_level),
            daemonset: Some(self.daemonset),
        }
    }
}

impl RawHostConfig {
    /// Completes a declared configuration: fills each absent field that has a
    /// default with it, and keeps every given field unchanged. Fails with
    /// `MalformedInput` naming the first required field that is absent.
    pub fn resolve(self) -> (r: Result<WasmCloudHostConfigSpec, ResolveError>)
        ensures
            match r {
                Ok(c) => resolve_model(self@) == Ok::<HostConfigModel, ResolveError>(c@),
                Err(e) => resolve_model(self@) == Err::<HostConfigModel, ResolveError>(e),
            },
    {
        let RawHostConfig {
            host_replicas,
            issuers,
            lattice,
            host_labels,
            version,
            secret_name,
            enable_structured_logging,
            registry_credentials_secret,
            resources,
            control_topic_prefix,
            leaf_node_domain,
            config_service_enabled,
            nats_address,
            jetstream_domain,
            log_level,
            daemonset,
        } = self;
        let issuers = match issuers {
            Some(v) => v,
            None => return Err(ResolveError::MalformedInput(RequiredField::Issuers)),
        };
        let lattice = match lattice {
            Some(v) => v,
            None => return Err(ResolveError::MalformedInput(RequiredField::Lattice)),
        };
        let version = match version {
            Some(v) => v,
            None => return Err(ResolveError::MalformedInput(RequiredField::Version)),
        };
        let secret_name = match secret_name {
            Some(v) => v,
            None => return Err(ResolveError::MalformedInput(RequiredField::SecretName)),
        };
        let host_replicas = match host_replicas {
            Some(v) => v,
            None => default_host_replicas(),
        };
        let leaf_node_domain = match leaf_node_domain {
            Some(v) => v,
            None => default_leaf_node_domain(),
        };
        let config_service_enabled = match config_service_enabled {
            Some(v) => v,
            None => false,
        };
        let nats_address = match nats_address {
            Some(v) => v,
            None => default_nats_address(),
        };
        let jetstream_domain = match jetstream_domain {
            Some(v) => v,
            None => default_jetstream_domain(),
        };
        let log_level = match log_level {
            Some(v) => v,
            None => default_log_level(),
        };
        let daemonset = match daemonset {
            Some(v) => v,
            None => false,
        };
        Ok(
            WasmCloudHostConfigSpec {
                host_replicas,
                issuers,
                lattice,
                host_labels,
                version,
                secret_name,
                enable_structured_logging,
                registry_credentials_secret,
                resources,
                control_topic_prefix,
                leaf_node_domain,
                config_service_enabled,
                nats_address,
                jetstream_domain,
                log_level,
                daemonset,
            },
        )
    }
}

impl WasmCloudHostConfigSpec {
    /// The configuration declared in full, with every field given.
    pub fn into_raw(self) -> (r: RawHostConfig)
        ensures
            r@ == self@.as_raw(),
    {
        RawHostConfig {
            host_replicas: Some(self.host_replicas),
            issuers: Some(self.issuers),
            lattice: Some(self.lattice),
            host_labels: self.host_labels,
            version: Some(self.version),
            secret_name: Some(self.secret_name),
            enable_structured_logging: self.enable_structured_logging,
            registry_credentials_secret: self.registry_credentials_secret,
            resources: self.resources,
            control_topic_prefix: self.control_topic_prefix,
            leaf_node_domain: Some(self.leaf_node_domain),
            config_service_enabled: Some(self.config_service_enabled),
            nats_address: Some(self.nats_address),
            jetstream_domain: Some(self.jetstream_domain),
            log_level: Some(self.log_level),
            daemonset: Some(self.daemonset),
        }
    }
}

/// A configuration that declares its required fields and none of the fields
/// that have defaults resolves to one replica, leaf node domain `leaf`, the
/// config service off, NATS at `nats://nats.default.svc.cluster.local`,
/// Jetstream domain `default`, log level `INFO`, and no DaemonSet.
pub proof fn lemma_absent_fields_take_defaults(raw: RawHostConfigModel)
    requires
        first_missing(raw) is None,
        raw.host_replicas is None,
        raw.leaf_node_domain is None,
        raw.config_service_enabled is None,
        raw.nats_address is None,
        raw.jetstream_domain is None,
        raw.log_level is None,
        raw.daemonset is None,
    ensures
        resolve_model(raw) matches Ok(c) && {
            &&& c.host_replicas == 1
            &&& c.leaf_node_domain == "leaf"@
            &&& !c.config_service_enabled
            &&& c.nats_address == "nats://nats.default.svc.cluster.local"@
            &&& c.jetstream_domain == "default"@
            &&& c.log_level == "INFO"@
            &&& !c.daemonset
        },
{
}

/// Resolution keeps every field that the configuration declares, whether it
/// has a default or not.
pub proof fn lemma_given_fields_kept(raw: RawHostConfigModel)
    requires
        first_missing(raw) is None,
    ensures
        resolve_model(raw) matches Ok(c) && {
            &&& raw.host_replicas matches Some(v) ==> c.host_replicas == v
            &&& raw.leaf_node_domain matches Some(v) ==> c.leaf_node_domain == v
            &&& raw.config_service_enabled matches Some(v) ==> c.config_service_enabled == v
            &&& raw.nats_address matches Some(v) ==> c.nats_address == v
            &&& raw.jetstream_domain matches Some(v) ==> c.jetstream_domain == v
            &&& raw.log_level matches Some(v) ==> c.log_level == v
            &&& raw.daemonset matches Some(v) ==> c.daemonset == v
            &&& Some(c.issuers) == raw.issuers
            &&& Some(c.lattice) == raw.lattice
            &&& Some(c.version) == raw.version
            &&& Some(c.secret_name) == raw.secret_name
            &&& c.host_labels == raw.host_labels
            &&& c.enable_structured_logging == raw.enable_structured_logging
            &&& c.registry_credentials_secret == raw.registry_credentials_secret
            &&& c.resources == raw.resources
            &&& c.control_topic_prefix == raw.control_topic_prefix
        },
{
}

/// Resolving a resolved configuration again changes nothing.
pub proof fn lemma_resolve_idempotent(raw: RawHostConfigModel)
    requires
        resolve_model(raw) is Ok,
    ensures
        resolve_model(raw) matches Ok(c) && resolve_model(c.as_raw()) == resolve_model(raw),
{
}

/// A configuration without a lattice is rejected as malformed, never resolved.
pub proof fn lemma_missing_lattice_rejected(raw: RawHostConfigModel)
    requires
        raw.lattice is None,
    ensures
        resolve_model(raw) matches Err(ResolveError::MalformedInput(_)),
{
}

} // verus!
