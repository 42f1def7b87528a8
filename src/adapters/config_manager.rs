//! Configuration-driven registry policies: TTLs, retention rules and
//! validation constraints, with per-environment overrides.

use vstd::prelude::*;
use crate::span::Timestamp;

verus! {

/// Seconds in one day.
pub const SECONDS_PER_DAY: u64 = 86400;

/// Bytes in one gibibyte.
pub const GIB: u64 = 1073741824;

/// Namespace the adapter reads its configuration from unless told otherwise.
pub const DEFAULT_CONFIG_NAMESPACE: &'static str = "llm.registry";

/// Errors from configuration consumption.
#[derive(Debug, Clone, PartialEq, Eq)]
pub enum ConfigAdapterError {
    NotFound(String),
    ValidationFailed(String),
    Unavailable(String),
    InvalidFormat(String),
}

/// Deployment environment.
#[derive(Debug, Clone, Copy, PartialEq, Eq, Structural)]
pub enum Environment {
    Development,
    Staging,
    Production,
}

impl Default for Environment {
    fn default() -> (r: Self)
        ensures
            r == Environment::Development,
    {
        Environment::Development
    }
}

/// TTL configuration for registry assets, in seconds.
#[derive(Debug, Clone, Copy, PartialEq, Eq, Structural)]
pub struct TtlConfig {
    pub default_ttl_secs: u64,
    pub deprecated_ttl_secs: u64,
    pub archived_ttl_secs: u64,
    pub cache_ttl_secs: u64,
    /// Whether TTLs are enforced.
    pub enforce: bool,
}

/// One year for new assets, 90 days for deprecated ones, 30 days for
/// archived ones, one hour for cache entries; not enforced.
pub open spec fn default_ttl_config() -> TtlConfig {
    TtlConfig {
        default_ttl_secs: (365 * SECONDS_PER_DAY) as u64,
        deprecated_ttl_secs: (90 * SECONDS_PER_DAY) as u64,
        archived_ttl_secs: (30 * SECONDS_PER_DAY) as u64,
        cache_ttl_secs: 3600,
        enforce: false,
    }
}

impl Default for TtlConfig {
    fn default() -> (r: Self)
        ensures
            r == default_ttl_config(),
    {
        TtlConfig {
            default_ttl_secs: 365 * SECONDS_PER_DAY,
            deprecated_ttl_secs: 90 * SECONDS_PER_DAY,
            archived_ttl_secs: 30 * SECONDS_PER_DAY,
            cache_ttl_secs: 3600,
            enforce: false,
        }
    }
}

/// Retention rules for registry data; durations in seconds.
#[derive(Debug, Clone, Copy, PartialEq, Eq, Structural)]
pub struct RetentionRules {
    pub min_versions: u32,
    pub max_versions: u32,
    pub retain_all_for_secs: u64,
    pub delete_deprecated_after_secs: u64,
    /// Keep at least one active version.
    pub keep_one_active: bool,
}

/// Keep 3 to 100 versions, all of them for 30 days; delete deprecated
/// versions after 180 days; keep one active version.
pub open spec fn default_retention_rules() -> RetentionRules {
    RetentionRules {
        min_versions: 3,
        max_versions: 100,
        retain_all_for_secs: (30 * SECONDS_PER_DAY) as u64,
        delete_deprecated_after_secs: (180 * SECONDS_PER_DAY) as u64,
        keep_one_active: true,
    }
}

impl Default for RetentionRules {
    fn default() -> (r: Self)
        ensures
            r == default_retention_rules(),
    {
        RetentionRules {
            min_versions: 3,
            max_versions: 100,
            retain_all_for_secs: 30 * SECONDS_PER_DAY,
            delete_deprecated_after_secs: 180 * SECONDS_PER_DAY,
            keep_one_active: true,
        }
    }
}

/// The texts of a sequence of strings.
pub open spec fn texts(v: Seq<String>) -> Seq<Seq<char>> {
    v.map_values(|s: String| s@)
}

/// Validation constraints for registry operations.
#[derive(Debug)]
pub struct ValidationConstraints {
    /// Maximum asset size in bytes.
    pub max_asset_size: u64,
    /// Maximum metadata size in bytes.
    pub max_metadata_size: u64,
    pub max_tags: u32,
    pub max_dependencies: u32,
    /// Metadata fields every asset must have.
    pub required_fields: Vec<String>,
    /// Asset types that may be registered.
    pub allowed_asset_types: Vec<String>,
    /// Whether validation is strict.
    pub strict_mode: bool,
}

/// What a set of validation constraints holds, as mathematical values.
pub ghost struct ConstraintsView {
    pub max_asset_size: u64,
    pub max_metadata_size: u64,
    pub max_tags: u32,
    pub max_dependencies: u32,
    pub required_fields: Seq<Seq<char>>,
    pub allowed_asset_types: Seq<Seq<char>>,
    pub strict_mode: bool,
}

impl View for ValidationConstraints {
    type V = ConstraintsView;

    open spec fn view(&self) -> ConstraintsView {
        ConstraintsView {
            max_asset_size: self.max_asset_size,
            max_metadata_size: self.max_metadata_size,
            max_tags: self.max_tags,
            max_dependencies: self.max_dependencies,
            required_fields: texts(self.required_fields@),
            allowed_asset_types: texts(self.allowed_asset_types@),
            strict_mode: self.strict_mode,
        }
    }
}

/// A copy of a vector of strings.
fn copy_texts(v: &Vec<String>) -> (r: Vec<String>)
    ensures
        texts(r@) == texts(v@),
{
    let r = v.clone();
    proof {
        assert forall|i: int| 0 <= i < r@.len() implies r@[i]@ == v@[i]@ by {
            assert(cloned::<String>(v[i], r[i]));
        }
        assert(texts(r@) =~= texts(v@));
    }
    r
}

impl Clone for ValidationConstraints {
    fn clone(&self) -> (r: Self)
        ensures
            r@ == self@,
    {
        ValidationConstraints {
            max_asset_size: self.max_asset_size,
            max_metadata_size: self.max_metadata_size,
            max_tags: self.max_tags,
            max_dependencies: self.max_dependencies,
            required_fields: copy_texts(&self.required_fields),
            allowed_asset_types: copy_texts(&self.allowed_asset_types),
            strict_mode: self.strict_mode,
        }
    }
}

/// 10 GiB assets, 1 MiB metadata, 50 tags, 100 dependencies; name,
/// version and description required; models, pipelines, test suites,
/// policies and datasets allowed; not strict.
pub open spec fn default_constraints() -> ConstraintsView {
    ConstraintsView {
        max_asset_size: (10 * GIB) as u64,
        max_metadata_size: 1048576,
        max_tags: 50,
        max_dependencies: 100,
        required_fields: seq!["name"@, "version"@, "description"@],
        allowed_asset_types: seq!["Model"@, "Pipeline"@, "TestSuite"@, "Policy"@, "Dataset"@],
        strict_mode: false,
    }
}

impl Default for ValidationConstraints {
    fn default() -> (r: Self)
        ensures
            r@ == default_constraints(),
    {
        let required_fields = vec!["name".to_owned(), "version".to_owned(), "description".to_owned()];
        let allowed_asset_types = vec![
            "Model".to_owned(),
            "Pipeline".to_owned(),
            "TestSuite".to_owned(),
            "Policy".to_owned(),
            "Dataset".to_owned(),
        ];
        let r = ValidationConstraints {
            max_asset_size: 10 * GIB,
            max_metadata_size: 1048576,
            max_tags: 50,
            max_dependencies: 100,
            required_fields,
            allowed_asset_types,
            strict_mode: false,
        };
        proof {
            assert(r@.required_fields =~= default_constraints().required_fields);
            assert(r@.allowed_asset_types =~= default_constraints().allowed_asset_types);
        }
        r
    }
}

/// A registry policy supplied by the configuration source.
#[derive(Debug)]
pub struct RegistryPolicy {
    pub name: String,
    pub namespace: String,
    pub enabled: bool,
    /// Policy rules.
    pub rules: serde_json::Value,
    /// Higher is more important.
    pub priority: u32,
}

impl Clone for RegistryPolicy {
    fn clone(&self) -> (r: Self)
        ensures
            r == *self,
    {
        RegistryPolicy {
            name: self.name.clone(),
            namespace: self.namespace.clone(),
            enabled: self.enabled,
            rules: self.rules.clone(),
            priority: self.priority,
        }
    }
}

/// A copy of a vector of policies.
fn copy_policies(v: &Vec<RegistryPolicy>) -> (r: Vec<RegistryPolicy>)
    ensures
        r@ == v@,
{
    let r = v.clone();
    proof {
        assert forall|i: int| 0 <= i < r@.len() implies r@[i] == v@[i] by {
            assert(cloned::<RegistryPolicy>(v[i], r[i]));
        }
        assert(r@ =~= v@);
    }
    r
}

/// The combined registry configuration.
#[derive(Debug)]
pub struct RegistryConfig {
    pub environment: Environment,
    pub ttl: TtlConfig,
    pub retention: RetentionRules,
    pub validation: ValidationConstraints,
    pub policies: Vec<RegistryPolicy>,
}

/// What a registry configuration holds, as mathematical values.
pub ghost struct RegistryConfigView {
    pub environment: Environment,
    pub ttl: TtlConfig,
    pub retention: RetentionRules,
    pub validation: ConstraintsView,
    pub policies: Seq<RegistryPolicy>,
}

impl View for RegistryConfig {
    type V = RegistryConfigView;

    open spec fn view(&self) -> RegistryConfigView {
        RegistryConfigView {
            environment: self.environment,
            ttl: self.ttl,
            retention: self.retention,
            validation: self.validation@,
            policies: self.policies@,
        }
    }
}

impl Clone for RegistryConfig {
    fn clone(&self) -> (r: Self)
        ensures
            r@ == self@,
    {
        RegistryConfig {
            environment: self.environment,
            ttl: self.ttl,
            retention: self.retention,
            validation: self.validation.clone(),
            policies: copy_policies(&self.policies),
        }
    }
}

impl RegistryConfig {
    /// The default configuration, labelled with the given environment.
    pub fn for_environment(environment: Environment) -> (r: RegistryConfig)
        ensures
            r@ == default_config(environment),
    {
        let r = RegistryConfig {
            environment,
            ttl: TtlConfig::default(),
            retention: RetentionRules::default(),
            validation: ValidationConstraints::default(),
            policies: Vec::new(),
        };
        proof {
            assert(r.policies@ =~= Seq::<RegistryPolicy>::empty());
        }
        r
    }
}

/// The default configuration for an environment.
pub open spec fn default_config(environment: Environment) -> RegistryConfigView {
    RegistryConfigView {
        environment,
        ttl: default_ttl_config(),
        retention: default_retention_rules(),
        validation: default_constraints(),
        policies: Seq::empty(),
    }
}

/// `base` with the environment's overrides: production validates strictly,
/// enforces TTLs and keeps an active version; staging validates strictly
/// without enforcing TTLs; development relaxes both and allows 100 GiB
/// assets.
pub open spec fn overridden(environment: Environment, base: RegistryConfigView) -> RegistryConfigView {
    match environment {
        Environment::Production => RegistryConfigView {
            validation: ConstraintsView { strict_mode: true, ..base.validation },
            ttl: TtlConfig { enforce: true, ..base.ttl },
            retention: RetentionRules { keep_one_active: true, ..base.retention },
            ..base
        },
        Environment::Staging => RegistryConfigView {
            validation: ConstraintsView { strict_mode: true, ..base.validation },
            ttl: TtlConfig { enforce: false, ..base.ttl },
            ..base
        },
        Environment::Development => RegistryConfigView {
            validation: ConstraintsView {
                strict_mode: false,
                max_asset_size: (100 * GIB) as u64,
                ..base.validation
            },
            ttl: TtlConfig { enforce: false, ..base.ttl },
            ..base
        },
    }
}

/// Applies the environment's overrides to a configuration.
pub fn apply_environment_overrides(environment: Environment, base: RegistryConfig) -> (r:
    RegistryConfig)
    ensures
        r@ == overridden(environment, base@),
{
    let mut config = base;
    match environment {
        Environment::Production => {
            config.validation.strict_mode = true;
            config.ttl.enforce = true;
            config.retention.keep_one_active = true;
        },
        Environment::Staging => {
            config.validation.strict_mode = true;
            config.ttl.enforce = false;
        },
        Environment::Development => {
            config.validation.strict_mode = false;
            config.ttl.enforce = false;
            config.validation.max_asset_size = 100 * GIB;
        },
    }
    config
}

/// What a configuration adapter holds, as mathematical values.
pub ghost struct ConfigAdapterView {
    pub environment: Environment,
    pub config: RegistryConfigView,
    pub namespace: Seq<char>,
    pub endpoint: Option<Seq<char>>,
    pub last_refresh: Option<Timestamp>,
}

/// Whether a configuration last refreshed at `last_refresh` is stale at
/// `now`: never refreshed, or more than `max_age_secs` whole seconds ago.
pub open spec fn stale(last_refresh: Option<Timestamp>, now: Timestamp, max_age_secs: u64) -> bool {
    match last_refresh {
        None => true,
        Some(t) => now.unix_micros - t.unix_micros >= (max_age_secs + 1) * 1000000,
    }
}

/// Adapter that serves registry policies from a configuration source.
pub struct ConfigManagerAdapter {
    environment: Environment,
    config: RegistryConfig,
    namespace: String,
    endpoint: Option<String>,
    last_refresh: Option<Timestamp>,
}

impl View for ConfigManagerAdapter {
    type V = ConfigAdapterView;

    closed spec fn view(&self) -> ConfigAdapterView {
        ConfigAdapterView {
            environment: self.environment,
            config: self.config@,
            namespace: self.namespace@,
            endpoint: match self.endpoint {
                Some(e) => Some(e@),
                None => None,
            },
            last_refresh: self.last_refresh,
        }
    }
}

impl ConfigManagerAdapter {
    /// An adapter for the environment, holding its default configuration,
    /// never refreshed.
    pub fn new(environment: Environment) -> (r: ConfigManagerAdapter)
        ensures
            r@.environment == environment,
            r@.config == default_config(environment),
            r@.namespace == DEFAULT_CONFIG_NAMESPACE@,
            r@.endpoint is None,
            r@.last_refresh is None,
    {
        let config = RegistryConfig::for_environment(environment);
        ConfigManagerAdapter {
            environment,
            config,
            namespace: DEFAULT_CONFIG_NAMESPACE.to_owned(),
            endpoint: None,
            last_refresh: None,
        }
    }

    /// An adapter for the environment that reads from a remote endpoint.
    pub fn with_endpoint(environment: Environment, endpoint: String) -> (r: ConfigManagerAdapter)
        ensures
            r@.environment == environment,
            r@.config == default_config(environment),
            r@.namespace == DEFAULT_CONFIG_NAMESPACE@,
            r@.endpoint == Some(endpoint@),
            r@.last_refresh is None,
    {
        let mut adapter = Self::new(environment);
        adapter.endpoint = Some(endpoint);
        adapter
    }

    /// The same adapter reading from another namespace.
    pub fn with_namespace(self, namespace: String) -> (r: ConfigManagerAdapter)
        ensures
            r@ == (ConfigAdapterView { namespace: namespace@, ..self@ }),
    {
        let mut adapter = self;
        adapter.namespace = namespace;
        adapter
    }

    /// The adapter's environment.
    pub fn environment(&self) -> (r: Environment)
        ensures
            r == self@.environment,
    {
        self.environment
    }

    /// Whether the configuration needs a refresh at `now`.
    pub fn is_stale(&self, max_age_secs: u64, now: Timestamp) -> (r: bool)
        ensures
            r == stale(self@.last_refresh, now, max_age_secs),
    {
        match self.last_refresh {
            None => true,
            Some(t) => {
                let age: i128 = now.unix_micros as i128 - t.unix_micros as i128;
                age >= (max_age_secs as i128 + 1) * 1000000
            },
        }
    }

    /// Rebuilds the configuration from the environment's defaults and
    /// overrides, and records the time of the refresh.
    pub fn refresh(&mut self) -> (r: Result<(), ConfigAdapterError>)
        ensures
            r is Ok,
            final(self)@.config == overridden(
                old(self)@.environment,
                default_config(old(self)@.environment),
            ),
            final(self)@.last_refresh is Some,
            final(self)@.environment == old(self)@.environment,
            final(self)@.namespace == old(self)@.namespace,
            final(self)@.endpoint == old(self)@.endpoint,
    {
        let base = RegistryConfig::for_environment(self.environment);
        self.config = apply_environment_overrides(self.environment, base);
        self.last_refresh = Some(Timestamp::now());
        Ok(())
    }

    /// The current configuration.
    pub fn get_config(&self) -> (r: Result<RegistryConfig, ConfigAdapterError>)
        ensures
            r matches Ok(c) && c@ == self@.config,
    {
        Ok(self.config.clone())
    }

    /// The current TTL configuration.
    pub fn get_ttl_config(&self) -> (r: Result<TtlConfig, ConfigAdapterError>)
        ensures
            r matches Ok(c) && c == self@.config.ttl,
    {
        Ok(self.config.ttl)
    }

    /// The current retention rules.
    pub fn get_retention_rules(&self) -> (r: Result<RetentionRules, ConfigAdapterError>)
        ensures
            r matches Ok(c) && c == self@.config.retention,
    {
        Ok(self.config.retention)
    }

    /// The current validation constraints.
    pub fn get_validation_constraints(&self) -> (r: Result<ValidationConstraints, ConfigAdapterError>)
        ensures
            r matches Ok(c) && c@ == self@.config.validation,
    {
        Ok(self.config.validation.clone())
    }

    /// The active policies.
    pub fn get_policies(&self) -> (r: Result<Vec<RegistryPolicy>, ConfigAdapterError>)
        ensures
            r matches Ok(p) && p@ == self@.config.policies,
    {
        Ok(copy_policies(&self.config.policies))
    }
}

impl Default for ConfigManagerAdapter {
    fn default() -> (r: Self)
        ensures
            r@.environment == Environment::Development,
            r@.config == default_config(Environment::Development),
            r@.namespace == DEFAULT_CONFIG_NAMESPACE@,
            r@.endpoint is None,
            r@.last_refresh is None,
    {
        Self::new(Environment::Development)
    }
}

} // verus!
