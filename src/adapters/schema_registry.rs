//! Canonical schema definitions for model metadata and pipeline
//! descriptors, served from a cache, and the validation outcome the
//! registry acts on.

use vstd::prelude::*;
use crate::adapters::config_manager::texts;

verus! {

/// Namespace of the registry's own schemas.
pub const REGISTRY_NAMESPACE: &'static str = "llm.registry";

/// Name of the model metadata schema.
pub const MODEL_METADATA_SCHEMA: &'static str = "ModelMetadata";

/// Name of the pipeline descriptor schema.
pub const PIPELINE_DESCRIPTOR_SCHEMA: &'static str = "PipelineDescriptor";

/// Reported when a schema is neither cached nor fetchable.
pub const NOT_CONFIGURED_MESSAGE: &'static str = "Schema registry connection not configured";

/// Schema id reported when validation ran without a schema.
pub const UNAVAILABLE_SCHEMA_ID: &'static str = "unavailable";

/// Warning attached to a validation against a cached schema.
pub const STUB_VALIDATION_WARNING: &'static str =
    "Schema validation is in stub mode - connect to upstream for full validation";

/// Warning attached to a validation that ran without a schema.
pub const SKIPPED_VALIDATION_WARNING: &'static str = "Schema registry unavailable - validation skipped";

/// Errors from schema consumption.
#[derive(Debug, Clone, PartialEq, Eq)]
pub enum SchemaAdapterError {
    SchemaNotFound(String),
    ValidationFailed(String),
    Unavailable(String),
    IncompatibleVersion(String),
}

/// Serialization format of a schema.
#[derive(Debug, Clone, Copy, PartialEq, Eq, Structural)]
pub enum SerializationFormat {
    Json,
    Avro,
    Protobuf,
    Yaml,
}

/// A schema obtained from the schema registry.
#[derive(Debug)]
pub struct ConsumedSchema {
    pub id: String,
    pub name: String,
    pub namespace: String,
    pub version: String,
    pub format: SerializationFormat,
    /// Raw schema content.
    pub content: String,
    /// Hash of the content.
    pub content_hash: String,
    pub is_active: bool,
}

impl Clone for ConsumedSchema {
    fn clone(&self) -> (r: Self)
        ensures
            r == *self,
    {
        ConsumedSchema {
            id: self.id.clone(),
            name: self.name.clone(),
            namespace: self.namespace.clone(),
            version: self.version.clone(),
            format: self.format,
            content: self.content.clone(),
            content_hash: self.content_hash.clone(),
            is_active: self.is_active,
        }
    }
}

/// Outcome of validating data against a schema.
#[derive(Debug, Clone)]
pub struct SchemaValidationResult {
    pub valid: bool,
    pub schema_id: String,
    pub errors: Vec<String>,
    pub warnings: Vec<String>,
}

/// The cache key of a schema: `namespace.name`, followed by `@version` for
/// a specific version.
pub open spec fn cache_key_text(name: Seq<char>, namespace: Seq<char>, version: Option<Seq<char>>) -> Seq<char> {
    match version {
        Some(v) => namespace + "."@ + name + "@"@ + v,
        None => namespace + "."@ + name,
    }
}

/// The schema cached under `key`, the first entry with that key.
pub open spec fn cached(cache: Seq<(String, ConsumedSchema)>, key: Seq<char>) -> Option<ConsumedSchema>
    decreases cache.len(),
{
    if cache.len() == 0 {
        None
    } else if cache[0].0@ == key {
        Some(cache[0].1)
    } else {
        cached(cache.drop_first(), key)
    }
}

/// `r` reports a successful validation against `schema`.
pub open spec fn validated_against(
    schema: ConsumedSchema,
    r: Result<SchemaValidationResult, SchemaAdapterError>,
) -> bool {
    r matches Ok(v) && v.valid && v.schema_id@ == schema.id@ && v.errors@.len() == 0
        && v.warnings@.len() == 1 && v.warnings@[0]@ == STUB_VALIDATION_WARNING@
}

/// `r` reports a permissive validation made without a schema.
pub open spec fn validation_skipped(r: Result<SchemaValidationResult, SchemaAdapterError>) -> bool {
    r matches Ok(v) && v.valid && v.schema_id@ == UNAVAILABLE_SCHEMA_ID@ && v.errors@.len() == 0
        && v.warnings@.len() == 1 && v.warnings@[0]@ == SKIPPED_VALIDATION_WARNING@
}

/// The validation outcome for a schema lookup: a schema found gives a
/// valid result under its id; an unavailable registry gives a permissive
/// result; any other error is passed on.
pub open spec fn validation_outcome(
    lookup: Result<ConsumedSchema, SchemaAdapterError>,
    r: Result<SchemaValidationResult, SchemaAdapterError>,
) -> bool {
    match lookup {
        Ok(schema) => validated_against(schema, r),
        Err(SchemaAdapterError::Unavailable(_)) => validation_skipped(r),
        Err(e) => r == Err::<SchemaValidationResult, SchemaAdapterError>(e),
    }
}

/// The validation outcome for a schema lookup.
pub fn validation_result(lookup: Result<ConsumedSchema, SchemaAdapterError>) -> (r: Result<
    SchemaValidationResult,
    SchemaAdapterError,
>)
    ensures
        validation_outcome(lookup, r),
{
    match lookup {
        Ok(schema) => Ok(
            SchemaValidationResult {
                valid: true,
                schema_id: schema.id,
                errors: Vec::new(),
                warnings: vec![STUB_VALIDATION_WARNING.to_owned()],
            },
        ),
        Err(SchemaAdapterError::Unavailable(_)) => Ok(
            SchemaValidationResult {
                valid: true,
                schema_id: UNAVAILABLE_SCHEMA_ID.to_owned(),
                errors: Vec::new(),
                warnings: vec![SKIPPED_VALIDATION_WARNING.to_owned()],
            },
        ),
        Err(e) => Err(e),
    }
}

/// The schemas the registry namespace offers.
pub open spec fn registry_schemas() -> Seq<Seq<char>> {
    seq!["ModelMetadata"@, "PipelineDescriptor"@, "AssetManifest"@, "DependencyGraph"@]
}

/// What a schema adapter holds, as mathematical values.
pub ghost struct SchemaAdapterView {
    pub endpoint: Option<Seq<char>>,
    pub cache: Seq<(String, ConsumedSchema)>,
    pub default_namespace: Seq<char>,
}

/// Adapter that serves canonical schemas from a cache.
pub struct SchemaRegistryAdapter {
    endpoint: Option<String>,
    cache: Vec<(String, ConsumedSchema)>,
    default_namespace: String,
}

impl View for SchemaRegistryAdapter {
    type V = SchemaAdapterView;

    closed spec fn view(&self) -> SchemaAdapterView {
        SchemaAdapterView {
            endpoint: match self.endpoint {
                Some(e) => Some(e@),
                None => None,
            },
            cache: self.cache@,
            default_namespace: self.default_namespace@,
        }
    }
}

impl SchemaRegistryAdapter {
    /// An adapter with an empty cache for the registry namespace.
    pub fn new() -> (r: SchemaRegistryAdapter)
        ensures
            r@.endpoint is None,
            r@.cache.len() == 0,
            r@.default_namespace == REGISTRY_NAMESPACE@,
    {
        SchemaRegistryAdapter {
            endpoint: None,
            cache: Vec::new(),
            default_namespace: REGISTRY_NAMESPACE.to_owned(),
        }
    }

    /// An adapter with an empty cache that fetches from a remote endpoint.
    pub fn with_endpoint(endpoint: String) -> (r: SchemaRegistryAdapter)
        ensures
            r@.endpoint == Some(endpoint@),
            r@.cache.len() == 0,
            r@.default_namespace == REGISTRY_NAMESPACE@,
    {
        SchemaRegistryAdapter {
            endpoint: Some(endpoint),
            cache: Vec::new(),
            default_namespace: REGISTRY_NAMESPACE.to_owned(),
        }
    }

    /// The same adapter with another default namespace.
    pub fn with_namespace(self, namespace: String) -> (r: SchemaRegistryAdapter)
        ensures
            r@ == (SchemaAdapterView { default_namespace: namespace@, ..self@ }),
    {
        let mut adapter = self;
        adapter.default_namespace = namespace;
        adapter
    }

    /// The namespace used for the registry's own schemas.
    pub fn default_namespace(&self) -> (r: &str)
        ensures
            r@ == self@.default_namespace,
    {
        self.default_namespace.as_str()
    }

    /// The cache key of a schema, optionally of one version.
    pub fn cache_key(name: &str, namespace: &str, version: Option<&str>) -> (r: String)
        ensures
            r@ == cache_key_text(
                name@,
                namespace@,
                match version {
                    Some(v) => Some(v@),
                    None => None,
                },
            ),
    {
        let mut key = namespace.to_owned();
        key.append(".");
        key.append(name);
        match version {
            Some(v) => {
                key.append("@");
                key.append(v);
            },
            None => {},
        }
        key
    }

    /// Looks a key up in the cache.
    fn lookup(&self, key: &String) -> (r: Result<ConsumedSchema, SchemaAdapterError>)
        ensures
            match cached(self@.cache, key@) {
                Some(s) => r == Ok::<ConsumedSchema, SchemaAdapterError>(s),
                None => r matches Err(SchemaAdapterError::Unavailable(m)) && m@
                    == NOT_CONFIGURED_MESSAGE@,
            },
    {
        let mut i: usize = 0;
        proof {
            assert(self.cache@.subrange(0, self.cache@.len() as int) =~= self.cache@);
        }
        while i < self.cache.len()
            invariant
                0 <= i <= self.cache.len(),
                cached(self@.cache, key@) == cached(
                    self.cache@.subrange(i as int, self.cache@.len() as int),
                    key@,
                ),
            decreases self.cache.len() - i,
        {
            proof {
                let rest = self.cache@.subrange(i as int, self.cache@.len() as int);
                assert(rest.drop_first() =~= self.cache@.subrange(i + 1, self.cache@.len() as int));
            }
            if self.cache[i].0 == *key {
                return Ok(self.cache[i].1.clone());
            }
            i += 1;
        }
        Err(SchemaAdapterError::Unavailable(NOT_CONFIGURED_MESSAGE.to_owned()))
    }

    /// The latest cached version of a schema.
    pub fn get_schema(&self, name: &str, namespace: &str) -> (r: Result<ConsumedSchema, SchemaAdapterError>)
        ensures
            match cached(self@.cache, cache_key_text(name@, namespace@, None)) {
                Some(s) => r == Ok::<ConsumedSchema, SchemaAdapterError>(s),
                None => r matches Err(SchemaAdapterError::Unavailable(m)) && m@
                    == NOT_CONFIGURED_MESSAGE@,
            },
    {
        let key = Self::cache_key(name, namespace, None);
        self.lookup(&key)
    }

    /// A specific cached version of a schema.
    pub fn get_schema_version(&self, name: &str, namespace: &str, version: &str) -> (r: Result<
        ConsumedSchema,
        SchemaAdapterError,
    >)
        ensures
            match cached(self@.cache, cache_key_text(name@, namespace@, Some(version@))) {
                Some(s) => r == Ok::<ConsumedSchema, SchemaAdapterError>(s),
                None => r matches Err(SchemaAdapterError::Unavailable(m)) && m@
                    == NOT_CONFIGURED_MESSAGE@,
            },
    {
        let key = Self::cache_key(name, namespace, Some(version));
        self.lookup(&key)
    }

    /// Validates data against the named schema: the outcome follows from
    /// the schema lookup alone.
    pub fn validate_against_schema(
        &self,
        schema_name: &str,
        namespace: &str,
        _data: &serde_json::Value,
    ) -> (r: Result<SchemaValidationResult, SchemaAdapterError>)
        ensures
            match cached(self@.cache, cache_key_text(schema_name@, namespace@, None)) {
                Some(s) => validated_against(s, r),
                None => validation_skipped(r),
            },
    {
        let lookup = self.get_schema(schema_name, namespace);
        validation_result(lookup)
    }

    /// The model metadata schema in the default namespace.
    pub fn get_model_metadata_schema(&self) -> (r: Result<ConsumedSchema, SchemaAdapterError>)
        ensures
            match cached(
                self@.cache,
                cache_key_text(MODEL_METADATA_SCHEMA@, self@.default_namespace, None),
            ) {
                Some(s) => r == Ok::<ConsumedSchema, SchemaAdapterError>(s),
                None => r matches Err(SchemaAdapterError::Unavailable(m)) && m@
                    == NOT_CONFIGURED_MESSAGE@,
            },
    {
        self.get_schema(MODEL_METADATA_SCHEMA, self.default_namespace.as_str())
    }

    /// The pipeline descriptor schema in the default namespace.
    pub fn get_pipeline_descriptor_schema(&self) -> (r: Result<ConsumedSchema, SchemaAdapterError>)
        ensures
            match cached(
                self@.cache,
                cache_key_text(PIPELINE_DESCRIPTOR_SCHEMA@, self@.default_namespace, None),
            ) {
                Some(s) => r == Ok::<ConsumedSchema, SchemaAdapterError>(s),
                None => r matches Err(SchemaAdapterError::Unavailable(m)) && m@
                    == NOT_CONFIGURED_MESSAGE@,
            },
    {
        self.get_schema(PIPELINE_DESCRIPTOR_SCHEMA, self.default_namespace.as_str())
    }

    /// Validates model metadata against the model metadata schema.
    pub fn validate_model_metadata(&self, metadata: &serde_json::Value) -> (r: Result<
        SchemaValidationResult,
        SchemaAdapterError,
    >)
        ensures
            match cached(
                self@.cache,
                cache_key_text(MODEL_METADATA_SCHEMA@, self@.default_namespace, None),
            ) {
                Some(s) => validated_against(s, r),
                None => validation_skipped(r),
            },
    {
        self.validate_against_schema(MODEL_METADATA_SCHEMA, self.default_namespace.as_str(), metadata)
    }

    /// Validates a pipeline descriptor against the pipeline descriptor schema.
    pub fn validate_pipeline_descriptor(&self, descriptor: &serde_json::Value) -> (r: Result<
        SchemaValidationResult,
        SchemaAdapterError,
    >)
        ensures
            match cached(
                self@.cache,
                cache_key_text(PIPELINE_DESCRIPTOR_SCHEMA@, self@.default_namespace, None),
            ) {
                Some(s) => validated_against(s, r),
                None => validation_skipped(r),
            },
    {
        self.validate_against_schema(PIPELINE_DESCRIPTOR_SCHEMA, self.default_namespace.as_str(), descriptor)
    }

    /// Empties the cache.
    pub fn clear_cache(&mut self)
        ensures
            final(self)@ == (SchemaAdapterView { cache: Seq::empty(), ..old(self)@ }),
    {
        self.cache = Vec::new();
        proof {
            assert(self@.cache =~= Seq::<(String, ConsumedSchema)>::empty());
        }
    }

    /// The schemas offered in a namespace: the registry's own schemas in the
    /// default or the registry namespace, none elsewhere.
    pub fn list_schemas(&self, namespace: &str) -> (r: Result<Vec<String>, SchemaAdapterError>)
        ensures
            r matches Ok(names) && texts(names@) == if namespace@ == self@.default_namespace
                || namespace@ == REGISTRY_NAMESPACE@ {
                registry_schemas()
            } else {
                Seq::empty()
            },
    {
        let ns = namespace.to_owned();
        let registry = REGISTRY_NAMESPACE.to_owned();
        if ns == self.default_namespace || ns == registry {
            let names = vec![
                "ModelMetadata".to_owned(),
                "PipelineDescriptor".to_owned(),
                "AssetManifest".to_owned(),
                "DependencyGraph".to_owned(),
            ];
            proof {
                assert(texts(names@) =~= registry_schemas());
            }
            Ok(names)
        } else {
            let names: Vec<String> = Vec::new();
            proof {
                assert(texts(names@) =~= Seq::<Seq<char>>::empty());
            }
            Ok(names)
        }
    }
}

impl Default for SchemaRegistryAdapter {
    fn default() -> (r: Self)
        ensures
            r@.endpoint is None,
            r@.cache.len() == 0,
            r@.default_namespace == REGISTRY_NAMESPACE@,
    {
        Self::new()
    }
}

} // verus!
