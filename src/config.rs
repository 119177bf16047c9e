//! Typed application configuration and the fixed parts of its resolution:
//! built-in defaults, the run mode, and the ordered list of file sources.
use std::collections::HashMap;
use vstd::prelude::*;
use vstd::string::*;

verus! {

/// Environment variable that selects the run mode.
pub const RUN_MODE_VAR: &'static str = "RUN_MODE";

/// Where the HTTP server binds.
#[derive(Debug, Clone)]
pub struct ServerConfig {
    pub host: String,
    pub port: u16,
}

/// Which storage backend to bind and its parameters.
#[derive(Debug, Clone)]
pub struct StorageConfig {
    /// `"fs"` or `"s3"`.
    pub backend: String,
    /// Local directory for `"fs"`, bucket name for `"s3"`.
    pub root: String,
    pub s3_endpoint: Option<String>,
    pub s3_region: Option<String>,
    pub s3_access_key: Option<String>,
    pub s3_secret_key: Option<String>,
}

/// Location of the vector store.
#[derive(Debug, Clone)]
pub struct QdrantConfig {
    pub url: String,
    pub collection_name: String,
}

/// Identifiers of the models in use.
#[derive(Debug, Clone)]
pub struct AiConfig {
    pub active_embedding_model: String,
    pub active_rerank_model: String,
}

/// Where a model runs.
#[derive(Debug, Clone, Copy, PartialEq, Eq)]
pub enum ModelType {
    Local,
    Online,
}

/// What a model is used for.
#[derive(Debug, Clone, Copy, PartialEq, Eq)]
pub enum ModelUsage {
    Embedding,
    Rerank,
}

/// One entry of the model registry.
#[derive(Debug, Clone)]
pub struct ModelConfig {
    /// The `type` key of the entry.
    pub model_type: ModelType,
    pub usage: ModelUsage,
    pub model_id: String,
    pub api_key_env: Option<String>,
    pub provider: Option<String>,
}

/// The resolved configuration snapshot.
#[derive(Debug, Clone)]
pub struct AppConfig {
    pub server: ServerConfig,
    pub storage: StorageConfig,
    pub qdrant: QdrantConfig,
    pub ai: AiConfig,
    pub models: HashMap<String, ModelConfig>,
}

/// A built-in default value: text, or an integer key such as a port.
#[derive(Debug, Clone)]
pub enum SettingValue {
    Text(String),
    Integer(u16),
}

/// A built-in default: a dotted key and its value.
#[derive(Debug, Clone)]
pub struct Setting {
    pub key: String,
    pub value: SettingValue,
}

/// One source of configuration values.
#[derive(Debug, Clone)]
pub enum ConfigSource {
    /// The built-in defaults of `default_settings`.
    Defaults,
    /// A configuration file, named without its extension.
    File { name: String, required: bool },
    /// Environment variables named `<prefix><separator><key segments>`,
    /// segments joined by `separator`.
    Environment { prefix: String, separator: String },
}

pub open spec fn is_text_setting(s: Setting, key: Seq<char>, value: Seq<char>) -> bool {
    &&& s.key@ == key
    &&& s.value matches SettingValue::Text(t) && t@ == value
}

pub open spec fn is_integer_setting(s: Setting, key: Seq<char>, value: u16) -> bool {
    &&& s.key@ == key
    &&& s.value == SettingValue::Integer(value)
}

/// The built-in defaults, in the order in which they are applied.
pub open spec fn is_default_table(t: Seq<Setting>) -> bool {
    &&& t.len() == 8
    &&& is_text_setting(t[0], "server.host"@, "0.0.0.0"@)
    &&& is_integer_setting(t[1], "server.port"@, 3000)
    &&& is_text_setting(t[2], "storage.backend"@, "fs"@)
    &&& is_text_setting(t[3], "storage.root"@, "./data"@)
    &&& is_text_setting(t[4], "qdrant.url"@, "http://localhost:6334"@)
    &&& is_text_setting(t[5], "qdrant.collection_name"@, "memes"@)
    &&& is_text_setting(t[6], "ai.active_embedding_model"@, "bge_small"@)
    &&& is_text_setting(t[7], "ai.active_rerank_model"@, "bge_reranker"@)
}

fn text_setting(key: &str, value: &str) -> (r: Setting)
    ensures
        is_text_setting(r, key@, value@),
{
    Setting { key: String::from_str(key), value: SettingValue::Text(String::from_str(value)) }
}

/// The values that hold before any configuration file is read.
pub fn default_settings() -> (r: Vec<Setting>)
    ensures
        is_default_table(r@),
{
    let mut t: Vec<Setting> = Vec::new();
    t.push(text_setting("server.host", "0.0.0.0"));
    t.push(Setting { key: String::from_str("server.port"), value: SettingValue::Integer(3000) });
    t.push(text_setting("storage.backend", "fs"));
    t.push(text_setting("storage.root", "./data"));
    t.push(text_setting("qdrant.url", "http://localhost:6334"));
    t.push(text_setting("qdrant.collection_name", "memes"));
    t.push(text_setting("ai.active_embedding_model", "bge_small"));
    t.push(text_setting("ai.active_rerank_model", "bge_reranker"));
    proof {
        reveal_strlit("server.host");
        reveal_strlit("0.0.0.0");
        reveal_strlit("server.port");
        reveal_strlit("storage.backend");
        reveal_strlit("fs");
        reveal_strlit("storage.root");
        reveal_strlit("./data");
        reveal_strlit("qdrant.url");
        reveal_strlit("http://localhost:6334");
        reveal_strlit("qdrant.collection_name");
        reveal_strlit("memes");
        reveal_strlit("ai.active_embedding_model");
        reveal_strlit("bge_small");
        reveal_strlit("ai.active_rerank_model");
        reveal_strlit("bge_reranker");
    }
    t
}

/// The run mode: the value of the selecting variable when it is set,
/// `"development"` otherwise.
pub fn run_mode_or_default(var: Option<String>) -> (r: String)
    ensures
        var matches Some(v) ==> r@ == v@,
        var is None ==> r@ == "development"@,
{
    match var {
        Some(v) => v,
        None => String::from_str("development"),
    }
}

pub open spec fn is_file(c: ConfigSource, name: Seq<char>, required: bool) -> bool {
    c matches ConfigSource::File { name: n, required: r } && n@ == name && r == required
}

/// The sources of configuration, from the one applied first to the one
/// applied last; a later source overrides an earlier one key by key. The
/// built-in defaults come first, then the required model registry, the
/// optional generic defaults, the optional file of the run mode, the
/// optional local overrides, and last the environment variables prefixed
/// `MFA` with nested keys joined by `__`.
pub open spec fn is_source_plan(p: Seq<ConfigSource>, run_mode: Seq<char>) -> bool {
    &&& p.len() == 6
    &&& p[0] is Defaults
    &&& is_file(p[1], "config/models"@, true)
    &&& is_file(p[2], "config/default"@, false)
    &&& is_file(p[3], "config/"@ + run_mode, false)
    &&& is_file(p[4], "config/local"@, false)
    &&& p[5] matches ConfigSource::Environment { prefix, separator } && prefix@ == "MFA"@
        && separator@ == "__"@
}

fn file_source(name: String, required: bool) -> (r: ConfigSource)
    ensures
        is_file(r, name@, required),
{
    ConfigSource::File { name, required }
}

/// The sources of configuration for the given run mode, in the order in
/// which they are applied.
pub fn source_plan(run_mode: &str) -> (r: Vec<ConfigSource>)
    ensures
        is_source_plan(r@, run_mode@),
{
    let mut p: Vec<ConfigSource> = Vec::new();
    p.push(ConfigSource::Defaults);
    p.push(file_source(String::from_str("config/models"), true));
    p.push(file_source(String::from_str("config/default"), false));
    p.push(file_source(String::from_str("config/").concat(run_mode), false));
    p.push(file_source(String::from_str("config/local"), false));
    p.push(
        ConfigSource::Environment { prefix: String::from_str("MFA"), separator: String::from_str("__") },
    );
    p
}

} // verus!
