use vstd::prelude::*;
use crate::errors::CommunicationError;
use crate::json::JsonValue;

verus! {

/// Reference to an installed knowledge pack.
#[derive(Debug)]
pub struct KnowledgePackRef {
    pub name: String,
    pub version: String,
    pub source: Option<String>,
}

/// Where the plugin configuration file lives, relative to the navigator.
#[derive(Debug)]
pub struct PluginsRef {
    pub config_file: String,
}

/// A navigator's persisted configuration.
///
/// Timestamps are seconds since the Unix epoch; the confidence floor is
/// carried in thousandths.
#[derive(Debug)]
pub struct NavigatorConfig {
    pub version: String,
    pub name: String,
    pub description: Option<String>,
    pub communication_layer_version: String,
    pub sdk_adapter_version: String,
    pub knowledge_base_path: String,
    pub instructions_path: String,
    pub created_at: Option<i64>,
    pub updated_at: Option<i64>,
    pub metadata: Vec<(String, JsonValue)>,
    pub knowledge_pack: Option<KnowledgePackRef>,
    pub confidence_threshold: Option<u32>,
    pub plugins: Option<PluginsRef>,
}

pub fn default_communication_layer_version() -> (r: String)
    ensures
        r@ == "^1.0.0"@,
{
    String::from_str("^1.0.0")
}

pub fn default_sdk_adapter_version() -> (r: String)
    ensures
        r@ == "^1.0.0"@,
{
    String::from_str("^1.0.0")
}

pub fn default_knowledge_base_path() -> (r: String)
    ensures
        r@ == "knowledge-base"@,
{
    String::from_str("knowledge-base")
}

pub fn default_instructions_path() -> (r: String)
    ensures
        r@ == "INSTRUCTIONS.md"@,
{
    String::from_str("INSTRUCTIONS.md")
}

pub fn default_plugins_config_file() -> (r: String)
    ensures
        r@ == ".autonav/plugins.json"@,
{
    String::from_str(".autonav/plugins.json")
}

/// True for a lower-case ASCII letter.
pub open spec fn is_lower_alpha(c: char) -> bool {
    'a' <= c && c <= 'z'
}

/// A kebab-case name: it starts with a lower-case letter, holds only
/// lower-case letters, digits and hyphens, and every hyphen is followed
/// by a letter or digit.
pub open spec fn is_kebab(s: Seq<char>) -> bool {
    &&& s.len() > 0
    &&& is_lower_alpha(s[0])
    &&& forall|i: int|
        0 <= i < s.len() ==> (is_lower_alpha(#[trigger] s[i]) || crate::strutil::is_digit(s[i])
            || s[i] == '-')
    &&& forall|i: int|
        0 <= i < s.len() && #[trigger] s[i] == '-' ==> i + 1 < s.len() && s[i + 1] != '-'
}

/// Check that a name is kebab-case.
#[verifier::loop_isolation(false)]
pub fn validate_kebab_case(name: &str) -> (r: Result<(), CommunicationError>)
    ensures
        r is Ok <==> is_kebab(name@),
        r is Err ==> r->Err_0 is ValidationError,
{
    let n = name.unicode_len();
    if n == 0 {
        return Err(CommunicationError::ValidationError(String::from_str(
            "Name must be in kebab-case (e.g., my-navigator)",
        )));
    }
    let first = name.get_char(0);
    if !('a' <= first && first <= 'z') {
        return Err(CommunicationError::ValidationError(String::from_str(
            "Name must be in kebab-case (e.g., my-navigator)",
        )));
    }
    let mut i: usize = 0;
    while i < n
        invariant
            n == name@.len(),
            i <= n,
            forall|j: int|
                0 <= j < i ==> (is_lower_alpha(#[trigger] name@[j]) || crate::strutil::is_digit(
                    name@[j],
                ) || name@[j] == '-'),
            forall|j: int|
                0 <= j < i && #[trigger] name@[j] == '-' ==> j + 1 < n && name@[j + 1] != '-',
        decreases n - i,
    {
        let c = name.get_char(i);
        let ok = ('a' <= c && c <= 'z') || ('0' <= c && c <= '9') || c == '-';
        if !ok {
            return Err(CommunicationError::ValidationError(String::from_str(
                "Name must be in kebab-case (e.g., my-navigator)",
            )));
        }
        if c == '-' {
            if i + 1 >= n {
                return Err(CommunicationError::ValidationError(String::from_str(
                    "Name must be in kebab-case (e.g., my-navigator)",
                )));
            }
            if name.get_char(i + 1) == '-' {
                return Err(CommunicationError::ValidationError(String::from_str(
                    "Name must be in kebab-case (e.g., my-navigator)",
                )));
            }
        }
        i += 1;
    }
    Ok(())
}

/// A navigator name is acceptable when it is kebab-case and at most 50
/// characters long.
pub fn is_valid_name(name: &str) -> (r: bool)
    ensures
        r == (name@.len() <= 50 && is_kebab(name@)),
{
    let n = name.unicode_len();
    if n == 0 || n > 50 {
        return false;
    }
    match validate_kebab_case(name) {
        Ok(()) => true,
        Err(_) => false,
    }
}

/// What a freshly scaffolded configuration holds, apart from its name.
pub open spec fn navigator_config_fresh(c: NavigatorConfig) -> bool {
    &&& c.version@ == "1.0.0"@
    &&& c.description is None
    &&& c.communication_layer_version@ == "^1.0.0"@
    &&& c.sdk_adapter_version@ == "^1.0.0"@
    &&& c.knowledge_base_path@ == "knowledge-base"@
    &&& c.instructions_path@ == "INSTRUCTIONS.md"@
    &&& c.created_at is Some
    &&& c.updated_at is None
    &&& c.metadata@.len() == 0
    &&& c.knowledge_pack is None
    &&& c.confidence_threshold is None
    &&& c.plugins matches Some(p) && p.config_file@ == ".autonav/plugins.json"@
}

impl Default for NavigatorConfig {
    fn default() -> (r: NavigatorConfig)
        ensures
            navigator_config_fresh(r),
            r.name@ == "unnamed-navigator"@,
    {
        NavigatorConfig {
            version: String::from_str("1.0.0"),
            name: String::from_str("unnamed-navigator"),
            description: None,
            communication_layer_version: default_communication_layer_version(),
            sdk_adapter_version: default_sdk_adapter_version(),
            knowledge_base_path: default_knowledge_base_path(),
            instructions_path: default_instructions_path(),
            created_at: Some(crate::clock::now_unix()),
            updated_at: None,
            metadata: Vec::new(),
            knowledge_pack: None,
            confidence_threshold: None,
            plugins: Some(PluginsRef { config_file: default_plugins_config_file() }),
        }
    }
}

impl NavigatorConfig {
    /// A fresh configuration carrying the given name.
    pub fn new(name: &str) -> (r: NavigatorConfig)
        ensures
            navigator_config_fresh(r),
            r.name@ == name@,
    {
        let mut c = NavigatorConfig::default();
        c.name = String::from_str(name);
        c
    }

    /// Stamp the configuration as just updated.
    pub fn touch(&mut self)
        ensures
            final(self).updated_at is Some,
            final(self).version == old(self).version,
            final(self).name == old(self).name,
            final(self).description == old(self).description,
            final(self).communication_layer_version == old(self).communication_layer_version,
            final(self).sdk_adapter_version == old(self).sdk_adapter_version,
            final(self).knowledge_base_path == old(self).knowledge_base_path,
            final(self).instructions_path == old(self).instructions_path,
            final(self).created_at == old(self).created_at,
            final(self).metadata == old(self).metadata,
            final(self).knowledge_pack == old(self).knowledge_pack,
            final(self).confidence_threshold == old(self).confidence_threshold,
            final(self).plugins == old(self).plugins,
    {
        self.updated_at = Some(crate::clock::now_unix());
    }
}

/// Metadata describing a knowledge pack.
#[derive(Debug)]
pub struct PackMetadata {
    pub name: String,
    pub version: String,
    pub description: Option<String>,
    pub files: Vec<String>,
    pub author: Option<String>,
    pub repository: Option<String>,
    pub license: Option<String>,
    pub keywords: Vec<String>,
}

impl PackMetadata {
    /// Fresh metadata carrying only a name and a version.
    pub fn new(name: &str, version: &str) -> (r: PackMetadata)
        ensures
            r.name@ == name@,
            r.version@ == version@,
            r.description is None,
            r.files@.len() == 0,
            r.author is None,
            r.repository is None,
            r.license is None,
            r.keywords@.len() == 0,
    {
        PackMetadata {
            name: String::from_str(name),
            version: String::from_str(version),
            description: None,
            files: Vec::new(),
            author: None,
            repository: None,
            license: None,
            keywords: Vec::new(),
        }
    }
}

/// Health report of a pack server.
#[derive(Debug)]
pub struct PackServerHealth {
    pub status: String,
    pub protocol: String,
}

/// Version listing of a pack on the server.
#[derive(Debug)]
pub struct PackVersions {
    pub versions: Vec<String>,
}

} // verus!
