use vstd::prelude::*;

verus! {

/// Errors raised by the communication layer: schema validation,
/// source checking and confidence enforcement.
#[derive(Debug, Clone)]
pub enum CommunicationError {
    InvalidConfig(String),
    ValidationError(String),
    /// A cited source file was not found under the knowledge base.
    SourceNotFound(String),
    /// Confidence (in thousandths) fell below the required floor.
    ConfidenceBelowThreshold { got: u32, expected: u32 },
    ProtocolVersionMismatch { expected: String, got: String },
    MissingField(String),
    JsonError(String),
    IoError(String),
}

/// Errors raised by the plugin subsystem.
#[derive(Debug, Clone)]
pub enum PluginError {
    /// No plugin with the requested name is registered.
    NotFound(String),
    InitializationFailed(String),
    ActionFailed(String),
    ConfigError(String),
    NetworkError(String),
    AuthError(String),
    /// The provider signalled throttling.
    RateLimited,
    /// The plugin is registered but disabled.
    NotEnabled(String),
    IoError(String),
    JsonError(String),
    HttpError(String),
}

/// Errors raised by the core: navigator loading, queries, tools and
/// pack installation.
#[derive(Debug, Clone)]
pub enum AutonavError {
    NavigatorNotFound(String),
    InvalidNavigator(String),
    ConfigError(String),
    PackInstallError(String),
    QueryError(String),
    ClaudeApiError(String),
    ToolError(String),
    TemplateError(String),
    Timeout(String),
    NetworkError(String),
    InvalidUrl(String),
    GitHubError(String),
    IoError(String),
    JsonError(String),
    HttpError(String),
    CommunicationError(String),
    PluginError(String),
}

impl AutonavError {
    /// Wrap a plugin error as a core error, carrying its message.
    pub fn from_plugin(e: PluginError) -> (r: AutonavError)
        ensures
            r is PluginError,
    {
        match e {
            PluginError::NotFound(s) => AutonavError::PluginError(s),
            PluginError::InitializationFailed(s) => AutonavError::PluginError(s),
            PluginError::ActionFailed(s) => AutonavError::PluginError(s),
            PluginError::ConfigError(s) => AutonavError::PluginError(s),
            PluginError::NetworkError(s) => AutonavError::PluginError(s),
            PluginError::AuthError(s) => AutonavError::PluginError(s),
            PluginError::RateLimited => AutonavError::PluginError(String::new()),
            PluginError::NotEnabled(s) => AutonavError::PluginError(s),
            PluginError::IoError(s) => AutonavError::PluginError(s),
            PluginError::JsonError(s) => AutonavError::PluginError(s),
            PluginError::HttpError(s) => AutonavError::PluginError(s),
        }
    }
}

} // verus!
