mod adapter;
mod cli;
mod clock;
mod config;
mod decode;
mod errors;
mod file_watcher;
mod github;
mod interview;
mod json;
mod manager;
mod navigator;
mod output;
mod pack;
mod plugin;
mod plugins_config;
mod prompts;
mod query_engine;
mod repo_scanner;
mod response;
mod slack;
mod strutil;
mod tools;
mod validation;
mod version;

pub use adapter::{
    ClaudeAdapter, ContentBlock, Conversation, Message, MessageContent, ModelResponse,
    StepOutcome, begin_conversation, build_tools, execute_tool, extract_text, handle_submit,
    parse_confidence_milli, process_response, run_query_script, DEFAULT_MAX_TURNS, DEFAULT_MODEL,
};
pub use cli::{ChatOptions, InitOptions, InstallOptions, UninstallOptions, UpdateOptions};
pub use config::{
    KnowledgePackRef, NavigatorConfig, PackMetadata, PackServerHealth, PackVersions, PluginsRef,
    default_communication_layer_version, default_instructions_path, default_knowledge_base_path,
    default_plugins_config_file, default_sdk_adapter_version, is_valid_name, validate_kebab_case,
};
pub use decode::{
    decode_email, decode_file_watcher, decode_github, decode_plugin_config, decode_signal,
    decode_slack,
};
pub use errors::{AutonavError, CommunicationError, PluginError};
pub use file_watcher::{
    FileWatcherPlugin, FsChange, FsChangeKind, build_glob_set, drain_events, drain_paths,
    expand_tilde, glob_match, glob_set_matches, glob_set_view, is_sensitive_path,
};
pub use github::{GitHubPlugin, GitHubRequest, IssueSummary, PrSummary};
pub use interview::Interview;
pub use json::{JsonValue, get as json_get, merge_json, set_entry, take_entry};
pub use manager::{
    ListenOutcome, PluginManager, PluginRecord, PluginState, collected_events, find_plugin,
    lemma_listen_isolates_failure, lemma_shutdown_idempotent, shut_all,
};
pub use navigator::{LoadedNavigator, Navigator};
pub use output::format_source;
pub use pack::{
    DEFAULT_PACK_SERVER, GitHubUrl, InstallSource, PackInstaller, format_github_shorthand,
    lemma_shorthand_round_trip, parse_github_url, parse_github_url_spec, shorthand_text,
};
pub use plugin::{ActionResult, PluginAction, PluginEvent, PluginHealthStatus};
pub use plugins_config::{
    EmailConfig, FileWatcherConfig, GitHubConfig, PluginConfig, SignalConfig, SlackConfig,
    SummaryFrequency, default_check_in_schedule, default_digest_frequency,
    default_file_poll_interval, default_poll_interval, default_summary_frequency, default_true,
};
pub use prompts::{
    GROUNDING_RULES, SELF_CONFIG_RULES, create_answer_question_prompt, create_confidence_prompt,
    create_extract_sources_prompt, create_navigator_system_prompt,
};
pub use query_engine::{
    QueryEngine, QueryOptions, join_messages, parse_timeout, parse_timeout_spec,
};
pub use repo_scanner::{FileInfo, ScanEntry, ScanResult, scan_repository, suggest_knowledge_paths};
pub use response::{ConfidenceLevel, NavigatorResponse, Source};
pub use slack::{SlackAuthInfo, SlackPlugin, SlackRequest};
pub use strutil::str_eq;
pub use tools::{
    PluginStore, Tool, ToolCall, ToolResult, get_plugin_config, self_config_tools,
    submit_answer_tool, update_plugin_config,
};
pub use validation::{
    is_valid_source, sanitize_path, validate_confidence, validate_response, validate_sources_exist,
};
pub use version::{
    default_protocol_version, is_compatible, majors_match, parse_version, protocol_version,
    semver_triple,
};

use vstd::prelude::*;

verus! {

/// Current communication protocol version.
pub const PROTOCOL_VERSION: &'static str = "1.0.0";

} // verus!
