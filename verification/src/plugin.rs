use vstd::prelude::*;
use crate::json::JsonValue;

verus! {

/// Best-effort health report of one plugin.
#[derive(Debug)]
pub struct PluginHealthStatus {
    pub healthy: bool,
    pub message: Option<String>,
    /// Seconds since the Unix epoch when the check was made.
    pub last_check: i64,
}

impl PluginHealthStatus {
    /// A healthy report, stamped with the current time.
    pub fn healthy() -> (r: PluginHealthStatus)
        ensures
            r.healthy,
            r.message is None,
    {
        PluginHealthStatus { healthy: true, message: None, last_check: crate::clock::now_unix() }
    }

    /// An unhealthy report carrying a reason.
    pub fn unhealthy(message: &str) -> (r: PluginHealthStatus)
        ensures
            !r.healthy,
            r.message matches Some(m) && m@ == message@,
    {
        PluginHealthStatus {
            healthy: false,
            message: Some(String::from_str(message)),
            last_check: crate::clock::now_unix(),
        }
    }
}

/// An event a plugin drained from its provider.
#[derive(Debug)]
pub enum PluginEvent {
    SlackMessage { channel: String, user: String, text: String, ts: String, thread_ts: Option<String> },
    SlackMention { channel: String, user: String, text: String, ts: String },
    SlackReaction { channel: String, user: String, reaction: String, item_ts: String },
    GitHubIssue { owner: String, repo: String, number: u64, title: String, body: Option<String>, action: String },
    GitHubPullRequest { owner: String, repo: String, number: u64, title: String, body: Option<String>, action: String },
    GitHubComment { owner: String, repo: String, issue_number: u64, body: String, user: String },
    FileAdded { path: String },
    FileChanged { path: String },
    FileRemoved { path: String },
}

impl PluginEvent {
    /// The name of the plugin each event variant belongs to; the mapping
    /// is fixed by the variant, never by configuration.
    pub open spec fn owner_name(&self) -> Seq<char> {
        match *self {
            PluginEvent::SlackMessage { .. }
            | PluginEvent::SlackMention { .. }
            | PluginEvent::SlackReaction { .. } => "slack"@,
            PluginEvent::GitHubIssue { .. }
            | PluginEvent::GitHubPullRequest { .. }
            | PluginEvent::GitHubComment { .. } => "github"@,
            PluginEvent::FileAdded { .. }
            | PluginEvent::FileChanged { .. }
            | PluginEvent::FileRemoved { .. } => "file_watcher"@,
        }
    }

    /// The plugin this event came from.
    pub fn plugin_name(&self) -> (r: &'static str)
        ensures
            r@ == self.owner_name(),
    {
        match self {
            PluginEvent::SlackMessage { .. }
            | PluginEvent::SlackMention { .. }
            | PluginEvent::SlackReaction { .. } => "slack",
            PluginEvent::GitHubIssue { .. }
            | PluginEvent::GitHubPullRequest { .. }
            | PluginEvent::GitHubComment { .. } => "github",
            PluginEvent::FileAdded { .. }
            | PluginEvent::FileChanged { .. }
            | PluginEvent::FileRemoved { .. } => "file_watcher",
        }
    }
}

/// An action to carry out through a plugin.
#[derive(Debug)]
pub enum PluginAction {
    SlackSendMessage { channel: String, text: String, thread_ts: Option<String> },
    SlackAddReaction { channel: String, timestamp: String, reaction: String },
    SlackUpdateMessage { channel: String, timestamp: String, text: String },
    GitHubCreateIssue { owner: String, repo: String, title: String, body: Option<String>, labels: Vec<String> },
    GitHubCommentIssue { owner: String, repo: String, issue_number: u64, body: String },
    GitHubCloseIssue { owner: String, repo: String, issue_number: u64 },
    GitHubCreatePr { owner: String, repo: String, title: String, body: Option<String>, head: String, base: String },
    GitHubCommentPr { owner: String, repo: String, pr_number: u64, body: String },
    GitHubMergePr { owner: String, repo: String, pr_number: u64 },
    GitHubAddLabel { owner: String, repo: String, issue_number: u64, label: String },
    FileWatcherRefresh,
    FileWatcherClear,
}

impl PluginAction {
    /// The name of the plugin each action variant belongs to.
    pub open spec fn owner_name(&self) -> Seq<char> {
        match *self {
            PluginAction::SlackSendMessage { .. }
            | PluginAction::SlackAddReaction { .. }
            | PluginAction::SlackUpdateMessage { .. } => "slack"@,
            PluginAction::GitHubCreateIssue { .. }
            | PluginAction::GitHubCommentIssue { .. }
            | PluginAction::GitHubCloseIssue { .. }
            | PluginAction::GitHubCreatePr { .. }
            | PluginAction::GitHubCommentPr { .. }
            | PluginAction::GitHubMergePr { .. }
            | PluginAction::GitHubAddLabel { .. } => "github"@,
            PluginAction::FileWatcherRefresh | PluginAction::FileWatcherClear => "file_watcher"@,
        }
    }

    /// The plugin this action is for.
    pub fn plugin_name(&self) -> (r: &'static str)
        ensures
            r@ == self.owner_name(),
    {
        match self {
            PluginAction::SlackSendMessage { .. }
            | PluginAction::SlackAddReaction { .. }
            | PluginAction::SlackUpdateMessage { .. } => "slack",
            PluginAction::GitHubCreateIssue { .. }
            | PluginAction::GitHubCommentIssue { .. }
            | PluginAction::GitHubCloseIssue { .. }
            | PluginAction::GitHubCreatePr { .. }
            | PluginAction::GitHubCommentPr { .. }
            | PluginAction::GitHubMergePr { .. }
            | PluginAction::GitHubAddLabel { .. } => "github",
            PluginAction::FileWatcherRefresh | PluginAction::FileWatcherClear => "file_watcher",
        }
    }
}

/// What one plugin action produced.
#[derive(Debug)]
pub struct ActionResult {
    pub success: bool,
    pub data: Option<JsonValue>,
    pub error: Option<String>,
}

impl ActionResult {
    /// A successful result, optionally carrying data.
    pub fn success(data: Option<JsonValue>) -> (r: ActionResult)
        ensures
            r.success,
            r.data == data,
            r.error is None,
    {
        ActionResult { success: true, data, error: None }
    }

    /// A failed result carrying an error message.
    pub fn failure(error: &str) -> (r: ActionResult)
        ensures
            !r.success,
            r.data is None,
            r.error matches Some(e) && e@ == error@,
    {
        ActionResult { success: false, data: None, error: Some(String::from_str(error)) }
    }
}

} // verus!
