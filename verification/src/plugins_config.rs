use vstd::prelude::*;
use crate::json::JsonValue;

verus! {

/// How often a messaging plugin sends summaries.
#[derive(Debug, Clone, Copy, PartialEq, Eq, Structural)]
pub enum SummaryFrequency {
    Realtime,
    Hourly,
    Daily,
}

/// Chat-messaging plugin settings.
#[derive(Debug)]
pub struct SlackConfig {
    pub enabled: bool,
    pub workspace: String,
    pub channels: Vec<String>,
    pub thread_notifications: bool,
    pub summary_frequency: SummaryFrequency,
    pub bot_user_id: Option<String>,
    pub token: Option<String>,
}

/// Check-in notification plugin settings.
#[derive(Debug)]
pub struct SignalConfig {
    pub enabled: bool,
    pub phone_number: String,
    pub check_in_schedule: String,
    pub check_in_time: Option<String>,
    pub notification_types: Vec<String>,
    pub next_check_in: Option<String>,
}

/// Issue-tracker plugin settings.
#[derive(Debug)]
pub struct GitHubConfig {
    pub enabled: bool,
    pub token: Option<String>,
    pub owner: String,
    pub repo: String,
    pub watch_issues: bool,
    pub watch_pull_requests: bool,
    pub watch_commits: bool,
    pub poll_interval_minutes: u32,
    pub repositories: Vec<String>,
    pub issue_labels: Vec<String>,
    pub auto_respond: bool,
}

/// Email digest plugin settings.
#[derive(Debug)]
pub struct EmailConfig {
    pub enabled: bool,
    pub addresses: Vec<String>,
    pub digest_frequency: String,
}

/// File-watcher plugin settings.
#[derive(Debug)]
pub struct FileWatcherConfig {
    pub enabled: bool,
    pub paths: Vec<String>,
    pub patterns: Vec<String>,
    pub ignore_patterns: Vec<String>,
    pub poll_interval: u64,
}

/// The whole persisted plugin configuration: one optional sub-record per
/// known plugin kind, plus an open map for custom kinds.
#[derive(Debug)]
pub struct PluginConfig {
    pub workspaces: Vec<String>,
    pub slack: Option<SlackConfig>,
    pub signal: Option<SignalConfig>,
    pub github: Option<GitHubConfig>,
    pub email: Option<EmailConfig>,
    pub file_watcher: Option<FileWatcherConfig>,
    pub custom: Vec<(String, JsonValue)>,
}

pub fn default_true() -> (r: bool)
    ensures
        r,
{
    true
}

pub fn default_summary_frequency() -> (r: SummaryFrequency)
    ensures
        r is Daily,
{
    SummaryFrequency::Daily
}

pub fn default_check_in_schedule() -> (r: String)
    ensures
        r@ == "daily"@,
{
    String::from_str("daily")
}

pub fn default_poll_interval() -> (r: u32)
    ensures
        r == 5,
{
    5
}

pub fn default_digest_frequency() -> (r: String)
    ensures
        r@ == "weekly"@,
{
    String::from_str("weekly")
}

pub fn default_file_poll_interval() -> (r: u64)
    ensures
        r == 1000,
{
    1000
}

/// What a default (all disabled, empty) configuration looks like.
pub open spec fn slack_config_default(c: SlackConfig) -> bool {
    &&& !c.enabled
    &&& c.workspace@ == Seq::<char>::empty()
    &&& c.channels@.len() == 0
    &&& c.thread_notifications
    &&& c.summary_frequency is Daily
    &&& c.bot_user_id is None
    &&& c.token is None
}

impl Default for SlackConfig {
    fn default() -> (r: SlackConfig)
        ensures
            slack_config_default(r),
    {
        SlackConfig {
            enabled: false,
            workspace: String::new(),
            channels: Vec::new(),
            thread_notifications: true,
            summary_frequency: SummaryFrequency::Daily,
            bot_user_id: None,
            token: None,
        }
    }
}

pub open spec fn signal_config_default(c: SignalConfig) -> bool {
    &&& !c.enabled
    &&& c.phone_number@ == Seq::<char>::empty()
    &&& c.check_in_schedule@ == "daily"@
    &&& c.check_in_time is None
    &&& c.notification_types@.len() == 2
    &&& c.notification_types@[0]@ == "urgent"@
    &&& c.notification_types@[1]@ == "daily-summary"@
    &&& c.next_check_in is None
}

impl Default for SignalConfig {
    fn default() -> (r: SignalConfig)
        ensures
            signal_config_default(r),
    {
        let mut notification_types: Vec<String> = Vec::new();
        notification_types.push(String::from_str("urgent"));
        notification_types.push(String::from_str("daily-summary"));
        SignalConfig {
            enabled: false,
            phone_number: String::new(),
            check_in_schedule: String::from_str("daily"),
            check_in_time: None,
            notification_types,
            next_check_in: None,
        }
    }
}

pub open spec fn github_config_default(c: GitHubConfig) -> bool {
    &&& !c.enabled
    &&& c.token is None
    &&& c.owner@ == Seq::<char>::empty()
    &&& c.repo@ == Seq::<char>::empty()
    &&& !c.watch_issues
    &&& !c.watch_pull_requests
    &&& !c.watch_commits
    &&& c.poll_interval_minutes == 5
    &&& c.repositories@.len() == 0
    &&& c.issue_labels@.len() == 0
    &&& !c.auto_respond
}

impl Default for GitHubConfig {
    fn default() -> (r: GitHubConfig)
        ensures
            github_config_default(r),
    {
        GitHubConfig {
            enabled: false,
            token: None,
            owner: String::new(),
            repo: String::new(),
            watch_issues: false,
            watch_pull_requests: false,
            watch_commits: false,
            poll_interval_minutes: 5,
            repositories: Vec::new(),
            issue_labels: Vec::new(),
            auto_respond: false,
        }
    }
}

pub open spec fn email_config_default(c: EmailConfig) -> bool {
    &&& !c.enabled
    &&& c.addresses@.len() == 0
    &&& c.digest_frequency@ == "weekly"@
}

impl Default for EmailConfig {
    fn default() -> (r: EmailConfig)
        ensures
            email_config_default(r),
    {
        EmailConfig {
            enabled: false,
            addresses: Vec::new(),
            digest_frequency: String::from_str("weekly"),
        }
    }
}

pub open spec fn file_watcher_config_default(c: FileWatcherConfig) -> bool {
    &&& !c.enabled
    &&& c.paths@.len() == 0
    &&& c.patterns@.len() == 0
    &&& c.ignore_patterns@.len() == 0
    &&& c.poll_interval == 1000
}

impl Default for FileWatcherConfig {
    fn default() -> (r: FileWatcherConfig)
        ensures
            file_watcher_config_default(r),
    {
        FileWatcherConfig {
            enabled: false,
            paths: Vec::new(),
            patterns: Vec::new(),
            ignore_patterns: Vec::new(),
            poll_interval: 1000,
        }
    }
}

pub open spec fn plugin_config_default(c: PluginConfig) -> bool {
    &&& c.workspaces@.len() == 0
    &&& c.slack is None
    &&& c.signal is None
    &&& c.github is None
    &&& c.email is None
    &&& c.file_watcher is None
    &&& c.custom@.len() == 0
}

impl Default for PluginConfig {
    fn default() -> (r: PluginConfig)
        ensures
            plugin_config_default(r),
    {
        PluginConfig {
            workspaces: Vec::new(),
            slack: None,
            signal: None,
            github: None,
            email: None,
            file_watcher: None,
            custom: Vec::new(),
        }
    }
}

impl PluginConfig {
    /// The names of the plugins this configuration enables, in the fixed
    /// order slack, signal, github, email, file_watcher.
    pub open spec fn enabled_names(&self) -> Seq<Seq<char>> {
        let s1 = if self.slack matches Some(c) && c.enabled {
            seq!["slack"@]
        } else {
            Seq::empty()
        };
        let s2 = if self.signal matches Some(c) && c.enabled {
            seq!["signal"@]
        } else {
            Seq::empty()
        };
        let s3 = if self.github matches Some(c) && c.enabled {
            seq!["github"@]
        } else {
            Seq::empty()
        };
        let s4 = if self.email matches Some(c) && c.enabled {
            seq!["email"@]
        } else {
            Seq::empty()
        };
        let s5 = if self.file_watcher matches Some(c) && c.enabled {
            seq!["file_watcher"@]
        } else {
            Seq::empty()
        };
        s1 + s2 + s3 + s4 + s5
    }

    /// List the enabled plugins by name.
    pub fn enabled_plugins(&self) -> (r: Vec<String>)
        ensures
            r@.map_values(|s: String| s@) == self.enabled_names(),
    {
        let mut out: Vec<String> = Vec::new();
        if match &self.slack {
            Some(c) => c.enabled,
            None => false,
        } {
            out.push(String::from_str("slack"));
        }
        if match &self.signal {
            Some(c) => c.enabled,
            None => false,
        } {
            out.push(String::from_str("signal"));
        }
        if match &self.github {
            Some(c) => c.enabled,
            None => false,
        } {
            out.push(String::from_str("github"));
        }
        if match &self.email {
            Some(c) => c.enabled,
            None => false,
        } {
            out.push(String::from_str("email"));
        }
        if match &self.file_watcher {
            Some(c) => c.enabled,
            None => false,
        } {
            out.push(String::from_str("file_watcher"));
        }
        proof {
            assert(out@.map_values(|s: String| s@) =~= self.enabled_names());
        }
        out
    }
}

} // verus!
