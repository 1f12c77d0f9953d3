use vstd::prelude::*;
use crate::errors::PluginError;
use crate::plugin::{ActionResult, PluginAction, PluginEvent, PluginHealthStatus};
use crate::plugins_config::GitHubConfig;

verus! {

/// A bounded page of open issues, as the poller fetched it.
#[derive(Debug)]
pub struct IssueSummary {
    pub number: u64,
    pub title: String,
    pub body: Option<String>,
}

/// A bounded page of open pull requests, as the poller fetched it.
#[derive(Debug)]
pub struct PrSummary {
    pub number: u64,
    pub title: Option<String>,
    pub body: Option<String>,
}

/// One remote call the issue-tracker plugin asks its provider to make.
#[derive(Debug)]
pub enum GitHubRequest {
    CreateIssue { owner: String, repo: String, title: String, body: Option<String>, labels: Vec<String> },
    CreateComment { owner: String, repo: String, number: u64, body: String },
    CloseIssue { owner: String, repo: String, number: u64 },
    CreatePr { owner: String, repo: String, title: String, body: Option<String>, head: String, base: String },
    MergePr { owner: String, repo: String, number: u64 },
    AddLabel { owner: String, repo: String, number: u64, label: String },
}

/// The issue-tracker plugin: its configuration and lifecycle state. The
/// remote calls happen outside; the gating, translation and failure
/// decisions are made here.
#[derive(Debug)]
pub struct GitHubPlugin {
    pub config: GitHubConfig,
    pub initialized: bool,
}

impl GitHubPlugin {
    /// A fresh, uninitialized plugin around its configuration.
    pub fn new(config: GitHubConfig) -> (r: GitHubPlugin)
        ensures
            r.config == config,
            !r.initialized,
    {
        GitHubPlugin { config, initialized: false }
    }

    /// The token to present: the configured one wins, else the one the
    /// caller resolved from the environment, else an authentication
    /// error.
    pub fn get_token(&self, env_token: Option<&str>) -> (r: Result<String, PluginError>)
        ensures
            self.config.token matches Some(t) ==> r matches Ok(k) && k@ == t@,
            self.config.token is None ==> match env_token {
                Some(t) => r matches Ok(k) && k@ == t@,
                None => r matches Err(e) && e is AuthError,
            },
    {
        match &self.config.token {
            Some(t) => Ok(t.clone()),
            None => match env_token {
                Some(t) => Ok(String::from_str(t)),
                None => Err(
                    PluginError::AuthError(
                        String::from_str("GITHUB_TOKEN not set and no token in config"),
                    ),
                ),
            },
        }
    }

    /// The plugin's name.
    pub fn name(&self) -> (r: &'static str)
        ensures
            r@ == "github"@,
    {
        "github"
    }

    /// The plugin's version.
    pub fn version(&self) -> (r: &'static str)
        ensures
            r@ == "2.0.0"@,
    {
        "2.0.0"
    }

    /// What this plugin does.
    pub fn description(&self) -> (r: &'static str)
        ensures
            r@ == "GitHub integration for repository management"@,
    {
        "GitHub integration for repository management"
    }

    /// Whether this plugin is switched on.
    pub fn is_enabled(&self) -> (r: bool)
        ensures
            r == self.config.enabled,
    {
        self.config.enabled
    }

    /// Take in the authentication probe's outcome: a disabled plugin
    /// skips initialization, a failed probe is an authentication error
    /// and the plugin stays uninitialized.
    pub fn initialize(&mut self, auth: Result<(), String>) -> (r: Result<(), PluginError>)
        ensures
            !old(self).config.enabled ==> {
                &&& r is Ok
                &&& *final(self) == *old(self)
            },
            (old(self).config.enabled && auth is Ok) ==> {
                &&& r is Ok
                &&& final(self).initialized
                &&& final(self).config == old(self).config
            },
            (old(self).config.enabled && auth is Err) ==> {
                &&& r matches Err(e) && e is AuthError
                &&& *final(self) == *old(self)
            },
    {
        if !self.config.enabled {
            return Ok(());
        }
        match auth {
            Ok(()) => {
                self.initialized = true;
                Ok(())
            },
            Err(msg) => Err(PluginError::AuthError(msg)),
        }
    }

    /// Shut down: the connection handle is released outside, the
    /// lifecycle state is cleared here; twice is the same as once.
    pub fn shutdown(&mut self) -> (r: Result<(), PluginError>)
        ensures
            r is Ok,
            !final(self).initialized,
            final(self).config == old(self).config,
    {
        self.initialized = false;
        Ok(())
    }

    /// Whether the poller should fetch open issues, and open pull
    /// requests: only when initialized, watched, and a repository is
    /// configured.
    pub fn poll_plan(&self) -> (r: (bool, bool))
        ensures
            r.0 == (self.initialized && self.config.watch_issues && self.config.owner@.len() > 0
                && self.config.repo@.len() > 0),
            r.1 == (self.initialized && self.config.watch_pull_requests
                && self.config.owner@.len() > 0 && self.config.repo@.len() > 0),
    {
        let has_repo = self.config.owner.as_str().unicode_len() > 0
            && self.config.repo.as_str().unicode_len() > 0;
        (
            self.initialized && self.config.watch_issues && has_repo,
            self.initialized && self.config.watch_pull_requests && has_repo,
        )
    }

    /// Turn one polling round's fetched pages into events: every open
    /// issue first, then every open pull request, each tagged with the
    /// configured repository and the "open" action; order within each
    /// page is preserved.
    #[verifier::loop_isolation(false)]
    pub fn events_from_poll(&self, issues: Vec<IssueSummary>, prs: Vec<PrSummary>) -> (r: Vec<
        PluginEvent,
    >)
        ensures
            r@.len() == issues@.len() + prs@.len(),
            forall|i: int|
                0 <= i < issues@.len() ==> ((#[trigger] r@[i]) matches PluginEvent::GitHubIssue {
                    owner,
                    repo,
                    number,
                    title,
                    body,
                    action,
                } && owner@ == self.config.owner@ && repo@ == self.config.repo@ && number
                    == issues@[i].number && title == issues@[i].title && body == issues@[i].body
                    && action@ == "open"@),
            forall|i: int|
                0 <= i < prs@.len() ==> ((#[trigger] r@[issues@.len() + i])
                    matches PluginEvent::GitHubPullRequest {
                    owner,
                    repo,
                    number,
                    title,
                    body,
                    action,
                } && owner@ == self.config.owner@ && repo@ == self.config.repo@ && number
                    == prs@[i].number && title@ == (match prs@[i].title {
                    Some(t) => t@,
                    None => Seq::<char>::empty(),
                }) && body == prs@[i].body && action@ == "open"@),
    {
        let mut events: Vec<PluginEvent> = Vec::new();
        let mut rest = issues;
        let ghost all_issues = rest@;
        loop
            invariant
                rest@.len() <= all_issues.len(),
                rest@ =~= all_issues.subrange(
                    all_issues.len() - rest@.len(),
                    all_issues.len() as int,
                ),
                events@.len() == all_issues.len() - rest@.len(),
                forall|i: int|
                    0 <= i < events@.len() ==> ((#[trigger] events@[i])
                        matches PluginEvent::GitHubIssue {
                        owner,
                        repo,
                        number,
                        title,
                        body,
                        action,
                    } && owner@ == self.config.owner@ && repo@ == self.config.repo@ && number
                        == all_issues[i].number && title == all_issues[i].title && body
                        == all_issues[i].body && action@ == "open"@),
            decreases rest@.len(),
        {
            let ghost before = rest@;
            if rest.len() == 0 {
                break;
            }
            let issue = rest.remove(0);
            proof {
                assert(before[0] == issue);
                assert(rest@ =~= before.drop_first());
            }
            events.push(
                PluginEvent::GitHubIssue {
                    owner: self.config.owner.clone(),
                    repo: self.config.repo.clone(),
                    number: issue.number,
                    title: issue.title,
                    body: issue.body,
                    action: String::from_str("open"),
                },
            );
        }
        let ghost n_issues = events@.len();
        let mut rest_prs = prs;
        let ghost all_prs = rest_prs@;
        loop
            invariant
                n_issues == all_issues.len(),
                rest_prs@.len() <= all_prs.len(),
                rest_prs@ =~= all_prs.subrange(
                    all_prs.len() - rest_prs@.len(),
                    all_prs.len() as int,
                ),
                events@.len() == n_issues + all_prs.len() - rest_prs@.len(),
                forall|i: int|
                    0 <= i < n_issues ==> ((#[trigger] events@[i])
                        matches PluginEvent::GitHubIssue {
                        owner,
                        repo,
                        number,
                        title,
                        body,
                        action,
                    } && owner@ == self.config.owner@ && repo@ == self.config.repo@ && number
                        == all_issues[i].number && title == all_issues[i].title && body
                        == all_issues[i].body && action@ == "open"@),
                forall|i: int|
                    0 <= i < events@.len() - n_issues ==> ((#[trigger] events@[n_issues + i])
                        matches PluginEvent::GitHubPullRequest {
                        owner,
                        repo,
                        number,
                        title,
                        body,
                        action,
                    } && owner@ == self.config.owner@ && repo@ == self.config.repo@ && number
                        == all_prs[i].number && title@ == (match all_prs[i].title {
                        Some(t) => t@,
                        None => Seq::<char>::empty(),
                    }) && body == all_prs[i].body && action@ == "open"@),
            decreases rest_prs@.len(),
        {
            let ghost before = rest_prs@;
            if rest_prs.len() == 0 {
                break;
            }
            let pr = rest_prs.remove(0);
            proof {
                assert(before[0] == pr);
                assert(rest_prs@ =~= before.drop_first());
            }
            let title = match pr.title {
                Some(t) => t,
                None => String::new(),
            };
            events.push(
                PluginEvent::GitHubPullRequest {
                    owner: self.config.owner.clone(),
                    repo: self.config.repo.clone(),
                    number: pr.number,
                    title,
                    body: pr.body,
                    action: String::from_str("open"),
                },
            );
        }
        events
    }

    /// Translate one action into the remote call that carries it out.
    /// Commenting on a pull request goes through the issue-comment
    /// call, as pull requests are issues to the provider; an action of
    /// another plugin, or an uninitialized plugin, is a typed failure.
    pub fn request_for_action(&self, action: PluginAction) -> (r: Result<
        GitHubRequest,
        PluginError,
    >)
        ensures
            !self.initialized ==> (r matches Err(e) && e is InitializationFailed),
            self.initialized ==> match action {
                PluginAction::GitHubCreateIssue { owner, repo, title, body, labels } => r
                    matches Ok(GitHubRequest::CreateIssue { owner: o, repo: rp, title: t, body: b, labels: l })
                    && o == owner && rp == repo && t == title && b == body && l == labels,
                PluginAction::GitHubCommentIssue { owner, repo, issue_number, body } => r
                    matches Ok(GitHubRequest::CreateComment { owner: o, repo: rp, number, body: b })
                    && o == owner && rp == repo && number == issue_number && b == body,
                PluginAction::GitHubCloseIssue { owner, repo, issue_number } => r matches Ok(
                    GitHubRequest::CloseIssue { owner: o, repo: rp, number },
                ) && o == owner && rp == repo && number == issue_number,
                PluginAction::GitHubCreatePr { owner, repo, title, body, head, base } => r
                    matches Ok(GitHubRequest::CreatePr { owner: o, repo: rp, title: t, body: b, head: h, base: ba })
                    && o == owner && rp == repo && t == title && b == body && h == head && ba
                    == base,
                PluginAction::GitHubCommentPr { owner, repo, pr_number, body } => r matches Ok(
                    GitHubRequest::CreateComment { owner: o, repo: rp, number, body: b },
                ) && o == owner && rp == repo && number == pr_number && b == body,
                PluginAction::GitHubMergePr { owner, repo, pr_number } => r matches Ok(
                    GitHubRequest::MergePr { owner: o, repo: rp, number },
                ) && o == owner && rp == repo && number == pr_number,
                PluginAction::GitHubAddLabel { owner, repo, issue_number, label } => r matches Ok(
                    GitHubRequest::AddLabel { owner: o, repo: rp, number, label: l },
                ) && o == owner && rp == repo && number == issue_number && l == label,
                _ => r matches Err(e) && e is ActionFailed,
            },
    {
        if !self.initialized {
            return Err(PluginError::InitializationFailed(String::from_str(
                "Client not initialized",
            )));
        }
        match action {
            PluginAction::GitHubCreateIssue { owner, repo, title, body, labels } => Ok(
                GitHubRequest::CreateIssue { owner, repo, title, body, labels },
            ),
            PluginAction::GitHubCommentIssue { owner, repo, issue_number, body } => Ok(
                GitHubRequest::CreateComment { owner, repo, number: issue_number, body },
            ),
            PluginAction::GitHubCloseIssue { owner, repo, issue_number } => Ok(
                GitHubRequest::CloseIssue { owner, repo, number: issue_number },
            ),
            PluginAction::GitHubCreatePr { owner, repo, title, body, head, base } => Ok(
                GitHubRequest::CreatePr { owner, repo, title, body, head, base },
            ),
            PluginAction::GitHubCommentPr { owner, repo, pr_number, body } => Ok(
                GitHubRequest::CreateComment { owner, repo, number: pr_number, body },
            ),
            PluginAction::GitHubMergePr { owner, repo, pr_number } => Ok(
                GitHubRequest::MergePr { owner, repo, number: pr_number },
            ),
            PluginAction::GitHubAddLabel { owner, repo, issue_number, label } => Ok(
                GitHubRequest::AddLabel { owner, repo, number: issue_number, label },
            ),
            _ => Err(
                PluginError::ActionFailed(
                    String::from_str("Action not supported by GitHub plugin"),
                ),
            ),
        }
    }

    /// Fold a health probe's outcome into a status report.
    pub fn health_check(&self, probe: Result<(), String>) -> (r: PluginHealthStatus)
        ensures
            !self.config.enabled ==> !r.healthy,
            (self.config.enabled && !self.initialized) ==> !r.healthy,
            (self.config.enabled && self.initialized && probe is Err) ==> !r.healthy,
            (self.config.enabled && self.initialized && probe is Ok) ==> r.healthy,
    {
        if !self.config.enabled {
            return PluginHealthStatus::unhealthy("Plugin is disabled");
        }
        if !self.initialized {
            return PluginHealthStatus::unhealthy("Plugin not initialized");
        }
        match probe {
            Ok(()) => PluginHealthStatus::healthy(),
            Err(e) => PluginHealthStatus::unhealthy(e.as_str()),
        }
    }

    /// Build the action result for a created issue or pull request: its
    /// number (as decimal text) and its page, under those names.
    pub fn created_result(&self, number: u64, url: &str) -> (r: ActionResult)
        ensures
            r.success,
            r.error is None,
            r.data matches Some(d) && (d matches crate::json::JsonValue::Obj(e) && {
                &&& (crate::json::lookup(e@, "number"@) matches Some(
                    crate::json::JsonValue::Num(t),
                ) && t@ == crate::strutil::dec_str(number as int))
                &&& (crate::json::lookup(e@, "url"@) matches Some(crate::json::JsonValue::Str(u))
                    && u@ == url@)
            }),
    {
        proof {
            broadcast use vstd::string::group_string_axioms;

            reveal_strlit("number");
            reveal_strlit("url");
            assert("number"@.len() == 6);
            assert("url"@.len() == 3);
            assert("number"@ != "url"@);
        }
        let mut entries: Vec<(String, crate::json::JsonValue)> = Vec::new();
        entries.push(
            (
                String::from_str("number"),
                crate::json::JsonValue::Num(crate::strutil::u64_to_string(number)),
            ),
        );
        entries.push(
            (String::from_str("url"), crate::json::JsonValue::Str(String::from_str(url))),
        );
        proof {
            let e = entries@;
            assert(crate::json::lookup(e, "number"@) == Some(e[0].1));
            assert(e.drop_first() =~= seq![e[1]]);
            assert(crate::json::lookup(e.drop_first(), "url"@) == Some(e[1].1));
            assert(crate::json::lookup(e, "url"@) == Some(e[1].1));
        }
        ActionResult::success(Some(crate::json::JsonValue::Obj(entries)))
    }

    /// Build the action result for a created comment: its identifier
    /// (as decimal text) and its page, under those names.
    pub fn comment_result(&self, id: u64, url: &str) -> (r: ActionResult)
        ensures
            r.success,
            r.error is None,
            r.data matches Some(d) && (d matches crate::json::JsonValue::Obj(e) && {
                &&& (crate::json::lookup(e@, "id"@) matches Some(crate::json::JsonValue::Num(t))
                    && t@ == crate::strutil::dec_str(id as int))
                &&& (crate::json::lookup(e@, "url"@) matches Some(crate::json::JsonValue::Str(u))
                    && u@ == url@)
            }),
    {
        proof {
            broadcast use vstd::string::group_string_axioms;

            reveal_strlit("id");
            reveal_strlit("url");
            assert("id"@.len() == 2);
            assert("url"@.len() == 3);
            assert("id"@ != "url"@);
        }
        let mut entries: Vec<(String, crate::json::JsonValue)> = Vec::new();
        entries.push(
            (
                String::from_str("id"),
                crate::json::JsonValue::Num(crate::strutil::u64_to_string(id)),
            ),
        );
        entries.push(
            (String::from_str("url"), crate::json::JsonValue::Str(String::from_str(url))),
        );
        proof {
            let e = entries@;
            assert(crate::json::lookup(e, "id"@) == Some(e[0].1));
            assert(e.drop_first() =~= seq![e[1]]);
            assert(crate::json::lookup(e.drop_first(), "url"@) == Some(e[1].1));
            assert(crate::json::lookup(e, "url"@) == Some(e[1].1));
        }
        ActionResult::success(Some(crate::json::JsonValue::Obj(entries)))
    }
}

} // verus!
