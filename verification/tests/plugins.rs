use autonav::{
    ActionResult, FileWatcherConfig, FileWatcherPlugin, FsChange, FsChangeKind, GitHubConfig,
    GitHubPlugin, IssueSummary, JsonValue, ListenOutcome, PluginAction, PluginError, PluginEvent,
    PluginHealthStatus, PluginManager, PrSummary, SlackConfig, SlackPlugin, build_glob_set,
    glob_set_matches, is_sensitive_path,
};

const HOME: &str = "/home/user";

#[test]
fn test_plugin_event_names() {
    let event = PluginEvent::SlackMessage {
        channel: "general".to_string(),
        user: "user1".to_string(),
        text: "hello".to_string(),
        ts: "123".to_string(),
        thread_ts: None,
    };
    assert_eq!(event.plugin_name(), "slack");

    let event = PluginEvent::GitHubIssue {
        owner: "owner".to_string(),
        repo: "repo".to_string(),
        number: 1,
        title: "title".to_string(),
        body: None,
        action: "opened".to_string(),
    };
    assert_eq!(event.plugin_name(), "github");
}

#[test]
fn test_plugin_action_names() {
    let action = PluginAction::FileWatcherRefresh;
    assert_eq!(action.plugin_name(), "file_watcher");
    let action = PluginAction::GitHubMergePr {
        owner: "o".to_string(),
        repo: "r".to_string(),
        pr_number: 7,
    };
    assert_eq!(action.plugin_name(), "github");
}

#[test]
fn test_action_result() {
    let success = ActionResult::success(Some(JsonValue::Num("123".to_string())));
    assert!(success.success);
    assert!(success.data.is_some());

    let failure = ActionResult::failure("Something went wrong");
    assert!(!failure.success);
    assert_eq!(failure.error, Some("Something went wrong".to_string()));
}

#[test]
fn test_health_status() {
    let healthy = PluginHealthStatus::healthy();
    assert!(healthy.healthy);

    let unhealthy = PluginHealthStatus::unhealthy("Connection failed");
    assert!(!unhealthy.healthy);
    assert_eq!(unhealthy.message, Some("Connection failed".to_string()));
}

#[test]
fn test_new_manager() {
    let manager = PluginManager::new();
    assert!(manager.plugin_names().is_empty());
}

#[test]
fn test_listen_all_empty() {
    let manager = PluginManager::new();
    let events = manager.listen_all(Vec::new());
    assert!(events.is_empty());
}

fn slack_event(text: &str) -> PluginEvent {
    PluginEvent::SlackMessage {
        channel: "general".to_string(),
        user: "u".to_string(),
        text: text.to_string(),
        ts: "1".to_string(),
        thread_ts: None,
    }
}

fn event_text(e: &PluginEvent) -> String {
    match e {
        PluginEvent::SlackMessage { text, .. } => text.clone(),
        _ => String::new(),
    }
}

#[test]
fn test_listen_all_isolates_failure() {
    // three plugins: the second one's listen round fails, the union of
    // the first and third plugins' events still comes back
    let manager = PluginManager::new();
    let outcomes = vec![
        ListenOutcome {
            plugin: "slack".to_string(),
            result: Ok(vec![slack_event("a"), slack_event("b")]),
        },
        ListenOutcome {
            plugin: "github".to_string(),
            result: Err(PluginError::NetworkError("boom".to_string())),
        },
        ListenOutcome { plugin: "file_watcher".to_string(), result: Ok(vec![slack_event("c")]) },
    ];
    let events = manager.listen_all(outcomes);
    let texts: Vec<String> = events.iter().map(event_text).collect();
    assert_eq!(texts, vec!["a".to_string(), "b".to_string(), "c".to_string()]);
}

#[test]
fn test_manager_register_and_route() {
    let mut manager = PluginManager::new();
    manager.register("slack".to_string(), true, Ok(())).unwrap();
    manager.register("github".to_string(), false, Ok(())).unwrap();
    assert_eq!(manager.plugin_names(), vec!["slack".to_string(), "github".to_string()]);
    assert_eq!(manager.enabled_plugins(), vec!["slack".to_string()]);

    let send = PluginAction::SlackSendMessage {
        channel: "general".to_string(),
        text: "hi".to_string(),
        thread_ts: None,
    };
    assert_eq!(manager.execute(&send).unwrap(), 0);

    let merge = PluginAction::GitHubMergePr {
        owner: "o".to_string(),
        repo: "r".to_string(),
        pr_number: 1,
    };
    assert!(matches!(manager.execute(&merge), Err(PluginError::NotEnabled(_))));

    let refresh = PluginAction::FileWatcherRefresh;
    assert!(matches!(manager.execute(&refresh), Err(PluginError::NotFound(_))));
}

#[test]
fn test_manager_health_check_all() {
    let mut manager = PluginManager::new();
    manager.register("slack".to_string(), true, Ok(())).unwrap();
    manager.register("github".to_string(), false, Ok(())).unwrap();
    let outcomes = vec![("github".to_string(), PluginHealthStatus::healthy())];
    let report = manager.health_check_all(outcomes);
    assert_eq!(report.len(), 2);
    // the plugin without a reported probe is unhealthy, not dropped
    assert_eq!(report[0].0, "slack");
    assert!(!report[0].1.healthy);
    assert_eq!(report[0].1.message, Some("no health report".to_string()));
    // the reported status lands beside its name
    assert_eq!(report[1].0, "github");
    assert!(report[1].1.healthy);
}

#[test]
fn test_manager_register_failure_keeps_registry() {
    let mut manager = PluginManager::new();
    let r = manager.register(
        "slack".to_string(),
        true,
        Err(PluginError::AuthError("no token".to_string())),
    );
    assert!(matches!(r, Err(PluginError::InitializationFailed(_))));
    assert!(manager.plugin_names().is_empty());
}

#[test]
fn test_manager_shutdown_twice() {
    // shutting down twice must not raise and leaves the same state
    let mut manager = PluginManager::new();
    manager.register("slack".to_string(), true, Ok(())).unwrap();
    manager.shutdown();
    let names_once = manager.plugin_names();
    manager.shutdown();
    assert_eq!(manager.plugin_names(), names_once);
    // and shutting down an empty registry is fine too
    let mut empty = PluginManager::new();
    empty.shutdown();
    empty.shutdown();
    assert!(empty.plugin_names().is_empty());
}

#[test]
fn slack_test_new_plugin() {
    let config = SlackConfig::default();
    let plugin = SlackPlugin::new(config);
    assert_eq!(plugin.name(), "slack");
    assert!(!plugin.is_enabled());
    assert!(plugin.bot_user_id.is_none());
}

#[test]
fn slack_test_enabled_plugin() {
    let config = SlackConfig { enabled: true, ..Default::default() };
    let plugin = SlackPlugin::new(config);
    assert!(plugin.is_enabled());
}

#[test]
fn test_slack_rate_limited() {
    let plugin = SlackPlugin::new(SlackConfig::default());
    assert!(plugin.interpret_api_response(true, None).is_ok());
    assert!(matches!(
        plugin.interpret_api_response(false, Some("ratelimited".to_string())),
        Err(PluginError::RateLimited)
    ));
    match plugin.interpret_api_response(false, Some("channel_not_found".to_string())) {
        Err(PluginError::ActionFailed(m)) => assert_eq!(m, "channel_not_found"),
        other => panic!("unexpected: {:?}", other),
    }
    assert!(matches!(
        plugin.interpret_api_response(false, None),
        Err(PluginError::ActionFailed(_))
    ));
}

#[test]
fn test_slack_request_for_action() {
    let plugin = SlackPlugin::new(SlackConfig::default());
    let r = plugin
        .request_for_action(PluginAction::SlackSendMessage {
            channel: "general".to_string(),
            text: "hi".to_string(),
            thread_ts: None,
        })
        .unwrap();
    assert_eq!(r.endpoint(), "chat.postMessage");
    assert!(matches!(
        plugin.request_for_action(PluginAction::FileWatcherClear),
        Err(PluginError::ActionFailed(_))
    ));
}

#[test]
fn github_test_new_plugin() {
    let config = GitHubConfig::default();
    let plugin = GitHubPlugin::new(config);
    assert_eq!(plugin.name(), "github");
    assert!(!plugin.is_enabled());
}

#[test]
fn github_test_enabled_plugin() {
    let config = GitHubConfig {
        enabled: true,
        owner: "test".to_string(),
        repo: "repo".to_string(),
        ..Default::default()
    };
    let plugin = GitHubPlugin::new(config);
    assert!(plugin.is_enabled());
}

#[test]
fn test_github_events_from_poll() {
    let mut plugin = GitHubPlugin::new(GitHubConfig {
        enabled: true,
        owner: "octo".to_string(),
        repo: "demo".to_string(),
        watch_issues: true,
        watch_pull_requests: true,
        ..Default::default()
    });
    plugin.initialize(Ok(())).unwrap();
    assert_eq!(plugin.poll_plan(), (true, true));
    let events = plugin.events_from_poll(
        vec![IssueSummary { number: 4, title: "bug".to_string(), body: None }],
        vec![PrSummary { number: 9, title: None, body: Some("b".to_string()) }],
    );
    assert_eq!(events.len(), 2);
    match &events[0] {
        PluginEvent::GitHubIssue { owner, repo, number, title, action, .. } => {
            assert_eq!(owner, "octo");
            assert_eq!(repo, "demo");
            assert_eq!(*number, 4);
            assert_eq!(title, "bug");
            assert_eq!(action, "open");
        }
        other => panic!("unexpected: {:?}", other),
    }
    match &events[1] {
        PluginEvent::GitHubPullRequest { number, title, .. } => {
            assert_eq!(*number, 9);
            assert_eq!(title, "");
        }
        other => panic!("unexpected: {:?}", other),
    }
}

#[test]
fn test_github_uninitialized_execute() {
    let plugin = GitHubPlugin::new(GitHubConfig::default());
    let r = plugin.request_for_action(PluginAction::GitHubCloseIssue {
        owner: "o".to_string(),
        repo: "r".to_string(),
        issue_number: 3,
    });
    assert!(matches!(r, Err(PluginError::InitializationFailed(_))));
}

#[test]
fn file_watcher_test_new_plugin() {
    let config = FileWatcherConfig::default();
    let plugin = FileWatcherPlugin::new(config);
    assert_eq!(plugin.name(), "file_watcher");
    assert!(!plugin.is_enabled());
}

#[test]
fn test_sensitive_paths() {
    assert!(is_sensitive_path("/etc/passwd", HOME));
    assert!(is_sensitive_path("~/.ssh/id_rsa", HOME));
    assert!(is_sensitive_path("/root/.bashrc", HOME));
    assert!(!is_sensitive_path("/home/user/project", HOME));
    assert!(!is_sensitive_path("./src", HOME));
}

#[test]
fn test_build_globset() {
    let patterns = vec!["*.md".to_string(), "src/**/*.rs".to_string()];
    let globset = build_glob_set(&patterns).unwrap();
    assert!(glob_set_matches(&globset, "README.md"));
    assert!(glob_set_matches(&globset, "src/main.rs"));
    assert!(!glob_set_matches(&globset, "package.json"));
}

#[test]
fn test_listen_empty() {
    let config = FileWatcherConfig::default();
    let mut plugin = FileWatcherPlugin::new(config);
    let events = plugin.listen().unwrap();
    assert!(events.is_empty());
}

#[test]
fn test_listen_dedups_and_filters() {
    let config = FileWatcherConfig {
        enabled: true,
        paths: vec!["/home/user/project".to_string()],
        ignore_patterns: vec!["*.log".to_string()],
        ..Default::default()
    };
    let mut plugin = FileWatcherPlugin::new(config);
    plugin.initialize(HOME).unwrap();
    plugin.push_change(FsChange {
        kind: FsChangeKind::Created,
        paths: vec!["a.md".to_string(), "a.md".to_string(), "skip.log".to_string()],
    });
    plugin.push_change(FsChange { kind: FsChangeKind::Modified, paths: vec!["a.md".to_string()] });
    let events = plugin.listen().unwrap();
    assert_eq!(events.len(), 1);
    assert!(matches!(&events[0], PluginEvent::FileAdded { path } if path == "a.md"));
    // the buffer was drained
    assert!(plugin.listen().unwrap().is_empty());
}

#[test]
fn test_file_watcher_no_safe_paths() {
    let config = FileWatcherConfig {
        enabled: true,
        paths: vec!["/etc".to_string(), "~/.ssh".to_string()],
        ..Default::default()
    };
    let mut plugin = FileWatcherPlugin::new(config);
    assert!(matches!(plugin.initialize(HOME), Err(PluginError::ConfigError(_))));
}

#[test]
fn test_file_watcher_refresh() {
    let config = FileWatcherConfig {
        enabled: true,
        paths: vec!["/home/user/project".to_string(), "~/notes".to_string()],
        ..Default::default()
    };
    let mut plugin = FileWatcherPlugin::new(config);
    plugin.initialize(HOME).unwrap();
    plugin.push_change(FsChange { kind: FsChangeKind::Created, paths: vec!["a.md".to_string()] });
    let (result, rewire) = plugin.execute(PluginAction::FileWatcherRefresh, HOME).unwrap();
    assert!(result.success);
    // the buffered notifications are gone and the watch set is re-derived
    assert!(plugin.events.is_empty());
    assert!(plugin.initialized);
    assert_eq!(
        rewire,
        Some(vec!["/home/user/project".to_string(), "/home/user/notes".to_string()])
    );
}

#[test]
fn test_file_watcher_bad_pattern() {
    let config = FileWatcherConfig {
        enabled: true,
        paths: vec!["/home/user/project".to_string()],
        patterns: vec!["a[".to_string()],
        ..Default::default()
    };
    let mut plugin = FileWatcherPlugin::new(config);
    assert!(matches!(plugin.initialize(HOME), Err(PluginError::ConfigError(_))));
}

#[test]
fn test_file_watcher_shutdown_idempotent() {
    // shutting down a watcher that never initialized must not raise,
    // and a second shutdown leaves exactly what the first left
    let mut plugin = FileWatcherPlugin::new(FileWatcherConfig::default());
    plugin.shutdown().unwrap();
    plugin.shutdown().unwrap();
    assert!(!plugin.initialized);
    assert!(plugin.events.is_empty());
    assert!(plugin.include_patterns.is_none());
    assert!(plugin.ignore_patterns.is_none());
}
