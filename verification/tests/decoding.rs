use autonav::{JsonValue, decode_plugin_config, decode_slack};

fn obj(entries: Vec<(&str, JsonValue)>) -> JsonValue {
    JsonValue::Obj(entries.into_iter().map(|(k, v)| (k.to_string(), v)).collect())
}

fn s(text: &str) -> JsonValue {
    JsonValue::Str(text.to_string())
}

#[test]
fn test_decode_slack_defaults() {
    let c = decode_slack(&obj(vec![])).unwrap();
    assert!(!c.enabled);
    assert_eq!(c.workspace, "");
    assert!(c.channels.is_empty());
    assert!(c.thread_notifications);
    assert!(c.token.is_none());
}

#[test]
fn test_decode_slack_fields() {
    let c = decode_slack(&obj(vec![
        ("enabled", JsonValue::Bool(true)),
        ("workspace", s("acme")),
        ("channels", JsonValue::Arr(vec![s("general"), s("eng")])),
        ("threadNotifications", JsonValue::Bool(false)),
        ("summaryFrequency", s("hourly")),
    ]))
    .unwrap();
    assert!(c.enabled);
    assert_eq!(c.workspace, "acme");
    assert_eq!(c.channels, vec!["general".to_string(), "eng".to_string()]);
    assert!(!c.thread_notifications);
    assert_eq!(c.summary_frequency, autonav::SummaryFrequency::Hourly);
}

#[test]
fn test_decode_slack_rejects_bad_types() {
    assert!(decode_slack(&obj(vec![("enabled", s("yes"))])).is_err());
    assert!(decode_slack(&obj(vec![("channels", s("general"))])).is_err());
    assert!(decode_slack(&JsonValue::Arr(vec![])).is_err());
}

#[test]
fn test_decode_plugin_config() {
    let doc = obj(vec![
        ("workspaces", JsonValue::Arr(vec![s("/home/user/project")])),
        ("slack", obj(vec![("enabled", JsonValue::Bool(true))])),
        ("github", JsonValue::Null),
        ("weather", obj(vec![("city", s("Reykjavik"))])),
    ]);
    let c = decode_plugin_config(doc).unwrap();
    assert_eq!(c.workspaces, vec!["/home/user/project".to_string()]);
    assert!(c.slack.as_ref().unwrap().enabled);
    assert!(c.github.is_none());
    assert!(c.email.is_none());
    assert_eq!(c.custom.len(), 1);
    assert_eq!(c.custom[0].0, "weather");
}

#[test]
fn test_decode_plugin_config_enabled_plugins() {
    let doc = obj(vec![
        ("slack", obj(vec![("enabled", JsonValue::Bool(true))])),
        ("github", obj(vec![("enabled", JsonValue::Bool(false))])),
    ]);
    let c = decode_plugin_config(doc).unwrap();
    assert_eq!(c.enabled_plugins(), vec!["slack".to_string()]);
}

#[test]
fn test_decode_plugin_config_bad_sub_record() {
    let doc = obj(vec![("slack", s("enabled"))]);
    assert!(decode_plugin_config(doc).is_err());
}

#[test]
fn test_default_plugin_config() {
    let config = autonav::PluginConfig::default();
    assert!(config.slack.is_none());
    assert!(config.github.is_none());
}

#[test]
fn test_enabled_plugins() {
    let mut config = autonav::PluginConfig::default();
    config.slack = Some(autonav::SlackConfig { enabled: true, ..Default::default() });
    config.github = Some(autonav::GitHubConfig { enabled: false, ..Default::default() });

    let enabled = config.enabled_plugins();
    assert_eq!(enabled, vec!["slack".to_string()]);
}
