use autonav::{
    ClaudeAdapter, ContentBlock, FileInfo, Interview, JsonValue, ModelResponse, Navigator,
    PackInstaller, PluginStore, QueryOptions, ScanEntry, ScanResult, extract_text, format_source,
    get_plugin_config, join_messages, json_get, merge_json, parse_github_url, parse_timeout,
    run_query_script, scan_repository, self_config_tools, submit_answer_tool,
    suggest_knowledge_paths, update_plugin_config,
};

fn obj(entries: Vec<(&str, JsonValue)>) -> JsonValue {
    JsonValue::Obj(entries.into_iter().map(|(k, v)| (k.to_string(), v)).collect())
}

fn s(text: &str) -> JsonValue {
    JsonValue::Str(text.to_string())
}

#[test]
fn test_adapter_builder() {
    let adapter = ClaudeAdapter::new()
        .with_model("opus-4-20250514")
        .with_max_turns(5)
        .with_api_key("test-key");

    assert_eq!(adapter.model, "opus-4-20250514");
    assert_eq!(adapter.max_turns, 5);
    assert_eq!(adapter.api_key, Some("test-key".to_string()));
}

#[test]
fn test_extract_text() {
    let content = vec![ContentBlock::Text { text: "Hello, world!".to_string() }];
    assert_eq!(extract_text(&content), Some("Hello, world!".to_string()));

    let empty: Vec<ContentBlock> = vec![];
    assert_eq!(extract_text(&empty), None);
}

#[test]
fn test_submit_answer_tool() {
    let tool = submit_answer_tool();
    assert_eq!(tool.name, "submit_answer");
    assert!(json_get(&tool.input_schema, "properties").is_some());
}

#[test]
fn test_self_config_tools() {
    let tools = self_config_tools();
    assert_eq!(tools.len(), 2);
    assert_eq!(tools[0].name, "get_plugin_config");
    assert_eq!(tools[1].name, "update_plugin_config");
}

#[test]
fn test_merge_json() {
    let target = obj(vec![("a", JsonValue::Num("1".to_string())), (
        "b",
        JsonValue::Num("2".to_string()),
    )]);
    let source = obj(vec![("b", JsonValue::Num("3".to_string())), (
        "c",
        JsonValue::Num("4".to_string()),
    )]);
    let merged = merge_json(target, source);
    assert_eq!(json_get(&merged, "a"), Some(&JsonValue::Num("1".to_string())));
    assert_eq!(json_get(&merged, "b"), Some(&JsonValue::Num("3".to_string())));
    assert_eq!(json_get(&merged, "c"), Some(&JsonValue::Num("4".to_string())));
}

fn submit_response(confidence: Option<&str>) -> ModelResponse {
    let mut fields = vec![
        ("answer", s("Run `make deploy`.")),
        (
            "sources",
            JsonValue::Arr(vec![obj(vec![
                ("file", s("docs/deploy.md")),
                ("section", s("Quick Start")),
                ("relevance", s("Contains the deploy command")),
            ])]),
        ),
    ];
    if let Some(c) = confidence {
        fields.push(("confidence", JsonValue::Num(c.to_string())));
    }
    ModelResponse {
        content: vec![ContentBlock::ToolUse {
            id: "toolu_1".to_string(),
            name: "submit_answer".to_string(),
            input: obj(fields),
        }],
        stop_reason: Some("tool_use".to_string()),
    }
}

#[test]
fn test_submit_answer_ends_first_turn() {
    // a well-formed submit-answer call ends the loop on that turn with
    // exactly the submitted answer
    let mut store = PluginStore { doc: None };
    let (result, calls) = run_query_script(10, "How do I deploy?", vec![
        submit_response(Some("0.85")),
    ], &mut store);
    assert_eq!(calls, 1);
    let answer = result.unwrap();
    assert_eq!(answer.answer, "Run `make deploy`.");
    assert_eq!(answer.confidence, 850);
    assert_eq!(answer.query, "How do I deploy?");
    assert_eq!(answer.sources.len(), 1);
    assert_eq!(answer.sources[0].file, "docs/deploy.md");
}

#[test]
fn test_submit_answer_default_confidence() {
    let mut store = PluginStore { doc: None };
    let (result, _calls) = run_query_script(3, "q", vec![submit_response(None)], &mut store);
    assert_eq!(result.unwrap().confidence, 500);
}

#[test]
fn test_turn_budget_exhausted() {
    // a model that always stops for tool use and never submits an
    // answer is called exactly N times and the query then fails
    let budget = 4;
    let script: Vec<ModelResponse> = (0..budget)
        .map(|_| ModelResponse {
            content: vec![ContentBlock::Text { text: "thinking".to_string() }],
            stop_reason: Some("tool_use".to_string()),
        })
        .collect();
    let mut store = PluginStore { doc: None };
    let (result, calls) = run_query_script(budget as u32, "q", script, &mut store);
    assert_eq!(calls, budget);
    assert!(result.is_err());
}

#[test]
fn test_submit_alongside_config_call() {
    // a turn that reads configuration and then submits still ends the
    // loop that turn, with the submitted answer
    let mut store = PluginStore {
        doc: Some(obj(vec![("slack", obj(vec![("enabled", JsonValue::Bool(true))]))])),
    };
    let mut content = vec![ContentBlock::ToolUse {
        id: "toolu_0".to_string(),
        name: "get_plugin_config".to_string(),
        input: obj(vec![("plugin", s("all"))]),
    }];
    content.extend(submit_response(Some("0.7")).content);
    let script = vec![ModelResponse { content, stop_reason: Some("tool_use".to_string()) }];
    let (result, calls) = run_query_script(5, "q", script, &mut store);
    assert_eq!(calls, 1);
    let answer = result.unwrap();
    assert_eq!(answer.answer, "Run `make deploy`.");
    assert_eq!(answer.confidence, 700);
}

#[test]
fn test_config_calls_without_submit_exhaust_budget() {
    // a model that only updates its configuration is called exactly
    // once per budgeted turn, the updates land, and the query fails
    let mut store = PluginStore { doc: Some(obj(vec![])) };
    let turn = || ModelResponse {
        content: vec![ContentBlock::ToolUse {
            id: "toolu_0".to_string(),
            name: "update_plugin_config".to_string(),
            input: obj(vec![
                ("plugin", s("slack")),
                ("updates", obj(vec![("enabled", JsonValue::Bool(true))])),
                ("reason", s("turn the channel on")),
            ]),
        }],
        stop_reason: Some("tool_use".to_string()),
    };
    let script = vec![turn(), turn(), turn()];
    let (result, calls) = run_query_script(3, "q", script, &mut store);
    assert_eq!(calls, 3);
    assert!(result.is_err());
    let doc = store.doc.as_ref().unwrap();
    let slack = json_get(doc, "slack").unwrap();
    assert_eq!(json_get(slack, "enabled"), Some(&JsonValue::Bool(true)));
}

#[test]
fn test_submit_in_a_later_turn() {
    // a turn that only ran its tools keeps the loop going; the submit
    // in the next turn still ends the loop that turn
    let mut store = PluginStore { doc: Some(obj(vec![])) };
    let first_turn = ModelResponse {
        content: vec![ContentBlock::ToolUse {
            id: "toolu_0".to_string(),
            name: "get_plugin_config".to_string(),
            input: obj(vec![("plugin", s("all"))]),
        }],
        stop_reason: Some("tool_use".to_string()),
    };
    let (result, calls) =
        run_query_script(5, "q", vec![first_turn, submit_response(Some("0.6"))], &mut store);
    assert_eq!(calls, 2);
    let answer = result.unwrap();
    assert_eq!(answer.answer, "Run `make deploy`.");
    assert_eq!(answer.confidence, 600);
}

#[test]
fn test_unknown_tool_fails_the_query() {
    let script = vec![ModelResponse {
        content: vec![ContentBlock::ToolUse {
            id: "toolu_0".to_string(),
            name: "launch_rockets".to_string(),
            input: obj(vec![]),
        }],
        stop_reason: Some("tool_use".to_string()),
    }];
    let mut store = PluginStore { doc: None };
    let (result, calls) = run_query_script(5, "q", script, &mut store);
    assert_eq!(calls, 1);
    assert!(result.is_err());
}

#[test]
fn test_end_turn_fallback_answer() {
    let script = vec![ModelResponse {
        content: vec![ContentBlock::Text { text: "plain text answer".to_string() }],
        stop_reason: Some("end_turn".to_string()),
    }];
    let mut store = PluginStore { doc: None };
    let (result, calls) = run_query_script(5, "q", script, &mut store);
    assert_eq!(calls, 1);
    let answer = result.unwrap();
    assert_eq!(answer.answer, "plain text answer");
    assert_eq!(answer.confidence, 500);
    assert!(answer.sources.is_empty());
}

#[test]
fn test_unexpected_stop_reason() {
    let script = vec![ModelResponse {
        content: vec![],
        stop_reason: Some("max_tokens".to_string()),
    }];
    let mut store = PluginStore { doc: None };
    let (result, calls) = run_query_script(5, "q", script, &mut store);
    assert_eq!(calls, 1);
    assert!(result.is_err());
}

#[test]
fn test_missing_answer_field_is_hard_error() {
    let script = vec![ModelResponse {
        content: vec![ContentBlock::ToolUse {
            id: "toolu_1".to_string(),
            name: "submit_answer".to_string(),
            input: obj(vec![("confidence", JsonValue::Num("0.9".to_string()))]),
        }],
        stop_reason: Some("tool_use".to_string()),
    }];
    let mut store = PluginStore { doc: None };
    let (result, _calls) = run_query_script(5, "q", script, &mut store);
    assert!(result.is_err());
}

#[test]
fn test_config_merge_scenario() {
    // persisted {enabled:false, channels:["general"]} merged with
    // {enabled:true} keeps channels untouched
    let mut store = PluginStore {
        doc: Some(obj(vec![(
            "slack",
            obj(vec![
                ("enabled", JsonValue::Bool(false)),
                ("channels", JsonValue::Arr(vec![s("general")])),
            ]),
        )])),
    };
    let input = obj(vec![
        ("plugin", s("slack")),
        ("updates", obj(vec![("enabled", JsonValue::Bool(true))])),
        ("reason", s("the user asked for live updates")),
    ]);
    let out = update_plugin_config(input, &mut store).unwrap();
    assert_eq!(json_get(&out, "success"), Some(&JsonValue::Bool(true)));

    let doc = store.doc.as_ref().unwrap();
    let slack = json_get(doc, "slack").unwrap();
    assert_eq!(json_get(slack, "enabled"), Some(&JsonValue::Bool(true)));
    assert_eq!(json_get(slack, "channels"), Some(&JsonValue::Arr(vec![s("general")])));
}

#[test]
fn test_update_requires_reason() {
    let mut store = PluginStore { doc: Some(obj(vec![])) };
    let input = obj(vec![
        ("plugin", s("slack")),
        ("updates", obj(vec![("enabled", JsonValue::Bool(true))])),
    ]);
    assert!(update_plugin_config(input, &mut store).is_err());
    // the document is untouched by the failed update
    assert_eq!(store.doc, Some(obj(vec![])));
}

#[test]
fn test_update_unknown_plugin() {
    let mut store = PluginStore { doc: Some(obj(vec![])) };
    let input = obj(vec![
        ("plugin", s("telegraph")),
        ("updates", obj(vec![])),
        ("reason", s("testing")),
    ]);
    assert!(update_plugin_config(input, &mut store).is_err());
}

#[test]
fn test_config_tools_need_a_store() {
    // without a plugin-configuration path both operations fail typed
    let mut store = PluginStore { doc: None };
    let get_input = obj(vec![("plugin", s("all"))]);
    assert!(get_plugin_config(&get_input, &store).is_err());
    let upd_input = obj(vec![("plugin", s("slack")), ("updates", obj(vec![]))]);
    assert!(update_plugin_config(upd_input, &mut store).is_err());
}

#[test]
fn test_get_plugin_config_all() {
    let store = PluginStore {
        doc: Some(obj(vec![("slack", obj(vec![("enabled", JsonValue::Bool(true))]))])),
    };
    let out = get_plugin_config(&obj(vec![("plugin", s("all"))]), &store).unwrap();
    assert_eq!(json_get(&out, "success"), Some(&JsonValue::Bool(true)));
    let config = json_get(&out, "config").unwrap();
    assert_eq!(
        json_get(config, "slack"),
        Some(&obj(vec![("enabled", JsonValue::Bool(true))]))
    );
    // a named plugin answers its own sub-record, an absent one null
    let sub = get_plugin_config(&obj(vec![("plugin", s("slack"))]), &store).unwrap();
    assert_eq!(json_get(&sub, "config"), Some(&obj(vec![("enabled", JsonValue::Bool(true))])));
    let absent = get_plugin_config(&obj(vec![("plugin", s("github"))]), &store).unwrap();
    assert_eq!(json_get(&absent, "config"), Some(&JsonValue::Null));
    // and a missing plugin field is a typed error
    assert!(get_plugin_config(&obj(vec![]), &store).is_err());
}

#[test]
fn test_parse_timeout() {
    assert_eq!(parse_timeout("30s"), Some(30_000));
    assert_eq!(parse_timeout("1m"), Some(60_000));
    assert_eq!(parse_timeout("1m30s"), Some(90_000));
    assert_eq!(parse_timeout("2h"), Some(7_200_000));
    assert_eq!(parse_timeout("1000"), Some(1000));
    assert_eq!(parse_timeout("invalid"), None);
}

#[test]
fn test_query_options_builder() {
    let options = QueryOptions::new()
        .with_timeout(30_000)
        .with_confidence(autonav::ConfidenceLevel::High)
        .validate_sources()
        .verbose();

    assert_eq!(options.timeout_ms, Some(30_000));
    assert_eq!(options.confidence_threshold, Some(800));
    assert!(options.validate_sources);
    assert!(options.verbose);
}

#[test]
fn test_join_messages() {
    let msgs = vec!["first".to_string(), "second".to_string()];
    assert_eq!(join_messages(&msgs), "first\n\nsecond");
    assert_eq!(join_messages(&Vec::new()), "");
}

#[test]
fn test_parse_github_url_https() {
    let url = "https://github.com/owner/repo/tree/main/packs/my-pack";
    let parsed = parse_github_url(url).unwrap();
    assert_eq!(parsed.owner, "owner");
    assert_eq!(parsed.repo, "repo");
    assert_eq!(parsed.branch, Some("main".to_string()));
    assert_eq!(parsed.path, "packs/my-pack");
}

#[test]
fn test_parse_github_url_shorthand() {
    let url = "github:owner/repo/packs/my-pack";
    let parsed = parse_github_url(url).unwrap();
    assert_eq!(parsed.owner, "owner");
    assert_eq!(parsed.repo, "repo");
    assert_eq!(parsed.branch, None);
    assert_eq!(parsed.path, "packs/my-pack");
}

#[test]
fn test_parse_github_url_shorthand_with_version() {
    let url = "github:owner/repo/packs/my-pack@v1.0.0";
    let parsed = parse_github_url(url).unwrap();
    assert_eq!(parsed.owner, "owner");
    assert_eq!(parsed.repo, "repo");
    assert_eq!(parsed.branch, Some("v1.0.0".to_string()));
    assert_eq!(parsed.path, "packs/my-pack");
}

#[test]
fn test_parse_github_url_ssh() {
    let url = "git@github.com:owner/repo/packs/my-pack";
    let parsed = parse_github_url(url).unwrap();
    assert_eq!(parsed.owner, "owner");
    assert_eq!(parsed.repo, "repo");
    assert_eq!(parsed.path, "packs/my-pack");
}

#[test]
fn test_parse_github_url_invalid() {
    assert!(parse_github_url("not-a-url").is_none());
    assert!(parse_github_url("https://gitlab.com/owner/repo").is_none());
}

#[test]
fn test_github_url_round_trip() {
    // rendering a parsed shorthand and parsing it again gives the same
    // owner, repo, path and branch back
    let url = "github:owner/repo/packs/my-pack@v1.0.0";
    let parsed = parse_github_url(url).unwrap();
    let text = autonav::format_github_shorthand(&parsed);
    assert_eq!(text, url);
    let again = parse_github_url(&text).unwrap();
    assert_eq!(again.owner, parsed.owner);
    assert_eq!(again.repo, parsed.repo);
    assert_eq!(again.path, parsed.path);
    assert_eq!(again.branch, parsed.branch);
}

#[test]
fn test_pack_urls() {
    let installer = PackInstaller::with_server("https://packs.example.org");
    assert_eq!(
        installer.pack_download_url("platform", Some("2.0.0")),
        "https://packs.example.org/packs/platform/2.0.0"
    );
    assert_eq!(
        installer.pack_download_url("platform", None),
        "https://packs.example.org/packs/platform/latest"
    );
    assert_eq!(
        installer.github_contents_url("o", "r", "packs/p", "main"),
        "https://api.github.com/repos/o/r/contents/packs/p?ref=main"
    );
}

fn entry(rel: &str, size: u64) -> ScanEntry {
    ScanEntry { path: format!("/repo/{}", rel), relative_path: rel.to_string(), size }
}

#[test]
fn test_scan_repository() {
    let entries = vec![
        entry("README.md", 6),
        entry("main.rs", 12),
        entry("docs/guide.md", 7),
        entry("node_modules/pkg/index.js", 999),
    ];
    let result = scan_repository(entries).unwrap();
    assert_eq!(result.total_files, 3);
    assert_eq!(result.markdown_files, 2);
    assert_eq!(result.total_size, 25);
}

#[test]
fn test_suggest_knowledge_paths() {
    let scan = ScanResult {
        files: vec![
            FileInfo {
                path: "docs/guide.md".to_string(),
                relative_path: "docs/guide.md".to_string(),
                size: 100,
                is_markdown: true,
            },
            FileInfo {
                path: "docs/api.md".to_string(),
                relative_path: "docs/api.md".to_string(),
                size: 200,
                is_markdown: true,
            },
        ],
        total_files: 2,
        total_size: 300,
        markdown_files: 2,
    };

    let suggestions = suggest_knowledge_paths(&scan);
    assert!(suggestions.contains(&"docs".to_string()));
}

#[test]
fn test_suggest_root_fallback() {
    let scan = ScanResult {
        files: vec![FileInfo {
            path: "README.md".to_string(),
            relative_path: "README.md".to_string(),
            size: 5,
            is_markdown: true,
        }],
        total_files: 1,
        total_size: 5,
        markdown_files: 1,
    };
    assert_eq!(suggest_knowledge_paths(&scan), vec![".".to_string()]);
}

#[test]
fn test_is_valid_navigator() {
    assert!(!Navigator::is_valid(&vec!["README.md".to_string()]));
    assert!(Navigator::is_valid(&vec!["README.md".to_string(), "config.json".to_string()]));
}

#[test]
fn test_format_source() {
    let line = format_source("docs/deploy.md", "Quick Start", "Contains the deploy command");
    assert_eq!(line, "  - docs/deploy.md (Quick Start)\n    Contains the deploy command");
}

#[test]
fn test_interview_channel_list() {
    let channels = Interview::parse_channel_list("general, eng , , ops");
    assert_eq!(channels, vec!["general".to_string(), "eng".to_string(), "ops".to_string()]);
}

#[test]
fn test_interview_choices() {
    assert_eq!(Interview::confidence_for_choice(0), Some(800));
    assert_eq!(Interview::confidence_for_choice(1), Some(500));
    assert_eq!(Interview::confidence_for_choice(2), Some(200));
    assert_eq!(Interview::confidence_for_choice(3), None);
    assert_eq!(Interview::schedule_for_choice(1), "weekly");
}
