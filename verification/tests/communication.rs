use autonav::{
    ConfidenceLevel, NavigatorConfig, NavigatorResponse, PackMetadata, Source,
    create_answer_question_prompt, create_navigator_system_prompt, is_compatible, is_valid_name,
    is_valid_source, parse_version, protocol_version, sanitize_path, validate_confidence,
    validate_kebab_case, validate_sources_exist,
};

#[test]
fn test_create_system_prompt() {
    let prompt = create_navigator_system_prompt("knowledge-base", None);
    assert!(prompt.contains("Navigator System Prompt"));
    assert!(prompt.contains("knowledge-base"));
    assert!(prompt.contains("Grounding Rules"));
}

#[test]
fn test_create_system_prompt_with_instructions() {
    let prompt = create_navigator_system_prompt("docs", Some("Focus on deployment topics only."));
    assert!(prompt.contains("Additional Instructions"));
    assert!(prompt.contains("Focus on deployment"));
}

#[test]
fn test_answer_question_prompt() {
    let prompt = create_answer_question_prompt("How do I deploy?");
    assert!(prompt.contains("How do I deploy?"));
    assert!(prompt.contains("submit_answer"));
}

#[test]
fn test_new_metadata() {
    let meta = PackMetadata::new("platform-engineering", "1.0.0");
    assert_eq!(meta.name, "platform-engineering");
    assert_eq!(meta.version, "1.0.0");
}

#[test]
fn test_default_config() {
    let config = NavigatorConfig::default();
    assert_eq!(config.version, "1.0.0");
    assert_eq!(config.knowledge_base_path, "knowledge-base");
    assert_eq!(config.instructions_path, "INSTRUCTIONS.md");
}

#[test]
fn test_new_config() {
    let config = NavigatorConfig::new("my-navigator");
    assert_eq!(config.name, "my-navigator");
}

#[test]
fn test_kebab_case_validation() {
    assert!(validate_kebab_case("my-navigator").is_ok());
    assert!(validate_kebab_case("nav").is_ok());
    assert!(validate_kebab_case("my-cool-nav-2").is_ok());
    assert!(validate_kebab_case("MyNavigator").is_err());
    assert!(validate_kebab_case("my_navigator").is_err());
    assert!(validate_kebab_case("123nav").is_err());
}

#[test]
fn test_is_valid_name() {
    assert!(is_valid_name("my-navigator"));
    assert!(is_valid_name("nav"));
    assert!(is_valid_name("my-cool-nav-2"));
    assert!(!is_valid_name("MyNavigator"));
    assert!(!is_valid_name("my_navigator"));
    assert!(!is_valid_name("123nav"));
    assert!(!is_valid_name(""));
}

#[test]
fn test_new_response() {
    let response = NavigatorResponse::new("How do I deploy?", "Run `make deploy`.", 850);
    assert_eq!(response.query, "How do I deploy?");
    assert_eq!(response.confidence, 850);
}

#[test]
fn test_with_source() {
    let response = NavigatorResponse::new("test", "answer", 900).with_source(
        "docs/deploy.md",
        "Deployment",
        "Describes deployment process",
    );
    assert_eq!(response.sources.len(), 1);
    assert_eq!(response.sources[0].file, "docs/deploy.md");
}

#[test]
fn test_confidence_threshold() {
    let response = NavigatorResponse::new("test", "answer", 750);
    assert!(response.meets_confidence(500));
    assert!(response.meets_confidence(750));
    assert!(!response.meets_confidence(800));
}

#[test]
fn test_confidence_levels() {
    assert_eq!(ConfidenceLevel::High.threshold(), 800);
    assert_eq!(ConfidenceLevel::Medium.threshold(), 500);
    assert_eq!(ConfidenceLevel::Low.threshold(), 200);
}

#[test]
fn test_confidence_level_from_str() {
    assert_eq!(ConfidenceLevel::from_str("high"), Some(ConfidenceLevel::High));
    assert_eq!(ConfidenceLevel::from_str("HIGH"), Some(ConfidenceLevel::High));
    assert_eq!(ConfidenceLevel::from_str("Medium"), Some(ConfidenceLevel::Medium));
    assert_eq!(ConfidenceLevel::from_str("low"), Some(ConfidenceLevel::Low));
    assert_eq!(ConfidenceLevel::from_str("none"), None);
}

#[test]
fn test_validate_confidence() {
    let response = NavigatorResponse::new("test", "answer", 750);
    assert!(validate_confidence(&response, 500).is_ok());
    assert!(validate_confidence(&response, 750).is_ok());
    assert!(validate_confidence(&response, 800).is_err());
}

#[test]
fn test_validate_sources_exist() {
    let existing = vec!["test.md".to_string(), "docs/guide.md".to_string()];
    let response = NavigatorResponse::new("test", "answer", 900).with_source(
        "test.md",
        "section",
        "relevant",
    );
    assert!(validate_sources_exist(&response, &existing).is_ok());
}

#[test]
fn test_validate_sources_reject_traversal() {
    // a traversal path is rejected even when the listing holds it
    let existing = vec!["../etc/passwd".to_string(), "/etc/passwd".to_string()];
    let up = NavigatorResponse::new("test", "answer", 900).with_source(
        "../etc/passwd",
        "section",
        "relevant",
    );
    assert!(validate_sources_exist(&up, &existing).is_err());
    let abs = NavigatorResponse::new("test", "answer", 900).with_source(
        "/etc/passwd",
        "section",
        "relevant",
    );
    assert!(validate_sources_exist(&abs, &existing).is_err());
}

#[test]
fn test_validate_sources_missing() {
    let existing = vec!["test.md".to_string()];
    let response = NavigatorResponse::new("test", "answer", 900).with_source(
        "nonexistent.md",
        "section",
        "relevant",
    );
    assert!(validate_sources_exist(&response, &existing).is_err());
}

#[test]
fn test_is_valid_source() {
    assert!(is_valid_source(&Source {
        file: "docs/test.md".to_string(),
        section: "section".to_string(),
        relevance: "relevant".to_string(),
    }));

    assert!(!is_valid_source(&Source {
        file: "".to_string(),
        section: "section".to_string(),
        relevance: "relevant".to_string(),
    }));

    assert!(!is_valid_source(&Source {
        file: "../etc/passwd".to_string(),
        section: "section".to_string(),
        relevance: "relevant".to_string(),
    }));

    assert!(!is_valid_source(&Source {
        file: "/etc/passwd".to_string(),
        section: "section".to_string(),
        relevance: "relevant".to_string(),
    }));
}

#[test]
fn test_sanitize_path() {
    assert_eq!(sanitize_path("docs/test.md"), Some("docs/test.md".to_string()));
    assert_eq!(sanitize_path("./docs/test.md"), Some("docs/test.md".to_string()));
    assert_eq!(sanitize_path("docs\\test.md"), Some("docs/test.md".to_string()));
    assert_eq!(sanitize_path("../etc/passwd"), None);
    assert_eq!(sanitize_path("/etc/passwd"), None);
}

#[test]
fn test_protocol_version_parses() {
    assert_eq!(protocol_version(), Some((1, 0, 0)));
}

#[test]
fn test_compatibility() {
    assert!(is_compatible("1.0.0"));
    assert!(is_compatible("1.1.0"));
    assert!(is_compatible("1.2.5"));
    assert!(!is_compatible("2.0.0"));
    assert!(!is_compatible("0.9.0"));
    assert!(!is_compatible("invalid"));
}

#[test]
fn test_parse_version_components() {
    assert_eq!(parse_version("2.14.7"), Some((2, 14, 7)));
    assert_eq!(parse_version("not-a-version"), None);
}
