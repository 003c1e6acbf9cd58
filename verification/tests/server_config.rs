use preflight::config::{
    parse_failure, parse_github_actor, parse_level, LogLevel, parse_linear_actor, token_from_file, token_source, Actor,
    Author, ClockConfig, Config, DatabaseConfig, GithubFilterRule, GithubSyncConfig,
    LinearFilterRule, LinearSyncConfig, LoggingConfig, ServerConfig, SyncConfig, TokenSource,
};

#[test]
fn test_validate_rejects_empty_github_rule() {
    let cfg = SyncConfig {
        github_token: "tok".into(),
        linear_token: "tok".into(),
        github: GithubSyncConfig {
            exclude_drafts_unless_authored_by_me: false,
            filters: vec![GithubFilterRule {
                repo: None,
                author: None,
                reviewer: None,
                reviewing_team: None,
                exclude_others_drafts: false,
                exclude_my_drafts: false,
            }],
        },
        github_token_path: None,
        linear_token_path: None,
        linear: LinearSyncConfig::default(),
    };
    let err = cfg.github.validate().unwrap_err();
    assert!(err.contains("sync.github.filters[0]"));
    assert!(err.contains("no conditions"));
}

#[test]
fn test_validate_rejects_empty_linear_rule() {
    let cfg = SyncConfig {
        github_token: "tok".into(),
        linear_token: "tok".into(),
        github: GithubSyncConfig::default(),
        linear: LinearSyncConfig {
            filters: vec![LinearFilterRule { team: None, assignee: None, creator: None, project_lead: None }],
        },
        github_token_path: None,
        linear_token_path: None,
    };
    let err = cfg.linear.validate().unwrap_err();
    assert!(err.contains("sync.linear.filters[0]"));
    assert!(err.contains("no conditions"));
}

#[test]
fn test_validate_empty_filter_list_is_ok() {
    let cfg = SyncConfig {
        github_token: "tok".into(),
        linear_token: "tok".into(),
        github_token_path: None,
        linear_token_path: None,
        github: GithubSyncConfig::default(),
        linear: LinearSyncConfig::default(),
    };
    assert!(cfg.github.validate().is_ok());
    assert!(cfg.linear.validate().is_ok());
}

#[test]
fn test_logging_config_default_values() {
    let cfg = LoggingConfig::default();
    assert_eq!(cfg.level, "info");
    assert_eq!(cfg.directory, "logs");
}

#[test]
fn test_parse_level_invalid_returns_error() {
    let result = parse_level("not-a-level");
    assert!(result.is_err());
    let err = result.unwrap_err();
    assert!(err.contains("not-a-level"), "error should mention the invalid level: {err}");
}

#[test]
fn test_parse_level_valid_values() {
    assert!(parse_level("trace").is_ok());
    assert!(parse_level("debug").is_ok());
    assert!(parse_level("info").is_ok());
    assert!(parse_level("warn").is_ok());
    assert!(parse_level("error").is_ok());
    assert!(parse_level("off").is_ok());
    assert!(parse_level("INFO").is_ok());
    assert!(parse_level("Debug").is_ok());
}

#[test]
fn github_rule_problem_names_the_first_bad_rule() {
    let good = GithubFilterRule { repo: Some("o/r".into()), ..GithubFilterRule::default() };
    let bad = GithubFilterRule::default();
    let cfg = GithubSyncConfig { exclude_drafts_unless_authored_by_me: false, filters: vec![good, bad] };
    let err = cfg.validate().unwrap_err();
    assert!(err.contains("sync.github.filters[1]"));
}

#[test]
fn github_rule_with_only_draft_flag_is_not_empty() {
    let rule = GithubFilterRule { exclude_my_drafts: true, ..GithubFilterRule::default() };
    assert!(!rule.is_empty());
    assert!(GithubFilterRule::default().is_empty());
}

#[test]
fn linear_rule_with_a_team_is_not_empty() {
    let rule = LinearFilterRule { team: Some("ENG".into()), ..LinearFilterRule::default() };
    assert!(!rule.is_empty());
    assert!(LinearFilterRule::default().is_empty());
}

#[test]
fn actors_parse_me_and_names() {
    assert!(matches!(parse_github_actor("@me"), Author::Me));
    assert!(matches!(parse_github_actor("octocat"), Author::Login(ref l) if l == "octocat"));
    assert!(matches!(parse_linear_actor("me"), Actor::Me));
    assert!(matches!(parse_linear_actor("@me"), Actor::Name(ref n) if n == "@me"));
    assert!(matches!(parse_linear_actor("Ada"), Actor::Name(ref n) if n == "Ada"));
}

#[test]
fn invalid_level_message_quotes_the_input() {
    let err = parse_level("loud").unwrap_err();
    assert!(err.starts_with("invalid log level \"loud\": "), "{err}");
}

fn server(cors_origins: Vec<String>) -> ServerConfig {
    ServerConfig {
        host: "127.0.0.1".into(),
        port: 0,
        depth_limit: None,
        complexity_limit: None,
        cors_origins,
        frontend_dist: None,
    }
}

/// The configuration of the sample file with the given GitHub filter rules.
fn config_with_github_rules(filters: Vec<GithubFilterRule>) -> Config {
    Config {
        database: DatabaseConfig { path: "/tmp/preflight.db".into() },
        clock: ClockConfig { timezone: "UTC".into(), day_start_hour: 8 },
        sync: SyncConfig {
            github_token: "tok".into(),
            linear_token: "tok".into(),
            github_token_path: None,
            linear_token_path: None,
            github: GithubSyncConfig { exclude_drafts_unless_authored_by_me: false, filters },
            linear: LinearSyncConfig::default(),
        },
        server: server(vec![]),
        logging: LoggingConfig::default(),
    }
}

#[test]
fn test_resolve_token_inline_when_no_path() {
    assert_eq!(token_source("tok", None), TokenSource::Inline("tok".into()));
    assert_eq!(token_source("tok", Some("")), TokenSource::Inline("tok".into()));
    assert_eq!(token_source("tok", Some("  ")), TokenSource::Inline("tok".into()));
}

#[test]
fn test_resolve_token_path_wins_and_trims() {
    // Path wins over an inline value, and the file's contents are trimmed.
    assert_eq!(
        token_source("inline-tok", Some("/run/secrets/github-token")),
        TokenSource::File("/run/secrets/github-token".into())
    );
    assert_eq!(token_from_file("  secret-token\n"), "secret-token");
}

#[test]
fn test_old_exclude_draft_key_rejected() {
    let err = parse_failure(
        "unknown field `exclude_draft`, expected one of `repo`, `author`, \
         `exclude_others_drafts`, `exclude_my_drafts`",
    );
    assert!(
        err.contains("exclude_others_drafts"),
        "error should mention the renamed key: {err}"
    );
    assert!(err.starts_with("failed to parse config: `exclude_draft` was renamed"), "{err}");
}

#[test]
fn test_at_me_author_parses_and_validates() {
    let rule = GithubFilterRule { author: Some("@me".into()), ..GithubFilterRule::default() };
    let cfg = config_with_github_rules(vec![rule]);
    assert!(cfg.validate().is_ok());
    assert_eq!(cfg.sync.github.filters[0].author.as_deref(), Some("@me"));
}

#[test]
fn test_bare_me_author_rejected() {
    let rule = GithubFilterRule { author: Some("me".into()), ..GithubFilterRule::default() };
    let err = config_with_github_rules(vec![rule]).validate().unwrap_err();
    assert!(err.contains("@me"), "error should direct to use @me: {err}");
}

#[test]
fn test_config_without_logging_section_uses_defaults() {
    let cfg = config_with_github_rules(vec![]);
    assert_eq!(cfg.logging.level, "info");
    assert_eq!(cfg.logging.directory, "logs");
}

#[test]
fn test_cors_origins_default_when_unset() {
    let origins = server(vec![]).allowed_origins();
    assert!(
        origins.contains(&"http://localhost:5173".to_string()),
        "default should allow the Vite dev origin: {origins:?}"
    );
    assert_eq!(origins.len(), 4);
}

#[test]
fn test_cors_origins_explicit_override() {
    assert_eq!(
        server(vec!["https://preflight.example.com".to_string()]).allowed_origins(),
        vec!["https://preflight.example.com".to_string()]
    );
}

#[test]
fn test_cors_origins_wildcard_parses() {
    assert_eq!(server(vec!["*".to_string()]).allowed_origins(), vec!["*".to_string()]);
}

#[test]
fn parse_level_names_the_filter() {
    assert_eq!(parse_level("trace"), Ok(LogLevel::Trace));
    assert_eq!(parse_level("Debug"), Ok(LogLevel::Debug));
    assert_eq!(parse_level("INFO"), Ok(LogLevel::Info));
    assert_eq!(parse_level("warn"), Ok(LogLevel::Warn));
    assert_eq!(parse_level("error"), Ok(LogLevel::Error));
    assert_eq!(parse_level(""), Ok(LogLevel::Error));
    assert_eq!(parse_level("off"), Ok(LogLevel::Off));
    assert_eq!(parse_level("0"), Ok(LogLevel::Off));
    assert_eq!(parse_level("+003"), Ok(LogLevel::Info));
    assert_eq!(parse_level("5"), Ok(LogLevel::Trace));
    assert!(parse_level("6").is_err());
}
