use backend::config::{Config, EnvVars};
use backend::db::{
    build_state, directory_to_create, sqlite_file, sqlite_parent_dir, startup_pragmas,
    JournalMode, Synchronous, LLM_TIMEOUT_SECS, MAX_CONNECTIONS,
};

fn config_with_database(url: &str) -> Config {
    let env = EnvVars {
        app_host: None,
        app_port: None,
        database_url: Some(url.to_string()),
        llm_base_url: None,
        llm_chat_path: None,
    };
    Config::from_env(env).unwrap()
}

#[test]
fn sqlite_file_is_what_follows_the_scheme() {
    assert_eq!(sqlite_file("sqlite://data/app.db"), Some("data/app.db"));
    assert_eq!(sqlite_file("sqlite:///var/lib/app/app.db"), Some("/var/lib/app/app.db"));
}

#[test]
fn sqlite_file_stops_at_the_query() {
    assert_eq!(sqlite_file("sqlite://data/app.db?mode=rwc"), Some("data/app.db"));
    assert_eq!(sqlite_file("sqlite://a?b?c"), Some("a"));
}

#[test]
fn no_file_for_memory_empty_or_foreign_urls() {
    assert_eq!(sqlite_file("sqlite://:memory:"), None);
    assert_eq!(sqlite_file("sqlite://:memory:?cache=shared"), None);
    assert_eq!(sqlite_file("sqlite://"), None);
    assert_eq!(sqlite_file("sqlite://?mode=rwc"), None);
    assert_eq!(sqlite_file("postgres://localhost/app"), None);
    assert_eq!(sqlite_file("sqlite:data/app.db"), None);
    assert_eq!(sqlite_file(""), None);
}

#[test]
fn empty_or_missing_parent_needs_no_directory() {
    assert_eq!(directory_to_create(None), None);
    assert_eq!(directory_to_create(Some(String::new())), None);
    assert_eq!(directory_to_create(Some("data".to_string())), Some("data".to_string()));
}

#[test]
fn parent_dir_of_the_default_database() {
    assert_eq!(sqlite_parent_dir("sqlite://data/app.db"), Some("data".to_string()));
}

#[test]
fn parent_dir_of_nested_and_absolute_files() {
    assert_eq!(sqlite_parent_dir("sqlite://a/b/c.db?mode=rwc"), Some("a/b".to_string()));
    assert_eq!(sqlite_parent_dir("sqlite:///var/lib/app.db"), Some("/var/lib".to_string()));
}

#[test]
fn no_parent_dir_where_nothing_is_to_create() {
    assert_eq!(sqlite_parent_dir("sqlite://app.db"), None);
    assert_eq!(sqlite_parent_dir("sqlite://:memory:"), None);
    assert_eq!(sqlite_parent_dir("sqlite://"), None);
    assert_eq!(sqlite_parent_dir("mysql://host/db"), None);
}

#[test]
fn pragmas_in_order() {
    assert_eq!(
        startup_pragmas(),
        vec![
            "PRAGMA journal_mode=WAL;",
            "PRAGMA synchronous=NORMAL;",
            "PRAGMA foreign_keys=ON;",
        ]
    );
}

#[test]
fn plan_for_the_default_configuration() {
    let cfg = config_with_database("sqlite://data/app.db");
    let plan = build_state(cfg.clone());
    assert_eq!(plan.parent_dir, Some("data".to_string()));
    assert_eq!(plan.store.url, "sqlite://data/app.db");
    assert!(plan.store.create_if_missing);
    assert_eq!(plan.store.journal_mode, JournalMode::Wal);
    assert_eq!(plan.store.synchronous, Synchronous::Normal);
    assert!(plan.store.foreign_keys);
    assert_eq!(plan.store.max_connections, 5);
    assert_eq!(plan.pragmas, startup_pragmas());
    assert_eq!(plan.migrations_dir, "./migrations");
    assert_eq!(plan.llm_timeout_secs, 90);
    assert_eq!(plan.config, cfg);
}

#[test]
fn plan_for_an_in_memory_store_creates_no_directory() {
    let plan = build_state(config_with_database("sqlite://:memory:"));
    assert_eq!(plan.parent_dir, None);
    assert_eq!(plan.store.url, "sqlite://:memory:");
}

#[test]
fn pool_size_and_timeout() {
    assert_eq!(MAX_CONNECTIONS, 5);
    assert_eq!(LLM_TIMEOUT_SECS, 90);
}
