use blazer_auth::config::{AppConfig, ConfigError};

fn some(s: &str) -> Option<String> {
    Some(s.to_string())
}

#[test]
fn config_with_all_settings() {
    let c = AppConfig::new(some("0.0.0.0"), some("50051"), some("postgres://db"), some("k")).unwrap();
    assert_eq!(c.host, "0.0.0.0");
    assert_eq!(c.port, "50051");
    assert_eq!(c.database_url, "postgres://db");
    assert_eq!(c.secret_key, "k");
}

#[test]
fn config_reports_first_missing_setting() {
    assert_eq!(AppConfig::new(None, None, None, None).err(), Some(ConfigError::MissingHost));
    assert_eq!(AppConfig::new(some("h"), None, some("u"), some("k")).err(), Some(ConfigError::MissingPort));
    assert_eq!(AppConfig::new(some("h"), some("p"), None, some("k")).err(), Some(ConfigError::MissingDatabaseUrl));
    assert_eq!(AppConfig::new(some("h"), some("p"), some("u"), None).err(), Some(ConfigError::MissingSecretKey));
}
