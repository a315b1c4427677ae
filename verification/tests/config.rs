use dcr::config::{Config, ConfigError, DEFAULT_BASE_PATH, LISTEN_HOST};

fn some(text: &str) -> Option<String> {
    Some(text.to_string())
}

#[test]
fn complete_settings_are_accepted() {
    let config =
        Config::from_values(some("/api"), some("8080"), some("-rc1"), some("true"), some("log"))
            .unwrap();
    assert_eq!(config.base_path, "/api");
    assert_eq!(config.port, "8080");
    assert_eq!(config.stamp, "-rc1");
    assert_eq!(config.health, "true");
    assert_eq!(config.logger, "log");
}

#[test]
fn the_base_path_has_a_default() {
    let config = Config::from_values(None, some("80"), some(""), some(""), some("")).unwrap();
    assert_eq!(DEFAULT_BASE_PATH, "/dcr");
    assert_eq!(config.base_path, "/dcr");
}

#[test]
fn a_missing_port_is_reported() {
    let outcome = Config::from_values(some("/dcr"), None, some("s"), some("h"), some("l"));
    assert_eq!(outcome.unwrap_err(), ConfigError::MissingPort);
}

#[test]
fn a_missing_stamp_is_reported() {
    let outcome = Config::from_values(some("/dcr"), some("1"), None, some("h"), some("l"));
    assert_eq!(outcome.unwrap_err(), ConfigError::MissingStamp);
}

#[test]
fn a_missing_health_answer_is_reported() {
    let outcome = Config::from_values(some("/dcr"), some("1"), some("s"), None, some("l"));
    assert_eq!(outcome.unwrap_err(), ConfigError::MissingHealth);
}

#[test]
fn a_missing_logger_is_reported() {
    let outcome = Config::from_values(some("/dcr"), some("1"), some("s"), some("h"), None);
    assert_eq!(outcome.unwrap_err(), ConfigError::MissingLogger);
}

#[test]
fn the_first_missing_setting_is_the_one_reported() {
    assert_eq!(
        Config::from_values(None, None, None, None, None).unwrap_err(),
        ConfigError::MissingPort
    );
    assert_eq!(
        Config::from_values(None, some("1"), None, None, None).unwrap_err(),
        ConfigError::MissingStamp
    );
    assert_eq!(
        Config::from_values(None, some("1"), some("s"), None, None).unwrap_err(),
        ConfigError::MissingHealth
    );
}

#[test]
fn errors_have_messages() {
    assert_eq!(ConfigError::MissingPort.message(), "DCR_PORT must be set");
    assert_eq!(ConfigError::MissingStamp.message(), "DCR_STAMP must be set");
    assert_eq!(ConfigError::MissingHealth.message(), "DCR_HEALTH must be set");
    assert_eq!(ConfigError::MissingLogger.message(), "DCR_LOGGER must be set");
    assert_eq!(
        ConfigError::PathCollision.message(),
        "the base path must not be the debug path"
    );
}

#[test]
fn the_bind_address_is_host_and_port() {
    let config = Config::from_values(None, some("8080"), some(""), some(""), some("")).unwrap();
    assert_eq!(LISTEN_HOST, "127.0.0.1");
    assert_eq!(config.bind_address(), "127.0.0.1:8080");
}
