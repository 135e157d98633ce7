use weather::config::{init_config, AppConfig, ConfigProvider, RealConfigProvider};
use weather::Error;

fn key(k: &str) -> Result<AppConfig, String> {
    Ok(AppConfig { openweather_api_key: k.to_string() })
}

#[test]
fn test_get_config() {
    let mut provider = RealConfigProvider::new();
    init_config(&mut provider, key("abc")).expect("initial config");
    let config = provider.get_config().unwrap();
    assert_eq!(config.openweather_api_key, "abc");
}

#[test]
fn init_config_env_file_not_found() {
    let mut provider = RealConfigProvider::new();
    let result = init_config(
        &mut provider,
        Err("The system cannot find the file specified. (os error 2)".to_string()),
    );
    match &result {
        Ok(value) => panic!("init config should be false, but it is {:?}", value),
        Err(err) => assert_eq!(
            err.to_string(),
            "Config error: The system cannot find the file specified. (os error 2)"
        ),
    }
    assert!(provider.get_config().is_err());
}

#[test]
fn init_config_env_file_not_loaded() {
    let mut provider = RealConfigProvider::new();
    let result = init_config(&mut provider, Err("missing field `openweather_api_key`".to_string()));
    match &result {
        Ok(value) => panic!("init config should be false, but it is {:?}", value),
        Err(err) => {
            assert_eq!(err.to_string(), "Config error: missing field `openweather_api_key`")
        }
    }
}

#[test]
fn get_config_config_not_loaded() {
    let provider = RealConfigProvider::new();
    let result = provider.get_config();
    match &result {
        Ok(value) => panic!("init config should be false, but it is {:?}", value.openweather_api_key),
        Err(err) => assert_eq!(err.to_string(), "Config error: Configuration not initialized"),
    }
}

#[test]
fn second_init_is_refused_and_first_key_stays() {
    let mut provider = RealConfigProvider::new();
    init_config(&mut provider, key("first")).expect("initial config");
    let again = init_config(&mut provider, key("second"));
    match again {
        Err(Error::ConfigError { message }) => {
            assert_eq!(message, "Configuration already initialized")
        }
        _ => panic!("a second load must be refused"),
    }
    let failed = init_config(&mut provider, Err("broken".to_string()));
    assert!(matches!(failed, Err(Error::ConfigError { .. })));
    assert_eq!(provider.get_config().unwrap().openweather_api_key, "first");
}

#[test]
fn failed_load_leaves_provider_empty_and_a_later_load_is_taken() {
    let mut provider = RealConfigProvider::new();
    assert!(init_config(&mut provider, Err("no file".to_string())).is_err());
    assert!(provider.get_config().is_err());
    assert!(init_config(&mut provider, key("later")).is_ok());
    assert_eq!(provider.get_config().unwrap().openweather_api_key, "later");
}

#[test]
fn network_error_text() {
    let err = Error::NetworkError { message: "timed out".to_string() };
    assert_eq!(err.to_string(), "Network error: timed out");
}
