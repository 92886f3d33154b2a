use binance_cli::config::{
    needs_config_file, require_credentials, AuthConfig, CREDENTIALS_REQUIRED, Config, CredentialSources, Credentials, DEFAULT_HOST, MISSING_CREDENTIALS,
    NO_CONFIG_DIR,
};
use binance_cli::errors::BinanceError;

fn no_sources() -> CredentialSources {
    CredentialSources { env_key: None, env_secret: None, file: Ok(AuthConfig::default()) }
}

#[test]
fn test_config_defaults() {
    let config = Config::default();
    assert_eq!(config.settings.output, "table");
    assert_eq!(config.settings.host, DEFAULT_HOST);
    assert!(config.auth.api_key.is_none());
}

#[test]
fn test_credentials_resolve_cli() {
    let creds = Credentials::resolve(Some("cli-key"), Some("cli-secret"), &no_sources()).unwrap();
    assert_eq!(creds.api_key, "cli-key");
    assert_eq!(creds.api_secret, "cli-secret");
}

#[test]
fn test_credentials_resolve_env() {
    let sources = CredentialSources {
        env_key: Some("env-key".to_string()),
        env_secret: Some("env-secret".to_string()),
        file: Ok(AuthConfig::default()),
    };
    let creds = Credentials::resolve(None, None, &sources).unwrap();
    assert_eq!(creds.api_key, "env-key");
    assert_eq!(creds.api_secret, "env-secret");
}

#[test]
fn test_credentials_resolve_none() {
    let res = Credentials::resolve(None, None, &no_sources());
    assert!(res.is_err());
}

#[test]
fn test_credentials_available() {
    assert!(Credentials::available(Some("k"), Some("s"), &no_sources()));
    assert!(!Credentials::available(None, None, &no_sources()));
}

#[test]
fn missing_credentials_error_lists_the_sources() {
    match Credentials::resolve(None, None, &no_sources()) {
        Err(BinanceError::Auth(m)) => {
            assert_eq!(m, MISSING_CREDENTIALS);
            assert!(m.contains("BINANCE_API_KEY"));
        }
        other => panic!("unexpected {:?}", other),
    }
}

#[test]
fn cli_credentials_win_over_env_and_broken_file() {
    let sources = CredentialSources {
        env_key: Some("env-key".to_string()),
        env_secret: Some("env-secret".to_string()),
        file: Err(BinanceError::Config("broken".to_string())),
    };
    let creds = Credentials::resolve(Some("a"), Some("b"), &sources).unwrap();
    assert_eq!(creds.api_key, "a");
    assert_eq!(creds.api_secret, "b");
}

#[test]
fn half_cli_pair_falls_back_to_env() {
    let sources = CredentialSources {
        env_key: Some("env-key".to_string()),
        env_secret: Some("env-secret".to_string()),
        file: Ok(AuthConfig::default()),
    };
    let creds = Credentials::resolve(Some("a"), None, &sources).unwrap();
    assert_eq!(creds.api_key, "env-key");
}

#[test]
fn config_file_is_third() {
    let sources = CredentialSources {
        env_key: Some("only-key".to_string()),
        env_secret: None,
        file: Ok(AuthConfig { api_key: Some("fk".to_string()), api_secret: Some("fs".to_string()) }),
    };
    let creds = Credentials::resolve(None, Some("s"), &sources).unwrap();
    assert_eq!(creds.api_key, "fk");
    assert_eq!(creds.api_secret, "fs");
}

#[test]
fn config_load_error_is_reported_when_reached() {
    let sources = CredentialSources {
        env_key: None,
        env_secret: None,
        file: Err(BinanceError::Config("Failed to parse config".to_string())),
    };
    assert_eq!(
        Credentials::resolve(None, None, &sources).unwrap_err(),
        BinanceError::Config("Failed to parse config".to_string())
    );
    assert!(!Credentials::available(None, None, &sources));
}

#[test]
fn config_dir_from_base() {
    assert_eq!(Config::config_dir_in(Some("/home/u/.config".to_string()), '/').unwrap(), "/home/u/.config/binance");
    assert_eq!(Config::config_dir_in(Some("/home/u/.config/".to_string()), '/').unwrap(), "/home/u/.config/binance");
    assert_eq!(
        Config::config_dir_in(None, '/').unwrap_err(),
        BinanceError::Config(NO_CONFIG_DIR.to_string())
    );
}

#[test]
fn state_files_live_in_the_config_dir() {
    if let (Ok(c), Ok(h), Ok(p), Ok(d)) =
        (Config::config_path(), Config::history_path(), Config::paper_state_path(), Config::config_dir())
    {
        assert_eq!(c, format!("{}/config.toml", d));
        assert_eq!(h, format!("{}/history", d));
        assert_eq!(p, format!("{}/paper_state.json", d));
        assert!(d.ends_with("/binance"));
    }
}

#[test]
fn endpoints_needing_credentials() {
    let none: Option<Credentials> = None;
    assert_eq!(
        require_credentials(&none).unwrap_err(),
        BinanceError::Auth(CREDENTIALS_REQUIRED.to_string())
    );
    let some = Some(Credentials { api_key: "k".to_string(), api_secret: "s".to_string() });
    assert_eq!(require_credentials(&some).unwrap().api_key, "k");
}

#[test]
fn config_file_read_only_when_needed() {
    use_needs();
}

fn use_needs() {
    let none: Option<String> = None;
    let some = Some("x".to_string());
    assert!(!needs_config_file(Some("k"), Some("s"), &none, &none));
    assert!(!needs_config_file(None, None, &some, &some));
    assert!(needs_config_file(Some("k"), None, &some, &none));
    assert!(needs_config_file(None, None, &none, &none));
}

#[test]
fn config_files_from_base() {
    let base = Some("/home/u/.config".to_string());
    assert_eq!(
        Config::config_file_in(base.clone(), '/', "config.toml").unwrap(),
        "/home/u/.config/binance/config.toml"
    );
    assert_eq!(Config::config_file_in(base.clone(), '/', "history").unwrap(), "/home/u/.config/binance/history");
    assert_eq!(
        Config::config_file_in(Some("/home/u/.config/".to_string()), '/', "paper_state.json").unwrap(),
        "/home/u/.config/binance/paper_state.json"
    );
    assert_eq!(
        Config::config_file_in(None, '/', "config.toml").unwrap_err(),
        BinanceError::Config("Cannot determine config directory".to_string())
    );
}

#[test]
fn config_files_use_the_platform_separator() {
    assert_eq!(
        Config::config_dir_in(Some("C:\\Users\\u\\AppData\\Roaming".to_string()), '\\').unwrap(),
        "C:\\Users\\u\\AppData\\Roaming\\binance"
    );
    assert_eq!(
        Config::config_file_in(Some("C:\\Roaming\\".to_string()), '\\', "config.toml").unwrap(),
        "C:\\Roaming\\binance\\config.toml"
    );
}
