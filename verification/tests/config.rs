use jellyfin_rpc::config::{
    setting, Config, API_KEY_VAR, APPLICATION_ID_VAR, URL_VAR, USERNAME_VAR,
};

#[test]
fn missing_setting_is_empty() {
    assert_eq!(setting(None), "");
    assert_eq!(setting(Some("x".to_string())), "x");
    assert_eq!(setting(Some(String::new())), "");
}

#[test]
fn settings_are_gathered() {
    let config = Config::from_values(Some("123".to_string()), None, Some("key".to_string()), None);
    assert_eq!(
        config,
        Config {
            application_id: "123".to_string(),
            url: String::new(),
            api_key: "key".to_string(),
            username: String::new(),
        }
    );
    let config = Config::from_values(None, Some("http://h".to_string()), None, Some("alice".to_string()));
    assert_eq!(config.url, "http://h");
    assert_eq!(config.username, "alice");
    assert_eq!(config.application_id, "");
    assert_eq!(config.api_key, "");
}

#[test]
fn variables_are_named() {
    assert_eq!(APPLICATION_ID_VAR, "DISCORD_APPLICATION_ID");
    assert_eq!(URL_VAR, "JELLYFIN_URL");
    assert_eq!(API_KEY_VAR, "JELLYFIN_API_KEY");
    assert_eq!(USERNAME_VAR, "JELLYFIN_USERNAME");
}
