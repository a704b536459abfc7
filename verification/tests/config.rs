use status_relay::config::{Config, ConfigError, Credentials, Listener, DEFAULT_PORT};

fn set(s: &str) -> Option<String> {
    Some(s.to_string())
}

#[test]
fn credentials_of_both_secrets() {
    let c = Credentials::load(set("123"), set("abc")).unwrap();
    assert_eq!(c.id, "123");
    assert_eq!(c.token, "abc");
}

#[test]
fn missing_id_is_reported() {
    assert_eq!(Credentials::load(None, set("abc")), Err(ConfigError::MissingId));
}

#[test]
fn missing_token_is_reported() {
    assert_eq!(Credentials::load(set("123"), None), Err(ConfigError::MissingToken));
}

#[test]
fn missing_id_is_reported_first() {
    assert_eq!(Credentials::load(None, None), Err(ConfigError::MissingId));
}

#[test]
fn empty_secrets_are_set_secrets() {
    let c = Credentials::load(set(""), set("")).unwrap();
    assert_eq!(c.url(), "https://discord.com/api/webhooks//");
}

#[test]
fn errors_name_their_setting() {
    assert_eq!(ConfigError::MissingId.setting(), "id");
    assert_eq!(ConfigError::MissingToken.setting(), "token");
}

#[test]
fn url_holds_id_then_token() {
    let c = Credentials { id: "123".to_string(), token: "abc".to_string() };
    assert_eq!(c.url(), "https://discord.com/api/webhooks/123/abc");
}

#[test]
fn url_takes_the_secrets_as_they_are() {
    let c = Credentials { id: "a/b".to_string(), token: "t k".to_string() };
    assert_eq!(c.url(), "https://discord.com/api/webhooks/a/b/t k");
}

#[test]
fn listener_defaults_to_every_interface() {
    let l = Listener::load(None, None);
    assert_eq!(l.address, [0, 0, 0, 0]);
    assert_eq!(l.port, 23498);
    assert_eq!(DEFAULT_PORT, 23498);
}

#[test]
fn listener_takes_what_is_set() {
    let l = Listener::load(Some([127, 0, 0, 1]), Some(8080));
    assert_eq!(l, Listener { address: [127, 0, 0, 1], port: 8080 });
    assert_eq!(Listener::load(Some([127, 0, 0, 1]), None).port, 23498);
    assert_eq!(Listener::load(None, Some(1)).address, [0, 0, 0, 0]);
}

#[test]
fn config_of_all_settings() {
    let c = Config::load(set("123"), set("abc"), Some([127, 0, 0, 1]), Some(3030)).unwrap();
    assert_eq!(c.credentials, Credentials { id: "123".to_string(), token: "abc".to_string() });
    assert_eq!(c.listener, Listener { address: [127, 0, 0, 1], port: 3030 });
}

#[test]
fn config_needs_both_secrets() {
    assert_eq!(Config::load(None, set("abc"), None, None), Err(ConfigError::MissingId));
    assert_eq!(Config::load(set("123"), None, None, None), Err(ConfigError::MissingToken));
    assert_eq!(Config::load(None, None, Some([1, 2, 3, 4]), Some(5)), Err(ConfigError::MissingId));
}

#[test]
fn config_without_listener_settings() {
    let c = Config::load(set("123"), set("abc"), None, None).unwrap();
    assert_eq!(c.listener, Listener { address: [0, 0, 0, 0], port: 23498 });
}
