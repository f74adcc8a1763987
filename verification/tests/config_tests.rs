use ytracker::config::{AuthMethod, OrgType, TrackerConfig};

#[test]
fn api_root_joins_base_and_version_with_single_slashes() {
    let config = TrackerConfig::new("token", OrgType::Cloud)
        .with_base_url("https://example.test///")
        .with_api_version("//v2");
    assert_eq!(config.api_root(), "https://example.test/v2/");
}

#[test]
fn default_configuration_values() {
    let config = TrackerConfig::new("secret", OrgType::Yandex360);
    assert_eq!(config.base_url, "https://api.tracker.yandex.net");
    assert_eq!(config.api_version, "v3");
    assert_eq!(config.token, "secret");
    assert_eq!(config.org_id, None);
    assert_eq!(config.org_type, OrgType::Yandex360);
    assert_eq!(config.accept_language, None);
    assert_eq!(config.user_agent, "ytracker-tauri");
    assert_eq!(config.cooldown, 500);
    assert_eq!(config.timeout, 30_000);
    assert_eq!(config.connect_timeout, 10_000);
    assert_eq!(config.auth_method, AuthMethod::OAuth);
    assert_eq!(config.api_root(), "https://api.tracker.yandex.net/v3/");
}
