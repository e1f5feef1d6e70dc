use std::collections::HashMap;

use pixoo_bridge::config::parse_byte_size;
use pixoo_bridge::config::resolve_animation_speed_factor;
use pixoo_bridge::config::resolve_listener_port;
use pixoo_bridge::config::resolve_max_image_size;
use pixoo_bridge::config::resolve_pixoo_base_url;
use pixoo_bridge::config::resolve_pixoo_client_config;
use pixoo_bridge::config::ConfigError;
use pixoo_bridge::config::ConfigSource;

struct MockConfig(HashMap<&'static str, &'static str>);

impl MockConfig {
    fn new() -> Self {
        Self(HashMap::new())
    }

    fn with(mut self, key: &'static str, value: &'static str) -> Self {
        self.0.insert(key, value);
        self
    }
}

impl ConfigSource for MockConfig {
    fn get(&self, key: &str) -> Option<String> {
        self.0.get(key).map(|s| (*s).to_string())
    }
}

const DEFAULT_LISTENER_PORT: u16 = 4000;
const DEFAULT_MAX_IMAGE_SIZE: usize = 5 * 1024 * 1024;

#[test]
fn pixoo_base_url_missing_is_error() {
    let config = MockConfig::new();
    let err = resolve_pixoo_base_url(&config).expect_err("expected missing base url error");
    assert_eq!(err, ConfigError::MissingPixooBaseUrl);
}

#[test]
fn pixoo_base_url_invalid_is_error() {
    let config = MockConfig::new().with("PIXOO_BASE_URL", "not a url");
    let err = resolve_pixoo_base_url(&config).expect_err("expected invalid base url error");
    assert!(matches!(err, ConfigError::InvalidPixooBaseUrl(_)));
}

#[test]
fn pixoo_base_url_valid_is_loaded() {
    let config = MockConfig::new().with("PIXOO_BASE_URL", "http://127.0.0.1");
    let value = resolve_pixoo_base_url(&config).expect("expected base url");
    assert_eq!(value, "http://127.0.0.1");
}

#[test]
fn pixoo_timeout_uses_env_override() {
    let config = MockConfig::new().with("PIXOO_TIMEOUT_MS", "250");
    let client_config = resolve_pixoo_client_config(&config);
    assert_eq!(client_config.timeout_ms, 250);
}

#[test]
fn listener_port_defaults_to_4000_when_env_missing() {
    let config = MockConfig::new();
    let port = resolve_listener_port(&config);
    assert_eq!(port, DEFAULT_LISTENER_PORT);
}

#[test]
fn listener_port_uses_custom_override_when_valid() {
    let config = MockConfig::new().with("PIXOO_BRIDGE_PORT", "5050");
    let port = resolve_listener_port(&config);
    assert_eq!(port, 5050);
}

#[test]
fn listener_port_falls_back_on_invalid_values() {
    let config = MockConfig::new().with("PIXOO_BRIDGE_PORT", "not-a-port");
    let port = resolve_listener_port(&config);
    assert_eq!(port, DEFAULT_LISTENER_PORT);
}

#[test]
fn parse_byte_size_megabytes() {
    assert_eq!(parse_byte_size("5MB"), Some(5 * 1024 * 1024));
}

#[test]
fn parse_byte_size_megabytes_without_b() {
    assert_eq!(parse_byte_size("5M"), Some(5 * 1024 * 1024));
}

#[test]
fn parse_byte_size_kilobytes() {
    assert_eq!(parse_byte_size("128KB"), Some(128 * 1024));
}

#[test]
fn parse_byte_size_kilobytes_without_b() {
    assert_eq!(parse_byte_size("128K"), Some(128 * 1024));
}

#[test]
fn parse_byte_size_bytes() {
    assert_eq!(parse_byte_size("1024B"), Some(1024));
}

#[test]
fn parse_byte_size_plain_number() {
    assert_eq!(parse_byte_size("2048"), Some(2048));
}

#[test]
fn parse_byte_size_case_insensitive() {
    assert_eq!(parse_byte_size("10mb"), Some(10 * 1024 * 1024));
    assert_eq!(parse_byte_size("10Mb"), Some(10 * 1024 * 1024));
}

#[test]
fn parse_byte_size_gigabytes() {
    assert_eq!(parse_byte_size("1GB"), Some(1024 * 1024 * 1024));
}

#[test]
fn parse_byte_size_invalid_returns_none() {
    assert_eq!(parse_byte_size("lots"), None);
    assert_eq!(parse_byte_size(""), None);
    assert_eq!(parse_byte_size("MB"), None);
    assert_eq!(parse_byte_size("5TB"), None);
}

#[test]
fn animation_speed_factor_defaults_when_missing() {
    let config = MockConfig::new();
    let factor = resolve_animation_speed_factor(&config);
    assert_eq!(factor.permille, 1400);
}

#[test]
fn animation_speed_factor_uses_valid_override() {
    let config = MockConfig::new().with("PIXOO_ANIMATION_SPEED_FACTOR", "2.0");
    let factor = resolve_animation_speed_factor(&config);
    assert_eq!(factor.permille, 2000);
}

#[test]
fn animation_speed_factor_falls_back_on_invalid() {
    let config = MockConfig::new().with("PIXOO_ANIMATION_SPEED_FACTOR", "abc");
    let factor = resolve_animation_speed_factor(&config);
    assert_eq!(factor.permille, 1400);
}

#[test]
fn animation_speed_factor_falls_back_on_zero() {
    let config = MockConfig::new().with("PIXOO_ANIMATION_SPEED_FACTOR", "0");
    let factor = resolve_animation_speed_factor(&config);
    assert_eq!(factor.permille, 1400);
}

#[test]
fn animation_speed_factor_falls_back_on_negative() {
    let config = MockConfig::new().with("PIXOO_ANIMATION_SPEED_FACTOR", "-1.0");
    let factor = resolve_animation_speed_factor(&config);
    assert_eq!(factor.permille, 1400);
}

#[test]
fn max_image_size_defaults_when_missing() {
    let config = MockConfig::new();
    let size = resolve_max_image_size(&config);
    assert_eq!(size, DEFAULT_MAX_IMAGE_SIZE);
}

#[test]
fn max_image_size_uses_valid_megabyte_override() {
    let config = MockConfig::new().with("PIXOO_BRIDGE_MAX_IMAGE_SIZE", "10MB");
    let size = resolve_max_image_size(&config);
    assert_eq!(size, 10 * 1024 * 1024);
}

#[test]
fn max_image_size_uses_valid_kilobyte_override() {
    let config = MockConfig::new().with("PIXOO_BRIDGE_MAX_IMAGE_SIZE", "128K");
    let size = resolve_max_image_size(&config);
    assert_eq!(size, 128 * 1024);
}

#[test]
fn max_image_size_falls_back_on_invalid() {
    let config = MockConfig::new().with("PIXOO_BRIDGE_MAX_IMAGE_SIZE", "lots");
    let size = resolve_max_image_size(&config);
    assert_eq!(size, DEFAULT_MAX_IMAGE_SIZE);
}
