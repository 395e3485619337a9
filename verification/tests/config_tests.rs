use rustyproxy::config::default_status_bytes;
use rustyproxy::config::ProxyConfig;
use rustyproxy::config::DEFAULT_PORT;

#[test]
fn default_status_is_exact() {
    assert_eq!(default_status_bytes(), b"@RustyManager".to_vec());
}

#[test]
fn standard_config_uses_defaults() {
    let c = ProxyConfig::standard();
    assert_eq!(c.port, 80);
    assert_eq!(c.status, b"@RustyManager".to_vec());
}

#[test]
fn explicit_config_is_kept() {
    let c = ProxyConfig::new(8080, b"mylabel".to_vec());
    assert_eq!(c.port, 8080);
    assert_eq!(c.status, b"mylabel".to_vec());
    assert_eq!(DEFAULT_PORT, 80);
}
