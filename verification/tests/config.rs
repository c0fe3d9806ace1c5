use clipsync::config::{generate_url, Config, DEFAULT_POLL_DELAY_SECS};

#[test]
fn stock_configuration_matches_the_protocol_constants() {
    let cfg = Config::new();
    assert_eq!(cfg.topic, b"clipboard".to_vec());
    assert_eq!(cfg.poll_delay_secs, 3);
    assert_eq!(DEFAULT_POLL_DELAY_SECS, 3);
    assert_eq!(cfg.publish_port, "9991");
    assert_eq!(cfg.subscribe_port, "9992");
}

#[test]
fn url_is_exact_concatenation() {
    assert_eq!(generate_url("1.2.3.4", "9991"), "tcp://1.2.3.4:9991");
    assert_eq!(generate_url("0.0.0.0", "9992"), "tcp://0.0.0.0:9992");
    assert_eq!(generate_url("", ""), "tcp://:");
}

#[test]
fn url_is_not_validated() {
    // host format is the caller's responsibility; concatenation only
    assert_eq!(generate_url("not a host", "no port"), "tcp://not a host:no port");
}
