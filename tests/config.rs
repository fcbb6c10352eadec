use producer::config::{client_config, BOOTSTRAP_SERVERS};
use producer::error::InitError;
use rdkafka::config::RDKafkaLogLevel;

fn pair(k: &str, v: &str) -> (String, String) {
    (String::from(k), String::from(v))
}

#[test]
fn config_holds_every_pair() {
    let pairs = vec![
        pair("bootstrap.servers", "broker:9092"),
        pair("security.protocol", "ssl"),
        pair("broker.address.family", "v4"),
    ];
    let c = client_config(&pairs).ok().unwrap();
    assert_eq!(c.get(BOOTSTRAP_SERVERS), Some("broker:9092"));
    assert_eq!(c.get("security.protocol"), Some("ssl"));
    assert_eq!(c.get("broker.address.family"), Some("v4"));
    assert_eq!(c.get("acks"), None);
    assert_eq!(c.config_map().len(), 3);
}

#[test]
fn config_logs_at_debug_level() {
    let c = client_config(&vec![pair("bootstrap.servers", "broker:9092")]).ok().unwrap();
    assert!(matches!(c.log_level, RDKafkaLogLevel::Debug));
}

#[test]
fn later_pair_overrides_earlier() {
    let pairs = vec![
        pair("bootstrap.servers", "a:9092"),
        pair("bootstrap.servers", "b:9092"),
    ];
    let c = client_config(&pairs).ok().unwrap();
    assert_eq!(c.get("bootstrap.servers"), Some("b:9092"));
}

#[test]
fn config_without_broker_list_is_refused() {
    let pairs = vec![pair("security.protocol", "ssl")];
    assert_eq!(client_config(&pairs).err(), Some(InitError::MissingBootstrapServers));
    assert_eq!(client_config(&Vec::new()).err(), Some(InitError::MissingBootstrapServers));
}
