use wex::config::config_source;
use wex::config::default_nats_address;
use wex::config::Args;
use wex::config::Config;
use wex::config::ConfigFile;
use wex::config::ConfigSource;
use wex::config::Keyvalue;
use wex::config::KeyvalueBucket;
use wex::config::Messaging;
use wex::config::MessagingClient;
use wex::config::Nats;
use wex::config::Plugin;
use wex::config::Trigger;
use wex::config::WrpcTrigger;
use wex::config::CONFIG_FILE;
use wex::config::DEFAULT_NATS_ADDRESS;

#[test]
fn the_default_broker_is_on_the_local_machine() {
    assert_eq!(DEFAULT_NATS_ADDRESS, "nats://localhost:4222");
    assert_eq!(default_nats_address(), "nats://localhost:4222");
    assert_eq!(Nats::default().address, "nats://localhost:4222");
}

#[test]
fn the_configuration_file_has_a_fixed_name() {
    assert_eq!(CONFIG_FILE, "wex.toml");
}

#[test]
fn the_default_configuration_has_no_triggers_and_no_targets() {
    let config = Config::default();
    assert!(config.trigger.http.is_empty());
    assert!(config.trigger.nats.is_empty());
    assert!(config.trigger.wrpc.nats.is_empty());
    assert!(config.keyvalue.buckets.is_empty());
    assert!(config.messaging.clients.is_empty());
    assert!(config.plugin.is_empty());
    assert_eq!(config.nats.address, "nats://localhost:4222");
}

#[test]
fn every_section_has_an_empty_default() {
    let trigger = Trigger::default();
    assert!(trigger.http.is_empty() && trigger.nats.is_empty() && trigger.wrpc.nats.is_empty());
    assert!(WrpcTrigger::default().nats.is_empty());
    assert!(Keyvalue::default().buckets.is_empty());
    assert!(Messaging::default().clients.is_empty());
    assert_eq!(KeyvalueBucket::default().target, "");
    assert_eq!(MessagingClient::default().target, "");
    assert_eq!(Plugin::default().protocol, "");
}

#[test]
fn a_missing_file_means_the_defaults() {
    match config_source(ConfigFile::Missing) {
        ConfigSource::Defaults(config) => {
            assert!(config.trigger.nats.is_empty());
            assert_eq!(config.nats.address, "nats://localhost:4222");
        }
        other => panic!("unexpected: {:?}", other),
    }
}

#[test]
fn a_file_that_was_read_is_parsed() {
    match config_source(ConfigFile::Found(b"[nats]\naddress = \"nats://broker:4222\"\n".to_vec())) {
        ConfigSource::Parse(bytes) => {
            assert_eq!(bytes, b"[nats]\naddress = \"nats://broker:4222\"\n".to_vec())
        }
        other => panic!("unexpected: {:?}", other),
    }
    match config_source(ConfigFile::Found(Vec::new())) {
        ConfigSource::Parse(bytes) => assert!(bytes.is_empty()),
        other => panic!("unexpected: {:?}", other),
    }
}

#[test]
fn a_file_that_cannot_be_read_stops_startup() {
    assert!(matches!(config_source(ConfigFile::Unreadable), ConfigSource::Refused));
}

#[test]
fn the_command_line_names_the_workload() {
    let args = Args { workload: "./reactor.wasm".to_string() };
    assert_eq!(args.workload, "./reactor.wasm");
}
