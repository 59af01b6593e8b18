//! The configuration model.
//!
//! A configuration names the triggers that cause executions and the backends
//! that the workload's capabilities are bridged to. It is read once at startup
//! and never changed. Where no configuration file exists, every section takes
//! its default: no triggers, no targets, and the broker on the local machine.

use std::collections::HashMap;
use vstd::prelude::*;
use vstd::string::*;

verus! {

/// The broker address used where the configuration names none.
pub const DEFAULT_NATS_ADDRESS: &'static str = "nats://localhost:4222";

/// The name of the configuration file, looked up in the working directory.
pub const CONFIG_FILE: &'static str = "wex.toml";

/// The broker address used where the configuration names none.
pub fn default_nats_address() -> (address: String)
    ensures
        address@ == DEFAULT_NATS_ADDRESS@,
{
    String::from_str(DEFAULT_NATS_ADDRESS)
}

/// A trigger that listens for HTTP requests. Accepted in the configuration,
/// and served elsewhere.
#[derive(Debug)]
pub struct HttpTrigger {
    /// The socket address to listen on, as text.
    pub address: String,
}

/// How the broker is reached.
#[derive(Debug)]
pub struct Nats {
    /// The address of the broker.
    pub address: String,
}

impl Default for Nats {
    fn default() -> (nats: Self)
        ensures
            nats.address@ == DEFAULT_NATS_ADDRESS@,
    {
        Self { address: default_nats_address() }
    }
}

/// A trigger that fires on messages published to a broker subject.
#[derive(Debug)]
pub struct NatsTrigger {
    /// The subject to subscribe to.
    pub subject: String,
    /// The queue group to join. Empty where the trigger joins none.
    pub group: String,
}

/// A trigger that fires on invocations of the workload's exports over the
/// broker. Accepted in the configuration, and served elsewhere.
#[derive(Debug)]
pub struct WrpcNatsTrigger {
    /// The prefix to listen for export invocations on.
    pub prefix: String,
    /// The queue group to join. Empty where the trigger joins none.
    pub group: String,
    /// The instance whose exports are served.
    pub instance: String,
}

/// The export-invocation triggers.
#[derive(Debug)]
pub struct WrpcTrigger {
    /// Those served over the broker.
    pub nats: Vec<WrpcNatsTrigger>,
}

impl Default for WrpcTrigger {
    fn default() -> (wrpc: Self)
        ensures
            wrpc.nats@.len() == 0,
    {
        Self { nats: Vec::new() }
    }
}

/// The configured triggers, by kind.
#[derive(Debug)]
pub struct Trigger {
    /// HTTP listeners.
    pub http: Vec<HttpTrigger>,
    /// Broker subjects.
    pub nats: Vec<NatsTrigger>,
    /// Export invocations.
    pub wrpc: WrpcTrigger,
}

impl Trigger {
    /// Whether no trigger at all is configured.
    pub open spec fn is_empty(&self) -> bool {
        self.http@.len() == 0 && self.nats@.len() == 0 && self.wrpc.nats@.len() == 0
    }
}

impl Default for Trigger {
    fn default() -> (trigger: Self)
        ensures
            trigger.is_empty(),
    {
        Self { http: Vec::new(), nats: Vec::new(), wrpc: WrpcTrigger::default() }
    }
}

/// Where one key-value bucket is kept.
#[derive(Debug)]
pub struct KeyvalueBucket {
    /// The backend target of the bucket.
    pub target: String,
}

impl Default for KeyvalueBucket {
    fn default() -> (bucket: Self)
        ensures
            bucket.target@.len() == 0,
    {
        Self { target: String::new() }
    }
}

/// The key-value buckets, by name.
#[derive(Debug)]
pub struct Keyvalue {
    /// The target of each bucket.
    pub buckets: HashMap<String, KeyvalueBucket>,
}

impl Default for Keyvalue {
    fn default() -> (keyvalue: Self)
        ensures
            keyvalue.buckets@ == Map::<String, KeyvalueBucket>::empty(),
    {
        Self { buckets: HashMap::new() }
    }
}

/// Where one messaging client connects to.
#[derive(Debug)]
pub struct MessagingClient {
    /// The backend target of the client.
    pub target: String,
}

impl Default for MessagingClient {
    fn default() -> (client: Self)
        ensures
            client.target@.len() == 0,
    {
        Self { target: String::new() }
    }
}

/// The messaging clients, by name.
#[derive(Debug)]
pub struct Messaging {
    /// The target of each client.
    pub clients: HashMap<String, MessagingClient>,
}

impl Default for Messaging {
    fn default() -> (messaging: Self)
        ensures
            messaging.clients@ == Map::<String, MessagingClient>::empty(),
    {
        Self { clients: HashMap::new() }
    }
}

/// How one plugin is spoken to.
#[derive(Debug)]
pub struct Plugin {
    /// The protocol of the plugin.
    pub protocol: String,
}

impl Default for Plugin {
    fn default() -> (plugin: Self)
        ensures
            plugin.protocol@.len() == 0,
    {
        Self { protocol: String::new() }
    }
}

/// The whole configuration.
#[derive(Debug)]
pub struct Config {
    /// What causes executions.
    pub trigger: Trigger,
    /// Where key-value buckets are kept.
    pub keyvalue: Keyvalue,
    /// Where messaging clients connect to.
    pub messaging: Messaging,
    /// How plugins are spoken to, by name.
    pub plugin: HashMap<String, Plugin>,
    /// How the broker is reached.
    pub nats: Nats,
}

impl Config {
    /// Whether this is the configuration of a host without a configuration
    /// file: no triggers, no targets, no plugins, and the default broker address.
    pub open spec fn is_default(&self) -> bool {
        &&& self.trigger.is_empty()
        &&& self.keyvalue.buckets@ == Map::<String, KeyvalueBucket>::empty()
        &&& self.messaging.clients@ == Map::<String, MessagingClient>::empty()
        &&& self.plugin@ == Map::<String, Plugin>::empty()
        &&& self.nats.address@ == DEFAULT_NATS_ADDRESS@
    }
}

impl Default for Config {
    fn default() -> (config: Self)
        ensures
            config.is_default(),
    {
        Self {
            trigger: Trigger::default(),
            keyvalue: Keyvalue::default(),
            messaging: Messaging::default(),
            plugin: HashMap::new(),
            nats: Nats::default(),
        }
    }
}

/// The command line of the host.
#[derive(Debug)]
pub struct Args {
    /// Path or URL of the workload.
    pub workload: String,
}

/// What was found where the configuration file is expected.
#[derive(Debug)]
pub enum ConfigFile {
    /// The file was read: these are its bytes.
    Found(Vec<u8>),
    /// There is no such file.
    Missing,
    /// The file exists and could not be read.
    Unreadable,
}

/// Where the configuration is to come from.
#[derive(Debug)]
pub enum ConfigSource {
    /// From these bytes, which remain to be parsed. A failure to parse them
    /// stops startup.
    Parse(Vec<u8>),
    /// From the defaults.
    Defaults(Config),
    /// From nowhere: startup stops.
    Refused,
}

/// Decides where the configuration comes from.
///
/// A file that was read is parsed, a missing file means the defaults, and a
/// file that cannot be read stops startup.
pub fn config_source(file: ConfigFile) -> (source: ConfigSource)
    ensures
        match file {
            ConfigFile::Found(bytes) => source == ConfigSource::Parse(bytes),
            ConfigFile::Missing => source matches ConfigSource::Defaults(config)
                && config.is_default(),
            ConfigFile::Unreadable => source is Refused,
        },
{
    match file {
        ConfigFile::Found(bytes) => ConfigSource::Parse(bytes),
        ConfigFile::Missing => ConfigSource::Defaults(Config::default()),
        ConfigFile::Unreadable => ConfigSource::Refused,
    }
}

} // verus!
