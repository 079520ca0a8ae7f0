//! The resolved configuration the relay starts from, and the choice between
//! the two mesh transports.
use vstd::prelude::*;
use vstd::string::StringExecFns;

verus! {

/// Chat network settings.
pub struct IrcConfig {
    pub server: String,
    pub port: u16,
    pub channel: String,
    pub nickname: String,
    pub username: Option<String>,
    pub realname: Option<String>,
    pub password: Option<String>,
    pub use_tls: bool,
}

/// Broker transport settings.
pub struct MqttConfig {
    pub broker_address: String,
    pub port: u16,
    pub topic: String,
    pub username: Option<String>,
    pub password: Option<String>,
    pub client_id: Option<String>,
}

/// Mesh network settings: an optional serial device path, the mesh channel
/// index, and optional broker settings.
pub struct MeshtasticConfig {
    pub serial_port: Option<String>,
    pub channel: u32,
    pub mqtt: Option<MqttConfig>,
}

/// The whole resolved configuration.
pub struct Config {
    pub irc: IrcConfig,
    pub meshtastic: MeshtasticConfig,
}

impl Default for Config {
    /// The defaults used when no configuration is supplied: a public chat
    /// network over TLS, the primary mesh channel, and a serial device to be
    /// discovered.
    fn default() -> (c: Config)
        ensures
            c.irc.server@ == "irc.libera.chat"@,
            c.irc.port == 6697,
            c.irc.channel@ == "#meshtastic"@,
            c.irc.nickname@ == "meshtastic-bridge"@,
            c.irc.username is None,
            c.irc.realname is None,
            c.irc.password is None,
            c.irc.use_tls,
            c.meshtastic.serial_port is None,
            c.meshtastic.channel == 0,
            c.meshtastic.mqtt is None,
    {
        Config {
            irc: IrcConfig {
                server: String::from_str("irc.libera.chat"),
                port: 6697,
                channel: String::from_str("#meshtastic"),
                nickname: String::from_str("meshtastic-bridge"),
                username: None,
                realname: None,
                password: None,
                use_tls: true,
            },
            meshtastic: MeshtasticConfig { serial_port: None, channel: 0, mqtt: None },
        }
    }
}

/// Which mesh transport the orchestrator runs: exactly one of the two.
pub enum TransportChoice {
    /// The broker transport, with its settings.
    Broker(MqttConfig),
    /// The serial transport, with the configured device path; without one,
    /// discovery must supply it.
    Serial(Option<String>),
}

impl MeshtasticConfig {
    /// Resolves which transport to run: broker settings take precedence over
    /// a serial path.
    pub fn transport(self) -> (t: TransportChoice)
        ensures
            (match self.mqtt {
                Some(m) => t == TransportChoice::Broker(m),
                None => t == TransportChoice::Serial(self.serial_port),
            }),
    {
        match self.mqtt {
            Some(m) => TransportChoice::Broker(m),
            None => TransportChoice::Serial(self.serial_port),
        }
    }
}

} // verus!
