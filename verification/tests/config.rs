use meshbridge::config::{Config, MeshtasticConfig, MqttConfig, TransportChoice};
use meshbridge::Bridge;

#[test]
fn default_configuration_values() {
    let c = Config::default();
    assert_eq!(c.irc.server, "irc.libera.chat".to_string());
    assert_eq!(c.irc.port, 6697);
    assert_eq!(c.irc.channel, "#meshtastic".to_string());
    assert_eq!(c.irc.nickname, "meshtastic-bridge".to_string());
    assert!(c.irc.username.is_none());
    assert!(c.irc.realname.is_none());
    assert!(c.irc.password.is_none());
    assert!(c.irc.use_tls);
    assert!(c.meshtastic.serial_port.is_none());
    assert_eq!(c.meshtastic.channel, 0);
    assert!(c.meshtastic.mqtt.is_none());
}

#[test]
fn broker_settings_take_precedence_over_serial() {
    let mesh = MeshtasticConfig {
        serial_port: Some("/dev/ttyACM0".to_string()),
        channel: 1,
        mqtt: Some(MqttConfig {
            broker_address: "broker.example".to_string(),
            port: 1883,
            topic: "msh/topic".to_string(),
            username: None,
            password: None,
            client_id: None,
        }),
    };
    match mesh.transport() {
        TransportChoice::Broker(m) => {
            assert_eq!(m.broker_address, "broker.example".to_string());
            assert_eq!(m.port, 1883);
            assert_eq!(m.topic, "msh/topic".to_string());
        }
        TransportChoice::Serial(_) => panic!("broker settings must win"),
    }
}

#[test]
fn serial_transport_without_broker_settings() {
    let mesh = MeshtasticConfig {
        serial_port: Some("/dev/ttyACM0".to_string()),
        channel: 1,
        mqtt: None,
    };
    match mesh.transport() {
        TransportChoice::Serial(p) => assert_eq!(p, Some("/dev/ttyACM0".to_string())),
        TransportChoice::Broker(_) => panic!("no broker settings were given"),
    }
}

#[test]
fn bridge_keeps_its_configuration() {
    let b = Bridge::new(Config::default());
    assert_eq!(b.config.irc.port, 6697);
    assert_eq!(b.config.meshtastic.channel, 0);
}
