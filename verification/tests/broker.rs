use meshbridge::broker::{broker_handle_event, encode_broker_publish, BrokerEvent};
use meshbridge::nodes::NodeDirectory;
use meshbridge::IrcMessage;
use meshtastic::protobufs::{mesh_packet, Data, MeshPacket, ServiceEnvelope};
use prost::Message;

fn wire_text_packet(from: u32, channel: u32, text: &[u8]) -> Vec<u8> {
    let data = Data {
        portnum: 1,
        payload: text.to_vec(),
        ..Default::default()
    };
    let packet = MeshPacket {
        from,
        to: 0xffff_ffff,
        channel,
        id: 7,
        payload_variant: Some(mesh_packet::PayloadVariant::Decoded(data)),
        ..Default::default()
    };
    let env = ServiceEnvelope {
        packet: Some(packet),
        channel_id: "LongFast".to_string(),
        gateway_id: "gw".to_string(),
    };
    env.encode_to_vec()
}

#[test]
fn publish_on_subscribed_topic_is_translated() {
    let dir = NodeDirectory::new();
    let ev = BrokerEvent::Publish {
        topic: "msh/us/2/e/LongFast/!gw".to_string(),
        payload: wire_text_packet(0x0000_abcd, 0, b"hi"),
    };
    let out = broker_handle_event(&ev, &"msh/us/2/e/LongFast/!gw".to_string(), 0, &dir);
    assert_eq!(out, Some("[mesh-0000abcd]: hi".to_string()));
}

#[test]
fn publish_on_other_topic_is_ignored() {
    let dir = NodeDirectory::new();
    let ev = BrokerEvent::Publish {
        topic: "msh/other".to_string(),
        payload: wire_text_packet(0x0000_abcd, 0, b"hi"),
    };
    assert_eq!(
        broker_handle_event(&ev, &"msh/mine".to_string(), 0, &dir),
        None
    );
}

#[test]
fn publish_on_other_channel_is_ignored() {
    let dir = NodeDirectory::new();
    let ev = BrokerEvent::Publish {
        topic: "t".to_string(),
        payload: wire_text_packet(0x0000_abcd, 4, b"hi"),
    };
    assert_eq!(broker_handle_event(&ev, &"t".to_string(), 0, &dir), None);
}

#[test]
fn undecodable_payload_is_ignored() {
    let dir = NodeDirectory::new();
    let ev = BrokerEvent::Publish {
        topic: "t".to_string(),
        payload: vec![0xff, 0x00, 0x13, 0x37],
    };
    assert_eq!(broker_handle_event(&ev, &"t".to_string(), 0, &dir), None);
}

#[test]
fn envelope_without_packet_is_ignored() {
    let dir = NodeDirectory::new();
    let env = ServiceEnvelope {
        packet: None,
        channel_id: "LongFast".to_string(),
        gateway_id: "gw".to_string(),
    };
    let ev = BrokerEvent::Publish {
        topic: "t".to_string(),
        payload: env.encode_to_vec(),
    };
    assert_eq!(broker_handle_event(&ev, &"t".to_string(), 0, &dir), None);
}

#[test]
fn session_events_yield_nothing() {
    let dir = NodeDirectory::new();
    let t = "t".to_string();
    assert_eq!(broker_handle_event(&BrokerEvent::ConnAck, &t, 0, &dir), None);
    assert_eq!(broker_handle_event(&BrokerEvent::SubAck, &t, 0, &dir), None);
    assert_eq!(
        broker_handle_event(&BrokerEvent::Disconnect, &t, 0, &dir),
        None
    );
    assert_eq!(broker_handle_event(&BrokerEvent::Other, &t, 0, &dir), None);
}

#[test]
fn published_bytes_carry_the_tagged_text() {
    let m = IrcMessage {
        sender: "alice".to_string(),
        content: "hello".to_string(),
    };
    let bytes = encode_broker_publish(&m, 2);
    let env = ServiceEnvelope::decode(&bytes[..]).expect("the published bytes decode");
    assert_eq!(env.channel_id, "LongFast");
    assert_eq!(env.gateway_id, "irc-bridge");
    let p = env.packet.expect("the envelope holds a packet");
    assert_eq!(p.to, 0xffff_ffff);
    assert_eq!(p.from, 0);
    assert_eq!(p.channel, 2);
    assert_eq!(p.id, 0);
    assert!(!p.want_ack);
    match p.payload_variant {
        Some(mesh_packet::PayloadVariant::Decoded(d)) => {
            assert_eq!(d.portnum, 1);
            assert_eq!(d.payload, b"[IRC-alice] hello".to_vec());
        }
        _ => panic!("expected a decoded payload"),
    }
}

#[test]
fn own_publish_echoed_back_is_not_forwarded() {
    let dir = NodeDirectory::new();
    let m = IrcMessage {
        sender: "alice".to_string(),
        content: "hello".to_string(),
    };
    let bytes = encode_broker_publish(&m, 0);
    let ev = BrokerEvent::Publish {
        topic: "t".to_string(),
        payload: bytes,
    };
    assert_eq!(broker_handle_event(&ev, &"t".to_string(), 0, &dir), None);
}
