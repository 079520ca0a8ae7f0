//! The broker transport's verified half: the service-envelope wire boundary
//! and the decision taken for each session event.
use crate::nodes::NodeDirectory;
use crate::packet::{DataPayload, MeshPacket, PacketPayload, PacketView};
use crate::translate::{decode_packet, decode_spec, encode_message, encoded_packet};
use crate::IrcMessage;
use meshtastic::protobufs::{mesh_packet, ServiceEnvelope};
use prost::Message;
use vstd::prelude::*;

verus! {

/// The mesh packet carried by a service envelope wire image, if the bytes
/// decode as one and it holds a packet. What the broker wire format denotes
/// is fixed by the outside codec, so the result is named, not written out.
pub uninterp spec fn service_envelope_packet(bytes: Seq<u8>) -> Option<PacketView>;

/// The wire image of a service envelope holding the given decoded packet and
/// the two routing labels; named for the same reason.
pub uninterp spec fn service_envelope_bytes(
    packet: PacketView,
    channel_id: Seq<char>,
    gateway_id: Seq<char>,
) -> Seq<u8>;

/// Relies on prost's `Message::decode` for `ServiceEnvelope`: the decoded
/// envelope, and so the packet it holds, is a function of the bytes alone.
/// Bytes that do not decode, and envelopes holding no packet, yield nothing.
#[verifier::external_body]
fn decode_envelope(bytes: &Vec<u8>) -> (r: Option<MeshPacket>)
    ensures
        (match r {
            Some(p) => service_envelope_packet(bytes@) == Some(p@),
            None => service_envelope_packet(bytes@) is None,
        }),
{
    let env = match ServiceEnvelope::decode(&bytes[..]) { Ok(e) => e, Err(_) => return None };
    let p = match env.packet { Some(p) => p, None => return None };
    let payload = match p.payload_variant {
        Some(mesh_packet::PayloadVariant::Decoded(d)) => PacketPayload::Decoded(
            DataPayload { port: d.portnum, bytes: d.payload, want_response: d.want_response, request_id: d.request_id },
        ),
        _ => PacketPayload::Opaque,
    };
    Some(MeshPacket { from: p.from, to: p.to, channel: p.channel, id: p.id, want_ack: p.want_ack, priority: p.priority, payload })
}

/// Relies on prost's `Message::encode_to_vec` on the `ServiceEnvelope` built
/// from the given packet and labels: the bytes are a function of those alone.
#[verifier::external_body]
fn encode_envelope(p: &MeshPacket, channel_id: &str, gateway_id: &str) -> (r: Vec<u8>)
    requires
        p.payload matches PacketPayload::Decoded(_),
    ensures
        r@ == service_envelope_bytes(p@, channel_id@, gateway_id@),
{
    let d = match &p.payload { PacketPayload::Decoded(d) => d, PacketPayload::Opaque => return Vec::new() };
    let data = meshtastic::protobufs::Data {
        portnum: d.port, payload: d.bytes.clone(), want_response: d.want_response,
        request_id: d.request_id, ..Default::default()
    };
    let packet = meshtastic::protobufs::MeshPacket {
        from: p.from, to: p.to, channel: p.channel, id: p.id, want_ack: p.want_ack,
        priority: p.priority, payload_variant: Some(mesh_packet::PayloadVariant::Decoded(data)),
        ..Default::default()
    };
    let env = ServiceEnvelope { packet: Some(packet), channel_id: channel_id.to_string(), gateway_id: gateway_id.to_string() };
    env.encode_to_vec()
}

/// One event from the broker session, as the relay models it.
pub enum BrokerEvent {
    /// A message delivered on some topic, with its payload bytes.
    Publish { topic: String, payload: Vec<u8> },
    /// The broker accepted the connection.
    ConnAck,
    /// The broker confirmed the subscription.
    SubAck,
    /// The broker closed the session.
    Disconnect,
    /// Anything else; the relay ignores it.
    Other,
}

/// What the broker's receive path forwards for one publish's bytes: the
/// packet they carry, put through the translator.
pub open spec fn broker_decode_spec(bytes: Seq<u8>, channel: u32, dir: Map<u32, Seq<char>>) -> Option<
    Seq<char>,
> {
    match service_envelope_packet(bytes) {
        Some(p) => decode_spec(p, channel, dir),
        None => None,
    }
}

/// The broker transport's step for one session event: a publish on the
/// subscribed topic is decoded and translated; every other event, and a
/// publish on any other topic, yields nothing to forward. Connection and
/// subscription acknowledgements are only logged by the caller, which also
/// retries after poll errors.
pub fn broker_handle_event(
    ev: &BrokerEvent,
    subscribed: &String,
    channel: u32,
    dir: &NodeDirectory,
) -> (r: Option<String>)
    requires
        dir.wf(),
    ensures
        (match ev {
            BrokerEvent::Publish { topic, payload } => {
                if topic@ == subscribed@ {
                    match r {
                        Some(s) => broker_decode_spec(payload@, channel, dir@) == Some(s@),
                        None => broker_decode_spec(payload@, channel, dir@) is None,
                    }
                } else {
                    r is None
                }
            },
            _ => r is None,
        }),
{
    match ev {
        BrokerEvent::Publish { topic, payload } => {
            if topic.eq(subscribed) {
                match decode_envelope(payload) {
                    Some(p) => decode_packet(&p, channel, dir),
                    None => None,
                }
            } else {
                None
            }
        },
        _ => None,
    }
}

/// Builds the bytes the broker transport publishes for one chat message: the
/// encoded text packet, wrapped in a service envelope with the fixed channel
/// and gateway labels.
pub fn encode_broker_publish(msg: &IrcMessage, channel: u32) -> (r: Vec<u8>)
    ensures
        r@ == service_envelope_bytes(
            encoded_packet(msg.sender@, msg.content@, channel),
            "LongFast"@,
            "irc-bridge"@,
        ),
{
    let p = encode_message(msg, channel);
    encode_envelope(&p, "LongFast", "irc-bridge")
}

} // verus!
