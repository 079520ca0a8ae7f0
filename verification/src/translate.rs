//! The packet translator: the stateless mapping between chat messages and mesh
//! text packets, node-name rendering, the acknowledgement policy, and the
//! per-event step of the serial transport.
use crate::nodes::NodeDirectory;
use crate::packet::{
    DataPayload, DataView, MeshPacket, PacketPayload, PacketView, PayloadView, RadioEvent,
    BROADCAST_ADDR, PRIORITY_ACK, PRIORITY_DEFAULT, ROUTING_PORT, TEXT_MESSAGE_PORT,
};
use crate::text::{bytes_to_string, hex8, hex8_string, starts_with, str_starts_with};
use crate::IrcMessage;
use vstd::prelude::*;
use vstd::string::StringExecFns;
use vstd::utf8::{
    decode_utf8, encode_utf8, encode_utf8_decode_utf8, encode_utf8_valid_utf8, valid_utf8,
};

verus! {

/// The text carried on the mesh for one chat message.
pub open spec fn outbound_text(sender: Seq<char>, content: Seq<char>) -> Seq<char> {
    "[IRC-"@ + sender + "] "@ + content
}

/// The line delivered to chat for one mesh text and its rendered sender.
pub open spec fn inbound_text(sender: Seq<char>, text: Seq<char>) -> Seq<char> {
    "[mesh-"@ + sender + "]: "@ + text
}

/// Whether a text begins with the relay's own outbound tag.
pub open spec fn has_irc_tag(s: Seq<char>) -> bool {
    starts_with(s, "[IRC-"@)
}

/// The sender shown to chat: the learned short name if there is one, else the
/// zero-padded 8-digit hex node id.
pub open spec fn rendered_sender(dir: Map<u32, Seq<char>>, from: u32) -> Seq<char> {
    if dir.contains_key(from) {
        dir[from]
    } else {
        hex8(from)
    }
}

/// The packet the translator builds for one outbound chat message: a broadcast
/// text packet on the configured channel, with node id and packet id left to
/// the device, requesting no acknowledgement.
pub open spec fn encoded_packet(sender: Seq<char>, content: Seq<char>, channel: u32) -> PacketView {
    PacketView {
        from: 0,
        to: BROADCAST_ADDR,
        channel: channel,
        id: 0,
        want_ack: false,
        priority: PRIORITY_DEFAULT,
        payload: PayloadView::Decoded(
            DataView {
                port: TEXT_MESSAGE_PORT,
                bytes: encode_utf8(outbound_text(sender, content)),
                want_response: false,
                request_id: 0,
            },
        ),
    }
}

/// The acknowledgement for a received packet id: a routing-type reply to the
/// original sender on channel 0, itself requesting no acknowledgement.
pub open spec fn ack_packet(packet_id: u32, to_node: u32) -> PacketView {
    PacketView {
        from: 0,
        to: to_node,
        channel: 0,
        id: 0,
        want_ack: false,
        priority: PRIORITY_ACK,
        payload: PayloadView::Decoded(
            DataView {
                port: ROUTING_PORT,
                bytes: Seq::empty(),
                want_response: false,
                request_id: packet_id,
            },
        ),
    }
}

/// A well-formed text packet for the configured channel: decoded, on the text
/// port, with non-empty bytes that are valid UTF-8.
pub open spec fn eligible_text(p: PacketView, channel: u32) -> bool {
    &&& p.channel == channel
    &&& p.payload matches PayloadView::Decoded(d) && d.port == TEXT_MESSAGE_PORT
        && d.bytes.len() > 0 && valid_utf8(d.bytes)
}

/// What the translator forwards to chat for one received packet, if anything:
/// only an eligible text packet whose text is not an echo of the relay's own
/// outbound tag, rendered with the sender's name.
pub open spec fn decode_spec(p: PacketView, channel: u32, dir: Map<u32, Seq<char>>) -> Option<
    Seq<char>,
> {
    match p.payload {
        PayloadView::Decoded(d) => {
            if eligible_text(p, channel) && !has_irc_tag(decode_utf8(d.bytes)) {
                Some(inbound_text(rendered_sender(dir, p.from), decode_utf8(d.bytes)))
            } else {
                None
            }
        },
        PayloadView::Opaque => None,
    }
}

/// Whether an acknowledgement is owed for one received packet: exactly when a
/// well-formed text packet on the configured channel requests one and carries
/// a non-zero packet id.
pub open spec fn ack_due(p: PacketView, channel: u32) -> bool {
    eligible_text(p, channel) && p.want_ack && p.id != 0
}

/// Builds the mesh packet for one chat message.
pub fn encode_message(msg: &IrcMessage, channel: u32) -> (p: MeshPacket)
    ensures
        p@ == encoded_packet(msg.sender@, msg.content@, channel),
{
    let mut text = String::from_str("[IRC-");
    text.append(msg.sender.as_str());
    text.append("] ");
    text.append(msg.content.as_str());
    let bytes = text.as_str().as_bytes_vec();
    MeshPacket {
        from: 0,
        to: BROADCAST_ADDR,
        channel,
        id: 0,
        want_ack: false,
        priority: PRIORITY_DEFAULT,
        payload: PacketPayload::Decoded(
            DataPayload {
                port: TEXT_MESSAGE_PORT,
                bytes,
                want_response: false,
                request_id: 0,
            },
        ),
    }
}

/// Builds the acknowledgement packet for a received packet id.
pub fn make_ack(packet_id: u32, to_node: u32) -> (p: MeshPacket)
    ensures
        p@ == ack_packet(packet_id, to_node),
{
    MeshPacket {
        from: 0,
        to: to_node,
        channel: 0,
        id: 0,
        want_ack: false,
        priority: PRIORITY_ACK,
        payload: PacketPayload::Decoded(
            DataPayload {
                port: ROUTING_PORT,
                bytes: Vec::new(),
                want_response: false,
                request_id: packet_id,
            },
        ),
    }
}

/// Translates one received packet to the chat line it should produce, if any.
pub fn decode_packet(p: &MeshPacket, channel: u32, dir: &NodeDirectory) -> (r: Option<String>)
    requires
        dir.wf(),
    ensures
        (match r {
            Some(s) => decode_spec(p@, channel, dir@) == Some(s@),
            None => decode_spec(p@, channel, dir@) is None,
        }),
        p@.channel != channel ==> r is None,
        (p@.payload matches PayloadView::Decoded(d) && valid_utf8(d.bytes) && has_irc_tag(
            decode_utf8(d.bytes),
        )) ==> r is None,
{
    match &p.payload {
        PacketPayload::Decoded(d) => {
            if p.channel == channel && d.port == TEXT_MESSAGE_PORT && d.bytes.len() > 0 {
                match bytes_to_string(&d.bytes) {
                    Some(text) => {
                        if str_starts_with(text.as_str(), "[IRC-") {
                            None
                        } else {
                            let sender = match dir.lookup(p.from) {
                                Some(n) => n.clone(),
                                None => hex8_string(p.from),
                            };
                            let mut out = String::from_str("[mesh-");
                            out.append(sender.as_str());
                            out.append("]: ");
                            out.append(text.as_str());
                            Some(out)
                        }
                    },
                    None => None,
                }
            } else {
                None
            }
        },
        PacketPayload::Opaque => None,
    }
}

/// What one decoded radio event asks of the serial transport: at most one line
/// to forward to chat, and at most one acknowledgement packet to transmit.
pub struct MeshStep {
    pub forward: Option<String>,
    pub ack: Option<MeshPacket>,
}

/// The serial transport's step for one decoded radio event: a mesh packet is
/// translated and acknowledged, a node identity broadcast updates the
/// directory, everything else is ignored. The acknowledgement is produced if
/// and only if an eligible text packet on the configured channel requests one
/// and carries a non-zero packet id.
pub fn handle_radio_event(ev: RadioEvent, channel: u32, dir: &mut NodeDirectory) -> (out: MeshStep)
    requires
        old(dir).wf(),
    ensures
        final(dir).wf(),
        (match ev {
            RadioEvent::Packet(p) => {
                &&& final(dir)@ == old(dir)@
                &&& (match out.forward {
                    Some(s) => decode_spec(p@, channel, old(dir)@) == Some(s@),
                    None => decode_spec(p@, channel, old(dir)@) is None,
                })
                &&& (out.ack is Some <==> ack_due(p@, channel))
                &&& (match out.ack {
                    Some(a) => a@ == ack_packet(p.id, p.from),
                    None => true,
                })
            },
            RadioEvent::NodeInfo { num, short_name } => {
                &&& out.forward is None && out.ack is None
                &&& (match short_name {
                    Some(n) => if n@.len() > 0 {
                        final(dir)@ == old(dir)@.insert(num, n@)
                    } else {
                        final(dir)@ == old(dir)@
                    },
                    None => final(dir)@ == old(dir)@,
                })
            },
            _ => out.forward is None && out.ack is None && final(dir)@ == old(dir)@,
        }),
{
    match ev {
        RadioEvent::Packet(p) => {
            let forward = decode_packet(&p, channel, dir);
            let text_ok = match &p.payload {
                PacketPayload::Decoded(d) => p.channel == channel && d.port == TEXT_MESSAGE_PORT
                    && d.bytes.len() > 0 && bytes_to_string(&d.bytes).is_some(),
                PacketPayload::Opaque => false,
            };
            let ack = if text_ok && p.want_ack && p.id != 0 {
                Some(make_ack(p.id, p.from))
            } else {
                None
            };
            MeshStep { forward, ack }
        },
        RadioEvent::NodeInfo { num, short_name } => {
            match short_name {
                Some(n) => {
                    if !n.as_str().is_empty() {
                        dir.upsert(num, n);
                    }
                },
                None => {},
            }
            MeshStep { forward: None, ack: None }
        },
        _ => MeshStep { forward: None, ack: None },
    }
}

/// Round trip: the packet encoded for a chat message sits on the configured
/// channel and carries exactly the UTF-8 encoding of "[IRC-{sender}] {content}".
pub proof fn lemma_encode_decode_round_trip(sender: Seq<char>, content: Seq<char>, channel: u32)
    ensures
        ({
            let p = encoded_packet(sender, content, channel);
            &&& p.channel == channel
            &&& p.payload matches PayloadView::Decoded(d) && valid_utf8(d.bytes) && decode_utf8(
                d.bytes,
            ) == outbound_text(sender, content)
        }),
{
    encode_utf8_valid_utf8(outbound_text(sender, content));
    encode_utf8_decode_utf8(outbound_text(sender, content));
}

/// Isolation: a packet from another channel is never forwarded.
pub proof fn lemma_channel_isolation(p: PacketView, channel: u32, dir: Map<u32, Seq<char>>)
    requires
        p.channel != channel,
    ensures
        decode_spec(p, channel, dir) is None,
{
}

/// Loop prevention: a text already carrying the relay's outbound tag is never
/// forwarded.
pub proof fn lemma_loop_prevention(p: PacketView, channel: u32, dir: Map<u32, Seq<char>>)
    requires
        p.payload matches PayloadView::Decoded(d) && valid_utf8(d.bytes) && has_irc_tag(
            decode_utf8(d.bytes),
        ),
    ensures
        decode_spec(p, channel, dir) is None,
{
}

/// An echo of the relay's own output is rejected: the packet the relay encodes
/// decodes to no chat line, whatever channel it is read against and whatever
/// names are known.
pub proof fn lemma_echo_rejected(
    sender: Seq<char>,
    content: Seq<char>,
    channel: u32,
    read_channel: u32,
    dir: Map<u32, Seq<char>>,
)
    ensures
        decode_spec(encoded_packet(sender, content, channel), read_channel, dir) is None,
{
    lemma_encode_decode_round_trip(sender, content, channel);
    let t = outbound_text(sender, content);
    reveal_strlit("[IRC-");
    assert(t.subrange(0, 5) =~= "[IRC-"@);
    lemma_loop_prevention(encoded_packet(sender, content, channel), read_channel, dir);
}

/// A sender with no directory entry is rendered as the zero-padded 8-digit hex
/// node id; once a name is learned for the id, the name is rendered instead.
pub proof fn lemma_sender_rendering(dir: Map<u32, Seq<char>>, id: u32, name: Seq<char>)
    requires
        !dir.contains_key(id),
    ensures
        rendered_sender(dir, id) == hex8(id),
        rendered_sender(dir.insert(id, name), id) == name,
{
}

/// A packet forwarded under one directory is still forwarded after a name is
/// learned for its sender, and its line now renders that name.
pub proof fn lemma_learned_name_rendered(
    p: PacketView,
    channel: u32,
    dir: Map<u32, Seq<char>>,
    name: Seq<char>,
)
    requires
        decode_spec(p, channel, dir) is Some,
    ensures
        p.payload matches PayloadView::Decoded(d) && decode_spec(p, channel, dir.insert(p.from, name))
            == Some(inbound_text(name, decode_utf8(d.bytes))),
{
}

} // verus!
