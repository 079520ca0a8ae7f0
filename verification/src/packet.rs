//! The library's model of a mesh radio packet: the fields the relay reads and
//! writes, as plain values, together with ghost views for contracts.
use vstd::prelude::*;

verus! {

/// Application port carrying plain text messages.
pub const TEXT_MESSAGE_PORT: i32 = 1;

/// Application port carrying routing control traffic, acknowledgements included.
pub const ROUTING_PORT: i32 = 5;

/// Default send priority for ordinary outbound packets.
pub const PRIORITY_DEFAULT: i32 = 64;

/// Raised send priority used for acknowledgement packets.
pub const PRIORITY_ACK: i32 = 120;

/// Destination address meaning "every node on the channel".
pub const BROADCAST_ADDR: u32 = 0xffff_ffff;

/// A decoded application payload: a port number and its bytes.
pub struct DataPayload {
    pub port: i32,
    pub bytes: Vec<u8>,
    pub want_response: bool,
    pub request_id: u32,
}

pub ghost struct DataView {
    pub port: i32,
    pub bytes: Seq<u8>,
    pub want_response: bool,
    pub request_id: u32,
}

impl View for DataPayload {
    type V = DataView;

    open spec fn view(&self) -> DataView {
        DataView {
            port: self.port,
            bytes: self.bytes@,
            want_response: self.want_response,
            request_id: self.request_id,
        }
    }
}

/// A packet's application content: either decoded, or opaque to the relay
/// (encrypted, or of a shape the relay does not read).
pub enum PacketPayload {
    Decoded(DataPayload),
    Opaque,
}

pub ghost enum PayloadView {
    Decoded(DataView),
    Opaque,
}

impl View for PacketPayload {
    type V = PayloadView;

    open spec fn view(&self) -> PayloadView {
        match self {
            PacketPayload::Decoded(d) => PayloadView::Decoded(d@),
            PacketPayload::Opaque => PayloadView::Opaque,
        }
    }
}

/// One mesh radio packet, as the relay models it.
pub struct MeshPacket {
    pub from: u32,
    pub to: u32,
    pub channel: u32,
    pub id: u32,
    pub want_ack: bool,
    pub priority: i32,
    pub payload: PacketPayload,
}

pub ghost struct PacketView {
    pub from: u32,
    pub to: u32,
    pub channel: u32,
    pub id: u32,
    pub want_ack: bool,
    pub priority: i32,
    pub payload: PayloadView,
}

impl View for MeshPacket {
    type V = PacketView;

    open spec fn view(&self) -> PacketView {
        PacketView {
            from: self.from,
            to: self.to,
            channel: self.channel,
            id: self.id,
            want_ack: self.want_ack,
            priority: self.priority,
            payload: self.payload@,
        }
    }
}

/// One decoded event from the radio stream: a mesh packet, a node identity
/// broadcast, the device's own identity, a device configuration item, or
/// anything else the relay ignores.
pub enum RadioEvent {
    Packet(MeshPacket),
    NodeInfo { num: u32, short_name: Option<String> },
    MyInfo { node_num: u32 },
    DeviceConfig,
    Other,
}

} // verus!
