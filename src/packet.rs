//! Packets: a type tag, a JSON body and, for frames, the size of the binary
//! payload that follows on the same channel.
use vstd::prelude::*;
use vstd::string::StringExecFns;
use crate::json::JsonValue;

verus! {

/// Capability advertisement, device to host (an empty body asks for one).
pub const PACKET_TYPE_CAMERA_CAPABILITY: &'static str = "cconnect.camera.capability";

/// Start streaming, host to device.
pub const PACKET_TYPE_CAMERA_START: &'static str = "cconnect.camera.start";

/// Stop streaming, host to device.
pub const PACKET_TYPE_CAMERA_STOP: &'static str = "cconnect.camera.stop";

/// Settings patch, host to device.
pub const PACKET_TYPE_CAMERA_SETTINGS: &'static str = "cconnect.camera.settings";

/// Frame header, device to host; the frame bytes follow as payload.
pub const PACKET_TYPE_CAMERA_FRAME: &'static str = "cconnect.camera.frame";

/// Status report, device to host.
pub const PACKET_TYPE_CAMERA_STATUS: &'static str = "cconnect.camera.status";

/// Why a control message or a frame was dropped. Neither ends the session.
#[derive(Clone, Copy, Debug, PartialEq, Eq, Structural)]
pub enum ProtocolError {
    /// A required member of a control message is absent or of the wrong type.
    InvalidMessage,
    /// The channel closed, or the wait ran out, before a frame's payload was
    /// complete.
    IncompleteFrame,
}

#[derive(Debug)]
pub struct Packet {
    pub packet_type: String,
    pub body: JsonValue,
    /// Number of payload bytes that follow the packet, if any.
    pub payload_size: Option<u64>,
}

impl Packet {
    pub fn new(packet_type: &str, body: JsonValue) -> (r: Packet)
        ensures
            r.packet_type@ == packet_type@,
            r.body@ == body@,
            r.payload_size is None,
    {
        Packet { packet_type: String::from_str(packet_type), body, payload_size: None }
    }

    pub fn with_payload_size(self, size: u64) -> (r: Packet)
        ensures
            r.packet_type@ == self.packet_type@,
            r.body@ == self.body@,
            r.payload_size == Some(size),
    {
        Packet { payload_size: Some(size), ..self }
    }
}

} // verus!
