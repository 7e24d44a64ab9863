//! Control messages as one tagged union, dispatched on the packet type.
use vstd::prelude::*;
use crate::camera::{
    CameraCapability, CameraCapabilityView, CameraFrame, CameraSettings, CameraStart,
    CameraStartView, CameraStatus, CameraStatusView,
};
use crate::codec::{
    capability_from_json, frame_from_json, settings_from_json, start_from_json, status_from_json,
};
use crate::json::{str_eq, Json, JsonValue};
use crate::packet::{
    Packet, ProtocolError, PACKET_TYPE_CAMERA_CAPABILITY, PACKET_TYPE_CAMERA_FRAME,
    PACKET_TYPE_CAMERA_SETTINGS, PACKET_TYPE_CAMERA_START, PACKET_TYPE_CAMERA_STATUS,
    PACKET_TYPE_CAMERA_STOP,
};

verus! {

/// A camera control message of any kind.
#[derive(Debug)]
pub enum CameraMessage {
    /// A capability packet with an empty body: a request for the capability.
    CapabilityQuery,
    Capability(CameraCapability),
    Start(CameraStart),
    Stop,
    Settings(CameraSettings),
    Status(CameraStatus),
    FrameHeader(CameraFrame),
    /// A packet of a type this plugin does not handle; it is ignored.
    Unrecognized,
}

pub enum CameraMessageView {
    CapabilityQuery,
    Capability(CameraCapabilityView),
    Start(CameraStartView),
    Stop,
    Settings(CameraSettings),
    Status(CameraStatusView),
    FrameHeader(CameraFrame),
    Unrecognized,
}

impl View for CameraMessage {
    type V = CameraMessageView;

    open spec fn view(&self) -> CameraMessageView {
        match self {
            CameraMessage::CapabilityQuery => CameraMessageView::CapabilityQuery,
            CameraMessage::Capability(c) => CameraMessageView::Capability(c@),
            CameraMessage::Start(s) => CameraMessageView::Start(s@),
            CameraMessage::Stop => CameraMessageView::Stop,
            CameraMessage::Settings(s) => CameraMessageView::Settings(*s),
            CameraMessage::Status(s) => CameraMessageView::Status(s@),
            CameraMessage::FrameHeader(f) => CameraMessageView::FrameHeader(*f),
            CameraMessage::Unrecognized => CameraMessageView::Unrecognized,
        }
    }
}

/// Lifts a reading of a body into a message, or `InvalidMessage`.
pub open spec fn read_as<T>(r: Option<T>, wrap: spec_fn(T) -> CameraMessageView) -> Result<CameraMessageView, ProtocolError> {
    match r {
        Some(x) => Ok(wrap(x)),
        None => Err(ProtocolError::InvalidMessage),
    }
}

/// The message a packet of type `kind` with `body` holds.
pub open spec fn message_from_json(kind: Seq<char>, body: Json) -> Result<CameraMessageView, ProtocolError> {
    if kind == PACKET_TYPE_CAMERA_CAPABILITY@ {
        if body == Json::Object(Seq::empty()) {
            Ok(CameraMessageView::CapabilityQuery)
        } else {
            read_as(capability_from_json(body), |c: CameraCapabilityView| CameraMessageView::Capability(c))
        }
    } else if kind == PACKET_TYPE_CAMERA_START@ {
        read_as(start_from_json(body), |s: CameraStartView| CameraMessageView::Start(s))
    } else if kind == PACKET_TYPE_CAMERA_STOP@ {
        Ok(CameraMessageView::Stop)
    } else if kind == PACKET_TYPE_CAMERA_SETTINGS@ {
        read_as(settings_from_json(body), |s: CameraSettings| CameraMessageView::Settings(s))
    } else if kind == PACKET_TYPE_CAMERA_STATUS@ {
        read_as(status_from_json(body), |s: CameraStatusView| CameraMessageView::Status(s))
    } else if kind == PACKET_TYPE_CAMERA_FRAME@ {
        read_as(frame_from_json(body), |f: CameraFrame| CameraMessageView::FrameHeader(f))
    } else {
        Ok(CameraMessageView::Unrecognized)
    }
}

fn is_empty_object(v: &JsonValue) -> (r: bool)
    ensures
        r == (v@ == Json::Object(Seq::empty())),
{
    match v {
        JsonValue::Object(fields) => {
            proof {
                crate::json::lemma_object_model(*fields);
                let m = crate::json::members_model(fields@);
                assert(m.len() == fields@.len());
                if fields@.len() == 0 {
                    assert(m =~= Seq::<(Seq<char>, Json)>::empty());
                }
            }
            fields.len() == 0
        },
        _ => false,
    }
}

impl CameraMessage {
    /// Reads the message a packet holds, by its type; fails with
    /// `InvalidMessage` where the body does not fit the type.
    pub fn from_packet(packet: &Packet) -> (r: Result<CameraMessage, ProtocolError>)
        ensures
            match r {
                Ok(m) => message_from_json(packet.packet_type@, packet.body@) == Ok::<CameraMessageView, ProtocolError>(m@),
                Err(e) => message_from_json(packet.packet_type@, packet.body@) == Err::<CameraMessageView, ProtocolError>(e),
            },
    {
        let t = packet.packet_type.as_str();
        if str_eq(t, PACKET_TYPE_CAMERA_CAPABILITY) {
            if is_empty_object(&packet.body) {
                Ok(CameraMessage::CapabilityQuery)
            } else {
                match CameraCapability::from_packet(packet) {
                    Ok(c) => Ok(CameraMessage::Capability(c)),
                    Err(e) => Err(e),
                }
            }
        } else if str_eq(t, PACKET_TYPE_CAMERA_START) {
            match CameraStart::from_packet(packet) {
                Ok(s) => Ok(CameraMessage::Start(s)),
                Err(e) => Err(e),
            }
        } else if str_eq(t, PACKET_TYPE_CAMERA_STOP) {
            Ok(CameraMessage::Stop)
        } else if str_eq(t, PACKET_TYPE_CAMERA_SETTINGS) {
            match CameraSettings::from_packet(packet) {
                Ok(s) => Ok(CameraMessage::Settings(s)),
                Err(e) => Err(e),
            }
        } else if str_eq(t, PACKET_TYPE_CAMERA_STATUS) {
            match CameraStatus::from_packet(packet) {
                Ok(s) => Ok(CameraMessage::Status(s)),
                Err(e) => Err(e),
            }
        } else if str_eq(t, PACKET_TYPE_CAMERA_FRAME) {
            match CameraFrame::from_packet(packet) {
                Ok(f) => Ok(CameraMessage::FrameHeader(f)),
                Err(e) => Err(e),
            }
        } else {
            Ok(CameraMessage::Unrecognized)
        }
    }
}

} // verus!
