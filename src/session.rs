//! Per-device camera session state: the last capability advertisement, the
//! last status report and the last start settings.
use vstd::prelude::*;
use crate::camera::{
    CameraCapability, CameraCapabilityView, CameraFrame, CameraInfo,
    CameraSettings, CameraStart, CameraStartView, CameraStatus, CameraStatusView, CameraStop,
    StreamingStatus,
};
use crate::codec::{
    capability_from_json, frame_from_json, settings_json, start_json,
    status_from_json,
};
use crate::json::{lemma_object_model, members_model, str_eq, Json, JsonValue};
use crate::packet::{
    Packet, ProtocolError, PACKET_TYPE_CAMERA_CAPABILITY, PACKET_TYPE_CAMERA_FRAME,
    PACKET_TYPE_CAMERA_SETTINGS, PACKET_TYPE_CAMERA_START, PACKET_TYPE_CAMERA_STATUS,
    PACKET_TYPE_CAMERA_STOP,
};
use vstd::string::StringExecFns;

verus! {

pub struct SessionView {
    pub capability: Option<CameraCapabilityView>,
    pub status: Option<CameraStatusView>,
    pub settings: Option<CameraStartView>,
}

impl SessionView {
    /// Streaming is derived from the last status report.
    pub open spec fn is_streaming(&self) -> bool {
        self.status matches Some(s) && s.status == StreamingStatus::Streaming
    }

    pub open spec fn has_camera(&self) -> bool {
        self.capability matches Some(c) && c.cameras.len() > 0
    }

    pub open spec fn with_capability(self, c: CameraCapabilityView) -> SessionView {
        SessionView { capability: Some(c), ..self }
    }

    pub open spec fn with_status(self, s: Option<CameraStatusView>) -> SessionView {
        SessionView { status: s, ..self }
    }
}

/// The session before any packet.
pub open spec fn fresh_session() -> SessionView {
    SessionView { capability: None, status: None, settings: None }
}

/// What receiving a packet of type `kind` with `body` does to a session:
/// the new session, or the error with which the packet is refused (the
/// session then stays as it was). Capability and status packets replace
/// what was stored; a frame header is only checked; other types are
/// ignored.
pub open spec fn on_packet(v: SessionView, kind: Seq<char>, body: Json) -> Result<SessionView, ProtocolError> {
    if kind == PACKET_TYPE_CAMERA_CAPABILITY@ {
        match capability_from_json(body) {
            Some(c) => Ok(v.with_capability(c)),
            None => Err(ProtocolError::InvalidMessage),
        }
    } else if kind == PACKET_TYPE_CAMERA_STATUS@ {
        match status_from_json(body) {
            Some(s) => Ok(v.with_status(Some(s))),
            None => Err(ProtocolError::InvalidMessage),
        }
    } else if kind == PACKET_TYPE_CAMERA_FRAME@ {
        match frame_from_json(body) {
            Some(_) => Ok(v),
            None => Err(ProtocolError::InvalidMessage),
        }
    } else {
        Ok(v)
    }
}

/// The camera plugin of one paired device.
pub struct CameraPlugin {
    remote_capabilities: Option<CameraCapability>,
    streaming_status: Option<CameraStatus>,
    current_settings: Option<CameraStart>,
}

impl View for CameraPlugin {
    type V = SessionView;

    closed spec fn view(&self) -> SessionView {
        SessionView {
            capability: match self.remote_capabilities {
                Some(c) => Some(c@),
                None => None,
            },
            status: match self.streaming_status {
                Some(s) => Some(s@),
                None => None,
            },
            settings: match self.current_settings {
                Some(s) => Some(s@),
                None => None,
            },
        }
    }
}

impl Default for CameraPlugin {
    fn default() -> (r: CameraPlugin)
        ensures
            r@ == fresh_session(),
    {
        CameraPlugin::new()
    }
}

impl CameraPlugin {
    pub fn new() -> (r: CameraPlugin)
        ensures
            r@ == fresh_session(),
    {
        CameraPlugin { remote_capabilities: None, streaming_status: None, current_settings: None }
    }

    pub fn name(&self) -> (r: &'static str)
        ensures
            r@ == "camera"@,
    {
        "camera"
    }

    /// The packet types this plugin receives.
    pub fn incoming_capabilities(&self) -> (r: Vec<String>)
        ensures
            r@.map_values(|s: String| s@) == seq![
                PACKET_TYPE_CAMERA_CAPABILITY@,
                PACKET_TYPE_CAMERA_FRAME@,
                PACKET_TYPE_CAMERA_STATUS@,
            ],
    {
        let mut r: Vec<String> = Vec::new();
        r.push(String::from_str(PACKET_TYPE_CAMERA_CAPABILITY));
        r.push(String::from_str(PACKET_TYPE_CAMERA_FRAME));
        r.push(String::from_str(PACKET_TYPE_CAMERA_STATUS));
        assert(r@.map_values(|s: String| s@) =~= seq![
            PACKET_TYPE_CAMERA_CAPABILITY@,
            PACKET_TYPE_CAMERA_FRAME@,
            PACKET_TYPE_CAMERA_STATUS@,
        ]);
        r
    }

    /// The packet types this plugin sends.
    pub fn outgoing_capabilities(&self) -> (r: Vec<String>)
        ensures
            r@.map_values(|s: String| s@) == seq![
                PACKET_TYPE_CAMERA_START@,
                PACKET_TYPE_CAMERA_STOP@,
                PACKET_TYPE_CAMERA_SETTINGS@,
            ],
    {
        let mut r: Vec<String> = Vec::new();
        r.push(String::from_str(PACKET_TYPE_CAMERA_START));
        r.push(String::from_str(PACKET_TYPE_CAMERA_STOP));
        r.push(String::from_str(PACKET_TYPE_CAMERA_SETTINGS));
        assert(r@.map_values(|s: String| s@) =~= seq![
            PACKET_TYPE_CAMERA_START@,
            PACKET_TYPE_CAMERA_STOP@,
            PACKET_TYPE_CAMERA_SETTINGS@,
        ]);
        r
    }

    /// The last capability advertisement of the remote device.
    pub fn capabilities(&self) -> (r: Option<&CameraCapability>)
        ensures
            match r {
                Some(c) => self@.capability == Some(c@),
                None => self@.capability is None,
            },
    {
        self.remote_capabilities.as_ref()
    }

    /// Whether the remote device advertised at least one camera.
    pub fn has_camera(&self) -> (r: bool)
        ensures
            r == self@.has_camera(),
    {
        match &self.remote_capabilities {
            Some(c) => c.cameras.len() > 0,
            None => false,
        }
    }

    /// The cameras of the last capability advertisement.
    pub fn cameras(&self) -> (r: Option<&[CameraInfo]>)
        ensures
            match r {
                Some(cs) => self@.capability matches Some(c) && cs@.map_values(|x: CameraInfo| x@) == c.cameras,
                None => self@.capability is None,
            },
    {
        match &self.remote_capabilities {
            Some(c) => Some(c.cameras.as_slice()),
            None => None,
        }
    }

    /// Whether the last status report says the camera is streaming.
    pub fn is_streaming(&self) -> (r: bool)
        ensures
            r == self@.is_streaming(),
    {
        match &self.streaming_status {
            Some(s) => matches!(s.status, StreamingStatus::Streaming),
            None => false,
        }
    }

    /// The last status report.
    pub fn streaming_status(&self) -> (r: Option<&CameraStatus>)
        ensures
            match r {
                Some(s) => self@.status == Some(s@),
                None => self@.status is None,
            },
    {
        self.streaming_status.as_ref()
    }

    /// The last start settings applied.
    pub fn current_settings(&self) -> (r: Option<&CameraStart>)
        ensures
            match r {
                Some(s) => self@.settings == Some(s@),
                None => self@.settings is None,
            },
    {
        self.current_settings.as_ref()
    }

    /// A packet that asks the device for its capabilities: the capability
    /// type with an empty body.
    pub fn create_capability_query_packet(&self) -> (p: Packet)
        ensures
            p.packet_type@ == PACKET_TYPE_CAMERA_CAPABILITY@,
            p.body@ == Json::Object(Seq::empty()),
            p.payload_size is None,
    {
        let fields: Vec<(String, JsonValue)> = Vec::new();
        proof {
            lemma_object_model(fields);
            assert(members_model(fields@) =~= Seq::<(Seq<char>, Json)>::empty());
        }
        Packet::new(PACKET_TYPE_CAMERA_CAPABILITY, JsonValue::Object(fields))
    }

    /// A packet that starts streaming with `settings`.
    pub fn create_start_packet(&self, settings: CameraStart) -> (p: Packet)
        ensures
            p.packet_type@ == PACKET_TYPE_CAMERA_START@,
            p.body@ == start_json(settings@),
            p.payload_size is None,
    {
        settings.to_packet()
    }

    /// A packet that stops streaming.
    pub fn create_stop_packet(&self) -> (p: Packet)
        ensures
            p.packet_type@ == PACKET_TYPE_CAMERA_STOP@,
            p.body@ == Json::Object(Seq::empty()),
            p.payload_size is None,
    {
        CameraStop::to_packet()
    }

    /// A packet that patches the settings of a running stream.
    pub fn create_settings_packet(&self, settings: CameraSettings) -> (p: Packet)
        ensures
            p.packet_type@ == PACKET_TYPE_CAMERA_SETTINGS@,
            p.body@ == settings_json(settings),
            p.payload_size is None,
    {
        settings.to_packet()
    }

    /// Replaces the stored capability with the one in `packet`. A malformed
    /// advertisement is refused and changes nothing.
    pub fn handle_capability(&mut self, packet: &Packet) -> (r: Result<(), ProtocolError>)
        ensures
            match capability_from_json(packet.body@) {
                Some(c) => r is Ok && final(self)@ == old(self)@.with_capability(c),
                None => r == Err::<(), ProtocolError>(ProtocolError::InvalidMessage) && final(self)@ == old(self)@,
            },
    {
        let capability = match CameraCapability::from_packet(packet) {
            Ok(c) => c,
            Err(e) => return Err(e),
        };
        self.remote_capabilities = Some(capability);
        Ok(())
    }

    /// Replaces the stored status with the one in `packet`; streaming then
    /// holds exactly when that status is `Streaming`. A malformed report is
    /// refused and changes nothing.
    pub fn handle_status(&mut self, packet: &Packet) -> (r: Result<(), ProtocolError>)
        ensures
            match status_from_json(packet.body@) {
                Some(s) => r is Ok && final(self)@ == old(self)@.with_status(Some(s)),
                None => r == Err::<(), ProtocolError>(ProtocolError::InvalidMessage) && final(self)@ == old(self)@,
            },
            r is Ok ==> final(self)@.is_streaming() == (status_from_json(packet.body@)->Some_0.status == StreamingStatus::Streaming),
    {
        let status = match CameraStatus::from_packet(packet) {
            Ok(s) => s,
            Err(e) => return Err(e),
        };
        self.streaming_status = Some(status);
        Ok(())
    }

    /// Reads the frame header in `packet`; the session is not changed.
    pub fn handle_frame(&mut self, packet: &Packet) -> (r: Result<CameraFrame, ProtocolError>)
        ensures
            final(self)@ == old(self)@,
            match frame_from_json(packet.body@) {
                Some(f) => r == Ok::<CameraFrame, ProtocolError>(f),
                None => r == Err::<CameraFrame, ProtocolError>(ProtocolError::InvalidMessage),
            },
    {
        CameraFrame::from_packet(packet)
    }

    /// Dispatches a received packet by its type (see `on_packet`).
    pub fn handle_packet(&mut self, packet: &Packet) -> (r: Result<(), ProtocolError>)
        ensures
            match on_packet(old(self)@, packet.packet_type@, packet.body@) {
                Ok(v) => r is Ok && final(self)@ == v,
                Err(e) => r == Err::<(), ProtocolError>(e) && final(self)@ == old(self)@,
            },
    {
        let t = packet.packet_type.as_str();
        if str_eq(t, PACKET_TYPE_CAMERA_CAPABILITY) {
            self.handle_capability(packet)
        } else if str_eq(t, PACKET_TYPE_CAMERA_STATUS) {
            self.handle_status(packet)
        } else if str_eq(t, PACKET_TYPE_CAMERA_FRAME) {
            match self.handle_frame(packet) {
                Ok(_) => Ok(()),
                Err(e) => Err(e),
            }
        } else {
            Ok(())
        }
    }

    /// Ends the session: the status is cleared, so nothing streams any more.
    pub fn shutdown(&mut self) -> (r: Result<(), ProtocolError>)
        ensures
            r is Ok,
            final(self)@ == old(self)@.with_status(None),
            !final(self)@.is_streaming(),
    {
        self.streaming_status = None;
        Ok(())
    }
}

} // verus!
