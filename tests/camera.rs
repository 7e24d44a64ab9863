use cosmic_ext_connect_core::camera::{
    CameraCapability, CameraFacing, CameraFrame, CameraInfo, CameraSettings, CameraStart,
    CameraStatus, CameraStop, FrameType, Resolution, StreamingStatus,
};
use cosmic_ext_connect_core::json::JsonValue;
use cosmic_ext_connect_core::packet::{
    PACKET_TYPE_CAMERA_CAPABILITY, PACKET_TYPE_CAMERA_FRAME, PACKET_TYPE_CAMERA_SETTINGS,
    PACKET_TYPE_CAMERA_START, PACKET_TYPE_CAMERA_STATUS, PACKET_TYPE_CAMERA_STOP,
};
use cosmic_ext_connect_core::session::CameraPlugin;

/// The body as JSON text, written by serde_json.
fn json_text(v: &JsonValue) -> String {
    serde_json::to_string(&to_serde(v)).unwrap()
}

fn to_serde(v: &JsonValue) -> serde_json::Value {
    match v {
        JsonValue::Null => serde_json::Value::Null,
        JsonValue::Bool(b) => serde_json::Value::Bool(*b),
        JsonValue::UInt(n) => serde_json::Value::from(*n),
        JsonValue::NegInt(n) => serde_json::Value::from(*n),
        JsonValue::Decimal(s) => serde_json::from_str(s).unwrap(),
        JsonValue::Str(s) => serde_json::Value::String(s.clone()),
        JsonValue::Array(items) => serde_json::Value::Array(items.iter().map(to_serde).collect()),
        JsonValue::Object(fields) => {
            let mut m = serde_json::Map::new();
            for (k, x) in fields {
                m.insert(k.clone(), to_serde(x));
            }
            serde_json::Value::Object(m)
        }
    }
}

#[test]
fn test_resolution_presets() {
    assert_eq!(Resolution::p480(), Resolution::new(854, 480));
    assert_eq!(Resolution::p720(), Resolution::new(1280, 720));
    assert_eq!(Resolution::p1080(), Resolution::new(1920, 1080));
}

#[test]
fn test_resolution_pixels() {
    let res = Resolution::p720();
    assert_eq!(res.pixels(), 1280 * 720);
}

#[test]
fn test_frame_type_from_u8() {
    assert_eq!(FrameType::from_u8(0x01), Some(FrameType::SpsPps));
    assert_eq!(FrameType::from_u8(0x02), Some(FrameType::IFrame));
    assert_eq!(FrameType::from_u8(0x03), Some(FrameType::PFrame));
    assert_eq!(FrameType::from_u8(0xFF), None);
}

#[test]
fn test_frame_type_is_keyframe() {
    assert!(FrameType::SpsPps.is_keyframe());
    assert!(FrameType::IFrame.is_keyframe());
    assert!(!FrameType::PFrame.is_keyframe());
}

#[test]
fn test_camera_capability_serialization() {
    let capability = CameraCapability {
        cameras: vec![CameraInfo {
            id: 0,
            name: "Back Camera".to_string(),
            facing: CameraFacing::Back,
            max_resolution: Resolution::p1080(),
            resolutions: vec![Resolution::p1080(), Resolution::p720(), Resolution::p480()],
        }],
        supported_codecs: vec!["h264".to_string()],
        audio_supported: false,
        max_resolution: Resolution::p1080(),
        max_bitrate: 8000,
        max_fps: 60,
    };

    let packet = capability.to_packet();
    assert_eq!(packet.packet_type, PACKET_TYPE_CAMERA_CAPABILITY);

    let parsed = CameraCapability::from_packet(&packet).unwrap();
    assert_eq!(parsed.cameras.len(), 1);
    assert_eq!(parsed.cameras[0].name, "Back Camera");
    assert_eq!(parsed.supported_codecs, vec!["h264"]);
}

#[test]
fn test_camera_start_serialization() {
    let start = CameraStart::default_720p(0);
    let packet = start.to_packet();
    assert_eq!(packet.packet_type, PACKET_TYPE_CAMERA_START);

    let parsed = CameraStart::from_packet(&packet).unwrap();
    assert_eq!(parsed.camera_id, 0);
    assert_eq!(parsed.resolution, Resolution::p720());
    assert_eq!(parsed.fps, 30);
    assert_eq!(parsed.bitrate, 2000);
    assert_eq!(parsed.codec, "h264");
}

#[test]
fn test_camera_stop_serialization() {
    let packet = CameraStop::to_packet();
    assert_eq!(packet.packet_type, PACKET_TYPE_CAMERA_STOP);
}

#[test]
fn test_camera_settings_serialization() {
    let settings = CameraSettings {
        camera_id: Some(1),
        resolution: Some(Resolution::p720()),
        fps: None,
        bitrate: None,
        flash: Some(true),
        autofocus: None,
    };

    let packet = settings.to_packet();
    assert_eq!(packet.packet_type, PACKET_TYPE_CAMERA_SETTINGS);

    let json = json_text(&packet.body);
    // Optional None fields should be omitted
    assert!(!json.contains("fps"));
    assert!(!json.contains("autofocus"));
    // Present fields should be included
    assert!(json.contains("cameraId"));
    assert!(json.contains("flash"));
}

#[test]
fn test_camera_frame_serialization() {
    let frame = CameraFrame {
        frame_type: FrameType::IFrame,
        timestamp_us: 1234567890,
        sequence_number: 42,
        size: 65536,
    };

    let packet = frame.to_packet();
    assert_eq!(packet.packet_type, PACKET_TYPE_CAMERA_FRAME);
    assert_eq!(packet.payload_size, Some(65536));

    let parsed = CameraFrame::from_packet(&packet).unwrap();
    assert_eq!(parsed.frame_type, FrameType::IFrame);
    assert_eq!(parsed.timestamp_us, 1234567890);
    assert_eq!(parsed.sequence_number, 42);
}

#[test]
fn test_camera_status_serialization() {
    let status = CameraStatus::streaming(0, Resolution::p720(), 30, 2000);
    let packet = status.to_packet();
    assert_eq!(packet.packet_type, PACKET_TYPE_CAMERA_STATUS);

    let parsed = CameraStatus::from_packet(&packet).unwrap();
    assert_eq!(parsed.status, StreamingStatus::Streaming);
    assert_eq!(parsed.resolution, Resolution::p720());
}

#[test]
fn test_camera_status_error() {
    let status = CameraStatus::error("Camera access denied");
    assert_eq!(status.status, StreamingStatus::Error);
    assert_eq!(status.error, Some("Camera access denied".to_string()));
}

#[test]
fn test_camera_plugin_new() {
    let plugin = CameraPlugin::new();
    assert_eq!(plugin.name(), "camera");
    assert!(!plugin.has_camera());
    assert!(!plugin.is_streaming());
}

#[test]
fn test_camera_plugin_capabilities() {
    let plugin = CameraPlugin::new();
    let incoming = plugin.incoming_capabilities();
    let outgoing = plugin.outgoing_capabilities();

    assert!(incoming.contains(&PACKET_TYPE_CAMERA_CAPABILITY.to_string()));
    assert!(incoming.contains(&PACKET_TYPE_CAMERA_FRAME.to_string()));
    assert!(incoming.contains(&PACKET_TYPE_CAMERA_STATUS.to_string()));

    assert!(outgoing.contains(&PACKET_TYPE_CAMERA_START.to_string()));
    assert!(outgoing.contains(&PACKET_TYPE_CAMERA_STOP.to_string()));
    assert!(outgoing.contains(&PACKET_TYPE_CAMERA_SETTINGS.to_string()));
}

#[test]
fn test_camera_plugin_handle_capability() {
    let mut plugin = CameraPlugin::new();

    let capability = CameraCapability {
        cameras: vec![
            CameraInfo {
                id: 0,
                name: "Back Camera".to_string(),
                facing: CameraFacing::Back,
                max_resolution: Resolution::p1080(),
                resolutions: vec![Resolution::p1080(), Resolution::p720()],
            },
            CameraInfo {
                id: 1,
                name: "Front Camera".to_string(),
                facing: CameraFacing::Front,
                max_resolution: Resolution::p720(),
                resolutions: vec![Resolution::p720()],
            },
        ],
        supported_codecs: vec!["h264".to_string()],
        audio_supported: false,
        max_resolution: Resolution::p1080(),
        max_bitrate: 8000,
        max_fps: 60,
    };

    let packet = capability.to_packet();
    plugin.handle_packet(&packet).unwrap();

    assert!(plugin.has_camera());
    assert_eq!(plugin.cameras().unwrap().len(), 2);
}

#[test]
fn test_camera_plugin_handle_status() {
    let mut plugin = CameraPlugin::new();

    let status = CameraStatus::streaming(0, Resolution::p720(), 30, 2000);
    let packet = status.to_packet();
    plugin.handle_packet(&packet).unwrap();

    assert!(plugin.is_streaming());
    assert_eq!(
        plugin.streaming_status().unwrap().status,
        StreamingStatus::Streaming
    );
}
