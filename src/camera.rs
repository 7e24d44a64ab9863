//! Camera session data: resolutions, frame kinds, capabilities and control
//! requests exchanged with the remote device.
use vstd::prelude::*;
use vstd::string::StringExecFns;

verus! {

/// Video resolution in pixels.
#[derive(Clone, Copy, Debug, PartialEq, Eq, Structural)]
pub struct Resolution {
    pub width: u32,
    pub height: u32,
}

impl Resolution {
    pub fn new(width: u32, height: u32) -> (r: Resolution)
        ensures
            r.width == width,
            r.height == height,
    {
        Resolution { width, height }
    }

    /// 854x480.
    pub fn p480() -> (r: Resolution)
        ensures
            r.width == 854 && r.height == 480,
    {
        Resolution::new(854, 480)
    }

    /// 1280x720.
    pub fn p720() -> (r: Resolution)
        ensures
            r.width == 1280 && r.height == 720,
    {
        Resolution::new(1280, 720)
    }

    /// 1920x1080.
    pub fn p1080() -> (r: Resolution)
        ensures
            r.width == 1920 && r.height == 1080,
    {
        Resolution::new(1920, 1080)
    }

    /// Total pixel count, computed in 64 bits so that it never overflows.
    pub fn pixels(&self) -> (r: u64)
        ensures
            r as int == self.width as int * self.height as int,
    {
        proof {
            vstd::arithmetic::mul::lemma_mul_upper_bound(
                self.width as int,
                0xffff_ffff,
                self.height as int,
                0xffff_ffff,
            );
        }
        self.width as u64 * self.height as u64
    }
}

/// Which way a camera faces.
#[derive(Clone, Copy, Debug, PartialEq, Eq, Structural)]
pub enum CameraFacing {
    Front,
    Back,
    External,
}

impl Default for CameraFacing {
    fn default() -> (r: CameraFacing)
        ensures
            r == CameraFacing::Back,
    {
        CameraFacing::Back
    }
}

/// Kind of an H.264 access unit sent by the device.
#[derive(Clone, Copy, Debug, PartialEq, Eq, Structural)]
pub enum FrameType {
    /// SPS/PPS decoder configuration.
    SpsPps,
    /// Keyframe, decodable on its own.
    IFrame,
    /// Delta frame, depends on earlier frames.
    PFrame,
}

/// The byte that stands for a frame kind.
pub open spec fn frame_type_byte(t: FrameType) -> u8 {
    match t {
        FrameType::SpsPps => 1,
        FrameType::IFrame => 2,
        FrameType::PFrame => 3,
    }
}

/// The frame kind a byte stands for, if any.
pub open spec fn frame_type_of_byte(b: u8) -> Option<FrameType> {
    if b == 1 {
        Some(FrameType::SpsPps)
    } else if b == 2 {
        Some(FrameType::IFrame)
    } else if b == 3 {
        Some(FrameType::PFrame)
    } else {
        None
    }
}

impl FrameType {
    pub fn from_u8(value: u8) -> (r: Option<FrameType>)
        ensures
            r == frame_type_of_byte(value),
    {
        match value {
            1 => Some(FrameType::SpsPps),
            2 => Some(FrameType::IFrame),
            3 => Some(FrameType::PFrame),
            _ => None,
        }
    }

    pub fn to_u8(&self) -> (r: u8)
        ensures
            r == frame_type_byte(*self),
    {
        match self {
            FrameType::SpsPps => 1,
            FrameType::IFrame => 2,
            FrameType::PFrame => 3,
        }
    }

    /// SPS/PPS and I-frames are keyframes; P-frames are not.
    pub fn is_keyframe(&self) -> (r: bool)
        ensures
            r == (*self == FrameType::SpsPps || *self == FrameType::IFrame),
    {
        match self {
            FrameType::SpsPps => true,
            FrameType::IFrame => true,
            FrameType::PFrame => false,
        }
    }
}

/// The frame-kind byte mapping is a bijection between the three kinds and
/// the bytes 1, 2 and 3; every other byte maps to no kind.
pub proof fn lemma_frame_type_bijection(t: FrameType, b: u8)
    ensures
        frame_type_of_byte(frame_type_byte(t)) == Some(t),
        frame_type_of_byte(b) matches Some(u) ==> frame_type_byte(u) == b,
        frame_type_of_byte(b) is Some <==> (1 <= b && b <= 3),
{
}

/// State of the remote camera stream.
#[derive(Clone, Copy, Debug, PartialEq, Eq, Structural)]
pub enum StreamingStatus {
    Starting,
    Streaming,
    Stopping,
    Stopped,
    Error,
}

/// One camera of the remote device.
#[derive(Clone, Debug, PartialEq)]
pub struct CameraInfo {
    pub id: u32,
    pub name: String,
    pub facing: CameraFacing,
    pub max_resolution: Resolution,
    pub resolutions: Vec<Resolution>,
}

pub struct CameraInfoView {
    pub id: u32,
    pub name: Seq<char>,
    pub facing: CameraFacing,
    pub max_resolution: Resolution,
    pub resolutions: Seq<Resolution>,
}

impl View for CameraInfo {
    type V = CameraInfoView;

    open spec fn view(&self) -> CameraInfoView {
        CameraInfoView {
            id: self.id,
            name: self.name@,
            facing: self.facing,
            max_resolution: self.max_resolution,
            resolutions: self.resolutions@,
        }
    }
}

/// The cameras and limits that the remote device advertises.
#[derive(Clone, Debug, PartialEq)]
pub struct CameraCapability {
    pub cameras: Vec<CameraInfo>,
    pub supported_codecs: Vec<String>,
    pub audio_supported: bool,
    pub max_resolution: Resolution,
    /// In kbps.
    pub max_bitrate: u32,
    pub max_fps: u32,
}

pub struct CameraCapabilityView {
    pub cameras: Seq<CameraInfoView>,
    pub supported_codecs: Seq<Seq<char>>,
    pub audio_supported: bool,
    pub max_resolution: Resolution,
    pub max_bitrate: u32,
    pub max_fps: u32,
}

impl View for CameraCapability {
    type V = CameraCapabilityView;

    open spec fn view(&self) -> CameraCapabilityView {
        CameraCapabilityView {
            cameras: self.cameras@.map_values(|c: CameraInfo| c@),
            supported_codecs: self.supported_codecs@.map_values(|s: String| s@),
            audio_supported: self.audio_supported,
            max_resolution: self.max_resolution,
            max_bitrate: self.max_bitrate,
            max_fps: self.max_fps,
        }
    }
}

/// A request to start streaming with the given settings.
#[derive(Clone, Debug, PartialEq)]
pub struct CameraStart {
    pub camera_id: u32,
    pub resolution: Resolution,
    pub fps: u32,
    /// In kbps.
    pub bitrate: u32,
    pub codec: String,
}

pub struct CameraStartView {
    pub camera_id: u32,
    pub resolution: Resolution,
    pub fps: u32,
    pub bitrate: u32,
    pub codec: Seq<char>,
}

impl View for CameraStart {
    type V = CameraStartView;

    open spec fn view(&self) -> CameraStartView {
        CameraStartView {
            camera_id: self.camera_id,
            resolution: self.resolution,
            fps: self.fps,
            bitrate: self.bitrate,
            codec: self.codec@,
        }
    }
}

impl CameraStart {
    /// The canonical default: 1280x720 at 30 fps, 2000 kbps, H.264.
    pub fn default_720p(camera_id: u32) -> (r: CameraStart)
        ensures
            r.camera_id == camera_id,
            r.resolution == (Resolution { width: 1280, height: 720 }),
            r.fps == 30,
            r.bitrate == 2000,
            r.codec@ == "h264"@,
    {
        CameraStart {
            camera_id,
            resolution: Resolution::p720(),
            fps: 30,
            bitrate: 2000,
            codec: String::from_str("h264"),
        }
    }
}

/// A request to stop streaming.
#[derive(Clone, Copy, Debug, PartialEq, Eq, Structural)]
pub struct CameraStop;

/// A sparse change of settings: each field is present or absent on its own.
/// A patch with every field absent changes nothing and is valid.
#[derive(Clone, Copy, Debug, PartialEq, Eq, Structural)]
pub struct CameraSettings {
    pub camera_id: Option<u32>,
    pub resolution: Option<Resolution>,
    pub fps: Option<u32>,
    pub bitrate: Option<u32>,
    pub flash: Option<bool>,
    pub autofocus: Option<bool>,
}

impl Default for CameraSettings {
    fn default() -> (r: CameraSettings)
        ensures
            r == CameraSettings::empty_spec(),
    {
        CameraSettings::empty()
    }
}

impl CameraSettings {
    /// The patch with every field absent.
    pub fn empty() -> (r: CameraSettings)
        ensures
            r == CameraSettings::empty_spec(),
    {
        CameraSettings {
            camera_id: None,
            resolution: None,
            fps: None,
            bitrate: None,
            flash: None,
            autofocus: None,
        }
    }

    /// A patch that only switches to another camera.
    pub fn switch_camera(camera_id: u32) -> (r: CameraSettings)
        ensures
            r == (CameraSettings { camera_id: Some(camera_id), ..CameraSettings::empty_spec() }),
    {
        CameraSettings { camera_id: Some(camera_id), ..CameraSettings::empty() }
    }

    /// A patch that only changes the resolution.
    pub fn change_resolution(resolution: Resolution) -> (r: CameraSettings)
        ensures
            r == (CameraSettings { resolution: Some(resolution), ..CameraSettings::empty_spec() }),
    {
        CameraSettings { resolution: Some(resolution), ..CameraSettings::empty() }
    }

    /// The patch with every field absent.
    pub open spec fn empty_spec() -> CameraSettings {
        CameraSettings {
            camera_id: None,
            resolution: None,
            fps: None,
            bitrate: None,
            flash: None,
            autofocus: None,
        }
    }
}

/// Header of one encoded frame; exactly `size` payload bytes follow it on
/// the same channel.
#[derive(Clone, Copy, Debug, PartialEq, Eq, Structural)]
pub struct CameraFrame {
    pub frame_type: FrameType,
    pub timestamp_us: u64,
    pub sequence_number: u64,
    pub size: u64,
}

/// A status report of the remote camera.
#[derive(Clone, Debug, PartialEq)]
pub struct CameraStatus {
    pub status: StreamingStatus,
    pub camera_id: u32,
    pub resolution: Resolution,
    pub fps: u32,
    pub bitrate: u32,
    /// Present only with `StreamingStatus::Error`.
    pub error: Option<String>,
}

pub struct CameraStatusView {
    pub status: StreamingStatus,
    pub camera_id: u32,
    pub resolution: Resolution,
    pub fps: u32,
    pub bitrate: u32,
    pub error: Option<Seq<char>>,
}

impl View for CameraStatus {
    type V = CameraStatusView;

    open spec fn view(&self) -> CameraStatusView {
        CameraStatusView {
            status: self.status,
            camera_id: self.camera_id,
            resolution: self.resolution,
            fps: self.fps,
            bitrate: self.bitrate,
            error: match self.error {
                Some(s) => Some(s@),
                None => None,
            },
        }
    }
}

impl CameraStatus {
    pub fn streaming(camera_id: u32, resolution: Resolution, fps: u32, bitrate: u32) -> (r:
        CameraStatus)
        ensures
            r@ == (CameraStatusView {
                status: StreamingStatus::Streaming,
                camera_id,
                resolution,
                fps,
                bitrate,
                error: None,
            }),
    {
        CameraStatus {
            status: StreamingStatus::Streaming,
            camera_id,
            resolution,
            fps,
            bitrate,
            error: None,
        }
    }

    pub fn stopped() -> (r: CameraStatus)
        ensures
            r@ == (CameraStatusView {
                status: StreamingStatus::Stopped,
                camera_id: 0,
                resolution: Resolution { width: 0, height: 0 },
                fps: 0,
                bitrate: 0,
                error: None,
            }),
    {
        CameraStatus {
            status: StreamingStatus::Stopped,
            camera_id: 0,
            resolution: Resolution::new(0, 0),
            fps: 0,
            bitrate: 0,
            error: None,
        }
    }

    pub fn error(message: &str) -> (r: CameraStatus)
        ensures
            r@ == (CameraStatusView {
                status: StreamingStatus::Error,
                camera_id: 0,
                resolution: Resolution { width: 0, height: 0 },
                fps: 0,
                bitrate: 0,
                error: Some(message@),
            }),
    {
        CameraStatus {
            status: StreamingStatus::Error,
            camera_id: 0,
            resolution: Resolution::new(0, 0),
            fps: 0,
            bitrate: 0,
            error: Some(String::from_str(message)),
        }
    }
}

} // verus!
