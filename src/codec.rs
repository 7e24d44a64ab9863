//! Building and parsing the camera control messages.
//!
//! Each message kind has a JSON form, given by a spec function (`*_json`),
//! and a reading of JSON, given by another (`*_from_json`, `None` when a
//! required member is absent or of the wrong type). Builders produce exactly
//! the first; parsers return exactly the second, and fail with
//! `InvalidMessage` where it is `None`.
use vstd::prelude::*;
use vstd::string::StringExecFns;
use crate::camera::{
    CameraCapability, CameraCapabilityView, CameraFacing, CameraFrame, CameraInfo, CameraInfoView,
    CameraSettings, CameraStart, CameraStartView, CameraStatus, CameraStatusView, CameraStop,
    FrameType, Resolution, StreamingStatus,
};
use crate::json::{
    as_bool, as_string, as_u32, as_u64, get_member, items_model, json_bool, json_member, json_str,
    json_u32, json_u64, lemma_array_model, lemma_member_push, lemma_object_model, members_model,
    push_member, str_eq, Json, JsonValue,
};
use crate::packet::{
    Packet, ProtocolError, PACKET_TYPE_CAMERA_CAPABILITY, PACKET_TYPE_CAMERA_FRAME,
    PACKET_TYPE_CAMERA_SETTINGS, PACKET_TYPE_CAMERA_START, PACKET_TYPE_CAMERA_STATUS,
    PACKET_TYPE_CAMERA_STOP,
};

verus! {

broadcast use lemma_member_push;

pub open spec fn int_json(n: u32) -> Json {
    Json::Int(n as int)
}

pub open spec fn long_json(n: u64) -> Json {
    Json::Int(n as int)
}

/// The `u32` member `key` of `j`.
pub open spec fn field_u32(j: Json, key: Seq<char>) -> Option<u32> {
    match json_member(j, key) {
        Some(v) => json_u32(v),
        None => None,
    }
}

/// The `u64` member `key` of `j`.
pub open spec fn field_u64(j: Json, key: Seq<char>) -> Option<u64> {
    match json_member(j, key) {
        Some(v) => json_u64(v),
        None => None,
    }
}

/// The boolean member `key` of `j`.
pub open spec fn field_bool(j: Json, key: Seq<char>) -> Option<bool> {
    match json_member(j, key) {
        Some(v) => json_bool(v),
        None => None,
    }
}

/// The string member `key` of `j`.
pub open spec fn field_str(j: Json, key: Seq<char>) -> Option<Seq<char>> {
    match json_member(j, key) {
        Some(v) => json_str(v),
        None => None,
    }
}

/// An optional member: absent or null reads as `Some(None)`; present and
/// readable as `Some(Some(x))`; present and unreadable as `None`.
pub open spec fn optional<T>(m: Option<Json>, read: spec_fn(Json) -> Option<T>) -> Option<Option<T>> {
    match m {
        None => Some(None),
        Some(Json::Null) => Some(None),
        Some(v) => match read(v) {
            Some(x) => Some(Some(x)),
            None => None,
        },
    }
}

/// Every item of an array read with `read`, or `None` if one is unreadable.
pub open spec fn seq_from_json<T>(items: Seq<Json>, read: spec_fn(Json) -> Option<T>) -> Option<Seq<T>> {
    if forall|i: int| 0 <= i < items.len() ==> (#[trigger] read(items[i])) is Some {
        Some(items.map_values(|x: Json| read(x)->Some_0))
    } else {
        None
    }
}

/// An array with an unreadable item is unreadable.
pub proof fn lemma_seq_from_json_fails<T>(items: Seq<Json>, read: spec_fn(Json) -> Option<T>, i: int)
    requires
        0 <= i < items.len(),
        read(items[i]) is None,
    ensures
        seq_from_json(items, read) is None,
{
}

/// An array whose items are all readable reads as the sequence of them.
pub proof fn lemma_seq_from_json_reads<T>(items: Seq<Json>, read: spec_fn(Json) -> Option<T>, out: Seq<T>)
    requires
        out.len() == items.len(),
        forall|k: int| 0 <= k < items.len() ==> #[trigger] read(items[k]) == Some(out[k]),
    ensures
        seq_from_json(items, read) == Some(out),
{
    assert(items.map_values(|x: Json| read(x)->Some_0) =~= out);
}

/// An array member read item by item.
pub open spec fn array_from_json<T>(m: Option<Json>, read: spec_fn(Json) -> Option<T>) -> Option<Seq<T>> {
    match m {
        Some(Json::Array(items)) => seq_from_json(items, read),
        _ => None,
    }
}

/// Appends `key: v` when `v` is present.
pub open spec fn push_present(fields: Seq<(Seq<char>, Json)>, key: Seq<char>, v: Option<Json>) -> Seq<(Seq<char>, Json)> {
    match v {
        Some(x) => fields.push((key, x)),
        None => fields,
    }
}

// ---------------------------------------------------------------------------
// Resolution

pub open spec fn resolution_json(r: Resolution) -> Json {
    Json::Object(Seq::empty().push(("width"@, int_json(r.width))).push(("height"@, int_json(r.height))))
}

pub open spec fn resolution_from_json(j: Json) -> Option<Resolution> {
    match (field_u32(j, "width"@), field_u32(j, "height"@)) {
        (Some(w), Some(h)) => Some(Resolution { width: w, height: h }),
        _ => None,
    }
}

pub open spec fn field_resolution(j: Json, key: Seq<char>) -> Option<Resolution> {
    match json_member(j, key) {
        Some(v) => resolution_from_json(v),
        None => None,
    }
}

// ---------------------------------------------------------------------------
// Names of enumerated values

pub open spec fn facing_name(f: CameraFacing) -> Seq<char> {
    match f {
        CameraFacing::Front => "front"@,
        CameraFacing::Back => "back"@,
        CameraFacing::External => "external"@,
    }
}

pub open spec fn facing_from_json(j: Json) -> Option<CameraFacing> {
    match j {
        Json::Str(s) => if s == "front"@ {
            Some(CameraFacing::Front)
        } else if s == "back"@ {
            Some(CameraFacing::Back)
        } else if s == "external"@ {
            Some(CameraFacing::External)
        } else {
            None
        },
        _ => None,
    }
}

pub open spec fn frame_type_name(t: FrameType) -> Seq<char> {
    match t {
        FrameType::SpsPps => "sps_pps"@,
        FrameType::IFrame => "iframe"@,
        FrameType::PFrame => "pframe"@,
    }
}

pub open spec fn frame_type_from_json(j: Json) -> Option<FrameType> {
    match j {
        Json::Str(s) => if s == "sps_pps"@ {
            Some(FrameType::SpsPps)
        } else if s == "iframe"@ {
            Some(FrameType::IFrame)
        } else if s == "pframe"@ {
            Some(FrameType::PFrame)
        } else {
            None
        },
        _ => None,
    }
}

pub open spec fn status_name(s: StreamingStatus) -> Seq<char> {
    match s {
        StreamingStatus::Starting => "starting"@,
        StreamingStatus::Streaming => "streaming"@,
        StreamingStatus::Stopping => "stopping"@,
        StreamingStatus::Stopped => "stopped"@,
        StreamingStatus::Error => "error"@,
    }
}

pub open spec fn streaming_status_from_json(j: Json) -> Option<StreamingStatus> {
    match j {
        Json::Str(s) => if s == "starting"@ {
            Some(StreamingStatus::Starting)
        } else if s == "streaming"@ {
            Some(StreamingStatus::Streaming)
        } else if s == "stopping"@ {
            Some(StreamingStatus::Stopping)
        } else if s == "stopped"@ {
            Some(StreamingStatus::Stopped)
        } else if s == "error"@ {
            Some(StreamingStatus::Error)
        } else {
            None
        },
        _ => None,
    }
}

// ---------------------------------------------------------------------------
// Start request

pub open spec fn start_json(s: CameraStartView) -> Json {
    Json::Object(
        Seq::empty()
            .push(("cameraId"@, int_json(s.camera_id)))
            .push(("resolution"@, resolution_json(s.resolution)))
            .push(("fps"@, int_json(s.fps)))
            .push(("bitrate"@, int_json(s.bitrate)))
            .push(("codec"@, Json::Str(s.codec))),
    )
}

pub open spec fn start_from_json(j: Json) -> Option<CameraStartView> {
    match (
        field_u32(j, "cameraId"@),
        field_resolution(j, "resolution"@),
        field_u32(j, "fps"@),
        field_u32(j, "bitrate"@),
        field_str(j, "codec"@),
    ) {
        (Some(camera_id), Some(resolution), Some(fps), Some(bitrate), Some(codec)) => Some(
            CameraStartView { camera_id, resolution, fps, bitrate, codec },
        ),
        _ => None,
    }
}

// ---------------------------------------------------------------------------
// Frame header

pub open spec fn frame_json(f: CameraFrame) -> Json {
    Json::Object(
        Seq::empty()
            .push(("frameType"@, Json::Str(frame_type_name(f.frame_type))))
            .push(("timestampUs"@, long_json(f.timestamp_us)))
            .push(("sequenceNumber"@, long_json(f.sequence_number)))
            .push(("size"@, long_json(f.size))),
    )
}

pub open spec fn frame_from_json(j: Json) -> Option<CameraFrame> {
    match (
        json_member(j, "frameType"@),
        field_u64(j, "timestampUs"@),
        field_u64(j, "sequenceNumber"@),
        field_u64(j, "size"@),
    ) {
        (Some(t), Some(timestamp_us), Some(sequence_number), Some(size)) => match frame_type_from_json(t) {
            Some(frame_type) => Some(CameraFrame { frame_type, timestamp_us, sequence_number, size }),
            None => None,
        },
        _ => None,
    }
}

// ---------------------------------------------------------------------------
// Status report

pub open spec fn status_json(s: CameraStatusView) -> Json {
    Json::Object(
        push_present(
            Seq::empty()
                .push(("status"@, Json::Str(status_name(s.status))))
                .push(("cameraId"@, int_json(s.camera_id)))
                .push(("resolution"@, resolution_json(s.resolution)))
                .push(("fps"@, int_json(s.fps)))
                .push(("bitrate"@, int_json(s.bitrate))),
            "error"@,
            match s.error {
                Some(e) => Some(Json::Str(e)),
                None => None,
            },
        ),
    )
}

pub open spec fn status_from_json(j: Json) -> Option<CameraStatusView> {
    match (
        json_member(j, "status"@),
        field_u32(j, "cameraId"@),
        field_resolution(j, "resolution"@),
        field_u32(j, "fps"@),
        field_u32(j, "bitrate"@),
        optional(json_member(j, "error"@), |v: Json| json_str(v)),
    ) {
        (Some(st), Some(camera_id), Some(resolution), Some(fps), Some(bitrate), Some(error)) => match streaming_status_from_json(st) {
            Some(status) => Some(CameraStatusView { status, camera_id, resolution, fps, bitrate, error }),
            None => None,
        },
        _ => None,
    }
}

// ---------------------------------------------------------------------------
// Settings patch

pub open spec fn opt_int_json(o: Option<u32>) -> Option<Json> {
    match o {
        Some(n) => Some(int_json(n)),
        None => None,
    }
}

pub open spec fn opt_bool_json(o: Option<bool>) -> Option<Json> {
    match o {
        Some(b) => Some(Json::Bool(b)),
        None => None,
    }
}

pub open spec fn opt_resolution_json(o: Option<Resolution>) -> Option<Json> {
    match o {
        Some(r) => Some(resolution_json(r)),
        None => None,
    }
}

/// The members of a settings patch: one for each present field, in a fixed
/// order; an absent field has no member at all.
pub open spec fn settings_members(s: CameraSettings) -> Seq<(Seq<char>, Json)> {
    let m0 = Seq::<(Seq<char>, Json)>::empty();
    let m1 = push_present(m0, "cameraId"@, opt_int_json(s.camera_id));
    let m2 = push_present(m1, "resolution"@, opt_resolution_json(s.resolution));
    let m3 = push_present(m2, "fps"@, opt_int_json(s.fps));
    let m4 = push_present(m3, "bitrate"@, opt_int_json(s.bitrate));
    let m5 = push_present(m4, "flash"@, opt_bool_json(s.flash));
    push_present(m5, "autofocus"@, opt_bool_json(s.autofocus))
}

pub open spec fn settings_json(s: CameraSettings) -> Json {
    Json::Object(settings_members(s))
}

pub open spec fn settings_from_json(j: Json) -> Option<CameraSettings> {
    match j {
        Json::Object(_) => match (
            optional(json_member(j, "cameraId"@), |v: Json| json_u32(v)),
            optional(json_member(j, "resolution"@), |v: Json| resolution_from_json(v)),
            optional(json_member(j, "fps"@), |v: Json| json_u32(v)),
            optional(json_member(j, "bitrate"@), |v: Json| json_u32(v)),
            optional(json_member(j, "flash"@), |v: Json| json_bool(v)),
            optional(json_member(j, "autofocus"@), |v: Json| json_bool(v)),
        ) {
            (Some(camera_id), Some(resolution), Some(fps), Some(bitrate), Some(flash), Some(autofocus)) => Some(
                CameraSettings { camera_id, resolution, fps, bitrate, flash, autofocus },
            ),
            _ => None,
        },
        _ => None,
    }
}

// ---------------------------------------------------------------------------
// Capability advertisement

pub open spec fn camera_info_json(c: CameraInfoView) -> Json {
    Json::Object(
        Seq::empty()
            .push(("id"@, int_json(c.id)))
            .push(("name"@, Json::Str(c.name)))
            .push(("facing"@, Json::Str(facing_name(c.facing))))
            .push(("maxResolution"@, resolution_json(c.max_resolution)))
            .push(("resolutions"@, Json::Array(c.resolutions.map_values(|r: Resolution| resolution_json(r))))),
    )
}

pub open spec fn camera_info_from_json(j: Json) -> Option<CameraInfoView> {
    match (
        field_u32(j, "id"@),
        field_str(j, "name"@),
        json_member(j, "facing"@),
        field_resolution(j, "maxResolution"@),
        array_from_json(json_member(j, "resolutions"@), |v: Json| resolution_from_json(v)),
    ) {
        (Some(id), Some(name), Some(f), Some(max_resolution), Some(resolutions)) => match facing_from_json(f) {
            Some(facing) => Some(CameraInfoView { id, name, facing, max_resolution, resolutions }),
            None => None,
        },
        _ => None,
    }
}

pub open spec fn capability_json(c: CameraCapabilityView) -> Json {
    Json::Object(
        Seq::empty()
            .push(("cameras"@, Json::Array(c.cameras.map_values(|x: CameraInfoView| camera_info_json(x)))))
            .push(("supportedCodecs"@, Json::Array(c.supported_codecs.map_values(|x: Seq<char>| Json::Str(x)))))
            .push(("audioSupported"@, Json::Bool(c.audio_supported)))
            .push(("maxResolution"@, resolution_json(c.max_resolution)))
            .push(("maxBitrate"@, int_json(c.max_bitrate)))
            .push(("maxFps"@, int_json(c.max_fps))),
    )
}

pub open spec fn capability_from_json(j: Json) -> Option<CameraCapabilityView> {
    match (
        array_from_json(json_member(j, "cameras"@), |v: Json| camera_info_from_json(v)),
        array_from_json(json_member(j, "supportedCodecs"@), |v: Json| json_str(v)),
        field_bool(j, "audioSupported"@),
        field_resolution(j, "maxResolution"@),
        field_u32(j, "maxBitrate"@),
        field_u32(j, "maxFps"@),
    ) {
        (Some(cameras), Some(supported_codecs), Some(audio_supported), Some(max_resolution), Some(max_bitrate), Some(max_fps)) => Some(
            CameraCapabilityView { cameras, supported_codecs, audio_supported, max_resolution, max_bitrate, max_fps },
        ),
        _ => None,
    }
}

// ---------------------------------------------------------------------------
// Round trips

/// The lengths of the member names and enumerated values, and the letters
/// that tell apart those of equal length.
proof fn lemma_names()
    ensures
        "width"@.len() == 5,
        "height"@.len() == 6,
        "id"@.len() == 2,
        "name"@.len() == 4,
        "facing"@.len() == 6,
        "maxResolution"@.len() == 13,
        "resolutions"@.len() == 11,
        "cameras"@.len() == 7,
        "supportedCodecs"@.len() == 15,
        "audioSupported"@.len() == 14,
        "maxBitrate"@.len() == 10,
        "maxFps"@.len() == 6,
        "cameraId"@.len() == 8,
        "resolution"@.len() == 10,
        "fps"@.len() == 3,
        "bitrate"@.len() == 7,
        "codec"@.len() == 5,
        "flash"@.len() == 5,
        "autofocus"@.len() == 9,
        "frameType"@.len() == 9,
        "timestampUs"@.len() == 11,
        "sequenceNumber"@.len() == 14,
        "size"@.len() == 4,
        "status"@.len() == 6,
        "error"@.len() == 5,
        "front"@.len() == 5,
        "back"@.len() == 4,
        "external"@.len() == 8,
        "sps_pps"@.len() == 7,
        "iframe"@.len() == 6,
        "pframe"@.len() == 6,
        "starting"@.len() == 8,
        "streaming"@.len() == 9,
        "stopping"@.len() == 8,
        "stopped"@.len() == 7,
        "iframe"@[0] == 'i',
        "pframe"@[0] == 'p',
        "starting"@[2] == 'a',
        "stopping"@[2] == 'o',
        "maxBitrate"@[0] == 'm',
        "resolution"@[0] == 'r',
        "cameraId"@[0] == 'c',
        "starting"@[0] == 's',
        "external"@[0] == 'e',
        "stopping"@[0] == 's',
{
    reveal_strlit("width");
    reveal_strlit("height");
    reveal_strlit("id");
    reveal_strlit("name");
    reveal_strlit("facing");
    reveal_strlit("maxResolution");
    reveal_strlit("resolutions");
    reveal_strlit("cameras");
    reveal_strlit("supportedCodecs");
    reveal_strlit("audioSupported");
    reveal_strlit("maxBitrate");
    reveal_strlit("maxFps");
    reveal_strlit("cameraId");
    reveal_strlit("resolution");
    reveal_strlit("fps");
    reveal_strlit("bitrate");
    reveal_strlit("codec");
    reveal_strlit("flash");
    reveal_strlit("autofocus");
    reveal_strlit("frameType");
    reveal_strlit("timestampUs");
    reveal_strlit("sequenceNumber");
    reveal_strlit("size");
    reveal_strlit("status");
    reveal_strlit("error");
    reveal_strlit("front");
    reveal_strlit("back");
    reveal_strlit("external");
    reveal_strlit("sps_pps");
    reveal_strlit("iframe");
    reveal_strlit("pframe");
    reveal_strlit("starting");
    reveal_strlit("streaming");
    reveal_strlit("stopping");
    reveal_strlit("stopped");
}

/// A resolution reads back from its JSON form.
pub proof fn lemma_resolution_round_trip(r: Resolution)
    ensures
        resolution_from_json(resolution_json(r)) == Some(r),
{
    lemma_names();
}

/// A start request reads back from its JSON form.
pub proof fn lemma_start_round_trip(s: CameraStartView)
    ensures
        start_from_json(start_json(s)) == Some(s),
{
    lemma_names();
    lemma_resolution_round_trip(s.resolution);
}

/// A frame header reads back from its JSON form.
pub proof fn lemma_frame_round_trip(f: CameraFrame)
    ensures
        frame_from_json(frame_json(f)) == Some(f),
{
    lemma_names();
}

/// A status report reads back from its JSON form.
pub proof fn lemma_status_round_trip(s: CameraStatusView)
    ensures
        status_from_json(status_json(s)) == Some(s),
{
    lemma_names();
    lemma_resolution_round_trip(s.resolution);
}

/// A settings patch reads back from its JSON form, and that form holds a
/// member for each present field and no null.
pub proof fn lemma_settings_round_trip(s: CameraSettings)
    ensures
        settings_from_json(settings_json(s)) == Some(s),
        forall|i: int| 0 <= i < settings_members(s).len() ==> !(#[trigger] settings_members(s)[i].1 is Null),
{
    lemma_names();
    if let Some(r) = s.resolution {
        lemma_resolution_round_trip(r);
    }
}

/// A list of resolutions reads back from its JSON form.
pub proof fn lemma_resolutions_round_trip(rs: Seq<Resolution>)
    ensures
        seq_from_json(rs.map_values(|r: Resolution| resolution_json(r)), |v: Json| resolution_from_json(v)) == Some(rs),
{
    let items = rs.map_values(|r: Resolution| resolution_json(r));
    assert forall|i: int| 0 <= i < items.len() implies (#[trigger] resolution_from_json(items[i])) is Some by {
        lemma_resolution_round_trip(rs[i]);
    }
    assert(items.map_values(|x: Json| resolution_from_json(x)->Some_0) =~= rs) by {
        assert forall|i: int| 0 <= i < rs.len() implies resolution_from_json(items[i])->Some_0 == rs[i] by {
            lemma_resolution_round_trip(rs[i]);
        }
    }
}

/// A camera description reads back from its JSON form.
pub proof fn lemma_camera_info_round_trip(c: CameraInfoView)
    ensures
        camera_info_from_json(camera_info_json(c)) == Some(c),
{
    lemma_names();
    lemma_resolution_round_trip(c.max_resolution);
    lemma_resolutions_round_trip(c.resolutions);
}

/// A capability advertisement reads back from its JSON form.
pub proof fn lemma_capability_round_trip(c: CameraCapabilityView)
    ensures
        capability_from_json(capability_json(c)) == Some(c),
{
    lemma_names();
    lemma_resolution_round_trip(c.max_resolution);
    let cams = c.cameras.map_values(|x: CameraInfoView| camera_info_json(x));
    assert forall|i: int| 0 <= i < cams.len() implies (#[trigger] camera_info_from_json(cams[i])) is Some by {
        lemma_camera_info_round_trip(c.cameras[i]);
    }
    assert(cams.map_values(|x: Json| camera_info_from_json(x)->Some_0) =~= c.cameras) by {
        assert forall|i: int| 0 <= i < c.cameras.len() implies camera_info_from_json(cams[i])->Some_0 == c.cameras[i] by {
            lemma_camera_info_round_trip(c.cameras[i]);
        }
    }
    let codecs = c.supported_codecs.map_values(|x: Seq<char>| Json::Str(x));
    assert forall|i: int| 0 <= i < codecs.len() implies (#[trigger] json_str(codecs[i])) is Some by {
        assert(codecs[i] == Json::Str(c.supported_codecs[i]));
    }
    assert(codecs.map_values(|x: Json| json_str(x)->Some_0) =~= c.supported_codecs);
    let j = capability_json(c);
    assert(array_from_json(json_member(j, "cameras"@), |v: Json| camera_info_from_json(v)) == Some(c.cameras));
    assert(array_from_json(json_member(j, "supportedCodecs"@), |v: Json| json_str(v)) == Some(c.supported_codecs));
}

// ---------------------------------------------------------------------------
// Reading members

fn read_u32(j: &JsonValue, key: &str) -> (r: Option<u32>)
    ensures
        r == field_u32(j@, key@),
{
    match get_member(j, key) {
        Some(v) => as_u32(v),
        None => None,
    }
}

fn read_u64(j: &JsonValue, key: &str) -> (r: Option<u64>)
    ensures
        r == field_u64(j@, key@),
{
    match get_member(j, key) {
        Some(v) => as_u64(v),
        None => None,
    }
}

fn read_bool(j: &JsonValue, key: &str) -> (r: Option<bool>)
    ensures
        r == field_bool(j@, key@),
{
    match get_member(j, key) {
        Some(v) => as_bool(v),
        None => None,
    }
}

fn read_string(j: &JsonValue, key: &str) -> (r: Option<String>)
    ensures
        match r {
            Some(s) => field_str(j@, key@) == Some(s@),
            None => field_str(j@, key@) is None,
        },
{
    match get_member(j, key) {
        Some(v) => as_string(v),
        None => None,
    }
}

fn resolution_from(j: &JsonValue) -> (r: Option<Resolution>)
    ensures
        r == resolution_from_json(j@),
{
    match (read_u32(j, "width"), read_u32(j, "height")) {
        (Some(width), Some(height)) => Some(Resolution { width, height }),
        _ => None,
    }
}

fn read_resolution(j: &JsonValue, key: &str) -> (r: Option<Resolution>)
    ensures
        r == field_resolution(j@, key@),
{
    match get_member(j, key) {
        Some(v) => resolution_from(v),
        None => None,
    }
}

fn frame_type_from(j: &JsonValue) -> (r: Option<FrameType>)
    ensures
        r == frame_type_from_json(j@),
{
    match j {
        JsonValue::Str(s) => if str_eq(s.as_str(), "sps_pps") {
            Some(FrameType::SpsPps)
        } else if str_eq(s.as_str(), "iframe") {
            Some(FrameType::IFrame)
        } else if str_eq(s.as_str(), "pframe") {
            Some(FrameType::PFrame)
        } else {
            None
        },
        _ => None,
    }
}

fn read_opt_u32(j: &JsonValue, key: &str) -> (r: Option<Option<u32>>)
    ensures
        r == optional(json_member(j@, key@), |v: Json| json_u32(v)),
{
    match get_member(j, key) {
        None => Some(None),
        Some(JsonValue::Null) => Some(None),
        Some(v) => match as_u32(v) {
            Some(n) => Some(Some(n)),
            None => None,
        },
    }
}

fn read_opt_bool(j: &JsonValue, key: &str) -> (r: Option<Option<bool>>)
    ensures
        r == optional(json_member(j@, key@), |v: Json| json_bool(v)),
{
    match get_member(j, key) {
        None => Some(None),
        Some(JsonValue::Null) => Some(None),
        Some(v) => match as_bool(v) {
            Some(b) => Some(Some(b)),
            None => None,
        },
    }
}

fn read_opt_resolution(j: &JsonValue, key: &str) -> (r: Option<Option<Resolution>>)
    ensures
        r == optional(json_member(j@, key@), |v: Json| resolution_from_json(v)),
{
    match get_member(j, key) {
        None => Some(None),
        Some(JsonValue::Null) => Some(None),
        Some(v) => match resolution_from(v) {
            Some(x) => Some(Some(x)),
            None => None,
        },
    }
}

fn read_opt_string(j: &JsonValue, key: &str) -> (r: Option<Option<String>>)
    ensures
        match r {
            Some(Some(s)) => optional(json_member(j@, key@), |v: Json| json_str(v)) == Some(Some(s@)),
            Some(None) => optional(json_member(j@, key@), |v: Json| json_str(v)) == Some(None::<Seq<char>>),
            None => optional(json_member(j@, key@), |v: Json| json_str(v)) is None,
        },
{
    match get_member(j, key) {
        None => Some(None),
        Some(JsonValue::Null) => Some(None),
        Some(v) => match as_string(v) {
            Some(x) => Some(Some(x)),
            None => None,
        },
    }
}

fn facing_from(j: &JsonValue) -> (r: Option<CameraFacing>)
    ensures
        r == facing_from_json(j@),
{
    match j {
        JsonValue::Str(s) => if str_eq(s.as_str(), "front") {
            Some(CameraFacing::Front)
        } else if str_eq(s.as_str(), "back") {
            Some(CameraFacing::Back)
        } else if str_eq(s.as_str(), "external") {
            Some(CameraFacing::External)
        } else {
            None
        },
        _ => None,
    }
}

fn streaming_status_from(j: &JsonValue) -> (r: Option<StreamingStatus>)
    ensures
        r == streaming_status_from_json(j@),
{
    match j {
        JsonValue::Str(s) => if str_eq(s.as_str(), "starting") {
            Some(StreamingStatus::Starting)
        } else if str_eq(s.as_str(), "streaming") {
            Some(StreamingStatus::Streaming)
        } else if str_eq(s.as_str(), "stopping") {
            Some(StreamingStatus::Stopping)
        } else if str_eq(s.as_str(), "stopped") {
            Some(StreamingStatus::Stopped)
        } else if str_eq(s.as_str(), "error") {
            Some(StreamingStatus::Error)
        } else {
            None
        },
        _ => None,
    }
}

fn resolutions_from(j: &JsonValue) -> (r: Option<Vec<Resolution>>)
    ensures
        match r {
            Some(rs) => array_from_json(Some(j@), |v: Json| resolution_from_json(v)) == Some(rs@),
            None => array_from_json(Some(j@), |v: Json| resolution_from_json(v)) is None,
        },
{
    match j {
        JsonValue::Array(items) => {
            proof {
                lemma_array_model(*items);
            }
            let ghost m = items_model(items@);
            let mut out: Vec<Resolution> = Vec::new();
            let mut i: usize = 0;
            while i < items.len()
                invariant
                    m == items_model(items@),
                    j@ == Json::Array(m),
                    i <= items@.len(),
                    out@.len() == i,
                    forall|k: int| 0 <= k < i ==> #[trigger] resolution_from_json(m[k]) == Some(out@[k]),
                decreases items.len() - i,
            {
                match resolution_from(&items[i]) {
                    Some(r) => {
                        out.push(r);
                    },
                    None => {
                        proof {
                            lemma_seq_from_json_fails(m, |v: Json| resolution_from_json(v), i as int);
                        }
                        return None;
                    },
                }
                i = i + 1;
            }
            proof {
                lemma_seq_from_json_reads(m, |v: Json| resolution_from_json(v), out@);
            }
            Some(out)
        },
        _ => None,
    }
}

fn strings_from(j: &JsonValue) -> (r: Option<Vec<String>>)
    ensures
        match r {
            Some(ss) => array_from_json(Some(j@), |v: Json| json_str(v)) == Some(ss@.map_values(|s: String| s@)),
            None => array_from_json(Some(j@), |v: Json| json_str(v)) is None,
        },
{
    match j {
        JsonValue::Array(items) => {
            proof {
                lemma_array_model(*items);
            }
            let ghost m = items_model(items@);
            let mut out: Vec<String> = Vec::new();
            let mut i: usize = 0;
            while i < items.len()
                invariant
                    m == items_model(items@),
                    j@ == Json::Array(m),
                    i <= items@.len(),
                    out@.len() == i,
                    forall|k: int| 0 <= k < i ==> #[trigger] json_str(m[k]) == Some(out@[k]@),
                decreases items.len() - i,
            {
                match as_string(&items[i]) {
                    Some(s) => {
                        out.push(s);
                    },
                    None => {
                        proof {
                            lemma_seq_from_json_fails(m, |v: Json| json_str(v), i as int);
                        }
                        return None;
                    },
                }
                i = i + 1;
            }
            proof {
                lemma_seq_from_json_reads(m, |v: Json| json_str(v), out@.map_values(|s: String| s@));
            }
            Some(out)
        },
        _ => None,
    }
}

fn camera_info_from(j: &JsonValue) -> (r: Option<CameraInfo>)
    ensures
        match r {
            Some(c) => camera_info_from_json(j@) == Some(c@),
            None => camera_info_from_json(j@) is None,
        },
{
    let facing = match get_member(j, "facing") {
        Some(v) => facing_from(v),
        None => None,
    };
    let resolutions = match get_member(j, "resolutions") {
        Some(v) => resolutions_from(v),
        None => None,
    };
    match (read_u32(j, "id"), read_string(j, "name"), facing, read_resolution(j, "maxResolution"), resolutions) {
        (Some(id), Some(name), Some(facing), Some(max_resolution), Some(resolutions)) => Some(
            CameraInfo { id, name, facing, max_resolution, resolutions },
        ),
        _ => None,
    }
}

fn cameras_from(j: &JsonValue) -> (r: Option<Vec<CameraInfo>>)
    ensures
        match r {
            Some(cs) => array_from_json(Some(j@), |v: Json| camera_info_from_json(v)) == Some(cs@.map_values(|c: CameraInfo| c@)),
            None => array_from_json(Some(j@), |v: Json| camera_info_from_json(v)) is None,
        },
{
    match j {
        JsonValue::Array(items) => {
            proof {
                lemma_array_model(*items);
            }
            let ghost m = items_model(items@);
            let mut out: Vec<CameraInfo> = Vec::new();
            let mut i: usize = 0;
            while i < items.len()
                invariant
                    m == items_model(items@),
                    j@ == Json::Array(m),
                    i <= items@.len(),
                    out@.len() == i,
                    forall|k: int| 0 <= k < i ==> #[trigger] camera_info_from_json(m[k]) == Some(out@[k]@),
                decreases items.len() - i,
            {
                match camera_info_from(&items[i]) {
                    Some(c) => {
                        out.push(c);
                    },
                    None => {
                        proof {
                            lemma_seq_from_json_fails(m, |v: Json| camera_info_from_json(v), i as int);
                        }
                        return None;
                    },
                }
                i = i + 1;
            }
            proof {
                lemma_seq_from_json_reads(m, |v: Json| camera_info_from_json(v), out@.map_values(|c: CameraInfo| c@));
            }
            Some(out)
        },
        _ => None,
    }
}

// ---------------------------------------------------------------------------
// Writing members

fn new_object() -> (r: Vec<(String, JsonValue)>)
    ensures
        members_model(r@) == Seq::<(Seq<char>, Json)>::empty(),
{
    let r: Vec<(String, JsonValue)> = Vec::new();
    assert(members_model(r@) =~= Seq::<(Seq<char>, Json)>::empty());
    r
}

fn resolution_to_json(r: Resolution) -> (j: JsonValue)
    ensures
        j@ == resolution_json(r),
{
    let mut fields = new_object();
    push_member(&mut fields, "width", JsonValue::UInt(r.width as u64));
    push_member(&mut fields, "height", JsonValue::UInt(r.height as u64));
    proof {
        lemma_object_model(fields);
    }
    JsonValue::Object(fields)
}

fn frame_type_to_json(t: FrameType) -> (j: JsonValue)
    ensures
        j@ == Json::Str(frame_type_name(t)),
{
    match t {
        FrameType::SpsPps => JsonValue::Str(String::from_str("sps_pps")),
        FrameType::IFrame => JsonValue::Str(String::from_str("iframe")),
        FrameType::PFrame => JsonValue::Str(String::from_str("pframe")),
    }
}

fn facing_to_json(f: CameraFacing) -> (j: JsonValue)
    ensures
        j@ == Json::Str(facing_name(f)),
{
    match f {
        CameraFacing::Front => JsonValue::Str(String::from_str("front")),
        CameraFacing::Back => JsonValue::Str(String::from_str("back")),
        CameraFacing::External => JsonValue::Str(String::from_str("external")),
    }
}

fn streaming_status_to_json(s: StreamingStatus) -> (j: JsonValue)
    ensures
        j@ == Json::Str(status_name(s)),
{
    match s {
        StreamingStatus::Starting => JsonValue::Str(String::from_str("starting")),
        StreamingStatus::Streaming => JsonValue::Str(String::from_str("streaming")),
        StreamingStatus::Stopping => JsonValue::Str(String::from_str("stopping")),
        StreamingStatus::Stopped => JsonValue::Str(String::from_str("stopped")),
        StreamingStatus::Error => JsonValue::Str(String::from_str("error")),
    }
}

fn resolutions_to_json(rs: &Vec<Resolution>) -> (j: JsonValue)
    ensures
        j@ == Json::Array(rs@.map_values(|r: Resolution| resolution_json(r))),
{
    let mut items: Vec<JsonValue> = Vec::new();
    let mut i: usize = 0;
    while i < rs.len()
        invariant
            i <= rs@.len(),
            items@.len() == i,
            forall|k: int| 0 <= k < i ==> #[trigger] items@[k]@ == resolution_json(rs@[k]),
        decreases rs.len() - i,
    {
        items.push(resolution_to_json(rs[i]));
        i = i + 1;
    }
    assert(items_model(items@) =~= rs@.map_values(|r: Resolution| resolution_json(r)));
    proof {
        lemma_array_model(items);
    }
    JsonValue::Array(items)
}

fn strings_to_json(ss: &Vec<String>) -> (j: JsonValue)
    ensures
        j@ == Json::Array(ss@.map_values(|s: String| s@).map_values(|x: Seq<char>| Json::Str(x))),
{
    let ghost target = ss@.map_values(|s: String| s@).map_values(|x: Seq<char>| Json::Str(x));
    let mut items: Vec<JsonValue> = Vec::new();
    let mut i: usize = 0;
    while i < ss.len()
        invariant
            i <= ss@.len(),
            target == ss@.map_values(|s: String| s@).map_values(|x: Seq<char>| Json::Str(x)),
            items@.len() == i,
            forall|k: int| 0 <= k < i ==> #[trigger] items@[k]@ == target[k],
        decreases ss.len() - i,
    {
        items.push(JsonValue::Str(ss[i].clone()));
        i = i + 1;
    }
    assert(items_model(items@) =~= target);
    proof {
        lemma_array_model(items);
    }
    JsonValue::Array(items)
}

fn camera_info_to_json(c: &CameraInfo) -> (j: JsonValue)
    ensures
        j@ == camera_info_json(c@),
{
    let mut fields = new_object();
    push_member(&mut fields, "id", JsonValue::UInt(c.id as u64));
    push_member(&mut fields, "name", JsonValue::Str(c.name.clone()));
    push_member(&mut fields, "facing", facing_to_json(c.facing));
    push_member(&mut fields, "maxResolution", resolution_to_json(c.max_resolution));
    push_member(&mut fields, "resolutions", resolutions_to_json(&c.resolutions));
    proof {
        lemma_object_model(fields);
    }
    JsonValue::Object(fields)
}

fn cameras_to_json(cs: &Vec<CameraInfo>) -> (j: JsonValue)
    ensures
        j@ == Json::Array(cs@.map_values(|c: CameraInfo| c@).map_values(|x: CameraInfoView| camera_info_json(x))),
{
    let ghost target = cs@.map_values(|c: CameraInfo| c@).map_values(|x: CameraInfoView| camera_info_json(x));
    let mut items: Vec<JsonValue> = Vec::new();
    let mut i: usize = 0;
    while i < cs.len()
        invariant
            i <= cs@.len(),
            target == cs@.map_values(|c: CameraInfo| c@).map_values(|x: CameraInfoView| camera_info_json(x)),
            items@.len() == i,
            forall|k: int| 0 <= k < i ==> #[trigger] items@[k]@ == target[k],
        decreases cs.len() - i,
    {
        items.push(camera_info_to_json(&cs[i]));
        i = i + 1;
    }
    assert(items_model(items@) =~= target);
    proof {
        lemma_array_model(items);
    }
    JsonValue::Array(items)
}

// ---------------------------------------------------------------------------
// Messages

impl CameraStart {
    /// The start request as a packet.
    pub fn to_packet(&self) -> (p: Packet)
        ensures
            p.packet_type@ == PACKET_TYPE_CAMERA_START@,
            p.body@ == start_json(self@),
            p.payload_size is None,
    {
        let mut fields = new_object();
        push_member(&mut fields, "cameraId", JsonValue::UInt(self.camera_id as u64));
        push_member(&mut fields, "resolution", resolution_to_json(self.resolution));
        push_member(&mut fields, "fps", JsonValue::UInt(self.fps as u64));
        push_member(&mut fields, "bitrate", JsonValue::UInt(self.bitrate as u64));
        push_member(&mut fields, "codec", JsonValue::Str(self.codec.clone()));
        proof {
            lemma_object_model(fields);
        }
        Packet::new(PACKET_TYPE_CAMERA_START, JsonValue::Object(fields))
    }

    /// Reads a start request from a packet body.
    pub fn from_packet(packet: &Packet) -> (r: Result<CameraStart, ProtocolError>)
        ensures
            match r {
                Ok(s) => start_from_json(packet.body@) == Some(s@),
                Err(e) => e == ProtocolError::InvalidMessage && start_from_json(packet.body@) is None,
            },
    {
        let j = &packet.body;
        match (
            read_u32(j, "cameraId"),
            read_resolution(j, "resolution"),
            read_u32(j, "fps"),
            read_u32(j, "bitrate"),
            read_string(j, "codec"),
        ) {
            (Some(camera_id), Some(resolution), Some(fps), Some(bitrate), Some(codec)) => Ok(
                CameraStart { camera_id, resolution, fps, bitrate, codec },
            ),
            _ => Err(ProtocolError::InvalidMessage),
        }
    }
}

impl CameraStop {
    /// The stop request as a packet; its body is an empty object.
    pub fn to_packet() -> (p: Packet)
        ensures
            p.packet_type@ == PACKET_TYPE_CAMERA_STOP@,
            p.body@ == Json::Object(Seq::empty()),
            p.payload_size is None,
    {
        let fields = new_object();
        proof {
            lemma_object_model(fields);
        }
        Packet::new(PACKET_TYPE_CAMERA_STOP, JsonValue::Object(fields))
    }
}

impl CameraFrame {
    /// The frame header as a packet; the payload size is the frame's size.
    pub fn to_packet(&self) -> (p: Packet)
        ensures
            p.packet_type@ == PACKET_TYPE_CAMERA_FRAME@,
            p.body@ == frame_json(*self),
            p.payload_size == Some(self.size),
    {
        let mut fields = new_object();
        push_member(&mut fields, "frameType", frame_type_to_json(self.frame_type));
        push_member(&mut fields, "timestampUs", JsonValue::UInt(self.timestamp_us));
        push_member(&mut fields, "sequenceNumber", JsonValue::UInt(self.sequence_number));
        push_member(&mut fields, "size", JsonValue::UInt(self.size));
        proof {
            lemma_object_model(fields);
        }
        Packet::new(PACKET_TYPE_CAMERA_FRAME, JsonValue::Object(fields)).with_payload_size(self.size)
    }

    /// Reads a frame header from a packet body.
    pub fn from_packet(packet: &Packet) -> (r: Result<CameraFrame, ProtocolError>)
        ensures
            match r {
                Ok(f) => frame_from_json(packet.body@) == Some(f),
                Err(e) => e == ProtocolError::InvalidMessage && frame_from_json(packet.body@) is None,
            },
    {
        let j = &packet.body;
        let t = match get_member(j, "frameType") {
            Some(v) => frame_type_from(v),
            None => None,
        };
        match (t, read_u64(j, "timestampUs"), read_u64(j, "sequenceNumber"), read_u64(j, "size")) {
            (Some(frame_type), Some(timestamp_us), Some(sequence_number), Some(size)) => Ok(
                CameraFrame { frame_type, timestamp_us, sequence_number, size },
            ),
            _ => Err(ProtocolError::InvalidMessage),
        }
    }
}

impl CameraStatus {
    /// The status report as a packet; the error member is left out when
    /// there is no error text.
    pub fn to_packet(&self) -> (p: Packet)
        ensures
            p.packet_type@ == PACKET_TYPE_CAMERA_STATUS@,
            p.body@ == status_json(self@),
            p.payload_size is None,
    {
        let mut fields = new_object();
        push_member(&mut fields, "status", streaming_status_to_json(self.status));
        push_member(&mut fields, "cameraId", JsonValue::UInt(self.camera_id as u64));
        push_member(&mut fields, "resolution", resolution_to_json(self.resolution));
        push_member(&mut fields, "fps", JsonValue::UInt(self.fps as u64));
        push_member(&mut fields, "bitrate", JsonValue::UInt(self.bitrate as u64));
        match &self.error {
            Some(e) => push_member(&mut fields, "error", JsonValue::Str(e.clone())),
            None => {},
        }
        proof {
            lemma_object_model(fields);
        }
        Packet::new(PACKET_TYPE_CAMERA_STATUS, JsonValue::Object(fields))
    }

    /// Reads a status report from a packet body.
    pub fn from_packet(packet: &Packet) -> (r: Result<CameraStatus, ProtocolError>)
        ensures
            match r {
                Ok(s) => status_from_json(packet.body@) == Some(s@),
                Err(e) => e == ProtocolError::InvalidMessage && status_from_json(packet.body@) is None,
            },
    {
        let j = &packet.body;
        let status = match get_member(j, "status") {
            Some(v) => streaming_status_from(v),
            None => None,
        };
        match (
            status,
            read_u32(j, "cameraId"),
            read_resolution(j, "resolution"),
            read_u32(j, "fps"),
            read_u32(j, "bitrate"),
            read_opt_string(j, "error"),
        ) {
            (Some(status), Some(camera_id), Some(resolution), Some(fps), Some(bitrate), Some(error)) => Ok(
                CameraStatus { status, camera_id, resolution, fps, bitrate, error },
            ),
            _ => Err(ProtocolError::InvalidMessage),
        }
    }
}

impl CameraSettings {
    /// The settings patch as a packet; absent fields are left out entirely,
    /// never written as null.
    pub fn to_packet(&self) -> (p: Packet)
        ensures
            p.packet_type@ == PACKET_TYPE_CAMERA_SETTINGS@,
            p.body@ == settings_json(*self),
            p.payload_size is None,
    {
        let mut fields = new_object();
        if let Some(n) = self.camera_id {
            push_member(&mut fields, "cameraId", JsonValue::UInt(n as u64));
        }
        if let Some(r) = self.resolution {
            push_member(&mut fields, "resolution", resolution_to_json(r));
        }
        if let Some(n) = self.fps {
            push_member(&mut fields, "fps", JsonValue::UInt(n as u64));
        }
        if let Some(n) = self.bitrate {
            push_member(&mut fields, "bitrate", JsonValue::UInt(n as u64));
        }
        if let Some(b) = self.flash {
            push_member(&mut fields, "flash", JsonValue::Bool(b));
        }
        if let Some(b) = self.autofocus {
            push_member(&mut fields, "autofocus", JsonValue::Bool(b));
        }
        proof {
            lemma_object_model(fields);
        }
        Packet::new(PACKET_TYPE_CAMERA_SETTINGS, JsonValue::Object(fields))
    }

    /// Reads a settings patch from a packet body, which must be an object;
    /// an absent or null member leaves its field absent.
    pub fn from_packet(packet: &Packet) -> (r: Result<CameraSettings, ProtocolError>)
        ensures
            match r {
                Ok(s) => settings_from_json(packet.body@) == Some(s),
                Err(e) => e == ProtocolError::InvalidMessage && settings_from_json(packet.body@) is None,
            },
    {
        let j = &packet.body;
        if !matches!(j, JsonValue::Object(_)) {
            return Err(ProtocolError::InvalidMessage);
        }
        match (
            read_opt_u32(j, "cameraId"),
            read_opt_resolution(j, "resolution"),
            read_opt_u32(j, "fps"),
            read_opt_u32(j, "bitrate"),
            read_opt_bool(j, "flash"),
            read_opt_bool(j, "autofocus"),
        ) {
            (Some(camera_id), Some(resolution), Some(fps), Some(bitrate), Some(flash), Some(autofocus)) => Ok(
                CameraSettings { camera_id, resolution, fps, bitrate, flash, autofocus },
            ),
            _ => Err(ProtocolError::InvalidMessage),
        }
    }
}

impl CameraCapability {
    /// The capability advertisement as a packet.
    pub fn to_packet(&self) -> (p: Packet)
        ensures
            p.packet_type@ == PACKET_TYPE_CAMERA_CAPABILITY@,
            p.body@ == capability_json(self@),
            p.payload_size is None,
    {
        let mut fields = new_object();
        push_member(&mut fields, "cameras", cameras_to_json(&self.cameras));
        push_member(&mut fields, "supportedCodecs", strings_to_json(&self.supported_codecs));
        push_member(&mut fields, "audioSupported", JsonValue::Bool(self.audio_supported));
        push_member(&mut fields, "maxResolution", resolution_to_json(self.max_resolution));
        push_member(&mut fields, "maxBitrate", JsonValue::UInt(self.max_bitrate as u64));
        push_member(&mut fields, "maxFps", JsonValue::UInt(self.max_fps as u64));
        proof {
            lemma_object_model(fields);
        }
        Packet::new(PACKET_TYPE_CAMERA_CAPABILITY, JsonValue::Object(fields))
    }

    /// Reads a capability advertisement from a packet body.
    pub fn from_packet(packet: &Packet) -> (r: Result<CameraCapability, ProtocolError>)
        ensures
            match r {
                Ok(c) => capability_from_json(packet.body@) == Some(c@),
                Err(e) => e == ProtocolError::InvalidMessage && capability_from_json(packet.body@) is None,
            },
    {
        let j = &packet.body;
        let cameras = match get_member(j, "cameras") {
            Some(v) => cameras_from(v),
            None => None,
        };
        let codecs = match get_member(j, "supportedCodecs") {
            Some(v) => strings_from(v),
            None => None,
        };
        match (
            cameras,
            codecs,
            read_bool(j, "audioSupported"),
            read_resolution(j, "maxResolution"),
            read_u32(j, "maxBitrate"),
            read_u32(j, "maxFps"),
        ) {
            (Some(cameras), Some(supported_codecs), Some(audio_supported), Some(max_resolution), Some(max_bitrate), Some(max_fps)) => Ok(
                CameraCapability { cameras, supported_codecs, audio_supported, max_resolution, max_bitrate, max_fps },
            ),
            _ => Err(ProtocolError::InvalidMessage),
        }
    }
}

} // verus!
