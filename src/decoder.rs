//! The decode engine: a state machine around an H.264 decode core.
//!
//! The core itself (entropy decoding, reconstruction) lies outside this
//! library. The caller hands each buffer the engine accepts to the core and
//! passes back what the core reported; the engine decides the result and its
//! next state. `check_config` and `check_frame` tell the caller beforehand
//! whether the core will be consulted at all.
use vstd::prelude::*;
use crate::nal::{
    find_second_unit, get_nal_unit_type, is_second_unit_start, is_valid_nal_unit, nal_type,
    start_code_at,
    nal_valid, NAL_TYPE_PPS, NAL_TYPE_SPS,
};

verus! {

#[derive(Clone, Copy, Debug, PartialEq, Eq, Structural)]
pub enum DecoderState {
    /// No configuration yet.
    Uninitialized,
    /// SPS/PPS accepted; no picture decoded yet.
    Configured,
    /// At least one picture decoded.
    Streaming,
    /// The core found the bitstream inconsistent; decoding is refused until
    /// a reset or a new configuration.
    Faulted,
}

#[derive(Clone, Copy, Debug, PartialEq, Eq, Structural)]
pub enum DecoderError {
    /// The SPS/PPS were malformed or refused; the state is unchanged.
    InvalidConfig,
    /// A frame came before any configuration; the state is unchanged.
    NeedMoreData,
    /// A frame was not a NAL unit; the state is unchanged.
    CorruptData,
    /// The bitstream is inconsistent; the engine is faulted.
    DecodeFault,
}

/// What the decode core reported for a configuration handed to it.
#[derive(Clone, Copy, Debug, PartialEq, Eq, Structural)]
pub enum CoreConfig {
    /// Accepted; the pictures will have these dimensions.
    Accepted { width: u32, height: u32 },
    Rejected,
}

/// What the decode core reported for a frame handed to it.
#[derive(Debug)]
pub enum CoreOutput {
    /// A picture, as raw pixel data.
    Picture(Vec<u8>),
    /// No picture yet (the frame is held as a reference or reordered).
    Pending,
    /// The bitstream is inconsistent.
    Fault,
}

/// A decoded picture.
#[derive(Debug)]
pub struct DecodedVideoFrame {
    pub data: Vec<u8>,
    pub width: u32,
    pub height: u32,
    pub timestamp_us: u64,
}

pub struct DecoderView {
    pub state: DecoderState,
    pub frames_decoded: u64,
    /// Present exactly when the state is not `Uninitialized`.
    pub dimensions: Option<(u32, u32)>,
}

/// The engine as it is created, and after a reset.
pub open spec fn initial_view() -> DecoderView {
    DecoderView { state: DecoderState::Uninitialized, frames_decoded: 0, dimensions: None }
}

/// A configuration is well formed when it is an SPS unit and a PPS unit.
pub open spec fn config_ok(sps: Seq<u8>, pps: Seq<u8>) -> bool {
    nal_type(sps) == Some(7u8) && nal_type(pps) == Some(8u8)
}

/// The state after an accepted configuration: a stream already under way
/// stays `Streaming`; any other state becomes `Configured`.
pub open spec fn configured(v: DecoderView, width: u32, height: u32) -> DecoderView {
    DecoderView {
        state: if v.state == DecoderState::Streaming {
            DecoderState::Streaming
        } else {
            DecoderState::Configured
        },
        frames_decoded: v.frames_decoded,
        dimensions: Some((width, height)),
    }
}

/// The error with which a frame is refused before the core is consulted.
pub open spec fn frame_refusal(v: DecoderView, nal: Seq<u8>) -> Option<DecoderError> {
    if !nal_valid(nal) {
        Some(DecoderError::CorruptData)
    } else if v.state == DecoderState::Uninitialized {
        Some(DecoderError::NeedMoreData)
    } else if v.state == DecoderState::Faulted {
        Some(DecoderError::DecodeFault)
    } else {
        None
    }
}

/// The frame counter after one more picture; it stops at its maximum.
pub open spec fn next_count(n: u64) -> u64 {
    if n < u64::MAX {
        (n + 1) as u64
    } else {
        n
    }
}

pub struct H264Decoder {
    state: DecoderState,
    frames_decoded: u64,
    width: u32,
    height: u32,
}

impl View for H264Decoder {
    type V = DecoderView;

    closed spec fn view(&self) -> DecoderView {
        DecoderView {
            state: self.state,
            frames_decoded: self.frames_decoded,
            dimensions: if self.state == DecoderState::Uninitialized {
                None
            } else {
                Some((self.width, self.height))
            },
        }
    }
}

impl H264Decoder {
    /// A new engine, unconfigured.
    pub fn new() -> (r: Result<H264Decoder, DecoderError>)
        ensures
            r matches Ok(d) && d@ == initial_view(),
    {
        Ok(H264Decoder { state: DecoderState::Uninitialized, frames_decoded: 0, width: 0, height: 0 })
    }

    pub fn state(&self) -> (r: DecoderState)
        ensures
            r == self@.state,
    {
        self.state
    }

    /// Whether a configuration has been accepted since creation or the last
    /// reset.
    pub fn is_initialized(&self) -> (r: bool)
        ensures
            r == (self@.state != DecoderState::Uninitialized),
    {
        !matches!(self.state, DecoderState::Uninitialized)
    }

    /// Pictures decoded since creation or the last reset.
    pub fn frames_decoded(&self) -> (r: u64)
        ensures
            r == self@.frames_decoded,
    {
        self.frames_decoded
    }

    /// Width and height of the configured stream.
    pub fn dimensions(&self) -> (r: Option<(u32, u32)>)
        ensures
            r == self@.dimensions,
            r is Some <==> self@.state != DecoderState::Uninitialized,
    {
        if matches!(self.state, DecoderState::Uninitialized) {
            None
        } else {
            Some((self.width, self.height))
        }
    }

    /// Whether an SPS and a PPS are well formed, and so go to the core.
    pub fn check_config(sps: &[u8], pps: &[u8]) -> (r: Result<(), DecoderError>)
        ensures
            r is Ok <==> config_ok(sps@, pps@),
            r is Err ==> r == Err::<(), DecoderError>(DecoderError::InvalidConfig),
    {
        match (get_nal_unit_type(sps), get_nal_unit_type(pps)) {
            (Some(s), Some(p)) => if s == NAL_TYPE_SPS && p == NAL_TYPE_PPS {
                Ok(())
            } else {
                Err(DecoderError::InvalidConfig)
            },
            _ => Err(DecoderError::InvalidConfig),
        }
    }

    /// Configures the engine from an SPS and a PPS, given what the core
    /// reported for them. A malformed pair, or one the core refused, leaves
    /// the engine as it was.
    pub fn set_sps_pps(&mut self, sps: &[u8], pps: &[u8], reply: CoreConfig) -> (r: Result<(), DecoderError>)
        ensures
            !config_ok(sps@, pps@) ==> r == Err::<(), DecoderError>(DecoderError::InvalidConfig) && final(self)@ == old(self)@,
            config_ok(sps@, pps@) ==> match reply {
                CoreConfig::Accepted { width, height } => r is Ok && final(self)@ == configured(old(self)@, width, height),
                CoreConfig::Rejected => r == Err::<(), DecoderError>(DecoderError::InvalidConfig) && final(self)@ == old(self)@,
            },
    {
        if H264Decoder::check_config(sps, pps).is_err() {
            return Err(DecoderError::InvalidConfig);
        }
        match reply {
            CoreConfig::Accepted { width, height } => {
                if !matches!(self.state, DecoderState::Streaming) {
                    self.state = DecoderState::Configured;
                }
                self.width = width;
                self.height = height;
                Ok(())
            },
            CoreConfig::Rejected => Err(DecoderError::InvalidConfig),
        }
    }

    /// Where an SPS+PPS buffer splits into its two units.
    pub fn split_sps_pps(data: &[u8]) -> (r: Option<usize>)
        ensures
            match r {
                Some(p) => is_second_unit_start(data@, p as int),
                None => forall|p: int| !is_second_unit_start(data@, p),
            },
    {
        find_second_unit(data)
    }

    /// Configures the engine from one buffer that holds the SPS followed by
    /// the PPS, each with its start code, given what the core reported for
    /// the pair.
    pub fn decode_sps_pps(&mut self, data: &[u8], reply: CoreConfig) -> (r: Result<(), DecoderError>)
        ensures
            (forall|p: int| !is_second_unit_start(data@, p)) ==> r == Err::<(), DecoderError>(DecoderError::InvalidConfig) && final(self)@ == old(self)@,
            forall|p: int| is_second_unit_start(data@, p) ==> {
                let sps = data@.subrange(0, p);
                let pps = data@.subrange(p, data@.len() as int);
                &&& !config_ok(sps, pps) ==> r == Err::<(), DecoderError>(DecoderError::InvalidConfig) && final(self)@ == old(self)@
                &&& config_ok(sps, pps) ==> match reply {
                    CoreConfig::Accepted { width, height } => r is Ok && final(self)@ == configured(old(self)@, width, height),
                    CoreConfig::Rejected => r == Err::<(), DecoderError>(DecoderError::InvalidConfig) && final(self)@ == old(self)@,
                }
            },
    {
        match find_second_unit(data) {
            Some(p) => {
                proof {
                    lemma_second_unit_unique(data@, p as int);
                }
                let sps = &data[0..p];
                let pps = &data[p..data.len()];
                assert(sps@ == data@.subrange(0, p as int));
                assert(pps@ == data@.subrange(p as int, data@.len() as int));
                self.set_sps_pps(sps, pps, reply)
            },
            None => Err(DecoderError::InvalidConfig),
        }
    }

    /// What `decode` returns for `nal` without consulting the core, if it
    /// returns without consulting it.
    pub fn check_frame(&self, nal: &[u8]) -> (r: Result<(), DecoderError>)
        ensures
            match frame_refusal(self@, nal@) {
                Some(e) => r == Err::<(), DecoderError>(e),
                None => r is Ok,
            },
    {
        if !is_valid_nal_unit(nal) {
            Err(DecoderError::CorruptData)
        } else {
            match self.state {
                DecoderState::Uninitialized => Err(DecoderError::NeedMoreData),
                DecoderState::Faulted => Err(DecoderError::DecodeFault),
                _ => Ok(()),
            }
        }
    }

    /// Decodes one frame NAL unit, given what the core reported for it.
    ///
    /// A buffer that is not a NAL unit fails with `CorruptData`, and a frame
    /// before any configuration with `NeedMoreData`; both leave the engine
    /// as it was, and so does a frame on a faulted engine (`DecodeFault`).
    /// Otherwise the core's report decides: a picture is returned and
    /// counted, and the engine is `Streaming`; no picture yet returns
    /// `Ok(None)`; an inconsistency fails with `DecodeFault` and faults the
    /// engine.
    pub fn decode(&mut self, nal: &[u8], timestamp_us: u64, outcome: CoreOutput) -> (r: Result<Option<DecodedVideoFrame>, DecoderError>)
        ensures
            final(self)@.frames_decoded >= old(self)@.frames_decoded,
            match frame_refusal(old(self)@, nal@) {
                Some(e) => r matches Err(x) && x == e && final(self)@ == old(self)@,
                None => match outcome {
                    CoreOutput::Picture(data) => {
                        &&& r matches Ok(Some(f)) && f.data@ == data@ && f.timestamp_us == timestamp_us
                            && old(self)@.dimensions == Some((f.width, f.height))
                        &&& final(self)@ == (DecoderView {
                            state: DecoderState::Streaming,
                            frames_decoded: next_count(old(self)@.frames_decoded),
                            dimensions: old(self)@.dimensions,
                        })
                    },
                    CoreOutput::Pending => r matches Ok(None) && final(self)@ == old(self)@,
                    CoreOutput::Fault => r matches Err(x) && x == DecoderError::DecodeFault
                        && final(self)@ == (DecoderView { state: DecoderState::Faulted, ..old(self)@ }),
                },
            },
    {
        if let Err(e) = self.check_frame(nal) {
            return Err(e);
        }
        match outcome {
            CoreOutput::Picture(data) => {
                self.state = DecoderState::Streaming;
                if self.frames_decoded < u64::MAX {
                    self.frames_decoded = self.frames_decoded + 1;
                }
                Ok(Some(DecodedVideoFrame { data, width: self.width, height: self.height, timestamp_us }))
            },
            CoreOutput::Pending => Ok(None),
            CoreOutput::Fault => {
                self.state = DecoderState::Faulted;
                Err(DecoderError::DecodeFault)
            },
        }
    }

    /// Returns to `Uninitialized` from any state, clearing the counter and
    /// the dimensions. Always succeeds.
    pub fn reset(&mut self) -> (r: Result<(), DecoderError>)
        ensures
            r is Ok,
            final(self)@ == initial_view(),
    {
        self.state = DecoderState::Uninitialized;
        self.frames_decoded = 0;
        self.width = 0;
        self.height = 0;
        Ok(())
    }
}

/// A buffer splits in one place at most.
proof fn lemma_second_unit_unique(b: Seq<u8>, p: int)
    requires
        is_second_unit_start(b, p),
    ensures
        forall|q: int| is_second_unit_start(b, q) ==> q == p,
{
    assert forall|q: int| is_second_unit_start(b, q) implies q == p by {
        if q < p {
            assert(!start_code_at(b, q));
        } else if q > p {
            assert(!start_code_at(b, p));
        }
    }
}

} // verus!
