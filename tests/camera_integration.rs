//! The camera pipeline: frames from the device, the NAL checks and the
//! decode engine, with the decode core played by the test.
use cosmic_ext_connect_core::camera::{CameraFrame, FrameType};
use cosmic_ext_connect_core::decoder::{CoreConfig, CoreOutput, DecoderError, H264Decoder};
use cosmic_ext_connect_core::nal::{get_nal_unit_type, is_valid_nal_unit};

struct MockCameraFrame {
    frame_type: FrameType,
    data: Vec<u8>,
    timestamp_us: u64,
}

fn mock_sps_nal() -> Vec<u8> {
    vec![0x00, 0x00, 0x00, 0x01, 0x67, 0x42, 0xC0, 0x1F, 0xDA, 0x01, 0x40, 0x16, 0xE8]
}

fn mock_pps_nal() -> Vec<u8> {
    vec![0x00, 0x00, 0x00, 0x01, 0x68, 0xCE, 0x3C, 0x80]
}

fn mock_slice(header: u8, size: usize, seed: u8) -> Vec<u8> {
    let mut v = vec![0x00, 0x00, 0x00, 0x01, header];
    for i in 0..size.saturating_sub(5) {
        // Keep the payload free of start codes.
        v.push(0x80 | (seed.wrapping_add(i as u8) & 0x7F));
    }
    v
}

fn mock_iframe_nal(size: usize, seed: u8) -> Vec<u8> {
    mock_slice(0x65, size, seed)
}

fn mock_pframe_nal(size: usize, seed: u8) -> Vec<u8> {
    mock_slice(0x41, size, seed)
}

impl MockCameraFrame {
    fn sps_pps(timestamp_us: u64) -> Self {
        let mut data = mock_sps_nal();
        data.extend_from_slice(&mock_pps_nal());
        MockCameraFrame { frame_type: FrameType::SpsPps, data, timestamp_us }
    }

    fn iframe(seed: u8, timestamp_us: u64, size: usize) -> Self {
        MockCameraFrame { frame_type: FrameType::IFrame, data: mock_iframe_nal(size, seed), timestamp_us }
    }

    fn pframe(seed: u8, timestamp_us: u64, size: usize) -> Self {
        MockCameraFrame { frame_type: FrameType::PFrame, data: mock_pframe_nal(size, seed), timestamp_us }
    }
}

/// SPS/PPS, then groups of `gop` frames that each open with an I-frame.
fn mock_frame_sequence(count: usize, fps: u64, gop: usize) -> Vec<MockCameraFrame> {
    let mut frames = vec![MockCameraFrame::sps_pps(0)];
    for i in 0..count {
        let ts = i as u64 * 1_000_000 / fps;
        if i % gop == 0 {
            frames.push(MockCameraFrame::iframe(i as u8, ts, 2048));
        } else {
            frames.push(MockCameraFrame::pframe(i as u8, ts, 512));
        }
    }
    frames
}

/// The decode core's answer to a configuration.
fn accepted() -> CoreConfig {
    CoreConfig::Accepted { width: 1280, height: 720 }
}

/// The decode core's answer to a frame: a small picture.
fn picture() -> CoreOutput {
    CoreOutput::Picture(vec![0x10; 64])
}

fn feed(decoder: &mut H264Decoder, frame: &MockCameraFrame) -> Result<Option<usize>, DecoderError> {
    if frame.frame_type == FrameType::SpsPps {
        decoder.decode_sps_pps(&frame.data, accepted()).map(|_| None)
    } else {
        decoder
            .decode(&frame.data, frame.timestamp_us, picture())
            .map(|f| f.map(|v| v.data.len()))
    }
}

#[test]
fn test_decoder_initialization() {
    let result = H264Decoder::new();
    assert!(result.is_ok(), "Decoder should initialize successfully");

    let decoder = result.unwrap();
    assert!(!decoder.is_initialized(), "Decoder should not be initialized without SPS/PPS");
}

#[test]
fn test_decode_sps_pps() {
    let mut decoder = H264Decoder::new().unwrap();
    let sps_data = mock_sps_nal();
    let pps_data = mock_pps_nal();

    let result = decoder.set_sps_pps(&sps_data, &pps_data, accepted());
    assert_eq!(result, Ok(()));
    assert!(decoder.is_initialized());
    assert_eq!(decoder.dimensions(), Some((1280, 720)));
}

#[test]
fn test_decode_combined_sps_pps() {
    let mut decoder = H264Decoder::new().unwrap();

    let mut combined = mock_sps_nal();
    combined.extend_from_slice(&mock_pps_nal());

    assert_eq!(H264Decoder::split_sps_pps(&combined), Some(mock_sps_nal().len()));
    let result = decoder.decode_sps_pps(&combined, accepted());
    assert_eq!(result, Ok(()));
    assert!(decoder.is_initialized());
}

#[test]
fn test_decode_iframe() {
    let mut decoder = H264Decoder::new().unwrap();

    let sps_data = mock_sps_nal();
    let pps_data = mock_pps_nal();
    let _ = decoder.set_sps_pps(&sps_data, &pps_data, accepted());

    let iframe_data = mock_iframe_nal(2048, 42);
    assert_eq!(decoder.check_frame(&iframe_data), Ok(()));
    let result = decoder.decode(&iframe_data, 33333, picture());

    let video_frame = result.unwrap().unwrap();
    assert!(!video_frame.data.is_empty());
    assert_eq!(video_frame.timestamp_us, 33333);
    assert_eq!((video_frame.width, video_frame.height), (1280, 720));
    assert_eq!(decoder.frames_decoded(), 1);
}

#[test]
fn test_decode_corrupt_frame() {
    let mut decoder = H264Decoder::new().unwrap();

    // Create corrupt data (no NAL header)
    let corrupt_data = vec![0xFF; 1024];

    let result = decoder.decode(&corrupt_data, 0, picture());

    // Should return error for corrupt data
    assert!(result.is_err(), "Should detect corrupt frame data");
    assert_eq!(result.unwrap_err(), DecoderError::CorruptData);
    assert!(!decoder.is_initialized());
}

#[test]
fn test_frame_sequence_processing() {
    let mut decoder = H264Decoder::new().unwrap();
    let frames = mock_frame_sequence(500, 30, 15);

    let mut frames_processed = 0;
    let mut frames_decoded = 0;
    for mock_frame in frames {
        let result = feed(&mut decoder, &mock_frame);
        frames_processed += 1;
        match result {
            Ok(Some(_)) => frames_decoded += 1,
            Ok(None) => {}
            Err(e) => panic!("unexpected error {:?}", e),
        }
    }

    assert!(frames_processed > 0, "Should process some frames");
    assert_eq!(frames_processed, 501);
    assert_eq!(frames_decoded, 500);
    assert_eq!(decoder.frames_decoded(), 500);
}

#[test]
fn test_decoder_reset() {
    let mut decoder = H264Decoder::new().unwrap();

    let frames = mock_frame_sequence(200, 30, 15);
    for mock_frame in frames.iter().take(5) {
        let _ = feed(&mut decoder, mock_frame);
    }
    assert_eq!(decoder.frames_decoded(), 4);

    let result = decoder.reset();
    assert!(result.is_ok(), "Reset should succeed");
    assert!(!decoder.is_initialized());
    assert_eq!(decoder.frames_decoded(), 0);
    assert!(decoder.dimensions().is_none());

    // Frames before a new configuration need it first.
    for mock_frame in frames.iter().skip(5).take(5) {
        assert_eq!(feed(&mut decoder, mock_frame), Err(DecoderError::NeedMoreData));
    }
    let _ = feed(&mut decoder, &frames[0]);
    assert_eq!(feed(&mut decoder, &frames[1]), Ok(Some(64)));
}

#[test]
fn test_missing_sps_pps() {
    let mut decoder = H264Decoder::new().unwrap();

    let iframe_data = mock_iframe_nal(2048, 42);
    let result = decoder.decode(&iframe_data, 0, picture());

    assert_eq!(result.unwrap_err(), DecoderError::NeedMoreData);
    assert!(!decoder.is_initialized());
    assert_eq!(decoder.frames_decoded(), 0);
    assert!(decoder.dimensions().is_none());
}

#[test]
fn test_decoder_initial_state() {
    let decoder = H264Decoder::new().unwrap();
    assert!(!decoder.is_initialized());
    assert_eq!(decoder.frames_decoded(), 0);
    assert!(decoder.dimensions().is_none());
}

#[test]
fn test_frame_timestamps() {
    let frames = mock_frame_sequence(500, 30, 15);
    let mut last_timestamp = 0u64;

    for mock_frame in frames.iter().skip(1) {
        assert!(
            mock_frame.timestamp_us >= last_timestamp,
            "Timestamps should be monotonic"
        );
        last_timestamp = mock_frame.timestamp_us;
    }
}

#[test]
fn test_out_of_order_frames() {
    let mut decoder = H264Decoder::new().unwrap();

    let mut frames = mock_frame_sequence(300, 30, 15);
    if frames.len() > 5 {
        frames.swap(3, 4);
    }

    // The engine decodes in arrival order; the core reports a reference
    // inconsistency for the frame that arrived early.
    let mut faults = 0;
    for (i, mock_frame) in frames.iter().enumerate() {
        let result = if mock_frame.frame_type == FrameType::SpsPps {
            decoder.decode_sps_pps(&mock_frame.data, accepted()).map(|_| None)
        } else if i == 3 {
            decoder.decode(&mock_frame.data, mock_frame.timestamp_us, CoreOutput::Fault)
        } else {
            decoder.decode(&mock_frame.data, mock_frame.timestamp_us, picture())
        };
        if let Err(e) = result {
            assert_eq!(e, DecoderError::DecodeFault);
            faults += 1;
        }
    }
    // Faulted from frame 3 until the next configuration never comes.
    assert_eq!(faults, frames.len() - 3);
    assert_eq!(decoder.frames_decoded(), 2);
}

#[test]
fn test_decoder_error_recovery() {
    let mut decoder = H264Decoder::new().unwrap();

    let sps_pps_frame = MockCameraFrame::sps_pps(0);
    let _ = decoder.decode_sps_pps(&sps_pps_frame.data, accepted());

    // A corrupt frame that the core finds inconsistent.
    let corrupt_data = vec![0x00, 0x00, 0x00, 0x01, 0xFF, 0xFF, 0xFF];
    assert_eq!(decoder.decode(&corrupt_data, 33333, CoreOutput::Fault).unwrap_err(), DecoderError::DecodeFault);

    // A valid I-frame is refused until the engine is configured again.
    let valid_iframe = MockCameraFrame::iframe(2, 66666, 2048);
    let result = decoder.decode(&valid_iframe.data, valid_iframe.timestamp_us, picture());
    assert_eq!(result.unwrap_err(), DecoderError::DecodeFault);

    let _ = decoder.decode_sps_pps(&sps_pps_frame.data, accepted());
    let result = decoder.decode(&valid_iframe.data, valid_iframe.timestamp_us, picture());
    assert!(result.unwrap().is_some());
}

#[test]
fn test_camera_frame_size_field() {
    let tiny_frame = CameraFrame {
        frame_type: FrameType::PFrame,
        timestamp_us: 0,
        sequence_number: 1,
        size: 4,
    };
    assert_eq!(tiny_frame.size, 4);

    let large_frame = CameraFrame {
        frame_type: FrameType::IFrame,
        timestamp_us: 0,
        sequence_number: 2,
        size: 1024 * 1024,
    };
    assert_eq!(large_frame.size, 1024 * 1024);
}

#[test]
fn test_camera_frame_to_packet() {
    let frame = CameraFrame {
        frame_type: FrameType::IFrame,
        timestamp_us: 33333,
        sequence_number: 1,
        size: 2048,
    };

    let packet = frame.to_packet();
    assert_eq!(packet.payload_size, Some(2048));
}

#[test]
fn test_decoder_cleanup() {
    {
        let mut decoder = H264Decoder::new().unwrap();
        let frames = mock_frame_sequence(200, 30, 15);
        for mock_frame in frames.iter().take(10) {
            let _ = feed(&mut decoder, mock_frame);
        }
        assert_eq!(decoder.frames_decoded(), 9);
    }
    assert!(true, "Decoder cleaned up successfully");
}

#[test]
fn test_multiple_decoders() {
    let mut decoder1 = H264Decoder::new().unwrap();
    let mut decoder2 = H264Decoder::new().unwrap();

    let frames1 = mock_frame_sequence(200, 30, 15);
    let frames2 = mock_frame_sequence(200, 30, 15);

    for (f1, f2) in frames1.iter().zip(frames2.iter()).take(10) {
        let _ = feed(&mut decoder1, f1);
        // The second decoder never gets its configuration.
        if f2.frame_type != FrameType::SpsPps {
            let _ = feed(&mut decoder2, f2);
        }
    }

    assert_eq!(decoder1.frames_decoded(), 9);
    assert_eq!(decoder2.frames_decoded(), 0);
    assert!(decoder1.is_initialized());
    assert!(!decoder2.is_initialized());
}

#[test]
fn test_nal_unit_validation() {
    assert!(is_valid_nal_unit(&mock_sps_nal()));
    assert!(is_valid_nal_unit(&mock_pps_nal()));
    assert!(is_valid_nal_unit(&mock_iframe_nal(1024, 1)));

    assert!(!is_valid_nal_unit(&[0x00, 0x00, 0x00])); // Too short
    assert!(!is_valid_nal_unit(&[0xFF, 0x00, 0x00, 0x01, 0x67])); // Wrong start
    assert!(!is_valid_nal_unit(&[])); // Empty
}

#[test]
fn test_nal_unit_type_extraction() {
    assert_eq!(get_nal_unit_type(&mock_sps_nal()), Some(7)); // SPS
    assert_eq!(get_nal_unit_type(&mock_pps_nal()), Some(8)); // PPS
    assert_eq!(get_nal_unit_type(&mock_iframe_nal(1024, 1)), Some(5)); // IDR
    assert_eq!(get_nal_unit_type(&mock_pframe_nal(512, 1)), Some(1)); // Non-IDR
    assert_eq!(get_nal_unit_type(&[0xFF, 0xFF]), None); // Invalid
}

#[test]
fn test_full_pipeline_simulation() {
    let mut decoder = H264Decoder::new().unwrap();
    let stream_frames = mock_frame_sequence(1000, 30, 30);

    let mut total_processed = 0;
    let mut total_decoded = 0;
    let mut total_errors = 0;

    for mock_frame in stream_frames.iter() {
        match feed(&mut decoder, mock_frame) {
            Ok(Some(len)) => {
                total_decoded += 1;
                assert!(len > 0);
            }
            Ok(None) => {}
            Err(_) => total_errors += 1,
        }
        total_processed += 1;
    }

    assert_eq!(total_processed, stream_frames.len(), "Should process all frames");
    assert_eq!(total_decoded, 1000);
    assert_eq!(total_errors, 0);
}
