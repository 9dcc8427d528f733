use pl_core::capture::{
    complete_capture, encode_frame, finish_encoding, CaptureConfig, CaptureError, Grab, RawFrame,
};

const PNG_SIGNATURE: [u8; 8] = [137, 80, 78, 71, 13, 10, 26, 10];

fn config() -> CaptureConfig {
    CaptureConfig { max_fps: 2, max_width: 1280 }
}

fn two_by_two() -> RawFrame {
    RawFrame {
        width: 2,
        height: 2,
        data: vec![255, 0, 0, 255, 0, 255, 0, 255, 0, 0, 255, 255, 10, 20, 30, 40],
    }
}

#[test]
fn a_well_formed_frame_is_encoded_as_png() {
    let frame = two_by_two();
    assert!(frame.is_well_formed());
    let png = encode_frame(&frame).expect("encodes");
    assert_eq!(&png[..8], &PNG_SIGNATURE);
    assert_ne!(png, frame.data);
    let decoded = image::load_from_memory(&png).expect("decodes").to_rgba8();
    assert_eq!(decoded.width(), 2);
    assert_eq!(decoded.height(), 2);
    assert_eq!(decoded.into_raw(), frame.data);
}

#[test]
fn encoding_is_a_function_of_the_frame() {
    let first = encode_frame(&two_by_two()).expect("encodes");
    let second = encode_frame(&two_by_two()).expect("encodes");
    assert_eq!(first, second);
}

#[test]
fn a_wide_frame_keeps_its_dimensions() {
    let frame = RawFrame { width: 3, height: 1, data: vec![1, 2, 3, 4, 5, 6, 7, 8, 9, 10, 11, 12] };
    let png = encode_frame(&frame).expect("encodes");
    let decoded = image::load_from_memory(&png).expect("decodes").to_rgba8();
    assert_eq!((decoded.width(), decoded.height()), (3, 1));
    assert_eq!(decoded.into_raw(), frame.data);
}

#[test]
fn a_larger_frame_round_trips_through_the_encoder() {
    let mut state: u32 = 0x2545_f491;
    let mut data = Vec::with_capacity(64 * 48 * 4);
    for _ in 0..64 * 48 * 4 {
        state = state.wrapping_mul(1_664_525).wrapping_add(1_013_904_223);
        data.push((state >> 24) as u8);
    }
    let frame = RawFrame { width: 64, height: 48, data };
    let png = encode_frame(&frame).expect("encodes");
    assert_eq!(&png[..8], &PNG_SIGNATURE);
    let decoded = image::load_from_memory(&png).expect("decodes").to_rgba8();
    assert_eq!((decoded.width(), decoded.height()), (64, 48));
    assert_eq!(decoded.into_raw(), frame.data);
}

#[test]
fn a_short_buffer_is_rejected() {
    let mut frame = two_by_two();
    frame.data.pop();
    assert!(!frame.is_well_formed());
    assert_eq!(encode_frame(&frame), Err(CaptureError::BackendUnavailable));
}

#[test]
fn a_long_buffer_is_rejected() {
    let mut frame = two_by_two();
    frame.data.push(0);
    assert!(!frame.is_well_formed());
    assert_eq!(encode_frame(&frame), Err(CaptureError::BackendUnavailable));
}

#[test]
fn an_empty_buffer_for_a_real_size_is_rejected() {
    let frame = RawFrame { width: 1920, height: 1080, data: Vec::new() };
    assert_eq!(encode_frame(&frame), Err(CaptureError::BackendUnavailable));
}

#[test]
fn dimensions_beyond_any_buffer_are_rejected() {
    let frame = RawFrame { width: u32::MAX, height: u32::MAX, data: vec![0; 4] };
    assert!(!frame.is_well_formed());
    assert_eq!(encode_frame(&frame), Err(CaptureError::BackendUnavailable));
}

#[test]
fn an_empty_raster_is_well_formed_but_not_encodable() {
    let frame = RawFrame { width: 0, height: 0, data: Vec::new() };
    assert!(frame.is_well_formed());
    assert_eq!(encode_frame(&frame), Err(CaptureError::BackendUnavailable));
    let flat = RawFrame { width: 5, height: 0, data: Vec::new() };
    assert!(flat.is_well_formed());
    assert_eq!(encode_frame(&flat), Err(CaptureError::BackendUnavailable));
}

#[test]
fn no_display_fails_the_capture() {
    assert_eq!(
        complete_capture(&config(), Grab::NoDisplay),
        Err(CaptureError::BackendUnavailable)
    );
}

#[test]
fn a_failed_grab_fails_the_capture() {
    assert_eq!(complete_capture(&config(), Grab::Failed), Err(CaptureError::BackendUnavailable));
}

#[test]
fn a_grabbed_frame_completes_as_its_encoding() {
    let png = complete_capture(&config(), Grab::Frame(two_by_two())).expect("encodes");
    assert_eq!(png, encode_frame(&two_by_two()).expect("encodes"));
    assert_eq!(&png[..8], &PNG_SIGNATURE);
}

#[test]
fn a_malformed_grabbed_frame_fails_the_capture() {
    let frame = RawFrame { width: 2, height: 2, data: vec![0; 15] };
    assert_eq!(
        complete_capture(&config(), Grab::Frame(frame)),
        Err(CaptureError::BackendUnavailable)
    );
}

#[test]
fn the_configuration_changes_nothing() {
    let small = CaptureConfig { max_fps: 1, max_width: 1 };
    let large = CaptureConfig { max_fps: 255, max_width: u32::MAX };
    assert_eq!(
        complete_capture(&small, Grab::Frame(two_by_two())),
        complete_capture(&large, Grab::Frame(two_by_two()))
    );
}

#[test]
fn an_encoder_result_maps_to_a_capture_result() {
    assert_eq!(finish_encoding(Some(vec![1, 2])), Ok(vec![1, 2]));
    assert_eq!(finish_encoding(None), Err(CaptureError::BackendUnavailable));
}

#[test]
fn capture_errors_have_their_messages() {
    assert_eq!(CaptureError::Permission.message(), "Permission denied or not granted");
    assert_eq!(CaptureError::BackendUnavailable.message(), "Capture backend unavailable");
}
