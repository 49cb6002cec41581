use base64::Engine;

use board_input::capture::{
    capture_region_request, encode_capture, region_argument, CaptureError, CaptureRegion,
};
use board_input::clipboard::ClipboardError;
use board_input::driver::DriverError;
use board_input::geometry::{BoardArea, Position};
use board_input::text::{i32_to_decimal, i64_to_decimal, u64_to_decimal};

fn area(lx: i32, ly: i32, rx: i32, ry: i32) -> BoardArea {
    BoardArea {
        top_left: Position { x: lx, y: ly },
        bottom_right: Position { x: rx, y: ry },
    }
}

#[test]
fn valid_area_yields_its_geometry() {
    let reg = capture_region_request(&area(10, 20, 110, 220)).unwrap();
    assert_eq!(reg, CaptureRegion { x: 10, y: 20, width: 100, height: 200 });
    assert_eq!(region_argument(&reg), "10,20,100,200");
}

#[test]
fn degenerate_and_reversed_areas_are_invalid() {
    assert_eq!(capture_region_request(&area(5, 5, 5, 5)), Err(CaptureError::InvalidArea));
    assert_eq!(capture_region_request(&area(10, 10, 5, 20)), Err(CaptureError::InvalidArea));
    assert_eq!(capture_region_request(&area(10, 10, 20, 5)), Err(CaptureError::InvalidArea));
    assert_eq!(capture_region_request(&area(0, 0, 10, 0)), Err(CaptureError::InvalidArea));
}

#[test]
fn the_widest_area_is_still_representable() {
    let reg = capture_region_request(&area(i32::MIN, i32::MIN, i32::MAX, i32::MAX)).unwrap();
    assert_eq!(reg.width, 4294967295);
    assert_eq!(reg.height, 4294967295);
}

#[test]
fn negative_corners_render_with_signs() {
    let reg = capture_region_request(&area(-30, -40, -10, -5)).unwrap();
    assert_eq!(region_argument(&reg), "-30,-40,20,35");
}

#[test]
fn encoding_matches_known_base64_vectors() {
    assert_eq!(encode_capture(&b"hello".to_vec()), "aGVsbG8=");
    assert_eq!(encode_capture(&Vec::new()), "");
    assert_eq!(encode_capture(&vec![0x61]), "YQ==");
    assert_eq!(encode_capture(&vec![0x61, 0x62]), "YWI=");
    assert_eq!(encode_capture(&vec![0x61, 0x62, 0x63]), "YWJj");
}

#[test]
fn encoding_grows_four_chars_per_three_bytes() {
    for n in 0..32usize {
        let bytes = vec![0xA5u8; n];
        assert_eq!(encode_capture(&bytes).len(), 4 * ((n + 2) / 3));
    }
}

#[test]
fn encoded_capture_decodes_back_to_its_bytes() {
    let mut bytes: Vec<u8> = Vec::new();
    for b in 0..=255u8 {
        bytes.push(b);
    }
    let text = encode_capture(&bytes);
    assert!(!text.is_empty());
    let decoded = base64::engine::general_purpose::STANDARD.decode(text).unwrap();
    assert_eq!(decoded, bytes);
}

#[test]
fn decimal_rendering_is_exact() {
    assert_eq!(i32_to_decimal(0), "0");
    assert_eq!(i32_to_decimal(-1), "-1");
    assert_eq!(i32_to_decimal(i32::MIN), "-2147483648");
    assert_eq!(i32_to_decimal(i32::MAX), "2147483647");
    assert_eq!(i64_to_decimal(i64::MIN), "-9223372036854775808");
    assert_eq!(u64_to_decimal(u64::MAX), "18446744073709551615");
}

#[test]
fn every_failure_has_its_description() {
    assert_eq!(DriverError::InitFailed.text(), "Failed to create the input driver");
    assert_eq!(DriverError::MoveFailed.text(), "Failed to move mouse");
    assert_eq!(DriverError::ClickFailed.text(), "Failed to click");
    assert_eq!(DriverError::PressFailed.text(), "Failed to press");
    assert_eq!(DriverError::ReleaseFailed.text(), "Failed to release");
    assert_eq!(DriverError::QueryFailed.text(), "Failed to get mouse location");
    assert_eq!(CaptureError::InvalidArea.text(), "Invalid board area dimensions");
    assert_eq!(CaptureError::ToolFailed.text(), "screencapture failed");
    assert_eq!(CaptureError::ReadFailed.text(), "Failed to read capture");
    assert_eq!(ClipboardError::AccessDenied.text(), "Failed to access clipboard");
    assert_eq!(ClipboardError::NotText.text(), "Clipboard holds no readable text");
}
