use vstd::prelude::*;
use vstd::string::StringExecFns;

use base64::Engine;

use crate::geometry::BoardArea;
use crate::text::{dec_int, i32_to_decimal, i64_to_decimal};

verus! {

/// A failure of the screen-capture gateway.
#[derive(Clone, Copy, Debug, PartialEq, Eq, Structural)]
pub enum CaptureError {
    /// The area's derived width or height is not positive.
    InvalidArea,
    /// The external capture tool could not be spawned or exited nonzero.
    ToolFailed,
    /// The capture file could not be read back afterward.
    ReadFailed,
}

/// The description of a capture failure.
pub open spec fn capture_error_text(e: CaptureError) -> Seq<char> {
    match e {
        CaptureError::InvalidArea => "Invalid board area dimensions"@,
        CaptureError::ToolFailed => "screencapture failed"@,
        CaptureError::ReadFailed => "Failed to read capture"@,
    }
}

impl CaptureError {
    /// A short description of the failure.
    pub fn text(&self) -> (r: String)
        ensures
            r@ == capture_error_text(*self),
    {
        match self {
            CaptureError::InvalidArea => String::from_str("Invalid board area dimensions"),
            CaptureError::ToolFailed => String::from_str("screencapture failed"),
            CaptureError::ReadFailed => String::from_str("Failed to read capture"),
        }
    }
}

/// The geometry handed to the platform's screenshot tool: the region's
/// top-left corner with its derived width and height. The sides are held
/// in a wider type, so every pair of corners is representable.
#[derive(Clone, Copy, Debug, PartialEq, Eq, Structural)]
pub struct CaptureRegion {
    pub x: i32,
    pub y: i32,
    pub width: i64,
    pub height: i64,
}

/// Validates a board area and derives the geometry of its capture.
/// Exactly the areas whose bottom-right corner lies strictly below and to
/// the right of the top-left corner are accepted; every other area fails
/// with `InvalidArea`, and a host runs no capture tool in that case,
/// since only this result names a region to it.
pub fn capture_region_request(area: &BoardArea) -> (r: Result<CaptureRegion, CaptureError>)
    ensures
        r is Ok <==> area.bottom_right.x > area.top_left.x && area.bottom_right.y
            > area.top_left.y,
        r matches Ok(reg) ==> {
            &&& reg.x == area.top_left.x
            &&& reg.y == area.top_left.y
            &&& reg.width == area.bottom_right.x - area.top_left.x
            &&& reg.height == area.bottom_right.y - area.top_left.y
            &&& reg.width > 0
            &&& reg.height > 0
        },
        r matches Err(e) ==> e == CaptureError::InvalidArea,
{
    let width: i64 = area.bottom_right.x as i64 - area.top_left.x as i64;
    let height: i64 = area.bottom_right.y as i64 - area.top_left.y as i64;
    if width <= 0 || height <= 0 {
        Err(CaptureError::InvalidArea)
    } else {
        Ok(CaptureRegion { x: area.top_left.x, y: area.top_left.y, width, height })
    }
}

/// The text naming a region to the screenshot tool:
/// `x,y,width,height` in decimal.
pub open spec fn region_argument_text(reg: CaptureRegion) -> Seq<char> {
    dec_int(reg.x as int) + ","@ + dec_int(reg.y as int) + ","@ + dec_int(reg.width as int)
        + ","@ + dec_int(reg.height as int)
}

/// Renders the region argument for the screenshot tool.
pub fn region_argument(reg: &CaptureRegion) -> (r: String)
    ensures
        r@ == region_argument_text(*reg),
{
    let s = i32_to_decimal(reg.x);
    let s = s.concat(",");
    let s = s.concat(i32_to_decimal(reg.y).as_str());
    let s = s.concat(",");
    let s = s.concat(i64_to_decimal(reg.width).as_str());
    let s = s.concat(",");
    let s = s.concat(i64_to_decimal(reg.height).as_str());
    proof {
        assert(s@ =~= region_argument_text(*reg));
    }
    s
}

/// The standard base64 text, with padding, of `bytes`. Its value is the
/// base64 crate's own; nothing more is assumed of it here than its
/// length.
pub uninterp spec fn base64_of(bytes: Seq<u8>) -> Seq<char>;

/// Relies on base64's STANDARD engine (the RFC 4648 alphabet, padded):
/// every three input bytes become four output characters, the last group
/// padded to four. The length bound keeps the output length
/// representable, which the engine demands.
#[verifier::external_body]
fn b64_encode(bytes: &[u8]) -> (r: String)
    requires
        bytes@.len() <= 0x7800_0000_0000_0000,
    ensures
        r@ == base64_of(bytes@),
        r@.len() == 4 * ((bytes@.len() + 2) / 3),
{
    base64::engine::general_purpose::STANDARD.encode(bytes)
}

/// Encodes captured image bytes as base64 text for the boundary. The
/// bytes are opaque image content; nothing interprets them here. Captured
/// bytes are never empty in practice, and the length law shows the text
/// of a non-empty capture is never empty either.
pub fn encode_capture(bytes: &Vec<u8>) -> (r: String)
    requires
        bytes@.len() <= 0x7800_0000_0000_0000,
    ensures
        r@ == base64_of(bytes@),
        r@.len() == 4 * ((bytes@.len() + 2) / 3),
        bytes@.len() > 0 ==> r@.len() >= 4,
{
    b64_encode(bytes.as_slice())
}

} // verus!
