//! The capture executor: from what the host's screen grab returned to an
//! encoded image or a failure.
//!
//! The grab itself is blocking host work and is done by the caller, away
//! from the threads that serve requests. Everything after it is here: the
//! check that the buffer is a well-formed RGBA raster, the PNG encoding, and
//! the mapping of every failure to an error kind.

use image::ImageEncoder;
use vstd::prelude::*;
use vstd::string::StringExecFns;
use crate::model::bytes_of;

verus! {

/// Why a capture produced no image.
#[derive(Debug, Clone, Copy, PartialEq, Eq)]
pub enum CaptureError {
    /// The host rejected the capture.
    Permission,
    /// No display, no frame, a malformed frame, or a failed encoding.
    BackendUnavailable,
}

impl CaptureError {
    /// The text of the message for this error.
    pub open spec fn message_text(self) -> Seq<char> {
        match self {
            CaptureError::Permission => "Permission denied or not granted"@,
            CaptureError::BackendUnavailable => "Capture backend unavailable"@,
        }
    }

    /// A human-readable message for this error.
    pub fn message(&self) -> (s: String)
        ensures
            s@ == self.message_text(),
    {
        match self {
            CaptureError::Permission => String::from_str("Permission denied or not granted"),
            CaptureError::BackendUnavailable => String::from_str("Capture backend unavailable"),
        }
    }
}

/// Advisory bounds for a capture. They are carried, not enforced.
#[derive(Clone, Copy, Debug)]
pub struct CaptureConfig {
    pub max_fps: u8,
    pub max_width: u32,
}

/// A source of encoded screenshots.
pub trait ScreenCapture {
    fn capture_once(&self, cfg: &CaptureConfig) -> Result<Vec<u8>, CaptureError>;
}

/// One grabbed frame as the host handed it over: dimensions and a buffer
/// that should hold four bytes (red, green, blue, alpha) per pixel.
#[derive(Debug, Clone)]
pub struct RawFrame {
    pub width: u32,
    pub height: u32,
    pub data: Vec<u8>,
}

/// What the host's screen grab came back with.
#[derive(Debug, Clone)]
pub enum Grab {
    /// The host lists no display.
    NoDisplay,
    /// The primary display gave no frame.
    Failed,
    /// The primary display gave this frame.
    Frame(RawFrame),
}

/// Whether a buffer of `len` bytes is exactly a `width` by `height` raster of
/// four-byte pixels.
pub open spec fn is_rgba_raster(width: u32, height: u32, len: nat) -> bool {
    len == width * height * 4
}

/// The eight bytes every PNG stream starts with.
pub open spec fn png_signature() -> Seq<u8> {
    seq![137u8, 80u8, 78u8, 71u8, 13u8, 10u8, 26u8, 10u8]
}

/// Whether `bytes` starts with the PNG signature.
pub open spec fn has_png_signature(bytes: Seq<u8>) -> bool {
    bytes.len() >= 8 && bytes.subrange(0, 8) == png_signature()
}

/// The PNG stream that the `image` crate's encoder, with its default
/// compression and filter, writes for an 8-bit RGBA raster; `None` where the
/// encoder reports an error.
pub uninterp spec fn png_rgba8(width: u32, height: u32, data: Seq<u8>) -> Option<Seq<u8>>;

/// The view of a capture result.
pub open spec fn outcome_of(r: Result<Vec<u8>, CaptureError>) -> Result<Seq<u8>, CaptureError> {
    match r {
        Ok(png) => Ok(png@),
        Err(e) => Err(e),
    }
}

/// What the capture makes of an encoder result: the stream, or a failure of
/// the backend.
pub open spec fn encoder_outcome(encoded: Option<Seq<u8>>) -> Result<Seq<u8>, CaptureError> {
    match encoded {
        Some(png) => Ok(png),
        None => Err(CaptureError::BackendUnavailable),
    }
}

/// What the capture makes of a frame: its PNG encoding where the buffer is a
/// well-formed raster and the encoder succeeds, a failure of the backend
/// otherwise.
pub open spec fn frame_outcome(width: u32, height: u32, data: Seq<u8>) -> Result<
    Seq<u8>,
    CaptureError,
> {
    if is_rgba_raster(width, height, data.len()) {
        encoder_outcome(png_rgba8(width, height, data))
    } else {
        Err(CaptureError::BackendUnavailable)
    }
}

/// What the capture makes of a grab.
pub open spec fn grab_outcome(grab: Grab) -> Result<Seq<u8>, CaptureError> {
    match grab {
        Grab::NoDisplay => Err(CaptureError::BackendUnavailable),
        Grab::Failed => Err(CaptureError::BackendUnavailable),
        Grab::Frame(frame) => frame_outcome(frame.width, frame.height, frame.data@),
    }
}

/// Calls `image::codecs::png::PngEncoder::new` on an empty buffer and then
/// `ImageEncoder::write_image` with `ExtendedColorType::Rgba8`. Trusted: the
/// result is a function of dimensions and pixel bytes alone, named
/// `png_rgba8`, and a stream that was written starts with the PNG signature,
/// the first thing the encoder writes. The outside function panics unless
/// the buffer holds exactly four bytes per pixel, hence the `requires`.
#[verifier::external_body]
fn encode_png_rgba8(width: u32, height: u32, data: &[u8]) -> (r: Option<Vec<u8>>)
    requires
        is_rgba_raster(width, height, data@.len()),
    ensures
        bytes_of(r) == png_rgba8(width, height, data@),
        r matches Some(png) ==> has_png_signature(png@),
{
    let mut out = Vec::new();
    let encoder = image::codecs::png::PngEncoder::new(&mut out);
    match encoder.write_image(data, width, height, image::ExtendedColorType::Rgba8) {
        Ok(()) => Some(out),
        Err(_) => None,
    }
}

impl RawFrame {
    /// Whether the buffer is exactly a raster of the stated dimensions.
    pub fn is_well_formed(&self) -> (b: bool)
        ensures
            b == is_rgba_raster(self.width, self.height, self.data@.len()),
    {
        assert(self.width * self.height <= 0xffff_ffff * 0xffff_ffff) by (nonlinear_arith)
            requires
                self.width <= 0xffff_ffff,
                self.height <= 0xffff_ffff,
        ;
        let pixels: u64 = self.width as u64 * self.height as u64;
        let wanted: u128 = pixels as u128 * 4;
        self.data.len() as u128 == wanted
    }
}

/// Maps an encoder result to a capture result.
pub fn finish_encoding(encoded: Option<Vec<u8>>) -> (r: Result<Vec<u8>, CaptureError>)
    ensures
        outcome_of(r) == encoder_outcome(bytes_of(encoded)),
{
    match encoded {
        Some(png) => Ok(png),
        None => Err(CaptureError::BackendUnavailable),
    }
}

/// Encodes a grabbed frame as PNG.
///
/// Succeeds exactly when the buffer is a well-formed raster and the encoder
/// accepts it; every failure is `BackendUnavailable`. A stream that is
/// returned starts with the PNG signature.
pub fn encode_frame(frame: &RawFrame) -> (r: Result<Vec<u8>, CaptureError>)
    ensures
        outcome_of(r) == frame_outcome(frame.width, frame.height, frame.data@),
        r matches Ok(png) ==> has_png_signature(png@),
{
    if !frame.is_well_formed() {
        return Err(CaptureError::BackendUnavailable);
    }
    let encoded = encode_png_rgba8(frame.width, frame.height, frame.data.as_slice());
    finish_encoding(encoded)
}

/// Completes a capture from what the grab returned.
///
/// With no display or no frame the capture fails with `BackendUnavailable`;
/// a frame is encoded as by `encode_frame`. The configuration is advisory
/// and changes nothing.
pub fn complete_capture(cfg: &CaptureConfig, grab: Grab) -> (r: Result<Vec<u8>, CaptureError>)
    ensures
        outcome_of(r) == grab_outcome(grab),
        r matches Ok(png) ==> has_png_signature(png@),
{
    match grab {
        Grab::NoDisplay => Err(CaptureError::BackendUnavailable),
        Grab::Failed => Err(CaptureError::BackendUnavailable),
        Grab::Frame(frame) => encode_frame(&frame),
    }
}

} // verus!
