//! The camera model that the backend works with: pixel formats, the
//! capture configuration that a caller asks for, device records and the
//! errors that the backend reports.

use vstd::prelude::*;

verus! {

/// A four-character code of a pixel layout that the backend knows.
#[derive(Debug, Clone, Copy, PartialEq, Eq, Structural, Hash)]
pub enum FourCC {
    YUYV,
    UYVY,
    NV12,
    YV12,
    RGB3,
    RGBA,
    MJPEG,
    H264,
}

/// A pixel format: a known four-character code, or an unknown format
/// with a raw code.
#[derive(Debug, Clone, Copy, PartialEq, Eq, Structural, Hash)]
pub enum PixelFormat {
    Known(FourCC),
    Unknown(u32),
}

/// The errors that the backend reports.
#[derive(Debug)]
pub enum CameraError {
    /// An operating-system call failed, or the stream is in no state to
    /// deliver a frame; the text says what happened.
    Io(String),
    /// No capture format fits, or the request is not supported.
    FormatNotSupported,
}

/// How a capture is triggered.
#[derive(Debug, Clone, Copy, PartialEq, Eq, Structural)]
pub enum TriggerMode {
    Off,
    Software,
    Hardware,
}

/// A trigger configuration.
#[derive(Debug, Clone, Copy, PartialEq, Eq, Structural)]
pub struct TriggerConfig {
    pub mode: TriggerMode,
}

/// What a caller asks of a capture: the resolutions and the pixel formats
/// it prefers, each with a priority, and how many buffers to use.
#[derive(Debug, Clone)]
pub struct CameraConfig {
    /// `(width, height, priority)`.
    pub resolution_req: Vec<(u32, u32, u8)>,
    /// `(format, priority)`.
    pub format_req: Vec<(PixelFormat, u8)>,
    pub buffer_count: usize,
}

/// A capture device as enumeration reports it.
#[derive(Debug, Clone)]
pub struct DeviceInfo {
    /// The friendly name.
    pub name: String,
    /// The symbolic link that opens the device.
    pub id: String,
    /// The backend that found the device.
    pub backend: String,
    pub bus_info: Option<String>,
}

} // verus!

verus! {

/// What a frame reports of the capture settings in force when it was taken.
#[derive(Debug, Clone, Copy, PartialEq, Eq, Structural)]
pub struct FrameMetadata {
    /// The exposure actually used, in microseconds, where the device says.
    pub actual_exposure_us: Option<u32>,
    /// Whether a trigger fired for this frame.
    pub trigger_fired: bool,
    /// Whether the strobe was active for this frame.
    pub strobe_active: bool,
}

/// The metadata of a frame of which the device reports nothing: no
/// exposure, no trigger, no strobe.
pub open spec fn no_frame_metadata() -> FrameMetadata {
    FrameMetadata { actual_exposure_us: None, trigger_fired: false, strobe_active: false }
}

impl Default for FrameMetadata {
    fn default() -> (m: Self)
        ensures
            m == no_frame_metadata(),
    {
        FrameMetadata { actual_exposure_us: None, trigger_fired: false, strobe_active: false }
    }
}

/// What a delivered frame says of itself, beside its bytes.
#[derive(Debug, Clone, Copy, PartialEq, Eq, Structural)]
pub struct FrameInfo {
    pub width: u32,
    pub height: u32,
    /// The number of bytes in one row of the frame.
    pub stride: usize,
    pub format: PixelFormat,
    /// The number of frames that the stream has delivered, this one included.
    pub sequence: u64,
    /// The device timestamp in nanoseconds.
    pub hw_raw_ns: u64,
    /// What the frame reports of the capture settings.
    pub metadata: FrameMetadata,
}

/// Media Foundation timestamps count 100-nanosecond units; this is the
/// timestamp in nanoseconds.
pub open spec fn timestamp_ns(timestamp: i64) -> int {
    timestamp * 100
}

/// Converts a Media Foundation timestamp to nanoseconds.
pub fn hw_timestamp_ns(timestamp: i64) -> (ns: u64)
    requires
        0 <= timestamp,
        timestamp_ns(timestamp) <= u64::MAX,
    ensures
        ns == timestamp_ns(timestamp),
{
    (timestamp as u64) * 100
}

} // verus!
