//! The mapping between Media Foundation video subtype GUIDs and pixel
//! formats.

use crate::camera::{FourCC, PixelFormat};
use crate::guid::{
    mf_subtype_bits, mf_video_format_h264, mf_video_format_mjpg, mf_video_format_nv12,
    mf_video_format_rgb24, mf_video_format_rgb32, mf_video_format_uyvy, mf_video_format_yuy2,
    mf_video_format_yv12, Guid,
};
use vstd::prelude::*;

verus! {

/// The pixel format that a subtype GUID stands for: the known format whose
/// Media Foundation subtype it is, else `Unknown(0)`.
pub open spec fn spec_from_mf_guid(guid: Guid) -> PixelFormat {
    if guid.bits == mf_subtype_bits(FourCC::YUYV) {
        PixelFormat::Known(FourCC::YUYV)
    } else if guid.bits == mf_subtype_bits(FourCC::UYVY) {
        PixelFormat::Known(FourCC::UYVY)
    } else if guid.bits == mf_subtype_bits(FourCC::NV12) {
        PixelFormat::Known(FourCC::NV12)
    } else if guid.bits == mf_subtype_bits(FourCC::YV12) {
        PixelFormat::Known(FourCC::YV12)
    } else if guid.bits == mf_subtype_bits(FourCC::RGB3) {
        PixelFormat::Known(FourCC::RGB3)
    } else if guid.bits == mf_subtype_bits(FourCC::RGBA) {
        PixelFormat::Known(FourCC::RGBA)
    } else if guid.bits == mf_subtype_bits(FourCC::MJPEG) {
        PixelFormat::Known(FourCC::MJPEG)
    } else if guid.bits == mf_subtype_bits(FourCC::H264) {
        PixelFormat::Known(FourCC::H264)
    } else {
        PixelFormat::Unknown(0)
    }
}

/// The subtype GUID of a pixel format: that of its four-character code for
/// a known format, none for an unknown one.
pub open spec fn spec_to_mf_guid(fmt: PixelFormat) -> Option<Guid> {
    match fmt {
        PixelFormat::Known(fourcc) => Some(Guid { bits: mf_subtype_bits(fourcc) }),
        PixelFormat::Unknown(_) => None,
    }
}

/// Converts a Media Foundation video subtype GUID to a pixel format; a GUID
/// that no known format has gives `PixelFormat::Unknown(0)`.
pub fn from_mf_guid(guid: &Guid) -> (fmt: PixelFormat)
    ensures
        fmt == spec_from_mf_guid(*guid),
{
    let g = *guid;
    if g == mf_video_format_yuy2() {
        PixelFormat::Known(FourCC::YUYV)
    } else if g == mf_video_format_uyvy() {
        PixelFormat::Known(FourCC::UYVY)
    } else if g == mf_video_format_nv12() {
        PixelFormat::Known(FourCC::NV12)
    } else if g == mf_video_format_yv12() {
        PixelFormat::Known(FourCC::YV12)
    } else if g == mf_video_format_rgb24() {
        PixelFormat::Known(FourCC::RGB3)
    } else if g == mf_video_format_rgb32() {
        PixelFormat::Known(FourCC::RGBA)
    } else if g == mf_video_format_mjpg() {
        PixelFormat::Known(FourCC::MJPEG)
    } else if g == mf_video_format_h264() {
        PixelFormat::Known(FourCC::H264)
    } else {
        PixelFormat::Unknown(0)
    }
}

/// Converts a pixel format to its Media Foundation video subtype GUID, if
/// it has one.
pub fn to_mf_guid(fmt: PixelFormat) -> (guid: Option<Guid>)
    ensures
        guid == spec_to_mf_guid(fmt),
{
    match fmt {
        PixelFormat::Known(FourCC::YUYV) => Some(mf_video_format_yuy2()),
        PixelFormat::Known(FourCC::UYVY) => Some(mf_video_format_uyvy()),
        PixelFormat::Known(FourCC::NV12) => Some(mf_video_format_nv12()),
        PixelFormat::Known(FourCC::YV12) => Some(mf_video_format_yv12()),
        PixelFormat::Known(FourCC::RGB3) => Some(mf_video_format_rgb24()),
        PixelFormat::Known(FourCC::RGBA) => Some(mf_video_format_rgb32()),
        PixelFormat::Known(FourCC::MJPEG) => Some(mf_video_format_mjpg()),
        PixelFormat::Known(FourCC::H264) => Some(mf_video_format_h264()),
        PixelFormat::Unknown(_) => None,
    }
}

/// A format that has a subtype GUID comes back unchanged from that GUID.
pub proof fn lemma_format_guid_round_trip(fmt: PixelFormat)
    ensures
        spec_to_mf_guid(fmt) matches Some(g) ==> spec_from_mf_guid(g) == fmt,
{
}

/// A GUID that maps to a known format is that format's subtype GUID.
pub proof fn lemma_guid_format_round_trip(guid: Guid)
    ensures
        spec_from_mf_guid(guid) is Known ==> spec_to_mf_guid(spec_from_mf_guid(guid)) == Some(guid),
{
}

/// Exactly the known formats have a subtype GUID, and no two formats share
/// one.
pub proof fn lemma_to_mf_guid_injective(a: PixelFormat, b: PixelFormat)
    ensures
        spec_to_mf_guid(a) is Some <==> a is Known,
        spec_to_mf_guid(a) is Some && spec_to_mf_guid(a) == spec_to_mf_guid(b) ==> a == b,
{
}

} // verus!
