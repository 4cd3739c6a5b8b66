//! GUIDs, and the Media Foundation GUIDs that the backend compares with.
//!
//! The constants themselves come from the `windows` crate; each is read
//! through one small trusted function whose contract states the value that
//! the crate defines it as.

use crate::camera::FourCC;
use vstd::prelude::*;
use windows::Win32::Media::MediaFoundation::{
    MFMediaType_Video, MFVideoFormat_H264, MFVideoFormat_MJPG, MFVideoFormat_NV12,
    MFVideoFormat_RGB24, MFVideoFormat_RGB32, MFVideoFormat_UYVY, MFVideoFormat_YUY2,
    MFVideoFormat_YV12,
};

verus! {

/// A GUID, held as the 128-bit number whose hexadecimal digits, most
/// significant first, are the GUID's digits in their written order.
#[derive(Debug, Clone, Copy, PartialEq, Eq, Structural, Hash)]
pub struct Guid {
    pub bits: u128,
}

/// The video subtype GUID that Media Foundation assigns to a four-character
/// code.
pub open spec fn mf_subtype_bits(fourcc: FourCC) -> u128 {
    match fourcc {
        FourCC::YUYV => 0x32595559_0000_0010_8000_00aa00389b71u128,
        FourCC::UYVY => 0x59565955_0000_0010_8000_00aa00389b71u128,
        FourCC::NV12 => 0x3231564e_0000_0010_8000_00aa00389b71u128,
        FourCC::YV12 => 0x32315659_0000_0010_8000_00aa00389b71u128,
        FourCC::RGB3 => 0x00000014_0000_0010_8000_00aa00389b71u128,
        FourCC::RGBA => 0x00000016_0000_0010_8000_00aa00389b71u128,
        FourCC::MJPEG => 0x47504a4d_0000_0010_8000_00aa00389b71u128,
        FourCC::H264 => 0x34363248_0000_0010_8000_00aa00389b71u128,
    }
}

/// The major-type GUID of video media.
pub open spec fn mf_media_type_video_bits() -> u128 {
    0x73646976_0000_0010_8000_00aa00389b71u128
}

/// `MFMediaType_Video` of the `windows` crate, through `GUID::to_u128`.
/// The crate defines it as `GUID::from_u128(0x73646976_0000_0010_8000_00aa00389b71)`,
/// and `to_u128` gives back the number that `from_u128` took.
#[verifier::external_body]
pub(crate) fn mf_media_type_video() -> (g: Guid)
    ensures
        g.bits == mf_media_type_video_bits(),
{
    Guid { bits: MFMediaType_Video.to_u128() }
}

/// `MFVideoFormat_YUY2` of the `windows` crate, through `GUID::to_u128`.
/// The crate defines it as `GUID::from_u128(0x32595559_0000_0010_8000_00aa00389b71)`.
#[verifier::external_body]
pub(crate) fn mf_video_format_yuy2() -> (g: Guid)
    ensures
        g.bits == mf_subtype_bits(FourCC::YUYV),
{
    Guid { bits: MFVideoFormat_YUY2.to_u128() }
}

/// `MFVideoFormat_UYVY` of the `windows` crate, through `GUID::to_u128`.
/// The crate defines it as `GUID::from_u128(0x59565955_0000_0010_8000_00aa00389b71)`.
#[verifier::external_body]
pub(crate) fn mf_video_format_uyvy() -> (g: Guid)
    ensures
        g.bits == mf_subtype_bits(FourCC::UYVY),
{
    Guid { bits: MFVideoFormat_UYVY.to_u128() }
}

/// `MFVideoFormat_NV12` of the `windows` crate, through `GUID::to_u128`.
/// The crate defines it as `GUID::from_u128(0x3231564e_0000_0010_8000_00aa00389b71)`.
#[verifier::external_body]
pub(crate) fn mf_video_format_nv12() -> (g: Guid)
    ensures
        g.bits == mf_subtype_bits(FourCC::NV12),
{
    Guid { bits: MFVideoFormat_NV12.to_u128() }
}

/// `MFVideoFormat_YV12` of the `windows` crate, through `GUID::to_u128`.
/// The crate defines it as `GUID::from_u128(0x32315659_0000_0010_8000_00aa00389b71)`.
#[verifier::external_body]
pub(crate) fn mf_video_format_yv12() -> (g: Guid)
    ensures
        g.bits == mf_subtype_bits(FourCC::YV12),
{
    Guid { bits: MFVideoFormat_YV12.to_u128() }
}

/// `MFVideoFormat_RGB24` of the `windows` crate, through `GUID::to_u128`.
/// The crate defines it as `GUID::from_u128(0x00000014_0000_0010_8000_00aa00389b71)`.
#[verifier::external_body]
pub(crate) fn mf_video_format_rgb24() -> (g: Guid)
    ensures
        g.bits == mf_subtype_bits(FourCC::RGB3),
{
    Guid { bits: MFVideoFormat_RGB24.to_u128() }
}

/// `MFVideoFormat_RGB32` of the `windows` crate, through `GUID::to_u128`.
/// The crate defines it as `GUID::from_u128(0x00000016_0000_0010_8000_00aa00389b71)`.
#[verifier::external_body]
pub(crate) fn mf_video_format_rgb32() -> (g: Guid)
    ensures
        g.bits == mf_subtype_bits(FourCC::RGBA),
{
    Guid { bits: MFVideoFormat_RGB32.to_u128() }
}

/// `MFVideoFormat_MJPG` of the `windows` crate, through `GUID::to_u128`.
/// The crate defines it as `GUID::from_u128(0x47504a4d_0000_0010_8000_00aa00389b71)`.
#[verifier::external_body]
pub(crate) fn mf_video_format_mjpg() -> (g: Guid)
    ensures
        g.bits == mf_subtype_bits(FourCC::MJPEG),
{
    Guid { bits: MFVideoFormat_MJPG.to_u128() }
}

/// `MFVideoFormat_H264` of the `windows` crate, through `GUID::to_u128`.
/// The crate defines it as `GUID::from_u128(0x34363248_0000_0010_8000_00aa00389b71)`.
#[verifier::external_body]
pub(crate) fn mf_video_format_h264() -> (g: Guid)
    ensures
        g.bits == mf_subtype_bits(FourCC::H264),
{
    Guid { bits: MFVideoFormat_H264.to_u128() }
}

} // verus!
