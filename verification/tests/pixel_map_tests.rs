use rustcv_backend_msmf::camera::{FourCC, PixelFormat};
use rustcv_backend_msmf::guid::Guid;
use rustcv_backend_msmf::pixel_map::{from_mf_guid, to_mf_guid};
use windows::Win32::Media::MediaFoundation::{
    MFMediaType_Video, MFVideoFormat_H264, MFVideoFormat_MJPG, MFVideoFormat_NV12,
    MFVideoFormat_RGB24, MFVideoFormat_RGB32, MFVideoFormat_UYVY, MFVideoFormat_YUY2,
    MFVideoFormat_YV12,
};

fn all_known() -> Vec<(FourCC, windows::core::GUID)> {
    vec![
        (FourCC::YUYV, MFVideoFormat_YUY2),
        (FourCC::UYVY, MFVideoFormat_UYVY),
        (FourCC::NV12, MFVideoFormat_NV12),
        (FourCC::YV12, MFVideoFormat_YV12),
        (FourCC::RGB3, MFVideoFormat_RGB24),
        (FourCC::RGBA, MFVideoFormat_RGB32),
        (FourCC::MJPEG, MFVideoFormat_MJPG),
        (FourCC::H264, MFVideoFormat_H264),
    ]
}

#[test]
fn known_subtypes_map_to_their_formats() {
    for (fourcc, guid) in all_known() {
        let g = Guid { bits: guid.to_u128() };
        assert_eq!(from_mf_guid(&g), PixelFormat::Known(fourcc));
    }
}

#[test]
fn known_formats_map_to_their_subtypes() {
    for (fourcc, guid) in all_known() {
        assert_eq!(to_mf_guid(PixelFormat::Known(fourcc)), Some(Guid { bits: guid.to_u128() }));
    }
}

#[test]
fn yuy2_subtype_value() {
    assert_eq!(
        to_mf_guid(PixelFormat::Known(FourCC::YUYV)),
        Some(Guid { bits: 0x32595559_0000_0010_8000_00aa00389b71 })
    );
    assert_eq!(
        from_mf_guid(&Guid { bits: 0x00000016_0000_0010_8000_00aa00389b71 }),
        PixelFormat::Known(FourCC::RGBA)
    );
}

#[test]
fn unknown_subtype_is_unknown_zero() {
    assert_eq!(from_mf_guid(&Guid { bits: 0 }), PixelFormat::Unknown(0));
    let video = Guid { bits: MFMediaType_Video.to_u128() };
    assert_eq!(from_mf_guid(&video), PixelFormat::Unknown(0));
    assert_eq!(from_mf_guid(&Guid { bits: 0x32595559 }), PixelFormat::Unknown(0));
}

#[test]
fn unknown_format_has_no_subtype() {
    assert_eq!(to_mf_guid(PixelFormat::Unknown(0)), None);
    assert_eq!(to_mf_guid(PixelFormat::Unknown(0x3231_564e)), None);
}

#[test]
fn format_subtype_round_trip() {
    for (fourcc, _) in all_known() {
        let fmt = PixelFormat::Known(fourcc);
        let g = to_mf_guid(fmt).unwrap();
        assert_eq!(from_mf_guid(&g), fmt);
    }
}

#[test]
fn subtypes_are_distinct() {
    let guids: Vec<Guid> = all_known()
        .into_iter()
        .map(|(f, _)| to_mf_guid(PixelFormat::Known(f)).unwrap())
        .collect();
    for i in 0..guids.len() {
        for j in 0..guids.len() {
            assert_eq!(i == j, guids[i] == guids[j]);
        }
    }
}
