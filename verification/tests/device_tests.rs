use rustcv_backend_msmf::camera::{CameraConfig, CameraError, FourCC, PixelFormat};
use rustcv_backend_msmf::device::{
    calculate_score, collect_devices, device_info, negotiate_format, output_media_type,
    pack_frame_size, parse_media_type, unpack_frame_size, NativeMediaType, NegotiatedFormat,
    NEGOTIATED_FPS,
};
use rustcv_backend_msmf::guid::Guid;
use rustcv_backend_msmf::MsmfDriver;

const VIDEO: u128 = 0x73646976_0000_0010_8000_00aa00389b71;
const YUY2: u128 = 0x32595559_0000_0010_8000_00aa00389b71;
const NV12: u128 = 0x3231564e_0000_0010_8000_00aa00389b71;
const MJPG: u128 = 0x47504a4d_0000_0010_8000_00aa00389b71;

fn empty_config() -> CameraConfig {
    CameraConfig { resolution_req: vec![], format_req: vec![], buffer_count: 4 }
}

fn media(subtype: u128, w: u32, h: u32) -> NativeMediaType {
    NativeMediaType {
        major_type: Some(Guid { bits: VIDEO }),
        subtype: Some(Guid { bits: subtype }),
        frame_size: Some(((h as u64) << 32) | w as u64),
    }
}

#[test]
fn driver_new_and_default_agree() {
    assert_eq!(MsmfDriver::new(), MsmfDriver::default());
}

#[test]
fn score_without_preferences_is_width_in_hundreds() {
    let config = empty_config();
    assert_eq!(calculate_score(&config, 1920, 1080, PixelFormat::Known(FourCC::NV12)), 19);
    assert_eq!(calculate_score(&config, 99, 10, PixelFormat::Unknown(0)), 0);
}

#[test]
fn score_adds_resolution_and_format_priorities() {
    let config = CameraConfig {
        resolution_req: vec![(640, 480, 2), (1280, 720, 7)],
        format_req: vec![(PixelFormat::Known(FourCC::MJPEG), 3)],
        buffer_count: 4,
    };
    assert_eq!(calculate_score(&config, 640, 480, PixelFormat::Known(FourCC::MJPEG)), 20 + 30 + 6);
    assert_eq!(calculate_score(&config, 1280, 720, PixelFormat::Known(FourCC::NV12)), 70 + 12);
    assert_eq!(calculate_score(&config, 640, 720, PixelFormat::Known(FourCC::MJPEG)), 30 + 6);
}

#[test]
fn score_uses_the_first_matching_request() {
    let config = CameraConfig {
        resolution_req: vec![(640, 480, 1), (640, 480, 9)],
        format_req: vec![(PixelFormat::Unknown(0), 4), (PixelFormat::Unknown(0), 8)],
        buffer_count: 2,
    };
    assert_eq!(calculate_score(&config, 640, 480, PixelFormat::Unknown(0)), 10 + 40 + 6);
}

#[test]
fn score_at_the_largest_priorities() {
    let config = CameraConfig {
        resolution_req: vec![(u32::MAX, u32::MAX, 255)],
        format_req: vec![(PixelFormat::Known(FourCC::H264), 255)],
        buffer_count: 1,
    };
    assert_eq!(
        calculate_score(&config, u32::MAX, u32::MAX, PixelFormat::Known(FourCC::H264)),
        2550 + 2550 + (u32::MAX / 100) as i32
    );
}

#[test]
fn frame_size_packs_height_high_and_width_low() {
    assert_eq!(pack_frame_size(640, 480), (480u64 << 32) | 640);
    assert_eq!(unpack_frame_size((1080u64 << 32) | 1920), (1920, 1080));
    assert_eq!(unpack_frame_size(u64::MAX), (u32::MAX, u32::MAX));
    assert_eq!(unpack_frame_size(pack_frame_size(7, 9)), (7, 9));
    assert_eq!(pack_frame_size(u32::MAX, 0), u32::MAX as u64);
}

#[test]
fn parse_accepts_video_only() {
    let config = empty_config();
    let parsed = parse_media_type(&media(YUY2, 1280, 720), &config);
    assert_eq!(
        parsed,
        Some((12, NegotiatedFormat { width: 1280, height: 720, format: PixelFormat::Known(FourCC::YUYV), fps: NEGOTIATED_FPS }))
    );
    let mut audio = media(YUY2, 1280, 720);
    audio.major_type = Some(Guid { bits: 0x73647561_0000_0010_8000_00aa00389b71 });
    assert_eq!(parse_media_type(&audio, &config), None);
}

#[test]
fn parse_needs_every_attribute() {
    let config = empty_config();
    let mut m = media(NV12, 640, 480);
    m.major_type = None;
    assert_eq!(parse_media_type(&m, &config), None);
    let mut m = media(NV12, 640, 480);
    m.subtype = None;
    assert_eq!(parse_media_type(&m, &config), None);
    let mut m = media(NV12, 640, 480);
    m.frame_size = None;
    assert_eq!(parse_media_type(&m, &config), None);
}

#[test]
fn parse_keeps_unknown_subtypes() {
    let config = empty_config();
    let parsed = parse_media_type(&media(0x1234, 320, 240), &config).unwrap();
    assert_eq!(parsed.1.format, PixelFormat::Unknown(0));
    assert_eq!(parsed.0, 3);
}

#[test]
fn negotiate_prefers_requested_formats() {
    let config = CameraConfig {
        resolution_req: vec![(640, 480, 10)],
        format_req: vec![(PixelFormat::Known(FourCC::MJPEG), 5)],
        buffer_count: 4,
    };
    let candidates = vec![media(YUY2, 1920, 1080), media(MJPG, 640, 480), media(NV12, 640, 480)];
    let fmt = negotiate_format(&candidates, &config).unwrap();
    assert_eq!(fmt.format, PixelFormat::Known(FourCC::MJPEG));
    assert_eq!((fmt.width, fmt.height, fmt.fps), (640, 480, 30));
}

#[test]
fn negotiate_prefers_wider_frames_without_requests() {
    let candidates = vec![media(YUY2, 640, 480), media(YUY2, 1920, 1080), media(YUY2, 1280, 720)];
    let fmt = negotiate_format(&candidates, &empty_config()).unwrap();
    assert_eq!((fmt.width, fmt.height), (1920, 1080));
}

#[test]
fn negotiate_takes_the_last_of_equal_scores() {
    let candidates = vec![media(YUY2, 640, 480), media(NV12, 640, 480), media(YUY2, 500, 100)];
    let fmt = negotiate_format(&candidates, &empty_config()).unwrap();
    assert_eq!(fmt.format, PixelFormat::Known(FourCC::NV12));
    assert_eq!((fmt.width, fmt.height), (640, 480));
}

#[test]
fn negotiate_skips_what_does_not_parse() {
    let mut broken = media(YUY2, 4000, 3000);
    broken.frame_size = None;
    let candidates = vec![broken, media(NV12, 320, 240)];
    let fmt = negotiate_format(&candidates, &empty_config()).unwrap();
    assert_eq!((fmt.width, fmt.height), (320, 240));
}

#[test]
fn negotiate_fails_without_video() {
    assert!(matches!(negotiate_format(&vec![], &empty_config()), Err(CameraError::FormatNotSupported)));
    let mut m = media(YUY2, 640, 480);
    m.major_type = Some(Guid { bits: 1 });
    assert!(matches!(negotiate_format(&vec![m], &empty_config()), Err(CameraError::FormatNotSupported)));
}

#[test]
fn output_media_type_of_known_format() {
    let fmt = NegotiatedFormat { width: 1280, height: 720, format: PixelFormat::Known(FourCC::NV12), fps: 30 };
    let out = output_media_type(&fmt).unwrap();
    assert_eq!(out.subtype, Guid { bits: NV12 });
    assert_eq!(out.frame_size, (720u64 << 32) | 1280);
}

#[test]
fn output_media_type_of_unknown_format_fails() {
    let fmt = NegotiatedFormat { width: 1280, height: 720, format: PixelFormat::Unknown(0), fps: 30 };
    assert!(matches!(output_media_type(&fmt), Err(CameraError::FormatNotSupported)));
}

#[test]
fn devices_without_name_are_dropped() {
    let entries = vec![
        ("Front Camera".to_string(), "\\\\?\\usb#vid_1".to_string()),
        (String::new(), "\\\\?\\usb#vid_2".to_string()),
        ("Rear Camera".to_string(), String::new()),
    ];
    let devices = collect_devices(&entries);
    assert_eq!(devices.len(), 2);
    assert_eq!(devices[0].name, "Front Camera");
    assert_eq!(devices[0].id, "\\\\?\\usb#vid_1");
    assert_eq!(devices[0].backend, "MSMF");
    assert_eq!(devices[0].bus_info, None);
    assert_eq!(devices[1].name, "Rear Camera");
    assert_eq!(devices[1].id, "");
}

#[test]
fn device_info_needs_a_name() {
    assert!(device_info(&String::new(), &"id".to_string()).is_none());
    let d = device_info(&"Cam".to_string(), &"id".to_string()).unwrap();
    assert_eq!((d.name.as_str(), d.id.as_str(), d.backend.as_str()), ("Cam", "id", "MSMF"));
    assert!(collect_devices(&vec![]).is_empty());
}

#[test]
fn negotiate_ties_include_width_tie_breaker() {
    let candidates = vec![media(NV12, 640, 480), media(YUY2, 600, 100)];
    let fmt = negotiate_format(&candidates, &empty_config()).unwrap();
    assert_eq!((fmt.format, fmt.width, fmt.height), (PixelFormat::Known(FourCC::YUYV), 600, 100));
}

#[test]
fn negotiate_passes_over_formats_without_subtype() {
    let candidates = vec![media(YUY2, 640, 480), media(0x1234, 1920, 1080)];
    let fmt = negotiate_format(&candidates, &empty_config()).unwrap();
    assert_eq!((fmt.format, fmt.width, fmt.height), (PixelFormat::Known(FourCC::YUYV), 640, 480));
    assert!(output_media_type(&fmt).is_ok());
}

#[test]
fn negotiate_fails_when_no_format_can_be_set() {
    let candidates = vec![media(0x1234, 1920, 1080), media(0x5678, 640, 480)];
    assert!(matches!(negotiate_format(&candidates, &empty_config()), Err(CameraError::FormatNotSupported)));
}
