use rustcv_backend_msmf::camera::{hw_timestamp_ns, CameraError, FourCC, FrameMetadata, PixelFormat};
use rustcv_backend_msmf::device::NegotiatedFormat;
use rustcv_backend_msmf::stream::{next_read_step, MsmfStream, ReadOutcome, ReadStep, SAMPLE_READ_ATTEMPTS};

fn fmt() -> NegotiatedFormat {
    NegotiatedFormat { width: 640, height: 480, format: PixelFormat::Known(FourCC::YUYV), fps: 30 }
}

#[test]
fn new_stream_is_stopped_at_sequence_zero() {
    let s = MsmfStream::new(&fmt(), 4).unwrap();
    assert_eq!((s.width, s.height, s.format), (640, 480, PixelFormat::Known(FourCC::YUYV)));
    assert!(!s.is_streaming);
    assert_eq!(s.sequence, 0);
}

#[test]
fn frames_need_a_started_stream() {
    let mut s = MsmfStream::new(&fmt(), 4).unwrap();
    match s.check_started() {
        Err(CameraError::Io(msg)) => assert_eq!(msg, "Stream not started"),
        other => panic!("unexpected {:?}", other),
    }
    s.start();
    assert!(s.check_started().is_ok());
    s.stop();
    assert!(s.check_started().is_err());
}

#[test]
fn stop_undoes_start() {
    let before = MsmfStream::new(&fmt(), 4).unwrap();
    let mut s = before;
    s.start();
    assert!(s.is_streaming);
    s.stop();
    assert_eq!(s, before);
}

#[test]
fn read_steps_follow_the_outcome() {
    assert!(matches!(next_read_step(1, ReadOutcome::Sample), ReadStep::Deliver));
    assert!(matches!(next_read_step(1, ReadOutcome::NoSample), ReadStep::Retry));
    assert!(matches!(next_read_step(9, ReadOutcome::NoSample), ReadStep::Retry));
    match next_read_step(3, ReadOutcome::Failed("device lost".to_string())) {
        ReadStep::Fail(CameraError::Io(msg)) => assert_eq!(msg, "device lost"),
        other => panic!("unexpected {:?}", other),
    }
}

#[test]
fn reads_give_up_after_the_last_attempt() {
    assert_eq!(SAMPLE_READ_ATTEMPTS, 10);
    match next_read_step(SAMPLE_READ_ATTEMPTS, ReadOutcome::NoSample) {
        ReadStep::GiveUp(CameraError::Io(msg)) => assert_eq!(msg, "No sample received"),
        other => panic!("unexpected {:?}", other),
    }
    assert!(matches!(next_read_step(SAMPLE_READ_ATTEMPTS, ReadOutcome::Sample), ReadStep::Deliver));
}

#[test]
fn frames_are_numbered_and_timed() {
    let mut s = MsmfStream::new(&fmt(), 4).unwrap();
    s.start();
    let f1 = s.finish_frame(5, 16);
    assert_eq!(f1.sequence, 1);
    assert_eq!(f1.hw_raw_ns, 500);
    assert_eq!(f1.stride, 1280);
    assert_eq!((f1.width, f1.height, f1.format), (640, 480, PixelFormat::Known(FourCC::YUYV)));
    let f2 = s.finish_frame(1_000_000, 12);
    assert_eq!(f2.sequence, 2);
    assert_eq!(f2.hw_raw_ns, 100_000_000);
    assert_eq!(f2.stride, 960);
    assert_eq!(s.sequence, 2);
}

#[test]
fn timestamps_count_hundreds_of_nanoseconds() {
    assert_eq!(hw_timestamp_ns(0), 0);
    assert_eq!(hw_timestamp_ns(333_667), 33_366_700);
    assert_eq!(hw_timestamp_ns((u64::MAX / 100) as i64), (u64::MAX / 100) * 100);
}

#[test]
fn frames_carry_no_metadata() {
    let mut s = MsmfStream::new(&fmt(), 4).unwrap();
    s.start();
    let f = s.finish_frame(1, 16);
    assert_eq!(f.metadata, FrameMetadata { actual_exposure_us: None, trigger_fired: false, strobe_active: false });
    assert_eq!(f.metadata, FrameMetadata::default());
}

#[test]
fn numbering_survives_stops_and_refusals() {
    let mut s = MsmfStream::new(&fmt(), 4).unwrap();
    assert!(s.check_started().is_err());
    assert_eq!(s.sequence, 0);
    s.start();
    assert_eq!(s.finish_frame(10, 16).sequence, 1);
    s.stop();
    assert!(s.check_started().is_err());
    assert_eq!(s.sequence, 1);
    s.start();
    assert_eq!(s.finish_frame(20, 16).sequence, 2);
    assert_eq!(s.finish_frame(30, 16).sequence, 3);
}
