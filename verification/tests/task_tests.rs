use rustcv_backend_msmf::camera::{FourCC, FrameMetadata, PixelFormat};
use rustcv_backend_msmf::device::NegotiatedFormat;
use rustcv_backend_msmf::task::{
    copy_prefix, copy_rows, fits_frame_buffer, on_read_sample, source_holds_rows_checked, MsmfHandle,
    MsmfStream, MSMF_HANDLE_INSTANCE,
};

fn fmt(width: u32, height: u32) -> NegotiatedFormat {
    NegotiatedFormat { width, height, format: PixelFormat::Known(FourCC::RGB3), fps: 30 }
}

#[test]
fn handle_is_a_single_value() {
    assert_eq!(MSMF_HANDLE_INSTANCE, MsmfHandle);
}

#[test]
fn new_stream_holds_one_zeroed_frame() {
    let s = MsmfStream::new(&fmt(4, 3), 24);
    assert_eq!(s.line_width_bytes, 12);
    assert_eq!(s.linear_buffer, vec![0u8; 36]);
    assert_eq!(s.sequence, 0);
}

#[test]
fn rows_with_padding_are_packed() {
    let src: Vec<u8> = (0..20).collect();
    let mut dst = vec![0u8; 9];
    copy_rows(&mut dst, &src, 8, 3, 3);
    assert_eq!(dst, vec![0, 1, 2, 8, 9, 10, 16, 17, 18]);
}

#[test]
fn rows_without_padding_are_copied_whole() {
    let src: Vec<u8> = (10..30).collect();
    let mut dst = vec![0u8; 6];
    copy_rows(&mut dst, &src, 3, 3, 2);
    assert_eq!(dst, vec![10, 11, 12, 13, 14, 15]);
}

#[test]
fn last_row_may_end_the_source() {
    let src: Vec<u8> = vec![1, 2, 0, 0, 3, 4];
    let mut dst = vec![9u8; 4];
    copy_rows(&mut dst, &src, 4, 2, 2);
    assert_eq!(dst, vec![1, 2, 3, 4]);
}

#[test]
fn contiguous_copy_stops_at_the_shorter() {
    let mut dst = vec![7u8; 5];
    copy_prefix(&mut dst, &[1, 2, 3]);
    assert_eq!(dst, vec![1, 2, 3, 7, 7]);
    let mut dst = vec![7u8; 2];
    copy_prefix(&mut dst, &[1, 2, 3]);
    assert_eq!(dst, vec![1, 2]);
}

#[test]
fn stream_copies_and_numbers_frames() {
    let mut s = MsmfStream::new(&fmt(2, 2), 8);
    assert_eq!(s.line_width_bytes, 2);
    s.copy_2d_sample(&[1, 2, 0, 3, 4], 3);
    assert_eq!(s.linear_buffer, vec![1, 2, 3, 4]);
    let frame = s.finish_frame(10);
    assert_eq!((frame.sequence, frame.hw_raw_ns, frame.stride), (1, 1000, 2));
    assert_eq!(frame.metadata, FrameMetadata::default());
    s.copy_contiguous_sample(&[9, 9]);
    assert_eq!(s.linear_buffer, vec![9, 9, 3, 4]);
    assert_eq!(s.finish_frame(20).sequence, 2);
}

#[test]
fn callback_does_nothing_when_stopped_or_failed() {
    let a = on_read_sample(false, true, true, true);
    assert!(!a.store_sample && !a.notify && !a.request_next);
    let a = on_read_sample(true, false, true, true);
    assert!(!a.store_sample && !a.notify && !a.request_next);
}

#[test]
fn callback_stores_and_requests_next() {
    let a = on_read_sample(true, true, true, true);
    assert!(a.store_sample && a.notify && a.request_next);
    let a = on_read_sample(true, true, false, true);
    assert!(!a.store_sample && !a.notify && a.request_next);
    let a = on_read_sample(true, true, true, false);
    assert!(a.store_sample && a.notify && !a.request_next);
}

#[test]
fn source_size_check_matches_the_rows() {
    assert!(source_holds_rows_checked(0, 100, 50, 0));
    assert!(source_holds_rows_checked(19, 8, 3, 3));
    assert!(!source_holds_rows_checked(18, 8, 3, 3));
    assert!(source_holds_rows_checked(3, usize::MAX, 3, 1));
    assert!(!source_holds_rows_checked(usize::MAX, usize::MAX, 3, 3));
}

#[test]
fn frame_buffer_size_check() {
    assert!(fits_frame_buffer(&fmt(640, 480), 32));
    assert!(!fits_frame_buffer(&fmt(u32::MAX, 1), 2));
    assert!(fits_frame_buffer(&fmt(u32::MAX, 1), 1));
}
