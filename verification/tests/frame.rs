//! Unit tests for status translation and frame extraction.

use gxci::frame::{
    alloc_image_buffer, extract_frame_callback_data, extract_image_data, FrameMeta,
};
use gxci::status::{check_gx_status, ErrorKind};

fn meta(status: i32, width: i32, height: i32, img_size: i32) -> FrameMeta {
    FrameMeta {
        status,
        width,
        height,
        pixel_format: 0x01080001,
        img_size,
        frame_id: 9,
        timestamp: 1234,
    }
}

#[test]
fn status_zero_is_success() {
    assert_eq!(check_gx_status(0), Ok(()));
}

#[test]
fn nonzero_status_is_driver_error_verbatim() {
    assert_eq!(check_gx_status(1), Err(ErrorKind::DriverError(1)));
    assert_eq!(check_gx_status(-201), Err(ErrorKind::DriverError(-201)));
    assert_eq!(
        check_gx_status(i32::MAX),
        Err(ErrorKind::DriverError(i32::MAX))
    );
}

#[test]
fn extract_copies_exactly_the_image() {
    let raw = vec![10u8, 20, 30, 40, 50, 60, 70];
    let data = extract_image_data(&meta(0, 3, 2, 6), &raw).unwrap();
    assert_eq!(data, vec![10, 20, 30, 40, 50, 60]);
}

#[test]
fn extract_rejects_bad_frame_status() {
    let raw = vec![1u8; 6];
    assert!(extract_image_data(&meta(-1, 3, 2, 6), &raw).is_none());
}

#[test]
fn extract_rejects_inconsistent_geometry() {
    let raw = vec![1u8; 12];
    // Declared size disagrees with width * height.
    assert!(extract_image_data(&meta(0, 3, 2, 7), &raw).is_none());
    // Negative dimensions are never trusted.
    assert!(extract_image_data(&meta(0, -3, 2, 6), &raw).is_none());
    assert!(extract_image_data(&meta(0, 3, -2, 6), &raw).is_none());
}

#[test]
fn extract_rejects_overflowing_geometry() {
    // The true product of the largest dimensions cannot fit the declared
    // size field, so no declared size can make such a record consistent.
    let raw = vec![1u8; 16];
    assert!(extract_image_data(&meta(0, i32::MAX, i32::MAX, i32::MAX), &raw).is_none());
    assert!(extract_image_data(&meta(0, i32::MAX, 2, i32::MAX), &raw).is_none());
}

#[test]
fn extract_rejects_short_buffer() {
    let raw = vec![1u8; 5];
    assert!(extract_image_data(&meta(0, 3, 2, 6), &raw).is_none());
}

#[test]
fn extract_empty_image() {
    let data = extract_image_data(&meta(0, 0, 0, 0), &[]).unwrap();
    assert!(data.is_empty());
}

#[test]
fn callback_copy_keeps_metadata_and_bytes() {
    let raw = vec![5u8, 6, 7, 8, 9];
    let m = meta(0, 2, 2, 4);
    let f = extract_frame_callback_data(&m, &raw).unwrap();
    assert_eq!(f.frame_callback_data, m);
    assert_eq!(f.image_buffer, vec![5, 6, 7, 8]);
}

#[test]
fn callback_copy_rejects_bad_frame() {
    let raw = vec![5u8; 4];
    assert!(extract_frame_callback_data(&meta(3, 2, 2, 4), &raw).is_none());
}

#[test]
fn alloc_image_buffer_is_zeroed() {
    let buf = alloc_image_buffer(1024);
    assert_eq!(buf.len(), 1024);
    assert!(buf.iter().all(|b| *b == 0));
    assert!(alloc_image_buffer(0).is_empty());
}
