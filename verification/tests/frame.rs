use winit_softbuffer_bar::frame::{can_copy, copy_frame, frame_stride, FrameError};
use winit_softbuffer_bar::geometry::PhysicalSize;

fn image(words: &[u32], width: usize, padding: usize) -> Vec<u8> {
    let mut bytes: Vec<u8> = Vec::new();
    for row in words.chunks(width) {
        for word in row {
            bytes.extend_from_slice(&word.to_ne_bytes());
        }
        for _ in 0..padding {
            bytes.push(0xee);
        }
    }
    bytes
}

#[test]
fn unpadded_image_is_copied_word_for_word() {
    let words: [u32; 6] = [0x01020304, 0xff000000, 7, 0x80000001, 0xdeadbeef, 0x00ff00ff];
    let data = image(&words, 3, 0);
    let mut target: Vec<u32> = vec![0; 6];
    let size = PhysicalSize { width: 3, height: 2 };
    assert_eq!(copy_frame(&mut target, &data, size, 12), Ok(()));
    assert_eq!(target, words.to_vec());
}

#[test]
fn padding_between_rows_is_skipped() {
    let words: [u32; 6] = [1, 2, 3, 4, 5, 0x89abcdef];
    let data = image(&words, 2, 4);
    let mut target: Vec<u32> = vec![9; 8];
    let size = PhysicalSize { width: 2, height: 3 };
    assert_eq!(copy_frame(&mut target, &data, size, 12), Ok(()));
    assert_eq!(target, vec![1, 2, 3, 4, 5, 0x89abcdef, 9, 9]);
}

#[test]
fn last_row_needs_no_padding() {
    let words: [u32; 4] = [10, 20, 30, 40];
    let mut data = image(&words, 2, 8);
    data.truncate(16 + 8);
    let mut target: Vec<u32> = vec![0; 4];
    let size = PhysicalSize { width: 2, height: 2 };
    assert_eq!(copy_frame(&mut target, &data, size, 16), Ok(()));
    assert_eq!(target, vec![10, 20, 30, 40]);
}

#[test]
fn rows_need_not_be_aligned() {
    let words: [u32; 2] = [0x11223344, 0x55667788];
    let data = image(&words, 1, 3);
    let mut target: Vec<u32> = vec![0; 2];
    let size = PhysicalSize { width: 1, height: 2 };
    assert_eq!(copy_frame(&mut target, &data, size, 7), Ok(()));
    assert_eq!(target, vec![0x11223344, 0x55667788]);
}

#[test]
fn pixels_behind_the_window_stay() {
    let data = image(&[5, 6], 2, 0);
    let mut target: Vec<u32> = vec![1, 2, 3, 4];
    let size = PhysicalSize { width: 2, height: 1 };
    assert_eq!(copy_frame(&mut target, &data, size, 8), Ok(()));
    assert_eq!(target, vec![5, 6, 3, 4]);
}

#[test]
fn undersized_frame_is_refused_and_left_alone() {
    let mut target: Vec<u32> = vec![1, 2, 3];
    let size = PhysicalSize { width: 2, height: 2 };
    assert_eq!(copy_frame(&mut target, &[], size, 8), Err(FrameError::Undersized));
    assert_eq!(target, vec![1, 2, 3]);
    assert_eq!(FrameError::Undersized.message(), "softbuffer returned an undersized frame");
}

#[test]
fn stride_must_not_be_negative() {
    assert_eq!(frame_stride(0), Ok(0));
    assert_eq!(frame_stride(7680), Ok(7680));
    assert_eq!(frame_stride(-1), Err(FrameError::NegativeStride));
    assert_eq!(
        FrameError::NegativeStride.message(),
        "out of range integral type conversion attempted"
    );
}

#[test]
fn copy_needs_an_image_that_reaches_the_last_pixel() {
    let size = PhysicalSize { width: 2, height: 3 };
    assert!(can_copy(2 * 12 + 8, 6, size, 12));
    assert!(!can_copy(2 * 12 + 7, 6, size, 12));
    assert!(can_copy(24, 6, size, 8));
    assert!(!can_copy(usize::MAX, 6, size, usize::MAX));
}

#[test]
fn undersized_frame_can_be_refused_without_an_image() {
    let size = PhysicalSize { width: 2, height: 3 };
    assert!(can_copy(0, 5, size, 8));
    assert!(!can_copy(0, 6, size, 8));
}

#[test]
fn empty_window_cannot_be_copied() {
    assert!(!can_copy(100, 100, PhysicalSize { width: 0, height: 3 }, 8));
    assert!(!can_copy(100, 100, PhysicalSize { width: 3, height: 0 }, 8));
}
