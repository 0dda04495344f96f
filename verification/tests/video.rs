use remotebridge::pixels::{pack_bgra, RawFrame};
use remotebridge::video::{
    bgra_frame, bgra_stride_fits, gradient_frame, gradient_strides_fit, Pixel,
};

fn small_frame() -> RawFrame {
    RawFrame {
        width: 1,
        height: 2,
        bgra: vec![1, 2, 3, 4, 5, 6, 7, 8],
    }
}

#[test]
fn rows_are_laid_out_a_stride_apart() {
    let raw = small_frame();
    assert!(bgra_stride_fits(&raw, 6));
    let frame = bgra_frame(&raw, 6);
    assert_eq!(frame.format, Pixel::BGRA);
    assert_eq!((frame.width, frame.height), (1, 2));
    assert_eq!(frame.pts, None);
    assert_eq!(frame.planes.len(), 1);
    assert_eq!(frame.planes[0].stride, 6);
    assert_eq!(frame.planes[0].data, vec![1, 2, 3, 4, 0, 0, 5, 6, 7, 8, 0, 0]);
}

#[test]
fn layout_can_be_packed_again() {
    let raw = small_frame();
    for stride in [4usize, 5, 64] {
        let frame = bgra_frame(&raw, stride);
        assert_eq!(pack_bgra(&frame.planes[0].data, 1, 2, stride).bgra, raw.bgra);
    }
}

#[test]
fn bytes_behind_the_last_row_are_left_out() {
    let mut raw = small_frame();
    raw.bgra.push(99);
    assert!(bgra_stride_fits(&raw, 4));
    assert_eq!(bgra_frame(&raw, 4).planes[0].data, vec![1, 2, 3, 4, 5, 6, 7, 8]);
}

#[test]
fn strides_that_do_not_fit_are_told() {
    let mut raw = small_frame();
    assert!(!bgra_stride_fits(&raw, 3));
    assert!(!bgra_stride_fits(&raw, usize::MAX));
    raw.bgra.pop();
    assert!(!bgra_stride_fits(&raw, 4));
    assert!(gradient_strides_fit(4, 2, [4, 2, 2]));
    assert!(!gradient_strides_fit(4, 2, [3, 2, 2]));
    assert!(!gradient_strides_fit(4, 2, [4, 1, 2]));
    assert!(!gradient_strides_fit(4, 2, [4, 2, 1]));
    assert!(!gradient_strides_fit(4, 2, [usize::MAX, 2, 2]));
    assert!(gradient_strides_fit(3, 3, [3, 2, 2]));
    assert!(!gradient_strides_fit(3, 3, [3, 1, 2]));
    assert!(!gradient_strides_fit(3, 3, [3, 2, 1]));
}

#[test]
fn gradient_is_a_gray_ramp() {
    let frame = gradient_frame(4, 2, 254, [5, 3, 2]);
    assert_eq!(frame.format, Pixel::YUV420P);
    assert_eq!((frame.width, frame.height), (4, 2));
    assert_eq!(frame.pts, Some(254));
    assert_eq!(frame.planes.len(), 3);
    assert_eq!(frame.planes[0].data, vec![254, 255, 0, 1, 0, 254, 255, 0, 1, 0]);
    assert_eq!((frame.planes[1].stride, frame.planes[2].stride), (3, 2));
    assert_eq!(frame.planes[1].data, vec![128, 128, 0]);
    assert_eq!(frame.planes[2].data, vec![128, 128]);
}

#[test]
fn odd_sizes_are_gray_everywhere() {
    let frame = gradient_frame(3, 3, 0, [3, 2, 3]);
    assert_eq!(frame.planes[0].data, vec![0, 1, 2, 0, 1, 2, 0, 1, 2]);
    assert_eq!(frame.planes[1].data, vec![128, 128, 128, 128]);
    assert_eq!(frame.planes[2].data, vec![128, 128, 0, 128, 128, 0]);
}

#[test]
fn gradient_shifts_by_one_column_per_frame() {
    let now = gradient_frame(300, 1, 41, [300, 150, 150]);
    let next = gradient_frame(300, 1, 42, [300, 150, 150]);
    assert_eq!(next.planes[0].data[..299], now.planes[0].data[1..]);
    let later = gradient_frame(300, 1, 41 + 256, [320, 150, 150]);
    assert_eq!(later.planes[0].data[..300], now.planes[0].data[..]);
    for other in [0, 40, 42, 41 + 255] {
        let frame = gradient_frame(300, 1, other, [300, 150, 150]);
        assert_ne!(frame.planes[0].data, now.planes[0].data);
    }
}

#[test]
fn last_frame_number_is_no_trouble() {
    let frame = gradient_frame(2, 1, u32::MAX, [2, 1, 1]);
    assert_eq!(frame.planes[0].data, vec![255, 0]);
    assert_eq!(frame.pts, Some(4294967295));
}
