use remotebridge::pixels::{bgra_to_rgba, buffer_fits, pack_bgra};

/// Two rows of two pixels, each followed by three bytes of padding.
const PADDED: [u8; 22] = [
    1, 2, 3, 4, 5, 6, 7, 8, 0xaa, 0xaa, 0xaa, //
    11, 12, 13, 14, 15, 16, 17, 18, 0xbb, 0xbb, 0xbb,
];

#[test]
fn pack_drops_the_padding() {
    assert!(buffer_fits(PADDED.len(), 2, 2, 11));
    let frame = pack_bgra(&PADDED, 2, 2, 11);
    assert_eq!((frame.width, frame.height), (2, 2));
    assert_eq!(
        frame.bgra,
        vec![1, 2, 3, 4, 5, 6, 7, 8, 11, 12, 13, 14, 15, 16, 17, 18]
    );
}

#[test]
fn rgba_swaps_red_and_blue() {
    let frame = bgra_to_rgba(&PADDED, 2, 2, 11);
    assert_eq!((frame.width, frame.height), (2, 2));
    assert_eq!(
        frame.rgba,
        vec![3, 2, 1, 4, 7, 6, 5, 8, 13, 12, 11, 14, 17, 16, 15, 18]
    );
}

#[test]
fn swapping_the_channels_of_one_form_gives_the_other() {
    let bgra = pack_bgra(&PADDED, 2, 2, 11).bgra;
    let rgba = bgra_to_rgba(&PADDED, 2, 2, 11).rgba;
    assert_eq!(bgra_to_rgba(&bgra, 2, 2, 8).rgba, rgba);
    assert_eq!(bgra_to_rgba(&rgba, 2, 2, 8).rgba, bgra);
}

#[test]
fn padding_has_no_influence() {
    let mut other = PADDED;
    for at in [8, 9, 10, 19, 20, 21] {
        other[at] = 0;
    }
    assert_eq!(pack_bgra(&PADDED, 2, 2, 11).bgra, pack_bgra(&other, 2, 2, 11).bgra);
    let tight = pack_bgra(&PADDED, 2, 2, 11).bgra;
    let mut longer = tight.clone();
    longer.extend([7, 7, 7]);
    assert_eq!(pack_bgra(&longer, 2, 2, 8).bgra, tight);
}

#[test]
fn last_row_needs_no_padding() {
    let src = &PADDED[..19];
    assert!(buffer_fits(src.len(), 2, 2, 11));
    assert_eq!(pack_bgra(src, 2, 2, 11).bgra.len(), 16);
}

#[test]
fn rows_beyond_the_height_are_left_out() {
    assert_eq!(pack_bgra(&PADDED, 2, 1, 11).bgra, vec![1, 2, 3, 4, 5, 6, 7, 8]);
    assert_eq!(pack_bgra(&PADDED, 2, 0, 11).bgra, Vec::<u8>::new());
}

#[test]
fn short_buffer_gives_fewer_rows_but_keeps_the_size() {
    assert!(buffer_fits(PADDED.len(), 2, 5, 11));
    let frame = bgra_to_rgba(&PADDED, 2, 5, 11);
    assert_eq!((frame.width, frame.height), (2, 5));
    assert_eq!(frame.rgba.len(), 16);
}

#[test]
fn empty_buffer_and_empty_picture() {
    assert!(buffer_fits(0, 2, 2, 8));
    assert_eq!(pack_bgra(&[], 2, 2, 8).bgra, Vec::<u8>::new());
    assert!(buffer_fits(5, 0, 2, 3));
    assert_eq!(pack_bgra(&[1, 2, 3, 4, 5], 0, 2, 3).bgra, Vec::<u8>::new());
}

#[test]
fn buffers_that_do_not_fit_are_told() {
    assert!(!buffer_fits(8, 2, 2, 0));
    assert!(!buffer_fits(16, 2, 2, 7));
    assert!(!buffer_fits(18, 2, 2, 11));
    assert!(!buffer_fits(0, usize::MAX, 2, 8));
    assert!(!buffer_fits(0, usize::MAX / 8 + 1, 1, 8));
    assert!(buffer_fits(18, 2, 1, 11));
}

#[test]
fn sizes_keep_their_low_32_bits() {
    let wide = pack_bgra(&[], 0x1_0000_0003, 0, 8);
    assert_eq!((wide.width, wide.height), (3, 0));
    let tall = bgra_to_rgba(&[], 0, 0x1_0000_0003, 8);
    assert_eq!((tall.width, tall.height), (0, 3));
}
