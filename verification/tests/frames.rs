use movenet::frame::{
    convert_and_push, convert_write_bmp, save_bmp, yuyv_to_rgb, BMP_HEADER_LEN, SNAPSHOT_HEIGHT,
    SNAPSHOT_WIDTH,
};

#[test]
fn pixel_is_red_from_v_green_from_y_blue_from_u() {
    let mut out = vec![9u8];
    convert_and_push(10, 20, 30, &mut out);
    assert_eq!(out, vec![9, 30, 10, 20]);
}

#[test]
fn four_bytes_give_two_pixels_that_share_chroma() {
    let rgb = yuyv_to_rgb(&[1, 2, 3, 4, 5, 6, 7, 8]);
    assert_eq!(rgb, vec![4, 1, 2, 4, 3, 2, 8, 5, 6, 8, 7, 6]);
}

#[test]
fn bytes_after_the_last_group_are_left_out() {
    assert_eq!(yuyv_to_rgb(&[1, 2, 3, 4, 5, 6, 7]), vec![4, 1, 2, 4, 3, 2]);
    assert_eq!(yuyv_to_rgb(&[1, 2, 3]), Vec::<u8>::new());
    assert_eq!(yuyv_to_rgb(&[]), Vec::<u8>::new());
}

#[test]
fn bitmap_of_two_by_two_pixels() {
    let buffer = [
        1u8, 2, 3, 4, 5, 6, // top row: pixel 0, pixel 1
        7, 8, 9, 10, 11, 12, // bottom row: pixel 2, pixel 3
    ];
    let file = save_bmp(&buffer, 2, 2).unwrap();
    let mut want = vec![b'B', b'M', 66, 0, 0, 0, 0, 0, 0, 0, 54, 0, 0, 0];
    want.extend_from_slice(&[40, 0, 0, 0, 2, 0, 0, 0, 2, 0, 0, 0, 1, 0, 24, 0]);
    want.extend_from_slice(&[0; 24]);
    want.extend_from_slice(&[9, 8, 7, 12, 11, 10, 0, 0]);
    want.extend_from_slice(&[3, 2, 1, 6, 5, 4, 0, 0]);
    assert_eq!(file, want);
    assert_eq!(file.len(), BMP_HEADER_LEN + 2 * 8);
}

#[test]
fn rows_are_padded_to_four_bytes() {
    for (w, pad) in [(1usize, 1usize), (2, 2), (3, 3), (4, 0), (5, 1)] {
        let buffer = vec![7u8; 3 * w];
        let file = save_bmp(&buffer, w, 1).unwrap();
        assert_eq!(file.len(), 54 + 3 * w + pad);
        assert!(file[54 + 3 * w..].iter().all(|b| *b == 0));
    }
}

#[test]
fn missing_pixels_are_black() {
    let file = save_bmp(&[1, 2, 3, 4, 5], 2, 1).unwrap();
    assert_eq!(&file[54..], &[3, 2, 1, 0, 0, 0, 0, 0]);
    let file = save_bmp(&[], 1, 2).unwrap();
    assert_eq!(&file[54..], &[0, 0, 0, 0, 0, 0, 0, 0]);
}

#[test]
fn empty_picture_is_a_header_alone() {
    let file = save_bmp(&[1, 2, 3], 0, 0).unwrap();
    assert_eq!(file.len(), 54);
    assert_eq!(&file[2..6], &[54, 0, 0, 0]);
    let file = save_bmp(&[], 0, 5).unwrap();
    assert_eq!(file.len(), 54);
}

#[test]
fn pictures_too_large_for_a_length_have_no_file() {
    assert!(save_bmp(&[], usize::MAX, 2).is_none());
    assert!(save_bmp(&[], usize::MAX / 3, 1).is_none());
}

#[test]
fn snapshot_has_the_fixed_size() {
    let frame = vec![0x80u8; 16];
    let file = convert_write_bmp(&frame);
    assert_eq!(file.len(), 54 + 3 * SNAPSHOT_WIDTH * SNAPSHOT_HEIGHT);
    assert_eq!(&file[18..22], &(1280u32).to_le_bytes());
    assert_eq!(&file[22..26], &(720u32).to_le_bytes());
    assert_eq!(&file[2..6], &((54 + 3 * 1280 * 720) as u32).to_le_bytes());
    let last_row = 54 + 3 * 1280 * 719;
    assert_eq!(&file[last_row..last_row + 6], &[0x80; 6]);
    assert_eq!(&file[last_row + 24..last_row + 27], &[0, 0, 0]);
}
