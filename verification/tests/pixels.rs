use window_bridge::error::ScriptError;
use window_bridge::pixels::{
    byte_order_of_reading, copy_as_pixels, holds_frame, pack_pixel, update_window_buffer,
    view_of_buffer, ByteOrder, PixelView,
};

/// Bytes that start on a 32-bit boundary: the storage of the given words.
fn aligned(words: &[u32]) -> &[u8] {
    bytemuck::cast_slice::<u32, u8>(words)
}

#[test]
fn pack_pixel_little_endian_puts_the_first_byte_lowest() {
    assert_eq!(pack_pixel(0x11, 0x22, 0x33, 0x44, ByteOrder::LittleEndian), 0x4433_2211);
    assert_eq!(pack_pixel(0xFF, 0, 0, 0, ByteOrder::LittleEndian), 0x0000_00FF);
    assert_eq!(pack_pixel(0, 0xFF, 0, 0, ByteOrder::LittleEndian), 0x0000_FF00);
}

#[test]
fn pack_pixel_big_endian_puts_the_first_byte_highest() {
    assert_eq!(pack_pixel(0x11, 0x22, 0x33, 0x44, ByteOrder::BigEndian), 0x1122_3344);
    assert_eq!(pack_pixel(0xFF, 0, 0, 0, ByteOrder::BigEndian), 0xFF00_0000);
    assert_eq!(pack_pixel(0, 0xFF, 0, 0, ByteOrder::BigEndian), 0x00FF_0000);
}

#[test]
fn pack_pixel_covers_the_whole_range() {
    assert_eq!(pack_pixel(0, 0, 0, 0, ByteOrder::LittleEndian), 0);
    assert_eq!(pack_pixel(0xFF, 0xFF, 0xFF, 0xFF, ByteOrder::LittleEndian), u32::MAX);
    assert_eq!(pack_pixel(0xFF, 0xFF, 0xFF, 0xFF, ByteOrder::BigEndian), u32::MAX);
}

#[test]
fn pack_pixel_agrees_with_the_standard_library() {
    let samples: [[u8; 4]; 4] = [[1, 2, 3, 4], [0, 0, 0, 0x80], [0xDE, 0xAD, 0xBE, 0xEF], [9, 0, 0, 0]];
    for b in samples {
        assert_eq!(pack_pixel(b[0], b[1], b[2], b[3], ByteOrder::LittleEndian), u32::from_le_bytes(b));
        assert_eq!(pack_pixel(b[0], b[1], b[2], b[3], ByteOrder::BigEndian), u32::from_be_bytes(b));
    }
}

#[test]
fn copy_as_pixels_reads_groups_of_four() {
    let bytes: [u8; 8] = [0xFF, 0, 0, 0, 0, 0xFF, 0, 0];
    assert_eq!(copy_as_pixels(&bytes, ByteOrder::LittleEndian), vec![0x0000_00FF, 0x0000_FF00]);
    assert_eq!(copy_as_pixels(&bytes, ByteOrder::BigEndian), vec![0xFF00_0000, 0x00FF_0000]);
}

#[test]
fn copy_as_pixels_leaves_a_trailing_part_out() {
    let bytes: [u8; 7] = [1, 0, 0, 0, 2, 0, 0];
    assert_eq!(copy_as_pixels(&bytes, ByteOrder::LittleEndian), vec![1]);
    let short: [u8; 3] = [1, 2, 3];
    assert_eq!(copy_as_pixels(&short, ByteOrder::BigEndian), Vec::<u32>::new());
    assert_eq!(copy_as_pixels(&[], ByteOrder::LittleEndian), Vec::<u32>::new());
}

#[test]
fn holds_frame_compares_with_four_bytes_a_pixel() {
    assert!(holds_frame(8, 2, 1));
    assert!(holds_frame(9, 2, 1));
    assert!(!holds_frame(7, 2, 1));
    assert!(holds_frame(0, 0, 0));
    assert!(holds_frame(0, 0, 7));
    assert!(holds_frame(0, 7, 0));
    assert!(!holds_frame(0, 1, 1));
    assert!(holds_frame(1_000_000, 500, 500));
    assert!(!holds_frame(999_999, 500, 500));
}

#[test]
fn holds_frame_is_false_where_the_size_is_beyond_the_machine() {
    assert!(!holds_frame(usize::MAX, usize::MAX, 2));
    assert!(!holds_frame(usize::MAX, usize::MAX, usize::MAX));
    assert!(!holds_frame(usize::MAX, usize::MAX / 2, 1));
    assert!(!holds_frame(usize::MAX, usize::MAX / 4 + 1, 1));
    assert!(holds_frame(usize::MAX, usize::MAX / 4, 1));
}

#[test]
fn an_aligned_buffer_is_shown_in_place() {
    let words: [u32; 3] = [0x0102_0304, 0xA0B0_C0D0, 7];
    let view = update_window_buffer(aligned(&words), 3, 1).unwrap();
    assert!(view.is_borrowed());
    assert_eq!(view.as_slice(), &words[..]);
}

#[test]
fn a_misaligned_buffer_is_shown_in_a_copy() {
    let words: [u32; 3] = [0x0102_0304, 0xA0B0_C0D0, 7];
    let bytes = aligned(&words);
    let shifted = &bytes[1..9];
    let view = update_window_buffer(shifted, 2, 1).unwrap();
    assert!(!view.is_borrowed());
    let expected = vec![
        u32::from_ne_bytes([shifted[0], shifted[1], shifted[2], shifted[3]]),
        u32::from_ne_bytes([shifted[4], shifted[5], shifted[6], shifted[7]]),
    ];
    assert_eq!(view.as_slice(), &expected[..]);
}

#[test]
fn both_paths_show_the_same_pixels() {
    let words: [u32; 5] = [0, 0x1122_3344, 0x5566_7788, 0x99AA_BBCC, 0];
    let bytes = aligned(&words);
    let mut moved: Vec<u8> = vec![0; 13];
    moved[1..13].copy_from_slice(&bytes[4..16]);
    let in_place = update_window_buffer(&bytes[4..16], 3, 1).unwrap();
    let elsewhere = update_window_buffer(&moved[1..13], 3, 1).unwrap();
    let shifted = update_window_buffer(&moved[0..12], 3, 1).unwrap();
    assert_eq!(in_place.as_slice(), &words[1..4]);
    assert_eq!(elsewhere.as_slice(), &words[1..4]);
    assert_eq!(shifted.as_slice().len(), 3);
    assert!(!(elsewhere.is_borrowed() && shifted.is_borrowed()));
}

#[test]
fn the_view_shows_the_whole_buffer() {
    let words: [u32; 4] = [1, 2, 3, 4];
    let view = update_window_buffer(aligned(&words), 1, 2).unwrap();
    assert!(view.is_borrowed());
    assert_eq!(view.as_slice(), &[1, 2, 3, 4][..]);
    let bytes = aligned(&words);
    let copy = update_window_buffer(&bytes[1..13], 2, 1).unwrap();
    assert!(!copy.is_borrowed());
    assert_eq!(copy.as_slice().len(), 3);
    let expected = vec![
        u32::from_ne_bytes([bytes[1], bytes[2], bytes[3], bytes[4]]),
        u32::from_ne_bytes([bytes[5], bytes[6], bytes[7], bytes[8]]),
        u32::from_ne_bytes([bytes[9], bytes[10], bytes[11], bytes[12]]),
    ];
    assert_eq!(copy.as_slice(), &expected[..]);
}

#[test]
fn a_frame_without_pixels_still_shows_the_buffer() {
    let words: [u32; 2] = [1, 2];
    let view = update_window_buffer(aligned(&words), 0, 5).unwrap();
    assert_eq!(view.as_slice(), &[1, 2][..]);
    let view = update_window_buffer(&[], 0, 0).unwrap();
    assert_eq!(view.as_slice().len(), 0);
    let view = update_window_buffer(&[], 3, 0).unwrap();
    assert_eq!(view.as_slice().len(), 0);
}

#[test]
fn a_short_buffer_is_refused() {
    let bytes: [u8; 8] = [0; 8];
    assert!(matches!(update_window_buffer(&bytes, 3, 1), Err(ScriptError::BufferTooSmall)));
    assert!(matches!(update_window_buffer(&bytes, 1, 3), Err(ScriptError::BufferTooSmall)));
    assert!(matches!(update_window_buffer(&bytes[..7], 2, 1), Err(ScriptError::BufferTooSmall)));
    assert!(matches!(update_window_buffer(&[], 1, 1), Err(ScriptError::BufferTooSmall)));
}

#[test]
fn a_size_beyond_the_machine_is_refused() {
    let bytes: [u8; 8] = [0; 8];
    assert!(matches!(
        update_window_buffer(&bytes, usize::MAX, usize::MAX),
        Err(ScriptError::BufferTooSmall)
    ));
    assert!(matches!(
        update_window_buffer(&bytes, usize::MAX / 4 + 1, 1),
        Err(ScriptError::BufferTooSmall)
    ));
    assert!(matches!(update_window_buffer(&bytes, 1usize << 31, 1usize << 31), Err(ScriptError::BufferTooSmall)));
}

#[test]
fn a_buffer_that_ends_inside_a_pixel_is_refused() {
    let bytes: [u8; 9] = [0; 9];
    assert!(matches!(update_window_buffer(&bytes, 2, 1), Err(ScriptError::PartialPixel)));
    assert!(matches!(update_window_buffer(&bytes, 0, 0), Err(ScriptError::PartialPixel)));
    assert!(matches!(update_window_buffer(&bytes[..5], 1, 1), Err(ScriptError::PartialPixel)));
}

#[test]
fn a_short_buffer_is_named_before_a_partial_pixel() {
    let bytes: [u8; 7] = [0; 7];
    assert!(matches!(update_window_buffer(&bytes, 2, 1), Err(ScriptError::BufferTooSmall)));
}

#[test]
fn the_buffer_is_left_as_it_was() {
    let words: [u32; 2] = [0xDEAD_BEEF, 0x0BAD_F00D];
    let before = words;
    {
        let view = update_window_buffer(aligned(&words), 2, 1).unwrap();
        assert_eq!(view.as_slice().len(), 2);
    }
    assert_eq!(words, before);
    let bytes: Vec<u8> = vec![9, 8, 7, 6, 5, 4, 3, 2, 1];
    let kept = bytes.clone();
    {
        let view = update_window_buffer(&bytes[1..9], 2, 1).unwrap();
        assert_eq!(view.as_slice().len(), 2);
    }
    assert_eq!(bytes, kept);
}

#[test]
fn a_copied_view_owns_its_pixels() {
    let view = {
        let bytes: Vec<u8> = vec![1, 0, 0, 0];
        PixelView::Copied(copy_as_pixels(&bytes, ByteOrder::LittleEndian))
    };
    assert!(!view.is_borrowed());
    assert_eq!(view.as_slice(), &[1][..]);
}

#[test]
fn a_reading_of_one_shows_the_first_byte_lowest() {
    assert_eq!(byte_order_of_reading(1), ByteOrder::LittleEndian);
    assert_eq!(byte_order_of_reading(u32::from_le_bytes([1, 0, 0, 0])), ByteOrder::LittleEndian);
}

#[test]
fn any_other_reading_shows_the_first_byte_highest() {
    assert_eq!(byte_order_of_reading(0x0100_0000), ByteOrder::BigEndian);
    assert_eq!(byte_order_of_reading(u32::from_be_bytes([1, 0, 0, 0])), ByteOrder::BigEndian);
    assert_eq!(byte_order_of_reading(0), ByteOrder::BigEndian);
    assert_eq!(byte_order_of_reading(2), ByteOrder::BigEndian);
    assert_eq!(byte_order_of_reading(u32::MAX), ByteOrder::BigEndian);
}

#[test]
fn the_reading_of_this_machine_gives_the_order_of_its_views() {
    let order = byte_order_of_reading(u32::from_ne_bytes([1, 0, 0, 0]));
    let words: [u32; 3] = [0x0102_0304, 0xA0B0_C0D0, 7];
    let bytes = aligned(&words);
    assert_eq!(copy_as_pixels(bytes, order), words.to_vec());
    let shifted = &bytes[1..9];
    let view = update_window_buffer(shifted, 2, 1).unwrap();
    assert!(!view.is_borrowed());
    assert_eq!(view.as_slice(), &copy_as_pixels(shifted, order)[..]);
}

#[test]
fn a_buffer_read_in_place_is_the_view() {
    let words: [u32; 2] = [0x0102_0304, 7];
    let bytes = aligned(&words);
    for reading in [1, 0x0100_0000, 0] {
        let view = view_of_buffer(bytes, Some(&words[..]), reading);
        assert!(view.is_borrowed());
        assert_eq!(view.as_slice(), &words[..]);
    }
}

#[test]
fn a_buffer_not_read_in_place_is_copied_in_the_order_of_the_reading() {
    let bytes: [u8; 8] = [0xFF, 0, 0, 0, 0, 0xFF, 0, 0];
    let little = view_of_buffer(&bytes, None, 1);
    assert!(!little.is_borrowed());
    assert_eq!(little.as_slice(), &[0x0000_00FF, 0x0000_FF00][..]);
    let big = view_of_buffer(&bytes, None, 0x0100_0000);
    assert!(!big.is_borrowed());
    assert_eq!(big.as_slice(), &[0xFF00_0000, 0x00FF_0000][..]);
    let empty = view_of_buffer(&[], None, 1);
    assert!(!empty.is_borrowed());
    assert_eq!(empty.as_slice().len(), 0);
}
