use uefi_model::align::{is_aligned, Align, FixedAlignment, PageAlignment};

#[test]
fn test_alignment() {
    type X = FixedAlignment<4>;

    assert_eq!(X::offset_up_to_alignment(0), 0);
    assert_eq!(X::offset_up_to_alignment(1), 3);
    assert_eq!(X::offset_up_to_alignment(2), 2);
    assert_eq!(X::offset_up_to_alignment(3), 1);
    assert_eq!(X::offset_up_to_alignment(4), 0);
    assert_eq!(X::offset_up_to_alignment(5), 3);
    assert_eq!(X::offset_up_to_alignment(6), 2);
    assert_eq!(X::offset_up_to_alignment(7), 1);
    assert_eq!(X::offset_up_to_alignment(8), 0);

    assert_eq!(X::round_up_to_alignment(0), 0);
    assert_eq!(X::round_up_to_alignment(1), 4);
    assert_eq!(X::round_up_to_alignment(2), 4);
    assert_eq!(X::round_up_to_alignment(3), 4);
    assert_eq!(X::round_up_to_alignment(4), 4);
    assert_eq!(X::round_up_to_alignment(5), 8);
    assert_eq!(X::round_up_to_alignment(6), 8);
    assert_eq!(X::round_up_to_alignment(7), 8);
    assert_eq!(X::round_up_to_alignment(8), 8);

    // Get an intentionally misaligned buffer.
    let buffer = [0u8; 16];
    let mut buffer = &buffer[..];
    if (buffer.as_ptr() as usize) % X::alignment() == 0 {
        buffer = &buffer[1..];
    }

    let buffer = X::align_buf(buffer).unwrap();
    assert_eq!((buffer.as_ptr() as usize) % X::alignment(), 0);
}

#[test]
fn page_alignment_rounds_to_pages() {
    assert_eq!(PageAlignment::alignment(), 4096);
    assert_eq!(PageAlignment::round_up_to_alignment(1), 4096);
    assert_eq!(PageAlignment::round_up_to_alignment(4096), 4096);
    assert_eq!(PageAlignment::round_up_to_alignment(4097), 8192);
    assert_eq!(PageAlignment::offset_up_to_alignment(4095), 1);
}

#[test]
fn byte_slices_are_always_aligned() {
    let data = [1u8, 2, 3];
    assert_eq!(<[u8] as Align>::alignment(), 1);
    assert_eq!(<[u8] as Align>::align_buf(&data[1..]), Some(&data[1..]));
    assert_eq!(<[u8] as Align>::round_up_to_alignment(7), 7);
}

#[test]
fn align_buf_too_short_is_none() {
    type Y = FixedAlignment<8>;
    let buffer = [0u8; 16];
    let mut start = 0;
    while (buffer[start..].as_ptr() as usize) % 8 != 1 {
        start += 1;
    }
    // Seven bytes are needed to reach alignment, and only six are there.
    assert_eq!(Y::align_buf(&buffer[start..start + 6]), None);
    assert_eq!(Y::align_buf(&buffer[start..start + 8]).map(|b| b.len()), Some(1));
    // Seven bytes: the aligned position is just past the end, so no element is aligned.
    assert_eq!(Y::align_buf(&buffer[start..start + 7]), None);
    assert_eq!(Y::align_buf_at(&buffer[0..8], 1), Some(&buffer[7..8]));
    assert_eq!(Y::align_buf_at(&buffer[0..7], 1), None);
    assert_eq!(Y::align_buf_at(&buffer[0..3], 16), Some(&buffer[0..3]));
    assert!(is_aligned(24, 8));
    assert!(!is_aligned(25, 8));
}
