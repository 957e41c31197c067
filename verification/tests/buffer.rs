use uefi_model::buffer::{AlignedByteVec, ArrayBuffer, Buffer, Fill, SliceBuffer, WriteResult};
use uefi_model::align::PageAlignment;
use uefi_model::status::{Status, BUFFER_TOO_SMALL, SUCCESS, UNSUPPORTED};
use std::mem::MaybeUninit;

fn write_n<B: Buffer<u32>>(n: usize, buf: &mut B) -> WriteResult {
    buf.write_with_auto_resize(|avail: usize| {
        let required_size_in_bytes = n * std::mem::size_of::<u32>();
        if avail < required_size_in_bytes {
            return Fill { status: Status(BUFFER_TOO_SMALL), size_in_bytes: required_size_in_bytes, data: Vec::new() };
        }
        let mut data = Vec::new();
        for i in 0..n {
            data.push(i as u32);
        }
        Fill { status: Status(SUCCESS), size_in_bytes: required_size_in_bytes, data }
    })
}

struct CappedAt3(bool);

fn check_buffer<B: Buffer<u32>>(buf: &mut B, capped_at_3: CappedAt3) {
    // If the function passed to `write` returns any error other than
    // `BUFFER_TOO_SMALL`, that error is propagated.
    let r = buf.write(|_avail: usize| Fill { status: Status(UNSUPPORTED), size_in_bytes: 0, data: Vec::new() });
    assert_eq!(r.err().unwrap().status(), Status(UNSUPPORTED));
    assert!(buf.as_slice().is_empty());

    // Two elements, even in a fixed-size buffer with room for more.
    write_n(2, buf).unwrap();
    assert_eq!(buf.as_slice(), &[0, 1]);

    write_n(3, buf).unwrap();
    assert_eq!(buf.as_slice(), &[0, 1, 2]);

    assert_eq!(format!("{:?}", buf.as_slice()), "[0, 1, 2]");

    let r = write_n(4, buf);
    if capped_at_3.0 {
        let e = r.err().unwrap();
        assert_eq!(e.status(), Status(BUFFER_TOO_SMALL));
        assert_eq!(e.data(), Some(16));
    } else {
        r.unwrap();
        assert_eq!(buf.as_slice(), &[0, 1, 2, 3]);
    }
}

#[test]
fn test_slice_buffer() {
    let slice = &mut [0u32, 0, 0];
    let mut buf = SliceBuffer::new(slice);
    check_buffer(&mut buf, CappedAt3(true));
}

#[test]
fn test_slice_buffer_maybe_uninit() {
    let slice: &mut [MaybeUninit<u32>] = &mut [MaybeUninit::uninit(), MaybeUninit::uninit(), MaybeUninit::uninit()];
    let mut buf = SliceBuffer::from_maybe_uninit(slice);
    check_buffer(&mut buf, CappedAt3(true));
}

#[test]
fn test_array_buffer() {
    let mut buf = ArrayBuffer::<u32, 3>::new();
    check_buffer(&mut buf, CappedAt3(true));
}

#[test]
fn test_vec_buffer() {
    let mut buf: Vec<u32> = Vec::new();
    check_buffer(&mut buf, CappedAt3(false));
}

#[test]
fn buffer_too_small_reports_needed_elements() {
    let mut buf = ArrayBuffer::<u32, 2>::new();
    let r = write_n(5, &mut buf);
    let e = r.err().unwrap();
    assert_eq!(e.status(), Status(BUFFER_TOO_SMALL));
    assert_eq!(e.data(), Some(20));
    assert!(buf.as_slice().is_empty());
}

#[test]
fn failed_write_keeps_contents() {
    let mut buf = ArrayBuffer::<u32, 3>::new();
    write_n(2, &mut buf).unwrap();
    let r = write_n(4, &mut buf);
    assert!(r.is_err());
    assert_eq!(&*buf, &[0, 1]);
}

#[test]
fn slice_buffer_offers_its_size_in_bytes() {
    let slice = &mut [0u32; 3];
    let mut buf = SliceBuffer::new(slice);
    let mut offered = 0;
    let r = buf.write(|avail: usize| {
        offered = avail;
        Fill { status: Status(SUCCESS), size_in_bytes: 4, data: vec![7u32] }
    });
    assert!(r.is_ok());
    assert_eq!(offered, 12);
    assert_eq!(&*buf, &[7]);
}

#[test]
fn vec_grows_with_padding() {
    let mut buf: Vec<u32> = Vec::new();
    let r = buf.write_with_padded_auto_resize(
        |avail: usize| {
            if avail < 8 {
                Fill { status: Status(BUFFER_TOO_SMALL), size_in_bytes: 8, data: Vec::new() }
            } else {
                Fill { status: Status(SUCCESS), size_in_bytes: 8, data: vec![3u32, 4] }
            }
        },
        2,
    );
    assert!(r.is_ok());
    assert_eq!(buf, vec![3, 4]);
    assert!(buf.capacity() >= 4);
}

#[test]
fn aligned_byte_vec_starts_empty() {
    let _v: AlignedByteVec<PageAlignment> = AlignedByteVec::new();
}
