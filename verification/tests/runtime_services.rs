use uefi_model::guid::Guid;
use uefi_model::runtime_services::State;
use uefi_model::status::{Status, BUFFER_TOO_SMALL, NOT_FOUND, SUCCESS};

fn name(s: &str) -> Vec<u16> {
    s.encode_utf16().collect()
}

#[test]
fn read_after_write() {
    let mut s = State::new();
    let vendor = Guid(0x1234);
    assert_eq!(s.set_variable(&name("Boot"), &vendor, 7, &[1, 2, 3]), Status(SUCCESS));

    let mut attrs = 0u32;
    let mut size = 3usize;
    let mut data = Vec::new();
    assert_eq!(s.get_variable(&name("Boot"), &vendor, &mut attrs, &mut size, &mut data), Status(SUCCESS));
    assert_eq!(attrs, 7);
    assert_eq!(size, 3);
    assert_eq!(data, vec![1, 2, 3]);
}

#[test]
fn read_into_small_buffer_reports_size() {
    let mut s = State::new();
    let vendor = Guid(1);
    s.set_variable(&name("X"), &vendor, 1, &[9, 9, 9, 9]);
    let mut attrs = 0u32;
    let mut size = 2usize;
    let mut data = Vec::new();
    assert_eq!(s.get_variable(&name("X"), &vendor, &mut attrs, &mut size, &mut data), Status(BUFFER_TOO_SMALL));
    assert_eq!(size, 4);
    assert_eq!(attrs, 0);
    assert!(data.is_empty());
}

#[test]
fn missing_and_deleted_variables_are_not_found() {
    let mut s = State::new();
    let vendor = Guid(1);
    let mut attrs = 0u32;
    let mut size = 10usize;
    let mut data = Vec::new();
    assert_eq!(s.get_variable(&name("X"), &vendor, &mut attrs, &mut size, &mut data), Status(NOT_FOUND));
    s.set_variable(&name("X"), &vendor, 1, &[5]);
    assert_eq!(s.set_variable(&name("X"), &vendor, 1, &[]), Status(SUCCESS));
    assert_eq!(s.get_variable(&name("X"), &vendor, &mut attrs, &mut size, &mut data), Status(NOT_FOUND));
    assert_eq!(size, 10);
}

#[test]
fn last_write_wins_and_keys_are_separate() {
    let mut s = State::new();
    let a = Guid(1);
    let b = Guid(2);
    s.set_variable(&name("V"), &a, 1, &[1]);
    s.set_variable(&name("V"), &b, 2, &[2, 2]);
    s.set_variable(&name("V"), &a, 3, &[3, 3, 3]);
    let mut attrs = 0u32;
    let mut size = 8usize;
    let mut data = Vec::new();
    s.get_variable(&name("V"), &a, &mut attrs, &mut size, &mut data);
    assert_eq!((attrs, size, data.clone()), (3, 3, vec![3, 3, 3]));
    size = 8;
    s.get_variable(&name("V"), &b, &mut attrs, &mut size, &mut data);
    assert_eq!((attrs, size, data), (2, 2, vec![2, 2]));
}
