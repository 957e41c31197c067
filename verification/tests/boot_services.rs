use uefi_model::boot_services::{
    CheckEventAction, Handle, MemoryDescriptor, State, EVT_NOTIFY_WAIT, HANDLE_SIZE, LOADER_CODE,
    MEMORY_DESCRIPTOR_SIZE, NATIVE_INTERFACE,
};
use uefi_model::guid::{Guid, DEVICE_PATH, LOADED_IMAGE, RNG, SIMPLE_TEXT_INPUT, SIMPLE_TEXT_OUTPUT};
use uefi_model::status::{Status, BUFFER_TOO_SMALL, INVALID_PARAMETER, NOT_FOUND, SUCCESS, UNSUPPORTED};

#[test]
fn install_on_new_handles_numbers_them_from_one() {
    let mut s = State::new();
    let h1 = s.install_protocol_simple(None, &Guid(SIMPLE_TEXT_OUTPUT), 0x100).unwrap();
    let h2 = s.install_protocol_simple(None, &Guid(SIMPLE_TEXT_INPUT), 0x200).unwrap();
    assert_eq!(h1, Handle(1));
    assert_eq!(h2, Handle(2));
}

#[test]
fn install_twice_on_one_handle_is_invalid() {
    let mut s = State::new();
    let h = s.install_protocol_simple(None, &Guid(RNG), 0x100).unwrap();
    assert_eq!(s.install_protocol_simple(Some(h), &Guid(RNG), 0x200), Err(Status(INVALID_PARAMETER)));
    assert_eq!(s.install_protocol_simple(Some(h), &Guid(DEVICE_PATH), 0x300), Ok(h));
    assert_eq!(s.install_protocol_simple(Some(Handle(9)), &Guid(DEVICE_PATH), 0x300), Err(Status(INVALID_PARAMETER)));
}

#[test]
fn non_native_interface_is_invalid() {
    let mut s = State::new();
    let mut handle = None;
    let status = s.install_protocol_interface(&mut handle, &Guid(RNG), NATIVE_INTERFACE + 1, 0x100);
    assert_eq!(status, Status(INVALID_PARAMETER));
    assert_eq!(handle, None);
    let status = s.install_protocol_interface(&mut handle, &Guid(RNG), NATIVE_INTERFACE, 0x100);
    assert_eq!(status, Status(SUCCESS));
    assert_eq!(handle, Some(Handle(1)));
}

#[test]
fn open_then_close_protocol() {
    let mut s = State::new();
    let h = s.install_protocol_simple(None, &Guid(LOADED_IMAGE), 0xabc0).unwrap();
    let mut iface = 0usize;
    assert_eq!(s.open_protocol(h, &Guid(LOADED_IMAGE), &mut iface, h, Handle(0), 0), Status(SUCCESS));
    assert_eq!(iface, 0xabc0);
    assert_eq!(s.close_protocol(h, &Guid(LOADED_IMAGE), h, Handle(0)), Status(SUCCESS));
    // It can be opened again once closed.
    assert_eq!(s.open_protocol(h, &Guid(LOADED_IMAGE), &mut iface, h, Handle(0), 0), Status(SUCCESS));
}

#[test]
fn open_errors() {
    let mut s = State::new();
    let h = s.install_protocol_simple(None, &Guid(LOADED_IMAGE), 0xabc0).unwrap();
    let mut iface = 7usize;
    assert_eq!(s.open_protocol(Handle(5), &Guid(RNG), &mut iface, h, Handle(0), 0), Status(INVALID_PARAMETER));
    assert_eq!(s.open_protocol(h, &Guid(RNG), &mut iface, h, Handle(0), 0), Status(UNSUPPORTED));
    assert_eq!(iface, 7);
    assert_eq!(s.close_protocol(h, &Guid(RNG), h, Handle(0)), Status(NOT_FOUND));
    assert_eq!(s.close_protocol(Handle(0), &Guid(RNG), h, Handle(0)), Status(INVALID_PARAMETER));
}

#[test]
fn locate_handle_by_protocol() {
    let mut s = State::new();
    s.install_protocol_simple(None, &Guid(RNG), 1).unwrap();
    s.install_protocol_simple(None, &Guid(DEVICE_PATH), 2).unwrap();
    s.install_protocol_simple(None, &Guid(RNG), 3).unwrap();

    let mut size = 0usize;
    let mut buf = Vec::new();
    assert_eq!(s.locate_handle(2, Some(Guid(RNG)), &mut size, &mut buf), Status(BUFFER_TOO_SMALL));
    assert_eq!(size, 2 * HANDLE_SIZE);
    assert!(buf.is_empty());
    assert_eq!(s.locate_handle(2, Some(Guid(RNG)), &mut size, &mut buf), Status(SUCCESS));
    assert_eq!(buf, vec![Handle(1), Handle(3)]);

    let mut n = 0usize;
    assert_eq!(s.locate_handle_buffer(0, None, &mut n, &mut buf), Status(SUCCESS));
    assert_eq!(n, 3);
    assert_eq!(buf, vec![Handle(1), Handle(2), Handle(3)]);
}

#[test]
fn locate_protocol_finds_the_first() {
    let mut s = State::new();
    let mut iface = 0usize;
    assert_eq!(s.locate_protocol(&Guid(RNG), &mut iface), Status(NOT_FOUND));
    s.install_protocol_simple(None, &Guid(DEVICE_PATH), 1).unwrap();
    s.install_protocol_simple(None, &Guid(RNG), 2).unwrap();
    s.install_protocol_simple(None, &Guid(RNG), 3).unwrap();
    assert_eq!(s.locate_protocol(&Guid(RNG), &mut iface), Status(SUCCESS));
    assert_eq!(iface, 2);
}

#[test]
fn locate_device_path_needs_both_protocols() {
    let mut s = State::new();
    let mut h = Handle(0);
    s.install_protocol_simple(None, &Guid(RNG), 1).unwrap();
    let h2 = s.install_protocol_simple(None, &Guid(DEVICE_PATH), 2).unwrap();
    assert_eq!(s.locate_device_path(&Guid(RNG), &mut h), Status(NOT_FOUND));
    assert_eq!(h, Handle(0));
    s.install_protocol_simple(Some(h2), &Guid(RNG), 3).unwrap();
    assert_eq!(s.locate_device_path(&Guid(RNG), &mut h), Status(SUCCESS));
    assert_eq!(h, h2);
}

#[test]
fn protocols_per_handle_lists_guids_in_order() {
    let mut s = State::new();
    let h = s.install_protocol_simple(None, &Guid(RNG), 1).unwrap();
    s.install_protocol_simple(Some(h), &Guid(DEVICE_PATH), 2).unwrap();
    let mut guids = Vec::new();
    let mut count = 0usize;
    assert_eq!(s.protocols_per_handle(h, &mut guids, &mut count), Status(SUCCESS));
    assert_eq!(guids, vec![Guid(RNG), Guid(DEVICE_PATH)]);
    assert_eq!(count, 2);
    assert_eq!(s.protocols_per_handle(Handle(4), &mut guids, &mut count), Status(INVALID_PARAMETER));
}

#[test]
fn memory_map_has_one_page_of_loader_code() {
    let s = State::new();
    let mut size = 0usize;
    let mut map = Vec::new();
    let mut desc_size = 0usize;
    assert_eq!(s.get_memory_map(&mut size, &mut map, &mut desc_size), Status(BUFFER_TOO_SMALL));
    assert_eq!(size, MEMORY_DESCRIPTOR_SIZE);
    assert_eq!(desc_size, MEMORY_DESCRIPTOR_SIZE);
    assert_eq!(s.get_memory_map(&mut size, &mut map, &mut desc_size), Status(SUCCESS));
    assert_eq!(
        map,
        vec![MemoryDescriptor { ty: LOADER_CODE, phys_start: 0, virt_start: 0, page_count: 1, att: 0 }]
    );
}

#[test]
fn events_and_check_event() {
    let mut s = State::new();
    let mut e1 = 0usize;
    let mut e2 = 0usize;
    assert_eq!(s.create_event(EVT_NOTIFY_WAIT, 8, true, 0x55, &mut e1), Status(SUCCESS));
    assert_eq!(s.create_event(EVT_NOTIFY_WAIT, 8, false, 0, &mut e2), Status(SUCCESS));
    assert_eq!((e1, e2), (1, 2));
    assert_eq!(s.check_event(e1), (Status(SUCCESS), CheckEventAction::Notify { ctx: 0x55 }));
    assert_eq!(s.check_event(e2), (Status(SUCCESS), CheckEventAction::Nothing));
}

#[test]
fn configuration_table_install() {
    let mut s = State::new();
    assert_eq!(s.install_configuration_table(&Guid(RNG), 0x9000), Status(SUCCESS));
}
