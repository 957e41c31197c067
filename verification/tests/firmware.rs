use uefi_model::firmware::{file_get_info, file_read, FileInfo, FILE_INFO, FILE_READ_ONLY, IN_DAYLIGHT};
use uefi_model::status::ABORTED;
use uefi_model::firmware::{file_open, open_volume};
use uefi_model::firmware::serial_read;
use uefi_model::firmware::{pointer_get_state, PointerState};
use uefi_model::firmware::exit_boot_services;
use uefi_model::rng::{Rng, ALGORITHM_RAW};
use uefi_model::status::{BUFFER_TOO_SMALL, NOT_FOUND};
use uefi_model::boot_services::{Handle, State};
use uefi_model::device_path_text::convert_device_path_to_text;
use uefi_model::firmware::{
    install_rng, launch, launch_setup, load_image, LoadedImage, Object, LOADER_DATA, STUB_FIRMWARE_REVISION, STUB_REVISION,
    SYSTEM_TABLE_SIGNATURE,
};
use uefi_model::boot_services::LOADER_CODE;
use uefi_model::guid::{Guid, DEVICE_PATH, LOADED_IMAGE, LOADED_IMAGE_DEVICE_PATH, RNG, SIMPLE_TEXT_OUTPUT};
use uefi_model::status::{Status, SUCCESS};

#[test]
fn launch_prepares_console_and_image() {
    let (mut s, image, st) = launch_setup();
    assert_eq!(image, Handle(5));
    assert_eq!(st.signature, SYSTEM_TABLE_SIGNATURE);
    assert_eq!(st.revision, STUB_REVISION);
    assert_eq!(st.firmware_revision, STUB_FIRMWARE_REVISION);
    assert_eq!(String::from_utf16(&st.firmware_vendor[..st.firmware_vendor.len() - 1]).unwrap(), "uefi_stub");
    assert_eq!((st.stdout_handle, st.stderr_handle, st.stdin_handle), (Handle(1), Handle(2), Handle(3)));
    assert_eq!(st.number_of_configuration_table_entries, 0);

    // The image knows the boot file system's handle as its device.
    match s.object(6) {
        Object::LoadedImage(li) => assert_eq!(li.device_handle, Handle(4)),
        _ => panic!("the image's object"),
    }
    // Its device path reads as the boot disk's file.
    match s.object(7) {
        Object::DevicePath(p) => assert_eq!(
            convert_device_path_to_text(p),
            "PciRoot(0x0)/Pci(0x1F,0x2)/Sata(0x0,0xFFFF,0x0)/HD(1,MBR,0xBE1AFDFA,0x3F,0xFBFC1)/\\efi\\boot\\test_runner.efi"
        ),
        _ => panic!("the image's path"),
    }

    // The console output is open: its interface is the first object.
    let mut iface = 0usize;
    assert_eq!(s.locate_protocol(&Guid(SIMPLE_TEXT_OUTPUT), &mut iface), Status(SUCCESS));
    assert_eq!(iface, 1);
    let mut h = Handle(0);
    assert_eq!(s.locate_device_path(&Guid(LOADED_IMAGE), &mut h), Status(SUCCESS));
    assert_eq!(h, Handle(5));
    let mut guids = Vec::new();
    let mut n = 0usize;
    s.protocols_per_handle(Handle(5), &mut guids, &mut n);
    assert_eq!(guids, vec![Guid(LOADED_IMAGE), Guid(LOADED_IMAGE_DEVICE_PATH), Guid(DEVICE_PATH)]);

    let rng = install_rng(&mut s);
    assert_eq!(rng, Handle(11));
    assert_eq!(s.locate_protocol(&Guid(RNG), &mut iface), Status(SUCCESS));
    assert_eq!(iface, 13);
}

#[test]
fn load_image_on_new_and_given_handles() {
    let mut s = State::new();
    let mut image = Handle(0);
    assert_eq!(load_image(&mut s, 0, Handle(7), None, 0x1000, 0x200, &mut image), Status(SUCCESS));
    assert_eq!(image, Handle(1));
    match s.object(1) {
        Object::LoadedImage(li) => assert_eq!(
            *li,
            LoadedImage {
                revision: 1,
                parent_handle: Handle(7),
                device_handle: Handle(0),
                image_base: 0x1000,
                image_size: 0x200,
                image_code_type: LOADER_CODE,
                image_data_type: LOADER_DATA,
            }
        ),
        _ => panic!("the image's object"),
    }
    // No path: the path protocols have a null interface.
    let mut iface = 9usize;
    s.open_protocol(image, &Guid(DEVICE_PATH), &mut iface, image, Handle(0), 0);
    assert_eq!(iface, 0);

    let other = s.install_protocol_simple(None, &Guid(RNG), 0x44).unwrap();
    let mut given = other;
    assert_eq!(load_image(&mut s, 0, Handle(0), Some(Vec::new()), 0, 0, &mut given), Status(SUCCESS));
    assert_eq!(given, other);
    let mut guids = Vec::new();
    let mut n = 0usize;
    s.protocols_per_handle(other, &mut guids, &mut n);
    assert_eq!(guids, vec![Guid(RNG), Guid(LOADED_IMAGE), Guid(LOADED_IMAGE_DEVICE_PATH), Guid(DEVICE_PATH)]);
}

#[test]
fn serial_reads_canned_replies() {
    let mut size = 3usize;
    let mut buf = vec![0u8; 5];
    assert_eq!(serial_read(&mut size, &mut buf), Status(SUCCESS));
    assert_eq!(size, 3);
    assert_eq!(buf, b"OK\n\0\0".to_vec());
    let mut size = 20usize;
    let mut buf = vec![0u8; 20];
    serial_read(&mut size, &mut buf);
    assert_eq!(size, 12);
    assert_eq!(&buf[..12], b"Hello world!");
}

#[test]
fn pointer_state_is_still() {
    let mut st = PointerState {
        relative_movement_x: 5,
        relative_movement_y: -3,
        relative_movement_z: 1,
        left_button: true,
        right_button: true,
    };
    assert_eq!(pointer_get_state(&mut st), Status(SUCCESS));
    assert_eq!(
        st,
        PointerState {
            relative_movement_x: 0,
            relative_movement_y: 0,
            relative_movement_z: 0,
            left_button: false,
            right_button: false
        }
    );
}

#[test]
fn exit_boot_services_hides_console() {
    let (_s, image, mut st) = launch_setup();
    assert!(st.boot_services);
    assert_eq!(exit_boot_services(&mut st, image, 0), Status(SUCCESS));
    assert_eq!((st.stdin, st.stdout, st.stderr), (0, 0, 0));
    assert!(!st.boot_services);
    assert_eq!(st.stdout_handle, Handle(1));
}

#[test]
fn rng_reports_raw_algorithm_and_fills_ones() {
    let mut rng = Rng;
    let mut list = vec![Guid(0); 4];
    assert_eq!(rng.get_info(&mut list), Ok(1));
    assert_eq!(list[0], Guid(ALGORITHM_RAW));
    let mut buf = [0u8; 4].to_vec();
    rng.get_rng(Some(list[0]), &mut buf).unwrap();
    assert_ne!(vec![0u8; 4], buf);
    assert_eq!(buf, vec![1u8; 4]);

    assert_eq!(Rng::info_result(Status(SUCCESS), 48), Ok(3));
    assert_eq!(Rng::info_result(Status(BUFFER_TOO_SMALL), 32), Err(Some(32)));
    assert_eq!(Rng::info_result(Status(NOT_FOUND), 32), Err(None));
}

#[test]
fn runner_rng_check_passes_on_the_stub() {
    let (mut s, _image, _st) = launch_setup();
    install_rng(&mut s);
    uefi_model::runner::rng::test(&mut s);
    let mut iface = 0usize;
    assert_eq!(s.locate_protocol(&Guid(RNG), &mut iface), Status(SUCCESS));
    // The generator was closed again: it can be opened.
    assert_eq!(s.open_protocol(Handle(11), &Guid(RNG), &mut iface, Handle(11), Handle(0), 0), Status(SUCCESS));
}

#[test]
fn files_open_on_their_file_system() {
    let (mut s, _image, _st) = launch_setup();
    let mut root = 0usize;
    assert_eq!(open_volume(&mut s, 5, &mut root), Status(SUCCESS));
    assert_eq!(root, 13);
    let mut file = 0usize;
    let name: Vec<u16> = "test_dir".encode_utf16().collect();
    assert_eq!(file_open(&mut s, root, &mut file, &name, 1, 0), Status(SUCCESS));
    assert_eq!(file, 14);
    match s.object(file) {
        Object::File { fs } => assert_eq!(*fs, 5),
        _ => panic!("an open file"),
    }
}

#[test]
fn launch_calls_the_entry_once() {
    let calls = std::cell::Cell::new(0);
    let r = launch(|s: State, image: Handle, st: uefi_model::firmware::SystemTable| {
        calls.set(calls.get() + 1);
        assert_eq!(image, Handle(5));
        assert_eq!(st.signature, SYSTEM_TABLE_SIGNATURE);
        assert!(st.boot_services);
        assert_ne!(st.stdout_handle, st.stderr_handle);
        assert!(matches!(s.object(st.stdin), Object::TextInput));
        Status(ABORTED)
    });
    assert_eq!(r, Status(ABORTED));
    assert_eq!(calls.get(), 1);
}

#[test]
fn file_info_of_the_stub() {
    let mut size = 10usize;
    let mut info: Option<FileInfo> = None;
    assert_eq!(
        file_get_info(1, &Guid(FILE_INFO), &mut size, &mut info),
        Status(uefi_model::status::BUFFER_TOO_SMALL)
    );
    assert_eq!(size, 96);
    assert!(info.is_none());
    assert_eq!(file_get_info(1, &Guid(FILE_INFO), &mut size, &mut info), Status(SUCCESS));
    let i = info.unwrap();
    assert_eq!((i.size, i.file_size, i.physical_size, i.attribute), (96, 123, 456, FILE_READ_ONLY));
    assert_eq!(i.create_time.year, 1970);
    assert_eq!(i.create_time.daylight, IN_DAYLIGHT);
    assert_eq!(String::from_utf16(&i.file_name).unwrap(), "TODO");

    let mut size = 200usize;
    let mut entry: Option<FileInfo> = None;
    assert_eq!(file_read(1, &mut size, &mut entry), Status(SUCCESS));
    assert_eq!(size, 104);
    assert_eq!(String::from_utf16(&entry.unwrap().file_name).unwrap(), "test_dir");
}
