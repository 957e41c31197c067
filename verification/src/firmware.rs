//! The stub firmware's protocols and its start-up: what each protocol's
//! interface holds, how the protocols are installed, how an image is
//! loaded, and the sequence that prepares the handles and the system table
//! before the test runner's entry point is called.

use crate::boot_services::{Handle, ProtocolWrapper, State, LOADER_CODE, NATIVE_INTERFACE};
use crate::console::{make_output, OutputData};
use crate::device_path_text::DeviceNode;
use crate::guid::{
    Guid, DEVICE_PATH, DEVICE_PATH_FROM_TEXT, DEVICE_PATH_TO_TEXT, GRAPHICS_OUTPUT, LOADED_IMAGE,
    LOADED_IMAGE_DEVICE_PATH, RNG, SERIAL_IO, SIMPLE_FILE_SYSTEM, SIMPLE_POINTER, SIMPLE_TEXT_INPUT,
    SIMPLE_TEXT_OUTPUT,
};
use crate::status::{Status, SUCCESS};
use vstd::prelude::*;

verus! {

/// Memory type of loader data.
pub const LOADER_DATA: u32 = 2;

/// What a loaded image's protocol tells about it.
#[derive(Clone, Copy, Debug, PartialEq, Eq, Structural)]
pub struct LoadedImage {
    /// The revision of the protocol.
    pub revision: u32,
    /// The image that loaded this one, or `Handle(0)` for none.
    pub parent_handle: Handle,
    /// The device the image was loaded from, or `Handle(0)` if not known.
    pub device_handle: Handle,
    /// Where the image lies in memory.
    pub image_base: usize,
    /// The size of the image in bytes.
    pub image_size: u64,
    /// The memory type of the image's code.
    pub image_code_type: u32,
    /// The memory type of the image's data.
    pub image_data_type: u32,
}

/// The settings of a serial device.
#[derive(Clone, Copy, Debug, PartialEq, Eq, Structural)]
pub struct SerialIoMode {
    pub control_mask: u32,
    pub timeout: u32,
    pub baud_rate: u64,
    pub receive_fifo_depth: u32,
    pub data_bits: u32,
    pub parity: u32,
    pub stop_bits: u32,
}

/// What a graphics mode is.
#[derive(Clone, Copy, Debug, PartialEq, Eq, Structural)]
pub struct GraphicsModeInformation {
    pub version: u32,
    pub horizontal_resolution: u32,
    pub vertical_resolution: u32,
    /// The pixel format; 0 is 8-bit red, green, blue and reserved bytes.
    pub pixel_format: u32,
    pub pixels_per_scan_line: u32,
}

/// The state of a graphics output device.
#[derive(Clone, Copy, Debug, PartialEq, Eq, Structural)]
pub struct GraphicsOutputMode {
    pub max_mode: u32,
    pub mode: u32,
    pub info: GraphicsModeInformation,
    /// The size in bytes of the mode information in the firmware's layout.
    pub size_of_info: usize,
    pub frame_buffer_base: u64,
    pub frame_buffer_size: usize,
}

/// What a pointer device can report.
#[derive(Clone, Copy, Debug, PartialEq, Eq, Structural)]
pub struct PointerMode {
    pub resolution_x: u64,
    pub resolution_y: u64,
    pub resolution_z: u64,
    pub left_button: bool,
    pub right_button: bool,
}

/// What a protocol interface holds.
#[derive(Debug)]
pub enum Object {
    /// A text output device.
    TextOutput(OutputData),
    /// A text input device.
    TextInput,
    /// A device path, by its nodes.
    DevicePath(Vec<DeviceNode>),
    /// A simple file system.
    FileSystem,
    /// An open file of the file system whose interface is `fs`.
    File { fs: usize },
    /// A loaded image.
    LoadedImage(LoadedImage),
    /// The conversion of device paths to text.
    DevicePathToText,
    /// The conversion of text to device paths.
    DevicePathFromText,
    /// A serial device, with its revision and settings.
    Serial { revision: u32, io_mode: SerialIoMode },
    /// A graphics output device.
    GraphicsOutput(GraphicsOutputMode),
    /// A pointer device and the event it signals on input.
    Pointer { mode: PointerMode, wait_for_input: usize },
    /// A random number generator.
    Rng,
}

/// A well-formed state with room for `k` more handles, objects and events
/// in the address space.
pub open spec fn has_room(s: State, k: int) -> bool {
    &&& s.wf()
    &&& (s.db().len() + k) * crate::boot_services::HANDLE_SIZE <= usize::MAX
    &&& s.objects().len() + k <= usize::MAX
    &&& s.events().len() + k <= usize::MAX
}

/// Installs a new handle with one protocol whose interface is a newly stored
/// object.
fn install_object(s: &mut State, guid: u128, o: Object) -> (h: Handle)
    requires
        has_room(*old(s), 1),
    ensures
        h == Handle((old(s).db().len() + 1) as usize),
        final(s).db() == old(s).db().push(
            seq![
                ProtocolWrapper {
                    guid: Guid(guid),
                    interface: (old(s).objects().len() + 1) as usize,
                    in_use: false,
                },
            ],
        ),
        final(s).objects() == old(s).objects().push(o),
        final(s).events() == old(s).events(),
        final(s).memory_map() == old(s).memory_map(),
        final(s).configuration() == old(s).configuration(),
        final(s).wf(),
{
    let id = s.store_object(o);
    match s.install_protocol_simple(None, &Guid(guid), id) {
        Ok(h) => h,
        Err(_) => {
            assert(false);
            Handle(0)
        },
    }
}

/// Installs a text output device on a new handle: one mode, the cursor at
/// the top left and hidden.
pub fn install_output_protocol(s: &mut State) -> (h: Handle)
    requires
        has_room(*old(s), 1),
    ensures
        h == Handle((old(s).db().len() + 1) as usize),
        final(s).db() == old(s).db().push(
            seq![
                ProtocolWrapper {
                    guid: Guid(SIMPLE_TEXT_OUTPUT),
                    interface: (old(s).objects().len() + 1) as usize,
                    in_use: false,
                },
            ],
        ),
        final(s).objects() == old(s).objects().push(Object::TextOutput(make_output_data())),
        final(s).events() == old(s).events(),
        final(s).memory_map() == old(s).memory_map(),
        final(s).configuration() == old(s).configuration(),
        final(s).wf(),
{
    install_object(s, SIMPLE_TEXT_OUTPUT, Object::TextOutput(make_output().data))
}

/// The state of a new text output device.
pub open spec fn make_output_data() -> OutputData {
    OutputData {
        max_mode: 1,
        mode: 0,
        attribute: 0,
        cursor_column: 0,
        cursor_row: 0,
        cursor_visible: false,
    }
}

/// The settings of a new serial device: all zero.
pub open spec fn default_io_mode() -> SerialIoMode {
    SerialIoMode {
        control_mask: 0,
        timeout: 0,
        baud_rate: 0,
        receive_fifo_depth: 0,
        data_bits: 0,
        parity: 0,
        stop_bits: 0,
    }
}

/// The graphics output device of the stub: one mode of 1024 by 768 pixels
/// of four bytes each (a frame buffer of 3145728 bytes).
pub open spec fn gop_mode() -> GraphicsOutputMode {
    GraphicsOutputMode {
        max_mode: 1,
        mode: 0,
        info: GraphicsModeInformation {
            version: 1,
            horizontal_resolution: 1024,
            vertical_resolution: 768,
            pixel_format: 0,
            pixels_per_scan_line: 0,
        },
        size_of_info: 36,
        frame_buffer_base: 0,
        frame_buffer_size: 3145728,
    }
}

/// The pointer device of the stub: 1024 counts per millimetre on both axes
/// and two buttons.
pub open spec fn pointer_mode() -> PointerMode {
    PointerMode {
        resolution_x: 1024,
        resolution_y: 1024,
        resolution_z: 0,
        left_button: true,
        right_button: true,
    }
}

/// Installs a text input device on a new handle.
pub fn install_input_protocol(s: &mut State) -> (h: Handle)
    requires
        has_room(*old(s), 1),
    ensures
        h == Handle((old(s).db().len() + 1) as usize),
        final(s).db() == old(s).db().push(
            seq![
                ProtocolWrapper {
                    guid: Guid(SIMPLE_TEXT_INPUT),
                    interface: (old(s).objects().len() + 1) as usize,
                    in_use: false,
                },
            ],
        ),
        final(s).objects() == old(s).objects().push(Object::TextInput),
        final(s).events() == old(s).events(),
        final(s).memory_map() == old(s).memory_map(),
        final(s).configuration() == old(s).configuration(),
        final(s).wf(),
{
    install_object(s, SIMPLE_TEXT_INPUT, Object::TextInput)
}

/// Installs a serial device on a new handle: revision 1, settings all zero.
pub fn install_serial_protocol(s: &mut State) -> (h: Handle)
    requires
        has_room(*old(s), 1),
    ensures
        h == Handle((old(s).db().len() + 1) as usize),
        final(s).db() == old(s).db().push(
            seq![
                ProtocolWrapper {
                    guid: Guid(SERIAL_IO),
                    interface: (old(s).objects().len() + 1) as usize,
                    in_use: false,
                },
            ],
        ),
        final(s).objects() == old(s).objects().push(
            Object::Serial { revision: 1, io_mode: default_io_mode() },
        ),
        final(s).events() == old(s).events(),
        final(s).memory_map() == old(s).memory_map(),
        final(s).configuration() == old(s).configuration(),
        final(s).wf(),
{
    let io_mode = SerialIoMode {
        control_mask: 0,
        timeout: 0,
        baud_rate: 0,
        receive_fifo_depth: 0,
        data_bits: 0,
        parity: 0,
        stop_bits: 0,
    };
    install_object(s, SERIAL_IO, Object::Serial { revision: 1, io_mode })
}

/// Installs the graphics output device on a new handle.
pub fn install_gop_protocol(s: &mut State) -> (h: Handle)
    requires
        has_room(*old(s), 1),
    ensures
        h == Handle((old(s).db().len() + 1) as usize),
        final(s).db() == old(s).db().push(
            seq![
                ProtocolWrapper {
                    guid: Guid(GRAPHICS_OUTPUT),
                    interface: (old(s).objects().len() + 1) as usize,
                    in_use: false,
                },
            ],
        ),
        final(s).objects() == old(s).objects().push(Object::GraphicsOutput(gop_mode())),
        final(s).events() == old(s).events(),
        final(s).memory_map() == old(s).memory_map(),
        final(s).configuration() == old(s).configuration(),
        final(s).wf(),
{
    let mode = GraphicsOutputMode {
        max_mode: 1,
        mode: 0,
        info: GraphicsModeInformation {
            version: 1,
            horizontal_resolution: 1024,
            vertical_resolution: 768,
            pixel_format: 0,
            pixels_per_scan_line: 0,
        },
        size_of_info: 36,
        frame_buffer_base: 0,
        frame_buffer_size: 1024 * 768 * 4,
    };
    install_object(s, GRAPHICS_OUTPUT, Object::GraphicsOutput(mode))
}

/// The event type that signals its notification function.
pub const EVT_NOTIFY_SIGNAL: u32 = 0x0000_0200;

/// The task priority level of callbacks.
pub const TPL_CALLBACK: usize = 8;

/// Installs the pointer device on a new handle, with a new event for its
/// input.
pub fn install_pointer_protocol(s: &mut State) -> (h: Handle)
    requires
        has_room(*old(s), 2),
    ensures
        h == Handle((old(s).db().len() + 1) as usize),
        final(s).db() == old(s).db().push(
            seq![
                ProtocolWrapper {
                    guid: Guid(SIMPLE_POINTER),
                    interface: (old(s).objects().len() + 1) as usize,
                    in_use: false,
                },
            ],
        ),
        final(s).objects() == old(s).objects().push(
            Object::Pointer {
                mode: pointer_mode(),
                wait_for_input: (old(s).events().len() + 1) as usize,
            },
        ),
        final(s).events() == old(s).events().push(
            crate::boot_services::EventImpl { ty: EVT_NOTIFY_SIGNAL, has_notify: false, notify_ctx: 0 },
        ),
        final(s).memory_map() == old(s).memory_map(),
        final(s).configuration() == old(s).configuration(),
        final(s).wf(),
{
    let mut event: usize = 0;
    s.create_event(EVT_NOTIFY_SIGNAL, TPL_CALLBACK, false, 0, &mut event);
    let mode = PointerMode {
        resolution_x: 1024,
        resolution_y: 1024,
        resolution_z: 0,
        left_button: true,
        right_button: true,
    };
    install_object(s, SIMPLE_POINTER, Object::Pointer { mode, wait_for_input: event })
}

/// Installs the random number generator on a new handle.
pub fn install_rng(s: &mut State) -> (h: Handle)
    requires
        has_room(*old(s), 1),
    ensures
        h == Handle((old(s).db().len() + 1) as usize),
        final(s).db() == old(s).db().push(
            seq![
                ProtocolWrapper {
                    guid: Guid(RNG),
                    interface: (old(s).objects().len() + 1) as usize,
                    in_use: false,
                },
            ],
        ),
        final(s).objects() == old(s).objects().push(Object::Rng),
        final(s).events() == old(s).events(),
        final(s).memory_map() == old(s).memory_map(),
        final(s).configuration() == old(s).configuration(),
        final(s).wf(),
{
    install_object(s, RNG, Object::Rng)
}

/// Installs the device path conversions: to text on one new handle, from
/// text on another.
pub fn install_device_path_text(s: &mut State)
    requires
        has_room(*old(s), 2),
    ensures
        final(s).db() == old(s).db().push(
            seq![
                ProtocolWrapper {
                    guid: Guid(DEVICE_PATH_TO_TEXT),
                    interface: (old(s).objects().len() + 1) as usize,
                    in_use: false,
                },
            ],
        ).push(
            seq![
                ProtocolWrapper {
                    guid: Guid(DEVICE_PATH_FROM_TEXT),
                    interface: (old(s).objects().len() + 2) as usize,
                    in_use: false,
                },
            ],
        ),
        final(s).objects() == old(s).objects().push(Object::DevicePathToText).push(
            Object::DevicePathFromText,
        ),
        final(s).events() == old(s).events(),
        final(s).memory_map() == old(s).memory_map(),
        final(s).configuration() == old(s).configuration(),
        final(s).wf(),
{
    install_object(s, DEVICE_PATH_TO_TEXT, Object::DevicePathToText);
    install_object(s, DEVICE_PATH_FROM_TEXT, Object::DevicePathFromText);
}

/// Installs a simple file system on `handle`, which must not have one yet.
pub fn install_simple_file_system(s: &mut State, handle: Handle) -> (status: Status)
    requires
        has_room(*old(s), 1),
        old(s).valid_handle(handle),
        !crate::boot_services::holds_protocol(old(s).protocols(handle), Guid(SIMPLE_FILE_SYSTEM)),
    ensures
        status.0 == SUCCESS,
        final(s).db() == old(s).db().update(
            handle.0 - 1,
            old(s).protocols(handle).push(
                ProtocolWrapper {
                    guid: Guid(SIMPLE_FILE_SYSTEM),
                    interface: (old(s).objects().len() + 1) as usize,
                    in_use: false,
                },
            ),
        ),
        final(s).objects() == old(s).objects().push(Object::FileSystem),
        final(s).events() == old(s).events(),
        final(s).memory_map() == old(s).memory_map(),
        final(s).configuration() == old(s).configuration(),
        final(s).wf(),
{
    let id = s.store_object(Object::FileSystem);
    match s.install_protocol_simple(Some(handle), &Guid(SIMPLE_FILE_SYSTEM), id) {
        Ok(_) => Status(SUCCESS),
        Err(e) => {
            assert(false);
            e
        },
    }
}

/// The protocols of a loaded image: the loaded image itself, then its
/// device path as the loaded image's path and as the handle's path (an
/// interface of 0, null, where the image has no path).
pub open spec fn image_protocols(image: usize, path: usize) -> Seq<ProtocolWrapper> {
    seq![
        ProtocolWrapper { guid: Guid(LOADED_IMAGE), interface: image, in_use: false },
        ProtocolWrapper { guid: Guid(LOADED_IMAGE_DEVICE_PATH), interface: path, in_use: false },
        ProtocolWrapper { guid: Guid(DEVICE_PATH), interface: path, in_use: false },
    ]
}

/// The database after installing an image's protocols on `handle`, or on a
/// new handle when `handle` is `Handle(0)` (null).
pub open spec fn with_image_protocols(
    db: Seq<Seq<ProtocolWrapper>>,
    handle: Handle,
    image: usize,
    path: usize,
) -> Seq<Seq<ProtocolWrapper>> {
    if handle == Handle(0) {
        db.push(image_protocols(image, path))
    } else {
        db.update(handle.0 - 1, db[handle.0 - 1] + image_protocols(image, path))
    }
}

/// Loads an image: records what the loaded image protocol tells about it
/// (revision 1, the parent, where it lies, loader code and data), stores its
/// device path if it has one, and installs the loaded image, its device path
/// and its path as a device path on `*image_handle`, or on a new handle
/// stored there when it is null (`Handle(0)`). A handle that is given must
/// exist and have none of these protocols yet.
pub fn load_image(
    s: &mut State,
    boot_policy: u8,
    parent_image_handle: Handle,
    device_path: Option<Vec<DeviceNode>>,
    source_base: usize,
    source_size: usize,
    image_handle: &mut Handle,
) -> (status: Status)
    requires
        has_room(*old(s), 2),
        *old(image_handle) != Handle(0) ==> {
            &&& old(s).valid_handle(*old(image_handle))
            &&& !crate::boot_services::holds_protocol(old(s).protocols(*old(image_handle)), Guid(LOADED_IMAGE))
            &&& !crate::boot_services::holds_protocol(
                old(s).protocols(*old(image_handle)),
                Guid(LOADED_IMAGE_DEVICE_PATH),
            )
            &&& !crate::boot_services::holds_protocol(old(s).protocols(*old(image_handle)), Guid(DEVICE_PATH))
        },
    ensures
        status.0 == SUCCESS,
        *final(image_handle) == if *old(image_handle) == Handle(0) {
            Handle((old(s).db().len() + 1) as usize)
        } else {
            *old(image_handle)
        },
        ({
            let image = LoadedImage {
                revision: 1,
                parent_handle: parent_image_handle,
                device_handle: Handle(0),
                image_base: source_base,
                image_size: source_size as u64,
                image_code_type: LOADER_CODE,
                image_data_type: LOADER_DATA,
            };
            let n = old(s).objects().len();
            match device_path {
                Some(p) => {
                    &&& final(s).objects() == old(s).objects().push(Object::LoadedImage(image)).push(
                        Object::DevicePath(p),
                    )
                    &&& final(s).db() == with_image_protocols(
                        old(s).db(),
                        *old(image_handle),
                        (n + 1) as usize,
                        (n + 2) as usize,
                    )
                },
                None => {
                    &&& final(s).objects() == old(s).objects().push(Object::LoadedImage(image))
                    &&& final(s).db() == with_image_protocols(
                        old(s).db(),
                        *old(image_handle),
                        (n + 1) as usize,
                        0,
                    )
                },
            }
        }),
        final(s).events() == old(s).events(),
        final(s).memory_map() == old(s).memory_map(),
        final(s).configuration() == old(s).configuration(),
        final(s).wf(),
{
    let image = LoadedImage {
        revision: 1,
        parent_handle: parent_image_handle,
        device_handle: Handle(0),
        image_base: source_base,
        image_size: source_size as u64,
        image_code_type: LOADER_CODE,
        image_data_type: LOADER_DATA,
    };
    let image_id = s.store_object(Object::LoadedImage(image));
    let path_id = match device_path {
        Some(p) => s.store_object(Object::DevicePath(p)),
        None => 0,
    };
    let ghost db0 = s.db();
    let ghost given = *image_handle;
    let mut handle: Option<Handle> = if image_handle.0 == 0 {
        None
    } else {
        Some(*image_handle)
    };
    s.install_protocol_interface(&mut handle, &Guid(LOADED_IMAGE), NATIVE_INTERFACE, image_id);
    let h = match handle {
        Some(h) => h,
        None => {
            assert(false);
            Handle(0)
        },
    };
    let ghost p0 = ProtocolWrapper { guid: Guid(LOADED_IMAGE), interface: image_id, in_use: false };
    let ghost p1 = ProtocolWrapper { guid: Guid(LOADED_IMAGE_DEVICE_PATH), interface: path_id, in_use: false };
    let ghost p2 = ProtocolWrapper { guid: Guid(DEVICE_PATH), interface: path_id, in_use: false };
    let ghost before: Seq<ProtocolWrapper> = if given == Handle(0) {
        Seq::empty()
    } else {
        db0[given.0 - 1]
    };
    assert(s.protocols(h) =~= before.push(p0));
    assert(!crate::boot_services::holds_protocol(before.push(p0), Guid(LOADED_IMAGE_DEVICE_PATH))) by {
        if crate::boot_services::holds_protocol(before.push(p0), Guid(LOADED_IMAGE_DEVICE_PATH)) {
            let i = choose|i: int| 0 <= i < before.push(p0).len() && before.push(p0)[i].guid == Guid(LOADED_IMAGE_DEVICE_PATH);
            if i < before.len() {
                assert(before[i].guid == Guid(LOADED_IMAGE_DEVICE_PATH));
            }
        }
    }
    let mut handle2 = Some(h);
    s.install_protocol_interface(
        &mut handle2,
        &Guid(LOADED_IMAGE_DEVICE_PATH),
        NATIVE_INTERFACE,
        path_id,
    );
    assert(s.protocols(h) =~= before.push(p0).push(p1));
    assert(!crate::boot_services::holds_protocol(before.push(p0).push(p1), Guid(DEVICE_PATH))) by {
        if crate::boot_services::holds_protocol(before.push(p0).push(p1), Guid(DEVICE_PATH)) {
            let i = choose|i: int| 0 <= i < before.push(p0).push(p1).len() && before.push(p0).push(p1)[i].guid == Guid(DEVICE_PATH);
            if i < before.len() {
                assert(before[i].guid == Guid(DEVICE_PATH));
            }
        }
    }
    let mut handle3 = Some(h);
    s.install_protocol_interface(&mut handle3, &Guid(DEVICE_PATH), NATIVE_INTERFACE, path_id);
    assert(before.push(p0).push(p1).push(p2) =~= before + image_protocols(image_id, path_id));
    assert(s.db() =~= with_image_protocols(db0, given, image_id, path_id));
    *image_handle = h;
    Status(SUCCESS)
}


/// The system table that the firmware hands to an image.
#[derive(Debug)]
pub struct SystemTable {
    /// The table's signature.
    pub signature: u64,
    /// The UEFI revision: major version in the high 16 bits, minor in the
    /// low.
    pub revision: u32,
    /// The firmware vendor, in null-terminated UCS-2.
    pub firmware_vendor: Vec<u16>,
    /// The firmware's revision.
    pub firmware_revision: u32,
    /// The console input's handle and interface.
    pub stdin_handle: Handle,
    pub stdin: usize,
    /// The console output's handle and interface.
    pub stdout_handle: Handle,
    pub stdout: usize,
    /// The standard error's handle and interface.
    pub stderr_handle: Handle,
    pub stderr: usize,
    /// The number of configuration table entries.
    pub number_of_configuration_table_entries: usize,
    /// Whether the boot services are reachable from the table.
    pub boot_services: bool,
}

/// The stub's signature for its system table.
pub const SYSTEM_TABLE_SIGNATURE: u64 = 0x1234_5678;

/// The UEFI revision the stub reports, 2.90.
pub const STUB_REVISION: u32 = 0x0002_005a;

/// The stub's firmware revision.
pub const STUB_FIRMWARE_REVISION: u32 = 0x1516_1718;

/// The partition signature of the test runner's boot disk.
pub const BOOT_DISK_SIGNATURE: u32 = 0xbe1a_fdfa;

/// Whether `p` is the device path the test runner is loaded from: the PCI
/// root, the SATA controller at PCI device 0x1f function 2, its first port,
/// the first MBR partition (from sector 0x3f, 0xfbfc1 sectors), and the
/// runner's file.
pub open spec fn is_boot_image_path(p: Seq<DeviceNode>) -> bool {
    &&& p.len() == 5
    &&& p[0] == DeviceNode::AcpiAcpi { hid: crate::device_path_text::PCI_ROOT_HID, uid: 0 }
    &&& p[1] == DeviceNode::HardwarePci { device: 0x1f, function: 0x02 }
    &&& p[2] == DeviceNode::MessagingSata {
        hba_port_number: 0,
        port_multiplier_port_number: 0xffff,
        logical_unit_number: 0,
    }
    &&& p[3] matches DeviceNode::MediaHardDrive {
        partition_number,
        partition_start,
        partition_size,
        partition_signature,
        partition_format,
    } && partition_number == 1 && partition_start == 0x3f && partition_size == 0xfbfc1
        && partition_format == crate::device_path_text::PARTITION_FORMAT_MBR
        && partition_signature_is_boot_disk(partition_signature)
    &&& p[4] matches DeviceNode::MediaFilePath { path_name } && path_name@
        == "\\efi\\boot\\test_runner.efi"@
}

/// Whether a signature is the boot disk's MBR signature, in little-endian
/// bytes.
pub open spec fn partition_signature_is_boot_disk(sig: crate::device_path_text::PartitionSignature) -> bool {
    sig matches crate::device_path_text::PartitionSignature::Mbr(b) && b@ == seq![0xfau8, 0xfdu8, 0x1au8, 0xbeu8]
}

/// The device path the test runner is loaded from.
fn boot_image_path() -> (p: Vec<DeviceNode>)
    ensures
        is_boot_image_path(p@),
{
    let mut p = Vec::new();
    p.push(DeviceNode::AcpiAcpi { hid: crate::device_path_text::PCI_ROOT_HID, uid: 0 });
    p.push(DeviceNode::HardwarePci { device: 0x1f, function: 0x02 });
    p.push(
        DeviceNode::MessagingSata {
            hba_port_number: 0,
            port_multiplier_port_number: 0xffff,
            logical_unit_number: 0,
        },
    );
    p.push(
        DeviceNode::MediaHardDrive {
            partition_number: 1,
            partition_start: 0x3f,
            partition_size: 0xfbfc1,
            partition_signature: crate::device_path_text::PartitionSignature::Mbr(
                [0xfa, 0xfd, 0x1a, 0xbe],
            ),
            partition_format: crate::device_path_text::PARTITION_FORMAT_MBR,
        },
    );
    p.push(DeviceNode::MediaFilePath { path_name: crate::text::string_of("\\efi\\boot\\test_runner.efi") });
    assert([0xfau8, 0xfdu8, 0x1au8, 0xbeu8]@ =~= seq![0xfau8, 0xfdu8, 0x1au8, 0xbeu8]);
    p
}

/// The protocols of each handle after start-up, by handle: standard output
/// and standard error (open), standard input (open), the boot file system's
/// device path and file system, the test runner's image, the device path
/// conversions, the serial device, the graphics output and the pointer.
pub open spec fn launch_db() -> Seq<Seq<ProtocolWrapper>> {
    seq![
        seq![ProtocolWrapper { guid: Guid(SIMPLE_TEXT_OUTPUT), interface: 1, in_use: true }],
        seq![ProtocolWrapper { guid: Guid(SIMPLE_TEXT_OUTPUT), interface: 2, in_use: true }],
        seq![ProtocolWrapper { guid: Guid(SIMPLE_TEXT_INPUT), interface: 3, in_use: true }],
        seq![
            ProtocolWrapper { guid: Guid(DEVICE_PATH), interface: 4, in_use: false },
            ProtocolWrapper { guid: Guid(SIMPLE_FILE_SYSTEM), interface: 5, in_use: false },
        ],
        image_protocols(6, 7),
        seq![ProtocolWrapper { guid: Guid(DEVICE_PATH_TO_TEXT), interface: 8, in_use: false }],
        seq![ProtocolWrapper { guid: Guid(DEVICE_PATH_FROM_TEXT), interface: 9, in_use: false }],
        seq![ProtocolWrapper { guid: Guid(SERIAL_IO), interface: 10, in_use: false }],
        seq![ProtocolWrapper { guid: Guid(GRAPHICS_OUTPUT), interface: 11, in_use: false }],
        seq![ProtocolWrapper { guid: Guid(SIMPLE_POINTER), interface: 12, in_use: false }],
    ]
}

/// What the test runner's image tells about itself after start-up: loaded
/// by no parent from nowhere in memory, from the boot file system's handle.
pub open spec fn launch_image() -> LoadedImage {
    LoadedImage {
        revision: 1,
        parent_handle: Handle(0),
        device_handle: Handle(4),
        image_base: 0,
        image_size: 0,
        image_code_type: LOADER_CODE,
        image_data_type: LOADER_DATA,
    }
}

/// Whether a state and system table are what start-up leaves: the handle
/// database, the stored objects and the event of [`launch_db`], and a
/// system table that reaches the console and the boot services.
pub open spec fn launched(st_s: State, table: SystemTable) -> bool {
    &&& st_s.wf()
    &&& st_s.db() == launch_db()
    &&& st_s.objects().len() == 12
    &&& st_s.objects()[0] == Object::TextOutput(make_output_data())
    &&& st_s.objects()[1] == Object::TextOutput(make_output_data())
    &&& st_s.objects()[2] == Object::TextInput
    &&& (st_s.objects()[3] matches Object::DevicePath(p) && p@.len() == 0)
    &&& st_s.objects()[4] == Object::FileSystem
    &&& st_s.objects()[5] == Object::LoadedImage(launch_image())
    &&& (st_s.objects()[6] matches Object::DevicePath(p) && is_boot_image_path(p@))
    &&& st_s.objects()[7] == Object::DevicePathToText
    &&& st_s.objects()[8] == Object::DevicePathFromText
    &&& st_s.objects()[9] == (Object::Serial { revision: 1, io_mode: default_io_mode() })
    &&& st_s.objects()[10] == Object::GraphicsOutput(gop_mode())
    &&& st_s.objects()[11] == (Object::Pointer { mode: pointer_mode(), wait_for_input: 1 })
    &&& st_s.events() == seq![
        (crate::boot_services::EventImpl { ty: EVT_NOTIFY_SIGNAL, has_notify: false, notify_ctx: 0 }),
    ]
    &&& table.signature == SYSTEM_TABLE_SIGNATURE
    &&& table.revision == STUB_REVISION
    &&& table.firmware_vendor@ == seq![0x75u16, 0x65, 0x66, 0x69, 0x5f, 0x73, 0x74, 0x75, 0x62, 0]
    &&& table.firmware_revision == STUB_FIRMWARE_REVISION
    &&& table.stdout_handle == Handle(1) && table.stdout == 1
    &&& table.stderr_handle == Handle(2) && table.stderr == 2
    &&& table.stdin_handle == Handle(3) && table.stdin == 3
    &&& table.number_of_configuration_table_entries == 0
    &&& table.boot_services
}

/// Starts the stub firmware and calls the image's entry point once, with
/// the firmware, the image's handle and the system table; its status is
/// returned.
pub fn launch<E: FnOnce(State, Handle, SystemTable) -> Status>(entry: E) -> (r: Status)
    requires
        forall|s: State, table: SystemTable| #[trigger] launched(s, table) ==> call_requires(
            entry,
            (s, Handle(5), table),
        ),
    ensures
        exists|s: State, table: SystemTable|
            #[trigger] launched(s, table) && call_ensures(entry, (s, Handle(5), table), r),
{
    let (s, image, table) = launch_setup();
    let ghost gs = s;
    let ghost gt = table;
    let r = entry(s, image, table);
    assert(launched(gs, gt));
    r
}

/// Prepares the stub firmware for an image: installs the console, the
/// boot file system, the test runner's image (with the boot file system as
/// its device), the device path conversions, the serial, graphics and
/// pointer devices; opens the console for the image; and makes the system
/// table.
pub fn launch_setup() -> (r: (State, Handle, SystemTable))
    ensures
        launched(r.0, r.2),
        r.1 == Handle(5),
{
    let mut s = State::new();
    proof {
        reveal_strlit("uefi_stub");
    }
    let fw_vendor = crate::device_path_text::str_to_cstring16_pool_alloc("uefi_stub");
    assert(fw_vendor@ =~= seq![0x75u16, 0x65, 0x66, 0x69, 0x5f, 0x73, 0x74, 0x75, 0x62, 0]) by {
        assert("uefi_stub"@ =~= seq!['u', 'e', 'f', 'i', '_', 's', 't', 'u', 'b']);
    }

    let stdout_handle = install_output_protocol(&mut s);
    let stderr_handle = install_output_protocol(&mut s);
    let stdin_handle = install_input_protocol(&mut s);

    let ghost o1 = ProtocolWrapper { guid: Guid(SIMPLE_TEXT_OUTPUT), interface: 1, in_use: false };
    let ghost o2 = ProtocolWrapper { guid: Guid(SIMPLE_TEXT_OUTPUT), interface: 2, in_use: false };
    let ghost i3 = ProtocolWrapper { guid: Guid(SIMPLE_TEXT_INPUT), interface: 3, in_use: false };
    let ghost d4 = ProtocolWrapper { guid: Guid(DEVICE_PATH), interface: 4, in_use: false };
    let ghost f5 = ProtocolWrapper { guid: Guid(SIMPLE_FILE_SYSTEM), interface: 5, in_use: false };
    assert(s.db() =~= seq![seq![o1], seq![o2], seq![i3]]);

    let boot_fs_handle = install_object(&mut s, DEVICE_PATH, Object::DevicePath(Vec::new()));
    assert(s.db() =~= seq![seq![o1], seq![o2], seq![i3], seq![d4]]);
    assert(!crate::boot_services::holds_protocol(seq![d4], Guid(SIMPLE_FILE_SYSTEM))) by {
        assert(seq![d4][0].guid == Guid(DEVICE_PATH));
    }
    assert(s.protocols(boot_fs_handle) == seq![d4]);
    install_simple_file_system(&mut s, boot_fs_handle);
    let ghost closed_consoles = seq![seq![o1], seq![o2], seq![i3], seq![d4, f5]];
    assert(seq![d4].push(f5) =~= seq![d4, f5]);
    assert(s.db() =~= closed_consoles);

    let mut image = Handle(0);
    load_image(&mut s, 1, Handle(0), Some(boot_image_path()), 0, 0, &mut image);
    assert(s.db() =~= closed_consoles.push(image_protocols(6, 7)));

    let mut loaded_image: usize = 0;
    proof {
        assert(s.protocols(image) == image_protocols(6, 7));
        assert(crate::boot_services::holds_protocol(s.protocols(image), Guid(LOADED_IMAGE))) by {
            assert(s.protocols(image)[0].guid == Guid(LOADED_IMAGE));
        }
        assert(crate::boot_services::distinct_guids(s.protocols(image))) by {
            assert(s.db()[4] == s.protocols(image));
        }
        crate::boot_services::lemma_open_close_roundtrip(s.protocols(image), Guid(LOADED_IMAGE));
    }
    s.open_protocol(image, &Guid(LOADED_IMAGE), &mut loaded_image, image, Handle(0), 0x2);
    assert(loaded_image == 6) by {
        let ps = image_protocols(6, 7);
        let i = choose|i: int| 0 <= i < ps.len() && ps[i].guid == Guid(LOADED_IMAGE) && ps[i].interface == loaded_image;
        assert(i == 0);
    }
    s.set_object(
        loaded_image,
        Object::LoadedImage(LoadedImage { device_handle: boot_fs_handle, ..launch_image_value() }),
    );
    s.close_protocol(image, &Guid(LOADED_IMAGE), image, Handle(0));
    assert(s.db() =~= closed_consoles.push(image_protocols(6, 7)));

    install_device_path_text(&mut s);
    install_serial_protocol(&mut s);
    install_gop_protocol(&mut s);
    install_pointer_protocol(&mut s);
    let ghost all_closed = closed_consoles + launch_db().subrange(4, 10);
    assert(s.db() =~= all_closed);

    let mut stdout: usize = 0;
    proof {
        lemma_open_single(s.db()[0][0]);
    }
    s.open_protocol(stdout_handle, &Guid(SIMPLE_TEXT_OUTPUT), &mut stdout, image, Handle(0), 0);
    let mut stderr: usize = 0;
    proof {
        lemma_open_single(s.db()[1][0]);
    }
    s.open_protocol(stderr_handle, &Guid(SIMPLE_TEXT_OUTPUT), &mut stderr, image, Handle(0), 0);
    let mut stdin: usize = 0;
    proof {
        lemma_open_single(s.db()[2][0]);
    }
    s.open_protocol(stdin_handle, &Guid(SIMPLE_TEXT_INPUT), &mut stdin, image, Handle(0), 0);

    assert(s.db() =~= launch_db());

    let system_table = SystemTable {
        signature: SYSTEM_TABLE_SIGNATURE,
        revision: STUB_REVISION,
        firmware_vendor: fw_vendor,
        firmware_revision: STUB_FIRMWARE_REVISION,
        stdin_handle,
        stdin,
        stdout_handle,
        stdout,
        stderr_handle,
        stderr,
        number_of_configuration_table_entries: 0,
        boot_services: true,
    };
    (s, image, system_table)
}

/// What the stub's serial device reads: `OK\n` when asked for three bytes,
/// else `Hello world!`.
pub open spec fn serial_reply(size: usize) -> Seq<u8> {
    if size == 3 {
        seq![0x4fu8, 0x4b, 0x0a]
    } else {
        seq![0x48u8, 0x65, 0x6c, 0x6c, 0x6f, 0x20, 0x77, 0x6f, 0x72, 0x6c, 0x64, 0x21]
    }
}

/// Reads from the stub's serial device into `buf`, which must hold the
/// reply; `*size` is set to the reply's length.
pub fn serial_read(size: &mut usize, buf: &mut Vec<u8>) -> (status: Status)
    requires
        old(buf)@.len() >= serial_reply(*old(size)).len(),
    ensures
        status.0 == SUCCESS,
        *final(size) == serial_reply(*old(size)).len(),
        final(buf)@ == serial_reply(*old(size)) + old(buf)@.subrange(
            serial_reply(*old(size)).len() as int,
            old(buf)@.len() as int,
        ),
{
    let reply: Vec<u8> = if *size == 3 {
        vec![0x4f, 0x4b, 0x0a]
    } else {
        vec![0x48, 0x65, 0x6c, 0x6c, 0x6f, 0x20, 0x77, 0x6f, 0x72, 0x6c, 0x64, 0x21]
    };
    assert(reply@ =~= serial_reply(*old(size)));
    let mut i: usize = 0;
    while i < reply.len()
        invariant
            i <= reply@.len(),
            reply@ == serial_reply(*old(size)),
            buf@.len() == old(buf)@.len(),
            old(buf)@.len() >= reply@.len(),
            forall|j: int| 0 <= j < i ==> buf@[j] == reply@[j],
            forall|j: int| i <= j < buf@.len() ==> buf@[j] == old(buf)@[j],
        decreases reply@.len() - i,
    {
        buf.set(i, reply[i]);
        i = i + 1;
    }
    assert(buf@ =~= reply@ + old(buf)@.subrange(reply@.len() as int, old(buf)@.len() as int));
    *size = reply.len();
    Status(SUCCESS)
}

/// What a pointer device reports about its movement and buttons.
#[derive(Clone, Copy, Debug, PartialEq, Eq, Structural)]
pub struct PointerState {
    pub relative_movement_x: i32,
    pub relative_movement_y: i32,
    pub relative_movement_z: i32,
    pub left_button: bool,
    pub right_button: bool,
}

/// The stub's pointer never moves and has no button pressed.
pub fn pointer_get_state(state: &mut PointerState) -> (status: Status)
    ensures
        status.0 == SUCCESS,
        *final(state) == (PointerState {
            relative_movement_x: 0,
            relative_movement_y: 0,
            relative_movement_z: 0,
            left_button: false,
            right_button: false,
        }),
{
    state.relative_movement_x = 0;
    state.relative_movement_y = 0;
    state.relative_movement_z = 0;
    state.left_button = false;
    state.right_button = false;
    Status(SUCCESS)
}

/// Leaves the boot services: the console is no longer reachable from the
/// system table, nor are the boot services.
pub fn exit_boot_services(system_table: &mut SystemTable, image_handle: Handle, map_key: usize) -> (status: Status)
    ensures
        status.0 == SUCCESS,
        final(system_table).stdin == 0,
        final(system_table).stdout == 0,
        final(system_table).stderr == 0,
        !final(system_table).boot_services,
        final(system_table).stdin_handle == old(system_table).stdin_handle,
        final(system_table).stdout_handle == old(system_table).stdout_handle,
        final(system_table).stderr_handle == old(system_table).stderr_handle,
        final(system_table).signature == old(system_table).signature,
        final(system_table).revision == old(system_table).revision,
        final(system_table).firmware_vendor@ == old(system_table).firmware_vendor@,
        final(system_table).firmware_revision == old(system_table).firmware_revision,
        final(system_table).number_of_configuration_table_entries == old(
            system_table,
        ).number_of_configuration_table_entries,
{
    system_table.stdin = 0;
    system_table.stdout = 0;
    system_table.stderr = 0;
    system_table.boot_services = false;
    Status(SUCCESS)
}

/// Opens the root directory of the file system whose interface is `fs`:
/// a new open file of it, whose interface is stored in `*root`.
pub fn open_volume(s: &mut State, fs: usize, root: &mut usize) -> (status: Status)
    requires
        has_room(*old(s), 1),
        1 <= fs <= old(s).objects().len(),
        old(s).objects()[fs - 1] is FileSystem,
    ensures
        status.0 == SUCCESS,
        final(s).objects() == old(s).objects().push(Object::File { fs }),
        *final(root) == final(s).objects().len(),
        final(s).db() == old(s).db(),
        final(s).events() == old(s).events(),
        final(s).wf(),
{
    *root = s.store_object(Object::File { fs });
    Status(SUCCESS)
}

/// Opens a file relative to the open file whose interface is `this`: a new
/// open file of the same file system, whose interface is stored in
/// `*new_handle`. The stub opens any name in any mode.
pub fn file_open(
    s: &mut State,
    this: usize,
    new_handle: &mut usize,
    filename: &[u16],
    open_mode: u64,
    attributes: u64,
) -> (status: Status)
    requires
        has_room(*old(s), 1),
        1 <= this <= old(s).objects().len(),
        old(s).objects()[this - 1] is File,
    ensures
        status.0 == SUCCESS,
        final(s).objects() == old(s).objects().push(
            Object::File { fs: old(s).objects()[this - 1]->fs },
        ),
        *final(new_handle) == final(s).objects().len(),
        final(s).db() == old(s).db(),
        final(s).events() == old(s).events(),
        final(s).wf(),
{
    let fs = match s.object(this) {
        Object::File { fs } => *fs,
        _ => {
            assert(false);
            0
        },
    };
    *new_handle = s.store_object(Object::File { fs });
    Status(SUCCESS)
}

/// The file information type, `09576e92-6d3f-11d2-8e39-00a0c969723b`.
pub const FILE_INFO: u128 = 0x3b7269c9a000398e11d26d3f09576e92;

/// A time as the firmware gives it.
#[derive(Clone, Copy, Debug, PartialEq, Eq, Structural)]
pub struct Time {
    pub year: u16,
    pub month: u8,
    pub day: u8,
    pub hour: u8,
    pub minute: u8,
    pub second: u8,
    pub nanosecond: u32,
    /// Minutes from UTC, or [`UNSPECIFIED_TIMEZONE`].
    pub time_zone: i16,
    pub daylight: u8,
}

/// A time zone that is not given.
pub const UNSPECIFIED_TIMEZONE: i16 = 0x07ff;

/// The time is in daylight saving time.
pub const IN_DAYLIGHT: u8 = 0x02;

/// A file that cannot be written.
pub const FILE_READ_ONLY: u64 = 0x01;

/// The information about a file.
#[derive(Debug)]
pub struct FileInfo {
    /// The size of the information in the firmware's layout, in bytes.
    pub size: u64,
    pub file_size: u64,
    pub physical_size: u64,
    pub create_time: Time,
    pub last_access_time: Time,
    pub modification_time: Time,
    pub attribute: u64,
    /// The file's name in UCS-2, without its terminating null.
    pub file_name: Vec<u16>,
}

/// The size in bytes of file information with a name of `name_len`
/// characters: 80 bytes of fixed fields and the null-terminated UCS-2 name,
/// rounded up to a multiple of 8.
pub open spec fn file_info_size(name_len: nat) -> nat {
    let raw = 80 + 2 * (name_len + 1);
    (raw + crate::align::offset_up(raw as int, 8)) as nat
}

/// The time of every file of the stub: the start of 1970, in daylight
/// saving time, with no time zone.
pub open spec fn stub_time() -> Time {
    Time {
        year: 1970,
        month: 1,
        day: 1,
        hour: 0,
        minute: 0,
        second: 0,
        nanosecond: 0,
        time_zone: UNSPECIFIED_TIMEZONE,
        daylight: IN_DAYLIGHT,
    }
}

/// A time with every field zero: not a valid time.
pub open spec fn invalid_time() -> Time {
    Time {
        year: 0,
        month: 0,
        day: 0,
        hour: 0,
        minute: 0,
        second: 0,
        nanosecond: 0,
        time_zone: 0,
        daylight: 0,
    }
}

/// Whether `info` is the information that the stub gives of any file: 123
/// bytes long, 456 on disk, read-only, named `TODO`.
pub open spec fn is_stub_file_info(info: FileInfo) -> bool {
    &&& info.size == file_info_size(4)
    &&& info.file_size == 123
    &&& info.physical_size == 456
    &&& info.create_time == stub_time()
    &&& info.last_access_time == stub_time()
    &&& info.modification_time == stub_time()
    &&& info.attribute == FILE_READ_ONLY
    &&& info.file_name@ == seq![0x54u16, 0x4f, 0x44, 0x4f]
}

/// Whether `info` is the entry that the stub reads from any directory: an
/// empty entry named `test_dir` with no times and no attributes.
pub open spec fn is_stub_dir_entry(info: FileInfo) -> bool {
    &&& info.size == file_info_size(8)
    &&& info.file_size == 0
    &&& info.physical_size == 0
    &&& info.create_time == invalid_time()
    &&& info.last_access_time == invalid_time()
    &&& info.modification_time == invalid_time()
    &&& info.attribute == 0
    &&& info.file_name@ == seq![0x74u16, 0x65, 0x73, 0x74, 0x5f, 0x64, 0x69, 0x72]
}

/// Gives the file information of an open file: `*buffer_size` is set to
/// its size, and the information is given if `*buffer_size` bytes hold it,
/// else `BUFFER_TOO_SMALL` is returned. Only the file information type is
/// offered.
pub fn file_get_info(
    this: usize,
    information_type: &Guid,
    buffer_size: &mut usize,
    info: &mut Option<FileInfo>,
) -> (status: Status)
    requires
        *information_type == Guid(FILE_INFO),
    ensures
        *final(buffer_size) == file_info_size(4),
        if *old(buffer_size) >= file_info_size(4) {
            &&& status.0 == SUCCESS
            &&& (*final(info) matches Some(i) && is_stub_file_info(i))
        } else {
            status.0 == crate::status::BUFFER_TOO_SMALL && *final(info) == *old(info)
        },
{
    let t = Time {
        year: 1970,
        month: 1,
        day: 1,
        hour: 0,
        minute: 0,
        second: 0,
        nanosecond: 0,
        time_zone: UNSPECIFIED_TIMEZONE,
        daylight: IN_DAYLIGHT,
    };
    let size: usize = 96;
    assert(file_info_size(4) == 96);
    let available = *buffer_size;
    *buffer_size = size;
    if available < size {
        return Status(crate::status::BUFFER_TOO_SMALL);
    }
    let name: Vec<u16> = vec![0x54, 0x4f, 0x44, 0x4f];
    *info = Some(
        FileInfo {
            size: 96,
            file_size: 123,
            physical_size: 456,
            create_time: t,
            last_access_time: t,
            modification_time: t,
            attribute: FILE_READ_ONLY,
            file_name: name,
        },
    );
    Status(SUCCESS)
}

/// Reads from an open directory: the stub always gives the entry of
/// [`is_stub_dir_entry`] if `*buffer_size` bytes hold it, else
/// `BUFFER_TOO_SMALL`; `*buffer_size` is set to its size.
pub fn file_read(this: usize, buffer_size: &mut usize, info: &mut Option<FileInfo>) -> (status: Status)
    ensures
        *final(buffer_size) == file_info_size(8),
        if *old(buffer_size) >= file_info_size(8) {
            &&& status.0 == SUCCESS
            &&& (*final(info) matches Some(i) && is_stub_dir_entry(i))
        } else {
            status.0 == crate::status::BUFFER_TOO_SMALL && *final(info) == *old(info)
        },
{
    let t = Time {
        year: 0,
        month: 0,
        day: 0,
        hour: 0,
        minute: 0,
        second: 0,
        nanosecond: 0,
        time_zone: 0,
        daylight: 0,
    };
    let size: usize = 104;
    assert(file_info_size(8) == 104);
    let available = *buffer_size;
    *buffer_size = size;
    if available < size {
        return Status(crate::status::BUFFER_TOO_SMALL);
    }
    let name: Vec<u16> = vec![0x74, 0x65, 0x73, 0x74, 0x5f, 0x64, 0x69, 0x72];
    *info = Some(
        FileInfo {
            size: 104,
            file_size: 0,
            physical_size: 0,
            create_time: t,
            last_access_time: t,
            modification_time: t,
            attribute: 0,
            file_name: name,
        },
    );
    Status(SUCCESS)
}

/// Opening the one protocol of a handle marks it in use, and its interface
/// is the one it was installed with.
proof fn lemma_open_single(p: ProtocolWrapper)
    ensures
        crate::boot_services::set_in_use(seq![p], p.guid, true) == seq![ProtocolWrapper { in_use: true, ..p }],
        crate::boot_services::holds_protocol(seq![p], p.guid),
        !p.in_use ==> !crate::boot_services::open_in(seq![p], p.guid),
        forall|i: usize| #[trigger] crate::boot_services::interface_in(seq![p], p.guid, i) ==> i == p.interface,
{
    assert(crate::boot_services::set_in_use(seq![p], p.guid, true) =~= seq![ProtocolWrapper { in_use: true, ..p }]);
    assert(seq![p][0] == p);
}

/// The test runner's image as loaded, before its device is set.
fn launch_image_value() -> (i: LoadedImage)
    ensures
        i == (LoadedImage { device_handle: Handle(0), ..launch_image() }),
{
    LoadedImage {
        revision: 1,
        parent_handle: Handle(0),
        device_handle: Handle(0),
        image_base: 0,
        image_size: 0,
        image_code_type: LOADER_CODE,
        image_data_type: LOADER_DATA,
    }
}

} // verus!
