//! The runner's check of the USB device that QEMU provides: a mouse.

use crate::status::Status;
use crate::usb::{
    status_result, UsbIo, ConfigDescriptor, DeviceDescriptor, EndpointDescriptor, InterfaceDescriptor, CLASS_USE_INTERFACE_DESCRIPTORS,
    DESCRIPTOR_TYPE_CONFIGURATION, DESCRIPTOR_TYPE_DEVICE, DESCRIPTOR_TYPE_ENDPOINT, DESCRIPTOR_TYPE_INTERFACE,
};
use vstd::prelude::*;
use vstd::string::StrSliceExecFns;

verus! {

/// A string in UCS-2, one code unit per character.
pub open spec fn ucs2(s: Seq<char>) -> Seq<u16> {
    s.map_values(|c: char| c as u16)
}

/// Whether the UCS-2 string `s` holds the characters of `t`.
pub fn ucs2_eq(s: &[u16], t: &str) -> (r: bool)
    ensures
        r == (s@ == ucs2(t@)),
{
    let n = t.unicode_len();
    if s.len() != n {
        return false;
    }
    let mut i: usize = 0;
    while i < n
        invariant
            n == t@.len(),
            s@.len() == n,
            i <= n,
            forall|j: int| 0 <= j < i ==> s@[j] == t@[j] as u16,
        decreases n - i,
    {
        if s[i] != t.get_char(i) as u16 {
            assert(s@[i as int] != ucs2(t@)[i as int]);
            return false;
        }
        i = i + 1;
    }
    assert(s@ =~= ucs2(t@));
    true
}

/// What the runner expects of QEMU's USB mouse: each descriptor of its
/// type, the device leaving the class to its interfaces, USB 2.0, and the
/// manufacturer, product, serial number and configuration strings.
pub open spec fn is_qemu_mouse(
    dd: DeviceDescriptor,
    cd: ConfigDescriptor,
    id: InterfaceDescriptor,
    ed: EndpointDescriptor,
    manufacturer: Seq<u16>,
    product: Seq<u16>,
    serial: Seq<u16>,
    configuration: Seq<u16>,
) -> bool {
    &&& dd.descriptor_type.0 == DESCRIPTOR_TYPE_DEVICE
    &&& dd.device_class.0 == CLASS_USE_INTERFACE_DESCRIPTORS
    &&& dd.bcd_usb == 0x0200
    &&& cd.descriptor_type.0 == DESCRIPTOR_TYPE_CONFIGURATION
    &&& id.descriptor_type.0 == DESCRIPTOR_TYPE_INTERFACE
    &&& ed.descriptor_type.0 == DESCRIPTOR_TYPE_ENDPOINT
    &&& manufacturer == ucs2("QEMU"@)
    &&& product == ucs2("QEMU USB Mouse"@)
    &&& serial == ucs2("89126-0000:00:1d.7-1"@)
    &&& configuration == ucs2("HID Mouse"@)
}

/// Checks what the USB device reported: its device, configuration,
/// interface and first endpoint descriptors, and the strings its device
/// descriptor (manufacturer, product, serial number) and configuration
/// descriptor name, in its first supported language.
pub fn check_usb_mouse(
    dd: &DeviceDescriptor,
    cd: &ConfigDescriptor,
    id: &InterfaceDescriptor,
    ed: &EndpointDescriptor,
    manufacturer: &[u16],
    product: &[u16],
    serial: &[u16],
    configuration: &[u16],
) -> (ok: bool)
    ensures
        ok == is_qemu_mouse(*dd, *cd, *id, *ed, manufacturer@, product@, serial@, configuration@),
{
    dd.descriptor_type.0 == DESCRIPTOR_TYPE_DEVICE && dd.device_class.0 == CLASS_USE_INTERFACE_DESCRIPTORS
        && dd.bcd_usb == 0x0200 && cd.descriptor_type.0 == DESCRIPTOR_TYPE_CONFIGURATION
        && id.descriptor_type.0 == DESCRIPTOR_TYPE_INTERFACE && ed.descriptor_type.0
        == DESCRIPTOR_TYPE_ENDPOINT && ucs2_eq(manufacturer, "QEMU") && ucs2_eq(product, "QEMU USB Mouse")
        && ucs2_eq(serial, "89126-0000:00:1d.7-1") && ucs2_eq(configuration, "HID Mouse")
}

/// The runner's USB test on what the device reported: the descriptors and
/// strings of [`check_usb_mouse`], then a reset of the device's port through
/// the firmware's `usb_port_reset`, which must succeed. The port is reset
/// only once the descriptors and strings passed.
pub fn test<F: FnOnce() -> Status>(
    usb_io: &UsbIo,
    dd: &DeviceDescriptor,
    cd: &ConfigDescriptor,
    id: &InterfaceDescriptor,
    ed: &EndpointDescriptor,
    manufacturer: &[u16],
    product: &[u16],
    serial: &[u16],
    configuration: &[u16],
    usb_port_reset: F,
) -> (ok: bool)
    requires
        call_requires(usb_port_reset, ()),
    ensures
        !is_qemu_mouse(*dd, *cd, *id, *ed, manufacturer@, product@, serial@, configuration@) ==> !ok,
        is_qemu_mouse(*dd, *cd, *id, *ed, manufacturer@, product@, serial@, configuration@) ==> exists|
            s: Status,
        | #[trigger] call_ensures(usb_port_reset, (), s) && (ok <==> status_result(s) == Ok::<(), Status>(())),
{
    if !check_usb_mouse(dd, cd, id, ed, manufacturer, product, serial, configuration) {
        return false;
    }
    usb_io.port_reset(usb_port_reset).is_ok()
}

} // verus!
