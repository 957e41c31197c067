//! USB descriptors: what a device reports about itself, its configurations,
//! interfaces and endpoints.

use crate::status::{Status, SUCCESS};
use vstd::prelude::*;

verus! {

/// A USB device class code (see <https://www.usb.org/defined-class-codes>).
#[derive(Clone, Copy, Debug, PartialEq, Eq, Structural)]
pub struct Class(pub u8);

pub const CLASS_USE_INTERFACE_DESCRIPTORS: u8 = 0x00;
pub const CLASS_AUDIO: u8 = 0x01;
pub const CLASS_COMMUNICATIONS: u8 = 0x02;
pub const CLASS_HID: u8 = 0x03;
pub const CLASS_PHYSICAL: u8 = 0x05;
pub const CLASS_IMAGE: u8 = 0x06;
pub const CLASS_PRINTER: u8 = 0x07;
pub const CLASS_MASS_STORAGE: u8 = 0x08;
pub const CLASS_HUB: u8 = 0x09;
pub const CLASS_CDC_DATA: u8 = 0x0a;
pub const CLASS_SMART_CARD: u8 = 0x0b;
pub const CLASS_CONTENT_SECURITY: u8 = 0x0d;
pub const CLASS_VIDEO: u8 = 0x0e;
pub const CLASS_PERSONAL_HEALTHCARE: u8 = 0x0f;
pub const CLASS_AUDIO_VIDEO: u8 = 0x10;
pub const CLASS_BILLBOARD: u8 = 0x11;
pub const CLASS_USB_TYPE_C_BRIDGE: u8 = 0x12;
pub const CLASS_I3C: u8 = 0x3c;
pub const CLASS_DIAGNOSTICS: u8 = 0xdc;
pub const CLASS_WIRELESS_CONTROLLER: u8 = 0xe0;
pub const CLASS_MISCELLANEOUS: u8 = 0xef;
pub const CLASS_APPLICATION_SPECIFIC: u8 = 0xfe;
pub const CLASS_VENDOR_SPECIFIC: u8 = 0xff;

impl Default for Class {
    fn default() -> (c: Self)
        ensures
            c.0 == 0,
    {
        Class(0)
    }
}

/// The type of a USB descriptor.
#[derive(Clone, Copy, Debug, PartialEq, Eq, Structural)]
pub struct DescriptorType(pub u8);

pub const DESCRIPTOR_TYPE_DEVICE: u8 = 0x01;
pub const DESCRIPTOR_TYPE_CONFIGURATION: u8 = 0x02;
pub const DESCRIPTOR_TYPE_STRING: u8 = 0x03;
pub const DESCRIPTOR_TYPE_INTERFACE: u8 = 0x04;
pub const DESCRIPTOR_TYPE_ENDPOINT: u8 = 0x05;
pub const DESCRIPTOR_TYPE_DEVICE_QUALIFIER: u8 = 0x06;
pub const DESCRIPTOR_TYPE_OTHER_SPEED_CONFIGURATION: u8 = 0x07;
pub const DESCRIPTOR_TYPE_INTERFACE_POWER: u8 = 0x08;

impl Default for DescriptorType {
    fn default() -> (d: Self)
        ensures
            d.0 == 0,
    {
        DescriptorType(0)
    }
}

/// The attributes of a configuration: a set of flags, one per bit.
#[derive(Clone, Copy, Debug, PartialEq, Eq, Structural)]
pub struct ConfigAttributes(pub u8);

/// Reserved, set to 0.
pub const CONFIG_D0_RESERVED: u8 = 0b0000_0001;
/// Reserved, set to 0.
pub const CONFIG_D1_RESERVED: u8 = 0b0000_0010;
/// Reserved, set to 0.
pub const CONFIG_D2_RESERVED: u8 = 0b0000_0100;
/// Reserved, set to 0.
pub const CONFIG_D3_RESERVED: u8 = 0b0000_1000;
/// Reserved, set to 0.
pub const CONFIG_D4_RESERVED: u8 = 0b0001_0000;
/// Device supports remote wakeup.
pub const CONFIG_D5_REMOTE_WAKEUP: u8 = 0b0010_0000;
/// Device uses power from a local source.
pub const CONFIG_D6_SELF_POWERED: u8 = 0b0100_0000;
/// Reserved, set to 1.
pub const CONFIG_D7_RESERVED: u8 = 0b1000_0000;

impl ConfigAttributes {
    /// Whether every flag of `other` is set.
    pub fn contains(&self, other: ConfigAttributes) -> (r: bool)
        ensures
            r == (self.0 & other.0 == other.0),
    {
        self.0 & other.0 == other.0
    }
}

impl Default for ConfigAttributes {
    /// No flag set.
    fn default() -> (a: Self)
        ensures
            a.0 == 0,
    {
        ConfigAttributes(0)
    }
}

/// General information about a USB device.
#[derive(Clone, Copy, Debug, PartialEq, Eq, Structural)]
pub struct DeviceDescriptor {
    /// Size of this descriptor in bytes.
    pub length: u8,
    /// Type of descriptor (the device type).
    pub descriptor_type: DescriptorType,
    /// USB Specification release number in binary-coded decimal.
    pub bcd_usb: u16,
    /// Device class code.
    pub device_class: Class,
    /// Device subclass code.
    pub device_sub_class: u8,
    /// Device protocol code.
    pub device_protocol: u8,
    /// Maximum packet size for endpoint zero (only 8, 16, 32, or 64 are valid).
    pub max_packet_size0: u8,
    /// Vendor ID.
    pub id_vendor: u16,
    /// Product ID.
    pub id_product: u16,
    /// Device release number in binary-coded decimal.
    pub bcd_device: u16,
    /// Index of the manufacturer string descriptor.
    pub str_manufacturer: u8,
    /// Index of the product string descriptor.
    pub str_product: u8,
    /// Index of the serial number string descriptor.
    pub str_serial_number: u8,
    /// Number of possible configurations.
    pub num_configurations: u8,
}

/// Information about a specific device configuration.
#[derive(Clone, Copy, Debug, PartialEq, Eq, Structural)]
pub struct ConfigDescriptor {
    /// Size of this descriptor in bytes.
    pub length: u8,
    /// Type of descriptor (the configuration type).
    pub descriptor_type: DescriptorType,
    /// Total length of data returned for this configuration.
    pub total_length: u16,
    /// Number of interfaces supported by this configuration.
    pub num_interfaces: u8,
    /// Value to use when identifying this configuration.
    pub configuration_value: u8,
    /// Index of the configuration string descriptor.
    pub configuration: u8,
    /// Configuration attributes.
    pub attributes: ConfigAttributes,
    /// Maximum power consumption in 2 mA units.
    pub max_power: u8,
}

/// Information about a specific interface within a configuration.
#[derive(Clone, Copy, Debug, PartialEq, Eq, Structural)]
pub struct InterfaceDescriptor {
    /// Size of this descriptor in bytes.
    pub length: u8,
    /// Type of descriptor (the interface type).
    pub descriptor_type: DescriptorType,
    /// Zero-based index of this interface.
    pub interface_number: u8,
    /// Value used to select the alternate setting for this interface.
    pub alternate_setting: u8,
    /// Number of endpoints used by this interface, excluding endpoint zero.
    pub num_endpoints: u8,
    /// Class code; zero is reserved.
    pub interface_class: Class,
    /// Subclass code.
    pub interface_sub_class: u8,
    /// Protocol code.
    pub interface_protocol: u8,
    /// Index of the interface string descriptor.
    pub interface: u8,
}

/// Information about an interface endpoint.
#[derive(Clone, Copy, Debug, PartialEq, Eq, Structural)]
pub struct EndpointDescriptor {
    /// Size of this descriptor in bytes.
    pub length: u8,
    /// Type of descriptor (the endpoint type).
    pub descriptor_type: DescriptorType,
    /// Address of this endpoint: bits 3..0 the endpoint number, bit 7 the
    /// direction (1 is IN).
    pub endpoint_address: u8,
    /// Endpoint attributes; bits 1..0 are the transfer type.
    pub attributes: u8,
    /// Maximum packet size; the size in bytes is in bits 10..0.
    pub max_packet_size: u16,
    /// Interval for polling endpoint for data transfers.
    pub interval: u8,
}

/// A device descriptor as the USB I/O protocol reports it.
#[derive(Clone, Copy, Debug, Default)]
pub struct UsbDeviceDescriptor {
    pub length: u8,
    pub descriptor_type: u8,
    pub bcd_usb: u16,
    pub device_class: u8,
    pub device_sub_class: u8,
    pub device_protocol: u8,
    pub max_packet_size0: u8,
    pub id_vendor: u16,
    pub id_product: u16,
    pub bcd_device: u16,
    pub str_manufacturer: u8,
    pub str_product: u8,
    pub str_serial_number: u8,
    pub num_configurations: u8,
}

/// A configuration descriptor as the USB I/O protocol reports it.
#[derive(Clone, Copy, Debug, Default)]
pub struct UsbConfigDescriptor {
    pub length: u8,
    pub descriptor_type: u8,
    pub total_length: u16,
    pub num_interfaces: u8,
    pub configuration_value: u8,
    pub configuration: u8,
    pub attributes: u8,
    pub max_power: u8,
}

/// An interface descriptor as the USB I/O protocol reports it.
#[derive(Clone, Copy, Debug, Default)]
pub struct UsbInterfaceDescriptor {
    pub length: u8,
    pub descriptor_type: u8,
    pub interface_number: u8,
    pub alternate_setting: u8,
    pub num_endpoints: u8,
    pub interface_class: u8,
    pub interface_sub_class: u8,
    pub interface_protocol: u8,
    pub interface: u8,
}

/// An endpoint descriptor as the USB I/O protocol reports it.
#[derive(Clone, Copy, Debug, Default)]
pub struct UsbEndpointDescriptor {
    pub length: u8,
    pub descriptor_type: u8,
    pub endpoint_address: u8,
    pub attributes: u8,
    pub max_packet_size: u16,
    pub interval: u8,
}


/// What a firmware call's status means for the caller: success, or the
/// failing status.
pub open spec fn status_result(status: Status) -> Result<(), Status> {
    if status.0 == SUCCESS {
        Ok(())
    } else {
        Err(status)
    }
}

/// The USB I/O protocol of a device.
#[derive(Debug)]
pub struct UsbIo;

impl UsbIo {
    /// Resets the device's port through the firmware's `usb_port_reset`,
    /// and gives what its status means.
    pub fn port_reset<F: FnOnce() -> Status>(&self, usb_port_reset: F) -> (r: Result<(), Status>)
        requires
            call_requires(usb_port_reset, ()),
        ensures
            exists|s: Status| #[trigger] call_ensures(usb_port_reset, (), s) && r == status_result(s),
    {
        let s = usb_port_reset();
        UsbIo::port_reset_result(s)
    }

    /// What the firmware's status of a port reset means.
    pub fn port_reset_result(status: Status) -> (r: Result<(), Status>)
        ensures
            r == status_result(status),
    {
        if status.0 == SUCCESS {
            Ok(())
        } else {
            Err(status)
        }
    }
}

} // verus!
