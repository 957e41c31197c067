use uefi_model::console::{clear_screen, enable_cursor, reset, set_attribute, set_cursor_position, set_mode};
use uefi_model::firmware::Object;
use std::cell::Cell;
use uefi_model::firmware::LOADER_DATA;
use uefi_model::http::{
    message_after, message_for, request_message, response_message, HttpMethod, HttpRequest, HTTP_HEADER_SIZE, HTTP_METHOD_GET,
    HTTP_METHOD_POST, RESPONSE_BODY_SIZE,
};
use uefi_model::runner::usb::{check_usb_mouse, test as usb_test, ucs2_eq};
use uefi_model::status::DEVICE_ERROR;
use uefi_model::usb::UsbIo;
use uefi_model::shared_box::SharedAnyBox;
use uefi_model::usb::{
    ConfigDescriptor, DeviceDescriptor, EndpointDescriptor, InterfaceDescriptor, DESCRIPTOR_TYPE_CONFIGURATION,
    DESCRIPTOR_TYPE_DEVICE, DESCRIPTOR_TYPE_ENDPOINT, DESCRIPTOR_TYPE_INTERFACE,
};
use uefi_model::http::{next_step, HttpEvent, HttpStage, HttpStep};
use uefi_model::status::{NOT_READY, TIMEOUT};
use uefi_model::http::{ config_data, configuration, HttpAccessPoint, HttpConfiguration, HttpV4AccessPoint, HttpVersion, Timeout, HTTP_VERSION_11, };
use uefi_model::console::{make_output, query_mode, OutputData};
use uefi_model::error::Error;
use uefi_model::http::HttpHeader;
use uefi_model::pool_string::PoolString;
use uefi_model::shared_box::SharedBox;
use uefi_model::status::{Status, SUCCESS};
use uefi_model::usb::{
    Class, ConfigAttributes, DescriptorType, CONFIG_D5_REMOTE_WAKEUP, CONFIG_D6_SELF_POWERED, CONFIG_D7_RESERVED,
};

#[test]
fn output_starts_in_mode_zero() {
    let o = make_output();
    assert_eq!(
        o.data,
        OutputData { max_mode: 1, mode: 0, attribute: 0, cursor_column: 0, cursor_row: 0, cursor_visible: false }
    );
    assert_eq!(query_mode(&o, 0), (Status(SUCCESS), 80, 25));
}

#[test]
fn pool_string_null_is_out_of_resources() {
    assert_eq!(PoolString::new(0).err(), Some(Error::OutOfResources));
    assert_eq!(PoolString::new(0x5000).unwrap().as_addr(), 0x5000);
}

#[test]
fn http_header_fields() {
    let h = HttpHeader::new(b"Host", b"http://example.com");
    assert_eq!(h.name, b"Host");
    assert_eq!(h.value, b"http://example.com");
}

#[test]
fn shared_box_access() {
    let mut b = SharedBox::new(&41u32);
    *b.as_mut_ptr() += 1;
    assert_eq!(*b.as_mut_ptr(), 42);
    let _empty: SharedBox<u32> = SharedBox::default();
}

#[test]
fn usb_defaults_and_flags() {
    assert_eq!(Class::default(), Class(0));
    assert_eq!(DescriptorType::default(), DescriptorType(0));
    let a = ConfigAttributes(CONFIG_D7_RESERVED | CONFIG_D5_REMOTE_WAKEUP);
    assert!(a.contains(ConfigAttributes(CONFIG_D5_REMOTE_WAKEUP)));
    assert!(!a.contains(ConfigAttributes(CONFIG_D6_SELF_POWERED)));
    assert!(a.contains(ConfigAttributes::default()));
}

#[test]
fn http_configuration_round_trip() {
    assert_eq!(
        HttpAccessPoint::default(),
        HttpAccessPoint::IpV4(HttpV4AccessPoint {
            use_default_addr: true,
            local_address: [0; 4],
            local_subnet: [0; 4],
            local_port: 80
        })
    );
    let config = HttpConfiguration {
        http_version: HttpVersion(HTTP_VERSION_11),
        timeout: Timeout { secs: 10, subsec_nanos: 0 },
        access_point: HttpAccessPoint::default(),
    };
    let data = config_data(&config).unwrap();
    assert_eq!(data.time_out_millisec, 10_000);
    assert!(!data.local_addr_is_ipv6);
    assert_eq!(configuration(&data), config);

    let too_long = HttpConfiguration { timeout: Timeout { secs: 5_000_000, subsec_nanos: 0 }, ..config };
    assert_eq!(config_data(&too_long).err(), Some(Error::InvalidParameter));

    let fraction = HttpConfiguration { timeout: Timeout { secs: 1, subsec_nanos: 2_500_000 }, ..config };
    assert_eq!(config_data(&fraction).unwrap().time_out_millisec, 1002);
    assert_eq!(Timeout { secs: 1, subsec_nanos: 2_500_000 }.as_millis(), 1002);
    assert_eq!(Timeout::from_millis(1002), Timeout { secs: 1, subsec_nanos: 2_000_000 });
}

#[test]
fn http_exchange_steps() {
    let ok = Status(SUCCESS);
    assert_eq!(next_step(HttpStage::Request, HttpEvent::Called(ok)), HttpStep::Check);
    assert_eq!(next_step(HttpStage::Request, HttpEvent::Called(Status(TIMEOUT))), HttpStep::Failed(Status(TIMEOUT)));
    assert_eq!(
        next_step(HttpStage::Request, HttpEvent::Checked { is_done: false, token_status: Status(NOT_READY) }),
        HttpStep::Poll
    );
    assert_eq!(next_step(HttpStage::Request, HttpEvent::Polled(ok)), HttpStep::Check);
    assert_eq!(
        next_step(HttpStage::Request, HttpEvent::Polled(Status(NOT_READY))),
        HttpStep::Failed(Status(NOT_READY))
    );
    assert_eq!(
        next_step(HttpStage::Request, HttpEvent::Checked { is_done: true, token_status: ok }),
        HttpStep::ReceiveResponse
    );
    assert_eq!(
        next_step(HttpStage::Response, HttpEvent::Checked { is_done: true, token_status: ok }),
        HttpStep::Received
    );
    assert_eq!(
        next_step(HttpStage::Response, HttpEvent::Checked { is_done: true, token_status: Status(TIMEOUT) }),
        HttpStep::Failed(Status(TIMEOUT))
    );
}

#[test]
fn console_operations_succeed_and_change_nothing() {
    let mut o = make_output();
    let before = o.data;
    assert_eq!(reset(&mut o, true), Status(SUCCESS));
    assert_eq!(set_mode(&mut o, 0), Status(SUCCESS));
    assert_eq!(set_attribute(&mut o, 7), Status(SUCCESS));
    assert_eq!(clear_screen(&mut o), Status(SUCCESS));
    assert_eq!(set_cursor_position(&mut o, 3, 4), Status(SUCCESS));
    assert_eq!(enable_cursor(&mut o, true), Status(SUCCESS));
    assert_eq!(o.data, before);
}

#[test]
fn shared_any_box_access() {
    let mut b = SharedAnyBox::new(Object::TextInput);
    assert!(matches!(b.as_mut_ptr(), Object::TextInput));
    *b.as_mut_ptr() = Object::Rng;
    assert!(matches!(b.as_mut_ptr(), Object::Rng));
}

fn u16s(s: &str) -> Vec<u16> {
    s.encode_utf16().collect()
}

#[test]
fn usb_mouse_check() {
    let dd = DeviceDescriptor {
        length: 18,
        descriptor_type: DescriptorType(DESCRIPTOR_TYPE_DEVICE),
        bcd_usb: 0x0200,
        device_class: Class(0),
        device_sub_class: 0,
        device_protocol: 0,
        max_packet_size0: 8,
        id_vendor: 0x0627,
        id_product: 0x0001,
        bcd_device: 0,
        str_manufacturer: 1,
        str_product: 2,
        str_serial_number: 3,
        num_configurations: 1,
    };
    let cd = ConfigDescriptor {
        length: 9,
        descriptor_type: DescriptorType(DESCRIPTOR_TYPE_CONFIGURATION),
        total_length: 34,
        num_interfaces: 1,
        configuration_value: 1,
        configuration: 4,
        attributes: ConfigAttributes(0xa0),
        max_power: 50,
    };
    let id = InterfaceDescriptor {
        length: 9,
        descriptor_type: DescriptorType(DESCRIPTOR_TYPE_INTERFACE),
        interface_number: 0,
        alternate_setting: 0,
        num_endpoints: 1,
        interface_class: Class(3),
        interface_sub_class: 1,
        interface_protocol: 2,
        interface: 0,
    };
    let ed = EndpointDescriptor {
        length: 7,
        descriptor_type: DescriptorType(DESCRIPTOR_TYPE_ENDPOINT),
        endpoint_address: 0x81,
        attributes: 3,
        max_packet_size: 4,
        interval: 10,
    };
    let m = u16s("QEMU");
    let p = u16s("QEMU USB Mouse");
    let sn = u16s("89126-0000:00:1d.7-1");
    let c = u16s("HID Mouse");
    assert!(check_usb_mouse(&dd, &cd, &id, &ed, &m, &p, &sn, &c));
    assert!(!check_usb_mouse(&dd, &cd, &id, &ed, &m, &p, &sn, &u16s("HID Keyboard")));
    let old_usb = DeviceDescriptor { bcd_usb: 0x0110, ..dd };
    assert!(!check_usb_mouse(&old_usb, &cd, &id, &ed, &m, &p, &sn, &c));
    assert!(ucs2_eq(&u16s("QEMU"), "QEMU"));
    assert!(!ucs2_eq(&u16s("QEM"), "QEMU"));

    let io = UsbIo;
    let resets = Cell::new(0u32);
    assert!(usb_test(&io, &dd, &cd, &id, &ed, &m, &p, &sn, &c, || {
        resets.set(resets.get() + 1);
        Status(SUCCESS)
    }));
    assert_eq!(resets.get(), 1);
    assert!(!usb_test(&io, &dd, &cd, &id, &ed, &m, &p, &sn, &c, || Status(DEVICE_ERROR)));
    assert!(!usb_test(&io, &old_usb, &cd, &id, &ed, &m, &p, &sn, &c, || {
        resets.set(resets.get() + 1);
        Status(SUCCESS)
    }));
    assert_eq!(resets.get(), 1);
}

#[test]
fn usb_port_reset_maps_the_firmware_status() {
    let io = UsbIo;
    assert_eq!(io.port_reset(|| Status(SUCCESS)), Ok(()));
    assert_eq!(io.port_reset(|| Status(DEVICE_ERROR)), Err(Status(DEVICE_ERROR)));
    assert_eq!(UsbIo::port_reset_result(Status(TIMEOUT)), Err(Status(TIMEOUT)));
    assert_eq!(UsbIo::port_reset_result(Status(SUCCESS)), Ok(()));
}

#[test]
fn http_request_message_holds_the_request() {
    let url: Vec<u16> = "http://example.com/".encode_utf16().collect();
    let headers = [HttpHeader::new(b"Host", b"example.com"), HttpHeader::new(b"Accept", b"*/*")];
    let req = HttpRequest { method: HttpMethod(HTTP_METHOD_POST), url: &url, headers: &headers, body: b"hello" };
    let m = request_message(&req);
    let r = m.request.as_ref().unwrap();
    assert_eq!(r.method, HttpMethod(HTTP_METHOD_POST));
    assert_eq!(r.url, url);
    assert_eq!(
        m.headers,
        vec![(b"Host".to_vec(), b"example.com".to_vec()), (b"Accept".to_vec(), b"*/*".to_vec())]
    );
    assert_eq!(m.body_length, 5);
    assert_eq!(m.pool, (LOADER_DATA, 32));

    let m = message_for(HttpStage::Request, &req);
    assert_eq!(m.headers.len(), 2);
    assert_eq!(m.pool, (LOADER_DATA, 2 * HTTP_HEADER_SIZE));
}

#[test]
fn http_response_message_offers_a_pool_body() {
    let m = response_message();
    assert!(m.request.is_none());
    assert!(m.headers.is_empty());
    assert_eq!(m.body_length, 4096);
    assert_eq!(m.pool, (LOADER_DATA, RESPONSE_BODY_SIZE));
    let req = HttpRequest { method: HttpMethod(HTTP_METHOD_GET), url: &[], headers: &[], body: &[] };
    let m = message_for(HttpStage::Response, &req);
    assert!(m.request.is_none());
    assert_eq!(m.body_length, 4096);
    assert_eq!(m.pool, (LOADER_DATA, 4096));
}

#[test]
fn response_message_follows_a_completed_request() {
    let done = HttpEvent::Checked { is_done: true, token_status: Status(SUCCESS) };
    let m = message_after(HttpStage::Request, done).unwrap();
    assert!(m.request.is_none());
    assert!(m.headers.is_empty());
    assert_eq!(m.body_length, 4096);
    assert_eq!(m.pool, (LOADER_DATA, 4096));
    assert!(message_after(HttpStage::Response, done).is_none());
    assert!(message_after(HttpStage::Request, HttpEvent::Checked { is_done: false, token_status: Status(SUCCESS) })
        .is_none());
    assert!(message_after(HttpStage::Request, HttpEvent::Called(Status(SUCCESS))).is_none());
}
