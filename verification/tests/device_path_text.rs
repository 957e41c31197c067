use uefi_model::device_path_text::{
    convert_device_node_to_text,
    convert_device_path_to_text, device_node_to_string, push_guid, str_to_cstring16_pool_alloc, DeviceNode,
    PartitionSignature, PARTITION_FORMAT_GPT, PARTITION_FORMAT_MBR, PCI_ROOT_HID,
};
use uefi_model::guid::{Guid, DEVICE_PATH};

fn boot_path() -> Vec<DeviceNode> {
    vec![
        DeviceNode::AcpiAcpi { hid: PCI_ROOT_HID, uid: 0 },
        DeviceNode::HardwarePci { device: 0x1f, function: 0x02 },
        DeviceNode::MessagingSata { hba_port_number: 0, port_multiplier_port_number: 0xffff, logical_unit_number: 0 },
        DeviceNode::MediaHardDrive {
            partition_number: 1,
            partition_start: 0x3f,
            partition_size: 0xfbfc1,
            partition_signature: PartitionSignature::Mbr(0xbe1afdfau32.to_le_bytes()),
            partition_format: PARTITION_FORMAT_MBR,
        },
        DeviceNode::MediaFilePath { path_name: "\\efi\\boot\\test_runner.efi".to_string() },
    ]
}

#[test]
fn node_texts() {
    let p = boot_path();
    let texts: Vec<Option<String>> = p.iter().map(device_node_to_string).collect();
    assert_eq!(
        texts,
        vec![
            Some("PciRoot(0x0)".to_string()),
            Some("Pci(0x1F,0x2)".to_string()),
            Some("Sata(0x0,0xFFFF,0x0)".to_string()),
            Some("HD(1,MBR,0xBE1AFDFA,0x3F,0xFBFC1)".to_string()),
            Some("\\efi\\boot\\test_runner.efi".to_string()),
        ]
    );
}

#[test]
fn path_text_joins_nodes() {
    assert_eq!(
        convert_device_path_to_text(&boot_path()),
        "PciRoot(0x0)/Pci(0x1F,0x2)/Sata(0x0,0xFFFF,0x0)/HD(1,MBR,0xBE1AFDFA,0x3F,0xFBFC1)/\\efi\\boot\\test_runner.efi"
    );
    assert_eq!(convert_device_path_to_text(&[]), "");
}

#[test]
fn nodes_without_text() {
    assert_eq!(device_node_to_string(&DeviceNode::AcpiAcpi { hid: 0x1234, uid: 0 }), None);
    assert_eq!(device_node_to_string(&DeviceNode::Other { device_type: 4, sub_type: 9 }), None);
    let no_sig = DeviceNode::MediaHardDrive {
        partition_number: 1,
        partition_start: 0,
        partition_size: 0,
        partition_signature: PartitionSignature::NoSignature,
        partition_format: PARTITION_FORMAT_MBR,
    };
    assert_eq!(device_node_to_string(&no_sig), None);
}

#[test]
fn gpt_partition_with_guid() {
    let node = DeviceNode::MediaHardDrive {
        partition_number: 2,
        partition_start: 0x800,
        partition_size: 0x1000,
        partition_signature: PartitionSignature::Guid(Guid(DEVICE_PATH)),
        partition_format: PARTITION_FORMAT_GPT,
    };
    assert_eq!(
        device_node_to_string(&node).unwrap(),
        "HD(2,GPT,09576e91-6d3f-11d2-8e39-00a0c969723b,0x800,0x1000)"
    );
    let odd = DeviceNode::MediaHardDrive {
        partition_number: 3,
        partition_start: 1,
        partition_size: 2,
        partition_signature: PartitionSignature::Mbr([1, 0, 0, 0]),
        partition_format: 7,
    };
    assert_eq!(device_node_to_string(&odd).unwrap(), "HD(3,0x7,0x1,0x1,0x2)");
}

#[test]
fn guid_text() {
    let mut s = String::new();
    push_guid(&mut s, Guid(DEVICE_PATH));
    assert_eq!(s, "09576e91-6d3f-11d2-8e39-00a0c969723b");
}

#[test]
fn ucs2_with_terminator() {
    assert_eq!(str_to_cstring16_pool_alloc("Hé"), vec![0x48, 0xe9, 0]);
    assert_eq!(str_to_cstring16_pool_alloc(""), vec![0]);
}

#[test]
fn node_text_in_ucs2() {
    let node = DeviceNode::HardwarePci { device: 1, function: 0 };
    let expected: Vec<u16> = "Pci(0x1,0x0)".encode_utf16().chain(std::iter::once(0)).collect();
    assert_eq!(convert_device_node_to_text(&node), Some(expected));
    assert_eq!(convert_device_node_to_text(&DeviceNode::Other { device_type: 1, sub_type: 1 }), None);
}
