//! Turning device paths into text, as the stub firmware's device path to
//! text protocol does.

use crate::guid::Guid;
use crate::text::{
    alt_hex_upper, decimal, hex_lower_fixed, push_alt_hex_upper, push_char, push_decimal,
    push_hex_lower_fixed, push_str,
};
use vstd::prelude::*;

verus! {

/// The ACPI hardware ID of a PCI root bridge.
pub const PCI_ROOT_HID: u32 = 0x41d0_0a03;

/// The partition format of an MBR partition.
pub const PARTITION_FORMAT_MBR: u8 = 0x01;

/// The partition format of a GPT partition.
pub const PARTITION_FORMAT_GPT: u8 = 0x02;

/// The signature of a hard drive partition.
#[derive(Clone, Copy, Debug)]
pub enum PartitionSignature {
    /// No signature.
    NoSignature,
    /// An MBR signature: four bytes.
    Mbr([u8; 4]),
    /// A GPT partition GUID.
    Guid(Guid),
    /// A signature of an unknown type.
    Unknown { signature_type: u8 },
}

/// A node of a device path, with the fields that its text shows.
#[derive(Debug)]
pub enum DeviceNode {
    /// An ACPI device.
    AcpiAcpi { hid: u32, uid: u32 },
    /// A PCI device.
    HardwarePci { device: u8, function: u8 },
    /// A hard drive partition.
    MediaHardDrive {
        partition_number: u32,
        partition_start: u64,
        partition_size: u64,
        partition_signature: PartitionSignature,
        partition_format: u8,
    },
    /// A file path.
    MediaFilePath { path_name: String },
    /// A SATA device.
    MessagingSata { hba_port_number: u16, port_multiplier_port_number: u16, logical_unit_number: u16 },
    /// Any other kind of node, by its type and subtype.
    Other { device_type: u8, sub_type: u8 },
}

/// A GUID in its usual text form: lower-case hexadecimal in groups of 8, 4,
/// 4, 4 and 12 digits joined by dashes; the first three groups read their
/// bytes in little-endian order, the last two in memory order.
pub open spec fn guid_text(g: Guid) -> Seq<char> {
    let v = g.0 as nat;
    hex_lower_fixed(v % 0x1_0000_0000, 8) + seq!['-'] + hex_lower_fixed((v / 0x1_0000_0000)
        % 0x1_0000, 4) + seq!['-'] + hex_lower_fixed((v / 0x1_0000_0000_0000) % 0x1_0000, 4)
        + seq!['-'] + guid_byte_text(v, 8) + guid_byte_text(v, 9) + seq!['-'] + guid_byte_text(
        v,
        10,
    ) + guid_byte_text(v, 11) + guid_byte_text(v, 12) + guid_byte_text(v, 13) + guid_byte_text(
        v,
        14,
    ) + guid_byte_text(v, 15)
}

/// Byte `i` of the GUID value `v` as two lower-case hexadecimal digits.
pub open spec fn guid_byte_text(v: nat, i: nat) -> Seq<char> {
    hex_lower_fixed((v / byte_weight(i)) % 256, 2)
}

/// The weight of byte `i` (from 8 to 15) of a GUID value.
pub open spec fn byte_weight(i: nat) -> nat {
    if i == 8 {
        0x1_0000_0000_0000_0000
    } else     if i == 9 {
        0x100_0000_0000_0000_0000
    } else     if i == 10 {
        0x1_0000_0000_0000_0000_0000
    } else     if i == 11 {
        0x100_0000_0000_0000_0000_0000
    } else     if i == 12 {
        0x1_0000_0000_0000_0000_0000_0000
    } else     if i == 13 {
        0x100_0000_0000_0000_0000_0000_0000
    } else     if i == 14 {
        0x1_0000_0000_0000_0000_0000_0000_0000
    } else {
        0x100_0000_0000_0000_0000_0000_0000_0000
    }
}

/// The number whose little-endian bytes are the four bytes of an MBR
/// signature.
pub open spec fn le_u32(b: Seq<u8>) -> nat {
    (b[0] + 256 * b[1] + 65536 * b[2] + 16777216 * b[3]) as nat
}

/// The text of a partition format.
pub open spec fn partition_format_text(format: u8) -> Seq<char> {
    if format == PARTITION_FORMAT_MBR {
        seq!['M', 'B', 'R']
    } else if format == PARTITION_FORMAT_GPT {
        seq!['G', 'P', 'T']
    } else {
        alt_hex_upper(format as nat)
    }
}

/// The text of a partition signature, if it has one.
pub open spec fn partition_signature_text(sig: PartitionSignature) -> Option<Seq<char>> {
    match sig {
        PartitionSignature::Mbr(b) => Some(alt_hex_upper(le_u32(b@))),
        PartitionSignature::Guid(g) => Some(guid_text(g)),
        _ => None,
    }
}

/// The text of a device node, if the stub can show it.
pub open spec fn node_text(node: DeviceNode) -> Option<Seq<char>> {
    match node {
        DeviceNode::AcpiAcpi { hid, .. } => if hid == PCI_ROOT_HID {
            Some(seq!['P', 'c', 'i', 'R', 'o', 'o', 't', '(', '0', 'x', '0', ')'])
        } else {
            None
        },
        DeviceNode::HardwarePci { device, function } => Some(
            seq!['P', 'c', 'i', '('] + alt_hex_upper(device as nat) + seq![','] + alt_hex_upper(
                function as nat,
            ) + seq![')'],
        ),
        DeviceNode::MediaHardDrive {
            partition_number,
            partition_start,
            partition_size,
            partition_signature,
            partition_format,
        } => match partition_signature_text(partition_signature) {
            Some(sig) => Some(
                seq!['H', 'D', '('] + decimal(partition_number as nat) + seq![',']
                    + partition_format_text(partition_format) + seq![','] + sig + seq![',']
                    + alt_hex_upper(partition_start as nat) + seq![','] + alt_hex_upper(
                    partition_size as nat,
                ) + seq![')'],
            ),
            None => None,
        },
        DeviceNode::MediaFilePath { path_name } => Some(path_name@),
        DeviceNode::MessagingSata {
            hba_port_number,
            port_multiplier_port_number,
            logical_unit_number,
        } => Some(
            seq!['S', 'a', 't', 'a', '('] + alt_hex_upper(hba_port_number as nat) + seq![',']
                + alt_hex_upper(port_multiplier_port_number as nat) + seq![','] + alt_hex_upper(
                logical_unit_number as nat,
            ) + seq![')'],
        ),
        DeviceNode::Other { .. } => None,
    }
}

/// Appends the text of a GUID.
pub fn push_guid(s: &mut String, g: Guid)
    ensures
        final(s)@ == old(s)@ + guid_text(g),
{
    let v = g.0;
    push_hex_lower_fixed(s, v % 0x1_0000_0000, 8);
    push_char(s, '-');
    push_hex_lower_fixed(s, (v / 0x1_0000_0000) % 0x1_0000, 4);
    push_char(s, '-');
    push_hex_lower_fixed(s, (v / 0x1_0000_0000_0000) % 0x1_0000, 4);
    push_char(s, '-');
    push_hex_lower_fixed(s, (v / 0x1_0000_0000_0000_0000) % 256, 2);
    push_hex_lower_fixed(s, (v / 0x100_0000_0000_0000_0000) % 256, 2);
    push_char(s, '-');
    push_hex_lower_fixed(s, (v / 0x1_0000_0000_0000_0000_0000) % 256, 2);
    push_hex_lower_fixed(s, (v / 0x100_0000_0000_0000_0000_0000) % 256, 2);
    push_hex_lower_fixed(s, (v / 0x1_0000_0000_0000_0000_0000_0000) % 256, 2);
    push_hex_lower_fixed(s, (v / 0x100_0000_0000_0000_0000_0000_0000) % 256, 2);
    push_hex_lower_fixed(s, (v / 0x1_0000_0000_0000_0000_0000_0000_0000) % 256, 2);
    push_hex_lower_fixed(s, (v / 0x100_0000_0000_0000_0000_0000_0000_0000) % 256, 2);
    assert(s@ =~= old(s)@ + guid_text(g));
}

/// Appends the text of an MBR signature: its bytes read as a little-endian
/// number, as `{:#X}` writes it.
fn push_mbr_signature(s: &mut String, b: [u8; 4])
    ensures
        final(s)@ == old(s)@ + alt_hex_upper(le_u32(b@)),
{
    let v: u64 = b[0] as u64 + 256 * (b[1] as u64) + 65536 * (b[2] as u64) + 16777216 * (b[3] as u64);
    push_alt_hex_upper(s, v);
}

/// The text of a device node, or `None` for nodes the stub does not show.
pub fn device_node_to_string(node: &DeviceNode) -> (r: Option<String>)
    ensures
        match r {
            Some(t) => node_text(*node) == Some(t@),
            None => node_text(*node) is None,
        },
{
    match node {
        DeviceNode::AcpiAcpi { hid, .. } => {
            if *hid == PCI_ROOT_HID {
                let mut s = String::new();
                push_str(&mut s, "PciRoot(0x0)");
                proof {
                    reveal_strlit("PciRoot(0x0)");
                }
                assert(s@ =~= seq!['P', 'c', 'i', 'R', 'o', 'o', 't', '(', '0', 'x', '0', ')']);
                Some(s)
            } else {
                None
            }
        },
        DeviceNode::HardwarePci { device, function } => {
            let mut s = String::new();
            push_str(&mut s, "Pci(");
            push_alt_hex_upper(&mut s, *device as u64);
            push_char(&mut s, ',');
            push_alt_hex_upper(&mut s, *function as u64);
            push_char(&mut s, ')');
            proof {
                reveal_strlit("Pci(");
            }
            assert(s@ =~= seq!['P', 'c', 'i', '('] + alt_hex_upper(*device as nat) + seq![',']
                + alt_hex_upper(*function as nat) + seq![')']);
            Some(s)
        },
        DeviceNode::MediaHardDrive {
            partition_number,
            partition_start,
            partition_size,
            partition_signature,
            partition_format,
        } => {
            let mut sig = String::new();
            match partition_signature {
                PartitionSignature::Mbr(b) => push_mbr_signature(&mut sig, *b),
                PartitionSignature::Guid(g) => push_guid(&mut sig, *g),
                _ => {
                    return None;
                },
            }
            let mut s = String::new();
            push_str(&mut s, "HD(");
            push_decimal(&mut s, *partition_number as u64);
            push_char(&mut s, ',');
            if *partition_format == PARTITION_FORMAT_MBR {
                push_str(&mut s, "MBR");
            } else if *partition_format == PARTITION_FORMAT_GPT {
                push_str(&mut s, "GPT");
            } else {
                push_alt_hex_upper(&mut s, *partition_format as u64);
            }
            push_char(&mut s, ',');
            push_str(&mut s, sig.as_str());
            push_char(&mut s, ',');
            push_alt_hex_upper(&mut s, *partition_start);
            push_char(&mut s, ',');
            push_alt_hex_upper(&mut s, *partition_size);
            push_char(&mut s, ')');
            proof {
                reveal_strlit("HD(");
                reveal_strlit("MBR");
                reveal_strlit("GPT");
            }
            assert(s@ =~= seq!['H', 'D', '('] + decimal(*partition_number as nat) + seq![',']
                + partition_format_text(*partition_format) + seq![','] + sig@ + seq![',']
                + alt_hex_upper(*partition_start as nat) + seq![','] + alt_hex_upper(
                *partition_size as nat,
            ) + seq![')']);
            Some(s)
        },
        DeviceNode::MediaFilePath { path_name } => Some(path_name.clone()),
        DeviceNode::MessagingSata {
            hba_port_number,
            port_multiplier_port_number,
            logical_unit_number,
        } => {
            let mut s = String::new();
            push_str(&mut s, "Sata(");
            push_alt_hex_upper(&mut s, *hba_port_number as u64);
            push_char(&mut s, ',');
            push_alt_hex_upper(&mut s, *port_multiplier_port_number as u64);
            push_char(&mut s, ',');
            push_alt_hex_upper(&mut s, *logical_unit_number as u64);
            push_char(&mut s, ')');
            proof {
                reveal_strlit("Sata(");
            }
            assert(s@ =~= seq!['S', 'a', 't', 'a', '('] + alt_hex_upper(*hba_port_number as nat)
                + seq![','] + alt_hex_upper(*port_multiplier_port_number as nat) + seq![',']
                + alt_hex_upper(*logical_unit_number as nat) + seq![')']);
            Some(s)
        },
        DeviceNode::Other { .. } => None,
    }
}

/// The texts of `nodes` joined by `/`.
pub open spec fn joined_text(nodes: Seq<DeviceNode>) -> Seq<char>
    decreases nodes.len(),
{
    if nodes.len() == 0 {
        Seq::empty()
    } else if nodes.len() == 1 {
        node_text(nodes[0]).unwrap()
    } else {
        joined_text(nodes.drop_last()) + seq!['/'] + node_text(nodes.last()).unwrap()
    }
}

/// The text of a device path: the texts of its nodes joined by `/`. Every
/// node must have a text.
pub fn convert_device_path_to_text(nodes: &[DeviceNode]) -> (r: String)
    requires
        forall|i: int| 0 <= i < nodes@.len() ==> #[trigger] node_text(nodes@[i]) is Some,
    ensures
        r@ == joined_text(nodes@),
{
    let mut s = String::new();
    let mut i: usize = 0;
    while i < nodes.len()
        invariant
            i <= nodes@.len(),
            forall|k: int| 0 <= k < nodes@.len() ==> #[trigger] node_text(nodes@[k]) is Some,
            s@ == joined_text(nodes@.subrange(0, i as int)),
        decreases nodes@.len() - i,
    {
        assert(node_text(nodes@[i as int]) is Some);
        let t = match device_node_to_string(&nodes[i]) {
            Some(t) => t,
            None => {
                return s;
            },
        };
        if i > 0 {
            push_char(&mut s, '/');
        }
        push_str(&mut s, t.as_str());
        i = i + 1;
        assert(nodes@.subrange(0, i as int).drop_last() =~= nodes@.subrange(0, i - 1));
        assert(s@ =~= joined_text(nodes@.subrange(0, i as int)));
    }
    assert(nodes@.subrange(0, nodes@.len() as int) =~= nodes@);
    s
}

/// Whether a string has a UCS-2 form: every character fits in 16 bits
/// and none is the null character.
pub open spec fn ucs2_encodable(s: Seq<char>) -> bool {
    forall|i: int| 0 <= i < s.len() ==> 0 < (#[trigger] s[i] as u32) <= 0xffff
}

/// A string as a null-terminated UCS-2 string, the way the stub hands text
/// to its callers.
pub fn str_to_cstring16_pool_alloc(s: &str) -> (r: Vec<u16>)
    requires
        ucs2_encodable(s@),
    ensures
        r@.len() == s@.len() + 1,
        forall|i: int| 0 <= i < s@.len() ==> r@[i] == #[trigger] s@[i] as u32,
        r@.last() == 0,
{
    let chars = crate::text::chars_of(s);
    let mut r: Vec<u16> = Vec::new();
    let mut i: usize = 0;
    while i < chars.len()
        invariant
            chars@ == s@,
            ucs2_encodable(s@),
            i <= chars@.len(),
            r@.len() == i,
            forall|k: int| 0 <= k < i ==> r@[k] == #[trigger] s@[k] as u32,
        decreases chars@.len() - i,
    {
        let c = chars[i] as u32;
        assert(0 < s@[i as int] as u32 <= 0xffff);
        r.push(c as u16);
        i = i + 1;
    }
    r.push(0);
    r
}


/// The text of a device node in null-terminated UCS-2, or `None` (null)
/// where the stub cannot show the node.
pub fn convert_device_node_to_text(node: &DeviceNode) -> (r: Option<Vec<u16>>)
    requires
        node_text(*node) matches Some(t) ==> ucs2_encodable(t),
    ensures
        match node_text(*node) {
            None => r is None,
            Some(t) => r matches Some(v) && v@.len() == t.len() + 1 && v@.last() == 0 && forall|i: int|
                0 <= i < t.len() ==> v@[i] == #[trigger] t[i] as u32,
        },
{
    match device_node_to_string(node) {
        None => None,
        Some(s) => Some(str_to_cstring16_pool_alloc(s.as_str())),
    }
}

} // verus!
