use oliana::pci::{
    adapter_name, fetch_pci_hw_device_names, replace_all, simplify_pci_dev_name, PciDevice,
    PciInterface, PciProbe, PciScan,
};
use pciid_parser::schema::{Device, Vendor};
use pciid_parser::Database;
use std::collections::HashMap;

fn database() -> Database {
    let mut nvidia = Vendor { name: "NVIDIA Corporation".to_string(), devices: HashMap::new() };
    nvidia.devices.insert(
        0x2204,
        Device { name: "GA102 [GeForce RTX 3090]".to_string(), subdevices: HashMap::new() },
    );
    let mut intel = Vendor { name: "Intel Corporation".to_string(), devices: HashMap::new() };
    intel.devices.insert(
        0x5917,
        Device { name: "UHD Graphics 620".to_string(), subdevices: HashMap::new() },
    );
    let amd = Vendor {
        name: "Advanced Micro Devices, Inc. [AMD/ATI]".to_string(),
        devices: HashMap::new(),
    };
    let mut vendors = HashMap::new();
    vendors.insert(0x10de, nvidia);
    vendors.insert(0x8086, intel);
    vendors.insert(0x1002, amd);
    Database { vendors, classes: HashMap::new() }
}

fn device(vendor_id: u16, device_id: u16, interface: PciInterface) -> PciProbe {
    PciProbe::Device(PciDevice {
        vendor_id,
        device_id,
        interface,
        description: format!("{:04x}:{:04x}", vendor_id, device_id),
    })
}

#[test]
fn replace_all_replaces_from_left_to_right() {
    assert_eq!(replace_all("aaaa", "aa", "b"), "bb");
    assert_eq!(replace_all("aaa", "aa", "b"), "ba");
    assert_eq!(replace_all("abcabc", "bc", ""), "aa");
    assert_eq!(replace_all("abc", "x", "y"), "abc");
    assert_eq!(replace_all("", "x", "y"), "");
    assert_eq!(replace_all("ab", "abc", "y"), "ab");
    assert_eq!(replace_all("a  b   c", "  ", " "), "a b  c");
    assert_eq!(replace_all("abc", "", "x"), "abc");
    assert_eq!(replace_all("h\u{e9}h\u{e9}", "\u{e9}", "e\u{301}"), "he\u{301}he\u{301}");
}

#[test]
fn replace_all_agrees_with_std() {
    let texts = ["", "a", "aaaaa", "abababa", "Intel Corporation Corporation", "x  y   z    "];
    let pairs = [("a", "b"), ("aba", "X"), ("Corporation", ""), ("  ", " "), ("ab", "abab")];
    for t in texts.iter() {
        for (from, to) in pairs.iter() {
            assert_eq!(replace_all(t, from, to), t.replace(from, to));
        }
    }
}

#[test]
fn names_are_simplified() {
    assert_eq!(simplify_pci_dev_name("NVIDIA Corporation"), "NVIDIA");
    assert_eq!(simplify_pci_dev_name("Intel Corporation"), "Intel");
    assert_eq!(simplify_pci_dev_name("Corporation of X"), "of X");
    assert_eq!(simplify_pci_dev_name("UHD Graphics 620"), "UHD 620");
    assert_eq!(
        simplify_pci_dev_name("Advanced Micro Devices, Inc. [AMD/ATI]"),
        "AMD, Inc. [AMD/ATI]"
    );
    assert_eq!(simplify_pci_dev_name("Advanced Micro Devices Radeon"), "AMD Radeon");
    assert_eq!(simplify_pci_dev_name("a  b"), "a b");
    assert_eq!(simplify_pci_dev_name("UNK"), "UNK");
    assert_eq!(simplify_pci_dev_name(""), "");
}

#[test]
fn adapter_line_joins_vendor_and_device() {
    assert_eq!(
        adapter_name(Some("NVIDIA Corporation"), Some("GA102 [GeForce RTX 3090]")),
        "NVIDIA GA102 [GeForce RTX 3090]"
    );
    assert_eq!(adapter_name(Some("Intel Corporation"), None), "Intel UNK");
    assert_eq!(adapter_name(None, None), "UNK UNK");
}

#[test]
fn display_adapters_are_named_from_the_database() {
    let db = database();
    let scan = PciScan::Devices(vec![
        device(0x8086, 0x1234, PciInterface::Other),
        device(0x10de, 0x2204, PciInterface::Vga),
        device(0x8086, 0x5917, PciInterface::Vga),
    ]);
    assert_eq!(
        fetch_pci_hw_device_names(&scan, Some(&db)),
        vec!["NVIDIA GA102 [GeForce RTX 3090]".to_string(), "Intel UHD 620".to_string()]
    );
}

#[test]
fn unknown_ids_are_shown_as_unk() {
    let db = database();
    let scan = PciScan::Devices(vec![
        device(0x1002, 0x73bf, PciInterface::Vga),
        device(0xffff, 0x2204, PciInterface::Vga),
    ]);
    assert_eq!(
        fetch_pci_hw_device_names(&scan, Some(&db)),
        vec!["AMD, Inc. [AMD/ATI] UNK".to_string(), "UNK UNK".to_string()]
    );
}

#[test]
fn without_a_database_the_device_is_described() {
    let scan = PciScan::Devices(vec![
        device(0x10de, 0x2204, PciInterface::Vga),
        device(0x10de, 0x0001, PciInterface::Other),
    ]);
    assert_eq!(
        fetch_pci_hw_device_names(&scan, None),
        vec!["[ NO PCI DATABASE ] 10de:2204".to_string()]
    );
}

#[test]
fn errors_of_the_scan_stand_among_the_names() {
    let db = database();
    let scan = PciScan::Devices(vec![
        PciProbe::Failed("cannot read device".to_string()),
        device(0x10de, 0x2204, PciInterface::Unknown("no interface".to_string())),
        device(0x10de, 0x2204, PciInterface::Vga),
    ]);
    assert_eq!(
        fetch_pci_hw_device_names(&scan, Some(&db)),
        vec![
            "cannot read device".to_string(),
            "no interface".to_string(),
            "NVIDIA GA102 [GeForce RTX 3090]".to_string()
        ]
    );
    let failed = PciScan::Failed("no bus".to_string());
    assert_eq!(fetch_pci_hw_device_names(&failed, Some(&db)), vec!["no bus".to_string()]);
    let empty = PciScan::Devices(Vec::new());
    assert_eq!(fetch_pci_hw_device_names(&empty, Some(&db)), Vec::<String>::new());
}
