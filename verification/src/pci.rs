//! Naming the display adapters of the host: from what a scan of the PCI bus
//! found and a database of PCI ids to one line for each adapter.

use vstd::prelude::*;

verus! {

/// A database of PCI vendor and device names.
#[verifier::external_type_specification]
#[verifier::external_body]
pub struct ExDatabase(pciid_parser::Database);

/// The vendors of a database: the name under each vendor id.
pub uninterp spec fn vendor_names(db: pciid_parser::Database) -> Map<u16, Seq<char>>;

/// The devices of a database: the name under each pair of a vendor id and a
/// device id of that vendor.
pub uninterp spec fn device_names(db: pciid_parser::Database) -> Map<(u16, u16), Seq<char>>;

/// The vendor name that a lookup gives.
pub open spec fn vendor_name_of(db: pciid_parser::Database, vendor_id: u16) -> Option<Seq<char>> {
    if vendor_names(db).contains_key(vendor_id) {
        Some(vendor_names(db)[vendor_id])
    } else {
        None
    }
}

/// The device name that a lookup gives: none for an unknown vendor.
pub open spec fn device_name_of(db: pciid_parser::Database, vendor_id: u16, device_id: u16) -> Option<
    Seq<char>,
> {
    if vendor_names(db).contains_key(vendor_id) && device_names(db).contains_key(
        (vendor_id, device_id),
    ) {
        Some(device_names(db)[(vendor_id, device_id)])
    } else {
        None
    }
}

/// The characters of a text that may be missing.
pub open spec fn name_chars(name: Option<String>) -> Option<Seq<char>> {
    match name {
        Some(text) => Some(text@),
        None => None,
    }
}

/// Looks a device up in the database.
///
/// Calls `pciid_parser::Database::get_device_info` with no subsystem and
/// copies the vendor name and the device name that it finds. The vendor
/// name is the one stored under the vendor id; the device name is the one
/// stored under the device id among that vendor's devices, so there is none
/// where the vendor is unknown.
#[verifier::external_body]
fn lookup(db: &pciid_parser::Database, vendor_id: u16, device_id: u16) -> (r: (
    Option<String>,
    Option<String>,
))
    ensures
        vendor_names(*db).contains_key(vendor_id) ==> name_chars(r.0) == Some(
            vendor_names(*db)[vendor_id],
        ),
        !vendor_names(*db).contains_key(vendor_id) ==> r.0 is None && r.1 is None,
        vendor_names(*db).contains_key(vendor_id) && device_names(*db).contains_key(
            (vendor_id, device_id),
        ) ==> name_chars(r.1) == Some(device_names(*db)[(vendor_id, device_id)]),
        !device_names(*db).contains_key((vendor_id, device_id)) ==> r.1 is None,
{
    let info = db.get_device_info(vendor_id, device_id, 0, 0);
    (info.vendor_name.map(str::to_owned), info.device_name.map(str::to_owned))
}

/// `s` with every occurrence of `from` replaced by `to`, the occurrences
/// taken from left to right and not overlapping. An empty `from` occurs
/// nowhere.
pub open spec fn replaced(s: Seq<char>, from: Seq<char>, to: Seq<char>) -> Seq<char>
    decreases s.len(),
{
    if from.len() == 0 || s.len() < from.len() {
        s
    } else if s.subrange(0, from.len() as int) == from {
        to + replaced(s.subrange(from.len() as int, s.len() as int), from, to)
    } else {
        seq![s[0]] + replaced(s.drop_first(), from, to)
    }
}

/// `from` stands in `s` at offset `at`.
pub open spec fn occurs_at(s: Seq<char>, from: Seq<char>, at: int) -> bool {
    0 <= at && at + from.len() <= s.len() && s.subrange(at, at + from.len()) == from
}

fn matches_at(s: &str, from: &str, at: usize, n: usize, k: usize) -> (r: bool)
    requires
        n == s@.len(),
        k == from@.len(),
        at + k <= n,
    ensures
        r == occurs_at(s@, from@, at as int),
{
    let mut j: usize = 0;
    while j < k
        invariant
            j <= k,
            n == s@.len(),
            k == from@.len(),
            at + k <= n,
            forall|i: int| 0 <= i < j ==> s@[at + i] == from@[i],
        decreases k - j,
    {
        if s.get_char(at + j) != from.get_char(j) {
            return false;
        }
        j = j + 1;
    }
    assert(s@.subrange(at as int, at + k) =~= from@);
    true
}

/// Replaces every occurrence of `from` in `s` by `to`. An empty `from`
/// occurs nowhere.
pub fn replace_all(s: &str, from: &str, to: &str) -> (r: String)
    ensures
        r@ == replaced(s@, from@, to@),
{
    let n: usize = s.unicode_len();
    let k: usize = from.unicode_len();
    if k == 0 {
        return String::from_str(s);
    }
    let mut out = String::new();
    let mut i: usize = 0;
    assert(s@.subrange(0, n as int) =~= s@);
    while i < n
        invariant
            i <= n,
            n == s@.len(),
            k == from@.len(),
            k > 0,
            out@ + replaced(s@.subrange(i as int, n as int), from@, to@) == replaced(
                s@,
                from@,
                to@,
            ),
        decreases n - i,
    {
        let ghost rest = s@.subrange(i as int, n as int);
        if k <= n - i && matches_at(s, from, i, n, k) {
            proof {
                assert(rest.subrange(0, k as int) =~= s@.subrange(i as int, i + k));
                assert(rest.subrange(k as int, rest.len() as int) =~= s@.subrange(
                    i + k,
                    n as int,
                ));
            }
            out.append(to);
            i = i + k;
        } else {
            let one = s.substring_char(i, i + 1);
            proof {
                assert(rest.drop_first() =~= s@.subrange(i + 1, n as int));
                if k <= n - i {
                    assert(rest.subrange(0, k as int) =~= s@.subrange(i as int, i + k));
                }
            }
            out.append(one);
            i = i + 1;
        }
    }
    out
}

/// A vendor or device name made shorter: "Corporation" and " Graphics" are
/// taken out, "Advanced Micro Devices" becomes "AMD", and two blanks in a
/// row become one.
pub open spec fn simplified(name: Seq<char>) -> Seq<char> {
    let a = replaced(name, "Corporation "@, ""@);
    let b = replaced(a, " Corporation"@, ""@);
    let c = replaced(b, "Corporation"@, ""@);
    let d = replaced(c, " Graphics"@, ""@);
    let e = replaced(d, "Advanced Micro Devices "@, "AMD "@);
    let f = replaced(e, "Advanced Micro Devices,"@, "AMD,"@);
    replaced(f, "  "@, " "@)
}

/// Makes a vendor or device name shorter.
pub fn simplify_pci_dev_name(name: &str) -> (r: String)
    ensures
        r@ == simplified(name@),
{
    let a = replace_all(name, "Corporation ", "");
    let b = replace_all(a.as_str(), " Corporation", "");
    let c = replace_all(b.as_str(), "Corporation", "");
    let d = replace_all(c.as_str(), " Graphics", "");
    let e = replace_all(d.as_str(), "Advanced Micro Devices ", "AMD ");
    let f = replace_all(e.as_str(), "Advanced Micro Devices,", "AMD,");
    replace_all(f.as_str(), "  ", " ")
}

/// What is known of a device's programming interface.
pub enum PciInterface {
    /// A VGA-compatible display controller.
    Vga,
    /// Anything else.
    Other,
    /// The interface could not be read; the text describes the error.
    Unknown(String),
}

/// A device found on the bus.
pub struct PciDevice {
    pub vendor_id: u16,
    pub device_id: u16,
    pub interface: PciInterface,
    /// A description of the device for a host without a database.
    pub description: String,
}

/// One item of a scan of the bus.
pub enum PciProbe {
    /// A device.
    Device(PciDevice),
    /// A device that could not be read; the text describes the error.
    Failed(String),
}

/// A scan of the bus.
pub enum PciScan {
    /// What was found, in the order of the scan.
    Devices(Vec<PciProbe>),
    /// The bus could not be scanned; the text describes the error.
    Failed(String),
}

/// The name to show for a vendor or a device: the simplified name, or
/// "UNK" where the database has none.
pub open spec fn shown_name(name: Option<Seq<char>>) -> Seq<char> {
    match name {
        Some(text) => simplified(text),
        None => simplified("UNK"@),
    }
}

/// The line for a display adapter whose names were looked up.
pub open spec fn adapter_line(vendor: Option<Seq<char>>, device: Option<Seq<char>>) -> Seq<char> {
    shown_name(vendor) + " "@ + shown_name(device)
}

/// The line for a display adapter on a host without a database.
pub open spec fn unnamed_line(description: Seq<char>) -> Seq<char> {
    "[ NO PCI DATABASE ] "@ + description
}

/// The line that one item of a scan gives, if it gives one: an error is
/// shown as it is, a display adapter by its names, any other device not at
/// all.
pub open spec fn probe_line(probe: PciProbe, db: Option<pciid_parser::Database>) -> Option<
    Seq<char>,
> {
    match probe {
        PciProbe::Failed(error) => Some(error@),
        PciProbe::Device(device) => match device.interface {
            PciInterface::Unknown(error) => Some(error@),
            PciInterface::Other => None,
            PciInterface::Vga => match db {
                Some(names) => Some(
                    adapter_line(
                        vendor_name_of(names, device.vendor_id),
                        device_name_of(names, device.vendor_id, device.device_id),
                    ),
                ),
                None => Some(unnamed_line(device.description@)),
            },
        },
    }
}

/// The lines that the items of a scan give, in the order of the scan.
pub open spec fn probe_lines(probes: Seq<PciProbe>, db: Option<pciid_parser::Database>) -> Seq<
    Seq<char>,
>
    decreases probes.len(),
{
    if probes.len() == 0 {
        Seq::empty()
    } else {
        let before = probe_lines(probes.drop_last(), db);
        match probe_line(probes.last(), db) {
            Some(line) => before.push(line),
            None => before,
        }
    }
}

/// The lines that a scan gives: a scan that failed gives its error.
pub open spec fn scan_lines(scan: PciScan, db: Option<pciid_parser::Database>) -> Seq<Seq<char>> {
    match scan {
        PciScan::Failed(error) => seq![error@],
        PciScan::Devices(probes) => probe_lines(probes@, db),
    }
}

/// The characters of each line.
pub open spec fn lines_of(lines: Seq<String>) -> Seq<Seq<char>> {
    Seq::new(lines.len(), |i: int| lines[i]@)
}

/// The line for a display adapter, given the names that the database has
/// for its vendor and for the device.
pub fn adapter_name(vendor: Option<&str>, device: Option<&str>) -> (r: String)
    ensures
        r@ == adapter_line(
            match vendor {
                Some(v) => Some(v@),
                None => None,
            },
            match device {
                Some(d) => Some(d@),
                None => None,
            },
        ),
{
    let mut out = match vendor {
        Some(name) => simplify_pci_dev_name(name),
        None => simplify_pci_dev_name("UNK"),
    };
    out.append(" ");
    let second = match device {
        Some(name) => simplify_pci_dev_name(name),
        None => simplify_pci_dev_name("UNK"),
    };
    out.append(second.as_str());
    out
}

fn line_of(probe: &PciProbe, db: Option<&pciid_parser::Database>) -> (r: Option<String>)
    ensures
        name_chars(r) == probe_line(
            *probe,
            match db {
                Some(names) => Some(*names),
                None => None,
            },
        ),
{
    match probe {
        PciProbe::Failed(error) => Some(error.clone()),
        PciProbe::Device(device) => match &device.interface {
            PciInterface::Unknown(error) => Some(error.clone()),
            PciInterface::Other => None,
            PciInterface::Vga => match db {
                Some(names) => {
                    let found = lookup(names, device.vendor_id, device.device_id);
                    let vendor: Option<&str> = match &found.0 {
                        Some(text) => Some(text.as_str()),
                        None => None,
                    };
                    let model: Option<&str> = match &found.1 {
                        Some(text) => Some(text.as_str()),
                        None => None,
                    };
                    Some(adapter_name(vendor, model))
                },
                None => {
                    let mut out = String::from_str("[ NO PCI DATABASE ] ");
                    out.append(device.description.as_str());
                    Some(out)
                },
            },
        },
    }
}

/// The names of the host's display adapters, one line for each, in the
/// order of the scan; errors of the scan stand among them. `db` is the
/// database of PCI ids, if the host has one.
pub fn fetch_pci_hw_device_names(scan: &PciScan, db: Option<&pciid_parser::Database>) -> (r: Vec<
    String,
>)
    ensures
        lines_of(r@) == scan_lines(
            *scan,
            match db {
                Some(names) => Some(*names),
                None => None,
            },
        ),
{
    let ghost names: Option<pciid_parser::Database> = match db {
        Some(names) => Some(*names),
        None => None,
    };
    let mut result: Vec<String> = Vec::new();
    match scan {
        PciScan::Failed(error) => {
            result.push(error.clone());
        },
        PciScan::Devices(probes) => {
            let mut i: usize = 0;
            while i < probes.len()
                invariant
                    i <= probes@.len(),
                    names == match db {
                        Some(names) => Some(*names),
                        None => None,
                    },
                    lines_of(result@) == probe_lines(probes@.take(i as int), names),
                decreases probes.len() - i,
            {
                proof {
                    assert(probes@.take(i + 1).drop_last() =~= probes@.take(i as int));
                }
                match line_of(&probes[i], db) {
                    Some(line) => {
                        result.push(line);
                    },
                    None => {},
                }
                i = i + 1;
            }
            assert(probes@.take(i as int) =~= probes@);
        },
    }
    result
}

} // verus!
