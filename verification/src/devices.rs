//! Turning what sysfs says about a block device into a [`DeviceInfo`]: which
//! kernel names are never targets, which disks are offered, the display name
//! and vendor, the bus label, and the order of the list. Reading the sysfs
//! files and walking to the USB node happens outside; this module receives
//! their contents.
use crate::device::DeviceInfo;
use crate::helpers::trimmed_opt;
use crate::text::{
    append_chars, chars_eq, chars_of, contains, eq_ignore_ascii_case, eq_ignore_case, is_prefix,
    parse_u32_chars, parse_u32_spec, parse_u64_chars, parse_u64_spec, seq_contains,
    starts_with, string_from_chars, to_lowercase_unicode, trim, trim_chars, unicode_lower,
};
use vstd::prelude::*;

verus! {

broadcast use vstd::seq_lib::group_to_multiset_ensures;

/// The characters of an optional string.
pub open spec fn opt_chars(o: Option<String>) -> Option<Seq<char>> {
    match o {
        Some(s) => Some(s@),
        None => None,
    }
}

/// Whole-disk name prefixes that are never valid USB targets.
pub open spec fn skip_prefixes() -> Seq<Seq<char>> {
    seq!["loop"@, "ram"@, "zram"@, "sr"@, "dm-"@, "md"@]
}

/// A kernel block-device name that is never offered as a target.
pub open spec fn is_skipped_name(name: Seq<char>) -> bool {
    exists|i: int| 0 <= i < skip_prefixes().len() && is_prefix(#[trigger] skip_prefixes()[i], name)
}

/// Whether a kernel block-device name is never offered as a target (loop,
/// RAM, optical, device-mapper and MD devices).
pub fn skipped_name(name: &str) -> (r: bool)
    ensures
        r == is_skipped_name(name@),
{
    let n = chars_of(name);
    let prefixes = ["loop", "ram", "zram", "sr", "dm-", "md"];
    let mut i: usize = 0;
    while i < 6
        invariant
            0 <= i <= 6,
            n@ == name@,
            forall|j: int| 0 <= j < 6 ==> (#[trigger] prefixes@[j])@ == skip_prefixes()[j],
            forall|j: int| 0 <= j < i ==> !is_prefix(#[trigger] skip_prefixes()[j], name@),
        decreases 6 - i,
    {
        let p = chars_of(prefixes[i]);
        if starts_with(&n, &p) {
            return true;
        }
        i += 1;
    }
    false
}

/// The contents of a sysfs attribute, trimmed; `None` when it was missing or
/// blank.
pub open spec fn trimmed_value(text: Option<Seq<char>>) -> Option<Seq<char>> {
    match text {
        Some(t) => if trim(t).len() > 0 {
            Some(trim(t))
        } else {
            None
        },
        None => None,
    }
}

/// A sysfs attribute's contents, trimmed; `None` when missing or blank.
pub fn read_trimmed(text: Option<&str>) -> (r: Option<String>)
    ensures
        opt_chars(r) == trimmed_value(opt_str(text)),
{
    match text {
        Some(t) => trimmed_opt(t),
        None => None,
    }
}

/// The characters of an optional string slice.
pub open spec fn opt_str(o: Option<&str>) -> Option<Seq<char>> {
    match o {
        Some(s) => Some(s@),
        None => None,
    }
}

/// A sysfs boolean flag: set when its trimmed contents are exactly `1`.
pub open spec fn flag_value(text: Option<Seq<char>>) -> bool {
    match text {
        Some(t) => trim(t) == "1"@,
        None => false,
    }
}

/// Whether a sysfs boolean flag file reads `1`.
pub fn read_flag(text: Option<&str>) -> (r: bool)
    ensures
        r == flag_value(opt_str(text)),
{
    match text {
        Some(t) => {
            let v = chars_of(t);
            let tv = trim_chars(&v);
            let one = chars_of("1");
            chars_eq(&tv, &one)
        },
        None => false,
    }
}

/// A sysfs number: the trimmed contents parsed as a `u64`.
pub open spec fn u64_value(text: Option<Seq<char>>) -> Option<u64> {
    match text {
        Some(t) => parse_u64_spec(trim(t)),
        None => None,
    }
}

/// A sysfs number file's value.
pub fn read_u64(text: Option<&str>) -> (r: Option<u64>)
    ensures
        r == u64_value(opt_str(text)),
{
    match text {
        Some(t) => {
            let v = chars_of(t);
            let tv = trim_chars(&v);
            parse_u64_chars(&tv)
        },
        None => None,
    }
}

/// USB device descriptor fields read from the device's USB node.
#[derive(Debug, Clone)]
pub struct UsbDescriptor {
    /// `manufacturer`, trimmed.
    pub manufacturer: Option<String>,
    /// `product`, trimmed.
    pub product: Option<String>,
    /// `serial`, trimmed.
    pub serial: Option<String>,
    /// Negotiated bus speed in Mbps (12, 480, 5000, 10000, ...).
    pub speed_mbps: Option<u32>,
}

/// The descriptor built from the raw contents of a USB node's
/// `manufacturer`, `product`, `serial` and `speed` files.
pub fn usb_descriptor(
    manufacturer: Option<&str>,
    product: Option<&str>,
    serial: Option<&str>,
    speed: Option<&str>,
) -> (r: UsbDescriptor)
    ensures
        opt_chars(r.manufacturer) == trimmed_value(opt_str(manufacturer)),
        opt_chars(r.product) == trimmed_value(opt_str(product)),
        opt_chars(r.serial) == trimmed_value(opt_str(serial)),
        r.speed_mbps == match trimmed_value(opt_str(speed)) {
            Some(s) => parse_u32_spec(s),
            None => None,
        },
{
    let speed_text = read_trimmed(speed);
    let speed_mbps = match speed_text {
        Some(s) => {
            let v = chars_of(s.as_str());
            parse_u32_chars(&v)
        },
        None => None,
    };
    UsbDescriptor {
        manufacturer: read_trimmed(manufacturer),
        product: read_trimmed(product),
        serial: read_trimmed(serial),
        speed_mbps,
    }
}

/// The vendor shown for a device: the USB manufacturer, else the SCSI
/// vendor unless that is the generic `ATA`.
pub open spec fn chosen_vendor(usb_vendor: Option<Seq<char>>, scsi_vendor: Option<Seq<char>>) -> Option<Seq<char>> {
    match usb_vendor {
        Some(v) => Some(v),
        None => match scsi_vendor {
            Some(v) => if eq_ignore_case(v, "ATA"@) {
                None
            } else {
                Some(v)
            },
            None => None,
        },
    }
}

/// The model shown for a device: the USB product, else the SCSI model;
/// nothing when that is empty.
pub open spec fn chosen_model(usb_product: Option<Seq<char>>, scsi_model: Option<Seq<char>>) -> Option<Seq<char>> {
    let m = match usb_product {
        Some(p) => Some(p),
        None => scsi_model,
    };
    match m {
        Some(s) => if s.len() > 0 {
            Some(s)
        } else {
            None
        },
        None => None,
    }
}

/// The display name: `vendor model`, unless the model already starts with
/// the vendor (case-insensitively) or equals it; else whichever is known.
pub open spec fn display_name(vendor: Option<Seq<char>>, model: Option<Seq<char>>) -> Seq<char> {
    match model {
        Some(m) => match vendor {
            Some(v) => if !is_prefix(unicode_lower(v), unicode_lower(m)) && !eq_ignore_case(v, m) {
                v + " "@ + m
            } else {
                m
            },
            None => m,
        },
        None => match vendor {
            Some(v) => v,
            None => Seq::empty(),
        },
    }
}

/// The descriptor's product, or nothing without a descriptor.
pub open spec fn usb_product(usb: Option<UsbDescriptor>) -> Option<Seq<char>> {
    match usb {
        Some(u) => opt_chars(u.product),
        None => None,
    }
}

/// The descriptor's manufacturer, or nothing without a descriptor.
pub open spec fn usb_vendor(usb: Option<UsbDescriptor>) -> Option<Seq<char>> {
    match usb {
        Some(u) => opt_chars(u.manufacturer),
        None => None,
    }
}

fn clone_opt(o: &Option<String>) -> (r: Option<String>)
    ensures
        opt_chars(r) == opt_chars(*o),
{
    match o {
        Some(s) => Some(s.clone()),
        None => None,
    }
}

/// Choose the display name and vendor of a device from its SCSI `model` and
/// `vendor` (trimmed, as [`read_trimmed`] gives them) and its USB descriptor,
/// whose strings are preferred.
pub fn pick_name(scsi_model: Option<String>, scsi_vendor: Option<String>, usb: Option<&UsbDescriptor>) -> (r: (
    String,
    Option<String>,
))
    ensures
        ({
            let u = match usb {
                Some(d) => Some(*d),
                None => None,
            };
            let vendor = chosen_vendor(usb_vendor(u), opt_chars(scsi_vendor));
            let model = chosen_model(usb_product(u), opt_chars(scsi_model));
            &&& opt_chars(r.1) == vendor
            &&& r.0@ == display_name(vendor, model)
        }),
{
    let ghost u = match usb {
        Some(d) => Some(*d),
        None => None,
    };
    let ata = chars_of("ATA");
    let scsi_vendor = match scsi_vendor {
        Some(v) => {
            let vc = chars_of(v.as_str());
            if eq_ignore_ascii_case(&vc, &ata) {
                None
            } else {
                Some(v)
            }
        },
        None => None,
    };
    let (usb_prod, usb_vend) = match usb {
        Some(d) => (clone_opt(&d.product), clone_opt(&d.manufacturer)),
        None => (None, None),
    };
    let model = match usb_prod {
        Some(p) => Some(p),
        None => scsi_model,
    };
    let model = match model {
        Some(s) => if chars_of(s.as_str()).len() > 0 {
            Some(s)
        } else {
            None
        },
        None => None,
    };
    let vendor = match usb_vend {
        Some(v) => Some(v),
        None => scsi_vendor,
    };
    let display = match &model {
        Some(m) => match &vendor {
            Some(v) => {
                let ml = to_lowercase_unicode(m.as_str());
                let vl = to_lowercase_unicode(v.as_str());
                let mlc = chars_of(ml.as_str());
                let vlc = chars_of(vl.as_str());
                let mc = chars_of(m.as_str());
                let vc = chars_of(v.as_str());
                if !starts_with(&mlc, &vlc) && !eq_ignore_ascii_case(&vc, &mc) {
                    let mut out: Vec<char> = Vec::new();
                    append_chars(&mut out, &vc);
                    let sp = chars_of(" ");
                    append_chars(&mut out, &sp);
                    append_chars(&mut out, &mc);
                    string_from_chars(&out)
                } else {
                    m.clone()
                }
            },
            None => m.clone(),
        },
        None => match &vendor {
            Some(v) => v.clone(),
            None => String::new(),
        },
    };
    (display, vendor)
}

/// The bus label for a USB link speed in Mbps.
pub open spec fn speed_label(speed: Option<u32>) -> Seq<char> {
    match speed {
        Some(12) => "USB 1.1"@,
        Some(480) => "USB 2.0"@,
        Some(5000) => "USB 3.0"@,
        Some(10000) => "USB 3.1"@,
        Some(20000) => "USB 3.2"@,
        _ => "USB"@,
    }
}

/// The bus label of a device: from the USB speed when it has a USB
/// descriptor, else from the kernel name (NVMe, SD/eMMC, SATA), else none.
pub open spec fn bus_of(name: Seq<char>, usb: Option<UsbDescriptor>) -> Option<Seq<char>> {
    match usb {
        Some(u) => Some(speed_label(u.speed_mbps)),
        None => if is_prefix("nvme"@, name) {
            Some("NVMe"@)
        } else if is_prefix("mmcblk"@, name) {
            Some("SD/eMMC"@)
        } else if is_prefix("sd"@, name) {
            Some("SATA"@)
        } else {
            None
        },
    }
}

/// Map the device name and USB speed to a short bus label.
pub fn classify_bus(name: &str, usb: Option<&UsbDescriptor>) -> (r: Option<String>)
    ensures
        opt_chars(r) == bus_of(
            name@,
            match usb {
                Some(d) => Some(*d),
                None => None,
            },
        ),
{
    if let Some(u) = usb {
        let label = match u.speed_mbps {
            Some(12) => "USB 1.1",
            Some(480) => "USB 2.0",
            Some(5000) => "USB 3.0",
            Some(10000) => "USB 3.1",
            Some(20000) => "USB 3.2",
            _ => "USB",
        };
        return Some(string_from_chars(&chars_of(label)));
    }
    let n = chars_of(name);
    if starts_with(&n, &chars_of("nvme")) {
        return Some(string_from_chars(&chars_of("NVMe")));
    }
    if starts_with(&n, &chars_of("mmcblk")) {
        return Some(string_from_chars(&chars_of("SD/eMMC")));
    }
    if starts_with(&n, &chars_of("sd")) {
        return Some(string_from_chars(&chars_of("SATA")));
    }
    None
}

/// What sysfs says about one entry of `/sys/block`: the raw contents of the
/// files the enumerator looks at.
#[derive(Debug, Clone)]
pub struct SysfsBlock {
    /// The entry's name (the kernel device name, e.g. `sdb`).
    pub name: String,
    /// Contents of `removable`.
    pub removable: Option<String>,
    /// The entry's canonical path, when it resolves.
    pub canonical_path: Option<String>,
    /// Contents of `size` (in 512-byte sectors).
    pub size: Option<String>,
    /// Contents of `device/model`.
    pub model: Option<String>,
    /// Contents of `device/vendor`.
    pub vendor: Option<String>,
    /// The descriptor of the USB node above the device, if there is one.
    pub usb: Option<UsbDescriptor>,
}

/// Whether the resolved path runs through a USB node.
pub open spec fn on_usb(canonical_path: Option<String>) -> bool {
    match canonical_path {
        Some(p) => seq_contains(p@, "/usb"@),
        None => false,
    }
}

/// The sectors `size` reports, or 0.
pub open spec fn sectors_of(b: SysfsBlock) -> nat {
    match u64_value(opt_chars(b.size)) {
        Some(n) => n as nat,
        None => 0,
    }
}

/// An entry that is offered as a target: not a skipped name, removable or on
/// USB unless fixed disks are included, and not empty.
pub open spec fn offered(b: SysfsBlock, include_fixed: bool) -> bool {
    &&& !is_skipped_name(b.name@)
    &&& (include_fixed || flag_value(opt_chars(b.removable)) || on_usb(b.canonical_path))
    &&& sectors_of(b) > 0
}

fn opt_as_str(o: &Option<String>) -> (r: Option<&str>)
    ensures
        opt_str(r) == opt_chars(*o),
{
    match o {
        Some(s) => Some(s.as_str()),
        None => None,
    }
}

/// The device an entry of `/sys/block` describes, when it is offered as a
/// target (see [`offered`]); `None` for an entry that is skipped.
pub fn device_from_sysfs(b: &SysfsBlock, include_fixed: bool) -> (r: Option<DeviceInfo>)
    requires
        sectors_of(*b) * 512 <= u64::MAX,
    ensures
        r is Some <==> offered(*b, include_fixed),
        r matches Some(d) ==> {
            let vendor = chosen_vendor(usb_vendor(b.usb), trimmed_value(opt_chars(b.vendor)));
            let model = chosen_model(usb_product(b.usb), trimmed_value(opt_chars(b.model)));
            &&& d.path@ == "/dev/"@ + b.name@
            &&& d.model@ == display_name(vendor, model)
            &&& d.size == sectors_of(*b) * 512
            &&& d.removable == (flag_value(opt_chars(b.removable)) || on_usb(b.canonical_path))
            &&& opt_chars(d.bus) == bus_of(b.name@, b.usb)
            &&& opt_chars(d.serial) == match b.usb {
                Some(u) => opt_chars(u.serial),
                None => None,
            }
            &&& opt_chars(d.vendor) == vendor
        },
{
    if skipped_name(b.name.as_str()) {
        return None;
    }
    let removable = read_flag(opt_as_str(&b.removable));
    let is_usb = match &b.canonical_path {
        Some(p) => {
            let pc = chars_of(p.as_str());
            contains(&pc, &chars_of("/usb"))
        },
        None => false,
    };
    if !include_fixed && !removable && !is_usb {
        return None;
    }
    let sectors = match read_u64(opt_as_str(&b.size)) {
        Some(n) => n,
        None => 0,
    };
    let size = sectors * 512;
    if size == 0 {
        return None;
    }
    let usb = match &b.usb {
        Some(u) => Some(u),
        None => None,
    };
    let scsi_model = read_trimmed(opt_as_str(&b.model));
    let scsi_vendor = read_trimmed(opt_as_str(&b.vendor));
    let (model, vendor) = pick_name(scsi_model, scsi_vendor, usb);
    let bus = classify_bus(b.name.as_str(), usb);
    let serial = match &b.usb {
        Some(u) => clone_opt(&u.serial),
        None => None,
    };
    let mut path = chars_of("/dev/");
    append_chars(&mut path, &chars_of(b.name.as_str()));
    Some(
        DeviceInfo {
            path: string_from_chars(&path),
            model,
            size,
            removable: removable || is_usb,
            bus,
            serial,
            vendor,
        },
    )
}

/// Strict order of strings as `str::cmp` compares them: UTF-8 byte order,
/// which is the order of code points, character by character.
pub open spec fn chars_lt(a: Seq<char>, b: Seq<char>) -> bool
    decreases a.len(),
{
    if a.len() == 0 {
        b.len() > 0
    } else if b.len() == 0 {
        false
    } else if a[0] != b[0] {
        (a[0] as u32) < (b[0] as u32)
    } else {
        chars_lt(a.drop_first(), b.drop_first())
    }
}

/// The order is transitive.
pub proof fn lemma_chars_lt_transitive(a: Seq<char>, b: Seq<char>, c: Seq<char>)
    requires
        chars_lt(a, b),
        chars_lt(b, c),
    ensures
        chars_lt(a, c),
    decreases a.len(),
{
    if a.len() > 0 && b.len() > 0 && c.len() > 0 && a[0] == b[0] && b[0] == c[0] {
        lemma_chars_lt_transitive(a.drop_first(), b.drop_first(), c.drop_first());
    }
}

/// No string is before itself.
pub proof fn lemma_chars_lt_irreflexive(a: Seq<char>)
    ensures
        !chars_lt(a, a),
    decreases a.len(),
{
    if a.len() > 0 {
        lemma_chars_lt_irreflexive(a.drop_first());
    }
}

/// Devices in order of their paths.
pub open spec fn sorted_by_path(s: Seq<DeviceInfo>) -> bool {
    forall|i: int, j: int| 0 <= i < j < s.len() ==> !chars_lt(#[trigger] s[j].path@, #[trigger] s[i].path@)
}

/// Whether `a` sorts before `b` (see [`chars_lt`]).
pub fn text_lt(a: &Vec<char>, b: &Vec<char>) -> (r: bool)
    ensures
        r == chars_lt(a@, b@),
{
    let mut i: usize = 0;
    assert(a@.skip(0) =~= a@ && b@.skip(0) =~= b@);
    while i < a.len() && i < b.len() && a[i] == b[i]
        invariant
            i <= a.len(),
            i <= b.len(),
            chars_lt(a@, b@) == chars_lt(a@.skip(i as int), b@.skip(i as int)),
        decreases a.len() - i,
    {
        assert(a@.skip(i as int).drop_first() =~= a@.skip(i + 1));
        assert(b@.skip(i as int).drop_first() =~= b@.skip(i + 1));
        i += 1;
    }
    if i == a.len() {
        return i < b.len();
    }
    if i == b.len() {
        return false;
    }
    (a[i] as u32) < (b[i] as u32)
}

/// Sort devices by their path, as the picker lists them.
pub fn sort_by_path(devices: Vec<DeviceInfo>) -> (r: Vec<DeviceInfo>)
    ensures
        r@.to_multiset() == devices@.to_multiset(),
        sorted_by_path(r@),
{
    let ghost orig = devices@;
    let mut input = devices;
    let mut out: Vec<DeviceInfo> = Vec::new();
    let mut keys: Vec<Vec<char>> = Vec::new();
    let ghost mut k: int = 0;
    assert(orig.take(0) =~= out@);
    assert(orig.skip(0) =~= input@);
    while input.len() > 0
        invariant
            0 <= k <= orig.len(),
            input@ == orig.skip(k),
            out@.to_multiset() == orig.take(k).to_multiset(),
            sorted_by_path(out@),
            keys@.len() == out@.len(),
            forall|q: int| 0 <= q < out@.len() ==> (#[trigger] keys@[q])@ == out@[q].path@,
        decreases input.len(),
    {
        let e = input.remove(0);
        let ek = chars_of(e.path.as_str());
        let mut p: usize = 0;
        let mut found = false;
        while p < out.len() && !found
            invariant
                p <= out@.len(),
                keys@.len() == out@.len(),
                forall|q: int| 0 <= q < out@.len() ==> (#[trigger] keys@[q])@ == out@[q].path@,
                ek@ == e.path@,
                found ==> p < out@.len() && chars_lt(e.path@, out@[p as int].path@),
                forall|q: int| 0 <= q < p ==> !chars_lt(e.path@, #[trigger] out@[q].path@),
            decreases out@.len() - p + (if found { 0int } else { 1int }),
        {
            if text_lt(&ek, &keys[p]) {
                found = true;
            } else {
                p += 1;
            }
        }
        let ghost before = out@;
        let ghost keys_before = keys@;
        proof {
            assert forall|i: int, j: int| 0 <= i < j < before.len() + 1 implies !chars_lt(
                #[trigger] before.insert(p as int, e)[j].path@,
                #[trigger] before.insert(p as int, e)[i].path@,
            ) by {
                let s = before.insert(p as int, e);
                if j < p {
                    assert(s[i] == before[i] && s[j] == before[j]);
                } else if j == p {
                    assert(s[i] == before[i]);
                } else if i == p {
                    assert(s[j] == before[j - 1]);
                    if chars_lt(before[j - 1].path@, e.path@) {
                        lemma_chars_lt_transitive(before[j - 1].path@, e.path@, before[p as int].path@);
                        if j - 1 == p {
                            lemma_chars_lt_irreflexive(before[p as int].path@);
                        } else {
                            assert(!chars_lt(before[j - 1].path@, before[p as int].path@));
                        }
                    }
                } else if i < p {
                    assert(s[i] == before[i] && s[j] == before[j - 1]);
                } else {
                    assert(s[i] == before[i - 1] && s[j] == before[j - 1]);
                }
            }
            assert(orig.take(k + 1) =~= orig.take(k).push(e));
        }
        out.insert(p, e);
        keys.insert(p, ek);
        proof {
            k = k + 1;
            assert(input@ =~= orig.skip(k));
            assert forall|q: int| 0 <= q < out@.len() implies (#[trigger] keys@[q])@ == out@[q].path@ by {
                if q < p {
                    assert(keys@[q] == keys_before[q] && out@[q] == before[q]);
                } else if q > p {
                    assert(keys@[q] == keys_before[q - 1] && out@[q] == before[q - 1]);
                }
            }
        }
    }
    assert(orig.take(k) =~= orig);
    out
}

/// Without fixed disks, a USB-attached disk is still offered: an entry
/// that is not a skipped name, reports some sectors, and whose resolved
/// sysfs path runs through a `/usb` node is a target whatever its
/// `removable` flag says, and it is described as removable. A removable
/// entry is offered likewise.
pub proof fn law_usb_disks_are_offered(b: SysfsBlock, include_fixed: bool, before: Seq<char>, after: Seq<char>)
    requires
        !is_skipped_name(b.name@),
        sectors_of(b) > 0,
        b.canonical_path matches Some(p) && p@ == before + "/usb"@ + after,
    ensures
        offered(b, include_fixed),
        flag_value(opt_chars(b.removable)) || on_usb(b.canonical_path),
{
    reveal_strlit("/usb");
    let p = b.canonical_path.unwrap()@;
    assert(p.subrange(before.len() as int, before.len() as int + 4) =~= "/usb"@);
    assert(crate::text::occurs_at(p, "/usb"@, before.len() as int));
}

/// Without fixed disks, an entry that is neither flagged removable nor on
/// USB is never offered.
pub proof fn law_fixed_disks_need_asking(b: SysfsBlock)
    requires
        !flag_value(opt_chars(b.removable)),
        b.canonical_path is None,
    ensures
        !offered(b, false),
{
}

} // verus!
