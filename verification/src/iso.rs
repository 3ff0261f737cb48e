//! Analysis of a source image: the master boot record and volume
//! descriptors read from its first sectors, the ISO9660 directories that
//! mark a Windows or Linux image, the UDF tree of modern Windows images, the
//! classification that follows, and the SBAT revocation scan of its EFI
//! loaders. Reading the ISO9660 directories (through `cdfs`) and the raw
//! sectors happens outside; the UDF tree is read here through an
//! [`ImageSource`].
use crate::iso_report::{detect_spec, DistroFamily, IsoReport, OsKind, RootEntry};
use crate::revocation::{
    entries_view, evaluate_sbat, extract_sbat, extract_sbat_spec, lookup_level, parse_sbat_section,
    sbat_rows, sbat_warning, sbat_warnings, strings_view, RevocationDb, SbatEntry,
};
use crate::text::{
    append_chars, chars_of, contains, text_lines, ends_with, eq_ignore_case, is_prefix, is_suffix, lowercase,
    seq_contains, seq_lower, starts_with, string_from_chars, to_lowercase_unicode, unicode_lower,
    utf8_lossy, utf8_lossy_string,
};
use crate::udf::{file_size_spec, list_spec, open_spec, seg_views, DirEntry, ImageSource, UdfFs};
use vstd::prelude::*;

verus! {

/// FAT32's single-file ceiling.
pub const FOUR_GIB: u64 = 0xFFFF_FFFF;

/// An isohybrid image: the first sector ends in the `55 AA` boot signature
/// and one of its four partition entries (from byte 446, 16 bytes each) has
/// a type (its byte 4).
pub open spec fn isohybrid_spec(mbr: Seq<u8>) -> bool {
    &&& mbr[510] == 0x55
    &&& mbr[511] == 0xAA
    &&& (mbr[450] != 0 || mbr[466] != 0 || mbr[482] != 0 || mbr[498] != 0)
}

/// Whether the image's first sector (when it could be read) makes it an
/// isohybrid image, directly DD-bootable.
pub fn detect_isohybrid(mbr: Option<&[u8]>) -> (r: bool)
    requires
        mbr matches Some(m) ==> m@.len() == 512,
    ensures
        r == match mbr {
            Some(m) => isohybrid_spec(m@),
            None => false,
        },
{
    let m = match mbr {
        Some(m) => m,
        None => {
            return false;
        },
    };
    if m[510] != 0x55 || m[511] != 0xAA {
        return false;
    }
    m[450] != 0 || m[466] != 0 || m[482] != 0 || m[498] != 0
}

/// A volume descriptor carries the `CD001` identifier at bytes 1..6.
pub open spec fn is_cd001(s: Seq<u8>) -> bool {
    s.subrange(1, 6) == seq![0x43u8, 0x44, 0x30, 0x30, 0x31]
}

/// The label in a Primary Volume Descriptor: bytes 40..72, decoded (lossily)
/// and stripped of spaces and NULs at both ends.
pub open spec fn pvd_label(s: Seq<u8>) -> Seq<char> {
    strip_pad(utf8_lossy(s.subrange(40, 72)))
}

/// A space or NUL.
pub open spec fn is_pad(c: char) -> bool {
    c == ' ' || c == '\0'
}

/// `s` without leading pads.
pub open spec fn strip_pad_start(s: Seq<char>) -> Seq<char>
    decreases s.len(),
{
    if s.len() > 0 && is_pad(s[0]) {
        strip_pad_start(s.drop_first())
    } else {
        s
    }
}

/// `s` without trailing pads.
pub open spec fn strip_pad_end(s: Seq<char>) -> Seq<char>
    decreases s.len(),
{
    if s.len() > 0 && is_pad(s.last()) {
        strip_pad_end(s.drop_last())
    } else {
        s
    }
}

/// `s` trimmed of spaces and NULs.
pub open spec fn strip_pad(s: Seq<char>) -> Seq<char> {
    strip_pad_end(strip_pad_start(s))
}

/// The volume label from the descriptors read from sector 16 on: the first
/// Primary Volume Descriptor's label, unless the set ends (a sector without
/// `CD001`, or a terminator) before one.
pub open spec fn volume_label_spec(sectors: Seq<Seq<u8>>) -> Seq<char>
    decreases sectors.len(),
{
    if sectors.len() == 0 {
        Seq::empty()
    } else {
        let s = sectors[0];
        if !is_cd001(s) || s[0] == 0xFF {
            Seq::empty()
        } else if s[0] == 1 {
            pvd_label(s)
        } else {
            volume_label_spec(sectors.drop_first())
        }
    }
}

/// The byte views of a list of sectors.
pub open spec fn sector_views(v: Seq<Vec<u8>>) -> Seq<Seq<u8>> {
    Seq::new(v.len(), |i: int| v[i]@)
}

fn cd001(s: &Vec<u8>) -> (r: bool)
    requires
        s@.len() == 2048,
    ensures
        r == is_cd001(s@),
{
    let ok = s[1] == 0x43 && s[2] == 0x44 && s[3] == 0x30 && s[4] == 0x30 && s[5] == 0x31;
    if ok {
        assert(s@.subrange(1, 6) =~= seq![0x43u8, 0x44, 0x30, 0x30, 0x31]);
    } else {
        proof {
            if s@.subrange(1, 6) == seq![0x43u8, 0x44, 0x30, 0x30, 0x31] {
                assert(s@[1] == s@.subrange(1, 6)[0]);
                assert(s@[2] == s@.subrange(1, 6)[1]);
                assert(s@[3] == s@.subrange(1, 6)[2]);
                assert(s@[4] == s@.subrange(1, 6)[3]);
                assert(s@[5] == s@.subrange(1, 6)[4]);
            }
        }
    }
    ok
}

fn strip_pad_chars(v: &Vec<char>) -> (r: Vec<char>)
    ensures
        r@ == strip_pad(v@),
{
    let mut a: usize = 0;
    assert(v@.subrange(0, v@.len() as int) =~= v@);
    while a < v.len() && (v[a] == ' ' || v[a] == '\0')
        invariant
            a <= v@.len(),
            strip_pad_start(v@) == strip_pad_start(v@.subrange(a as int, v@.len() as int)),
        decreases v@.len() - a,
    {
        assert(v@.subrange(a as int, v@.len() as int).drop_first() =~= v@.subrange(a + 1, v@.len() as int));
        a += 1;
    }
    let ghost mid = v@.subrange(a as int, v@.len() as int);
    assert(strip_pad_start(mid) == mid);
    let mut b: usize = v.len();
    assert(mid.subrange(0, (b - a) as int) =~= mid);
    while b > a && (v[b - 1] == ' ' || v[b - 1] == '\0')
        invariant
            a <= b <= v@.len(),
            mid == v@.subrange(a as int, v@.len() as int),
            strip_pad_end(mid) == strip_pad_end(mid.subrange(0, (b - a) as int)),
        decreases b,
    {
        assert(mid.subrange(0, (b - a) as int).drop_last() =~= mid.subrange(0, (b - 1 - a) as int));
        b -= 1;
    }
    let r = crate::text::slice_chars(v, a, b);
    assert(r@ =~= mid.subrange(0, (b - a) as int));
    r
}

/// Read the volume label from the volume descriptors that could be read
/// from sector 16 on (each 2048 bytes, in order, stopping at the first read
/// that failed; at most 16).
pub fn read_volume_label(sectors: &[Vec<u8>]) -> (r: String)
    requires
        forall|i: int| 0 <= i < sectors@.len() ==> (#[trigger] sectors@[i])@.len() == 2048,
    ensures
        r@ == volume_label_spec(sector_views(sectors@)),
{
    let ghost sv = sector_views(sectors@);
    let mut i: usize = 0;
    assert(sv.skip(0) =~= sv);
    while i < sectors.len()
        invariant
            i <= sectors@.len(),
            sv == sector_views(sectors@),
            forall|k: int| 0 <= k < sectors@.len() ==> (#[trigger] sectors@[k])@.len() == 2048,
            volume_label_spec(sv) == volume_label_spec(sv.skip(i as int)),
        decreases sectors@.len() - i,
    {
        assert(sv.skip(i as int)[0] == sectors@[i as int]@);
        assert(sv.skip(i as int).drop_first() =~= sv.skip(i + 1));
        let s = &sectors[i];
        if !cd001(s) || s[0] == 0xFF {
            return String::new();
        }
        if s[0] == 1 {
            let field = crate::bytes::copy_bytes(s.as_slice(), 40, 72);
            let text = utf8_lossy_string(field.as_slice());
            let t = strip_pad_chars(&chars_of(text.as_str()));
            return string_from_chars(&t);
        }
        i += 1;
    }
    assert(sv.skip(i as int) =~= Seq::<Seq<u8>>::empty());
    String::new()
}

/// A UDF image: among the descriptors read from sector 16 on, an `NSR02` or
/// `NSR03` comes before any `TEA01`; a failed read means no.
pub open spec fn udf_spec(sectors: Seq<Seq<u8>>) -> bool
    decreases sectors.len(),
{
    if sectors.len() == 0 {
        false
    } else {
        let id = sectors[0].subrange(1, 6);
        if id == seq![0x4Eu8, 0x53, 0x52, 0x30, 0x32] || id == seq![0x4Eu8, 0x53, 0x52, 0x30, 0x33] {
            true
        } else if id == seq![0x54u8, 0x45, 0x41, 0x30, 0x31] {
            false
        } else {
            udf_spec(sectors.drop_first())
        }
    }
}

fn ident_is(s: &Vec<u8>, id: [u8; 5]) -> (r: bool)
    requires
        s@.len() == 2048,
    ensures
        r == (s@.subrange(1, 6) == id@),
{
    let mut k: usize = 0;
    while k < 5
        invariant
            k <= 5,
            s@.len() == 2048,
            forall|j: int| 0 <= j < k ==> s@[1 + j] == id@[j],
        decreases 5 - k,
    {
        if s[1 + k] != id[k] {
            assert(s@.subrange(1, 6)[k as int] != id@[k as int]);
            return false;
        }
        k += 1;
    }
    assert(s@.subrange(1, 6) =~= id@);
    true
}

/// Detect a UDF file system from the Volume Recognition Sequence: the
/// descriptors that could be read from sector 16 on (each 2048 bytes, in
/// order, stopping at the first read that failed; at most 16).
pub fn detect_udf(sectors: &[Vec<u8>]) -> (r: bool)
    requires
        forall|i: int| 0 <= i < sectors@.len() ==> (#[trigger] sectors@[i])@.len() == 2048,
    ensures
        r == udf_spec(sector_views(sectors@)),
{
    let ghost sv = sector_views(sectors@);
    let nsr02: [u8; 5] = [0x4E, 0x53, 0x52, 0x30, 0x32];
    let nsr03: [u8; 5] = [0x4E, 0x53, 0x52, 0x30, 0x33];
    let tea01: [u8; 5] = [0x54, 0x45, 0x41, 0x30, 0x31];
    assert(nsr02@ =~= seq![0x4Eu8, 0x53, 0x52, 0x30, 0x32]);
    assert(nsr03@ =~= seq![0x4Eu8, 0x53, 0x52, 0x30, 0x33]);
    assert(tea01@ =~= seq![0x54u8, 0x45, 0x41, 0x30, 0x31]);
    let mut i: usize = 0;
    assert(sv.skip(0) =~= sv);
    while i < sectors.len()
        invariant
            i <= sectors@.len(),
            sv == sector_views(sectors@),
            nsr02@ == seq![0x4Eu8, 0x53, 0x52, 0x30, 0x32],
            nsr03@ == seq![0x4Eu8, 0x53, 0x52, 0x30, 0x33],
            tea01@ == seq![0x54u8, 0x45, 0x41, 0x30, 0x31],
            forall|k: int| 0 <= k < sectors@.len() ==> (#[trigger] sectors@[k])@.len() == 2048,
            udf_spec(sv) == udf_spec(sv.skip(i as int)),
        decreases sectors@.len() - i,
    {
        assert(sv.skip(i as int)[0] == sectors@[i as int]@);
        assert(sv.skip(i as int).drop_first() =~= sv.skip(i + 1));
        let s = &sectors[i];
        if ident_is(s, nsr02) || ident_is(s, nsr03) {
            return true;
        }
        if ident_is(s, tea01) {
            return false;
        }
        i += 1;
    }
    assert(sv.skip(i as int) =~= Seq::<Seq<u8>>::empty());
    false
}

/// The classification rule: a Windows installer has an install image and
/// `bootmgr` or `setup.exe`; a Linux image has isolinux or GRUB.
pub open spec fn classify_spec(r: IsoReport) -> OsKind {
    if r.has_install_wim && (r.has_bootmgr || r.has_setup_exe) {
        OsKind::Windows
    } else if r.has_isolinux || r.has_grub {
        OsKind::Linux
    } else {
        OsKind::Other
    }
}

/// Apply the classification rules to a populated report.
pub fn classify(report: &IsoReport) -> (r: OsKind)
    ensures
        r == classify_spec(*report),
{
    if report.has_install_wim && (report.has_bootmgr || report.has_setup_exe) {
        OsKind::Windows
    } else if report.has_isolinux || report.has_grub {
        OsKind::Linux
    } else {
        OsKind::Other
    }
}

/// Fallback when a UDF image cannot be walked at all: assume a Windows
/// installer whose install image is over the FAT32 limit.
pub fn fall_back_to_windows(report: &mut IsoReport)
    ensures
        final(report).os_kind == OsKind::Windows,
        final(report).has_install_wim,
        final(report).has_4gb_file,
        final(report).install_wim_size == match old(report).install_wim_size {
            Some(s) => if s <= FOUR_GIB {
                Some((FOUR_GIB + 1) as u64)
            } else {
                Some(s)
            },
            None => Some((FOUR_GIB + 1) as u64),
        },
        final(report).label == old(report).label,
        final(report).is_isohybrid == old(report).is_isohybrid,
        final(report).has_efi_boot_dir == old(report).has_efi_boot_dir,
        final(report).total_size == old(report).total_size,
        *final(report) == (IsoReport {
            os_kind: final(report).os_kind,
            has_install_wim: final(report).has_install_wim,
            has_4gb_file: final(report).has_4gb_file,
            install_wim_size: final(report).install_wim_size,
            ..*old(report)
        }),
{
    report.os_kind = OsKind::Windows;
    report.has_install_wim = true;
    report.has_4gb_file = true;
    let small = match report.install_wim_size {
        Some(s) => s <= FOUR_GIB,
        None => true,
    };
    if small {
        report.install_wim_size = Some(FOUR_GIB + 1);
    }
}

/// What the ISO9660 directories of an image hold, as listed by the reader:
/// each listing gives `(lower-cased name, is a directory, size)` per child,
/// `None` when the directory is missing.
#[derive(Debug, Clone)]
pub struct Iso9660Listing {
    /// The root directory.
    pub root: Option<Vec<RootEntry>>,
    /// `/sources`.
    pub sources: Option<Vec<RootEntry>>,
    /// `/efi/boot`.
    pub efi_boot: Option<Vec<RootEntry>>,
    /// `/isolinux` exists.
    pub isolinux: bool,
    /// `/boot/isolinux` exists.
    pub boot_isolinux: bool,
    /// `/boot/grub` exists.
    pub boot_grub: bool,
    /// `/boot/grub2` exists.
    pub boot_grub2: bool,
    /// The `.efi` files of `/efi/boot` that could be read: lower-cased name
    /// and contents, in directory order.
    pub efi_binaries: Vec<(String, Vec<u8>)>,
}

/// Some entry is named `name`.
pub open spec fn any_named(entries: Seq<RootEntry>, name: Seq<char>) -> bool {
    exists|i: int| 0 <= i < entries.len() && (#[trigger] entries[i]).0@ == name
}

/// An install image's name.
pub open spec fn is_install_image(name: Seq<char>) -> bool {
    name == "install.wim"@ || name == "install.esd"@ || name == "install.swm"@
}

/// The summed size of the install-image entries (a split image spans several).
pub open spec fn wim_total(entries: Seq<RootEntry>) -> nat
    decreases entries.len(),
{
    if entries.len() == 0 {
        0
    } else {
        wim_total(entries.drop_last()) + if is_install_image(entries.last().0@) {
            entries.last().2 as nat
        } else {
            0
        }
    }
}

/// Some install-image entry.
pub open spec fn any_install(entries: Seq<RootEntry>) -> bool {
    exists|i: int| 0 <= i < entries.len() && is_install_image((#[trigger] entries[i]).0@)
}

/// A UEFI loader in `/efi/boot`: `boot*.efi`.
pub open spec fn any_boot_efi(entries: Seq<RootEntry>) -> bool {
    exists|i: int|
        0 <= i < entries.len() && is_prefix("boot"@, (#[trigger] entries[i]).0@) && is_suffix(".efi"@, entries[i].0@)
}

/// The optional listing's entries (none when missing).
pub open spec fn listed(o: Option<Vec<RootEntry>>) -> Seq<RootEntry> {
    match o {
        Some(v) => v@,
        None => Seq::empty(),
    }
}

fn has_named(entries: &Vec<RootEntry>, name: &str) -> (r: bool)
    ensures
        r == any_named(entries@, name@),
{
    let n = chars_of(name);
    let mut i: usize = 0;
    while i < entries.len()
        invariant
            i <= entries@.len(),
            n@ == name@,
            forall|j: int| 0 <= j < i ==> (#[trigger] entries@[j]).0@ != name@,
        decreases entries@.len() - i,
    {
        if crate::text::chars_eq(&chars_of(entries[i].0.as_str()), &n) {
            return true;
        }
        i += 1;
    }
    false
}

fn install_kind(name: &String) -> (r: (bool, bool))
    ensures
        r.0 == is_install_image(name@),
        r.1 == (name@ == "install.esd"@),
{
    let n = chars_of(name.as_str());
    let wim = crate::text::chars_eq(&n, &chars_of("install.wim"));
    let esd = crate::text::chars_eq(&n, &chars_of("install.esd"));
    let swm = crate::text::chars_eq(&n, &chars_of("install.swm"));
    (wim || esd || swm, esd)
}

fn install_findings(sources: &Vec<RootEntry>) -> (r: (bool, bool, u64))
    requires
        wim_total(sources@) <= u64::MAX,
    ensures
        r.0 == any_install(sources@),
        r.1 == any_named(sources@, "install.esd"@),
        r.2 == wim_total(sources@),
{
    let mut wim_size: u64 = 0;
    let mut any_img = false;
    let mut any_esd = false;
    let mut i: usize = 0;
    while i < sources.len()
        invariant
            i <= sources@.len(),
            wim_total(sources@) <= u64::MAX,
            wim_size == wim_total(sources@.take(i as int)),
            any_img == exists|j: int| 0 <= j < i && is_install_image((#[trigger] sources@[j]).0@),
            any_esd == exists|j: int| 0 <= j < i && (#[trigger] sources@[j]).0@ == "install.esd"@,
        decreases sources@.len() - i,
    {
        assert(sources@.take(i + 1).drop_last() =~= sources@.take(i as int));
        proof {
            lemma_wim_total_prefix(sources@, i + 1);
        }
        let (is_img, is_esd) = install_kind(&sources[i].0);
        if is_img {
            any_img = true;
            if is_esd {
                any_esd = true;
            }
            wim_size = wim_size + sources[i].2;
        }
        i += 1;
    }
    assert(sources@.take(i as int) =~= sources@);
    (any_img, any_esd, wim_size)
}

fn boot_efi_findings(efi: &Vec<RootEntry>) -> (r: bool)
    ensures
        r == any_boot_efi(efi@),
{
    let mut found = false;
    let mut i: usize = 0;
    while i < efi.len()
        invariant
            i <= efi@.len(),
            found == exists|j: int|
                0 <= j < i && is_prefix("boot"@, (#[trigger] efi@[j]).0@) && is_suffix(".efi"@, efi@[j].0@),
        decreases efi@.len() - i,
    {
        let n = chars_of(efi[i].0.as_str());
        if starts_with(&n, &chars_of("boot")) && ends_with(&n, &chars_of(".efi")) {
            found = true;
        }
        i += 1;
    }
    found
}

/// Record the Windows markers the ISO9660 directories show: `bootmgr` and
/// `setup.exe` at the root, the install image under `/sources` (its total
/// size when present), and the UEFI loaders in `/efi/boot`.
#[verifier::rlimit(60)]
pub fn apply_iso9660_markers(report: &mut IsoReport, listing: &Iso9660Listing)
    requires
        wim_total(listed(listing.sources)) <= u64::MAX,
    ensures
        final(report).has_bootmgr == (old(report).has_bootmgr || any_named(listed(listing.root), "bootmgr"@)),
        final(report).has_setup_exe == (old(report).has_setup_exe || any_named(listed(listing.root), "setup.exe"@)),
        final(report).has_install_wim == (old(report).has_install_wim || any_install(listed(listing.sources))),
        final(report).install_wim_is_esd == (old(report).install_wim_is_esd || any_named(
            listed(listing.sources),
            "install.esd"@,
        )),
        final(report).install_wim_size == if listing.sources is Some && final(report).has_install_wim {
            Some(wim_total(listed(listing.sources)) as u64)
        } else {
            old(report).install_wim_size
        },
        final(report).has_efi_boot_dir == if listing.efi_boot is Some {
            any_boot_efi(listed(listing.efi_boot))
        } else {
            old(report).has_efi_boot_dir
        },
        final(report).os_kind == old(report).os_kind,
        final(report).has_isolinux == old(report).has_isolinux,
        final(report).has_grub == old(report).has_grub,
        final(report).has_4gb_file == old(report).has_4gb_file,
        final(report).distro == old(report).distro,
        final(report).persistence == old(report).persistence,
        final(report).label == old(report).label,
        final(report).is_isohybrid == old(report).is_isohybrid,
        final(report).total_size == old(report).total_size,
        final(report).revocation_warnings == old(report).revocation_warnings,
        final(report).persistence_note_key == old(report).persistence_note_key,
{
    if let Some(root) = &listing.root {
        if has_named(root, "bootmgr") {
            report.has_bootmgr = true;
        }
        if has_named(root, "setup.exe") {
            report.has_setup_exe = true;
        }
    }
    if let Some(sources) = &listing.sources {
        let (any_img, any_esd, wim_size) = install_findings(sources);
        if any_img {
            report.has_install_wim = true;
        }
        if any_esd {
            report.install_wim_is_esd = true;
        }
        if report.has_install_wim {
            report.install_wim_size = Some(wim_size);
        }
    }
    if let Some(efi) = &listing.efi_boot {
        report.has_efi_boot_dir = boot_efi_findings(efi);
    }
}

/// The distribution a Linux image's label and root directory point to, and
/// its persistence kind.
fn linux_distro(label: &String, root: &Option<Vec<RootEntry>>) -> (r: (DistroFamily, Option<crate::iso_report::PersistenceKind>))
    ensures
        r.0 == detect_spec(label@, listed(*root)),
        r.1 == r.0.persistence_spec(),
{
    let empty: Vec<RootEntry> = Vec::new();
    let entries: &Vec<RootEntry> = match root {
        Some(r) => r,
        None => &empty,
    };
    assert(entries@ == listed(*root));
    let d = DistroFamily::detect(label.as_str(), entries.as_slice());
    (d, d.persistence())
}

/// Record the Linux boot loaders the ISO9660 directories show, the 4 GiB
/// flag, the classification and, for a Linux image, its distribution and
/// persistence.
pub fn apply_iso9660_classification(report: &mut IsoReport, listing: &Iso9660Listing)
    ensures
        final(report).has_isolinux == (listing.isolinux || listing.boot_isolinux),
        final(report).has_grub == (listing.boot_grub || listing.boot_grub2),
        final(report).has_4gb_file == match old(report).install_wim_size {
            Some(s) => s >= FOUR_GIB,
            None => false,
        },
        final(report).os_kind == classify_spec(*final(report)),
        final(report).os_kind == OsKind::Linux ==> final(report).distro == detect_spec(
            old(report).label@,
            listed(listing.root),
        ) && final(report).persistence == final(report).distro.persistence_spec(),
        final(report).os_kind != OsKind::Linux ==> final(report).distro == old(report).distro
            && final(report).persistence == old(report).persistence,
        final(report).has_bootmgr == old(report).has_bootmgr,
        final(report).has_setup_exe == old(report).has_setup_exe,
        final(report).has_install_wim == old(report).has_install_wim,
        final(report).install_wim_is_esd == old(report).install_wim_is_esd,
        final(report).install_wim_size == old(report).install_wim_size,
        final(report).has_efi_boot_dir == old(report).has_efi_boot_dir,
        final(report).label == old(report).label,
        final(report).is_isohybrid == old(report).is_isohybrid,
        final(report).total_size == old(report).total_size,
        final(report).revocation_warnings == old(report).revocation_warnings,
        final(report).persistence_note_key == old(report).persistence_note_key,
{
    report.has_isolinux = listing.isolinux || listing.boot_isolinux;
    report.has_grub = listing.boot_grub || listing.boot_grub2;
    report.has_4gb_file = match report.install_wim_size {
        Some(s) => s >= FOUR_GIB,
        None => false,
    };
    report.os_kind = classify(report);
    if report.os_kind == OsKind::Linux {
        let (d, p) = linux_distro(&report.label, &listing.root);
        report.distro = d;
        report.persistence = p;
    }
}

proof fn lemma_wim_total_prefix(s: Seq<RootEntry>, k: int)
    requires
        0 <= k <= s.len(),
    ensures
        wim_total(s.take(k)) <= wim_total(s),
    decreases s.len() - k,
{
    if k < s.len() {
        lemma_wim_total_prefix(s, k + 1);
        assert(s.take(k + 1).drop_last() =~= s.take(k));
    } else {
        assert(s.take(k) =~= s);
    }
}

/// The warnings for parsed `(component, generation)` rows, in order: one
/// per row whose product has a recorded level above its generation.
pub open spec fn row_warnings(rows: Seq<(Seq<char>, u32)>, ps: Seq<(String, u32)>) -> Seq<Seq<char>>
    decreases rows.len(),
{
    if rows.len() == 0 {
        seq![]
    } else {
        let prev = row_warnings(rows.drop_last(), ps);
        let e = rows.last();
        match lookup_level(ps, e.0) {
            Some(min) => if e.1 < min {
                prev.push(sbat_warning(e.0, e.1, min))
            } else {
                prev
            },
            None => prev,
        }
    }
}

proof fn lemma_row_warnings(entries: Seq<SbatEntry>, ps: Seq<(String, u32)>)
    ensures
        sbat_warnings(entries, ps) == row_warnings(entries_view(entries), ps),
    decreases entries.len(),
{
    if entries.len() > 0 {
        lemma_row_warnings(entries.drop_last(), ps);
        assert(entries_view(entries.drop_last()) =~= entries_view(entries).drop_last());
    }
}

/// `name: w` for each warning `w`.
pub open spec fn prefixed(name: Seq<char>, ws: Seq<Seq<char>>) -> Seq<Seq<char>> {
    Seq::new(ws.len(), |i: int| name + ": "@ + ws[i])
}

/// The SBAT warnings of one EFI binary, each prefixed with its name.
pub open spec fn binary_warnings(name: Seq<char>, bytes: Seq<u8>, db: RevocationDb) -> Seq<Seq<char>> {
    match extract_sbat_spec(bytes) {
        None => seq![],
        Some(text) => prefixed(name, row_warnings(sbat_rows(text_lines(text)), db.sbat.products@)),
    }
}

/// The SBAT warnings of several binaries, in order.
pub open spec fn all_binary_warnings(bins: Seq<(Seq<char>, Seq<u8>)>, db: RevocationDb) -> Seq<Seq<char>>
    decreases bins.len(),
{
    if bins.len() == 0 {
        seq![]
    } else {
        all_binary_warnings(bins.drop_last(), db) + binary_warnings(bins.last().0, bins.last().1, db)
    }
}

/// The views of named binaries.
pub open spec fn binaries_view(v: Seq<(String, Vec<u8>)>) -> Seq<(Seq<char>, Seq<u8>)> {
    Seq::new(v.len(), |i: int| (v[i].0@, v[i].1@))
}

/// Check EFI binaries (name and contents) against the SBAT levels of `db`:
/// each warning names its binary. A binary that is not a PE or has no
/// `.sbat` section gives none.
pub fn sbat_warnings_for(bins: &[(String, Vec<u8>)], db: &RevocationDb) -> (r: Vec<String>)
    ensures
        strings_view(r@) == all_binary_warnings(binaries_view(bins@), *db),
{
    let ghost bv = binaries_view(bins@);
    let mut out: Vec<String> = Vec::new();
    let mut i: usize = 0;
    assert(strings_view(out@) =~= all_binary_warnings(bv.take(0), *db));
    while i < bins.len()
        invariant
            i <= bins@.len(),
            bv == binaries_view(bins@),
            strings_view(out@) == all_binary_warnings(bv.take(i as int), *db),
        decreases bins@.len() - i,
    {
        assert(bv.take(i + 1).drop_last() =~= bv.take(i as int));
        assert(bv.take(i + 1).last() == (bins@[i as int].0@, bins@[i as int].1@));
        let name = &bins[i].0;
        let bytes = &bins[i].1;
        let ghost before = strings_view(out@);
        match extract_sbat(bytes.as_slice()) {
            None => {
                assert(strings_view(out@) =~= before + binary_warnings(name@, bytes@, *db));
            },
            Some(section) => {
                let entries = parse_sbat_section(section.as_str());
                let ws = evaluate_sbat(entries.as_slice(), &db.sbat);
                proof {
                    lemma_row_warnings(entries@, db.sbat.products@);
                }
                let ghost wsv = strings_view(ws@);
                let mut k: usize = 0;
                while k < ws.len()
                    invariant
                        k <= ws@.len(),
                        wsv == strings_view(ws@),
                        strings_view(out@) == before + prefixed(name@, wsv.take(k as int)),
                    decreases ws@.len() - k,
                {
                    let mut line = chars_of(name.as_str());
                    append_chars(&mut line, &chars_of(": "));
                    append_chars(&mut line, &chars_of(ws[k].as_str()));
                    let ghost sv0 = strings_view(out@);
                    let ls = string_from_chars(&line);
                    assert(ls@ == name@ + ": "@ + wsv[k as int]);
                    out.push(ls);
                    assert(strings_view(out@) =~= sv0.push(ls@));
                    assert(prefixed(name@, wsv.take(k + 1)) =~= prefixed(name@, wsv.take(k as int)).push(ls@));
                    assert(strings_view(out@) =~= before + prefixed(name@, wsv.take(k + 1)));
                    k += 1;
                }
                assert(wsv.take(k as int) =~= wsv);
                assert(strings_view(out@) =~= before + binary_warnings(name@, bytes@, *db));
            },
        }
        i += 1;
    }
    assert(bv.take(i as int) =~= bv);
    out
}

/// What the UDF tree of an image shows, as it was read: the volume label,
/// the root listing, the `/sources` listing with the size read for each
/// install image in it (in order; `None` when unreadable), and the
/// `/efi/boot` listing. A listing is `None` when it could not be read.
pub struct UdfFindings {
    pub label: String,
    pub root: Option<Vec<DirEntry>>,
    pub sources: Option<Vec<DirEntry>>,
    pub image_sizes: Vec<Option<u64>>,
    pub efi_boot: Option<Vec<DirEntry>>,
}

/// The lower-cased names of the install images in a listing, in order.
pub open spec fn install_names(entries: Seq<(Seq<char>, bool, crate::udf::ExtentRef)>) -> Seq<Seq<char>>
    decreases entries.len(),
{
    if entries.len() == 0 {
        seq![]
    } else {
        let prev = install_names(entries.drop_last());
        let n = seq_lower(entries.last().0);
        if is_install_image(n) {
            prev.push(n)
        } else {
            prev
        }
    }
}

/// The characters of the names in a UDF listing.
pub open spec fn dir_view(o: Option<Vec<DirEntry>>) -> Seq<(Seq<char>, bool, crate::udf::ExtentRef)> {
    match o {
        Some(v) => crate::udf::entries_view(v@),
        None => Seq::empty(),
    }
}

/// The sizes of the install images summed, an unreadable one counting 0.
pub open spec fn size_sum(sizes: Seq<Option<u64>>) -> nat
    decreases sizes.len(),
{
    if sizes.len() == 0 {
        0
    } else {
        size_sum(sizes.drop_last()) + match sizes.last() {
            Some(n) => n as nat,
            None => 0,
        }
    }
}

/// Some entry's lower-cased name is `name`.
pub open spec fn udf_any_named(entries: Seq<(Seq<char>, bool, crate::udf::ExtentRef)>, name: Seq<char>) -> bool {
    exists|i: int| 0 <= i < entries.len() && seq_lower((#[trigger] entries[i]).0) == name
}

/// Some entry's lower-cased name ends in `.efi`.
pub open spec fn udf_any_efi(entries: Seq<(Seq<char>, bool, crate::udf::ExtentRef)>) -> bool {
    exists|i: int| 0 <= i < entries.len() && is_suffix(".efi"@, seq_lower((#[trigger] entries[i]).0))
}

fn udf_has_named(entries: &Vec<DirEntry>, name: &str) -> (r: bool)
    ensures
        r == udf_any_named(crate::udf::entries_view(entries@), name@),
{
    let n = chars_of(name);
    let ghost ev = crate::udf::entries_view(entries@);
    let mut i: usize = 0;
    while i < entries.len()
        invariant
            i <= entries@.len(),
            n@ == name@,
            ev == crate::udf::entries_view(entries@),
            forall|j: int| 0 <= j < i ==> seq_lower((#[trigger] ev[j]).0) != name@,
        decreases entries@.len() - i,
    {
        let low = lowercase(&chars_of(entries[i].name.as_str()));
        assert(ev[i as int].0 == entries@[i as int].name@);
        if crate::text::chars_eq(&low, &n) {
            return true;
        }
        i += 1;
    }
    false
}

fn udf_has_efi(entries: &Vec<DirEntry>) -> (r: bool)
    ensures
        r == udf_any_efi(crate::udf::entries_view(entries@)),
{
    let ghost ev = crate::udf::entries_view(entries@);
    let mut i: usize = 0;
    while i < entries.len()
        invariant
            i <= entries@.len(),
            ev == crate::udf::entries_view(entries@),
            forall|j: int| 0 <= j < i ==> !is_suffix(".efi"@, seq_lower((#[trigger] ev[j]).0)),
        decreases entries@.len() - i,
    {
        let low = lowercase(&chars_of(entries[i].name.as_str()));
        assert(ev[i as int].0 == entries@[i as int].name@);
        if ends_with(&low, &chars_of(".efi")) {
            return true;
        }
        i += 1;
    }
    false
}

fn sum_sizes(sizes: &Vec<Option<u64>>) -> (r: Option<u64>)
    ensures
        size_sum(sizes@) <= u64::MAX ==> r == Some(size_sum(sizes@) as u64),
        size_sum(sizes@) > u64::MAX ==> r is None,
{
    let mut total: u64 = 0;
    let mut i: usize = 0;
    while i < sizes.len()
        invariant
            i <= sizes@.len(),
            total == size_sum(sizes@.take(i as int)),
        decreases sizes@.len() - i,
    {
        assert(sizes@.take(i + 1).drop_last() =~= sizes@.take(i as int));
        let add: u64 = match sizes[i] {
            Some(n) => n,
            None => 0,
        };
        if add > u64::MAX - total {
            proof {
                lemma_size_sum_prefix(sizes@, i + 1);
            }
            return None;
        }
        total = total + add;
        i += 1;
    }
    assert(sizes@.take(i as int) =~= sizes@);
    Some(total)
}

proof fn lemma_size_sum_prefix(s: Seq<Option<u64>>, k: int)
    requires
        0 <= k <= s.len(),
    ensures
        size_sum(s.take(k)) <= size_sum(s),
    decreases s.len() - k,
{
    if k < s.len() {
        lemma_size_sum_prefix(s, k + 1);
        assert(s.take(k + 1).drop_last() =~= s.take(k));
    } else {
        assert(s.take(k) =~= s);
    }
}

/// Fill in the label (when the ISO9660 one is empty) and the Windows markers
/// at the root from the UDF findings.
pub fn apply_udf_root(report: &mut IsoReport, f: &UdfFindings)
    ensures
        final(report).label@ == if old(report).label@.len() == 0 && f.label@.len() > 0 {
            f.label@
        } else {
            old(report).label@
        },
        final(report).has_bootmgr == (old(report).has_bootmgr || udf_any_named(dir_view(f.root), "bootmgr"@)),
        final(report).has_setup_exe == (old(report).has_setup_exe || udf_any_named(
            dir_view(f.root),
            "setup.exe"@,
        )),
        *final(report) == (IsoReport {
            label: final(report).label,
            has_bootmgr: final(report).has_bootmgr,
            has_setup_exe: final(report).has_setup_exe,
            ..*old(report)
        }),
{
    if chars_of(report.label.as_str()).len() == 0 {
        if chars_of(f.label.as_str()).len() > 0 {
            report.label = f.label.clone();
        }
    }
    if let Some(root) = &f.root {
        if udf_has_named(root, "bootmgr") {
            report.has_bootmgr = true;
        }
        if udf_has_named(root, "setup.exe") {
            report.has_setup_exe = true;
        }
    }
}

/// Record the install image the UDF `/sources` listing shows: its presence,
/// whether it is an `.esd`, its summed size (an unreadable part counting 0)
/// and whether that exceeds the FAT32 limit.
pub fn apply_udf_sources(report: &mut IsoReport, f: &UdfFindings)
    requires
        f.sources is Some ==> size_sum(f.image_sizes@) <= u64::MAX,
    ensures
        final(report).has_install_wim == (old(report).has_install_wim || (f.sources is Some && udf_any_install(
            dir_view(f.sources),
        ))),
        final(report).install_wim_is_esd == (old(report).install_wim_is_esd || (f.sources is Some
            && udf_any_named(dir_view(f.sources), "install.esd"@))),
        f.sources is Some && final(report).has_install_wim ==> final(report).install_wim_size == Some(
            size_sum(f.image_sizes@) as u64,
        ) && final(report).has_4gb_file == (size_sum(f.image_sizes@) > FOUR_GIB),
        !(f.sources is Some && final(report).has_install_wim) ==> final(report).install_wim_size
            == old(report).install_wim_size && final(report).has_4gb_file == old(report).has_4gb_file,
        *final(report) == (IsoReport {
            has_install_wim: final(report).has_install_wim,
            install_wim_is_esd: final(report).install_wim_is_esd,
            install_wim_size: final(report).install_wim_size,
            has_4gb_file: final(report).has_4gb_file,
            ..*old(report)
        }),
{
    if let Some(sources) = &f.sources {
        let (any_image, any_esd) = install_name_findings(sources);
        if any_image {
            report.has_install_wim = true;
        }
        if any_esd {
            report.install_wim_is_esd = true;
        }
        if report.has_install_wim {
            let total = match sum_sizes(&f.image_sizes) {
                Some(t) => t,
                None => 0,
            };
            report.install_wim_size = Some(total);
            report.has_4gb_file = total > FOUR_GIB;
        }
    }
}

/// Record the UEFI loaders the UDF `/efi/boot` listing shows, then classify
/// again now that the UDF markers are in.
pub fn apply_udf_classification(report: &mut IsoReport, f: &UdfFindings)
    ensures
        final(report).has_efi_boot_dir == if f.efi_boot is Some {
            udf_any_efi(dir_view(f.efi_boot))
        } else {
            old(report).has_efi_boot_dir
        },
        final(report).os_kind == if old(report).has_install_wim && (old(report).has_bootmgr
            || old(report).has_setup_exe) {
            OsKind::Windows
        } else if old(report).has_isolinux || old(report).has_grub {
            OsKind::Linux
        } else {
            old(report).os_kind
        },
        *final(report) == (IsoReport {
            has_efi_boot_dir: final(report).has_efi_boot_dir,
            os_kind: final(report).os_kind,
            ..*old(report)
        }),
{
    if let Some(efi) = &f.efi_boot {
        report.has_efi_boot_dir = udf_has_efi(efi);
    }
    if report.has_install_wim && (report.has_bootmgr || report.has_setup_exe) {
        report.os_kind = OsKind::Windows;
    } else if report.has_isolinux || report.has_grub {
        report.os_kind = OsKind::Linux;
    }
}

/// Some entry's lower-cased name is an install image's.
pub open spec fn udf_any_install(entries: Seq<(Seq<char>, bool, crate::udf::ExtentRef)>) -> bool {
    exists|i: int| 0 <= i < entries.len() && is_install_image(seq_lower((#[trigger] entries[i]).0))
}

fn install_name_findings(entries: &Vec<DirEntry>) -> (r: (bool, bool))
    ensures
        r.0 == udf_any_install(crate::udf::entries_view(entries@)),
        r.1 == udf_any_named(crate::udf::entries_view(entries@), "install.esd"@),
{
    let ghost ev = crate::udf::entries_view(entries@);
    let mut any = false;
    let mut esd = false;
    let mut i: usize = 0;
    while i < entries.len()
        invariant
            i <= entries@.len(),
            ev == crate::udf::entries_view(entries@),
            any == exists|j: int| 0 <= j < i && is_install_image(seq_lower((#[trigger] ev[j]).0)),
            esd == exists|j: int| 0 <= j < i && seq_lower((#[trigger] ev[j]).0) == "install.esd"@,
        decreases entries@.len() - i,
    {
        assert(ev[i as int].0 == entries@[i as int].name@);
        let low = lowercase(&chars_of(entries[i].name.as_str()));
        let s = string_from_chars(&low);
        let (is_img, is_esd) = install_kind(&s);
        if is_img {
            any = true;
        }
        if is_esd {
            esd = true;
        }
        i += 1;
    }
    (any, esd)
}

/// Read what the UDF tree shows: the label, the root, `/sources` with the
/// size of each install image in it, and `/efi/boot`. Each listing or size
/// that was read is the one on the image; one that is absent there is
/// absent here.
pub fn gather_udf<R: ImageSource>(udf: &mut UdfFs<R>) -> (r: UdfFindings)
    requires
        old(udf).wf(),
    ensures
        final(udf).wf(),
        final(udf).image() == old(udf).image(),
        open_spec(old(udf).image()) matches Some(vol) && r.label@ == vol.2,
        r.root matches Some(v) ==> list_spec(old(udf).image(), seq![]) == Some(crate::udf::entries_view(v@)),
        list_spec(old(udf).image(), seq![]) is None ==> r.root is None,
        r.sources matches Some(v) ==> list_spec(old(udf).image(), seq!["sources"@]) == Some(
            crate::udf::entries_view(v@),
        ),
        list_spec(old(udf).image(), seq!["sources"@]) is None ==> r.sources is None,
        r.sources is Some ==> r.image_sizes@.len() == install_names(dir_view(r.sources)).len(),
        forall|i: int|
            0 <= i < r.image_sizes@.len() ==> (#[trigger] r.image_sizes@[i] matches Some(n) ==> file_size_spec(
                old(udf).image(),
                seq!["sources"@, install_names(dir_view(r.sources))[i]],
            ) == Some(n)),
        r.efi_boot matches Some(v) ==> list_spec(old(udf).image(), seq!["efi"@, "boot"@]) == Some(
            crate::udf::entries_view(v@),
        ),
        list_spec(old(udf).image(), seq!["efi"@, "boot"@]) is None ==> r.efi_boot is None,
        final(udf).reads_succeed() == old(udf).reads_succeed(),
        old(udf).reads_succeed() ==> image_udf_view(old(udf).image()) == Some(udf_view(r)),
{
    let ghost img = udf.image();
    let label = string_from_chars(&chars_of(udf.label()));
    let none: [&str; 0] = [];
    assert(seg_views(none@) =~= Seq::<Seq<char>>::empty());
    let root = udf.list(&none);
    let src_path: [&str; 1] = ["sources"];
    assert(seg_views(src_path@) =~= seq!["sources"@]);
    let sources = udf.list(&src_path);
    let mut image_sizes: Vec<Option<u64>> = Vec::new();
    if let Some(list) = &sources {
        let ghost ev = crate::udf::entries_view(list@);
        let mut i: usize = 0;
        while i < list.len()
            invariant
                i <= list@.len(),
                ev == crate::udf::entries_view(list@),
                udf.wf(),
                udf.image() == img,
                udf.reads_succeed() == old(udf).reads_succeed(),
                img == old(udf).image(),
                sources == Some(*list),
                old(udf).reads_succeed() ==> image_sizes@ == Seq::new(
                    install_names(ev.take(i as int)).len(),
                    |k: int| file_size_spec(img, seq!["sources"@, install_names(ev.take(i as int))[k]]),
                ),
                image_sizes@.len() == install_names(ev.take(i as int)).len(),
                forall|k: int|
                    0 <= k < image_sizes@.len() ==> (#[trigger] image_sizes@[k] matches Some(n) ==> file_size_spec(
                        img,
                        seq!["sources"@, install_names(ev.take(i as int))[k]],
                    ) == Some(n)),
            decreases list@.len() - i,
        {
            assert(ev.take(i + 1).drop_last() =~= ev.take(i as int));
            assert(ev.take(i + 1).last().0 == list@[i as int].name@);
            let low = lowercase(&chars_of(list[i].name.as_str()));
            let name = string_from_chars(&low);
            let (is_img, _) = install_kind(&name);
            if is_img {
                let path: [&str; 2] = ["sources", name.as_str()];
                assert(seg_views(path@) =~= seq!["sources"@, low@]);
                let size = udf.file_size(&path);
                let ghost before = image_sizes@;
                image_sizes.push(size);
                assert(install_names(ev.take(i + 1)) == install_names(ev.take(i as int)).push(low@));
                proof {
                    if old(udf).reads_succeed() {
                        assert(image_sizes@ =~= Seq::new(
                            install_names(ev.take(i + 1)).len(),
                            |k: int| file_size_spec(img, seq!["sources"@, install_names(ev.take(i + 1))[k]]),
                        ));
                    }
                }
            }
            i += 1;
        }
        assert(ev.take(i as int) =~= ev);
    }
    let efi_path: [&str; 2] = ["efi", "boot"];
    assert(seg_views(efi_path@) =~= seq!["efi"@, "boot"@]);
    let efi_boot = udf.list(&efi_path);
    UdfFindings { label, root, sources, image_sizes, efi_boot }
}

/// The UDF `/efi/boot` listing of an image (empty when it has none).
pub open spec fn efi_listing(img: Seq<u8>) -> Seq<(Seq<char>, bool, crate::udf::ExtentRef)> {
    match list_spec(img, seq!["efi"@, "boot"@]) {
        Some(l) => l,
        None => Seq::empty(),
    }
}

/// `(name, bytes)` is an `.efi` file of the UDF `/efi/boot` directory: its
/// lower-cased name and its contents.
pub open spec fn efi_binary_of(img: Seq<u8>, name: Seq<char>, bytes: Seq<u8>) -> bool {
    exists|j: int|
        0 <= j < efi_listing(img).len() && !(#[trigger] efi_listing(img)[j]).1 && name == seq_lower(
            efi_listing(img)[j].0,
        ) && is_suffix(".efi"@, name) && crate::udf::read_file_spec(
            img,
            seq!["efi"@, "boot"@, efi_listing(img)[j].0],
        ) == Some(bytes)
}

/// The `.efi` files among the UDF `/efi/boot` entries `entries`, in order:
/// each non-directory whose lower-cased name ends in `.efi` and whose
/// contents the image yields, with that name and those contents.
pub open spec fn efi_files(img: Seq<u8>, entries: Seq<(Seq<char>, bool, crate::udf::ExtentRef)>) -> Seq<(Seq<char>, Seq<u8>)>
    decreases entries.len(),
{
    if entries.len() == 0 {
        seq![]
    } else {
        let prev = efi_files(img, entries.drop_last());
        let e = entries.last();
        let low = seq_lower(e.0);
        if !e.1 && is_suffix(".efi"@, low) {
            match crate::udf::read_file_spec(img, seq!["efi"@, "boot"@, e.0]) {
                Some(b) => prev.push((low, b)),
                None => prev,
            }
        } else {
            prev
        }
    }
}

/// Read the `.efi` files of the UDF `/efi/boot` directory: each is given
/// with its lower-cased name and contents, as the image holds them. Files
/// that cannot be read are left out; when every read of the image succeeds,
/// that leaves exactly the files the image yields, in directory order.
pub fn udf_efi_binaries<R: ImageSource>(udf: &mut UdfFs<R>) -> (r: Vec<(String, Vec<u8>)>)
    requires
        old(udf).wf(),
    ensures
        final(udf).wf(),
        final(udf).image() == old(udf).image(),
        forall|k: int| 0 <= k < r@.len() ==> efi_binary_of(old(udf).image(), (#[trigger] r@[k]).0@, r@[k].1@),
        final(udf).reads_succeed() == old(udf).reads_succeed(),
        old(udf).reads_succeed() ==> binaries_view(r@) == efi_files(old(udf).image(), efi_listing(old(udf).image())),
{
    let ghost img = udf.image();
    let mut out: Vec<(String, Vec<u8>)> = Vec::new();
    let efi_path: [&str; 2] = ["efi", "boot"];
    assert(seg_views(efi_path@) =~= seq!["efi"@, "boot"@]);
    let entries = match udf.list(&efi_path) {
        None => {
            proof {
                if old(udf).reads_succeed() {
                    assert(efi_listing(img) =~= Seq::empty());
                    assert(binaries_view(out@) =~= efi_files(img, efi_listing(img)));
                }
            }
            return out;
        },
        Some(e) => e,
    };
    let ghost ev = crate::udf::entries_view(entries@);
    let mut i: usize = 0;
    assert(binaries_view(out@) =~= efi_files(img, ev.take(0)));
    while i < entries.len()
        invariant
            i <= entries@.len(),
            ev == crate::udf::entries_view(entries@),
            list_spec(img, seq!["efi"@, "boot"@]) == Some(ev),
            udf.wf(),
            udf.image() == img,
            udf.reads_succeed() == old(udf).reads_succeed(),
            img == old(udf).image(),
            forall|k: int| 0 <= k < out@.len() ==> efi_binary_of(img, (#[trigger] out@[k]).0@, out@[k].1@),
            old(udf).reads_succeed() ==> binaries_view(out@) == efi_files(img, ev.take(i as int)),
        decreases entries@.len() - i,
    {
        let e = &entries[i];
        let low = lowercase(&chars_of(e.name.as_str()));
        let ghost prev_out = out@;
        assert(ev.take(i + 1).drop_last() =~= ev.take(i as int));
        assert(ev.take(i + 1).last() == (e.name@, e.is_dir, e.icb));
        if !e.is_dir && ends_with(&low, &chars_of(".efi")) {
            let path: [&str; 3] = ["efi", "boot", e.name.as_str()];
            assert(seg_views(path@) =~= seq!["efi"@, "boot"@, e.name@]);
            match udf.read_file(&path) {
                Some(bytes) => {
                    assert(efi_listing(img)[i as int].0 == e.name@);
                    assert(efi_binary_of(img, low@, bytes@));
                    out.push((string_from_chars(&low), bytes));
                    assert(binaries_view(out@) =~= binaries_view(prev_out).push((low@, bytes@)));
                },
                None => {},
            }
        }
        i += 1;
    }
    assert(ev.take(i as int) =~= ev);
    out
}

fn udf_sizes_fit(f: &UdfFindings) -> (r: bool)
    ensures
        r == (f.sources is Some ==> size_sum(f.image_sizes@) <= u64::MAX),
{
    if f.sources.is_none() {
        return true;
    }
    sum_sizes(&f.image_sizes).is_some()
}

/// Open the UDF reader on first use: an already open reader is kept; else
/// the image, if still held, is opened (and given up).
fn udf_on_demand<R: ImageSource>(udf: Option<UdfFs<R>>, source: Option<R>) -> (r: (Option<UdfFs<R>>, Option<R>))
    requires
        udf matches Some(u) ==> u.wf(),
    ensures
        r.0 matches Some(u) ==> u.wf(),
        udf is Some ==> r.0 == udf && r.1 == source,
        udf is None ==> r.1 is None,
        udf is None && source is None ==> r.0 is None,
        udf is None && source is Some ==> {
            let s = source->0;
            &&& (r.0 matches Some(u) ==> u.image() == s.image() && u.reads_succeed() == s.reads_succeed())
            &&& (s.reads_succeed() && open_spec(s.image()) is Some ==> r.0 is Some)
            &&& (open_spec(s.image()) is None ==> r.0 is None)
        },
{
    match udf {
        Some(u) => (Some(u), source),
        None => match source {
            Some(src) => (UdfFs::open(src), None),
            None => (None, None),
        },
    }
}

/// The fields of a report that the directory passes decide.
pub struct ReportFields {
    pub label: Seq<char>,
    pub has_bootmgr: bool,
    pub has_setup_exe: bool,
    pub has_install_wim: bool,
    pub install_wim_is_esd: bool,
    pub install_wim_size: Option<u64>,
    pub has_4gb_file: bool,
    pub has_efi_boot_dir: bool,
    pub has_isolinux: bool,
    pub has_grub: bool,
    pub os_kind: OsKind,
}

/// The fields of `r` that the directory passes decide.
pub open spec fn fields_of(r: IsoReport) -> ReportFields {
    ReportFields {
        label: r.label@,
        has_bootmgr: r.has_bootmgr,
        has_setup_exe: r.has_setup_exe,
        has_install_wim: r.has_install_wim,
        install_wim_is_esd: r.install_wim_is_esd,
        install_wim_size: r.install_wim_size,
        has_4gb_file: r.has_4gb_file,
        has_efi_boot_dir: r.has_efi_boot_dir,
        has_isolinux: r.has_isolinux,
        has_grub: r.has_grub,
        os_kind: r.os_kind,
    }
}

/// The report's other fields are those of `old`.
pub open spec fn same_other_fields(r: IsoReport, old: IsoReport) -> bool {
    &&& r.is_isohybrid == old.is_isohybrid
    &&& r.total_size == old.total_size
    &&& r.persistence == old.persistence
    &&& r.distro == old.distro
    &&& r.revocation_warnings == old.revocation_warnings
    &&& r.persistence_note_key == old.persistence_note_key
}

/// The fields after the fallback for a UDF image that cannot be walked:
/// taken as a Windows installer whose install image passes the FAT32 limit.
pub open spec fn fallback_fields(f: ReportFields) -> ReportFields {
    ReportFields {
        os_kind: OsKind::Windows,
        has_install_wim: true,
        has_4gb_file: true,
        install_wim_size: match f.install_wim_size {
            Some(s) => if s <= FOUR_GIB {
                Some((FOUR_GIB + 1) as u64)
            } else {
                Some(s)
            },
            None => Some((FOUR_GIB + 1) as u64),
        },
        ..f
    }
}

/// What the UDF tree of an image shows: the volume label, the root, the
/// `/sources` listing with the size read for each install image in it, and
/// the `/efi/boot` listing (each listing `None` when missing).
pub type UdfView = (
    Seq<char>,
    Option<Seq<(Seq<char>, bool, crate::udf::ExtentRef)>>,
    Option<Seq<(Seq<char>, bool, crate::udf::ExtentRef)>>,
    Seq<Option<u64>>,
    Option<Seq<(Seq<char>, bool, crate::udf::ExtentRef)>>,
);

/// A listing's entries, when it was read.
pub open spec fn opt_entries(o: Option<Vec<DirEntry>>) -> Option<Seq<(Seq<char>, bool, crate::udf::ExtentRef)>> {
    match o {
        Some(v) => Some(crate::udf::entries_view(v@)),
        None => None,
    }
}

/// The entries of an optional listing (none when missing).
pub open spec fn entries_or_empty(o: Option<Seq<(Seq<char>, bool, crate::udf::ExtentRef)>>) -> Seq<(Seq<char>, bool, crate::udf::ExtentRef)> {
    match o {
        Some(s) => s,
        None => Seq::empty(),
    }
}

/// What UDF findings hold.
pub open spec fn udf_view(f: UdfFindings) -> UdfView {
    (f.label@, opt_entries(f.root), opt_entries(f.sources), f.image_sizes@, opt_entries(f.efi_boot))
}

/// The UDF tree of an image, as its bytes hold it; none when the image is
/// not recognisable UDF.
pub open spec fn image_udf_view(img: Seq<u8>) -> Option<UdfView> {
    match open_spec(img) {
        None => None,
        Some(vol) => {
            let src = list_spec(img, seq!["sources"@]);
            let names = install_names(entries_or_empty(src));
            Some((
                vol.2,
                list_spec(img, seq![]),
                src,
                if src is Some {
                    Seq::new(names.len(), |i: int| file_size_spec(img, seq!["sources"@, names[i]]))
                } else {
                    Seq::empty()
                },
                list_spec(img, seq!["efi"@, "boot"@]),
            ))
        },
    }
}

/// The fields after the UDF pass over `v` (none: the tree could not be
/// opened): the label when the ISO9660 one is empty, the Windows markers at
/// the root, the install images under `/sources` with their summed size,
/// the UEFI loaders under `/efi/boot`, and the classification again. A tree
/// that cannot be opened, or whose install-image sizes overflow, gives the
/// Windows fallback instead.
#[verifier::opaque]
pub open spec fn udf_fields(f: ReportFields, v: Option<UdfView>) -> ReportFields {
    match v {
        None => fallback_fields(f),
        Some(u) => if u.2 is Some && size_sum(u.3) > u64::MAX {
            fallback_fields(f)
        } else {
            let root = entries_or_empty(u.1);
            let src = entries_or_empty(u.2);
            let label = if f.label.len() == 0 && u.0.len() > 0 {
                u.0
            } else {
                f.label
            };
            let boot = f.has_bootmgr || udf_any_named(root, "bootmgr"@);
            let setup = f.has_setup_exe || udf_any_named(root, "setup.exe"@);
            let wim = f.has_install_wim || (u.2 is Some && udf_any_install(src));
            let esd = f.install_wim_is_esd || (u.2 is Some && udf_any_named(src, "install.esd"@));
            let (size, big) = if u.2 is Some && wim {
                (Some(size_sum(u.3) as u64), size_sum(u.3) > FOUR_GIB)
            } else {
                (f.install_wim_size, f.has_4gb_file)
            };
            let efi = match u.4 {
                Some(e) => udf_any_efi(e),
                None => f.has_efi_boot_dir,
            };
            let os = if wim && (boot || setup) {
                OsKind::Windows
            } else if f.has_isolinux || f.has_grub {
                OsKind::Linux
            } else {
                f.os_kind
            };
            ReportFields {
                label,
                has_bootmgr: boot,
                has_setup_exe: setup,
                has_install_wim: wim,
                install_wim_is_esd: esd,
                install_wim_size: size,
                has_4gb_file: big,
                has_efi_boot_dir: efi,
                os_kind: os,
                ..f
            }
        },
    }
}

/// Finish a report with the UDF tree's findings (`None`: the tree could not
/// be opened), as [`udf_fields`] says.
pub fn finish_udf(report: &mut IsoReport, findings: Option<UdfFindings>)
    ensures
        fields_of(*final(report)) == udf_fields(
            fields_of(*old(report)),
            match findings {
                Some(f) => Some(udf_view(f)),
                None => None,
            },
        ),
        same_other_fields(*final(report), *old(report)),
{
    reveal(udf_fields);
    match findings {
        Some(f) => {
            if udf_sizes_fit(&f) {
                apply_udf_root(report, &f);
                apply_udf_sources(report, &f);
                apply_udf_classification(report, &f);
            } else {
                fall_back_to_windows(report);
            }
        },
        None => {
            fall_back_to_windows(report);
        },
    }
}

/// What the ISO9660 pass alone makes of an image with listing `l` and volume
/// label `label`: the Windows markers, the install-image size, the Linux
/// boot loaders, the 4 GiB flag, and the classification (Windows before
/// Linux; an otherwise unclassified image whose label mentions BSD is BSD),
/// with the distribution and persistence of a Linux image.
pub open spec fn iso9660_findings(r: IsoReport, l: Iso9660Listing, label: Seq<char>) -> bool {
    let wim = any_install(listed(l.sources));
    let boot = any_named(listed(l.root), "bootmgr"@);
    let setup = any_named(listed(l.root), "setup.exe"@);
    let size: Option<u64> = if l.sources is Some && wim {
        Some(wim_total(listed(l.sources)) as u64)
    } else {
        None
    };
    let linux = l.isolinux || l.boot_isolinux || l.boot_grub || l.boot_grub2;
    let class = if wim && (boot || setup) {
        OsKind::Windows
    } else if linux {
        OsKind::Linux
    } else if seq_contains(unicode_lower(label), "bsd"@) {
        OsKind::Bsd
    } else {
        OsKind::Other
    };
    &&& r.label@ == label
    &&& r.has_bootmgr == boot
    &&& r.has_setup_exe == setup
    &&& r.has_install_wim == wim
    &&& r.install_wim_is_esd == any_named(listed(l.sources), "install.esd"@)
    &&& r.install_wim_size == size
    &&& r.has_isolinux == (l.isolinux || l.boot_isolinux)
    &&& r.has_grub == (l.boot_grub || l.boot_grub2)
    &&& r.has_4gb_file == match size {
        Some(n) => n >= FOUR_GIB,
        None => false,
    }
    &&& r.os_kind == class
    &&& class == OsKind::Linux ==> r.distro == detect_spec(label, listed(l.root)) && r.persistence
        == r.distro.persistence_spec()
    &&& class != OsKind::Linux ==> r.distro == DistroFamily::Unknown && r.persistence is None
}

/// The fields after the ISO9660 pass alone, before the UDF pass and the
/// BSD check (see [`iso9660_findings`]).
pub open spec fn iso9660_fields(l: Iso9660Listing, label: Seq<char>) -> ReportFields {
    let wim = any_install(listed(l.sources));
    let boot = any_named(listed(l.root), "bootmgr"@);
    let setup = any_named(listed(l.root), "setup.exe"@);
    let size: Option<u64> = if l.sources is Some && wim {
        Some(wim_total(listed(l.sources)) as u64)
    } else {
        None
    };
    let isolinux = l.isolinux || l.boot_isolinux;
    let grub = l.boot_grub || l.boot_grub2;
    ReportFields {
        label,
        has_bootmgr: boot,
        has_setup_exe: setup,
        has_install_wim: wim,
        install_wim_is_esd: any_named(listed(l.sources), "install.esd"@),
        install_wim_size: size,
        has_4gb_file: match size {
            Some(n) => n >= FOUR_GIB,
            None => false,
        },
        has_efi_boot_dir: any_boot_efi(listed(l.efi_boot)),
        has_isolinux: isolinux,
        has_grub: grub,
        os_kind: if wim && (boot || setup) {
            OsKind::Windows
        } else if isolinux || grub {
            OsKind::Linux
        } else {
            OsKind::Other
        },
    }
}

/// A final report `r` agrees with the fields `u` left by the UDF pass: the
/// same markers, sizes and label; a UEFI loader directory found stays found;
/// and an image left unclassified is BSD when its label says so.
pub open spec fn after_udf_pass(r: IsoReport, u: ReportFields) -> bool {
    &&& r.label@ == u.label
    &&& r.has_bootmgr == u.has_bootmgr
    &&& r.has_setup_exe == u.has_setup_exe
    &&& r.has_install_wim == u.has_install_wim
    &&& r.install_wim_is_esd == u.install_wim_is_esd
    &&& r.install_wim_size == u.install_wim_size
    &&& r.has_4gb_file == u.has_4gb_file
    &&& r.has_isolinux == u.has_isolinux
    &&& r.has_grub == u.has_grub
    &&& r.distro == DistroFamily::Unknown && r.persistence is None
    &&& u.has_efi_boot_dir ==> r.has_efi_boot_dir
    &&& r.os_kind == if u.os_kind == OsKind::Other && seq_contains(unicode_lower(u.label), "bsd"@) {
        OsKind::Bsd
    } else {
        u.os_kind
    }
}

/// Whether the report has found a UEFI loader directory once the directory
/// passes are done: the UDF pass decides for an image with UDF that the
/// ISO9660 pass did not find to be Linux, else the ISO9660 pass.
pub open spec fn efi_before_scan(l: Iso9660Listing, label: Seq<char>, udf: bool, img: Seq<u8>) -> bool {
    if udf && iso9660_fields(l, label).os_kind != OsKind::Linux {
        udf_fields(iso9660_fields(l, label), image_udf_view(img)).has_efi_boot_dir
    } else {
        iso9660_fields(l, label).has_efi_boot_dir
    }
}

/// The SBAT warnings of the `.efi` loaders in an image's UDF `/efi/boot`.
pub open spec fn udf_warnings(img: Seq<u8>, db: RevocationDb) -> Seq<Seq<char>> {
    all_binary_warnings(efi_files(img, efi_listing(img)), db)
}

/// The UEFI loader flag and the warnings after the revocation scan, given
/// the flag `efi` and warnings `w0` before it, the warnings `w_iso` of the
/// loaders the ISO9660 reader found, and the image's UDF tree (`tree`: its
/// bytes, when it opens as UDF). With a loader directory found, the ISO9660
/// loaders' warnings stand, or, when there are none, those of the UDF
/// loaders; without one, a UDF `/efi/boot` directory counts as one and its
/// loaders are checked.
#[verifier::opaque]
pub open spec fn revocation_spec(
    efi: bool,
    w0: Seq<Seq<char>>,
    w_iso: Seq<Seq<char>>,
    tree: Option<Seq<u8>>,
    db: RevocationDb,
) -> (bool, Seq<Seq<char>>) {
    if efi {
        (true, if w_iso.len() > 0 {
            w_iso
        } else {
            match tree {
                Some(i) => udf_warnings(i, db),
                None => seq![],
            }
        })
    } else {
        match tree {
            Some(i) => if list_spec(i, seq!["efi"@, "boot"@]) is Some {
                (true, udf_warnings(i, db))
            } else {
                (false, w0)
            },
            None => (false, w0),
        }
    }
}

/// The UDF pass of [`analyze`] over `image`: the tree is opened and read
/// into the report ([`finish_udf`]). Returns the open tree, if it opened,
/// for the revocation scan.
fn udf_pass<R: ImageSource>(report: &mut IsoReport, image: R) -> (r: (Option<UdfFs<R>>, Option<R>))
    ensures
        image.reads_succeed() ==> fields_of(*final(report)) == udf_fields(
            fields_of(*old(report)),
            image_udf_view(image.image()),
        ),
        same_other_fields(*final(report), *old(report)),
        old(report).os_kind != OsKind::Bsd ==> final(report).os_kind != OsKind::Bsd,
        r.1 is None,
        r.0 matches Some(u) ==> u.wf() && u.image() == image.image() && u.reads_succeed() == image.reads_succeed(),
        image.reads_succeed() ==> (r.0 is Some <==> open_spec(image.image()) is Some),
{
    match UdfFs::open(image) {
        Some(mut fs) => {
            let f = gather_udf(&mut fs);
            finish_udf(report, Some(f));
            proof {
                reveal(udf_fields);
            }
            (Some(fs), None)
        },
        None => {
            finish_udf(report, None);
            proof {
                reveal(udf_fields);
            }
            (None, None)
        },
    }
}

/// The UDF tree a revocation scan can read: the open one, else the image's
/// when it opens as UDF.
pub open spec fn scan_tree<R: ImageSource>(udf: Option<UdfFs<R>>, source: Option<R>) -> Option<Seq<u8>> {
    match udf {
        Some(u) => Some(u.image()),
        None => match source {
            Some(s) => if open_spec(s.image()) is Some {
                Some(s.image())
            } else {
                None
            },
            None => None,
        },
    }
}

/// Every read of the tree a revocation scan can read succeeds.
pub open spec fn scan_reads_succeed<R: ImageSource>(udf: Option<UdfFs<R>>, source: Option<R>) -> bool {
    match udf {
        Some(u) => u.reads_succeed(),
        None => match source {
            Some(s) => s.reads_succeed(),
            None => true,
        },
    }
}

/// The revocation scan of [`analyze`]: the loaders found are checked
/// against the SBAT levels of `db` (see [`revocation_spec`]).
fn revocation_pass<R: ImageSource>(
    report: &mut IsoReport,
    iso_bins: &[(String, Vec<u8>)],
    udf: Option<UdfFs<R>>,
    source: Option<R>,
    db: &RevocationDb,
)
    requires
        udf matches Some(u) ==> u.wf(),
    ensures
        scan_reads_succeed(udf, source) ==> (final(report).has_efi_boot_dir, strings_view(
            final(report).revocation_warnings@,
        )) == revocation_spec(
            old(report).has_efi_boot_dir,
            strings_view(old(report).revocation_warnings@),
            all_binary_warnings(binaries_view(iso_bins@), *db),
            scan_tree(udf, source),
            *db,
        ),
        old(report).has_efi_boot_dir && all_binary_warnings(binaries_view(iso_bins@), *db).len() > 0 ==> strings_view(
            final(report).revocation_warnings@,
        ) == all_binary_warnings(binaries_view(iso_bins@), *db),
        old(report).has_efi_boot_dir ==> final(report).has_efi_boot_dir,
        *final(report) == (IsoReport {
            has_efi_boot_dir: final(report).has_efi_boot_dir,
            revocation_warnings: final(report).revocation_warnings,
            ..*old(report)
        }),
{
    reveal(revocation_spec);
    if report.has_efi_boot_dir {
        report.revocation_warnings = sbat_warnings_for(iso_bins, db);
        if report.revocation_warnings.len() == 0 {
            let (u, _s) = udf_on_demand(udf, source);
            if let Some(mut fs) = u {
                let bins = udf_efi_binaries(&mut fs);
                report.revocation_warnings = sbat_warnings_for(bins.as_slice(), db);
            }
        }
    } else {
        let (u, _s) = udf_on_demand(udf, source);
        if let Some(mut fs) = u {
            let efi_path: [&str; 2] = ["efi", "boot"];
            assert(seg_views(efi_path@) =~= seq!["efi"@, "boot"@]);
            if fs.list(&efi_path).is_some() {
                report.has_efi_boot_dir = true;
                let bins = udf_efi_binaries(&mut fs);
                report.revocation_warnings = sbat_warnings_for(bins.as_slice(), db);
            }
        }
    }
}

/// Analyze a source image. Never fails: an unreadable or exotic image still
/// yields a usable (if minimal) report, since it can be DD-written.
///
/// `total_size` is the image's size; `mbr` its first sector and
/// `descriptors` the sectors read from 16 on (see [`detect_isohybrid`],
/// [`read_volume_label`], [`detect_udf`]); `listing` what the ISO9660 reader
/// found, `None` when the image is not ISO9660; `image` reads the image for
/// the UDF pass; `db` holds the SBAT levels.
///
/// After the ISO9660 pass, an image that is not Linux and carries UDF is
/// walked as UDF (or, when that fails or its install-image sizes overflow,
/// assumed to be a Windows installer); an unclassified image whose label
/// mentions BSD is BSD; and the EFI loaders found are checked against the
/// SBAT levels, through UDF when the ISO9660 pass gives no warning.
#[verifier::rlimit(100)]
#[verifier::spinoff_prover]
pub fn analyze<R: ImageSource>(
    total_size: u64,
    mbr: Option<&[u8]>,
    descriptors: &[Vec<u8>],
    listing: Option<&Iso9660Listing>,
    image: R,
    db: &RevocationDb,
) -> (r: IsoReport)
    requires
        mbr matches Some(m) ==> m@.len() == 512,
        forall|i: int| 0 <= i < descriptors@.len() ==> (#[trigger] descriptors@[i])@.len() == 2048,
        listing matches Some(l) ==> wim_total(listed(l.sources)) <= u64::MAX,
    ensures
        r.total_size == total_size,
        r.is_isohybrid == match mbr {
            Some(m) => isohybrid_spec(m@),
            None => false,
        },
        listing is None ==> {
            &&& r.os_kind == OsKind::Other
            &&& r.label@ == volume_label_spec(sector_views(descriptors@))
            &&& !r.has_install_wim && !r.has_bootmgr && !r.has_setup_exe && !r.has_efi_boot_dir
            &&& !r.has_isolinux && !r.has_grub && !r.has_4gb_file
            &&& r.revocation_warnings@.len() == 0
        },
        r.os_kind == OsKind::Bsd ==> seq_contains(unicode_lower(r.label@), "bsd"@),
        match listing {
            Some(l) => !udf_spec(sector_views(descriptors@)) || iso9660_fields(
                *l,
                volume_label_spec(sector_views(descriptors@)),
            ).os_kind == OsKind::Linux ==> iso9660_findings(r, *l, volume_label_spec(sector_views(descriptors@))),
            None => true,
        },
        listing is Some ==> r.persistence_note_key@.len() == 0,
        match listing {
            Some(l) => image.reads_succeed() ==> (r.has_efi_boot_dir, strings_view(r.revocation_warnings@))
                == revocation_spec(
                efi_before_scan(*l, volume_label_spec(sector_views(descriptors@)), udf_spec(sector_views(descriptors@)), image.image()),
                seq![],
                all_binary_warnings(binaries_view(l.efi_binaries@), *db),
                if open_spec(image.image()) is Some {
                    Some(image.image())
                } else {
                    None
                },
                *db,
            ),
            None => true,
        },
        match listing {
            Some(l) => !udf_spec(sector_views(descriptors@)) && any_boot_efi(listed(l.efi_boot))
                && all_binary_warnings(binaries_view(l.efi_binaries@), *db).len() > 0 ==> r.has_efi_boot_dir
                && strings_view(r.revocation_warnings@) == all_binary_warnings(binaries_view(l.efi_binaries@), *db),
            None => true,
        },
        match listing {
            Some(l) => image.reads_succeed() && udf_spec(sector_views(descriptors@)) && iso9660_fields(
                *l,
                volume_label_spec(sector_views(descriptors@)),
            ).os_kind != OsKind::Linux ==> after_udf_pass(
                r,
                udf_fields(
                    iso9660_fields(*l, volume_label_spec(sector_views(descriptors@))),
                    image_udf_view(image.image()),
                ),
            ),
            None => true,
        },
{
    let ghost img = image.image();
    let ghost reads = image.reads_succeed();
    let mut report = IsoReport::unknown(total_size);
    report.is_isohybrid = detect_isohybrid(mbr);
    report.label = read_volume_label(descriptors);
    let listing = match listing {
        None => {
            return report;
        },
        Some(l) => l,
    };
    apply_iso9660_markers(&mut report, listing);
    apply_iso9660_classification(&mut report, listing);
    assert(fields_of(report) == iso9660_fields(*listing, volume_label_spec(sector_views(descriptors@))));
    let (udf, source) = if report.os_kind != OsKind::Linux && detect_udf(descriptors) {
        udf_pass(&mut report, image)
    } else {
        (None, Some(image))
    };
    if report.os_kind == OsKind::Other {
        let lower = chars_of(to_lowercase_unicode(report.label.as_str()).as_str());
        if contains(&lower, &chars_of("bsd")) {
            report.os_kind = OsKind::Bsd;
        }
    }
    proof {
        let label = volume_label_spec(sector_views(descriptors@));
        if reads {
            assert(scan_reads_succeed(udf, source));
            assert(scan_tree(udf, source) == if open_spec(img) is Some {
                Some(img)
            } else {
                None
            });
            assert(report.has_efi_boot_dir == efi_before_scan(*listing, label, udf_spec(sector_views(descriptors@)), img));
        }
        assert(strings_view(report.revocation_warnings@) =~= seq![]);
    }
    revocation_pass(&mut report, listing.efi_binaries.as_slice(), udf, source, db);
    report
}

/// The five digests of an image's bytes, each in lower-case hex.
pub open spec fn hashes_spec(data: Seq<u8>) -> (Seq<char>, Seq<char>, Seq<char>, Seq<char>, Seq<char>) {
    (
        crate::windisco::hex_string(crate::digest::md5_hash(data)),
        crate::windisco::hex_string(crate::digest::sha1_hash(data)),
        crate::windisco::hex_string(crate::digest::sha256(data)),
        crate::windisco::hex_string(crate::digest::sha512_hash(data)),
        crate::windisco::hex_string(crate::digest::blake3_hash(data)),
    )
}

/// All five digests of an image's bytes (MD5, SHA-1, SHA-256, SHA-512 and
/// BLAKE3), each in lower-case hex, so the user can check whichever one the
/// publisher gives.
pub fn compute_hashes(data: &[u8]) -> (r: crate::controller::IsoHashes)
    ensures
        hashes_spec(data@) == (r.md5@, r.sha1@, r.sha256@, r.sha512@, r.blake3@),
{
    let md5 = crate::windisco::hex(crate::digest::md5_digest(data).as_slice());
    let sha1 = crate::windisco::hex(crate::digest::sha1_digest(data).as_slice());
    let sha256 = crate::windisco::hex(crate::digest::sha256_digest(data).as_slice());
    let sha512 = crate::windisco::hex(crate::digest::sha512_digest(data).as_slice());
    let blake3 = crate::windisco::hex(crate::digest::blake3_digest(data).as_slice());
    crate::controller::IsoHashes { md5, sha1, sha256, sha512, blake3 }
}

} // verus!
