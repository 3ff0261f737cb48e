//! The external command-line tools usbooty relies on: the table of them,
//! and the reports built from whether each is present.
//!
//! Detection is advisory: a missing tool only matters once a method that
//! needs it is used. Probing the host happens outside; these functions
//! take its results.
use crate::job::FileSystem;
use crate::text::{append_str, chars_of, string_from_chars};
use vstd::prelude::*;

verus! {

/// Which area a dependency belongs to.
#[derive(Clone, Copy, Debug, PartialEq, Eq, Structural)]
pub enum DepKind {
    /// The app cannot run without it.
    Required,
    /// A filesystem formatter.
    Filesystem,
    /// A backend behind a specific write method.
    Feature,
    /// Used only by the QEMU boot test.
    BootTest,
    /// Pure quality-of-life; the app degrades silently when absent.
    QualityOfLife,
}

impl DepKind {
    /// Missing tools of the required, filesystem and feature kinds are
    /// worth a startup banner.
    pub open spec fn in_banner_spec(self) -> bool {
        match self {
            DepKind::Required | DepKind::Filesystem | DepKind::Feature => true,
            _ => false,
        }
    }

    /// Whether a missing tool of this kind is surfaced in the startup banner.
    pub fn in_banner(self) -> (r: bool)
        ensures
            r == self.in_banner_spec(),
    {
        match self {
            DepKind::Required | DepKind::Filesystem | DepKind::Feature => true,
            _ => false,
        }
    }

    /// The grouping key of each kind.
    pub open spec fn key_spec(self) -> Seq<char> {
        match self {
            DepKind::Required => "required"@,
            DepKind::Filesystem => "filesystem"@,
            DepKind::Feature => "feature"@,
            DepKind::BootTest => "boot"@,
            DepKind::QualityOfLife => "qol"@,
        }
    }

    /// Stable key the Dependencies dialog groups rows by.
    pub fn key(self) -> (r: &'static str)
        ensures
            r@ == self.key_spec(),
    {
        match self {
            DepKind::Required => "required",
            DepKind::Filesystem => "filesystem",
            DepKind::Feature => "feature",
            DepKind::BootTest => "boot",
            DepKind::QualityOfLife => "qol",
        }
    }
}

/// How a dependency's presence is tested.
#[derive(Clone, Copy, Debug, PartialEq, Eq)]
pub enum Probe {
    /// An executable on `PATH` (or a standard `sbin` directory).
    Bin,
    /// A specific file or device node exists.
    Path(&'static str),
    /// OVMF UEFI firmware is installed.
    Ovmf,
}

/// One dependency the app or helper may use, and how to detect it.
#[derive(Clone, Copy, Debug)]
pub struct DepSpec {
    pub kind: DepKind,
    /// The binary name, or a component name for non-binary entries.
    pub name: &'static str,
    /// Common package name across the major distribution families.
    pub package: &'static str,
    /// One-line note on what it is for.
    pub purpose: &'static str,
    pub probe: Probe,
}

/// Number of dependencies in the table.
pub const DEP_COUNT: usize = 23;

/// Dependency `i`: its kind, name, package and purpose.
pub open spec fn dep_entry(i: usize) -> (DepKind, Seq<char>, Seq<char>, Seq<char>) {
    match i {
        0 => (DepKind::Required, "pkexec"@, "polkit"@, "Privilege escalation for every device write"@),
        1 => (DepKind::Filesystem, "mkfs.vfat"@, "dosfstools"@, "FAT16 / FAT32 formatting"@),
        2 => (DepKind::Filesystem, "mkfs.ntfs"@, "ntfs-3g"@, "NTFS formatting (Windows media, UEFI:NTFS)"@),
        3 => (DepKind::Filesystem, "mkfs.exfat"@, "exfatprogs"@, "exFAT formatting"@),
        4 => (DepKind::Filesystem, "mkfs.ext4"@, "e2fsprogs"@, "ext2 / ext3 / ext4 formatting + Linux persistence"@),
        5 => (DepKind::Filesystem, "mkudffs"@, "udftools"@, "UDF formatting"@),
        6 => (DepKind::Filesystem, "mkfs.btrfs"@, "btrfs-progs"@, "Btrfs formatting"@),
        7 => (DepKind::Filesystem, "mkfs.xfs"@, "xfsprogs"@, "XFS formatting"@),
        8 => (DepKind::Filesystem, "mkfs.f2fs"@, "f2fs-tools"@, "F2FS formatting"@),
        9 => (DepKind::Filesystem, "mkfs.jfs"@, "jfsutils"@, "JFS formatting"@),
        10 => (DepKind::Filesystem, "mkfs.nilfs2"@, "nilfs-utils"@, "NILFS2 formatting"@),
        11 => (DepKind::Feature, "ventoy"@, "ventoy"@, "Ventoy multi-boot USB creation"@),
        12 => (DepKind::Feature, "wimlib-imagex"@, "wimlib"@, "Split install.wim for Windows installers on FAT32"@),
        13 => (DepKind::Feature, "syslinux"@, "syslinux"@, "BIOS / legacy MBR bootloader for Linux ISOs"@),
        14 => (DepKind::Feature, "xorriso"@, "libisoburn"@, "Advanced ISO inspection / repair"@),
        15 => (DepKind::Feature, "mformat"@, "mtools"@, "FreeDOS bootable USB (mformat / mcopy)"@),
        16 => (DepKind::BootTest, "qemu-system-x86_64"@, "qemu-full"@, "Boot-test a device in a virtual machine"@),
        17 => (DepKind::BootTest, "OVMF firmware"@, "edk2-ovmf"@, "UEFI firmware for the boot test (BIOS works without it)"@),
        18 => (DepKind::BootTest, "KVM (/dev/kvm)"@, "kernel virtualization"@, "Hardware acceleration for the boot test"@),
        19 => (DepKind::QualityOfLife, "smartctl"@, "smartmontools"@, "SMART health probe + Inspect-dialog SMART panel"@),
        20 => (DepKind::QualityOfLife, "udisksctl"@, "udisks2"@, "Auto-mount + open the Ventoy data partition"@),
        21 => (DepKind::QualityOfLife, "xdg-open"@, "xdg-utils"@, "Open the data partition in your file manager"@),
        22 => (DepKind::QualityOfLife, "notify-send"@, "libnotify"@, "Desktop notification when a long job finishes"@),
        _ => (DepKind::QualityOfLife, seq![], seq![], seq![]),
    }
}

/// How dependency `i` is probed.
pub open spec fn dep_probe(i: usize) -> Probe {
    match i {
        0 => Probe::Bin,
        1 => Probe::Bin,
        2 => Probe::Bin,
        3 => Probe::Bin,
        4 => Probe::Bin,
        5 => Probe::Bin,
        6 => Probe::Bin,
        7 => Probe::Bin,
        8 => Probe::Bin,
        9 => Probe::Bin,
        10 => Probe::Bin,
        11 => Probe::Bin,
        12 => Probe::Bin,
        13 => Probe::Bin,
        14 => Probe::Bin,
        15 => Probe::Bin,
        16 => Probe::Bin,
        17 => Probe::Ovmf,
        18 => Probe::Path("/dev/kvm"),
        19 => Probe::Bin,
        20 => Probe::Bin,
        21 => Probe::Bin,
        22 => Probe::Bin,
        _ => Probe::Bin,
    }
}

/// Dependency `i` of the table.
pub fn dep_at(i: usize) -> (r: DepSpec)
    requires
        i < DEP_COUNT,
    ensures
        (r.kind, r.name@, r.package@, r.purpose@) == dep_entry(i),
        r.probe == dep_probe(i),
{
    match i {
        0 => DepSpec { kind: DepKind::Required, name: "pkexec", package: "polkit", purpose: "Privilege escalation for every device write", probe: Probe::Bin },
        1 => DepSpec { kind: DepKind::Filesystem, name: "mkfs.vfat", package: "dosfstools", purpose: "FAT16 / FAT32 formatting", probe: Probe::Bin },
        2 => DepSpec { kind: DepKind::Filesystem, name: "mkfs.ntfs", package: "ntfs-3g", purpose: "NTFS formatting (Windows media, UEFI:NTFS)", probe: Probe::Bin },
        3 => DepSpec { kind: DepKind::Filesystem, name: "mkfs.exfat", package: "exfatprogs", purpose: "exFAT formatting", probe: Probe::Bin },
        4 => DepSpec { kind: DepKind::Filesystem, name: "mkfs.ext4", package: "e2fsprogs", purpose: "ext2 / ext3 / ext4 formatting + Linux persistence", probe: Probe::Bin },
        5 => DepSpec { kind: DepKind::Filesystem, name: "mkudffs", package: "udftools", purpose: "UDF formatting", probe: Probe::Bin },
        6 => DepSpec { kind: DepKind::Filesystem, name: "mkfs.btrfs", package: "btrfs-progs", purpose: "Btrfs formatting", probe: Probe::Bin },
        7 => DepSpec { kind: DepKind::Filesystem, name: "mkfs.xfs", package: "xfsprogs", purpose: "XFS formatting", probe: Probe::Bin },
        8 => DepSpec { kind: DepKind::Filesystem, name: "mkfs.f2fs", package: "f2fs-tools", purpose: "F2FS formatting", probe: Probe::Bin },
        9 => DepSpec { kind: DepKind::Filesystem, name: "mkfs.jfs", package: "jfsutils", purpose: "JFS formatting", probe: Probe::Bin },
        10 => DepSpec { kind: DepKind::Filesystem, name: "mkfs.nilfs2", package: "nilfs-utils", purpose: "NILFS2 formatting", probe: Probe::Bin },
        11 => DepSpec { kind: DepKind::Feature, name: "ventoy", package: "ventoy", purpose: "Ventoy multi-boot USB creation", probe: Probe::Bin },
        12 => DepSpec { kind: DepKind::Feature, name: "wimlib-imagex", package: "wimlib", purpose: "Split install.wim for Windows installers on FAT32", probe: Probe::Bin },
        13 => DepSpec { kind: DepKind::Feature, name: "syslinux", package: "syslinux", purpose: "BIOS / legacy MBR bootloader for Linux ISOs", probe: Probe::Bin },
        14 => DepSpec { kind: DepKind::Feature, name: "xorriso", package: "libisoburn", purpose: "Advanced ISO inspection / repair", probe: Probe::Bin },
        15 => DepSpec { kind: DepKind::Feature, name: "mformat", package: "mtools", purpose: "FreeDOS bootable USB (mformat / mcopy)", probe: Probe::Bin },
        16 => DepSpec { kind: DepKind::BootTest, name: "qemu-system-x86_64", package: "qemu-full", purpose: "Boot-test a device in a virtual machine", probe: Probe::Bin },
        17 => DepSpec { kind: DepKind::BootTest, name: "OVMF firmware", package: "edk2-ovmf", purpose: "UEFI firmware for the boot test (BIOS works without it)", probe: Probe::Ovmf },
        18 => DepSpec { kind: DepKind::BootTest, name: "KVM (/dev/kvm)", package: "kernel virtualization", purpose: "Hardware acceleration for the boot test", probe: Probe::Path("/dev/kvm") },
        19 => DepSpec { kind: DepKind::QualityOfLife, name: "smartctl", package: "smartmontools", purpose: "SMART health probe + Inspect-dialog SMART panel", probe: Probe::Bin },
        20 => DepSpec { kind: DepKind::QualityOfLife, name: "udisksctl", package: "udisks2", purpose: "Auto-mount + open the Ventoy data partition", probe: Probe::Bin },
        21 => DepSpec { kind: DepKind::QualityOfLife, name: "xdg-open", package: "xdg-utils", purpose: "Open the data partition in your file manager", probe: Probe::Bin },
        22 => DepSpec { kind: DepKind::QualityOfLife, name: "notify-send", package: "libnotify", purpose: "Desktop notification when a long job finishes", probe: Probe::Bin },
        _ => DepSpec { kind: DepKind::QualityOfLife, name: "", package: "", purpose: "", probe: Probe::Bin },
    }
}

/// One dependency's status, for the Dependencies dialog.
#[derive(Clone, Copy, Debug)]
pub struct DepStatus {
    /// Grouping key (see [`DepKind::key`]).
    pub kind_key: &'static str,
    pub name: &'static str,
    pub package: &'static str,
    pub purpose: &'static str,
    pub present: bool,
}

/// Every dependency with its presence (`present[i]` for dependency `i`).
pub fn full_report(present: &[bool]) -> (r: Vec<DepStatus>)
    requires
        present@.len() == DEP_COUNT,
    ensures
        r@.len() == DEP_COUNT,
        forall|i: int|
            0 <= i < DEP_COUNT ==> {
                let e = dep_entry(i as usize);
                &&& (#[trigger] r@[i]).kind_key@ == e.0.key_spec()
                &&& r@[i].name@ == e.1
                &&& r@[i].package@ == e.2
                &&& r@[i].purpose@ == e.3
                &&& r@[i].present == present@[i]
            },
{
    let mut out: Vec<DepStatus> = Vec::new();
    let mut i: usize = 0;
    while i < DEP_COUNT
        invariant
            i <= DEP_COUNT,
            present@.len() == DEP_COUNT,
            out@.len() == i,
            forall|j: int|
                0 <= j < i ==> {
                    let e = dep_entry(j as usize);
                    &&& (#[trigger] out@[j]).kind_key@ == e.0.key_spec()
                    &&& out@[j].name@ == e.1
                    &&& out@[j].package@ == e.2
                    &&& out@[j].purpose@ == e.3
                    &&& out@[j].present == present@[j]
                },
        decreases DEP_COUNT - i,
    {
        let d = dep_at(i);
        out.push(DepStatus {
            kind_key: d.kind.key(),
            name: d.name,
            package: d.package,
            purpose: d.purpose,
            present: present[i],
        });
        i = i + 1;
    }
    out
}

/// The banner-worthy dependencies among the first `n` that are missing.
pub open spec fn missing_deps(present: Seq<bool>, n: int) -> Seq<usize>
    decreases n,
{
    if n <= 0 {
        seq![]
    } else {
        let prev = missing_deps(present, n - 1);
        if dep_entry((n - 1) as usize).0.in_banner_spec() && !present[n - 1] {
            prev.push((n - 1) as usize)
        } else {
            prev
        }
    }
}

/// `name (package)` for each listed dependency, joined with `, `.
pub open spec fn missing_list(idx: Seq<usize>) -> Seq<char>
    decreases idx.len(),
{
    if idx.len() == 0 {
        seq![]
    } else if idx.len() == 1 {
        dep_entry(idx[0]).1 + " ("@ + dep_entry(idx[0]).2 + ")"@
    } else {
        missing_list(idx.drop_last()) + ", "@ + dep_entry(idx.last()).1 + " ("@ + dep_entry(
            idx.last(),
        ).2 + ")"@
    }
}

/// Some listed dependency is a required one.
pub open spec fn any_required(idx: Seq<usize>) -> bool {
    exists|j: int| 0 <= j < idx.len() && dep_entry(#[trigger] idx[j]).0 == DepKind::Required
}

/// The startup banner: empty when nothing banner-worthy is missing, else
/// the list of missing tools, flagged as required when one of them is.
pub open spec fn warning_spec(present: Seq<bool>) -> Seq<char> {
    let m = missing_deps(present, DEP_COUNT as int);
    if m.len() == 0 {
        seq![]
    } else if any_required(m) {
        "Required tools are missing. Install: "@ + missing_list(m)
    } else {
        "Optional tools are missing (some methods unavailable). Install: "@ + missing_list(m)
    }
}

/// A one-line warning about missing tools, or an empty string when every
/// banner-worthy tool is present (`present[i]` for dependency `i`).
pub fn warning(present: &[bool]) -> (r: String)
    requires
        present@.len() == DEP_COUNT,
    ensures
        r@ == warning_spec(present@),
{
    let mut list: Vec<char> = Vec::new();
    let mut count: usize = 0;
    let mut required = false;
    let ghost mut idx: Seq<usize> = seq![];
    let mut i: usize = 0;
    while i < DEP_COUNT
        invariant
            i <= DEP_COUNT,
            present@.len() == DEP_COUNT,
            idx == missing_deps(present@, i as int),
            count == idx.len(),
            count <= i,
            list@ == missing_list(idx),
            required == any_required(idx),
        decreases DEP_COUNT - i,
    {
        let d = dep_at(i);
        if d.kind.in_banner() && !present[i] {
            if count > 0 {
                append_str(&mut list, ", ");
            }
            append_str(&mut list, d.name);
            append_str(&mut list, " (");
            append_str(&mut list, d.package);
            append_str(&mut list, ")");
            proof {
                let old_idx = idx;
                idx = idx.push(i);
                assert(idx.drop_last() =~= old_idx);
                if any_required(old_idx) {
                    let j = choose|j: int| 0 <= j < old_idx.len() && dep_entry(#[trigger] old_idx[j]).0 == DepKind::Required;
                    assert(idx[j] == old_idx[j]);
                }
                if any_required(idx) {
                    let j = choose|j: int| 0 <= j < idx.len() && dep_entry(#[trigger] idx[j]).0 == DepKind::Required;
                    if j < old_idx.len() {
                        assert(old_idx[j] == idx[j]);
                    }
                }
                if d.kind == DepKind::Required {
                    assert(idx[idx.len() - 1] == i);
                }
            }
            match d.kind {
                DepKind::Required => {
                    required = true;
                },
                _ => {},
            }
            count = count + 1;
        }
        i = i + 1;
    }
    if count == 0 {
        return String::new();
    }
    let mut out = if required {
        chars_of("Required tools are missing. Install: ")
    } else {
        chars_of("Optional tools are missing (some methods unavailable). Install: ")
    };
    crate::text::append_chars(&mut out, &list);
    string_from_chars(&out)
}

/// Among the first `n` of [`FileSystem::all`], in that order: FAT32 (the
/// first), whether or not its tool is present, and every other filesystem
/// whose tool is.
pub open spec fn available_spec(present: Seq<bool>, n: int) -> Seq<FileSystem>
    decreases n,
{
    if n <= 0 {
        seq![]
    } else if n - 1 == 0 || present[n - 1] {
        available_spec(present, n - 1).push(FileSystem::all_spec()[n - 1])
    } else {
        available_spec(present, n - 1)
    }
}

proof fn lemma_available_starts_with_fat32(present: Seq<bool>, n: int)
    requires
        n >= 1,
    ensures
        available_spec(present, n).len() > 0,
        available_spec(present, n)[0] == FileSystem::Fat32,
    decreases n,
{
    if n > 1 {
        lemma_available_starts_with_fat32(present, n - 1);
    } else {
        assert(available_spec(present, 0) =~= seq![]);
    }
}

/// The filesystems that can be created on this host, given whether each
/// one's `mkfs` tool is installed (`tool_present[i]` for the `i`-th of
/// [`FileSystem::all`]). FAT32 always appears so the list is never empty.
pub fn available_filesystems(tool_present: &[bool]) -> (r: Vec<FileSystem>)
    requires
        tool_present@.len() == FileSystem::all_spec().len(),
    ensures
        r@ == available_spec(tool_present@, tool_present@.len() as int),
        r@.len() > 0 && r@[0] == FileSystem::Fat32,
{
    let all = FileSystem::all();
    let mut out: Vec<FileSystem> = Vec::new();
    let mut i: usize = 0;
    while i < all.len()
        invariant
            i <= all@.len(),
            all@ == FileSystem::all_spec(),
            tool_present@.len() == all@.len(),
            out@ == available_spec(tool_present@, i as int),
        decreases all@.len() - i,
    {
        if i == 0 || tool_present[i] {
            out.push(all[i]);
        }
        proof {
            if i == 0 {
                assert(available_spec(tool_present@, 0) =~= seq![]);
            }
        }
        i = i + 1;
    }
    proof {
        lemma_available_starts_with_fat32(tool_present@, i as int);
    }
    out
}

} // verus!
