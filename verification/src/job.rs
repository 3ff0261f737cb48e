//! The fully-resolved description of a write job.
//!
//! The GUI builds a [`Job`] and hands it to the privileged helper, which
//! executes it verbatim: every choice is pinned down here.
use crate::iso_report::{DistroFamily, PersistenceKind};
use vstd::prelude::*;

verus! {

/// The partition table type to write.
#[derive(Clone, Copy, Debug, PartialEq, Eq, Structural)]
pub enum PartitionTable {
    /// GUID Partition Table, for UEFI booting.
    Gpt,
    /// Master Boot Record, for legacy BIOS booting.
    Mbr,
    /// MBR with the data partition flagged bootable, for BIOS and UEFI.
    MbrBiosUefi,
    /// GPT with a synthesised hybrid MBR.
    HybridMbrGpt,
}

impl PartitionTable {
    /// The label shown in the UI for each table type.
    pub open spec fn label_spec(self) -> Seq<char> {
        match self {
            PartitionTable::Gpt => "GPT (UEFI)"@,
            PartitionTable::Mbr => "MBR (BIOS)"@,
            PartitionTable::MbrBiosUefi => "MBR (BIOS+UEFI)"@,
            PartitionTable::HybridMbrGpt => "Hybrid MBR+GPT (BIOS+UEFI)"@,
        }
    }

    /// Label shown in the UI.
    pub fn label(self) -> (r: &'static str)
        ensures
            r@ == self.label_spec(),
    {
        match self {
            PartitionTable::Gpt => "GPT (UEFI)",
            PartitionTable::Mbr => "MBR (BIOS)",
            PartitionTable::MbrBiosUefi => "MBR (BIOS+UEFI)",
            PartitionTable::HybridMbrGpt => "Hybrid MBR+GPT (BIOS+UEFI)",
        }
    }
}

/// The filesystem to create on the target's main partition.
#[derive(Clone, Copy, Debug, PartialEq, Eq, Structural)]
pub enum FileSystem {
    Fat32,
    Fat16,
    Ntfs,
    ExFat,
    Ext4,
    Ext3,
    Ext2,
    Udf,
    Btrfs,
    Xfs,
    F2fs,
    Jfs,
    Nilfs2,
}

impl FileSystem {
    /// The short UI name of each filesystem.
    pub open spec fn label_spec(self) -> Seq<char> {
        match self {
            FileSystem::Fat32 => "FAT32"@,
            FileSystem::Fat16 => "FAT16"@,
            FileSystem::Ntfs => "NTFS"@,
            FileSystem::ExFat => "exFAT"@,
            FileSystem::Ext4 => "ext4"@,
            FileSystem::Ext3 => "ext3"@,
            FileSystem::Ext2 => "ext2"@,
            FileSystem::Udf => "UDF"@,
            FileSystem::Btrfs => "Btrfs"@,
            FileSystem::Xfs => "XFS"@,
            FileSystem::F2fs => "F2FS"@,
            FileSystem::Jfs => "JFS"@,
            FileSystem::Nilfs2 => "NILFS2"@,
        }
    }

    /// The formatter binary each filesystem needs.
    pub open spec fn mkfs_tool_spec(self) -> Seq<char> {
        match self {
            FileSystem::Fat32 | FileSystem::Fat16 => "mkfs.vfat"@,
            FileSystem::Ntfs => "mkfs.ntfs"@,
            FileSystem::ExFat => "mkfs.exfat"@,
            FileSystem::Ext4 => "mkfs.ext4"@,
            FileSystem::Ext3 => "mkfs.ext3"@,
            FileSystem::Ext2 => "mkfs.ext2"@,
            FileSystem::Udf => "mkudffs"@,
            FileSystem::Btrfs => "mkfs.btrfs"@,
            FileSystem::Xfs => "mkfs.xfs"@,
            FileSystem::F2fs => "mkfs.f2fs"@,
            FileSystem::Jfs => "mkfs.jfs"@,
            FileSystem::Nilfs2 => "mkfs.nilfs2"@,
        }
    }

    /// Every filesystem, in UI display order.
    pub open spec fn all_spec() -> Seq<FileSystem> {
        seq![
            FileSystem::Fat32,
            FileSystem::Fat16,
            FileSystem::Ntfs,
            FileSystem::ExFat,
            FileSystem::Udf,
            FileSystem::Ext4,
            FileSystem::Ext3,
            FileSystem::Ext2,
            FileSystem::Btrfs,
            FileSystem::Xfs,
            FileSystem::F2fs,
            FileSystem::Jfs,
            FileSystem::Nilfs2,
        ]
    }

    /// Short name shown in the UI.
    pub fn label(self) -> (r: &'static str)
        ensures
            r@ == self.label_spec(),
    {
        match self {
            FileSystem::Fat32 => "FAT32",
            FileSystem::Fat16 => "FAT16",
            FileSystem::Ntfs => "NTFS",
            FileSystem::ExFat => "exFAT",
            FileSystem::Ext4 => "ext4",
            FileSystem::Ext3 => "ext3",
            FileSystem::Ext2 => "ext2",
            FileSystem::Udf => "UDF",
            FileSystem::Btrfs => "Btrfs",
            FileSystem::Xfs => "XFS",
            FileSystem::F2fs => "F2FS",
            FileSystem::Jfs => "JFS",
            FileSystem::Nilfs2 => "NILFS2",
        }
    }

    /// Each filesystem has its own formatter, but FAT32 and FAT16 share
    /// `mkfs.vfat`; every formatter but UDF's `mkudffs` is an `mkfs.` tool.
    pub proof fn law_mkfs_tools_distinct(a: FileSystem, b: FileSystem)
        ensures
            a.mkfs_tool_spec() == b.mkfs_tool_spec() <==> (a == b || ((a == FileSystem::Fat32 || a == FileSystem::Fat16)
                && (b == FileSystem::Fat32 || b == FileSystem::Fat16))),
            a != FileSystem::Udf ==> crate::text::is_prefix("mkfs."@, a.mkfs_tool_spec()),
    {
        reveal_strlit("mkfs.vfat");
        reveal_strlit("mkfs.ntfs");
        reveal_strlit("mkfs.exfat");
        reveal_strlit("mkfs.ext4");
        reveal_strlit("mkfs.ext3");
        reveal_strlit("mkfs.ext2");
        reveal_strlit("mkudffs");
        reveal_strlit("mkfs.btrfs");
        reveal_strlit("mkfs.xfs");
        reveal_strlit("mkfs.f2fs");
        reveal_strlit("mkfs.jfs");
        reveal_strlit("mkfs.nilfs2");
        reveal_strlit("mkfs.");
        let x = a.mkfs_tool_spec();
        let y = b.mkfs_tool_spec();
        if x == y {
            assert(x.len() == y.len());
            assert(x[5] == y[5] && x[6] == y[6] && x[7] == y[7]);
            if x.len() > 8 {
                assert(x[8] == y[8]);
            }
        }
        if a != FileSystem::Udf {
            assert(x.subrange(0, 5) =~= "mkfs."@);
        }
    }

    /// The mkfs binary needed to create this filesystem.
    pub fn mkfs_tool(self) -> (r: &'static str)
        ensures
            r@ == self.mkfs_tool_spec(),
    {
        match self {
            FileSystem::Fat32 | FileSystem::Fat16 => "mkfs.vfat",
            FileSystem::Ntfs => "mkfs.ntfs",
            FileSystem::ExFat => "mkfs.exfat",
            FileSystem::Ext4 => "mkfs.ext4",
            FileSystem::Ext3 => "mkfs.ext3",
            FileSystem::Ext2 => "mkfs.ext2",
            FileSystem::Udf => "mkudffs",
            FileSystem::Btrfs => "mkfs.btrfs",
            FileSystem::Xfs => "mkfs.xfs",
            FileSystem::F2fs => "mkfs.f2fs",
            FileSystem::Jfs => "mkfs.jfs",
            FileSystem::Nilfs2 => "mkfs.nilfs2",
        }
    }

    /// Every filesystem usbooty knows how to create, in UI display order:
    /// FAT32 first, then its size-class peers, then the Linux-native families.
    pub fn all() -> (r: Vec<FileSystem>)
        ensures
            r@ == Self::all_spec(),
    {
        let r = vec![
            FileSystem::Fat32,
            FileSystem::Fat16,
            FileSystem::Ntfs,
            FileSystem::ExFat,
            FileSystem::Udf,
            FileSystem::Ext4,
            FileSystem::Ext3,
            FileSystem::Ext2,
            FileSystem::Btrfs,
            FileSystem::Xfs,
            FileSystem::F2fs,
            FileSystem::Jfs,
            FileSystem::Nilfs2,
        ];
        assert(r@ =~= Self::all_spec());
        r
    }
}

/// How a Windows `install.wim` larger than FAT32's 4 GiB file limit is handled.
#[derive(Clone, Copy, Debug, PartialEq, Eq, Structural)]
pub enum WimStrategy {
    /// No oversized image.
    NotNeeded,
    /// The UEFI:NTFS two-partition layout.
    UefiNtfs,
    /// Split `install.wim` into chunks below 4 GiB.
    Split,
}

/// Cross-cutting options that apply to every job mode.
#[derive(Clone, Debug, PartialEq, Eq)]
pub struct JobOptions {
    /// Volume label for the main partition; empty falls back to a default.
    pub label: String,
    /// Zero the whole device before partitioning.
    pub full_format: bool,
    /// Read the written data back and verify it.
    pub verify: bool,
}

impl Default for JobOptions {
    fn default() -> (r: Self)
        ensures
            r.label@ == Seq::<char>::empty(),
            !r.full_format,
            !r.verify,
    {
        JobOptions { label: String::new(), full_format: false, verify: false }
    }
}

/// An optional persistent overlay partition for a Linux live USB.
#[derive(Clone, Copy, Debug, PartialEq, Eq, Structural)]
pub struct Persistence {
    /// Which live-system persistence scheme to set up.
    pub kind: PersistenceKind,
    /// Size of the persistence partition, in bytes.
    pub size_bytes: u64,
}

/// Optional customization of a Windows installation, applied via a generated
/// `autounattend.xml` placed on the USB.
#[derive(Clone, Debug, PartialEq, Eq)]
pub struct WindowsSetup {
    pub bypass_tpm: bool,
    pub bypass_secureboot: bool,
    pub bypass_ram: bool,
    pub bypass_storage: bool,
    pub bypass_cpu: bool,
    pub bypass_disk: bool,
    pub skip_msaccount: bool,
    pub disable_network_during_oobe: bool,
    pub hide_wireless_setup: bool,
    pub hide_oem_registration: bool,
    pub network_location_work: bool,
    pub disable_telemetry: bool,
    pub accept_eula: bool,
    pub enable_dotnet35: bool,
    pub local_account: Option<String>,
    pub local_account_password: Option<String>,
    pub computer_name: Option<String>,
    pub locale: Option<String>,
    pub timezone: Option<String>,
    pub product_key: Option<String>,
    pub apply_debloat: bool,
    pub disable_bitlocker: bool,
    pub windows_ca_2023: bool,
    pub desktop_helpers: bool,
}

impl Default for WindowsSetup {
    fn default() -> (r: Self)
        ensures
            !r.is_active_spec(),
    {
        WindowsSetup {
            bypass_tpm: false,
            bypass_secureboot: false,
            bypass_ram: false,
            bypass_storage: false,
            bypass_cpu: false,
            bypass_disk: false,
            skip_msaccount: false,
            disable_network_during_oobe: false,
            hide_wireless_setup: false,
            hide_oem_registration: false,
            network_location_work: false,
            disable_telemetry: false,
            accept_eula: false,
            enable_dotnet35: false,
            local_account: None,
            local_account_password: None,
            computer_name: None,
            locale: None,
            timezone: None,
            product_key: None,
            apply_debloat: false,
            disable_bitlocker: false,
            windows_ca_2023: false,
            desktop_helpers: false,
        }
    }
}

impl WindowsSetup {
    /// Some customization is requested: a flag is set or a value is given.
    pub open spec fn is_active_spec(&self) -> bool {
        ||| self.bypass_tpm
        ||| self.bypass_secureboot
        ||| self.bypass_ram
        ||| self.bypass_storage
        ||| self.bypass_cpu
        ||| self.bypass_disk
        ||| self.skip_msaccount
        ||| self.disable_network_during_oobe
        ||| self.hide_wireless_setup
        ||| self.hide_oem_registration
        ||| self.network_location_work
        ||| self.disable_telemetry
        ||| self.accept_eula
        ||| self.enable_dotnet35
        ||| self.local_account is Some
        ||| self.local_account_password is Some
        ||| self.computer_name is Some
        ||| self.locale is Some
        ||| self.timezone is Some
        ||| self.product_key is Some
        ||| self.apply_debloat
        ||| self.disable_bitlocker
        ||| self.windows_ca_2023
        ||| self.desktop_helpers
    }

    /// Whether any customization is actually requested.
    pub fn is_active(&self) -> (r: bool)
        ensures
            r == self.is_active_spec(),
    {
        self.bypass_tpm || self.bypass_secureboot || self.bypass_ram || self.bypass_storage
            || self.bypass_cpu || self.bypass_disk || self.skip_msaccount
            || self.disable_network_during_oobe || self.hide_wireless_setup
            || self.hide_oem_registration || self.network_location_work || self.disable_telemetry
            || self.accept_eula || self.enable_dotnet35 || self.local_account.is_some()
            || self.local_account_password.is_some() || self.computer_name.is_some()
            || self.locale.is_some() || self.timezone.is_some() || self.product_key.is_some()
            || self.apply_debloat || self.disable_bitlocker || self.windows_ca_2023
            || self.desktop_helpers
    }
}

/// Intensity of a [`Job::Check`] run.
#[derive(Clone, Copy, Debug, PartialEq, Eq, Structural)]
pub enum CheckMode {
    /// Sampling check that catches counterfeit drives.
    Quick,
    /// Destructive bad-blocks scan over every sector.
    Full,
}

/// A complete, executable description of one write operation. Paths are
/// held as strings.
#[derive(Clone, Debug, PartialEq, Eq)]
pub enum Job {
    /// Raw byte-for-byte write of `iso_path` onto `device_path`.
    Dd { iso_path: String, device_path: String, opts: JobOptions },
    /// Partition `device_path`, create a filesystem, and copy the ISO contents.
    Partitioned {
        iso_path: String,
        device_path: String,
        table: PartitionTable,
        filesystem: FileSystem,
        wim: WimStrategy,
        uefi_ntfs_img: Option<String>,
        persistence: Option<Persistence>,
        windows_setup: Option<WindowsSetup>,
        install_bootloader: bool,
        distro: DistroFamily,
        opts: JobOptions,
    },
    /// Partition and format `device_path` with no payload.
    Format {
        device_path: String,
        table: PartitionTable,
        filesystem: FileSystem,
        opts: JobOptions,
    },
    /// Install or update Ventoy, optionally copying `iso_path` onto it.
    Ventoy {
        device_path: String,
        table: PartitionTable,
        secure_boot: bool,
        update: bool,
        iso_path: Option<String>,
    },
    /// Snapshot a device into an image file.
    Backup { device_path: String, image_path: String, opts: JobOptions },
    /// Integrity checks on a device.
    Check { device_path: String, mode: CheckMode },
    /// A FreeDOS-bootable USB stick.
    Freedos {
        device_path: String,
        table: PartitionTable,
        filesystem: FileSystem,
        kernel_sys: String,
        command_com: String,
        boot_bin: String,
        opts: JobOptions,
    },
}

impl Job {
    /// The target device of every job kind.
    pub open spec fn device_path_spec(&self) -> String {
        match self {
            Job::Dd { device_path, .. } => *device_path,
            Job::Partitioned { device_path, .. } => *device_path,
            Job::Format { device_path, .. } => *device_path,
            Job::Ventoy { device_path, .. } => *device_path,
            Job::Backup { device_path, .. } => *device_path,
            Job::Check { device_path, .. } => *device_path,
            Job::Freedos { device_path, .. } => *device_path,
        }
    }

    /// The source image of the job kinds that have one.
    pub open spec fn iso_path_spec(&self) -> Option<String> {
        match self {
            Job::Dd { iso_path, .. } => Some(*iso_path),
            Job::Partitioned { iso_path, .. } => Some(*iso_path),
            Job::Ventoy { iso_path, .. } => *iso_path,
            _ => None,
        }
    }

    /// The target device node for this job.
    pub fn device_path(&self) -> (r: &String)
        ensures
            *r == self.device_path_spec(),
    {
        match self {
            Job::Dd { device_path, .. } => device_path,
            Job::Partitioned { device_path, .. } => device_path,
            Job::Format { device_path, .. } => device_path,
            Job::Ventoy { device_path, .. } => device_path,
            Job::Backup { device_path, .. } => device_path,
            Job::Check { device_path, .. } => device_path,
            Job::Freedos { device_path, .. } => device_path,
        }
    }

    /// The source ISO for this job, if it has one.
    pub fn iso_path(&self) -> (r: Option<&String>)
        ensures
            r matches Some(p) ==> self.iso_path_spec() == Some(*p),
            r is None ==> self.iso_path_spec() is None,
    {
        match self {
            Job::Dd { iso_path, .. } => Some(iso_path),
            Job::Partitioned { iso_path, .. } => Some(iso_path),
            Job::Ventoy { iso_path, .. } => match iso_path {
                Some(p) => Some(p),
                None => None,
            },
            _ => None,
        }
    }
}

} // verus!
