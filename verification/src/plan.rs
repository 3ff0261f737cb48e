//! Pure decision logic: given an [`IsoReport`] and the user's choices, decide
//! the concrete partition layout the helper should produce.
use crate::iso_report::{IsoReport, OsKind};
use crate::job::{FileSystem, PartitionTable, WimStrategy};
use vstd::prelude::*;

verus! {

/// The largest single file FAT32 can store: `0xFFFFFFFF` bytes (4 GiB − 1).
pub const FAT32_MAX_FILE: u64 = 0xFFFF_FFFF;

/// A Windows ISO whose `install.wim` is too large for one FAT32 file.
pub open spec fn needs_wim_choice_spec(report: IsoReport) -> bool {
    report.os_kind == OsKind::Windows && match report.install_wim_size {
        Some(size) => size > FAT32_MAX_FILE,
        None => false,
    }
}

/// Whether the FAT32 method must ask the user how to handle this ISO.
///
/// A prompt is needed only for Windows ISOs whose `install.wim` is too large
/// to fit on FAT32 as a single file. Everything else has an unambiguous layout.
pub fn needs_wim_choice(report: &IsoReport) -> (r: bool)
    ensures
        r == needs_wim_choice_spec(*report),
{
    match report.os_kind {
        OsKind::Windows => match report.install_wim_size {
            Some(size) => size > FAT32_MAX_FILE,
            None => false,
        },
        _ => false,
    }
}

/// The resolved layout the helper will produce for the FAT32 method.
#[derive(Debug, Clone, Copy, PartialEq, Eq, Structural)]
pub struct PartitionScheme {
    /// Partition table type to write.
    pub table: PartitionTable,
    /// How to handle an oversized `install.wim`.
    pub wim_strategy: WimStrategy,
    /// Whether the job needs the downloaded `uefi-ntfs.img` resource.
    pub needs_uefi_ntfs_img: bool,
}

/// The WIM strategy for a report and the user's dialog answer: nothing when
/// no choice is needed, the UEFI:NTFS layout only when the user picked it,
/// and splitting otherwise.
pub open spec fn wim_strategy_spec(report: IsoReport, user_wim: Option<WimStrategy>) -> WimStrategy {
    if !needs_wim_choice_spec(report) {
        WimStrategy::NotNeeded
    } else if user_wim == Some(WimStrategy::UefiNtfs) {
        WimStrategy::UefiNtfs
    } else {
        WimStrategy::Split
    }
}

/// Resolve a [`PartitionScheme`] from an ISO report and the user's selections.
///
/// `user_wim` is the choice from the "split vs UEFI:NTFS" dialog; it is only
/// consulted when [`needs_wim_choice`] is true. When a choice is required but
/// none was supplied, this defaults to [`WimStrategy::Split`] (the most
/// firmware-compatible option).
pub fn choose_scheme(
    report: &IsoReport,
    table: PartitionTable,
    user_wim: Option<WimStrategy>,
) -> (r: PartitionScheme)
    ensures
        r.table == table,
        r.wim_strategy == wim_strategy_spec(*report, user_wim),
        r.needs_uefi_ntfs_img <==> r.wim_strategy == WimStrategy::UefiNtfs,
        r.wim_strategy == WimStrategy::NotNeeded <==> !needs_wim_choice_spec(*report),
{
    let wim_strategy = if needs_wim_choice(report) {
        match user_wim {
            Some(WimStrategy::UefiNtfs) => WimStrategy::UefiNtfs,
            _ => WimStrategy::Split,
        }
    } else {
        WimStrategy::NotNeeded
    };
    let needs_img = match wim_strategy {
        WimStrategy::UefiNtfs => true,
        _ => false,
    };
    PartitionScheme { table, wim_strategy, needs_uefi_ntfs_img: needs_img }
}

/// The filesystem and install-image handling chosen automatically from the
/// ISO analysis: NTFS with the UEFI:NTFS layout for a Windows ISO whose
/// install image is too large for FAT32, FAT32 with nothing special
/// otherwise.
pub fn auto_filesystem(report: &IsoReport) -> (r: (FileSystem, WimStrategy))
    ensures
        needs_wim_choice_spec(*report) ==> r == (FileSystem::Ntfs, WimStrategy::UefiNtfs),
        !needs_wim_choice_spec(*report) ==> r == (FileSystem::Fat32, WimStrategy::NotNeeded),
{
    if needs_wim_choice(report) {
        (FileSystem::Ntfs, WimStrategy::UefiNtfs)
    } else {
        (FileSystem::Fat32, WimStrategy::NotNeeded)
    }
}

} // verus!
