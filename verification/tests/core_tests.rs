use usbooty::device::format_size;
use usbooty::iso_report::{DistroFamily, IsoReport, OsKind, PersistenceKind};
use usbooty::job::{PartitionTable, WimStrategy};
use usbooty::plan::{FAT32_MAX_FILE, choose_scheme, needs_wim_choice};
use usbooty::revocation::{
    DbxHashes, RevocationDb, SbatEntry, evaluate_sbat, parse_dbxupdate, parse_sbat_section,
};
use usbooty::udf::{decode_udf_name, read_dstring};
use usbooty::uefi_ntfs::{UEFI_NTFS_IMG_SIZE, validate_uefi_ntfs};

#[test]
fn formats_sizes() {
    assert_eq!(format_size(512), "512 B");
    assert_eq!(format_size(30_752_000_000), "30.8 GB");
}

/// Helper: build a `(name, is_dir, size)` triple for `DistroFamily::detect`.
fn dir(name: &str) -> (String, bool, u64) {
    (name.to_string(), true, 0)
}

#[test]
fn label_pins_derivatives_over_their_parents() {
    // Each derivative must beat its parent. Listed parent-first so a
    // regression that swallows the derivative case is obvious.
    for (label, expected) in [
        ("BAZZITE_GNOME_42_x86_64", DistroFamily::Bazzite),
        ("NOBARA-OFFICIAL", DistroFamily::Nobara),
        ("Fedora-Workstation-Live-x86_64-40", DistroFamily::Fedora),
        ("LMDE-6", DistroFamily::Lmde),
        ("Linux Mint 21.3 Cinnamon", DistroFamily::Mint),
        ("debian-12.5.0-amd64-DVD-1", DistroFamily::Debian),
        ("GeckoLinux_Static_Cinnamon", DistroFamily::GeckoLinux),
        ("openSUSE-Leap-15.6-DVD-x86_64", DistroFamily::OpenSuse),
        ("Manjaro KDE 23.1.4", DistroFamily::Manjaro),
        ("EndeavourOS-2026.05", DistroFamily::EndeavourOs),
        ("CachyOS-Live-2026", DistroFamily::CachyOs),
        ("archlinux-2026.05.01-x86_64", DistroFamily::Arch),
        ("ubuntu-24.04-desktop-amd64", DistroFamily::Ubuntu),
        ("AlmaLinux-9-7-x86_64-Live-GNOME", DistroFamily::AlmaLinux),
        ("Rocky-9-KDE-x86_64-latest", DistroFamily::Rocky),
        ("CentOS-Stream-9-latest-x86_64-Live", DistroFamily::CentOs),
        ("alpine-standard-3.20.0-x86_64", DistroFamily::Alpine),
        ("kali-linux-2026.1-live-amd64", DistroFamily::Kali),
        ("TAILS 6.5 - 20260601", DistroFamily::Tails),
        ("Pop_OS 22.04 amd64 Intel", DistroFamily::PopOs),
        ("Zorin-OS-17.1-Core-64-bit", DistroFamily::Zorin),
        ("elementary OS 8.0", DistroFamily::Elementary),
        ("neon-user-20260601-0716", DistroFamily::KdeNeon),
        ("Linux Lite 7.0", DistroFamily::LinuxLite),
        ("GARUDA_DR460NIZED_RAPTOR", DistroFamily::Garuda),
        ("artix-plasma-openrc-20260501", DistroFamily::Artix),
        ("Puppy BookwormPup64 10.0", DistroFamily::Puppy),
    ] {
        assert_eq!(
            DistroFamily::detect(label, &[]),
            expected,
            "label `{label}` should detect as {expected:?}"
        );
    }
}

#[test]
fn derivative_persistence_routing() {
    // The new families must route to the parent family's scheme.
    assert_eq!(
        DistroFamily::Kali.persistence(),
        Some(PersistenceKind::DebianLive)
    );
    for fam in [
        DistroFamily::PopOs,
        DistroFamily::Zorin,
        DistroFamily::Elementary,
        DistroFamily::KdeNeon,
        DistroFamily::LinuxLite,
    ] {
        assert_eq!(fam.persistence(), Some(PersistenceKind::CasperRw));
    }
    for fam in [DistroFamily::Garuda, DistroFamily::Artix] {
        assert_eq!(fam.persistence(), Some(PersistenceKind::ArchOverlay));
    }
    assert_eq!(
        DistroFamily::Knoppix.persistence(),
        Some(PersistenceKind::KnoppixData)
    );
    // Self-managed persistence: no slider, but a note for the UI.
    for fam in [
        DistroFamily::Tails,
        DistroFamily::Puppy,
        DistroFamily::Antix,
    ] {
        assert_eq!(fam.persistence(), None);
        assert!(fam.persistence_note_key().is_some());
    }
}

#[test]
fn root_markers_pin_antix_and_puppy() {
    // antiX/MX: hard-named `antiX/` directory at the root.
    assert_eq!(
        DistroFamily::detect("CUSTOM-LABEL", &[dir("antiX")]),
        DistroFamily::Antix
    );
    // Puppy: squashfs modules at the root.
    let sfs = ("puppy_bookwormpup64_10.0.sfs".to_string(), false, 1_000u64);
    assert_eq!(
        DistroFamily::detect("CUSTOM", std::slice::from_ref(&sfs)),
        DistroFamily::Puppy
    );
}

#[test]
fn detects_real_world_volume_labels() {
    // Exact ISO volume labels (not filenames) seen on real media. These
    // are the strings detection actually keys on.
    for (label, expected) in [
        ("alpine-std 3.23.4 x86_64", DistroFamily::Alpine),
        ("ARCH_202605", DistroFamily::Arch),
        ("COS_202604", DistroFamily::CachyOs),
        ("Rocky-10-1-x86_64-dvd", DistroFamily::Rocky),
        ("AlmaLinux-10-2-x86_64-dvd", DistroFamily::AlmaLinux),
    ] {
        assert_eq!(
            DistroFamily::detect(label, &[]),
            expected,
            "label `{label}` should detect as {expected:?}"
        );
    }
}

#[test]
fn loose_needles_require_token_boundaries() {
    // "details" contains "tails"; "rockyou" contains "rocky". Neither
    // may classify; the real labels (token-delimited) still must.
    assert_eq!(
        DistroFamily::detect("project details disc", &[]),
        DistroFamily::Unknown
    );
    assert_eq!(
        DistroFamily::detect("rockyou wordlists", &[]),
        DistroFamily::Unknown
    );
    assert_eq!(DistroFamily::detect("TAILS 6.5", &[]), DistroFamily::Tails);
    assert_eq!(
        DistroFamily::detect("Rocky-10-1-x86_64-dvd", &[]),
        DistroFamily::Rocky
    );
}

#[test]
fn root_markers_pin_slax_and_knoppix_even_with_renamed_labels() {
    assert_eq!(
        DistroFamily::detect("ANYTHING", &[dir("slax")]),
        DistroFamily::Slax
    );
    assert_eq!(
        DistroFamily::detect("ANYTHING", &[dir("knoppix")]),
        DistroFamily::Knoppix
    );
}

#[test]
fn structural_fallback_classifies_renamed_isos() {
    // Unknown label but a casper/ directory → call it Ubuntu so the
    // user still gets a persistence offer.
    assert_eq!(
        DistroFamily::detect("CUSTOM_LIVE", &[dir("casper")]),
        DistroFamily::Ubuntu
    );
    assert_eq!(
        DistroFamily::detect("WEIRD_LIVE", &[dir("live")]),
        DistroFamily::Debian
    );
    assert_eq!(
        DistroFamily::detect("MY_ARCH", &[dir("arch")]),
        DistroFamily::Arch
    );
    // A `LiveOS/` directory (Fedora/RHEL dmsquash-live) without a known
    // label is treated as the generic Fedora family.
    assert_eq!(
        DistroFamily::detect("CUSTOM_RHEL", &[dir("LiveOS")]),
        DistroFamily::Fedora
    );
    assert_eq!(DistroFamily::detect("", &[]), DistroFamily::Unknown);
}

#[test]
fn persistence_routing_matches_family() {
    assert_eq!(
        DistroFamily::Mint.persistence(),
        Some(PersistenceKind::CasperRw)
    );
    assert_eq!(
        DistroFamily::Lmde.persistence(),
        Some(PersistenceKind::DebianLive)
    );
    // Fedora-current (and derivatives) use the overlayfs mode; the RHEL
    // rebuilds keep the dm-snapshot COW file (older dracut).
    assert_eq!(
        DistroFamily::Bazzite.persistence(),
        Some(PersistenceKind::FedoraOverlayFs)
    );
    assert_eq!(
        DistroFamily::GeckoLinux.persistence(),
        Some(PersistenceKind::OpenSuseCow)
    );
    assert_eq!(
        DistroFamily::Manjaro.persistence(),
        Some(PersistenceKind::ArchOverlay)
    );
    assert_eq!(
        DistroFamily::Slax.persistence(),
        Some(PersistenceKind::SlaxChanges)
    );
    assert_eq!(
        DistroFamily::AlmaLinux.persistence(),
        Some(PersistenceKind::FedoraOverlay)
    );
    assert_eq!(
        DistroFamily::CentOs.persistence(),
        Some(PersistenceKind::FedoraOverlay)
    );
    // Alpine persists via lbu (inline), not an overlay partition.
    assert_eq!(
        DistroFamily::Alpine.persistence(),
        Some(PersistenceKind::AlpineLbu)
    );
    // Knoppix auto-adopts a KNOPPIX-DATA labelled partition.
    assert_eq!(
        DistroFamily::Knoppix.persistence(),
        Some(PersistenceKind::KnoppixData)
    );
    assert_eq!(DistroFamily::Unknown.persistence(), None);
}

#[test]
fn slax_persistence_does_not_need_a_partition() {
    assert!(!PersistenceKind::SlaxChanges.needs_partition());
    assert!(!PersistenceKind::AlpineLbu.needs_partition());
    assert!(PersistenceKind::CasperRw.needs_partition());
    assert!(PersistenceKind::DebianLive.needs_partition());
    assert!(PersistenceKind::FedoraOverlay.needs_partition());
    assert!(PersistenceKind::OpenSuseCow.needs_partition());
    assert!(PersistenceKind::ArchOverlay.needs_partition());
}

fn windows_iso(wim_size: u64) -> IsoReport {
    IsoReport {
        os_kind: OsKind::Windows,
        has_install_wim: true,
        install_wim_size: Some(wim_size),
        has_4gb_file: wim_size > FAT32_MAX_FILE,
        ..IsoReport::unknown(wim_size + 1_000_000)
    }
}

#[test]
fn small_wim_needs_no_choice() {
    let report = windows_iso(3_000_000_000);
    assert!(!needs_wim_choice(&report));
    let scheme = choose_scheme(&report, PartitionTable::Gpt, None);
    assert_eq!(scheme.wim_strategy, WimStrategy::NotNeeded);
    assert!(!scheme.needs_uefi_ntfs_img);
}

#[test]
fn large_wim_needs_choice() {
    let report = windows_iso(5_500_000_000);
    assert!(needs_wim_choice(&report));
}

#[test]
fn large_wim_defaults_to_split() {
    let report = windows_iso(5_500_000_000);
    let scheme = choose_scheme(&report, PartitionTable::Mbr, None);
    assert_eq!(scheme.wim_strategy, WimStrategy::Split);
    assert!(!scheme.needs_uefi_ntfs_img);
    assert_eq!(scheme.table, PartitionTable::Mbr);
}

#[test]
fn large_wim_honors_uefi_ntfs_choice() {
    let report = windows_iso(5_500_000_000);
    let scheme = choose_scheme(&report, PartitionTable::Gpt, Some(WimStrategy::UefiNtfs));
    assert_eq!(scheme.wim_strategy, WimStrategy::UefiNtfs);
    assert!(scheme.needs_uefi_ntfs_img);
}

#[test]
fn linux_iso_never_needs_choice() {
    let mut report = IsoReport::unknown(2_000_000_000);
    report.os_kind = OsKind::Linux;
    report.has_isolinux = true;
    assert!(!needs_wim_choice(&report));
    let scheme = choose_scheme(&report, PartitionTable::Gpt, None);
    assert_eq!(scheme.wim_strategy, WimStrategy::NotNeeded);
}

/// The `SignatureType` GUID of SHA-256 DBX entries, as stored.
const EFI_CERT_SHA256_GUID: [u8; 16] = [
    0x26, 0x16, 0xc4, 0xc1, 0x4c, 0x50, 0x92, 0x40, 0xac, 0xa9, 0x41, 0xf9, 0x36, 0x93, 0x43, 0x28,
];

/// Build a minimal `dbxupdate.bin` consisting of one `EFI_SIGNATURE_LIST`
/// of SHA-256 hashes and the smallest valid envelope around it.
fn synth_dbx(hashes: &[[u8; 32]]) -> Vec<u8> {
    let mut out = Vec::new();
    out.extend_from_slice(&[0u8; 16]);
    let dw_length: u32 = 24;
    out.extend_from_slice(&dw_length.to_le_bytes());
    out.extend_from_slice(&0x0200u16.to_le_bytes());
    out.extend_from_slice(&0x0EF1u16.to_le_bytes());
    out.extend_from_slice(&[0u8; 16]);
    out.extend_from_slice(&EFI_CERT_SHA256_GUID);
    let sig_size: u32 = 16 + 32;
    let list_size: u32 = 28 + hashes.len() as u32 * sig_size;
    out.extend_from_slice(&list_size.to_le_bytes());
    out.extend_from_slice(&0u32.to_le_bytes());
    out.extend_from_slice(&sig_size.to_le_bytes());
    for h in hashes {
        out.extend_from_slice(&[0u8; 16]);
        out.extend_from_slice(h);
    }
    out
}

#[test]
fn parses_a_minimal_dbx_update() {
    let h1 = [0x11u8; 32];
    let h2 = [0x22u8; 32];
    let bytes = synth_dbx(&[h1, h2]);
    let dbx = parse_dbxupdate(&bytes);
    assert_eq!(dbx.0.len(), 2);
    assert!(dbx.0.contains(&h1));
    assert!(dbx.0.contains(&h2));
}

#[test]
fn rejects_truncated_input() {
    let dbx = parse_dbxupdate(&[]);
    assert!(dbx.0.is_empty());
    let dbx = parse_dbxupdate(&[0u8; 8]);
    assert!(dbx.0.is_empty());
}

#[test]
fn extend_dbx_merges_into_existing_set() {
    let mut db = RevocationDb::baked_in();
    let mut extra = DbxHashes::default();
    extra.insert([0x99; 32]);
    db.extend_dbx(extra);
    assert!(db.dbx.0.contains(&[0x99; 32]));
}

#[test]
fn parses_a_minimal_sbat_section() {
    let text = "sbat,1,SBAT Version,sbat,1\nshim,3,UEFI shim\ngrub,2,Free Software Foundation";
    let entries = parse_sbat_section(text);
    assert_eq!(entries.len(), 2);
    assert_eq!(entries[0].component, "shim");
    assert_eq!(entries[0].generation, 3);
    assert_eq!(entries[1].component, "grub");
    assert_eq!(entries[1].generation, 2);
}

#[test]
fn flags_old_shim_against_baked_in_level() {
    let entries = vec![SbatEntry {
        component: "shim".to_string(),
        generation: 2,
    }];
    let warnings = evaluate_sbat(&entries, &RevocationDb::baked_in().sbat);
    assert_eq!(warnings.len(), 1);
    assert!(warnings[0].contains("shim"));
}

#[test]
fn passes_a_fresh_shim() {
    let entries = vec![SbatEntry {
        component: "shim".to_string(),
        generation: 99,
    }];
    let warnings = evaluate_sbat(&entries, &RevocationDb::baked_in().sbat);
    assert!(warnings.is_empty());
}

#[test]
fn decodes_8_bit_dstring() {
    let buf = [8, b'H', b'E', b'L', b'L', b'O', 0, 0, 6];
    assert_eq!(read_dstring(&buf), "HELLO");
}

#[test]
fn decodes_16_bit_dstring() {
    let buf = [16, 0, b'O', 0, b'K', 0, 0, 0, 0, 5];
    assert_eq!(read_dstring(&buf), "OK");
}

#[test]
fn decodes_8_bit_filename() {
    assert_eq!(
        decode_udf_name(&[8, b'i', b'n', b's', b't', b'a', b'l', b'l']),
        "install"
    );
}

/// A minimal byte vector that passes every structural check.
fn good_image() -> Vec<u8> {
    let mut img = vec![0u8; UEFI_NTFS_IMG_SIZE as usize];
    img[0] = 0xEB;
    img[510] = 0x55;
    img[511] = 0xAA;
    img
}

#[test]
fn accepts_a_well_formed_image() {
    assert!(validate_uefi_ntfs(&good_image()).is_ok());
}

#[test]
fn rejects_a_wrong_size() {
    let mut img = good_image();
    img.truncate(1024);
    assert!(validate_uefi_ntfs(&img).is_err());
    assert!(validate_uefi_ntfs(&[]).is_err());
}

#[test]
fn rejects_a_missing_boot_signature() {
    let mut img = good_image();
    img[511] = 0x00;
    assert!(validate_uefi_ntfs(&img).is_err());
}

#[test]
fn rejects_a_bad_jump_instruction() {
    let mut img = good_image();
    img[0] = 0x00;
    assert!(validate_uefi_ntfs(&img).is_err());
}
