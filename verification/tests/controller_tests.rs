use usbooty::cli::StartupArgs;
use usbooty::controller::{
    AppController, EjectResult, IsoHashes, SourceAction, StartGate, boot_config, contains_device, dependency_report,
    is_same_device, microsoft_page_url,
};
use usbooty::decompress::Compression;
use usbooty::deps::DepStatus;
use usbooty::device::DeviceInfo;
use usbooty::iso_report::{DistroFamily, IsoReport, OsKind, PersistenceKind};
use usbooty::job::{CheckMode, FileSystem, Job, PartitionTable, WimStrategy};
use usbooty::settings::Settings;

fn stick(path: &str, model: &str, size: u64) -> DeviceInfo {
    DeviceInfo {
        path: path.to_string(),
        model: model.to_string(),
        size,
        removable: true,
        bus: Some("USB 3.0".to_string()),
        serial: None,
        vendor: None,
    }
}

fn fresh() -> AppController {
    let prefs = Settings { force_english: false, show_logs_always: true, log_all_files: false };
    AppController::initial(prefs, vec![FileSystem::Fat32, FileSystem::Ntfs, FileSystem::ExFat])
}

fn linux_report(size: u64) -> IsoReport {
    let mut r = IsoReport::unknown(size);
    r.os_kind = OsKind::Linux;
    r.label = "Ubuntu 24.04 LTS amd64".to_string();
    r.has_isolinux = true;
    r.distro = DistroFamily::Ubuntu;
    r.persistence = Some(PersistenceKind::CasperRw);
    r.revocation_warnings = vec!["grubx64.efi: old".to_string(), "shimx64.efi: old".to_string()];
    r
}

#[test]
fn starts_with_nothing_selected_and_the_saved_preferences() {
    let c = fresh();
    assert_eq!(c.iso_summary, "No image selected");
    assert_eq!(c.status, "Ready");
    assert_eq!(c.selected_device, -1);
    assert!(c.show_logs_always);
    assert!(c.ventoy_secure_boot);
    assert!(!c.can_start());
    assert_eq!(c.settings().show_logs_always, true);
}

#[test]
fn refreshing_lists_devices_and_selects_the_first() {
    let mut c = fresh();
    c.refresh_devices(vec![stick("/dev/sdb", "SanDisk Ultra", 30_752_000_000), stick("/dev/sdc", "Kingston", 8_000_000_000)]);
    assert_eq!(c.selected_device, 0);
    assert_eq!(
        c.devices,
        "SanDisk Ultra \u{2014} 30.8 GB \u{b7} USB 3.0 \u{b7} /dev/sdb\nKingston \u{2014} 8.0 GB \u{b7} USB 3.0 \u{b7} /dev/sdc"
    );
    c.refresh_devices(Vec::new());
    assert_eq!(c.selected_device, -1);
    assert_eq!(c.devices, "");
}

#[test]
fn refreshing_keeps_the_selected_drive_by_its_path() {
    let mut c = fresh();
    c.refresh_devices(vec![stick("/dev/sdb", "A", 8_000_000_000), stick("/dev/sdc", "B", 8_000_000_000)]);
    let line = c.select_device(1);
    assert_eq!(line.as_deref(), Some("Target device selected: /dev/sdc (B, 8.0 GB)"));
    // A new drive appears before the selected one: the selection follows it.
    c.refresh_devices(vec![
        stick("/dev/sda", "C", 8_000_000_000),
        stick("/dev/sdb", "A", 8_000_000_000),
        stick("/dev/sdc", "B", 8_000_000_000),
    ]);
    assert_eq!(c.selected_device, 2);
    assert_eq!(c.selected_info().map(|d| d.path.as_str()), Some("/dev/sdc"));
    // The selected drive is gone: back to the first entry.
    c.refresh_devices(vec![stick("/dev/sda", "C", 8_000_000_000)]);
    assert_eq!(c.selected_device, 0);
}

#[test]
fn selecting_an_absent_index_logs_nothing() {
    let mut c = fresh();
    c.refresh_devices(vec![stick("/dev/sdb", "A", 8_000_000_000)]);
    c.smart_warning = "hot".to_string();
    assert_eq!(c.select_device(5), None);
    assert_eq!(c.selected_device, 5);
    assert_eq!(c.smart_warning, "");
    assert!(c.selected_info().is_none());
}

#[test]
fn applying_an_image_fills_the_form_and_clearing_undoes_it() {
    let mut c = fresh();
    c.refresh_devices(vec![stick("/dev/sdb", "A", 8_000_000_000)]);
    c.apply_iso("/isos/ubuntu.iso", linux_report(6_000_000_000), None, None);
    assert_eq!(c.iso_path, "/isos/ubuntu.iso");
    assert_eq!(c.iso_summary, "ubuntu.iso  \u{b7}  Linux \u{b7} 6.0 GB");
    assert_eq!(c.label, "Ubuntu 24.04 LTS amd64");
    assert!(c.linux_iso && !c.windows_iso);
    assert!(c.persistence_supported && !c.persistence_inline);
    assert_eq!(c.distro_label, "Ubuntu");
    assert_eq!(c.method, 1);
    assert_eq!(c.revocation_warnings, "grubx64.efi: old\nshimx64.efi: old");
    assert_eq!(c.hash_generation, 1);
    assert_eq!(c.fit_warning, "");
    // 8.0 GB - 6.0 GB - 64 MiB, in MiB.
    assert_eq!(c.persistence_max_mib, ((2_000_000_000u64 - 67_108_864) / 1_048_576) as i32);
    assert!(c.can_start());

    c.clear_iso();
    let start = fresh();
    assert_eq!(c.iso_path, start.iso_path);
    assert_eq!(c.iso_summary, start.iso_summary);
    assert_eq!(c.label, start.label);
    assert_eq!(c.distro_label, start.distro_label);
    assert_eq!(c.revocation_warnings, start.revocation_warnings);
    assert!(!c.linux_iso && !c.persistence_supported && c.iso_report.is_none());
    assert_eq!(c.hash_generation, 2);
    assert!(!c.can_start());
}

#[test]
fn a_downloaded_image_brings_its_digests() {
    let mut c = fresh();
    let h = IsoHashes {
        md5: "m".to_string(),
        sha1: "s1".to_string(),
        sha256: "s256".to_string(),
        sha512: "s512".to_string(),
        blake3: "b3".to_string(),
    };
    c.apply_iso("Win11.iso", IsoReport::unknown(100), None, Some(&h));
    assert_eq!(c.iso_sha256, "s256");
    assert_eq!(c.iso_blake3, "b3");
    assert_eq!(c.method, 0);
    assert_eq!(c.iso_summary, "Win11.iso  \u{b7}  Generic image \u{b7} 100 B");
}

#[test]
fn an_image_larger_than_the_drive_is_refused() {
    let mut c = fresh();
    c.refresh_devices(vec![stick("/dev/sdb", "Tiny", 1_000_000_000)]);
    c.apply_iso("/big.iso", linux_report(6_000_000_000), None, None);
    assert_eq!(c.fit_warning, "This image (6.0 GB) is larger than Tiny (1.0 GB) and will not fit.");
    assert!(!c.can_start());
    assert_eq!(c.persistence_max_mib, 0);
}

#[test]
fn stale_digest_results_are_dropped() {
    let mut c = fresh();
    c.apply_iso("/a.iso", IsoReport::unknown(10), None, None);
    let (path, generation) = c.compute_hashes().unwrap();
    assert_eq!(path, "/a.iso");
    assert!(c.hashing);
    c.apply_iso("/b.iso", IsoReport::unknown(10), None, None);
    let h = IsoHashes { sha256: "old".to_string(), ..IsoHashes::default() };
    c.hashes_ready(generation, &h, "badge");
    assert_eq!(c.iso_sha256, "");
    assert_eq!(c.iso_adguard_badge, "");
    let (_, current) = c.compute_hashes().unwrap();
    c.hashes_ready(current, &h, "badge");
    assert_eq!(c.iso_sha256, "old");
    assert_eq!(c.iso_adguard_badge, "badge");
    assert!(!c.hashing);
}

#[test]
fn no_digests_without_an_image() {
    let mut c = fresh();
    assert!(c.compute_hashes().is_none());
    assert_eq!(c.hash_generation, 0);
}

#[test]
fn the_form_builds_each_kind_of_job() {
    let mut c = fresh();
    c.refresh_devices(vec![stick("/dev/sdb", "A", 64_000_000_000)]);
    c.apply_iso("/isos/ubuntu.iso", linux_report(6_000_000_000), None, None);
    c.label = "MYSTICK".to_string();
    c.verify = true;
    c.table = 1;

    c.method = 0;
    match c.build_job() {
        Job::Dd { iso_path, device_path, opts } => {
            assert_eq!(iso_path, "/isos/ubuntu.iso");
            assert_eq!(device_path, "/dev/sdb");
            assert_eq!(opts.label, "");
            assert!(!opts.verify);
        }
        other => panic!("unexpected {other:?}"),
    }

    c.method = 2;
    c.filesystem = 1;
    match c.build_job() {
        Job::Format { table, filesystem, opts, .. } => {
            assert_eq!(table, PartitionTable::Mbr);
            assert_eq!(filesystem, FileSystem::Ntfs);
            assert_eq!(opts.label, "MYSTICK");
            assert!(opts.verify);
        }
        other => panic!("unexpected {other:?}"),
    }

    c.method = 3;
    match c.build_job() {
        Job::Ventoy { secure_boot, update, iso_path, .. } => {
            assert!(secure_boot && !update);
            assert_eq!(iso_path.as_deref(), Some("/isos/ubuntu.iso"));
        }
        other => panic!("unexpected {other:?}"),
    }

    c.method = 4;
    match c.build_job() {
        Job::Freedos { filesystem, kernel_sys, .. } => {
            // NTFS cannot carry FreeDOS: FAT32 instead.
            assert_eq!(filesystem, FileSystem::Fat32);
            assert_eq!(kernel_sys, "");
        }
        other => panic!("unexpected {other:?}"),
    }

    c.method = 1;
    c.persistence_size = 512;
    match c.build_job() {
        Job::Partitioned { filesystem, wim, persistence, windows_setup, install_bootloader, distro, .. } => {
            assert_eq!(filesystem, FileSystem::Fat32);
            assert_eq!(wim, WimStrategy::NotNeeded);
            let p = persistence.unwrap();
            assert_eq!(p.kind, PersistenceKind::CasperRw);
            assert_eq!(p.size_bytes, 512 * 1024 * 1024);
            assert!(windows_setup.is_none());
            assert!(install_bootloader);
            assert_eq!(distro, DistroFamily::Ubuntu);
        }
        other => panic!("unexpected {other:?}"),
    }
}

#[test]
fn an_oversized_windows_image_uses_uefi_ntfs_unless_split() {
    let mut c = fresh();
    c.refresh_devices(vec![stick("/dev/sdb", "A", 64_000_000_000)]);
    let mut r = IsoReport::unknown(7_000_000_000);
    r.os_kind = OsKind::Windows;
    r.has_install_wim = true;
    r.install_wim_size = Some(5_000_000_000);
    r.has_bootmgr = true;
    c.apply_iso("/w.iso", r, None, None);
    c.setup.bypass_tpm = true;
    c.setup.computer_name = "  DESK  ".to_string();
    match c.build_job() {
        Job::Partitioned { filesystem, wim, windows_setup, .. } => {
            assert_eq!((filesystem, wim), (FileSystem::Ntfs, WimStrategy::UefiNtfs));
            let s = windows_setup.unwrap();
            assert!(s.bypass_tpm);
            assert_eq!(s.computer_name.as_deref(), Some("DESK"));
            assert!(s.local_account.is_none());
        }
        other => panic!("unexpected {other:?}"),
    }
    c.split_wim = true;
    match c.build_job() {
        Job::Partitioned { filesystem, wim, .. } => assert_eq!((filesystem, wim), (FileSystem::Fat32, WimStrategy::Split)),
        other => panic!("unexpected {other:?}"),
    }
}

#[test]
fn start_refuses_until_ready_and_notices_a_changed_drive() {
    let mut c = fresh();
    assert!(matches!(c.start(Vec::new()), StartGate::Refused));
    assert_eq!(c.status, "Select an ISO and a target device first");

    let drive = stick("/dev/sdb", "A", 64_000_000_000);
    c.refresh_devices(vec![drive.clone()]);
    c.apply_iso("/isos/ubuntu.iso", linux_report(6_000_000_000), None, None);
    match c.start(vec![drive.clone()]) {
        StartGate::Proceed(p) => assert_eq!(p, "/dev/sdb"),
        other => panic!("unexpected {other:?}"),
    }

    let swapped = stick("/dev/sdb", "Other stick", 16_000_000_000);
    assert!(matches!(c.start(vec![swapped]), StartGate::DeviceChanged));
    assert!(c.status.starts_with("The selected device changed since it was chosen."));
    assert_eq!(c.device_list[0].model, "Other stick");

    c.report_unmount_failure("/dev/sdb", "busy.");
    assert_eq!(
        c.status,
        "Could not unmount /dev/sdb: busy. Close any file manager that has it open and try again."
    );
    c.report_device_gone("/dev/sdb");
    assert_eq!(c.status, "/dev/sdb no longer exists. Was the drive removed?");

    let job = c.launch_job();
    assert!(matches!(job, Job::Partitioned { .. }));
    assert!(c.busy);
    assert_eq!(c.status, "Running\u{2026}");
    c.finish_job(false, "boom");
    assert!(!c.busy);
    assert_eq!(c.phase, "Failed");
    assert_eq!(c.status, "boom");
}

#[test]
fn device_identity_compares_every_field() {
    let a = stick("/dev/sdb", "A", 1);
    let mut b = a.clone();
    assert!(is_same_device(&a, &b));
    b.serial = Some("X".to_string());
    assert!(!is_same_device(&a, &b));
    assert!(contains_device(&vec![b.clone(), a.clone()], &a));
    assert!(!contains_device(&vec![b], &a));
}

#[test]
fn checks_and_backups_need_a_drive() {
    let mut c = fresh();
    assert!(c.start_check(1).is_none());
    assert_eq!(c.status, "Select a target device first");
    c.refresh_devices(vec![stick("/dev/sdb", "A", 1_000)]);
    match c.start_check(1) {
        Some(Job::Check { device_path, mode }) => {
            assert_eq!(device_path, "/dev/sdb");
            assert_eq!(mode, CheckMode::Full);
        }
        other => panic!("unexpected {other:?}"),
    }
    assert_eq!(c.status, "Checking device\u{2026}");
    // Busy now: nothing more starts.
    assert!(c.start_backup("/tmp/x.img").is_none());
    c.finish_job(true, "done");
    assert!(c.start_backup("file://").is_none());
    assert_eq!(c.status, "Pick an output file for the backup");
    c.verify = true;
    match c.start_backup("file:///home/u/stick.img.xz") {
        Some(Job::Backup { image_path, opts, .. }) => {
            assert_eq!(image_path, "/home/u/stick.img.xz");
            assert!(opts.verify);
        }
        other => panic!("unexpected {other:?}"),
    }
    assert_eq!(c.status, "Backing up\u{2026}");
}

#[test]
fn picking_a_source_chooses_the_work_to_do() {
    let mut c = fresh();
    assert_eq!(c.set_iso("", true, Compression::Uncompressed), SourceAction::Ignore);
    assert_eq!(c.set_iso("/x.iso", false, Compression::Uncompressed), SourceAction::Unreadable);
    assert_eq!(c.iso_summary, "Cannot read that file");
    assert_eq!(c.set_iso("/x.iso", true, Compression::Uncompressed), SourceAction::Analyze);
    assert_eq!(c.status, "Analyzing source image\u{2026}");
    assert_eq!(c.set_iso("/disks/Win.VHD", true, Compression::Uncompressed), SourceAction::UnwrapVhd);
    assert_eq!(c.phase, "Unwrapping VHD");
    assert_eq!(c.set_iso("/disks/.vhd", true, Compression::Uncompressed), SourceAction::Analyze);
    assert_eq!(c.set_iso("/x.iso.xz", true, Compression::Xz), SourceAction::Decompress);
    assert_eq!(c.iso_summary, "Decompressing source image\u{2026}");
    c.source_failed("Could not decompress /x.iso.xz: bad");
    assert!(!c.busy);
    assert_eq!(c.status, "Could not decompress /x.iso.xz: bad");
}

#[test]
fn startup_arguments_select_the_named_drive() {
    let mut c = fresh();
    c.refresh_devices(vec![stick("/dev/sdb", "A", 8_000_000_000), stick("/dev/sdc", "B", 8_000_000_000)]);
    let args = StartupArgs { iso: Some("/i.iso".to_string()), device: Some("/dev/sdc".to_string()) };
    let (line, iso) = c.apply_startup_args(&args);
    assert_eq!(c.selected_device, 1);
    assert!(line.unwrap().starts_with("Target device selected: /dev/sdc"));
    assert_eq!(iso.as_deref(), Some("/i.iso"));
    let missing = StartupArgs { iso: None, device: Some("/dev/sdz".to_string()) };
    let (line, iso) = c.apply_startup_args(&missing);
    assert!(line.is_none() && iso.is_none());
    assert_eq!(c.status, "Device /dev/sdz from --device is not present");
}

#[test]
fn labels_are_trimmed_to_what_the_filesystem_stores() {
    let mut c = fresh();
    c.available_filesystem_kinds = vec![FileSystem::Fat32, FileSystem::Ntfs, FileSystem::ExFat, FileSystem::Ext4, FileSystem::Btrfs];
    c.label = "My Stick \u{e9}t\u{e9} 2024!".to_string();
    c.filesystem = 0;
    assert_eq!(c.sanitized_label(), "MY STICK T ");
    c.filesystem = 2;
    assert_eq!(c.sanitized_label(), "My Stick \u{e9}t");
    c.filesystem = 1;
    c.label = "ABCDEFGHIJKLMNOPQRSTUVWXYZ0123456789".to_string();
    assert_eq!(c.sanitized_label(), "ABCDEFGHIJKLMNOPQRSTUVWXYZ012345");
    c.filesystem = 3;
    c.label = "\u{e9}\u{e9}\u{e9}\u{e9}\u{e9}\u{e9}\u{e9}\u{e9}\u{e9}".to_string();
    assert_eq!(c.sanitized_label(), "\u{e9}\u{e9}\u{e9}\u{e9}\u{e9}\u{e9}\u{e9}\u{e9}");
    c.filesystem = 4;
    assert_eq!(c.sanitized_label(), c.label);
}

#[test]
fn label_preview_follows_the_installed_filesystem_at_the_index() {
    let mut c = fresh();
    c.available_filesystem_kinds = FileSystem::all().to_vec();
    c.filesystem = 2;
    c.label = "ABCDEFGHIJKLMNOPQRST".to_string();
    assert_eq!(c.sanitized_label(), "ABCDEFGHIJKLMNOPQRST");
}

#[test]
fn regional_settings_come_from_the_host() {
    let mut c = fresh();
    c.replicate_regional_from_host("fr-FR", "Europe/Paris");
    assert_eq!(c.setup.locale, "fr-FR");
    assert_eq!(c.setup.timezone, "Romance Standard Time");
    assert_eq!(c.status, "Copied host regional settings: fr-FR / Romance Standard Time");
    c.replicate_regional_from_host("en-US", "Mars/Olympus");
    assert_eq!(c.setup.timezone, "UTC");
}

#[test]
fn the_log_keeps_plain_and_html_lines() {
    let mut c = fresh();
    let html = c.push_log_line("12:00:01", "a < b", "a &lt; b");
    assert_eq!(html, "<div><span style=\"color:#7d8590\">[12:00:01]</span> a &lt; b</div>");
    assert_eq!(c.full_log, "[12:00:01] a < b\n");
    assert!(c.log_non_empty);
    c.clear_log();
    assert_eq!(c.full_log, "");
    assert!(!c.log_non_empty);
}

#[test]
fn boot_test_settings_are_clamped_and_outcomes_reported() {
    let cfg = boot_config(-5, 0, 9, true, false, true, false, true);
    assert_eq!((cfg.mem_mb, cfg.cpus, cfg.firmware), (0, 1, 2));
    let mut c = fresh();
    assert!(c.verify_boot().is_none());
    assert_eq!(c.status, "Select a device to boot-test first");
    assert_eq!(c.boot_test_outcome("/dev/sdb", true, &Ok(())), None);
    assert_eq!(
        c.status,
        "Launched QEMU boot test for /dev/sdb (snapshot mode: the device is not modified)"
    );
    let line = c.boot_test_outcome("/dev/sdb", false, &Err("no firmware".to_string()));
    assert_eq!(line.as_deref(), Some("Boot test failed: no firmware"));
    assert_eq!(c.status, "Could not start the boot test: no firmware");
}

#[test]
fn dependency_lines_use_unit_separators() {
    let d = DepStatus { kind_key: "core", name: "mkfs.vfat", package: "dosfstools", purpose: "FAT", present: true };
    let e = DepStatus { present: false, ..d };
    assert_eq!(
        dependency_report(&vec![d, e]),
        "1\u{1f}core\u{1f}mkfs.vfat\u{1f}dosfstools\u{1f}FAT\n0\u{1f}core\u{1f}mkfs.vfat\u{1f}dosfstools\u{1f}FAT"
    );
}

#[test]
fn preference_toggles_return_what_to_save() {
    let mut c = fresh();
    let s = c.apply_force_english(true);
    assert!(s.force_english && s.show_logs_always && !s.log_all_files);
    let s = c.apply_log_all_files(true);
    assert!(s.log_all_files && s.force_english);
    c.cancel();
    assert_eq!(c.status, "Cancelling\u{2026}");
}

#[test]
fn selected_drive_readouts() {
    let mut c = fresh();
    assert_eq!(c.selected_size_text(), "");
    assert_eq!(c.selected_bus(), "");
    let mut d = stick("/dev/sdb", "SanDisk", 30_752_000_000);
    d.serial = Some("4C530001".to_string());
    c.refresh_devices(vec![d]);
    assert_eq!(c.selected_size_text(), "30.8 GB");
    assert_eq!(c.selected_bus(), "USB 3.0");
    assert_eq!(c.selected_serial(), "4C530001");
}

#[test]
fn inspect_and_eject_need_a_selection() {
    let mut c = fresh();
    c.inspect_text = "old".to_string();
    assert_eq!(c.request_inspect(), None);
    assert_eq!(c.inspect_text, "");
    assert_eq!(c.eject_target(), None);
    assert_eq!(c.status, "No device selected");
    c.refresh_devices(vec![stick("/dev/sdc", "B", 8_000_000_000)]);
    assert_eq!(c.request_inspect().as_deref(), Some("/dev/sdc"));
    assert_eq!(c.inspect_text, "Loading device details, please wait\u{2026}");
    assert_eq!(c.eject_target().as_deref(), Some("/dev/sdc"));
    c.eject_finished("/dev/sdc", EjectResult::Ejected);
    assert_eq!(c.status, "Ejected /dev/sdc");
    c.eject_finished("/dev/sdc", EjectResult::ToolFailed("  busy\n".to_string()));
    assert_eq!(c.status, "Eject failed: busy");
    c.eject_finished("/dev/sdc", EjectResult::NotRun("not found".to_string()));
    assert_eq!(c.status, "Eject failed: not found");
}

#[test]
fn log_saving_and_preference_failures_are_reported() {
    let mut c = fresh();
    c.log_saved("/tmp/log.txt", None);
    assert_eq!(c.status, "Activity log saved to /tmp/log.txt");
    c.log_saved("/root/x", Some("Permission denied".to_string()));
    assert_eq!(c.status, "Could not save activity log to /root/x: Permission denied");
    let html = c.persist_failed("12:00:00", "force English", "disk full");
    assert_eq!(c.full_log, "[12:00:00] Could not persist 'force English' preference: disk full\n");
    assert_eq!(
        html,
        "<div><span style=\"color:#7d8590\">[12:00:00]</span> <div style=\"color:#d18616\">\u{26A0} Could not persist 'force English' preference: disk full</div></div>"
    );
    assert!(c.log_non_empty);
}

#[test]
fn windows_download_starts_only_for_a_listed_option() {
    let mut c = fresh();
    let mut opts = Vec::new();
    usbooty::windisco::add_download_option(&mut opts, "https://dl.example/Win11_24H2_English_x64.iso");
    assert_eq!(c.begin_win_download(1, &opts), None);
    assert_eq!(c.begin_win_download(-1, &opts), None);
    assert!(!c.busy);
    assert_eq!(c.begin_win_download(0, &opts).as_deref(), Some("https://dl.example/Win11_24H2_English_x64.iso"));
    assert!(c.busy);
    assert_eq!(c.status, "Downloading Windows ISO\u{2026}");
    assert_eq!(c.begin_win_download(0, &opts), None);
    assert_eq!(microsoft_page_url(1), "https://www.microsoft.com/software-download/windows10");
    assert_eq!(microsoft_page_url(0), "https://www.microsoft.com/software-download/windows11");
}
