use sha2::{Digest, Sha256};
use usbooty::cli::{Parsed, StartupArgs, StartupSlot, parse};
use usbooty::decompress::{
    CacheMeta, Compression, ZipEntryAction, cache_reusable, compression_from_name, decode_dot_z,
    decompress_cache_key, detect, is_stale, magic_of, not_compressed_error, zip_entry_action,
    zip_no_image_error,
};
use usbooty::device::DeviceInfo;
use usbooty::devices::{SysfsBlock, classify_bus, device_from_sysfs, skipped_name, sort_by_path, usb_descriptor};
use usbooty::digest::cache_key;
use usbooty::helpers::{
    clean_udev, compute_max_persistence_mib, inspect_text, mounted_sources_in, non_empty_opt, smartctl_panel,
    trimmed_opt,
};
use usbooty::iso::{Iso9660Listing, analyze};
use usbooty::iso_report::{DistroFamily, IsoReport, OsKind, PersistenceKind};
use usbooty::job::{FileSystem, Job, JobOptions, PartitionTable, WimStrategy};
use usbooty::progress::{LogLevel, ProgressMsg};
use usbooty::qemu::{BootConfig, SessionEnv, failure_report, host_ram_mb, launch_plan};
use usbooty::resources::{
    EnsureAction, Fetch, ReleaseAsset, Resource, ResourceMeta, after_fetch, boot_sector_name, is_fresh,
    member_matches, pick_zip_asset, repo_slug,
};
use usbooty::revocation::RevocationDb;
use usbooty::runner::{
    HelperExit, JobTracker, Prerequisite, first_partition_path, format_duration, html_escape, job_prerequisite,
    log_line_html, mount_point_from_udisksctl, outcome, phase_header_html, provide_uefi_ntfs_image,
    ventoy_data_device,
};
use usbooty::smart::{SmartAttribute, SmartReport, smart_warning};
use usbooty::timezones::{from_iana, host_iana, host_locale};
use usbooty::translations::{catalogue_path, system_locale, translation_candidates};
use usbooty::udf::{ImageBytes, ImageSource};
use usbooty::windisco::{
    DownloadOption, Language, add_download_option, add_language_sku, catalog_languages, check_download_complete,
    normalize_locale, numbered_name, options_result, sort_languages,
};

fn strings(v: &[&str]) -> Vec<String> {
    v.iter().map(|s| s.to_string()).collect()
}

#[test]
fn arguments_preload_an_image_and_a_device() {
    let (p, warnings) = parse(&strings(&["--iso", "a.iso", "--device", "/dev/sdb"]));
    assert!(warnings.is_empty());
    match p {
        Parsed::Args(a) => {
            assert_eq!(a.iso.as_deref(), Some("a.iso"));
            assert_eq!(a.device.as_deref(), Some("/dev/sdb"));
        }
        Parsed::Help => panic!("no help asked for"),
    }
    let (p, warnings) = parse(&strings(&["--bogus", "-i"]));
    assert!(matches!(p, Parsed::Args(StartupArgs { iso: None, device: None })));
    assert_eq!(
        warnings,
        vec![
            "usbooty: unrecognized argument: --bogus".to_string(),
            "usbooty: --iso requires a path argument".to_string()
        ]
    );
    assert!(matches!(parse(&strings(&["-i", "x.iso", "--help"])).0, Parsed::Help));
}

#[test]
fn the_first_installed_arguments_are_kept() {
    let mut slot = StartupSlot::new();
    assert!(slot.take().is_none());
    slot.install(StartupArgs { iso: Some("first.iso".to_string()), device: None });
    slot.install(StartupArgs { iso: Some("second.iso".to_string()), device: None });
    assert_eq!(slot.take().unwrap().iso.as_deref(), Some("first.iso"));
}

#[test]
fn cache_keys_are_the_first_half_of_a_sha256() {
    let mut h = Sha256::new();
    h.update(b"/isos/a.iso.xz");
    h.update(b"\0");
    h.update(4096u64.to_le_bytes());
    h.update(1700000000u64.to_le_bytes());
    h.update(b"xz");
    let digest = h.finalize();
    let expected: String = digest[..16].iter().map(|b| format!("{b:02x}")).collect();
    assert_eq!(cache_key("/isos/a.iso.xz", 4096, 1700000000, b"xz"), expected);
    assert_eq!(decompress_cache_key("/isos/a.iso.xz", 4096, 1700000000, Compression::Xz), expected);
    assert_ne!(decompress_cache_key("/isos/a.iso.xz", 4096, 1700000001, Compression::Xz), expected);
}

#[test]
fn compression_needs_both_name_and_magic() {
    assert_eq!(compression_from_name(Some("debian.iso.XZ")), Compression::Xz);
    assert_eq!(compression_from_name(Some("plain.iso")), Compression::Uncompressed);
    let xz_head: &[u8] = &[0xFD, 0x37, 0x7A, 0x58, 0x5A, 0x00, 1, 2];
    assert_eq!(magic_of(xz_head), Some(Compression::Xz));
    assert_eq!(detect(Some("debian.iso.xz"), Some(xz_head)), Compression::Xz);
    // The right magic under a name that claims nothing is still plain.
    assert_eq!(detect(Some("debian.iso"), Some(xz_head)), Compression::Uncompressed);
    // A name without readable bytes is not trusted.
    assert_eq!(detect(Some("debian.iso.gz"), None), Compression::Uncompressed);
    assert_eq!(not_compressed_error("/x.iso"), "file does not look compressed: /x.iso");
}

#[test]
fn z_roundtrip_synthetic() {
    let payload: Vec<u8> = (0..8192u32).map(|i| (i & 0xff) as u8).collect();
    let mut bytes = vec![0x1F, 0x9D, 0x90];
    let mut encoder = weezl::encode::Encoder::new(weezl::BitOrder::Lsb, 8);
    let mut encoded = encoder.encode(&payload).expect("weezl encode");
    bytes.append(&mut encoded);
    assert_eq!(decode_dot_z(&bytes).unwrap(), payload);
    assert_eq!(usbooty::decompress::decompress_payload(Compression::Z, &bytes, "synthetic.Z").unwrap(), payload);
}

#[test]
fn malformed_dot_z_streams_are_rejected() {
    assert_eq!(decode_dot_z(&[0x1F]).unwrap_err(), "reading .Z header: failed to fill whole buffer");
    assert_eq!(decode_dot_z(&[0x1F, 0x8B, 0x90, 0]).unwrap_err(), ".Z stream has wrong magic bytes");
    assert_eq!(
        decode_dot_z(&[0x1F, 0x9D, 0x88, 0]).unwrap_err(),
        ".Z header reports an out-of-range max-bits value: 8"
    );
}

#[test]
fn zip_walks_take_only_disk_images() {
    assert_eq!(zip_entry_action("images/"), ZipEntryAction::Directory);
    assert_eq!(zip_entry_action("Win11.ISO"), ZipEntryAction::Image);
    assert_eq!(zip_entry_action("README.txt"), ZipEntryAction::Other);
    assert_eq!(zip_no_image_error(&[]), "the zip archive contains no usable disk image");
    assert_eq!(
        zip_no_image_error(&strings(&["README.txt", "SHA256SUMS"])),
        "the zip archive contains no disk image (expected one of .iso .img .raw .vhd .wim .esd .bin); found: README.txt, SHA256SUMS"
    );
}

#[test]
fn cached_decompressions_are_reused_only_for_the_same_source() {
    let meta = CacheMeta {
        source_path: "/a.xz".to_string(),
        source_size: 10,
        source_mtime: 20,
        algorithm: "xz".to_string(),
        decompressed_size: 30,
        created_at: 40,
    };
    assert!(cache_reusable(Some(&meta), 10, 20, Compression::Xz));
    assert!(!cache_reusable(Some(&meta), 10, 21, Compression::Xz));
    assert!(!cache_reusable(Some(&meta), 10, 20, Compression::Gz));
    assert!(!cache_reusable(None, 10, 20, Compression::Xz));
    assert!(is_stale(31 * 86400, 30));
    assert!(!is_stale(30 * 86400, 30));
}

fn sysfs(name: &str, removable: &str, size: &str) -> SysfsBlock {
    SysfsBlock {
        name: name.to_string(),
        removable: Some(removable.to_string()),
        canonical_path: Some(format!("/sys/devices/pci0000:00/{name}")),
        size: Some(size.to_string()),
        model: Some("Ultra Fit       \n".to_string()),
        vendor: Some("SanDisk \n".to_string()),
        usb: None,
    }
}

#[test]
fn sysfs_entries_become_devices() {
    assert!(skipped_name("loop0") && skipped_name("zram1") && !skipped_name("sdb"));
    let d = device_from_sysfs(&sysfs("sdb", "1\n", "60063744\n"), false).unwrap();
    assert_eq!(d.path, "/dev/sdb");
    assert_eq!(d.size, 60063744 * 512);
    assert_eq!(d.model, "SanDisk Ultra Fit");
    assert_eq!(d.vendor.as_deref(), Some("SanDisk"));
    assert_eq!(d.bus.as_deref(), Some("SATA"));
    assert!(d.removable);
    // A fixed disk is only offered when asked for; an empty reader never.
    assert!(device_from_sysfs(&sysfs("sda", "0\n", "1000\n"), false).is_none());
    assert!(device_from_sysfs(&sysfs("sda", "0\n", "1000\n"), true).is_some());
    assert!(device_from_sysfs(&sysfs("sdc", "1\n", "0\n"), true).is_none());
}

#[test]
fn usb_descriptors_name_the_bus_speed() {
    let usb = usb_descriptor(Some("Kingston\n"), Some("DataTraveler 3.0\n"), Some("ABC123\n"), Some("5000\n"));
    assert_eq!(usb.product.as_deref(), Some("DataTraveler 3.0"));
    assert_eq!(usb.speed_mbps, Some(5000));
    assert_eq!(classify_bus("sdb", Some(&usb)).as_deref(), Some("USB 3.0"));
    assert_eq!(classify_bus("nvme0n1", None).as_deref(), Some("NVMe"));
    assert_eq!(classify_bus("mmcblk0", None).as_deref(), Some("SD/eMMC"));
    assert_eq!(classify_bus("vda", None), None);
}

#[test]
fn devices_are_listed_by_path() {
    let d = |p: &str| DeviceInfo {
        path: p.to_string(),
        model: String::new(),
        size: 1,
        removable: true,
        bus: None,
        serial: None,
        vendor: None,
    };
    let sorted = sort_by_path(vec![d("/dev/sdc"), d("/dev/sda"), d("/dev/nvme0n1"), d("/dev/sdb")]);
    let paths: Vec<&str> = sorted.iter().map(|x| x.path.as_str()).collect();
    assert_eq!(paths, vec!["/dev/nvme0n1", "/dev/sda", "/dev/sdb", "/dev/sdc"]);
}

#[test]
fn optional_fields_are_normalised() {
    assert_eq!(trimmed_opt("  x  ").as_deref(), Some("x"));
    assert_eq!(trimmed_opt(" \t "), None);
    assert_eq!(non_empty_opt(" pw ").as_deref(), Some(" pw "));
    assert_eq!(non_empty_opt(""), None);
}

#[test]
fn udev_dumps_lose_their_encoded_duplicates() {
    assert_eq!(clean_udev("ID_MODEL=Ultra\nID_MODEL_ENC=Ultra\\x20\nID_BUS=usb"), "ID_MODEL=Ultra\nID_BUS=usb");
}

#[test]
fn mounted_partitions_of_a_device_are_found() {
    let mounts = "/dev/sdb1 /run/media/u/A vfat rw 0 0\n/dev/sdb2 /run/media/u/B ext4 rw 0 0\n/dev/sdc1 /mnt ext4 rw 0 0\n/dev/sdb /x raw rw 0 0\n";
    assert_eq!(mounted_sources_in(mounts, "/dev/sdb"), strings(&["/dev/sdb1", "/dev/sdb2", "/dev/sdb"]));
    assert!(mounted_sources_in(mounts, "/dev/sdd").is_empty());
}

#[test]
fn the_persistence_ceiling_leaves_room_for_the_image() {
    let d = DeviceInfo {
        path: "/dev/sdb".to_string(),
        model: String::new(),
        size: 16_000_000_000,
        removable: true,
        bus: None,
        serial: None,
        vendor: None,
    };
    let r = IsoReport::unknown(4_000_000_000);
    assert_eq!(compute_max_persistence_mib(Some(&d), Some(&r)), ((12_000_000_000u64 - 67_108_864) / 1_048_576) as i32);
    assert_eq!(compute_max_persistence_mib(None, Some(&r)), 0);
    let tiny = DeviceInfo { size: 10, ..d.clone() };
    assert_eq!(compute_max_persistence_mib(Some(&tiny), None), 0);
    // No image loaded: the slider stays disabled.
    assert_eq!(compute_max_persistence_mib(Some(&d), None), 0);
}

#[test]
fn smartctl_panels_explain_missing_output() {
    assert_eq!(smartctl_panel("  ok\n", ""), "ok");
    assert_eq!(smartctl_panel("", ""), "(smartctl returned no output; device may not expose SMART)");
    assert_eq!(smartctl_panel("", " nope "), "(smartctl: nope)");
    assert!(smartctl_panel("Permission denied", "").starts_with("(smartctl needs root"));
    assert!(inspect_text("L", "U", "S").contains("\nU\n"));
}

#[test]
fn smart_reports_turn_into_one_warning_line() {
    let r = SmartReport {
        smart_supported: true,
        has_smart_status: true,
        passed: Some(false),
        attributes: Some(vec![
            SmartAttribute { id: Some(5), raw: Some(7) },
            SmartAttribute { id: Some(197), raw: Some(0) },
            SmartAttribute { id: Some(198), raw: Some(2) },
        ]),
        temperature: Some(61),
    };
    assert_eq!(
        smart_warning(&r).as_deref(),
        Some("SMART overall health = FAILING \u{b7} 7 reallocated sector(s) \u{b7} 2 uncorrectable sector(s) \u{b7} temperature 61 \u{b0}C")
    );
    let healthy = SmartReport { passed: Some(true), attributes: None, temperature: Some(35), ..r.clone() };
    assert_eq!(smart_warning(&healthy), None);
    let unsupported = SmartReport { smart_supported: false, has_smart_status: false, ..r };
    assert_eq!(smart_warning(&unsupported), None);
}

#[test]
fn durations_and_log_lines_are_formatted() {
    assert_eq!(format_duration(3840), "1h 04m");
    assert_eq!(format_duration(132), "2m 12s");
    assert_eq!(format_duration(38), "38s");
    assert_eq!(html_escape("<a & \"b\">"), "&lt;a &amp; &quot;b&quot;&gt;");
    assert_eq!(log_line_html(LogLevel::Info, "x<y"), "<div>x&lt;y</div>");
    assert_eq!(log_line_html(LogLevel::Warn, "w"), "<div style=\"color:#d18616\">\u{26A0} w</div>");
    assert_eq!(log_line_html(LogLevel::Error, "e"), "<div style=\"color:#e5534b\">\u{2717} e</div>");
    assert_eq!(phase_header_html("starting"), None);
    assert_eq!(phase_header_html(""), None);
    assert_eq!(
        phase_header_html("Writing").as_deref(),
        Some("<div style=\"color:#2188ff;font-weight:bold;margin-top:4px\">\u{25B6} Writing</div>")
    );
}

#[test]
fn escaped_log_text_never_holds_markup() {
    let escaped = html_escape("<script>alert(\"x\")</script> & <b>");
    assert!(!escaped.contains('<') && !escaped.contains('>') && !escaped.contains('"'));
}

#[test]
fn partitions_are_named_after_their_disk() {
    assert_eq!(first_partition_path("/dev/sdb"), "/dev/sdb1");
    assert_eq!(first_partition_path("/dev/nvme0n1"), "/dev/nvme0n1p1");
    assert_eq!(first_partition_path("/dev/mmcblk0"), "/dev/mmcblk0p1");
    assert_eq!(
        mount_point_from_udisksctl(b"Mounted /dev/sdb1 at /run/media/u/Ventoy.\n").as_deref(),
        Some("/run/media/u/Ventoy")
    );
    assert_eq!(mount_point_from_udisksctl(b"Error mounting\n"), None);
}

#[test]
fn the_tracker_and_the_exit_decide_the_outcome() {
    let mut t = JobTracker::new();
    assert_eq!(
        t.observe(&ProgressMsg::Progress { phase: "Writing".to_string(), done: 50, total: 100 }),
        Some((50, 100))
    );
    t.observe(&ProgressMsg::Progress { phase: "Verifying".to_string(), done: 10, total: 100 });
    assert_eq!(t.moved, 50);
    t.observe(&ProgressMsg::Error { text: "bad sector".to_string() });
    t.observe(&ProgressMsg::Done);
    assert!(t.saw_done);
    let ok = HelperExit::Exited { success: true, status: "exit status: 0".to_string() };
    let failed = HelperExit::Exited { success: false, status: "exit status: 1".to_string() };
    assert_eq!(outcome(true, &ok, None, ""), (true, "Done \u{2014} the drive is ready".to_string()));
    assert_eq!(outcome(true, &failed, Some("bad sector".to_string()), ""), (false, "bad sector".to_string()));
    assert_eq!(outcome(false, &failed, None, "  boom \n"), (false, "Helper failed (exit status: 1): boom".to_string()));
    assert_eq!(outcome(false, &failed, None, " "), (false, "Helper exited unexpectedly (exit status: 1)".to_string()));
    let lost = HelperExit::WaitFailed { error: "gone".to_string() };
    assert_eq!(outcome(true, &lost, None, ""), (false, "Helper could not be waited on: gone".to_string()));
}

#[test]
fn jobs_get_their_downloads_before_the_helper_runs() {
    let mut job = Job::Partitioned {
        iso_path: "/w.iso".to_string(),
        device_path: "/dev/sdb".to_string(),
        table: PartitionTable::Gpt,
        filesystem: FileSystem::Ntfs,
        wim: WimStrategy::UefiNtfs,
        uefi_ntfs_img: None,
        persistence: None,
        windows_setup: None,
        install_bootloader: false,
        distro: DistroFamily::Unknown,
        opts: JobOptions::default(),
    };
    assert_eq!(job_prerequisite(&job), Prerequisite::UefiNtfsImage);
    provide_uefi_ntfs_image(&mut job, "/cache/uefi-ntfs.img".to_string());
    assert_eq!(job_prerequisite(&job), Prerequisite::Nothing);
    match &job {
        Job::Partitioned { uefi_ntfs_img, .. } => assert_eq!(uefi_ntfs_img.as_deref(), Some("/cache/uefi-ntfs.img")),
        _ => panic!("kind changed"),
    }
    let dos = Job::Freedos {
        device_path: "/dev/sdb".to_string(),
        table: PartitionTable::Mbr,
        filesystem: FileSystem::Fat16,
        kernel_sys: String::new(),
        command_com: String::new(),
        boot_bin: String::new(),
        opts: JobOptions::default(),
    };
    assert_eq!(job_prerequisite(&dos), Prerequisite::FreedosFiles { fat32: false });
    let ventoy = Job::Ventoy {
        device_path: "/dev/sdb".to_string(),
        table: PartitionTable::Gpt,
        secure_boot: true,
        update: false,
        iso_path: None,
    };
    assert_eq!(ventoy_data_device(&ventoy, true).as_deref(), Some("/dev/sdb"));
    assert_eq!(ventoy_data_device(&ventoy, false), None);
}

#[test]
fn resources_decide_between_cache_and_download() {
    let meta = ResourceMeta { etag: Some("\"e1\"".to_string()), fetched_at: 100, size: 70 };
    let good = vec![7u8; 70];
    let short = vec![7u8; 10];
    assert!(is_fresh(100 + 3600, 100, 604800));
    assert!(!is_fresh(100 + 604800, 100, 604800));
    match after_fetch(Resource::DbxX64, Fetch::NotModified, Some(&good), 5000, &meta).unwrap() {
        EnsureAction::UseCached { meta: Some(m) } => {
            assert_eq!(m.fetched_at, 5000);
            assert_eq!(m.etag.as_deref(), Some("\"e1\""));
        }
        other => panic!("unexpected {other:?}"),
    }
    assert_eq!(
        after_fetch(Resource::DbxX64, Fetch::NotModified, Some(&short), 5000, &meta).unwrap_err(),
        "the cached dbxupdate_x64.bin is corrupt and the server reports no newer copy"
    );
    let body = Fetch::Body { bytes: short.clone(), etag: None };
    assert_eq!(
        after_fetch(Resource::DbxX64, body, None, 5000, &meta).unwrap_err(),
        "the downloaded dbxupdate_x64.bin is invalid: dbxupdate_x64.bin: only 10 bytes (too small to be a DBX update)"
    );
    match after_fetch(Resource::DbxArm64, Fetch::Body { bytes: good.clone(), etag: Some("t".to_string()) }, None, 9, &meta)
        .unwrap()
    {
        EnsureAction::Store { bytes, meta: m } => {
            assert_eq!(bytes.len(), 70);
            assert_eq!((m.fetched_at, m.size), (9, 70));
        }
        other => panic!("unexpected {other:?}"),
    }
    let offline = Fetch::Failed { error: "no route".to_string() };
    assert!(matches!(
        after_fetch(Resource::DbxX64, offline.clone(), Some(&good), 9, &meta),
        Ok(EnsureAction::UseCached { meta: None })
    ));
    assert_eq!(
        after_fetch(Resource::DbxX64, offline, None, 9, &meta).unwrap_err(),
        "could not download dbxupdate_x64.bin and no valid cached copy exists: no route"
    );
}

#[test]
fn release_assets_and_archive_members_are_picked() {
    assert_eq!(repo_slug("FDOS/kernel"), "FDOS-kernel");
    let assets = vec![
        ReleaseAsset { name: Some("notes.txt".to_string()), download_url: Some("u1".to_string()) },
        ReleaseAsset { name: Some("kernel.ZIP".to_string()), download_url: Some("u2".to_string()) },
    ];
    assert_eq!(pick_zip_asset("FDOS/kernel", &assets), Ok("u2".to_string()));
    assert!(pick_zip_asset("FDOS/kernel", &assets[..1]).is_err());
    assert_eq!(boot_sector_name(true), "BOOT32.BIN");
    assert_eq!(boot_sector_name(false), "BOOT16.BIN");
    assert!(member_matches("bin/kernel.sys", &["BIN/KERNEL.SYS", "KERNEL.SYS"]));
    assert!(!member_matches("doc/kernel.txt", &["BIN/KERNEL.SYS"]));
}

#[test]
fn locales_and_zones_come_from_the_host() {
    assert_eq!(system_locale(&[None, Some("fr_FR.UTF-8".to_string()), None]), "fr_FR");
    assert_eq!(system_locale(&[Some("C".to_string()), None, None]), "en_US");
    assert_eq!(translation_candidates("fr_FR"), strings(&["fr_FR", "fr"]));
    assert_eq!(translation_candidates("en_GB"), strings(&["en_GB"]));
    assert!(translation_candidates("en").is_empty());
    assert_eq!(catalogue_path("de"), ":/i18n/usbooty_de.qm");
    assert_eq!(host_iana(Some(" Europe/Paris \n"), None), "Europe/Paris");
    assert_eq!(host_iana(Some("\n"), Some("/usr/share/zoneinfo/America/New_York")), "America/New_York");
    assert_eq!(host_iana(None, Some("/etc/elsewhere")), "UTC");
    assert_eq!(host_locale(&[None, Some("fr_CA.UTF-8".to_string()), None]), "fr-CA");
    assert_eq!(host_locale(&[Some("C.UTF-8".to_string()), Some("POSIX".to_string()), None]), "en-US");
    assert_eq!(host_locale(&[Some("zh_Hant_TW".to_string())]), "zh-Hant_TW");
    assert_eq!(from_iana("Europe/Paris"), Some("Romance Standard Time"));
    assert_eq!(normalize_locale("fr_CA.UTF-8"), "fr-ca");
}

#[test]
fn downloads_must_be_complete() {
    assert!(check_download_complete(10, 10).is_ok());
    assert!(check_download_complete(5, 10).is_err());
    assert_eq!(numbered_name("archive.tar.gz", 1), "archive.tar (1).gz");
}

#[test]
fn host_memory_comes_from_meminfo() {
    assert_eq!(host_ram_mb(Some("MemTotal:       16318464 kB\nMemFree: 1 kB\n")), 15936);
    assert_eq!(host_ram_mb(Some("garbage")), 4096);
    assert_eq!(host_ram_mb(None), 4096);
}

fn no_session() -> SessionEnv {
    SessionEnv {
        wayland_display: None,
        display: Some(":0".to_string()),
        xdg_runtime_dir: None,
        xauthority: None,
        xdg_session_type: None,
        pulse_server: None,
        pulse_cookie: None,
        home: None,
    }
}

#[test]
fn a_bios_boot_test_plan_runs_qemu_directly() {
    let cfg = BootConfig { mem_mb: 100, cpus: 64, firmware: 0, q35: true, audio: false, kvm: false, network: false, snapshot: true };
    let plan = launch_plan("/dev/sdb", &cfg, 4, &no_session(), false, None, None, None).unwrap();
    assert_eq!(plan.qemu[0], "qemu-system-x86_64");
    let m = plan.qemu.iter().position(|a| a == "-m").unwrap();
    assert_eq!(plan.qemu[m + 1], "256");
    let smp = plan.qemu.iter().position(|a| a == "-smp").unwrap();
    assert_eq!(plan.qemu[smp + 1], "cores=4,sockets=1");
    assert!(plan.qemu.contains(&"if=none,id=usbstick,format=raw,snapshot=on,file=/dev/sdb".to_string()));
    assert_eq!(plan.envs, strings(&["DISPLAY=:0"]));
    assert_eq!(plan.pkexec_args[0], "/usr/bin/env");
    assert!(!plan.log.is_empty());
    assert_eq!(launch_plan("", &cfg, 4, &no_session(), false, None, None, None).unwrap_err(), "no device selected");
}

#[test]
fn a_uefi_boot_test_needs_firmware() {
    let cfg = BootConfig { mem_mb: 4096, cpus: 2, firmware: 1, q35: true, audio: false, kvm: true, network: true, snapshot: false };
    assert!(launch_plan("/dev/sdb", &cfg, 8, &no_session(), false, None, None, None).is_err());
    let ovmf = Some(("/usr/share/OVMF/OVMF_CODE.fd".to_string(), "/usr/share/OVMF/OVMF_VARS.fd".to_string()));
    let plan = launch_plan("/dev/sdb", &cfg, 8, &no_session(), false, ovmf, None, Some("/usr/bin/swtpm".to_string())).unwrap();
    assert!(plan.qemu.contains(&"-enable-kvm".to_string()));
    assert!(plan.qemu.contains(&"if=pflash,format=raw,unit=0,readonly=on,file=/usr/share/OVMF/OVMF_CODE.fd".to_string()));
    assert_eq!(plan.pkexec_args[0], "sh");
}

#[test]
fn an_immediate_qemu_failure_is_explained() {
    let (lines, error) = failure_report(Some(1), "qemu: Failed to get \"write\" lock\n\n");
    assert!(lines.len() >= 2);
    assert!(error.starts_with("QEMU exited immediately: qemu: Failed to get \"write\" lock"));
    assert!(error.ends_with("close any other QEMU window using it"));
}

#[test]
fn a_windows_listing_classifies_the_image() {
    let listing = Iso9660Listing {
        root: Some(vec![("bootmgr".to_string(), false, 400_000), ("sources".to_string(), true, 0)]),
        sources: Some(vec![
            ("install.swm".to_string(), false, 3_000_000_000),
            ("install2.swm".to_string(), false, 1),
            ("install.wim".to_string(), false, 2_000_000_000),
        ]),
        efi_boot: None,
        isolinux: false,
        boot_isolinux: false,
        boot_grub: false,
        boot_grub2: false,
        efi_binaries: Vec::new(),
    };
    let r = analyze(7_000_000_000, None, &[], Some(&listing), ImageBytes::new(Vec::new()), &RevocationDb::baked_in());
    assert_eq!(r.os_kind, OsKind::Windows);
    assert!(r.has_bootmgr && r.has_install_wim && !r.install_wim_is_esd);
    assert_eq!(r.install_wim_size, Some(5_000_000_000));
    assert!(r.has_4gb_file);
    assert_eq!(r.total_size, 7_000_000_000);
}

#[test]
fn a_linux_listing_finds_the_distribution() {
    let mut pvd = vec![0u8; 2048];
    pvd[0] = 1;
    pvd[1..6].copy_from_slice(b"CD001");
    let label = b"Ubuntu 24.04 LTS amd64";
    pvd[40..40 + label.len()].copy_from_slice(label);
    for b in &mut pvd[40 + label.len()..72] {
        *b = b' ';
    }
    let listing = Iso9660Listing {
        root: Some(vec![("casper".to_string(), true, 0), ("boot".to_string(), true, 0)]),
        sources: None,
        efi_boot: Some(vec![("bootx64.efi".to_string(), false, 1000)]),
        isolinux: false,
        boot_isolinux: false,
        boot_grub: true,
        boot_grub2: false,
        efi_binaries: Vec::new(),
    };
    let r = analyze(6_000_000_000, None, &[pvd], Some(&listing), ImageBytes::new(Vec::new()), &RevocationDb::baked_in());
    assert_eq!(r.label, "Ubuntu 24.04 LTS amd64");
    assert_eq!(r.os_kind, OsKind::Linux);
    assert!(r.has_grub && r.has_efi_boot_dir);
    assert_eq!(r.distro, DistroFamily::Ubuntu);
    assert_eq!(r.persistence, Some(PersistenceKind::CasperRw));
    assert!(r.revocation_warnings.is_empty());
}

#[test]
fn an_image_without_iso9660_is_generic_unless_its_label_says_bsd() {
    let mut mbr = vec![0u8; 512];
    mbr[510] = 0x55;
    mbr[511] = 0xAA;
    mbr[446 + 4] = 0x83;
    let r = analyze(1000, Some(&mbr), &[], None, ImageBytes::new(Vec::new()), &RevocationDb::baked_in());
    assert!(r.is_isohybrid);
    assert_eq!(r.os_kind, OsKind::Other);
    let listing = Iso9660Listing {
        root: Some(Vec::new()),
        sources: None,
        efi_boot: None,
        isolinux: false,
        boot_isolinux: false,
        boot_grub: false,
        boot_grub2: false,
        efi_binaries: Vec::new(),
    };
    let mut pvd = vec![b' '; 2048];
    pvd[0] = 1;
    pvd[1..6].copy_from_slice(b"CD001");
    pvd[40..49].copy_from_slice(b"FreeBSD_1");
    let r = analyze(1000, None, &[pvd], Some(&listing), ImageBytes::new(Vec::new()), &RevocationDb::baked_in());
    assert_eq!(r.os_kind, OsKind::Bsd);
}

fn language_list(entries: &[(&str, &str)]) -> Vec<Language> {
    let mut v = Vec::new();
    for (i, (name, display)) in entries.iter().enumerate() {
        add_language_sku(&mut v, 0, format!("sku{}", i), name.to_string(), display.to_string());
    }
    v
}

#[test]
fn languages_sort_by_display_name() {
    let v = language_list(&[("German", "Deutsch"), ("English", "English (US)"), ("Arabic", "Arabic")]);
    let sorted = sort_languages(v);
    let names: Vec<&str> = sorted.iter().map(|l| l.display.as_str()).collect();
    assert_eq!(names, vec!["Arabic", "Deutsch", "English (US)"]);
    assert_eq!(sorted[1].name(), "German");
}

#[test]
fn catalog_without_languages_reports_last_failure() {
    assert_eq!(catalog_languages(Vec::new(), Some("boom".to_string())).unwrap_err(), "boom");
    assert_eq!(
        catalog_languages(Vec::new(), None).unwrap_err(),
        "Microsoft returned no languages; the API may have changed"
    );
    let v = language_list(&[("French", "Francais"), ("Czech", "Cestina")]);
    let ok = catalog_languages(v, Some("ignored".to_string())).unwrap();
    assert_eq!(ok[0].display, "Cestina");
    assert_eq!(ok[1].display, "Francais");
}

#[test]
fn options_without_entries_report_last_failure() {
    assert_eq!(options_result(Vec::new(), Some("x".to_string())).unwrap_err(), "x");
    assert_eq!(options_result(Vec::new(), None).unwrap_err(), "Microsoft returned no download options");
    let mut opts: Vec<DownloadOption> = Vec::new();
    add_download_option(&mut opts, "https://example.com/Win11_x64.iso?t=1");
    add_download_option(&mut opts, "https://example.com/Win11_x64.iso?t=1");
    let ok = options_result(opts, None).unwrap();
    assert_eq!(ok.len(), 1);
    assert_eq!(ok[0].url, "https://example.com/Win11_x64.iso?t=1");
}

/// The ISO9660 directories of an image holding `sources/install.wim` (12
/// bytes), `bootmgr` and `setup.exe`.
#[test]
fn classifies_a_windows_iso() {
    let listing = Iso9660Listing {
        root: Some(vec![
            ("bootmgr".to_string(), false, 12),
            ("setup.exe".to_string(), false, 10),
            ("sources".to_string(), true, 0),
        ]),
        sources: Some(vec![("install.wim".to_string(), false, 12)]),
        efi_boot: None,
        isolinux: false,
        boot_isolinux: false,
        boot_grub: false,
        boot_grub2: false,
        efi_binaries: Vec::new(),
    };
    let report = analyze(360_448, None, &[], Some(&listing), ImageBytes::new(Vec::new()), &RevocationDb::baked_in());
    assert_eq!(report.os_kind, OsKind::Windows);
    assert!(report.has_install_wim);
    assert!(report.has_bootmgr);
    assert_eq!(report.install_wim_size, Some(12));
    assert!(!report.has_4gb_file);
}

/// The ISO9660 directories of an image holding `isolinux/isolinux.cfg`,
/// `isolinux/isolinux.bin` and `boot/grub/grub.cfg`.
#[test]
fn classifies_a_linux_iso() {
    let listing = Iso9660Listing {
        root: Some(vec![("boot".to_string(), true, 0), ("isolinux".to_string(), true, 0)]),
        sources: None,
        efi_boot: None,
        isolinux: true,
        boot_isolinux: false,
        boot_grub: true,
        boot_grub2: false,
        efi_binaries: Vec::new(),
    };
    let report = analyze(360_448, None, &[], Some(&listing), ImageBytes::new(Vec::new()), &RevocationDb::baked_in());
    assert_eq!(report.os_kind, OsKind::Linux);
    assert!(report.has_isolinux);
    assert!(report.has_grub);
    assert!(!report.has_install_wim);
}

#[test]
fn in_memory_image_reads_every_held_range() {
    let mut img = ImageBytes::new((0u8..=99).collect());
    assert_eq!(img.read_at(10, 3), Some(vec![10, 11, 12]));
    assert_eq!(img.read_at(97, 3), Some(vec![97, 98, 99]));
    assert_eq!(img.read_at(98, 3), None);
    assert_eq!(img.read_at(100, 0), Some(Vec::new()));
}
