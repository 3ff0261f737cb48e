use std::io::Write;

use sha2::Digest;

use usbooty::decompress::{Compression, decompress_payload};
use usbooty::deps::available_filesystems;
use usbooty::device::DeviceInfo;
use usbooty::iso::compute_hashes;
use usbooty::job::FileSystem;
use usbooty::resources::{extract_member, freedos_files};
use usbooty::revocation::{SbatEntry, parse_sbat_section};
use usbooty::vhd::{unwrap_vhd, vhd_cache_key};

fn sample() -> Vec<u8> {
    (0..4096u32).map(|i| (i % 251) as u8).collect()
}

fn zip_of(entries: &[(&str, &[u8])]) -> Vec<u8> {
    let mut w = zip::ZipWriter::new(std::io::Cursor::new(Vec::new()));
    for (name, data) in entries {
        w.start_file(*name, zip::write::SimpleFileOptions::default()).unwrap();
        w.write_all(data).unwrap();
    }
    w.finish().unwrap().into_inner()
}

#[test]
fn gzip_payload_decodes_to_the_image() {
    let raw = sample();
    let mut enc = flate2::write::GzEncoder::new(Vec::new(), flate2::Compression::default());
    enc.write_all(&raw).unwrap();
    let gz = enc.finish().unwrap();
    assert_eq!(decompress_payload(Compression::Gz, &gz, "a.img.gz").unwrap(), raw);
    let err = decompress_payload(Compression::Gz, b"not gzip at all", "a.img.gz").unwrap_err();
    assert!(err.starts_with("reading decompressed bytes: "));
}

#[test]
fn xz_and_zstd_payloads_decode() {
    let raw = sample();
    let mut enc = xz2::write::XzEncoder::new(Vec::new(), 6);
    enc.write_all(&raw).unwrap();
    let xz = enc.finish().unwrap();
    assert_eq!(decompress_payload(Compression::Xz, &xz, "a.xz").unwrap(), raw);
    let zst = zstd::stream::encode_all(&raw[..], 3).unwrap();
    assert_eq!(decompress_payload(Compression::Zst, &zst, "a.zst").unwrap(), raw);
    assert_eq!(
        decompress_payload(Compression::Uncompressed, &raw, "/isos/a.iso").unwrap_err(),
        "file does not look compressed: /isos/a.iso"
    );
}

#[test]
fn zip_payload_is_the_first_image_entry() {
    let raw = sample();
    let z = zip_of(&[("docs/", b""), ("README.txt", b"hello"), ("disk.IMG", &raw), ("other.iso", b"x")]);
    assert_eq!(decompress_payload(Compression::Zip, &z, "a.zip").unwrap(), raw);
    let z = zip_of(&[("README.txt", b"hello"), ("SHA256SUMS", b"x")]);
    assert_eq!(
        decompress_payload(Compression::Zip, &z, "a.zip").unwrap_err(),
        "the zip archive contains no disk image (expected one of .iso .img .raw .vhd .wim .esd .bin); found: README.txt, SHA256SUMS"
    );
}

#[test]
fn freedos_members_are_picked_from_the_zip() {
    let z = zip_of(&[("source/readme", b"r"), ("bin/kernel.sys", b"KERNEL")]);
    assert_eq!(extract_member(&z, &["BIN/KERNEL.SYS", "KERNEL.SYS"], "k.zip").unwrap(), b"KERNEL".to_vec());
    assert_eq!(
        extract_member(&z, &["COMMAND.COM"], "k.zip").unwrap_err(),
        "none of [\"COMMAND.COM\"] found inside k.zip; upstream FreeDOS layout may have moved"
    );
    let f = freedos_files("/cache/freedos", true);
    assert_eq!(f.boot_bin, "/cache/freedos/BOOT32.BIN");
    assert_eq!(f.kernel_sys, "/cache/freedos/KERNEL.SYS");
}

#[test]
fn image_digests_match_the_hash_crates() {
    let data = b"abc";
    let h = compute_hashes(data);
    assert_eq!(h.md5, "900150983cd24fb0d6963f7d28e17f72");
    assert_eq!(h.sha1, "a9993e364706816aba3e25717850c26c9cd0d89d");
    let want256: String = sha2::Sha256::digest(data).iter().map(|b| format!("{b:02x}")).collect();
    assert_eq!(h.sha256, want256);
    assert_eq!(h.sha512.len(), 128);
    assert_eq!(h.blake3, blake3::hash(data).to_hex().to_string());
}

#[test]
fn fixed_vhd_strips_to_original_bytes_in_memory() {
    let raw = sample();
    let mut footer = vec![0u8; 512];
    footer[..8].copy_from_slice(b"conectix");
    footer[60..64].copy_from_slice(&2u32.to_be_bytes());
    let mut file = raw.clone();
    file.extend_from_slice(&footer);
    assert_eq!(unwrap_vhd(&file, "a.vhd").unwrap(), raw);
    footer[60..64].copy_from_slice(&3u32.to_be_bytes());
    let mut dynamic = raw.clone();
    dynamic.extend_from_slice(&footer);
    assert!(unwrap_vhd(&dynamic, "a.vhd").unwrap_err().contains("dynamic"));
    let key = vhd_cache_key("/isos/a.vhd", 4608, 1700000000);
    assert_eq!(key.len(), 16);
    assert!(key.chars().all(|c| c.is_ascii_hexdigit() && !c.is_ascii_uppercase()));
}

#[test]
fn sbat_header_after_a_comment_is_not_a_product() {
    let e = parse_sbat_section("# comment\nsbat,1,SBAT Version,sbat,1\nshim,3,UEFI shim");
    assert_eq!(e, vec![SbatEntry { component: "shim".into(), generation: 3 }]);
}

#[test]
fn fat32_is_always_offered() {
    let mut present = vec![false; FileSystem::all().len()];
    present[2] = true;
    present[5] = true;
    assert_eq!(available_filesystems(&present), vec![FileSystem::Fat32, FileSystem::Ntfs, FileSystem::Ext4]);
    let none = vec![false; FileSystem::all().len()];
    assert_eq!(available_filesystems(&none), vec![FileSystem::Fat32]);
}

#[test]
fn long_serial_is_cut_on_a_character_boundary() {
    let d = DeviceInfo {
        path: "/dev/sdb".to_string(),
        model: "Stick".to_string(),
        size: 512,
        removable: true,
        bus: None,
        serial: Some("ABCDEFGHIJKLM\u{e9}XYZ".to_string()),
        vendor: None,
    };
    assert_eq!(d.detail(), "512 B \u{b7} Removable \u{b7} S/N ABCDEFGHIJKLM \u{b7} /dev/sdb");
}

#[test]
fn mapped_zone_ids_are_catalogue_rows() {
    let ids = usbooty::timezones::ids();
    for zone in ["Europe/Paris", "America/New_York", "Asia/Tokyo", "Africa/Abidjan", "Pacific/Kiritimati"] {
        if let Some(id) = usbooty::timezones::from_iana(zone) {
            assert!(ids.split('\n').any(|row| row == id), "{zone} -> {id}");
        }
    }
}

#[test]
fn a_damaged_entry_before_the_image_is_passed_over() {
    let raw = sample();
    let mut w = zip::ZipWriter::new(std::io::Cursor::new(Vec::new()));
    let stored = zip::write::SimpleFileOptions::default().compression_method(zip::CompressionMethod::Stored);
    w.start_file("notes.txt", stored).unwrap();
    w.write_all(b"MARKERMARKER").unwrap();
    w.start_file("disk.img", zip::write::SimpleFileOptions::default()).unwrap();
    w.write_all(&raw).unwrap();
    let mut z = w.finish().unwrap().into_inner();
    let at = z.windows(12).position(|win| win == b"MARKERMARKER").unwrap();
    z[at] ^= 0xFF;
    assert_eq!(decompress_payload(Compression::Zip, &z, "a.zip").unwrap(), raw);
}

#[test]
fn streamed_digests_equal_whole_digests() {
    let data = sample();
    let mut h = usbooty::digest::StreamHashes::new();
    for chunk in data.chunks(1000) {
        h.update(chunk);
    }
    let streamed = h.finish();
    let whole = compute_hashes(&data);
    assert_eq!(streamed.md5, whole.md5);
    assert_eq!(streamed.sha1, whole.sha1);
    assert_eq!(streamed.sha256, whole.sha256);
    assert_eq!(streamed.sha512, whole.sha512);
    assert_eq!(streamed.blake3, whole.blake3);
}

#[test]
fn an_early_closed_download_is_refused() {
    let mut h = usbooty::digest::StreamHashes::new();
    h.update(b"abc");
    assert_eq!(
        usbooty::windisco::finish_download(3, 10, h).unwrap_err(),
        "the connection closed after 3 of 10 bytes"
    );
    let mut h = usbooty::digest::StreamHashes::new();
    h.update(b"abc");
    let d = usbooty::windisco::finish_download(3, 3, h).unwrap();
    assert_eq!(d.md5, "900150983cd24fb0d6963f7d28e17f72");
}

#[test]
fn sku_records_without_an_id_are_skipped() {
    let mut langs = Vec::new();
    usbooty::windisco::add_sku_record(&mut langs, 0, None, Some("French"), None);
    assert!(langs.is_empty());
    usbooty::windisco::add_sku_record(&mut langs, 0, Some("7".to_string()), Some("French"), Some(Some("Fran\u{e7}ais")));
    usbooty::windisco::add_sku_record(&mut langs, 1, Some("8".to_string()), Some("French"), Some(None));
    assert_eq!(langs.len(), 1);
    assert_eq!(langs[0].display, "Fran\u{e7}ais");
    assert_eq!(langs[0].skus().len(), 2);
}
