use usbooty::decompress::{Compression, detect};
use usbooty::helpers::local_path_from_url;
use usbooty::rgadguard::{lookup_url, parse_response};
use usbooty::settings::Settings;
use usbooty::smart::{SmartAttribute, SmartReport, attribute_raw};
use usbooty::timezones::{ids, labels, offset_string};
use usbooty::vhd::{VhdKind, payload_size, vhd_kind};
use usbooty::windisco::{
    ApiError, TokenChars, check_errors, extract_token, file_name_from_url, guid_from_bytes, hex,
    language_matches, numbered_name,
};

#[test]
fn file_urls_are_stripped_and_percent_decoded() {
    assert_eq!(
        local_path_from_url("file:///home/u/My%20ISOs/x%2364.iso"),
        "/home/u/My ISOs/x#64.iso"
    );
    assert_eq!(local_path_from_url("file:///plain/path.iso"), "/plain/path.iso");
    // Plain paths pass through untouched, escapes included.
    assert_eq!(local_path_from_url("/literal/100%23.iso"), "/literal/100%23.iso");
    // Malformed escapes survive verbatim.
    assert_eq!(local_path_from_url("file:///a%2.iso"), "/a%2.iso");
}

const MATCH_HTML: &str = "<font size=\"5\">Match for this amount found in the database!</font>\
<table><thead><tr><th>File:</th></tr></thead>\
<tr><td><a href=\"https://files.rg-adguard.net/file/aa34423b\" target=\"_blank\">\
fr-fr_windows_11_x64_dvd.iso</a></td></tr>\
<tr><td><a href=\"https://files.rg-adguard.net/file/aa34423b\" target=\"_blank\">\
Win11_25H2_French_x64_v2.iso</a></td></tr></table>";

#[test]
fn extracts_first_filename_from_match_page() {
    let v = parse_response(MATCH_HTML).unwrap();
    assert_eq!(v.filename, "fr-fr_windows_11_x64_dvd.iso");
    assert!(v.badge().contains("fr-fr_windows_11_x64_dvd.iso"));
}

#[test]
fn no_match_page_returns_none() {
    // The miss page carries no files.rg-adguard.net link.
    assert!(parse_response("<p>SHA-1 ... not found in the database.</p>").is_none());
}

#[test]
fn rejects_garbage() {
    assert!(parse_response("").is_none());
    assert!(parse_response("404 Not Found").is_none());
    assert!(parse_response("{}").is_none());
}

#[test]
fn rejects_invalid_sha1() {
    // Wrong length / non-hex must short-circuit before any HTTP call.
    assert!(lookup_url("not-a-hash").is_none());
    assert!(lookup_url("a".repeat(39).as_str()).is_none());
}

#[test]
fn lookup_url_accepts_a_forty_digit_hex_digest() {
    let sha1 = "0123456789abcdef0123456789ABCDEF01234567";
    let url = lookup_url(sha1).unwrap();
    assert!(url.contains(sha1));
}

#[test]
fn defaults_are_sensible() {
    let s = Settings::default();
    assert!(!s.force_english);
}

fn fixture(reallocated: u64, pending: u64, uncorr: u64, temp: i64, passed: bool) -> SmartReport {
    SmartReport {
        smart_supported: true,
        has_smart_status: true,
        passed: Some(passed),
        attributes: Some(vec![
            SmartAttribute { id: Some(5), raw: Some(reallocated) },
            SmartAttribute { id: Some(197), raw: Some(pending) },
            SmartAttribute { id: Some(198), raw: Some(uncorr) },
        ]),
        temperature: Some(temp),
    }
}

#[test]
fn attribute_raw_returns_known_attribute() {
    let v = fixture(7, 0, 0, 35, true);
    assert_eq!(attribute_raw(&v, 5), Some(7));
    assert_eq!(attribute_raw(&v, 197), Some(0));
}

#[test]
fn attribute_raw_returns_none_for_missing_id() {
    let v = fixture(0, 0, 0, 35, true);
    assert_eq!(attribute_raw(&v, 191), None);
}

#[test]
fn attribute_raw_returns_none_when_table_missing() {
    let v = SmartReport {
        smart_supported: false,
        has_smart_status: true,
        passed: Some(true),
        attributes: None,
        temperature: None,
    };
    assert_eq!(attribute_raw(&v, 5), None);
}

#[test]
fn timezones_labels_and_ids_have_matching_row_counts() {
    assert_eq!(
        labels().split('\n').count(),
        ids().split('\n').count(),
        "the ComboBox label list and the ID list must align"
    );
}

#[test]
fn timezones_first_id_is_empty_to_match_not_set_label() {
    let ids = ids();
    let mut rows = ids.split('\n');
    assert_eq!(rows.next(), Some(""));
    assert_eq!(rows.next(), Some("Dateline Standard Time"));
}

#[test]
fn timezones_offset_format_is_signed_hh_mm() {
    assert_eq!(offset_string(0), "+00:00");
    assert_eq!(offset_string(60), "+01:00");
    assert_eq!(offset_string(-330), "-05:30");
    assert_eq!(offset_string(345), "+05:45");
}

#[test]
fn timezones_romance_standard_time_is_present_with_paris_label() {
    let labels = labels();
    let ids = ids();
    let idx = ids
        .split('\n')
        .position(|i| i == "Romance Standard Time")
        .expect("Romance Standard Time must be in the catalog");
    let label = labels.split('\n').nth(idx).unwrap();
    assert!(label.contains("Paris"), "label was: {label}");
    assert!(label.starts_with("(UTC+01:00)"));
}

#[test]
fn mod_labels_and_ids_have_matching_row_counts() {
    assert_eq!(labels().split('\n').count(), ids().split('\n').count());
}

#[test]
fn mod_first_id_is_empty_to_match_not_set_label() {
    let ids = ids();
    let mut rows = ids.split('\n');
    assert_eq!(rows.next(), Some(""));
    assert_eq!(rows.next(), Some("Dateline Standard Time"));
}

#[test]
fn mod_offset_format_is_signed_hh_mm() {
    assert_eq!(offset_string(0), "+00:00");
    assert_eq!(offset_string(60), "+01:00");
    assert_eq!(offset_string(-330), "-05:30");
    assert_eq!(offset_string(345), "+05:45");
}

#[test]
fn mod_romance_standard_time_is_present_with_paris_label() {
    let labels = labels();
    let ids = ids();
    let idx = ids
        .split('\n')
        .position(|i| i == "Romance Standard Time")
        .expect("Romance Standard Time must be in the catalog");
    let label = labels.split('\n').nth(idx).unwrap();
    assert!(label.contains("Paris"), "label was: {label}");
    assert!(label.starts_with("(UTC+01:00)"));
}

#[test]
fn hex_encodes_bytes_lowercase() {
    assert_eq!(hex(&[0x00, 0x0f, 0xff, 0x1a]), "000fff1a");
}

#[test]
fn file_name_from_url_extracts_iso() {
    let url = "https://software.download.prss.microsoft.com/foo/Win11_24H2_English_x64.iso?t=abc";
    assert_eq!(file_name_from_url(url), "Win11_24H2_English_x64.iso");
}

#[test]
fn file_name_from_url_falls_back_when_no_iso() {
    assert_eq!(file_name_from_url("https://example.com/redirect"), "Windows.iso");
    assert_eq!(file_name_from_url(""), "Windows.iso");
}

#[test]
fn extract_token_reads_run_of_matching_chars() {
    let body = r#"...&w=deadbeef" ... rticks="+1234567;..."#;
    assert_eq!(
        extract_token(body, "&w=", TokenChars::HexDigits),
        Some("deadbeef".to_string())
    );
    // The `+` prefix is silently skipped.
    assert_eq!(
        extract_token(body, "rticks=\"", TokenChars::DecimalDigits),
        Some("1234567".to_string())
    );
}

#[test]
fn extract_token_returns_none_when_marker_missing() {
    assert_eq!(extract_token("nothing here", "&w=", TokenChars::HexDigits), None);
}

#[test]
fn check_errors_passes_when_array_empty_or_absent() {
    check_errors(None).expect("no errors -> Ok");
}

#[test]
fn check_errors_flags_sentinel_type_9() {
    let e = ApiError { kind: Some(9), value: Some("blocked".to_string()) };
    let msg = check_errors(Some(&e)).unwrap_err();
    assert!(msg.contains("anti-bot"), "expected anti-bot hint, got: {msg}");
}

#[test]
fn check_errors_relays_generic_message() {
    let e = ApiError { kind: Some(1), value: Some("Something broke".to_string()) };
    let msg = check_errors(Some(&e)).unwrap_err();
    assert!(msg.contains("Something broke"));
}

#[test]
fn numbered_names_keep_the_extension_last() {
    assert_eq!(numbered_name("Win11.iso", 1), "Win11 (1).iso");
    assert_eq!(numbered_name("Win11.iso", 2), "Win11 (2).iso");
    assert_eq!(numbered_name("README", 3), "README (3)");
}

#[test]
fn language_matches_handles_regions_and_bare_languages() {
    // Region-specific variants beat the bare-language rules.
    assert!(language_matches("pt-br", "portuguese (brazil)"));
    assert!(!language_matches("pt-br", "portuguese"));
    assert!(language_matches("pt-pt", "portuguese"));
    assert!(language_matches("fr-ca", "french canadian"));
    assert!(!language_matches("fr-ca", "french"));
    assert!(language_matches("zh-cn", "chinese (simplified)"));
    assert!(language_matches("zh-tw", "chinese (traditional)"));
    // Bare language prefixes.
    assert!(language_matches("fr-fr", "french"));
    assert!(language_matches("de-de", "german"));
    assert!(language_matches("en-us", "english"));
    assert!(language_matches("en-gb", "english international"));
    assert!(!language_matches("en-us", "english international"));
    assert!(language_matches("bg-bg", "bulgarian"));
    // No match falls through to false (caller defaults to index 0).
    assert!(!language_matches("xx-yy", "klingon"));
}

#[test]
fn new_guid_has_v4_layout() {
    let g = guid_from_bytes(&[0xff; 16]);
    assert_eq!(g.len(), 36);
    assert_eq!(g.chars().nth(14), Some('4'));
    assert!(matches!(g.chars().nth(19), Some('8' | '9' | 'a' | 'b')));
    let z = guid_from_bytes(&[0u8; 16]);
    assert_eq!(z, "00000000-0000-4000-8000-000000000000");
}

#[test]
fn detects_compression_by_magic() {
    // A renamed plain file isn't blindly trusted.
    assert_eq!(
        detect(Some("not-really.iso.xz"), Some(b"this is not an xz stream")),
        Compression::Uncompressed,
    );
}

fn vhd_footer(disk_type: u32) -> Vec<u8> {
    let mut bytes = Vec::new();
    bytes.extend_from_slice(b"conectix");
    bytes.extend(std::iter::repeat_n(0u8, 52));
    bytes.extend_from_slice(&disk_type.to_be_bytes());
    bytes.extend(std::iter::repeat_n(0u8, 512 - 8 - 52 - 4));
    bytes
}

#[test]
fn fixed_vhd_strips_to_original_bytes() {
    let raw: Vec<u8> = (0..4096u32).map(|i| (i & 0xff) as u8).collect();
    let footer = vhd_footer(2);
    let total = (raw.len() + footer.len()) as u64;
    let kind = vhd_kind(total, &footer);
    assert_eq!(kind, VhdKind::Fixed { data_size: 4096 });
    assert_eq!(payload_size(kind, "smoke.vhd"), Ok(4096));
    let mut bytes = raw.clone();
    bytes.extend_from_slice(&footer);
    assert_eq!(bytes.len(), raw.len() + 512);
    let recovered = usbooty::vhd::unwrap_vhd(&bytes, "smoke.vhd").expect("unwrap_vhd");
    assert_eq!(recovered, raw, "stripped VHD payload differs from input");
}

#[test]
fn dynamic_vhd_is_rejected() {
    let footer = vhd_footer(3);
    let kind = vhd_kind(4096 + 512, &footer);
    let err = payload_size(kind, "dyn.vhd").unwrap_err();
    assert!(err.contains("dynamic"));
    let mut bytes = vec![0u8; 4096];
    bytes.extend_from_slice(&footer);
    assert!(usbooty::vhd::unwrap_vhd(&bytes, "dyn.vhd").unwrap_err().contains("dynamic"));
}

#[test]
fn a_file_without_the_cookie_is_not_a_vhd() {
    let footer = vec![0u8; 512];
    let kind = vhd_kind(4096, &footer);
    assert_eq!(kind, VhdKind::NotVhd);
    assert_eq!(payload_size(kind, "x.img"), Err("x.img doesn't look like a VHD file".to_string()));
}
