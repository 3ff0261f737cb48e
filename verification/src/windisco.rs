//! The decision logic of fetching official Windows ISOs and UEFI Shell
//! images: the release and shell tables, locale-to-language matching, error
//! classification of Microsoft's API replies, the merging of languages and
//! download options across product editions, and the small text helpers
//! the downloader needs. The HTTP exchanges themselves run outside.
use crate::text::{
    append_chars, append_str, chars_eq, chars_of, char_is_digit, char_is_hex, contains,
    decimal, decimal_chars, ends_with, find_from, first_occ, is_digit, is_hex, is_suffix,
    lemma_first_occ, occurs_at, seq_contains, seq_lower, slice_chars, string_from_chars,
    to_lowercase_unicode, unicode_lower,
};
use crate::uefi_ntfs::hex_digit;
use vstd::prelude::*;
use vstd::slice::slice_subrange;

verus! {

broadcast use vstd::seq_lib::group_to_multiset_ensures;

/// A selectable Windows release for the download dialog.
#[derive(Debug, Clone)]
pub struct Release {
    /// Brand name shown in the release list.
    pub name: &'static str,
    /// Microsoft product-edition IDs to query and merge (x64 and ARM64 are
    /// separate products).
    pub edition_ids: Vec<u32>,
    /// Whether this is a Windows 10 release (selects the browser fallback page).
    pub win10: bool,
}

/// The selectable Windows releases: names, product-edition IDs, and whether
/// each is a Windows 10 release.
pub open spec fn release_table() -> Seq<(Seq<char>, Seq<u32>, bool)> {
    seq![
        ("Windows 11"@, seq![3321u32, 3324u32], false),
        ("Windows 11 Home China"@, seq![3322u32, 3325u32], false),
        ("Windows 11 Pro China"@, seq![3323u32, 3326u32], false),
        ("Windows 10"@, seq![2618u32], true),
        ("Windows 10 Home China"@, seq![2378u32], true),
    ]
}

/// The selectable Windows releases, in display order.
pub fn releases() -> (r: Vec<Release>)
    ensures
        r@.len() == release_table().len(),
        forall|i: int|
            0 <= i < r@.len() ==> (#[trigger] r@[i]).name@ == release_table()[i].0
                && r@[i].edition_ids@ == release_table()[i].1 && r@[i].win10
                == release_table()[i].2,
{
    let mut r: Vec<Release> = Vec::new();
    r.push(Release { name: "Windows 11", edition_ids: vec![3321, 3324], win10: false });
    r.push(Release { name: "Windows 11 Home China", edition_ids: vec![3322, 3325], win10: false });
    r.push(Release { name: "Windows 11 Pro China", edition_ids: vec![3323, 3326], win10: false });
    r.push(Release { name: "Windows 10", edition_ids: vec![2618], win10: true });
    r.push(Release { name: "Windows 10 Home China", edition_ids: vec![2378], win10: true });
    assert(r@[0].edition_ids@ =~= release_table()[0].1);
    assert(r@[1].edition_ids@ =~= release_table()[1].1);
    assert(r@[2].edition_ids@ =~= release_table()[2].1);
    assert(r@[3].edition_ids@ =~= release_table()[3].1);
    assert(r@[4].edition_ids@ =~= release_table()[4].1);
    r
}

/// Number of UEFI Shell builds on offer.
pub const SHELL_BUILD_COUNT: usize = 13;

/// UEFI Shell build `i` (newest first): version, release tag, upstream
/// detail, and whether a Debug image exists beside the Release one.
pub open spec fn shell_build(i: usize) -> (Seq<char>, Seq<char>, Seq<char>, bool) {
    match i {
        0 => ("2.2"@, "26H1"@, "edk2-stable202602"@, true),
        1 => ("2.2"@, "25H2"@, "edk2-stable202511"@, true),
        2 => ("2.2"@, "25H1"@, "edk2-stable202505"@, true),
        3 => ("2.2"@, "24H2"@, "edk2-stable202411"@, true),
        4 => ("2.2"@, "24H1"@, "edk2-stable202405"@, true),
        5 => ("2.2"@, "23H2"@, "edk2-stable202311"@, true),
        6 => ("2.2"@, "23H1"@, "edk2-stable202305"@, true),
        7 => ("2.2"@, "22H2"@, "edk2-stable202211"@, true),
        8 => ("2.2"@, "22H1"@, "edk2-stable202205"@, true),
        9 => ("2.2"@, "21H2"@, "edk2-stable202108"@, true),
        10 => ("2.2"@, "21H1"@, "edk2-stable202105"@, true),
        11 => ("2.2"@, "20H2"@, "edk2-stable202011"@, true),
        12 => ("2.0"@, "4.632"@, "20100426"@, false),
        _ => (seq![], seq![], seq![], false),
    }
}

fn shell_build_at(i: usize) -> (r: (&'static str, &'static str, &'static str, bool))
    requires
        i < SHELL_BUILD_COUNT,
    ensures
        (r.0@, r.1@, r.2@, r.3) == shell_build(i),
{
    match i {
        0 => ("2.2", "26H1", "edk2-stable202602", true),
        1 => ("2.2", "25H2", "edk2-stable202511", true),
        2 => ("2.2", "25H1", "edk2-stable202505", true),
        3 => ("2.2", "24H2", "edk2-stable202411", true),
        4 => ("2.2", "24H1", "edk2-stable202405", true),
        5 => ("2.2", "23H2", "edk2-stable202311", true),
        6 => ("2.2", "23H1", "edk2-stable202305", true),
        7 => ("2.2", "22H2", "edk2-stable202211", true),
        8 => ("2.2", "22H1", "edk2-stable202205", true),
        9 => ("2.2", "21H2", "edk2-stable202108", true),
        10 => ("2.2", "21H1", "edk2-stable202105", true),
        11 => ("2.2", "20H2", "edk2-stable202011", true),
        _ => ("2.0", "4.632", "20100426", false),
    }
}

/// One concrete downloadable UEFI Shell ISO, resolved to a label and URL.
#[derive(Debug, Clone)]
pub struct ShellOption {
    /// Label shown in the list.
    pub label: String,
    /// Direct download URL.
    pub url: String,
}

/// The label of a shell build's `variant` image.
pub open spec fn shell_label(b: (Seq<char>, Seq<char>, Seq<char>, bool), variant: Seq<char>) -> Seq<char> {
    "UEFI Shell "@ + b.0 + " "@ + b.1 + " ("@ + b.2 + "), "@ + variant
}

/// The download URL of a shell build's image with the given suffix.
pub open spec fn shell_url(b: (Seq<char>, Seq<char>, Seq<char>, bool), suffix: Seq<char>) -> Seq<char> {
    "https://github.com/pbatard/UEFI-Shell/releases/download/"@ + b.1 + "/UEFI-Shell-"@ + b.0 + "-"@
        + b.1 + "-"@ + suffix + ".iso"@
}

/// The options of the first `n` builds: each build's Release image, then
/// its Debug image when it has one.
pub open spec fn shell_options_upto(n: int) -> Seq<(Seq<char>, Seq<char>)>
    decreases n,
{
    if n <= 0 {
        seq![]
    } else {
        let b = shell_build((n - 1) as usize);
        let with_release = shell_options_upto(n - 1).push(
            (shell_label(b, "Release"@), shell_url(b, "RELEASE"@)),
        );
        if b.3 {
            with_release.push((shell_label(b, "Debug"@), shell_url(b, "DEBUG"@)))
        } else {
            with_release
        }
    }
}

/// The views of shell options.
pub open spec fn shell_options_view(v: Seq<ShellOption>) -> Seq<(Seq<char>, Seq<char>)> {
    Seq::new(v.len(), |i: int| (v[i].label@, v[i].url@))
}

fn shell_option(b: (&'static str, &'static str, &'static str, bool), variant: &str, suffix: &str) -> (r: ShellOption)
    ensures
        r.label@ == shell_label((b.0@, b.1@, b.2@, b.3), variant@),
        r.url@ == shell_url((b.0@, b.1@, b.2@, b.3), suffix@),
{
    let mut label = chars_of("UEFI Shell ");
    append_str(&mut label, b.0);
    append_str(&mut label, " ");
    append_str(&mut label, b.1);
    append_str(&mut label, " (");
    append_str(&mut label, b.2);
    append_str(&mut label, "), ");
    append_str(&mut label, variant);
    let mut url = chars_of("https://github.com/pbatard/UEFI-Shell/releases/download/");
    append_str(&mut url, b.1);
    append_str(&mut url, "/UEFI-Shell-");
    append_str(&mut url, b.0);
    append_str(&mut url, "-");
    append_str(&mut url, b.1);
    append_str(&mut url, "-");
    append_str(&mut url, suffix);
    append_str(&mut url, ".iso");
    ShellOption { label: string_from_chars(&label), url: string_from_chars(&url) }
}

/// Flatten the build table into one entry per downloadable ISO (each
/// build's Release, plus its Debug when one exists).
pub fn uefi_shell_options() -> (r: Vec<ShellOption>)
    ensures
        shell_options_view(r@) == shell_options_upto(SHELL_BUILD_COUNT as int),
{
    let mut out: Vec<ShellOption> = Vec::new();
    let mut i: usize = 0;
    while i < SHELL_BUILD_COUNT
        invariant
            i <= SHELL_BUILD_COUNT,
            shell_options_view(out@) == shell_options_upto(i as int),
        decreases SHELL_BUILD_COUNT - i,
    {
        let b = shell_build_at(i);
        let ghost before = out@;
        let release = shell_option(b, "Release", "RELEASE");
        out.push(release);
        assert(shell_options_view(out@) =~= shell_options_view(before).push(
            (release.label@, release.url@),
        ));
        if b.3 {
            let ghost mid = out@;
            let debug = shell_option(b, "Debug", "DEBUG");
            out.push(debug);
            assert(shell_options_view(out@) =~= shell_options_view(mid).push(
                (debug.label@, debug.url@),
            ));
        }
        i = i + 1;
    }
    out
}

/// `name` contains `s`.
pub open spec fn has(name: Seq<char>, s: Seq<char>) -> bool {
    seq_contains(name, s)
}

/// The language part of a locale: what precedes its first `-`.
pub open spec fn locale_language(locale: Seq<char>) -> Seq<char> {
    match first_occ(locale, seq!['-'], 0) {
        Some(i) => locale.take(i),
        None => locale,
    }
}

/// Whether the Microsoft English language name `name` is the best fit for
/// the lower-cased host `locale`: region-specific rules first, then one rule
/// per bare language.
pub open spec fn language_matches_spec(locale: Seq<char>, name: Seq<char>) -> bool {
    if locale == "en-us"@ {
        name == "english"@
    } else if locale == "pt-br"@ {
        has(name, "brazil"@)
    } else if locale == "pt-pt"@ {
        name == "portuguese"@
    } else if locale == "fr-ca"@ {
        has(name, "french"@) && has(name, "canad"@)
    } else if locale == "zh-cn"@ {
        has(name, "chinese"@) && has(name, "simp"@)
    } else if locale == "zh-tw"@ {
        has(name, "chinese"@) && has(name, "trad"@)
    } else if locale == "es-es"@ {
        name == "spanish"@
    } else {
        bare_language_matches(locale_language(locale), name)
    }
}

/// The rule for a bare language code.
pub open spec fn bare_language_matches(lang: Seq<char>, name: Seq<char>) -> bool {
    if lang == "ar"@ {
        has(name, "arabic"@)
    } else if lang == "bg"@ {
        has(name, "bulgar"@)
    } else if lang == "zh"@ {
        has(name, "chinese"@)
    } else if lang == "hr"@ {
        has(name, "croat"@)
    } else if lang == "cs"@ || lang == "cz"@ {
        has(name, "czech"@)
    } else if lang == "da"@ {
        has(name, "danish"@)
    } else if lang == "nl"@ {
        has(name, "dutch"@)
    } else if lang == "en"@ {
        has(name, "english"@) && (has(name, "inter"@) || has(name, "ingdom"@))
    } else if lang == "et"@ {
        has(name, "eston"@)
    } else if lang == "fi"@ {
        has(name, "finn"@)
    } else if lang == "fr"@ {
        name == "french"@
    } else if lang == "de"@ {
        has(name, "german"@)
    } else if lang == "el"@ {
        has(name, "greek"@)
    } else if lang == "he"@ {
        has(name, "hebrew"@)
    } else if lang == "hu"@ {
        has(name, "hungar"@)
    } else if lang == "id"@ {
        has(name, "indones"@)
    } else if lang == "it"@ {
        has(name, "italia"@)
    } else if lang == "ja"@ {
        has(name, "japan"@)
    } else if lang == "ko"@ {
        has(name, "korea"@)
    } else if lang == "lv"@ {
        has(name, "latvia"@)
    } else if lang == "lt"@ {
        has(name, "lithuania"@)
    } else if lang == "ms"@ {
        has(name, "malay"@)
    } else if lang == "nb"@ || lang == "nn"@ || lang == "no"@ {
        has(name, "norw"@)
    } else if lang == "fa"@ {
        has(name, "persia"@)
    } else if lang == "pl"@ {
        has(name, "polish"@)
    } else if lang == "pt"@ {
        name == "portuguese"@
    } else if lang == "ro"@ {
        has(name, "romania"@)
    } else if lang == "ru"@ {
        has(name, "russia"@)
    } else if lang == "sr"@ {
        has(name, "serbia"@)
    } else if lang == "sk"@ {
        has(name, "slovak"@)
    } else if lang == "sl"@ {
        has(name, "slovenia"@)
    } else if lang == "es"@ {
        has(name, "spanish"@)
    } else if lang == "sv"@ {
        has(name, "swed"@)
    } else if lang == "th"@ {
        has(name, "thai"@)
    } else if lang == "tr"@ {
        has(name, "turk"@)
    } else if lang == "uk"@ {
        has(name, "ukrain"@)
    } else if lang == "vi"@ {
        has(name, "vietnam"@)
    } else {
        false
    }
}

fn is_lit(v: &[char], s: &str) -> (r: bool)
    ensures
        r == (v@ == s@),
{
    let w = chars_of(s);
    chars_eq(v, &w)
}

fn has_lit(v: &[char], s: &str) -> (r: bool)
    ensures
        r == has(v@, s@),
{
    let w = chars_of(s);
    contains(v, &w)
}

fn bare_language_rule(lang: &[char], name: &[char]) -> (r: bool)
    ensures
        r == bare_language_matches(lang@, name@),
{
    if is_lit(lang, "ar") {
        has_lit(name, "arabic")
    } else if is_lit(lang, "bg") {
        has_lit(name, "bulgar")
    } else if is_lit(lang, "zh") {
        has_lit(name, "chinese")
    } else if is_lit(lang, "hr") {
        has_lit(name, "croat")
    } else if is_lit(lang, "cs") || is_lit(lang, "cz") {
        has_lit(name, "czech")
    } else if is_lit(lang, "da") {
        has_lit(name, "danish")
    } else if is_lit(lang, "nl") {
        has_lit(name, "dutch")
    } else if is_lit(lang, "en") {
        has_lit(name, "english") && (has_lit(name, "inter") || has_lit(name, "ingdom"))
    } else if is_lit(lang, "et") {
        has_lit(name, "eston")
    } else if is_lit(lang, "fi") {
        has_lit(name, "finn")
    } else if is_lit(lang, "fr") {
        is_lit(name, "french")
    } else if is_lit(lang, "de") {
        has_lit(name, "german")
    } else if is_lit(lang, "el") {
        has_lit(name, "greek")
    } else if is_lit(lang, "he") {
        has_lit(name, "hebrew")
    } else if is_lit(lang, "hu") {
        has_lit(name, "hungar")
    } else if is_lit(lang, "id") {
        has_lit(name, "indones")
    } else if is_lit(lang, "it") {
        has_lit(name, "italia")
    } else if is_lit(lang, "ja") {
        has_lit(name, "japan")
    } else if is_lit(lang, "ko") {
        has_lit(name, "korea")
    } else if is_lit(lang, "lv") {
        has_lit(name, "latvia")
    } else if is_lit(lang, "lt") {
        has_lit(name, "lithuania")
    } else if is_lit(lang, "ms") {
        has_lit(name, "malay")
    } else if is_lit(lang, "nb") || is_lit(lang, "nn") || is_lit(lang, "no") {
        has_lit(name, "norw")
    } else if is_lit(lang, "fa") {
        has_lit(name, "persia")
    } else if is_lit(lang, "pl") {
        has_lit(name, "polish")
    } else if is_lit(lang, "pt") {
        is_lit(name, "portuguese")
    } else if is_lit(lang, "ro") {
        has_lit(name, "romania")
    } else if is_lit(lang, "ru") {
        has_lit(name, "russia")
    } else if is_lit(lang, "sr") {
        has_lit(name, "serbia")
    } else if is_lit(lang, "sk") {
        has_lit(name, "slovak")
    } else if is_lit(lang, "sl") {
        has_lit(name, "slovenia")
    } else if is_lit(lang, "es") {
        has_lit(name, "spanish")
    } else if is_lit(lang, "sv") {
        has_lit(name, "swed")
    } else if is_lit(lang, "th") {
        has_lit(name, "thai")
    } else if is_lit(lang, "tr") {
        has_lit(name, "turk")
    } else if is_lit(lang, "uk") {
        has_lit(name, "ukrain")
    } else if is_lit(lang, "vi") {
        has_lit(name, "vietnam")
    } else {
        false
    }
}

/// Whether the Microsoft English language name `name` is the best fit for the
/// host `locale` (both already lower-cased; `locale` uses `-` separators).
pub fn language_matches(locale: &str, name: &str) -> (r: bool)
    ensures
        r == language_matches_spec(locale@, name@),
{
    let loc = chars_of(locale);
    let nm = chars_of(name);
    if is_lit(&loc, "en-us") {
        return is_lit(&nm, "english");
    }
    if is_lit(&loc, "pt-br") {
        return has_lit(&nm, "brazil");
    }
    if is_lit(&loc, "pt-pt") {
        return is_lit(&nm, "portuguese");
    }
    if is_lit(&loc, "fr-ca") {
        return has_lit(&nm, "french") && has_lit(&nm, "canad");
    }
    if is_lit(&loc, "zh-cn") {
        return has_lit(&nm, "chinese") && has_lit(&nm, "simp");
    }
    if is_lit(&loc, "zh-tw") {
        return has_lit(&nm, "chinese") && has_lit(&nm, "trad");
    }
    if is_lit(&loc, "es-es") {
        return is_lit(&nm, "spanish");
    }
    let dash = ['-'];
    assert(dash@ =~= seq!['-']);
    let lang = match find_from(&loc, &dash, 0) {
        Some(i) => {
            proof {
                lemma_first_occ(loc@, seq!['-'], 0);
            }
            slice_chars(&loc, 0, i)
        },
        None => slice_chars(&loc, 0, loc.len()),
    };
    assert(lang@ =~= locale_language(loc@));
    bare_language_rule(&lang, &nm)
}

/// Two lower-case hex digits per byte (`{:02x}` each).
pub open spec fn hex_string(b: Seq<u8>) -> Seq<char>
    decreases b.len(),
{
    if b.len() == 0 {
        seq![]
    } else {
        hex_string(b.drop_last()) + seq![
            hex_digit((b.last() / 16) as nat),
            hex_digit((b.last() % 16) as nat),
        ]
    }
}

fn hex_char(d: u8) -> (c: char)
    requires
        d < 16,
    ensures
        c == hex_digit(d as nat),
{
    if d < 10 {
        (d + 48) as char
    } else {
        (d + 87) as char
    }
}

/// Lower-case hex encoding of a digest.
pub fn hex(bytes: &[u8]) -> (r: String)
    ensures
        r@ == hex_string(bytes@),
{
    let mut out: Vec<char> = Vec::new();
    let mut i: usize = 0;
    while i < bytes.len()
        invariant
            i <= bytes@.len(),
            out@ == hex_string(bytes@.take(i as int)),
        decreases bytes@.len() - i,
    {
        assert(bytes@.take(i + 1).drop_last() =~= bytes@.take(i as int));
        let b = bytes[i];
        out.push(hex_char(b / 16));
        out.push(hex_char(b % 16));
        i = i + 1;
    }
    assert(bytes@.take(i as int) =~= bytes@);
    string_from_chars(&out)
}

/// Index of the last `c` in `s`.
pub open spec fn last_index_of(s: Seq<char>, c: char) -> Option<int>
    decreases s.len(),
{
    if s.len() == 0 {
        None
    } else if s.last() == c {
        Some(s.len() - 1)
    } else {
        last_index_of(s.drop_last(), c)
    }
}

/// What follows the last `/` of a URL (`rsplit('/').next()`).
pub open spec fn last_segment(url: Seq<char>) -> Seq<char> {
    match last_index_of(url, '/') {
        Some(i) => url.subrange(i + 1, url.len() as int),
        None => url,
    }
}

/// What precedes the first `?` (`split('?').next()`).
pub open spec fn before_query(s: Seq<char>) -> Seq<char> {
    match first_occ(s, seq!['?'], 0) {
        Some(i) => s.take(i),
        None => s,
    }
}

/// The `.iso` file name a download URL ends in, or `Windows.iso`.
pub open spec fn file_name_spec(url: Seq<char>) -> Seq<char> {
    let name = before_query(last_segment(url));
    if is_suffix(".iso"@, unicode_lower(name)) {
        name
    } else {
        "Windows.iso"@
    }
}

/// Index of the last `c` in `v`.
fn last_index(v: &[char], c: char) -> (r: Option<usize>)
    ensures
        r matches Some(i) ==> last_index_of(v@, c) == Some(i as int) && i < v.len(),
        r is None ==> last_index_of(v@, c) is None,
{
    let mut k: usize = v.len();
    assert(v@.take(k as int) =~= v@);
    while k > 0
        invariant
            k <= v@.len(),
            last_index_of(v@, c) == last_index_of(v@.take(k as int), c),
        decreases k,
    {
        if v[k - 1] == c {
            return Some(k - 1);
        }
        assert(v@.take(k as int).drop_last() =~= v@.take(k - 1));
        k = k - 1;
    }
    None
}

/// Derive a `.iso` file name from a download URL.
pub fn file_name_from_url(url: &str) -> (r: String)
    ensures
        r@ == file_name_spec(url@),
{
    let v = chars_of(url);
    let seg = match last_index(&v, '/') {
        Some(i) => slice_chars(&v, i + 1, v.len()),
        None => {
            let all = slice_chars(&v, 0, v.len());
            assert(all@ =~= v@);
            all
        },
    };
    assert(seg@ =~= last_segment(url@));
    let q = ['?'];
    assert(q@ =~= seq!['?']);
    let name = match find_from(&seg, &q, 0) {
        Some(i) => {
            proof {
                lemma_first_occ(seg@, seq!['?'], 0);
            }
            slice_chars(&seg, 0, i)
        },
        None => slice_chars(&seg, 0, seg.len()),
    };
    assert(name@ =~= before_query(seg@));
    let name_string = string_from_chars(&name);
    let lower = to_lowercase_unicode(name_string.as_str());
    let lower_chars = chars_of(lower.as_str());
    let iso = chars_of(".iso");
    if ends_with(&lower_chars, &iso) {
        name_string
    } else {
        string_from_chars(&chars_of("Windows.iso"))
    }
}

/// Which characters a token is made of.
#[derive(Debug, Clone, Copy, PartialEq, Eq, Structural)]
pub enum TokenChars {
    /// ASCII hexadecimal digits.
    HexDigits,
    /// ASCII decimal digits.
    DecimalDigits,
}

/// Whether `c` belongs to a token of kind `k`.
pub open spec fn token_accepts(k: TokenChars, c: char) -> bool {
    match k {
        TokenChars::HexDigits => is_hex(c),
        TokenChars::DecimalDigits => is_digit(c),
    }
}

/// The end of the run of `k` characters of `s` from `i`.
pub open spec fn token_end(s: Seq<char>, k: TokenChars, i: int) -> int
    decreases s.len() - i,
{
    if i < 0 || i >= s.len() || !token_accepts(k, s[i]) {
        if i < 0 {
            0
        } else {
            i
        }
    } else {
        token_end(s, k, i + 1)
    }
}

/// The run of `k` characters right after the first `marker` in `text`
/// (one leading `+` skipped), when there is one and it is not empty.
pub open spec fn token_after(text: Seq<char>, marker: Seq<char>, k: TokenChars) -> Option<Seq<char>> {
    match first_occ(text, marker, 0) {
        None => None,
        Some(p) => {
            let rest0 = text.subrange(p + marker.len(), text.len() as int);
            let rest = if rest0.len() > 0 && rest0[0] == '+' {
                rest0.drop_first()
            } else {
                rest0
            };
            let t = rest.take(token_end(rest, k, 0));
            if t.len() > 0 {
                Some(t)
            } else {
                None
            }
        },
    }
}

fn token_char(kind: TokenChars, c: char) -> (r: bool)
    ensures
        r == token_accepts(kind, c),
{
    match kind {
        TokenChars::HexDigits => char_is_hex(c),
        TokenChars::DecimalDigits => char_is_digit(c),
    }
}

/// Extract the run of `kind` characters that follows `marker` in `text`,
/// skipping one optional leading `+`.
pub fn extract_token(text: &str, marker: &str, kind: TokenChars) -> (r: Option<String>)
    ensures
        match token_after(text@, marker@, kind) {
            Some(t) => r matches Some(x) && x@ == t,
            None => r is None,
        },
{
    let t = chars_of(text);
    let m = chars_of(marker);
    let p = match find_from(&t, &m, 0) {
        None => {
            return None;
        },
        Some(p) => p,
    };
    proof {
        lemma_first_occ(t@, m@, 0);
    }
    assert(p + m.len() <= t.len());
    let mut start: usize = p + m.len();
    let ghost rest0 = t@.subrange(start as int, t@.len() as int);
    if start < t.len() && t[start] == '+' {
        start = start + 1;
        assert(rest0.drop_first() =~= t@.subrange(start as int, t@.len() as int));
    }
    let ghost rest = t@.subrange(start as int, t@.len() as int);
    let mut end: usize = start;
    while end < t.len() && token_char(kind, t[end])
        invariant
            start <= end <= t@.len(),
            rest == t@.subrange(start as int, t@.len() as int),
            token_end(rest, kind, 0) == token_end(rest, kind, end - start),
        decreases t@.len() - end,
    {
        end = end + 1;
    }
    let tok = slice_chars(&t, start, end);
    assert(tok@ =~= rest.take(end - start));
    if tok.len() > 0 {
        Some(string_from_chars(&tok))
    } else {
        None
    }
}

/// The first entry of a Microsoft API reply's `Errors` array.
#[derive(Debug, Clone)]
pub struct ApiError {
    /// Its `Type` (9 is the anti-bot rejection).
    pub kind: Option<i64>,
    /// Its `Value` message.
    pub value: Option<String>,
}

/// The message for an anti-bot rejection.
pub open spec fn anti_bot_message() -> Seq<char> {
    "Microsoft's anti-bot system rejected the request. This is common on VPNs, datacenter connections, or some ISPs. Use the \"Open Microsoft download page\" button below to download the ISO in your browser."@
}

/// The verdict on a reply whose first error is `first`: fine without one,
/// else the anti-bot hint for type 9, else Microsoft's own message.
pub open spec fn check_errors_spec(first: Option<ApiError>) -> Result<(), Seq<char>> {
    match first {
        None => Ok(()),
        Some(e) => if e.kind == Some(9i64) {
            Err(anti_bot_message())
        } else {
            Err("Microsoft returned an error: "@ + match e.value {
                Some(v) => v@,
                None => "unknown error"@,
            })
        },
    }
}

/// Turn the first entry of a Microsoft `Errors` array into an error.
pub fn check_errors(first: Option<&ApiError>) -> (r: Result<(), String>)
    ensures
        match check_errors_spec(
            match first {
                Some(e) => Some(*e),
                None => None,
            },
        ) {
            Ok(()) => r is Ok,
            Err(m) => r matches Err(x) && x@ == m,
        },
{
    let e = match first {
        None => {
            return Ok(());
        },
        Some(e) => e,
    };
    let nine = match e.kind {
        Some(k) => k == 9,
        None => false,
    };
    if nine {
        return Err(string_from_chars(&chars_of(
            "Microsoft's anti-bot system rejected the request. This is common on VPNs, datacenter connections, or some ISPs. Use the \"Open Microsoft download page\" button below to download the ISO in your browser.",
        )));
    }
    let mut m = chars_of("Microsoft returned an error: ");
    match &e.value {
        Some(v) => append_str(&mut m, v.as_str()),
        None => append_str(&mut m, "unknown error"),
    }
    Err(string_from_chars(&m))
}

/// An RFC-4122 version-4 GUID from 16 random bytes: byte 6 gets version
/// 4, byte 8 the variant bits `10`, and the bytes print as 8-4-4-4-12 hex.
pub open spec fn guid_spec(b: Seq<u8>) -> Seq<char> {
    let v = b.update(6, (b[6] % 16 + 64) as u8).update(8, (b[8] % 64 + 128) as u8);
    hex_string(v.subrange(0, 4)) + seq!['-'] + hex_string(v.subrange(4, 6)) + seq!['-']
        + hex_string(v.subrange(6, 8)) + seq!['-'] + hex_string(v.subrange(8, 10)) + seq!['-']
        + hex_string(v.subrange(10, 16))
}

/// Format 16 random bytes as a version-4 GUID string.
pub fn guid_from_bytes(b: &[u8; 16]) -> (r: String)
    ensures
        r@ == guid_spec(b@),
{
    let mut v: Vec<u8> = Vec::new();
    let mut i: usize = 0;
    while i < 16
        invariant
            i <= 16,
            b@.len() == 16,
            v@ == b@.take(i as int),
        decreases 16 - i,
    {
        v.push(b[i]);
        assert(v@ =~= b@.take(i + 1));
        i = i + 1;
    }
    assert(v@ =~= b@);
    let b6 = v[6] % 16 + 64;
    let b8 = v[8] % 64 + 128;
    v.set(6, b6);
    v.set(8, b8);
    let mut out: Vec<char> = Vec::new();
    let p0 = hex(slice_subrange(&v, 0, 4));
    append_str(&mut out, p0.as_str());
    out.push('-');
    let p1 = hex(slice_subrange(&v, 4, 6));
    append_str(&mut out, p1.as_str());
    out.push('-');
    let p2 = hex(slice_subrange(&v, 6, 8));
    append_str(&mut out, p2.as_str());
    out.push('-');
    let p3 = hex(slice_subrange(&v, 8, 10));
    append_str(&mut out, p3.as_str());
    out.push('-');
    let p4 = hex(slice_subrange(&v, 10, 16));
    append_str(&mut out, p4.as_str());
    assert(v@ =~= b@.update(6, (b@[6] % 16 + 64) as u8).update(8, (b@[8] % 64 + 128) as u8));
    string_from_chars(&out)
}

/// The stem and extension of a file name, split at its last `.` when what
/// precedes it is not empty.
pub open spec fn stem_and_ext(name: Seq<char>) -> (Seq<char>, Option<Seq<char>>) {
    match last_index_of(name, '.') {
        Some(i) => if i > 0 {
            (name.take(i), Some(name.subrange(i + 1, name.len() as int)))
        } else {
            (name, None)
        },
        None => (name, None),
    }
}

/// The `n`-th alternative to a taken file name: `stem (n).ext`, or
/// `stem (n)` without an extension.
pub open spec fn numbered_name_spec(name: Seq<char>, n: u32) -> Seq<char> {
    let (stem, ext) = stem_and_ext(name);
    match ext {
        Some(e) => stem + " ("@ + decimal(n as nat) + ")."@ + e,
        None => stem + " ("@ + decimal(n as nat) + ")"@,
    }
}

/// The `n`-th alternative to a file name that is taken (the counter lands
/// before the extension).
pub fn numbered_name(name: &str, n: u32) -> (r: String)
    ensures
        r@ == numbered_name_spec(name@, n),
{
    let v = chars_of(name);
    let digits = decimal_chars(n as u64);
    let ghost parts = stem_and_ext(name@);
    let (stem, ext): (Vec<char>, Option<Vec<char>>) = match last_index(&v, '.') {
        Some(i) => if i > 0 {
            let st = slice_chars(&v, 0, i);
            assert(st@ =~= v@.take(i as int));
            (st, Some(slice_chars(&v, i + 1, v.len())))
        } else {
            let all = slice_chars(&v, 0, v.len());
            assert(all@ =~= v@);
            (all, None)
        },
        None => {
            let all = slice_chars(&v, 0, v.len());
            assert(all@ =~= v@);
            (all, None)
        },
    };
    assert(stem@ == parts.0);
    let mut out = stem;
    append_str(&mut out, " (");
    append_chars(&mut out, &digits);
    match ext {
        Some(e) => {
            assert(parts.1 == Some(e@));
            append_str(&mut out, ").");
            append_chars(&mut out, &e);
        },
        None => {
            assert(parts.1 is None);
            append_str(&mut out, ")");
        },
    }
    string_from_chars(&out)
}

/// The error for a download stream that closed early.
pub open spec fn incomplete_download(done: u64, total: u64) -> Option<Seq<char>> {
    if total > 0 && done < total {
        Some("the connection closed after "@ + decimal(done as nat) + " of "@ + decimal(total as nat)
            + " bytes"@)
    } else {
        None
    }
}

/// Whether a finished stream delivered all `total` announced bytes (an
/// unannounced length is accepted).
pub fn check_download_complete(done: u64, total: u64) -> (r: Result<(), String>)
    ensures
        match incomplete_download(done, total) {
            Some(m) => r matches Err(x) && x@ == m,
            None => r is Ok,
        },
{
    if total > 0 && done < total {
        let mut m = chars_of("the connection closed after ");
        let d = decimal_chars(done);
        append_chars(&mut m, &d);
        append_str(&mut m, " of ");
        let t = decimal_chars(total);
        append_chars(&mut m, &t);
        append_str(&mut m, " bytes");
        Err(string_from_chars(&m))
    } else {
        Ok(())
    }
}

/// An opaque SKU id of one product edition, with the index of the session
/// that produced it (the same session must request its download links).
#[derive(Debug, Clone)]
pub struct Sku {
    /// Index of the session that listed it.
    pub session: usize,
    /// Opaque SKU identifier.
    pub id: String,
}

/// A language offered for a release, backed by SKUs from every product
/// edition that offers it.
#[derive(Debug, Clone)]
pub struct Language {
    /// Localized language name shown to the user.
    pub display: String,
    /// English language key (e.g. "French"), used for locale matching.
    name: String,
    /// SKUs across every product edition that offers this language.
    skus: Vec<Sku>,
}

/// What a language holds: its display name, its key, and its SKUs as
/// `(session, id)`.
pub closed spec fn language_view(l: Language) -> (Seq<char>, Seq<char>, Seq<(usize, Seq<char>)>) {
    (l.display@, l.name@, Seq::new(l.skus@.len(), |i: int| (l.skus@[i].session, l.skus@[i].id@)))
}

/// The English key of a language.
pub closed spec fn language_key(l: Language) -> Seq<char> {
    l.name@
}

/// The views of a list of languages.
pub open spec fn languages_view(v: Seq<Language>) -> Seq<(Seq<char>, Seq<char>, Seq<(usize, Seq<char>)>)> {
    Seq::new(v.len(), |i: int| language_view(v[i]))
}

/// Index of the first language keyed `name`.
pub open spec fn language_index(
    ls: Seq<(Seq<char>, Seq<char>, Seq<(usize, Seq<char>)>)>,
    name: Seq<char>,
    from: int,
) -> Option<int>
    decreases ls.len() - from,
{
    if from < 0 || from >= ls.len() {
        None
    } else if ls[from].1 == name {
        Some(from)
    } else {
        language_index(ls, name, from + 1)
    }
}

/// The languages after a SKU is listed: a non-empty key already present
/// gains the SKU, anything else becomes a new language at the end.
pub open spec fn with_sku(
    ls: Seq<(Seq<char>, Seq<char>, Seq<(usize, Seq<char>)>)>,
    session: usize,
    id: Seq<char>,
    name: Seq<char>,
    display: Seq<char>,
) -> Seq<(Seq<char>, Seq<char>, Seq<(usize, Seq<char>)>)> {
    match if name.len() > 0 {
        language_index(ls, name, 0)
    } else {
        None
    } {
        Some(i) => ls.update(i, (ls[i].0, ls[i].1, ls[i].2.push((session, id)))),
        None => ls.push((display, name, seq![(session, id)])),
    }
}

impl Language {
    /// The English language key.
    pub fn name(&self) -> (r: &str)
        ensures
            r@ == language_key(*self),
    {
        self.name.as_str()
    }

    /// The SKUs backing this language.
    pub fn skus(&self) -> (r: &Vec<Sku>)
        ensures
            Seq::new(r@.len(), |i: int| (r@[i].session, r@[i].id@)) == language_view(*self).2,
    {
        &self.skus
    }
}

/// Index of the first language keyed `name`.
fn find_language(languages: &Vec<Language>, name: &String) -> (r: Option<usize>)
    ensures
        r matches Some(k) ==> language_index(languages_view(languages@), name@, 0) == Some(k as int)
            && k < languages@.len(),
        r is None ==> language_index(languages_view(languages@), name@, 0) is None,
{
    let ghost ls = languages_view(languages@);
    let mut i: usize = 0;
    while i < languages.len()
        invariant
            i <= languages@.len(),
            ls == languages_view(languages@),
            language_index(ls, name@, 0) == language_index(ls, name@, i as int),
        decreases languages@.len() - i,
    {
        if languages[i].name == *name {
            return Some(i);
        }
        i = i + 1;
    }
    None
}

/// Records one SKU of a product edition's language list: grouped under the
/// language with the same (non-empty) key, or as a new language.
pub fn add_language_sku(languages: &mut Vec<Language>, session: usize, id: String, name: String, display: String)
    ensures
        languages_view(final(languages)@) == with_sku(
            languages_view(old(languages)@),
            session,
            id@,
            name@,
            display@,
        ),
{
    let ghost ls = languages_view(languages@);
    let found: Option<usize> = if !name.as_str().is_empty() {
        find_language(languages, &name)
    } else {
        None
    };
    match found {
        Some(k) => {
            let mut lang = languages.remove(k);
            let ghost before = language_view(lang);
            lang.skus.push(Sku { session, id });
            assert(language_view(lang).2 =~= before.2.push((session, id@)));
            languages.insert(k, lang);
            assert(languages_view(languages@) =~= ls.update(
                k as int,
                (ls[k as int].0, ls[k as int].1, ls[k as int].2.push((session, id@))),
            ));
        },
        None => {
            let lang = Language { display, name, skus: vec![Sku { session, id }] };
            assert(language_view(lang).2 =~= seq![(session, id@)]);
            languages.push(lang);
            assert(languages_view(languages@) =~= ls.push(language_view(lang)));
        },
    }
}

/// Index of the first language whose key matches `locale`, or 0.
pub open spec fn default_language_spec(names: Seq<Seq<char>>, locale: Seq<char>, from: int) -> int
    decreases names.len() - from,
{
    if from < 0 || from >= names.len() {
        0
    } else if language_matches_spec(locale, names[from]) {
        from
    } else {
        default_language_spec(names, locale, from + 1)
    }
}

/// The language list entry that best matches the host `locale` (first
/// match, else 0), for preselecting the list.
pub fn default_language_index(languages: &Vec<Language>, locale: &str) -> (r: i32)
    ensures
        r == (default_language_spec(
            Seq::new(languages@.len(), |i: int| language_key(languages@[i])),
            locale@,
            0,
        ) as i32),
{
    let ghost names = Seq::new(languages@.len(), |i: int| language_key(languages@[i]));
    let mut i: usize = 0;
    while i < languages.len()
        invariant
            i <= languages@.len(),
            names == Seq::new(languages@.len(), |i: int| language_key(languages@[i])),
            default_language_spec(names, locale@, 0) == default_language_spec(names, locale@, i as int),
        decreases languages@.len() - i,
    {
        if language_matches(locale, languages[i].name.as_str()) {
            return i as i32;
        }
        i = i + 1;
    }
    0
}

/// One concrete downloadable ISO.
#[derive(Debug, Clone)]
pub struct DownloadOption {
    /// Label shown to the user (the ISO file name).
    pub label: String,
    /// Direct, time-limited download URL.
    pub url: String,
}

/// The views of download options.
pub open spec fn options_view(v: Seq<DownloadOption>) -> Seq<(Seq<char>, Seq<char>)> {
    Seq::new(v.len(), |i: int| (v[i].label@, v[i].url@))
}

/// Records a download URL, labelled with its file name, unless an option
/// with the same URL is already listed.
pub fn add_download_option(out: &mut Vec<DownloadOption>, url: &str)
    ensures
        (exists|i: int| 0 <= i < old(out)@.len() && #[trigger] old(out)@[i].url@ == url@) ==> final(out)@
            == old(out)@,
        (forall|i: int| 0 <= i < old(out)@.len() ==> #[trigger] old(out)@[i].url@ != url@)
            ==> options_view(final(out)@) == options_view(old(out)@).push((file_name_spec(url@), url@)),
{
    let target = chars_of(url);
    let mut i: usize = 0;
    while i < out.len()
        invariant
            i <= out@.len(),
            out@ == old(out)@,
            target@ == url@,
            forall|j: int| 0 <= j < i ==> #[trigger] out@[j].url@ != url@,
        decreases out@.len() - i,
    {
        let u = chars_of(out[i].url.as_str());
        if chars_eq(&u, &target) {
            return;
        }
        i = i + 1;
    }
    let ghost before = out@;
    let option = DownloadOption { label: file_name_from_url(url), url: string_from_chars(&target) };
    out.push(option);
    assert(options_view(out@) =~= options_view(before).push((file_name_spec(url@), url@)));
}

/// The part of a locale value before its encoding or modifier suffix.
pub open spec fn locale_base(raw: Seq<char>) -> Seq<char>
    decreases raw.len(),
{
    if raw.len() == 0 || raw[0] == '.' || raw[0] == '@' {
        seq![]
    } else {
        seq![raw[0]] + locale_base(raw.drop_first())
    }
}

/// `s` with every `_` turned into `-`.
pub open spec fn dashes_for_underscores(s: Seq<char>) -> Seq<char> {
    Seq::new(s.len(), |i: int| if s[i] == '_' {
        '-'
    } else {
        s[i]
    })
}

/// A host locale value (e.g. `fr_CA.UTF-8`) as a lower-cased BCP-47-ish
/// tag (`fr-ca`).
pub fn normalize_locale(raw: &str) -> (r: String)
    ensures
        r@ == unicode_lower(dashes_for_underscores(locale_base(raw@))),
{
    let v = chars_of(raw);
    let mut out: Vec<char> = Vec::new();
    let mut i: usize = 0;
    assert(v@.subrange(0, v@.len() as int) =~= v@);
    assert(out@ + v@ =~= v@);
    while i < v.len() && v[i] != '.' && v[i] != '@'
        invariant
            i <= v@.len(),
            locale_base(v@) == out@ + locale_base(v@.subrange(i as int, v@.len() as int)),
            forall|j: int| 0 <= j < i ==> v@[j] != '.' && v@[j] != '@',
            out@.len() == i,
            forall|j: int| 0 <= j < i ==> out@[j] == v@[j],
        decreases v@.len() - i,
    {
        assert(v@.subrange(i as int, v@.len() as int).drop_first() =~= v@.subrange(i + 1, v@.len() as int));
        out.push(v[i]);
        i = i + 1;
    }
    assert(out@ + seq![] =~= out@);
    assert(locale_base(v@) =~= out@);
    let mut d: Vec<char> = Vec::new();
    let mut j: usize = 0;
    while j < out.len()
        invariant
            j <= out@.len(),
            d@ == dashes_for_underscores(out@.take(j as int)),
        decreases out@.len() - j,
    {
        if out[j] == '_' {
            d.push('-');
        } else {
            d.push(out[j]);
        }
        assert(d@ =~= dashes_for_underscores(out@.take(j + 1)));
        j = j + 1;
    }
    assert(out@.take(j as int) =~= out@);
    let base = string_from_chars(&d);
    to_lowercase_unicode(base.as_str())
}

/// A numbered alternative is never the taken name itself: it is longer by
/// at least the ` (n)` it adds.
pub proof fn law_numbered_name_is_never_the_name(name: Seq<char>, n: u32)
    ensures
        numbered_name_spec(name, n).len() > name.len(),
        numbered_name_spec(name, n) != name,
{
    let (stem, ext) = stem_and_ext(name);
    reveal_strlit(" (");
    reveal_strlit(").");
    reveal_strlit(")");
    match last_index_of(name, '.') {
        Some(i) => {
            crate::controller::lemma_last_index_in(name, '.');
        },
        None => {},
    }
}

/// Languages in order of their display names.
pub open spec fn sorted_by_display(s: Seq<Language>) -> bool {
    forall|i: int, j: int|
        0 <= i < j < s.len() ==> !crate::devices::chars_lt(
            language_view(#[trigger] s[j]).0,
            language_view(#[trigger] s[i]).0,
        )
}

/// Sort languages by display name.
pub fn sort_languages(languages: Vec<Language>) -> (r: Vec<Language>)
    ensures
        r@.to_multiset() == languages@.to_multiset(),
        sorted_by_display(r@),
{

    let ghost orig = languages@;
    let mut input = languages;
    let mut out: Vec<Language> = Vec::new();
    let mut keys: Vec<Vec<char>> = Vec::new();
    let ghost mut k: int = 0;
    assert(orig.take(0) =~= out@);
    assert(orig.skip(0) =~= input@);
    while input.len() > 0
        invariant
            0 <= k <= orig.len(),
            input@ == orig.skip(k),
            out@.to_multiset() == orig.take(k).to_multiset(),
            sorted_by_display(out@),
            keys@.len() == out@.len(),
            forall|q: int| 0 <= q < out@.len() ==> (#[trigger] keys@[q])@ == out@[q].display@,
        decreases input.len(),
    {
        let e = input.remove(0);
        let ek = chars_of(e.display.as_str());
        let mut p: usize = 0;
        let mut found = false;
        while p < out.len() && !found
            invariant
                p <= out@.len(),
                keys@.len() == out@.len(),
                forall|q: int| 0 <= q < out@.len() ==> (#[trigger] keys@[q])@ == out@[q].display@,
                ek@ == e.display@,
                found ==> p < out@.len() && crate::devices::chars_lt(e.display@, out@[p as int].display@),
                forall|q: int| 0 <= q < p ==> !crate::devices::chars_lt(e.display@, #[trigger] out@[q].display@),
            decreases out@.len() - p + (if found { 0int } else { 1int }),
        {
            if crate::devices::text_lt(&ek, &keys[p]) {
                found = true;
            } else {
                p += 1;
            }
        }
        let ghost before = out@;
        let ghost keys_before = keys@;
        proof {
            assert forall|i: int, j: int| 0 <= i < j < before.len() + 1 implies !crate::devices::chars_lt(
                language_view(#[trigger] before.insert(p as int, e)[j]).0,
                language_view(#[trigger] before.insert(p as int, e)[i]).0,
            ) by {
                let s = before.insert(p as int, e);
                if j < p {
                    assert(s[i] == before[i] && s[j] == before[j]);
                } else if j == p {
                    assert(s[i] == before[i]);
                } else if i == p {
                    assert(s[j] == before[j - 1]);
                    if crate::devices::chars_lt(before[j - 1].display@, e.display@) {
                        crate::devices::lemma_chars_lt_transitive(
                            before[j - 1].display@,
                            e.display@,
                            before[p as int].display@,
                        );
                        if j - 1 == p {
                            crate::devices::lemma_chars_lt_irreflexive(before[p as int].display@);
                        } else {
                            assert(!crate::devices::chars_lt(before[j - 1].display@, before[p as int].display@));
                        }
                    }
                } else if i < p {
                    assert(s[i] == before[i] && s[j] == before[j - 1]);
                } else {
                    assert(s[i] == before[i - 1] && s[j] == before[j - 1]);
                }
            }
            assert(orig.take(k + 1) =~= orig.take(k).push(e));
        }
        out.insert(p, e);
        keys.insert(p, ek);
        proof {
            k = k + 1;
            assert(input@ =~= orig.skip(k));
            assert forall|q: int| 0 <= q < out@.len() implies (#[trigger] keys@[q])@ == out@[q].display@ by {
                if q < p {
                    assert(keys@[q] == keys_before[q] && out@[q] == before[q]);
                } else if q > p {
                    assert(keys@[q] == keys_before[q - 1] && out@[q] == before[q - 1]);
                }
            }
        }
    }
    assert(orig.take(k) =~= orig);
    out
}

/// The languages of a release once every product edition was asked: an
/// error when none answered with any (the last failure, or a note that the
/// API may have changed), else the languages sorted by display name.
pub fn catalog_languages(languages: Vec<Language>, last_error: Option<String>) -> (r: Result<Vec<Language>, String>)
    ensures
        languages@.len() == 0 ==> match last_error {
            Some(e) => r matches Err(x) && x@ == e@,
            None => r matches Err(x) && x@ == "Microsoft returned no languages; the API may have changed"@,
        },
        languages@.len() > 0 ==> (r matches Ok(v) && v@.to_multiset() == languages@.to_multiset()
            && sorted_by_display(v@)),
{
    if languages.len() == 0 {
        return match last_error {
            Some(e) => Err(e),
            None => Err(string_from_chars(&chars_of("Microsoft returned no languages; the API may have changed"))),
        };
    }
    Ok(sort_languages(languages))
}

/// The download options of a language once every SKU was asked: an error
/// when none came back (the last failure, or a note that there were none).
pub fn options_result(options: Vec<DownloadOption>, last_error: Option<String>) -> (r: Result<Vec<DownloadOption>, String>)
    ensures
        options@.len() == 0 ==> match last_error {
            Some(e) => r matches Err(x) && x@ == e@,
            None => r matches Err(x) && x@ == "Microsoft returned no download options"@,
        },
        options@.len() > 0 ==> (r matches Ok(v) && v@ == options@),
{
    if options.len() == 0 {
        return match last_error {
            Some(e) => Err(e),
            None => Err(string_from_chars(&chars_of("Microsoft returned no download options"))),
        };
    }
    Ok(options)
}

/// The name a SKU's language is shown under: its localized name when the
/// SKU has that field (`Unknown` when the field is not text), else its
/// English name, else `Unknown`.
pub open spec fn sku_display_spec(localized: Option<Option<Seq<char>>>, language: Option<Seq<char>>) -> Seq<char> {
    match localized {
        Some(Some(l)) => l,
        Some(None) => "Unknown"@,
        None => match language {
            Some(l) => l,
            None => "Unknown"@,
        },
    }
}

/// The display name of a SKU's language from its `LocalizedLanguage` field
/// (`Some(None)` when present but not text) and its `Language` text.
pub fn sku_display(localized: Option<Option<&str>>, language: Option<&str>) -> (r: String)
    ensures
        r@ == sku_display_spec(
            match localized {
                Some(Some(l)) => Some(Some(l@)),
                Some(None) => Some(None),
                None => None,
            },
            match language {
                Some(l) => Some(l@),
                None => None,
            },
        ),
{
    let v = match localized {
        Some(Some(l)) => chars_of(l),
        Some(None) => chars_of("Unknown"),
        None => match language {
            Some(l) => chars_of(l),
            None => chars_of("Unknown"),
        },
    };
    string_from_chars(&v)
}

/// The end of a Windows ISO download: refused when the stream closed before
/// all `total` announced bytes came (`done` did), else the five digests of
/// the bytes hashed as they arrived.
pub fn finish_download(done: u64, total: u64, hashes: crate::digest::StreamHashes) -> (r: Result<
    crate::controller::IsoHashes,
    String,
>)
    ensures
        match incomplete_download(done, total) {
            Some(m) => r matches Err(x) && x@ == m,
            None => r matches Ok(h) && crate::iso::hashes_spec(crate::digest::absorbed(hashes)) == (
                h.md5@,
                h.sha1@,
                h.sha256@,
                h.sha512@,
                h.blake3@,
            ),
        },
{
    match check_download_complete(done, total) {
        Err(e) => Err(e),
        Ok(()) => Ok(hashes.finish()),
    }
}

/// Records one SKU record of a product edition's reply, given its `Id` as
/// text (`None`: the record has none, and is skipped), its `Language` text
/// and its `LocalizedLanguage` field (see [`sku_display`]): grouped by its
/// English name (empty when absent) under the name it is shown by.
pub fn add_sku_record(
    languages: &mut Vec<Language>,
    session: usize,
    id: Option<String>,
    language: Option<&str>,
    localized: Option<Option<&str>>,
)
    ensures
        id is None ==> final(languages)@ == old(languages)@,
        id matches Some(i) ==> languages_view(final(languages)@) == with_sku(
            languages_view(old(languages)@),
            session,
            i@,
            match language {
                Some(l) => l@,
                None => Seq::empty(),
            },
            sku_display_spec(
                match localized {
                    Some(Some(l)) => Some(Some(l@)),
                    Some(None) => Some(None),
                    None => None,
                },
                match language {
                    Some(l) => Some(l@),
                    None => None,
                },
            ),
        ),
{
    let id = match id {
        Some(i) => i,
        None => {
            return;
        },
    };
    let name = match language {
        Some(l) => string_from_chars(&chars_of(l)),
        None => String::new(),
    };
    let display = sku_display(localized, language);
    add_language_sku(languages, session, id, name, display);
}

/// A download is refused exactly when a length was announced and fewer
/// bytes than that arrived: a truncated ISO is never accepted.
pub proof fn law_truncated_downloads_are_refused(done: u64, total: u64)
    ensures
        (total > 0 && done < total) ==> incomplete_download(done, total) is Some,
        (total == 0 || done >= total) ==> incomplete_download(done, total) is None,
{
}

} // verus!
