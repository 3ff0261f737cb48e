//! The result of analyzing an ISO image, and recognition of the Linux
//! distribution it carries.
use crate::text::{
    append_chars, append_str, char_is_alnum, chars_eq, chars_of, contains, ends_with,
    eq_ignore_ascii_case, eq_ignore_case, is_alnum, is_prefix, is_suffix, lowercase, matches_at,
    occurs_at, seq_contains, seq_lower, starts_with, string_from_chars,
};
use vstd::prelude::*;

verus! {

/// The live-USB persistence scheme an ISO supports, if any.
#[derive(Clone, Copy, Debug, PartialEq, Eq, Structural)]
pub enum PersistenceKind {
    /// Ubuntu / casper: a `casper-rw` (or `writable`) partition.
    CasperRw,
    /// Debian-live: a `persistence` partition with `persistence.conf`.
    DebianLive,
    /// RHEL-family live: an `OVERLAY` partition holding a COW file.
    FedoraOverlay,
    /// Fedora 40+: an `OVERLAY` partition used as an overlayfs upper dir.
    FedoraOverlayFs,
    /// openSUSE live: an ext4 partition labelled `cow`.
    OpenSuseCow,
    /// archiso: an ext4 partition labelled `PERSISTENCE`.
    ArchOverlay,
    /// Slax: `/slax/changes/` inside the data partition.
    SlaxChanges,
    /// Knoppix: an ext4 partition labelled `KNOPPIX-DATA`.
    KnoppixData,
    /// Alpine diskless mode: `lbu` state on the writable boot media.
    AlpineLbu,
}

impl PersistenceKind {
    /// Whether this scheme needs its own dedicated partition: every scheme
    /// but the inline ones (Slax, Alpine).
    pub fn needs_partition(self) -> (r: bool)
        ensures
            r == !(self == PersistenceKind::SlaxChanges || self == PersistenceKind::AlpineLbu),
    {
        !matches!(self, PersistenceKind::SlaxChanges | PersistenceKind::AlpineLbu)
    }
}

/// The Linux distribution (or family) recognised inside an ISO.
#[derive(Clone, Copy, Debug, PartialEq, Eq, Structural)]
pub enum DistroFamily {
    Unknown,
    Ubuntu,
    Mint,
    Lmde,
    Debian,
    Fedora,
    Bazzite,
    Nobara,
    AlmaLinux,
    Rocky,
    CentOs,
    OpenSuse,
    GeckoLinux,
    Arch,
    Manjaro,
    EndeavourOs,
    CachyOs,
    Alpine,
    Slax,
    Knoppix,
    Kali,
    PopOs,
    Zorin,
    Elementary,
    KdeNeon,
    LinuxLite,
    Garuda,
    Artix,
    Tails,
    Puppy,
    Antix,
}

impl Default for DistroFamily {
    fn default() -> (r: Self)
        ensures
            r == DistroFamily::Unknown,
    {
        DistroFamily::Unknown
    }
}

/// A root entry: name, whether it is a directory, and its size.
pub type RootEntry = (String, bool, u64);

/// Some directory at the root is named exactly `needle`.
pub open spec fn has_dir(entries: Seq<RootEntry>, needle: Seq<char>) -> bool {
    exists|i: int| 0 <= i < entries.len() && entries[i].1 && entries[i].0@ == needle
}

/// Some directory at the root has a name starting with `prefix`.
pub open spec fn has_dir_prefix(entries: Seq<RootEntry>, prefix: Seq<char>) -> bool {
    exists|i: int| 0 <= i < entries.len() && entries[i].1 && is_prefix(prefix, entries[i].0@)
}

/// Some directory at the root is named `needle`, ignoring ASCII case.
pub open spec fn has_dir_ci(entries: Seq<RootEntry>, needle: Seq<char>) -> bool {
    exists|i: int|
        0 <= i < entries.len() && entries[i].1 && eq_ignore_case(entries[i].0@, needle)
}

/// A Puppy squashfs module name: `*.sfs` starting with `puppy_` or holding `pup`.
pub open spec fn is_puppy_sfs(name: Seq<char>) -> bool {
    is_suffix(".sfs"@, name) && (is_prefix("puppy_"@, name) || seq_contains(name, "pup"@))
}

/// Some regular file at the root is a Puppy squashfs module.
pub open spec fn has_puppy_sfs(entries: Seq<RootEntry>) -> bool {
    exists|i: int| 0 <= i < entries.len() && !entries[i].1 && is_puppy_sfs(entries[i].0@)
}

/// The occurrence of `needle` at `p` is not glued to an ASCII alphanumeric
/// character on either side.
pub open spec fn token_bounded(hay: Seq<char>, needle: Seq<char>, p: int) -> bool {
    &&& (p == 0 || !is_alnum(hay[p - 1]))
    &&& (p + needle.len() >= hay.len() || !is_alnum(hay[p + needle.len()]))
}

/// Left-to-right scan for a bounded occurrence of `needle`, starting at `i`;
/// after an unbounded occurrence the scan resumes at its end.
pub open spec fn token_scan(hay: Seq<char>, needle: Seq<char>, i: int) -> bool
    decreases hay.len() + 1 - i,
{
    if needle.len() == 0 || i < 0 || i + needle.len() > hay.len() {
        false
    } else if occurs_at(hay, needle, i) {
        if token_bounded(hay, needle, i) {
            true
        } else {
            token_scan(hay, needle, i + needle.len())
        }
    } else {
        token_scan(hay, needle, i + 1)
    }
}

/// The label needles, most specific first: (needle, token-bounded match, family).
pub open spec fn label_table() -> Seq<(Seq<char>, bool, DistroFamily)> {
    seq![
        ("bazzite"@, false, DistroFamily::Bazzite),
        ("nobara"@, false, DistroFamily::Nobara),
        ("lmde"@, false, DistroFamily::Lmde),
        ("linuxmint"@, false, DistroFamily::Mint),
        ("linux mint"@, false, DistroFamily::Mint),
        ("geckolinux"@, false, DistroFamily::GeckoLinux),
        ("manjaro"@, false, DistroFamily::Manjaro),
        ("endeavour"@, false, DistroFamily::EndeavourOs),
        ("cachyos"@, false, DistroFamily::CachyOs),
        ("cos_"@, false, DistroFamily::CachyOs),
        ("garuda"@, false, DistroFamily::Garuda),
        ("artix"@, false, DistroFamily::Artix),
        ("almalinux"@, false, DistroFamily::AlmaLinux),
        ("rockylinux"@, false, DistroFamily::Rocky),
        ("rocky"@, true, DistroFamily::Rocky),
        ("centos"@, false, DistroFamily::CentOs),
        ("alpine"@, false, DistroFamily::Alpine),
        ("kali"@, false, DistroFamily::Kali),
        ("tails"@, true, DistroFamily::Tails),
        ("pop_os"@, false, DistroFamily::PopOs),
        ("pop-os"@, false, DistroFamily::PopOs),
        ("zorin"@, false, DistroFamily::Zorin),
        ("elementary"@, false, DistroFamily::Elementary),
        ("kde neon"@, false, DistroFamily::KdeNeon),
        ("neon-"@, false, DistroFamily::KdeNeon),
        ("linux lite"@, false, DistroFamily::LinuxLite),
        ("linuxlite"@, false, DistroFamily::LinuxLite),
        ("puppy"@, false, DistroFamily::Puppy),
        ("fossapup"@, false, DistroFamily::Puppy),
        ("bookwormpup"@, false, DistroFamily::Puppy),
        ("ubuntu"@, false, DistroFamily::Ubuntu),
        ("kubuntu"@, false, DistroFamily::Ubuntu),
        ("xubuntu"@, false, DistroFamily::Ubuntu),
        ("lubuntu"@, false, DistroFamily::Ubuntu),
        ("debian"@, false, DistroFamily::Debian),
        ("fedora"@, false, DistroFamily::Fedora),
        ("fed_"@, false, DistroFamily::Fedora),
        ("opensuse"@, false, DistroFamily::OpenSuse),
        ("suse-"@, false, DistroFamily::OpenSuse),
        ("archlinux"@, false, DistroFamily::Arch),
        ("arch_"@, false, DistroFamily::Arch),
        ("arch-"@, false, DistroFamily::Arch),
    ]
}

/// Whether one table needle hits the lower-cased label.
pub open spec fn needle_hits(label_low: Seq<char>, needle: Seq<char>, token: bool) -> bool {
    if token {
        token_scan(label_low, needle, 0)
    } else {
        seq_contains(label_low, needle)
    }
}

/// The family of the first table entry (from index `i` on) that hits the label.
pub open spec fn first_label_hit(
    label_low: Seq<char>,
    table: Seq<(Seq<char>, bool, DistroFamily)>,
    i: int,
) -> Option<DistroFamily>
    decreases table.len() - i,
{
    if i < 0 || i >= table.len() {
        None
    } else if needle_hits(label_low, table[i].0, table[i].1) {
        Some(table[i].2)
    } else {
        first_label_hit(label_low, table, i + 1)
    }
}

/// The detection cascade: root markers, then label needles, then structural fallbacks.
pub open spec fn detect_spec(label: Seq<char>, entries: Seq<RootEntry>) -> DistroFamily {
    if has_dir(entries, "slax"@) || has_dir_prefix(entries, "slax-"@) {
        DistroFamily::Slax
    } else if has_dir_prefix(entries, "knoppix"@) || has_dir(entries, "knoppix"@) {
        DistroFamily::Knoppix
    } else if has_dir_ci(entries, "antix"@) {
        DistroFamily::Antix
    } else if has_puppy_sfs(entries) {
        DistroFamily::Puppy
    } else if let Some(f) = first_label_hit(seq_lower(label), label_table(), 0) {
        f
    } else if has_dir_ci(entries, "liveos"@) {
        DistroFamily::Fedora
    } else if has_dir(entries, "casper"@) {
        DistroFamily::Ubuntu
    } else if has_dir(entries, "live"@) {
        DistroFamily::Debian
    } else if has_dir(entries, "arch"@) {
        DistroFamily::Arch
    } else {
        DistroFamily::Unknown
    }
}

fn any_dir_named(entries: &[RootEntry], needle: &str) -> (r: bool)
    ensures
        r == has_dir(entries@, needle@),
{
    let n = chars_of(needle);
    for i in 0..entries.len()
        invariant
            n@ == needle@,
            forall|j: int| 0 <= j < i ==> !(entries@[j].1 && entries@[j].0@ == needle@),
    {
        if entries[i].1 {
            let name = chars_of(entries[i].0.as_str());
            if chars_eq(&name, &n) {
                return true;
            }
        }
    }
    false
}

fn any_dir_prefixed(entries: &[RootEntry], prefix: &str) -> (r: bool)
    ensures
        r == has_dir_prefix(entries@, prefix@),
{
    let p = chars_of(prefix);
    for i in 0..entries.len()
        invariant
            p@ == prefix@,
            forall|j: int| 0 <= j < i ==> !(entries@[j].1 && is_prefix(prefix@, entries@[j].0@)),
    {
        if entries[i].1 {
            let name = chars_of(entries[i].0.as_str());
            if starts_with(&name, &p) {
                return true;
            }
        }
    }
    false
}

fn any_dir_named_ci(entries: &[RootEntry], needle: &str) -> (r: bool)
    ensures
        r == has_dir_ci(entries@, needle@),
{
    let n = chars_of(needle);
    for i in 0..entries.len()
        invariant
            n@ == needle@,
            forall|j: int|
                0 <= j < i ==> !(entries@[j].1 && eq_ignore_case(entries@[j].0@, needle@)),
    {
        if entries[i].1 {
            let name = chars_of(entries[i].0.as_str());
            if eq_ignore_ascii_case(&name, &n) {
                return true;
            }
        }
    }
    false
}

fn any_puppy_sfs(entries: &[RootEntry]) -> (r: bool)
    ensures
        r == has_puppy_sfs(entries@),
{
    let sfs = chars_of(".sfs");
    let puppy = chars_of("puppy_");
    let pup = chars_of("pup");
    for i in 0..entries.len()
        invariant
            sfs@ == ".sfs"@,
            puppy@ == "puppy_"@,
            pup@ == "pup"@,
            forall|j: int| 0 <= j < i ==> !(!entries@[j].1 && is_puppy_sfs(entries@[j].0@)),
    {
        if !entries[i].1 {
            let name = chars_of(entries[i].0.as_str());
            if ends_with(&name, &sfs) && (starts_with(&name, &puppy) || contains(&name, &pup)) {
                return true;
            }
        }
    }
    false
}

/// Whether `hay` contains `needle` as a whole token: neither neighbour of
/// the match may be ASCII alphanumeric. After a glued occurrence the search
/// resumes past its end.
pub fn contains_token(hay: &[char], needle: &[char]) -> (r: bool)
    requires
        needle.len() > 0,
    ensures
        r == token_scan(hay@, needle@, 0),
{
    let mut i: usize = 0;
    while i <= hay.len() && needle.len() <= hay.len() - i
        invariant
            needle.len() > 0,
            token_scan(hay@, needle@, 0) == token_scan(hay@, needle@, i as int),
        decreases hay.len() + 1 - i,
    {
        if matches_at(hay, needle, i) {
            let end = i + needle.len();
            let before_ok = i == 0 || !char_is_alnum(hay[i - 1]);
            let after_ok = end >= hay.len() || !char_is_alnum(hay[end]);
            if before_ok && after_ok {
                return true;
            }
            i = end;
        } else {
            i += 1;
        }
    }
    false
}

/// One exec row of the label table.
struct Needle {
    text: Vec<char>,
    token: bool,
    family: DistroFamily,
}

fn needle(text: &str, token: bool, family: DistroFamily) -> (r: Needle)
    ensures
        r.text@ == text@,
        r.token == token,
        r.family == family,
{
    Needle { text: chars_of(text), token, family }
}

fn label_needles() -> (r: Vec<Needle>)
    ensures
        r@.len() == label_table().len(),
        forall|i: int|
            0 <= i < r@.len() ==> (#[trigger] r@[i]).text@ == label_table()[i].0 && r@[i].token
                == label_table()[i].1 && r@[i].family == label_table()[i].2,
{
    let mut r: Vec<Needle> = Vec::new();
    r.push(needle("bazzite", false, DistroFamily::Bazzite));
    r.push(needle("nobara", false, DistroFamily::Nobara));
    r.push(needle("lmde", false, DistroFamily::Lmde));
    r.push(needle("linuxmint", false, DistroFamily::Mint));
    r.push(needle("linux mint", false, DistroFamily::Mint));
    r.push(needle("geckolinux", false, DistroFamily::GeckoLinux));
    r.push(needle("manjaro", false, DistroFamily::Manjaro));
    r.push(needle("endeavour", false, DistroFamily::EndeavourOs));
    r.push(needle("cachyos", false, DistroFamily::CachyOs));
    r.push(needle("cos_", false, DistroFamily::CachyOs));
    r.push(needle("garuda", false, DistroFamily::Garuda));
    r.push(needle("artix", false, DistroFamily::Artix));
    r.push(needle("almalinux", false, DistroFamily::AlmaLinux));
    r.push(needle("rockylinux", false, DistroFamily::Rocky));
    r.push(needle("rocky", true, DistroFamily::Rocky));
    r.push(needle("centos", false, DistroFamily::CentOs));
    r.push(needle("alpine", false, DistroFamily::Alpine));
    r.push(needle("kali", false, DistroFamily::Kali));
    r.push(needle("tails", true, DistroFamily::Tails));
    r.push(needle("pop_os", false, DistroFamily::PopOs));
    r.push(needle("pop-os", false, DistroFamily::PopOs));
    r.push(needle("zorin", false, DistroFamily::Zorin));
    r.push(needle("elementary", false, DistroFamily::Elementary));
    r.push(needle("kde neon", false, DistroFamily::KdeNeon));
    r.push(needle("neon-", false, DistroFamily::KdeNeon));
    r.push(needle("linux lite", false, DistroFamily::LinuxLite));
    r.push(needle("linuxlite", false, DistroFamily::LinuxLite));
    r.push(needle("puppy", false, DistroFamily::Puppy));
    r.push(needle("fossapup", false, DistroFamily::Puppy));
    r.push(needle("bookwormpup", false, DistroFamily::Puppy));
    r.push(needle("ubuntu", false, DistroFamily::Ubuntu));
    r.push(needle("kubuntu", false, DistroFamily::Ubuntu));
    r.push(needle("xubuntu", false, DistroFamily::Ubuntu));
    r.push(needle("lubuntu", false, DistroFamily::Ubuntu));
    r.push(needle("debian", false, DistroFamily::Debian));
    r.push(needle("fedora", false, DistroFamily::Fedora));
    r.push(needle("fed_", false, DistroFamily::Fedora));
    r.push(needle("opensuse", false, DistroFamily::OpenSuse));
    r.push(needle("suse-", false, DistroFamily::OpenSuse));
    r.push(needle("archlinux", false, DistroFamily::Arch));
    r.push(needle("arch_", false, DistroFamily::Arch));
    r.push(needle("arch-", false, DistroFamily::Arch));
    r
}

fn label_family(label_low: &[char]) -> (r: Option<DistroFamily>)
    ensures
        r == first_label_hit(label_low@, label_table(), 0),
{
    let table = label_needles();
    let mut i: usize = 0;
    while i < table.len()
        invariant
            i <= table@.len(),
            table@.len() == label_table().len(),
            forall|k: int|
                0 <= k < table@.len() ==> (#[trigger] table@[k]).text@ == label_table()[k].0
                    && table@[k].token == label_table()[k].1 && table@[k].family
                    == label_table()[k].2,
            first_label_hit(label_low@, label_table(), 0) == first_label_hit(
                label_low@,
                label_table(),
                i as int,
            ),
        decreases table.len() - i,
    {
        let row = &table[i];
        let hit = if row.token {
            if row.text.len() > 0 {
                contains_token(label_low, &row.text)
            } else {
                false
            }
        } else {
            contains(label_low, &row.text)
        };
        proof {
            if row.token && row.text.len() == 0 {
                assert(!token_scan(label_low@, row.text@, 0));
            }
        }
        if hit {
            return Some(row.family);
        }
        i += 1;
    }
    None
}

impl DistroFamily {
    /// Recognise the distribution from the ISO's volume label plus the names
    /// of files and directories at its root, most-specific-first.
    pub fn detect(label: &str, root_entries: &[RootEntry]) -> (r: DistroFamily)
        ensures
            r == detect_spec(label@, root_entries@),
    {
        let label_chars = chars_of(label);
        let label_low = lowercase(&label_chars);
        if any_dir_named(root_entries, "slax") || any_dir_prefixed(root_entries, "slax-") {
            return DistroFamily::Slax;
        }
        if any_dir_prefixed(root_entries, "knoppix") || any_dir_named(root_entries, "knoppix") {
            return DistroFamily::Knoppix;
        }
        if any_dir_named_ci(root_entries, "antix") {
            return DistroFamily::Antix;
        }
        if any_puppy_sfs(root_entries) {
            return DistroFamily::Puppy;
        }
        if let Some(f) = label_family(&label_low) {
            return f;
        }
        if any_dir_named_ci(root_entries, "liveos") {
            return DistroFamily::Fedora;
        }
        if any_dir_named(root_entries, "casper") {
            return DistroFamily::Ubuntu;
        }
        if any_dir_named(root_entries, "live") {
            return DistroFamily::Debian;
        }
        if any_dir_named(root_entries, "arch") {
            return DistroFamily::Arch;
        }
        DistroFamily::Unknown
    }

    /// The human-readable name of each family.
    pub open spec fn display_spec(self) -> Seq<char> {
        match self {
            DistroFamily::Unknown => "Unknown"@,
            DistroFamily::Ubuntu => "Ubuntu"@,
            DistroFamily::Mint => "Linux Mint"@,
            DistroFamily::Lmde => "LMDE"@,
            DistroFamily::Debian => "Debian"@,
            DistroFamily::Fedora => "Fedora"@,
            DistroFamily::Bazzite => "Bazzite"@,
            DistroFamily::Nobara => "Nobara"@,
            DistroFamily::AlmaLinux => "AlmaLinux"@,
            DistroFamily::Rocky => "Rocky Linux"@,
            DistroFamily::CentOs => "CentOS Stream"@,
            DistroFamily::OpenSuse => "openSUSE"@,
            DistroFamily::GeckoLinux => "GeckoLinux"@,
            DistroFamily::Arch => "Arch Linux"@,
            DistroFamily::Manjaro => "Manjaro"@,
            DistroFamily::EndeavourOs => "EndeavourOS"@,
            DistroFamily::CachyOs => "CachyOS"@,
            DistroFamily::Alpine => "Alpine Linux"@,
            DistroFamily::Slax => "Slax"@,
            DistroFamily::Knoppix => "Knoppix"@,
            DistroFamily::Kali => "Kali Linux"@,
            DistroFamily::PopOs => "Pop!_OS"@,
            DistroFamily::Zorin => "Zorin OS"@,
            DistroFamily::Elementary => "elementary OS"@,
            DistroFamily::KdeNeon => "KDE neon"@,
            DistroFamily::LinuxLite => "Linux Lite"@,
            DistroFamily::Garuda => "Garuda Linux"@,
            DistroFamily::Artix => "Artix Linux"@,
            DistroFamily::Tails => "Tails"@,
            DistroFamily::Puppy => "Puppy Linux"@,
            DistroFamily::Antix => "antiX / MX Linux"@,
        }
    }

    /// Human-readable name, used by the UI hint that names the selected scheme.
    pub fn display(self) -> (r: &'static str)
        ensures
            r@ == self.display_spec(),
    {
        match self {
            DistroFamily::Unknown => "Unknown",
            DistroFamily::Ubuntu => "Ubuntu",
            DistroFamily::Mint => "Linux Mint",
            DistroFamily::Lmde => "LMDE",
            DistroFamily::Debian => "Debian",
            DistroFamily::Fedora => "Fedora",
            DistroFamily::Bazzite => "Bazzite",
            DistroFamily::Nobara => "Nobara",
            DistroFamily::AlmaLinux => "AlmaLinux",
            DistroFamily::Rocky => "Rocky Linux",
            DistroFamily::CentOs => "CentOS Stream",
            DistroFamily::OpenSuse => "openSUSE",
            DistroFamily::GeckoLinux => "GeckoLinux",
            DistroFamily::Arch => "Arch Linux",
            DistroFamily::Manjaro => "Manjaro",
            DistroFamily::EndeavourOs => "EndeavourOS",
            DistroFamily::CachyOs => "CachyOS",
            DistroFamily::Alpine => "Alpine Linux",
            DistroFamily::Slax => "Slax",
            DistroFamily::Knoppix => "Knoppix",
            DistroFamily::Kali => "Kali Linux",
            DistroFamily::PopOs => "Pop!_OS",
            DistroFamily::Zorin => "Zorin OS",
            DistroFamily::Elementary => "elementary OS",
            DistroFamily::KdeNeon => "KDE neon",
            DistroFamily::LinuxLite => "Linux Lite",
            DistroFamily::Garuda => "Garuda Linux",
            DistroFamily::Artix => "Artix Linux",
            DistroFamily::Tails => "Tails",
            DistroFamily::Puppy => "Puppy Linux",
            DistroFamily::Antix => "antiX / MX Linux",
        }
    }

    /// The persistence scheme of each family.
    pub open spec fn persistence_spec(self) -> Option<PersistenceKind> {
        match self {
            DistroFamily::Ubuntu | DistroFamily::Mint | DistroFamily::PopOs | DistroFamily::Zorin
            | DistroFamily::Elementary | DistroFamily::KdeNeon | DistroFamily::LinuxLite => Some(
                PersistenceKind::CasperRw,
            ),
            DistroFamily::Debian | DistroFamily::Lmde | DistroFamily::Kali => Some(
                PersistenceKind::DebianLive,
            ),
            DistroFamily::Fedora | DistroFamily::Bazzite | DistroFamily::Nobara => Some(
                PersistenceKind::FedoraOverlayFs,
            ),
            DistroFamily::AlmaLinux | DistroFamily::Rocky | DistroFamily::CentOs => Some(
                PersistenceKind::FedoraOverlay,
            ),
            DistroFamily::OpenSuse | DistroFamily::GeckoLinux => Some(PersistenceKind::OpenSuseCow),
            DistroFamily::Arch | DistroFamily::Manjaro | DistroFamily::EndeavourOs
            | DistroFamily::CachyOs | DistroFamily::Garuda | DistroFamily::Artix => Some(
                PersistenceKind::ArchOverlay,
            ),
            DistroFamily::Slax => Some(PersistenceKind::SlaxChanges),
            DistroFamily::Alpine => Some(PersistenceKind::AlpineLbu),
            DistroFamily::Knoppix => Some(PersistenceKind::KnoppixData),
            DistroFamily::Tails | DistroFamily::Puppy | DistroFamily::Antix => None,
            DistroFamily::Unknown => None,
        }
    }

    /// The persistence scheme this family uses, if any.
    pub fn persistence(self) -> (r: Option<PersistenceKind>)
        ensures
            r == self.persistence_spec(),
    {
        match self {
            DistroFamily::Ubuntu | DistroFamily::Mint | DistroFamily::PopOs | DistroFamily::Zorin
            | DistroFamily::Elementary | DistroFamily::KdeNeon | DistroFamily::LinuxLite => Some(
                PersistenceKind::CasperRw,
            ),
            DistroFamily::Debian | DistroFamily::Lmde | DistroFamily::Kali => Some(
                PersistenceKind::DebianLive,
            ),
            DistroFamily::Fedora | DistroFamily::Bazzite | DistroFamily::Nobara => Some(
                PersistenceKind::FedoraOverlayFs,
            ),
            DistroFamily::AlmaLinux | DistroFamily::Rocky | DistroFamily::CentOs => Some(
                PersistenceKind::FedoraOverlay,
            ),
            DistroFamily::OpenSuse | DistroFamily::GeckoLinux => Some(PersistenceKind::OpenSuseCow),
            DistroFamily::Arch | DistroFamily::Manjaro | DistroFamily::EndeavourOs
            | DistroFamily::CachyOs | DistroFamily::Garuda | DistroFamily::Artix => Some(
                PersistenceKind::ArchOverlay,
            ),
            DistroFamily::Slax => Some(PersistenceKind::SlaxChanges),
            DistroFamily::Alpine => Some(PersistenceKind::AlpineLbu),
            DistroFamily::Knoppix => Some(PersistenceKind::KnoppixData),
            DistroFamily::Tails | DistroFamily::Puppy | DistroFamily::Antix => None,
            DistroFamily::Unknown => None,
        }
    }

    /// The note key of the families that manage persistence themselves.
    pub open spec fn persistence_note_key_spec(self) -> Option<Seq<char>> {
        match self {
            DistroFamily::Tails => Some("tails"@),
            DistroFamily::Puppy => Some("puppy"@),
            DistroFamily::Antix => Some("antix"@),
            _ => None,
        }
    }

    /// A stable key naming the "why is there no persistence slider" note.
    pub fn persistence_note_key(self) -> (r: Option<&'static str>)
        ensures
            r matches Some(k) ==> self.persistence_note_key_spec() == Some(k@),
            r is None ==> self.persistence_note_key_spec() is None,
    {
        match self {
            DistroFamily::Tails => Some("tails"),
            DistroFamily::Puppy => Some("puppy"),
            DistroFamily::Antix => Some("antix"),
            _ => None,
        }
    }
}

/// The kind of operating system an ISO contains.
#[derive(Clone, Copy, Debug, PartialEq, Eq, Structural)]
pub enum OsKind {
    /// A Windows installation ISO.
    Windows,
    /// A Linux ISO (isolinux or GRUB present).
    Linux,
    /// A BSD ISO.
    Bsd,
    /// Something else, still writable with the DD method.
    Other,
}

/// A summary of everything the planner needs to know about an ISO.
#[derive(Clone, Debug, PartialEq, Eq)]
pub struct IsoReport {
    pub os_kind: OsKind,
    pub is_isohybrid: bool,
    pub has_install_wim: bool,
    pub install_wim_size: Option<u64>,
    pub install_wim_is_esd: bool,
    pub has_bootmgr: bool,
    pub has_setup_exe: bool,
    pub has_efi_boot_dir: bool,
    pub has_isolinux: bool,
    pub has_grub: bool,
    pub has_4gb_file: bool,
    pub label: String,
    pub total_size: u64,
    pub persistence: Option<PersistenceKind>,
    pub distro: DistroFamily,
    pub revocation_warnings: Vec<String>,
    pub persistence_note_key: String,
}

/// The UI name of each OS kind.
pub open spec fn os_name(k: OsKind) -> Seq<char> {
    match k {
        OsKind::Windows => "Windows"@,
        OsKind::Linux => "Linux"@,
        OsKind::Bsd => "BSD"@,
        OsKind::Other => "Generic image"@,
    }
}

impl IsoReport {
    /// A minimal report for an ISO that could not be analyzed.
    pub fn unknown(total_size: u64) -> (r: Self)
        ensures
            r.os_kind == OsKind::Other,
            !r.is_isohybrid && !r.has_install_wim && r.install_wim_size is None,
            !r.install_wim_is_esd && !r.has_bootmgr && !r.has_setup_exe,
            !r.has_efi_boot_dir && !r.has_isolinux && !r.has_grub && !r.has_4gb_file,
            r.label@ == Seq::<char>::empty(),
            r.total_size == total_size,
            r.persistence is None,
            r.distro == DistroFamily::Unknown,
            r.revocation_warnings@.len() == 0,
            r.persistence_note_key@ == Seq::<char>::empty(),
    {
        IsoReport {
            os_kind: OsKind::Other,
            is_isohybrid: false,
            has_install_wim: false,
            install_wim_size: None,
            install_wim_is_esd: false,
            has_bootmgr: false,
            has_setup_exe: false,
            has_efi_boot_dir: false,
            has_isolinux: false,
            has_grub: false,
            has_4gb_file: false,
            label: String::new(),
            total_size,
            persistence: None,
            distro: DistroFamily::Unknown,
            revocation_warnings: Vec::new(),
            persistence_note_key: String::new(),
        }
    }

    /// The summary line: OS name, a middle dot, and the formatted size.
    pub open spec fn summary_spec(&self) -> Seq<char> {
        os_name(self.os_kind) + " · "@ + crate::device::format_size_spec(self.total_size as nat)
    }

    /// A short human-readable summary line for the UI.
    pub fn summary(&self) -> (r: String)
        ensures
            r@ == self.summary_spec(),
    {
        let os = match self.os_kind {
            OsKind::Windows => "Windows",
            OsKind::Linux => "Linux",
            OsKind::Bsd => "BSD",
            OsKind::Other => "Generic image",
        };
        let mut out = chars_of(os);
        append_str(&mut out, " · ");
        let size = crate::device::format_size_chars(self.total_size);
        append_chars(&mut out, &size);
        string_from_chars(&out)
    }
}

} // verus!
