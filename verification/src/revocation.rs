//! UEFI Secure Boot revocation data: SBAT generation levels and DBX hashes.
//!
//! * **SBAT**: every signed binary embeds a `.sbat` CSV section listing the
//!   product name and a generation number. Firmware rejects anything whose
//!   generation is lower than the level stored for its product.
//! * **DBX**: a list of forbidden Authenticode hashes; matching binaries are
//!   refused outright.
//!
//! A baked-in fallback keeps the warnings working offline; the formats are
//! parsed with primitive operations only.
use crate::text::{
    parse_u32_chars, parse_u32_spec, append_chars, append_str, chars_eq, chars_of, decimal, decimal_chars, find_from, first_occ, is_digit,
    is_prefix, lemma_first_occ, lines_acc, occurs_at, text_lines, slice_chars, starts_with, string_from_chars, trim,
    trim_chars, utf8_to_string,
};
use crate::bytes::{copy_bytes, le_u16, le_u32, read_le_u16, read_le_u32};
use vstd::prelude::*;
use vstd::slice::slice_subrange;
use vstd::utf8::{decode_utf8, valid_utf8};

verus! {

/// Required minimum generation numbers, keyed by SBAT product name.
///
/// A binary whose product generation is *lower* than its product's level
/// here would be refused by SBAT-aware firmware.
#[derive(Debug, Clone)]
pub struct SbatLevel {
    /// `(product, minimum generation)` pairs; a well-formed level lists each
    /// product once.
    pub products: Vec<(String, u32)>,
}

/// The level recorded for `name`: the first pair naming it.
pub open spec fn lookup_level(ps: Seq<(String, u32)>, name: Seq<char>) -> Option<u32>
    decreases ps.len(),
{
    if ps.len() == 0 {
        None
    } else if ps[0].0@ == name {
        Some(ps[0].1)
    } else {
        lookup_level(ps.drop_first(), name)
    }
}

/// No product name occurs twice.
pub open spec fn distinct_products(ps: Seq<(String, u32)>) -> bool {
    forall|i: int, j: int| 0 <= i < j < ps.len() ==> ps[i].0@ != ps[j].0@
}

impl SbatLevel {
    /// Each product is listed once, as in a map.
    pub open spec fn wf(&self) -> bool {
        distinct_products(self.products@)
    }

    /// The required generation for product `name`, if any.
    pub open spec fn level_of(&self, name: Seq<char>) -> Option<u32> {
        lookup_level(self.products@, name)
    }

    /// The required generation for product `name`, if one is recorded.
    pub fn get(&self, name: &String) -> (r: Option<u32>)
        ensures
            r == self.level_of(name@),
    {
        let ghost ps = self.products@;
        assert(ps.subrange(0, ps.len() as int) =~= ps);
        let mut i: usize = 0;
        while i < self.products.len()
            invariant
                i <= ps.len(),
                ps == self.products@,
                lookup_level(ps, name@) == lookup_level(ps.subrange(i as int, ps.len() as int), name@),
            decreases ps.len() - i,
        {
            if self.products[i].0 == *name {
                return Some(self.products[i].1);
            }
            assert(ps.subrange(i as int, ps.len() as int).drop_first() =~= ps.subrange(
                i + 1,
                ps.len() as int,
            ));
            i = i + 1;
        }
        None
    }
}

impl Default for SbatLevel {
    fn default() -> (r: Self)
        ensures
            r.products@.len() == 0,
    {
        SbatLevel { products: Vec::new() }
    }
}

/// Set of forbidden Authenticode SHA-256 hashes (each 32 raw bytes).
///
/// A well-formed set holds each hash once.
#[derive(Debug, Clone)]
pub struct DbxHashes(pub Vec<[u8; 32]>);

impl DbxHashes {
    /// The hashes held, by their bytes.
    pub open spec fn hashes(&self) -> Set<Seq<u8>> {
        Set::new(|x: Seq<u8>| exists|i: int| 0 <= i < self.0@.len() && self.0@[i]@ == x)
    }

    /// No hash is held twice.
    pub open spec fn wf(&self) -> bool {
        forall|i: int, j: int| 0 <= i < j < self.0@.len() ==> self.0@[i]@ != self.0@[j]@
    }

    /// An empty set.
    pub fn new() -> (r: Self)
        ensures
            r.0@.len() == 0,
            r.wf(),
            r.hashes() == Set::<Seq<u8>>::empty(),
    {
        let r = DbxHashes(Vec::new());
        assert(r.hashes() =~= Set::<Seq<u8>>::empty());
        r
    }

    /// Number of hashes held.
    pub fn len(&self) -> (r: usize)
        ensures
            r == self.0@.len(),
    {
        self.0.len()
    }

    /// Whether no hash is held.
    pub fn is_empty(&self) -> (r: bool)
        ensures
            r == (self.0@.len() == 0),
            r == (self.hashes() == Set::<Seq<u8>>::empty()),
    {
        if self.0.len() > 0 {
            assert(self.hashes().contains(self.0@[0]@));
        } else {
            assert(self.hashes() =~= Set::<Seq<u8>>::empty());
        }
        self.0.len() == 0
    }

    /// Whether `h` is one of the hashes.
    pub fn contains(&self, h: &[u8; 32]) -> (r: bool)
        ensures
            r == self.hashes().contains(h@),
    {
        let mut i: usize = 0;
        while i < self.0.len()
            invariant
                i <= self.0@.len(),
                forall|j: int| 0 <= j < i ==> self.0@[j]@ != h@,
            decreases self.0@.len() - i,
        {
            if same_hash(&self.0[i], h) {
                return true;
            }
            i = i + 1;
        }
        false
    }

    /// Adds `h`; returns whether it was not yet held.
    pub fn insert(&mut self, h: [u8; 32]) -> (r: bool)
        ensures
            final(self).hashes() == old(self).hashes().insert(h@),
            r == !old(self).hashes().contains(h@),
            old(self).wf() ==> final(self).wf(),
            final(self).0@.len() == old(self).0@.len() + if r { 1int } else { 0int },
    {
        if self.contains(&h) {
            return false;
        }
        let ghost before = self.0@;
        self.0.push(h);
        proof {
            assert forall|x: Seq<u8>| #[trigger]
                self.hashes().contains(x) == old(self).hashes().insert(h@).contains(x) by {
                if x == h@ {
                    assert(self.0@[before.len() as int]@ == x);
                }
                if old(self).hashes().contains(x) {
                    let i = choose|i: int| 0 <= i < before.len() && before[i]@ == x;
                    assert(self.0@[i]@ == x);
                }
                if self.hashes().contains(x) {
                    let i = choose|i: int| 0 <= i < self.0@.len() && self.0@[i]@ == x;
                    if i < before.len() {
                        assert(before[i]@ == x);
                    }
                }
            }
            assert(self.hashes() =~= old(self).hashes().insert(h@));
            if old(self).wf() {
                assert forall|i: int, j: int| 0 <= i < j < self.0@.len() implies self.0@[i]@
                    != self.0@[j]@ by {
                    if j == before.len() {
                        assert(old(self).hashes().contains(self.0@[i]@));
                    }
                }
            }
        }
        true
    }
}

impl Default for DbxHashes {
    fn default() -> (r: Self)
        ensures
            r.0@.len() == 0,
    {
        DbxHashes(Vec::new())
    }
}

/// Byte-for-byte equality of two hashes.
fn same_hash(a: &[u8; 32], b: &[u8; 32]) -> (r: bool)
    ensures
        r == (a@ == b@),
{
    let mut i: usize = 0;
    while i < 32
        invariant
            i <= 32,
            a@.len() == 32,
            b@.len() == 32,
            forall|j: int| 0 <= j < i ==> a@[j] == b@[j],
        decreases 32 - i,
    {
        if a[i] != b[i] {
            return false;
        }
        i = i + 1;
    }
    assert(a@ =~= b@);
    true
}

/// Combined revocation database used to flag binaries in an ISO.
#[derive(Debug, Clone)]
pub struct RevocationDb {
    pub sbat: SbatLevel,
    pub dbx: DbxHashes,
}

impl Default for RevocationDb {
    fn default() -> (r: Self)
        ensures
            r.sbat.products@.len() == 0,
            r.dbx.0@.len() == 0,
    {
        RevocationDb { sbat: SbatLevel::default(), dbx: DbxHashes::default() }
    }
}

/// The built-in minimum SBAT generations, in the order they are listed.
pub open spec fn baked_in_levels() -> Seq<(Seq<char>, u32)> {
    seq![
        ("shim"@, 4u32),
        ("grub"@, 4u32),
        ("linux"@, 1u32),
        ("grub.debian"@, 4u32),
        ("grub.ubuntu"@, 4u32),
        ("grub.fedora"@, 4u32),
        ("grub.opensuse"@, 4u32),
        ("grub.suse"@, 4u32),
    ]
}

impl RevocationDb {
    /// Built-in baseline: the publicly documented minimum SBAT generation
    /// levels, and no DBX hashes.
    pub fn baked_in() -> (r: Self)
        ensures
            r.sbat.products@.len() == baked_in_levels().len(),
            forall|i: int|
                0 <= i < baked_in_levels().len() ==> (#[trigger] r.sbat.products@[i]).0@
                    == baked_in_levels()[i].0 && r.sbat.products@[i].1 == baked_in_levels()[i].1,
            r.sbat.wf(),
            r.dbx.0@.len() == 0,
            r.dbx.wf(),
    {
        let mut products: Vec<(String, u32)> = Vec::new();
        products.push(("shim".to_owned(), 4));
        products.push(("grub".to_owned(), 4));
        products.push(("linux".to_owned(), 1));
        products.push(("grub.debian".to_owned(), 4));
        products.push(("grub.ubuntu".to_owned(), 4));
        products.push(("grub.fedora".to_owned(), 4));
        products.push(("grub.opensuse".to_owned(), 4));
        products.push(("grub.suse".to_owned(), 4));
        proof {
            reveal_strlit("shim");
            reveal_strlit("grub");
            reveal_strlit("linux");
            reveal_strlit("grub.debian");
            reveal_strlit("grub.ubuntu");
            reveal_strlit("grub.fedora");
            reveal_strlit("grub.opensuse");
            reveal_strlit("grub.suse");
            let ps = products@;
            assert forall|i: int, j: int| 0 <= i < j < ps.len() implies ps[i].0@ != ps[j].0@ by {
                if ps[i].0@.len() == ps[j].0@.len() {
                    if ps[i].0@.len() == 4 {
                        assert(ps[i].0@[0] != ps[j].0@[0]);
                    } else {
                        assert(ps[i].0@[5] != ps[j].0@[5]);
                    }
                }
            }
        }
        RevocationDb { sbat: SbatLevel { products }, dbx: DbxHashes::new() }
    }

    /// Merge an extra set of SHA-256 hashes into `self.dbx`, leaving the
    /// SBAT levels as they are.
    pub fn extend_dbx(&mut self, extra: DbxHashes)
        ensures
            final(self).dbx.hashes() == old(self).dbx.hashes().union(extra.hashes()),
            final(self).sbat == old(self).sbat,
            old(self).dbx.wf() ==> final(self).dbx.wf(),
    {
        let ghost h0 = self.dbx.hashes();
        let mut i: usize = 0;
        while i < extra.0.len()
            invariant
                i <= extra.0@.len(),
                self.sbat == old(self).sbat,
                self.dbx.hashes() == h0.union(
                    Set::new(|x: Seq<u8>| exists|j: int| 0 <= j < i && extra.0@[j]@ == x),
                ),
                h0 == old(self).dbx.hashes(),
                old(self).dbx.wf() ==> self.dbx.wf(),
            decreases extra.0@.len() - i,
        {
            let ghost before = self.dbx.hashes();
            self.dbx.insert(extra.0[i]);
            proof {
                let s_old = Set::new(|x: Seq<u8>| exists|j: int| 0 <= j < i && extra.0@[j]@ == x);
                let s_new = Set::new(
                    |x: Seq<u8>| exists|j: int| 0 <= j < i + 1 && extra.0@[j]@ == x,
                );
                assert forall|x: Seq<u8>| #[trigger] s_new.contains(x) == s_old.insert(
                    extra.0@[i as int]@,
                ).contains(x) by {
                    if s_new.contains(x) {
                        let j = choose|j: int| 0 <= j < i + 1 && extra.0@[j]@ == x;
                        if j < i {
                            assert(s_old.contains(x));
                        }
                    }
                    if s_old.contains(x) {
                        let j = choose|j: int| 0 <= j < i && extra.0@[j]@ == x;
                        assert(s_new.contains(x));
                    }
                }
                assert(s_new =~= s_old.insert(extra.0@[i as int]@));
                assert(self.dbx.hashes() =~= h0.union(s_new));
            }
            i = i + 1;
        }
        assert(Set::new(|x: Seq<u8>| exists|j: int| 0 <= j < extra.0@.len() && extra.0@[j]@ == x)
            =~= extra.hashes());
    }
}

/// One entry parsed out of a `.sbat` section's CSV body.
#[derive(Debug, Clone, PartialEq, Eq)]
pub struct SbatEntry {
    pub component: String,
    pub generation: u32,
}

/// The characters of a sequence of strings.
pub open spec fn strings_view(v: Seq<String>) -> Seq<Seq<char>> {
    Seq::new(v.len(), |i: int| v[i]@)
}

/// The warning for a component whose generation `gen` is below `min`.
pub open spec fn sbat_warning(component: Seq<char>, gen: u32, min: u32) -> Seq<char> {
    component + " SBAT generation "@ + decimal(gen as nat) + " is below the required "@
        + decimal(min as nat)
        + "; firmware with current revocations will refuse to boot it"@
}

/// The warnings for `entries`, in order: one per entry whose product has a
/// recorded level above the entry's generation.
pub open spec fn sbat_warnings(entries: Seq<SbatEntry>, ps: Seq<(String, u32)>) -> Seq<Seq<char>>
    decreases entries.len(),
{
    if entries.len() == 0 {
        seq![]
    } else {
        let prev = sbat_warnings(entries.drop_last(), ps);
        let e = entries.last();
        match lookup_level(ps, e.component@) {
            Some(min) => if e.generation < min {
                prev.push(sbat_warning(e.component@, e.generation, min))
            } else {
                prev
            },
            None => prev,
        }
    }
}

/// Return human-readable warnings for any SBAT entry whose generation is
/// below the required minimum recorded in `db`.
pub fn evaluate_sbat(entries: &[SbatEntry], db: &SbatLevel) -> (r: Vec<String>)
    ensures
        strings_view(r@) == sbat_warnings(entries@, db.products@),
{
    let mut warnings: Vec<String> = Vec::new();
    let mut i: usize = 0;
    while i < entries.len()
        invariant
            i <= entries@.len(),
            strings_view(warnings@) == sbat_warnings(entries@.take(i as int), db.products@),
        decreases entries@.len() - i,
    {
        let entry = &entries[i];
        assert(entries@.take(i + 1).drop_last() =~= entries@.take(i as int));
        match db.get(&entry.component) {
            Some(min) => {
                if entry.generation < min {
                    let mut m = chars_of(entry.component.as_str());
                    append_str(&mut m, " SBAT generation ");
                    let g = decimal_chars(entry.generation as u64);
                    append_chars(&mut m, &g);
                    append_str(&mut m, " is below the required ");
                    let n = decimal_chars(min as u64);
                    append_chars(&mut m, &n);
                    append_str(
                        &mut m,
                        "; firmware with current revocations will refuse to boot it",
                    );
                    let w = string_from_chars(&m);
                    warnings.push(w);
                    assert(strings_view(warnings@) =~= sbat_warnings(
                        entries@.take(i as int),
                        db.products@,
                    ).push(w@));
                }
            },
            None => {},
        }
        i = i + 1;
    }
    assert(entries@.take(entries@.len() as int) =~= entries@);
    warnings
}

/// A line that is neither blank nor a `#` comment.
pub open spec fn content_line(raw: Seq<char>) -> bool {
    trim(raw).len() > 0 && trim(raw)[0] != '#'
}

/// Some line holds content.
pub open spec fn any_content(lines: Seq<Seq<char>>) -> bool
    decreases lines.len(),
{
    if lines.len() == 0 {
        false
    } else {
        any_content(lines.drop_last()) || content_line(lines.last())
    }
}

/// The entry a line of a `.sbat` section holds, if any: blank lines and `#`
/// comments hold none, nor does the meta header `sbat,...` when it is the
/// first content line (`first`); else the trimmed first column names the
/// component and the trimmed second column must parse as its generation.
pub open spec fn sbat_row(first: bool, raw: Seq<char>) -> Option<(Seq<char>, u32)> {
    let line = trim(raw);
    if line.len() == 0 || line[0] == '#' {
        None
    } else if first && is_prefix("sbat,"@, line) {
        None
    } else {
        match first_occ(line, seq![','], 0) {
            None => None,
            Some(c1) => {
                let rest = line.subrange(c1 + 1, line.len() as int);
                let col2 = match first_occ(rest, seq![','], 0) {
                    Some(c2) => rest.subrange(0, c2),
                    None => rest,
                };
                match parse_u32_spec(trim(col2)) {
                    None => None,
                    Some(g) => Some((trim(line.subrange(0, c1)), g)),
                }
            },
        }
    }
}

/// The entries of the given lines, in order.
pub open spec fn sbat_rows(lines: Seq<Seq<char>>) -> Seq<(Seq<char>, u32)>
    decreases lines.len(),
{
    if lines.len() == 0 {
        seq![]
    } else {
        let prev = sbat_rows(lines.drop_last());
        match sbat_row(!any_content(lines.drop_last()), lines.last()) {
            Some(e) => prev.push(e),
            None => prev,
        }
    }
}

/// The `(component, generation)` pairs of parsed entries.
pub open spec fn entries_view(v: Seq<SbatEntry>) -> Seq<(Seq<char>, u32)> {
    Seq::new(v.len(), |i: int| (v[i].component@, v[i].generation))
}

/// Whether a line is neither blank nor a comment.
fn is_content_line(raw: &[char]) -> (r: bool)
    ensures
        r == content_line(raw@),
{
    let line = trim_chars(raw);
    line.len() > 0 && line[0] != '#'
}

/// The entry a line holds, when it holds one (`first`: no content line
/// came before it).
fn sbat_row_exec(first: bool, raw: &[char]) -> (r: Option<SbatEntry>)
    ensures
        match sbat_row(first, raw@) {
            Some(e) => r matches Some(x) && x.component@ == e.0 && x.generation == e.1,
            None => r is None,
        },
{
    let line = trim_chars(raw);
    if line.len() == 0 || line[0] == '#' {
        return None;
    }
    if first {
        let header = chars_of("sbat,");
        if starts_with(&line, &header) {
            return None;
        }
    }
    let comma = [','];
    assert(comma@ =~= seq![',']);
    let c1 = match find_from(&line, &comma, 0) {
        None => {
            return None;
        },
        Some(c) => c,
    };
    proof {
        lemma_first_occ(line@, seq![','], 0);
    }
    let rest = slice_chars(&line, c1 + 1, line.len());
    let col2 = match find_from(&rest, &comma, 0) {
        Some(c2) => {
            proof {
                lemma_first_occ(rest@, seq![','], 0);
            }
            slice_chars(&rest, 0, c2)
        },
        None => rest,
    };
    let col2t = trim_chars(&col2);
    match parse_u32_chars(&col2t) {
        None => None,
        Some(g) => {
            let first = slice_chars(&line, 0, c1);
            let comp = trim_chars(&first);
            Some(SbatEntry { component: string_from_chars(&comp), generation: g })
        },
    }
}

/// Parse the textual `.sbat` section embedded in a signed EFI binary.
///
/// The section is a CSV: one header row (the SBAT meta, the first line that
/// is not blank or a comment), then one row per product. Each row's first
/// column is the component name, the second is the generation number.
/// Anything past the second column is ignored. Malformed lines are skipped.
pub fn parse_sbat_section(text: &str) -> (r: Vec<SbatEntry>)
    ensures
        entries_view(r@) == sbat_rows(text_lines(text@)),
{
    let v = chars_of(text);
    let mut out: Vec<SbatEntry> = Vec::new();
    let mut cur: Vec<char> = Vec::new();
    let mut seen: bool = false;
    let mut k: usize = 0;
    while k < v.len()
        invariant
            k <= v@.len(),
            v@ == text@,
            lines_acc(v@.take(k as int)).1 == cur@,
            seen == any_content(lines_acc(v@.take(k as int)).0),
            entries_view(out@) == sbat_rows(lines_acc(v@.take(k as int)).0),
        decreases v@.len() - k,
    {
        assert(v@.take(k + 1).drop_last() =~= v@.take(k as int));
        assert(v@.take(k + 1).last() == v@[k as int]);
        if v[k] == '\n' {
            let ghost done = lines_acc(v@.take(k as int)).0;
            assert(done.push(cur@).drop_last() =~= done);
            match sbat_row_exec(!seen, &cur) {
                Some(e) => {
                    out.push(e);
                    assert(entries_view(out@) =~= sbat_rows(done.push(cur@)));
                },
                None => {},
            }
            if is_content_line(&cur) {
                seen = true;
            }
            cur = Vec::new();
            assert(cur@ =~= seq![]);
        } else {
            cur.push(v[k]);
        }
        k = k + 1;
    }
    assert(v@.take(v@.len() as int) =~= v@);
    if cur.len() > 0 {
        let ghost done = lines_acc(v@).0;
        assert(done.push(cur@).drop_last() =~= done);
        match sbat_row_exec(!seen, &cur) {
            Some(e) => {
                out.push(e);
                assert(entries_view(out@) =~= sbat_rows(done.push(cur@)));
            },
            None => {},
        }
    }
    out
}

/// Index of the first zero byte of `b` at or after `from`, or its length.
pub open spec fn first_zero(b: Seq<u8>, from: int) -> int
    decreases b.len() - from,
{
    if from >= b.len() {
        b.len() as int
    } else if b[from] == 0 {
        from
    } else {
        first_zero(b, from + 1)
    }
}

/// Length of `b` without its trailing zero bytes.
pub open spec fn trimmed_len(b: Seq<u8>) -> int
    decreases b.len(),
{
    if b.len() == 0 {
        0
    } else if b.last() != 0 {
        b.len() as int
    } else {
        trimmed_len(b.drop_last())
    }
}

/// The smaller of two naturals.
pub open spec fn min_nat(a: nat, b: nat) -> nat {
    if a <= b {
        a
    } else {
        b
    }
}

/// Walks section headers `i..n` of the table at `table` looking for `.sbat`.
///
/// A header that runs off the end of the file, or whose NUL-padded name is
/// not UTF-8, ends the search with nothing. The `.sbat` section's bytes are
/// its first `min(VirtualSize, SizeOfRawData)` bytes from
/// `PointerToRawData`, without trailing NULs, decoded as UTF-8.
pub open spec fn sbat_scan(pe: Seq<u8>, table: int, i: int, n: int) -> Option<Seq<char>>
    decreases n - i,
{
    if i >= n {
        None
    } else {
        let off = table + 40 * i;
        if off + 40 > pe.len() {
            None
        } else {
            let name = pe.subrange(off, first_zero(pe.subrange(off, off + 8), 0) + off);
            if !valid_utf8(name) {
                None
            } else if decode_utf8(name) != ".sbat"@ {
                sbat_scan(pe, table, i + 1, n)
            } else {
                let take = min_nat(le_u32(pe, off + 8), le_u32(pe, off + 16)) as int;
                let ptr = le_u32(pe, off + 20) as int;
                if ptr + take > pe.len() {
                    None
                } else {
                    let sec = pe.subrange(ptr, ptr + take);
                    let body = sec.take(trimmed_len(sec));
                    if valid_utf8(body) {
                        Some(decode_utf8(body))
                    } else {
                        None
                    }
                }
            }
        }
    }
}

/// The text of the `.sbat` section of a PE32+ image: `MZ` at 0, the PE
/// header offset at 0x3C, `PE\0\0` there, then the section table after the
/// COFF header and the optional header.
pub open spec fn extract_sbat_spec(pe: Seq<u8>) -> Option<Seq<char>> {
    if pe.len() < 0x40 || pe[0] != 0x4D || pe[1] != 0x5A {
        None
    } else {
        let e = le_u32(pe, 0x3C) as int;
        if pe.len() < e + 24 || pe.subrange(e, e + 4) != seq![0x50u8, 0x45u8, 0u8, 0u8] {
            None
        } else {
            let coff = e + 4;
            sbat_scan(pe, coff + 20 + le_u16(pe, coff + 16), 0, le_u16(pe, coff + 2) as int)
        }
    }
}

/// Index of the first zero byte in `b[from..to]`, or `to`.
fn find_zero(b: &[u8], from: usize, to: usize) -> (r: usize)
    requires
        from <= to <= b@.len(),
    ensures
        r - from == first_zero(b@.subrange(from as int, to as int), 0),
        from <= r <= to,
{
    let ghost w = b@.subrange(from as int, to as int);
    let mut k: usize = from;
    while k < to && b[k] != 0
        invariant
            from <= k <= to <= b@.len(),
            w == b@.subrange(from as int, to as int),
            first_zero(w, 0) == first_zero(w, k - from),
        decreases to - k,
    {
        k = k + 1;
    }
    k
}

/// Length of `b` without its trailing zero bytes.
fn trimmed_length(b: &[u8]) -> (r: usize)
    ensures
        r == trimmed_len(b@),
        r <= b@.len(),
{
    let mut j: usize = b.len();
    assert(b@.take(j as int) =~= b@);
    while j > 0 && b[j - 1] == 0
        invariant
            j <= b@.len(),
            trimmed_len(b@.take(j as int)) == trimmed_len(b@),
        decreases j,
    {
        assert(b@.take(j as int).drop_last() =~= b@.take(j - 1));
        j = j - 1;
    }
    if j > 0 {
        assert(b@.take(j as int).last() != 0);
    }
    j
}

/// Locate and decode the `.sbat` section in a PE32+ binary (a signed EFI
/// loader). Returns `None` when the binary is not a PE, has no `.sbat`
/// section, or the section bounds run off the end of the file.
pub fn extract_sbat(pe: &[u8]) -> (r: Option<String>)
    ensures
        match extract_sbat_spec(pe@) {
            Some(s) => r matches Some(x) && x@ == s,
            None => r is None,
        },
{
    if pe.len() < 0x40 || pe[0] != 0x4D || pe[1] != 0x5A {
        return None;
    }
    let e: u64 = read_le_u32(pe, 0x3C) as u64;
    let len: u64 = pe.len() as u64;
    if len < e + 24 {
        return None;
    }
    let eu = e as usize;
    if pe[eu] != 0x50 || pe[eu + 1] != 0x45 || pe[eu + 2] != 0 || pe[eu + 3] != 0 {
        proof {
            let w = pe@.subrange(e as int, e + 4);
            let m = seq![0x50u8, 0x45u8, 0u8, 0u8];
            assert(w[0] == pe@[eu as int] && w[1] == pe@[eu + 1]);
            assert(w[2] == pe@[eu + 2] && w[3] == pe@[eu + 3]);
            assert(m[0] == 0x50 && m[1] == 0x45 && m[2] == 0 && m[3] == 0);
            assert(w != m);
        }
        return None;
    }
    assert(pe@.subrange(e as int, e + 4) =~= seq![0x50u8, 0x45u8, 0u8, 0u8]);
    let coff = eu + 4;
    let n: u64 = read_le_u16(pe, coff + 2) as u64;
    let table: u64 = coff as u64 + 20 + read_le_u16(pe, coff + 16) as u64;
    let ghost target = extract_sbat_spec(pe@);
    assert(target == sbat_scan(pe@, table as int, 0, n as int));
    let dot_sbat = chars_of(".sbat");
    let mut i: u64 = 0;
    while i < n
        invariant
            i <= n <= 0xFFFF,
            table <= 0x1_0002_0000,
            len == pe@.len(),
            len == pe.len(),
            dot_sbat@ == ".sbat"@,
            target == extract_sbat_spec(pe@),
            target == sbat_scan(pe@, table as int, i as int, n as int),
        decreases n - i,
    {
        let off: u64 = table + 40 * i;
        if off + 40 > len {
            return None;
        }
        let o = off as usize;
        let ne = find_zero(pe, o, o + 8);
        let name_bytes = slice_subrange(pe, o, ne);
        match utf8_to_string(name_bytes) {
            None => {
                return None;
            },
            Some(name) => {
                let name_chars = chars_of(name.as_str());
                if chars_eq(&name_chars, &dot_sbat) {
                    let vs: u64 = read_le_u32(pe, o + 8) as u64;
                    let rs: u64 = read_le_u32(pe, o + 16) as u64;
                    let ptr: u64 = read_le_u32(pe, o + 20) as u64;
                    let take: u64 = if vs <= rs {
                        vs
                    } else {
                        rs
                    };
                    if ptr + take > len {
                        return None;
                    }
                    let sec = slice_subrange(pe, ptr as usize, (ptr + take) as usize);
                    let t = trimmed_length(sec);
                    let body = slice_subrange(sec, 0, t);
                    assert(body@ =~= sec@.take(t as int));
                    return utf8_to_string(body);
                }
            },
        }
        i = i + 1;
    }
    None
}

/// The `SignatureType` GUID of SHA-256 binary hashes in DBX entries
/// (`c1c41626-504c-4092-aca9-41f936934328`), as stored.
pub open spec fn efi_cert_sha256_guid() -> Seq<u8> {
    seq![
        0x26u8, 0x16u8, 0xc4u8, 0xc1u8, 0x4cu8, 0x50u8, 0x92u8, 0x40u8,
        0xacu8, 0xa9u8, 0x41u8, 0xf9u8, 0x36u8, 0x93u8, 0x43u8, 0x28u8,
    ]
}

/// The SHA-256 hashes of a signature-list body of 48-byte entries (a
/// 16-byte owner GUID, then the hash); a partial last entry is ignored.
pub open spec fn sha256_entries(body: Seq<u8>) -> Seq<Seq<u8>> {
    Seq::new(body.len() / 48, |k: int| body.subrange(48 * k + 16, 48 * k + 48))
}

/// The `SignatureListSize` of the record at the start of `cur`.
pub open spec fn list_size(cur: Seq<u8>) -> int {
    le_u32(cur, 16) as int
}

/// The `SignatureHeaderSize` of the record at the start of `cur`.
pub open spec fn list_header_size(cur: Seq<u8>) -> int {
    le_u32(cur, 20) as int
}

/// The `SignatureSize` of the record at the start of `cur`.
pub open spec fn list_sig_size(cur: Seq<u8>) -> int {
    le_u32(cur, 24) as int
}

/// The record at the start of `cur` can be read: its 28-byte header is
/// there, its size covers the header and fits, its signatures are longer
/// than an owner GUID, and its own header fits inside it.
pub open spec fn list_readable(cur: Seq<u8>) -> bool {
    &&& cur.len() >= 28
    &&& 28 <= list_size(cur) <= cur.len()
    &&& list_sig_size(cur) > 16
    &&& 28 + list_header_size(cur) <= list_size(cur)
}

/// The SHA-256 hashes of the (readable) record at the start of `cur`:
/// none unless it holds 48-byte SHA-256 entries.
pub open spec fn list_entries(cur: Seq<u8>) -> Seq<Seq<u8>> {
    if cur.subrange(0, 16) == efi_cert_sha256_guid() && list_sig_size(cur) == 48 {
        sha256_entries(cur.subrange(28 + list_header_size(cur), list_size(cur)))
    } else {
        seq![]
    }
}

/// The SHA-256 hashes of a run of `EFI_SIGNATURE_LIST` records, in order;
/// the walk stops at the first record that cannot be read.
pub open spec fn dbx_lists(cur: Seq<u8>) -> Seq<Seq<u8>>
    decreases cur.len(),
{
    if !list_readable(cur) {
        seq![]
    } else {
        list_entries(cur) + dbx_lists(cur.subrange(list_size(cur), cur.len() as int))
    }
}

/// The SHA-256 hashes of a `dbxupdate_<arch>.bin`: the signature lists that
/// follow the 16-byte timestamp and the `WIN_CERTIFICATE` of `dwLength` bytes.
pub open spec fn dbx_update_hashes(bytes: Seq<u8>) -> Seq<Seq<u8>> {
    if bytes.len() < 20 {
        seq![]
    } else {
        let start = 16 + le_u32(bytes, 16) as int;
        if start > bytes.len() {
            seq![]
        } else {
            dbx_lists(bytes.subrange(start, bytes.len() as int))
        }
    }
}

/// A DBX update holding one SHA-256 signature list gives exactly that
/// list's hashes: after the 16-byte timestamp, a `WIN_CERTIFICATE` of 24
/// bytes, then a list tagged with the SHA-256 GUID, of `28 + 48 * n` bytes,
/// no signature header, 48-byte signatures, each a 16-byte owner then the
/// hash `hs[k]`.
pub proof fn law_dbx_update_yields_its_hashes(bytes: Seq<u8>, hs: Seq<Seq<u8>>)
    requires
        bytes.len() == 68 + 48 * hs.len(),
        28 + 48 * hs.len() <= u32::MAX,
        le_u32(bytes, 16) == 24,
        bytes.subrange(40, 56) == efi_cert_sha256_guid(),
        le_u32(bytes, 56) == 28 + 48 * hs.len(),
        le_u32(bytes, 60) == 0,
        le_u32(bytes, 64) == 48,
        forall|k: int| 0 <= k < hs.len() ==> bytes.subrange(68 + 48 * k + 16, 68 + 48 * k + 48) == #[trigger] hs[k],
    ensures
        dbx_update_hashes(bytes) == hs,
        hash_set(dbx_update_hashes(bytes)) == hash_set(hs),
{
    let n = hs.len() as int;
    let cur = bytes.subrange(40, bytes.len() as int);
    assert(cur[16] == bytes[56] && cur[17] == bytes[57] && cur[18] == bytes[58] && cur[19] == bytes[59]);
    assert(cur[20] == bytes[60] && cur[21] == bytes[61] && cur[22] == bytes[62] && cur[23] == bytes[63]);
    assert(cur[24] == bytes[64] && cur[25] == bytes[65] && cur[26] == bytes[66] && cur[27] == bytes[67]);
    assert(list_size(cur) == 28 + 48 * n);
    assert(list_header_size(cur) == 0);
    assert(list_sig_size(cur) == 48);
    assert(cur.subrange(0, 16) =~= bytes.subrange(40, 56));
    assert(list_readable(cur));
    let body = cur.subrange(28, 28 + 48 * n);
    assert(body.len() == 48 * n);
    assert((48 * n) / 48 == n) by (nonlinear_arith)
        requires n >= 0;
    assert forall|k: int| 0 <= k < n implies #[trigger] sha256_entries(body)[k] == hs[k] by {
        assert(0 <= 48 * k + 48 <= 48 * n) by (nonlinear_arith)
            requires 0 <= k < n;
        assert(sha256_entries(body)[k] =~= bytes.subrange(68 + 48 * k + 16, 68 + 48 * k + 48));
    }
    assert(sha256_entries(body) =~= hs);
    assert(list_entries(cur) == hs);
    let rest = cur.subrange(list_size(cur), cur.len() as int);
    assert(rest.len() == 0);
    assert(dbx_lists(rest) =~= Seq::<Seq<u8>>::empty());
    assert(dbx_lists(cur) =~= hs);
    assert(dbx_update_hashes(bytes) == dbx_lists(cur));
}

/// The elements of a sequence of hashes, as a set.
pub open spec fn hash_set(s: Seq<Seq<u8>>) -> Set<Seq<u8>> {
    Set::new(|x: Seq<u8>| s.contains(x))
}

proof fn lemma_hash_set_push(s: Seq<Seq<u8>>, h: Seq<u8>)
    ensures
        hash_set(s.push(h)) == hash_set(s).insert(h),
{
    assert forall|x: Seq<u8>| #[trigger] hash_set(s.push(h)).contains(x) == hash_set(s).insert(
        h,
    ).contains(x) by {
        if s.contains(x) {
            let i = choose|i: int| 0 <= i < s.len() && s[i] == x;
            assert(s.push(h)[i] == x);
        }
        if x == h {
            assert(s.push(h)[s.len() as int] == x);
        }
        if s.push(h).contains(x) {
            let i = choose|i: int| 0 <= i < s.push(h).len() && s.push(h)[i] == x;
            if i < s.len() {
                assert(s[i] == x);
            }
        }
    }
    assert(hash_set(s.push(h)) =~= hash_set(s).insert(h));
}

/// Whether `b[pos..pos + 16]` is the SHA-256 signature type GUID.
fn is_sha256_type(b: &[u8], pos: usize) -> (r: bool)
    requires
        pos + 16 <= b.len(),
    ensures
        r == (b@.subrange(pos as int, pos + 16) == efi_cert_sha256_guid()),
{
    let guid: [u8; 16] = [
        0x26, 0x16, 0xc4, 0xc1, 0x4c, 0x50, 0x92, 0x40, 0xac, 0xa9, 0x41, 0xf9, 0x36, 0x93, 0x43,
        0x28,
    ];
    assert(guid@ =~= efi_cert_sha256_guid());
    let mut j: usize = 0;
    while j < 16
        invariant
            j <= 16,
            pos + 16 <= b.len(),
            guid@ == efi_cert_sha256_guid(),
            forall|k: int| 0 <= k < j ==> b@[pos + k] == guid@[k],
        decreases 16 - j,
    {
        if b[pos + j] != guid[j] {
            assert(b@.subrange(pos as int, pos + 16)[j as int] != guid@[j as int]);
            return false;
        }
        j = j + 1;
    }
    assert(b@.subrange(pos as int, pos + 16) =~= guid@);
    true
}

/// The 32 bytes at `at`, as a hash.
fn hash_at(b: &[u8], at: usize) -> (h: [u8; 32])
    requires
        at + 32 <= b.len(),
    ensures
        h@ == b@.subrange(at as int, at + 32),
{
    let mut h = [0u8; 32];
    let mut j: usize = 0;
    while j < 32
        invariant
            j <= 32,
            at + 32 <= b.len(),
            h@.len() == 32,
            forall|k: int| 0 <= k < j ==> h@[k] == b@[at + k],
        decreases 32 - j,
    {
        h[j] = b[at + j];
        j = j + 1;
    }
    assert(h@ =~= b@.subrange(at as int, at + 32));
    h
}

/// Adds the hashes of the readable record at `pos` to `out`; returns the
/// offset of the next record, or `None` when the record cannot be read.
fn take_signature_list(bytes: &[u8], pos: usize, out: &mut DbxHashes, Ghost(seen): Ghost<Seq<Seq<u8>>>) -> (r: Option<usize>)
    requires
        pos <= bytes.len(),
        old(out).wf(),
        old(out).hashes() == hash_set(seen),
    ensures
        final(out).wf(),
        match r {
            None => {
                &&& !list_readable(bytes@.subrange(pos as int, bytes@.len() as int))
                &&& final(out).hashes() == hash_set(seen)
            },
            Some(next) => {
                let cur = bytes@.subrange(pos as int, bytes@.len() as int);
                &&& list_readable(cur)
                &&& next == pos + list_size(cur)
                &&& final(out).hashes() == hash_set(seen + list_entries(cur))
            },
        },
{
    let ghost cur = bytes@.subrange(pos as int, bytes@.len() as int);
    if bytes.len() - pos < 28 {
        return None;
    }
    let size: u64 = read_le_u32(bytes, pos + 16) as u64;
    let header_size: u64 = read_le_u32(bytes, pos + 20) as u64;
    let sig_size: u64 = read_le_u32(bytes, pos + 24) as u64;
    assert(list_size(cur) == size && list_header_size(cur) == header_size && list_sig_size(cur)
        == sig_size);
    let avail: u64 = (bytes.len() - pos) as u64;
    if size < 28 || size > avail || sig_size <= 16 || 28 + header_size > size {
        return None;
    }
    let typed = is_sha256_type(bytes, pos);
    assert(cur.subrange(0, 16) =~= bytes@.subrange(pos as int, pos + 16));
    let ghost mut acc = seen;
    if typed && sig_size == 48 {
        let body_start: usize = pos + 28 + header_size as usize;
        let body_end: usize = pos + size as usize;
        let ghost body = cur.subrange(28 + header_size, size as int);
        assert(body =~= bytes@.subrange(body_start as int, body_end as int));
        let count: usize = (body_end - body_start) / 48;
        let mut k: usize = 0;
        while k < count
            invariant
                k <= count,
                count == body.len() / 48,
                body == bytes@.subrange(body_start as int, body_end as int),
                body_start <= body_end <= bytes.len(),
                acc == seen + sha256_entries(body).take(k as int),
                out.hashes() == hash_set(acc),
                out.wf(),
            decreases count - k,
        {
            assert(48 * k + 48 <= body.len()) by (nonlinear_arith)
                requires
                    k < count,
                    count == body.len() / 48,
            ;
            let at: usize = body_start + 48 * k + 16;
            let h = hash_at(bytes, at);
            assert(h@ =~= body.subrange(48 * k + 16, 48 * k + 48));
            out.insert(h);
            proof {
                lemma_hash_set_push(acc, h@);
                assert(sha256_entries(body).take(k + 1) =~= sha256_entries(body).take(
                    k as int,
                ).push(h@));
                acc = acc.push(h@);
            }
            k = k + 1;
        }
        assert(sha256_entries(body).take(k as int) =~= sha256_entries(body));
    } else {
        assert(seen + list_entries(cur) =~= seen);
    }
    Some(pos + size as usize)
}

/// Parse a UEFI Forum `dbxupdate_<arch>.bin` and return every revoked
/// Authenticode SHA-256 hash it lists. The file is a signed
/// `EFI_VARIABLE_AUTHENTICATION_2` envelope wrapping a sequence of
/// `EFI_SIGNATURE_LIST` records; the envelope is skipped and the lists
/// walked. Other signature types are ignored, and malformed input yields
/// what was read before the fault.
pub fn parse_dbxupdate(bytes: &[u8]) -> (r: DbxHashes)
    ensures
        r.wf(),
        r.hashes() == hash_set(dbx_update_hashes(bytes@)),
{
    let mut out = DbxHashes::new();
    assert(hash_set(seq![]) =~= Set::<Seq<u8>>::empty());
    if bytes.len() < 20 {
        return out;
    }
    let start: u64 = 16 + read_le_u32(bytes, 16) as u64;
    if start > bytes.len() as u64 {
        return out;
    }
    let ghost total = dbx_update_hashes(bytes@);
    let ghost mut seen: Seq<Seq<u8>> = seq![];
    let mut pos: usize = start as usize;
    assert(seen + dbx_lists(bytes@.subrange(pos as int, bytes@.len() as int)) =~= total);
    loop
        invariant
            pos <= bytes.len(),
            total == dbx_update_hashes(bytes@),
            seen + dbx_lists(bytes@.subrange(pos as int, bytes@.len() as int)) == total,
            out.hashes() == hash_set(seen),
            out.wf(),
        ensures
            out.hashes() == hash_set(total),
            out.wf(),
        decreases bytes@.len() - pos,
    {
        let ghost cur = bytes@.subrange(pos as int, bytes@.len() as int);
        match take_signature_list(bytes, pos, &mut out, Ghost(seen)) {
            None => {
                assert(seen =~= total);
                break;
            },
            Some(next) => {
                let ghost rest = bytes@.subrange(next as int, bytes@.len() as int);
                assert(cur.subrange(list_size(cur), cur.len() as int) =~= rest);
                assert(seen + dbx_lists(cur) =~= (seen + list_entries(cur)) + dbx_lists(rest));
                proof {
                    seen = seen + list_entries(cur);
                }
                pos = next;
            },
        }
    }
    out
}

} // verus!
