//! Cross-checking an ISO's SHA-1 against the community rg-adguard catalogue:
//! which digests are worth asking about, the query URL, and how the results
//! page is read. The HTTP exchange itself runs outside; any failure there
//! simply means "no verdict".
use crate::device::{char_utf8_width, lemma_utf8_take_step, utf8_len};
use crate::text::{
    append_chars, char_is_hex, chars_of, find_from, first_occ, is_hex, lemma_first_occ,
    slice_chars, string_from_chars, trim, trim_chars,
};
use vstd::prelude::*;

verus! {

/// What the catalogue associates with a SHA-1.
#[derive(Clone, Debug)]
pub struct AdguardVerdict {
    /// Canonical file name the catalogue associates with the digest.
    pub filename: String,
    /// Free-text description (e.g. "Windows 11").
    pub category: String,
}

impl Default for AdguardVerdict {
    fn default() -> (r: Self)
        ensures
            r.filename@ == Seq::<char>::empty(),
            r.category@ == Seq::<char>::empty(),
    {
        AdguardVerdict { filename: String::new(), category: String::new() }
    }
}

/// The badge shown for a catalogue entry: empty without a file name and a
/// category; else the category and the file name around a middle dot, or
/// whichever of the two is present.
pub open spec fn badge_text(filename: Seq<char>, category: Seq<char>) -> Seq<char> {
    if filename.len() == 0 && category.len() == 0 {
        Seq::empty()
    } else if category.len() == 0 {
        filename
    } else if filename.len() == 0 {
        category
    } else {
        category + " \u{b7} "@ + filename
    }
}

impl AdguardVerdict {
    /// One-line label for the "verified" badge; empty when the verdict
    /// carries no useful name.
    pub fn badge(&self) -> (r: String)
        ensures
            r@ == badge_text(self.filename@, self.category@),
    {
        let f = chars_of(self.filename.as_str());
        let c = chars_of(self.category.as_str());
        if f.len() == 0 && c.len() == 0 {
            return String::new();
        }
        if c.len() == 0 {
            return self.filename.clone();
        }
        if f.len() == 0 {
            return self.category.clone();
        }
        let mut out: Vec<char> = Vec::new();
        append_chars(&mut out, &c);
        let sep = chars_of(" \u{b7} ");
        append_chars(&mut out, &sep);
        append_chars(&mut out, &f);
        string_from_chars(&out)
    }
}

/// A SHA-1 digest in hex: exactly 40 ASCII hex digits.
pub open spec fn is_sha1_hex(s: Seq<char>) -> bool {
    s.len() == 40 && forall|i: int| 0 <= i < s.len() ==> is_hex(#[trigger] s[i])
}

/// The catalogue's search page for a digest.
pub open spec fn search_url(sha1_hex: Seq<char>) -> Seq<char> {
    "https://sha1.rg-adguard.net/search.php?sha1="@ + sha1_hex + "&lang=en-us"@
}

/// The query URL for a digest, or `None` when `sha1_hex` is not a SHA-1 in
/// hex (no request is worth making then).
pub fn lookup_url(sha1_hex: &str) -> (r: Option<String>)
    ensures
        is_sha1_hex(sha1_hex@) ==> (r matches Some(u) && u@ == search_url(sha1_hex@)),
        !is_sha1_hex(sha1_hex@) ==> r is None,
{
    let v = chars_of(sha1_hex);
    if v.len() != 40 {
        return None;
    }
    let mut i: usize = 0;
    while i < v.len()
        invariant
            i <= v.len(),
            v@ == sha1_hex@,
            forall|j: int| 0 <= j < i ==> is_hex(#[trigger] v@[j]),
        decreases v.len() - i,
    {
        if !char_is_hex(v[i]) {
            return None;
        }
        i += 1;
    }
    let mut out = chars_of("https://sha1.rg-adguard.net/search.php?sha1=");
    append_chars(&mut out, &v);
    let tail = chars_of("&lang=en-us");
    append_chars(&mut out, &tail);
    Some(string_from_chars(&out))
}

/// Where the results page links each matching file.
pub open spec fn adguard_marker() -> Seq<char> {
    "files.rg-adguard.net/file/"@
}

/// The text of the first anchor into the file catalogue: from just after the
/// first `>` that follows the marker up to the next `</a>` (or the end).
pub open spec fn first_anchor_text(body: Seq<char>) -> Option<Seq<char>> {
    match first_occ(body, adguard_marker(), 0) {
        None => None,
        Some(start) => match first_occ(body, seq!['>'], start) {
            None => None,
            Some(gt) => {
                let rest = body.subrange(gt + 1, body.len() as int);
                Some(
                    match first_occ(rest, "</a>"@, 0) {
                        Some(k) => rest.take(k),
                        None => rest,
                    },
                )
            },
        },
    }
}

/// The file name a results page reports: the trimmed first anchor text,
/// when it is non-empty and shorter than 200 bytes.
pub open spec fn reported_name(body: Seq<char>) -> Option<Seq<char>> {
    match first_anchor_text(body) {
        None => None,
        Some(t) => {
            let name = trim(t);
            if name.len() == 0 || utf8_len(name) >= 200 {
                None
            } else {
                Some(name)
            }
        },
    }
}

/// Whether `v` takes fewer than `limit` bytes in UTF-8.
fn utf8_shorter_than(v: &Vec<char>, limit: u64) -> (r: bool)
    ensures
        r == (utf8_len(v@) < limit),
{
    if limit == 0 {
        return false;
    }
    let mut total: u64 = 0;
    let mut i: usize = 0;
    while i < v.len()
        invariant
            i <= v.len(),
            total == utf8_len(v@.take(i as int)),
            total < limit,
        decreases v.len() - i,
    {
        proof {
            lemma_utf8_take_step(v@, i as int);
        }
        let w = char_utf8_width(v[i]);
        if w >= limit - total {
            proof {
                lemma_utf8_take_monotone(v@, i + 1, v.len() as int);
                assert(v@.take(v.len() as int) =~= v@);
            }
            return false;
        }
        total = total + w;
        i += 1;
    }
    assert(v@.take(v.len() as int) =~= v@);
    true
}

proof fn lemma_utf8_take_monotone(s: Seq<char>, i: int, j: int)
    requires
        0 <= i <= j <= s.len(),
    ensures
        utf8_len(s.take(i)) <= utf8_len(s.take(j)),
    decreases j - i,
{
    if i < j {
        lemma_utf8_take_step(s, j - 1);
        lemma_utf8_take_monotone(s, i, j - 1);
    }
    assert(s.take(s.len() as int) =~= s);
}

/// Read the first matching file name out of the catalogue's results page.
/// A page without a link into the file catalogue (a miss) gives `None`.
pub fn parse_response(body: &str) -> (r: Option<AdguardVerdict>)
    ensures
        match reported_name(body@) {
            Some(name) => r matches Some(v) && v.filename@ == name && v.category@.len() == 0,
            None => r is None,
        },
{
    let b = chars_of(body);
    let marker = chars_of("files.rg-adguard.net/file/");
    let start = match find_from(&b, &marker, 0) {
        None => {
            return None;
        },
        Some(s) => s,
    };
    proof {
        lemma_first_occ(b@, marker@, 0);
    }
    let gt_pat = ['>'];
    assert(gt_pat@ =~= seq!['>']);
    let gt = match find_from(&b, &gt_pat, start) {
        None => {
            return None;
        },
        Some(g) => g,
    };
    proof {
        lemma_first_occ(b@, seq!['>'], start as int);
    }
    let rest = slice_chars(&b, gt + 1, b.len());
    let close = chars_of("</a>");
    let piece = match find_from(&rest, &close, 0) {
        Some(k) => {
            proof {
                lemma_first_occ(rest@, close@, 0);
            }
            slice_chars(&rest, 0, k)
        },
        None => {
            let all = slice_chars(&rest, 0, rest.len());
            assert(all@ =~= rest@);
            all
        },
    };
    let name = trim_chars(&piece);
    if name.len() == 0 || !utf8_shorter_than(&name, 200) {
        return None;
    }
    Some(AdguardVerdict { filename: string_from_chars(&name), category: String::new() })
}

/// The verdict for a reply from the catalogue: only a 200 page is read.
pub fn verdict_from_reply(status: u16, body: &str) -> (r: Option<AdguardVerdict>)
    ensures
        status != 200 ==> r is None,
        status == 200 ==> match reported_name(body@) {
            Some(name) => r matches Some(v) && v.filename@ == name && v.category@.len() == 0,
            None => r is None,
        },
{
    if status != 200 {
        return None;
    }
    parse_response(body)
}

} // verus!
