//! Which interface translation to load: the system locale as the
//! environment gives it, the catalogues to try for it, in order, and where
//! each catalogue lives in the resource bundle. Loading and installing the
//! Qt translator happens outside.
use crate::text::{append_chars, chars_eq, chars_of, first_occ, find_from, lemma_first_occ, slice_chars, string_from_chars};
use vstd::prelude::*;

verus! {

/// The index of the first `.` or `@` in `v` at or after `i` (or its length).
pub open spec fn first_sep_from(v: Seq<char>, i: int) -> int
    decreases v.len() - i,
{
    if i < 0 || i >= v.len() || v[i] == '.' || v[i] == '@' {
        i
    } else {
        first_sep_from(v, i + 1)
    }
}

/// The part of a locale value before its first `.` or `@`
/// (`split(['.', '@']).next()`).
pub open spec fn locale_stem(v: Seq<char>) -> Seq<char> {
    v.take(first_sep_from(v, 0))
}

/// A usable locale value: set, non-empty, and neither `C` nor `POSIX`.
pub open spec fn usable_locale(v: Option<Seq<char>>) -> bool {
    match v {
        Some(s) => s.len() > 0 && s != "C"@ && s != "POSIX"@,
        None => false,
    }
}

/// The system locale from the values of `LC_ALL`, `LC_MESSAGES` and `LANG`
/// (in that order): the first usable one, cut at its first `.` or `@`; else
/// `en_US`.
pub open spec fn system_locale_spec(values: Seq<Option<Seq<char>>>) -> Seq<char>
    decreases values.len(),
{
    if values.len() == 0 {
        "en_US"@
    } else if usable_locale(values[0]) {
        locale_stem(values[0]->0)
    } else {
        system_locale_spec(values.drop_first())
    }
}

/// The characters of optional strings.
pub open spec fn opt_views(values: Seq<Option<String>>) -> Seq<Option<Seq<char>>> {
    Seq::new(
        values.len(),
        |i: int|
            match values[i] {
                Some(s) => Some(s@),
                None => None,
            },
    )
}

/// The part of `v` before its first `.` or `@`.
fn stem_of(v: &Vec<char>) -> (r: Vec<char>)
    ensures
        r@ == locale_stem(v@),
{
    let mut i: usize = 0;
    while i < v.len() && v[i] != '.' && v[i] != '@'
        invariant
            i <= v@.len(),
            first_sep_from(v@, 0) == first_sep_from(v@, i as int),
        decreases v@.len() - i,
    {
        i += 1;
    }
    slice_chars(v, 0, i)
}

/// The system locale, from the values of `LC_ALL`, `LC_MESSAGES` and `LANG`
/// in that order (`None` for an unset or non-Unicode variable): the first
/// usable one without its encoding or modifier, or `en_US`.
pub fn system_locale(values: &[Option<String>]) -> (r: String)
    ensures
        r@ == system_locale_spec(opt_views(values@)),
{
    let ghost vs = opt_views(values@);
    let mut k: usize = 0;
    assert(vs.skip(0) =~= vs);
    while k < values.len()
        invariant
            k <= values@.len(),
            vs == opt_views(values@),
            system_locale_spec(vs) == system_locale_spec(vs.skip(k as int)),
        decreases values@.len() - k,
    {
        assert(vs.skip(k as int)[0] == vs[k as int]);
        assert(vs.skip(k as int).drop_first() =~= vs.skip(k + 1));
        if let Some(s) = &values[k] {
            let v = chars_of(s.as_str());
            let usable = v.len() > 0 && !chars_eq(&v, &chars_of("C")) && !chars_eq(&v, &chars_of("POSIX"));
            if usable {
                assert(usable_locale(vs[k as int]));
                let stem = stem_of(&v);
                return string_from_chars(&stem);
            }
        }
        k += 1;
    }
    assert(vs.skip(k as int) =~= Seq::<Option<Seq<char>>>::empty());
    string_from_chars(&chars_of("en_US"))
}

/// The part of a locale before its first `_` (its language).
pub open spec fn language_of(locale: Seq<char>) -> Seq<char> {
    match first_occ(locale, seq!['_'], 0) {
        Some(i) => locale.take(i),
        None => locale,
    }
}

/// The catalogues to try for a locale, in order: the full locale, then its
/// language; the search stops at the first `en`, whose strings are built in.
pub open spec fn candidates_spec(locale: Seq<char>) -> Seq<Seq<char>> {
    let short = language_of(locale);
    if locale == "en"@ {
        seq![]
    } else if short == "en"@ {
        seq![locale]
    } else {
        seq![locale, short]
    }
}

/// The translation catalogues to try for the system locale, in order; the
/// first that loads is installed.
pub fn translation_candidates(locale_full: &str) -> (r: Vec<String>)
    ensures
        r@.len() == candidates_spec(locale_full@).len(),
        forall|i: int| 0 <= i < r@.len() ==> (#[trigger] r@[i])@ == candidates_spec(locale_full@)[i],
{
    let full = chars_of(locale_full);
    let us = ['_'];
    assert(us@ =~= seq!['_']);
    let short = match find_from(&full, &us, 0) {
        Some(i) => {
            proof {
                lemma_first_occ(full@, seq!['_'], 0);
            }
            slice_chars(&full, 0, i)
        },
        None => slice_chars(&full, 0, full.len()),
    };
    assert(short@ =~= language_of(locale_full@));
    let en = chars_of("en");
    let mut out: Vec<String> = Vec::new();
    if chars_eq(&full, &en) {
        return out;
    }
    out.push(string_from_chars(&full));
    if chars_eq(&short, &en) {
        return out;
    }
    out.push(string_from_chars(&short));
    out
}

/// The resource path of the catalogue for a locale.
pub fn catalogue_path(locale: &str) -> (r: String)
    ensures
        r@ == ":/i18n/usbooty_"@ + locale@ + ".qm"@,
{
    let mut p = chars_of(":/i18n/usbooty_");
    append_chars(&mut p, &chars_of(locale));
    append_chars(&mut p, &chars_of(".qm"));
    string_from_chars(&p)
}

} // verus!
