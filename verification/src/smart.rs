//! The SMART health verdict on a drive, from the fields of `smartctl`'s JSON
//! report that matter for "this stick is dying": overall health,
//! reallocated, pending and uncorrectable sectors, and temperature. Running
//! `smartctl` and reading its JSON happen outside; this module receives the
//! fields.
use crate::text::{append_chars, chars_of, decimal, decimal_chars, string_from_chars};
use vstd::prelude::*;

verus! {

/// One row of the ATA SMART attribute table.
#[derive(Debug, Clone, Copy, PartialEq, Eq, Structural)]
pub struct SmartAttribute {
    /// Its `id`, when that is an unsigned integer.
    pub id: Option<u64>,
    /// Its `raw.value`, when that is an unsigned integer.
    pub raw: Option<u64>,
}

/// The fields of a `smartctl --json` report that the verdict reads.
#[derive(Debug, Clone)]
pub struct SmartReport {
    /// `smart_support.available` is `true`.
    pub smart_supported: bool,
    /// The report has a `smart_status` block.
    pub has_smart_status: bool,
    /// `smart_status.passed`, when it is a boolean.
    pub passed: Option<bool>,
    /// `ata_smart_attributes.table`, when it is an array.
    pub attributes: Option<Vec<SmartAttribute>>,
    /// `temperature.current`, when it is an integer.
    pub temperature: Option<i64>,
}

/// The raw value of the first row with the given id.
pub open spec fn raw_in(t: Seq<SmartAttribute>, id: u64) -> Option<u64>
    decreases t.len(),
{
    if t.len() == 0 {
        None
    } else if t[0].id == Some(id) {
        t[0].raw
    } else {
        raw_in(t.drop_first(), id)
    }
}

/// The raw value of attribute `id` in a report: that of the first table row
/// with this id; nothing without a table or such a row.
pub open spec fn attribute_raw_spec(r: SmartReport, id: u64) -> Option<u64> {
    match r.attributes {
        Some(t) => raw_in(t@, id),
        None => None,
    }
}

/// Look up a SMART attribute by id and return its raw value.
pub fn attribute_raw(report: &SmartReport, id: u64) -> (r: Option<u64>)
    ensures
        r == attribute_raw_spec(*report, id),
{
    match &report.attributes {
        None => None,
        Some(t) => {
            let mut i: usize = 0;
            assert(t@.skip(0) =~= t@);
            while i < t.len()
                invariant
                    i <= t@.len(),
                    raw_in(t@, id) == raw_in(t@.skip(i as int), id),
                    attribute_raw_spec(*report, id) == raw_in(t@, id),
                decreases t@.len() - i,
            {
                assert(t@.skip(i as int)[0] == t@[i as int]);
                assert(t@.skip(i as int).drop_first() =~= t@.skip(i + 1));
                if let Some(x) = t[i].id {
                    if x == id {
                        return t[i].raw;
                    }
                }
                i += 1;
            }
            None
        },
    }
}

/// A warning for a count when it is non-zero.
pub open spec fn count_warning(n: Option<u64>, what: Seq<char>) -> Seq<Seq<char>> {
    match n {
        Some(k) => if k > 0 {
            seq![decimal(k as nat) + what]
        } else {
            seq![]
        },
        None => seq![],
    }
}

/// The warnings a report gives, in order: failing overall health,
/// reallocated (attribute 5), pending (197) and uncorrectable (198)
/// sectors, and a temperature of 60 °C or more.
pub open spec fn smart_warnings(r: SmartReport) -> Seq<Seq<char>> {
    let health = if r.passed == Some(false) {
        seq!["SMART overall health = FAILING"@]
    } else {
        seq![]
    };
    let temp = match r.temperature {
        Some(t) => if t >= 60 {
            seq!["temperature "@ + decimal(t as nat) + " \u{b0}C"@]
        } else {
            seq![]
        },
        None => seq![],
    };
    health + count_warning(attribute_raw_spec(r, 5), " reallocated sector(s)"@) + count_warning(
        attribute_raw_spec(r, 197),
        " pending bad sector(s)"@,
    ) + count_warning(attribute_raw_spec(r, 198), " uncorrectable sector(s)"@) + temp
}

/// The pieces joined with `sep` between them.
pub open spec fn join_with(ls: Seq<Seq<char>>, sep: Seq<char>) -> Seq<char>
    decreases ls.len(),
{
    if ls.len() == 0 {
        seq![]
    } else if ls.len() == 1 {
        ls[0]
    } else {
        join_with(ls.drop_last(), sep) + sep + ls.last()
    }
}

/// The one-line health warning for a report: nothing when the report shows
/// no SMART support at all or finds nothing wrong, else the warnings joined
/// by middle dots.
pub open spec fn smart_verdict(r: SmartReport) -> Option<Seq<char>> {
    if !r.smart_supported && !r.has_smart_status {
        None
    } else {
        let w = smart_warnings(r);
        if w.len() == 0 {
            None
        } else {
            Some(join_with(w, " \u{b7} "@))
        }
    }
}

/// The pieces an optional warning contributes.
pub open spec fn piece_seq(o: Option<Vec<char>>) -> Seq<Seq<char>> {
    match o {
        Some(v) => seq![v@],
        None => Seq::<Seq<char>>::empty(),
    }
}

fn push_opt(out: &mut Vec<char>, count: &mut usize, piece: &Option<Vec<char>>, done: Ghost<Seq<Seq<char>>>)
    requires
        old(out)@ == join_with(done@, " \u{b7} "@),
        *old(count) == done@.len(),
        *old(count) < 5,
    ensures
        final(out)@ == join_with(done@ + piece_seq(*piece), " \u{b7} "@),
        *final(count) == (done@ + piece_seq(*piece)).len(),
{
    let ghost ps = done@;
    match piece {
        Some(v) => {
            if *count > 0 {
                append_chars(out, &chars_of(" \u{b7} "));
            }
            append_chars(out, v);
            assert((ps + seq![v@]).drop_last() =~= ps);
            assert(ps + piece_seq(*piece) =~= ps.push(v@));
            if *count == 0 {
                assert(out@ =~= ps.push(v@)[0]);
            }
            *count = *count + 1;
        },
        None => {
            assert(ps + piece_seq(*piece) =~= ps);
        },
    }
}

fn count_piece(n: Option<u64>, what: &str) -> (r: Option<Vec<char>>)
    ensures
        count_warning(n, what@) == match r {
            Some(v) => seq![v@],
            None => Seq::<Seq<char>>::empty(),
        },
{
    match n {
        Some(k) => if k > 0 {
            let mut v = decimal_chars(k);
            append_chars(&mut v, &chars_of(what));
            Some(v)
        } else {
            None
        },
        None => None,
    }
}

/// The health warning for a drive's report, or `None` when it looks healthy
/// or SMART is not available.
pub fn smart_warning(report: &SmartReport) -> (r: Option<String>)
    ensures
        match smart_verdict(*report) {
            Some(t) => r matches Some(s) && s@ == t,
            None => r is None,
        },
{
    if !report.smart_supported && !report.has_smart_status {
        return None;
    }
    let health = if report.passed == Some(false) {
        Some(chars_of("SMART overall health = FAILING"))
    } else {
        None
    };
    let realloc = count_piece(attribute_raw(report, 5), " reallocated sector(s)");
    let pending = count_piece(attribute_raw(report, 197), " pending bad sector(s)");
    let uncorr = count_piece(attribute_raw(report, 198), " uncorrectable sector(s)");
    let temp = match report.temperature {
        Some(t) => if t >= 60 {
            let mut v = chars_of("temperature ");
            append_chars(&mut v, &decimal_chars(t as u64));
            append_chars(&mut v, &chars_of(" \u{b0}C"));
            Some(v)
        } else {
            None
        },
        None => None,
    };
    proof {
        assert(piece_seq(health) =~= (if report.passed == Some(false) {
            seq!["SMART overall health = FAILING"@]
        } else {
            seq![]
        }));
        assert(piece_seq(temp) =~= match report.temperature {
            Some(t) => if t >= 60 {
                seq!["temperature "@ + decimal(t as nat) + " \u{b0}C"@]
            } else {
                seq![]
            },
            None => seq![],
        });
    }
    let mut out: Vec<char> = Vec::new();
    let mut count: usize = 0;
    let ghost d0 = Seq::<Seq<char>>::empty();
    push_opt(&mut out, &mut count, &health, Ghost(d0));
    let ghost d1 = d0 + piece_seq(health);
    push_opt(&mut out, &mut count, &realloc, Ghost(d1));
    let ghost d2 = d1 + piece_seq(realloc);
    push_opt(&mut out, &mut count, &pending, Ghost(d2));
    let ghost d3 = d2 + piece_seq(pending);
    push_opt(&mut out, &mut count, &uncorr, Ghost(d3));
    let ghost d4 = d3 + piece_seq(uncorr);
    push_opt(&mut out, &mut count, &temp, Ghost(d4));
    let ghost d5 = d4 + piece_seq(temp);
    assert(d5 =~= smart_warnings(*report));
    if count == 0 {
        None
    } else {
        Some(string_from_chars(&out))
    }
}

} // verus!
