//! Description of a candidate target block device, as enumerated by the GUI.
use crate::text::{
    append_chars, append_str, chars_of, decimal, decimal_chars, digit_char, slice_chars,
    string_from_chars, trim, trim_chars,
};
use vstd::prelude::*;

verus! {

/// A block device the user could write to (typically a removable USB drive).
#[derive(Debug, Clone, PartialEq, Eq)]
pub struct DeviceInfo {
    /// Kernel device node, e.g. `/dev/sdb`.
    pub path: String,
    /// Human-readable vendor/model string; may be blank when the enclosure
    /// under-reports.
    pub model: String,
    /// Total capacity in bytes.
    pub size: u64,
    /// Whether the kernel reports the device as removable.
    pub removable: bool,
    /// Bus and speed summary, e.g. `USB 3.0`, `NVMe`.
    pub bus: Option<String>,
    /// USB / SCSI serial number.
    pub serial: Option<String>,
    /// USB vendor name as reported by the device descriptor.
    pub vendor: Option<String>,
}

/// Number of bytes `c` takes in UTF-8.
pub open spec fn utf8_width(c: char) -> nat {
    if (c as u32) < 0x80 {
        1
    } else if (c as u32) < 0x800 {
        2
    } else if (c as u32) < 0x10000 {
        3
    } else {
        4
    }
}

/// Number of bytes `s` takes in UTF-8 (`str::len`).
pub open spec fn utf8_len(s: Seq<char>) -> nat
    decreases s.len(),
{
    if s.len() == 0 {
        0
    } else {
        utf8_len(s.drop_last()) + utf8_width(s.last())
    }
}

/// Longest serial, in bytes, that the detail line shows in full.
pub const SERIAL_SHOWN_BYTES: u64 = 14;

/// How many leading characters of `s`, counting on from `k`, fit in the
/// display limit in bytes.
pub open spec fn serial_cut(s: Seq<char>, k: int) -> int
    decreases s.len() - k,
{
    if 0 <= k < s.len() && utf8_len(s.take(k + 1)) <= SERIAL_SHOWN_BYTES {
        serial_cut(s, k + 1)
    } else {
        k
    }
}

/// The part of a serial that the detail line shows: its longest prefix of
/// whole characters within the display limit in bytes (the whole serial
/// when it fits).
pub open spec fn serial_shown(s: Seq<char>) -> Seq<char> {
    s.take(serial_cut(s, 0))
}

/// The unit index of a byte count: 0 for bytes, then KB, MB, GB and TB.
pub open spec fn size_unit(n: nat) -> nat {
    if n < 1_000 {
        0
    } else if n < 1_000_000 {
        1
    } else if n < 1_000_000_000 {
        2
    } else if n < 1_000_000_000_000 {
        3
    } else {
        4
    }
}

/// The number of bytes in one of unit `k`.
pub open spec fn unit_bytes(k: nat) -> nat {
    if k == 1 {
        1_000
    } else if k == 2 {
        1_000_000
    } else if k == 3 {
        1_000_000_000
    } else if k == 4 {
        1_000_000_000_000
    } else {
        1
    }
}

/// The name of unit `k`.
pub open spec fn unit_name(k: nat) -> Seq<char> {
    if k == 1 {
        "KB"@
    } else if k == 2 {
        "MB"@
    } else if k == 3 {
        "GB"@
    } else if k == 4 {
        "TB"@
    } else {
        "B"@
    }
}

/// `n` bytes in tenths of its unit, rounded to nearest (halves round up).
pub open spec fn size_tenths(n: nat) -> nat {
    let p = unit_bytes(size_unit(n));
    (n * 10 + p / 2) / p
}

/// A byte count as a short decimal (SI) size: `"512 B"` below a kilobyte,
/// else one decimal place in the largest unit (up to TB) not above it,
/// such as `"30.8 GB"`.
pub open spec fn format_size_spec(n: nat) -> Seq<char> {
    if size_unit(n) == 0 {
        decimal(n) + " B"@
    } else {
        let t = size_tenths(n);
        decimal(t / 10) + seq!['.', digit_char(t % 10), ' '] + unit_name(size_unit(n))
    }
}

/// The name shown for a device: its trimmed model, or a placeholder when blank.
pub open spec fn model_name_spec(model: Seq<char>) -> Seq<char> {
    if trim(model).len() == 0 {
        "Unknown device"@
    } else {
        trim(model)
    }
}

/// The bus part of the detail line.
pub open spec fn bus_label(bus: Option<String>, removable: bool) -> Seq<char> {
    match bus {
        Some(b) => b@,
        None => if removable {
            "Removable"@
        } else {
            "Internal disk"@
        },
    }
}

/// The serial part of the detail line, separator included; empty when the
/// device reports no serial.
pub open spec fn serial_part(serial: Option<String>) -> Seq<char> {
    match serial {
        Some(s) => if s@.len() == 0 {
            Seq::empty()
        } else {
            " · S/N "@ + serial_shown(s@)
        },
        None => Seq::empty(),
    }
}

impl DeviceInfo {
    /// The secondary detail line: capacity, bus, serial and device node.
    pub open spec fn detail_spec(&self) -> Seq<char> {
        format_size_spec(self.size as nat) + " · "@ + bus_label(self.bus, self.removable)
            + serial_part(self.serial) + " · "@ + self.path@
    }

    /// The picker label: model name, an em-dash, then the detail line.
    pub open spec fn display_spec(&self) -> Seq<char> {
        model_name_spec(self.model@) + " — "@ + self.detail_spec()
    }

    /// A label for the device picker, e.g.
    /// `SanDisk Ultra — 30.8 GB · USB 3.0 · /dev/sdb`.
    pub fn display(&self) -> (r: String)
        ensures
            r@ == self.display_spec(),
    {
        let mut out = self.model_name_chars();
        append_str(&mut out, " — ");
        let d = self.detail_chars();
        append_chars(&mut out, &d);
        string_from_chars(&out)
    }

    fn model_name_chars(&self) -> (r: Vec<char>)
        ensures
            r@ == model_name_spec(self.model@),
    {
        let m = chars_of(self.model.as_str());
        let t = trim_chars(&m);
        if t.len() == 0 {
            chars_of("Unknown device")
        } else {
            t
        }
    }

    /// The model name, falling back to a placeholder when the kernel reports none.
    pub fn model_name(&self) -> (r: String)
        ensures
            r@ == model_name_spec(self.model@),
    {
        let v = self.model_name_chars();
        string_from_chars(&v)
    }

    fn detail_chars(&self) -> (r: Vec<char>)
        ensures
            r@ == self.detail_spec(),
    {
        let mut out = format_size_chars(self.size);
        append_str(&mut out, " · ");
        match &self.bus {
            Some(b) => append_str(&mut out, b.as_str()),
            None => {
                if self.removable {
                    append_str(&mut out, "Removable");
                } else {
                    append_str(&mut out, "Internal disk");
                }
            },
        }
        let ghost before = out@;
        match &self.serial {
            Some(s) => {
                let sv = chars_of(s.as_str());
                if sv.len() > 0 {
                    append_str(&mut out, " · S/N ");
                    let shown = shown_serial(&sv);
                    append_chars(&mut out, &shown);
                }
            },
            None => {},
        }
        assert(out@ == before + serial_part(self.serial));
        append_str(&mut out, " · ");
        append_str(&mut out, self.path.as_str());
        out
    }

    /// The secondary detail line: capacity, bus, serial (when present), and
    /// device node, joined by middle dots. Falls back to "Removable" /
    /// "Internal disk" when no specific bus is known.
    pub fn detail(&self) -> (r: String)
        ensures
            r@ == self.detail_spec(),
    {
        let v = self.detail_chars();
        string_from_chars(&v)
    }
}

pub proof fn lemma_utf8_take_step(s: Seq<char>, k: int)
    requires
        0 <= k < s.len(),
    ensures
        utf8_len(s.take(k + 1)) == utf8_len(s.take(k)) + utf8_width(s[k]),
{
    assert(s.take(k + 1).drop_last() =~= s.take(k));
}

/// Number of bytes `c` takes in UTF-8.
pub fn char_utf8_width(c: char) -> (r: u64)
    ensures
        r == utf8_width(c),
{
    let u = c as u32;
    if u < 0x80 {
        1
    } else if u < 0x800 {
        2
    } else if u < 0x10000 {
        3
    } else {
        4
    }
}

/// The part of a serial shown in the detail line.
fn shown_serial(s: &Vec<char>) -> (r: Vec<char>)
    ensures
        r@ == serial_shown(s@),
{
    let mut total: u64 = 0;
    let mut k: usize = 0;
    while k < s.len() && total + char_utf8_width(s[k]) <= SERIAL_SHOWN_BYTES
        invariant
            k <= s@.len(),
            total == utf8_len(s@.take(k as int)),
            total <= SERIAL_SHOWN_BYTES,
            serial_cut(s@, 0) == serial_cut(s@, k as int),
        decreases s@.len() - k,
    {
        proof {
            lemma_utf8_take_step(s@, k as int);
        }
        total = total + char_utf8_width(s[k]);
        k += 1;
    }
    proof {
        if k < s@.len() {
            lemma_utf8_take_step(s@, k as int);
        }
    }
    slice_chars(s, 0, k)
}

/// The characters of [`format_size`].
pub fn format_size_chars(bytes: u64) -> (r: Vec<char>)
    ensures
        r@ == format_size_spec(bytes as nat),
{
    if bytes < 1_000 {
        let mut r = decimal_chars(bytes);
        append_str(&mut r, " B");
        return r;
    }
    let (p, name): (u128, &str) = if bytes < 1_000_000 {
        (1_000, "KB")
    } else if bytes < 1_000_000_000 {
        (1_000_000, "MB")
    } else if bytes < 1_000_000_000_000 {
        (1_000_000_000, "GB")
    } else {
        (1_000_000_000_000, "TB")
    };
    assert(p == unit_bytes(size_unit(bytes as nat)));
    assert(name@ == unit_name(size_unit(bytes as nat)));
    let x: u128 = (bytes as u128) * 10 + p / 2;
    let t: u128 = x / p;
    assert(t * 1000 <= x) by (nonlinear_arith)
        requires
            p >= 1000,
            t == x / p,
    ;
    assert(t == size_tenths(bytes as nat));
    let whole: u64 = (t / 10) as u64;
    let frac: u64 = (t % 10) as u64;
    let mut r = decimal_chars(whole);
    r.push('.');
    r.push(((frac as u8) + 48) as char);
    r.push(' ');
    append_str(&mut r, name);
    assert(r@ =~= format_size_spec(bytes as nat));
    r
}

/// Format a byte count as a short decimal (SI) size string.
pub fn format_size(bytes: u64) -> (r: String)
    ensures
        r@ == format_size_spec(bytes as nat),
{
    let v = format_size_chars(bytes);
    string_from_chars(&v)
}

} // verus!
