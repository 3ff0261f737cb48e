//! Small pure helpers behind the GUI's controller: option normalisation,
//! `file://` URL handling, `udevadm` / `/proc/mounts` / `smartctl` output
//! processing, and the persistence-size ceiling.
use crate::device::DeviceInfo;
use crate::iso_report::IsoReport;
use crate::text::{
    append_chars, append_str, chars_eq, chars_of, char_is_digit, char_is_ws, contains, ends_with,
    find_from, first_occ, is_digit, is_prefix, is_suffix, is_ws, join_lines, join_with_newlines,
    lemma_first_occ, lines_of, seq_contains, slice_chars, starts_with, str_lines,
    string_from_chars, trim, trim_chars, trim_start, utf8_lossy, utf8_lossy_string,
};
use vstd::prelude::*;
use vstd::utf8::encode_utf8;

verus! {

/// `Some(trimmed)` when `s` has any non-whitespace content; `None` otherwise.
pub fn trimmed_opt(s: &str) -> (r: Option<String>)
    ensures
        match r {
            Some(t) => trim(s@).len() > 0 && t@ == trim(s@),
            None => trim(s@).len() == 0,
        },
{
    let v = chars_of(s);
    let t = trim_chars(&v);
    if t.len() == 0 {
        None
    } else {
        Some(string_from_chars(&t))
    }
}

/// `Some(s)` when `s` is non-empty, without trimming (passwords keep their
/// surrounding white space).
pub fn non_empty_opt(s: &str) -> (r: Option<String>)
    ensures
        match r {
            Some(t) => s@.len() > 0 && t@ == s@,
            None => s@.len() == 0,
        },
{
    let v = chars_of(s);
    if v.len() == 0 {
        None
    } else {
        Some(string_from_chars(&v))
    }
}

/// The value of an ASCII hexadecimal digit byte (`char::to_digit(16)`).
pub open spec fn hex_digit_value(b: u8) -> Option<u8> {
    if 0x30 <= b && b <= 0x39 {
        Some((b - 0x30) as u8)
    } else if 0x61 <= b && b <= 0x66 {
        Some((b - 0x61 + 10) as u8)
    } else if 0x41 <= b && b <= 0x46 {
        Some((b - 0x41 + 10) as u8)
    } else {
        None
    }
}

/// Bytes with each `%XX` escape (two hex digits) replaced by the byte it
/// names; any other `%` passes through.
pub open spec fn percent_decode_bytes(b: Seq<u8>) -> Seq<u8>
    decreases b.len(),
{
    if b.len() == 0 {
        seq![]
    } else if b[0] == 0x25 && 2 < b.len() && hex_digit_value(b[1]) is Some && hex_digit_value(
        b[2],
    ) is Some {
        seq![(hex_digit_value(b[1]).unwrap() * 16 + hex_digit_value(b[2]).unwrap()) as u8]
            + percent_decode_bytes(b.subrange(3, b.len() as int))
    } else {
        seq![b[0]] + percent_decode_bytes(b.drop_first())
    }
}

fn hex_digit_of(b: u8) -> (r: Option<u8>)
    ensures
        r == hex_digit_value(b),
{
    if 0x30 <= b && b <= 0x39 {
        Some(b - 0x30)
    } else if 0x61 <= b && b <= 0x66 {
        Some(b - 0x61 + 10)
    } else if 0x41 <= b && b <= 0x46 {
        Some(b - 0x41 + 10)
    } else {
        None
    }
}

/// Decode `%XX` percent-escapes; malformed sequences pass through verbatim,
/// and bytes that are not UTF-8 decode lossily.
pub fn percent_decode(s: &str) -> (r: String)
    ensures
        r@ == utf8_lossy(percent_decode_bytes(encode_utf8(s@))),
{
    let bytes = s.as_bytes();
    let ghost all = bytes@;
    let mut out: Vec<u8> = Vec::new();
    let mut i: usize = 0;
    assert(all.subrange(0, all.len() as int) =~= all);
    assert(out@ + percent_decode_bytes(all) =~= percent_decode_bytes(all));
    while i < bytes.len()
        invariant
            i <= all.len(),
            all == bytes@,
            out@ + percent_decode_bytes(all.subrange(i as int, all.len() as int))
                == percent_decode_bytes(all),
        decreases all.len() - i,
    {
        let ghost rest = all.subrange(i as int, all.len() as int);
        let ghost before = out@;
        let mut step: usize = 1;
        if bytes[i] == 0x25 && bytes.len() - i > 2 {
            match (hex_digit_of(bytes[i + 1]), hex_digit_of(bytes[i + 2])) {
                (Some(hi), Some(lo)) => {
                    out.push(hi * 16 + lo);
                    step = 3;
                },
                _ => {},
            }
        }
        if step == 1 {
            out.push(bytes[i]);
            assert(rest.drop_first() =~= all.subrange(i + 1, all.len() as int));
        } else {
            assert(rest.subrange(3, rest.len() as int) =~= all.subrange(i + 3, all.len() as int));
        }
        assert(out@ + percent_decode_bytes(all.subrange(i + step, all.len() as int)) =~= before
            + percent_decode_bytes(rest));
        i = i + step;
    }
    assert(all.subrange(i as int, all.len() as int) =~= seq![]);
    assert(out@ + seq![] =~= out@);
    utf8_lossy_string(&out)
}

/// The local path a `file://` URL names (percent-decoded); anything else is
/// taken as a plain path, escapes included.
pub open spec fn local_path_spec(raw: Seq<char>) -> Seq<char> {
    if is_prefix("file://"@, raw) {
        utf8_lossy(percent_decode_bytes(encode_utf8(raw.subrange(7, raw.len() as int))))
    } else {
        raw
    }
}

/// Convert a `file://` URL string into a local filesystem path,
/// percent-decoding escaped bytes. A plain path passes through unchanged.
pub fn local_path_from_url(raw: &str) -> (r: String)
    ensures
        r@ == local_path_spec(raw@),
{
    let v = chars_of(raw);
    let prefix = chars_of("file://");
    if starts_with(&v, &prefix) {
        proof {
            reveal_strlit("file://");
        }
        let rest = slice_chars(&v, 7, v.len());
        let rest_string = string_from_chars(&rest);
        percent_decode(rest_string.as_str())
    } else {
        string_from_chars(&v)
    }
}

/// The key of a `KEY=value` line: what precedes its first `=`.
pub open spec fn line_key(line: Seq<char>) -> Seq<char> {
    match first_occ(line, seq!['='], 0) {
        Some(i) => line.take(i),
        None => line,
    }
}

/// The lines whose key does not end in `_ENC`, in order.
pub open spec fn kept_udev_lines(ls: Seq<Seq<char>>) -> Seq<Seq<char>>
    decreases ls.len(),
{
    if ls.len() == 0 {
        seq![]
    } else {
        let prev = kept_udev_lines(ls.drop_last());
        if is_suffix("_ENC"@, line_key(ls.last())) {
            prev
        } else {
            prev.push(ls.last())
        }
    }
}

/// Strip the hex-encoded duplicates (`ID_FOO_ENC=…`) from a
/// `udevadm info --query=property` dump.
pub fn clean_udev(raw: &str) -> (r: String)
    ensures
        r@ == join_lines(kept_udev_lines(str_lines(raw@))),
{
    let text = chars_of(raw);
    let lines = lines_of(&text);
    let ghost all = str_lines(raw@);
    let eq = ['='];
    assert(eq@ =~= seq!['=']);
    let enc = chars_of("_ENC");
    let mut kept: Vec<Vec<char>> = Vec::new();
    let mut i: usize = 0;
    while i < lines.len()
        invariant
            i <= lines@.len(),
            lines@.len() == all.len(),
            forall|j: int| 0 <= j < lines@.len() ==> (#[trigger] lines@[j])@ == all[j],
            eq@ == seq!['='],
            enc@ == "_ENC"@,
            Seq::new(kept@.len(), |j: int| kept@[j]@) == kept_udev_lines(all.take(i as int)),
        decreases lines@.len() - i,
    {
        assert(all.take(i + 1).drop_last() =~= all.take(i as int));
        assert(all.take(i + 1).last() == lines@[i as int]@);
        let line = &lines[i];
        let key = match find_from(line, &eq, 0) {
            Some(p) => {
                proof {
                    lemma_first_occ(line@, seq!['='], 0);
                }
                slice_chars(line, 0, p)
            },
            None => slice_chars(line, 0, line.len()),
        };
        assert(key@ =~= line_key(line@));
        if !ends_with(&key, &enc) {
            let ghost before = Seq::new(kept@.len(), |j: int| kept@[j]@);
            let ghost old_k = kept@;
            let copy = slice_chars(line, 0, line.len());
            assert(copy@ =~= line@);
            kept.push(copy);
            assert forall|j: int| 0 <= j < old_k.len() implies kept@[j] == old_k[j] by {}
            assert(Seq::new(kept@.len(), |j: int| kept@[j]@) =~= before.push(line@));
        }
        i = i + 1;
    }
    assert(all.take(i as int) =~= all);
    let out = join_with_newlines(&kept);
    string_from_chars(&out)
}

/// The first white-space-separated token of a line, if any.
pub open spec fn first_token(line: Seq<char>) -> Seq<char> {
    let t = trim_start(line);
    t.take(token_len(t, 0))
}

/// The length of the run of non-white-space characters of `t` from `i`.
pub open spec fn token_len(t: Seq<char>, i: int) -> int
    decreases t.len() - i,
{
    if i < 0 || i >= t.len() || is_ws(t[i]) {
        if i < 0 {
            0
        } else {
            i
        }
    } else {
        token_len(t, i + 1)
    }
}

/// A mount source belongs to `device`: it is the device itself, or the device
/// followed by a digit (`sdc1`) or by `p` and a digit (`nvme0n1p1`).
pub open spec fn is_device_source(source: Seq<char>, device: Seq<char>) -> bool {
    source == device || (is_prefix(device, source) && {
        let tail = source.subrange(device.len() as int, source.len() as int);
        (tail.len() > 0 && is_digit(tail[0])) || (tail.len() > 1 && tail[0] == 'p' && is_digit(
            tail[1],
        ))
    })
}

/// The mount sources in `/proc/mounts` text that belong to `device`, in order.
pub open spec fn device_sources(ls: Seq<Seq<char>>, device: Seq<char>) -> Seq<Seq<char>>
    decreases ls.len(),
{
    if ls.len() == 0 {
        seq![]
    } else {
        let prev = device_sources(ls.drop_last(), device);
        let src = first_token(ls.last());
        if src.len() > 0 && is_device_source(src, device) {
            prev.push(src)
        } else {
            prev
        }
    }
}

/// The first white-space-separated token of `line` (empty when none).
fn first_token_of(line: &[char]) -> (r: Vec<char>)
    ensures
        r@ == first_token(line@),
{
    let mut a: usize = 0;
    assert(line@.subrange(0, line@.len() as int) =~= line@);
    while a < line.len() && char_is_ws(line[a])
        invariant
            a <= line@.len(),
            trim_start(line@) == trim_start(line@.subrange(a as int, line@.len() as int)),
        decreases line@.len() - a,
    {
        assert(line@.subrange(a as int, line@.len() as int).drop_first() =~= line@.subrange(
            a + 1,
            line@.len() as int,
        ));
        a = a + 1;
    }
    if a == 0 {
        assert(line@.subrange(0, line@.len() as int) =~= line@);
    }
    let ghost t = line@.subrange(a as int, line@.len() as int);
    assert(trim_start(t) == t);
    let mut b: usize = a;
    while b < line.len() && !char_is_ws(line[b])
        invariant
            a <= b <= line@.len(),
            t == line@.subrange(a as int, line@.len() as int),
            token_len(t, 0) == token_len(t, b - a),
        decreases line@.len() - b,
    {
        b = b + 1;
    }
    let r = slice_chars(line, a, b);
    assert(r@ =~= t.take(b - a));
    r
}

/// Every mount source under `device_path` in the text of `/proc/mounts`:
/// the whole-disk node itself and any of its partitions.
pub fn mounted_sources_in(mounts: &str, device_path: &str) -> (r: Vec<String>)
    ensures
        Seq::new(r@.len(), |i: int| r@[i]@) == device_sources(str_lines(mounts@), device_path@),
{
    let text = chars_of(mounts);
    let dev = chars_of(device_path);
    let lines = lines_of(&text);
    let ghost all = str_lines(mounts@);
    let mut out: Vec<String> = Vec::new();
    let mut i: usize = 0;
    while i < lines.len()
        invariant
            i <= lines@.len(),
            lines@.len() == all.len(),
            forall|j: int| 0 <= j < lines@.len() ==> (#[trigger] lines@[j])@ == all[j],
            dev@ == device_path@,
            Seq::new(out@.len(), |j: int| out@[j]@) == device_sources(all.take(i as int), dev@),
        decreases lines@.len() - i,
    {
        assert(all.take(i + 1).drop_last() =~= all.take(i as int));
        assert(all.take(i + 1).last() == lines@[i as int]@);
        let src = first_token_of(&lines[i]);
        let mut keep = false;
        if src.len() > 0 {
            if chars_eq(&src, &dev) {
                keep = true;
            } else if starts_with(&src, &dev) {
                let n = dev.len();
                if src.len() > n && char_is_digit(src[n]) {
                    keep = true;
                } else if src.len() - n > 1 && src[n] == 'p' && char_is_digit(src[n + 1]) {
                    keep = true;
                }
                proof {
                    let tail = src@.subrange(n as int, src@.len() as int);
                    if tail.len() > 0 {
                        assert(tail[0] == src@[n as int]);
                    }
                    if tail.len() > 1 {
                        assert(tail[1] == src@[n + 1]);
                    }
                }
            }
        }
        assert(keep == (src@.len() > 0 && is_device_source(src@, dev@)));
        if keep {
            let ghost before = Seq::new(out@.len(), |j: int| out@[j]@);
            out.push(string_from_chars(&src));
            assert(Seq::new(out@.len(), |j: int| out@[j]@) =~= before.push(src@));
        }
        i = i + 1;
    }
    assert(all.take(i as int) =~= all);
    out
}

/// The largest persistence partition, in MiB, that still leaves room for
/// the image plus a 64 MiB margin on the device: 0 without a device or
/// without an image (the slider stays disabled), capped at `i32::MAX`.
pub open spec fn max_persistence_spec(device: Option<DeviceInfo>, iso: Option<IsoReport>) -> int {
    match (device, iso) {
        (None, _) => 0,
        (_, None) => 0,
        (Some(d), Some(r)) => {
            let iso_size = r.total_size as int;
            let after_iso = if d.size >= iso_size {
                d.size - iso_size
            } else {
                0
            };
            let usable = if after_iso >= 67108864 {
                after_iso - 67108864
            } else {
                0
            };
            let mib = usable / 1048576;
            if mib <= i32::MAX {
                mib
            } else {
                i32::MAX as int
            }
        },
    }
}

/// The persistence size ceiling for a device and an image (see
/// [`max_persistence_spec`]).
pub fn compute_max_persistence_mib(device: Option<&DeviceInfo>, iso: Option<&IsoReport>) -> (r: i32)
    ensures
        r as int == max_persistence_spec(
            match device {
                Some(d) => Some(*d),
                None => None,
            },
            match iso {
                Some(i) => Some(*i),
                None => None,
            },
        ),
{
    let d = match device {
        None => {
            return 0;
        },
        Some(d) => d,
    };
    let iso_size: u64 = match iso {
        Some(r) => r.total_size,
        None => {
            return 0;
        },
    };
    let usable = d.size.saturating_sub(iso_size).saturating_sub(67108864);
    let mib = usable / 1048576;
    if mib <= 2147483647 {
        mib as i32
    } else {
        2147483647
    }
}

/// The `smartctl` panel of the inspect dialog: a hint when it needs root, a
/// note when it printed nothing, else its trimmed output.
pub open spec fn smartctl_panel_spec(stdout: Seq<char>, stderr: Seq<char>) -> Seq<char> {
    let combined = trim(stdout);
    if seq_contains(combined, "Permission denied"@) || seq_contains(stderr, "Permission denied"@) {
        "(smartctl needs root for raw device access. Either run\n sudo chmod u+s $(which smartctl)\n once to setuid the binary, or launch usbooty with sudo.)"@
    } else if combined.len() == 0 {
        if trim(stderr).len() == 0 {
            "(smartctl returned no output; device may not expose SMART)"@
        } else {
            "(smartctl: "@ + trim(stderr) + ")"@
        }
    } else {
        combined
    }
}

/// The `smartctl` panel text from the tool's output streams.
pub fn smartctl_panel(stdout: &str, stderr: &str) -> (r: String)
    ensures
        r@ == smartctl_panel_spec(stdout@, stderr@),
{
    let out = chars_of(stdout);
    let err = chars_of(stderr);
    let combined = trim_chars(&out);
    let denied = chars_of("Permission denied");
    if contains(&combined, &denied) || contains(&err, &denied) {
        return string_from_chars(&chars_of(
            "(smartctl needs root for raw device access. Either run\n sudo chmod u+s $(which smartctl)\n once to setuid the binary, or launch usbooty with sudo.)",
        ));
    }
    if combined.len() == 0 {
        let tail = trim_chars(&err);
        if tail.len() == 0 {
            return string_from_chars(&chars_of("(smartctl returned no output; device may not expose SMART)"));
        }
        let mut m = chars_of("(smartctl: ");
        append_chars(&mut m, &tail);
        append_str(&mut m, ")");
        return string_from_chars(&m);
    }
    string_from_chars(&combined)
}

/// The panel shown when `smartctl` is not installed.
pub fn smartctl_missing_panel() -> (r: String)
    ensures
        r@ == "(smartctl not installed; install the `smartmontools` package to see SMART health here)"@,
{
    string_from_chars(&chars_of("(smartctl not installed; install the `smartmontools` package to see SMART health here)"))
}

/// The inspect dialog's text: the three tools' sections under their rules.
pub open spec fn inspect_text_spec(lsblk: Seq<char>, udev: Seq<char>, smart: Seq<char>) -> Seq<char> {
    "── lsblk ───────────────────────────────────────────\n"@ + lsblk
        + "\n── udevadm ─────────────────────────────────────────\n"@ + udev
        + "\n── smartctl ────────────────────────────────────────\n"@ + smart
}

/// Assembles the inspect dialog's text from the three tools' output (the
/// `udevadm` dump already cleaned).
pub fn inspect_text(lsblk: &str, udev: &str, smart: &str) -> (r: String)
    ensures
        r@ == inspect_text_spec(lsblk@, udev@, smart@),
{
    let mut m = chars_of("── lsblk ───────────────────────────────────────────\n");
    append_str(&mut m, lsblk);
    append_str(&mut m, "\n── udevadm ─────────────────────────────────────────\n");
    append_str(&mut m, udev);
    append_str(&mut m, "\n── smartctl ────────────────────────────────────────\n");
    append_str(&mut m, smart);
    string_from_chars(&m)
}

} // verus!
