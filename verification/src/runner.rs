//! The decisions around one run of the privileged helper: what a job still
//! needs fetched before it can be sent, how the helper's progress stream is
//! tallied, the final verdict and its message, and the text the log view
//! shows. Spawning the helper, piping its streams and updating the UI
//! happen outside.
use crate::job::{FileSystem, Job, WimStrategy};
use crate::progress::{LogLevel, ProgressMsg};
use crate::text::{
    append_chars, chars_of, decimal, decimal_chars, decimal_padded, decimal_padded_chars,
    eq_ignore_ascii_case, eq_ignore_case, find_from, first_occ, is_prefix, lemma_first_occ, occurs_at,
    lines_of, slice_chars, starts_with, str_lines, string_from_chars, trim, trim_chars,
    utf8_lossy, utf8_lossy_string,
};
use crate::windisco::{last_index_of, last_segment};
use vstd::prelude::*;

verus! {

/// `1h 04m`, `2m 12s` or `38s` for a duration in seconds.
pub open spec fn duration_text(secs: nat) -> Seq<char> {
    let h = secs / 3600;
    let m = (secs % 3600) / 60;
    let s = secs % 60;
    if h > 0 {
        decimal(h) + "h "@ + decimal_padded(m, 2) + "m"@
    } else if m > 0 {
        decimal(m) + "m "@ + decimal_padded(s, 2) + "s"@
    } else {
        decimal(s) + "s"@
    }
}

/// Format a duration in seconds as `1h 04m`, `2m 12s`, or `38s`.
pub fn format_duration(secs: u64) -> (r: String)
    ensures
        r@ == duration_text(secs as nat),
{
    let h = secs / 3600;
    let m = (secs % 3600) / 60;
    let s = secs % 60;
    let mut out: Vec<char>;
    if h > 0 {
        out = decimal_chars(h);
        append_chars(&mut out, &chars_of("h "));
        append_chars(&mut out, &decimal_padded_chars(m, 2));
        append_chars(&mut out, &chars_of("m"));
    } else if m > 0 {
        out = decimal_chars(m);
        append_chars(&mut out, &chars_of("m "));
        append_chars(&mut out, &decimal_padded_chars(s, 2));
        append_chars(&mut out, &chars_of("s"));
    } else {
        out = decimal_chars(s);
        append_chars(&mut out, &chars_of("s"));
    }
    string_from_chars(&out)
}

/// The escaped form of one character: `&`, `<`, `>` and `"` become entities.
pub open spec fn escape_char(c: char) -> Seq<char> {
    if c == '&' {
        "&amp;"@
    } else if c == '<' {
        "&lt;"@
    } else if c == '>' {
        "&gt;"@
    } else if c == '"' {
        "&quot;"@
    } else {
        seq![c]
    }
}

/// `s` with each character escaped for Qt's rich-text parser.
pub open spec fn html_escaped(s: Seq<char>) -> Seq<char>
    decreases s.len(),
{
    if s.len() == 0 {
        Seq::empty()
    } else {
        html_escaped(s.drop_last()) + escape_char(s.last())
    }
}

/// Minimal HTML escaping for log text (the four characters Qt's rich-text
/// parser treats specially).
pub fn html_escape(s: &str) -> (r: String)
    ensures
        r@ == html_escaped(s@),
{
    let v = chars_of(s);
    let mut out: Vec<char> = Vec::new();
    let mut i: usize = 0;
    while i < v.len()
        invariant
            i <= v.len(),
            v@ == s@,
            out@ == html_escaped(v@.take(i as int)),
        decreases v.len() - i,
    {
        let c = v[i];
        if c == '&' {
            append_chars(&mut out, &chars_of("&amp;"));
        } else if c == '<' {
            append_chars(&mut out, &chars_of("&lt;"));
        } else if c == '>' {
            append_chars(&mut out, &chars_of("&gt;"));
        } else if c == '"' {
            append_chars(&mut out, &chars_of("&quot;"));
        } else {
            out.push(c);
        }
        assert(v@.take(i + 1).drop_last() =~= v@.take(i as int));
        assert(v@.take(i + 1).last() == c);
        assert(out@ =~= html_escaped(v@.take(i as int)) + escape_char(c));
        i += 1;
    }
    assert(v@.take(v.len() as int) =~= v@);
    string_from_chars(&out)
}

/// The log view's line for a message of the given level: a `<div>`, amber
/// with a warning sign for warnings and red with a cross for errors.
pub open spec fn log_line_text(level: LogLevel, text: Seq<char>) -> Seq<char> {
    let e = html_escaped(text);
    match level {
        LogLevel::Info => "<div>"@ + e + "</div>"@,
        LogLevel::Warn => "<div style=\"color:#d18616\">\u{26A0} "@ + e + "</div>"@,
        LogLevel::Error => "<div style=\"color:#e5534b\">\u{2717} "@ + e + "</div>"@,
    }
}

/// One HTML-formatted log line, its text escaped.
pub fn log_line_html(level: LogLevel, text: &str) -> (r: String)
    ensures
        r@ == log_line_text(level, text@),
{
    let e = html_escape(text);
    let mut out = match level {
        LogLevel::Info => chars_of("<div>"),
        LogLevel::Warn => chars_of("<div style=\"color:#d18616\">\u{26A0} "),
        LogLevel::Error => chars_of("<div style=\"color:#e5534b\">\u{2717} "),
    };
    append_chars(&mut out, &chars_of(e.as_str()));
    append_chars(&mut out, &chars_of("</div>"));
    string_from_chars(&out)
}

/// The bold header the log shows when a phase starts; none for an empty name
/// or the implicit `Starting` phase.
pub open spec fn phase_header_text(name: Seq<char>) -> Option<Seq<char>> {
    if name.len() == 0 || eq_ignore_case(name, "Starting"@) {
        None
    } else {
        Some(
            "<div style=\"color:#2188ff;font-weight:bold;margin-top:4px\">\u{25B6} "@ + html_escaped(
                name,
            ) + "</div>"@,
        )
    }
}

/// The log header line marking a new phase, if the phase gets one.
pub fn phase_header_html(name: &str) -> (r: Option<String>)
    ensures
        match phase_header_text(name@) {
            Some(t) => r matches Some(x) && x@ == t,
            None => r is None,
        },
{
    let n = chars_of(name);
    if n.len() == 0 || eq_ignore_ascii_case(&n, &chars_of("Starting")) {
        return None;
    }
    let e = html_escape(name);
    let mut out = chars_of("<div style=\"color:#2188ff;font-weight:bold;margin-top:4px\">\u{25B6} ");
    append_chars(&mut out, &chars_of(e.as_str()));
    append_chars(&mut out, &chars_of("</div>"));
    Some(string_from_chars(&out))
}

/// The first partition of a whole-disk node: `p1` after an NVMe or MMC name,
/// `1` after any other.
pub open spec fn first_partition_text(device: Seq<char>) -> Seq<char> {
    let name = last_segment(device);
    if is_prefix("nvme"@, name) || is_prefix("mmcblk"@, name) {
        device + "p1"@
    } else {
        device + "1"@
    }
}

/// Map a whole-disk device node to the path of its first partition.
pub fn first_partition_path(device: &str) -> (r: String)
    ensures
        r@ == first_partition_text(device@),
{
    let v = chars_of(device);
    let mut k: usize = v.len();
    assert(v@.take(k as int) =~= v@);
    while k > 0 && v[k - 1] != '/'
        invariant
            k <= v@.len(),
            last_index_of(v@, '/') == last_index_of(v@.take(k as int), '/'),
        decreases k,
    {
        assert(v@.take(k as int).drop_last() =~= v@.take(k - 1));
        k = k - 1;
    }
    let name = slice_chars(&v, k, v.len());
    proof {
        if k > 0 {
            assert(v@.take(k as int).last() == '/');
            assert(last_index_of(v@, '/') == Some(k - 1));
        } else {
            assert(last_index_of(v@.take(0), '/') is None);
            assert(name@ =~= v@);
        }
    }
    let needs_p = starts_with(&name, &chars_of("nvme")) || starts_with(&name, &chars_of("mmcblk"));
    let mut out = v;
    if needs_p {
        append_chars(&mut out, &chars_of("p1"));
    } else {
        append_chars(&mut out, &chars_of("1"));
    }
    string_from_chars(&out)
}

/// What a job still needs fetched before the helper can run it.
#[derive(Debug, Clone, Copy, PartialEq, Eq, Structural)]
pub enum Prerequisite {
    /// Nothing; the job can be sent as it is.
    Nothing,
    /// The UEFI:NTFS bootloader image (a UEFI:NTFS layout without one).
    UefiNtfsImage,
    /// The FreeDOS kernel, shell and boot sector (FAT32 or FAT16 flavour).
    FreedosFiles { fat32: bool },
}

/// What `job` still needs fetched: the UEFI:NTFS image for a UEFI:NTFS
/// layout that has none, the FreeDOS files for a FreeDOS job whose kernel
/// path is empty.
pub open spec fn prerequisite_of(job: Job) -> Prerequisite {
    match job {
        Job::Partitioned { wim, uefi_ntfs_img, .. } => if wim == WimStrategy::UefiNtfs
            && uefi_ntfs_img is None {
            Prerequisite::UefiNtfsImage
        } else {
            Prerequisite::Nothing
        },
        Job::Freedos { kernel_sys, filesystem, .. } => if kernel_sys@.len() == 0 {
            Prerequisite::FreedosFiles { fat32: filesystem == FileSystem::Fat32 }
        } else {
            Prerequisite::Nothing
        },
        _ => Prerequisite::Nothing,
    }
}

/// What `job` still needs fetched before it is sent to the helper.
pub fn job_prerequisite(job: &Job) -> (r: Prerequisite)
    ensures
        r == prerequisite_of(*job),
{
    match job {
        Job::Partitioned { wim, uefi_ntfs_img, .. } => {
            let is_uefi_ntfs = match wim {
                WimStrategy::UefiNtfs => true,
                _ => false,
            };
            if is_uefi_ntfs && uefi_ntfs_img.is_none() {
                Prerequisite::UefiNtfsImage
            } else {
                Prerequisite::Nothing
            }
        },
        Job::Freedos { kernel_sys, filesystem, .. } => {
            if chars_of(kernel_sys.as_str()).len() == 0 {
                let fat32 = match filesystem {
                    FileSystem::Fat32 => true,
                    _ => false,
                };
                Prerequisite::FreedosFiles { fat32 }
            } else {
                Prerequisite::Nothing
            }
        },
        _ => Prerequisite::Nothing,
    }
}

/// Hand a UEFI:NTFS layout the path of the fetched bootloader image; other
/// jobs are left as they are.
pub fn provide_uefi_ntfs_image(job: &mut Job, path: String)
    ensures
        match *old(job) {
            Job::Partitioned {
                iso_path,
                device_path,
                table,
                filesystem,
                wim,
                persistence,
                windows_setup,
                install_bootloader,
                distro,
                opts,
                ..
            } => *final(job) == (Job::Partitioned {
                iso_path,
                device_path,
                table,
                filesystem,
                wim,
                uefi_ntfs_img: Some(path),
                persistence,
                windows_setup,
                install_bootloader,
                distro,
                opts,
            }),
            _ => *final(job) == *old(job),
        },
{
    if let Job::Partitioned { uefi_ntfs_img, .. } = job {
        *uefi_ntfs_img = Some(path);
    }
}

/// Hand a FreeDOS job the paths of the fetched kernel, shell and boot
/// sector; other jobs are left as they are.
pub fn provide_freedos_files(job: &mut Job, kernel: String, command: String, boot: String)
    ensures
        match *old(job) {
            Job::Freedos { device_path, table, filesystem, opts, .. } => *final(job) == (Job::Freedos {
                device_path,
                table,
                filesystem,
                kernel_sys: kernel,
                command_com: command,
                boot_bin: boot,
                opts,
            }),
            _ => *final(job) == *old(job),
        },
{
    if let Job::Freedos { kernel_sys, command_com, boot_bin, .. } = job {
        *kernel_sys = kernel;
        *command_com = command;
        *boot_bin = boot;
    }
}

/// The tally of the helper's progress stream: whether it reported success,
/// its last error, and the most bytes any progress message reported.
#[derive(Debug, Clone)]
pub struct JobTracker {
    /// A `Done` message arrived.
    pub saw_done: bool,
    /// The text of the last `Error` message.
    pub last_error: Option<String>,
    /// The largest `done` count seen.
    pub moved: u64,
}

impl JobTracker {
    /// Nothing seen yet.
    pub fn new() -> (r: Self)
        ensures
            !r.saw_done,
            r.last_error is None,
            r.moved == 0,
    {
        JobTracker { saw_done: false, last_error: None, moved: 0 }
    }

    /// Take one message into the tally. Returns the `(done, total)` of a
    /// progress message, for the rate and ETA display.
    pub fn observe(&mut self, msg: &ProgressMsg) -> (r: Option<(u64, u64)>)
        ensures
            match *msg {
                ProgressMsg::Done => {
                    &&& final(self).saw_done
                    &&& final(self).last_error == old(self).last_error
                    &&& final(self).moved == old(self).moved
                    &&& r is None
                },
                ProgressMsg::Error { text } => {
                    &&& final(self).saw_done == old(self).saw_done
                    &&& final(self).last_error == Some(text)
                    &&& final(self).moved == old(self).moved
                    &&& r is None
                },
                ProgressMsg::Progress { done, total, .. } => {
                    &&& final(self).saw_done == old(self).saw_done
                    &&& final(self).last_error == old(self).last_error
                    &&& final(self).moved == if done > old(self).moved {
                        done
                    } else {
                        old(self).moved
                    }
                    &&& r == Some((done, total))
                },
                _ => {
                    &&& *final(self) == *old(self)
                    &&& r is None
                },
            },
    {
        match msg {
            ProgressMsg::Done => {
                self.saw_done = true;
                None
            },
            ProgressMsg::Error { text } => {
                self.last_error = Some(text.clone());
                None
            },
            ProgressMsg::Progress { done, total, .. } => {
                if *done > self.moved {
                    self.moved = *done;
                }
                Some((*done, *total))
            },
            _ => None,
        }
    }
}

/// How the helper process ended, as the wait for it reported.
#[derive(Debug, Clone)]
pub enum HelperExit {
    /// It exited; `status` is the exit status as text (e.g. `exit status: 1`).
    Exited { success: bool, status: String },
    /// Waiting for it failed; `error` is the reason.
    WaitFailed { error: String },
}

/// The final verdict of a run and its message: success only when the helper
/// said `Done` and exited cleanly; else its last error, else what the exit
/// and its stderr say.
pub open spec fn outcome_spec(saw_done: bool, exit: HelperExit, last_error: Option<String>, stderr: Seq<char>) -> (bool, Seq<char>) {
    let exited_ok = match exit {
        HelperExit::Exited { success, .. } => success,
        HelperExit::WaitFailed { .. } => false,
    };
    if saw_done && exited_ok {
        (true, "Done \u{2014} the drive is ready"@)
    } else {
        match last_error {
            Some(e) => (false, e@),
            None => (
                false,
                match exit {
                    HelperExit::Exited { status, .. } => if trim(stderr).len() > 0 {
                        "Helper failed ("@ + status@ + "): "@ + trim(stderr)
                    } else {
                        "Helper exited unexpectedly ("@ + status@ + ")"@
                    },
                    HelperExit::WaitFailed { error } => "Helper could not be waited on: "@ + error@,
                },
            ),
        }
    }
}

/// Decide the final success flag and message of a run.
pub fn outcome(saw_done: bool, exit: &HelperExit, last_error: Option<String>, stderr: &str) -> (r: (bool, String))
    ensures
        (r.0, r.1@) == outcome_spec(saw_done, *exit, last_error, stderr@),
{
    let exited_ok = match exit {
        HelperExit::Exited { success, .. } => *success,
        HelperExit::WaitFailed { .. } => false,
    };
    if saw_done && exited_ok {
        return (true, string_from_chars(&chars_of("Done \u{2014} the drive is ready")));
    }
    if let Some(e) = last_error {
        return (false, e);
    }
    let mut out: Vec<char>;
    match exit {
        HelperExit::Exited { status, .. } => {
            let se = chars_of(stderr);
            let st = trim_chars(&se);
            if st.len() > 0 {
                out = chars_of("Helper failed (");
                append_chars(&mut out, &chars_of(status.as_str()));
                append_chars(&mut out, &chars_of("): "));
                append_chars(&mut out, &st);
            } else {
                out = chars_of("Helper exited unexpectedly (");
                append_chars(&mut out, &chars_of(status.as_str()));
                append_chars(&mut out, &chars_of(")"));
            }
        },
        HelperExit::WaitFailed { error } => {
            out = chars_of("Helper could not be waited on: ");
            append_chars(&mut out, &chars_of(error.as_str()));
        },
    }
    (false, string_from_chars(&out))
}

/// The device whose data partition is opened after a run: a successful
/// Ventoy install without a source ISO.
pub open spec fn ventoy_data_device_spec(job: Job, success: bool) -> Option<String> {
    if !success {
        None
    } else {
        match job {
            Job::Ventoy { iso_path: None, device_path, .. } => Some(device_path),
            _ => None,
        }
    }
}

/// The device whose fresh Ventoy data partition should be opened for the
/// user after the run, if any.
pub fn ventoy_data_device(job: &Job, success: bool) -> (r: Option<String>)
    ensures
        r == ventoy_data_device_spec(*job, success),
{
    if !success {
        return None;
    }
    match job {
        Job::Ventoy { iso_path: None, device_path, .. } => Some(device_path.clone()),
        _ => None,
    }
}

/// The piece of a line after its first ` at `, up to the next one
/// (`split(" at ").nth(1)`).
pub open spec fn after_at(line: Seq<char>) -> Option<Seq<char>> {
    match first_occ(line, " at "@, 0) {
        None => None,
        Some(p) => {
            let rest = line.subrange(p + 4, line.len() as int);
            Some(
                match first_occ(rest, " at "@, 0) {
                    Some(q) => rest.take(q),
                    None => rest,
                },
            )
        },
    }
}

/// The first line's piece after ` at `.
pub open spec fn first_after_at(lines: Seq<Seq<char>>) -> Option<Seq<char>>
    decreases lines.len(),
{
    if lines.len() == 0 {
        None
    } else {
        match after_at(lines[0]) {
            Some(x) => Some(x),
            None => first_after_at(lines.drop_first()),
        }
    }
}

/// `s` without its trailing dots.
pub open spec fn strip_trailing_dots(s: Seq<char>) -> Seq<char>
    decreases s.len(),
{
    if s.len() > 0 && s.last() == '.' {
        strip_trailing_dots(s.drop_last())
    } else {
        s
    }
}

/// Where `udisksctl mount` says it mounted the partition ("Mounted /dev/sdb1
/// at /run/media/user/Ventoy."): the first line's text after ` at `, without
/// trailing dots, trimmed.
pub open spec fn udisks_mount_point(stdout: Seq<u8>) -> Option<Seq<char>> {
    match first_after_at(str_lines(utf8_lossy(stdout))) {
        Some(x) => Some(trim(strip_trailing_dots(x))),
        None => None,
    }
}

fn after_at_exec(line: &Vec<char>) -> (r: Option<Vec<char>>)
    ensures
        match after_at(line@) {
            Some(x) => r matches Some(v) && v@ == x,
            None => r is None,
        },
{
    let sep = chars_of(" at ");
    proof {
        reveal_strlit(" at ");
    }
    assert(sep@.len() == 4);
    let p = match find_from(line, &sep, 0) {
        None => {
            return None;
        },
        Some(p) => p,
    };
    proof {
        lemma_first_occ(line@, sep@, 0);
    }
    assert(first_occ(line@, sep@, 0) == Some(p as int));
    assert(occurs_at(line@, sep@, p as int));
    assert(p + 4 <= line@.len());
    assert(line@.len() == line.len());
    let rest = slice_chars(line, p + 4, line.len());
    match find_from(&rest, &sep, 0) {
        Some(q) => {
            proof {
                lemma_first_occ(rest@, sep@, 0);
            }
            Some(slice_chars(&rest, 0, q))
        },
        None => {
            let all = slice_chars(&rest, 0, rest.len());
            assert(all@ =~= rest@);
            Some(all)
        },
    }
}

/// Read the mount point out of `udisksctl mount` output.
pub fn mount_point_from_udisksctl(stdout: &[u8]) -> (r: Option<String>)
    ensures
        match udisks_mount_point(stdout@) {
            Some(x) => r matches Some(s) && s@ == x,
            None => r is None,
        },
{
    let text = utf8_lossy_string(stdout);
    let chars = chars_of(text.as_str());
    let lines = lines_of(&chars);
    let ghost ls = str_lines(utf8_lossy(stdout@));
    let mut i: usize = 0;
    assert(ls.skip(0) =~= ls);
    while i < lines.len()
        invariant
            i <= lines@.len(),
            lines@.len() == ls.len(),
            ls == str_lines(utf8_lossy(stdout@)),
            forall|j: int| 0 <= j < lines@.len() ==> (#[trigger] lines@[j])@ == ls[j],
            first_after_at(ls) == first_after_at(ls.skip(i as int)),
        decreases lines@.len() - i,
    {
        assert(ls.skip(i as int)[0] == ls[i as int]);
        assert(ls.skip(i as int).drop_first() =~= ls.skip(i + 1));
        assert(lines@[i as int]@ == ls[i as int]);
        if let Some(x) = after_at_exec(&lines[i]) {
            assert(first_after_at(ls) == Some(x@));
            let mut k: usize = x.len();
            assert(x@.take(k as int) =~= x@);
            while k > 0 && x[k - 1] == '.'
                invariant
                    k <= x@.len(),
                    strip_trailing_dots(x@) == strip_trailing_dots(x@.take(k as int)),
                decreases k,
            {
                assert(x@.take(k as int).drop_last() =~= x@.take(k - 1));
                k -= 1;
            }
            let cut = slice_chars(&x, 0, k);
            assert(cut@ =~= x@.take(k as int));
            assert(strip_trailing_dots(cut@) == cut@);
            let t = trim_chars(&cut);
            assert(strip_trailing_dots(x@) == cut@);
            assert(udisks_mount_point(stdout@) == Some(t@));
            return Some(string_from_chars(&t));
        }
        i += 1;
    }
    None
}

/// Escaped text holds no `<`, `>` or `"`: whatever a message contains, the
/// log shows it as text and never as markup.
pub proof fn law_escaped_text_has_no_markup(s: Seq<char>)
    ensures
        forall|i: int| 0 <= i < html_escaped(s).len() ==> {
            let c = #[trigger] html_escaped(s)[i];
            c != '<' && c != '>' && c != '"'
        },
    decreases s.len(),
{
    if s.len() > 0 {
        law_escaped_text_has_no_markup(s.drop_last());
        let e = escape_char(s.last());
        reveal_strlit("&amp;");
        reveal_strlit("&lt;");
        reveal_strlit("&gt;");
        reveal_strlit("&quot;");
        assert forall|i: int| 0 <= i < html_escaped(s).len() implies {
            let c = #[trigger] html_escaped(s)[i];
            c != '<' && c != '>' && c != '"'
        } by {
            let p = html_escaped(s.drop_last());
            if i >= p.len() {
                assert(html_escaped(s)[i] == e[i - p.len()]);
            } else {
                assert(html_escaped(s)[i] == p[i]);
            }
        }
    }
}

/// A run is reported successful only when the helper said `Done`: without
/// it the run fails, whatever the helper's exit status; with it and a clean
/// exit it succeeds.
pub proof fn law_success_needs_done(exit: HelperExit, last_error: Option<String>, stderr: Seq<char>)
    ensures
        !outcome_spec(false, exit, last_error, stderr).0,
        (exit matches HelperExit::Exited { success, .. } && success) ==> outcome_spec(true, exit, last_error, stderr).0,
        (exit matches HelperExit::Exited { success, .. } && !success) ==> !outcome_spec(true, exit, last_error, stderr).0,
{
}

} // verus!
