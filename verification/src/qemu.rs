//! Boot-testing a target device in QEMU: what the host offers, the exact
//! command line (QEMU's arguments, the forwarded session environment, the
//! shell wrapper that unmounts the device or runs a virtual TPM), the
//! activity-log lines that describe it, and the report when QEMU dies at
//! once. Probing files, spawning `pkexec` and waiting happen outside.
//!
//! By default the device is attached with `snapshot=on`, so every write
//! goes to a throwaway overlay and the physical device is never modified.
use crate::text::{
    append_chars, chars_of, decimal, decimal_chars, is_prefix, is_ws, lines_of, seq_contains,
    starts_with, str_lines, string_from_chars, to_lowercase_unicode, trim, trim_chars,
    unicode_lower, contains, parse_u64_chars, parse_u64_spec,
};
use vstd::prelude::*;

verus! {

/// What the host can offer for a boot test.
#[derive(Debug, Clone, Copy, PartialEq, Eq, Structural)]
pub struct Caps {
    /// `qemu-system-x86_64` is installed.
    pub qemu: bool,
    /// `/dev/kvm` exists, so hardware acceleration is available.
    pub kvm: bool,
    /// OVMF firmware is present, so UEFI boot can be offered.
    pub uefi: bool,
    /// `swtpm` is installed, so a virtual TPM 2.0 can be attached.
    pub tpm: bool,
}

/// The boot test's settings, from the dialog's controls.
#[derive(Debug, Clone, Copy, PartialEq, Eq, Structural)]
pub struct BootConfig {
    /// Guest RAM in MiB.
    pub mem_mb: u32,
    /// Number of vCPUs.
    pub cpus: u32,
    /// 0 = BIOS (SeaBIOS), 1 = UEFI (OVMF), 2 = UEFI + Secure Boot (OVMF).
    pub firmware: u32,
    /// `true` = q35 chipset, `false` = legacy i440fx (QEMU's "pc").
    pub q35: bool,
    /// Attach an Intel HD Audio device routed to the host's audio.
    pub audio: bool,
    /// KVM hardware acceleration.
    pub kvm: bool,
    /// Attach a user-mode NIC (internet) versus no network.
    pub network: bool,
    /// `true` = snapshot mode (discard writes); `false` = persist to the device.
    pub snapshot: bool,
}

/// The split OVMF firmware pairs (CODE, VARS) for UEFI boot, most modern
/// first.
pub open spec fn ovmf_pairs_spec() -> Seq<(Seq<char>, Seq<char>)> {
    seq![
        ("/usr/share/edk2/x64/OVMF_CODE.4m.fd"@, "/usr/share/edk2/x64/OVMF_VARS.4m.fd"@),
        ("/usr/share/edk2/x64/OVMF_CODE.fd"@, "/usr/share/edk2/x64/OVMF_VARS.fd"@),
        ("/usr/share/OVMF/OVMF_CODE_4M.fd"@, "/usr/share/OVMF/OVMF_VARS_4M.fd"@),
        ("/usr/share/OVMF/OVMF_CODE.fd"@, "/usr/share/OVMF/OVMF_VARS.fd"@),
        ("/usr/share/edk2/ovmf/OVMF_CODE.fd"@, "/usr/share/edk2/ovmf/OVMF_VARS.fd"@),
        ("/usr/share/qemu/ovmf-x86_64-code.bin"@, "/usr/share/qemu/ovmf-x86_64-vars.bin"@),
    ]
}

/// The Secure Boot OVMF pairs (the `*.secboot.*` CODE image and a VARS
/// template), most modern first.
pub open spec fn secboot_pairs_spec() -> Seq<(Seq<char>, Seq<char>)> {
    seq![
        ("/usr/share/edk2/x64/OVMF_CODE.secboot.4m.fd"@, "/usr/share/edk2/x64/OVMF_VARS.4m.fd"@),
        ("/usr/share/edk2/x64/OVMF_CODE.secboot.fd"@, "/usr/share/edk2/x64/OVMF_VARS.fd"@),
        ("/usr/share/OVMF/OVMF_CODE_4M.secboot.fd"@, "/usr/share/OVMF/OVMF_VARS_4M.fd"@),
        ("/usr/share/OVMF/OVMF_CODE.secboot.fd"@, "/usr/share/OVMF/OVMF_VARS.fd"@),
        ("/usr/share/edk2/ovmf/OVMF_CODE.secboot.fd"@, "/usr/share/edk2/ovmf/OVMF_VARS.fd"@),
    ]
}

/// Where `swtpm` is looked for (it often lives outside a desktop `PATH`).
pub open spec fn swtpm_candidates_spec() -> Seq<Seq<char>> {
    seq!["/usr/bin/swtpm"@, "/usr/sbin/swtpm"@, "/bin/swtpm"@, "/sbin/swtpm"@]
}

fn lit(s: &str) -> (r: String)
    ensures
        r@ == s@,
{
    string_from_chars(&chars_of(s))
}

fn pair(a: &str, b: &str) -> (r: (String, String))
    ensures
        r.0@ == a@,
        r.1@ == b@,
{
    (lit(a), lit(b))
}

/// The characters of each string.
pub open spec fn strs(v: Seq<String>) -> Seq<Seq<char>> {
    Seq::new(v.len(), |i: int| v[i]@)
}

/// The characters of each pair of strings.
pub open spec fn str_pairs(v: Seq<(String, String)>) -> Seq<(Seq<char>, Seq<char>)> {
    Seq::new(v.len(), |i: int| (v[i].0@, v[i].1@))
}

fn push_pair(v: &mut Vec<(String, String)>, p: (String, String))
    ensures
        str_pairs(final(v)@) == str_pairs(old(v)@).push((p.0@, p.1@)),
{
    v.push(p);
    assert(str_pairs(v@) =~= str_pairs(old(v)@).push((p.0@, p.1@)));
}

fn push_s(v: &mut Vec<String>, s: String)
    ensures
        strs(final(v)@) == strs(old(v)@).push(s@),
{
    v.push(s);
    assert(strs(v@) =~= strs(old(v)@).push(s@));
}

/// The UEFI firmware pairs, in the order they are tried.
pub fn ovmf_pairs() -> (r: Vec<(String, String)>)
    ensures
        str_pairs(r@) == ovmf_pairs_spec(),
{
    let mut v: Vec<(String, String)> = Vec::new();
    assert(str_pairs(v@) =~= Seq::<(Seq<char>, Seq<char>)>::empty());
    push_pair(&mut v, pair("/usr/share/edk2/x64/OVMF_CODE.4m.fd", "/usr/share/edk2/x64/OVMF_VARS.4m.fd"));
    push_pair(&mut v, pair("/usr/share/edk2/x64/OVMF_CODE.fd", "/usr/share/edk2/x64/OVMF_VARS.fd"));
    push_pair(&mut v, pair("/usr/share/OVMF/OVMF_CODE_4M.fd", "/usr/share/OVMF/OVMF_VARS_4M.fd"));
    push_pair(&mut v, pair("/usr/share/OVMF/OVMF_CODE.fd", "/usr/share/OVMF/OVMF_VARS.fd"));
    push_pair(&mut v, pair("/usr/share/edk2/ovmf/OVMF_CODE.fd", "/usr/share/edk2/ovmf/OVMF_VARS.fd"));
    push_pair(&mut v, pair("/usr/share/qemu/ovmf-x86_64-code.bin", "/usr/share/qemu/ovmf-x86_64-vars.bin"));
    v
}

/// The Secure Boot firmware pairs, in the order they are tried.
pub fn secboot_pairs() -> (r: Vec<(String, String)>)
    ensures
        str_pairs(r@) == secboot_pairs_spec(),
{
    let mut v: Vec<(String, String)> = Vec::new();
    assert(str_pairs(v@) =~= Seq::<(Seq<char>, Seq<char>)>::empty());
    push_pair(&mut v, pair("/usr/share/edk2/x64/OVMF_CODE.secboot.4m.fd", "/usr/share/edk2/x64/OVMF_VARS.4m.fd"));
    push_pair(&mut v, pair("/usr/share/edk2/x64/OVMF_CODE.secboot.fd", "/usr/share/edk2/x64/OVMF_VARS.fd"));
    push_pair(&mut v, pair("/usr/share/OVMF/OVMF_CODE_4M.secboot.fd", "/usr/share/OVMF/OVMF_VARS_4M.fd"));
    push_pair(&mut v, pair("/usr/share/OVMF/OVMF_CODE.secboot.fd", "/usr/share/OVMF/OVMF_VARS.fd"));
    push_pair(&mut v, pair("/usr/share/edk2/ovmf/OVMF_CODE.secboot.fd", "/usr/share/edk2/ovmf/OVMF_VARS.fd"));
    v
}

/// The places `swtpm` is looked for, in order.
pub fn swtpm_candidates() -> (r: Vec<String>)
    ensures
        strs(r@) == swtpm_candidates_spec(),
{
    let mut v: Vec<String> = Vec::new();
    assert(strs(v@) =~= Seq::<Seq<char>>::empty());
    push_s(&mut v, lit("/usr/bin/swtpm"));
    push_s(&mut v, lit("/usr/sbin/swtpm"));
    push_s(&mut v, lit("/bin/swtpm"));
    push_s(&mut v, lit("/sbin/swtpm"));
    v
}

/// The first pair whose two files are both present.
pub open spec fn first_complete(present: Seq<(bool, bool)>, i: int) -> Option<int>
    decreases present.len() - i,
{
    if i < 0 || i >= present.len() {
        None
    } else if present[i].0 && present[i].1 {
        Some(i)
    } else {
        first_complete(present, i + 1)
    }
}

/// The index of the first firmware pair whose CODE and VARS files are both
/// present (`present[i]` tells, for pair `i`, whether each file exists).
pub fn first_complete_pair(present: &[(bool, bool)]) -> (r: Option<usize>)
    ensures
        match first_complete(present@, 0) {
            Some(i) => r == Some(i as usize),
            None => r is None,
        },
{
    let mut i: usize = 0;
    while i < present.len()
        invariant
            i <= present@.len(),
            first_complete(present@, 0) == first_complete(present@, i as int),
        decreases present@.len() - i,
    {
        if present[i].0 && present[i].1 {
            return Some(i);
        }
        i += 1;
    }
    None
}

/// Whether OVMF UEFI firmware is installed (`present[i]`: whether each file
/// of [`ovmf_pairs`]`()[i]` exists).
pub fn uefi_available(present: &[(bool, bool)]) -> (r: bool)
    ensures
        r == first_complete(present@, 0) is Some,
{
    first_complete_pair(present).is_some()
}

/// Whether a Secure Boot OVMF build is installed (`present[i]`: whether each
/// file of [`secboot_pairs`]`()[i]` exists).
pub fn secureboot_available(present: &[(bool, bool)]) -> (r: bool)
    ensures
        r == first_complete(present@, 0) is Some,
{
    first_complete_pair(present).is_some()
}

/// The host's boot-test capabilities from what was probed: whether QEMU is
/// on the path, whether `/dev/kvm` exists, which OVMF files exist, and which
/// `swtpm` candidates exist.
pub fn detect(qemu: bool, kvm: bool, ovmf_present: &[(bool, bool)], swtpm_present: &[bool]) -> (r: Caps)
    ensures
        r.qemu == qemu,
        r.kvm == kvm,
        r.uefi == first_complete(ovmf_present@, 0) is Some,
        r.tpm == exists|i: int| 0 <= i < swtpm_present@.len() && swtpm_present@[i],
{
    let mut tpm = false;
    let mut i: usize = 0;
    while i < swtpm_present.len()
        invariant
            i <= swtpm_present@.len(),
            tpm == exists|j: int| 0 <= j < i && swtpm_present@[j],
        decreases swtpm_present@.len() - i,
    {
        if swtpm_present[i] {
            tpm = true;
        }
        i += 1;
    }
    Caps { qemu, kvm, uefi: uefi_available(ovmf_present), tpm }
}

/// The first token of `s` (`split_whitespace().next()`).
pub open spec fn first_token(s: Seq<char>) -> Option<Seq<char>> {
    let t = trim(s);
    if t.len() == 0 {
        None
    } else {
        Some(t.take(token_end(t, 0)))
    }
}

/// The end of the run of non-white-space characters of `t` from `i`.
pub open spec fn token_end(t: Seq<char>, i: int) -> int
    decreases t.len() - i,
{
    if i < 0 || i >= t.len() || is_ws(t[i]) {
        i
    } else {
        token_end(t, i + 1)
    }
}

/// The `MemTotal` of a `/proc/meminfo` line, in kB, when the line has one.
pub open spec fn mem_total_kb(line: Seq<char>) -> Option<u64> {
    if is_prefix("MemTotal:"@, line) {
        match first_token(line.subrange(9, line.len() as int)) {
            Some(tok) => parse_u64_spec(tok),
            None => None,
        }
    } else {
        None
    }
}

/// The first line's `MemTotal`.
pub open spec fn first_mem_total(lines: Seq<Seq<char>>) -> Option<u64>
    decreases lines.len(),
{
    if lines.len() == 0 {
        None
    } else {
        match mem_total_kb(lines[0]) {
            Some(k) => Some(k),
            None => first_mem_total(lines.drop_first()),
        }
    }
}

/// The host's RAM in MiB from `/proc/meminfo` (its text, when it could be
/// read): `MemTotal` divided by 1024 (cut to 32 bits), or 4096 when it
/// cannot be found.
pub open spec fn ram_mb_spec(meminfo: Option<Seq<char>>) -> u32 {
    match meminfo {
        Some(t) => match first_mem_total(str_lines(t)) {
            Some(kb) => ((kb / 1024) % 0x1_0000_0000) as u32,
            None => 4096,
        },
        None => 4096,
    }
}

fn first_token_exec(s: &Vec<char>) -> (r: Option<Vec<char>>)
    ensures
        match first_token(s@) {
            Some(t) => r matches Some(v) && v@ == t,
            None => r is None,
        },
{
    let t = trim_chars(s);
    if t.len() == 0 {
        return None;
    }
    let mut i: usize = 0;
    while i < t.len() && !crate::text::char_is_ws(t[i])
        invariant
            i <= t@.len(),
            token_end(t@, 0) == token_end(t@, i as int),
        decreases t@.len() - i,
    {
        i += 1;
    }
    Some(crate::text::slice_chars(&t, 0, i))
}

/// The upper bound for the boot test's memory slider: the host's RAM in MiB
/// from the text of `/proc/meminfo`, or 4096.
pub fn host_ram_mb(meminfo: Option<&str>) -> (r: u32)
    ensures
        r == ram_mb_spec(
            match meminfo {
                Some(t) => Some(t@),
                None => None,
            },
        ),
{
    let text = match meminfo {
        Some(t) => t,
        None => {
            return 4096;
        },
    };
    let chars = chars_of(text);
    let lines = lines_of(&chars);
    let ghost ls = str_lines(text@);
    let prefix = chars_of("MemTotal:");
    proof {
        reveal_strlit("MemTotal:");
    }
    assert(prefix@.len() == 9);
    let mut i: usize = 0;
    assert(ls.skip(0) =~= ls);
    while i < lines.len()
        invariant
            i <= lines@.len(),
            lines@.len() == ls.len(),
            ls == str_lines(text@),
            meminfo matches Some(t) && t@ == text@,
            prefix@ == "MemTotal:"@,
            prefix@.len() == 9,
            forall|j: int| 0 <= j < lines@.len() ==> (#[trigger] lines@[j])@ == ls[j],
            first_mem_total(ls) == first_mem_total(ls.skip(i as int)),
        decreases lines@.len() - i,
    {
        assert(ls.skip(i as int)[0] == ls[i as int]);
        assert(ls.skip(i as int).drop_first() =~= ls.skip(i + 1));
        let line = &lines[i];
        assert(line@ == ls[i as int]);
        if starts_with(line, &prefix) {
            let rest = crate::text::slice_chars(line, 9, line.len());
            if let Some(tok) = first_token_exec(&rest) {
                if let Some(kb) = parse_u64_chars(&tok) {
                    let mb = kb / 1024;
                    assert(mem_total_kb(ls[i as int]) == Some(kb));
                    assert(first_mem_total(ls) == Some(kb));
                    assert(ram_mb_spec(Some(text@)) == ((kb / 1024) % 0x1_0000_0000) as u32);
                    let res = (mb % 0x1_0000_0000) as u32;
                    assert(res == ((kb / 1024) % 0x1_0000_0000) as u32);
                    return res;
                }
            }
        }
        assert(mem_total_kb(ls[i as int]) is None);
        i += 1;
    }
    4096
}

/// The desktop-session environment forwarded to the root-owned QEMU (each
/// `None` when unset or not Unicode), and the user's home directory.
#[derive(Debug, Clone)]
pub struct SessionEnv {
    pub wayland_display: Option<String>,
    pub display: Option<String>,
    pub xdg_runtime_dir: Option<String>,
    pub xauthority: Option<String>,
    pub xdg_session_type: Option<String>,
    pub pulse_server: Option<String>,
    pub pulse_cookie: Option<String>,
    pub home: Option<String>,
}

/// The characters of an optional string.
pub open spec fn ostr(o: Option<String>) -> Option<Seq<char>> {
    match o {
        Some(s) => Some(s@),
        None => None,
    }
}

/// The forwarded variables, by name, in the order they are passed.
pub open spec fn env_pairs(e: SessionEnv) -> Seq<(Seq<char>, Option<Seq<char>>)> {
    seq![
        ("WAYLAND_DISPLAY"@, ostr(e.wayland_display)),
        ("DISPLAY"@, ostr(e.display)),
        ("XDG_RUNTIME_DIR"@, ostr(e.xdg_runtime_dir)),
        ("XAUTHORITY"@, ostr(e.xauthority)),
        ("XDG_SESSION_TYPE"@, ostr(e.xdg_session_type)),
        ("PULSE_SERVER"@, ostr(e.pulse_server)),
        ("PULSE_COOKIE"@, ostr(e.pulse_cookie)),
    ]
}

/// `NAME=value` for each set, non-empty variable.
pub open spec fn set_vars(ps: Seq<(Seq<char>, Option<Seq<char>>)>) -> Seq<Seq<char>>
    decreases ps.len(),
{
    if ps.len() == 0 {
        seq![]
    } else {
        let prev = set_vars(ps.drop_last());
        match ps.last().1 {
            Some(v) => if v.len() > 0 {
                prev.push(ps.last().0 + "="@ + v)
            } else {
                prev
            },
            None => prev,
        }
    }
}

/// Where the user's PulseAudio cookie lives under their home directory.
pub open spec fn cookie_path_spec(home: Seq<char>) -> Seq<char> {
    home + "/.config/pulse/cookie"@
}

/// Where the user's PulseAudio cookie lives under their home directory.
pub fn pulse_cookie_path(home: &str) -> (r: String)
    ensures
        r@ == cookie_path_spec(home@),
{
    let mut v = chars_of(home);
    append_chars(&mut v, &chars_of("/.config/pulse/cookie"));
    string_from_chars(&v)
}

/// The environment passed to QEMU: the set session variables and, for an
/// audio test without `PULSE_COOKIE`, the user's cookie file when it exists.
pub open spec fn envs_spec(cfg: BootConfig, e: SessionEnv, cookie_exists: bool) -> Seq<Seq<char>> {
    let base = set_vars(env_pairs(e));
    let has_cookie = exists|i: int| 0 <= i < base.len() && is_prefix("PULSE_COOKIE="@, #[trigger] base[i]);
    if cfg.audio && !has_cookie && e.home is Some && cookie_exists {
        base.push("PULSE_COOKIE="@ + cookie_path_spec(e.home->0@))
    } else {
        base
    }
}

/// `v` clamped into `[lo, hi]`.
pub open spec fn clamp(v: int, lo: int, hi: int) -> int {
    if v < lo {
        lo
    } else if v > hi {
        hi
    } else {
        v
    }
}

/// Guest memory in MiB: the setting clamped to 256..65536.
pub open spec fn mem_spec(cfg: BootConfig) -> nat {
    clamp(cfg.mem_mb as int, 256, 65536) as nat
}

/// vCPUs: the setting clamped to 1..(host CPUs, at least 1).
pub open spec fn smp_spec(cfg: BootConfig, host_cpus: u32) -> nat {
    clamp(cfg.cpus as int, 1, if host_cpus >= 1 { host_cpus as int } else { 1 }) as nat
}

/// The Hyper-V enlightenments passed with KVM.
pub open spec fn hv_cpu() -> Seq<char> {
    "host,hv_relaxed,hv_vapic,hv_time,hv_spinlocks=0x1fff,hv_vpindex,hv_runtime,hv_synic,hv_stimer,hv_reset,hv_frequencies"@
}

/// QEMU's arguments before the optional parts.
pub open spec fn base_args(device: Seq<char>, cfg: BootConfig, mem: nat, smp: nat) -> Seq<Seq<char>> {
    seq![
        "qemu-system-x86_64"@,
        "-name"@,
        "usbooty boot test: "@ + device,
        "-machine"@,
        if cfg.q35 { "q35"@ } else { "pc"@ },
        "-m"@,
        decimal(mem),
        "-smp"@,
        "cores="@ + decimal(smp) + ",sockets=1"@,
        "-display"@,
        "gtk,zoom-to-fit=on"@,
        "-device"@,
        "qemu-xhci,id=xhci"@,
        "-drive"@,
        "if=none,id=usbstick,format=raw,snapshot="@ + (if cfg.snapshot { "on"@ } else { "off"@ }) + ",file="@ + device,
        "-device"@,
        "usb-storage,bus=xhci.0,drive=usbstick,bootindex=0"@,
        "-device"@,
        "usb-tablet,bus=xhci.0"@,
        "-boot"@,
        "menu=on"@,
        "-nic"@,
        if cfg.network { "user,model=e1000"@ } else { "none"@ },
    ]
}

/// The audio backend: PulseAudio, pointed at the user's socket when the
/// runtime directory is known.
pub open spec fn audiodev_spec(runtime: Option<Seq<char>>) -> Seq<char> {
    match runtime {
        Some(rt) => if rt.len() > 0 {
            "pa,id=snd0"@ + ",server=unix:"@ + rt + "/pulse/native"@
        } else {
            "pa,id=snd0"@
        },
        None => "pa,id=snd0"@,
    }
}

/// QEMU's complete arguments, given the firmware pair for a UEFI boot.
pub open spec fn qemu_args_spec(
    device: Seq<char>,
    cfg: BootConfig,
    host_cpus: u32,
    e: SessionEnv,
    firmware: Option<(Seq<char>, Seq<char>)>,
) -> Seq<Seq<char>> {
    let base = base_args(device, cfg, mem_spec(cfg), smp_spec(cfg, host_cpus));
    let k = if cfg.kvm {
        seq!["-enable-kvm"@, "-cpu"@, hv_cpu()]
    } else {
        seq![]
    };
    let a = if cfg.audio {
        seq![
            "-audiodev"@,
            audiodev_spec(ostr(e.xdg_runtime_dir)),
            "-device"@,
            "intel-hda"@,
            "-device"@,
            "hda-duplex,audiodev=snd0"@,
        ]
    } else {
        seq![]
    };
    let u = match firmware {
        Some((code, vars)) => seq![
            "-drive"@,
            "if=pflash,format=raw,unit=0,readonly=on,file="@ + code,
            "-drive"@,
            "if=pflash,format=raw,unit=1,snapshot=on,file="@ + vars,
        ],
        None => seq![],
    };
    base + k + a + u
}

/// The shell script wrapped around QEMU when the device must be unmounted
/// first (snapshot off) or a virtual TPM must run beside it.
pub open spec fn script_spec(snapshot: bool, swtpm: Option<Seq<char>>) -> Seq<char> {
    "dev=\"$1\"; shift\n"@ + (if !snapshot {
        "for p in \"$dev\"*; do [ \"$p\" != \"$dev\" ] && umount \"$p\" 2>/dev/null; done\n"@
    } else {
        Seq::empty()
    }) + match swtpm {
        Some(sw) => "tpmdir=$(mktemp -d); sock=\"$tpmdir/swtpm.sock\"\n"@ + sw
            + " socket --tpmstate \"dir=$tpmdir\" --ctrl \"type=unixio,path=$sock\" --tpm2 --terminate >/dev/null 2>&1 &\nswp=$!\nn=0; while [ ! -S \"$sock\" ] && [ $n -lt 50 ]; do n=$((n+1)); sleep 0.1; done\n\"$@\" -chardev \"socket,id=chrtpm,path=$sock\" -tpmdev emulator,id=tpm0,chardev=chrtpm -device tpm-tis,tpmdev=tpm0\nkill \"$swp\" 2>/dev/null; rm -rf \"$tpmdir\"\n"@,
        None => "exec \"$@\"\n"@,
    }
}

/// The arguments given to `pkexec`: `env` with the session variables and
/// QEMU directly, or the shell wrapper (with the device as `$1`) around them.
pub open spec fn pkexec_args_spec(
    device: Seq<char>,
    snapshot: bool,
    swtpm: Option<Seq<char>>,
    envs: Seq<Seq<char>>,
    qemu: Seq<Seq<char>>,
) -> Seq<Seq<char>> {
    if snapshot && swtpm is None {
        seq!["/usr/bin/env"@] + envs + qemu
    } else {
        seq!["sh"@, "-c"@, script_spec(snapshot, swtpm), "usbooty-boot-test"@, device, "/usr/bin/env"@] + envs
            + qemu
    }
}

/// `true` or `false`.
pub open spec fn bool_text(b: bool) -> Seq<char> {
    if b {
        "true"@
    } else {
        "false"@
    }
}

/// The strings joined with single spaces.
pub open spec fn join_spaces(ls: Seq<Seq<char>>) -> Seq<char>
    decreases ls.len(),
{
    if ls.len() == 0 {
        seq![]
    } else if ls.len() == 1 {
        ls[0]
    } else {
        join_spaces(ls.drop_last()) + " "@ + ls.last()
    }
}

/// The summary line logged for a launch.
pub open spec fn summary_line(device: Seq<char>, cfg: BootConfig, mem: nat, smp: nat, tpm: bool) -> Seq<char> {
    "Boot test "@ + device + ": "@ + decimal(mem) + " MiB, "@ + decimal(smp) + " vCPU, firmware="@ + (
    if cfg.firmware == 0 {
        "BIOS"@
    } else if cfg.firmware == 1 {
        "UEFI"@
    } else {
        "UEFI+SecureBoot"@
    }) + ", machine="@ + (if cfg.q35 { "q35"@ } else { "i440fx"@ }) + ", kvm="@ + bool_text(cfg.kvm) + ", network="@
        + bool_text(cfg.network) + ", snapshot="@ + bool_text(cfg.snapshot) + ", audio="@ + bool_text(cfg.audio)
        + ", tpm="@ + bool_text(tpm)
}

/// The activity-log lines describing a launch: the summary, the persistence
/// warning, the TPM, the forwarded environment and the QEMU command line.
pub open spec fn log_spec(
    device: Seq<char>,
    cfg: BootConfig,
    host_cpus: u32,
    swtpm: Option<Seq<char>>,
    envs: Seq<Seq<char>>,
    qemu: Seq<Seq<char>>,
) -> Seq<Seq<char>> {
    let l1 = seq![summary_line(device, cfg, mem_spec(cfg), smp_spec(cfg, host_cpus), swtpm is Some)];
    let l2 = if !cfg.snapshot {
        l1.push("snapshot off \u{2192} unmounting the device's partitions first; writes persist to the device"@)
    } else {
        l1
    };
    let l3 = match swtpm {
        Some(sw) => l2.push("virtual TPM: "@ + sw + " (tpm-tis, TPM 2.0)"@),
        None => l2,
    };
    let l4 = if envs.len() > 0 {
        l3.push("forwarded env: "@ + join_spaces(envs))
    } else {
        l3
    };
    l4.push("qemu: "@ + join_spaces(qemu))
}

/// The firmware pair a configuration needs: none for BIOS, the Secure Boot
/// pair for firmware 2, the plain OVMF pair otherwise.
pub open spec fn firmware_needed(
    cfg: BootConfig,
    ovmf: Option<(String, String)>,
    secboot: Option<(String, String)>,
) -> Result<Option<(Seq<char>, Seq<char>)>, Seq<char>> {
    if cfg.firmware == 0 {
        Ok(None)
    } else if cfg.firmware == 2 {
        match secboot {
            Some(p) => Ok(Some((p.0@, p.1@))),
            None => Err("Secure Boot OVMF firmware not found; install edk2-ovmf / ovmf"@),
        }
    } else {
        match ovmf {
            Some(p) => Ok(Some((p.0@, p.1@))),
            None => Err("UEFI firmware (OVMF) not found; install edk2-ovmf / ovmf"@),
        }
    }
}

/// The characters of an optional pair of strings.
pub open spec fn opt_pair_view(o: Option<(String, String)>) -> Option<(Seq<char>, Seq<char>)> {
    match o {
        Some(p) => Some((p.0@, p.1@)),
        None => None,
    }
}

/// Everything needed to start a boot test.
#[derive(Debug, Clone)]
pub struct LaunchPlan {
    /// QEMU's command line (program first).
    pub qemu: Vec<String>,
    /// The forwarded `NAME=value` environment.
    pub envs: Vec<String>,
    /// The arguments of `pkexec`.
    pub pkexec_args: Vec<String>,
    /// The lines to show in the activity log, in order.
    pub log: Vec<String>,
}

fn join_with_spaces(ls: &Vec<String>) -> (r: Vec<char>)
    ensures
        r@ == join_spaces(strs(ls@)),
{
    let ghost views = strs(ls@);
    let mut r: Vec<char> = Vec::new();
    let mut i: usize = 0;
    while i < ls.len()
        invariant
            i <= ls@.len(),
            views == strs(ls@),
            r@ == join_spaces(views.take(i as int)),
        decreases ls@.len() - i,
    {
        assert(views.take(i + 1).drop_last() =~= views.take(i as int));
        if i > 0 {
            append_chars(&mut r, &chars_of(" "));
        }
        append_chars(&mut r, &chars_of(ls[i].as_str()));
        assert(views.take(i + 1).last() == ls@[i as int]@);
        if i == 0 {
            assert(r@ =~= views.take(1)[0]);
        } else {
            assert(r@ =~= join_spaces(views.take(i as int)) + " "@ + views.take(i + 1).last());
        }
        i += 1;
    }
    assert(views.take(i as int) =~= views);
    r
}

fn bool_str(b: bool) -> (r: &'static str)
    ensures
        r@ == bool_text(b),
{
    if b {
        "true"
    } else {
        "false"
    }
}

fn push_var(envs: &mut Vec<String>, name: &str, value: &Option<String>)
    ensures
        match ostr(*value) {
            Some(v) => if v.len() > 0 {
                strs(final(envs)@) == strs(old(envs)@).push(name@ + "="@ + v)
            } else {
                strs(final(envs)@) == strs(old(envs)@)
            },
            None => strs(final(envs)@) == strs(old(envs)@),
        },
{
    if let Some(v) = value {
        let vc = chars_of(v.as_str());
        if vc.len() > 0 {
            let mut s = chars_of(name);
            append_chars(&mut s, &chars_of("="));
            append_chars(&mut s, &vc);
            push_s(envs, string_from_chars(&s));
        }
    }
}

/// The decimal text of a number.
fn dec(n: u64) -> (r: String)
    ensures
        r@ == decimal(n as nat),
{
    string_from_chars(&decimal_chars(n))
}

fn build_base_args(dv: &Vec<char>, cfg: &BootConfig, mem: u32, smp: u32) -> (r: Vec<String>)
    ensures
        strs(r@) == base_args(dv@, *cfg, mem as nat, smp as nat),
{
    let mut qemu: Vec<String> = Vec::new();
    assert(strs(qemu@) =~= Seq::<Seq<char>>::empty());
    push_s(&mut qemu, lit("qemu-system-x86_64"));
    push_s(&mut qemu, lit("-name"));
    let mut name = chars_of("usbooty boot test: ");
    append_chars(&mut name, dv);
    push_s(&mut qemu, string_from_chars(&name));
    push_s(&mut qemu, lit("-machine"));
    push_s(&mut qemu, if cfg.q35 { lit("q35") } else { lit("pc") });
    push_s(&mut qemu, lit("-m"));
    push_s(&mut qemu, dec(mem as u64));
    push_s(&mut qemu, lit("-smp"));
    let mut cores = chars_of("cores=");
    append_chars(&mut cores, &decimal_chars(smp as u64));
    append_chars(&mut cores, &chars_of(",sockets=1"));
    push_s(&mut qemu, string_from_chars(&cores));
    push_s(&mut qemu, lit("-display"));
    push_s(&mut qemu, lit("gtk,zoom-to-fit=on"));
    push_s(&mut qemu, lit("-device"));
    push_s(&mut qemu, lit("qemu-xhci,id=xhci"));
    push_s(&mut qemu, lit("-drive"));
    let mut drive = chars_of("if=none,id=usbstick,format=raw,snapshot=");
    append_chars(&mut drive, &chars_of(if cfg.snapshot { "on" } else { "off" }));
    append_chars(&mut drive, &chars_of(",file="));
    append_chars(&mut drive, dv);
    push_s(&mut qemu, string_from_chars(&drive));
    push_s(&mut qemu, lit("-device"));
    push_s(&mut qemu, lit("usb-storage,bus=xhci.0,drive=usbstick,bootindex=0"));
    push_s(&mut qemu, lit("-device"));
    push_s(&mut qemu, lit("usb-tablet,bus=xhci.0"));
    push_s(&mut qemu, lit("-boot"));
    push_s(&mut qemu, lit("menu=on"));
    push_s(&mut qemu, lit("-nic"));
    push_s(&mut qemu, if cfg.network { lit("user,model=e1000") } else { lit("none") });
    assert(strs(qemu@) =~= base_args(dv@, *cfg, mem as nat, smp as nat));
    qemu
}

fn build_qemu_args(
    dv: &Vec<char>,
    cfg: &BootConfig,
    mem: u32,
    smp: u32,
    runtime: &Option<String>,
    fw: &Option<(String, String)>,
    Ghost(host_cpus): Ghost<u32>,
    Ghost(env): Ghost<SessionEnv>,
) -> (r: Vec<String>)
    requires
        mem as nat == mem_spec(*cfg),
        smp as nat == smp_spec(*cfg, host_cpus),
        ostr(*runtime) == ostr(env.xdg_runtime_dir),
    ensures
        strs(r@) == qemu_args_spec(dv@, *cfg, host_cpus, env, opt_pair_view(*fw)),
{
    let mut qemu = build_base_args(dv, cfg, mem, smp);
    let ghost base = base_args(dv@, *cfg, mem_spec(*cfg), smp_spec(*cfg, host_cpus));
    assert(strs(qemu@) =~= base);
    if cfg.kvm {
        push_s(&mut qemu, lit("-enable-kvm"));
        push_s(&mut qemu, lit("-cpu"));
        push_s(
            &mut qemu,
            lit(
                "host,hv_relaxed,hv_vapic,hv_time,hv_spinlocks=0x1fff,hv_vpindex,hv_runtime,hv_synic,hv_stimer,hv_reset,hv_frequencies",
            ),
        );
    }
    let ghost k = if cfg.kvm {
        seq!["-enable-kvm"@, "-cpu"@, hv_cpu()]
    } else {
        seq![]
    };
    assert(strs(qemu@) =~= base + k);
    if cfg.audio {
        let mut adev = chars_of("pa,id=snd0");
        if let Some(rt) = runtime {
            let rtc = chars_of(rt.as_str());
            if rtc.len() > 0 {
                append_chars(&mut adev, &chars_of(",server=unix:"));
                append_chars(&mut adev, &rtc);
                append_chars(&mut adev, &chars_of("/pulse/native"));
            }
        }
        assert(adev@ =~= audiodev_spec(ostr(env.xdg_runtime_dir)));
        push_s(&mut qemu, lit("-audiodev"));
        push_s(&mut qemu, string_from_chars(&adev));
        push_s(&mut qemu, lit("-device"));
        push_s(&mut qemu, lit("intel-hda"));
        push_s(&mut qemu, lit("-device"));
        push_s(&mut qemu, lit("hda-duplex,audiodev=snd0"));
    }
    let ghost a = if cfg.audio {
        seq![
            "-audiodev"@,
            audiodev_spec(ostr(env.xdg_runtime_dir)),
            "-device"@,
            "intel-hda"@,
            "-device"@,
            "hda-duplex,audiodev=snd0"@,
        ]
    } else {
        seq![]
    };
    assert(strs(qemu@) =~= base + k + a);
    if let Some((code, vars)) = fw {
        push_s(&mut qemu, lit("-drive"));
        let mut c = chars_of("if=pflash,format=raw,unit=0,readonly=on,file=");
        append_chars(&mut c, &chars_of(code.as_str()));
        push_s(&mut qemu, string_from_chars(&c));
        push_s(&mut qemu, lit("-drive"));
        let mut v = chars_of("if=pflash,format=raw,unit=1,snapshot=on,file=");
        append_chars(&mut v, &chars_of(vars.as_str()));
        push_s(&mut qemu, string_from_chars(&v));
    }
    assert(strs(qemu@) =~= qemu_args_spec(dv@, *cfg, host_cpus, env, opt_pair_view(*fw)));
    qemu
}

fn build_envs(cfg: &BootConfig, env: &SessionEnv, cookie_exists: bool) -> (r: Vec<String>)
    ensures
        strs(r@) == envs_spec(*cfg, *env, cookie_exists),
{
    let mut envs: Vec<String> = Vec::new();
    assert(strs(envs@) =~= Seq::<Seq<char>>::empty());
    let ghost ps = env_pairs(*env);
    assert(ps.take(0) =~= Seq::<(Seq<char>, Option<Seq<char>>)>::empty());
    assert(set_vars(ps.take(0)) =~= Seq::<Seq<char>>::empty());
    push_var(&mut envs, "WAYLAND_DISPLAY", &env.wayland_display);
    assert(ps.take(1).drop_last() =~= ps.take(0));
    assert(strs(envs@) =~= set_vars(ps.take(1)));
    push_var(&mut envs, "DISPLAY", &env.display);
    assert(ps.take(2).drop_last() =~= ps.take(1));
    assert(strs(envs@) =~= set_vars(ps.take(2)));
    push_var(&mut envs, "XDG_RUNTIME_DIR", &env.xdg_runtime_dir);
    assert(ps.take(3).drop_last() =~= ps.take(2));
    assert(strs(envs@) =~= set_vars(ps.take(3)));
    push_var(&mut envs, "XAUTHORITY", &env.xauthority);
    assert(ps.take(4).drop_last() =~= ps.take(3));
    assert(strs(envs@) =~= set_vars(ps.take(4)));
    push_var(&mut envs, "XDG_SESSION_TYPE", &env.xdg_session_type);
    assert(ps.take(5).drop_last() =~= ps.take(4));
    assert(strs(envs@) =~= set_vars(ps.take(5)));
    push_var(&mut envs, "PULSE_SERVER", &env.pulse_server);
    assert(ps.take(6).drop_last() =~= ps.take(5));
    assert(strs(envs@) =~= set_vars(ps.take(6)));
    push_var(&mut envs, "PULSE_COOKIE", &env.pulse_cookie);
    assert(ps.take(7).drop_last() =~= ps.take(6));
    assert(ps.take(7) =~= ps);
    assert(strs(envs@) =~= set_vars(ps));
    if cfg.audio {
        let prefix = chars_of("PULSE_COOKIE=");
        let mut found_cookie = false;
        let mut i: usize = 0;
        while i < envs.len()
            invariant
                i <= envs@.len(),
                prefix@ == "PULSE_COOKIE="@,
                found_cookie == exists|j: int| 0 <= j < i && is_prefix("PULSE_COOKIE="@, #[trigger] strs(envs@)[j]),
            decreases envs@.len() - i,
        {
            assert(strs(envs@)[i as int] == envs@[i as int]@);
            if starts_with(&chars_of(envs[i].as_str()), &prefix) {
                found_cookie = true;
            }
            i += 1;
        }
        if !found_cookie && cookie_exists {
            if let Some(home) = &env.home {
                let cookie = pulse_cookie_path(home.as_str());
                let mut s = chars_of("PULSE_COOKIE=");
                append_chars(&mut s, &chars_of(cookie.as_str()));
                push_s(&mut envs, string_from_chars(&s));
            }
        }
    }
    assert(strs(envs@) =~= envs_spec(*cfg, *env, cookie_exists));
    envs
}

fn append_strings(args: &mut Vec<String>, more: &Vec<String>)
    ensures
        strs(final(args)@) == strs(old(args)@) + strs(more@),
{
    let ghost head = strs(args@);
    let mut j: usize = 0;
    while j < more.len()
        invariant
            j <= more@.len(),
            strs(args@) == head + strs(more@).take(j as int),
        decreases more@.len() - j,
    {
        push_s(args, more[j].clone());
        assert(strs(args@) =~= head + strs(more@).take(j + 1));
        j += 1;
    }
    assert(strs(more@).take(j as int) =~= strs(more@));
}

fn build_pkexec_args(dv: &Vec<char>, snapshot: bool, sw: &Option<String>, envs: &Vec<String>, qemu: &Vec<String>) -> (r: Vec<String>)
    ensures
        strs(r@) == pkexec_args_spec(dv@, snapshot, ostr(*sw), strs(envs@), strs(qemu@)),
{
    let mut args: Vec<String> = Vec::new();
    assert(strs(args@) =~= Seq::<Seq<char>>::empty());
    let direct = snapshot && sw.is_none();
    if !direct {
        let mut script = chars_of("dev=\"$1\"; shift\n");
        if !snapshot {
            append_chars(
                &mut script,
                &chars_of("for p in \"$dev\"*; do [ \"$p\" != \"$dev\" ] && umount \"$p\" 2>/dev/null; done\n"),
            );
        }
        match sw {
            Some(s) => {
                append_chars(&mut script, &chars_of("tpmdir=$(mktemp -d); sock=\"$tpmdir/swtpm.sock\"\n"));
                append_chars(&mut script, &chars_of(s.as_str()));
                append_chars(
                    &mut script,
                    &chars_of(
                        " socket --tpmstate \"dir=$tpmdir\" --ctrl \"type=unixio,path=$sock\" --tpm2 --terminate >/dev/null 2>&1 &\nswp=$!\nn=0; while [ ! -S \"$sock\" ] && [ $n -lt 50 ]; do n=$((n+1)); sleep 0.1; done\n\"$@\" -chardev \"socket,id=chrtpm,path=$sock\" -tpmdev emulator,id=tpm0,chardev=chrtpm -device tpm-tis,tpmdev=tpm0\nkill \"$swp\" 2>/dev/null; rm -rf \"$tpmdir\"\n",
                    ),
                );
            },
            None => {
                append_chars(&mut script, &chars_of("exec \"$@\"\n"));
            },
        }
        assert(script@ =~= script_spec(snapshot, ostr(*sw)));
        push_s(&mut args, lit("sh"));
        push_s(&mut args, lit("-c"));
        push_s(&mut args, string_from_chars(&script));
        push_s(&mut args, lit("usbooty-boot-test"));
        push_s(&mut args, string_from_chars(dv));
    }
    push_s(&mut args, lit("/usr/bin/env"));
    append_strings(&mut args, envs);
    append_strings(&mut args, qemu);
    assert(strs(args@) =~= pkexec_args_spec(dv@, snapshot, ostr(*sw), strs(envs@), strs(qemu@)));
    args
}

fn build_log(
    dv: &Vec<char>,
    cfg: &BootConfig,
    mem: u32,
    smp: u32,
    sw: &Option<String>,
    envs: &Vec<String>,
    qemu: &Vec<String>,
    Ghost(host_cpus): Ghost<u32>,
) -> (r: Vec<String>)
    requires
        mem as nat == mem_spec(*cfg),
        smp as nat == smp_spec(*cfg, host_cpus),
    ensures
        strs(r@) == log_spec(dv@, *cfg, host_cpus, ostr(*sw), strs(envs@), strs(qemu@)),
{
    let mut log: Vec<String> = Vec::new();
    assert(strs(log@) =~= Seq::<Seq<char>>::empty());
    let mut l = chars_of("Boot test ");
    append_chars(&mut l, dv);
    append_chars(&mut l, &chars_of(": "));
    append_chars(&mut l, &decimal_chars(mem as u64));
    append_chars(&mut l, &chars_of(" MiB, "));
    append_chars(&mut l, &decimal_chars(smp as u64));
    append_chars(&mut l, &chars_of(" vCPU, firmware="));
    append_chars(
        &mut l,
        &chars_of(
            if cfg.firmware == 0 {
                "BIOS"
            } else if cfg.firmware == 1 {
                "UEFI"
            } else {
                "UEFI+SecureBoot"
            },
        ),
    );
    append_chars(&mut l, &chars_of(", machine="));
    append_chars(&mut l, &chars_of(if cfg.q35 { "q35" } else { "i440fx" }));
    append_chars(&mut l, &chars_of(", kvm="));
    append_chars(&mut l, &chars_of(bool_str(cfg.kvm)));
    append_chars(&mut l, &chars_of(", network="));
    append_chars(&mut l, &chars_of(bool_str(cfg.network)));
    append_chars(&mut l, &chars_of(", snapshot="));
    append_chars(&mut l, &chars_of(bool_str(cfg.snapshot)));
    append_chars(&mut l, &chars_of(", audio="));
    append_chars(&mut l, &chars_of(bool_str(cfg.audio)));
    append_chars(&mut l, &chars_of(", tpm="));
    append_chars(&mut l, &chars_of(bool_str(sw.is_some())));
    assert(l@ =~= summary_line(dv@, *cfg, mem_spec(*cfg), smp_spec(*cfg, host_cpus), ostr(*sw) is Some));
    push_s(&mut log, string_from_chars(&l));
    if !cfg.snapshot {
        push_s(
            &mut log,
            lit("snapshot off \u{2192} unmounting the device's partitions first; writes persist to the device"),
        );
    }
    if let Some(s) = sw {
        let mut t = chars_of("virtual TPM: ");
        append_chars(&mut t, &chars_of(s.as_str()));
        append_chars(&mut t, &chars_of(" (tpm-tis, TPM 2.0)"));
        push_s(&mut log, string_from_chars(&t));
    }
    if envs.len() > 0 {
        let mut t = chars_of("forwarded env: ");
        append_chars(&mut t, &join_with_spaces(envs));
        push_s(&mut log, string_from_chars(&t));
    }
    let mut t = chars_of("qemu: ");
    append_chars(&mut t, &join_with_spaces(qemu));
    push_s(&mut log, string_from_chars(&t));
    assert(strs(log@) =~= log_spec(dv@, *cfg, host_cpus, ostr(*sw), strs(envs@), strs(qemu@)));
    log
}

/// Plan a boot test of `device`: QEMU's arguments, the forwarded
/// environment, the `pkexec` command line and the log lines. `host_cpus` is
/// the host's CPU count; `cookie_exists` whether the user's PulseAudio
/// cookie file exists; `ovmf`, `secboot` and `swtpm` the first firmware
/// pairs and `swtpm` binary found (`swtpm` is only used for UEFI boots).
/// Fails for an empty device, or a UEFI boot without the firmware it needs.
pub fn launch_plan(
    device: &str,
    cfg: &BootConfig,
    host_cpus: u32,
    env: &SessionEnv,
    cookie_exists: bool,
    ovmf: Option<(String, String)>,
    secboot: Option<(String, String)>,
    swtpm: Option<String>,
) -> (r: Result<LaunchPlan, String>)
    ensures
        device@.len() == 0 ==> (r matches Err(e) && e@ == "no device selected"@),
        device@.len() > 0 ==> match firmware_needed(*cfg, ovmf, secboot) {
            Err(m) => r matches Err(e) && e@ == m,
            Ok(fw) => r matches Ok(p) && ({
                let sw = if cfg.firmware != 0 {
                    ostr(swtpm)
                } else {
                    None
                };
                let q = qemu_args_spec(device@, *cfg, host_cpus, *env, fw);
                let ev = envs_spec(*cfg, *env, cookie_exists);
                &&& strs(p.qemu@) == q
                &&& strs(p.envs@) == ev
                &&& strs(p.pkexec_args@) == pkexec_args_spec(device@, cfg.snapshot, sw, ev, q)
                &&& strs(p.log@) == log_spec(device@, *cfg, host_cpus, sw, ev, q)
            }),
        },
{
    let dv = chars_of(device);
    if dv.len() == 0 {
        return Err(lit("no device selected"));
    }
    let mem: u32 = if cfg.mem_mb < 256 {
        256
    } else if cfg.mem_mb > 65536 {
        65536
    } else {
        cfg.mem_mb
    };
    let hi: u32 = if host_cpus >= 1 {
        host_cpus
    } else {
        1
    };
    let smp: u32 = if cfg.cpus < 1 {
        1
    } else if cfg.cpus > hi {
        hi
    } else {
        cfg.cpus
    };
    let uefi = cfg.firmware != 0;
    let fw: Option<(String, String)> = if !uefi {
        None
    } else if cfg.firmware == 2 {
        match secboot {
            Some(p) => Some(p),
            None => {
                return Err(lit("Secure Boot OVMF firmware not found; install edk2-ovmf / ovmf"));
            },
        }
    } else {
        match ovmf {
            Some(p) => Some(p),
            None => {
                return Err(lit("UEFI firmware (OVMF) not found; install edk2-ovmf / ovmf"));
            },
        }
    };
    assert(firmware_needed(*cfg, ovmf, secboot) == Ok::<Option<(Seq<char>, Seq<char>)>, Seq<char>>(
        opt_pair_view(fw),
    ));
    let qemu = build_qemu_args(&dv, cfg, mem, smp, &env.xdg_runtime_dir, &fw, Ghost(host_cpus), Ghost(*env));
    let envs = build_envs(cfg, env, cookie_exists);
    let sw: Option<String> = if uefi {
        swtpm
    } else {
        None
    };
    let args = build_pkexec_args(&dv, cfg.snapshot, &sw, &envs, &qemu);
    let log = build_log(&dv, cfg, mem, smp, &sw, &envs, &qemu, Ghost(host_cpus));
    Ok(LaunchPlan { qemu, envs, pkexec_args: args, log })
}

/// The signed decimal text of `n`.
pub open spec fn signed_decimal(n: int) -> Seq<char> {
    if n < 0 {
        "-"@ + decimal((-n) as nat)
    } else {
        decimal(n as nat)
    }
}

/// `{:?}` of an optional exit code.
pub open spec fn exit_code_text(code: Option<i32>) -> Seq<char> {
    match code {
        Some(c) => "Some("@ + signed_decimal(c as int) + ")"@,
        None => "None"@,
    }
}

/// The non-blank lines of `ls`, trimmed.
pub open spec fn trimmed_lines(ls: Seq<Seq<char>>) -> Seq<Seq<char>>
    decreases ls.len(),
{
    if ls.len() == 0 {
        seq![]
    } else {
        let prev = trimmed_lines(ls.drop_last());
        if trim(ls.last()).len() > 0 {
            prev.push(trim(ls.last()))
        } else {
            prev
        }
    }
}

/// Why QEMU probably died, from its lower-cased stderr.
pub open spec fn failure_hint(lower: Seq<char>) -> Seq<char> {
    if seq_contains(lower, "lock"@) {
        ": the device is held by another process; close any other QEMU window using it"@
    } else if seq_contains(lower, "audio"@) || seq_contains(lower, "pulse"@) || seq_contains(lower, "pipewire"@) {
        ": audio backend failed to start; try unchecking Guest audio"@
    } else {
        Seq::empty()
    }
}

/// The log lines and error for a QEMU that exited at once with `code`,
/// given its stderr: the status line and each non-blank stderr line; the
/// error carries the last such line and a hint.
pub open spec fn failure_spec(code: Option<i32>, stderr: Seq<char>) -> (Seq<Seq<char>>, Seq<char>) {
    let ls = trimmed_lines(str_lines(stderr));
    let logs = seq!["QEMU exited immediately (status "@ + exit_code_text(code) + ")"@] + Seq::new(
        ls.len(),
        |i: int| "qemu: "@ + ls[i],
    );
    let detail = if ls.len() > 0 {
        ": "@ + ls.last()
    } else {
        Seq::empty()
    };
    (logs, "QEMU exited immediately"@ + detail + failure_hint(unicode_lower(stderr)))
}

fn signed_dec(c: i32) -> (r: Vec<char>)
    ensures
        r@ == signed_decimal(c as int),
{
    if c < 0 {
        let mut v = chars_of("-");
        let m: u64 = if c == i32::MIN {
            2147483648
        } else {
            (-c) as u64
        };
        append_chars(&mut v, &decimal_chars(m));
        v
    } else {
        decimal_chars(c as u64)
    }
}

/// The report for a QEMU that exited at once with a failure status: the
/// activity-log lines and the error message.
pub fn failure_report(code: Option<i32>, stderr: &str) -> (r: (Vec<String>, String))
    ensures
        strs(r.0@) == failure_spec(code, stderr@).0,
        r.1@ == failure_spec(code, stderr@).1,
{
    let chars = chars_of(stderr);
    let lines = lines_of(&chars);
    let ghost sl = str_lines(stderr@);
    let mut kept: Vec<Vec<char>> = Vec::new();
    let mut i: usize = 0;
    while i < lines.len()
        invariant
            i <= lines@.len(),
            lines@.len() == sl.len(),
            sl == str_lines(stderr@),
            forall|j: int| 0 <= j < lines@.len() ==> (#[trigger] lines@[j])@ == sl[j],
            kept@.len() == trimmed_lines(sl.take(i as int)).len(),
            forall|j: int| 0 <= j < kept@.len() ==> (#[trigger] kept@[j])@ == trimmed_lines(sl.take(i as int))[j],
        decreases lines@.len() - i,
    {
        assert(sl.take(i + 1).drop_last() =~= sl.take(i as int));
        let t = trim_chars(&lines[i]);
        if t.len() > 0 {
            kept.push(t);
        }
        i += 1;
    }
    assert(sl.take(i as int) =~= sl);
    let ghost ls = trimmed_lines(sl);
    let mut logs: Vec<String> = Vec::new();
    let mut first = chars_of("QEMU exited immediately (status ");
    match code {
        Some(c) => {
            append_chars(&mut first, &chars_of("Some("));
            append_chars(&mut first, &signed_dec(c));
            append_chars(&mut first, &chars_of(")"));
        },
        None => {
            append_chars(&mut first, &chars_of("None"));
        },
    }
    append_chars(&mut first, &chars_of(")"));
    assert(first@ =~= "QEMU exited immediately (status "@ + exit_code_text(code) + ")"@);
    assert(strs(logs@) =~= Seq::<Seq<char>>::empty());
    push_s(&mut logs, string_from_chars(&first));
    let ghost head = strs(logs@);
    let mut j: usize = 0;
    while j < kept.len()
        invariant
            j <= kept@.len(),
            kept@.len() == ls.len(),
            forall|q: int| 0 <= q < kept@.len() ==> (#[trigger] kept@[q])@ == ls[q],
            strs(logs@) == head + Seq::new(j as nat, |q: int| "qemu: "@ + ls[q]),
        decreases kept@.len() - j,
    {
        let mut s = chars_of("qemu: ");
        append_chars(&mut s, &kept[j]);
        push_s(&mut logs, string_from_chars(&s));
        assert(strs(logs@) =~= head + Seq::new((j + 1) as nat, |q: int| "qemu: "@ + ls[q]));
        j += 1;
    }
    assert(strs(logs@) =~= failure_spec(code, stderr@).0);
    let lower = chars_of(to_lowercase_unicode(stderr).as_str());
    let mut err = chars_of("QEMU exited immediately");
    if kept.len() > 0 {
        append_chars(&mut err, &chars_of(": "));
        append_chars(&mut err, &kept[kept.len() - 1]);
    }
    if contains(&lower, &chars_of("lock")) {
        append_chars(&mut err, &chars_of(": the device is held by another process; close any other QEMU window using it"));
    } else if contains(&lower, &chars_of("audio")) || contains(&lower, &chars_of("pulse")) || contains(
        &lower,
        &chars_of("pipewire"),
    ) {
        append_chars(&mut err, &chars_of(": audio backend failed to start; try unchecking Guest audio"));
    }
    (logs, string_from_chars(&err))
}

/// The USB drive is attached with writes discarded exactly when the
/// configuration asks for snapshot mode: the QEMU arguments carry
/// `snapshot=off` for the device when snapshot is off, and `snapshot=on`
/// when it is on.
pub proof fn law_drive_snapshot_follows_config(
    device: Seq<char>,
    cfg: BootConfig,
    host_cpus: u32,
    e: SessionEnv,
    firmware: Option<(Seq<char>, Seq<char>)>,
)
    ensures
        !cfg.snapshot ==> qemu_args_spec(device, cfg, host_cpus, e, firmware).contains(
            "if=none,id=usbstick,format=raw,snapshot=off,file="@ + device,
        ),
        cfg.snapshot ==> qemu_args_spec(device, cfg, host_cpus, e, firmware).contains(
            "if=none,id=usbstick,format=raw,snapshot=on,file="@ + device,
        ),
{
    reveal_strlit("if=none,id=usbstick,format=raw,snapshot=");
    reveal_strlit("on");
    reveal_strlit("off");
    reveal_strlit(",file=");
    reveal_strlit("if=none,id=usbstick,format=raw,snapshot=off,file=");
    reveal_strlit("if=none,id=usbstick,format=raw,snapshot=on,file=");
    let q = qemu_args_spec(device, cfg, host_cpus, e, firmware);
    let base = base_args(device, cfg, mem_spec(cfg), smp_spec(cfg, host_cpus));
    assert(q[14] == base[14]);
    if cfg.snapshot {
        assert(base[14] =~= "if=none,id=usbstick,format=raw,snapshot=on,file="@ + device);
    } else {
        assert(base[14] =~= "if=none,id=usbstick,format=raw,snapshot=off,file="@ + device);
    }
    assert(q.contains(q[14]));
}

} // verus!
