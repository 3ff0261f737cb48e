//! The state behind the main window and the decisions its actions make:
//! which device is selected, whether a write can start and what job it
//! runs, what the source image sets up, the capacity and persistence
//! readouts, the activity log, and the persisted preferences. The window
//! toolkit, the clock and the worker threads live outside; each action here
//! takes what they produced and updates the state.
use crate::cli::StartupArgs;
use crate::decompress::Compression;
use crate::deps::DepStatus;
use crate::qemu::BootConfig;
use crate::device::{format_size, format_size_spec, model_name_spec, DeviceInfo};
use crate::helpers::{compute_max_persistence_mib, max_persistence_spec, non_empty_opt, trimmed_opt};
use crate::iso_report::{DistroFamily, IsoReport, OsKind, PersistenceKind};
use crate::job::{CheckMode, FileSystem, Job, JobOptions, PartitionTable, Persistence, WimStrategy, WindowsSetup};
use crate::plan::{auto_filesystem, needs_wim_choice_spec};
use crate::settings::Settings;
use crate::text::{append_chars, chars_eq, chars_of, is_prefix, string_from_chars, trim};
use vstd::prelude::*;

verus! {

/// The Windows-installer customization fields of the form, as typed.
#[derive(Debug, Clone)]
pub struct SetupForm {
    pub bypass_tpm: bool,
    pub bypass_secureboot: bool,
    pub bypass_ram: bool,
    pub bypass_storage: bool,
    pub bypass_cpu: bool,
    pub bypass_disk: bool,
    pub skip_msaccount: bool,
    pub disable_network_during_oobe: bool,
    pub hide_wireless_setup: bool,
    pub hide_oem_registration: bool,
    pub network_location_work: bool,
    pub disable_telemetry: bool,
    pub accept_eula: bool,
    pub enable_dotnet35: bool,
    pub apply_debloat: bool,
    pub disable_bitlocker: bool,
    pub windows_ca_2023: bool,
    pub desktop_helpers: bool,
    pub local_account: String,
    pub local_account_password: String,
    pub computer_name: String,
    pub locale: String,
    pub timezone: String,
    pub product_key: String,
}

/// The digests of a source image, each in lower-case hex (empty when the
/// image could not be read).
#[derive(Debug, Clone)]
pub struct IsoHashes {
    pub md5: String,
    pub sha1: String,
    pub sha256: String,
    pub sha512: String,
    pub blake3: String,
}

impl Default for IsoHashes {
    fn default() -> (r: Self)
        ensures
            r.md5@.len() == 0 && r.sha1@.len() == 0 && r.sha256@.len() == 0 && r.sha512@.len() == 0
                && r.blake3@.len() == 0,
    {
        IsoHashes {
            md5: String::new(),
            sha1: String::new(),
            sha256: String::new(),
            sha512: String::new(),
            blake3: String::new(),
        }
    }
}

/// The state of the main window.
#[derive(Debug, Clone)]
pub struct AppController {
    /// The selected source image (empty when none).
    pub iso_path: String,
    /// The one-line description of the source image.
    pub iso_summary: String,
    /// The editable volume label.
    pub label: String,
    pub iso_md5: String,
    pub iso_sha1: String,
    pub iso_sha256: String,
    pub iso_sha512: String,
    pub iso_blake3: String,
    /// The rg-adguard badge for the image's SHA-1.
    pub iso_adguard_badge: String,
    /// Digests are being computed.
    pub hashing: bool,
    /// Bumped whenever the image changes, so a stale digest worker's results
    /// are dropped.
    pub hash_generation: u64,
    /// The devices' display lines, one per line.
    pub devices: String,
    /// Index into `device_list`, or -1.
    pub selected_device: i32,
    pub show_fixed_disks: bool,
    /// 0 = DD, 1 = partition and copy, 2 = format only, 3 = Ventoy, 4 = FreeDOS.
    pub method: i32,
    /// 0 = GPT, 1 = MBR, 2 = MBR (BIOS+UEFI), 3 = hybrid MBR+GPT.
    pub table: i32,
    /// Index into `available_filesystem_kinds`.
    pub filesystem: i32,
    pub ventoy_update: bool,
    pub ventoy_secure_boot: bool,
    pub full_format: bool,
    pub verify: bool,
    pub persistence_supported: bool,
    pub persistence_inline: bool,
    /// The persistence size in MiB (0 = none).
    pub persistence_size: i32,
    pub persistence_max_mib: i32,
    pub distro_label: String,
    pub windows_iso: bool,
    pub linux_iso: bool,
    pub windows_build: i32,
    pub windows_arch: String,
    /// Split an oversized `install.wim` instead of the UEFI:NTFS layout.
    pub split_wim: bool,
    pub setup: SetupForm,
    pub busy: bool,
    pub phase: String,
    pub log_non_empty: bool,
    pub status: String,
    pub speed: String,
    pub eta: String,
    pub fit_warning: String,
    pub revocation_warnings: String,
    pub smart_warning: String,
    pub inspect_text: String,
    pub force_english: bool,
    pub show_logs_always: bool,
    pub log_all_files: bool,
    /// The filesystems whose tools are installed, in combo order.
    pub available_filesystem_kinds: Vec<FileSystem>,
    /// The enumerated devices, parallel to `devices`.
    pub device_list: Vec<DeviceInfo>,
    /// The analysis of the source image.
    pub iso_report: Option<IsoReport>,
    /// The activity log as plain text.
    pub full_log: String,
    /// The activity log as HTML.
    pub log_html: String,
}

fn lit(s: &str) -> (r: String)
    ensures
        r@ == s@,
{
    string_from_chars(&chars_of(s))
}

/// Every customization of the Windows-installer form is off, and every
/// text field empty.
pub open spec fn form_cleared(f: SetupForm) -> bool {
    &&& !f.bypass_tpm && !f.bypass_secureboot && !f.bypass_ram && !f.bypass_storage && !f.bypass_cpu
    &&& !f.bypass_disk && !f.skip_msaccount && !f.disable_network_during_oobe && !f.hide_wireless_setup
    &&& !f.hide_oem_registration && !f.network_location_work && !f.disable_telemetry && !f.accept_eula
    &&& !f.enable_dotnet35 && !f.apply_debloat && !f.disable_bitlocker && !f.windows_ca_2023
    &&& !f.desktop_helpers
    &&& f.local_account@.len() == 0 && f.local_account_password@.len() == 0 && f.computer_name@.len() == 0
    &&& f.locale@.len() == 0 && f.timezone@.len() == 0 && f.product_key@.len() == 0
}

fn empty_form() -> (r: SetupForm)
    ensures
        form_cleared(r),
        !r.bypass_tpm && !r.bypass_secureboot && !r.bypass_ram && !r.bypass_storage && !r.bypass_cpu
            && !r.bypass_disk,
        r.local_account@.len() == 0 && r.local_account_password@.len() == 0 && r.computer_name@.len() == 0,
        r.locale@.len() == 0 && r.timezone@.len() == 0 && r.product_key@.len() == 0,
{
    SetupForm {
        bypass_tpm: false,
        bypass_secureboot: false,
        bypass_ram: false,
        bypass_storage: false,
        bypass_cpu: false,
        bypass_disk: false,
        skip_msaccount: false,
        disable_network_during_oobe: false,
        hide_wireless_setup: false,
        hide_oem_registration: false,
        network_location_work: false,
        disable_telemetry: false,
        accept_eula: false,
        enable_dotnet35: false,
        apply_debloat: false,
        disable_bitlocker: false,
        windows_ca_2023: false,
        desktop_helpers: false,
        local_account: String::new(),
        local_account_password: String::new(),
        computer_name: String::new(),
        locale: String::new(),
        timezone: String::new(),
        product_key: String::new(),
    }
}

/// The device at index `i` of `list`, if `i` is a valid index.
pub open spec fn device_at(list: Seq<DeviceInfo>, i: i32) -> Option<DeviceInfo> {
    if 0 <= i < list.len() {
        Some(list[i as int])
    } else {
        None
    }
}

/// The capacity warning: set when the image is larger than the selected
/// device (both known and non-zero).
pub open spec fn fit_warning_spec(iso: Option<IsoReport>, dev: Option<DeviceInfo>) -> Seq<char> {
    let iso_bytes: u64 = match iso {
        Some(r) => r.total_size,
        None => 0,
    };
    match dev {
        Some(d) => if iso_bytes > 0 && d.size > 0 && iso_bytes > d.size {
            "This image ("@ + format_size_spec(iso_bytes as nat) + ") is larger than "@ + model_name_spec(d.model@)
                + " ("@ + format_size_spec(d.size as nat) + ") and will not fit."@
        } else {
            Seq::empty()
        },
        None => Seq::empty(),
    }
}

/// The persistence size after the ceiling changed: pulled down to the
/// ceiling (at least 0) when it was above, else kept.
pub open spec fn clamp_size(size: i32, max: i32) -> i32 {
    if size > max {
        if max > 0 {
            max
        } else {
            0
        }
    } else {
        size
    }
}

/// Everything derived from a source image is as it is before any image is
/// picked: no path, the placeholder summary, an empty label, no OS flags,
/// no persistence, no digests or warnings, and no analysis.
pub open spec fn image_fields_fresh(s: AppController) -> bool {
    &&& s.iso_path@.len() == 0
    &&& s.iso_summary@ == "No image selected"@
    &&& s.label@.len() == 0
    &&& !s.windows_iso && !s.linux_iso
    &&& !s.persistence_supported && !s.persistence_inline
    &&& s.distro_label@.len() == 0
    &&& s.persistence_size == 0
    &&& s.iso_md5@.len() == 0 && s.iso_sha1@.len() == 0 && s.iso_sha256@.len() == 0
    &&& s.iso_sha512@.len() == 0 && s.iso_blake3@.len() == 0
    &&& s.iso_adguard_badge@.len() == 0
    &&& s.revocation_warnings@.len() == 0
    &&& !s.hashing
    &&& s.iso_report is None
}

impl AppController {
    /// The selected device, if the selection is a valid index.
    pub open spec fn selected_spec(&self) -> Option<DeviceInfo> {
        device_at(self.device_list@, self.selected_device)
    }

    /// The state at start-up: nothing selected, the remembered preferences,
    /// and the filesystems whose tools are installed.
    pub fn initial(prefs: Settings, fs_kinds: Vec<FileSystem>) -> (r: Self)
        ensures
            r.iso_path@.len() == 0,
            r.iso_summary@ == "No image selected"@,
            r.status@ == "Ready"@,
            r.selected_device == -1,
            r.method == 0 && r.table == 0 && r.filesystem == 0,
            r.ventoy_secure_boot && !r.ventoy_update && !r.full_format && !r.verify,
            !r.busy && !r.hashing && !r.log_non_empty,
            r.force_english == prefs.force_english,
            r.show_logs_always == prefs.show_logs_always,
            r.log_all_files == prefs.log_all_files,
            r.available_filesystem_kinds@ == fs_kinds@,
            r.device_list@.len() == 0,
            r.iso_report is None,
            r.persistence_size == 0 && r.persistence_max_mib == 0,
            r.full_log@.len() == 0 && r.log_html@.len() == 0,
            image_fields_fresh(r),
            !r.show_fixed_disks && !r.split_wim && r.windows_build == 0,
            r.phase@.len() == 0 && r.speed@.len() == 0 && r.eta@.len() == 0,
            r.fit_warning@.len() == 0 && r.smart_warning@.len() == 0 && r.inspect_text@.len() == 0,
            form_cleared(r.setup),
    {
        AppController {
            iso_path: String::new(),
            iso_summary: lit("No image selected"),
            label: String::new(),
            iso_md5: String::new(),
            iso_sha1: String::new(),
            iso_sha256: String::new(),
            iso_sha512: String::new(),
            iso_blake3: String::new(),
            iso_adguard_badge: String::new(),
            hashing: false,
            hash_generation: 0,
            devices: String::new(),
            selected_device: -1,
            show_fixed_disks: false,
            method: 0,
            table: 0,
            filesystem: 0,
            ventoy_update: false,
            ventoy_secure_boot: true,
            full_format: false,
            verify: false,
            persistence_supported: false,
            persistence_inline: false,
            persistence_size: 0,
            persistence_max_mib: 0,
            distro_label: String::new(),
            windows_iso: false,
            linux_iso: false,
            windows_build: 0,
            windows_arch: String::new(),
            split_wim: false,
            setup: empty_form(),
            busy: false,
            phase: String::new(),
            log_non_empty: false,
            status: lit("Ready"),
            speed: String::new(),
            eta: String::new(),
            fit_warning: String::new(),
            revocation_warnings: String::new(),
            smart_warning: String::new(),
            inspect_text: String::new(),
            force_english: prefs.force_english,
            show_logs_always: prefs.show_logs_always,
            log_all_files: prefs.log_all_files,
            available_filesystem_kinds: fs_kinds,
            device_list: Vec::new(),
            iso_report: None,
            full_log: String::new(),
            log_html: String::new(),
        }
    }

    /// The device at the current selection, if it is a valid index.
    pub fn selected_info(&self) -> (r: Option<&DeviceInfo>)
        ensures
            match self.selected_spec() {
                Some(d) => r == Some(&d),
                None => r is None,
            },
    {
        let idx = self.selected_device;
        if idx < 0 {
            None
        } else {
            let i = idx as usize;
            if i < self.device_list.len() {
                Some(&self.device_list[i])
            } else {
                None
            }
        }
    }

    /// A write can start: not busy, a device selected, and the method's
    /// needs met (format and FreeDOS need nothing more; Ventoy needs the
    /// image, if any, to fit; the others need a fitting image).
    pub open spec fn can_start_spec(&self) -> bool {
        if self.busy || self.selected_device < 0 {
            false
        } else if self.method == 2 || self.method == 4 {
            true
        } else if self.method == 3 {
            self.fit_warning@.len() == 0
        } else {
            self.iso_path@.len() > 0 && self.fit_warning@.len() == 0
        }
    }

    /// Whether `start` would currently do anything useful.
    pub fn can_start(&self) -> (r: bool)
        ensures
            r == self.can_start_spec(),
    {
        if self.busy || self.selected_device < 0 {
            return false;
        }
        let fits = chars_of(self.fit_warning.as_str()).len() == 0;
        if self.method == 2 || self.method == 4 {
            true
        } else if self.method == 3 {
            fits
        } else {
            chars_of(self.iso_path.as_str()).len() > 0 && fits
        }
    }

    /// Enter the busy state for a job: fresh phase, an empty log, no speed or
    /// ETA, and the given status.
    pub fn init_job_ui(&mut self, status: &str)
        ensures
            final(self).busy,
            final(self).phase@ == "Starting"@,
            final(self).full_log@.len() == 0 && final(self).log_html@.len() == 0 && !final(self).log_non_empty,
            final(self).speed@.len() == 0 && final(self).eta@.len() == 0,
            final(self).status@ == status@,
            final(self).device_list == old(self).device_list,
            final(self).selected_device == old(self).selected_device,
            final(self).iso_report == old(self).iso_report,
    {
        self.busy = true;
        self.phase = lit("Starting");
        self.clear_log();
        self.speed = String::new();
        self.eta = String::new();
        self.status = lit(status);
    }

    /// Empty the activity log.
    pub fn clear_log(&mut self)
        ensures
            final(self).full_log@.len() == 0,
            final(self).log_html@.len() == 0,
            !final(self).log_non_empty,
            *final(self) == (AppController {
                full_log: final(self).full_log,
                log_html: final(self).log_html,
                log_non_empty: false,
                ..*old(self)
            }),
    {
        self.full_log = String::new();
        self.log_html = String::new();
        self.log_non_empty = false;
    }

    /// Record one activity-log line stamped with the time `stamp`: the plain
    /// text and the HTML fragment are appended to their logs, and the HTML
    /// line to show is returned.
    pub fn push_log_line(&mut self, stamp: &str, plain: &str, html: &str) -> (r: String)
        ensures
            r@ == "<div><span style=\"color:#7d8590\">["@ + stamp@ + "]</span> "@ + html@ + "</div>"@,
            final(self).full_log@ == old(self).full_log@ + "["@ + stamp@ + "] "@ + plain@ + "\n"@,
            final(self).log_html@ == old(self).log_html@ + r@,
            final(self).log_non_empty,
            *final(self) == (AppController {
                full_log: final(self).full_log,
                log_html: final(self).log_html,
                log_non_empty: true,
                ..*old(self)
            }),
    {
        let mut line = chars_of("<div><span style=\"color:#7d8590\">[");
        append_chars(&mut line, &chars_of(stamp));
        append_chars(&mut line, &chars_of("]</span> "));
        append_chars(&mut line, &chars_of(html));
        append_chars(&mut line, &chars_of("</div>"));
        let mut fl = chars_of(self.full_log.as_str());
        append_chars(&mut fl, &chars_of("["));
        append_chars(&mut fl, &chars_of(stamp));
        append_chars(&mut fl, &chars_of("] "));
        append_chars(&mut fl, &chars_of(plain));
        append_chars(&mut fl, &chars_of("\n"));
        let mut lh = chars_of(self.log_html.as_str());
        append_chars(&mut lh, &line);
        self.full_log = string_from_chars(&fl);
        self.log_html = string_from_chars(&lh);
        self.log_non_empty = true;
        string_from_chars(&line)
    }

    /// The preferences to persist.
    pub fn settings(&self) -> (r: Settings)
        ensures
            r.force_english == self.force_english,
            r.show_logs_always == self.show_logs_always,
            r.log_all_files == self.log_all_files,
    {
        Settings {
            force_english: self.force_english,
            show_logs_always: self.show_logs_always,
            log_all_files: self.log_all_files,
        }
    }

    /// Set the *force English* preference; returns the preferences to save.
    pub fn apply_force_english(&mut self, force: bool) -> (r: Settings)
        ensures
            *final(self) == (AppController { force_english: force, ..*old(self) }),
            r == (Settings { force_english: force, ..old(self).settings_spec() }),
    {
        self.force_english = force;
        self.settings()
    }

    /// Set the *always show the log* preference; returns the preferences to save.
    pub fn apply_show_logs_always(&mut self, on: bool) -> (r: Settings)
        ensures
            *final(self) == (AppController { show_logs_always: on, ..*old(self) }),
            r == (Settings { show_logs_always: on, ..old(self).settings_spec() }),
    {
        self.show_logs_always = on;
        self.settings()
    }

    /// Set the *log every file* preference; returns the preferences to save.
    pub fn apply_log_all_files(&mut self, on: bool) -> (r: Settings)
        ensures
            *final(self) == (AppController { log_all_files: on, ..*old(self) }),
            r == (Settings { log_all_files: on, ..old(self).settings_spec() }),
    {
        self.log_all_files = on;
        self.settings()
    }

    /// The persisted preferences of a state.
    pub open spec fn settings_spec(&self) -> Settings {
        Settings {
            force_english: self.force_english,
            show_logs_always: self.show_logs_always,
            log_all_files: self.log_all_files,
        }
    }

    /// Recompute the capacity warning from the image and the selected device.
    pub fn refresh_fit_warning(&mut self)
        ensures
            final(self).fit_warning@ == fit_warning_spec(old(self).iso_report, old(self).selected_spec()),
            *final(self) == (AppController { fit_warning: final(self).fit_warning, ..*old(self) }),
    {
        let iso_bytes: u64 = match &self.iso_report {
            Some(r) => r.total_size,
            None => 0,
        };
        let w = match self.selected_info() {
            Some(d) => if iso_bytes > 0 && d.size > 0 && iso_bytes > d.size {
                let mut m = chars_of("This image (");
                append_chars(&mut m, &chars_of(format_size(iso_bytes).as_str()));
                append_chars(&mut m, &chars_of(") is larger than "));
                append_chars(&mut m, &chars_of(d.model_name().as_str()));
                append_chars(&mut m, &chars_of(" ("));
                append_chars(&mut m, &chars_of(format_size(d.size).as_str()));
                append_chars(&mut m, &chars_of(") and will not fit."));
                string_from_chars(&m)
            } else {
                String::new()
            },
            None => String::new(),
        };
        self.fit_warning = w;
    }

    /// The persistence ceiling in MiB for the selected device and the image.
    pub fn max_persistence_mib(&self) -> (r: i32)
        ensures
            r as int == max_persistence_spec(self.selected_spec(), self.iso_report),
    {
        let iso = match &self.iso_report {
            Some(r) => Some(r),
            None => None,
        };
        compute_max_persistence_mib(self.selected_info(), iso)
    }

    /// Recompute the persistence ceiling, pulling the chosen size down to it
    /// when it was above.
    pub fn refresh_persistence_max(&mut self)
        ensures
            final(self).persistence_max_mib as int == max_persistence_spec(old(self).selected_spec(), old(self).iso_report),
            final(self).persistence_size == clamp_size(old(self).persistence_size, final(self).persistence_max_mib),
            *final(self) == (AppController {
                persistence_max_mib: final(self).persistence_max_mib,
                persistence_size: final(self).persistence_size,
                ..*old(self)
            }),
    {
        let max_mib = self.max_persistence_mib();
        let size = if self.persistence_size > max_mib {
            if max_mib > 0 {
                max_mib
            } else {
                0
            }
        } else {
            self.persistence_size
        };
        self.persistence_max_mib = max_mib;
        self.persistence_size = size;
    }

    /// The selected device is an internal (non-removable) disk.
    pub fn selected_is_internal(&self) -> (r: bool)
        ensures
            r == match self.selected_spec() {
                Some(d) => !d.removable,
                None => false,
            },
    {
        match self.selected_info() {
            Some(d) => !d.removable,
            None => false,
        }
    }
}


/// A character kept in a FAT32 label: ASCII and not a control character.
pub open spec fn fat_label_char(c: char) -> bool {
    (c as u32) < 0x80 && !((c as u32) < 0x20 || (c as u32) == 0x7f)
}

/// The characters of `s` kept in a FAT32 label, in order.
pub open spec fn fat_chars(s: Seq<char>) -> Seq<char>
    decreases s.len(),
{
    if s.len() == 0 {
        seq![]
    } else if fat_label_char(s.last()) {
        fat_chars(s.drop_last()).push(s.last())
    } else {
        fat_chars(s.drop_last())
    }
}

/// At most the first `n` characters of `s`.
pub open spec fn first_n(s: Seq<char>, n: nat) -> Seq<char> {
    if s.len() <= n {
        s
    } else {
        s.take(n as int)
    }
}

/// How many leading characters of `s` fit in 16 bytes of UTF-8, counting from `k`.
pub open spec fn ext4_cut(s: Seq<char>, k: int) -> int
    decreases s.len() - k,
{
    if 0 <= k < s.len() && crate::device::utf8_len(s.take(k + 1)) <= 16 {
        ext4_cut(s, k + 1)
    } else {
        k
    }
}

/// The label as the chosen filesystem will store it: FAT32 keeps 11
/// printable ASCII characters, upper-cased; NTFS 32 characters; exFAT 11;
/// ext4 what fits in 16 bytes; any other filesystem the whole label.
pub open spec fn sanitized_spec(label: Seq<char>, fs: FileSystem) -> Seq<char> {
    match fs {
        FileSystem::Fat32 => crate::text::seq_upper(first_n(fat_chars(label), 11)),
        FileSystem::Ntfs => first_n(label, 32),
        FileSystem::ExFat => first_n(label, 11),
        FileSystem::Ext4 => label.take(ext4_cut(label, 0)),
        _ => label,
    }
}

fn first_chars(v: &Vec<char>, n: usize) -> (r: Vec<char>)
    ensures
        r@ == first_n(v@, n as nat),
{
    if v.len() <= n {
        crate::text::slice_chars(v, 0, v.len())
    } else {
        crate::text::slice_chars(v, 0, n)
    }
}

/// The target device's path, model and size, for the activity log.
pub open spec fn selection_log_line(d: DeviceInfo) -> Seq<char> {
    "Target device selected: "@ + d.path@ + " ("@ + trim(d.model@) + ", "@ + format_size_spec(d.size as nat) + ")"@
}

/// The first index of a device with the given path.
pub open spec fn position_of(devs: Seq<DeviceInfo>, path: Seq<char>) -> Option<int>
    decreases devs.len(),
{
    if devs.len() == 0 {
        None
    } else {
        match position_of(devs.drop_last(), path) {
            Some(i) => Some(i),
            None => if devs.last().path@ == path {
                Some(devs.len() - 1)
            } else {
                None
            },
        }
    }
}

/// The display lines of the devices joined with newlines.
pub open spec fn device_lines(devs: Seq<DeviceInfo>) -> Seq<char> {
    crate::text::join_lines(Seq::new(devs.len(), |i: int| devs[i].display_spec()))
}

/// The last normal component of a path (`Path::file_name`): `.` components
/// and trailing slashes are passed over, and a final `..` or no component at
/// all gives none.
pub open spec fn path_file_name(p: Seq<char>) -> Option<Seq<char>>
    decreases p.len(),
{
    if p.len() == 0 {
        None
    } else if p.last() == '/' {
        path_file_name(p.drop_last())
    } else {
        let seg = crate::windisco::last_segment(p);
        proof {
            lemma_last_index_in(p, '/');
        }
        let rest = p.take(p.len() - seg.len());
        if seg == "."@ {
            path_file_name(rest)
        } else if seg == ".."@ {
            None
        } else {
            Some(seg)
        }
    }
}

/// The summary of an image at `path`: its file name (or the whole path) and
/// the analysis summary.
pub open spec fn iso_summary_spec(path: Seq<char>, report: IsoReport) -> Seq<char> {
    let name = match path_file_name(path) {
        Some(n) => n,
        None => path,
    };
    name + "  \u{b7}  "@ + report.summary_spec()
}

/// The warnings joined with newlines.
pub open spec fn warnings_text(ws: Seq<String>) -> Seq<char> {
    crate::text::join_lines(Seq::new(ws.len(), |i: int| ws[i]@))
}

/// Build metadata of a Windows install image.
#[derive(Debug, Clone)]
pub struct WindowsMeta {
    /// The build number (e.g. 26100), 0 when unknown.
    pub build: u32,
    /// The architecture (`x86`, `amd64`, `arm64`), when known.
    pub arch: Option<String>,
}

fn join_strings(ws: &Vec<String>) -> (r: String)
    ensures
        r@ == warnings_text(ws@),
{
    let mut lines: Vec<Vec<char>> = Vec::new();
    let mut i: usize = 0;
    while i < ws.len()
        invariant
            i <= ws@.len(),
            lines@.len() == i,
            forall|k: int| 0 <= k < i ==> (#[trigger] lines@[k])@ == ws@[k]@,
        decreases ws@.len() - i,
    {
        lines.push(chars_of(ws[i].as_str()));
        i += 1;
    }
    let joined = crate::text::join_with_newlines(&lines);
    assert(Seq::new(lines@.len(), |k: int| lines@[k]@) =~= Seq::new(ws@.len(), |k: int| ws@[k]@));
    string_from_chars(&joined)
}

fn file_name_or_path(path: &str) -> (r: Vec<char>)
    ensures
        r@ == match path_file_name(path@) {
            Some(n) => n,
            None => path@,
        },
{
    let v = chars_of(path);
    let mut end: usize = v.len();
    assert(v@.take(end as int) =~= v@);
    loop
        invariant
            end <= v@.len(),
            path_file_name(v@) == path_file_name(v@.take(end as int)),
            v@ == path@,
        decreases end,
    {
        if end == 0 {
            return v;
        }
        if v[end - 1] == '/' {
            assert(v@.take(end as int).drop_last() =~= v@.take(end - 1));
            end = end - 1;
            continue;
        }
        let mut start: usize = end;
        while start > 0 && v[start - 1] != '/'
            invariant
                start <= end <= v@.len(),
                forall|j: int| start <= j < end ==> v@[j] != '/',
            decreases start,
        {
            start = start - 1;
        }
        let ghost p = v@.take(end as int);
        proof {
            lemma_last_segment_at(p, start as int);
        }
        let seg = crate::text::slice_chars(&v, start, end);
        assert(seg@ =~= crate::windisco::last_segment(p));
        assert(p.take(p.len() - seg@.len()) =~= v@.take(start as int));
        let dot = chars_of(".");
        let dotdot = chars_of("..");
        if chars_eq(&seg, &dot) {
            end = start;
        } else if chars_eq(&seg, &dotdot) {
            return v;
        } else {
            return seg;
        }
    }
}

/// The last index of `c` in `s`, when there is one, is a position of `c`.
pub proof fn lemma_last_index_in(s: Seq<char>, c: char)
    ensures
        crate::windisco::last_index_of(s, c) matches Some(i) ==> 0 <= i < s.len() && s[i] == c,
    decreases s.len(),
{
    if s.len() > 0 && s.last() != c {
        lemma_last_index_in(s.drop_last(), c);
    }
}

proof fn lemma_last_segment_at(p: Seq<char>, start: int)
    requires
        0 <= start <= p.len(),
        forall|j: int| start <= j < p.len() ==> p[j] != '/',
        start == 0 || p[start - 1] == '/',
    ensures
        crate::windisco::last_segment(p) == p.subrange(start, p.len() as int),
    decreases p.len() - start,
{
    lemma_last_index_from(p, start);
}

proof fn lemma_last_index_from(p: Seq<char>, start: int)
    requires
        0 <= start <= p.len(),
        forall|j: int| start <= j < p.len() ==> p[j] != '/',
        start == 0 || p[start - 1] == '/',
    ensures
        crate::windisco::last_index_of(p, '/') == if start == 0 {
            None::<int>
        } else {
            Some(start - 1)
        },
    decreases p.len(),
{
    if p.len() == 0 {
    } else if p.len() == start {
        if start > 0 {
            assert(p.last() == '/');
        }
    } else {
        assert(p.last() != '/');
        lemma_last_index_from(p.drop_last(), start);
    }
}

impl AppController {
    /// Trim the label to what the filesystem chosen in the combo (looked up
    /// among the installed ones) will store; a preview, nothing changes.
    pub fn sanitized_label(&self) -> (r: String)
        ensures
            r@ == sanitized_spec(self.label@, fs_at(self.available_filesystem_kinds@, self.filesystem)),
    {
        let v = chars_of(self.label.as_str());
        let fs = self.filesystem_kind_from_index(self.filesystem);
        if matches!(fs, FileSystem::Fat32) {
            let mut kept: Vec<char> = Vec::new();
            let mut i: usize = 0;
            while i < v.len()
                invariant
                    i <= v@.len(),
                    kept@ == fat_chars(v@.take(i as int)),
                decreases v@.len() - i,
            {
                assert(v@.take(i + 1).drop_last() =~= v@.take(i as int));
                let c = v[i];
                let u = c as u32;
                if u < 0x80 && !(u < 0x20 || u == 0x7f) {
                    kept.push(c);
                }
                i += 1;
            }
            assert(v@.take(i as int) =~= v@);
            let cut = first_chars(&kept, 11);
            string_from_chars(&crate::text::uppercase(&cut))
        } else if matches!(fs, FileSystem::Ntfs) {
            string_from_chars(&first_chars(&v, 32))
        } else if matches!(fs, FileSystem::ExFat) {
            string_from_chars(&first_chars(&v, 11))
        } else if matches!(fs, FileSystem::Ext4) {
            let mut total: u64 = 0;
            let mut k: usize = 0;
            while k < v.len() && total + crate::device::char_utf8_width(v[k]) <= 16
                invariant
                    k <= v@.len(),
                    total == crate::device::utf8_len(v@.take(k as int)),
                    total <= 16,
                    ext4_cut(v@, 0) == ext4_cut(v@, k as int),
                decreases v@.len() - k,
            {
                proof {
                    crate::device::lemma_utf8_take_step(v@, k as int);
                }
                total = total + crate::device::char_utf8_width(v[k]);
                k += 1;
            }
            proof {
                if k < v@.len() {
                    crate::device::lemma_utf8_take_step(v@, k as int);
                }
            }
            string_from_chars(&crate::text::slice_chars(&v, 0, k))
        } else {
            string_from_chars(&v)
        }
    }

    /// Select a device by index: the SMART warning is dropped, the capacity
    /// and persistence readouts follow the new device. Returns the line to
    /// log when the index names a device.
    pub fn select_device(&mut self, index: i32) -> (r: Option<String>)
        ensures
            final(self).selected_device == index,
            final(self).smart_warning@.len() == 0,
            final(self).fit_warning@ == fit_warning_spec(old(self).iso_report, device_at(old(self).device_list@, index)),
            final(self).persistence_max_mib as int == max_persistence_spec(
                device_at(old(self).device_list@, index),
                old(self).iso_report,
            ),
            final(self).persistence_size == clamp_size(old(self).persistence_size, final(self).persistence_max_mib),
            final(self).device_list == old(self).device_list,
            final(self).iso_report == old(self).iso_report,
            match device_at(old(self).device_list@, index) {
                Some(d) => r matches Some(l) && l@ == selection_log_line(d),
                None => r is None,
            },
    {
        self.selected_device = index;
        self.smart_warning = String::new();
        let line = match self.selected_info() {
            Some(dev) => {
                let mut l = chars_of("Target device selected: ");
                append_chars(&mut l, &chars_of(dev.path.as_str()));
                append_chars(&mut l, &chars_of(" ("));
                append_chars(&mut l, &crate::text::trim_chars(&chars_of(dev.model.as_str())));
                append_chars(&mut l, &chars_of(", "));
                append_chars(&mut l, &chars_of(format_size(dev.size).as_str()));
                append_chars(&mut l, &chars_of(")"));
                Some(string_from_chars(&l))
            },
            None => None,
        };
        self.refresh_fit_warning();
        self.refresh_persistence_max();
        line
    }

    /// Reset everything derived from the source image to how it is at
    /// start-up (undoing [`AppController::apply_iso`]), and disown any digest
    /// computation still running.
    pub fn clear_iso(&mut self)
        requires
            old(self).hash_generation < u64::MAX,
        ensures
            image_fields_fresh(*final(self)),
            final(self).iso_path@.len() == 0,
            final(self).iso_summary@ == "No image selected"@,
            final(self).label@.len() == 0,
            !final(self).windows_iso && !final(self).linux_iso,
            !final(self).persistence_supported && !final(self).persistence_inline,
            final(self).distro_label@.len() == 0,
            final(self).persistence_size == 0,
            final(self).iso_md5@.len() == 0 && final(self).iso_sha1@.len() == 0 && final(self).iso_sha256@.len() == 0,
            final(self).iso_sha512@.len() == 0 && final(self).iso_blake3@.len() == 0,
            final(self).iso_adguard_badge@.len() == 0,
            final(self).revocation_warnings@.len() == 0,
            final(self).hash_generation == old(self).hash_generation + 1,
            !final(self).hashing,
            final(self).iso_report is None,
            final(self).fit_warning@.len() == 0,
            final(self).persistence_max_mib as int == max_persistence_spec(old(self).selected_spec(), None),
            final(self).device_list == old(self).device_list,
            final(self).selected_device == old(self).selected_device,
    {
        self.iso_path = String::new();
        self.iso_summary = lit("No image selected");
        self.label = String::new();
        self.windows_iso = false;
        self.linux_iso = false;
        self.persistence_supported = false;
        self.persistence_inline = false;
        self.distro_label = String::new();
        self.persistence_size = 0;
        self.iso_md5 = String::new();
        self.iso_sha1 = String::new();
        self.iso_sha256 = String::new();
        self.iso_sha512 = String::new();
        self.iso_blake3 = String::new();
        self.iso_adguard_badge = String::new();
        self.revocation_warnings = String::new();
        self.hash_generation = self.hash_generation + 1;
        self.hashing = false;
        self.iso_report = None;
        self.refresh_fit_warning();
        self.refresh_persistence_max();
    }
}

/// The selection after the device list was replaced: the previously
/// selected device, found again by its path, else the first device, else none.
pub open spec fn reselected(prev: Option<DeviceInfo>, devs: Seq<DeviceInfo>) -> i32 {
    let fallback: i32 = if devs.len() == 0 { -1i32 } else { 0i32 };
    match prev {
        Some(d) => match position_of(devs, d.path@) {
            Some(i) => i as i32,
            None => fallback,
        },
        None => fallback,
    }
}

/// The build number a Windows image carries over to the form (0 when the
/// image is not Windows or the build is unknown).
pub open spec fn applied_build(report: IsoReport, win: Option<WindowsMeta>) -> i32 {
    match win {
        Some(w) => if report.os_kind == OsKind::Windows { w.build as i32 } else { 0 },
        None => 0,
    }
}

/// The architecture a Windows image carries over to the form.
pub open spec fn applied_arch(report: IsoReport, win: Option<WindowsMeta>) -> Seq<char> {
    match win {
        Some(w) => if report.os_kind == OsKind::Windows {
            match w.arch {
                Some(a) => a@,
                None => Seq::empty(),
            }
        } else {
            Seq::empty()
        },
        None => Seq::empty(),
    }
}

/// The write method once an image is loaded: the partition method for a
/// Windows or Linux installer, raw DD otherwise; an explicit *format only*,
/// Ventoy or FreeDOS choice is kept.
pub open spec fn applied_method(old_method: i32, os: OsKind) -> i32 {
    if old_method < 2 {
        if os == OsKind::Windows || os == OsKind::Linux {
            1
        } else {
            0
        }
    } else {
        old_method
    }
}

/// The distribution name shown for an image (empty when unknown).
pub open spec fn distro_label_spec(d: DistroFamily) -> Seq<char> {
    if d == DistroFamily::Unknown {
        Seq::empty()
    } else {
        d.display_spec()
    }
}

/// Whether the image's persistence scheme lives inside the data partition.
pub open spec fn inline_persistence(p: Option<PersistenceKind>) -> bool {
    match p {
        Some(k) => k == PersistenceKind::SlaxChanges || k == PersistenceKind::AlpineLbu,
        None => false,
    }
}

/// The first index in `devs` of a device with the path `path`.
fn find_path(devs: &Vec<DeviceInfo>, path: &Vec<char>) -> (r: Option<usize>)
    ensures
        r matches Some(k) ==> k < devs@.len() && position_of(devs@, path@) == Some(k as int),
        r is None ==> position_of(devs@, path@) is None,
{
    let mut i: usize = 0;
    while i < devs.len()
        invariant
            i <= devs@.len(),
            position_of(devs@.take(i as int), path@) is None,
        decreases devs@.len() - i,
    {
        assert(devs@.take(i + 1).drop_last() =~= devs@.take(i as int));
        if chars_eq(&chars_of(devs[i].path.as_str()), path) {
            proof {
                lemma_position_prefix(devs@, path@, i as int + 1);
            }
            return Some(i);
        }
        i += 1;
    }
    assert(devs@.take(i as int) =~= devs@);
    None
}

/// A hit in a prefix of the list is the hit in the whole list.
proof fn lemma_position_prefix(devs: Seq<DeviceInfo>, path: Seq<char>, n: int)
    requires
        0 <= n <= devs.len(),
        position_of(devs.take(n), path) is Some,
    ensures
        position_of(devs, path) == position_of(devs.take(n), path),
    decreases devs.len(),
{
    if n < devs.len() {
        assert(devs.drop_last().take(n) =~= devs.take(n));
        lemma_position_prefix(devs.drop_last(), path, n);
    } else {
        assert(devs.take(n) =~= devs);
    }
}

impl AppController {
    /// Replace the device list with a fresh enumeration, keeping the
    /// previously selected drive selected when it is still there.
    pub fn refresh_devices(&mut self, devices: Vec<DeviceInfo>)
        requires
            devices@.len() <= i32::MAX,
        ensures
            final(self).devices@ == device_lines(devices@),
            final(self).device_list@ == devices@,
            final(self).selected_device == reselected(old(self).selected_spec(), devices@),
            final(self).fit_warning@ == fit_warning_spec(old(self).iso_report, final(self).selected_spec()),
            final(self).persistence_max_mib as int == max_persistence_spec(final(self).selected_spec(), old(self).iso_report),
            final(self).persistence_size == clamp_size(old(self).persistence_size, final(self).persistence_max_mib),
            final(self).iso_report == old(self).iso_report,
            final(self).iso_path == old(self).iso_path,
    {
        let prev: Option<Vec<char>> = match self.selected_info() {
            Some(d) => Some(chars_of(d.path.as_str())),
            None => None,
        };
        let mut lines: Vec<Vec<char>> = Vec::new();
        let mut i: usize = 0;
        while i < devices.len()
            invariant
                i <= devices@.len(),
                lines@.len() == i,
                forall|k: int| 0 <= k < i ==> (#[trigger] lines@[k])@ == devices@[k].display_spec(),
            decreases devices@.len() - i,
        {
            lines.push(chars_of(devices[i].display().as_str()));
            i += 1;
        }
        let joined = crate::text::join_with_newlines(&lines);
        assert(Seq::new(lines@.len(), |k: int| lines@[k]@) =~= Seq::new(
            devices@.len(),
            |k: int| devices@[k].display_spec(),
        ));
        let fallback: i32 = if devices.len() == 0 { -1 } else { 0 };
        let selected: i32 = match prev {
            Some(p) => match find_path(&devices, &p) {
                Some(k) => k as i32,
                None => fallback,
            },
            None => fallback,
        };
        self.devices = string_from_chars(&joined);
        self.selected_device = selected;
        self.device_list = devices;
        self.refresh_fit_warning();
        self.refresh_persistence_max();
    }

    /// Take over an analyzed image: its name and summary, label, persistence
    /// support, distribution, Windows metadata, revocation warnings and, for a
    /// downloaded image, its digests; the write method follows the image's OS
    /// unless an explicit *format only*, Ventoy or FreeDOS choice was made. A
    /// digest computation still running for the previous image is disowned.
    pub fn apply_iso(&mut self, path: &str, report: IsoReport, win: Option<WindowsMeta>, hashes: Option<&IsoHashes>)
        requires
            old(self).hash_generation < u64::MAX,
        ensures
            final(self).iso_path@ == path@,
            final(self).iso_summary@ == iso_summary_spec(path@, report),
            final(self).label@ == report.label@,
            final(self).persistence_supported == report.persistence is Some,
            final(self).persistence_inline == inline_persistence(report.persistence),
            final(self).distro_label@ == distro_label_spec(report.distro),
            final(self).windows_iso == (report.os_kind == OsKind::Windows),
            final(self).linux_iso == (report.os_kind == OsKind::Linux),
            final(self).windows_build == applied_build(report, win),
            final(self).windows_arch@ == applied_arch(report, win),
            final(self).method == applied_method(old(self).method, report.os_kind),
            final(self).revocation_warnings@ == warnings_text(report.revocation_warnings@),
            final(self).iso_report == Some(report),
            match hashes {
                Some(h) => final(self).iso_md5@ == h.md5@ && final(self).iso_sha1@ == h.sha1@
                    && final(self).iso_sha256@ == h.sha256@ && final(self).iso_sha512@ == h.sha512@
                    && final(self).iso_blake3@ == h.blake3@,
                None => final(self).iso_md5@.len() == 0 && final(self).iso_sha1@.len() == 0
                    && final(self).iso_sha256@.len() == 0 && final(self).iso_sha512@.len() == 0
                    && final(self).iso_blake3@.len() == 0,
            },
            final(self).hash_generation == old(self).hash_generation + 1,
            !final(self).hashing,
            final(self).persistence_size == 0,
            final(self).fit_warning@ == fit_warning_spec(Some(report), old(self).selected_spec()),
            final(self).persistence_max_mib as int == max_persistence_spec(old(self).selected_spec(), Some(report)),
            final(self).device_list == old(self).device_list,
            final(self).selected_device == old(self).selected_device,
            final(self).iso_adguard_badge == old(self).iso_adguard_badge,
            final(self).busy == old(self).busy && final(self).status == old(self).status,
            final(self).phase == old(self).phase && final(self).speed == old(self).speed
                && final(self).eta == old(self).eta,
    {
        let mut summary = file_name_or_path(path);
        append_chars(&mut summary, &chars_of("  \u{b7}  "));
        append_chars(&mut summary, &chars_of(report.summary().as_str()));
        let pers_supported = report.persistence.is_some();
        let pers_inline = match report.persistence {
            Some(k) => !k.needs_partition(),
            None => false,
        };
        let distro_label = if report.distro == DistroFamily::Unknown {
            String::new()
        } else {
            lit(report.distro.display())
        };
        let is_windows = report.os_kind == OsKind::Windows;
        let is_linux = report.os_kind == OsKind::Linux;
        self.hash_generation = self.hash_generation + 1;
        self.hashing = false;
        self.iso_path = lit(path);
        self.iso_summary = string_from_chars(&summary);
        self.label = string_from_chars(&chars_of(report.label.as_str()));
        self.persistence_supported = pers_supported;
        self.persistence_inline = pers_inline;
        self.distro_label = distro_label;
        self.persistence_size = 0;
        self.windows_iso = is_windows;
        self.linux_iso = is_linux;
        let (build, arch): (i32, String) = match win {
            Some(w) => if is_windows {
                let a = match w.arch {
                    Some(a) => a,
                    None => String::new(),
                };
                (w.build as i32, a)
            } else {
                (0, String::new())
            },
            None => (0, String::new()),
        };
        self.windows_build = build;
        self.windows_arch = arch;
        if self.method < 2 {
            self.method = if is_windows || is_linux { 1 } else { 0 };
        }
        self.revocation_warnings = join_strings(&report.revocation_warnings);
        self.iso_report = Some(report);
        match hashes {
            Some(h) => {
                self.iso_md5 = lit(h.md5.as_str());
                self.iso_sha1 = lit(h.sha1.as_str());
                self.iso_sha256 = lit(h.sha256.as_str());
                self.iso_sha512 = lit(h.sha512.as_str());
                self.iso_blake3 = lit(h.blake3.as_str());
            },
            None => {
                self.iso_md5 = String::new();
                self.iso_sha1 = String::new();
                self.iso_sha256 = String::new();
                self.iso_sha512 = String::new();
                self.iso_blake3 = String::new();
            },
        }
        self.refresh_fit_warning();
        self.refresh_persistence_max();
    }
}

/// The partition table of each entry of the table combo.
pub open spec fn table_of(index: i32) -> PartitionTable {
    if index == 1 {
        PartitionTable::Mbr
    } else if index == 2 {
        PartitionTable::MbrBiosUefi
    } else if index == 3 {
        PartitionTable::HybridMbrGpt
    } else {
        PartitionTable::Gpt
    }
}

/// The filesystem at a combo index among the installed ones; out of range
/// falls back to the first installed one, or FAT32 when none is.
pub open spec fn fs_at(kinds: Seq<FileSystem>, index: i32) -> FileSystem {
    if 0 <= index < kinds.len() {
        kinds[index as int]
    } else if kinds.len() > 0 {
        kinds[0]
    } else {
        FileSystem::Fat32
    }
}

/// FreeDOS boots from FAT16 or FAT32; any other choice becomes FAT32.
pub open spec fn freedos_fs(fs: FileSystem) -> FileSystem {
    if fs == FileSystem::Fat16 || fs == FileSystem::Fat32 {
        fs
    } else {
        FileSystem::Fat32
    }
}

/// An optional string by its characters.
pub open spec fn opt_view(o: Option<String>) -> Option<Seq<char>> {
    match o {
        Some(s) => Some(s@),
        None => None,
    }
}

/// A field trimmed, or none when only white space is left.
pub open spec fn trimmed_spec(s: Seq<char>) -> Option<Seq<char>> {
    if trim(s).len() > 0 {
        Some(trim(s))
    } else {
        None
    }
}

/// A field as typed, or none when empty.
pub open spec fn non_empty_spec(s: Seq<char>) -> Option<Seq<char>> {
    if s.len() > 0 {
        Some(s)
    } else {
        None
    }
}

/// The installer customization that a form describes: the flags as ticked,
/// the text fields trimmed (the password as typed), empty ones left out.
pub open spec fn setup_from_form(w: WindowsSetup, f: SetupForm) -> bool {
    &&& w.bypass_tpm == f.bypass_tpm
    &&& w.bypass_secureboot == f.bypass_secureboot
    &&& w.bypass_ram == f.bypass_ram
    &&& w.bypass_storage == f.bypass_storage
    &&& w.bypass_cpu == f.bypass_cpu
    &&& w.bypass_disk == f.bypass_disk
    &&& w.skip_msaccount == f.skip_msaccount
    &&& w.disable_network_during_oobe == f.disable_network_during_oobe
    &&& w.hide_wireless_setup == f.hide_wireless_setup
    &&& w.hide_oem_registration == f.hide_oem_registration
    &&& w.network_location_work == f.network_location_work
    &&& w.disable_telemetry == f.disable_telemetry
    &&& w.accept_eula == f.accept_eula
    &&& w.enable_dotnet35 == f.enable_dotnet35
    &&& w.apply_debloat == f.apply_debloat
    &&& w.disable_bitlocker == f.disable_bitlocker
    &&& w.windows_ca_2023 == f.windows_ca_2023
    &&& w.desktop_helpers == f.desktop_helpers
    &&& opt_view(w.local_account) == trimmed_spec(f.local_account@)
    &&& opt_view(w.local_account_password) == non_empty_spec(f.local_account_password@)
    &&& opt_view(w.computer_name) == trimmed_spec(f.computer_name@)
    &&& opt_view(w.locale) == trimmed_spec(f.locale@)
    &&& opt_view(w.timezone) == trimmed_spec(f.timezone@)
    &&& opt_view(w.product_key) == trimmed_spec(f.product_key@)
}

/// The form asks for some customization.
pub open spec fn form_active(f: SetupForm) -> bool {
    ||| f.bypass_tpm || f.bypass_secureboot || f.bypass_ram || f.bypass_storage
    ||| f.bypass_cpu || f.bypass_disk || f.skip_msaccount || f.disable_network_during_oobe
    ||| f.hide_wireless_setup || f.hide_oem_registration || f.network_location_work
    ||| f.disable_telemetry || f.accept_eula || f.enable_dotnet35
    ||| f.apply_debloat || f.disable_bitlocker || f.windows_ca_2023 || f.desktop_helpers
    ||| trimmed_spec(f.local_account@) is Some
    ||| non_empty_spec(f.local_account_password@) is Some
    ||| trimmed_spec(f.computer_name@) is Some
    ||| trimmed_spec(f.locale@) is Some
    ||| trimmed_spec(f.timezone@) is Some
    ||| trimmed_spec(f.product_key@) is Some
}

/// The filesystem and install-image handling of a partition-and-copy
/// write: decided from the analysis, with *split* replacing the UEFI:NTFS
/// layout by FAT32 and a split install image when asked for.
pub open spec fn layout_spec(report: Option<IsoReport>, split: bool) -> (FileSystem, WimStrategy) {
    let auto = match report {
        Some(r) => if needs_wim_choice_spec(r) {
            (FileSystem::Ntfs, WimStrategy::UefiNtfs)
        } else {
            (FileSystem::Fat32, WimStrategy::NotNeeded)
        },
        None => (FileSystem::Fat32, WimStrategy::NotNeeded),
    };
    if split && auto.1 == WimStrategy::UefiNtfs {
        (FileSystem::Fat32, WimStrategy::Split)
    } else {
        auto
    }
}

/// The persistent overlay requested: the image's scheme, when it has one,
/// sized from the slider (in MiB) for a partition scheme, which then needs a
/// non-zero size; an inline scheme takes no size.
pub open spec fn persistence_request(report: Option<IsoReport>, size_mib: i32) -> Option<Persistence> {
    match report {
        Some(r) => match r.persistence {
            Some(k) => {
                let needs = !(k == PersistenceKind::SlaxChanges || k == PersistenceKind::AlpineLbu);
                if !needs || size_mib > 0 {
                    Some(Persistence { kind: k, size_bytes: if needs { (size_mib * 1048576) as u64 } else { 0 } })
                } else {
                    None
                }
            },
            None => None,
        },
        None => None,
    }
}

/// The image ships an isolinux configuration.
pub open spec fn ships_isolinux(report: Option<IsoReport>) -> bool {
    match report {
        Some(r) => r.has_isolinux,
        None => false,
    }
}

/// The same drive as enumerated: every field equal.
pub open spec fn same_device(a: DeviceInfo, b: DeviceInfo) -> bool {
    &&& a.path@ == b.path@
    &&& a.model@ == b.model@
    &&& a.size == b.size
    &&& a.removable == b.removable
    &&& opt_view(a.bus) == opt_view(b.bus)
    &&& opt_view(a.serial) == opt_view(b.serial)
    &&& opt_view(a.vendor) == opt_view(b.vendor)
}

fn opt_str_eq(a: &Option<String>, b: &Option<String>) -> (r: bool)
    ensures
        r == (opt_view(*a) == opt_view(*b)),
{
    match (a, b) {
        (Some(x), Some(y)) => chars_eq(&chars_of(x.as_str()), &chars_of(y.as_str())),
        (None, None) => true,
        _ => false,
    }
}

/// Whether two descriptions are of the same drive, field by field.
pub fn is_same_device(a: &DeviceInfo, b: &DeviceInfo) -> (r: bool)
    ensures
        r == same_device(*a, *b),
{
    chars_eq(&chars_of(a.path.as_str()), &chars_of(b.path.as_str()))
        && chars_eq(&chars_of(a.model.as_str()), &chars_of(b.model.as_str())) && a.size == b.size
        && a.removable == b.removable && opt_str_eq(&a.bus, &b.bus) && opt_str_eq(&a.serial, &b.serial)
        && opt_str_eq(&a.vendor, &b.vendor)
}

/// Whether `list` holds a description of the drive `d`.
pub fn contains_device(list: &Vec<DeviceInfo>, d: &DeviceInfo) -> (r: bool)
    ensures
        r == exists|i: int| 0 <= i < list@.len() && same_device(#[trigger] list@[i], *d),
{
    let mut i: usize = 0;
    while i < list.len()
        invariant
            i <= list@.len(),
            forall|k: int| 0 <= k < i ==> !same_device(#[trigger] list@[k], *d),
        decreases list@.len() - i,
    {
        if is_same_device(&list[i], d) {
            return true;
        }
        i += 1;
    }
    false
}

/// What the start action decided before the outside checks on the drive.
#[derive(Debug, Clone)]
pub enum StartGate {
    /// Nothing can start; the status line says why.
    Refused,
    /// The selected drive is not the one enumerated any more; the device
    /// list was refreshed.
    DeviceChanged,
    /// Go on with the drive at this device node.
    Proceed(String),
}

impl AppController {
    /// The options every writing job takes from the form.
    pub open spec fn opts_from_form(&self, o: JobOptions) -> bool {
        o.label@ == self.label@ && o.full_format == self.full_format && o.verify == self.verify
    }

    /// The job that the form describes for the drive at `dev`.
    pub open spec fn job_fits(&self, j: Job, dev: Seq<char>) -> bool {
        match j {
            Job::Dd { iso_path, device_path, opts } => {
                &&& self.method == 0
                &&& iso_path@ == self.iso_path@
                &&& device_path@ == dev
                &&& opts.label@.len() == 0 && !opts.full_format && !opts.verify
            },
            Job::Format { device_path, table, filesystem, opts } => {
                &&& self.method == 2
                &&& device_path@ == dev
                &&& table == table_of(self.table)
                &&& filesystem == fs_at(self.available_filesystem_kinds@, self.filesystem)
                &&& self.opts_from_form(opts)
            },
            Job::Ventoy { device_path, table, secure_boot, update, iso_path } => {
                &&& self.method == 3
                &&& device_path@ == dev
                &&& table == table_of(self.table)
                &&& secure_boot == self.ventoy_secure_boot
                &&& update == self.ventoy_update
                &&& opt_view(iso_path) == non_empty_spec(self.iso_path@)
            },
            Job::Freedos { device_path, table, filesystem, kernel_sys, command_com, boot_bin, opts } => {
                &&& self.method == 4
                &&& device_path@ == dev
                &&& table == table_of(self.table)
                &&& filesystem == freedos_fs(fs_at(self.available_filesystem_kinds@, self.filesystem))
                &&& kernel_sys@.len() == 0 && command_com@.len() == 0 && boot_bin@.len() == 0
                &&& self.opts_from_form(opts)
            },
            Job::Partitioned {
                iso_path,
                device_path,
                table,
                filesystem,
                wim,
                uefi_ntfs_img,
                persistence,
                windows_setup,
                install_bootloader,
                distro,
                opts,
            } => {
                &&& !(self.method == 0 || self.method == 2 || self.method == 3 || self.method == 4)
                &&& iso_path@ == self.iso_path@
                &&& device_path@ == dev
                &&& table == table_of(self.table)
                &&& (filesystem, wim) == layout_spec(self.iso_report, self.split_wim)
                &&& uefi_ntfs_img is None
                &&& persistence == persistence_request(self.iso_report, self.persistence_size)
                &&& (windows_setup is Some <==> self.windows_iso && form_active(self.setup))
                &&& (windows_setup matches Some(w) ==> setup_from_form(w, self.setup))
                &&& install_bootloader == (self.linux_iso && ships_isolinux(self.iso_report))
                &&& distro == match self.iso_report {
                    Some(r) => r.distro,
                    None => DistroFamily::Unknown,
                }
                &&& self.opts_from_form(opts)
            },
            _ => false,
        }
    }

    /// The filesystem at a combo index among the installed ones.
    pub fn filesystem_kind_from_index(&self, index: i32) -> (r: FileSystem)
        ensures
            r == fs_at(self.available_filesystem_kinds@, index),
    {
        let kinds = &self.available_filesystem_kinds;
        if index >= 0 && (index as usize) < kinds.len() {
            return kinds[index as usize];
        }
        if kinds.len() > 0 {
            kinds[0]
        } else {
            FileSystem::Fat32
        }
    }

    /// The installer customization of the form.
    pub fn collect_windows_setup(&self) -> (r: WindowsSetup)
        ensures
            setup_from_form(r, self.setup),
            r.is_active_spec() == form_active(self.setup),
    {
        let f = &self.setup;
        WindowsSetup {
            bypass_tpm: f.bypass_tpm,
            bypass_secureboot: f.bypass_secureboot,
            bypass_ram: f.bypass_ram,
            bypass_storage: f.bypass_storage,
            bypass_cpu: f.bypass_cpu,
            bypass_disk: f.bypass_disk,
            skip_msaccount: f.skip_msaccount,
            disable_network_during_oobe: f.disable_network_during_oobe,
            hide_wireless_setup: f.hide_wireless_setup,
            hide_oem_registration: f.hide_oem_registration,
            network_location_work: f.network_location_work,
            disable_telemetry: f.disable_telemetry,
            accept_eula: f.accept_eula,
            enable_dotnet35: f.enable_dotnet35,
            local_account: trimmed_opt(f.local_account.as_str()),
            local_account_password: non_empty_opt(f.local_account_password.as_str()),
            computer_name: trimmed_opt(f.computer_name.as_str()),
            locale: trimmed_opt(f.locale.as_str()),
            timezone: trimmed_opt(f.timezone.as_str()),
            product_key: trimmed_opt(f.product_key.as_str()),
            apply_debloat: f.apply_debloat,
            disable_bitlocker: f.disable_bitlocker,
            windows_ca_2023: f.windows_ca_2023,
            desktop_helpers: f.desktop_helpers,
        }
    }

    fn form_opts(&self) -> (r: JobOptions)
        ensures
            self.opts_from_form(r),
    {
        JobOptions { label: lit(self.label.as_str()), full_format: self.full_format, verify: self.verify }
    }

    /// The job the form describes for the selected drive.
    pub fn build_job(&self) -> (r: Job)
        requires
            self.selected_spec() is Some,
        ensures
            self.job_fits(r, self.selected_spec()->0.path@),
    {
        let dev = match self.selected_info() {
            Some(d) => lit(d.path.as_str()),
            None => String::new(),
        };
        let table = if self.table == 1 {
            PartitionTable::Mbr
        } else if self.table == 2 {
            PartitionTable::MbrBiosUefi
        } else if self.table == 3 {
            PartitionTable::HybridMbrGpt
        } else {
            PartitionTable::Gpt
        };
        if self.method == 0 {
            Job::Dd { iso_path: lit(self.iso_path.as_str()), device_path: dev, opts: JobOptions::default() }
        } else if self.method == 2 {
            Job::Format {
                device_path: dev,
                table,
                filesystem: self.filesystem_kind_from_index(self.filesystem),
                opts: self.form_opts(),
            }
        } else if self.method == 3 {
            let iso = if chars_of(self.iso_path.as_str()).len() > 0 {
                Some(lit(self.iso_path.as_str()))
            } else {
                None
            };
            Job::Ventoy {
                device_path: dev,
                table,
                secure_boot: self.ventoy_secure_boot,
                update: self.ventoy_update,
                iso_path: iso,
            }
        } else if self.method == 4 {
            let chosen = self.filesystem_kind_from_index(self.filesystem);
            let filesystem = match chosen {
                FileSystem::Fat16 | FileSystem::Fat32 => chosen,
                _ => FileSystem::Fat32,
            };
            Job::Freedos {
                device_path: dev,
                table,
                filesystem,
                kernel_sys: String::new(),
                command_com: String::new(),
                boot_bin: String::new(),
                opts: self.form_opts(),
            }
        } else {
            let (mut filesystem, mut wim) = match &self.iso_report {
                Some(r) => auto_filesystem(r),
                None => (FileSystem::Fat32, WimStrategy::NotNeeded),
            };
            if self.split_wim && wim == WimStrategy::UefiNtfs {
                filesystem = FileSystem::Fat32;
                wim = WimStrategy::Split;
            }
            let persistence = match &self.iso_report {
                Some(r) => match r.persistence {
                    Some(kind) => {
                        let needs = kind.needs_partition();
                        if !needs || self.persistence_size > 0 {
                            let size_bytes: u64 = if needs {
                                (self.persistence_size as u64) * 1024 * 1024
                            } else {
                                0
                            };
                            Some(Persistence { kind, size_bytes })
                        } else {
                            None
                        }
                    },
                    None => None,
                },
                None => None,
            };
            let windows_setup = if self.windows_iso {
                let setup = self.collect_windows_setup();
                if setup.is_active() {
                    Some(setup)
                } else {
                    None
                }
            } else {
                None
            };
            let install_bootloader = self.linux_iso && match &self.iso_report {
                Some(r) => r.has_isolinux,
                None => false,
            };
            let distro = match &self.iso_report {
                Some(r) => r.distro,
                None => DistroFamily::Unknown,
            };
            Job::Partitioned {
                iso_path: lit(self.iso_path.as_str()),
                device_path: dev,
                table,
                filesystem,
                wim,
                uefi_ntfs_img: None,
                persistence,
                windows_setup,
                install_bootloader,
                distro,
                opts: self.form_opts(),
            }
        }
    }
}

/// The extension of a path's file name: what follows its last `.`, unless
/// that dot opens the name.
pub open spec fn extension_spec(path: Seq<char>) -> Option<Seq<char>> {
    match path_file_name(path) {
        Some(name) => match crate::windisco::last_index_of(name, '.') {
            Some(i) => if i > 0 {
                Some(name.subrange(i + 1, name.len() as int))
            } else {
                None
            },
            None => None,
        },
        None => None,
    }
}

/// A path names a `.vhd` file (in any letter case).
pub open spec fn is_vhd_path(path: Seq<char>) -> bool {
    match extension_spec(path) {
        Some(e) => crate::text::eq_ignore_case(e, "vhd"@),
        None => false,
    }
}

/// What becomes of a picked source image, decided before the work that
/// reads it.
#[derive(Debug, Clone, Copy, PartialEq, Eq, Structural)]
pub enum SourceAction {
    /// No path was given; nothing changes.
    Ignore,
    /// The path is not a readable file.
    Unreadable,
    /// A fixed VHD: strip its footer, then analyze the plain image.
    UnwrapVhd,
    /// A plain image: analyze it.
    Analyze,
    /// A compressed image: decompress it to the cache, then analyze it.
    Decompress,
}

/// The action for a picked path, whether it is a readable file, and the
/// compression detected in it.
pub open spec fn source_action_spec(path: Seq<char>, readable: bool, compression: Compression) -> SourceAction {
    if path.len() == 0 {
        SourceAction::Ignore
    } else if !readable {
        SourceAction::Unreadable
    } else if compression == Compression::Uncompressed {
        if is_vhd_path(path) {
            SourceAction::UnwrapVhd
        } else {
            SourceAction::Analyze
        }
    } else {
        SourceAction::Decompress
    }
}

fn extension_of(path: &str) -> (r: Option<Vec<char>>)
    ensures
        match extension_spec(path@) {
            Some(e) => r matches Some(x) && x@ == e,
            None => r is None,
        },
{
    let name = file_name_or_path(path);
    if path_file_name_is_some(path) {
        assert(path_file_name(path@) == Some(name@));
        let mut k: usize = name.len();
        assert(name@.take(k as int) =~= name@);
        while k > 0
            invariant
                k <= name@.len(),
                path_file_name(path@) == Some(name@),
                crate::windisco::last_index_of(name@, '.') == crate::windisco::last_index_of(name@.take(k as int), '.'),
            decreases k,
        {
            if name[k - 1] == '.' {
                assert(name@.take(k as int).last() == '.');
                assert(crate::windisco::last_index_of(name@, '.') == Some(k - 1));
                if k - 1 > 0 {
                    return Some(crate::text::slice_chars(&name, k, name.len()));
                } else {
                    return None;
                }
            }
            assert(name@.take(k as int).drop_last() =~= name@.take(k - 1));
            k = k - 1;
        }
        None
    } else {
        None
    }
}

fn path_file_name_is_some(path: &str) -> (r: bool)
    ensures
        r == path_file_name(path@) is Some,
{
    let v = chars_of(path);
    let mut end: usize = v.len();
    assert(v@.take(end as int) =~= v@);
    loop
        invariant
            end <= v@.len(),
            path_file_name(v@) == path_file_name(v@.take(end as int)),
            v@ == path@,
        decreases end,
    {
        if end == 0 {
            return false;
        }
        if v[end - 1] == '/' {
            assert(v@.take(end as int).drop_last() =~= v@.take(end - 1));
            end = end - 1;
            continue;
        }
        let mut start: usize = end;
        while start > 0 && v[start - 1] != '/'
            invariant
                start <= end <= v@.len(),
                forall|j: int| start <= j < end ==> v@[j] != '/',
            decreases start,
        {
            start = start - 1;
        }
        let ghost p = v@.take(end as int);
        proof {
            lemma_last_segment_at(p, start as int);
        }
        let seg = crate::text::slice_chars(&v, start, end);
        assert(seg@ =~= crate::windisco::last_segment(p));
        assert(p.take(p.len() - seg@.len()) =~= v@.take(start as int));
        if chars_eq(&seg, &chars_of(".")) {
            end = start;
        } else {
            return !chars_eq(&seg, &chars_of(".."));
        }
    }
}

impl AppController {
    /// Take a picked source image (a local path, `file://` already
    /// resolved): an empty path is ignored, an unreadable one reported, and
    /// otherwise the state shows the work about to run on it (unwrapping a
    /// fixed VHD, analyzing, or decompressing).
    #[verifier::rlimit(60)]
    #[verifier::spinoff_prover]
    pub fn set_iso(&mut self, path: &str, readable: bool, compression: Compression) -> (r: SourceAction)
        ensures
            r == source_action_spec(path@, readable, compression),
            r == SourceAction::Ignore ==> *final(self) == *old(self),
            r == SourceAction::Unreadable ==> *final(self) == (AppController {
                iso_summary: final(self).iso_summary,
                ..*old(self)
            }) && final(self).iso_summary@ == "Cannot read that file"@,
            r == SourceAction::UnwrapVhd ==> {
                &&& final(self).busy
                &&& final(self).phase@ == "Unwrapping VHD"@
                &&& final(self).iso_summary@ == "Unwrapping fixed VHD\u{2026}"@
                &&& final(self).status@ == "Unwrapping fixed VHD\u{2026}"@
                &&& final(self).iso_sha256@.len() == 0 && final(self).iso_path@.len() == 0
            },
            r == SourceAction::Analyze ==> {
                &&& final(self).busy
                &&& final(self).phase@ == "Analyzing"@
                &&& final(self).iso_summary@ == "Analyzing source image\u{2026}"@
                &&& final(self).status@ == "Analyzing source image\u{2026}"@
                &&& final(self).iso_path == old(self).iso_path
            },
            r == SourceAction::Decompress ==> {
                &&& final(self).busy
                &&& final(self).phase@ == "Decompressing"@
                &&& final(self).iso_summary@ == "Decompressing source image\u{2026}"@
                &&& final(self).status@ == "Decompressing source image\u{2026}"@
                &&& final(self).iso_sha256@.len() == 0 && final(self).iso_path@.len() == 0
            },
            final(self).device_list == old(self).device_list,
            final(self).selected_device == old(self).selected_device,
            final(self).iso_report == old(self).iso_report,
    {
        if chars_of(path).len() == 0 {
            return SourceAction::Ignore;
        }
        if !readable {
            self.iso_summary = lit("Cannot read that file");
            return SourceAction::Unreadable;
        }
        match compression {
            Compression::Uncompressed => {
                let vhd = match extension_of(path) {
                    Some(e) => crate::text::eq_ignore_ascii_case(&e, &chars_of("vhd")),
                    None => false,
                };
                if vhd {
                    self.busy = true;
                    self.phase = lit("Unwrapping VHD");
                    self.iso_summary = lit("Unwrapping fixed VHD\u{2026}");
                    self.iso_sha256 = String::new();
                    self.iso_path = String::new();
                    self.status = lit("Unwrapping fixed VHD\u{2026}");
                    SourceAction::UnwrapVhd
                } else {
                    self.busy = true;
                    self.phase = lit("Analyzing");
                    self.iso_summary = lit("Analyzing source image\u{2026}");
                    self.status = lit("Analyzing source image\u{2026}");
                    SourceAction::Analyze
                }
            },
            _ => {
                self.busy = true;
                self.phase = lit("Decompressing");
                self.iso_summary = lit("Decompressing source image\u{2026}");
                self.iso_sha256 = String::new();
                self.iso_path = String::new();
                self.status = lit("Decompressing source image\u{2026}");
                SourceAction::Decompress
            },
        }
    }

    /// The start action up to the outside checks on the drive: refused
    /// (with a status saying why) unless a write can start; refused as well
    /// when the selected drive is not among `current`, a fresh enumeration,
    /// in which case the device list is refreshed from it; otherwise the
    /// drive's device node to go on with.
    pub fn start(&mut self, current: Vec<DeviceInfo>) -> (r: StartGate)
        requires
            current@.len() <= i32::MAX,
        ensures
            !old(self).can_start_spec() ==> r is Refused && *final(self) == (AppController {
                status: final(self).status,
                ..*old(self)
            }) && final(self).status@ == "Select an ISO and a target device first"@,
            old(self).can_start_spec() && old(self).selected_spec() is None ==> r is Refused
                && final(self).status@ == "Select a target device first"@,
            old(self).can_start_spec() ==> match old(self).selected_spec() {
                Some(d) => if exists|i: int| 0 <= i < current@.len() && same_device(#[trigger] current@[i], d) {
                    r matches StartGate::Proceed(p) && p@ == d.path@ && *final(self) == *old(self)
                } else {
                    &&& r is DeviceChanged
                    &&& final(self).status@ == "The selected device changed since it was chosen. The device list has been refreshed; check the target and start again."@
                    &&& final(self).device_list@ == current@
                    &&& final(self).selected_device == reselected(old(self).selected_spec(), current@)
                },
                None => true,
            },
    {
        if !self.can_start() {
            self.status = lit("Select an ISO and a target device first");
            return StartGate::Refused;
        }
        let selected_path: String;
        let present: bool;
        match self.selected_info() {
            Some(d) => {
                selected_path = lit(d.path.as_str());
                present = contains_device(&current, d);
            },
            None => {
                self.status = lit("Select a target device first");
                return StartGate::Refused;
            },
        }
        if !present {
            self.refresh_devices(current);
            self.status = lit(
                "The selected device changed since it was chosen. The device list has been refreshed; check the target and start again.",
            );
            return StartGate::DeviceChanged;
        }
        StartGate::Proceed(selected_path)
    }

    /// The partitions of `path` could not all be released: say so.
    pub fn report_unmount_failure(&mut self, path: &str, err: &str)
        ensures
            final(self).status@ == "Could not unmount "@ + path@ + ": "@ + err@
                + " Close any file manager that has it open and try again."@,
            *final(self) == (AppController { status: final(self).status, ..*old(self) }),
    {
        let mut m = chars_of("Could not unmount ");
        append_chars(&mut m, &chars_of(path));
        append_chars(&mut m, &chars_of(": "));
        append_chars(&mut m, &chars_of(err));
        append_chars(&mut m, &chars_of(" Close any file manager that has it open and try again."));
        self.status = string_from_chars(&m);
    }

    /// The device node vanished before the write: say so.
    pub fn report_device_gone(&mut self, path: &str)
        ensures
            final(self).status@ == path@ + " no longer exists. Was the drive removed?"@,
            *final(self) == (AppController { status: final(self).status, ..*old(self) }),
    {
        let mut m = chars_of(path);
        append_chars(&mut m, &chars_of(" no longer exists. Was the drive removed?"));
        self.status = string_from_chars(&m);
    }

    /// The checks passed: the job the form describes for the selected
    /// drive, with the state entering the running phase.
    pub fn launch_job(&mut self) -> (r: Job)
        requires
            old(self).selected_spec() is Some,
        ensures
            old(self).job_fits(r, old(self).selected_spec()->0.path@),
            final(self).busy,
            final(self).status@ == "Running\u{2026}"@,
            final(self).phase@ == "Starting"@,
            final(self).full_log@.len() == 0 && !final(self).log_non_empty,
            final(self).device_list == old(self).device_list,
            final(self).selected_device == old(self).selected_device,
    {
        let job = self.build_job();
        self.init_job_ui("Running\u{2026}");
        job
    }

    /// Start an integrity check of the selected drive: nothing while busy;
    /// without a selection only the status changes; otherwise the check job
    /// (mode index 1 is the full scan, any other the quick one) with the
    /// state entering the running phase.
    pub fn start_check(&mut self, mode_index: i32) -> (r: Option<Job>)
        ensures
            old(self).busy ==> r is None && *final(self) == *old(self),
            !old(self).busy ==> match old(self).selected_spec() {
                Some(d) => r matches Some(Job::Check { device_path, mode }) && device_path@ == d.path@
                    && mode == (if mode_index == 1 { CheckMode::Full } else { CheckMode::Quick })
                    && final(self).busy && final(self).status@ == "Checking device\u{2026}"@,
                None => r is None && final(self).status@ == "Select a target device first"@
                    && *final(self) == (AppController { status: final(self).status, ..*old(self) }),
            },
    {
        if self.busy {
            return None;
        }
        let path = match self.selected_info() {
            Some(d) => lit(d.path.as_str()),
            None => {
                self.status = lit("Select a target device first");
                return None;
            },
        };
        let mode = if mode_index == 1 {
            CheckMode::Full
        } else {
            CheckMode::Quick
        };
        self.init_job_ui("Checking device\u{2026}");
        Some(Job::Check { device_path: path, mode })
    }

    /// Start a backup of the selected drive into `image_path` (a leading
    /// `file://` is dropped): nothing while busy; without a selection or an
    /// output file only the status changes; otherwise the backup job, which
    /// verifies when the form asks for it, with the state entering the
    /// running phase.
    pub fn start_backup(&mut self, image_path: &str) -> (r: Option<Job>)
        ensures
            old(self).busy ==> r is None && *final(self) == *old(self),
            !old(self).busy && old(self).selected_spec() is None ==> r is None
                && final(self).status@ == "Select a target device first"@
                && *final(self) == (AppController { status: final(self).status, ..*old(self) }),
            !old(self).busy && old(self).selected_spec() is Some && without_file_scheme(image_path@).len() == 0
                ==> r is None && final(self).status@ == "Pick an output file for the backup"@
                && *final(self) == (AppController { status: final(self).status, ..*old(self) }),
            !old(self).busy && old(self).selected_spec() is Some && without_file_scheme(image_path@).len() > 0
                ==> (r matches Some(Job::Backup { device_path, image_path: out, opts })
                && device_path@ == old(self).selected_spec()->0.path@
                && out@ == without_file_scheme(image_path@)
                && opts.label@.len() == 0 && !opts.full_format && opts.verify == old(self).verify
                && final(self).busy && final(self).status@ == "Backing up\u{2026}"@),
    {
        if self.busy {
            return None;
        }
        let dev = match self.selected_info() {
            Some(d) => lit(d.path.as_str()),
            None => {
                self.status = lit("Select a target device first");
                return None;
            },
        };
        let path = strip_file_scheme(image_path);
        if path.len() == 0 {
            self.status = lit("Pick an output file for the backup");
            return None;
        }
        let verify = self.verify;
        let job = backup_job(dev, string_from_chars(&path), verify);
        self.init_job_ui("Backing up\u{2026}");
        Some(job)
    }

    /// Ask the running job to stop (the signal itself is sent outside).
    pub fn cancel(&mut self)
        ensures
            final(self).status@ == "Cancelling\u{2026}"@,
            *final(self) == (AppController { status: final(self).status, ..*old(self) }),
    {
        self.status = lit("Cancelling\u{2026}");
    }

    /// Replay the command-line arguments once the window is up: `--device`
    /// selects the enumerated drive with that path, or says it is absent;
    /// the `--iso` path is handed back to be opened like a picked image.
    /// Returns the log line of the selection, if any, and the image path.
    pub fn apply_startup_args(&mut self, args: &StartupArgs) -> (r: (Option<String>, Option<String>))
        ensures
            opt_view(r.1) == opt_view(args.iso),
            match args.device {
                Some(want) => match position_of(old(self).device_list@, want@) {
                    Some(i) => {
                        &&& final(self).selected_device == i as i32
                        &&& final(self).fit_warning@ == fit_warning_spec(old(self).iso_report, device_at(old(self).device_list@, i as i32))
                        &&& match device_at(old(self).device_list@, i as i32) {
                            Some(d) => r.0 matches Some(l) && l@ == selection_log_line(d),
                            None => r.0 is None,
                        }
                    },
                    None => {
                        &&& r.0 is None
                        &&& final(self).status@ == "Device "@ + want@ + " from --device is not present"@
                        &&& *final(self) == (AppController { status: final(self).status, ..*old(self) })
                    },
                },
                None => r.0 is None && *final(self) == *old(self),
            },
    {
        let mut line: Option<String> = None;
        match &args.device {
            Some(want) => {
                let w = chars_of(want.as_str());
                match find_path(&self.device_list, &w) {
                    Some(k) => {
                        line = self.select_device(k as i32);
                    },
                    None => {
                        let mut m = chars_of("Device ");
                        append_chars(&mut m, &w);
                        append_chars(&mut m, &chars_of(" from --device is not present"));
                        self.status = string_from_chars(&m);
                    },
                }
            },
            None => {},
        }
        let iso = match &args.iso {
            Some(p) => Some(lit(p.as_str())),
            None => None,
        };
        (line, iso)
    }

    /// Fill the installer's locale and time zone from the host: the locale
    /// as given, the IANA zone mapped to its Windows name (`UTC` when it
    /// has none), and a status line saying what was copied.
    pub fn replicate_regional_from_host(&mut self, locale: &str, iana: &str)
        ensures
            final(self).setup.locale@ == locale@,
            final(self).setup.timezone@ == windows_zone_spec(iana@),
            final(self).status@ == "Copied host regional settings: "@ + locale@ + " / "@ + windows_zone_spec(iana@),
            final(self).device_list == old(self).device_list,
            final(self).iso_report == old(self).iso_report,
    {
        let ms_tz = match crate::timezones::from_iana(iana) {
            Some(z) => z,
            None => "UTC",
        };
        self.setup.locale = lit(locale);
        self.setup.timezone = lit(ms_tz);
        let mut m = chars_of("Copied host regional settings: ");
        append_chars(&mut m, &chars_of(locale));
        append_chars(&mut m, &chars_of(" / "));
        append_chars(&mut m, &chars_of(ms_tz));
        self.status = string_from_chars(&m);
    }
}

/// The Windows time-zone name of an IANA zone, `UTC` when there is none.
pub open spec fn windows_zone_spec(iana: Seq<char>) -> Seq<char> {
    match crate::timezones::iana_lookup(crate::timezones::iana_table(), iana) {
        Some(ms) => ms,
        None => "UTC"@,
    }
}

fn backup_job(device_path: String, image_path: String, verify: bool) -> (r: Job)
    ensures
        r matches Job::Backup { device_path: d, image_path: i, opts } && d == device_path && i == image_path
            && opts.label@.len() == 0 && !opts.full_format && opts.verify == verify,
{
    Job::Backup {
        device_path,
        image_path,
        opts: JobOptions { label: String::new(), full_format: false, verify },
    }
}

/// A path with a leading `file://` dropped.
pub open spec fn without_file_scheme(p: Seq<char>) -> Seq<char> {
    if is_prefix("file://"@, p) {
        p.subrange(7, p.len() as int)
    } else {
        p
    }
}

fn strip_file_scheme(p: &str) -> (r: Vec<char>)
    ensures
        r@ == without_file_scheme(p@),
{
    let v = chars_of(p);
    if crate::text::starts_with(&v, &chars_of("file://")) {
        proof {
            reveal_strlit("file://");
        }
        crate::text::slice_chars(&v, 7, v.len())
    } else {
        v
    }
}

impl AppController {
    /// The job ended: leave the busy state, name the phase after the
    /// outcome, and show the message.
    pub fn finish_job(&mut self, success: bool, message: &str)
        ensures
            !final(self).busy,
            final(self).phase@ == (if success { "Finished"@ } else { "Failed"@ }),
            final(self).speed@.len() == 0 && final(self).eta@.len() == 0,
            final(self).status@ == message@,
            *final(self) == (AppController {
                busy: false,
                phase: final(self).phase,
                speed: final(self).speed,
                eta: final(self).eta,
                status: final(self).status,
                ..*old(self)
            }),
    {
        self.busy = false;
        self.phase = if success { lit("Finished") } else { lit("Failed") };
        self.speed = String::new();
        self.eta = String::new();
        self.status = lit(message);
    }

    /// The off-thread analysis of the image at `path` is done: back to
    /// ready, and the image taken over as [`AppController::apply_iso`] does
    /// (its digests still to be computed).
    pub fn analysis_done(&mut self, path: &str, report: IsoReport, win: Option<WindowsMeta>)
        requires
            old(self).hash_generation < u64::MAX,
        ensures
            !final(self).busy,
            final(self).phase@.len() == 0 && final(self).speed@.len() == 0 && final(self).eta@.len() == 0,
            final(self).status@ == "Ready"@,
            final(self).iso_path@ == path@,
            final(self).iso_summary@ == iso_summary_spec(path@, report),
            final(self).label@ == report.label@,
            final(self).iso_report == Some(report),
            final(self).method == applied_method(old(self).method, report.os_kind),
            final(self).windows_build == applied_build(report, win),
            final(self).iso_sha256@.len() == 0,
            final(self).hash_generation == old(self).hash_generation + 1,
            final(self).device_list == old(self).device_list,
            final(self).selected_device == old(self).selected_device,
    {
        self.busy = false;
        self.phase = String::new();
        self.speed = String::new();
        self.eta = String::new();
        self.status = lit("Ready");
        self.apply_iso(path, report, win, None);
    }

    /// Preparing the source (decompressing, unwrapping) failed: back to
    /// idle with the message as summary and status.
    pub fn source_failed(&mut self, message: &str)
        ensures
            !final(self).busy,
            final(self).phase@.len() == 0 && final(self).speed@.len() == 0 && final(self).eta@.len() == 0,
            final(self).iso_summary@ == message@,
            final(self).status@ == message@,
            *final(self) == (AppController {
                busy: false,
                phase: final(self).phase,
                speed: final(self).speed,
                eta: final(self).eta,
                iso_summary: final(self).iso_summary,
                status: final(self).status,
                ..*old(self)
            }),
    {
        self.busy = false;
        self.phase = String::new();
        self.speed = String::new();
        self.eta = String::new();
        self.iso_summary = lit(message);
        self.status = lit(message);
    }

    /// Begin computing the image's digests: nothing without an image;
    /// otherwise the digests and badge are cleared, the spinners shown, and
    /// a new generation handed out with the path, so that results of an
    /// earlier computation are recognised as stale.
    pub fn compute_hashes(&mut self) -> (r: Option<(String, u64)>)
        requires
            old(self).hash_generation < u64::MAX,
        ensures
            old(self).iso_path@.len() == 0 ==> r is None && *final(self) == *old(self),
            old(self).iso_path@.len() > 0 ==> {
                &&& r matches Some((p, g)) && p@ == old(self).iso_path@ && g == final(self).hash_generation
                &&& final(self).hash_generation == old(self).hash_generation + 1
                &&& final(self).hashing
                &&& final(self).iso_md5@.len() == 0 && final(self).iso_sha1@.len() == 0
                &&& final(self).iso_sha256@.len() == 0 && final(self).iso_sha512@.len() == 0
                &&& final(self).iso_blake3@.len() == 0 && final(self).iso_adguard_badge@.len() == 0
                &&& final(self).iso_path == old(self).iso_path
                &&& final(self).iso_report == old(self).iso_report
            },
    {
        if chars_of(self.iso_path.as_str()).len() == 0 {
            return None;
        }
        self.iso_md5 = String::new();
        self.iso_sha1 = String::new();
        self.iso_sha256 = String::new();
        self.iso_sha512 = String::new();
        self.iso_blake3 = String::new();
        self.iso_adguard_badge = String::new();
        self.hashing = true;
        self.hash_generation = self.hash_generation + 1;
        Some((lit(self.iso_path.as_str()), self.hash_generation))
    }

    /// Digests computed for `generation` arrived: shown, with the
    /// rg-adguard badge, when they belong to the current image; dropped
    /// otherwise.
    pub fn hashes_ready(&mut self, generation: u64, hashes: &IsoHashes, badge: &str)
        ensures
            generation != old(self).hash_generation ==> *final(self) == *old(self),
            generation == old(self).hash_generation ==> {
                &&& final(self).iso_md5@ == hashes.md5@ && final(self).iso_sha1@ == hashes.sha1@
                &&& final(self).iso_sha256@ == hashes.sha256@ && final(self).iso_sha512@ == hashes.sha512@
                &&& final(self).iso_blake3@ == hashes.blake3@
                &&& final(self).iso_adguard_badge@ == badge@
                &&& !final(self).hashing
                &&& final(self).hash_generation == old(self).hash_generation
                &&& final(self).iso_path == old(self).iso_path
            },
    {
        if generation != self.hash_generation {
            return;
        }
        self.iso_md5 = lit(hashes.md5.as_str());
        self.iso_sha1 = lit(hashes.sha1.as_str());
        self.iso_sha256 = lit(hashes.sha256.as_str());
        self.iso_sha512 = lit(hashes.sha512.as_str());
        self.iso_blake3 = lit(hashes.blake3.as_str());
        self.iso_adguard_badge = lit(badge);
        self.hashing = false;
    }
}

/// The boot test's settings from the dialog's controls: RAM not below 0,
/// at least one vCPU, and the firmware index within 0..=2.
pub fn boot_config(
    mem_mb: i32,
    cpus: i32,
    firmware: i32,
    q35: bool,
    audio: bool,
    kvm: bool,
    network: bool,
    snapshot: bool,
) -> (r: BootConfig)
    ensures
        r.mem_mb == (if mem_mb < 0 { 0 } else { mem_mb as int }),
        r.cpus == (if cpus < 1 { 1 } else { cpus as int }),
        r.firmware == (if firmware < 0 { 0 } else if firmware > 2 { 2 } else { firmware as int }),
        r.q35 == q35 && r.audio == audio && r.kvm == kvm && r.network == network && r.snapshot == snapshot,
{
    let mem: u32 = if mem_mb < 0 { 0 } else { mem_mb as u32 };
    let n: u32 = if cpus < 1 { 1 } else { cpus as u32 };
    let fw: u32 = if firmware < 0 { 0 } else if firmware > 2 { 2 } else { firmware as u32 };
    BootConfig { mem_mb: mem, cpus: n, firmware: fw, q35, audio, kvm, network, snapshot }
}

/// The Dependencies dialog's line of one dependency: presence (1 or 0),
/// group, name, package and purpose, separated by U+001F.
pub open spec fn dependency_line(d: DepStatus) -> Seq<char> {
    (if d.present { "1"@ } else { "0"@ }) + "\u{1f}"@ + d.kind_key@ + "\u{1f}"@ + d.name@ + "\u{1f}"@
        + d.package@ + "\u{1f}"@ + d.purpose@
}

/// The Dependencies dialog's text: one line per dependency.
pub fn dependency_report(statuses: &Vec<DepStatus>) -> (r: String)
    ensures
        r@ == crate::text::join_lines(Seq::new(statuses@.len(), |i: int| dependency_line(statuses@[i]))),
{
    let mut lines: Vec<Vec<char>> = Vec::new();
    let mut i: usize = 0;
    while i < statuses.len()
        invariant
            i <= statuses@.len(),
            lines@.len() == i,
            forall|k: int| 0 <= k < i ==> (#[trigger] lines@[k])@ == dependency_line(statuses@[k]),
        decreases statuses@.len() - i,
    {
        let d = statuses[i];
        let mut l = if d.present { chars_of("1") } else { chars_of("0") };
        append_chars(&mut l, &chars_of("\u{1f}"));
        append_chars(&mut l, &chars_of(d.kind_key));
        append_chars(&mut l, &chars_of("\u{1f}"));
        append_chars(&mut l, &chars_of(d.name));
        append_chars(&mut l, &chars_of("\u{1f}"));
        append_chars(&mut l, &chars_of(d.package));
        append_chars(&mut l, &chars_of("\u{1f}"));
        append_chars(&mut l, &chars_of(d.purpose));
        lines.push(l);
        i += 1;
    }
    let joined = crate::text::join_with_newlines(&lines);
    assert(Seq::new(lines@.len(), |k: int| lines@[k]@) =~= Seq::new(
        statuses@.len(),
        |k: int| dependency_line(statuses@[k]),
    ));
    string_from_chars(&joined)
}

impl AppController {
    /// The boot test was asked for: the selected drive's node, or, without
    /// a selection, a status saying to pick one.
    pub fn verify_boot(&mut self) -> (r: Option<String>)
        ensures
            match old(self).selected_spec() {
                Some(d) => r matches Some(p) && p@ == d.path@ && *final(self) == *old(self),
                None => r is None && final(self).status@ == "Select a device to boot-test first"@
                    && *final(self) == (AppController { status: final(self).status, ..*old(self) }),
            },
    {
        match self.selected_info() {
            Some(d) => Some(lit(d.path.as_str())),
            None => {
                self.status = lit("Select a device to boot-test first");
                None
            },
        }
    }

    /// The boot test of `path` started or failed: the status says which
    /// (and whether writes reach the drive); a failure also gives the line
    /// to log.
    pub fn boot_test_outcome(&mut self, path: &str, snapshot: bool, outcome: &Result<(), String>) -> (r: Option<String>)
        ensures
            match outcome {
                Ok(()) => r is None && final(self).status@ == "Launched QEMU boot test for "@ + path@ + (if snapshot {
                    " (snapshot mode: the device is not modified)"@
                } else {
                    " (writes persist: the device IS modified)"@
                }),
                Err(e) => r matches Some(l) && l@ == "Boot test failed: "@ + e@
                    && final(self).status@ == "Could not start the boot test: "@ + e@,
            },
            *final(self) == (AppController { status: final(self).status, ..*old(self) }),
    {
        match outcome {
            Ok(()) => {
                let mut m = chars_of("Launched QEMU boot test for ");
                append_chars(&mut m, &chars_of(path));
                if snapshot {
                    append_chars(&mut m, &chars_of(" (snapshot mode: the device is not modified)"));
                } else {
                    append_chars(&mut m, &chars_of(" (writes persist: the device IS modified)"));
                }
                self.status = string_from_chars(&m);
                None
            },
            Err(e) => {
                let mut l = chars_of("Boot test failed: ");
                append_chars(&mut l, &chars_of(e.as_str()));
                let mut m = chars_of("Could not start the boot test: ");
                append_chars(&mut m, &chars_of(e.as_str()));
                self.status = string_from_chars(&m);
                Some(string_from_chars(&l))
            },
        }
    }
}

/// Replacing the device list keeps the selected drive selected when a drive
/// with its path is still listed: the new selection is a valid index whose
/// drive has that path.
pub proof fn law_refresh_keeps_selected_drive(prev: DeviceInfo, devs: Seq<DeviceInfo>)
    requires
        devs.len() <= i32::MAX,
        exists|j: int| 0 <= j < devs.len() && (#[trigger] devs[j]).path@ == prev.path@,
    ensures
        0 <= reselected(Some(prev), devs) < devs.len(),
        devs[reselected(Some(prev), devs) as int].path@ == prev.path@,
{
    lemma_position_found(devs, prev.path@);
}

proof fn lemma_position_found(devs: Seq<DeviceInfo>, path: Seq<char>)
    requires
        exists|j: int| 0 <= j < devs.len() && (#[trigger] devs[j]).path@ == path,
    ensures
        position_of(devs, path) matches Some(i) && 0 <= i < devs.len() && devs[i].path@ == path,
    decreases devs.len(),
{
    let j = choose|j: int| 0 <= j < devs.len() && (#[trigger] devs[j]).path@ == path;
    if j < devs.len() - 1 {
        assert(devs.drop_last()[j] == devs[j]);
        lemma_position_found(devs.drop_last(), path);
    } else {
        match position_of(devs.drop_last(), path) {
            Some(i) => {
                lemma_position_range(devs.drop_last(), path);
            },
            None => {},
        }
    }
}

proof fn lemma_position_range(devs: Seq<DeviceInfo>, path: Seq<char>)
    ensures
        position_of(devs, path) matches Some(i) ==> 0 <= i < devs.len() && devs[i].path@ == path,
    decreases devs.len(),
{
    if devs.len() > 0 {
        lemma_position_range(devs.drop_last(), path);
    }
}

/// How an attempt to power off a drive ended.
pub enum EjectResult {
    /// The drive was powered off.
    Ejected,
    /// The tool ran and failed, with what it wrote to its error output.
    ToolFailed(String),
    /// No tool could be run, with the reason.
    NotRun(String),
}

/// The Microsoft download page for a Windows version (1 = Windows 10,
/// anything else Windows 11).
pub open spec fn microsoft_page_spec(version_index: i32) -> Seq<char> {
    if version_index == 1 {
        "https://www.microsoft.com/software-download/windows10"@
    } else {
        "https://www.microsoft.com/software-download/windows11"@
    }
}

/// The Microsoft download page to open for a Windows version.
pub fn microsoft_page_url(version_index: i32) -> (r: &'static str)
    ensures
        r@ == microsoft_page_spec(version_index),
{
    let r = if version_index == 1 {
        "https://www.microsoft.com/software-download/windows10"
    } else {
        "https://www.microsoft.com/software-download/windows11"
    };
    proof {
        reveal_strlit("https://www.microsoft.com/software-download/windows10");
        reveal_strlit("https://www.microsoft.com/software-download/windows11");
    }
    r
}

/// The text an optional field shows: its value, or nothing.
pub open spec fn opt_text(o: Option<String>) -> Seq<char> {
    match o {
        Some(s) => s@,
        None => Seq::empty(),
    }
}

fn opt_string(o: &Option<String>) -> (r: String)
    ensures
        r@ == opt_text(*o),
{
    match o {
        Some(s) => s.clone(),
        None => String::new(),
    }
}

impl AppController {
    /// The selected drive's capacity as shown (empty with no selection).
    pub fn selected_size_text(&self) -> (r: String)
        ensures
            r@ == match self.selected_spec() {
                Some(d) => format_size_spec(d.size as nat),
                None => Seq::empty(),
            },
    {
        match self.selected_info() {
            Some(d) => format_size(d.size),
            None => String::new(),
        }
    }

    /// The selected drive's bus summary (empty with no selection or none known).
    pub fn selected_bus(&self) -> (r: String)
        ensures
            r@ == match self.selected_spec() {
                Some(d) => opt_text(d.bus),
                None => Seq::empty(),
            },
    {
        match self.selected_info() {
            Some(d) => opt_string(&d.bus),
            None => String::new(),
        }
    }

    /// The selected drive's serial number (empty with no selection or none known).
    pub fn selected_serial(&self) -> (r: String)
        ensures
            r@ == match self.selected_spec() {
                Some(d) => opt_text(d.serial),
                None => Seq::empty(),
            },
    {
        match self.selected_info() {
            Some(d) => opt_string(&d.serial),
            None => String::new(),
        }
    }

    /// Start inspecting the selected drive: with none selected the inspect
    /// text is cleared and there is nothing to do; otherwise it shows a
    /// placeholder and the drive's device node is returned for the tools to
    /// examine.
    pub fn request_inspect(&mut self) -> (r: Option<String>)
        ensures
            match old(self).selected_spec() {
                Some(d) => r matches Some(p) && p@ == d.path@
                    && final(self).inspect_text@ == "Loading device details, please wait\u{2026}"@,
                None => r is None && final(self).inspect_text@.len() == 0,
            },
            *final(self) == (AppController { inspect_text: final(self).inspect_text, ..*old(self) }),
    {
        let path = match self.selected_info() {
            Some(d) => d.path.clone(),
            None => {
                self.inspect_text = String::new();
                return None;
            },
        };
        self.inspect_text = lit("Loading device details, please wait\u{2026}");
        Some(path)
    }

    /// The drive to power off: its device node, or, with none selected, a
    /// status saying so and nothing to do.
    pub fn eject_target(&mut self) -> (r: Option<String>)
        ensures
            match old(self).selected_spec() {
                Some(d) => r matches Some(p) && p@ == d.path@ && *final(self) == *old(self),
                None => r is None && final(self).status@ == "No device selected"@ && *final(self) == (
                AppController { status: final(self).status, ..*old(self) }),
            },
    {
        match self.selected_info() {
            Some(d) => Some(d.path.clone()),
            None => {
                self.status = lit("No device selected");
                None
            },
        }
    }

    /// Report how powering off `path` ended. After a success the caller
    /// refreshes the device list, which drops the detached drive.
    pub fn eject_finished(&mut self, path: &str, result: EjectResult)
        ensures
            final(self).status@ == match result {
                EjectResult::Ejected => "Ejected "@ + path@,
                EjectResult::ToolFailed(err) => "Eject failed: "@ + trim(err@),
                EjectResult::NotRun(e) => "Eject failed: "@ + e@,
            },
            *final(self) == (AppController { status: final(self).status, ..*old(self) }),
    {
        let mut msg = match &result {
            EjectResult::Ejected => chars_of("Ejected "),
            _ => chars_of("Eject failed: "),
        };
        match &result {
            EjectResult::Ejected => append_chars(&mut msg, &chars_of(path)),
            EjectResult::ToolFailed(err) => append_chars(&mut msg, &crate::text::trim_chars(&chars_of(err.as_str()))),
            EjectResult::NotRun(e) => append_chars(&mut msg, &chars_of(e.as_str())),
        }
        self.status = string_from_chars(&msg);
    }

    /// Report saving the activity log to `path`: saved, or the error.
    pub fn log_saved(&mut self, path: &str, error: Option<String>)
        ensures
            final(self).status@ == match error {
                None => "Activity log saved to "@ + path@,
                Some(e) => "Could not save activity log to "@ + path@ + ": "@ + e@,
            },
            *final(self) == (AppController { status: final(self).status, ..*old(self) }),
    {
        let mut msg = match &error {
            None => chars_of("Activity log saved to "),
            Some(_) => chars_of("Could not save activity log to "),
        };
        append_chars(&mut msg, &chars_of(path));
        if let Some(e) = &error {
            append_chars(&mut msg, &chars_of(": "));
            append_chars(&mut msg, &chars_of(e.as_str()));
        }
        self.status = string_from_chars(&msg);
    }

    /// Log, as a warning stamped `stamp`, that a preference could not be
    /// saved; returns the HTML line shown.
    pub fn persist_failed(&mut self, stamp: &str, toggle_name: &str, error: &str) -> (r: String)
        ensures
            ({
                let msg = "Could not persist '"@ + toggle_name@ + "' preference: "@ + error@;
                let html = crate::runner::log_line_text(crate::progress::LogLevel::Warn, msg);
                &&& r@ == "<div><span style=\"color:#7d8590\">["@ + stamp@ + "]</span> "@ + html + "</div>"@
                &&& final(self).full_log@ == old(self).full_log@ + "["@ + stamp@ + "] "@ + msg + "\n"@
                &&& final(self).log_html@ == old(self).log_html@ + r@
            }),
            *final(self) == (AppController {
                full_log: final(self).full_log,
                log_html: final(self).log_html,
                log_non_empty: true,
                ..*old(self)
            }),
    {
        let mut m = chars_of("Could not persist '");
        append_chars(&mut m, &chars_of(toggle_name));
        append_chars(&mut m, &chars_of("' preference: "));
        append_chars(&mut m, &chars_of(error));
        let msg = string_from_chars(&m);
        let html = crate::runner::log_line_html(crate::progress::LogLevel::Warn, msg.as_str());
        self.push_log_line(stamp, msg.as_str(), html.as_str())
    }

    /// Start downloading listed option `option_index`: nothing while busy or
    /// for an index outside the list; otherwise the busy state is entered and
    /// the option's URL returned.
    pub fn begin_win_download(&mut self, option_index: i32, options: &Vec<crate::windisco::DownloadOption>) -> (r:
        Option<String>)
        ensures
            (old(self).busy || option_index < 0 || option_index >= options@.len()) ==> r is None && *final(self)
                == *old(self),
            !(old(self).busy || option_index < 0 || option_index >= options@.len()) ==> {
                &&& r matches Some(u) && u@ == options@[option_index as int].url@
                &&& final(self).busy
                &&& final(self).status@ == "Downloading Windows ISO\u{2026}"@
                &&& final(self).phase@ == "Starting"@
                &&& final(self).full_log@.len() == 0
            },
    {
        if self.busy || option_index < 0 {
            return None;
        }
        let i = option_index as usize;
        if i >= options.len() {
            return None;
        }
        let url = options[i].url.clone();
        self.init_job_ui("Downloading Windows ISO\u{2026}");
        Some(url)
    }
}

/// After the ceiling changed, a non-negative persistence size is within the
/// new ceiling (when that is not negative) and never negative.
pub proof fn law_persistence_size_within_ceiling(size: i32, max: i32)
    requires
        size >= 0,
    ensures
        clamp_size(size, max) >= 0,
        max >= 0 ==> clamp_size(size, max) <= max,
{
}

/// A partition-and-copy write uses the UEFI:NTFS layout exactly for an image
/// whose install image is too large for FAT32 and when splitting it was not
/// asked for; splitting gives FAT32 with a split image, and every other
/// image FAT32 with nothing special.
pub proof fn law_oversized_image_layout(report: Option<IsoReport>, split: bool)
    ensures
        (layout_spec(report, split).1 == WimStrategy::UefiNtfs) == (report matches Some(r) && needs_wim_choice_spec(r)
            && !split),
        layout_spec(report, split).1 == WimStrategy::UefiNtfs ==> layout_spec(report, split).0 == FileSystem::Ntfs,
        layout_spec(report, split).1 != WimStrategy::UefiNtfs ==> layout_spec(report, split).0 == FileSystem::Fat32,
        layout_spec(report, split).1 == WimStrategy::Split <==> (report matches Some(r) && needs_wim_choice_spec(r) && split),
{
}

} // verus!
