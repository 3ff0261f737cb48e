//! The resource files fetched on demand (the UEFI:NTFS bootloader image,
//! the UEFI Forum DBX updates, FreeDOS release archives): their names and
//! URLs, how a download is checked, when a cached copy is trusted, what a
//! conditional download's outcome leads to, and which archive members are
//! wanted. The HTTP requests and the cache files are handled outside.
use crate::revocation::{hash_set, dbx_update_hashes, parse_dbxupdate, RevocationDb};
use crate::text::{
    append_chars, chars_eq, chars_of, decimal, decimal_chars, ends_with, eq_ignore_ascii_case,
    eq_ignore_case, is_suffix, seq_lower, string_from_chars, trim, trim_chars,
};
use crate::uefi_ntfs::{uefi_ntfs_problem, validate_uefi_ntfs};
use vstd::prelude::*;

verus! {

/// How long (seconds) a cached resource is trusted before a fresh check.
pub const RESOURCE_TTL_SECS: u64 = 604800;

/// How long (seconds) a resolved "latest release" URL is trusted.
pub const LATEST_RELEASE_TTL_SECS: u64 = 86400;

/// A resource fetched from upstream.
#[derive(Clone, Copy, Debug, PartialEq, Eq, Structural)]
pub enum Resource {
    /// The 1 MiB FAT32 image carrying the UEFI:NTFS bootloader.
    UefiNtfsImg,
    /// The signed UEFI Forum DBX revocation update for x86_64.
    DbxX64,
    /// The signed UEFI Forum DBX revocation update for ARM64.
    DbxArm64,
}

impl Resource {
    /// The cached file name.
    pub open spec fn name_spec(self) -> Seq<char> {
        match self {
            Resource::UefiNtfsImg => "uefi-ntfs.img"@,
            Resource::DbxX64 => "dbxupdate_x64.bin"@,
            Resource::DbxArm64 => "dbxupdate_arm64.bin"@,
        }
    }

    /// The upstream URL.
    pub open spec fn url_spec(self) -> Seq<char> {
        match self {
            Resource::UefiNtfsImg => "https://raw.githubusercontent.com/pbatard/rufus/master/res/uefi/uefi-ntfs.img"@,
            Resource::DbxX64 => "https://uefi.org/sites/default/files/resources/dbxupdate_x64.bin"@,
            Resource::DbxArm64 => "https://uefi.org/sites/default/files/resources/dbxupdate_arm64.bin"@,
        }
    }

    /// The cached file name.
    pub fn name(self) -> (r: &'static str)
        ensures
            r@ == self.name_spec(),
    {
        match self {
            Resource::UefiNtfsImg => "uefi-ntfs.img",
            Resource::DbxX64 => "dbxupdate_x64.bin",
            Resource::DbxArm64 => "dbxupdate_arm64.bin",
        }
    }

    /// The upstream raw URL.
    pub fn url(self) -> (r: &'static str)
        ensures
            r@ == self.url_spec(),
    {
        match self {
            Resource::UefiNtfsImg => "https://raw.githubusercontent.com/pbatard/rufus/master/res/uefi/uefi-ntfs.img",
            Resource::DbxX64 => "https://uefi.org/sites/default/files/resources/dbxupdate_x64.bin",
            Resource::DbxArm64 => "https://uefi.org/sites/default/files/resources/dbxupdate_arm64.bin",
        }
    }

    /// What is wrong with downloaded bytes of this resource, if anything:
    /// the UEFI:NTFS image must pass its structural checks; a DBX update
    /// must be at least 64 bytes.
    pub open spec fn problem(self, bytes: Seq<u8>) -> Option<Seq<char>> {
        match self {
            Resource::UefiNtfsImg => uefi_ntfs_problem(bytes),
            _ => if bytes.len() < 64 {
                Some(self.name_spec() + ": only "@ + decimal(bytes.len()) + " bytes (too small to be a DBX update)"@)
            } else {
                None
            },
        }
    }

    /// Structurally validate the bytes of this resource; the transport does
    /// not check integrity, so a truncated or corrupted file is rejected
    /// before it is cached or written to a drive.
    pub fn validate(self, bytes: &[u8]) -> (r: Result<(), String>)
        ensures
            match self.problem(bytes@) {
                None => r is Ok,
                Some(m) => r matches Err(e) && e@ == m,
            },
    {
        match self {
            Resource::UefiNtfsImg => validate_uefi_ntfs(bytes),
            _ => {
                if bytes.len() < 64 {
                    let mut m = chars_of(self.name());
                    append_chars(&mut m, &chars_of(": only "));
                    append_chars(&mut m, &decimal_chars(bytes.len() as u64));
                    append_chars(&mut m, &chars_of(" bytes (too small to be a DBX update)"));
                    Err(string_from_chars(&m))
                } else {
                    Ok(())
                }
            },
        }
    }
}

/// The validators cached beside each resource.
#[derive(Debug, Clone)]
pub struct ResourceMeta {
    /// The server's entity tag for the cached copy.
    pub etag: Option<String>,
    /// When the copy was last fetched or confirmed (Unix seconds).
    pub fetched_at: u64,
    /// Its size in bytes.
    pub size: u64,
}

impl Default for ResourceMeta {
    fn default() -> (r: Self)
        ensures
            r.etag is None,
            r.fetched_at == 0,
            r.size == 0,
    {
        ResourceMeta { etag: None, fetched_at: 0, size: 0 }
    }
}

/// A copy fetched at `fetched_at` is still fresh at `now`: less than `ttl`
/// seconds old (a fetch time in the future counts as age 0).
pub open spec fn fresh(now: u64, fetched_at: u64, ttl: u64) -> bool {
    (if now >= fetched_at { now - fetched_at } else { 0 }) < ttl
}

/// Whether a copy fetched at `fetched_at` is still fresh at `now`.
pub fn is_fresh(now: u64, fetched_at: u64, ttl: u64) -> (r: bool)
    ensures
        r == fresh(now, fetched_at, ttl),
{
    now.saturating_sub(fetched_at) < ttl
}

/// Whether the cached copy (its bytes, when it could be read) is a valid
/// copy of the resource.
pub open spec fn cached_ok(resource: Resource, cached: Option<Seq<u8>>) -> bool {
    match cached {
        Some(b) => resource.problem(b) is None,
        None => false,
    }
}

fn cached_valid(resource: Resource, cached: Option<&[u8]>) -> (r: bool)
    ensures
        r == cached_ok(
            resource,
            match cached {
                Some(b) => Some(b@),
                None => None,
            },
        ),
{
    match cached {
        Some(b) => resource.validate(b).is_ok(),
        None => false,
    }
}

/// Whether a resource's cached copy can be used without asking the network:
/// it is fresh and still valid.
pub fn use_cache_without_fetch(resource: Resource, meta: &ResourceMeta, now: u64, cached: Option<&[u8]>) -> (r: bool)
    ensures
        r == (fresh(now, meta.fetched_at, RESOURCE_TTL_SECS) && cached_ok(
            resource,
            match cached {
                Some(b) => Some(b@),
                None => None,
            },
        )),
{
    is_fresh(now, meta.fetched_at, RESOURCE_TTL_SECS) && cached_valid(resource, cached)
}

/// The outcome of a conditional download.
#[derive(Debug, Clone)]
pub enum Fetch {
    /// The server replied 304: the cached copy is current.
    NotModified,
    /// A fresh body was downloaded, with the server's entity tag.
    Body { bytes: Vec<u8>, etag: Option<String> },
    /// The request failed; `error` describes why.
    Failed { error: String },
}

/// What to do once a conditional download has answered.
#[derive(Debug, Clone)]
pub enum EnsureAction {
    /// Use the cached copy; when `meta` is set, record it as the new sidecar.
    UseCached { meta: Option<ResourceMeta> },
    /// Write `bytes` as the cached copy and `meta` as its sidecar.
    Store { bytes: Vec<u8>, meta: ResourceMeta },
}

/// The error when the server confirms a copy that no longer validates.
pub open spec fn corrupt_cache_message(resource: Resource) -> Seq<char> {
    "the cached "@ + resource.name_spec() + " is corrupt and the server reports no newer copy"@
}

/// The error when a downloaded copy does not validate.
pub open spec fn invalid_download_message(resource: Resource, why: Seq<char>) -> Seq<char> {
    "the downloaded "@ + resource.name_spec() + " is invalid: "@ + why
}

/// The error when the download failed and no valid copy is cached.
pub open spec fn offline_message(resource: Resource, error: Seq<char>) -> Seq<char> {
    "could not download "@ + resource.name_spec() + " and no valid cached copy exists: "@ + error
}

/// Decide what a conditional download's answer leads to. A 304 keeps a
/// cached copy that still validates (refreshing its fetch time); a body is
/// stored when it validates; a failed request falls back to a valid cached
/// copy. Anything else is an error.
pub fn after_fetch(resource: Resource, fetch: Fetch, cached: Option<&[u8]>, now: u64, meta: &ResourceMeta) -> (r: Result<EnsureAction, String>)
    ensures
        ({
            let ok = cached_ok(
                resource,
                match cached {
                    Some(b) => Some(b@),
                    None => None,
                },
            );
            match fetch {
                Fetch::NotModified => if ok {
                    r matches Ok(EnsureAction::UseCached { meta: Some(m) }) && m.fetched_at == now
                        && m.etag == meta.etag && m.size == meta.size
                } else {
                    r matches Err(e) && e@ == corrupt_cache_message(resource)
                },
                Fetch::Body { bytes, etag } => match resource.problem(bytes@) {
                    Some(why) => r matches Err(e) && e@ == invalid_download_message(resource, why),
                    None => r matches Ok(EnsureAction::Store { bytes: b, meta: m }) && b@ == bytes@
                        && m.etag == etag && m.fetched_at == now && m.size == bytes@.len(),
                },
                Fetch::Failed { error } => if ok {
                    r matches Ok(EnsureAction::UseCached { meta: None })
                } else {
                    r matches Err(e) && e@ == offline_message(resource, error@)
                },
            }
        }),
{
    match fetch {
        Fetch::NotModified => {
            if cached_valid(resource, cached) {
                let etag = match &meta.etag {
                    Some(t) => Some(t.clone()),
                    None => None,
                };
                Ok(EnsureAction::UseCached { meta: Some(ResourceMeta { etag, fetched_at: now, size: meta.size }) })
            } else {
                let mut m = chars_of("the cached ");
                append_chars(&mut m, &chars_of(resource.name()));
                append_chars(&mut m, &chars_of(" is corrupt and the server reports no newer copy"));
                Err(string_from_chars(&m))
            }
        },
        Fetch::Body { bytes, etag } => {
            match resource.validate(&bytes) {
                Err(why) => {
                    let mut m = chars_of("the downloaded ");
                    append_chars(&mut m, &chars_of(resource.name()));
                    append_chars(&mut m, &chars_of(" is invalid: "));
                    append_chars(&mut m, &chars_of(why.as_str()));
                    Err(string_from_chars(&m))
                },
                Ok(()) => {
                    let size = bytes.len() as u64;
                    Ok(EnsureAction::Store { bytes, meta: ResourceMeta { etag, fetched_at: now, size } })
                },
            }
        },
        Fetch::Failed { error } => {
            if cached_valid(resource, cached) {
                Ok(EnsureAction::UseCached { meta: None })
            } else {
                let mut m = chars_of("could not download ");
                append_chars(&mut m, &chars_of(resource.name()));
                append_chars(&mut m, &chars_of(" and no valid cached copy exists: "));
                append_chars(&mut m, &chars_of(error.as_str()));
                Err(string_from_chars(&m))
            }
        },
    }
}

/// Fold a fetched DBX update file into the revocation database; a file that
/// yields no hash leaves it as it was.
pub fn merge_dbx_update(db: &mut RevocationDb, bytes: &[u8])
    ensures
        final(db).sbat == old(db).sbat,
        final(db).dbx.hashes() == old(db).dbx.hashes().union(hash_set(dbx_update_hashes(bytes@))),
        old(db).dbx.wf() ==> final(db).dbx.wf(),
{
    let extra = parse_dbxupdate(bytes);
    if !extra.is_empty() {
        db.extend_dbx(extra);
    } else {
        assert(old(db).dbx.hashes().union(extra.hashes()) =~= old(db).dbx.hashes());
    }
}

/// The cache name of a repository's resolved release URL: its path with
/// `/` replaced by `-`.
pub open spec fn repo_slug_spec(repo: Seq<char>) -> Seq<char> {
    Seq::new(repo.len(), |i: int| if repo[i] == '/' { '-' } else { repo[i] })
}

/// `repo.replace('/', "-")`.
pub fn repo_slug(repo: &str) -> (r: String)
    ensures
        r@ == repo_slug_spec(repo@),
{
    let v = chars_of(repo);
    let mut out: Vec<char> = Vec::new();
    let mut i: usize = 0;
    while i < v.len()
        invariant
            i <= v@.len(),
            v@ == repo@,
            out@ == Seq::new(i as nat, |k: int| if v@[k] == '/' { '-' } else { v@[k] }),
        decreases v@.len() - i,
    {
        if v[i] == '/' {
            out.push('-');
        } else {
            out.push(v[i]);
        }
        assert(out@ =~= Seq::new((i + 1) as nat, |k: int| if v@[k] == '/' { '-' } else { v@[k] }));
        i += 1;
    }
    string_from_chars(&out)
}

/// The URL cached for a repository's latest release, when the cache is
/// fresh and holds a non-blank URL (trimmed); else the API must be asked.
pub fn cached_release_url(now: u64, meta: &ResourceMeta, cached_text: Option<&str>) -> (r: Option<String>)
    ensures
        ({
            let use_it = fresh(now, meta.fetched_at, LATEST_RELEASE_TTL_SECS) && match cached_text {
                Some(t) => trim(t@).len() > 0,
                None => false,
            };
            &&& use_it ==> (r matches Some(u) && u@ == trim(cached_text->0@))
            &&& !use_it ==> r is None
        }),
{
    if !is_fresh(now, meta.fetched_at, LATEST_RELEASE_TTL_SECS) {
        return None;
    }
    match cached_text {
        Some(t) => {
            let v = chars_of(t);
            let tr = trim_chars(&v);
            if tr.len() == 0 {
                None
            } else {
                Some(string_from_chars(&tr))
            }
        },
        None => None,
    }
}

/// An entry of a GitHub release's `assets` array.
#[derive(Debug, Clone)]
pub struct ReleaseAsset {
    /// Its `name`, when that is a string.
    pub name: Option<String>,
    /// Its `browser_download_url`, when that is a string.
    pub download_url: Option<String>,
}

/// The URL of the first asset whose name ends in `.zip` (ASCII
/// case-insensitively) and that has a download URL.
pub open spec fn first_zip_asset(assets: Seq<ReleaseAsset>) -> Option<Seq<char>>
    decreases assets.len(),
{
    if assets.len() == 0 {
        None
    } else {
        let a = assets[0];
        let hit = match a.name {
            Some(n) => if is_suffix(".zip"@, seq_lower(n@)) {
                match a.download_url {
                    Some(u) => Some(u@),
                    None => None,
                }
            } else {
                None
            },
            None => None,
        };
        match hit {
            Some(u) => Some(u),
            None => first_zip_asset(assets.drop_first()),
        }
    }
}

/// The download URL of a release's first `.zip` asset, or the error that
/// names the repository.
pub fn pick_zip_asset(repo: &str, assets: &[ReleaseAsset]) -> (r: Result<String, String>)
    ensures
        match first_zip_asset(assets@) {
            Some(u) => r matches Ok(s) && s@ == u,
            None => r matches Err(e) && e@ == "no .zip asset in "@ + repo@ + "'s latest release"@,
        },
{
    let mut i: usize = 0;
    assert(assets@.skip(0) =~= assets@);
    while i < assets.len()
        invariant
            i <= assets@.len(),
            first_zip_asset(assets@) == first_zip_asset(assets@.skip(i as int)),
        decreases assets@.len() - i,
    {
        assert(assets@.skip(i as int)[0] == assets@[i as int]);
        assert(assets@.skip(i as int).drop_first() =~= assets@.skip(i + 1));
        let a = &assets[i];
        if let Some(n) = &a.name {
            let lower = crate::text::lowercase(&chars_of(n.as_str()));
            if ends_with(&lower, &chars_of(".zip")) {
                if let Some(u) = &a.download_url {
                    return Ok(u.clone());
                }
            }
        }
        i += 1;
    }
    assert(assets@.skip(i as int) =~= Seq::<ReleaseAsset>::empty());
    let mut m = chars_of("no .zip asset in ");
    append_chars(&mut m, &chars_of(repo));
    append_chars(&mut m, &chars_of("'s latest release"));
    Err(string_from_chars(&m))
}

/// The boot sector for the FAT variant: `BOOT32.BIN` for FAT32, else
/// `BOOT16.BIN`.
pub fn boot_sector_name(fat32: bool) -> (r: &'static str)
    ensures
        r@ == if fat32 { "BOOT32.BIN"@ } else { "BOOT16.BIN"@ },
{
    if fat32 {
        "BOOT32.BIN"
    } else {
        "BOOT16.BIN"
    }
}

/// An archive member is the one wanted when its name equals one of the
/// candidates, ASCII case-insensitively.
pub open spec fn member_wanted(name: Seq<char>, candidates: Seq<Seq<char>>) -> bool {
    exists|i: int| 0 <= i < candidates.len() && eq_ignore_case(name, #[trigger] candidates[i])
}

/// Whether an archive member named `name` is one of `candidates`.
pub fn member_matches(name: &str, candidates: &[&str]) -> (r: bool)
    ensures
        r == member_wanted(name@, Seq::new(candidates@.len(), |i: int| candidates@[i]@)),
{
    let ghost cs = Seq::new(candidates@.len(), |i: int| candidates@[i]@);
    let n = chars_of(name);
    let mut i: usize = 0;
    while i < candidates.len()
        invariant
            i <= candidates@.len(),
            cs == Seq::new(candidates@.len(), |i: int| candidates@[i]@),
            n@ == name@,
            forall|j: int| 0 <= j < i ==> !eq_ignore_case(name@, #[trigger] cs[j]),
        decreases candidates@.len() - i,
    {
        if eq_ignore_ascii_case(&n, &chars_of(candidates[i])) {
            assert(eq_ignore_case(name@, cs[i as int]));
            return true;
        }
        i += 1;
    }
    false
}

/// The candidates written as a list of quoted names: `["A", "B"]`.
pub open spec fn quoted_list(candidates: Seq<Seq<char>>) -> Seq<char> {
    "["@ + crate::decompress::joined(
        Seq::new(candidates.len(), |i: int| "\""@ + candidates[i] + "\""@),
        ", "@,
    ) + "]"@
}

/// The error for an archive without the member wanted.
pub open spec fn missing_member_text(candidates: Seq<Seq<char>>, display: Seq<char>) -> Seq<char> {
    "none of "@ + quoted_list(candidates) + " found inside "@ + display + "; upstream FreeDOS layout may have moved"@
}

/// What an archive yields for the member wanted, walking its entries from
/// byte `pos`: the contents of the first entry named like one of
/// `candidates` (the others passed over undecoded); a read error ends the
/// walk with that error, and an archive that ends first gives the error
/// naming the candidates and the archive (`display`).
pub open spec fn member_walk(data: Seq<u8>, pos: int, candidates: Seq<Seq<char>>, display: Seq<char>) -> Result<Seq<u8>, Seq<char>>
    decreases data.len() - pos,
{
    if pos < 0 || pos > data.len() {
        Err(missing_member_text(candidates, display))
    } else {
        match crate::decompress::zip_head(data.subrange(pos, data.len() as int)) {
            Err(e) => Err(e),
            Ok(None) => Err(missing_member_text(candidates, display)),
            Ok(Some((name, rem))) => if rem >= data.len() - pos {
                Err(missing_member_text(candidates, display))
            } else if member_wanted(name, candidates) {
                match crate::decompress::zip_body(data.subrange(pos, data.len() as int)) {
                    Some(Ok(b)) => Ok(b),
                    Some(Err(e)) => Err(e),
                    None => Err(missing_member_text(candidates, display)),
                }
            } else {
                member_walk(data, data.len() - rem, candidates, display)
            },
        }
    }
}

fn quoted_candidates(candidates: &[&str]) -> (r: Vec<char>)
    ensures
        r@ == quoted_list(Seq::new(candidates@.len(), |i: int| candidates@[i]@)),
{
    let ghost cs = Seq::new(candidates@.len(), |i: int| candidates@[i]@);
    let ghost qs = Seq::new(cs.len(), |i: int| "\""@ + cs[i] + "\""@);
    let mut body: Vec<char> = Vec::new();
    let mut i: usize = 0;
    while i < candidates.len()
        invariant
            i <= candidates@.len(),
            cs == Seq::new(candidates@.len(), |i: int| candidates@[i]@),
            qs == Seq::new(cs.len(), |i: int| "\""@ + cs[i] + "\""@),
            body@ == crate::decompress::joined(qs.take(i as int), ", "@),
        decreases candidates@.len() - i,
    {
        assert(qs.take(i + 1).drop_last() =~= qs.take(i as int));
        if i > 0 {
            append_chars(&mut body, &chars_of(", "));
        }
        append_chars(&mut body, &chars_of("\""));
        append_chars(&mut body, &chars_of(candidates[i]));
        append_chars(&mut body, &chars_of("\""));
        if i == 0 {
            assert(crate::decompress::joined(qs.take(1), ", "@) == qs.take(1)[0]);
        }
        assert(body@ =~= crate::decompress::joined(qs.take(i + 1), ", "@));
        i += 1;
    }
    assert(qs.take(i as int) =~= qs);
    let mut out = chars_of("[");
    append_chars(&mut out, &body);
    append_chars(&mut out, &chars_of("]"));
    out
}

/// The member of a ZIP archive held in memory (shown as `display`) named
/// like one of `candidates` (ASCII case aside): its contents, or why it
/// cannot be had. A missing member is an error, which catches an upstream
/// layout change before it reaches a write.
pub fn extract_member(zip: &[u8], candidates: &[&str], display: &str) -> (r: Result<Vec<u8>, String>)
    ensures
        match member_walk(zip@, 0, Seq::new(candidates@.len(), |i: int| candidates@[i]@), display@) {
            Ok(o) => r matches Ok(v) && v@ == o,
            Err(e) => r matches Err(s) && s@ == e,
        },
{
    let ghost cs = Seq::new(candidates@.len(), |i: int| candidates@[i]@);
    let mut pos: usize = 0;
    let mut missing = chars_of("none of ");
    append_chars(&mut missing, &quoted_candidates(candidates));
    append_chars(&mut missing, &chars_of(" found inside "));
    append_chars(&mut missing, &chars_of(display));
    append_chars(&mut missing, &chars_of("; upstream FreeDOS layout may have moved"));
    loop
        invariant
            pos <= zip@.len(),
            cs == Seq::new(candidates@.len(), |i: int| candidates@[i]@),
            missing@ == missing_member_text(cs, display@),
            member_walk(zip@, 0, cs, display@) == member_walk(zip@, pos as int, cs, display@),
        decreases zip@.len() - pos,
    {
        match crate::decompress::zip_head_at(zip, pos) {
            Err(e) => {
                return Err(e);
            },
            Ok(None) => {
                return Err(string_from_chars(&missing));
            },
            Ok(Some((name, rem))) => {
                if member_matches(name.as_str(), candidates) {
                    return match crate::decompress::zip_body_at(zip, pos) {
                        Some(Ok(b)) => Ok(b),
                        Some(Err(e)) => Err(e),
                        None => Err(string_from_chars(&missing)),
                    };
                }
                pos = zip.len() - rem;
            },
        }
    }
}

/// The three files a FreeDOS stick needs: the kernel, the command
/// interpreter, and the boot sector for the FAT variant (paths as text).
#[derive(Clone, Debug)]
pub struct FreedosFiles {
    pub kernel_sys: String,
    pub command_com: String,
    /// `BOOT16.BIN` or `BOOT32.BIN` depending on the FAT variant.
    pub boot_bin: String,
}

/// The FreeDOS files as unpacked into the directory `dir`, with the boot
/// sector for FAT32 (`fat32`) or FAT16.
pub fn freedos_files(dir: &str, fat32: bool) -> (r: FreedosFiles)
    ensures
        r.kernel_sys@ == dir@ + "/KERNEL.SYS"@,
        r.command_com@ == dir@ + "/COMMAND.COM"@,
        r.boot_bin@ == dir@ + "/"@ + (if fat32 { "BOOT32.BIN"@ } else { "BOOT16.BIN"@ }),
{
    let mut k = chars_of(dir);
    append_chars(&mut k, &chars_of("/KERNEL.SYS"));
    let mut c = chars_of(dir);
    append_chars(&mut c, &chars_of("/COMMAND.COM"));
    let mut b = chars_of(dir);
    append_chars(&mut b, &chars_of("/"));
    append_chars(&mut b, &chars_of(boot_sector_name(fat32)));
    FreedosFiles { kernel_sys: string_from_chars(&k), command_com: string_from_chars(&c), boot_bin: string_from_chars(&b) }
}

} // verus!
