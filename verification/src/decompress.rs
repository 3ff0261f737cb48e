//! Compressed disk images: telling the compression from the file name and
//! its magic bytes, unwrapping Unix `compress(1)` (`.Z`) streams, choosing
//! the image inside a ZIP archive, decoding a compressed image held in
//! memory (through the `flate2`, `xz2`, `bzip2`, `zstd` and `zip` crates),
//! and the decompression cache's naming, reuse and expiry rules. File
//! handling runs outside.
use crate::digest::{cache_key, cache_key_text};
use crate::text::{
    append_chars, chars_of, contains, decimal, decimal_chars, ends_with, is_suffix, seq_contains,
    string_from_chars, to_lowercase_unicode, unicode_lower,
};
use vstd::prelude::*;
use vstd::utf8::encode_utf8;

verus! {

/// The supported compression algorithms; `Uncompressed` is a plain image.
#[derive(Clone, Copy, Debug, PartialEq, Eq, Structural)]
pub enum Compression {
    Xz,
    Gz,
    Bz2,
    Zst,
    Lzma,
    Zip,
    /// Unix `compress(1)`: legacy LZW.
    Z,
    Uncompressed,
}

impl Compression {
    /// The algorithm's short name.
    pub open spec fn name_spec(self) -> Seq<char> {
        match self {
            Compression::Xz => "xz"@,
            Compression::Gz => "gzip"@,
            Compression::Bz2 => "bzip2"@,
            Compression::Zst => "zstd"@,
            Compression::Lzma => "lzma"@,
            Compression::Zip => "zip"@,
            Compression::Z => "z"@,
            Compression::Uncompressed => "none"@,
        }
    }

    /// The algorithm's short name, as recorded in the cache metadata.
    pub fn name(self) -> (r: &'static str)
        ensures
            r@ == self.name_spec(),
    {
        match self {
            Compression::Xz => "xz",
            Compression::Gz => "gzip",
            Compression::Bz2 => "bzip2",
            Compression::Zst => "zstd",
            Compression::Lzma => "lzma",
            Compression::Zip => "zip",
            Compression::Z => "z",
            Compression::Uncompressed => "none",
        }
    }
}

/// The compression a lower-cased file name claims. Tarball spellings
/// decompress to an archive, not a disk image, and claim none.
pub open spec fn ext_guess(lower: Seq<char>) -> Compression {
    if is_suffix(".tgz"@, lower) || is_suffix(".txz"@, lower) || is_suffix(".tbz2"@, lower)
        || is_suffix(".tz"@, lower) || seq_contains(lower, ".tar."@) {
        Compression::Uncompressed
    } else if is_suffix(".xz"@, lower) {
        Compression::Xz
    } else if is_suffix(".gz"@, lower) {
        Compression::Gz
    } else if is_suffix(".bz2"@, lower) {
        Compression::Bz2
    } else if is_suffix(".zst"@, lower) || is_suffix(".zstd"@, lower) {
        Compression::Zst
    } else if is_suffix(".lzma"@, lower) {
        Compression::Lzma
    } else if is_suffix(".zip"@, lower) {
        Compression::Zip
    } else if is_suffix(".z"@, lower) {
        Compression::Z
    } else {
        Compression::Uncompressed
    }
}

/// The compression a file name claims (none without a UTF-8 name).
pub open spec fn name_guess(file_name: Option<Seq<char>>) -> Compression {
    match file_name {
        Some(n) => ext_guess(unicode_lower(n)),
        None => ext_guess(Seq::empty()),
    }
}

fn suffix(v: &Vec<char>, s: &str) -> (r: bool)
    ensures
        r == is_suffix(s@, v@),
{
    ends_with(v, &chars_of(s))
}

/// The compression a file name claims, by its extension.
pub fn compression_from_name(file_name: Option<&str>) -> (r: Compression)
    ensures
        r == name_guess(
            match file_name {
                Some(n) => Some(n@),
                None => None,
            },
        ),
{
    let lower = match file_name {
        Some(n) => chars_of(to_lowercase_unicode(n).as_str()),
        None => Vec::new(),
    };
    proof {
        if file_name is None {
            assert(lower@ =~= Seq::<char>::empty());
        }
    }
    if suffix(&lower, ".tgz") || suffix(&lower, ".txz") || suffix(&lower, ".tbz2") || suffix(
        &lower,
        ".tz",
    ) || contains(&lower, &chars_of(".tar.")) {
        Compression::Uncompressed
    } else if suffix(&lower, ".xz") {
        Compression::Xz
    } else if suffix(&lower, ".gz") {
        Compression::Gz
    } else if suffix(&lower, ".bz2") {
        Compression::Bz2
    } else if suffix(&lower, ".zst") || suffix(&lower, ".zstd") {
        Compression::Zst
    } else if suffix(&lower, ".lzma") {
        Compression::Lzma
    } else if suffix(&lower, ".zip") {
        Compression::Zip
    } else if suffix(&lower, ".z") {
        Compression::Z
    } else {
        Compression::Uncompressed
    }
}

/// `h` starts with the bytes `p`.
pub open spec fn bytes_start(h: Seq<u8>, p: Seq<u8>) -> bool {
    p.len() <= h.len() && h.subrange(0, p.len() as int) == p
}

/// The algorithm whose magic bytes `head` starts with.
pub open spec fn magic_spec(head: Seq<u8>) -> Option<Compression> {
    if bytes_start(head, seq![0xFDu8, 0x37, 0x7A, 0x58, 0x5A, 0x00]) {
        Some(Compression::Xz)
    } else if bytes_start(head, seq![0x1Fu8, 0x8B]) {
        Some(Compression::Gz)
    } else if bytes_start(head, seq![0x42u8, 0x5A, 0x68]) {
        Some(Compression::Bz2)
    } else if bytes_start(head, seq![0x28u8, 0xB5, 0x2F, 0xFD]) {
        Some(Compression::Zst)
    } else if bytes_start(head, seq![0x50u8, 0x4B, 0x03, 0x04]) {
        Some(Compression::Zip)
    } else if bytes_start(head, seq![0x1Fu8, 0x9D]) {
        Some(Compression::Z)
    } else if bytes_start(head, seq![0x5Du8, 0x00, 0x00]) {
        Some(Compression::Lzma)
    } else {
        None
    }
}

fn starts(h: &[u8], p: &[u8]) -> (r: bool)
    ensures
        r == bytes_start(h@, p@),
{
    if p.len() > h.len() {
        return false;
    }
    let mut i: usize = 0;
    while i < p.len()
        invariant
            i <= p.len() <= h.len(),
            forall|j: int| 0 <= j < i ==> h@[j] == p@[j],
        decreases p.len() - i,
    {
        if h[i] != p[i] {
            return false;
        }
        i += 1;
    }
    assert(h@.subrange(0, p@.len() as int) =~= p@);
    true
}

/// Sniff the magic bytes at the start of a file.
pub fn magic_of(head: &[u8]) -> (r: Option<Compression>)
    ensures
        r == magic_spec(head@),
{
    let xz: [u8; 6] = [0xFD, 0x37, 0x7A, 0x58, 0x5A, 0x00];
    let gz: [u8; 2] = [0x1F, 0x8B];
    let bz: [u8; 3] = [0x42, 0x5A, 0x68];
    let zst: [u8; 4] = [0x28, 0xB5, 0x2F, 0xFD];
    let zip: [u8; 4] = [0x50, 0x4B, 0x03, 0x04];
    let z: [u8; 2] = [0x1F, 0x9D];
    let lzma: [u8; 3] = [0x5D, 0x00, 0x00];
    assert(xz@ =~= seq![0xFDu8, 0x37, 0x7A, 0x58, 0x5A, 0x00]);
    assert(gz@ =~= seq![0x1Fu8, 0x8B]);
    assert(bz@ =~= seq![0x42u8, 0x5A, 0x68]);
    assert(zst@ =~= seq![0x28u8, 0xB5, 0x2F, 0xFD]);
    assert(zip@ =~= seq![0x50u8, 0x4B, 0x03, 0x04]);
    assert(z@ =~= seq![0x1Fu8, 0x9D]);
    assert(lzma@ =~= seq![0x5Du8, 0x00, 0x00]);
    if starts(head, &xz) {
        Some(Compression::Xz)
    } else if starts(head, &gz) {
        Some(Compression::Gz)
    } else if starts(head, &bz) {
        Some(Compression::Bz2)
    } else if starts(head, &zst) {
        Some(Compression::Zst)
    } else if starts(head, &zip) {
        Some(Compression::Zip)
    } else if starts(head, &z) {
        Some(Compression::Z)
    } else if starts(head, &lzma) {
        Some(Compression::Lzma)
    } else {
        None
    }
}

/// The compression of a file: what its name claims, confirmed by the magic
/// bytes at its start (`head`, when they could be read); any mismatch means
/// a plain image.
pub open spec fn detect_spec(file_name: Option<Seq<char>>, head: Option<Seq<u8>>) -> Compression {
    let by_ext = name_guess(file_name);
    if by_ext == Compression::Uncompressed {
        Compression::Uncompressed
    } else {
        match head {
            Some(h) => if magic_spec(h) == Some(by_ext) {
                by_ext
            } else {
                Compression::Uncompressed
            },
            None => Compression::Uncompressed,
        }
    }
}

/// Detect the compression of a file from its name and the first bytes of
/// its contents (`None` when they could not be read). The bytes are only
/// consulted when the name claims a compression.
pub fn detect(file_name: Option<&str>, head: Option<&[u8]>) -> (r: Compression)
    ensures
        r == detect_spec(
            match file_name {
                Some(n) => Some(n@),
                None => None,
            },
            match head {
                Some(h) => Some(h@),
                None => None,
            },
        ),
{
    let by_ext = compression_from_name(file_name);
    if by_ext == Compression::Uncompressed {
        return Compression::Uncompressed;
    }
    match head {
        Some(h) => match magic_of(h) {
            Some(actual) => if actual == by_ext {
                actual
            } else {
                Compression::Uncompressed
            },
            None => Compression::Uncompressed,
        },
        None => Compression::Uncompressed,
    }
}

/// What decoding an LZW stream (LSB-first codes over 8-bit symbols, the
/// Unix `compress` dialect) gives: the decoded bytes, or the decoder's
/// error as text.
pub uninterp spec fn lzw_lsb8_decode(data: Seq<u8>) -> Result<Seq<u8>, Seq<char>>;

/// `weezl::decode::Decoder::new(BitOrder::Lsb, 8).decode`: the decoded
/// bytes, or the error it reports (in its debug form).
#[verifier::external_body]
fn lzw_decode(data: &[u8]) -> (r: Result<Vec<u8>, String>)
    ensures
        match lzw_lsb8_decode(data@) {
            Ok(o) => r matches Ok(v) && v@ == o,
            Err(e) => r matches Err(s) && s@ == e,
        },
{
    match weezl::decode::Decoder::new(weezl::BitOrder::Lsb, 8).decode(data) {
        Ok(v) => Ok(v),
        Err(e) => Err(format!("{e:?}")),
    }
}

/// The outcome of unwrapping a whole `.Z` file: its 3-byte header must carry
/// the `1F 9D` magic and a maximum code width of 9 to 16 bits (the low five
/// bits of the flag byte); the rest is the LZW stream.
pub open spec fn dot_z_result(data: Seq<u8>) -> Result<Seq<u8>, Seq<char>> {
    if data.len() < 3 {
        Err("reading .Z header: failed to fill whole buffer"@)
    } else if data[0] != 0x1F || data[1] != 0x9D {
        Err(".Z stream has wrong magic bytes"@)
    } else if !(9 <= data[2] % 32 <= 16) {
        Err(".Z header reports an out-of-range max-bits value: "@ + decimal((data[2] % 32) as nat))
    } else {
        match lzw_lsb8_decode(data.subrange(3, data.len() as int)) {
            Ok(o) => Ok(o),
            Err(e) => Err(".Z decode failed: "@ + e),
        }
    }
}

/// Unwrap a Unix `compress(1)` file held in memory.
pub fn decode_dot_z(data: &[u8]) -> (r: Result<Vec<u8>, String>)
    ensures
        match dot_z_result(data@) {
            Ok(o) => r matches Ok(v) && v@ == o,
            Err(e) => r matches Err(s) && s@ == e,
        },
{
    if data.len() < 3 {
        return Err(string_from_chars(&chars_of("reading .Z header: failed to fill whole buffer")));
    }
    if data[0] != 0x1F || data[1] != 0x9D {
        return Err(string_from_chars(&chars_of(".Z stream has wrong magic bytes")));
    }
    let max_bits = data[2] % 32;
    if !(9 <= max_bits && max_bits <= 16) {
        let mut m = chars_of(".Z header reports an out-of-range max-bits value: ");
        append_chars(&mut m, &decimal_chars(max_bits as u64));
        return Err(string_from_chars(&m));
    }
    let mut payload: Vec<u8> = Vec::new();
    let mut i: usize = 3;
    while i < data.len()
        invariant
            3 <= i <= data@.len(),
            payload@ == data@.subrange(3, i as int),
        decreases data@.len() - i,
    {
        payload.push(data[i]);
        assert(payload@ =~= data@.subrange(3, i + 1));
        i += 1;
    }
    match lzw_decode(payload.as_slice()) {
        Ok(v) => Ok(v),
        Err(e) => {
            let mut m = chars_of(".Z decode failed: ");
            append_chars(&mut m, &chars_of(e.as_str()));
            Err(string_from_chars(&m))
        },
    }
}

/// Extensions an entry inside a ZIP must carry to be taken as the image.
pub open spec fn zip_image_exts() -> Seq<Seq<char>> {
    seq![".iso"@, ".img"@, ".raw"@, ".vhd"@, ".wim"@, ".esd"@, ".bin"@]
}

/// What is done with an entry met while walking a ZIP archive.
#[derive(Debug, Clone, Copy, PartialEq, Eq, Structural)]
pub enum ZipEntryAction {
    /// A directory entry: passed over silently.
    Directory,
    /// A disk image: this entry is extracted and the walk ends.
    Image,
    /// Any other file: passed over and named in the error if no image follows.
    Other,
}

/// The action for an entry, by its lower-cased name.
pub open spec fn zip_action_spec(name: Seq<char>) -> ZipEntryAction {
    let lower = unicode_lower(name);
    if is_suffix("/"@, lower) {
        ZipEntryAction::Directory
    } else if exists|i: int| 0 <= i < zip_image_exts().len() && is_suffix(#[trigger] zip_image_exts()[i], lower) {
        ZipEntryAction::Image
    } else {
        ZipEntryAction::Other
    }
}

/// Decide what to do with a ZIP entry of the given name. Only an entry with
/// a disk-image extension is taken, so a stray `README.txt` or checksum file
/// is never cached as the image.
pub fn zip_entry_action(name: &str) -> (r: ZipEntryAction)
    ensures
        r == zip_action_spec(name@),
{
    let lower = chars_of(to_lowercase_unicode(name).as_str());
    if suffix(&lower, "/") {
        return ZipEntryAction::Directory;
    }
    let exts = [".iso", ".img", ".raw", ".vhd", ".wim", ".esd", ".bin"];
    let mut i: usize = 0;
    while i < 7
        invariant
            0 <= i <= 7,
            lower@ == unicode_lower(name@),
            !is_suffix("/"@, lower@),
            forall|j: int| 0 <= j < 7 ==> (#[trigger] exts@[j])@ == zip_image_exts()[j],
            forall|j: int| 0 <= j < i ==> !is_suffix(#[trigger] zip_image_exts()[j], lower@),
        decreases 7 - i,
    {
        if suffix(&lower, exts[i]) {
            assert(is_suffix(zip_image_exts()[i as int], lower@));
            return ZipEntryAction::Image;
        }
        i += 1;
    }
    ZipEntryAction::Other
}

/// The names joined with `sep` between them.
pub open spec fn joined(ls: Seq<Seq<char>>, sep: Seq<char>) -> Seq<char>
    decreases ls.len(),
{
    if ls.len() == 0 {
        seq![]
    } else if ls.len() == 1 {
        ls[0]
    } else {
        joined(ls.drop_last(), sep) + sep + ls.last()
    }
}

/// The error for an archive without an image, given the names of the other
/// files it holds.
pub open spec fn zip_error_text(skipped: Seq<Seq<char>>) -> Seq<char> {
    if skipped.len() == 0 {
        "the zip archive contains no usable disk image"@
    } else {
        "the zip archive contains no disk image (expected one of .iso .img .raw .vhd .wim .esd .bin); found: "@
            + joined(skipped, ", "@)
    }
}

/// The error reported when a ZIP archive holds no disk image; `skipped` are
/// the names of the files it held instead, in archive order.
pub fn zip_no_image_error(skipped: &[String]) -> (r: String)
    ensures
        r@ == zip_error_text(Seq::new(skipped@.len(), |i: int| skipped@[i]@)),
{
    let ghost names = Seq::new(skipped@.len(), |i: int| skipped@[i]@);
    if skipped.len() == 0 {
        return string_from_chars(&chars_of("the zip archive contains no usable disk image"));
    }
    let mut out = chars_of(
        "the zip archive contains no disk image (expected one of .iso .img .raw .vhd .wim .esd .bin); found: ",
    );
    let ghost prefix = out@;
    let mut i: usize = 0;
    while i < skipped.len()
        invariant
            i <= skipped@.len(),
            names == Seq::new(skipped@.len(), |i: int| skipped@[i]@),
            out@ == prefix + joined(names.take(i as int), ", "@),
        decreases skipped@.len() - i,
    {
        assert(names.take(i + 1).drop_last() =~= names.take(i as int));
        if i > 0 {
            append_chars(&mut out, &chars_of(", "));
        }
        append_chars(&mut out, &chars_of(skipped[i].as_str()));
        if i == 0 {
            assert(joined(names.take(1), ", "@) == names.take(1)[0]);
        }
        assert(out@ =~= prefix + joined(names.take(i + 1), ", "@));
        i += 1;
    }
    assert(names.take(i as int) =~= names);
    string_from_chars(&out)
}

/// What a cached entry's sidecar records about the source it came from.
#[derive(Debug, Clone)]
pub struct CacheMeta {
    /// The source path as displayed.
    pub source_path: String,
    /// The source's size in bytes.
    pub source_size: u64,
    /// The source's modification time (Unix seconds).
    pub source_mtime: u64,
    /// The algorithm's [`Compression::name`].
    pub algorithm: String,
    /// Bytes of decompressed output.
    pub decompressed_size: u64,
    /// When the entry was made (Unix seconds).
    pub created_at: u64,
}

/// A cached entry may be reused when its sidecar matches the source's size,
/// modification time and algorithm.
pub open spec fn reusable_spec(prev: Option<CacheMeta>, size: u64, mtime: u64, algo: Compression) -> bool {
    match prev {
        Some(m) => m.source_size == size && m.source_mtime == mtime && m.algorithm@ == algo.name_spec(),
        None => false,
    }
}

/// Whether a previous run's cache entry (its sidecar, when both files exist
/// and the sidecar parses) still matches the source.
pub fn cache_reusable(prev: Option<&CacheMeta>, size: u64, mtime: u64, algo: Compression) -> (r: bool)
    ensures
        r == reusable_spec(
            match prev {
                Some(m) => Some(*m),
                None => None,
            },
            size,
            mtime,
            algo,
        ),
{
    match prev {
        Some(m) => {
            let name = chars_of(algo.name());
            let got = chars_of(m.algorithm.as_str());
            m.source_size == size && m.source_mtime == mtime && crate::text::chars_eq(&got, &name)
        },
        None => false,
    }
}

/// The cache entry name for a compressed source (its canonical path as
/// text, size and modification time) and the algorithm decoding it.
pub fn decompress_cache_key(canonical_path: &str, size: u64, mtime: u64, algo: Compression) -> (r: String)
    ensures
        r@ == cache_key_text(encode_utf8(canonical_path@), size, mtime, encode_utf8(algo.name_spec())),
{
    let name = algo.name();
    cache_key(canonical_path, size, mtime, name.as_bytes())
}

/// The error for a source that does not look compressed.
pub fn not_compressed_error(display: &str) -> (r: String)
    ensures
        r@ == "file does not look compressed: "@ + display@,
{
    let mut m = chars_of("file does not look compressed: ");
    append_chars(&mut m, &chars_of(display));
    string_from_chars(&m)
}

/// A cache file untouched for longer than `max_age_days` days is removed.
pub fn is_stale(age_secs: u64, max_age_days: u64) -> (r: bool)
    requires
        max_age_days * 86400 <= u64::MAX,
    ensures
        r == (age_secs > max_age_days * 86400),
{
    age_secs > max_age_days * 86400
}

/// A compression is only ever detected when the file's first bytes were read
/// and carry that algorithm's magic: a name alone is never trusted.
pub proof fn law_detection_needs_matching_magic(file_name: Option<Seq<char>>, head: Option<Seq<u8>>)
    ensures
        detect_spec(file_name, head) != Compression::Uncompressed ==> (head matches Some(h) && magic_spec(h)
            == Some(detect_spec(file_name, head))),
{
}

/// What the gzip decoder makes of `data` (every member, concatenated), or
/// its error message.
pub uninterp spec fn gz_decoded(data: Seq<u8>) -> Result<Seq<u8>, Seq<char>>;

/// `flate2::read::MultiGzDecoder` read to the end over `data`: the decoded
/// bytes, or the error's message (named, not restated).
#[verifier::external_body]
fn gunzip(data: &[u8]) -> (r: Result<Vec<u8>, String>)
    ensures
        match gz_decoded(data@) {
            Ok(o) => r matches Ok(v) && v@ == o,
            Err(e) => r matches Err(s) && s@ == e,
        },
{
    let mut out = Vec::new();
    match std::io::Read::read_to_end(&mut flate2::read::MultiGzDecoder::new(data), &mut out) {
        Ok(_) => Ok(out),
        Err(e) => Err(e.to_string()),
    }
}

/// What the xz decoder makes of `data` (every stream, concatenated), or its
/// error message.
pub uninterp spec fn xz_decoded(data: Seq<u8>) -> Result<Seq<u8>, Seq<char>>;

/// `xz2::read::XzDecoder::new_multi_decoder` read to the end over `data`:
/// the decoded bytes, or the error's message (named, not restated).
#[verifier::external_body]
fn unxz(data: &[u8]) -> (r: Result<Vec<u8>, String>)
    ensures
        match xz_decoded(data@) {
            Ok(o) => r matches Ok(v) && v@ == o,
            Err(e) => r matches Err(s) && s@ == e,
        },
{
    let mut out = Vec::new();
    match std::io::Read::read_to_end(&mut xz2::read::XzDecoder::new_multi_decoder(data), &mut out) {
        Ok(_) => Ok(out),
        Err(e) => Err(e.to_string()),
    }
}

/// What the bzip2 decoder makes of `data` (every stream, concatenated), or
/// its error message.
pub uninterp spec fn bz2_decoded(data: Seq<u8>) -> Result<Seq<u8>, Seq<char>>;

/// `bzip2::read::MultiBzDecoder` read to the end over `data`: the decoded
/// bytes, or the error's message (named, not restated).
#[verifier::external_body]
fn bunzip2(data: &[u8]) -> (r: Result<Vec<u8>, String>)
    ensures
        match bz2_decoded(data@) {
            Ok(o) => r matches Ok(v) && v@ == o,
            Err(e) => r matches Err(s) && s@ == e,
        },
{
    let mut out = Vec::new();
    match std::io::Read::read_to_end(&mut bzip2::read::MultiBzDecoder::new(data), &mut out) {
        Ok(_) => Ok(out),
        Err(e) => Err(e.to_string()),
    }
}

/// What the zstd decoder makes of `data`, or its error message.
pub uninterp spec fn zst_decoded(data: Seq<u8>) -> Result<Seq<u8>, Seq<char>>;

/// `zstd::stream::decode_all` over `data`: the decoded bytes, or the
/// error's message (named, not restated).
#[verifier::external_body]
fn unzstd(data: &[u8]) -> (r: Result<Vec<u8>, String>)
    ensures
        match zst_decoded(data@) {
            Ok(o) => r matches Ok(v) && v@ == o,
            Err(e) => r matches Err(s) && s@ == e,
        },
{
    match zstd::stream::decode_all(data) {
        Ok(v) => Ok(v),
        Err(e) => Err(e.to_string()),
    }
}

/// What the legacy `.lzma` decoder makes of `data`, or its error message.
pub uninterp spec fn lzma_decoded(data: Seq<u8>) -> Result<Seq<u8>, Seq<char>>;

/// An `xz2::stream::Stream::new_lzma_decoder` (no memory limit) read to the
/// end over `data` through `xz2::read::XzDecoder::new_stream`: the decoded
/// bytes, or the error's message (named, not restated).
#[verifier::external_body]
fn unlzma(data: &[u8]) -> (r: Result<Vec<u8>, String>)
    ensures
        match lzma_decoded(data@) {
            Ok(o) => r matches Ok(v) && v@ == o,
            Err(e) => r matches Err(s) && s@ == e,
        },
{
    let stream = match xz2::stream::Stream::new_lzma_decoder(u64::MAX) {
        Ok(s) => s,
        Err(e) => return Err(e.to_string()),
    };
    let mut out = Vec::new();
    match std::io::Read::read_to_end(&mut xz2::read::XzDecoder::new_stream(data, stream), &mut out) {
        Ok(_) => Ok(out),
        Err(e) => Err(e.to_string()),
    }
}

/// What `zip::read::read_zipfile_from_stream` finds at the start of `tail`:
/// the next entry's name and how many bytes are left after it (its data
/// passed over undecoded), nothing at the archive's end, or the error.
pub uninterp spec fn zip_head(tail: Seq<u8>) -> Result<Option<(Seq<char>, nat)>, Seq<char>>;

/// The local entry at byte `pos` of a ZIP archive held in memory, read with
/// `zip::read::read_zipfile_from_stream` and named with `ZipFile::name`;
/// dropping it skips its data without decoding it. A returned entry has
/// consumed at least its header, so fewer bytes are left than there were.
/// Named, not restated.
#[verifier::external_body]
pub(crate) fn zip_head_at(data: &[u8], pos: usize) -> (r: Result<Option<(String, usize)>, String>)
    requires
        pos <= data@.len(),
    ensures
        match zip_head(data@.subrange(pos as int, data@.len() as int)) {
            Err(e) => r matches Err(x) && x@ == e,
            Ok(None) => r matches Ok(None),
            Ok(Some((n, rem))) => r matches Ok(Some((m, k))) && m@ == n && k == rem,
        },
        r matches Ok(Some((_, k))) ==> k < data@.len() - pos,
{
    let mut src = &data[pos..];
    let name = match zip::read::read_zipfile_from_stream(&mut src) {
        Ok(Some(f)) => f.name().map(|n| n.to_string()),
        Ok(None) => return Ok(None),
        Err(e) => return Err(e.to_string()),
    };
    match name {
        Ok(n) => Ok(Some((n, src.len()))),
        Err(e) => Err(e.to_string()),
    }
}

/// The decoded contents of the entry at the start of `tail` (none at the
/// archive's end), or the error reading it.
pub uninterp spec fn zip_body(tail: Seq<u8>) -> Option<Result<Seq<u8>, Seq<char>>>;

/// The entry at byte `pos` of a ZIP archive held in memory, read with
/// `zip::read::read_zipfile_from_stream` and decoded to its end. Named, not
/// restated.
#[verifier::external_body]
pub(crate) fn zip_body_at(data: &[u8], pos: usize) -> (r: Option<Result<Vec<u8>, String>>)
    requires
        pos <= data@.len(),
    ensures
        match zip_body(data@.subrange(pos as int, data@.len() as int)) {
            None => r is None,
            Some(Ok(b)) => r matches Some(Ok(v)) && v@ == b,
            Some(Err(e)) => r matches Some(Err(x)) && x@ == e,
        },
{
    let mut src = &data[pos..];
    let r = match zip::read::read_zipfile_from_stream(&mut src) {
        Ok(Some(mut f)) => {
            let mut out = Vec::new();
            Some(match std::io::Read::read_to_end(&mut f, &mut out) {
                Ok(_) => Ok(out),
                Err(e) => Err(e.to_string()),
            })
        },
        Ok(None) => None,
        Err(e) => Some(Err(e.to_string())),
    };
    r
}

/// The image a ZIP archive yields, walking its entries from byte `pos` with
/// the names of the other files met so far in `skipped`: directories are
/// passed over, the first entry named like a disk image is decoded and is
/// the image, any other file is passed over undecoded and remembered; an
/// archive that ends first gives the no-image error naming the others, and
/// a read error ends the walk with that error.
pub open spec fn zip_image_walk(data: Seq<u8>, pos: int, skipped: Seq<Seq<char>>) -> Result<Seq<u8>, Seq<char>>
    decreases data.len() - pos,
{
    if pos < 0 || pos > data.len() {
        Err(zip_error_text(skipped))
    } else {
        match zip_head(data.subrange(pos, data.len() as int)) {
            Err(e) => Err(e),
            Ok(None) => Err(zip_error_text(skipped)),
            Ok(Some((name, rem))) => if rem >= data.len() - pos {
                Err(zip_error_text(skipped))
            } else {
                let next = data.len() - rem;
                match zip_action_spec(name) {
                    ZipEntryAction::Directory => zip_image_walk(data, next, skipped),
                    ZipEntryAction::Other => zip_image_walk(data, next, skipped.push(name)),
                    ZipEntryAction::Image => match zip_body(data.subrange(pos, data.len() as int)) {
                        Some(Ok(b)) => Ok(b),
                        Some(Err(e)) => Err(e),
                        None => Err(zip_error_text(skipped)),
                    },
                }
            },
        }
    }
}

/// Walk a ZIP archive held in memory for its image (see [`zip_image_walk`]).
fn pick_zip_image(data: &[u8]) -> (r: Result<Vec<u8>, String>)
    ensures
        match zip_image_walk(data@, 0, seq![]) {
            Ok(o) => r matches Ok(v) && v@ == o,
            Err(e) => r matches Err(s) && s@ == e,
        },
{
    let mut skipped: Vec<String> = Vec::new();
    let mut pos: usize = 0;
    assert(Seq::new(skipped@.len(), |j: int| skipped@[j]@) =~= Seq::<Seq<char>>::empty());
    loop
        invariant
            pos <= data@.len(),
            zip_image_walk(data@, 0, seq![]) == zip_image_walk(
                data@,
                pos as int,
                Seq::new(skipped@.len(), |j: int| skipped@[j]@),
            ),
        decreases data@.len() - pos,
    {
        let ghost sk = Seq::new(skipped@.len(), |j: int| skipped@[j]@);
        match zip_head_at(data, pos) {
            Err(e) => {
                return Err(e);
            },
            Ok(None) => {
                return Err(zip_no_image_error(skipped.as_slice()));
            },
            Ok(Some((name, rem))) => {
                let next = data.len() - rem;
                match zip_entry_action(name.as_str()) {
                    ZipEntryAction::Directory => {},
                    ZipEntryAction::Other => {
                        skipped.push(name);
                        assert(Seq::new(skipped@.len(), |j: int| skipped@[j]@) =~= sk.push(name@));
                    },
                    ZipEntryAction::Image => {
                        return match zip_body_at(data, pos) {
                            Some(Ok(b)) => Ok(b),
                            Some(Err(e)) => Err(e),
                            None => Err(zip_no_image_error(skipped.as_slice())),
                        };
                    },
                }
                pos = next;
            },
        }
    }
}

/// A stream decoder's outcome, its error told as a read failure.
pub open spec fn stream_result(d: Result<Seq<u8>, Seq<char>>) -> Result<Seq<u8>, Seq<char>> {
    match d {
        Ok(o) => Ok(o),
        Err(e) => Err("reading decompressed bytes: "@ + e),
    }
}

/// The plain image a compressed source (shown as `display`) holds, by its
/// compression.
pub open spec fn decompressed_spec(algo: Compression, data: Seq<u8>, display: Seq<char>) -> Result<Seq<u8>, Seq<char>> {
    match algo {
        Compression::Uncompressed => Err("file does not look compressed: "@ + display),
        Compression::Xz => stream_result(xz_decoded(data)),
        Compression::Gz => stream_result(gz_decoded(data)),
        Compression::Bz2 => stream_result(bz2_decoded(data)),
        Compression::Zst => stream_result(zst_decoded(data)),
        Compression::Lzma => stream_result(lzma_decoded(data)),
        Compression::Zip => zip_image_walk(data, 0, seq![]),
        Compression::Z => dot_z_result(data),
    }
}

fn stream_outcome(d: Result<Vec<u8>, String>) -> (r: Result<Vec<u8>, String>)
    ensures
        match stream_result(match d {
            Ok(v) => Ok(v@),
            Err(e) => Err(e@),
        }) {
            Ok(o) => r matches Ok(v) && v@ == o,
            Err(e) => r matches Err(s) && s@ == e,
        },
{
    match d {
        Ok(v) => Ok(v),
        Err(e) => {
            let mut m = chars_of("reading decompressed bytes: ");
            append_chars(&mut m, &chars_of(e.as_str()));
            Err(string_from_chars(&m))
        },
    }
}

/// Decode a compressed image held in memory (`display` names its source in
/// the error for a plain image): the plain image, or why it cannot be had.
pub fn decompress_payload(algo: Compression, data: &[u8], display: &str) -> (r: Result<Vec<u8>, String>)
    ensures
        match decompressed_spec(algo, data@, display@) {
            Ok(o) => r matches Ok(v) && v@ == o,
            Err(e) => r matches Err(s) && s@ == e,
        },
{
    match algo {
        Compression::Uncompressed => Err(not_compressed_error(display)),
        Compression::Xz => stream_outcome(unxz(data)),
        Compression::Gz => stream_outcome(gunzip(data)),
        Compression::Bz2 => stream_outcome(bunzip2(data)),
        Compression::Zst => stream_outcome(unzstd(data)),
        Compression::Lzma => stream_outcome(unlzma(data)),
        Compression::Zip => pick_zip_image(data),
        Compression::Z => decode_dot_z(data),
    }
}

/// A file name ending in `.gz` (any case) that is not a tarball claims
/// gzip, and a file so named whose first bytes are the gzip magic `1F 8B`
/// is detected as gzip.
pub proof fn law_gz_names_are_gzip(name: Seq<char>, stem: Seq<char>, head: Seq<u8>)
    requires
        unicode_lower(name) == stem + ".gz"@,
        !seq_contains(stem + ".gz"@, ".tar."@),
    ensures
        name_guess(Some(name)) == Compression::Gz,
        head.len() >= 2 && head[0] == 0x1F && head[1] == 0x8B ==> detect_spec(Some(name), Some(head))
            == Compression::Gz,
{
    reveal_strlit(".gz");
    reveal_strlit(".tgz");
    reveal_strlit(".txz");
    reveal_strlit(".tbz2");
    reveal_strlit(".tz");
    reveal_strlit(".xz");
    reveal_strlit(".tar.");
    let l = stem + ".gz"@;
    let n = l.len() as int;
    assert(l[n - 1] == 'z' && l[n - 2] == 'g' && l[n - 3] == '.');
    assert(l.subrange(n - 3, n) =~= ".gz"@);
    assert(!is_suffix(".tgz"@, l)) by {
        if is_suffix(".tgz"@, l) {
            assert(l.subrange(n - 4, n)[1] == l[n - 3]);
        }
    }
    assert(!is_suffix(".txz"@, l)) by {
        if is_suffix(".txz"@, l) {
            assert(l.subrange(n - 4, n)[2] == l[n - 2]);
        }
    }
    assert(!is_suffix(".tbz2"@, l)) by {
        if is_suffix(".tbz2"@, l) {
            assert(l.subrange(n - 5, n)[4] == l[n - 1]);
        }
    }
    assert(!is_suffix(".tz"@, l)) by {
        if is_suffix(".tz"@, l) {
            assert(l.subrange(n - 3, n)[1] == l[n - 2]);
        }
    }
    assert(!is_suffix(".xz"@, l)) by {
        if is_suffix(".xz"@, l) {
            assert(l.subrange(n - 3, n)[1] == l[n - 2]);
        }
    }
    if head.len() >= 2 && head[0] == 0x1F && head[1] == 0x8B {
        assert(head.subrange(0, 2) =~= seq![0x1Fu8, 0x8B]);
        assert(!bytes_start(head, seq![0xFDu8, 0x37, 0x7A, 0x58, 0x5A, 0x00])) by {
            if bytes_start(head, seq![0xFDu8, 0x37, 0x7A, 0x58, 0x5A, 0x00]) {
                assert(head.subrange(0, 6)[0] == head[0]);
            }
        }
    }
}

} // verus!
