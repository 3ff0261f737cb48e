//! Microsoft VHD (Virtual Hard Disk v1) images: what the 512-byte footer
//! says about a file, and the cache naming for an unwrapped fixed VHD. A
//! fixed VHD is raw disk data followed by the footer, so dropping the
//! footer gives a plain image; dynamic and differencing VHDs are refused.
//! Reading and writing the files happen outside.
use crate::bytes::{be_u32, read_be_u32};
use crate::digest::{fingerprint, fingerprint_text};
use crate::text::{append_chars, chars_of, string_from_chars};
use vstd::prelude::*;
use vstd::utf8::encode_utf8;

verus! {

/// Size of the VHD footer in bytes.
pub const FOOTER_LEN: u64 = 512;

/// What the footer says about a VHD file.
#[derive(Clone, Copy, Debug, PartialEq, Eq, Structural)]
pub enum VhdKind {
    /// Raw data plus the footer; usable once the footer is dropped.
    Fixed {
        /// Bytes of payload before the footer (file size minus 512).
        data_size: u64,
    },
    /// Sparse format, not supported.
    DynamicOrDifferencing,
    /// The file does not look like a VHD at all.
    NotVhd,
}

/// The footer's magic cookie, `conectix`.
pub open spec fn cookie() -> Seq<u8> {
    seq![0x63u8, 0x6F, 0x6E, 0x65, 0x63, 0x74, 0x69, 0x78]
}

/// The kind of a file of `file_len` bytes whose last 512 bytes are
/// `footer`: too short or without the cookie is no VHD; else the big-endian
/// disk type at offset 60 decides (2 fixed, 3 dynamic, 4 differencing).
pub open spec fn vhd_kind_spec(file_len: u64, footer: Seq<u8>) -> VhdKind {
    if file_len < FOOTER_LEN || footer.subrange(0, 8) != cookie() {
        VhdKind::NotVhd
    } else {
        let t = be_u32(footer, 60);
        if t == 2 {
            VhdKind::Fixed { data_size: (file_len - FOOTER_LEN) as u64 }
        } else if t == 3 || t == 4 {
            VhdKind::DynamicOrDifferencing
        } else {
            VhdKind::NotVhd
        }
    }
}

/// Decide which VHD flavour, if any, a file is, from its length and its
/// trailing 512 bytes (not consulted when the file is shorter than that).
pub fn vhd_kind(file_len: u64, footer: &[u8]) -> (r: VhdKind)
    requires
        file_len >= FOOTER_LEN ==> footer.len() == FOOTER_LEN,
    ensures
        r == vhd_kind_spec(file_len, footer@),
{
    if file_len < FOOTER_LEN {
        return VhdKind::NotVhd;
    }
    let c: [u8; 8] = [0x63, 0x6F, 0x6E, 0x65, 0x63, 0x74, 0x69, 0x78];
    assert(c@ =~= cookie());
    let mut i: usize = 0;
    while i < 8
        invariant
            i <= 8,
            footer@.len() == 512,
            c@ == cookie(),
            forall|j: int| 0 <= j < i ==> footer@[j] == c@[j],
        decreases 8 - i,
    {
        if footer[i] != c[i] {
            assert(footer@.subrange(0, 8)[i as int] != cookie()[i as int]);
            return VhdKind::NotVhd;
        }
        i += 1;
    }
    assert(footer@.subrange(0, 8) =~= cookie());
    let t = read_be_u32(footer, 60);
    if t == 2 {
        VhdKind::Fixed { data_size: file_len - FOOTER_LEN }
    } else if t == 3 || t == 4 {
        VhdKind::DynamicOrDifferencing
    } else {
        VhdKind::NotVhd
    }
}

/// The payload length to copy out of a VHD, or why it cannot be unwrapped.
pub open spec fn payload_spec(kind: VhdKind, display: Seq<char>) -> Result<u64, Seq<char>> {
    match kind {
        VhdKind::Fixed { data_size } => Ok(data_size),
        VhdKind::DynamicOrDifferencing => Err(
            "dynamic/differencing VHDs aren't supported yet; convert to a fixed VHD with `qemu-img convert -O vpc -o subformat=fixed in.vhd out.vhd` (or `-O raw` for img)"@,
        ),
        VhdKind::NotVhd => Err(display + " doesn't look like a VHD file"@),
    }
}

/// The payload length of a fixed VHD, or the error for any other file
/// (`display` names the file in the message).
pub fn payload_size(kind: VhdKind, display: &str) -> (r: Result<u64, String>)
    ensures
        match payload_spec(kind, display@) {
            Ok(n) => r == Ok::<u64, String>(n),
            Err(e) => r matches Err(s) && s@ == e,
        },
{
    match kind {
        VhdKind::Fixed { data_size } => Ok(data_size),
        VhdKind::DynamicOrDifferencing => Err(
            string_from_chars(
                &chars_of(
                    "dynamic/differencing VHDs aren't supported yet; convert to a fixed VHD with `qemu-img convert -O vpc -o subformat=fixed in.vhd out.vhd` (or `-O raw` for img)",
                ),
            ),
        ),
        VhdKind::NotVhd => {
            let mut m = chars_of(display);
            append_chars(&mut m, &chars_of(" doesn't look like a VHD file"));
            Err(string_from_chars(&m))
        },
    }
}

/// The cache entry name for an unwrapped VHD: the 16-hex-digit fingerprint
/// of its canonical path as text, size and modification time, tagged so it
/// never collides with a decompressed entry of the same source.
pub fn vhd_cache_key(canonical_path: &str, size: u64, mtime: u64) -> (r: String)
    ensures
        r@ == fingerprint_text(encode_utf8(canonical_path@), size, mtime, encode_utf8("vhd"@)),
        r@.len() == 16,
{
    fingerprint(canonical_path, size, mtime, "vhd".as_bytes())
}

/// A fixed VHD's payload is the whole file but its 512-byte footer.
pub proof fn law_fixed_payload_excludes_footer(file_len: u64, footer: Seq<u8>)
    ensures
        vhd_kind_spec(file_len, footer) matches VhdKind::Fixed { data_size } ==> data_size + FOOTER_LEN
            == file_len,
{
}

/// The last 512 bytes of a file (all of it when shorter).
pub open spec fn footer_of(data: Seq<u8>) -> Seq<u8> {
    if data.len() >= FOOTER_LEN {
        data.subrange(data.len() - FOOTER_LEN, data.len() as int)
    } else {
        data
    }
}

/// The plain image a VHD file's bytes unwrap to: the payload before the
/// footer of a fixed VHD; else the error for its kind.
pub open spec fn unwrapped_spec(data: Seq<u8>, display: Seq<char>) -> Result<Seq<u8>, Seq<char>> {
    match payload_spec(vhd_kind_spec(data.len() as u64, footer_of(data)), display) {
        Ok(n) => Ok(data.take(n as int)),
        Err(e) => Err(e),
    }
}

/// Unwrap a VHD file held in memory (`display` names it in errors): a fixed
/// VHD gives its bytes without the 512-byte footer.
pub fn unwrap_vhd(data: &[u8], display: &str) -> (r: Result<Vec<u8>, String>)
    requires
        data@.len() <= u64::MAX,
    ensures
        match unwrapped_spec(data@, display@) {
            Ok(o) => r matches Ok(v) && v@ == o,
            Err(e) => r matches Err(s) && s@ == e,
        },
        r is Ok ==> data@.len() >= FOOTER_LEN && r->Ok_0@ == data@.take(data@.len() - FOOTER_LEN),
{
    let len = data.len() as u64;
    let footer: Vec<u8> = if len >= FOOTER_LEN {
        crate::bytes::copy_bytes(data, data.len() - 512, data.len())
    } else {
        crate::bytes::copy_bytes(data, 0, data.len())
    };
    assert(footer@ == footer_of(data@));
    let kind = vhd_kind(len, footer.as_slice());
    match payload_size(kind, display) {
        Ok(n) => {
            let v = crate::bytes::copy_bytes(data, 0, n as usize);
            assert(v@ =~= data@.take(n as int));
            Ok(v)
        },
        Err(e) => Err(e),
    }
}

/// A fixed VHD made of a payload and a footer unwraps to exactly that
/// payload; with a dynamic or differencing footer it is refused.
pub proof fn law_fixed_vhd_unwraps_to_payload(raw: Seq<u8>, footer: Seq<u8>, display: Seq<char>)
    requires
        footer.len() == FOOTER_LEN,
        footer.subrange(0, 8) == cookie(),
        raw.len() + FOOTER_LEN <= u64::MAX,
    ensures
        be_u32(footer, 60) == 2 ==> unwrapped_spec(raw + footer, display) == Ok::<Seq<u8>, Seq<char>>(raw),
        be_u32(footer, 60) == 3 || be_u32(footer, 60) == 4 ==> unwrapped_spec(raw + footer, display) is Err,
{
    let d = raw + footer;
    assert(footer_of(d) =~= footer);
    assert(d.take(raw.len() as int) =~= raw);
}

} // verus!
