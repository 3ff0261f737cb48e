//! Minimal read-only UDF (Universal Disk Format) reader.
//!
//! Modern Windows installer ISOs are primarily UDF: the ISO 9660 stub they
//! also carry is near-empty. This reader walks a UDF 1.02 / 2.01 image just
//! far enough to list directory contents and read small files.
//!
//! Scope: block size 2048; the Anchor Volume Descriptor Pointer at sector
//! 256 only; short-AD and long-AD allocation descriptors without chained
//! extents; multi-extent files; no CRC verification. All fields on disk are
//! little-endian.
//!
//! Every reading function is specified over the image's bytes: its result,
//! when the reads it makes succeed, is the one the `*_spec` functions give,
//! and a `None` there is a `None` here.
use crate::bytes::{le_u16, le_u32, le_u64, read_le_u16, read_le_u32, read_le_u64};
use crate::text::{
    chars_of, eq_ignore_ascii_case, eq_ignore_case, string_from_chars, trim, trim_chars, utf8_lossy,
    utf8_lossy_string,
};
use std::collections::HashMap;
use vstd::prelude::*;
use vstd::slice::slice_subrange;
use vstd::utf8::{decode_utf8, valid_utf8};

verus! {

/// UDF block size for optical and install media.
pub const BLOCK: u64 = 2048;

/// Ceiling on the bytes materialized for one file.
pub const MAX_FILE_BYTES: u64 = 67108864;

/// Ceiling on the bytes of one directory's File Identifier area.
pub const MAX_DIR_BYTES: u64 = 16777216;

/// Descriptor tag identifiers (ECMA-167 / OSTA UDF).
pub const TAG_PVD: u16 = 1;
pub const TAG_AVDP: u16 = 2;
pub const TAG_PARTITION: u16 = 5;
pub const TAG_LVD: u16 = 6;
pub const TAG_TERMINATING: u16 = 8;
pub const TAG_FSD: u16 = 256;
pub const TAG_FID: u16 = 257;
pub const TAG_FILE_ENTRY: u16 = 261;
pub const TAG_EXTENDED_FILE_ENTRY: u16 = 266;

/// A random-access source of image bytes: a file, a device, or memory.
pub trait ImageSource {
    /// The bytes of the image this source reads.
    spec fn image(&self) -> Seq<u8>;

    /// Every read of bytes the image holds succeeds. A source that does
    /// not promise it (one that may hit an I/O error, such as a file)
    /// leaves it unknown.
    closed spec fn reads_succeed(&self) -> bool {
        false
    }

    /// Reads `len` bytes at byte offset `pos`. A read may fail; one that
    /// succeeds returns exactly those bytes of the image, which must hold
    /// them, and a source whose reads succeed fails only past the image's
    /// end. Reading never changes the image.
    fn read_at(&mut self, pos: u64, len: usize) -> (r: Option<Vec<u8>>)
        ensures
            final(self).image() == old(self).image(),
            final(self).reads_succeed() == old(self).reads_succeed(),
            old(self).reads_succeed() && pos + len <= old(self).image().len() ==> r is Some,
            r matches Some(v) ==> pos + len <= old(self).image().len() && v@ == old(
                self,
            ).image().subrange(pos as int, pos + len),
    ;
}

/// An image held in memory.
pub struct ImageBytes {
    bytes: Vec<u8>,
}

impl ImageBytes {
    /// Wraps the bytes of an image.
    pub fn new(bytes: Vec<u8>) -> (r: Self)
        ensures
            r.image() == bytes@,
            r.reads_succeed(),
    {
        ImageBytes { bytes }
    }
}

impl ImageSource for ImageBytes {
    closed spec fn image(&self) -> Seq<u8> {
        self.bytes@
    }

    closed spec fn reads_succeed(&self) -> bool {
        true
    }

    fn read_at(&mut self, pos: u64, len: usize) -> (r: Option<Vec<u8>>) {
        let n = self.bytes.len();
        if pos > n as u64 || len > n - pos as usize {
            return None;
        }
        let p = pos as usize;
        let mut v: Vec<u8> = Vec::new();
        let mut i: usize = 0;
        while i < len
            invariant
                i <= len,
                p + len <= self.bytes.len(),
                v@ == self.bytes@.subrange(p as int, p + i),
            decreases len - i,
        {
            v.push(self.bytes[p + i]);
            assert(v@ =~= self.bytes@.subrange(p as int, p + i + 1));
            i = i + 1;
        }
        Some(v)
    }
}

/// A (block-location, length-in-bytes) reference to an extent inside the
/// partition; short and long allocation descriptors both collapse to it.
#[derive(Debug, Clone, Copy, PartialEq, Eq, Structural)]
pub struct ExtentRef {
    pub block: u32,
    pub length: u32,
}

/// A single entry inside a UDF directory.
#[derive(Debug)]
pub struct DirEntry {
    pub name: String,
    pub is_dir: bool,
    pub icb: ExtentRef,
}

/// What a directory entry says: its name, whether it is a directory, and
/// where its File Entry is.
pub open spec fn entry_view(e: DirEntry) -> (Seq<char>, bool, ExtentRef) {
    (e.name@, e.is_dir, e.icb)
}

/// The views of a list of directory entries.
pub open spec fn entries_view(v: Seq<DirEntry>) -> Seq<(Seq<char>, bool, ExtentRef)> {
    Seq::new(v.len(), |i: int| entry_view(v[i]))
}

impl DirEntry {
    /// A copy of this entry.
    pub fn duplicate(&self) -> (r: DirEntry)
        ensures
            entry_view(r) == entry_view(*self),
    {
        DirEntry { name: self.name.clone(), is_dir: self.is_dir, icb: self.icb }
    }
}

/// Copies a list of directory entries.
fn duplicate_entries(v: &Vec<DirEntry>) -> (r: Vec<DirEntry>)
    ensures
        entries_view(r@) == entries_view(v@),
{
    let mut r: Vec<DirEntry> = Vec::new();
    let mut i: usize = 0;
    while i < v.len()
        invariant
            i <= v@.len(),
            r@.len() == i,
            entries_view(r@) == entries_view(v@).take(i as int),
        decreases v@.len() - i,
    {
        let ghost before = r@;
        let d = v[i].duplicate();
        r.push(d);
        assert forall|j: int| 0 <= j < i implies entry_view(r@[j]) == entries_view(v@).take(
            i as int,
        )[j] by {
            assert(r@[j] == before[j]);
            assert(entries_view(before)[j] == entry_view(before[j]));
        }
        assert(entries_view(r@) =~= entries_view(v@).take(i + 1));
        i = i + 1;
    }
    assert(entries_view(v@).take(i as int) =~= entries_view(v@));
    r
}

// ---- byte-level decoding ----------------------------------------------------

/// `char::from_u32`: the character with scalar value `v`; none for a
/// surrogate code point or a value past U+10FFFF.
#[verifier::external_body]
fn char_from_u32(v: u32) -> (r: Option<char>)
    ensures
        r is Some <==> (v < 0xD800 || (0xE000 <= v && v <= 0x10FFFF)),
        r matches Some(c) ==> c as u32 == v,
{
    char::from_u32(v)
}

/// UCS-2 big-endian text: each whole byte pair is a code unit; surrogate
/// units are dropped, and a lone final byte is ignored.
pub open spec fn ucs2_decode(p: Seq<u8>) -> Seq<char>
    decreases p.len(),
{
    if p.len() < 2 {
        seq![]
    } else {
        let c = p[0] as u32 * 256 + p[1] as u32;
        let rest = ucs2_decode(p.subrange(2, p.len() as int));
        if 0xD800 <= c && c <= 0xDFFF {
            rest
        } else {
            seq![c as char] + rest
        }
    }
}

/// Decodes UCS-2 big-endian text.
fn ucs2_chars(p: &[u8]) -> (r: Vec<char>)
    ensures
        r@ == ucs2_decode(p@),
{
    let mut r: Vec<char> = Vec::new();
    let mut i: usize = 0;
    assert(p@.subrange(0, p@.len() as int) =~= p@);
    assert(r@ + ucs2_decode(p@) =~= ucs2_decode(p@));
    while p.len() - i >= 2
        invariant
            i <= p@.len(),
            r@ + ucs2_decode(p@.subrange(i as int, p@.len() as int)) == ucs2_decode(p@),
        decreases p@.len() - i,
    {
        let ghost rest = p@.subrange(i as int, p@.len() as int);
        assert(rest.subrange(2, rest.len() as int) =~= p@.subrange(i + 2, p@.len() as int));
        let ghost rest2 = p@.subrange(i + 2, p@.len() as int);
        let c: u32 = p[i] as u32 * 256 + p[i + 1] as u32;
        assert(rest[0] == p@[i as int] && rest[1] == p@[i + 1]);
        let ghost before = r@;
        match char_from_u32(c) {
            Some(ch) => {
                r.push(ch);
                proof {
                    vstd::utf8::char_u32_cast(ch, c);
                }
                assert(ucs2_decode(rest) == seq![ch] + ucs2_decode(rest2));
                assert(r@ + ucs2_decode(rest2) =~= before + (seq![ch] + ucs2_decode(rest2)));
            },
            None => {
                assert(ucs2_decode(rest) == ucs2_decode(rest2));
            },
        }
        i = i + 2;
    }
    let ghost rest = p@.subrange(i as int, p@.len() as int);
    assert(ucs2_decode(rest) =~= seq![]);
    assert(r@ + seq![] =~= r@);
    r
}

/// A UDF "d-string" (the volume label): a compression byte (8 for 8-bit,
/// 16 for UCS-2BE), the payload, and a final byte holding the count of
/// payload bytes including the compression byte. The text is trimmed.
pub open spec fn dstring_spec(buf: Seq<u8>) -> Seq<char> {
    if buf.len() < 2 {
        seq![]
    } else {
        let total = buf.last() as int;
        if total == 0 || total > buf.len() - 1 {
            seq![]
        } else {
            let payload = buf.subrange(1, total);
            if buf[0] == 8 {
                trim(utf8_lossy(payload))
            } else if buf[0] == 16 {
                trim(ucs2_decode(payload))
            } else {
                seq![]
            }
        }
    }
}

/// Decodes a UDF "d-string".
pub fn read_dstring(buf: &[u8]) -> (r: String)
    ensures
        r@ == dstring_spec(buf@),
{
    if buf.len() < 2 {
        return String::new();
    }
    let total = buf[buf.len() - 1] as usize;
    if total == 0 || total > buf.len() - 1 {
        return String::new();
    }
    let payload = slice_subrange(buf, 1, total);
    if buf[0] == 8 {
        let s = utf8_lossy_string(payload);
        let c = chars_of(s.as_str());
        let t = trim_chars(&c);
        string_from_chars(&t)
    } else if buf[0] == 16 {
        let c = ucs2_chars(payload);
        let t = trim_chars(&c);
        string_from_chars(&t)
    } else {
        String::new()
    }
}

/// A UDF File Identifier: the first byte is the compression marker (8 or
/// 16) and the rest the payload, with no length byte; not trimmed.
pub open spec fn udf_name_spec(buf: Seq<u8>) -> Seq<char> {
    if buf.len() == 0 {
        seq![]
    } else if buf[0] == 8 {
        utf8_lossy(buf.subrange(1, buf.len() as int))
    } else if buf[0] == 16 {
        ucs2_decode(buf.subrange(1, buf.len() as int))
    } else {
        seq![]
    }
}

/// Decodes a UDF File Identifier name.
pub fn decode_udf_name(buf: &[u8]) -> (r: String)
    ensures
        r@ == udf_name_spec(buf@),
{
    if buf.len() == 0 {
        return String::new();
    }
    let payload = slice_subrange(buf, 1, buf.len());
    if buf[0] == 8 {
        utf8_lossy_string(payload)
    } else if buf[0] == 16 {
        let c = ucs2_chars(payload);
        string_from_chars(&c)
    } else {
        String::new()
    }
}

/// The long_ad at `off`: a `u32` length, then a `u32` logical block.
pub open spec fn long_ad(b: Seq<u8>, off: int) -> ExtentRef {
    ExtentRef { length: le_u32(b, off) as u32, block: le_u32(b, off + 4) as u32 }
}

/// Reads the long_ad at `off`.
fn read_long_ad(b: &[u8], off: usize) -> (r: ExtentRef)
    requires
        off + 16 <= b.len(),
    ensures
        r == long_ad(b@, off as int),
{
    ExtentRef { length: read_le_u32(b, off), block: read_le_u32(b, off + 4) }
}

/// The 2048-byte sector `s` of the image, when the image holds it.
pub open spec fn sector_spec(img: Seq<u8>, s: int) -> Option<Seq<u8>> {
    if 0 <= s && s * 2048 + 2048 <= img.len() {
        Some(img.subrange(s * 2048, s * 2048 + 2048))
    } else {
        None
    }
}

/// Reads sector `s`.
fn read_sector<R: ImageSource>(reader: &mut R, s: u64) -> (r: Option<Vec<u8>>)
    requires
        s <= 0x1_0000_0000_0000,
    ensures
        final(reader).image() == old(reader).image(),
        final(reader).reads_succeed() == old(reader).reads_succeed(),
        r matches Some(v) ==> sector_spec(old(reader).image(), s as int) == Some(v@),
        sector_spec(old(reader).image(), s as int) is None ==> r is None,
        old(reader).reads_succeed() && sector_spec(old(reader).image(), s as int) is Some ==> r is Some,
        r matches Some(v) ==> v@.len() == 2048,
{
    reader.read_at(s * 2048, 2048)
}

// ---- volume structure -------------------------------------------------------

/// What the Main Volume Descriptor Sequence has yielded so far: the
/// partition start, the volume label, and the File Set Descriptor's extent.
pub type VdsFound = (Option<u32>, Seq<char>, Option<ExtentRef>);

/// Walks sectors `i..n` of the descriptor sequence at sector `loc`: a
/// Primary Volume Descriptor sets the label, a Partition Descriptor the
/// partition start, a Logical Volume Descriptor the File Set Descriptor's
/// extent; a Terminating Descriptor ends the walk. A sector that cannot be
/// read fails it.
pub open spec fn vds_scan(img: Seq<u8>, loc: int, i: int, n: int, st: VdsFound) -> Option<VdsFound>
    decreases n - i,
{
    if i >= n {
        Some(st)
    } else {
        match sector_spec(img, loc + i) {
            None => None,
            Some(buf) => {
                let t = le_u16(buf, 0);
                if t == TAG_TERMINATING {
                    Some(st)
                } else {
                    let next: VdsFound = if t == TAG_PVD {
                        (st.0, dstring_spec(buf.subrange(24, 56)), st.2)
                    } else if t == TAG_PARTITION {
                        (Some(le_u32(buf, 188) as u32), st.1, st.2)
                    } else if t == TAG_LVD {
                        (st.0, st.1, Some(long_ad(buf, 248)))
                    } else {
                        st
                    };
                    vds_scan(img, loc, i + 1, n, next)
                }
            },
        }
    }
}

/// The volume of a UDF image: its partition start (in sectors), the root
/// directory's ICB, and the volume label; none when the image is not
/// recognisable UDF.
pub open spec fn open_spec(img: Seq<u8>) -> Option<(u32, ExtentRef, Seq<char>)> {
    match sector_spec(img, 256) {
        None => None,
        Some(avdp) => if le_u16(avdp, 0) != TAG_AVDP {
            None
        } else {
            let n = (le_u32(avdp, 16) + 2047) / 2048;
            match vds_scan(img, le_u32(avdp, 20) as int, 0, n as int, (None, seq![], None)) {
                None => None,
                Some(found) => match (found.0, found.2) {
                    (Some(part), Some(fsd)) => match sector_spec(img, part + fsd.block) {
                        None => None,
                        Some(fsd_buf) => if le_u16(fsd_buf, 0) != TAG_FSD {
                            None
                        } else {
                            Some((part, long_ad(fsd_buf, 400), found.1))
                        },
                    },
                    _ => None,
                },
            }
        },
    }
}

/// The File Entry (or Extended File Entry) at `block` of the partition:
/// its allocation type (the low 3 bits of the ICB flags), its allocation
/// descriptors (or inline data), and its information length.
pub open spec fn file_entry_spec(img: Seq<u8>, part: int, block: int) -> Option<(u16, Seq<u8>, u64)> {
    match sector_spec(img, part + block) {
        None => None,
        Some(buf) => {
            let tag = le_u16(buf, 0);
            if tag == TAG_FILE_ENTRY || tag == TAG_EXTENDED_FILE_ENTRY {
                let ad_type = (le_u16(buf, 34) % 8) as u16;
                let info = le_u64(buf, 56) as u64;
                let l_ea = if tag == TAG_FILE_ENTRY {
                    le_u32(buf, 168)
                } else {
                    le_u32(buf, 208)
                };
                let l_ad = if tag == TAG_FILE_ENTRY {
                    le_u32(buf, 172)
                } else {
                    le_u32(buf, 212)
                };
                let ad_off = (if tag == TAG_FILE_ENTRY {
                    176int
                } else {
                    216int
                }) + l_ea;
                if ad_off + l_ad > 2048 {
                    None
                } else {
                    Some((ad_type, buf.subrange(ad_off, ad_off + l_ad), info))
                }
            } else {
                None
            }
        },
    }
}

/// `len` bytes of the image at byte `off`, when it holds them.
pub open spec fn bytes_at(img: Seq<u8>, off: int, len: int) -> Option<Seq<u8>> {
    if 0 <= off && 0 <= len && off + len <= img.len() {
        Some(img.subrange(off, off + len))
    } else {
        None
    }
}

/// `n` zero bytes.
pub open spec fn zeros(n: int) -> Seq<u8> {
    Seq::new(n as nat, |i: int| 0u8)
}

/// `p` in front of an optional result.
pub open spec fn then_prepend(p: Seq<u8>, o: Option<Seq<u8>>) -> Option<Seq<u8>> {
    match o {
        Some(t) => Some(p + t),
        None => None,
    }
}

/// The top two bits of an extent length: 0 recorded, 1 allocated but not
/// recorded, 2 not allocated, 3 a chained extent of descriptors.
pub open spec fn extent_kind(raw: int) -> int {
    raw / 0x4000_0000
}

/// The low 30 bits of an extent length: its size in bytes.
pub open spec fn extent_bytes(raw: int) -> int {
    raw % 0x4000_0000
}

/// The data of a file whose extents are the descriptors `ads` (of `stride`
/// bytes each), `remaining` bytes still owed: each extent adds its bytes
/// (recorded) or zeros (sparse), up to what is owed; an empty extent, a
/// chained extent, or a whole owed length ends the data.
pub open spec fn extents_spec(img: Seq<u8>, part: int, ads: Seq<u8>, stride: int, remaining: int) -> Option<Seq<u8>>
    decreases ads.len(),
{
    if stride < 8 || ads.len() < stride || remaining <= 0 {
        Some(seq![])
    } else {
        let raw = le_u32(ads, 0) as int;
        let length = extent_bytes(raw);
        let kind = extent_kind(raw);
        let rest = ads.subrange(stride, ads.len() as int);
        if length == 0 {
            Some(seq![])
        } else {
            let take = if length <= remaining {
                length
            } else {
                remaining
            };
            if kind == 0 {
                match bytes_at(img, (part + le_u32(ads, 4)) * 2048, take) {
                    None => None,
                    Some(b) => then_prepend(
                        b,
                        extents_spec(img, part, rest, stride, remaining - take),
                    ),
                }
            } else if kind == 1 || kind == 2 {
                then_prepend(zeros(take), extents_spec(img, part, rest, stride, remaining - take))
            } else {
                Some(seq![])
            }
        }
    }
}

/// The data of the file whose File Entry is at `block`, refused when its
/// length passes `max`: inline data, or the bytes of its short or long
/// allocation descriptors.
pub open spec fn file_data_spec(img: Seq<u8>, part: int, block: int, max: u64) -> Option<Seq<u8>> {
    match file_entry_spec(img, part, block) {
        None => None,
        Some(fe) => {
            let (ad_type, ads, info) = fe;
            if info > max {
                None
            } else if ad_type == 3 {
                Some(ads.take(if info <= ads.len() { info as int } else { ads.len() as int }))
            } else if ad_type == 0 {
                extents_spec(img, part, ads, 8, info as int)
            } else if ad_type == 1 {
                extents_spec(img, part, ads, 16, info as int)
            } else {
                None
            }
        },
    }
}

/// Reads the File Entry at `block` of the partition starting at `part`.
fn file_entry_ads<R: ImageSource>(reader: &mut R, part: u32, block: u32) -> (r: Option<(u16, Vec<u8>, u64)>)
    ensures
        final(reader).image() == old(reader).image(),
        final(reader).reads_succeed() == old(reader).reads_succeed(),
        r matches Some(fe) ==> file_entry_spec(old(reader).image(), part as int, block as int)
            == Some((fe.0, fe.1@, fe.2)),
        old(reader).reads_succeed() && file_entry_spec(old(reader).image(), part as int, block as int) is Some
            ==> r is Some,
{
    let buf = match read_sector(reader, part as u64 + block as u64) {
        None => {
            return None;
        },
        Some(b) => b,
    };
    let tag = read_le_u16(&buf, 0);
    if tag != TAG_FILE_ENTRY && tag != TAG_EXTENDED_FILE_ENTRY {
        return None;
    }
    let ad_type: u16 = read_le_u16(&buf, 34) % 8;
    let info: u64 = read_le_u64(&buf, 56);
    let (l_ea, l_ad, start): (u64, u64, u64) = if tag == TAG_FILE_ENTRY {
        (read_le_u32(&buf, 168) as u64, read_le_u32(&buf, 172) as u64, 176)
    } else {
        (read_le_u32(&buf, 208) as u64, read_le_u32(&buf, 212) as u64, 216)
    };
    let ad_off: u64 = start + l_ea;
    if ad_off + l_ad > 2048 {
        return None;
    }
    let ads = crate::bytes::copy_bytes(&buf, ad_off as usize, (ad_off + l_ad) as usize);
    Some((ad_type, ads, info))
}

/// Appends `n` zero bytes.
fn push_zeros(out: &mut Vec<u8>, n: usize)
    ensures
        final(out)@ == old(out)@ + zeros(n as int),
{
    let ghost start = out@;
    let mut i: usize = 0;
    while i < n
        invariant
            i <= n,
            out@ == start + zeros(i as int),
        decreases n - i,
    {
        out.push(0);
        assert(out@ =~= start + zeros(i + 1));
        i = i + 1;
    }
}

/// Reads the data of a file from its extent descriptors.
#[verifier::rlimit(50)]
fn read_extents<R: ImageSource>(reader: &mut R, part: u32, ads: &[u8], stride: usize, info: u64) -> (r: Option<Vec<u8>>)
    requires
        stride == 8 || stride == 16,
        info <= MAX_FILE_BYTES,
    ensures
        final(reader).image() == old(reader).image(),
        final(reader).reads_succeed() == old(reader).reads_succeed(),
        r matches Some(v) ==> extents_spec(old(reader).image(), part as int, ads@, stride as int, info as int)
            == Some(v@),
        old(reader).reads_succeed() && extents_spec(old(reader).image(), part as int, ads@, stride as int, info as int)
            is Some ==> r is Some,
{
    let ghost img = reader.image();
    let ghost total = extents_spec(img, part as int, ads@, stride as int, info as int);
    let mut out: Vec<u8> = Vec::new();
    let mut k: usize = 0;
    let mut remaining: u64 = info;
    assert(ads@.subrange(0, ads@.len() as int) =~= ads@);
    assert(out@ + seq![] =~= out@);
    while ads.len() - k >= stride && remaining > 0
        invariant
            stride == 8 || stride == 16,
            k <= ads@.len(),
            remaining <= info <= MAX_FILE_BYTES,
            reader.image() == img,
            img == old(reader).image(),
            reader.reads_succeed() == old(reader).reads_succeed(),
            total == extents_spec(img, part as int, ads@, stride as int, info as int),
            then_prepend(out@, extents_spec(img, part as int, ads@.subrange(k as int, ads@.len() as int), stride as int, remaining as int)) == total,
        decreases ads@.len() - k,
    {
        let ghost cur = ads@.subrange(k as int, ads@.len() as int);
        let ghost rest = ads@.subrange(k + stride, ads@.len() as int);
        assert(cur.subrange(stride as int, cur.len() as int) =~= rest);
        let raw: u32 = read_le_u32(ads, k);
        let pos: u32 = read_le_u32(ads, k + 4);
        assert(le_u32(cur, 0) == raw && le_u32(cur, 4) == pos);
        let kind: u32 = raw / 0x4000_0000;
        let length: u64 = (raw % 0x4000_0000) as u64;
        if length == 0 {
            assert(out@ + seq![] =~= out@);
            return Some(out);
        }
        let take: u64 = if length <= remaining {
            length
        } else {
            remaining
        };
        let ghost before = out@;
        if kind == 0 {
            match reader.read_at((part as u64 + pos as u64) * 2048, take as usize) {
                None => {
                    assert(!(old(reader).reads_succeed() && total is Some));
                    return None;
                },
                Some(b) => {
                    let mut j: usize = 0;
                    while j < b.len()
                        invariant
                            j <= b@.len(),
                            out@ == before + b@.take(j as int),
                        decreases b@.len() - j,
                    {
                        out.push(b[j]);
                        assert(out@ =~= before + b@.take(j + 1));
                        j = j + 1;
                    }
                    assert(b@.take(j as int) =~= b@);
                },
            }
        } else if kind == 1 || kind == 2 {
            push_zeros(&mut out, take as usize);
        } else {
            assert(out@ + seq![] =~= out@);
            return Some(out);
        }
        proof {
            let t = extents_spec(img, part as int, rest, stride as int, remaining - take);
            if let Some(tt) = t {
                assert(before + (out@.subrange(before.len() as int, out@.len() as int) + tt) =~= out@ + tt);
                assert(out@.subrange(before.len() as int, out@.len() as int) + tt =~= out@.subrange(before.len() as int, out@.len() as int) + tt);
            }
        }
        remaining = remaining - take;
        k = k + stride;
    }
    assert(out@ + seq![] =~= out@);
    Some(out)
}

/// Reads the data of the file whose File Entry is at `block`, refusing
/// lengths past `max`.
fn read_file_data<R: ImageSource>(reader: &mut R, part: u32, block: u32, max: u64) -> (r: Option<Vec<u8>>)
    requires
        max <= MAX_FILE_BYTES,
    ensures
        final(reader).image() == old(reader).image(),
        final(reader).reads_succeed() == old(reader).reads_succeed(),
        r matches Some(v) ==> file_data_spec(old(reader).image(), part as int, block as int, max)
            == Some(v@),
        old(reader).reads_succeed() && file_data_spec(old(reader).image(), part as int, block as int, max) is Some
            ==> r is Some,
{
    let (ad_type, ads, info) = match file_entry_ads(reader, part, block) {
        None => {
            return None;
        },
        Some(fe) => fe,
    };
    if info > max {
        return None;
    }
    if ad_type == 3 {
        let take: usize = if info <= ads.len() as u64 {
            info as usize
        } else {
            ads.len()
        };
        let v = crate::bytes::copy_bytes(&ads, 0, take);
        assert(v@ =~= ads@.take(take as int));
        Some(v)
    } else if ad_type == 0 {
        read_extents(reader, part, &ads, 8, info)
    } else if ad_type == 1 {
        read_extents(reader, part, &ads, 16, info)
    } else {
        None
    }
}

/// The end of a requested window `[start, start + len)`: the length capped
/// at [`MAX_FILE_BYTES`], the sum saturated at `u64::MAX`, and the end
/// clamped to the file's length.
pub open spec fn window_end(start: u64, len: u64, info: u64) -> int {
    let l = if len <= MAX_FILE_BYTES {
        len as int
    } else {
        MAX_FILE_BYTES as int
    };
    let e = if start + l > u64::MAX {
        u64::MAX as int
    } else {
        start + l
    };
    if e <= info {
        e
    } else {
        info as int
    }
}

/// The bytes of the window `[start, end)` of a file whose extents are the
/// descriptors `ads`, the current extent starting at file offset `pos` with
/// `remaining` bytes of the file still to come.
pub open spec fn range_extents_spec(
    img: Seq<u8>,
    part: int,
    ads: Seq<u8>,
    stride: int,
    remaining: int,
    start: int,
    end: int,
    pos: int,
) -> Option<Seq<u8>>
    decreases ads.len(),
{
    if stride < 8 || ads.len() < stride || remaining <= 0 || pos >= end {
        Some(seq![])
    } else {
        let raw = le_u32(ads, 0) as int;
        let length = extent_bytes(raw);
        let kind = extent_kind(raw);
        let rest = ads.subrange(stride, ads.len() as int);
        if length == 0 {
            Some(seq![])
        } else {
            let take = if length <= remaining {
                length
            } else {
                remaining
            };
            let ext_end = pos + take;
            let ov_start = if start >= pos {
                start
            } else {
                pos
            };
            let ov_end = if end <= ext_end {
                end
            } else {
                ext_end
            };
            let next = range_extents_spec(img, part, rest, stride, remaining - take, start, end, ext_end);
            if ov_start < ov_end {
                if kind == 0 {
                    match bytes_at(
                        img,
                        (part + le_u32(ads, 4)) * 2048 + (ov_start - pos),
                        ov_end - ov_start,
                    ) {
                        None => None,
                        Some(b) => then_prepend(b, next),
                    }
                } else if kind == 1 || kind == 2 {
                    then_prepend(zeros(ov_end - ov_start), next)
                } else {
                    Some(seq![])
                }
            } else if kind > 2 {
                Some(seq![])
            } else {
                next
            }
        }
    }
}

/// The bytes `[start, window_end)` of the file whose File Entry is at
/// `block`, reading only the extents that overlap the window.
pub open spec fn file_range_spec(img: Seq<u8>, part: int, block: int, start: u64, len: u64) -> Option<Seq<u8>> {
    match file_entry_spec(img, part, block) {
        None => None,
        Some(fe) => {
            let (ad_type, ads, info) = fe;
            let end = window_end(start, len, info);
            if start >= end {
                Some(seq![])
            } else if ad_type == 3 {
                let s = if start <= ads.len() {
                    start as int
                } else {
                    ads.len() as int
                };
                let e = if end <= ads.len() {
                    end
                } else {
                    ads.len() as int
                };
                Some(ads.subrange(s, e))
            } else if ad_type == 0 {
                range_extents_spec(img, part, ads, 8, info as int, start as int, end, 0)
            } else if ad_type == 1 {
                range_extents_spec(img, part, ads, 16, info as int, start as int, end, 0)
            } else {
                None
            }
        },
    }
}

/// Appends the bytes of `b`.
fn push_all(out: &mut Vec<u8>, b: &[u8])
    ensures
        final(out)@ == old(out)@ + b@,
{
    let ghost before = out@;
    let mut j: usize = 0;
    while j < b.len()
        invariant
            j <= b@.len(),
            out@ == before + b@.take(j as int),
        decreases b@.len() - j,
    {
        out.push(b[j]);
        assert(out@ =~= before + b@.take(j + 1));
        j = j + 1;
    }
    assert(b@.take(j as int) =~= b@);
}

/// Reads the window `[start, end)` of a file from its extent descriptors.
#[verifier::rlimit(100)]
fn read_extents_range<R: ImageSource>(
    reader: &mut R,
    part: u32,
    ads: &[u8],
    stride: usize,
    info: u64,
    start: u64,
    end: u64,
) -> (r: Option<Vec<u8>>)
    requires
        stride == 8 || stride == 16,
        start < end <= info,
        end - start <= MAX_FILE_BYTES,
    ensures
        final(reader).image() == old(reader).image(),
        r matches Some(v) ==> range_extents_spec(
            old(reader).image(),
            part as int,
            ads@,
            stride as int,
            info as int,
            start as int,
            end as int,
            0,
        ) == Some(v@),
        final(reader).reads_succeed() == old(reader).reads_succeed(),
        old(reader).reads_succeed() && range_extents_spec(
            old(reader).image(),
            part as int,
            ads@,
            stride as int,
            info as int,
            start as int,
            end as int,
            0,
        ) is Some ==> r is Some,
{
    let ghost img = reader.image();
    let ghost total = range_extents_spec(img, part as int, ads@, stride as int, info as int, start as int, end as int, 0);
    let mut out: Vec<u8> = Vec::new();
    let mut k: usize = 0;
    let mut pos: u64 = 0;
    let mut remaining: u64 = info;
    assert(ads@.subrange(0, ads@.len() as int) =~= ads@);
    assert(out@ + seq![] =~= out@);
    while ads.len() - k >= stride && remaining > 0 && pos < end
        invariant
            stride == 8 || stride == 16,
            k <= ads@.len(),
            pos + remaining == info,
            start < end <= info,
            end - start <= MAX_FILE_BYTES,
            reader.image() == img,
            img == old(reader).image(),
            reader.reads_succeed() == old(reader).reads_succeed(),
            total == range_extents_spec(img, part as int, ads@, stride as int, info as int, start as int, end as int, 0),
            then_prepend(
                out@,
                range_extents_spec(
                    img,
                    part as int,
                    ads@.subrange(k as int, ads@.len() as int),
                    stride as int,
                    remaining as int,
                    start as int,
                    end as int,
                    pos as int,
                ),
            ) == total,
        decreases ads@.len() - k,
    {
        let ghost cur = ads@.subrange(k as int, ads@.len() as int);
        let ghost rest = ads@.subrange(k + stride, ads@.len() as int);
        assert(cur.subrange(stride as int, cur.len() as int) =~= rest);
        let raw: u32 = read_le_u32(ads, k);
        let block: u32 = read_le_u32(ads, k + 4);
        assert(le_u32(cur, 0) == raw && le_u32(cur, 4) == block);
        let kind: u32 = raw / 0x4000_0000;
        let length: u64 = (raw % 0x4000_0000) as u64;
        if length == 0 {
            assert(out@ + seq![] =~= out@);
            return Some(out);
        }
        let take: u64 = if length <= remaining {
            length
        } else {
            remaining
        };
        let ext_end: u64 = pos + take;
        let ov_start: u64 = if start >= pos {
            start
        } else {
            pos
        };
        let ov_end: u64 = if end <= ext_end {
            end
        } else {
            ext_end
        };
        let ghost before = out@;
        if ov_start < ov_end {
            let ov_len: usize = (ov_end - ov_start) as usize;
            if kind == 0 {
                let at: u64 = (part as u64 + block as u64) * 2048 + (ov_start - pos);
                match reader.read_at(at, ov_len) {
                    None => {
                        assert(!(old(reader).reads_succeed() && total is Some));
                        return None;
                    },
                    Some(b) => {
                        push_all(&mut out, &b);
                    },
                }
            } else if kind == 1 || kind == 2 {
                push_zeros(&mut out, ov_len);
            } else {
                assert(out@ + seq![] =~= out@);
                return Some(out);
            }
        } else if kind > 2 {
            assert(out@ + seq![] =~= out@);
            return Some(out);
        }
        proof {
            let t = range_extents_spec(img, part as int, rest, stride as int, remaining - take, start as int, end as int, ext_end as int);
            if let Some(tt) = t {
                assert(before + (out@.subrange(before.len() as int, out@.len() as int) + tt) =~= out@ + tt);
            }
        }
        remaining = remaining - take;
        pos = ext_end;
        k = k + stride;
    }
    assert(out@ + seq![] =~= out@);
    Some(out)
}

/// Reads the window `[start, start + len)` of the file whose File Entry is
/// at `block`.
fn read_file_data_range<R: ImageSource>(reader: &mut R, part: u32, block: u32, start: u64, len: u64) -> (r: Option<Vec<u8>>)
    ensures
        final(reader).image() == old(reader).image(),
        final(reader).reads_succeed() == old(reader).reads_succeed(),
        r matches Some(v) ==> file_range_spec(old(reader).image(), part as int, block as int, start, len)
            == Some(v@),
        old(reader).reads_succeed() && file_range_spec(old(reader).image(), part as int, block as int, start, len)
            is Some ==> r is Some,
{
    let (ad_type, ads, info) = match file_entry_ads(reader, part, block) {
        None => {
            return None;
        },
        Some(fe) => fe,
    };
    let l: u64 = if len <= MAX_FILE_BYTES {
        len
    } else {
        MAX_FILE_BYTES
    };
    let e: u64 = if start > u64::MAX - l {
        u64::MAX
    } else {
        start + l
    };
    let end: u64 = if e <= info {
        e
    } else {
        info
    };
    if start >= end {
        return Some(Vec::new());
    }
    if ad_type == 3 {
        let n = ads.len() as u64;
        let s: u64 = if start <= n {
            start
        } else {
            n
        };
        let e2: u64 = if end <= n {
            end
        } else {
            n
        };
        let v = crate::bytes::copy_bytes(&ads, s as usize, e2 as usize);
        Some(v)
    } else if ad_type == 0 {
        read_extents_range(reader, part, &ads, 8, info, start, end)
    } else if ad_type == 1 {
        read_extents_range(reader, part, &ads, 16, info, start, end)
    } else {
        None
    }
}

/// The directory entries in a File Identifier area from offset `p`: each
/// descriptor is tagged 257 and holds its characteristics at +18, the name
/// length at +19, the ICB at +20, the implementation-use length at +36 and
/// the name after that, padded to 4 bytes. Deleted entries and the parent
/// entry are skipped; a short, untagged or overrunning descriptor ends the
/// area.
pub open spec fn fid_entries(data: Seq<u8>, p: int) -> Seq<(Seq<char>, bool, ExtentRef)>
    decreases data.len() + 4 - p,
{
    if p < 0 || p + 38 > data.len() {
        seq![]
    } else if le_u16(data, p) != TAG_FID {
        seq![]
    } else {
        let chars = data[p + 18];
        let l_fi = data[p + 19] as int;
        let l_iu = le_u16(data, p + 36) as int;
        let fi_start = p + 38 + l_iu;
        let fi_end = fi_start + l_fi;
        if fi_end > data.len() {
            seq![]
        } else {
            let total = 38 + l_iu + l_fi;
            let padded = total + (4 - total % 4) % 4;
            let here = if chars & 4 == 0 && chars & 8 == 0 {
                seq![(udf_name_spec(data.subrange(fi_start, fi_end)), chars & 2 != 0, long_ad(data, p + 20))]
            } else {
                seq![]
            };
            proof {
                assert(38 <= padded <= total + 3) by (nonlinear_arith)
                    requires
                        total >= 38,
                        padded == total + (4 - total % 4) % 4,
                ;
            }
            here + fid_entries(data, p + padded)
        }
    }
}

/// The entries of a directory's File Identifier area.
fn parse_fids(data: &[u8]) -> (r: Vec<DirEntry>)
    ensures
        entries_view(r@) == fid_entries(data@, 0),
{
    let mut out: Vec<DirEntry> = Vec::new();
    let mut p: usize = 0;
    assert(entries_view(out@) + fid_entries(data@, 0) =~= fid_entries(data@, 0));
    while data.len() - p >= 38
        invariant
            p <= data@.len(),
            entries_view(out@) + fid_entries(data@, p as int) == fid_entries(data@, 0),
        decreases data@.len() - p,
    {
        if read_le_u16(data, p) != TAG_FID {
            assert(entries_view(out@) + seq![] =~= entries_view(out@));
            return out;
        }
        let chars: u8 = data[p + 18];
        let l_fi: usize = data[p + 19] as usize;
        let l_iu: usize = read_le_u16(data, p + 36) as usize;
        if data.len() - p - 38 < l_iu || data.len() - p - 38 - l_iu < l_fi {
            assert(entries_view(out@) + seq![] =~= entries_view(out@));
            return out;
        }
        let fi_start: usize = p + 38 + l_iu;
        let fi_end: usize = fi_start + l_fi;
        let total: usize = 38 + l_iu + l_fi;
        let padded: usize = total + (4 - total % 4) % 4;
        let ghost before = entries_view(out@);
        if chars & 4 == 0 && chars & 8 == 0 {
            let name = decode_udf_name(slice_subrange(data, fi_start, fi_end));
            let icb = read_long_ad(data, p + 20);
            let ghost old_out = out@;
            out.push(DirEntry { name, is_dir: chars & 2 != 0, icb });
            assert forall|j: int| 0 <= j < old_out.len() implies entries_view(out@)[j] == before[j] by {
                assert(out@[j] == old_out[j]);
            }
            assert(entries_view(out@) =~= before + seq![(udf_name_spec(data@.subrange(fi_start as int, fi_end as int)), chars & 2 != 0, long_ad(data@, p + 20))]);
        }
        if data.len() - p < padded {
            assert(fid_entries(data@, p + padded) =~= seq![]);
            assert(entries_view(out@) + seq![] =~= entries_view(out@));
            return out;
        }
        p = p + padded;
    }
    assert(entries_view(out@) + seq![] =~= entries_view(out@));
    out
}

/// The entries of the directory whose File Entry is at `block`.
pub open spec fn dir_spec(img: Seq<u8>, part: int, block: int) -> Option<Seq<(Seq<char>, bool, ExtentRef)>> {
    match file_data_spec(img, part, block, MAX_DIR_BYTES) {
        None => None,
        Some(data) => Some(fid_entries(data, 0)),
    }
}

/// The first entry named `name` (ignoring ASCII case) that is a directory
/// when `want_dir` holds and a file otherwise.
pub open spec fn find_child(
    children: Seq<(Seq<char>, bool, ExtentRef)>,
    name: Seq<char>,
    want_dir: bool,
) -> Option<(Seq<char>, bool, ExtentRef)>
    decreases children.len(),
{
    if children.len() == 0 {
        None
    } else if children[0].1 == want_dir && eq_ignore_case(children[0].0, name) {
        Some(children[0])
    } else {
        find_child(children.drop_first(), name, want_dir)
    }
}

/// The entries of the directory reached from the one at `block` through the
/// subdirectories named by `segs`.
pub open spec fn walk_spec(img: Seq<u8>, part: int, block: int, segs: Seq<Seq<char>>) -> Option<Seq<(Seq<char>, bool, ExtentRef)>>
    decreases segs.len(),
{
    match dir_spec(img, part, block) {
        None => None,
        Some(children) => if segs.len() == 0 {
            Some(children)
        } else {
            match find_child(children, segs[0], true) {
                None => None,
                Some(e) => walk_spec(img, part, e.2.block as int, segs.drop_first()),
            }
        },
    }
}

/// The characters of each path segment.
pub open spec fn seg_views(segs: Seq<&str>) -> Seq<Seq<char>> {
    Seq::new(segs.len(), |i: int| segs[i]@)
}

/// The listing of the directory at the path `segs` from the root.
pub open spec fn list_spec(img: Seq<u8>, segs: Seq<Seq<char>>) -> Option<Seq<(Seq<char>, bool, ExtentRef)>> {
    match open_spec(img) {
        None => None,
        Some(vol) => walk_spec(img, vol.0 as int, vol.1.block as int, segs),
    }
}

/// The entry of the file at the path `segs` (its last segment names the
/// file, the others the directories above it).
pub open spec fn file_entry_at(img: Seq<u8>, segs: Seq<Seq<char>>) -> Option<(Seq<char>, bool, ExtentRef)> {
    if segs.len() == 0 {
        None
    } else {
        match list_spec(img, segs.drop_last()) {
            None => None,
            Some(parent) => find_child(parent, segs.last(), false),
        }
    }
}

/// The contents of the file at the path `segs`.
pub open spec fn read_file_spec(img: Seq<u8>, segs: Seq<Seq<char>>) -> Option<Seq<u8>> {
    match file_entry_at(img, segs) {
        None => None,
        Some(e) => file_data_spec(img, open_spec(img).unwrap().0 as int, e.2.block as int, MAX_FILE_BYTES),
    }
}

/// The window `[start, start + len)` of the file at the path `segs`.
pub open spec fn read_file_range_spec(img: Seq<u8>, segs: Seq<Seq<char>>, start: u64, len: u64) -> Option<Seq<u8>> {
    match file_entry_at(img, segs) {
        None => None,
        Some(e) => file_range_spec(img, open_spec(img).unwrap().0 as int, e.2.block as int, start, len),
    }
}

/// The information length recorded in the File Entry at `block`.
pub open spec fn info_length_spec(img: Seq<u8>, part: int, block: int) -> Option<u64> {
    match sector_spec(img, part + block) {
        None => None,
        Some(buf) => if le_u16(buf, 0) == TAG_FILE_ENTRY || le_u16(buf, 0) == TAG_EXTENDED_FILE_ENTRY {
            Some(le_u64(buf, 56) as u64)
        } else {
            None
        },
    }
}

/// The information length of the file at the path `segs`.
pub open spec fn file_size_spec(img: Seq<u8>, segs: Seq<Seq<char>>) -> Option<u64> {
    match file_entry_at(img, segs) {
        None => None,
        Some(e) => info_length_spec(img, open_spec(img).unwrap().0 as int, e.2.block as int),
    }
}

/// Reads the information length recorded in the File Entry at `block`.
fn read_info_length<R: ImageSource>(reader: &mut R, part: u32, block: u32) -> (r: Option<u64>)
    ensures
        final(reader).image() == old(reader).image(),
        final(reader).reads_succeed() == old(reader).reads_succeed(),
        r matches Some(n) ==> info_length_spec(old(reader).image(), part as int, block as int) == Some(n),
        old(reader).reads_succeed() && info_length_spec(old(reader).image(), part as int, block as int) is Some
            ==> r is Some,
{
    let buf = match read_sector(reader, part as u64 + block as u64) {
        None => {
            return None;
        },
        Some(b) => b,
    };
    let tag = read_le_u16(&buf, 0);
    if tag == TAG_FILE_ENTRY || tag == TAG_EXTENDED_FILE_ENTRY {
        Some(read_le_u64(&buf, 56))
    } else {
        None
    }
}

/// The first entry of `children` named `name` (ignoring ASCII case) that is
/// a directory when `want_dir` holds and a file otherwise.
fn find_entry(children: Vec<DirEntry>, name: &str, want_dir: bool) -> (r: Option<DirEntry>)
    ensures
        match find_child(entries_view(children@), name@, want_dir) {
            Some(e) => r matches Some(x) && entry_view(x) == e,
            None => r is None,
        },
{
    let target = chars_of(name);
    let ghost all = entries_view(children@);
    let mut i: usize = 0;
    assert(all.subrange(0, all.len() as int) =~= all);
    while i < children.len()
        invariant
            i <= children@.len(),
            all == entries_view(children@),
            target@ == name@,
            find_child(all, name@, want_dir) == find_child(all.subrange(i as int, all.len() as int), name@, want_dir),
        decreases children@.len() - i,
    {
        let ghost cur = all.subrange(i as int, all.len() as int);
        assert(cur[0] == entry_view(children@[i as int]));
        let n = chars_of(children[i].name.as_str());
        if children[i].is_dir == want_dir && eq_ignore_ascii_case(&n, &target) {
            return Some(children[i].duplicate());
        }
        assert(cur.drop_first() =~= all.subrange(i + 1, all.len() as int));
        i = i + 1;
    }
    None
}

/// Top-level UDF filesystem handle.
pub struct UdfFs<R: ImageSource> {
    reader: R,
    /// Where the UDF partition begins, in sectors from the start of the image.
    partition_start: u32,
    /// The root directory's ICB, relative to the partition.
    root_icb: ExtentRef,
    /// Volume label from the Primary Volume Descriptor.
    label: String,
    /// Parsed directory listings, keyed by the directory ICB's start block.
    dir_cache: HashMap<u32, Vec<DirEntry>>,
}

impl<R: ImageSource> UdfFs<R> {
    /// The bytes of the image being read.
    pub closed spec fn image(&self) -> Seq<u8> {
        self.reader.image()
    }

    /// Every read of the image succeeds (see [`ImageSource::reads_succeed`]).
    pub closed spec fn reads_succeed(&self) -> bool {
        self.reader.reads_succeed()
    }

    /// The handle describes its image's volume, and every cached listing is
    /// the one on the image.
    pub closed spec fn wf(&self) -> bool {
        &&& open_spec(self.reader.image()) == Some((self.partition_start, self.root_icb, self.label@))
        &&& forall|b: u32| #[trigger]
            self.dir_cache@.contains_key(b) ==> dir_spec(
                self.reader.image(),
                self.partition_start as int,
                b as int,
            ) == Some(entries_view(self.dir_cache@[b]@))
    }

    /// Parse the volume descriptors and locate the root directory. Returns
    /// `None` if the image is not recognisable UDF (or a read fails).
    pub fn open(reader: R) -> (r: Option<Self>)
        ensures
            r matches Some(fs) ==> fs.wf() && fs.image() == reader.image() && fs.reads_succeed()
                == reader.reads_succeed(),
            open_spec(reader.image()) is None ==> r is None,
            reader.reads_succeed() && open_spec(reader.image()) is Some ==> r is Some,
    {
        let ghost img = reader.image();
        let ghost old_reads = reader.reads_succeed();
        let mut source = reader;
        let avdp = match read_sector(&mut source, 256) {
            None => {
                return None;
            },
            Some(b) => b,
        };
        if read_le_u16(&avdp, 0) != TAG_AVDP {
            return None;
        }
        let vds_len: u64 = read_le_u32(&avdp, 16) as u64;
        let vds_loc: u64 = read_le_u32(&avdp, 20) as u64;
        let n: u64 = (vds_len + 2047) / 2048;
        let mut part: Option<u32> = None;
        let mut label = String::new();
        let mut fsd: Option<ExtentRef> = None;
        let ghost total = vds_scan(img, vds_loc as int, 0, n as int, (None, seq![], None));
        let mut i: u64 = 0;
        let mut done = false;
        assert(open_spec(img) is Some ==> total is Some);
        while i < n && !done
            invariant
                i <= n <= 0x20_0000,
                vds_loc <= 0xFFFF_FFFF,
                source.image() == img,
                source.reads_succeed() == old_reads,
                img == reader.image(),
                old_reads == reader.reads_succeed(),
                open_spec(img) is Some ==> total is Some,
                !done ==> vds_scan(img, vds_loc as int, i as int, n as int, (part, label@, fsd)) == total,
                done ==> total == Some((part, label@, fsd)),
            decreases n - i + if done {
                0int
            } else {
                1int
            },
        {
            let buf = match read_sector(&mut source, vds_loc + i) {
                None => {
                    assert(!(old_reads && open_spec(img) is Some));
                    return None;
                },
                Some(b) => b,
            };
            let t = read_le_u16(&buf, 0);
            if t == TAG_TERMINATING {
                done = true;
            } else {
                if t == TAG_PVD {
                    label = read_dstring(slice_subrange(&buf, 24, 56));
                } else if t == TAG_PARTITION {
                    part = Some(read_le_u32(&buf, 188));
                } else if t == TAG_LVD {
                    fsd = Some(read_long_ad(&buf, 248));
                }
                i = i + 1;
            }
        }
        let p = match part {
            None => {
                return None;
            },
            Some(p) => p,
        };
        let f = match fsd {
            None => {
                return None;
            },
            Some(f) => f,
        };
        let fsd_buf = match read_sector(&mut source, p as u64 + f.block as u64) {
            None => {
                return None;
            },
            Some(b) => b,
        };
        if read_le_u16(&fsd_buf, 0) != TAG_FSD {
            return None;
        }
        let root = read_long_ad(&fsd_buf, 400);
        let fs = UdfFs { reader: source, partition_start: p, root_icb: root, label, dir_cache: HashMap::new() };
        Some(fs)
    }

    /// The volume label decoded from the Primary Volume Descriptor.
    pub fn label(&self) -> (r: &str)
        requires
            self.wf(),
        ensures
            open_spec(self.image()) matches Some(vol) && r@ == vol.2,
    {
        self.label.as_str()
    }

    /// Reads and parses the directory whose File Entry is at `icb`, through
    /// the cache.
    fn read_dir(&mut self, icb: ExtentRef) -> (r: Option<Vec<DirEntry>>)
        requires
            old(self).wf(),
        ensures
            final(self).wf(),
            final(self).image() == old(self).image(),
            final(self).reads_succeed() == old(self).reads_succeed(),
            r matches Some(v) ==> dir_spec(
                old(self).image(),
                open_spec(old(self).image()).unwrap().0 as int,
                icb.block as int,
            ) == Some(entries_view(v@)),
            old(self).reads_succeed() && dir_spec(
                old(self).image(),
                open_spec(old(self).image()).unwrap().0 as int,
                icb.block as int,
            ) is Some ==> r is Some,
    {
        broadcast use vstd::std_specs::hash::group_hash_axioms;

        match self.dir_cache.get(&icb.block) {
            Some(cached) => {
                return Some(duplicate_entries(cached));
            },
            None => {},
        }
        let data = match read_file_data(&mut self.reader, self.partition_start, icb.block, MAX_DIR_BYTES) {
            None => {
                return None;
            },
            Some(d) => d,
        };
        let out = parse_fids(&data);
        let copy = duplicate_entries(&out);
        self.dir_cache.insert(icb.block, copy);
        Some(out)
    }

    /// Walks into a path and lists the children of the resulting directory
    /// (or `None` if the path is not a directory or any segment is
    /// missing). Segment matching ignores ASCII case.
    pub fn list(&mut self, segments: &[&str]) -> (r: Option<Vec<DirEntry>>)
        requires
            old(self).wf(),
        ensures
            final(self).wf(),
            final(self).image() == old(self).image(),
            r matches Some(v) ==> list_spec(old(self).image(), seg_views(segments@)) == Some(
                entries_view(v@),
            ),
            list_spec(old(self).image(), seg_views(segments@)) is None ==> r is None,
            final(self).reads_succeed() == old(self).reads_succeed(),
            old(self).reads_succeed() && list_spec(old(self).image(), seg_views(segments@)) is Some ==> r is Some,
    {
        let ghost img = self.image();
        let ghost part = self.partition_start as int;
        let ghost segs = seg_views(segments@);
        let mut current = self.root_icb;
        let mut i: usize = 0;
        assert(segs.subrange(0, segs.len() as int) =~= segs);
        while i < segments.len()
            invariant
                i <= segments@.len(),
                self.wf(),
                self.image() == img,
                img == old(self).image(),
                self.reads_succeed() == old(self).reads_succeed(),
                segs == seg_views(segments@),
                open_spec(img) matches Some(vol) && vol.0 as int == part,
                list_spec(img, segs) == walk_spec(img, part, current.block as int, segs.subrange(i as int, segs.len() as int)),
            decreases segments@.len() - i,
        {
            let ghost rest = segs.subrange(i as int, segs.len() as int);
            let children = match self.read_dir(current) {
                None => {
                    return None;
                },
                Some(c) => c,
            };
            assert(rest[0] == segments@[i as int]@);
            let found = match find_entry(children, segments[i], true) {
                None => {
                    return None;
                },
                Some(e) => e,
            };
            assert(rest.drop_first() =~= segs.subrange(i + 1, segs.len() as int));
            current = found.icb;
            i = i + 1;
        }
        self.read_dir(current)
    }

    /// Finds the entry of the file at a path.
    fn find_file(&mut self, segments: &[&str]) -> (r: Option<DirEntry>)
        requires
            old(self).wf(),
        ensures
            final(self).wf(),
            final(self).image() == old(self).image(),
            r matches Some(e) ==> file_entry_at(old(self).image(), seg_views(segments@)) == Some(
                entry_view(e),
            ),
            final(self).reads_succeed() == old(self).reads_succeed(),
            old(self).reads_succeed() && file_entry_at(old(self).image(), seg_views(segments@)) is Some ==> r is Some,
    {
        if segments.len() == 0 {
            return None;
        }
        let n = segments.len() - 1;
        let dirs = slice_subrange(segments, 0, n);
        assert(seg_views(dirs@) =~= seg_views(segments@).drop_last());
        let parent = match self.list(dirs) {
            None => {
                return None;
            },
            Some(p) => p,
        };
        find_entry(parent, segments[n], false)
    }

    /// Read the full contents of the file at the path. Returns `None` if the
    /// file does not exist or is larger than [`MAX_FILE_BYTES`].
    pub fn read_file(&mut self, segments: &[&str]) -> (r: Option<Vec<u8>>)
        requires
            old(self).wf(),
        ensures
            final(self).wf(),
            final(self).image() == old(self).image(),
            r matches Some(v) ==> read_file_spec(old(self).image(), seg_views(segments@)) == Some(v@),
            read_file_spec(old(self).image(), seg_views(segments@)) is None ==> r is None,
            final(self).reads_succeed() == old(self).reads_succeed(),
            old(self).reads_succeed() && read_file_spec(old(self).image(), seg_views(segments@)) is Some ==> r is Some,
    {
        let e = match self.find_file(segments) {
            None => {
                return None;
            },
            Some(e) => e,
        };
        read_file_data(&mut self.reader, self.partition_start, e.icb.block, MAX_FILE_BYTES)
    }

    /// Read up to `len` bytes of a file starting at byte `start`, reading
    /// only the extents that overlap the requested window. Returns `None` if
    /// the file does not exist.
    pub fn read_file_range(&mut self, segments: &[&str], start: u64, len: u64) -> (r: Option<Vec<u8>>)
        requires
            old(self).wf(),
        ensures
            final(self).wf(),
            final(self).image() == old(self).image(),
            r matches Some(v) ==> read_file_range_spec(old(self).image(), seg_views(segments@), start, len)
                == Some(v@),
            read_file_range_spec(old(self).image(), seg_views(segments@), start, len) is None ==> r is None,
            final(self).reads_succeed() == old(self).reads_succeed(),
            old(self).reads_succeed() && read_file_range_spec(old(self).image(), seg_views(segments@), start, len)
                is Some ==> r is Some,
    {
        let e = match self.find_file(segments) {
            None => {
                return None;
            },
            Some(e) => e,
        };
        read_file_data_range(&mut self.reader, self.partition_start, e.icb.block, start, len)
    }

    /// Information length of the file at the path, from its File Entry
    /// alone (cheap even for a multi-gigabyte file).
    pub fn file_size(&mut self, segments: &[&str]) -> (r: Option<u64>)
        requires
            old(self).wf(),
        ensures
            final(self).wf(),
            final(self).image() == old(self).image(),
            r matches Some(n) ==> file_size_spec(old(self).image(), seg_views(segments@)) == Some(n),
            file_size_spec(old(self).image(), seg_views(segments@)) is None ==> r is None,
            final(self).reads_succeed() == old(self).reads_succeed(),
            old(self).reads_succeed() && file_size_spec(old(self).image(), seg_views(segments@)) is Some ==> r is Some,
    {
        let e = match self.find_file(segments) {
            None => {
                return None;
            },
            Some(e) => e,
        };
        read_info_length(&mut self.reader, self.partition_start, e.icb.block)
    }
}

/// `x` clamped into `0..=n`.
pub open spec fn clamp_to(x: int, n: int) -> int {
    if x < 0 {
        0
    } else if x > n {
        n
    } else {
        x
    }
}

/// The bytes of `d` in the window `[a, e)`, cut to `d`'s bounds.
pub open spec fn window(d: Seq<u8>, a: int, e: int) -> Seq<u8> {
    let lo = clamp_to(a, d.len() as int);
    let hi = clamp_to(e, d.len() as int);
    if lo < hi {
        d.subrange(lo, hi)
    } else {
        seq![]
    }
}

/// `start + min(len, MAX_FILE_BYTES)`, saturated at `u64::MAX`: the end of
/// the window a range read asks for.
pub open spec fn requested_end(start: u64, len: u64) -> int {
    let l = if len <= MAX_FILE_BYTES {
        len as int
    } else {
        MAX_FILE_BYTES as int
    };
    if start + l > u64::MAX {
        u64::MAX as int
    } else {
        start + l
    }
}

proof fn lemma_window_concat(b: Seq<u8>, d: Seq<u8>, a: int, e: int)
    ensures
        window(b + d, a, e) == window(b, a, e) + window(d, a - b.len(), e - b.len()),
{
    assert(window(b + d, a, e) =~= window(b, a, e) + window(d, a - b.len(), e - b.len()));
}

proof fn lemma_extents_len(img: Seq<u8>, part: int, ads: Seq<u8>, stride: int, remaining: int)
    requires
        extents_spec(img, part, ads, stride, remaining) is Some,
    ensures
        extents_spec(img, part, ads, stride, remaining).unwrap().len() <= if remaining > 0 {
            remaining
        } else {
            0
        },
    decreases ads.len(),
{
    if stride < 8 || ads.len() < stride || remaining <= 0 {
    } else {
        let raw = le_u32(ads, 0) as int;
        let length = extent_bytes(raw);
        let rest = ads.subrange(stride, ads.len() as int);
        if length != 0 {
            let take = if length <= remaining { length } else { remaining };
            let kind = extent_kind(raw);
            if kind == 0 || kind == 1 || kind == 2 {
                lemma_extents_len(img, part, rest, stride, remaining - take);
            }
        }
    }
}

proof fn lemma_range_extents(
    img: Seq<u8>,
    part: int,
    ads: Seq<u8>,
    stride: int,
    remaining: int,
    start: int,
    end: int,
    pos: int,
)
    requires
        extents_spec(img, part, ads, stride, remaining) is Some,
    ensures
        range_extents_spec(img, part, ads, stride, remaining, start, end, pos) == Some(
            window(extents_spec(img, part, ads, stride, remaining).unwrap(), start - pos, end - pos),
        ),
    decreases ads.len(),
{
    let d = extents_spec(img, part, ads, stride, remaining).unwrap();
    if stride < 8 || ads.len() < stride || remaining <= 0 {
        assert(window(d, start - pos, end - pos) =~= seq![]);
    } else if pos >= end {
        assert(window(d, start - pos, end - pos) =~= seq![]);
    } else {
        let raw = le_u32(ads, 0) as int;
        let length = extent_bytes(raw);
        let kind = extent_kind(raw);
        let rest = ads.subrange(stride, ads.len() as int);
        if length == 0 {
            assert(window(d, start - pos, end - pos) =~= seq![]);
        } else {
            let take = if length <= remaining { length } else { remaining };
            let ext_end = pos + take;
            if kind > 2 {
                assert(window(d, start - pos, end - pos) =~= seq![]);
            } else {
                let b = if kind == 0 {
                    bytes_at(img, (part + le_u32(ads, 4)) * 2048, take).unwrap()
                } else {
                    zeros(take)
                };
                let d2 = extents_spec(img, part, rest, stride, remaining - take).unwrap();
                assert(d == b + d2);
                lemma_range_extents(img, part, rest, stride, remaining - take, start, end, ext_end);
                lemma_window_concat(b, d2, start - pos, end - pos);
                assert(b.len() == take);
                let ov_start = if start >= pos { start } else { pos };
                let ov_end = if end <= ext_end { end } else { ext_end };
                if ov_start < ov_end {
                    if kind == 0 {
                        let base = (part + le_u32(ads, 4)) * 2048;
                        assert(bytes_at(img, base + (ov_start - pos), ov_end - ov_start).unwrap() =~= window(
                            b,
                            start - pos,
                            end - pos,
                        ));
                    } else {
                        assert(zeros(ov_end - ov_start) =~= window(b, start - pos, end - pos));
                    }
                } else {
                    assert(window(b, start - pos, end - pos) =~= seq![]);
                    assert(window(d, start - pos, end - pos) =~= window(d2, start - ext_end, end - ext_end));
                }
            }
        }
    }
}

/// The window `[start, end)` read from a File Entry is the matching slice of
/// the whole file's data, whenever the whole file can be read.
proof fn lemma_file_range_is_slice(img: Seq<u8>, part: int, block: int, start: u64, len: u64)
    requires
        file_data_spec(img, part, block, MAX_FILE_BYTES) is Some,
    ensures
        file_range_spec(img, part, block, start, len) == Some(
            window(file_data_spec(img, part, block, MAX_FILE_BYTES).unwrap(), start as int, requested_end(start, len)),
        ),
{
    let fe = file_entry_spec(img, part, block).unwrap();
    let (ad_type, ads, info) = fe;
    let d = file_data_spec(img, part, block, MAX_FILE_BYTES).unwrap();
    let end = window_end(start, len, info);
    assert(d.len() <= info) by {
        if ad_type == 0 {
            lemma_extents_len(img, part, ads, 8, info as int);
        } else if ad_type == 1 {
            lemma_extents_len(img, part, ads, 16, info as int);
        }
    }
    assert(window(d, start as int, requested_end(start, len)) =~= window(d, start as int, end));
    if start >= end {
        assert(window(d, start as int, end) =~= seq![]);
    } else if ad_type == 3 {
        assert(window(d, start as int, end) =~= ads.subrange(
            if start <= ads.len() { start as int } else { ads.len() as int },
            if end <= ads.len() { end } else { ads.len() as int },
        ));
    } else if ad_type == 0 {
        lemma_range_extents(img, part, ads, 8, info as int, start as int, end, 0);
    } else {
        lemma_range_extents(img, part, ads, 16, info as int, start as int, end, 0);
    }
}

/// A range read gives exactly the matching slice of the whole file: for a
/// file whose contents `d` can be read, the window `[start, start + len)`
/// (the length capped at [`MAX_FILE_BYTES`], the end saturated) is
/// `d[min(start, |d|) .. min(end, |d|)]`.
pub proof fn law_range_read_is_slice_of_file(img: Seq<u8>, segs: Seq<Seq<char>>, start: u64, len: u64)
    requires
        read_file_spec(img, segs) is Some,
    ensures
        read_file_range_spec(img, segs, start, len) == Some(
            window(read_file_spec(img, segs).unwrap(), start as int, requested_end(start, len)),
        ),
{
    let e = file_entry_at(img, segs).unwrap();
    lemma_file_range_is_slice(img, open_spec(img).unwrap().0 as int, e.2.block as int, start, len);
}

} // verus!
