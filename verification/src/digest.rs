//! Digests of byte messages (computed by the `md-5`, `sha1`, `sha2` and
//! `blake3` crates), and the fingerprints of cache entries built on SHA-256,
//! shown as hexadecimal.
use crate::windisco::{hex, hex_string};
use vstd::prelude::*;
use vstd::utf8::encode_utf8;

verus! {

/// The SHA-256 digest of `data`.
pub uninterp spec fn sha256(data: Seq<u8>) -> Seq<u8>;

/// `sha2::Sha256::digest`: the SHA-256 digest of `data`, which is 32 bytes
/// long. The digest itself is not restated here; it is named.
#[verifier::external_body]
pub(crate) fn sha256_digest(data: &[u8]) -> (r: Vec<u8>)
    ensures
        r@ == sha256(data@),
        r@.len() == 32,
{
    <sha2::Sha256 as sha2::Digest>::digest(data).to_vec()
}

/// The MD5 digest of `data`.
pub uninterp spec fn md5_hash(data: Seq<u8>) -> Seq<u8>;

/// `md5::Md5::digest`: the MD5 digest of `data`, 16 bytes long (named, not
/// restated).
#[verifier::external_body]
pub(crate) fn md5_digest(data: &[u8]) -> (r: Vec<u8>)
    ensures
        r@ == md5_hash(data@),
        r@.len() == 16,
{
    <::md5::Md5 as ::md5::Digest>::digest(data).to_vec()
}

/// The SHA-1 digest of `data`.
pub uninterp spec fn sha1_hash(data: Seq<u8>) -> Seq<u8>;

/// `sha1::Sha1::digest`: the SHA-1 digest of `data`, 20 bytes long (named,
/// not restated).
#[verifier::external_body]
pub(crate) fn sha1_digest(data: &[u8]) -> (r: Vec<u8>)
    ensures
        r@ == sha1_hash(data@),
        r@.len() == 20,
{
    <::sha1::Sha1 as ::sha1::Digest>::digest(data).to_vec()
}

/// The SHA-512 digest of `data`.
pub uninterp spec fn sha512_hash(data: Seq<u8>) -> Seq<u8>;

/// `sha2::Sha512::digest`: the SHA-512 digest of `data`, 64 bytes long
/// (named, not restated).
#[verifier::external_body]
pub(crate) fn sha512_digest(data: &[u8]) -> (r: Vec<u8>)
    ensures
        r@ == sha512_hash(data@),
        r@.len() == 64,
{
    <sha2::Sha512 as sha2::Digest>::digest(data).to_vec()
}

/// The BLAKE3 hash of `data` (32 bytes).
pub uninterp spec fn blake3_hash(data: Seq<u8>) -> Seq<u8>;

/// `blake3::hash`: the default-length BLAKE3 hash of `data`, 32 bytes long
/// (named, not restated).
#[verifier::external_body]
pub(crate) fn blake3_digest(data: &[u8]) -> (r: Vec<u8>)
    ensures
        r@ == blake3_hash(data@),
        r@.len() == 32,
{
    ::blake3::hash(data).as_bytes().to_vec()
}


/// The `k` low-order bytes of `n`, least significant first.
pub open spec fn le_bytes(n: nat, k: nat) -> Seq<u8>
    decreases k,
{
    if k == 0 {
        Seq::empty()
    } else {
        seq![(n % 256) as u8] + le_bytes(n / 256, (k - 1) as nat)
    }
}

/// `u64::to_le_bytes`.
pub fn u64_le_bytes(n: u64) -> (r: Vec<u8>)
    ensures
        r@ == le_bytes(n as nat, 8),
{
    let mut out: Vec<u8> = Vec::new();
    let mut x: u64 = n;
    let mut k: usize = 0;
    while k < 8
        invariant
            k <= 8,
            out@ + le_bytes(x as nat, (8 - k) as nat) == le_bytes(n as nat, 8),
        decreases 8 - k,
    {
        let ghost before = out@;
        out.push((x % 256) as u8);
        assert(le_bytes(x as nat, (8 - k) as nat) == seq![(x % 256) as u8] + le_bytes(
            (x / 256) as nat,
            (8 - k - 1) as nat,
        ));
        assert(out@ + le_bytes((x / 256) as nat, (8 - k - 1) as nat) =~= before + le_bytes(
            x as nat,
            (8 - k) as nat,
        ));
        x = x / 256;
        k += 1;
    }
    assert(le_bytes(x as nat, 0) =~= Seq::<u8>::empty());
    assert(out@ =~= le_bytes(n as nat, 8));
    out
}

/// The message a cache entry is named after: the source path's UTF-8 bytes,
/// a NUL, its size and modification time (little-endian), and a tag for the
/// kind of entry.
pub open spec fn cache_message(path: Seq<u8>, size: u64, mtime: u64, tag: Seq<u8>) -> Seq<u8> {
    path + seq![0u8] + le_bytes(size as nat, 8) + le_bytes(mtime as nat, 8) + tag
}

/// A cache entry's name: the first 16 bytes of the SHA-256 of its message,
/// in lower-case hex.
pub open spec fn cache_key_text(path: Seq<u8>, size: u64, mtime: u64, tag: Seq<u8>) -> Seq<char> {
    hex_string(sha256(cache_message(path, size, mtime, tag)).take(16))
}

fn push_all(out: &mut Vec<u8>, b: &[u8])
    ensures
        final(out)@ == old(out)@ + b@,
{
    let ghost a0 = out@;
    for i in 0..b.len()
        invariant
            out@ == a0 + b@.take(i as int),
    {
        out.push(b[i]);
        assert(out@ =~= a0 + b@.take(i + 1));
    }
    assert(b@.take(b.len() as int) =~= b@);
}

/// The first `n` bytes of the SHA-256 of a cache entry's message, in
/// lower-case hex.
fn key_prefix(path: &str, size: u64, mtime: u64, tag: &[u8], n: usize) -> (r: String)
    requires
        n <= 32,
    ensures
        r@ == hex_string(sha256(cache_message(encode_utf8(path@), size, mtime, tag@)).take(n as int)),
        r@.len() == 2 * n,
{
    let mut msg: Vec<u8> = Vec::new();
    push_all(&mut msg, path.as_bytes());
    msg.push(0u8);
    push_all(&mut msg, &u64_le_bytes(size));
    push_all(&mut msg, &u64_le_bytes(mtime));
    push_all(&mut msg, tag);
    assert(msg@ =~= cache_message(encode_utf8(path@), size, mtime, tag@));
    let d = sha256_digest(msg.as_slice());
    let mut first: Vec<u8> = Vec::new();
    let mut i: usize = 0;
    while i < n
        invariant
            i <= n <= 32,
            d@.len() == 32,
            first@ == d@.take(i as int),
        decreases n - i,
    {
        first.push(d[i]);
        assert(first@ =~= d@.take(i + 1));
        i += 1;
    }
    proof {
        lemma_hex_string_len(first@);
    }
    hex(first.as_slice())
}

/// The five digest states (MD5, SHA-1, SHA-256, SHA-512, BLAKE3) of a
/// stream hashed as it arrives. The hasher types of the `md-5`, `sha1` and
/// `sha2` crates are generic aliases that cannot be declared here, so the
/// states are held opaquely; [`absorbed`] names the bytes fed so far.
#[verifier::external_body]
pub struct StreamHashes {
    md5: ::md5::Md5,
    sha1: ::sha1::Sha1,
    sha256: sha2::Sha256,
    sha512: sha2::Sha512,
    blake3: ::blake3::Hasher,
}

/// The bytes fed to a [`StreamHashes`] so far, in order.
pub uninterp spec fn absorbed(h: StreamHashes) -> Seq<u8>;

impl StreamHashes {
    /// Fresh states (`Digest::new` of each hasher, `blake3::Hasher::new`):
    /// nothing fed yet.
    #[verifier::external_body]
    pub fn new() -> (r: StreamHashes)
        ensures
            absorbed(r) == Seq::<u8>::empty(),
    {
        StreamHashes {
            md5: <::md5::Md5 as ::md5::Digest>::new(),
            sha1: <::sha1::Sha1 as ::sha1::Digest>::new(),
            sha256: <sha2::Sha256 as sha2::Digest>::new(),
            sha512: <sha2::Sha512 as sha2::Digest>::new(),
            blake3: ::blake3::Hasher::new(),
        }
    }

    /// Feed `chunk` to every state (`Digest::update`,
    /// `blake3::Hasher::update`): the fed bytes gain it at their end.
    #[verifier::external_body]
    pub fn update(&mut self, chunk: &[u8])
        ensures
            absorbed(*final(self)) == absorbed(*old(self)) + chunk@,
    {
        ::md5::Digest::update(&mut self.md5, chunk);
        ::sha1::Digest::update(&mut self.sha1, chunk);
        sha2::Digest::update(&mut self.sha256, chunk);
        sha2::Digest::update(&mut self.sha512, chunk);
        self.blake3.update(chunk);
    }

    /// The five digests of the bytes fed (`Digest::finalize`,
    /// `blake3::Hasher::finalize`): a streamed hash is the hash of the
    /// whole of what was fed.
    #[verifier::external_body]
    fn finalize_all(self) -> (r: (Vec<u8>, Vec<u8>, Vec<u8>, Vec<u8>, Vec<u8>))
        ensures
            r.0@ == md5_hash(absorbed(self)),
            r.1@ == sha1_hash(absorbed(self)),
            r.2@ == sha256(absorbed(self)),
            r.3@ == sha512_hash(absorbed(self)),
            r.4@ == blake3_hash(absorbed(self)),
    {
        (
            ::md5::Digest::finalize(self.md5).to_vec(),
            ::sha1::Digest::finalize(self.sha1).to_vec(),
            sha2::Digest::finalize(self.sha256).to_vec(),
            sha2::Digest::finalize(self.sha512).to_vec(),
            self.blake3.finalize().as_bytes().to_vec(),
        )
    }

    /// The five digests of everything fed, each in lower-case hex.
    pub fn finish(self) -> (r: crate::controller::IsoHashes)
        ensures
            crate::iso::hashes_spec(absorbed(self)) == (r.md5@, r.sha1@, r.sha256@, r.sha512@, r.blake3@),
    {
        let (a, b, c, d, e) = self.finalize_all();
        crate::controller::IsoHashes {
            md5: hex(a.as_slice()),
            sha1: hex(b.as_slice()),
            sha256: hex(c.as_slice()),
            sha512: hex(d.as_slice()),
            blake3: hex(e.as_slice()),
        }
    }
}

/// Hex text is two digits per byte.
pub proof fn lemma_hex_string_len(b: Seq<u8>)
    ensures
        hex_string(b).len() == 2 * b.len(),
    decreases b.len(),
{
    if b.len() > 0 {
        lemma_hex_string_len(b.drop_last());
    }
}

/// The 32-hex-digit name of a cache entry for the source at `path` (its
/// canonical form, as text) with the given size and modification time.
pub fn cache_key(path: &str, size: u64, mtime: u64, tag: &[u8]) -> (r: String)
    ensures
        r@ == cache_key_text(encode_utf8(path@), size, mtime, tag@),
        r@.len() == 32,
{
    key_prefix(path, size, mtime, tag, 16)
}

/// A 16-hex-digit fingerprint: the first 8 bytes of the SHA-256 of the
/// entry's message, in lower-case hex.
pub open spec fn fingerprint_text(path: Seq<u8>, size: u64, mtime: u64, tag: Seq<u8>) -> Seq<char> {
    hex_string(sha256(cache_message(path, size, mtime, tag)).take(8))
}

/// The 16-hex-digit fingerprint of a source at `path` (its canonical form,
/// as text) with the given size and modification time.
pub fn fingerprint(path: &str, size: u64, mtime: u64, tag: &[u8]) -> (r: String)
    ensures
        r@ == fingerprint_text(encode_utf8(path@), size, mtime, tag@),
        r@.len() == 16,
{
    key_prefix(path, size, mtime, tag, 8)
}

} // verus!
