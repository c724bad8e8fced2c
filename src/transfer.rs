use vstd::prelude::*;

verus! {

#[verifier::external_type_specification]
#[verifier::external_body]
pub struct ExIoError(std::io::Error);

/// The SHA-256 digest of a byte sequence.
pub uninterp spec fn sha256_of(data: Seq<u8>) -> Seq<u8>;

/// What decoding one xz stream yields, `None` when the input is not a valid stream.
pub uninterp spec fn xz_decoded(data: Seq<u8>) -> Option<Seq<u8>>;

/// The xz stream the encoder writes for `data` at preset `level`.
pub uninterp spec fn xz_encoded(data: Seq<u8>, level: u32) -> Seq<u8>;

/// Relies on sha2's `Sha256::digest`: the 32-byte SHA-256 digest of the input.
#[verifier::external_body]
fn sha256_digest(data: &[u8]) -> (r: Vec<u8>)
    ensures
        r@ == sha256_of(data@),
        r@.len() == 32,
{
    <sha2::Sha256 as sha2::Digest>::digest(data).to_vec()
}

/// Relies on xz's `read::XzDecoder`, read to the end: decodes one xz stream.
#[verifier::external_body]
fn xz_decode(data: &[u8]) -> (r: Result<Vec<u8>, std::io::Error>)
    ensures
        r matches Ok(v) ==> xz_decoded(data@) == Some(v@),
        r is Err ==> xz_decoded(data@) is None,
{
    let mut out = Vec::new();
    std::io::Read::read_to_end(&mut xz::read::XzDecoder::new(data), &mut out)?;
    Ok(out)
}

/// Relies on xz's `write::XzEncoder` at the given preset, writing to memory:
/// it succeeds, and its output is one xz stream that decodes back to the input.
#[verifier::external_body]
fn xz_encode(data: &[u8], level: u32) -> (r: Result<Vec<u8>, std::io::Error>)
    requires
        level <= 9,
    ensures
        r is Ok,
        r matches Ok(v) ==> v@ == xz_encoded(data@, level),
        r matches Ok(v) ==> xz_decoded(v@) == Some(data@),
{
    let mut enc = xz::write::XzEncoder::new(Vec::new(), level);
    std::io::Write::write_all(&mut enc, data)?;
    enc.finish()
}

/// The compression preset used for uploads.
pub const COMPRESSION_LEVEL: u32 = 6;

pub open spec fn hex_digit(n: int) -> char {
    "0123456789abcdef"@[n]
}

/// Lower-case hexadecimal, two digits per byte, high nibble first.
pub open spec fn hex_of(b: Seq<u8>) -> Seq<char>
    decreases b.len(),
{
    if b.len() == 0 {
        Seq::empty()
    } else {
        let last = b.last() as int;
        hex_of(b.drop_last()) + seq![hex_digit(last / 16), hex_digit(last % 16)]
    }
}

/// Lower-case hexadecimal text of `b`.
pub fn to_hex(b: &[u8]) -> (r: String)
    ensures
        r@ == hex_of(b@),
{
    let digits = "0123456789abcdef";
    proof {
        reveal_strlit("0123456789abcdef");
    }
    let mut out = String::new();
    let mut i: usize = 0;
    while i < b.len()
        invariant
            i <= b@.len(),
            digits@ == "0123456789abcdef"@,
            digits@.len() == 16,
            out@ == hex_of(b@.subrange(0, i as int)),
        decreases b@.len() - i,
    {
        let hi = (b[i] / 16) as usize;
        let lo = (b[i] % 16) as usize;
        out.append(digits.substring_char(hi, hi + 1));
        out.append(digits.substring_char(lo, lo + 1));
        proof {
            let s = b@.subrange(0, i as int + 1);
            assert(s.drop_last() =~= b@.subrange(0, i as int));
            assert(s.last() == b@[i as int]);
            assert(digits@.subrange(hi as int, hi + 1) =~= seq![hex_digit(hi as int)]);
            assert(digits@.subrange(lo as int, lo + 1) =~= seq![hex_digit(lo as int)]);
            assert(out@ =~= hex_of(s));
        }
        i = i + 1;
    }
    proof {
        assert(b@.subrange(0, b@.len() as int) =~= b@);
    }
    out
}

proof fn lemma_hex_len(b: Seq<u8>)
    ensures
        hex_of(b).len() == 2 * b.len(),
    decreases b.len(),
{
    if b.len() > 0 {
        lemma_hex_len(b.drop_last());
    }
}

/// Hex-encoded SHA-256 digest of `data`: 64 lower-case hex digits.
pub fn sha256(data: &[u8]) -> (r: String)
    ensures
        r@ == hex_of(sha256_of(data@)),
        r@.len() == 64,
{
    let d = sha256_digest(data);
    proof {
        lemma_hex_len(d@);
    }
    to_hex(d.as_slice())
}

/// A downloaded archive, ready to unpack.
#[derive(Debug)]
pub struct FetchedArchive {
    /// Hex SHA-256 of the bytes as downloaded.
    pub hash: String,
    /// The decompressed tar stream.
    pub tar: Vec<u8>,
}

/// Why an archive could not be prepared.
#[derive(Debug)]
pub enum TransferError {
    /// The download is not a valid xz stream.
    Decompress(std::io::Error),
}

/// Fingerprints the downloaded bytes, then decompresses them.
pub fn prepare_archive(body: &[u8]) -> (r: Result<FetchedArchive, TransferError>)
    ensures
        r is Ok <==> xz_decoded(body@) is Some,
        r matches Ok(a) ==> a.hash@ == hex_of(sha256_of(body@)) && Some(a.tar@) == xz_decoded(
            body@,
        ),
{
    let hash = sha256(body);
    match xz_decode(body) {
        Ok(tar) => Ok(FetchedArchive { hash, tar }),
        Err(e) => Err(TransferError::Decompress(e)),
    }
}

/// Compresses a tar stream for upload, at the fixed preset.
pub fn compress_tar(tar: &[u8]) -> (r: Result<Vec<u8>, std::io::Error>)
    ensures
        r matches Ok(v) && v@ == xz_encoded(tar@, 6) && xz_decoded(v@) == Some(tar@),
{
    xz_encode(tar, COMPRESSION_LEVEL)
}

/// `s` without the separators it starts with.
pub open spec fn trim_leading_slashes(s: Seq<char>) -> Seq<char>
    decreases s.len(),
{
    if s.len() > 0 && s[0] == '/' {
        trim_leading_slashes(s.subrange(1, s.len() as int))
    } else {
        s
    }
}

/// Where an entry lands relative to the destination once `prefix` is stripped
/// by whole path components, with every separator after it dropped; `None`
/// when the entry is not under the prefix.
pub open spec fn strip_entry_prefix(path: Seq<char>, prefix: Seq<char>) -> Option<Seq<char>> {
    if prefix.len() <= path.len() && path.subrange(0, prefix.len() as int) == prefix {
        let rest = path.subrange(prefix.len() as int, path.len() as int);
        if rest.len() == 0 || rest[0] == '/' || prefix.len() == 0 || prefix.last() == '/' {
            Some(trim_leading_slashes(rest))
        } else {
            None
        }
    } else {
        None
    }
}

/// What to do with one archive entry.
#[derive(Debug, PartialEq, Eq)]
pub enum EntryTarget {
    /// The entry is the prefix itself: nothing to write.
    Skip,
    /// Write the entry at this path relative to the destination.
    Write(String),
}

fn starts_with(s: &str, p: &str) -> (r: bool)
    ensures
        r == (p@.len() <= s@.len() && s@.subrange(0, p@.len() as int) == p@),
{
    let n = s.unicode_len();
    let m = p.unicode_len();
    if m > n {
        return false;
    }
    let mut i: usize = 0;
    while i < m
        invariant
            i <= m,
            m <= n,
            n == s@.len(),
            m == p@.len(),
            forall|j: int| 0 <= j < i ==> s@[j] == p@[j],
        decreases m - i,
    {
        if s.get_char(i) != p.get_char(i) {
            proof {
                assert(s@.subrange(0, m as int)[i as int] != p@[i as int]);
            }
            return false;
        }
        i = i + 1;
    }
    proof {
        assert(s@.subrange(0, m as int) =~= p@);
    }
    true
}

/// Places an entry of an archive extracted under `prefix`.
pub fn entry_target(path: &str, prefix: &str) -> (r: Option<EntryTarget>)
    ensures
        match strip_entry_prefix(path@, prefix@) {
            None => r is None,
            Some(rel) => if rel.len() == 0 {
                r == Some(EntryTarget::Skip)
            } else {
                r matches Some(EntryTarget::Write(w)) && w@ == rel
            },
        },
{
    if !starts_with(path, prefix) {
        return None;
    }
    let n = path.unicode_len();
    let m = prefix.unicode_len();
    if !(m == n || path.get_char(m) == '/' || m == 0 || prefix.get_char(m - 1) == '/') {
        return None;
    }
    let mut j: usize = m;
    while j < n && path.get_char(j) == '/'
        invariant
            m <= j <= n,
            n == path@.len(),
            trim_leading_slashes(path@.subrange(j as int, n as int)) == trim_leading_slashes(
                path@.subrange(m as int, n as int),
            ),
        decreases n - j,
    {
        proof {
            let s = path@.subrange(j as int, n as int);
            assert(s.subrange(1, s.len() as int) =~= path@.subrange(j + 1, n as int));
        }
        j = j + 1;
    }
    let rel = path.substring_char(j, n);
    proof {
        let s = path@.subrange(j as int, n as int);
        assert(s.len() == 0 || s[0] != '/');
        assert(trim_leading_slashes(s) == s);
    }
    if rel.unicode_len() == 0 {
        Some(EntryTarget::Skip)
    } else {
        Some(EntryTarget::Write(String::from_str(rel)))
    }
}

/// Extracting under the name of the archive's top-level directory: the
/// directory's own entry (with or without its trailing slash) is skipped, and
/// every entry below it lands at its path with the directory stripped.
pub proof fn top_directory_is_stripped(dir: Seq<char>, rest: Seq<char>)
    requires
        dir.len() > 0,
        dir.last() != '/',
    ensures
        strip_entry_prefix(dir, dir) == Some(Seq::<char>::empty()),
        strip_entry_prefix(dir.push('/'), dir) == Some(Seq::<char>::empty()),
        strip_entry_prefix(dir.push('/') + rest, dir) == Some(trim_leading_slashes(rest)),
{
    let p = dir.push('/') + rest;
    assert(dir.subrange(0, dir.len() as int) =~= dir);
    assert(dir.push('/').subrange(0, dir.len() as int) =~= dir);
    assert(p.subrange(0, dir.len() as int) =~= dir);
    let r0 = dir.subrange(dir.len() as int, dir.len() as int);
    assert(trim_leading_slashes(r0) == r0);
    assert(r0 =~= Seq::<char>::empty());
    let r1 = dir.push('/').subrange(dir.len() as int, dir.len() + 1 as int);
    assert(r1.subrange(1, r1.len() as int) =~= Seq::<char>::empty());
    assert(trim_leading_slashes(r1.subrange(1, r1.len() as int)) =~= Seq::<char>::empty());
    let r2 = p.subrange(dir.len() as int, p.len() as int);
    assert(r2[0] == '/');
    assert(r2.subrange(1, r2.len() as int) =~= rest);
}

} // verus!
