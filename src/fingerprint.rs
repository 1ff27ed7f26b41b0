//! Content fingerprints: a SHA-256 digest of a file's bytes, folded chunk by
//! chunk and rendered as lowercase hexadecimal.
use sha2::Digest;
use vstd::prelude::*;
use vstd::slice::slice_subrange;

verus! {

/// Bytes handed to the hasher per update when fingerprinting a buffer.
pub const CHUNK_SIZE: usize = 8192;

/// A running SHA-256 computation: holds sha2's hasher opaquely, seen only
/// through `absorbed`.
#[verifier::external_body]
pub struct Sha256State {
    inner: sha2::Sha256,
}

/// The bytes a hasher has absorbed so far, in order.
pub uninterp spec fn absorbed(h: Sha256State) -> Seq<u8>;

/// The SHA-256 digest of a byte sequence.
pub uninterp spec fn sha256_of(data: Seq<u8>) -> Seq<u8>;

/// One lowercase hexadecimal digit for a value below sixteen.
pub open spec fn hex_digit(n: int) -> char {
    seq!['0', '1', '2', '3', '4', '5', '6', '7', '8', '9', 'a', 'b', 'c', 'd', 'e', 'f'][n]
}

/// Two lowercase hexadecimal digits per byte, high nibble first.
pub open spec fn lower_hex(bytes: Seq<u8>) -> Seq<char>
    decreases bytes.len(),
{
    if bytes.len() == 0 {
        Seq::empty()
    } else {
        seq![hex_digit(bytes[0] as int / 16), hex_digit(bytes[0] as int % 16)] + lower_hex(bytes.drop_first())
    }
}

/// The fingerprint of a file whose content is `content`.
pub open spec fn fingerprint_of(content: Seq<u8>) -> Seq<char> {
    lower_hex(sha256_of(content))
}

/// Relies on sha2's `Digest::new` for `Sha256`: a fresh hasher has absorbed nothing.
#[verifier::external_body]
fn hasher_new() -> (r: Sha256State)
    ensures
        absorbed(r) == Seq::<u8>::empty(),
{
    Sha256State { inner: sha2::Sha256::new() }
}

/// Relies on sha2's `Digest::update`: the chunk is appended to the data absorbed so far.
#[verifier::external_body]
fn hasher_update(h: &mut Sha256State, chunk: &[u8])
    ensures
        absorbed(*final(h)) == absorbed(*old(h)) + chunk@,
{
    h.inner.update(chunk)
}

/// Relies on sha2's `Digest::finalize`, a 32-byte SHA-256 digest of all absorbed
/// data, and on generic_array's `LowerHex`, two lowercase digits per byte.
#[verifier::external_body]
fn hasher_finalize_hex(h: Sha256State) -> (r: String)
    ensures
        r@ == lower_hex(sha256_of(absorbed(h))),
        r@.len() == 64,
{
    format!("{:x}", h.inner.finalize())
}

/// An incremental fingerprint computation: chunks are fed in order and the
/// result depends only on their concatenation.
pub struct Fingerprinter {
    hasher: Sha256State,
}

impl Fingerprinter {
    /// The bytes fed so far.
    pub closed spec fn fed(&self) -> Seq<u8> {
        absorbed(self.hasher)
    }

    pub fn new() -> (r: Fingerprinter)
        ensures
            r.fed() == Seq::<u8>::empty(),
    {
        Fingerprinter { hasher: hasher_new() }
    }

    pub fn update(&mut self, chunk: &[u8])
        ensures
            final(self).fed() == old(self).fed() + chunk@,
    {
        hasher_update(&mut self.hasher, chunk);
    }

    /// The lowercase-hex digest of everything fed.
    pub fn finish(self) -> (r: String)
        ensures
            r@ == fingerprint_of(self.fed()),
            r@.len() == 64,
    {
        hasher_finalize_hex(self.hasher)
    }
}

/// Fingerprints a buffer by feeding it in chunks of at most `CHUNK_SIZE` bytes.
pub fn fingerprint(content: &[u8]) -> (r: String)
    ensures
        r@ == fingerprint_of(content@),
        r@.len() == 64,
{
    let mut fp = Fingerprinter::new();
    let n = content.len();
    let mut i: usize = 0;
    while i < n
        invariant
            i <= n,
            n == content@.len(),
            fp.fed() == content@.subrange(0, i as int),
        decreases n - i,
    {
        let end: usize = if n - i > CHUNK_SIZE { i + CHUNK_SIZE } else { n };
        let chunk = slice_subrange(content, i, end);
        fp.update(chunk);
        assert(content@.subrange(0, i as int) + content@.subrange(i as int, end as int)
            =~= content@.subrange(0, end as int));
        i = end;
    }
    assert(content@.subrange(0, n as int) =~= content@);
    fp.finish()
}

/// Fingerprinting is deterministic: equal contents, wherever they were read
/// from, give equal fingerprints.
pub proof fn lemma_fingerprint_deterministic(a: Seq<u8>, b: Seq<u8>)
    requires
        a == b,
    ensures
        fingerprint_of(a) == fingerprint_of(b),
{
}

} // verus!
