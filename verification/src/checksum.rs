//! The SHA-256 check of a downloaded update: the file is hashed chunk by
//! chunk as it is read, and the digest is compared with the published
//! checksum.

use vstd::prelude::*;
use sha2::Digest;
use crate::mobile::update::{clean_checksum, digest_matches, lower_hex};

verus! {

/// A SHA-256 computation in progress (`sha2::Sha256`), seen as the bytes
/// fed to it so far.
#[verifier::external_body]
pub struct Sha256Stream {
    inner: sha2::Sha256,
}

/// The bytes fed to a SHA-256 computation so far.
pub uninterp spec fn sha256_fed(s: Sha256Stream) -> Seq<u8>;

/// The SHA-256 digest of a byte sequence.
pub uninterp spec fn sha256_of(data: Seq<u8>) -> Seq<u8>;

/// `sha2::Sha256::new()`: a computation that has been fed nothing.
#[verifier::external_body]
fn sha256_start() -> (s: Sha256Stream)
    ensures
        sha256_fed(s) == Seq::<u8>::empty(),
{
    Sha256Stream { inner: sha2::Sha256::new() }
}

/// `Digest::update`: feeds `chunk` after what was fed before.
#[verifier::external_body]
fn sha256_feed(s: &mut Sha256Stream, chunk: &[u8])
    ensures
        sha256_fed(*final(s)) == sha256_fed(*old(s)) + chunk@,
{
    s.inner.update(chunk);
}

/// `Digest::finalize`: the digest of everything fed, 32 bytes.
#[verifier::external_body]
fn sha256_finish(s: Sha256Stream) -> (d: Vec<u8>)
    ensures
        d@ == sha256_of(sha256_fed(s)),
        d@.len() == 32,
{
    s.inner.finalize().to_vec()
}

/// Starts hashing a download.
pub fn download_digest_start() -> (s: Sha256Stream)
    ensures
        sha256_fed(s) == Seq::<u8>::empty(),
{
    sha256_start()
}

/// Feeds the next chunk of the download.
pub fn download_digest_feed(s: &mut Sha256Stream, chunk: &[u8])
    ensures
        sha256_fed(*final(s)) == sha256_fed(*old(s)) + chunk@,
{
    sha256_feed(s, chunk);
}

/// Whether the download hashed in `s` passes the check against the
/// published checksum `expected`: with no usable checksum it does;
/// otherwise the digest's lower-case hexadecimal form must equal it.
pub fn download_digest_matches(s: Sha256Stream, expected: &str) -> (r: bool)
    ensures
        r == match clean_checksum(expected@) {
            None => true,
            Some(c) => lower_hex(sha256_of(sha256_fed(s))) == c,
        },
{
    let digest = sha256_finish(s);
    digest_matches(expected, &digest)
}

} // verus!
