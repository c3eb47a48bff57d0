//! Content hashing for change detection and deduplication.
//!
//! Two files with byte-identical content hash identically regardless of
//! path or metadata; the tri-state comparison against a previously
//! stored hash is the single source of truth for "do we need to redo
//! expensive extraction".

use vstd::prelude::*;

use crate::error::HashError;

verus! {

/// What `blake3::hash` returns on a byte string. The digest is a pure
/// function of the bytes alone, so it carries a name rather than a
/// transcription of the algorithm.
pub uninterp spec fn blake3_of(b: Seq<u8>) -> Seq<u8>;

/// Relies on `blake3::hash`: the 32-byte digest of the input bytes,
/// depending on those bytes alone.
#[verifier::external_body]
pub fn hash_bytes(bytes: &[u8]) -> (r: Vec<u8>)
    ensures
        r@ == blake3_of(bytes@),
        r@.len() == 32,
{
    blake3::hash(bytes).as_bytes().to_vec()
}

/// A hash row for a media file, stored in the hashes side-table.
#[derive(Clone, Debug)]
pub struct MediaHash {
    /// The media file's identifier.
    pub media_id: u128,
    /// The media file's content hash.
    pub hash: Vec<u8>,
}

/// The mathematical shape of a [`MediaHash`] row.
pub struct MediaHashView {
    pub media_id: u128,
    pub hash: Seq<u8>,
}

impl View for MediaHash {
    type V = MediaHashView;

    open spec fn view(&self) -> MediaHashView {
        MediaHashView { media_id: self.media_id, hash: self.hash@ }
    }
}

impl MediaHash {
    /// Creates a new [`MediaHash`] from an identifier and the file's
    /// content; this computes the content's digest.
    pub fn new(media_id: u128, bytes: &[u8]) -> (r: MediaHash)
        ensures
            r@.media_id == media_id,
            r@.hash == blake3_of(bytes@),
    {
        MediaHash { media_id, hash: hash_bytes(bytes) }
    }

    /// Hashes a file's observed content. The content is what the caller
    /// read from the path: `None` means the read failed, which is the
    /// one way hashing can fail.
    pub fn hash_file(path: &String, content: &Option<Vec<u8>>) -> (r: Result<Vec<u8>, HashError>)
        ensures
            content matches Some(b) ==> r matches Ok(h) && h@ == blake3_of(b@),
            content is None ==> r is Err,
    {
        match content {
            Some(b) => Ok(hash_bytes(b.as_slice())),
            None => Err(
                HashError::FileReadFailure(
                    path.clone(),
                    String::from_str("could not read the file"),
                ),
            ),
        }
    }
}

/// Whether a media file's stored hash is up-to-date.
#[derive(Clone, Copy, Debug, Hash, PartialEq, Eq, Structural)]
pub enum HashUpToDate {
    UpToDate,
    Outdated,
    NotInDatabase,
}

/// The tri-state a stored hash and a freshly computed one classify to:
/// no stored row means the record is not in the database, a matching row
/// means it is up to date, a differing row means it is outdated.
pub open spec fn spec_classify(stored: Option<Seq<u8>>, fresh: Seq<u8>) -> HashUpToDate {
    match stored {
        None => HashUpToDate::NotInDatabase,
        Some(h) => if h == fresh {
            HashUpToDate::UpToDate
        } else {
            HashUpToDate::Outdated
        },
    }
}

/// Compares a freshly computed hash against a previously stored one.
pub fn classify_hash(stored: &Option<Vec<u8>>, fresh: &Vec<u8>) -> (r: HashUpToDate)
    ensures
        r == spec_classify(
            match stored {
                Some(h) => Some(h@),
                None => None,
            },
            fresh@,
        ),
{
    match stored {
        None => HashUpToDate::NotInDatabase,
        Some(h) => {
            if eq_hash(h, fresh) {
                HashUpToDate::UpToDate
            } else {
                HashUpToDate::Outdated
            }
        },
    }
}

/// Byte-for-byte equality of two hashes.
pub fn eq_hash(a: &Vec<u8>, b: &Vec<u8>) -> (r: bool)
    ensures
        r == (a@ == b@),
{
    if a.len() != b.len() {
        return false;
    }
    let n: usize = a.len();
    let mut i: usize = 0;
    while i < n
        invariant
            n == a@.len(),
            n == b@.len(),
            i <= n,
            forall|j: int| 0 <= j < i ==> a@[j] == b@[j],
        decreases n - i,
    {
        if a[i] != b[i] {
            return false;
        }
        i = i + 1;
    }
    proof {
        assert(a@ =~= b@);
    }
    true
}

} // verus!
