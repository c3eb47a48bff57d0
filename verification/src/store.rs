//! The cache of media records and their content hashes.
//!
//! This is the library's model of the persistent store it is paired
//! with: one table of media records keyed by `id` with lookup by `path`,
//! and one side-table of content hashes keyed by `media_id`. All
//! mutation goes through upsert-by-primary-key, so at most one record
//! per `id` and one hash row per `media_id` ever exist.

use vstd::prelude::*;

use crate::hash::{MediaHash, MediaHashView};
use crate::media::{Media, MediaView};

verus! {

/// The cache: media records plus the hash side-table.
#[derive(Debug)]
pub struct CacheStore {
    media: Vec<Media>,
    hashes: Vec<MediaHash>,
}

/// The mathematical shape of a [`CacheStore`].
pub struct StoreView {
    pub media: Seq<MediaView>,
    pub hashes: Seq<MediaHashView>,
}

impl View for CacheStore {
    type V = StoreView;

    closed spec fn view(&self) -> StoreView {
        StoreView {
            media: self.media@.map_values(|m: Media| m@),
            hashes: self.hashes@.map_values(|h: MediaHash| h@),
        }
    }
}

/// No two records share an identifier.
pub open spec fn spec_ids_unique(s: Seq<MediaView>) -> bool {
    forall|i: int, j: int| 0 <= i < j < s.len() ==> s[i].id != s[j].id
}

/// No two hash rows share a media identifier.
pub open spec fn spec_hash_ids_unique(s: Seq<MediaHashView>) -> bool {
    forall|i: int, j: int| 0 <= i < j < s.len() ==> s[i].media_id != s[j].media_id
}

/// The first record stored under a path, if any.
pub open spec fn spec_find_by_path(s: Seq<MediaView>, p: Seq<char>) -> Option<MediaView>
    decreases s.len(),
{
    if s.len() == 0 {
        None
    } else if s[0].path == p {
        Some(s[0])
    } else {
        spec_find_by_path(s.drop_first(), p)
    }
}

/// The record stored under an identifier, if any.
pub open spec fn spec_find_by_id(s: Seq<MediaView>, id: u128) -> Option<MediaView>
    decreases s.len(),
{
    if s.len() == 0 {
        None
    } else if s[0].id == id {
        Some(s[0])
    } else {
        spec_find_by_id(s.drop_first(), id)
    }
}

/// The stored content hash of a record, if any.
pub open spec fn spec_find_hash(s: Seq<MediaHashView>, media_id: u128) -> Option<Seq<u8>>
    decreases s.len(),
{
    if s.len() == 0 {
        None
    } else if s[0].media_id == media_id {
        Some(s[0].hash)
    } else {
        spec_find_hash(s.drop_first(), media_id)
    }
}

/// The identifier of the first hash row holding a digest, if any.
pub open spec fn spec_find_id_by_hash(s: Seq<MediaHashView>, h: Seq<u8>) -> Option<u128>
    decreases s.len(),
{
    if s.len() == 0 {
        None
    } else if s[0].hash == h {
        Some(s[0].media_id)
    } else {
        spec_find_id_by_hash(s.drop_first(), h)
    }
}

/// The record whose stored content hash equals a digest: the hash row
/// names an identifier, and the identifier names a record.
pub open spec fn spec_find_by_hash(v: StoreView, h: Seq<u8>) -> Option<MediaView> {
    match spec_find_id_by_hash(v.hashes, h) {
        None => None,
        Some(id) => spec_find_by_id(v.media, id),
    }
}

/// The record an upsert writes when a stored record already carries the
/// identifier: every field of the incoming record wins, except that the
/// stored `first_seen_date` is kept — it is immutable once set.
pub open spec fn spec_merge_record(stored: MediaView, m: MediaView) -> MediaView {
    MediaView { first_seen_date: stored.first_seen_date, ..m }
}

/// What an upsert does to the media table: the first record carrying the
/// identifier is replaced (keeping its `first_seen_date`); a missing
/// identifier appends the record.
pub open spec fn spec_upsert_media(s: Seq<MediaView>, m: MediaView) -> Seq<MediaView>
    decreases s.len(),
{
    if s.len() == 0 {
        seq![m]
    } else if s[0].id == m.id {
        seq![spec_merge_record(s[0], m)] + s.drop_first()
    } else {
        seq![s[0]] + spec_upsert_media(s.drop_first(), m)
    }
}

/// What an upsert does to the hash table: the row carrying the media
/// identifier is replaced; a missing identifier appends the row.
pub open spec fn spec_upsert_hash(s: Seq<MediaHashView>, h: MediaHashView) -> Seq<MediaHashView>
    decreases s.len(),
{
    if s.len() == 0 {
        seq![h]
    } else if s[0].media_id == h.media_id {
        seq![h] + s.drop_first()
    } else {
        seq![s[0]] + spec_upsert_hash(s.drop_first(), h)
    }
}

impl CacheStore {
    /// Both tables keyed consistently: no duplicate identifiers.
    pub open spec fn inv(self) -> bool {
        spec_ids_unique(self@.media) && spec_hash_ids_unique(self@.hashes)
    }

    /// An empty cache.
    pub fn new() -> (r: CacheStore)
        ensures
            r@.media == Seq::<MediaView>::empty(),
            r@.hashes == Seq::<MediaHashView>::empty(),
            r.inv(),
    {
        let r = CacheStore { media: Vec::new(), hashes: Vec::new() };
        proof {
            assert(r@.media =~= Seq::<MediaView>::empty());
            assert(r@.hashes =~= Seq::<MediaHashView>::empty());
        }
        r
    }

    /// How many media records the cache holds.
    pub fn media_count(&self) -> (r: usize)
        ensures
            r == self@.media.len(),
    {
        self.media.len()
    }

    /// How many hash rows the cache holds.
    pub fn hash_count(&self) -> (r: usize)
        ensures
            r == self@.hashes.len(),
    {
        self.hashes.len()
    }

    /// Looks a record up by exact path match.
    pub fn get_by_path(&self, path: &String) -> (r: Option<Media>)
        ensures
            r is Some <==> spec_find_by_path(self@.media, path@) is Some,
            r matches Some(m) ==> Some(m@) == spec_find_by_path(self@.media, path@),
    {
        let n: usize = self.media.len();
        let mut i: usize = 0;
        proof {
            assert(self@.media.skip(0) =~= self@.media);
        }
        while i < n
            invariant
                n == self.media.len(),
                self@.media.len() == n,
                i <= n,
                forall|j: int| 0 <= j < i ==> self@.media[j].path != path@,
                spec_find_by_path(self@.media, path@) == spec_find_by_path(
                    self@.media.skip(i as int),
                    path@,
                ),
            decreases n - i,
        {
            proof {
                assert(self@.media[i as int] == self.media@[i as int]@);
                lemma_find_by_path_skip(self@.media, path@, i as int);
            }
            if self.media[i].path == *path {
                return Some(self.media[i].clone_record());
            }
            i = i + 1;
        }
        proof {
            assert(self@.media.skip(n as int) =~= Seq::<MediaView>::empty());
        }
        None
    }

    /// Looks a record up by identifier.
    pub fn get_by_id(&self, id: u128) -> (r: Option<Media>)
        ensures
            r is Some <==> spec_find_by_id(self@.media, id) is Some,
            r matches Some(m) ==> Some(m@) == spec_find_by_id(self@.media, id),
    {
        let n: usize = self.media.len();
        let mut i: usize = 0;
        proof {
            assert(self@.media.skip(0) =~= self@.media);
        }
        while i < n
            invariant
                n == self.media.len(),
                self@.media.len() == n,
                i <= n,
                spec_find_by_id(self@.media, id) == spec_find_by_id(
                    self@.media.skip(i as int),
                    id,
                ),
            decreases n - i,
        {
            proof {
                assert(self@.media[i as int] == self.media@[i as int]@);
                lemma_find_by_id_skip(self@.media, id, i as int);
            }
            if self.media[i].id == id {
                return Some(self.media[i].clone_record());
            }
            i = i + 1;
        }
        proof {
            assert(self@.media.skip(n as int) =~= Seq::<MediaView>::empty());
        }
        None
    }

    /// Looks the stored content hash of a record up.
    pub fn get_hash(&self, media_id: u128) -> (r: Option<Vec<u8>>)
        ensures
            r is Some <==> spec_find_hash(self@.hashes, media_id) is Some,
            r matches Some(h) ==> Some(h@) == spec_find_hash(self@.hashes, media_id),
    {
        let n: usize = self.hashes.len();
        let mut i: usize = 0;
        proof {
            assert(self@.hashes.skip(0) =~= self@.hashes);
        }
        while i < n
            invariant
                n == self.hashes.len(),
                self@.hashes.len() == n,
                i <= n,
                spec_find_hash(self@.hashes, media_id) == spec_find_hash(
                    self@.hashes.skip(i as int),
                    media_id,
                ),
            decreases n - i,
        {
            proof {
                assert(self@.hashes[i as int] == self.hashes@[i as int]@);
                lemma_find_hash_skip(self@.hashes, media_id, i as int);
            }
            if self.hashes[i].media_id == media_id {
                return Some(vstd::slice::slice_to_vec(self.hashes[i].hash.as_slice()));
            }
            i = i + 1;
        }
        proof {
            assert(self@.hashes.skip(n as int) =~= Seq::<MediaHashView>::empty());
        }
        None
    }

    /// Looks a record up by content hash: duplicate content stored under
    /// some other identity.
    pub fn get_by_hash(&self, h: &Vec<u8>) -> (r: Option<Media>)
        ensures
            r is Some <==> spec_find_by_hash(self@, h@) is Some,
            r matches Some(m) ==> Some(m@) == spec_find_by_hash(self@, h@),
    {
        let n: usize = self.hashes.len();
        let mut i: usize = 0;
        proof {
            assert(self@.hashes.skip(0) =~= self@.hashes);
        }
        while i < n
            invariant
                n == self.hashes.len(),
                self@.hashes.len() == n,
                i <= n,
                spec_find_id_by_hash(self@.hashes, h@) == spec_find_id_by_hash(
                    self@.hashes.skip(i as int),
                    h@,
                ),
            decreases n - i,
        {
            proof {
                assert(self@.hashes[i as int] == self.hashes@[i as int]@);
                lemma_find_id_by_hash_skip(self@.hashes, h@, i as int);
            }
            if crate::hash::eq_hash(&self.hashes[i].hash, h) {
                return self.get_by_id(self.hashes[i].media_id);
            }
            i = i + 1;
        }
        proof {
            assert(self@.hashes.skip(n as int) =~= Seq::<MediaHashView>::empty());
        }
        None
    }

    /// Upserts a media record by `id`: a stored record with the same
    /// identifier is overwritten field by field, except that its
    /// `first_seen_date` is kept; otherwise the record is appended.
    pub fn upsert_media(&mut self, m: Media)
        requires
            old(self).inv(),
        ensures
            final(self).inv(),
            final(self)@.media == spec_upsert_media(old(self)@.media, m@),
            final(self)@.hashes == old(self)@.hashes,
    {
        let ghost orig = self@.media;
        let n: usize = self.media.len();
        let mut i: usize = 0;
        while i < n
            invariant
                n == self.media.len(),
                orig == old(self)@.media,
                self@.media == orig,
                self@.hashes == old(self)@.hashes,
                old(self).inv(),
                i <= n,
                forall|j: int| 0 <= j < i ==> orig[j].id != m@.id,
            decreases n - i,
        {
            proof {
                assert(orig[i as int] == self.media@[i as int]@);
            }
            if self.media[i].id == m.id {
                let ghost pre = self.media@;
                let stored_first_seen: i64 = self.media[i].first_seen_date;
                let mut merged = m;
                merged.first_seen_date = stored_first_seen;
                self.media.set(i, merged);
                proof {
                    lemma_upsert_media_found(orig, m@, i as int);
                    assert forall|j: int| 0 <= j < self@.media.len() implies self@.media[j]
                        == orig.update(i as int, spec_merge_record(orig[i as int], m@))[j] by {
                        assert(self@.media[j] == self.media@[j]@);
                        if j != i {
                            assert(self.media@[j] == pre[j]);
                        }
                    }
                    assert(self@.media =~= orig.update(
                        i as int,
                        spec_merge_record(orig[i as int], m@),
                    ));
                    lemma_unique_after_update(
                        orig,
                        spec_merge_record(orig[i as int], m@),
                        i as int,
                    );
                }
                return ;
            }
            i = i + 1;
        }
        self.media.push(m);
        proof {
            lemma_upsert_media_missing(orig, m@);
            assert(self@.media =~= orig + seq![m@]);
            assert(spec_ids_unique(self@.media));
        }
    }

    /// Upserts a hash row by `media_id`: a stored row with the same
    /// identifier is replaced; otherwise the row is appended. Rows are
    /// replaced, never accumulated: at most one per identifier.
    pub fn upsert_hash(&mut self, h: MediaHash)
        requires
            old(self).inv(),
        ensures
            final(self).inv(),
            final(self)@.hashes == spec_upsert_hash(old(self)@.hashes, h@),
            final(self)@.media == old(self)@.media,
    {
        let ghost orig = self@.hashes;
        let n: usize = self.hashes.len();
        let mut i: usize = 0;
        while i < n
            invariant
                n == self.hashes.len(),
                orig == old(self)@.hashes,
                self@.hashes == orig,
                self@.media == old(self)@.media,
                old(self).inv(),
                i <= n,
                forall|j: int| 0 <= j < i ==> orig[j].media_id != h@.media_id,
            decreases n - i,
        {
            proof {
                assert(orig[i as int] == self.hashes@[i as int]@);
            }
            if self.hashes[i].media_id == h.media_id {
                let ghost pre = self.hashes@;
                self.hashes.set(i, h);
                proof {
                    lemma_upsert_hash_found(orig, h@, i as int);
                    assert forall|j: int| 0 <= j < self@.hashes.len() implies self@.hashes[j]
                        == orig.update(i as int, h@)[j] by {
                        assert(self@.hashes[j] == self.hashes@[j]@);
                        if j != i {
                            assert(self.hashes@[j] == pre[j]);
                        }
                    }
                    assert(self@.hashes =~= orig.update(i as int, h@));
                    lemma_hash_unique_after_update(orig, h@, i as int);
                }
                return ;
            }
            i = i + 1;
        }
        self.hashes.push(h);
        proof {
            lemma_upsert_hash_missing(orig, h@);
            assert(self@.hashes =~= orig + seq![h@]);
            assert(spec_hash_ids_unique(self@.hashes));
        }
    }
}

/// Skipping past a non-matching head leaves a path lookup unchanged.
proof fn lemma_find_by_path_skip(s: Seq<MediaView>, p: Seq<char>, i: int)
    requires
        0 <= i < s.len(),
    ensures
        spec_find_by_path(s.skip(i), p) == if s[i].path == p {
            Some(s[i])
        } else {
            spec_find_by_path(s.skip(i + 1), p)
        },
{
    assert(s.skip(i).drop_first() =~= s.skip(i + 1));
    assert(s.skip(i)[0] == s[i]);
}

/// Skipping past a non-matching head leaves an id lookup unchanged.
proof fn lemma_find_by_id_skip(s: Seq<MediaView>, id: u128, i: int)
    requires
        0 <= i < s.len(),
    ensures
        spec_find_by_id(s.skip(i), id) == if s[i].id == id {
            Some(s[i])
        } else {
            spec_find_by_id(s.skip(i + 1), id)
        },
{
    assert(s.skip(i).drop_first() =~= s.skip(i + 1));
    assert(s.skip(i)[0] == s[i]);
}

/// Skipping past a non-matching head leaves a hash lookup unchanged.
proof fn lemma_find_hash_skip(s: Seq<MediaHashView>, media_id: u128, i: int)
    requires
        0 <= i < s.len(),
    ensures
        spec_find_hash(s.skip(i), media_id) == if s[i].media_id == media_id {
            Some(s[i].hash)
        } else {
            spec_find_hash(s.skip(i + 1), media_id)
        },
{
    assert(s.skip(i).drop_first() =~= s.skip(i + 1));
    assert(s.skip(i)[0] == s[i]);
}

/// Skipping past a non-matching head leaves a digest lookup unchanged.
proof fn lemma_find_id_by_hash_skip(s: Seq<MediaHashView>, h: Seq<u8>, i: int)
    requires
        0 <= i < s.len(),
    ensures
        spec_find_id_by_hash(s.skip(i), h) == if s[i].hash == h {
            Some(s[i].media_id)
        } else {
            spec_find_id_by_hash(s.skip(i + 1), h)
        },
{
    assert(s.skip(i).drop_first() =~= s.skip(i + 1));
    assert(s.skip(i)[0] == s[i]);
}

/// When the identifier sits at index `i` and nowhere earlier, the media
/// upsert is an in-place update of index `i`.
proof fn lemma_upsert_media_found(s: Seq<MediaView>, m: MediaView, i: int)
    requires
        0 <= i < s.len(),
        s[i].id == m.id,
        forall|j: int| 0 <= j < i ==> s[j].id != m.id,
    ensures
        spec_upsert_media(s, m) == s.update(i, spec_merge_record(s[i], m)),
    decreases i,
{
    if i == 0 {
        assert(seq![spec_merge_record(s[0], m)] + s.drop_first() =~= s.update(
            0,
            spec_merge_record(s[0], m),
        ));
    } else {
        lemma_upsert_media_found(s.drop_first(), m, i - 1);
        assert(seq![s[0]] + s.drop_first().update(i - 1, spec_merge_record(s[i], m)) =~= s.update(
            i,
            spec_merge_record(s[i], m),
        ));
    }
}

/// When no record carries the identifier, the media upsert appends.
pub proof fn lemma_upsert_media_missing(s: Seq<MediaView>, m: MediaView)
    requires
        forall|j: int| 0 <= j < s.len() ==> s[j].id != m.id,
    ensures
        spec_upsert_media(s, m) == s + seq![m],
    decreases s.len(),
{
    if s.len() == 0 {
        assert(spec_upsert_media(s, m) =~= s + seq![m]);
    } else {
        lemma_upsert_media_missing(s.drop_first(), m);
        assert(seq![s[0]] + (s.drop_first() + seq![m]) =~= s + seq![m]);
    }
}

/// When the identifier sits at index `i` and nowhere earlier, the hash
/// upsert is an in-place update of index `i`.
proof fn lemma_upsert_hash_found(s: Seq<MediaHashView>, h: MediaHashView, i: int)
    requires
        0 <= i < s.len(),
        s[i].media_id == h.media_id,
        forall|j: int| 0 <= j < i ==> s[j].media_id != h.media_id,
    ensures
        spec_upsert_hash(s, h) == s.update(i, h),
    decreases i,
{
    if i == 0 {
        assert(seq![h] + s.drop_first() =~= s.update(0, h));
    } else {
        lemma_upsert_hash_found(s.drop_first(), h, i - 1);
        assert(seq![s[0]] + s.drop_first().update(i - 1, h) =~= s.update(i, h));
    }
}

/// When no row carries the identifier, the hash upsert appends.
proof fn lemma_upsert_hash_missing(s: Seq<MediaHashView>, h: MediaHashView)
    requires
        forall|j: int| 0 <= j < s.len() ==> s[j].media_id != h.media_id,
    ensures
        spec_upsert_hash(s, h) == s + seq![h],
    decreases s.len(),
{
    if s.len() == 0 {
        assert(spec_upsert_hash(s, h) =~= s + seq![h]);
    } else {
        lemma_upsert_hash_missing(s.drop_first(), h);
        assert(seq![s[0]] + (s.drop_first() + seq![h]) =~= s + seq![h]);
    }
}

/// Replacing a record in place with one that keeps its identifier keeps
/// identifiers unique.
proof fn lemma_unique_after_update(s: Seq<MediaView>, m: MediaView, i: int)
    requires
        spec_ids_unique(s),
        0 <= i < s.len(),
        m.id == s[i].id,
    ensures
        spec_ids_unique(s.update(i, m)),
{
}

/// Replacing a hash row in place with one that keeps its identifier
/// keeps identifiers unique.
proof fn lemma_hash_unique_after_update(s: Seq<MediaHashView>, h: MediaHashView, i: int)
    requires
        spec_hash_ids_unique(s),
        0 <= i < s.len(),
        h.media_id == s[i].media_id,
    ensures
        spec_hash_ids_unique(s.update(i, h)),
{
}

} // verus!
