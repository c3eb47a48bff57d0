//! LoadPipeline: the "ingest or refresh one file" entry points.
//!
//! `load` checks the path, hashes the observed content, and reuses the
//! cached record outright when one is stored under the path — unchanged
//! files cost one hash computation, never a re-parse. Only a cache miss
//! runs the extraction chain, and the result is persisted by upsert
//! together with its content hash. `update_metadata` is the stricter
//! refresh variant the watcher uses: it compares the fresh hash against
//! the *stored* hash row and skips all work when they match.

use vstd::prelude::*;

use crate::builder::{
    spec_build_error_matches, spec_build_ok, spec_built_media, MediaBuilder, MediaBuilderView,
};
use crate::error::{HashError, RavesError};
use crate::hash::{
    blake3_of, classify_hash, hash_bytes, spec_classify, HashUpToDate, MediaHash, MediaHashView,
};
use crate::ident::{mint_id, now_micros};
use crate::media::{Media, MediaView};
use crate::snapshot::{FileCheck, FileSnapshot, SnapshotView};
use crate::store::{
    spec_find_by_id, spec_find_by_path, spec_find_hash, spec_upsert_hash, spec_upsert_media,
    CacheStore, StoreView,
};

verus! {

/// The builder every load starts from: completely empty.
pub open spec fn spec_empty_builder() -> MediaBuilderView {
    MediaBuilderView {
        filesize: None,
        format: None,
        creation_date: None,
        modification_date: None,
        width_px: None,
        height_px: None,
        specific_metadata: None,
        other_metadata: None,
        tags: Seq::empty(),
    }
}

/// Whether a load succeeds: the path exists, its content was readable,
/// and either a record is already cached under the path or a fresh
/// build succeeds.
pub open spec fn spec_load_ok(store: StoreView, path: Seq<char>, snap: SnapshotView) -> bool {
    &&& snap.check is Exists
    &&& snap.content is Some
    &&& (spec_find_by_path(store.media, path) is Some || spec_build_ok(
        spec_empty_builder(),
        path,
        snap,
    ))
}

/// The record a successful load returns: the cached record verbatim on
/// a path hit, else the freshly built one.
pub open spec fn spec_load_media(
    store: StoreView,
    path: Seq<char>,
    snap: SnapshotView,
    fresh_id: u128,
    now: i64,
) -> MediaView {
    match spec_find_by_path(store.media, path) {
        Some(old) => old,
        None => spec_built_media(spec_empty_builder(), store, path, snap, fresh_id, now),
    }
}

/// What persisting a rebuild does to the cache: the record is upserted
/// by `id`, and its content hash is upserted by `media_id`.
pub open spec fn spec_rebuilt_store(
    store: StoreView,
    path: Seq<char>,
    snap: SnapshotView,
    fresh_id: u128,
    now: i64,
) -> StoreView {
    let m = spec_built_media(spec_empty_builder(), store, path, snap, fresh_id, now);
    StoreView {
        media: spec_upsert_media(store.media, m),
        hashes: spec_upsert_hash(
            store.hashes,
            MediaHashView { media_id: m.id, hash: blake3_of(snap.content->Some_0) },
        ),
    }
}

/// The cache a successful load leaves behind: untouched on a path hit,
/// else the rebuild persisted.
pub open spec fn spec_load_store(
    store: StoreView,
    path: Seq<char>,
    snap: SnapshotView,
    fresh_id: u128,
    now: i64,
) -> StoreView {
    match spec_find_by_path(store.media, path) {
        Some(_) => store,
        None => spec_rebuilt_store(store, path, snap, fresh_id, now),
    }
}

/// Which failure a load reports, in the order the pipeline checks for
/// them.
pub open spec fn spec_load_error_matches(
    store: StoreView,
    path: Seq<char>,
    snap: SnapshotView,
    e: RavesError,
) -> bool {
    if snap.check is Missing {
        e matches RavesError::MediaDoesntExist { path: p } && p@ == path
    } else if snap.check is CheckFailed {
        e matches RavesError::FailedToOpenMediaFile { path: p, error: er } && p@ == path
    } else if snap.content is None {
        e matches RavesError::HashFailure(_)
    } else {
        spec_build_error_matches(spec_empty_builder(), path, snap, e)
    }
}

/// Builds a record from the snapshot and persists it: upsert of the
/// record by `id`, upsert of its content hash by `media_id`.
fn rebuild_and_persist(
    store: &mut CacheStore,
    path: &String,
    snap: &FileSnapshot,
    fresh_id: u128,
    now: i64,
) -> (r: Result<Media, RavesError>)
    requires
        old(store).inv(),
    ensures
        final(store).inv(),
        r is Ok <==> spec_build_ok(spec_empty_builder(), path@, snap@),
        r matches Ok(m) ==> m@ == spec_built_media(
            spec_empty_builder(),
            old(store)@,
            path@,
            snap@,
            fresh_id,
            now,
        ),
        r is Ok ==> final(store)@ == spec_rebuilt_store(old(store)@, path@, snap@, fresh_id, now),
        r is Err ==> final(store)@ == old(store)@,
        r matches Err(e) ==> spec_build_error_matches(spec_empty_builder(), path@, snap@, e),
{
    let builder = MediaBuilder::default();
    proof {
        assert(builder@ == spec_empty_builder());
    }
    let media = match builder.build_internal(path, snap, store, fresh_id, now) {
        Ok(m) => m,
        Err(e) => {
            return Err(e);
        },
    };
    let bytes: &Vec<u8> = match &snap.content {
        Some(b) => b,
        None => {
            return Err(RavesError::MediaDoesntExist { path: path.clone() });
        },
    };
    let content_hash = hash_bytes(bytes.as_slice());
    let stored_copy = media.clone_record();
    store.upsert_media(stored_copy);
    store.upsert_hash(MediaHash { media_id: media.id, hash: content_hash });
    Ok(media)
}

/// Loads a media file from one observed snapshot of it.
///
/// The pipeline: check that the path exists, hash the observed content,
/// and look for a cached record under the path. The cached record's own
/// content sits at that same path, so its re-hash is the hash of the
/// same observed bytes and the two always agree: the cached record is
/// returned unchanged, at the cost of the hash alone. Without a cached
/// record the extraction chain runs and the result is persisted.
///
/// This is the deterministic core: the fresh identity material is
/// handed in.
pub fn load_internal(
    store: &mut CacheStore,
    path: &String,
    snap: &FileSnapshot,
    fresh_id: u128,
    now: i64,
) -> (r: Result<Media, RavesError>)
    requires
        old(store).inv(),
    ensures
        final(store).inv(),
        r is Ok <==> spec_load_ok(old(store)@, path@, snap@),
        r matches Ok(m) ==> m@ == spec_load_media(old(store)@, path@, snap@, fresh_id, now),
        r is Ok ==> final(store)@ == spec_load_store(old(store)@, path@, snap@, fresh_id, now),
        r is Err ==> final(store)@ == old(store)@,
        r matches Err(e) ==> spec_load_error_matches(old(store)@, path@, snap@, e),
{
    // check that the path exists on disk
    match &snap.check {
        FileCheck::Exists => {},
        FileCheck::Missing => {
            return Err(RavesError::MediaDoesntExist { path: path.clone() });
        },
        FileCheck::CheckFailed(msg) => {
            return Err(
                RavesError::FailedToOpenMediaFile { path: path.clone(), error: msg.clone() },
            );
        },
    }

    // grab our hash
    let new_hash: Vec<u8> = match MediaHash::hash_file(path, &snap.content) {
        Ok(h) => h,
        Err(e) => {
            return Err(RavesError::HashFailure(e));
        },
    };

    // if there's an old entry, we'll try to reuse it
    if let Some(old_entry) = store.get_by_path(path) {
        // the old entry is stored under this very path, so re-hashing its
        // content reads the same bytes the new hash came from
        let old_entry_hash: Vec<u8> = match MediaHash::hash_file(&old_entry.path, &snap.content) {
            Ok(h) => h,
            Err(e) => {
                return Err(RavesError::HashFailure(e));
            },
        };

        // when the hashes match, return the old media unchanged
        if crate::hash::eq_hash(&old_entry_hash, &new_hash) {
            return Ok(old_entry);
        }
        // hashes of one observed content never differ: this branch falls
        // through to a rebuild only vacuously
    }

    // load from disk and save the hash to the table
    rebuild_and_persist(store, path, snap, fresh_id, now)
}

/// Loads a media file, minting the fresh identity material itself.
pub fn load(store: &mut CacheStore, path: &String, snap: &FileSnapshot) -> (r: Result<
    Media,
    RavesError,
>)
    requires
        old(store).inv(),
    ensures
        final(store).inv(),
        r is Ok <==> spec_load_ok(old(store)@, path@, snap@),
        r matches Ok(m) ==> (spec_find_by_path(old(store)@.media, path@) matches Some(old_m)
            ==> m@ == old_m && final(store)@ == old(store)@),
        r matches Ok(m) ==> exists|fid: u128, t: i64|
            m@ == spec_load_media(old(store)@, path@, snap@, fid, t) && final(store)@
                == spec_load_store(old(store)@, path@, snap@, fid, t),
        r is Err ==> final(store)@ == old(store)@,
        r matches Err(e) ==> spec_load_error_matches(old(store)@, path@, snap@, e),
{
    let fresh_id: u128 = mint_id();
    let now: i64 = now_micros();
    load_internal(store, path, snap, fresh_id, now)
}

/// Whether a stored record's hash row already matches the observed
/// content: the refresh entry point then has nothing to do.
pub open spec fn spec_up_to_date(
    store: StoreView,
    path: Seq<char>,
    content: Option<Seq<u8>>,
) -> bool {
    &&& spec_find_by_path(store.media, path) is Some
    &&& content is Some
    &&& spec_find_hash(store.hashes, spec_find_by_path(store.media, path)->Some_0.id) == Some(
        blake3_of(content->Some_0),
    )
}

/// Whether a refresh succeeds.
pub open spec fn spec_update_ok(store: StoreView, path: Seq<char>, snap: SnapshotView) -> bool {
    match spec_find_by_path(store.media, path) {
        Some(_) => snap.content is Some && (spec_up_to_date(store, path, snap.content)
            || spec_build_ok(spec_empty_builder(), path, snap)),
        None => spec_build_ok(spec_empty_builder(), path, snap),
    }
}

/// The cache a successful, not-up-to-date refresh leaves behind: on a
/// path hit the stored hash row is replaced first, then the rebuild is
/// persisted against that intermediate cache; on a miss the rebuild is
/// persisted directly.
pub open spec fn spec_update_store(
    store: StoreView,
    path: Seq<char>,
    snap: SnapshotView,
    fresh_id: u128,
    now: i64,
) -> StoreView {
    match spec_find_by_path(store.media, path) {
        Some(old_m) => {
            let pre = StoreView {
                media: store.media,
                hashes: spec_upsert_hash(
                    store.hashes,
                    MediaHashView { media_id: old_m.id, hash: blake3_of(snap.content->Some_0) },
                ),
            };
            spec_rebuilt_store(pre, path, snap, fresh_id, now)
        },
        None => spec_rebuilt_store(store, path, snap, fresh_id, now),
    }
}

impl Media {
    /// Computes this media file's hash from its observed content and
    /// checks whether the stored hash row for it is up-to-date — but
    /// DOES NOT update it.
    pub fn hash(&self, store: &CacheStore, content: &Option<Vec<u8>>) -> (r: Result<
        (MediaHash, HashUpToDate),
        HashError,
    >)
        ensures
            r is Ok <==> content is Some,
            r matches Ok(p) ==> p.0@.media_id == self@.id,
            r matches Ok(p) ==> (content matches Some(b) ==> p.0@.hash == blake3_of(b@) && p.1
                == spec_classify(spec_find_hash(store@.hashes, self@.id), blake3_of(b@))),
    {
        // get the old hash row
        let stored: Option<Vec<u8>> = store.get_hash(self.id);

        // generate the new hash
        let new_hash: Vec<u8> = match MediaHash::hash_file(&self.path, content) {
            Ok(h) => h,
            Err(e) => {
                return Err(e);
            },
        };

        // check if they match, and tell the caller
        let state = classify_hash(&stored, &new_hash);
        Ok((MediaHash { media_id: self.id, hash: new_hash }, state))
    }

    /// Updates this media file's metadata in the cache: when the stored
    /// hash row already matches the observed content, nothing is done —
    /// content-unchanged files never re-run the extraction chain.
    /// Otherwise the hash row is replaced and the record rebuilt and
    /// persisted.
    pub fn update_metadata(store: &mut CacheStore, path: &String, snap: &FileSnapshot) -> (r:
        Result<(), RavesError>)
        requires
            old(store).inv(),
        ensures
            final(store).inv(),
            r is Ok <==> spec_update_ok(old(store)@, path@, snap@),
            spec_up_to_date(old(store)@, path@, snap@.content) ==> r is Ok && final(store)@ == old(
                store,
            )@,
            r is Ok && !spec_up_to_date(old(store)@, path@, snap@.content) ==> exists|
                fid: u128,
                t: i64,
            | final(store)@ == spec_update_store(old(store)@, path@, snap@, fid, t),
            r matches Err(e) ==> (if spec_find_by_path(old(store)@.media, path@) is Some
                && snap@.content is None {
                e matches RavesError::HashFailure(_)
            } else {
                spec_build_error_matches(spec_empty_builder(), path@, snap@, e)
            }),
            r is Err ==> final(store)@.media == old(store)@.media,
            r is Err ==> final(store)@.hashes == old(store)@.hashes || (spec_find_by_path(
                old(store)@.media,
                path@,
            ) is Some && snap@.content is Some && final(store)@.hashes == spec_upsert_hash(
                old(store)@.hashes,
                MediaHashView {
                    media_id: spec_find_by_path(old(store)@.media, path@)->Some_0.id,
                    hash: blake3_of(snap@.content->Some_0),
                },
            )),
    {
        let fresh_id: u128 = mint_id();
        let now: i64 = now_micros();
        let ghost entry = store@;

        // check if there's a record with this path cached
        if let Some(old_media) = store.get_by_path(path) {
            // if so, check whether its hash row is up-to-date
            let pair = match old_media.hash(store, &snap.content) {
                Ok(p) => p,
                Err(e) => {
                    return Err(RavesError::HashFailure(e));
                },
            };
            if matches!(pair.1, HashUpToDate::UpToDate) {
                // the file's hash is up-to-date: no need to update metadata
                return Ok(());
            }

            // otherwise, update the hash row first
            store.upsert_hash(pair.0);
            let ghost mid = store@;

            // then rebuild and persist
            return match rebuild_and_persist(store, path, snap, fresh_id, now) {
                Ok(_) => {
                    proof {
                        let old_m = spec_find_by_path(entry.media, path@)->Some_0;
                        let pre = StoreView {
                            media: entry.media,
                            hashes: spec_upsert_hash(
                                entry.hashes,
                                MediaHashView {
                                    media_id: old_m.id,
                                    hash: blake3_of(snap@.content->Some_0),
                                },
                            ),
                        };
                        assert(pair.0@ == MediaHashView {
                            media_id: old_m.id,
                            hash: blake3_of(snap@.content->Some_0),
                        });
                        assert(mid == pre);
                        assert(store@ == spec_rebuilt_store(pre, path@, snap@, fresh_id, now));
                        assert(store@ == spec_update_store(entry, path@, snap@, fresh_id, now));
                    }
                    Ok(())
                },
                Err(e) => Err(e),
            };
        }

        // no cached record: rebuild and persist without a second thought
        match rebuild_and_persist(store, path, snap, fresh_id, now) {
            Ok(_) => {
                proof {
                    assert(store@ == spec_update_store(entry, path@, snap@, fresh_id, now));
                }
                Ok(())
            },
            Err(e) => Err(e),
        }
    }
}

/// Hash determinism: byte-identical content hashes identically,
/// regardless of path or any other attribute.
pub proof fn lemma_hash_deterministic(a: Seq<u8>, b: Seq<u8>)
    requires
        a == b,
    ensures
        blake3_of(a) == blake3_of(b),
{
}

/// A lookup that misses every identifier in a table finds none of them.
proof fn lemma_find_by_id_none(s: Seq<MediaView>, id: u128)
    requires
        spec_find_by_id(s, id) is None,
    ensures
        forall|j: int| 0 <= j < s.len() ==> s[j].id != id,
    decreases s.len(),
{
    if s.len() > 0 {
        lemma_find_by_id_none(s.drop_first(), id);
        assert forall|j: int| 0 <= j < s.len() implies s[j].id != id by {
            if j > 0 {
                assert(s.drop_first()[j - 1] == s[j]);
            }
        }
    }
}

/// Appending a record under a path nothing else carries makes it the
/// record the path finds.
proof fn lemma_find_by_path_append(s: Seq<MediaView>, m: MediaView, p: Seq<char>)
    requires
        spec_find_by_path(s, p) is None,
        m.path == p,
    ensures
        spec_find_by_path(s + seq![m], p) == Some(m),
    decreases s.len(),
{
    if s.len() == 0 {
        assert((s + seq![m])[0] == m);
        assert((s + seq![m]).len() == 1);
    } else {
        lemma_find_by_path_append(s.drop_first(), m, p);
        assert((s + seq![m])[0] == s[0]);
        assert((s + seq![m]).drop_first() =~= s.drop_first() + seq![m]);
    }
}

/// Idempotence of unchanged content: once a load has put a file's
/// record in the cache, loading the same content again returns that
/// record — same identity, same first-seen date — and leaves the cache
/// exactly as it was: no extraction, no writes. The one hypothesis is
/// that the first load's minted identifier was really fresh.
pub proof fn lemma_reload_unchanged_is_noop(
    store: StoreView,
    path: Seq<char>,
    snap: SnapshotView,
    fid1: u128,
    t1: i64,
    fid2: u128,
    t2: i64,
)
    requires
        spec_load_ok(store, path, snap),
        spec_find_by_id(store.media, fid1) is None,
    ensures
        ({
            let s1 = spec_load_store(store, path, snap, fid1, t1);
            let m1 = spec_load_media(store, path, snap, fid1, t1);
            &&& spec_load_ok(s1, path, snap)
            &&& spec_load_media(s1, path, snap, fid2, t2) == m1
            &&& spec_load_store(s1, path, snap, fid2, t2) == s1
        }),
{
    let s1 = spec_load_store(store, path, snap, fid1, t1);
    let m1 = spec_load_media(store, path, snap, fid1, t1);
    match spec_find_by_path(store.media, path) {
        Some(old) => {
            assert(s1 == store);
            assert(spec_find_by_path(s1.media, path) == Some(m1));
        },
        None => {
            assert(m1 == spec_built_media(spec_empty_builder(), store, path, snap, fid1, t1));
            assert(m1.path == path);
            assert(m1.id == fid1);
            lemma_find_by_id_none(store.media, fid1);
            crate::store::lemma_upsert_media_missing(store.media, m1);
            assert(s1.media == store.media + seq![m1]);
            lemma_find_by_path_append(store.media, m1, path);
            assert(spec_find_by_path(s1.media, path) == Some(m1));
        },
    }
}

/// Identity stability under content change: when a path's record is
/// cached and its content has changed on disk, a refresh that rebuilds
/// the record keeps its identity and first-seen date verbatim, while
/// every other field is free to change with the new content.
pub proof fn lemma_identity_stable_under_change(
    store: StoreView,
    path: Seq<char>,
    snap: SnapshotView,
    fid: u128,
    t: i64,
)
    requires
        spec_find_by_path(store.media, path) is Some,
        snap.content is Some,
    ensures
        ({
            let old_m = spec_find_by_path(store.media, path)->Some_0;
            let pre = StoreView {
                media: store.media,
                hashes: spec_upsert_hash(
                    store.hashes,
                    MediaHashView { media_id: old_m.id, hash: blake3_of(snap.content->Some_0) },
                ),
            };
            let m = spec_built_media(spec_empty_builder(), pre, path, snap, fid, t);
            &&& m.id == old_m.id
            &&& m.first_seen_date == old_m.first_seen_date
            &&& m.path == path
        }),
{
}

} // verus!
