/*! Backend indexing engine for a personal media gallery.

The library discovers media files, extracts metadata from heterogeneous
binary formats (photos, animated photos, video containers), deduplicates
and caches that metadata in a local store, and keeps the cache consistent
as the filesystem changes underneath it.

The core is the media ingestion and caching pipeline: format detection,
the multi-parser metadata-extraction fallback chain, content-hash-based
change detection, cache-aware load/refresh semantics, and the planning
side of the filesystem watcher that drives re-ingestion.

All filesystem, database and clock access happens at the edge: callers
hand the pipeline a snapshot of what they observed on disk, and the
pipeline's behaviour on that snapshot is fully specified and verified.
Calls into the codec crates (byte sniffing, EXIF readers, container
parsers, hashing) are made from within the library behind narrow trusted
wrappers.
*/

use vstd::prelude::*;

pub mod config;
pub mod error;
pub mod metadata;
pub mod ident;
pub mod tags;
pub mod media;
pub mod hash;
pub mod store;
pub mod snapshot;
pub mod extract;
pub mod builder;
pub mod load;
pub mod watch;
pub mod search;

verus! {

pub fn add(left: u64, right: u64) -> (sum: u64)
    requires
        left + right <= u64::MAX,
    ensures
        sum == left + right,
{
    left + right
}

} // verus!
