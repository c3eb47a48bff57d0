//! What the caller observed on disk for one path.
//!
//! The pipeline itself never touches the filesystem or a demuxer
//! process: the application reads the file, stats it and probes it, and
//! hands the outcome in as plain values. The pipeline's behaviour is
//! then a function of this snapshot.

use vstd::prelude::*;

verus! {

/// The outcome of checking that the path exists.
#[derive(Clone, Debug)]
pub enum FileCheck {
    /// The file exists on disk.
    Exists,
    /// The file does not exist on disk.
    Missing,
    /// Existence could not be checked (permissions, I/O error).
    CheckFailed(String),
}

/// Filesystem attributes of the file, as far as the stat call gave them.
#[derive(Clone, Copy, Debug, PartialEq, Eq, Structural)]
pub struct FileStat {
    /// File size in bytes.
    pub filesize: i64,
    /// Creation time in microseconds since the Unix epoch, if known.
    pub created: Option<i64>,
    /// Modification time in microseconds since the Unix epoch, if known.
    pub modified: Option<i64>,
}

/// What the demuxer reported for a video file: it opens the container,
/// locates the best video stream and reports that stream's duration in
/// its own time base.
#[derive(Clone, Debug)]
pub enum DemuxProbe {
    /// The demuxer could not process the file; the string is its error.
    Unavailable(String),
    /// The container opened, but holds no video stream.
    NoVideoStream,
    /// The best video stream, with its duration in time-base units.
    Stream { duration_ticks: u64, time_base_num: u32, time_base_den: u32 },
}

/// Everything the caller observed about one path, in one place.
#[derive(Clone, Debug)]
pub struct FileSnapshot {
    /// Whether the path exists.
    pub check: FileCheck,
    /// The file's content; `None` when reading it failed.
    pub content: Option<Vec<u8>>,
    /// Filesystem attributes; `None` when the stat call failed.
    pub stat: Option<FileStat>,
    /// The demuxer's report, consulted only for videos.
    pub demux: DemuxProbe,
}

/// The mathematical shape of a [`FileSnapshot`].
pub struct SnapshotView {
    pub check: FileCheck,
    pub content: Option<Seq<u8>>,
    pub stat: Option<FileStat>,
    pub demux: DemuxProbe,
}

impl View for FileSnapshot {
    type V = SnapshotView;

    open spec fn view(&self) -> SnapshotView {
        SnapshotView {
            check: self.check,
            content: match self.content {
                Some(b) => Some(b@),
                None => None,
            },
            stat: self.stat,
            demux: self.demux,
        }
    }
}

} // verus!
