//! The error taxonomy of the ingestion pipeline.
//!
//! Every failure is terminal for the one file it concerns and never for
//! its siblings: the caller decides whether to log, retry or give up.

use vstd::prelude::*;

use crate::config::Config;

verus! {

/// Top-level errors of the ingestion pipeline.
#[derive(Clone, Debug)]
pub enum RavesError {
    /// The persistent store failed; aborts one file's ingestion only.
    DatabaseError(DatabaseError),

    /// The media file was expected to exist, but didn't.
    MediaDoesntExist { path: String },

    /// Checking the file on disk failed (permissions, I/O error).
    FailedToOpenMediaFile { path: String, error: String },

    /// The file does not appear to contain MIME (file type) data.
    NoMimeData { path: String },

    /// The byte signature does not map to a supported media kind.
    FileNotSupportedMedia { path: String },

    /// Every applicable extraction strategy failed to produce a required
    /// field; the second string names the missing field.
    FileMissingMetadata(String, String),

    /// A file path was given that has no parent directory.
    MediaFilePathNoParent(String),

    /// The demuxer could not process the given video file.
    FfmpegFailedProcessing { path: String, err: String },

    /// Hashing the file's content failed.
    HashFailure(HashError),

    /// Thumbnail handling failed.
    MediaThumbnail(ThumbnailError),
}

/// Errors of the persistent store boundary.
#[derive(Clone, Debug)]
pub enum DatabaseError {
    /// Failed to connect to the database.
    ConnectionError(String),

    /// Couldn't continue with a database insertion.
    InsertionFailed(String),

    /// Failed to complete a database query.
    QueryFailed(String),

    /// Empty response when attempting to query the database.
    EmptyResponse(String),
}

/// Errors found while loading the configuration.
#[derive(Clone, Debug)]
pub enum ConfigError {
    /// Reading the config file from disk failed.
    ReadFailed(String),

    /// Parsing the config file failed.
    ParseFailed(String),

    /// The config file had paths that didn't match the newest ones.
    PathMismatch,
}

/// Errors found while handling thumbnails.
#[derive(Clone, Debug)]
pub enum ThumbnailError {
    /// The info store did not contain the expected media file metadata.
    MediaNotFound(String),

    /// Decoding the media file into an image failed.
    ImageParsingFailed(String, String),

    /// Thumbnail creation succeeded, but writing to disk failed.
    ThumbnailSaveFailure(String, String),

    /// Failed to create the thumbnail output file.
    FileCreationFailed(String, String),

    /// The demuxer never found a good thumbnail frame for the video.
    FfmpegNoSelectedFilter(String),
}

/// Errors found while hashing a file's content.
#[derive(Clone, Debug)]
pub enum HashError {
    /// The file could not be opened or read: the first string is the
    /// path, the second the underlying I/O error.
    FileReadFailure(String, String),
}

/// A trailer for bug warnings and errors: it helps users find out where
/// to report bugs when looking at logs.
pub fn bug_msg(config: &Config) -> (r: String)
    ensures
        r@ == "this is a bug, so please report it! you can do so by heading to this git repo: "@
            + config.bug_report_info.repo@,
{
    let mut s = String::from_str(
        "this is a bug, so please report it! you can do so by heading to this git repo: ",
    );
    s.append(config.bug_report_info.repo.as_str());
    s
}

} // verus!
