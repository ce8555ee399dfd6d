//! The arguments of the program.

use vstd::prelude::*;

verus! {

/// Arguments of the downloader.
#[derive(Debug)]
pub struct CatShowDownloaderArgs {
    /// What is to be done.
    pub command: Command,
}

/// The commands of the downloader.
#[derive(Debug)]
pub enum Command {
    /// Download episodes or movies and their subtitles.
    Download(DownloadArgs),
    /// Retrieve episode metadata and covers, without videos.
    Metadata(MetadataArgs),
}

/// A TV show or a movie, and where its files go.
#[derive(Debug)]
pub struct DownloadTargetArgs {
    /// Slug of the TV show or movie.
    pub slug: String,
    /// Directory to save the files in.
    pub directory: String,
}

/// A TV show, and where its files go.
#[derive(Debug)]
pub struct MetadataTargetArgs {
    /// Slug of the TV show.
    pub slug: String,
    /// Directory to save the files in.
    pub directory: String,
}

/// Arguments of the download command.
#[derive(Debug)]
pub struct DownloadArgs {
    /// What to download, and where to.
    pub target: DownloadTargetArgs,
    /// Episode to start from; of no meaning for movies.
    pub start_from_episode: i32,
    /// Number of files to download at the same time.
    pub concurrent_downloads: u8,
    /// Skip subtitles.
    pub skip_subtitles: bool,
    /// Go on where subtitles are unavailable.
    pub allow_missing_subtitles: bool,
    /// Clean the subtitle files that are in the directory already.
    pub fix_existing_subtitles: bool,
    /// Clean the subtitle files that are in the directory already, and embed them into their
    /// videos.
    pub embed_existing_subtitles: bool,
}

/// Arguments of the metadata command.
#[derive(Debug)]
pub struct MetadataArgs {
    /// What to retrieve, and where to.
    pub target: MetadataTargetArgs,
}

} // verus!
