//! The media items that are downloaded, and how.

use vstd::prelude::*;

verus! {

/// How subtitles are handled.
#[derive(Debug, Clone, Copy, PartialEq, Eq, Structural)]
pub enum SubtitleMode {
    /// Subtitles are not wanted.
    Skip,
    /// Subtitles are stored as files next to the video.
    Download,
    /// Subtitles are embedded into the video.
    Embed,
}

/// What happens when subtitles are wanted and there are none.
#[derive(Debug, Clone, Copy, PartialEq, Eq, Structural)]
pub enum MissingSubtitlePolicy {
    /// The item is downloaded without subtitles.
    AllowMissing,
    /// The item is an error.
    Strict,
}

impl MissingSubtitlePolicy {
    /// Tells whether an item without subtitles is still downloaded.
    pub fn allows_missing(self) -> (res: bool)
        ensures
            res == (self is AllowMissing),
    {
        match self {
            MissingSubtitlePolicy::AllowMissing => true,
            MissingSubtitlePolicy::Strict => false,
        }
    }
}

/// An episode or a movie.
#[derive(Debug, PartialEq, Eq)]
pub struct MediaItem {
    /// Identifier of the item in the API.
    pub id: i32,
    /// Title of the item.
    pub title: String,
    /// Where the video is, once known.
    pub video_url: Option<String>,
    /// Where the subtitles are, once known.
    pub subtitle_url: Option<String>,
    /// Number of the episode, for an episode.
    pub episode_number: Option<i32>,
    /// Name of the TV show, for an episode.
    pub tv_show_name: Option<String>,
}

/// A [`MediaItem`], with its texts as sequences of characters.
#[verifier::ext_equal]
pub struct MediaItemModel {
    pub id: i32,
    pub title: Seq<char>,
    pub video_url: Option<Seq<char>>,
    pub subtitle_url: Option<Seq<char>>,
    pub episode_number: Option<i32>,
    pub tv_show_name: Option<Seq<char>>,
}

impl DeepView for MediaItem {
    type V = MediaItemModel;

    open spec fn deep_view(&self) -> MediaItemModel {
        MediaItemModel {
            id: self.id,
            title: self.title@,
            video_url: self.video_url.deep_view(),
            subtitle_url: self.subtitle_url.deep_view(),
            episode_number: self.episode_number,
            tv_show_name: self.tv_show_name.deep_view(),
        }
    }
}

/// What a slug stands for.
#[derive(Debug, PartialEq, Eq)]
pub enum MediaType {
    /// The TV show with this identifier.
    TvShow(i32),
    /// A movie.
    Movie {
        /// Identifier of the movie.
        id: i32,
        /// Slug of the movie.
        slug: String,
    },
}

/// The settings that every item of one download run shares.
#[derive(Debug, PartialEq, Eq)]
pub struct DownloadSettings {
    /// How subtitles are handled.
    pub subtitle_mode: SubtitleMode,
    /// What happens when subtitles are missing.
    pub missing_subtitle_policy: MissingSubtitlePolicy,
    /// Number of files that are downloaded at the same time.
    pub concurrent_downloads: u8,
    /// Directory that the files are stored in.
    pub directory: String,
    /// Whether yt-dlp does the downloads.
    pub yt_dlp_available: bool,
}

/// A [`DownloadSettings`], with its texts as sequences of characters.
#[verifier::ext_equal]
pub struct DownloadSettingsModel {
    pub subtitle_mode: SubtitleMode,
    pub missing_subtitle_policy: MissingSubtitlePolicy,
    pub concurrent_downloads: u8,
    pub directory: Seq<char>,
    pub yt_dlp_available: bool,
}

impl DeepView for DownloadSettings {
    type V = DownloadSettingsModel;

    open spec fn deep_view(&self) -> DownloadSettingsModel {
        DownloadSettingsModel {
            subtitle_mode: self.subtitle_mode,
            missing_subtitle_policy: self.missing_subtitle_policy,
            concurrent_downloads: self.concurrent_downloads,
            directory: self.directory@,
            yt_dlp_available: self.yt_dlp_available,
        }
    }
}

} // verus!
