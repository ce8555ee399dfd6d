//! The download of one media item, as a machine: it names the work that is to be done next,
//! and takes what came of it.

use vstd::prelude::*;

use crate::api_structs::SingleEpisodeRoot;
use crate::downloader::{
    apply_sources, builtin_media_is_complete, check_lacks_subtitles, find_existing_video_files,
    full_media_path, handle_missing_subtitles, is_complete, lacks_subtitles, missing_subtitles_text,
    missing_subtitles_warning, single_media_api_url, single_media_url, video_scan, with_sources,
    DirectoryEntry, ExistingVideoFiles, ExistingVideoFilesModel, FileStatus,
};
use crate::error::{result_model, Error, ErrorModel};
use crate::models::{
    DownloadSettings, DownloadSettingsModel, MediaItem, MediaItemModel, MissingSubtitlePolicy,
    SubtitleMode,
};
use crate::paths::{file_stem, join, path_file_stem};
use crate::transfer::temporary_path;

verus! {

/// Work that the machine asks for.
#[derive(Debug, PartialEq, Eq)]
pub enum Action {
    /// Let yt-dlp download the item.
    DelegateToYtDlp,
    /// Fetch the details of the item.
    FetchDetails { url: String },
    /// Find the name of the file that is stored for the item with this extension.
    NameFile { extension: String },
    /// List the entries of a directory.
    ListDirectory { directory: String },
    /// Find out what is known of a file.
    ProbeFile { path: String },
    /// Download the video; `label` stands for it on the screen.
    DownloadVideo { url: String, path: String, label: String },
    /// Download the subtitles; `label` stands for them on the screen.
    DownloadSubtitle { url: String, path: String, label: String },
    /// Clean a subtitle file.
    CleanSubtitle { path: String },
    /// Embed a subtitle file into a video.
    EmbedSubtitle { video_path: String, subtitle_path: String, language: String },
    /// Nothing: the download is over, with this result.
    Finish { result: Result<(), Error> },
}

/// An [`Action`], with its texts as sequences of characters.
#[verifier::ext_equal]
pub enum ActionModel {
    DelegateToYtDlp,
    FetchDetails { url: Seq<char> },
    NameFile { extension: Seq<char> },
    ListDirectory { directory: Seq<char> },
    ProbeFile { path: Seq<char> },
    DownloadVideo { url: Seq<char>, path: Seq<char>, label: Seq<char> },
    DownloadSubtitle { url: Seq<char>, path: Seq<char>, label: Seq<char> },
    CleanSubtitle { path: Seq<char> },
    EmbedSubtitle { video_path: Seq<char>, subtitle_path: Seq<char>, language: Seq<char> },
    Finish { result: Result<(), ErrorModel> },
}

impl DeepView for Action {
    type V = ActionModel;

    open spec fn deep_view(&self) -> ActionModel {
        match self {
            Action::DelegateToYtDlp => ActionModel::DelegateToYtDlp,
            Action::FetchDetails { url } => ActionModel::FetchDetails { url: url@ },
            Action::NameFile { extension } => ActionModel::NameFile { extension: extension@ },
            Action::ListDirectory { directory } => ActionModel::ListDirectory {
                directory: directory@,
            },
            Action::ProbeFile { path } => ActionModel::ProbeFile { path: path@ },
            Action::DownloadVideo { url, path, label } => ActionModel::DownloadVideo {
                url: url@,
                path: path@,
                label: label@,
            },
            Action::DownloadSubtitle { url, path, label } => ActionModel::DownloadSubtitle {
                url: url@,
                path: path@,
                label: label@,
            },
            Action::CleanSubtitle { path } => ActionModel::CleanSubtitle { path: path@ },
            Action::EmbedSubtitle { video_path, subtitle_path, language } =>
            ActionModel::EmbedSubtitle {
                video_path: video_path@,
                subtitle_path: subtitle_path@,
                language: language@,
            },
            Action::Finish { result } => ActionModel::Finish { result: result_model(*result) },
        }
    }
}

/// What the machine asks for at one time.
#[derive(Debug, PartialEq, Eq)]
pub struct Step {
    /// A warning for the user.
    pub warning: Option<String>,
    /// Files to remove before the action; it does not matter whether that succeeds.
    pub cleanup: Vec<String>,
    /// The work to be done.
    pub action: Action,
}

/// A [`Step`], with its texts as sequences of characters.
#[verifier::ext_equal]
pub struct StepModel {
    pub warning: Option<Seq<char>>,
    pub cleanup: Seq<Seq<char>>,
    pub action: ActionModel,
}

impl DeepView for Step {
    type V = StepModel;

    open spec fn deep_view(&self) -> StepModel {
        StepModel {
            warning: self.warning.deep_view(),
            cleanup: self.cleanup.deep_view(),
            action: self.action.deep_view(),
        }
    }
}

/// What came of the work.
#[derive(Debug)]
pub enum Event {
    /// yt-dlp is done.
    Delegated(Result<(), Error>),
    /// The details arrived, or could not be had for the reason given.
    DetailsFetched(Result<SingleEpisodeRoot, String>),
    /// The name of the file, or why it has none.
    Named(Result<String, Error>),
    /// The entries of the directory. Where reading it failed, those that were read before that,
    /// and the reason.
    Listed { entries: Vec<DirectoryEntry>, failure: Option<String> },
    /// What is known of the file.
    Probed(FileStatus),
    /// The file was downloaded, or not.
    Downloaded(Result<(), Error>),
    /// The subtitle file was cleaned, or not.
    Cleaned(Result<(), Error>),
    /// The subtitles were embedded, or not for the reason given.
    Embedded(Result<(), String>),
}

/// How far the download is: what the machine waits for, and what it will need then.
#[derive(Debug, PartialEq, Eq)]
pub enum Phase {
    /// Waits for yt-dlp.
    Delegating,
    /// Waits for the details of the item.
    Fetching,
    /// Waits for the name of the video file.
    NamingVideo,
    /// Waits for the entries of the directory.
    Listing { video_filename: String },
    /// Waits for the name of the subtitle file.
    NamingSubtitle { video_filename: String, files: ExistingVideoFiles },
    /// Waits to know whether subtitles are stored, to see whether anything is left to do.
    Checking { video_filename: String, files: ExistingVideoFiles, subtitle_filename: String },
    /// Waits for the video.
    DownloadingVideo { video_path: String, subtitle_filename: String },
    /// The video is stored. Waits to know whether subtitles are.
    Probing { video_path: String, subtitle_filename: String },
    /// Waits for the subtitles.
    DownloadingSubtitle { video_path: String, subtitle_path: String },
    /// Waits for the subtitles to be cleaned.
    Cleaning { video_path: String, subtitle_path: String },
    /// Waits for the subtitles to be embedded.
    Embedding { video_path: String },
    /// Is over.
    Finished,
}

/// A [`Phase`], with its texts as sequences of characters.
#[verifier::ext_equal]
pub enum PhaseModel {
    Delegating,
    Fetching,
    NamingVideo,
    Listing { video_filename: Seq<char> },
    NamingSubtitle { video_filename: Seq<char>, files: ExistingVideoFilesModel },
    Checking {
        video_filename: Seq<char>,
        files: ExistingVideoFilesModel,
        subtitle_filename: Seq<char>,
    },
    DownloadingVideo { video_path: Seq<char>, subtitle_filename: Seq<char> },
    Probing { video_path: Seq<char>, subtitle_filename: Seq<char> },
    DownloadingSubtitle { video_path: Seq<char>, subtitle_path: Seq<char> },
    Cleaning { video_path: Seq<char>, subtitle_path: Seq<char> },
    Embedding { video_path: Seq<char> },
    Finished,
}

impl DeepView for Phase {
    type V = PhaseModel;

    open spec fn deep_view(&self) -> PhaseModel {
        match self {
            Phase::Delegating => PhaseModel::Delegating,
            Phase::Fetching => PhaseModel::Fetching,
            Phase::NamingVideo => PhaseModel::NamingVideo,
            Phase::Listing { video_filename } => PhaseModel::Listing {
                video_filename: video_filename@,
            },
            Phase::NamingSubtitle { video_filename, files } => PhaseModel::NamingSubtitle {
                video_filename: video_filename@,
                files: files.deep_view(),
            },
            Phase::Checking { video_filename, files, subtitle_filename } => PhaseModel::Checking {
                video_filename: video_filename@,
                files: files.deep_view(),
                subtitle_filename: subtitle_filename@,
            },
            Phase::DownloadingVideo { video_path, subtitle_filename } =>
            PhaseModel::DownloadingVideo {
                video_path: video_path@,
                subtitle_filename: subtitle_filename@,
            },
            Phase::Probing { video_path, subtitle_filename } => PhaseModel::Probing {
                video_path: video_path@,
                subtitle_filename: subtitle_filename@,
            },
            Phase::DownloadingSubtitle { video_path, subtitle_path } =>
            PhaseModel::DownloadingSubtitle {
                video_path: video_path@,
                subtitle_path: subtitle_path@,
            },
            Phase::Cleaning { video_path, subtitle_path } => PhaseModel::Cleaning {
                video_path: video_path@,
                subtitle_path: subtitle_path@,
            },
            Phase::Embedding { video_path } => PhaseModel::Embedding { video_path: video_path@ },
            Phase::Finished => PhaseModel::Finished,
        }
    }
}

/// The download of one media item.
#[derive(Debug, PartialEq, Eq)]
pub struct MediaDownload {
    /// The item, with the URLs that are known by now.
    item: MediaItem,
    /// Directory that the files are stored in.
    directory: String,
    /// How subtitles are handled.
    subtitle_mode: SubtitleMode,
    /// What happens when subtitles are missing.
    missing_subtitle_policy: MissingSubtitlePolicy,
    /// How far the download is.
    phase: Phase,
}

/// A [`MediaDownload`], with its texts as sequences of characters.
#[verifier::ext_equal]
pub struct MediaDownloadModel {
    pub item: MediaItemModel,
    pub directory: Seq<char>,
    pub subtitle_mode: SubtitleMode,
    pub missing_subtitle_policy: MissingSubtitlePolicy,
    pub phase: PhaseModel,
}

impl DeepView for MediaDownload {
    type V = MediaDownloadModel;

    closed spec fn deep_view(&self) -> MediaDownloadModel {
        MediaDownloadModel {
            item: self.item.deep_view(),
            directory: self.directory@,
            subtitle_mode: self.subtitle_mode,
            missing_subtitle_policy: self.missing_subtitle_policy,
            phase: self.phase.deep_view(),
        }
    }
}

/// Whether `event` is an answer to what the machine asked for when it entered `phase`.
pub open spec fn accepts(phase: PhaseModel, event: Event) -> bool {
    match phase {
        PhaseModel::Delegating => event is Delegated,
        PhaseModel::Fetching => event is DetailsFetched,
        PhaseModel::NamingVideo => event is Named,
        PhaseModel::Listing { .. } => event is Listed,
        PhaseModel::NamingSubtitle { .. } => event is Named,
        PhaseModel::Checking { .. } => event is Probed,
        PhaseModel::DownloadingVideo { .. } => event is Downloaded,
        PhaseModel::Probing { .. } => event is Probed,
        PhaseModel::DownloadingSubtitle { .. } => event is Downloaded,
        PhaseModel::Cleaning { .. } => event is Cleaned,
        PhaseModel::Embedding { .. } => event is Embedded,
        PhaseModel::Finished => false,
    }
}

/// The step that asks for `action` and nothing else.
pub open spec fn just(action: ActionModel) -> StepModel {
    StepModel { warning: None, cleanup: Seq::empty(), action }
}

/// The download is over with `result`, once the files of `cleanup` are removed.
pub open spec fn finished(
    m: MediaDownloadModel,
    cleanup: Seq<Seq<char>>,
    result: Result<(), ErrorModel>,
) -> (MediaDownloadModel, StepModel) {
    (
        MediaDownloadModel { phase: PhaseModel::Finished, ..m },
        StepModel { warning: None, cleanup, action: ActionModel::Finish { result } },
    )
}

/// The path of a file, where it is an empty leftover.
pub open spec fn leftover(path: Seq<char>, status: FileStatus) -> Seq<Seq<char>> {
    if status.is_leftover() {
        seq![path]
    } else {
        Seq::empty()
    }
}

/// The details arrived: the item gets its URLs, unless subtitles are missing and must not be.
pub open spec fn after_details(m: MediaDownloadModel, response: SingleEpisodeRoot) -> (
    MediaDownloadModel,
    StepModel,
) {
    let known = MediaDownloadModel { item: with_sources(m.item, response), ..m };
    let lacking = lacks_subtitles(response, m.subtitle_mode);
    if lacking && m.missing_subtitle_policy is Strict {
        finished(known, Seq::empty(), Err(ErrorModel::NoSubtitlesAvailable(m.item.title)))
    } else {
        (
            MediaDownloadModel { phase: PhaseModel::NamingVideo, ..known },
            StepModel {
                warning: if lacking {
                    Some(missing_subtitles_text(m.item.title))
                } else {
                    None
                },
                ..just(ActionModel::NameFile { extension: "mp4"@ })
            },
        )
    }
}

/// The video is called `filename`: what an interrupted download left of it is removed, and the
/// directory is searched.
pub open spec fn after_video_name(m: MediaDownloadModel, filename: Seq<char>) -> (
    MediaDownloadModel,
    StepModel,
) {
    let partial = seq![temporary_path(join(m.directory, filename))];
    if file_stem(filename) is None {
        finished(m, partial, Err(ErrorModel::InvalidPathEncoding(filename)))
    } else {
        (
            MediaDownloadModel { phase: PhaseModel::Listing { video_filename: filename }, ..m },
            StepModel {
                cleanup: partial,
                ..just(ActionModel::ListDirectory { directory: m.directory })
            },
        )
    }
}

/// The directory holds `entries`, and more where reading it failed. The empty leftovers among
/// `entries` are removed in both cases.
pub open spec fn after_listing(
    m: MediaDownloadModel,
    video_filename: Seq<char>,
    entries: Seq<DirectoryEntry>,
    failure: Option<String>,
) -> (MediaDownloadModel, StepModel) {
    match file_stem(video_filename) {
        Some(stem) => {
            let scan = video_scan(entries, stem, m.directory);
            match failure {
                Some(reason) => finished(
                    m,
                    scan.leftovers,
                    Err(ErrorModel::Downloading(reason@)),
                ),
                None => (
                    MediaDownloadModel {
                        phase: PhaseModel::NamingSubtitle { video_filename, files: scan.files },
                        ..m
                    },
                    StepModel {
                        cleanup: scan.leftovers,
                        ..just(ActionModel::NameFile { extension: "vtt"@ })
                    },
                ),
            }
        },
        None => finished(m, Seq::empty(), Err(ErrorModel::InvalidPathEncoding(video_filename))),
    }
}

/// The video is stored at `video_path`: the subtitles are next, where they are wanted.
pub open spec fn after_video(
    m: MediaDownloadModel,
    video_path: Seq<char>,
    subtitle_filename: Seq<char>,
    cleanup: Seq<Seq<char>>,
) -> (MediaDownloadModel, StepModel) {
    if m.subtitle_mode is Skip {
        finished(m, cleanup, Ok(()))
    } else {
        (
            MediaDownloadModel { phase: PhaseModel::Probing { video_path, subtitle_filename }, ..m },
            StepModel {
                cleanup,
                ..just(ActionModel::ProbeFile { path: join(m.directory, subtitle_filename) })
            },
        )
    }
}

/// It is known what is stored of the item: all of it, a video to go on with, or none.
pub open spec fn after_check(
    m: MediaDownloadModel,
    video_filename: Seq<char>,
    files: ExistingVideoFilesModel,
    subtitle_filename: Seq<char>,
    status: FileStatus,
) -> (MediaDownloadModel, StepModel) {
    let cleanup = leftover(join(m.directory, subtitle_filename), status);
    if is_complete(files, status.is_stored(), m.subtitle_mode) {
        finished(m, cleanup, Ok(()))
    } else {
        match (files.reusable_video_path, m.item.video_url) {
            (Some(path), _) => after_video(m, path, subtitle_filename, cleanup),
            (None, None) => finished(
                m,
                cleanup,
                Err(ErrorModel::MediaDoesNotHaveVideoUrl(video_filename)),
            ),
            (None, Some(url)) => {
                let path = join(m.directory, video_filename);
                (
                    MediaDownloadModel {
                        phase: PhaseModel::DownloadingVideo { video_path: path, subtitle_filename },
                        ..m
                    },
                    StepModel {
                        cleanup,
                        ..just(ActionModel::DownloadVideo { url, path, label: video_filename })
                    },
                )
            },
        }
    }
}

/// The subtitles are stored at `subtitle_path`, and are cleaned.
pub open spec fn after_subtitle(
    m: MediaDownloadModel,
    video_path: Seq<char>,
    subtitle_path: Seq<char>,
) -> (MediaDownloadModel, StepModel) {
    (
        MediaDownloadModel { phase: PhaseModel::Cleaning { video_path, subtitle_path }, ..m },
        just(ActionModel::CleanSubtitle { path: subtitle_path }),
    )
}

/// It is known whether the subtitles are stored; where not, they are downloaded, if they can be.
pub open spec fn after_probe(
    m: MediaDownloadModel,
    video_path: Seq<char>,
    subtitle_filename: Seq<char>,
    status: FileStatus,
) -> (MediaDownloadModel, StepModel) {
    let subtitle_path = join(m.directory, subtitle_filename);
    if status.is_stored() {
        after_subtitle(m, video_path, subtitle_path)
    } else {
        match m.item.subtitle_url {
            None => finished(m, leftover(subtitle_path, status), Ok(())),
            Some(url) => (
                MediaDownloadModel {
                    phase: PhaseModel::DownloadingSubtitle { video_path, subtitle_path },
                    ..m
                },
                StepModel {
                    cleanup: leftover(subtitle_path, status),
                    ..just(
                        ActionModel::DownloadSubtitle {
                            url,
                            path: subtitle_path,
                            label: subtitle_filename,
                        },
                    )
                },
            ),
        }
    }
}

/// The subtitles are clean: they are embedded, where that is wanted.
pub open spec fn after_cleaning(
    m: MediaDownloadModel,
    video_path: Seq<char>,
    subtitle_path: Seq<char>,
) -> (MediaDownloadModel, StepModel) {
    if m.subtitle_mode is Embed {
        (
            MediaDownloadModel { phase: PhaseModel::Embedding { video_path }, ..m },
            just(ActionModel::EmbedSubtitle { video_path, subtitle_path, language: "ca"@ }),
        )
    } else {
        finished(m, Seq::empty(), Ok(()))
    }
}

/// The warning that subtitles could not be embedded, as characters.
pub open spec fn embedding_failed_text(video_path: Seq<char>, reason: Seq<char>) -> Seq<char> {
    "Failed to embed subtitles into "@ + video_path + ": "@ + reason
}

/// Where the machine goes on `event`, and what it asks for next.
pub open spec fn next(m: MediaDownloadModel, event: Event) -> (MediaDownloadModel, StepModel)
    recommends
        accepts(m.phase, event),
{
    match (m.phase, event) {
        (PhaseModel::Delegating, Event::Delegated(result)) => finished(
            m,
            Seq::empty(),
            result_model(result),
        ),
        (PhaseModel::Fetching, Event::DetailsFetched(Err(reason))) => finished(
            m,
            Seq::empty(),
            Err(ErrorModel::Decoding(reason@)),
        ),
        (PhaseModel::Fetching, Event::DetailsFetched(Ok(response))) => after_details(m, response),
        (PhaseModel::NamingVideo, Event::Named(Ok(filename))) => after_video_name(m, filename@),
        (PhaseModel::Listing { video_filename }, Event::Listed { entries, failure }) =>
        after_listing(m, video_filename, entries@, failure),
        (PhaseModel::NamingSubtitle { video_filename, files }, Event::Named(Ok(filename))) => (
            MediaDownloadModel {
                phase: PhaseModel::Checking { video_filename, files, subtitle_filename: filename@ },
                ..m
            },
            just(ActionModel::ProbeFile { path: join(m.directory, filename@) }),
        ),
        (
            PhaseModel::Checking { video_filename, files, subtitle_filename },
            Event::Probed(status),
        ) => after_check(m, video_filename, files, subtitle_filename, status),
        (
            PhaseModel::DownloadingVideo { video_path, subtitle_filename },
            Event::Downloaded(Ok(())),
        ) => after_video(m, video_path, subtitle_filename, Seq::empty()),
        (PhaseModel::Probing { video_path, subtitle_filename }, Event::Probed(status)) =>
        after_probe(m, video_path, subtitle_filename, status),
        (
            PhaseModel::DownloadingSubtitle { video_path, subtitle_path },
            Event::Downloaded(Ok(())),
        ) => after_subtitle(m, video_path, subtitle_path),
        (PhaseModel::Cleaning { video_path, subtitle_path }, Event::Cleaned(Ok(()))) =>
        after_cleaning(m, video_path, subtitle_path),
        (PhaseModel::Embedding { video_path }, Event::Embedded(result)) => {
            let (done, step) = finished(m, Seq::empty(), Ok(()));
            match result {
                Ok(()) => (done, step),
                Err(reason) => (
                    done,
                    StepModel {
                        warning: Some(embedding_failed_text(video_path, reason@)),
                        ..step
                    },
                ),
            }
        },
        (_, Event::Named(Err(error))) => finished(m, Seq::empty(), Err(error.deep_view())),
        (_, Event::Downloaded(Err(error))) => finished(m, Seq::empty(), Err(error.deep_view())),
        (_, Event::Cleaned(Err(error))) => finished(m, Seq::empty(), Err(error.deep_view())),
        _ => arbitrary(),
    }
}

/// How the download of `item` begins: yt-dlp is left to do it where it is there, and otherwise
/// the details of the item are fetched.
pub open spec fn start(item: MediaItemModel, settings: DownloadSettingsModel) -> (
    MediaDownloadModel,
    StepModel,
) {
    let m = MediaDownloadModel {
        item,
        directory: settings.directory,
        subtitle_mode: settings.subtitle_mode,
        missing_subtitle_policy: settings.missing_subtitle_policy,
        phase: PhaseModel::Delegating,
    };
    if settings.yt_dlp_available {
        (m, just(ActionModel::DelegateToYtDlp))
    } else {
        (
            MediaDownloadModel { phase: PhaseModel::Fetching, ..m },
            just(ActionModel::FetchDetails { url: single_media_url(item.id) }),
        )
    }
}

impl MediaDownload {
    /// Begins the download of `item`.
    pub fn start(item: MediaItem, settings: &DownloadSettings) -> (res: (MediaDownload, Step))
        ensures
            (res.0.deep_view(), res.1.deep_view()) == start(item.deep_view(), settings.deep_view()),
    {
        let (phase, action) = if settings.yt_dlp_available {
            (Phase::Delegating, Action::DelegateToYtDlp)
        } else {
            (Phase::Fetching, Action::FetchDetails { url: single_media_api_url(item.id) })
        };
        let m = MediaDownload {
            item,
            directory: settings.directory.clone(),
            subtitle_mode: settings.subtitle_mode,
            missing_subtitle_policy: settings.missing_subtitle_policy,
            phase,
        };
        (m, Step::just(action))
    }

    /// The item, with the URLs that are known by now.
    pub fn item(&self) -> (item: &MediaItem)
        ensures
            item.deep_view() == self.deep_view().item,
    {
        &self.item
    }

    /// How far the download is.
    pub fn phase(&self) -> (phase: &Phase)
        ensures
            phase.deep_view() == self.deep_view().phase,
    {
        &self.phase
    }

    /// Takes what came of the work that was asked for, and says what is to be done next.
    pub fn step(self, event: Event) -> (res: (MediaDownload, Step))
        requires
            accepts(self.deep_view().phase, event),
        ensures
            (res.0.deep_view(), res.1.deep_view()) == next(self.deep_view(), event),
    {
        let MediaDownload { item, directory, subtitle_mode, missing_subtitle_policy, phase } = self;
        let m = MediaDownload {
            item,
            directory,
            subtitle_mode,
            missing_subtitle_policy,
            phase: Phase::Finished,
        };
        match (phase, event) {
            (Phase::Delegating, Event::Delegated(result)) => m.finish(Vec::new(), result),
            (Phase::Fetching, Event::DetailsFetched(Err(reason))) => m.finish(
                Vec::new(),
                Err(Error::Decoding(reason)),
            ),
            (Phase::Fetching, Event::DetailsFetched(Ok(response))) => m.step_details(response),
            (Phase::NamingVideo, Event::Named(Ok(filename))) => m.step_video_name(filename),
            (Phase::Listing { video_filename }, Event::Listed { entries, failure }) =>
            m.step_listing(video_filename, entries, failure),
            (Phase::NamingSubtitle { video_filename, files }, Event::Named(Ok(filename))) => {
                let path = full_media_path(filename.as_str(), m.directory.as_str());
                let phase = Phase::Checking { video_filename, files, subtitle_filename: filename };
                (MediaDownload { phase, ..m }, Step::just(Action::ProbeFile { path }))
            },
            (
                Phase::Checking { video_filename, files, subtitle_filename },
                Event::Probed(status),
            ) => m.step_check(video_filename, files, subtitle_filename, status),
            (
                Phase::DownloadingVideo { video_path, subtitle_filename },
                Event::Downloaded(Ok(())),
            ) => m.step_video(video_path, subtitle_filename, Vec::new()),
            (Phase::Probing { video_path, subtitle_filename }, Event::Probed(status)) =>
            m.step_probe(video_path, subtitle_filename, status),
            (
                Phase::DownloadingSubtitle { video_path, subtitle_path },
                Event::Downloaded(Ok(())),
            ) => m.step_subtitle(video_path, subtitle_path),
            (Phase::Cleaning { video_path, subtitle_path }, Event::Cleaned(Ok(()))) =>
            m.step_cleaning(video_path, subtitle_path),
            (Phase::Embedding { video_path }, Event::Embedded(result)) => {
                let (done, step) = m.finish(Vec::new(), Ok(()));
                match result {
                    Ok(()) => (done, step),
                    Err(reason) => {
                        let mut warning = "Failed to embed subtitles into ".to_owned();
                        warning.append(video_path.as_str());
                        warning.append(": ");
                        warning.append(reason.as_str());
                        (done, Step { warning: Some(warning), ..step })
                    },
                }
            },
            (_, Event::Named(Err(error))) => m.finish(Vec::new(), Err(error)),
            (_, Event::Downloaded(Err(error))) => m.finish(Vec::new(), Err(error)),
            (_, Event::Cleaned(Err(error))) => m.finish(Vec::new(), Err(error)),
            _ => {
                assert(false);
                m.finish(Vec::new(), Ok(()))
            },
        }
    }

    /// Ends the download.
    fn finish(self, cleanup: Vec<String>, result: Result<(), Error>) -> (res: (
        MediaDownload,
        Step,
    ))
        ensures
            (res.0.deep_view(), res.1.deep_view()) == finished(
                self.deep_view(),
                cleanup.deep_view(),
                result_model(result),
            ),
    {
        (
            MediaDownload { phase: Phase::Finished, ..self },
            Step { warning: None, cleanup, action: Action::Finish { result } },
        )
    }

    /// Goes on from the details.
    fn step_details(self, response: SingleEpisodeRoot) -> (res: (MediaDownload, Step))
        ensures
            (res.0.deep_view(), res.1.deep_view()) == after_details(self.deep_view(), response),
    {
        let lacking = check_lacks_subtitles(&response, self.subtitle_mode);
        let mut warning: Option<String> = None;
        let mut verdict: Result<(), Error> = Ok(());
        if lacking {
            verdict =
            handle_missing_subtitles(self.item.title.as_str(), self.missing_subtitle_policy);
            warning = Some(missing_subtitles_warning(self.item.title.as_str()));
        }
        let item = apply_sources(self.item, &response);
        let known = MediaDownload { item, ..self };
        match verdict {
            Err(error) => known.finish(Vec::new(), Err(error)),
            Ok(()) => {
                let step = Step::just(Action::NameFile { extension: "mp4".to_owned() });
                (MediaDownload { phase: Phase::NamingVideo, ..known }, Step { warning, ..step })
            },
        }
    }

    /// Goes on from the name of the video.
    fn step_video_name(self, filename: String) -> (res: (MediaDownload, Step))
        ensures
            (res.0.deep_view(), res.1.deep_view()) == after_video_name(
                self.deep_view(),
                filename@,
            ),
    {
        let mut partial = full_media_path(filename.as_str(), self.directory.as_str());
        partial.append(".tmp");
        let mut cleanup: Vec<String> = Vec::new();
        cleanup.push(partial);
        assert(cleanup.deep_view() =~= seq![partial@]);
        if path_file_stem(filename.as_str()).is_none() {
            return self.finish(cleanup, Err(Error::InvalidPathEncoding(filename)));
        }
        let action = Action::ListDirectory { directory: self.directory.clone() };
        (
            MediaDownload { phase: Phase::Listing { video_filename: filename }, ..self },
            Step { cleanup, ..Step::just(action) },
        )
    }

    /// Goes on from the entries of the directory.
    fn step_listing(
        self,
        video_filename: String,
        entries: Vec<DirectoryEntry>,
        failure: Option<String>,
    ) -> (res: (MediaDownload, Step))
        ensures
            (res.0.deep_view(), res.1.deep_view()) == after_listing(
                self.deep_view(),
                video_filename@,
                entries@,
                failure,
            ),
    {
        match find_existing_video_files(video_filename.as_str(), self.directory.as_str(), &entries) {
            Ok(scan) => match failure {
                Some(reason) => self.finish(scan.leftovers, Err(Error::Downloading(reason))),
                None => {
                    let phase = Phase::NamingSubtitle { video_filename, files: scan.files };
                    let action = Action::NameFile { extension: "vtt".to_owned() };
                    (
                        MediaDownload { phase, ..self },
                        Step { cleanup: scan.leftovers, ..Step::just(action) },
                    )
                },
            },
            Err(error) => self.finish(Vec::new(), Err(error)),
        }
    }

    /// Goes on from what is stored of the item.
    fn step_check(
        self,
        video_filename: String,
        files: ExistingVideoFiles,
        subtitle_filename: String,
        status: FileStatus,
    ) -> (res: (MediaDownload, Step))
        ensures
            (res.0.deep_view(), res.1.deep_view()) == after_check(
                self.deep_view(),
                video_filename@,
                files.deep_view(),
                subtitle_filename@,
                status,
            ),
    {
        let cleanup = leftover_cleanup(
            full_media_path(subtitle_filename.as_str(), self.directory.as_str()),
            status,
        );
        if builtin_media_is_complete(&files, status.non_empty_file_exists(), self.subtitle_mode) {
            return self.finish(cleanup, Ok(()));
        }
        match files.reusable_video_path {
            Some(path) => self.step_video(path, subtitle_filename, cleanup),
            None => {
                let url = match &self.item.video_url {
                    Some(url) => url.clone(),
                    None => {
                        return self.finish(
                            cleanup,
                            Err(Error::MediaDoesNotHaveVideoUrl(video_filename)),
                        );
                    },
                };
                let path = full_media_path(video_filename.as_str(), self.directory.as_str());
                let phase = Phase::DownloadingVideo { video_path: path.clone(), subtitle_filename };
                let action = Action::DownloadVideo { url, path, label: video_filename };
                (MediaDownload { phase, ..self }, Step { cleanup, ..Step::just(action) })
            },
        }
    }

    /// Goes on from a stored video.
    fn step_video(self, video_path: String, subtitle_filename: String, cleanup: Vec<String>) -> (res:
        (MediaDownload, Step))
        ensures
            (res.0.deep_view(), res.1.deep_view()) == after_video(
                self.deep_view(),
                video_path@,
                subtitle_filename@,
                cleanup.deep_view(),
            ),
    {
        if self.subtitle_mode == SubtitleMode::Skip {
            return self.finish(cleanup, Ok(()));
        }
        let path = full_media_path(subtitle_filename.as_str(), self.directory.as_str());
        let phase = Phase::Probing { video_path, subtitle_filename };
        (
            MediaDownload { phase, ..self },
            Step { cleanup, ..Step::just(Action::ProbeFile { path }) },
        )
    }

    /// Goes on from what is known of the subtitle file.
    fn step_probe(self, video_path: String, subtitle_filename: String, status: FileStatus) -> (res:
        (MediaDownload, Step))
        ensures
            (res.0.deep_view(), res.1.deep_view()) == after_probe(
                self.deep_view(),
                video_path@,
                subtitle_filename@,
                status,
            ),
    {
        let subtitle_path = full_media_path(subtitle_filename.as_str(), self.directory.as_str());
        if status.non_empty_file_exists() {
            return self.step_subtitle(video_path, subtitle_path);
        }
        let cleanup = leftover_cleanup(subtitle_path.clone(), status);
        let url = match &self.item.subtitle_url {
            Some(url) => url.clone(),
            None => {
                return self.finish(cleanup, Ok(()));
            },
        };
        let action = Action::DownloadSubtitle {
            url,
            path: subtitle_path.clone(),
            label: subtitle_filename,
        };
        let phase = Phase::DownloadingSubtitle { video_path, subtitle_path };
        (MediaDownload { phase, ..self }, Step { cleanup, ..Step::just(action) })
    }

    /// Goes on from stored subtitles.
    fn step_subtitle(self, video_path: String, subtitle_path: String) -> (res: (
        MediaDownload,
        Step,
    ))
        ensures
            (res.0.deep_view(), res.1.deep_view()) == after_subtitle(
                self.deep_view(),
                video_path@,
                subtitle_path@,
            ),
    {
        let action = Action::CleanSubtitle { path: subtitle_path.clone() };
        let phase = Phase::Cleaning { video_path, subtitle_path };
        (MediaDownload { phase, ..self }, Step::just(action))
    }

    /// Goes on from clean subtitles.
    fn step_cleaning(self, video_path: String, subtitle_path: String) -> (res: (
        MediaDownload,
        Step,
    ))
        ensures
            (res.0.deep_view(), res.1.deep_view()) == after_cleaning(
                self.deep_view(),
                video_path@,
                subtitle_path@,
            ),
    {
        if self.subtitle_mode == SubtitleMode::Embed {
            let action = Action::EmbedSubtitle {
                video_path: video_path.clone(),
                subtitle_path,
                language: "ca".to_owned(),
            };
            (MediaDownload { phase: Phase::Embedding { video_path }, ..self }, Step::just(action))
        } else {
            self.finish(Vec::new(), Ok(()))
        }
    }
}

impl Step {
    /// The step that asks for `action` and nothing else.
    fn just(action: Action) -> (step: Step)
        ensures
            step.deep_view() == just(action.deep_view()),
    {
        let step = Step { warning: None, cleanup: Vec::new(), action };
        assert(step.cleanup.deep_view() =~= Seq::empty());
        step
    }
}

/// The path of a file, where it is an empty leftover.
fn leftover_cleanup(path: String, status: FileStatus) -> (cleanup: Vec<String>)
    ensures
        cleanup.deep_view() == leftover(path@, status),
{
    let mut cleanup: Vec<String> = Vec::new();
    if status.check_leftover() {
        cleanup.push(path);
    }
    assert(cleanup.deep_view() =~= leftover(path@, status));
    cleanup
}

} // verus!
