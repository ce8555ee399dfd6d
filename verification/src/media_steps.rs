//! What the download of a media item asks for: answer by answer, and as a whole.

use vstd::prelude::*;

use crate::api_structs::SingleEpisodeRoot;
use crate::downloader::{
    first_video, is_first_active, leftover_videos, lemma_sources, single_media_url, with_sources,
    DirectoryEntry, ExistingVideoFilesModel, FileStatus,
};
use crate::error::{result_model, Error, ErrorModel};
use crate::media_download::{
    accepts, next, start, ActionModel, Event, MediaDownloadModel, PhaseModel, StepModel,
};
use crate::media_laws::{is_stored_video, lemma_first_video_is_first, rank};
use crate::models::{DownloadSettingsModel, MediaItemModel, SubtitleMode};
use crate::paths::{file_stem, join};

verus! {

// ---------------------------------------------------------------------------
// Answer by answer
// ---------------------------------------------------------------------------
/// Whether a step does nothing but ask for `action`.
pub open spec fn only_asks_for(step: StepModel, action: ActionModel) -> bool {
    &&& step.action == action
    &&& step.warning is None
    &&& step.cleanup.len() == 0
}

/// Whether a step asks for `action`, and has the file `path` removed exactly where it is empty.
pub open spec fn asks_and_tidies(
    step: StepModel,
    action: ActionModel,
    path: Seq<char>,
    status: FileStatus,
) -> bool {
    &&& step.action == action
    &&& step.warning is None
    &&& if status == FileStatus::Size(0) {
        step.cleanup == seq![path]
    } else {
        step.cleanup.len() == 0
    }
}

/// Whether a file with this status is there and not known to be empty.
pub open spec fn is_there(status: FileStatus) -> bool {
    status != FileStatus::Absent && status != FileStatus::Size(0)
}

/// A download begins with the item and the settings that it is given. It asks yt-dlp to do it
/// where that is there, and otherwise for the details of that item.
pub proof fn lemma_beginning(item: MediaItemModel, settings: DownloadSettingsModel)
    ensures
        ({
            let (m, step) = start(item, settings);
            &&& m.item == item
            &&& m.directory == settings.directory
            &&& m.subtitle_mode == settings.subtitle_mode
            &&& m.missing_subtitle_policy == settings.missing_subtitle_policy
            &&& if settings.yt_dlp_available {
                m.phase is Delegating && only_asks_for(step, ActionModel::DelegateToYtDlp)
            } else {
                m.phase is Fetching && only_asks_for(
                    step,
                    ActionModel::FetchDetails { url: single_media_url(item.id) },
                )
            }
        }),
{
}

/// What a download was told at its beginning stays as it is. Only the details of an item change
/// the item.
pub proof fn lemma_what_stays(m: MediaDownloadModel, event: Event)
    requires
        accepts(m.phase, event),
    ensures
        next(m, event).0.directory == m.directory,
        next(m, event).0.subtitle_mode == m.subtitle_mode,
        next(m, event).0.missing_subtitle_policy == m.missing_subtitle_policy,
        !(event is DetailsFetched) ==> next(m, event).0.item == m.item,
{
}

/// Work that fails ends the download with the error of that work, with one exception: a video that
/// its subtitles could not be embedded into is there, and that is only worth a warning.
pub proof fn lemma_failures(m: MediaDownloadModel, event: Event)
    requires
        accepts(m.phase, event),
    ensures
        ({
            let (after, step) = next(m, event);
            let ends = |error: ErrorModel|
                after.phase is Finished && only_asks_for(
                    step,
                    ActionModel::Finish { result: Err(error) },
                );
            match event {
                Event::Delegated(result) => after.phase is Finished && only_asks_for(
                    step,
                    ActionModel::Finish { result: result_model(result) },
                ),
                Event::DetailsFetched(Err(reason)) => ends(ErrorModel::Decoding(reason@)),
                Event::Named(Err(error)) => ends(error.deep_view()),
                Event::Downloaded(Err(error)) => ends(error.deep_view()),
                Event::Cleaned(Err(error)) => ends(error.deep_view()),
                Event::Embedded(Err(reason)) => {
                    &&& after.phase is Finished
                    &&& step.action == (ActionModel::Finish { result: Ok(()) })
                    &&& step.cleanup.len() == 0
                    &&& m.phase matches PhaseModel::Embedding { video_path } && step.warning == Some(
                        "Failed to embed subtitles into "@ + video_path + ": "@ + reason@,
                    )
                },
                _ => true,
            }
        }),
{
}

/// Once the details are there, the name of the video file is asked for, and the item has the video
/// file and the subtitle track that the details put first. Where subtitles are wanted and there is
/// no track, the download ends with an error that names the item, or goes on with a warning that
/// does where they may be missing.
pub proof fn lemma_after_details(m: MediaDownloadModel, response: SingleEpisodeRoot)
    requires
        m.phase is Fetching,
    ensures
        ({
            let (after, step) = next(m, Event::DetailsFetched(Ok(response)));
            let urls = response.media.url@;
            let has_track = response.subtitles matches Some(tracks) && tracks@.len() > 0;
            let lacking = !(m.subtitle_mode is Skip) && !has_track;
            &&& step.cleanup.len() == 0
            &&& if lacking && m.missing_subtitle_policy is Strict {
                &&& after.phase is Finished
                &&& step.warning is None
                &&& step.action == (ActionModel::Finish {
                    result: Err(ErrorModel::NoSubtitlesAvailable(m.item.title)),
                })
            } else {
                &&& after.phase is NamingVideo
                &&& step.action == (ActionModel::NameFile { extension: "mp4"@ })
                &&& step.warning == if lacking {
                    Some(
                        "Subtitles requested for \""@ + m.item.title
                            + "\" but none were available; continuing without subtitles"@,
                    )
                } else {
                    None
                }
            }
            &&& forall|i: int| #[trigger]
                is_first_active(urls, i) ==> after.item.video_url == Some(urls[i].file@)
            &&& (forall|i: int| 0 <= i < urls.len() ==> !(#[trigger] urls[i]).active)
                ==> after.item.video_url == m.item.video_url
            &&& after.item.subtitle_url == if has_track {
                Some(response.subtitles->0@[0].url@)
            } else {
                m.item.subtitle_url
            }
            &&& after.item.id == m.item.id
            &&& after.item.title == m.item.title
            &&& after.item.episode_number == m.item.episode_number
            &&& after.item.tv_show_name == m.item.tv_show_name
        }),
{
    lemma_sources(m.item, response);
}

/// Once the video file has a name, what an interrupted transfer left of it is removed, and the
/// directory is listed. A name without a stem ends the download.
pub proof fn lemma_after_video_name(m: MediaDownloadModel, filename: String)
    requires
        m.phase is NamingVideo,
    ensures
        ({
            let (after, step) = next(m, Event::Named(Ok(filename)));
            &&& step.warning is None
            &&& step.cleanup == seq![join(m.directory, filename@) + ".tmp"@]
            &&& if file_stem(filename@) is Some {
                &&& after.phase == (PhaseModel::Listing { video_filename: filename@ })
                &&& step.action == (ActionModel::ListDirectory { directory: m.directory })
            } else {
                &&& after.phase is Finished
                &&& step.action == (ActionModel::Finish {
                    result: Err(ErrorModel::InvalidPathEncoding(filename@)),
                })
            }
        }),
{
}

/// Whether `path` is that of the first entry that is a stored video of the item, of the kind with
/// embedded subtitles or of the other one; none where there is no such entry.
pub open spec fn is_first_video(
    path: Option<Seq<char>>,
    entries: Seq<DirectoryEntry>,
    stem: Seq<char>,
    directory: Seq<char>,
    embedded: bool,
) -> bool {
    match path {
        Some(path) => exists|i: int|
            0 <= i < entries.len() && is_stored_video(#[trigger] entries[i], stem, embedded) && path
                == join(directory, entries[i].name@) && forall|j: int|
                0 <= j < i ==> !is_stored_video(#[trigger] entries[j], stem, embedded),
        None => forall|i: int|
            0 <= i < entries.len() ==> !is_stored_video(#[trigger] entries[i], stem, embedded),
    }
}

/// Once the directory is listed, empty videos of the item are removed, and the first stored one of
/// each kind is kept in mind while the name of the subtitle file is asked for. Where the listing
/// failed, the download ends after that.
pub proof fn lemma_after_listing(
    m: MediaDownloadModel,
    video_filename: Seq<char>,
    entries: Vec<DirectoryEntry>,
    failure: Option<String>,
)
    requires
        m.phase == (PhaseModel::Listing { video_filename }),
        file_stem(video_filename) is Some,
    ensures
        ({
            let (after, step) = next(m, Event::Listed { entries, failure });
            let stem = file_stem(video_filename)->0;
            &&& step.warning is None
            &&& step.cleanup == leftover_videos(entries@, stem, m.directory)
            &&& match failure {
                Some(reason) => {
                    &&& after.phase is Finished
                    &&& step.action == (ActionModel::Finish {
                        result: Err(ErrorModel::Downloading(reason@)),
                    })
                },
                None => {
                    &&& step.action == (ActionModel::NameFile { extension: "vtt"@ })
                    &&& after.phase is NamingSubtitle
                    &&& after.phase->NamingSubtitle_video_filename == video_filename
                    &&& is_first_video(
                        after.phase->NamingSubtitle_files.reusable_video_path,
                        entries@,
                        stem,
                        m.directory,
                        false,
                    )
                    &&& is_first_video(
                        after.phase->NamingSubtitle_files.embedded_video_path,
                        entries@,
                        stem,
                        m.directory,
                        true,
                    )
                },
            }
        }),
{
    let stem = file_stem(video_filename)->0;
    lemma_first_video_is_first(entries@, stem, m.directory, false);
    lemma_first_video_is_first(entries@, stem, m.directory, true);
}

/// Videos cannot be searched for under a name without a stem: the download ends with an error that
/// says which name that was.
pub proof fn lemma_listing_without_a_stem(
    m: MediaDownloadModel,
    video_filename: Seq<char>,
    entries: Vec<DirectoryEntry>,
    failure: Option<String>,
)
    requires
        m.phase == (PhaseModel::Listing { video_filename }),
        file_stem(video_filename) is None,
    ensures
        next(m, Event::Listed { entries, failure }).0.phase is Finished,
        only_asks_for(
            next(m, Event::Listed { entries, failure }).1,
            ActionModel::Finish { result: Err(ErrorModel::InvalidPathEncoding(video_filename)) },
        ),
{
}

/// Once the subtitle file has a name, it is looked up in the directory, and everything that was
/// found before is kept.
pub proof fn lemma_after_subtitle_name(
    m: MediaDownloadModel,
    video_filename: Seq<char>,
    files: ExistingVideoFilesModel,
    filename: String,
)
    requires
        m.phase == (PhaseModel::NamingSubtitle { video_filename, files }),
    ensures
        next(m, Event::Named(Ok(filename))).0.phase == (PhaseModel::Checking {
            video_filename,
            files,
            subtitle_filename: filename@,
        }),
        only_asks_for(
            next(m, Event::Named(Ok(filename))).1,
            ActionModel::ProbeFile { path: join(m.directory, filename@) },
        ),
{
}

/// Once it is known what is stored of the item, the download ends well exactly where nothing is
/// left to do for its mode: with a video where subtitles are skipped, with a video and its
/// subtitles where they are stored next to it, and with a video that has them embedded where they
/// are to be. Otherwise a stored video that subtitles can be added to is gone on with, and only
/// where there is none is the video downloaded, or missed.
pub proof fn lemma_after_check(
    m: MediaDownloadModel,
    video_filename: Seq<char>,
    files: ExistingVideoFilesModel,
    subtitle_filename: Seq<char>,
    status: FileStatus,
)
    requires
        m.phase == (PhaseModel::Checking { video_filename, files, subtitle_filename }),
    ensures
        ({
            let (after, step) = next(m, Event::Probed(status));
            let subtitle_path = join(m.directory, subtitle_filename);
            let video_path = join(m.directory, video_filename);
            let complete = match m.subtitle_mode {
                SubtitleMode::Skip => files.reusable_video_path is Some,
                SubtitleMode::Download => files.reusable_video_path is Some && is_there(status),
                SubtitleMode::Embed => files.embedded_video_path is Some,
            };
            let asks = |action: ActionModel| asks_and_tidies(step, action, subtitle_path, status);
            &&& step.action == (ActionModel::Finish { result: Ok(()) }) <==> complete
            &&& step.action is Finish <==> after.phase is Finished
            &&& complete ==> asks(ActionModel::Finish { result: Ok(()) })
            &&& !complete ==> match (files.reusable_video_path, m.item.video_url) {
                (Some(path), _) => {
                    &&& asks(ActionModel::ProbeFile { path: subtitle_path })
                    &&& after.phase == (PhaseModel::Probing { video_path: path, subtitle_filename })
                },
                (None, Some(url)) => {
                    &&& asks(
                        ActionModel::DownloadVideo { url, path: video_path, label: video_filename },
                    )
                    &&& after.phase == (PhaseModel::DownloadingVideo {
                        video_path,
                        subtitle_filename,
                    })
                },
                (None, None) => asks(
                    ActionModel::Finish {
                        result: Err(ErrorModel::MediaDoesNotHaveVideoUrl(video_filename)),
                    },
                ),
            }
        }),
{
}

/// Once the video is downloaded, the download is over where subtitles are skipped, and otherwise
/// the subtitle file is looked up.
pub proof fn lemma_after_video(
    m: MediaDownloadModel,
    video_path: Seq<char>,
    subtitle_filename: Seq<char>,
)
    requires
        m.phase == (PhaseModel::DownloadingVideo { video_path, subtitle_filename }),
    ensures
        ({
            let (after, step) = next(m, Event::Downloaded(Ok(())));
            if m.subtitle_mode is Skip {
                after.phase is Finished && only_asks_for(
                    step,
                    ActionModel::Finish { result: Ok(()) },
                )
            } else {
                &&& after.phase == (PhaseModel::Probing { video_path, subtitle_filename })
                &&& only_asks_for(
                    step,
                    ActionModel::ProbeFile { path: join(m.directory, subtitle_filename) },
                )
            }
        }),
{
}

/// Once it is known whether the subtitle file is there, it is cleaned where it is. Where it is not,
/// it is downloaded from the URL of the item, and the download is over where the item has none.
pub proof fn lemma_after_probe(
    m: MediaDownloadModel,
    video_path: Seq<char>,
    subtitle_filename: Seq<char>,
    status: FileStatus,
)
    requires
        m.phase == (PhaseModel::Probing { video_path, subtitle_filename }),
    ensures
        ({
            let (after, step) = next(m, Event::Probed(status));
            let path = join(m.directory, subtitle_filename);
            let asks = |action: ActionModel| asks_and_tidies(step, action, path, status);
            if is_there(status) {
                &&& asks(ActionModel::CleanSubtitle { path })
                &&& after.phase == (PhaseModel::Cleaning { video_path, subtitle_path: path })
            } else {
                match m.item.subtitle_url {
                    Some(url) => {
                        &&& asks(
                            ActionModel::DownloadSubtitle { url, path, label: subtitle_filename },
                        )
                        &&& after.phase == (PhaseModel::DownloadingSubtitle {
                            video_path,
                            subtitle_path: path,
                        })
                    },
                    None => after.phase is Finished && asks(
                        ActionModel::Finish { result: Ok(()) },
                    ),
                }
            }
        }),
{
}

/// Subtitles that were downloaded are cleaned. Subtitles that are clean are embedded into the
/// video, as Catalan ones, exactly where they are to be. After that the download is over.
pub proof fn lemma_after_subtitles(
    m: MediaDownloadModel,
    video_path: Seq<char>,
    subtitle_path: Seq<char>,
)
    ensures
        m.phase == (PhaseModel::DownloadingSubtitle { video_path, subtitle_path }) ==> {
            let (after, step) = next(m, Event::Downloaded(Ok(())));
            &&& after.phase == (PhaseModel::Cleaning { video_path, subtitle_path })
            &&& only_asks_for(step, ActionModel::CleanSubtitle { path: subtitle_path })
        },
        m.phase == (PhaseModel::Cleaning { video_path, subtitle_path }) ==> {
            let (after, step) = next(m, Event::Cleaned(Ok(())));
            if m.subtitle_mode is Embed {
                &&& after.phase == (PhaseModel::Embedding { video_path })
                &&& only_asks_for(
                    step,
                    ActionModel::EmbedSubtitle { video_path, subtitle_path, language: "ca"@ },
                )
            } else {
                after.phase is Finished && only_asks_for(
                    step,
                    ActionModel::Finish { result: Ok(()) },
                )
            }
        },
        m.phase == (PhaseModel::Embedding { video_path }) ==> {
            let (after, step) = next(m, Event::Embedded(Ok(())));
            after.phase is Finished && only_asks_for(step, ActionModel::Finish { result: Ok(()) })
        },
{
}

/// What a download asks for can be answered, whatever comes of it, and nothing is taken once it is
/// over.
pub proof fn lemma_answers_are_taken(m: MediaDownloadModel, event: Event)
    requires
        accepts(m.phase, event),
    ensures
        ({
            let (after, step) = next(m, event);
            match step.action {
                ActionModel::DelegateToYtDlp => false,
                ActionModel::FetchDetails { .. } => false,
                ActionModel::NameFile { .. } => forall|r: Result<String, Error>| #[trigger]
                    accepts(after.phase, Event::Named(r)),
                ActionModel::ListDirectory { .. } => forall|
                    entries: Vec<DirectoryEntry>,
                    failure: Option<String>,
                | #[trigger]
                    accepts(after.phase, Event::Listed { entries, failure }),
                ActionModel::ProbeFile { .. } => forall|status: FileStatus| #[trigger]
                    accepts(after.phase, Event::Probed(status)),
                ActionModel::DownloadVideo { .. } => forall|r: Result<(), Error>| #[trigger]
                    accepts(after.phase, Event::Downloaded(r)),
                ActionModel::DownloadSubtitle { .. } => forall|r: Result<(), Error>| #[trigger]
                    accepts(after.phase, Event::Downloaded(r)),
                ActionModel::CleanSubtitle { .. } => forall|r: Result<(), Error>| #[trigger]
                    accepts(after.phase, Event::Cleaned(r)),
                ActionModel::EmbedSubtitle { .. } => forall|r: Result<(), String>| #[trigger]
                    accepts(after.phase, Event::Embedded(r)),
                ActionModel::Finish { .. } => forall|e: Event| !(#[trigger] accepts(after.phase, e)),
            }
        }),
{
}

// ---------------------------------------------------------------------------
// As a whole
// ---------------------------------------------------------------------------
/// What a download finds around it: how each piece of work that it may ask for comes out.
pub struct ItemSurroundings {
    /// What comes of leaving the download to yt-dlp.
    pub delegation: Result<(), Error>,
    /// The details of the item.
    pub details: Result<SingleEpisodeRoot, String>,
    /// The name of the video file.
    pub video_name: Result<String, Error>,
    /// The entries of the directory that can be read.
    pub entries: Vec<DirectoryEntry>,
    /// Why no more of them can.
    pub unlisted: Option<String>,
    /// The name of the subtitle file.
    pub subtitle_name: Result<String, Error>,
    /// What is known of the subtitle file when it is looked up first.
    pub subtitle_at_first: FileStatus,
    /// What is known of it once the video is there.
    pub subtitle_later: FileStatus,
    /// What comes of the download of the video.
    pub video: Result<(), Error>,
    /// What comes of the download of the subtitles.
    pub subtitle: Result<(), Error>,
    /// What comes of cleaning the subtitles.
    pub cleaning: Result<(), Error>,
    /// What comes of embedding them.
    pub embedding: Result<(), String>,
}

/// The answer to what the machine asked for when it entered `phase`.
pub open spec fn answer(phase: PhaseModel, around: ItemSurroundings) -> Event {
    match phase {
        PhaseModel::Delegating => Event::Delegated(around.delegation),
        PhaseModel::Fetching => Event::DetailsFetched(around.details),
        PhaseModel::NamingVideo => Event::Named(around.video_name),
        PhaseModel::Listing { .. } => Event::Listed {
            entries: around.entries,
            failure: around.unlisted,
        },
        PhaseModel::NamingSubtitle { .. } => Event::Named(around.subtitle_name),
        PhaseModel::Checking { .. } => Event::Probed(around.subtitle_at_first),
        PhaseModel::DownloadingVideo { .. } => Event::Downloaded(around.video),
        PhaseModel::Probing { .. } => Event::Probed(around.subtitle_later),
        PhaseModel::DownloadingSubtitle { .. } => Event::Downloaded(around.subtitle),
        PhaseModel::Cleaning { .. } => Event::Cleaned(around.cleaning),
        PhaseModel::Embedding { .. } => Event::Embedded(around.embedding),
        PhaseModel::Finished => arbitrary(),
    }
}

/// All that the machine asks for from `action` on, to its end.
pub open spec fn course(
    m: MediaDownloadModel,
    action: ActionModel,
    around: ItemSurroundings,
) -> Seq<ActionModel>
    decreases rank(m.phase),
{
    if m.phase is Finished {
        seq![action]
    } else {
        let (after, step) = next(m, answer(m.phase, around));
        seq![action] + course(after, step.action, around)
    }
}

/// `rest`, with `action` before it where that is asked for.
pub open spec fn asking(asked: bool, action: ActionModel, rest: Seq<ActionModel>) -> Seq<
    ActionModel,
> {
    if asked {
        seq![action] + rest
    } else {
        rest
    }
}

/// The end of a download.
pub open spec fn ending(result: Result<(), ErrorModel>) -> Seq<ActionModel> {
    seq![ActionModel::Finish { result }]
}

/// All that a download asks for once its video is there: the subtitle file is looked up, is
/// downloaded where it is not there and can be had, is cleaned where it is there then, and is
/// embedded where it is clean and that is wanted.
pub proof fn lemma_course_after_the_video(
    m: MediaDownloadModel,
    video_path: Seq<char>,
    subtitle_filename: Seq<char>,
    action: ActionModel,
    around: ItemSurroundings,
)
    requires
        m.phase == (PhaseModel::Probing { video_path, subtitle_filename }),
    ensures
        ({
            let path = join(m.directory, subtitle_filename);
            let there = is_there(around.subtitle_later);
            let fetched = !there && m.item.subtitle_url is Some;
            let stored = there || (fetched && around.subtitle is Ok);
            let clean = stored && around.cleaning is Ok;
            course(m, action, around) == seq![action] + asking(
                fetched,
                ActionModel::DownloadSubtitle {
                    url: m.item.subtitle_url->0,
                    path,
                    label: subtitle_filename,
                },
                asking(
                    stored,
                    ActionModel::CleanSubtitle { path },
                    asking(
                        clean && m.subtitle_mode is Embed,
                        ActionModel::EmbedSubtitle {
                            video_path,
                            subtitle_path: path,
                            language: "ca"@,
                        },
                        ending(
                            if fetched && around.subtitle is Err {
                                result_model(around.subtitle)
                            } else if stored && around.cleaning is Err {
                                result_model(around.cleaning)
                            } else {
                                Ok(())
                            },
                        ),
                    ),
                ),
            )
        }),
{
    reveal_with_fuel(course, 5);
}

/// All that a download asks for once it is known what is stored: nothing where that is all there
/// is to it, and otherwise the video, unless a stored one is gone on with, and then the subtitles.
pub proof fn lemma_course_after_the_check(
    m: MediaDownloadModel,
    video_filename: Seq<char>,
    files: ExistingVideoFilesModel,
    subtitle_filename: Seq<char>,
    action: ActionModel,
    around: ItemSurroundings,
)
    requires
        m.phase == (PhaseModel::Checking { video_filename, files, subtitle_filename }),
    ensures
        ({
            let mode = m.subtitle_mode;
            let path = join(m.directory, subtitle_filename);
            let new_path = join(m.directory, video_filename);
            let complete = if mode is Embed {
                files.embedded_video_path is Some
            } else {
                files.reusable_video_path is Some && (mode is Download ==> is_there(
                    around.subtitle_at_first,
                ))
            };
            let reused = files.reusable_video_path is Some;
            let video_path = if reused {
                files.reusable_video_path->0
            } else {
                new_path
            };
            let fetched_video = !complete && !reused && m.item.video_url is Some;
            let has_video = !complete && (reused || (fetched_video && around.video is Ok));
            let wanted = has_video && !(mode is Skip);
            let there = is_there(around.subtitle_later);
            let fetched = wanted && !there && m.item.subtitle_url is Some;
            let stored = wanted && (there || (fetched && around.subtitle is Ok));
            let clean = stored && around.cleaning is Ok;
            course(m, action, around) == seq![action] + asking(
                fetched_video,
                ActionModel::DownloadVideo {
                    url: m.item.video_url->0,
                    path: new_path,
                    label: video_filename,
                },
                asking(
                    wanted,
                    ActionModel::ProbeFile { path },
                    asking(
                        fetched,
                        ActionModel::DownloadSubtitle {
                            url: m.item.subtitle_url->0,
                            path,
                            label: subtitle_filename,
                        },
                        asking(
                            stored,
                            ActionModel::CleanSubtitle { path },
                            asking(
                                clean && mode is Embed,
                                ActionModel::EmbedSubtitle {
                                    video_path,
                                    subtitle_path: path,
                                    language: "ca"@,
                                },
                                ending(
                                    if !complete && !reused && !fetched_video {
                                        Err(ErrorModel::MediaDoesNotHaveVideoUrl(video_filename))
                                    } else if fetched_video && around.video is Err {
                                        result_model(around.video)
                                    } else if fetched && around.subtitle is Err {
                                        result_model(around.subtitle)
                                    } else if stored && around.cleaning is Err {
                                        result_model(around.cleaning)
                                    } else {
                                        Ok(())
                                    },
                                ),
                            ),
                        ),
                    ),
                ),
            )
        }),
{
    let (after, step) = next(m, answer(m.phase, around));
    lemma_after_check(m, video_filename, files, subtitle_filename, around.subtitle_at_first);
    let rest = course(after, step.action, around);
    assert(course(m, action, around) == seq![action] + rest);
    if after.phase is Probing {
        lemma_course_after_the_video(
            after,
            after.phase->Probing_video_path,
            after.phase->Probing_subtitle_filename,
            step.action,
            around,
        );
    } else if after.phase is DownloadingVideo {
        let (last, last_step) = next(after, answer(after.phase, around));
        let end = course(last, last_step.action, around);
        assert(rest == seq![step.action] + end);
        if last.phase is Probing {
            lemma_course_after_the_video(
                last,
                last.phase->Probing_video_path,
                last.phase->Probing_subtitle_filename,
                last_step.action,
                around,
            );
        } else {
            assert(end == seq![last_step.action]);
        }
    } else {
        assert(rest == seq![step.action]);
    }
}

/// All that a download asks for up to the point where it is known what is stored, and how it ends
/// where it does not get there. `m` is where it stands then.
pub proof fn lemma_course_up_to_the_check(
    item: MediaItemModel,
    settings: DownloadSettingsModel,
    around: ItemSurroundings,
)
    requires
        !settings.yt_dlp_available,
    ensures
        ({
            let (begun, step) = start(item, settings);
            let response = around.details->Ok_0;
            let has_track = response.subtitles matches Some(tracks) && tracks@.len() > 0;
            let refused = !(settings.subtitle_mode is Skip) && !has_track
                && settings.missing_subtitle_policy is Strict;
            let name = around.video_name->Ok_0@;
            let other_name = around.subtitle_name->Ok_0@;
            let described = around.details is Ok && !refused;
            let named = described && around.video_name is Ok;
            let searched = named && file_stem(name) is Some;
            let listed = searched && around.unlisted is None;
            let checked = listed && around.subtitle_name is Ok;
            let stem = file_stem(name)->0;
            let probe = ActionModel::ProbeFile { path: join(settings.directory, other_name) };
            let m = MediaDownloadModel {
                item: with_sources(item, response),
                directory: settings.directory,
                subtitle_mode: settings.subtitle_mode,
                missing_subtitle_policy: settings.missing_subtitle_policy,
                phase: PhaseModel::Checking {
                    video_filename: name,
                    files: ExistingVideoFilesModel {
                        reusable_video_path: first_video(
                            around.entries@,
                            stem,
                            settings.directory,
                            false,
                        ),
                        embedded_video_path: first_video(
                            around.entries@,
                            stem,
                            settings.directory,
                            true,
                        ),
                    },
                    subtitle_filename: other_name,
                },
            };
            course(begun, step.action, around) == seq![
                ActionModel::FetchDetails { url: single_media_url(item.id) },
            ] + asking(
                described,
                ActionModel::NameFile { extension: "mp4"@ },
                asking(
                    searched,
                    ActionModel::ListDirectory { directory: settings.directory },
                    asking(
                        listed,
                        ActionModel::NameFile { extension: "vtt"@ },
                        if checked {
                            course(m, probe, around)
                        } else {
                            ending(
                                Err(
                                    if around.details is Err {
                                        ErrorModel::Decoding(around.details->Err_0@)
                                    } else if refused {
                                        ErrorModel::NoSubtitlesAvailable(item.title)
                                    } else if around.video_name is Err {
                                        around.video_name->Err_0.deep_view()
                                    } else if file_stem(name) is None {
                                        ErrorModel::InvalidPathEncoding(name)
                                    } else if around.unlisted is Some {
                                        ErrorModel::Downloading(around.unlisted->0@)
                                    } else {
                                        around.subtitle_name->Err_0.deep_view()
                                    },
                                ),
                            )
                        },
                    ),
                ),
            )
        }),
{
    reveal_with_fuel(course, 6);
}

/// Where yt-dlp is there, it is asked to do the download, and nothing else is asked for.
pub proof fn lemma_course_of_a_delegation(
    item: MediaItemModel,
    settings: DownloadSettingsModel,
    around: ItemSurroundings,
)
    requires
        settings.yt_dlp_available,
    ensures
        ({
            let (begun, step) = start(item, settings);
            course(begun, step.action, around) == seq![ActionModel::DelegateToYtDlp] + ending(
                result_model(around.delegation),
            )
        }),
{
    reveal_with_fuel(course, 3);
}

} // verus!
