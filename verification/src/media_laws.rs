//! What holds of every download of a media item, whatever the work on the way comes to.

use vstd::prelude::*;

use crate::api_structs::SingleEpisodeRoot;
use crate::downloader::{
    first_video, is_complete, is_embedded, is_video_extension, is_video_of, lacks_subtitles,
    leftover_videos, video_scan, DirectoryEntry, ExistingVideoFilesModel, FileStatus,
};
use crate::error::{result_model, Error, ErrorModel};
use crate::media_download::{
    accepts, next, start, ActionModel, Event, MediaDownloadModel, PhaseModel, StepModel,
};
use crate::models::{DownloadSettingsModel, MediaItemModel, SubtitleMode};
use crate::paths::{file_stem, is_plain_name, join, lemma_stem_and_extension};
use crate::transfer::temporary_path;

verus! {

// ---------------------------------------------------------------------------
// Runs of the machine
// ---------------------------------------------------------------------------
/// Whether each event is an answer to what the machine asked for before it.
pub open spec fn answers(m: MediaDownloadModel, events: Seq<Event>) -> bool
    decreases events.len(),
{
    events.len() > 0 ==> {
        &&& accepts(m.phase, events.first())
        &&& answers(next(m, events.first()).0, events.drop_first())
    }
}

/// What the machine asks for after each event.
pub open spec fn steps(m: MediaDownloadModel, events: Seq<Event>) -> Seq<StepModel>
    decreases events.len(),
{
    if events.len() == 0 {
        Seq::empty()
    } else {
        let (after, step) = next(m, events.first());
        seq![step] + steps(after, events.drop_first())
    }
}

/// The machine after all events.
pub open spec fn outcome(m: MediaDownloadModel, events: Seq<Event>) -> MediaDownloadModel
    decreases events.len(),
{
    if events.len() == 0 {
        m
    } else {
        outcome(next(m, events.first()).0, events.drop_first())
    }
}

/// The steps of a run are the first one and those of the rest.
proof fn lemma_steps_unfold(m: MediaDownloadModel, events: Seq<Event>)
    requires
        events.len() > 0,
    ensures
        steps(m, events).len() == 1 + steps(next(m, events.first()).0, events.drop_first()).len(),
        steps(m, events)[0] == next(m, events.first()).1,
        forall|i: int|
            #![trigger steps(m, events)[i]]
            0 < i < steps(m, events).len() ==> steps(m, events)[i] == steps(
                next(m, events.first()).0,
                events.drop_first(),
            )[i - 1],
{
}

/// The largest number of answers that the machine can still ask for.
pub open spec fn rank(phase: PhaseModel) -> nat {
    match phase {
        PhaseModel::Delegating => 1,
        PhaseModel::Fetching => 10,
        PhaseModel::NamingVideo => 9,
        PhaseModel::Listing { .. } => 8,
        PhaseModel::NamingSubtitle { .. } => 7,
        PhaseModel::Checking { .. } => 6,
        PhaseModel::DownloadingVideo { .. } => 5,
        PhaseModel::Probing { .. } => 4,
        PhaseModel::DownloadingSubtitle { .. } => 3,
        PhaseModel::Cleaning { .. } => 2,
        PhaseModel::Embedding { .. } => 1,
        PhaseModel::Finished => 0,
    }
}

/// A download comes to an end: every answer brings it nearer, so that it takes no more answers
/// than its rank. It has ended exactly when it takes no answer any more, and it says so with
/// the last thing it asks for.
pub proof fn lemma_download_ends(m: MediaDownloadModel, events: Seq<Event>)
    requires
        answers(m, events),
    ensures
        events.len() + rank(outcome(m, events).phase) <= rank(m.phase),
        steps(m, events).len() == events.len(),
        forall|i: int|
            0 <= i < events.len() ==> ((#[trigger] steps(m, events)[i]).action is Finish <==> (i
                == events.len() - 1 && outcome(m, events).phase is Finished)),
    decreases events.len(),
{
    if events.len() > 0 {
        let (after, step) = next(m, events.first());
        let rest = events.drop_first();
        lemma_download_ends(after, rest);
        lemma_steps_unfold(m, events);
        assert(rank(after.phase) < rank(m.phase));
        assert(step.action is Finish <==> after.phase is Finished);
        if after.phase is Finished {
            assert(rest.len() == 0);
        }
        assert forall|i: int| 0 <= i < events.len() implies ((#[trigger] steps(
            m,
            events,
        )[i]).action is Finish <==> (i == events.len() - 1 && outcome(m, events).phase is Finished)) by {
            if i > 0 {
                assert(steps(m, events)[i] == steps(after, rest)[i - 1]);
            }
        }
    }
}

// ---------------------------------------------------------------------------
// Delegation
// ---------------------------------------------------------------------------
/// Where yt-dlp is there, it does all the work: nothing else is asked for, and its result is
/// the result of the download.
pub proof fn lemma_yt_dlp_does_everything(
    item: MediaItemModel,
    settings: DownloadSettingsModel,
    result: Result<(), Error>,
)
    requires
        settings.yt_dlp_available,
    ensures
        start(item, settings).1.action is DelegateToYtDlp,
        accepts(start(item, settings).0.phase, Event::Delegated(result)),
        next(start(item, settings).0, Event::Delegated(result)).1.action == (ActionModel::Finish {
            result: result_model(result),
        }),
{
}

/// Where yt-dlp is not there, it is never asked for.
pub proof fn lemma_built_in_download_never_delegates(
    item: MediaItemModel,
    settings: DownloadSettingsModel,
    events: Seq<Event>,
)
    requires
        !settings.yt_dlp_available,
        answers(start(item, settings).0, events),
    ensures
        !(start(item, settings).1.action is DelegateToYtDlp),
        forall|i: int|
            0 <= i < events.len() ==> !((#[trigger] steps(
                start(item, settings).0,
                events,
            )[i]).action is DelegateToYtDlp),
{
    lemma_never_delegates(start(item, settings).0, events);
}

proof fn lemma_never_delegates(m: MediaDownloadModel, events: Seq<Event>)
    requires
        answers(m, events),
    ensures
        steps(m, events).len() == events.len(),
        forall|i: int|
            0 <= i < events.len() ==> !((#[trigger] steps(m, events)[i]).action is DelegateToYtDlp),
    decreases events.len(),
{
    if events.len() > 0 {
        let (after, step) = next(m, events.first());
        lemma_never_delegates(after, events.drop_first());
        lemma_steps_unfold(m, events);
    }
}

// ---------------------------------------------------------------------------
// Subtitles
// ---------------------------------------------------------------------------
/// Whether `action` works on subtitles.
pub open spec fn is_subtitle_work(action: ActionModel) -> bool {
    action is DownloadSubtitle || action is CleanSubtitle || action is EmbedSubtitle
}

/// Whether the machine has not come to the subtitles yet.
pub open spec fn is_before_subtitles(phase: PhaseModel) -> bool {
    &&& !(phase is Probing)
    &&& !(phase is DownloadingSubtitle)
    &&& !(phase is Cleaning)
    &&& !(phase is Embedding)
}

/// Where subtitles are to be skipped, none are downloaded, cleaned or embedded.
pub proof fn lemma_skipped_subtitles_are_not_touched(m: MediaDownloadModel, events: Seq<Event>)
    requires
        m.subtitle_mode is Skip,
        is_before_subtitles(m.phase),
        answers(m, events),
    ensures
        steps(m, events).len() == events.len(),
        forall|i: int|
            0 <= i < events.len() ==> !is_subtitle_work((#[trigger] steps(m, events)[i]).action),
    decreases events.len(),
{
    if events.len() > 0 {
        let (after, step) = next(m, events.first());
        lemma_skipped_subtitles_are_not_touched(after, events.drop_first());
        lemma_steps_unfold(m, events);
    }
}

/// Subtitles are embedded only where they are to be.
pub proof fn lemma_embedding_is_asked_for(m: MediaDownloadModel, events: Seq<Event>)
    requires
        !(m.subtitle_mode is Embed),
        answers(m, events),
    ensures
        steps(m, events).len() == events.len(),
        forall|i: int|
            0 <= i < events.len() ==> !((#[trigger] steps(m, events)[i]).action is EmbedSubtitle),
    decreases events.len(),
{
    if events.len() > 0 {
        let (after, step) = next(m, events.first());
        lemma_embedding_is_asked_for(after, events.drop_first());
        lemma_steps_unfold(m, events);
    }
}

/// Where subtitles are wanted, must not be missing and are missing, the download ends with that
/// error at once: nothing is downloaded.
pub proof fn lemma_strict_policy_refuses(m: MediaDownloadModel, response: SingleEpisodeRoot)
    requires
        m.phase is Fetching,
        m.missing_subtitle_policy is Strict,
        lacks_subtitles(response, m.subtitle_mode),
    ensures
        next(m, Event::DetailsFetched(Ok(response))).1.action == (ActionModel::Finish {
            result: Err(ErrorModel::NoSubtitlesAvailable(m.item.title)),
        }),
{
}

/// The user is warned of missing subtitles once at most, when the details arrive, and of
/// nothing else but subtitles that could not be embedded.
pub proof fn lemma_warnings(m: MediaDownloadModel, events: Seq<Event>)
    requires
        answers(m, events),
    ensures
        steps(m, events).len() == events.len(),
        forall|i: int|
            0 <= i < events.len() ==> ((#[trigger] steps(m, events)[i]).warning is Some <==> {
                ||| i == 0 && m.missing_subtitle_policy is AllowMissing && (events[0] matches
                    Event::DetailsFetched(Ok(response)) && lacks_subtitles(
                    response,
                    m.subtitle_mode,
                ))
                ||| events[i] matches Event::Embedded(Err(_))
            }),
    decreases events.len(),
{
    if events.len() > 0 {
        let (after, step) = next(m, events.first());
        let rest = events.drop_first();
        lemma_warnings(after, rest);
        lemma_steps_unfold(m, events);
        assert(!(after.phase is Fetching));
        assert(after.missing_subtitle_policy == m.missing_subtitle_policy);
        if rest.len() > 0 {
            assert(answers(after, rest));
            assert(accepts(after.phase, rest.first()));
            assert(!(rest.first() is DetailsFetched));
        }
        assert forall|i: int| 0 < i < events.len() implies ((#[trigger] steps(
            m,
            events,
        )[i]).warning is Some <==> (events[i] matches Event::Embedded(Err(_)))) by {
            assert(events[i] == rest[i - 1]);
            assert(steps(m, events)[i] == steps(after, rest)[i - 1]);
        }
        assert(events[0] == events.first());
    }
}

/// A download does not fail because subtitles could not be embedded.
pub proof fn lemma_embedding_failure_is_not_fatal(m: MediaDownloadModel, reason: String)
    requires
        m.phase is Embedding,
    ensures
        next(m, Event::Embedded(Err(reason))).1.action == (ActionModel::Finish { result: Ok(()) }),
        next(m, Event::Embedded(Err(reason))).1.warning is Some,
{
}

// ---------------------------------------------------------------------------
// What is stored already
// ---------------------------------------------------------------------------
/// Whether the machine knows the stored video `path`, and has not gone on from it yet or goes
/// on with it.
pub open spec fn goes_on_with(phase: PhaseModel, path: Seq<char>) -> bool {
    match phase {
        PhaseModel::NamingSubtitle { files, .. } => files.reusable_video_path == Some(path),
        PhaseModel::Checking { files, .. } => files.reusable_video_path == Some(path),
        PhaseModel::Probing { video_path, .. } => video_path == path,
        PhaseModel::DownloadingSubtitle { video_path, .. } => video_path == path,
        PhaseModel::Cleaning { video_path, .. } => video_path == path,
        PhaseModel::Embedding { video_path } => video_path == path,
        PhaseModel::Finished => true,
        _ => false,
    }
}

/// A video that is stored already is never downloaded again, and subtitles go into it and into
/// no other file.
pub proof fn lemma_stored_video_is_reused(
    m: MediaDownloadModel,
    path: Seq<char>,
    events: Seq<Event>,
)
    requires
        goes_on_with(m.phase, path),
        answers(m, events),
    ensures
        steps(m, events).len() == events.len(),
        forall|i: int|
            0 <= i < events.len() ==> {
                &&& !((#[trigger] steps(m, events)[i]).action is DownloadVideo)
                &&& steps(m, events)[i].action is EmbedSubtitle
                    ==> steps(m, events)[i].action->video_path == path
            },
    decreases events.len(),
{
    if events.len() > 0 {
        let (after, step) = next(m, events.first());
        lemma_stored_video_is_reused(after, path, events.drop_first());
        lemma_steps_unfold(m, events);
    }
}

/// An item of which everything is stored is left alone: the download ends well, and nothing is
/// downloaded, cleaned or embedded.
pub proof fn lemma_complete_item_is_left_alone(
    m: MediaDownloadModel,
    files: ExistingVideoFilesModel,
    status: FileStatus,
)
    requires
        m.phase is Checking,
        m.phase->Checking_files == files,
        is_complete(files, status.is_stored(), m.subtitle_mode),
    ensures
        next(m, Event::Probed(status)).1.action == (ActionModel::Finish { result: Ok(()) }),
{
}

/// The empty leftovers that were seen in the directory are removed, also where the rest of it
/// cannot be read; the download then ends with the reason.
pub proof fn lemma_seen_leftovers_are_removed(
    m: MediaDownloadModel,
    entries: Vec<DirectoryEntry>,
    failure: Option<String>,
)
    requires
        m.phase is Listing,
        file_stem(m.phase->Listing_video_filename) is Some,
    ensures
        ({
            let stem = file_stem(m.phase->Listing_video_filename)->0;
            let step = next(m, Event::Listed { entries, failure }).1;
            &&& step.cleanup == leftover_videos(entries@, stem, m.directory)
            &&& failure matches Some(reason) ==> step.action == (ActionModel::Finish {
                result: Err(ErrorModel::Downloading(reason@)),
            })
        }),
{
}

/// Whether `files` hold a video that counts for `mode`.
pub open spec fn holds_video(files: ExistingVideoFilesModel, mode: SubtitleMode) -> bool {
    files.reusable_video_path is Some || (mode is Embed && files.embedded_video_path is Some)
}

/// Whether `event` brings the video: it is found in the directory, or it is downloaded.
pub open spec fn brings_video(m: MediaDownloadModel, event: Event) -> bool {
    match (m.phase, event) {
        (PhaseModel::Listing { video_filename }, Event::Listed { entries, failure: None }) => {
            &&& file_stem(video_filename) is Some
            &&& holds_video(
                video_scan(entries@, file_stem(video_filename)->0, m.directory).files,
                m.subtitle_mode,
            )
        },
        (PhaseModel::DownloadingVideo { .. }, Event::Downloaded(Ok(()))) => true,
        _ => false,
    }
}

/// Whether one of the events brings the video.
pub open spec fn video_comes(m: MediaDownloadModel, events: Seq<Event>) -> bool
    decreases events.len(),
{
    events.len() > 0 && (brings_video(m, events.first()) || video_comes(
        next(m, events.first()).0,
        events.drop_first(),
    ))
}

/// Whether the machine has no video yet.
pub open spec fn lacks_video(m: MediaDownloadModel) -> bool {
    match m.phase {
        PhaseModel::Fetching => true,
        PhaseModel::NamingVideo => true,
        PhaseModel::Listing { .. } => true,
        PhaseModel::NamingSubtitle { files, .. } => !holds_video(files, m.subtitle_mode),
        PhaseModel::Checking { files, .. } => !holds_video(files, m.subtitle_mode),
        PhaseModel::DownloadingVideo { .. } => true,
        _ => false,
    }
}

/// The built-in download ends well only with a video: one that was found in the directory, or
/// one that was downloaded.
pub proof fn lemma_success_needs_a_video(m: MediaDownloadModel, events: Seq<Event>)
    requires
        lacks_video(m),
        events.len() > 0,
        answers(m, events),
        steps(m, events).last().action == (ActionModel::Finish { result: Ok(()) }),
    ensures
        video_comes(m, events),
    decreases events.len(),
{
    let (after, step) = next(m, events.first());
    let rest = events.drop_first();
    lemma_download_ends(m, events);
    lemma_steps_unfold(m, events);
    if !brings_video(m, events.first()) {
        if rest.len() == 0 {
            assert(steps(m, events).last() == step);
        } else {
            assert(answers(after, rest));
            assert(accepts(after.phase, rest.first()));
            lemma_download_ends(after, rest);
            assert(steps(m, events).last() == steps(after, rest).last());
            lemma_success_needs_a_video(after, rest);
        }
    }
}

/// Whether one of the events says that the subtitles are stored and clean.
pub open spec fn subtitles_come(m: MediaDownloadModel, events: Seq<Event>) -> bool
    decreases events.len(),
{
    events.len() > 0 && ((m.phase is Cleaning && events.first() matches Event::Cleaned(Ok(())))
        || subtitles_come(next(m, events.first()).0, events.drop_first()))
}

/// Where the item has subtitles and they are wanted, a download that had something left to do
/// ends well only with subtitles that are stored and clean.
pub proof fn lemma_success_needs_wanted_subtitles(m: MediaDownloadModel, events: Seq<Event>)
    requires
        !(m.subtitle_mode is Skip),
        m.item.subtitle_url is Some,
        m.phase is DownloadingVideo || m.phase is Probing || m.phase is DownloadingSubtitle
            || m.phase is Cleaning,
        events.len() > 0,
        answers(m, events),
        steps(m, events).last().action == (ActionModel::Finish { result: Ok(()) }),
    ensures
        subtitles_come(m, events),
    decreases events.len(),
{
    let (after, step) = next(m, events.first());
    let rest = events.drop_first();
    lemma_download_ends(m, events);
    lemma_steps_unfold(m, events);
    if rest.len() == 0 {
        assert(steps(m, events).last() == step);
    } else {
        assert(answers(after, rest));
        assert(accepts(after.phase, rest.first()));
        lemma_download_ends(after, rest);
        assert(steps(m, events).last() == steps(after, rest).last());
        if !(m.phase is Cleaning) {
            lemma_success_needs_wanted_subtitles(after, rest);
        }
    }
}

/// Whether a listing of the directory shows a stored video of the item that has its subtitles
/// embedded.
pub open spec fn embedded_video_is_listed(m: MediaDownloadModel, events: Seq<Event>) -> bool
    decreases events.len(),
{
    events.len() > 0 && ((match (m.phase, events.first()) {
        (PhaseModel::Listing { video_filename }, Event::Listed { entries, .. }) => exists|i: int|
            0 <= i < entries@.len() && is_stored_video(
                #[trigger] entries@[i],
                file_stem(video_filename)->0,
                true,
            ),
        _ => false,
    }) || embedded_video_is_listed(next(m, events.first()).0, events.drop_first()))
}

/// Whether subtitles may still have to be embedded.
pub open spec fn is_before_embedding(phase: PhaseModel) -> bool {
    match phase {
        PhaseModel::NamingSubtitle { files, .. } => files.embedded_video_path is None,
        PhaseModel::Checking { files, .. } => files.embedded_video_path is None,
        PhaseModel::Delegating => false,
        PhaseModel::Embedding { .. } => false,
        PhaseModel::Finished => false,
        _ => true,
    }
}

/// Where subtitles are to be embedded and the item has some, a download that ends well asked for
/// them to be embedded, unless the directory held a video that they are embedded in.
pub proof fn lemma_success_means_embedding(m: MediaDownloadModel, events: Seq<Event>)
    requires
        m.subtitle_mode is Embed,
        is_before_embedding(m.phase),
        events.len() > 0,
        answers(m, events),
        steps(m, events).last().action == (ActionModel::Finish { result: Ok(()) }),
        outcome(m, events).item.subtitle_url is Some,
        !embedded_video_is_listed(m, events),
    ensures
        exists|i: int|
            0 <= i < events.len() && (#[trigger] steps(m, events)[i]).action is EmbedSubtitle,
    decreases events.len(),
{
    let (after, step) = next(m, events.first());
    let rest = events.drop_first();
    lemma_download_ends(m, events);
    lemma_steps_unfold(m, events);
    if rest.len() == 0 {
        assert(steps(m, events).last() == step);
        assert(outcome(after, rest) == after);
    } else {
        assert(answers(after, rest));
        assert(accepts(after.phase, rest.first()));
        lemma_download_ends(after, rest);
        assert(steps(m, events).last() == steps(after, rest).last());
        lemma_item_stays(after, rest);
        if step.action is EmbedSubtitle {
            assert(steps(m, events)[0].action is EmbedSubtitle);
        } else {
            if m.phase is Listing {
                let entries = events.first()->entries;
                let stem = file_stem(m.phase->Listing_video_filename)->0;
                lemma_first_video_is_first(entries@, stem, m.directory, true);
            }
            lemma_success_means_embedding(after, rest);
            let i = choose|i: int|
                0 <= i < rest.len() && (#[trigger] steps(after, rest)[i]).action is EmbedSubtitle;
            assert(steps(m, events)[i + 1] == steps(after, rest)[i]);
        }
    }
}

/// Once the details of an item are there, it does not change any more.
proof fn lemma_item_stays(m: MediaDownloadModel, events: Seq<Event>)
    requires
        answers(m, events),
    ensures
        !(m.phase is Fetching) ==> outcome(m, events).item == m.item,
    decreases events.len(),
{
    if events.len() > 0 {
        lemma_item_stays(next(m, events.first()).0, events.drop_first());
    }
}

/// A download ends well once it is known what is stored exactly where that is all of the item for
/// its mode.
pub proof fn lemma_only_a_complete_item_is_left_alone(m: MediaDownloadModel, status: FileStatus)
    requires
        m.phase is Checking,
    ensures
        ({
            let files = m.phase->Checking_files;
            let ends = next(m, Event::Probed(status)).1.action == (ActionModel::Finish {
                result: Ok(()),
            });
            &&& ends <==> is_complete(files, status.is_stored(), m.subtitle_mode)
            &&& m.subtitle_mode is Embed && files.embedded_video_path is None ==> !ends
            &&& m.subtitle_mode is Download && !status.is_stored() ==> !ends
            &&& !(m.subtitle_mode is Embed) && files.reusable_video_path is None ==> !ends
        }),
{
}

// ---------------------------------------------------------------------------
// Finding stored videos
// ---------------------------------------------------------------------------
/// Whether an entry is a stored video of the item, with or without embedded subtitles.
pub open spec fn is_stored_video(entry: DirectoryEntry, stem: Seq<char>, embedded: bool) -> bool {
    is_video_of(entry.name@, stem) && entry.status.is_stored() && is_embedded(entry.name@)
        == embedded
}

/// The video that is found is the first of its kind in the directory, and none is found exactly
/// where there is none.
pub proof fn lemma_first_video_is_first(
    entries: Seq<DirectoryEntry>,
    stem: Seq<char>,
    directory: Seq<char>,
    embedded: bool,
)
    ensures
        match first_video(entries, stem, directory, embedded) {
            Some(path) => exists|i: int|
                0 <= i < entries.len() && is_stored_video(#[trigger] entries[i], stem, embedded)
                    && path == join(directory, entries[i].name@) && forall|j: int|
                    0 <= j < i ==> !is_stored_video(#[trigger] entries[j], stem, embedded),
            None => forall|i: int|
                0 <= i < entries.len() ==> !is_stored_video(#[trigger] entries[i], stem, embedded),
        },
    decreases entries.len(),
{
    if entries.len() > 0 && !is_stored_video(entries.first(), stem, embedded) {
        let rest = entries.drop_first();
        lemma_first_video_is_first(rest, stem, directory, embedded);
        match first_video(rest, stem, directory, embedded) {
            Some(path) => {
                let k = choose|k: int|
                    0 <= k < rest.len() && is_stored_video(#[trigger] rest[k], stem, embedded)
                        && path == join(directory, rest[k].name@) && forall|j: int|
                        0 <= j < k ==> !is_stored_video(#[trigger] rest[j], stem, embedded);
                assert(entries[k + 1] == rest[k]);
                assert forall|j: int| 0 <= j < k + 1 implies !is_stored_video(
                    #[trigger] entries[j],
                    stem,
                    embedded,
                ) by {
                    if j > 0 {
                        assert(entries[j] == rest[j - 1]);
                    }
                }
            },
            None => {
                assert forall|i: int| 0 <= i < entries.len() implies !is_stored_video(
                    #[trigger] entries[i],
                    stem,
                    embedded,
                ) by {
                    if i > 0 {
                        assert(entries[i] == rest[i - 1]);
                    }
                }
            },
        }
    } else if entries.len() > 0 {
        assert(entries[0] == entries.first());
    }
}

/// A video that was stored under the stem of an item and the extension of a video is found when
/// the directory is searched for that item.
pub proof fn lemma_stored_video_is_found(
    entries: Seq<DirectoryEntry>,
    k: int,
    stem: Seq<char>,
    ext: Seq<char>,
    directory: Seq<char>,
)
    requires
        0 <= k < entries.len(),
        stem.len() > 0,
        !stem.contains('/'),
        is_video_extension(ext),
        entries[k].name@ == stem + seq!['.'] + ext,
        entries[k].status.is_stored(),
    ensures
        ext == "mkv"@ ==> video_scan(entries, stem, directory).files.embedded_video_path is Some,
        ext != "mkv"@ ==> video_scan(entries, stem, directory).files.reusable_video_path is Some,
{
    reveal_strlit("mp4");
    reveal_strlit("mkv");
    reveal_strlit("webm");
    reveal_strlit("ts");
    reveal_strlit("m4v");
    let name = stem + seq!['.'] + ext;
    assert(!ext.contains('.') && !ext.contains('/'));
    assert forall|i: int| 0 <= i < name.len() implies name[i] != '/' by {
        if i < stem.len() {
            assert(stem.contains(name[i]));
        } else if i > stem.len() {
            assert(ext.contains(ext[i - stem.len() - 1]));
        }
    }
    assert(name.len() > 2);
    assert(is_plain_name(name));
    lemma_stem_and_extension(stem, ext);
    let embedded = ext == "mkv"@;
    assert(is_stored_video(entries[k], stem, embedded));
    lemma_first_video_is_first(entries, stem, directory, embedded);
}

/// The temporary file of a transfer is never taken for a video, whatever it will be called in the
/// end.
pub proof fn lemma_temporary_file_is_no_video(name: Seq<char>, stem: Seq<char>)
    requires
        is_plain_name(name),
    ensures
        !is_video_of(temporary_path(name), stem),
{
    reveal_strlit(".tmp");
    reveal_strlit("mp4");
    reveal_strlit("mkv");
    reveal_strlit("webm");
    reveal_strlit("ts");
    reveal_strlit("m4v");
    let ext = seq!['t', 'm', 'p'];
    let file = name + seq!['.'] + ext;
    assert(temporary_path(name) =~= file);
    assert forall|i: int| 0 <= i < file.len() implies file[i] != '/' by {
        if i < name.len() {
            assert(name.contains(name[i]));
        }
    }
    assert(!ext.contains('.'));
    lemma_stem_and_extension(name, ext);
    assert(ext[0] == 't' && ext[1] == 'm' && ext.len() == 3);
    assert("mp4"@[0] == 'm' && "mkv"@[0] == 'm' && "webm"@[0] == 'w' && "m4v"@[0] == 'm');
    assert("ts"@.len() == 2);
}

/// What a download leaves behind is taken as complete the next time: the video, under the stem of
/// the item and the extension that it ends up with, and the subtitles where they are wanted next
/// to it.
pub proof fn lemma_second_run_has_nothing_to_do(
    entries: Seq<DirectoryEntry>,
    k: int,
    stem: Seq<char>,
    directory: Seq<char>,
    mode: SubtitleMode,
)
    requires
        0 <= k < entries.len(),
        stem.len() > 0,
        !stem.contains('/'),
        entries[k].status.is_stored(),
        entries[k].name@ == stem + seq!['.'] + (if mode is Embed {
            "mkv"@
        } else {
            "mp4"@
        }),
    ensures
        is_complete(video_scan(entries, stem, directory).files, true, mode),
{
    reveal_strlit("mp4");
    reveal_strlit("mkv");
    assert("mp4"@ != "mkv"@) by {
        assert("mp4"@[1] != "mkv"@[1]);
    }
    let ext = if mode is Embed { "mkv"@ } else { "mp4"@ };
    lemma_stored_video_is_found(entries, k, stem, ext, directory);
}

} // verus!
