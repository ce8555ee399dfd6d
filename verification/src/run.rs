//! A run of the program, as a machine: it names the work that is to be done next, and takes what
//! came of it.

use vstd::prelude::*;

use crate::cli::{CatShowDownloaderArgs, Command, DownloadArgs, MetadataArgs};
use crate::error::{workflow_model, Failure, FailureModel};
use crate::models::{
    DownloadSettings, DownloadSettingsModel, MediaType, MissingSubtitlePolicy, SubtitleMode,
};
use crate::text::{decimal, decimal_text};

verus! {

/// How subtitles are handled: skipping them comes first, and embedding them needs ffmpeg.
pub open spec fn subtitle_mode(skip_subtitles: bool, ffmpeg_available: bool) -> SubtitleMode {
    if skip_subtitles {
        SubtitleMode::Skip
    } else if ffmpeg_available {
        SubtitleMode::Embed
    } else {
        SubtitleMode::Download
    }
}

/// What happens when subtitles are missing.
pub open spec fn missing_subtitle_policy(allow_missing_subtitles: bool) -> MissingSubtitlePolicy {
    if allow_missing_subtitles {
        MissingSubtitlePolicy::AllowMissing
    } else {
        MissingSubtitlePolicy::Strict
    }
}

/// Subtitles are skipped exactly where that is asked for, whether ffmpeg is there or not. Where
/// they are not, they are embedded exactly where ffmpeg is there. They may be missing exactly where
/// that is allowed.
pub proof fn lemma_subtitle_settings(skip: bool, allow_missing: bool, ffmpeg_available: bool)
    ensures
        subtitle_mode(skip, ffmpeg_available) is Skip <==> skip,
        subtitle_mode(skip, ffmpeg_available) is Embed <==> !skip && ffmpeg_available,
        subtitle_mode(skip, ffmpeg_available) is Download <==> !skip && !ffmpeg_available,
        missing_subtitle_policy(allow_missing) is AllowMissing <==> allow_missing,
        missing_subtitle_policy(allow_missing) is Strict <==> !allow_missing,
{
}

/// Decides how subtitles are handled, and what happens when they are missing.
pub fn resolve_subtitle_settings(
    skip_subtitles: bool,
    allow_missing_subtitles: bool,
    ffmpeg_available: bool,
) -> (res: (SubtitleMode, MissingSubtitlePolicy))
    ensures
        res.0 == subtitle_mode(skip_subtitles, ffmpeg_available),
        res.1 == missing_subtitle_policy(allow_missing_subtitles),
{
    let mode = if skip_subtitles {
        SubtitleMode::Skip
    } else if ffmpeg_available {
        SubtitleMode::Embed
    } else {
        SubtitleMode::Download
    };
    let policy = if allow_missing_subtitles {
        MissingSubtitlePolicy::AllowMissing
    } else {
        MissingSubtitlePolicy::Strict
    };
    (mode, policy)
}

/// Work that a run asks for.
#[derive(Debug, PartialEq, Eq)]
pub enum RunAction {
    /// Clean the subtitle files in a directory.
    FixSubtitles { directory: String },
    /// Find out which tools are there.
    ProbeTools,
    /// Clean the subtitle files in a directory, and embed them into their videos.
    EmbedSubtitles { directory: String },
    /// Find out what a slug stands for.
    Resolve { slug: String },
    /// Download the episodes of a TV show, from the given one on.
    DownloadTvShow { id: i32, start_from_episode: i32, settings: DownloadSettings },
    /// Download a movie.
    DownloadMovie { id: i32, slug: String, settings: DownloadSettings },
    /// Retrieve the metadata of a TV show.
    WriteMetadata { tv_show_id: i32, slug: String, directory: String },
    /// Nothing: the run is over, with this result.
    Finish { result: Result<(), Failure> },
}

/// A [`RunAction`], with its texts as sequences of characters.
#[verifier::ext_equal]
pub enum RunActionModel {
    FixSubtitles { directory: Seq<char> },
    ProbeTools,
    EmbedSubtitles { directory: Seq<char> },
    Resolve { slug: Seq<char> },
    DownloadTvShow { id: i32, start_from_episode: i32, settings: DownloadSettingsModel },
    DownloadMovie { id: i32, slug: Seq<char>, settings: DownloadSettingsModel },
    WriteMetadata { tv_show_id: i32, slug: Seq<char>, directory: Seq<char> },
    Finish { result: Result<(), FailureModel> },
}

impl DeepView for RunAction {
    type V = RunActionModel;

    open spec fn deep_view(&self) -> RunActionModel {
        match self {
            RunAction::FixSubtitles { directory } => RunActionModel::FixSubtitles {
                directory: directory@,
            },
            RunAction::ProbeTools => RunActionModel::ProbeTools,
            RunAction::EmbedSubtitles { directory } => RunActionModel::EmbedSubtitles {
                directory: directory@,
            },
            RunAction::Resolve { slug } => RunActionModel::Resolve { slug: slug@ },
            RunAction::DownloadTvShow { id, start_from_episode, settings } =>
            RunActionModel::DownloadTvShow {
                id: *id,
                start_from_episode: *start_from_episode,
                settings: settings.deep_view(),
            },
            RunAction::DownloadMovie { id, slug, settings } => RunActionModel::DownloadMovie {
                id: *id,
                slug: slug@,
                settings: settings.deep_view(),
            },
            RunAction::WriteMetadata { tv_show_id, slug, directory } =>
            RunActionModel::WriteMetadata {
                tv_show_id: *tv_show_id,
                slug: slug@,
                directory: directory@,
            },
            RunAction::Finish { result } => RunActionModel::Finish {
                result: workflow_model(*result),
            },
        }
    }
}

/// What came of the work.
#[derive(Debug)]
pub enum RunEvent {
    /// The work is done.
    Succeeded,
    /// The work failed; whoever did it holds the error.
    Failed,
    /// Which tools are there.
    ToolsProbed { ffmpeg_available: bool, yt_dlp_available: bool },
    /// What the slug stands for.
    Resolved(MediaType),
}

/// How far a run is.
#[derive(Debug)]
pub enum Run {
    /// Waits to know whether the start, which is below one, matters: it does unless a movie is to
    /// be downloaded.
    CheckingStart(DownloadArgs),
    /// Waits for the subtitle files to be cleaned. Here and below, `known` is what is to be
    /// downloaded, where that is known already.
    FixingSubtitles { args: DownloadArgs, known: Option<MediaType> },
    /// Waits to know the tools.
    ProbingTools { args: DownloadArgs, known: Option<MediaType> },
    /// Waits for the subtitle files to be embedded; ffmpeg is there.
    EmbeddingSubtitles { args: DownloadArgs, known: Option<MediaType>, yt_dlp_available: bool },
    /// Waits to know what is to be downloaded.
    ResolvingDownload { args: DownloadArgs, ffmpeg_available: bool, yt_dlp_available: bool },
    /// Waits to know what the metadata are wanted of.
    ResolvingMetadata(MetadataArgs),
    /// Waits for the download, or for the metadata.
    Working,
    /// Is over.
    Finished,
}

/// Whether `event` is an answer to what the run asked for before.
pub open spec fn accepts(run: Run, event: RunEvent) -> bool {
    match run {
        Run::CheckingStart(_) => event is Resolved || event is Failed,
        Run::FixingSubtitles { .. } => event is Succeeded || event is Failed,
        Run::ProbingTools { .. } => event is ToolsProbed,
        Run::EmbeddingSubtitles { .. } => event is Succeeded || event is Failed,
        Run::ResolvingDownload { .. } => event is Resolved || event is Failed,
        Run::ResolvingMetadata(_) => event is Resolved || event is Failed,
        Run::Working => event is Succeeded || event is Failed,
        Run::Finished => false,
    }
}

/// The run is over with `result`.
pub open spec fn finished(result: Result<(), FailureModel>) -> (Run, RunActionModel) {
    (Run::Finished, RunActionModel::Finish { result })
}

/// The refusal of a first episode below one, as characters.
pub open spec fn bad_start_text(start_from_episode: i32) -> Seq<char> {
    "start_from_episode must be at least 1, got "@ + decimal(start_from_episode as int)
}

/// The refusal to take the metadata of a movie, as characters.
pub open spec fn movie_metadata_text(slug: Seq<char>) -> Seq<char> {
    "metadata subcommand only supports TV show slugs, but '"@ + slug + "' resolved to a movie"@
}

/// The settings of a download.
pub open spec fn settings_of(
    args: DownloadArgs,
    ffmpeg_available: bool,
    yt_dlp_available: bool,
) -> DownloadSettingsModel {
    DownloadSettingsModel {
        subtitle_mode: subtitle_mode(args.skip_subtitles, ffmpeg_available),
        missing_subtitle_policy: missing_subtitle_policy(args.allow_missing_subtitles),
        concurrent_downloads: args.concurrent_downloads,
        directory: args.target.directory@,
        yt_dlp_available,
    }
}

/// How a run begins. Where a download is to start below the first episode, it is refused unless
/// the slug turns out to stand for a movie, which has no episodes.
pub open spec fn start(args: CatShowDownloaderArgs) -> (Run, RunActionModel) {
    match args.command {
        Command::Download(args) => if args.start_from_episode < 1 {
            (Run::CheckingStart(args), RunActionModel::Resolve { slug: args.target.slug@ })
        } else {
            begin_download(args, None)
        },
        Command::Metadata(args) => (
            Run::ResolvingMetadata(args),
            RunActionModel::Resolve { slug: args.target.slug@ },
        ),
    }
}

/// How a download begins: the subtitle files that are there already are cleaned where that is
/// asked for, and then the tools are looked for.
pub open spec fn begin_download(args: DownloadArgs, known: Option<MediaType>) -> (
    Run,
    RunActionModel,
) {
    if args.fix_existing_subtitles {
        (
            Run::FixingSubtitles { args, known },
            RunActionModel::FixSubtitles { directory: args.target.directory@ },
        )
    } else {
        (Run::ProbingTools { args, known }, RunActionModel::ProbeTools)
    }
}

/// The tools are known: the subtitle files that are there already are embedded where that is
/// asked for, which needs ffmpeg.
pub open spec fn after_tools(
    args: DownloadArgs,
    known: Option<MediaType>,
    ffmpeg_available: bool,
    yt_dlp_available: bool,
) -> (Run, RunActionModel) {
    if args.embed_existing_subtitles && !ffmpeg_available {
        finished(
            Err(
                FailureModel::Message(
                    "--embed-existing-subtitles requires ffmpeg, but ffmpeg was not found on PATH"@,
                ),
            ),
        )
    } else if args.embed_existing_subtitles {
        (
            Run::EmbeddingSubtitles { args, known, yt_dlp_available },
            RunActionModel::EmbedSubtitles { directory: args.target.directory@ },
        )
    } else {
        after_existing_subtitles(args, known, ffmpeg_available, yt_dlp_available)
    }
}

/// The subtitle files that were there already are seen to: the slug is resolved, unless that is
/// done.
pub open spec fn after_existing_subtitles(
    args: DownloadArgs,
    known: Option<MediaType>,
    ffmpeg_available: bool,
    yt_dlp_available: bool,
) -> (Run, RunActionModel) {
    match known {
        Some(media) => (
            Run::Working,
            download_of(args, media, ffmpeg_available, yt_dlp_available),
        ),
        None => (
            Run::ResolvingDownload { args, ffmpeg_available, yt_dlp_available },
            RunActionModel::Resolve { slug: args.target.slug@ },
        ),
    }
}

/// The download of `media`. The start goes into that of a TV show alone.
pub open spec fn download_of(
    args: DownloadArgs,
    media: MediaType,
    ffmpeg_available: bool,
    yt_dlp_available: bool,
) -> RunActionModel {
    let settings = settings_of(args, ffmpeg_available, yt_dlp_available);
    match media {
        MediaType::TvShow(id) => RunActionModel::DownloadTvShow {
            id,
            start_from_episode: args.start_from_episode,
            settings,
        },
        MediaType::Movie { id, slug } => RunActionModel::DownloadMovie { id, slug: slug@, settings },
    }
}

/// Where the run goes on `event`, and what it asks for next.
pub open spec fn next(run: Run, event: RunEvent) -> (Run, RunActionModel)
    recommends
        accepts(run, event),
{
    match (run, event) {
        (Run::CheckingStart(args), RunEvent::Resolved(MediaType::Movie { id, slug })) =>
        begin_download(args, Some(MediaType::Movie { id, slug })),
        (Run::CheckingStart(args), _) => finished(
            Err(FailureModel::Message(bad_start_text(args.start_from_episode))),
        ),
        (_, RunEvent::Failed) => finished(Err(FailureModel::Reported)),
        (Run::FixingSubtitles { args, known }, RunEvent::Succeeded) => (
            Run::ProbingTools { args, known },
            RunActionModel::ProbeTools,
        ),
        (
            Run::ProbingTools { args, known },
            RunEvent::ToolsProbed { ffmpeg_available, yt_dlp_available },
        ) => after_tools(args, known, ffmpeg_available, yt_dlp_available),
        (
            Run::EmbeddingSubtitles { args, known, yt_dlp_available },
            RunEvent::Succeeded,
        ) => after_existing_subtitles(args, known, true, yt_dlp_available),
        (
            Run::ResolvingDownload { args, ffmpeg_available, yt_dlp_available },
            RunEvent::Resolved(media),
        ) => (Run::Working, download_of(args, media, ffmpeg_available, yt_dlp_available)),
        (Run::ResolvingMetadata(args), RunEvent::Resolved(MediaType::TvShow(id))) => (
            Run::Working,
            RunActionModel::WriteMetadata {
                tv_show_id: id,
                slug: args.target.slug@,
                directory: args.target.directory@,
            },
        ),
        (
            Run::ResolvingMetadata(_),
            RunEvent::Resolved(MediaType::Movie { id: _, slug }),
        ) => finished(Err(FailureModel::Message(movie_metadata_text(slug@)))),
        (Run::Working, RunEvent::Succeeded) => finished(Ok(())),
        _ => arbitrary(),
    }
}

impl Run {
    /// Begins a run.
    pub fn start(args: CatShowDownloaderArgs) -> (res: (Run, RunAction))
        ensures
            (res.0, res.1.deep_view()) == start(args),
    {
        match args.command {
            Command::Download(args) => {
                if args.start_from_episode < 1 {
                    let slug = args.target.slug.clone();
                    (Run::CheckingStart(args), RunAction::Resolve { slug })
                } else {
                    Run::begin(args, None)
                }
            },
            Command::Metadata(args) => {
                let slug = args.target.slug.clone();
                (Run::ResolvingMetadata(args), RunAction::Resolve { slug })
            },
        }
    }

    /// Begins a download.
    fn begin(args: DownloadArgs, known: Option<MediaType>) -> (res: (Run, RunAction))
        ensures
            (res.0, res.1.deep_view()) == begin_download(args, known),
    {
        if args.fix_existing_subtitles {
            let directory = args.target.directory.clone();
            (Run::FixingSubtitles { args, known }, RunAction::FixSubtitles { directory })
        } else {
            (Run::ProbingTools { args, known }, RunAction::ProbeTools)
        }
    }

    /// Goes on once the subtitle files that were there already are seen to.
    fn go_on(
        args: DownloadArgs,
        known: Option<MediaType>,
        ffmpeg_available: bool,
        yt_dlp_available: bool,
    ) -> (res: (Run, RunAction))
        ensures
            (res.0, res.1.deep_view()) == after_existing_subtitles(
                args,
                known,
                ffmpeg_available,
                yt_dlp_available,
            ),
    {
        match known {
            Some(media) => (
                Run::Working,
                download_action(args, media, ffmpeg_available, yt_dlp_available),
            ),
            None => {
                let slug = args.target.slug.clone();
                (
                    Run::ResolvingDownload { args, ffmpeg_available, yt_dlp_available },
                    RunAction::Resolve { slug },
                )
            },
        }
    }

    /// Takes what came of the work that was asked for, and says what is to be done next.
    pub fn step(self, event: RunEvent) -> (res: (Run, RunAction))
        requires
            accepts(self, event),
        ensures
            (res.0, res.1.deep_view()) == next(self, event),
    {
        match (self, event) {
            (Run::CheckingStart(args), RunEvent::Resolved(MediaType::Movie { id, slug })) =>
            Run::begin(args, Some(MediaType::Movie { id, slug })),
            (Run::CheckingStart(args), _) => {
                let mut text = "start_from_episode must be at least 1, got ".to_owned();
                text.append(decimal_text(args.start_from_episode).as_str());
                refuse(text)
            },
            (_, RunEvent::Failed) => (
                Run::Finished,
                RunAction::Finish { result: Err(Failure::Reported) },
            ),
            (Run::FixingSubtitles { args, known }, RunEvent::Succeeded) => (
                Run::ProbingTools { args, known },
                RunAction::ProbeTools,
            ),
            (
                Run::ProbingTools { args, known },
                RunEvent::ToolsProbed { ffmpeg_available, yt_dlp_available },
            ) => {
                if args.embed_existing_subtitles && !ffmpeg_available {
                    refuse(
                        "--embed-existing-subtitles requires ffmpeg, but ffmpeg was not found on PATH".to_owned(),
                    )
                } else if args.embed_existing_subtitles {
                    let directory = args.target.directory.clone();
                    (
                        Run::EmbeddingSubtitles { args, known, yt_dlp_available },
                        RunAction::EmbedSubtitles { directory },
                    )
                } else {
                    Run::go_on(args, known, ffmpeg_available, yt_dlp_available)
                }
            },
            (
                Run::EmbeddingSubtitles { args, known, yt_dlp_available },
                RunEvent::Succeeded,
            ) => Run::go_on(args, known, true, yt_dlp_available),
            (
                Run::ResolvingDownload { args, ffmpeg_available, yt_dlp_available },
                RunEvent::Resolved(media),
            ) => (Run::Working, download_action(args, media, ffmpeg_available, yt_dlp_available)),
            (Run::ResolvingMetadata(args), RunEvent::Resolved(MediaType::TvShow(id))) => (
                Run::Working,
                RunAction::WriteMetadata {
                    tv_show_id: id,
                    slug: args.target.slug,
                    directory: args.target.directory,
                },
            ),
            (
                Run::ResolvingMetadata(_),
                RunEvent::Resolved(MediaType::Movie { id: _, slug }),
            ) => {
                let mut text = "metadata subcommand only supports TV show slugs, but '".to_owned();
                text.append(slug.as_str());
                text.append("' resolved to a movie");
                refuse(text)
            },
            (Run::Working, RunEvent::Succeeded) => (
                Run::Finished,
                RunAction::Finish { result: Ok(()) },
            ),
            _ => {
                assert(false);
                (Run::Finished, RunAction::Finish { result: Ok(()) })
            },
        }
    }
}

/// The download of `media`.
fn download_action(
    args: DownloadArgs,
    media: MediaType,
    ffmpeg_available: bool,
    yt_dlp_available: bool,
) -> (res: RunAction)
    ensures
        res.deep_view() == download_of(args, media, ffmpeg_available, yt_dlp_available),
{
    let (subtitle_mode, missing_subtitle_policy) = resolve_subtitle_settings(
        args.skip_subtitles,
        args.allow_missing_subtitles,
        ffmpeg_available,
    );
    let settings = DownloadSettings {
        subtitle_mode,
        missing_subtitle_policy,
        concurrent_downloads: args.concurrent_downloads,
        directory: args.target.directory,
        yt_dlp_available,
    };
    match media {
        MediaType::TvShow(id) => RunAction::DownloadTvShow {
            id,
            start_from_episode: args.start_from_episode,
            settings,
        },
        MediaType::Movie { id, slug } => RunAction::DownloadMovie { id, slug, settings },
    }
}

/// Ends a run for the reason given.
fn refuse(text: String) -> (res: (Run, RunAction))
    ensures
        (res.0, res.1.deep_view()) == finished(Err(FailureModel::Message(text@))),
{
    (Run::Finished, RunAction::Finish { result: Err(Failure::Message(text)) })
}

// ---------------------------------------------------------------------------
// What holds of every run
// ---------------------------------------------------------------------------
/// Whether each event is an answer to what the run asked for before it.
pub open spec fn answers(run: Run, events: Seq<RunEvent>) -> bool
    decreases events.len(),
{
    events.len() > 0 ==> {
        &&& accepts(run, events.first())
        &&& answers(next(run, events.first()).0, events.drop_first())
    }
}

/// What the run asks for after each event.
pub open spec fn actions(run: Run, events: Seq<RunEvent>) -> Seq<RunActionModel>
    decreases events.len(),
{
    if events.len() == 0 {
        Seq::empty()
    } else {
        let (after, action) = next(run, events.first());
        seq![action] + actions(after, events.drop_first())
    }
}

/// The run after all events.
pub open spec fn outcome(run: Run, events: Seq<RunEvent>) -> Run
    decreases events.len(),
{
    if events.len() == 0 {
        run
    } else {
        outcome(next(run, events.first()).0, events.drop_first())
    }
}

/// The largest number of answers that a run can still ask for.
pub open spec fn rank(run: Run) -> nat {
    match run {
        Run::CheckingStart(_) => 5,
        Run::FixingSubtitles { known, .. } => if known is Some { 4 } else { 5 },
        Run::ProbingTools { known, .. } => if known is Some { 3 } else { 4 },
        Run::EmbeddingSubtitles { known, .. } => if known is Some { 2 } else { 3 },
        Run::ResolvingDownload { .. } => 2,
        Run::ResolvingMetadata(_) => 2,
        Run::Working => 1,
        Run::Finished => 0,
    }
}

/// A run comes to an end: it takes no more answers than its rank, and it asks for nothing after
/// it has said that it is over.
pub proof fn lemma_run_ends(run: Run, events: Seq<RunEvent>)
    requires
        answers(run, events),
    ensures
        events.len() + rank(outcome(run, events)) <= rank(run),
        actions(run, events).len() == events.len(),
        forall|i: int|
            0 <= i < events.len() ==> (#[trigger] actions(run, events)[i] is Finish <==> (i
                == events.len() - 1 && outcome(run, events) is Finished)),
    decreases events.len(),
{
    if events.len() > 0 {
        let (after, action) = next(run, events.first());
        let rest = events.drop_first();
        lemma_run_ends(after, rest);
        assert(rank(after) < rank(run));
        assert(action is Finish <==> after is Finished);
        if after is Finished {
            assert(rest.len() == 0);
        }
        assert forall|i: int| 0 <= i < events.len() implies (#[trigger] actions(
            run,
            events,
        )[i] is Finish <==> (i == events.len() - 1 && outcome(run, events) is Finished)) by {
            if i > 0 {
                assert(actions(run, events)[i] == actions(after, rest)[i - 1]);
            }
        }
    }
}

/// Whatever work fails, the run ends and asks for nothing more: with the error of that work, or
/// with the refusal of a start below the first episode, where it is not known that the start does
/// not matter.
pub proof fn lemma_failure_ends_the_run(run: Run)
    requires
        accepts(run, RunEvent::Failed),
    ensures
        next(run, RunEvent::Failed) == finished(
            Err(
                match run {
                    Run::CheckingStart(args) => FailureModel::Message(
                        bad_start_text(args.start_from_episode),
                    ),
                    _ => FailureModel::Reported,
                },
            ),
        ),
{
}

/// What a run finds around it: how each piece of work that it may ask for comes out.
pub struct Surroundings {
    /// Whether the subtitle files can be cleaned.
    pub fixing_succeeds: bool,
    /// Whether ffmpeg is there.
    pub ffmpeg_available: bool,
    /// Whether yt-dlp is there.
    pub yt_dlp_available: bool,
    /// Whether the subtitle files can be embedded.
    pub embedding_succeeds: bool,
    /// What the slug stands for, where that can be found out.
    pub media: Option<MediaType>,
    /// Whether the download, or the retrieval of the metadata, succeeds.
    pub work_succeeds: bool,
}

/// How work comes out that may fail.
pub open spec fn outcome_of_work(succeeds: bool) -> RunEvent {
    if succeeds {
        RunEvent::Succeeded
    } else {
        RunEvent::Failed
    }
}

/// The answer to what a run asks for.
pub open spec fn answer(action: RunActionModel, around: Surroundings) -> RunEvent {
    match action {
        RunActionModel::FixSubtitles { .. } => outcome_of_work(around.fixing_succeeds),
        RunActionModel::ProbeTools => RunEvent::ToolsProbed {
            ffmpeg_available: around.ffmpeg_available,
            yt_dlp_available: around.yt_dlp_available,
        },
        RunActionModel::EmbedSubtitles { .. } => outcome_of_work(around.embedding_succeeds),
        RunActionModel::Resolve { .. } => match around.media {
            Some(media) => RunEvent::Resolved(media),
            None => RunEvent::Failed,
        },
        _ => outcome_of_work(around.work_succeeds),
    }
}

/// All that a run asks for from `action` on, to its end.
pub open spec fn course(run: Run, action: RunActionModel, around: Surroundings) -> Seq<
    RunActionModel,
>
    decreases rank(run),
{
    if accepts(run, answer(action, around)) {
        let (after, next_action) = next(run, answer(action, around));
        seq![action] + course(after, next_action, around)
    } else {
        seq![action]
    }
}

/// What is asked for apart from what the slug stands for.
pub open spec fn work(actions: Seq<RunActionModel>) -> Seq<RunActionModel> {
    actions.filter(|action: RunActionModel| !(action is Resolve))
}

/// A start below the first episode is refused for all but a movie, also where it cannot be found
/// out what the slug stands for: the run asks for that, and for nothing else, and then ends with
/// the refusal.
pub proof fn lemma_bad_start_is_refused(args: DownloadArgs, around: Surroundings)
    requires
        args.start_from_episode < 1,
        !(around.media matches Some(media) && media is Movie),
    ensures
        ({
            let (run, action) = start(CatShowDownloaderArgs { command: Command::Download(args) });
            course(run, action, around) == seq![
                RunActionModel::Resolve { slug: args.target.slug@ },
                finished(
                    Err(FailureModel::Message(bad_start_text(args.start_from_episode))),
                ).1,
            ]
        }),
{
    reveal_with_fuel(course, 2);
}

/// `rest`, with `action` before it where that is asked for.
pub open spec fn asking(
    asked: bool,
    action: RunActionModel,
    rest: Seq<RunActionModel>,
) -> Seq<RunActionModel> {
    if asked {
        seq![action] + rest
    } else {
        rest
    }
}

/// All that a download asks for, in order, and how it ends. `admitted` says that its start is no
/// reason to refuse it, `cleaned` that it gets past the subtitle files that are to be cleaned,
/// `embedded` past those that are to be embedded, and `resolved` past the slug. Each piece of work
/// is asked for where the one before it was got past and it is wanted. The slug is resolved before
/// everything else where the start is below the first episode, and after the subtitle files
/// otherwise.
pub proof fn lemma_course_of_a_download(args: DownloadArgs, around: Surroundings)
    ensures
        ({
            let (run, action) = start(CatShowDownloaderArgs { command: Command::Download(args) });
            let early = args.start_from_episode < 1;
            let is_movie = around.media matches Some(media) && media is Movie;
            let admitted = !early || is_movie;
            let cleaned = admitted && (args.fix_existing_subtitles ==> around.fixing_succeeds);
            let can_embed = cleaned && (args.embed_existing_subtitles ==> around.ffmpeg_available);
            let embedded = can_embed && (args.embed_existing_subtitles
                ==> around.embedding_succeeds);
            let resolved = embedded && around.media is Some;
            let resolve = RunActionModel::Resolve { slug: args.target.slug@ };
            let directory = args.target.directory@;
            let settings = DownloadSettingsModel {
                subtitle_mode: if args.skip_subtitles {
                    SubtitleMode::Skip
                } else if around.ffmpeg_available {
                    SubtitleMode::Embed
                } else {
                    SubtitleMode::Download
                },
                missing_subtitle_policy: if args.allow_missing_subtitles {
                    MissingSubtitlePolicy::AllowMissing
                } else {
                    MissingSubtitlePolicy::Strict
                },
                concurrent_downloads: args.concurrent_downloads,
                directory,
                yt_dlp_available: around.yt_dlp_available,
            };
            let download = match around.media {
                Some(MediaType::Movie { id, slug }) => RunActionModel::DownloadMovie {
                    id,
                    slug: slug@,
                    settings,
                },
                Some(MediaType::TvShow(id)) => RunActionModel::DownloadTvShow {
                    id,
                    start_from_episode: args.start_from_episode,
                    settings,
                },
                None => arbitrary(),
            };
            let result: Result<(), FailureModel> = if !admitted {
                Err(
                    FailureModel::Message(
                        "start_from_episode must be at least 1, got "@ + decimal(
                            args.start_from_episode as int,
                        ),
                    ),
                )
            } else if cleaned && !can_embed {
                Err(
                    FailureModel::Message(
                        "--embed-existing-subtitles requires ffmpeg, but ffmpeg was not found on PATH"@,
                    ),
                )
            } else if resolved && around.work_succeeds {
                Ok(())
            } else {
                Err(FailureModel::Reported)
            };
            course(run, action, around) == asking(
                early,
                resolve,
                asking(
                    admitted && args.fix_existing_subtitles,
                    RunActionModel::FixSubtitles { directory },
                    asking(
                        cleaned,
                        RunActionModel::ProbeTools,
                        asking(
                            can_embed && args.embed_existing_subtitles,
                            RunActionModel::EmbedSubtitles { directory },
                            asking(
                                embedded && !early,
                                resolve,
                                asking(resolved, download, seq![RunActionModel::Finish { result }]),
                            ),
                        ),
                    ),
                ),
            )
        }),
{
    let early = args.start_from_episode < 1;
    let is_movie = around.media matches Some(media) && media is Movie;
    if early && !is_movie {
        reveal_with_fuel(course, 2);
    } else {
        lemma_course_from_the_beginning(args, if early { around.media } else { None }, around);
    }
}

/// What a download asks for once the subtitle files that were there already are seen to.
proof fn lemma_course_after_existing_subtitles(
    args: DownloadArgs,
    known: Option<MediaType>,
    ffmpeg_available: bool,
    around: Surroundings,
)
    requires
        known is Some ==> known == around.media,
    ensures
        ({
            let (run, action) = after_existing_subtitles(
                args,
                known,
                ffmpeg_available,
                around.yt_dlp_available,
            );
            course(run, action, around) == asking(
                known is None,
                RunActionModel::Resolve { slug: args.target.slug@ },
                asking(
                    around.media is Some,
                    download_of(args, around.media->0, ffmpeg_available, around.yt_dlp_available),
                    seq![
                        RunActionModel::Finish {
                            result: if around.media is Some && around.work_succeeds {
                                Ok(())
                            } else {
                                Err(FailureModel::Reported)
                            },
                        },
                    ],
                ),
            )
        }),
{
    reveal_with_fuel(course, 3);
}

/// What a download asks for from its beginning on.
proof fn lemma_course_from_the_beginning(
    args: DownloadArgs,
    known: Option<MediaType>,
    around: Surroundings,
)
    requires
        known is Some ==> known == around.media,
    ensures
        ({
            let (run, action) = begin_download(args, known);
            let cleaned = args.fix_existing_subtitles ==> around.fixing_succeeds;
            let can_embed = cleaned && (args.embed_existing_subtitles ==> around.ffmpeg_available);
            let embedded = can_embed && (args.embed_existing_subtitles
                ==> around.embedding_succeeds);
            let resolved = embedded && around.media is Some;
            let result: Result<(), FailureModel> = if cleaned && !can_embed {
                Err(
                    FailureModel::Message(
                        "--embed-existing-subtitles requires ffmpeg, but ffmpeg was not found on PATH"@,
                    ),
                )
            } else if resolved && around.work_succeeds {
                Ok(())
            } else {
                Err(FailureModel::Reported)
            };
            course(run, action, around) == asking(
                args.fix_existing_subtitles,
                RunActionModel::FixSubtitles { directory: args.target.directory@ },
                asking(
                    cleaned,
                    RunActionModel::ProbeTools,
                    asking(
                        can_embed && args.embed_existing_subtitles,
                        RunActionModel::EmbedSubtitles { directory: args.target.directory@ },
                        asking(
                            embedded && known is None,
                            RunActionModel::Resolve { slug: args.target.slug@ },
                            asking(
                                resolved,
                                download_of(
                                    args,
                                    around.media->0,
                                    around.ffmpeg_available,
                                    around.yt_dlp_available,
                                ),
                                seq![RunActionModel::Finish { result }],
                            ),
                        ),
                    ),
                ),
            )
        }),
{
    reveal_with_fuel(course, 4);
    lemma_course_after_existing_subtitles(args, known, around.ffmpeg_available, around);
}

/// All that a run for metadata asks for, and how it ends: the slug is resolved, and where it
/// stands for a TV show, the metadata of that show are written under the slug that was given. A
/// movie is refused by its own slug.
pub proof fn lemma_course_of_a_metadata_run(args: MetadataArgs, around: Surroundings)
    ensures
        ({
            let (run, action) = start(CatShowDownloaderArgs { command: Command::Metadata(args) });
            let resolve = RunActionModel::Resolve { slug: args.target.slug@ };
            course(run, action, around) == match around.media {
                Some(MediaType::TvShow(id)) => seq![
                    resolve,
                    RunActionModel::WriteMetadata {
                        tv_show_id: id,
                        slug: args.target.slug@,
                        directory: args.target.directory@,
                    },
                    RunActionModel::Finish {
                        result: if around.work_succeeds {
                            Ok(())
                        } else {
                            Err(FailureModel::Reported)
                        },
                    },
                ],
                Some(MediaType::Movie { id: _, slug }) => seq![
                    resolve,
                    RunActionModel::Finish {
                        result: Err(
                            FailureModel::Message(
                                "metadata subcommand only supports TV show slugs, but '"@ + slug@
                                    + "' resolved to a movie"@,
                            ),
                        ),
                    },
                ],
                None => seq![
                    resolve,
                    RunActionModel::Finish { result: Err(FailureModel::Reported) },
                ],
            }
        }),
{
    reveal_with_fuel(course, 4);
}

/// What a run asks for can be answered, whatever comes of it, and nothing is taken once it is
/// over.
pub proof fn lemma_answers_are_taken(run: Run, event: RunEvent)
    requires
        accepts(run, event),
    ensures
        ({
            let (after, action) = next(run, event);
            match action {
                RunActionModel::ProbeTools => forall|f: bool, y: bool| #[trigger]
                    accepts(
                        after,
                        RunEvent::ToolsProbed { ffmpeg_available: f, yt_dlp_available: y },
                    ),
                RunActionModel::Resolve { .. } => {
                    &&& accepts(after, RunEvent::Failed)
                    &&& forall|media: MediaType| #[trigger]
                        accepts(after, RunEvent::Resolved(media))
                },
                RunActionModel::Finish { .. } => forall|e: RunEvent| !(#[trigger] accepts(after, e)),
                _ => accepts(after, RunEvent::Succeeded) && accepts(after, RunEvent::Failed),
            }
        }),
{
}

/// Whether two runs do the same work from here on, and come to an end with the same result.
pub open spec fn same_work(
    one: (Run, RunActionModel),
    other: (Run, RunActionModel),
    around: Surroundings,
) -> bool {
    let all = course(one.0, one.1, around);
    let other_all = course(other.0, other.1, around);
    &&& work(all) == work(other_all)
    &&& all.last() is Finish
    &&& all.last() == other_all.last()
}

/// What a run asks for now comes before all that it asks for later.
proof fn lemma_course_step(run: Run, action: RunActionModel, around: Surroundings)
    requires
        accepts(run, answer(action, around)),
    ensures
        ({
            let (after, next_action) = next(run, answer(action, around));
            let all = course(run, action, around);
            let rest = course(after, next_action, around);
            &&& rest.len() > 0
            &&& all.last() == rest.last()
            &&& work(all) == work(seq![action]) + work(rest)
            &&& action is Resolve ==> work(all) == work(rest)
        }),
{
    let (after, next_action) = next(run, answer(action, around));
    let rest = course(after, next_action, around);
    let is_work = |action: RunActionModel| !(action is Resolve);
    assert(rest.len() > 0);
    assert(seq![action] + rest == course(run, action, around));
    Seq::filter_distributes_over_add(seq![action], rest, is_work);
    reveal_with_fuel(Seq::filter, 2);
    if action is Resolve {
        assert(work(seq![action]) =~= Seq::empty());
        assert(work(seq![action]) + work(rest) =~= work(rest));
    }
}

/// Two runs that ask for the same and do the same work afterwards do the same work.
proof fn lemma_same_step(
    one: (Run, RunActionModel),
    other: (Run, RunActionModel),
    around: Surroundings,
)
    requires
        one.1 == other.1,
        accepts(one.0, answer(one.1, around)),
        accepts(other.0, answer(other.1, around)),
        same_work(next(one.0, answer(one.1, around)), next(other.0, answer(other.1, around)), around),
    ensures
        same_work(one, other, around),
{
    lemma_course_step(one.0, one.1, around);
    lemma_course_step(other.0, other.1, around);
}

/// A run that is over asks for nothing more.
proof fn lemma_same_end(result: Result<(), FailureModel>, around: Surroundings)
    ensures
        same_work(finished(result), finished(result), around),
{
}

/// Once the subtitle files that were there already are seen to, it makes no difference to the
/// work whether it is known that a movie is to be downloaded, nor what the start is.
proof fn lemma_movie_after_existing_subtitles(
    args: DownloadArgs,
    other: DownloadArgs,
    known: Option<MediaType>,
    ffmpeg_available: bool,
    around: Surroundings,
)
    requires
        args == (DownloadArgs { start_from_episode: args.start_from_episode, ..other }),
        around.media matches Some(media) && media is Movie,
        known is Some ==> known == around.media,
    ensures
        same_work(
            after_existing_subtitles(args, known, ffmpeg_available, around.yt_dlp_available),
            after_existing_subtitles(other, None, ffmpeg_available, around.yt_dlp_available),
            around,
        ),
{
    let yt_dlp_available = around.yt_dlp_available;
    let one = after_existing_subtitles(args, known, ffmpeg_available, yt_dlp_available);
    let two = after_existing_subtitles(other, None, ffmpeg_available, yt_dlp_available);
    let media = around.media.unwrap();
    let download = (Run::Working, download_of(args, media, ffmpeg_available, yt_dlp_available));
    assert(download.1 == download_of(other, media, ffmpeg_available, yt_dlp_available));
    lemma_same_end(
        if around.work_succeeds {
            Ok(())
        } else {
            Err(FailureModel::Reported)
        },
        around,
    );
    lemma_same_step(download, download, around);
    if known is None {
        lemma_course_step(one.0, one.1, around);
    }
    lemma_course_step(two.0, two.1, around);
}

/// From its beginning on, it makes no difference to the work of a download whether it is known
/// that a movie is to be downloaded, nor what the start is.
proof fn lemma_movie_from_the_beginning(
    args: DownloadArgs,
    other: DownloadArgs,
    known: Option<MediaType>,
    around: Surroundings,
)
    requires
        args == (DownloadArgs { start_from_episode: args.start_from_episode, ..other }),
        around.media matches Some(media) && media is Movie,
        known is Some ==> known == around.media,
    ensures
        same_work(begin_download(args, known), begin_download(other, None), around),
{
    let ffmpeg_available = around.ffmpeg_available;
    let yt_dlp_available = around.yt_dlp_available;
    lemma_same_end(Err(FailureModel::Reported), around);
    lemma_movie_after_existing_subtitles(args, other, known, ffmpeg_available, around);
    let one = after_tools(args, known, ffmpeg_available, yt_dlp_available);
    let two = after_tools(other, None, ffmpeg_available, yt_dlp_available);
    assert(same_work(one, two, around)) by {
        if args.embed_existing_subtitles && !ffmpeg_available {
            lemma_same_end(one.1->result, around);
        } else if args.embed_existing_subtitles {
            lemma_same_step(one, two, around);
        }
    }
    let one = (Run::ProbingTools { args, known }, RunActionModel::ProbeTools);
    let two = (Run::ProbingTools { args: other, known: None }, RunActionModel::ProbeTools);
    lemma_same_step(one, two, around);
    if args.fix_existing_subtitles {
        lemma_same_step(begin_download(args, known), begin_download(other, None), around);
    }
}

/// The start is of no meaning for a movie: two downloads that differ in nothing but their start
/// ask for the same work, with the same download in it, and end with the same result. They may
/// differ in when they ask what the slug stands for.
pub proof fn lemma_start_is_ignored_for_movies(
    args: DownloadArgs,
    other: DownloadArgs,
    around: Surroundings,
)
    requires
        args == (DownloadArgs { start_from_episode: args.start_from_episode, ..other }),
        around.media matches Some(media) && media is Movie,
    ensures
        same_work(
            start(CatShowDownloaderArgs { command: Command::Download(args) }),
            start(CatShowDownloaderArgs { command: Command::Download(other) }),
            around,
        ),
{
    let one = start(CatShowDownloaderArgs { command: Command::Download(args) });
    let two = start(CatShowDownloaderArgs { command: Command::Download(other) });
    if args.start_from_episode < 1 {
        lemma_course_step(one.0, one.1, around);
        lemma_movie_from_the_beginning(args, other, around.media, around);
    } else {
        lemma_movie_from_the_beginning(args, other, None, around);
    }
    if other.start_from_episode < 1 {
        lemma_course_step(two.0, two.1, around);
        lemma_movie_from_the_beginning(other, other, around.media, around);
    }
}

/// A run for metadata downloads no video and touches no subtitles.
pub proof fn lemma_metadata_run_downloads_nothing(args: MetadataArgs, events: Seq<RunEvent>)
    requires
        answers(start(CatShowDownloaderArgs { command: Command::Metadata(args) }).0, events),
    ensures
        ({
            let run = start(CatShowDownloaderArgs { command: Command::Metadata(args) }).0;
            forall|i: int|
                0 <= i < events.len() ==> {
                    ||| (#[trigger] actions(run, events)[i]) is WriteMetadata
                    ||| actions(run, events)[i] is Finish
                }
        }),
{
    let run = start(CatShowDownloaderArgs { command: Command::Metadata(args) }).0;
    lemma_run_ends(run, events);
    if events.len() > 0 {
        let (after, action) = next(run, events.first());
        let rest = events.drop_first();
        assert(answers(after, rest));
        if rest.len() > 0 {
            let (end, last) = next(after, rest.first());
            assert(accepts(after, rest.first()));
            assert(last is Finish);
            assert(actions(after, rest)[0] == last);
        }
        assert forall|i: int| 0 <= i < events.len() implies {
            ||| (#[trigger] actions(run, events)[i]) is WriteMetadata
            ||| actions(run, events)[i] is Finish
        } by {
            if i > 0 {
                assert(actions(run, events)[i] == actions(after, rest)[i - 1]);
                assert(i == 1);
            }
        }
    }
}

/// Subtitle files that are there already are embedded only where that was asked for and ffmpeg
/// is there.
pub proof fn lemma_embedding_needs_ffmpeg(run: Run, event: RunEvent)
    requires
        accepts(run, event),
        next(run, event).1 is EmbedSubtitles,
    ensures
        run matches Run::ProbingTools { args, .. } && args.embed_existing_subtitles,
        event matches RunEvent::ToolsProbed { ffmpeg_available, .. } && ffmpeg_available,
{
}

/// Whether the run is one that began with `args`.
pub open spec fn is_for(run: Run, args: DownloadArgs) -> bool {
    match run {
        Run::CheckingStart(own) => own == args && args.start_from_episode < 1,
        Run::FixingSubtitles { args: own, known } => own == args && start_is_settled(args, known),
        Run::ProbingTools { args: own, known } => own == args && start_is_settled(args, known),
        Run::EmbeddingSubtitles { args: own, known, .. } => own == args && start_is_settled(
            args,
            known,
        ),
        Run::ResolvingDownload { args: own, .. } => own == args && args.start_from_episode >= 1,
        Run::ResolvingMetadata(_) => false,
        Run::Working => true,
        Run::Finished => true,
    }
}

/// Whether the start is one that a TV show can have, or does not matter.
pub open spec fn start_is_settled(args: DownloadArgs, known: Option<MediaType>) -> bool {
    match known {
        Some(media) => media is Movie,
        None => args.start_from_episode >= 1,
    }
}

/// Whether `settings` are those that `args` ask for: subtitles are skipped where they are to be,
/// whatever else is asked for, and whether they may be missing depends on nothing but the
/// argument for it.
pub open spec fn asked_for(settings: DownloadSettingsModel, args: DownloadArgs) -> bool {
    &&& settings.subtitle_mode is Skip <==> args.skip_subtitles
    &&& settings.missing_subtitle_policy is AllowMissing <==> args.allow_missing_subtitles
    &&& settings.directory == args.target.directory@
    &&& settings.concurrent_downloads == args.concurrent_downloads
}

/// Whether `settings` fit the tools: subtitles are embedded exactly where they are not skipped and
/// ffmpeg is there, and yt-dlp is used exactly where it is there.
pub open spec fn fit_the_tools(
    settings: DownloadSettingsModel,
    args: DownloadArgs,
    ffmpeg_available: bool,
    yt_dlp_available: bool,
) -> bool {
    &&& settings.subtitle_mode is Embed <==> !args.skip_subtitles && ffmpeg_available
    &&& settings.subtitle_mode is Download <==> !args.skip_subtitles && !ffmpeg_available
    &&& settings.yt_dlp_available == yt_dlp_available
}

/// Whether the run knows no other tools than these.
pub open spec fn knows_tools(run: Run, ffmpeg_available: bool, yt_dlp_available: bool) -> bool {
    match run {
        Run::EmbeddingSubtitles { yt_dlp_available: known, .. } => ffmpeg_available && known
            == yt_dlp_available,
        Run::ResolvingDownload { ffmpeg_available: f, yt_dlp_available: y, .. } => f
            == ffmpeg_available && y == yt_dlp_available,
        _ => true,
    }
}

/// The settings that are handed to a download, of a TV show or of a movie, fit what the tools were
/// found to be in that run.
pub proof fn lemma_settings_fit_the_tools(
    run: Run,
    args: DownloadArgs,
    events: Seq<RunEvent>,
    ffmpeg_available: bool,
    yt_dlp_available: bool,
    i: int,
)
    requires
        is_for(run, args),
        knows_tools(run, ffmpeg_available, yt_dlp_available),
        answers(run, events),
        forall|k: int|
            0 <= k < events.len() ==> (#[trigger] events[k] matches RunEvent::ToolsProbed {
                ffmpeg_available: f,
                yt_dlp_available: y,
            } ==> f == ffmpeg_available && y == yt_dlp_available),
        0 <= i < events.len(),
    ensures
        match actions(run, events)[i] {
            RunActionModel::DownloadTvShow { settings, .. } => fit_the_tools(
                settings,
                args,
                ffmpeg_available,
                yt_dlp_available,
            ),
            RunActionModel::DownloadMovie { settings, .. } => fit_the_tools(
                settings,
                args,
                ffmpeg_available,
                yt_dlp_available,
            ),
            _ => true,
        },
    decreases events.len(),
{
    let (after, action) = next(run, events.first());
    let rest = events.drop_first();
    assert(events[0] == events.first());
    assert(is_for(after, args));
    assert(knows_tools(after, ffmpeg_available, yt_dlp_available));
    lemma_run_ends(after, rest);
    if i > 0 {
        assert forall|k: int| 0 <= k < rest.len() implies (#[trigger] rest[k] matches
            RunEvent::ToolsProbed { ffmpeg_available: f, yt_dlp_available: y } ==> f
            == ffmpeg_available && y == yt_dlp_available) by {
            assert(rest[k] == events[k + 1]);
        }
        lemma_settings_fit_the_tools(
            after,
            args,
            rest,
            ffmpeg_available,
            yt_dlp_available,
            i - 1,
        );
        assert(actions(run, events)[i] == actions(after, rest)[i - 1]);
    }
}

/// Whether what is asked for, if it is a download, is the one that `args` ask for.
pub open spec fn downloads_as_asked(action: RunActionModel, args: DownloadArgs) -> bool {
    match action {
        RunActionModel::DownloadTvShow { start_from_episode, settings, .. } => {
            &&& start_from_episode == args.start_from_episode
            &&& start_from_episode >= 1
            &&& asked_for(settings, args)
        },
        RunActionModel::DownloadMovie { settings, .. } => asked_for(settings, args),
        _ => true,
    }
}

/// [`lemma_download_gets_its_settings`], from any point of a run on.
proof fn lemma_settings_from(run: Run, args: DownloadArgs, events: Seq<RunEvent>, i: int)
    requires
        is_for(run, args),
        answers(run, events),
        0 <= i < events.len(),
    ensures
        downloads_as_asked(actions(run, events)[i], args),
    decreases events.len(),
{
    let (after, action) = next(run, events.first());
    let rest = events.drop_first();
    assert(is_for(after, args));
    assert(downloads_as_asked(action, args));
    lemma_run_ends(after, rest);
    if i > 0 {
        lemma_settings_from(after, args, rest, i - 1);
        assert(actions(run, events)[i] == actions(after, rest)[i - 1]);
    }
}

/// Whatever comes of the work, a download is handed the settings that its arguments and the tools
/// ask for, and no TV show is downloaded from a start below the first episode.
pub proof fn lemma_download_gets_its_settings(args: DownloadArgs, events: Seq<RunEvent>, i: int)
    requires
        answers(start(CatShowDownloaderArgs { command: Command::Download(args) }).0, events),
        0 <= i < events.len(),
    ensures
        downloads_as_asked(
            actions(start(CatShowDownloaderArgs { command: Command::Download(args) }).0, events)[i],
            args,
        ),
{
    lemma_settings_from(
        start(CatShowDownloaderArgs { command: Command::Download(args) }).0,
        args,
        events,
        i,
    );
}

} // verus!
