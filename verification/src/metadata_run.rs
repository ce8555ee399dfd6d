//! The retrieval of the metadata of a TV show, as a machine: it names the work that is to be
//! done next, and takes what came of it.

use vstd::prelude::*;

use crate::api_structs::{MetadataEpisode, MetadataEpisodesRoot};
use crate::error::{workflow_model, Error, ErrorModel, Failure, FailureModel};
use crate::metadata::{
    cover_file_name, cover_name, cover_url, episode_item, episode_list, episode_list_url,
    extracted, manifest_path, map_episode_metadata, media_item_from_episode, metadata_file_path,
    select_cover_url, url_extension,
};
use crate::models::{MediaItem, MediaItemModel};
use crate::paths::{join, join_path};
use crate::text::{decimal, decimal_text};

verus! {

/// What the manifest holds of an episode.
#[derive(Debug, PartialEq, Eq)]
pub struct MetadataOutputEntry {
    /// Title.
    pub title: Option<String>,
    /// When the episode was published.
    pub publication_date: Option<String>,
    /// When the episode was broadcast.
    pub emission_date: Option<String>,
    /// Name of the file that the cover is stored in.
    pub cover_path: Option<String>,
}

/// A [`MetadataOutputEntry`], with its texts as sequences of characters.
#[verifier::ext_equal]
pub struct MetadataOutputEntryModel {
    pub title: Option<Seq<char>>,
    pub publication_date: Option<Seq<char>>,
    pub emission_date: Option<Seq<char>>,
    pub cover_path: Option<Seq<char>>,
}

impl DeepView for MetadataOutputEntry {
    type V = MetadataOutputEntryModel;

    open spec fn deep_view(&self) -> MetadataOutputEntryModel {
        MetadataOutputEntryModel {
            title: self.title.deep_view(),
            publication_date: self.publication_date.deep_view(),
            emission_date: self.emission_date.deep_view(),
            cover_path: self.cover_path.deep_view(),
        }
    }
}

/// What the manifest holds of an episode whose cover is stored in the file `cover_path`.
pub open spec fn output_entry(
    episode: MetadataEpisode,
    cover_path: Option<Seq<char>>,
) -> MetadataOutputEntryModel {
    MetadataOutputEntryModel {
        title: extracted(episode).title,
        publication_date: extracted(episode).publication_date,
        emission_date: extracted(episode).emission_date,
        cover_path,
    }
}

/// Makes the entry of an episode.
fn make_entry(episode: &MetadataEpisode, cover_path: Option<String>) -> (entry: MetadataOutputEntry)
    ensures
        entry.deep_view() == output_entry(*episode, cover_path.deep_view()),
{
    let kept = map_episode_metadata(episode);
    MetadataOutputEntry {
        title: kept.title,
        publication_date: kept.publication_date,
        emission_date: kept.emission_date,
        cover_path,
    }
}

/// Work that the machine asks for.
#[derive(Debug, PartialEq, Eq)]
pub enum MetadataAction {
    /// Create the directory, and those above it, unless they are there.
    CreateDirectory { directory: String },
    /// Fetch the list of episodes.
    FetchEpisodes { url: String },
    /// Find the stem of the names of the files that are stored for an item.
    NameItem { item: MediaItem },
    /// Download a cover; `label` stands for it on the screen.
    DownloadCover { url: String, path: String, label: String },
    /// Serialize the entries, and write them to a file.
    WriteManifest { path: String, entries: Vec<MetadataOutputEntry> },
    /// Nothing: the work is over, with this result.
    Finish { result: Result<(), Failure> },
}

/// A [`MetadataAction`], with its texts as sequences of characters.
#[verifier::ext_equal]
pub enum MetadataActionModel {
    CreateDirectory { directory: Seq<char> },
    FetchEpisodes { url: Seq<char> },
    NameItem { item: MediaItemModel },
    DownloadCover { url: Seq<char>, path: Seq<char>, label: Seq<char> },
    WriteManifest { path: Seq<char>, entries: Seq<MetadataOutputEntryModel> },
    Finish { result: Result<(), FailureModel> },
}

impl DeepView for MetadataAction {
    type V = MetadataActionModel;

    open spec fn deep_view(&self) -> MetadataActionModel {
        match self {
            MetadataAction::CreateDirectory { directory } => MetadataActionModel::CreateDirectory {
                directory: directory@,
            },
            MetadataAction::FetchEpisodes { url } => MetadataActionModel::FetchEpisodes {
                url: url@,
            },
            MetadataAction::NameItem { item } => MetadataActionModel::NameItem {
                item: item.deep_view(),
            },
            MetadataAction::DownloadCover { url, path, label } =>
            MetadataActionModel::DownloadCover { url: url@, path: path@, label: label@ },
            MetadataAction::WriteManifest { path, entries } => MetadataActionModel::WriteManifest {
                path: path@,
                entries: entries.deep_view(),
            },
            MetadataAction::Finish { result } => MetadataActionModel::Finish {
                result: workflow_model(*result),
            },
        }
    }
}

/// What the machine asks for at one time.
#[derive(Debug, PartialEq, Eq)]
pub struct MetadataStep {
    /// A warning for the user.
    pub warning: Option<String>,
    /// The work to be done.
    pub action: MetadataAction,
}

/// A [`MetadataStep`], with its texts as sequences of characters.
#[verifier::ext_equal]
pub struct MetadataStepModel {
    pub warning: Option<Seq<char>>,
    pub action: MetadataActionModel,
}

impl DeepView for MetadataStep {
    type V = MetadataStepModel;

    open spec fn deep_view(&self) -> MetadataStepModel {
        MetadataStepModel { warning: self.warning.deep_view(), action: self.action.deep_view() }
    }
}

/// Why the manifest is not there.
#[derive(Debug)]
pub enum ManifestError {
    /// The entries could not be serialized.
    Serialize(String),
    /// The file could not be written.
    Write(String),
}

/// What came of the work; a text says why it failed.
#[derive(Debug)]
pub enum MetadataEvent {
    /// The directory is there, or not.
    DirectoryCreated(Result<(), String>),
    /// The list of episodes, or none.
    EpisodesFetched(Result<MetadataEpisodesRoot, String>),
    /// The stem of the file names, or none.
    Named(Result<String, String>),
    /// The cover was downloaded, or not.
    CoverDownloaded(Result<(), String>),
    /// The manifest was written, or not.
    ManifestWritten(Result<(), ManifestError>),
}

/// How far the retrieval is.
#[derive(Debug, PartialEq, Eq)]
pub enum MetadataPhase {
    /// Waits for the directory.
    CreatingDirectory,
    /// Waits for the list of episodes.
    Fetching,
    /// Waits for the file names of the episode that is next.
    Naming,
    /// Waits for the cover of the episode that is next.
    Downloading { cover_path: String },
    /// Waits for the manifest.
    Writing,
    /// Is over.
    Finished,
}

/// A [`MetadataPhase`], with its texts as sequences of characters.
#[verifier::ext_equal]
pub enum MetadataPhaseModel {
    CreatingDirectory,
    Fetching,
    Naming,
    Downloading { cover_path: Seq<char> },
    Writing,
    Finished,
}

impl DeepView for MetadataPhase {
    type V = MetadataPhaseModel;

    open spec fn deep_view(&self) -> MetadataPhaseModel {
        match self {
            MetadataPhase::CreatingDirectory => MetadataPhaseModel::CreatingDirectory,
            MetadataPhase::Fetching => MetadataPhaseModel::Fetching,
            MetadataPhase::Naming => MetadataPhaseModel::Naming,
            MetadataPhase::Downloading { cover_path } => MetadataPhaseModel::Downloading {
                cover_path: cover_path@,
            },
            MetadataPhase::Writing => MetadataPhaseModel::Writing,
            MetadataPhase::Finished => MetadataPhaseModel::Finished,
        }
    }
}

/// The retrieval of the metadata of one TV show.
#[derive(Debug)]
pub struct MetadataRun {
    /// Identifier of the TV show.
    tv_show_id: i32,
    /// Slug of the TV show.
    slug: String,
    /// Directory that the files are stored in.
    directory: String,
    /// The episodes, once they are known.
    episodes: Vec<MetadataEpisode>,
    /// The entries of the episodes that are done; the next episode follows them.
    entries: Vec<MetadataOutputEntry>,
    /// How far the retrieval is.
    phase: MetadataPhase,
}

/// A [`MetadataRun`], with its texts as sequences of characters.
#[verifier::ext_equal]
pub struct MetadataRunModel {
    pub tv_show_id: i32,
    pub slug: Seq<char>,
    pub directory: Seq<char>,
    pub episodes: Seq<MetadataEpisode>,
    pub entries: Seq<MetadataOutputEntryModel>,
    pub phase: MetadataPhaseModel,
}

impl DeepView for MetadataRun {
    type V = MetadataRunModel;

    closed spec fn deep_view(&self) -> MetadataRunModel {
        MetadataRunModel {
            tv_show_id: self.tv_show_id,
            slug: self.slug@,
            directory: self.directory@,
            episodes: self.episodes@,
            entries: self.entries.deep_view(),
            phase: self.phase.deep_view(),
        }
    }
}

impl MetadataRunModel {
    /// Whether the phase fits what is known: while a cover is on the way, there is a next
    /// episode, and it has a cover.
    pub open spec fn well_formed(self) -> bool {
        self.phase is Naming || self.phase is Downloading ==> {
            &&& self.entries.len() < self.episodes.len()
            &&& cover_url(self.episodes[self.entries.len() as int].images@) is Some
        }
    }
}

/// Whether `event` is an answer to what the machine asked for when it entered `phase`.
pub open spec fn accepts(phase: MetadataPhaseModel, event: MetadataEvent) -> bool {
    match phase {
        MetadataPhaseModel::CreatingDirectory => event is DirectoryCreated,
        MetadataPhaseModel::Fetching => event is EpisodesFetched,
        MetadataPhaseModel::Naming => event is Named,
        MetadataPhaseModel::Downloading { .. } => event is CoverDownloaded,
        MetadataPhaseModel::Writing => event is ManifestWritten,
        MetadataPhaseModel::Finished => false,
    }
}

/// The work is over with `result`.
pub open spec fn finished(m: MetadataRunModel, result: Result<(), FailureModel>) -> (
    MetadataRunModel,
    MetadataStepModel,
) {
    (
        MetadataRunModel { phase: MetadataPhaseModel::Finished, ..m },
        MetadataStepModel { warning: None, action: MetadataActionModel::Finish { result } },
    )
}

/// Goes through the episodes that are left: up to the first one with a cover, which is fetched,
/// or to the end, where the entries are handed over to the manifest.
pub open spec fn advance(m: MetadataRunModel) -> (MetadataRunModel, MetadataStepModel)
    decreases m.episodes.len() - m.entries.len(),
{
    if m.entries.len() >= m.episodes.len() {
        (
            MetadataRunModel {
                phase: MetadataPhaseModel::Writing,
                entries: Seq::empty(),
                ..m
            },
            MetadataStepModel {
                warning: None,
                action: MetadataActionModel::WriteManifest {
                    path: manifest_path(m.directory, m.slug),
                    entries: m.entries,
                },
            },
        )
    } else {
        let episode = m.episodes[m.entries.len() as int];
        if cover_url(episode.images@) is Some {
            (
                MetadataRunModel { phase: MetadataPhaseModel::Naming, ..m },
                MetadataStepModel {
                    warning: None,
                    action: MetadataActionModel::NameItem { item: episode_item(episode) },
                },
            )
        } else {
            advance(
                MetadataRunModel { entries: m.entries.push(output_entry(episode, None)), ..m },
            )
        }
    }
}

/// The next episode is done, with its cover stored in the file `cover_path`.
pub open spec fn after_cover(
    m: MetadataRunModel,
    cover_path: Option<Seq<char>>,
    warning: Option<Seq<char>>,
) -> (MetadataRunModel, MetadataStepModel) {
    let episode = m.episodes[m.entries.len() as int];
    let (after, step) = advance(
        MetadataRunModel { entries: m.entries.push(output_entry(episode, cover_path)), ..m },
    );
    (after, MetadataStepModel { warning, ..step })
}

/// The warning that the cover of `item` is missing, as characters.
pub open spec fn cover_failed_text(item: MediaItemModel, reason: Seq<char>) -> Seq<char> {
    "Failed to download cover for episode "@ + item.title + " (id="@ + decimal(item.id as int)
        + "): "@ + reason
}

/// The next episode is done, without its cover.
pub open spec fn after_cover_failure(m: MetadataRunModel, reason: Seq<char>) -> (
    MetadataRunModel,
    MetadataStepModel,
) {
    let episode = m.episodes[m.entries.len() as int];
    after_cover(m, None, Some(cover_failed_text(episode_item(episode), reason)))
}

/// Why the manifest is not there, for the user.
pub open spec fn manifest_failure(m: MetadataRunModel, error: ManifestError) -> FailureModel {
    match error {
        ManifestError::Serialize(cause) => FailureModel::Context {
            context: "failed to serialize metadata manifest to JSON"@,
            cause: cause@,
        },
        ManifestError::Write(cause) => FailureModel::Context {
            context: "failed to write metadata manifest '"@ + manifest_path(m.directory, m.slug)
                + "'"@,
            cause: cause@,
        },
    }
}

/// Where the machine goes on `event`, and what it asks for next.
pub open spec fn next(m: MetadataRunModel, event: MetadataEvent) -> (
    MetadataRunModel,
    MetadataStepModel,
)
    recommends
        m.well_formed(),
        accepts(m.phase, event),
{
    match (m.phase, event) {
        (MetadataPhaseModel::CreatingDirectory, MetadataEvent::DirectoryCreated(Ok(()))) => (
            MetadataRunModel { phase: MetadataPhaseModel::Fetching, ..m },
            MetadataStepModel {
                warning: None,
                action: MetadataActionModel::FetchEpisodes { url: episode_list(m.tv_show_id) },
            },
        ),
        (MetadataPhaseModel::CreatingDirectory, MetadataEvent::DirectoryCreated(Err(cause))) =>
        finished(
            m,
            Err(
                FailureModel::Context {
                    context: "failed to create metadata output directory '"@ + m.directory + "'"@,
                    cause: cause@,
                },
            ),
        ),
        (MetadataPhaseModel::Fetching, MetadataEvent::EpisodesFetched(Ok(root))) => advance(
            MetadataRunModel {
                episodes: root.response.items.item@,
                entries: Seq::empty(),
                ..m
            },
        ),
        (MetadataPhaseModel::Fetching, MetadataEvent::EpisodesFetched(Err(reason))) => finished(
            m,
            Err(FailureModel::Known(ErrorModel::Decoding(reason@))),
        ),
        (MetadataPhaseModel::Naming, MetadataEvent::Named(Ok(stem))) => {
            let episode = m.episodes[m.entries.len() as int];
            let url = cover_url(episode.images@)->0;
            let name = cover_name(stem@, episode.id, url_extension(url));
            (
                MetadataRunModel {
                    phase: MetadataPhaseModel::Downloading { cover_path: name },
                    ..m
                },
                MetadataStepModel {
                    warning: None,
                    action: MetadataActionModel::DownloadCover {
                        url,
                        path: join(m.directory, name),
                        label: name,
                    },
                },
            )
        },
        (MetadataPhaseModel::Naming, MetadataEvent::Named(Err(reason))) => after_cover_failure(
            m,
            reason@,
        ),
        (
            MetadataPhaseModel::Downloading { cover_path },
            MetadataEvent::CoverDownloaded(Ok(())),
        ) => after_cover(m, Some(cover_path), None),
        (
            MetadataPhaseModel::Downloading { .. },
            MetadataEvent::CoverDownloaded(Err(reason)),
        ) => after_cover_failure(m, reason@),
        (MetadataPhaseModel::Writing, MetadataEvent::ManifestWritten(Ok(()))) => finished(
            m,
            Ok(()),
        ),
        (MetadataPhaseModel::Writing, MetadataEvent::ManifestWritten(Err(error))) => finished(
            m,
            Err(manifest_failure(m, error)),
        ),
        _ => arbitrary(),
    }
}

/// What is done next with the episodes that are left does not depend on the phase.
proof fn lemma_advance_from_any_phase(m: MetadataRunModel, phase: MetadataPhaseModel)
    ensures
        advance(MetadataRunModel { phase, ..m }) == advance(m),
    decreases m.episodes.len() - m.entries.len(),
{
    if m.entries.len() < m.episodes.len() {
        let episode = m.episodes[m.entries.len() as int];
        if cover_url(episode.images@) is None {
            lemma_advance_from_any_phase(
                MetadataRunModel { entries: m.entries.push(output_entry(episode, None)), ..m },
                phase,
            );
        }
    }
}

/// Nor does what is done after a cover.
proof fn lemma_cover_from_any_phase(
    m: MetadataRunModel,
    phase: MetadataPhaseModel,
    cover_path: Option<Seq<char>>,
    warning: Option<Seq<char>>,
)
    ensures
        after_cover(MetadataRunModel { phase, ..m }, cover_path, warning) == after_cover(
            m,
            cover_path,
            warning,
        ),
{
    let episode = m.episodes[m.entries.len() as int];
    lemma_advance_from_any_phase(
        MetadataRunModel { entries: m.entries.push(output_entry(episode, cover_path)), ..m },
        phase,
    );
}

/// How the retrieval of the metadata of a TV show begins.
pub open spec fn start(tv_show_id: i32, slug: Seq<char>, directory: Seq<char>) -> (
    MetadataRunModel,
    MetadataStepModel,
) {
    (
        MetadataRunModel {
            tv_show_id,
            slug,
            directory,
            episodes: Seq::empty(),
            entries: Seq::empty(),
            phase: MetadataPhaseModel::CreatingDirectory,
        },
        MetadataStepModel {
            warning: None,
            action: MetadataActionModel::CreateDirectory { directory },
        },
    )
}

impl MetadataRun {
    /// Begins the retrieval of the metadata of a TV show.
    pub fn start(tv_show_id: i32, slug: &str, directory: &str) -> (res: (MetadataRun, MetadataStep))
        ensures
            (res.0.deep_view(), res.1.deep_view()) == start(tv_show_id, slug@, directory@),
            res.0.deep_view().well_formed(),
            res.0.deep_view() == (MetadataRunModel {
                tv_show_id,
                slug: slug@,
                directory: directory@,
                episodes: Seq::empty(),
                entries: Seq::empty(),
                phase: MetadataPhaseModel::CreatingDirectory,
            }),
            res.1.deep_view() == (MetadataStepModel {
                warning: None,
                action: MetadataActionModel::CreateDirectory { directory: directory@ },
            }),
    {
        let run = MetadataRun {
            tv_show_id,
            slug: slug.to_owned(),
            directory: directory.to_owned(),
            episodes: Vec::new(),
            entries: Vec::new(),
            phase: MetadataPhase::CreatingDirectory,
        };
        let action = MetadataAction::CreateDirectory { directory: directory.to_owned() };
        assert(run.entries.deep_view() =~= Seq::empty());
        (run, MetadataStep { warning: None, action })
    }

    /// Takes what came of the work that was asked for, and says what is to be done next.
    pub fn step(self, event: MetadataEvent) -> (res: (MetadataRun, MetadataStep))
        requires
            self.deep_view().well_formed(),
            accepts(self.deep_view().phase, event),
        ensures
            res.0.deep_view().well_formed(),
            (res.0.deep_view(), res.1.deep_view()) == next(self.deep_view(), event),
    {
        let MetadataRun { tv_show_id, slug, directory, episodes, entries, phase } = self;
        let m = MetadataRun {
            tv_show_id,
            slug,
            directory,
            episodes,
            entries,
            phase: MetadataPhase::Finished,
        };
        let ghost waiting = phase.deep_view();
        match (phase, event) {
            (MetadataPhase::CreatingDirectory, MetadataEvent::DirectoryCreated(Ok(()))) => {
                let url = episode_list_url(m.tv_show_id);
                (
                    MetadataRun { phase: MetadataPhase::Fetching, ..m },
                    MetadataStep { warning: None, action: MetadataAction::FetchEpisodes { url } },
                )
            },
            (MetadataPhase::CreatingDirectory, MetadataEvent::DirectoryCreated(Err(cause))) => {
                let mut context = "failed to create metadata output directory '".to_owned();
                context.append(m.directory.as_str());
                context.append("'");
                m.finish(Err(Failure::Context { context, cause }))
            },
            (MetadataPhase::Fetching, MetadataEvent::EpisodesFetched(Ok(root))) => {
                let fresh = MetadataRun {
                    episodes: root.response.items.item,
                    entries: Vec::new(),
                    ..m
                };
                assert(fresh.entries.deep_view() =~= Seq::empty());
                proof {
                    lemma_advance_from_any_phase(fresh.deep_view(), waiting);
                }
                fresh.go_on()
            },
            (MetadataPhase::Fetching, MetadataEvent::EpisodesFetched(Err(reason))) => m.finish(
                Err(Failure::Known(Error::Decoding(reason))),
            ),
            (MetadataPhase::Naming, MetadataEvent::Named(Ok(stem))) => m.step_name(stem),
            (MetadataPhase::Naming, MetadataEvent::Named(Err(reason))) => m.miss_cover(
                reason,
                Ghost(waiting),
            ),
            (
                MetadataPhase::Downloading { cover_path },
                MetadataEvent::CoverDownloaded(Ok(())),
            ) => m.take_cover(Some(cover_path), None, Ghost(waiting)),
            (
                MetadataPhase::Downloading { cover_path: _ },
                MetadataEvent::CoverDownloaded(Err(reason)),
            ) => m.miss_cover(reason, Ghost(waiting)),
            (MetadataPhase::Writing, MetadataEvent::ManifestWritten(Ok(()))) => m.finish(Ok(())),
            (MetadataPhase::Writing, MetadataEvent::ManifestWritten(Err(error))) => {
                let failure = m.explain(error);
                m.finish(Err(failure))
            },
            _ => {
                assert(false);
                m.finish(Ok(()))
            },
        }
    }

    /// Ends the work.
    fn finish(self, result: Result<(), Failure>) -> (res: (MetadataRun, MetadataStep))
        ensures
            (res.0.deep_view(), res.1.deep_view()) == finished(
                self.deep_view(),
                workflow_model(result),
            ),
    {
        (
            MetadataRun { phase: MetadataPhase::Finished, ..self },
            MetadataStep { warning: None, action: MetadataAction::Finish { result } },
        )
    }

    /// Goes through the episodes that are left.
    fn go_on(self) -> (res: (MetadataRun, MetadataStep))
        ensures
            res.0.deep_view().well_formed(),
            (res.0.deep_view(), res.1.deep_view()) == advance(self.deep_view()),
    {
        let mut m = self;
        while m.entries.len() < m.episodes.len()
            invariant
                advance(m.deep_view()) == advance(self.deep_view()),
            decreases m.episodes.len() - m.entries.len(),
        {
            let episode = &m.episodes[m.entries.len()];
            if select_cover_url(episode.images.as_slice()).is_some() {
                let action = MetadataAction::NameItem { item: media_item_from_episode(episode) };
                return (
                    MetadataRun { phase: MetadataPhase::Naming, ..m },
                    MetadataStep { warning: None, action },
                );
            }
            let entry = make_entry(episode, None);
            let ghost before = m.deep_view();
            m.entries.push(entry);
            assert(m.entries.deep_view() =~= before.entries.push(entry.deep_view()));
        }
        let path = metadata_file_path(m.directory.as_str(), m.slug.as_str());
        let MetadataRun { tv_show_id, slug, directory, episodes, entries, phase: _ } = m;
        let after = MetadataRun {
            tv_show_id,
            slug,
            directory,
            episodes,
            entries: Vec::new(),
            phase: MetadataPhase::Writing,
        };
        assert(after.entries.deep_view() =~= Seq::empty());
        let action = MetadataAction::WriteManifest { path, entries };
        (after, MetadataStep { warning: None, action })
    }

    /// Whether there is a next episode, and it has a cover.
    spec fn has_next_cover(self) -> bool {
        &&& self.entries.len() < self.episodes.len()
        &&& cover_url(self.episodes[self.entries.len() as int].images@) is Some
    }

    /// Goes on from the stem of the file names.
    fn step_name(self, stem: String) -> (res: (MetadataRun, MetadataStep))
        requires
            self.has_next_cover(),
        ensures
            res.0.deep_view().well_formed(),
            ({
                let m = MetadataRunModel { phase: MetadataPhaseModel::Naming, ..self.deep_view() };
                (res.0.deep_view(), res.1.deep_view()) == next(m, MetadataEvent::Named(Ok(stem)))
            }),
    {
        let episode = &self.episodes[self.entries.len()];
        let (url, name) = match select_cover_url(episode.images.as_slice()) {
            Some(url) => (url.to_owned(), cover_file_name(stem.as_str(), episode.id, url)),
            None => {
                assert(false);
                (String::new(), String::new())
            },
        };
        let action = MetadataAction::DownloadCover {
            url,
            path: join_path(self.directory.as_str(), name.as_str()),
            label: name.clone(),
        };
        (
            MetadataRun { phase: MetadataPhase::Downloading { cover_path: name }, ..self },
            MetadataStep { warning: None, action },
        )
    }

    /// Goes on from the cover of the next episode.
    fn take_cover(
        self,
        cover_path: Option<String>,
        warning: Option<String>,
        Ghost(phase): Ghost<MetadataPhaseModel>,
    ) -> (res: (MetadataRun, MetadataStep))
        requires
            self.has_next_cover(),
        ensures
            res.0.deep_view().well_formed(),
            (res.0.deep_view(), res.1.deep_view()) == after_cover(
                MetadataRunModel { phase, ..self.deep_view() },
                cover_path.deep_view(),
                warning.deep_view(),
            ),
    {
        proof {
            lemma_cover_from_any_phase(
                self.deep_view(),
                phase,
                cover_path.deep_view(),
                warning.deep_view(),
            );
        }
        let mut m = self;
        let entry = make_entry(&m.episodes[m.entries.len()], cover_path);
        m.entries.push(entry);
        assert(m.entries.deep_view() =~= self.entries.deep_view().push(entry.deep_view()));
        let (after, step) = m.go_on();
        (after, MetadataStep { warning, ..step })
    }

    /// Goes on without the cover of the next episode.
    fn miss_cover(self, reason: String, Ghost(phase): Ghost<MetadataPhaseModel>) -> (res: (
        MetadataRun,
        MetadataStep,
    ))
        requires
            self.has_next_cover(),
        ensures
            res.0.deep_view().well_formed(),
            (res.0.deep_view(), res.1.deep_view()) == after_cover_failure(
                MetadataRunModel { phase, ..self.deep_view() },
                reason@,
            ),
    {
        let item = media_item_from_episode(&self.episodes[self.entries.len()]);
        let mut warning = "Failed to download cover for episode ".to_owned();
        warning.append(item.title.as_str());
        warning.append(" (id=");
        warning.append(decimal_text(item.id).as_str());
        warning.append("): ");
        warning.append(reason.as_str());
        self.take_cover(None, Some(warning), Ghost(phase))
    }

    /// Says why the manifest is not there.
    fn explain(&self, error: ManifestError) -> (failure: Failure)
        ensures
            failure.deep_view() == manifest_failure(self.deep_view(), error),
    {
        match error {
            ManifestError::Serialize(cause) => {
                let context = "failed to serialize metadata manifest to JSON".to_owned();
                Failure::Context { context, cause }
            },
            ManifestError::Write(cause) => {
                let mut context = "failed to write metadata manifest '".to_owned();
                let path = metadata_file_path(self.directory.as_str(), self.slug.as_str());
                context.append(path.as_str());
                context.append("'");
                Failure::Context { context, cause }
            },
        }
    }
}

} // verus!
