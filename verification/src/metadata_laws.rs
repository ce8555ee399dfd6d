//! What holds of every retrieval of metadata, whatever the work on the way comes to.

use vstd::prelude::*;

use crate::api_structs::{MetadataEpisode, MetadataEpisodesRoot, MetadataImage};
use crate::error::{ErrorModel, FailureModel};
use crate::metadata::{
    cover_name, cover_url, episode_item, episode_list, is_core_of, is_cover, is_kept_of_date,
    lemma_cover_names_differ, lemma_extracted_field_by_field, manifest_path, url_extension,
};
use crate::metadata_run::{
    accepts, advance, after_cover, next, output_entry, start, ManifestError, MetadataActionModel,
    MetadataEvent, MetadataOutputEntryModel, MetadataPhaseModel, MetadataRunModel,
    MetadataStepModel,
};
use crate::paths::join;
use crate::text::{decimal, lower};

verus! {

/// The case of the size of an image has no influence on whether it is a cover.
pub proof fn lemma_size_case_does_not_matter(a: MetadataImage, b: MetadataImage)
    requires
        a.size is Some && b.size is Some,
        lower(a.size->0@) == lower(b.size->0@),
        a.relation_name == b.relation_name,
    ensures
        is_cover(a) == is_cover(b),
{
}

/// An entry holds what is kept of its own episode, field by field, and the cover that it was made
/// with.
pub proof fn lemma_entry_field_by_field(episode: MetadataEpisode, cover_path: Option<Seq<char>>)
    ensures
        ({
            let entry = output_entry(episode, cover_path);
            &&& entry.cover_path == cover_path
            &&& match episode.title {
                Some(title) => is_core_of(entry.title, title@),
                None => entry.title is None,
            }
            &&& is_kept_of_date(entry.publication_date, episode.publication_date)
            &&& is_kept_of_date(entry.emission_date, episode.emission_date)
        }),
{
    lemma_extracted_field_by_field(episode);
}

/// A retrieval begins with the show, the slug and the directory that it is given, without any
/// entries, and has that directory created.
pub proof fn lemma_beginning(tv_show_id: i32, slug: Seq<char>, directory: Seq<char>)
    ensures
        ({
            let (m, step) = start(tv_show_id, slug, directory);
            &&& begun(m)
            &&& m.tv_show_id == tv_show_id
            &&& m.slug == slug
            &&& m.directory == directory
            &&& step.warning is None
            &&& step.action matches MetadataActionModel::CreateDirectory { directory: asked }
                && asked == directory
            &&& forall|r: Result<(), String>| #[trigger]
                accepts(m.phase, MetadataEvent::DirectoryCreated(r))
        }),
{
}

/// A retrieval first has the directory created and then the episodes of its show listed. Work that
/// fails there, and a manifest that cannot be written, end it with an error that says what was
/// being done. A manifest that is written ends it well.
pub proof fn lemma_beginning_and_end(m: MetadataRunModel, event: MetadataEvent)
    requires
        accepts(m.phase, event),
    ensures
        ({
            let (after, step) = next(m, event);
            let fails = |failure: FailureModel|
                after.phase is Finished && step == (MetadataStepModel {
                    warning: None,
                    action: MetadataActionModel::Finish { result: Err(failure) },
                });
            match event {
                MetadataEvent::DirectoryCreated(Ok(())) => {
                    &&& after == (MetadataRunModel { phase: MetadataPhaseModel::Fetching, ..m })
                    &&& step.warning is None
                    &&& step.action == (MetadataActionModel::FetchEpisodes {
                        url: episode_list(m.tv_show_id),
                    })
                },
                MetadataEvent::DirectoryCreated(Err(cause)) => fails(
                    FailureModel::Context {
                        context: "failed to create metadata output directory '"@ + m.directory
                            + "'"@,
                        cause: cause@,
                    },
                ),
                MetadataEvent::EpisodesFetched(Err(reason)) => fails(
                    FailureModel::Known(ErrorModel::Decoding(reason@)),
                ),
                MetadataEvent::ManifestWritten(Ok(())) => {
                    &&& after.phase is Finished
                    &&& step.warning is None
                    &&& step.action == (MetadataActionModel::Finish { result: Ok(()) })
                },
                MetadataEvent::ManifestWritten(Err(ManifestError::Serialize(cause))) => fails(
                    FailureModel::Context {
                        context: "failed to serialize metadata manifest to JSON"@,
                        cause: cause@,
                    },
                ),
                MetadataEvent::ManifestWritten(Err(ManifestError::Write(cause))) => fails(
                    FailureModel::Context {
                        context: "failed to write metadata manifest '"@ + manifest_path(
                            m.directory,
                            m.slug,
                        ) + "'"@,
                        cause: cause@,
                    },
                ),
                _ => true,
            }
        }),
{
}

/// Once the episode that is next has a name for its files, its cover is downloaded into the
/// directory: from the URL that was picked for it, into a file that is called by that name, by the
/// identifier of the episode and by the extension of the URL.
pub proof fn lemma_named_cover_is_downloaded(m: MetadataRunModel, stem: String)
    requires
        m.well_formed(),
        m.phase is Naming,
    ensures
        ({
            let (after, step) = next(m, MetadataEvent::Named(Ok(stem)));
            let episode = m.episodes[m.entries.len() as int];
            let url = cover_url(episode.images@)->0;
            let label = stem@ + "-cover-"@ + decimal(episode.id as int) + "."@ + url_extension(url);
            &&& step.warning is None
            &&& step.action == (MetadataActionModel::DownloadCover {
                url,
                path: join(m.directory, label),
                label,
            })
            &&& after == (MetadataRunModel {
                phase: MetadataPhaseModel::Downloading { cover_path: label },
                ..m
            })
        }),
{
}

/// The user is warned of a cover that could not be named or downloaded, by the title and the
/// identifier of its episode and by the reason, and of nothing else.
pub proof fn lemma_warnings(m: MetadataRunModel, event: MetadataEvent)
    requires
        m.well_formed(),
        accepts(m.phase, event),
    ensures
        ({
            let item = episode_item(m.episodes[m.entries.len() as int]);
            let warns = |reason: Seq<char>|
                next(m, event).1.warning == Some(
                    "Failed to download cover for episode "@ + item.title + " (id="@ + decimal(
                        item.id as int,
                    ) + "): "@ + reason,
                );
            match event {
                MetadataEvent::Named(Err(reason)) => warns(reason@),
                MetadataEvent::CoverDownloaded(Err(reason)) => warns(reason@),
                _ => next(m, event).1.warning is None,
            }
        }),
{
    if event is EpisodesFetched && event->EpisodesFetched_0 is Ok {
        lemma_advance_action(
            MetadataRunModel {
                episodes: event->EpisodesFetched_0->Ok_0.response.items.item@,
                entries: Seq::empty(),
                ..m
            },
        );
    }
}

/// What the retrieval was told at its beginning stays as it is. Names are asked for the episode
/// that comes next, which has a cover, and what was asked for can be answered, whatever comes of
/// it.
pub proof fn lemma_what_is_asked_for(m: MetadataRunModel, event: MetadataEvent)
    requires
        m.well_formed(),
        accepts(m.phase, event),
    ensures
        ({
            let (after, step) = next(m, event);
            &&& after.tv_show_id == m.tv_show_id
            &&& after.slug == m.slug
            &&& after.directory == m.directory
            &&& match step.action {
                MetadataActionModel::CreateDirectory { .. } => false,
                MetadataActionModel::FetchEpisodes { .. } => forall|
                    r: Result<MetadataEpisodesRoot, String>,
                | #[trigger]
                    accepts(after.phase, MetadataEvent::EpisodesFetched(r)),
                MetadataActionModel::NameItem { item } => {
                    &&& after.entries.len() < after.episodes.len()
                    &&& item == episode_item(after.episodes[after.entries.len() as int])
                    &&& cover_url(after.episodes[after.entries.len() as int].images@) is Some
                    &&& forall|r: Result<String, String>| #[trigger]
                        accepts(after.phase, MetadataEvent::Named(r))
                },
                MetadataActionModel::DownloadCover { .. } => forall|r: Result<(), String>| #[trigger]
                    accepts(after.phase, MetadataEvent::CoverDownloaded(r)),
                MetadataActionModel::WriteManifest { .. } => forall|
                    r: Result<(), ManifestError>,
                | #[trigger]
                    accepts(after.phase, MetadataEvent::ManifestWritten(r)),
                MetadataActionModel::Finish { .. } => forall|e: MetadataEvent|
                    !(#[trigger] accepts(after.phase, e)),
            }
        }),
{
    match (m.phase, event) {
        (MetadataPhaseModel::Fetching, MetadataEvent::EpisodesFetched(Ok(root))) => {
            lemma_advance_action(
                MetadataRunModel {
                    episodes: root.response.items.item@,
                    entries: Seq::empty(),
                    ..m
                },
            );
        },
        (MetadataPhaseModel::Naming, MetadataEvent::Named(Err(_))) => {
            let episode = m.episodes[m.entries.len() as int];
            lemma_advance_action(
                MetadataRunModel { entries: m.entries.push(output_entry(episode, None)), ..m },
            );
        },
        (MetadataPhaseModel::Downloading { cover_path }, MetadataEvent::CoverDownloaded(r)) => {
            let episode = m.episodes[m.entries.len() as int];
            lemma_advance_action(
                MetadataRunModel { entries: m.entries.push(output_entry(episode, None)), ..m },
            );
            lemma_advance_action(
                MetadataRunModel {
                    entries: m.entries.push(output_entry(episode, Some(cover_path))),
                    ..m
                },
            );
        },
        _ => {},
    }
}

/// Whether each event is an answer to what the machine asked for before it.
pub open spec fn answers(m: MetadataRunModel, events: Seq<MetadataEvent>) -> bool
    decreases events.len(),
{
    events.len() > 0 ==> {
        &&& answers(m, events.drop_last())
        &&& accepts(outcome(m, events.drop_last()).phase, events.last())
    }
}

/// The machine after all events.
pub open spec fn outcome(m: MetadataRunModel, events: Seq<MetadataEvent>) -> MetadataRunModel
    decreases events.len(),
{
    if events.len() == 0 {
        m
    } else {
        next(outcome(m, events.drop_last()), events.last()).0
    }
}

/// What the machine asks for after the last of the events.
pub open spec fn last_step(m: MetadataRunModel, events: Seq<MetadataEvent>) -> MetadataStepModel
    recommends
        events.len() > 0,
{
    next(outcome(m, events.drop_last()), events.last()).1
}

/// The entries that are made when the machine is at `m` after it asked for `step`: they are in the
/// manifest once it is asked for.
pub open spec fn entries_made(m: MetadataRunModel, step: MetadataStepModel) -> Seq<
    MetadataOutputEntryModel,
> {
    if m.phase is Writing {
        step.action->entries
    } else {
        m.entries
    }
}

/// Whether `name` is the name of a file for the cover of `episode`, which then has one.
pub open spec fn names_cover_of(name: Seq<char>, episode: MetadataEpisode) -> bool {
    &&& cover_url(episode.images@) is Some
    &&& exists|stem: Seq<char>|
        name == #[trigger] cover_name(
            stem,
            episode.id,
            url_extension(cover_url(episode.images@)->0),
        )
}

/// Whether `entries` are those of the first episodes, in order: each holds what is kept of its
/// episode, and a cover only where the episode has one, in a file that is named for it.
pub open spec fn describes(
    entries: Seq<MetadataOutputEntryModel>,
    episodes: Seq<MetadataEpisode>,
) -> bool {
    &&& entries.len() <= episodes.len()
    &&& forall|i: int|
        0 <= i < entries.len() ==> {
            &&& #[trigger] entries[i] == output_entry(episodes[i], entries[i].cover_path)
            &&& entries[i].cover_path is Some ==> names_cover_of(
                entries[i].cover_path->0,
                episodes[i],
            )
        }
}

/// Whether the cover that is on the way is that of the next episode.
pub open spec fn fetches_next_cover(m: MetadataRunModel) -> bool {
    m.phase matches MetadataPhaseModel::Downloading { cover_path } ==> names_cover_of(
        cover_path,
        m.episodes[m.entries.len() as int],
    )
}

proof fn lemma_describes_push(
    entries: Seq<MetadataOutputEntryModel>,
    episodes: Seq<MetadataEpisode>,
    cover_path: Option<Seq<char>>,
)
    requires
        describes(entries, episodes),
        entries.len() < episodes.len(),
        cover_path is Some ==> names_cover_of(cover_path->0, episodes[entries.len() as int]),
    ensures
        describes(
            entries.push(output_entry(episodes[entries.len() as int], cover_path)),
            episodes,
        ),
{
    let more = entries.push(output_entry(episodes[entries.len() as int], cover_path));
    assert forall|i: int| 0 <= i < more.len() implies {
        &&& #[trigger] more[i] == output_entry(episodes[i], more[i].cover_path)
        &&& more[i].cover_path is Some ==> names_cover_of(more[i].cover_path->0, episodes[i])
    } by {
        if i < entries.len() {
            assert(more[i] == entries[i]);
        }
    }
}

/// What `advance` leads to from entries that describe the first episodes.
proof fn lemma_advance(m: MetadataRunModel)
    requires
        describes(m.entries, m.episodes),
    ensures
        ({
            let (after, step) = advance(m);
            &&& after.well_formed()
            &&& after.episodes == m.episodes
            &&& after.directory == m.directory
            &&& after.slug == m.slug
            &&& describes(after.entries, after.episodes)
            &&& forall|i: int|
                m.entries.len() <= i < entries_made(after, step).len() ==> cover_url(
                    (#[trigger] m.episodes[i]).images@,
                ) is None
            &&& match step.action {
                MetadataActionModel::NameItem { .. } => {
                    &&& after.phase is Naming
                    &&& m.entries.is_prefix_of(after.entries)
                },
                MetadataActionModel::WriteManifest { path, entries } => {
                    &&& after.phase is Writing
                    &&& path == manifest_path(m.directory, m.slug)
                    &&& entries.len() == m.episodes.len()
                    &&& describes(entries, m.episodes)
                    &&& m.entries.is_prefix_of(entries)
                },
                _ => false,
            }
        }),
    decreases m.episodes.len() - m.entries.len(),
{
    if m.entries.len() < m.episodes.len() {
        let episode = m.episodes[m.entries.len() as int];
        if cover_url(episode.images@) is None {
            let more = m.entries.push(output_entry(episode, None));
            lemma_describes_push(m.entries, m.episodes, None);
            lemma_advance(MetadataRunModel { entries: more, ..m });
            assert(m.entries.is_prefix_of(more));
        }
    }
}

/// What `after_cover` leads to from entries that describe the first episodes.
proof fn lemma_after_cover(
    m: MetadataRunModel,
    cover_path: Option<Seq<char>>,
    warning: Option<Seq<char>>,
)
    requires
        m.well_formed(),
        m.phase is Naming || m.phase is Downloading,
        describes(m.entries, m.episodes),
        cover_path is Some ==> names_cover_of(
            cover_path->0,
            m.episodes[m.entries.len() as int],
        ),
    ensures
        ({
            let (after, step) = after_cover(m, cover_path, warning);
            let n = m.entries.len() as int;
            &&& after.well_formed()
            &&& after.episodes == m.episodes
            &&& after.directory == m.directory
            &&& after.slug == m.slug
            &&& describes(after.entries, after.episodes)
            &&& step.warning == warning
            &&& m.entries.is_prefix_of(entries_made(after, step))
            &&& forall|i: int|
                n < i < entries_made(after, step).len() ==> cover_url(
                    (#[trigger] m.episodes[i]).images@,
                ) is None
            &&& match step.action {
                MetadataActionModel::NameItem { .. } => {
                    &&& after.phase is Naming
                    &&& n < after.entries.len()
                    &&& after.entries[n].cover_path == cover_path
                },
                MetadataActionModel::WriteManifest { path, entries } => {
                    &&& after.phase is Writing
                    &&& path == manifest_path(m.directory, m.slug)
                    &&& entries.len() == m.episodes.len()
                    &&& describes(entries, m.episodes)
                    &&& entries[n].cover_path == cover_path
                },
                _ => false,
            }
        }),
{
    let episode = m.episodes[m.entries.len() as int];
    let more = m.entries.push(output_entry(episode, cover_path));
    lemma_describes_push(m.entries, m.episodes, cover_path);
    lemma_advance(MetadataRunModel { entries: more, ..m });
    assert(more[m.entries.len() as int].cover_path == cover_path);
    assert(m.entries.is_prefix_of(more));
}

/// Whether `event` brings `episodes`.
pub open spec fn fetched_by(event: MetadataEvent, episodes: Seq<MetadataEpisode>) -> bool {
    event matches MetadataEvent::EpisodesFetched(Ok(root)) && root.response.items.item@ == episodes
}

/// Whether `event` settles what becomes of the cover of an episode: it is stored, or it cannot be
/// named or downloaded.
pub open spec fn settles_cover(event: MetadataEvent) -> bool {
    ||| event is CoverDownloaded
    ||| event matches MetadataEvent::Named(Err(_))
}

/// The file that the cover of the next episode is in, once `event` settled that.
pub open spec fn settled_cover(m: MetadataRunModel, event: MetadataEvent) -> Option<Seq<char>> {
    match event {
        MetadataEvent::CoverDownloaded(Ok(())) => Some(m.phase->cover_path),
        _ => None,
    }
}

/// Whether a retrieval has just begun.
pub open spec fn begun(m: MetadataRunModel) -> bool {
    &&& m.phase is CreatingDirectory
    &&& m.entries.len() == 0
}

proof fn lemma_run_describes(m: MetadataRunModel, events: Seq<MetadataEvent>)
    requires
        begun(m),
        answers(m, events),
    ensures
        ({
            let after = outcome(m, events);
            &&& after.well_formed()
            &&& describes(after.entries, after.episodes)
            &&& fetches_next_cover(after)
            &&& after.directory == m.directory
            &&& after.slug == m.slug
            &&& after.phase is CreatingDirectory || after.phase is Fetching ==> after.entries.len()
                == 0
        }),
    decreases events.len(),
{
    if events.len() > 0 {
        let before = outcome(m, events.drop_last());
        lemma_run_describes(m, events.drop_last());
        lemma_next_describes(before, events.last());
    }
}

proof fn lemma_next_describes(m: MetadataRunModel, event: MetadataEvent)
    requires
        m.well_formed(),
        accepts(m.phase, event),
        describes(m.entries, m.episodes),
        fetches_next_cover(m),
    ensures
        ({
            let (after, step) = next(m, event);
            &&& after.well_formed()
            &&& describes(after.entries, after.episodes)
            &&& fetches_next_cover(after)
            &&& after.directory == m.directory
            &&& after.slug == m.slug
            &&& step.action matches MetadataActionModel::WriteManifest { path, entries } ==> {
                &&& path == manifest_path(m.directory, m.slug)
                &&& entries.len() == after.episodes.len()
                &&& describes(entries, after.episodes)
            }
            &&& after.phase is Writing <==> step.action is WriteManifest
            &&& after.phase is CreatingDirectory || after.phase is Fetching ==> after.entries
                == m.entries && !settles_cover(event)
            &&& after.phase is Finished || fetched_by(event, after.episodes) || {
                &&& after.episodes == m.episodes
                &&& !(m.phase is CreatingDirectory || m.phase is Fetching) || after.phase is Fetching
            }
            &&& m.phase is Naming || m.phase is Downloading ==> {
                let made = entries_made(after, step);
                let n = m.entries.len() as int;
                &&& m.entries.is_prefix_of(made)
                &&& if settles_cover(event) {
                    &&& n < made.len()
                    &&& made[n].cover_path == settled_cover(m, event)
                    &&& forall|i: int|
                        n < i < made.len() ==> cover_url((#[trigger] m.episodes[i]).images@) is None
                } else {
                    made == m.entries
                }
            }
            &&& m.phase is Fetching && !(after.phase is Finished) ==> forall|i: int|
                0 <= i < entries_made(after, step).len() ==> cover_url(
                    (#[trigger] after.episodes[i]).images@,
                ) is None
        }),
{
    match (m.phase, event) {
        (MetadataPhaseModel::Fetching, MetadataEvent::EpisodesFetched(Ok(root))) => {
            lemma_advance(
                MetadataRunModel {
                    episodes: root.response.items.item@,
                    entries: Seq::empty(),
                    ..m
                },
            );
        },
        (MetadataPhaseModel::Naming, MetadataEvent::Named(Ok(stem))) => {
            let episode = m.episodes[m.entries.len() as int];
            let url = cover_url(episode.images@)->0;
            assert(names_cover_of(
                cover_name(stem@, episode.id, url_extension(url)),
                episode,
            ));
        },
        (MetadataPhaseModel::Naming, MetadataEvent::Named(Err(reason))) => {
            lemma_after_cover(m, None, next(m, event).1.warning);
        },
        (
            MetadataPhaseModel::Downloading { cover_path },
            MetadataEvent::CoverDownloaded(Ok(())),
        ) => {
            lemma_after_cover(m, Some(cover_path), None);
        },
        (
            MetadataPhaseModel::Downloading { .. },
            MetadataEvent::CoverDownloaded(Err(reason)),
        ) => {
            lemma_after_cover(m, None, next(m, event).1.warning);
        },
        _ => {},
    }
}

/// The manifest holds one entry for every episode that was fetched, in the order of the list:
/// each has what is kept of its episode, and a cover only where the episode has one, in a file
/// that is named for it.
pub proof fn lemma_manifest_describes_every_episode(
    m: MetadataRunModel,
    events: Seq<MetadataEvent>,
)
    requires
        begun(m),
        events.len() > 0,
        answers(m, events),
        last_step(m, events).action is WriteManifest,
    ensures
        ({
            let entries = last_step(m, events).action->entries;
            let episodes = outcome(m, events).episodes;
            &&& last_step(m, events).action->WriteManifest_path == manifest_path(
                m.directory,
                m.slug,
            )
            &&& entries.len() == episodes.len()
            &&& describes(entries, episodes)
            &&& exists|k: int| 0 <= k < events.len() && fetched_by(#[trigger] events[k], episodes)
        }),
{
    lemma_run_describes(m, events.drop_last());
    lemma_next_describes(outcome(m, events.drop_last()), events.last());
    lemma_episodes_were_fetched(m, events);
}

/// Once a retrieval is past the list of episodes, its episodes are those of the list.
proof fn lemma_episodes_were_fetched(m: MetadataRunModel, events: Seq<MetadataEvent>)
    requires
        begun(m),
        answers(m, events),
        outcome(m, events).phase is Naming || outcome(m, events).phase is Downloading || outcome(
            m,
            events,
        ).phase is Writing,
    ensures
        exists|k: int|
            0 <= k < events.len() && fetched_by(#[trigger] events[k], outcome(m, events).episodes),
    decreases events.len(),
{
    if events.len() > 0 {
        let before = events.drop_last();
        lemma_run_describes(m, before);
        lemma_next_describes(outcome(m, before), events.last());
        if fetched_by(events.last(), outcome(m, events).episodes) {
            assert(fetched_by(events[events.len() - 1], outcome(m, events).episodes));
        } else {
            lemma_episodes_were_fetched(m, before);
            let k = choose|k: int|
                0 <= k < before.len() && fetched_by(
                    #[trigger] before[k],
                    outcome(m, before).episodes,
                );
            assert(fetched_by(events[k], outcome(m, events).episodes));
        }
    }
}

/// Whether the answer `k` settles what becomes of the cover of the episode `n`.
pub open spec fn settled_at(
    m: MetadataRunModel,
    events: Seq<MetadataEvent>,
    k: int,
    n: int,
) -> bool {
    &&& 0 <= k < events.len()
    &&& settles_cover(events[k])
    &&& outcome(m, events.take(k)).entries.len() == n
}

/// The entries that are made after all events.
pub open spec fn all_entries_made(m: MetadataRunModel, events: Seq<MetadataEvent>) -> Seq<
    MetadataOutputEntryModel,
> {
    entries_made(outcome(m, events), last_step(m, events))
}

/// What was settled about covers stays in the entries, and what is settled about a cover was
/// settled by an answer.
proof fn lemma_settled_covers_stay(m: MetadataRunModel, events: Seq<MetadataEvent>)
    requires
        begun(m),
        answers(m, events),
        !(outcome(m, events).phase is Finished),
    ensures
        forall|k: int, n: int| #[trigger]
            settled_at(m, events, k, n) ==> {
                &&& n < all_entries_made(m, events).len()
                &&& all_entries_made(m, events)[n].cover_path == settled_cover(
                    outcome(m, events.take(k)),
                    events[k],
                )
                &&& outcome(m, events.take(k)).episodes == outcome(m, events).episodes
            },
        forall|n: int|
            0 <= n < all_entries_made(m, events).len() && cover_url(
                (#[trigger] outcome(m, events).episodes[n]).images@,
            ) is Some ==> exists|k: int| #[trigger] settled_at(m, events, k, n),
    decreases events.len(),
{
    if events.len() > 0 {
        let before = events.drop_last();
        let last = events.len() - 1;
        let earlier = outcome(m, before);
        let made = all_entries_made(m, events);
        lemma_run_describes(m, before);
        lemma_next_describes(earlier, events.last());
        lemma_settled_covers_stay(m, before);
        assert(events.take(last) =~= before);
        assert forall|k: int, n: int| #[trigger] settled_at(m, events, k, n) implies {
            &&& n < made.len()
            &&& made[n].cover_path == settled_cover(outcome(m, events.take(k)), events[k])
            &&& outcome(m, events.take(k)).episodes == outcome(m, events).episodes
        } by {
            if k < last {
                assert(events.take(k) =~= before.take(k));
                assert(settled_at(m, before, k, n));
                assert(made[n] == earlier.entries[n]);
            }
        }
        assert forall|n: int|
            0 <= n < made.len() && cover_url(
                (#[trigger] outcome(m, events).episodes[n]).images@,
            ) is Some implies exists|k: int| #[trigger] settled_at(m, events, k, n) by {
            if n < earlier.entries.len() {
                assert(cover_url(earlier.episodes[n].images@) is Some);
                let k = choose|k: int| #[trigger] settled_at(m, before, k, n);
                assert(events.take(k) =~= before.take(k));
                assert(settled_at(m, events, k, n));
            } else {
                assert(settled_at(m, events, last, n));
            }
        }
    }
}

/// The download of a cover is asked for before it is waited for.
proof fn lemma_cover_is_asked_for(m: MetadataRunModel, events: Seq<MetadataEvent>)
    requires
        begun(m),
        answers(m, events),
        outcome(m, events).phase is Downloading,
    ensures
        events.len() > 0,
        ({
            let after = outcome(m, events);
            let label = after.phase->cover_path;
            last_step(m, events).action == (MetadataActionModel::DownloadCover {
                url: cover_url(after.episodes[after.entries.len() as int].images@)->0,
                path: join(m.directory, label),
                label,
            })
        }),
{
    let before = outcome(m, events.drop_last());
    lemma_run_describes(m, events.drop_last());
    match (before.phase, events.last()) {
        (MetadataPhaseModel::Fetching, MetadataEvent::EpisodesFetched(Ok(root))) => {
            lemma_advance(
                MetadataRunModel {
                    episodes: root.response.items.item@,
                    entries: Seq::empty(),
                    ..before
                },
            );
        },
        (MetadataPhaseModel::Naming, MetadataEvent::Named(Err(_))) => {
            lemma_after_cover(before, None, last_step(m, events).warning);
        },
        (MetadataPhaseModel::Downloading { cover_path }, MetadataEvent::CoverDownloaded(Ok(_))) => {
            lemma_after_cover(before, Some(cover_path), None);
        },
        (MetadataPhaseModel::Downloading { .. }, MetadataEvent::CoverDownloaded(Err(_))) => {
            lemma_after_cover(before, None, last_step(m, events).warning);
        },
        _ => {},
    }
}

/// The manifest names the covers that were stored, and no others. Where the cover of an episode
/// was downloaded, its entry has the name of the file that the cover was stored in, in the
/// directory of the manifest; where it could not be named or downloaded, its entry has none.
pub proof fn lemma_manifest_names_the_stored_covers(
    m: MetadataRunModel,
    events: Seq<MetadataEvent>,
    k: int,
    n: int,
)
    requires
        begun(m),
        events.len() > 0,
        answers(m, events),
        last_step(m, events).action is WriteManifest,
        settled_at(m, events, k, n),
    ensures
        ({
            let entries = last_step(m, events).action->entries;
            let episode = outcome(m, events).episodes[n];
            &&& n < entries.len()
            &&& if events[k] matches MetadataEvent::CoverDownloaded(Ok(())) {
                let label = entries[n].cover_path->0;
                &&& entries[n].cover_path is Some
                &&& last_step(m, events.take(k)).action == (MetadataActionModel::DownloadCover {
                    url: cover_url(episode.images@)->0,
                    path: join(m.directory, label),
                    label,
                })
            } else {
                entries[n].cover_path is None
            }
        }),
{
    lemma_run_describes(m, events.drop_last());
    lemma_next_describes(outcome(m, events.drop_last()), events.last());
    lemma_settled_covers_stay(m, events);
    lemma_prefix_answers(m, events, k);
    if events[k] matches MetadataEvent::CoverDownloaded(Ok(())) {
        lemma_cover_is_asked_for(m, events.take(k));
    }
}

/// The beginning of a run is a run.
proof fn lemma_prefix_answers(m: MetadataRunModel, events: Seq<MetadataEvent>, k: int)
    requires
        answers(m, events),
        0 <= k < events.len(),
    ensures
        answers(m, events.take(k)),
        accepts(outcome(m, events.take(k)).phase, events[k]),
    decreases events.len(),
{
    if k < events.len() - 1 {
        lemma_prefix_answers(m, events.drop_last(), k);
        assert(events.drop_last().take(k) =~= events.take(k));
    } else {
        assert(events.take(k) =~= events.drop_last());
    }
}

/// Every episode that has a cover is seen to before the manifest is written: an answer settles
/// what becomes of its cover. An episode without one has no cover in its entry.
pub proof fn lemma_every_cover_is_settled(m: MetadataRunModel, events: Seq<MetadataEvent>, n: int)
    requires
        begun(m),
        events.len() > 0,
        answers(m, events),
        last_step(m, events).action is WriteManifest,
        0 <= n < outcome(m, events).episodes.len(),
    ensures
        ({
            let entries = last_step(m, events).action->entries;
            if cover_url(outcome(m, events).episodes[n].images@) is Some {
                exists|k: int| #[trigger] settled_at(m, events, k, n)
            } else {
                entries[n].cover_path is None
            }
        }),
{
    lemma_manifest_describes_every_episode(m, events);
    lemma_run_describes(m, events.drop_last());
    lemma_next_describes(outcome(m, events.drop_last()), events.last());
    lemma_settled_covers_stay(m, events);
    let entries = last_step(m, events).action->entries;
    assert(entries[n] == output_entry(outcome(m, events).episodes[n], entries[n].cover_path));
}

/// Episodes with different identifiers have their covers in different files.
pub proof fn lemma_covers_do_not_collide(
    entries: Seq<MetadataOutputEntryModel>,
    episodes: Seq<MetadataEpisode>,
    i: int,
    j: int,
)
    requires
        describes(entries, episodes),
        0 <= i < entries.len(),
        0 <= j < entries.len(),
        episodes[i].id != episodes[j].id,
        entries[i].cover_path is Some,
    ensures
        entries[i].cover_path != entries[j].cover_path,
{
    assert(entries[i] == output_entry(episodes[i], entries[i].cover_path));
    assert(entries[j] == output_entry(episodes[j], entries[j].cover_path));
    if entries[j].cover_path is Some {
        let url_i = cover_url(episodes[i].images@)->0;
        let url_j = cover_url(episodes[j].images@)->0;
        let stem_i = choose|stem: Seq<char>|
            entries[i].cover_path->0 == #[trigger] cover_name(
                stem,
                episodes[i].id,
                url_extension(url_i),
            );
        let stem_j = choose|stem: Seq<char>|
            entries[j].cover_path->0 == #[trigger] cover_name(
                stem,
                episodes[j].id,
                url_extension(url_j),
            );
        if entries[i].cover_path == entries[j].cover_path {
            lemma_cover_names_differ(
                stem_i,
                episodes[i].id,
                url_i,
                stem_j,
                episodes[j].id,
                url_j,
            );
        }
    }
}

/// A cover that cannot be had does not end the retrieval: the user is warned, the episode gets
/// its entry without a cover, and the work goes on.
pub proof fn lemma_missing_cover_is_not_fatal(
    m: MetadataRunModel,
    events: Seq<MetadataEvent>,
)
    requires
        begun(m),
        events.len() > 0,
        answers(m, events),
        (events.last() matches MetadataEvent::Named(Err(_))) || (events.last() matches
            MetadataEvent::CoverDownloaded(Err(_))),
    ensures
        ({
            let before = outcome(m, events.drop_last());
            let after = outcome(m, events);
            let step = last_step(m, events);
            let n = before.entries.len() as int;
            &&& step.warning is Some
            &&& match step.action {
                MetadataActionModel::NameItem { .. } => n < after.entries.len()
                    && after.entries[n].cover_path is None,
                MetadataActionModel::WriteManifest { path, entries } => n < entries.len()
                    && entries[n].cover_path is None,
                _ => false,
            }
        }),
{
    lemma_run_describes(m, events.drop_last());
    let before = outcome(m, events.drop_last());
    lemma_after_cover(before, None, last_step(m, events).warning);
}

/// The largest number of answers that the machine can still ask for, once it has the episodes.
pub open spec fn rank(m: MetadataRunModel) -> int {
    match m.phase {
        MetadataPhaseModel::Naming => 2 * (m.episodes.len() - m.entries.len()) + 1,
        MetadataPhaseModel::Downloading { .. } => 2 * (m.episodes.len() - m.entries.len()),
        MetadataPhaseModel::Writing => 1,
        _ => 0,
    }
}

proof fn lemma_advance_rank(m: MetadataRunModel)
    requires
        m.entries.len() <= m.episodes.len(),
    ensures
        1 <= rank(advance(m).0) <= 2 * (m.episodes.len() - m.entries.len()) + 1,
    decreases m.episodes.len() - m.entries.len(),
{
    if m.entries.len() < m.episodes.len() {
        let episode = m.episodes[m.entries.len() as int];
        if cover_url(episode.images@) is None {
            lemma_advance_rank(
                MetadataRunModel { entries: m.entries.push(output_entry(episode, None)), ..m },
            );
        }
    }
}

/// A retrieval comes to an end: once the episodes are there, every answer brings it nearer.
pub proof fn lemma_retrieval_ends(m: MetadataRunModel, event: MetadataEvent)
    requires
        m.well_formed(),
        accepts(m.phase, event),
        m.phase is Naming || m.phase is Downloading || m.phase is Writing,
    ensures
        0 <= rank(next(m, event).0) < rank(m),
        rank(next(m, event).0) == 0 <==> next(m, event).1.action is Finish,
{
    if m.phase is Naming || m.phase is Downloading {
        let episode = m.episodes[m.entries.len() as int];
        let without = m.entries.push(output_entry(episode, None));
        lemma_advance_rank(MetadataRunModel { entries: without, ..m });
        lemma_advance_action(MetadataRunModel { entries: without, ..m });
        if m.phase is Downloading {
            let with = m.entries.push(output_entry(episode, Some(m.phase->cover_path)));
            lemma_advance_rank(MetadataRunModel { entries: with, ..m });
            lemma_advance_action(MetadataRunModel { entries: with, ..m });
        }
    }
}

/// What `advance` asks for: a name for the next episode with a cover, or the manifest.
proof fn lemma_advance_action(m: MetadataRunModel)
    ensures
        ({
            let (after, step) = advance(m);
            &&& step.warning is None
            &&& after.tv_show_id == m.tv_show_id
            &&& after.slug == m.slug
            &&& after.directory == m.directory
            &&& match step.action {
                MetadataActionModel::NameItem { item } => {
                    &&& after.phase is Naming
                    &&& after.entries.len() < after.episodes.len()
                    &&& item == episode_item(after.episodes[after.entries.len() as int])
                    &&& cover_url(after.episodes[after.entries.len() as int].images@) is Some
                },
                MetadataActionModel::WriteManifest { .. } => after.phase is Writing,
                _ => false,
            }
        }),
    decreases m.episodes.len() - m.entries.len(),
{
    if m.entries.len() < m.episodes.len() {
        let episode = m.episodes[m.entries.len() as int];
        if cover_url(episode.images@) is None {
            lemma_advance_action(
                MetadataRunModel { entries: m.entries.push(output_entry(episode, None)), ..m },
            );
        }
    }
}

} // verus!
