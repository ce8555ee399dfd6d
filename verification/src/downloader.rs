//! What is fetched for a media item, and what of it is stored already.

use vstd::prelude::*;

use crate::api_structs::{SingleEpisodeRoot, SingleEpisodeSubtitles, UrlMetadata};
use crate::error::{result_model, Error, ErrorModel};
use crate::models::{MediaItem, MediaItemModel, MissingSubtitlePolicy, SubtitleMode};
use crate::paths::{
    extension, file_stem, is_plain_name, join, join_path, lemma_name_is_cut_at_the_last_dot,
    lemma_stem_and_extension, path_extension, path_file_stem,
};
use crate::text::{decimal, decimal_text, lemma_decimal_injective, same_text};

verus! {

/// URL of the details of a media item, up to the identifier of the item.
pub const SINGLE_MEDIA_API_URL: &'static str =
    "https://dinamics.ccma.cat/pvideo/media.jsp?media=video&version=0s&idint=";

/// URL of the details of the media item `id`, as characters.
pub open spec fn single_media_url(id: i32) -> Seq<char> {
    SINGLE_MEDIA_API_URL@ + decimal(id as int)
}

/// URL of the details of the media item `id`.
pub fn single_media_api_url(id: i32) -> (url: String)
    ensures
        url@ == single_media_url(id),
{
    let mut url = SINGLE_MEDIA_API_URL.to_owned();
    url.append(decimal_text(id).as_str());
    url
}

/// The URL of the details of a media item ends in its identifier, and is the same for all items
/// up to there.
pub proof fn lemma_single_media_url_ends_in_the_identifier(id: i32)
    ensures
        single_media_url(id)
            == "https://dinamics.ccma.cat/pvideo/media.jsp?media=video&version=0s&idint="@
            + decimal(id as int),
{
}

/// Different media items have their details at different URLs.
pub proof fn lemma_single_media_url_injective(a: i32, b: i32)
    requires
        single_media_url(a) == single_media_url(b),
    ensures
        a == b,
{
    let n = SINGLE_MEDIA_API_URL@.len() as int;
    assert(single_media_url(a).skip(n) =~= decimal(a as int));
    assert(single_media_url(b).skip(n) =~= decimal(b as int));
    lemma_decimal_injective(a as int, b as int);
}

// ---------------------------------------------------------------------------
// Sources of an item
// ---------------------------------------------------------------------------
/// The file of the first active entry.
pub open spec fn first_active(urls: Seq<UrlMetadata>) -> Option<Seq<char>>
    decreases urls.len(),
{
    if urls.len() == 0 {
        None
    } else if urls.first().active {
        Some(urls.first().file@)
    } else {
        first_active(urls.drop_first())
    }
}

/// The URL of the first subtitle track.
pub open spec fn first_subtitle(tracks: Option<Vec<SingleEpisodeSubtitles>>) -> Option<Seq<char>> {
    match tracks {
        Some(tracks) => if tracks@.len() > 0 {
            Some(tracks@.first().url@)
        } else {
            None
        },
        None => None,
    }
}

/// `item` with the URLs that `response` gives it; where it gives none, the item keeps its own.
pub open spec fn with_sources(item: MediaItemModel, response: SingleEpisodeRoot) -> MediaItemModel {
    MediaItemModel {
        video_url: match first_active(response.media.url@) {
            Some(url) => Some(url),
            None => item.video_url,
        },
        subtitle_url: match first_subtitle(response.subtitles) {
            Some(url) => Some(url),
            None => item.subtitle_url,
        },
        ..item
    }
}

/// Whether subtitles are wanted, and `response` has none.
pub open spec fn lacks_subtitles(response: SingleEpisodeRoot, mode: SubtitleMode) -> bool {
    first_subtitle(response.subtitles) is None && !(mode is Skip)
}

/// Whether entry `i` is active, and none before it is.
pub open spec fn is_first_active(urls: Seq<UrlMetadata>, i: int) -> bool {
    &&& 0 <= i < urls.len()
    &&& urls[i].active
    &&& forall|j: int| 0 <= j < i ==> !(#[trigger] urls[j]).active
}

proof fn lemma_first_active(urls: Seq<UrlMetadata>)
    ensures
        match first_active(urls) {
            Some(url) => exists|i: int| #[trigger] is_first_active(urls, i) && url == urls[i].file@,
            None => forall|i: int| 0 <= i < urls.len() ==> !(#[trigger] urls[i]).active,
        },
    decreases urls.len(),
{
    if urls.len() > 0 {
        let rest = urls.drop_first();
        if urls.first().active {
            assert(is_first_active(urls, 0));
        } else {
            lemma_first_active(rest);
            match first_active(rest) {
                Some(url) => {
                    let k = choose|k: int| #[trigger]
                        is_first_active(rest, k) && url == rest[k].file@;
                    assert forall|j: int| 0 <= j < k + 1 implies !(#[trigger] urls[j]).active by {
                        if j > 0 {
                            assert(urls[j] == rest[j - 1]);
                        }
                    }
                    assert(urls[k + 1] == rest[k]);
                    assert(is_first_active(urls, k + 1));
                },
                None => {
                    assert forall|i: int| 0 <= i < urls.len() implies !(
                    #[trigger] urls[i]).active by {
                        if i > 0 {
                            assert(urls[i] == rest[i - 1]);
                        }
                    }
                },
            }
        }
    }
}

/// An item gets the video file of the active entry that has no active entry before it, and the
/// subtitle track that comes first. It keeps its own video URL where no entry is active, its own
/// subtitle URL where there is no track, and everything else in any case.
pub proof fn lemma_sources(item: MediaItemModel, response: SingleEpisodeRoot)
    ensures
        ({
            let urls = response.media.url@;
            let after = with_sources(item, response);
            &&& forall|i: int| #[trigger]
                is_first_active(urls, i) ==> after.video_url == Some(urls[i].file@)
            &&& (exists|i: int| 0 <= i < urls.len() && (#[trigger] urls[i]).active) ==> exists|
                i: int,
            | #[trigger] is_first_active(urls, i)
            &&& (forall|i: int| 0 <= i < urls.len() ==> !(#[trigger] urls[i]).active)
                ==> after.video_url == item.video_url
            &&& match response.subtitles {
                Some(tracks) => if tracks@.len() > 0 {
                    after.subtitle_url == Some(tracks@[0].url@)
                } else {
                    after.subtitle_url == item.subtitle_url
                },
                None => after.subtitle_url == item.subtitle_url,
            }
            &&& after.id == item.id
            &&& after.title == item.title
            &&& after.episode_number == item.episode_number
            &&& after.tv_show_name == item.tv_show_name
        }),
{
    let urls = response.media.url@;
    lemma_first_active(urls);
    assert forall|i: int| #[trigger] is_first_active(urls, i) implies with_sources(
        item,
        response,
    ).video_url == Some(urls[i].file@) by {
        let k = choose|k: int| #[trigger]
            is_first_active(urls, k) && first_active(urls) == Some(urls[k].file@);
        assert(urls[k].active && urls[i].active);
        assert(k == i);
    }
}

/// Subtitles are lacking where they are not to be skipped and the details list no track.
pub proof fn lemma_lacking_subtitles(response: SingleEpisodeRoot, mode: SubtitleMode)
    ensures
        mode is Skip ==> !lacks_subtitles(response, mode),
        !(mode is Skip) ==> (lacks_subtitles(response, mode) <==> (response.subtitles matches Some(
            tracks,
        ) ==> tracks@.len() == 0)),
{
}

/// Decides what missing subtitles mean for the item titled `title`.
pub fn handle_missing_subtitles(title: &str, policy: MissingSubtitlePolicy) -> (res: Result<
    (),
    Error,
>)
    ensures
        result_model(res) == (match policy {
            MissingSubtitlePolicy::AllowMissing => Ok::<(), ErrorModel>(()),
            MissingSubtitlePolicy::Strict => Err(ErrorModel::NoSubtitlesAvailable(title@)),
        }),
{
    if policy.allows_missing() {
        return Ok(());
    }
    Err(Error::NoSubtitlesAvailable(title.to_owned()))
}

/// The warning that the item titled `title` is downloaded without subtitles, as characters.
pub open spec fn missing_subtitles_text(title: Seq<char>) -> Seq<char> {
    "Subtitles requested for \""@ + title
        + "\" but none were available; continuing without subtitles"@
}

/// The warning that the item titled `title` is downloaded without subtitles.
pub fn missing_subtitles_warning(title: &str) -> (text: String)
    ensures
        text@ == missing_subtitles_text(title@),
{
    let mut text = "Subtitles requested for \"".to_owned();
    text.append(title);
    text.append("\" but none were available; continuing without subtitles");
    text
}

/// The file of the first active entry.
fn active_file(urls: &Vec<UrlMetadata>) -> (file: Option<String>)
    ensures
        file.deep_view() == first_active(urls@),
{
    let mut i: usize = 0;
    assert(urls@.skip(0) =~= urls@);
    while i < urls.len()
        invariant
            i <= urls.len(),
            first_active(urls@.skip(i as int)) == first_active(urls@),
        decreases urls.len() - i,
    {
        if urls[i].active {
            return Some(urls[i].file.clone());
        }
        assert(urls@.skip(i as int).drop_first() =~= urls@.skip(i + 1));
        i = i + 1;
    }
    None
}

/// Gives `item` the URLs of `response`. The item keeps a URL of its own where the response has
/// none in its place: no active video file, or no subtitle track.
pub fn apply_sources(item: MediaItem, response: &SingleEpisodeRoot) -> (res: MediaItem)
    ensures
        res.deep_view() == with_sources(item.deep_view(), *response),
{
    let mut item = item;
    let file = active_file(&response.media.url);
    if file.is_some() {
        item.video_url = file;
    }
    match &response.subtitles {
        Some(tracks) => {
            if tracks.len() > 0 {
                item.subtitle_url = Some(tracks[0].url.clone());
            }
        },
        None => {},
    }
    item
}

/// Tells whether subtitles are wanted, and `response` has none.
pub fn check_lacks_subtitles(response: &SingleEpisodeRoot, mode: SubtitleMode) -> (res: bool)
    ensures
        res == lacks_subtitles(*response, mode),
{
    if mode == SubtitleMode::Skip {
        return false;
    }
    match &response.subtitles {
        Some(tracks) => tracks.len() == 0,
        None => true,
    }
}

// ---------------------------------------------------------------------------
// Files on disk
// ---------------------------------------------------------------------------
/// What is known of a file.
#[derive(Debug, Clone, Copy, PartialEq, Eq, Structural)]
pub enum FileStatus {
    /// There is no such file.
    Absent,
    /// The file is there, and its size could not be read.
    Unreadable,
    /// The file is there, and holds this number of bytes.
    Size(u64),
}

impl FileStatus {
    /// Whether the file counts as stored: it is there, and is not known to be empty.
    pub open spec fn is_stored(self) -> bool {
        match self {
            FileStatus::Absent => false,
            FileStatus::Unreadable => true,
            FileStatus::Size(n) => n > 0,
        }
    }

    /// Whether the file is the empty leftover of a failed download, to be removed.
    pub open spec fn is_leftover(self) -> bool {
        self == FileStatus::Size(0)
    }

    /// Tells whether the file counts as stored.
    pub fn non_empty_file_exists(self) -> (res: bool)
        ensures
            res == self.is_stored(),
    {
        match self {
            FileStatus::Absent => false,
            FileStatus::Unreadable => true,
            FileStatus::Size(n) => n > 0,
        }
    }

    /// Tells whether the file is an empty leftover.
    pub fn check_leftover(self) -> (res: bool)
        ensures
            res == self.is_leftover(),
    {
        match self {
            FileStatus::Size(n) => n == 0,
            _ => false,
        }
    }
}

/// A file counts as stored unless it is not there or is empty, and it is to be removed where it is
/// there and empty.
pub proof fn lemma_stored_and_leftover(n: u64)
    ensures
        FileStatus::Size(n).is_stored() <==> n != 0,
        FileStatus::Size(n).is_leftover() <==> n == 0,
        FileStatus::Unreadable.is_stored(),
        !FileStatus::Unreadable.is_leftover(),
        !FileStatus::Absent.is_stored(),
        !FileStatus::Absent.is_leftover(),
{
}

/// An entry of a directory.
#[derive(Debug, PartialEq, Eq)]
pub struct DirectoryEntry {
    /// Name of the entry within the directory.
    pub name: String,
    /// What is known of the file.
    pub status: FileStatus,
}

/// The video files that are stored for an item.
#[derive(Debug, PartialEq, Eq)]
pub struct ExistingVideoFiles {
    /// Path of a video that subtitles can still be added to.
    pub reusable_video_path: Option<String>,
    /// Path of a video with embedded subtitles.
    pub embedded_video_path: Option<String>,
}

/// An [`ExistingVideoFiles`], with its texts as sequences of characters.
#[verifier::ext_equal]
pub struct ExistingVideoFilesModel {
    pub reusable_video_path: Option<Seq<char>>,
    pub embedded_video_path: Option<Seq<char>>,
}

impl DeepView for ExistingVideoFiles {
    type V = ExistingVideoFilesModel;

    open spec fn deep_view(&self) -> ExistingVideoFilesModel {
        ExistingVideoFilesModel {
            reusable_video_path: self.reusable_video_path.deep_view(),
            embedded_video_path: self.embedded_video_path.deep_view(),
        }
    }
}

/// What a look through a directory found of an item.
#[derive(Debug, PartialEq, Eq)]
pub struct VideoScan {
    /// The stored videos.
    pub files: ExistingVideoFiles,
    /// Paths of empty leftovers, to be removed.
    pub leftovers: Vec<String>,
}

/// A [`VideoScan`], with its texts as sequences of characters.
#[verifier::ext_equal]
pub struct VideoScanModel {
    pub files: ExistingVideoFilesModel,
    pub leftovers: Seq<Seq<char>>,
}

impl DeepView for VideoScan {
    type V = VideoScanModel;

    open spec fn deep_view(&self) -> VideoScanModel {
        VideoScanModel { files: self.files.deep_view(), leftovers: self.leftovers.deep_view() }
    }
}

/// Whether `ext` is the extension of a video file.
pub open spec fn is_video_extension(ext: Seq<char>) -> bool {
    ||| ext == "mp4"@
    ||| ext == "mkv"@
    ||| ext == "webm"@
    ||| ext == "ts"@
    ||| ext == "m4v"@
}

/// Whether a file of this name is a video of the item whose files have the stem `stem`.
pub open spec fn is_video_of(name: Seq<char>, stem: Seq<char>) -> bool {
    &&& extension(name) is Some
    &&& is_video_extension(extension(name)->0)
    &&& file_stem(name) == Some(stem)
}

/// Whether a video file of this name has its subtitles embedded.
pub open spec fn is_embedded(name: Seq<char>) -> bool {
    extension(name) == Some("mkv"@)
}

/// The extensions of video files are these five.
pub proof fn lemma_video_extensions(ext: Seq<char>)
    ensures
        is_video_extension(ext) <==> seq!["mp4"@, "mkv"@, "webm"@, "ts"@, "m4v"@].contains(ext),
{
    let all = seq!["mp4"@, "mkv"@, "webm"@, "ts"@, "m4v"@];
    assert(all[0] == "mp4"@ && all[1] == "mkv"@ && all[2] == "webm"@ && all[3] == "ts"@ && all[4]
        == "m4v"@);
}

/// The videos of an item are the files whose name is the stem of the item, a dot and the extension
/// of a video; those with embedded subtitles are the ones whose extension is `mkv`.
pub proof fn lemma_videos_of_an_item(name: Seq<char>, stem: Seq<char>)
    requires
        is_plain_name(name),
        stem.len() > 0,
    ensures
        is_video_of(name, stem) <==> {
            ||| name == stem + ".mp4"@
            ||| name == stem + ".mkv"@
            ||| name == stem + ".webm"@
            ||| name == stem + ".ts"@
            ||| name == stem + ".m4v"@
        },
        is_video_of(name, stem) ==> (is_embedded(name) <==> name == stem + ".mkv"@),
{
    reveal_strlit("mp4");
    reveal_strlit("mkv");
    reveal_strlit("webm");
    reveal_strlit("ts");
    reveal_strlit("m4v");
    reveal_strlit(".mp4");
    reveal_strlit(".mkv");
    reveal_strlit(".webm");
    reveal_strlit(".ts");
    reveal_strlit(".m4v");
    assert(stem + ".mp4"@ =~= stem + seq!['.'] + "mp4"@);
    assert(stem + ".mkv"@ =~= stem + seq!['.'] + "mkv"@);
    assert(stem + ".webm"@ =~= stem + seq!['.'] + "webm"@);
    assert(stem + ".ts"@ =~= stem + seq!['.'] + "ts"@);
    assert(stem + ".m4v"@ =~= stem + seq!['.'] + "m4v"@);
    assert(!"mp4"@.contains('.') && !"mkv"@.contains('.') && !"webm"@.contains('.')
        && !"ts"@.contains('.') && !"m4v"@.contains('.'));
    lemma_name_is_cut_at_the_last_dot(name);
    if name == stem + ".mp4"@ {
        lemma_stem_and_extension(stem, "mp4"@);
    } else if name == stem + ".mkv"@ {
        lemma_stem_and_extension(stem, "mkv"@);
    } else if name == stem + ".webm"@ {
        lemma_stem_and_extension(stem, "webm"@);
    } else if name == stem + ".ts"@ {
        lemma_stem_and_extension(stem, "ts"@);
    } else if name == stem + ".m4v"@ {
        lemma_stem_and_extension(stem, "m4v"@);
    }
}

/// Path of the first entry that is a stored video of the item: among those with embedded
/// subtitles, or among the others.
pub open spec fn first_video(
    entries: Seq<DirectoryEntry>,
    stem: Seq<char>,
    directory: Seq<char>,
    embedded: bool,
) -> Option<Seq<char>>
    decreases entries.len(),
{
    if entries.len() == 0 {
        None
    } else {
        let entry = entries.first();
        if is_video_of(entry.name@, stem) && entry.status.is_stored() && is_embedded(entry.name@)
            == embedded {
            Some(join(directory, entry.name@))
        } else {
            first_video(entries.drop_first(), stem, directory, embedded)
        }
    }
}

/// Paths of the entries that are empty videos of the item, in order.
pub open spec fn leftover_videos(
    entries: Seq<DirectoryEntry>,
    stem: Seq<char>,
    directory: Seq<char>,
) -> Seq<Seq<char>>
    decreases entries.len(),
{
    if entries.len() == 0 {
        Seq::empty()
    } else {
        let entry = entries.last();
        let before = leftover_videos(entries.drop_last(), stem, directory);
        if is_video_of(entry.name@, stem) && entry.status.is_leftover() {
            before.push(join(directory, entry.name@))
        } else {
            before
        }
    }
}

/// The leftovers that are removed are the entries that are videos of the item and are empty: all
/// of them, no others, and in the order of the directory.
pub proof fn lemma_leftover_videos(
    entries: Seq<DirectoryEntry>,
    stem: Seq<char>,
    directory: Seq<char>,
)
    ensures
        leftover_videos(entries, stem, directory) == entries.filter(
            |entry: DirectoryEntry|
                is_video_of(entry.name@, stem) && entry.status == FileStatus::Size(0),
        ).map_values(|entry: DirectoryEntry| join(directory, entry.name@)),
    decreases entries.len(),
{
    reveal(Seq::filter);
    if entries.len() > 0 {
        lemma_leftover_videos(entries.drop_last(), stem, directory);
    }
    assert(leftover_videos(entries, stem, directory) =~= entries.filter(
        |entry: DirectoryEntry|
            is_video_of(entry.name@, stem) && entry.status == FileStatus::Size(0),
    ).map_values(|entry: DirectoryEntry| join(directory, entry.name@)));
}

/// What a look through the entries of `directory` finds of the item whose files have the stem
/// `stem`.
pub open spec fn video_scan(
    entries: Seq<DirectoryEntry>,
    stem: Seq<char>,
    directory: Seq<char>,
) -> VideoScanModel {
    VideoScanModel {
        files: ExistingVideoFilesModel {
            reusable_video_path: first_video(entries, stem, directory, false),
            embedded_video_path: first_video(entries, stem, directory, true),
        },
        leftovers: leftover_videos(entries, stem, directory),
    }
}

/// Tells whether `ext` is the extension of a video file.
fn check_video_extension(ext: &str) -> (res: bool)
    ensures
        res == is_video_extension(ext@),
{
    same_text(ext, "mp4") || same_text(ext, "mkv") || same_text(ext, "webm") || same_text(
        ext,
        "ts",
    ) || same_text(ext, "m4v")
}

/// Tells, of a file of this name, whether it is a video of the item whose files have the stem
/// `stem`, and then whether it has its subtitles embedded.
fn classify_video(name: &str, stem: &str) -> (embedded: Option<bool>)
    ensures
        embedded is Some <==> is_video_of(name@, stem@),
        embedded is Some ==> embedded->0 == is_embedded(name@),
{
    match (path_extension(name), path_file_stem(name)) {
        (Some(ext), Some(entry_stem)) => {
            if check_video_extension(ext.as_str()) && same_text(entry_stem.as_str(), stem) {
                Some(same_text(ext.as_str(), "mkv"))
            } else {
                None
            }
        },
        _ => None,
    }
}

proof fn lemma_first_video_of_push(
    entries: Seq<DirectoryEntry>,
    entry: DirectoryEntry,
    stem: Seq<char>,
    directory: Seq<char>,
    embedded: bool,
)
    ensures
        first_video(entries.push(entry), stem, directory, embedded) == (match first_video(
            entries,
            stem,
            directory,
            embedded,
        ) {
            Some(path) => Some(path),
            None => if is_video_of(entry.name@, stem) && entry.status.is_stored() && is_embedded(
                entry.name@,
            ) == embedded {
                Some(join(directory, entry.name@))
            } else {
                None
            },
        }),
    decreases entries.len(),
{
    let all = entries.push(entry);
    if entries.len() == 0 {
        assert(all.first() == entry);
        assert(all.drop_first() =~= Seq::empty());
    } else {
        assert(all.first() == entries.first());
        assert(all.drop_first() =~= entries.drop_first().push(entry));
        lemma_first_video_of_push(entries.drop_first(), entry, stem, directory, embedded);
    }
}

/// Looks through the entries of `directory` for videos of the item that is stored as
/// `video_filename`. An entry is one where it has the same stem and the extension of a video,
/// and it counts where it is not empty.
pub fn find_existing_video_files(
    video_filename: &str,
    directory: &str,
    entries: &Vec<DirectoryEntry>,
) -> (res: Result<VideoScan, Error>)
    ensures
        result_model(res) == (match file_stem(video_filename@) {
            Some(stem) => Ok::<VideoScanModel, ErrorModel>(
                video_scan(entries@, stem, directory@),
            ),
            None => Err(ErrorModel::InvalidPathEncoding(video_filename@)),
        }),
{
    let stem = match path_file_stem(video_filename) {
        Some(stem) => stem,
        None => {
            return Err(Error::InvalidPathEncoding(video_filename.to_owned()));
        },
    };
    let mut reusable: Option<String> = None;
    let mut embedded: Option<String> = None;
    let mut leftovers: Vec<String> = Vec::new();
    let mut i: usize = 0;
    assert(leftovers.deep_view() =~= Seq::empty());
    assert(entries@.take(0) =~= Seq::empty());
    while i < entries.len()
        invariant
            i <= entries.len(),
            reusable.deep_view() == first_video(
                entries@.take(i as int),
                stem@,
                directory@,
                false,
            ),
            embedded.deep_view() == first_video(entries@.take(i as int), stem@, directory@, true),
            leftovers.deep_view() == leftover_videos(entries@.take(i as int), stem@, directory@),
        decreases entries.len() - i,
    {
        let entry = &entries[i];
        proof {
            let seen = entries@.take(i as int);
            assert(entries@.take(i + 1) =~= seen.push(*entry));
            assert(entries@.take(i + 1).drop_last() =~= seen);
            lemma_first_video_of_push(seen, *entry, stem@, directory@, false);
            lemma_first_video_of_push(seen, *entry, stem@, directory@, true);
        }
        let kind = classify_video(entry.name.as_str(), stem.as_str());
        if let Some(has_subtitles) = kind {
            let path = join_path(directory, entry.name.as_str());
            if entry.status.non_empty_file_exists() {
                if has_subtitles {
                    if embedded.is_none() {
                        embedded = Some(path);
                    }
                } else if reusable.is_none() {
                    reusable = Some(path);
                }
            } else if entry.status.check_leftover() {
                let ghost before = leftovers.deep_view();
                leftovers.push(path);
                assert(leftovers.deep_view() =~= before.push(path@));
            }
        }
        i = i + 1;
    }
    assert(entries@.take(i as int) =~= entries@);
    Ok(
        VideoScan {
            files: ExistingVideoFiles {
                reusable_video_path: reusable,
                embedded_video_path: embedded,
            },
            leftovers,
        },
    )
}

/// Whether nothing is left to download of an item.
pub open spec fn is_complete(
    files: ExistingVideoFilesModel,
    subtitle_exists: bool,
    mode: SubtitleMode,
) -> bool {
    match mode {
        SubtitleMode::Skip => files.reusable_video_path is Some,
        SubtitleMode::Download => files.reusable_video_path is Some && subtitle_exists,
        SubtitleMode::Embed => files.embedded_video_path is Some,
    }
}

/// Nothing is left to download of an item exactly where its video is stored in the form that is
/// wanted, and its subtitles are where they are wanted next to it. A video with embedded subtitles
/// is wanted where subtitles are to be embedded, and counts nowhere else.
pub proof fn lemma_complete(
    files: ExistingVideoFilesModel,
    subtitle_exists: bool,
    mode: SubtitleMode,
)
    ensures
        mode is Skip ==> (is_complete(files, subtitle_exists, mode)
            <==> files.reusable_video_path is Some),
        mode is Download ==> (is_complete(files, subtitle_exists, mode)
            <==> files.reusable_video_path is Some && subtitle_exists),
        mode is Embed ==> (is_complete(files, subtitle_exists, mode)
            <==> files.embedded_video_path is Some),
{
}

/// Tells whether nothing is left to download of an item.
pub fn builtin_media_is_complete(
    video_files: &ExistingVideoFiles,
    subtitle_exists: bool,
    subtitle_mode: SubtitleMode,
) -> (res: bool)
    ensures
        res == is_complete(video_files.deep_view(), subtitle_exists, subtitle_mode),
{
    match subtitle_mode {
        SubtitleMode::Skip => video_files.reusable_video_path.is_some(),
        SubtitleMode::Download => video_files.reusable_video_path.is_some() && subtitle_exists,
        SubtitleMode::Embed => video_files.embedded_video_path.is_some(),
    }
}

/// Path that a file is stored at.
pub fn full_media_path(filename: &str, directory: &str) -> (path: String)
    ensures
        path@ == join(directory@, filename@),
{
    join_path(directory, filename)
}

} // verus!
