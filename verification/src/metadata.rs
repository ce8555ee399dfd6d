//! What is kept of the metadata of an episode.

use vstd::prelude::*;

use crate::api_structs::{clone_text, MetadataDateValue, MetadataEpisode, MetadataImage};
use crate::models::{MediaItem, MediaItemModel};
use crate::paths::{
    extension, file_name, is_plain_name, join, join_path, lemma_after_last_of_concat,
    lemma_extension_is_in_path, lemma_file_name_at_the_end, lemma_file_name_of_join, lemma_join,
    lemma_name_is_cut_at_the_last_dot, lemma_parts_are_those_of_the_name, lemma_stem_and_extension,
    path_extension,
};
use crate::text::{
    all_white_space, before_first, decimal, decimal_text, eq_ignore_ascii_case, is_trimmed,
    lemma_before_first_is_prefix, lemma_before_first_of_concat, lemma_before_first_of_more,
    lemma_decimal_injective, lemma_digits_are_digits, lemma_lower, lemma_trim_cuts_white_space,
    lemma_trim_is_empty, lemma_trim_of_trimmed, lower, lower_char, same_text, text_before_first,
    to_ascii_lowercase, trim, trim_text,
};

verus! {

/// URL of the episode list of a TV show, up to the identifier of the show.
pub const EPISODE_LIST_URL_START: &'static str =
    "https://www.3cat.cat/api/3cat/dades/?queryKey=%5B%22tira%22%2C%7B%22url%22%3A%22%2F%2Fapi.3cat.cat%2Fvideos%3F_format%3Djson%26no_agrupacio%3DPUAGR_LLSIGN%26tipus_contingut%3DPPD%26items_pagina%3D1500%26pagina%3D1%26sdom%3Dimg%26version%3D2.0%26cache%3D180%26https%3Dtrue%26master%3Dyes%26programatv_id%3D";

/// What follows the identifier of the show in the URL of its episode list.
pub const EPISODE_LIST_URL_END: &'static str = "%26origen%3Dauto%26perfil%3Dpc%22%7D%5D";

/// URL of the episode list of a TV show, as characters.
pub open spec fn episode_list(tv_show_id: i32) -> Seq<char> {
    EPISODE_LIST_URL_START@ + decimal(tv_show_id as int) + EPISODE_LIST_URL_END@
}

/// URL of the episode list of a TV show.
pub fn episode_list_url(tv_show_id: i32) -> (url: String)
    ensures
        url@ == episode_list(tv_show_id),
{
    let mut url = EPISODE_LIST_URL_START.to_owned();
    url.append(decimal_text(tv_show_id).as_str());
    url.append(EPISODE_LIST_URL_END);
    url
}

/// The URL of the episode list of a TV show has the identifier of the show in one place, and is
/// the same for all shows before and after it.
pub proof fn lemma_episode_list_holds_the_identifier(id: i32)
    ensures
        ({
            let from = EPISODE_LIST_URL_START@.len() as int;
            let to = episode_list(id).len() - EPISODE_LIST_URL_END@.len();
            &&& from <= to
            &&& episode_list(id).take(from) == EPISODE_LIST_URL_START@
            &&& episode_list(id).subrange(from, to) == decimal(id as int)
            &&& episode_list(id).skip(to) == EPISODE_LIST_URL_END@
        }),
{
    let from = EPISODE_LIST_URL_START@.len() as int;
    let to = episode_list(id).len() - EPISODE_LIST_URL_END@.len();
    assert(episode_list(id).take(from) =~= EPISODE_LIST_URL_START@);
    assert(episode_list(id).subrange(from, to) =~= decimal(id as int));
    assert(episode_list(id).skip(to) =~= EPISODE_LIST_URL_END@);
}

/// Different TV shows have their episodes listed at different URLs.
pub proof fn lemma_episode_list_injective(a: i32, b: i32)
    requires
        episode_list(a) == episode_list(b),
    ensures
        a == b,
{
    let from = EPISODE_LIST_URL_START@.len() as int;
    let end = EPISODE_LIST_URL_END@.len() as int;
    let all = episode_list(a);
    assert(all.subrange(from, all.len() - end) =~= decimal(a as int));
    assert(all.subrange(from, all.len() - end) =~= decimal(b as int));
    lemma_decimal_injective(a as int, b as int);
}

// ---------------------------------------------------------------------------
// Texts
// ---------------------------------------------------------------------------
/// `value` without the white space around it; none where nothing else is there.
pub open spec fn normalized(value: Seq<char>) -> Option<Seq<char>> {
    if trim(value).len() == 0 {
        None
    } else {
        Some(trim(value))
    }
}

/// The same of a text that may be missing.
pub open spec fn normalized_optional(value: Option<Seq<char>>) -> Option<Seq<char>> {
    match value {
        Some(value) => normalized(value),
        None => None,
    }
}

/// `value` without the white space around it; none where nothing else is there.
pub fn normalize_string(value: String) -> (res: Option<String>)
    ensures
        res.deep_view() == normalized(value@),
{
    let trimmed = trim_text(value.as_str());
    if trimmed.as_str().is_empty() {
        None
    } else {
        Some(trimmed)
    }
}

/// The same of a text that may be missing.
pub fn normalize_optional_string(value: Option<String>) -> (res: Option<String>)
    ensures
        res.deep_view() == normalized_optional(value.deep_view()),
{
    match value {
        Some(value) => normalize_string(value),
        None => None,
    }
}

/// Whether `text` is what is left of `value` without the white space around it: none where there
/// is nothing but white space, and otherwise one stretch of it that neither starts nor ends with
/// white space, with nothing but white space before and after it.
pub open spec fn is_core_of(text: Option<Seq<char>>, value: Seq<char>) -> bool {
    match text {
        Some(text) => {
            &&& text.len() > 0
            &&& is_trimmed(text)
            &&& exists|from: int, to: int|
                0 <= from <= to <= value.len() && text == #[trigger] value.subrange(from, to)
                    && all_white_space(value.take(from)) && all_white_space(value.skip(to))
        },
        None => all_white_space(value),
    }
}

/// Normalizing a text takes the white space around it away, and nothing else.
pub proof fn lemma_normalized_is_the_core(value: Seq<char>)
    ensures
        is_core_of(normalized(value), value),
        normalized_optional(Some(value)) == normalized(value),
        normalized_optional(None) is None,
{
    lemma_trim_cuts_white_space(value);
    lemma_trim_is_empty(value);
}

/// A normalized text is not empty, has no white space around it, and is not changed by
/// normalizing it again.
pub proof fn lemma_normalized_is_stable(value: Seq<char>)
    ensures
        normalized(value) matches Some(text) ==> text.len() > 0 && is_trimmed(text) && normalized(
            text,
        ) == Some(text),
{
    lemma_trim_cuts_white_space(value);
    lemma_trim_of_trimmed(trim(value));
}

// ---------------------------------------------------------------------------
// Episodes
// ---------------------------------------------------------------------------
/// What is kept of an episode.
#[derive(Debug, PartialEq, Eq)]
pub struct ExtractedEpisodeMetadata {
    /// Title.
    pub title: Option<String>,
    /// When the episode was published.
    pub publication_date: Option<String>,
    /// When the episode was broadcast.
    pub emission_date: Option<String>,
}

/// An [`ExtractedEpisodeMetadata`], with its texts as sequences of characters.
#[verifier::ext_equal]
pub struct ExtractedEpisodeMetadataModel {
    pub title: Option<Seq<char>>,
    pub publication_date: Option<Seq<char>>,
    pub emission_date: Option<Seq<char>>,
}

impl DeepView for ExtractedEpisodeMetadata {
    type V = ExtractedEpisodeMetadataModel;

    open spec fn deep_view(&self) -> ExtractedEpisodeMetadataModel {
        ExtractedEpisodeMetadataModel {
            title: self.title.deep_view(),
            publication_date: self.publication_date.deep_view(),
            emission_date: self.emission_date.deep_view(),
        }
    }
}

/// The text that is kept of a date.
pub open spec fn date_text(date: Option<MetadataDateValue>) -> Option<Seq<char>> {
    match date {
        Some(date) => normalized_optional(date.output()),
        None => None,
    }
}

/// What is kept of an episode.
pub open spec fn extracted(episode: MetadataEpisode) -> ExtractedEpisodeMetadataModel {
    ExtractedEpisodeMetadataModel {
        title: normalized_optional(episode.title.deep_view()),
        publication_date: date_text(episode.publication_date),
        emission_date: date_text(episode.emission_date),
    }
}

/// Whether `text` is what is kept of a date: the core of its UTC notation where it has one, and
/// otherwise of its notation for readers; none where it has neither, or there is no date.
pub open spec fn is_kept_of_date(text: Option<Seq<char>>, date: Option<MetadataDateValue>) -> bool {
    match date {
        Some(MetadataDateValue::Structured(fields)) => match (fields.utc, fields.text) {
            (Some(utc), _) => is_core_of(text, utc@),
            (None, Some(readable)) => is_core_of(text, readable@),
            (None, None) => text is None,
        },
        Some(MetadataDateValue::Text(value)) => is_core_of(text, value@),
        None => text is None,
    }
}

proof fn lemma_date_text(date: Option<MetadataDateValue>)
    ensures
        is_kept_of_date(date_text(date), date),
{
    match date {
        Some(MetadataDateValue::Structured(fields)) => {
            if fields.utc is Some {
                lemma_normalized_is_the_core(fields.utc->0@);
            } else if fields.text is Some {
                lemma_normalized_is_the_core(fields.text->0@);
            }
        },
        Some(MetadataDateValue::Text(value)) => {
            lemma_normalized_is_the_core(value@);
        },
        None => {},
    }
}

/// What is kept of an episode comes from the field of the same name, and from no other: the title
/// is the core of the title, and each of the two dates is what is kept of that date.
pub proof fn lemma_extracted_field_by_field(episode: MetadataEpisode)
    ensures
        match episode.title {
            Some(title) => is_core_of(extracted(episode).title, title@),
            None => extracted(episode).title is None,
        },
        is_kept_of_date(extracted(episode).publication_date, episode.publication_date),
        is_kept_of_date(extracted(episode).emission_date, episode.emission_date),
{
    if episode.title is Some {
        lemma_normalized_is_the_core(episode.title->0@);
    }
    lemma_date_text(episode.publication_date);
    lemma_date_text(episode.emission_date);
}

/// No field of an episode has an influence on what is kept of another one.
pub proof fn lemma_extracted_fields_are_independent(a: MetadataEpisode, b: MetadataEpisode)
    ensures
        a.title == b.title ==> extracted(a).title == extracted(b).title,
        a.publication_date == b.publication_date ==> extracted(a).publication_date == extracted(
            b,
        ).publication_date,
        a.emission_date == b.emission_date ==> extracted(a).emission_date == extracted(
            b,
        ).emission_date,
{
}

/// The text that is kept of a date.
fn normalize_date(date: &Option<MetadataDateValue>) -> (res: Option<String>)
    ensures
        res.deep_view() == date_text(*date),
{
    match date {
        Some(date) => normalize_optional_string(date.clone().into_output_string()),
        None => None,
    }
}

/// Picks what is kept of an episode.
pub fn map_episode_metadata(episode: &MetadataEpisode) -> (res: ExtractedEpisodeMetadata)
    ensures
        res.deep_view() == extracted(*episode),
{
    ExtractedEpisodeMetadata {
        title: normalize_optional_string(clone_text(&episode.title)),
        publication_date: normalize_date(&episode.publication_date),
        emission_date: normalize_date(&episode.emission_date),
    }
}

/// The media item that an episode is: it takes its permanent title where it has no other.
pub open spec fn episode_item(episode: MetadataEpisode) -> MediaItemModel {
    MediaItemModel {
        id: episode.id,
        title: match normalized_optional(episode.title.deep_view()) {
            Some(title) => title,
            None => episode.permatitle@,
        },
        video_url: None,
        subtitle_url: None,
        episode_number: Some(episode.number_of_episode),
        tv_show_name: Some(episode.tv_show_name@),
    }
}

/// The item of an episode has its identifier, its number and its show, and no URLs. Its title is
/// the core of the title, and the permanent title, as it stands, where that leaves nothing.
pub proof fn lemma_episode_item(episode: MetadataEpisode)
    ensures
        ({
            let item = episode_item(episode);
            &&& item.id == episode.id
            &&& item.episode_number == Some(episode.number_of_episode)
            &&& item.tv_show_name == Some(episode.tv_show_name@)
            &&& item.video_url is None
            &&& item.subtitle_url is None
            &&& match episode.title {
                Some(title) => if all_white_space(title@) {
                    item.title == episode.permatitle@
                } else {
                    is_core_of(Some(item.title), title@)
                },
                None => item.title == episode.permatitle@,
            }
        }),
{
    if episode.title is Some {
        lemma_normalized_is_the_core(episode.title->0@);
        lemma_trim_is_empty(episode.title->0@);
    }
}

/// Makes a media item of an episode.
pub fn media_item_from_episode(episode: &MetadataEpisode) -> (item: MediaItem)
    ensures
        item.deep_view() == episode_item(*episode),
{
    let title = match normalize_optional_string(clone_text(&episode.title)) {
        Some(title) => title,
        None => episode.permatitle.clone(),
    };
    MediaItem {
        id: episode.id,
        title,
        video_url: None,
        subtitle_url: None,
        episode_number: Some(episode.number_of_episode),
        tv_show_name: Some(episode.tv_show_name.clone()),
    }
}

// ---------------------------------------------------------------------------
// Covers
// ---------------------------------------------------------------------------
/// Whether an image is the cover of its episode: the key image, in master size. The size may be
/// written in any case, the relation may not.
pub open spec fn is_cover(image: MetadataImage) -> bool {
    &&& image.size matches Some(size) && lower(size@) == lower("master"@)
    &&& image.relation_name matches Some(relation) && relation@ == "KEYVIDEO"@
}

/// A cover has a size that reads `master`, whatever the case of its letters, and the relation
/// `KEYVIDEO` as it stands. Where either is missing, the image is no cover.
pub proof fn lemma_covers(image: MetadataImage)
    ensures
        is_cover(image) <==> {
            &&& image.relation_name matches Some(relation) && relation@ == "KEYVIDEO"@
            &&& image.size matches Some(size) && size@.len() == 6 && {
                &&& size@[0] == 'm' || size@[0] == 'M'
                &&& size@[1] == 'a' || size@[1] == 'A'
                &&& size@[2] == 's' || size@[2] == 'S'
                &&& size@[3] == 't' || size@[3] == 'T'
                &&& size@[4] == 'e' || size@[4] == 'E'
                &&& size@[5] == 'r' || size@[5] == 'R'
            }
        },
{
    reveal_strlit("master");
    if image.size is Some {
        let size = image.size->0@;
        let small = lower("master"@);
        lemma_lower(size);
        lemma_lower("master"@);
        assert(small.len() == 6 && small[0] == 'm' && small[1] == 'a' && small[2] == 's' && small[3]
            == 't' && small[4] == 'e' && small[5] == 'r');
        if lower(size) == small {
            assert(lower(size)[0] == 'm' && lower(size)[1] == 'a' && lower(size)[2] == 's');
            assert(lower(size)[3] == 't' && lower(size)[4] == 'e' && lower(size)[5] == 'r');
        } else if size.len() == 6 {
            assert(exists|i: int| 0 <= i < 6 && lower(size)[i] != small[i]) by {
                if forall|i: int| 0 <= i < 6 ==> lower(size)[i] == small[i] {
                    assert(lower(size) =~= small);
                }
            }
        }
    }
}

/// URL of the first cover.
pub open spec fn cover_url(images: Seq<MetadataImage>) -> Option<Seq<char>>
    decreases images.len(),
{
    if images.len() == 0 {
        None
    } else if is_cover(images.first()) {
        Some(images.first().url@)
    } else {
        cover_url(images.drop_first())
    }
}

/// Tells whether an image is the cover of its episode.
fn check_cover(image: &MetadataImage) -> (res: bool)
    ensures
        res == is_cover(*image),
{
    let size_matches = match &image.size {
        Some(size) => eq_ignore_ascii_case(size.as_str(), "master"),
        None => false,
    };
    let relation_matches = match &image.relation_name {
        Some(relation) => same_text(relation.as_str(), "KEYVIDEO"),
        None => false,
    };
    size_matches && relation_matches
}

/// Picks the cover among the images of an episode.
pub fn select_cover_url(images: &[MetadataImage]) -> (url: Option<&str>)
    ensures
        url.deep_view() == cover_url(images@),
{
    let mut i: usize = 0;
    assert(images@.skip(0) =~= images@);
    while i < images.len()
        invariant
            i <= images.len(),
            cover_url(images@.skip(i as int)) == cover_url(images@),
        decreases images.len() - i,
    {
        assert(images@.skip(i as int).drop_first() =~= images@.skip(i + 1));
        if check_cover(&images[i]) {
            return Some(images[i].url.as_str());
        }
        i = i + 1;
    }
    None
}

/// The cover that is picked is the first one, and none is picked exactly where there is none.
pub proof fn lemma_cover_url_is_first(images: Seq<MetadataImage>)
    ensures
        match cover_url(images) {
            Some(url) => exists|i: int|
                0 <= i < images.len() && is_cover(#[trigger] images[i]) && url == images[i].url@
                    && forall|j: int| 0 <= j < i ==> !is_cover(#[trigger] images[j]),
            None => forall|i: int| 0 <= i < images.len() ==> !is_cover(#[trigger] images[i]),
        },
    decreases images.len(),
{
    if images.len() > 0 && !is_cover(images.first()) {
        let rest = images.drop_first();
        lemma_cover_url_is_first(rest);
        match cover_url(rest) {
            Some(url) => {
                let k = choose|k: int|
                    0 <= k < rest.len() && is_cover(#[trigger] rest[k]) && url == rest[k].url@
                        && forall|j: int| 0 <= j < k ==> !is_cover(#[trigger] rest[j]);
                assert(images[k + 1] == rest[k]);
                assert forall|j: int| 0 <= j < k + 1 implies !is_cover(#[trigger] images[j]) by {
                    if j > 0 {
                        assert(images[j] == rest[j - 1]);
                    }
                }
            },
            None => {
                assert forall|i: int| 0 <= i < images.len() implies !is_cover(
                    #[trigger] images[i],
                ) by {
                    if i > 0 {
                        assert(images[i] == rest[i - 1]);
                    }
                }
            },
        }
    } else if images.len() > 0 {
        assert(images[0] == images.first());
    }
}

/// The extension that the file at a URL has, in lower case: `jpg` where the URL shows none. What
/// follows a question mark does not count.
pub open spec fn url_extension(url: Seq<char>) -> Seq<char> {
    match extension(before_first(url, '?')) {
        Some(ext) => if ext.len() > 0 {
            lower(ext)
        } else {
            "jpg"@
        },
        None => "jpg"@,
    }
}

/// The extension that the file at a URL has, in lower case.
pub fn extension_from_url(url: &str) -> (ext: String)
    ensures
        ext@ == url_extension(url@),
{
    let without_query = text_before_first(url, '?');
    match path_extension(without_query.as_str()) {
        Some(ext) => {
            if ext.as_str().is_empty() {
                "jpg".to_owned()
            } else {
                to_ascii_lowercase(ext.as_str())
            }
        },
        None => "jpg".to_owned(),
    }
}

/// The query of a URL has no influence on the extension.
pub proof fn lemma_query_does_not_matter(url: Seq<char>, query: Seq<char>)
    ensures
        url_extension(url + seq!['?'] + query) == url_extension(url),
{
    lemma_before_first_of_more(url, '?', query);
}

/// The extension of a URL is never empty, has no dot, no separator and no question mark in it,
/// and is in lower case. A file that is named with it has it for its extension again.
pub proof fn lemma_url_extension_is_plain(url: Seq<char>)
    ensures
        url_extension(url).len() > 0,
        !url_extension(url).contains('.'),
        !url_extension(url).contains('/'),
        !url_extension(url).contains('?'),
        lower(url_extension(url)) == url_extension(url),
        url_extension("x."@ + url_extension(url)) == url_extension(url),
{
    reveal_strlit("jpg");
    reveal_strlit("x.");
    let path = before_first(url, '?');
    let ext = url_extension(url);
    lemma_before_first_is_prefix(url, '?');
    assert forall|i: int| 0 <= i < ext.len() implies ext[i] != '.' && ext[i] != '/' && ext[i]
        != '?' by {
        if extension(path) is Some && extension(path)->0.len() > 0 {
            let found = extension(path)->0;
            assert(ext[i] == lower_char(found[i]));
            assert(found.contains(found[i]));
            lemma_extension_is_in_path(path, found[i]);
        }
    }
    assert(lower(ext) =~= ext);
    let name = "x."@ + ext;
    assert(name =~= seq!['x'] + seq!['.'] + ext);
    assert forall|i: int| 0 <= i < name.len() implies name[i] != '/' && name[i] != '?' by {
        if i >= 2 {
            assert(name[i] == ext[i - 2]);
        }
    }
    assert(name != seq!['.'] && name != seq!['.', '.']) by {
        assert(name.len() >= 3);
    }
    lemma_stem_and_extension(seq!['x'], ext);
    lemma_before_first_of_concat(name, '?', Seq::empty());
}

/// The extension of a URL is what stands after the last dot of its last part, in lower case. That
/// part ends where the query begins, if there is one. A dot at its beginning or its end does not
/// count: where it has no other, and where the URL has no last part, the extension is `jpg`.
pub proof fn lemma_url_extension(front: Seq<char>, name: Seq<char>, query: Seq<char>)
    requires
        !front.contains('?'),
        !name.contains('?'),
        is_plain_name(name),
        query.len() > 0 ==> query[0] == '?',
    ensures
        ({
            let ext = url_extension(front + seq!['/'] + name + query);
            &&& forall|i: int|
                0 < i < name.len() - 1 && #[trigger] name[i] == '.' && !name.skip(i + 1).contains(
                    '.',
                ) ==> ext == lower(name.skip(i + 1))
            &&& (forall|i: int| 0 < i < name.len() ==> #[trigger] name[i] != '.') ==> ext == "jpg"@
            &&& name.last() == '.' ==> ext == "jpg"@
            &&& url_extension(name + query) == ext
        }),
        url_extension(front + seq!['/'] + query) == url_extension(front),
        url_extension(query) == "jpg"@,
{
    let path = front + seq!['/'] + name;
    assert(!path.contains('?')) by {
        assert forall|i: int| 0 <= i < path.len() implies path[i] != '?' by {
            if i < front.len() {
                assert(front.contains(path[i]));
            } else if i > front.len() {
                assert(name.contains(name[i - front.len() - 1]));
            }
        }
    }
    assert(!(front + seq!['/']).contains('?')) by {
        let slash = front + seq!['/'];
        assert forall|i: int| 0 <= i < slash.len() implies slash[i] != '?' by {
            if i < front.len() {
                assert(front.contains(slash[i]));
            }
        }
    }
    lemma_before_query(path, query);
    lemma_before_query(name, query);
    lemma_before_query(front + seq!['/'], query);
    lemma_before_query(front, Seq::empty());
    assert(front + Seq::empty() =~= front);
    lemma_before_query(Seq::empty(), query);
    assert(Seq::<char>::empty() + query =~= query);
    lemma_file_name_at_the_end(front);
    lemma_parts_are_those_of_the_name(front);
    lemma_parts_are_those_of_the_name(front + seq!['/']);
    lemma_parts_are_those_of_the_name(path);
    lemma_parts_are_those_of_the_name(Seq::empty());
    lemma_name_behind_separator(front, name);
    lemma_name_is_cut_at_the_last_dot(name);
    let ext = url_extension(path + query);
    assert forall|i: int|
        0 < i < name.len() - 1 && #[trigger] name[i] == '.' && !name.skip(i + 1).contains(
            '.',
        ) implies ext == lower(name.skip(i + 1)) by {
        assert(name =~= name.take(i) + seq!['.'] + name.skip(i + 1));
        lemma_stem_and_extension(name.take(i), name.skip(i + 1));
    }
    if name.last() == '.' && name.len() > 1 {
        let stem = name.drop_last();
        assert(name =~= stem + seq!['.'] + Seq::<char>::empty());
        lemma_stem_and_extension(stem, Seq::empty());
    }
}

/// Where the last part of a URL is a single dot, the part before it counts; where it is two dots,
/// no part does, and the extension is `jpg`.
pub proof fn lemma_url_extension_of_dots(front: Seq<char>, query: Seq<char>)
    requires
        !front.contains('?'),
        query.len() > 0 ==> query[0] == '?',
    ensures
        url_extension(front + seq!['/', '.'] + query) == url_extension(front),
        url_extension(front + seq!['/', '.', '.'] + query) == "jpg"@,
        url_extension(seq!['.'] + query) == "jpg"@,
        url_extension(seq!['.', '.'] + query) == "jpg"@,
{
    let one = front + seq!['/', '.'];
    let two = front + seq!['/', '.', '.'];
    assert forall|i: int| 0 <= i < two.len() implies two[i] != '?' by {
        if i < front.len() {
            assert(front.contains(two[i]));
        }
    }
    assert forall|i: int| 0 <= i < one.len() implies one[i] != '?' by {
        assert(one[i] == two[i]);
    }
    lemma_before_query(one, query);
    lemma_before_query(two, query);
    lemma_before_query(front, Seq::empty());
    assert(front + Seq::empty() =~= front);
    lemma_before_query(seq!['.'], query);
    lemma_before_query(seq!['.', '.'], query);
    lemma_file_name_at_the_end(front);
    lemma_parts_are_those_of_the_name(front);
    lemma_parts_are_those_of_the_name(one);
    lemma_parts_are_those_of_the_name(two);
}

/// A query is not part of what stands before it.
proof fn lemma_before_query(path: Seq<char>, query: Seq<char>)
    requires
        !path.contains('?'),
        query.len() > 0 ==> query[0] == '?',
    ensures
        before_first(path + query, '?') == path,
{
    if query.len() > 0 {
        assert(path + query =~= path + seq!['?'] + query.drop_first());
        lemma_before_first_of_concat(path, '?', query.drop_first());
    } else {
        assert(path + query =~= path);
        lemma_before_first_of_concat(path, '?', Seq::empty());
    }
}

/// The name behind the last separator is the file name.
proof fn lemma_name_behind_separator(front: Seq<char>, name: Seq<char>)
    requires
        is_plain_name(name),
    ensures
        file_name(front + seq!['/'] + name) == Some(name),
{
    let path = front + seq!['/'] + name;
    let directory = front + seq!['/'];
    assert(name.contains(name[0]));
    assert(join(directory, name) =~= path);
    lemma_file_name_of_join(directory, name);
}

/// Name of the file that the cover of the episode `id` is stored in, as characters.
pub open spec fn cover_name(stem: Seq<char>, id: i32, ext: Seq<char>) -> Seq<char> {
    stem + "-cover-"@ + decimal(id as int) + "."@ + ext
}

/// Name of the file that the cover at `url` is stored in.
pub fn cover_file_name(stem: &str, id: i32, url: &str) -> (name: String)
    ensures
        name@ == cover_name(stem@, id, url_extension(url@)),
{
    let mut name = stem.to_owned();
    name.append("-cover-");
    name.append(decimal_text(id).as_str());
    name.append(".");
    name.append(extension_from_url(url).as_str());
    name
}

/// The name of a cover starts with the stem of the item, and ends in the identifier of the episode
/// and the extension, with a text between them that says what it is.
pub proof fn lemma_cover_name(stem: Seq<char>, id: i32, ext: Seq<char>)
    ensures
        stem.is_prefix_of(cover_name(stem, id, ext)),
        cover_name(stem, id, ext).skip(stem.len() as int) == "-cover-"@ + decimal(id as int) + seq![
            '.',
        ] + ext,
{
    reveal_strlit(".");
    assert("."@ =~= seq!['.']);
    assert(cover_name(stem, id, ext).skip(stem.len() as int) =~= "-cover-"@ + decimal(id as int)
        + seq!['.'] + ext);
}

/// What stands before the last dot of a cover name ends in the identifier, with a text before
/// it that is no number.
proof fn lemma_decimal_at_end(a: Seq<char>, m: int, b: Seq<char>, n: int)
    requires
        a + "-cover-"@ + decimal(m) == b + "-cover-"@ + decimal(n),
        decimal(m).len() <= decimal(n).len(),
    ensures
        m == n,
{
    reveal_strlit("-cover-");
    let dm = decimal(m);
    let dn = decimal(n);
    lemma_digits_are_digits((if n < 0 { -n } else { n }) as nat);
    let left = a + "-cover-"@ + dm;
    let right = b + "-cover-"@ + dn;
    let end = left.len() as int;
    let gap = dn.len() - dm.len();
    assert(left.len() == a.len() + 7 + dm.len());
    assert(right.len() == b.len() + 7 + dn.len());
    if gap == 0 {
        assert(left.skip(end - dm.len()) =~= dm);
        assert(right.skip(end - dn.len()) =~= dn);
        lemma_decimal_injective(m, n);
    } else {
        // The dash before the shorter number falls into the longer one, where only its first
        // character can be one; but then a letter stands where that number begins.
        assert(left[end - dm.len() - 1] == "-cover-"@[6]);
        assert(right[end - dm.len() - 1] == dn[gap - 1]);
        assert(dn[gap - 1] == '-');
        if gap > 1 || n >= 0 {
            let digits = crate::text::digits((if n < 0 { -n } else { n }) as nat);
            if n < 0 {
                assert(dn[gap - 1] == digits[gap - 2]);
            } else {
                assert(dn[gap - 1] == digits[gap - 1]);
            }
            assert(false);
        } else {
            assert(left[end - dm.len() - 2] == "-cover-"@[5]);
            assert(right[end - dn.len() - 1] == "-cover-"@[6]);
            assert(end - dm.len() - 2 == end - dn.len() - 1);
            assert(false);
        }
    }
}

/// Covers of different episodes never go into the same file.
pub proof fn lemma_cover_names_differ(
    stem_a: Seq<char>,
    a: i32,
    url_a: Seq<char>,
    stem_b: Seq<char>,
    b: i32,
    url_b: Seq<char>,
)
    requires
        cover_name(stem_a, a, url_extension(url_a)) == cover_name(
            stem_b,
            b,
            url_extension(url_b),
        ),
    ensures
        a == b,
{
    reveal_strlit(".");
    assert("."@ =~= seq!['.']);
    let ext_a = url_extension(url_a);
    let ext_b = url_extension(url_b);
    let front_a = stem_a + "-cover-"@ + decimal(a as int);
    let front_b = stem_b + "-cover-"@ + decimal(b as int);
    let name = cover_name(stem_a, a, ext_a);
    lemma_url_extension_is_plain(url_a);
    lemma_url_extension_is_plain(url_b);
    lemma_after_last_of_concat(front_a, '.', ext_a);
    lemma_after_last_of_concat(front_b, '.', ext_b);
    assert(name == front_a + seq!['.'] + ext_a);
    assert(name == front_b + seq!['.'] + ext_b);
    assert(ext_a == ext_b);
    assert(name.take(name.len() - ext_a.len() - 1) =~= front_a);
    assert(name.take(name.len() - ext_a.len() - 1) =~= front_b);
    if decimal(a as int).len() <= decimal(b as int).len() {
        lemma_decimal_at_end(stem_a, a as int, stem_b, b as int);
    } else {
        lemma_decimal_at_end(stem_b, b as int, stem_a, a as int);
    }
}

/// Path of the file that the metadata of a TV show is stored in, as characters.
pub open spec fn manifest_path(directory: Seq<char>, slug: Seq<char>) -> Seq<char> {
    join(directory, slug + "-metadata.json"@)
}

/// The manifest is a file in the directory, and is named after the slug.
pub proof fn lemma_manifest_path(directory: Seq<char>, slug: Seq<char>)
    ensures
        manifest_path(directory, slug) == join(directory, slug + "-metadata.json"@),
        !slug.contains('/') ==> directory.is_prefix_of(manifest_path(directory, slug)) && file_name(
            manifest_path(directory, slug),
        ) == Some(slug + "-metadata.json"@),
{
    reveal_strlit("-metadata.json");
    let name = slug + "-metadata.json"@;
    if !slug.contains('/') {
        assert forall|i: int| 0 <= i < name.len() implies name[i] != '/' by {
            if i < slug.len() {
                assert(slug.contains(name[i]));
            }
        }
        assert(name.len() > 2);
        lemma_join(directory, name);
        lemma_file_name_of_join(directory, name);
    }
}

/// Path of the file that the metadata of a TV show is stored in.
pub fn metadata_file_path(directory: &str, slug: &str) -> (path: String)
    ensures
        path@ == manifest_path(directory@, slug@),
{
    let mut name = slug.to_owned();
    name.append("-metadata.json");
    join_path(directory, name.as_str())
}

} // verus!
