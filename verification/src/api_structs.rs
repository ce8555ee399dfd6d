//! What the media API answers.

use vstd::prelude::*;

use crate::text::{all_white_space, is_white_space, lemma_trim_is_empty, trim_text};

verus! {

/// The error that the API reports; it carries no detail.
#[derive(Debug)]
pub struct Tv3Error {}

impl Tv3Error {
    /// The text that the error is shown as.
    pub fn message(&self) -> (text: String)
        ensures
            text@ == "Error"@,
    {
        "Error".to_owned()
    }
}

/// Details of a single media item.
#[derive(Debug)]
pub struct SingleEpisodeRoot {
    /// Video files.
    pub media: SingleEpisodeMedia,
    /// Subtitle tracks: absent or empty where the item has none.
    pub subtitles: Option<Vec<SingleEpisodeSubtitles>>,
}

/// The list of video files.
#[derive(Debug)]
pub struct SingleEpisodeMedia {
    /// Video files with their status.
    pub url: Vec<UrlMetadata>,
}

/// A video file.
#[derive(Debug)]
pub struct UrlMetadata {
    /// URL of the file.
    pub file: String,
    /// Whether the file can be fetched at present.
    pub active: bool,
}

/// A subtitle track.
#[derive(Debug)]
pub struct SingleEpisodeSubtitles {
    /// URL of the subtitle file.
    pub url: String,
}

/// The episode list of a TV show.
#[derive(Debug)]
pub struct MetadataEpisodesRoot {
    /// The payload.
    pub response: MetadataMainResponse,
}

/// The payload of the episode list.
#[derive(Debug)]
pub struct MetadataMainResponse {
    /// The episodes.
    pub items: MetadataItems,
}

/// The episodes of a TV show.
#[derive(Debug)]
pub struct MetadataItems {
    /// The single episodes.
    pub item: Vec<MetadataEpisode>,
}

/// An episode of a TV show.
#[derive(Debug)]
pub struct MetadataEpisode {
    /// Identifier of the episode.
    pub id: i32,
    /// Number of the episode within the show.
    pub number_of_episode: i32,
    /// Permanent title, as used in URLs.
    pub permatitle: String,
    /// Title for readers.
    pub title: Option<String>,
    /// Name of the TV show.
    pub tv_show_name: String,
    /// When the episode was published.
    pub publication_date: Option<MetadataDateValue>,
    /// When the episode was broadcast.
    pub emission_date: Option<MetadataDateValue>,
    /// Images of the episode.
    pub images: Vec<MetadataImage>,
}

/// A date.
#[derive(Debug, PartialEq, Eq)]
pub enum MetadataDateValue {
    /// A date in more than one notation.
    Structured(MetadataDateFields),
    /// A date as text.
    Text(String),
}

impl MetadataDateValue {
    /// The text that stands for the date in output, as characters: the UTC notation before the
    /// one for readers, and a plain text unless it is blank.
    pub open spec fn output(self) -> Option<Seq<char>> {
        match self {
            MetadataDateValue::Structured(fields) => if fields.utc is Some {
                fields.utc.deep_view()
            } else {
                fields.text.deep_view()
            },
            MetadataDateValue::Text(value) => if all_white_space(value@) {
                None
            } else {
                Some(value@)
            },
        }
    }

    /// Returns the most stable text available for output.
    #[must_use]
    pub fn into_output_string(self) -> (text: Option<String>)
        ensures
            text.deep_view() == self.output(),
    {
        match self {
            MetadataDateValue::Structured(fields) => match fields.utc {
                Some(utc) => Some(utc),
                None => fields.text,
            },
            MetadataDateValue::Text(value) => {
                proof {
                    lemma_trim_is_empty(value@);
                }
                if trim_text(value.as_str()).as_str().is_empty() {
                    None
                } else {
                    Some(value)
                }
            },
        }
    }
}

/// A date in more than one notation is shown in UTC where it can be, and otherwise as it is for
/// readers. A date as text is shown as it stands, unless there is nothing but white space in it.
pub proof fn lemma_date_output(utc: String, text: Option<String>, value: String)
    ensures
        MetadataDateValue::Structured(MetadataDateFields { text, utc: Some(utc) }).output() == Some(
            utc@,
        ),
        text is Some ==> MetadataDateValue::Structured(
            MetadataDateFields { text, utc: None },
        ).output() == Some(text->0@),
        MetadataDateValue::Structured(
            MetadataDateFields { text: None, utc: None },
        ).output() is None,
        MetadataDateValue::Text(value).output() is None <==> forall|i: int|
            0 <= i < value@.len() ==> is_white_space(#[trigger] value@[i]),
        MetadataDateValue::Text(value).output() matches Some(shown) ==> shown == value@,
{
}

/// A date in two notations.
#[derive(Debug, PartialEq, Eq)]
pub struct MetadataDateFields {
    /// The date for readers.
    pub text: Option<String>,
    /// The date as a UTC timestamp.
    pub utc: Option<String>,
}

impl Clone for MetadataDateFields {
    fn clone(&self) -> (res: MetadataDateFields)
        ensures
            res == *self,
    {
        MetadataDateFields {
            text: clone_text(&self.text),
            utc: clone_text(&self.utc),
        }
    }
}

impl Clone for MetadataDateValue {
    fn clone(&self) -> (res: MetadataDateValue)
        ensures
            res == *self,
    {
        match self {
            MetadataDateValue::Structured(fields) => MetadataDateValue::Structured(fields.clone()),
            MetadataDateValue::Text(value) => MetadataDateValue::Text(value.clone()),
        }
    }
}

/// A copy of a text, where there is one.
pub(crate) fn clone_text(text: &Option<String>) -> (res: Option<String>)
    ensures
        res == *text,
{
    match text {
        Some(text) => Some(text.clone()),
        None => None,
    }
}

/// An image of an episode.
#[derive(Debug, PartialEq, Eq)]
pub struct MetadataImage {
    /// Name of the image size.
    pub size: Option<String>,
    /// Name of what the image is for.
    pub relation_name: Option<String>,
    /// URL of the image.
    pub url: String,
}

} // verus!
