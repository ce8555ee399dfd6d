//! Errors of the download workflow.

use vstd::prelude::*;

verus! {

/// What can go wrong while a media item is fetched and stored.
#[derive(Debug, PartialEq, Eq)]
pub enum Error {
    /// A response of the API could not be fetched or decoded.
    Decoding(String),
    /// No video URL is known for the file of this name.
    MediaDoesNotHaveVideoUrl(String),
    /// Subtitles were asked for, and there are none for the item of this title.
    NoSubtitlesAvailable(String),
    /// A path cannot be used as text.
    InvalidPathEncoding(String),
    /// A transfer, or the file work around it, failed.
    Downloading(String),
}

/// An [`Error`], with its text as a sequence of characters.
pub enum ErrorModel {
    Decoding(Seq<char>),
    MediaDoesNotHaveVideoUrl(Seq<char>),
    NoSubtitlesAvailable(Seq<char>),
    InvalidPathEncoding(Seq<char>),
    Downloading(Seq<char>),
}

impl DeepView for Error {
    type V = ErrorModel;

    open spec fn deep_view(&self) -> ErrorModel {
        match self {
            Error::Decoding(s) => ErrorModel::Decoding(s@),
            Error::MediaDoesNotHaveVideoUrl(s) => ErrorModel::MediaDoesNotHaveVideoUrl(s@),
            Error::NoSubtitlesAvailable(s) => ErrorModel::NoSubtitlesAvailable(s@),
            Error::InvalidPathEncoding(s) => ErrorModel::InvalidPathEncoding(s@),
            Error::Downloading(s) => ErrorModel::Downloading(s@),
        }
    }
}

/// Why a whole workflow failed.
#[derive(Debug, PartialEq, Eq)]
pub enum Failure {
    /// One of the errors of a download.
    Known(Error),
    /// A reason for the user.
    Message(String),
    /// What was being done, and what went wrong with it.
    Context { context: String, cause: String },
    /// The error that the work asked for last ended with.
    Reported,
}

/// A [`Failure`], with its texts as sequences of characters.
pub enum FailureModel {
    Known(ErrorModel),
    Message(Seq<char>),
    Context { context: Seq<char>, cause: Seq<char> },
    Reported,
}

impl DeepView for Failure {
    type V = FailureModel;

    open spec fn deep_view(&self) -> FailureModel {
        match self {
            Failure::Known(error) => FailureModel::Known(error.deep_view()),
            Failure::Message(text) => FailureModel::Message(text@),
            Failure::Context { context, cause } => FailureModel::Context {
                context: context@,
                cause: cause@,
            },
            Failure::Reported => FailureModel::Reported,
        }
    }
}

/// The result of a workflow, with the failure as a model.
pub open spec fn workflow_model(result: Result<(), Failure>) -> Result<(), FailureModel> {
    match result {
        Ok(()) => Ok(()),
        Err(failure) => Err(failure.deep_view()),
    }
}

/// The result of an operation, with the value and the error as models.
pub open spec fn result_model<T: DeepView>(result: Result<T, Error>) -> Result<T::V, ErrorModel> {
    match result {
        Ok(value) => Ok(value.deep_view()),
        Err(error) => Err(error.deep_view()),
    }
}

} // verus!
