//! What can go wrong in a download job, and the message that reports it.

use crate::message::{Message, MessageView};
use vstd::prelude::*;
use vstd::string::*;

verus! {

/// The ways in which a download job fails.
#[derive(Clone, Debug, PartialEq, Eq)]
pub enum JobError {
    /// The address is not a URL; holds the parser's description.
    InvalidUrl(String),
    /// The video's metadata could not be fetched; holds the fetcher's description.
    MetadataFetchError(String),
    /// No stream has both tracks and an acceptable quality.
    NoAcceptableStream,
    /// The desktop directory is not known.
    DestinationUnresolvable,
    /// The transfer to the file failed; holds the description of the fault.
    DownloadError(String),
}

/// A job error with its texts as sequences of characters.
pub enum JobErrorView {
    InvalidUrl(Seq<char>),
    MetadataFetchError(Seq<char>),
    NoAcceptableStream,
    DestinationUnresolvable,
    DownloadError(Seq<char>),
}

impl JobErrorView {
    /// The description of the error: the text it carries, or a fixed text
    /// for the two errors that carry none.
    pub open spec fn detail(self) -> Seq<char> {
        match self {
            JobErrorView::InvalidUrl(reason) => reason,
            JobErrorView::MetadataFetchError(reason) => reason,
            JobErrorView::NoAcceptableStream => "No stream with acceptable quality available"@,
            JobErrorView::DestinationUnresolvable => "No desktop directory available"@,
            JobErrorView::DownloadError(reason) => reason,
        }
    }

    /// The terminal message that reports the error: a `Failure` that carries
    /// the description.
    pub open spec fn message(self) -> MessageView {
        MessageView::Failure(self.detail())
    }
}

impl View for JobError {
    type V = JobErrorView;

    open spec fn view(&self) -> JobErrorView {
        match self {
            JobError::InvalidUrl(reason) => JobErrorView::InvalidUrl(reason@),
            JobError::MetadataFetchError(reason) => JobErrorView::MetadataFetchError(reason@),
            JobError::NoAcceptableStream => JobErrorView::NoAcceptableStream,
            JobError::DestinationUnresolvable => JobErrorView::DestinationUnresolvable,
            JobError::DownloadError(reason) => JobErrorView::DownloadError(reason@),
        }
    }
}

impl JobError {
    /// The description of the error.
    pub fn detail(&self) -> (text: String)
        ensures
            text@ == self@.detail(),
    {
        match self {
            JobError::InvalidUrl(reason) => reason.clone(),
            JobError::MetadataFetchError(reason) => reason.clone(),
            JobError::NoAcceptableStream => String::from_str(
                "No stream with acceptable quality available",
            ),
            JobError::DestinationUnresolvable => String::from_str("No desktop directory available"),
            JobError::DownloadError(reason) => reason.clone(),
        }
    }

    /// The terminal message that reports the error to the form.
    pub fn into_message(self) -> (message: Message)
        ensures
            message@ == self@.message(),
    {
        Message::Failure(self.detail())
    }
}

} // verus!
