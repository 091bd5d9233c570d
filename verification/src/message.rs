//! The messages exchanged between the form and the background job.

use vstd::prelude::*;
use vstd::string::*;

verus! {

/// One message on a channel between the form and the job.
///
/// `Download` travels from the form to the job and carries the address as
/// the user typed it.  `Success` and `Failure` travel back; either one ends
/// the exchange.  A `Failure` carries the description of what went wrong.
#[derive(Clone, Debug, PartialEq, Eq)]
pub enum Message {
    Download(String),
    Success,
    Failure(String),
}

/// A message with its texts as sequences of characters.
pub enum MessageView {
    Download(Seq<char>),
    Success,
    Failure(Seq<char>),
}

/// The words that open the text shown for every failure.
pub open spec fn failure_prefix() -> Seq<char> {
    "Failure downloading video: "@
}

impl MessageView {
    /// Whether the message ends the exchange.
    pub open spec fn is_terminal(self) -> bool {
        self is Success || self is Failure
    }

    /// What the form shows for the message: the fixed text of a success,
    /// the fixed prefix followed by the detail of a failure, and the address
    /// of a request.
    pub open spec fn text(self) -> Seq<char> {
        match self {
            MessageView::Download(address) => address,
            MessageView::Success => "Success!"@,
            MessageView::Failure(detail) => failure_prefix() + detail,
        }
    }
}

impl View for Message {
    type V = MessageView;

    open spec fn view(&self) -> MessageView {
        match self {
            Message::Download(address) => MessageView::Download(address@),
            Message::Success => MessageView::Success,
            Message::Failure(detail) => MessageView::Failure(detail@),
        }
    }
}

impl Message {
    /// Whether the message ends the exchange.
    pub fn is_terminal(&self) -> (r: bool)
        ensures
            r == self@.is_terminal(),
    {
        match self {
            Message::Download(_) => false,
            Message::Success => true,
            Message::Failure(_) => true,
        }
    }

    /// Turns the message into the text that the form shows for it.
    pub fn into(self) -> (text: String)
        ensures
            text@ == self@.text(),
    {
        match self {
            Message::Download(address) => address,
            Message::Failure(detail) => String::from_str("Failure downloading video: ").concat(
                detail.as_str(),
            ),
            Message::Success => String::from_str("Success!"),
        }
    }
}

} // verus!
