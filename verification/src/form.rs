//! The form's state: the address being typed, the status shown, and the two
//! channels to and from the background job.

use crate::message::{Message, MessageView};
use std::sync::mpsc::{Receiver, Sender};
use vstd::prelude::*;
use vstd::string::*;

verus! {

/// `std::sync::mpsc::Sender`, carried through as an opaque value.
#[verifier::external_type_specification]
#[verifier::external_body]
#[verifier::reject_recursive_types(T)]
pub struct ExSender<T>(Sender<T>);

/// `std::sync::mpsc::Receiver`, carried through as an opaque value.
#[verifier::external_type_specification]
#[verifier::external_body]
#[verifier::reject_recursive_types(T)]
pub struct ExReceiver<T>(Receiver<T>);

/// Calls `Sender::send`.
///
/// Trusted: sending fails only when the receiving end is gone, and the error
/// then hands the unsent message back.  Whether it fails is not known here.
#[verifier::external_body]
fn send(sender: &Sender<Message>, message: Message) -> (outcome: Result<(), Message>)
    ensures
        outcome matches Err(returned) ==> returned == message,
{
    match sender.send(message) {
        Ok(()) => Ok(()),
        Err(error) => Err(error.0),
    }
}

/// Calls `Receiver::try_recv`, which does not block.
///
/// Trusted, and nothing is claimed of the result: it is the next message if
/// one is waiting, and nothing if none is or the sending end is gone.
#[verifier::external_body]
fn try_receive(receiver: &Receiver<Message>) -> Option<Message> {
    match receiver.try_recv() {
        Ok(message) => Some(message),
        Err(_) => None,
    }
}

/// What a poll found, with the message's text as a sequence of characters.
pub open spec fn found_view(polled: Option<Message>) -> Option<MessageView> {
    match polled {
        Some(message) => Some(message@),
        None => None,
    }
}

/// The detail of the failure shown when a request cannot be sent.
pub open spec fn unsent_detail() -> Seq<char> {
    "The download job is not running"@
}

/// The status that the form shows after a poll: the text of the message that
/// the poll found, or the status as it was where it found none.
pub open spec fn status_after(status: Seq<char>, polled: Option<MessageView>) -> Seq<char> {
    match polled {
        Some(message) => message.text(),
        None => status,
    }
}

/// The form: its two texts and its two channel ends.
pub struct MyApp {
    /// The address, edited by the user.
    pub url: String,
    /// The status, set from the job's messages.
    pub status_message: String,
    /// The channel end on which requests leave.
    pub sender: Sender<Message>,
    /// The channel end on which results arrive.
    pub receiver: Receiver<Message>,
}

impl MyApp {
    /// Whether `self` keeps the address and the channel ends of `before`.
    pub open spec fn keeps_address_and_channels(&self, before: &MyApp) -> bool {
        &&& self.url == before.url
        &&& self.sender == before.sender
        &&& self.receiver == before.receiver
    }

    /// A form with both texts empty, on the channel ends given.
    pub fn from(channels: (Sender<Message>, Receiver<Message>)) -> (app: MyApp)
        ensures
            app.url@ == Seq::<char>::empty(),
            app.status_message@ == Seq::<char>::empty(),
            app.sender == channels.0,
            app.receiver == channels.1,
    {
        let (sender, receiver) = channels;
        MyApp { url: String::new(), status_message: String::new(), sender, receiver }
    }

    /// The request that a submission sends: the address as it stands,
    /// unchecked.
    pub fn request(&self) -> (message: Message)
        ensures
            message@ == MessageView::Download(self.url@),
    {
        Message::Download(self.url.clone())
    }

    /// Concludes a submission whose sending ended in `outcome`: a request
    /// that left clears the status; one that came back leaves the form as it
    /// was and is handed on.
    pub fn after_send(&mut self, outcome: Result<(), Message>) -> (r: Result<(), Message>)
        ensures
            final(self).keeps_address_and_channels(old(self)),
            r == outcome,
            outcome is Ok ==> final(self).status_message@ == Seq::<char>::empty(),
            outcome is Err ==> final(self).status_message == old(self).status_message,
    {
        if outcome.is_ok() {
            self.status_message = String::new();
        }
        outcome
    }

    /// Submits the address: sends it to the job as a `Download` request and
    /// then clears the status.  The address is not checked and stays in the
    /// form.
    ///
    /// Where the job's end of the channel is gone the request comes back as
    /// the error and the status stays.
    pub fn submit(&mut self) -> (r: Result<(), Message>)
        ensures
            final(self).keeps_address_and_channels(old(self)),
            r is Ok ==> final(self).status_message@ == Seq::<char>::empty(),
            r matches Err(unsent) ==> unsent@ == MessageView::Download(old(self).url@)
                && final(self).status_message == old(self).status_message,
    {
        let request = self.request();
        let outcome = send(&self.sender, request);
        self.after_send(outcome)
    }

    /// Takes what a poll of the inbound channel found: a message replaces
    /// the status by its text, and no message leaves the status as it was.
    pub fn receive(&mut self, polled: Option<Message>)
        ensures
            final(self).keeps_address_and_channels(old(self)),
            final(self).status_message@ == status_after(
                old(self).status_message@,
                found_view(polled),
            ),
    {
        match polled {
            Some(message) => {
                self.status_message = message.into();
            },
            None => {},
        }
    }

    /// Shows that a request could not be sent because the job is gone: the
    /// status becomes the text of a failure with a fixed detail.
    pub fn show_unsent(&mut self)
        ensures
            final(self).keeps_address_and_channels(old(self)),
            final(self).status_message@ == MessageView::Failure(unsent_detail()).text(),
    {
        self.receive(Some(Message::Failure(String::from_str("The download job is not running"))));
    }

    /// Polls the inbound channel once, without blocking, and hands what the
    /// poll found to `receive`, which says what the status then is: the text
    /// of the message found, or the status as it was.
    ///
    /// What the poll finds is not known here, so nothing is stated of the
    /// status.
    pub fn update_status(&mut self)
        ensures
            final(self).keeps_address_and_channels(old(self)),
    {
        let polled = try_receive(&self.receiver);
        self.receive(polled);
    }
}

/// A poll that finds no message leaves the status unchanged, however often
/// it is repeated.
pub proof fn empty_poll_keeps_status(status: Seq<char>)
    ensures
        status_after(status, None) == status,
        status_after(status_after(status, None), None) == status,
{
}

/// Where several messages are polled one after another, the status shows
/// the last of them.
pub proof fn last_message_wins(status: Seq<char>, first: Option<MessageView>, last: MessageView)
    ensures
        status_after(status_after(status, first), Some(last)) == last.text(),
{
}

} // verus!
