//! The background job as a state machine.
//!
//! The job waits for one request, fetches the video's metadata, chooses one
//! stream, asks for the desktop directory, downloads the stream there and
//! reports one terminal message.  Fetching, looking for the directory and
//! downloading are done by the program around the library: `step` takes what
//! happened and says what to do next.

use crate::address::{outcome_view, parse_url, url_parse_outcome};
use crate::destination::{
    file_name, file_name_of, DownloadPlan, DownloadPlanView, Selection, SelectionView,
};
use crate::error::{JobError, JobErrorView};
use crate::message::{Message, MessageView};
use crate::stream::{
    best_stream, best_stream_is_best, has_eligible, select_stream, sole_eligible_is_selected,
    StreamCandidate,
};
use std::path::PathBuf;
use vstd::prelude::*;

verus! {

/// What the job reads of a video's metadata: its title and its streams.
#[derive(Clone, Debug, PartialEq, Eq)]
pub struct VideoInfo {
    pub title: String,
    pub streams: Vec<StreamCandidate>,
}

/// Video metadata with the title and the streams as sequences.
pub struct VideoInfoView {
    pub title: Seq<char>,
    pub streams: Seq<StreamCandidate>,
}

impl View for VideoInfo {
    type V = VideoInfoView;

    open spec fn view(&self) -> VideoInfoView {
        VideoInfoView { title: self.title@, streams: self.streams@ }
    }
}

/// Where the job stands.
#[derive(Clone, Debug, PartialEq, Eq)]
pub enum JobState {
    /// No request has arrived yet.
    Waiting,
    /// The metadata has been asked for.
    Fetching,
    /// A stream has been chosen and the desktop directory has been asked for.
    Locating(Selection),
    /// The download has been started.
    Downloading,
    /// The job is over.
    Finished,
}

/// A state with its texts as sequences of characters.
pub enum JobStateView {
    Waiting,
    Fetching,
    Locating(SelectionView),
    Downloading,
    Finished,
}

impl View for JobState {
    type V = JobStateView;

    open spec fn view(&self) -> JobStateView {
        match self {
            JobState::Waiting => JobStateView::Waiting,
            JobState::Fetching => JobStateView::Fetching,
            JobState::Locating(selection) => JobStateView::Locating(selection@),
            JobState::Downloading => JobStateView::Downloading,
            JobState::Finished => JobStateView::Finished,
        }
    }
}

/// What happened outside the job.
#[derive(Debug, PartialEq, Eq)]
pub enum JobEvent {
    /// A message arrived on the inbound channel.
    Received(Message),
    /// The metadata arrived, or fetching it failed for the reason given.
    MetadataFetched(Result<VideoInfo, String>),
    /// The desktop directory was looked for, and found or not.
    DesktopFound(Option<PathBuf>),
    /// The download ended, well or for the reason given.
    DownloadFinished(Result<(), String>),
}

/// An event with its texts and lists as sequences.
pub enum JobEventView {
    Received(MessageView),
    MetadataFetched(Result<VideoInfoView, Seq<char>>),
    DesktopFound(Option<PathBuf>),
    DownloadFinished(Result<(), Seq<char>>),
}

/// The outcome of a metadata fetch with its texts and lists as sequences.
pub open spec fn fetched_view(outcome: Result<VideoInfo, String>) -> Result<
    VideoInfoView,
    Seq<char>,
> {
    match outcome {
        Ok(info) => Ok(info@),
        Err(reason) => Err(reason@),
    }
}

/// The outcome of a download with its text as a sequence of characters.
pub open spec fn finished_view(outcome: Result<(), String>) -> Result<(), Seq<char>> {
    match outcome {
        Ok(()) => Ok(()),
        Err(reason) => Err(reason@),
    }
}

impl View for JobEvent {
    type V = JobEventView;

    open spec fn view(&self) -> JobEventView {
        match self {
            JobEvent::Received(message) => JobEventView::Received(message@),
            JobEvent::MetadataFetched(outcome) => JobEventView::MetadataFetched(
                fetched_view(*outcome),
            ),
            JobEvent::DesktopFound(desktop) => JobEventView::DesktopFound(*desktop),
            JobEvent::DownloadFinished(outcome) => JobEventView::DownloadFinished(
                finished_view(*outcome),
            ),
        }
    }
}

/// What the program around the job is to do next.
#[derive(Debug, PartialEq, Eq)]
pub enum JobAction {
    /// Fetch the metadata of the video at this URL.
    FetchMetadata(String),
    /// Look for the user's desktop directory.
    FindDesktop,
    /// Download the planned stream to the planned file.
    Download(DownloadPlan),
    /// Send this terminal message to the form; the job is over.
    Report(Message),
    /// Do nothing.
    Nothing,
}

/// An action with its texts as sequences of characters.
pub enum JobActionView {
    FetchMetadata(Seq<char>),
    FindDesktop,
    Download(DownloadPlanView),
    Report(MessageView),
    Nothing,
}

impl View for JobAction {
    type V = JobActionView;

    open spec fn view(&self) -> JobActionView {
        match self {
            JobAction::FetchMetadata(address) => JobActionView::FetchMetadata(address@),
            JobAction::FindDesktop => JobActionView::FindDesktop,
            JobAction::Download(plan) => JobActionView::Download(plan@),
            JobAction::Report(message) => JobActionView::Report(message@),
            JobAction::Nothing => JobActionView::Nothing,
        }
    }
}

/// The end of a job that failed: the failure is reported and the job is over.
pub open spec fn failed(error: JobErrorView) -> (JobStateView, JobActionView) {
    (JobStateView::Finished, JobActionView::Report(error.message()))
}

/// What follows the parsing of a requested address: the metadata of a
/// well-formed URL is fetched, and a malformed one ends the job.
pub open spec fn after_parse(parsed: Result<Seq<char>, Seq<char>>) -> (
    JobStateView,
    JobActionView,
) {
    match parsed {
        Ok(address) => (JobStateView::Fetching, JobActionView::FetchMetadata(address)),
        Err(reason) => failed(JobErrorView::InvalidUrl(reason)),
    }
}

/// The stream to download of a video and the name of its file, or the error
/// where no stream is eligible.
pub open spec fn chosen(info: VideoInfoView) -> Result<SelectionView, JobErrorView> {
    match best_stream(info.streams) {
        Some(stream) => Ok(SelectionView { stream, file_name: file_name_of(info.title) }),
        None => Err(JobErrorView::NoAcceptableStream),
    }
}

/// What follows the fetching of the metadata: with a stream chosen the
/// desktop directory is asked for, and without one the job ends.
pub open spec fn after_metadata(outcome: Result<VideoInfoView, Seq<char>>) -> (
    JobStateView,
    JobActionView,
) {
    match outcome {
        Err(reason) => failed(JobErrorView::MetadataFetchError(reason)),
        Ok(info) => match chosen(info) {
            Ok(selection) => (JobStateView::Locating(selection), JobActionView::FindDesktop),
            Err(error) => failed(error),
        },
    }
}

/// The download of a chosen stream to the desktop directory, or the error
/// where the directory is not known.
pub open spec fn planned(selection: SelectionView, desktop: Option<PathBuf>) -> Result<
    DownloadPlanView,
    JobErrorView,
> {
    match desktop {
        Some(directory) => Ok(
            DownloadPlanView {
                stream: selection.stream,
                directory,
                file_name: selection.file_name,
            },
        ),
        None => Err(JobErrorView::DestinationUnresolvable),
    }
}

/// What follows the search for the desktop directory.
pub open spec fn after_desktop(selection: SelectionView, desktop: Option<PathBuf>) -> (
    JobStateView,
    JobActionView,
) {
    match planned(selection, desktop) {
        Ok(plan) => (JobStateView::Downloading, JobActionView::Download(plan)),
        Err(error) => failed(error),
    }
}

/// What follows the end of the download.
pub open spec fn after_download(outcome: Result<(), Seq<char>>) -> (JobStateView, JobActionView) {
    match outcome {
        Ok(()) => (JobStateView::Finished, JobActionView::Report(MessageView::Success)),
        Err(reason) => failed(JobErrorView::DownloadError(reason)),
    }
}

/// The job's transition: the next state and the action for a state and an
/// event.
///
/// A waiting job takes a `Download` request and parses its address; any other
/// message ends it without a report.  An event that the state does not wait
/// for changes nothing.
pub open spec fn next(state: JobStateView, event: JobEventView) -> (JobStateView, JobActionView) {
    match (state, event) {
        (JobStateView::Waiting, JobEventView::Received(MessageView::Download(address))) => {
            after_parse(url_parse_outcome(address))
        },
        (JobStateView::Waiting, JobEventView::Received(_)) => (
            JobStateView::Finished,
            JobActionView::Nothing,
        ),
        (JobStateView::Fetching, JobEventView::MetadataFetched(outcome)) => after_metadata(
            outcome,
        ),
        (JobStateView::Locating(selection), JobEventView::DesktopFound(desktop)) => after_desktop(
            selection,
            desktop,
        ),
        (JobStateView::Downloading, JobEventView::DownloadFinished(outcome)) => after_download(
            outcome,
        ),
        _ => (state, JobActionView::Nothing),
    }
}

/// Ends the job with the report of `error`.
pub fn fail(error: JobError) -> (r: (JobState, JobAction))
    ensures
        (r.0@, r.1@) == failed(error@),
{
    (JobState::Finished, JobAction::Report(error.into_message()))
}

/// Decides what follows the parsing of a requested address.
pub fn on_parsed(parsed: Result<String, String>) -> (r: (JobState, JobAction))
    ensures
        (r.0@, r.1@) == after_parse(outcome_view(parsed)),
{
    match parsed {
        Ok(address) => (JobState::Fetching, JobAction::FetchMetadata(address)),
        Err(reason) => fail(JobError::InvalidUrl(reason)),
    }
}

/// Parses a requested address and decides what follows.
///
/// An empty address is never fetched: it ends the job as an invalid URL.
pub fn begin(address: &str) -> (r: (JobState, JobAction))
    ensures
        (r.0@, r.1@) == after_parse(url_parse_outcome(address@)),
        address@.len() == 0 ==> exists|reason: Seq<char>|
            (r.0@, r.1@) == #[trigger] failed(JobErrorView::InvalidUrl(reason)),
{
    let parsed = parse_url(address);
    proof {
        if address@.len() == 0 {
            let reason = parsed->Err_0@;
            assert(after_parse(outcome_view(parsed)) == failed(JobErrorView::InvalidUrl(reason)));
        }
    }
    on_parsed(parsed)
}

/// Chooses the stream to download of a video and names its file.
pub fn choose_stream(info: &VideoInfo) -> (r: Result<Selection, JobError>)
    ensures
        match r {
            Ok(selection) => chosen(info@) == Ok::<SelectionView, JobErrorView>(selection@),
            Err(error) => chosen(info@) == Err::<SelectionView, JobErrorView>(error@),
        },
        r matches Ok(selection) ==> selection.stream < info.streams.len(),
{
    match select_stream(&info.streams) {
        Some(stream) => Ok(Selection { stream, file_name: file_name(info.title.as_str()) }),
        None => Err(JobError::NoAcceptableStream),
    }
}

/// Decides what follows the fetching of the metadata.
pub fn on_metadata(outcome: Result<VideoInfo, String>) -> (r: (JobState, JobAction))
    ensures
        (r.0@, r.1@) == after_metadata(fetched_view(outcome)),
        r.0 matches JobState::Locating(selection) ==> outcome matches Ok(info) && selection.stream
            < info.streams.len(),
{
    match outcome {
        Err(reason) => fail(JobError::MetadataFetchError(reason)),
        Ok(info) => match choose_stream(&info) {
            Ok(selection) => (JobState::Locating(selection), JobAction::FindDesktop),
            Err(error) => fail(error),
        },
    }
}

/// Plans the download of a chosen stream to the desktop directory.
pub fn plan_download(selection: Selection, desktop: Option<PathBuf>) -> (r: Result<
    DownloadPlan,
    JobError,
>)
    ensures
        match r {
            Ok(plan) => planned(selection@, desktop) == Ok::<DownloadPlanView, JobErrorView>(
                plan@,
            ),
            Err(error) => planned(selection@, desktop) == Err::<DownloadPlanView, JobErrorView>(
                error@,
            ),
        },
{
    match desktop {
        Some(directory) => Ok(
            DownloadPlan { stream: selection.stream, directory, file_name: selection.file_name },
        ),
        None => Err(JobError::DestinationUnresolvable),
    }
}

/// Decides what follows the search for the desktop directory.
pub fn on_desktop(selection: Selection, desktop: Option<PathBuf>) -> (r: (JobState, JobAction))
    ensures
        (r.0@, r.1@) == after_desktop(selection@, desktop),
{
    match plan_download(selection, desktop) {
        Ok(plan) => (JobState::Downloading, JobAction::Download(plan)),
        Err(error) => fail(error),
    }
}

/// Decides what follows the end of the download.
pub fn on_download(outcome: Result<(), String>) -> (r: (JobState, JobAction))
    ensures
        (r.0@, r.1@) == after_download(finished_view(outcome)),
{
    match outcome {
        Ok(()) => (JobState::Finished, JobAction::Report(Message::Success)),
        Err(reason) => fail(JobError::DownloadError(reason)),
    }
}

/// Advances the job by one event: the result is the transition `next`.
///
/// An empty address is never fetched: it ends the job as an invalid URL.
pub fn step(state: JobState, event: JobEvent) -> (r: (JobState, JobAction))
    ensures
        (r.0@, r.1@) == next(state@, event@),
        state@ is Waiting && event@ == JobEventView::Received(
            MessageView::Download(Seq::<char>::empty()),
        ) ==> exists|reason: Seq<char>|
            (r.0@, r.1@) == #[trigger] failed(JobErrorView::InvalidUrl(reason)),
{
    match (state, event) {
        (JobState::Waiting, JobEvent::Received(Message::Download(address))) => {
            proof {
                if address@.len() == 0 {
                    assert(address@ =~= Seq::<char>::empty());
                }
            }
            begin(address.as_str())
        },
        (JobState::Waiting, JobEvent::Received(_)) => (JobState::Finished, JobAction::Nothing),
        (JobState::Fetching, JobEvent::MetadataFetched(outcome)) => on_metadata(outcome),
        (JobState::Locating(selection), JobEvent::DesktopFound(desktop)) => on_desktop(
            selection,
            desktop,
        ),
        (JobState::Downloading, JobEvent::DownloadFinished(outcome)) => on_download(outcome),
        (state, _) => (state, JobAction::Nothing),
    }
}

/// A malformed address ends the job with the report of an invalid URL that
/// carries the parser's description.  Nothing is fetched or downloaded.
pub proof fn malformed_address_fails(address: Seq<char>)
    requires
        url_parse_outcome(address) is Err,
    ensures
        next(JobStateView::Waiting, JobEventView::Received(MessageView::Download(address)))
            == failed(JobErrorView::InvalidUrl(url_parse_outcome(address)->Err_0)),
{
}

/// A failed metadata fetch ends the job with the report of that failure.
/// Nothing is downloaded.
pub proof fn fetch_failure_fails(reason: Seq<char>)
    ensures
        next(JobStateView::Fetching, JobEventView::MetadataFetched(Err(reason))) == failed(
            JobErrorView::MetadataFetchError(reason),
        ),
{
}

/// Metadata without an eligible stream ends the job with the report that no
/// stream is acceptable; the desktop directory is not asked for.
pub proof fn no_eligible_stream_fails(info: VideoInfoView)
    requires
        !has_eligible(info.streams),
    ensures
        next(JobStateView::Fetching, JobEventView::MetadataFetched(Ok(info))) == failed(
            JobErrorView::NoAcceptableStream,
        ),
{
    best_stream_is_best(info.streams);
}

/// Without a desktop directory the job ends with the report that the
/// destination cannot be resolved.  Nothing is downloaded.
pub proof fn missing_desktop_fails(selection: SelectionView)
    ensures
        next(JobStateView::Locating(selection), JobEventView::DesktopFound(None)) == failed(
            JobErrorView::DestinationUnresolvable,
        ),
{
}

/// A report ends the job and carries a terminal message; a finished job
/// takes no further action.  So a job reports at most once.
pub proof fn job_reports_once(state: JobStateView, event: JobEventView)
    ensures
        next(state, event).1 matches JobActionView::Report(message) ==> message.is_terminal()
            && next(state, event).0 == JobStateView::Finished,
        state == JobStateView::Finished ==> next(state, event) == (
            JobStateView::Finished,
            JobActionView::Nothing,
        ),
{
}

/// A job takes one request: once it has left its waiting state, a message
/// that arrives changes nothing.
pub proof fn job_takes_one_request(state: JobStateView, message: MessageView)
    requires
        state != JobStateView::Waiting,
    ensures
        next(state, JobEventView::Received(message)) == (state, JobActionView::Nothing),
        next(JobStateView::Waiting, JobEventView::Received(message)).0 != JobStateView::Waiting,
{
}

/// The desktop directory is asked for only once a stream has been chosen:
/// while the job is fetching, on the metadata of a video that has an eligible
/// stream.  The job then keeps the best stream's position and the file's name.
pub proof fn desktop_is_sought_after_selection(state: JobStateView, event: JobEventView)
    requires
        next(state, event).1 is FindDesktop,
    ensures
        state == JobStateView::Fetching,
        event matches JobEventView::MetadataFetched(Ok(info)) && has_eligible(info.streams) && 0
            <= best_stream(info.streams)->0 < info.streams.len() && next(state, event).0
            == JobStateView::Locating(
            SelectionView {
                stream: best_stream(info.streams)->0,
                file_name: file_name_of(info.title),
            },
        ),
{
    if let JobEventView::MetadataFetched(Ok(info)) = event {
        best_stream_is_best(info.streams);
    }
}

/// A download is started only once the desktop directory has been found for
/// a chosen stream; it is the download of that stream to the file of the
/// chosen name in that directory.
pub proof fn download_needs_destination(state: JobStateView, event: JobEventView)
    requires
        next(state, event).1 is Download,
    ensures
        state matches JobStateView::Locating(selection) && event matches JobEventView::DesktopFound(
            Some(directory),
        ) && next(state, event) == (
            JobStateView::Downloading,
            JobActionView::Download(
                DownloadPlanView {
                    stream: selection.stream,
                    directory,
                    file_name: selection.file_name,
                },
            ),
        ),
{
}

/// A job runs from the request to success: a well-formed address is fetched
/// in its parsed form; metadata whose only stream is eligible has the desktop
/// directory looked for; the directory found starts the download of that
/// stream to the file named by the title in that directory; and a download
/// that ends well is reported as a success, which the form shows as such.
pub proof fn job_runs_to_success(address: Seq<char>, info: VideoInfoView, directory: PathBuf)
    requires
        url_parse_outcome(address) is Ok,
        info.streams.len() == 1,
        info.streams[0].eligible(),
    ensures
        next(JobStateView::Waiting, JobEventView::Received(MessageView::Download(address))) == (
            JobStateView::Fetching,
            JobActionView::FetchMetadata(url_parse_outcome(address)->Ok_0),
        ),
        next(JobStateView::Fetching, JobEventView::MetadataFetched(Ok(info))) == (
            JobStateView::Locating(SelectionView { stream: 0, file_name: info.title + ".mp4"@ }),
            JobActionView::FindDesktop,
        ),
        next(
            JobStateView::Locating(SelectionView { stream: 0, file_name: info.title + ".mp4"@ }),
            JobEventView::DesktopFound(Some(directory)),
        ) == (
            JobStateView::Downloading,
            JobActionView::Download(
                DownloadPlanView { stream: 0, directory, file_name: info.title + ".mp4"@ },
            ),
        ),
        next(JobStateView::Downloading, JobEventView::DownloadFinished(Ok(()))) == (
            JobStateView::Finished,
            JobActionView::Report(MessageView::Success),
        ),
        MessageView::Success.text() == "Success!"@,
{
    sole_eligible_is_selected(info.streams, 0);
}

} // verus!
