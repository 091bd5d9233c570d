//! Where a downloaded video is written.

use std::path::PathBuf;
use vstd::prelude::*;
use vstd::string::*;

verus! {

/// `std::path::PathBuf`, carried through as an opaque value.
#[verifier::external_type_specification]
#[verifier::external_body]
pub struct ExPathBuf(PathBuf);

/// The name of the file for a video: its title, as it is, followed by `.mp4`.
///
/// The title is not escaped.  A title that holds a path separator therefore
/// names a file below or outside the directory once the two are joined.
pub open spec fn file_name_of(title: Seq<char>) -> Seq<char> {
    title + ".mp4"@
}

/// Computes `file_name_of`.
pub fn file_name(title: &str) -> (name: String)
    ensures
        name@ == file_name_of(title@),
{
    String::from_str(title).concat(".mp4")
}

/// The stream chosen for a download and the name of its file, while the
/// directory is not known yet.
#[derive(Clone, Debug, PartialEq, Eq)]
pub struct Selection {
    pub stream: usize,
    pub file_name: String,
}

/// A selection with its file name as a sequence of characters.
pub struct SelectionView {
    pub stream: int,
    pub file_name: Seq<char>,
}

impl View for Selection {
    type V = SelectionView;

    open spec fn view(&self) -> SelectionView {
        SelectionView { stream: self.stream as int, file_name: self.file_name@ }
    }
}

/// What to download and where to: the position of the stream among the
/// candidates, the directory, and the file's name in it.
#[derive(Debug, PartialEq, Eq)]
pub struct DownloadPlan {
    pub stream: usize,
    pub directory: PathBuf,
    pub file_name: String,
}

/// A download plan with its file name as a sequence of characters.
pub struct DownloadPlanView {
    pub stream: int,
    pub directory: PathBuf,
    pub file_name: Seq<char>,
}

impl View for DownloadPlan {
    type V = DownloadPlanView;

    open spec fn view(&self) -> DownloadPlanView {
        DownloadPlanView {
            stream: self.stream as int,
            directory: self.directory,
            file_name: self.file_name@,
        }
    }
}

} // verus!
