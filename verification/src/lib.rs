//! The decisions of a small desktop video downloader.
//!
//! A form sends one download request to a background job; the job parses the
//! address, asks for the video's streams, picks one, resolves where the file
//! goes, and answers with one terminal message that the form shows.  The
//! network, the disk and the window belong to the program around this
//! library; what is decided in between is stated and proved here.

pub mod address;
pub mod destination;
pub mod error;
pub mod form;
pub mod job;
pub mod message;
pub mod quality;
pub mod stream;
