//! The one taxonomy every failure of an acquisition ends in.
//!
//! Each error carries what a one-line diagnostic needs, and
//! [`AcquisitionError::message`] is that line. No error is retried: each is
//! terminal for the run.

use crate::extract::{ExtractError, ExtractErrorView};
use crate::fetch::TransportError;
use vstd::prelude::*;

verus! {

/// What went wrong with a remote snippet: the transport failed, or its
/// response could not be used.
#[derive(Debug, PartialEq, Eq)]
pub enum RemoteDetail {
    /// The network or the service failed; no usable body came back.
    Transport(TransportError),
    /// A body came back, but the fields could not be extracted from it.
    Extract(ExtractError),
}

/// Mathematical model of a [`RemoteDetail`].
pub enum RemoteDetailView {
    Transport(Seq<char>),
    Extract(ExtractErrorView),
}

impl View for RemoteDetail {
    type V = RemoteDetailView;

    open spec fn view(&self) -> RemoteDetailView {
        match self {
            RemoteDetail::Transport(error) => RemoteDetailView::Transport(error@),
            RemoteDetail::Extract(error) => RemoteDetailView::Extract(error@),
        }
    }
}

impl Clone for RemoteDetail {
    fn clone(&self) -> (copy: RemoteDetail)
        ensures
            copy@ == self@,
    {
        match self {
            RemoteDetail::Transport(error) => RemoteDetail::Transport(error.clone()),
            RemoteDetail::Extract(error) => RemoteDetail::Extract(error.clone()),
        }
    }
}

/// Why there is no source to display.
#[derive(Debug, PartialEq, Eq)]
pub enum AcquisitionError {
    /// The file system could not supply the bytes of the file at this path.
    FileFailure(String),
    /// The remote snippet with this id could not be fetched or read.
    RemoteFailure(String, RemoteDetail),
    /// The font at this path could not be loaded.
    FontFailure(String),
}

/// Mathematical model of an [`AcquisitionError`].
pub enum AcquisitionErrorView {
    FileFailure(Seq<char>),
    RemoteFailure(Seq<char>, RemoteDetailView),
    FontFailure(Seq<char>),
}

impl View for AcquisitionError {
    type V = AcquisitionErrorView;

    open spec fn view(&self) -> AcquisitionErrorView {
        match self {
            AcquisitionError::FileFailure(path) => AcquisitionErrorView::FileFailure(path@),
            AcquisitionError::RemoteFailure(id, detail) => AcquisitionErrorView::RemoteFailure(
                id@,
                detail@,
            ),
            AcquisitionError::FontFailure(font) => AcquisitionErrorView::FontFailure(font@),
        }
    }
}

/// A text as `std` writes it for debugging: in double quotes, with what
/// needs it escaped.
pub uninterp spec fn debug_quoted(text: Seq<char>) -> Seq<char>;

/// Formats a string with `{:?}`, that is with the `Debug` impl of `str`.
///
/// The contract only gives the outcome its name, [`debug_quoted`].
#[verifier::external_body]
fn debug_quote(text: &str) -> (quoted: String)
    ensures
        quoted@ == debug_quoted(text@),
{
    format!("{:?}", text)
}

impl AcquisitionErrorView {
    /// The diagnostic line of an error.
    pub open spec fn message(self) -> Seq<char> {
        match self {
            AcquisitionErrorView::FileFailure(path) => "Couldn't load file: "@ + path,
            AcquisitionErrorView::RemoteFailure(id, RemoteDetailView::Transport(_)) =>
                "Couldn't load Gist with ID: "@ + id,
            AcquisitionErrorView::RemoteFailure(_, RemoteDetailView::Extract(error)) =>
                "Couldn't parse JSON: "@ + error.text(),
            AcquisitionErrorView::FontFailure(font) => "Couldn't load font: "@ + debug_quoted(font),
        }
    }
}

/// What the display engine reports when it fails to load something, as far
/// as the taxonomy reads it: the kind of the failure and the path it is
/// about.
#[derive(Debug, PartialEq, Eq)]
pub enum EngineFault {
    /// A font could not be loaded; its path.
    Font(String),
    /// A file could not be read; its path.
    File(String),
    /// Anything else: a failure of the engine that no acquisition causes.
    Other,
}

/// Mathematical model of an [`EngineFault`].
pub enum EngineFaultView {
    Font(Seq<char>),
    File(Seq<char>),
    Other,
}

impl View for EngineFault {
    type V = EngineFaultView;

    open spec fn view(&self) -> EngineFaultView {
        match self {
            EngineFault::Font(font) => EngineFaultView::Font(font@),
            EngineFault::File(path) => EngineFaultView::File(path@),
            EngineFault::Other => EngineFaultView::Other,
        }
    }
}

impl EngineFaultView {
    /// The acquisition error an engine fault stands for, where it stands for
    /// one.
    pub open spec fn classified(self) -> Option<AcquisitionErrorView> {
        match self {
            EngineFaultView::Font(font) => Some(AcquisitionErrorView::FontFailure(font)),
            EngineFaultView::File(path) => Some(AcquisitionErrorView::FileFailure(path)),
            EngineFaultView::Other => None,
        }
    }
}

/// Model of an optional error.
pub open spec fn error_view(error: Option<AcquisitionError>) -> Option<AcquisitionErrorView> {
    match error {
        Some(error) => Some(error@),
        None => None,
    }
}

impl AcquisitionError {
    /// Files an engine fault under the taxonomy: a font fault is a font
    /// failure, a file fault is a file failure, and the rest is none of the
    /// library's errors.
    pub fn from_engine_fault(fault: EngineFault) -> (error: Option<AcquisitionError>)
        ensures
            error_view(error) == fault@.classified(),
    {
        match fault {
            EngineFault::Font(font) => Some(AcquisitionError::FontFailure(font)),
            EngineFault::File(path) => Some(AcquisitionError::FileFailure(path)),
            EngineFault::Other => None,
        }
    }

    /// The line to show the user in place of the code.
    pub fn message(&self) -> (line: String)
        ensures
            line@ == self@.message(),
    {
        match self {
            AcquisitionError::FileFailure(path) => "Couldn't load file: ".to_string().concat(
                path.as_str(),
            ),
            AcquisitionError::RemoteFailure(id, RemoteDetail::Transport(_)) =>
                "Couldn't load Gist with ID: ".to_string().concat(id.as_str()),
            AcquisitionError::RemoteFailure(_, RemoteDetail::Extract(error)) => {
                let words = error.describe();
                "Couldn't parse JSON: ".to_string().concat(words.as_str())
            },
            AcquisitionError::FontFailure(font) => {
                let quoted = debug_quote(font.as_str());
                "Couldn't load font: ".to_string().concat(quoted.as_str())
            },
        }
    }
}

impl Clone for AcquisitionError {
    fn clone(&self) -> (copy: AcquisitionError)
        ensures
            copy@ == self@,
    {
        match self {
            AcquisitionError::FileFailure(path) => AcquisitionError::FileFailure(path.clone()),
            AcquisitionError::RemoteFailure(id, detail) => AcquisitionError::RemoteFailure(
                id.clone(),
                detail.clone(),
            ),
            AcquisitionError::FontFailure(font) => AcquisitionError::FontFailure(font.clone()),
        }
    }
}

} // verus!
