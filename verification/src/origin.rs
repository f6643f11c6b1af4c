//! The options a run is given and the one origin they amount to.

use crate::text::text_of;
use vstd::prelude::*;

verus! {

/// The file that is displayed when no origin is given.
pub const DEFAULT_PATH: &'static str = "assets/helloworld.rs";

/// The three ways to say where the code comes from. Any of them may be
/// given, in any combination.
#[derive(Debug, PartialEq, Eq)]
pub struct OriginOptions {
    /// The code itself.
    pub inline: Option<String>,
    /// The id of a remote snippet.
    pub remote_id: Option<String>,
    /// The path of a file.
    pub path: Option<String>,
}

/// Mathematical model of [`OriginOptions`].
pub struct OriginOptionsView {
    pub inline: Option<Seq<char>>,
    pub remote_id: Option<Seq<char>>,
    pub path: Option<Seq<char>>,
}

impl View for OriginOptions {
    type V = OriginOptionsView;

    open spec fn view(&self) -> OriginOptionsView {
        OriginOptionsView {
            inline: text_of(self.inline),
            remote_id: text_of(self.remote_id),
            path: text_of(self.path),
        }
    }
}

/// The one origin a run takes its code from.
#[derive(Debug, PartialEq, Eq)]
pub enum SourceOrigin {
    /// The code was given as it is.
    InlineText(String),
    /// The code is the snippet with this id at the paste service.
    RemoteSnippet(String),
    /// The code is in the file at this path.
    FilePath(String),
}

/// Mathematical model of a [`SourceOrigin`].
pub enum SourceOriginView {
    InlineText(Seq<char>),
    RemoteSnippet(Seq<char>),
    FilePath(Seq<char>),
}

impl View for SourceOrigin {
    type V = SourceOriginView;

    open spec fn view(&self) -> SourceOriginView {
        match self {
            SourceOrigin::InlineText(code) => SourceOriginView::InlineText(code@),
            SourceOrigin::RemoteSnippet(id) => SourceOriginView::RemoteSnippet(id@),
            SourceOrigin::FilePath(path) => SourceOriginView::FilePath(path@),
        }
    }
}

/// The path to load: the one given, or [`DEFAULT_PATH`].
pub open spec fn filename_or_default(path: Option<Seq<char>>) -> Seq<char> {
    match path {
        Some(path) => path,
        None => DEFAULT_PATH@,
    }
}

/// The path of the file to load where the code comes from a file.
pub fn get_filename(filename: Option<String>) -> (path: String)
    ensures
        path@ == filename_or_default(text_of(filename)),
{
    match filename {
        Some(path) => path,
        None => DEFAULT_PATH.to_string(),
    }
}

impl SourceOrigin {
    /// The precedence of the options: inline code before a remote snippet,
    /// a remote snippet before a file, and the default file where nothing is
    /// given. The first option present is the origin; the others are not
    /// looked at.
    pub open spec fn selected(options: OriginOptionsView) -> SourceOriginView {
        if let Some(code) = options.inline {
            SourceOriginView::InlineText(code)
        } else if let Some(id) = options.remote_id {
            SourceOriginView::RemoteSnippet(id)
        } else {
            SourceOriginView::FilePath(filename_or_default(options.path))
        }
    }

    /// Selects the origin of a run from its options.
    pub fn select(options: OriginOptions) -> (origin: SourceOrigin)
        ensures
            origin@ == Self::selected(options@),
    {
        let OriginOptions { inline, remote_id, path } = options;
        if let Some(code) = inline {
            SourceOrigin::InlineText(code)
        } else if let Some(id) = remote_id {
            SourceOrigin::RemoteSnippet(id)
        } else {
            SourceOrigin::FilePath(get_filename(path))
        }
    }
}

} // verus!
