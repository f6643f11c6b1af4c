//! The resolved source: a file name and the text to display.

use crate::language::{LanguageHint, LanguageResolver};
use crate::text::text_of;
use vstd::prelude::*;

verus! {

/// Mathematical model of a [`ResolvedSource`].
pub struct ResolvedSourceView {
    pub filename: Seq<char>,
    pub content: Seq<char>,
}

/// The code to display together with the name of the file it came from.
///
/// The file name is never empty; the content may be.
#[derive(Debug, PartialEq, Eq)]
pub struct ResolvedSource {
    filename: String,
    content: String,
}

impl View for ResolvedSource {
    type V = ResolvedSourceView;

    closed spec fn view(&self) -> ResolvedSourceView {
        ResolvedSourceView { filename: self.filename@, content: self.content@ }
    }
}

impl Clone for ResolvedSource {
    fn clone(&self) -> (copy: ResolvedSource)
        ensures
            copy@ == self@,
    {
        proof {
            use_type_invariant(self);
        }
        ResolvedSource { filename: self.filename.clone(), content: self.content.clone() }
    }
}

/// Model of the outcome of a resolution, or of a part of one.
pub open spec fn resolved_view<E: View>(resolved: Result<ResolvedSource, E>) -> Result<
    ResolvedSourceView,
    E::V,
> {
    match resolved {
        Ok(source) => Ok(source@),
        Err(error) => Err(error@),
    }
}

/// The file name given to code that was passed inline and has none.
pub const SENTINEL_FILENAME: &'static str = "noname.txt";

impl ResolvedSource {
    #[verifier::type_invariant]
    spec fn named(self) -> bool {
        self.filename@.len() > 0
    }

    /// Pairs `content` with `filename`, unless the name is empty.
    pub fn new(filename: String, content: String) -> (source: Option<ResolvedSource>)
        ensures
            filename@.len() == 0 ==> source is None,
            filename@.len() > 0 ==> source is Some && source->0@ == (ResolvedSourceView {
                filename: filename@,
                content: content@,
            }),
    {
        if filename.as_str().is_empty() {
            None
        } else {
            Some(ResolvedSource { filename, content })
        }
    }

    /// Wraps inline code under the sentinel file name.
    pub fn from_sourcecode(sourcecode: String) -> (source: ResolvedSource)
        ensures
            source@ == (ResolvedSourceView { filename: SENTINEL_FILENAME@, content: sourcecode@ }),
    {
        proof {
            reveal_strlit("noname.txt");
        }
        ResolvedSource { filename: SENTINEL_FILENAME.to_string(), content: sourcecode }
    }

    /// The name of the file the code came from.
    pub fn filename(&self) -> (name: &str)
        ensures
            name@ == self@.filename,
            name@.len() > 0,
    {
        proof {
            use_type_invariant(self);
        }
        self.filename.as_str()
    }

    /// The language to highlight the code in: the override where there is
    /// one, and else what the file name gives away.
    pub fn language(&self, language_override: Option<String>) -> (language: LanguageHint)
        ensures
            text_of(language) == LanguageResolver::hint(self@.filename, text_of(language_override)),
    {
        LanguageResolver::resolve(self.filename.as_str(), language_override)
    }

    /// The code itself.
    pub fn content(&self) -> (text: &str)
        ensures
            text@ == self@.content,
    {
        self.content.as_str()
    }
}

} // verus!
