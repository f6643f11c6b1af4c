//! Naming the language of a file for syntax highlighting.
//!
//! An explicit override always wins. Without one the language is inferred
//! from the extension of the file name alone, by an exact lookup in the table
//! of `detect_lang`; the content is never looked at.

use crate::text::text_of;
use vstd::prelude::*;

verus! {

/// The position of the last `mark` in `text`, if there is one.
pub open spec fn last_index_of(text: Seq<char>, mark: char) -> Option<int>
    decreases text.len(),
{
    if text.len() == 0 {
        None
    } else if text.last() == mark {
        Some(text.len() - 1)
    } else {
        last_index_of(text.drop_last(), mark)
    }
}

/// The last component of a path: what follows its last `/`, or all of it.
pub open spec fn file_name_of(path: Seq<char>) -> Seq<char> {
    match last_index_of(path, '/') {
        Some(slash) => path.skip(slash + 1),
        None => path,
    }
}

/// The extension of a path: what follows the last `.` of its last component.
/// A component without a `.`, or with none but a leading one, has no
/// extension.
pub open spec fn extension_of(path: Seq<char>) -> Option<Seq<char>> {
    let name = file_name_of(path);
    match last_index_of(name, '.') {
        Some(dot) => if dot > 0 {
            Some(name.skip(dot + 1))
        } else {
            None
        },
        None => None,
    }
}

/// What [`last_index_of`] finds is a position of the mark with no mark behind
/// it, and it finds nothing only where there is no mark.
pub proof fn lemma_last_index_of(text: Seq<char>, mark: char)
    ensures
        match last_index_of(text, mark) {
            Some(at) => 0 <= at < text.len() && text[at] == mark && forall|j: int|
                at < j < text.len() ==> text[j] != mark,
            None => forall|j: int| 0 <= j < text.len() ==> text[j] != mark,
        },
    decreases text.len(),
{
    if text.len() > 0 && text.last() != mark {
        let front = text.drop_last();
        lemma_last_index_of(front, mark);
        // the front agrees with the text wherever it reaches
        assert forall|j: int| 0 <= j < front.len() implies front[j] == text[j] by {}
    }
}

/// Finds the last `mark` in `text`.
pub fn last_index(text: &str, mark: char) -> (found: Option<usize>)
    ensures
        match found {
            Some(at) => last_index_of(text@, mark) == Some(at as int),
            None => last_index_of(text@, mark) is None,
        },
{
    let length = text.unicode_len();
    let mut found: Option<usize> = None;
    let mut at: usize = 0;
    while at < length
        invariant
            at <= length,
            length == text@.len(),
            match found {
                Some(seen) => last_index_of(text@.take(at as int), mark) == Some(seen as int),
                None => last_index_of(text@.take(at as int), mark) is None,
            },
        decreases length - at,
    {
        proof {
            // the prefix that ends at this character, less the character
            assert(text@.take(at + 1).drop_last() == text@.take(at as int));
        }
        if text.get_char(at) == mark {
            found = Some(at);
        }
        at = at + 1;
    }
    proof {
        // the prefix of full length is the text
        assert(text@.take(at as int) == text@);
    }
    found
}

/// The extension of `path`, by the rules of [`extension_of`].
pub fn extension(path: &str) -> (found: Option<String>)
    ensures
        match found {
            Some(ext) => extension_of(path@) == Some(ext@),
            None => extension_of(path@) is None,
        },
{
    let length = path.unicode_len();
    proof {
        lemma_last_index_of(path@, '/');
    }
    let name = match last_index(path, '/') {
        Some(slash) => path.substring_char(slash + 1, length),
        None => path,
    };
    proof {
        lemma_last_index_of(name@, '.');
    }
    match last_index(name, '.') {
        Some(dot) => {
            if dot > 0 {
                Some(name.substring_char(dot + 1, name.unicode_len()).to_string())
            } else {
                None
            }
        },
        None => None,
    }
}

/// The identifier `detect_lang` has for an extension, if it has one.
pub uninterp spec fn language_of_extension(extension: Seq<char>) -> Option<Seq<char>>;

/// Calls `detect_lang::from_lowercase_extension`, which looks the extension
/// up as it is written, and takes the `id` of the language found.
///
/// The contract only gives the outcome its name, [`language_of_extension`].
#[verifier::external_body]
fn lookup_extension(extension: &str) -> (id: Option<String>)
    ensures
        match id {
            Some(found) => language_of_extension(extension@) == Some(found@),
            None => language_of_extension(extension@) is None,
        },
{
    detect_lang::from_lowercase_extension(extension).map(|language| language.id().to_string())
}

/// The identifier of the language to highlight code in. `None` means that
/// the language is not known, and leaves the choice of a fallback to the
/// display engine.
pub type LanguageHint = Option<String>;

/// Maps a file name, or an explicit override, to a language identifier.
pub struct LanguageResolver;

impl LanguageResolver {
    /// The language inferred from a file name alone: the table's entry for
    /// its extension.
    pub open spec fn inferred(filename: Seq<char>) -> Option<Seq<char>> {
        match extension_of(filename) {
            Some(extension) => language_of_extension(extension),
            None => None,
        }
    }

    /// The language hint for a file: the override where there is one, taken
    /// as it is, and else what the file name gives away.
    pub open spec fn hint(filename: Seq<char>, explicit_override: Option<Seq<char>>) -> Option<
        Seq<char>,
    > {
        match explicit_override {
            Some(language) => Some(language),
            None => Self::inferred(filename),
        }
    }

    /// Names the language to highlight `filename` in.
    pub fn resolve(filename: &str, explicit_override: Option<String>) -> (language: LanguageHint)
        ensures
            text_of(language) == Self::hint(filename@, text_of(explicit_override)),
    {
        match explicit_override {
            Some(language) => Some(language),
            None => match extension(filename) {
                Some(found) => lookup_extension(found.as_str()),
                None => None,
            },
        }
    }
}

} // verus!
