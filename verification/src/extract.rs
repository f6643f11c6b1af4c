//! Pulling the file name and the content out of a remote JSON document.
//!
//! The document is untrusted. It is parsed and queried by `jsonpath_rust`;
//! what the library adds is the policy on what was found: the first two
//! values are the file name and the content, and both have to be strings.

use vstd::prelude::*;

verus! {

/// The path expression the extractor evaluates: every record under `files`,
/// and of each record its `filename` and its `content`, in that order.
pub const FIELDS_PATH: &'static str = "$.files.*['filename', 'content']";

/// Which of the two values fell short, and how.
#[derive(Debug, Clone, Copy, PartialEq, Eq)]
pub enum FieldFault {
    /// Nothing was found where the file name should be.
    NoFilename,
    /// What was found in place of the file name is not a string.
    FilenameNotText,
    /// The file name is the empty string, which names no file.
    EmptyFilename,
    /// Only one value was found: the content is absent.
    NoContent,
    /// What was found in place of the content is not a string.
    ContentNotText,
}

impl FieldFault {
    /// The wording of a fault. A missing and an empty file name read alike,
    /// and so do the two values that are not strings.
    pub open spec fn text(self) -> Seq<char> {
        match self {
            FieldFault::NoFilename => "Filename missing"@,
            FieldFault::FilenameNotText => "Couldn't parse filename"@,
            FieldFault::EmptyFilename => "Filename missing"@,
            FieldFault::NoContent => "Content missing"@,
            FieldFault::ContentNotText => "Couldn't parse filename"@,
        }
    }

    /// The fault in words.
    pub fn describe(self) -> (words: &'static str)
        ensures
            words@ == self.text(),
    {
        match self {
            FieldFault::NoFilename => "Filename missing",
            FieldFault::FilenameNotText => "Couldn't parse filename",
            FieldFault::EmptyFilename => "Filename missing",
            FieldFault::NoContent => "Content missing",
            FieldFault::ContentNotText => "Couldn't parse filename",
        }
    }
}

/// Why no fields could be extracted from a document.
#[derive(Debug, PartialEq, Eq)]
pub enum ExtractError {
    /// The document is not JSON, or the path expression is not one the
    /// extractor evaluates; the message says which.
    Malformed(String),
    /// The document was read, but one of the two values cannot be used.
    MissingField(FieldFault),
}

/// Mathematical model of an [`ExtractError`].
pub enum ExtractErrorView {
    Malformed(Seq<char>),
    MissingField(FieldFault),
}

impl ExtractErrorView {
    /// The detail of the error in words: the message of a malformed input,
    /// the wording of a fault.
    pub open spec fn text(self) -> Seq<char> {
        match self {
            ExtractErrorView::Malformed(message) => message,
            ExtractErrorView::MissingField(fault) => fault.text(),
        }
    }
}

impl View for ExtractError {
    type V = ExtractErrorView;

    open spec fn view(&self) -> ExtractErrorView {
        match self {
            ExtractError::Malformed(message) => ExtractErrorView::Malformed(message@),
            ExtractError::MissingField(fault) => ExtractErrorView::MissingField(*fault),
        }
    }
}

impl ExtractError {
    /// The detail of the error in words.
    pub fn describe(&self) -> (words: String)
        ensures
            words@ == self@.text(),
    {
        match self {
            ExtractError::Malformed(message) => message.clone(),
            ExtractError::MissingField(fault) => fault.describe().to_string(),
        }
    }
}

impl Clone for ExtractError {
    fn clone(&self) -> (copy: ExtractError)
        ensures
            copy@ == self@,
    {
        match self {
            ExtractError::Malformed(message) => ExtractError::Malformed(message.clone()),
            ExtractError::MissingField(fault) => ExtractError::MissingField(*fault),
        }
    }
}

/// What `jsonpath_rust` finds in `document` under `path`: the error message
/// where either does not parse, else the values found in the order found,
/// each as its text where it is a JSON string and `None` where it is not.
pub uninterp spec fn json_path_texts(document: Seq<char>, path: Seq<char>) -> Result<
    Seq<Option<Seq<char>>>,
    Seq<char>,
>;

/// The text of each found value, where it has one.
pub open spec fn texts_of(found: Seq<Option<String>>) -> Seq<Option<Seq<char>>> {
    Seq::new(
        found.len(),
        |i: int|
            match found[i] {
                Some(text) => Some(text@),
                None => None,
            },
    )
}

/// Model of what the query hands back.
pub open spec fn found_view(found: Result<Vec<Option<String>>, String>) -> Result<
    Seq<Option<Seq<char>>>,
    Seq<char>,
> {
    match found {
        Ok(values) => Ok(texts_of(values@)),
        Err(message) => Err(message@),
    }
}

/// Calls `jsonpath_rust::JsonPathFinder::from_str` on the document and the
/// path, then `find_slice`, and turns each value found into its text with
/// `JsonPathValue::to_data` and `serde_json::Value::as_str`.
///
/// The contract only gives the outcome its name, [`json_path_texts`]. The
/// path is held to [`FIELDS_PATH`]: for that expression neither the parser
/// nor the evaluation has a panicking branch, whatever the document holds.
#[verifier::external_body]
fn find_texts(document: &str, path: &str) -> (found: Result<Vec<Option<String>>, String>)
    requires
        path@ == FIELDS_PATH@,
    ensures
        found_view(found) == json_path_texts(document@, path@),
{
    let finder = jsonpath_rust::JsonPathFinder::from_str(document, path)?;
    Ok(finder.find_slice().into_iter().map(|v| v.to_data().as_str().map(String::from)).collect())
}

/// The message of [`ExtractError::Malformed`] for a path expression other
/// than [`FIELDS_PATH`].
pub const UNSUPPORTED_PATH: &'static str = "Unsupported path expression";

/// Model of an extraction's outcome: the file name and the content, or why
/// there are none.
pub open spec fn fields_view(fields: Result<(String, String), ExtractError>) -> Result<
    (Seq<char>, Seq<char>),
    ExtractErrorView,
> {
    match fields {
        Ok((filename, content)) => Ok((filename@, content@)),
        Err(error) => Err(error@),
    }
}

/// The policy on what a query found. The first value is the file name and
/// the second the content; what follows them is not looked at. The file name
/// is examined first, and each value must be there before it can be a string.
pub open spec fn selected(found: Seq<Option<Seq<char>>>) -> Result<
    (Seq<char>, Seq<char>),
    ExtractErrorView,
> {
    if found.len() == 0 {
        Err(ExtractErrorView::MissingField(FieldFault::NoFilename))
    } else if found[0] is None {
        Err(ExtractErrorView::MissingField(FieldFault::FilenameNotText))
    } else if found.len() == 1 {
        Err(ExtractErrorView::MissingField(FieldFault::NoContent))
    } else if found[1] is None {
        Err(ExtractErrorView::MissingField(FieldFault::ContentNotText))
    } else {
        Ok((found[0]->0, found[1]->0))
    }
}

/// What extraction yields for a path expression and the outcome of the query:
/// any expression but [`FIELDS_PATH`] is refused, a failed query is a
/// malformed input with the query's message, and found values go through
/// [`selected`].
pub open spec fn extraction(
    path: Seq<char>,
    found: Result<Seq<Option<Seq<char>>>, Seq<char>>,
) -> Result<(Seq<char>, Seq<char>), ExtractErrorView> {
    if path != FIELDS_PATH@ {
        Err(ExtractErrorView::Malformed(UNSUPPORTED_PATH@))
    } else {
        match found {
            Err(message) => Err(ExtractErrorView::Malformed(message)),
            Ok(values) => selected(values),
        }
    }
}

/// Picks the file name and the content out of the values a query found.
pub fn select_fields(found: &Vec<Option<String>>) -> (fields: Result<
    (String, String),
    ExtractError,
>)
    ensures
        fields_view(fields) == selected(texts_of(found@)),
{
    if found.len() == 0 {
        return Err(ExtractError::MissingField(FieldFault::NoFilename));
    }
    let filename = match &found[0] {
        Some(text) => text.clone(),
        None => {
            return Err(ExtractError::MissingField(FieldFault::FilenameNotText));
        },
    };
    if found.len() == 1 {
        return Err(ExtractError::MissingField(FieldFault::NoContent));
    }
    let content = match &found[1] {
        Some(text) => text.clone(),
        None => {
            return Err(ExtractError::MissingField(FieldFault::ContentNotText));
        },
    };
    Ok((filename, content))
}

/// Extracts ordered scalar values from an untrusted JSON document.
pub struct JsonFieldExtractor;

impl JsonFieldExtractor {
    /// Reads `document`, evaluates `path_expression` on it and returns the
    /// file name and the content it addresses.
    ///
    /// The extractor evaluates one expression, [`FIELDS_PATH`]; every other
    /// one is refused as malformed without a look at the document.
    pub fn extract(document: &str, path_expression: &str) -> (fields: Result<
        (String, String),
        ExtractError,
    >)
        ensures
            fields_view(fields) == extraction(
                path_expression@,
                json_path_texts(document@, path_expression@),
            ),
    {
        if !same_text(path_expression, FIELDS_PATH) {
            return Err(ExtractError::Malformed(UNSUPPORTED_PATH.to_string()));
        }
        match find_texts(document, path_expression) {
            Err(message) => Err(ExtractError::Malformed(message)),
            Ok(found) => select_fields(&found),
        }
    }
}

/// Whether two strings hold the same text.
fn same_text(left: &str, right: &str) -> (same: bool)
    ensures
        same == (left@ == right@),
{
    left.to_string() == right.to_string()
}

} // verus!
