//! The persisted document and its mathematical view.

use vstd::prelude::*;

verus! {

/// What a stored document is, as a mathematical value.
pub struct DocumentView {
    /// The full body of the document.
    pub text: Seq<char>,
    /// The syntax-highlighting hint; `None` is distinct from the empty string.
    pub language: Option<Seq<char>>,
}

/// The characters of an optional string; absence stays absence.
pub open spec fn optional_text(value: Option<String>) -> Option<Seq<char>> {
    match value {
        Some(text) => Some(text@),
        None => None,
    }
}

/// The characters of an optional string slice; absence stays absence.
pub open spec fn optional_str(value: Option<&str>) -> Option<Seq<char>> {
    match value {
        Some(text) => Some(text@),
        None => None,
    }
}

/// Represents a document persisted in database storage.
#[derive(PartialEq, Eq, Debug)]
pub struct PersistedDocument {
    /// Text content of the document.
    pub text: String,
    /// Language of the document for editor syntax highlighting.
    pub language: Option<String>,
}

impl View for PersistedDocument {
    type V = DocumentView;

    open spec fn view(&self) -> DocumentView {
        DocumentView { text: self.text@, language: optional_text(self.language) }
    }
}

impl Clone for PersistedDocument {
    /// A copy with the same text and the same language, absent where it was absent.
    fn clone(&self) -> (copy: Self)
        ensures
            copy@ == self@,
    {
        PersistedDocument { text: self.text.clone(), language: clone_optional(&self.language) }
    }
}

impl PersistedDocument {
    /// Builds a document from borrowed parts.
    pub fn new(text: &str, language: Option<&str>) -> (doc: PersistedDocument)
        ensures
            doc@.text == text@,
            doc@.language == optional_str(language),
    {
        let language = match language {
            Some(l) => Some(l.to_owned()),
            None => None,
        };
        PersistedDocument { text: text.to_owned(), language }
    }
}

/// A copy of an optional string: the same characters, or absent where the
/// given one is absent.
pub fn clone_optional(value: &Option<String>) -> (copy: Option<String>)
    ensures
        optional_text(copy) == optional_text(*value),
{
    match value {
        Some(text) => Some(text.clone()),
        None => None,
    }
}

} // verus!
