//! What can go wrong while a document is built.

use vstd::prelude::*;
use vstd::string::StringExecFns;

verus! {

/// A failed traversal. No partial document comes with it.
#[derive(Debug)]
pub enum Error {
    /// A nested value failed to serialize itself, with its own words.
    Message(String),
    /// A ready-made document was handed to a destination that does not build
    /// documents.
    UnsupportedSerialize,
    /// A ready-made document was asked of a source that does not hold one.
    UnsupportedDeserialize,
}

/// The mathematical value of an [`Error`].
pub ghost enum ErrorView {
    Message(Seq<char>),
    UnsupportedSerialize,
    UnsupportedDeserialize,
}

impl View for Error {
    type V = ErrorView;

    open spec fn view(&self) -> ErrorView {
        match self {
            Error::Message(text) => ErrorView::Message(text@),
            Error::UnsupportedSerialize => ErrorView::UnsupportedSerialize,
            Error::UnsupportedDeserialize => ErrorView::UnsupportedDeserialize,
        }
    }
}

impl PartialEq for Error {
    fn eq(&self, other: &Error) -> (r: bool) {
        match self {
            Error::Message(a) => match other {
                Error::Message(b) => *a == *b,
                _ => false,
            },
            Error::UnsupportedSerialize => match other {
                Error::UnsupportedSerialize => true,
                _ => false,
            },
            Error::UnsupportedDeserialize => match other {
                Error::UnsupportedDeserialize => true,
                _ => false,
            },
        }
    }
}

impl Eq for Error {}

impl vstd::std_specs::cmp::PartialEqSpecImpl for Error {
    open spec fn obeys_eq_spec() -> bool {
        true
    }

    /// Two errors are equal exactly when their values are.
    open spec fn eq_spec(&self, other: &Error) -> bool {
        self@ == other@
    }
}

impl ErrorView {
    /// The words of an error, as `Error::message` gives them.
    pub open spec fn message(self) -> Seq<char> {
        match self {
            ErrorView::Message(text) => text,
            ErrorView::UnsupportedSerialize =>
                "Serializing document nodes is only supported with serde_annotate::AnnotatedSerializer"@,
            ErrorView::UnsupportedDeserialize =>
                "Deserializing document nodes is only supported with serde_annotate::Deserializer"@,
        }
    }
}

impl Error {
    /// An error in the words of whoever raises it.
    pub fn custom(text: &str) -> (r: Error)
        ensures
            r@ == ErrorView::Message(text@),
    {
        Error::Message(String::from_str(text))
    }

    /// The error in words.
    pub fn message(&self) -> (r: String)
        ensures
            r@ == self@.message(),
    {
        match self {
            Error::Message(text) => text.clone(),
            Error::UnsupportedSerialize => String::from_str(
                "Serializing document nodes is only supported with serde_annotate::AnnotatedSerializer",
            ),
            Error::UnsupportedDeserialize => String::from_str(
                "Deserializing document nodes is only supported with serde_annotate::Deserializer",
            ),
        }
    }
}

} // verus!
