//! Documents as values: a ready-made document that turns up inside a value
//! being serialized is passed through as it is, and read back the same way.

use vstd::prelude::*;
use crate::document::{Document, DocumentView};
use crate::error::{Error, ErrorView};
use crate::ser::AnnotatedSerializer;

verus! {

/// The read-side counterpart of the serializer: a source that holds the
/// document being read.
pub struct Deserializer {
    doc: Document,
}

impl Deserializer {
    /// The document the source holds.
    pub closed spec fn document(&self) -> DocumentView {
        self.doc@
    }

    pub fn new(doc: Document) -> (r: Self)
        ensures
            r.document() == doc@,
    {
        Deserializer { doc }
    }

    /// Runs `ok` on the source where it is this library's own, and `err`
    /// where it is a foreign one, which is given as `None`.
    pub fn try_specialize<T, A: FnOnce(&Deserializer) -> T, B: FnOnce() -> T>(
        source: Option<&Deserializer>,
        ok: A,
        err: B,
    ) -> (r: T)
        requires
            source matches Some(d) ==> ok.requires((d,)),
            source is None ==> err.requires(()),
        ensures
            match source {
                Some(d) => ok.ensures((d,), r),
                None => err.ensures((), r),
            },
    {
        match source {
            Some(d) => ok(d),
            None => err(),
        }
    }
}

impl AnnotatedSerializer {
    /// Runs `ok` on the destination where it is this library's own
    /// tree-building serializer, and `err` where it is a foreign one, which
    /// is given as `None`.
    pub fn try_specialize<T, A: FnOnce(AnnotatedSerializer) -> T, B: FnOnce() -> T>(
        destination: Option<&AnnotatedSerializer>,
        ok: A,
        err: B,
    ) -> (r: T)
        requires
            destination matches Some(s) ==> ok.requires((*s,)),
            destination is None ==> err.requires(()),
        ensures
            match destination {
                Some(s) => ok.ensures((*s,), r),
                None => err.ensures((), r),
            },
    {
        match destination {
            Some(s) => ok(*s),
            None => err(),
        }
    }
}

/// What serializing a document gives: the document itself where the
/// destination builds documents, an error where it does not.
pub open spec fn passed_through(doc: DocumentView, own: bool) -> Result<DocumentView, ErrorView> {
    if own {
        Ok(doc)
    } else {
        Err(ErrorView::UnsupportedSerialize)
    }
}

/// The value of a result.
pub open spec fn result_view(r: Result<Document, Error>) -> Result<DocumentView, ErrorView> {
    match r {
        Ok(d) => Ok(d@),
        Err(e) => Err(e@),
    }
}

impl Document {
    /// Serializes a ready-made document. Where the destination is this
    /// library's tree-building serializer, the result is a copy of the
    /// document, unchanged whatever the context. A foreign destination, given
    /// as `None`, cannot take a document: that is an error.
    pub fn serialize(&self, destination: Option<&AnnotatedSerializer>) -> (r: Result<Document, Error>)
        ensures
            result_view(r) == passed_through(self@, destination is Some),
    {
        AnnotatedSerializer::try_specialize(
            destination,
            |_s: AnnotatedSerializer| -> (r: Result<Document, Error>)
                ensures
                    r matches Ok(d) && d@ == self@
                { Ok(self.clone()) },
            || -> (r: Result<Document, Error>)
                ensures
                    r matches Err(e) && e@ == ErrorView::UnsupportedSerialize
                { Err(Error::UnsupportedSerialize) },
        )
    }

    /// Reads a document back. Where the source is this library's own, the
    /// result is a copy of the document it holds. A foreign source, given as
    /// `None`, holds no document: that is an error.
    pub fn deserialize(source: Option<&Deserializer>) -> (r: Result<Document, Error>)
        ensures
            result_view(r) == match source {
                Some(d) => Ok::<DocumentView, ErrorView>(d.document()),
                None => Err(ErrorView::UnsupportedDeserialize),
            },
    {
        Deserializer::try_specialize(
            source,
            |d: &Deserializer| -> (r: Result<Document, Error>)
                ensures
                    r matches Ok(copy) && copy@ == d.document()
                { Ok(d.doc.clone()) },
            || -> (r: Result<Document, Error>)
                ensures
                    r matches Err(e) && e@ == ErrorView::UnsupportedDeserialize
                { Err(Error::UnsupportedDeserialize) },
        )
    }
}

/// Passing a document through the tree-building serializer changes nothing,
/// and so does passing the result through again.
pub proof fn lemma_passthrough_idempotent(doc: DocumentView)
    ensures
        passed_through(doc, true) == Ok::<DocumentView, ErrorView>(doc),
        passed_through(passed_through(doc, true)->Ok_0, true) == passed_through(doc, true),
{
}

} // verus!
