//! The document tree: one serialized value, with the hints a renderer needs.

use vstd::prelude::*;
use vstd::string::StringExecFns;
use crate::integer::{Base, Int};

verus! {

/// How a string asks to be rendered.
#[derive(Clone, Copy, Debug, PartialEq, Eq, Structural)]
pub enum StrFormat {
    /// On one line, quoted as the output format sees fit.
    Standard,
    /// As block text, line by line.
    Multiline,
}

/// How a byte buffer asks to be rendered.
#[derive(Clone, Copy, Debug, PartialEq, Eq, Structural)]
pub enum BytesFormat {
    /// As the output format renders bytes by itself.
    Standard,
    /// As one run of lowercase hex digits.
    HexStr,
    /// As `hexdump -vC` prints it.
    Hexdump,
    /// As `xxd` prints it.
    Xxd,
}

/// How a comment asks to be rendered.
#[derive(Clone, Copy, Debug, PartialEq, Eq, Structural)]
pub enum CommentFormat {
    /// In the comment syntax of the output format.
    Standard,
}

/// One serialized value. A document is plain data: it owns its children and
/// nothing checks its shape when it is built.
///
/// `Float` holds the IEEE 754 binary64 bit pattern of the number, so that
/// equality of documents is plain equality of data.
#[derive(Debug)]
pub enum Document {
    Null,
    Boolean(bool),
    Float(u64),
    String(String, StrFormat),
    /// Raw bytes, for a buffer that was not rendered as text.
    Bytes(Vec<u8>),
    Int(Int),
    Comment(String, CommentFormat),
    Sequence(Vec<Document>),
    /// Entries in order; each entry is a `Fragment`. Keys may repeat.
    Mapping(Vec<Document>),
    /// Siblings glued together without a level of their own: a comment and
    /// what it comments on, or a key and its value.
    Fragment(Vec<Document>),
    /// A subtree that asks to be rendered on one line.
    Compact(Box<Document>),
}

/// The mathematical value of a [`Document`].
pub ghost enum DocumentView {
    Null,
    Boolean(bool),
    Float(u64),
    String(Seq<char>, StrFormat),
    Bytes(Seq<u8>),
    Int(int, Base),
    Comment(Seq<char>, CommentFormat),
    Sequence(Seq<DocumentView>),
    Mapping(Seq<DocumentView>),
    Fragment(Seq<DocumentView>),
    Compact(Box<DocumentView>),
}

/// The values of a run of documents, one for one.
pub open spec fn views(docs: Seq<Document>) -> Seq<DocumentView>
    decreases docs,
{
    Seq::new(
        docs.len(),
        |i: int|
            if 0 <= i < docs.len() {
                value_of(docs[i])
            } else {
                DocumentView::Null
            },
    )
}

/// The value of one document; `d@` is short for it.
pub open spec fn value_of(d: Document) -> DocumentView
    decreases d,
{
    match d {
        Document::Null => DocumentView::Null,
        Document::Boolean(b) => DocumentView::Boolean(b),
        Document::Float(bits) => DocumentView::Float(bits),
        Document::String(s, f) => DocumentView::String(s@, f),
        Document::Bytes(b) => DocumentView::Bytes(b@),
        Document::Int(i) => DocumentView::Int(i.value(), i.base_spec()),
        Document::Comment(s, f) => DocumentView::Comment(s@, f),
        Document::Sequence(v) => DocumentView::Sequence(views(v@)),
        Document::Mapping(v) => DocumentView::Mapping(views(v@)),
        Document::Fragment(v) => DocumentView::Fragment(views(v@)),
        Document::Compact(inner) => DocumentView::Compact(Box::new(value_of(*inner))),
    }
}

impl View for Document {
    type V = DocumentView;

    open spec fn view(&self) -> DocumentView {
        value_of(*self)
    }
}

/// Appending a document appends its value.
pub proof fn lemma_views_push(docs: Seq<Document>, d: Document)
    ensures
        views(docs.push(d)) == views(docs).push(d@),
{
    assert(views(docs.push(d)) =~= views(docs).push(d@));
}

/// Whether two byte buffers hold the same bytes.
fn same_bytes(a: &Vec<u8>, b: &Vec<u8>) -> (r: bool)
    ensures
        r == (a@ == b@),
{
    if a.len() != b.len() {
        return false;
    }
    let mut i: usize = 0;
    while i < a.len()
        invariant
            i <= a.len(),
            a.len() == b.len(),
            forall|j: int| 0 <= j < i ==> a@[j] == b@[j],
        decreases a.len() - i,
    {
        if a[i] != b[i] {
            return false;
        }
        i += 1;
    }
    assert(a@ =~= b@);
    true
}

/// Whether two runs of documents are equal, one for one.
fn same_all(a: &Vec<Document>, b: &Vec<Document>) -> (r: bool)
    ensures
        r == (views(a@) == views(b@)),
    decreases a,
{
    if a.len() != b.len() {
        assert(views(a@).len() != views(b@).len());
        return false;
    }
    let mut i: usize = 0;
    while i < a.len()
        invariant
            i <= a.len(),
            a.len() == b.len(),
            forall|j: int| 0 <= j < i ==> a@[j]@ == b@[j]@,
        decreases a.len() - i,
    {
        proof {
            assert(decreases_to!(a => a@));
            assert(decreases_to!(a@ => a@[i as int]));
        }
        if !a[i].eq(&b[i]) {
            assert(views(a@)[i as int] != views(b@)[i as int]);
            return false;
        }
        i += 1;
    }
    assert(views(a@) =~= views(b@));
    true
}

impl PartialEq for Document {
    /// Structural equality: the same tree, node for node.
    fn eq(&self, other: &Document) -> (r: bool)
        decreases self,
    {
        match self {
            Document::Null => match other {
                Document::Null => true,
                _ => false,
            },
            Document::Boolean(a) => match other {
                Document::Boolean(b) => *a == *b,
                _ => false,
            },
            Document::Float(a) => match other {
                Document::Float(b) => *a == *b,
                _ => false,
            },
            Document::String(a, f) => match other {
                Document::String(b, g) => *a == *b && *f == *g,
                _ => false,
            },
            Document::Bytes(a) => match other {
                Document::Bytes(b) => same_bytes(a, b),
                _ => false,
            },
            Document::Int(a) => match other {
                Document::Int(b) => a.same(b),
                _ => false,
            },
            Document::Comment(a, f) => match other {
                Document::Comment(b, g) => *a == *b && *f == *g,
                _ => false,
            },
            Document::Sequence(a) => match other {
                Document::Sequence(b) => same_all(a, b),
                _ => false,
            },
            Document::Mapping(a) => match other {
                Document::Mapping(b) => same_all(a, b),
                _ => false,
            },
            Document::Fragment(a) => match other {
                Document::Fragment(b) => same_all(a, b),
                _ => false,
            },
            Document::Compact(a) => match other {
                Document::Compact(b) => (**a).eq(&**b),
                _ => false,
            },
        }
    }
}

impl Eq for Document {}

impl vstd::std_specs::cmp::PartialEqSpecImpl for Document {
    open spec fn obeys_eq_spec() -> bool {
        true
    }

    /// Two documents are equal exactly when their values are.
    open spec fn eq_spec(&self, other: &Document) -> bool {
        self@ == other@
    }
}

/// Copies a run of documents, one for one.
fn clone_all(docs: &Vec<Document>) -> (r: Vec<Document>)
    ensures
        views(r@) == views(docs@),
    decreases docs,
{
    let mut out: Vec<Document> = Vec::new();
    let mut i: usize = 0;
    while i < docs.len()
        invariant
            i <= docs.len(),
            out.len() == i,
            forall|j: int| 0 <= j < i ==> out@[j]@ == docs@[j]@,
        decreases docs.len() - i,
    {
        proof {
            assert(decreases_to!(docs => docs@));
            assert(decreases_to!(docs@ => docs@[i as int]));
        }
        out.push(docs[i].clone());
        i += 1;
    }
    assert(views(out@) =~= views(docs@));
    out
}

impl Clone for Document {
    /// A deep copy: the copy has the same value and shares nothing.
    fn clone(&self) -> (r: Document)
        ensures
            r@ == self@,
        decreases self,
    {
        match self {
            Document::Null => Document::Null,
            Document::Boolean(b) => Document::Boolean(*b),
            Document::Float(bits) => Document::Float(*bits),
            Document::String(s, f) => Document::String(s.clone(), *f),
            Document::Bytes(b) => Document::Bytes(b.clone()),
            Document::Int(i) => Document::Int(*i),
            Document::Comment(s, f) => Document::Comment(s.clone(), *f),
            Document::Sequence(v) => Document::Sequence(clone_all(v)),
            Document::Mapping(v) => Document::Mapping(clone_all(v)),
            Document::Fragment(v) => Document::Fragment(clone_all(v)),
            Document::Compact(d) => Document::Compact(Box::new((**d).clone())),
        }
    }
}

/// The comment node for a declared comment, if there is one.
pub open spec fn comment_node(comment: Option<Seq<char>>) -> Option<DocumentView> {
    match comment {
        Some(text) => Some(DocumentView::Comment(text, CommentFormat::Standard)),
        None => None,
    }
}

/// The value of an optional document.
pub open spec fn document_of(d: Option<Document>) -> Option<DocumentView> {
    match d {
        Some(d) => Some(d@),
        None => None,
    }
}

/// A name as a document: a string in the standard style.
pub open spec fn name_node(name: Seq<char>) -> DocumentView {
    DocumentView::String(name, StrFormat::Standard)
}

/// One entry of a mapping: key and value glued together, behind the comment
/// where there is one.
pub open spec fn entry(comment: Option<Seq<char>>, key: DocumentView, value: DocumentView) -> DocumentView {
    match comment {
        Some(text) => DocumentView::Fragment(
            seq![DocumentView::Comment(text, CommentFormat::Standard), key, value],
        ),
        None => DocumentView::Fragment(seq![key, value]),
    }
}

/// A node behind its comment, or the node alone where it has none.
pub open spec fn commented(comment: Option<Seq<char>>, node: DocumentView) -> DocumentView {
    match comment {
        Some(text) => DocumentView::Fragment(
            seq![DocumentView::Comment(text, CommentFormat::Standard), node],
        ),
        None => node,
    }
}

/// A node marked for one-line rendering where `compact` is set, or left as
/// it is. A node that is marked already is not marked again: the mark never
/// sits directly inside another.
pub open spec fn compacted(compact: bool, node: DocumentView) -> DocumentView {
    if compact && !(node is Compact) {
        DocumentView::Compact(Box::new(node))
    } else {
        node
    }
}

/// An enum variant with a payload: a mapping with one entry, from the
/// variant's name to the payload.
pub open spec fn variant_document(
    comment: Option<Seq<char>>,
    variant: Seq<char>,
    payload: DocumentView,
) -> DocumentView {
    DocumentView::Mapping(seq![entry(comment, name_node(variant), payload)])
}

impl DocumentView {
    /// Whether this is one entry of a mapping: a fragment of key and value,
    /// or of a comment, key and value.
    pub open spec fn is_entry(self) -> bool {
        self matches DocumentView::Fragment(items) && ((items.len() == 2 && !(items[0] is Comment))
            || (items.len() == 3 && items[0] is Comment))
    }

    /// Whether the tree has the shape a renderer relies on, at every level:
    /// a comment inside a fragment comes first, the elements of a mapping are
    /// entries, and the mark for one-line rendering never sits directly
    /// inside another.
    pub open spec fn well_formed(self) -> bool
        decreases self,
    {
        match self {
            DocumentView::Sequence(items) => forall|i: int|
                0 <= i < items.len() ==> (#[trigger] items[i]).well_formed(),
            DocumentView::Mapping(entries) => forall|i: int|
                0 <= i < entries.len() ==> (#[trigger] entries[i]).well_formed()
                    && entries[i].is_entry(),
            DocumentView::Fragment(items) => forall|i: int|
                0 <= i < items.len() ==> (#[trigger] items[i]).well_formed() && (i > 0 ==> !(items[i]
                    is Comment)),
            DocumentView::Compact(inner) => !(*inner is Compact) && inner.well_formed(),
            _ => true,
        }
    }

    /// Whether this can stand as a key, a value or an element: a well-formed
    /// tree that is not a bare comment.
    pub open spec fn is_value(self) -> bool {
        self.well_formed() && !(self is Comment)
    }
}

/// An entry made of values is a well-formed entry.
pub proof fn lemma_entry_well_formed(
    comment: Option<Seq<char>>,
    key: DocumentView,
    value: DocumentView,
)
    requires
        key.is_value(),
        value.is_value(),
    ensures
        entry(comment, key, value).is_entry(),
        entry(comment, key, value).is_value(),
{
    let items = entry(comment, key, value)->Fragment_0;
    assert forall|i: int| 0 <= i < items.len() implies (#[trigger] items[i]).well_formed() && (i > 0
        ==> !(items[i] is Comment)) by {
        if comment is Some {
            assert(i == 0 || i == 1 || i == 2);
        } else {
            assert(i == 0 || i == 1);
        }
    }
}

/// A value behind its comment is a value.
pub proof fn lemma_commented_well_formed(comment: Option<Seq<char>>, node: DocumentView)
    requires
        node.is_value(),
    ensures
        commented(comment, node).is_value(),
{
    if comment is Some {
        let items = commented(comment, node)->Fragment_0;
        assert forall|i: int| 0 <= i < items.len() implies (#[trigger] items[i]).well_formed() && (i
            > 0 ==> !(items[i] is Comment)) by {
            assert(i == 0 || i == 1);
        }
    }
}

/// A value marked for one-line rendering is a value: the mark is never put
/// on a node that carries it already.
pub proof fn lemma_compacted_well_formed(compact: bool, node: DocumentView)
    requires
        node.is_value(),
    ensures
        compacted(compact, node).is_value(),
        compacted(compact, node) is Compact <==> compact || node is Compact,
{
}

/// A variant around a value is a value.
pub proof fn lemma_variant_well_formed(
    comment: Option<Seq<char>>,
    variant: Seq<char>,
    payload: DocumentView,
)
    requires
        payload.is_value(),
    ensures
        variant_document(comment, variant, payload).is_value(),
{
    lemma_entry_well_formed(comment, name_node(variant), payload);
}

/// A well-formed sequence stays well-formed when a value is appended.
pub proof fn lemma_sequence_push(items: Seq<DocumentView>, item: DocumentView)
    requires
        DocumentView::Sequence(items).well_formed(),
        item.well_formed(),
    ensures
        DocumentView::Sequence(items.push(item)).well_formed(),
{
    let grown = items.push(item);
    let whole = DocumentView::Sequence(items);
    assert(forall|i: int|
        0 <= i < whole->Sequence_0.len() ==> (#[trigger] whole->Sequence_0[i]).well_formed());
    assert forall|i: int| 0 <= i < grown.len() implies (#[trigger] grown[i]).well_formed() by {
        if i < items.len() {
            assert(items[i].well_formed());
        }
    }
}

/// A well-formed mapping stays well-formed when a well-formed entry is
/// appended.
pub proof fn lemma_mapping_push(entries: Seq<DocumentView>, item: DocumentView)
    requires
        DocumentView::Mapping(entries).well_formed(),
        item.is_entry(),
        item.well_formed(),
    ensures
        DocumentView::Mapping(entries.push(item)).well_formed(),
{
    let grown = entries.push(item);
    let whole = DocumentView::Mapping(entries);
    assert(forall|i: int|
        0 <= i < whole->Mapping_0.len() ==> (#[trigger] whole->Mapping_0[i]).well_formed()
            && whole->Mapping_0[i].is_entry());
    assert forall|i: int| 0 <= i < grown.len() implies (#[trigger] grown[i]).well_formed()
        && grown[i].is_entry() by {
        if i < entries.len() {
            assert(entries[i].well_formed());
        }
    }
}

impl Document {
    /// A string in the standard style.
    pub fn string(text: &str) -> (r: Document)
        ensures
            r@ == DocumentView::String(text@, StrFormat::Standard),
    {
        Document::String(String::from_str(text), StrFormat::Standard)
    }

    /// A comment in the standard style.
    pub fn comment(text: &str) -> (r: Document)
        ensures
            r@ == DocumentView::Comment(text@, CommentFormat::Standard),
    {
        Document::Comment(String::from_str(text), CommentFormat::Standard)
    }

    /// One entry of a mapping: `key` and `value` glued together, behind
    /// `comment` where there is one.
    pub fn entry(comment: Option<Document>, key: Document, value: Document) -> (r: Document)
        ensures
            r@ == match comment {
                Some(c) => DocumentView::Fragment(seq![c@, key@, value@]),
                None => DocumentView::Fragment(seq![key@, value@]),
            },
    {
        let ghost c = document_of(comment);
        let ghost k = key@;
        let ghost v = value@;
        let mut nodes: Vec<Document> = Vec::new();
        if let Some(c) = comment {
            nodes.push(c);
        }
        nodes.push(key);
        nodes.push(value);
        assert(views(nodes@) =~= match c {
            Some(c) => seq![c, k, v],
            None => seq![k, v],
        });
        Document::Fragment(nodes)
    }

    /// `node` behind `comment`, or `node` alone where there is no comment.
    pub fn commented(comment: Option<Document>, node: Document) -> (r: Document)
        ensures
            r@ == match comment {
                Some(c) => DocumentView::Fragment(seq![c@, node@]),
                None => node@,
            },
    {
        match comment {
            Some(c) => {
                let ghost cv = c@;
                let ghost nv = node@;
                let mut nodes: Vec<Document> = Vec::new();
                nodes.push(c);
                nodes.push(node);
                assert(views(nodes@) =~= seq![cv, nv]);
                Document::Fragment(nodes)
            },
            None => node,
        }
    }

    /// `node` marked for one-line rendering where `compact` is set, `node`
    /// itself where it is not or where it is marked already.
    pub fn compacted(compact: bool, node: Document) -> (r: Document)
        ensures
            r@ == compacted(compact, node@),
    {
        match node {
            Document::Compact(_) => node,
            _ => if compact {
                Document::Compact(Box::new(node))
            } else {
                node
            },
        }
    }

    /// An enum variant with a payload: a mapping with the one entry
    /// `[comment, variant, payload]`, the comment only where there is one.
    pub fn variant(comment: Option<Document>, variant: &str, payload: Document) -> (r: Document)
        ensures
            r@ == DocumentView::Mapping(
                seq![
                    match comment {
                        Some(c) => DocumentView::Fragment(seq![c@, name_node(variant@), payload@]),
                        None => DocumentView::Fragment(seq![name_node(variant@), payload@]),
                    },
                ],
            ),
    {
        let inner = Document::entry(comment, Document::string(variant), payload);
        let ghost iv = inner@;
        let mut entries: Vec<Document> = Vec::new();
        entries.push(inner);
        assert(views(entries@) =~= seq![iv]);
        Document::Mapping(entries)
    }

    /// Whether this is one entry of a mapping.
    pub fn is_entry(&self) -> (r: bool)
        ensures
            r == self@.is_entry(),
    {
        match self {
            Document::Fragment(items) => {
                proof {
                    reveal_with_fuel(value_of, 2);
                    if items.len() > 0 {
                        assert(views(items@)[0] == items@[0]@);
                    }
                }
                if items.len() == 2 {
                    match &items[0] {
                        Document::Comment(_, _) => false,
                        _ => true,
                    }
                } else if items.len() == 3 {
                    match &items[0] {
                        Document::Comment(_, _) => true,
                        _ => false,
                    }
                } else {
                    false
                }
            },
            _ => false,
        }
    }

    /// Whether the tree has the shape a renderer relies on, at every level.
    /// Nothing checks this when a document is built by hand; the traversal
    /// engine keeps to it as long as the values it is handed do.
    pub fn is_well_formed(&self) -> (r: bool)
        ensures
            r == self@.well_formed(),
        decreases self,
    {
        match self {
            Document::Sequence(items) => {
                let ok = all_well_formed(items, false, false);
                proof {
                    let whole = self@;
                    if ok {
                        assert forall|i: int| 0 <= i < whole->Sequence_0.len() implies (#[trigger] whole->Sequence_0[i]).well_formed() by {
                            assert(shaped(views(items@), i, false, false));
                        }
                    } else {
                        let i = choose|i: int|
                            0 <= i < views(items@).len() && !#[trigger] shaped(views(items@), i, false, false);
                        assert(!((whole->Sequence_0[i]).well_formed()));
                    }
                }
                ok
            },
            Document::Mapping(items) => {
                let ok = all_well_formed(items, true, false);
                proof {
                    let whole = self@;
                    if ok {
                        assert forall|i: int| 0 <= i < whole->Mapping_0.len() implies (#[trigger] whole->Mapping_0[i]).well_formed()
                            && whole->Mapping_0[i].is_entry() by {
                            assert(shaped(views(items@), i, true, false));
                        }
                    } else {
                        let i = choose|i: int|
                            0 <= i < views(items@).len() && !#[trigger] shaped(views(items@), i, true, false);
                        assert(!((whole->Mapping_0[i]).well_formed()
                            && whole->Mapping_0[i].is_entry()));
                    }
                }
                ok
            },
            Document::Fragment(items) => {
                let ok = all_well_formed(items, false, true);
                proof {
                    let whole = self@;
                    if ok {
                        assert forall|i: int| 0 <= i < whole->Fragment_0.len() implies (#[trigger] whole->Fragment_0[i]).well_formed()
                            && (i > 0 ==> !(whole->Fragment_0[i] is Comment)) by {
                            assert(shaped(views(items@), i, false, true));
                        }
                    } else {
                        let i = choose|i: int|
                            0 <= i < views(items@).len() && !#[trigger] shaped(views(items@), i, false, true);
                        assert(!((whole->Fragment_0[i]).well_formed()
                            && (i > 0 ==> !(whole->Fragment_0[i] is Comment))));
                    }
                }
                ok
            },
            Document::Compact(inner) => {
                proof {
                    reveal_with_fuel(value_of, 2);
                }
                match &**inner {
                    Document::Compact(_) => false,
                    _ => (**inner).is_well_formed(),
                }
            },
            _ => true,
        }
    }
}

/// What is asked of element `i` of a run: that it is well-formed and, as the
/// run asks, an entry, or no comment unless it comes first.
spec fn shaped(items: Seq<DocumentView>, i: int, entries: bool, fragment: bool) -> bool {
    items[i].well_formed() && (entries ==> items[i].is_entry()) && (fragment && i > 0 ==> !(items[i]
        is Comment))
}

/// Whether every element of a run has the shape asked for.
fn all_well_formed(items: &Vec<Document>, entries: bool, fragment: bool) -> (r: bool)
    ensures
        r == forall|i: int|
            0 <= i < views(items@).len() ==> #[trigger] shaped(views(items@), i, entries, fragment),
    decreases items,
{
    let mut i: usize = 0;
    while i < items.len()
        invariant
            i <= items.len(),
            forall|j: int| 0 <= j < i ==> #[trigger] shaped(views(items@), j, entries, fragment),
        decreases items.len() - i,
    {
        proof {
            assert(decreases_to!(items => items@));
            assert(decreases_to!(items@ => items@[i as int]));
            assert(views(items@)[i as int] == items@[i as int]@);
        }
        let ok = items[i].is_well_formed() && (!entries || items[i].is_entry()) && (!fragment || i == 0
            || match &items[i] {
            Document::Comment(_, _) => false,
            _ => true,
        });
        if !ok {
            assert(!shaped(views(items@), i as int, entries, fragment));
            return false;
        }
        i += 1;
    }
    true
}

} // verus!
