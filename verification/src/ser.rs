//! The traversal engine: builds a [`Document`] from the parts of a value,
//! asking the active hook how each member wants to be shown.
//!
//! The engine does not know the values it serializes. A value is handed over
//! as a function that, given the serializer to write to, builds the value's
//! document or fails. The hook of the value under construction is handed over
//! next to it; it is consulted for the members of that value and is not
//! passed on to the members' own values.

use vstd::prelude::*;
use vstd::slice::slice_to_vec;
use vstd::string::StringExecFns;
use crate::annotate::{Annotate, Format, MemberId, may_comment, may_format, string_of};
use crate::document::{
    BytesFormat, CommentFormat, Document, DocumentView, StrFormat, comment_node, compacted,
    document_of, entry, lemma_views_push, variant_document, views,
};
use crate::error::Error;
use crate::hexdump;
use crate::integer::{Base, Int};
use crate::outcome::{named_outcome, positional_outcome, variant_outcome};
use crate::text::push_char;

verus! {

/// Serializes a value from scratch: the value builds its document in the
/// initial context, or fails with its own error.
pub fn serialize<F: FnOnce(AnnotatedSerializer) -> Result<Document, Error>>(value: F) -> (r: Result<
    Document,
    Error,
>)
    requires
        value.requires((AnnotatedSerializer::initial(),)),
    ensures
        value.ensures((AnnotatedSerializer::initial(),), r),
{
    value(AnnotatedSerializer::new())
}

/// A byte buffer as a document: text where the format renders it, in one line
/// for a hex string and as a block for a dump; raw bytes otherwise.
pub open spec fn bytes_document(data: Seq<u8>, format: BytesFormat) -> DocumentView {
    match hexdump::rendered(data, format) {
        Some(text) => DocumentView::String(
            text,
            if format == BytesFormat::HexStr {
                StrFormat::Standard
            } else {
                StrFormat::Multiline
            },
        ),
        None => DocumentView::Bytes(data),
    }
}

/// The traversal context: how scalars met from here on are to be shown. A
/// directive on a member changes it for that member's subtree only, in a copy.
#[derive(Clone, Copy, Debug, PartialEq, Eq, Structural)]
pub struct AnnotatedSerializer {
    pub base: Base,
    pub strformat: StrFormat,
    pub bytesformat: BytesFormat,
    pub compact: bool,
}

impl AnnotatedSerializer {
    /// The context a traversal starts in.
    pub open spec fn initial() -> AnnotatedSerializer {
        AnnotatedSerializer {
            base: Base::Dec,
            strformat: StrFormat::Standard,
            bytesformat: BytesFormat::Standard,
            compact: false,
        }
    }

    /// The context for the subtree of a member with the given directive. A
    /// directive overrides the one setting it is about; without a directive
    /// the context stays as it is.
    pub open spec fn directed(self, directive: Option<Format>) -> AnnotatedSerializer {
        match directive {
            Some(Format::Block) => AnnotatedSerializer { strformat: StrFormat::Multiline, ..self },
            Some(Format::Binary) => AnnotatedSerializer { base: Base::Bin, ..self },
            Some(Format::Decimal) => AnnotatedSerializer { base: Base::Dec, ..self },
            Some(Format::Hex) => AnnotatedSerializer { base: Base::Hex, ..self },
            Some(Format::Octal) => AnnotatedSerializer { base: Base::Oct, ..self },
            Some(Format::Compact) => AnnotatedSerializer { compact: true, ..self },
            Some(Format::HexStr) => AnnotatedSerializer { bytesformat: BytesFormat::HexStr, ..self },
            Some(Format::Hexdump) => AnnotatedSerializer {
                bytesformat: BytesFormat::Hexdump,
                ..self
            },
            Some(Format::Xxd) => AnnotatedSerializer { bytesformat: BytesFormat::Xxd, ..self },
            None => self,
        }
    }

    pub fn new() -> (r: Self)
        ensures
            r == Self::initial(),
    {
        AnnotatedSerializer {
            base: Base::Dec,
            strformat: StrFormat::Standard,
            bytesformat: BytesFormat::Standard,
            compact: false,
        }
    }

    pub fn with_base(&self, b: Base) -> (r: Self)
        ensures
            r == (AnnotatedSerializer { base: b, ..*self }),
    {
        let mut x = *self;
        x.base = b;
        x
    }

    pub fn with_bytesformat(&self, b: BytesFormat) -> (r: Self)
        ensures
            r == (AnnotatedSerializer { bytesformat: b, ..*self }),
    {
        let mut x = *self;
        x.bytesformat = b;
        x
    }

    pub fn with_strformat(&self, s: StrFormat) -> (r: Self)
        ensures
            r == (AnnotatedSerializer { strformat: s, ..*self }),
    {
        let mut x = *self;
        x.strformat = s;
        x
    }

    pub fn with_compact(&self, c: bool) -> (r: Self)
        ensures
            r == (AnnotatedSerializer { compact: c, ..*self }),
    {
        let mut x = *self;
        x.compact = c;
        x
    }

    /// The context for the subtree of a member that declared `directive`.
    pub fn with_format(&self, directive: Option<Format>) -> (r: Self)
        ensures
            r == self.directed(directive),
    {
        match directive {
            Some(Format::Block) => self.with_strformat(StrFormat::Multiline),
            Some(Format::Binary) => self.with_base(Base::Bin),
            Some(Format::Decimal) => self.with_base(Base::Dec),
            Some(Format::Hex) => self.with_base(Base::Hex),
            Some(Format::Octal) => self.with_base(Base::Oct),
            Some(Format::Compact) => self.with_compact(true),
            Some(Format::HexStr) => self.with_bytesformat(BytesFormat::HexStr),
            Some(Format::Hexdump) => self.with_bytesformat(BytesFormat::Hexdump),
            Some(Format::Xxd) => self.with_bytesformat(BytesFormat::Xxd),
            None => *self,
        }
    }

    /// Resolves the directive for a member: asks the hook, if one is active,
    /// and gives the context for the member's subtree.
    pub fn resolve<H: Annotate + ?Sized>(
        &self,
        hook: Option<&H>,
        variant: Option<&str>,
        field: &MemberId,
    ) -> (r: Self)
        ensures
            exists|directive: Option<Format>| #[trigger]
                may_format(hook, variant, field, directive) && r == self.directed(directive),
    {
        let directive = match hook {
            Some(h) => h.format(variant, field),
            None => None,
        };
        assert(may_format(hook, variant, field, directive));
        self.with_format(directive)
    }

    /// Runs `f` on the context for a member's subtree, as `resolve` gives it.
    pub fn annotate<H: Annotate + ?Sized, T, F: FnOnce(AnnotatedSerializer) -> T>(
        &self,
        hook: Option<&H>,
        variant: Option<&str>,
        field: &MemberId,
        f: F,
    ) -> (r: T)
        requires
            forall|directive: Option<Format>| #[trigger]
                may_format(hook, variant, field, directive) ==> f.requires(
                    (self.directed(directive),),
                ),
        ensures
            exists|directive: Option<Format>| #[trigger]
                may_format(hook, variant, field, directive) && f.ensures(
                    (self.directed(directive),),
                    r,
                ),
    {
        f(self.resolve(hook, variant, field))
    }

    /// The comment node for a member: what the hook answers, if one is active
    /// and has a comment for the member.
    pub fn comment<H: Annotate + ?Sized>(
        &self,
        hook: Option<&H>,
        variant: Option<&str>,
        field: &MemberId,
    ) -> (r: Option<Document>)
        ensures
            exists|comment: Option<String>| #[trigger]
                may_comment(hook, variant, field, comment) && document_of(r) == comment_node(
                    string_of(comment),
                ),
    {
        let comment = match hook {
            Some(h) => h.comment(variant, field),
            None => None,
        };
        assert(may_comment(hook, variant, field, comment));
        let ghost text = string_of(comment);
        let r = match comment {
            Some(text) => Some(Document::Comment(text, CommentFormat::Standard)),
            None => None,
        };
        assert(document_of(r) == comment_node(text));
        r
    }

    pub fn serialize_bool(&self, v: bool) -> (r: Document)
        ensures
            r@ == DocumentView::Boolean(v),
    {
        Document::Boolean(v)
    }

    pub fn serialize_i8(&self, v: i8) -> (r: Document)
        ensures
            r@ == DocumentView::Int(v as int, self.base),
    {
        Document::Int(Int::from_signed(v as i128, self.base))
    }

    pub fn serialize_i16(&self, v: i16) -> (r: Document)
        ensures
            r@ == DocumentView::Int(v as int, self.base),
    {
        Document::Int(Int::from_signed(v as i128, self.base))
    }

    pub fn serialize_i32(&self, v: i32) -> (r: Document)
        ensures
            r@ == DocumentView::Int(v as int, self.base),
    {
        Document::Int(Int::from_signed(v as i128, self.base))
    }

    pub fn serialize_i64(&self, v: i64) -> (r: Document)
        ensures
            r@ == DocumentView::Int(v as int, self.base),
    {
        Document::Int(Int::from_signed(v as i128, self.base))
    }

    pub fn serialize_i128(&self, v: i128) -> (r: Document)
        ensures
            r@ == DocumentView::Int(v as int, self.base),
    {
        Document::Int(Int::from_signed(v, self.base))
    }

    pub fn serialize_u8(&self, v: u8) -> (r: Document)
        ensures
            r@ == DocumentView::Int(v as int, self.base),
    {
        Document::Int(Int::from_unsigned(v as u128, self.base))
    }

    pub fn serialize_u16(&self, v: u16) -> (r: Document)
        ensures
            r@ == DocumentView::Int(v as int, self.base),
    {
        Document::Int(Int::from_unsigned(v as u128, self.base))
    }

    pub fn serialize_u32(&self, v: u32) -> (r: Document)
        ensures
            r@ == DocumentView::Int(v as int, self.base),
    {
        Document::Int(Int::from_unsigned(v as u128, self.base))
    }

    pub fn serialize_u64(&self, v: u64) -> (r: Document)
        ensures
            r@ == DocumentView::Int(v as int, self.base),
    {
        Document::Int(Int::from_unsigned(v as u128, self.base))
    }

    pub fn serialize_u128(&self, v: u128) -> (r: Document)
        ensures
            r@ == DocumentView::Int(v as int, self.base),
    {
        Document::Int(Int::from_unsigned(v, self.base))
    }

    /// A floating-point number, given as the bit pattern of its IEEE 754
    /// binary64 form.
    pub fn serialize_f64(&self, bits: u64) -> (r: Document)
        ensures
            r@ == DocumentView::Float(bits),
    {
        Document::Float(bits)
    }

    pub fn serialize_char(&self, v: char) -> (r: Document)
        ensures
            r@ == DocumentView::String(seq![v], self.strformat),
    {
        let mut text = String::new();
        push_char(&mut text, v);
        assert(text@ =~= seq![v]);
        Document::String(text, self.strformat)
    }

    pub fn serialize_str(&self, v: &str) -> (r: Document)
        ensures
            r@ == DocumentView::String(v@, self.strformat),
    {
        Document::String(String::from_str(v), self.strformat)
    }

    pub fn serialize_bytes(&self, v: &[u8]) -> (r: Document)
        ensures
            r@ == bytes_document(v@, self.bytesformat),
    {
        match hexdump::to_string(v, self.bytesformat) {
            Some(string) => Document::String(
                string,
                match self.bytesformat {
                    BytesFormat::HexStr => StrFormat::Standard,
                    _ => StrFormat::Multiline,
                },
            ),
            None => Document::Bytes(slice_to_vec(v)),
        }
    }

    pub fn serialize_none(&self) -> (r: Document)
        ensures
            r@ == DocumentView::Null,
    {
        Document::Null
    }

    /// A present optional value: the value itself, in this context.
    pub fn serialize_some<T, F: FnOnce(AnnotatedSerializer) -> T>(&self, value: F) -> (r: T)
        requires
            value.requires((*self,)),
        ensures
            value.ensures((*self,), r),
    {
        value(*self)
    }

    pub fn serialize_unit(&self) -> (r: Document)
        ensures
            r@ == DocumentView::Null,
    {
        Document::Null
    }

    pub fn serialize_unit_struct(&self, _name: &str) -> (r: Document)
        ensures
            r@ == DocumentView::Null,
    {
        Document::Null
    }

    /// A variant without a payload: its name, as a string in this context.
    /// It gets no comment.
    pub fn serialize_unit_variant(&self, _name: &str, _variant_index: u32, variant: &str) -> (r:
        Document)
        ensures
            r@ == DocumentView::String(variant@, self.strformat),
    {
        self.serialize_str(variant)
    }

    /// A struct around one value: that value, under the directive declared
    /// for member 0. It gets no comment and no level of its own.
    pub fn serialize_newtype_struct<
        H: Annotate + ?Sized,
        F: FnOnce(AnnotatedSerializer) -> Result<Document, Error>,
    >(&self, hook: Option<&H>, _name: &str, value: F) -> (r: Result<Document, Error>)
        requires
            forall|directive: Option<Format>| #[trigger]
                may_format(hook, None, &MemberId::Index(0), directive) ==> value.requires(
                    (self.directed(directive),),
                ),
        ensures
            exists|directive: Option<Format>| #[trigger]
                may_format(hook, None, &MemberId::Index(0), directive) && value.ensures(
                    (self.directed(directive),),
                    r,
                ),
    {
        let field = MemberId::Index(0);
        self.annotate(hook, None, &field, value)
    }

    /// A variant around one value: a mapping with one entry, from the
    /// variant's name to the value. The value is built under the directive
    /// declared for the variant, and marked for one-line rendering where that
    /// context is compact. It gets no comment.
    pub fn serialize_newtype_variant<
        H: Annotate + ?Sized,
        F: FnOnce(AnnotatedSerializer) -> Result<Document, Error>,
    >(
        &self,
        hook: Option<&H>,
        _name: &str,
        _variant_index: u32,
        variant: &str,
        value: F,
    ) -> (r: Result<Document, Error>)
        requires
            forall|directive: Option<Format>| #[trigger]
                may_format(hook, Some(variant), &MemberId::Variant, directive) ==> value.requires(
                    (self.directed(directive),),
                ),
        ensures
            exists|directive: Option<Format>| #[trigger]
                may_format(hook, Some(variant), &MemberId::Variant, directive) && match r {
                    Ok(d) => exists|node: Document| #[trigger]
                        value.ensures((self.directed(directive),), Ok(node)) && d@
                            == variant_document(
                            None,
                            variant@,
                            compacted(self.directed(directive).compact, node@),
                        ),
                    Err(e) => value.ensures((self.directed(directive),), Err(e)),
                },
    {
        let ser = self.resolve(hook, Some(variant), &MemberId::Variant);
        match value(ser) {
            Ok(node) => Ok(
                Document::variant(None, variant, Document::compacted(ser.compact, node)),
            ),
            Err(e) => Err(e),
        }
    }

    pub fn serialize_seq(&self, _len: Option<usize>) -> (r: Result<SerializeSeq, Error>)
        ensures
            r matches Ok(b) && b.context() == *self && b.items() == Seq::<DocumentView>::empty(),
    {
        Ok(SerializeSeq::new(self))
    }

    pub fn serialize_tuple(&self, _len: usize) -> (r: Result<SerializeTuple, Error>)
        ensures
            r matches Ok(b) && b.context() == *self && b.items() == Seq::<DocumentView>::empty(),
    {
        Ok(SerializeTuple::new(self))
    }

    pub fn serialize_tuple_struct(&self, _name: &str, _len: usize) -> (r: Result<
        SerializeTupleStruct,
        Error,
    >)
        ensures
            r matches Ok(b) && b.context() == *self && b.items() == Seq::<DocumentView>::empty()
                && b.index() == 0,
    {
        Ok(SerializeTupleStruct::new(self))
    }

    pub fn serialize_tuple_variant<'v>(
        &self,
        _name: &str,
        _variant_index: u32,
        variant: &'v str,
        _len: usize,
    ) -> (r: Result<SerializeTupleVariant<'v>, Error>)
        ensures
            r matches Ok(b) && b.context() == *self && b.items() == Seq::<DocumentView>::empty()
                && b.index() == 0 && b.variant() == variant,
    {
        Ok(SerializeTupleVariant::new(self, variant))
    }

    pub fn serialize_map(&self, _len: Option<usize>) -> (r: Result<SerializeMap, Error>)
        ensures
            r matches Ok(b) && b.context() == *self && b.entries() == Seq::<DocumentView>::empty()
                && b.next_key() is None,
    {
        Ok(SerializeMap::new(self))
    }

    pub fn serialize_struct(&self, _name: &str, _len: usize) -> (r: Result<SerializeStruct, Error>)
        ensures
            r matches Ok(b) && b.context() == *self && b.entries() == Seq::<DocumentView>::empty(),
    {
        Ok(SerializeStruct::new(self))
    }

    pub fn serialize_struct_variant<'v>(
        &self,
        _name: &str,
        _variant_index: u32,
        variant: &'v str,
        _len: usize,
    ) -> (r: Result<SerializeStructVariant<'v>, Error>)
        ensures
            r matches Ok(b) && b.context() == *self && b.entries() == Seq::<DocumentView>::empty()
                && b.variant() == variant,
    {
        Ok(SerializeStructVariant::new(self, variant))
    }
}

/// A sequence under construction.
pub struct SerializeSeq {
    serializer: AnnotatedSerializer,
    sequence: Vec<Document>,
}

impl SerializeSeq {
    /// The context the elements are built in.
    pub closed spec fn context(&self) -> AnnotatedSerializer {
        self.serializer
    }

    /// The elements so far.
    pub closed spec fn items(&self) -> Seq<DocumentView> {
        views(self.sequence@)
    }

    pub fn new(s: &AnnotatedSerializer) -> (r: Self)
        ensures
            r.context() == *s,
            r.items() == Seq::<DocumentView>::empty(),
    {
        let r = SerializeSeq { serializer: *s, sequence: Vec::new() };
        assert(r.items() =~= Seq::<DocumentView>::empty());
        r
    }

    /// Builds the next element in the sequence's own context and appends it.
    /// Where the element fails, its error is handed on and the sequence stays
    /// as it was.
    pub fn serialize_element<F: FnOnce(AnnotatedSerializer) -> Result<Document, Error>>(
        &mut self,
        value: F,
    ) -> (r: Result<(), Error>)
        requires
            value.requires((old(self).context(),)),
        ensures
            final(self).context() == old(self).context(),
            match r {
                Ok(_) => exists|node: Document|
                    value.ensures((old(self).context(),), Ok(node)) && final(self).items() == old(
                        self,
                    ).items().push(node@),
                Err(e) => value.ensures((old(self).context(),), Err(e)) && final(self).items()
                    == old(self).items(),
            },
    {
        match value(self.serializer) {
            Ok(node) => {
                proof {
                    lemma_views_push(self.sequence@, node);
                }
                self.sequence.push(node);
                Ok(())
            },
            Err(e) => Err(e),
        }
    }

    /// The finished sequence.
    pub fn end(self) -> (r: Result<Document, Error>)
        ensures
            r matches Ok(d) && d@ == DocumentView::Sequence(self.items()),
    {
        Ok(Document::Sequence(self.sequence))
    }
}

/// A tuple under construction.
pub struct SerializeTuple {
    serializer: AnnotatedSerializer,
    sequence: Vec<Document>,
}

impl SerializeTuple {
    /// The context the elements are built in.
    pub closed spec fn context(&self) -> AnnotatedSerializer {
        self.serializer
    }

    /// The elements so far.
    pub closed spec fn items(&self) -> Seq<DocumentView> {
        views(self.sequence@)
    }

    pub fn new(s: &AnnotatedSerializer) -> (r: Self)
        ensures
            r.context() == *s,
            r.items() == Seq::<DocumentView>::empty(),
    {
        let r = SerializeTuple { serializer: *s, sequence: Vec::new() };
        assert(r.items() =~= Seq::<DocumentView>::empty());
        r
    }

    /// Builds the next element in the tuple's own context and appends it.
    /// Where the element fails, its error is handed on and the tuple stays as
    /// it was.
    pub fn serialize_element<F: FnOnce(AnnotatedSerializer) -> Result<Document, Error>>(
        &mut self,
        value: F,
    ) -> (r: Result<(), Error>)
        requires
            value.requires((old(self).context(),)),
        ensures
            final(self).context() == old(self).context(),
            match r {
                Ok(_) => exists|node: Document|
                    value.ensures((old(self).context(),), Ok(node)) && final(self).items() == old(
                        self,
                    ).items().push(node@),
                Err(e) => value.ensures((old(self).context(),), Err(e)) && final(self).items()
                    == old(self).items(),
            },
    {
        match value(self.serializer) {
            Ok(node) => {
                proof {
                    lemma_views_push(self.sequence@, node);
                }
                self.sequence.push(node);
                Ok(())
            },
            Err(e) => Err(e),
        }
    }

    /// The finished tuple, a sequence.
    pub fn end(self) -> (r: Result<Document, Error>)
        ensures
            r matches Ok(d) && d@ == DocumentView::Sequence(self.items()),
    {
        Ok(Document::Sequence(self.sequence))
    }
}

/// A tuple struct under construction. Its members are known by position.
pub struct SerializeTupleStruct {
    serializer: AnnotatedSerializer,
    index: u32,
    sequence: Vec<Document>,
}

impl SerializeTupleStruct {
    /// The context the struct was met in.
    pub closed spec fn context(&self) -> AnnotatedSerializer {
        self.serializer
    }

    /// The members so far.
    pub closed spec fn items(&self) -> Seq<DocumentView> {
        views(self.sequence@)
    }

    /// The position of the next member.
    pub closed spec fn index_spec(&self) -> u32 {
        self.index
    }

    /// The position of the next member.
    #[verifier::when_used_as_spec(index_spec)]
    pub fn index(&self) -> (r: u32)
        ensures
            r == self.index(),
    {
        self.index
    }

    pub fn new(s: &AnnotatedSerializer) -> (r: Self)
        ensures
            r.context() == *s,
            r.items() == Seq::<DocumentView>::empty(),
            r.index() == 0,
    {
        let r = SerializeTupleStruct { serializer: *s, index: 0, sequence: Vec::new() };
        assert(r.items() =~= Seq::<DocumentView>::empty());
        r
    }

    /// Builds the next member under the directive declared for its position
    /// and appends it, behind its comment where one is declared. Where the
    /// member fails, its error is handed on and nothing changes.
    pub fn serialize_field<
        H: Annotate + ?Sized,
        F: FnOnce(AnnotatedSerializer) -> Result<Document, Error>,
    >(&mut self, hook: Option<&H>, value: F) -> (r: Result<(), Error>)
        requires
            old(self).index() < u32::MAX,
            forall|directive: Option<Format>| #[trigger]
                may_format(hook, None, &MemberId::Index(old(self).index()), directive)
                    ==> value.requires((old(self).context().directed(directive),)),
        ensures
            final(self).context() == old(self).context(),
            final(self).index() == old(self).index() + if r is Ok {
                1int
            } else {
                0int
            },
            positional_outcome(
                old(self).context(),
                hook,
                None,
                old(self).index(),
                value,
                old(self).items(),
                final(self).items(),
                r,
            ),
    {
        let field = MemberId::Index(self.index);
        match self.serializer.annotate(hook, None, &field, value) {
            Ok(node) => {
                let item = Document::commented(self.serializer.comment(hook, None, &field), node);
                proof {
                    lemma_views_push(self.sequence@, item);
                }
                self.sequence.push(item);
                self.index += 1;
                Ok(())
            },
            Err(e) => Err(e),
        }
    }

    /// The finished struct, a sequence.
    pub fn end(self) -> (r: Result<Document, Error>)
        ensures
            r matches Ok(d) && d@ == DocumentView::Sequence(self.items()),
    {
        Ok(Document::Sequence(self.sequence))
    }
}

/// A tuple variant under construction. Its members are known by position
/// within the variant.
pub struct SerializeTupleVariant<'v> {
    serializer: AnnotatedSerializer,
    variant: &'v str,
    index: u32,
    sequence: Vec<Document>,
}

impl<'v> SerializeTupleVariant<'v> {
    /// The context the variant was met in.
    pub closed spec fn context(&self) -> AnnotatedSerializer {
        self.serializer
    }

    /// The name of the variant.
    pub closed spec fn variant(&self) -> &'v str {
        self.variant
    }

    /// The members so far.
    pub closed spec fn items(&self) -> Seq<DocumentView> {
        views(self.sequence@)
    }

    /// The position of the next member.
    pub closed spec fn index_spec(&self) -> u32 {
        self.index
    }

    /// The position of the next member.
    #[verifier::when_used_as_spec(index_spec)]
    pub fn index(&self) -> (r: u32)
        ensures
            r == self.index(),
    {
        self.index
    }

    pub fn new(s: &AnnotatedSerializer, v: &'v str) -> (r: Self)
        ensures
            r.context() == *s,
            r.variant() == v,
            r.items() == Seq::<DocumentView>::empty(),
            r.index() == 0,
    {
        let r = SerializeTupleVariant { serializer: *s, variant: v, index: 0, sequence: Vec::new() };
        assert(r.items() =~= Seq::<DocumentView>::empty());
        r
    }

    /// Builds the next member under the directive declared for its position
    /// in this variant and appends it, behind its comment where one is
    /// declared. Where the member fails, its error is handed on and nothing
    /// changes.
    pub fn serialize_field<
        H: Annotate + ?Sized,
        F: FnOnce(AnnotatedSerializer) -> Result<Document, Error>,
    >(&mut self, hook: Option<&H>, value: F) -> (r: Result<(), Error>)
        requires
            old(self).index() < u32::MAX,
            forall|directive: Option<Format>| #[trigger]
                may_format(
                    hook,
                    Some(old(self).variant()),
                    &MemberId::Index(old(self).index()),
                    directive,
                ) ==> value.requires((old(self).context().directed(directive),)),
        ensures
            final(self).context() == old(self).context(),
            final(self).variant() == old(self).variant(),
            final(self).index() == old(self).index() + if r is Ok {
                1int
            } else {
                0int
            },
            positional_outcome(
                old(self).context(),
                hook,
                Some(old(self).variant()),
                old(self).index(),
                value,
                old(self).items(),
                final(self).items(),
                r,
            ),
    {
        let field = MemberId::Index(self.index);
        assert forall|directive: Option<Format>| #[trigger]
            may_format(hook, Some(self.variant), &field, directive) implies value.requires(
            (self.serializer.directed(directive),),
        ) by {
            assert(may_format(
                hook,
                Some(old(self).variant()),
                &MemberId::Index(old(self).index()),
                directive,
            ));
        }
        match self.serializer.annotate(hook, Some(self.variant), &field, value) {
            Ok(node) => {
                let item = Document::commented(
                    self.serializer.comment(hook, Some(self.variant), &field),
                    node,
                );
                proof {
                    lemma_views_push(self.sequence@, item);
                }
                self.sequence.push(item);
                self.index += 1;
                Ok(())
            },
            Err(e) => Err(e),
        }
    }

    /// The finished variant: a mapping with one entry, from the variant's
    /// name to the sequence of its members, behind the variant's comment
    /// where one is declared. The sequence is marked for one-line rendering
    /// where the context under the variant's directive is compact.
    pub fn end<H: Annotate + ?Sized>(self, hook: Option<&H>) -> (r: Result<Document, Error>)
        ensures
            variant_outcome(
                self.context(),
                hook,
                self.variant(),
                DocumentView::Sequence(self.items()),
                r,
            ),
    {
        let ser = self.serializer.resolve(hook, Some(self.variant), &MemberId::Variant);
        let comment = self.serializer.comment(hook, Some(self.variant), &MemberId::Variant);
        let sequence = Document::compacted(ser.compact, Document::Sequence(self.sequence));
        Ok(Document::variant(comment, self.variant, sequence))
    }
}

/// A map under construction. Keys and values come in turn, or in pairs; the
/// hook is not consulted for them.
pub struct SerializeMap {
    serializer: AnnotatedSerializer,
    next_key: Option<Document>,
    mapping: Vec<Document>,
}

impl SerializeMap {
    /// The context keys and values are built in.
    pub closed spec fn context(&self) -> AnnotatedSerializer {
        self.serializer
    }

    /// The entries so far.
    pub closed spec fn entries(&self) -> Seq<DocumentView> {
        views(self.mapping@)
    }

    /// The key that waits for its value, if one does.
    pub closed spec fn next_key(&self) -> Option<DocumentView> {
        document_of(self.next_key)
    }

    /// Whether a key waits for its value.
    pub fn has_key(&self) -> (r: bool)
        ensures
            r == self.next_key() is Some,
    {
        self.next_key.is_some()
    }

    pub fn new(s: &AnnotatedSerializer) -> (r: Self)
        ensures
            r.context() == *s,
            r.entries() == Seq::<DocumentView>::empty(),
            r.next_key() is None,
    {
        let r = SerializeMap { serializer: *s, next_key: None, mapping: Vec::new() };
        assert(r.entries() =~= Seq::<DocumentView>::empty());
        r
    }

    /// The finished map. A key that still waits for its value is dropped.
    pub fn end(self) -> (r: Result<Document, Error>)
        ensures
            r matches Ok(d) && d@ == DocumentView::Mapping(self.entries()),
    {
        Ok(Document::Mapping(self.mapping))
    }

    /// Builds a key and keeps it for the value that follows. No key may be
    /// waiting. Where the key fails, its error is handed on and nothing
    /// changes.
    pub fn serialize_key<F: FnOnce(AnnotatedSerializer) -> Result<Document, Error>>(
        &mut self,
        key: F,
    ) -> (r: Result<(), Error>)
        requires
            old(self).next_key() is None,
            key.requires((old(self).context(),)),
        ensures
            final(self).context() == old(self).context(),
            final(self).entries() == old(self).entries(),
            match r {
                Ok(_) => exists|node: Document|
                    key.ensures((old(self).context(),), Ok(node)) && final(self).next_key() == Some(
                        node@,
                    ),
                Err(e) => key.ensures((old(self).context(),), Err(e)) && final(self).next_key()
                    is None,
            },
    {
        match key(self.serializer) {
            Ok(node) => {
                self.next_key = Some(node);
                Ok(())
            },
            Err(e) => Err(e),
        }
    }

    /// Builds the value for the key that waits and appends the pair. A key
    /// must be waiting; it is used up, also where the value fails. Where the
    /// value fails, its error is handed on and no entry is added.
    pub fn serialize_value<F: FnOnce(AnnotatedSerializer) -> Result<Document, Error>>(
        &mut self,
        value: F,
    ) -> (r: Result<(), Error>)
        requires
            old(self).next_key() is Some,
            value.requires((old(self).context(),)),
        ensures
            final(self).context() == old(self).context(),
            final(self).next_key() is None,
            match r {
                Ok(_) => exists|node: Document|
                    value.ensures((old(self).context(),), Ok(node)) && final(self).entries() == old(
                        self,
                    ).entries().push(entry(None, old(self).next_key()->0, node@)),
                Err(e) => value.ensures((old(self).context(),), Err(e)) && final(self).entries()
                    == old(self).entries(),
            },
    {
        match self.next_key.take() {
            Some(key) => match value(self.serializer) {
                Ok(node) => {
                    let pair = Document::entry(None, key, node);
                    proof {
                        lemma_views_push(self.mapping@, pair);
                    }
                    self.mapping.push(pair);
                    Ok(())
                },
                Err(e) => Err(e),
            },
            None => Ok(()),
        }
    }

    /// Builds a key and then its value, and appends the pair. Where either
    /// fails, its error is handed on and no entry is added; the value is not
    /// built where the key failed. A key that waits is left waiting.
    pub fn serialize_entry<
        K: FnOnce(AnnotatedSerializer) -> Result<Document, Error>,
        V: FnOnce(AnnotatedSerializer) -> Result<Document, Error>,
    >(&mut self, key: K, value: V) -> (r: Result<(), Error>)
        requires
            key.requires((old(self).context(),)),
            value.requires((old(self).context(),)),
        ensures
            final(self).context() == old(self).context(),
            final(self).next_key() == old(self).next_key(),
            match r {
                Ok(_) => exists|k: Document, v: Document|
                    key.ensures((old(self).context(),), Ok(k)) && value.ensures(
                        (old(self).context(),),
                        Ok(v),
                    ) && final(self).entries() == old(self).entries().push(entry(None, k@, v@)),
                Err(e) => final(self).entries() == old(self).entries() && (key.ensures(
                    (old(self).context(),),
                    Err(e),
                ) || exists|k: Document|
                    key.ensures((old(self).context(),), Ok(k)) && value.ensures(
                        (old(self).context(),),
                        Err(e),
                    )),
            },
    {
        match key(self.serializer) {
            Ok(k) => match value(self.serializer) {
                Ok(v) => {
                    let ghost built = (k, v);
                    let pair = Document::entry(None, k, v);
                    proof {
                        lemma_views_push(self.mapping@, pair);
                    }
                    self.mapping.push(pair);
                    assert(key.ensures((old(self).context(),), Ok(built.0)) && value.ensures(
                        (old(self).context(),),
                        Ok(built.1),
                    ) && self.entries() == old(self).entries().push(
                        entry(None, built.0@, built.1@),
                    ));
                    Ok(())
                },
                Err(e) => Err(e),
            },
            Err(e) => Err(e),
        }
    }
}

/// A struct with named fields under construction.
pub struct SerializeStruct {
    serializer: AnnotatedSerializer,
    mapping: Vec<Document>,
}

impl SerializeStruct {
    /// The context the struct was met in.
    pub closed spec fn context(&self) -> AnnotatedSerializer {
        self.serializer
    }

    /// The entries so far, one for each field.
    pub closed spec fn entries(&self) -> Seq<DocumentView> {
        views(self.mapping@)
    }

    pub fn new(s: &AnnotatedSerializer) -> (r: Self)
        ensures
            r.context() == *s,
            r.entries() == Seq::<DocumentView>::empty(),
    {
        let r = SerializeStruct { serializer: *s, mapping: Vec::new() };
        assert(r.entries() =~= Seq::<DocumentView>::empty());
        r
    }

    /// The finished struct: a mapping of its fields in the order they came.
    pub fn end(self) -> (r: Result<Document, Error>)
        ensures
            r matches Ok(d) && d@ == DocumentView::Mapping(self.entries()),
    {
        Ok(Document::Mapping(self.mapping))
    }

    /// Builds the value of field `key` under the directive declared for the
    /// field and appends the entry `[comment, key, value]`, the comment only
    /// where one is declared. Where the value fails, its error is handed on
    /// and nothing changes.
    pub fn serialize_field<
        H: Annotate + ?Sized,
        F: FnOnce(AnnotatedSerializer) -> Result<Document, Error>,
    >(&mut self, hook: Option<&H>, key: &str, value: F) -> (r: Result<(), Error>)
        requires
            forall|directive: Option<Format>| #[trigger]
                may_format(hook, None, &MemberId::Name(key), directive) ==> value.requires(
                    (old(self).context().directed(directive),),
                ),
        ensures
            final(self).context() == old(self).context(),
            named_outcome(
                old(self).context(),
                hook,
                None,
                key,
                value,
                old(self).entries(),
                final(self).entries(),
                r,
            ),
    {
        let field = MemberId::Name(key);
        let comment = self.serializer.comment(hook, None, &field);
        match self.serializer.annotate(hook, None, &field, value) {
            Ok(node) => {
                let item = Document::entry(comment, Document::string(key), node);
                proof {
                    lemma_views_push(self.mapping@, item);
                }
                self.mapping.push(item);
                Ok(())
            },
            Err(e) => Err(e),
        }
    }
}

/// A struct variant under construction.
pub struct SerializeStructVariant<'v> {
    serializer: AnnotatedSerializer,
    variant: &'v str,
    mapping: Vec<Document>,
}

impl<'v> SerializeStructVariant<'v> {
    /// The context the variant was met in.
    pub closed spec fn context(&self) -> AnnotatedSerializer {
        self.serializer
    }

    /// The name of the variant.
    pub closed spec fn variant(&self) -> &'v str {
        self.variant
    }

    /// The entries so far, one for each field.
    pub closed spec fn entries(&self) -> Seq<DocumentView> {
        views(self.mapping@)
    }

    pub fn new(s: &AnnotatedSerializer, v: &'v str) -> (r: Self)
        ensures
            r.context() == *s,
            r.variant() == v,
            r.entries() == Seq::<DocumentView>::empty(),
    {
        let r = SerializeStructVariant { serializer: *s, variant: v, mapping: Vec::new() };
        assert(r.entries() =~= Seq::<DocumentView>::empty());
        r
    }

    /// The finished variant: a mapping with one entry, from the variant's
    /// name to the mapping of its fields, behind the variant's comment where
    /// one is declared. The inner mapping is marked for one-line rendering
    /// where the context under the variant's directive is compact.
    pub fn end<H: Annotate + ?Sized>(self, hook: Option<&H>) -> (r: Result<Document, Error>)
        ensures
            variant_outcome(
                self.context(),
                hook,
                self.variant(),
                DocumentView::Mapping(self.entries()),
                r,
            ),
    {
        let ser = self.serializer.resolve(hook, Some(self.variant), &MemberId::Variant);
        let comment = self.serializer.comment(hook, Some(self.variant), &MemberId::Variant);
        let mapping = Document::compacted(ser.compact, Document::Mapping(self.mapping));
        Ok(Document::variant(comment, self.variant, mapping))
    }

    /// Builds the value of field `key` under the directive declared for the
    /// field in this variant and appends the entry `[comment, key, value]`,
    /// the comment only where one is declared. Where the value fails, its
    /// error is handed on and nothing changes.
    pub fn serialize_field<
        H: Annotate + ?Sized,
        F: FnOnce(AnnotatedSerializer) -> Result<Document, Error>,
    >(&mut self, hook: Option<&H>, key: &str, value: F) -> (r: Result<(), Error>)
        requires
            forall|directive: Option<Format>| #[trigger]
                may_format(hook, Some(old(self).variant()), &MemberId::Name(key), directive)
                    ==> value.requires((old(self).context().directed(directive),)),
        ensures
            final(self).context() == old(self).context(),
            final(self).variant() == old(self).variant(),
            named_outcome(
                old(self).context(),
                hook,
                Some(old(self).variant()),
                key,
                value,
                old(self).entries(),
                final(self).entries(),
                r,
            ),
    {
        let field = MemberId::Name(key);
        let comment = self.serializer.comment(hook, Some(self.variant), &field);
        match self.serializer.annotate(hook, Some(self.variant), &field, value) {
            Ok(node) => {
                let item = Document::entry(comment, Document::string(key), node);
                proof {
                    lemma_views_push(self.mapping@, item);
                }
                self.mapping.push(item);
                Ok(())
            },
            Err(e) => Err(e),
        }
    }
}

} // verus!
