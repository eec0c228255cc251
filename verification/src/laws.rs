//! What holds of every traversal.

use vstd::prelude::*;
use crate::annotate::{Annotate, Format, MemberId, is_silent, may_comment, may_format, string_of};
use crate::document::{
    BytesFormat, Document, DocumentView, commented, compacted, entry, lemma_commented_well_formed,
    lemma_compacted_well_formed, lemma_entry_well_formed, lemma_mapping_push, lemma_sequence_push,
    lemma_variant_well_formed, name_node, variant_document,
};
use crate::error::Error;
use crate::integer::Base;
use crate::outcome::{named_outcome, positional_outcome, variant_outcome};
use crate::ser::{AnnotatedSerializer, bytes_document};

verus! {

/// The base that an integer directive asks for; none for the directives that
/// are not about integers.
pub open spec fn base_of(directive: Format) -> Option<Base> {
    match directive {
        Format::Binary => Some(Base::Bin),
        Format::Octal => Some(Base::Oct),
        Format::Decimal => Some(Base::Dec),
        Format::Hex => Some(Base::Hex),
        _ => None,
    }
}

/// An integer under a base directive: for every integer and each of the four
/// bases, the document built in the context that the directive gives holds
/// exactly that integer and exactly that base, whatever the context was
/// before. (Every `serialize_` function for an integer width gives
/// `DocumentView::Int(v, context.base)`.)
pub proof fn lemma_base_directive(context: AnnotatedSerializer, directive: Format, v: int)
    requires
        base_of(directive) is Some,
    ensures
        context.directed(Some(directive)).base == base_of(directive)->0,
        DocumentView::Int(v, context.directed(Some(directive)).base) == DocumentView::Int(
            v,
            base_of(directive)->0,
        ),
        context.directed(Some(directive)).strformat == context.strformat,
        context.directed(Some(directive)).bytesformat == context.bytesformat,
        context.directed(Some(directive)).compact == context.compact,
{
}

/// A directive only ever overrides: it sets the one setting it is about and
/// keeps the others, and no directive keeps them all. Applying a directive a
/// second time changes nothing more.
pub proof fn lemma_directive_only_overrides(context: AnnotatedSerializer, directive: Option<Format>)
    ensures
        directive is None ==> context.directed(directive) == context,
        directive is None || base_of(directive->0) is None ==> context.directed(directive).base
            == context.base,
        directive != Some(Format::Block) ==> context.directed(directive).strformat
            == context.strformat,
        directive != Some(Format::HexStr) && directive != Some(Format::Hexdump) && directive != Some(
            Format::Xxd,
        ) ==> context.directed(directive).bytesformat == context.bytesformat,
        directive != Some(Format::Compact) ==> context.directed(directive).compact
            == context.compact,
        context.directed(directive).directed(directive) == context.directed(directive),
{
}

/// A hook that declares nothing is as good as no hook, for a named field:
/// whatever building the field may come to under a silent hook, it may come
/// to with no hook at all, and what is appended is the plain pair of key and
/// value, built in the unchanged context, without a comment.
pub proof fn lemma_silent_hook_named<
    H: Annotate + ?Sized,
    F: FnOnce(AnnotatedSerializer) -> Result<Document, Error>,
>(
    context: AnnotatedSerializer,
    hook: &H,
    variant: Option<&str>,
    key: &str,
    value: F,
    before: Seq<DocumentView>,
    after: Seq<DocumentView>,
    r: Result<(), Error>,
)
    requires
        is_silent(hook),
        named_outcome(context, Some(hook), variant, key, value, before, after, r),
    ensures
        named_outcome(context, None::<&H>, variant, key, value, before, after, r),
        r is Ok ==> exists|node: Document| #[trigger]
            value.ensures((context,), Ok(node)) && after == before.push(
                DocumentView::Fragment(seq![name_node(key@), node@]),
            ),
{
    let field = MemberId::Name(key);
    let (comment, directive) = choose|comment: Option<String>, directive: Option<Format>|
        #![trigger may_comment(Some(hook), variant, &field, comment), may_format(Some(hook), variant, &field, directive)]
        may_comment(Some(hook), variant, &field, comment) && may_format(
            Some(hook),
            variant,
            &field,
            directive,
        ) && match r {
            Ok(_) => exists|node: Document| #[trigger]
                value.ensures((context.directed(directive),), Ok(node)) && after == before.push(
                    entry(string_of(comment), name_node(key@), node@),
                ),
            Err(e) => value.ensures((context.directed(directive),), Err(e)) && after == before,
        };
    assert(comment is None && directive is None);
    assert(may_comment(None::<&H>, variant, &field, comment));
    assert(may_format(None::<&H>, variant, &field, directive));
}

/// A hook that declares nothing is as good as no hook, for a positional
/// member: what is appended is the member itself, built in the unchanged
/// context, without a comment.
pub proof fn lemma_silent_hook_positional<
    H: Annotate + ?Sized,
    F: FnOnce(AnnotatedSerializer) -> Result<Document, Error>,
>(
    context: AnnotatedSerializer,
    hook: &H,
    variant: Option<&str>,
    index: u32,
    value: F,
    before: Seq<DocumentView>,
    after: Seq<DocumentView>,
    r: Result<(), Error>,
)
    requires
        is_silent(hook),
        positional_outcome(context, Some(hook), variant, index, value, before, after, r),
    ensures
        positional_outcome(context, None::<&H>, variant, index, value, before, after, r),
        r is Ok ==> exists|node: Document| #[trigger]
            value.ensures((context,), Ok(node)) && after == before.push(node@),
{
    let field = MemberId::Index(index);
    let directive = choose|directive: Option<Format>| #[trigger]
        may_format(Some(hook), variant, &field, directive) && match r {
            Ok(_) => exists|comment: Option<String>, node: Document|
                #![trigger may_comment(Some(hook), variant, &field, comment), value.ensures((context.directed(directive),), Ok(node))]
                may_comment(Some(hook), variant, &field, comment) && value.ensures(
                    (context.directed(directive),),
                    Ok(node),
                ) && after == before.push(commented(string_of(comment), node@)),
            Err(e) => value.ensures((context.directed(directive),), Err(e)) && after == before,
        };
    assert(directive is None);
    assert(may_format(None::<&H>, variant, &field, directive));
    if r is Ok {
        let (comment, node) = choose|comment: Option<String>, node: Document|
            #![trigger may_comment(Some(hook), variant, &field, comment), value.ensures((context.directed(directive),), Ok(node))]
            may_comment(Some(hook), variant, &field, comment) && value.ensures(
                (context.directed(directive),),
                Ok(node),
            ) && after == before.push(commented(string_of(comment), node@));
        assert(comment is None);
        assert(may_comment(None::<&H>, variant, &field, comment));
    }
}

/// A hook that declares nothing is as good as no hook, for a variant: the
/// outer entry holds the name and the payload and no comment, and the
/// payload is marked for one-line rendering only where the surrounding
/// context asks for it.
pub proof fn lemma_silent_hook_variant<H: Annotate + ?Sized>(
    context: AnnotatedSerializer,
    hook: &H,
    variant: &str,
    payload: DocumentView,
    r: Result<Document, Error>,
)
    requires
        is_silent(hook),
        variant_outcome(context, Some(hook), variant, payload, r),
    ensures
        variant_outcome(context, None::<&H>, variant, payload, r),
        r matches Ok(d) && d@ == variant_document(
            None,
            variant@,
            compacted(context.compact, payload),
        ),
{
    let field = MemberId::Variant;
    let (directive, comment) = choose|directive: Option<Format>, comment: Option<String>|
        #![trigger may_format(Some(hook), Some(variant), &field, directive), may_comment(Some(hook), Some(variant), &field, comment)]
        may_format(Some(hook), Some(variant), &field, directive) && may_comment(
            Some(hook),
            Some(variant),
            &field,
            comment,
        ) && (r matches Ok(d) && d@ == variant_document(
            string_of(comment),
            variant@,
            compacted(context.directed(directive).compact, payload),
        ));
    assert(directive is None && comment is None);
    assert(may_format(None::<&H>, Some(variant), &field, directive));
    assert(may_comment(None::<&H>, Some(variant), &field, comment));
}

/// A variant whose hook asks for `Compact` on the variant itself: the one
/// entry of the outer mapping ends in the payload marked for one-line
/// rendering. This holds whatever the payload is, an aggregate too, and
/// whatever the surrounding context. The mark is applied once: a payload that
/// carries it already is left as it is, and marking twice is marking once.
pub proof fn lemma_compact_variant<H: Annotate + ?Sized>(
    context: AnnotatedSerializer,
    hook: Option<&H>,
    variant: &str,
    payload: DocumentView,
    r: Result<Document, Error>,
)
    requires
        variant_outcome(context, hook, variant, payload, r),
        forall|directive: Option<Format>| #[trigger]
            may_format(hook, Some(variant), &MemberId::Variant, directive) ==> directive == Some(
                Format::Compact,
            ),
    ensures
        r matches Ok(d) && d@ is Mapping && d@->Mapping_0.len() == 1 && d@->Mapping_0[0] is Fragment
            && d@->Mapping_0[0]->Fragment_0.last() == compacted(true, payload),
        !(payload is Compact) ==> compacted(true, payload) == DocumentView::Compact(
            Box::new(payload),
        ),
        compacted(true, compacted(true, payload)) == compacted(true, payload),
{
}

/// Whether every document that `value` may build, in whatever context, is a
/// well-formed tree and not a bare comment.
pub open spec fn builds_values<F: FnOnce(AnnotatedSerializer) -> Result<Document, Error>>(
    value: F,
) -> bool {
    forall|context: AnnotatedSerializer, node: Document| #[trigger]
        value.ensures((context,), Ok(node)) ==> node@.is_value()
}

/// Building a named field keeps a mapping well-formed, as long as the field's
/// own value is built well-formed.
pub proof fn lemma_named_field_well_formed<
    H: Annotate + ?Sized,
    F: FnOnce(AnnotatedSerializer) -> Result<Document, Error>,
>(
    context: AnnotatedSerializer,
    hook: Option<&H>,
    variant: Option<&str>,
    key: &str,
    value: F,
    before: Seq<DocumentView>,
    after: Seq<DocumentView>,
    r: Result<(), Error>,
)
    requires
        named_outcome(context, hook, variant, key, value, before, after, r),
        builds_values(value),
        DocumentView::Mapping(before).well_formed(),
    ensures
        DocumentView::Mapping(after).well_formed(),
{
    let field = MemberId::Name(key);
    let (comment, directive) = choose|comment: Option<String>, directive: Option<Format>|
        #![trigger may_comment(hook, variant, &field, comment), may_format(hook, variant, &field, directive)]
        may_comment(hook, variant, &field, comment) && may_format(hook, variant, &field, directive)
            && match r {
            Ok(_) => exists|node: Document| #[trigger]
                value.ensures((context.directed(directive),), Ok(node)) && after == before.push(
                    entry(string_of(comment), name_node(key@), node@),
                ),
            Err(e) => value.ensures((context.directed(directive),), Err(e)) && after == before,
        };
    if r is Ok {
        let node = choose|node: Document| #[trigger]
            value.ensures((context.directed(directive),), Ok(node)) && after == before.push(
                entry(string_of(comment), name_node(key@), node@),
            );
        lemma_entry_well_formed(string_of(comment), name_node(key@), node@);
        lemma_mapping_push(before, entry(string_of(comment), name_node(key@), node@));
    }
}

/// Building a positional member keeps a sequence well-formed, as long as the
/// member's own value is built well-formed.
pub proof fn lemma_positional_member_well_formed<
    H: Annotate + ?Sized,
    F: FnOnce(AnnotatedSerializer) -> Result<Document, Error>,
>(
    context: AnnotatedSerializer,
    hook: Option<&H>,
    variant: Option<&str>,
    index: u32,
    value: F,
    before: Seq<DocumentView>,
    after: Seq<DocumentView>,
    r: Result<(), Error>,
)
    requires
        positional_outcome(context, hook, variant, index, value, before, after, r),
        builds_values(value),
        DocumentView::Sequence(before).well_formed(),
    ensures
        DocumentView::Sequence(after).well_formed(),
{
    let field = MemberId::Index(index);
    let directive = choose|directive: Option<Format>| #[trigger]
        may_format(hook, variant, &field, directive) && match r {
            Ok(_) => exists|comment: Option<String>, node: Document|
                #![trigger may_comment(hook, variant, &field, comment), value.ensures((context.directed(directive),), Ok(node))]
                may_comment(hook, variant, &field, comment) && value.ensures(
                    (context.directed(directive),),
                    Ok(node),
                ) && after == before.push(commented(string_of(comment), node@)),
            Err(e) => value.ensures((context.directed(directive),), Err(e)) && after == before,
        };
    if r is Ok {
        let (comment, node) = choose|comment: Option<String>, node: Document|
            #![trigger may_comment(hook, variant, &field, comment), value.ensures((context.directed(directive),), Ok(node))]
            may_comment(hook, variant, &field, comment) && value.ensures(
                (context.directed(directive),),
                Ok(node),
            ) && after == before.push(commented(string_of(comment), node@));
        lemma_commented_well_formed(string_of(comment), node@);
        lemma_sequence_push(before, commented(string_of(comment), node@));
    }
}

/// A finished variant is well-formed, as long as its payload is.
pub proof fn lemma_variant_outcome_well_formed<H: Annotate + ?Sized>(
    context: AnnotatedSerializer,
    hook: Option<&H>,
    variant: &str,
    payload: DocumentView,
    r: Result<Document, Error>,
)
    requires
        variant_outcome(context, hook, variant, payload, r),
        payload.is_value(),
    ensures
        r matches Ok(d) && d@.is_value(),
{
    let field = MemberId::Variant;
    let (directive, comment) = choose|directive: Option<Format>, comment: Option<String>|
        #![trigger may_format(hook, Some(variant), &field, directive), may_comment(hook, Some(variant), &field, comment)]
        may_format(hook, Some(variant), &field, directive) && may_comment(
            hook,
            Some(variant),
            &field,
            comment,
        ) && (r matches Ok(d) && d@ == variant_document(
            string_of(comment),
            variant@,
            compacted(context.directed(directive).compact, payload),
        ));
    let inner = compacted(context.directed(directive).compact, payload);
    lemma_compacted_well_formed(context.directed(directive).compact, payload);
    lemma_variant_well_formed(string_of(comment), variant@, inner);
}

/// A byte buffer is built well-formed, whatever the format.
pub proof fn lemma_bytes_document_well_formed(data: Seq<u8>, format: BytesFormat)
    ensures
        bytes_document(data, format).is_value(),
{
}

} // verus!
