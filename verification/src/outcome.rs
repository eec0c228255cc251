//! What a step of the traversal may come to.
//!
//! A step asks the hook and runs the value it is handed, and neither is known
//! to the engine. The predicates here say how the result of the step hangs
//! together with whatever the hook answered and whatever the value built.

use vstd::prelude::*;
use crate::annotate::{Annotate, Format, MemberId, may_comment, may_format, string_of};
use crate::document::{Document, DocumentView, commented, compacted, entry, name_node, variant_document};
use crate::error::Error;
use crate::ser::AnnotatedSerializer;

verus! {

/// What building a positional member may come to: the member was built
/// under a directive the hook may give for its position and, where that went
/// well, appended behind a comment the hook may give; where it failed, the
/// error is the member's own and nothing was appended.
pub open spec fn positional_outcome<H: Annotate + ?Sized, F: FnOnce(AnnotatedSerializer) -> Result<Document, Error>>(
    context: AnnotatedSerializer,
    hook: Option<&H>,
    variant: Option<&str>,
    index: u32,
    value: F,
    before: Seq<DocumentView>,
    after: Seq<DocumentView>,
    r: Result<(), Error>,
) -> bool {
    exists|directive: Option<Format>| #[trigger]
        may_format(hook, variant, &MemberId::Index(index), directive) && match r {
            Ok(_) => exists|comment: Option<String>, node: Document|
                #![trigger may_comment(hook, variant, &MemberId::Index(index), comment), value.ensures((context.directed(directive),), Ok(node))]
                may_comment(hook, variant, &MemberId::Index(index), comment) && value.ensures(
                    (context.directed(directive),),
                    Ok(node),
                ) && after == before.push(commented(string_of(comment), node@)),
            Err(e) => value.ensures((context.directed(directive),), Err(e)) && after == before,
        }
}

/// What building a named field may come to: the hook was asked for the
/// field's comment and directive, the value was built under that directive
/// and, where that went well, the entry `[comment, key, value]` was appended;
/// where it failed, the error is the value's own and nothing was appended.
pub open spec fn named_outcome<H: Annotate + ?Sized, F: FnOnce(AnnotatedSerializer) -> Result<Document, Error>>(
    context: AnnotatedSerializer,
    hook: Option<&H>,
    variant: Option<&str>,
    key: &str,
    value: F,
    before: Seq<DocumentView>,
    after: Seq<DocumentView>,
    r: Result<(), Error>,
) -> bool {
    exists|comment: Option<String>, directive: Option<Format>|
        #![trigger may_comment(hook, variant, &MemberId::Name(key), comment), may_format(hook, variant, &MemberId::Name(key), directive)]
        may_comment(hook, variant, &MemberId::Name(key), comment) && may_format(
            hook,
            variant,
            &MemberId::Name(key),
            directive,
        ) && match r {
            Ok(_) => exists|node: Document| #[trigger]
                value.ensures((context.directed(directive),), Ok(node)) && after == before.push(
                    entry(string_of(comment), name_node(key@), node@),
                ),
            Err(e) => value.ensures((context.directed(directive),), Err(e)) && after == before,
        }
}

/// What finishing a variant with a payload comes to: a mapping with one
/// entry, from the variant's name to the payload, behind a comment the hook
/// may give for the variant. The payload is marked for one-line rendering
/// where the context under a directive the hook may give for the variant is
/// compact.
pub open spec fn variant_outcome<H: Annotate + ?Sized>(
    context: AnnotatedSerializer,
    hook: Option<&H>,
    variant: &str,
    payload: DocumentView,
    r: Result<Document, Error>,
) -> bool {
    exists|directive: Option<Format>, comment: Option<String>|
        #![trigger may_format(hook, Some(variant), &MemberId::Variant, directive), may_comment(hook, Some(variant), &MemberId::Variant, comment)]
        may_format(hook, Some(variant), &MemberId::Variant, directive) && may_comment(
            hook,
            Some(variant),
            &MemberId::Variant,
            comment,
        ) && (r matches Ok(d) && d@ == variant_document(
            string_of(comment),
            variant@,
            compacted(context.directed(directive).compact, payload),
        ))
}

} // verus!
