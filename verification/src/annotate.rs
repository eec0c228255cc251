//! What a value may declare about how its members are shown.

use vstd::prelude::*;

verus! {

/// A formatting directive for one member of a struct or an enum.
#[derive(Clone, Copy, Debug, PartialEq, Eq, Structural)]
pub enum Format {
    /// Format a string in block/multiline style.
    Block,
    /// Format an integer as binary.
    Binary,
    /// Format an integer as decimal.
    Decimal,
    /// Format an integer as hexadecimal.
    Hex,
    /// Format an integer as octal.
    Octal,
    /// Format an aggregate in compact mode.
    Compact,
    /// Format a bytes object as a hex string.
    HexStr,
    /// Format a bytes object as hexdump (e.g. `hexdump -vC <file>`).
    Hexdump,
    /// Format a bytes object as xxd (e.g. `xxd <file>`).
    Xxd,
}

/// Identifies a field or variant member of a struct/enum.
#[derive(Clone, Copy, Debug)]
pub enum MemberId<'a> {
    /// A field, by its name.
    Name(&'a str),
    /// A field of a tuple, by its position, counted from zero.
    Index(u32),
    /// The variant itself, as opposed to one of its fields.
    Variant,
}

/// The mathematical value of a [`MemberId`].
pub ghost enum MemberIdView {
    Name(Seq<char>),
    Index(u32),
    Variant,
}

impl<'a> View for MemberId<'a> {
    type V = MemberIdView;

    open spec fn view(&self) -> MemberIdView {
        match self {
            MemberId::Name(name) => MemberIdView::Name(name@),
            MemberId::Index(i) => MemberIdView::Index(*i),
            MemberId::Variant => MemberIdView::Variant,
        }
    }
}

/// The text of an optional owned string.
pub open spec fn string_of(s: Option<String>) -> Option<Seq<char>> {
    match s {
        Some(s) => Some(s@),
        None => None,
    }
}

/// Implemented by a value to tell the serializer about formatting options and
/// comments for its members.
///
/// `variant` is the name of the enum variant the value is being visited as,
/// or `None` for a struct. Nothing is asked of an implementation: a member
/// that it does not know has no directive and no comment.
pub trait Annotate {
    fn format(&self, variant: Option<&str>, field: &MemberId) -> Option<Format>;

    fn comment(&self, variant: Option<&str>, field: &MemberId) -> Option<String>;
}

/// The hook of a value that declares nothing: no directive and no comment,
/// whatever is asked.
#[derive(Clone, Copy, Debug)]
pub struct Unannotated;

impl Annotate for Unannotated {
    fn format(&self, variant: Option<&str>, field: &MemberId) -> (r: Option<Format>)
        ensures
            r is None,
    {
        None
    }

    fn comment(&self, variant: Option<&str>, field: &MemberId) -> (r: Option<String>)
        ensures
            r is None,
    {
        None
    }
}

/// Whether `directive` is what the active hook may answer when asked for the
/// directive of a member. Where no hook is active there is no directive.
pub open spec fn may_format<H: Annotate + ?Sized>(
    hook: Option<&H>,
    variant: Option<&str>,
    field: &MemberId,
    directive: Option<Format>,
) -> bool {
    match hook {
        Some(h) => call_ensures(H::format, (h, variant, field), directive),
        None => directive is None,
    }
}

/// Whether `comment` is what the active hook may answer when asked for the
/// comment of a member. Where no hook is active there is no comment.
pub open spec fn may_comment<H: Annotate + ?Sized>(
    hook: Option<&H>,
    variant: Option<&str>,
    field: &MemberId,
    comment: Option<String>,
) -> bool {
    match hook {
        Some(h) => call_ensures(H::comment, (h, variant, field), comment),
        None => comment is None,
    }
}

/// Whether a hook declares nothing: whatever it is asked, it answers with no
/// directive and no comment.
pub open spec fn is_silent<H: Annotate + ?Sized>(hook: &H) -> bool {
    &&& forall|variant: Option<&str>, field: &MemberId, directive: Option<Format>|
        #[trigger] call_ensures(H::format, (hook, variant, field), directive) ==> directive is None
    &&& forall|variant: Option<&str>, field: &MemberId, comment: Option<String>|
        #[trigger] call_ensures(H::comment, (hook, variant, field), comment) ==> comment is None
}

/// The hook that declares nothing is silent.
pub proof fn lemma_unannotated_is_silent(hook: &Unannotated)
    ensures
        is_silent(hook),
{
}

} // verus!
