//! What a check reports.

use vstd::prelude::*;
use crate::span::Span;

verus! {

/// The check that produced a finding, and with it the text of the report.
#[derive(Clone, Copy, Debug, PartialEq, Eq, Structural)]
pub enum FindingKind {
    NonReentrantFunction,
    MemUnsafeFunction,
    UntrustedLibLoading,
    PassingStringToCFunction,
    UnverifiedAllocSize,
    UncheckedAllocResult,
    BlockingOpInAsync,
    /// An `unsafe` block in the text of a macro invocation.
    UnsafeBlockInProcMacro,
    /// The same, where the text also seems to define a function.
    UnsafeBlockInProcMacroFn,
    ExternWithoutRepr,
    NullPtrDereference,
    DanglingPtrDereference,
    PtrDoubleFree,
    ReturnStackAddress,
    InvalidCharRange,
    UnconstrainedNumericLiteral,
    ImplicitAbi,
    InfiniteLoop,
    LoopWithoutBreakOrReturn,
}

/// One report: the range it points at, the range of the secondary note
/// that explains it, and the identity of the item it names in its text.
#[derive(Clone, Copy, Debug, PartialEq, Eq, Structural)]
pub struct Finding {
    pub kind: FindingKind,
    pub span: Span,
    pub note: Option<Span>,
    pub subject: Option<u64>,
}

impl Finding {
    pub open spec fn plain(kind: FindingKind, span: Span) -> Finding {
        Finding { kind, span, note: None, subject: None }
    }

    pub open spec fn noted(kind: FindingKind, span: Span, note: Span) -> Finding {
        Finding { kind, span, note: Some(note), subject: None }
    }

    /// A report without a note.
    pub fn new(kind: FindingKind, span: Span) -> (f: Finding)
        ensures
            f == Finding::plain(kind, span),
    {
        Finding { kind, span, note: None, subject: None }
    }

    /// A report with a note at `note`.
    pub fn with_note(kind: FindingKind, span: Span, note: Span) -> (f: Finding)
        ensures
            f == Finding::noted(kind, span, note),
    {
        Finding { kind, span, note: Some(note), subject: None }
    }
}

} // verus!

verus! {

/// The finding, if there is one, as a list.
pub open spec fn opt_seq(f: Option<Finding>) -> Seq<Finding> {
    match f {
        Some(f) => seq![f],
        None => Seq::empty(),
    }
}

/// Appends the finding, if there is one.
pub fn push_opt(out: &mut Vec<Finding>, f: Option<Finding>)
    ensures
        final(out)@ == old(out)@ + opt_seq(f),
{
    match f {
        Some(f) => {
            out.push(f);
        },
        None => {},
    }
    assert(out@ =~= old(out)@ + opt_seq(f));
}

/// Appends the findings of `more`, in order.
pub fn extend(out: &mut Vec<Finding>, more: &Vec<Finding>)
    ensures
        final(out)@ == old(out)@ + more@,
{
    let mut i: usize = 0;
    assert(out@ =~= old(out)@ + more@.take(0));
    while i < more.len()
        invariant
            i <= more.len(),
            out@ == old(out)@ + more@.take(i as int),
        decreases more.len() - i,
    {
        out.push(more[i]);
        assert(out@ =~= old(out)@ + more@.take(i + 1));
        i += 1;
    }
    assert(more@.take(more@.len() as int) =~= more@);
}

} // verus!

verus! {

/// The message of a finding of the given kind; `subject` is the name of
/// the item that the finding names.
pub open spec fn message_text(kind: FindingKind, subject: Seq<char>) -> Seq<char> {
    match kind {
        FindingKind::NonReentrantFunction => "use of non-reentrant function"@,
        FindingKind::MemUnsafeFunction => "use of potentially dangerous memory manipulation function"@,
        FindingKind::UntrustedLibLoading => "loading dynamic library from untrusted source"@,
        FindingKind::PassingStringToCFunction => "passing native strings to external functions"@,
        FindingKind::UnverifiedAllocSize => "allocating memory without verifying the size"@,
        FindingKind::UncheckedAllocResult => "allocating memory without checking if the result pointer is null"@,
        FindingKind::BlockingOpInAsync => "this call might blocks the thread in async context"@,
        FindingKind::UnsafeBlockInProcMacro => "function-like procedural macro `"@ + subject
            + "` could masking unsafe operations"@,
        FindingKind::UnsafeBlockInProcMacroFn => "function-like procedural macro `"@ + subject
            + "` could masking unsafe operations"@,
        FindingKind::ExternWithoutRepr => "should use `#[repr(..)]` to specifing data layout when type is used in FFI"@,
        FindingKind::NullPtrDereference => "dereferencing null pointer"@,
        FindingKind::DanglingPtrDereference => "dereferencing a raw pointer that was already freed"@,
        FindingKind::PtrDoubleFree => "pointer was freed multiple times"@,
        FindingKind::ReturnStackAddress => "returning a pointer to stack address"@,
        FindingKind::InvalidCharRange => "converting to char with out-of-range integer"@,
        FindingKind::UnconstrainedNumericLiteral => "type of this numeric variable is unconstrained"@,
        FindingKind::ImplicitAbi => "missing ABI label on extern block"@,
        FindingKind::InfiniteLoop => "loop without break condition"@,
        FindingKind::LoopWithoutBreakOrReturn => "consider adding `break` or `return` statement in the loop block"@,
    }
}

/// The text that explains a finding of the given kind: that of its note
/// or of its advice.  Some kinds have none.
pub open spec fn explanation_text(kind: FindingKind, subject: Seq<char>) -> Option<Seq<char>> {
    match kind {
        FindingKind::NonReentrantFunction => Some("consider using its reentrant counterpart"@),
        FindingKind::MemUnsafeFunction => Some("consider using its safe version"@),
        FindingKind::UntrustedLibLoading => Some("untrusted IO function called here"@),
        FindingKind::PassingStringToCFunction => Some("use `CString` or `CStr` instead"@),
        FindingKind::UnverifiedAllocSize => Some("unverified size used here"@),
        FindingKind::UncheckedAllocResult => None,
        FindingKind::BlockingOpInAsync => Some("asyncness was determined here"@),
        FindingKind::UnsafeBlockInProcMacro => Some(
            "consider removing unsafe block from the above `quote!` call,\nand add unsafe block when calling the macro instead: `unsafe { "@
                + subject + "!{...} }`"@,
        ),
        FindingKind::UnsafeBlockInProcMacroFn => Some(
            "consider removing unsafe block from the above `quote!` call,\nif the block was in a function, put an `unsafe` keyword on its definition: `unsafe fn ...`, \notherwise add unsafe block when calling the macro instead: `unsafe { "@
                + subject + "!{...} }`"@,
        ),
        FindingKind::ExternWithoutRepr => Some("type declared here"@),
        FindingKind::NullPtrDereference => Some("the pointer was set to null here"@),
        FindingKind::DanglingPtrDereference => Some("the pointer was freed here"@),
        FindingKind::PtrDoubleFree => Some("first free occurred here"@),
        FindingKind::ReturnStackAddress => Some("local variable declared/assigned here"@),
        FindingKind::InvalidCharRange => Some(
            "this number should be within the range of [0, 0xD7FF] or [0xE000, 0x10FFFF]"@,
        ),
        FindingKind::UnconstrainedNumericLiteral => Some(
            "unconstrained numeric literals defined here"@,
        ),
        FindingKind::ImplicitAbi => Some("explicitly states ABI instead"@),
        FindingKind::InfiniteLoop => Some(
            "consider adding `break` or `return` statement in the loop block"@,
        ),
        FindingKind::LoopWithoutBreakOrReturn => None,
    }
}

/// The text that a fix puts in place of what the finding points at; only
/// a missing calling convention has one that does not depend on the
/// program.
pub open spec fn replacement_text(kind: FindingKind) -> Option<Seq<char>> {
    match kind {
        FindingKind::ImplicitAbi => Some("extern \"C\""@),
        _ => None,
    }
}

impl FindingKind {
    /// The message of a finding of this kind.
    pub fn message(&self, subject: &str) -> (s: String)
        ensures
            s@ == message_text(*self, subject@),
    {
        match self {
            FindingKind::NonReentrantFunction => "use of non-reentrant function".to_owned(),
            FindingKind::MemUnsafeFunction => "use of potentially dangerous memory manipulation function".to_owned(),
            FindingKind::UntrustedLibLoading => "loading dynamic library from untrusted source".to_owned(),
            FindingKind::PassingStringToCFunction => "passing native strings to external functions".to_owned(),
            FindingKind::UnverifiedAllocSize => "allocating memory without verifying the size".to_owned(),
            FindingKind::UncheckedAllocResult => "allocating memory without checking if the result pointer is null".to_owned(),
            FindingKind::BlockingOpInAsync => "this call might blocks the thread in async context".to_owned(),
            FindingKind::UnsafeBlockInProcMacro => "function-like procedural macro `".to_owned().concat(
                subject,
            ).concat("` could masking unsafe operations"),
            FindingKind::UnsafeBlockInProcMacroFn => "function-like procedural macro `".to_owned().concat(
                subject,
            ).concat("` could masking unsafe operations"),
            FindingKind::ExternWithoutRepr => "should use `#[repr(..)]` to specifing data layout when type is used in FFI".to_owned(),
            FindingKind::NullPtrDereference => "dereferencing null pointer".to_owned(),
            FindingKind::DanglingPtrDereference => "dereferencing a raw pointer that was already freed".to_owned(),
            FindingKind::PtrDoubleFree => "pointer was freed multiple times".to_owned(),
            FindingKind::ReturnStackAddress => "returning a pointer to stack address".to_owned(),
            FindingKind::InvalidCharRange => "converting to char with out-of-range integer".to_owned(),
            FindingKind::UnconstrainedNumericLiteral => "type of this numeric variable is unconstrained".to_owned(),
            FindingKind::ImplicitAbi => "missing ABI label on extern block".to_owned(),
            FindingKind::InfiniteLoop => "loop without break condition".to_owned(),
            FindingKind::LoopWithoutBreakOrReturn => "consider adding `break` or `return` statement in the loop block".to_owned(),
        }
    }

    /// The text that explains a finding of this kind.
    pub fn explanation(&self, subject: &str) -> (r: Option<String>)
        ensures
            r is Some == explanation_text(*self, subject@) is Some,
            r matches Some(s) ==> Some(s@) == explanation_text(*self, subject@),
    {
        match self {
            FindingKind::NonReentrantFunction => Some(
                "consider using its reentrant counterpart".to_owned(),
            ),
            FindingKind::MemUnsafeFunction => Some("consider using its safe version".to_owned()),
            FindingKind::UntrustedLibLoading => Some("untrusted IO function called here".to_owned()),
            FindingKind::PassingStringToCFunction => Some(
                "use `CString` or `CStr` instead".to_owned(),
            ),
            FindingKind::UnverifiedAllocSize => Some("unverified size used here".to_owned()),
            FindingKind::UncheckedAllocResult => None,
            FindingKind::BlockingOpInAsync => Some("asyncness was determined here".to_owned()),
            FindingKind::UnsafeBlockInProcMacro => Some(
                "consider removing unsafe block from the above `quote!` call,\nand add unsafe block when calling the macro instead: `unsafe { ".to_owned().concat(
                    subject,
                ).concat("!{...} }`"),
            ),
            FindingKind::UnsafeBlockInProcMacroFn => Some(
                "consider removing unsafe block from the above `quote!` call,\nif the block was in a function, put an `unsafe` keyword on its definition: `unsafe fn ...`, \notherwise add unsafe block when calling the macro instead: `unsafe { ".to_owned().concat(
                    subject,
                ).concat("!{...} }`"),
            ),
            FindingKind::ExternWithoutRepr => Some("type declared here".to_owned()),
            FindingKind::NullPtrDereference => Some("the pointer was set to null here".to_owned()),
            FindingKind::DanglingPtrDereference => Some("the pointer was freed here".to_owned()),
            FindingKind::PtrDoubleFree => Some("first free occurred here".to_owned()),
            FindingKind::ReturnStackAddress => Some(
                "local variable declared/assigned here".to_owned(),
            ),
            FindingKind::InvalidCharRange => Some(
                "this number should be within the range of [0, 0xD7FF] or [0xE000, 0x10FFFF]".to_owned(),
            ),
            FindingKind::UnconstrainedNumericLiteral => Some(
                "unconstrained numeric literals defined here".to_owned(),
            ),
            FindingKind::ImplicitAbi => Some("explicitly states ABI instead".to_owned()),
            FindingKind::InfiniteLoop => Some(
                "consider adding `break` or `return` statement in the loop block".to_owned(),
            ),
            FindingKind::LoopWithoutBreakOrReturn => None,
        }
    }

    /// The text that a fix puts in place of what the finding points at.
    pub fn replacement(&self) -> (r: Option<String>)
        ensures
            r is Some == replacement_text(*self) is Some,
            r matches Some(s) ==> Some(s@) == replacement_text(*self),
    {
        match self {
            FindingKind::ImplicitAbi => Some("extern \"C\"".to_owned()),
            _ => None,
        }
    }
}

} // verus!
