//! Unsafe blocks hidden in the text of a macro invocation.
//!
//! One invocation expands to many nodes, all of which share its call
//! site.  Each call site is looked at once; what is read is the text
//! between the delimiters of the invocation, not the expanded tree.

use std::collections::HashSet;
use vstd::prelude::*;
use crate::finding::{Finding, FindingKind};
use crate::span::Span;
use crate::text::{
    chars_of,
    contains,
    fn_marker,
    quote_body,
    quote_inner,
    seq_contains,
    str_eq,
    strip_ws,
    unsafe_marker,
    without_whitespace,
    SourceText,
};

verus! {

broadcast use vstd::std_specs::hash::group_hash_axioms;

/// What produced an expansion.
#[derive(Debug)]
pub enum ExpnKind {
    /// No expansion: code the user wrote.
    Root,
    /// A function-like macro, by name.
    BangMacro(String),
    /// An attribute or derive macro, or a desugaring.
    Other,
}

/// One expansion: where it was invoked, what produced it, and whether
/// what produced it is defined outside the program.
#[derive(Debug)]
pub struct ExpnData {
    pub call_site: Span,
    pub kind: ExpnKind,
    pub external: bool,
}

/// The expansions of the program.  The context `n` of a [`Span`], where
/// it is not `0`, is the `n`-th of them.
#[derive(Debug)]
pub struct Expansions {
    pub table: Vec<ExpnData>,
}

/// An item around a node: a function or not, and the attributes on it.
#[derive(Debug)]
pub struct Owner {
    pub id: u64,
    pub is_fn: bool,
    pub attrs: Vec<String>,
}

/// The number that a call site in the file `file` is remembered under:
/// made of the file and the two ends of the range, so that no two call
/// sites of a program share one.
pub open spec fn site_key(file: u32, site: Span) -> u128 {
    (file as int * 0x1_0000_0000_0000_0000 + site.lo as int * 0x1_0000_0000 + site.hi as int) as u128
}

impl Expansions {
    /// Whether `ctxt` is the context of an expansion in the table.
    pub open spec fn known(&self, ctxt: u32) -> bool {
        0 < ctxt && ctxt <= self.table@.len()
    }

    /// Where the expansion with context `ctxt` was invoked; the empty
    /// range at the start where there is no such expansion.
    pub open spec fn call_site_of(&self, ctxt: u32) -> Span {
        if self.known(ctxt) {
            self.table@[ctxt - 1].call_site
        } else {
            Span { lo: 0, hi: 0, ctxt: 0 }
        }
    }

    /// Whether the expansion with context `ctxt` is an invocation of the
    /// function-like macro `quote`.
    pub open spec fn is_quote(&self, ctxt: u32) -> bool {
        self.known(ctxt) && (match &self.table@[ctxt - 1].kind {
            ExpnKind::BangMacro(name) => name@ == "quote"@,
            _ => false,
        })
    }

    /// Whether the expansion with context `ctxt` comes from a macro that is
    /// defined outside the program.
    pub open spec fn is_external(&self, ctxt: u32) -> bool {
        self.known(ctxt) && self.table@[ctxt - 1].external
    }

    /// The expansion with context `ctxt`.
    pub fn outer(&self, ctxt: u32) -> (r: Option<&ExpnData>)
        ensures
            r is Some == self.known(ctxt),
            r matches Some(data) ==> *data == self.table@[ctxt - 1],
    {
        if 0 < ctxt && (ctxt as usize) <= self.table.len() {
            Some(&self.table[(ctxt - 1) as usize])
        } else {
            None
        }
    }

    /// Where the expansion with context `ctxt` was invoked.
    pub fn call_site(&self, ctxt: u32) -> (site: Span)
        ensures
            site == self.call_site_of(ctxt),
    {
        match self.outer(ctxt) {
            Some(data) => data.call_site,
            None => Span { lo: 0, hi: 0, ctxt: 0 },
        }
    }

    /// Whether the expansion with context `ctxt` invokes `quote`.
    pub fn invokes_quote(&self, ctxt: u32) -> (b: bool)
        ensures
            b == self.is_quote(ctxt),
    {
        match self.outer(ctxt) {
            Some(data) => match &data.kind {
                ExpnKind::BangMacro(name) => str_eq(name.as_str(), "quote"),
                _ => false,
            },
            None => false,
        }
    }

    /// Whether the range lies in the expansion of a macro that is defined
    /// outside the program.
    pub fn in_external_macro(&self, span: Span) -> (b: bool)
        ensures
            b == self.is_external(span.ctxt),
    {
        match self.outer(span.ctxt) {
            Some(data) => data.external,
            None => false,
        }
    }
}

/// Whether a call site in the file `file` is looked at for the first
/// time: it lies in user-written code and was not seen before.
pub open spec fn newly_seen(file: u32, site: Span, seen: Set<u128>) -> bool {
    site.ctxt == 0 && !seen.contains(site_key(file, site))
}

/// The call sites seen once `site` in the file `file` was looked at.
pub open spec fn seen_after(file: u32, site: Span, seen: Set<u128>) -> Set<u128> {
    if site.ctxt == 0 {
        seen.insert(site_key(file, site))
    } else {
        seen
    }
}

/// What the text of an invocation at `site` holds: `None` where it has no
/// text between delimiters or no `unsafe` block in it, else whether it
/// also holds `fn ` and so may define a function.
pub open spec fn unsafe_in_quote(src: &SourceText, site: Span) -> Option<bool> {
    match src.spec_snippet(site) {
        Some(snip) => match quote_body(snip) {
            Some(code) => if seq_contains(strip_ws(code), unsafe_marker()) {
                Some(seq_contains(code, fn_marker()))
            } else {
                None
            },
            None => None,
        },
        None => None,
    }
}

/// Whether one of the first `n` attributes is `proc_macro`.
pub open spec fn has_proc_macro_attr(attrs: Seq<String>, n: int) -> bool {
    exists|k: int| 0 <= k < n && k < attrs.len() && #[trigger] attrs[k]@ == "proc_macro"@
}

/// Whether the item defines a function-like procedural macro.
pub open spec fn is_proc_macro(owner: &Owner) -> bool {
    owner.is_fn && has_proc_macro_attr(owner.attrs@, owner.attrs@.len() as int)
}

/// The first of the items, from `from` on, that defines a function-like
/// procedural macro.
pub open spec fn proc_macro_owner(owners: Seq<Owner>, from: int) -> Option<u64>
    decreases owners.len() - from,
{
    if from < 0 || from >= owners.len() {
        None
    } else if is_proc_macro(&owners[from]) {
        Some(owners[from].id)
    } else {
        proc_macro_owner(owners, from + 1)
    }
}

/// The call site of a node with context `ctxt`, where the node lies in an
/// invocation of `quote` whose call site is looked at for the first time.
pub open spec fn fresh_quote_site(
    exp: &Expansions,
    ctxt: u32,
    file: u32,
    seen: Set<u128>,
) -> Option<Span> {
    let site = exp.call_site_of(ctxt);
    if newly_seen(file, site, seen) && exp.is_quote(ctxt) {
        Some(site)
    } else {
        None
    }
}

/// The kind of finding for an `unsafe` block in a macro.
pub open spec fn unsafe_block_kind(could_be_fn: bool) -> FindingKind {
    if could_be_fn {
        FindingKind::UnsafeBlockInProcMacroFn
    } else {
        FindingKind::UnsafeBlockInProcMacro
    }
}

/// What a node with context `ctxt` leads to, where `owner` is the item
/// that the finding names.
pub open spec fn quote_finding(
    exp: &Expansions,
    ctxt: u32,
    owner: Option<u64>,
    src: &SourceText,
    seen: Set<u128>,
) -> Option<Finding> {
    match (fresh_quote_site(exp, ctxt, src.file, seen), owner) {
        (Some(site), Some(id)) => match unsafe_in_quote(src, site) {
            Some(could_be_fn) => Some(
                Finding {
                    kind: unsafe_block_kind(could_be_fn),
                    span: site,
                    note: None,
                    subject: Some(id),
                },
            ),
            None => None,
        },
        _ => None,
    }
}

/// The number that a call site in the file `file` is remembered under.
pub fn key_of(file: u32, site: Span) -> (k: u128)
    ensures
        k == site_key(file, site),
{
    let f: u128 = file as u128;
    let lo: u128 = site.lo as u128;
    let hi: u128 = site.hi as u128;
    f * 0x1_0000_0000_0000_0000u128 + lo * 0x1_0000_0000u128 + hi
}

/// Two call sites in user-written code are remembered under the same
/// number only if they are the same range of the same file.
pub proof fn lemma_site_key_is_injective(file_a: u32, a: Span, file_b: u32, b: Span)
    requires
        a.ctxt == 0,
        b.ctxt == 0,
        site_key(file_a, a) == site_key(file_b, b),
    ensures
        file_a == file_b,
        a == b,
{
}

/// A call site is reported at most once: once it was looked at, it is
/// never again looked at for the first time, whatever was seen since.
pub proof fn lemma_call_site_is_seen_once(
    file: u32,
    site: Span,
    seen: Set<u128>,
    later: Set<u128>,
)
    requires
        seen_after(file, site, seen).subset_of(later),
    ensures
        !newly_seen(file, site, later),
        forall|exp: &Expansions, ctxt: u32|
            exp.call_site_of(ctxt) == site ==> fresh_quote_site(exp, ctxt, file, later) is None,
{
}

/// Call sites of different files, or at different ranges, do not stand in
/// each other's way: looking at one leaves the other as new as it was.
pub proof fn lemma_other_call_sites_stay_new(
    file_a: u32,
    a: Span,
    file_b: u32,
    b: Span,
    seen: Set<u128>,
)
    requires
        a.ctxt == 0,
        b.ctxt == 0,
        file_a != file_b || a != b,
    ensures
        newly_seen(file_b, b, seen_after(file_a, a, seen)) == newly_seen(file_b, b, seen),
{
    if site_key(file_a, a) == site_key(file_b, b) {
        lemma_site_key_is_injective(file_a, a, file_b, b);
    }
}

/// Looks at the call site of a node with context `ctxt`; `file` is the
/// file whose characters the ranges count.
///
/// Returns the call site where the node lies in an invocation of `quote`
/// whose call site, in user-written code, was not looked at before.  The
/// call site is remembered in `seen` in any case, so that the other nodes
/// of the same invocation return `None`.
pub fn dedupe_by_macro_callsite(
    exp: &Expansions,
    ctxt: u32,
    file: u32,
    seen: &mut HashSet<u128>,
) -> (r: Option<Span>)
    ensures
        r == fresh_quote_site(exp, ctxt, file, old(seen)@),
        final(seen)@ == seen_after(file, exp.call_site_of(ctxt), old(seen)@),
{
    let site = exp.call_site(ctxt);
    if site.from_expansion() {
        return None;
    }
    let fresh = seen.insert(key_of(file, site));
    if fresh && exp.invokes_quote(ctxt) {
        Some(site)
    } else {
        None
    }
}

/// Whether the text of the invocation at `site` holds an `unsafe` block,
/// and if so whether it may define a function.
pub fn quote_holds_unsafe(src: &SourceText, site: Span) -> (r: Option<bool>)
    ensures
        r == unsafe_in_quote(src, site),
{
    let snip = match src.snippet(site) {
        Some(snip) => snip,
        None => {
            return None;
        },
    };
    let code = match quote_inner(&snip) {
        Some(code) => code,
        None => {
            return None;
        },
    };
    let fn_mark = chars_of("fn ");
    let unsafe_mark = chars_of("unsafe{");
    proof {
        reveal_strlit("fn ");
        reveal_strlit("unsafe{");
        assert(fn_mark@ =~= fn_marker());
        assert(unsafe_mark@ =~= unsafe_marker());
    }
    let could_be_fn = contains(&code, &fn_mark);
    let stripped = without_whitespace(&code);
    if contains(&stripped, &unsafe_mark) {
        Some(could_be_fn)
    } else {
        None
    }
}

/// Whether the item defines a function-like procedural macro.
fn defines_proc_macro(owner: &Owner) -> (b: bool)
    ensures
        b == is_proc_macro(owner),
{
    if !owner.is_fn {
        return false;
    }
    let mut k: usize = 0;
    while k < owner.attrs.len()
        invariant
            k <= owner.attrs.len(),
            owner.is_fn,
            !has_proc_macro_attr(owner.attrs@, k as int),
        decreases owner.attrs.len() - k,
    {
        if str_eq(owner.attrs[k].as_str(), "proc_macro") {
            return true;
        }
        k += 1;
    }
    false
}

/// The innermost of the items around a node that defines a function-like
/// procedural macro; `owners` are those items, innermost first.
pub fn find_proc_macro_owner(owners: &Vec<Owner>) -> (r: Option<u64>)
    ensures
        r == proc_macro_owner(owners@, 0),
{
    let mut i: usize = 0;
    while i < owners.len()
        invariant
            i <= owners.len(),
            proc_macro_owner(owners@, i as int) == proc_macro_owner(owners@, 0),
        decreases owners.len() - i,
    {
        if defines_proc_macro(&owners[i]) {
            return Some(owners[i].id);
        }
        i += 1;
    }
    None
}

/// Checks a node with context `ctxt`; `owners` are the items around it,
/// innermost first.
///
/// Reports the call site of an invocation of `quote` whose text holds an
/// `unsafe` block, once per call site, where a function around the node
/// defines a function-like procedural macro; the finding names that
/// function.
pub fn check(
    exp: &Expansions,
    ctxt: u32,
    owners: &Vec<Owner>,
    src: &SourceText,
    call_sites: &mut HashSet<u128>,
) -> (f: Option<Finding>)
    ensures
        f == quote_finding(exp, ctxt, proc_macro_owner(owners@, 0), src, old(call_sites)@),
        final(call_sites)@ == seen_after(src.file, exp.call_site_of(ctxt), old(call_sites)@),
{
    let site = match dedupe_by_macro_callsite(exp, ctxt, src.file, call_sites) {
        Some(site) => site,
        None => {
            return None;
        },
    };
    let could_be_fn = match quote_holds_unsafe(src, site) {
        Some(could_be_fn) => could_be_fn,
        None => {
            return None;
        },
    };
    match find_proc_macro_owner(owners) {
        Some(id) => Some(
            Finding {
                kind: if could_be_fn {
                    FindingKind::UnsafeBlockInProcMacroFn
                } else {
                    FindingKind::UnsafeBlockInProcMacro
                },
                span: site,
                note: None,
                subject: Some(id),
            },
        ),
        None => None,
    }
}

/// The check for `unsafe` blocks in macros, with the call sites it has
/// looked at.
pub struct UnsafeBlockInProcMacro {
    pub call_sites: HashSet<u128>,
}

impl UnsafeBlockInProcMacro {
    /// A check that has looked at no call site yet.
    pub fn new() -> (r: Self)
        ensures
            r.call_sites@ == Set::<u128>::empty(),
    {
        UnsafeBlockInProcMacro { call_sites: HashSet::new() }
    }

    /// Checks a node with context `ctxt` that lies in the item `owner`.
    ///
    /// Reports the call site of an invocation of `quote` whose text holds
    /// an `unsafe` block, once per call site; the finding names `owner`.
    pub fn check_expr(&mut self, exp: &Expansions, ctxt: u32, owner: u64, src: &SourceText) -> (f:
        Option<Finding>)
        ensures
            f == quote_finding(exp, ctxt, Some(owner), src, old(self).call_sites@),
            final(self).call_sites@ == seen_after(
                src.file,
                exp.call_site_of(ctxt),
                old(self).call_sites@,
            ),
    {
        let site = match dedupe_by_macro_callsite(exp, ctxt, src.file, &mut self.call_sites) {
            Some(site) => site,
            None => {
                return None;
            },
        };
        match quote_holds_unsafe(src, site) {
            Some(could_be_fn) => Some(
                Finding {
                    kind: if could_be_fn {
                        FindingKind::UnsafeBlockInProcMacroFn
                    } else {
                        FindingKind::UnsafeBlockInProcMacro
                    },
                    span: site,
                    note: None,
                    subject: Some(owner),
                },
            ),
            None => None,
        }
    }
}

} // verus!
