//! Fallible memory allocation: a size that nothing verified, a result that
//! nothing compared with null.
//!
//! Where the size handed to an allocation function is a local, the blocks
//! around the call are searched for something that verifies it: a
//! comparison of the local, a checker function applied to it, or a
//! checker function it was initialised or assigned from.  A literal size needs no
//! check.  The result is followed from the binding that holds it: it
//! counts as checked where a call named like a null check is applied to
//! that binding, or where the binding is assigned something else behind
//! the allocation.

use vstd::prelude::*;
use crate::finding::{Finding, FindingKind};
use crate::ptr::{creates_null, expr_is_creating_null_ptr, is_null_check, is_null_check_of, KnownFns};
use crate::resolve::{
    identity_of,
    local_of,
    path_hir_id_matches_id,
    path_to_local,
    peel_casts,
    resolve_identity,
    without_casts,
};
use crate::span::Span;
use crate::text::{chars_of, contains, seq_contains, size_marker, SourceText};
use crate::tree::{BinOp, Block, Expr, ExprKind, Stmt, StmtKind};
use crate::walk::{block_events, walk_block, Descent, Node};

verus! {

/// What is known of the pointer that an allocation returns.
#[derive(Clone, Copy, Debug, PartialEq, Eq, Structural)]
pub enum PtrStatus {
    Verified,
    Unverified,
    /// The function does not return a raw pointer.
    NotPtr,
}

/// Whether one of the checker substrings stands in `name`.
pub open spec fn is_checker(name: Seq<char>, checkers: Seq<String>) -> bool {
    exists|k: int| 0 <= k < checkers.len() && seq_contains(name, #[trigger] checkers[k]@)
}

/// Whether `e` calls a checker function: `None` where `e` is neither a
/// method call nor a call of a plain path, else whether the name of the
/// called function (the name of the method, or the last segment of the
/// path) holds a checker substring.
pub open spec fn checker_call(e: &Expr, checkers: Seq<String>) -> Option<bool> {
    match &e.kind {
        ExprKind::Call(callee, _) => match &callee.kind {
            ExprKind::Path(p) => if !p.qualified && p.segments@.len() > 0 {
                Some(is_checker(p.segments@.last()@, checkers))
            } else {
                None
            },
            _ => None,
        },
        ExprKind::MethodCall(name, _, _, _) => Some(is_checker(name@, checkers)),
        _ => None,
    }
}

/// Whether the first `n` of `args` hold one that stands for `id`.
pub open spec fn mentions_in(args: Seq<Expr>, n: int, id: u64) -> bool {
    exists|k: int| 0 <= k < n && k < args.len() && identity_of(#[trigger] &args[k]) == Some(id)
}

/// Whether the call `e` is applied to the binding `id`: `id` is its
/// receiver or one of its arguments.
pub open spec fn applied_to(e: &Expr, id: u64) -> bool {
    match &e.kind {
        ExprKind::Call(_, args) => mentions_in(args@, args@.len() as int, id),
        ExprKind::MethodCall(_, _, recv, args) => identity_of(recv) == Some(id) || mentions_in(
            args@,
            args@.len() as int,
            id,
        ),
        _ => false,
    }
}

/// The comparisons that verify a size.
pub open spec fn is_size_comparison(op: BinOp) -> bool {
    op == BinOp::Lt || op == BinOp::Le || op == BinOp::Gt || op == BinOp::Ge || op == BinOp::Eq
}

/// Whether the node verifies the size `id`: a comparison with `id` as an
/// operand, a checker function applied to `id`, or a `let` or an
/// assignment that sets `id` from a call of a checker function.
pub open spec fn verifies_size(node: Node, id: u64, checkers: Seq<String>) -> bool {
    match node {
        Node::Expr(ex) => match &ex.kind {
            ExprKind::Binary(op, l, r) => is_size_comparison(*op) && (identity_of(l) == Some(id)
                || identity_of(r) == Some(id)),
            ExprKind::Assign(place, value) => identity_of(place) == Some(id) && checker_call(
                value,
                checkers,
            ) == Some(true),
            _ => checker_call(ex, checkers) == Some(true) && applied_to(ex, id),
        },
        Node::Stmt(s) => match &s.kind {
            StmtKind::Local(l) => l.pat.id == id && (match &l.init {
                Some(init) => checker_call(init, checkers) == Some(true),
                None => false,
            }),
            _ => false,
        },
        _ => false,
    }
}

/// What is followed of the result of an allocation: the binding that
/// holds it, where there is one, the range of the allocation, and the
/// null constructors.
pub struct ResultQuery {
    pub binding: Option<u64>,
    pub allocated: Span,
    pub known: KnownFns,
}

/// The binding that the statement puts the result of the call at `call`
/// into: the pattern of a `let` whose initialiser, under its casts, is the
/// call, or the place of an assignment whose value, under its casts, is
/// the call.
pub open spec fn binds_result(s: &Stmt, call: Span) -> Option<u64> {
    match &s.kind {
        StmtKind::Local(l) => match &l.init {
            Some(init) => if without_casts(init).span == call {
                Some(l.pat.id)
            } else {
                None
            },
            None => None,
        },
        StmtKind::Expr(e) => assigns_result(e, call),
        StmtKind::Semi(e) => assigns_result(e, call),
        StmtKind::Item => None,
    }
}

/// The binding that the assignment `e` puts the result of the call at
/// `call` into.
pub open spec fn assigns_result(e: &Expr, call: Span) -> Option<u64> {
    match &e.kind {
        ExprKind::Assign(place, value) => if without_casts(value).span == call {
            identity_of(place)
        } else {
            None
        },
        _ => None,
    }
}

/// The binding into which the first of the statements from `from` on
/// that binds the result puts it.
pub open spec fn result_binding_from(stmts: Seq<Stmt>, from: int, call: Span) -> Option<u64>
    decreases stmts.len() - from,
{
    if from < 0 || from >= stmts.len() {
        None
    } else if binds_result(&stmts[from], call) is Some {
        binds_result(&stmts[from], call)
    } else {
        result_binding_from(stmts, from + 1, call)
    }
}

/// The binding that holds the result of `call`: the one that a statement
/// of the innermost block around the call puts it into.
pub open spec fn result_binding(call: &Expr, ancestors: Seq<&Block>) -> Option<u64> {
    if ancestors.len() > 0 {
        result_binding_from(ancestors[0].stmts@, 0, call.span)
    } else {
        None
    }
}

/// Whether the node verifies the result: a call named like a null check
/// applied to the binding that holds it, or an assignment, behind the
/// allocation, of something that is no null pointer to that binding.
pub open spec fn verifies_result(node: Node, q: ResultQuery) -> bool {
    match (node, q.binding) {
        (Node::Expr(ex), Some(p)) => is_null_check_of(ex, p) || (match &ex.kind {
            ExprKind::Assign(place, value) => identity_of(place) == Some(p) && q.allocated.hi
                <= ex.span.lo && !creates_null(value, q.known),
            _ => false,
        }),
        _ => false,
    }
}

/// Whether one of the first `n` nodes verifies the size `id`.
pub open spec fn size_verified_in(nodes: Seq<Node>, n: int, id: u64, checkers: Seq<String>) -> bool {
    exists|i: int| 0 <= i < n && i < nodes.len() && verifies_size(#[trigger] nodes[i], id, checkers)
}

/// Whether one of the first `n` nodes verifies the result.
pub open spec fn null_checked_in(nodes: Seq<Node>, n: int, q: ResultQuery) -> bool {
    exists|i: int| 0 <= i < n && i < nodes.len() && verifies_result(#[trigger] nodes[i], q)
}

/// Whether something in the block, outside closures, verifies the size
/// `id`.
pub open spec fn block_verifies_size(b: &Block, id: u64, checkers: Seq<String>) -> bool {
    let nodes = block_events(b, Descent::spec_outside_closures());
    size_verified_in(nodes, nodes.len() as int, id, checkers)
}

/// Whether something in the block, outside closures, verifies the
/// result.
pub open spec fn block_checks_null(b: &Block, q: ResultQuery) -> bool {
    let nodes = block_events(b, Descent::spec_outside_closures());
    null_checked_in(nodes, nodes.len() as int, q)
}

/// Whether something in one of the first `n` blocks verifies the size.
pub open spec fn size_verified(blocks: Seq<&Block>, n: int, id: u64, checkers: Seq<String>) -> bool {
    exists|k: int| 0 <= k < n && k < blocks.len() && block_verifies_size(#[trigger] blocks[k], id, checkers)
}

/// Whether something in one of the first `n` blocks verifies the result.
pub open spec fn null_checked(blocks: Seq<&Block>, n: int, q: ResultQuery) -> bool {
    exists|k: int| 0 <= k < n && k < blocks.len() && block_checks_null(#[trigger] blocks[k], q)
}

/// The status of the result once the blocks were searched.
pub open spec fn ptr_status_after(start: PtrStatus, checked: bool) -> PtrStatus {
    if start == PtrStatus::Unverified && checked {
        PtrStatus::Verified
    } else {
        start
    }
}

/// Whether `at` is the position of a parameter whose text holds `size`.
pub open spec fn is_size_param(params: Seq<Expr>, src: &SourceText, at: int) -> bool {
    0 <= at < params.len() && (match src.spec_snippet(params[at].span) {
        Some(text) => seq_contains(text, size_marker()),
        None => false,
    })
}

/// The parameter that holds the size: the only one, or else the first
/// whose text holds `size`.
pub open spec fn size_param(params: Seq<Expr>, src: &SourceText) -> Option<int> {
    if params.len() == 1 {
        Some(0)
    } else if exists|at: int| is_size_param(params, src, at) {
        Some(choose|at: int| is_size_param(params, src, at) && forall|b: int| is_size_param(params, src, b) ==> at <= b)
    } else {
        None
    }
}

/// What an allocation whose size is the local `id` leads to: the size is
/// reported, with a note at `size`, unless something in the blocks
/// verifies it, and then the result, where the function returns a raw
/// pointer, unless something in the blocks verifies it.
pub open spec fn tracked_findings(
    call: &Expr,
    id: u64,
    size: Span,
    returns_ptr: bool,
    checkers: Seq<String>,
    ancestors: Seq<&Block>,
    known: KnownFns,
) -> Seq<Finding> {
    let unverified = !size_verified(ancestors, ancestors.len() as int, id, checkers);
    let unchecked = returns_ptr && !null_checked(
        ancestors,
        ancestors.len() as int,
        ResultQuery { binding: result_binding(call, ancestors), allocated: call.span, known },
    );
    (if unverified {
        seq![Finding::noted(FindingKind::UnverifiedAllocSize, call.span, size)]
    } else {
        Seq::empty()
    }) + (if unchecked {
        seq![Finding::plain(FindingKind::UncheckedAllocResult, call.span)]
    } else {
        Seq::empty()
    })
}

/// What the call `call` of an allocation function leads to.
pub open spec fn alloc_findings(
    call: &Expr,
    params: Seq<Expr>,
    returns_ptr: bool,
    checkers: Seq<String>,
    ancestors: Seq<&Block>,
    src: &SourceText,
    known: KnownFns,
) -> Seq<Finding> {
    match size_param(params, src) {
        None => Seq::empty(),
        Some(at) => {
            let param = &params[at];
            match local_of(param) {
                Some(id) => tracked_findings(
                    call,
                    id,
                    param.span,
                    returns_ptr,
                    checkers,
                    ancestors,
                    known,
                ),
                None => if checker_call(param, checkers) == Some(false) {
                    seq![Finding::noted(FindingKind::UnverifiedAllocSize, call.span, param.span)]
                } else {
                    Seq::empty()
                },
            }
        },
    }
}

/// The substrings that mark a function as a size checker by default.
pub fn default_size_checkers() -> (v: Vec<String>)
    ensures
        v@.len() == 7,
        v@[0]@ == "max"@,
        v@[1]@ == "min"@,
        v@[2]@ == "clamp"@,
        v@[3]@ == "check"@,
        v@[4]@ == "verif"@,
        v@[5]@ == "ensure"@,
        v@[6]@ == "assert"@,
{
    let mut v: Vec<String> = Vec::new();
    v.push("max".to_owned());
    v.push("min".to_owned());
    v.push("clamp".to_owned());
    v.push("check".to_owned());
    v.push("verif".to_owned());
    v.push("ensure".to_owned());
    v.push("assert".to_owned());
    v
}

/// Whether one of the checker substrings stands in `ident`.
pub fn is_checker_fn(ident: &str, fns: &Vec<String>) -> (b: bool)
    ensures
        b == is_checker(ident@, fns@),
{
    let name = chars_of(ident);
    let mut k: usize = 0;
    while k < fns.len()
        invariant
            k <= fns.len(),
            name@ == ident@,
            forall|j: int| 0 <= j < k ==> !seq_contains(ident@, #[trigger] fns@[j]@),
        decreases fns.len() - k,
    {
        let sub = chars_of(fns[k].as_str());
        if contains(&name, &sub) {
            return true;
        }
        k += 1;
    }
    false
}

/// Whether `e` calls a checker function.
pub fn expr_is_checker_call(e: &Expr, checker_fns: &Vec<String>) -> (r: Option<bool>)
    ensures
        r == checker_call(e, checker_fns@),
{
    match &e.kind {
        ExprKind::Call(callee, _) => match &callee.kind {
            ExprKind::Path(p) => if !p.qualified && p.segments.len() > 0 {
                Some(is_checker_fn(p.segments[p.segments.len() - 1].as_str(), checker_fns))
            } else {
                None
            },
            _ => None,
        },
        ExprKind::MethodCall(name, _, _, _) => Some(is_checker_fn(name.as_str(), checker_fns)),
        _ => None,
    }
}

/// The local that `e` names directly, with the range of the path.
pub fn path_hir_id_and_span(e: &Expr) -> (r: Option<(u64, Span)>)
    ensures
        r is Some == local_of(e) is Some,
        r matches Some((id, span)) ==> Some(id) == local_of(e) && span == e.span,
{
    match path_to_local(e) {
        Some(id) => Some((id, e.span)),
        None => None,
    }
}

/// Whether one of `args` stands for `id`.
fn mentions(args: &Vec<Expr>, id: u64) -> (b: bool)
    ensures
        b == mentions_in(args@, args@.len() as int, id),
{
    let mut k: usize = 0;
    while k < args.len()
        invariant
            k <= args.len(),
            !mentions_in(args@, k as int, id),
        decreases args.len() - k,
    {
        if path_hir_id_matches_id(&args[k], id) {
            return true;
        }
        k += 1;
    }
    false
}

/// Whether the call `e` is applied to the binding `id`.
fn is_applied_to(e: &Expr, id: u64) -> (b: bool)
    ensures
        b == applied_to(e, id),
{
    match &e.kind {
        ExprKind::Call(_, args) => mentions(args, id),
        ExprKind::MethodCall(_, _, recv, args) => path_hir_id_matches_id(recv, id) || mentions(
            args,
            id,
        ),
        _ => false,
    }
}

/// The binding that the statement puts the result of the call at `call`
/// into.
fn stmt_binds_result(s: &Stmt, call: Span) -> (r: Option<u64>)
    ensures
        r == binds_result(s, call),
{
    match &s.kind {
        StmtKind::Local(l) => match &l.init {
            Some(init) => if peel_casts(init).span == call {
                Some(l.pat.id)
            } else {
                None
            },
            None => None,
        },
        StmtKind::Expr(e) => expr_assigns_result(e, call),
        StmtKind::Semi(e) => expr_assigns_result(e, call),
        StmtKind::Item => None,
    }
}

/// The binding that the assignment `e` puts the result of the call at
/// `call` into.
fn expr_assigns_result(e: &Expr, call: Span) -> (r: Option<u64>)
    ensures
        r == assigns_result(e, call),
{
    match &e.kind {
        ExprKind::Assign(place, value) => if peel_casts(value).span == call {
            resolve_identity(place)
        } else {
            None
        },
        _ => None,
    }
}

/// The binding that holds the result of `call`.
pub fn find_result_binding(call: &Expr, ancestors: &Vec<&Block>) -> (r: Option<u64>)
    ensures
        r == result_binding(call, ancestors@),
{
    if ancestors.len() == 0 {
        return None;
    }
    let stmts = &ancestors[0].stmts;
    let mut i: usize = 0;
    while i < stmts.len()
        invariant
            i <= stmts.len(),
            ancestors@.len() > 0,
            stmts@ == ancestors@[0].stmts@,
            result_binding_from(stmts@, i as int, call.span) == result_binding_from(
                stmts@,
                0,
                call.span,
            ),
        decreases stmts.len() - i,
    {
        let bound = stmt_binds_result(&stmts[i], call.span);
        if bound.is_some() {
            return bound;
        }
        i += 1;
    }
    None
}

/// The search for what verifies one allocation.
pub struct VerifierFinder<'a> {
    /// The identity of the size.
    pub id: u64,
    pub size_verified: bool,
    pub ptr_verified: PtrStatus,
    pub alloc_size_check_fns: &'a Vec<String>,
    /// The binding that holds the result, where there is one.
    pub result: Option<u64>,
    /// The range of the allocation.
    pub allocated: Span,
    pub known: KnownFns,
}

impl<'a> VerifierFinder<'a> {
    /// Whether the node verifies the size.
    fn node_verifies_size(&self, node: &Node) -> (b: bool)
        ensures
            b == verifies_size(*node, self.id, self.alloc_size_check_fns@),
    {
        match node {
            Node::Expr(ex) => match &ex.kind {
                ExprKind::Binary(op, l, r) => {
                    let cmp_op = match op {
                        BinOp::Lt => true,
                        BinOp::Le => true,
                        BinOp::Gt => true,
                        BinOp::Ge => true,
                        BinOp::Eq => true,
                        _ => false,
                    };
                    cmp_op && (path_hir_id_matches_id(l, self.id) || path_hir_id_matches_id(
                        r,
                        self.id,
                    ))
                },
                ExprKind::Assign(place, value) => path_hir_id_matches_id(place, self.id) && (
                match expr_is_checker_call(value, self.alloc_size_check_fns) {
                    Some(true) => true,
                    _ => false,
                }),
                _ => match expr_is_checker_call(ex, self.alloc_size_check_fns) {
                    Some(true) => is_applied_to(ex, self.id),
                    _ => false,
                },
            },
            Node::Stmt(s) => match &s.kind {
                StmtKind::Local(l) => l.pat.id == self.id && (match &l.init {
                    Some(init) => match expr_is_checker_call(init, self.alloc_size_check_fns) {
                        Some(true) => true,
                        _ => false,
                    },
                    None => false,
                }),
                _ => false,
            },
            _ => false,
        }
    }

    /// What is followed of the result.
    pub open spec fn result_query(&self) -> ResultQuery {
        ResultQuery { binding: self.result, allocated: self.allocated, known: self.known }
    }

    /// Whether the node verifies the result.
    fn node_verifies_result(&self, node: &Node) -> (b: bool)
        ensures
            b == verifies_result(*node, self.result_query()),
    {
        match (node, self.result) {
            (Node::Expr(ex), Some(p)) => {
                if is_null_check(ex, p) {
                    return true;
                }
                match &ex.kind {
                    ExprKind::Assign(place, value) => path_hir_id_matches_id(place, p)
                        && self.allocated.hi <= ex.span.lo && !expr_is_creating_null_ptr(
                        value,
                        &self.known,
                    ),
                    _ => false,
                }
            },
            _ => false,
        }
    }

    /// Searches one block: the size becomes verified where something in
    /// the block verifies it, and so does the result.  What was verified
    /// stays verified.
    pub fn visit_block(&mut self, block: &Block)
        ensures
            final(self).id == old(self).id,
            final(self).alloc_size_check_fns == old(self).alloc_size_check_fns,
            final(self).result_query() == old(self).result_query(),
            final(self).size_verified == (old(self).size_verified || block_verifies_size(
                block,
                old(self).id,
                old(self).alloc_size_check_fns@,
            )),
            final(self).ptr_verified == ptr_status_after(
                old(self).ptr_verified,
                block_checks_null(block, old(self).result_query()),
            ),
    {
        let d = Descent::outside_closures();
        let mut nodes: Vec<Node> = Vec::new();
        walk_block(block, &d, &mut nodes);
        assert(nodes@ =~= block_events(block, d));
        let mut size_found = false;
        let mut null_found = false;
        let mut i: usize = 0;
        while i < nodes.len()
            invariant
                i <= nodes.len(),
                self.id == old(self).id,
                self.alloc_size_check_fns == old(self).alloc_size_check_fns,
                self.size_verified == old(self).size_verified,
                self.ptr_verified == old(self).ptr_verified,
                self.result_query() == old(self).result_query(),
                size_found == size_verified_in(nodes@, i as int, self.id, self.alloc_size_check_fns@),
                null_found == null_checked_in(nodes@, i as int, self.result_query()),
            decreases nodes.len() - i,
        {
            if self.node_verifies_size(&nodes[i]) {
                size_found = true;
            }
            if self.node_verifies_result(&nodes[i]) {
                null_found = true;
            }
            i += 1;
        }
        if size_found {
            self.size_verified = true;
        }
        if null_found {
            match self.ptr_verified {
                PtrStatus::Unverified => {
                    self.ptr_verified = PtrStatus::Verified;
                },
                _ => {},
            }
        }
    }
}

/// The parameter that holds the size.
fn find_size_param(params: &Vec<Expr>, src: &SourceText) -> (r: Option<usize>)
    ensures
        r is Some == size_param(params@, src) is Some,
        r matches Some(at) ==> Some(at as int) == size_param(params@, src) && at < params.len(),
{
    if params.len() == 1 {
        return Some(0);
    }
    let marker = chars_of("size");
    proof {
        reveal_strlit("size");
        assert(marker@ =~= size_marker());
    }
    let mut i: usize = 0;
    while i < params.len()
        invariant
            i <= params.len(),
            marker@ == size_marker(),
            params.len() != 1,
            forall|j: int| 0 <= j < i ==> !is_size_param(params@, src, j),
        decreases params.len() - i,
    {
        let found = match src.snippet(params[i].span) {
            Some(text) => contains(&text, &marker),
            None => false,
        };
        if found {
            assert(is_size_param(params@, src, i as int));
            let ghost chosen = choose|at: int|
                is_size_param(params@, src, at) && forall|b: int|
                    is_size_param(params@, src, b) ==> at <= b;
            assert(is_size_param(params@, src, i as int) && forall|b: int|
                is_size_param(params@, src, b) ==> i <= b);
            assert(chosen == i);
            return Some(i);
        }
        i += 1;
    }
    None
}

/// Checks an allocation whose size is the local `id`, named at `size`.
fn check_tracked(
    call: &Expr,
    id: u64,
    size: Span,
    returns_ptr: bool,
    alloc_size_check_fns: &Vec<String>,
    ancestors: &Vec<&Block>,
    known: &KnownFns,
) -> (out: Vec<Finding>)
    ensures
        out@ == tracked_findings(
            call,
            id,
            size,
            returns_ptr,
            alloc_size_check_fns@,
            ancestors@,
            *known,
        ),
{
    let mut finder = VerifierFinder {
        id,
        size_verified: false,
        ptr_verified: if returns_ptr {
            PtrStatus::Unverified
        } else {
            PtrStatus::NotPtr
        },
        alloc_size_check_fns,
        result: find_result_binding(call, ancestors),
        allocated: call.span,
        known: *known,
    };
    let ghost start = finder.ptr_verified;
    let ghost q = finder.result_query();
    let mut k: usize = 0;
    while k < ancestors.len()
        invariant
            k <= ancestors.len(),
            finder.id == id,
            finder.alloc_size_check_fns == alloc_size_check_fns,
            finder.result_query() == q,
            finder.size_verified == size_verified(ancestors@, k as int, id, alloc_size_check_fns@),
            finder.ptr_verified == ptr_status_after(start, null_checked(ancestors@, k as int, q)),
        decreases ancestors.len() - k,
    {
        finder.visit_block(ancestors[k]);
        k += 1;
    }
    let mut out: Vec<Finding> = Vec::new();
    if !finder.size_verified {
        out.push(Finding::with_note(FindingKind::UnverifiedAllocSize, call.span, size));
    }
    match finder.ptr_verified {
        PtrStatus::Unverified => {
            out.push(Finding::new(FindingKind::UncheckedAllocResult, call.span));
        },
        _ => {},
    }
    assert(out@ =~= tracked_findings(
        call,
        id,
        size,
        returns_ptr,
        alloc_size_check_fns@,
        ancestors@,
        *known,
    ));
    out
}

/// Checks a call of an allocation function.
///
/// `params` are the arguments of `call`, `returns_ptr` tells whether the
/// function returns a raw pointer, `ancestors` are the blocks around the
/// call, innermost first.  Where the size is a local that nothing in
/// those blocks verifies, the size is reported; where the function
/// returns a raw pointer and nothing in those blocks verifies the binding
/// that holds the result, the result is.  A size that is itself a call of
/// something that is no checker is reported too; any other size, a
/// literal among them, is not.
pub fn check_expr(
    call: &Expr,
    params: &Vec<Expr>,
    returns_ptr: bool,
    alloc_size_check_fns: &Vec<String>,
    ancestors: &Vec<&Block>,
    src: &SourceText,
    known: &KnownFns,
) -> (out: Vec<Finding>)
    ensures
        out@ == alloc_findings(
            call,
            params@,
            returns_ptr,
            alloc_size_check_fns@,
            ancestors@,
            src,
            *known,
        ),
{
    let at = match find_size_param(params, src) {
        Some(at) => at,
        None => {
            return Vec::new();
        },
    };
    let param = &params[at];
    match path_hir_id_and_span(param) {
        Some((id, span)) => check_tracked(
            call,
            id,
            span,
            returns_ptr,
            alloc_size_check_fns,
            ancestors,
            known,
        ),
        None => {
            let mut out: Vec<Finding> = Vec::new();
            match expr_is_checker_call(param, alloc_size_check_fns) {
                Some(false) => {
                    out.push(
                        Finding::with_note(FindingKind::UnverifiedAllocSize, call.span, param.span),
                    );
                },
                _ => {},
            }
            out
        },
    }
}

/// A literal size is never reported, whatever surrounds the call.
pub proof fn lemma_literal_size_is_not_reported(
    call: &Expr,
    params: Seq<Expr>,
    returns_ptr: bool,
    checkers: Seq<String>,
    ancestors: Seq<&Block>,
    src: &SourceText,
    known: KnownFns,
)
    requires
        size_param(params, src) matches Some(at) && params[at].kind is Lit,
    ensures
        alloc_findings(call, params, returns_ptr, checkers, ancestors, src, known) == Seq::<
            Finding,
        >::empty(),
{
}

} // verus!

verus! {

/// Scope isolation: a comparison whose operands stand for other bindings
/// does not verify the size, whatever those bindings are called.
pub proof fn lemma_comparison_of_other_binding(
    ex: &Expr,
    id: u64,
    checkers: Seq<String>,
)
    requires
        ex.kind matches ExprKind::Binary(_, l, r) && identity_of(&*l) != Some(id) && identity_of(
            &*r,
        ) != Some(id),
    ensures
        !verifies_size(Node::Expr(ex), id, checkers),
{
}

/// A checker function verifies the size only where it is applied to it.
pub proof fn lemma_checker_on_other_binding(ex: &Expr, id: u64, checkers: Seq<String>)
    requires
        !(ex.kind is Binary),
        !(ex.kind is Assign),
        !applied_to(ex, id),
    ensures
        !verifies_size(Node::Expr(ex), id, checkers),
{
}

} // verus!

verus! {

/// Scope isolation for the result: a null check of another binding does
/// not verify it, and without a binding that holds it nothing does.
pub proof fn lemma_null_check_of_other_binding(ex: &Expr, q: ResultQuery, other: u64)
    requires
        !(ex.kind is Assign),
        is_null_check_of(ex, other),
        q.binding != Some(other),
    ensures
        !verifies_result(Node::Expr(ex), q),
        forall|node: Node| !verifies_result(node, ResultQuery { binding: None, ..q }),
{
}

} // verus!

verus! {

/// A call is a checker call by the name of the function it calls: the
/// segments before the last of its path do not count.
pub proof fn lemma_checker_by_function_name(e: &Expr, checkers: Seq<String>)
    requires
        e.kind matches ExprKind::Call(callee, _) && (callee.kind matches ExprKind::Path(p)
            && !p.qualified && p.segments@.len() > 0),
    ensures
        e.kind matches ExprKind::Call(callee, _) && (callee.kind matches ExprKind::Path(p)
            && checker_call(e, checkers) == Some(is_checker(p.segments@.last()@, checkers))),
{
}

} // verus!
