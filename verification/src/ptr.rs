//! Null, dangling and doubly freed raw pointers.
//!
//! A pointer is followed from the statement that makes it suspect (it is
//! set to null, or handed to a deallocation function) through the rest of
//! the enclosing block.  An assignment to the pointer resets what is known
//! of it, a null check clears the suspicion of null; a dereference while it
//! is still suspect, or a second free, ends the scan with a finding.
//!
//! Each finding has one scan that reports it.  A scan ends, without a
//! finding, at the first assignment to the pointer behind its start: what
//! the pointer is from there on is for the scan that starts at that
//! assignment.  So a scan that starts at a free reports a dangling
//! dereference or a second free and nothing else, a scan that starts at
//! an assignment or a `let` reports a null dereference and nothing else,
//! and the note of a finding is always the statement the scan started
//! at.

use std::collections::HashSet;
use vstd::prelude::*;
use crate::finding::{Finding, FindingKind};
use crate::resolve::{
    def_of,
    identity_of,
    is_int_lit,
    is_integer_literal,
    path_def_id,
    path_hir_id_matches_id,
    path_res,
    peel_casts,
    res_of,
    resolve_callee,
    callee_of,
    without_casts,
};
use crate::span::Span;
use crate::text::{is_null_marker, seq_contains, str_contains};
use crate::tree::{Block, Constant, Expr, ExprKind, Local, Res, TyKind, UnOp};
use crate::walk::{block_events, visited, walk_scope, Descent, Node, Visitor};

verus! {

broadcast use vstd::std_specs::hash::group_hash_axioms;

/// The identities of the two functions that make a null pointer.
#[derive(Clone, Copy, Debug, PartialEq, Eq, Structural)]
pub struct KnownFns {
    pub ptr_null: Option<u64>,
    pub ptr_null_mut: Option<u64>,
}

/// What is known of the pointer at one point of the scan.
#[derive(Clone, Copy, Debug, PartialEq, Eq, Structural)]
pub struct PtrState {
    /// The pointer counts as null.
    pub is_null: bool,
    /// The pointer was handed to a deallocation function.
    pub was_freed: bool,
    /// Where `is_null` or `was_freed` was last set.
    pub since: Span,
    /// Where the pointer was dereferenced while null or freed.
    pub deref_span: Option<Span>,
    /// Where the pointer was freed a second time.
    pub free_span: Option<Span>,
}

/// What a scan looks for: the pointer, the window it searches, the
/// deallocation functions (where a second free is looked for), and the
/// null constructors.
pub struct PtrQuery {
    pub id: u64,
    pub window: Span,
    pub free: Option<Set<u64>>,
    pub known: KnownFns,
}

/// Whether `e` is statically known to make a null pointer: a path whose
/// constant value is the null pointer, the integer `0` cast to a raw
/// pointer, or a call of one of the two null constructors.
pub open spec fn creates_null(e: &Expr, known: KnownFns) -> bool {
    match &e.kind {
        ExprKind::Path(_) => e.value == Some(Constant::RawPtr(0)),
        ExprKind::Cast(inner, ty) => is_int_lit(without_casts(inner), 0) && ty.kind == TyKind::Ptr,
        ExprKind::Call(callee, args) => args@.len() == 0 && (match def_of(callee) {
            Some(id) => known.ptr_null == Some(id) || known.ptr_null_mut == Some(id),
            None => false,
        }),
        _ => false,
    }
}

/// Whether `e` is a call named like a null check (`is_null` stands in the
/// name of the method, or in the last segment of the called path) whose
/// receiver or first argument is the pointer `id`.
pub open spec fn is_null_check_of(e: &Expr, id: u64) -> bool {
    match &e.kind {
        ExprKind::MethodCall(name, _, recv, _) => seq_contains(name@, is_null_marker())
            && identity_of(recv) == Some(id),
        ExprKind::Call(callee, args) => match &callee.kind {
            ExprKind::Path(p) => p.segments@.len() > 0 && seq_contains(
                p.segments@.last()@,
                is_null_marker(),
            ) && args@.len() > 0 && identity_of(&args@[0]) == Some(id),
            _ => false,
        },
        _ => false,
    }
}

/// Whether `e` hands the pointer `id` as first argument to one of the
/// deallocation functions.
pub open spec fn frees(e: &Expr, id: u64, free: Option<Set<u64>>) -> bool {
    match &e.kind {
        ExprKind::Call(_, args) => args@.len() > 0 && identity_of(&args@[0]) == Some(id) && (
        match (free, callee_of(e)) {
            (Some(set), Some(f)) => set.contains(f),
            _ => false,
        }),
        _ => false,
    }
}

/// One step of the scan, on an expression inside the window: the state
/// after it, and whether the scan ends there.  An assignment to the
/// pointer resets the state and ends the scan.
pub open spec fn ptr_expr_step(q: PtrQuery, st: PtrState, ex: &Expr) -> (PtrState, bool) {
    match &ex.kind {
        ExprKind::Assign(place, value) => if identity_of(place) == Some(q.id) {
            (
                PtrState {
                    is_null: creates_null(value, q.known),
                    was_freed: false,
                    since: ex.span,
                    ..st
                },
                true,
            )
        } else {
            (st, false)
        },
        ExprKind::Unary(UnOp::Deref, x) => if identity_of(x) == Some(q.id) && (st.is_null
            || st.was_freed) {
            (PtrState { deref_span: Some(ex.span), ..st }, true)
        } else {
            (st, false)
        },
        _ => if st.was_freed && frees(ex, q.id, q.free) {
            (PtrState { free_span: Some(ex.span), ..st }, true)
        } else if is_null_check_of(ex, q.id) {
            (PtrState { is_null: false, ..st }, false)
        } else {
            (st, false)
        },
    }
}

/// One step of the scan: only expressions that lie inside the window
/// count.
pub open spec fn ptr_step(q: PtrQuery, st: PtrState, node: Node) -> (PtrState, bool) {
    match node {
        Node::Expr(ex) => if q.window.spec_contains(ex.span) {
            ptr_expr_step(q, st, ex)
        } else {
            (st, false)
        },
        _ => (st, false),
    }
}

/// The state in which the scan of `nodes` from position `from` on ends.
pub open spec fn ptr_scan(q: PtrQuery, nodes: Seq<Node>, from: int, st: PtrState) -> PtrState
    decreases nodes.len() - from,
{
    if from < 0 || from >= nodes.len() {
        st
    } else {
        let (next, stop) = ptr_step(q, st, nodes[from]);
        if stop {
            next
        } else {
            ptr_scan(q, nodes, from + 1, next)
        }
    }
}

/// The state a scan starts in.
pub open spec fn ptr_start(is_null: bool, was_freed: bool, at: Span) -> PtrState {
    PtrState { is_null, was_freed, since: at, deref_span: None, free_span: None }
}

/// The window that a scan searches: the enclosing block from the end of
/// the starting statement on.
pub open spec fn search_window(block: &Block, start: Span) -> Span {
    block.span.spec_with_lo(start.hi)
}

/// The finding that a finished scan stands for.
pub open spec fn ptr_verdict(end: PtrState) -> Option<Finding> {
    match (end.deref_span, end.free_span) {
        (Some(at), _) => Some(
            Finding::noted(
                if end.was_freed {
                    FindingKind::DanglingPtrDereference
                } else {
                    FindingKind::NullPtrDereference
                },
                at,
                end.since,
            ),
        ),
        (None, Some(at)) => Some(Finding::noted(FindingKind::PtrDoubleFree, at, end.since)),
        (None, None) => None,
    }
}

/// Whether `e` is statically known to make a null pointer.
pub fn expr_is_creating_null_ptr(e: &Expr, known: &KnownFns) -> (b: bool)
    ensures
        b == creates_null(e, *known),
{
    match &e.kind {
        ExprKind::Path(_) => match e.value {
            Some(Constant::RawPtr(n)) => n == 0,
            _ => false,
        },
        ExprKind::Cast(inner, ty) => is_integer_literal(peel_casts(inner), 0) && matches!(
            ty.kind,
            TyKind::Ptr
        ),
        ExprKind::Call(callee, args) => {
            if args.len() != 0 {
                return false;
            }
            match path_def_id(callee) {
                Some(id) => {
                    let a = match known.ptr_null {
                        Some(n) => n == id,
                        None => false,
                    };
                    let b = match known.ptr_null_mut {
                        Some(n) => n == id,
                        None => false,
                    };
                    a || b
                },
                None => false,
            }
        },
        _ => false,
    }
}

/// Whether `is_null` stands in `name`.
pub fn names_null_check(name: &str) -> (b: bool)
    ensures
        b == seq_contains(name@, is_null_marker()),
{
    proof {
        reveal_strlit("is_null");
        assert("is_null"@ =~= is_null_marker());
    }
    str_contains(name, "is_null")
}

/// Whether `e` is a null check of the pointer `id`.
pub fn is_null_check(e: &Expr, id: u64) -> (b: bool)
    ensures
        b == is_null_check_of(e, id),
{
    match &e.kind {
        ExprKind::MethodCall(name, _, recv, _) => names_null_check(name.as_str())
            && path_hir_id_matches_id(recv, id),
        ExprKind::Call(callee, args) => match &callee.kind {
            ExprKind::Path(p) => {
                if p.segments.len() == 0 || args.len() == 0 {
                    return false;
                }
                names_null_check(p.segments[p.segments.len() - 1].as_str())
                    && path_hir_id_matches_id(&args[0], id)
            },
            _ => false,
        },
        _ => false,
    }
}

/// The scan of one pointer through its enclosing block.
pub struct PtrValidator<'a> {
    /// The identity of the pointer.
    pub id: u64,
    pub parent_block: &'a Block,
    pub search_span: Span,
    pub state: PtrState,
    /// The deallocation functions, where the scan started at a free.
    pub free_fns: Option<&'a HashSet<u64>>,
    pub known: KnownFns,
}

impl<'a> PtrValidator<'a> {
    /// What this scan looks for.
    pub open spec fn query(&self) -> PtrQuery {
        PtrQuery {
            id: self.id,
            window: self.search_span,
            free: match self.free_fns {
                Some(set) => Some(set@),
                None => None,
            },
            known: self.known,
        }
    }

    /// A scan of the pointer `id` that starts behind `span` and ends with
    /// `parent_block`.
    pub fn new(span: Span, id: u64, is_null: bool, parent_block: &'a Block, known: &KnownFns) -> (v:
        Self)
        ensures
            v.id == id,
            v.parent_block == parent_block,
            v.search_span == search_window(parent_block, span),
            v.state == ptr_start(is_null, false, span),
            v.free_fns is None,
            v.known == *known,
    {
        PtrValidator {
            id,
            parent_block,
            search_span: parent_block.span.with_lo(span.hi),
            state: PtrState {
                is_null,
                was_freed: false,
                since: span,
                deref_span: None,
                free_span: None,
            },
            free_fns: None,
            known: *known,
        }
    }

    /// The scan that the assignment `expr` gives rise to: `expr` assigns
    /// to a path that names a local, and lies in a block.
    pub fn from_assignment(expr: &Expr, parent: Option<&'a Block>, known: &KnownFns) -> (r: Option<
        Self,
    >)
        ensures
            r is Some == (assigned_local(expr) is Some && parent is Some),
            r matches Some(v) ==> {
                &&& Some(v.id) == assigned_local(expr)
                &&& Some(v.parent_block) == parent
                &&& v.search_span == search_window(v.parent_block, expr.span)
                &&& v.state == ptr_start(assigned_null(expr, *known), false, expr.span)
                &&& v.free_fns is None
                &&& v.known == *known
            },
    {
        match &expr.kind {
            ExprKind::Assign(place, value) => match path_res(place) {
                Res::Local(id) => match parent {
                    Some(block) => {
                        let null = expr_is_creating_null_ptr(value, known);
                        Some(Self::new(expr.span, id, null, block, known))
                    },
                    None => None,
                },
                _ => None,
            },
            _ => None,
        }
    }

    /// The scan that the `let` statement `local` gives rise to: it has an
    /// initialiser and lies in a block.
    pub fn from_init(local: &Local, parent: Option<&'a Block>, known: &KnownFns) -> (r: Option<
        Self,
    >)
        ensures
            r is Some == (local.init is Some && parent is Some),
            r matches Some(v) ==> {
                &&& v.id == local.pat.id
                &&& Some(v.parent_block) == parent
                &&& v.search_span == search_window(v.parent_block, local.span)
                &&& v.state == ptr_start(creates_null(&local.init->0, *known), false, local.span)
                &&& v.free_fns is None
                &&& v.known == *known
            },
    {
        match &local.init {
            Some(init) => match parent {
                Some(block) => {
                    let null = expr_is_creating_null_ptr(init, known);
                    Some(Self::new(local.span, local.pat.id, null, block, known))
                },
                None => None,
            },
            None => None,
        }
    }

    /// The scan that the call `call` of a deallocation function gives rise
    /// to: its first argument is a path that names a local, and it lies in
    /// a block.
    pub fn from_call(
        call: &Expr,
        parent: Option<&'a Block>,
        free_fns: &'a HashSet<u64>,
        known: &KnownFns,
    ) -> (r: Option<Self>)
        ensures
            r is Some == (freed_local(call) is Some && parent is Some),
            r matches Some(v) ==> {
                &&& Some(v.id) == freed_local(call)
                &&& Some(v.parent_block) == parent
                &&& v.search_span == search_window(v.parent_block, call.span)
                &&& v.state == ptr_start(false, true, call.span)
                &&& v.free_fns == Some(free_fns)
                &&& v.known == *known
            },
    {
        match &call.kind {
            ExprKind::Call(_, args) => {
                if args.len() == 0 {
                    return None;
                }
                match path_res(&args[0]) {
                    Res::Local(id) => match parent {
                        Some(block) => Some(
                            Self::new(call.span, id, false, block, known).was_freed(true).free_fns(
                                free_fns,
                            ),
                        ),
                        None => None,
                    },
                    _ => None,
                }
            },
            _ => None,
        }
    }

    /// The same scan, started with the pointer freed or not.
    pub fn was_freed(self, yes: bool) -> (v: Self)
        ensures
            v.state == (PtrState { was_freed: yes, ..self.state }),
            v.id == self.id,
            v.parent_block == self.parent_block,
            v.search_span == self.search_span,
            v.free_fns == self.free_fns,
            v.known == self.known,
    {
        let mut v = self;
        v.state.was_freed = yes;
        v
    }

    /// The same scan, looking for a second call of one of `ids`.
    pub fn free_fns(self, ids: &'a HashSet<u64>) -> (v: Self)
        ensures
            v.free_fns == Some(ids),
            v.state == self.state,
            v.id == self.id,
            v.parent_block == self.parent_block,
            v.search_span == self.search_span,
            v.known == self.known,
    {
        let mut v = self;
        v.free_fns = Some(ids);
        v
    }

    /// Whether `e` frees the pointer.
    fn is_free(&self, e: &Expr) -> (b: bool)
        ensures
            b == frees(e, self.id, self.query().free),
    {
        match &e.kind {
            ExprKind::Call(_, args) => {
                if args.len() == 0 || !path_hir_id_matches_id(&args[0], self.id) {
                    return false;
                }
                match (self.free_fns, resolve_callee(e)) {
                    (Some(set), Some(f)) => set.contains(&f),
                    _ => false,
                }
            },
            _ => false,
        }
    }

    /// Takes one expression of the window into account; says whether the
    /// scan ends there.
    fn step(&mut self, ex: &Expr) -> (stop: bool)
        ensures
            (final(self).state, stop) == ptr_expr_step(old(self).query(), old(self).state, ex),
            final(self).id == old(self).id,
            final(self).parent_block == old(self).parent_block,
            final(self).search_span == old(self).search_span,
            final(self).free_fns == old(self).free_fns,
            final(self).known == old(self).known,
    {
        match &ex.kind {
            ExprKind::Assign(place, value) => {
                if path_hir_id_matches_id(place, self.id) {
                    self.state.is_null = expr_is_creating_null_ptr(value, &self.known);
                    self.state.was_freed = false;
                    self.state.since = ex.span;
                    true
                } else {
                    false
                }
            },
            ExprKind::Unary(UnOp::Deref, x) => {
                if path_hir_id_matches_id(x, self.id) && (self.state.is_null
                    || self.state.was_freed) {
                    self.state.deref_span = Some(ex.span);
                    true
                } else {
                    false
                }
            },
            _ => {
                if self.state.was_freed && self.is_free(ex) {
                    self.state.free_span = Some(ex.span);
                    true
                } else if is_null_check(ex, self.id) {
                    self.state.is_null = false;
                    false
                } else {
                    false
                }
            },
        }
    }

    /// Runs the scan: every expression of the enclosing block that lies
    /// in the window, in walk order and outside closures, up to the first
    /// that ends it.
    pub fn visit(&mut self)
        ensures
            final(self).state == ptr_scan(
                old(self).query(),
                block_events(old(self).parent_block, Descent::spec_outside_closures()),
                0,
                old(self).state,
            ),
            final(self).id == old(self).id,
            final(self).parent_block == old(self).parent_block,
            final(self).search_span == old(self).search_span,
            final(self).free_fns == old(self).free_fns,
            final(self).known == old(self).known,
    {
        let d = Descent::outside_closures();
        let scope = self.parent_block;
        proof {
            lemma_visitor_runs_the_scan(*self, block_events(scope, d), 0);
        }
        let _ = walk_scope(scope, &d, self);
    }
}

impl<'a, 'b> Visitor<'b> for PtrValidator<'a> {
    type Out = Span;

    /// The scan behind the node: its state one step on, and the range of
    /// the node where the scan ends there.
    open spec fn after(&self, node: Node<'b>) -> (Self, Option<Span>) {
        let (next, stop) = ptr_step(self.query(), self.state, node);
        (
            PtrValidator { state: next, ..*self },
            match node {
                Node::Expr(ex) => if stop {
                    Some(ex.span)
                } else {
                    None
                },
                _ => None,
            },
        )
    }

    fn visit(&mut self, node: Node<'b>) -> (r: Option<Span>) {
        match node {
            Node::Expr(ex) => {
                if self.search_span.contains(ex.span) && self.step(ex) {
                    Some(ex.span)
                } else {
                    None
                }
            },
            _ => None,
        }
    }
}

/// A walk with the validator as visitor runs the scan: it leaves the
/// validator in the state in which the scan of the walked nodes ends.
pub proof fn lemma_visitor_runs_the_scan(v: PtrValidator, nodes: Seq<Node>, from: int)
    ensures
        visited(nodes, from, v).0 == (PtrValidator {
            state: ptr_scan(v.query(), nodes, from, v.state),
            ..v
        }),
    decreases nodes.len() - from,
{
    if 0 <= from < nodes.len() {
        let (next, r) = v.after(nodes[from]);
        if r is None {
            lemma_visitor_runs_the_scan(next, nodes, from + 1);
        }
    }
}

/// The local that the assignment `expr` assigns to, where its place is a
/// path that names one.
pub open spec fn assigned_local(expr: &Expr) -> Option<u64> {
    match &expr.kind {
        ExprKind::Assign(place, _) => match res_of(place) {
            Res::Local(id) => Some(id),
            _ => None,
        },
        _ => None,
    }
}

/// Whether the assignment `expr` assigns a null pointer.
pub open spec fn assigned_null(expr: &Expr, known: KnownFns) -> bool {
    match &expr.kind {
        ExprKind::Assign(_, value) => creates_null(value, known),
        _ => false,
    }
}

/// The local that the call `call` has as its first argument, where that
/// is a path that names one.
pub open spec fn freed_local(call: &Expr) -> Option<u64> {
    match &call.kind {
        ExprKind::Call(_, args) => if args@.len() > 0 {
            match res_of(&args@[0]) {
                Res::Local(id) => Some(id),
                _ => None,
            }
        } else {
            None
        },
        _ => None,
    }
}

/// The finding of the scan that starts at `start` in `block`.
pub open spec fn ptr_finding(q: PtrQuery, block: &Block, start: PtrState) -> Option<Finding> {
    ptr_verdict(ptr_scan(q, block_events(block, Descent::spec_outside_closures()), 0, start))
}

/// What the assignment `expr` leads to: in user-written code, where it
/// assigns to a local and lies in a block, the finding of the scan of
/// that local behind it.
pub open spec fn assign_finding(expr: &Expr, parent: Option<&Block>, known: KnownFns) -> Option<
    Finding,
> {
    match (assigned_local(expr), parent) {
        (Some(id), Some(block)) => if expr.span.ctxt != 0 {
            None
        } else {
            ptr_finding(
                PtrQuery { id, window: search_window(block, expr.span), free: None, known },
                block,
                ptr_start(assigned_null(expr, known), false, expr.span),
            )
        },
        _ => None,
    }
}

/// What the `let` statement `local` leads to.
pub open spec fn local_finding(local: &Local, parent: Option<&Block>, known: KnownFns) -> Option<
    Finding,
> {
    match (&local.init, parent) {
        (Some(init), Some(block)) => if local.span.ctxt != 0 {
            None
        } else {
            ptr_finding(
                PtrQuery {
                    id: local.pat.id,
                    window: search_window(block, local.span),
                    free: None,
                    known,
                },
                block,
                ptr_start(creates_null(init, known), false, local.span),
            )
        },
        _ => None,
    }
}

/// What the call `call` of a deallocation function leads to.
pub open spec fn call_finding(
    call: &Expr,
    parent: Option<&Block>,
    free: Set<u64>,
    known: KnownFns,
) -> Option<Finding> {
    match (freed_local(call), parent) {
        (Some(id), Some(block)) => ptr_finding(
            PtrQuery { id, window: search_window(block, call.span), free: Some(free), known },
            block,
            ptr_start(false, true, call.span),
        ),
        _ => None,
    }
}

/// The finding that the state at the end of a scan stands for.
pub fn verdict(end: &PtrState) -> (f: Option<Finding>)
    ensures
        f == ptr_verdict(*end),
{
    match (end.deref_span, end.free_span) {
        (Some(at), _) => {
            let kind = if end.was_freed {
                FindingKind::DanglingPtrDereference
            } else {
                FindingKind::NullPtrDereference
            };
            Some(Finding::with_note(kind, at, end.since))
        },
        (None, Some(at)) => Some(Finding::with_note(FindingKind::PtrDoubleFree, at, end.since)),
        (None, None) => None,
    }
}

/// Checks an assignment: reports the dereference of a pointer that the
/// assignment set to null, up to the next assignment to the pointer.  The
/// finding, if there is one, is a null dereference, noted at the
/// assignment.
pub fn check_assign(expr: &Expr, parent: Option<&Block>, known: &KnownFns) -> (f: Option<Finding>)
    ensures
        f == assign_finding(expr, parent, *known),
        f matches Some(found) ==> found.kind == FindingKind::NullPtrDereference && found.note
            == Some(expr.span) && assigned_null(expr, *known),
{
    proof {
        lemma_assign_finding_is_a_null_error(expr, parent, *known);
    }
    if expr.span.from_expansion() {
        return None;
    }
    match PtrValidator::from_assignment(expr, parent, known) {
        Some(v) => {
            let mut v = v;
            v.visit();
            verdict(&v.state)
        },
        None => None,
    }
}

/// Checks a `let` statement: reports the dereference of a pointer that
/// the statement set to null, up to the first assignment to the pointer.
/// The finding, if there is one, is a null dereference, noted at the
/// statement.
pub fn check_local(local: &Local, parent: Option<&Block>, known: &KnownFns) -> (f: Option<Finding>)
    ensures
        f == local_finding(local, parent, *known),
        f matches Some(found) ==> found.kind == FindingKind::NullPtrDereference && found.note
            == Some(local.span) && (local.init matches Some(init) && creates_null(&init, *known)),
{
    proof {
        lemma_local_finding_is_a_null_error(local, parent, *known);
    }
    if local.span.from_expansion() {
        return None;
    }
    match PtrValidator::from_init(local, parent, known) {
        Some(v) => {
            let mut v = v;
            v.visit();
            verdict(&v.state)
        },
        None => None,
    }
}

/// Checks a call of a deallocation function: follows the freed pointer
/// up to the first assignment to it, and reports a dereference of it or a
/// second free of it before that.  The finding, if there is one, is a
/// dangling dereference or a double free, noted at the call; there is
/// none where the first argument is no path to a local, or where no
/// block lies around the call.
pub fn check_call(
    call: &Expr,
    parent: Option<&Block>,
    free_fns: &HashSet<u64>,
    known: &KnownFns,
) -> (f: Option<Finding>)
    ensures
        f == call_finding(call, parent, free_fns@, *known),
        f matches Some(found) ==> (found.kind == FindingKind::DanglingPtrDereference || found.kind
            == FindingKind::PtrDoubleFree) && found.note == Some(call.span),
        (freed_local(call) is None || parent is None) ==> f is None,
{
    proof {
        lemma_call_finding_is_a_free_error(call, parent, free_fns@, *known);
    }
    match PtrValidator::from_call(call, parent, free_fns, known) {
        Some(v) => {
            let mut v = v;
            v.visit();
            verdict(&v.state)
        },
        None => None,
    }
}

} // verus!

verus! {

/// Whether the operand that a scan step looks at stands for the binding
/// `id`: the place of an assignment, the operand of a dereference, the
/// first argument of a call, the receiver of a method call.
pub open spec fn concerns(ex: &Expr, id: u64) -> bool {
    match &ex.kind {
        ExprKind::Assign(place, _) => identity_of(place) == Some(id),
        ExprKind::Unary(UnOp::Deref, x) => identity_of(x) == Some(id),
        ExprKind::Call(_, args) => args@.len() > 0 && identity_of(&args@[0]) == Some(id),
        ExprKind::MethodCall(_, _, recv, _) => identity_of(recv) == Some(id),
        _ => false,
    }
}

/// An expression that does not concern the tracked binding leaves the
/// scan as it is.
pub proof fn lemma_other_bindings_do_not_count(q: PtrQuery, st: PtrState, ex: &Expr)
    requires
        !concerns(ex, q.id),
    ensures
        ptr_expr_step(q, st, ex) == (st, false),
{
}

/// Scope isolation: what happens to one binding never counts for
/// another.  An expression that concerns the binding `other` leaves the
/// scan of any other binding as it is, whatever the two are called.
pub proof fn lemma_scope_isolation(q: PtrQuery, st: PtrState, ex: &Expr, other: u64)
    requires
        other != q.id,
        concerns(ex, other),
    ensures
        !concerns(ex, q.id),
        ptr_expr_step(q, st, ex) == (st, false),
{
}

/// An expression outside the search window leaves the scan as it is.
pub proof fn lemma_outside_window_does_not_count(q: PtrQuery, st: PtrState, ex: &Expr)
    requires
        !q.window.spec_contains(ex.span),
    ensures
        ptr_step(q, st, Node::Expr(ex)) == (st, false),
{
}

/// Reassignment resets the state and ends the scan: after an assignment
/// to the pointer it counts as null exactly if the assigned value makes a
/// null pointer, and no longer as freed, and nothing behind the
/// assignment is reported by this scan.  In the state that the assignment
/// leaves, which is the state its own scan starts in, a dereference of
/// the pointer is reported exactly if the assigned value makes a null
/// pointer.
pub proof fn lemma_reassignment_resets(q: PtrQuery, st: PtrState, assign: &Expr, deref: &Expr)
    requires
        assign.kind matches ExprKind::Assign(place, _) && identity_of(&*place) == Some(q.id),
        deref.kind matches ExprKind::Unary(UnOp::Deref, x) && identity_of(&*x) == Some(q.id),
        st.deref_span is None,
        st.free_span is None,
    ensures
        ({
            let after = ptr_expr_step(q, st, assign);
            &&& after.1
            &&& ptr_verdict(after.0) is None
            &&& after.0 == ptr_start(assigned_null(assign, q.known), false, assign.span)
            &&& !assigned_null(assign, q.known) ==> ptr_expr_step(q, after.0, deref) == (after.0, false)
            &&& assigned_null(assign, q.known) ==> ptr_expr_step(q, after.0, deref) == (
                PtrState { deref_span: Some(deref.span), ..after.0 },
                true,
            )
        }),
{
}

/// The note of a finding is the statement that the scan started at.
pub proof fn lemma_note_is_the_start(q: PtrQuery, nodes: Seq<Node>, from: int, st: PtrState)
    requires
        st.deref_span is None,
        st.free_span is None,
    ensures
        ptr_verdict(ptr_scan(q, nodes, from, st)) matches Some(f) ==> f.note == Some(st.since),
    decreases nodes.len() - from,
{
    if 0 <= from < nodes.len() {
        let (next, stop) = ptr_step(q, st, nodes[from]);
        if !stop {
            lemma_note_is_the_start(q, nodes, from + 1, next);
        }
    }
}

/// A scan that starts with a pointer that is neither null nor freed
/// reports nothing.
pub proof fn lemma_unsuspected_pointer_is_not_reported(
    q: PtrQuery,
    nodes: Seq<Node>,
    from: int,
    st: PtrState,
)
    requires
        !st.is_null,
        !st.was_freed,
        st.deref_span is None,
        st.free_span is None,
    ensures
        ptr_verdict(ptr_scan(q, nodes, from, st)) is None,
    decreases nodes.len() - from,
{
    if 0 <= from < nodes.len() {
        let (next, stop) = ptr_step(q, st, nodes[from]);
        if !stop {
            lemma_unsuspected_pointer_is_not_reported(q, nodes, from + 1, next);
        }
    }
}

/// A pointer is suspected only on evidence: a step makes it count as
/// null only by an assignment to it, and never makes it count as freed.
pub proof fn lemma_suspicion_needs_assignment(q: PtrQuery, st: PtrState, ex: &Expr)
    ensures
        ptr_expr_step(q, st, ex).0.was_freed ==> st.was_freed,
        ptr_expr_step(q, st, ex).0.is_null && !st.is_null ==> (ex.kind is Assign && concerns(
            ex,
            q.id,
        )),
{
}

/// A second free ends the scan: while the pointer counts as freed, a call
/// that hands it to a deallocation function is reported as a double free
/// at that call, with a note at the place where it was freed before.
pub proof fn lemma_second_free_is_reported(q: PtrQuery, st: PtrState, ex: &Expr)
    requires
        st.was_freed,
        st.deref_span is None,
        frees(ex, q.id, q.free),
    ensures
        ptr_expr_step(q, st, ex) == (PtrState { free_span: Some(ex.span), ..st }, true),
        ptr_verdict(ptr_expr_step(q, st, ex).0) == Some(
            Finding::noted(FindingKind::PtrDoubleFree, ex.span, st.since),
        ),
{
}

/// A scan never reports anything that lies outside its window: the range
/// of a dereference or second free that it records is inside the window.
pub proof fn lemma_findings_lie_in_window(q: PtrQuery, nodes: Seq<Node>, from: int, st: PtrState)
    requires
        st.deref_span is None,
        st.free_span is None,
    ensures
        ({
            let end = ptr_scan(q, nodes, from, st);
            &&& end.deref_span matches Some(at) ==> q.window.spec_contains(at)
            &&& end.free_span matches Some(at) ==> q.window.spec_contains(at)
            &&& !(end.deref_span is Some && end.free_span is Some)
        }),
    decreases nodes.len() - from,
{
    if 0 <= from < nodes.len() {
        let (next, stop) = ptr_step(q, st, nodes[from]);
        if !stop {
            lemma_findings_lie_in_window(q, nodes, from + 1, next);
        }
    }
}

} // verus!

verus! {

/// The scan of a freed pointer reports a dangling dereference or a second
/// free, with a note at the free, and nothing else: never a null
/// dereference, and never both.
pub proof fn lemma_freed_scan_reports_free_errors(
    q: PtrQuery,
    nodes: Seq<Node>,
    from: int,
    st: PtrState,
)
    requires
        st.was_freed,
        st.deref_span is None,
        st.free_span is None,
    ensures
        ptr_verdict(ptr_scan(q, nodes, from, st)) matches Some(f) ==> (f.kind
            == FindingKind::DanglingPtrDereference || f.kind == FindingKind::PtrDoubleFree)
            && f.note == Some(st.since),
    decreases nodes.len() - from,
{
    if 0 <= from < nodes.len() {
        let (next, stop) = ptr_step(q, st, nodes[from]);
        if !stop {
            lemma_freed_scan_reports_free_errors(q, nodes, from + 1, next);
        }
    }
}

/// The scan of a pointer that was not freed reports a null dereference
/// and nothing else.
pub proof fn lemma_unfreed_scan_reports_null_errors(
    q: PtrQuery,
    nodes: Seq<Node>,
    from: int,
    st: PtrState,
)
    requires
        !st.was_freed,
        st.deref_span is None,
        st.free_span is None,
    ensures
        ptr_verdict(ptr_scan(q, nodes, from, st)) matches Some(f) ==> f.kind
            == FindingKind::NullPtrDereference,
    decreases nodes.len() - from,
{
    if 0 <= from < nodes.len() {
        let (next, stop) = ptr_step(q, st, nodes[from]);
        if !stop {
            lemma_unfreed_scan_reports_null_errors(q, nodes, from + 1, next);
        }
    }
}

/// What a call of a deallocation function leads to is at most one
/// finding, a dangling dereference or a second free, noted at the call;
/// there is none where the first argument is no path to a local or no
/// block lies around the call.
pub proof fn lemma_call_finding_is_a_free_error(
    call: &Expr,
    parent: Option<&Block>,
    free: Set<u64>,
    known: KnownFns,
)
    ensures
        call_finding(call, parent, free, known) matches Some(f) ==> (f.kind
            == FindingKind::DanglingPtrDereference || f.kind == FindingKind::PtrDoubleFree)
            && f.note == Some(call.span),
        (freed_local(call) is None || parent is None) ==> call_finding(call, parent, free, known)
            is None,
{
    match (freed_local(call), parent) {
        (Some(id), Some(block)) => {
            lemma_freed_scan_reports_free_errors(
                PtrQuery { id, window: search_window(block, call.span), free: Some(free), known },
                block_events(block, Descent::spec_outside_closures()),
                0,
                ptr_start(false, true, call.span),
            );
        },
        _ => {},
    }
}

/// What an assignment leads to is at most one finding, a null
/// dereference.
pub proof fn lemma_assign_finding_is_a_null_error(
    expr: &Expr,
    parent: Option<&Block>,
    known: KnownFns,
)
    ensures
        assign_finding(expr, parent, known) matches Some(f) ==> f.kind
            == FindingKind::NullPtrDereference && f.note == Some(expr.span) && assigned_null(
            expr,
            known,
        ),
{
    match (assigned_local(expr), parent) {
        (Some(id), Some(block)) => {
            let q = PtrQuery { id, window: search_window(block, expr.span), free: None, known };
            let nodes = block_events(block, Descent::spec_outside_closures());
            let start = ptr_start(assigned_null(expr, known), false, expr.span);
            lemma_unfreed_scan_reports_null_errors(q, nodes, 0, start);
            lemma_note_is_the_start(q, nodes, 0, start);
            if !assigned_null(expr, known) {
                lemma_unsuspected_pointer_is_not_reported(q, nodes, 0, start);
            }
        },
        _ => {},
    }
}

/// What a `let` leads to is at most one finding, a null dereference.
pub proof fn lemma_local_finding_is_a_null_error(
    local: &Local,
    parent: Option<&Block>,
    known: KnownFns,
)
    ensures
        local_finding(local, parent, known) matches Some(f) ==> f.kind
            == FindingKind::NullPtrDereference && f.note == Some(local.span) && (
        local.init matches Some(init) && creates_null(&init, known)),
{
    match (&local.init, parent) {
        (Some(init), Some(block)) => {
            let q = PtrQuery {
                id: local.pat.id,
                window: search_window(block, local.span),
                free: None,
                known,
            };
            let nodes = block_events(block, Descent::spec_outside_closures());
            let start = ptr_start(creates_null(init, known), false, local.span);
            lemma_unfreed_scan_reports_null_errors(q, nodes, 0, start);
            lemma_note_is_the_start(q, nodes, 0, start);
            if !creates_null(init, known) {
                lemma_unsuspected_pointer_is_not_reported(q, nodes, 0, start);
            }
        },
        _ => {},
    }
}

} // verus!
