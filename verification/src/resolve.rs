//! From an expression to the identity it stands for.
//!
//! A call is resolved to the declared function it invokes, a place to the
//! local binding it names.  Wrappers that do not change which binding is
//! meant (a borrow, a unary operator such as a dereference, a cast) are
//! peeled off first.

use vstd::prelude::*;
use crate::tree::{BorrowKind, DefKind, Expr, ExprKind, LitKind, Res};

verus! {

/// The function that the call `e` invokes: that of a method call as the
/// host resolved it, that of a call whose callee is a path to a function,
/// an associated function or a constructor.  Any other expression, and a
/// call through a value, has none.
pub open spec fn callee_of(e: &Expr) -> Option<u64> {
    match &e.kind {
        ExprKind::MethodCall(_, def, _, _) => *def,
        ExprKind::Call(f, _) => match &f.kind {
            ExprKind::Path(p) => match p.res {
                Res::Def(DefKind::Fn, id) => Some(id),
                Res::Def(DefKind::AssocFn, id) => Some(id),
                Res::Def(DefKind::Ctor, id) => Some(id),
                _ => None,
            },
            _ => None,
        },
        _ => None,
    }
}

/// What the expression `e` is resolved to if it is a path.
pub open spec fn res_of(e: &Expr) -> Res {
    match &e.kind {
        ExprKind::Path(p) => p.res,
        _ => Res::Unresolved,
    }
}

/// The definition that the path `e` leads to, of whatever kind.
pub open spec fn def_of(e: &Expr) -> Option<u64> {
    match res_of(e) {
        Res::Def(_, id) => Some(id),
        _ => None,
    }
}

/// The local binding that `e` names directly: `e` is a plain path (not
/// one through a type) to a local.
pub open spec fn local_of(e: &Expr) -> Option<u64> {
    match &e.kind {
        ExprKind::Path(p) => match p.res {
            Res::Local(id) => if p.qualified {
                None
            } else {
                Some(id)
            },
            _ => None,
        },
        _ => None,
    }
}

/// `e` without the casts around it.
pub open spec fn without_casts(e: &Expr) -> &Expr
    decreases e,
{
    match &e.kind {
        ExprKind::Cast(inner, _) => without_casts(inner),
        _ => e,
    }
}

/// `e` without the shared borrows around it.
pub open spec fn without_refs(e: &Expr) -> &Expr
    decreases e,
{
    match &e.kind {
        ExprKind::AddrOf(BorrowKind::Ref, inner) => without_refs(inner),
        _ => e,
    }
}

/// The receiver at the start of a chain of method calls.
pub open spec fn without_method_calls(e: &Expr) -> &Expr
    decreases e,
{
    match &e.kind {
        ExprKind::MethodCall(_, _, recv, _) => without_method_calls(recv),
        _ => e,
    }
}

/// `e` without the shared borrows, unary operators and casts around it.
pub open spec fn peeled(e: &Expr) -> &Expr
    decreases e,
{
    match &e.kind {
        ExprKind::AddrOf(BorrowKind::Ref, inner) => peeled(inner),
        ExprKind::Unary(_, inner) => peeled(inner),
        ExprKind::Cast(inner, _) => peeled(inner),
        _ => e,
    }
}

/// The local binding that `e` stands for once it is peeled.
pub open spec fn identity_of(e: &Expr) -> Option<u64> {
    match res_of(peeled(e)) {
        Res::Local(id) => Some(id),
        _ => None,
    }
}

/// Whether `e` is the integer literal `n`.
pub open spec fn is_int_lit(e: &Expr, n: u128) -> bool {
    match &e.kind {
        ExprKind::Lit(l) => l.kind == LitKind::Int(n),
        _ => false,
    }
}

/// The function that the call `e` invokes, if it can be resolved.
pub fn resolve_callee(e: &Expr) -> (r: Option<u64>)
    ensures
        r == callee_of(e),
{
    match &e.kind {
        ExprKind::MethodCall(_, def, _, _) => *def,
        ExprKind::Call(f, _) => match &f.kind {
            ExprKind::Path(p) => match p.res {
                Res::Def(DefKind::Fn, id) => Some(id),
                Res::Def(DefKind::AssocFn, id) => Some(id),
                Res::Def(DefKind::Ctor, id) => Some(id),
                _ => None,
            },
            _ => None,
        },
        _ => None,
    }
}

/// What `e` is resolved to if it is a path.
pub fn path_res(e: &Expr) -> (r: Res)
    ensures
        r == res_of(e),
{
    match &e.kind {
        ExprKind::Path(p) => p.res,
        _ => Res::Unresolved,
    }
}

/// The definition that the path `e` leads to.
pub fn path_def_id(e: &Expr) -> (r: Option<u64>)
    ensures
        r == def_of(e),
{
    match path_res(e) {
        Res::Def(_, id) => Some(id),
        _ => None,
    }
}

/// The local binding that `e` names directly.
pub fn path_to_local(e: &Expr) -> (r: Option<u64>)
    ensures
        r == local_of(e),
{
    match &e.kind {
        ExprKind::Path(p) => match p.res {
            Res::Local(id) => if p.qualified {
                None
            } else {
                Some(id)
            },
            _ => None,
        },
        _ => None,
    }
}

/// `e` without the casts around it.
pub fn peel_casts(e: &Expr) -> (r: &Expr)
    ensures
        r == without_casts(e),
    decreases e,
{
    match &e.kind {
        ExprKind::Cast(inner, _) => peel_casts(inner),
        _ => e,
    }
}

/// `e` without the shared borrows around it.
pub fn peel_refs(e: &Expr) -> (r: &Expr)
    ensures
        r == without_refs(e),
    decreases e,
{
    match &e.kind {
        ExprKind::AddrOf(BorrowKind::Ref, inner) => peel_refs(inner),
        _ => e,
    }
}

/// The receiver at the start of a chain of method calls.
pub fn peel_method_calls(e: &Expr) -> (r: &Expr)
    ensures
        r == without_method_calls(e),
    decreases e,
{
    match &e.kind {
        ExprKind::MethodCall(_, _, recv, _) => peel_method_calls(recv),
        _ => e,
    }
}

/// `e` without the shared borrows, unary operators and casts around it.
pub fn peel(e: &Expr) -> (r: &Expr)
    ensures
        r == peeled(e),
    decreases e,
{
    match &e.kind {
        ExprKind::AddrOf(BorrowKind::Ref, inner) => peel(inner),
        ExprKind::Unary(_, inner) => peel(inner),
        ExprKind::Cast(inner, _) => peel(inner),
        _ => e,
    }
}

/// The local binding that `e` stands for once it is peeled.
pub fn resolve_identity(e: &Expr) -> (r: Option<u64>)
    ensures
        r == identity_of(e),
{
    match path_res(peel(e)) {
        Res::Local(id) => Some(id),
        _ => None,
    }
}

/// Whether `e`, once peeled, names the local binding `id`.
pub fn path_hir_id_matches_id(e: &Expr, id: u64) -> (b: bool)
    ensures
        b == (identity_of(e) == Some(id)),
{
    match resolve_identity(e) {
        Some(found) => found == id,
        None => false,
    }
}

/// Whether `e` is the integer literal `n`.
pub fn is_integer_literal(e: &Expr, n: u128) -> (b: bool)
    ensures
        b == is_int_lit(e, n),
{
    match &e.kind {
        ExprKind::Lit(l) => match l.kind {
            LitKind::Int(v) => v == n,
            _ => false,
        },
        _ => false,
    }
}

/// Whether `e` is `x` under a chain of `depth` wrappers, each a shared
/// borrow, a unary operator or a cast.
pub open spec fn wraps(e: &Expr, x: &Expr, depth: nat) -> bool
    decreases depth,
{
    if depth == 0 {
        e == x
    } else {
        match &e.kind {
            ExprKind::AddrOf(BorrowKind::Ref, inner) => wraps(inner, x, (depth - 1) as nat),
            ExprKind::Unary(_, inner) => wraps(inner, x, (depth - 1) as nat),
            ExprKind::Cast(inner, _) => wraps(inner, x, (depth - 1) as nat),
            _ => false,
        }
    }
}

/// Peeling is transparent: an expression built from `x` by borrows,
/// unary operators and casts stands for the same binding as `x`.
pub proof fn lemma_peeling_preserves_identity(e: &Expr, x: &Expr, depth: nat)
    requires
        wraps(e, x, depth),
    ensures
        peeled(e) == peeled(x),
        identity_of(e) == identity_of(x),
    decreases depth,
{
    if depth > 0 {
        match &e.kind {
            ExprKind::AddrOf(BorrowKind::Ref, inner) => {
                lemma_peeling_preserves_identity(inner, x, (depth - 1) as nat);
            },
            ExprKind::Unary(_, inner) => {
                lemma_peeling_preserves_identity(inner, x, (depth - 1) as nat);
            },
            ExprKind::Cast(inner, _) => {
                lemma_peeling_preserves_identity(inner, x, (depth - 1) as nat);
            },
            _ => {},
        }
    }
}

/// A path to a local stands for that local whatever its name: two
/// bindings are the same exactly when their identities are.
pub proof fn lemma_identity_ignores_names(e: &Expr, id: u64)
    requires
        e.kind matches ExprKind::Path(p) && p.res == Res::Local(id),
    ensures
        identity_of(e) == Some(id),
        forall|other: u64| other != id ==> identity_of(e) != Some(other),
{
}

} // verus!
