//! The foreign-function boundary: dangerous and non-reentrant functions,
//! native strings handed to foreign functions, types without a declared
//! layout, and foreign blocks without a calling convention.

use std::collections::HashSet;
use vstd::prelude::*;
use crate::finding::{Finding, FindingKind};
use crate::ids::{is_foreign_fn, Program};
use crate::item::{Abi, ForeignItem, Item, ItemKind, ParamTy};
use crate::resolve::{callee_of, def_of, local_of, path_def_id, path_to_local, resolve_callee};
use crate::span::Span;
use crate::text::{str_eq, SourceText};
use crate::tree::{DefKind, Expr, ExprKind, Res};
use crate::walk::{expr_events, walk_expr, Descent, Node};

verus! {

broadcast use vstd::std_specs::hash::group_hash_axioms;

/// What a call of a memory-unsafe function leads to: the callee is
/// reported where it is a path to one of `ids`.
pub open spec fn mem_unsafe_finding(expr: &Expr, ids: Set<u64>) -> Option<Finding> {
    match &expr.kind {
        ExprKind::Call(callee, _) => match def_of(callee) {
            Some(id) => if ids.contains(id) {
                Some(Finding::plain(FindingKind::MemUnsafeFunction, callee.span))
            } else {
                None
            },
            None => None,
        },
        _ => None,
    }
}

/// What a call of a non-reentrant function leads to: the call is
/// reported where it resolves to one of `ids`.
pub open spec fn non_reentrant_finding(expr: &Expr, ids: Set<u64>) -> Option<Finding> {
    match callee_of(expr) {
        Some(id) => if ids.contains(id) {
            Some(Finding::plain(FindingKind::NonReentrantFunction, expr.span))
        } else {
            None
        },
        None => None,
    }
}

/// Whether `func` is the path `libc::strtok` or `libc::localtime`, as
/// written.
pub open spec fn names_non_reentrant(func: &Expr) -> bool {
    match &func.kind {
        ExprKind::Path(p) => p.segments@.len() == 2 && p.segments@[0]@ == "libc"@ && (
        p.segments@[1]@ == "strtok"@ || p.segments@[1]@ == "localtime"@),
        _ => false,
    }
}

/// What a call leads to before names are resolved: it is reported where
/// its callee is written as `libc::strtok` or `libc::localtime`.  Where
/// `user_code_only` is set, expanded code is passed over.
pub open spec fn written_non_reentrant_finding(expr: &Expr, user_code_only: bool) -> Option<
    Finding,
> {
    if user_code_only && expr.span.ctxt != 0 {
        None
    } else {
        match &expr.kind {
            ExprKind::Call(func, _) => if names_non_reentrant(func) {
                Some(Finding::plain(FindingKind::NonReentrantFunction, expr.span))
            } else {
                None
            },
            _ => None,
        }
    }
}

/// Checks a call against the memory-unsafe functions.
pub fn check_mem_unsafe(expr: &Expr, blacklist_ids: &HashSet<u64>) -> (f: Option<Finding>)
    ensures
        f == mem_unsafe_finding(expr, blacklist_ids@),
{
    match &expr.kind {
        ExprKind::Call(callee, _) => match path_def_id(callee) {
            Some(id) => if blacklist_ids.contains(&id) {
                Some(Finding::new(FindingKind::MemUnsafeFunction, callee.span))
            } else {
                None
            },
            None => None,
        },
        _ => None,
    }
}

/// Checks a call against the non-reentrant functions.
pub fn check_non_reentrant(expr: &Expr, blacklist_ids: &HashSet<u64>) -> (f: Option<Finding>)
    ensures
        f == non_reentrant_finding(expr, blacklist_ids@),
{
    match resolve_callee(expr) {
        Some(id) => if blacklist_ids.contains(&id) {
            Some(Finding::new(FindingKind::NonReentrantFunction, expr.span))
        } else {
            None
        },
        None => None,
    }
}

/// Whether `func` is written as `libc::strtok` or `libc::localtime`.
pub fn is_reentrant_fn(func: &Expr) -> (b: bool)
    ensures
        b == names_non_reentrant(func),
{
    match &func.kind {
        ExprKind::Path(p) => {
            if p.segments.len() != 2 || !str_eq(p.segments[0].as_str(), "libc") {
                return false;
            }
            str_eq(p.segments[1].as_str(), "strtok") || str_eq(p.segments[1].as_str(), "localtime")
        },
        _ => false,
    }
}

/// Checks a call by the path of its callee as written.
pub fn check_written_non_reentrant(expr: &Expr, user_code_only: bool) -> (f: Option<Finding>)
    ensures
        f == written_non_reentrant_finding(expr, user_code_only),
{
    if user_code_only && expr.span.from_expansion() {
        return None;
    }
    match &expr.kind {
        ExprKind::Call(func, _) => if is_reentrant_fn(func) {
            Some(Finding::new(FindingKind::NonReentrantFunction, expr.span))
        } else {
            None
        },
        _ => None,
    }
}

/// Whether the node is a plain path to a local whose type is a native
/// string.
pub open spec fn is_native_string_local(node: Node) -> bool {
    match node {
        Node::Expr(e) => local_of(e) is Some && e.ty.native_string,
        _ => false,
    }
}

/// The first native string local among the nodes from `from` on.
pub open spec fn first_native_string(nodes: Seq<Node>, from: int) -> Option<Span>
    decreases nodes.len() - from,
{
    if from < 0 || from >= nodes.len() {
        None
    } else if is_native_string_local(nodes[from]) {
        match nodes[from] {
            Node::Expr(e) => Some(e.span),
            _ => None,
        }
    } else {
        first_native_string(nodes, from + 1)
    }
}

/// The native string that the argument `param` hands over.
pub open spec fn native_string_in(param: &Expr) -> Option<Span> {
    first_native_string(expr_events(param, Descent::spec_outside_closures()), 0)
}

/// The findings for the first `n` arguments of `call`.
pub open spec fn string_args_findings(call: &Expr, params: Seq<Expr>, n: int) -> Seq<Finding>
    decreases n,
{
    if n <= 0 || n > params.len() {
        Seq::empty()
    } else {
        let before = string_args_findings(call, params, n - 1);
        match native_string_in(&params[n - 1]) {
            Some(at) => before.push(
                Finding::noted(FindingKind::PassingStringToCFunction, call.span, at),
            ),
            None => before,
        }
    }
}

/// The foreign function that `expr` calls by a plain path.
pub open spec fn foreign_callee(expr: &Expr, program: &Program) -> bool {
    match &expr.kind {
        ExprKind::Call(func, _) => match &func.kind {
            ExprKind::Path(p) => !p.qualified && (match p.res {
                Res::Def(DefKind::Fn, id) => is_foreign_fn(program.fns@, id),
                _ => false,
            }),
            _ => false,
        },
        _ => false,
    }
}

/// What a call leads to: where it calls a foreign function, one finding
/// for each argument that hands over a native string.
pub open spec fn string_findings(expr: &Expr, program: &Program) -> Seq<Finding> {
    match &expr.kind {
        ExprKind::Call(_, params) => if foreign_callee(expr, program) {
            string_args_findings(expr, params@, params@.len() as int)
        } else {
            Seq::empty()
        },
        _ => Seq::empty(),
    }
}

/// The native string that the argument `param` hands over.
fn find_native_string(param: &Expr) -> (r: Option<Span>)
    ensures
        r == native_string_in(param),
{
    let d = Descent::outside_closures();
    let mut nodes: Vec<Node> = Vec::new();
    walk_expr(param, &d, &mut nodes);
    assert(nodes@ =~= expr_events(param, d));
    let mut i: usize = 0;
    while i < nodes.len()
        invariant
            i <= nodes.len(),
            nodes@ == expr_events(param, Descent::spec_outside_closures()),
            first_native_string(nodes@, i as int) == first_native_string(nodes@, 0),
        decreases nodes.len() - i,
    {
        match nodes[i] {
            Node::Expr(e) => {
                if path_to_local(e).is_some() && e.ty.native_string {
                    return Some(e.span);
                }
            },
            _ => {},
        }
        i += 1;
    }
    None
}

/// Checks a call for native strings handed to a foreign function.
pub fn check_passing_string(expr: &Expr, program: &Program) -> (out: Vec<Finding>)
    ensures
        out@ == string_findings(expr, program),
{
    let mut out: Vec<Finding> = Vec::new();
    match &expr.kind {
        ExprKind::Call(func, params) => {
            let foreign = match &func.kind {
                ExprKind::Path(p) => !p.qualified && (match p.res {
                    Res::Def(DefKind::Fn, id) => program.is_foreign_item(id),
                    _ => false,
                }),
                _ => false,
            };
            if !foreign {
                return out;
            }
            let mut n: usize = 0;
            while n < params.len()
                invariant
                    n <= params.len(),
                    out@ == string_args_findings(expr, params@, n as int),
                decreases params.len() - n,
            {
                match find_native_string(&params[n]) {
                    Some(at) => {
                        out.push(
                            Finding::with_note(
                                FindingKind::PassingStringToCFunction,
                                expr.span,
                                at,
                            ),
                        );
                    },
                    None => {},
                }
                n += 1;
            }
            out
        },
        _ => out,
    }
}

/// Where the type that `ty` names is declared, if it is a struct, enum or
/// union without a layout attribute.
pub open spec fn unsafe_layout_span(ty: ParamTy) -> Option<Span> {
    match ty.adt {
        Some(adt) => if adt.repr_c || adt.repr_transparent || adt.repr_packed || adt.repr_align {
            None
        } else {
            Some(adt.def_span)
        },
        None => None,
    }
}

/// The findings for the first `n` parameter types.
pub open spec fn tys_findings(tys: Seq<ParamTy>, n: int) -> Seq<Finding>
    decreases n,
{
    if n <= 0 || n > tys.len() {
        Seq::empty()
    } else {
        let before = tys_findings(tys, n - 1);
        match unsafe_layout_span(tys[n - 1]) {
            Some(decl) => before.push(
                Finding::noted(FindingKind::ExternWithoutRepr, tys[n - 1].span, decl),
            ),
            None => before,
        }
    }
}

/// The findings for the functions among the first `n` foreign items.
pub open spec fn foreign_items_findings(items: Seq<ForeignItem>, n: int) -> Seq<Finding>
    decreases n,
{
    if n <= 0 || n > items.len() {
        Seq::empty()
    } else {
        let before = foreign_items_findings(items, n - 1);
        match &items[n - 1].inputs {
            Some(tys) => before + tys_findings(tys@, tys@.len() as int),
            None => before,
        }
    }
}

/// What an item leads to: for a function with the C calling convention,
/// and for each function of a foreign block with it, one finding for each
/// parameter type without a declared layout.
pub open spec fn repr_findings(item: &Item) -> Seq<Finding> {
    match &item.kind {
        ItemKind::Fn { abi, inputs } => if *abi == Abi::C {
            tys_findings(inputs@, inputs@.len() as int)
        } else {
            Seq::empty()
        },
        ItemKind::ForeignMod { abi, explicit_abi, items } => if *abi == Abi::C {
            foreign_items_findings(items@, items@.len() as int)
        } else {
            Seq::empty()
        },
        ItemKind::Other => Seq::empty(),
    }
}

/// Where the type that `ty` names is declared, if it has no layout
/// attribute.
pub fn non_ffi_safe_ty_span(ty: &ParamTy) -> (r: Option<Span>)
    ensures
        r == unsafe_layout_span(*ty),
{
    match ty.adt {
        Some(adt) => if adt.repr_c || adt.repr_transparent || adt.repr_packed || adt.repr_align {
            None
        } else {
            Some(adt.def_span)
        },
        None => None,
    }
}

/// Appends the findings for the parameter types `tys`.
pub fn lint_for_tys(tys: &Vec<ParamTy>, out: &mut Vec<Finding>)
    ensures
        final(out)@ == old(out)@ + tys_findings(tys@, tys@.len() as int),
{
    let mut n: usize = 0;
    assert(out@ =~= old(out)@ + tys_findings(tys@, 0));
    while n < tys.len()
        invariant
            n <= tys.len(),
            out@ == old(out)@ + tys_findings(tys@, n as int),
        decreases tys.len() - n,
    {
        match non_ffi_safe_ty_span(&tys[n]) {
            Some(decl) => {
                out.push(Finding::with_note(FindingKind::ExternWithoutRepr, tys[n].span, decl));
            },
            None => {},
        }
        assert(out@ =~= old(out)@ + tys_findings(tys@, n + 1));
        n += 1;
    }
}

/// Checks an item for parameter types without a declared layout.
pub fn check_item(item: &Item) -> (out: Vec<Finding>)
    ensures
        out@ == repr_findings(item),
{
    let mut out: Vec<Finding> = Vec::new();
    match &item.kind {
        ItemKind::Fn { abi, inputs } => {
            match abi {
                Abi::C => {
                    lint_for_tys(inputs, &mut out);
                },
                _ => {},
            }
        },
        ItemKind::ForeignMod { abi, explicit_abi, items } => {
            match abi {
                Abi::C => {
                    let mut n: usize = 0;
                    while n < items.len()
                        invariant
                            n <= items.len(),
                            out@ == foreign_items_findings(items@, n as int),
                        decreases items.len() - n,
                    {
                        match &items[n].inputs {
                            Some(tys) => {
                                lint_for_tys(tys, &mut out);
                            },
                            None => {},
                        }
                        n += 1;
                    }
                },
                _ => {},
            }
        },
        ItemKind::Other => {},
    }
    out
}

/// What a foreign block leads to: where its calling convention is not
/// written out, the word that opens it is reported.
pub open spec fn implicit_abi_finding(item: &Item, src: &SourceText) -> Option<Finding> {
    match &item.kind {
        ItemKind::ForeignMod { abi, explicit_abi, items } => if !*explicit_abi {
            Some(Finding::plain(FindingKind::ImplicitAbi, src.spec_until_whitespace(item.span)))
        } else {
            None
        },
        _ => None,
    }
}

/// Checks an item for a foreign block without a calling convention.
pub fn check_implicit_abi(item: &Item, src: &SourceText) -> (f: Option<Finding>)
    ensures
        f == implicit_abi_finding(item, src),
{
    match &item.kind {
        ItemKind::ForeignMod { abi, explicit_abi, items } => if !*explicit_abi {
            Some(Finding::new(FindingKind::ImplicitAbi, src.span_until_whitespace(item.span)))
        } else {
            None
        },
        _ => None,
    }
}

} // verus!
