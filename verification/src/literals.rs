//! Numeric literals: integers that are no character, and literals whose
//! type nothing constrains.

use std::collections::HashSet;
use vstd::prelude::*;
use crate::expansion::Expansions;
use crate::finding::{Finding, FindingKind};
use crate::ids::{declared_at, insert_declared, query_text, Program};
use crate::resolve::{peel_casts, without_casts};
use crate::span::Span;
use crate::text::{chars_of, SourceText};
use crate::tree::{Constant, Expr, ExprKind, LitKind, Local, TyKind};

verus! {

broadcast use vstd::std_specs::hash::group_hash_axioms;

/// The path `char::from_u32`.
pub open spec fn from_u32_path() -> Seq<Seq<char>> {
    seq!["char"@, "from_u32"@]
}

/// The path `char::from_u32_unchecked`.
pub open spec fn from_u32_unchecked_path() -> Seq<Seq<char>> {
    seq!["char"@, "from_u32_unchecked"@]
}

/// Whether `id` is one of the two functions that make a character from
/// an integer.
pub open spec fn converts_to_char(program: &Program, id: u64) -> bool {
    declared_at(program.fns@, from_u32_path()).contains(id) || declared_at(
        program.fns@,
        from_u32_unchecked_path(),
    ).contains(id)
}

/// Whether `n` is no Unicode scalar value.
pub open spec fn out_of_char_range(n: u128) -> bool {
    (n > 0xD7FF && n < 0xE000) || n > 0x0010_FFFF
}

/// What a call of `def_id` with the arguments `params` leads to: where
/// it makes a character from the only argument, and that argument, under
/// its casts, is a constant integer that is no scalar value, the call is
/// reported with a note at the argument.
pub open spec fn char_range_finding(
    expr: &Expr,
    params: Seq<Expr>,
    def_id: u64,
    program: &Program,
) -> Option<Finding> {
    if converts_to_char(program, def_id) && params.len() == 1 {
        let param = without_casts(&params[0]);
        match param.value {
            Some(Constant::Int(n)) => if out_of_char_range(n) {
                Some(Finding::noted(FindingKind::InvalidCharRange, expr.span, param.span))
            } else {
                None
            },
            _ => None,
        }
    } else {
        None
    }
}

/// Whether `def_id` is `char::from_u32` or `char::from_u32_unchecked`.
pub fn is_of_from_methods(program: &Program, def_id: u64) -> (b: bool)
    ensures
        b == converts_to_char(program, def_id),
{
    let mut checked: Vec<Vec<char>> = Vec::new();
    checked.push(chars_of("char"));
    checked.push(chars_of("from_u32"));
    assert(query_text(checked@) =~= from_u32_path());
    let mut unchecked: Vec<Vec<char>> = Vec::new();
    unchecked.push(chars_of("char"));
    unchecked.push(chars_of("from_u32_unchecked"));
    assert(query_text(unchecked@) =~= from_u32_unchecked_path());
    let mut ids: HashSet<u64> = HashSet::new();
    insert_declared(program, &checked, &mut ids);
    insert_declared(program, &unchecked, &mut ids);
    ids.contains(&def_id)
}

/// Checks a call for an integer that is no character.
pub fn check_call(expr: &Expr, params: &Vec<Expr>, def_id: u64, program: &Program) -> (f: Option<
    Finding,
>)
    ensures
        f == char_range_finding(expr, params@, def_id, program),
{
    if !is_of_from_methods(program, def_id) || params.len() != 1 {
        return None;
    }
    let param = peel_casts(&params[0]);
    match param.value {
        Some(Constant::Int(n)) => {
            if (n > 0xD7FF && n < 0xE000) || n > 0x0010_FFFF {
                Some(Finding::with_note(FindingKind::InvalidCharRange, expr.span, param.span))
            } else {
                None
            }
        },
        _ => None,
    }
}

/// Whether the `let` leaves the type of its binding open: no type is
/// written, or the placeholder `_`.
pub open spec fn has_implicit_ty(local: &Local) -> bool {
    match local.ty {
        Some(ty) => ty.kind == TyKind::Infer,
        None => true,
    }
}

/// The range that the finding for `local` points at: the pattern, up to
/// the end of the written type where there is one.
pub open spec fn binding_span(local: &Local) -> Span {
    match local.ty {
        Some(ty) => local.pat.span.spec_to(ty.span),
        None => local.pat.span,
    }
}

/// What a `let` leads to: where it initialises a binding of open type
/// from a numeric literal without suffix that no outside macro wrote, the
/// binding is reported with a note at the literal.
pub open spec fn unconstrained_finding(local: &Local, exp: &Expansions) -> Option<Finding> {
    match &local.init {
        Some(init) => match &init.kind {
            ExprKind::Lit(lit) => if !exp.is_external(lit.span.ctxt) && (lit.kind is Int
                || lit.kind is Float) && !lit.suffixed && has_implicit_ty(local) {
                Some(
                    Finding::noted(
                        FindingKind::UnconstrainedNumericLiteral,
                        binding_span(local),
                        lit.span,
                    ),
                )
            } else {
                None
            },
            _ => None,
        },
        None => None,
    }
}

/// Whether the `let` leaves the type of its binding open.
pub fn local_has_implicit_ty(local: &Local) -> (b: bool)
    ensures
        b == has_implicit_ty(local),
{
    match local.ty {
        Some(ty) => matches!(ty.kind, TyKind::Infer),
        None => true,
    }
}

/// Checks a `let` for a numeric literal whose type nothing constrains.
pub fn check_local(local: &Local, exp: &Expansions) -> (f: Option<Finding>)
    ensures
        f == unconstrained_finding(local, exp),
{
    match &local.init {
        Some(init) => match &init.kind {
            ExprKind::Lit(lit) => {
                let numeric = match lit.kind {
                    LitKind::Int(_) => true,
                    LitKind::Float => true,
                    LitKind::Other => false,
                };
                if !exp.in_external_macro(lit.span) && numeric && !lit.suffixed
                    && local_has_implicit_ty(local) {
                    let span = match local.ty {
                        Some(ty) => local.pat.span.to(ty.span),
                        None => local.pat.span,
                    };
                    Some(
                        Finding::with_note(FindingKind::UnconstrainedNumericLiteral, span, lit.span),
                    )
                } else {
                    None
                }
            },
            _ => None,
        },
        None => None,
    }
}

/// The text that the fix for an unconstrained literal puts in place of
/// the binding: the text of the pattern (`_` where it has none), a colon
/// and the name of the type.
pub open spec fn suggestion_text(local: &Local, ty_name: Seq<char>, src: &SourceText) -> Seq<char> {
    (match src.spec_snippet(local.pat.span) {
        Some(text) => text,
        None => seq!['_'],
    }) + seq![':', ' '] + ty_name
}

/// The text that the fix for an unconstrained literal puts in place of
/// the binding.
pub fn ty_suggestion(local: &Local, ty_name: &str, src: &SourceText) -> (out: Vec<char>)
    ensures
        out@ == suggestion_text(local, ty_name@, src),
{
    let mut out: Vec<char> = match src.snippet(local.pat.span) {
        Some(text) => text,
        None => {
            let mut v: Vec<char> = Vec::new();
            v.push('_');
            v
        },
    };
    let ghost head = out@;
    out.push(':');
    out.push(' ');
    let name = chars_of(ty_name);
    let mut i: usize = 0;
    while i < name.len()
        invariant
            i <= name.len(),
            out@ == head + seq![':', ' '] + name@.take(i as int),
        decreases name.len() - i,
    {
        out.push(name[i]);
        assert(out@ =~= head + seq![':', ' '] + name@.take(i + 1));
        i += 1;
    }
    assert(name@.take(name@.len() as int) =~= name@);
    out
}

} // verus!
