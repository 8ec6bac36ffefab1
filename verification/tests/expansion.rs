#![allow(dead_code)]
#![allow(unused_imports)]

use guideline_lints::span::Span;
use guideline_lints::tree::{
    Arm, BinOp, Block, BorrowKind, Constant, DefKind, Expr, ExprKind, Lit, LitKind, Local,
    LoopKind, Pat, Path, Res, Stmt, StmtKind, Ty, TyFacts, TyKind, UnOp,
};

fn sp(lo: u32, hi: u32) -> Span {
    Span::new(lo, hi)
}

fn ex(kind: ExprKind, lo: u32, hi: u32) -> Expr {
    Expr { span: sp(lo, hi), kind, ty: TyFacts { native_string: false, simple: false }, value: None }
}

fn names(parts: &[&str]) -> Vec<String> {
    parts.iter().map(|s| s.to_string()).collect()
}

fn local(id: u64, name: &str, lo: u32, hi: u32) -> Expr {
    ex(ExprKind::Path(Path { res: Res::Local(id), qualified: false, segments: names(&[name]) }), lo, hi)
}

fn func(id: u64, path: &[&str], lo: u32, hi: u32) -> Expr {
    ex(
        ExprKind::Path(Path { res: Res::Def(DefKind::Fn, id), qualified: false, segments: names(path) }),
        lo,
        hi,
    )
}

fn call(callee: Expr, args: Vec<Expr>, lo: u32, hi: u32) -> Expr {
    ex(ExprKind::Call(Box::new(callee), args), lo, hi)
}

fn method(name: &str, def: Option<u64>, recv: Expr, args: Vec<Expr>, lo: u32, hi: u32) -> Expr {
    ex(ExprKind::MethodCall(name.to_string(), def, Box::new(recv), args), lo, hi)
}

fn deref(e: Expr, lo: u32, hi: u32) -> Expr {
    ex(ExprKind::Unary(UnOp::Deref, Box::new(e)), lo, hi)
}

fn not(e: Expr, lo: u32, hi: u32) -> Expr {
    ex(ExprKind::Unary(UnOp::Not, Box::new(e)), lo, hi)
}

fn addr_of(e: Expr, lo: u32, hi: u32) -> Expr {
    ex(ExprKind::AddrOf(BorrowKind::Ref, Box::new(e)), lo, hi)
}

fn cast(e: Expr, kind: TyKind, lo: u32, hi: u32) -> Expr {
    ex(ExprKind::Cast(Box::new(e), Ty { kind, span: sp(hi, hi) }), lo, hi)
}

fn lit_int(n: u128, lo: u32, hi: u32) -> Expr {
    ex(ExprKind::Lit(Lit { kind: LitKind::Int(n), suffixed: false, span: sp(lo, hi) }), lo, hi)
}

fn assign(place: Expr, value: Expr, lo: u32, hi: u32) -> Expr {
    ex(ExprKind::Assign(Box::new(place), Box::new(value)), lo, hi)
}

fn binary(op: BinOp, l: Expr, r: Expr, lo: u32, hi: u32) -> Expr {
    ex(ExprKind::Binary(op, Box::new(l), Box::new(r)), lo, hi)
}

fn field(e: Expr, name: &str, lo: u32, hi: u32) -> Expr {
    ex(ExprKind::Field(Box::new(e), name.to_string()), lo, hi)
}

fn block_expr(b: Block) -> Expr {
    let span = b.span;
    Expr {
        span,
        kind: ExprKind::Block(Box::new(b)),
        ty: TyFacts { native_string: false, simple: false },
        value: None,
    }
}

fn if_then(cond: Expr, then: Block, lo: u32, hi: u32) -> Expr {
    ex(ExprKind::If(Box::new(cond), Box::new(block_expr(then)), None), lo, hi)
}

fn closure(body: Expr, lo: u32, hi: u32) -> Expr {
    ex(ExprKind::Closure(Box::new(body)), lo, hi)
}

fn ret(e: Option<Expr>, lo: u32, hi: u32) -> Expr {
    ex(ExprKind::Ret(e.map(Box::new)), lo, hi)
}

fn brk(label: Option<&str>, lo: u32, hi: u32) -> Expr {
    ex(ExprKind::Break(label.map(|l| l.to_string()), None), lo, hi)
}

fn looping(kind: LoopKind, label: Option<&str>, body: Block, lo: u32, hi: u32) -> Expr {
    ex(ExprKind::Loop(kind, label.map(|l| l.to_string()), Vec::new(), Box::new(body)), lo, hi)
}

fn semi(e: Expr) -> Stmt {
    let span = sp(e.span.lo, e.span.hi + 1);
    Stmt { span, kind: StmtKind::Semi(e) }
}

fn pat(id: u64, name: &str, lo: u32, hi: u32) -> Pat {
    Pat { id, span: sp(lo, hi), names: names(&[name]) }
}

fn let_local(id: u64, name: &str, ty: Option<Ty>, init: Option<Expr>, lo: u32, hi: u32) -> Local {
    Local { span: sp(lo, hi), pat: pat(id, name, lo + 4, lo + 4 + name.len() as u32), ty, init, els: None }
}

fn let_stmt(id: u64, name: &str, ty: Option<Ty>, init: Option<Expr>, lo: u32, hi: u32) -> Stmt {
    Stmt { span: sp(lo, hi), kind: StmtKind::Local(let_local(id, name, ty, init, lo, hi)) }
}

fn block(id: u64, stmts: Vec<Stmt>, tail: Option<Expr>, lo: u32, hi: u32) -> Block {
    Block { id, span: sp(lo, hi), stmts, expr: tail }
}

fn stmt_expr(s: &Stmt) -> &Expr {
    match &s.kind {
        StmtKind::Semi(e) => e,
        StmtKind::Expr(e) => e,
        _ => panic!("the statement holds no expression"),
    }
}

fn stmt_local(s: &Stmt) -> &Local {
    match &s.kind {
        StmtKind::Local(l) => l,
        _ => panic!("the statement is no let"),
    }
}

fn inner_block(e: &Expr) -> &Block {
    match &e.kind {
        ExprKind::Block(b) => b,
        ExprKind::If(_, then, _) => inner_block(then),
        ExprKind::Loop(_, _, _, b) => b,
        _ => panic!("the expression holds no block"),
    }
}

use guideline_lints::expansion::{
    check, dedupe_by_macro_callsite, find_proc_macro_owner, key_of, quote_holds_unsafe, ExpnData,
    ExpnKind, Expansions, Owner, UnsafeBlockInProcMacro,
};
use guideline_lints::finding::{Finding, FindingKind};
use guideline_lints::text::{chars_of, quote_inner, SourceText};
use std::collections::HashSet;

//                 0         1         2         3         4         5
//                 012345678901234567890123456789012345678901234567890123456789
const SRC: &str = "quote!({ unsafe { a() } }); quote! { fn f() { unsafe  {} } } quote!(1) vec![unsafe {}]";

fn expansions() -> Expansions {
    Expansions {
        table: vec![
            ExpnData { call_site: sp(0, 26), kind: ExpnKind::BangMacro("quote".to_string()), external: true },
            ExpnData { call_site: sp(28, 60), kind: ExpnKind::BangMacro("quote".to_string()), external: true },
            ExpnData { call_site: sp(61, 70), kind: ExpnKind::BangMacro("quote".to_string()), external: true },
            ExpnData { call_site: sp(71, 86), kind: ExpnKind::BangMacro("vec".to_string()), external: true },
            ExpnData { call_site: sp(0, 26), kind: ExpnKind::Other, external: false },
            ExpnData { call_site: Span::in_expansion(0, 26, 1), kind: ExpnKind::BangMacro("quote".to_string()), external: true },
        ],
    }
}

fn owners() -> Vec<Owner> {
    vec![
        Owner { id: 1, is_fn: false, attrs: names(&["proc_macro"]) },
        Owner { id: 2, is_fn: true, attrs: names(&["inline"]) },
        Owner { id: 3, is_fn: true, attrs: names(&["inline", "proc_macro"]) },
        Owner { id: 4, is_fn: true, attrs: names(&["proc_macro"]) },
    ]
}

fn hidden(kind: FindingKind, span: Span, owner: u64) -> Finding {
    Finding { kind, span, note: None, subject: Some(owner) }
}

#[test]
fn one_invocation_gives_one_finding_however_many_nodes_it_has() {
    let exp = expansions();
    let src = SourceText::new(SRC);
    let mut seen = HashSet::new();
    let mut findings = Vec::new();
    for _node in 0..25 {
        if let Some(f) = check(&exp, 1, &owners(), &src, &mut seen) {
            findings.push(f);
        }
    }
    assert_eq!(findings, vec![hidden(FindingKind::UnsafeBlockInProcMacro, sp(0, 26), 3)]);
    assert_eq!(seen.len(), 1);
}

#[test]
fn each_call_site_is_looked_at_on_its_own() {
    let exp = expansions();
    let src = SourceText::new(SRC);
    let mut pass = UnsafeBlockInProcMacro::new();
    let mut findings = Vec::new();
    for ctxt in [1, 2, 1, 3, 2, 4, 0, 0, 3] {
        if let Some(f) = pass.check_expr(&exp, ctxt, 9, &src) {
            findings.push(f);
        }
    }
    assert_eq!(
        findings,
        vec![
            hidden(FindingKind::UnsafeBlockInProcMacro, sp(0, 26), 9),
            hidden(FindingKind::UnsafeBlockInProcMacroFn, sp(28, 60), 9),
        ]
    );
}

#[test]
fn call_site_is_remembered_even_where_nothing_is_reported() {
    let exp = expansions();
    let mut seen = HashSet::new();
    // an expansion that is no invocation of `quote`, at the call site of the first
    assert_eq!(dedupe_by_macro_callsite(&exp, 5, 0, &mut seen), None);
    assert!(seen.contains(&key_of(0, sp(0, 26))));
    // so the invocation of `quote` at the same call site comes too late
    assert_eq!(dedupe_by_macro_callsite(&exp, 1, 0, &mut seen), None);
    assert_eq!(dedupe_by_macro_callsite(&exp, 2, 0, &mut seen), Some(sp(28, 60)));
    assert_eq!(dedupe_by_macro_callsite(&exp, 2, 0, &mut seen), None);
}

#[test]
fn call_site_inside_an_expansion_is_passed_over() {
    let exp = expansions();
    let mut seen = HashSet::new();
    assert_eq!(dedupe_by_macro_callsite(&exp, 6, 0, &mut seen), None);
    assert!(seen.is_empty());
    assert_eq!(dedupe_by_macro_callsite(&exp, 1, 0, &mut seen), Some(sp(0, 26)));
}

#[test]
fn user_code_and_unknown_contexts_have_the_empty_call_site() {
    let exp = expansions();
    let mut seen = HashSet::new();
    assert_eq!(dedupe_by_macro_callsite(&exp, 0, 0, &mut seen), None);
    assert_eq!(dedupe_by_macro_callsite(&exp, 99, 0, &mut seen), None);
    assert!(seen.contains(&key_of(0, sp(0, 0))));
    assert_eq!(seen.len(), 1);
    assert_eq!(exp.call_site(0), sp(0, 0));
    assert!(exp.outer(0).is_none());
    assert!(exp.outer(7).is_none());
    assert!(exp.outer(6).is_some());
    assert!(!exp.invokes_quote(4));
    assert!(exp.invokes_quote(3));
    assert!(exp.in_external_macro(Span::in_expansion(1, 2, 1)));
    assert!(!exp.in_external_macro(Span::in_expansion(1, 2, 5)));
    assert!(!exp.in_external_macro(sp(1, 2)));
}

#[test]
fn text_of_the_invocation_decides() {
    let src = SourceText::new(SRC);
    assert_eq!(quote_holds_unsafe(&src, sp(0, 26)), Some(false));
    assert_eq!(quote_holds_unsafe(&src, sp(28, 60)), Some(true));
    assert_eq!(quote_holds_unsafe(&src, sp(61, 70)), None);
    // no `!` in the text
    assert_eq!(quote_holds_unsafe(&src, sp(9, 23)), None);
    // beyond the text
    assert_eq!(quote_holds_unsafe(&src, sp(0, 500)), None);
}

#[test]
fn no_finding_without_a_proc_macro_around() {
    let exp = expansions();
    let src = SourceText::new(SRC);
    let mut seen = HashSet::new();
    let plain = vec![Owner { id: 2, is_fn: true, attrs: vec![] }];
    assert_eq!(check(&exp, 1, &plain, &src, &mut seen), None);
    assert_eq!(find_proc_macro_owner(&plain), None);
    assert_eq!(find_proc_macro_owner(&owners()), Some(3));
    assert_eq!(find_proc_macro_owner(&vec![]), None);
}

#[test]
fn text_between_the_delimiters() {
    let inner = |s: &str| quote_inner(&chars_of(s)).map(|v| v.iter().collect::<String>());
    assert_eq!(inner("quote!(a b)"), Some("a b".to_string()));
    assert_eq!(inner("quote! {\n  x\n}  "), Some("\n  x\n".to_string()));
    assert_eq!(inner("quote![]"), Some("".to_string()));
    assert_eq!(inner("quote!("), Some("".to_string()));
    assert_eq!(inner("quote!"), Some("".to_string()));
    assert_eq!(inner("a!b!(c)"), Some("!(c".to_string()));
    assert_eq!(inner("quote"), None);
    assert_eq!(inner(""), None);
}

#[test]
fn keys_of_call_sites_differ() {
    assert_eq!(key_of(0, sp(0, 0)), 0);
    assert_eq!(key_of(0, sp(1, 2)), (1u128 << 32) + 2);
    assert_eq!(key_of(3, sp(1, 2)), (3u128 << 64) + (1u128 << 32) + 2);
    assert_eq!(key_of(u32::MAX, sp(u32::MAX, u32::MAX)), (1u128 << 96) - 1);
    assert_ne!(key_of(0, sp(0, 1)), key_of(0, sp(1, 1)));
    assert_ne!(key_of(0, sp(1, 1)), key_of(1, sp(1, 1)));
    assert_ne!(key_of(1, sp(0, 0)), key_of(0, sp(1, 0)));
}

#[test]
fn invocations_at_the_same_place_of_two_files_are_both_reported() {
    let exp = expansions();
    let first = SourceText::in_file(1, SRC);
    let second = SourceText::in_file(2, SRC);
    let mut pass = UnsafeBlockInProcMacro::new();
    let mut findings = Vec::new();
    for src in [&first, &second, &first, &second] {
        for _node in 0..3 {
            if let Some(f) = pass.check_expr(&exp, 1, 9, src) {
                findings.push(f);
            }
        }
    }
    assert_eq!(
        findings,
        vec![
            hidden(FindingKind::UnsafeBlockInProcMacro, sp(0, 26), 9),
            hidden(FindingKind::UnsafeBlockInProcMacro, sp(0, 26), 9),
        ]
    );
    assert_eq!(pass.call_sites.len(), 2);
    assert_eq!(first.file, 1);
    assert_eq!(SourceText::new(SRC).file, 0);
}
