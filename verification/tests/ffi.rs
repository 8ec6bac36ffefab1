#![allow(dead_code)]
#![allow(unused_imports)]

use guideline_lints::span::Span;
use guideline_lints::tree::{
    Arm, BinOp, Block, BorrowKind, Constant, DefKind, Expr, ExprKind, Lit, LitKind, Local,
    LoopKind, Pat, Path, Res, Stmt, StmtKind, Ty, TyFacts, TyKind, UnOp,
};

fn sp(lo: u32, hi: u32) -> Span {
    Span::new(lo, hi)
}

fn ex(kind: ExprKind, lo: u32, hi: u32) -> Expr {
    Expr { span: sp(lo, hi), kind, ty: TyFacts { native_string: false, simple: false }, value: None }
}

fn names(parts: &[&str]) -> Vec<String> {
    parts.iter().map(|s| s.to_string()).collect()
}

fn local(id: u64, name: &str, lo: u32, hi: u32) -> Expr {
    ex(ExprKind::Path(Path { res: Res::Local(id), qualified: false, segments: names(&[name]) }), lo, hi)
}

fn func(id: u64, path: &[&str], lo: u32, hi: u32) -> Expr {
    ex(
        ExprKind::Path(Path { res: Res::Def(DefKind::Fn, id), qualified: false, segments: names(path) }),
        lo,
        hi,
    )
}

fn call(callee: Expr, args: Vec<Expr>, lo: u32, hi: u32) -> Expr {
    ex(ExprKind::Call(Box::new(callee), args), lo, hi)
}

fn method(name: &str, def: Option<u64>, recv: Expr, args: Vec<Expr>, lo: u32, hi: u32) -> Expr {
    ex(ExprKind::MethodCall(name.to_string(), def, Box::new(recv), args), lo, hi)
}

fn deref(e: Expr, lo: u32, hi: u32) -> Expr {
    ex(ExprKind::Unary(UnOp::Deref, Box::new(e)), lo, hi)
}

fn not(e: Expr, lo: u32, hi: u32) -> Expr {
    ex(ExprKind::Unary(UnOp::Not, Box::new(e)), lo, hi)
}

fn addr_of(e: Expr, lo: u32, hi: u32) -> Expr {
    ex(ExprKind::AddrOf(BorrowKind::Ref, Box::new(e)), lo, hi)
}

fn cast(e: Expr, kind: TyKind, lo: u32, hi: u32) -> Expr {
    ex(ExprKind::Cast(Box::new(e), Ty { kind, span: sp(hi, hi) }), lo, hi)
}

fn lit_int(n: u128, lo: u32, hi: u32) -> Expr {
    ex(ExprKind::Lit(Lit { kind: LitKind::Int(n), suffixed: false, span: sp(lo, hi) }), lo, hi)
}

fn assign(place: Expr, value: Expr, lo: u32, hi: u32) -> Expr {
    ex(ExprKind::Assign(Box::new(place), Box::new(value)), lo, hi)
}

fn binary(op: BinOp, l: Expr, r: Expr, lo: u32, hi: u32) -> Expr {
    ex(ExprKind::Binary(op, Box::new(l), Box::new(r)), lo, hi)
}

fn field(e: Expr, name: &str, lo: u32, hi: u32) -> Expr {
    ex(ExprKind::Field(Box::new(e), name.to_string()), lo, hi)
}

fn block_expr(b: Block) -> Expr {
    let span = b.span;
    Expr {
        span,
        kind: ExprKind::Block(Box::new(b)),
        ty: TyFacts { native_string: false, simple: false },
        value: None,
    }
}

fn if_then(cond: Expr, then: Block, lo: u32, hi: u32) -> Expr {
    ex(ExprKind::If(Box::new(cond), Box::new(block_expr(then)), None), lo, hi)
}

fn closure(body: Expr, lo: u32, hi: u32) -> Expr {
    ex(ExprKind::Closure(Box::new(body)), lo, hi)
}

fn ret(e: Option<Expr>, lo: u32, hi: u32) -> Expr {
    ex(ExprKind::Ret(e.map(Box::new)), lo, hi)
}

fn brk(label: Option<&str>, lo: u32, hi: u32) -> Expr {
    ex(ExprKind::Break(label.map(|l| l.to_string()), None), lo, hi)
}

fn looping(kind: LoopKind, label: Option<&str>, body: Block, lo: u32, hi: u32) -> Expr {
    ex(ExprKind::Loop(kind, label.map(|l| l.to_string()), Vec::new(), Box::new(body)), lo, hi)
}

fn semi(e: Expr) -> Stmt {
    let span = sp(e.span.lo, e.span.hi + 1);
    Stmt { span, kind: StmtKind::Semi(e) }
}

fn pat(id: u64, name: &str, lo: u32, hi: u32) -> Pat {
    Pat { id, span: sp(lo, hi), names: names(&[name]) }
}

fn let_local(id: u64, name: &str, ty: Option<Ty>, init: Option<Expr>, lo: u32, hi: u32) -> Local {
    Local { span: sp(lo, hi), pat: pat(id, name, lo + 4, lo + 4 + name.len() as u32), ty, init, els: None }
}

fn let_stmt(id: u64, name: &str, ty: Option<Ty>, init: Option<Expr>, lo: u32, hi: u32) -> Stmt {
    Stmt { span: sp(lo, hi), kind: StmtKind::Local(let_local(id, name, ty, init, lo, hi)) }
}

fn block(id: u64, stmts: Vec<Stmt>, tail: Option<Expr>, lo: u32, hi: u32) -> Block {
    Block { id, span: sp(lo, hi), stmts, expr: tail }
}

fn stmt_expr(s: &Stmt) -> &Expr {
    match &s.kind {
        StmtKind::Semi(e) => e,
        StmtKind::Expr(e) => e,
        _ => panic!("the statement holds no expression"),
    }
}

fn stmt_local(s: &Stmt) -> &Local {
    match &s.kind {
        StmtKind::Local(l) => l,
        _ => panic!("the statement is no let"),
    }
}

fn inner_block(e: &Expr) -> &Block {
    match &e.kind {
        ExprKind::Block(b) => b,
        ExprKind::If(_, then, _) => inner_block(then),
        ExprKind::Loop(_, _, _, b) => b,
        _ => panic!("the expression holds no block"),
    }
}

use guideline_lints::early::{ImplicitAbi, NonReentrantFunctions};
use guideline_lints::ffi::{
    check_implicit_abi, check_item, check_mem_unsafe, check_non_reentrant, check_passing_string,
    check_written_non_reentrant, is_reentrant_fn, non_ffi_safe_ty_span,
};
use guideline_lints::finding::{Finding, FindingKind};
use guideline_lints::ids::{FnDecl, Program};
use guideline_lints::item::{Abi, AdtFacts, ForeignItem, Item, ItemKind, ParamTy};
use guideline_lints::text::SourceText;
use std::collections::HashSet;

const MEMCPY: u64 = 10;
const PRINTF: u64 = 20;
const LOCAL_FN: u64 = 30;

fn set(ids: &[u64]) -> HashSet<u64> {
    ids.iter().copied().collect()
}

fn program() -> Program {
    Program {
        fns: vec![
            FnDecl { id: MEMCPY, path: names(&["libc", "memcpy"]), local: false, foreign: true, returns_raw_ptr: true },
            FnDecl { id: PRINTF, path: names(&["printf"]), local: true, foreign: true, returns_raw_ptr: false },
            FnDecl { id: LOCAL_FN, path: names(&["helper"]), local: true, foreign: false, returns_raw_ptr: false },
        ],
    }
}

fn adt(def: Span, c: bool, transparent: bool, packed: bool, align: bool) -> Option<AdtFacts> {
    Some(AdtFacts { def_span: def, repr_c: c, repr_transparent: transparent, repr_packed: packed, repr_align: align })
}

fn plain(kind: FindingKind, span: Span) -> Finding {
    Finding { kind, span, note: None, subject: None }
}

fn noted(kind: FindingKind, span: Span, note: Span) -> Finding {
    Finding { kind, span, note: Some(note), subject: None }
}

fn string_local(id: u64, name: &str, lo: u32, hi: u32) -> Expr {
    let mut e = local(id, name, lo, hi);
    e.ty.native_string = true;
    e
}

#[test]
fn memory_unsafe_call_is_reported_at_the_callee() {
    let c = call(func(MEMCPY, &["libc", "memcpy"], 2, 14), vec![], 2, 30);
    assert_eq!(check_mem_unsafe(&c, &set(&[MEMCPY])), Some(plain(FindingKind::MemUnsafeFunction, sp(2, 14))));
    assert_eq!(check_mem_unsafe(&c, &set(&[PRINTF])), None);
    // the name alone does not count
    let c = call(func(LOCAL_FN, &["libc", "memcpy"], 2, 14), vec![], 2, 30);
    assert_eq!(check_mem_unsafe(&c, &set(&[MEMCPY])), None);
    let m = method("memcpy", Some(MEMCPY), local(1, "x", 0, 1), vec![], 0, 10);
    assert_eq!(check_mem_unsafe(&m, &set(&[MEMCPY])), None);
}

#[test]
fn non_reentrant_call_is_reported_at_the_call() {
    let c = call(func(PRINTF, &["f"], 2, 3), vec![], 2, 5);
    assert_eq!(check_non_reentrant(&c, &set(&[PRINTF])), Some(plain(FindingKind::NonReentrantFunction, sp(2, 5))));
    assert_eq!(check_non_reentrant(&c, &set(&[])), None);
    let m = method("f", Some(PRINTF), local(1, "x", 0, 1), vec![], 0, 10);
    assert_eq!(check_non_reentrant(&m, &set(&[PRINTF])), Some(plain(FindingKind::NonReentrantFunction, sp(0, 10))));
    assert_eq!(check_non_reentrant(&local(1, "x", 0, 1), &set(&[PRINTF])), None);
    // a call through a value resolves to nothing
    let through_value = call(local(1, "callback", 2, 10), vec![], 2, 12);
    assert_eq!(check_non_reentrant(&through_value, &set(&[1, PRINTF])), None);
}

#[test]
fn written_paths_of_non_reentrant_functions() {
    for (path, hit) in [
        (vec!["libc", "strtok"], true),
        (vec!["libc", "localtime"], true),
        (vec!["libc", "localtime_r"], false),
        (vec!["strtok"], false),
        (vec!["my", "libc", "strtok"], false),
        (vec!["other", "strtok"], false),
    ] {
        let c = call(func(1, &path, 0, 10), vec![], 0, 12);
        match &c.kind {
            ExprKind::Call(f, _) => assert_eq!(is_reentrant_fn(f), hit),
            _ => unreachable!(),
        }
        assert_eq!(check_written_non_reentrant(&c, false).is_some(), hit);
        assert_eq!(NonReentrantFunctions.check_expr(&c).is_some(), hit);
    }
    let mut c = call(func(1, &["libc", "strtok"], 0, 10), vec![], 0, 12);
    c.span = Span::in_expansion(0, 12, 3);
    assert_eq!(
        check_written_non_reentrant(&c, false),
        Some(plain(FindingKind::NonReentrantFunction, Span::in_expansion(0, 12, 3)))
    );
    assert_eq!(check_written_non_reentrant(&c, true), None);
    assert_eq!(NonReentrantFunctions.check_expr(&c), None);
}

#[test]
fn native_strings_handed_to_a_foreign_function_are_reported_per_argument() {
    // printf(fmt, n, s.as_ptr(), || t)
    let c = call(
        func(PRINTF, &["printf"], 0, 6),
        vec![
            string_local(1, "fmt", 7, 10),
            local(2, "n", 12, 13),
            method("as_ptr", None, string_local(3, "s", 15, 16), vec![], 15, 25),
            closure(string_local(4, "t", 30, 31), 27, 31),
        ],
        0,
        32,
    );
    assert_eq!(
        check_passing_string(&c, &program()),
        vec![
            noted(FindingKind::PassingStringToCFunction, sp(0, 32), sp(7, 10)),
            noted(FindingKind::PassingStringToCFunction, sp(0, 32), sp(15, 16)),
        ]
    );
}

#[test]
fn strings_handed_to_other_functions_are_not_reported() {
    let args = || vec![string_local(1, "fmt", 7, 10)];
    let c = call(func(LOCAL_FN, &["printf"], 0, 6), args(), 0, 11);
    assert_eq!(check_passing_string(&c, &program()), vec![]);
    let c = call(func(999, &["printf"], 0, 6), args(), 0, 11);
    assert_eq!(check_passing_string(&c, &program()), vec![]);
    let m = method("printf", Some(PRINTF), local(9, "x", 0, 1), args(), 0, 11);
    assert_eq!(check_passing_string(&m, &program()), vec![]);
    let mut qualified = func(PRINTF, &["printf"], 0, 6);
    if let ExprKind::Path(p) = &mut qualified.kind {
        p.qualified = true;
    }
    assert_eq!(check_passing_string(&call(qualified, args(), 0, 11), &program()), vec![]);
}

#[test]
fn types_without_layout_are_reported_for_c_functions() {
    let inputs = vec![
        ParamTy { span: sp(10, 14), adt: None },
        ParamTy { span: sp(16, 20), adt: adt(sp(100, 110), false, false, false, false) },
        ParamTy { span: sp(22, 26), adt: adt(sp(120, 130), true, false, false, false) },
        ParamTy { span: sp(28, 32), adt: adt(sp(140, 150), false, true, false, false) },
        ParamTy { span: sp(34, 38), adt: adt(sp(160, 170), false, false, true, false) },
        ParamTy { span: sp(40, 44), adt: adt(sp(180, 190), false, false, false, true) },
        ParamTy { span: sp(46, 50), adt: adt(sp(200, 210), false, false, false, false) },
    ];
    let expected = vec![
        noted(FindingKind::ExternWithoutRepr, sp(16, 20), sp(100, 110)),
        noted(FindingKind::ExternWithoutRepr, sp(46, 50), sp(200, 210)),
    ];
    assert_eq!(non_ffi_safe_ty_span(&inputs[1]), Some(sp(100, 110)));
    assert_eq!(non_ffi_safe_ty_span(&inputs[2]), None);
    let item = Item { span: sp(0, 60), kind: ItemKind::Fn { abi: Abi::C, inputs: inputs.clone() } };
    assert_eq!(check_item(&item), expected);
    let item = Item { span: sp(0, 60), kind: ItemKind::Fn { abi: Abi::Other, inputs: inputs.clone() } };
    assert_eq!(check_item(&item), vec![]);
    let items = vec![
        ForeignItem { id: 1, name: "f".to_string(), inputs: Some(inputs.clone()) },
        ForeignItem { id: 2, name: "STATIC".to_string(), inputs: None },
        ForeignItem { id: 3, name: "g".to_string(), inputs: Some(vec![inputs[1]]) },
    ];
    let item = Item { span: sp(0, 60), kind: ItemKind::ForeignMod { abi: Abi::C, explicit_abi: true, items } };
    let mut all = expected.clone();
    all.push(expected[0]);
    assert_eq!(check_item(&item), all);
    let item = Item { span: sp(0, 60), kind: ItemKind::Other };
    assert_eq!(check_item(&item), vec![]);
}

#[test]
fn foreign_block_without_calling_convention_is_reported_at_its_first_word() {
    let src = SourceText::new("extern {\n fn f();\n}\nextern \"C\" {}");
    let implicit = Item { span: sp(0, 19), kind: ItemKind::ForeignMod { abi: Abi::C, explicit_abi: false, items: vec![] } };
    let explicit = Item { span: sp(20, 33), kind: ItemKind::ForeignMod { abi: Abi::C, explicit_abi: true, items: vec![] } };
    let function = Item { span: sp(0, 19), kind: ItemKind::Fn { abi: Abi::C, inputs: vec![] } };
    assert_eq!(check_implicit_abi(&implicit, &src), Some(plain(FindingKind::ImplicitAbi, sp(0, 6))));
    assert_eq!(ImplicitAbi.check_item(&implicit, &src), Some(plain(FindingKind::ImplicitAbi, sp(0, 6))));
    assert_eq!(check_implicit_abi(&explicit, &src), None);
    assert_eq!(check_implicit_abi(&function, &src), None);
    // without text the whole item is pointed at
    let far = Item { span: sp(500, 600), kind: ItemKind::ForeignMod { abi: Abi::C, explicit_abi: false, items: vec![] } };
    assert_eq!(check_implicit_abi(&far, &src), Some(plain(FindingKind::ImplicitAbi, sp(500, 600))));
}
