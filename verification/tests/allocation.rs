#![allow(dead_code)]
#![allow(unused_imports)]

use guideline_lints::span::Span;
use guideline_lints::tree::{
    Arm, BinOp, Block, BorrowKind, Constant, DefKind, Expr, ExprKind, Lit, LitKind, Local,
    LoopKind, Pat, Path, Res, Stmt, StmtKind, Ty, TyFacts, TyKind, UnOp,
};

fn sp(lo: u32, hi: u32) -> Span {
    Span::new(lo, hi)
}

fn ex(kind: ExprKind, lo: u32, hi: u32) -> Expr {
    Expr { span: sp(lo, hi), kind, ty: TyFacts { native_string: false, simple: false }, value: None }
}

fn names(parts: &[&str]) -> Vec<String> {
    parts.iter().map(|s| s.to_string()).collect()
}

fn local(id: u64, name: &str, lo: u32, hi: u32) -> Expr {
    ex(ExprKind::Path(Path { res: Res::Local(id), qualified: false, segments: names(&[name]) }), lo, hi)
}

fn func(id: u64, path: &[&str], lo: u32, hi: u32) -> Expr {
    ex(
        ExprKind::Path(Path { res: Res::Def(DefKind::Fn, id), qualified: false, segments: names(path) }),
        lo,
        hi,
    )
}

fn call(callee: Expr, args: Vec<Expr>, lo: u32, hi: u32) -> Expr {
    ex(ExprKind::Call(Box::new(callee), args), lo, hi)
}

fn method(name: &str, def: Option<u64>, recv: Expr, args: Vec<Expr>, lo: u32, hi: u32) -> Expr {
    ex(ExprKind::MethodCall(name.to_string(), def, Box::new(recv), args), lo, hi)
}

fn deref(e: Expr, lo: u32, hi: u32) -> Expr {
    ex(ExprKind::Unary(UnOp::Deref, Box::new(e)), lo, hi)
}

fn not(e: Expr, lo: u32, hi: u32) -> Expr {
    ex(ExprKind::Unary(UnOp::Not, Box::new(e)), lo, hi)
}

fn addr_of(e: Expr, lo: u32, hi: u32) -> Expr {
    ex(ExprKind::AddrOf(BorrowKind::Ref, Box::new(e)), lo, hi)
}

fn cast(e: Expr, kind: TyKind, lo: u32, hi: u32) -> Expr {
    ex(ExprKind::Cast(Box::new(e), Ty { kind, span: sp(hi, hi) }), lo, hi)
}

fn lit_int(n: u128, lo: u32, hi: u32) -> Expr {
    ex(ExprKind::Lit(Lit { kind: LitKind::Int(n), suffixed: false, span: sp(lo, hi) }), lo, hi)
}

fn assign(place: Expr, value: Expr, lo: u32, hi: u32) -> Expr {
    ex(ExprKind::Assign(Box::new(place), Box::new(value)), lo, hi)
}

fn binary(op: BinOp, l: Expr, r: Expr, lo: u32, hi: u32) -> Expr {
    ex(ExprKind::Binary(op, Box::new(l), Box::new(r)), lo, hi)
}

fn field(e: Expr, name: &str, lo: u32, hi: u32) -> Expr {
    ex(ExprKind::Field(Box::new(e), name.to_string()), lo, hi)
}

fn block_expr(b: Block) -> Expr {
    let span = b.span;
    Expr {
        span,
        kind: ExprKind::Block(Box::new(b)),
        ty: TyFacts { native_string: false, simple: false },
        value: None,
    }
}

fn if_then(cond: Expr, then: Block, lo: u32, hi: u32) -> Expr {
    ex(ExprKind::If(Box::new(cond), Box::new(block_expr(then)), None), lo, hi)
}

fn closure(body: Expr, lo: u32, hi: u32) -> Expr {
    ex(ExprKind::Closure(Box::new(body)), lo, hi)
}

fn ret(e: Option<Expr>, lo: u32, hi: u32) -> Expr {
    ex(ExprKind::Ret(e.map(Box::new)), lo, hi)
}

fn brk(label: Option<&str>, lo: u32, hi: u32) -> Expr {
    ex(ExprKind::Break(label.map(|l| l.to_string()), None), lo, hi)
}

fn looping(kind: LoopKind, label: Option<&str>, body: Block, lo: u32, hi: u32) -> Expr {
    ex(ExprKind::Loop(kind, label.map(|l| l.to_string()), Vec::new(), Box::new(body)), lo, hi)
}

fn semi(e: Expr) -> Stmt {
    let span = sp(e.span.lo, e.span.hi + 1);
    Stmt { span, kind: StmtKind::Semi(e) }
}

fn pat(id: u64, name: &str, lo: u32, hi: u32) -> Pat {
    Pat { id, span: sp(lo, hi), names: names(&[name]) }
}

fn let_local(id: u64, name: &str, ty: Option<Ty>, init: Option<Expr>, lo: u32, hi: u32) -> Local {
    Local { span: sp(lo, hi), pat: pat(id, name, lo + 4, lo + 4 + name.len() as u32), ty, init, els: None }
}

fn let_stmt(id: u64, name: &str, ty: Option<Ty>, init: Option<Expr>, lo: u32, hi: u32) -> Stmt {
    Stmt { span: sp(lo, hi), kind: StmtKind::Local(let_local(id, name, ty, init, lo, hi)) }
}

fn block(id: u64, stmts: Vec<Stmt>, tail: Option<Expr>, lo: u32, hi: u32) -> Block {
    Block { id, span: sp(lo, hi), stmts, expr: tail }
}

fn stmt_expr(s: &Stmt) -> &Expr {
    match &s.kind {
        StmtKind::Semi(e) => e,
        StmtKind::Expr(e) => e,
        _ => panic!("the statement holds no expression"),
    }
}

fn stmt_local(s: &Stmt) -> &Local {
    match &s.kind {
        StmtKind::Local(l) => l,
        _ => panic!("the statement is no let"),
    }
}

fn inner_block(e: &Expr) -> &Block {
    match &e.kind {
        ExprKind::Block(b) => b,
        ExprKind::If(_, then, _) => inner_block(then),
        ExprKind::Loop(_, _, _, b) => b,
        _ => panic!("the expression holds no block"),
    }
}

use guideline_lints::allocation::{
    check_expr, default_size_checkers, expr_is_checker_call, is_checker_fn, path_hir_id_and_span,
    PtrStatus, VerifierFinder,
};
use guideline_lints::finding::{Finding, FindingKind};
use guideline_lints::ptr::KnownFns;
use guideline_lints::text::SourceText;

const MALLOC: u64 = 10;
const SIZE: u64 = 1;
const OTHER: u64 = 2;

fn malloc(args: Vec<Expr>, lo: u32, hi: u32) -> Expr {
    call(func(MALLOC, &["malloc"], lo, lo + 6), args, lo, hi)
}

fn call_args(e: &Expr) -> &Vec<Expr> {
    match &e.kind {
        ExprKind::Call(_, args) => args,
        _ => panic!("no call"),
    }
}

fn let_init(s: &Stmt) -> &Expr {
    stmt_local(s).init.as_ref().unwrap()
}

fn unverified(call: Span, size: Span) -> Finding {
    Finding { kind: FindingKind::UnverifiedAllocSize, span: call, note: Some(size), subject: None }
}

fn unchecked(call: Span) -> Finding {
    Finding { kind: FindingKind::UncheckedAllocResult, span: call, note: None, subject: None }
}

fn no_text() -> SourceText {
    SourceText::new("")
}

const NULL: u64 = 90;
const PTR: u64 = 9;

fn known() -> KnownFns {
    KnownFns { ptr_null: Some(NULL), ptr_null_mut: None }
}

/// `{ let p = malloc(size); <stmt> }`, checked at the call.
fn after_allocation(stmt: Stmt) -> Vec<Finding> {
    let b = block(
        1,
        vec![
            semi(binary(BinOp::Lt, local(SIZE, "size", 2, 6), lit_int(9, 7, 8), 2, 8)),
            let_stmt(PTR, "p", None, Some(malloc(vec![local(SIZE, "size", 27, 31)], 20, 32)), 12, 33),
            stmt,
        ],
        None,
        0,
        90,
    );
    let call = let_init(&b.stmts[1]);
    check_expr(call, call_args(call), true, &default_size_checkers(), &vec![&b], &no_text(), &known())
}

#[test]
fn literal_size_is_never_reported() {
    // { let p = malloc(100); }   with nothing that verifies anything around it
    let b = block(1, vec![let_stmt(9, "p", None, Some(malloc(vec![lit_int(100, 17, 20)], 10, 21)), 2, 22)], None, 0, 30);
    let call = let_init(&b.stmts[0]);
    let out = check_expr(call, call_args(call), true, &default_size_checkers(), &vec![&b], &no_text(), &known());
    assert_eq!(out, vec![]);
    let out = check_expr(call, call_args(call), true, &vec![], &vec![], &no_text(), &known());
    assert_eq!(out, vec![]);
}

#[test]
fn unverified_size_and_unchecked_result_are_reported_in_order() {
    // { let p = malloc(size); }
    let b = block(1, vec![let_stmt(9, "p", None, Some(malloc(vec![local(SIZE, "size", 17, 21)], 10, 22)), 2, 23)], None, 0, 30);
    let call = let_init(&b.stmts[0]);
    let out = check_expr(call, call_args(call), true, &default_size_checkers(), &vec![&b], &no_text(), &known());
    assert_eq!(out, vec![unverified(sp(10, 22), sp(17, 21)), unchecked(sp(10, 22))]);
    let out = check_expr(call, call_args(call), false, &default_size_checkers(), &vec![&b], &no_text(), &known());
    assert_eq!(out, vec![unverified(sp(10, 22), sp(17, 21))]);
}

#[test]
fn comparison_in_an_outer_block_verifies_the_size() {
    // { if size < limit { let p = malloc(size); p.is_null(); } }
    let inner = block(
        2,
        vec![
            let_stmt(9, "p", None, Some(malloc(vec![local(SIZE, "size", 37, 41)], 30, 42)), 22, 43),
            semi(method("is_null", None, local(9, "p", 45, 46), vec![], 45, 56)),
        ],
        None,
        20,
        60,
    );
    let cond = binary(BinOp::Lt, local(SIZE, "size", 5, 9), local(OTHER, "limit", 12, 17), 5, 17);
    let outer = block(1, vec![], Some(if_then(cond, inner, 2, 60)), 0, 62);
    let inner = inner_block(outer.expr.as_ref().unwrap());
    let call = let_init(&inner.stmts[0]);
    let out = check_expr(call, call_args(call), true, &default_size_checkers(), &vec![inner, &outer], &no_text(), &known());
    assert_eq!(out, vec![]);
    // the inner block alone holds the null check but no comparison
    let out = check_expr(call, call_args(call), true, &default_size_checkers(), &vec![inner], &no_text(), &known());
    assert_eq!(out, vec![unverified(sp(30, 42), sp(37, 41))]);
}

#[test]
fn each_of_the_five_comparisons_verifies_and_inequality_does_not() {
    for (op, verifies) in [
        (BinOp::Lt, true),
        (BinOp::Le, true),
        (BinOp::Gt, true),
        (BinOp::Ge, true),
        (BinOp::Eq, true),
        (BinOp::Ne, false),
        (BinOp::Other, false),
    ] {
        let b = block(
            1,
            vec![
                semi(binary(op, local(OTHER, "limit", 2, 7), local(SIZE, "size", 10, 14), 2, 14)),
                semi(malloc(vec![local(SIZE, "size", 23, 27)], 16, 28)),
            ],
            None,
            0,
            30,
        );
        let call = stmt_expr(&b.stmts[1]);
        let out = check_expr(call, call_args(call), false, &default_size_checkers(), &vec![&b], &no_text(), &known());
        assert_eq!(out.is_empty(), verifies);
    }
}

#[test]
fn comparison_of_another_binding_with_the_same_name_does_not_verify() {
    let b = block(
        1,
        vec![
            semi(binary(BinOp::Lt, local(OTHER, "size", 2, 6), lit_int(10, 9, 11), 2, 11)),
            semi(malloc(vec![local(SIZE, "size", 23, 27)], 16, 28)),
        ],
        None,
        0,
        30,
    );
    let call = stmt_expr(&b.stmts[1]);
    let out = check_expr(call, call_args(call), false, &default_size_checkers(), &vec![&b], &no_text(), &known());
    assert_eq!(out, vec![unverified(sp(16, 28), sp(23, 27))]);
}

#[test]
fn comparison_through_a_dereference_verifies() {
    let b = block(
        1,
        vec![
            semi(binary(BinOp::Le, deref(local(SIZE, "size", 3, 7), 2, 7), lit_int(10, 11, 13), 2, 13)),
            semi(malloc(vec![local(SIZE, "size", 23, 27)], 16, 28)),
        ],
        None,
        0,
        30,
    );
    let call = stmt_expr(&b.stmts[1]);
    assert_eq!(check_expr(call, call_args(call), false, &default_size_checkers(), &vec![&b], &no_text(), &known()), vec![]);
}

#[test]
fn comparison_inside_an_initialiser_verifies_the_size() {
    // { let ok = size < 10; malloc(size); }
    let b = block(
        1,
        vec![
            let_stmt(OTHER, "ok", None, Some(binary(BinOp::Lt, local(SIZE, "size", 11, 15), lit_int(10, 18, 20), 11, 20)), 2, 21),
            semi(malloc(vec![local(SIZE, "size", 30, 34)], 23, 35)),
        ],
        None,
        0,
        40,
    );
    let call = stmt_expr(&b.stmts[1]);
    assert_eq!(check_expr(call, call_args(call), false, &default_size_checkers(), &vec![&b], &no_text(), &known()), vec![]);
    // in a closure it does not
    let b = block(
        1,
        vec![
            semi(closure(binary(BinOp::Lt, local(SIZE, "size", 11, 15), lit_int(10, 18, 20), 11, 20), 8, 20)),
            semi(malloc(vec![local(SIZE, "size", 30, 34)], 23, 35)),
        ],
        None,
        0,
        40,
    );
    let call = stmt_expr(&b.stmts[1]);
    assert_eq!(
        check_expr(call, call_args(call), false, &default_size_checkers(), &vec![&b], &no_text(), &known()),
        vec![unverified(sp(23, 35), sp(30, 34))]
    );
}

#[test]
fn size_initialised_from_a_checker_is_verified() {
    // { let size = clamp(n); malloc(size); }
    let b = block(
        1,
        vec![
            let_stmt(SIZE, "size", None, Some(call(func(50, &["clamp"], 13, 18), vec![local(OTHER, "n", 19, 20)], 13, 21)), 2, 22),
            semi(malloc(vec![local(SIZE, "size", 31, 35)], 24, 36)),
        ],
        None,
        0,
        40,
    );
    let call = stmt_expr(&b.stmts[1]);
    assert_eq!(check_expr(call, call_args(call), false, &default_size_checkers(), &vec![&b], &no_text(), &known()), vec![]);
    // without configured checkers nothing verifies it
    let out = check_expr(call, call_args(call), false, &vec![], &vec![&b], &no_text(), &known());
    assert_eq!(out, vec![unverified(sp(24, 36), sp(31, 35))]);
}

#[test]
fn size_assigned_from_a_checker_is_verified() {
    // { size = min(n, cap); malloc(size); }   and   { other = min(n, cap); malloc(size); }
    for (place, verifies) in [(SIZE, true), (OTHER, false)] {
        let b = block(
            1,
            vec![
                semi(assign(local(place, "size", 2, 6), call(func(50, &["std", "cmp", "min"], 9, 22), vec![local(7, "n", 23, 24)], 9, 25), 2, 25)),
                semi(malloc(vec![local(SIZE, "size", 34, 38)], 27, 39)),
            ],
            None,
            0,
            45,
        );
        let call = stmt_expr(&b.stmts[1]);
        let out = check_expr(call, call_args(call), false, &default_size_checkers(), &vec![&b], &no_text(), &known());
        assert_eq!(out.is_empty(), verifies);
    }
}

#[test]
fn checker_applied_to_the_size_verifies_it() {
    // { check_size(size); malloc(size); }   and   { check_size(other); malloc(size); }
    for (arg, verifies) in [(SIZE, true), (OTHER, false)] {
        let b = block(
            1,
            vec![
                semi(call(func(51, &["check_size"], 2, 12), vec![local(arg, "size", 13, 17)], 2, 18)),
                semi(malloc(vec![local(SIZE, "size", 27, 31)], 20, 32)),
            ],
            None,
            0,
            40,
        );
        let call = stmt_expr(&b.stmts[1]);
        let out = check_expr(call, call_args(call), false, &default_size_checkers(), &vec![&b], &no_text(), &known());
        assert_eq!(out.is_empty(), verifies);
    }
}

#[test]
fn size_that_is_a_call_is_judged_by_its_name() {
    let b = block(1, vec![], None, 0, 40);
    let plain = malloc(vec![call(func(52, &["get_size"], 7, 15), vec![], 7, 17)], 0, 18);
    let out = check_expr(&plain, call_args(&plain), true, &default_size_checkers(), &vec![&b], &no_text(), &known());
    assert_eq!(out, vec![unverified(sp(0, 18), sp(7, 17))]);
    let checker = malloc(vec![call(func(53, &["max"], 7, 10), vec![], 7, 12)], 0, 13);
    assert_eq!(check_expr(&checker, call_args(&checker), true, &default_size_checkers(), &vec![&b], &no_text(), &known()), vec![]);
    let sum = malloc(vec![binary(BinOp::Other, local(SIZE, "a", 7, 8), local(OTHER, "b", 11, 12), 7, 12)], 0, 13);
    assert_eq!(check_expr(&sum, call_args(&sum), true, &default_size_checkers(), &vec![&b], &no_text(), &known()), vec![]);
}

#[test]
fn checker_in_a_module_counts_by_its_own_name() {
    // { let size = core::cmp::min(n, cap); malloc(size); }
    let b = block(
        1,
        vec![
            let_stmt(SIZE, "size", None, Some(call(func(50, &["core", "cmp", "min"], 13, 27), vec![local(OTHER, "n", 28, 29)], 13, 30)), 2, 31),
            semi(malloc(vec![local(SIZE, "size", 40, 44)], 33, 45)),
        ],
        None,
        0,
        50,
    );
    let alloc = stmt_expr(&b.stmts[1]);
    assert_eq!(check_expr(alloc, call_args(alloc), false, &default_size_checkers(), &vec![&b], &no_text(), &known()), vec![]);
    // malloc(core::cmp::min(size, cap)) and malloc(checked::get_size())
    let by_checker = malloc(vec![call(func(50, &["core", "cmp", "min"], 7, 21), vec![], 7, 23)], 0, 24);
    assert_eq!(check_expr(&by_checker, call_args(&by_checker), true, &default_size_checkers(), &vec![], &no_text(), &known()), vec![]);
    let by_other = malloc(vec![call(func(51, &["checked", "get_size"], 7, 24), vec![], 7, 26)], 0, 27);
    assert_eq!(
        check_expr(&by_other, call_args(&by_other), true, &default_size_checkers(), &vec![], &no_text(), &known()),
        vec![unverified(sp(0, 27), sp(7, 26))]
    );
}

#[test]
fn size_parameter_is_found_by_its_text() {
    let text = "calloc(count, size_a)";
    let src = SourceText::new(text);
    let c = call(func(MALLOC, &["calloc"], 0, 6), vec![local(OTHER, "count", 7, 12), local(SIZE, "size_a", 14, 20)], 0, 21);
    let b = block(1, vec![], None, 0, 21);
    let out = check_expr(&c, call_args(&c), false, &default_size_checkers(), &vec![&b], &src, &known());
    assert_eq!(out, vec![unverified(sp(0, 21), sp(14, 20))]);
    // no parameter whose text holds "size"
    let c = call(func(MALLOC, &["calloc"], 0, 6), vec![local(OTHER, "count", 7, 12), local(SIZE, "size_a", 0, 5)], 0, 21);
    assert_eq!(check_expr(&c, call_args(&c), false, &default_size_checkers(), &vec![&b], &src, &known()), vec![]);
    // no parameter at all
    let c = call(func(MALLOC, &["calloc"], 0, 6), vec![], 0, 8);
    assert_eq!(check_expr(&c, call_args(&c), true, &default_size_checkers(), &vec![&b], &src, &known()), vec![]);
}

#[test]
fn null_check_of_the_result_verifies_it() {
    assert_eq!(after_allocation(semi(method("is_null", None, local(PTR, "p", 40, 41), vec![], 40, 51))), vec![]);
    assert_eq!(after_allocation(semi(call(func(60, &["ptr_is_null"], 40, 51), vec![local(PTR, "p", 52, 53)], 40, 54))), vec![]);
    assert_eq!(
        after_allocation(semi(call(func(60, &["util", "is_null_ptr"], 40, 57), vec![cast(local(PTR, "p", 58, 59), TyKind::Ptr, 58, 70)], 40, 71))),
        vec![]
    );
    let guard = not(method("is_null", None, local(PTR, "p", 44, 45), vec![], 44, 55), 43, 55);
    assert_eq!(after_allocation(semi(if_then(guard, block(2, vec![], None, 56, 58), 40, 58))), vec![]);
}

#[test]
fn what_does_not_refer_to_the_result_does_not_verify_it() {
    let unchecked_only = vec![unchecked(sp(20, 32))];
    // a null check of another pointer, even one of the same name
    assert_eq!(after_allocation(semi(method("is_null", None, local(OTHER, "p", 40, 41), vec![], 40, 51))), unchecked_only);
    // a call of another name
    assert_eq!(after_allocation(semi(method("is_some", None, local(PTR, "p", 40, 41), vec![], 40, 51))), unchecked_only);
    // a name that is no call
    assert_eq!(after_allocation(semi(field(local(PTR, "p", 40, 41), "is_null", 40, 49))), unchecked_only);
    assert_eq!(after_allocation(let_stmt(70, "p_is_null", None, None, 40, 55)), unchecked_only);
    // the result as second argument
    assert_eq!(
        after_allocation(semi(call(func(60, &["is_null"], 40, 47), vec![local(OTHER, "q", 48, 49), local(PTR, "p", 51, 52)], 40, 53))),
        unchecked_only
    );
}

#[test]
fn reassignment_behind_the_allocation_verifies_the_result() {
    let other = || call(func(61, &["other"], 44, 49), vec![], 44, 51);
    assert_eq!(after_allocation(semi(assign(local(PTR, "p", 40, 41), other(), 40, 51))), vec![]);
    // an assignment of null does not
    let null = call(func(NULL, &["null"], 44, 48), vec![], 44, 50);
    assert_eq!(after_allocation(semi(assign(local(PTR, "p", 40, 41), null, 40, 50))), vec![unchecked(sp(20, 32))]);
    // nor an assignment to another binding
    assert_eq!(after_allocation(semi(assign(local(OTHER, "q", 40, 41), other(), 40, 51))), vec![unchecked(sp(20, 32))]);
}

#[test]
fn result_is_followed_from_the_binding_it_is_put_into() {
    // { size < 9; p = malloc(size) as *mut u8; p.is_null(); }   the assignment itself verifies nothing
    let alloc = cast(malloc(vec![local(SIZE, "size", 27, 31)], 20, 32), TyKind::Ptr, 20, 43);
    let checked = block(
        1,
        vec![
            semi(binary(BinOp::Lt, local(SIZE, "size", 2, 6), lit_int(9, 7, 8), 2, 8)),
            semi(assign(local(PTR, "p", 16, 17), alloc, 16, 43)),
            semi(method("is_null", None, local(PTR, "p", 50, 51), vec![], 50, 61)),
        ],
        None,
        0,
        90,
    );
    let call = match &stmt_expr(&checked.stmts[1]).kind {
        ExprKind::Assign(_, value) => match &value.kind {
            ExprKind::Cast(inner, _) => &**inner,
            _ => panic!("no cast"),
        },
        _ => panic!("no assignment"),
    };
    assert_eq!(check_expr(call, call_args(call), true, &default_size_checkers(), &vec![&checked], &no_text(), &known()), vec![]);
    // without the null check, the assignment that holds the allocation does not count as reassignment
    let alloc = cast(malloc(vec![local(SIZE, "size", 27, 31)], 20, 32), TyKind::Ptr, 20, 43);
    let unchecked_block = block(
        1,
        vec![
            semi(binary(BinOp::Lt, local(SIZE, "size", 2, 6), lit_int(9, 7, 8), 2, 8)),
            semi(assign(local(PTR, "p", 16, 17), alloc, 16, 43)),
        ],
        None,
        0,
        90,
    );
    let call = match &stmt_expr(&unchecked_block.stmts[1]).kind {
        ExprKind::Assign(_, value) => match &value.kind {
            ExprKind::Cast(inner, _) => &**inner,
            _ => panic!("no cast"),
        },
        _ => panic!("no assignment"),
    };
    assert_eq!(
        check_expr(call, call_args(call), true, &default_size_checkers(), &vec![&unchecked_block], &no_text(), &known()),
        vec![unchecked(sp(20, 32))]
    );
}

#[test]
fn result_that_nothing_holds_cannot_be_verified() {
    // { size < 9; use(malloc(size)); p.is_null(); }
    let b = block(
        1,
        vec![
            semi(binary(BinOp::Lt, local(SIZE, "size", 2, 6), lit_int(9, 7, 8), 2, 8)),
            semi(call(func(62, &["keep"], 12, 16), vec![malloc(vec![local(SIZE, "size", 27, 31)], 20, 32)], 12, 33)),
            semi(method("is_null", None, local(PTR, "p", 40, 41), vec![], 40, 51)),
        ],
        None,
        0,
        90,
    );
    let call = &call_args(stmt_expr(&b.stmts[1]))[0];
    assert_eq!(
        check_expr(call, call_args(call), true, &default_size_checkers(), &vec![&b], &no_text(), &known()),
        vec![unchecked(sp(20, 32))]
    );
    assert_eq!(check_expr(call, call_args(call), false, &default_size_checkers(), &vec![&b], &no_text(), &known()), vec![]);
}

#[test]
fn finder_keeps_what_it_found() {
    let checkers = default_size_checkers();
    let verifying = block(1, vec![semi(binary(BinOp::Gt, local(SIZE, "s", 2, 3), lit_int(0, 6, 7), 2, 7))], None, 0, 10);
    let empty = block(2, vec![], None, 10, 12);
    let mut finder = VerifierFinder { id: SIZE, size_verified: false, ptr_verified: PtrStatus::Unverified, alloc_size_check_fns: &checkers, result: Some(PTR), allocated: sp(0, 0), known: known() };
    finder.visit_block(&empty);
    assert!(!finder.size_verified);
    finder.visit_block(&verifying);
    assert!(finder.size_verified);
    finder.visit_block(&empty);
    assert!(finder.size_verified);
    assert_eq!(finder.ptr_verified, PtrStatus::Unverified);
    let mut finder = VerifierFinder { id: SIZE, size_verified: false, ptr_verified: PtrStatus::NotPtr, alloc_size_check_fns: &checkers, result: Some(PTR), allocated: sp(0, 0), known: known() };
    let checking = block(3, vec![semi(method("is_null", None, local(9, "p", 2, 3), vec![], 2, 13))], None, 0, 15);
    finder.visit_block(&checking);
    assert_eq!(finder.ptr_verified, PtrStatus::NotPtr);
    let mut finder = VerifierFinder { id: SIZE, size_verified: false, ptr_verified: PtrStatus::Unverified, alloc_size_check_fns: &checkers, result: Some(PTR), allocated: sp(0, 0), known: known() };
    finder.visit_block(&checking);
    assert_eq!(finder.ptr_verified, PtrStatus::Verified);
    finder.visit_block(&block(4, vec![], None, 0, 2));
    assert_eq!(finder.ptr_verified, PtrStatus::Verified);
}

#[test]
fn checker_names() {
    let checkers = default_size_checkers();
    assert_eq!(checkers, vec!["max", "min", "clamp", "check", "verif", "ensure", "assert"]);
    assert!(is_checker_fn("size_checker", &checkers));
    assert!(is_checker_fn("assert_small", &checkers));
    assert!(is_checker_fn("minimum", &checkers));
    assert!(!is_checker_fn("get_size", &checkers));
    assert!(!is_checker_fn("max", &vec![]));
    let m = method("clamp", None, local(SIZE, "s", 0, 1), vec![], 0, 9);
    assert_eq!(expr_is_checker_call(&m, &checkers), Some(true));
    let m = method("len", None, local(SIZE, "s", 0, 1), vec![], 0, 7);
    assert_eq!(expr_is_checker_call(&m, &checkers), Some(false));
    // the name of the called function decides, not the modules before it
    let c = call(func(1, &["checked", "get"], 0, 12), vec![], 0, 14);
    assert_eq!(expr_is_checker_call(&c, &checkers), Some(false));
    let c = call(func(1, &["util", "check"], 0, 11), vec![], 0, 13);
    assert_eq!(expr_is_checker_call(&c, &checkers), Some(true));
    let c = call(func(1, &["core", "cmp", "min"], 0, 14), vec![local(SIZE, "size", 15, 19), local(OTHER, "cap", 21, 24)], 0, 25);
    assert_eq!(expr_is_checker_call(&c, &checkers), Some(true));
    let c = call(func(1, &["min"], 0, 3), vec![], 0, 5);
    assert_eq!(expr_is_checker_call(&c, &checkers), Some(true));
    let mut qualified = func(1, &["T", "min"], 0, 6);
    if let ExprKind::Path(p) = &mut qualified.kind {
        p.qualified = true;
    }
    assert_eq!(expr_is_checker_call(&call(qualified, vec![], 0, 8), &checkers), None);
    let no_segments = ex(ExprKind::Path(Path { res: Res::Unresolved, qualified: false, segments: vec![] }), 0, 1);
    assert_eq!(expr_is_checker_call(&call(no_segments, vec![], 0, 3), &checkers), None);
    assert_eq!(expr_is_checker_call(&lit_int(1, 0, 1), &checkers), None);
    assert_eq!(path_hir_id_and_span(&local(SIZE, "s", 4, 5)), Some((SIZE, sp(4, 5))));
    assert_eq!(path_hir_id_and_span(&lit_int(1, 0, 1)), None);
}
