#![allow(dead_code)]
#![allow(unused_imports)]

use guideline_lints::span::Span;
use guideline_lints::tree::{
    Arm, BinOp, Block, BorrowKind, Constant, DefKind, Expr, ExprKind, Lit, LitKind, Local,
    LoopKind, Pat, Path, Res, Stmt, StmtKind, Ty, TyFacts, TyKind, UnOp,
};

fn sp(lo: u32, hi: u32) -> Span {
    Span::new(lo, hi)
}

fn ex(kind: ExprKind, lo: u32, hi: u32) -> Expr {
    Expr { span: sp(lo, hi), kind, ty: TyFacts { native_string: false, simple: false }, value: None }
}

fn names(parts: &[&str]) -> Vec<String> {
    parts.iter().map(|s| s.to_string()).collect()
}

fn local(id: u64, name: &str, lo: u32, hi: u32) -> Expr {
    ex(ExprKind::Path(Path { res: Res::Local(id), qualified: false, segments: names(&[name]) }), lo, hi)
}

fn func(id: u64, path: &[&str], lo: u32, hi: u32) -> Expr {
    ex(
        ExprKind::Path(Path { res: Res::Def(DefKind::Fn, id), qualified: false, segments: names(path) }),
        lo,
        hi,
    )
}

fn call(callee: Expr, args: Vec<Expr>, lo: u32, hi: u32) -> Expr {
    ex(ExprKind::Call(Box::new(callee), args), lo, hi)
}

fn method(name: &str, def: Option<u64>, recv: Expr, args: Vec<Expr>, lo: u32, hi: u32) -> Expr {
    ex(ExprKind::MethodCall(name.to_string(), def, Box::new(recv), args), lo, hi)
}

fn deref(e: Expr, lo: u32, hi: u32) -> Expr {
    ex(ExprKind::Unary(UnOp::Deref, Box::new(e)), lo, hi)
}

fn not(e: Expr, lo: u32, hi: u32) -> Expr {
    ex(ExprKind::Unary(UnOp::Not, Box::new(e)), lo, hi)
}

fn addr_of(e: Expr, lo: u32, hi: u32) -> Expr {
    ex(ExprKind::AddrOf(BorrowKind::Ref, Box::new(e)), lo, hi)
}

fn cast(e: Expr, kind: TyKind, lo: u32, hi: u32) -> Expr {
    ex(ExprKind::Cast(Box::new(e), Ty { kind, span: sp(hi, hi) }), lo, hi)
}

fn lit_int(n: u128, lo: u32, hi: u32) -> Expr {
    ex(ExprKind::Lit(Lit { kind: LitKind::Int(n), suffixed: false, span: sp(lo, hi) }), lo, hi)
}

fn assign(place: Expr, value: Expr, lo: u32, hi: u32) -> Expr {
    ex(ExprKind::Assign(Box::new(place), Box::new(value)), lo, hi)
}

fn binary(op: BinOp, l: Expr, r: Expr, lo: u32, hi: u32) -> Expr {
    ex(ExprKind::Binary(op, Box::new(l), Box::new(r)), lo, hi)
}

fn field(e: Expr, name: &str, lo: u32, hi: u32) -> Expr {
    ex(ExprKind::Field(Box::new(e), name.to_string()), lo, hi)
}

fn block_expr(b: Block) -> Expr {
    let span = b.span;
    Expr {
        span,
        kind: ExprKind::Block(Box::new(b)),
        ty: TyFacts { native_string: false, simple: false },
        value: None,
    }
}

fn if_then(cond: Expr, then: Block, lo: u32, hi: u32) -> Expr {
    ex(ExprKind::If(Box::new(cond), Box::new(block_expr(then)), None), lo, hi)
}

fn closure(body: Expr, lo: u32, hi: u32) -> Expr {
    ex(ExprKind::Closure(Box::new(body)), lo, hi)
}

fn ret(e: Option<Expr>, lo: u32, hi: u32) -> Expr {
    ex(ExprKind::Ret(e.map(Box::new)), lo, hi)
}

fn brk(label: Option<&str>, lo: u32, hi: u32) -> Expr {
    ex(ExprKind::Break(label.map(|l| l.to_string()), None), lo, hi)
}

fn looping(kind: LoopKind, label: Option<&str>, body: Block, lo: u32, hi: u32) -> Expr {
    ex(ExprKind::Loop(kind, label.map(|l| l.to_string()), Vec::new(), Box::new(body)), lo, hi)
}

fn semi(e: Expr) -> Stmt {
    let span = sp(e.span.lo, e.span.hi + 1);
    Stmt { span, kind: StmtKind::Semi(e) }
}

fn pat(id: u64, name: &str, lo: u32, hi: u32) -> Pat {
    Pat { id, span: sp(lo, hi), names: names(&[name]) }
}

fn let_local(id: u64, name: &str, ty: Option<Ty>, init: Option<Expr>, lo: u32, hi: u32) -> Local {
    Local { span: sp(lo, hi), pat: pat(id, name, lo + 4, lo + 4 + name.len() as u32), ty, init, els: None }
}

fn let_stmt(id: u64, name: &str, ty: Option<Ty>, init: Option<Expr>, lo: u32, hi: u32) -> Stmt {
    Stmt { span: sp(lo, hi), kind: StmtKind::Local(let_local(id, name, ty, init, lo, hi)) }
}

fn block(id: u64, stmts: Vec<Stmt>, tail: Option<Expr>, lo: u32, hi: u32) -> Block {
    Block { id, span: sp(lo, hi), stmts, expr: tail }
}

fn stmt_expr(s: &Stmt) -> &Expr {
    match &s.kind {
        StmtKind::Semi(e) => e,
        StmtKind::Expr(e) => e,
        _ => panic!("the statement holds no expression"),
    }
}

fn stmt_local(s: &Stmt) -> &Local {
    match &s.kind {
        StmtKind::Local(l) => l,
        _ => panic!("the statement is no let"),
    }
}

fn inner_block(e: &Expr) -> &Block {
    match &e.kind {
        ExprKind::Block(b) => b,
        ExprKind::If(_, then, _) => inner_block(then),
        ExprKind::Loop(_, _, _, b) => b,
        _ => panic!("the expression holds no block"),
    }
}

use guideline_lints::allocation::default_size_checkers;
use guideline_lints::blocking::FnKind;
use guideline_lints::expansion::{ExpnData, ExpnKind, Expansions, Owner};
use guideline_lints::finding::{Finding, FindingKind};
use guideline_lints::group::{block_declares, blocks_around_binding, Env, LintGroup};
use guideline_lints::ids::{FnDecl, Program};
use guideline_lints::item::{Abi, AdtFacts, ForeignItem, Item, ItemKind, ParamTy};
use guideline_lints::ptr::KnownFns;
use guideline_lints::text::SourceText;

const MEMCPY: u64 = 10;
const MALLOC: u64 = 11;
const READ: u64 = 12;
const DLOPEN: u64 = 13;
const STRTOK: u64 = 14;
const SLEEP: u64 = 15;
const NULL: u64 = 16;
const EXTERN_MALLOC: u64 = 17;
const BOTH: u64 = 18;
const LOCAL_STRTOK: u64 = 19;

fn program() -> Program {
    let decl = |id, path: &[&str], foreign, ptr| FnDecl { id, path: names(path), local: id == LOCAL_STRTOK, foreign, returns_raw_ptr: ptr };
    Program {
        fns: vec![
            decl(MEMCPY, &["libc", "memcpy"], true, true),
            decl(MALLOC, &["libc", "malloc"], true, true),
            decl(READ, &["std", "fs", "read_to_string"], false, false),
            decl(DLOPEN, &["libc", "dlopen"], true, true),
            decl(STRTOK, &["libc", "strtok"], true, true),
            decl(SLEEP, &["std", "thread", "sleep"], false, false),
            decl(NULL, &["std", "ptr", "null"], false, true),
            decl(EXTERN_MALLOC, &["malloc"], true, true),
            decl(BOTH, &["libc", "both"], true, false),
            decl(LOCAL_STRTOK, &["my_mod", "strtok"], false, false),
        ],
    }
}

fn group() -> LintGroup {
    let mut g = LintGroup::new(
        names(&["memcpy", "both"]),
        names(&["std::fs::read_to_string"]),
        names(&["dlopen"]),
        true,
        default_size_checkers(),
        names(&["malloc"]),
        names(&["strtok", "both"]),
    );
    g.check_crate(&program());
    g
}

fn known() -> KnownFns {
    KnownFns { ptr_null: Some(NULL), ptr_null_mut: None }
}

fn plain(kind: FindingKind, span: Span) -> Finding {
    Finding { kind, span, note: None, subject: None }
}

fn noted(kind: FindingKind, span: Span, note: Span) -> Finding {
    Finding { kind, span, note: Some(note), subject: None }
}

fn run(g: &mut LintGroup, e: &Expr, ancestors: &Vec<&Block>, src: &SourceText, exp: &Expansions, owners: &Vec<Owner>) -> Vec<Finding> {
    let p = program();
    let env = Env { program: &p, src, exp, known: known(), owners };
    g.check_expr(e, &env, ancestors)
}

fn check(g: &mut LintGroup, e: &Expr, ancestors: &Vec<&Block>) -> Vec<Finding> {
    run(g, e, ancestors, &SourceText::new(""), &Expansions { table: vec![] }, &vec![])
}

#[test]
fn new_group_has_resolved_nothing() {
    let g = LintGroup::new(names(&["a"]), names(&["b"]), names(&["c"]), false, names(&["d"]), names(&["e"]), names(&["f"]));
    assert_eq!(g.mem_uns_fns.paths, names(&["a"]));
    assert_eq!(g.io_fns.paths, names(&["b"]));
    assert_eq!(g.lib_loading_fns.paths, names(&["c"]));
    assert!(!g.allow_io_blocking_ops);
    assert_eq!(g.alloc_size_check_fns, names(&["d"]));
    assert_eq!(g.mem_alloc_fns.paths, names(&["e"]));
    assert_eq!(g.non_reentrant_fns.paths, names(&["f"]));
    assert!(g.blocking_fns.paths.is_empty());
    for set in [&g.mem_uns_fns.ids, &g.io_fns.ids, &g.lib_loading_fns.ids, &g.mem_alloc_fns.ids, &g.non_reentrant_fns.ids, &g.blocking_fns.ids] {
        assert!(set.is_empty());
    }
    assert!(g.macro_call_sites.is_empty());
}

#[test]
fn names_are_resolved_once_for_the_run() {
    let g = group();
    assert!(g.mem_uns_fns.ids.contains(&MEMCPY) && g.mem_uns_fns.ids.contains(&BOTH) && g.mem_uns_fns.ids.len() == 2);
    assert!(g.mem_alloc_fns.ids.contains(&MALLOC) && g.mem_alloc_fns.ids.len() == 1);
    assert!(g.io_fns.ids.contains(&READ) && g.io_fns.ids.len() == 1);
    assert!(g.lib_loading_fns.ids.contains(&DLOPEN));
    // the bare name stands for the system function and for the program's own function of that name
    assert!(g.non_reentrant_fns.ids.contains(&STRTOK) && g.non_reentrant_fns.ids.contains(&LOCAL_STRTOK));
    assert_eq!(g.non_reentrant_fns.ids.len(), 3);
    assert!(g.blocking_fns.ids.contains(&SLEEP) && g.blocking_fns.ids.len() == 1);
    let mut strict = LintGroup::new(vec![], vec![], vec![], false, vec![], vec![], vec![]);
    strict.check_crate(&program());
    assert!(strict.blocking_fns.ids.contains(&READ) && strict.blocking_fns.ids.len() == 2);
}

#[test]
fn foreign_blocks_add_their_functions_and_are_checked_for_layout() {
    let mut g = group();
    let ty = ParamTy {
        span: sp(20, 24),
        adt: Some(AdtFacts { def_span: sp(100, 110), repr_c: false, repr_transparent: false, repr_packed: false, repr_align: false }),
    };
    let item = Item {
        span: sp(0, 60),
        kind: ItemKind::ForeignMod {
            abi: Abi::C,
            explicit_abi: true,
            items: vec![
                ForeignItem { id: EXTERN_MALLOC, name: "malloc".to_string(), inputs: Some(vec![ty]) },
                ForeignItem { id: 40, name: "helper".to_string(), inputs: Some(vec![]) },
            ],
        },
    };
    assert_eq!(g.check_item(&item), vec![noted(FindingKind::ExternWithoutRepr, sp(20, 24), sp(100, 110))]);
    assert!(g.mem_alloc_fns.ids.contains(&EXTERN_MALLOC) && g.mem_alloc_fns.ids.contains(&MALLOC));
    assert!(!g.mem_alloc_fns.ids.contains(&40));
    assert!(!g.mem_uns_fns.ids.contains(&EXTERN_MALLOC));
    let f = Item { span: sp(0, 60), kind: ItemKind::Fn { abi: Abi::C, inputs: vec![ty] } };
    assert_eq!(g.check_item(&f).len(), 1);
    assert_eq!(g.mem_alloc_fns.ids.len(), 2);
}

#[test]
fn the_first_set_that_holds_the_callee_decides() {
    let mut g = group();
    let b = block(1, vec![], None, 0, 100);
    let c = call(func(STRTOK, &["strtok"], 2, 8), vec![], 2, 10);
    assert_eq!(check(&mut g, &c, &vec![&b]), vec![plain(FindingKind::NonReentrantFunction, sp(2, 10))]);
    let c = call(func(MEMCPY, &["memcpy"], 2, 8), vec![], 2, 10);
    assert_eq!(check(&mut g, &c, &vec![&b]), vec![plain(FindingKind::MemUnsafeFunction, sp(2, 10))]);
    // in both sets: non-reentrant comes first
    let c = call(func(BOTH, &["both"], 2, 6), vec![], 2, 8);
    assert_eq!(check(&mut g, &c, &vec![&b]), vec![plain(FindingKind::NonReentrantFunction, sp(2, 8))]);
    let c = call(func(MALLOC, &["malloc"], 2, 8), vec![local(1, "size", 9, 13)], 2, 14);
    assert_eq!(
        check(&mut g, &c, &vec![&b]),
        vec![
            noted(FindingKind::UnverifiedAllocSize, sp(2, 14), sp(9, 13)),
            plain(FindingKind::UncheckedAllocResult, sp(2, 14)),
        ]
    );
    let c = call(func(READ, &["read"], 2, 6), vec![], 2, 8);
    assert_eq!(check(&mut g, &c, &vec![&b]), vec![]);
    let c = call(local(MEMCPY, "memcpy", 2, 8), vec![], 2, 10);
    assert_eq!(check(&mut g, &c, &vec![&b]), vec![]);
}

#[test]
fn native_strings_are_reported_beside_the_classification() {
    let mut g = group();
    let mut s = local(1, "s", 9, 10);
    s.ty.native_string = true;
    let c = call(func(STRTOK, &["strtok"], 2, 8), vec![s], 2, 11);
    assert_eq!(
        check(&mut g, &c, &vec![]),
        vec![
            plain(FindingKind::NonReentrantFunction, sp(2, 11)),
            noted(FindingKind::PassingStringToCFunction, sp(2, 11), sp(9, 10)),
        ]
    );
}

#[test]
fn loader_is_checked_in_the_blocks_around_the_declaration_of_the_name() {
    let mut g = group();
    // { let name = read(); { dlopen(name); } }
    let inner = block(2, vec![semi(call(func(DLOPEN, &["dlopen"], 30, 36), vec![local(1, "name", 37, 41)], 30, 42))], None, 28, 46);
    let outer = block(
        1,
        vec![let_stmt(1, "name", None, Some(call(func(READ, &["read"], 13, 17), vec![], 13, 19)), 2, 20)],
        Some(block_expr(inner)),
        0,
        50,
    );
    let inner = inner_block(outer.expr.as_ref().unwrap());
    let c = stmt_expr(&inner.stmts[0]);
    assert_eq!(check(&mut g, c, &vec![inner, &outer]), vec![noted(FindingKind::UntrustedLibLoading, sp(30, 42), sp(13, 19))]);
    // the block that declares the name is not among those given
    assert_eq!(check(&mut g, c, &vec![inner]), vec![]);
    assert!(block_declares(&outer, 1));
    assert!(!block_declares(&outer, 2));
    assert!(!block_declares(inner, 1));
    assert_eq!(blocks_around_binding(&vec![inner, &outer], 1).len(), 1);
    assert_eq!(blocks_around_binding(&vec![&outer, inner], 1).len(), 2);
    assert_eq!(blocks_around_binding(&vec![inner, &outer], 5).len(), 0);
}

#[test]
fn other_expressions_go_to_the_three_remaining_checks() {
    let mut g = group();
    //                         0         1         2         3         4
    //                         0123456789012345678901234567890123456789012345678
    let src = SourceText::new("async { sleep() }; p = null(); *p; quote!(unsafe{})");
    let exp = Expansions { table: vec![ExpnData { call_site: sp(35, 51), kind: ExpnKind::BangMacro("quote".to_string()), external: true }] };
    let owners = vec![Owner { id: 77, is_fn: true, attrs: names(&["proc_macro"]) }];
    let sleeping = closure(call(func(SLEEP, &["sleep"], 8, 13), vec![], 8, 15), 0, 17);
    let b = block(
        1,
        vec![
            semi(assign(local(1, "p", 19, 20), call(func(NULL, &["null"], 23, 27), vec![], 23, 29), 19, 29)),
            semi(deref(local(1, "p", 32, 33), 31, 33)),
        ],
        None,
        0,
        60,
    );
    assert_eq!(
        run(&mut g, &sleeping, &vec![&b], &src, &exp, &owners),
        vec![noted(FindingKind::BlockingOpInAsync, sp(8, 15), sp(0, 5))]
    );
    assert_eq!(
        run(&mut g, stmt_expr(&b.stmts[0]), &vec![&b], &src, &exp, &owners),
        vec![noted(FindingKind::NullPtrDereference, sp(31, 33), sp(19, 29))]
    );
    assert_eq!(run(&mut g, stmt_expr(&b.stmts[0]), &vec![], &src, &exp, &owners), vec![]);
    let mut expanded = local(1, "x", 40, 41);
    expanded.span = Span::in_expansion(40, 41, 1);
    let hidden = Finding { kind: FindingKind::UnsafeBlockInProcMacro, span: sp(35, 51), note: None, subject: Some(77) };
    assert_eq!(run(&mut g, &expanded, &vec![&b], &src, &exp, &owners), vec![hidden]);
    assert_eq!(run(&mut g, &expanded, &vec![&b], &src, &exp, &owners), vec![]);
    // a call is not looked at as a node of a macro
    let mut g = group();
    let mut expanded_call = call(func(99, &["f"], 40, 41), vec![], 40, 43);
    expanded_call.span = Span::in_expansion(40, 43, 1);
    assert_eq!(run(&mut g, &expanded_call, &vec![&b], &src, &exp, &owners), vec![]);
    assert!(g.macro_call_sites.is_empty());
    assert_eq!(run(&mut g, &expanded, &vec![&b], &src, &exp, &owners), vec![hidden]);
}

#[test]
fn functions_and_lets() {
    let g = group();
    let src = SourceText::new("async fn f() { sleep() }");
    let body = block_expr(block(1, vec![], Some(call(func(SLEEP, &["sleep"], 15, 20), vec![], 15, 22)), 13, 24));
    assert_eq!(
        g.check_fn(FnKind::ItemFn { is_async: true }, &body, sp(0, 24), &src),
        vec![noted(FindingKind::BlockingOpInAsync, sp(15, 22), sp(0, 12))]
    );
    assert_eq!(g.check_fn(FnKind::ItemFn { is_async: false }, &body, sp(0, 24), &src), vec![]);
    assert_eq!(g.check_fn(FnKind::Closure, &body, sp(0, 24), &src), vec![]);
    let b = block(
        1,
        vec![
            let_stmt(1, "p", None, Some(call(func(NULL, &["null"], 10, 14), vec![], 10, 16)), 2, 17),
            semi(deref(local(1, "p", 20, 21), 19, 21)),
        ],
        None,
        0,
        30,
    );
    assert_eq!(
        g.check_local(stmt_local(&b.stmts[0]), Some(&b), &known()),
        Some(noted(FindingKind::NullPtrDereference, sp(19, 21), sp(2, 17)))
    );
    assert_eq!(g.check_local(stmt_local(&b.stmts[0]), None, &known()), None);
}

#[test]
fn checking_twice_from_the_same_state_gives_the_same_findings() {
    let b = block(1, vec![], None, 0, 100);
    let c = call(func(MALLOC, &["malloc"], 2, 8), vec![local(1, "size", 9, 13)], 2, 14);
    let first = check(&mut group(), &c, &vec![&b]);
    let second = check(&mut group(), &c, &vec![&b]);
    assert_eq!(first, second);
    assert_eq!(first.len(), 2);
}
