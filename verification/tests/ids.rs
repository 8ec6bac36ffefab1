#![allow(dead_code)]
#![allow(unused_imports)]

use guideline_lints::span::Span;
use guideline_lints::tree::{
    Arm, BinOp, Block, BorrowKind, Constant, DefKind, Expr, ExprKind, Lit, LitKind, Local,
    LoopKind, Pat, Path, Res, Stmt, StmtKind, Ty, TyFacts, TyKind, UnOp,
};

fn sp(lo: u32, hi: u32) -> Span {
    Span::new(lo, hi)
}

fn ex(kind: ExprKind, lo: u32, hi: u32) -> Expr {
    Expr { span: sp(lo, hi), kind, ty: TyFacts { native_string: false, simple: false }, value: None }
}

fn names(parts: &[&str]) -> Vec<String> {
    parts.iter().map(|s| s.to_string()).collect()
}

fn local(id: u64, name: &str, lo: u32, hi: u32) -> Expr {
    ex(ExprKind::Path(Path { res: Res::Local(id), qualified: false, segments: names(&[name]) }), lo, hi)
}

fn func(id: u64, path: &[&str], lo: u32, hi: u32) -> Expr {
    ex(
        ExprKind::Path(Path { res: Res::Def(DefKind::Fn, id), qualified: false, segments: names(path) }),
        lo,
        hi,
    )
}

fn call(callee: Expr, args: Vec<Expr>, lo: u32, hi: u32) -> Expr {
    ex(ExprKind::Call(Box::new(callee), args), lo, hi)
}

fn method(name: &str, def: Option<u64>, recv: Expr, args: Vec<Expr>, lo: u32, hi: u32) -> Expr {
    ex(ExprKind::MethodCall(name.to_string(), def, Box::new(recv), args), lo, hi)
}

fn deref(e: Expr, lo: u32, hi: u32) -> Expr {
    ex(ExprKind::Unary(UnOp::Deref, Box::new(e)), lo, hi)
}

fn not(e: Expr, lo: u32, hi: u32) -> Expr {
    ex(ExprKind::Unary(UnOp::Not, Box::new(e)), lo, hi)
}

fn addr_of(e: Expr, lo: u32, hi: u32) -> Expr {
    ex(ExprKind::AddrOf(BorrowKind::Ref, Box::new(e)), lo, hi)
}

fn cast(e: Expr, kind: TyKind, lo: u32, hi: u32) -> Expr {
    ex(ExprKind::Cast(Box::new(e), Ty { kind, span: sp(hi, hi) }), lo, hi)
}

fn lit_int(n: u128, lo: u32, hi: u32) -> Expr {
    ex(ExprKind::Lit(Lit { kind: LitKind::Int(n), suffixed: false, span: sp(lo, hi) }), lo, hi)
}

fn assign(place: Expr, value: Expr, lo: u32, hi: u32) -> Expr {
    ex(ExprKind::Assign(Box::new(place), Box::new(value)), lo, hi)
}

fn binary(op: BinOp, l: Expr, r: Expr, lo: u32, hi: u32) -> Expr {
    ex(ExprKind::Binary(op, Box::new(l), Box::new(r)), lo, hi)
}

fn field(e: Expr, name: &str, lo: u32, hi: u32) -> Expr {
    ex(ExprKind::Field(Box::new(e), name.to_string()), lo, hi)
}

fn block_expr(b: Block) -> Expr {
    let span = b.span;
    Expr {
        span,
        kind: ExprKind::Block(Box::new(b)),
        ty: TyFacts { native_string: false, simple: false },
        value: None,
    }
}

fn if_then(cond: Expr, then: Block, lo: u32, hi: u32) -> Expr {
    ex(ExprKind::If(Box::new(cond), Box::new(block_expr(then)), None), lo, hi)
}

fn closure(body: Expr, lo: u32, hi: u32) -> Expr {
    ex(ExprKind::Closure(Box::new(body)), lo, hi)
}

fn ret(e: Option<Expr>, lo: u32, hi: u32) -> Expr {
    ex(ExprKind::Ret(e.map(Box::new)), lo, hi)
}

fn brk(label: Option<&str>, lo: u32, hi: u32) -> Expr {
    ex(ExprKind::Break(label.map(|l| l.to_string()), None), lo, hi)
}

fn looping(kind: LoopKind, label: Option<&str>, body: Block, lo: u32, hi: u32) -> Expr {
    ex(ExprKind::Loop(kind, label.map(|l| l.to_string()), Vec::new(), Box::new(body)), lo, hi)
}

fn semi(e: Expr) -> Stmt {
    let span = sp(e.span.lo, e.span.hi + 1);
    Stmt { span, kind: StmtKind::Semi(e) }
}

fn pat(id: u64, name: &str, lo: u32, hi: u32) -> Pat {
    Pat { id, span: sp(lo, hi), names: names(&[name]) }
}

fn let_local(id: u64, name: &str, ty: Option<Ty>, init: Option<Expr>, lo: u32, hi: u32) -> Local {
    Local { span: sp(lo, hi), pat: pat(id, name, lo + 4, lo + 4 + name.len() as u32), ty, init, els: None }
}

fn let_stmt(id: u64, name: &str, ty: Option<Ty>, init: Option<Expr>, lo: u32, hi: u32) -> Stmt {
    Stmt { span: sp(lo, hi), kind: StmtKind::Local(let_local(id, name, ty, init, lo, hi)) }
}

fn block(id: u64, stmts: Vec<Stmt>, tail: Option<Expr>, lo: u32, hi: u32) -> Block {
    Block { id, span: sp(lo, hi), stmts, expr: tail }
}

fn stmt_expr(s: &Stmt) -> &Expr {
    match &s.kind {
        StmtKind::Semi(e) => e,
        StmtKind::Expr(e) => e,
        _ => panic!("the statement holds no expression"),
    }
}

fn stmt_local(s: &Stmt) -> &Local {
    match &s.kind {
        StmtKind::Local(l) => l,
        _ => panic!("the statement is no let"),
    }
}

fn inner_block(e: &Expr) -> &Block {
    match &e.kind {
        ExprKind::Block(b) => b,
        ExprKind::If(_, then, _) => inner_block(then),
        ExprKind::Loop(_, _, _, b) => b,
        _ => panic!("the expression holds no block"),
    }
}

use guideline_lints::ids::{
    add_configured_fn_ids, add_extern_fn_ids, classify, find, holds_name, insert_all_declared,
    insert_declared, insert_local_named, insert_named, path_is, path_of_name, split, FnDecl,
    FnPathsAndIds, Program,
};
use guideline_lints::item::ForeignItem;
use guideline_lints::text::chars_of;
use std::collections::HashSet;

fn decl(id: u64, path: &[&str]) -> FnDecl {
    FnDecl { id, path: names(path), local: id == 2 || id == 3 || id == 10 || id == 12, foreign: id % 2 == 0, returns_raw_ptr: id % 3 == 0 }
}

fn program() -> Program {
    Program {
        fns: vec![
            decl(1, &["libc", "malloc"]),
            decl(2, &["malloc"]),
            decl(3, &["my", "alloc", "malloc"]),
            decl(4, &["libc", "free"]),
            decl(5, &["std", "fs", "read"]),
            decl(6, &["other", "fs", "read"]),
            decl(7, &["std", "fs", "read"]),
            decl(8, &["libc", "malloc", "inner"]),
            decl(9, &["libc"]),
            decl(10, &["util", "free_all"]),
            decl(11, &["dep", "malloc"]),
            decl(12, &["read"]),
        ],
    }
}

fn path(parts: &[&str]) -> Vec<Vec<char>> {
    parts.iter().map(|s| s.chars().collect()).collect()
}

fn text(p: Vec<Vec<char>>) -> Vec<String> {
    p.iter().map(|s| s.iter().collect()).collect()
}

fn sorted(set: &HashSet<u64>) -> Vec<u64> {
    let mut v: Vec<u64> = set.iter().copied().collect();
    v.sort();
    v
}

#[test]
fn name_with_separator_is_looked_up_as_written() {
    assert_eq!(text(path_of_name("std::fs::read")), vec!["std", "fs", "read"]);
    assert_eq!(text(path_of_name("a::b")), vec!["a", "b"]);
    assert_eq!(text(path_of_name("::a")), vec!["", "a"]);
    assert_eq!(text(path_of_name("a::")), vec!["a", ""]);
    assert_eq!(text(path_of_name("a::::b")), vec!["a", "", "b"]);
    assert_eq!(text(path_of_name("a:::b")), vec!["a", ":b"]);
    assert_eq!(text(path_of_name("::")), vec!["", ""]);
}

#[test]
fn bare_name_is_looked_up_in_the_system_namespace() {
    assert_eq!(text(path_of_name("malloc")), vec!["libc", "malloc"]);
    assert_eq!(text(path_of_name("a:b")), vec!["libc", "a:b"]);
    assert_eq!(text(path_of_name("")), vec!["libc", ""]);
}

#[test]
fn splitting_and_finding() {
    let s = |t: &str| chars_of(t);
    assert_eq!(text(split(&s("a, b, c"), &s(", "))), vec!["a", "b", "c"]);
    assert_eq!(text(split(&s("abc"), &s(", "))), vec!["abc"]);
    assert_eq!(text(split(&s(""), &s("::"))), vec![""]);
    assert_eq!(text(split(&s("aaa"), &s("aa"))), vec!["", "a"]);
    assert_eq!(text(split(&s("abc"), &s(""))), Vec::<String>::new());
    assert_eq!(find(&s("abcabc"), &s("bc"), 0), Some(1));
    assert_eq!(find(&s("abcabc"), &s("bc"), 2), Some(4));
    assert_eq!(find(&s("abcabc"), &s("bc"), 5), None);
    assert_eq!(find(&s("abcabc"), &s("x"), 0), None);
    assert_eq!(find(&s("abc"), &s(""), 3), Some(3));
    assert_eq!(find(&s("abc"), &s(""), 4), None);
    assert_eq!(find(&s("ab"), &s("abc"), 0), None);
}

#[test]
fn declarations_are_matched_by_their_whole_path() {
    assert!(path_is(&names(&["libc", "malloc"]), &path(&["libc", "malloc"])));
    assert!(!path_is(&names(&["libc", "malloc"]), &path(&["libc", "mallo"])));
    assert!(!path_is(&names(&["libc", "malloc"]), &path(&["libc"])));
    assert!(!path_is(&names(&["libc"]), &path(&["libc", "malloc"])));
    assert!(path_is(&names(&[]), &path(&[])));
    let mut ids = HashSet::new();
    ids.insert(99);
    insert_declared(&program(), &path(&["std", "fs", "read"]), &mut ids);
    assert_eq!(sorted(&ids), vec![5, 7, 99]);
    insert_declared(&program(), &path(&["nothing"]), &mut ids);
    assert_eq!(sorted(&ids), vec![5, 7, 99]);
    insert_all_declared(&program(), &vec![path(&["libc", "free"]), path(&["malloc"]), path(&["libc", "free"])], &mut ids);
    assert_eq!(sorted(&ids), vec![2, 4, 5, 7, 99]);
}

#[test]
fn configured_names_are_resolved_against_the_program() {
    let mut fns = FnPathsAndIds::with_paths(names(&["malloc", "std::fs::read", "my::alloc::malloc", "free", "unknown"]));
    assert!(fns.ids.is_empty());
    add_configured_fn_ids(&program(), &mut fns);
    // malloc: libc::malloc (1) and the program's own functions of that name (2, 3)
    assert_eq!(sorted(&fns.ids), vec![1, 2, 3, 4, 5, 7]);
    assert_eq!(fns.paths, names(&["malloc", "std::fs::read", "my::alloc::malloc", "free", "unknown"]));
    // resolving again adds nothing
    add_configured_fn_ids(&program(), &mut fns);
    assert_eq!(sorted(&fns.ids), vec![1, 2, 3, 4, 5, 7]);
    assert!(classify(3, &fns.ids));
    assert!(!classify(6, &fns.ids));
    let mut none = FnPathsAndIds::with_paths(vec![]);
    add_configured_fn_ids(&program(), &mut none);
    assert!(none.ids.is_empty());
}

#[test]
fn bare_name_matches_the_system_function_and_the_local_function() {
    let mut ids = HashSet::new();
    insert_named(&program(), "malloc", &mut ids);
    assert_eq!(sorted(&ids), vec![1, 2, 3]);
    // a function of that name in a crate the program depends on is not the program's own
    assert!(!ids.contains(&11));
    // nor is a function whose path merely holds the name
    assert!(!ids.contains(&8));
    let mut ids = HashSet::new();
    insert_named(&program(), "free", &mut ids);
    assert_eq!(sorted(&ids), vec![4]);
    let mut ids = HashSet::new();
    insert_named(&program(), "free_all", &mut ids);
    assert_eq!(sorted(&ids), vec![10]);
    let mut ids = HashSet::new();
    insert_named(&program(), "nothing", &mut ids);
    assert!(ids.is_empty());
}

#[test]
fn name_with_a_path_is_exact() {
    // the program's own `read` (12) is not what `std::fs::read` names
    let mut ids = HashSet::new();
    insert_named(&program(), "std::fs::read", &mut ids);
    assert_eq!(sorted(&ids), vec![5, 7]);
    let mut ids = HashSet::new();
    insert_named(&program(), "alloc::malloc", &mut ids);
    assert!(ids.is_empty());
    let mut ids = HashSet::new();
    ids.insert(99);
    insert_local_named(&program(), &"read".chars().collect(), &mut ids);
    assert_eq!(sorted(&ids), vec![12, 99]);
    let mut ids = HashSet::new();
    insert_local_named(&program(), &"std::fs::read".chars().collect(), &mut ids);
    assert!(ids.is_empty());
}

#[test]
fn foreign_functions_are_added_by_their_declared_name() {
    let items = vec![
        ForeignItem { id: 20, name: "malloc".to_string(), inputs: Some(vec![]) },
        ForeignItem { id: 21, name: "my_malloc".to_string(), inputs: Some(vec![]) },
        ForeignItem { id: 22, name: "free".to_string(), inputs: Some(vec![]) },
        ForeignItem { id: 23, name: "read".to_string(), inputs: Some(vec![]) },
        ForeignItem { id: 24, name: "malloc".to_string(), inputs: None },
    ];
    let mut fns = FnPathsAndIds::with_paths(names(&["malloc", "std::fs::read", "free"]));
    fns.ids.insert(1);
    add_extern_fn_ids(&items, &mut fns);
    assert_eq!(sorted(&fns.ids), vec![1, 20, 22, 24]);
    assert!(holds_name(&fns.paths, "free"));
    assert!(!holds_name(&fns.paths, "fre"));
    assert!(!holds_name(&fns.paths, "read"));
    assert!(!holds_name(&vec![], "free"));
}

#[test]
fn facts_of_declarations() {
    let p = program();
    assert!(p.is_foreign_item(2));
    assert!(!p.is_foreign_item(1));
    assert!(!p.is_foreign_item(100));
    assert!(p.fn_returns_raw_ptr(3));
    assert!(!p.fn_returns_raw_ptr(4));
    assert!(!p.fn_returns_raw_ptr(300));
}
