//! Blocking calls in an asynchronous context.
//!
//! The body of a function or closure that is marked `async` is walked,
//! closures inside it included, and every call that resolves to one of
//! the blocking functions is reported.  A closure inside it that is
//! itself marked `async` is left to its own check, so that each call is
//! reported once, with the innermost mark around it as note.

use std::collections::HashSet;
use vstd::prelude::*;
use crate::finding::{Finding, FindingKind};
use crate::ids::{
    declared_under,
    insert_all_declared,
    paths_text,
    query_text,
    Program,
};
use crate::resolve::{callee_of, resolve_callee};
use crate::span::Span;
use crate::text::{chars_of, SourceText};
use crate::tree::{Expr, ExprKind};
use crate::walk::{expr_events, walk_expr, Descent, LetDescent, Node};

verus! {

broadcast use vstd::std_specs::hash::group_hash_axioms;

/// What kind of function a body belongs to, and whether it is declared
/// `async`.
#[derive(Clone, Copy, Debug, PartialEq, Eq, Structural)]
pub enum FnKind {
    ItemFn { is_async: bool },
    Method { is_async: bool },
    Closure,
}

/// The path `std::<module>::<name>`.
pub open spec fn std_path_text(module: Seq<char>, name: Seq<char>) -> Seq<Seq<char>> {
    seq!["std"@, module, name]
}

/// The functions that always count as blocking.
pub open spec fn blocking_paths() -> Seq<Seq<Seq<char>>> {
    seq![std_path_text("thread"@, "sleep"@)]
}

/// The IO functions that count as blocking unless the configuration
/// allows them.
pub open spec fn io_blocking_paths() -> Seq<Seq<Seq<char>>> {
    seq![
        std_path_text("fs"@, "try_exists"@),
        std_path_text("fs"@, "canonicalize"@),
        std_path_text("fs"@, "copy"@),
        std_path_text("fs"@, "create_dir"@),
        std_path_text("fs"@, "create_dir_all"@),
        std_path_text("fs"@, "hard_link"@),
        std_path_text("fs"@, "metadata"@),
        std_path_text("fs"@, "read"@),
        std_path_text("fs"@, "read_dir"@),
        std_path_text("fs"@, "read_link"@),
        std_path_text("fs"@, "read_to_string"@),
        std_path_text("fs"@, "remove_dir"@),
        std_path_text("fs"@, "remove_dir_all"@),
        std_path_text("fs"@, "remove_file"@),
        std_path_text("fs"@, "rename"@),
        std_path_text("fs"@, "set_permissions"@),
        std_path_text("fs"@, "symlink_metadata"@),
        std_path_text("fs"@, "write"@),
        std_path_text("io"@, "copy"@),
        std_path_text("io"@, "empty"@),
        std_path_text("io"@, "read_to_string"@),
        std_path_text("io"@, "repeat"@),
        std_path_text("io"@, "sink"@),
        std_path_text("io"@, "stderr"@),
        std_path_text("io"@, "stdin"@),
        std_path_text("io"@, "stdout"@),
    ]
}

/// The identities that the blocking paths lead to in the program.
pub open spec fn blocking_ids(program: &Program, allow_io_blocking_ops: bool) -> Set<u64> {
    let always = declared_under(program.fns@, blocking_paths(), blocking_paths().len() as int);
    if allow_io_blocking_ops {
        always
    } else {
        always.union(
            declared_under(program.fns@, io_blocking_paths(), io_blocking_paths().len() as int),
        )
    }
}

/// The path `std::<module>::<name>`.
fn std_path(module: &str, name: &str) -> (path: Vec<Vec<char>>)
    ensures
        query_text(path@) == std_path_text(module@, name@),
{
    let mut path: Vec<Vec<char>> = Vec::new();
    path.push(chars_of("std"));
    path.push(chars_of(module));
    path.push(chars_of(name));
    assert(query_text(path@) =~= std_path_text(module@, name@));
    path
}

/// The functions that always count as blocking.
pub fn functions_blacklist() -> (v: Vec<Vec<Vec<char>>>)
    ensures
        paths_text(v@) == blocking_paths(),
{
    let mut v: Vec<Vec<Vec<char>>> = Vec::new();
    v.push(std_path("thread", "sleep"));
    assert(paths_text(v@) =~= blocking_paths());
    v
}

/// The IO functions that count as blocking unless the configuration
/// allows them.
pub fn io_functions_blacklist() -> (v: Vec<Vec<Vec<char>>>)
    ensures
        paths_text(v@) == io_blocking_paths(),
{
    let mut v: Vec<Vec<Vec<char>>> = Vec::new();
    v.push(std_path("fs", "try_exists"));
    v.push(std_path("fs", "canonicalize"));
    v.push(std_path("fs", "copy"));
    v.push(std_path("fs", "create_dir"));
    v.push(std_path("fs", "create_dir_all"));
    v.push(std_path("fs", "hard_link"));
    v.push(std_path("fs", "metadata"));
    v.push(std_path("fs", "read"));
    v.push(std_path("fs", "read_dir"));
    v.push(std_path("fs", "read_link"));
    v.push(std_path("fs", "read_to_string"));
    v.push(std_path("fs", "remove_dir"));
    v.push(std_path("fs", "remove_dir_all"));
    v.push(std_path("fs", "remove_file"));
    v.push(std_path("fs", "rename"));
    v.push(std_path("fs", "set_permissions"));
    v.push(std_path("fs", "symlink_metadata"));
    v.push(std_path("fs", "write"));
    v.push(std_path("io", "copy"));
    v.push(std_path("io", "empty"));
    v.push(std_path("io", "read_to_string"));
    v.push(std_path("io", "repeat"));
    v.push(std_path("io", "sink"));
    v.push(std_path("io", "stderr"));
    v.push(std_path("io", "stdin"));
    v.push(std_path("io", "stdout"));
    assert(paths_text(v@) =~= io_blocking_paths());
    v
}

/// Adds the identities of the blocking functions: `std::thread::sleep`
/// always, the IO functions of `std::fs` and `std::io` unless
/// `allow_io_blocking_ops` is set.
pub fn init_blacklist_ids(
    program: &Program,
    allow_io_blocking_ops: bool,
    blacklist_ids: &mut HashSet<u64>,
)
    ensures
        final(blacklist_ids)@ == old(blacklist_ids)@.union(
            blocking_ids(program, allow_io_blocking_ops),
        ),
{
    let always = functions_blacklist();
    insert_all_declared(program, &always, blacklist_ids);
    if !allow_io_blocking_ops {
        let io = io_functions_blacklist();
        insert_all_declared(program, &io, blacklist_ids);
    }
    assert(blacklist_ids@ =~= old(blacklist_ids)@.union(
        blocking_ids(program, allow_io_blocking_ops),
    ));
}

/// Whether the node is a call of one of the blocking functions.
pub open spec fn is_blocking_call(node: Node, ids: Set<u64>) -> bool {
    match node {
        Node::Expr(ex) => match callee_of(ex) {
            Some(f) => ids.contains(f),
            None => false,
        },
        _ => false,
    }
}

/// The walk of an asynchronous body: everything, with the end of each
/// closure as a node.
pub open spec fn async_descent() -> Descent {
    Descent { closure_ends: true, ..Descent::spec_everywhere() }
}

/// Whether `ex` is a closure whose text begins with `async`.
pub open spec fn is_async_closure(ex: &Expr, src: &SourceText) -> bool {
    ex.kind is Closure && src.spec_async_span(ex.span) is Some
}

/// What the scan of an asynchronous body holds between two nodes: the
/// findings so far, and how many closures deep the walk is inside a
/// closure that is itself marked `async` (`0` outside of any).
pub struct AsyncScan {
    pub findings: Seq<Finding>,
    pub skipping: nat,
}

/// One step of the scan.  Outside marked closures a blocking call is
/// reported and a marked closure starts to be passed over; inside one,
/// closures are only counted, up to the end of the marked one.
pub open spec fn blocking_step(
    st: AsyncScan,
    node: Node,
    ids: Set<u64>,
    note: Span,
    src: &SourceText,
) -> AsyncScan {
    match node {
        Node::Expr(ex) => if st.skipping > 0 {
            if ex.kind is Closure {
                AsyncScan { skipping: st.skipping + 1, ..st }
            } else {
                st
            }
        } else if is_async_closure(ex, src) {
            AsyncScan { skipping: 1, ..st }
        } else if is_blocking_call(node, ids) {
            AsyncScan {
                findings: st.findings.push(
                    Finding::noted(FindingKind::BlockingOpInAsync, ex.span, note),
                ),
                ..st
            }
        } else {
            st
        },
        Node::ClosureEnd(_) => if st.skipping > 0 {
            AsyncScan { skipping: (st.skipping - 1) as nat, ..st }
        } else {
            st
        },
        _ => st,
    }
}

/// The scan behind the first `n` nodes.
pub open spec fn blocking_scan(
    nodes: Seq<Node>,
    n: int,
    ids: Set<u64>,
    note: Span,
    src: &SourceText,
) -> AsyncScan
    decreases n,
{
    if n <= 0 || n > nodes.len() {
        AsyncScan { findings: Seq::empty(), skipping: 0 }
    } else {
        blocking_step(blocking_scan(nodes, n - 1, ids, note, src), nodes[n - 1], ids, note, src)
    }
}

/// The findings for the blocking calls below `body`, in walk order:
/// those outside closures, and those in closures that are not themselves
/// marked `async`.  Each notes where the context was found to be
/// asynchronous.
pub open spec fn blocking_calls(body: &Expr, ids: Set<u64>, note: Span, src: &SourceText) -> Seq<
    Finding,
> {
    let nodes = expr_events(body, async_descent());
    blocking_scan(nodes, nodes.len() as int, ids, note, src).findings
}

/// Whether a function of this kind is declared `async`.
pub open spec fn is_async_kind(kind: FnKind) -> bool {
    match kind {
        FnKind::ItemFn { is_async } => is_async,
        FnKind::Method { is_async } => is_async,
        FnKind::Closure => false,
    }
}

/// What a function leads to: nothing unless it is declared `async`, else
/// the blocking calls in its body, with the head of the declaration as
/// note.
pub open spec fn fn_findings(kind: FnKind, body: &Expr, span: Span, ids: Set<u64>, src: &SourceText) -> Seq<Finding> {
    if is_async_kind(kind) {
        blocking_calls(body, ids, src.spec_until_char(span, '{'), src)
    } else {
        Seq::empty()
    }
}

/// What an expression leads to: nothing unless it is a closure whose text
/// begins with `async`, else the blocking calls in its body, with the
/// word `async` as note.
pub open spec fn closure_findings(expr: &Expr, ids: Set<u64>, src: &SourceText) -> Seq<Finding> {
    match &expr.kind {
        ExprKind::Closure(body) => match src.spec_async_span(expr.span) {
            Some(at) => blocking_calls(body, ids, at, src),
            None => Seq::empty(),
        },
        _ => Seq::empty(),
    }
}

/// Whether a function of this kind is declared `async`.
pub fn is_async_fn(kind: FnKind) -> (b: bool)
    ensures
        b == is_async_kind(kind),
{
    match kind {
        FnKind::ItemFn { is_async } => is_async,
        FnKind::Method { is_async } => is_async,
        FnKind::Closure => false,
    }
}

/// The range of the word `async` at the start of `span`, if it starts
/// with it.
pub fn get_async_span(src: &SourceText, span: Span) -> (r: Option<Span>)
    ensures
        r == src.spec_async_span(span),
{
    src.async_span(span)
}

/// Reports every call below `node` that resolves to one of the blocking
/// functions, closures included but for those that are themselves marked
/// `async`.
pub fn lint_blacklisted_call(
    node: &Expr,
    blacklist_ids: &HashSet<u64>,
    note_span: Span,
    src: &SourceText,
) -> (out: Vec<Finding>)
    ensures
        out@ == blocking_calls(node, blacklist_ids@, note_span, src),
{
    let d = Descent {
        closures: true,
        loops: true,
        returns: true,
        breaks: true,
        literal_assignments: true,
        lets: LetDescent::All,
        block_ends: false,
        closure_ends: true,
        expanded: true,
    };
    let mut nodes: Vec<Node> = Vec::new();
    walk_expr(node, &d, &mut nodes);
    assert(nodes@ =~= expr_events(node, async_descent()));
    let mut out: Vec<Finding> = Vec::new();
    let mut skipping: usize = 0;
    let mut i: usize = 0;
    while i < nodes.len()
        invariant
            i <= nodes.len(),
            skipping <= i,
            blocking_scan(nodes@, i as int, blacklist_ids@, note_span, src) == (AsyncScan {
                findings: out@,
                skipping: skipping as nat,
            }),
        decreases nodes.len() - i,
    {
        match nodes[i] {
            Node::Expr(ex) => {
                let is_closure = matches!(ex.kind, ExprKind::Closure(_));
                if skipping > 0 {
                    if is_closure {
                        skipping += 1;
                    }
                } else if is_closure && get_async_span(src, ex.span).is_some() {
                    skipping = 1;
                } else {
                    match resolve_callee(ex) {
                        Some(f) => {
                            if blacklist_ids.contains(&f) {
                                out.push(
                                    Finding::with_note(
                                        FindingKind::BlockingOpInAsync,
                                        ex.span,
                                        note_span,
                                    ),
                                );
                            }
                        },
                        None => {},
                    }
                }
            },
            Node::ClosureEnd(_) => {
                if skipping > 0 {
                    skipping -= 1;
                }
            },
            _ => {},
        }
        i += 1;
    }
    out
}

/// Checks a function: `body` is its body, `span` its range.
pub fn check_fn(
    kind: FnKind,
    body: &Expr,
    span: Span,
    blacklist_ids: &HashSet<u64>,
    src: &SourceText,
) -> (out: Vec<Finding>)
    ensures
        out@ == fn_findings(kind, body, span, blacklist_ids@, src),
{
    if !is_async_fn(kind) {
        return Vec::new();
    }
    let decl_span = src.span_until_char(span, '{');
    lint_blacklisted_call(body, blacklist_ids, decl_span, src)
}

/// Checks an expression: a closure whose text begins with `async`.
pub fn check_expr(expr: &Expr, blacklist_ids: &HashSet<u64>, src: &SourceText) -> (out: Vec<Finding>)
    ensures
        out@ == closure_findings(expr, blacklist_ids@, src),
{
    match &expr.kind {
        ExprKind::Closure(body) => match get_async_span(src, expr.span) {
            Some(at) => lint_blacklisted_call(body, blacklist_ids, at, src),
            None => Vec::new(),
        },
        _ => Vec::new(),
    }
}

} // verus!

verus! {

/// A call is classified by the function it resolves to, not by the name
/// it is written with: a call that resolves to a function outside the set
/// is no blocking call, whatever the segments of its path are.
pub proof fn lemma_classified_by_identity(call: &Expr, ids: Set<u64>)
    requires
        callee_of(call) matches Some(f) ==> !ids.contains(f),
    ensures
        !is_blocking_call(Node::Expr(call), ids),
{
}

/// Outside an asynchronous context nothing is reported.
pub proof fn lemma_sync_fn_is_not_checked(
    kind: FnKind,
    body: &Expr,
    span: Span,
    ids: Set<u64>,
    src: &SourceText,
)
    requires
        !is_async_kind(kind),
    ensures
        fn_findings(kind, body, span, ids, src) == Seq::<Finding>::empty(),
{
}

} // verus!

verus! {

/// Inside a closure that is itself marked `async` nothing is reported:
/// its calls are for the check of that closure.
pub proof fn lemma_marked_closure_is_left_out(
    st: AsyncScan,
    node: Node,
    ids: Set<u64>,
    note: Span,
    src: &SourceText,
)
    requires
        st.skipping > 0 || (node matches Node::Expr(ex) && is_async_closure(ex, src)),
    ensures
        blocking_step(st, node, ids, note, src).findings == st.findings,
{
}

/// A scan adds findings and takes none away; every finding it adds is a
/// blocking call noted at the mark of the scope.
pub proof fn lemma_scan_reports_blocking_calls(
    nodes: Seq<Node>,
    n: int,
    ids: Set<u64>,
    note: Span,
    src: &SourceText,
)
    ensures
        forall|k: int|
            0 <= k < blocking_scan(nodes, n, ids, note, src).findings.len() ==> {
                let f = #[trigger] blocking_scan(nodes, n, ids, note, src).findings[k];
                f.kind == FindingKind::BlockingOpInAsync && f.note == Some(note)
            },
    decreases n,
{
    if 0 < n <= nodes.len() {
        lemma_scan_reports_blocking_calls(nodes, n - 1, ids, note, src);
    }
}

} // verus!
