//! Loops without a way out.
//!
//! Two checks read the tree before names are resolved.  The first walks
//! the body of a `loop` for a `break` or `return` that leaves it.  The
//! second follows only the statements that are certain to run: the
//! branches of conditionals and matches, nested blocks and loops.

use vstd::prelude::*;
use crate::finding::{Finding, FindingKind};
use crate::text::str_eq;
use crate::tree::{Arm, Block, Expr, ExprKind, LoopKind, Stmt, StmtKind};
use crate::walk::{block_events, walk_block, Descent, Node};

verus! {

/// The walk that stays in the loop at hand: not into loops inside it,
/// nor below a `break` or `return`.
pub open spec fn direct_descent() -> Descent {
    Descent { loops: false, returns: false, breaks: false, ..Descent::spec_everywhere() }
}

/// The walk that enters the loops inside, but goes below no `break` or
/// `return`.
pub open spec fn inner_descent() -> Descent {
    Descent { returns: false, breaks: false, ..Descent::spec_everywhere() }
}

/// Whether the node is a `break` or a `return`.
pub open spec fn is_exit(node: Node) -> bool {
    match node {
        Node::Expr(e) => e.kind is Break || e.kind is Ret,
        _ => false,
    }
}

/// Whether the node is a `return`, or a `break` with the label `label`.
pub open spec fn is_labeled_exit(node: Node, label: Seq<char>) -> bool {
    match node {
        Node::Expr(e) => match &e.kind {
            ExprKind::Ret(_) => true,
            ExprKind::Break(Some(l), _) => l@ == label,
            _ => false,
        },
        _ => false,
    }
}

/// Whether one of the first `n` nodes is a `break` or a `return`.
pub open spec fn exit_among(nodes: Seq<Node>, n: int) -> bool {
    exists|i: int| 0 <= i < n && i < nodes.len() && is_exit(#[trigger] nodes[i])
}

/// Whether one of the first `n` nodes is a `return`, or a `break` with
/// the label `label`.
pub open spec fn labeled_exit_among(nodes: Seq<Node>, n: int, label: Seq<char>) -> bool {
    exists|i: int| 0 <= i < n && i < nodes.len() && is_labeled_exit(#[trigger] nodes[i], label)
}

/// Whether the body of a loop holds a `break` or `return` outside the
/// loops inside it.
pub open spec fn has_direct_exit(body: &Block) -> bool {
    let nodes = block_events(body, direct_descent());
    exit_among(nodes, nodes.len() as int)
}

/// Whether the body of a loop labeled `label` holds, anywhere, a
/// `return` or a `break` with that label.
pub open spec fn has_labeled_exit(body: &Block, label: Seq<char>) -> bool {
    let nodes = block_events(body, inner_descent());
    labeled_exit_among(nodes, nodes.len() as int, label)
}

/// Whether the loop with body `body` can end.
pub open spec fn is_finite_loop(body: &Block, label: &Option<String>) -> bool {
    has_direct_exit(body) || (match label {
        Some(l) => has_labeled_exit(body, l@),
        None => false,
    })
}

/// What an expression leads to: a `loop` that cannot end is reported.
pub open spec fn infinite_loop_finding(expr: &Expr) -> Option<Finding> {
    match &expr.kind {
        ExprKind::Loop(LoopKind::Loop, label, _, body) => if is_finite_loop(body, label) {
            None
        } else {
            Some(Finding::plain(FindingKind::InfiniteLoop, expr.span))
        },
        _ => None,
    }
}

/// Whether the body of a loop holds a `break` or `return` outside the
/// loops inside it.
fn find_direct_exit(body: &Block) -> (b: bool)
    ensures
        b == has_direct_exit(body),
{
    let d = Descent {
        closures: true,
        loops: false,
        returns: false,
        breaks: false,
        literal_assignments: true,
        lets: crate::walk::LetDescent::All,
        block_ends: false,
            closure_ends: false,
            expanded: true,
    };
    let mut nodes: Vec<Node> = Vec::new();
    walk_block(body, &d, &mut nodes);
    assert(nodes@ =~= block_events(body, direct_descent()));
    let mut i: usize = 0;
    while i < nodes.len()
        invariant
            i <= nodes.len(),
            nodes@ == block_events(body, direct_descent()),
            !exit_among(nodes@, i as int),
        decreases nodes.len() - i,
    {
        match nodes[i] {
            Node::Expr(e) => match &e.kind {
                ExprKind::Break(_, _) => {
                    return true;
                },
                ExprKind::Ret(_) => {
                    return true;
                },
                _ => {},
            },
            _ => {},
        }
        i += 1;
    }
    false
}

/// Whether the body of a loop labeled `label` holds a `return` or a
/// `break` with that label.
fn find_labeled_exit(body: &Block, label: &str) -> (b: bool)
    ensures
        b == has_labeled_exit(body, label@),
{
    let d = Descent {
        closures: true,
        loops: true,
        returns: false,
        breaks: false,
        literal_assignments: true,
        lets: crate::walk::LetDescent::All,
        block_ends: false,
            closure_ends: false,
            expanded: true,
    };
    let mut nodes: Vec<Node> = Vec::new();
    walk_block(body, &d, &mut nodes);
    assert(nodes@ =~= block_events(body, inner_descent()));
    let mut i: usize = 0;
    while i < nodes.len()
        invariant
            i <= nodes.len(),
            nodes@ == block_events(body, inner_descent()),
            !labeled_exit_among(nodes@, i as int, label@),
        decreases nodes.len() - i,
    {
        match nodes[i] {
            Node::Expr(e) => match &e.kind {
                ExprKind::Ret(_) => {
                    return true;
                },
                ExprKind::Break(Some(l), _) => {
                    if str_eq(l.as_str(), label) {
                        return true;
                    }
                },
                _ => {},
            },
            _ => {},
        }
        i += 1;
    }
    false
}

/// Checks an expression for a `loop` that cannot end.
pub fn check_infinite_loop(expr: &Expr) -> (f: Option<Finding>)
    ensures
        f == infinite_loop_finding(expr),
{
    match &expr.kind {
        ExprKind::Loop(LoopKind::Loop, label, _, body) => {
            let finite = if find_direct_exit(body) {
                true
            } else {
                match label {
                    Some(l) => find_labeled_exit(body, l.as_str()),
                    None => false,
                }
            };
            if finite {
                None
            } else {
                Some(Finding::new(FindingKind::InfiniteLoop, expr.span))
            }
        },
        _ => None,
    }
}

/// Whether the two labels are the same label.
pub open spec fn same_label(a: &Option<String>, b: &Option<String>) -> bool {
    match (a, b) {
        (Some(x), Some(y)) => x@ == y@,
        _ => false,
    }
}

/// Whether the expression, when it runs, can leave the loop labeled
/// `label`.  `outest` tells whether the expression stands in that loop
/// itself rather than in a loop inside it: there every `break` leaves
/// it, inside only a `break` with its label.  Where `user_code_only` is
/// set, statements from an expansion do not count.
pub open spec fn exits_expr(e: &Expr, label: &Option<String>, outest: bool, user_code_only: bool) -> bool
    decreases e, 0nat,
{
    match &e.kind {
        ExprKind::Ret(_) => true,
        ExprKind::Break(lbl, _) => outest || same_label(label, lbl),
        ExprKind::If(_, then, els) => exits_expr(then, label, outest, user_code_only) || (
        match els {
            Some(x) => exits_expr(x, label, outest, user_code_only),
            None => false,
        }),
        ExprKind::Loop(_, _, _, body) => exits_block(body, label, false, user_code_only),
        ExprKind::Block(body) => exits_block(body, label, outest, user_code_only),
        ExprKind::Match(_, arms) => exits_arms(arms, arms@.len(), label, outest, user_code_only),
        _ => false,
    }
}

/// Whether the expression `x` of a statement counts, and can leave the
/// loop.
pub open spec fn exits_stmt_expr(x: &Expr, label: &Option<String>, outest: bool, user_code_only: bool) -> bool
    decreases x, 1nat,
{
    (!user_code_only || x.span.ctxt == 0) && exits_expr(x, label, outest, user_code_only)
}

/// Whether one of the first `n` statements can leave the loop.
pub open spec fn exits_stmts(
    v: &Vec<Stmt>,
    n: nat,
    label: &Option<String>,
    outest: bool,
    user_code_only: bool,
) -> bool
    decreases v, n,
{
    if n == 0 || n > v@.len() {
        false
    } else {
        exits_stmts(v, (n - 1) as nat, label, outest, user_code_only) || (match &v[n - 1].kind {
            StmtKind::Expr(x) => exits_stmt_expr(x, label, outest, user_code_only),
            StmtKind::Semi(x) => exits_stmt_expr(x, label, outest, user_code_only),
            _ => false,
        })
    }
}

/// Whether the body of one of the first `n` arms can leave the loop.
pub open spec fn exits_arms(
    v: &Vec<Arm>,
    n: nat,
    label: &Option<String>,
    outest: bool,
    user_code_only: bool,
) -> bool
    decreases v, n,
{
    if n == 0 || n > v@.len() {
        false
    } else {
        exits_arms(v, (n - 1) as nat, label, outest, user_code_only) || exits_expr(
            &v[n - 1].body,
            label,
            outest,
            user_code_only,
        )
    }
}

/// Whether a statement of the block, or its tail, can leave the loop.
pub open spec fn exits_block(b: &Block, label: &Option<String>, outest: bool, user_code_only: bool) -> bool
    decreases b, 0nat,
{
    exits_stmts(&b.stmts, b.stmts@.len(), label, outest, user_code_only) || (match &b.expr {
        Some(x) => exits_stmt_expr(x, label, outest, user_code_only),
        None => false,
    })
}

/// What an expression leads to: a `loop` none of whose statements can
/// leave it is reported.
pub open spec fn loop_without_exit_finding(expr: &Expr, user_code_only: bool) -> Option<Finding> {
    if user_code_only && expr.span.ctxt != 0 {
        None
    } else {
        match &expr.kind {
            ExprKind::Loop(LoopKind::Loop, label, _, body) => if exits_block(
                body,
                label,
                true,
                user_code_only,
            ) {
                None
            } else {
                Some(Finding::plain(FindingKind::LoopWithoutBreakOrReturn, expr.span))
            },
            _ => None,
        }
    }
}

/// Whether the two labels are the same label.
fn labels_match(a: &Option<String>, b: &Option<String>) -> (r: bool)
    ensures
        r == same_label(a, b),
{
    match (a, b) {
        (Some(x), Some(y)) => str_eq(x.as_str(), y.as_str()),
        _ => false,
    }
}

/// Whether the expression can leave the loop labeled `label`.
pub fn check_expr(e: &Expr, label: &Option<String>, outest: bool, user_code_only: bool) -> (r: bool)
    ensures
        r == exits_expr(e, label, outest, user_code_only),
    decreases e, 0nat,
{
    match &e.kind {
        ExprKind::Ret(_) => true,
        ExprKind::Break(lbl, _) => outest || labels_match(label, lbl),
        ExprKind::If(_, then, els) => {
            if check_expr(then, label, outest, user_code_only) {
                return true;
            }
            match els {
                Some(x) => check_expr(x, label, outest, user_code_only),
                None => false,
            }
        },
        ExprKind::Loop(_, _, _, body) => check_block(body, label, false, user_code_only),
        ExprKind::Block(body) => check_block(body, label, outest, user_code_only),
        ExprKind::Match(_, arms) => check_arms(arms, label, outest, user_code_only),
        _ => false,
    }
}

/// Whether the expression of a statement counts, and can leave the loop.
fn check_stmt_expr(x: &Expr, label: &Option<String>, outest: bool, user_code_only: bool) -> (r:
    bool)
    ensures
        r == exits_stmt_expr(x, label, outest, user_code_only),
    decreases x, 1nat,
{
    if user_code_only && x.span.from_expansion() {
        return false;
    }
    check_expr(x, label, outest, user_code_only)
}

/// Whether the body of one of the arms can leave the loop.
fn check_arms(v: &Vec<Arm>, label: &Option<String>, outest: bool, user_code_only: bool) -> (r: bool)
    ensures
        r == exits_arms(v, v@.len(), label, outest, user_code_only),
    decreases v, v@.len(),
{
    let mut n: usize = 0;
    while n < v.len()
        invariant
            n <= v.len(),
            !exits_arms(v, n as nat, label, outest, user_code_only),
        decreases v.len() - n,
    {
        if check_expr(&v[n].body, label, outest, user_code_only) {
            assert(exits_arms(v, (n + 1) as nat, label, outest, user_code_only));
            proof {
                lemma_exits_arms_monotone(v, (n + 1) as nat, v@.len(), label, outest, user_code_only);
            }
            return true;
        }
        n += 1;
    }
    false
}

/// Whether one of the statements can leave the loop.
fn check_stmts(v: &Vec<Stmt>, label: &Option<String>, outest: bool, user_code_only: bool) -> (r: bool)
    ensures
        r == exits_stmts(v, v@.len(), label, outest, user_code_only),
    decreases v, v@.len(),
{
    let mut n: usize = 0;
    while n < v.len()
        invariant
            n <= v.len(),
            !exits_stmts(v, n as nat, label, outest, user_code_only),
        decreases v.len() - n,
    {
        let hit = match &v[n].kind {
            StmtKind::Expr(x) => check_stmt_expr(x, label, outest, user_code_only),
            StmtKind::Semi(x) => check_stmt_expr(x, label, outest, user_code_only),
            _ => false,
        };
        if hit {
            assert(exits_stmts(v, (n + 1) as nat, label, outest, user_code_only));
            proof {
                lemma_exits_stmts_monotone(v, (n + 1) as nat, v@.len(), label, outest, user_code_only);
            }
            return true;
        }
        n += 1;
    }
    false
}

/// Whether a statement of the block, or its tail, can leave the loop.
pub fn check_block(b: &Block, label: &Option<String>, outest: bool, user_code_only: bool) -> (r:
    bool)
    ensures
        r == exits_block(b, label, outest, user_code_only),
    decreases b, 0nat,
{
    if check_stmts(&b.stmts, label, outest, user_code_only) {
        return true;
    }
    match &b.expr {
        Some(x) => check_stmt_expr(x, label, outest, user_code_only),
        None => false,
    }
}

/// A statement that can leave the loop among the first `n` is also among
/// the first `m`, for `n <= m`.
proof fn lemma_exits_stmts_monotone(
    v: &Vec<Stmt>,
    n: nat,
    m: nat,
    label: &Option<String>,
    outest: bool,
    user_code_only: bool,
)
    requires
        n <= m <= v@.len(),
        exits_stmts(v, n, label, outest, user_code_only),
    ensures
        exits_stmts(v, m, label, outest, user_code_only),
    decreases m,
{
    if n < m {
        lemma_exits_stmts_monotone(v, n, (m - 1) as nat, label, outest, user_code_only);
    }
}

/// The same for the arms of a match.
proof fn lemma_exits_arms_monotone(
    v: &Vec<Arm>,
    n: nat,
    m: nat,
    label: &Option<String>,
    outest: bool,
    user_code_only: bool,
)
    requires
        n <= m <= v@.len(),
        exits_arms(v, n, label, outest, user_code_only),
    ensures
        exits_arms(v, m, label, outest, user_code_only),
    decreases m,
{
    if n < m {
        lemma_exits_arms_monotone(v, n, (m - 1) as nat, label, outest, user_code_only);
    }
}

/// Checks an expression for a `loop` that none of its statements can
/// leave.
pub fn check_loop_without_exit(expr: &Expr, user_code_only: bool) -> (f: Option<Finding>)
    ensures
        f == loop_without_exit_finding(expr, user_code_only),
{
    if user_code_only && expr.span.from_expansion() {
        return None;
    }
    match &expr.kind {
        ExprKind::Loop(LoopKind::Loop, label, _, body) => {
            if check_block(body, label, true, user_code_only) {
                None
            } else {
                Some(Finding::new(FindingKind::LoopWithoutBreakOrReturn, expr.span))
            }
        },
        _ => None,
    }
}

} // verus!
