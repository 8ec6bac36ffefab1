//! What holds of every walk.
//!
//! A walk is complete: it starts at its root, and the walk of every part
//! of a node that is visited and entered is a run of consecutive nodes of
//! the walk of that node.  Since being such a run is transitive, every node below the
//! root is visited, at any depth, unless the [`Descent`] leaves it out.

use vstd::prelude::*;
use crate::tree::{Arm, Block, Expr, ExprKind, Stmt, StmtKind};
use crate::walk::{
    arm_events,
    arms_events,
    block_events,
    expr_events,
    exprs_events,
    stmt_events,
    stmts_events,
    Descent,
    Node,
};

verus! {

/// Whether `inner` is a run of consecutive nodes of `outer`.
pub open spec fn is_part_of(inner: Seq<Node>, outer: Seq<Node>) -> bool {
    exists|at: int|
        0 <= at && at + inner.len() <= outer.len() && #[trigger] outer.subrange(
            at,
            at + inner.len(),
        ) == inner
}

/// What stands between two runs is a part of the whole.
pub proof fn lemma_middle_is_part(before: Seq<Node>, inner: Seq<Node>, after: Seq<Node>)
    ensures
        is_part_of(inner, before + inner + after),
{
    let outer = before + inner + after;
    let at = before.len() as int;
    assert(outer.subrange(at, at + inner.len()) =~= inner);
}

/// A part of a part is a part.
pub proof fn lemma_part_of_part(a: Seq<Node>, b: Seq<Node>, c: Seq<Node>)
    requires
        is_part_of(a, b),
        is_part_of(b, c),
    ensures
        is_part_of(a, c),
{
    let i = choose|at: int|
        0 <= at && at + a.len() <= b.len() && #[trigger] b.subrange(at, at + a.len()) == a;
    let j = choose|at: int|
        0 <= at && at + b.len() <= c.len() && #[trigger] c.subrange(at, at + b.len()) == b;
    assert(c.subrange(i + j, i + j + a.len()) =~= c.subrange(j, j + b.len()).subrange(
        i,
        i + a.len(),
    ));
}

/// A walk starts at its root.
pub proof fn lemma_walk_starts_at_root(e: &Expr, d: Descent)
    requires
        d.visits(e.span),
    ensures
        expr_events(e, d).len() >= 1,
        expr_events(e, d)[0] == Node::Expr(e),
{
}

/// The walk of a block starts at the block.
pub proof fn lemma_block_walk_starts_at_block(b: &Block, d: Descent)
    ensures
        block_events(b, d).len() >= 1,
        block_events(b, d)[0] == Node::Block(b),
{
}

/// The walk of a list of expressions holds the walk of each of them.
pub proof fn lemma_exprs_walk_holds_each(v: &Vec<Expr>, n: nat, i: int, d: Descent)
    requires
        0 <= i < n <= v@.len(),
    ensures
        is_part_of(expr_events(&v[i], d), exprs_events(v, n, d)),
    decreases n,
{
    let before = exprs_events(v, (n - 1) as nat, d);
    let last = expr_events(&v[n - 1], d);
    if i == n - 1 {
        lemma_middle_is_part(before, last, Seq::empty());
        assert(before + last + Seq::<Node>::empty() =~= exprs_events(v, n, d));
    } else {
        lemma_exprs_walk_holds_each(v, (n - 1) as nat, i, d);
        lemma_middle_is_part(Seq::empty(), before, last);
        assert(Seq::<Node>::empty() + before + last =~= exprs_events(v, n, d));
        lemma_part_of_part(expr_events(&v[i], d), before, exprs_events(v, n, d));
    }
}

/// The walk of a list of statements holds the walk of each of them.
pub proof fn lemma_stmts_walk_holds_each(v: &Vec<Stmt>, n: nat, i: int, d: Descent)
    requires
        0 <= i < n <= v@.len(),
    ensures
        is_part_of(stmt_events(&v[i], d), stmts_events(v, n, d)),
    decreases n,
{
    let before = stmts_events(v, (n - 1) as nat, d);
    let last = stmt_events(&v[n - 1], d);
    if i == n - 1 {
        lemma_middle_is_part(before, last, Seq::empty());
        assert(before + last + Seq::<Node>::empty() =~= stmts_events(v, n, d));
    } else {
        lemma_stmts_walk_holds_each(v, (n - 1) as nat, i, d);
        lemma_middle_is_part(Seq::empty(), before, last);
        assert(Seq::<Node>::empty() + before + last =~= stmts_events(v, n, d));
        lemma_part_of_part(stmt_events(&v[i], d), before, stmts_events(v, n, d));
    }
}

/// The walk of a list of arms holds the walk of each of them.
pub proof fn lemma_arms_walk_holds_each(v: &Vec<Arm>, n: nat, i: int, d: Descent)
    requires
        0 <= i < n <= v@.len(),
    ensures
        is_part_of(arm_events(&v[i], d), arms_events(v, n, d)),
    decreases n,
{
    let before = arms_events(v, (n - 1) as nat, d);
    let last = arm_events(&v[n - 1], d);
    if i == n - 1 {
        lemma_middle_is_part(before, last, Seq::empty());
        assert(before + last + Seq::<Node>::empty() =~= arms_events(v, n, d));
    } else {
        lemma_arms_walk_holds_each(v, (n - 1) as nat, i, d);
        lemma_middle_is_part(Seq::empty(), before, last);
        assert(Seq::<Node>::empty() + before + last =~= arms_events(v, n, d));
        lemma_part_of_part(arm_events(&v[i], d), before, arms_events(v, n, d));
    }
}

/// The walk of an arm holds the walks of its guard and of its body.
pub proof fn lemma_arm_walk_holds_parts(a: &Arm, d: Descent)
    ensures
        is_part_of(expr_events(&a.body, d), arm_events(a, d)),
        a.guard matches Some(g) ==> is_part_of(expr_events(&g, d), arm_events(a, d)),
{
    let head = seq![Node::Pat(&a.pat)];
    let body = expr_events(&a.body, d);
    match &a.guard {
        Some(g) => {
            let guard = expr_events(g, d);
            lemma_middle_is_part(head, guard, body);
            lemma_middle_is_part(head + guard, body, Seq::empty());
            assert(head + guard + body + Seq::<Node>::empty() =~= arm_events(a, d));
        },
        None => {
            lemma_middle_is_part(head, body, Seq::empty());
            assert(head + body + Seq::<Node>::empty() =~= arm_events(a, d));
        },
    }
}

/// The walk of a statement that is visited holds the walks of its parts:
/// the expression of an expression statement, and the initialiser and the
/// `else` block of a `let` that is entered.
pub proof fn lemma_stmt_walk_holds_parts(s: &Stmt, d: Descent)
    requires
        d.visits(s.span),
    ensures
        match &s.kind {
            StmtKind::Local(l) => d.enters_let(l) ==> {
                &&& l.init matches Some(x) ==> is_part_of(expr_events(&x, d), stmt_events(s, d))
                &&& l.els matches Some(b) ==> is_part_of(block_events(&b, d), stmt_events(s, d))
            },
            StmtKind::Expr(x) => is_part_of(expr_events(x, d), stmt_events(s, d)),
            StmtKind::Semi(x) => is_part_of(expr_events(x, d), stmt_events(s, d)),
            StmtKind::Item => true,
        },
{
    let head = seq![Node::Stmt(s)];
    match &s.kind {
        StmtKind::Local(l) => {
            if d.enters_let(l) {
                let init = match &l.init {
                    Some(x) => expr_events(x, d),
                    None => Seq::empty(),
                };
                let pat = seq![Node::Pat(&l.pat)];
                let els = match &l.els {
                    Some(b) => block_events(b, d),
                    None => Seq::empty(),
                };
                lemma_middle_is_part(head, init, pat + els);
                assert(head + init + (pat + els) =~= stmt_events(s, d));
                lemma_middle_is_part(head + init + pat, els, Seq::empty());
                assert(head + init + pat + els + Seq::<Node>::empty() =~= stmt_events(s, d));
            }
        },
        StmtKind::Expr(x) => {
            lemma_middle_is_part(head, expr_events(x, d), Seq::empty());
            assert(head + expr_events(x, d) + Seq::<Node>::empty() =~= stmt_events(s, d));
        },
        StmtKind::Semi(x) => {
            lemma_middle_is_part(head, expr_events(x, d), Seq::empty());
            assert(head + expr_events(x, d) + Seq::<Node>::empty() =~= stmt_events(s, d));
        },
        StmtKind::Item => {},
    }
}

/// The walk of a block holds the walk of each of its statements and of
/// its tail.
pub proof fn lemma_block_walk_holds_parts(b: &Block, d: Descent)
    ensures
        forall|i: int|
            0 <= i < b.stmts@.len() ==> is_part_of(
                #[trigger] stmt_events(&b.stmts[i], d),
                block_events(b, d),
            ),
        b.expr matches Some(x) ==> is_part_of(expr_events(&x, d), block_events(b, d)),
{
    let head = seq![Node::Block(b)];
    let stmts = stmts_events(&b.stmts, b.stmts@.len(), d);
    let tail = match &b.expr {
        Some(x) => expr_events(x, d),
        None => Seq::empty(),
    };
    let end = if d.block_ends {
        seq![Node::BlockEnd(b)]
    } else {
        Seq::empty()
    };
    lemma_middle_is_part(head, stmts, tail + end);
    assert(head + stmts + (tail + end) =~= block_events(b, d));
    lemma_middle_is_part(head + stmts, tail, end);
    assert(head + stmts + tail + end =~= block_events(b, d));
    assert forall|i: int| 0 <= i < b.stmts@.len() implies is_part_of(
        #[trigger] stmt_events(&b.stmts[i], d),
        block_events(b, d),
    ) by {
        lemma_stmts_walk_holds_each(&b.stmts, b.stmts@.len(), i, d);
        lemma_part_of_part(stmt_events(&b.stmts[i], d), stmts, block_events(b, d));
    }
}

/// The walks of the operands of `e`, in the order in which they are
/// walked; the walk of a block inside `e` counts as one.
pub open spec fn operand_walks<'a>(e: &'a Expr, d: Descent) -> Seq<Seq<Node<'a>>> {
    match &e.kind {
        ExprKind::Lit(_) => Seq::empty(),
        ExprKind::Path(_) => Seq::empty(),
        ExprKind::Call(f, args) => seq![expr_events(f, d), exprs_events(args, args@.len(), d)],
        ExprKind::MethodCall(_, _, recv, args) => seq![
            expr_events(recv, d),
            exprs_events(args, args@.len(), d),
        ],
        ExprKind::Binary(_, l, r) => seq![expr_events(l, d), expr_events(r, d)],
        ExprKind::Unary(_, x) => seq![expr_events(x, d)],
        ExprKind::AddrOf(_, x) => seq![expr_events(x, d)],
        ExprKind::Cast(x, _) => seq![expr_events(x, d)],
        ExprKind::Assign(place, value) => seq![expr_events(value, d), expr_events(place, d)],
        ExprKind::Field(x, _) => seq![expr_events(x, d)],
        ExprKind::If(c, t, f) => seq![
            expr_events(c, d),
            expr_events(t, d),
            match f {
                Some(x) => expr_events(x, d),
                None => Seq::empty(),
            },
        ],
        ExprKind::Match(s, arms) => seq![expr_events(s, d), arms_events(arms, arms@.len(), d)],
        ExprKind::Block(b) => seq![block_events(b, d)],
        ExprKind::Loop(_, _, head, body) => seq![
            exprs_events(head, head@.len(), d),
            block_events(body, d),
        ],
        ExprKind::Closure(body) => seq![expr_events(body, d)],
        ExprKind::Ret(x) => seq![
            match x {
                Some(x) => expr_events(x, d),
                None => Seq::empty(),
            },
        ],
        ExprKind::Break(_, x) => seq![
            match x {
                Some(x) => expr_events(x, d),
                None => Seq::empty(),
            },
        ],
        ExprKind::Other(_, xs) => seq![exprs_events(xs, xs@.len(), d)],
    }
}

/// Completeness: the walk of an expression that is entered holds the walk
/// of each of its operands, whatever the shape of the expression.
pub proof fn lemma_walk_holds_operands(e: &Expr, d: Descent)
    requires
        d.visits(e.span),
        d.enters_expr(e),
    ensures
        forall|k: int|
            0 <= k < operand_walks(e, d).len() ==> is_part_of(
                #[trigger] operand_walks(e, d)[k],
                expr_events(e, d),
            ),
{
    let head = seq![Node::Expr(e)];
    let parts = operand_walks(e, d);
    let whole = expr_events(e, d);
    let none = if e.kind is Closure && d.closure_ends {
        seq![Node::ClosureEnd(e)]
    } else {
        Seq::<Node>::empty()
    };
    if parts.len() == 1 {
        lemma_middle_is_part(head, parts[0], none);
        assert(head + parts[0] + none =~= whole);
    } else if parts.len() == 2 {
        lemma_middle_is_part(head, parts[0], parts[1]);
        assert(head + parts[0] + parts[1] =~= whole);
        lemma_middle_is_part(head + parts[0], parts[1], none);
        assert(head + parts[0] + parts[1] + none =~= whole);
    } else if parts.len() == 3 {
        lemma_middle_is_part(head, parts[0], parts[1] + parts[2]);
        assert(head + parts[0] + (parts[1] + parts[2]) =~= whole);
        lemma_middle_is_part(head + parts[0], parts[1], parts[2]);
        assert(head + parts[0] + parts[1] + parts[2] =~= whole);
        lemma_middle_is_part(head + parts[0] + parts[1], parts[2], none);
        assert(head + parts[0] + parts[1] + parts[2] + none =~= whole);
    }
}

/// Completeness for arguments: the walk of a call that is entered holds
/// the walk of each of its arguments.
pub proof fn lemma_walk_holds_arguments(e: &Expr, d: Descent, i: int)
    requires
        d.visits(e.span),
        d.enters_expr(e),
        e.kind matches ExprKind::Call(_, args) && 0 <= i < args@.len(),
    ensures
        e.kind matches ExprKind::Call(_, args) && is_part_of(
            expr_events(&args[i], d),
            expr_events(e, d),
        ),
{
    match &e.kind {
        ExprKind::Call(_, args) => {
            lemma_exprs_walk_holds_each(args, args@.len(), i, d);
            lemma_walk_holds_operands(e, d);
            assert(operand_walks(e, d)[1] == exprs_events(args, args@.len(), d));
            lemma_part_of_part(
                expr_events(&args[i], d),
                exprs_events(args, args@.len(), d),
                expr_events(e, d),
            );
        },
        _ => {},
    }
}

/// A node that is not entered is visited alone.
pub proof fn lemma_walk_stops_where_not_entered(e: &Expr, d: Descent)
    requires
        d.visits(e.span),
        !d.enters_expr(e),
    ensures
        expr_events(e, d) == seq![Node::Expr(e)],
{
}

/// A walk of user-written code visits nothing of an expanded
/// expression.
pub proof fn lemma_expanded_code_is_left_out(e: &Expr, d: Descent)
    requires
        !d.visits(e.span),
    ensures
        expr_events(e, d) == Seq::<Node>::empty(),
{
}

/// Every walk that visits expanded code visits every range.
pub proof fn lemma_full_walks_visit_everything(span: crate::span::Span)
    ensures
        Descent::spec_everywhere().visits(span),
        Descent::spec_outside_closures().visits(span),
        Descent::spec_user_code().visits(span) == (span.ctxt == 0),
{
}

} // verus!
