//! The pre-order walk that every check is built on.
//!
//! A walk lists the nodes below a root in the order in which they are
//! visited: a node first, then its parts from left to right (the value of
//! an assignment before its place, the initialiser of a `let` before its
//! pattern).  Which sub-trees are left out is fixed per walk by a
//! [`Descent`].  The list is a function of the tree alone, so two walks of
//! one tree visit the same nodes in the same order.

use vstd::prelude::*;
use crate::span::Span;
use crate::tree::{Arm, Block, Expr, ExprKind, Local, Pat, Stmt, StmtKind};

verus! {

/// A node that the walk visits.
#[derive(Clone, Copy)]
pub enum Node<'a> {
    Expr(&'a Expr),
    Stmt(&'a Stmt),
    Block(&'a Block),
    Pat(&'a Pat),
    /// The end of a block; visited only where the walk asks for it.
    BlockEnd(&'a Block),
    /// The end of the body of a closure; visited only where the walk asks
    /// for it.
    ClosureEnd(&'a Expr),
}

/// Which `let` statements a walk enters.
#[derive(Clone, Copy, Debug, PartialEq, Eq, Structural)]
pub enum LetDescent {
    /// Every one.
    All,
    /// None.
    Skip,
}

/// What a walk enters.  A node that is not entered is still visited
/// itself; only what lies below it is left out.
#[derive(Clone, Copy, Debug, PartialEq, Eq, Structural)]
pub struct Descent {
    /// The bodies of closures.
    pub closures: bool,
    /// The heads and bodies of loops.
    pub loops: bool,
    /// The operand of `return`.
    pub returns: bool,
    /// The operand of `break`.
    pub breaks: bool,
    /// The two sides of an assignment whose value is a literal.
    pub literal_assignments: bool,
    pub lets: LetDescent,
    /// Whether the end of each block is visited as a node of its own,
    /// after what the block holds.
    pub block_ends: bool,
    /// Whether the end of the body of each closure that is entered is
    /// visited as a node of its own, after the body.
    pub closure_ends: bool,
    /// Expressions and statements that an expansion produced.  Where
    /// false, the walk visits user-written code only: an expanded
    /// expression or statement is left out with all that lies below it.
    pub expanded: bool,
}

impl Descent {
    pub open spec fn spec_everywhere() -> Descent {
        Descent {
            closures: true,
            loops: true,
            returns: true,
            breaks: true,
            literal_assignments: true,
            lets: LetDescent::All,
            block_ends: false,
            closure_ends: false,
            expanded: true,
        }
    }

    pub open spec fn spec_outside_closures() -> Descent {
        Descent { closures: false, ..Self::spec_everywhere() }
    }

    pub open spec fn spec_user_code() -> Descent {
        Descent { expanded: false, ..Self::spec_everywhere() }
    }

    /// Whether the walk visits a node with the range `span` at all.
    pub open spec fn visits(self, span: Span) -> bool {
        self.expanded || span.ctxt == 0
    }

    /// The walk that enters everything.
    pub fn everywhere() -> (d: Descent)
        ensures
            d == Self::spec_everywhere(),
    {
        Descent {
            closures: true,
            loops: true,
            returns: true,
            breaks: true,
            literal_assignments: true,
            lets: LetDescent::All,
            block_ends: false,
            closure_ends: false,
            expanded: true,
        }
    }

    /// The walk of user-written code: everything but what an expansion
    /// produced.
    pub fn user_code() -> (d: Descent)
        ensures
            d == Self::spec_user_code(),
    {
        Descent {
            closures: true,
            loops: true,
            returns: true,
            breaks: true,
            literal_assignments: true,
            lets: LetDescent::All,
            block_ends: false,
            closure_ends: false,
            expanded: false,
        }
    }

    /// Whether the walk visits a node with the range `span` at all.
    pub fn visit_span(&self, span: Span) -> (b: bool)
        ensures
            b == self.visits(span),
    {
        self.expanded || !span.from_expansion()
    }

    /// The walk that stops at closures.
    pub fn outside_closures() -> (d: Descent)
        ensures
            d == Self::spec_outside_closures(),
    {
        Descent {
            closures: false,
            loops: true,
            returns: true,
            breaks: true,
            literal_assignments: true,
            lets: LetDescent::All,
            block_ends: false,
            closure_ends: false,
            expanded: true,
        }
    }

    pub open spec fn enters_expr(self, e: &Expr) -> bool {
        match &e.kind {
            ExprKind::Closure(_) => self.closures,
            ExprKind::Loop(_, _, _, _) => self.loops,
            ExprKind::Ret(_) => self.returns,
            ExprKind::Break(_, _) => self.breaks,
            ExprKind::Assign(_, value) => self.literal_assignments || !(value.kind is Lit),
            _ => true,
        }
    }

    pub open spec fn enters_let(self, l: &Local) -> bool {
        match self.lets {
            LetDescent::All => true,
            LetDescent::Skip => false,
        }
    }

    /// Whether the walk goes below the expression `e`.
    pub fn enter_expr(&self, e: &Expr) -> (b: bool)
        ensures
            b == self.enters_expr(e),
    {
        match &e.kind {
            ExprKind::Closure(_) => self.closures,
            ExprKind::Loop(_, _, _, _) => self.loops,
            ExprKind::Ret(_) => self.returns,
            ExprKind::Break(_, _) => self.breaks,
            ExprKind::Assign(_, value) => self.literal_assignments || !matches!(
                value.kind,
                ExprKind::Lit(_)
            ),
            _ => true,
        }
    }

    /// Whether the walk goes below the `let` statement `l`.
    pub fn enter_let(&self, l: &Local) -> (b: bool)
        ensures
            b == self.enters_let(l),
    {
        match self.lets {
            LetDescent::All => true,
            LetDescent::Skip => false,
        }
    }
}

/// The nodes of the walk that starts at the expression `e`.
pub open spec fn expr_events<'a>(e: &'a Expr, d: Descent) -> Seq<Node<'a>>
    decreases e, 0nat,
{
    if !d.visits(e.span) {
        Seq::empty()
    } else if !d.enters_expr(e) {
        seq![Node::Expr(e)]
    } else {
        seq![Node::Expr(e)] + (match &e.kind {
            ExprKind::Lit(_) => Seq::empty(),
            ExprKind::Path(_) => Seq::empty(),
            ExprKind::Call(f, args) => expr_events(f, d) + exprs_events(args, args@.len(), d),
            ExprKind::MethodCall(_, _, recv, args) => expr_events(recv, d) + exprs_events(
                args,
                args@.len(),
                d,
            ),
            ExprKind::Binary(_, l, r) => expr_events(l, d) + expr_events(r, d),
            ExprKind::Unary(_, x) => expr_events(x, d),
            ExprKind::AddrOf(_, x) => expr_events(x, d),
            ExprKind::Cast(x, _) => expr_events(x, d),
            ExprKind::Assign(place, value) => expr_events(value, d) + expr_events(place, d),
            ExprKind::Field(x, _) => expr_events(x, d),
            ExprKind::If(c, t, f) => expr_events(c, d) + expr_events(t, d) + (match f {
                Some(x) => expr_events(x, d),
                None => Seq::empty(),
            }),
            ExprKind::Match(s, arms) => expr_events(s, d) + arms_events(arms, arms@.len(), d),
            ExprKind::Block(b) => block_events(b, d),
            ExprKind::Loop(_, _, head, body) => exprs_events(head, head@.len(), d) + block_events(
                body,
                d,
            ),
            ExprKind::Closure(body) => expr_events(body, d) + (if d.closure_ends {
                seq![Node::ClosureEnd(e)]
            } else {
                Seq::empty()
            }),
            ExprKind::Ret(x) => match x {
                Some(x) => expr_events(x, d),
                None => Seq::empty(),
            },
            ExprKind::Break(_, x) => match x {
                Some(x) => expr_events(x, d),
                None => Seq::empty(),
            },
            ExprKind::Other(_, xs) => exprs_events(xs, xs@.len(), d),
        })
    }
}

/// The walks of the first `n` expressions of `v`, one after the other.
pub open spec fn exprs_events<'a>(v: &'a Vec<Expr>, n: nat, d: Descent) -> Seq<Node<'a>>
    decreases v, n,
{
    if n == 0 || n > v@.len() {
        Seq::empty()
    } else {
        exprs_events(v, (n - 1) as nat, d) + expr_events(&v[n - 1], d)
    }
}

/// The nodes of the walk of a `match` arm: pattern, guard, body.
pub open spec fn arm_events<'a>(a: &'a Arm, d: Descent) -> Seq<Node<'a>>
    decreases a, 0nat,
{
    seq![Node::Pat(&a.pat)] + (match &a.guard {
        Some(g) => expr_events(g, d),
        None => Seq::empty(),
    }) + expr_events(&a.body, d)
}

/// The walks of the first `n` arms of `v`, one after the other.
pub open spec fn arms_events<'a>(v: &'a Vec<Arm>, n: nat, d: Descent) -> Seq<Node<'a>>
    decreases v, n,
{
    if n == 0 || n > v@.len() {
        Seq::empty()
    } else {
        arms_events(v, (n - 1) as nat, d) + arm_events(&v[n - 1], d)
    }
}

/// The nodes of the walk that starts at the statement `s`.
pub open spec fn stmt_events<'a>(s: &'a Stmt, d: Descent) -> Seq<Node<'a>>
    decreases s, 1nat,
{
    if !d.visits(s.span) {
        Seq::empty()
    } else {
        stmt_parts_events(s, d)
    }
}

/// The nodes of the walk of a statement that is visited.
pub open spec fn stmt_parts_events<'a>(s: &'a Stmt, d: Descent) -> Seq<Node<'a>>
    decreases s, 0nat,
{
    seq![Node::Stmt(s)] + (match &s.kind {
        StmtKind::Local(l) => if d.enters_let(l) {
            (match &l.init {
                Some(x) => expr_events(x, d),
                None => Seq::empty(),
            }) + seq![Node::Pat(&l.pat)] + (match &l.els {
                Some(b) => block_events(b, d),
                None => Seq::empty(),
            })
        } else {
            Seq::empty()
        },
        StmtKind::Expr(x) => expr_events(x, d),
        StmtKind::Semi(x) => expr_events(x, d),
        StmtKind::Item => Seq::empty(),
    })
}

/// The walks of the first `n` statements of `v`, one after the other.
pub open spec fn stmts_events<'a>(v: &'a Vec<Stmt>, n: nat, d: Descent) -> Seq<Node<'a>>
    decreases v, n,
{
    if n == 0 || n > v@.len() {
        Seq::empty()
    } else {
        stmts_events(v, (n - 1) as nat, d) + stmt_events(&v[n - 1], d)
    }
}

/// The nodes of the walk that starts at the block `b`: the block, its
/// statements in order, its tail expression.
pub open spec fn block_events<'a>(b: &'a Block, d: Descent) -> Seq<Node<'a>>
    decreases b, 0nat,
{
    seq![Node::Block(b)] + stmts_events(&b.stmts, b.stmts@.len(), d) + (match &b.expr {
        Some(x) => expr_events(x, d),
        None => Seq::empty(),
    }) + (if d.block_ends {
        seq![Node::BlockEnd(b)]
    } else {
        Seq::empty()
    })
}

/// Appends the walk of `e` to `out`.
pub fn walk_expr<'a>(e: &'a Expr, d: &Descent, out: &mut Vec<Node<'a>>)
    ensures
        final(out)@ == old(out)@ + expr_events(e, *d),
    decreases e, 0nat,
{
    if !d.visit_span(e.span) {
        assert(out@ =~= old(out)@ + expr_events(e, *d));
        return ;
    }
    out.push(Node::Expr(e));
    if !d.enter_expr(e) {
        assert(out@ =~= old(out)@ + expr_events(e, *d));
        return ;
    }
    match &e.kind {
        ExprKind::Lit(_) => {},
        ExprKind::Path(_) => {},
        ExprKind::Call(f, args) => {
            walk_expr(f, d, out);
            walk_exprs(args, d, out);
        },
        ExprKind::MethodCall(_, _, recv, args) => {
            walk_expr(recv, d, out);
            walk_exprs(args, d, out);
        },
        ExprKind::Binary(_, l, r) => {
            walk_expr(l, d, out);
            walk_expr(r, d, out);
        },
        ExprKind::Unary(_, x) => {
            walk_expr(x, d, out);
        },
        ExprKind::AddrOf(_, x) => {
            walk_expr(x, d, out);
        },
        ExprKind::Cast(x, _) => {
            walk_expr(x, d, out);
        },
        ExprKind::Assign(place, value) => {
            walk_expr(value, d, out);
            walk_expr(place, d, out);
        },
        ExprKind::Field(x, _) => {
            walk_expr(x, d, out);
        },
        ExprKind::If(c, t, f) => {
            walk_expr(c, d, out);
            walk_expr(t, d, out);
            match f {
                Some(x) => {
                    walk_expr(x, d, out);
                },
                None => {},
            }
        },
        ExprKind::Match(s, arms) => {
            walk_expr(s, d, out);
            walk_arms(arms, d, out);
        },
        ExprKind::Block(b) => {
            walk_block(b, d, out);
        },
        ExprKind::Loop(_, _, head, body) => {
            walk_exprs(head, d, out);
            walk_block(body, d, out);
        },
        ExprKind::Closure(body) => {
            walk_expr(body, d, out);
            if d.closure_ends {
                out.push(Node::ClosureEnd(e));
            }
        },
        ExprKind::Ret(x) => {
            match x {
                Some(x) => {
                    walk_expr(x, d, out);
                },
                None => {},
            }
        },
        ExprKind::Break(_, x) => {
            match x {
                Some(x) => {
                    walk_expr(x, d, out);
                },
                None => {},
            }
        },
        ExprKind::Other(_, xs) => {
            walk_exprs(xs, d, out);
        },
    }
    assert(out@ =~= old(out)@ + expr_events(e, *d));
}

/// Appends the walks of the expressions of `v` to `out`.
pub fn walk_exprs<'a>(v: &'a Vec<Expr>, d: &Descent, out: &mut Vec<Node<'a>>)
    ensures
        final(out)@ == old(out)@ + exprs_events(v, v@.len(), *d),
    decreases v, v@.len(),
{
    let mut i: usize = 0;
    assert(out@ =~= old(out)@ + exprs_events(v, 0, *d));
    while i < v.len()
        invariant
            i <= v.len(),
            out@ == old(out)@ + exprs_events(v, i as nat, *d),
        decreases v.len() - i,
    {
        walk_expr(&v[i], d, out);
        assert(out@ =~= old(out)@ + exprs_events(v, (i + 1) as nat, *d));
        i += 1;
    }
}

/// Appends the walk of the arm `a` to `out`.
pub fn walk_arm<'a>(a: &'a Arm, d: &Descent, out: &mut Vec<Node<'a>>)
    ensures
        final(out)@ == old(out)@ + arm_events(a, *d),
    decreases a, 0nat,
{
    out.push(Node::Pat(&a.pat));
    match &a.guard {
        Some(g) => {
            walk_expr(g, d, out);
        },
        None => {},
    }
    walk_expr(&a.body, d, out);
    assert(out@ =~= old(out)@ + arm_events(a, *d));
}

/// Appends the walks of the arms of `v` to `out`.
pub fn walk_arms<'a>(v: &'a Vec<Arm>, d: &Descent, out: &mut Vec<Node<'a>>)
    ensures
        final(out)@ == old(out)@ + arms_events(v, v@.len(), *d),
    decreases v, v@.len(),
{
    let mut i: usize = 0;
    assert(out@ =~= old(out)@ + arms_events(v, 0, *d));
    while i < v.len()
        invariant
            i <= v.len(),
            out@ == old(out)@ + arms_events(v, i as nat, *d),
        decreases v.len() - i,
    {
        walk_arm(&v[i], d, out);
        assert(out@ =~= old(out)@ + arms_events(v, (i + 1) as nat, *d));
        i += 1;
    }
}

/// Appends the walk of `s` to `out`.
pub fn walk_stmt<'a>(s: &'a Stmt, d: &Descent, out: &mut Vec<Node<'a>>)
    ensures
        final(out)@ == old(out)@ + stmt_events(s, *d),
    decreases s, 0nat,
{
    if !d.visit_span(s.span) {
        assert(out@ =~= old(out)@ + stmt_events(s, *d));
        return ;
    }
    out.push(Node::Stmt(s));
    match &s.kind {
        StmtKind::Local(l) => {
            if d.enter_let(l) {
                match &l.init {
                    Some(x) => {
                        walk_expr(x, d, out);
                    },
                    None => {},
                }
                out.push(Node::Pat(&l.pat));
                match &l.els {
                    Some(b) => {
                        walk_block(b, d, out);
                    },
                    None => {},
                }
            }
        },
        StmtKind::Expr(x) => {
            walk_expr(x, d, out);
        },
        StmtKind::Semi(x) => {
            walk_expr(x, d, out);
        },
        StmtKind::Item => {},
    }
    assert(out@ =~= old(out)@ + stmt_events(s, *d));
}

/// Appends the walks of the statements of `v` to `out`.
pub fn walk_stmts<'a>(v: &'a Vec<Stmt>, d: &Descent, out: &mut Vec<Node<'a>>)
    ensures
        final(out)@ == old(out)@ + stmts_events(v, v@.len(), *d),
    decreases v, v@.len(),
{
    let mut i: usize = 0;
    assert(out@ =~= old(out)@ + stmts_events(v, 0, *d));
    while i < v.len()
        invariant
            i <= v.len(),
            out@ == old(out)@ + stmts_events(v, i as nat, *d),
        decreases v.len() - i,
    {
        walk_stmt(&v[i], d, out);
        assert(out@ =~= old(out)@ + stmts_events(v, (i + 1) as nat, *d));
        i += 1;
    }
}

/// Appends the walk of `b` to `out`.
pub fn walk_block<'a>(b: &'a Block, d: &Descent, out: &mut Vec<Node<'a>>)
    ensures
        final(out)@ == old(out)@ + block_events(b, *d),
    decreases b, 0nat,
{
    out.push(Node::Block(b));
    walk_stmts(&b.stmts, d, out);
    match &b.expr {
        Some(x) => {
            walk_expr(x, d, out);
        },
        None => {},
    }
    if d.block_ends {
        out.push(Node::BlockEnd(b));
    }
    assert(out@ =~= old(out)@ + block_events(b, *d));
}

} // verus!

verus! {

/// What is carried through a walk and can end it.
///
/// A visitor sees the nodes of a walk in order.  At each node it may
/// change, and it may end the walk with a result.
pub trait Visitor<'a>: Sized {
    /// What a walk that the visitor ends returns.
    type Out;

    /// The visitor behind the node, and the result with which it ends the
    /// walk at the node, if it does.
    spec fn after(&self, node: Node<'a>) -> (Self, Option<Self::Out>);

    /// Visits the node.
    fn visit(&mut self, node: Node<'a>) -> (r: Option<Self::Out>)
        ensures
            (*final(self), r) == old(self).after(node),
    ;
}

/// The visitor behind the nodes from `from` on, and the result of the
/// first node at which it ended the walk; the nodes behind that one are
/// not visited.
pub open spec fn visited<'a, V: Visitor<'a>>(nodes: Seq<Node<'a>>, from: int, v: V) -> (
    V,
    Option<V::Out>,
)
    decreases nodes.len() - from,
{
    if from < 0 || from >= nodes.len() {
        (v, None)
    } else {
        let (next, r) = v.after(nodes[from]);
        if r is Some {
            (next, r)
        } else {
            visited(nodes, from + 1, next)
        }
    }
}

/// Shows the nodes to the visitor, in order, up to the first at which the
/// visitor ends the walk.
pub fn visit_nodes<'a, V: Visitor<'a>>(nodes: &Vec<Node<'a>>, visitor: &mut V) -> (r: Option<V::Out>)
    ensures
        (*final(visitor), r) == visited(nodes@, 0, *old(visitor)),
{
    let mut i: usize = 0;
    while i < nodes.len()
        invariant
            i <= nodes.len(),
            visited(nodes@, i as int, *visitor) == visited(nodes@, 0, *old(visitor)),
        decreases nodes.len() - i,
    {
        let r = visitor.visit(nodes[i]);
        if r.is_some() {
            return r;
        }
        i += 1;
    }
    None
}

/// Walks the expression `root` with the visitor.
///
/// The visitor sees the root and everything below it that the walk
/// enters, in pre-order.  The walk ends at the first node at which the
/// visitor returns a result, and returns that result; it returns `None`
/// where the visitor saw every node and ended at none.
pub fn walk<'a, V: Visitor<'a>>(root: &'a Expr, d: &Descent, visitor: &mut V) -> (r: Option<V::Out>)
    ensures
        (*final(visitor), r) == visited(expr_events(root, *d), 0, *old(visitor)),
{
    let mut nodes: Vec<Node<'a>> = Vec::new();
    walk_expr(root, d, &mut nodes);
    assert(nodes@ =~= expr_events(root, *d));
    visit_nodes(&nodes, visitor)
}

/// Walks the block `scope` with the visitor.
pub fn walk_scope<'a, V: Visitor<'a>>(scope: &'a Block, d: &Descent, visitor: &mut V) -> (r: Option<
    V::Out,
>)
    ensures
        (*final(visitor), r) == visited(block_events(scope, *d), 0, *old(visitor)),
{
    let mut nodes: Vec<Node<'a>> = Vec::new();
    walk_block(scope, d, &mut nodes);
    assert(nodes@ =~= block_events(scope, *d));
    visit_nodes(&nodes, visitor)
}

} // verus!
