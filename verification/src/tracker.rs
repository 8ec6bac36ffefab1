//! Following one local binding through the rest of its scope.
//!
//! A search starts behind a statement and ends with the enclosing block.
//! It visits the expressions of the block in walk order, outside
//! closures, and returns the first one inside that window that a
//! predicate holds of.

use std::collections::HashSet;
use vstd::prelude::*;
use crate::ptr::search_window;
use crate::resolve::{callee_of, identity_of, path_hir_id_matches_id, resolve_callee};
use crate::span::Span;
use crate::tree::{Block, Expr, ExprKind, UnOp};
use crate::walk::{block_events, visited, walk_scope, Descent, Node, Visitor};

verus! {

broadcast use vstd::std_specs::hash::group_hash_axioms;

/// What a search looks for.
pub trait Predicate {
    /// Whether the predicate holds of the expression.
    spec fn holds(&self, e: &Expr) -> bool;

    /// Tests the predicate on the expression.
    fn test(&self, e: &Expr) -> (b: bool)
        ensures
            b == self.holds(e),
    ;
}

/// An assignment whose place stands for the binding.
pub struct AssignsTo(pub u64);

/// A dereference of the binding.
pub struct Dereferences(pub u64);

/// A call that has the binding as first argument and resolves to one of
/// the functions.
pub struct CallsWith<'a> {
    pub binding: u64,
    pub fns: &'a HashSet<u64>,
}

impl Predicate for AssignsTo {
    open spec fn holds(&self, e: &Expr) -> bool {
        match &e.kind {
            ExprKind::Assign(place, _) => identity_of(place) == Some(self.0),
            _ => false,
        }
    }

    fn test(&self, e: &Expr) -> (b: bool) {
        match &e.kind {
            ExprKind::Assign(place, _) => path_hir_id_matches_id(place, self.0),
            _ => false,
        }
    }
}

impl Predicate for Dereferences {
    open spec fn holds(&self, e: &Expr) -> bool {
        match &e.kind {
            ExprKind::Unary(UnOp::Deref, x) => identity_of(x) == Some(self.0),
            _ => false,
        }
    }

    fn test(&self, e: &Expr) -> (b: bool) {
        match &e.kind {
            ExprKind::Unary(UnOp::Deref, x) => path_hir_id_matches_id(x, self.0),
            _ => false,
        }
    }
}

impl<'a> Predicate for CallsWith<'a> {
    open spec fn holds(&self, e: &Expr) -> bool {
        match &e.kind {
            ExprKind::Call(_, args) => args@.len() > 0 && identity_of(&args@[0]) == Some(
                self.binding,
            ) && (match callee_of(e) {
                Some(f) => self.fns@.contains(f),
                None => false,
            }),
            _ => false,
        }
    }

    fn test(&self, e: &Expr) -> (b: bool) {
        match &e.kind {
            ExprKind::Call(_, args) => {
                if args.len() == 0 || !path_hir_id_matches_id(&args[0], self.binding) {
                    return false;
                }
                match resolve_callee(e) {
                    Some(f) => self.fns.contains(&f),
                    None => false,
                }
            },
            _ => false,
        }
    }
}

/// Whether the node is an expression inside the window that the
/// predicate holds of.
pub open spec fn is_hit<P: Predicate>(node: Node, window: Span, pred: &P) -> bool {
    match node {
        Node::Expr(e) => window.spec_contains(e.span) && pred.holds(e),
        _ => false,
    }
}

/// The position of the first hit at or behind `from`, or the number of
/// nodes.
pub open spec fn first_hit<P: Predicate>(nodes: Seq<Node>, from: int, window: Span, pred: &P) -> int
    decreases nodes.len() - from,
{
    if from < 0 || from >= nodes.len() {
        nodes.len() as int
    } else if is_hit(nodes[from], window, pred) {
        from
    } else {
        first_hit(nodes, from + 1, window, pred)
    }
}

/// The nodes that a search in `scope` visits.
pub open spec fn scope_nodes<'a>(scope: &'a Block) -> Seq<Node<'a>> {
    block_events(scope, Descent::spec_outside_closures())
}

/// The first expression of `scope` behind `start` that the predicate
/// holds of.
pub open spec fn first_match<'a, P: Predicate>(start: Span, scope: &'a Block, pred: &P) -> Option<
    &'a Expr,
> {
    let nodes = scope_nodes(scope);
    let at = first_hit(nodes, 0, search_window(scope, start), pred);
    if at < nodes.len() {
        match nodes[at] {
            Node::Expr(e) => Some(e),
            _ => None,
        }
    } else {
        None
    }
}

/// The first hit is a hit, and no node before it is one.
pub proof fn lemma_first_hit_is_first<P: Predicate>(
    nodes: Seq<Node>,
    from: int,
    window: Span,
    pred: &P,
)
    requires
        0 <= from <= nodes.len(),
    ensures
        from <= first_hit(nodes, from, window, pred) <= nodes.len(),
        first_hit(nodes, from, window, pred) < nodes.len() ==> is_hit(
            nodes[first_hit(nodes, from, window, pred)],
            window,
            pred,
        ),
        forall|i: int|
            from <= i < first_hit(nodes, from, window, pred) ==> !is_hit(
                #[trigger] nodes[i],
                window,
                pred,
            ),
    decreases nodes.len() - from,
{
    if from < nodes.len() && !is_hit(nodes[from], window, pred) {
        lemma_first_hit_is_first(nodes, from + 1, window, pred);
    }
}

/// Scope isolation: a predicate about one binding holds of no expression
/// that stands for another.
pub proof fn lemma_predicates_are_about_one_binding(e: &Expr, b1: u64, b2: u64, fns: &HashSet<u64>)
    requires
        b1 != b2,
    ensures
        !(AssignsTo(b1).holds(e) && AssignsTo(b2).holds(e)),
        !(Dereferences(b1).holds(e) && Dereferences(b2).holds(e)),
        !(CallsWith { binding: b1, fns }.holds(e) && CallsWith { binding: b2, fns }.holds(e)),
{
}

/// The visitor that ends a walk at the first expression inside the
/// window that the predicate holds of.
pub struct FirstMatch<'p, P> {
    pub window: Span,
    pub pred: &'p P,
}

impl<'a, 'p, P: Predicate> Visitor<'a> for FirstMatch<'p, P> {
    type Out = &'a Expr;

    open spec fn after(&self, node: Node<'a>) -> (Self, Option<&'a Expr>) {
        (
            *self,
            match node {
                Node::Expr(e) => if is_hit(node, self.window, self.pred) {
                    Some(e)
                } else {
                    None
                },
                _ => None,
            },
        )
    }

    fn visit(&mut self, node: Node<'a>) -> (r: Option<&'a Expr>) {
        match node {
            Node::Expr(e) => {
                if self.window.contains(e.span) && self.pred.test(e) {
                    Some(e)
                } else {
                    None
                }
            },
            _ => None,
        }
    }
}

/// A walk with the visitor ends at the first hit.
pub proof fn lemma_walk_ends_at_first_hit<'a, 'p, P: Predicate>(
    v: FirstMatch<'p, P>,
    nodes: Seq<Node<'a>>,
    from: int,
)
    requires
        0 <= from <= nodes.len(),
    ensures
        ({
            let at = first_hit(nodes, from, v.window, v.pred);
            visited(nodes, from, v).1 == (if at < nodes.len() {
                match nodes[at] {
                    Node::Expr(e) => Some(e),
                    _ => None,
                }
            } else {
                None
            })
        }),
    decreases nodes.len() - from,
{
    if from < nodes.len() {
        let (next, r) = v.after(nodes[from]);
        if r is None {
            lemma_walk_ends_at_first_hit(next, nodes, from + 1);
        }
    }
}

/// Searches `scope`, behind `start`, for the first expression that the
/// predicate holds of.
///
/// The result is the first expression in walk order, outside closures,
/// that lies inside the window from the end of `start` to the end of
/// `scope` and that the predicate holds of; `None` where there is none.
pub fn find_first<'a, P: Predicate>(start: Span, scope: &'a Block, pred: &P) -> (r: Option<&'a Expr>)
    ensures
        r == first_match(start, scope, pred),
        r matches Some(e) ==> search_window(scope, start).spec_contains(e.span) && pred.holds(e),
{
    let d = Descent::outside_closures();
    let mut visitor = FirstMatch { window: scope.span.with_lo(start.hi), pred };
    proof {
        lemma_walk_ends_at_first_hit(visitor, scope_nodes(scope), 0);
        lemma_first_hit_is_first(scope_nodes(scope), 0, visitor.window, pred);
    }
    walk_scope(scope, &d, &mut visitor)
}

} // verus!
