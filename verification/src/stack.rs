//! Returning the address of a local.
//!
//! A block is searched for the expressions it can return (the operand of
//! a `return`, the tail of a block) and for the locals whose type is
//! known from their declaration.  A returned expression is reported where
//! it is a pointer to such a local of simple type.

use std::collections::HashMap;
use std::collections::HashSet;
use vstd::prelude::*;
use crate::finding::{Finding, FindingKind};
use crate::resolve::{
    path_res,
    peel_casts,
    peel_method_calls,
    peel_refs,
    res_of,
    without_casts,
    without_method_calls,
    without_refs,
};
use crate::span::Span;
use crate::text::str_eq;
use crate::tree::{Block, Expr, ExprKind, Res, StmtKind, TyKind};
use crate::walk::{block_events, walk_block, Descent, LetDescent, Node};

verus! {

broadcast use vstd::std_specs::hash::group_hash_axioms;

/// What the search of a block has gathered.
pub struct Collected<'a> {
    /// The locals with a declared type or a literal value, each with the
    /// range of the statement that last declared or assigned it.
    pub local: Map<u64, Span>,
    /// The expressions that can be returned, in walk order.
    pub rets: Seq<&'a Expr>,
    /// The identities of the blocks that were searched.
    pub visited: Set<u64>,
}

/// The walk in which returns are looked for: not into closures, `let`
/// statements, the operand of a `return`, or an assignment of a literal.
pub open spec fn return_descent() -> Descent {
    Descent {
        closures: false,
        returns: false,
        literal_assignments: false,
        lets: LetDescent::Skip,
        ..Descent::spec_everywhere()
    }
}

/// What one node adds to what was gathered.
pub open spec fn collect_step<'a>(st: Collected<'a>, node: Node<'a>) -> Collected<'a> {
    match node {
        Node::Stmt(s) => match &s.kind {
            StmtKind::Local(l) => if l.ty is Some || (match &l.init {
                Some(init) => init.kind is Lit,
                None => false,
            }) {
                Collected { local: st.local.insert(l.pat.id, l.span), ..st }
            } else {
                st
            },
            _ => st,
        },
        Node::Expr(ex) => match &ex.kind {
            ExprKind::Assign(place, value) => if value.kind is Lit {
                match res_of(place) {
                    Res::Local(id) => Collected { local: st.local.insert(id, ex.span), ..st },
                    _ => st,
                }
            } else {
                st
            },
            ExprKind::Ret(Some(e)) => Collected { rets: st.rets.push(&**e), ..st },
            _ => st,
        },
        Node::Block(b) => Collected {
            visited: st.visited.insert(b.id),
            rets: match &b.expr {
                Some(e) => st.rets.push(e),
                None => st.rets,
            },
            ..st
        },
        Node::Pat(_) => st,
        Node::BlockEnd(_) => st,
        Node::ClosureEnd(_) => st,
    }
}

/// What the first `n` nodes add to `st`.
pub open spec fn collect_scan<'a>(nodes: Seq<Node<'a>>, n: int, st: Collected<'a>) -> Collected<'a>
    decreases n,
{
    if n <= 0 || n > nodes.len() {
        st
    } else {
        collect_step(collect_scan(nodes, n - 1, st), nodes[n - 1])
    }
}

/// What the search of `block` gathers on top of `st`.
pub open spec fn collected<'a>(block: &'a Block, st: Collected<'a>) -> Collected<'a> {
    let nodes = block_events(block, return_descent());
    collect_scan(nodes, nodes.len() as int, st)
}

/// The place whose address the returned expression `ret` is: what a cast
/// to a raw pointer is applied to, under casts, shared borrows and method
/// calls, or the receiver of `as_ptr` or `as_mut_ptr`, under method calls.
pub open spec fn pointee(ret: &Expr) -> Option<&Expr> {
    match &ret.kind {
        ExprKind::Cast(inner, ty) => if ty.kind == TyKind::Ptr {
            Some(without_method_calls(without_refs(without_casts(inner))))
        } else {
            None
        },
        ExprKind::MethodCall(name, _, recv, _) => if name@ == "as_ptr"@ || name@ == "as_mut_ptr"@ {
            Some(without_method_calls(recv))
        } else {
            None
        },
        _ => None,
    }
}

/// Where the local that `place` names was declared, if it is one of the
/// gathered locals and of simple type.
pub open spec fn simple_local_span(place: &Expr, local: Map<u64, Span>) -> Option<Span> {
    match res_of(place) {
        Res::Local(id) => if local.contains_key(id) && place.ty.simple {
            Some(local[id])
        } else {
            None
        },
        _ => None,
    }
}

/// The finding for one returned expression.
pub open spec fn return_finding(ret: &Expr, local: Map<u64, Span>) -> Option<Finding> {
    match pointee(ret) {
        Some(place) => match simple_local_span(place, local) {
            Some(decl) => Some(Finding::noted(FindingKind::ReturnStackAddress, ret.span, decl)),
            None => None,
        },
        None => None,
    }
}

/// The findings for the first `n` returned expressions, in order.
pub open spec fn return_findings(rets: Seq<&Expr>, n: int, local: Map<u64, Span>) -> Seq<Finding>
    decreases n,
{
    if n <= 0 || n > rets.len() {
        Seq::empty()
    } else {
        let before = return_findings(rets, n - 1, local);
        match return_finding(rets[n - 1], local) {
            Some(f) => before.push(f),
            None => before,
        }
    }
}

/// The state of a search that has gathered nothing on top of the blocks
/// that were searched before.
pub open spec fn nothing_collected<'a>(visited: Set<u64>) -> Collected<'a> {
    Collected { local: Map::empty(), rets: Seq::empty(), visited }
}

/// What the block `block` leads to, given the blocks searched before.
pub open spec fn stack_findings(block: &Block, visited: Set<u64>) -> Seq<Finding> {
    if visited.contains(block.id) {
        Seq::empty()
    } else {
        let c = collected(block, nothing_collected(visited));
        return_findings(c.rets, c.rets.len() as int, c.local)
    }
}

/// The blocks searched once `block` was checked.
pub open spec fn visited_after(block: &Block, visited: Set<u64>) -> Set<u64> {
    if visited.contains(block.id) {
        visited
    } else {
        collected(block, nothing_collected(visited)).visited
    }
}

/// The search of one block.
pub struct LocalAndRetCollector<'a> {
    pub local: HashMap<u64, Span>,
    pub rets: Vec<&'a Expr>,
}

impl<'a> LocalAndRetCollector<'a> {
    /// What was gathered so far, with the blocks in `visited`.
    pub open spec fn view_with(&self, visited: Set<u64>) -> Collected<'a> {
        Collected { local: self.local@, rets: self.rets@, visited }
    }

    /// Takes one node into account.
    fn visit(&mut self, node: Node<'a>, visited: &mut HashSet<u64>)
        ensures
            final(self).view_with(final(visited)@) == collect_step(
                old(self).view_with(old(visited)@),
                node,
            ),
    {
        match node {
            Node::Stmt(s) => match &s.kind {
                StmtKind::Local(l) => {
                    let literal = match &l.init {
                        Some(init) => matches!(init.kind, ExprKind::Lit(_)),
                        None => false,
                    };
                    if l.ty.is_some() || literal {
                        self.local.insert(l.pat.id, l.span);
                    }
                },
                _ => {},
            },
            Node::Expr(ex) => match &ex.kind {
                ExprKind::Assign(place, value) => {
                    if matches!(value.kind, ExprKind::Lit(_)) {
                        match path_res(place) {
                            Res::Local(id) => {
                                self.local.insert(id, ex.span);
                            },
                            _ => {},
                        }
                    }
                },
                ExprKind::Ret(Some(e)) => {
                    self.rets.push(e);
                },
                _ => {},
            },
            Node::Block(b) => {
                visited.insert(b.id);
                match &b.expr {
                    Some(e) => {
                        self.rets.push(e);
                    },
                    None => {},
                }
            },
            Node::Pat(_) => {},
            Node::BlockEnd(_) => {},
            Node::ClosureEnd(_) => {},
        }
    }

    /// Searches `block` and the blocks inside it.
    pub fn visit_block(&mut self, block: &'a Block, visited: &mut HashSet<u64>)
        ensures
            final(self).view_with(final(visited)@) == collected(
                block,
                old(self).view_with(old(visited)@),
            ),
    {
        let d = Descent {
            closures: false,
            loops: true,
            returns: false,
            breaks: true,
            literal_assignments: false,
            lets: LetDescent::Skip,
            block_ends: false,
            closure_ends: false,
            expanded: true,
        };
        let mut nodes: Vec<Node<'a>> = Vec::new();
        walk_block(block, &d, &mut nodes);
        assert(nodes@ =~= block_events(block, return_descent()));
        let ghost start = self.view_with(visited@);
        let mut i: usize = 0;
        while i < nodes.len()
            invariant
                i <= nodes.len(),
                self.view_with(visited@) == collect_scan(nodes@, i as int, start),
            decreases nodes.len() - i,
        {
            self.visit(nodes[i], visited);
            i += 1;
        }
    }
}

/// The place whose address `ret` is.
fn pointee_of(ret: &Expr) -> (r: Option<&Expr>)
    ensures
        r == pointee(ret),
{
    match &ret.kind {
        ExprKind::Cast(inner, ty) => match ty.kind {
            TyKind::Ptr => Some(peel_method_calls(peel_refs(peel_casts(inner)))),
            _ => None,
        },
        ExprKind::MethodCall(name, _, recv, _) => {
            if str_eq(name.as_str(), "as_ptr") || str_eq(name.as_str(), "as_mut_ptr") {
                Some(peel_method_calls(recv))
            } else {
                None
            }
        },
        _ => None,
    }
}

/// Where the local that `place` names was declared, if it is one of the
/// gathered locals and of simple type.
pub fn get_simple_local_ty_span(place: &Expr, set: &HashMap<u64, Span>) -> (r: Option<Span>)
    ensures
        r == simple_local_span(place, set@),
{
    match path_res(place) {
        Res::Local(id) => match set.get(&id) {
            Some(span) => if place.ty.simple {
                Some(*span)
            } else {
                None
            },
            None => None,
        },
        _ => None,
    }
}

/// Checks a block, unless it was searched before as part of another.
///
/// Reports every expression that the block can return and that is a
/// pointer to a local of simple type; the note points at the statement
/// that declared the local, or last assigned a literal to it.  The blocks
/// that were searched are added to `visited_blocks`.
pub fn check(block: &Block, visited_blocks: &mut HashSet<u64>) -> (out: Vec<Finding>)
    ensures
        out@ == stack_findings(block, old(visited_blocks)@),
        final(visited_blocks)@ == visited_after(block, old(visited_blocks)@),
{
    let mut out: Vec<Finding> = Vec::new();
    if visited_blocks.contains(&block.id) {
        return out;
    }
    let mut collector = LocalAndRetCollector { local: HashMap::new(), rets: Vec::new() };
    assert(collector.view_with(visited_blocks@) == nothing_collected(visited_blocks@)) by {
        assert(collector.local@ =~= Map::<u64, Span>::empty());
        assert(collector.rets@ =~= Seq::<&Expr>::empty());
    }
    collector.visit_block(block, visited_blocks);
    let mut n: usize = 0;
    while n < collector.rets.len()
        invariant
            n <= collector.rets.len(),
            out@ == return_findings(collector.rets@, n as int, collector.local@),
        decreases collector.rets.len() - n,
    {
        let ret = collector.rets[n];
        match pointee_of(ret) {
            Some(place) => match get_simple_local_ty_span(place, &collector.local) {
                Some(decl) => {
                    out.push(Finding::with_note(FindingKind::ReturnStackAddress, ret.span, decl));
                },
                None => {},
            },
            None => {},
        }
        n += 1;
    }
    out
}

} // verus!
