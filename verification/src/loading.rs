//! Loading a dynamic library from a path that came out of an untrusted
//! read.
//!
//! The binding that names the library is looked up in the first argument
//! of the loader call.  The statements of the blocks around its
//! declaration that stand before the call are then searched for a read
//! that feeds it: a `let` that initialises the binding from an IO call, or
//! a statement with an IO call that the binding is handed to.  An IO call
//! on other data feeds nothing.  The statements searched are those of the
//! block itself and those of the `else` blocks of its `let` statements;
//! within the expression of a statement every expression outside
//! closures is looked at.

use std::collections::HashSet;
use vstd::prelude::*;
use crate::finding::{Finding, FindingKind};
use crate::resolve::{callee_of, local_of, path_to_local, resolve_callee};
use crate::span::Span;
use crate::tree::{Block, Expr, Local, Stmt, StmtKind};
use crate::walk::{expr_events, walk_expr, Descent, Node};

verus! {

broadcast use vstd::std_specs::hash::group_hash_axioms;

/// Whether the node is a call of one of the IO functions.
pub open spec fn is_io_call(node: Node, io: Set<u64>) -> bool {
    match node {
        Node::Expr(ex) => match callee_of(ex) {
            Some(f) => io.contains(f),
            None => false,
        },
        _ => false,
    }
}

/// The range of the node.
pub open spec fn node_span(node: Node) -> Span {
    match node {
        Node::Expr(ex) => ex.span,
        Node::Stmt(s) => s.span,
        Node::Block(b) => b.span,
        Node::Pat(p) => p.span,
        Node::BlockEnd(b) => b.span,
        Node::ClosureEnd(e) => e.span,
    }
}

/// The local that the node names directly.
pub open spec fn node_local(node: Node) -> Option<u64> {
    match node {
        Node::Expr(ex) => local_of(ex),
        _ => None,
    }
}

/// The first IO call among the nodes from `from` on.
pub open spec fn first_io_call(nodes: Seq<Node>, from: int, io: Set<u64>) -> Option<Span>
    decreases nodes.len() - from,
{
    if from < 0 || from >= nodes.len() {
        None
    } else if is_io_call(nodes[from], io) {
        Some(node_span(nodes[from]))
    } else {
        first_io_call(nodes, from + 1, io)
    }
}

/// The first local that is named among the nodes from `from` on.
pub open spec fn first_local(nodes: Seq<Node>, from: int) -> Option<u64>
    decreases nodes.len() - from,
{
    if from < 0 || from >= nodes.len() {
        None
    } else if node_local(nodes[from]) is Some {
        node_local(nodes[from])
    } else {
        first_local(nodes, from + 1)
    }
}

/// Whether one of the first `n` nodes names the binding `hid`.
pub open spec fn names_among(nodes: Seq<Node>, n: int, hid: u64) -> bool {
    exists|i: int| 0 <= i < n && i < nodes.len() && node_local(#[trigger] nodes[i]) == Some(hid)
}

/// Whether the expression `e` names the binding `hid` somewhere, outside
/// closures.
pub open spec fn names_binding(e: &Expr, hid: u64) -> bool {
    let nodes = expr_events(e, Descent::spec_outside_closures());
    names_among(nodes, nodes.len() as int, hid)
}

/// Whether the node is an IO call that the binding `hid` is handed to:
/// a call of one of the IO functions that names the binding as its
/// receiver or among its arguments, at any depth.
pub open spec fn is_io_use(node: Node, hid: u64, io: Set<u64>) -> bool {
    match node {
        Node::Expr(ex) => is_io_call(node, io) && names_binding(ex, hid),
        _ => false,
    }
}

/// The first IO call among the nodes from `from` on that the binding is
/// handed to.
pub open spec fn first_io_use(nodes: Seq<Node>, from: int, hid: u64, io: Set<u64>) -> Option<Span>
    decreases nodes.len() - from,
{
    if from < 0 || from >= nodes.len() {
        None
    } else if is_io_use(nodes[from], hid, io) {
        Some(node_span(nodes[from]))
    } else {
        first_io_use(nodes, from + 1, hid, io)
    }
}

/// The IO call in the expression `e` that feeds the binding: the first,
/// in walk order and outside closures, that the binding is handed to.
pub open spec fn expr_source(e: &Expr, hid: u64, io: Set<u64>) -> Option<Span> {
    first_io_use(expr_events(e, Descent::spec_outside_closures()), 0, hid, io)
}

/// The IO call that the `let` initialises the binding from: the first in
/// the walk of its initialiser, where its pattern has the identity `hid`.
pub open spec fn let_source(l: &Local, hid: u64, io: Set<u64>) -> Option<Span> {
    match &l.init {
        Some(init) => if l.pat.id == hid {
            first_io_call(expr_events(init, Descent::spec_outside_closures()), 0, io)
        } else {
            None
        },
        None => None,
    }
}

/// What is known behind one statement, where `found` was known before
/// it: the IO call that feeds the binding.  A statement that does not
/// stand before `stop` is passed over.  A statement that feeds the
/// binding replaces what was known; a `let` that does not hands what was
/// known on through the statements of its `else` block.
pub open spec fn io_stmt_step(
    s: &Stmt,
    hid: u64,
    io: Set<u64>,
    stop: Span,
    found: Option<Span>,
) -> Option<Span>
    decreases s, 0nat,
{
    if !s.span.before(stop) {
        found
    } else {
        match &s.kind {
            StmtKind::Local(l) => match let_source(l, hid, io) {
                Some(at) => Some(at),
                None => match &l.els {
                    Some(b) => io_stmts_scan(&b.stmts, b.stmts@.len(), hid, io, stop, found),
                    None => found,
                },
            },
            StmtKind::Expr(e) => match expr_source(e, hid, io) {
                Some(at) => Some(at),
                None => found,
            },
            StmtKind::Semi(e) => match expr_source(e, hid, io) {
                Some(at) => Some(at),
                None => found,
            },
            StmtKind::Item => found,
        }
    }
}

/// What is known behind the first `n` statements, where `found` was known
/// before them.
pub open spec fn io_stmts_scan(
    stmts: &Vec<Stmt>,
    n: nat,
    hid: u64,
    io: Set<u64>,
    stop: Span,
    found: Option<Span>,
) -> Option<Span>
    decreases stmts, n,
{
    if n == 0 || n > stmts@.len() {
        found
    } else {
        io_stmt_step(
            &stmts[n - 1],
            hid,
            io,
            stop,
            io_stmts_scan(stmts, (n - 1) as nat, hid, io, stop, found),
        )
    }
}

/// The IO call in the block that feeds the binding: that of the last
/// statement before `stop` that feeds it.
pub open spec fn block_io_call(b: &Block, hid: u64, io: Set<u64>, stop: Span) -> Option<Span> {
    io_stmts_scan(&b.stmts, b.stmts@.len(), hid, io, stop, None)
}

/// The IO call that feeds the binding in the first of the blocks, from
/// `from` on, that has one.
pub open spec fn first_io_source(
    blocks: Seq<&Block>,
    from: int,
    hid: u64,
    io: Set<u64>,
    stop: Span,
) -> Option<Span>
    decreases blocks.len() - from,
{
    if from < 0 || from >= blocks.len() {
        None
    } else {
        match block_io_call(blocks[from], hid, io, stop) {
            Some(at) => Some(at),
            None => first_io_source(blocks, from + 1, hid, io, stop),
        }
    }
}

/// The binding that the first argument of a loader call names: the first
/// local in its walk.
pub open spec fn loaded_binding(params: Seq<Expr>) -> Option<u64> {
    if params.len() == 0 {
        None
    } else {
        first_local(expr_events(&params[0], Descent::spec_outside_closures()), 0)
    }
}

/// What the loader call `call` leads to.
pub open spec fn loading_finding(
    call: &Expr,
    params: Seq<Expr>,
    io: Set<u64>,
    ancestors: Seq<&Block>,
) -> Option<Finding> {
    match loaded_binding(params) {
        Some(hid) => match first_io_source(ancestors, 0, hid, io, call.span) {
            Some(at) => Some(Finding::noted(FindingKind::UntrustedLibLoading, call.span, at)),
            None => None,
        },
        None => None,
    }
}

/// Whether the node calls one of the IO functions.
fn node_is_io_call(node: &Node, io: &HashSet<u64>) -> (b: bool)
    ensures
        b == is_io_call(*node, io@),
{
    match node {
        Node::Expr(ex) => match resolve_callee(ex) {
            Some(f) => io.contains(&f),
            None => false,
        },
        _ => false,
    }
}

/// The local that the node names directly.
pub fn get_resolved_path_id(node: &Node) -> (r: Option<u64>)
    ensures
        r == node_local(*node),
{
    match node {
        Node::Expr(ex) => path_to_local(ex),
        _ => None,
    }
}

/// Whether the expression names the binding `hid` somewhere, outside
/// closures.
pub fn expr_names_binding(e: &Expr, hid: u64) -> (b: bool)
    ensures
        b == names_binding(e, hid),
{
    let d = Descent::outside_closures();
    let mut nodes: Vec<Node> = Vec::new();
    walk_expr(e, &d, &mut nodes);
    assert(nodes@ =~= expr_events(e, d));
    let mut i: usize = 0;
    while i < nodes.len()
        invariant
            i <= nodes.len(),
            nodes@ == expr_events(e, Descent::spec_outside_closures()),
            !names_among(nodes@, i as int, hid),
        decreases nodes.len() - i,
    {
        let hit = match get_resolved_path_id(&nodes[i]) {
            Some(id) => id == hid,
            None => false,
        };
        if hit {
            return true;
        }
        i += 1;
    }
    false
}

/// The first IO call in the walk of `e`.
fn first_io_call_in(e: &Expr, io: &HashSet<u64>) -> (r: Option<Span>)
    ensures
        r == first_io_call(expr_events(e, Descent::spec_outside_closures()), 0, io@),
{
    let d = Descent::outside_closures();
    let mut nodes: Vec<Node> = Vec::new();
    walk_expr(e, &d, &mut nodes);
    assert(nodes@ =~= expr_events(e, d));
    let mut i: usize = 0;
    while i < nodes.len()
        invariant
            i <= nodes.len(),
            nodes@ == expr_events(e, Descent::spec_outside_closures()),
            first_io_call(nodes@, i as int, io@) == first_io_call(nodes@, 0, io@),
        decreases nodes.len() - i,
    {
        if node_is_io_call(&nodes[i], io) {
            match nodes[i] {
                Node::Expr(ex) => {
                    return Some(ex.span);
                },
                _ => {},
            }
        }
        i += 1;
    }
    None
}

/// The IO call in `e` that feeds the binding `hid`.
pub fn find_expr_source(e: &Expr, hid: u64, io: &HashSet<u64>) -> (r: Option<Span>)
    ensures
        r == expr_source(e, hid, io@),
{
    let d = Descent::outside_closures();
    let mut nodes: Vec<Node> = Vec::new();
    walk_expr(e, &d, &mut nodes);
    assert(nodes@ =~= expr_events(e, d));
    let mut i: usize = 0;
    while i < nodes.len()
        invariant
            i <= nodes.len(),
            nodes@ == expr_events(e, Descent::spec_outside_closures()),
            first_io_use(nodes@, i as int, hid, io@) == first_io_use(nodes@, 0, hid, io@),
        decreases nodes.len() - i,
    {
        if node_is_io_call(&nodes[i], io) {
            match nodes[i] {
                Node::Expr(ex) => {
                    if expr_names_binding(ex, hid) {
                        return Some(ex.span);
                    }
                },
                _ => {},
            }
        }
        i += 1;
    }
    None
}

/// The search of one block for the read that feeds a binding.
pub struct IOFinder<'a> {
    pub io_functions: &'a HashSet<u64>,
    /// Statements that do not stand before this range are passed over.
    pub stop_span: Span,
    /// The IO call that feeds the binding, once one was found.
    pub call_span: Option<Span>,
    /// The identity of the binding.
    pub hid: u64,
}

impl<'a> IOFinder<'a> {
    /// Takes one statement into account.
    pub fn visit_stmt(&mut self, stmt: &Stmt)
        ensures
            final(self).call_span == io_stmt_step(
                stmt,
                old(self).hid,
                old(self).io_functions@,
                old(self).stop_span,
                old(self).call_span,
            ),
            final(self).io_functions == old(self).io_functions,
            final(self).stop_span == old(self).stop_span,
            final(self).hid == old(self).hid,
        decreases stmt, 0nat,
    {
        if !stmt.span.precedes(self.stop_span) {
            return ;
        }
        match &stmt.kind {
            StmtKind::Local(l) => {
                let source = match &l.init {
                    Some(init) => if l.pat.id == self.hid {
                        first_io_call_in(init, self.io_functions)
                    } else {
                        None
                    },
                    None => None,
                };
                match source {
                    Some(at) => {
                        self.call_span = Some(at);
                    },
                    None => match &l.els {
                        Some(b) => {
                            self.visit_stmts(&b.stmts);
                        },
                        None => {},
                    },
                }
            },
            StmtKind::Expr(e) => {
                self.visit_stmt_expr(e);
            },
            StmtKind::Semi(e) => {
                self.visit_stmt_expr(e);
            },
            StmtKind::Item => {},
        }
    }

    /// Takes the expression of one statement into account.
    fn visit_stmt_expr(&mut self, e: &Expr)
        ensures
            final(self).call_span == (match expr_source(
                e,
                old(self).hid,
                old(self).io_functions@,
            ) {
                Some(at) => Some(at),
                None => old(self).call_span,
            }),
            final(self).io_functions == old(self).io_functions,
            final(self).stop_span == old(self).stop_span,
            final(self).hid == old(self).hid,
    {
        match find_expr_source(e, self.hid, self.io_functions) {
            Some(at) => {
                self.call_span = Some(at);
            },
            None => {},
        }
    }

    /// Takes the statements of a list into account, in order.
    fn visit_stmts(&mut self, stmts: &Vec<Stmt>)
        ensures
            final(self).call_span == io_stmts_scan(
                stmts,
                stmts@.len(),
                old(self).hid,
                old(self).io_functions@,
                old(self).stop_span,
                old(self).call_span,
            ),
            final(self).io_functions == old(self).io_functions,
            final(self).stop_span == old(self).stop_span,
            final(self).hid == old(self).hid,
        decreases stmts, stmts@.len(),
    {
        let mut n: usize = 0;
        while n < stmts.len()
            invariant
                n <= stmts.len(),
                self.io_functions == old(self).io_functions,
                self.stop_span == old(self).stop_span,
                self.hid == old(self).hid,
                self.call_span == io_stmts_scan(
                    stmts,
                    n as nat,
                    self.hid,
                    self.io_functions@,
                    self.stop_span,
                    old(self).call_span,
                ),
            decreases stmts.len() - n,
        {
            self.visit_stmt(&stmts[n]);
            n += 1;
        }
    }

    /// Searches the statements of `block`, in order, and with them the
    /// statements of the `else` blocks of its `let` statements.
    pub fn visit_block(&mut self, block: &Block)
        ensures
            final(self).call_span == io_stmts_scan(
                &block.stmts,
                block.stmts@.len(),
                old(self).hid,
                old(self).io_functions@,
                old(self).stop_span,
                old(self).call_span,
            ),
            final(self).io_functions == old(self).io_functions,
            final(self).stop_span == old(self).stop_span,
            final(self).hid == old(self).hid,
    {
        self.visit_stmts(&block.stmts);
    }
}

/// The first local named in the walk of `e`.
pub fn first_local_in(e: &Expr) -> (r: Option<u64>)
    ensures
        r == first_local(expr_events(e, Descent::spec_outside_closures()), 0),
{
    let d = Descent::outside_closures();
    let mut nodes: Vec<Node> = Vec::new();
    walk_expr(e, &d, &mut nodes);
    assert(nodes@ =~= expr_events(e, d));
    let mut i: usize = 0;
    while i < nodes.len()
        invariant
            i <= nodes.len(),
            nodes@ == expr_events(e, Descent::spec_outside_closures()),
            first_local(nodes@, i as int) == first_local(nodes@, 0),
        decreases nodes.len() - i,
    {
        let named = get_resolved_path_id(&nodes[i]);
        if named.is_some() {
            return named;
        }
        i += 1;
    }
    None
}

/// Checks a call of a library loader.
///
/// `params` are the arguments of `call`, `ancestors` the blocks around the
/// declaration of the binding that the first argument names, innermost
/// first.  The call is reported where, in the first of these blocks that
/// has one, a statement before the loader call feeds the binding from an
/// IO call; the note points at that IO call.
pub fn check_expr(
    call: &Expr,
    params: &Vec<Expr>,
    io_functions: &HashSet<u64>,
    ancestors: &Vec<&Block>,
) -> (f: Option<Finding>)
    ensures
        f == loading_finding(call, params@, io_functions@, ancestors@),
{
    if params.len() == 0 {
        return None;
    }
    let hid = match first_local_in(&params[0]) {
        Some(hid) => hid,
        None => {
            return None;
        },
    };
    let mut k: usize = 0;
    while k < ancestors.len()
        invariant
            k <= ancestors.len(),
            params@.len() > 0,
            loaded_binding(params@) == Some(hid),
            first_io_source(ancestors@, k as int, hid, io_functions@, call.span)
                == first_io_source(ancestors@, 0, hid, io_functions@, call.span),
        decreases ancestors.len() - k,
    {
        let mut finder = IOFinder { io_functions, stop_span: call.span, call_span: None, hid };
        finder.visit_block(ancestors[k]);
        match finder.call_span {
            Some(at) => {
                return Some(Finding::with_note(FindingKind::UntrustedLibLoading, call.span, at));
            },
            None => {},
        }
        k += 1;
    }
    None
}

/// Scope isolation: an IO call on other data never counts for the
/// binding.  Where no IO call among the nodes names the binding, nothing
/// feeds it, whatever those calls read and whatever else names it.
pub proof fn lemma_other_bindings_feed_nothing(nodes: Seq<Node>, from: int, hid: u64, io: Set<u64>)
    requires
        forall|i: int|
            0 <= i < nodes.len() ==> (match #[trigger] nodes[i] {
                Node::Expr(c) => is_io_call(nodes[i], io) ==> !names_binding(c, hid),
                _ => true,
            }),
    ensures
        first_io_use(nodes, from, hid, io) is None,
    decreases nodes.len() - from,
{
    if 0 <= from < nodes.len() {
        lemma_other_bindings_feed_nothing(nodes, from + 1, hid, io);
    }
}

/// Without a call of an IO function nothing feeds the binding.
pub proof fn lemma_no_io_call_feeds_nothing(nodes: Seq<Node>, from: int, hid: u64, io: Set<u64>)
    requires
        forall|i: int| 0 <= i < nodes.len() ==> !is_io_call(#[trigger] nodes[i], io),
    ensures
        first_io_use(nodes, from, hid, io) is None,
    decreases nodes.len() - from,
{
    if 0 <= from < nodes.len() {
        lemma_no_io_call_feeds_nothing(nodes, from + 1, hid, io);
    }
}

} // verus!
