//! Fallible memory allocation, recognised by name.
//!
//! This check needs no configured functions: a call counts as an
//! allocation where a name in its callee begins with `with_capacity`,
//! `malloc` or `allocate`.  The blocks around the call are then searched
//! for a comparison of the size, or a name that holds `MAX`, `max` or
//! `min`, and for a name that holds `is_null`.

use vstd::prelude::*;
use crate::finding::{Finding, FindingKind};
use crate::resolve::{local_of, path_to_local};
use crate::span::Span;
use crate::text::{chars_of, contains, occurs_at, seq_contains, starts_with, is_null_marker};
use crate::tree::{BinOp, Block, Expr, ExprKind};
use crate::walk::{block_events, expr_events, walk_block, walk_expr, Descent, Node};

verus! {

/// The names that stand at a node: the segments of a path, the name of a
/// method or a field, the names in a pattern.
pub open spec fn node_names(node: Node) -> Seq<String> {
    match node {
        Node::Expr(ex) => match &ex.kind {
            ExprKind::Path(p) => p.segments@,
            ExprKind::MethodCall(name, _, _, _) => seq![*name],
            ExprKind::Field(_, name) => seq![*name],
            ExprKind::Other(names, _) => names@,
            _ => Seq::empty(),
        },
        Node::Pat(p) => p.names@,
        _ => Seq::empty(),
    }
}

/// What a name says of the function it names: `Some(false)` for one that
/// allocates a collection, `Some(true)` for one that returns a pointer,
/// `None` for any other.
pub open spec fn alloc_kind_of(name: Seq<char>) -> Option<bool> {
    if occurs_at(name, "with_capacity"@, 0) {
        Some(false)
    } else if occurs_at(name, "malloc"@, 0) || occurs_at(name, "allocate"@, 0) {
        Some(true)
    } else {
        None
    }
}

/// What the first of the names from `from` on that says something says.
pub open spec fn alloc_kind_in(names: Seq<String>, from: int) -> Option<bool>
    decreases names.len() - from,
{
    if from < 0 || from >= names.len() {
        None
    } else if alloc_kind_of(names[from]@) is Some {
        alloc_kind_of(names[from]@)
    } else {
        alloc_kind_in(names, from + 1)
    }
}

/// What the first name at the nodes from `from` on that says something
/// says.
pub open spec fn alloc_kind_among(nodes: Seq<Node>, from: int) -> Option<bool>
    decreases nodes.len() - from,
{
    if from < 0 || from >= nodes.len() {
        None
    } else if alloc_kind_in(node_names(nodes[from]), 0) is Some {
        alloc_kind_in(node_names(nodes[from]), 0)
    } else {
        alloc_kind_among(nodes, from + 1)
    }
}

/// What the callee `func` says of the call.
pub open spec fn alloc_kind(func: &Expr) -> Option<bool> {
    alloc_kind_among(expr_events(func, Descent::spec_outside_closures()), 0)
}

/// Whether the name marks a bound: it holds `MAX`, `max` or `min`.
pub open spec fn names_bound(name: Seq<char>) -> bool {
    seq_contains(name, "MAX"@) || seq_contains(name, "max"@) || seq_contains(name, "min"@)
}

/// Whether one of the first `n` names marks a bound.
pub open spec fn bound_in(names: Seq<String>, n: int) -> bool {
    exists|k: int| 0 <= k < n && k < names.len() && names_bound(#[trigger] names[k]@)
}

/// Whether one of the first `n` names holds `is_null`.
pub open spec fn null_check_in(names: Seq<String>, n: int) -> bool {
    exists|k: int|
        0 <= k < n && k < names.len() && seq_contains(#[trigger] names[k]@, is_null_marker())
}

/// Whether the node compares the size `id`, as left operand, with
/// something.
pub open spec fn compares_size(node: Node, id: u64) -> bool {
    match node {
        Node::Expr(ex) => match &ex.kind {
            ExprKind::Binary(op, l, _) => local_of(l) == Some(id) && (*op == BinOp::Le || *op
                == BinOp::Lt || *op == BinOp::Eq || *op == BinOp::Ge || *op == BinOp::Gt),
            _ => false,
        },
        _ => false,
    }
}

/// Whether the node bounds the size: it compares the size, where there is
/// one, or a name at it marks a bound.
pub open spec fn bounds_size(node: Node, size: Option<u64>) -> bool {
    (match size {
        Some(id) => compares_size(node, id),
        None => false,
    }) || bound_in(node_names(node), node_names(node).len() as int)
}

/// Whether a name at the node holds `is_null`.
pub open spec fn checks_null(node: Node) -> bool {
    null_check_in(node_names(node), node_names(node).len() as int)
}

/// Whether one of the first `n` nodes bounds the size.
pub open spec fn bound_among(nodes: Seq<Node>, n: int, size: Option<u64>) -> bool {
    exists|i: int| 0 <= i < n && i < nodes.len() && bounds_size(#[trigger] nodes[i], size)
}

/// Whether a name at one of the first `n` nodes holds `is_null`.
pub open spec fn null_check_among(nodes: Seq<Node>, n: int) -> bool {
    exists|i: int| 0 <= i < n && i < nodes.len() && checks_null(#[trigger] nodes[i])
}

/// Whether something in the block bounds the size.
pub open spec fn block_bounds_size(b: &Block, size: Option<u64>) -> bool {
    let nodes = block_events(b, Descent::spec_outside_closures());
    bound_among(nodes, nodes.len() as int, size)
}

/// Whether a name in the block holds `is_null`.
pub open spec fn block_checks_null(b: &Block) -> bool {
    let nodes = block_events(b, Descent::spec_outside_closures());
    null_check_among(nodes, nodes.len() as int)
}

/// Whether something in one of the first `n` blocks bounds the size.
pub open spec fn size_bounded(blocks: Seq<&Block>, n: int, size: Option<u64>) -> bool {
    exists|k: int| 0 <= k < n && k < blocks.len() && block_bounds_size(#[trigger] blocks[k], size)
}

/// Whether a name in one of the first `n` blocks holds `is_null`.
pub open spec fn null_checked(blocks: Seq<&Block>, n: int) -> bool {
    exists|k: int| 0 <= k < n && k < blocks.len() && block_checks_null(#[trigger] blocks[k])
}

/// The size of the allocation: the only argument, where it is a plain
/// path to a local.
pub open spec fn named_size(params: Seq<Expr>) -> Option<(u64, Span)> {
    if params.len() == 1 {
        match local_of(&params[0]) {
            Some(id) => Some((id, params[0].span)),
            None => None,
        }
    } else {
        None
    }
}

/// The identity of a size.
pub open spec fn size_id(size: Option<(u64, Span)>) -> Option<u64> {
    match size {
        Some((id, _)) => Some(id),
        None => None,
    }
}

/// What a call leads to, given the blocks around it.
pub open spec fn named_alloc_findings(expr: &Expr, ancestors: Seq<&Block>) -> Seq<Finding> {
    match &expr.kind {
        ExprKind::Call(func, params) => match alloc_kind(func) {
            Some(ptr) => {
                let size = named_size(params@);
                let bounded = size_bounded(ancestors, ancestors.len() as int, size_id(size));
                let checked = null_checked(ancestors, ancestors.len() as int);
                (match size {
                    Some((_, at)) => if bounded {
                        Seq::empty()
                    } else {
                        seq![Finding::noted(FindingKind::UnverifiedAllocSize, expr.span, at)]
                    },
                    None => Seq::empty(),
                }) + (if ptr && !checked {
                    seq![Finding::plain(FindingKind::UncheckedAllocResult, expr.span)]
                } else {
                    Seq::empty()
                })
            },
            None => Seq::empty(),
        },
        _ => Seq::empty(),
    }
}

/// Whether `name` begins with `prefix`.
fn begins_with(name: &Vec<char>, prefix: &str) -> (b: bool)
    ensures
        b == occurs_at(name@, prefix@, 0),
{
    let p = chars_of(prefix);
    starts_with(name, &p)
}

/// Whether `part` stands in `name`.
fn holds(name: &Vec<char>, part: &str) -> (b: bool)
    ensures
        b == seq_contains(name@, part@),
{
    let p = chars_of(part);
    contains(name, &p)
}

/// The names that stand at a node.
fn names_at<'a>(node: &Node<'a>) -> (r: Option<&'a Vec<String>>)
    ensures
        r matches Some(v) ==> v@ == node_names(*node),
        r is None ==> (match *node {
            Node::Expr(ex) => ex.kind is MethodCall || ex.kind is Field || node_names(*node)
                == Seq::<String>::empty(),
            _ => node_names(*node) == Seq::<String>::empty(),
        }),
{
    match node {
        Node::Expr(ex) => match &ex.kind {
            ExprKind::Path(p) => Some(&p.segments),
            ExprKind::Other(names, _) => Some(names),
            _ => None,
        },
        Node::Pat(p) => Some(&p.names),
        _ => None,
    }
}

/// The one name that stands at a method call or a field access.
fn single_name_at<'a>(node: &Node<'a>) -> (r: Option<&'a String>)
    ensures
        r matches Some(s) ==> node_names(*node) == seq![*s],
        r is None ==> (match *node {
            Node::Expr(ex) => !(ex.kind is MethodCall || ex.kind is Field),
            _ => true,
        }),
{
    match node {
        Node::Expr(ex) => match &ex.kind {
            ExprKind::MethodCall(name, _, _, _) => Some(name),
            ExprKind::Field(_, name) => Some(name),
            _ => None,
        },
        _ => None,
    }
}

/// The search for the name that makes a call an allocation.
pub struct NameFinder {
    pub find: bool,
    pub ptr: bool,
}

impl NameFinder {
    /// What the finder knows, as what a name says.
    pub open spec fn found(&self) -> Option<bool> {
        if self.find {
            Some(self.ptr)
        } else {
            None
        }
    }

    /// Takes one name into account: the first name that says something
    /// decides.
    pub fn visit_ident(&mut self, ident: &str)
        ensures
            final(self).found() == (if old(self).find {
                old(self).found()
            } else {
                alloc_kind_of(ident@)
            }),
    {
        if !self.find {
            let name = chars_of(ident);
            if begins_with(&name, "with_capacity") {
                self.find = true;
                self.ptr = false;
            } else if begins_with(&name, "malloc") || begins_with(&name, "allocate") {
                self.find = true;
                self.ptr = true;
            }
        }
    }

    /// Takes the names of a list into account.
    fn visit_names(&mut self, names: &Vec<String>)
        ensures
            final(self).found() == (if old(self).find {
                old(self).found()
            } else {
                alloc_kind_in(names@, 0)
            }),
    {
        let ghost start = self.found();
        let mut k: usize = 0;
        while k < names.len()
            invariant
                k <= names.len(),
                start == old(self).found(),
                start is Some ==> self.found() == start,
                start is None ==> (if self.find {
                    self.found() == alloc_kind_in(names@, 0)
                } else {
                    alloc_kind_in(names@, k as int) == alloc_kind_in(names@, 0)
                }),
            decreases names.len() - k,
        {
            self.visit_ident(names[k].as_str());
            k += 1;
        }
    }

    /// Takes the names at a node into account.
    fn visit_node(&mut self, node: &Node)
        ensures
            final(self).found() == (if old(self).find {
                old(self).found()
            } else {
                alloc_kind_in(node_names(*node), 0)
            }),
    {
        match names_at(node) {
            Some(names) => {
                self.visit_names(names);
            },
            None => match single_name_at(node) {
                Some(name) => {
                    self.visit_ident(name.as_str());
                    assert(alloc_kind_in(seq![*name], 1) is None);
                },
                None => {},
            },
        }
    }

    /// Searches the callee `func`.
    pub fn visit_expr(&mut self, func: &Expr)
        ensures
            final(self).found() == (if old(self).find {
                old(self).found()
            } else {
                alloc_kind(func)
            }),
    {
        let d = Descent::outside_closures();
        let mut nodes: Vec<Node> = Vec::new();
        walk_expr(func, &d, &mut nodes);
        assert(nodes@ =~= expr_events(func, d));
        let mut i: usize = 0;
        while i < nodes.len()
            invariant
                i <= nodes.len(),
                nodes@ == expr_events(func, Descent::spec_outside_closures()),
                old(self).find ==> self.found() == old(self).found(),
                !old(self).find ==> (if self.find {
                    self.found() == alloc_kind_among(nodes@, 0)
                } else {
                    alloc_kind_among(nodes@, i as int) == alloc_kind_among(nodes@, 0)
                }),
            decreases nodes.len() - i,
        {
            self.visit_node(&nodes[i]);
            i += 1;
        }
    }
}

/// The search for what bounds a size and checks a pointer.
pub struct MaxNullFinder {
    pub id: Option<(u64, Span)>,
    pub max_find: bool,
    pub null_find: bool,
}

/// Whether one of the names marks a bound, and whether one holds
/// `is_null`.
fn scan_names(names: &Vec<String>) -> (r: (bool, bool))
    ensures
        r.0 == bound_in(names@, names@.len() as int),
        r.1 == null_check_in(names@, names@.len() as int),
{
    let mut bound = false;
    let mut null = false;
    let mut k: usize = 0;
    while k < names.len()
        invariant
            k <= names.len(),
            bound == bound_in(names@, k as int),
            null == null_check_in(names@, k as int),
        decreases names.len() - k,
    {
        let r = scan_name(names[k].as_str());
        if r.0 {
            bound = true;
        }
        if r.1 {
            null = true;
        }
        k += 1;
    }
    (bound, null)
}

/// Whether the name marks a bound, and whether it holds `is_null`.
fn scan_name(ident: &str) -> (r: (bool, bool))
    ensures
        r.0 == names_bound(ident@),
        r.1 == seq_contains(ident@, is_null_marker()),
{
    let name = chars_of(ident);
    let bound = holds(&name, "MAX") || holds(&name, "max") || holds(&name, "min");
    proof {
        reveal_strlit("is_null");
        assert("is_null"@ =~= is_null_marker());
    }
    let null = holds(&name, "is_null");
    (bound, null)
}

impl MaxNullFinder {
    /// Whether the node bounds the size, and whether a name at it holds
    /// `is_null`.
    fn scan_node(&self, node: &Node) -> (r: (bool, bool))
        ensures
            r.0 == bounds_size(*node, size_id(self.id)),
            r.1 == checks_null(*node),
    {
        let compared = match (self.id, node) {
            (Some((id, _)), Node::Expr(ex)) => match &ex.kind {
                ExprKind::Binary(op, l, _) => {
                    let named = match path_to_local(l) {
                        Some(found) => found == id,
                        None => false,
                    };
                    named && (match op {
                        BinOp::Le => true,
                        BinOp::Lt => true,
                        BinOp::Eq => true,
                        BinOp::Ge => true,
                        BinOp::Gt => true,
                        _ => false,
                    })
                },
                _ => false,
            },
            _ => false,
        };
        let (bound, null) = match names_at(node) {
            Some(names) => scan_names(names),
            None => match single_name_at(node) {
                Some(name) => {
                    let r = scan_name(name.as_str());
                    proof {
                        let names = seq![*name];
                        assert(names[0] == *name);
                        if r.0 {
                            assert(names_bound(names[0]@));
                        }
                        if r.1 {
                            assert(seq_contains(names[0]@, is_null_marker()));
                        }
                    }
                    r
                },
                None => (false, false),
            },
        };
        (compared || bound, null)
    }

    /// Searches one block.  What was found stays found.
    pub fn visit_block(&mut self, block: &Block)
        ensures
            final(self).id == old(self).id,
            final(self).max_find == (old(self).max_find || block_bounds_size(
                block,
                size_id(old(self).id),
            )),
            final(self).null_find == (old(self).null_find || block_checks_null(block)),
    {
        let d = Descent::outside_closures();
        let mut nodes: Vec<Node> = Vec::new();
        walk_block(block, &d, &mut nodes);
        assert(nodes@ =~= block_events(block, d));
        let mut bound = false;
        let mut null = false;
        let mut i: usize = 0;
        while i < nodes.len()
            invariant
                i <= nodes.len(),
                self.id == old(self).id,
                self.max_find == old(self).max_find,
                self.null_find == old(self).null_find,
                bound == bound_among(nodes@, i as int, size_id(self.id)),
                null == null_check_among(nodes@, i as int),
            decreases nodes.len() - i,
        {
            let r = self.scan_node(&nodes[i]);
            if r.0 {
                bound = true;
            }
            if r.1 {
                null = true;
            }
            i += 1;
        }
        if bound {
            self.max_find = true;
        }
        if null {
            self.null_find = true;
        }
    }
}

/// Checks a call; `ancestors` are the blocks around it.
///
/// Where the call is an allocation by name: its size, where that is a
/// local, is reported unless something in those blocks bounds it, and its
/// result, where the name says that it returns a pointer, unless a name
/// in those blocks holds `is_null`.
pub fn check_expr(expr: &Expr, ancestors: &Vec<&Block>) -> (out: Vec<Finding>)
    ensures
        out@ == named_alloc_findings(expr, ancestors@),
{
    let mut out: Vec<Finding> = Vec::new();
    let (func, params) = match &expr.kind {
        ExprKind::Call(func, params) => (func, params),
        _ => {
            return out;
        },
    };
    let mut finder = NameFinder { find: false, ptr: false };
    finder.visit_expr(func);
    if !finder.find {
        return out;
    }
    let ptr = finder.ptr;
    let size: Option<(u64, Span)> = if params.len() == 1 {
        match path_to_local(&params[0]) {
            Some(id) => Some((id, params[0].span)),
            None => None,
        }
    } else {
        None
    };
    let mut finder = MaxNullFinder { id: size, max_find: false, null_find: false };
    let mut k: usize = 0;
    while k < ancestors.len()
        invariant
            k <= ancestors.len(),
            finder.id == size,
            finder.max_find == size_bounded(ancestors@, k as int, size_id(size)),
            finder.null_find == null_checked(ancestors@, k as int),
        decreases ancestors.len() - k,
    {
        finder.visit_block(ancestors[k]);
        k += 1;
    }
    match size {
        Some((_, at)) => {
            if !finder.max_find {
                out.push(Finding::with_note(FindingKind::UnverifiedAllocSize, expr.span, at));
            }
        },
        None => {},
    }
    if ptr && !finder.null_find {
        out.push(Finding::new(FindingKind::UncheckedAllocResult, expr.span));
    }
    assert(out@ =~= named_alloc_findings(expr, ancestors@));
    out
}

} // verus!
