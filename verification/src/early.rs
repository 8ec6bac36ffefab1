//! The checks that read the tree before names are resolved.

use vstd::prelude::*;
use crate::ffi;
use crate::finding::{opt_seq, push_opt, Finding};
use crate::item::Item;
use crate::loops;
use crate::text::SourceText;
use crate::tree::Expr;
use crate::walk::{expr_events, walk_expr, Descent, Node};

verus! {

/// The early checks as one group: foreign blocks without a calling
/// convention, and loops that cannot end.
#[derive(Clone, Copy, Debug, Default)]
pub struct LintGroup;

/// The findings for the loops among the first `n` nodes, in order.
pub open spec fn loops_findings(nodes: Seq<Node>, n: int) -> Seq<Finding>
    decreases n,
{
    if n <= 0 || n > nodes.len() {
        Seq::empty()
    } else {
        let before = loops_findings(nodes, n - 1);
        match nodes[n - 1] {
            Node::Expr(e) => before + opt_seq(loops::infinite_loop_finding(e)),
            _ => before,
        }
    }
}

/// The findings for the loops of a body, closures included, in walk
/// order.
pub open spec fn body_loops_findings(body: &Expr) -> Seq<Finding> {
    let nodes = expr_events(body, Descent::spec_everywhere());
    loops_findings(nodes, nodes.len() as int)
}

impl LintGroup {
    /// Checks an item for a foreign block without a calling convention.
    pub fn check_item(&self, item: &Item, src: &SourceText) -> (f: Option<Finding>)
        ensures
            f == ffi::implicit_abi_finding(item, src),
    {
        ffi::check_implicit_abi(item, src)
    }

    /// Checks an expression for a `loop` that cannot end.
    pub fn check_expr(&self, expr: &Expr) -> (f: Option<Finding>)
        ensures
            f == loops::infinite_loop_finding(expr),
    {
        loops::check_infinite_loop(expr)
    }

    /// Checks every expression of a body, in walk order.
    pub fn check_body(&self, body: &Expr) -> (out: Vec<Finding>)
        ensures
            out@ == body_loops_findings(body),
    {
        let d = Descent::everywhere();
        let mut nodes: Vec<Node> = Vec::new();
        walk_expr(body, &d, &mut nodes);
        assert(nodes@ =~= expr_events(body, d));
        let mut out: Vec<Finding> = Vec::new();
        let mut i: usize = 0;
        while i < nodes.len()
            invariant
                i <= nodes.len(),
                out@ == loops_findings(nodes@, i as int),
            decreases nodes.len() - i,
        {
            match nodes[i] {
                Node::Expr(e) => {
                    let found = self.check_expr(e);
                    push_opt(&mut out, found);
                },
                _ => {},
            }
            i += 1;
        }
        out
    }
}

/// The check for foreign blocks without a calling convention, alone.
#[derive(Clone, Copy, Debug, Default)]
pub struct ImplicitAbi;

impl ImplicitAbi {
    /// Checks an item.
    pub fn check_item(&self, item: &Item, src: &SourceText) -> (f: Option<Finding>)
        ensures
            f == ffi::implicit_abi_finding(item, src),
    {
        ffi::check_implicit_abi(item, src)
    }
}

/// The check for loops that none of their statements can leave, alone.
/// Expanded code is passed over.
#[derive(Clone, Copy, Debug, Default)]
pub struct LoopWithoutBreakOrReturn;

impl LoopWithoutBreakOrReturn {
    /// Checks an expression.
    pub fn check_expr(&self, expr: &Expr) -> (f: Option<Finding>)
        ensures
            f == loops::loop_without_exit_finding(expr, true),
    {
        loops::check_loop_without_exit(expr, true)
    }
}

/// The check for calls of `libc::strtok` and `libc::localtime` as
/// written, alone.  Expanded code is passed over.
#[derive(Clone, Copy, Debug, Default)]
pub struct NonReentrantFunctions;

impl NonReentrantFunctions {
    /// Checks an expression.
    pub fn check_expr(&self, expr: &Expr) -> (f: Option<Finding>)
        ensures
            f == ffi::written_non_reentrant_finding(expr, true),
    {
        ffi::check_written_non_reentrant(expr, true)
    }
}

} // verus!
