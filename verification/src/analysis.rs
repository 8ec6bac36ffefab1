//! One analysis run over function bodies.
//!
//! A run holds the identity sets, the macro call sites it has looked at
//! and the blocks it has searched.  A body is walked once, in pre-order
//! and into closures; each node is handed to the checks that read it,
//! together with the blocks around it.  The findings of a body are a
//! function of the body, of what the host knows, and of the state of the
//! run: a second run from the same state over the same input gives the
//! same findings in the same order.

use std::collections::HashSet;
use vstd::prelude::*;
use crate::blocking;
use crate::blocking::FnKind;
use crate::finding::{extend, opt_seq, push_opt, Finding};
use crate::group::{parent_of, Env, LintGroup};
use crate::ids::{
    add_configured_fn_ids,
    add_extern_fn_ids,
    configured_ids,
    foreign_ids,
    FnPathsAndIds,
    Program,
};
use crate::item::{Item, ItemKind};
use crate::literals;
use crate::ptr;
use crate::resolve::{callee_of, resolve_callee};
use crate::span::Span;
use crate::stack;
use crate::tree::{Block, Expr, ExprKind, StmtKind};
use crate::walk::{expr_events, walk_expr, Descent, LetDescent, Node};

verus! {

broadcast use vstd::std_specs::hash::group_hash_axioms;

/// An analysis run.
pub struct Analysis {
    pub group: LintGroup,
    /// The deallocation functions.
    pub free_fns: FnPathsAndIds,
    /// The identities of the blocks that were searched for returned
    /// addresses.
    pub visited_blocks: HashSet<u64>,
}

/// What a run knows at one node of a body: the blocks around the node,
/// innermost first, the macro call sites looked at, and the blocks
/// searched.
pub struct RunState<'a> {
    pub stack: Seq<&'a Block>,
    pub seen: Set<u128>,
    pub visited: Set<u64>,
}

/// The walk of a run: everything, with the end of each block as a node.
pub open spec fn run_descent() -> Descent {
    Descent { block_ends: true, ..Descent::spec_everywhere() }
}

impl Analysis {
    /// What a call leads to beyond the checks of the group: where it
    /// resolves to a deallocation function, the check for dangling and
    /// doubly freed pointers, and in any case the check for integers that
    /// are no character.
    pub open spec fn call_findings(&self, e: &Expr, env: &Env, stack: Seq<&Block>) -> Seq<Finding> {
        match &e.kind {
            ExprKind::Call(_, params) => match callee_of(e) {
                Some(f) => (if self.free_fns.ids@.contains(f) {
                    opt_seq(
                        ptr::call_finding(e, parent_of(stack), self.free_fns.ids@, env.known),
                    )
                } else {
                    Seq::empty()
                }) + opt_seq(literals::char_range_finding(e, params@, f, env.program)),
                None => Seq::empty(),
            },
            _ => Seq::empty(),
        }
    }

    /// What one node of a body leads to, and the state behind it.
    pub open spec fn node_step<'a>(&self, env: &Env, st: RunState<'a>, node: Node<'a>) -> (
        Seq<Finding>,
        RunState<'a>,
    ) {
        match node {
            Node::Expr(e) => (
                self.group.expr_findings(st.seen, e, env, st.stack) + self.call_findings(
                    e,
                    env,
                    st.stack,
                ),
                RunState { seen: LintGroup::sites_after(st.seen, e, env), ..st },
            ),
            Node::Stmt(s) => match &s.kind {
                StmtKind::Local(l) => (
                    opt_seq(ptr::local_finding(l, parent_of(st.stack), env.known)) + opt_seq(
                        literals::unconstrained_finding(l, env.exp),
                    ),
                    st,
                ),
                _ => (Seq::empty(), st),
            },
            Node::Block(b) => (
                stack::stack_findings(b, st.visited),
                RunState {
                    stack: st.stack.insert(0, b),
                    visited: stack::visited_after(b, st.visited),
                    ..st
                },
            ),
            Node::BlockEnd(_) => (
                Seq::empty(),
                RunState {
                    stack: if st.stack.len() > 0 {
                        st.stack.remove(0)
                    } else {
                        st.stack
                    },
                    ..st
                },
            ),
            Node::Pat(_) => (Seq::empty(), st),
            Node::ClosureEnd(_) => (Seq::empty(), st),
        }
    }

    /// What the first `n` nodes lead to, in order, and the state behind
    /// them.
    pub open spec fn nodes_run<'a>(&self, env: &Env, nodes: Seq<Node<'a>>, n: int, st: RunState<'a>) -> (
        Seq<Finding>,
        RunState<'a>,
    )
        decreases n,
    {
        if n <= 0 || n > nodes.len() {
            (Seq::empty(), st)
        } else {
            let before = self.nodes_run(env, nodes, n - 1, st);
            let here = self.node_step(env, before.1, nodes[n - 1]);
            (before.0 + here.0, here.1)
        }
    }

    /// The state in which the walk of a body starts.
    pub open spec fn start<'a>(&self) -> RunState<'a> {
        RunState {
            stack: Seq::empty(),
            seen: self.group.macro_call_sites@,
            visited: self.visited_blocks@,
        }
    }

    /// What the walk of `body` leads to, and the state behind it.
    pub open spec fn body_run<'a>(&self, body: &'a Expr, env: &Env) -> (Seq<Finding>, RunState<'a>) {
        let nodes = expr_events(body, run_descent());
        self.nodes_run(env, nodes, nodes.len() as int, self.start())
    }

    /// The findings of a function: those for blocking calls, where the
    /// function is declared `async`, and then those of the nodes of its
    /// body in walk order.
    pub open spec fn body_findings(&self, kind: FnKind, body: &Expr, span: Span, env: &Env) -> Seq<
        Finding,
    > {
        blocking::fn_findings(kind, body, span, self.group.blocking_fns.ids@, env.src)
            + self.body_run(body, env).0
    }

    /// Whether the two runs hold the same identity sets and settings.
    pub open spec fn same_sets(&self, other: &Analysis) -> bool {
        self.group.same_sets(&other.group) && self.free_fns == other.free_fns
    }

    /// A run with the given group and the names of the deallocation
    /// functions.
    pub fn new(group: LintGroup, free_fns: Vec<String>) -> (a: Self)
        ensures
            a.group == group,
            a.free_fns.paths == free_fns,
            a.free_fns.ids@ == Set::<u64>::empty(),
            a.visited_blocks@ == Set::<u64>::empty(),
    {
        Analysis {
            group,
            free_fns: FnPathsAndIds::with_paths(free_fns),
            visited_blocks: HashSet::new(),
        }
    }

    /// Resolves the configured names against the program.
    pub fn check_crate(&mut self, program: &Program)
        ensures
            final(self).free_fns.paths == old(self).free_fns.paths,
            final(self).free_fns.ids@ == old(self).free_fns.ids@.union(
                configured_ids(program.fns@, old(self).free_fns.paths@),
            ),
            final(self).visited_blocks == old(self).visited_blocks,
            final(self).group.macro_call_sites == old(self).group.macro_call_sites,
            final(self).group.mem_uns_fns.ids@ == old(self).group.mem_uns_fns.ids@.union(
                configured_ids(program.fns@, old(self).group.mem_uns_fns.paths@),
            ),
            final(self).group.mem_alloc_fns.ids@ == old(self).group.mem_alloc_fns.ids@.union(
                configured_ids(program.fns@, old(self).group.mem_alloc_fns.paths@),
            ),
            final(self).group.io_fns.ids@ == old(self).group.io_fns.ids@.union(
                configured_ids(program.fns@, old(self).group.io_fns.paths@),
            ),
            final(self).group.lib_loading_fns.ids@ == old(self).group.lib_loading_fns.ids@.union(
                configured_ids(program.fns@, old(self).group.lib_loading_fns.paths@),
            ),
            final(self).group.non_reentrant_fns.ids@ == old(self).group.non_reentrant_fns.ids@.union(
                configured_ids(program.fns@, old(self).group.non_reentrant_fns.paths@),
            ),
            final(self).group.blocking_fns.ids@ == old(self).group.blocking_fns.ids@.union(
                blocking::blocking_ids(program, old(self).group.allow_io_blocking_ops),
            ),
    {
        self.group.check_crate(program);
        add_configured_fn_ids(program, &mut self.free_fns);
    }

    /// Checks an item: as the group does, and adds the functions of a
    /// foreign block whose name is configured as a deallocation function.
    pub fn check_item(&mut self, item: &Item) -> (out: Vec<Finding>)
        ensures
            out@ == crate::ffi::repr_findings(item),
            final(self).free_fns.paths == old(self).free_fns.paths,
            final(self).visited_blocks == old(self).visited_blocks,
            final(self).group.macro_call_sites == old(self).group.macro_call_sites,
            item.kind matches ItemKind::ForeignMod { abi, explicit_abi, items } ==> final(self).free_fns.ids@ == old(self).free_fns.ids@.union(
                foreign_ids(items@, old(self).free_fns.paths@),
            ),
            !(item.kind is ForeignMod) ==> final(self).same_sets(old(self)),
    {
        match &item.kind {
            ItemKind::ForeignMod { abi, explicit_abi, items } => {
                add_extern_fn_ids(items, &mut self.free_fns);
            },
            _ => {},
        }
        self.group.check_item(item)
    }

    /// What a call leads to beyond the checks of the group.
    fn check_call(&self, e: &Expr, env: &Env, stack: &Vec<&Block>) -> (out: Vec<Finding>)
        ensures
            out@ == self.call_findings(e, env, stack@),
    {
        let mut out: Vec<Finding> = Vec::new();
        match &e.kind {
            ExprKind::Call(_, params) => match resolve_callee(e) {
                Some(f) => {
                    if self.free_fns.ids.contains(&f) {
                        let parent = if stack.len() > 0 {
                            Some(stack[0])
                        } else {
                            None
                        };
                        let freed = ptr::check_call(e, parent, &self.free_fns.ids, &env.known);
                        push_opt(&mut out, freed);
                    }
                    let range = literals::check_call(e, params, f, env.program);
                    push_opt(&mut out, range);
                },
                None => {},
            },
            _ => {},
        }
        out
    }

    /// Takes one node of a body into account.
    fn check_node<'a>(&mut self, env: &Env, stack: &mut Vec<&'a Block>, node: Node<'a>) -> (out: Vec<
        Finding,
    >)
        ensures
            ({
                let st = RunState {
                    stack: old(stack)@,
                    seen: old(self).group.macro_call_sites@,
                    visited: old(self).visited_blocks@,
                };
                let next = old(self).node_step(env, st, node);
                &&& out@ == next.0
                &&& final(stack)@ == next.1.stack
                &&& final(self).group.macro_call_sites@ == next.1.seen
                &&& final(self).visited_blocks@ == next.1.visited
            }),
            final(self).same_sets(old(self)),
    {
        match node {
            Node::Expr(e) => {
                let mut out = self.group.check_expr(e, env, stack);
                let more = self.check_call(e, env, stack);
                extend(&mut out, &more);
                out
            },
            Node::Stmt(s) => {
                let mut out: Vec<Finding> = Vec::new();
                match &s.kind {
                    StmtKind::Local(l) => {
                        let parent = if stack.len() > 0 {
                            Some(stack[0])
                        } else {
                            None
                        };
                        let null = self.group.check_local(l, parent, &env.known);
                        push_opt(&mut out, null);
                        let open = literals::check_local(l, env.exp);
                        push_opt(&mut out, open);
                    },
                    _ => {},
                }
                out
            },
            Node::Block(b) => {
                let out = stack::check(b, &mut self.visited_blocks);
                stack.insert(0, b);
                out
            },
            Node::BlockEnd(_) => {
                if stack.len() > 0 {
                    stack.remove(0);
                }
                Vec::new()
            },
            Node::Pat(_) => Vec::new(),
            Node::ClosureEnd(_) => Vec::new(),
        }
    }

    /// Checks a function; `body` is its body, `span` its range.
    ///
    /// Every node of the body is checked once, in walk order: an
    /// expression by the group and, where it is a call, for a freed
    /// pointer and for an integer that is no character; a `let` for a
    /// null pointer and for an unconstrained number; a block for returned
    /// addresses.  The macro call sites looked at and the blocks searched
    /// are remembered in the run.
    pub fn check_body(&mut self, kind: FnKind, body: &Expr, span: Span, env: &Env) -> (out: Vec<
        Finding,
    >)
        ensures
            out@ == old(self).body_findings(kind, body, span, env),
            final(self).group.macro_call_sites@ == old(self).body_run(body, env).1.seen,
            final(self).visited_blocks@ == old(self).body_run(body, env).1.visited,
            final(self).same_sets(old(self)),
    {
        let mut out = self.group.check_fn(kind, body, span, env.src);
        let ghost head = out@;
        let d = Descent {
            closures: true,
            loops: true,
            returns: true,
            breaks: true,
            literal_assignments: true,
            lets: LetDescent::All,
            block_ends: true,
            closure_ends: false,
            expanded: true,
        };
        let mut nodes: Vec<Node> = Vec::new();
        walk_expr(body, &d, &mut nodes);
        assert(nodes@ =~= expr_events(body, run_descent()));
        let mut stack: Vec<&Block> = Vec::new();
        let mut i: usize = 0;
        assert(out@ =~= head + old(self).nodes_run(env, nodes@, 0, old(self).start()).0);
        while i < nodes.len()
            invariant
                i <= nodes.len(),
                self.same_sets(old(self)),
                ({
                    let run = old(self).nodes_run(env, nodes@, i as int, old(self).start());
                    &&& out@ == head + run.0
                    &&& stack@ == run.1.stack
                    &&& self.group.macro_call_sites@ == run.1.seen
                    &&& self.visited_blocks@ == run.1.visited
                }),
            decreases nodes.len() - i,
        {
            let ghost before = old(self).nodes_run(env, nodes@, i as int, old(self).start());
            let more = self.check_node(env, &mut stack, nodes[i]);
            extend(&mut out, &more);
            assert(out@ =~= head + old(self).nodes_run(env, nodes@, i + 1, old(self).start()).0);
            i += 1;
        }
        out
    }
}

} // verus!

verus! {

impl Analysis {
    /// Whether the two runs hold sets and settings of the same contents.
    pub open spec fn same_contents(&self, other: &Analysis) -> bool {
        &&& self.group.mem_uns_fns.ids@ == other.group.mem_uns_fns.ids@
        &&& self.group.mem_alloc_fns.ids@ == other.group.mem_alloc_fns.ids@
        &&& self.group.io_fns.ids@ == other.group.io_fns.ids@
        &&& self.group.lib_loading_fns.ids@ == other.group.lib_loading_fns.ids@
        &&& self.group.blocking_fns.ids@ == other.group.blocking_fns.ids@
        &&& self.group.non_reentrant_fns.ids@ == other.group.non_reentrant_fns.ids@
        &&& self.group.alloc_size_check_fns@ == other.group.alloc_size_check_fns@
        &&& self.free_fns.ids@ == other.free_fns.ids@
    }
}

/// Two runs whose sets have the same contents take the same step at every
/// node.
pub proof fn lemma_step_depends_on_contents<'a>(
    a: &Analysis,
    b: &Analysis,
    env: &Env,
    st: RunState<'a>,
    node: Node<'a>,
)
    requires
        a.same_contents(b),
    ensures
        a.node_step(env, st, node) == b.node_step(env, st, node),
{
}

/// Two runs whose sets have the same contents agree on every list of
/// nodes.
pub proof fn lemma_nodes_run_depends_on_contents<'a>(
    a: &Analysis,
    b: &Analysis,
    env: &Env,
    nodes: Seq<Node<'a>>,
    n: int,
    st: RunState<'a>,
)
    requires
        a.same_contents(b),
    ensures
        a.nodes_run(env, nodes, n, st) == b.nodes_run(env, nodes, n, st),
    decreases n,
{
    if 0 < n <= nodes.len() {
        lemma_nodes_run_depends_on_contents(a, b, env, nodes, n - 1, st);
        lemma_step_depends_on_contents(a, b, env, a.nodes_run(env, nodes, n - 1, st).1, nodes[n - 1]);
    }
}

/// Idempotence: two runs over the same input, from sets of the same
/// contents and from the same macro call sites and searched blocks, give
/// the same findings in the same order, and end in the same state.
pub proof fn lemma_runs_agree(
    a: &Analysis,
    b: &Analysis,
    kind: FnKind,
    body: &Expr,
    span: Span,
    env: &Env,
)
    requires
        a.same_contents(b),
        a.group.macro_call_sites@ == b.group.macro_call_sites@,
        a.visited_blocks@ == b.visited_blocks@,
    ensures
        a.body_findings(kind, body, span, env) == b.body_findings(kind, body, span, env),
        a.body_run(body, env).1 == b.body_run(body, env).1,
{
    let nodes = expr_events(body, run_descent());
    lemma_nodes_run_depends_on_contents(a, b, env, nodes, nodes.len() as int, a.start());
}

} // verus!
