//! The checks that read the resolved tree, as one group.
//!
//! The group holds the identity sets of one analysis run.  They are
//! filled once (`check_crate`, and `check_item` for each foreign block)
//! and read by every later call.  The host calls `check_fn`,
//! `check_item`, `check_expr` and `check_local` once for each function,
//! item, expression and `let` statement, in source order.

use std::collections::HashSet;
use vstd::prelude::*;
use crate::allocation;
use crate::blocking;
use crate::blocking::FnKind;
use crate::expansion;
use crate::expansion::{Expansions, Owner};
use crate::ffi;
use crate::finding::{extend, opt_seq, push_opt, Finding, FindingKind};
use crate::ids::{
    add_configured_fn_ids,
    add_extern_fn_ids,
    configured_ids,
    foreign_ids,
    returns_raw_ptr,
    FnPathsAndIds,
    Program,
};
use crate::item::{ForeignItem, Item, ItemKind};
use crate::loading;
use crate::ptr;
use crate::ptr::KnownFns;
use crate::resolve::{callee_of, resolve_callee};
use crate::span::Span;
use crate::text::SourceText;
use crate::tree::{Block, Expr, ExprKind, Local, StmtKind};

verus! {

broadcast use vstd::std_specs::hash::group_hash_axioms;

/// What the host knows of the program around a function body.
pub struct Env<'a> {
    pub program: &'a Program,
    pub src: &'a SourceText,
    pub exp: &'a Expansions,
    pub known: KnownFns,
    /// The items around the body, innermost first.
    pub owners: &'a Vec<Owner>,
}

/// The identity sets and settings of one analysis run.
pub struct LintGroup {
    pub mem_uns_fns: FnPathsAndIds,
    pub mem_alloc_fns: FnPathsAndIds,
    pub io_fns: FnPathsAndIds,
    pub lib_loading_fns: FnPathsAndIds,
    pub blocking_fns: FnPathsAndIds,
    pub non_reentrant_fns: FnPathsAndIds,
    pub allow_io_blocking_ops: bool,
    pub macro_call_sites: HashSet<u128>,
    pub alloc_size_check_fns: Vec<String>,
}

/// Whether one of the first `n` statements of the block is a `let` whose
/// pattern has the identity `hid`.
pub open spec fn declares_in(b: &Block, n: int, hid: u64) -> bool {
    exists|k: int|
        0 <= k < n && k < b.stmts@.len() && (match &(#[trigger] b.stmts@[k]).kind {
            StmtKind::Local(l) => l.pat.id == hid,
            _ => false,
        })
}

/// Whether a `let` of the block declares the binding `hid`.
pub open spec fn declares_binding(b: &Block, hid: u64) -> bool {
    declares_in(b, b.stmts@.len() as int, hid)
}

/// The position, from `from` on, of the first block that declares the
/// binding `hid`; the number of blocks where none does.
pub open spec fn declaring_from(blocks: Seq<&Block>, from: int, hid: u64) -> int
    decreases blocks.len() - from,
{
    if from < 0 || from >= blocks.len() {
        blocks.len() as int
    } else if declares_binding(blocks[from], hid) {
        from
    } else {
        declaring_from(blocks, from + 1, hid)
    }
}

/// The blocks around the declaration of the binding `hid`: of the blocks
/// around a use of it, the innermost that declares it and those around
/// that one.
pub open spec fn declaring_blocks<'a>(blocks: Seq<&'a Block>, hid: u64) -> Seq<&'a Block> {
    blocks.skip(declaring_from(blocks, 0, hid))
}

/// The blocks in which the source of a loaded library is looked for.
pub open spec fn loading_scope<'a>(params: Seq<Expr>, blocks: Seq<&'a Block>) -> Seq<&'a Block> {
    match loading::loaded_binding(params) {
        Some(hid) => declaring_blocks(blocks, hid),
        None => Seq::empty(),
    }
}

/// The block that lies directly around an expression.
pub open spec fn parent_of<'a>(blocks: Seq<&'a Block>) -> Option<&'a Block> {
    if blocks.len() > 0 {
        Some(blocks[0])
    } else {
        None
    }
}

impl LintGroup {
    /// What a call that resolves to `f` leads to by the set that `f` is
    /// in: the first of non-reentrant, memory-unsafe, library-loading and
    /// allocation that holds it decides.
    pub open spec fn classified_findings(
        &self,
        expr: &Expr,
        params: Seq<Expr>,
        f: u64,
        env: &Env,
        ancestors: Seq<&Block>,
    ) -> Seq<Finding> {
        if self.non_reentrant_fns.ids@.contains(f) {
            seq![Finding::plain(FindingKind::NonReentrantFunction, expr.span)]
        } else if self.mem_uns_fns.ids@.contains(f) {
            seq![Finding::plain(FindingKind::MemUnsafeFunction, expr.span)]
        } else if self.lib_loading_fns.ids@.contains(f) {
            opt_seq(
                loading::loading_finding(
                    expr,
                    params,
                    self.io_fns.ids@,
                    loading_scope(params, ancestors),
                ),
            )
        } else if self.mem_alloc_fns.ids@.contains(f) {
            allocation::alloc_findings(
                expr,
                params,
                returns_raw_ptr(env.program.fns@, f),
                self.alloc_size_check_fns@,
                ancestors,
                env.src,
                env.known,
            )
        } else {
            Seq::empty()
        }
    }

    /// What an expression leads to.  A call is classified by the function
    /// it resolves to, and checked for native strings handed to a
    /// foreign function; any other expression is checked as an `async`
    /// closure, as a node of a macro invocation, and as an assignment of a
    /// null pointer.
    pub open spec fn expr_findings(
        &self,
        seen: Set<u128>,
        expr: &Expr,
        env: &Env,
        ancestors: Seq<&Block>,
    ) -> Seq<Finding> {
        match &expr.kind {
            ExprKind::Call(_, params) => match callee_of(expr) {
                Some(f) => self.classified_findings(expr, params@, f, env, ancestors)
                    + ffi::string_findings(expr, env.program),
                None => Seq::empty(),
            },
            _ => blocking::closure_findings(expr, self.blocking_fns.ids@, env.src) + opt_seq(
                expansion::quote_finding(
                    env.exp,
                    expr.span.ctxt,
                    expansion::proc_macro_owner(env.owners@, 0),
                    env.src,
                    seen,
                ),
            ) + opt_seq(ptr::assign_finding(expr, parent_of(ancestors), env.known)),
        }
    }

    /// The call sites seen once `expr` was checked.
    pub open spec fn sites_after(seen: Set<u128>, expr: &Expr, env: &Env) -> Set<u128> {
        if expr.kind is Call {
            seen
        } else {
            expansion::seen_after(env.src.file, env.exp.call_site_of(expr.span.ctxt), seen)
        }
    }

    /// Whether the two groups hold the same identity sets and settings.
    pub open spec fn same_sets(&self, other: &LintGroup) -> bool {
        &&& self.mem_uns_fns == other.mem_uns_fns
        &&& self.mem_alloc_fns == other.mem_alloc_fns
        &&& self.io_fns == other.io_fns
        &&& self.lib_loading_fns == other.lib_loading_fns
        &&& self.blocking_fns == other.blocking_fns
        &&& self.non_reentrant_fns == other.non_reentrant_fns
        &&& self.allow_io_blocking_ops == other.allow_io_blocking_ops
        &&& self.alloc_size_check_fns == other.alloc_size_check_fns
    }

    /// A group with the configured names, and nothing resolved yet.
    pub fn new(
        mem_uns_fns: Vec<String>,
        io_fns: Vec<String>,
        lib_loading_fns: Vec<String>,
        allow_io_blocking_ops: bool,
        alloc_size_check_fns: Vec<String>,
        mem_alloc_fns: Vec<String>,
        non_reentrant_fns: Vec<String>,
    ) -> (g: Self)
        ensures
            g.mem_uns_fns.paths == mem_uns_fns,
            g.mem_alloc_fns.paths == mem_alloc_fns,
            g.io_fns.paths == io_fns,
            g.lib_loading_fns.paths == lib_loading_fns,
            g.non_reentrant_fns.paths == non_reentrant_fns,
            g.blocking_fns.paths@ == Seq::<String>::empty(),
            g.allow_io_blocking_ops == allow_io_blocking_ops,
            g.alloc_size_check_fns == alloc_size_check_fns,
            g.mem_uns_fns.ids@ == Set::<u64>::empty(),
            g.mem_alloc_fns.ids@ == Set::<u64>::empty(),
            g.io_fns.ids@ == Set::<u64>::empty(),
            g.lib_loading_fns.ids@ == Set::<u64>::empty(),
            g.non_reentrant_fns.ids@ == Set::<u64>::empty(),
            g.blocking_fns.ids@ == Set::<u64>::empty(),
            g.macro_call_sites@ == Set::<u128>::empty(),
    {
        LintGroup {
            mem_uns_fns: FnPathsAndIds::with_paths(mem_uns_fns),
            mem_alloc_fns: FnPathsAndIds::with_paths(mem_alloc_fns),
            io_fns: FnPathsAndIds::with_paths(io_fns),
            lib_loading_fns: FnPathsAndIds::with_paths(lib_loading_fns),
            blocking_fns: FnPathsAndIds::with_paths(Vec::new()),
            non_reentrant_fns: FnPathsAndIds::with_paths(non_reentrant_fns),
            allow_io_blocking_ops,
            macro_call_sites: HashSet::new(),
            alloc_size_check_fns,
        }
    }

    /// Checks a function: reports the blocking calls in the body of a
    /// function that is declared `async`.  Closures are checked as
    /// expressions.
    pub fn check_fn(&self, kind: FnKind, body: &Expr, span: Span, src: &SourceText) -> (out: Vec<
        Finding,
    >)
        ensures
            out@ == blocking::fn_findings(kind, body, span, self.blocking_fns.ids@, src),
    {
        match kind {
            FnKind::Closure => Vec::new(),
            _ => blocking::check_fn(kind, body, span, &self.blocking_fns.ids, src),
        }
    }

    /// Resolves the configured names, and the blocking functions, against
    /// the program.
    pub fn check_crate(&mut self, program: &Program)
        ensures
            final(self).mem_uns_fns.paths == old(self).mem_uns_fns.paths,
            final(self).mem_alloc_fns.paths == old(self).mem_alloc_fns.paths,
            final(self).io_fns.paths == old(self).io_fns.paths,
            final(self).lib_loading_fns.paths == old(self).lib_loading_fns.paths,
            final(self).non_reentrant_fns.paths == old(self).non_reentrant_fns.paths,
            final(self).blocking_fns.paths == old(self).blocking_fns.paths,
            final(self).allow_io_blocking_ops == old(self).allow_io_blocking_ops,
            final(self).alloc_size_check_fns == old(self).alloc_size_check_fns,
            final(self).macro_call_sites == old(self).macro_call_sites,
            final(self).mem_uns_fns.ids@ == old(self).mem_uns_fns.ids@.union(
                configured_ids(program.fns@, old(self).mem_uns_fns.paths@),
            ),
            final(self).mem_alloc_fns.ids@ == old(self).mem_alloc_fns.ids@.union(
                configured_ids(program.fns@, old(self).mem_alloc_fns.paths@),
            ),
            final(self).io_fns.ids@ == old(self).io_fns.ids@.union(
                configured_ids(program.fns@, old(self).io_fns.paths@),
            ),
            final(self).lib_loading_fns.ids@ == old(self).lib_loading_fns.ids@.union(
                configured_ids(program.fns@, old(self).lib_loading_fns.paths@),
            ),
            final(self).non_reentrant_fns.ids@ == old(self).non_reentrant_fns.ids@.union(
                configured_ids(program.fns@, old(self).non_reentrant_fns.paths@),
            ),
            final(self).blocking_fns.ids@ == old(self).blocking_fns.ids@.union(
                blocking::blocking_ids(program, old(self).allow_io_blocking_ops),
            ),
    {
        add_configured_fn_ids(program, &mut self.mem_uns_fns);
        add_configured_fn_ids(program, &mut self.mem_alloc_fns);
        add_configured_fn_ids(program, &mut self.io_fns);
        add_configured_fn_ids(program, &mut self.lib_loading_fns);
        add_configured_fn_ids(program, &mut self.non_reentrant_fns);
        blocking::init_blacklist_ids(
            program,
            self.allow_io_blocking_ops,
            &mut self.blocking_fns.ids,
        );
    }

    /// Adds the functions of a foreign block whose name is configured.
    fn add_foreign(&mut self, items: &Vec<ForeignItem>)
        ensures
            final(self).mem_uns_fns.paths == old(self).mem_uns_fns.paths,
            final(self).mem_alloc_fns.paths == old(self).mem_alloc_fns.paths,
            final(self).io_fns.paths == old(self).io_fns.paths,
            final(self).lib_loading_fns.paths == old(self).lib_loading_fns.paths,
            final(self).non_reentrant_fns.paths == old(self).non_reentrant_fns.paths,
            final(self).blocking_fns == old(self).blocking_fns,
            final(self).allow_io_blocking_ops == old(self).allow_io_blocking_ops,
            final(self).alloc_size_check_fns == old(self).alloc_size_check_fns,
            final(self).macro_call_sites == old(self).macro_call_sites,
            final(self).mem_uns_fns.ids@ == old(self).mem_uns_fns.ids@.union(
                foreign_ids(items@, old(self).mem_uns_fns.paths@),
            ),
            final(self).mem_alloc_fns.ids@ == old(self).mem_alloc_fns.ids@.union(
                foreign_ids(items@, old(self).mem_alloc_fns.paths@),
            ),
            final(self).io_fns.ids@ == old(self).io_fns.ids@.union(
                foreign_ids(items@, old(self).io_fns.paths@),
            ),
            final(self).lib_loading_fns.ids@ == old(self).lib_loading_fns.ids@.union(
                foreign_ids(items@, old(self).lib_loading_fns.paths@),
            ),
            final(self).non_reentrant_fns.ids@ == old(self).non_reentrant_fns.ids@.union(
                foreign_ids(items@, old(self).non_reentrant_fns.paths@),
            ),
    {
        add_extern_fn_ids(items, &mut self.mem_uns_fns);
        add_extern_fn_ids(items, &mut self.mem_alloc_fns);
        add_extern_fn_ids(items, &mut self.io_fns);
        add_extern_fn_ids(items, &mut self.lib_loading_fns);
        add_extern_fn_ids(items, &mut self.non_reentrant_fns);
    }

    /// Checks an item.  The functions of a foreign block whose declared
    /// name is one of the configured names are added to the sets; the
    /// parameter types of a function with the C calling convention are
    /// checked for a declared layout.
    pub fn check_item(&mut self, item: &Item) -> (out: Vec<Finding>)
        ensures
            out@ == ffi::repr_findings(item),
            final(self).blocking_fns == old(self).blocking_fns,
            final(self).allow_io_blocking_ops == old(self).allow_io_blocking_ops,
            final(self).alloc_size_check_fns == old(self).alloc_size_check_fns,
            final(self).macro_call_sites == old(self).macro_call_sites,
            final(self).mem_uns_fns.paths == old(self).mem_uns_fns.paths,
            final(self).mem_alloc_fns.paths == old(self).mem_alloc_fns.paths,
            final(self).io_fns.paths == old(self).io_fns.paths,
            final(self).lib_loading_fns.paths == old(self).lib_loading_fns.paths,
            final(self).non_reentrant_fns.paths == old(self).non_reentrant_fns.paths,
            item.kind matches ItemKind::ForeignMod { abi, explicit_abi, items } ==> {
                &&& final(self).mem_uns_fns.ids@ == old(self).mem_uns_fns.ids@.union(
                    foreign_ids(items@, old(self).mem_uns_fns.paths@),
                )
                &&& final(self).mem_alloc_fns.ids@ == old(self).mem_alloc_fns.ids@.union(
                    foreign_ids(items@, old(self).mem_alloc_fns.paths@),
                )
                &&& final(self).io_fns.ids@ == old(self).io_fns.ids@.union(
                    foreign_ids(items@, old(self).io_fns.paths@),
                )
                &&& final(self).lib_loading_fns.ids@ == old(self).lib_loading_fns.ids@.union(
                    foreign_ids(items@, old(self).lib_loading_fns.paths@),
                )
                &&& final(self).non_reentrant_fns.ids@ == old(self).non_reentrant_fns.ids@.union(
                    foreign_ids(items@, old(self).non_reentrant_fns.paths@),
                )
            },
            !(item.kind is ForeignMod) ==> final(self).same_sets(old(self)),
    {
        match &item.kind {
            ItemKind::ForeignMod { abi, explicit_abi, items } => {
                self.add_foreign(items);
            },
            _ => {},
        }
        ffi::check_item(item)
    }

    /// What a call that resolves to `f` leads to by the set that `f` is
    /// in.
    fn check_classified(
        &self,
        expr: &Expr,
        params: &Vec<Expr>,
        f: u64,
        env: &Env,
        ancestors: &Vec<&Block>,
    ) -> (out: Vec<Finding>)
        ensures
            out@ == self.classified_findings(expr, params@, f, env, ancestors@),
    {
        let mut out: Vec<Finding> = Vec::new();
        if self.non_reentrant_fns.ids.contains(&f) {
            out.push(Finding::new(FindingKind::NonReentrantFunction, expr.span));
        } else if self.mem_uns_fns.ids.contains(&f) {
            out.push(Finding::new(FindingKind::MemUnsafeFunction, expr.span));
        } else if self.lib_loading_fns.ids.contains(&f) {
            let scope = blocks_around_loaded(params, ancestors);
            let found = loading::check_expr(expr, params, &self.io_fns.ids, &scope);
            push_opt(&mut out, found);
        } else if self.mem_alloc_fns.ids.contains(&f) {
            out =
            allocation::check_expr(
                expr,
                params,
                env.program.fn_returns_raw_ptr(f),
                &self.alloc_size_check_fns,
                ancestors,
                env.src,
                &env.known,
            );
        }
        out
    }

    /// Checks an expression; `ancestors` are the blocks around it,
    /// innermost first.
    ///
    /// The findings are a function of the arguments and of the state of
    /// the group: the same check from the same state gives the same
    /// findings in the same order.
    pub fn check_expr(&mut self, expr: &Expr, env: &Env, ancestors: &Vec<&Block>) -> (out: Vec<
        Finding,
    >)
        ensures
            out@ == old(self).expr_findings(old(self).macro_call_sites@, expr, env, ancestors@),
            final(self).macro_call_sites@ == Self::sites_after(
                old(self).macro_call_sites@,
                expr,
                env,
            ),
            final(self).same_sets(old(self)),
    {
        match &expr.kind {
            ExprKind::Call(_, params) => match resolve_callee(expr) {
                Some(f) => {
                    let mut out = self.check_classified(expr, params, f, env, ancestors);
                    let strings = ffi::check_passing_string(expr, env.program);
                    extend(&mut out, &strings);
                    out
                },
                None => Vec::new(),
            },
            _ => {
                let mut out = blocking::check_expr(expr, &self.blocking_fns.ids, env.src);
                let hidden = expansion::check(
                    env.exp,
                    expr.span.ctxt,
                    env.owners,
                    env.src,
                    &mut self.macro_call_sites,
                );
                push_opt(&mut out, hidden);
                let parent = if ancestors.len() > 0 {
                    Some(ancestors[0])
                } else {
                    None
                };
                let null = ptr::check_assign(expr, parent, &env.known);
                push_opt(&mut out, null);
                out
            },
        }
    }

    /// Checks a `let` statement that lies directly in `parent`: reports
    /// the dereference of a pointer that the statement set to null.
    pub fn check_local(&self, local: &Local, parent: Option<&Block>, known: &KnownFns) -> (f: Option<
        Finding,
    >)
        ensures
            f == ptr::local_finding(local, parent, *known),
    {
        ptr::check_local(local, parent, known)
    }
}

/// Whether a `let` of the block declares the binding `hid`.
pub fn block_declares(b: &Block, hid: u64) -> (r: bool)
    ensures
        r == declares_binding(b, hid),
{
    let mut k: usize = 0;
    while k < b.stmts.len()
        invariant
            k <= b.stmts.len(),
            !declares_in(b, k as int, hid),
        decreases b.stmts.len() - k,
    {
        let hit = match &b.stmts[k].kind {
            StmtKind::Local(l) => l.pat.id == hid,
            _ => false,
        };
        if hit {
            return true;
        }
        k += 1;
    }
    false
}

/// The position of the innermost block that declares the binding `hid`.
fn declaring_index(blocks: &Vec<&Block>, hid: u64) -> (i: usize)
    ensures
        i == declaring_from(blocks@, 0, hid),
        i <= blocks.len(),
{
    let mut i: usize = 0;
    while i < blocks.len()
        invariant
            i <= blocks.len(),
            declaring_from(blocks@, i as int, hid) == declaring_from(blocks@, 0, hid),
        decreases blocks.len() - i,
    {
        if block_declares(blocks[i], hid) {
            return i;
        }
        i += 1;
    }
    i
}

/// The blocks around the declaration of the binding `hid`, given the
/// blocks around a use of it, innermost first.
pub fn blocks_around_binding<'a>(blocks: &Vec<&'a Block>, hid: u64) -> (out: Vec<&'a Block>)
    ensures
        out@ == declaring_blocks(blocks@, hid),
{
    let i = declaring_index(blocks, hid);
    let mut out: Vec<&'a Block> = Vec::new();
    let mut j: usize = i;
    while j < blocks.len()
        invariant
            i <= j <= blocks.len(),
            out@ == blocks@.subrange(i as int, j as int),
        decreases blocks.len() - j,
    {
        out.push(blocks[j]);
        assert(out@ =~= blocks@.subrange(i as int, j + 1));
        j += 1;
    }
    assert(out@ =~= blocks@.skip(i as int));
    out
}

/// The blocks in which the source of a loaded library is looked for.
fn blocks_around_loaded<'a>(params: &Vec<Expr>, blocks: &Vec<&'a Block>) -> (out: Vec<&'a Block>)
    ensures
        out@ == loading_scope(params@, blocks@),
{
    if params.len() == 0 {
        return Vec::new();
    }
    match loading::first_local_in(&params[0]) {
        Some(hid) => blocks_around_binding(blocks, hid),
        None => Vec::new(),
    }
}

} // verus!
