//! Sets of function identities, and how the configured names fill them.
//!
//! A set is filled once, before any check runs, from the names that the
//! user configured and from the declarations of the program; afterwards
//! it is only read.

use std::collections::HashSet;
use vstd::prelude::*;
use crate::item::ForeignItem;
use crate::text::{chars_of, contains, matches_at, occurs_at, same_text, seq_contains, slice};

verus! {

broadcast use vstd::std_specs::hash::group_hash_axioms;

/// A function that the program declares or can reach: its identity, the
/// path under which it is declared, whether the program itself declares
/// it (rather than a crate it depends on), whether it is a foreign item,
/// and whether it returns a raw pointer.
#[derive(Debug)]
pub struct FnDecl {
    pub id: u64,
    pub path: Vec<String>,
    pub local: bool,
    pub foreign: bool,
    pub returns_raw_ptr: bool,
}

/// The functions of the program and of the crates it depends on.
#[derive(Debug)]
pub struct Program {
    pub fns: Vec<FnDecl>,
}

/// The names that the user configured for one concern, and the identities
/// they were resolved to.
#[derive(Debug)]
pub struct FnPathsAndIds {
    pub paths: Vec<String>,
    pub ids: HashSet<u64>,
}

/// The text of each segment of a declared path.
pub open spec fn path_text(path: Seq<String>) -> Seq<Seq<char>> {
    path.map_values(|s: String| s@)
}

/// The text of each segment of a path that is looked up.
pub open spec fn query_text(path: Seq<Vec<char>>) -> Seq<Seq<char>> {
    path.map_values(|s: Vec<char>| s@)
}

/// Whether the `i`-th declaration has the identity `id` and the path `path`.
pub open spec fn declares(fns: Seq<FnDecl>, i: int, id: u64, path: Seq<Seq<char>>) -> bool {
    0 <= i < fns.len() && fns[i].id == id && path_text(fns[i].path@) == path
}

/// The identities of the first `n` declarations whose path is `path`.
pub open spec fn declared_in(fns: Seq<FnDecl>, n: int, path: Seq<Seq<char>>) -> Set<u64> {
    Set::new(|id: u64| exists|i: int| i < n && #[trigger] declares(fns, i, id, path))
}

/// The identities of the functions declared under exactly the path `path`.
pub open spec fn declared_at(fns: Seq<FnDecl>, path: Seq<Seq<char>>) -> Set<u64> {
    declared_in(fns, fns.len() as int, path)
}

/// The first position at or behind `i` at which `needle` stands in `hay`,
/// or `-1`.
pub open spec fn find_from(hay: Seq<char>, needle: Seq<char>, i: int) -> int
    decreases hay.len() - i,
{
    if i < 0 || i + needle.len() > hay.len() {
        -1
    } else if occurs_at(hay, needle, i) {
        i
    } else if i >= hay.len() {
        -1
    } else {
        find_from(hay, needle, i + 1)
    }
}

/// The pieces of `s` from `start` on that the separator `sep` parts, from
/// left to right.
pub open spec fn split_from(s: Seq<char>, sep: Seq<char>, start: int) -> Seq<Seq<char>>
    decreases s.len() - start,
{
    let at = find_from(s, sep, start);
    if sep.len() == 0 || start < 0 || start > s.len() {
        Seq::empty()
    } else if at < start || at + sep.len() > s.len() {
        seq![s.subrange(start, s.len() as int)]
    } else {
        seq![s.subrange(start, at)] + split_from(s, sep, at + sep.len())
    }
}

/// The text `::`.
pub open spec fn path_separator() -> Seq<char> {
    seq![':', ':']
}

/// The text `libc`.
pub open spec fn system_namespace() -> Seq<char> {
    seq!['l', 'i', 'b', 'c']
}

/// The path that a configured name is looked up under: its segments
/// where it holds a path separator, and otherwise the name as a member of
/// the system namespace.
pub open spec fn lookup_path(name: Seq<char>) -> Seq<Seq<char>> {
    if seq_contains(name, path_separator()) {
        split_from(name, path_separator(), 0)
    } else {
        seq![system_namespace(), name]
    }
}

/// Whether the `i`-th declaration has the identity `id`, is one of the
/// program itself, and is named `name`: `name` is the last segment of its
/// path.
pub open spec fn declares_locally(fns: Seq<FnDecl>, i: int, id: u64, name: Seq<char>) -> bool {
    0 <= i < fns.len() && fns[i].id == id && fns[i].local && fns[i].path@.len() > 0
        && fns[i].path@.last()@ == name
}

/// The identities of the functions among the first `n` declarations that
/// the program itself declares under the name `name`.
pub open spec fn local_named_in(fns: Seq<FnDecl>, n: int, name: Seq<char>) -> Set<u64> {
    Set::new(|id: u64| exists|i: int| i < n && #[trigger] declares_locally(fns, i, id, name))
}

/// The identities of the functions that the program itself declares under
/// the name `name`, in whatever module.
pub open spec fn local_named(fns: Seq<FnDecl>, name: Seq<char>) -> Set<u64> {
    local_named_in(fns, fns.len() as int, name)
}

/// The identities that a configured name stands for.  A name with a path
/// separator stands for what is declared under exactly that path.  A bare
/// name stands for the member of the system namespace of that name, and
/// for every function of that name that the program itself declares.
pub open spec fn ids_of_name(fns: Seq<FnDecl>, name: Seq<char>) -> Set<u64> {
    if seq_contains(name, path_separator()) {
        declared_at(fns, lookup_path(name))
    } else {
        declared_at(fns, lookup_path(name)).union(local_named(fns, name))
    }
}

/// The identities that the first `n` configured names resolve to.
pub open spec fn configured_in(fns: Seq<FnDecl>, names: Seq<String>, n: int) -> Set<u64> {
    Set::new(
        |id: u64|
            exists|k: int|
                0 <= k < n && k < names.len() && #[trigger] ids_of_name(fns, names[k]@).contains(
                    id,
                ),
    )
}

/// The identities that the configured names resolve to.
pub open spec fn configured_ids(fns: Seq<FnDecl>, names: Seq<String>) -> Set<u64> {
    configured_in(fns, names, names.len() as int)
}

/// Whether one of the configured names is exactly `name`.
pub open spec fn names_hold(names: Seq<String>, name: Seq<char>) -> bool {
    exists|k: int| 0 <= k < names.len() && #[trigger] names[k]@ == name
}

/// The identities of the first `n` foreign functions whose name is one of
/// the configured names.
pub open spec fn foreign_in(items: Seq<ForeignItem>, names: Seq<String>, n: int) -> Set<u64> {
    Set::new(
        |id: u64|
            exists|i: int|
                0 <= i < n && i < items.len() && #[trigger] items[i].id == id && names_hold(
                    names,
                    items[i].name@,
                ),
    )
}

/// The identities of the foreign functions whose name is one of the
/// configured names.
pub open spec fn foreign_ids(items: Seq<ForeignItem>, names: Seq<String>) -> Set<u64> {
    foreign_in(items, names, items.len() as int)
}

/// Whether one of the first `n` declarations has the identity `id` and
/// is a foreign item.
pub open spec fn foreign_among(fns: Seq<FnDecl>, n: int, id: u64) -> bool {
    exists|i: int| 0 <= i < n && i < fns.len() && #[trigger] fns[i].id == id && fns[i].foreign
}

/// Whether the function `id` is declared as a foreign item.
pub open spec fn is_foreign_fn(fns: Seq<FnDecl>, id: u64) -> bool {
    foreign_among(fns, fns.len() as int, id)
}

/// Whether one of the first `n` declarations has the identity `id` and
/// returns a raw pointer.
pub open spec fn raw_ptr_among(fns: Seq<FnDecl>, n: int, id: u64) -> bool {
    exists|i: int|
        0 <= i < n && i < fns.len() && #[trigger] fns[i].id == id && fns[i].returns_raw_ptr
}

/// Whether the function `id` is declared to return a raw pointer.
pub open spec fn returns_raw_ptr(fns: Seq<FnDecl>, id: u64) -> bool {
    raw_ptr_among(fns, fns.len() as int, id)
}

impl Program {
    /// Whether the function `id` is declared as a foreign item.
    pub fn is_foreign_item(&self, id: u64) -> (b: bool)
        ensures
            b == is_foreign_fn(self.fns@, id),
    {
        let mut i: usize = 0;
        while i < self.fns.len()
            invariant
                i <= self.fns.len(),
                !foreign_among(self.fns@, i as int, id),
            decreases self.fns.len() - i,
        {
            if self.fns[i].id == id && self.fns[i].foreign {
                return true;
            }
            i += 1;
        }
        false
    }

    /// Whether the function `id` is declared to return a raw pointer.
    pub fn fn_returns_raw_ptr(&self, id: u64) -> (b: bool)
        ensures
            b == returns_raw_ptr(self.fns@, id),
    {
        let mut i: usize = 0;
        while i < self.fns.len()
            invariant
                i <= self.fns.len(),
                !raw_ptr_among(self.fns@, i as int, id),
            decreases self.fns.len() - i,
        {
            if self.fns[i].id == id && self.fns[i].returns_raw_ptr {
                return true;
            }
            i += 1;
        }
        false
    }
}

/// Whether `id` is in the set.
pub fn classify(id: u64, set: &HashSet<u64>) -> (b: bool)
    ensures
        b == set@.contains(id),
{
    set.contains(&id)
}

/// Whether the declared path `decl` is the path `query`.
pub fn path_is(decl: &Vec<String>, query: &Vec<Vec<char>>) -> (b: bool)
    ensures
        b == (path_text(decl@) == query_text(query@)),
{
    if decl.len() != query.len() {
        assert(path_text(decl@).len() != query_text(query@).len());
        return false;
    }
    let mut i: usize = 0;
    while i < decl.len()
        invariant
            i <= decl.len(),
            decl.len() == query.len(),
            forall|j: int| 0 <= j < i ==> decl@[j]@ == query@[j]@,
        decreases decl.len() - i,
    {
        let seg = chars_of(decl[i].as_str());
        if !same_text(&seg, &query[i]) {
            assert(path_text(decl@)[i as int] != query_text(query@)[i as int]);
            return false;
        }
        i += 1;
    }
    assert(path_text(decl@) =~= query_text(query@));
    true
}

/// Adds the identity of every function declared under `query`.
pub fn insert_declared(program: &Program, query: &Vec<Vec<char>>, ids: &mut HashSet<u64>)
    ensures
        final(ids)@ == old(ids)@.union(declared_at(program.fns@, query_text(query@))),
{
    let mut i: usize = 0;
    assert(ids@ =~= old(ids)@.union(declared_in(program.fns@, 0, query_text(query@))));
    while i < program.fns.len()
        invariant
            i <= program.fns.len(),
            ids@ == old(ids)@.union(declared_in(program.fns@, i as int, query_text(query@))),
        decreases program.fns.len() - i,
    {
        let ghost before = ids@;
        let ghost q = query_text(query@);
        if path_is(&program.fns[i].path, query) {
            ids.insert(program.fns[i].id);
            assert(declares(program.fns@, i as int, program.fns@[i as int].id, q));
        }
        assert(ids@ =~= old(ids)@.union(declared_in(program.fns@, i + 1, q))) by {
            assert forall|id: u64|
                declared_in(program.fns@, i + 1, q).contains(id) implies declared_in(
                program.fns@,
                i as int,
                q,
            ).contains(id) || (id == program.fns@[i as int].id && path_text(
                program.fns@[i as int].path@,
            ) == q) by {
                let j = choose|j: int| j < i + 1 && #[trigger] declares(program.fns@, j, id, q);
                if j < i {
                    assert(declares(program.fns@, j, id, q));
                }
            }
        }
        i += 1;
    }
}

/// The first position at or behind `from` at which `needle` stands in
/// `hay`.
pub fn find(hay: &Vec<char>, needle: &Vec<char>, from: usize) -> (r: Option<usize>)
    ensures
        r matches Some(i) ==> i == find_from(hay@, needle@, from as int) && from <= i && i
            + needle.len() <= hay.len(),
        r is None ==> find_from(hay@, needle@, from as int) == -1,
{
    if needle.len() > hay.len() || from > hay.len() - needle.len() {
        return None;
    }
    let last: usize = hay.len() - needle.len();
    let mut i: usize = from;
    while i < last
        invariant
            from <= i <= last,
            last == hay.len() - needle.len(),
            find_from(hay@, needle@, i as int) == find_from(hay@, needle@, from as int),
        decreases last - i,
    {
        if matches_at(hay, needle, i) {
            return Some(i);
        }
        i += 1;
    }
    if matches_at(hay, needle, last) {
        Some(last)
    } else {
        assert(find_from(hay@, needle@, last + 1) == -1);
        None
    }
}

/// The pieces of `s` that the separator `sep` parts.
pub fn split(s: &Vec<char>, sep: &Vec<char>) -> (out: Vec<Vec<char>>)
    ensures
        query_text(out@) == split_from(s@, sep@, 0),
{
    let mut out: Vec<Vec<char>> = Vec::new();
    if sep.len() == 0 {
        assert(query_text(out@) =~= split_from(s@, sep@, 0));
        return out;
    }
    let mut start: usize = 0;
    assert(query_text(out@) + split_from(s@, sep@, 0) =~= split_from(s@, sep@, 0));
    loop
        invariant
            start <= s.len(),
            sep.len() > 0,
            query_text(out@) + split_from(s@, sep@, start as int) == split_from(s@, sep@, 0),
        decreases s.len() - start,
    {
        let ghost prefix = query_text(out@);
        match find(s, sep, start) {
            Some(at) => {
                let piece = slice(s, start, at);
                out.push(piece);
                assert(query_text(out@) =~= prefix + seq![s@.subrange(start as int, at as int)]);
                assert(query_text(out@) + split_from(s@, sep@, at + sep.len()) =~= prefix
                    + split_from(s@, sep@, start as int));
                start = at + sep.len();
            },
            None => {
                let piece = slice(s, start, s.len());
                out.push(piece);
                assert(query_text(out@) =~= prefix + split_from(s@, sep@, start as int));
                return out;
            },
        }
    }
}

/// The path under which the configured name `name` is looked up.
pub fn path_of_name(name: &str) -> (path: Vec<Vec<char>>)
    ensures
        query_text(path@) == lookup_path(name@),
{
    let chars = chars_of(name);
    let sep = chars_of("::");
    proof {
        reveal_strlit("::");
        assert(sep@ =~= path_separator());
    }
    if contains(&chars, &sep) {
        split(&chars, &sep)
    } else {
        let ns = chars_of("libc");
        proof {
            reveal_strlit("libc");
            assert(ns@ =~= system_namespace());
        }
        let mut path: Vec<Vec<char>> = Vec::new();
        path.push(ns);
        path.push(chars);
        assert(query_text(path@) =~= lookup_path(name@));
        path
    }
}

impl FnPathsAndIds {
    /// The configured names, with nothing resolved yet.
    pub fn with_paths(paths: Vec<String>) -> (r: Self)
        ensures
            r.paths == paths,
            r.ids@ == Set::<u64>::empty(),
    {
        FnPathsAndIds { paths, ids: HashSet::new() }
    }
}

/// Adds the identity of every function that the program itself declares
/// under the name `name`.
pub fn insert_local_named(program: &Program, name: &Vec<char>, ids: &mut HashSet<u64>)
    ensures
        final(ids)@ == old(ids)@.union(local_named(program.fns@, name@)),
{
    let mut i: usize = 0;
    assert(ids@ =~= old(ids)@.union(local_named_in(program.fns@, 0, name@)));
    while i < program.fns.len()
        invariant
            i <= program.fns.len(),
            ids@ == old(ids)@.union(local_named_in(program.fns@, i as int, name@)),
        decreases program.fns.len() - i,
    {
        let decl = &program.fns[i];
        let mut named = false;
        if decl.local && decl.path.len() > 0 {
            let last = chars_of(decl.path[decl.path.len() - 1].as_str());
            named = same_text(&last, name);
        }
        if named {
            ids.insert(decl.id);
            assert(declares_locally(program.fns@, i as int, program.fns@[i as int].id, name@));
        }
        assert(ids@ =~= old(ids)@.union(local_named_in(program.fns@, i + 1, name@))) by {
            assert forall|id: u64|
                local_named_in(program.fns@, i + 1, name@).contains(id) implies local_named_in(
                program.fns@,
                i as int,
                name@,
            ).contains(id) || (named && id == program.fns@[i as int].id) by {
                let j = choose|j: int|
                    j < i + 1 && #[trigger] declares_locally(program.fns@, j, id, name@);
                if j < i {
                    assert(declares_locally(program.fns@, j, id, name@));
                }
            }
        }
        i += 1;
    }
}

/// Adds the identities that the configured name `name` stands for.
pub fn insert_named(program: &Program, name: &str, ids: &mut HashSet<u64>)
    ensures
        final(ids)@ == old(ids)@.union(ids_of_name(program.fns@, name@)),
{
    let chars = chars_of(name);
    let sep = chars_of("::");
    proof {
        reveal_strlit("::");
        assert(sep@ =~= path_separator());
    }
    let path = path_of_name(name);
    insert_declared(program, &path, ids);
    if !contains(&chars, &sep) {
        insert_local_named(program, &chars, ids);
    }
    assert(ids@ =~= old(ids)@.union(ids_of_name(program.fns@, name@)));
}

/// Resolves the configured names against the program and adds what they
/// lead to: a name with a path separator is looked up as that exact path;
/// a bare name as a member of the system namespace, and as the name of a
/// function that the program itself declares.
pub fn add_configured_fn_ids(program: &Program, fns: &mut FnPathsAndIds)
    ensures
        final(fns).paths == old(fns).paths,
        final(fns).ids@ == old(fns).ids@.union(configured_ids(program.fns@, old(fns).paths@)),
{
    let mut k: usize = 0;
    assert(fns.ids@ =~= old(fns).ids@.union(configured_in(program.fns@, fns.paths@, 0)));
    while k < fns.paths.len()
        invariant
            k <= fns.paths.len(),
            fns.paths == old(fns).paths,
            fns.ids@ == old(fns).ids@.union(configured_in(program.fns@, fns.paths@, k as int)),
        decreases fns.paths.len() - k,
    {
        insert_named(program, fns.paths[k].as_str(), &mut fns.ids);
        assert(fns.ids@ =~= old(fns).ids@.union(
            configured_in(program.fns@, fns.paths@, k + 1),
        )) by {
            let names = fns.paths@;
            let here = ids_of_name(program.fns@, names[k as int]@);
            assert forall|id: u64|
                configured_in(program.fns@, names, k + 1).contains(id) implies configured_in(
                program.fns@,
                names,
                k as int,
            ).contains(id) || here.contains(id) by {
                let j = choose|j: int|
                    0 <= j < k + 1 && j < names.len() && #[trigger] ids_of_name(
                        program.fns@,
                        names[j]@,
                    ).contains(id);
                if j < k {
                    assert(ids_of_name(program.fns@, names[j]@).contains(id));
                }
            }
            assert forall|id: u64| here.contains(id) implies configured_in(
                program.fns@,
                names,
                k + 1,
            ).contains(id) by {
                assert(ids_of_name(program.fns@, names[k as int]@).contains(id));
            }
            assert forall|id: u64|
                configured_in(program.fns@, names, k as int).contains(id) implies configured_in(
                program.fns@,
                names,
                k + 1,
            ).contains(id) by {
                let j = choose|j: int|
                    0 <= j < k && j < names.len() && #[trigger] ids_of_name(
                        program.fns@,
                        names[j]@,
                    ).contains(id);
                assert(ids_of_name(program.fns@, names[j]@).contains(id));
            }
        }
        k += 1;
    }
}

/// Whether one of `names` is exactly `name`.
pub fn holds_name(names: &Vec<String>, name: &str) -> (b: bool)
    ensures
        b == names_hold(names@, name@),
{
    let wanted = chars_of(name);
    let mut k: usize = 0;
    while k < names.len()
        invariant
            k <= names.len(),
            wanted@ == name@,
            forall|j: int| 0 <= j < k ==> names@[j]@ != name@,
        decreases names.len() - k,
    {
        let have = chars_of(names[k].as_str());
        if same_text(&have, &wanted) {
            return true;
        }
        k += 1;
    }
    false
}

/// Adds the identity of every function of a foreign block whose declared
/// name is one of the configured names.
pub fn add_extern_fn_ids(items: &Vec<ForeignItem>, fns: &mut FnPathsAndIds)
    ensures
        final(fns).paths == old(fns).paths,
        final(fns).ids@ == old(fns).ids@.union(foreign_ids(items@, old(fns).paths@)),
{
    let mut i: usize = 0;
    assert(fns.ids@ =~= old(fns).ids@.union(foreign_in(items@, fns.paths@, 0)));
    while i < items.len()
        invariant
            i <= items.len(),
            fns.paths == old(fns).paths,
            fns.ids@ == old(fns).ids@.union(foreign_in(items@, fns.paths@, i as int)),
        decreases items.len() - i,
    {
        if holds_name(&fns.paths, items[i].name.as_str()) {
            fns.ids.insert(items[i].id);
        }
        assert(fns.ids@ =~= old(fns).ids@.union(foreign_in(items@, fns.paths@, i + 1))) by {
            let names = fns.paths@;
            assert forall|id: u64|
                foreign_in(items@, names, i + 1).contains(id) implies foreign_in(
                items@,
                names,
                i as int,
            ).contains(id) || (id == items@[i as int].id && names_hold(
                names,
                items@[i as int].name@,
            )) by {
                let j = choose|j: int|
                    0 <= j < i + 1 && j < items@.len() && #[trigger] items@[j].id == id
                        && names_hold(names, items@[j].name@);
                if j < i {
                    assert(items@[j].id == id);
                }
            }
        }
        i += 1;
    }
}

} // verus!

verus! {

/// The text of each path of a list.
pub open spec fn paths_text(paths: Seq<Vec<Vec<char>>>) -> Seq<Seq<Seq<char>>> {
    paths.map_values(|p: Vec<Vec<char>>| query_text(p@))
}

/// The identities of the functions declared under one of the first `n`
/// paths.
pub open spec fn declared_under(fns: Seq<FnDecl>, paths: Seq<Seq<Seq<char>>>, n: int) -> Set<u64> {
    Set::new(
        |id: u64|
            exists|k: int|
                0 <= k < n && k < paths.len() && #[trigger] declared_at(fns, paths[k]).contains(id),
    )
}

/// Adds the identity of every function declared under one of `paths`.
pub fn insert_all_declared(program: &Program, paths: &Vec<Vec<Vec<char>>>, ids: &mut HashSet<u64>)
    ensures
        final(ids)@ == old(ids)@.union(
            declared_under(program.fns@, paths_text(paths@), paths@.len() as int),
        ),
{
    let mut k: usize = 0;
    let ghost texts = paths_text(paths@);
    assert(ids@ =~= old(ids)@.union(declared_under(program.fns@, texts, 0)));
    while k < paths.len()
        invariant
            k <= paths.len(),
            texts == paths_text(paths@),
            ids@ == old(ids)@.union(declared_under(program.fns@, texts, k as int)),
        decreases paths.len() - k,
    {
        insert_declared(program, &paths[k], ids);
        assert(ids@ =~= old(ids)@.union(declared_under(program.fns@, texts, k + 1))) by {
            let here = declared_at(program.fns@, texts[k as int]);
            assert(texts[k as int] == query_text(paths@[k as int]@));
            assert forall|id: u64|
                declared_under(program.fns@, texts, k + 1).contains(id) implies declared_under(
                program.fns@,
                texts,
                k as int,
            ).contains(id) || here.contains(id) by {
                let j = choose|j: int|
                    0 <= j < k + 1 && j < texts.len() && #[trigger] declared_at(
                        program.fns@,
                        texts[j],
                    ).contains(id);
                if j < k {
                    assert(declared_at(program.fns@, texts[j]).contains(id));
                }
            }
            assert forall|id: u64| here.contains(id) implies declared_under(
                program.fns@,
                texts,
                k + 1,
            ).contains(id) by {
                assert(declared_at(program.fns@, texts[k as int]).contains(id));
            }
            assert forall|id: u64|
                declared_under(program.fns@, texts, k as int).contains(id) implies declared_under(
                program.fns@,
                texts,
                k + 1,
            ).contains(id) by {
                let j = choose|j: int|
                    0 <= j < k && j < texts.len() && #[trigger] declared_at(
                        program.fns@,
                        texts[j],
                    ).contains(id);
                assert(declared_at(program.fns@, texts[j]).contains(id));
            }
        }
        k += 1;
    }
}

} // verus!

verus! {

/// What `find_from` finds is the first occurrence: the text stands there
/// and nowhere between `from` and there; where it finds none, the text
/// stands nowhere behind `from`.
pub proof fn lemma_find_is_first(hay: Seq<char>, needle: Seq<char>, from: int)
    requires
        0 <= from,
    ensures
        ({
            let at = find_from(hay, needle, from);
            &&& at == -1 || (from <= at && occurs_at(hay, needle, at))
            &&& forall|i: int| from <= i && (i < at || at == -1) ==> !occurs_at(hay, needle, i)
        }),
    decreases hay.len() - from,
{
    if from + needle.len() <= hay.len() && !occurs_at(hay, needle, from) {
        if from < hay.len() {
            lemma_find_is_first(hay, needle, from + 1);
        } else {
            assert(needle.len() == 0);
            assert(hay.subrange(from, from + needle.len()) =~= needle);
        }
    }
}

/// Resolution is by the whole path: a declaration under another path is
/// not among what a path leads to, whatever its last segment is.
pub proof fn lemma_resolution_is_by_path(fns: Seq<FnDecl>, path: Seq<Seq<char>>, i: int)
    requires
        0 <= i < fns.len(),
        path_text(fns[i].path@) != path,
        forall|j: int| 0 <= j < fns.len() && j != i ==> fns[j].id != fns[i].id,
    ensures
        !declared_at(fns, path).contains(fns[i].id),
{
    if declared_at(fns, path).contains(fns[i].id) {
        let j = choose|j: int| j < fns.len() && #[trigger] declares(fns, j, fns[i].id, path);
        assert(j == i);
    }
}

} // verus!

verus! {

/// A bare name stands for both: the member of the system namespace, and
/// the function of that name that the program itself declares.
pub proof fn lemma_bare_name_matches_both(fns: Seq<FnDecl>, name: Seq<char>, i: int, j: int)
    requires
        !seq_contains(name, path_separator()),
        0 <= i < fns.len(),
        path_text(fns[i].path@) == seq![system_namespace(), name],
        0 <= j < fns.len(),
        fns[j].local,
        fns[j].path@.len() > 0,
        fns[j].path@.last()@ == name,
    ensures
        ids_of_name(fns, name).contains(fns[i].id),
        ids_of_name(fns, name).contains(fns[j].id),
{
    assert(declares(fns, i, fns[i].id, lookup_path(name)));
    assert(declares_locally(fns, j, fns[j].id, name));
}

/// A name with a path separator stands for nothing but what is declared
/// under that path: a function of the same last segment elsewhere is not
/// among it.
pub proof fn lemma_path_name_is_exact(fns: Seq<FnDecl>, name: Seq<char>)
    requires
        seq_contains(name, path_separator()),
    ensures
        ids_of_name(fns, name) == declared_at(fns, split_from(name, path_separator(), 0)),
{
}

} // verus!
