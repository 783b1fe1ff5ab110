use vstd::prelude::*;

use crate::consts::DEFAULT_HOOK_DIR;

verus! {

/// The programs run for every song that starts playing, by path.
#[derive(Debug)]
pub struct HookRunner {
    hooks: Vec<String>,
}

impl Default for HookRunner {
    fn default() -> (r: HookRunner)
        ensures
            r.spec_hooks() == Seq::<String>::empty(),
    {
        HookRunner { hooks: Vec::new() }
    }
}

impl HookRunner {
    /// The paths of the hooks, in the order they were found.
    pub closed spec fn spec_hooks(&self) -> Seq<String> {
        self.hooks@
    }

    /// The paths of the hooks, in the order they were found.
    pub fn hooks(&self) -> (r: &Vec<String>)
        ensures
            r@ == self.spec_hooks(),
    {
        &self.hooks
    }

    /// The directory to load hooks from: the value of the hook directory
    /// variable when it is set, `./hooks` otherwise.
    pub fn hook_dir(env_value: Option<String>) -> (r: String)
        ensures
            env_value matches Some(v) ==> r == v,
            env_value is None ==> r@ == DEFAULT_HOOK_DIR@,
    {
        match env_value {
            Some(v) => v,
            None => DEFAULT_HOOK_DIR.to_owned(),
        }
    }

    /// Forget all hooks, before loading them again.
    pub fn clear(&mut self)
        ensures
            final(self).spec_hooks() == Seq::<String>::empty(),
    {
        self.hooks.clear();
    }

    /// Take one entry of the hook directory into account: anything but a
    /// directory is a hook and is added after those found before.
    pub fn register_entry(&mut self, path: String, is_dir: bool)
        ensures
            is_dir ==> final(self).spec_hooks() == old(self).spec_hooks(),
            !is_dir ==> final(self).spec_hooks() == old(self).spec_hooks().push(path),
    {
        if !is_dir {
            self.hooks.push(path);
        }
    }
}

impl HookRunner {
    /// Load hooks from the entries of the hook directory, each a path and whether
    /// it is a directory: the hooks found before are forgotten, and the entries
    /// that are not directories become the hooks, in their order.
    pub fn load_entries(&mut self, entries: &Vec<(String, bool)>)
        ensures
            final(self).spec_hooks() == hook_paths(entries@),
    {
        self.clear();
        let n: usize = entries.len();
        let mut i: usize = 0;
        while i < n
            invariant
                n == entries@.len(),
                i <= n,
                self.spec_hooks() == hook_paths(entries@.take(i as int)),
            decreases n - i,
        {
            let (path, is_dir) = &entries[i];
            self.register_entry(path.clone(), *is_dir);
            proof {
                assert(entries@.take(i + 1).drop_last() =~= entries@.take(i as int));
            }
            i = i + 1;
        }
        proof {
            assert(entries@.take(n as int) =~= entries@);
        }
    }
}

/// The hooks kept from the entries of a directory: the paths of the entries
/// that are not directories, in the order of the entries.
pub open spec fn hook_paths(entries: Seq<(String, bool)>) -> Seq<String>
    decreases entries.len(),
{
    if entries.len() == 0 {
        Seq::empty()
    } else {
        let rest = hook_paths(entries.drop_last());
        if entries.last().1 { rest } else { rest.push(entries.last().0) }
    }
}

/// Loading keeps exactly the entries that are not directories: every kept path
/// is the path of a non-directory entry, and every non-directory entry is kept.
pub proof fn law_load_keeps_non_directories(entries: Seq<(String, bool)>)
    ensures
        forall|i: int| 0 <= i < hook_paths(entries).len() ==>
            exists|j: int| 0 <= j < entries.len() && !entries[j].1 && entries[j].0 == #[trigger] hook_paths(entries)[i],
        forall|j: int| 0 <= j < entries.len() && !entries[j].1 ==>
            hook_paths(entries).contains(#[trigger] entries[j].0),
    decreases entries.len(),
{
    if entries.len() > 0 {
        let init = entries.drop_last();
        law_load_keeps_non_directories(init);
        assert forall|i: int| 0 <= i < hook_paths(entries).len() implies
            exists|j: int| 0 <= j < entries.len() && !entries[j].1 && entries[j].0 == #[trigger] hook_paths(entries)[i] by {
            if i < hook_paths(init).len() {
                let j = choose|j: int| 0 <= j < init.len() && !init[j].1 && init[j].0 == hook_paths(init)[i];
                assert(entries[j] == init[j]);
            } else {
                assert(entries[entries.len() - 1] == entries.last());
            }
        }
        assert forall|j: int| 0 <= j < entries.len() && !entries[j].1 implies
            hook_paths(entries).contains(#[trigger] entries[j].0) by {
            if j < init.len() {
                assert(entries[j] == init[j]);
                let k = choose|k: int| 0 <= k < hook_paths(init).len() && hook_paths(init)[k] == init[j].0;
                assert(hook_paths(entries)[k] == init[j].0);
            } else {
                assert(hook_paths(entries).last() == entries[j].0);
            }
        }
    }
}

proof fn lemma_hook_paths_filter_map(
    entries: Seq<(String, bool)>,
    keep: spec_fn((String, bool)) -> bool,
    path: spec_fn((String, bool)) -> String,
)
    requires
        forall|e: (String, bool)| #[trigger] keep(e) == !e.1,
        forall|e: (String, bool)| #[trigger] path(e) == e.0,
    ensures
        hook_paths(entries) == entries.filter(keep).map_values(path),
    decreases entries.len(),
{
    reveal(Seq::filter);
    if entries.len() > 0 {
        lemma_hook_paths_filter_map(entries.drop_last(), keep, path);
        let before = entries.drop_last().filter(keep);
        assert(before.push(entries.last()).map_values(path) =~= before.map_values(path).push(path(entries.last())));
    } else {
        assert(entries.filter(keep).map_values(path) =~= Seq::<String>::empty());
    }
}

/// The hooks loaded from a directory are exactly the paths of its entries that are
/// not directories, each once, in the order of the entries: keep the file entries,
/// then take their paths. In particular there are as many hooks as file entries,
/// and a directory holding only files gives all its paths in order.
pub proof fn law_hooks_are_the_file_entries(entries: Seq<(String, bool)>)
    ensures
        hook_paths(entries) == entries.filter(|e: (String, bool)| !e.1).map_values(|e: (String, bool)| e.0),
        hook_paths(entries).len() == entries.filter(|e: (String, bool)| !e.1).len(),
        (forall|j: int| 0 <= j < entries.len() ==> !(#[trigger] entries[j]).1)
            ==> hook_paths(entries) == entries.map_values(|e: (String, bool)| e.0),
{
    let keep = |e: (String, bool)| !e.1;
    let path = |e: (String, bool)| e.0;
    lemma_hook_paths_filter_map(entries, keep, path);
    if forall|j: int| 0 <= j < entries.len() ==> !(#[trigger] entries[j]).1 {
        lemma_filter_keeps_all(entries, keep);
    }
}

proof fn lemma_filter_keeps_all<A>(s: Seq<A>, keep: spec_fn(A) -> bool)
    requires
        forall|j: int| 0 <= j < s.len() ==> keep(#[trigger] s[j]),
    ensures
        s.filter(keep) == s,
    decreases s.len(),
{
    reveal(Seq::filter);
    if s.len() > 0 {
        lemma_filter_keeps_all(s.drop_last(), keep);
        assert(s.drop_last().push(s.last()) =~= s);
    }
}

} // verus!
