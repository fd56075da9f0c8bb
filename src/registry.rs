//! The registry: registered tests grouped by module path, modules kept in
//! ascending path order, tests of a module in registration order.
use vstd::prelude::*;
use vstd::string::*;
use crate::model::{TestFunction, TestInfo};
use crate::order::{compare_paths, lemma_path_lt_irreflexive, lemma_path_lt_transitive, path_lt, PathOrder};

verus! {

/// The tests registered under one module path.
#[derive(Debug, Clone)]
pub struct ModuleTests<V, R> {
    pub path: String,
    pub tests: Vec<TestInfo<V, R>>,
}

/// A module as the contracts see it: its path and its tests.
pub type ModuleView<V, R> = (Seq<char>, Seq<TestInfo<V, R>>);

pub open spec fn module_view<V, R>(m: ModuleTests<V, R>) -> ModuleView<V, R> {
    (m.path@, m.tests@)
}

pub open spec fn modules_view<V, R>(ms: Seq<ModuleTests<V, R>>) -> Seq<ModuleView<V, R>> {
    ms.map_values(|m: ModuleTests<V, R>| module_view(m))
}

/// Modules strictly ascending by path, none empty, and each test recording
/// the path of the module that holds it.
pub open spec fn modules_wf<V, R>(v: Seq<ModuleView<V, R>>) -> bool {
    &&& forall|i: int, j: int| 0 <= i < j < v.len() ==> path_lt(#[trigger] v[i].0, #[trigger] v[j].0)
    &&& forall|i: int| 0 <= i < v.len() ==> (#[trigger] v[i]).1.len() > 0
    &&& forall|i: int, t: int|
        0 <= i < v.len() && 0 <= t < v[i].1.len() ==> (#[trigger] v[i].1[t]).path@ == v[i].0
}

/// The tests registered under `path`, in registration order; empty where
/// there are none.
pub open spec fn tests_at<V, R>(v: Seq<ModuleView<V, R>>, path: Seq<char>) -> Seq<TestInfo<V, R>> {
    if exists|i: int| 0 <= i < v.len() && v[i].0 == path {
        v[choose|i: int| 0 <= i < v.len() && v[i].0 == path].1
    } else {
        Seq::empty()
    }
}

/// In well-formed modules a path names at most one module.
pub proof fn lemma_tests_at_index<V, R>(v: Seq<ModuleView<V, R>>, i: int)
    requires
        modules_wf(v),
        0 <= i < v.len(),
    ensures
        tests_at(v, v[i].0) == v[i].1,
{
    let j = choose|j: int| 0 <= j < v.len() && v[j].0 == v[i].0;
    if j != i {
        lemma_path_lt_irreflexive(v[i].0);
        if j < i {
            assert(path_lt(v[j].0, v[i].0));
        } else {
            assert(path_lt(v[i].0, v[j].0));
        }
    }
}

proof fn lemma_key_has_index<V, R>(v: Seq<ModuleView<V, R>>, k: Seq<char>) -> (i: int)
    requires
        modules_wf(v),
        tests_at(v, k).len() > 0,
    ensures
        0 <= i < v.len(),
        v[i].0 == k,
{
    choose|i: int| 0 <= i < v.len() && v[i].0 == k
}

proof fn lemma_same_prefix<V, R>(v1: Seq<ModuleView<V, R>>, v2: Seq<ModuleView<V, R>>, n: int)
    requires
        modules_wf(v1),
        modules_wf(v2),
        forall|k: Seq<char>| tests_at(v1, k) == tests_at(v2, k),
        0 <= n <= v1.len(),
    ensures
        n <= v2.len(),
        forall|j: int| 0 <= j < n ==> v1[j] == v2[j],
    decreases n,
{
    if n > 0 {
        let i = n - 1;
        lemma_same_prefix(v1, v2, i);
        let k1 = v1[i].0;
        lemma_tests_at_index(v1, i);
        let j2 = lemma_key_has_index(v2, k1);
        lemma_tests_at_index(v2, j2);
        if j2 < i {
            assert(v1[j2] == v2[j2]);
            lemma_path_lt_irreflexive(k1);
            assert(path_lt(v1[j2].0, v1[i].0));
        }
        assert(j2 >= i);
        let k2 = v2[i].0;
        lemma_tests_at_index(v2, i);
        let j1 = lemma_key_has_index(v1, k2);
        if j1 < i {
            assert(v1[j1] == v2[j1]);
            lemma_path_lt_irreflexive(k2);
            assert(path_lt(v2[j1].0, v2[i].0));
        }
        assert(j1 >= i);
        if k1 != k2 {
            assert(j2 > i && j1 > i);
            assert(path_lt(k2, k1));
            assert(path_lt(k1, k2));
            lemma_path_lt_transitive(k1, k2, k1);
            lemma_path_lt_irreflexive(k1);
        }
        lemma_tests_at_index(v2, i);
        assert(v1[i] == v2[i]);
    }
}

/// The layout of a registry depends only on which tests are registered under
/// which path: two registries with the same tests under every path hold the
/// same modules in the same order, whatever order the modules were first
/// registered in.
pub proof fn law_layout_follows_contents<V, R>(v1: Seq<ModuleView<V, R>>, v2: Seq<ModuleView<V, R>>)
    requires
        modules_wf(v1),
        modules_wf(v2),
        forall|k: Seq<char>| tests_at(v1, k) == tests_at(v2, k),
    ensures
        v1 == v2,
{
    lemma_same_prefix(v1, v2, v1.len() as int);
    lemma_same_prefix(v2, v1, v2.len() as int);
    assert(v1 =~= v2);
}

/// The test registry.
pub struct Registry<V, R> {
    modules: Vec<ModuleTests<V, R>>,
}

impl<V, R> Registry<V, R> {
    #[verifier::type_invariant]
    closed spec fn inv(&self) -> bool {
        modules_wf(modules_view(self.modules@))
    }
}

impl<V, R> View for Registry<V, R> {
    type V = Seq<ModuleView<V, R>>;

    closed spec fn view(&self) -> Seq<ModuleView<V, R>> {
        modules_view(self.modules@)
    }
}

impl<V: Copy, R: Copy> Registry<V, R> {
    /// An empty registry.
    pub fn new() -> (r: Registry<V, R>)
        ensures
            r@ == Seq::<ModuleView<V, R>>::empty(),
            modules_wf(r@),
    {
        let r = Registry { modules: Vec::new() };
        assert(r@ =~= Seq::<ModuleView<V, R>>::empty());
        r
    }

    /// An independent copy of the registry.
    pub fn duplicate(&self) -> (r: Registry<V, R>)
        ensures
            r@ == self@,
    {
        let modules = self.snapshot();
        Registry { modules }
    }

    /// An independent copy of every module, in ascending path order.
    pub fn snapshot(&self) -> (r: Vec<ModuleTests<V, R>>)
        ensures
            modules_view(r@) == self@,
            modules_wf(self@),
    {
        proof {
            use_type_invariant(self);
        }
        let mut out: Vec<ModuleTests<V, R>> = Vec::new();
        let mut i: usize = 0;
        while i < self.modules.len()
            invariant
                i <= self.modules@.len(),
                modules_view(out@) =~= modules_view(self.modules@.subrange(0, i as int)),
            decreases self.modules@.len() - i,
        {
            let m = &self.modules[i];
            let mut tests: Vec<TestInfo<V, R>> = Vec::new();
            let mut t: usize = 0;
            while t < m.tests.len()
                invariant
                    t <= m.tests@.len(),
                    tests@ =~= m.tests@.subrange(0, t as int),
                decreases m.tests@.len() - t,
            {
                tests.push(m.tests[t].duplicate());
                t = t + 1;
            }
            assert(tests@ =~= m.tests@);
            let ghost before = out@;
            out.push(ModuleTests { path: m.path.clone(), tests });
            assert(out@ =~= before.push(out@.last()));
            assert(module_view(out@.last()) == module_view(self.modules@[i as int]));
            assert(modules_view(out@) =~= modules_view(before).push(module_view(out@.last())));
            assert(self.modules@.subrange(0, i + 1) =~= self.modules@.subrange(0, i as int).push(
                self.modules@[i as int],
            ));
            i = i + 1;
        }
        assert(self.modules@.subrange(0, i as int) =~= self.modules@);
        out
    }
}

/// Appends a test to the list of `path`, creating the list if there is none.
pub fn collect_test<V: Copy, R: Copy>(
    registry: &mut Registry<V, R>,
    path: &str,
    name: &str,
    func: TestFunction<V, R>,
    init_db: bool,
)
    ensures
        modules_wf(final(registry)@),
        tests_at(final(registry)@, path@).len() == tests_at(old(registry)@, path@).len() + 1,
        tests_at(final(registry)@, path@).drop_last() == tests_at(old(registry)@, path@),
        tests_at(final(registry)@, path@).last().init_db == init_db,
        tests_at(final(registry)@, path@).last().name@ == name@,
        tests_at(final(registry)@, path@).last().path@ == path@,
        tests_at(final(registry)@, path@).last().func == func,
        forall|k: Seq<char>| k != path@ ==> tests_at(final(registry)@, k) == tests_at(old(registry)@, k),
{
    let info = TestInfo { init_db, name: String::from_str(name), path: String::from_str(path), func };
    let mut taken: Registry<V, R> = Registry { modules: Vec::new() };
    proof {
        assert(modules_view(taken.modules@) =~= Seq::<ModuleView<V, R>>::empty());
    }
    std::mem::swap(registry, &mut taken);
    proof {
        use_type_invariant(&taken);
    }
    let mut modules = taken.modules;
    let ghost v = modules_view(modules@);
    let mut i: usize = 0;
    let mut found = false;
    let mut stop = false;
    while !stop && i < modules.len()
        invariant
            modules_view(modules@) == v,
            i <= v.len(),
            modules_wf(v),
            forall|j: int| 0 <= j < i ==> path_lt(#[trigger] v[j].0, path@),
            !stop ==> !found,
            found ==> i < v.len() && v[i as int].0 == path@,
            stop && !found ==> i < v.len() && path_lt(path@, v[i as int].0),
        decreases v.len() - i + (if stop { 0int } else { 1int }),
    {
        match compare_paths(modules[i].path.as_str(), path) {
            PathOrder::Less => {
                i = i + 1;
            },
            PathOrder::Equal => {
                found = true;
                stop = true;
            },
            PathOrder::Greater => {
                stop = true;
            },
        }
    }
    if found {
        let mut m = modules.remove(i);
        m.tests.push(info);
        modules.insert(i, m);
        proof {
            let w = modules_view(modules@);
            assert(w =~= v.update(i as int, (v[i as int].0, v[i as int].1.push(info))));
            assert forall|a: int, b: int| 0 <= a < b < w.len() implies path_lt(#[trigger] w[a].0, #[trigger] w[b].0) by {
                assert(path_lt(v[a].0, v[b].0));
            }
            assert forall|a: int, t: int| 0 <= a < w.len() && 0 <= t < w[a].1.len()
                implies (#[trigger] w[a].1[t]).path@ == w[a].0 by {
                if a == i && t == v[a].1.len() {
                } else {
                    assert(w[a].1[t] == v[a].1[t]);
                }
            }
            lemma_tests_at_index(v, i as int);
            lemma_tests_at_index(w, i as int);
            assert(w[i as int].1.drop_last() =~= v[i as int].1);
            assert forall|k: Seq<char>| k != path@ implies tests_at(w, k) == tests_at(v, k) by {
                if exists|j: int| 0 <= j < v.len() && v[j].0 == k {
                    let j = choose|j: int| 0 <= j < v.len() && v[j].0 == k;
                    lemma_tests_at_index(v, j);
                    lemma_tests_at_index(w, j);
                } else {
                    assert(!exists|j: int| 0 <= j < w.len() && w[j].0 == k);
                }
            }
        }
    } else {
        let ghost p = path@;
        let mut tests: Vec<TestInfo<V, R>> = Vec::new();
        tests.push(info);
        modules.insert(i, ModuleTests { path: String::from_str(path), tests });
        proof {
            let w = modules_view(modules@);
            assert(w =~= v.insert(i as int, (p, seq![info])));
            assert forall|a: int, b: int| 0 <= a < b < w.len() implies path_lt(#[trigger] w[a].0, #[trigger] w[b].0) by {
                if b < i {
                    assert(path_lt(v[a].0, v[b].0));
                } else if b == i {
                } else if a == i {
                    if b - 1 > i {
                        assert(path_lt(v[i as int].0, v[b - 1].0));
                        lemma_path_lt_transitive(p, v[i as int].0, v[b - 1].0);
                    }
                } else if a < i {
                    lemma_path_lt_transitive(v[a].0, p, v[i as int].0);
                    if b - 1 > i {
                        assert(path_lt(v[i as int].0, v[b - 1].0));
                        lemma_path_lt_transitive(v[a].0, v[i as int].0, v[b - 1].0);
                    }
                } else {
                    assert(path_lt(v[a - 1].0, v[b - 1].0));
                }
            }
            assert forall|a: int| 0 <= a < w.len() implies (#[trigger] w[a]).1.len() > 0 by {
                if a < i {
                    assert(w[a] == v[a]);
                } else if a > i {
                    assert(w[a] == v[a - 1]);
                }
            }
            assert forall|a: int, t: int| 0 <= a < w.len() && 0 <= t < w[a].1.len()
                implies (#[trigger] w[a].1[t]).path@ == w[a].0 by {
                if a < i {
                    assert(w[a] == v[a]);
                } else if a > i {
                    assert(w[a] == v[a - 1]);
                }
            }
            lemma_path_lt_irreflexive(p);
            assert forall|j: int| 0 <= j < v.len() implies v[j].0 != p by {
                if j < i {
                } else if j > i {
                    assert(path_lt(v[i as int].0, v[j].0));
                    lemma_path_lt_transitive(p, v[i as int].0, v[j].0);
                }
            }
            lemma_tests_at_index(w, i as int);
            assert(seq![info].drop_last() =~= Seq::<TestInfo<V, R>>::empty());
            assert forall|k: Seq<char>| k != p implies tests_at(w, k) == tests_at(v, k) by {
                if exists|j: int| 0 <= j < v.len() && v[j].0 == k {
                    let j = choose|j: int| 0 <= j < v.len() && v[j].0 == k;
                    lemma_tests_at_index(v, j);
                    if j < i {
                        lemma_tests_at_index(w, j);
                    } else {
                        assert(w[j + 1] == v[j]);
                        lemma_tests_at_index(w, j + 1);
                    }
                } else {
                    assert forall|j: int| 0 <= j < w.len() implies w[j].0 != k by {
                        if j < i {
                            assert(w[j] == v[j]);
                        } else if j > i {
                            assert(w[j] == v[j - 1]);
                        }
                    }
                }
            }
        }
    }
    *registry = Registry { modules };
}

/// Registers a test whose body reports failure only by faulting.
pub fn __collect_test_void<V: Copy, R: Copy>(
    registry: &mut Registry<V, R>,
    path: &str,
    name: &str,
    func: V,
    init_db: bool,
)
    ensures
        modules_wf(final(registry)@),
        tests_at(final(registry)@, path@) == tests_at(old(registry)@, path@).push(
            tests_at(final(registry)@, path@).last(),
        ),
        tests_at(final(registry)@, path@).last().init_db == init_db,
        tests_at(final(registry)@, path@).last().name@ == name@,
        tests_at(final(registry)@, path@).last().path@ == path@,
        tests_at(final(registry)@, path@).last().func == TestFunction::<V, R>::Void(func),
        forall|k: Seq<char>| k != path@ ==> tests_at(final(registry)@, k) == tests_at(old(registry)@, k),
{
    collect_test(registry, path, name, TestFunction::Void(func), init_db);
    assert(tests_at(registry@, path@) =~= tests_at(old(registry)@, path@).push(tests_at(registry@, path@).last()));
}

/// Registers a test whose body reports failure by returning an error.
pub fn __collect_test_with_result<V: Copy, R: Copy>(
    registry: &mut Registry<V, R>,
    path: &str,
    name: &str,
    func: R,
    init_db: bool,
)
    ensures
        modules_wf(final(registry)@),
        tests_at(final(registry)@, path@) == tests_at(old(registry)@, path@).push(
            tests_at(final(registry)@, path@).last(),
        ),
        tests_at(final(registry)@, path@).last().init_db == init_db,
        tests_at(final(registry)@, path@).last().name@ == name@,
        tests_at(final(registry)@, path@).last().path@ == path@,
        tests_at(final(registry)@, path@).last().func == TestFunction::<V, R>::Result(func),
        forall|k: Seq<char>| k != path@ ==> tests_at(final(registry)@, k) == tests_at(old(registry)@, k),
{
    collect_test(registry, path, name, TestFunction::Result(func), init_db);
    assert(tests_at(registry@, path@) =~= tests_at(old(registry)@, path@).push(tests_at(registry@, path@).last()));
}

} // verus!
