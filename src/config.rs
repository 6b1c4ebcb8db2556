use vstd::prelude::*;
use crate::dependency::{merged, Dependency, DependencyView};
use crate::paths::str_eq;

verus! {

/// The model of a dependency table: names with their entries, in order.
pub type TableView = Seq<(Seq<char>, DependencyView)>;

/// The model of a table held as a vector of pairs.
pub open spec fn table_view(t: Seq<(String, Dependency)>) -> TableView {
    t.map_values(|e: (String, Dependency)| (e.0@, e.1@))
}

/// The model of an optional table: an absent table holds no entry.
pub open spec fn deps_view(o: Option<Vec<(String, Dependency)>>) -> TableView {
    match o {
        Some(v) => table_view(v@),
        None => Seq::empty(),
    }
}

/// `i` is the first position of name `k` in `t`.
pub open spec fn is_first_key(t: TableView, k: Seq<char>, i: int) -> bool {
    &&& 0 <= i < t.len()
    &&& t[i].0 == k
    &&& forall|j: int| 0 <= j < i ==> t[j].0 != k
}

/// The first position of name `k` in `t`, or -1 when it is not there.
pub open spec fn key_index(t: TableView, k: Seq<char>) -> int {
    if exists|i: int| is_first_key(t, k, i) {
        choose|i: int| is_first_key(t, k, i)
    } else {
        -1
    }
}

/// The entry declared under name `k`.
pub open spec fn lookup(t: TableView, k: Seq<char>) -> Option<DependencyView> {
    if key_index(t, k) >= 0 {
        Some(t[key_index(t, k)].1)
    } else {
        None
    }
}

/// No name is declared twice.
pub open spec fn keys_unique(t: TableView) -> bool {
    forall|i: int, j: int| 0 <= i < j < t.len() ==> t[i].0 != t[j].0
}

/// `t` with the entry for `k` set to `d`: replaced in place when `k` is
/// declared, appended otherwise.
pub open spec fn with_entry(t: TableView, k: Seq<char>, d: DependencyView) -> TableView {
    if key_index(t, k) >= 0 {
        t.update(key_index(t, k), (k, d))
    } else {
        t.push((k, d))
    }
}

/// `t` without the entry for `k`.
pub open spec fn without_entry(t: TableView, k: Seq<char>) -> TableView {
    if key_index(t, k) >= 0 {
        t.remove(key_index(t, k))
    } else {
        t
    }
}

/// Every entry of `t` with the lock entry of the same name folded in.
pub open spec fn merged_table(t: TableView, lock: TableView) -> TableView {
    t.map_values(
        |e: (Seq<char>, DependencyView)|
            match lookup(lock, e.0) {
                Some(l) => (e.0, merged(e.1, l)),
                None => e,
            },
    )
}

/// The first position of a name is the one `key_index` gives.
pub proof fn lemma_first_key_unique(t: TableView, k: Seq<char>, i: int)
    requires
        is_first_key(t, k, i),
    ensures
        key_index(t, k) == i,
{
    let c = choose|c: int| is_first_key(t, k, c);
    assert(is_first_key(t, k, c));
    if c < i {
        assert(t[c].0 != k);
    } else if c > i {
        assert(t[i].0 != k);
    }
}

/// A name at no position has no index.
pub proof fn lemma_key_absent(t: TableView, k: Seq<char>)
    requires
        forall|j: int| 0 <= j < t.len() ==> t[j].0 != k,
    ensures
        key_index(t, k) == -1,
{
}

/// In a table without repeated names, any position of a name is its index.
pub proof fn lemma_unique_index(t: TableView, k: Seq<char>, i: int)
    requires
        keys_unique(t),
        0 <= i < t.len(),
        t[i].0 == k,
    ensures
        key_index(t, k) == i,
        lookup(t, k) == Some(t[i].1),
{
    assert(is_first_key(t, k, i));
    lemma_first_key_unique(t, k, i);
}

/// A name declared at some position is found.
pub proof fn lemma_present_key_found(t: TableView, k: Seq<char>, i: int)
    requires
        0 <= i < t.len(),
        t[i].0 == k,
    ensures
        key_index(t, k) >= 0,
        lookup(t, k) is Some,
    decreases i,
{
    if exists|j: int| 0 <= j < i && t[j].0 == k {
        let j = choose|j: int| 0 <= j < i && t[j].0 == k;
        lemma_present_key_found(t, k, j);
    } else {
        assert(is_first_key(t, k, i));
        lemma_first_key_unique(t, k, i);
    }
}

/// Setting an entry makes it the one found under its name, leaves every
/// other name as it was, and keeps names unique.
pub proof fn lemma_with_entry(t: TableView, k: Seq<char>, d: DependencyView)
    requires
        keys_unique(t),
    ensures
        keys_unique(with_entry(t, k, d)),
        lookup(with_entry(t, k, d), k) == Some(d),
        forall|k2: Seq<char>| k2 != k ==> lookup(with_entry(t, k, d), k2) == lookup(t, k2),
{
    let s = with_entry(t, k, d);
    let i = key_index(t, k);
    if i >= 0 {
        assert(is_first_key(t, k, i)) by {
            assert(exists|c: int| is_first_key(t, k, c));
        }
    } else {
        assert forall|j: int| 0 <= j < t.len() implies t[j].0 != k by {
            if t[j].0 == k {
                lemma_unique_index(t, k, j);
            }
        }
    }
    assert(keys_unique(s));
    lemma_unique_index(s, k, if i >= 0 { i } else { t.len() as int });
    assert forall|k2: Seq<char>| k2 != k implies lookup(s, k2) == lookup(t, k2) by {
        if exists|p: int| 0 <= p < t.len() && t[p].0 == k2 {
            let p = choose|p: int| 0 <= p < t.len() && t[p].0 == k2;
            lemma_unique_index(t, k2, p);
            lemma_unique_index(s, k2, p);
        } else {
            assert forall|j: int| 0 <= j < s.len() implies s[j].0 != k2 by {}
            lemma_key_absent(s, k2);
            lemma_key_absent(t, k2);
        }
    }
}

/// Removing an entry leaves its name undeclared, every other name as it
/// was, and names unique.
pub proof fn lemma_without_entry(t: TableView, k: Seq<char>)
    requires
        keys_unique(t),
    ensures
        keys_unique(without_entry(t, k)),
        lookup(without_entry(t, k), k) is None,
        forall|k2: Seq<char>| k2 != k ==> lookup(without_entry(t, k), k2) == lookup(t, k2),
{
    let s = without_entry(t, k);
    let i = key_index(t, k);
    if i >= 0 {
        assert(is_first_key(t, k, i)) by {
            assert(exists|c: int| is_first_key(t, k, c));
        }
        assert forall|a: int, b: int| 0 <= a < b < s.len() implies s[a].0 != s[b].0 by {
            let ta = if a < i { a } else { a + 1 };
            let tb = if b < i { b } else { b + 1 };
            assert(s[a] == t[ta]);
            assert(s[b] == t[tb]);
        }
        assert forall|j: int| 0 <= j < s.len() implies s[j].0 != k by {
            let tj = if j < i { j } else { j + 1 };
            assert(s[j] == t[tj]);
        }
        lemma_key_absent(s, k);
        assert forall|k2: Seq<char>| k2 != k implies lookup(s, k2) == lookup(t, k2) by {
            if exists|p: int| 0 <= p < t.len() && t[p].0 == k2 {
                let p = choose|p: int| 0 <= p < t.len() && t[p].0 == k2;
                lemma_unique_index(t, k2, p);
                let q = if p < i { p } else { p - 1 };
                assert(s[q] == t[p]);
                lemma_unique_index(s, k2, q);
            } else {
                assert forall|j: int| 0 <= j < s.len() implies s[j].0 != k2 by {
                    let tj = if j < i { j } else { j + 1 };
                    assert(s[j] == t[tj]);
                }
                lemma_key_absent(s, k2);
                lemma_key_absent(t, k2);
            }
        }
    } else {
        assert forall|j: int| 0 <= j < t.len() implies t[j].0 != k by {
            if t[j].0 == k {
                lemma_unique_index(t, k, j);
            }
        }
        lemma_key_absent(t, k);
    }
}

/// Finds the first entry declared under `name`.
pub fn find_entry(entries: &Vec<(String, Dependency)>, name: &str) -> (r: Option<usize>)
    ensures
        match r {
            Some(i) => i as int == key_index(table_view(entries@), name@) && i < entries@.len(),
            None => key_index(table_view(entries@), name@) == -1,
        },
{
    let ghost t = table_view(entries@);
    let mut i: usize = 0;
    while i < entries.len()
        invariant
            t == table_view(entries@),
            i <= entries@.len(),
            forall|j: int| 0 <= j < i ==> t[j].0 != name@,
        decreases entries@.len() - i,
    {
        if str_eq(entries[i].0.as_str(), name) {
            proof {
                lemma_first_key_unique(t, name@, i as int);
            }
            return Some(i);
        }
        i = i + 1;
    }
    proof {
        lemma_key_absent(t, name@);
    }
    None
}

/// Sets the entry for `name` in a table.
pub fn set_entry(entries: &mut Vec<(String, Dependency)>, name: String, dep: Dependency)
    ensures
        table_view(final(entries)@) == with_entry(table_view(old(entries)@), name@, dep@),
{
    match find_entry(entries, name.as_str()) {
        Some(i) => {
            entries.set(i, (name, dep));
            assert(table_view(entries@) =~= with_entry(table_view(old(entries)@), name@, dep@));
        },
        None => {
            entries.push((name, dep));
            assert(table_view(entries@) =~= with_entry(table_view(old(entries)@), name@, dep@));
        },
    }
}

/// Removes the entry for `name` from a table.
pub fn remove_entry(entries: &mut Vec<(String, Dependency)>, name: &str)
    ensures
        table_view(final(entries)@) == without_entry(table_view(old(entries)@), name@),
{
    if let Some(i) = find_entry(entries, name) {
        entries.remove(i);
        assert(table_view(entries@) =~= without_entry(table_view(old(entries)@), name@));
    }
}

/// A table with the entries of a lock table folded in, name by name.
pub fn merge_table(entries: &Vec<(String, Dependency)>, lock: &Vec<(String, Dependency)>) -> (r: Vec<
    (String, Dependency),
>)
    ensures
        table_view(r@) == merged_table(table_view(entries@), table_view(lock@)),
{
    let ghost want = merged_table(table_view(entries@), table_view(lock@));
    let mut out: Vec<(String, Dependency)> = Vec::new();
    let mut i: usize = 0;
    while i < entries.len()
        invariant
            i <= entries@.len(),
            want == merged_table(table_view(entries@), table_view(lock@)),
            table_view(out@) =~= want.subrange(0, i as int),
        decreases entries@.len() - i,
    {
        let name = entries[i].0.clone();
        let mut dep = entries[i].1.clone();
        match find_entry(lock, name.as_str()) {
            Some(j) => {
                assert(table_view(lock@)[j as int].1 == lock@[j as int].1@);
                dep.try_merge_lock_dependency(&lock[j].1);
            },
            None => {},
        }
        assert(table_view(entries@)[i as int] == (name@, entries@[i as int].1@));
        let ghost before = out@;
        let ghost item = (name@, dep@);
        out.push((name, dep));
        assert(want[i as int] == item);
        assert(table_view(out@) =~= table_view(before).push(item));
        assert(want.subrange(0, i + 1) =~= want.subrange(0, i as int).push(item));
        i = i + 1;
    }
    out
}

/// The package a manifest describes.
#[derive(Debug, PartialEq, Eq)]
pub struct Package {
    pub name: Option<String>,
    pub version: Option<String>,
    pub path: Option<String>,
}

/// A manifest: an optional package, its dependencies and its development
/// dependencies.
#[derive(Debug, PartialEq, Eq)]
pub struct WorkspaceConfig {
    pub package: Option<Package>,
    pub dependencies: Option<Vec<(String, Dependency)>>,
    pub dev_dependencies: Option<Vec<(String, Dependency)>>,
}

/// A lock: the resolved entry of each dependency name.
#[derive(Debug, PartialEq, Eq)]
pub struct WorkspaceLock {
    pub dependencies: Option<Vec<(String, Dependency)>>,
}

impl WorkspaceConfig {
    /// An empty manifest.
    pub fn new() -> (r: Self)
        ensures
            r.package is None,
            r.dependencies is None,
            r.dev_dependencies is None,
    {
        WorkspaceConfig { package: None, dependencies: None, dev_dependencies: None }
    }

    /// No table declares a name twice.
    pub open spec fn wf(&self) -> bool {
        &&& keys_unique(deps_view(self.dependencies))
        &&& keys_unique(deps_view(self.dev_dependencies))
    }

    /// Folds the lock into both tables: each entry whose name the lock
    /// holds gets the locked values for the fields it leaves unset.
    pub fn try_merge_lock_file(&mut self, lock: &WorkspaceLock)
        ensures
            old(self).wf() ==> final(self).wf(),
            final(self).package == old(self).package,
            final(self).dependencies is Some <==> old(self).dependencies is Some,
            final(self).dev_dependencies is Some <==> old(self).dev_dependencies is Some,
            deps_view(final(self).dependencies) == merged_table(
                deps_view(old(self).dependencies),
                deps_view(lock.dependencies),
            ),
            deps_view(final(self).dev_dependencies) == merged_table(
                deps_view(old(self).dev_dependencies),
                deps_view(lock.dependencies),
            ),
    {
        let locked = match &lock.dependencies {
            Some(l) => l,
            None => {
                assert(deps_view(self.dependencies) =~= merged_table(deps_view(self.dependencies), deps_view(lock.dependencies)));
                assert(deps_view(self.dev_dependencies) =~= merged_table(deps_view(self.dev_dependencies), deps_view(lock.dependencies)));
                return;
            },
        };
        let deps = match &self.dependencies {
            Some(d) => Some(merge_table(d, locked)),
            None => None,
        };
        let dev = match &self.dev_dependencies {
            Some(d) => Some(merge_table(d, locked)),
            None => None,
        };
        assert(deps_view(deps) =~= merged_table(deps_view(self.dependencies), deps_view(lock.dependencies)));
        assert(deps_view(dev) =~= merged_table(deps_view(self.dev_dependencies), deps_view(lock.dependencies)));
        self.dependencies = deps;
        self.dev_dependencies = dev;
    }

    /// Declares `name` as a dependency, replacing any earlier entry of
    /// that name.
    pub fn add_dependency(&mut self, name: String, dep: Dependency)
        ensures
            old(self).wf() ==> final(self).wf(),
            final(self).package == old(self).package,
            final(self).dev_dependencies == old(self).dev_dependencies,
            final(self).dependencies is Some,
            deps_view(final(self).dependencies) == with_entry(deps_view(old(self).dependencies), name@, dep@),
    {
        proof {
            if self.wf() {
                lemma_with_entry(deps_view(self.dependencies), name@, dep@);
            }
        }
        let mut deps = match self.dependencies.take() {
            Some(d) => d,
            None => Vec::new(),
        };
        proof {
            lemma_key_absent(Seq::empty(), name@);
        }
        set_entry(&mut deps, name, dep);
        self.dependencies = Some(deps);
    }

    /// Declares `name` as a development dependency, replacing any earlier
    /// entry of that name.
    pub fn add_dev_dependency(&mut self, name: String, dep: Dependency)
        ensures
            old(self).wf() ==> final(self).wf(),
            final(self).package == old(self).package,
            final(self).dependencies == old(self).dependencies,
            final(self).dev_dependencies is Some,
            deps_view(final(self).dev_dependencies) == with_entry(deps_view(old(self).dev_dependencies), name@, dep@),
    {
        proof {
            if self.wf() {
                lemma_with_entry(deps_view(self.dev_dependencies), name@, dep@);
            }
        }
        let mut deps = match self.dev_dependencies.take() {
            Some(d) => d,
            None => Vec::new(),
        };
        proof {
            lemma_key_absent(Seq::empty(), name@);
        }
        set_entry(&mut deps, name, dep);
        self.dev_dependencies = Some(deps);
    }

    /// Removes the dependency declared as `name`, if any.
    pub fn remove_dependency(&mut self, name: &str)
        ensures
            old(self).wf() ==> final(self).wf(),
            final(self).package == old(self).package,
            final(self).dev_dependencies == old(self).dev_dependencies,
            final(self).dependencies is Some <==> old(self).dependencies is Some,
            deps_view(final(self).dependencies) == without_entry(deps_view(old(self).dependencies), name@),
    {
        proof {
            if self.wf() {
                lemma_without_entry(deps_view(self.dependencies), name@);
            }
        }
        match self.dependencies.take() {
            Some(mut d) => {
                remove_entry(&mut d, name);
                self.dependencies = Some(d);
            },
            None => {
                proof {
                    lemma_key_absent(Seq::empty(), name@);
                }
            },
        }
    }

    /// Removes the development dependency declared as `name`, if any.
    pub fn remove_dev_dependency(&mut self, name: &str)
        ensures
            old(self).wf() ==> final(self).wf(),
            final(self).package == old(self).package,
            final(self).dependencies == old(self).dependencies,
            final(self).dev_dependencies is Some <==> old(self).dev_dependencies is Some,
            deps_view(final(self).dev_dependencies) == without_entry(deps_view(old(self).dev_dependencies), name@),
    {
        proof {
            if self.wf() {
                lemma_without_entry(deps_view(self.dev_dependencies), name@);
            }
        }
        match self.dev_dependencies.take() {
            Some(mut d) => {
                remove_entry(&mut d, name);
                self.dev_dependencies = Some(d);
            },
            None => {
                proof {
                    lemma_key_absent(Seq::empty(), name@);
                }
            },
        }
    }

    /// The dependency declared as `name`.
    pub fn get_dependency(&self, name: &str) -> (r: Option<&Dependency>)
        ensures
            match r {
                Some(d) => lookup(deps_view(self.dependencies), name@) == Some(d@),
                None => lookup(deps_view(self.dependencies), name@) is None,
            },
    {
        get_entry(&self.dependencies, name)
    }

    /// The development dependency declared as `name`.
    pub fn get_dev_dependency(&self, name: &str) -> (r: Option<&Dependency>)
        ensures
            match r {
                Some(d) => lookup(deps_view(self.dev_dependencies), name@) == Some(d@),
                None => lookup(deps_view(self.dev_dependencies), name@) is None,
            },
    {
        get_entry(&self.dev_dependencies, name)
    }
}

/// The entry declared as `name` in an optional table.
pub fn get_entry<'a>(table: &'a Option<Vec<(String, Dependency)>>, name: &str) -> (r: Option<&'a Dependency>)
    ensures
        match r {
            Some(d) => lookup(deps_view(*table), name@) == Some(d@),
            None => lookup(deps_view(*table), name@) is None,
        },
{
    match table {
        Some(entries) => match find_entry(entries, name) {
            Some(i) => {
                assert(table_view(entries@)[i as int].1 == entries@[i as int].1@);
                Some(&entries[i].1)
            },
            None => None,
        },
        None => {
            proof {
                lemma_key_absent(Seq::empty(), name@);
            }
            None
        },
    }
}

impl WorkspaceLock {
    /// An empty lock.
    pub fn new() -> (r: Self)
        ensures
            r.dependencies is None,
    {
        WorkspaceLock { dependencies: None }
    }

    /// Records the resolved entry of `name`, replacing any earlier one.
    pub fn add_dependency(&mut self, name: String, dep: Dependency)
        ensures
            final(self).dependencies is Some,
            deps_view(final(self).dependencies) == with_entry(deps_view(old(self).dependencies), name@, dep@),
    {
        let mut deps = match self.dependencies.take() {
            Some(d) => d,
            None => Vec::new(),
        };
        proof {
            lemma_key_absent(Seq::empty(), name@);
        }
        set_entry(&mut deps, name, dep);
        self.dependencies = Some(deps);
    }
}

} // verus!
